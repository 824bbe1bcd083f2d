//! From a declaration to the source of its newtype.
//!
//! [`expand`] reads an enum written in the ordinary syntax,
//!
//! ```text
//! #[repr(u32)]
//! #[derive(Clone, Copy, PartialEq, Eq)]
//! pub enum Flags { A, B = 5, C }
//! ```
//!
//! and writes the source of a tuple struct `Flags` over `u32` with one
//! constant for each variant. The underlying type is taken from the first
//! `repr` attribute and is `isize` where there is none. A variant without a
//! discriminant is written as the stored value of the variant before it plus
//! one, the first one as zero.

use crate::declaration::{
    attribute_views, variant_views, Attribute, AttributeView, Declaration, DeclarationView,
    Variant, VariantView,
};
use crate::expr::{ExprView, ValueExpr};
use crate::lookup::{position, scan_ends, scan_finds, scan_passes};
use crate::model::{entries_view, EntrySpec, EntryView, EnumSpec, EnumView};
use crate::render::{render, render_text};
use crate::source::{
    lex_is_empty, lexed_empty, parse_declaration, parse_type_text, parsed_item, parsed_type,
};
use crate::text::{same_text, texts};
use vstd::prelude::*;
use vstd::string::*;

verus! {

/// Why a declaration is not expanded.
#[derive(Debug)]
pub enum ExpandError {
    /// The input is no struct, enum or union, or the tokens of its `repr`
    /// attribute are no type. The parser's message is carried along.
    Syntax(String),
    /// Arguments were given, and none are taken.
    UnexpectedArguments,
    /// The declaration has generic parameters.
    Generic,
    /// The declaration is a struct or a union.
    NotAnEnum,
    /// The `repr` attribute is not of the form `repr(..)`.
    MalformedRepr,
}

/// The kind of an [`ExpandError`], without the parser's message.
#[derive(Clone, Copy, PartialEq, Eq, Structural, Debug)]
pub enum ErrorKind {
    Syntax,
    UnexpectedArguments,
    Generic,
    NotAnEnum,
    MalformedRepr,
}

impl View for ExpandError {
    type V = ErrorKind;

    open spec fn view(&self) -> ErrorKind {
        match self {
            ExpandError::Syntax(_) => ErrorKind::Syntax,
            ExpandError::UnexpectedArguments => ErrorKind::UnexpectedArguments,
            ExpandError::Generic => ErrorKind::Generic,
            ExpandError::NotAnEnum => ErrorKind::NotAnEnum,
            ExpandError::MalformedRepr => ErrorKind::MalformedRepr,
        }
    }
}

impl ExpandError {
    /// The message of the error, as text.
    pub open spec fn message_text(self) -> Seq<char> {
        match self {
            ExpandError::Syntax(message) => message@,
            ExpandError::UnexpectedArguments => "unexpected arguments to the c_enum macro"@,
            ExpandError::Generic => "generic enums are not yet supported"@,
            ExpandError::NotAnEnum => "c_enum only supports enums"@,
            ExpandError::MalformedRepr => "could not parse #[repr] annotation"@,
        }
    }

    /// The kind of the error.
    pub fn kind(&self) -> (r: ErrorKind)
        ensures
            r == self@,
    {
        match self {
            ExpandError::Syntax(_) => ErrorKind::Syntax,
            ExpandError::UnexpectedArguments => ErrorKind::UnexpectedArguments,
            ExpandError::Generic => ErrorKind::Generic,
            ExpandError::NotAnEnum => ErrorKind::NotAnEnum,
            ExpandError::MalformedRepr => ErrorKind::MalformedRepr,
        }
    }

    /// The message of the error.
    pub fn message(&self) -> (r: String)
        ensures
            r@ == self.message_text(),
    {
        match self {
            ExpandError::Syntax(message) => message.clone(),
            ExpandError::UnexpectedArguments => String::from_str(
                "unexpected arguments to the c_enum macro",
            ),
            ExpandError::Generic => String::from_str("generic enums are not yet supported"),
            ExpandError::NotAnEnum => String::from_str("c_enum only supports enums"),
            ExpandError::MalformedRepr => String::from_str("could not parse #[repr] annotation"),
        }
    }
}

/// Whether an attribute is a `repr` attribute: whether its path is the
/// single identifier `repr`.
pub open spec fn is_repr(attribute: AttributeView) -> bool {
    attribute.name == Some("repr"@)
}

/// For each attribute, whether it is a `repr` attribute.
pub open spec fn repr_flags(attributes: Seq<AttributeView>) -> Seq<bool> {
    Seq::new(attributes.len(), |i: int| is_repr(attributes[i]))
}

/// What is settled before anything is written: the reason for which the
/// declaration is refused, or the index of the attribute that names the
/// underlying type, `None` where no `repr` attribute is there.
///
/// Arguments are refused first, then generic parameters, then a struct or a
/// union, then a first `repr` attribute that is no list.
pub open spec fn plan_spec(has_arguments: bool, d: DeclarationView) -> Result<
    Option<int>,
    ErrorKind,
> {
    if has_arguments {
        Err(ErrorKind::UnexpectedArguments)
    } else if d.generic {
        Err(ErrorKind::Generic)
    } else if d.variants is None {
        Err(ErrorKind::NotAnEnum)
    } else {
        match position(repr_flags(d.attributes), true) {
            None => Ok(None),
            Some(i) => if d.attributes[i].list_tokens is Some {
                Ok(Some(i))
            } else {
                Err(ErrorKind::MalformedRepr)
            },
        }
    }
}

/// The attributes that are passed through to the newtype: all but the one
/// at `repr`.
pub open spec fn kept_attributes(attributes: Seq<AttributeView>, repr: Option<int>) -> Seq<
    Seq<char>,
> {
    let kept = match repr {
        Some(i) => if 0 <= i < attributes.len() {
            attributes.remove(i)
        } else {
            attributes
        },
        None => attributes,
    };
    Seq::new(kept.len(), |j: int| kept[j].text)
}

/// The entry that a variant declares. Its discriminant is carried as source
/// text.
pub open spec fn entry_of(v: VariantView) -> EntryView {
    EntryView {
        label: v.label,
        explicit_value: match v.discriminant {
            Some(source) => Some(ExprView::Verbatim(source)),
            None => None,
        },
        attributes: v.attributes,
    }
}

/// The entries that a list of variants declares.
pub open spec fn entries_of(variants: Seq<VariantView>) -> Seq<EntryView> {
    Seq::new(variants.len(), |i: int| entry_of(variants[i]))
}

/// The enumeration that a declaration describes, over the given underlying
/// type and without the attribute at `repr`.
pub open spec fn enum_of(d: DeclarationView, repr: Option<int>, underlying: Seq<char>) -> EnumView {
    EnumView {
        name: d.name,
        underlying_type: underlying,
        visibility: d.visibility,
        outer_attributes: kept_attributes(d.attributes, repr),
        entries: match d.variants {
            Some(variants) => entries_of(variants),
            None => Seq::empty(),
        },
    }
}

/// What was written or why nothing was, as mathematical content.
pub open spec fn outcome(r: Result<String, ExpandError>) -> Result<Seq<char>, ErrorKind> {
    match r {
        Ok(source) => Ok(source@),
        Err(error) => Err(error@),
    }
}

/// The underlying type that the first `repr` attribute of a declaration
/// names: what the parser reads from the tokens of its list. `None` where
/// no such attribute is there, where it is no list, and where its tokens are
/// no type.
pub open spec fn repr_type(d: DeclarationView) -> Option<Seq<char>> {
    match position(repr_flags(d.attributes), true) {
        Some(i) => match d.attributes[i].list_tokens {
            Some(tokens) => parsed_type(tokens),
            None => None,
        },
        None => None,
    }
}

/// What expanding a declaration gives, where `underlying` is the type that
/// was read from its `repr` attribute: the reason for which it is refused,
/// or its source over that type, over `isize` where it has no `repr`
/// attribute.
pub open spec fn expand_read(
    has_arguments: bool,
    d: DeclarationView,
    underlying: Option<Seq<char>>,
) -> Result<Seq<char>, ErrorKind> {
    match plan_spec(has_arguments, d) {
        Err(kind) => Err(kind),
        Ok(None) => Ok(render_text(enum_of(d, None, "isize"@))),
        Ok(Some(i)) => match underlying {
            Some(name) => Ok(render_text(enum_of(d, Some(i), name))),
            None => Err(ErrorKind::Syntax),
        },
    }
}

/// Whether arguments were given, where `lexed` tells whether their text
/// was read as an empty token stream: text that cannot be read counts as
/// arguments.
pub open spec fn has_tokens(lexed: Option<bool>) -> bool {
    lexed != Some(true)
}

/// What [`expand`] gives, where `parsed` is what the parser made of the
/// input.
pub open spec fn expand_spec(has_arguments: bool, parsed: Option<DeclarationView>) -> Result<
    Seq<char>,
    ErrorKind,
> {
    match parsed {
        None => Err(ErrorKind::Syntax),
        Some(d) => expand_read(has_arguments, d, repr_type(d)),
    }
}

/// Finds the first `repr` attribute.
pub fn find_repr(attributes: &Vec<Attribute>) -> (r: Option<usize>)
    ensures
        match r {
            Some(i) => i < attributes.len() && position(
                repr_flags(attribute_views(attributes@)),
                true,
            ) == Some(i as int),
            None => position(repr_flags(attribute_views(attributes@)), true)
                is None,
        },
{
    let ghost flags = repr_flags(attribute_views(attributes@));
    let mut i: usize = 0;
    while i < attributes.len()
        invariant
            i <= attributes.len(),
            flags == repr_flags(attribute_views(attributes@)),
            position(flags.take(i as int), true) is None,
        decreases attributes.len() - i,
    {
        let found = match &attributes[i].name {
            Some(name) => same_text(name.as_str(), "repr"),
            None => false,
        };
        if found {
            proof {
                scan_finds(flags, true, i as int);
            }
            return Some(i);
        }
        proof {
            scan_passes(flags, true, i as int);
        }
        i += 1;
    }
    proof {
        scan_ends(flags, true);
    }
    None
}

/// Settles whether a declaration is expanded, and from which attribute its
/// underlying type is read.
pub fn plan(has_arguments: bool, declaration: &Declaration) -> (r: Result<
    Option<usize>,
    ExpandError,
>)
    ensures
        match r {
            Ok(Some(i)) => plan_spec(has_arguments, declaration@) == Ok::<Option<int>, ErrorKind>(
                Some(i as int),
            ) && i < declaration.attributes.len() && declaration.attributes[i as int].list_tokens
                is Some,
            Ok(None) => plan_spec(has_arguments, declaration@) == Ok::<Option<int>, ErrorKind>(
                None,
            ),
            Err(error) => plan_spec(has_arguments, declaration@) == Err::<Option<int>, ErrorKind>(
                error@,
            ) && !(error is Syntax),
        },
{
    if has_arguments {
        return Err(ExpandError::UnexpectedArguments);
    }
    if declaration.generic {
        return Err(ExpandError::Generic);
    }
    if declaration.variants.is_none() {
        return Err(ExpandError::NotAnEnum);
    }
    match find_repr(&declaration.attributes) {
        None => Ok(None),
        Some(i) => {
            if declaration.attributes[i].list_tokens.is_some() {
                Ok(Some(i))
            } else {
                Err(ExpandError::MalformedRepr)
            }
        },
    }
}

fn copy_texts(list: &Vec<String>) -> (r: Vec<String>)
    ensures
        texts(r@) == texts(list@),
{
    let mut out: Vec<String> = Vec::new();
    let mut i: usize = 0;
    while i < list.len()
        invariant
            i <= list.len(),
            out.len() == i,
            forall|j: int| 0 <= j < i ==> out[j]@ == list[j]@,
        decreases list.len() - i,
    {
        out.push(list[i].clone());
        i += 1;
    }
    proof {
        assert(texts(out@) =~= texts(list@));
    }
    out
}

fn keep_attributes(attributes: &Vec<Attribute>, repr: Option<usize>) -> (r: Vec<String>)
    ensures
        texts(r@) == kept_attributes(
            attribute_views(attributes@),
            match repr {
                Some(i) => Some(i as int),
                None => None,
            },
        ),
{
    let ghost all = attribute_views(attributes@);
    let ghost skip: Option<int> = match repr {
        Some(i) => Some(i as int),
        None => None,
    };
    let mut out: Vec<String> = Vec::new();
    let mut k: usize = 0;
    proof {
        assert(texts(out@) =~= kept_attributes(all.take(0), skip));
    }
    while k < attributes.len()
        invariant
            k <= attributes.len(),
            all == attribute_views(attributes@),
            skip == match repr {
                Some(i) => Some(i as int),
                None => None,
            },
            texts(out@) == kept_attributes(all.take(k as int), skip),
        decreases attributes.len() - k,
    {
        let ghost before = texts(out@);
        let dropped = match repr {
            Some(i) => i == k,
            None => false,
        };
        if !dropped {
            out.push(attributes[k].text.clone());
        }
        proof {
            let shorter = all.take(k as int);
            let longer = all.take(k + 1);
            assert(longer.len() == k + 1);
            assert(shorter.len() == k);
            if dropped {
                assert(longer.remove(k as int) =~= shorter);
            } else {
                assert(texts(out@) =~= before.push(all[k as int].text));
                match skip {
                    Some(i) => {
                        if 0 <= i < k {
                            assert(longer.remove(i) =~= shorter.remove(i).push(all[k as int]));
                        } else {
                            assert(longer =~= shorter.push(all[k as int]));
                        }
                    },
                    None => {
                        assert(longer =~= shorter.push(all[k as int]));
                    },
                }
                assert(kept_attributes(longer, skip) =~= kept_attributes(shorter, skip).push(
                    all[k as int].text,
                ));
            }
        }
        k += 1;
    }
    proof {
        assert(all.take(k as int) =~= all);
    }
    out
}

fn entry_from(variant: &Variant) -> (r: EntrySpec)
    ensures
        r@ == entry_of(variant@),
{
    let explicit_value = match &variant.discriminant {
        Some(source) => Some(ValueExpr::Verbatim(source.clone())),
        None => None,
    };
    EntrySpec {
        label: variant.label.clone(),
        explicit_value,
        attributes: copy_texts(&variant.attributes),
    }
}

fn entries_from(variants: &Vec<Variant>) -> (r: Vec<EntrySpec>)
    ensures
        entries_view(r@) == entries_of(variant_views(variants@)),
{
    let mut out: Vec<EntrySpec> = Vec::new();
    let mut i: usize = 0;
    while i < variants.len()
        invariant
            i <= variants.len(),
            out.len() == i,
            forall|j: int| 0 <= j < i ==> out[j]@ == entry_of(variants[j]@),
        decreases variants.len() - i,
    {
        out.push(entry_from(&variants[i]));
        i += 1;
    }
    proof {
        assert(entries_view(out@) =~= entries_of(variant_views(variants@)));
    }
    out
}

/// Builds the description of the enumeration that a declaration declares,
/// over the given underlying type. The attribute at `repr` is left out;
/// every other attribute is passed through. A struct or a union declares no
/// entry.
pub fn build_spec(declaration: &Declaration, repr: Option<usize>, underlying: String) -> (r:
    EnumSpec)
    ensures
        r@ == enum_of(
            declaration@,
            match repr {
                Some(i) => Some(i as int),
                None => None,
            },
            underlying@,
        ),
{
    let entries = match &declaration.variants {
        Some(variants) => entries_from(variants),
        None => Vec::new(),
    };
    proof {
        if declaration.variants is None {
            assert(entries_view(entries@) =~= Seq::empty());
        }
    }
    EnumSpec {
        name: declaration.name.clone(),
        underlying_type: underlying,
        visibility: declaration.visibility.clone(),
        outer_attributes: keep_attributes(&declaration.attributes, repr),
        entries,
    }
}

/// Expands a declaration that has been read: settles whether it is taken,
/// and writes its source over `underlying`, the type that was read from its
/// `repr` attribute; `None` stands for a `repr` attribute that holds no
/// type, and for a declaration without one.
pub fn expand_declaration(
    has_arguments: bool,
    declaration: &Declaration,
    underlying: Option<String>,
) -> (r: Result<String, ExpandError>)
    ensures
        outcome(r) == expand_read(
            has_arguments,
            declaration@,
            match underlying {
                Some(name) => Some(name@),
                None => None,
            },
        ),
{
    match plan(has_arguments, declaration) {
        Err(error) => Err(error),
        Ok(None) => {
            let spec = build_spec(declaration, None, String::from_str("isize"));
            Ok(render(&spec))
        },
        Ok(Some(i)) => match underlying {
            Some(name) => {
                let spec = build_spec(declaration, Some(i), name);
                Ok(render(&spec))
            },
            None => Err(ExpandError::Syntax(String::from_str("expected a type in #[repr]"))),
        },
    }
}

/// Expands an enum declaration into the source of its newtype.
///
/// `attr` holds the arguments, of which none are taken: it must hold no
/// token. `input` is the declaration. The result is the source text, or the
/// first of these errors: the input is no struct, enum or union
/// (`Syntax`); arguments were given; the declaration is generic; it is a
/// struct or a union; its first `repr` attribute is no list; the tokens of
/// that list are no type (`Syntax`).
pub fn expand(attr: &str, input: &str) -> (r: Result<String, ExpandError>)
    ensures
        outcome(r) == expand_spec(has_tokens(lexed_empty(attr@)), parsed_item(input@)),
{
    let declaration = match parse_declaration(input) {
        Ok(declaration) => declaration,
        Err(message) => {
            return Err(ExpandError::Syntax(message));
        },
    };
    let has_arguments = match lex_is_empty(attr) {
        Some(empty) => !empty,
        None => true,
    };
    match plan(has_arguments, &declaration) {
        Err(error) => Err(error),
        Ok(None) => expand_declaration(has_arguments, &declaration, None),
        Ok(Some(i)) => {
            let tokens = match &declaration.attributes[i].list_tokens {
                Some(tokens) => tokens,
                None => {
                    return Err(ExpandError::MalformedRepr);
                },
            };
            match parse_type_text(tokens.as_str()) {
                Ok(underlying) => expand_declaration(has_arguments, &declaration, Some(underlying)),
                Err(message) => Err(ExpandError::Syntax(message)),
            }
        },
    }
}

} // verus!
