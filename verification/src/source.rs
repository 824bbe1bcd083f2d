//! Reading declarations from source text.
//!
//! The text is parsed by `syn`. What the parser returns is named here, not
//! described: [`parsed_item`] is the item that `syn` reads from a text, and
//! [`parsed_type`] the type. The functions of this file turn a parsed item
//! into a [`Declaration`], and are verified to copy it faithfully.
//!
//! Text is printed as `proc-macro2` prints tokens: with a blank between two
//! tokens. The crate builds `proc-macro2` without its `proc-macro` feature,
//! so that its own lexer and printer run in every process and one text is
//! always read and printed in one way.

use crate::declaration::{
    attribute_views, variant_views, Attribute, Declaration, DeclarationView, Variant,
    VariantView,
};
use crate::text::texts;
use vstd::prelude::*;

verus! {

#[verifier::external_type_specification]
#[verifier::external_body]
pub struct ExDeriveInput(syn::DeriveInput);

#[verifier::external_type_specification]
#[verifier::external_body]
pub struct ExDataEnum(syn::DataEnum);

#[verifier::external_type_specification]
#[verifier::external_body]
pub struct ExError(syn::Error);

/// The item that `syn::parse_str::<syn::DeriveInput>` reads from a source
/// text, as plain values; `None` where it reports an error.
pub uninterp spec fn parsed_item(source: Seq<char>) -> Option<DeclarationView>;

/// The type that `syn::parse_str::<syn::Type>` reads from a source text,
/// printed as text again; `None` where it reports an error.
pub uninterp spec fn parsed_type(source: Seq<char>) -> Option<Seq<char>>;

/// Whether the token stream that `proc_macro2::TokenStream::from_str` reads
/// from a text is empty; `None` where it reports an error.
pub uninterp spec fn lexed_empty(source: Seq<char>) -> Option<bool>;

/// What a parsed item holds, as plain values: the identifier and the
/// visibility printed as text, whether a closing `>` of generic parameters
/// is there, the attributes in order, and the variants in order where the
/// item is an enum.
pub uninterp spec fn item_view(item: syn::DeriveInput) -> DeclarationView;

/// The variants that the body of a parsed enum holds, in order.
pub uninterp spec fn enum_view(data: syn::DataEnum) -> Seq<VariantView>;

/// `syn::parse_str::<syn::DeriveInput>`: parses a struct, enum or union.
/// The contract names the result: the same text gives the same item.
#[verifier::external_body]
fn parse_item(source: &str) -> (r: Result<syn::DeriveInput, syn::Error>)
    ensures
        match r {
            Ok(item) => parsed_item(source@) == Some(item_view(item)),
            Err(_) => parsed_item(source@) is None,
        },
{
    syn::parse_str::<syn::DeriveInput>(source)
}

/// `syn::parse_str::<syn::Type>`, with the type printed as text through
/// `quote::ToTokens`.
/// The contract names the result: the same text gives the same type.
#[verifier::external_body]
fn parse_type(source: &str) -> (r: Result<String, syn::Error>)
    ensures
        match r {
            Ok(printed) => parsed_type(source@) == Some(printed@),
            Err(_) => parsed_type(source@) is None,
        },
{
    let parsed = syn::parse_str::<syn::Type>(source)?;
    Ok(quote::ToTokens::to_token_stream(&parsed).to_string())
}

/// `proc_macro2::TokenStream::from_str`, through `str::parse`, and
/// `TokenStream::is_empty` on the stream it reads.
/// The contract names the result: the same text gives the same answer.
#[verifier::external_body]
pub(crate) fn lex_is_empty(source: &str) -> (r: Option<bool>)
    ensures
        r == lexed_empty(source@),
{
    source.parse::<proc_macro2::TokenStream>().ok().map(|tokens| tokens.is_empty())
}

/// `syn::Error`'s `Display`: the message of the error. Nothing is claimed
/// of the text.
#[verifier::external_body]
fn error_message(error: &syn::Error) -> (r: String) {
    error.to_string()
}

/// The field `ident` of `syn::DeriveInput`, printed as text.
#[verifier::external_body]
fn item_name(item: &syn::DeriveInput) -> (r: String)
    ensures
        r@ == item_view(*item).name,
{
    item.ident.to_string()
}

/// The field `vis` of `syn::DeriveInput`, printed as text through
/// `quote::ToTokens`.
#[verifier::external_body]
fn item_visibility(item: &syn::DeriveInput) -> (r: String)
    ensures
        r@ == item_view(*item).visibility,
{
    quote::ToTokens::to_token_stream(&item.vis).to_string()
}

/// Whether `generics.gt_token` of `syn::DeriveInput` is there.
#[verifier::external_body]
fn item_is_generic(item: &syn::DeriveInput) -> (r: bool)
    ensures
        r == item_view(*item).generic,
{
    item.generics.gt_token.is_some()
}

/// The length of the field `attrs` of `syn::DeriveInput`.
#[verifier::external_body]
fn attribute_count(item: &syn::DeriveInput) -> (r: usize)
    ensures
        r == item_view(*item).attributes.len(),
{
    item.attrs.len()
}

/// One attribute of `syn::DeriveInput`, printed as text through
/// `quote::ToTokens`.
#[verifier::external_body]
fn attribute_text(item: &syn::DeriveInput, i: usize) -> (r: String)
    requires
        i < item_view(*item).attributes.len(),
    ensures
        r@ == item_view(*item).attributes[i as int].text,
{
    quote::ToTokens::to_token_stream(&item.attrs[i]).to_string()
}

/// `syn::Path::get_ident` on the path of one attribute, with the
/// identifier printed as text; `None` where the path is no single
/// identifier.
#[verifier::external_body]
fn attribute_name(item: &syn::DeriveInput, i: usize) -> (r: Option<String>)
    requires
        i < item_view(*item).attributes.len(),
    ensures
        match r {
            Some(name) => item_view(*item).attributes[i as int].name == Some(name@),
            None => item_view(*item).attributes[i as int].name is None,
        },
{
    item.attrs[i].path().get_ident().map(|ident| ident.to_string())
}

/// The field `tokens` of one attribute whose `meta` is a `syn::Meta::List`,
/// printed as text; `None` for another kind of attribute.
#[verifier::external_body]
fn attribute_list_tokens(item: &syn::DeriveInput, i: usize) -> (r: Option<String>)
    requires
        i < item_view(*item).attributes.len(),
    ensures
        match r {
            Some(tokens) => item_view(*item).attributes[i as int].list_tokens == Some(tokens@),
            None => item_view(*item).attributes[i as int].list_tokens is None,
        },
{
    match &item.attrs[i].meta {
        syn::Meta::List(list) => Some(list.tokens.to_string()),
        syn::Meta::Path(_) => None,
        syn::Meta::NameValue(_) => None,
    }
}

/// The field `data` of `syn::DeriveInput`, where it is a
/// `syn::Data::Enum`; `None` for a struct or a union.
#[verifier::external_body]
fn item_enum(item: &syn::DeriveInput) -> (r: Option<&syn::DataEnum>)
    ensures
        match r {
            Some(data) => item_view(*item).variants == Some(enum_view(*data)),
            None => item_view(*item).variants is None,
        },
{
    match &item.data {
        syn::Data::Enum(data) => Some(data),
        syn::Data::Struct(_) => None,
        syn::Data::Union(_) => None,
    }
}

/// `syn::punctuated::Punctuated::len` on the field `variants` of
/// `syn::DataEnum`.
#[verifier::external_body]
fn variant_count(data: &syn::DataEnum) -> (r: usize)
    ensures
        r == enum_view(*data).len(),
{
    data.variants.len()
}

/// The field `ident` of one variant, printed as text.
#[verifier::external_body]
fn variant_label(data: &syn::DataEnum, i: usize) -> (r: String)
    requires
        i < enum_view(*data).len(),
    ensures
        r@ == enum_view(*data)[i as int].label,
{
    data.variants[i].ident.to_string()
}

/// The expression in the field `discriminant` of one variant, printed as
/// text through `quote::ToTokens`; `None` where the variant has none.
#[verifier::external_body]
fn variant_discriminant(data: &syn::DataEnum, i: usize) -> (r: Option<String>)
    requires
        i < enum_view(*data).len(),
    ensures
        match r {
            Some(source) => enum_view(*data)[i as int].discriminant == Some(source@),
            None => enum_view(*data)[i as int].discriminant is None,
        },
{
    data.variants[i].discriminant.as_ref().map(
        |pair| quote::ToTokens::to_token_stream(&pair.1).to_string(),
    )
}

/// The length of the field `attrs` of one variant.
#[verifier::external_body]
fn variant_attribute_count(data: &syn::DataEnum, i: usize) -> (r: usize)
    requires
        i < enum_view(*data).len(),
    ensures
        r == enum_view(*data)[i as int].attributes.len(),
{
    data.variants[i].attrs.len()
}

/// One attribute of one variant, printed as text through
/// `quote::ToTokens`.
#[verifier::external_body]
fn variant_attribute_text(data: &syn::DataEnum, i: usize, j: usize) -> (r: String)
    requires
        i < enum_view(*data).len(),
        j < enum_view(*data)[i as int].attributes.len(),
    ensures
        r@ == enum_view(*data)[i as int].attributes[j as int],
{
    quote::ToTokens::to_token_stream(&data.variants[i].attrs[j]).to_string()
}

/// Copies the attributes of a parsed item.
fn read_attributes(item: &syn::DeriveInput) -> (r: Vec<Attribute>)
    ensures
        attribute_views(r@) == item_view(*item).attributes,
{
    let count = attribute_count(item);
    let mut list: Vec<Attribute> = Vec::new();
    let mut i: usize = 0;
    while i < count
        invariant
            i <= count,
            count == item_view(*item).attributes.len(),
            list.len() == i,
            attribute_views(list@) =~= item_view(*item).attributes.take(i as int),
        decreases count - i,
    {
        let attribute = Attribute {
            text: attribute_text(item, i),
            name: attribute_name(item, i),
            list_tokens: attribute_list_tokens(item, i),
        };
        let ghost before = list@;
        list.push(attribute);
        proof {
            let all = item_view(*item).attributes;
            assert forall|j: int| 0 <= j <= i implies attribute_views(list@)[j] == all[j] by {
                if j < i {
                    assert(attribute_views(before)[j] == all.take(i as int)[j]);
                }
            }
        }
        i += 1;
    }
    proof {
        assert(item_view(*item).attributes.take(i as int) =~= item_view(*item).attributes);
    }
    list
}

/// Copies one variant of a parsed enum.
fn read_variant(data: &syn::DataEnum, i: usize) -> (r: Variant)
    requires
        i < enum_view(*data).len(),
    ensures
        r@ == enum_view(*data)[i as int],
{
    let count = variant_attribute_count(data, i);
    let mut attributes: Vec<String> = Vec::new();
    let mut j: usize = 0;
    while j < count
        invariant
            j <= count,
            i < enum_view(*data).len(),
            count == enum_view(*data)[i as int].attributes.len(),
            attributes.len() == j,
            texts(attributes@) =~= enum_view(*data)[i as int].attributes.take(j as int),
        decreases count - j,
    {
        let ghost before = attributes@;
        attributes.push(variant_attribute_text(data, i, j));
        proof {
            let all = enum_view(*data)[i as int].attributes;
            assert forall|k: int| 0 <= k <= j implies texts(attributes@)[k] == all[k] by {
                if k < j {
                    assert(texts(before)[k] == all.take(j as int)[k]);
                }
            }
        }
        j += 1;
    }
    proof {
        let all = enum_view(*data)[i as int].attributes;
        assert(all.take(j as int) =~= all);
    }
    Variant {
        label: variant_label(data, i),
        discriminant: variant_discriminant(data, i),
        attributes,
    }
}

/// Copies the variants of a parsed enum.
fn read_variants(data: &syn::DataEnum) -> (r: Vec<Variant>)
    ensures
        variant_views(r@) == enum_view(*data),
{
    let count = variant_count(data);
    let mut list: Vec<Variant> = Vec::new();
    let mut i: usize = 0;
    while i < count
        invariant
            i <= count,
            count == enum_view(*data).len(),
            list.len() == i,
            variant_views(list@) =~= enum_view(*data).take(i as int),
        decreases count - i,
    {
        let ghost before = list@;
        list.push(read_variant(data, i));
        proof {
            let all = enum_view(*data);
            assert forall|j: int| 0 <= j <= i implies variant_views(list@)[j] == all[j] by {
                if j < i {
                    assert(variant_views(before)[j] == all.take(i as int)[j]);
                }
            }
        }
        i += 1;
    }
    proof {
        assert(enum_view(*data).take(i as int) =~= enum_view(*data));
    }
    list
}

/// Copies a parsed item.
fn read_item(item: &syn::DeriveInput) -> (r: Declaration)
    ensures
        r@ == item_view(*item),
{
    let variants = match item_enum(item) {
        Some(data) => Some(read_variants(data)),
        None => None,
    };
    Declaration {
        name: item_name(item),
        visibility: item_visibility(item),
        generic: item_is_generic(item),
        attributes: read_attributes(item),
        variants,
    }
}

/// Reads a struct, enum or union from source text. Where the text is no
/// such item the parser's message comes back.
pub fn parse_declaration(source: &str) -> (r: Result<Declaration, String>)
    ensures
        match r {
            Ok(declaration) => parsed_item(source@) == Some(declaration@),
            Err(_) => parsed_item(source@) is None,
        },
{
    match parse_item(source) {
        Ok(item) => Ok(read_item(&item)),
        Err(error) => Err(error_message(&error)),
    }
}

/// Reads a type expression from source text and gives it back as `syn`
/// prints it. Where the text is no type the parser's message comes back.
pub(crate) fn parse_type_text(source: &str) -> (r: Result<String, String>)
    ensures
        match r {
            Ok(printed) => parsed_type(source@) == Some(printed@),
            Err(_) => parsed_type(source@) is None,
        },
{
    match parse_type(source) {
        Ok(printed) => Ok(printed),
        Err(error) => Err(error_message(&error)),
    }
}

} // verus!
