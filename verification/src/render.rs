//! Writing the Rust source of an enumeration: the newtype, one constant for
//! each entry, the conversions from and to the underlying type, and a
//! `Debug` that shows the label of a value.

use crate::expr::{eval_spec, expr_text, labels, EvalError, ExprView, ValueExpr};
use crate::lookup::{distinct, position_of_distinct};
use crate::model::{entries_view, EntrySpec, EntryView, EnumSpec, EnumView};
use crate::resolve::{
    explicit_value_stands, resolve_entries_prefix, resolve_spec, resolved_is_well_formed,
};
use crate::text::texts;
use crate::underlying::IntType;
use vstd::prelude::*;
use vstd::string::*;

verus! {

/// The expression that is written for the value of entry `i`: its explicit
/// value where it has one, zero for the first entry, and for every other
/// entry the stored value of its predecessor plus one.
pub open spec fn written_value(entries: Seq<EntryView>, i: int) -> ExprView {
    match entries[i].explicit_value {
        Some(e) => e,
        None => if i == 0 {
            ExprView::Literal(0)
        } else {
            ExprView::Sum(
                Box::new(ExprView::Stored(entries[i - 1].label)),
                Box::new(ExprView::Literal(1)),
            )
        },
    }
}

/// The expression that is written for an entry computes the value that
/// resolving gives the entry: to read the stored value of the predecessor
/// and add one is to step from the predecessor's resolved value.
pub proof fn written_value_agrees(e: EnumView, i: int)
    requires
        resolve_spec(e) is Ok,
        0 <= i < e.entries.len(),
    ensures
        eval_spec(
            written_value(e.entries, i),
            resolve_spec(e)->Ok_0.underlying,
            resolve_spec(e)->Ok_0.entries.take(i),
        ) == Ok::<int, EvalError>(resolve_spec(e)->Ok_0.entries[i].value),
{
    let ty = IntType::named(e.underlying_type)->Some_0;
    let resolved = resolve_spec(e)->Ok_0.entries;
    let before = resolved.take(i);
    ty.range_fits();
    resolved_is_well_formed(e);
    resolve_entries_prefix(ty, e.entries, i);
    if e.entries[i].explicit_value is Some {
        explicit_value_stands(e, i);
    } else if i == 0 {
        reveal_with_fuel(eval_spec, 2);
    } else {
        reveal_with_fuel(eval_spec, 3);
        assert(labels(before) =~= labels(resolved).take(i));
        assert(distinct(labels(before))) by {
            assert forall|a: int, b: int| 0 <= a < b < labels(before).len() implies labels(
                before,
            )[a] != labels(before)[b] by {
                assert(labels(before)[a] == labels(resolved)[a]);
                assert(labels(before)[b] == labels(resolved)[b]);
            }
        }
        position_of_distinct(labels(before), i - 1);
        assert(labels(before)[i - 1] == e.entries[i - 1].label);
        assert(before[i - 1] == resolved[i - 1]);
        assert(before.last() == resolved[i - 1]);
    }
}

/// The first `n` attributes, each on a line of its own behind `indent`.
pub open spec fn attribute_lines(attributes: Seq<Seq<char>>, indent: Seq<char>, n: nat) -> Seq<
    char,
>
    decreases n,
{
    if n == 0 {
        Seq::empty()
    } else {
        attribute_lines(attributes, indent, (n - 1) as nat) + (indent + attributes[n - 1] + "\n"@)
    }
}

/// The constant of entry `i`, behind its attributes.
pub open spec fn constant_text(entries: Seq<EntryView>, i: int) -> Seq<char> {
    attribute_lines(entries[i].attributes, "    "@, entries[i].attributes.len()) + ("    pub const "@
        + entries[i].label + ": Self = Self("@ + expr_text(written_value(entries, i)) + ");\n"@)
}

/// The constants of the first `n` entries.
pub open spec fn constants_text(entries: Seq<EntryView>, n: nat) -> Seq<char>
    decreases n,
{
    if n == 0 {
        Seq::empty()
    } else {
        constants_text(entries, (n - 1) as nat) + constant_text(entries, n - 1)
    }
}

/// The arm of `Debug` that shows entry `i`.
pub open spec fn arm_text(name: Seq<char>, entries: Seq<EntryView>, i: int) -> Seq<char> {
    "            Self(value) if Self::"@ + entries[i].label + ".0 == *value => f.write_str(\""@
        + name + "::"@ + entries[i].label + "\"),\n"@
}

/// The arms of `Debug` for the first `n` entries, in declaration order, so
/// that the first entry that holds a value shows it.
pub open spec fn arms_text(name: Seq<char>, entries: Seq<EntryView>, n: nat) -> Seq<char>
    decreases n,
{
    if n == 0 {
        Seq::empty()
    } else {
        arms_text(name, entries, (n - 1) as nat) + arm_text(name, entries, n - 1)
    }
}

/// The declaration of the newtype: a tuple struct of one private field.
pub open spec fn struct_text(e: EnumView) -> Seq<char> {
    if e.visibility.len() == 0 {
        "struct "@ + e.name + "("@ + e.underlying_type + ");\n"@
    } else {
        e.visibility + " struct "@ + e.name + "("@ + e.underlying_type + ");\n"@
    }
}

/// The block that holds the constants.
pub open spec fn constants_block(e: EnumView) -> Seq<char> {
    "\n#[allow(non_upper_case_globals)]\nimpl "@ + e.name + " {\n"@ + constants_text(
        e.entries,
        e.entries.len(),
    ) + "}\n"@
}

/// The constructor, which takes every value of the underlying type.
pub open spec fn constructor_text(e: EnumView) -> Seq<char> {
    "\nimpl "@ + e.name + " {\n    /// Create a new `"@ + e.name + "` from a `"@
        + e.underlying_type + "`.\n    pub const fn new(value: "@ + e.underlying_type
        + ") -> Self {\n        Self(value)\n    }\n}\n"@
}

/// The conversions from and to the underlying type.
pub open spec fn conversions_text(e: EnumView) -> Seq<char> {
    "\nimpl ::core::convert::From<"@ + e.underlying_type + "> for "@ + e.name
        + " {\n    fn from(value: "@ + e.underlying_type
        + ") -> Self {\n        Self::new(value)\n    }\n}\n\nimpl ::core::convert::From<"@ + e.name
        + "> for "@ + e.underlying_type + " {\n    fn from(value: "@ + e.name
        + ") -> Self {\n        value.0\n    }\n}\n"@
}

/// The `Debug` of the newtype: the label of the first entry that holds the
/// value, or the name of the type with the stored value.
pub open spec fn formatter_text(e: EnumView) -> Seq<char> {
    "\nimpl ::core::fmt::Debug for "@ + e.name + "\nwhere\n    "@ + e.underlying_type
        + ": ::core::fmt::Debug,\n{\n    fn fmt(&self, f: &mut ::core::fmt::Formatter<'_>) -> ::core::fmt::Result {\n        match self {\n"@
        + arms_text(e.name, e.entries, e.entries.len())
        + "            Self(value) => f.debug_tuple(\""@ + e.name
        + "\").field(value).finish(),\n        }\n    }\n}\n"@
}

/// The source of an enumeration without label lookup: the newtype, its
/// constants, the constructor and the conversions.
pub open spec fn plain_text(e: EnumView) -> Seq<char> {
    attribute_lines(e.outer_attributes, Seq::empty(), e.outer_attributes.len()) + struct_text(e)
        + constants_block(e) + constructor_text(e) + conversions_text(e)
}

/// The source of an enumeration: all of the above, and the `Debug` that
/// looks up the label.
pub open spec fn render_text(e: EnumView) -> Seq<char> {
    plain_text(e) + formatter_text(e)
}

fn write_attribute_lines(attributes: &Vec<String>, indent: &str) -> (r: String)
    ensures
        r@ == attribute_lines(texts(attributes@), indent@, attributes.len() as nat),
{
    let mut out = String::new();
    let mut i: usize = 0;
    while i < attributes.len()
        invariant
            i <= attributes.len(),
            out@ == attribute_lines(texts(attributes@), indent@, i as nat),
        decreases attributes.len() - i,
    {
        let mut line = String::from_str(indent);
        line.append(attributes[i].as_str());
        line.append("\n");
        out.append(line.as_str());
        i += 1;
    }
    out
}

fn write_value(entries: &Vec<EntrySpec>, i: usize) -> (r: String)
    requires
        i < entries.len(),
    ensures
        r@ == expr_text(written_value(entries_view(entries@), i as int)),
{
    match &entries[i].explicit_value {
        Some(e) => e.render(),
        None => {
            if i == 0 {
                ValueExpr::Literal(0).render()
            } else {
                let previous = ValueExpr::Stored(entries[i - 1].label.clone());
                let one = ValueExpr::Literal(1);
                proof {
                    assert(previous@ == ExprView::Stored(entries[i - 1].label@));
                    assert(one@ == ExprView::Literal(1));
                }
                let sum = ValueExpr::Sum(Box::new(previous), Box::new(one));
                sum.render()
            }
        },
    }
}

fn write_constant(entries: &Vec<EntrySpec>, i: usize) -> (r: String)
    requires
        i < entries.len(),
    ensures
        r@ == constant_text(entries_view(entries@), i as int),
{
    let mut out = write_attribute_lines(&entries[i].attributes, "    ");
    let value = write_value(entries, i);
    let mut line = String::from_str("    pub const ");
    line.append(entries[i].label.as_str());
    line.append(": Self = Self(");
    line.append(value.as_str());
    line.append(");\n");
    out.append(line.as_str());
    out
}

fn write_constants(entries: &Vec<EntrySpec>) -> (r: String)
    ensures
        r@ == constants_text(entries_view(entries@), entries.len() as nat),
{
    let mut out = String::new();
    let mut i: usize = 0;
    while i < entries.len()
        invariant
            i <= entries.len(),
            out@ == constants_text(entries_view(entries@), i as nat),
        decreases entries.len() - i,
    {
        let constant = write_constant(entries, i);
        out.append(constant.as_str());
        i += 1;
    }
    out
}

fn write_arms(name: &str, entries: &Vec<EntrySpec>) -> (r: String)
    ensures
        r@ == arms_text(name@, entries_view(entries@), entries.len() as nat),
{
    let mut out = String::new();
    let mut i: usize = 0;
    while i < entries.len()
        invariant
            i <= entries.len(),
            out@ == arms_text(name@, entries_view(entries@), i as nat),
        decreases entries.len() - i,
    {
        let mut arm = String::from_str("            Self(value) if Self::");
        arm.append(entries[i].label.as_str());
        arm.append(".0 == *value => f.write_str(\"");
        arm.append(name);
        arm.append("::");
        arm.append(entries[i].label.as_str());
        arm.append("\"),\n");
        out.append(arm.as_str());
        i += 1;
    }
    out
}

fn write_struct(spec: &EnumSpec) -> (r: String)
    ensures
        r@ == struct_text(spec@),
{
    let mut out = String::new();
    if spec.visibility.as_str().is_empty() {
        out.append("struct ");
    } else {
        out.append(spec.visibility.as_str());
        out.append(" struct ");
    }
    out.append(spec.name.as_str());
    out.append("(");
    out.append(spec.underlying_type.as_str());
    out.append(");\n");
    out
}

fn write_constants_block(spec: &EnumSpec) -> (r: String)
    ensures
        r@ == constants_block(spec@),
{
    let constants = write_constants(&spec.entries);
    let mut out = String::from_str("\n#[allow(non_upper_case_globals)]\nimpl ");
    out.append(spec.name.as_str());
    out.append(" {\n");
    out.append(constants.as_str());
    out.append("}\n");
    out
}

fn write_constructor(spec: &EnumSpec) -> (r: String)
    ensures
        r@ == constructor_text(spec@),
{
    let mut out = String::from_str("\nimpl ");
    out.append(spec.name.as_str());
    out.append(" {\n    /// Create a new `");
    out.append(spec.name.as_str());
    out.append("` from a `");
    out.append(spec.underlying_type.as_str());
    out.append("`.\n    pub const fn new(value: ");
    out.append(spec.underlying_type.as_str());
    out.append(") -> Self {\n        Self(value)\n    }\n}\n");
    out
}

fn write_conversions(spec: &EnumSpec) -> (r: String)
    ensures
        r@ == conversions_text(spec@),
{
    let mut out = String::from_str("\nimpl ::core::convert::From<");
    out.append(spec.underlying_type.as_str());
    out.append("> for ");
    out.append(spec.name.as_str());
    out.append(" {\n    fn from(value: ");
    out.append(spec.underlying_type.as_str());
    out.append(
        ") -> Self {\n        Self::new(value)\n    }\n}\n\nimpl ::core::convert::From<",
    );
    out.append(spec.name.as_str());
    out.append("> for ");
    out.append(spec.underlying_type.as_str());
    out.append(" {\n    fn from(value: ");
    out.append(spec.name.as_str());
    out.append(") -> Self {\n        value.0\n    }\n}\n");
    out
}

fn write_formatter(spec: &EnumSpec) -> (r: String)
    ensures
        r@ == formatter_text(spec@),
{
    let arms = write_arms(spec.name.as_str(), &spec.entries);
    let mut out = String::from_str("\nimpl ::core::fmt::Debug for ");
    out.append(spec.name.as_str());
    out.append("\nwhere\n    ");
    out.append(spec.underlying_type.as_str());
    out.append(
        ": ::core::fmt::Debug,\n{\n    fn fmt(&self, f: &mut ::core::fmt::Formatter<'_>) -> ::core::fmt::Result {\n        match self {\n",
    );
    out.append(arms.as_str());
    out.append("            Self(value) => f.debug_tuple(\"");
    out.append(spec.name.as_str());
    out.append("\").field(value).finish(),\n        }\n    }\n}\n");
    out
}

/// Writes the source of an enumeration without label lookup. The
/// underlying type then needs no equality and no `Debug` of its own.
pub fn render_plain(spec: &EnumSpec) -> (r: String)
    ensures
        r@ == plain_text(spec@),
{
    let mut out = write_attribute_lines(&spec.outer_attributes, "");
    proof {
        reveal_strlit("");
        assert(""@ =~= Seq::<char>::empty());
    }
    let declaration = write_struct(spec);
    let constants = write_constants_block(spec);
    let constructor = write_constructor(spec);
    let conversions = write_conversions(spec);
    out.append(declaration.as_str());
    out.append(constants.as_str());
    out.append(constructor.as_str());
    out.append(conversions.as_str());
    out
}

/// Writes the source of an enumeration, label lookup included: its `Debug`
/// needs equality and `Debug` of the underlying type.
pub fn render(spec: &EnumSpec) -> (r: String)
    ensures
        r@ == render_text(spec@),
{
    let mut out = render_plain(spec);
    let formatter = write_formatter(spec);
    out.append(formatter.as_str());
    out
}

/// The views of a list of enumerations.
pub open spec fn enum_views(specs: Seq<EnumSpec>) -> Seq<EnumView> {
    Seq::new(specs.len(), |i: int| specs[i]@)
}

/// The sources of the first `n` enumerations, one after the other.
pub open spec fn all_text(specs: Seq<EnumView>, n: nat) -> Seq<char>
    decreases n,
{
    if n == 0 {
        Seq::empty()
    } else {
        all_text(specs, (n - 1) as nat) + render_text(specs[n - 1])
    }
}

/// Writes the sources of several enumerations, in their order. Each is
/// written by itself: its source depends on no other.
pub fn render_all(specs: &Vec<EnumSpec>) -> (r: String)
    ensures
        r@ == all_text(enum_views(specs@), specs.len() as nat),
{
    let mut out = String::new();
    let mut i: usize = 0;
    while i < specs.len()
        invariant
            i <= specs.len(),
            out@ == all_text(enum_views(specs@), i as nat),
        decreases specs.len() - i,
    {
        let source = render(&specs[i]);
        out.append(source.as_str());
        i += 1;
    }
    out
}

} // verus!
