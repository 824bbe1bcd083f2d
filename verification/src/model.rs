//! The description of an enumeration: what the library is given.

use crate::expr::{ExprView, ValueExpr};
use crate::text::texts;
use vstd::prelude::*;

verus! {

/// One named constant of an enumeration.
#[derive(Debug)]
pub struct EntrySpec {
    /// The name of the constant.
    pub label: String,
    /// The value as written, where one was written.
    pub explicit_value: Option<ValueExpr>,
    /// Attributes that are passed through to the constant, each as source
    /// text.
    pub attributes: Vec<String>,
}

/// The mathematical content of an [`EntrySpec`].
pub struct EntryView {
    pub label: Seq<char>,
    pub explicit_value: Option<ExprView>,
    pub attributes: Seq<Seq<char>>,
}

impl View for EntrySpec {
    type V = EntryView;

    open spec fn view(&self) -> EntryView {
        EntryView {
            label: self.label@,
            explicit_value: match self.explicit_value {
                Some(e) => Some(e@),
                None => None,
            },
            attributes: texts(self.attributes@),
        }
    }
}

/// An enumeration as declared: a name, the type under it and the entries in
/// declaration order.
#[derive(Debug)]
pub struct EnumSpec {
    /// The name of the type.
    pub name: String,
    /// The type expression of the stored value.
    pub underlying_type: String,
    /// The visibility of the type, as source text; empty for a private type.
    pub visibility: String,
    /// Attributes that are passed through to the type, each as source text.
    pub outer_attributes: Vec<String>,
    /// The entries, in declaration order.
    pub entries: Vec<EntrySpec>,
}

/// The mathematical content of an [`EnumSpec`].
pub struct EnumView {
    pub name: Seq<char>,
    pub underlying_type: Seq<char>,
    pub visibility: Seq<char>,
    pub outer_attributes: Seq<Seq<char>>,
    pub entries: Seq<EntryView>,
}

/// The views of a list of entries.
pub open spec fn entries_view(entries: Seq<EntrySpec>) -> Seq<EntryView> {
    Seq::new(entries.len(), |i: int| entries[i]@)
}

impl View for EnumSpec {
    type V = EnumView;

    open spec fn view(&self) -> EnumView {
        EnumView {
            name: self.name@,
            underlying_type: self.underlying_type@,
            visibility: self.visibility@,
            outer_attributes: texts(self.outer_attributes@),
            entries: entries_view(self.entries@),
        }
    }
}

} // verus!
