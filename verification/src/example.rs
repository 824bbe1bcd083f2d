//! An enumeration written out in full, as an example of the generated
//! shape:
//!
//! ```text
//! #[derive(Clone, Copy, PartialEq, Eq, Hash)]
//! pub enum Enum: u64 {
//!     DefaultVariant,
//!     DocumentedVariant,
//!     VariantWithValue = 0x777,
//!     VariantWithComputedValue = Self::DefaultVariant.0 + 7,
//! }
//! ```

use crate::expr::{eval_spec, labels, values, BindingView, ExprView};
use crate::lookup::{first_is_position, position_is_first};
use crate::lookup::position;
use crate::model::{EntryView, EnumView};
use crate::resolve::{
    debug_text, entry_value, label_of, resolve_entries, resolve_spec, Fault, Failure,
    ResolvedView,
};
use crate::text::decimal;
use crate::underlying::IntType;
use crate::CEnum;
use vstd::prelude::*;
use vstd::string::*;
use vstd::std_specs::convert::FromSpecImpl;

verus! {

/// The newtype of the example. Where written source has a constant for an
/// entry, this type has a function of the same name: `Enum::DefaultVariant()`.
#[derive(Clone, Copy, PartialEq, Eq, Structural, Hash)]
pub struct Enum(pub u64);

#[allow(non_snake_case)]
impl Enum {
    /// The first entry, which has no value of its own and so is zero.
    pub fn DefaultVariant() -> (r: Self)
        ensures
            r.0 == 0,
    {
        Self(0)
    }

    /// We can also put doc comments and other attributes on a variant.
    pub fn DocumentedVariant() -> (r: Self)
        ensures
            r.0 == 1,
    {
        Self(Self::DefaultVariant().0 + 1)
    }

    /// Or, we can assign values to a variant.
    pub fn VariantWithValue() -> (r: Self)
        ensures
            r.0 == 0x777,
    {
        Self(0x777)
    }

    /// We can also refer to the values of other variants.
    pub fn VariantWithComputedValue() -> (r: Self)
        ensures
            r.0 == 7,
    {
        Self(Self::DefaultVariant().0 + 7)
    }
}

impl From<u64> for Enum {
    fn from(value: u64) -> (r: Enum) {
        Self(value)
    }
}

impl FromSpecImpl<u64> for Enum {
    open spec fn obeys_from_spec() -> bool {
        true
    }

    open spec fn from_spec(value: u64) -> Enum {
        Enum(value)
    }
}

impl From<Enum> for u64 {
    fn from(value: Enum) -> (r: u64) {
        value.0
    }
}

impl FromSpecImpl<Enum> for u64 {
    open spec fn obeys_from_spec() -> bool {
        true
    }

    open spec fn from_spec(value: Enum) -> u64 {
        value.0
    }
}

impl Enum {
    /// The enumeration with its values: what the functions above return.
    pub open spec fn resolved() -> ResolvedView {
        ResolvedView {
            name: "Enum"@,
            underlying: IntType::U64,
            entries: seq![
                BindingView { label: "DefaultVariant"@, value: 0 },
                BindingView { label: "DocumentedVariant"@, value: 1 },
                BindingView { label: "VariantWithValue"@, value: 0x777 },
                BindingView { label: "VariantWithComputedValue"@, value: 7 },
            ],
        }
    }

    /// The enumeration as it is declared.
    pub open spec fn declared() -> EnumView {
        EnumView {
            name: "Enum"@,
            underlying_type: "u64"@,
            visibility: "pub"@,
            outer_attributes: seq!["#[derive(Clone, Copy, PartialEq, Eq, Hash)]"@],
            entries: seq![
                EntryView { label: "DefaultVariant"@, explicit_value: None, attributes: seq![] },
                EntryView {
                    label: "DocumentedVariant"@,
                    explicit_value: None,
                    attributes: seq![
                        "/// We can also put doc comments and other attributes on a variant."@,
                    ],
                },
                EntryView {
                    label: "VariantWithValue"@,
                    explicit_value: Some(ExprView::Literal(0x777)),
                    attributes: seq!["/// Or, we can assign values to a variant."@],
                },
                EntryView {
                    label: "VariantWithComputedValue"@,
                    explicit_value: Some(
                        ExprView::Sum(
                            Box::new(ExprView::Stored("DefaultVariant"@)),
                            Box::new(ExprView::Literal(7)),
                        ),
                    ),
                    attributes: seq!["/// We can also refer to the values of other variants."@],
                },
            ],
        }
    }

    /// The values written out above are those that resolving the
    /// declaration gives.
    pub proof fn declaration_resolves()
        ensures
            resolve_spec(Self::declared()) == Ok::<ResolvedView, Failure>(Self::resolved()),
    {
        reveal_strlit("u8");
        reveal_strlit("u16");
        reveal_strlit("u32");
        reveal_strlit("u64");
        reveal_strlit("DefaultVariant");
        reveal_strlit("DocumentedVariant");
        reveal_strlit("VariantWithValue");
        reveal_strlit("VariantWithComputedValue");
        assert("u8"@.len() == 2 && "u64"@.len() == 3);
        assert("u16"@[1] == '1' && "u32"@[1] == '3' && "u64"@[1] == '6');
        assert(IntType::named("u64"@) == Some(IntType::U64));
        assert("DefaultVariant"@.len() == 14);
        assert("DocumentedVariant"@.len() == 17);
        assert("VariantWithValue"@.len() == 16);
        assert("VariantWithComputedValue"@.len() == 24);
        let ty = IntType::U64;
        let all = Self::declared().entries;
        let want = Self::resolved().entries;
        let e0: Seq<BindingView> = Seq::empty();
        let e1 = e0.push(want[0]);
        let e2 = e1.push(want[1]);
        let e3 = e2.push(want[2]);
        let e4 = e3.push(want[3]);
        assert(all.take(0) =~= Seq::<EntryView>::empty());
        assert(all.take(1).drop_last() =~= all.take(0));
        assert(all.take(2).drop_last() =~= all.take(1));
        assert(all.take(3).drop_last() =~= all.take(2));
        assert(all.take(4).drop_last() =~= all.take(3));
        assert(all.take(4) =~= all);
        assert(resolve_entries(ty, all.take(0)) == Ok::<Seq<BindingView>, (int, Fault)>(e0));
        assert(position(labels(e0), all[0].label) is None);
        assert(entry_value(ty, all[0], e0) == Ok::<int, Fault>(0));
        assert(resolve_entries(ty, all.take(1)) == Ok::<Seq<BindingView>, (int, Fault)>(e1));
        assert(position(labels(e1), all[1].label) is None) by {
            position_is_first(labels(e1), all[1].label);
            assert(labels(e1)[0] == want[0].label);
        }
        assert(entry_value(ty, all[1], e1) == Ok::<int, Fault>(1));
        assert(resolve_entries(ty, all.take(2)) == Ok::<Seq<BindingView>, (int, Fault)>(e2));
        assert(position(labels(e2), all[2].label) is None) by {
            position_is_first(labels(e2), all[2].label);
            assert(labels(e2)[0] == want[0].label);
            assert(labels(e2)[1] == want[1].label);
        }
        assert(entry_value(ty, all[2], e2) == Ok::<int, Fault>(0x777));
        assert(resolve_entries(ty, all.take(3)) == Ok::<Seq<BindingView>, (int, Fault)>(e3));
        assert(position(labels(e3), all[3].label) is None) by {
            position_is_first(labels(e3), all[3].label);
            assert(labels(e3)[0] == want[0].label);
            assert(labels(e3)[1] == want[1].label);
            assert(labels(e3)[2] == want[2].label);
        }
        assert(position(labels(e3), "DefaultVariant"@) == Some(0int)) by {
            first_is_position(labels(e3), "DefaultVariant"@, 0);
        }
        assert(entry_value(ty, all[3], e3) == Ok::<int, Fault>(7)) by {
            reveal_with_fuel(eval_spec, 3);
        }
        assert(resolve_entries(ty, all.take(4)) == Ok::<Seq<BindingView>, (int, Fault)>(e4));
        assert(e4 =~= want);
    }

    /// Shows the value for diagnosis: `Enum::` and the label where an entry
    /// holds the value, `Enum(..)` around the stored value where none does.
    pub fn debug(&self) -> (r: String)
        ensures
            r@ == debug_text(Self::resolved(), self.0 as int),
    {
        match self.variant_label() {
            Some(variant) => {
                let mut out = String::from_str("Enum");
                out.append("::");
                out.append(variant);
                out
            },
            None => {
                let number = decimal(self.0 as i128);
                let mut out = String::from_str("Enum");
                out.append("(");
                out.append(number.as_str());
                out.append(")");
                out
            },
        }
    }
}

impl CEnum for Enum {
    type Inner = u64;

    /// The label of the first entry that holds the value.
    fn variant_label(&self) -> (r: Option<&'static str>)
        ensures
            match r {
                Some(label) => label_of(Self::resolved().entries, self.0 as int) == Some(label@),
                None => label_of(Self::resolved().entries, self.0 as int) is None,
            },
    {
        proof {
            let stored = values(Self::resolved().entries);
            let v = self.0 as int;
            position_is_first(stored, v);
            if v == 0 {
                first_is_position(stored, v, 0);
            } else if v == 1 {
                first_is_position(stored, v, 1);
            } else if v == 0x777 {
                first_is_position(stored, v, 2);
            } else if v == 7 {
                first_is_position(stored, v, 3);
            }
        }
        if Self::DefaultVariant().0 == self.0 {
            Some("DefaultVariant")
        } else if Self::DocumentedVariant().0 == self.0 {
            Some("DocumentedVariant")
        } else if Self::VariantWithValue().0 == self.0 {
            Some("VariantWithValue")
        } else if Self::VariantWithComputedValue().0 == self.0 {
            Some("VariantWithComputedValue")
        } else {
            None
        }
    }
}

} // verus!
