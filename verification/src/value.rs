//! The newtype that carries a stored value.

use vstd::prelude::*;
use vstd::std_specs::convert::{FromSpec, FromSpecImpl};

verus! {

/// A value of an enumeration. Every integer is a value, whether or not an
/// entry declares it; two values are equal where the stored integers are.
#[derive(Clone, Copy, PartialEq, Eq, Structural, Debug, Hash)]
pub struct CValue(pub i128);

impl CValue {
    /// Wraps a stored value. Nothing is checked: every integer is accepted.
    pub fn new(value: i128) -> (r: CValue)
        ensures
            r == CValue(value),
    {
        CValue(value)
    }

    /// The stored value.
    pub fn get(self) -> (r: i128)
        ensures
            r == self.0,
    {
        self.0
    }
}

impl From<i128> for CValue {
    fn from(value: i128) -> (r: CValue) {
        CValue(value)
    }
}

impl FromSpecImpl<i128> for CValue {
    open spec fn obeys_from_spec() -> bool {
        true
    }

    open spec fn from_spec(value: i128) -> CValue {
        CValue(value)
    }
}

impl From<CValue> for i128 {
    fn from(value: CValue) -> (r: i128) {
        value.0
    }
}

impl FromSpecImpl<CValue> for i128 {
    open spec fn obeys_from_spec() -> bool {
        true
    }

    open spec fn from_spec(value: CValue) -> i128 {
        value.0
    }
}

/// Wrapping a value and taking it out again gives the value back.
pub proof fn wrap_then_unwrap(v: i128)
    ensures
        CValue(v).0 == v,
        <i128 as FromSpec<CValue>>::from_spec(<CValue as FromSpec<i128>>::from_spec(v)) == v,
{
}

} // verus!
