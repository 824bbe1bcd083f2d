//! C-style enumerations: a fixed list of named integer constants behind a
//! newtype that also accepts every value outside the list.
//!
//! An [`model::EnumSpec`] describes such an enumeration: its name, the type
//! under it and its entries in declaration order, each with an optional
//! explicit value. The crate has two fronts to it.
//!
//! # Writing source
//!
//! [`c_enum::expand`] reads an enum declaration from source text and writes
//! the source of its newtype: a tuple struct with one constant for each
//! variant, a constructor that takes every value, conversions from and to the
//! underlying type, and a `Debug` that shows the label of a value.
//! [`render::render`] writes the same from a description, and
//! [`render::render_plain`] leaves the `Debug` out.
//!
//! The underlying type is read from the `repr` attribute of the declaration
//! and is `isize` where there is none. An entry without a value is written
//! as `Self::Previous.0 + 1`, the first one as `0`: the compiler of the
//! written source computes the values.
//!
//! # Computing values
//!
//! [`resolve::resolve`] computes the value of every entry itself. The entries
//! are taken in declaration order; an explicit value is evaluated against the
//! entries before it, the first entry defaults to zero, and every other entry
//! is its predecessor plus one. Here the underlying type must be named, and
//! must be one of the integer types of [`underlying::IntType`].
//! [`resolve::ResolvedEnum::variant_label`] then looks up the label of a
//! value: where several entries hold it, the first one declared wins.
//!
//! The two fronts agree: the expression that is written for an entry
//! evaluates to the value that is computed for it
//! ([`render::written_value_agrees`]).
//!
//! [`example::Enum`] is an enumeration written out by hand, and [`CEnum`] the
//! trait that such types share.

use vstd::prelude::*;

pub mod c_enum;
pub mod declaration;
pub mod example;
pub mod expr;
pub mod lookup;
pub mod model;
pub mod render;
pub mod resolve;
pub mod source;
pub mod text;
pub mod underlying;
pub mod value;

verus! {

/// A trait that is implemented for all C enums: the type under the
/// enumeration, conversions from and to that type, and the label of a value.
///
/// The trait is open: a type of any crate may implement it. It therefore
/// promises nothing of `variant_label`; an implementation states what its
/// own method returns, as [`example::Enum`] does.
pub trait CEnum: From<Self::Inner> + Into<Self::Inner> {
    /// The inner type of this enum.
    type Inner;

    /// Get the string name corresponding to the current value, if there is
    /// one.
    fn variant_label(&self) -> Option<&'static str> where Self::Inner: PartialEq;
}

} // verus!
