//! The integer types that can stand under an enumeration, and their ranges.

use crate::text::same_text;
use vstd::prelude::*;

verus! {

/// An integer type whose values the library can compute with.
#[derive(Clone, Copy, PartialEq, Eq, Structural, Debug)]
pub enum IntType {
    U8,
    U16,
    U32,
    U64,
    Usize,
    I8,
    I16,
    I32,
    I64,
    I128,
    Isize,
}

impl IntType {
    /// The smallest value of the type.
    pub open spec fn lowest(self) -> int {
        match self {
            IntType::U8 | IntType::U16 | IntType::U32 | IntType::U64 | IntType::Usize => 0,
            IntType::I8 => i8::MIN as int,
            IntType::I16 => i16::MIN as int,
            IntType::I32 => i32::MIN as int,
            IntType::I64 => i64::MIN as int,
            IntType::I128 => i128::MIN as int,
            IntType::Isize => isize::MIN as int,
        }
    }

    /// The largest value of the type.
    pub open spec fn highest(self) -> int {
        match self {
            IntType::U8 => u8::MAX as int,
            IntType::U16 => u16::MAX as int,
            IntType::U32 => u32::MAX as int,
            IntType::U64 => u64::MAX as int,
            IntType::Usize => usize::MAX as int,
            IntType::I8 => i8::MAX as int,
            IntType::I16 => i16::MAX as int,
            IntType::I32 => i32::MAX as int,
            IntType::I64 => i64::MAX as int,
            IntType::I128 => i128::MAX as int,
            IntType::Isize => isize::MAX as int,
        }
    }

    /// Whether `v` is a value of the type.
    pub open spec fn holds(self, v: int) -> bool {
        self.lowest() <= v <= self.highest()
    }

    /// The type that a type expression names, if it is one of the integer
    /// types above.
    pub open spec fn named(name: Seq<char>) -> Option<IntType> {
        if name == "u8"@ {
            Some(IntType::U8)
        } else if name == "u16"@ {
            Some(IntType::U16)
        } else if name == "u32"@ {
            Some(IntType::U32)
        } else if name == "u64"@ {
            Some(IntType::U64)
        } else if name == "usize"@ {
            Some(IntType::Usize)
        } else if name == "i8"@ {
            Some(IntType::I8)
        } else if name == "i16"@ {
            Some(IntType::I16)
        } else if name == "i32"@ {
            Some(IntType::I32)
        } else if name == "i64"@ {
            Some(IntType::I64)
        } else if name == "i128"@ {
            Some(IntType::I128)
        } else if name == "isize"@ {
            Some(IntType::Isize)
        } else {
            None
        }
    }

    /// Every value of the type fits the library's carrier, `i128`, and zero
    /// is a value of every type.
    pub proof fn range_fits(self)
        ensures
            i128::MIN <= self.lowest() <= 0,
            0 < self.highest() <= i128::MAX,
            self.holds(0),
    {
    }

    /// Reads the name of an integer type.
    pub fn from_name(name: &str) -> (r: Option<IntType>)
        ensures
            r == Self::named(name@),
    {
        if same_text(name, "u8") {
            Some(IntType::U8)
        } else if same_text(name, "u16") {
            Some(IntType::U16)
        } else if same_text(name, "u32") {
            Some(IntType::U32)
        } else if same_text(name, "u64") {
            Some(IntType::U64)
        } else if same_text(name, "usize") {
            Some(IntType::Usize)
        } else if same_text(name, "i8") {
            Some(IntType::I8)
        } else if same_text(name, "i16") {
            Some(IntType::I16)
        } else if same_text(name, "i32") {
            Some(IntType::I32)
        } else if same_text(name, "i64") {
            Some(IntType::I64)
        } else if same_text(name, "i128") {
            Some(IntType::I128)
        } else if same_text(name, "isize") {
            Some(IntType::Isize)
        } else {
            None
        }
    }

    /// The smallest value of the type.
    pub fn min_value(self) -> (r: i128)
        ensures
            r == self.lowest(),
    {
        match self {
            IntType::U8 | IntType::U16 | IntType::U32 | IntType::U64 | IntType::Usize => 0,
            IntType::I8 => i8::MIN as i128,
            IntType::I16 => i16::MIN as i128,
            IntType::I32 => i32::MIN as i128,
            IntType::I64 => i64::MIN as i128,
            IntType::I128 => i128::MIN,
            IntType::Isize => isize::MIN as i128,
        }
    }

    /// The largest value of the type.
    pub fn max_value(self) -> (r: i128)
        ensures
            r == self.highest(),
    {
        match self {
            IntType::U8 => u8::MAX as i128,
            IntType::U16 => u16::MAX as i128,
            IntType::U32 => u32::MAX as i128,
            IntType::U64 => u64::MAX as i128,
            IntType::Usize => usize::MAX as i128,
            IntType::I8 => i8::MAX as i128,
            IntType::I16 => i16::MAX as i128,
            IntType::I32 => i32::MAX as i128,
            IntType::I64 => i64::MAX as i128,
            IntType::I128 => i128::MAX,
            IntType::Isize => isize::MAX as i128,
        }
    }

    /// Whether `v` is a value of the type.
    pub fn contains(self, v: i128) -> (r: bool)
        ensures
            r == self.holds(v as int),
    {
        self.min_value() <= v && v <= self.max_value()
    }
}

} // verus!
