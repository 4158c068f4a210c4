//! The closed set of numeric kinds that are the target of a forced cast.

use vstd::prelude::*;
use crate::text::text_equals;

verus! {

/// A numeric kind that a wide source value is cast down to.
///
/// The source record holds every number as a signed 64-bit integer, so the
/// set holds the integer kinds that differ from it and that the target
/// records use: the unsigned kinds of 8, 16, 32 and 64 bits, the signed kinds
/// of 8, 16 and 32 bits, and `usize`. It is closed: a type of any other name,
/// `i64` among them, is never cast.
#[derive(Clone, Copy, Debug, PartialEq, Eq, Structural)]
pub enum NumericKind {
    U8,
    U16,
    U32,
    U64,
    I8,
    I16,
    I32,
    Usize,
}

impl NumericKind {
    /// The name under which the kind is written in a type position.
    pub open spec fn spec_name(self) -> Seq<char> {
        match self {
            NumericKind::U8 => "u8"@,
            NumericKind::U16 => "u16"@,
            NumericKind::U32 => "u32"@,
            NumericKind::U64 => "u64"@,
            NumericKind::I8 => "i8"@,
            NumericKind::I16 => "i16"@,
            NumericKind::I32 => "i32"@,
            NumericKind::Usize => "usize"@,
        }
    }

    /// The kind that a name stands for, if it stands for one.
    pub open spec fn of_name(name: Seq<char>) -> Option<NumericKind> {
        if name == "u8"@ {
            Some(NumericKind::U8)
        } else if name == "u16"@ {
            Some(NumericKind::U16)
        } else if name == "u32"@ {
            Some(NumericKind::U32)
        } else if name == "u64"@ {
            Some(NumericKind::U64)
        } else if name == "i8"@ {
            Some(NumericKind::I8)
        } else if name == "i16"@ {
            Some(NumericKind::I16)
        } else if name == "i32"@ {
            Some(NumericKind::I32)
        } else if name == "usize"@ {
            Some(NumericKind::Usize)
        } else {
            None
        }
    }

    /// The name under which the kind is written in a type position.
    pub fn name(self) -> (name: &'static str)
        ensures
            name@ == self.spec_name(),
    {
        match self {
            NumericKind::U8 => "u8",
            NumericKind::U16 => "u16",
            NumericKind::U32 => "u32",
            NumericKind::U64 => "u64",
            NumericKind::I8 => "i8",
            NumericKind::I16 => "i16",
            NumericKind::I32 => "i32",
            NumericKind::Usize => "usize",
        }
    }

    /// The kind that a name stands for, if it stands for one. The name is
    /// compared as it is: no space is skipped and no path is followed.
    pub fn from_name(name: &str) -> (kind: Option<NumericKind>)
        ensures
            kind == Self::of_name(name@),
    {
        if text_equals(name, "u8") {
            Some(NumericKind::U8)
        } else if text_equals(name, "u16") {
            Some(NumericKind::U16)
        } else if text_equals(name, "u32") {
            Some(NumericKind::U32)
        } else if text_equals(name, "u64") {
            Some(NumericKind::U64)
        } else if text_equals(name, "i8") {
            Some(NumericKind::I8)
        } else if text_equals(name, "i16") {
            Some(NumericKind::I16)
        } else if text_equals(name, "i32") {
            Some(NumericKind::I32)
        } else if text_equals(name, "usize") {
            Some(NumericKind::Usize)
        } else {
            None
        }
    }
}

/// The eight names, character by character.
pub proof fn lemma_names_spelled()
    ensures
        "u8"@ == seq!['u', '8'],
        "u16"@ == seq!['u', '1', '6'],
        "u32"@ == seq!['u', '3', '2'],
        "u64"@ == seq!['u', '6', '4'],
        "i8"@ == seq!['i', '8'],
        "i16"@ == seq!['i', '1', '6'],
        "i32"@ == seq!['i', '3', '2'],
        "usize"@ == seq!['u', 's', 'i', 'z', 'e'],
{
    reveal_strlit("u8");
    reveal_strlit("u16");
    reveal_strlit("u32");
    reveal_strlit("u64");
    reveal_strlit("i8");
    reveal_strlit("i16");
    reveal_strlit("i32");
    reveal_strlit("usize");
}

/// Every kind is found again under its own name: the eight names differ.
pub proof fn lemma_name_round_trip(kind: NumericKind)
    ensures
        NumericKind::of_name(kind.spec_name()) == Some(kind),
{
    lemma_names_spelled();
}

/// A name stands for a kind exactly if it is the name of that kind.
pub proof fn lemma_of_name_is_inverse(name: Seq<char>, kind: NumericKind)
    ensures
        NumericKind::of_name(name) == Some(kind) <==> name == kind.spec_name(),
{
    lemma_name_round_trip(kind);
}

} // verus!
