//! What a forced cast computes: the value that the generated expression
//! `x as _` gives for a wide source value `x` and a target of a numeric kind.

use vstd::arithmetic::div_mod::{lemma_mod_equivalence, lemma_small_mod};
use vstd::prelude::*;
use crate::kinds::NumericKind;

verus! {

impl NumericKind {
    /// The least value of the kind.
    pub open spec fn min_value(self) -> int {
        match self {
            NumericKind::I8 => i8::MIN as int,
            NumericKind::I16 => i16::MIN as int,
            NumericKind::I32 => i32::MIN as int,
            _ => 0,
        }
    }

    /// The greatest value of the kind.
    pub open spec fn max_value(self) -> int {
        match self {
            NumericKind::U8 => u8::MAX as int,
            NumericKind::U16 => u16::MAX as int,
            NumericKind::U32 => u32::MAX as int,
            NumericKind::U64 => u64::MAX as int,
            NumericKind::I8 => i8::MAX as int,
            NumericKind::I16 => i16::MAX as int,
            NumericKind::I32 => i32::MAX as int,
            NumericKind::Usize => usize::MAX as int,
        }
    }

    /// The number of values of the kind.
    pub open spec fn modulus(self) -> int {
        self.max_value() - self.min_value() + 1
    }

    /// The value of a wide value after the cast: its low bits, read as a
    /// number of the kind.
    pub open spec fn spec_force_cast(self, wide: i64) -> int {
        match self {
            NumericKind::U8 => (wide as u8) as int,
            NumericKind::U16 => (wide as u16) as int,
            NumericKind::U32 => (wide as u32) as int,
            NumericKind::U64 => (wide as u64) as int,
            NumericKind::I8 => (wide as i8) as int,
            NumericKind::I16 => (wide as i16) as int,
            NumericKind::I32 => (wide as i32) as int,
            NumericKind::Usize => (wide as usize) as int,
        }
    }

    /// Casts a wide value to the kind, unchecked, as `as` does. The result
    /// is handed back in a type that holds the values of every kind.
    pub fn force_cast(self, wide: i64) -> (narrow: i128)
        ensures
            narrow == self.spec_force_cast(wide),
            self.min_value() <= narrow <= self.max_value(),
            (narrow - wide) % self.modulus() == 0,
            self.min_value() <= wide <= self.max_value() ==> narrow == wide,
    {
        proof {
            lemma_force_cast_wraps(self, wide);
        }
        match self {
            NumericKind::U8 => (#[verifier::truncate] (wide as u8)) as i128,
            NumericKind::U16 => (#[verifier::truncate] (wide as u16)) as i128,
            NumericKind::U32 => (#[verifier::truncate] (wide as u32)) as i128,
            NumericKind::U64 => (#[verifier::truncate] (wide as u64)) as i128,
            NumericKind::I8 => (#[verifier::truncate] (wide as i8)) as i128,
            NumericKind::I16 => (#[verifier::truncate] (wide as i16)) as i128,
            NumericKind::I32 => (#[verifier::truncate] (wide as i32)) as i128,
            NumericKind::Usize => (#[verifier::truncate] (wide as usize)) as i128,
        }
    }
}

/// A forced cast wraps: the result is the one value of the kind that differs
/// from the wide value by a multiple of the number of the kind's values. A
/// value that the kind can hold is therefore kept.
pub proof fn lemma_force_cast_wraps(kind: NumericKind, wide: i64)
    ensures
        kind.min_value() <= kind.spec_force_cast(wide) <= kind.max_value(),
        (kind.spec_force_cast(wide) - wide) % kind.modulus() == 0,
        kind.min_value() <= wide <= kind.max_value() ==> kind.spec_force_cast(wide) == wide,
{
    let unsigned = (wide as u64) as int;
    assert((wide as u64) as int == if wide < 0 {
        wide as int + 0x1_0000_0000_0000_0000
    } else {
        wide as int
    }) by (bit_vector);
    match kind {
        NumericKind::U8 => {
            assert((wide as u8) as u64 == (wide as u64) % 0x100) by (bit_vector);
            assert(((wide as u8) as int - wide) % 0x100 == 0);
        },
        NumericKind::U16 => {
            assert((wide as u16) as u64 == (wide as u64) % 0x1_0000) by (bit_vector);
            assert(((wide as u16) as int - wide) % 0x1_0000 == 0);
        },
        NumericKind::U32 => {
            assert((wide as u32) as u64 == (wide as u64) % 0x1_0000_0000) by (bit_vector);
            assert(((wide as u32) as int - wide) % 0x1_0000_0000 == 0);
        },
        NumericKind::U64 => {
            assert((unsigned - wide) % 0x1_0000_0000_0000_0000 == 0);
        },
        NumericKind::I8 => {
            assert((wide as u8) as u64 == (wide as u64) % 0x100) by (bit_vector);
            assert((wide as i8) as int == if (wide as u8) >= 0x80 {
                (wide as u8) as int - 0x100
            } else {
                (wide as u8) as int
            }) by (bit_vector);
            assert(((wide as i8) as int - wide) % 0x100 == 0);
        },
        NumericKind::I16 => {
            assert((wide as u16) as u64 == (wide as u64) % 0x1_0000) by (bit_vector);
            assert((wide as i16) as int == if (wide as u16) >= 0x8000 {
                (wide as u16) as int - 0x1_0000
            } else {
                (wide as u16) as int
            }) by (bit_vector);
            assert(((wide as i16) as int - wide) % 0x1_0000 == 0);
        },
        NumericKind::I32 => {
            assert((wide as u32) as u64 == (wide as u64) % 0x1_0000_0000) by (bit_vector);
            assert((wide as i32) as int == if (wide as u32) >= 0x8000_0000 {
                (wide as u32) as int - 0x1_0000_0000
            } else {
                (wide as u32) as int
            }) by (bit_vector);
            assert(((wide as i32) as int - wide) % 0x1_0000_0000 == 0);
        },
        NumericKind::Usize => {
            assert(usize::BITS == 64 ==> (wide as usize) as u64 == (wide as u64))
                by (bit_vector);
            assert(usize::BITS == 32 ==> (wide as usize) as u64 == (wide as u64) % 0x1_0000_0000)
                by (bit_vector);
            if usize::BITS == 64 {
                assert(kind.modulus() == 0x1_0000_0000_0000_0000);
                assert(((wide as usize) as int - wide) % 0x1_0000_0000_0000_0000 == 0);
            } else {
                assert(kind.modulus() == 0x1_0000_0000);
                assert(((wide as usize) as int - wide) % 0x1_0000_0000 == 0);
            }
        },
    }
}

/// No other value of the kind differs from the wide value by a multiple of
/// the number of the kind's values.
pub proof fn lemma_force_cast_is_the_only_such_value(kind: NumericKind, wide: i64, value: int)
    requires
        kind.min_value() <= value <= kind.max_value(),
        (value - wide) % kind.modulus() == 0,
    ensures
        value == kind.spec_force_cast(wide),
{
    lemma_force_cast_wraps(kind, wide);
    let cast = kind.spec_force_cast(wide);
    let modulus = kind.modulus();
    lemma_mod_equivalence(cast, wide as int, modulus);
    lemma_mod_equivalence(value, wide as int, modulus);
    if cast > value {
        lemma_mod_equivalence(cast, value, modulus);
        lemma_small_mod((cast - value) as nat, modulus as nat);
    } else if value > cast {
        lemma_mod_equivalence(value, cast, modulus);
        lemma_small_mod((value - cast) as nat, modulus as nat);
    }
}

/// The values of a sequence of wide values after each was cast.
pub open spec fn spec_force_cast_each(kind: NumericKind, wide: Seq<i64>) -> Seq<int> {
    Seq::new(wide.len(), |i: int| kind.spec_force_cast(wide[i]))
}

/// Casts each element of a sequence to the kind, into a new sequence, as
/// `into_iter().map(|x| x as _).collect()` does.
pub fn force_cast_each(kind: NumericKind, wide: &Vec<i64>) -> (narrow: Vec<i128>)
    ensures
        narrow@.len() == wide@.len(),
        forall|i: int|
            0 <= i < wide@.len() ==> #[trigger] narrow@[i] == spec_force_cast_each(kind, wide@)[i],
{
    let mut narrow: Vec<i128> = Vec::new();
    let mut i: usize = 0;
    while i < wide.len()
        invariant
            i <= wide.len(),
            narrow@.len() == i,
            forall|j: int| 0 <= j < i ==> #[trigger] narrow@[j] == kind.spec_force_cast(wide@[j]),
        decreases wide.len() - i,
    {
        narrow.push(kind.force_cast(wide[i]));
        i += 1;
    }
    narrow
}

} // verus!
