//! The choice of a cast strategy for a field.

use vstd::prelude::*;
use crate::declared::{DeclaredType, TypeSyntax};

verus! {

/// How the value of a source field becomes the value of a target field.
#[derive(Clone, Copy, Debug, PartialEq, Eq, Structural)]
pub enum CastStrategy {
    /// The value is assigned as it is.
    Direct,
    /// The value is cast to the declared numeric kind, unchecked.
    ScalarForceCast,
    /// Each element of the sequence is so cast, into a new sequence.
    ElementwiseForceCast,
}

impl DeclaredType {
    /// The strategy for a field of this kind of type: a sequence of a numeric
    /// kind is cast element by element, a numeric kind is cast, and anything
    /// else is assigned.
    pub open spec fn strategy(self) -> CastStrategy {
        match self {
            DeclaredType::Sequence(Some(_)) => CastStrategy::ElementwiseForceCast,
            DeclaredType::Numeric(_) => CastStrategy::ScalarForceCast,
            _ => CastStrategy::Direct,
        }
    }
}

/// Chooses the cast strategy for a field from the kind of its declared type.
pub fn classify(declared: DeclaredType) -> (strategy: CastStrategy)
    ensures
        strategy == declared.strategy(),
{
    match declared {
        DeclaredType::Sequence(Some(_)) => CastStrategy::ElementwiseForceCast,
        DeclaredType::Numeric(_) => CastStrategy::ScalarForceCast,
        _ => CastStrategy::Direct,
    }
}

/// Whether the elements of a field of this type are each to be cast: the type
/// is a path whose last segment is `Vec`, and the first type among its
/// arguments is of the force-cast target set.
pub fn is_map_cast_needed(ty: &TypeSyntax) -> (needed: bool)
    ensures
        needed == ty@.map_cast_needed(),
{
    ty.element_kind().is_some()
}

/// Whether a field of this type is to be cast: the type's text is the name of
/// a kind of the force-cast target set.
pub fn is_target_of_force_cast(ty: &TypeSyntax) -> (target: bool)
    ensures
        target == ty@.target_of_force_cast(),
{
    ty.scalar_kind().is_some()
}

} // verus!
