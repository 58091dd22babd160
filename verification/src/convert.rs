//! What the library takes for granted of the standard conversions.
use vstd::prelude::*;

verus! {

/// `From::from` of a type into itself, which the standard library provides
/// for every type and documents as handing its argument back unchanged.
///
/// This is taken on trust, not proved. The builders of a styled string take
/// anything that converts into a colour or an attribute; through this, what
/// they promise for such a value holds for a colour or an attribute itself.
pub assume_specification<T>[ <T as From<T>>::from ](value: T) -> (same: T)
    ensures
        same == value,
;

} // verus!
