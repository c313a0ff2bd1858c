//! Control-law helpers.

use vstd::prelude::*;

verus! {

use vstd::std_specs::cmp::PartialOrdSpec;

/// Clamps `value` into the closed interval `[min, max]`, deciding by
/// `PartialOrd`. When the type's comparison obeys its specification, the
/// result is `max` when `value >= max`, `min` when `value <= min`, and
/// `value` otherwise.
pub fn clamp<T: PartialOrd>(value: T, max: T, min: T) -> (r: T)
    ensures
        T::obeys_partial_cmp_spec() ==> r == (if value.partial_cmp_spec(&max) matches Some(
            core::cmp::Ordering::Greater
            | core::cmp::Ordering::Equal,
        ) {
            max
        } else if value.partial_cmp_spec(&min) matches Some(
            core::cmp::Ordering::Less
            | core::cmp::Ordering::Equal,
        ) {
            min
        } else {
            value
        }),
{
    if value.ge(&max) {
        max
    } else if value.le(&min) {
        min
    } else {
        value
    }
}

} // verus!
