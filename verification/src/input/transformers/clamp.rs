use vstd::prelude::*;
use vstd::std_specs::cmp::{PartialOrdIs, PartialOrdSpec};

verus! {

/// `value` clamped to `minimum` and `maximum` by the type's ordering: the
/// minimum when `value` is below it, else the maximum when `value` is above
/// it, else `value`.
pub open spec fn spec_clamp<T: PartialOrd>(value: T, minimum: T, maximum: T) -> T {
    if value.is_lt(&minimum) {
        minimum
    } else if value.is_gt(&maximum) {
        maximum
    } else {
        value
    }
}

/// Clamps `value` to the inclusive range `minimum..=maximum`.
pub fn transform<T: PartialOrd + Copy>(value: &mut T, minimum: T, maximum: T)
    ensures
        T::obeys_partial_cmp_spec() ==> *final(value) == spec_clamp(*old(value), minimum, maximum),
        *final(value) == *old(value) || *final(value) == minimum || *final(value) == maximum,
{
    if *value < minimum {
        *value = minimum;
    } else if *value > maximum {
        *value = maximum;
    }
}

/// For integers, clamping to a non-empty range lands inside it and leaves a
/// value already inside it unchanged.
pub proof fn clamp_stays_in_range(value: i64, minimum: i64, maximum: i64)
    requires
        minimum <= maximum,
    ensures
        minimum <= spec_clamp(value, minimum, maximum) <= maximum,
        minimum <= value <= maximum ==> spec_clamp(value, minimum, maximum) == value,
{
}

} // verus!
