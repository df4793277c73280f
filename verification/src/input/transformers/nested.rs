use vstd::prelude::*;
use crate::input::UseCaseInput;

verus! {

/// Applies the transformations of a nested input.
pub fn transform<T: UseCaseInput>(value: &mut T)
    ensures
        exists|target: &mut T|
            *target == *old(value) && *final(target) == *final(value) && call_ensures(
                T::transform,
                (target,),
                (),
            ),
{
    value.transform();
}

} // verus!
