use vstd::prelude::*;

verus! {

/// Applies a user-supplied transformation.
pub fn transform<T, F: FnOnce(&mut T)>(value: &mut T, transformer: F)
    requires
        forall|target: &mut T| call_requires(transformer, (target,)),
    ensures
        exists|target: &mut T|
            *target == *old(value) && *final(target) == *final(value) && call_ensures(transformer, (target,), ()),
{
    transformer(value);
}

} // verus!
