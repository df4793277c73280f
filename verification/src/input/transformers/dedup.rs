use vstd::prelude::*;
use vstd::std_specs::cmp::PartialEqSpec;

verus! {

/// `s` with each element removed that is equal (by the type's equality) to
/// the last element kept before it.
pub open spec fn spec_dedup<T: PartialEq>(s: Seq<T>) -> Seq<T>
    decreases s.len(),
{
    if s.len() == 0 {
        Seq::empty()
    } else {
        let kept = spec_dedup(s.drop_last());
        if kept.len() > 0 && s.last().eq_spec(&kept.last()) {
            kept
        } else {
            kept.push(s.last())
        }
    }
}

/// Removes consecutive duplicate elements of `value`.
pub fn transform<T: PartialEq>(value: &mut Vec<T>)
    ensures
        T::obeys_eq_spec() ==> final(value)@ == spec_dedup(old(value)@),
        final(value)@.len() <= old(value)@.len(),
{
    let mut items: Vec<T> = Vec::new();
    std::mem::swap(&mut items, value);
    let ghost given = items@;
    let mut kept: Vec<T> = Vec::new();
    for item in it: items.into_iter()
        invariant
            it.seq() == given,
            kept@.len() <= it.index(),
            T::obeys_eq_spec() ==> kept@ == spec_dedup(given.take(it.index() as int)),
    {
        let ghost k = it.index();
        assert(given.take(k + 1).drop_last() == given.take(k as int));
        let n = kept.len();
        if n == 0 || !(item == kept[n - 1]) {
            kept.push(item);
        }
    }
    assert(given.take(given.len() as int) == given);
    *value = kept;
}

/// After removing consecutive duplicates no element equals the one kept just
/// before it, and the result is never longer than the input.
pub proof fn dedup_leaves_no_adjacent_duplicates<T: PartialEq>(s: Seq<T>)
    ensures
        forall|i: int|
            1 <= i < spec_dedup(s).len() ==> !(#[trigger] spec_dedup(s)[i]).eq_spec(&spec_dedup(s)[i - 1]),
        spec_dedup(s).len() <= s.len(),
    decreases s.len(),
{
    if s.len() > 0 {
        dedup_leaves_no_adjacent_duplicates(s.drop_last());
        let kept = spec_dedup(s.drop_last());
        let d = spec_dedup(s);
        assert forall|i: int| 1 <= i < d.len() implies !(#[trigger] d[i]).eq_spec(&d[i - 1]) by {
            if i < kept.len() {
                assert(d[i] == kept[i] && d[i - 1] == kept[i - 1]);
            }
        }
    }
}

} // verus!
