use vstd::prelude::*;
use crate::text::{char_is_whitespace, chars_of, is_whitespace, string_of};

verus! {

/// `s` without any Unicode whitespace character.
pub open spec fn spec_remove_whitespace(s: Seq<char>) -> Seq<char> {
    s.filter(|c: char| !is_whitespace(c))
}

/// Removes every Unicode whitespace character of `value`.
pub fn transform(value: &mut String)
    ensures
        final(value)@ == spec_remove_whitespace(old(value)@),
{
    let chars = chars_of(value.as_str());
    let mut out: Vec<char> = Vec::new();
    let mut i: usize = 0;
    while i < chars.len()
        invariant
            i <= chars.len(),
            out@ == spec_remove_whitespace(chars@.take(i as int)),
        decreases chars.len() - i,
    {
        reveal_with_fuel(Seq::filter, 1);
        assert(chars@.take(i + 1).drop_last() == chars@.take(i as int));
        if !char_is_whitespace(chars[i]) {
            out.push(chars[i]);
        }
        i += 1;
    }
    assert(chars@.take(chars.len() as int) == chars@);
    *value = string_of(&out);
}

/// What removing whitespace leaves holds no whitespace, and removing it again
/// changes nothing.
pub proof fn remove_whitespace_leaves_none(s: Seq<char>)
    ensures
        forall|i: int|
            0 <= i < spec_remove_whitespace(s).len() ==> !is_whitespace(
                #[trigger] spec_remove_whitespace(s)[i],
            ),
        spec_remove_whitespace(spec_remove_whitespace(s)) == spec_remove_whitespace(s),
{
    let t = spec_remove_whitespace(s);
    assert forall|i: int| 0 <= i < t.len() implies !is_whitespace(#[trigger] t[i]) by {
        s.lemma_filter_pred(|c: char| !is_whitespace(c), i);
    }
    lemma_filter_keeps_all(t);
}

proof fn lemma_filter_keeps_all(t: Seq<char>)
    requires
        forall|i: int| 0 <= i < t.len() ==> !is_whitespace(#[trigger] t[i]),
    ensures
        spec_remove_whitespace(t) == t,
    decreases t.len(),
{
    reveal_with_fuel(Seq::filter, 1);
    if t.len() > 0 {
        lemma_filter_keeps_all(t.drop_last());
        assert(spec_remove_whitespace(t) == spec_remove_whitespace(t.drop_last()).push(t.last()));
        assert(t.drop_last().push(t.last()) == t);
    }
}

} // verus!
