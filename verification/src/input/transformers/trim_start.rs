use vstd::prelude::*;
use crate::text::{char_is_whitespace, chars_of, chars_range, is_whitespace, string_of};

verus! {

/// `s` without its leading Unicode whitespace.
pub open spec fn spec_trim_start(s: Seq<char>) -> Seq<char>
    decreases s.len(),
{
    if s.len() > 0 && is_whitespace(s[0]) {
        spec_trim_start(s.drop_first())
    } else {
        s
    }
}

/// Removes the leading Unicode whitespace of `value`.
pub fn transform(value: &mut String)
    ensures
        final(value)@ == spec_trim_start(old(value)@),
{
    let chars = chars_of(value.as_str());
    let mut start: usize = 0;
    assert(chars@.skip(0) == chars@);
    while start < chars.len() && char_is_whitespace(chars[start])
        invariant
            start <= chars.len(),
            spec_trim_start(chars@) == spec_trim_start(chars@.skip(start as int)),
        decreases chars.len() - start,
    {
        assert(chars@.skip(start as int).drop_first() == chars@.skip(start + 1));
        start += 1;
    }
    if start != 0 {
        *value = string_of(&chars_range(&chars, start, chars.len()));
    }
    assert(chars@.skip(0) == chars@);
}

/// Trimming the start twice gives what trimming once gives.
pub proof fn trim_start_is_idempotent(s: Seq<char>)
    ensures
        spec_trim_start(spec_trim_start(s)) == spec_trim_start(s),
    decreases s.len(),
{
    if s.len() > 0 && is_whitespace(s[0]) {
        trim_start_is_idempotent(s.drop_first());
    }
}

/// What trimming the start leaves is a suffix of the input that is empty or
/// starts with a non-whitespace character.
pub proof fn trim_start_leaves_a_suffix(s: Seq<char>)
    ensures
        spec_trim_start(s).len() <= s.len(),
        spec_trim_start(s) == s.skip(s.len() - spec_trim_start(s).len()),
        spec_trim_start(s).len() > 0 ==> !is_whitespace(spec_trim_start(s)[0]),
    decreases s.len(),
{
    if s.len() > 0 && is_whitespace(s[0]) {
        trim_start_leaves_a_suffix(s.drop_first());
        let t = spec_trim_start(s.drop_first());
        assert(s.drop_first().skip(s.drop_first().len() - t.len()) == s.skip(s.len() - t.len()));
    } else {
        assert(s.skip(0) == s);
    }
}

} // verus!
