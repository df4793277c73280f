use vstd::prelude::*;
use crate::text::{char_is_whitespace, chars_of, chars_range, is_whitespace, string_of};

verus! {

/// `s` without its trailing Unicode whitespace.
pub open spec fn spec_trim_end(s: Seq<char>) -> Seq<char>
    decreases s.len(),
{
    if s.len() > 0 && is_whitespace(s.last()) {
        spec_trim_end(s.drop_last())
    } else {
        s
    }
}

/// Removes the trailing Unicode whitespace of `value`.
pub fn transform(value: &mut String)
    ensures
        final(value)@ == spec_trim_end(old(value)@),
{
    let chars = chars_of(value.as_str());
    let mut end: usize = chars.len();
    assert(chars@.take(chars@.len() as int) == chars@);
    while end > 0 && char_is_whitespace(chars[end - 1])
        invariant
            end <= chars.len(),
            spec_trim_end(chars@) == spec_trim_end(chars@.take(end as int)),
        decreases end,
    {
        assert(chars@.take(end as int).drop_last() == chars@.take(end - 1));
        end -= 1;
    }
    if end != chars.len() {
        *value = string_of(&chars_range(&chars, 0, end));
    }
    assert(chars@.take(chars@.len() as int) == chars@);
    assert(chars@.subrange(0, end as int) == chars@.take(end as int));
}

/// Trimming the end twice gives what trimming once gives.
pub proof fn trim_end_is_idempotent(s: Seq<char>)
    ensures
        spec_trim_end(spec_trim_end(s)) == spec_trim_end(s),
    decreases s.len(),
{
    if s.len() > 0 && is_whitespace(s.last()) {
        trim_end_is_idempotent(s.drop_last());
    }
}

/// What trimming the end leaves is a prefix of the input that is empty or
/// ends with a non-whitespace character.
pub proof fn trim_end_leaves_a_prefix(s: Seq<char>)
    ensures
        spec_trim_end(s).len() <= s.len(),
        spec_trim_end(s) == s.take(spec_trim_end(s).len() as int),
        spec_trim_end(s).len() > 0 ==> !is_whitespace(spec_trim_end(s).last()),
    decreases s.len(),
{
    if s.len() > 0 && is_whitespace(s.last()) {
        trim_end_leaves_a_prefix(s.drop_last());
        let t = spec_trim_end(s.drop_last());
        assert(s.drop_last().take(t.len() as int) == s.take(t.len() as int));
    } else {
        assert(s.take(s.len() as int) == s);
    }
}

} // verus!
