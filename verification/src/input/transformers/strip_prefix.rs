use vstd::prelude::*;
use crate::text::{chars_of, chars_range, string_of};

verus! {

/// `s` without `prefix` when `s` starts with it; otherwise `s`.
pub open spec fn spec_strip_prefix(s: Seq<char>, prefix: Seq<char>) -> Seq<char> {
    if prefix.len() <= s.len() && s.take(prefix.len() as int) == prefix {
        s.skip(prefix.len() as int)
    } else {
        s
    }
}

/// Removes one occurrence of `prefix` at the start of `value`, if it is there.
pub fn transform(value: &mut String, prefix: &str)
    ensures
        final(value)@ == spec_strip_prefix(old(value)@, prefix@),
{
    let chars = chars_of(value.as_str());
    let pattern = chars_of(prefix);
    if pattern.len() <= chars.len() {
        let mut i: usize = 0;
        while i < pattern.len()
            invariant
                pattern.len() <= chars.len(),
                chars@ == value@,
                pattern@ == prefix@,
                value@ == old(value)@,
                i <= pattern.len(),
                forall|k: int| 0 <= k < i ==> chars@[k] == pattern@[k],
            decreases pattern.len() - i,
        {
            if chars[i] != pattern[i] {
                assert(chars@.take(pattern.len() as int)[i as int] != pattern@[i as int]);
                return;
            }
            i += 1;
        }
        assert(chars@.take(pattern.len() as int) == pattern@);
        *value = string_of(&chars_range(&chars, pattern.len(), chars.len()));
        assert(chars@.subrange(pattern.len() as int, chars.len() as int) == chars@.skip(
            pattern.len() as int,
        ));
    }
}

/// Stripping a prefix from `prefix + rest` gives `rest`.
pub proof fn strip_prefix_undoes_prepend(prefix: Seq<char>, rest: Seq<char>)
    ensures
        spec_strip_prefix(prefix + rest, prefix) == rest,
{
    assert((prefix + rest).take(prefix.len() as int) == prefix);
    assert((prefix + rest).skip(prefix.len() as int) == rest);
}

} // verus!
