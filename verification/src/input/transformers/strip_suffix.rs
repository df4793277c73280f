use vstd::prelude::*;
use crate::text::{chars_of, chars_range, string_of};

verus! {

/// `s` without `suffix` when `s` ends with it; otherwise `s`.
pub open spec fn spec_strip_suffix(s: Seq<char>, suffix: Seq<char>) -> Seq<char> {
    if suffix.len() <= s.len() && s.skip(s.len() - suffix.len()) == suffix {
        s.take(s.len() - suffix.len())
    } else {
        s
    }
}

/// Removes one occurrence of `suffix` at the end of `value`, if it is there.
pub fn transform(value: &mut String, suffix: &str)
    ensures
        final(value)@ == spec_strip_suffix(old(value)@, suffix@),
{
    let chars = chars_of(value.as_str());
    let pattern = chars_of(suffix);
    if pattern.len() <= chars.len() {
        let start = chars.len() - pattern.len();
        let mut i: usize = 0;
        while i < pattern.len()
            invariant
                pattern.len() <= chars.len(),
                chars@ == value@,
                pattern@ == suffix@,
                value@ == old(value)@,
                start == chars.len() - pattern.len(),
                i <= pattern.len(),
                forall|k: int| 0 <= k < i ==> chars@[start + k] == pattern@[k],
            decreases pattern.len() - i,
        {
            if chars[start + i] != pattern[i] {
                assert(chars@.skip(start as int)[i as int] != pattern@[i as int]);
                return;
            }
            i += 1;
        }
        assert(chars@.skip(start as int) == pattern@);
        *value = string_of(&chars_range(&chars, 0, start));
        assert(chars@.subrange(0, start as int) == chars@.take(start as int));
    }
}

/// Stripping a suffix from `rest + suffix` gives `rest`.
pub proof fn strip_suffix_undoes_append(rest: Seq<char>, suffix: Seq<char>)
    ensures
        spec_strip_suffix(rest + suffix, suffix) == rest,
{
    assert((rest + suffix).skip(rest.len() as int) == suffix);
    assert((rest + suffix).take(rest.len() as int) == rest);
}

} // verus!
