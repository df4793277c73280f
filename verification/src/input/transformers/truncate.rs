use vstd::prelude::*;
use crate::text::{chars_of, chars_range, string_of};

verus! {

/// The first `maximum` characters of `s`, or all of `s` if it is shorter.
pub open spec fn spec_truncate(s: Seq<char>, maximum: nat) -> Seq<char> {
    if s.len() > maximum {
        s.take(maximum as int)
    } else {
        s
    }
}

/// Keeps at most `maximum` Unicode scalar values of `value`.
pub fn transform(value: &mut String, maximum: usize)
    ensures
        final(value)@ == spec_truncate(old(value)@, maximum as nat),
{
    let chars = chars_of(value.as_str());
    if chars.len() <= maximum {
        return;
    }
    *value = string_of(&chars_range(&chars, 0, maximum));
    assert(chars@.subrange(0, maximum as int) == chars@.take(maximum as int));
}

/// Truncating keeps `min(len, maximum)` characters, and truncating twice is
/// truncating once to the smaller bound.
pub proof fn truncate_length_and_composition(s: Seq<char>, first: nat, second: nat)
    ensures
        spec_truncate(s, first).len() == if s.len() > first { first } else { s.len() },
        spec_truncate(spec_truncate(s, first), second) == spec_truncate(
            s,
            if first < second { first } else { second },
        ),
{
    if s.len() > first && first > second {
        assert(s.take(first as int).take(second as int) == s.take(second as int));
    }
}

} // verus!
