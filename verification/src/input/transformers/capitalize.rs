use vstd::prelude::*;
use crate::text::{chars_of, string_of};
use crate::unicode::{to_uppercase_chars, uppercase_mapping};

verus! {

/// `s` with its first character replaced by its upper-case mapping.
pub open spec fn spec_capitalize(s: Seq<char>) -> Seq<char> {
    if s.len() == 0 {
        s
    } else {
        uppercase_mapping(s[0]) + s.drop_first()
    }
}

/// Upper-cases the first character of `value`.
pub fn transform(value: &mut String)
    ensures
        final(value)@ == spec_capitalize(old(value)@),
{
    let chars = chars_of(value.as_str());
    if chars.len() == 0 {
        return;
    }
    let mut out = to_uppercase_chars(chars[0]);
    let mut i: usize = 1;
    while i < chars.len()
        invariant
            1 <= i <= chars.len(),
            out@ == uppercase_mapping(chars@[0]) + chars@.subrange(1, i as int),
        decreases chars.len() - i,
    {
        out.push(chars[i]);
        assert(chars@.subrange(1, i + 1) == chars@.subrange(1, i as int).push(chars@[i as int]));
        i += 1;
    }
    assert(chars@.subrange(1, chars.len() as int) == chars@.drop_first());
    *value = string_of(&out);
}

} // verus!
