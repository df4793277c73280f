use vstd::prelude::*;
use crate::text::{chars_of, matches_at, push_all, string_of};

verus! {

/// `s` with every occurrence of `from` replaced by `to`, matching from left to
/// right without overlap. An empty `from` matches before each character and at
/// the end.
pub open spec fn spec_replace(s: Seq<char>, from: Seq<char>, to: Seq<char>) -> Seq<char>
    decreases s.len(),
{
    if s.len() == 0 {
        if from.len() == 0 {
            to
        } else {
            s
        }
    } else if from.len() == 0 {
        to + seq![s[0]] + spec_replace(s.drop_first(), from, to)
    } else if from.len() <= s.len() && s.take(from.len() as int) == from {
        to + spec_replace(s.skip(from.len() as int), from, to)
    } else {
        seq![s[0]] + spec_replace(s.drop_first(), from, to)
    }
}

/// Replaces every occurrence of `from` in `value` by `to`.
pub fn transform(value: &mut String, from: &str, to: &str)
    ensures
        final(value)@ == spec_replace(old(value)@, from@, to@),
{
    let chars = chars_of(value.as_str());
    let pattern = chars_of(from);
    let replacement = chars_of(to);
    let mut out: Vec<char> = Vec::new();
    let mut i: usize = 0;
    assert(chars@.skip(0) == chars@);
    while i < chars.len()
        invariant
            i <= chars.len(),
            out@ + spec_replace(chars@.skip(i as int), pattern@, replacement@) == spec_replace(
                chars@,
                pattern@,
                replacement@,
            ),
        decreases chars.len() - i,
    {
        let ghost rest = chars@.skip(i as int);
        assert(rest.drop_first() == chars@.skip(i + 1));
        if pattern.len() == 0 {
            push_all(&mut out, &replacement);
            out.push(chars[i]);
            i += 1;
        } else if matches_at(&chars, i, &pattern) {
            assert(rest.take(pattern.len() as int) == chars@.subrange(i as int, i + pattern.len()));
            assert(rest.skip(pattern.len() as int) == chars@.skip(i + pattern.len()));
            push_all(&mut out, &replacement);
            i += pattern.len();
        } else {
            assert(pattern.len() <= rest.len() ==> rest.take(pattern.len() as int)
                == chars@.subrange(i as int, i + pattern.len()));
            out.push(chars[i]);
            i += 1;
        }
    }
    assert(chars@.skip(i as int).len() == 0);
    if pattern.len() == 0 {
        push_all(&mut out, &replacement);
    } else {
        assert(out@ + Seq::<char>::empty() == out@);
    }
    *value = string_of(&out);
}

/// Replacing a pattern by itself leaves the string as it was.
pub proof fn replace_with_itself_is_identity(s: Seq<char>, pattern: Seq<char>)
    ensures
        spec_replace(s, pattern, pattern) == s,
    decreases s.len(),
{
    if s.len() == 0 {
        if pattern.len() == 0 {
            assert(pattern == s);
        }
    } else if pattern.len() == 0 {
        replace_with_itself_is_identity(s.drop_first(), pattern);
        assert(pattern + seq![s[0]] + s.drop_first() == s);
    } else if pattern.len() <= s.len() && s.take(pattern.len() as int) == pattern {
        replace_with_itself_is_identity(s.skip(pattern.len() as int), pattern);
        assert(s.take(pattern.len() as int) + s.skip(pattern.len() as int) == s);
    } else {
        replace_with_itself_is_identity(s.drop_first(), pattern);
        assert(seq![s[0]] + s.drop_first() == s);
    }
}

} // verus!
