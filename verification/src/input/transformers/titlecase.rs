use vstd::prelude::*;
use crate::text::{char_is_whitespace, chars_of, is_whitespace, push_all, string_of};
use crate::unicode::{lowercase_mapping, to_lowercase_chars, to_uppercase_chars, uppercase_mapping};

verus! {

/// Whether the character at `i` starts a word: it is the first character or
/// follows a whitespace character.
pub open spec fn starts_word(s: Seq<char>, i: int) -> bool {
    i == 0 || is_whitespace(s[i - 1])
}

/// What the character at `i` becomes: upper-cased at a word start,
/// lower-cased elsewhere.
pub open spec fn title_piece(s: Seq<char>, i: int) -> Seq<char> {
    if starts_word(s, i) {
        uppercase_mapping(s[i])
    } else {
        lowercase_mapping(s[i])
    }
}

/// The title-cased form of the first `n` characters of `s`.
pub open spec fn title_prefix(s: Seq<char>, n: nat) -> Seq<char>
    decreases n,
{
    if n == 0 {
        Seq::empty()
    } else {
        title_prefix(s, (n - 1) as nat) + title_piece(s, n - 1)
    }
}

/// `s` with each word start upper-cased and every other character lower-cased,
/// where a word starts at the beginning and after each whitespace character.
pub open spec fn spec_titlecase(s: Seq<char>) -> Seq<char> {
    title_prefix(s, s.len())
}

/// Upper-cases each word start of `value` and lower-cases its other characters.
pub fn transform(value: &mut String)
    ensures
        final(value)@ == spec_titlecase(old(value)@),
{
    let chars = chars_of(value.as_str());
    let mut out: Vec<char> = Vec::new();
    let mut i: usize = 0;
    while i < chars.len()
        invariant
            i <= chars.len(),
            out@ == title_prefix(chars@, i as nat),
        decreases chars.len() - i,
    {
        let mapped = if i == 0 || char_is_whitespace(chars[i - 1]) {
            to_uppercase_chars(chars[i])
        } else {
            to_lowercase_chars(chars[i])
        };
        push_all(&mut out, &mapped);
        i += 1;
    }
    *value = string_of(&out);
}


proof fn lemma_title_prefix_of_prefix(s: Seq<char>, m: int, n: nat)
    requires
        n <= m <= s.len(),
    ensures
        title_prefix(s.take(m), n) == title_prefix(s, n),
    decreases n,
{
    if n > 0 {
        lemma_title_prefix_of_prefix(s, m, (n - 1) as nat);
        assert(s.take(m)[n - 1] == s[n - 1]);
        if n >= 2 {
            assert(s.take(m)[n - 2] == s[n - 2]);
        }
    }
}

/// Title-casing goes character by character: the title case of the first
/// `i + 1` characters is that of the first `i` followed by the upper-case
/// mapping of character `i` when it is first or follows whitespace, and by its
/// lower-case mapping otherwise, whatever else precedes it (an apostrophe or
/// a hyphen does not start a word).
pub proof fn titlecase_upper_cases_only_after_whitespace(s: Seq<char>, i: int)
    requires
        0 <= i < s.len(),
    ensures
        spec_titlecase(s.take(i + 1)) == spec_titlecase(s.take(i)) + if i == 0 || is_whitespace(s[i - 1]) {
            uppercase_mapping(s[i])
        } else {
            lowercase_mapping(s[i])
        },
        spec_titlecase(s) == spec_titlecase(s.take(s.len() as int)),
{
    lemma_title_prefix_of_prefix(s, i + 1, (i + 1) as nat);
    lemma_title_prefix_of_prefix(s, i, i as nat);
    assert(s.take(s.len() as int) == s);
}

} // verus!
