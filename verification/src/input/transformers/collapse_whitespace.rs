use vstd::prelude::*;
use crate::text::{char_is_whitespace, chars_of, is_whitespace, string_of};

verus! {

/// The collapsed form of the first `n` characters of `s`: whitespace is
/// dropped, and a single `' '` goes before a non-whitespace character that
/// follows whitespace, unless nothing has been kept yet.
pub open spec fn collapse_prefix(s: Seq<char>, n: nat) -> Seq<char>
    decreases n,
{
    if n == 0 {
        Seq::empty()
    } else {
        let kept = collapse_prefix(s, (n - 1) as nat);
        let c = s[n - 1];
        if is_whitespace(c) {
            kept
        } else if n >= 2 && is_whitespace(s[n - 2]) && kept.len() > 0 {
            kept.push(' ').push(c)
        } else {
            kept.push(c)
        }
    }
}

/// The words of `s` (its maximal runs of non-whitespace characters) joined by
/// single spaces.
pub open spec fn spec_collapse_whitespace(s: Seq<char>) -> Seq<char> {
    collapse_prefix(s, s.len())
}

/// Trims `value` and replaces each run of Unicode whitespace by one ASCII space.
pub fn transform(value: &mut String)
    ensures
        final(value)@ == spec_collapse_whitespace(old(value)@),
{
    let chars = chars_of(value.as_str());
    let mut out: Vec<char> = Vec::new();
    let mut i: usize = 0;
    while i < chars.len()
        invariant
            i <= chars.len(),
            out@ == collapse_prefix(chars@, i as nat),
        decreases chars.len() - i,
    {
        let c = chars[i];
        if !char_is_whitespace(c) {
            if i >= 1 && char_is_whitespace(chars[i - 1]) && out.len() > 0 {
                out.push(' ');
            }
            out.push(c);
        }
        i += 1;
    }
    *value = string_of(&out);
}

/// A string in collapsed shape: every whitespace character is a `' '` with a
/// non-whitespace character on each side.
pub open spec fn is_collapsed(t: Seq<char>) -> bool {
    forall|i: int|
        0 <= i < t.len() && is_whitespace(#[trigger] t[i]) ==> {
            &&& t[i] == ' '
            &&& 0 < i < t.len() - 1
            &&& !is_whitespace(t[i - 1])
            &&& !is_whitespace(t[i + 1])
        }
}

proof fn lemma_collapse_prefix_is_collapsed(s: Seq<char>, n: nat)
    requires
        n <= s.len(),
    ensures
        is_collapsed(collapse_prefix(s, n)),
        collapse_prefix(s, n).len() > 0 ==> !is_whitespace(collapse_prefix(s, n).last()),
    decreases n,
{
    if n > 0 {
        lemma_collapse_prefix_is_collapsed(s, (n - 1) as nat);
        let kept = collapse_prefix(s, (n - 1) as nat);
        let t = collapse_prefix(s, n);
        assert forall|i: int| 0 <= i < t.len() && is_whitespace(#[trigger] t[i]) implies {
            &&& t[i] == ' '
            &&& 0 < i < t.len() - 1
            &&& !is_whitespace(t[i - 1])
            &&& !is_whitespace(t[i + 1])
        } by {
            if i < kept.len() {
                assert(t[i] == kept[i]);
            }
        }
    }
}

proof fn lemma_collapsed_prefix_fixed(t: Seq<char>, n: nat)
    requires
        is_collapsed(t),
        n <= t.len(),
    ensures
        collapse_prefix(t, n) == if n > 0 && t[n - 1] == ' ' {
            t.take(n - 1)
        } else {
            t.take(n as int)
        },
    decreases n,
{
    if n > 0 {
        lemma_collapsed_prefix_fixed(t, (n - 1) as nat);
        let c = t[n - 1];
        if is_whitespace(c) {
            assert(t[n - 1] == ' ');
            assert(!is_whitespace(t[n - 2]));
        } else if n >= 2 && is_whitespace(t[n - 2]) {
            assert(t[n - 2] == ' ');
            assert(n - 2 > 0);
            assert(t.take(n - 2).len() > 0);
            assert(t.take(n - 2).push(' ').push(c) == t.take(n as int));
        } else {
            assert(t.take(n - 1).push(c) == t.take(n as int));
        }
    }
}

/// Collapsing whitespace twice gives what collapsing once gives.
pub proof fn collapse_whitespace_is_idempotent(s: Seq<char>)
    ensures
        spec_collapse_whitespace(spec_collapse_whitespace(s)) == spec_collapse_whitespace(s),
        is_collapsed(spec_collapse_whitespace(s)),
{
    let t = spec_collapse_whitespace(s);
    lemma_collapse_prefix_is_collapsed(s, s.len());
    lemma_collapsed_prefix_fixed(t, t.len());
    if t.len() > 0 {
        assert(t[t.len() - 1] != ' ');
    }
    assert(t.take(t.len() as int) == t);
}

} // verus!
