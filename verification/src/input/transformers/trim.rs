use vstd::prelude::*;
use crate::input::transformers::trim_end::{spec_trim_end, trim_end_is_idempotent, trim_end_leaves_a_prefix};
use crate::input::transformers::trim_start::{spec_trim_start, trim_start_leaves_a_suffix};
use crate::input::transformers::{trim_end, trim_start};
use crate::text::is_whitespace;

verus! {

/// `s` without its leading and trailing Unicode whitespace.
pub open spec fn spec_trim(s: Seq<char>) -> Seq<char> {
    spec_trim_end(spec_trim_start(s))
}

/// Removes the leading and trailing Unicode whitespace of `value`.
pub fn transform(value: &mut String)
    ensures
        final(value)@ == spec_trim(old(value)@),
{
    trim_start::transform(value);
    trim_end::transform(value);
}

/// What trimming leaves neither starts nor ends with whitespace, and sits
/// inside the input.
pub proof fn trim_leaves_no_outer_whitespace(s: Seq<char>)
    ensures
        spec_trim(s).len() > 0 ==> !is_whitespace(spec_trim(s)[0]) && !is_whitespace(spec_trim(s).last()),
        spec_trim(s).len() <= s.len(),
{
    let t = spec_trim_start(s);
    trim_start_leaves_a_suffix(s);
    trim_end_leaves_a_prefix(t);
    let u = spec_trim_end(t);
    if u.len() > 0 {
        assert(u[0] == t[0]);
    }
}

/// Trimming twice gives what trimming once gives.
pub proof fn trim_is_idempotent(s: Seq<char>)
    ensures
        spec_trim(spec_trim(s)) == spec_trim(s),
{
    let u = spec_trim(s);
    trim_leaves_no_outer_whitespace(s);
    assert(spec_trim_start(u) == u);
    trim_end_is_idempotent(spec_trim_start(s));
}

} // verus!
