use vstd::prelude::*;
use crate::unicode::{nfkc_form, nfkc_of};

verus! {

/// Replaces `value` by its Unicode Normalization Form KC.
pub fn transform(value: &mut String)
    ensures
        final(value)@ == nfkc_form(old(value)@),
{
    let normalized = nfkc_of(value.as_str());
    *value = normalized;
}

} // verus!
