use vstd::prelude::*;
use crate::unicode::{uppercase_form, uppercase_of};

verus! {

/// Replaces `value` by its Unicode upper-case form.
pub fn transform(value: &mut String)
    ensures
        final(value)@ == uppercase_form(old(value)@),
{
    let converted = uppercase_of(value.as_str());
    *value = converted;
}

} // verus!
