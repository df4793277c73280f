use vstd::prelude::*;
use crate::unicode::{lowercase_form, lowercase_of};

verus! {

/// Replaces `value` by its Unicode lower-case form.
pub fn transform(value: &mut String)
    ensures
        final(value)@ == lowercase_form(old(value)@),
{
    let converted = lowercase_of(value.as_str());
    *value = converted;
}

} // verus!
