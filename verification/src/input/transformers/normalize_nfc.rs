use vstd::prelude::*;
use crate::unicode::{nfc_form, nfc_of};

verus! {

/// Replaces `value` by its Unicode Normalization Form C.
pub fn transform(value: &mut String)
    ensures
        final(value)@ == nfc_form(old(value)@),
{
    let converted = nfc_of(value.as_str());
    *value = converted;
}

} // verus!
