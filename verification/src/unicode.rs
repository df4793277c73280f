use unicode_normalization::UnicodeNormalization;
use vstd::prelude::*;

verus! {

/// The characters that `char::to_uppercase` yields for `c` (its Unicode
/// upper-case mapping, one or more characters).
pub uninterp spec fn uppercase_mapping(c: char) -> Seq<char>;

/// The characters that `char::to_lowercase` yields for `c` (its Unicode
/// lower-case mapping, one or more characters).
pub uninterp spec fn lowercase_mapping(c: char) -> Seq<char>;

/// The Unicode Normalization Form KC of `s`, as the `unicode-normalization`
/// crate computes it.
pub uninterp spec fn nfkc_form(s: Seq<char>) -> Seq<char>;

/// `char::to_uppercase`: the contract claims only that the characters returned
/// are the upper-case mapping named by `uppercase_mapping`.
#[verifier::external_body]
pub fn to_uppercase_chars(c: char) -> (mapped: Vec<char>)
    ensures
        mapped@ == uppercase_mapping(c),
{
    c.to_uppercase().collect()
}

/// `char::to_lowercase`: the contract claims only that the characters returned
/// are the lower-case mapping named by `lowercase_mapping`.
#[verifier::external_body]
pub fn to_lowercase_chars(c: char) -> (mapped: Vec<char>)
    ensures
        mapped@ == lowercase_mapping(c),
{
    c.to_lowercase().collect()
}

/// `UnicodeNormalization::nfkc` of the `unicode-normalization` crate, collected
/// into a string: the contract claims only that the result is the form named by
/// `nfkc_form`, a function of the input characters alone.
#[verifier::external_body]
pub fn nfkc_of(s: &str) -> (normalized: String)
    ensures
        normalized@ == nfkc_form(s@),
{
    s.nfkc().collect()
}


/// What `str::to_lowercase` returns for `s`: its Unicode lower-case form.
pub uninterp spec fn lowercase_form(s: Seq<char>) -> Seq<char>;

/// What `str::to_uppercase` returns for `s`: its Unicode upper-case form.
pub uninterp spec fn uppercase_form(s: Seq<char>) -> Seq<char>;

/// The Unicode Normalization Form C of `s`, as the `unicode-normalization`
/// crate computes it.
pub uninterp spec fn nfc_form(s: Seq<char>) -> Seq<char>;

/// `str::to_lowercase`: the contract claims only that the result is the form
/// named by `lowercase_form`, a function of the input characters alone.
#[verifier::external_body]
pub fn lowercase_of(s: &str) -> (lowered: String)
    ensures
        lowered@ == lowercase_form(s@),
{
    s.to_lowercase()
}

/// `str::to_uppercase`: the contract claims only that the result is the form
/// named by `uppercase_form`, a function of the input characters alone.
#[verifier::external_body]
pub fn uppercase_of(s: &str) -> (raised: String)
    ensures
        raised@ == uppercase_form(s@),
{
    s.to_uppercase()
}

/// `UnicodeNormalization::nfc` of the `unicode-normalization` crate, collected
/// into a string: the contract claims only that the result is the form named by
/// `nfc_form`, a function of the input characters alone.
#[verifier::external_body]
pub fn nfc_of(s: &str) -> (normalized: String)
    ensures
        normalized@ == nfc_form(s@),
{
    s.nfc().collect()
}

} // verus!
