use vstd::prelude::*;
use vstd::string::StrSliceExecFns;
use crate::case::{snake_to_camel, spec_snake_to_camel};

verus! {

/// `name` without the raw-identifier marker `r#` in front of it.
pub open spec fn spec_unraw(name: Seq<char>) -> Seq<char> {
    if name.len() >= 2 && name[0] == 'r' && name[1] == '#' {
        name.skip(2)
    } else {
        name
    }
}

/// Removes the raw-identifier marker `r#` from the front of `input`.
pub fn unraw(input: &str) -> (name: &str)
    ensures
        name@ == spec_unraw(input@),
{
    let len = input.unicode_len();
    if len >= 2 && input.get_char(0) == 'r' && input.get_char(1) == '#' {
        input.substring_char(2, len)
    } else {
        input
    }
}

/// The camelCase name under which a Rust field appears in field paths and in
/// JSON payloads.
pub fn field_json_name(ident: &str) -> (name: String)
    ensures
        name@ == spec_snake_to_camel(spec_unraw(ident@)),
{
    snake_to_camel(unraw(ident))
}

} // verus!
