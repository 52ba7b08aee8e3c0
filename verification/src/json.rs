//! JSON strings, as the `serde_json` crate writes them.

use vstd::prelude::*;

verus! {

/// The error of the `serde_json` crate, carried through as an opaque value.
#[verifier::external_type_specification]
#[verifier::external_body]
pub struct ExJsonError(serde_json::Error);

/// What `serde_json::to_string` writes for `text`: the text between double
/// quotes, with the characters that JSON does not take as they are written as
/// escapes.
pub uninterp spec fn json_string(text: Seq<char>) -> Seq<char>;

/// Writes a string as JSON through `serde_json::to_string`. For a string the
/// call always succeeds: it writes into a byte vector, and writing a string
/// has no failure of its own. Its result is the JSON string of the text.
#[verifier::external_body]
pub(crate) fn to_json_string(text: &str) -> (result: Result<String, serde_json::Error>)
    ensures
        result is Ok,
        result matches Ok(quoted) ==> quoted@ == json_string(text@),
{
    serde_json::to_string(text)
}

} // verus!
