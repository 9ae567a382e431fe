//! JSON text for what the engine returns as plain text.
use crate::text::nul_free;
use vstd::prelude::*;
use vstd::utf8::encode_utf8;

verus! {

/// The error of the JSON library; nothing is read from it.
#[verifier::external_type_specification]
#[verifier::external_body]
pub struct ExJsonError(serde_json::Error);

/// The JSON string literal that the JSON library writes for a text: the text between double
/// quotes, with the escapes of that library.
pub uninterp spec fn json_of_text(text: Seq<char>) -> Seq<char>;

/// Writes a text as a JSON string literal, by `serde_json::to_string`. Trusted, of that
/// function on a text: it always succeeds, since it writes into memory and a text has nothing
/// that cannot be written; what it writes depends on the text alone; and what it writes holds
/// no NUL, since every control character, NUL among them, is written as an escape.
#[verifier::external_body]
pub(crate) fn json_string(text: &str) -> (json: Result<String, serde_json::Error>)
    ensures
        json.is_ok(),
        json matches Ok(s) ==> s@ == json_of_text(text@),
        json matches Ok(s) ==> nul_free(encode_utf8(s@)),
{
    serde_json::to_string(text)
}

} // verus!
