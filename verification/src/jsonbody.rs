//! The exact JSON error text a failed resize is answered with.

use vstd::prelude::*;
use vstd::string::StringExecFns;

verus! {

/// The JSON string literal — quoted, with the mandatory escapes — denoting a
/// sequence of characters.
pub uninterp spec fn json_string_of(s: Seq<char>) -> Seq<char>;

/// Relies on serde_json::to_string on a string slice: it yields the JSON
/// string literal denoting the slice, a function of the characters alone.
/// Serializing a string slice cannot fail.
#[verifier::external_body]
fn json_quote(s: &str) -> (r: String)
    ensures
        r@ == json_string_of(s@),
{
    serde_json::to_string(s).unwrap_or_default()
}

/// The error document a failed resize is answered with.
pub open spec fn error_body_spec(details: Seq<char>) -> Seq<char> {
    "{\"error\":\"Failed to process video\",\"details\":"@ + json_string_of(details) + "}"@
}

/// Build the error document for a failed resize.
pub fn error_body(details: &str) -> (r: String)
    ensures
        r@ == error_body_spec(details@),
{
    let mut body = String::from_str("{\"error\":\"Failed to process video\",\"details\":");
    body.append(json_quote(details).as_str());
    body.append("}");
    body
}

} // verus!
