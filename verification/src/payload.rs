//! Best-effort extraction of the `url` field from a raw intent payload.

use vstd::prelude::*;

verus! {

/// What the best-effort extraction yields on a given payload text: the value
/// of its `url` field when the payload parses as a structured value whose
/// `url` field holds a string, and nothing otherwise.  The outcome is a
/// function of the payload text alone.
pub uninterp spec fn url_field_of(payload: Seq<char>) -> Option<Seq<char>>;

/// Relies on `serde_json::from_str`, `serde_json::Value::get` and
/// `serde_json::Value::as_str`: parsing a payload and reading its `url`
/// field is deterministic, a function of the payload text alone.  Any
/// failure on the way — unparsable payload, missing `url` key, non-string
/// `url` value — yields `None`, never an error.
#[verifier::external_body]
pub(crate) fn extract_url_field(payload: &str) -> (r: Option<String>)
    ensures
        match r {
            Some(u) => url_field_of(payload@) == Some(u@),
            None => url_field_of(payload@) is None,
        },
{
    match serde_json::from_str::<serde_json::Value>(payload) {
        Ok(value) => match value.get("url") {
            Some(field) => field.as_str().map(|s: &str| s.to_owned()),
            None => None,
        },
        Err(_) => None,
    }
}

} // verus!
