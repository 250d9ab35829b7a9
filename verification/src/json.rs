//! Extraction of the structured API-error payload.
//!
//! A client-error (4xx) response carries a JSON object with at minimum
//! a numeric `status` and a human-readable `message`. The exact schema
//! is owned by the remote API and treated as opaque beyond
//! deserialization, so only those two fields are read.

use vstd::prelude::*;

use crate::error::ScryfallError;

verus! {

/// The numeric `status` and string `message` fields of a JSON API-error
/// document: present exactly when the text parses as JSON and holds
/// both fields in that shape, as the JSON crate decides; a function of
/// the text alone.
pub uninterp spec fn error_fields_of(body: Seq<char>) -> Option<(u64, Seq<char>)>;

/// Relies on serde_json::from_str::<Value>, Value::get, Value::as_u64
/// and Value::as_str: reads the numeric `status` and string `message`
/// of a JSON object, `None` exactly when the text is not JSON or lacks
/// either field in that shape.
#[verifier::external_body]
fn error_fields(body: &str) -> (r: Option<(u64, String)>)
    ensures
        match r {
            Some(p) => error_fields_of(body@) == Some((p.0, p.1@)),
            None => error_fields_of(body@) is None,
        },
{
    let doc: serde_json::Value = serde_json::from_str(body).ok()?;
    let status = doc.get("status")?.as_u64()?;
    let message = doc.get("message")?.as_str()?.to_string();
    Some((status, message))
}

/// Decode a client-error response body as the structured API-error
/// payload: succeeds exactly when the body is a JSON object holding a
/// numeric `status` within the HTTP status range and a string
/// `message`, and then carries exactly those two fields. The caller
/// surfaces a `None` as a decode error.
pub fn decode_error_payload(body: &str) -> (r: Option<ScryfallError>)
    ensures
        r matches Some(p) ==> error_fields_of(body@) == Some((p.status as u64, p.message@)),
        r is Some <==> (error_fields_of(body@) matches Some(f) && f.0 <= u16::MAX),
{
    match error_fields(body) {
        Some((status, message)) => {
            if status <= 65535 {
                Some(ScryfallError { status: status as u16, message })
            } else {
                None
            }
        },
        None => None,
    }
}

} // verus!
