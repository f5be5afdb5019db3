//! Trusted declaration of `serde_json`'s error type, and the trusted probe
//! that reads the application-level fields out of a response body.
//!
//! What the probe finds is a function of the body text alone, so each
//! finding carries a name (an uninterpreted spec function over the text):
//! the verified classification downstream is exact over those names, and
//! is proved for every value they could take.

use vstd::prelude::*;

use serde_json::Error as SerdeJsonError;

verus! {

#[verifier::external_type_specification]
#[verifier::external_body]
pub struct ExJsonError(SerdeJsonError);

/// Whether `s` parses as a JSON document.
pub uninterp spec fn json_parses(s: Seq<char>) -> bool;

/// The compact JSON rendering of the document's `statusCode` field, when
/// `s` parses to an object carrying one.
pub uninterp spec fn status_code_text_of(s: Seq<char>) -> Option<Seq<char>>;

/// The compact JSON rendering of the document's `message` field, when `s`
/// parses to an object carrying one.
pub uninterp spec fn message_text_of(s: Seq<char>) -> Option<Seq<char>>;

/// The document's `message` field when `s` parses to an object whose
/// `message` is a string.
pub uninterp spec fn envelope_message_of(s: Seq<char>) -> Option<Seq<char>>;

/// What the probe found in a body: the rendering of the application-level
/// `statusCode` field when there is one, and of the `message` field.
pub struct BodyProbe {
    pub status_code: Option<String>,
    pub message: Option<String>,
}

/// Relies on `serde_json::from_str::<Value>`, `Value::get` and `Value`'s
/// `Display`: parses `s` and renders its `statusCode` and `message` fields
/// as compact JSON text (a JSON string keeps its quotes); what is found
/// depends on the text alone. A body that is not JSON returns the parse
/// failure.
#[verifier::external_body]
pub(crate) fn probe_body(s: &str) -> (r: Result<BodyProbe, serde_json::Error>)
    ensures
        r is Ok <==> json_parses(s@),
        r matches Ok(p) ==> ((p.status_code is Some <==> status_code_text_of(s@) is Some) && (
        p.status_code matches Some(c) ==> Some(c@) == status_code_text_of(s@)) && (
        p.message is Some <==> message_text_of(s@) is Some) && (p.message matches Some(m) ==> Some(
            m@,
        ) == message_text_of(s@))),
{
    let doc: serde_json::Value = serde_json::from_str(s)?;
    Ok(BodyProbe {
        status_code: doc.get("statusCode").map(|v| v.to_string()),
        message: doc.get("message").map(|v| v.to_string()),
    })
}

/// Relies on `serde_json::from_str::<Value>`, `Value::get` and
/// `Value::as_str`: the envelope's `message` field when it is a string;
/// what is found depends on the text alone.
#[verifier::external_body]
pub(crate) fn envelope_message(s: &str) -> (r: Option<String>)
    ensures
        r is Some <==> envelope_message_of(s@) is Some,
        r matches Some(m) ==> Some(m@) == envelope_message_of(s@),
{
    let doc: serde_json::Value = serde_json::from_str(s).ok()?;
    Some(doc.get("message")?.as_str()?.to_string())
}

/// Relies on `serde::de::Error::custom` for `serde_json::Error`: builds the
/// parse layer's error value reporting a structurally malformed document.
#[verifier::external_body]
pub(crate) fn json_shape_error(detail: &str) -> serde_json::Error {
    <serde_json::Error as serde::de::Error>::custom(detail)
}

/// Relies on `serde_json::Error`'s `Display`: a human-readable description
/// of the parse failure.
#[verifier::external_body]
pub(crate) fn describe_json_error(e: &serde_json::Error) -> String {
    e.to_string()
}

} // verus!
