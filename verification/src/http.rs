//! Trusted declarations of `reqwest`'s error type and blocking connection
//! pool, and thin wrappers around the few calls the library makes on them.
//!
//! The network activity itself (sending a request, reading a body) is not
//! performed here: an unverified driver does that and hands the outcome to
//! the verified classification logic as an `AttemptOutcome`.

use vstd::prelude::*;

use reqwest::blocking::Client as BlockingClient;
use reqwest::blocking::ClientBuilder as BlockingClientBuilder;
use reqwest::Error as ReqwestError;

verus! {

#[verifier::external_type_specification]
#[verifier::external_body]
pub struct ExReqwestError(ReqwestError);

#[verifier::external_type_specification]
#[verifier::external_body]
pub struct ExBlockingClient(BlockingClient);

#[verifier::external_type_specification]
#[verifier::external_body]
pub struct ExBlockingClientBuilder(BlockingClientBuilder);

/// Relies on `reqwest::blocking::ClientBuilder::new`: a builder carrying the
/// default configuration; no network activity and no failure path.
#[verifier::external_body]
pub(crate) fn connection_pool_builder() -> reqwest::blocking::ClientBuilder {
    reqwest::blocking::ClientBuilder::new()
}

/// Relies on `reqwest::blocking::ClientBuilder::build`: builds a reusable
/// connection pool with no network activity, reporting a failure to
/// initialize a TLS backend or to load the resolver configuration as an
/// error value. Its documentation notes that it panics when called from
/// within an async runtime; this library is synchronous throughout.
#[verifier::external_body]
pub(crate) fn build_connection_pool(builder: reqwest::blocking::ClientBuilder) -> Result<
    reqwest::blocking::Client,
    reqwest::Error,
> {
    builder.build()
}

/// Relies on `reqwest::Error::status`: the HTTP status code the error was
/// generated from, `None` when the error did not come from a response
/// status (converted to its numeric form).
#[verifier::external_body]
pub(crate) fn error_status(e: &reqwest::Error) -> Option<u16> {
    e.status().map(|s| s.as_u16())
}

/// Relies on `reqwest::Error`'s `Display`: a human-readable description of
/// the transport failure.
#[verifier::external_body]
pub(crate) fn describe_http_error(e: &reqwest::Error) -> String {
    e.to_string()
}

} // verus!
