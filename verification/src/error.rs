//! The error taxonomy of the client: failures are either `Fatal` or
//! `Retryable`, carry an optional wrapped cause kept for diagnostics and an
//! optional human-readable message, and a retryable error can be escalated
//! to a fatal one once a retry budget is exhausted.

use vstd::prelude::*;
use vstd::string::StringExecFns;

use crate::http::describe_http_error;
use crate::json::describe_json_error;

verus! {

/// Severity of a client failure: `Retryable` failures may be resolved by a
/// later attempt, `Fatal` failures never are.
#[derive(Debug, Clone, Copy, PartialEq, Eq, Structural)]
pub enum ErrorKind {
    Fatal,
    Retryable,
}

/// The lower-level failure an `Error` wraps, preserved for diagnostics.
#[derive(Debug)]
pub enum Cause {
    /// A transport-level failure, or an HTTP error status.
    Http(reqwest::Error),
    /// A malformed response body.
    Json(serde_json::Error),
}

/// A client failure: a severity, an optional wrapped cause and an optional
/// descriptive message.
#[derive(Debug)]
pub struct Error {
    pub kind: ErrorKind,
    pub source: Option<Cause>,
    pub message: Option<String>,
}

/// The rendering prefix for an error of kind `k`.
pub open spec fn spec_kind_prefix(k: ErrorKind) -> Seq<char> {
    match k {
        ErrorKind::Fatal => "Fatal error: "@,
        ErrorKind::Retryable => "Retryable error: "@,
    }
}

/// The rendering of an optional message: the message itself, or nothing.
pub open spec fn spec_message_part(m: Option<String>) -> Seq<char> {
    match m {
        Some(s) => s@,
        None => Seq::empty(),
    }
}

impl Error {
    /// Builds an error from a severity, an optional cause and an optional
    /// message.
    pub fn new(kind: ErrorKind, source: Option<Cause>, message: Option<String>) -> (e: Error)
        ensures
            e.kind == kind,
            e.source == source,
            e.message == message,
    {
        Error { kind, source, message }
    }

    /// True iff the failure may be resolved by trying again.
    pub fn is_retriable(&self) -> (r: bool)
        ensures
            r == (self.kind is Retryable),
    {
        match self.kind {
            ErrorKind::Retryable => true,
            ErrorKind::Fatal => false,
        }
    }

    /// Escalates the error to `Fatal`, consuming it: the wrapped cause moves
    /// over unchanged while the message is replaced by the given one.
    pub fn to_fatal(self, message: Option<String>) -> (e: Error)
        ensures
            e.kind is Fatal,
            e.source == self.source,
            e.message == message,
    {
        Error { kind: ErrorKind::Fatal, source: self.source, message }
    }

    /// Renders the error as `"<Kind> error: "`, followed by the message when
    /// there is one, followed by a description of the cause when there is
    /// one.
    pub fn to_string(&self) -> (s: String)
        ensures
            self.source is None ==> s@ == spec_kind_prefix(self.kind) + spec_message_part(
                self.message,
            ),
            self.source is Some ==> s@.take(
                (spec_kind_prefix(self.kind) + spec_message_part(self.message)).len() as int,
            ) == spec_kind_prefix(self.kind) + spec_message_part(self.message),
    {
        let mut s = match self.kind {
            ErrorKind::Fatal => String::from_str("Fatal error: "),
            ErrorKind::Retryable => String::from_str("Retryable error: "),
        };
        match &self.message {
            Some(m) => s.append(m.as_str()),
            None => (),
        }
        proof {
            assert(s@ =~= spec_kind_prefix(self.kind) + spec_message_part(self.message));
        }
        match &self.source {
            Some(c) => {
                let ghost head = s@;
                let described = describe_cause(c);
                s.append(described.as_str());
                proof {
                    assert(s@.take(head.len() as int) =~= head);
                }
            },
            None => (),
        }
        s
    }
}

/// Describes a wrapped cause through the outside crates' own renderings.
fn describe_cause(c: &Cause) -> String {
    match c {
        Cause::Http(e) => describe_http_error(e),
        Cause::Json(e) => describe_json_error(e),
    }
}

impl From<reqwest::Error> for Error {
    /// A transport or HTTP failure is never retryable by construction: it
    /// becomes `Fatal`, wrapping the failure, with no message.
    fn from(err: reqwest::Error) -> (e: Error) {
        Error { kind: ErrorKind::Fatal, source: Some(Cause::Http(err)), message: None }
    }
}

impl vstd::std_specs::convert::FromSpecImpl<reqwest::Error> for Error {
    open spec fn obeys_from_spec() -> bool {
        true
    }

    open spec fn from_spec(err: reqwest::Error) -> Error {
        Error { kind: ErrorKind::Fatal, source: Some(Cause::Http(err)), message: None }
    }
}

impl From<serde_json::Error> for Error {
    /// A malformed response body is never retryable by construction: it
    /// becomes `Fatal`, wrapping the failure, with no message.
    fn from(err: serde_json::Error) -> (e: Error) {
        Error { kind: ErrorKind::Fatal, source: Some(Cause::Json(err)), message: None }
    }
}

impl vstd::std_specs::convert::FromSpecImpl<serde_json::Error> for Error {
    open spec fn obeys_from_spec() -> bool {
        true
    }

    open spec fn from_spec(err: serde_json::Error) -> Error {
        Error { kind: ErrorKind::Fatal, source: Some(Cause::Json(err)), message: None }
    }
}

} // verus!
