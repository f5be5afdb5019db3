//! The HTTP client core: the retry policy, the typed response envelope,
//! the classification of one attempt's outcome into the error taxonomy,
//! the decision logic of the bounded retry loop, and the decoding of the
//! typed envelope out of a validated body.
//!
//! The network activity itself is performed by an unverified driver that
//! owns no policy of its own: it sends one request at a time, hands each
//! outcome to `Client::evaluate_attempt`, and obeys the `RetryStep` that
//! `RetryPolicy::next_step` decides.

use vstd::prelude::*;
use vstd::string::StringExecFns;

use crate::error::{Cause, Error, ErrorKind};
use crate::http::{build_connection_pool, connection_pool_builder, error_status};
use crate::json::{
    envelope_message, envelope_message_of, json_parses, json_shape_error, message_text_of,
    probe_body, status_code_text_of,
};
use crate::schema::{city_raw_records, city_records_of, pref_raw_records, pref_records_of, City,
    Prefecture};
use crate::text::{decimal_string, first_char_is, spec_decimal};

verus! {

/// The fixed base URL of the API host.
pub open spec fn spec_endpoint() -> Seq<char> {
    "https://opendata.resas-portal.go.jp"@
}

/// The typed response envelope: the collection of records, which is the
/// only field consumers read, plus the server's optional message.
#[derive(Debug)]
pub struct ResasResponse<T> {
    pub message: Option<String>,
    pub result: Vec<T>,
}

/// The retry policy: which status-code renderings are retried, how many
/// seconds to sleep between attempts, and the maximum attempt count.
/// Immutable once constructed.
#[derive(Debug)]
pub struct RetryPolicy {
    retriable_codes: Vec<String>,
    interval: u64,
    attempts: u64,
}

/// What the retry loop does after one attempt: stop with a final result,
/// or sleep for the given number of seconds and try again.
pub enum RetryStep {
    Finished(Result<String, Error>),
    SleepAndRetry { seconds: u64, attempts_done: u64 },
}

/// The message reported when a retry budget of `n` attempts is exhausted.
pub open spec fn spec_retry_exhausted_message(n: nat) -> Seq<char> {
    "Retried "@ + spec_decimal(n) + " but couldn't recover"@
}

impl RetryPolicy {
    /// The set of status-code renderings considered retryable.
    pub closed spec fn spec_codes(&self) -> Seq<Seq<char>> {
        self.retriable_codes@.map_values(|s: String| s@)
    }

    /// The seconds slept between attempts.
    pub closed spec fn spec_interval(&self) -> u64 {
        self.interval
    }

    /// The maximum attempt count.
    pub closed spec fn spec_attempts(&self) -> u64 {
        self.attempts
    }

    /// Builds a policy from a retryable-code set, a sleep interval in
    /// seconds and a maximum attempt count.
    pub fn new(retriable_codes: Vec<String>, interval: u64, attempts: u64) -> (p: RetryPolicy)
        ensures
            p.spec_codes() == retriable_codes@.map_values(|s: String| s@),
            p.spec_interval() == interval,
            p.spec_attempts() == attempts,
    {
        RetryPolicy { retriable_codes, interval, attempts }
    }

    /// True iff `code` is one of the policy's retryable codes.
    pub fn is_retriable_code(&self, code: &String) -> (r: bool)
        ensures
            r == self.spec_codes().contains(code@),
    {
        let n = self.retriable_codes.len();
        let mut i: usize = 0;
        while i < n
            invariant
                0 <= i <= n,
                n == self.retriable_codes.len(),
                forall|j: int| 0 <= j < i ==> self.spec_codes()[j] != code@,
            decreases n - i,
        {
            if self.retriable_codes[i] == *code {
                proof {
                    assert(self.spec_codes()[i as int] == code@);
                }
                return true;
            }
            i += 1;
        }
        false
    }

    /// Decides the retry loop's next move after one attempt, where
    /// `attempts_before` counts the attempts made before it. A success or a
    /// fatal failure ends the loop at once, with that result. A retryable
    /// failure that used up the budget ends the loop with the error
    /// escalated to fatal, its cause kept and its message replaced by the
    /// attempt-count summary; otherwise the loop sleeps for the policy's
    /// interval and tries again.
    pub fn next_step(&self, attempts_before: u64, outcome: Result<String, Error>) -> (step:
        RetryStep)
        requires
            attempts_before < u64::MAX,
        ensures
            outcome is Ok ==> step == RetryStep::Finished(outcome),
            outcome matches Err(e) && e.kind is Fatal ==> step == RetryStep::Finished(outcome),
            outcome is Err && outcome->Err_0.kind is Retryable && attempts_before + 1
                == self.spec_attempts() ==> (step is Finished && step->Finished_0 is Err
                && step->Finished_0->Err_0.kind is Fatal && step->Finished_0->Err_0.source
                == outcome->Err_0.source && step->Finished_0->Err_0.message is Some
                && step->Finished_0->Err_0.message->0@ == spec_retry_exhausted_message(
                self.spec_attempts() as nat,
            )),
            outcome is Err && outcome->Err_0.kind is Retryable && attempts_before + 1
                != self.spec_attempts() ==> step == (RetryStep::SleepAndRetry {
                seconds: self.spec_interval(),
                attempts_done: (attempts_before + 1) as u64,
            }),
    {
        match outcome {
            Ok(body) => RetryStep::Finished(Ok(body)),
            Err(e) => {
                if !e.is_retriable() {
                    RetryStep::Finished(Err(e))
                } else {
                    let attempts = attempts_before + 1;
                    if attempts == self.attempts {
                        let mut msg = String::from_str("Retried ");
                        let rendered = decimal_string(attempts);
                        msg.append(rendered.as_str());
                        msg.append(" but couldn't recover");
                        proof {
                            assert(msg@ =~= spec_retry_exhausted_message(
                                self.spec_attempts() as nat,
                            ));
                        }
                        RetryStep::Finished(Err(e.to_fatal(Some(msg))))
                    } else {
                        RetryStep::SleepAndRetry { seconds: self.interval, attempts_done: attempts }
                    }
                }
            },
        }
    }
}

impl Default for RetryPolicy {
    /// The default policy: retryable codes `"500"` and `"502"`, a 60 second
    /// interval between attempts, 3 attempts.
    fn default() -> (p: Self)
        ensures
            p.spec_codes() == seq!["500"@, "502"@],
            p.spec_interval() == 60,
            p.spec_attempts() == 3,
    {
        let mut codes: Vec<String> = Vec::new();
        codes.push(String::from_str("500"));
        codes.push(String::from_str("502"));
        proof {
            assert(codes@.map_values(|s: String| s@) =~= seq!["500"@, "502"@]);
        }
        RetryPolicy { retriable_codes: codes, interval: 60, attempts: 3 }
    }
}

/// The observed outcome of one HTTP attempt, as the unverified driver hands
/// it over for classification.
pub enum AttemptOutcome {
    /// The transport failed before a response status was available, or the
    /// response body could not be read.
    Transport(reqwest::Error),
    /// The server answered with an HTTP error status.
    ErrorStatus(reqwest::Error),
    /// The server answered with an HTTP success status; the raw body text.
    Success(String),
}

/// Classifies an HTTP error status against the policy: a status whose
/// decimal rendering is in the retryable set gives a retryable error
/// wrapping the failure, with the message `"Status code <code>"`; anything
/// else (a status outside the set, or no status at all) stays a fatal
/// transport failure with no message, the failure kept as cause.
pub fn classify_http_failure(policy: &RetryPolicy, status: Option<u16>, error: reqwest::Error) -> (e:
    Error)
    ensures
        status is Some && policy.spec_codes().contains(spec_decimal(status->0 as nat)) ==> (
        e.kind is Retryable && e.source == Some(Cause::Http(error)) && e.message is Some
            && e.message->0@ == "Status code "@ + spec_decimal(status->0 as nat)),
        !(status is Some && policy.spec_codes().contains(spec_decimal(status->0 as nat))) ==> (
        e.kind is Fatal && e.source == Some(Cause::Http(error)) && e.message is None),
{
    match status {
        Some(s) => {
            let code = decimal_string(s as u64);
            if policy.is_retriable_code(&code) {
                let mut msg = String::from_str("Status code ");
                msg.append(code.as_str());
                Error::new(ErrorKind::Retryable, Some(Cause::Http(error)), Some(msg))
            } else {
                Error::from(error)
            }
        },
        None => Error::from(error),
    }
}

/// Classifies a success-status response from what was probed out of its
/// body: the rendering of the application-level `statusCode` field when the
/// body carries one, and the rendering of the `message` field. With no
/// `statusCode`, the body is the payload. A retryable code gives a
/// retryable error carrying the body's message and no cause; a code whose
/// rendering starts with `2` means success; any other code is fatal, the
/// code and the message joined into one message.
pub fn classify_success_body(
    policy: &RetryPolicy,
    status_code: Option<String>,
    message_text: String,
    body: String,
) -> (r: Result<String, Error>)
    ensures
        status_code is None ==> (r is Ok && r->Ok_0@ == body@),
        status_code is Some && policy.spec_codes().contains(status_code->0@) ==> (r is Err
            && r->Err_0.kind is Retryable && r->Err_0.source is None && r->Err_0.message is Some
            && r->Err_0.message->0@ == message_text@),
        status_code is Some && !policy.spec_codes().contains(status_code->0@)
            && status_code->0@.len() > 0 && status_code->0@.first() == '2' ==> (r is Ok && r->Ok_0@
            == body@),
        status_code is Some && !policy.spec_codes().contains(status_code->0@) && !(
        status_code->0@.len() > 0 && status_code->0@.first() == '2') ==> (r is Err
            && r->Err_0.kind is Fatal && r->Err_0.source is None && r->Err_0.message is Some
            && r->Err_0.message->0@ == status_code->0@ + " "@ + message_text@),
{
    match status_code {
        None => Ok(body),
        Some(code) => {
            if policy.is_retriable_code(&code) {
                Err(Error::new(ErrorKind::Retryable, None, Some(message_text)))
            } else if first_char_is(code.as_str(), '2') {
                Ok(body)
            } else {
                let mut msg = code;
                msg.append(" ");
                msg.append(message_text.as_str());
                Err(Error::new(ErrorKind::Fatal, None, Some(msg)))
            }
        },
    }
}

/// The rendering of the probed `message` field of the body `s`: the JSON
/// text of the field, or the text `null` when the body carries none.
pub open spec fn spec_probed_message(s: Seq<char>) -> Seq<char> {
    match message_text_of(s) {
        Some(t) => t,
        None => "null"@,
    }
}

/// What classifying a success-status body must yield, stated over the named
/// renderings probed out of the body text `body` against the retryable set
/// `codes`: an unparsable body is fatal with the parse failure as cause; a
/// body with no `statusCode` field is the payload, returned unchanged; a
/// retryable code gives a retryable error carrying the probed message; a
/// code starting with `2` means success, the body returned unchanged; any
/// other code is fatal, the code and the probed message joined.
pub open spec fn spec_body_classification(
    codes: Seq<Seq<char>>,
    body: Seq<char>,
    r: Result<String, Error>,
) -> bool {
    &&& (!json_parses(body) ==> (r is Err && r->Err_0.kind is Fatal && r->Err_0.source is Some
        && r->Err_0.source->0 is Json && r->Err_0.message is None))
    &&& (json_parses(body) && status_code_text_of(body) is None ==> (r is Ok && r->Ok_0@ == body))
    &&& (json_parses(body) && status_code_text_of(body) is Some && codes.contains(
        status_code_text_of(body)->0,
    ) ==> (r is Err && r->Err_0.kind is Retryable && r->Err_0.source is None
        && r->Err_0.message is Some && r->Err_0.message->0@ == spec_probed_message(body)))
    &&& (json_parses(body) && status_code_text_of(body) is Some && !codes.contains(
        status_code_text_of(body)->0,
    ) && status_code_text_of(body)->0.len() > 0 && status_code_text_of(body)->0.first() == '2' ==> (
    r is Ok && r->Ok_0@ == body))
    &&& (json_parses(body) && status_code_text_of(body) is Some && !codes.contains(
        status_code_text_of(body)->0,
    ) && !(status_code_text_of(body)->0.len() > 0 && status_code_text_of(body)->0.first() == '2')
        ==> (r is Err && r->Err_0.kind is Fatal && r->Err_0.source is None
        && r->Err_0.message is Some && r->Err_0.message->0@ == status_code_text_of(body)->0 + " "@
        + spec_probed_message(body)))
}

/// The HTTP client: one reusable connection pool, one API key and one retry
/// policy, all fixed at construction and never changed.
pub struct Client {
    client: reqwest::blocking::Client,
    api_key: String,
    retry_policy: RetryPolicy,
}

impl Client {
    /// The API key sent with every request.
    pub closed spec fn spec_api_key(&self) -> Seq<char> {
        self.api_key@
    }

    /// The retry policy fixed at construction.
    pub closed spec fn spec_retry_policy(&self) -> RetryPolicy {
        self.retry_policy
    }

    /// Builds a client holding the key, the policy and one reusable
    /// connection pool. No network activity happens at construction time; a
    /// failure to set the pool up surfaces as a fatal error wrapping it.
    pub fn new(api_key: String, retry_policy: RetryPolicy) -> (r: Result<Client, Error>)
        ensures
            r matches Ok(c) ==> (c.spec_api_key() == api_key@ && c.spec_retry_policy()
                == retry_policy),
            r matches Err(e) ==> (e.kind is Fatal && (e.source matches Some(cause)
                && cause is Http) && e.message is None),
    {
        let pool = match build_connection_pool(connection_pool_builder()) {
            Ok(p) => p,
            Err(e) => {
                return Err(Error::from(e));
            },
        };
        Ok(Client { client: pool, api_key, retry_policy })
    }

    /// The connection pool, for the unverified driver that sends requests.
    pub fn connection_pool(&self) -> &reqwest::blocking::Client {
        &self.client
    }

    /// The API key, for the driver's request header.
    pub fn api_key(&self) -> (k: &String)
        ensures
            k@ == self.spec_api_key(),
    {
        &self.api_key
    }

    /// The retry policy.
    pub fn retry_policy(&self) -> (p: &RetryPolicy)
        ensures
            *p == self.spec_retry_policy(),
    {
        &self.retry_policy
    }

    /// Classifies the outcome of one attempt. A transport failure is fatal
    /// by construction, wrapped as the cause with no message. An HTTP error
    /// status is judged by `classify_http_failure` against the policy. A
    /// success status has its body parsed and judged by
    /// `classify_success_body`: a malformed body is fatal with the parse
    /// failure as cause, and a successful classification returns the body
    /// text unchanged.
    pub fn evaluate_attempt(&self, outcome: AttemptOutcome) -> (r: Result<String, Error>)
        ensures
            outcome is Transport ==> (r is Err && r->Err_0.kind is Fatal && r->Err_0.source
                == Some(Cause::Http(outcome->Transport_0)) && r->Err_0.message is None),
            outcome is ErrorStatus ==> (r is Err && r->Err_0.source == Some(
                Cause::Http(outcome->ErrorStatus_0),
            ) && (r->Err_0.kind is Retryable ==> r->Err_0.message is Some) && (
            r->Err_0.kind is Fatal ==> r->Err_0.message is None)),
            outcome is Success ==> spec_body_classification(
                self.spec_retry_policy().spec_codes(),
                outcome->Success_0@,
                r,
            ),
    {
        match outcome {
            AttemptOutcome::Transport(e) => Err(Error::from(e)),
            AttemptOutcome::ErrorStatus(e) => {
                let status = error_status(&e);
                Err(classify_http_failure(&self.retry_policy, status, e))
            },
            AttemptOutcome::Success(body) => self.classify_body(body),
        }
    }

    /// Parses a success-status body as generic JSON, probes it for the
    /// application-level `statusCode` and `message` fields, and classifies
    /// it against the policy.
    fn classify_body(&self, body: String) -> (r: Result<String, Error>)
        ensures
            spec_body_classification(self.spec_retry_policy().spec_codes(), body@, r),
    {
        let probe = match probe_body(body.as_str()) {
            Ok(p) => p,
            Err(e) => {
                return Err(Error::from(e));
            },
        };
        let message_text: String = match probe.message {
            Some(m) => m,
            None => String::from_str("null"),
        };
        classify_success_body(&self.retry_policy, probe.status_code, message_text, body)
    }
}

/// Builds the request URL: the fixed endpoint, `/`, the endpoint path, and
/// `?` plus the pre-encoded query string when parameters are supplied (they
/// are not escaped further).
pub fn request_url(path: &str, parameters: Option<&str>) -> (url: String)
    ensures
        parameters is None ==> url@ == spec_endpoint() + "/"@ + path@,
        parameters matches Some(p) ==> url@ == spec_endpoint() + "/"@ + path@ + "?"@ + p@,
{
    let mut url = String::from_str("https://opendata.resas-portal.go.jp");
    url.append("/");
    url.append(path);
    match parameters {
        Some(p) => {
            url.append("?");
            url.append(p);
        },
        None => (),
    }
    url
}

/// Decodes the typed envelope of parent records out of a validated body.
/// It succeeds exactly when the body carries the record array and every
/// record's code fits the record type; the records come out in array
/// order, field for field, with the envelope's message; any failure is
/// fatal, wrapping the parse layer's error, with no message.
pub fn decode_prefectures(body: &str) -> (r: Result<ResasResponse<Prefecture>, Error>)
    ensures
        r is Ok <==> (pref_records_of(body@) matches Some(m) && (forall|i: int|
            0 <= i < m.len() ==> m[i].0 <= 255)),
        r matches Ok(env) ==> (pref_records_of(body@) matches Some(m) && env.result@.len()
            == m.len() && (forall|i: int|
            0 <= i < m.len() ==> env.result@[i].pref_code == m[i].0 && env.result@[i].pref_name@
                == m[i].1) && (env.message is Some <==> envelope_message_of(body@) is Some) && (
        env.message is Some ==> Some(env.message->0@) == envelope_message_of(body@))),
        r matches Err(e) ==> (e.kind is Fatal && (e.source matches Some(c) && c is Json)
            && e.message is None),
{
    let raw = match pref_raw_records(body) {
        Some(v) => v,
        None => {
            return Err(Error::from(json_shape_error("expected an array of records")));
        },
    };
    let ghost m = pref_records_of(body@)->0;
    let mut result: Vec<Prefecture> = Vec::new();
    let n = raw.len();
    let mut i: usize = 0;
    while i < n
        invariant
            0 <= i <= n,
            pref_records_of(body@) == Some(m),
            n == raw@.len() && m.len() == n,
            forall|j: int| 0 <= j < n ==> raw@[j].0 == m[j].0 && raw@[j].1@ == m[j].1,
            result@.len() == i,
            forall|j: int|
                0 <= j < i ==> m[j].0 <= 255 && result@[j].pref_code == m[j].0
                    && result@[j].pref_name@ == m[j].1,
        decreases n - i,
    {
        let code = raw[i].0;
        if code > 255 {
            proof {
                assert(!(forall|j: int|
                    0 <= j < pref_records_of(body@)->0.len() ==> pref_records_of(body@)->0[j].0 <= 255)) by {
                    assert(pref_records_of(body@)->0 == m);
                    assert(0 <= (i as int) < m.len() && m[i as int].0 > 255);
                }
            }
            return Err(Error::from(json_shape_error("a record code is out of range")));
        }
        let name = raw[i].1.clone();
        result.push(Prefecture { pref_code: code as u8, pref_name: name });
        i += 1;
    }
    Ok(ResasResponse { message: envelope_message(body), result })
}

/// Decodes the typed envelope of sub-region records out of a validated
/// body. It succeeds exactly when the body carries the record array and
/// every record's code fits the record type; the records come out in array
/// order, field for field, with the envelope's message; any failure is
/// fatal, wrapping the parse layer's error, with no message.
pub fn decode_cities(body: &str) -> (r: Result<ResasResponse<City>, Error>)
    ensures
        r is Ok <==> (city_records_of(body@) matches Some(m) && (forall|i: int|
            0 <= i < m.len() ==> m[i].0 <= 255)),
        r matches Ok(env) ==> (city_records_of(body@) matches Some(m) && env.result@.len()
            == m.len() && (forall|i: int|
            0 <= i < m.len() ==> env.result@[i].pref_code == m[i].0 && env.result@[i].city_code@
                == m[i].1 && env.result@[i].city_name@ == m[i].2
                && env.result@[i].big_city_flag@ == m[i].3) && (env.message is Some <==> envelope_message_of(
            body@,
        ) is Some) && (env.message is Some ==> Some(env.message->0@) == envelope_message_of(
            body@,
        ))),
        r matches Err(e) ==> (e.kind is Fatal && (e.source matches Some(c) && c is Json)
            && e.message is None),
{
    let raw = match city_raw_records(body) {
        Some(v) => v,
        None => {
            return Err(Error::from(json_shape_error("expected an array of records")));
        },
    };
    let ghost m = city_records_of(body@)->0;
    let mut result: Vec<City> = Vec::new();
    let n = raw.len();
    let mut i: usize = 0;
    while i < n
        invariant
            0 <= i <= n,
            city_records_of(body@) == Some(m),
            n == raw@.len() && m.len() == n,
            forall|j: int|
                0 <= j < n ==> raw@[j].0 == m[j].0 && raw@[j].1@ == m[j].1 && raw@[j].2@ == m[j].2
                    && raw@[j].3@ == m[j].3,
            result@.len() == i,
            forall|j: int|
                0 <= j < i ==> m[j].0 <= 255 && result@[j].pref_code == m[j].0
                    && result@[j].city_code@ == m[j].1 && result@[j].city_name@ == m[j].2
                    && result@[j].big_city_flag@ == m[j].3,
        decreases n - i,
    {
        let code = raw[i].0;
        if code > 255 {
            proof {
                assert(!(forall|j: int|
                    0 <= j < city_records_of(body@)->0.len() ==> city_records_of(body@)->0[j].0 <= 255)) by {
                    assert(city_records_of(body@)->0 == m);
                    assert(0 <= (i as int) < m.len() && m[i as int].0 > 255);
                }
            }
            return Err(Error::from(json_shape_error("a record code is out of range")));
        }
        let record = City {
            pref_code: code as u8,
            city_code: raw[i].1.clone(),
            city_name: raw[i].2.clone(),
            big_city_flag: raw[i].3.clone(),
        };
        result.push(record);
        i += 1;
    }
    Ok(ResasResponse { message: envelope_message(body), result })
}

} // verus!

