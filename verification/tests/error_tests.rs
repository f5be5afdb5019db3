use resas_downloader::error::{Cause, Error, ErrorKind};

fn json_failure() -> serde_json::Error {
    serde_json::from_str::<serde_json::Value>("not json").unwrap_err()
}

#[test]
fn new_keeps_kind_message_and_cause() {
    let e = Error::new(ErrorKind::Retryable, None, Some(String::from("busy")));
    assert!(matches!(e.kind, ErrorKind::Retryable));
    assert!(e.source.is_none());
    assert_eq!(e.message, Some(String::from("busy")));
}

#[test]
fn retryable_is_retriable_fatal_is_not() {
    let r = Error::new(ErrorKind::Retryable, None, None);
    let f = Error::new(ErrorKind::Fatal, None, None);
    assert!(r.is_retriable());
    assert!(!f.is_retriable());
}

#[test]
fn escalation_preserves_cause_and_replaces_message() {
    let e = Error::new(
        ErrorKind::Retryable,
        Some(Cause::Json(json_failure())),
        Some(String::from("original message")),
    );
    let f = e.to_fatal(Some(String::from("gave up")));
    assert!(matches!(f.kind, ErrorKind::Fatal));
    assert!(!f.is_retriable());
    assert_eq!(f.message, Some(String::from("gave up")));
    // The cause object moved over: it still renders exactly as the wrapped
    // failure renders on its own.
    let expected_cause = format!("{}", json_failure());
    assert_eq!(f.to_string(), format!("Fatal error: gave up{}", expected_cause));
}

#[test]
fn escalation_with_no_cause_keeps_none() {
    let e = Error::new(ErrorKind::Retryable, None, Some(String::from("old")));
    let f = e.to_fatal(None);
    assert!(matches!(f.kind, ErrorKind::Fatal));
    assert!(f.source.is_none());
    assert!(f.message.is_none());
}

#[test]
fn transport_failures_convert_to_fatal_with_cause_and_no_message() {
    let req_err = reqwest::blocking::Client::new().get("this is not a url").send().unwrap_err();
    let e = Error::from(req_err);
    assert!(matches!(e.kind, ErrorKind::Fatal));
    assert!(!e.is_retriable());
    assert!(matches!(e.source, Some(Cause::Http(_))));
    assert!(e.message.is_none());
}

#[test]
fn parse_failures_convert_to_fatal_with_cause_and_no_message() {
    let e = Error::from(json_failure());
    assert!(matches!(e.kind, ErrorKind::Fatal));
    assert!(matches!(e.source, Some(Cause::Json(_))));
    assert!(e.message.is_none());
}

#[test]
fn rendering_shows_kind_alone_when_nothing_else_is_there() {
    assert_eq!(Error::new(ErrorKind::Fatal, None, None).to_string(), "Fatal error: ");
    assert_eq!(Error::new(ErrorKind::Retryable, None, None).to_string(), "Retryable error: ");
}

#[test]
fn rendering_shows_message_after_the_kind() {
    let e = Error::new(ErrorKind::Retryable, None, Some(String::from("busy")));
    assert_eq!(e.to_string(), "Retryable error: busy");
}

#[test]
fn rendering_shows_message_then_cause() {
    let e = Error::new(
        ErrorKind::Fatal,
        Some(Cause::Json(json_failure())),
        Some(String::from("bad payload")),
    );
    let expected_cause = format!("{}", json_failure());
    assert_eq!(e.to_string(), format!("Fatal error: bad payload{}", expected_cause));
}

#[test]
fn rendering_shows_cause_alone_when_there_is_no_message() {
    let e = Error::new(ErrorKind::Fatal, Some(Cause::Json(json_failure())), None);
    let expected_cause = format!("{}", json_failure());
    assert_eq!(e.to_string(), format!("Fatal error: {}", expected_cause));
}
