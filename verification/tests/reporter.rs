use honeybadger_middleware::payload::Header;
use honeybadger_middleware::reporter::{Notification, Outcome, Report, Reporter};

fn answered(status: u16) -> Outcome<&'static str, &'static str> {
    Outcome::Success { response: "body", status }
}

fn failed(status: u16) -> Outcome<&'static str, &'static str> {
    Outcome::Failure { error: "boom", status }
}

fn reporter() -> Reporter {
    let headers = vec![
        Header::new("content-type", b"application/json"),
        Header::new("x-request-id", b"abc-123"),
    ];
    Reporter::new("/orders?status=failed&id=42", &headers)
}

fn status_of(report: &Report) -> Option<u16> {
    match &report.notification {
        Notification::Status(error) => Some(error.status()),
        Notification::Error => None,
    }
}

#[test]
fn reporter_holds_what_it_was_given() {
    let reporter = reporter();
    assert_eq!(reporter.uri(), "/orders?status=failed&id=42");
    assert_eq!(reporter.headers().len(), 2);
    assert_eq!(reporter.headers()[0].name, "content-type");
    assert_eq!(reporter.headers()[0].value, b"application/json".to_vec());
    assert_eq!(reporter.headers()[1].name, "x-request-id");
    assert_eq!(reporter.headers()[1].value, b"abc-123".to_vec());
}

#[test]
fn snapshot_is_a_copy() {
    let mut headers = vec![Header::new("a", b"1")];
    let mut target = "/x".to_string();
    let reporter = Reporter::new(&target, &headers);
    headers[0].value.push(b'2');
    headers.push(Header::new("b", b"3"));
    target.push_str("?changed");
    assert_eq!(reporter.uri(), "/x");
    assert_eq!(reporter.headers().len(), 1);
    assert_eq!(reporter.headers()[0].value, b"1".to_vec());
}

#[test]
fn outcome_knows_its_status_and_kind() {
    assert_eq!(answered(204).status(), 204);
    assert!(!answered(204).is_failure());
    assert_eq!(failed(502).status(), 502);
    assert!(failed(502).is_failure());
}

#[test]
fn outcome_gives_back_the_result_it_was_made_of() {
    let ok: Result<&str, &str> = Ok("body");
    let outcome = Outcome::from_result(ok, 200);
    assert_eq!(outcome, answered(200));
    assert_eq!(outcome.into_result(), Ok("body"));
    let err: Result<&str, &str> = Err("boom");
    let outcome = Outcome::from_result(err, 500);
    assert_eq!(outcome, failed(500));
    assert_eq!(outcome.into_result(), Err("boom"));
}

#[test]
fn unavailable_response_is_reported_with_its_status() {
    let report = reporter().report(&answered(503)).expect("a report");
    assert_eq!(status_of(&report), Some(503));
    assert_eq!(report.payload.url, "http://localhost/orders");
    assert_eq!(report.payload.cgi_data.len(), 2);
    assert_eq!(
        report.payload.cgi_data.get("HTTP_CONTENT_TYPE").map(|v| v.as_str()),
        Some("application/json")
    );
    assert_eq!(
        report.payload.cgi_data.get("HTTP_X_REQUEST_ID").map(|v| v.as_str()),
        Some("abc-123")
    );
    assert_eq!(report.payload.params.len(), 2);
    assert_eq!(report.payload.params.get("status").map(|v| v.as_str()), Some("failed"));
    assert_eq!(report.payload.params.get("id").map(|v| v.as_str()), Some("42"));
}

#[test]
fn throttled_response_is_reported() {
    let report = reporter().report(&answered(429)).expect("a report");
    assert_eq!(status_of(&report), Some(429));
}

#[test]
fn every_server_error_is_reported() {
    let reporter = reporter();
    let mut status: u16 = 500;
    while status <= 599 {
        let report = reporter.report(&answered(status)).expect("a report");
        assert_eq!(status_of(&report), Some(status));
        status += 1;
    }
}

#[test]
fn other_responses_are_not_reported() {
    let reporter = reporter();
    for status in [200u16, 301, 403, 404, 499, 600, 100, 428, 430, 0, 999, u16::MAX] {
        assert!(reporter.report(&answered(status)).is_none(), "status {}", status);
    }
}

#[test]
fn failure_is_reported_with_its_own_error() {
    let report = reporter().report(&failed(500)).expect("a report");
    assert!(matches!(report.notification, Notification::Error));
    assert_eq!(report.payload.url, "http://localhost/orders");
    let report = reporter().report(&failed(429)).expect("a report");
    assert!(matches!(report.notification, Notification::Error));
}

#[test]
fn failure_with_another_status_is_not_reported() {
    let reporter = reporter();
    for status in [400u16, 401, 404, 422, 499, 600] {
        assert!(reporter.report(&failed(status)).is_none(), "status {}", status);
    }
}

#[test]
fn payload_does_not_depend_on_the_outcome() {
    let reporter = reporter();
    let one = reporter.report(&answered(503)).expect("a report");
    let other = reporter.report(&failed(500)).expect("a report");
    assert_eq!(one.payload.url, other.payload.url);
    assert_eq!(one.payload.cgi_data.entries(), other.payload.cgi_data.entries());
    assert_eq!(one.payload.params.entries(), other.payload.params.entries());
    let direct = reporter.payload();
    assert_eq!(direct.url, one.payload.url);
    assert_eq!(direct.cgi_data.entries(), one.payload.cgi_data.entries());
    assert_eq!(direct.params.entries(), one.payload.params.entries());
}

#[test]
fn malformed_request_is_still_reported() {
    let headers = vec![Header::new("x-bin", &[0xff, 0xfe, 0x00]), Header::new("", b"")];
    let reporter = Reporter::new("/p?%=%&&=&%zz", &headers);
    let report = reporter.report(&answered(500)).expect("a report");
    assert_eq!(report.payload.url, "http://localhost/p");
    assert_eq!(
        report.payload.cgi_data.get("HTTP_X_BIN").map(|v| v.as_str()),
        Some("\u{fffd}\u{fffd}\u{0}")
    );
    assert_eq!(report.payload.cgi_data.get("HTTP_").map(|v| v.as_str()), Some(""));
}
