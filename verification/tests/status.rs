use honeybadger_middleware::status::{is_reportable, TOO_MANY_REQUESTS};
use honeybadger_middleware::ErrorStatus;

#[test]
fn throttled_and_server_errors_are_reportable() {
    assert!(is_reportable(429));
    assert_eq!(TOO_MANY_REQUESTS, 429);
    let mut status: u16 = 500;
    while status <= 599 {
        assert!(is_reportable(status), "status {}", status);
        status += 1;
    }
}

#[test]
fn other_statuses_are_not_reportable() {
    for status in [200u16, 301, 403, 404] {
        assert!(!is_reportable(status), "status {}", status);
    }
}

#[test]
fn reportable_range_has_sharp_edges() {
    assert!(!is_reportable(499));
    assert!(is_reportable(500));
    assert!(is_reportable(599));
    assert!(!is_reportable(600));
    assert!(!is_reportable(428));
    assert!(!is_reportable(430));
    assert!(!is_reportable(0));
    assert!(!is_reportable(u16::MAX));
}

#[test]
fn reportable_statuses_are_exactly_429_and_5xx() {
    let mut count = 0;
    let mut status: u16 = 0;
    loop {
        if is_reportable(status) {
            assert!(status == 429 || (500..=599).contains(&status));
            count += 1;
        }
        if status == u16::MAX {
            break;
        }
        status += 1;
    }
    assert_eq!(count, 101);
}

#[test]
fn error_status_holds_status_codes_only() {
    assert!(ErrorStatus::new(99).is_none());
    assert!(ErrorStatus::new(0).is_none());
    assert!(ErrorStatus::new(1000).is_none());
    assert!(ErrorStatus::new(u16::MAX).is_none());
    assert_eq!(ErrorStatus::new(100).map(|e| e.status()), Some(100));
    assert_eq!(ErrorStatus::new(503).map(|e| e.status()), Some(503));
    assert_eq!(ErrorStatus::new(999).map(|e| e.status()), Some(999));
}

#[test]
fn error_status_message_prints_the_status() {
    let error = ErrorStatus::new(503).unwrap();
    assert_eq!(error.message(), "Unknown Error Response: 503 Service Unavailable");
    let error = ErrorStatus::new(429).unwrap();
    assert_eq!(error.message(), "Unknown Error Response: 429 Too Many Requests");
    let error = ErrorStatus::new(500).unwrap();
    assert_eq!(error.message(), "Unknown Error Response: 500 Internal Server Error");
}

#[test]
fn error_status_message_of_a_code_without_reason() {
    let error = ErrorStatus::new(599).unwrap();
    assert_eq!(error.message(), "Unknown Error Response: 599 <unknown status code>");
}
