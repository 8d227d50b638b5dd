use https_probe::failure::{check_probe_response, ProbeError};
use https_probe::status::HttpStatus;

fn status(code: u16) -> HttpStatus {
    HttpStatus::from_code(code).unwrap()
}

#[test]
fn ok_body_with_success_status_passes() {
    assert!(check_probe_response(status(200), "ok".to_string()).is_ok());
    assert!(check_probe_response(status(201), "ok".to_string()).is_ok());
}

#[test]
fn other_body_with_success_status_is_a_mismatch() {
    match check_probe_response(status(200), "okay".to_string()) {
        Err(ProbeError::BodyMismatch(body)) => assert_eq!(body, "okay"),
        _ => panic!("expected a body mismatch"),
    }
    match check_probe_response(status(200), String::new()) {
        Err(ProbeError::BodyMismatch(body)) => assert_eq!(body, ""),
        _ => panic!("expected a body mismatch"),
    }
    assert!(matches!(
        check_probe_response(status(200), "ok\n".to_string()),
        Err(ProbeError::BodyMismatch(_))
    ));
}

#[test]
fn failing_status_is_reported_before_the_body() {
    match check_probe_response(status(500), "ok".to_string()) {
        Err(ProbeError::UnexpectedStatus { status, body }) => {
            assert_eq!(status.code(), 500);
            assert_eq!(body, "ok");
        }
        _ => panic!("expected an unexpected status"),
    }
    assert!(matches!(
        check_probe_response(status(302), "moved".to_string()),
        Err(ProbeError::UnexpectedStatus { .. })
    ));
}

#[test]
fn runtime_failure_message() {
    let e = ProbeError::RuntimeBuild("no reactor".to_string());
    assert_eq!(e.message(), "failed to create probe runtime: no reactor");
}

#[test]
fn request_failure_message() {
    let e = ProbeError::RequestFailed("reqwest::Error { kind: Connect }".to_string());
    assert_eq!(e.message(), "probe request failed: reqwest::Error { kind: Connect }");
}

#[test]
fn body_read_failure_message() {
    let e = ProbeError::BodyReadFailed("connection reset".to_string());
    assert_eq!(e.message(), "failed to read probe response body: connection reset");
}

#[test]
fn unexpected_status_message() {
    let e = ProbeError::UnexpectedStatus { status: status(404), body: "missing".to_string() };
    assert_eq!(e.message(), "probe request returned 404 Not Found: missing");
    let e = ProbeError::UnexpectedStatus { status: status(299), body: String::new() };
    assert_eq!(e.message(), "probe request returned 299 <unknown status code>: ");
}

#[test]
fn body_mismatch_message() {
    let e = ProbeError::BodyMismatch("nope".to_string());
    assert_eq!(e.message(), "probe response body mismatch: nope");
}
