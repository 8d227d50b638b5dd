use https_probe::failure::ProbeError;
use https_probe::probe::{Probe, ProbeAction, ProbeEvent, ProbeExit, ProbeSettings, Stage};
use https_probe::status::HttpStatus;

fn settings(url: Option<&str>, tls13: bool) -> ProbeSettings {
    ProbeSettings { target_url: url.map(|u| u.to_string()), require_tls13: tls13 }
}

fn finish(action: Option<ProbeAction>) -> ProbeExit {
    match action {
        Some(ProbeAction::Finish(exit)) => exit,
        _ => panic!("expected the probe to finish"),
    }
}

fn response(code: u16, body: &str) -> ProbeEvent {
    ProbeEvent::ResponseReceived {
        status: HttpStatus::from_code(code).unwrap(),
        body: body.to_string(),
    }
}

#[test]
fn client_options_without_url() {
    let (probe, action) = Probe::start(settings(None, false));
    assert!(probe.stage() == Stage::AwaitingClient);
    match action {
        ProbeAction::BuildClient { timeout_secs, require_tls13 } => {
            assert_eq!(timeout_secs, None);
            assert!(!require_tls13);
        }
        _ => panic!("expected a client to be asked for"),
    }
}

#[test]
fn client_options_with_url_and_tls13() {
    let (_, action) = Probe::start(settings(Some("https://127.0.0.1:8443/oauth/token"), true));
    match action {
        ProbeAction::BuildClient { timeout_secs, require_tls13 } => {
            assert_eq!(timeout_secs, Some(5));
            assert!(require_tls13);
        }
        _ => panic!("expected a client to be asked for"),
    }
}

#[test]
fn built_client_without_url_prints_ok() {
    let (mut probe, _) = Probe::start(settings(None, true));
    let exit = finish(probe.step(ProbeEvent::ClientBuilt));
    assert_eq!(exit.exit_code(), 0);
    assert_eq!(exit.stdout_line(), Some("ok".to_string()));
    assert_eq!(exit.stderr_line(), None);
    assert!(probe.stage() == Stage::Finished);
}

#[test]
fn client_failure_exits_with_its_message() {
    let (mut probe, _) = Probe::start(settings(Some("https://example.test/"), false));
    let message = "no certificates found in PEM file";
    let exit = finish(probe.step(ProbeEvent::ClientFailed(message.to_string())));
    assert_eq!(exit.exit_code(), 1);
    assert_eq!(exit.stdout_line(), None);
    assert_eq!(exit.stderr_line(), Some(message.to_string()));
}

#[test]
fn built_client_with_url_posts_the_form() {
    let url = "https://127.0.0.1:4443/oauth/token";
    let (mut probe, _) = Probe::start(settings(Some(url), true));
    match probe.step(ProbeEvent::ClientBuilt) {
        Some(ProbeAction::Post { url: posted_to, content_type, body }) => {
            assert_eq!(posted_to, url);
            assert_eq!(content_type, "application/x-www-form-urlencoded");
            assert_eq!(body, "grant_type=authorization_code&code=test");
        }
        _ => panic!("expected a post"),
    }
    assert!(probe.stage() == Stage::AwaitingResponse);
}

#[test]
fn ok_response_ends_in_success() {
    let (mut probe, _) = Probe::start(settings(Some("https://127.0.0.1:4443/oauth/token"), true));
    probe.step(ProbeEvent::ClientBuilt);
    let exit = finish(probe.step(response(200, "ok")));
    assert_eq!(exit.exit_code(), 0);
    assert_eq!(exit.stdout_line(), Some("ok".to_string()));
}

#[test]
fn failing_status_ends_in_failure() {
    let (mut probe, _) = Probe::start(settings(Some("https://127.0.0.1:4443/"), false));
    probe.step(ProbeEvent::ClientBuilt);
    let exit = finish(probe.step(response(500, "boom")));
    assert_eq!(exit.exit_code(), 1);
    assert_eq!(
        exit.stderr_line(),
        Some("probe request returned 500 Internal Server Error: boom".to_string())
    );
}

#[test]
fn wrong_body_ends_in_failure() {
    let (mut probe, _) = Probe::start(settings(Some("https://127.0.0.1:4443/"), false));
    probe.step(ProbeEvent::ClientBuilt);
    let exit = finish(probe.step(response(200, "not ok")));
    assert_eq!(exit.exit_code(), 1);
    assert_eq!(exit.stderr_line(), Some("probe response body mismatch: not ok".to_string()));
}

#[test]
fn post_failure_ends_in_failure() {
    let (mut probe, _) = Probe::start(settings(Some("https://127.0.0.1:4443/"), false));
    probe.step(ProbeEvent::ClientBuilt);
    let error = ProbeError::RequestFailed("timed out".to_string());
    let exit = finish(probe.step(ProbeEvent::PostFailed(error)));
    assert_eq!(exit.exit_code(), 1);
    assert_eq!(exit.stderr_line(), Some("probe request failed: timed out".to_string()));
}

#[test]
fn unexpected_events_are_passed_over() {
    let (mut probe, _) = Probe::start(settings(Some("https://127.0.0.1:4443/"), false));
    assert!(probe.step(response(200, "ok")).is_none());
    assert!(probe.stage() == Stage::AwaitingClient);
    probe.step(ProbeEvent::ClientBuilt);
    assert!(probe.step(ProbeEvent::ClientBuilt).is_none());
    assert!(probe.stage() == Stage::AwaitingResponse);
}

#[test]
fn finished_probe_takes_no_event() {
    let (mut probe, _) = Probe::start(settings(None, false));
    probe.step(ProbeEvent::ClientBuilt);
    assert!(probe.step(ProbeEvent::ClientBuilt).is_none());
    assert!(probe.step(ProbeEvent::ClientFailed("late".to_string())).is_none());
    assert!(probe.step(response(200, "ok")).is_none());
    assert!(probe.stage() == Stage::Finished);
}

#[test]
fn probe_waits_for_at_most_two_events() {
    let (mut probe, _) = Probe::start(settings(Some("https://127.0.0.1:4443/"), false));
    assert!(probe.step(ProbeEvent::ClientBuilt).is_some());
    assert!(probe.step(response(404, "")).is_some());
    assert!(probe.stage() == Stage::Finished);
}
