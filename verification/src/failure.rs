//! Why a probe request failed, and the message that reports it.

use vstd::prelude::*;
use crate::status::{HttpStatus, is_success_code, status_text_of};

verus! {

/// A failure of the probe request, as plain values.
pub enum Failure {
    /// The runtime that drives the request could not be created.
    Runtime(Seq<char>),
    /// The request could not be sent or no response came back.
    Request(Seq<char>),
    /// The response body could not be read.
    BodyRead(Seq<char>),
    /// The server answered with a status outside the success class.
    Status { code: u16, body: Seq<char> },
    /// The server answered with success but with another body than "ok".
    BodyMismatch(Seq<char>),
}

/// A failure of the probe request. The detail texts of the first three kinds
/// are the outside errors as the caller printed them.
pub enum ProbeError {
    RuntimeBuild(String),
    RequestFailed(String),
    BodyReadFailed(String),
    UnexpectedStatus { status: HttpStatus, body: String },
    BodyMismatch(String),
}

impl View for ProbeError {
    type V = Failure;

    open spec fn view(&self) -> Failure {
        match self {
            ProbeError::RuntimeBuild(d) => Failure::Runtime(d@),
            ProbeError::RequestFailed(d) => Failure::Request(d@),
            ProbeError::BodyReadFailed(d) => Failure::BodyRead(d@),
            ProbeError::UnexpectedStatus { status, body } => Failure::Status {
                code: status@,
                body: body@,
            },
            ProbeError::BodyMismatch(b) => Failure::BodyMismatch(b@),
        }
    }
}

/// "failed to create probe runtime: "
pub open spec fn runtime_prefix() -> Seq<char> {
    "failed to create probe runtime: "@
}

/// "probe request failed: "
pub open spec fn request_prefix() -> Seq<char> {
    "probe request failed: "@
}

/// "failed to read probe response body: "
pub open spec fn body_read_prefix() -> Seq<char> {
    "failed to read probe response body: "@
}

/// "probe request returned "
pub open spec fn status_prefix() -> Seq<char> {
    "probe request returned "@
}

/// "probe response body mismatch: "
pub open spec fn mismatch_prefix() -> Seq<char> {
    "probe response body mismatch: "@
}

/// The body that a successful probe response carries: "ok".
pub open spec fn expected_body() -> Seq<char> {
    "ok"@
}

/// The message that reports a failure.
pub open spec fn failure_message(f: Failure) -> Seq<char> {
    match f {
        Failure::Runtime(d) => runtime_prefix() + d,
        Failure::Request(d) => request_prefix() + d,
        Failure::BodyRead(d) => body_read_prefix() + d,
        Failure::Status { code, body } => status_prefix() + status_text_of(code) + ": "@ + body,
        Failure::BodyMismatch(b) => mismatch_prefix() + b,
    }
}

/// The failure that a response with status `code` and body `body` makes the
/// probe report, or `None` where the response is the one it waits for. The
/// status is judged before the body.
pub open spec fn response_failure(code: u16, body: Seq<char>) -> Option<Failure> {
    if !is_success_code(code as int) {
        Some(Failure::Status { code, body })
    } else if body != expected_body() {
        Some(Failure::BodyMismatch(body))
    } else {
        None
    }
}

impl ProbeError {
    /// The message that reports this failure.
    pub fn message(&self) -> (text: String)
        ensures
            text@ == failure_message(self@),
    {
        match self {
            ProbeError::RuntimeBuild(detail) => {
                let mut text = String::from_str("failed to create probe runtime: ");
                text.append(detail.as_str());
                text
            },
            ProbeError::RequestFailed(detail) => {
                let mut text = String::from_str("probe request failed: ");
                text.append(detail.as_str());
                text
            },
            ProbeError::BodyReadFailed(detail) => {
                let mut text = String::from_str("failed to read probe response body: ");
                text.append(detail.as_str());
                text
            },
            ProbeError::UnexpectedStatus { status, body } => {
                let mut text = String::from_str("probe request returned ");
                let status_text = status.text();
                text.append(status_text.as_str());
                text.append(": ");
                text.append(body.as_str());
                text
            },
            ProbeError::BodyMismatch(body) => {
                let mut text = String::from_str("probe response body mismatch: ");
                text.append(body.as_str());
                text
            },
        }
    }
}

/// Judges the response to the probe request: it succeeds when the status is in
/// the success class and the body is exactly "ok". The status is checked first.
pub fn check_probe_response(status: HttpStatus, body: String) -> (result: Result<(), ProbeError>)
    ensures
        match response_failure(status@, body@) {
            None => result is Ok,
            Some(f) => result matches Err(e) && e@ == f,
        },
{
    if !status.is_success() {
        return Err(ProbeError::UnexpectedStatus { status, body });
    }
    let expected = String::from_str("ok");
    if body != expected {
        return Err(ProbeError::BodyMismatch(body));
    }
    Ok(())
}

} // verus!
