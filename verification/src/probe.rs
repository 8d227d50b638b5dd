//! The probe as a state machine: the caller performs each action it returns
//! (build a client, post the request, exit) and hands back what happened.

use vstd::prelude::*;
use crate::failure::{Failure, ProbeError, check_probe_response, failure_message, response_failure};
use crate::status::HttpStatus;

verus! {

/// The seconds after which a posted request is given up.
pub open spec fn request_timeout_secs() -> u64 {
    5
}

/// The content type of the posted form.
pub open spec fn form_content_type() -> Seq<char> {
    "application/x-www-form-urlencoded"@
}

/// The posted form.
pub open spec fn form_body() -> Seq<char> {
    "grant_type=authorization_code&code=test"@
}

/// The line that a successful probe prints.
pub open spec fn success_line() -> Seq<char> {
    "ok"@
}

/// What the probe was asked to do, as plain values.
pub struct Settings {
    pub target_url: Option<Seq<char>>,
    pub require_tls13: bool,
}

/// What the probe was asked to do: the URL to post to, if any, and whether the
/// client must insist on TLS 1.3.
pub struct ProbeSettings {
    pub target_url: Option<String>,
    pub require_tls13: bool,
}

impl View for ProbeSettings {
    type V = Settings;

    open spec fn view(&self) -> Settings {
        Settings {
            target_url: match self.target_url {
                Some(url) => Some(url@),
                None => None,
            },
            require_tls13: self.require_tls13,
        }
    }
}

/// What the probe waits for.
#[derive(PartialEq, Eq, Structural, Clone, Copy)]
pub enum Stage {
    /// The client that it asked for.
    AwaitingClient,
    /// The outcome of the request that it asked to post.
    AwaitingResponse,
    /// Nothing: it has exited.
    Finished,
}

/// What happened, as plain values.
pub enum Event {
    ClientBuilt,
    ClientFailed(Seq<char>),
    PostFailed(Failure),
    Response { code: u16, body: Seq<char> },
}

/// What happened after the last action.
pub enum ProbeEvent {
    /// The client was built.
    ClientBuilt,
    /// The client could not be built; the message says why.
    ClientFailed(String),
    /// The request could not be completed.
    PostFailed(ProbeError),
    /// The server answered.
    ResponseReceived { status: HttpStatus, body: String },
}

impl View for ProbeEvent {
    type V = Event;

    open spec fn view(&self) -> Event {
        match self {
            ProbeEvent::ClientBuilt => Event::ClientBuilt,
            ProbeEvent::ClientFailed(m) => Event::ClientFailed(m@),
            ProbeEvent::PostFailed(e) => Event::PostFailed(e@),
            ProbeEvent::ResponseReceived { status, body } => Event::Response {
                code: status@,
                body: body@,
            },
        }
    }
}

/// How the probe ends, as plain values.
pub enum Exit {
    Success,
    Failure(Seq<char>),
}

/// How the probe ends: with success (it prints "ok" and exits with 0) or with
/// a failure (it prints the message to standard error and exits with 1).
pub enum ProbeExit {
    Success,
    Failure(String),
}

impl View for ProbeExit {
    type V = Exit;

    open spec fn view(&self) -> Exit {
        match self {
            ProbeExit::Success => Exit::Success,
            ProbeExit::Failure(m) => Exit::Failure(m@),
        }
    }
}

/// What the probe asks for next, as plain values.
pub enum Action {
    BuildClient { timeout_secs: Option<u64>, require_tls13: bool },
    Post { url: Seq<char>, content_type: Seq<char>, body: Seq<char> },
    Finish(Exit),
}

/// What the probe asks for next.
pub enum ProbeAction {
    /// Build an HTTPS client with these options.
    BuildClient { timeout_secs: Option<u64>, require_tls13: bool },
    /// Post `body`, of type `content_type`, to `url` with the client.
    Post { url: String, content_type: String, body: String },
    /// End the probe.
    Finish(ProbeExit),
}

impl View for ProbeAction {
    type V = Action;

    open spec fn view(&self) -> Action {
        match self {
            ProbeAction::BuildClient { timeout_secs, require_tls13 } => Action::BuildClient {
                timeout_secs: *timeout_secs,
                require_tls13: *require_tls13,
            },
            ProbeAction::Post { url, content_type, body } => Action::Post {
                url: url@,
                content_type: content_type@,
                body: body@,
            },
            ProbeAction::Finish(x) => Action::Finish(x@),
        }
    }
}

/// The first action: the client, with a timeout exactly when a URL is to be
/// posted to, and with TLS 1.3 as the least version exactly when asked.
pub open spec fn start_action(s: Settings) -> Action {
    Action::BuildClient {
        timeout_secs: if s.target_url is Some {
            Some(request_timeout_secs())
        } else {
            None
        },
        require_tls13: s.require_tls13,
    }
}

/// The stage that the probe moves to and the action that it asks for when
/// `event` comes in `stage`; `None` where the stage does not wait for such an
/// event (the probe then stays as it was).
pub open spec fn next_step(s: Settings, stage: Stage, event: Event) -> Option<(Stage, Action)> {
    match stage {
        Stage::AwaitingClient => match event {
            Event::ClientBuilt => match s.target_url {
                Some(url) => Some(
                    (
                        Stage::AwaitingResponse,
                        Action::Post { url, content_type: form_content_type(), body: form_body() },
                    ),
                ),
                None => Some((Stage::Finished, Action::Finish(Exit::Success))),
            },
            Event::ClientFailed(m) => Some((Stage::Finished, Action::Finish(Exit::Failure(m)))),
            _ => None,
        },
        Stage::AwaitingResponse => match event {
            Event::PostFailed(f) => Some(
                (Stage::Finished, Action::Finish(Exit::Failure(failure_message(f)))),
            ),
            Event::Response { code, body } => match response_failure(code, body) {
                None => Some((Stage::Finished, Action::Finish(Exit::Success))),
                Some(f) => Some(
                    (Stage::Finished, Action::Finish(Exit::Failure(failure_message(f)))),
                ),
            },
            _ => None,
        },
        Stage::Finished => None,
    }
}

/// A probe in progress.
pub struct Probe {
    settings: ProbeSettings,
    stage: Stage,
}

impl View for Probe {
    type V = (Settings, Stage);

    closed spec fn view(&self) -> (Settings, Stage) {
        (self.settings@, self.stage)
    }
}

impl Probe {
    /// Starts a probe: it first asks for a client.
    pub fn start(settings: ProbeSettings) -> (started: (Probe, ProbeAction))
        ensures
            started.0@ == (settings@, Stage::AwaitingClient),
            started.1@ == start_action(settings@),
    {
        let timeout_secs = if settings.target_url.is_some() {
            Some(5u64)
        } else {
            None
        };
        let action = ProbeAction::BuildClient {
            timeout_secs,
            require_tls13: settings.require_tls13,
        };
        (Probe { settings, stage: Stage::AwaitingClient }, action)
    }

    /// What the probe waits for.
    pub fn stage(&self) -> (stage: Stage)
        ensures
            stage == self@.1,
    {
        self.stage
    }

    /// Takes in what happened and returns the next action; `None`, with the
    /// probe unchanged, where it does not wait for such an event.
    pub fn step(&mut self, event: ProbeEvent) -> (action: Option<ProbeAction>)
        ensures
            match next_step(old(self)@.0, old(self)@.1, event@) {
                Some((stage, a)) => (action matches Some(x) && x@ == a && final(self)@ == (
                    old(self)@.0,
                    stage,
                )),
                None => action is None && final(self)@ == old(self)@,
            },
    {
        match self.stage {
            Stage::AwaitingClient => match event {
                ProbeEvent::ClientBuilt => match &self.settings.target_url {
                    Some(url) => {
                        let url = url.clone();
                        self.stage = Stage::AwaitingResponse;
                        Some(
                            ProbeAction::Post {
                                url,
                                content_type: String::from_str("application/x-www-form-urlencoded"),
                                body: String::from_str("grant_type=authorization_code&code=test"),
                            },
                        )
                    },
                    None => {
                        self.stage = Stage::Finished;
                        Some(ProbeAction::Finish(ProbeExit::Success))
                    },
                },
                ProbeEvent::ClientFailed(message) => {
                    self.stage = Stage::Finished;
                    Some(ProbeAction::Finish(ProbeExit::Failure(message)))
                },
                _ => None,
            },
            Stage::AwaitingResponse => match event {
                ProbeEvent::PostFailed(error) => {
                    self.stage = Stage::Finished;
                    Some(ProbeAction::Finish(ProbeExit::Failure(error.message())))
                },
                ProbeEvent::ResponseReceived { status, body } => {
                    self.stage = Stage::Finished;
                    match check_probe_response(status, body) {
                        Ok(()) => Some(ProbeAction::Finish(ProbeExit::Success)),
                        Err(error) => Some(ProbeAction::Finish(ProbeExit::Failure(error.message()))),
                    }
                },
                _ => None,
            },
            Stage::Finished => None,
        }
    }
}

impl ProbeExit {
    /// The process exit status: 0 on success, 1 on failure.
    pub fn exit_code(&self) -> (code: i32)
        ensures
            code == (if self@ is Success { 0i32 } else { 1i32 }),
    {
        match self {
            ProbeExit::Success => 0,
            ProbeExit::Failure(_) => 1,
        }
    }

    /// The line printed to standard output: "ok" on success, none on failure.
    pub fn stdout_line(&self) -> (line: Option<String>)
        ensures
            self@ is Success ==> (line matches Some(l) && l@ == success_line()),
            self@ is Failure ==> line is None,
    {
        match self {
            ProbeExit::Success => Some(String::from_str("ok")),
            ProbeExit::Failure(_) => None,
        }
    }

    /// The line printed to standard error: the failure's message, none on
    /// success.
    pub fn stderr_line(&self) -> (line: Option<String>)
        ensures
            self@ matches Exit::Failure(m) ==> (line matches Some(l) && l@ == m),
            self@ is Success ==> line is None,
    {
        match self {
            ProbeExit::Success => None,
            ProbeExit::Failure(message) => Some(message.clone()),
        }
    }
}

} // verus!
