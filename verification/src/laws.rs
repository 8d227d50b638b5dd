//! What holds of the probe across its steps.

use vstd::prelude::*;
use crate::failure::{Failure, expected_body, failure_message, response_failure};
use crate::status::{canonical_reason_of, is_status_code, status_text_of, unknown_reason_text};
use crate::probe::{
    Action, Event, Exit, Settings, Stage, form_body, form_content_type, next_step,
    request_timeout_secs, start_action, success_line,
};
use crate::status::is_success_code;

verus! {

/// How a probe ends after the event that answers its request for a client and,
/// where it then posts, the event that answers the post; `None` where those
/// events do not end it.
pub open spec fn probe_outcome(s: Settings, client: Event, post: Event) -> Option<Exit> {
    match next_step(s, Stage::AwaitingClient, client) {
        Some((_, Action::Finish(x))) => Some(x),
        Some((stage, _)) => match next_step(s, stage, post) {
            Some((_, Action::Finish(x))) => Some(x),
            _ => None,
        },
        None => None,
    }
}

/// How many more events a probe in `stage` waits for at most.
pub open spec fn events_left(stage: Stage) -> nat {
    match stage {
        Stage::AwaitingClient => 2,
        Stage::AwaitingResponse => 1,
        Stage::Finished => 0,
    }
}

/// The client gets a request timeout (of five seconds) exactly when there is a
/// URL to post to, and insists on TLS 1.3 exactly when asked to.
pub proof fn law_client_options(s: Settings)
    ensures
        start_action(s) matches Action::BuildClient { timeout_secs, require_tls13 } && (
        timeout_secs is Some <==> s.target_url is Some) && (timeout_secs matches Some(t) ==> t
            == request_timeout_secs()) && require_tls13 == s.require_tls13,
{
}

/// The probe ends with success exactly when the client was built and, where a
/// URL was given, the server answered with a success status and the body "ok".
pub proof fn law_success_exactly_when(s: Settings, client: Event, post: Event)
    ensures
        probe_outcome(s, client, post) == Some(Exit::Success) <==> (client is ClientBuilt && (
        s.target_url is None || (post matches Event::Response { code, body } && is_success_code(
            code as int,
        ) && body == expected_body()))),
{
}

/// A failed probe reports the cause: the client's error as it was given, or
/// the message of the request's failure.
pub proof fn law_failure_reports_cause(s: Settings, client: Event, post: Event, m: Seq<char>)
    ensures
        probe_outcome(s, client, post) == Some(Exit::Failure(m)) <==> ((client
            matches Event::ClientFailed(cm) && cm == m) || (client is ClientBuilt
            && s.target_url is Some && ((post matches Event::PostFailed(f) && m == failure_message(
            f,
        )) || (post matches Event::Response { code, body } && response_failure(code, body)
            matches Some(f) && m == failure_message(f))))),
{
}

/// Every pair of answers ends the probe, and with success or with a failure,
/// once the client was answered at all.
pub proof fn law_answers_end_the_probe(s: Settings, client: Event, post: Event)
    requires
        client is ClientBuilt || client is ClientFailed,
        s.target_url is Some && client is ClientBuilt ==> (post is PostFailed || post is Response),
    ensures
        probe_outcome(s, client, post) is Some,
{
}

/// Each accepted event brings the probe closer to its end, so it waits for at
/// most two; once it has exited it takes no further event.
pub proof fn law_steps_progress(s: Settings, stage: Stage, event: Event)
    ensures
        next_step(s, stage, event) matches Some((next, _)) ==> events_left(next) < events_left(
            stage,
        ),
        stage == Stage::Finished ==> next_step(s, stage, event) is None,
{
}

/// The probe finishes exactly when it exits.
pub proof fn law_exit_finishes(s: Settings, stage: Stage, event: Event)
    ensures
        next_step(s, stage, event) matches Some((next, a)) ==> (next == Stage::Finished <==> a is Finish),
{
}

/// The probe posts only once the client was built, only to the URL it was
/// given, and always the same form.
pub proof fn law_post_only_to_target(s: Settings, stage: Stage, event: Event)
    ensures
        next_step(s, stage, event) matches Some((_, Action::Post { url, content_type, body })) ==> (
        stage == Stage::AwaitingClient && event is ClientBuilt && s.target_url == Some(url)
            && content_type == form_content_type() && body == form_body()),
{
}

/// The status is judged before the body: a status outside the success class is
/// reported as such, whatever the body.
pub proof fn law_status_judged_first(code: u16, body: Seq<char>)
    ensures
        !is_success_code(code as int) ==> response_failure(code, body) == Some(
            Failure::Status { code, body },
        ),
        response_failure(code, body) is None <==> (is_success_code(code as int) && body
            == expected_body()),
{
}

/// The probe starts by asking for a client with a five-second timeout exactly
/// when a URL is to be posted to, and with TLS 1.3 as the least version exactly
/// when that was asked for.
pub proof fn law_start_asks_for_client(s: Settings)
    ensures
        s.target_url is Some ==> start_action(s) == (Action::BuildClient {
            timeout_secs: Some(5u64),
            require_tls13: s.require_tls13,
        }),
        s.target_url is None ==> start_action(s) == (Action::BuildClient {
            timeout_secs: None,
            require_tls13: s.require_tls13,
        }),
{
}

/// Once the client is built and a URL was given, the probe posts the form,
/// "grant_type=authorization_code&code=test" as
/// "application/x-www-form-urlencoded", to exactly that URL, whether or not
/// TLS 1.3 was asked for, and then waits for the answer.
pub proof fn law_built_client_posts_form(s: Settings, url: Seq<char>)
    requires
        s.target_url == Some(url),
    ensures
        next_step(s, Stage::AwaitingClient, Event::ClientBuilt) == Some(
            (
                Stage::AwaitingResponse,
                (Action::Post {
                    url,
                    content_type: "application/x-www-form-urlencoded"@,
                    body: "grant_type=authorization_code&code=test"@,
                }),
            ),
        ),
{
}

/// Once the client is built and no URL was given, the probe exits with success.
pub proof fn law_built_client_without_url_succeeds(s: Settings)
    requires
        s.target_url is None,
    ensures
        next_step(s, Stage::AwaitingClient, Event::ClientBuilt) == Some(
            (Stage::Finished, Action::Finish(Exit::Success)),
        ),
{
}

/// A client that could not be built ends the probe with the client's own
/// message, unchanged.
pub proof fn law_client_failure_ends_with_its_message(s: Settings, m: Seq<char>)
    ensures
        next_step(s, Stage::AwaitingClient, Event::ClientFailed(m)) == Some(
            (Stage::Finished, Action::Finish(Exit::Failure(m))),
        ),
{
}

/// A request that could not be completed ends the probe with a message that
/// names the step that failed, followed by the outside error's text.
pub proof fn law_post_failure_ends_with_message(s: Settings, d: Seq<char>)
    ensures
        next_step(s, Stage::AwaitingResponse, Event::PostFailed(Failure::Runtime(d))) == Some(
            (
                Stage::Finished,
                Action::Finish(Exit::Failure("failed to create probe runtime: "@ + d)),
            ),
        ),
        next_step(s, Stage::AwaitingResponse, Event::PostFailed(Failure::Request(d))) == Some(
            (Stage::Finished, Action::Finish(Exit::Failure("probe request failed: "@ + d))),
        ),
        next_step(s, Stage::AwaitingResponse, Event::PostFailed(Failure::BodyRead(d))) == Some(
            (
                Stage::Finished,
                Action::Finish(Exit::Failure("failed to read probe response body: "@ + d)),
            ),
        ),
{
}

/// An answer ends the probe: with success when its status is 200 through 299
/// and its body is exactly "ok"; with "probe request returned <status>: <body>"
/// when the status is outside that class; and with "probe response body
/// mismatch: <body>" when the status is a success but the body is not "ok".
pub proof fn law_answer_ends_probe(s: Settings, code: u16, body: Seq<char>)
    ensures
        200 <= code <= 299 && body == "ok"@ ==> next_step(
            s,
            Stage::AwaitingResponse,
            (Event::Response { code, body }),
        ) == Some((Stage::Finished, Action::Finish(Exit::Success))),
        !(200 <= code <= 299) ==> next_step(
            s,
            Stage::AwaitingResponse,
            (Event::Response { code, body }),
        ) == Some(
            (
                Stage::Finished,
                Action::Finish(
                    Exit::Failure("probe request returned "@ + status_text_of(code) + ": "@ + body),
                ),
            ),
        ),
        200 <= code <= 299 && body != "ok"@ ==> next_step(
            s,
            Stage::AwaitingResponse,
            (Event::Response { code, body }),
        ) == Some(
            (
                Stage::Finished,
                Action::Finish(Exit::Failure("probe response body mismatch: "@ + body)),
            ),
        ),
{
}

/// The probe takes only the events it waits for: while it waits for its client,
/// no answer to a post; while it waits for an answer, no news of the client;
/// after it has exited, nothing.
pub proof fn law_unexpected_events_refused(s: Settings, event: Event)
    ensures
        (event is PostFailed || event is Response) ==> next_step(
            s,
            Stage::AwaitingClient,
            event,
        ) is None,
        (event is ClientBuilt || event is ClientFailed) ==> next_step(
            s,
            Stage::AwaitingResponse,
            event,
        ) is None,
        next_step(s, Stage::Finished, event) is None,
{
}

/// A status reads as its code in three decimal digits, then a space, then its
/// reason phrase or "<unknown status code>".
pub proof fn law_status_text(code: u16)
    requires
        is_status_code(code as int),
    ensures
        status_text_of(code).len() >= 4,
        forall|i: int| 0 <= i < 3 ==> '0' <= #[trigger] status_text_of(code)[i] <= '9',
        (status_text_of(code)[0] as int - 48) * 100 + (status_text_of(code)[1] as int - 48) * 10
            + (status_text_of(code)[2] as int - 48) == code,
        status_text_of(code)[3] == ' ',
        canonical_reason_of(code) matches Some(p) ==> status_text_of(code).subrange(
            4,
            status_text_of(code).len() as int,
        ) == p,
        canonical_reason_of(code) is None ==> status_text_of(code).subrange(
            4,
            status_text_of(code).len() as int,
        ) == "<unknown status code>"@,
{
    reveal_strlit("<unknown status code>");
    assert("<unknown status code>"@ =~= unknown_reason_text());
    assert(status_text_of(code).subrange(4, status_text_of(code).len() as int)
        =~= status_text_of(code).skip(4));
}

/// A status code has three digits, 100 through 999; the success class is 200
/// through 299.
pub proof fn law_status_classes(code: int)
    ensures
        is_status_code(code) <==> 100 <= code <= 999,
        is_success_code(code) <==> 200 <= code <= 299,
{
}

/// A successful probe prints exactly "ok".
pub proof fn law_success_prints_ok()
    ensures
        success_line() == "ok"@,
{
}

} // verus!
