//! The front's decisions on an incoming webhook delivery: which events and
//! actions it forwards, and what it answers otherwise.
use vstd::prelude::*;
use vstd::string::*;

use crate::report::{CheckRunOutput, Conclusion, UpdateRequest};
use crate::text::str_eq;

verus! {

/// Name of the check run the front opens for a forwarded event.
pub const CHECK_RUN_NAME: &'static str = "orgu-trigger";

/// Whether the front handles events of this name at all.
pub open spec fn supported_event(event_name: Seq<char>) -> bool {
    event_name == "ping"@ || event_name == "check_suite"@ || event_name == "pull_request"@
}

/// Whether the front forwards this action of this event.
pub open spec fn supported_action(event_name: Seq<char>, action: Seq<char>) -> bool {
    if event_name == "check_suite"@ {
        action == "requested"@ || action == "rerequested"@
    } else if event_name == "pull_request"@ {
        action == "opened"@ || action == "synchronize"@ || action == "reopened"@ || action
            == "ready_for_review"@
    } else {
        false
    }
}

/// The answer to a delivery, decided from its event name before its body is
/// read; none where the body decides.
pub open spec fn answer_for_event(event_name: Seq<char>) -> Option<Seq<char>> {
    if !supported_event(event_name) {
        Some("Unsupported event type, skipping: "@ + event_name)
    } else if event_name == "ping"@ {
        Some("pong"@)
    } else {
        None
    }
}

/// Answers a delivery from its event name alone, where that suffices.
pub fn answer_event(event_name: &str) -> (r: Option<String>)
    ensures
        match (r, answer_for_event(event_name@)) {
            (Some(x), Some(y)) => x@ == y,
            (None, None) => true,
            _ => false,
        },
{
    let ping = str_eq(event_name, "ping");
    let supported = ping || str_eq(event_name, "check_suite") || str_eq(event_name, "pull_request");
    if !supported {
        let mut s = "Unsupported event type, skipping: ".to_owned();
        s.append(event_name);
        Some(s)
    } else if ping {
        Some("pong".to_owned())
    } else {
        None
    }
}

/// Whether the front forwards this action of this event.
pub fn is_supported_action(event_name: &str, action: &str) -> (r: bool)
    ensures
        r == supported_action(event_name@, action@),
{
    if str_eq(event_name, "check_suite") {
        str_eq(action, "requested") || str_eq(action, "rerequested")
    } else if str_eq(event_name, "pull_request") {
        str_eq(action, "opened") || str_eq(action, "synchronize") || str_eq(action, "reopened")
            || str_eq(action, "ready_for_review")
    } else {
        false
    }
}

/// The answer to a delivery whose common fields were read: a reason to skip
/// it, or none where it is forwarded.
pub open spec fn answer_for_payload(event_name: Seq<char>, action: Seq<char>, private: bool) -> Option<
    Seq<char>,
> {
    if !supported_action(event_name, action) {
        Some("Unsupported event action, skipping: "@ + action)
    } else if !private {
        Some("Public repository, skipping"@)
    } else {
        None
    }
}

/// Decides from the action and the repository's visibility whether a
/// delivery is forwarded; gives the answer where it is skipped.
pub fn answer_payload(event_name: &str, action: &str, private: bool) -> (r: Option<String>)
    ensures
        match (r, answer_for_payload(event_name@, action@, private)) {
            (Some(x), Some(y)) => x@ == y,
            (None, None) => true,
            _ => false,
        },
{
    if !is_supported_action(event_name, action) {
        let mut s = "Unsupported event action, skipping: ".to_owned();
        s.append(action);
        Some(s)
    } else if !private {
        Some("Public repository, skipping".to_owned())
    } else {
        None
    }
}

/// The summary of the front's check run on a forwarded event.
pub open spec fn queued_summary(delivery_id: Seq<char>, request_id: Seq<char>) -> Seq<char> {
    "Delivery ID (not unique for re-delivery): "@ + delivery_id
        + "\nRequest ID (unique for re-delivery): "@ + request_id
}

/// Completes the front's check run once the event is forwarded.
pub fn queued_update_request(delivery_id: &str, request_id: &str) -> (r: UpdateRequest)
    ensures
        r.name@ == CHECK_RUN_NAME@,
        r.conclusion == Conclusion::Success,
        r.output.title@ == "orgu-front queued"@,
        r.output.summary@ == queued_summary(delivery_id@, request_id@),
        r.output.text@ == Seq::<char>::empty(),
{
    let mut summary = "Delivery ID (not unique for re-delivery): ".to_owned();
    summary.append(delivery_id);
    summary.append("\nRequest ID (unique for re-delivery): ");
    summary.append(request_id);
    UpdateRequest {
        name: CHECK_RUN_NAME.to_owned(),
        conclusion: Conclusion::Success,
        output: CheckRunOutput {
            title: "orgu-front queued".to_owned(),
            summary,
            text: String::new(),
        },
    }
}

/// The largest number of bytes a check run text may have.
pub const MAX_API_TEXT_BYTES: usize = 65535;

/// Refuses a check run text longer than the service accepts.
pub fn validate_text_length(text: &str) -> (r: Result<(), String>)
    ensures
        r is Ok <==> text.spec_bytes().len() <= MAX_API_TEXT_BYTES,
        r matches Err(m) ==> m@ == "text length must be less than 65536 characters"@,
{
    if text.as_bytes().len() > MAX_API_TEXT_BYTES {
        return Err("text length must be less than 65536 characters".to_owned());
    }
    Ok(())
}

/// An error of the front's HTTP handlers.
#[derive(Debug, Clone)]
pub enum AppError {
    /// Something failed inside; the words say what.
    InternalServerError(String),
    /// The delivery's signature did not check out.
    AuthorizationError,
}

/// The HTTP answer to a handler error: status, error code, message.
pub open spec fn response_of(e: AppError) -> (u16, Seq<char>, Seq<char>) {
    match e {
        AppError::InternalServerError(_) => (
            500,
            "internal_server_error"@,
            "something went wrong"@,
        ),
        AppError::AuthorizationError => (401, "unauthorized"@, "authorization failed"@),
    }
}

impl AppError {
    /// The HTTP answer: status, error code and message. An internal error's
    /// details stay out of the answer.
    pub fn response_parts(&self) -> (r: (u16, String, String))
        ensures
            r.0 == response_of(*self).0,
            r.1@ == response_of(*self).1,
            r.2@ == response_of(*self).2,
    {
        match self {
            AppError::InternalServerError(_) => (
                500,
                "internal_server_error".to_owned(),
                "something went wrong".to_owned(),
            ),
            AppError::AuthorizationError => (
                401,
                "unauthorized".to_owned(),
                "authorization failed".to_owned(),
            ),
        }
    }

    /// The error in words.
    pub fn message(&self) -> (r: String)
        ensures
            match self {
                AppError::InternalServerError(m) => r@ == "internal_server_error: "@ + m@,
                AppError::AuthorizationError => r@ == "authorization_error"@,
            },
    {
        match self {
            AppError::InternalServerError(m) => {
                let mut s = "internal_server_error: ".to_owned();
                s.append(m.as_str());
                s
            },
            AppError::AuthorizationError => "authorization_error".to_owned(),
        }
    }
}

} // verus!
