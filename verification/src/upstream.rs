//! Calls to the service that alone owns API keys, and what its answers come to.

use axum::http::{HeaderMap, HeaderValue};
use vstd::prelude::*;
use vstd::string::*;

use crate::auth;
use crate::headers;
use crate::json;
use crate::json::{JsonNodes, JsonObject};
use crate::reply;
use crate::reply::{Reply, ReplyView};
use crate::text;

verus! {

/// What a call does.
#[derive(Clone, Copy, Debug, PartialEq, Eq, Structural)]
pub enum Verb {
    Get,
    Post,
    Delete,
}

/// A call to be made.
pub struct AuthCall {
    pub verb: Verb,
    pub url: String,
    /// The caller's own credential, passed on.
    pub token: String,
    /// The caller's own idempotency key, passed on.
    pub idempotency_key: Option<HeaderValue>,
    pub body: Option<serde_json::Value>,
}

/// A call to be made, as a mathematical value.
pub struct CallView {
    pub verb: Verb,
    pub url: Seq<char>,
    pub token: Seq<char>,
    pub idempotency_key: Option<Seq<u8>>,
    pub body: Option<JsonNodes>,
}

/// The nodes of an optional JSON value.
pub open spec fn opt_nodes(value: Option<serde_json::Value>) -> Option<JsonNodes> {
    match value {
        Some(v) => Some(json::json_nodes(v)),
        None => None,
    }
}

impl View for AuthCall {
    type V = CallView;

    open spec fn view(&self) -> CallView {
        CallView {
            verb: self.verb,
            url: self.url@,
            token: self.token@,
            idempotency_key: headers::opt_bytes(self.idempotency_key),
            body: opt_nodes(self.body),
        }
    }
}

/// What became of a call. An answer has a status and a JSON body; `decoded` is that body
/// read as what the call is to return, where it can be read so.
pub enum CallOutcome<T> {
    Unreachable,
    NoJson,
    Answered { status: u16, body: serde_json::Value, decoded: Option<T> },
}

/// The name of the service in reports of its failures.
pub const KEY_AUTHORITY: &'static str = "fiducia-auth";

/// The call that a request leads to.
pub open spec fn call_for(
    auth_url: Option<Seq<char>>,
    token: Option<Seq<char>>,
    key: Option<Seq<u8>>,
    verb: Verb,
    path: Seq<char>,
    body: Option<JsonNodes>,
) -> Result<CallView, ReplyView> {
    match auth_url {
        None => Err(reply::outage(KEY_AUTHORITY@, "customer_key_authority_not_configured"@)),
        Some(base) => match token {
            None => Err(reply::refusal(401, "missing_customer_session"@)),
            Some(token) => Ok(
                CallView { verb, url: base + path, token, idempotency_key: key, body },
            ),
        },
    }
}

/// The call of `verb` to `path` that a request leads to, with its own credential and
/// idempotency key.
pub open spec fn request_call(
    auth_url: Option<Seq<char>>,
    headers: HeaderMap,
    release_hardened: bool,
    verb: Verb,
    path: Seq<char>,
    body: Option<JsonNodes>,
) -> Result<CallView, ReplyView> {
    call_for(
        auth_url,
        auth::token_of(auth::presented(headers, release_hardened)),
        headers::first_value(headers, headers::IDEMPOTENCY_KEY_HEADER@),
        verb,
        path,
        body,
    )
}

/// A planned call, as a mathematical value.
pub open spec fn plan_view(r: Result<AuthCall, Reply>) -> Result<CallView, ReplyView> {
    match r {
        Ok(call) => Ok(call@),
        Err(refused) => Err(refused@),
    }
}

/// The call that a request leads to.
pub fn auth_call(
    auth_url: Option<&str>,
    headers: &HeaderMap,
    release_hardened: bool,
    verb: Verb,
    path: &str,
    body: Option<serde_json::Value>,
) -> (r: Result<AuthCall, Reply>)
    ensures
        plan_view(r) == request_call(
            text::opt_str_view(auth_url),
            *headers,
            release_hardened,
            verb,
            path@,
            opt_nodes(body),
        ),
{
    proof {
        headers::lemma_names();
    }
    let base = match auth_url {
        Some(base) => base,
        None => return Err(
            reply::dependency_error(KEY_AUTHORITY, "customer_key_authority_not_configured"),
        ),
    };
    let token = match auth::bearer_token(headers, release_hardened) {
        Some(token) => token,
        None => return Err(reply::deny(401, "missing_customer_session")),
    };
    Ok(
        AuthCall {
            verb,
            url: text::cat(base, path),
            token,
            idempotency_key: headers::get(headers, headers::IDEMPOTENCY_KEY_HEADER),
            body,
        },
    )
}

/// The refusal that passes on an error of the service: its own error where its body names
/// one.
pub open spec fn passed_on(status: int, body: JsonNodes) -> ReplyView {
    let error = match json::member(body, "error"@) {
        Some(error) => error,
        None => json::text_nodes("credential_authority_rejected_request"@),
    };
    reply::json_reply(
        status,
        json::object_nodes(map!["ok"@ => json::flag_nodes(false), "error"@ => error]),
    )
}

/// The refusal that passes on an error of the service.
pub fn proxied_auth_error(status: u16, body: &serde_json::Value) -> (r: Reply)
    ensures
        r@ == passed_on(status as int, json::json_nodes(*body)),
{
    let error = match json::get(body, "error") {
        Some(error) => json::copy_of(error),
        None => json::string("credential_authority_rejected_request"),
    };
    reply::json_answer(
        status,
        JsonObject::new().with("ok", json::flag(false)).with("error", error).finish(),
    )
}

/// The status of an answer, where it is one that HTTP knows of.
pub open spec fn known_status(status: int) -> int {
    if 100 <= status < 1000 {
        status
    } else {
        502
    }
}

/// What an answer comes to: the value that the call was to return, or the refusal to give
/// instead. `bad_body` is the code for a success whose body cannot be read.
pub open spec fn settled<T>(outcome: CallOutcome<T>, bad_body: Seq<char>) -> Result<T, ReplyView> {
    match outcome {
        CallOutcome::Unreachable => Err(
            reply::outage(KEY_AUTHORITY@, "customer_key_authority_unreachable"@),
        ),
        CallOutcome::NoJson => Err(
            reply::outage(KEY_AUTHORITY@, "customer_key_authority_bad_response"@),
        ),
        CallOutcome::Answered { status, body, decoded } => {
            let status = known_status(status as int);
            if !auth::is_success(status) {
                Err(passed_on(status, json::json_nodes(body)))
            } else {
                match decoded {
                    Some(value) => Ok(value),
                    None => Err(reply::outage(KEY_AUTHORITY@, bad_body)),
                }
            }
        },
    }
}

/// What an answer comes to.
pub fn auth_json<T>(outcome: CallOutcome<T>, bad_body: &str) -> (r: Result<T, Reply>)
    ensures
        match r {
            Ok(value) => settled(outcome, bad_body@) == Ok::<T, ReplyView>(value),
            Err(refused) => settled(outcome, bad_body@) == Err::<T, ReplyView>(refused@),
        },
{
    match outcome {
        CallOutcome::Unreachable => Err(
            reply::dependency_error(KEY_AUTHORITY, "customer_key_authority_unreachable"),
        ),
        CallOutcome::NoJson => Err(
            reply::dependency_error(KEY_AUTHORITY, "customer_key_authority_bad_response"),
        ),
        CallOutcome::Answered { status, body, decoded } => {
            let status: u16 = if 100 <= status && status < 1000 {
                status
            } else {
                502
            };
            if !auth::success(status) {
                return Err(proxied_auth_error(status, &body));
            }
            match decoded {
                Some(value) => Ok(value),
                None => Err(reply::dependency_error(KEY_AUTHORITY, bad_body)),
            }
        },
    }
}

} // verus!
