//! Answers to a request, and the ones that several parts of the service give.

use vstd::prelude::*;

use crate::json;
use crate::json::{JsonNodes, JsonObject};

verus! {

/// What an answer carries.
pub enum Body {
    Json(serde_json::Value),
    Plain(String),
    Empty,
}

/// An answer to a request.
pub struct Reply {
    pub status: u16,
    /// Whether `cache-control: no-store` and `pragma: no-cache` go with it.
    pub no_store: bool,
    /// Where the caller is sent instead.
    pub location: Option<String>,
    pub body: Body,
}

/// What an answer carries, as a mathematical value.
pub enum BodyView {
    Json(JsonNodes),
    Plain(Seq<char>),
    Empty,
}

/// An answer, as a mathematical value.
pub struct ReplyView {
    pub status: int,
    pub no_store: bool,
    pub location: Option<Seq<char>>,
    pub body: BodyView,
}

impl View for Body {
    type V = BodyView;

    open spec fn view(&self) -> BodyView {
        match self {
            Body::Json(value) => BodyView::Json(json::json_nodes(*value)),
            Body::Plain(s) => BodyView::Plain(s@),
            Body::Empty => BodyView::Empty,
        }
    }
}

impl View for Reply {
    type V = ReplyView;

    open spec fn view(&self) -> ReplyView {
        ReplyView {
            status: self.status as int,
            no_store: self.no_store,
            location: crate::text::opt_view(self.location),
            body: self.body@,
        }
    }
}

/// An answer with a JSON body.
pub open spec fn json_reply(status: int, nodes: JsonNodes) -> ReplyView {
    ReplyView { status, no_store: false, location: None, body: BodyView::Json(nodes) }
}

/// An answer with a JSON body that no cache may keep.
pub open spec fn private_reply(status: int, nodes: JsonNodes) -> ReplyView {
    ReplyView { status, no_store: true, location: None, body: BodyView::Json(nodes) }
}

/// An answer with a plain text.
pub open spec fn text_reply(status: int, s: Seq<char>) -> ReplyView {
    ReplyView { status, no_store: false, location: None, body: BodyView::Plain(s) }
}

/// An answer that sends the caller elsewhere.
pub open spec fn redirect_reply(location: Seq<char>) -> ReplyView {
    ReplyView { status: 303, no_store: false, location: Some(location), body: BodyView::Empty }
}

/// The members of a refusal's body.
pub open spec fn refusal_members(code: Seq<char>) -> Map<Seq<char>, JsonNodes> {
    map!["ok"@ => json::flag_nodes(false), "error"@ => json::text_nodes(code)]
}

/// A refusal: the body says `ok: false` and gives the error's code.
pub open spec fn refusal(status: int, code: Seq<char>) -> ReplyView {
    json_reply(status, json::object_nodes(refusal_members(code)))
}

/// The answer where something the service needs has failed it.
pub open spec fn outage(dependency: Seq<char>, code: Seq<char>) -> ReplyView {
    json_reply(
        503,
        json::object_nodes(
            refusal_members(code).insert("dependency"@, json::text_nodes(dependency)),
        ),
    )
}

/// The members of a refusal's body.
fn refusal_body(code: &str) -> (r: JsonObject)
    ensures
        r.members() == refusal_members(code@),
{
    let r = JsonObject::new().with("ok", json::flag(false)).with("error", json::string(code));
    r
}

/// A refusal with the given status and error code.
pub fn deny(status: u16, code: &str) -> (r: Reply)
    ensures
        r@ == refusal(status as int, code@),
{
    json_answer(status, refusal_body(code).finish())
}

/// The answer where `dependency` has failed the service.
pub fn dependency_error(dependency: &str, code: &str) -> (r: Reply)
    ensures
        r@ == outage(dependency@, code@),
{
    json_answer(503, refusal_body(code).with("dependency", json::string(dependency)).finish())
}

/// An answer with a JSON body.
pub fn json_answer(status: u16, body: serde_json::Value) -> (r: Reply)
    ensures
        r@ == json_reply(status as int, json::json_nodes(body)),
{
    Reply { status, no_store: false, location: None, body: Body::Json(body) }
}

/// An answer with a JSON body that no cache may keep.
pub fn no_store_json(status: u16, body: serde_json::Value) -> (r: Reply)
    ensures
        r@ == private_reply(status as int, json::json_nodes(body)),
{
    Reply { status, no_store: true, location: None, body: Body::Json(body) }
}

/// An answer with a plain text.
pub fn text_answer(status: u16, s: &str) -> (r: Reply)
    ensures
        r@ == text_reply(status as int, s@),
{
    Reply { status, no_store: false, location: None, body: Body::Plain(s.to_owned()) }
}

/// An answer that sends the caller elsewhere.
pub fn redirect(location: &str) -> (r: Reply)
    ensures
        r@ == redirect_reply(location@),
{
    Reply { status: 303, no_store: false, location: Some(location.to_owned()), body: Body::Empty }
}

} // verus!
