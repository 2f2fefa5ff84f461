//! What answers, and the bodies that are sent to other services, hold: told member by member.

use vstd::prelude::*;
use vstd::string::*;

use crate::api_keys;
use crate::api_keys::{KeyView, RequestView};
use crate::auth::CustomerView;
use crate::billing;
use crate::billing::{Ingest, IngestErrorView, Reject, WebhookView};
use crate::json;
use crate::json::JsonNodes;
use crate::key_requests;
use crate::reply;
use crate::reply::{BodyView, ReplyView};
use crate::security;
use crate::site;
use crate::supabase_auth;
use crate::supabase_auth::OtpChannel;
use crate::text;
use crate::upstream;

verus! {

/// The JSON body of an answer.
pub open spec fn body_of(r: ReplyView) -> JsonNodes {
    r.body->Json_0
}

/// Whether an answer is a JSON one, with the given status, that caches may keep.
pub open spec fn is_json(r: ReplyView, status: int) -> bool {
    r.status == status && !r.no_store && r.location is None && r.body is Json
}

/// Whether an answer is a JSON one, with the given status, that no cache may keep.
pub open spec fn is_private_json(r: ReplyView, status: int) -> bool {
    r.status == status && r.no_store && r.location is None && r.body is Json
}

/// Whether an answer refuses with the given status and code, and says no more.
pub open spec fn refuses(r: ReplyView, status: int, code: Seq<char>) -> bool {
    &&& is_json(r, status)
    &&& json::has_keys(body_of(r), set!["ok"@, "error"@])
    &&& json::member_flag(body_of(r), "ok"@) == Some(false)
    &&& json::member_text(body_of(r), "error"@) == Some(code)
}

/// Whether an answer reports that a dependency failed, with the given code.
pub open spec fn reports_outage(r: ReplyView, dependency: Seq<char>, code: Seq<char>) -> bool {
    &&& is_json(r, 503)
    &&& json::has_keys(body_of(r), set!["ok"@, "error"@, "dependency"@])
    &&& json::member_flag(body_of(r), "ok"@) == Some(false)
    &&& json::member_text(body_of(r), "error"@) == Some(code)
    &&& json::member_text(body_of(r), "dependency"@) == Some(dependency)
}

/// A refusal has the status and the code that were asked for, says that it is one, and no more.
pub proof fn law_refusals_tell_their_code(status: int, code: Seq<char>)
    ensures
        refuses(reply::refusal(status, code), status, code),
{
    reveal_strlit("ok");
    reveal_strlit("error");
    assert("ok"@.len() == 2);
    assert("error"@.len() == 5);
    let members = map![
        "ok"@ => json::flag_nodes(false),
        "error"@ => json::text_nodes(code),
    ];
    json::lemma_object_reads(members);
    assert(members.dom() =~= set!["ok"@, "error"@]);
    assert(members["ok"@] == json::flag_nodes(false));
    assert(members["error"@] == json::text_nodes(code));
}

/// An outage is a 503 that names the dependency and the code.
pub proof fn law_outages_tell_their_dependency(dependency: Seq<char>, code: Seq<char>)
    ensures
        reports_outage(reply::outage(dependency, code), dependency, code),
{
    reveal_strlit("ok");
    reveal_strlit("error");
    reveal_strlit("dependency");
    assert("ok"@.len() == 2);
    assert("error"@.len() == 5);
    assert("dependency"@.len() == 10);
    let members = map![
        "ok"@ => json::flag_nodes(false),
        "error"@ => json::text_nodes(code),
        "dependency"@ => json::text_nodes(dependency),
    ];
    json::lemma_object_reads(members);
    assert(members.dom() =~= set!["ok"@, "error"@, "dependency"@]);
    assert(members["ok"@] == json::flag_nodes(false));
    assert(members["error"@] == json::text_nodes(code));
    assert(members["dependency"@] == json::text_nodes(dependency));
}

/// Answers are what they are made of: status, body, and whether a cache may keep them.
pub proof fn law_answers_are_what_they_are_made_of(
    status: int,
    nodes: JsonNodes,
    s: Seq<char>,
)
    ensures
        is_json(reply::json_reply(status, nodes), status),
        body_of(reply::json_reply(status, nodes)) == nodes,
        is_private_json(reply::private_reply(status, nodes), status),
        body_of(reply::private_reply(status, nodes)) == nodes,
        reply::text_reply(status, s).status == status,
        reply::text_reply(status, s).body == BodyView::Plain(s),
        reply::text_reply(status, s).location is None,
        !reply::text_reply(status, s).no_store,
        reply::redirect_reply(s).status == 303,
        reply::redirect_reply(s).location == Some(s),
        reply::redirect_reply(s).body == BodyView::Empty,
        !reply::redirect_reply(s).no_store,
{
}

/// Two refusals are the same only where their status and code are.
pub proof fn law_refusals_can_be_told_apart(
    status: int,
    code: Seq<char>,
    other_status: int,
    other_code: Seq<char>,
)
    requires
        reply::refusal(status, code) == reply::refusal(other_status, other_code),
    ensures
        status == other_status,
        code == other_code,
{
    law_refusals_tell_their_code(status, code);
    law_refusals_tell_their_code(other_status, other_code);
}

/// A request that is turned away is told so, with the reason.
pub proof fn law_rejections_tell_their_reason(reason: Seq<char>)
    ensures
        ({
            let r = security::rejection(reason);
            &&& is_json(r, 403)
            &&& json::has_keys(body_of(r), set!["ok"@, "error"@, "reason"@])
            &&& json::member_flag(body_of(r), "ok"@) == Some(false)
            &&& json::member_text(body_of(r), "error"@) == Some("customer_request_rejected"@)
            &&& json::member_text(body_of(r), "reason"@) == Some(reason)
        }),
{
    reveal_strlit("ok");
    reveal_strlit("error");
    reveal_strlit("reason");
    assert("ok"@.len() == 2);
    assert("error"@.len() == 5);
    assert("reason"@.len() == 6);
    let members = map![
        "ok"@ => json::flag_nodes(false),
        "error"@ => json::text_nodes("customer_request_rejected"@),
        "reason"@ => json::text_nodes(reason),
    ];
    json::lemma_object_reads(members);
    assert(members.dom() =~= set!["ok"@, "error"@, "reason"@]);
    assert(members["ok"@] == json::flag_nodes(false));
    assert(members["error"@] == json::text_nodes("customer_request_rejected"@));
    assert(members["reason"@] == json::text_nodes(reason));
}

/// An error of the credential authority is passed on with its own status, and with its own
/// error, whatever that is; where it names none, with a fixed code.
pub proof fn law_errors_of_the_authority_are_passed_on(status: int, body: JsonNodes)
    requires
        json::member(body, "error"@) matches Some(error) ==> json::has_root(error),
    ensures
        ({
            let r = upstream::passed_on(status, body);
            &&& is_json(r, status)
            &&& json::has_keys(body_of(r), set!["ok"@, "error"@])
            &&& json::member_flag(body_of(r), "ok"@) == Some(false)
            &&& json::member(body, "error"@) is Some ==> json::member(body_of(r), "error"@)
                == json::member(body, "error"@)
            &&& json::member(body, "error"@) is None ==> json::member_text(body_of(r), "error"@)
                == Some("credential_authority_rejected_request"@)
        }),
{
    let error = match json::member(body, "error"@) {
        Some(error) => error,
        None => json::text_nodes("credential_authority_rejected_request"@),
    };
    reveal_strlit("ok");
    reveal_strlit("error");
    assert("ok"@.len() == 2);
    assert("error"@.len() == 5);
    let members = map![
        "ok"@ => json::flag_nodes(false),
        "error"@ => error,
    ];
    json::lemma_object_reads(members);
    assert(members.dom() =~= set!["ok"@, "error"@]);
    assert(members["ok"@] == json::flag_nodes(false));
    assert(members["error"@] == error);
}

// API keys.

/// What is shown of a key is the key's own: id, name, prefix, scopes, state, environment, policy
/// and version, and nothing else.
pub proof fn law_shown_keys_tell_the_key(key: KeyView)
    ensures
        ({
            let d = api_keys::shown(key);
            &&& json::has_keys(
                d,
                set![
                    "id"@,
                    "name"@,
                    "prefix"@,
                    "scopes"@,
                    "last_used"@,
                    "status"@,
                    "environment"@,
                    "require_idempotency"@,
                    "version"@,
                ],
            )
            &&& json::member_text(d, "id"@) == Some(key.key_id)
            &&& json::member_text(d, "name"@) == Some(key.name)
            &&& json::member_text(d, "prefix"@) == Some(
                "fdc_"@ + key.env + "_"@ + key.key_id,
            )
            &&& json::member_text(d, "scopes"@) == Some(text::joined(key.scopes, ", "@))
            &&& key.last_used_ms is Some <==> json::member_text(d, "last_used"@) == Some(
                "recently"@,
            )
            &&& key.last_used_ms is None <==> json::member_text(d, "last_used"@) == Some("never"@)
            &&& key.revoked <==> json::member_text(d, "status"@) == Some("revoked"@)
            &&& !key.revoked <==> json::member_text(d, "status"@) == Some("active"@)
            &&& json::member_text(d, "environment"@) == Some(key.env)
            &&& json::member_flag(d, "require_idempotency"@) == Some(key.require_idempotency)
            &&& json::member_integer(d, "version"@) == Some(key.version as int)
        }),
{
    reveal_strlit("recently");
    reveal_strlit("never");
    reveal_strlit("revoked");
    reveal_strlit("active");
    assert("recently"@.len() != "never"@.len());
    assert("revoked"@.len() != "active"@.len());
    reveal_strlit("id");
    reveal_strlit("name");
    reveal_strlit("prefix");
    reveal_strlit("scopes");
    reveal_strlit("last_used");
    reveal_strlit("status");
    reveal_strlit("environment");
    reveal_strlit("require_idempotency");
    reveal_strlit("version");
    assert("id"@.len() == 2);
    assert("name"@.len() == 4);
    assert("prefix"@.len() == 6);
    assert("scopes"@.len() == 6);
    assert("last_used"@.len() == 9);
    assert("status"@.len() == 6);
    assert("environment"@.len() == 11);
    assert("require_idempotency"@.len() == 19);
    assert("version"@.len() == 7);
    assert("prefix"@[0] != "scopes"@[0]);
    assert("prefix"@[0] != "status"@[0]);
    assert("scopes"@[1] != "status"@[1]);
    let members = map![
        "id"@ => json::text_nodes(key.key_id),
        "name"@ => json::text_nodes(key.name),
        "prefix"@ => json::text_nodes(api_keys::prefix_of(key.env, key.key_id)),
        "scopes"@ => json::text_nodes(text::joined(key.scopes, ", "@)),
        "last_used"@ => json::text_nodes(if key.last_used_ms is Some { "recently"@ } else { "never"@ }),
        "status"@ => json::text_nodes(if key.revoked { "revoked"@ } else { "active"@ }),
        "environment"@ => json::text_nodes(key.env),
        "require_idempotency"@ => json::flag_nodes(key.require_idempotency),
        "version"@ => json::integer_nodes(key.version as int),
    ];
    json::lemma_object_reads(members);
    assert(members.dom() =~= set!["id"@, "name"@, "prefix"@, "scopes"@, "last_used"@, "status"@, "environment"@, "require_idempotency"@, "version"@]);
    assert(members["id"@] == json::text_nodes(key.key_id));
    assert(members["name"@] == json::text_nodes(key.name));
    assert(members["prefix"@] == json::text_nodes(api_keys::prefix_of(key.env, key.key_id)));
    assert(members["scopes"@] == json::text_nodes(text::joined(key.scopes, ", "@)));
    assert(members["last_used"@] == json::text_nodes(if key.last_used_ms is Some { "recently"@ } else { "never"@ }));
    assert(members["status"@] == json::text_nodes(if key.revoked { "revoked"@ } else { "active"@ }));
    assert(members["environment"@] == json::text_nodes(key.env));
    assert(members["require_idempotency"@] == json::flag_nodes(key.require_idempotency));
    assert(members["version"@] == json::integer_nodes(key.version as int));
}

/// What the authority is sent for a new key carries the request's own fields: the trimmed name,
/// the one scope, the environment and the policy, which is on unless it is switched off; and the
/// organisation that the key is for.
pub proof fn law_new_keys_are_asked_for_as_requested(payload: RequestView, org_id: Seq<char>)
    ensures
        ({
            let body = key_requests::issue_body(payload, org_id);
            &&& json::has_keys(
                body,
                set!["name"@, "org_id"@, "scopes"@, "env"@, "require_idempotency"@],
            )
            &&& json::member_text(body, "name"@) == Some(text::trimmed(payload.name))
            &&& json::member_text(body, "org_id"@) == Some(org_id)
            &&& json::is_text_list(json::member_items(body, "scopes"@), seq![payload.scope])
            &&& json::member_text(body, "env"@) == Some(payload.environment)
            &&& json::member_flag(body, "require_idempotency"@) == Some(
                payload.require_idempotency != Some(false),
            )
        }),
{
    json::lemma_text_array_reads(seq![payload.scope]);
    reveal_strlit("name");
    reveal_strlit("org_id");
    reveal_strlit("scopes");
    reveal_strlit("env");
    reveal_strlit("require_idempotency");
    assert("name"@.len() == 4);
    assert("org_id"@.len() == 6);
    assert("scopes"@.len() == 6);
    assert("env"@.len() == 3);
    assert("require_idempotency"@.len() == 19);
    assert("org_id"@[0] != "scopes"@[0]);
    let members = map![
        "name"@ => json::text_nodes(text::trimmed(payload.name)),
        "org_id"@ => json::text_nodes(org_id),
        "scopes"@ => json::text_array_nodes(seq![payload.scope]),
        "env"@ => json::text_nodes(payload.environment),
        "require_idempotency"@ => json::flag_nodes(match payload.require_idempotency { Some(b) => b, None => true }),
    ];
    json::lemma_object_reads(members);
    assert(members.dom() =~= set!["name"@, "org_id"@, "scopes"@, "env"@, "require_idempotency"@]);
    assert(members["name"@] == json::text_nodes(text::trimmed(payload.name)));
    assert(members["org_id"@] == json::text_nodes(org_id));
    assert(members["scopes"@] == json::text_array_nodes(seq![payload.scope]));
    assert(members["env"@] == json::text_nodes(payload.environment));
    assert(members["require_idempotency"@] == json::flag_nodes(match payload.require_idempotency { Some(b) => b, None => true }));
}

/// Requests that differ in what they ask for, or are for different organisations, are sent
/// differently.
pub proof fn law_different_requests_are_sent_differently(
    a: RequestView,
    b: RequestView,
    org_id: Seq<char>,
    other_org: Seq<char>,
)
    requires
        key_requests::issue_body(a, org_id) == key_requests::issue_body(b, other_org),
    ensures
        org_id == other_org,
        text::trimmed(a.name) == text::trimmed(b.name),
        a.environment == b.environment,
        a.scope == b.scope,
        a.require_idempotency == Some(false) <==> b.require_idempotency == Some(false),
{
    law_new_keys_are_asked_for_as_requested(a, org_id);
    law_new_keys_are_asked_for_as_requested(b, other_org);
    let items = json::member_items(key_requests::issue_body(a, org_id), "scopes"@)->0;
    assert(json::as_text(items[0]) == Some(seq![a.scope][0]));
    assert(json::as_text(items[0]) == Some(seq![b.scope][0]));
}

/// The list of keys is told with what new keys can be, and may not be kept.
pub proof fn law_lists_tell_all_keys(keys: Seq<JsonNodes>, refused: ReplyView)
    ensures
        ({
            let r = key_requests::list_reply(Ok(keys));
            let body = body_of(r);
            &&& is_private_json(r, 200)
            &&& json::has_keys(
                body,
                set![
                    "api_keys"@,
                    "default_require_idempotency"@,
                    "allowed_environments"@,
                    "allowed_scopes"@,
                ],
            )
            &&& json::member_items(body, "api_keys"@) == Some(keys)
            &&& json::member_flag(body, "default_require_idempotency"@) == Some(true)
            &&& json::is_text_list(
                json::member_items(body, "allowed_environments"@),
                seq!["live"@, "test"@],
            )
            &&& json::is_text_list(
                json::member_items(body, "allowed_scopes"@),
                api_keys::allowed_scopes(),
            )
        }),
        key_requests::list_reply(Err(refused)) == refused,
{
    json::lemma_array_reads(keys);
    json::lemma_text_array_reads(seq!["live"@, "test"@]);
    json::lemma_text_array_reads(api_keys::allowed_scopes());
    reveal_strlit("api_keys");
    reveal_strlit("default_require_idempotency");
    reveal_strlit("allowed_environments");
    reveal_strlit("allowed_scopes");
    assert("api_keys"@.len() == 8);
    assert("default_require_idempotency"@.len() == 27);
    assert("allowed_environments"@.len() == 20);
    assert("allowed_scopes"@.len() == 14);
    let members = map![
        "api_keys"@ => json::array_nodes(keys),
        "default_require_idempotency"@ => json::flag_nodes(true),
        "allowed_environments"@ => json::text_array_nodes(seq!["live"@, "test"@]),
        "allowed_scopes"@ => json::text_array_nodes(api_keys::allowed_scopes()),
    ];
    json::lemma_object_reads(members);
    assert(members.dom() =~= set!["api_keys"@, "default_require_idempotency"@, "allowed_environments"@, "allowed_scopes"@]);
    assert(members["api_keys"@] == json::array_nodes(keys));
    assert(members["default_require_idempotency"@] == json::flag_nodes(true));
    assert(members["allowed_environments"@] == json::text_array_nodes(seq!["live"@, "test"@]));
    assert(members["allowed_scopes"@] == json::text_array_nodes(api_keys::allowed_scopes()));
}

/// A browser that catches up is given the whole table, under its name, with what it asked for.
pub proof fn law_catching_up_gives_the_whole_table(
    table: Seq<char>,
    since: int,
    rows: Seq<JsonNodes>,
    refused: ReplyView,
)
    ensures
        ({
            let r = key_requests::catchup_reply(table, since, Ok(rows));
            let body = body_of(r);
            &&& is_private_json(r, 200)
            &&& json::has_keys(body, set!["table"@, "snapshot"@, "requested_since"@, "rows"@])
            &&& json::member_text(body, "table"@) == Some(table)
            &&& json::member_flag(body, "snapshot"@) == Some(true)
            &&& json::member_integer(body, "requested_since"@) == Some(since)
            &&& json::member_items(body, "rows"@) == Some(rows)
        }),
        key_requests::catchup_reply(table, since, Err(refused)) == refused,
{
    json::lemma_array_reads(rows);
    reveal_strlit("table");
    reveal_strlit("snapshot");
    reveal_strlit("requested_since");
    reveal_strlit("rows");
    assert("table"@.len() == 5);
    assert("snapshot"@.len() == 8);
    assert("requested_since"@.len() == 15);
    assert("rows"@.len() == 4);
    let members = map![
        "table"@ => json::text_nodes(table),
        "snapshot"@ => json::flag_nodes(true),
        "requested_since"@ => json::integer_nodes(since),
        "rows"@ => json::array_nodes(rows),
    ];
    json::lemma_object_reads(members);
    assert(members.dom() =~= set!["table"@, "snapshot"@, "requested_since"@, "rows"@]);
    assert(members["table"@] == json::text_nodes(table));
    assert(members["snapshot"@] == json::flag_nodes(true));
    assert(members["requested_since"@] == json::integer_nodes(since));
    assert(members["rows"@] == json::array_nodes(rows));
}

/// A table that cannot be caught up on is named in the refusal.
pub proof fn law_unknown_tables_are_named(caller: key_requests::Caller, table: Seq<char>)
    requires
        table != "api_keys"@,
    ensures
        key_requests::catchup_plan(caller, table) matches Err(r) && {
            &&& is_json(r, 404)
            &&& json::has_keys(body_of(r), set!["ok"@, "error"@, "table"@])
            &&& json::member_flag(body_of(r), "ok"@) == Some(false)
            &&& json::member_text(body_of(r), "error"@) == Some("unsupported_sync_table"@)
            &&& json::member_text(body_of(r), "table"@) == Some(table)
        },
        key_requests::catchup_plan(caller, "api_keys"@) == key_requests::list_plan(caller, None),
{
    reveal_strlit("ok");
    reveal_strlit("error");
    reveal_strlit("table");
    assert("ok"@.len() == 2);
    assert("error"@.len() == 5);
    assert("table"@.len() == 5);
    assert("error"@[0] != "table"@[0]);
    let members = map![
        "ok"@ => json::flag_nodes(false),
        "error"@ => json::text_nodes("unsupported_sync_table"@),
        "table"@ => json::text_nodes(table),
    ];
    json::lemma_object_reads(members);
    assert(members.dom() =~= set!["ok"@, "error"@, "table"@]);
    assert(members["ok"@] == json::flag_nodes(false));
    assert(members["error"@] == json::text_nodes("unsupported_sync_table"@));
    assert(members["table"@] == json::text_nodes(table));
}

/// A new key is told as it is shown, with its plaintext, and with the note that this is the one
/// time; it may not be kept.
pub proof fn law_new_keys_are_told_once(display: JsonNodes, secret: Seq<char>, refused: ReplyView)
    requires
        json::has_root(display),
    ensures
        ({
            let r = key_requests::issue_reply(Ok((display, secret)));
            let body = body_of(r);
            &&& is_private_json(r, 201)
            &&& json::has_keys(body, set!["ok"@, "api_key"@, "secret"@, "secret_once"@])
            &&& json::member_flag(body, "ok"@) == Some(true)
            &&& json::member(body, "api_key"@) == Some(display)
            &&& json::member_text(body, "secret"@) == Some(secret)
            &&& json::member_flag(body, "secret_once"@) == Some(true)
        }),
        key_requests::issue_reply(Err(refused)) == refused,
{
    reveal_strlit("ok");
    reveal_strlit("api_key");
    reveal_strlit("secret");
    reveal_strlit("secret_once");
    assert("ok"@.len() == 2);
    assert("api_key"@.len() == 7);
    assert("secret"@.len() == 6);
    assert("secret_once"@.len() == 11);
    let members = map![
        "ok"@ => json::flag_nodes(true),
        "api_key"@ => display,
        "secret"@ => json::text_nodes(secret),
        "secret_once"@ => json::flag_nodes(true),
    ];
    json::lemma_object_reads(members);
    assert(members.dom() =~= set!["ok"@, "api_key"@, "secret"@, "secret_once"@]);
    assert(members["ok"@] == json::flag_nodes(true));
    assert(members["api_key"@] == display);
    assert(members["secret"@] == json::text_nodes(secret));
    assert(members["secret_once"@] == json::flag_nodes(true));
}

/// A rotation is told with the trimmed prefix, the time, the new plaintext, the key as it is
/// shown, and for how long the old plaintext stays valid.
pub proof fn law_rotations_are_told(
    prefix: Seq<char>,
    now_ms: int,
    display: JsonNodes,
    secret: Seq<char>,
    overlap: u64,
    refused: ReplyView,
)
    requires
        json::has_root(display),
    ensures
        ({
            let r = key_requests::rotate_reply(prefix, now_ms, Ok((display, secret, overlap)));
            let body = body_of(r);
            &&& is_private_json(r, 200)
            &&& json::has_keys(
                body,
                set![
                    "ok"@,
                    "prefix"@,
                    "rotated_at_ms"@,
                    "replacement_secret"@,
                    "api_key"@,
                    "overlap_seconds"@,
                ],
            )
            &&& json::member_flag(body, "ok"@) == Some(true)
            &&& json::member_text(body, "prefix"@) == Some(text::trimmed(prefix))
            &&& json::member_integer(body, "rotated_at_ms"@) == Some(now_ms)
            &&& json::member_text(body, "replacement_secret"@) == Some(secret)
            &&& json::member(body, "api_key"@) == Some(display)
            &&& json::member_integer(body, "overlap_seconds"@) == Some(overlap as int)
        }),
        key_requests::rotate_reply(prefix, now_ms, Err(refused)) == refused,
{
    reveal_strlit("ok");
    reveal_strlit("prefix");
    reveal_strlit("rotated_at_ms");
    reveal_strlit("replacement_secret");
    reveal_strlit("api_key");
    reveal_strlit("overlap_seconds");
    assert("ok"@.len() == 2);
    assert("prefix"@.len() == 6);
    assert("rotated_at_ms"@.len() == 13);
    assert("replacement_secret"@.len() == 18);
    assert("api_key"@.len() == 7);
    assert("overlap_seconds"@.len() == 15);
    let members = map![
        "ok"@ => json::flag_nodes(true),
        "prefix"@ => json::text_nodes(text::trimmed(prefix)),
        "rotated_at_ms"@ => json::integer_nodes(now_ms),
        "replacement_secret"@ => json::text_nodes(secret),
        "api_key"@ => display,
        "overlap_seconds"@ => json::integer_nodes(overlap as int),
    ];
    json::lemma_object_reads(members);
    assert(members.dom() =~= set!["ok"@, "prefix"@, "rotated_at_ms"@, "replacement_secret"@, "api_key"@, "overlap_seconds"@]);
    assert(members["ok"@] == json::flag_nodes(true));
    assert(members["prefix"@] == json::text_nodes(text::trimmed(prefix)));
    assert(members["rotated_at_ms"@] == json::integer_nodes(now_ms));
    assert(members["replacement_secret"@] == json::text_nodes(secret));
    assert(members["api_key"@] == display);
    assert(members["overlap_seconds"@] == json::integer_nodes(overlap as int));
}

/// A revocation is told with the trimmed prefix, and only where the key was revoked.
pub proof fn law_revocations_are_told(prefix: Seq<char>, refused: ReplyView)
    ensures
        ({
            let r = key_requests::revoke_reply(prefix, Ok(()));
            let body = body_of(r);
            &&& is_private_json(r, 200)
            &&& json::has_keys(body, set!["ok"@, "prefix"@, "status"@])
            &&& json::member_flag(body, "ok"@) == Some(true)
            &&& json::member_text(body, "prefix"@) == Some(text::trimmed(prefix))
            &&& json::member_text(body, "status"@) == Some("revoked"@)
        }),
        key_requests::revoke_reply(prefix, Err(refused)) == refused,
{
    reveal_strlit("ok");
    reveal_strlit("prefix");
    reveal_strlit("status");
    assert("ok"@.len() == 2);
    assert("prefix"@.len() == 6);
    assert("status"@.len() == 6);
    assert("prefix"@[0] != "status"@[0]);
    let members = map![
        "ok"@ => json::flag_nodes(true),
        "prefix"@ => json::text_nodes(text::trimmed(prefix)),
        "status"@ => json::text_nodes("revoked"@),
    ];
    json::lemma_object_reads(members);
    assert(members.dom() =~= set!["ok"@, "prefix"@, "status"@]);
    assert(members["ok"@] == json::flag_nodes(true));
    assert(members["prefix"@] == json::text_nodes(text::trimmed(prefix)));
    assert(members["status"@] == json::text_nodes("revoked"@));
}

// What Supabase is sent.

/// A code is asked for with the recipient under the field of the channel, and with the choice
/// whether a new user may register.
pub proof fn law_codes_are_asked_for_by_channel(
    channel: OtpChannel,
    identifier: Seq<char>,
    allow_signup: bool,
)
    ensures
        ({
            let body = supabase_auth::otp_request(channel, identifier, allow_signup);
            let field = match channel {
                OtpChannel::Email => "email"@,
                OtpChannel::Phone => "phone"@,
            };
            &&& json::has_keys(body, set![field, "should_create_user"@])
            &&& json::member_text(body, field) == Some(identifier)
            &&& json::member_flag(body, "should_create_user"@) == Some(allow_signup)
        }),
{
    let field = channel.field_name();
    reveal_strlit("email");
    reveal_strlit("phone");
    reveal_strlit("should_create_user");
    assert("email"@.len() == 5);
    assert("phone"@.len() == 5);
    assert("should_create_user"@.len() == 18);
    assert("email"@[0] != "phone"@[0]);
    let members = map![
        field => json::text_nodes(identifier),
        "should_create_user"@ => json::flag_nodes(allow_signup),
    ];
    json::lemma_object_reads(members);
    assert(members.dom() =~= set![field, "should_create_user"@]);
    assert(members[field] == json::text_nodes(identifier));
}

/// A code is redeemed with its kind, the recipient under the field of the channel, and the code.
pub proof fn law_codes_are_redeemed_by_channel(
    channel: OtpChannel,
    identifier: Seq<char>,
    token: Seq<char>,
)
    ensures
        ({
            let body = supabase_auth::verify_request(channel, identifier, token);
            let (field, kind) = match channel {
                OtpChannel::Email => ("email"@, "email"@),
                OtpChannel::Phone => ("phone"@, "sms"@),
            };
            &&& json::has_keys(body, set!["type"@, field, "token"@])
            &&& json::member_text(body, "type"@) == Some(kind)
            &&& json::member_text(body, field) == Some(identifier)
            &&& json::member_text(body, "token"@) == Some(token)
        }),
{
    let field = channel.field_name();
    reveal_strlit("email");
    reveal_strlit("phone");
    reveal_strlit("type");
    reveal_strlit("token");
    assert("email"@.len() == 5);
    assert("phone"@.len() == 5);
    assert("type"@.len() == 4);
    assert("token"@.len() == 5);
    assert("email"@[0] != "phone"@[0]);
    assert("email"@[0] != "token"@[0]);
    assert("phone"@[0] != "token"@[0]);
    let members = map![
        "type"@ => json::text_nodes(channel.kind_name()),
        field => json::text_nodes(identifier),
        "token"@ => json::text_nodes(token),
    ];
    json::lemma_object_reads(members);
    assert(members.dom() =~= set!["type"@, field, "token"@]);
    assert(members[field] == json::text_nodes(identifier));
    assert(members["type"@] == json::text_nodes(channel.kind_name()));
}

/// An authenticator app is enrolled with its trimmed name, or without a name where that is blank.
pub proof fn law_enrollments_carry_their_name(friendly_name: Seq<char>)
    ensures
        ({
            let body = supabase_auth::enroll_request(friendly_name);
            let name = text::trimmed(friendly_name);
            &&& json::member_text(body, "factor_type"@) == Some("totp"@)
            &&& name.len() > 0 ==> json::has_keys(body, set!["factor_type"@, "friendly_name"@])
                && json::member_text(body, "friendly_name"@) == Some(name)
            &&& name.len() == 0 ==> json::has_keys(body, set!["factor_type"@])
        }),
{
    let name = text::trimmed(friendly_name);
    reveal_strlit("factor_type");
    reveal_strlit("friendly_name");
    assert("factor_type"@.len() == 11);
    assert("friendly_name"@.len() == 13);
    let bare = map!["factor_type"@ => json::text_nodes("totp"@)];
    let full = bare.insert("friendly_name"@, json::text_nodes(name));
    json::lemma_object_reads(bare);
    json::lemma_object_reads(full);
    assert(bare.dom() =~= set!["factor_type"@]);
    assert(full.dom() =~= set!["factor_type"@, "friendly_name"@]);
    assert(full["factor_type"@] == json::text_nodes("totp"@));
}

/// A challenge is answered with its own id and the code.
pub proof fn law_challenges_are_answered_with_the_code(challenge_id: Seq<char>, code: Seq<char>)
    ensures
        ({
            let body = supabase_auth::factor_request(challenge_id, code);
            &&& json::has_keys(body, set!["challenge_id"@, "code"@])
            &&& json::member_text(body, "challenge_id"@) == Some(challenge_id)
            &&& json::member_text(body, "code"@) == Some(code)
        }),
{
    reveal_strlit("challenge_id");
    reveal_strlit("code");
    assert("challenge_id"@.len() == 12);
    assert("code"@.len() == 4);
    let members = map![
        "challenge_id"@ => json::text_nodes(challenge_id),
        "code"@ => json::text_nodes(code),
    ];
    json::lemma_object_reads(members);
    assert(members.dom() =~= set!["challenge_id"@, "code"@]);
    assert(members["challenge_id"@] == json::text_nodes(challenge_id));
    assert(members["code"@] == json::text_nodes(code));
}

// Webhooks.

/// A webhook that was ingested is acknowledged, with the note whether it was a repetition; any
/// other is refused with a status and a code of its own.
pub proof fn law_webhooks_are_answered_by_outcome(ingest: Ingest, message: Seq<char>)
    ensures
        ({
            let r = billing::webhook_reply(WebhookView::Ingested(ingest));
            &&& is_json(r, 200)
            &&& json::has_keys(body_of(r), set!["ok"@, "deduped"@])
            &&& json::member_flag(body_of(r), "ok"@) == Some(true)
            &&& json::member_flag(body_of(r), "deduped"@) == Some(ingest is Deduped)
        }),
        refuses(
            billing::webhook_reply(WebhookView::UnknownProvider),
            404,
            "unknown_provider"@,
        ),
        refuses(
            billing::webhook_reply(WebhookView::Rejected(Reject::NotConfigured)),
            503,
            "provider_not_configured"@,
        ),
        refuses(
            billing::webhook_reply(WebhookView::Rejected(Reject::MissingHeader)),
            400,
            "missing_signature_header"@,
        ),
        refuses(
            billing::webhook_reply(WebhookView::Rejected(Reject::CertFetchFailed)),
            502,
            "cert_fetch_failed"@,
        ),
        refuses(
            billing::webhook_reply(WebhookView::Rejected(Reject::Signature)),
            400,
            "signature_verification_failed"@,
        ),
        refuses(
            billing::webhook_reply(WebhookView::NotIngested(IngestErrorView::IdentityConflict)),
            409,
            "event_identity_conflict"@,
        ),
        refuses(
            billing::webhook_reply(WebhookView::NotIngested(IngestErrorView::Unavailable)),
            503,
            "storage_unavailable"@,
        ),
        refuses(
            billing::webhook_reply(WebhookView::NotIngested(IngestErrorView::Db(message))),
            500,
            "persist_failed"@,
        ),
{
    law_refusals_tell_their_code(404, "unknown_provider"@);
    law_refusals_tell_their_code(503, "provider_not_configured"@);
    law_refusals_tell_their_code(400, "missing_signature_header"@);
    law_refusals_tell_their_code(502, "cert_fetch_failed"@);
    law_refusals_tell_their_code(400, "signature_verification_failed"@);
    law_refusals_tell_their_code(409, "event_identity_conflict"@);
    law_refusals_tell_their_code(503, "storage_unavailable"@);
    law_refusals_tell_their_code(500, "persist_failed"@);
    reveal_strlit("ok");
    reveal_strlit("deduped");
    assert("ok"@.len() == 2);
    assert("deduped"@.len() == 7);
    let members = map![
        "ok"@ => json::flag_nodes(true),
        "deduped"@ => json::flag_nodes(ingest == Ingest::Deduped),
    ];
    json::lemma_object_reads(members);
    assert(members.dom() =~= set!["ok"@, "deduped"@]);
    assert(members["ok"@] == json::flag_nodes(true));
    assert(members["deduped"@] == json::flag_nodes(ingest == Ingest::Deduped));
}

// What the site tells.

/// A caller is told who they are and where they belong, and gets a request token only where one
/// is given out for the session.
pub proof fn law_callers_are_told_their_own_session(
    ctx: CustomerView,
    csrf_token: Option<Seq<char>>,
)
    ensures
        ({
            let body = site::context_nodes(ctx, csrf_token);
            let user = json::member(body, "user"@)->0;
            &&& json::has_keys(body, set!["csrf_token"@, "user"@])
            &&& json::member_is(body, "csrf_token"@, csrf_token)
            &&& json::has_keys(user, set!["user_id"@, "email"@, "orgs"@])
            &&& json::member_text(user, "user_id"@) == Some(ctx.user_id)
            &&& json::member_is(user, "email"@, ctx.email)
            &&& json::is_text_list(json::member_items(user, "orgs"@), ctx.orgs)
        }),
{
    json::lemma_text_array_reads(ctx.orgs);
    reveal_strlit("user_id");
    reveal_strlit("email");
    reveal_strlit("orgs");
    assert("user_id"@.len() == 7);
    assert("email"@.len() == 5);
    assert("orgs"@.len() == 4);
    let inner = map![
        "user_id"@ => json::text_nodes(ctx.user_id),
        "email"@ => json::opt_text_nodes(ctx.email),
        "orgs"@ => json::text_array_nodes(ctx.orgs),
    ];
    json::lemma_object_reads(inner);
    assert(inner.dom() =~= set!["user_id"@, "email"@, "orgs"@]);
    assert(inner["user_id"@] == json::text_nodes(ctx.user_id));
    assert(inner["email"@] == json::opt_text_nodes(ctx.email));
    assert(inner["orgs"@] == json::text_array_nodes(ctx.orgs));
    let user = json::object_nodes(inner);
    reveal_strlit("csrf_token");
    reveal_strlit("user");
    assert("csrf_token"@.len() == 10);
    assert("user"@.len() == 4);
    let members = map![
        "csrf_token"@ => json::opt_text_nodes(csrf_token),
        "user"@ => user,
    ];
    json::lemma_object_reads(members);
    assert(members.dom() =~= set!["csrf_token"@, "user"@]);
    assert(members["csrf_token"@] == json::opt_text_nodes(csrf_token));
    assert(members["user"@] == user);
}

/// The streams of the portal that the site tells of.
pub open spec fn tells_streams(nodes: JsonNodes) -> bool {
    &&& json::has_keys(nodes, set!["websocket"@, "sse"@, "heartbeat_secs"@])
    &&& json::member_text(nodes, "websocket"@) == Some("/app/ws"@)
    &&& json::member_text(nodes, "sse"@) == Some("/app/events"@)
    &&& json::member_integer(nodes, "heartbeat_secs"@) == Some(15int)
}

/// The components of the service that the site tells of.
pub open spec fn tells_components(nodes: JsonNodes) -> bool {
    &&& json::has_keys(nodes, set!["data_plane"@, "control_plane"@])
    &&& json::member_text(nodes, "data_plane"@) == Some("fiducia-node"@)
    &&& json::member_text(nodes, "control_plane"@) == Some("fiducia-brain"@)
}

/// What the site tells of the streams and the components.
proof fn lemma_streams_and_components()
    ensures
        tells_streams(
            json::object_nodes(
            map![
                "websocket"@ => json::text_nodes("/app/ws"@),
                "sse"@ => json::text_nodes("/app/events"@),
                "heartbeat_secs"@ => json::integer_nodes(15),
            ],
            ),
        ),
        tells_components(
            json::object_nodes(
            map![
                "data_plane"@ => json::text_nodes("fiducia-node"@),
                "control_plane"@ => json::text_nodes("fiducia-brain"@),
            ],
            ),
        ),
{
    reveal_strlit("websocket");
    reveal_strlit("sse");
    reveal_strlit("heartbeat_secs");
    assert("websocket"@.len() == 9);
    assert("sse"@.len() == 3);
    assert("heartbeat_secs"@.len() == 14);
    let paths = map![
        "websocket"@ => json::text_nodes("/app/ws"@),
        "sse"@ => json::text_nodes("/app/events"@),
        "heartbeat_secs"@ => json::integer_nodes(15),
    ];
    json::lemma_object_reads(paths);
    assert(paths.dom() =~= set!["websocket"@, "sse"@, "heartbeat_secs"@]);
    assert(paths["websocket"@] == json::text_nodes("/app/ws"@));
    assert(paths["sse"@] == json::text_nodes("/app/events"@));
    assert(paths["heartbeat_secs"@] == json::integer_nodes(15));
    reveal_strlit("data_plane");
    reveal_strlit("control_plane");
    assert("data_plane"@.len() == 10);
    assert("control_plane"@.len() == 13);
    let planes = map![
        "data_plane"@ => json::text_nodes("fiducia-node"@),
        "control_plane"@ => json::text_nodes("fiducia-brain"@),
    ];
    json::lemma_object_reads(planes);
    assert(planes.dom() =~= set!["data_plane"@, "control_plane"@]);
    assert(planes["data_plane"@] == json::text_nodes("fiducia-node"@));
    assert(planes["control_plane"@] == json::text_nodes("fiducia-brain"@));
}

/// The portal is told with its host, its path, its streams, its regions, and whether a login by
/// way of Supabase is offered.
pub proof fn law_the_portal_is_told(host: Seq<char>, supabase_login: bool)
    ensures
        ({
            let portal = site::portal_nodes(host, supabase_login);
            &&& json::has_root(portal)
            &&& json::has_keys(portal, set!["host"@, "path"@, "rendering"@, "streams"@, "regions"@, "supabase_login"@])
            &&& json::member_text(portal, "host"@) == Some(host)
            &&& json::member_text(portal, "path"@) == Some("/app"@)
            &&& json::member_text(portal, "rendering"@) == Some("maud+htmx"@)
            &&& json::member(portal, "streams"@) matches Some(streams) && tells_streams(streams)
            &&& json::is_text_list(
                json::member_items(portal, "regions"@),
                seq!["auto"@, "iad1"@, "sfo1"@, "ams1"@, "fra1"@, "sin1"@, "syd1"@],
            )
            &&& json::member_flag(portal, "supabase_login"@) == Some(supabase_login)
        }),
{
    lemma_streams_and_components();
    let regions = seq!["auto"@, "iad1"@, "sfo1"@, "ams1"@, "fra1"@, "sin1"@, "syd1"@];
    json::lemma_text_array_reads(regions);
    let streams = json::object_nodes(
        map![
                "websocket"@ => json::text_nodes("/app/ws"@),
                "sse"@ => json::text_nodes("/app/events"@),
                "heartbeat_secs"@ => json::integer_nodes(15),
            ],
    );
    reveal_strlit("host");
    reveal_strlit("path");
    reveal_strlit("rendering");
    reveal_strlit("streams");
    reveal_strlit("regions");
    reveal_strlit("supabase_login");
    assert("host"@.len() == 4);
    assert("path"@.len() == 4);
    assert("rendering"@.len() == 9);
    assert("streams"@.len() == 7);
    assert("regions"@.len() == 7);
    assert("supabase_login"@.len() == 14);
    assert("host"@[0] != "path"@[0]);
    assert("streams"@[0] != "regions"@[0]);
    let inner = map![
        "host"@ => json::text_nodes(host),
        "path"@ => json::text_nodes("/app"@),
        "rendering"@ => json::text_nodes("maud+htmx"@),
        "streams"@ => streams,
        "regions"@ => json::text_array_nodes(regions),
        "supabase_login"@ => json::flag_nodes(supabase_login),
    ];
    json::lemma_object_reads(inner);
    assert(inner.dom() =~= set!["host"@, "path"@, "rendering"@, "streams"@, "regions"@, "supabase_login"@]);
    assert(inner["host"@] == json::text_nodes(host));
    assert(inner["path"@] == json::text_nodes("/app"@));
    assert(inner["rendering"@] == json::text_nodes("maud+htmx"@));
    assert(inner["streams"@] == streams);
    assert(inner["regions"@] == json::text_array_nodes(regions));
    assert(inner["supabase_login"@] == json::flag_nodes(supabase_login));
    assert(site::portal_nodes(host, supabase_login) == json::object_nodes(inner));
}

/// The site tells its version and its portal's host, and offers the login where it is on.
pub proof fn law_the_site_tells_its_settings(
    version: Seq<char>,
    host: Seq<char>,
    supabase_login: bool,
)
    ensures
        ({
            let body = site::info_nodes(version, host, supabase_login);
            &&& json::has_keys(body, set!["service"@, "version"@, "domain"@, "role"@, "customer_portal"@, "components"@])
            &&& json::member_text(body, "service"@) == Some("fiducia-backend"@)
            &&& json::member_text(body, "version"@) == Some(version)
            &&& json::member_text(body, "domain"@) == Some("fiducia.cloud"@)
            &&& json::member_text(body, "role"@) == Some("website"@)
            &&& json::member(body, "customer_portal"@) == Some(
                site::portal_nodes(host, supabase_login),
            )
            &&& json::member(body, "components"@) matches Some(components) && tells_components(
                components,
            )
        }),
{
    lemma_streams_and_components();
    law_the_portal_is_told(host, supabase_login);
    let portal = site::portal_nodes(host, supabase_login);
    let components = json::object_nodes(
        map![
                "data_plane"@ => json::text_nodes("fiducia-node"@),
                "control_plane"@ => json::text_nodes("fiducia-brain"@),
            ],
    );
    reveal_strlit("service");
    reveal_strlit("version");
    reveal_strlit("domain");
    reveal_strlit("role");
    reveal_strlit("customer_portal");
    reveal_strlit("components");
    assert("service"@.len() == 7);
    assert("version"@.len() == 7);
    assert("domain"@.len() == 6);
    assert("role"@.len() == 4);
    assert("customer_portal"@.len() == 15);
    assert("components"@.len() == 10);
    assert("service"@[0] != "version"@[0]);
    let outer = map![
        "service"@ => json::text_nodes("fiducia-backend"@),
        "version"@ => json::text_nodes(version),
        "domain"@ => json::text_nodes("fiducia.cloud"@),
        "role"@ => json::text_nodes("website"@),
        "customer_portal"@ => portal,
        "components"@ => components,
    ];
    json::lemma_object_reads(outer);
    assert(outer.dom() =~= set!["service"@, "version"@, "domain"@, "role"@, "customer_portal"@, "components"@]);
    assert(outer["service"@] == json::text_nodes("fiducia-backend"@));
    assert(outer["version"@] == json::text_nodes(version));
    assert(outer["domain"@] == json::text_nodes("fiducia.cloud"@));
    assert(outer["role"@] == json::text_nodes("website"@));
    assert(outer["customer_portal"@] == portal);
    assert(outer["components"@] == components);
    assert(site::info_nodes(version, host, supabase_login) == json::object_nodes(outer));
}

} // verus!
