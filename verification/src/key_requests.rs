//! Requests about API keys: the call to the credential authority that each leads to, and
//! the answer that follows from the authority's.

use axum::http::HeaderMap;
use vstd::prelude::*;
use vstd::string::*;

use crate::api_keys;
use crate::api_keys::{
    AuthKeyCreateResponse, AuthKeyListResponse, AuthKeyMeta, AuthKeyRevokeResponse,
    AuthKeyRotateResponse, CreateCustomerApiKeyRequest, KeyView, RequestView,
};
use crate::auth::CustomerCtx;
use crate::headers;
use crate::json;
use crate::json::{JsonNodes, JsonObject};
use crate::orgs;
use crate::percent;
use crate::reply;
use crate::reply::{Reply, ReplyView};
use crate::security;
use crate::text;
use crate::upstream;
use crate::upstream::{AuthCall, CallOutcome, CallView, Verb};

verus! {

/// What a request brings along, beside its own body.
pub struct Caller<'a> {
    /// The address of the credential authority, where one is configured.
    pub auth_url: Option<&'a str>,
    pub headers: &'a HeaderMap,
    pub customer: &'a CustomerCtx,
    /// Whether cookies have the names of release builds.
    pub release_hardened: bool,
}

/// A call to the credential authority on behalf of an organisation.
pub struct KeyPlan {
    pub call: AuthCall,
    pub org_id: String,
}

/// A call on behalf of an organisation, as a mathematical value.
pub struct PlanView {
    pub call: CallView,
    pub org_id: Seq<char>,
}

impl View for KeyPlan {
    type V = PlanView;

    open spec fn view(&self) -> PlanView {
        PlanView { call: self.call@, org_id: self.org_id@ }
    }
}

/// A decision about a call, as a mathematical value.
pub open spec fn plan_view(r: Result<KeyPlan, Reply>) -> Result<PlanView, ReplyView> {
    match r {
        Ok(plan) => Ok(plan@),
        Err(refused) => Err(refused@),
    }
}

/// The plan of a call for the organisation `org_id`.
pub open spec fn planned(
    caller: Caller,
    org_id: Seq<char>,
    verb: Verb,
    path: Seq<char>,
    body: Option<JsonNodes>,
) -> Result<PlanView, ReplyView> {
    match upstream::request_call(
        text::opt_str_view(caller.auth_url),
        *caller.headers,
        caller.release_hardened,
        verb,
        path,
        body,
    ) {
        Ok(call) => Ok(PlanView { call, org_id }),
        Err(refused) => Err(refused),
    }
}

/// The plan of a call for the organisation `org_id`.
fn plan_call(
    caller: &Caller,
    org_id: String,
    verb: Verb,
    path: &str,
    body: Option<serde_json::Value>,
) -> (r: Result<KeyPlan, Reply>)
    ensures
        plan_view(r) == planned(*caller, org_id@, verb, path@, upstream::opt_nodes(body)),
{
    match upstream::auth_call(
        caller.auth_url,
        caller.headers,
        caller.release_hardened,
        verb,
        path,
        body,
    ) {
        Ok(call) => Ok(KeyPlan { call, org_id }),
        Err(refused) => Err(refused),
    }
}

/// A text as it stands in a query string.
pub open spec fn escaped(s: Seq<char>) -> Seq<char> {
    percent::encoded(vstd::utf8::encode_utf8(s))
}

/// The organisation that a caller's headers select.
pub open spec fn callers_org(caller: Caller, explicit: Option<Seq<char>>) -> Result<
    Seq<char>,
    ReplyView,
> {
    orgs::selected_org(caller.customer@.orgs, orgs::org_header(*caller.headers), explicit)
}

// The list of keys.

/// The call for the list of an organisation's keys.
pub open spec fn list_plan(caller: Caller, explicit_org: Option<Seq<char>>) -> Result<
    PlanView,
    ReplyView,
> {
    match callers_org(caller, explicit_org) {
        Err(refused) => Err(refused),
        Ok(org) => planned(caller, org, Verb::Get, "/v1/keys?org_id="@ + escaped(org), None),
    }
}

/// The call for the list of an organisation's keys.
pub fn plan_list(caller: &Caller, explicit_org: Option<&str>) -> (r: Result<KeyPlan, Reply>)
    ensures
        plan_view(r) == list_plan(*caller, text::opt_str_view(explicit_org)),
{
    let org_id = match orgs::selected_customer_org_from(
        caller.customer,
        caller.headers,
        explicit_org,
    ) {
        Ok(org_id) => org_id,
        Err(refused) => return Err(refused),
    };
    let escaped_org = percent::encode_query_value(org_id.as_str());
    let path = text::cat("/v1/keys?org_id=", escaped_org.as_str());
    plan_call(caller, org_id, Verb::Get, path.as_str(), None)
}

/// The views of a list of keys.
pub open spec fn key_views(keys: Seq<AuthKeyMeta>) -> Seq<KeyView> {
    keys.map_values(|k: AuthKeyMeta| k@)
}

/// The keys as they are shown, where every one of them may be.
pub open spec fn shown_keys(keys: Seq<KeyView>, org_id: Seq<char>) -> Option<Seq<JsonNodes>> {
    if forall|i: int| 0 <= i < keys.len() ==> api_keys::is_showable(#[trigger] keys[i], org_id) {
        Some(keys.map_values(|k: KeyView| api_keys::shown(k)))
    } else {
        None
    }
}

/// What the authority's answer to a request for its keys comes to.
pub open spec fn listed(outcome: CallOutcome<AuthKeyListResponse>, org_id: Seq<char>) -> Result<
    Seq<JsonNodes>,
    ReplyView,
> {
    match upstream::settled(outcome, "auth_key_list_bad_response"@) {
        Err(refused) => Err(refused),
        Ok(response) => match shown_keys(key_views(response.keys@), org_id) {
            Some(keys) => Ok(keys),
            None => Err(reply::outage(upstream::KEY_AUTHORITY@, "auth_key_list_bad_response"@)),
        },
    }
}

/// The keys that an answer of the authority gives, as they are shown.
pub fn list_outcome(outcome: CallOutcome<AuthKeyListResponse>, org_id: &str) -> (r: Result<
    Vec<serde_json::Value>,
    Reply,
>)
    ensures
        match r {
            Ok(keys) => listed(outcome, org_id@) == Ok::<Seq<JsonNodes>, ReplyView>(
                json::nodes_of(keys@),
            ),
            Err(refused) => listed(outcome, org_id@) == Err::<Seq<JsonNodes>, ReplyView>(refused@),
        },
{
    let response = match upstream::auth_json(outcome, "auth_key_list_bad_response") {
        Ok(response) => response,
        Err(refused) => return Err(refused),
    };
    let ghost all = key_views(response.keys@);
    let mut keys: Vec<serde_json::Value> = Vec::new();
    let mut i: usize = 0;
    while i < response.keys.len()
        invariant
            i <= response.keys.len(),
            all == key_views(response.keys@),
            upstream::settled(outcome, "auth_key_list_bad_response"@) == Ok::<
                AuthKeyListResponse,
                ReplyView,
            >(response),
            keys@.len() == i,
            forall|j: int| 0 <= j < i ==> api_keys::is_showable(#[trigger] all[j], org_id@),
            forall|j: int|
                0 <= j < i ==> json::json_nodes(#[trigger] keys@[j]) == api_keys::shown(all[j]),
        decreases response.keys.len() - i,
    {
        assert(all[i as int] == response.keys@[i as int]@);
        match api_keys::auth_key_to_display(&response.keys[i], org_id) {
            Ok(display) => keys.push(display),
            Err(_) => {
                assert(!api_keys::is_showable(all[i as int], org_id@));
                return Err(
                    reply::dependency_error(upstream::KEY_AUTHORITY, "auth_key_list_bad_response"),
                );
            },
        }
        i += 1;
    }
    assert(json::nodes_of(keys@) =~= all.map_values(|k: KeyView| api_keys::shown(k)));
    Ok(keys)
}

/// The answer to a request for the list of keys.
pub open spec fn list_reply(keys: Result<Seq<JsonNodes>, ReplyView>) -> ReplyView {
    match keys {
        Err(refused) => refused,
        Ok(keys) => reply::private_reply(
            200,
            json::object_nodes(
                map![
                    "api_keys"@ => json::array_nodes(keys),
                    "default_require_idempotency"@ => json::flag_nodes(true),
                    "allowed_environments"@ => json::text_array_nodes(seq!["live"@, "test"@]),
                    "allowed_scopes"@ => json::text_array_nodes(api_keys::allowed_scopes()),
                ],
            ),
        ),
    }
}

/// The answer to a request for the list of keys.
pub fn customer_api_keys_json(outcome: CallOutcome<AuthKeyListResponse>, org_id: &str) -> (r: Reply)
    ensures
        r@ == list_reply(listed(outcome, org_id@)),
{
    let keys = match list_outcome(outcome, org_id) {
        Ok(keys) => keys,
        Err(refused) => return refused,
    };
    let mut environments: Vec<&str> = Vec::new();
    environments.push("live");
    environments.push("test");
    assert(text::slice_views(environments@) =~= seq!["live"@, "test"@]);
    reply::no_store_json(
        200,
        JsonObject::new()
            .with("api_keys", json::array(keys))
            .with("default_require_idempotency", json::flag(true))
            .with("allowed_environments", json::text_array(&environments))
            .with("allowed_scopes", json::text_array(&api_keys::allowed_api_key_scopes()))
            .finish(),
    )
}

// The catch-up of a browser's own copy.

/// What a browser's request to catch up on a table leads to: keys are the one table there is.
pub open spec fn catchup_plan(caller: Caller, table: Seq<char>) -> Result<PlanView, ReplyView> {
    if table == "api_keys"@ {
        list_plan(caller, None)
    } else {
        Err(
            reply::json_reply(
                404,
                json::object_nodes(
                    reply::refusal_members("unsupported_sync_table"@).insert(
                        "table"@,
                        json::text_nodes(table),
                    ),
                ),
            ),
        )
    }
}

/// What a browser's request to catch up on a table leads to.
pub fn plan_catchup(caller: &Caller, table: &str) -> (r: Result<KeyPlan, Reply>)
    ensures
        plan_view(r) == catchup_plan(*caller, table@),
{
    if text::same(table, "api_keys") {
        plan_list(caller, None)
    } else {
        Err(
            reply::json_answer(
                404,
                JsonObject::new()
                    .with("ok", json::flag(false))
                    .with("error", json::string("unsupported_sync_table"))
                    .with("table", json::string(table))
                    .finish(),
            ),
        )
    }
}

/// The answer to a request to catch up: always the whole table, whatever the browser has.
pub open spec fn catchup_reply(
    table: Seq<char>,
    since: int,
    rows: Result<Seq<JsonNodes>, ReplyView>,
) -> ReplyView {
    match rows {
        Err(refused) => refused,
        Ok(rows) => reply::private_reply(
            200,
            json::object_nodes(
                map![
                    "table"@ => json::text_nodes(table),
                    "snapshot"@ => json::flag_nodes(true),
                    "requested_since"@ => json::integer_nodes(since),
                    "rows"@ => json::array_nodes(rows),
                ],
            ),
        ),
    }
}

/// The answer to a request to catch up on the keys.
pub fn sync_catchup(
    table: &str,
    since: i64,
    outcome: CallOutcome<AuthKeyListResponse>,
    org_id: &str,
) -> (r: Reply)
    ensures
        r@ == catchup_reply(table@, since as int, listed(outcome, org_id@)),
{
    let rows = match list_outcome(outcome, org_id) {
        Ok(rows) => rows,
        Err(refused) => return refused,
    };
    reply::no_store_json(
        200,
        JsonObject::new()
            .with("table", json::string(table))
            .with("snapshot", json::flag(true))
            .with("requested_since", json::signed(since))
            .with("rows", json::array(rows))
            .finish(),
    )
}

// A new key.

/// What is wrong with a request for a new key, if anything is.
pub open spec fn request_fault(payload: RequestView) -> Option<Seq<char>> {
    let name = text::trimmed(payload.name);
    if name.len() == 0 {
        Some("name_required"@)
    } else if name.len() > api_keys::MAX_API_KEY_NAME_CHARS {
        Some("name_too_long"@)
    } else if !api_keys::is_environment(payload.environment) {
        Some("invalid_environment"@)
    } else if !api_keys::allowed_scopes().contains(payload.scope) {
        Some("invalid_scope"@)
    } else {
        None
    }
}

/// What is wrong with a request for a new key, if anything is.
pub fn validate_api_key_request(payload: &CreateCustomerApiKeyRequest) -> (r: Option<&'static str>)
    ensures
        text::opt_str_view(r) == request_fault(payload@),
{
    let name = text::trim(payload.name.as_str());
    if name.is_empty() {
        return Some("name_required");
    }
    if name.unicode_len() > api_keys::MAX_API_KEY_NAME_CHARS {
        return Some("name_too_long");
    }
    let environment = payload.environment.as_str();
    if !(text::same(environment, "live") || text::same(environment, "test")) {
        return Some("invalid_environment");
    }
    if !text::one_of(&api_keys::allowed_api_key_scopes(), payload.scope.as_str()) {
        return Some("invalid_scope");
    }
    None
}

/// The request for a new key that a form makes: the key is always one for repeatable requests.
pub fn form_request(name: String, environment: String, scope: String) -> (r:
    CreateCustomerApiKeyRequest)
    ensures
        r@ == (RequestView {
            name: name@,
            environment: environment@,
            scope: scope@,
            require_idempotency: Some(true),
        }),
{
    CreateCustomerApiKeyRequest { name, environment, scope, require_idempotency: Some(true) }
}

/// What the authority is sent for a new key.
pub open spec fn issue_body(payload: RequestView, org_id: Seq<char>) -> JsonNodes {
    json::object_nodes(
        map![
            "name"@ => json::text_nodes(text::trimmed(payload.name)),
            "org_id"@ => json::text_nodes(org_id),
            "scopes"@ => json::text_array_nodes(seq![payload.scope]),
            "env"@ => json::text_nodes(payload.environment),
            "require_idempotency"@ => json::flag_nodes(
                match payload.require_idempotency {
                    Some(b) => b,
                    None => true,
                },
            ),
        ],
    )
}

/// The call for a new key.
pub open spec fn issue_plan(caller: Caller, payload: RequestView) -> Result<PlanView, ReplyView> {
    match orgs::required_key(orgs::key_header(*caller.headers)) {
        Err(refused) => Err(refused),
        Ok(_) => match request_fault(payload) {
            Some(code) => Err(reply::refusal(400, code)),
            None => match callers_org(caller, None) {
                Err(refused) => Err(refused),
                Ok(org) => planned(
                    caller,
                    org,
                    Verb::Post,
                    "/v1/keys"@,
                    Some(issue_body(payload, org)),
                ),
            },
        },
    }
}

/// The call for a new key.
pub fn plan_issue(caller: &Caller, payload: &CreateCustomerApiKeyRequest) -> (r: Result<
    KeyPlan,
    Reply,
>)
    ensures
        plan_view(r) == issue_plan(*caller, payload@),
{
    if let Err(refused) = orgs::require_idempotency_key(caller.headers) {
        return Err(refused);
    }
    if let Some(code) = validate_api_key_request(payload) {
        return Err(reply::deny(400, code));
    }
    let org_id = match orgs::selected_customer_org(caller.customer, caller.headers) {
        Ok(org_id) => org_id,
        Err(refused) => return Err(refused),
    };
    let mut scopes: Vec<&str> = Vec::new();
    scopes.push(payload.scope.as_str());
    assert(text::slice_views(scopes@) =~= seq![payload@.scope]);
    let replay_safe = match payload.require_idempotency {
        Some(b) => b,
        None => true,
    };
    let body = JsonObject::new()
        .with("name", json::string(text::trim(payload.name.as_str())))
        .with("org_id", json::string(org_id.as_str()))
        .with("scopes", json::text_array(&scopes))
        .with("env", json::string(payload.environment.as_str()))
        .with("require_idempotency", json::flag(replay_safe))
        .finish();
    plan_call(caller, org_id, Verb::Post, "/v1/keys", Some(body))
}

/// A key that the authority hands out: what is shown of it, and its plaintext. The two must
/// agree, and the key must be the organisation's own.
pub open spec fn handed_out(
    api_key: Seq<char>,
    key: KeyView,
    org_id: Seq<char>,
    bad_body: Seq<char>,
) -> Result<(JsonNodes, Seq<char>), ReplyView> {
    if api_keys::raw_matches(api_key, key) && api_keys::is_showable(key, org_id) {
        Ok((api_keys::shown(key), api_key))
    } else {
        Err(reply::outage(upstream::KEY_AUTHORITY@, bad_body))
    }
}

/// What is shown of a key that the authority hands out.
fn take_key(api_key: &str, key: &AuthKeyMeta, org_id: &str, bad_body: &str) -> (r: Result<
    serde_json::Value,
    Reply,
>)
    ensures
        match r {
            Ok(display) => handed_out(api_key@, key@, org_id@, bad_body@) == Ok::<
                (JsonNodes, Seq<char>),
                ReplyView,
            >((json::json_nodes(display), api_key@)),
            Err(refused) => handed_out(api_key@, key@, org_id@, bad_body@) == Err::<
                (JsonNodes, Seq<char>),
                ReplyView,
            >(refused@),
        },
{
    if !api_keys::raw_api_key_matches(api_key, key) {
        return Err(reply::dependency_error(upstream::KEY_AUTHORITY, bad_body));
    }
    match api_keys::auth_key_to_display(key, org_id) {
        Ok(display) => Ok(display),
        Err(_) => Err(reply::dependency_error(upstream::KEY_AUTHORITY, bad_body)),
    }
}

/// What the authority's answer to a request for a new key comes to.
pub open spec fn issued(outcome: CallOutcome<AuthKeyCreateResponse>, org_id: Seq<char>) -> Result<
    (JsonNodes, Seq<char>),
    ReplyView,
> {
    match upstream::settled(outcome, "auth_key_create_bad_response"@) {
        Err(refused) => Err(refused),
        Ok(response) => handed_out(
            response.api_key@,
            response.key@,
            org_id,
            "auth_key_create_bad_response"@,
        ),
    }
}

/// The new key, as it is shown and in plaintext.
pub fn issue_customer_api_key(
    outcome: CallOutcome<AuthKeyCreateResponse>,
    org_id: &str,
) -> (r: Result<(serde_json::Value, String), Reply>)
    ensures
        match r {
            Ok((display, secret)) => issued(outcome, org_id@) == Ok::<
                (JsonNodes, Seq<char>),
                ReplyView,
            >((json::json_nodes(display), secret@)),
            Err(refused) => issued(outcome, org_id@) == Err::<(JsonNodes, Seq<char>), ReplyView>(
                refused@,
            ),
        },
{
    let response = match upstream::auth_json(outcome, "auth_key_create_bad_response") {
        Ok(response) => response,
        Err(refused) => return Err(refused),
    };
    match take_key(
        response.api_key.as_str(),
        &response.key,
        org_id,
        "auth_key_create_bad_response",
    ) {
        Ok(display) => Ok((display, response.api_key)),
        Err(refused) => Err(refused),
    }
}

/// The answer to a request for a new key.
pub open spec fn issue_reply(issued: Result<(JsonNodes, Seq<char>), ReplyView>) -> ReplyView {
    match issued {
        Err(refused) => refused,
        Ok((display, secret)) => reply::private_reply(
            201,
            json::object_nodes(
                map![
                    "ok"@ => json::flag_nodes(true),
                    "api_key"@ => display,
                    "secret"@ => json::text_nodes(secret),
                    "secret_once"@ => json::flag_nodes(true),
                ],
            ),
        ),
    }
}

/// The answer to a request for a new key.
pub fn create_customer_api_key(outcome: CallOutcome<AuthKeyCreateResponse>, org_id: &str) -> (r:
    Reply)
    ensures
        r@ == issue_reply(issued(outcome, org_id@)),
{
    match issue_customer_api_key(outcome, org_id) {
        Err(refused) => refused,
        Ok((display, secret)) => reply::no_store_json(
            201,
            JsonObject::new()
                .with("ok", json::flag(true))
                .with("api_key", display)
                .with("secret", json::string(secret.as_str()))
                .with("secret_once", json::flag(true))
                .finish(),
        ),
    }
}

// The rotation and the revocation of a key.

/// The call about one key of the caller's organisation, named by its prefix.
pub open spec fn key_plan(
    caller: Caller,
    prefix: Seq<char>,
    verb: Verb,
    action: Seq<char>,
    body: Option<JsonNodes>,
) -> Result<PlanView, ReplyView> {
    match orgs::required_key(orgs::key_header(*caller.headers)) {
        Err(refused) => Err(refused),
        Ok(_) => match api_keys::id_in_prefix(prefix) {
            None => Err(reply::refusal(400, "invalid_key_prefix"@)),
            Some(id) => match callers_org(caller, None) {
                Err(refused) => Err(refused),
                Ok(org) => planned(
                    caller,
                    org,
                    verb,
                    "/v1/keys/"@ + escaped(id) + action + "?org_id="@ + escaped(org),
                    body,
                ),
            },
        },
    }
}

/// The call about one key of the caller's organisation, named by its prefix.
fn plan_for_key(
    caller: &Caller,
    prefix: &str,
    verb: Verb,
    action: &str,
    body: Option<serde_json::Value>,
) -> (r: Result<KeyPlan, Reply>)
    ensures
        plan_view(r) == key_plan(*caller, prefix@, verb, action@, upstream::opt_nodes(body)),
{
    if let Err(refused) = orgs::require_idempotency_key(caller.headers) {
        return Err(refused);
    }
    let id = match api_keys::auth_key_id_from_prefix(prefix) {
        Some(id) => id,
        None => return Err(reply::deny(400, "invalid_key_prefix")),
    };
    let org_id = match orgs::selected_customer_org(caller.customer, caller.headers) {
        Ok(org_id) => org_id,
        Err(refused) => return Err(refused),
    };
    let mut path = "/v1/keys/".to_owned();
    path.append(percent::encode_query_value(id).as_str());
    path.append(action);
    path.append("?org_id=");
    path.append(percent::encode_query_value(org_id.as_str()).as_str());
    plan_call(caller, org_id, verb, path.as_str(), body)
}

/// The call for the rotation of a key.
pub open spec fn rotate_plan(caller: Caller, prefix: Seq<char>) -> Result<PlanView, ReplyView> {
    key_plan(
        caller,
        text::trimmed(prefix),
        Verb::Post,
        "/rotate"@,
        Some(json::object_nodes(Map::empty())),
    )
}

/// The call for the rotation of a key.
pub fn plan_rotate(caller: &Caller, prefix: &str) -> (r: Result<KeyPlan, Reply>)
    ensures
        plan_view(r) == rotate_plan(*caller, prefix@),
{
    plan_for_key(
        caller,
        text::trim(prefix),
        Verb::Post,
        "/rotate",
        Some(JsonObject::new().finish()),
    )
}

/// The call for the revocation of a key.
pub open spec fn revoke_plan(caller: Caller, prefix: Seq<char>) -> Result<PlanView, ReplyView> {
    key_plan(caller, text::trimmed(prefix), Verb::Delete, ""@, None)
}

/// The call for the revocation of a key.
pub fn plan_revoke(caller: &Caller, prefix: &str) -> (r: Result<KeyPlan, Reply>)
    ensures
        plan_view(r) == revoke_plan(*caller, prefix@),
{
    plan_for_key(caller, text::trim(prefix), Verb::Delete, "", None)
}

/// What the authority's answer to the rotation of a key comes to.
pub open spec fn rotated(outcome: CallOutcome<AuthKeyRotateResponse>, org_id: Seq<char>) -> Result<
    (JsonNodes, Seq<char>, u64),
    ReplyView,
> {
    match upstream::settled(outcome, "auth_key_rotate_bad_response"@) {
        Err(refused) => Err(refused),
        Ok(response) => match handed_out(
            response.api_key@,
            response.key@,
            org_id,
            "auth_key_rotate_bad_response"@,
        ) {
            Err(refused) => Err(refused),
            Ok((display, secret)) => Ok((display, secret, response.overlap_seconds)),
        },
    }
}

/// The key after its rotation: as it is shown, its new plaintext, and for how long the old
/// one stays valid.
pub fn rotate_customer_api_key_authority(
    outcome: CallOutcome<AuthKeyRotateResponse>,
    org_id: &str,
) -> (r: Result<(serde_json::Value, String, u64), Reply>)
    ensures
        match r {
            Ok((display, secret, overlap)) => rotated(outcome, org_id@) == Ok::<
                (JsonNodes, Seq<char>, u64),
                ReplyView,
            >((json::json_nodes(display), secret@, overlap)),
            Err(refused) => rotated(outcome, org_id@) == Err::<
                (JsonNodes, Seq<char>, u64),
                ReplyView,
            >(refused@),
        },
{
    let response = match upstream::auth_json(outcome, "auth_key_rotate_bad_response") {
        Ok(response) => response,
        Err(refused) => return Err(refused),
    };
    match take_key(
        response.api_key.as_str(),
        &response.key,
        org_id,
        "auth_key_rotate_bad_response",
    ) {
        Ok(display) => Ok((display, response.api_key, response.overlap_seconds)),
        Err(refused) => Err(refused),
    }
}

/// The answer to the rotation of a key.
pub open spec fn rotate_reply(
    prefix: Seq<char>,
    now_ms: int,
    rotated: Result<(JsonNodes, Seq<char>, u64), ReplyView>,
) -> ReplyView {
    match rotated {
        Err(refused) => refused,
        Ok((display, secret, overlap)) => reply::private_reply(
            200,
            json::object_nodes(
                map![
                    "ok"@ => json::flag_nodes(true),
                    "prefix"@ => json::text_nodes(text::trimmed(prefix)),
                    "rotated_at_ms"@ => json::integer_nodes(now_ms),
                    "replacement_secret"@ => json::text_nodes(secret),
                    "api_key"@ => display,
                    "overlap_seconds"@ => json::integer_nodes(overlap as int),
                ],
            ),
        ),
    }
}

/// The answer to the rotation of a key, at `now_ms` milliseconds after the Unix epoch.
pub fn rotate_customer_api_key(
    prefix: &str,
    now_ms: u64,
    outcome: CallOutcome<AuthKeyRotateResponse>,
    org_id: &str,
) -> (r: Reply)
    ensures
        r@ == rotate_reply(prefix@, now_ms as int, rotated(outcome, org_id@)),
{
    match rotate_customer_api_key_authority(outcome, org_id) {
        Err(refused) => refused,
        Ok((display, secret, overlap)) => reply::no_store_json(
            200,
            JsonObject::new()
                .with("ok", json::flag(true))
                .with("prefix", json::string(text::trim(prefix)))
                .with("rotated_at_ms", json::unsigned(now_ms))
                .with("replacement_secret", json::string(secret.as_str()))
                .with("api_key", display)
                .with("overlap_seconds", json::unsigned(overlap))
                .finish(),
        ),
    }
}

/// What the authority's answer to the revocation of a key comes to.
pub open spec fn revoked(outcome: CallOutcome<AuthKeyRevokeResponse>) -> Result<(), ReplyView> {
    match upstream::settled(outcome, "auth_key_revoke_bad_response"@) {
        Err(refused) => Err(refused),
        Ok(response) => if response.revoked {
            Ok(())
        } else {
            Err(reply::refusal(404, "key_not_found"@))
        },
    }
}

/// Whether the key was revoked.
pub fn revoke_customer_api_key_authority(outcome: CallOutcome<AuthKeyRevokeResponse>) -> (r: Result<
    (),
    Reply,
>)
    ensures
        match r {
            Ok(done) => revoked(outcome) == Ok::<(), ReplyView>(done),
            Err(refused) => revoked(outcome) == Err::<(), ReplyView>(refused@),
        },
{
    let response = match upstream::auth_json(outcome, "auth_key_revoke_bad_response") {
        Ok(response) => response,
        Err(refused) => return Err(refused),
    };
    if !response.revoked {
        return Err(reply::deny(404, "key_not_found"));
    }
    Ok(())
}

/// The answer to the revocation of a key.
pub open spec fn revoke_reply(prefix: Seq<char>, revoked: Result<(), ReplyView>) -> ReplyView {
    match revoked {
        Err(refused) => refused,
        Ok(_) => reply::private_reply(
            200,
            json::object_nodes(
                map![
                    "ok"@ => json::flag_nodes(true),
                    "prefix"@ => json::text_nodes(text::trimmed(prefix)),
                    "status"@ => json::text_nodes("revoked"@),
                ],
            ),
        ),
    }
}

/// The answer to the revocation of a key.
pub fn revoke_customer_api_key(
    prefix: &str,
    outcome: CallOutcome<AuthKeyRevokeResponse>,
) -> (r: Reply)
    ensures
        r@ == revoke_reply(prefix@, revoked(outcome)),
{
    match revoke_customer_api_key_authority(outcome) {
        Err(refused) => refused,
        Ok(_) => reply::no_store_json(
            200,
            JsonObject::new()
                .with("ok", json::flag(true))
                .with("prefix", json::string(text::trim(prefix)))
                .with("status", json::string("revoked"))
                .finish(),
        ),
    }
}

// Changes, once the request was checked.

/// The call for a new key, where the checks of the request let it pass.
pub fn begin_create(
    caller: &Caller,
    check: Result<(), String>,
    payload: &CreateCustomerApiKeyRequest,
) -> (r: Result<KeyPlan, Reply>)
    ensures
        plan_view(r) == security::cleared(
            security::check_view(check),
            issue_plan(*caller, payload@),
        ),
{
    match security::require_clearance(check) {
        Ok(_) => plan_issue(caller, payload),
        Err(refused) => Err(refused),
    }
}

/// The call for the rotation of a key, where the checks of the request let it pass.
pub fn begin_rotate(caller: &Caller, check: Result<(), String>, prefix: &str) -> (r: Result<
    KeyPlan,
    Reply,
>)
    ensures
        plan_view(r) == security::cleared(
            security::check_view(check),
            rotate_plan(*caller, prefix@),
        ),
{
    match security::require_clearance(check) {
        Ok(_) => plan_rotate(caller, prefix),
        Err(refused) => Err(refused),
    }
}

/// The call for the revocation of a key, where the checks of the request let it pass.
pub fn begin_revoke(caller: &Caller, check: Result<(), String>, prefix: &str) -> (r: Result<
    KeyPlan,
    Reply,
>)
    ensures
        plan_view(r) == security::cleared(
            security::check_view(check),
            revoke_plan(*caller, prefix@),
        ),
{
    match security::require_clearance(check) {
        Ok(_) => plan_revoke(caller, prefix),
        Err(refused) => Err(refused),
    }
}

/// The headers with which a form about keys is acted on, where the checks of the request let it
/// pass. There are none where the request has so many headers that no more can be added.
pub fn begin_form(
    check: Result<(), String>,
    headers: HeaderMap,
    customer: &CustomerCtx,
    org_id: &str,
    idempotency_key: &str,
) -> (r: Option<Result<HeaderMap, Reply>>)
    ensures
        ({
            let expected = security::cleared(
                security::check_view(check),
                orgs::form_headers(
                    headers::header_contents(headers),
                    customer@.orgs,
                    org_id@,
                    idempotency_key@,
                ),
            );
            match r {
                Some(Ok(out)) => expected matches Ok(contents) && headers::header_contents(out)
                    == contents,
                Some(Err(refused)) => expected matches Err(refusal) && refused@ == refusal,
                None => !headers::has_room(headers, 2) && security::check_view(check) is None,
            }
        }),
{
    match security::require_clearance(check) {
        Ok(_) => orgs::form_mutation_headers(headers, customer, org_id, idempotency_key),
        Err(refused) => Some(Err(refused)),
    }
}

} // verus!
