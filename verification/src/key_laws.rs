//! What requests about API keys guarantee.

use vstd::prelude::*;
use vstd::string::*;

use crate::answer_laws;
use crate::api_keys;
use crate::api_keys::{
    AuthKeyCreateResponse, AuthKeyListResponse, AuthKeyRevokeResponse, AuthKeyRotateResponse, KeyView,
    RequestView,
};
use crate::auth;
use crate::json;
use crate::json::JsonNodes;
use crate::key_requests;
use crate::key_requests::Caller;
use crate::orgs;
use crate::orgs_laws;
use crate::percent;
use crate::reply::ReplyView;
use crate::text;
use crate::text_laws;
use crate::upstream;
use crate::upstream::{CallOutcome, Verb};

verus! {

/// The prefix that is shown of a key names that key.
pub proof fn law_prefix_names_its_key(env: Seq<char>, key_id: Seq<char>)
    requires
        api_keys::is_environment(env),
        api_keys::is_key_id(key_id),
    ensures
        api_keys::id_in_prefix(api_keys::prefix_of(env, key_id)) == Some(key_id),
{
    reveal_strlit("fdc_");
    reveal_strlit("_");
    reveal_strlit("live");
    reveal_strlit("test");
    let whole = api_keys::prefix_of(env, key_id);
    assert(whole.subrange(0, 4) =~= "fdc_"@);
    let rest = whole.skip(4);
    assert(rest =~= env + "_"@ + key_id);
    assert(rest[env.len() as int] == '_');
    assert forall|i: int| 0 <= i < env.len() implies rest[i] != '_' by {
        assert(rest[i] == env[i]);
    }
    text::lemma_first_position_is(rest, '_', env.len() as int);
    assert(rest.take(env.len() as int) =~= env);
    assert(rest.skip(env.len() as int + 1) =~= key_id);
}

/// A list shows the keys of the organisation it was asked for and of no other, and either all
/// of them or none.
pub proof fn law_lists_show_only_the_organisations_keys(
    outcome: CallOutcome<AuthKeyListResponse>,
    org_id: Seq<char>,
)
    ensures
        key_requests::listed(outcome, org_id) matches Ok(shown) ==> {
            &&& outcome matches CallOutcome::Answered { status, body, decoded: Some(response) }
                && shown.len() == response.keys@.len() && forall|i: int|
                0 <= i < response.keys@.len() ==> (#[trigger] response.keys@[i])@.org_id == org_id
        },
{
    match key_requests::listed(outcome, org_id) {
        Ok(shown) => {
            match outcome {
                CallOutcome::Answered { status, body, decoded: Some(response) } => {
                    let all = key_requests::key_views(response.keys@);
                    assert forall|i: int| 0 <= i < response.keys@.len() implies (
                    #[trigger] response.keys@[i])@.org_id == org_id by {
                        assert(api_keys::is_showable(all[i], org_id));
                    }
                },
                _ => {},
            }
        },
        Err(_) => {},
    }
}

/// A plaintext that is handed out, for a new key or a rotated one, is that of the key shown
/// with it, and that key belongs to the organisation that asked.
pub proof fn law_secrets_go_with_their_key(
    created: CallOutcome<AuthKeyCreateResponse>,
    rotated: CallOutcome<AuthKeyRotateResponse>,
    org_id: Seq<char>,
)
    ensures
        key_requests::issued(created, org_id) matches Ok((shown, secret)) ==> {
            &&& created matches CallOutcome::Answered { status, body, decoded: Some(response) }
                && shown == api_keys::shown(response.key@) && response.key@.org_id == org_id
                && api_keys::prefix_of(response.key@.env, response.key@.key_id).is_prefix_of(secret)
        },
        key_requests::rotated(rotated, org_id) matches Ok((shown, secret, overlap)) ==> {
            &&& rotated matches CallOutcome::Answered { status, body, decoded: Some(response) }
                && shown == api_keys::shown(response.key@) && response.key@.org_id == org_id
                && api_keys::prefix_of(response.key@.env, response.key@.key_id).is_prefix_of(secret)
        },
{
    match key_requests::issued(created, org_id) {
        Ok((shown, secret)) => match created {
            CallOutcome::Answered { status, body, decoded: Some(response) } => {
                lemma_prefix_of_prefix(
                    api_keys::prefix_of(response.key@.env, response.key@.key_id),
                    "."@,
                    secret,
                );
            },
            _ => {},
        },
        Err(_) => {},
    }
    match key_requests::rotated(rotated, org_id) {
        Ok((shown, secret, overlap)) => match rotated {
            CallOutcome::Answered { status, body, decoded: Some(response) } => {
                lemma_prefix_of_prefix(
                    api_keys::prefix_of(response.key@.env, response.key@.key_id),
                    "."@,
                    secret,
                );
            },
            _ => {},
        },
        Err(_) => {},
    }
}

/// A beginning of a beginning is a beginning.
proof fn lemma_prefix_of_prefix(a: Seq<char>, b: Seq<char>, s: Seq<char>)
    requires
        (a + b).is_prefix_of(s),
    ensures
        a.is_prefix_of(s),
{
    let n = (a + b).len() as int;
    assert(s.subrange(0, a.len() as int) =~= s.subrange(0, n).subrange(0, a.len() as int));
    assert((a + b).subrange(0, a.len() as int) =~= a);
}

/// Every call is made for an organisation that the caller is a member of, with the credential
/// that the caller presented.
pub proof fn law_calls_stay_with_the_caller(
    caller: Caller,
    explicit_org: Option<Seq<char>>,
    payload: RequestView,
    prefix: Seq<char>,
)
    ensures
        key_requests::list_plan(caller, explicit_org) matches Ok(plan) ==> is_callers(caller, plan),
        key_requests::issue_plan(caller, payload) matches Ok(plan) ==> is_callers(caller, plan),
        key_requests::rotate_plan(caller, prefix) matches Ok(plan) ==> is_callers(caller, plan),
        key_requests::revoke_plan(caller, prefix) matches Ok(plan) ==> is_callers(caller, plan),
{
    let orgs = caller.customer@.orgs;
    let header = orgs::org_header(*caller.headers);
    orgs_laws::law_selection_stays_within_memberships(orgs, header, explicit_org);
    orgs_laws::law_selection_stays_within_memberships(orgs, header, None);
}

/// A call that is made for one of the caller's organisations, with the caller's credential.
pub open spec fn is_callers(caller: Caller, plan: key_requests::PlanView) -> bool {
    &&& caller.customer@.orgs.contains(plan.org_id)
    &&& auth::token_of(auth::presented(*caller.headers, caller.release_hardened)) == Some(
        plan.call.token,
    )
}

/// No key is created, rotated or revoked without a well-formed idempotency key, and the
/// authority is given that key.
pub proof fn law_mutations_are_replay_safe(caller: Caller, payload: RequestView, prefix: Seq<char>)
    ensures
        key_requests::issue_plan(caller, payload) matches Ok(plan) ==> is_replay_safe(caller, plan),
        key_requests::rotate_plan(caller, prefix) matches Ok(plan) ==> is_replay_safe(caller, plan),
        key_requests::revoke_plan(caller, prefix) matches Ok(plan) ==> is_replay_safe(caller, plan),
{
}

/// A call that carries the caller's well-formed idempotency key.
pub open spec fn is_replay_safe(caller: Caller, plan: key_requests::PlanView) -> bool {
    &&& plan.call.idempotency_key == orgs::key_header(*caller.headers)
    &&& plan.call.idempotency_key matches Some(key) && orgs::is_idempotency_key(key)
}

/// An answer that holds a plaintext key may be kept by no cache.
pub proof fn law_secrets_are_never_cached(
    created: CallOutcome<AuthKeyCreateResponse>,
    rotated: CallOutcome<AuthKeyRotateResponse>,
    org_id: Seq<char>,
    prefix: Seq<char>,
    now_ms: int,
)
    ensures
        key_requests::issued(created, org_id) is Ok ==> key_requests::issue_reply(
            key_requests::issued(created, org_id),
        ).no_store,
        key_requests::rotated(rotated, org_id) is Ok ==> key_requests::rotate_reply(
            prefix,
            now_ms,
            key_requests::rotated(rotated, org_id),
        ).no_store,
{
}

/// The seven kinds of things that a scope is about.
pub open spec fn is_resource(s: Seq<char>) -> bool {
    ||| s == "requests"@
    ||| s == "locks"@
    ||| s == "kv"@
    ||| s == "services"@
    ||| s == "elections"@
    ||| s == "cron"@
    ||| s == "rate-limit"@
}

/// A scope is a kind of thing and whether it may be read or written: there are no others.
pub proof fn law_scopes_are_to_read_or_to_write(resource: Seq<char>, s: Seq<char>)
    ensures
        is_resource(resource) ==> api_keys::allowed_scopes().contains(resource + ":read"@)
            && api_keys::allowed_scopes().contains(resource + ":write"@),
        api_keys::allowed_scopes().contains(s) ==> exists|r: Seq<char>|
            #[trigger] is_resource(r) && (s == r + ":read"@ || s == r + ":write"@),
{
    reveal_strlit(":read");
    reveal_strlit(":write");
    reveal_strlit("requests");
    reveal_strlit("locks");
    reveal_strlit("kv");
    reveal_strlit("services");
    reveal_strlit("elections");
    reveal_strlit("cron");
    reveal_strlit("rate-limit");
    reveal_strlit("requests:read");
    reveal_strlit("requests:write");
    reveal_strlit("locks:read");
    reveal_strlit("locks:write");
    reveal_strlit("kv:read");
    reveal_strlit("kv:write");
    reveal_strlit("services:read");
    reveal_strlit("services:write");
    reveal_strlit("elections:read");
    reveal_strlit("elections:write");
    reveal_strlit("cron:read");
    reveal_strlit("cron:write");
    reveal_strlit("rate-limit:read");
    reveal_strlit("rate-limit:write");
    assert(api_keys::allowed_scopes()[0] =~= "requests"@ + ":read"@);
    assert(api_keys::allowed_scopes()[1] =~= "requests"@ + ":write"@);
    assert(api_keys::allowed_scopes()[2] =~= "locks"@ + ":read"@);
    assert(api_keys::allowed_scopes()[3] =~= "locks"@ + ":write"@);
    assert(api_keys::allowed_scopes()[4] =~= "kv"@ + ":read"@);
    assert(api_keys::allowed_scopes()[5] =~= "kv"@ + ":write"@);
    assert(api_keys::allowed_scopes()[6] =~= "services"@ + ":read"@);
    assert(api_keys::allowed_scopes()[7] =~= "services"@ + ":write"@);
    assert(api_keys::allowed_scopes()[8] =~= "elections"@ + ":read"@);
    assert(api_keys::allowed_scopes()[9] =~= "elections"@ + ":write"@);
    assert(api_keys::allowed_scopes()[10] =~= "cron"@ + ":read"@);
    assert(api_keys::allowed_scopes()[11] =~= "cron"@ + ":write"@);
    assert(api_keys::allowed_scopes()[12] =~= "rate-limit"@ + ":read"@);
    assert(api_keys::allowed_scopes()[13] =~= "rate-limit"@ + ":write"@);
    assert(is_resource("requests"@));
    assert(is_resource("locks"@));
    assert(is_resource("kv"@));
    assert(is_resource("services"@));
    assert(is_resource("elections"@));
    assert(is_resource("cron"@));
    assert(is_resource("rate-limit"@));
    let all = api_keys::allowed_scopes();
    if all.contains(s) {
        let i = choose|i: int| 0 <= i < all.len() && all[i] == s;
        assert(all[i] == s);
    }
}

/// A key belongs to one of two environments, and its id is 16 lower-case hexadecimal digits.
pub proof fn law_environments_and_ids(s: Seq<char>)
    ensures
        api_keys::is_environment(s) <==> s == "live"@ || s == "test"@,
        api_keys::is_key_id(s) <==> s.len() == 16 && forall|i: int|
            0 <= i < s.len() ==> ('0' as u32 <= #[trigger] s[i] as u32 <= '9' as u32 || 'a' as u32
                <= s[i] as u32 <= 'f' as u32),
{
    if api_keys::is_key_id(s) {
        assert forall|i: int| 0 <= i < s.len() implies ('0' as u32 <= #[trigger] s[i] as u32
            <= '9' as u32 || 'a' as u32 <= s[i] as u32 <= 'f' as u32) by {
            assert(text::is_lower_hex(s[i]));
        }
    }
}

/// A prefix names a key exactly where it is made of the mark, an environment and the key's id.
pub proof fn law_prefixes_are_made_of_their_parts(prefix: Seq<char>, key_id: Seq<char>)
    ensures
        api_keys::id_in_prefix(prefix) == Some(key_id) <==> api_keys::is_key_id(key_id) && (prefix
            == "fdc_"@ + "live"@ + "_"@ + key_id || prefix == "fdc_"@ + "test"@ + "_"@ + key_id),
{
    if api_keys::id_in_prefix(prefix) == Some(key_id) {
        let rest = text::suffix_after(prefix, "fdc_"@)->0;
        text_laws::law_prefixes_are_taken_off("fdc_"@, rest, prefix);
        let (env, id) = text::cut_once(rest, '_')->0;
        text::lemma_first_position(rest, '_');
        reveal_strlit("_");
        assert(rest =~= env + "_"@ + id);
        assert(prefix =~= "fdc_"@ + env + "_"@ + key_id);
    }
    if api_keys::is_key_id(key_id) {
        law_prefix_names_its_key("live"@, key_id);
        law_prefix_names_its_key("test"@, key_id);
    }
}

/// A plaintext is that of a key exactly where it is the key's prefix, a full stop and 64
/// lower-case hexadecimal digits.
pub proof fn law_plaintexts_are_made_of_their_parts(raw: Seq<char>, key: KeyView, secret: Seq<char>)
    requires
        secret.len() == 64,
        text::all_lower_hex(secret),
    ensures
        api_keys::raw_matches(
            "fdc_"@ + key.env + "_"@ + key.key_id + "."@ + secret,
            key,
        ),
        api_keys::raw_matches(raw, key) ==> exists|t: Seq<char>|
            t.len() == 64 && text::all_lower_hex(t) && raw == #[trigger] ("fdc_"@ + key.env + "_"@
                + key.key_id + "."@ + t),
{
    let front = "fdc_"@ + key.env + "_"@ + key.key_id + "."@;
    text_laws::law_prefixes_are_taken_off(front, secret, raw);
    if api_keys::raw_matches(raw, key) {
        let t = text::suffix_after(raw, front)->0;
        assert(raw == front + t);
    }
}

/// A key is shown to an organisation exactly where it is the organisation's own and nothing about
/// it is out of order.
pub proof fn law_keys_in_order_are_shown(key: KeyView, org_id: Seq<char>)
    ensures
        api_keys::is_showable(key, org_id) <==> {
            &&& key.org_id == org_id
            &&& api_keys::is_key_id(key.key_id)
            &&& key.env == "live"@ || key.env == "test"@
            &&& key.version > 0
            &&& forall|i: int|
                0 <= i < key.scopes.len() ==> api_keys::allowed_scopes().contains(
                    #[trigger] key.scopes[i],
                )
        },
{
}

/// A request for a key is in order exactly where its trimmed name has 1 to 100 characters and its
/// environment and scope are ones that keys can have; otherwise the first fault is told, in this
/// order.
pub proof fn law_faults_of_requests_are_told(payload: RequestView)
    ensures
        ({
            let long = text::trimmed(payload.name).len();
            let env = payload.environment == "live"@ || payload.environment == "test"@;
            let scope = api_keys::allowed_scopes().contains(payload.scope);
            let fault = key_requests::request_fault(payload);
            &&& fault is None <==> 1 <= long <= 100 && env && scope
            &&& long == 0 ==> fault == Some("name_required"@)
            &&& long > 100 ==> fault == Some("name_too_long"@)
            &&& 1 <= long <= 100 && !env ==> fault == Some("invalid_environment"@)
            &&& 1 <= long <= 100 && env && !scope ==> fault == Some("invalid_scope"@)
        }),
{
}

/// The token and the idempotency key that a caller brings along.
pub open spec fn token_of_caller(caller: Caller) -> Option<Seq<char>> {
    auth::token_of(auth::presented(*caller.headers, caller.release_hardened))
}

/// Whether a plan calls the given path of the caller's authority, for the organisation, with what
/// the caller brings along.
pub open spec fn calls(
    plan: key_requests::PlanView,
    caller: Caller,
    org_id: Seq<char>,
    verb: Verb,
    path: Seq<char>,
) -> bool {
    &&& plan.org_id == org_id
    &&& plan.call.verb == verb
    &&& caller.auth_url matches Some(base) && plan.call.url == base@ + path
    &&& token_of_caller(caller) == Some(plan.call.token)
    &&& plan.call.idempotency_key == crate::headers::first_value(
        *caller.headers,
        "idempotency-key"@,
    )
}

/// The organisation that a caller acts for.
pub open spec fn org_of_caller(caller: Caller, explicit: Option<Seq<char>>) -> Result<
    Seq<char>,
    ReplyView,
> {
    orgs::selected_org(
        caller.customer@.orgs,
        crate::headers::first_value(*caller.headers, "x-fiducia-org-id"@),
        explicit,
    )
}

/// The list of keys is asked for exactly where an organisation is chosen, an authority is
/// configured and a credential is presented: by a plain read of that organisation's keys.
pub proof fn law_lists_are_asked_for(caller: Caller, explicit: Option<Seq<char>>)
    ensures
        ({
            let plan = key_requests::list_plan(caller, explicit);
            let org = org_of_caller(caller, explicit);
            &&& plan is Ok <==> org is Ok && caller.auth_url is Some && token_of_caller(
                caller,
            ) is Some
            &&& plan matches Ok(p) ==> calls(
                p,
                caller,
                org->Ok_0,
                Verb::Get,
                "/v1/keys?org_id="@ + percent::encoded(vstd::utf8::encode_utf8(org->Ok_0)),
            ) && p.call.body is None
            &&& org is Err ==> plan is Err && plan->Err_0 == org->Err_0
            &&& org is Ok && caller.auth_url is None ==> plan is Err
                && answer_laws::reports_outage(
                plan->Err_0,
                "fiducia-auth"@,
                "customer_key_authority_not_configured"@,
            )
            &&& org is Ok && caller.auth_url is Some && token_of_caller(caller) is None ==> plan is Err
                && answer_laws::refuses(plan->Err_0, 401, "missing_customer_session"@)
        }),
{
    answer_laws::law_outages_tell_their_dependency(
        "fiducia-auth"@,
        "customer_key_authority_not_configured"@,
    );
    answer_laws::law_refusals_tell_their_code(401, "missing_customer_session"@);
}

/// A new key is asked for exactly where the caller gives an idempotency key, the request is in
/// order, an organisation is chosen, an authority is configured and a credential is presented:
/// by sending the request's own fields. Otherwise the first of these that fails is told.
pub proof fn law_new_keys_are_asked_for(caller: Caller, payload: RequestView)
    ensures
        ({
            let plan = key_requests::issue_plan(caller, payload);
            let org = org_of_caller(caller, None);
            let key = orgs::required_key(orgs::key_header(*caller.headers));
            let fault = key_requests::request_fault(payload);
            &&& plan is Ok <==> key is Ok && fault is None && org is Ok && caller.auth_url is Some
                && token_of_caller(caller) is Some
            &&& plan matches Ok(p) ==> calls(p, caller, org->Ok_0, Verb::Post, "/v1/keys"@)
                && p.call.body is Some && json::member_text(p.call.body->0, "env"@) == Some(
                payload.environment,
            ) && json::member_text(p.call.body->0, "name"@) == Some(text::trimmed(payload.name))
                && json::member_text(p.call.body->0, "org_id"@) == Some(org->Ok_0)
                && json::is_text_list(
                json::member_items(p.call.body->0, "scopes"@),
                seq![payload.scope],
            )
            &&& key is Err ==> plan is Err && plan->Err_0 == key->Err_0
            &&& key is Ok && fault is Some ==> plan is Err && answer_laws::refuses(
                plan->Err_0,
                400,
                fault->0,
            )
            &&& key is Ok && fault is None && org is Err ==> plan is Err && plan->Err_0
                == org->Err_0
        }),
{
    if let Some(code) = key_requests::request_fault(payload) {
        answer_laws::law_refusals_tell_their_code(400, code);
    }
    if let Ok(org) = org_of_caller(caller, None) {
        answer_laws::law_new_keys_are_asked_for_as_requested(payload, org);
    }
}

/// A key is rotated or revoked by its own id in the caller's organisation, exactly where the
/// caller gives an idempotency key, the trimmed prefix names a key, an organisation is chosen, an
/// authority is configured and a credential is presented.
pub proof fn law_keys_are_changed_by_their_id(caller: Caller, prefix: Seq<char>)
    ensures
        ({
            let rotate = key_requests::rotate_plan(caller, prefix);
            let revoke = key_requests::revoke_plan(caller, prefix);
            let org = org_of_caller(caller, None);
            let key = orgs::required_key(orgs::key_header(*caller.headers));
            let id = api_keys::id_in_prefix(text::trimmed(prefix));
            let path = "/v1/keys/"@ + percent::encoded(vstd::utf8::encode_utf8(id->0));
            let query = "?org_id="@ + percent::encoded(vstd::utf8::encode_utf8(org->Ok_0));
            &&& rotate is Ok <==> key is Ok && id is Some && org is Ok && caller.auth_url is Some
                && token_of_caller(caller) is Some
            &&& revoke is Ok <==> rotate is Ok
            &&& rotate matches Ok(p) ==> calls(
                p,
                caller,
                org->Ok_0,
                Verb::Post,
                path + "/rotate"@ + query,
            ) && p.call.body is Some && json::has_keys(p.call.body->0, Set::empty())
            &&& revoke matches Ok(p) ==> calls(p, caller, org->Ok_0, Verb::Delete, path + query)
                && p.call.body is None
            &&& key is Err ==> rotate is Err && revoke is Err && rotate->Err_0 == key->Err_0
                && revoke->Err_0 == key->Err_0
            &&& key is Ok && id is None ==> rotate is Err && revoke is Err && answer_laws::refuses(
                rotate->Err_0,
                400,
                "invalid_key_prefix"@,
            ) && answer_laws::refuses(revoke->Err_0, 400, "invalid_key_prefix"@)
            &&& key is Ok && id is Some && org is Err ==> rotate is Err && revoke is Err
                && rotate->Err_0 == org->Err_0 && revoke->Err_0 == org->Err_0
        }),
{
    answer_laws::law_refusals_tell_their_code(400, "invalid_key_prefix"@);
    json::lemma_object_reads(Map::empty());
    reveal_strlit("");
    let org = org_of_caller(caller, None);
    let id = api_keys::id_in_prefix(text::trimmed(prefix));
    if org is Ok && id is Some {
        let path = "/v1/keys/"@ + key_requests::escaped(id->0);
        let query = "?org_id="@ + key_requests::escaped(org->Ok_0);
        assert("/v1/keys/"@ + key_requests::escaped(id->0) + "/rotate"@ + "?org_id="@
            + key_requests::escaped(org->Ok_0) =~= path + "/rotate"@ + query);
        assert("/v1/keys/"@ + key_requests::escaped(id->0) + ""@ + "?org_id="@
            + key_requests::escaped(org->Ok_0) =~= path + query);
        if let Some(base) = caller.auth_url {
            assert(base@ + (path + "/rotate"@ + query) =~= base@ + ("/v1/keys/"@
                + key_requests::escaped(id->0) + "/rotate"@ + "?org_id="@ + key_requests::escaped(
                org->Ok_0,
            )));
        }
    }
}

/// An answer of the authority gives what it was asked for exactly where it is a success that can
/// be read; any other outcome is told for what it is.
pub proof fn law_answers_of_the_authority(
    status: u16,
    body: serde_json::Value,
    response: AuthKeyRevokeResponse,
    code: Seq<char>,
)
    ensures
        200 <= status <= 299 ==> {
            &&& upstream::settled(
                CallOutcome::Answered { status, body, decoded: Some(response) },
                code,
            ) == Ok::<AuthKeyRevokeResponse, ReplyView>(response)
            &&& upstream::settled(
                CallOutcome::<AuthKeyRevokeResponse>::Answered { status, body, decoded: None },
                code,
            ) matches Err(r) && answer_laws::reports_outage(r, "fiducia-auth"@, code)
        },
        100 <= status <= 999 && !(200 <= status <= 299) ==> upstream::settled(
            CallOutcome::Answered { status, body, decoded: Some(response) },
            code,
        ) == Err::<AuthKeyRevokeResponse, ReplyView>(
            upstream::passed_on(status as int, json::json_nodes(body)),
        ),
        status < 100 || status > 999 ==> upstream::settled(
            CallOutcome::Answered { status, body, decoded: Some(response) },
            code,
        ) == Err::<AuthKeyRevokeResponse, ReplyView>(
            upstream::passed_on(502, json::json_nodes(body)),
        ),
        upstream::settled(
            CallOutcome::<AuthKeyRevokeResponse>::Unreachable,
            code,
        ) matches Err(r) && answer_laws::reports_outage(
            r,
            "fiducia-auth"@,
            "customer_key_authority_unreachable"@,
        ),
        upstream::settled(CallOutcome::<AuthKeyRevokeResponse>::NoJson, code) matches Err(r)
            && answer_laws::reports_outage(
            r,
            "fiducia-auth"@,
            "customer_key_authority_bad_response"@,
        ),
{
    answer_laws::law_outages_tell_their_dependency("fiducia-auth"@, code);
    answer_laws::law_outages_tell_their_dependency(
        "fiducia-auth"@,
        "customer_key_authority_unreachable"@,
    );
    answer_laws::law_outages_tell_their_dependency(
        "fiducia-auth"@,
        "customer_key_authority_bad_response"@,
    );
}

/// What the authority answers with success, and nothing contradicts, is handed on unchanged: each
/// key of a list as it is shown, in order; a new or rotated key as it is shown, with its own
/// plaintext; and whether a key was revoked. What contradicts itself is an outage.
pub proof fn law_good_answers_are_handed_on(
    status: u16,
    body: serde_json::Value,
    list: AuthKeyListResponse,
    created: AuthKeyCreateResponse,
    rotated: AuthKeyRotateResponse,
    revoked: AuthKeyRevokeResponse,
    org_id: Seq<char>,
)
    requires
        200 <= status <= 299,
    ensures
        ({
            let r = key_requests::listed(
                CallOutcome::Answered { status, body, decoded: Some(list) },
                org_id,
            );
            let fine = forall|i: int|
                0 <= i < list.keys@.len() ==> api_keys::is_showable(
                    (#[trigger] list.keys@[i])@,
                    org_id,
                );
            &&& r is Ok <==> fine
            &&& r matches Ok(shown) ==> shown.len() == list.keys@.len() && forall|i: int|
                0 <= i < shown.len() ==> #[trigger] shown[i] == api_keys::shown(list.keys@[i]@)
            &&& r matches Err(e) ==> answer_laws::reports_outage(
                e,
                "fiducia-auth"@,
                "auth_key_list_bad_response"@,
            )
        }),
        ({
            let r = key_requests::issued(
                CallOutcome::Answered { status, body, decoded: Some(created) },
                org_id,
            );
            let fine = api_keys::raw_matches(created.api_key@, created.key@)
                && api_keys::is_showable(created.key@, org_id);
            &&& fine ==> r == Ok::<(JsonNodes, Seq<char>), ReplyView>(
                (api_keys::shown(created.key@), created.api_key@),
            )
            &&& !fine ==> r is Err && answer_laws::reports_outage(
                r->Err_0,
                "fiducia-auth"@,
                "auth_key_create_bad_response"@,
            )
        }),
        ({
            let r = key_requests::rotated(
                CallOutcome::Answered { status, body, decoded: Some(rotated) },
                org_id,
            );
            let fine = api_keys::raw_matches(rotated.api_key@, rotated.key@)
                && api_keys::is_showable(rotated.key@, org_id);
            &&& fine ==> r == Ok::<(JsonNodes, Seq<char>, u64), ReplyView>(
                (api_keys::shown(rotated.key@), rotated.api_key@, rotated.overlap_seconds),
            )
            &&& !fine ==> r is Err && answer_laws::reports_outage(
                r->Err_0,
                "fiducia-auth"@,
                "auth_key_rotate_bad_response"@,
            )
        }),
        ({
            let r = key_requests::revoked(
                CallOutcome::Answered { status, body, decoded: Some(revoked) },
            );
            &&& revoked.revoked ==> r is Ok
            &&& !revoked.revoked ==> r is Err && answer_laws::refuses(
                r->Err_0,
                404,
                "key_not_found"@,
            )
        }),
{
    answer_laws::law_outages_tell_their_dependency(
        "fiducia-auth"@,
        "auth_key_list_bad_response"@,
    );
    answer_laws::law_outages_tell_their_dependency(
        "fiducia-auth"@,
        "auth_key_create_bad_response"@,
    );
    answer_laws::law_outages_tell_their_dependency(
        "fiducia-auth"@,
        "auth_key_rotate_bad_response"@,
    );
    answer_laws::law_refusals_tell_their_code(404, "key_not_found"@);
    let all = key_requests::key_views(list.keys@);
    assert forall|i: int| 0 <= i < all.len() implies #[trigger] all[i] == list.keys@[i]@ by {}
    if forall|i: int|
        0 <= i < list.keys@.len() ==> api_keys::is_showable(
            (#[trigger] list.keys@[i])@,
            org_id,
        ) {
        assert forall|i: int| 0 <= i < all.len() implies api_keys::is_showable(
            #[trigger] all[i],
            org_id,
        ) by {
            assert(api_keys::is_showable(list.keys@[i]@, org_id));
        }
    } else {
        let i = choose|i: int|
            0 <= i < list.keys@.len() && !api_keys::is_showable(
                (#[trigger] list.keys@[i])@,
                org_id,
            );
        assert(!api_keys::is_showable(all[i], org_id));
    }
}

/// An answer that is no success, or does not come, is told the same way whatever was asked for.
pub proof fn law_failures_are_told_alike(
    status: u16,
    body: serde_json::Value,
    list: Option<AuthKeyListResponse>,
    created: Option<AuthKeyCreateResponse>,
    rotated: Option<AuthKeyRotateResponse>,
    revoked: Option<AuthKeyRevokeResponse>,
    org_id: Seq<char>,
)
    requires
        100 <= status <= 999,
        status < 200 || status > 299,
    ensures
        ({
            let refused = upstream::passed_on(status as int, json::json_nodes(body));
            &&& key_requests::listed(
                CallOutcome::Answered { status, body, decoded: list },
                org_id,
            ) == Err::<Seq<JsonNodes>, ReplyView>(refused)
            &&& key_requests::issued(
                CallOutcome::Answered { status, body, decoded: created },
                org_id,
            ) == Err::<(JsonNodes, Seq<char>), ReplyView>(refused)
            &&& key_requests::rotated(
                CallOutcome::Answered { status, body, decoded: rotated },
                org_id,
            ) == Err::<(JsonNodes, Seq<char>, u64), ReplyView>(refused)
            &&& key_requests::revoked(
                CallOutcome::Answered { status, body, decoded: revoked },
            ) == Err::<(), ReplyView>(refused)
        }),
{
}

/// Whatever was asked for, a success that cannot be read is told as an outage with the code of
/// what was asked for; no answer, and one that is no document, are told as such.
pub proof fn law_unreadable_answers_are_outages(
    status: u16,
    body: serde_json::Value,
    org_id: Seq<char>,
)
    requires
        200 <= status <= 299,
    ensures
        key_requests::listed(
            CallOutcome::<AuthKeyListResponse>::Answered { status, body, decoded: None },
            org_id,
        ) matches Err(r) && answer_laws::reports_outage(
            r,
            "fiducia-auth"@,
            "auth_key_list_bad_response"@,
        ),
        key_requests::listed(
            CallOutcome::<AuthKeyListResponse>::Unreachable,
            org_id,
        ) matches Err(r) && answer_laws::reports_outage(
            r,
            "fiducia-auth"@,
            "customer_key_authority_unreachable"@,
        ),
        key_requests::listed(
            CallOutcome::<AuthKeyListResponse>::NoJson,
            org_id,
        ) matches Err(r) && answer_laws::reports_outage(
            r,
            "fiducia-auth"@,
            "customer_key_authority_bad_response"@,
        ),
        key_requests::issued(
            CallOutcome::<AuthKeyCreateResponse>::Answered { status, body, decoded: None },
            org_id,
        ) matches Err(r) && answer_laws::reports_outage(
            r,
            "fiducia-auth"@,
            "auth_key_create_bad_response"@,
        ),
        key_requests::issued(
            CallOutcome::<AuthKeyCreateResponse>::Unreachable,
            org_id,
        ) matches Err(r) && answer_laws::reports_outage(
            r,
            "fiducia-auth"@,
            "customer_key_authority_unreachable"@,
        ),
        key_requests::issued(
            CallOutcome::<AuthKeyCreateResponse>::NoJson,
            org_id,
        ) matches Err(r) && answer_laws::reports_outage(
            r,
            "fiducia-auth"@,
            "customer_key_authority_bad_response"@,
        ),
        key_requests::rotated(
            CallOutcome::<AuthKeyRotateResponse>::Answered { status, body, decoded: None },
            org_id,
        ) matches Err(r) && answer_laws::reports_outage(
            r,
            "fiducia-auth"@,
            "auth_key_rotate_bad_response"@,
        ),
        key_requests::rotated(
            CallOutcome::<AuthKeyRotateResponse>::Unreachable,
            org_id,
        ) matches Err(r) && answer_laws::reports_outage(
            r,
            "fiducia-auth"@,
            "customer_key_authority_unreachable"@,
        ),
        key_requests::rotated(
            CallOutcome::<AuthKeyRotateResponse>::NoJson,
            org_id,
        ) matches Err(r) && answer_laws::reports_outage(
            r,
            "fiducia-auth"@,
            "customer_key_authority_bad_response"@,
        ),
        key_requests::revoked(
            CallOutcome::<AuthKeyRevokeResponse>::Answered { status, body, decoded: None },
        ) matches Err(r) && answer_laws::reports_outage(
            r,
            "fiducia-auth"@,
            "auth_key_revoke_bad_response"@,
        ),
        key_requests::revoked(
            CallOutcome::<AuthKeyRevokeResponse>::Unreachable,
        ) matches Err(r) && answer_laws::reports_outage(
            r,
            "fiducia-auth"@,
            "customer_key_authority_unreachable"@,
        ),
        key_requests::revoked(
            CallOutcome::<AuthKeyRevokeResponse>::NoJson,
        ) matches Err(r) && answer_laws::reports_outage(
            r,
            "fiducia-auth"@,
            "customer_key_authority_bad_response"@,
        ),
{
    answer_laws::law_outages_tell_their_dependency("fiducia-auth"@, "auth_key_list_bad_response"@);
    answer_laws::law_outages_tell_their_dependency("fiducia-auth"@, "auth_key_create_bad_response"@);
    answer_laws::law_outages_tell_their_dependency("fiducia-auth"@, "auth_key_rotate_bad_response"@);
    answer_laws::law_outages_tell_their_dependency("fiducia-auth"@, "auth_key_revoke_bad_response"@);
    answer_laws::law_outages_tell_their_dependency("fiducia-auth"@, "customer_key_authority_unreachable"@);
    answer_laws::law_outages_tell_their_dependency("fiducia-auth"@, "customer_key_authority_bad_response"@);
}

} // verus!
