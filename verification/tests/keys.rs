use axum::http::{HeaderMap, HeaderValue};
use fiducia_backend::api_keys::{
    allowed_api_key_scopes, auth_key_id_from_prefix, auth_key_to_display, raw_api_key_matches,
    valid_key_id, AuthKeyCreateResponse, AuthKeyListResponse, AuthKeyMeta, AuthKeyRevokeResponse,
    AuthKeyRotateResponse, CreateCustomerApiKeyRequest,
};
use fiducia_backend::auth::CustomerCtx;
use fiducia_backend::key_requests::{
    begin_create, begin_form, begin_revoke, begin_rotate, create_customer_api_key, customer_api_keys_json, form_request, issue_customer_api_key,
    list_outcome, plan_catchup, plan_issue, plan_list, plan_revoke, plan_rotate,
    revoke_customer_api_key, rotate_customer_api_key, rotate_customer_api_key_authority,
    sync_catchup, validate_api_key_request, Caller,
};
use fiducia_backend::key_table::{key_row, key_rows};
use fiducia_backend::reply::{Body, Reply};
use fiducia_backend::upstream::{proxied_auth_error, CallOutcome, Verb};
use serde_json::Value;

const ORG: &str = "00000000-0000-4000-8000-000000000001";
const KEY_ID: &str = "0123456789abcdef";

fn parsed(text: &str) -> Value {
    serde_json::from_str(text).unwrap()
}

fn customer(orgs: &[&str]) -> CustomerCtx {
    CustomerCtx {
        user_id: "u".to_owned(),
        email: None,
        orgs: orgs.iter().map(|org| (*org).to_owned()).collect(),
        aal: "aal1".to_owned(),
        credential_binding: "authorization\0tok".to_owned(),
        cookie_authenticated: false,
    }
}

fn headers(key: Option<&str>) -> HeaderMap {
    let mut headers = HeaderMap::new();
    headers.insert("authorization", "Bearer tok".parse().unwrap());
    if let Some(key) = key {
        headers.insert("idempotency-key", key.parse().unwrap());
    }
    headers
}

fn meta() -> AuthKeyMeta {
    AuthKeyMeta {
        key_id: KEY_ID.to_owned(),
        org_id: ORG.to_owned(),
        name: "ci".to_owned(),
        scopes: vec!["locks:read".to_owned(), "kv:write".to_owned()],
        env: "live".to_owned(),
        last_used_ms: None,
        revoked: false,
        version: 2,
        require_idempotency: true,
    }
}

fn raw() -> String {
    format!("fdc_live_{KEY_ID}.{}", "a".repeat(64))
}

fn answered<T>(status: u16, body: &str, decoded: Option<T>) -> CallOutcome<T> {
    CallOutcome::Answered { status, body: parsed(body), decoded }
}

fn body(reply: &Reply) -> Value {
    match &reply.body {
        Body::Json(value) => value.clone(),
        _ => panic!("the answer is JSON"),
    }
}

fn error(reply: &Reply) -> (u16, String) {
    (reply.status, body(reply)["error"].as_str().unwrap().to_owned())
}

fn request() -> CreateCustomerApiKeyRequest {
    CreateCustomerApiKeyRequest {
        name: "  ci ".to_owned(),
        environment: "live".to_owned(),
        scope: "locks:read".to_owned(),
        require_idempotency: None,
    }
}

#[test]
fn ids_and_prefixes_of_keys() {
    assert!(valid_key_id(KEY_ID));
    for bad in ["", "0123456789abcde", "0123456789abcdef0", "0123456789ABCDEF", "0123456789abcdeg"] {
        assert!(!valid_key_id(bad), "{bad}");
    }
    assert_eq!(auth_key_id_from_prefix("fdc_live_0123456789abcdef"), Some(KEY_ID));
    assert_eq!(auth_key_id_from_prefix("fdc_test_0123456789abcdef"), Some(KEY_ID));
    for bad in [
        "fdc_prod_0123456789abcdef",
        "fdc_live0123456789abcdef",
        "fdc_live_0123456789abcdef_",
        "live_0123456789abcdef",
        "fdc_",
        "",
    ] {
        assert_eq!(auth_key_id_from_prefix(bad), None, "{bad}");
    }
}

#[test]
fn a_plaintext_key_is_that_of_its_description() {
    assert!(raw_api_key_matches(&raw(), &meta()));
    assert!(!raw_api_key_matches(&raw().to_uppercase(), &meta()));
    assert!(!raw_api_key_matches(&format!("{}0", raw()), &meta()));
    let mut other = meta();
    other.env = "test".to_owned();
    assert!(!raw_api_key_matches(&raw(), &other));
    assert!(!raw_api_key_matches("fdc_live_0123456789abcdef.", &meta()));
}

#[test]
fn keys_are_shown_without_anything_secret() {
    let display = auth_key_to_display(&meta(), ORG).unwrap();
    assert_eq!(
        display,
        parsed(
            r#"{
                "id": "0123456789abcdef",
                "name": "ci",
                "prefix": "fdc_live_0123456789abcdef",
                "scopes": "locks:read, kv:write",
                "last_used": "never",
                "status": "active",
                "environment": "live",
                "require_idempotency": true,
                "version": 2
            }"#
        )
    );
    let mut used = meta();
    used.last_used_ms = Some(5);
    used.revoked = true;
    let display = auth_key_to_display(&used, ORG).unwrap();
    assert_eq!(display["last_used"], "recently");
    assert_eq!(display["status"], "revoked");
}

#[test]
fn descriptions_that_do_not_add_up_are_not_shown() {
    assert_eq!(auth_key_to_display(&meta(), "other"), Err("invalid key metadata"));
    let mut bad = meta();
    bad.version = 0;
    assert!(auth_key_to_display(&bad, ORG).is_err());
    let mut bad = meta();
    bad.env = "prod".to_owned();
    assert!(auth_key_to_display(&bad, ORG).is_err());
    let mut bad = meta();
    bad.key_id = "x".to_owned();
    assert!(auth_key_to_display(&bad, ORG).is_err());
    let mut bad = meta();
    bad.scopes.push("root".to_owned());
    assert!(auth_key_to_display(&bad, ORG).is_err());
}

#[test]
fn requests_for_keys_are_checked_in_order() {
    assert_eq!(validate_api_key_request(&request()), None);
    let mut bad = request();
    bad.scope = "root".to_owned();
    assert_eq!(validate_api_key_request(&bad), Some("invalid_scope"));
    bad.environment = "prod".to_owned();
    assert_eq!(validate_api_key_request(&bad), Some("invalid_environment"));
    bad.name = "n".repeat(101);
    assert_eq!(validate_api_key_request(&bad), Some("name_too_long"));
    bad.name = " \t".to_owned();
    assert_eq!(validate_api_key_request(&bad), Some("name_required"));
    let mut long = request();
    long.name = format!(" {} ", "é".repeat(100));
    assert_eq!(validate_api_key_request(&long), None);
    assert_eq!(allowed_api_key_scopes().len(), 14);
}

#[test]
fn a_new_key_is_asked_for_with_everything_it_needs() {
    let ctx = customer(&[ORG]);
    let h = headers(Some("key-1"));
    let caller = Caller {
        auth_url: Some("https://auth"),
        headers: &h,
        customer: &ctx,
        release_hardened: true,
    };
    let plan = plan_issue(&caller, &request()).ok().unwrap();
    assert_eq!(plan.org_id, ORG);
    assert_eq!(plan.call.verb, Verb::Post);
    assert_eq!(plan.call.url, "https://auth/v1/keys");
    assert_eq!(plan.call.token, "tok");
    assert_eq!(plan.call.idempotency_key, Some(HeaderValue::from_static("key-1")));
    assert_eq!(
        plan.call.body.unwrap(),
        parsed(
            r#"{
                "name": "ci",
                "org_id": "00000000-0000-4000-8000-000000000001",
                "scopes": ["locks:read"],
                "env": "live",
                "require_idempotency": true
            }"#
        )
    );
    let mut lax = request();
    lax.require_idempotency = Some(false);
    let plan = plan_issue(&caller, &lax).ok().unwrap();
    assert_eq!(plan.call.body.unwrap()["require_idempotency"], false);
    let form = form_request("n".to_owned(), "test".to_owned(), "kv:read".to_owned());
    assert_eq!(form.require_idempotency, Some(true));
}

#[test]
fn a_new_key_is_refused_for_one_reason_at_a_time() {
    let ctx = customer(&[ORG, "other"]);
    let without = headers(None);
    let with = headers(Some("k"));
    let caller = |h, auth_url| Caller { auth_url, headers: h, customer: &ctx, release_hardened: true };
    let refusal = |r: Result<_, Reply>| match r {
        Ok(_) => panic!("must be refused"),
        Err(reply) => error(&reply),
    };
    let mut bad = request();
    bad.scope = "root".to_owned();
    assert_eq!(
        refusal(plan_issue(&caller(&without, None), &bad).map(|_| ())),
        (400, "idempotency_key_required".to_owned())
    );
    assert_eq!(
        refusal(plan_issue(&caller(&with, None), &bad).map(|_| ())),
        (400, "invalid_scope".to_owned())
    );
    assert_eq!(
        refusal(plan_issue(&caller(&with, None), &request()).map(|_| ())),
        (400, "org_selection_required".to_owned())
    );
    let mut chosen = headers(Some("k"));
    chosen.insert("x-fiducia-org-id", "other".parse().unwrap());
    assert_eq!(
        refusal(plan_issue(&caller(&chosen, None), &request()).map(|_| ())),
        (503, "customer_key_authority_not_configured".to_owned())
    );
    let mut anonymous = chosen.clone();
    anonymous.remove("authorization");
    assert_eq!(
        refusal(plan_issue(&caller(&anonymous, Some("https://auth")), &request()).map(|_| ())),
        (401, "missing_customer_session".to_owned())
    );
}

#[test]
fn the_answer_to_a_new_key() {
    let good = AuthKeyCreateResponse { api_key: raw(), key: meta() };
    let reply = create_customer_api_key(answered(201, "{}", Some(good)), ORG);
    assert_eq!(reply.status, 201);
    assert!(reply.no_store);
    let value = body(&reply);
    assert_eq!(value["ok"], true);
    assert_eq!(value["secret"], raw());
    assert_eq!(value["secret_once"], true);
    assert_eq!(value["api_key"]["id"], KEY_ID);

    let wrong = AuthKeyCreateResponse { api_key: "fdc".to_owned(), key: meta() };
    let reply = create_customer_api_key(answered(200, "{}", Some(wrong)), ORG);
    assert_eq!(error(&reply), (503, "auth_key_create_bad_response".to_owned()));
    assert_eq!(body(&reply)["dependency"], "fiducia-auth");
    let foreign = AuthKeyCreateResponse { api_key: raw(), key: meta() };
    let reply = create_customer_api_key(answered(200, "{}", Some(foreign)), "other");
    assert_eq!(error(&reply), (503, "auth_key_create_bad_response".to_owned()));
    let reply = create_customer_api_key(answered(200, "{}", None), ORG);
    assert_eq!(error(&reply), (503, "auth_key_create_bad_response".to_owned()));
    let reply = create_customer_api_key(CallOutcome::Unreachable, ORG);
    assert_eq!(error(&reply), (503, "customer_key_authority_unreachable".to_owned()));
    let reply = create_customer_api_key(CallOutcome::NoJson, ORG);
    assert_eq!(error(&reply), (503, "customer_key_authority_bad_response".to_owned()));
    let reply = create_customer_api_key(answered(409, r#"{"error":{"code":7}}"#, None), ORG);
    assert_eq!(reply.status, 409);
    assert_eq!(body(&reply), parsed(r#"{"ok":false,"error":{"code":7}}"#));
    let (display, secret) = issue_customer_api_key(
        answered(200, "{}", Some(AuthKeyCreateResponse { api_key: raw(), key: meta() })),
        ORG,
    )
    .ok()
    .unwrap();
    assert_eq!(display["name"], "ci");
    assert_eq!(secret, raw());
}

#[test]
fn errors_of_the_authority_are_passed_on() {
    let reply = proxied_auth_error(418, &parsed("{}"));
    assert_eq!(error(&reply), (418, "credential_authority_rejected_request".to_owned()));
    let reply = proxied_auth_error(404, &parsed(r#"{"error":"gone"}"#));
    assert_eq!(error(&reply), (404, "gone".to_owned()));
    let reply = proxied_auth_error(400, &parsed("7"));
    assert_eq!(error(&reply), (400, "credential_authority_rejected_request".to_owned()));
}

#[test]
fn keys_are_listed_for_one_organisation() {
    let ctx = customer(&["a b/ü"]);
    let mut h = headers(None);
    let caller = Caller {
        auth_url: Some("https://auth"),
        headers: &h,
        customer: &ctx,
        release_hardened: true,
    };
    // One membership needs no choice, however odd its id.
    let plan = plan_list(&caller, None).ok().unwrap();
    assert_eq!(plan.call.verb, Verb::Get);
    assert_eq!(plan.call.url, "https://auth/v1/keys?org_id=a%20b%2F%C3%BC");
    assert!(plan.call.body.is_none());
    assert!(plan.call.idempotency_key.is_none());
    assert_eq!(error(&plan_list(&caller, Some("zzz")).err().unwrap()), (403, "forbidden_org".to_owned()));
    h.insert("x-fiducia-org-id", HeaderValue::from_bytes(b"\xff").unwrap());
    let caller = Caller {
        auth_url: Some("https://auth"),
        headers: &h,
        customer: &ctx,
        release_hardened: true,
    };
    assert_eq!(
        error(&plan_list(&caller, None).err().unwrap()),
        (400, "invalid_org_selection".to_owned())
    );
}

#[test]
fn the_list_of_keys_is_all_or_nothing() {
    let two = AuthKeyListResponse { keys: vec![meta(), meta()] };
    let reply = customer_api_keys_json(answered(200, "{}", Some(two)), ORG);
    assert_eq!(reply.status, 200);
    assert!(reply.no_store);
    let value = body(&reply);
    assert_eq!(value["api_keys"].as_array().unwrap().len(), 2);
    assert_eq!(value["default_require_idempotency"], true);
    assert_eq!(value["allowed_environments"], parsed(r#"["live","test"]"#));
    assert_eq!(value["allowed_scopes"][13], "rate-limit:write");

    let mut foreign = meta();
    foreign.org_id = "other".to_owned();
    let mixed = AuthKeyListResponse { keys: vec![meta(), foreign] };
    let reply = customer_api_keys_json(answered(200, "{}", Some(mixed)), ORG);
    assert_eq!(error(&reply), (503, "auth_key_list_bad_response".to_owned()));
    let none = list_outcome(answered(200, "{}", Some(AuthKeyListResponse { keys: vec![] })), ORG);
    assert!(none.ok().unwrap().is_empty());
    let reply = customer_api_keys_json(answered(99, "{}", Some(AuthKeyListResponse { keys: vec![] })), ORG);
    assert_eq!(error(&reply), (502, "credential_authority_rejected_request".to_owned()));
}

#[test]
fn browsers_catch_up_with_the_whole_table() {
    let ctx = customer(&[ORG]);
    let h = headers(None);
    let caller = Caller {
        auth_url: Some("https://auth"),
        headers: &h,
        customer: &ctx,
        release_hardened: true,
    };
    let plan = plan_catchup(&caller, "api_keys").ok().unwrap();
    assert_eq!(plan.call.url, format!("https://auth/v1/keys?org_id={ORG}"));
    let reply = plan_catchup(&caller, "users").err().unwrap();
    assert_eq!(error(&reply), (404, "unsupported_sync_table".to_owned()));
    assert_eq!(body(&reply)["table"], "users");
    let reply = sync_catchup(
        "api_keys",
        -7,
        answered(200, "{}", Some(AuthKeyListResponse { keys: vec![meta()] })),
        ORG,
    );
    let value = body(&reply);
    assert!(reply.no_store);
    assert_eq!(value["table"], "api_keys");
    assert_eq!(value["snapshot"], true);
    assert_eq!(value["requested_since"], -7);
    assert_eq!(value["rows"][0]["id"], KEY_ID);
}

#[test]
fn keys_are_rotated_and_revoked_by_their_prefix() {
    let ctx = customer(&[ORG]);
    let h = headers(Some("k"));
    let caller = Caller {
        auth_url: Some("https://auth"),
        headers: &h,
        customer: &ctx,
        release_hardened: true,
    };
    let plan = plan_rotate(&caller, " fdc_live_0123456789abcdef ").ok().unwrap();
    assert_eq!(plan.call.verb, Verb::Post);
    assert_eq!(
        plan.call.url,
        format!("https://auth/v1/keys/{KEY_ID}/rotate?org_id={ORG}")
    );
    assert_eq!(plan.call.body.unwrap(), parsed("{}"));
    let plan = plan_revoke(&caller, "fdc_test_0123456789abcdef").ok().unwrap();
    assert_eq!(plan.call.verb, Verb::Delete);
    assert_eq!(plan.call.url, format!("https://auth/v1/keys/{KEY_ID}?org_id={ORG}"));
    assert!(plan.call.body.is_none());
    for r in [plan_rotate(&caller, "fdc_x"), plan_revoke(&caller, "")] {
        assert_eq!(error(&r.err().unwrap()), (400, "invalid_key_prefix".to_owned()));
    }
}

#[test]
fn requests_that_are_turned_away_lead_to_no_call() {
    let ctx = customer(&[ORG]);
    let h = headers(Some("k"));
    let caller = Caller {
        auth_url: Some("https://auth"),
        headers: &h,
        customer: &ctx,
        release_hardened: true,
    };
    let prefix = "fdc_live_0123456789abcdef";
    assert!(begin_create(&caller, Ok(()), &request()).is_ok());
    assert!(begin_rotate(&caller, Ok(()), prefix).is_ok());
    assert!(begin_revoke(&caller, Ok(()), prefix).is_ok());
    assert!(begin_form(Ok(()), h.clone(), &ctx, ORG, "k").unwrap().is_ok());
    let turned_away = || Err("wrong_origin".to_owned());
    for refusal in [
        begin_create(&caller, turned_away(), &request()).err().unwrap(),
        begin_rotate(&caller, turned_away(), prefix).err().unwrap(),
        begin_revoke(&caller, turned_away(), prefix).err().unwrap(),
        begin_form(turned_away(), h.clone(), &ctx, ORG, "k").unwrap().err().unwrap(),
    ] {
        assert_eq!(error(&refusal), (403, "customer_request_rejected".to_owned()));
        assert_eq!(body(&refusal)["reason"], "wrong_origin");
    }
    // A map goes on taking headers up to its own limit, and then gives nothing.
    let mut crowded = HeaderMap::new();
    for i in 0..6552 {
        let name: axum::http::HeaderName = format!("x-{i}").parse().unwrap();
        crowded.insert(name, HeaderValue::from_static("v"));
    }
    let out = begin_form(Ok(()), crowded.clone(), &ctx, ORG, "k").unwrap().ok().unwrap();
    assert_eq!(out.len(), 6554);
    assert_eq!(out["x-fiducia-org-id"], ORG);
    for i in 6552.. {
        let name: axum::http::HeaderName = format!("x-{i}").parse().unwrap();
        if crowded.try_insert(name, HeaderValue::from_static("v")).is_err() {
            break;
        }
    }
    assert!(begin_form(Ok(()), crowded, &ctx, ORG, "k").is_none());
}

#[test]
fn the_answers_to_rotation_and_revocation() {
    let rotated = || AuthKeyRotateResponse { api_key: raw(), key: meta(), overlap_seconds: 60 };
    let reply =
        rotate_customer_api_key(" p ", 1234, answered(200, "{}", Some(rotated())), ORG);
    let value = body(&reply);
    assert!(reply.no_store);
    assert_eq!(value["ok"], true);
    assert_eq!(value["prefix"], "p");
    assert_eq!(value["rotated_at_ms"], 1234);
    assert_eq!(value["replacement_secret"], raw());
    assert_eq!(value["overlap_seconds"], 60);
    assert_eq!(value["api_key"]["version"], 2);
    let reply = rotate_customer_api_key("p", 0, answered(200, "{}", Some(rotated())), "other");
    assert_eq!(error(&reply), (503, "auth_key_rotate_bad_response".to_owned()));
    let (_, secret, overlap) =
        rotate_customer_api_key_authority(answered(200, "{}", Some(rotated())), ORG).ok().unwrap();
    assert_eq!((secret, overlap), (raw(), 60));

    let reply = revoke_customer_api_key(
        " p",
        answered(200, "{}", Some(AuthKeyRevokeResponse { revoked: true })),
    );
    assert_eq!(body(&reply), parsed(r#"{"ok":true,"prefix":"p","status":"revoked"}"#));
    let reply = revoke_customer_api_key(
        "p",
        answered(200, "{}", Some(AuthKeyRevokeResponse { revoked: false })),
    );
    assert_eq!(error(&reply), (404, "key_not_found".to_owned()));
    let reply = revoke_customer_api_key("p", answered(200, "{}", None));
    assert_eq!(error(&reply), (503, "auth_key_revoke_bad_response".to_owned()));
}

#[test]
fn rows_offer_actions_for_active_keys_only() {
    let mut revoked = meta();
    revoked.revoked = true;
    let rows = key_rows(&vec![
        auth_key_to_display(&meta(), ORG).unwrap(),
        auth_key_to_display(&revoked, ORG).unwrap(),
    ]);
    assert_eq!(rows.len(), 2);
    assert!(rows[0].active && !rows[1].active);
    assert_eq!(rows[0].prefix, "fdc_live_0123456789abcdef");
    assert_eq!(rows[0].scopes, "locks:read, kv:write");
    assert_eq!((rows[1].status.as_str(), rows[1].environment.as_str()), ("revoked", "live"));
    let odd = key_row(&parsed(r#"{"name":7}"#));
    assert_eq!((odd.name.as_str(), odd.status.as_str(), odd.active), ("", "", false));
}
