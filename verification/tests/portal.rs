use axum::http::{HeaderMap, HeaderValue};
use fiducia_backend::account::{
    accept_choices, accept_device, accept_form_choices, accept_form_device, caller_identity, caller_user_id, customer_pool, customer_preferences_json, customer_regions,
    customer_security_sessions_json, notification_read_message, notifications_unavailable,
    preferences_saved,
    read_customer_notification_form, read_preferences,
    revoke_customer_security_session, revoke_customer_session_form, session_model_json,
    session_revoked, session_revoked_message, update_customer_preferences,
    update_customer_preferences_form, CustomerPreferencesForm, CustomerSessionsRow,
};
use fiducia_backend::activity::{
    activity_org, customer_activity_events, customer_activity_json, customer_activity_limit,
    AuditLogRow,
};
use fiducia_backend::auth::CustomerCtx;
use fiducia_backend::headers;
use fiducia_backend::orgs::{
    customer_page_org, form_mutation_headers, require_idempotency_key, selected_customer_org,
    selected_customer_org_from, valid_org_id,
};
use fiducia_backend::queries;
use fiducia_backend::queries::{Cell, Query, Test};
use fiducia_backend::reply::{Body, Reply};
use fiducia_backend::security::{
    apply_sensitive_response_headers, authenticate_mfa_aware, check_factors,
    customer_mfa_assurance_gate, guarded_refusal, provided_csrf, request_security_error,
    request_security_gate, require_api_write_security, require_form_security, security_headers,
    supabase_auth_error_response, AssuranceStep, Guard, LoginRetry, OriginCheck,
};
use fiducia_backend::session_assurance::{
    bind_verified_session, bound_session, bounded_label, normalize_binding,
    revoke_verified_session_for_provider, verified_session_for_provider, VerifiedCustomerSession, CUSTOMER_PROVIDER_PROJECT,
};
use fiducia_backend::site::{
    cors_headers, cors_methods, customer_app_origin_from_env, customer_context_json,
    customer_page_response, customer_site_mode, db_schema, health, host_serves_customer_app, info,
    origin_from_parts, parse_customer_app_origin, required_env, Setting, UriParts,
};
use fiducia_backend::statements::SqlValue;
use fiducia_backend::store::{
    after_change, after_user_insert, after_user_race, default_customer_preferences, ensure_user,
    mark_notification_read, prefs_from_row, revoke_session, upsert_preferences, ChangeStep, Content,
    CustomerPreferences, CustomerPreferencesRow, PreferencesWrite, UserStep,
};
use fiducia_backend::supabase_auth::{Factor, SupabaseAuthError};
use fiducia_backend::times::Timestamp;
use serde_json::Value;

const ORG: &str = "00000000-0000-4000-8000-000000000001";

fn parsed(text: &str) -> Value {
    serde_json::from_str(text).unwrap()
}

fn body(reply: &Reply) -> Value {
    match &reply.body {
        Body::Json(value) => value.clone(),
        _ => panic!("the answer is JSON"),
    }
}

fn plain(reply: &Reply) -> (u16, String) {
    match &reply.body {
        Body::Plain(text) => (reply.status, text.clone()),
        _ => panic!("the answer is plain"),
    }
}

fn error(reply: &Reply) -> (u16, String) {
    (reply.status, body(reply)["error"].as_str().unwrap().to_owned())
}

fn customer(orgs: &[&str]) -> CustomerCtx {
    CustomerCtx {
        user_id: "936da01f-9abd-4d9d-80c7-02af85c822a8".to_owned(),
        email: Some("u@x.com".to_owned()),
        orgs: orgs.iter().map(|org| (*org).to_owned()).collect(),
        aal: "aal1".to_owned(),
        credential_binding: "authorization\0tok".to_owned(),
        cookie_authenticated: false,
    }
}

fn with_org(org: &[u8]) -> HeaderMap {
    let mut headers = HeaderMap::new();
    headers.insert("x-fiducia-org-id", HeaderValue::from_bytes(org).unwrap());
    headers
}

fn time(secs: i64) -> Timestamp {
    Timestamp::new(secs, 0, 0).unwrap()
}

#[test]
fn organisation_ids_are_short_and_solid() {
    assert!(valid_org_id("o"));
    assert!(valid_org_id(&"o".repeat(128)));
    assert!(!valid_org_id(&"o".repeat(129)));
    assert!(valid_org_id(&"é".repeat(64)));
    assert!(!valid_org_id(&"é".repeat(65)));
    for bad in ["", "a b", "a\u{3000}", "a\u{7f}", "a\n"] {
        assert!(!valid_org_id(bad), "{bad:?}");
    }
}

#[test]
fn organisations_are_chosen_and_never_guessed() {
    let none = HeaderMap::new();
    let two = customer(&["a", "b"]);
    assert_eq!(selected_customer_org(&customer(&["a"]), &none).ok().as_deref(), Some("a"));
    let refusal = |r: Result<String, Reply>| error(&r.err().unwrap());
    assert_eq!(
        refusal(selected_customer_org(&two, &none)),
        (400, "org_selection_required".to_owned())
    );
    assert_eq!(
        refusal(selected_customer_org(&customer(&[]), &none)),
        (403, "no_org_membership".to_owned())
    );
    assert_eq!(selected_customer_org(&two, &with_org(b"b")).ok().as_deref(), Some("b"));
    assert_eq!(
        refusal(selected_customer_org(&two, &with_org(b"c"))),
        (403, "forbidden_org".to_owned())
    );
    for bad in [b"\xff".as_slice(), b"", b"a b"] {
        assert_eq!(
            refusal(selected_customer_org(&two, &with_org(bad))),
            (400, "invalid_org_selection".to_owned())
        );
    }
    assert_eq!(
        selected_customer_org_from(&two, &with_org(b"b"), Some("a")).ok().as_deref(),
        Some("a")
    );
    assert_eq!(
        refusal(selected_customer_org_from(&two, &with_org(b"b"), Some("c"))),
        (403, "forbidden_org".to_owned())
    );
}

#[test]
fn pages_show_the_first_of_several_organisations() {
    let none = HeaderMap::new();
    let two = customer(&["a", "b"]);
    assert_eq!(customer_page_org(&two, &none, None).ok().as_deref(), Some("a"));
    assert_eq!(customer_page_org(&two, &none, Some("b")).ok().as_deref(), Some("b"));
    assert_eq!(customer_page_org(&two, &with_org(b"b"), None).ok().as_deref(), Some("b"));
    assert_eq!(
        error(&customer_page_org(&two, &with_org(b"c"), None).err().unwrap()),
        (403, "forbidden_org".to_owned())
    );
    assert_eq!(
        error(&customer_page_org(&customer(&[]), &none, None).err().unwrap()),
        (403, "no_org_membership".to_owned())
    );
    assert_eq!(
        customer_page_response(&two, Ok(()), &none, None).ok().as_deref(),
        Some("a")
    );
    let reply = customer_page_response(&two, Err("bad_host".to_owned()), &none, None).err().unwrap();
    assert_eq!(reply.status, 403);
    assert_eq!(body(&reply)["reason"], "bad_host");
}

#[test]
fn mutations_need_an_idempotency_key() {
    let mut h = HeaderMap::new();
    assert_eq!(
        error(&require_idempotency_key(&h).err().unwrap()),
        (400, "idempotency_key_required".to_owned())
    );
    for bad in ["", "a b", "a\tb"] {
        h.insert("idempotency-key", bad.parse().unwrap());
        assert_eq!(
            error(&require_idempotency_key(&h).err().unwrap()),
            (400, "invalid_idempotency_key".to_owned())
        );
    }
    h.insert("idempotency-key", "k".repeat(201).parse().unwrap());
    assert!(require_idempotency_key(&h).is_err());
    h.insert("idempotency-key", "k".repeat(200).parse().unwrap());
    assert_eq!(require_idempotency_key(&h).ok().unwrap(), "k".repeat(200));
    h.insert("idempotency-key", HeaderValue::from_bytes(b"k\xe9").unwrap());
    assert!(require_idempotency_key(&h).is_err());
    h.insert("idempotency-key", "!~".parse().unwrap());
    assert_eq!(require_idempotency_key(&h).ok().unwrap(), "!~");
}

#[test]
fn forms_bring_their_own_organisation_and_key() {
    let two = customer(&["a", "b", "é"]);
    let mut h = with_org(b"a");
    h.append("x-fiducia-org-id", "zzz".parse().unwrap());
    h.insert("accept", "text/html".parse().unwrap());
    let out = form_mutation_headers(h.clone(), &two, "b", "key-1").unwrap().ok().unwrap();
    assert_eq!(out.get_all("x-fiducia-org-id").iter().count(), 1);
    assert_eq!(out["x-fiducia-org-id"], "b");
    assert_eq!(out["idempotency-key"], "key-1");
    assert_eq!(out["accept"], "text/html");
    assert_eq!(selected_customer_org(&two, &out).ok().as_deref(), Some("b"));
    assert!(require_idempotency_key(&out).is_ok());
    let refusal = |org: &str, key: &str| {
        error(&form_mutation_headers(h.clone(), &two, org, key).unwrap().err().unwrap())
    };
    assert_eq!(refusal("c", "k"), (403, "forbidden_org".to_owned()));
    assert_eq!(refusal("a b", "k"), (400, "invalid_org_selection".to_owned()));
    assert_eq!(refusal("a", "k\n"), (400, "invalid_idempotency_key".to_owned()));
    assert_eq!(refusal("a", "k k"), (400, "invalid_idempotency_key".to_owned()));
    assert_eq!(refusal("a", "é"), (400, "invalid_idempotency_key".to_owned()));
    // An id that is not ASCII can be sent on, but not be read back as a choice.
    let odd = form_mutation_headers(h.clone(), &two, "é", "k").unwrap().ok().unwrap();
    assert_eq!(
        error(&selected_customer_org(&two, &odd).err().unwrap()),
        (400, "invalid_org_selection".to_owned())
    );
}

#[test]
fn headers_are_looked_up_by_name() {
    let mut h = HeaderMap::new();
    h.append("Accept", "one".parse().unwrap());
    h.append("accept", HeaderValue::from_bytes(b"tw\xf6").unwrap());
    assert!(headers::contains(&h, "accept"));
    assert!(!headers::contains(&h, "host"));
    assert_eq!(headers::get(&h, "accept").unwrap(), "one");
    assert_eq!(headers::get_texts(&h, "accept"), vec![Some("one".to_owned()), None]);
    assert_eq!(headers::get_text(&h, "accept"), Some("one".to_owned()));
    assert_eq!(headers::get_text(&h, "host"), None);
}

#[test]
fn callers_are_known_by_subject_and_mail() {
    let ctx = customer(&["a"]);
    let (subject, email) = caller_identity(true, &ctx).ok().unwrap();
    assert_eq!(subject, 0x936da01f_9abd_4d9d_80c7_02af85c822a8);
    assert_eq!(email, "u@x.com");
    let reply = caller_identity(false, &ctx).err().unwrap();
    assert_eq!(error(&reply), (503, "database_unavailable".to_owned()));
    assert_eq!(body(&reply)["dependency"], "postgres");
    let mut bad = customer(&["a"]);
    bad.user_id = "fiducia-e2e-customer".to_owned();
    assert_eq!(
        error(&caller_identity(true, &bad).err().unwrap()),
        (422, "invalid_user_subject".to_owned())
    );
    for email in [None, Some(" ".to_owned())] {
        let mut bad = customer(&["a"]);
        bad.email = email;
        assert_eq!(
            error(&caller_identity(true, &bad).err().unwrap()),
            (422, "user_email_required".to_owned())
        );
    }
    assert_eq!(caller_user_id(Ok(7)).ok(), Some(7));
    assert_eq!(
        error(&caller_user_id(Err("x".to_owned())).err().unwrap()),
        (503, "ensure_user_failed".to_owned())
    );
    assert!(customer_pool(true).is_ok());
    assert!(customer_pool(false).is_err());
}

#[test]
fn users_are_found_or_made_even_in_a_race() {
    assert!(matches!(ensure_user(Ok(Some(7))), UserStep::Settled(Ok(7))));
    assert!(matches!(ensure_user(Ok(None)), UserStep::Insert));
    assert!(matches!(ensure_user(Err("x".to_owned())), UserStep::Settled(Err(_))));
    assert!(matches!(after_user_insert(Ok(8)), UserStep::Settled(Ok(8))));
    assert!(matches!(after_user_insert(Err("dup".to_owned())), UserStep::LookUpAgain));
    assert_eq!(after_user_race(Ok(Some(9))), Ok(9));
    assert_eq!(
        after_user_race(Ok(None)),
        Err("users row missing after insert race".to_owned())
    );
    assert_eq!(after_user_race(Err("down".to_owned())), Err("down".to_owned()));
}

fn choices(region: &str, density: &str, timezone: &str) -> CustomerPreferences {
    CustomerPreferences {
        region: region.to_owned(),
        timezone: timezone.to_owned(),
        density: density.to_owned(),
        notify_lock_contention: true,
        notify_key_rotation: false,
        notify_mfa: true,
    }
}

fn row() -> CustomerPreferencesRow {
    CustomerPreferencesRow {
        user_id: 1,
        density: "compact".to_owned(),
        timezone: "UTC".to_owned(),
        region: "fra1".to_owned(),
        notify_key_rotation: false,
        notify_lock_contention: true,
        notify_mfa: true,
        updated_at: time(0),
        version: 3,
        sync_sequence: 4,
    }
}

#[test]
fn preferences_are_checked_and_tidied() {
    let saved = accept_choices(choices("fra1", "compact", "  UTC ")).ok().unwrap();
    assert_eq!(saved.timezone, "UTC");
    assert!(saved.notify_lock_contention && !saved.notify_key_rotation && saved.notify_mfa);
    let refusal = |c| error(&accept_choices(c).err().unwrap());
    assert_eq!(refusal(choices("moon", "x", "")), (400, "invalid_region".to_owned()));
    assert_eq!(refusal(choices("auto", "x", "")), (400, "invalid_density".to_owned()));
    assert_eq!(refusal(choices("auto", "comfortable", " ")), (400, "invalid_timezone".to_owned()));
    assert_eq!(
        refusal(choices("auto", "comfortable", &"z".repeat(65))),
        (400, "invalid_timezone".to_owned())
    );
    assert!(accept_choices(choices("auto", "comfortable", &"é".repeat(64))).is_ok());
    assert_eq!(
        customer_regions(),
        ["auto", "iad1", "sfo1", "ams1", "fra1", "sin1", "syd1"]
    );
    assert!(accept_choices(default_customer_preferences()).is_ok());
}

#[test]
fn preference_forms_say_by_presence() {
    let form = |region: &str| CustomerPreferencesForm {
        region: region.to_owned(),
        timezone: " UTC".to_owned(),
        density: "compact".to_owned(),
        notify_lock_contention: Some("".to_owned()),
        notify_key_rotation: None,
        notify_mfa: Some("off".to_owned()),
    };
    let saved = accept_form_choices(form("auto")).ok().unwrap();
    assert_eq!(saved.timezone, "UTC");
    assert!(saved.notify_lock_contention && !saved.notify_key_rotation && saved.notify_mfa);
    assert_eq!(
        plain(&accept_form_choices(form("moon")).err().unwrap()),
        (400, "invalid_region".to_owned())
    );
}

#[test]
fn preferences_are_answered_as_they_are_stored() {
    let expected = parsed(
        r#"{
            "region": "fra1",
            "timezone": "UTC",
            "density": "compact",
            "notify_lock_contention": true,
            "notify_key_rotation": false,
            "notify_mfa": true
        }"#,
    );
    let reply = customer_preferences_json(Ok(Some(row())));
    assert_eq!((reply.status, reply.no_store), (200, false));
    assert_eq!(body(&reply), expected);
    let reply = customer_preferences_json(Ok(None));
    assert_eq!(body(&reply)["region"], "auto");
    assert_eq!(body(&reply)["timezone"], "browser");
    assert_eq!(body(&reply)["density"], "comfortable");
    assert_eq!(
        error(&customer_preferences_json(Err("x".to_owned()))),
        (503, "preferences_read_failed".to_owned())
    );
    let reply = preferences_saved(Ok(row()), 99);
    assert_eq!(body(&reply)["ok"], true);
    assert_eq!(body(&reply)["preferences"], expected);
    assert_eq!(body(&reply)["saved_at_ms"], 99);
    assert_eq!(
        error(&preferences_saved(Err("x".to_owned()), 0)),
        (503, "preferences_write_failed".to_owned())
    );
    assert_eq!(prefs_from_row(&row()).region, "fra1");
    assert!(read_preferences(Ok(None)).is_ok());
    assert!(matches!(
        upsert_preferences(true, 7, choices("auto", "compact", "UTC")),
        PreferencesWrite::Update(7, _)
    ));
    assert!(matches!(
        upsert_preferences(false, 7, choices("auto", "compact", "UTC")),
        PreferencesWrite::Insert(7, _)
    ));
}

fn session(location: Option<&str>) -> CustomerSessionsRow {
    CustomerSessionsRow {
        id: 1,
        user_id: 2,
        device: "MacBook".to_owned(),
        location: location.map(str::to_owned),
        last_seen: time(1_431_648_000),
        status: "active".to_owned(),
        updated_at: time(0),
        version: 1,
        sync_sequence: 1,
    }
}

#[test]
fn sessions_are_listed_and_revoked() {
    assert_eq!(
        session_model_json(&session(None)),
        parsed(
            r#"{
                "device": "MacBook",
                "location": null,
                "last_seen": "2015-05-15T00:00:00+00:00",
                "status": "active"
            }"#
        )
    );
    let reply = customer_security_sessions_json(Ok(vec![session(Some("Bern")), session(None)]));
    assert_eq!(body(&reply)["sessions"][0]["location"], "Bern");
    assert_eq!(body(&reply)["sessions"].as_array().unwrap().len(), 2);
    assert_eq!(body(&reply)["revoke_supported"], true);
    assert_eq!(
        error(&customer_security_sessions_json(Err("x".to_owned()))),
        (503, "sessions_list_failed".to_owned())
    );
    assert_eq!(accept_device(" MacBook ").ok(), Some("MacBook"));
    assert_eq!(accept_form_device("MacBook").ok(), Some("MacBook"));
    let long = "d".repeat(201);
    for bad in ["", "  ", long.as_str()] {
        assert_eq!(
            error(&accept_device(bad).err().unwrap()),
            (400, "invalid_device".to_owned())
        );
        assert_eq!(
            plain(&accept_form_device(bad).err().unwrap()),
            (400, "invalid_device".to_owned())
        );
    }
    let reply = session_revoked("MacBook", Ok(false));
    assert_eq!(body(&reply), parsed(r#"{"ok":true,"device":"MacBook","revoked":false}"#));
    assert_eq!(
        error(&session_revoked("d", Err("x".to_owned()))),
        (503, "session_revoke_failed".to_owned())
    );
    assert_eq!(session_revoked_message(Ok(true)).ok(), Some("Session revoked."));
    assert_eq!(
        session_revoked_message(Ok(false)).ok(),
        Some("Session was already revoked or no longer exists.")
    );
    assert!(session_revoked_message(Err("x".to_owned())).is_err());
    assert_eq!(notification_read_message(Ok(true)).ok(), Some("Notification marked read."));
    assert_eq!(
        notification_read_message(Ok(false)).ok(),
        Some("Notification was already read or no longer exists.")
    );
    assert_eq!(
        error(&notification_read_message(Err("x".to_owned())).err().unwrap()),
        (503, "notification_read_failed".to_owned())
    );
    assert_eq!(
        error(&notifications_unavailable(true)),
        (503, "notifications_count_failed".to_owned())
    );
    assert_eq!(
        error(&notifications_unavailable(false)),
        (503, "notifications_list_failed".to_owned())
    );
}

#[test]
fn changes_are_checked_before_they_are_made() {
    let ctx = customer(&["a"]);
    let turned_away = || Err("csrf_mismatch".to_owned());
    let change =
        update_customer_preferences(Ok(()), true, &ctx, choices("auto", "compact", " UTC")).ok().unwrap();
    assert_eq!(change.subject, 0x936da01f_9abd_4d9d_80c7_02af85c822a8);
    assert_eq!(change.email, "u@x.com");
    assert_eq!(change.what.timezone, "UTC");
    let refusal =
        update_customer_preferences(turned_away(), true, &ctx, choices("moon", "x", "")).err().unwrap();
    assert_eq!(error(&refusal), (403, "customer_request_rejected".to_owned()));
    // What is asked for is judged before who asks.
    let refusal =
        update_customer_preferences(Ok(()), false, &ctx, choices("moon", "x", "")).err().unwrap();
    assert_eq!(error(&refusal), (400, "invalid_region".to_owned()));
    let refusal =
        update_customer_preferences(Ok(()), false, &ctx, choices("auto", "compact", "UTC")).err().unwrap();
    assert_eq!(error(&refusal), (503, "database_unavailable".to_owned()));

    let form = |region: &str| CustomerPreferencesForm {
        region: region.to_owned(),
        timezone: "UTC".to_owned(),
        density: "compact".to_owned(),
        notify_lock_contention: None,
        notify_key_rotation: None,
        notify_mfa: None,
    };
    assert!(update_customer_preferences_form(Ok(()), true, &ctx, form("auto")).is_ok());
    let refusal = update_customer_preferences_form(Ok(()), true, &ctx, form("x")).err().unwrap();
    assert_eq!(plain(&refusal), (400, "invalid_region".to_owned()));

    let change = revoke_customer_security_session(Ok(()), true, &ctx, " Mac ").ok().unwrap();
    assert_eq!(change.what, "Mac");
    assert!(revoke_customer_security_session(turned_away(), true, &ctx, "Mac").is_err());
    let refusal = revoke_customer_session_form(Ok(()), true, &ctx, " ").err().unwrap();
    assert_eq!(plain(&refusal), (400, "invalid_device".to_owned()));
    assert_eq!(
        revoke_customer_session_form(Ok(()), true, &ctx, "Mac").ok().unwrap().what,
        "Mac"
    );

    let id = " {936da01f-9abd-4d9d-80c7-02af85c822a8}";
    let change = read_customer_notification_form(Ok(()), true, &ctx, id).ok().unwrap();
    assert_eq!(change.what, change.subject);
    let refusal = read_customer_notification_form(Ok(()), true, &ctx, "7").err().unwrap();
    assert_eq!(plain(&refusal), (400, "invalid_notification_id".to_owned()));
    assert!(read_customer_notification_form(turned_away(), true, &ctx, id).is_err());
}

#[test]
fn activity_is_bounded_and_stays_within_the_organisation() {
    assert_eq!(customer_activity_limit(None), 50);
    assert_eq!(customer_activity_limit(Some(0)), 1);
    assert_eq!(customer_activity_limit(Some(7)), 7);
    assert_eq!(customer_activity_limit(Some(100)), 100);
    assert_eq!(customer_activity_limit(Some(101)), 100);
    let none = HeaderMap::new();
    assert_eq!(
        activity_org(true, &customer(&[ORG]), &none, None).ok(),
        Some(0x00000000_0000_4000_8000_000000000001)
    );
    let reply = activity_org(true, &customer(&["acme"]), &none, None).err().unwrap();
    assert_eq!(error(&reply), (503, "invalid_verified_org_id".to_owned()));
    assert_eq!(body(&reply)["dependency"], "fiducia-auth");
    assert_eq!(
        error(&activity_org(false, &customer(&[ORG]), &none, None).err().unwrap()),
        (503, "database_unavailable".to_owned())
    );
    assert_eq!(
        error(&activity_org(true, &customer(&[ORG]), &none, Some("x")).err().unwrap()),
        (403, "forbidden_org".to_owned())
    );
}

#[test]
fn activity_shows_what_members_may_see() {
    let row = AuditLogRow {
        id: 0xff,
        org_id: Some(1),
        actor_user_id: Some(2),
        actor: Some("ann".to_owned()),
        action: "key.rotate".to_owned(),
        target: None,
        request_id: Some("r-1".to_owned()),
        created_at: time(0),
    };
    let events = customer_activity_events(Ok(vec![row])).ok().unwrap();
    let reply = customer_activity_json(&events);
    assert!(reply.no_store);
    assert_eq!(
        body(&reply),
        parsed(
            r#"{"events":[{
                "id": "00000000-0000-0000-0000-0000000000ff",
                "actor": "ann",
                "action": "key.rotate",
                "target": null,
                "request_id": "r-1",
                "created_at": "1970-01-01T00:00:00+00:00"
            }]}"#
        )
    );
    // An event is shown in the time of the clock that it was stored with.
    let abroad = AuditLogRow {
        id: 1,
        org_id: None,
        actor_user_id: None,
        actor: None,
        action: "login".to_owned(),
        target: None,
        request_id: None,
        created_at: Timestamp::new(1_431_648_000, 0, -19_800).unwrap(),
    };
    let events = customer_activity_events(Ok(vec![abroad])).ok().unwrap();
    assert_eq!(events[0].created_at, "2015-05-14T18:30:00-05:30");
    assert_eq!(
        error(&customer_activity_events(Err("x".to_owned())).err().unwrap()),
        (503, "activity_list_failed".to_owned())
    );
}

#[test]
fn changes_must_come_from_this_origin() {
    assert_eq!(request_security_gate("/app/ws", "GET"), OriginCheck::SameOrigin);
    assert_eq!(request_security_gate("/app/settings", "POST"), OriginCheck::SameOrigin);
    assert_eq!(request_security_gate("/logout", "POST"), OriginCheck::SameOrigin);
    assert_eq!(request_security_gate("/login/otp", "OPTIONS"), OriginCheck::SameOrigin);
    assert_eq!(request_security_gate("/app", "GET"), OriginCheck::ApiHost);
    assert_eq!(request_security_gate("/login", "HEAD"), OriginCheck::ApiHost);
    assert_eq!(request_security_gate("/api/customer/context", "PUT"), OriginCheck::ApiHost);
    assert_eq!(request_security_gate("/logout/x", "POST"), OriginCheck::Nothing);
    assert_eq!(request_security_gate("/api/info", "GET"), OriginCheck::Nothing);
    let reply = request_security_error("csrf_mismatch");
    assert_eq!(
        body(&reply),
        parsed(r#"{"ok":false,"error":"customer_request_rejected","reason":"csrf_mismatch"}"#)
    );
    assert_eq!(reply.status, 403);
}

#[test]
fn browsers_show_origin_and_token_and_others_the_host() {
    let fault = |s: &str| Err(s.to_owned());
    assert_eq!(require_form_security(Ok(()), Ok(())), Ok(()));
    assert_eq!(require_form_security(fault("o"), fault("t")), fault("o"));
    assert_eq!(require_form_security(Ok(()), fault("t")), fault("t"));
    let api = customer(&["a"]);
    assert_eq!(require_api_write_security(&api, fault("o"), fault("t"), Ok(())), Ok(()));
    assert_eq!(require_api_write_security(&api, Ok(()), Ok(()), fault("h")), fault("h"));
    let mut browser = customer(&["a"]);
    browser.cookie_authenticated = true;
    assert_eq!(require_api_write_security(&browser, Ok(()), fault("t"), Ok(())), fault("t"));
    assert_eq!(require_api_write_security(&browser, Ok(()), Ok(()), fault("h")), Ok(()));
    let mut h = HeaderMap::new();
    assert_eq!(provided_csrf(&h), "");
    h.insert("x-fiducia-csrf", "tok".parse().unwrap());
    assert_eq!(provided_csrf(&h), "tok");
    h.insert("x-fiducia-csrf", HeaderValue::from_bytes(b"\xff").unwrap());
    assert_eq!(provided_csrf(&h), "");
}

#[test]
fn customer_paths_ask_for_a_session() {
    let guard = customer_mfa_assurance_gate;
    assert_eq!(guard("/app/settings", "POST", false), Guard::GuardedPage);
    assert_eq!(guard("/api/customer/context", "GET", false), Guard::Guarded);
    assert_eq!(guard("/api/customer/sync/api_keys", "GET", false), Guard::Guarded);
    assert_eq!(guard("/api/customer/sync/api_keys", "POST", false), Guard::Open);
    assert_eq!(guard("/", "GET", true), Guard::GuardedPage);
    assert_eq!(guard("/", "GET", false), Guard::Open);
    assert_eq!(guard("/login", "POST", true), Guard::Open);
    assert_eq!(guard("/logout", "POST", true), Guard::Open);
    assert_eq!(guard("/api/billing/webhooks/stripe", "POST", true), Guard::Open);
    let missing = || fiducia_backend::reply::deny(401, "missing_customer_session");
    let reply = guarded_refusal(Guard::GuardedPage, missing());
    assert_eq!((reply.status, reply.location.as_deref()), (303, Some("/login")));
    assert_eq!(error(&guarded_refusal(Guard::Guarded, missing())).0, 401);
    let outage = fiducia_backend::reply::dependency_error("supabase", "mfa_state_unavailable");
    assert_eq!(guarded_refusal(Guard::GuardedPage, outage).status, 503);
}

#[test]
fn one_factor_is_not_enough_where_there_are_two() {
    let mut ctx = customer(&["a"]);
    let refusal = |step: AssuranceStep| match step {
        AssuranceStep::Refuse(reply) => error(&reply),
        _ => panic!("must be refused"),
    };
    match authenticate_mfa_aware(&ctx, Some("tok".to_owned()), true) {
        AssuranceStep::ListFactors(token) => assert_eq!(token, "tok"),
        _ => panic!("the factors are to be listed"),
    }
    assert_eq!(
        refusal(authenticate_mfa_aware(&ctx, None, true)),
        (401, "missing_customer_session".to_owned())
    );
    assert_eq!(
        refusal(authenticate_mfa_aware(&ctx, Some("tok".to_owned()), false)),
        (503, "mfa_state_unavailable".to_owned())
    );
    ctx.aal = "aal2".to_owned();
    assert!(matches!(authenticate_mfa_aware(&ctx, None, false), AssuranceStep::Admit));
    let factor = |status: &str| Factor {
        id: "f".to_owned(),
        factor_type: Some("totp".to_owned()),
        status: Some(status.to_owned()),
        friendly_name: None,
    };
    assert!(check_factors(Ok(vec![factor("unverified")])).is_ok());
    assert_eq!(
        error(&check_factors(Ok(vec![factor("unverified"), factor("verified")])).err().unwrap()),
        (401, "mfa_step_up_required".to_owned())
    );
    let down = SupabaseAuthError::Unavailable("x".to_owned());
    let reply = check_factors(Err(down)).err().unwrap();
    assert_eq!(error(&reply), (503, "mfa_state_unavailable".to_owned()));
    assert_eq!(body(&reply)["dependency"], "supabase");
}

#[test]
fn failed_logins_show_the_page_again_or_give_way() {
    let page = |error, status| match supabase_auth_error_response(&error, status) {
        LoginRetry::Page(status) => status,
        LoginRetry::Refuse(reply) => reply.status + 1000,
    };
    assert_eq!(page(SupabaseAuthError::Invalid("x"), 200), 400);
    assert_eq!(page(SupabaseAuthError::Rejected("x".to_owned()), 200), 401);
    assert_eq!(page(SupabaseAuthError::Rejected("x".to_owned()), 400), 401);
    assert_eq!(page(SupabaseAuthError::Rejected("x".to_owned()), 429), 401);
    assert_eq!(page(SupabaseAuthError::Unavailable("x".to_owned()), 200), 1503);
}

#[test]
fn answers_with_customer_data_are_never_cached() {
    for path in ["/login", "/login/otp", "/logout", "/app", "/app/x", "/api/customer/context"] {
        assert!(security_headers(path, false), "{path}");
    }
    for path in ["/", "/docs/api", "/api/info", "/logout/x"] {
        assert!(!security_headers(path, false), "{path}");
    }
    assert!(security_headers("/", true));
    let mut h = HeaderMap::new();
    h.append("cache-control", "public".parse().unwrap());
    h.append("cache-control", "max-age=1".parse().unwrap());
    h.insert("x-other", "kept".parse().unwrap());
    assert!(apply_sensitive_response_headers(&mut h));
    assert_eq!(h.get_all("cache-control").iter().collect::<Vec<_>>(), ["no-store"]);
    assert_eq!(h["pragma"], "no-cache");
    assert_eq!(h["referrer-policy"], "same-origin");
    assert_eq!(
        h["content-security-policy"],
        "default-src 'self'; frame-ancestors 'none'; base-uri 'none'; form-action 'self'; object-src 'none'; connect-src 'self'; img-src 'self' data:; style-src 'self' 'sha256-faU7yAF8NxuMTNEwVmBz+VcYeIoBQ2EMHW3WaVxCvnk='"
    );
    assert_eq!(h["x-other"], "kept");
    assert_eq!(h.len(), 5);
    let mut full = HeaderMap::new();
    for i in 0.. {
        let name: axum::http::HeaderName = format!("x-{i}").parse().unwrap();
        if full.try_insert(name, HeaderValue::from_static("v")).is_err() {
            break;
        }
    }
    assert!(!apply_sensitive_response_headers(&mut full));
}

#[test]
fn origins_are_exact() {
    let good = |s: &str| parse_customer_app_origin(s).ok().unwrap();
    assert_eq!(good("https://app.fiducia.cloud"), "https://app.fiducia.cloud");
    assert_eq!(good(" http://localhost:3000/ "), "http://localhost:3000");
    for (bad, message) in [
        ("not a uri", "CUSTOMER_APP_ORIGIN must be an absolute http(s) origin"),
        ("/app", "CUSTOMER_APP_ORIGIN must contain only an http(s) scheme and host"),
        ("ftp://x", "CUSTOMER_APP_ORIGIN must contain only an http(s) scheme and host"),
        ("https://u@x", "CUSTOMER_APP_ORIGIN must contain only an http(s) scheme and host"),
        ("https://x/app", "CUSTOMER_APP_ORIGIN must not contain a path, query, or fragment"),
        ("https://x?q", "CUSTOMER_APP_ORIGIN must not contain a path, query, or fragment"),
        ("HTTPS://x", "CUSTOMER_APP_ORIGIN must be a single exact origin"),
    ] {
        assert_eq!(parse_customer_app_origin(bad), Err(message), "{bad}");
    }
    assert_eq!(customer_app_origin_from_env(Setting::Unset), Ok(None));
    assert_eq!(customer_app_origin_from_env(Setting::Given("  ")), Ok(None));
    assert_eq!(
        customer_app_origin_from_env(Setting::NotText),
        Err("CUSTOMER_APP_ORIGIN must be valid UTF-8")
    );
    assert_eq!(
        customer_app_origin_from_env(Setting::Given("https://x")),
        Ok(Some(HeaderValue::from_static("https://x")))
    );
    assert!(customer_app_origin_from_env(Setting::Given("x y")).is_err());
    let parts = |path: Option<&str>| {
        Some(UriParts {
            scheme: Some("https".to_owned()),
            authority: Some("h".to_owned()),
            path_and_query: path.map(str::to_owned),
        })
    };
    assert_eq!(origin_from_parts("https://h", parts(None)).ok().unwrap(), "https://h");
    assert_eq!(origin_from_parts("https://h/", parts(Some("/"))).ok().unwrap(), "https://h");
    assert_eq!(
        origin_from_parts("https://H", parts(None)),
        Err("CUSTOMER_APP_ORIGIN must be a single exact origin")
    );
}

#[test]
fn the_portal_has_its_host() {
    let mut h = HeaderMap::new();
    assert!(!host_serves_customer_app(&h, "app.fiducia.cloud", false));
    assert!(host_serves_customer_app(&h, "app.fiducia.cloud", true));
    h.insert("host", "APP.fiducia.cloud:8080".parse().unwrap());
    assert!(host_serves_customer_app(&h, "app.fiducia.cloud", false));
    h.insert("host", "fiducia.cloud".parse().unwrap());
    assert!(!host_serves_customer_app(&h, "app.fiducia.cloud", false));
    h.insert("host", HeaderValue::from_bytes(b"\xff").unwrap());
    assert!(!host_serves_customer_app(&h, "app.fiducia.cloud", false));
}

#[test]
fn settings_are_read_strictly() {
    assert_eq!(required_env("X", Some(" v ")), Ok(" v ".to_owned()));
    assert_eq!(required_env("X", Some(" ")), Err("X must be set".to_owned()));
    assert_eq!(required_env("X", None), Err("X must be set".to_owned()));
    assert_eq!(db_schema(None), "fiducia");
    assert_eq!(db_schema(Some(" ")), "fiducia");
    assert_eq!(db_schema(Some(" public ")), "public");
    assert!(customer_site_mode(Some("Customer")));
    assert!(!customer_site_mode(Some("customers")));
    assert!(!customer_site_mode(None));
    assert_eq!(cors_methods(), ["GET", "POST", "PUT", "DELETE", "OPTIONS"]);
    assert_eq!(
        cors_headers(),
        [
            "authorization",
            "content-type",
            "x-fiducia-org-id",
            "idempotency-key",
            "x-fiducia-csrf"
        ]
    );
}

#[test]
fn the_site_tells_of_itself() {
    assert_eq!(health(), parsed(r#"{"status":"ok","service":"fiducia-backend"}"#));
    assert_eq!(
        info("1.2.3", "app.x", true, false),
        parsed(
            r#"{
                "service": "fiducia-backend",
                "version": "1.2.3",
                "domain": "fiducia.cloud",
                "role": "website",
                "customer_portal": {
                    "host": "app.x",
                    "path": "/app",
                    "rendering": "maud+htmx",
                    "streams": { "websocket": "/app/ws", "sse": "/app/events", "heartbeat_secs": 15 },
                    "regions": ["auto", "iad1", "sfo1", "ams1", "fra1", "sin1", "syd1"],
                    "supabase_login": false
                },
                "components": { "data_plane": "fiducia-node", "control_plane": "fiducia-brain" }
            }"#
        )
    );
    let ctx = customer(&["a", "b"]);
    let reply = customer_context_json(&ctx, "csrf".to_owned());
    assert!(reply.no_store);
    assert_eq!(
        body(&reply),
        parsed(
            r#"{
                "csrf_token": null,
                "user": {
                    "user_id": "936da01f-9abd-4d9d-80c7-02af85c822a8",
                    "email": "u@x.com",
                    "orgs": ["a", "b"]
                }
            }"#
        )
    );
    let mut browser = customer(&["a"]);
    browser.cookie_authenticated = true;
    assert_eq!(body(&customer_context_json(&browser, "csrf".to_owned()))["csrf_token"], "csrf");
}

#[test]
fn bindings_are_labelled_and_bounded() {
    assert_eq!(bounded_label(" x ", 1, "f"), Ok("x".to_owned()));
    for bad in ["", " ", "xy", "\u{7f}"] {
        assert_eq!(bounded_label(bad, 1, "f"), Err("invalid f".to_owned()));
    }
    let b = normalize_binding(" Mac ", Some("  "), &time(1), &time(2)).ok().unwrap();
    assert_eq!((b.device.as_str(), b.location), ("Mac", None));
    let b = normalize_binding("Mac", Some(" Bern "), &time(1), &time(2)).ok().unwrap();
    assert_eq!(b.location.as_deref(), Some("Bern"));
    let fault = |d: &str, l: Option<&str>, from, to| {
        normalize_binding(d, l, &time(from), &time(to)).err().unwrap()
    };
    assert_eq!(
        fault("", None, 2, 2),
        "customer Shared Auth session expiry must follow MFA verification"
    );
    assert_eq!(fault("", None, 1, 2), "invalid session device");
    assert_eq!(fault("d", Some("a\nb"), 1, 2), "invalid session location");
    assert_eq!(fault(&"d".repeat(201), None, 1, 2), "invalid session device");
}

#[test]
fn sessions_are_bound_by_statements() {
    let s = bind_verified_session(1, 2, " Mac ", None, time(3), time(4)).ok().unwrap();
    assert_eq!(
        s.sql,
        r#"
            insert into customer_sessions (
              user_id,
              device,
              location,
              status,
              shared_auth_session_id,
              provider_project,
              assurance_level,
              assurance_verified_at,
              expires_at
            ) values ($1, $2, $3, 'verified', $4, $5, 'aal2', $6, $7)
            returning
              id,
              user_id,
              shared_auth_session_id,
              assurance_verified_at,
              expires_at
            "#
    );
    assert_eq!(s.values.len(), 7);
    assert!(matches!(s.values[0], SqlValue::Id(1)));
    assert!(matches!(&s.values[1], SqlValue::Text(Some(device)) if device == "Mac"));
    assert!(matches!(s.values[2], SqlValue::Text(None)));
    assert!(matches!(s.values[3], SqlValue::Id(2)));
    assert!(
        matches!(&s.values[4], SqlValue::Text(Some(name)) if name == CUSTOMER_PROVIDER_PROJECT)
    );
    assert!(matches!(s.values[5], SqlValue::Time(at) if at == time(3)));
    assert!(matches!(s.values[6], SqlValue::Time(at) if at == time(4)));
    assert!(bind_verified_session(1, 2, "Mac", None, time(4), time(3)).is_err());
    let s = verified_session_for_provider(8, 9, time(10));
    assert_eq!(
        s.sql,
        r#"
        select
          session.id,
          session.user_id,
          session.shared_auth_session_id,
          session.assurance_verified_at,
          session.expires_at
        from customer_sessions as session
        join users as local_user on local_user.id = session.user_id
        where local_user.supabase_user_id = $1
          and session.shared_auth_session_id = $2
          and session.provider_project = $3
          and session.assurance_level = 'aal2'
          and session.status = 'verified'
          and session.assurance_verified_at is not null
          and session.assurance_verified_at <= $4
          and session.expires_at is not null
          and session.expires_at > $4
        limit 1
        "#
    );
    assert_eq!(s.values.len(), 4);
    assert!(matches!(s.values[3], SqlValue::Time(at) if at == time(10)));
    let s = revoke_verified_session_for_provider(8, 9);
    assert_eq!(
        s.sql,
        r#"
            update customer_sessions as session
               set status = 'revoked'
              from users as local_user
             where local_user.id = session.user_id
               and local_user.supabase_user_id = $1
               and session.shared_auth_session_id = $2
               and session.provider_project = $3
               and session.assurance_level = 'aal2'
               and session.status = 'verified'
            returning session.id
            "#
    );
    assert_eq!(s.values.len(), 3);
    assert!(matches!(s.values[1], SqlValue::Id(9)));
    let session = VerifiedCustomerSession {
        id: 1,
        user_id: 2,
        shared_auth_session_id: 3,
        assurance_verified_at: time(4),
        expires_at: time(5),
    };
    assert_eq!(bound_session(Some(session)), Ok(session));
    assert_eq!(
        bound_session(None),
        Err("customer Shared Auth session insert returned no row".to_owned())
    );
}

#[test]
fn rows_that_are_found_are_changed() {
    match revoke_session(Ok(Some(5))) {
        ChangeStep::Put { id, column, content } => {
            assert_eq!((id, column), (5, "status"));
            assert!(matches!(content, Content::Text("revoked")));
        }
        ChangeStep::Settled(_) => panic!("the session is to be revoked"),
    }
    match mark_notification_read(Ok(Some(6))) {
        ChangeStep::Put { id, column, content } => {
            assert_eq!((id, column), (6, "read_at"));
            assert!(matches!(content, Content::Now));
        }
        ChangeStep::Settled(_) => panic!("the notification is to be marked"),
    }
    for step in [revoke_session(Ok(None)), mark_notification_read(Ok(None))] {
        assert!(matches!(step, ChangeStep::Settled(Ok(false))));
    }
    assert!(matches!(
        revoke_session(Err("down".to_owned())),
        ChangeStep::Settled(Err(message)) if message == "down"
    ));
    assert_eq!(after_change(Ok(())), Ok(true));
    assert_eq!(after_change(Err("down".to_owned())), Err("down".to_owned()));
}

fn shape(query: &Query) -> Vec<String> {
    let cell = |cell: &Cell| match cell {
        Cell::Id(id) => id.to_string(),
        Cell::Text(text) => text.clone(),
    };
    query
        .conditions
        .iter()
        .map(|condition| match &condition.test {
            Test::Equals(value) => format!("{}={}", condition.column, cell(value)),
            Test::Differs(value) => format!("{}<>{}", condition.column, cell(value)),
            Test::IsNull => format!("{} is null", condition.column),
        })
        .collect()
}

#[test]
fn queries_are_scoped_to_their_owner() {
    let q = queries::users_by_subject(5);
    assert_eq!((q.table, shape(&q)), ("users", vec!["supabase_user_id=5".to_owned()]));
    let q = queries::get_preferences(5);
    assert_eq!((q.table, shape(&q)), ("customer_preferences", vec!["user_id=5".to_owned()]));
    let q = queries::list_sessions(5);
    assert_eq!((q.table, shape(&q)), ("customer_sessions", vec!["user_id=5".to_owned()]));
    assert_eq!((q.latest_first, q.limit), (Some("last_seen"), None));
    let q = queries::list_audit_events(6, 50);
    assert_eq!((q.table, shape(&q)), ("audit_log", vec!["org_id=6".to_owned()]));
    assert_eq!((q.latest_first, q.limit), (Some("created_at"), Some(50)));
    let q = queries::revoke_session(5, "Mac");
    assert_eq!(shape(&q), ["user_id=5", "device=Mac", "status<>revoked"]);
    let q = queries::list_notifications(5, 50);
    assert_eq!((q.table, shape(&q)), ("customer_notifications", vec!["user_id=5".to_owned()]));
    let q = queries::unread_notification_count(5);
    assert_eq!(shape(&q), ["user_id=5", "read_at is null"]);
    let q = queries::mark_notification_read(5, 7);
    assert_eq!(shape(&q), ["id=7", "user_id=5", "read_at is null"]);
    let q = queries::billing_event("stripe", "evt_1");
    assert_eq!(shape(&q), ["provider=stripe", "provider_event_id=evt_1"]);
}
