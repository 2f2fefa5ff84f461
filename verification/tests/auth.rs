use axum::http::header::AUTHORIZATION;
use axum::http::HeaderMap;
use fiducia_backend::auth::{
    authenticated, authorization_token, bearer_token, cookie_name_present, cookie_value,
    customer_login_csrf_cookie_name, customer_session_cookie_name, default_assurance_level,
    presented_credential, user_document, AuthOutcome, AuthStep, Authenticator, CredentialSelection, CustomerCtx,
    Identity, PresentedCredential, CUSTOMER_SESSION_COOKIE,
};
use fiducia_backend::reply::{Body, Reply};

fn code(reply: &Reply) -> (u16, String) {
    match &reply.body {
        Body::Json(value) => {
            assert_eq!(value["ok"], false);
            (reply.status, value["error"].as_str().unwrap().to_owned())
        }
        _ => panic!("a refusal has a JSON body"),
    }
}

fn identity(user_id: &str, orgs: &[&str]) -> Identity {
    Identity {
        user_id: user_id.to_owned(),
        email: Some("u@example.com".to_owned()),
        orgs: orgs.iter().map(|org| (*org).to_owned()).collect(),
        aal: default_assurance_level(),
    }
}

fn credential(cookie_authenticated: bool) -> PresentedCredential {
    PresentedCredential { token: "a.jwt".to_owned(), cookie_authenticated }
}

fn refusal(r: Result<CustomerCtx, Reply>) -> (u16, String) {
    match r {
        Ok(_) => panic!("must be refused"),
        Err(reply) => code(&reply),
    }
}

#[test]
fn identity_outage_denies_instead_of_falling_through() {
    let deny_all = Authenticator::Deny;
    match deny_all.authenticate(&HeaderMap::new(), true) {
        AuthStep::Settled(Err(denied)) => assert_eq!(denied.status, 503),
        _ => panic!("unconfigured auth must deny"),
    }

    let unreachable = Authenticator::AuthService("http://127.0.0.1:9".to_owned());
    let mut headers = HeaderMap::new();
    headers.insert(AUTHORIZATION, "Bearer plausible.jwt".parse().unwrap());
    match unreachable.authenticate(&headers, true) {
        AuthStep::Verify { url, credential } => {
            assert_eq!(url, "http://127.0.0.1:9/v1/me");
            assert_eq!(credential.token, "plausible.jwt");
            let refused = authenticated(&credential, AuthOutcome::Unreachable);
            assert_eq!(refusal(refused), (503, "auth_unreachable".to_owned()));
        }
        _ => panic!("a presented credential must be verified"),
    }
}

#[test]
fn customer_cookie_is_isolated_from_admin_cookie() {
    let mut headers = HeaderMap::new();
    headers.insert(
        "cookie",
        format!("fiducia_admin_session=admin.jwt; {CUSTOMER_SESSION_COOKIE}=customer.jwt")
            .parse()
            .unwrap(),
    );
    assert_eq!(bearer_token(&headers, true).as_deref(), Some("customer.jwt"));

    headers.insert("cookie", "fiducia_admin_session=admin.jwt".parse().unwrap());
    assert_eq!(bearer_token(&headers, true), None);
}

#[test]
fn explicit_bearer_beats_ambient_cookie() {
    let mut headers = HeaderMap::new();
    headers.insert(AUTHORIZATION, "Bearer explicit.jwt".parse().unwrap());
    headers.insert(
        "cookie",
        format!("{CUSTOMER_SESSION_COOKIE}=ambient.jwt").parse().unwrap(),
    );
    match presented_credential(&headers, true) {
        CredentialSelection::Valid(credential) => {
            assert_eq!(credential.token, "explicit.jwt");
            assert!(
                !credential.cookie_authenticated,
                "an explicit Authorization credential must not be tagged as cookie-borne"
            );
        }
        _ => panic!("explicit bearer plus ambient cookie must select the bearer"),
    }
    assert_eq!(bearer_token(&headers, true).as_deref(), Some("explicit.jwt"));
}

#[test]
fn empty_org_membership_is_forbidden() {
    let denied = authenticated(
        &PresentedCredential { token: "orgless.jwt".to_owned(), cookie_authenticated: false },
        AuthOutcome::Answered(200, Some(identity("user-1", &[]))),
    );
    assert_eq!(refusal(denied), (403, "no_org_membership".to_owned()));
}

#[test]
fn malformed_authorization_never_downgrades_to_cookie() {
    let mut headers = HeaderMap::new();
    headers.insert(AUTHORIZATION, "Basic not-a-bearer".parse().unwrap());
    headers.insert(
        "cookie",
        format!("{CUSTOMER_SESSION_COOKIE}=ambient.jwt").parse().unwrap(),
    );
    assert_eq!(bearer_token(&headers, true), None);
    assert!(matches!(presented_credential(&headers, true), CredentialSelection::Invalid));
}

#[test]
fn duplicate_authorization_headers_are_rejected() {
    let mut headers = HeaderMap::new();
    headers.append(AUTHORIZATION, "Bearer first.jwt".parse().unwrap());
    headers.append(AUTHORIZATION, "Bearer second.jwt".parse().unwrap());
    assert_eq!(bearer_token(&headers, true), None);
}

#[test]
fn duplicate_customer_cookies_are_rejected() {
    let mut headers = HeaderMap::new();
    headers.append("cookie", format!("{CUSTOMER_SESSION_COOKIE}=first.jwt").parse().unwrap());
    headers.append("cookie", format!("{CUSTOMER_SESSION_COOKIE}=second.jwt").parse().unwrap());
    assert_eq!(bearer_token(&headers, true), None);
}

#[test]
fn release_cookie_names_are_host_only() {
    assert_eq!(customer_session_cookie_name(true), "__Host-fiducia_customer_session");
    assert_eq!(customer_login_csrf_cookie_name(true), "__Host-fiducia_customer_login_csrf");
    assert!(!customer_session_cookie_name(false).starts_with("__Host-"));
}

#[test]
fn debug_cookie_names_are_plain() {
    assert_eq!(customer_session_cookie_name(false), "fiducia_customer_session");
    assert_eq!(customer_login_csrf_cookie_name(false), "fiducia_customer_login_csrf");
    let mut headers = HeaderMap::new();
    headers.insert("cookie", "fiducia_customer_session=dev.jwt".parse().unwrap());
    assert_eq!(bearer_token(&headers, false).as_deref(), Some("dev.jwt"));
    assert_eq!(bearer_token(&headers, true), None);
}

#[test]
fn cookies_are_read_leniently_but_only_once() {
    let mut headers = HeaderMap::new();
    headers.insert("cookie", " a = 1 ;b;x=; x = two=2 ;c=3".parse().unwrap());
    assert_eq!(cookie_value(&headers, "a "), Some("1".to_owned()));
    assert_eq!(cookie_value(&headers, "a"), None);
    assert_eq!(cookie_value(&headers, "b"), None);
    assert!(!cookie_name_present(&headers, "b"));
    assert_eq!(cookie_value(&headers, "x"), None);
    assert!(cookie_name_present(&headers, "x"));
    assert_eq!(cookie_value(&headers, "x "), Some("two=2".to_owned()));
    assert_eq!(cookie_value(&headers, "c"), Some("3".to_owned()));

    // A session cookie that is given twice is no credential, whatever its values are.
    for hardened in [true, false] {
        let name = customer_session_cookie_name(hardened);
        for twice in [
            format!("{name}=; {name}=a.jwt"),
            format!("{name}=a.jwt; {name}="),
            format!("{name}=a.jwt; {name}=a.jwt"),
            format!("{name}=; {name}="),
        ] {
            let mut repeated = HeaderMap::new();
            repeated.insert("cookie", twice.parse().unwrap());
            assert!(
                matches!(presented_credential(&repeated, hardened), CredentialSelection::Invalid),
                "{twice}"
            );
            assert_eq!(bearer_token(&repeated, hardened), None);
        }
    }

    let mut blank = HeaderMap::new();
    blank.insert("cookie", format!("{CUSTOMER_SESSION_COOKIE}=  ").parse().unwrap());
    assert!(matches!(presented_credential(&blank, true), CredentialSelection::Invalid));
    assert!(matches!(
        presented_credential(&HeaderMap::new(), true),
        CredentialSelection::Missing
    ));
}

#[test]
fn unreadable_headers_are_passed_over_or_rejected() {
    let mut headers = HeaderMap::new();
    headers.append(
        "cookie",
        axum::http::HeaderValue::from_bytes(b"a=\xff").unwrap(),
    );
    headers.append("cookie", "a=1".parse().unwrap());
    assert_eq!(cookie_value(&headers, "a"), Some("1".to_owned()));
    headers.insert(
        AUTHORIZATION,
        axum::http::HeaderValue::from_bytes(b"Bearer \xff").unwrap(),
    );
    assert_eq!(authorization_token(&headers), None);
    headers.insert(AUTHORIZATION, "Bearer ".parse().unwrap());
    assert_eq!(authorization_token(&headers), None);
    headers.insert(AUTHORIZATION, "bearer x".parse().unwrap());
    assert_eq!(authorization_token(&headers), None);
    headers.insert(AUTHORIZATION, "Bearer x y".parse().unwrap());
    assert_eq!(authorization_token(&headers), Some("x y".to_owned()));
}

#[test]
fn the_auth_service_decides_and_nothing_else_lets_in() {
    let outcome = |status, who| refusal(authenticated(&credential(true), AuthOutcome::Answered(status, who)));
    assert_eq!(outcome(401, None), (401, "invalid_or_expired_session".to_owned()));
    assert_eq!(outcome(403, None), (401, "invalid_or_expired_session".to_owned()));
    assert_eq!(outcome(500, None), (503, "auth_unavailable".to_owned()));
    assert_eq!(outcome(302, Some(identity("u", &["o"]))), (503, "auth_unavailable".to_owned()));
    assert_eq!(outcome(200, None), (502, "auth_bad_response".to_owned()));
    assert_eq!(
        outcome(200, Some(identity("  ", &["o"]))),
        (502, "auth_bad_response".to_owned())
    );
    match Authenticator::AuthService("https://auth".to_owned()).authenticate(&HeaderMap::new(), true)
    {
        AuthStep::Settled(Err(reply)) => {
            assert_eq!(code(&reply), (401, "missing_customer_session".to_owned()))
        }
        _ => panic!("a credential is missing"),
    }
    let mut headers = HeaderMap::new();
    headers.insert(AUTHORIZATION, "Basic x".parse().unwrap());
    match Authenticator::AuthService("https://auth".to_owned()).authenticate(&headers, true) {
        AuthStep::Settled(Err(reply)) => {
            assert_eq!(code(&reply), (401, "invalid_customer_session".to_owned()))
        }
        _ => panic!("the credential is invalid"),
    }
}

#[test]
fn the_user_is_picked_out_of_the_answer() {
    let body: serde_json::Value =
        serde_json::from_str(r#"{"user":{"user_id":"u"},"other":1}"#).unwrap();
    assert_eq!(user_document(&body)["user_id"], "u");
    assert_eq!(user_document(&serde_json::Value::Null), serde_json::Value::Null);
    let without: serde_json::Value = serde_json::from_str(r#"{"other":1}"#).unwrap();
    assert!(user_document(&without).is_null());
}

#[test]
fn sessions_are_bound_to_their_credential() {
    let by_cookie =
        authenticated(&credential(true), AuthOutcome::Answered(200, Some(identity("u", &["o", "p"]))))
            .ok()
            .unwrap();
    assert_eq!(by_cookie.csrf_binding(), "cookie\0a.jwt");
    assert!(by_cookie.is_browser_session());
    assert!(!by_cookie.is_aal2());
    assert_eq!(by_cookie.orgs, ["o", "p"]);
    let by_header =
        authenticated(&credential(false), AuthOutcome::Answered(204, Some(identity("u", &["o"]))))
            .ok()
            .unwrap();
    assert_eq!(by_header.csrf_binding(), "authorization\0a.jwt");
    assert!(!by_header.is_browser_session());
    assert_eq!(by_header.clone().user_id, "u");
    assert_eq!(by_header.email.as_deref(), Some("u@example.com"));
}

#[test]
fn only_debug_builds_can_have_the_fixed_session() {
    match Authenticator::from_env(true, Some("1"), Some("https://auth/")) {
        Authenticator::Static(ctx) => {
            assert_eq!(ctx.user_id, "fiducia-e2e-customer");
            assert!(ctx.is_aal2());
            assert!(ctx.is_browser_session());
            assert!(!ctx.cookie_authenticated);
            assert_eq!(ctx.orgs, ["00000000-0000-4000-8000-000000000001"]);
            match Authenticator::Static(ctx.clone()).authenticate(&HeaderMap::new(), false) {
                AuthStep::Settled(Ok(session)) => assert_eq!(session.user_id, ctx.user_id),
                _ => panic!("the fixed session needs no credential"),
            }
        }
        _ => panic!("the fixed session was asked for"),
    }
    match Authenticator::from_env(false, Some("1"), Some("https://auth//")) {
        Authenticator::AuthService(url) => assert_eq!(url, "https://auth"),
        _ => panic!("an auth service is configured"),
    }
    assert!(matches!(
        Authenticator::from_env(true, Some("0"), Some("  ")),
        Authenticator::Deny
    ));
    assert!(matches!(Authenticator::from_env(false, None, None), Authenticator::Deny));
}
