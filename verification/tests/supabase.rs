use fiducia_backend::supabase_answers::{
    error_message_in, expect_success, extract_error_message, factor_items, parse_challenge,
    parse_enrollment, parse_factors, parse_session, success_document, SupabaseOutcome,
};
use fiducia_backend::supabase_auth::{
    enroll_totp_body, is_e164_phone, is_plausible_email, normalize_identifier, normalize_otp_code,
    otp_request_body, required_totp_factor, verify_factor_body, verify_otp_body, Factor, OtpChannel,
    SupabaseAuth, SupabaseAuthError, SupabaseSession, TotpChallenge,
};
use fiducia_backend::upstream::Verb;
use serde_json::Value;

fn parsed(text: &str) -> Value {
    serde_json::from_str(text).unwrap()
}

fn session(access_token: &str) -> SupabaseSession {
    SupabaseSession {
        access_token: access_token.to_owned(),
        refresh_token: Some("r".to_owned()),
        token_type: None,
        expires_in: Some(3600),
    }
}

fn totp(id: &str, status: &str) -> Factor {
    Factor {
        id: id.into(),
        factor_type: Some("totp".into()),
        status: Some(status.into()),
        friendly_name: None,
    }
}

#[test]
fn channel_maps_to_supabase_fields() {
    assert_eq!(OtpChannel::Email.field(), "email");
    assert_eq!(OtpChannel::Email.verify_type(), "email");
    assert_eq!(OtpChannel::Phone.field(), "phone");
    assert_eq!(OtpChannel::Phone.verify_type(), "sms");
}

#[test]
fn email_validation_accepts_real_and_rejects_garbage() {
    assert!(normalize_identifier(OtpChannel::Email, "  user@fiducia.cloud ").is_ok());
    for bad in ["", "no-at", "a@b", "two@@at.com", "spaces in@x.com", "@x.com"] {
        assert!(
            normalize_identifier(OtpChannel::Email, bad).is_err(),
            "should reject {bad:?}"
        );
    }
}

#[test]
fn phone_validation_is_e164_and_strips_spacing() {
    assert_eq!(
        normalize_identifier(OtpChannel::Phone, "+1 415 555 0123").unwrap(),
        "+14155550123"
    );
    for bad in ["4155550123", "+0155", "+", "+abc4155550", "+012345678"] {
        assert!(
            normalize_identifier(OtpChannel::Phone, bad).is_err(),
            "should reject {bad:?}"
        );
    }
}

#[test]
fn otp_code_must_be_six_to_eight_digits() {
    assert_eq!(normalize_otp_code(" 123456 ").unwrap(), "123456");
    for bad in ["12345", "1234567890", "12a456", "", "abcdef"] {
        assert!(normalize_otp_code(bad).is_err(), "should reject {bad:?}");
    }
}

#[test]
fn otp_request_body_carries_channel_field_and_signup_flag() {
    let email = otp_request_body(OtpChannel::Email, "u@x.com", true);
    assert_eq!(email["email"], "u@x.com");
    assert_eq!(email["should_create_user"], true);
    let phone = otp_request_body(OtpChannel::Phone, "+14155550123", false);
    assert_eq!(phone["phone"], "+14155550123");
    assert_eq!(phone["should_create_user"], false);
    assert!(phone.get("email").is_none());
}

#[test]
fn verify_body_uses_sms_type_for_phone() {
    let body = verify_otp_body(OtpChannel::Phone, "+14155550123", "123456");
    assert_eq!(body["type"], "sms");
    assert_eq!(body["phone"], "+14155550123");
    assert_eq!(body["token"], "123456");
}

#[test]
fn enroll_body_omits_blank_friendly_name() {
    assert!(enroll_totp_body("   ").get("friendly_name").is_none());
    assert_eq!(enroll_totp_body("iPhone")["friendly_name"], "iPhone");
    assert_eq!(enroll_totp_body("iPhone")["factor_type"], "totp");
}

#[test]
fn parse_session_requires_access_token() {
    assert_eq!(parse_session(Some(session("jwt"))).unwrap().access_token, "jwt");
    assert!(parse_session(Some(session(""))).is_err());
    assert!(parse_session(None).is_err());
}

#[test]
fn parse_enrollment_pulls_qr_secret_uri() {
    let value = parsed(
        r#"{
            "id": "factor-1",
            "type": "totp",
            "totp": { "qr_code": "<svg/>", "secret": "JBSWY3DP", "uri": "otpauth://totp/x" }
        }"#,
    );
    let enrollment = parse_enrollment(&value).unwrap();
    assert_eq!(enrollment.factor_id, "factor-1");
    assert_eq!(enrollment.qr_code, "<svg/>");
    assert_eq!(enrollment.secret, "JBSWY3DP");
    assert!(enrollment.uri.starts_with("otpauth://"));
    assert!(parse_enrollment(&parsed(r#"{ "id": "f", "totp": {} }"#)).is_err());
}

#[test]
fn step_up_requires_a_verified_totp_factor() {
    assert!(required_totp_factor(&[]).is_none());

    let unverified = vec![Factor {
        id: "f1".into(),
        factor_type: Some("totp".into()),
        status: Some("unverified".into()),
        friendly_name: None,
    }];
    assert!(required_totp_factor(&unverified).is_none());

    let verified = vec![Factor {
        id: "f2".into(),
        factor_type: Some("totp".into()),
        status: Some("verified".into()),
        friendly_name: Some("Authy".into()),
    }];
    assert_eq!(required_totp_factor(&verified).as_deref(), Some("f2"));
}

#[test]
fn error_message_extraction_prefers_gotrue_fields() {
    assert_eq!(
        extract_error_message(r#"{"error_description":"Invalid OTP"}"#),
        "Invalid OTP"
    );
    assert_eq!(extract_error_message(r#"{"msg":"otp expired"}"#), "otp expired");
    assert_eq!(
        extract_error_message("   "),
        "supabase returned a non-success status with no body"
    );
}

#[test]
fn endpoint_join_is_slash_safe() {
    let auth = SupabaseAuth::new("https://proj.supabase.co/", "anon-key");
    assert_eq!(auth.endpoint("otp"), "https://proj.supabase.co/auth/v1/otp");
    assert_eq!(
        auth.endpoint("/factors/abc/verify"),
        "https://proj.supabase.co/auth/v1/factors/abc/verify"
    );
}

#[test]
fn the_first_verified_factor_counts_and_unfinished_ones_do_not() {
    let factors = vec![totp("a", "unverified"), totp("b", "verified"), totp("c", "verified")];
    assert_eq!(required_totp_factor(&factors).as_deref(), Some("b"));
    let mut phone = totp("p", "verified");
    phone.factor_type = Some("phone".into());
    assert!(!phone.is_verified_totp());
    assert!(required_totp_factor(&[phone]).is_none());
    let mut bare = totp("x", "verified");
    bare.status = None;
    assert!(!bare.is_verified_totp());
}

#[test]
fn addresses_and_numbers_at_their_limits() {
    assert!(is_plausible_email("a@b.c"));
    for bad in ["a@.b", "a@b.", "a@", "a b@c.d", "a@b.c@d.e"] {
        assert!(!is_plausible_email(bad), "{bad}");
    }
    let longest = format!("{}@b.c", "x".repeat(316));
    assert!(is_plausible_email(&longest));
    assert!(!is_plausible_email(&format!("x{longest}")));
    // Bytes count, not characters.
    assert!(!is_plausible_email(&format!("{}@b.c", "é".repeat(159))));
    assert!(is_e164_phone("+1234567"));
    assert!(!is_e164_phone("+123456"));
    assert!(is_e164_phone("+123456789012345"));
    assert!(!is_e164_phone("+1234567890123456"));
    assert!(!is_e164_phone("1234567"));
    assert_eq!(
        normalize_identifier(OtpChannel::Phone, " +1\u{a0}415\t555 0123 ").unwrap(),
        "+14155550123"
    );
    assert_eq!(normalize_otp_code("12345678").unwrap(), "12345678");
    assert!(normalize_otp_code("123456789").is_err());
    assert!(normalize_otp_code("١٢٣٤٥٦").is_err());
}

#[test]
fn what_is_normal_is_left_alone() {
    let email = normalize_identifier(OtpChannel::Email, "  A@b.c ").unwrap();
    assert_eq!(email, "A@b.c");
    assert_eq!(normalize_identifier(OtpChannel::Email, &email).unwrap(), email);
    let phone = normalize_identifier(OtpChannel::Phone, "+1 2345 678").unwrap();
    assert_eq!(normalize_identifier(OtpChannel::Phone, &phone).unwrap(), phone);
    let code = normalize_otp_code("\n654321 ").unwrap();
    assert_eq!(normalize_otp_code(&code).unwrap(), code);
}

#[test]
fn errors_in_words() {
    assert_eq!(
        normalize_otp_code("x").unwrap_err().message(),
        "invalid input: code must be 6–8 digits"
    );
    assert_eq!(
        normalize_identifier(OtpChannel::Email, "x").unwrap_err().message(),
        "invalid input: email is not well-formed"
    );
    assert_eq!(
        normalize_identifier(OtpChannel::Phone, "x").unwrap_err().message(),
        "invalid input: phone must be E.164, e.g. +14155550123"
    );
    assert_eq!(
        SupabaseAuthError::Rejected("no".to_owned()).message(),
        "supabase rejected request: no"
    );
    assert_eq!(
        SupabaseAuthError::Unavailable("down".to_owned()).message(),
        "supabase unavailable: down"
    );
}

#[test]
fn requests_go_to_the_project_with_its_key() {
    let auth = SupabaseAuth::new("https://p.supabase.co//", "anon");
    let call = auth.send_otp(OtpChannel::Phone, "+1 415 555 0123", true).ok().unwrap();
    assert_eq!(call.verb, Verb::Post);
    assert_eq!(call.url, "https://p.supabase.co/auth/v1/otp");
    assert_eq!(call.apikey, "anon");
    assert_eq!(call.bearer, None);
    assert_eq!(call.body.unwrap()["phone"], "+14155550123");
    assert!(auth.send_otp(OtpChannel::Phone, "x", true).is_err());

    let call = auth.verify_otp(OtpChannel::Email, " u@x.com", "123456 ").ok().unwrap();
    assert_eq!(call.url, "https://p.supabase.co/auth/v1/verify");
    let body = call.body.unwrap();
    assert_eq!(body["type"], "email");
    assert_eq!(body["email"], "u@x.com");
    assert_eq!(body["token"], "123456");
    assert!(auth.verify_otp(OtpChannel::Email, "u@x.com", "1").is_err());
    assert!(auth.verify_otp(OtpChannel::Email, "u", "123456").is_err());

    let call = auth.list_factors("tok");
    assert_eq!((call.verb, call.url.as_str()), (Verb::Get, "https://p.supabase.co/auth/v1/user"));
    assert_eq!(call.bearer.as_deref(), Some("tok"));
    assert!(call.body.is_none());

    let call = auth.enroll_totp("tok", " Phone ");
    assert_eq!(call.url, "https://p.supabase.co/auth/v1/factors");
    assert_eq!(call.body.unwrap()["friendly_name"], "Phone");

    let call = auth.challenge("tok", "f1");
    assert_eq!(call.url, "https://p.supabase.co/auth/v1/factors/f1/challenge");
    assert_eq!(call.body.unwrap(), parsed("{}"));

    let challenge = TotpChallenge { challenge_id: "c1".to_owned(), factor_id: "f1".to_owned() };
    let call = auth.verify_factor("tok", &challenge, "123456").ok().unwrap();
    assert_eq!(call.url, "https://p.supabase.co/auth/v1/factors/f1/verify");
    assert_eq!(call.body.unwrap(), verify_factor_body("c1", "123456"));
    assert_eq!(verify_factor_body("c1", "123456")["challenge_id"], "c1");
    assert_eq!(verify_factor_body("c1", "123456")["code"], "123456");
    assert!(auth.verify_factor("tok", &challenge, "").is_err());

    let call = auth.unenroll("tok", "f1");
    assert_eq!(
        (call.verb, call.url.as_str()),
        (Verb::Delete, "https://p.supabase.co/auth/v1/factors/f1")
    );
}

#[test]
fn answers_come_to_a_document_or_an_error() {
    let ok = expect_success(SupabaseOutcome::Answered(200, r#"{"a":[1,null]}"#.to_owned()));
    assert_eq!(ok.unwrap(), parsed(r#"{"a":[1,null]}"#));
    let blank = expect_success(SupabaseOutcome::Answered(204, " \n".to_owned()));
    assert_eq!(blank.unwrap(), Value::Null);
    match expect_success(SupabaseOutcome::Answered(200, "<html>".to_owned())) {
        Err(SupabaseAuthError::Unavailable(detail)) => {
            let expected = serde_json::from_str::<Value>("<html>").unwrap_err().to_string();
            assert_eq!(detail, expected);
        }
        _ => panic!("a success must be JSON"),
    }
    match expect_success(SupabaseOutcome::Answered(422, r#"{"msg":"otp expired"}"#.to_owned())) {
        Err(SupabaseAuthError::Rejected(detail)) => assert_eq!(detail, "otp expired"),
        _ => panic!("the request was refused"),
    }
    match expect_success(SupabaseOutcome::Failed("timeout".to_owned())) {
        Err(SupabaseAuthError::Unavailable(detail)) => assert_eq!(detail, "timeout"),
        _ => panic!("no answer came"),
    }
    assert_eq!(success_document("x", Ok(Value::Bool(true))).unwrap(), Value::Bool(true));
    assert!(success_document("x", Err("bad".to_owned())).is_err());
    assert_eq!(success_document(" ", Err("bad".to_owned())).unwrap(), Value::Null);
}

#[test]
fn reasons_are_taken_from_the_first_filled_field() {
    let both = parsed(r#"{"error":"e","message":"m","msg":"","error_description":7}"#);
    assert_eq!(error_message_in("body", Some(&both)), "m");
    let last = parsed(r#"{"error":"e"}"#);
    assert_eq!(error_message_in("body", Some(&last)), "e");
    assert_eq!(error_message_in(" body ", Some(&parsed("[]"))), "body");
    assert_eq!(error_message_in(" body ", None), "body");
    let long = "é".repeat(300);
    assert_eq!(extract_error_message(&long), "é".repeat(200));
}

#[test]
fn factors_are_listed_as_far_as_they_can_be_read() {
    let user = parsed(r#"{"factors":[{"id":"a"},7]}"#);
    assert_eq!(factor_items(&user), vec![parsed(r#"{"id":"a"}"#), parsed("7")]);
    assert!(factor_items(&parsed(r#"{"factors":{}}"#)).is_empty());
    assert!(factor_items(&parsed("[]")).is_empty());
    let read = parse_factors(vec![
        Some(totp("a", "verified")),
        None,
        Some(totp("b", "unverified")),
        Some(totp("c", "verified")),
        None,
    ]);
    let ids: Vec<&str> = read.iter().map(|factor| factor.id.as_str()).collect();
    assert_eq!(ids, ["a", "b", "c"]);
}

#[test]
fn a_challenge_needs_an_id() {
    let challenge = parse_challenge(&parsed(r#"{"id":"c1"}"#), "f1").unwrap();
    assert_eq!(challenge.challenge_id, "c1");
    assert_eq!(challenge.factor_id, "f1");
    match parse_challenge(&parsed(r#"{"id":1}"#), "f1") {
        Err(SupabaseAuthError::Unavailable(detail)) => {
            assert_eq!(detail, "challenge response missing id")
        }
        _ => panic!("the id is missing"),
    }
}
