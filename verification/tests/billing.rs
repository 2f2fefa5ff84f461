use axum::http::HeaderMap;
use fiducia_backend::billing::{
    after_fetch, after_judgement, begin_record, begin_verify, is_exact_redelivery, record,
    verified_payload_sha256, verify, webhook, Ingest, IngestError, InsertOutcome, Provider, Reject,
    StoredEventIdentity, VerifiedEvent, VerifyStep, WebhookOutcome,
};
use fiducia_backend::reply::{Body, Reply};
use sha2::{Digest, Sha256};

fn event(provider: Provider, id: &str, event_type: &str, payload: &[u8]) -> VerifiedEvent {
    VerifiedEvent {
        provider,
        id: id.to_owned(),
        event_type: event_type.to_owned(),
        payload: payload.to_vec(),
    }
}

fn stored<'a>(
    provider: &'a str,
    id: &'a str,
    event_type: &'a str,
    signature_verified: bool,
    digest: &'a str,
) -> StoredEventIdentity<'a> {
    StoredEventIdentity {
        provider,
        provider_event_id: id,
        event_type,
        signature_verified,
        payload_sha256: digest,
    }
}

fn answer(reply: Reply) -> (u16, String) {
    match reply.body {
        Body::Json(value) => (reply.status, value["error"].as_str().unwrap_or("").to_owned()),
        _ => panic!("the answer is JSON"),
    }
}

#[test]
fn exact_authenticated_redelivery_is_a_safe_no_op() {
    let incoming = event(
        Provider::Stripe,
        "evt_1",
        "invoice.paid",
        br#"{"id":"evt_1","type":"invoice.paid"}"#,
    );
    let digest = verified_payload_sha256(&incoming);
    assert!(is_exact_redelivery(
        stored("stripe", "evt_1", "invoice.paid", true, &digest),
        &incoming,
        &digest,
    ));
}

#[test]
fn reused_identity_with_different_verified_payload_fails_closed() {
    let first = event(
        Provider::Stripe,
        "evt_1",
        "invoice.paid",
        br#"{"id":"evt_1","type":"invoice.paid","amount":100}"#,
    );
    let second = event(
        Provider::Stripe,
        "evt_1",
        "invoice.paid",
        br#"{"id":"evt_1","type":"invoice.paid","amount":101}"#,
    );
    let first_digest = verified_payload_sha256(&first);
    let second_digest = verified_payload_sha256(&second);
    assert_ne!(first_digest, second_digest);
    assert!(!is_exact_redelivery(
        stored("stripe", "evt_1", "invoice.paid", true, &first_digest),
        &second,
        &second_digest,
    ));
}

#[test]
fn reused_identity_with_different_event_type_fails_closed() {
    let incoming = event(
        Provider::Paypal,
        "WH-1",
        "PAYMENT.CAPTURE.DENIED",
        br#"{"id":"WH-1","event_type":"PAYMENT.CAPTURE.DENIED"}"#,
    );
    let digest = verified_payload_sha256(&incoming);
    assert!(!is_exact_redelivery(
        stored("paypal", "WH-1", "PAYMENT.CAPTURE.COMPLETED", true, &digest),
        &incoming,
        &digest,
    ));
}

#[test]
fn unverified_or_different_identity_never_counts_as_deduped() {
    let incoming = event(
        Provider::Stripe,
        "evt_1",
        "invoice.paid",
        br#"{"id":"evt_1","type":"invoice.paid"}"#,
    );
    let digest = verified_payload_sha256(&incoming);

    for candidate in [
        stored("stripe", "evt_1", "invoice.paid", false, &digest),
        stored("paypal", "evt_1", "invoice.paid", true, &digest),
        stored("stripe", "evt_2", "invoice.paid", true, &digest),
    ] {
        assert!(!is_exact_redelivery(candidate, &incoming, &digest));
    }
}

#[test]
fn digest_is_bound_to_the_payload_retained_by_verified_event() {
    let event = event(Provider::Stripe, "evt_1", "invoice.paid", b"verified-provider-bytes");
    assert_eq!(
        verified_payload_sha256(&event),
        hex::encode(Sha256::digest(b"verified-provider-bytes"))
    );
}

#[test]
fn the_digest_is_sha256_in_lower_case() {
    let empty = event(Provider::Stripe, "e", "t", b"");
    assert_eq!(
        verified_payload_sha256(&empty),
        "e3b0c44298fc1c149afbf4c8996fb92427ae41e4649b934ca495991b7852b855"
    );
    let abc = event(Provider::Stripe, "e", "t", b"abc");
    assert_eq!(
        verified_payload_sha256(&abc),
        "ba7816bf8f01cfea414140de5dae2223b00361a396177a9cb410ff61f20015ad"
    );
}

#[test]
fn a_fresh_event_is_recorded_as_it_is() {
    let incoming = event(Provider::Paypal, "WH-1", "PAYMENT.CAPTURE.DENIED", b"abc");
    let row = begin_record(true, &incoming).ok().unwrap();
    assert_eq!(row.provider, "paypal");
    assert_eq!(row.provider_event_id, "WH-1");
    assert_eq!(row.event_type, "PAYMENT.CAPTURE.DENIED");
    assert!(row.signature_verified);
    assert_eq!(row.payload_sha256, verified_payload_sha256(&incoming));
    assert!(matches!(record(&incoming, InsertOutcome::Inserted), Ok(Ingest::Recorded)));
    assert!(matches!(begin_record(false, &incoming), Err(IngestError::Unavailable)));
}

#[test]
fn a_second_delivery_is_a_repetition_or_a_conflict() {
    let incoming = event(Provider::Stripe, "evt_1", "invoice.paid", b"abc");
    let row = begin_record(true, &incoming).ok().unwrap();
    let again = stored(
        &row.provider,
        &row.provider_event_id,
        &row.event_type,
        row.signature_verified,
        &row.payload_sha256,
    );
    assert!(matches!(record(&incoming, InsertOutcome::Taken(Some(again))), Ok(Ingest::Deduped)));
    let other = event(Provider::Stripe, "evt_1", "invoice.paid", b"abd");
    assert!(matches!(
        record(&other, InsertOutcome::Taken(Some(again))),
        Err(IngestError::IdentityConflict)
    ));
    assert!(matches!(
        record(&incoming, InsertOutcome::Taken(None)),
        Err(IngestError::IdentityConflict)
    ));
    assert!(matches!(
        record(&incoming, InsertOutcome::Failed("down".to_owned())),
        Err(IngestError::Db(_))
    ));
}

#[test]
fn every_outcome_of_a_webhook_has_its_answer() {
    assert_eq!(
        answer(webhook(&WebhookOutcome::UnknownProvider)),
        (404, "unknown_provider".to_owned())
    );
    for (reject, status, code) in [
        (Reject::NotConfigured, 503, "provider_not_configured"),
        (Reject::MissingHeader, 400, "missing_signature_header"),
        (Reject::CertFetchFailed, 502, "cert_fetch_failed"),
        (Reject::Signature, 400, "signature_verification_failed"),
    ] {
        assert_eq!(answer(reject.response()), (status, code.to_owned()));
        assert_eq!(
            answer(webhook(&WebhookOutcome::Rejected(reject))),
            (status, code.to_owned())
        );
    }
    for (error, status, code) in [
        (IngestError::IdentityConflict, 409, "event_identity_conflict"),
        (IngestError::Unavailable, 503, "storage_unavailable"),
        (IngestError::Db("x".to_owned()), 500, "persist_failed"),
    ] {
        assert_eq!(
            answer(webhook(&WebhookOutcome::NotIngested(error))),
            (status, code.to_owned())
        );
    }
    for (ingest, deduped) in [(Ingest::Recorded, false), (Ingest::Deduped, true)] {
        let reply = webhook(&WebhookOutcome::Ingested(ingest));
        assert_eq!(reply.status, 200);
        match reply.body {
            Body::Json(value) => {
                assert_eq!(value["ok"], true);
                assert_eq!(value["deduped"], deduped);
            }
            _ => panic!("the answer is JSON"),
        }
    }
}

#[test]
fn stripe_needs_a_secret_and_a_signature() {
    let mut headers = HeaderMap::new();
    assert!(matches!(
        begin_verify(Provider::Stripe, None, &headers),
        VerifyStep::Reject(Reject::NotConfigured)
    ));
    assert!(matches!(
        begin_verify(Provider::Stripe, Some(""), &headers),
        VerifyStep::Reject(Reject::NotConfigured)
    ));
    assert!(matches!(
        begin_verify(Provider::Stripe, Some("whsec"), &headers),
        VerifyStep::Reject(Reject::MissingHeader)
    ));
    headers.insert("stripe-signature", "t=1,v1=ab".parse().unwrap());
    match begin_verify(Provider::Stripe, Some("whsec"), &headers) {
        VerifyStep::Stripe { secret, signature } => {
            assert_eq!(secret, "whsec");
            assert_eq!(signature, "t=1,v1=ab");
        }
        _ => panic!("the signature is to be verified"),
    }
    assert!(matches!(verify(None), Err(Reject::Signature)));
    let good = verify(Some(event(Provider::Stripe, "e", "t", b"p"))).ok().unwrap();
    assert_eq!(good.id, "e");
}

#[test]
fn paypal_judges_the_address_before_it_is_fetched() {
    let mut headers = HeaderMap::new();
    headers.insert("paypal-cert-url", "https://api.paypal.com/c".parse().unwrap());
    let (webhook_id, cert_url) = match begin_verify(Provider::Paypal, Some("wh"), &headers) {
        VerifyStep::JudgeCertUrl { webhook_id, cert_url } => (webhook_id, cert_url),
        _ => panic!("the address is to be judged"),
    };
    assert!(matches!(
        after_judgement(webhook_id.clone(), cert_url.clone(), false),
        VerifyStep::Reject(Reject::Signature)
    ));
    match after_judgement(webhook_id.clone(), cert_url.clone(), true) {
        VerifyStep::FetchCert { cert_url, .. } => assert_eq!(cert_url, "https://api.paypal.com/c"),
        _ => panic!("the certificate is to be fetched"),
    }
    assert!(matches!(
        after_fetch(webhook_id.clone(), cert_url.clone(), None, &headers),
        VerifyStep::Reject(Reject::CertFetchFailed)
    ));
    let pem = || Some("PEM".to_owned());
    for name in [
        "paypal-transmission-id",
        "paypal-transmission-time",
        "paypal-transmission-sig",
        "paypal-auth-algo",
    ] {
        assert!(matches!(
            after_fetch(webhook_id.clone(), cert_url.clone(), pem(), &headers),
            VerifyStep::Reject(Reject::MissingHeader)
        ));
        headers.insert(name, name.parse().unwrap());
    }
    match after_fetch(webhook_id, cert_url, pem(), &headers) {
        VerifyStep::Paypal { webhook_id, cert_pem, transmission } => {
            assert_eq!(webhook_id, "wh");
            assert_eq!(cert_pem, "PEM");
            assert_eq!(transmission.transmission_id, "paypal-transmission-id");
            assert_eq!(transmission.transmission_time, "paypal-transmission-time");
            assert_eq!(transmission.signature_b64, "paypal-transmission-sig");
            assert_eq!(transmission.cert_url, "https://api.paypal.com/c");
            assert_eq!(transmission.auth_algo, "paypal-auth-algo");
        }
        _ => panic!("the signature is to be verified"),
    }
    headers.remove("paypal-cert-url");
    assert!(matches!(
        begin_verify(Provider::Paypal, Some("wh"), &headers),
        VerifyStep::Reject(Reject::MissingHeader)
    ));
}
