//! Webhooks of payment providers.
//!
//! Anyone can send a webhook, so the provider's signature alone makes one trustworthy. It is
//! verified before anything is written. A verified event is then recorded once: the provider
//! and the event's id are a unique key of the ledger, and a second delivery under the same key
//! is a repetition only where the stored row has the same event type and the digest of the
//! same bytes. Anything else is a conflict, and has no effect.

use axum::http::HeaderMap;
use vstd::prelude::*;
use vstd::string::*;

use crate::digest;
use crate::headers;
use crate::json;
use crate::json::JsonObject;
use crate::reply;
use crate::reply::{Reply, ReplyView};
use crate::text;

verus! {

/// A payment provider.
#[derive(Clone, Copy, Debug, PartialEq, Eq, Structural)]
pub enum Provider {
    Stripe,
    Paypal,
}

impl Provider {
    /// The provider's name.
    pub open spec fn name(self) -> Seq<char> {
        match self {
            Provider::Stripe => "stripe"@,
            Provider::Paypal => "paypal"@,
        }
    }

    /// The provider's name.
    pub fn as_str(self) -> (r: &'static str)
        ensures
            r@ == self.name(),
    {
        match self {
            Provider::Stripe => "stripe",
            Provider::Paypal => "paypal",
        }
    }
}

/// An event whose signature was verified, with the bytes that were signed.
pub struct VerifiedEvent {
    pub provider: Provider,
    pub id: String,
    pub event_type: String,
    pub payload: Vec<u8>,
}

/// A verified event, as a mathematical value.
pub struct EventView {
    pub provider: Provider,
    pub id: Seq<char>,
    pub event_type: Seq<char>,
    pub payload: Seq<u8>,
}

impl View for VerifiedEvent {
    type V = EventView;

    open spec fn view(&self) -> EventView {
        EventView {
            provider: self.provider,
            id: self.id@,
            event_type: self.event_type@,
            payload: self.payload@,
        }
    }
}

/// Why a webhook was rejected before it could be recorded.
#[derive(Clone, Copy, Debug, PartialEq, Eq, Structural)]
pub enum Reject {
    /// The provider's secret is not set.
    NotConfigured,
    /// A header that the signature needs is missing.
    MissingHeader,
    /// The provider's certificate could not be fetched.
    CertFetchFailed,
    /// The signature does not hold.
    Signature,
}

impl Reject {
    /// The answer to a rejected webhook, which says no more than it must.
    pub open spec fn answer(self) -> ReplyView {
        match self {
            Reject::NotConfigured => reply::refusal(503, "provider_not_configured"@),
            Reject::MissingHeader => reply::refusal(400, "missing_signature_header"@),
            Reject::CertFetchFailed => reply::refusal(502, "cert_fetch_failed"@),
            Reject::Signature => reply::refusal(400, "signature_verification_failed"@),
        }
    }

    /// The answer to a rejected webhook.
    pub fn response(&self) -> (r: Reply)
        ensures
            r@ == self.answer(),
    {
        match self {
            Reject::NotConfigured => reply::deny(503, "provider_not_configured"),
            Reject::MissingHeader => reply::deny(400, "missing_signature_header"),
            Reject::CertFetchFailed => reply::deny(502, "cert_fetch_failed"),
            Reject::Signature => reply::deny(400, "signature_verification_failed"),
        }
    }
}

// The verification of a signature.

/// The headers that a PayPal signature covers.
pub struct Transmission {
    pub transmission_id: String,
    pub transmission_time: String,
    pub signature_b64: String,
    pub cert_url: String,
    pub auth_algo: String,
}

/// What is to be done next to verify a signature.
pub enum VerifyStep {
    /// Nothing: the webhook is rejected.
    Reject(Reject),
    /// Verify a Stripe signature with the secret.
    Stripe { secret: String, signature: String },
    /// Ask whether the address of the certificate is one of PayPal's.
    JudgeCertUrl { webhook_id: String, cert_url: String },
    /// Fetch the certificate.
    FetchCert { webhook_id: String, cert_url: String },
    /// Verify a PayPal signature with the certificate.
    Paypal { webhook_id: String, cert_pem: String, transmission: Transmission },
}

/// What is to be done next, as a mathematical value.
pub enum VerifyStepView {
    Reject(Reject),
    Stripe { secret: Seq<char>, signature: Seq<char> },
    JudgeCertUrl { webhook_id: Seq<char>, cert_url: Seq<char> },
    FetchCert { webhook_id: Seq<char>, cert_url: Seq<char> },
    Paypal {
        webhook_id: Seq<char>,
        cert_pem: Seq<char>,
        transmission_id: Seq<char>,
        transmission_time: Seq<char>,
        signature_b64: Seq<char>,
        cert_url: Seq<char>,
        auth_algo: Seq<char>,
    },
}

impl View for VerifyStep {
    type V = VerifyStepView;

    open spec fn view(&self) -> VerifyStepView {
        match self {
            VerifyStep::Reject(reject) => VerifyStepView::Reject(*reject),
            VerifyStep::Stripe { secret, signature } => VerifyStepView::Stripe {
                secret: secret@,
                signature: signature@,
            },
            VerifyStep::JudgeCertUrl { webhook_id, cert_url } => VerifyStepView::JudgeCertUrl {
                webhook_id: webhook_id@,
                cert_url: cert_url@,
            },
            VerifyStep::FetchCert { webhook_id, cert_url } => VerifyStepView::FetchCert {
                webhook_id: webhook_id@,
                cert_url: cert_url@,
            },
            VerifyStep::Paypal { webhook_id, cert_pem, transmission } => VerifyStepView::Paypal {
                webhook_id: webhook_id@,
                cert_pem: cert_pem@,
                transmission_id: transmission.transmission_id@,
                transmission_time: transmission.transmission_time@,
                signature_b64: transmission.signature_b64@,
                cert_url: transmission.cert_url@,
                auth_algo: transmission.auth_algo@,
            },
        }
    }
}

/// The text of the first value of a header, where it is readable.
pub open spec fn header_text(headers: HeaderMap, name: Seq<char>) -> Option<Seq<char>> {
    match headers::first_value(headers, name) {
        Some(bytes) => headers::readable(bytes),
        None => None,
    }
}

/// The text of a header that a signature needs.
pub fn header(headers: &HeaderMap, name: &str) -> (r: Result<String, Reject>)
    requires
        headers::is_name(name@),
    ensures
        match r {
            Ok(s) => header_text(*headers, name@) == Some(s@),
            Err(reject) => header_text(*headers, name@) is None && reject == Reject::MissingHeader,
        },
{
    match headers::get_text(headers, name) {
        Some(s) => Ok(s),
        None => Err(Reject::MissingHeader),
    }
}

/// The headers that signatures need have header names.
proof fn lemma_signature_headers()
    ensures
        headers::is_name("stripe-signature"@),
        headers::is_name("paypal-cert-url"@),
        headers::is_name("paypal-transmission-id"@),
        headers::is_name("paypal-transmission-time"@),
        headers::is_name("paypal-transmission-sig"@),
        headers::is_name("paypal-auth-algo"@),
{
    reveal_strlit("stripe-signature");
    reveal_strlit("paypal-cert-url");
    reveal_strlit("paypal-transmission-id");
    reveal_strlit("paypal-transmission-time");
    reveal_strlit("paypal-transmission-sig");
    reveal_strlit("paypal-auth-algo");
}

/// A secret that is set: an empty one is as good as none.
pub open spec fn set_secret(secret: Option<Seq<char>>) -> Option<Seq<char>> {
    match secret {
        Some(s) => if s.len() > 0 {
            Some(s)
        } else {
            None
        },
        None => None,
    }
}

/// A secret that is set.
pub fn env_secret(secret: Option<&str>) -> (r: Result<String, Reject>)
    ensures
        match r {
            Ok(s) => set_secret(text::opt_str_view(secret)) == Some(s@),
            Err(reject) => set_secret(text::opt_str_view(secret)) is None && reject
                == Reject::NotConfigured,
        },
{
    match secret {
        Some(s) => if s.is_empty() {
            Err(Reject::NotConfigured)
        } else {
            Ok(s.to_owned())
        },
        None => Err(Reject::NotConfigured),
    }
}

/// How the verification of a webhook starts.
pub open spec fn first_step(
    provider: Provider,
    secret: Option<Seq<char>>,
    headers: HeaderMap,
) -> VerifyStepView {
    match set_secret(secret) {
        None => VerifyStepView::Reject(Reject::NotConfigured),
        Some(secret) => match provider {
            Provider::Stripe => match header_text(headers, "stripe-signature"@) {
                None => VerifyStepView::Reject(Reject::MissingHeader),
                Some(signature) => VerifyStepView::Stripe { secret, signature },
            },
            Provider::Paypal => match header_text(headers, "paypal-cert-url"@) {
                None => VerifyStepView::Reject(Reject::MissingHeader),
                Some(cert_url) => VerifyStepView::JudgeCertUrl { webhook_id: secret, cert_url },
            },
        },
    }
}

/// How the verification of a webhook starts. `secret` is Stripe's signing secret, or the id
/// that PayPal gave the webhook.
pub fn begin_verify(provider: Provider, secret: Option<&str>, headers: &HeaderMap) -> (r: VerifyStep)
    ensures
        r@ == first_step(provider, text::opt_str_view(secret), *headers),
{
    proof {
        lemma_signature_headers();
    }
    let secret = match env_secret(secret) {
        Ok(secret) => secret,
        Err(reject) => return VerifyStep::Reject(reject),
    };
    match provider {
        Provider::Stripe => match header(headers, "stripe-signature") {
            Ok(signature) => VerifyStep::Stripe { secret, signature },
            Err(reject) => VerifyStep::Reject(reject),
        },
        Provider::Paypal => match header(headers, "paypal-cert-url") {
            Ok(cert_url) => VerifyStep::JudgeCertUrl { webhook_id: secret, cert_url },
            Err(reject) => VerifyStep::Reject(reject),
        },
    }
}

/// What follows from whose address the certificate has: only one of PayPal's is fetched.
pub open spec fn judged_step(
    webhook_id: Seq<char>,
    cert_url: Seq<char>,
    is_paypal: bool,
) -> VerifyStepView {
    if is_paypal {
        VerifyStepView::FetchCert { webhook_id, cert_url }
    } else {
        VerifyStepView::Reject(Reject::Signature)
    }
}

/// What follows from whose address the certificate has.
pub fn after_judgement(webhook_id: String, cert_url: String, is_paypal: bool) -> (r: VerifyStep)
    ensures
        r@ == judged_step(webhook_id@, cert_url@, is_paypal),
{
    if is_paypal {
        VerifyStep::FetchCert { webhook_id, cert_url }
    } else {
        VerifyStep::Reject(Reject::Signature)
    }
}

/// What follows once the certificate was fetched, or could not be.
pub open spec fn fetched_step(
    webhook_id: Seq<char>,
    cert_url: Seq<char>,
    cert_pem: Option<Seq<char>>,
    headers: HeaderMap,
) -> VerifyStepView {
    match cert_pem {
        None => VerifyStepView::Reject(Reject::CertFetchFailed),
        Some(cert_pem) => match (
            header_text(headers, "paypal-transmission-id"@),
            header_text(headers, "paypal-transmission-time"@),
            header_text(headers, "paypal-transmission-sig"@),
            header_text(headers, "paypal-auth-algo"@),
        ) {
            (
                Some(transmission_id),
                Some(transmission_time),
                Some(signature_b64),
                Some(auth_algo),
            ) => VerifyStepView::Paypal {
                webhook_id,
                cert_pem,
                transmission_id,
                transmission_time,
                signature_b64,
                cert_url,
                auth_algo,
            },
            _ => VerifyStepView::Reject(Reject::MissingHeader),
        },
    }
}

/// What follows once the certificate was fetched, or could not be.
pub fn after_fetch(
    webhook_id: String,
    cert_url: String,
    cert_pem: Option<String>,
    headers: &HeaderMap,
) -> (r: VerifyStep)
    ensures
        r@ == fetched_step(webhook_id@, cert_url@, text::opt_view(cert_pem), *headers),
{
    proof {
        lemma_signature_headers();
    }
    let cert_pem = match cert_pem {
        Some(cert_pem) => cert_pem,
        None => return VerifyStep::Reject(Reject::CertFetchFailed),
    };
    let transmission_id = match header(headers, "paypal-transmission-id") {
        Ok(s) => s,
        Err(reject) => return VerifyStep::Reject(reject),
    };
    let transmission_time = match header(headers, "paypal-transmission-time") {
        Ok(s) => s,
        Err(reject) => return VerifyStep::Reject(reject),
    };
    let signature_b64 = match header(headers, "paypal-transmission-sig") {
        Ok(s) => s,
        Err(reject) => return VerifyStep::Reject(reject),
    };
    let auth_algo = match header(headers, "paypal-auth-algo") {
        Ok(s) => s,
        Err(reject) => return VerifyStep::Reject(reject),
    };
    VerifyStep::Paypal {
        webhook_id,
        cert_pem,
        transmission: Transmission {
            transmission_id,
            transmission_time,
            signature_b64,
            cert_url,
            auth_algo,
        },
    }
}

/// The event of a signature that holds. A signature that does not is rejected without a
/// reason.
pub fn verify(verdict: Option<VerifiedEvent>) -> (r: Result<VerifiedEvent, Reject>)
    ensures
        r == match verdict {
            Some(event) => Ok::<VerifiedEvent, Reject>(event),
            None => Err::<VerifiedEvent, Reject>(Reject::Signature),
        },
{
    match verdict {
        Some(event) => Ok(event),
        None => Err(Reject::Signature),
    }
}

// The ledger of events.

/// What the ledger holds of an event.
#[derive(Clone, Copy)]
pub struct StoredEventIdentity<'a> {
    pub provider: &'a str,
    pub provider_event_id: &'a str,
    pub event_type: &'a str,
    pub signature_verified: bool,
    pub payload_sha256: &'a str,
}

/// What the ledger holds of an event, as a mathematical value.
pub struct StoredView {
    pub provider: Seq<char>,
    pub provider_event_id: Seq<char>,
    pub event_type: Seq<char>,
    pub signature_verified: bool,
    pub payload_sha256: Seq<char>,
}

impl<'a> View for StoredEventIdentity<'a> {
    type V = StoredView;

    open spec fn view(&self) -> StoredView {
        StoredView {
            provider: self.provider@,
            provider_event_id: self.provider_event_id@,
            event_type: self.event_type@,
            signature_verified: self.signature_verified,
            payload_sha256: self.payload_sha256@,
        }
    }
}

/// A row for the ledger.
pub struct EventRow {
    pub provider: String,
    pub provider_event_id: String,
    pub event_type: String,
    pub signature_verified: bool,
    pub payload_sha256: String,
}

impl View for EventRow {
    type V = StoredView;

    open spec fn view(&self) -> StoredView {
        StoredView {
            provider: self.provider@,
            provider_event_id: self.provider_event_id@,
            event_type: self.event_type@,
            signature_verified: self.signature_verified,
            payload_sha256: self.payload_sha256@,
        }
    }
}

/// What recording an event came to.
#[derive(Clone, Copy, Debug, PartialEq, Eq, Structural)]
pub enum Ingest {
    Recorded,
    Deduped,
}

/// Why an event was not recorded.
#[derive(Debug)]
pub enum IngestError {
    /// There is no storage.
    Unavailable,
    /// The event's identity belongs to another event.
    IdentityConflict,
    /// The storage failed, with this message.
    Db(String),
}

/// Why an event was not recorded, as a mathematical value.
pub enum IngestErrorView {
    Unavailable,
    IdentityConflict,
    Db(Seq<char>),
}

impl View for IngestError {
    type V = IngestErrorView;

    open spec fn view(&self) -> IngestErrorView {
        match self {
            IngestError::Unavailable => IngestErrorView::Unavailable,
            IngestError::IdentityConflict => IngestErrorView::IdentityConflict,
            IngestError::Db(message) => IngestErrorView::Db(message@),
        }
    }
}

/// The row that an event is recorded by.
pub open spec fn row_for(event: EventView) -> StoredView {
    StoredView {
        provider: event.provider.name(),
        provider_event_id: event.id,
        event_type: event.event_type,
        signature_verified: true,
        payload_sha256: digest::sha256_text(event.payload),
    }
}

/// The digest of the bytes whose signature was verified.
pub fn verified_payload_sha256(event: &VerifiedEvent) -> (r: String)
    ensures
        r@ == digest::sha256_text(event@.payload),
{
    digest::sha256_hex(&event.payload)
}

/// The row that an event is recorded by, where there is a storage at all.
pub fn begin_record(storage: bool, event: &VerifiedEvent) -> (r: Result<EventRow, IngestError>)
    ensures
        match r {
            Ok(row) => storage && row@ == row_for(event@),
            Err(error) => !storage && error@ == IngestErrorView::Unavailable,
        },
{
    if !storage {
        return Err(IngestError::Unavailable);
    }
    Ok(
        EventRow {
            provider: event.provider.as_str().to_owned(),
            provider_event_id: event.id.clone(),
            event_type: event.event_type.clone(),
            signature_verified: true,
            payload_sha256: verified_payload_sha256(event),
        },
    )
}

/// Whether a stored row is that of an event whose payload has the given digest.
pub open spec fn is_same_event(
    stored: StoredView,
    incoming: EventView,
    payload_sha256: Seq<char>,
) -> bool {
    &&& stored.signature_verified
    &&& stored.provider == incoming.provider.name()
    &&& stored.provider_event_id == incoming.id
    &&& stored.event_type == incoming.event_type
    &&& stored.payload_sha256 == payload_sha256
}

/// Whether a stored row is that of the incoming event.
pub fn is_exact_redelivery(
    stored: StoredEventIdentity<'_>,
    incoming: &VerifiedEvent,
    incoming_payload_sha256: &str,
) -> (r: bool)
    ensures
        r == is_same_event(stored@, incoming@, incoming_payload_sha256@),
{
    stored.signature_verified && text::same(stored.provider, incoming.provider.as_str())
        && text::same(stored.provider_event_id, incoming.id.as_str()) && text::same(
        stored.event_type,
        incoming.event_type.as_str(),
    ) && text::same(stored.payload_sha256, incoming_payload_sha256)
}

/// What became of the attempt to insert a row. Where its key was taken, the row under that key
/// was looked up.
pub enum InsertOutcome<'a> {
    Inserted,
    /// The key was taken, and this is the row under it, if it was still there.
    Taken(Option<StoredEventIdentity<'a>>),
    Failed(String),
}

/// What became of the attempt to insert a row, as a mathematical value.
pub enum InsertView {
    Inserted,
    Taken(Option<StoredView>),
    Failed(Seq<char>),
}

impl<'a> View for InsertOutcome<'a> {
    type V = InsertView;

    open spec fn view(&self) -> InsertView {
        match self {
            InsertOutcome::Inserted => InsertView::Inserted,
            InsertOutcome::Taken(Some(stored)) => InsertView::Taken(Some(stored@)),
            InsertOutcome::Taken(None) => InsertView::Taken(None),
            InsertOutcome::Failed(message) => InsertView::Failed(message@),
        }
    }
}

/// What recording an event comes to. A taken key whose row is gone shows no repetition.
pub open spec fn recorded(event: EventView, outcome: InsertView) -> Result<Ingest, IngestErrorView> {
    match outcome {
        InsertView::Inserted => Ok(Ingest::Recorded),
        InsertView::Taken(Some(stored)) => if is_same_event(
            stored,
            event,
            digest::sha256_text(event.payload),
        ) {
            Ok(Ingest::Deduped)
        } else {
            Err(IngestErrorView::IdentityConflict)
        },
        InsertView::Taken(None) => Err(IngestErrorView::IdentityConflict),
        InsertView::Failed(message) => Err(IngestErrorView::Db(message)),
    }
}

/// What recording an event comes to.
pub fn record(event: &VerifiedEvent, outcome: InsertOutcome) -> (r: Result<Ingest, IngestError>)
    ensures
        match r {
            Ok(ingest) => recorded(event@, outcome@) == Ok::<Ingest, IngestErrorView>(ingest),
            Err(error) => recorded(event@, outcome@) == Err::<Ingest, IngestErrorView>(error@),
        },
{
    match outcome {
        InsertOutcome::Inserted => Ok(Ingest::Recorded),
        InsertOutcome::Taken(Some(stored)) => {
            let payload_sha256 = verified_payload_sha256(event);
            if is_exact_redelivery(stored, event, payload_sha256.as_str()) {
                Ok(Ingest::Deduped)
            } else {
                Err(IngestError::IdentityConflict)
            }
        },
        InsertOutcome::Taken(None) => Err(IngestError::IdentityConflict),
        InsertOutcome::Failed(message) => Err(IngestError::Db(message)),
    }
}

/// What a webhook came to.
pub enum WebhookOutcome {
    UnknownProvider,
    Rejected(Reject),
    Ingested(Ingest),
    NotIngested(IngestError),
}

/// What a webhook came to, as a mathematical value.
pub enum WebhookView {
    UnknownProvider,
    Rejected(Reject),
    Ingested(Ingest),
    NotIngested(IngestErrorView),
}

impl View for WebhookOutcome {
    type V = WebhookView;

    open spec fn view(&self) -> WebhookView {
        match self {
            WebhookOutcome::UnknownProvider => WebhookView::UnknownProvider,
            WebhookOutcome::Rejected(reject) => WebhookView::Rejected(*reject),
            WebhookOutcome::Ingested(ingest) => WebhookView::Ingested(*ingest),
            WebhookOutcome::NotIngested(error) => WebhookView::NotIngested(error@),
        }
    }
}

/// The answer to a webhook.
pub open spec fn webhook_reply(outcome: WebhookView) -> ReplyView {
    match outcome {
        WebhookView::UnknownProvider => reply::refusal(404, "unknown_provider"@),
        WebhookView::Rejected(reject) => reject.answer(),
        WebhookView::Ingested(ingest) => reply::json_reply(
            200,
            json::object_nodes(
                map![
                    "ok"@ => json::flag_nodes(true),
                    "deduped"@ => json::flag_nodes(ingest == Ingest::Deduped),
                ],
            ),
        ),
        WebhookView::NotIngested(IngestErrorView::IdentityConflict) => reply::refusal(
            409,
            "event_identity_conflict"@,
        ),
        WebhookView::NotIngested(IngestErrorView::Unavailable) => reply::refusal(
            503,
            "storage_unavailable"@,
        ),
        WebhookView::NotIngested(IngestErrorView::Db(_)) => reply::refusal(500, "persist_failed"@),
    }
}

/// The answer to a webhook.
pub fn webhook(outcome: &WebhookOutcome) -> (r: Reply)
    ensures
        r@ == webhook_reply(outcome@),
{
    match outcome {
        WebhookOutcome::UnknownProvider => reply::deny(404, "unknown_provider"),
        WebhookOutcome::Rejected(reject) => reject.response(),
        WebhookOutcome::Ingested(ingest) => reply::json_answer(
            200,
            JsonObject::new()
                .with("ok", json::flag(true))
                .with("deduped", json::flag(*ingest == Ingest::Deduped))
                .finish(),
        ),
        WebhookOutcome::NotIngested(IngestError::IdentityConflict) => reply::deny(
            409,
            "event_identity_conflict",
        ),
        WebhookOutcome::NotIngested(IngestError::Unavailable) => reply::deny(
            503,
            "storage_unavailable",
        ),
        WebhookOutcome::NotIngested(IngestError::Db(_)) => reply::deny(500, "persist_failed"),
    }
}

} // verus!
