//! What the ingestion of webhooks guarantees.
//!
//! The laws speak of a ledger with a unique key, and of a storage that either works or fails
//! without writing anything.

use axum::http::HeaderMap;
use vstd::prelude::*;

use crate::billing;
use crate::billing::{
    EventView, Ingest, IngestErrorView, InsertView, Provider, Reject, StoredView, VerifyStepView,
    WebhookView,
};
use crate::digest;
use crate::headers;
use crate::reply;

verus! {

/// The rows of the ledger, by provider and event id.
pub type Ledger = Map<(Seq<char>, Seq<char>), StoredView>;

/// The key of a row.
pub open spec fn key_of(row: StoredView) -> (Seq<char>, Seq<char>) {
    (row.provider, row.provider_event_id)
}

/// A ledger that was filled by recording events: each row stands under its own key and comes
/// from a verified event.
pub open spec fn is_ledger(ledger: Ledger) -> bool {
    forall|k: (Seq<char>, Seq<char>)| #[trigger]
        ledger.contains_key(k) ==> key_of(ledger[k]) == k && ledger[k].signature_verified
}

/// What a working storage does with a row: it writes it where its key is free.
pub open spec fn inserted(ledger: Ledger, row: StoredView) -> (Ledger, InsertView) {
    if ledger.contains_key(key_of(row)) {
        (ledger, InsertView::Taken(Some(ledger[key_of(row)])))
    } else {
        (ledger.insert(key_of(row), row), InsertView::Inserted)
    }
}

/// How the storage fares with one delivery.
pub enum Storage {
    Works,
    Missing,
    Fails(Seq<char>),
}

/// What a delivery comes to: the ledger after it, and the outcome. `verdict` is the event
/// where the signature holds.
pub open spec fn delivered(ledger: Ledger, verdict: Option<EventView>, storage: Storage) -> (
    Ledger,
    WebhookView,
) {
    match verdict {
        None => (ledger, WebhookView::Rejected(Reject::Signature)),
        Some(event) => match storage {
            Storage::Missing => (ledger, WebhookView::NotIngested(IngestErrorView::Unavailable)),
            Storage::Fails(message) => (
                ledger,
                outcome_of(billing::recorded(event, InsertView::Failed(message))),
            ),
            Storage::Works => {
                let (after, insert) = inserted(ledger, billing::row_for(event));
                (after, outcome_of(billing::recorded(event, insert)))
            },
        },
    }
}

/// The outcome of a webhook whose event went to the storage.
pub open spec fn outcome_of(r: Result<Ingest, IngestErrorView>) -> WebhookView {
    match r {
        Ok(ingest) => WebhookView::Ingested(ingest),
        Err(error) => WebhookView::NotIngested(error),
    }
}

/// A delivery whose signature does not hold leaves the ledger as it is.
pub proof fn law_unverified_is_never_recorded(ledger: Ledger, storage: Storage)
    ensures
        delivered(ledger, None, storage).0 == ledger,
        billing::webhook_reply(delivered(ledger, None, storage).1) == reply::refusal(
            400,
            "signature_verification_failed"@,
        ),
{
}

/// A delivery changes the ledger only where it is reported as recorded, and then by one row:
/// the event's own, with its type and the digest of its bytes.
pub proof fn law_recording_adds_exactly_the_event(
    ledger: Ledger,
    verdict: Option<EventView>,
    storage: Storage,
)
    ensures
        ({
            let (after, outcome) = delivered(ledger, verdict, storage);
            if outcome == WebhookView::Ingested(Ingest::Recorded) {
                &&& verdict matches Some(event) && {
                    let row = billing::row_for(event);
                    &&& !ledger.contains_key(key_of(row))
                    &&& after == ledger.insert(key_of(row), row)
                    &&& row.event_type == event.event_type
                    &&& row.payload_sha256 == digest::sha256_text(event.payload)
                    &&& row.signature_verified
                }
            } else {
                after == ledger
            }
        }),
{
}

/// A verified event under a free key is recorded by a working storage.
pub proof fn law_fresh_events_are_recorded(ledger: Ledger, event: EventView)
    requires
        !ledger.contains_key((event.provider.name(), event.id)),
    ensures
        delivered(ledger, Some(event), Storage::Works) == (
            ledger.insert((event.provider.name(), event.id), billing::row_for(event)),
            WebhookView::Ingested(Ingest::Recorded),
        ),
{
}

/// Only an exact repetition counts as one: the ledger holds a verified row with the same
/// provider, event id, event type and digest.
pub proof fn law_deduped_means_identical(
    ledger: Ledger,
    verdict: Option<EventView>,
    storage: Storage,
)
    requires
        delivered(ledger, verdict, storage).1 == WebhookView::Ingested(Ingest::Deduped),
    ensures
        verdict matches Some(event) && {
            let row = billing::row_for(event);
            ledger.contains_key(key_of(row)) && ledger[key_of(row)] == row
        },
{
}

/// An event whose identity is taken by one of another type, or with other bytes as far as the
/// digest tells, is a conflict and has no effect.
pub proof fn law_reused_identity_conflicts(ledger: Ledger, event: EventView)
    requires
        ledger.contains_key((event.provider.name(), event.id)),
        ({
            let stored = ledger[(event.provider.name(), event.id)];
            stored.event_type != event.event_type || stored.payload_sha256 != digest::sha256_text(
                event.payload,
            ) || !stored.signature_verified
        }),
    ensures
        delivered(ledger, Some(event), Storage::Works) == (
            ledger,
            WebhookView::NotIngested(IngestErrorView::IdentityConflict),
        ),
        billing::webhook_reply(delivered(ledger, Some(event), Storage::Works).1) == reply::refusal(
            409,
            "event_identity_conflict"@,
        ),
{
}

/// A storage that is missing or fails has no effect, and the provider is told to try again.
pub proof fn law_storage_failure_has_no_effect(
    ledger: Ledger,
    event: EventView,
    message: Seq<char>,
)
    ensures
        delivered(ledger, Some(event), Storage::Missing) == (
            ledger,
            WebhookView::NotIngested(IngestErrorView::Unavailable),
        ),
        delivered(ledger, Some(event), Storage::Fails(message)) == (
            ledger,
            WebhookView::NotIngested(IngestErrorView::Db(message)),
        ),
        billing::webhook_reply(delivered(ledger, Some(event), Storage::Missing).1).status == 503,
        billing::webhook_reply(delivered(ledger, Some(event), Storage::Fails(message)).1).status
            == 500,
{
}

/// A delivery that is repeated changes nothing the second time: what was recorded is then a
/// repetition, and any other outcome stays what it was.
pub proof fn law_retries_change_nothing(ledger: Ledger, verdict: Option<EventView>)
    ensures
        ({
            let (after, outcome) = delivered(ledger, verdict, Storage::Works);
            let (again, second) = delivered(after, verdict, Storage::Works);
            &&& again == after
            &&& second == if outcome == WebhookView::Ingested(Ingest::Recorded) {
                WebhookView::Ingested(Ingest::Deduped)
            } else {
                outcome
            }
        }),
{
}

/// Deliveries keep a ledger one: every row under its own key, every row verified.
pub proof fn law_ledger_stays_sound(ledger: Ledger, verdict: Option<EventView>, storage: Storage)
    requires
        is_ledger(ledger),
    ensures
        is_ledger(delivered(ledger, verdict, storage).0),
{
    let after = delivered(ledger, verdict, storage).0;
    assert forall|k: (Seq<char>, Seq<char>)| #[trigger] after.contains_key(k) implies key_of(
        after[k],
    ) == k && after[k].signature_verified by {
        if ledger.contains_key(k) {
        }
    }
}

/// A provider whose secret is not set verifies nothing.
pub proof fn law_unconfigured_providers_are_rejected(provider: Provider, headers: HeaderMap)
    ensures
        billing::first_step(provider, None, headers) == VerifyStepView::Reject(
            Reject::NotConfigured,
        ),
        billing::first_step(provider, Some(Seq::empty()), headers) == VerifyStepView::Reject(
            Reject::NotConfigured,
        ),
{
}

/// A certificate is fetched from no address but PayPal's own, and the signature is verified
/// against the address that was judged.
pub proof fn law_only_judged_addresses_are_fetched(
    webhook_id: Seq<char>,
    cert_url: Seq<char>,
    cert_pem: Option<Seq<char>>,
    provider: Provider,
    secret: Option<Seq<char>>,
    headers: HeaderMap,
)
    ensures
        !(billing::first_step(provider, secret, headers) is FetchCert),
        billing::judged_step(webhook_id, cert_url, false) == VerifyStepView::Reject(
            Reject::Signature,
        ),
        billing::fetched_step(webhook_id, cert_url, cert_pem, headers) matches VerifyStepView::Paypal {
            cert_url: verified_url,
            ..
        } ==> verified_url == cert_url,
{
}

/// Verification starts with the secret that is set and the header that the provider signs in, as
/// they are; without the header it is missing.
pub proof fn law_verification_starts_with_the_signature(secret: Seq<char>, headers: HeaderMap)
    requires
        secret.len() > 0,
    ensures
        ({
            let signed = billing::header_text(headers, "stripe-signature"@);
            let step = billing::first_step(Provider::Stripe, Some(secret), headers);
            &&& signed matches Some(signature) ==> step == (VerifyStepView::Stripe {
                secret,
                signature,
            })
            &&& signed is None ==> step == VerifyStepView::Reject(Reject::MissingHeader)
        }),
        ({
            let address = billing::header_text(headers, "paypal-cert-url"@);
            let step = billing::first_step(Provider::Paypal, Some(secret), headers);
            &&& address matches Some(cert_url) ==> step == (VerifyStepView::JudgeCertUrl {
                webhook_id: secret,
                cert_url,
            })
            &&& address is None ==> step == VerifyStepView::Reject(Reject::MissingHeader)
        }),
{
}

/// A header that a signature needs is read as it was sent, from its first value.
pub proof fn law_signature_headers_are_read_as_sent(headers: HeaderMap, name: Seq<char>)
    ensures
        match headers::first_value(headers, name) {
            Some(bytes) => billing::header_text(headers, name) == headers::readable(bytes),
            None => billing::header_text(headers, name) is None,
        },
{
}

/// A certificate at one of PayPal's addresses is fetched from there; once it is here, the
/// signature is verified with it over the four headers of the transmission, each as it was sent.
/// Without the certificate, or with a header missing, the webhook is rejected.
pub proof fn law_transmissions_are_verified_as_sent(
    webhook_id: Seq<char>,
    cert_url: Seq<char>,
    cert: Seq<char>,
    headers: HeaderMap,
)
    ensures
        billing::judged_step(webhook_id, cert_url, true) == (VerifyStepView::FetchCert {
            webhook_id,
            cert_url,
        }),
        billing::fetched_step(webhook_id, cert_url, None, headers) == VerifyStepView::Reject(
            Reject::CertFetchFailed,
        ),
        ({
            let id = billing::header_text(headers, "paypal-transmission-id"@);
            let time = billing::header_text(headers, "paypal-transmission-time"@);
            let signature = billing::header_text(headers, "paypal-transmission-sig"@);
            let algorithm = billing::header_text(headers, "paypal-auth-algo"@);
            let step = billing::fetched_step(webhook_id, cert_url, Some(cert), headers);
            let complete = id is Some && time is Some && signature is Some && algorithm is Some;
            &&& complete ==> step == (VerifyStepView::Paypal {
                webhook_id,
                cert_pem: cert,
                transmission_id: id->0,
                transmission_time: time->0,
                signature_b64: signature->0,
                cert_url,
                auth_algo: algorithm->0,
            })
            &&& !complete ==> step == VerifyStepView::Reject(Reject::MissingHeader)
        }),
{
}

/// An event is recorded by its provider, its id, its type and the digest of the bytes that were
/// signed, as a verified one.
pub proof fn law_rows_tell_their_event(event: EventView)
    ensures
        ({
            let row = billing::row_for(event);
            &&& event.provider == Provider::Stripe ==> row.provider == "stripe"@
            &&& event.provider == Provider::Paypal ==> row.provider == "paypal"@
            &&& row.provider_event_id == event.id
            &&& row.event_type == event.event_type
            &&& row.signature_verified
            &&& row.payload_sha256 == digest::hex_text(digest::sha256(event.payload))
        }),
{
}

/// A stored row is that of an event exactly where it is verified and agrees with it in provider,
/// id, type and digest: a difference in any one of these is another event.
pub proof fn law_same_events_agree_in_everything(
    stored: StoredView,
    event: EventView,
    payload_sha256: Seq<char>,
)
    ensures
        billing::is_same_event(stored, event, payload_sha256) <==> {
            &&& stored.signature_verified
            &&& stored.provider == (if event.provider == Provider::Stripe {
                "stripe"@
            } else {
                "paypal"@
            })
            &&& stored.provider_event_id == event.id
            &&& stored.event_type == event.event_type
            &&& stored.payload_sha256 == payload_sha256
        },
        billing::is_same_event(billing::row_for(event), event, digest::sha256_text(event.payload)),
{
}

/// What recording comes to is told by what became of the row: inserted, it is recorded; under a
/// taken key, it is a repetition exactly where the row there is the event's own; and a failure is
/// told with its message.
pub proof fn law_recording_tells_what_became_of_the_row(
    event: EventView,
    stored: StoredView,
    message: Seq<char>,
)
    ensures
        billing::recorded(event, InsertView::Inserted) == Ok::<Ingest, IngestErrorView>(
            Ingest::Recorded,
        ),
        stored == billing::row_for(event) ==> billing::recorded(
            event,
            InsertView::Taken(Some(stored)),
        ) == Ok::<Ingest, IngestErrorView>(Ingest::Deduped),
        stored != billing::row_for(event) ==> billing::recorded(
            event,
            InsertView::Taken(Some(stored)),
        ) == Err::<Ingest, IngestErrorView>(IngestErrorView::IdentityConflict),
        billing::recorded(event, InsertView::Taken(None)) == Err::<Ingest, IngestErrorView>(
            IngestErrorView::IdentityConflict,
        ),
        billing::recorded(event, InsertView::Failed(message)) == Err::<Ingest, IngestErrorView>(
            IngestErrorView::Db(message),
        ),
{
}

/// A secret counts as set exactly where it is not empty, and is used as it is.
pub proof fn law_secrets_are_used_as_set(secret: Seq<char>)
    ensures
        secret.len() > 0 ==> billing::set_secret(Some(secret)) == Some(secret),
        secret.len() == 0 ==> billing::set_secret(Some(secret)) is None,
        billing::set_secret(None) is None,
{
}

} // verus!
