//! The log of what happened in an organisation, as its members see it.

use axum::http::HeaderMap;
use vstd::prelude::*;
use vstd::string::*;

use crate::account;
use crate::auth::CustomerCtx;
use crate::ids;
use crate::json;
use crate::json::{JsonNodes, JsonObject};
use crate::orgs;
use crate::orgs_laws;
use crate::reply;
use crate::reply::{Reply, ReplyView};
use crate::text;
use crate::times;
use crate::times::Timestamp;
use crate::upstream;

verus! {

/// How many events are shown where the request does not say.
pub const DEFAULT_ACTIVITY_LIMIT: u64 = 50;

/// How many events are shown at most.
pub const MAX_ACTIVITY_LIMIT: u64 = 100;

/// How many events are shown.
pub open spec fn limit_of(requested: Option<u16>) -> int {
    match requested {
        None => DEFAULT_ACTIVITY_LIMIT as int,
        Some(n) => if n < 1 {
            1
        } else if n > MAX_ACTIVITY_LIMIT {
            MAX_ACTIVITY_LIMIT as int
        } else {
            n as int
        },
    }
}

/// How many events are shown: what is asked for, but at least one and not too many.
pub fn customer_activity_limit(requested: Option<u16>) -> (r: u64)
    ensures
        r == limit_of(requested),
        1 <= r <= MAX_ACTIVITY_LIMIT,
{
    match requested {
        None => DEFAULT_ACTIVITY_LIMIT,
        Some(n) => {
            let n = n as u64;
            if n < 1 {
                1
            } else if n > MAX_ACTIVITY_LIMIT {
                MAX_ACTIVITY_LIMIT
            } else {
                n
            }
        },
    }
}

/// A row of the log.
#[derive(Debug)]
pub struct AuditLogRow {
    pub id: u128,
    pub org_id: Option<u128>,
    pub actor_user_id: Option<u128>,
    pub actor: Option<String>,
    pub action: String,
    pub target: Option<String>,
    pub request_id: Option<String>,
    pub created_at: Timestamp,
}

/// What members see of an event: neither addresses nor anything else that is for operators.
#[derive(Debug)]
pub struct CustomerAuditEvent {
    pub id: u128,
    pub actor: Option<String>,
    pub action: String,
    pub target: Option<String>,
    pub request_id: Option<String>,
    pub created_at: String,
}

/// What members see of an event, as a mathematical value.
pub struct AuditEventView {
    pub id: u128,
    pub actor: Option<Seq<char>>,
    pub action: Seq<char>,
    pub target: Option<Seq<char>>,
    pub request_id: Option<Seq<char>>,
    pub created_at: Seq<char>,
}

impl View for CustomerAuditEvent {
    type V = AuditEventView;

    open spec fn view(&self) -> AuditEventView {
        AuditEventView {
            id: self.id,
            actor: text::opt_view(self.actor),
            action: self.action@,
            target: text::opt_view(self.target),
            request_id: text::opt_view(self.request_id),
            created_at: self.created_at@,
        }
    }
}

/// What members see of a row.
pub open spec fn event_of(row: AuditLogRow) -> AuditEventView {
    AuditEventView {
        id: row.id,
        actor: text::opt_view(row.actor),
        action: row.action@,
        target: text::opt_view(row.target),
        request_id: text::opt_view(row.request_id),
        created_at: row.created_at.written(),
    }
}

/// A copy of an optional text.
fn copy_text(s: &Option<String>) -> (r: Option<String>)
    ensures
        text::opt_view(r) == text::opt_view(*s),
{
    match s {
        Some(s) => Some(s.clone()),
        None => None,
    }
}

/// What members see of a row.
pub fn customer_audit_event(row: &AuditLogRow) -> (r: CustomerAuditEvent)
    ensures
        r@ == event_of(*row),
        r.id == row.id,
        text::opt_view(r.actor) == text::opt_view(row.actor),
        r.action@ == row.action@,
        text::opt_view(r.target) == text::opt_view(row.target),
        text::opt_view(r.request_id) == text::opt_view(row.request_id),
        r.created_at@ == times::rfc3339(
            row.created_at.spec_secs(),
            row.created_at.spec_nanos(),
            row.created_at.spec_offset(),
        ),
{
    CustomerAuditEvent {
        id: row.id,
        actor: copy_text(&row.actor),
        action: row.action.clone(),
        target: copy_text(&row.target),
        request_id: copy_text(&row.request_id),
        created_at: row.created_at.to_rfc3339(),
    }
}

/// What is sent of an event.
pub open spec fn event_nodes(event: AuditEventView) -> JsonNodes {
    json::object_nodes(
        map![
            "id"@ => json::text_nodes(ids::id_text(event.id)),
            "actor"@ => json::opt_text_nodes(event.actor),
            "action"@ => json::text_nodes(event.action),
            "target"@ => json::opt_text_nodes(event.target),
            "request_id"@ => json::opt_text_nodes(event.request_id),
            "created_at"@ => json::text_nodes(event.created_at),
        ],
    )
}

/// What is sent of an event.
pub fn event_value(event: &CustomerAuditEvent) -> (r: serde_json::Value)
    ensures
        json::json_nodes(r) == event_nodes(event@),
{
    JsonObject::new()
        .with("id", json::string(ids::to_text(event.id).as_str()))
        .with("actor", json::optional_string(&event.actor))
        .with("action", json::string(event.action.as_str()))
        .with("target", json::optional_string(&event.target))
        .with("request_id", json::optional_string(&event.request_id))
        .with("created_at", json::string(event.created_at.as_str()))
        .finish()
}

/// The organisation whose log a request may see.
pub open spec fn log_of(
    storage: bool,
    orgs: Seq<Seq<char>>,
    header: Option<Seq<u8>>,
    explicit: Option<Seq<char>>,
) -> Result<int, ReplyView> {
    match orgs::selected_org(orgs, header, explicit) {
        Err(refused) => Err(refused),
        Ok(org) => match ids::id_of(org) {
            None => Err(reply::outage(upstream::KEY_AUTHORITY@, "invalid_verified_org_id"@)),
            Some(id) => if storage {
                Ok(id)
            } else {
                Err(reply::outage(account::DATABASE@, "database_unavailable"@))
            },
        },
    }
}

/// The organisation whose log a request may see: one that the caller belongs to, and whose id
/// the database can know.
pub fn activity_org(
    storage: bool,
    customer: &CustomerCtx,
    headers: &HeaderMap,
    explicit: Option<&str>,
) -> (r: Result<u128, Reply>)
    ensures
        match r {
            Ok(id) => log_of(
                storage,
                customer@.orgs,
                orgs::org_header(*headers),
                text::opt_str_view(explicit),
            ) == Ok::<int, ReplyView>(id as int),
            Err(refused) => log_of(
                storage,
                customer@.orgs,
                orgs::org_header(*headers),
                text::opt_str_view(explicit),
            ) == Err::<int, ReplyView>(refused@),
        },
{
    let org = match orgs::selected_customer_org_from(customer, headers, explicit) {
        Ok(org) => org,
        Err(refused) => return Err(refused),
    };
    let id = match ids::parse(org.as_str()) {
        Some(id) => id,
        None => return Err(
            reply::dependency_error(upstream::KEY_AUTHORITY, "invalid_verified_org_id"),
        ),
    };
    if let Err(refused) = account::customer_pool(storage) {
        return Err(refused);
    }
    Ok(id)
}

/// What members see of some rows.
pub open spec fn events_of(rows: Seq<AuditLogRow>) -> Seq<AuditEventView> {
    rows.map_values(|row: AuditLogRow| event_of(row))
}

/// What members see of the rows that the database gave.
pub fn customer_activity_events(rows: Result<Vec<AuditLogRow>, String>) -> (r: Result<
    Vec<CustomerAuditEvent>,
    Reply,
>)
    ensures
        match (r, rows) {
            (Ok(events), Ok(rows)) => events@.map_values(|e: CustomerAuditEvent| e@) == events_of(
                rows@,
            ),
            (Err(refused), Err(_)) => refused@ == reply::outage(
                account::DATABASE@,
                "activity_list_failed"@,
            ),
            _ => false,
        },
{
    let rows = match rows {
        Ok(rows) => rows,
        Err(_) => return Err(reply::dependency_error(account::DATABASE, "activity_list_failed")),
    };
    let mut events: Vec<CustomerAuditEvent> = Vec::new();
    let mut i: usize = 0;
    while i < rows.len()
        invariant
            i <= rows.len(),
            events@.len() == i,
            forall|j: int| 0 <= j < i ==> (#[trigger] events@[j])@ == event_of(rows@[j]),
        decreases rows.len() - i,
    {
        events.push(customer_audit_event(&rows[i]));
        i += 1;
    }
    assert(events@.map_values(|e: CustomerAuditEvent| e@) =~= events_of(rows@));
    Ok(events)
}

/// What is sent of some events.
pub open spec fn log_nodes(events: Seq<AuditEventView>) -> JsonNodes {
    json::object_nodes(
        map![
            "events"@ => json::array_nodes(events.map_values(|e: AuditEventView| event_nodes(e))),
        ],
    )
}

/// The answer to a request for the log.
pub fn customer_activity_json(events: &Vec<CustomerAuditEvent>) -> (r: Reply)
    ensures
        r@ == reply::private_reply(
            200,
            log_nodes(events@.map_values(|e: CustomerAuditEvent| e@)),
        ),
{
    let mut values: Vec<serde_json::Value> = Vec::new();
    let mut i: usize = 0;
    while i < events.len()
        invariant
            i <= events.len(),
            values@.len() == i,
            forall|j: int|
                0 <= j < i ==> json::json_nodes(#[trigger] values@[j]) == event_nodes(events@[j]@),
        decreases events.len() - i,
    {
        values.push(event_value(&events[i]));
        i += 1;
    }
    assert(json::nodes_of(values@) =~= events@.map_values(
        |e: CustomerAuditEvent| e@,
    ).map_values(|e: AuditEventView| event_nodes(e)));
    reply::no_store_json(200, JsonObject::new().with("events", json::array(values)).finish())
}

/// A request sees the log of an organisation of the caller's own, and of no other.
pub proof fn law_logs_stay_within_memberships(
    storage: bool,
    orgs: Seq<Seq<char>>,
    header: Option<Seq<u8>>,
    explicit: Option<Seq<char>>,
)
    ensures
        log_of(storage, orgs, header, explicit) matches Ok(id) ==> exists|i: int|
            0 <= i < orgs.len() && ids::id_of(#[trigger] orgs[i]) == Some(id),
{
    orgs_laws::law_selection_stays_within_memberships(orgs, header, explicit);
    match orgs::selected_org(orgs, header, explicit) {
        Ok(org) => {
            let i = choose|i: int| 0 <= i < orgs.len() && orgs[i] == org;
            assert(orgs[i] == org);
        },
        Err(_) => {},
    }
}

} // verus!
