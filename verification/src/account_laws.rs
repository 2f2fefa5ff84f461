//! What customers' own pages and data guarantee.

use vstd::prelude::*;
use vstd::string::*;

use crate::account;
use crate::account::{CustomerPreferencesForm, CustomerSessionsRow};
use crate::activity;
use crate::activity::{AuditEventView, AuditLogRow};
use crate::answer_laws;
use crate::auth::CustomerView;
use crate::ids;
use crate::json;
use crate::json::JsonNodes;
use crate::orgs;
use crate::reply::{BodyView, ReplyView};
use crate::store;
use crate::store::{CustomerPreferencesRow, PreferencesView};
use crate::text;
use crate::times;
use crate::times::Timestamp;

verus! {

/// The text of a point in time.
pub open spec fn text_of(t: Timestamp) -> Seq<char> {
    times::rfc3339(t.spec_secs(), t.spec_nanos(), t.spec_offset())
}

/// Whether an optional text of a row is told under a name: as it is where there is one, and as
/// null only where there is none.
pub open spec fn tells(nodes: JsonNodes, key: Seq<char>, value: Option<String>) -> bool {
    match value {
        Some(s) => json::member_text(nodes, key) == Some(s@),
        None => json::member_null(nodes, key),
    }
}

/// Every event that is shown carries the id, the actor, the action, the target, the request id
/// and the time of its own row, each under its own name, and nothing else.
pub proof fn law_events_tell_their_own_row(row: AuditLogRow)
    ensures
        ({
            let event = activity::event_of(row);
            let nodes = activity::event_nodes(event);
            &&& json::has_keys(
                nodes,
                set!["id"@, "actor"@, "action"@, "target"@, "request_id"@, "created_at"@],
            )
            &&& json::member_text(nodes, "id"@) == Some(ids::id_text(row.id))
            &&& tells(nodes, "actor"@, row.actor)
            &&& json::member_text(nodes, "action"@) == Some(row.action@)
            &&& tells(nodes, "target"@, row.target)
            &&& tells(nodes, "request_id"@, row.request_id)
            &&& json::member_text(nodes, "created_at"@) == Some(text_of(row.created_at))
        }),
{
    let event = activity::event_of(row);
    law_shown_events_tell_all(event);
}

/// What is sent of an event tells all of it, each part under its own name.
pub proof fn law_shown_events_tell_all(event: AuditEventView)
    ensures
        ({
            let nodes = activity::event_nodes(event);
            &&& json::has_keys(
                nodes,
                set!["id"@, "actor"@, "action"@, "target"@, "request_id"@, "created_at"@],
            )
            &&& json::member_text(nodes, "id"@) == Some(ids::id_text(event.id))
            &&& json::member_is(nodes, "actor"@, event.actor)
            &&& json::member_text(nodes, "action"@) == Some(event.action)
            &&& json::member_is(nodes, "target"@, event.target)
            &&& json::member_is(nodes, "request_id"@, event.request_id)
            &&& json::member_text(nodes, "created_at"@) == Some(event.created_at)
        }),
{
    reveal_strlit("id");
    reveal_strlit("actor");
    reveal_strlit("action");
    reveal_strlit("target");
    reveal_strlit("request_id");
    reveal_strlit("created_at");
    assert("id"@.len() == 2);
    assert("actor"@.len() == 5);
    assert("action"@.len() == 6);
    assert("target"@.len() == 6);
    assert("request_id"@.len() == 10);
    assert("created_at"@.len() == 10);
    assert("action"@[0] != "target"@[0]);
    assert("request_id"@[0] != "created_at"@[0]);
    let members = map![
        "id"@ => json::text_nodes(ids::id_text(event.id)),
        "actor"@ => json::opt_text_nodes(event.actor),
        "action"@ => json::text_nodes(event.action),
        "target"@ => json::opt_text_nodes(event.target),
        "request_id"@ => json::opt_text_nodes(event.request_id),
        "created_at"@ => json::text_nodes(event.created_at),
    ];
    json::lemma_object_reads(members);
    assert(members.dom() =~= set!["id"@, "actor"@, "action"@, "target"@, "request_id"@, "created_at"@]);
    assert(members["id"@] == json::text_nodes(ids::id_text(event.id)));
    assert(members["actor"@] == json::opt_text_nodes(event.actor));
    assert(members["action"@] == json::text_nodes(event.action));
    assert(members["target"@] == json::opt_text_nodes(event.target));
    assert(members["request_id"@] == json::opt_text_nodes(event.request_id));
    assert(members["created_at"@] == json::text_nodes(event.created_at));
    json::law_optional_texts_read_back(event.actor);
    json::law_optional_texts_read_back(event.target);
    json::law_optional_texts_read_back(event.request_id);
}

/// Two rows that differ in what members may see of them are shown differently.
pub proof fn law_different_rows_are_shown_differently(a: AuditLogRow, b: AuditLogRow)
    requires
        a.id != b.id || text::opt_view(a.actor) != text::opt_view(b.actor) || a.action@ != b.action@
            || text::opt_view(a.target) != text::opt_view(b.target) || text::opt_view(a.request_id)
            != text::opt_view(b.request_id),
    ensures
        activity::event_of(a) != activity::event_of(b),
        activity::event_nodes(activity::event_of(a)) != activity::event_nodes(
            activity::event_of(b),
        ),
{
    law_events_tell_their_own_row(a);
    law_events_tell_their_own_row(b);
    ids::law_id_texts_denote_their_id(a.id);
    ids::law_id_texts_denote_their_id(b.id);
}

/// The log tells every row that was found, in the order it was found in.
pub proof fn law_logs_tell_every_row_in_order(rows: Seq<AuditLogRow>, i: int)
    requires
        0 <= i < rows.len(),
    ensures
        activity::events_of(rows).len() == rows.len(),
        activity::events_of(rows)[i] == activity::event_of(rows[i]),
{
}

/// What is sent of a log is a list of its events, in order, and nothing else.
pub proof fn law_logs_are_sent_event_by_event(events: Seq<AuditEventView>)
    ensures
        ({
            let nodes = activity::log_nodes(events);
            &&& json::has_keys(nodes, set!["events"@])
            &&& json::member_items(nodes, "events"@) matches Some(items) && items.len()
                == events.len() && forall|i: int|
                0 <= i < events.len() ==> #[trigger] items[i] == activity::event_nodes(events[i])
        }),
{
    let items = events.map_values(|e: AuditEventView| activity::event_nodes(e));
    json::lemma_array_reads(items);
    reveal_strlit("events");
    assert("events"@.len() == 6);
    let members = map![
        "events"@ => json::array_nodes(items),
    ];
    json::lemma_object_reads(members);
    assert(members.dom() =~= set!["events"@]);
    assert(members["events"@] == json::array_nodes(items));
}

/// As many events are shown as are asked for, within 1 and 100; where nothing is asked for, 50.
pub proof fn law_limits_are_kept_to(n: u16)
    ensures
        activity::limit_of(None) == 50,
        1 <= n <= 100 ==> activity::limit_of(Some(n)) == n,
        n == 0 ==> activity::limit_of(Some(n)) == 1,
        n > 100 ==> activity::limit_of(Some(n)) == 100,
{
}

/// The log that is shown is that of the organisation that was chosen; it is shown exactly where
/// one is chosen, its id is one that the database can know, and there is a database.
pub proof fn law_logs_are_those_of_the_chosen_organisation(
    storage: bool,
    orgs: Seq<Seq<char>>,
    header: Option<Seq<u8>>,
    explicit: Option<Seq<char>>,
)
    ensures
        match (
            activity::log_of(storage, orgs, header, explicit),
            orgs::selected_org(orgs, header, explicit),
        ) {
            (Err(r), Err(refused)) => r == refused,
            (r, Ok(org)) => match (r, ids::id_of(org)) {
                (Ok(id), Some(n)) => storage && id == n,
                (Err(told), Some(_)) => !storage && answer_laws::reports_outage(
                    told,
                    "postgres"@,
                    "database_unavailable"@,
                ),
                (Err(told), None) => answer_laws::reports_outage(
                    told,
                    "fiducia-auth"@,
                    "invalid_verified_org_id"@,
                ),
                (Ok(_), None) => false,
            },
            (Ok(_), Err(_)) => false,
        },
{
    answer_laws::law_outages_tell_their_dependency("postgres"@, "database_unavailable"@);
    answer_laws::law_outages_tell_their_dependency("fiducia-auth"@, "invalid_verified_org_id"@);
}

/// A caller is known by the id and the mail address of the session, exactly where there is a
/// database, the id is one and the address is not blank. Otherwise the first of these that fails
/// is told.
pub proof fn law_callers_are_known_by_their_session(storage: bool, ctx: CustomerView)
    ensures
        ({
            let r = account::identity(storage, ctx);
            let id = ids::id_of(ctx.user_id);
            let reachable = ctx.email matches Some(email) && text::trimmed(email).len() > 0;
            &&& r is Ok <==> storage && id is Some && reachable
            &&& r matches Ok(known) ==> Some(known.0) == id && Some(known.1) == ctx.email
            &&& !storage ==> r is Err && answer_laws::reports_outage(
                r->Err_0,
                "postgres"@,
                "database_unavailable"@,
            )
            &&& storage && id is None ==> r is Err && answer_laws::refuses(
                r->Err_0,
                422,
                "invalid_user_subject"@,
            )
            &&& storage && id is Some && !reachable ==> r is Err && answer_laws::refuses(
                r->Err_0,
                422,
                "user_email_required"@,
            )
        }),
{
    answer_laws::law_outages_tell_their_dependency("postgres"@, "database_unavailable"@);
    answer_laws::law_refusals_tell_their_code(422, "invalid_user_subject"@);
    answer_laws::law_refusals_tell_their_code(422, "user_email_required"@);
}

/// Whether a text is one of the regions that a user can choose.
pub open spec fn is_region(s: Seq<char>) -> bool {
    ||| s == "auto"@
    ||| s == "iad1"@
    ||| s == "sfo1"@
    ||| s == "ams1"@
    ||| s == "fra1"@
    ||| s == "sin1"@
    ||| s == "syd1"@
}

/// Choices are accepted exactly where the region and the density are ones that can be chosen and
/// the trimmed time zone has 1 to 64 characters; otherwise the first that is wrong is told.
/// What is saved is what was chosen, with the time zone trimmed.
pub proof fn law_choices_are_saved_as_made(choices: PreferencesView)
    ensures
        ({
            let r = account::accepted_choices(choices);
            let density = choices.density == "comfortable"@ || choices.density == "compact"@;
            let zone = text::trimmed(choices.timezone);
            &&& r is Ok <==> is_region(choices.region) && density && 1 <= zone.len() <= 64
            &&& r matches Ok(saved) ==> {
                &&& saved.region == choices.region
                &&& saved.timezone == zone
                &&& saved.density == choices.density
                &&& saved.notify_lock_contention == choices.notify_lock_contention
                &&& saved.notify_key_rotation == choices.notify_key_rotation
                &&& saved.notify_mfa == choices.notify_mfa
            }
            &&& !is_region(choices.region) ==> r == Err::<PreferencesView, Seq<char>>(
                "invalid_region"@,
            )
            &&& is_region(choices.region) && !density ==> r == Err::<PreferencesView, Seq<char>>(
                "invalid_density"@,
            )
            &&& is_region(choices.region) && density && !(1 <= zone.len() <= 64) ==> r == Err::<
                PreferencesView,
                Seq<char>,
            >("invalid_timezone"@)
        }),
{
    let all = account::regions();
    assert(all[0] == "auto"@);
    assert(all[1] == "iad1"@);
    assert(all[2] == "sfo1"@);
    assert(all[3] == "ams1"@);
    assert(all[4] == "fra1"@);
    assert(all[5] == "sin1"@);
    assert(all[6] == "syd1"@);
}

/// A refusal of choices tells what is wrong: in JSON on the interface, as plain text on a page.
pub proof fn law_refused_choices_are_told(choices: PreferencesView)
    ensures
        match account::accepted_choices(choices) {
            Ok(saved) => account::choices_or_refusal(choices) == Ok::<PreferencesView, ReplyView>(
                saved,
            ) && account::choices_or_text(choices) == Ok::<PreferencesView, ReplyView>(saved),
            Err(code) => {
                &&& account::choices_or_refusal(choices) matches Err(r) && answer_laws::refuses(
                    r,
                    400,
                    code,
                )
                &&& account::choices_or_text(choices) matches Err(r) && r.status == 400 && r.body
                    == BodyView::Plain(code)
            },
        },
{
    if let Err(code) = account::accepted_choices(choices) {
        answer_laws::law_refusals_tell_their_code(400, code);
    }
}

/// A form holds the texts that it was sent with, and a box is ticked exactly where it was sent.
pub proof fn law_forms_hold_what_was_sent(form: CustomerPreferencesForm)
    ensures
        ({
            let c = form.choices();
            &&& c.region == form.region@
            &&& c.timezone == form.timezone@
            &&& c.density == form.density@
            &&& c.notify_lock_contention <==> form.notify_lock_contention is Some
            &&& c.notify_key_rotation <==> form.notify_key_rotation is Some
            &&& c.notify_mfa <==> form.notify_mfa is Some
        }),
{
}

/// A change is made for the caller exactly where what is asked for is accepted and the caller is
/// known, and it is the change that was asked for; what was refused first is told.
pub proof fn law_changes_are_made_for_their_caller(
    storage: bool,
    ctx: CustomerView,
    what: Result<int, ReplyView>,
)
    ensures
        match (account::callers_change(storage, ctx, what), what, account::identity(storage, ctx)) {
            (Ok(change), Ok(asked), Ok(known)) => change.0 == known.0 && change.1 == known.1
                && change.2 == asked,
            (Err(told), Err(refused), _) => told == refused,
            (Err(told), Ok(_), Err(refused)) => told == refused,
            _ => false,
        },
{
}

/// What is sent of preferences tells each under its own name.
pub proof fn law_preferences_are_told(p: PreferencesView)
    ensures
        ({
            let nodes = account::preferences_nodes(p);
            &&& json::has_keys(
                nodes,
                set![
                    "region"@,
                    "timezone"@,
                    "density"@,
                    "notify_lock_contention"@,
                    "notify_key_rotation"@,
                    "notify_mfa"@,
                ],
            )
            &&& json::member_text(nodes, "region"@) == Some(p.region)
            &&& json::member_text(nodes, "timezone"@) == Some(p.timezone)
            &&& json::member_text(nodes, "density"@) == Some(p.density)
            &&& json::member_flag(nodes, "notify_lock_contention"@) == Some(
                p.notify_lock_contention,
            )
            &&& json::member_flag(nodes, "notify_key_rotation"@) == Some(p.notify_key_rotation)
            &&& json::member_flag(nodes, "notify_mfa"@) == Some(p.notify_mfa)
        }),
{
    reveal_strlit("region");
    reveal_strlit("timezone");
    reveal_strlit("density");
    reveal_strlit("notify_lock_contention");
    reveal_strlit("notify_key_rotation");
    reveal_strlit("notify_mfa");
    assert("region"@.len() == 6);
    assert("timezone"@.len() == 8);
    assert("density"@.len() == 7);
    assert("notify_lock_contention"@.len() == 22);
    assert("notify_key_rotation"@.len() == 19);
    assert("notify_mfa"@.len() == 10);
    let members = map![
        "region"@ => json::text_nodes(p.region),
        "timezone"@ => json::text_nodes(p.timezone),
        "density"@ => json::text_nodes(p.density),
        "notify_lock_contention"@ => json::flag_nodes(p.notify_lock_contention),
        "notify_key_rotation"@ => json::flag_nodes(p.notify_key_rotation),
        "notify_mfa"@ => json::flag_nodes(p.notify_mfa),
    ];
    json::lemma_object_reads(members);
    assert(members.dom() =~= set!["region"@, "timezone"@, "density"@, "notify_lock_contention"@, "notify_key_rotation"@, "notify_mfa"@]);
    assert(members["region"@] == json::text_nodes(p.region));
    assert(members["timezone"@] == json::text_nodes(p.timezone));
    assert(members["density"@] == json::text_nodes(p.density));
    assert(members["notify_lock_contention"@] == json::flag_nodes(p.notify_lock_contention));
    assert(members["notify_key_rotation"@] == json::flag_nodes(p.notify_key_rotation));
    assert(members["notify_mfa"@] == json::flag_nodes(p.notify_mfa));
}

/// What is sent about saved preferences tells that they were, which they are, and when.
pub proof fn law_saved_preferences_are_told(p: PreferencesView, now_ms: int)
    ensures
        ({
            let nodes = account::saved_nodes(p, now_ms);
            &&& json::has_keys(nodes, set!["ok"@, "preferences"@, "saved_at_ms"@])
            &&& json::member_flag(nodes, "ok"@) == Some(true)
            &&& json::member(nodes, "preferences"@) == Some(account::preferences_nodes(p))
            &&& json::member_integer(nodes, "saved_at_ms"@) == Some(now_ms)
        }),
{
    reveal_strlit("ok");
    reveal_strlit("preferences");
    reveal_strlit("saved_at_ms");
    assert("ok"@.len() == 2);
    assert("preferences"@.len() == 11);
    assert("saved_at_ms"@.len() == 11);
    assert("preferences"@[0] != "saved_at_ms"@[0]);
    let members = map![
        "ok"@ => json::flag_nodes(true),
        "preferences"@ => account::preferences_nodes(p),
        "saved_at_ms"@ => json::integer_nodes(now_ms),
    ];
    json::lemma_object_reads(members);
    assert(members.dom() =~= set!["ok"@, "preferences"@, "saved_at_ms"@]);
    assert(members["ok"@] == json::flag_nodes(true));
    assert(members["preferences"@] == account::preferences_nodes(p));
    assert(members["saved_at_ms"@] == json::integer_nodes(now_ms));
}

/// A user sees the choices of their row, each as it stands there; one without a row sees what the
/// portal starts with; and where the row cannot be read, that is told.
pub proof fn law_rows_are_seen_as_they_stand(row: CustomerPreferencesRow, message: String)
    ensures
        ({
            let seen = account::read_choices(Ok(Some(row)));
            &&& seen is Ok
            &&& seen->Ok_0.region == row.region@
            &&& seen->Ok_0.timezone == row.timezone@
            &&& seen->Ok_0.density == row.density@
            &&& seen->Ok_0.notify_lock_contention == row.notify_lock_contention
            &&& seen->Ok_0.notify_key_rotation == row.notify_key_rotation
            &&& seen->Ok_0.notify_mfa == row.notify_mfa
        }),
        ({
            let start = account::read_choices(Ok(None));
            &&& start is Ok
            &&& start->Ok_0.region == "auto"@
            &&& start->Ok_0.timezone == "browser"@
            &&& start->Ok_0.density == "comfortable"@
            &&& start->Ok_0.notify_lock_contention
            &&& start->Ok_0.notify_key_rotation
            &&& start->Ok_0.notify_mfa
        }),
        account::read_choices(Err(message)) matches Err(r) && answer_laws::reports_outage(
            r,
            "postgres"@,
            "preferences_read_failed"@,
        ),
        row@.choices == row.choices(),
        row@.user_id == row.user_id,
        row@.version == row.version,
        row@.sync_sequence == row.sync_sequence,
        store::default_choices() == account::read_choices(Ok(None))->Ok_0,
{
    answer_laws::law_outages_tell_their_dependency("postgres"@, "preferences_read_failed"@);
}

/// What is sent of a session tells its device, its place, when it was last seen and its status,
/// and nothing else of its row.
pub proof fn law_sessions_tell_their_own_row(row: CustomerSessionsRow)
    ensures
        ({
            let nodes = account::session_nodes(row);
            &&& json::has_keys(nodes, set!["device"@, "location"@, "last_seen"@, "status"@])
            &&& json::member_text(nodes, "device"@) == Some(row.device@)
            &&& tells(nodes, "location"@, row.location)
            &&& json::member_text(nodes, "last_seen"@) == Some(text_of(row.last_seen))
            &&& json::member_text(nodes, "status"@) == Some(row.status@)
        }),
{
    reveal_strlit("device");
    reveal_strlit("location");
    reveal_strlit("last_seen");
    reveal_strlit("status");
    assert("device"@.len() == 6);
    assert("location"@.len() == 8);
    assert("last_seen"@.len() == 9);
    assert("status"@.len() == 6);
    assert("device"@[0] != "status"@[0]);
    let members = map![
        "device"@ => json::text_nodes(row.device@),
        "location"@ => json::opt_text_nodes(text::opt_view(row.location)),
        "last_seen"@ => json::text_nodes(row.last_seen.written()),
        "status"@ => json::text_nodes(row.status@),
    ];
    json::lemma_object_reads(members);
    assert(members.dom() =~= set!["device"@, "location"@, "last_seen"@, "status"@]);
    assert(members["device"@] == json::text_nodes(row.device@));
    assert(members["location"@] == json::opt_text_nodes(text::opt_view(row.location)));
    assert(members["last_seen"@] == json::text_nodes(row.last_seen.written()));
    assert(members["status"@] == json::text_nodes(row.status@));
    json::law_optional_texts_read_back(text::opt_view(row.location));
}

/// The sessions of a user are all told, in order.
pub proof fn law_all_sessions_are_told_in_order(rows: Seq<CustomerSessionsRow>)
    ensures
        ({
            let nodes = account::sessions_nodes(rows);
            &&& json::has_keys(nodes, set!["sessions"@, "revoke_supported"@])
            &&& json::member_flag(nodes, "revoke_supported"@) == Some(true)
            &&& json::member_items(nodes, "sessions"@) matches Some(items) && items.len()
                == rows.len() && forall|i: int|
                0 <= i < rows.len() ==> #[trigger] items[i] == account::session_nodes(rows[i])
        }),
{
    let items = rows.map_values(|row: CustomerSessionsRow| account::session_nodes(row));
    json::lemma_array_reads(items);
    reveal_strlit("sessions");
    reveal_strlit("revoke_supported");
    assert("sessions"@.len() == 8);
    assert("revoke_supported"@.len() == 16);
    let members = map![
        "sessions"@ => json::array_nodes(items),
        "revoke_supported"@ => json::flag_nodes(true),
    ];
    json::lemma_object_reads(members);
    assert(members.dom() =~= set!["sessions"@, "revoke_supported"@]);
    assert(members["sessions"@] == json::array_nodes(items));
    assert(members["revoke_supported"@] == json::flag_nodes(true));
}

/// What is sent about a revocation tells the device and whether there was a session to revoke.
pub proof fn law_revocations_of_sessions_are_told(device: Seq<char>, done: bool)
    ensures
        ({
            let nodes = account::revocation_nodes(device, done);
            &&& json::has_keys(nodes, set!["ok"@, "device"@, "revoked"@])
            &&& json::member_flag(nodes, "ok"@) == Some(true)
            &&& json::member_text(nodes, "device"@) == Some(device)
            &&& json::member_flag(nodes, "revoked"@) == Some(done)
        }),
{
    reveal_strlit("ok");
    reveal_strlit("device");
    reveal_strlit("revoked");
    assert("ok"@.len() == 2);
    assert("device"@.len() == 6);
    assert("revoked"@.len() == 7);
    let members = map![
        "ok"@ => json::flag_nodes(true),
        "device"@ => json::text_nodes(device),
        "revoked"@ => json::flag_nodes(done),
    ];
    json::lemma_object_reads(members);
    assert(members.dom() =~= set!["ok"@, "device"@, "revoked"@]);
    assert(members["ok"@] == json::flag_nodes(true));
    assert(members["device"@] == json::text_nodes(device));
    assert(members["revoked"@] == json::flag_nodes(done));
}

/// A device is named by its trimmed name of 1 to 200 characters; anything else is refused, in
/// JSON on the interface and as plain text on a page.
pub proof fn law_devices_are_named_by_their_trimmed_name(device: Seq<char>)
    ensures
        ({
            let name = text::trimmed(device);
            &&& 1 <= name.len() <= 200 ==> {
                &&& account::named_device(device) == Some(name)
                &&& account::device_or_refusal(device) == Ok::<Seq<char>, ReplyView>(name)
                &&& account::device_or_text(device) == Ok::<Seq<char>, ReplyView>(name)
            }
            &&& !(1 <= name.len() <= 200) ==> {
                &&& account::named_device(device) is None
                &&& account::device_or_refusal(device) matches Err(r) && answer_laws::refuses(
                    r,
                    400,
                    "invalid_device"@,
                )
                &&& account::device_or_text(device) matches Err(r) && r.status == 400 && r.body
                    == BodyView::Plain("invalid_device"@)
            }
        }),
{
    answer_laws::law_refusals_tell_their_code(400, "invalid_device"@);
}

/// A notification is named by its id, whatever white space is around it; what is no id is refused
/// in plain text.
pub proof fn law_notifications_are_named_by_their_id(id: Seq<char>, n: u128)
    ensures
        text::trimmed(id) == ids::id_text(n) ==> account::notification_or_text(id) == Ok::<
            int,
            ReplyView,
        >(n as int),
        match (account::notification_or_text(id), ids::id_of(text::trimmed(id))) {
            (Ok(a), Some(b)) => a == b,
            (Err(r), None) => r.status == 400 && r.body == BodyView::Plain(
                "invalid_notification_id"@,
            ),
            _ => false,
        },
{
    ids::law_id_texts_denote_their_id(n);
}

} // verus!
