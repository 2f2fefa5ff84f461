//! A customer's own pages and data: preferences, sessions, notifications.

use vstd::prelude::*;
use vstd::string::*;

use crate::auth::{CustomerCtx, CustomerView};
use crate::ids;
use crate::json;
use crate::json::{JsonNodes, JsonObject};
use crate::reply;
use crate::reply::{Reply, ReplyView};
use crate::security;
use crate::store;
use crate::store::{CustomerPreferences, CustomerPreferencesRow, PreferencesView};
use crate::text;
use crate::times::Timestamp;

verus! {

/// The longest name of a time zone.
pub const MAX_TIMEZONE_CHARS: usize = 64;

/// The longest name of a device.
pub const MAX_SESSION_DEVICE_CHARS: usize = 200;

/// The name of the database in reports of its failures.
pub const DATABASE: &'static str = "postgres";

// Who is calling.

/// The subject and the mail address of a caller, of whom a local user is kept.
pub open spec fn identity(storage: bool, ctx: CustomerView) -> Result<(int, Seq<char>), ReplyView> {
    if !storage {
        Err(reply::outage(DATABASE@, "database_unavailable"@))
    } else {
        match ids::id_of(ctx.user_id) {
            None => Err(reply::refusal(422, "invalid_user_subject"@)),
            Some(subject) => match ctx.email {
                Some(email) => if text::trimmed(email).len() > 0 {
                    Ok((subject, email))
                } else {
                    Err(reply::refusal(422, "user_email_required"@))
                },
                None => Err(reply::refusal(422, "user_email_required"@)),
            },
        }
    }
}

/// The answer where there is no database.
pub fn customer_pool(storage: bool) -> (r: Result<(), Reply>)
    ensures
        match r {
            Ok(_) => storage,
            Err(refused) => !storage && refused@ == reply::outage(
                DATABASE@,
                "database_unavailable"@,
            ),
        },
{
    if storage {
        Ok(())
    } else {
        Err(reply::dependency_error(DATABASE, "database_unavailable"))
    }
}

/// The subject and the mail address of a caller. Neither is made up where the session lacks it.
pub fn caller_identity(storage: bool, ctx: &CustomerCtx) -> (r: Result<(u128, String), Reply>)
    ensures
        match r {
            Ok((subject, email)) => identity(storage, ctx@) == Ok::<(int, Seq<char>), ReplyView>(
                (subject as int, email@),
            ),
            Err(refused) => identity(storage, ctx@) == Err::<(int, Seq<char>), ReplyView>(refused@),
        },
{
    if let Err(refused) = customer_pool(storage) {
        return Err(refused);
    }
    let subject = match ids::parse(ctx.user_id.as_str()) {
        Some(subject) => subject,
        None => return Err(reply::deny(422, "invalid_user_subject")),
    };
    match &ctx.email {
        Some(email) => if text::trim(email.as_str()).is_empty() {
            Err(reply::deny(422, "user_email_required"))
        } else {
            Ok((subject, email.clone()))
        },
        None => Err(reply::deny(422, "user_email_required")),
    }
}

/// The local user of a caller, once it was looked for.
pub fn caller_user_id(found: Result<u128, String>) -> (r: Result<u128, Reply>)
    ensures
        match r {
            Ok(id) => found == Ok::<u128, String>(id),
            Err(refused) => found is Err && refused@ == reply::outage(
                DATABASE@,
                "ensure_user_failed"@,
            ),
        },
{
    match found {
        Ok(id) => Ok(id),
        Err(_) => Err(reply::dependency_error(DATABASE, "ensure_user_failed")),
    }
}

// Preferences.

/// The regions that a user can choose.
pub open spec fn regions() -> Seq<Seq<char>> {
    seq!["auto"@, "iad1"@, "sfo1"@, "ams1"@, "fra1"@, "sin1"@, "syd1"@]
}

/// The regions that a user can choose.
pub fn customer_regions() -> (r: Vec<&'static str>)
    ensures
        text::slice_views(r@) == regions(),
{
    let mut r: Vec<&'static str> = Vec::new();
    r.push("auto");
    r.push("iad1");
    r.push("sfo1");
    r.push("ams1");
    r.push("fra1");
    r.push("sin1");
    r.push("syd1");
    assert(text::slice_views(r@) =~= regions());
    r
}

/// A text that is not blank and not too long once it is trimmed.
pub open spec fn is_short(s: Seq<char>, maximum: int) -> bool {
    0 < text::trimmed(s).len() <= maximum
}

/// What is wrong with some choices, if anything is.
pub open spec fn choice_fault(
    region: Seq<char>,
    density: Seq<char>,
    timezone: Seq<char>,
) -> Option<Seq<char>> {
    if !regions().contains(region) {
        Some("invalid_region"@)
    } else if density != "comfortable"@ && density != "compact"@ {
        Some("invalid_density"@)
    } else if !is_short(timezone, MAX_TIMEZONE_CHARS as int) {
        Some("invalid_timezone"@)
    } else {
        None
    }
}

/// What is wrong with some choices, if anything is.
fn check_choices(region: &str, density: &str, timezone: &str) -> (r: Option<&'static str>)
    ensures
        text::opt_str_view(r) == choice_fault(region@, density@, timezone@),
{
    if !text::one_of(&customer_regions(), region) {
        return Some("invalid_region");
    }
    if !text::same(density, "comfortable") && !text::same(density, "compact") {
        return Some("invalid_density");
    }
    let timezone = text::trim(timezone);
    if timezone.is_empty() || timezone.unicode_len() > MAX_TIMEZONE_CHARS {
        return Some("invalid_timezone");
    }
    None
}

/// Choices as they are saved: the time zone without the space around it.
pub open spec fn tidied(choices: PreferencesView) -> PreferencesView {
    PreferencesView { timezone: text::trimmed(choices.timezone), ..choices }
}

/// What is saved of a request to change preferences.
pub open spec fn accepted_choices(choices: PreferencesView) -> Result<PreferencesView, Seq<char>> {
    match choice_fault(choices.region, choices.density, choices.timezone) {
        Some(code) => Err(code),
        None => Ok(tidied(choices)),
    }
}

/// What is saved of a request to change preferences.
pub fn accept_choices(payload: CustomerPreferences) -> (r: Result<
    CustomerPreferences,
    Reply,
>)
    ensures
        match r {
            Ok(saved) => accepted_choices(payload@) == Ok::<PreferencesView, Seq<char>>(saved@),
            Err(refused) => accepted_choices(payload@) matches Err(code) && refused@
                == reply::refusal(400, code),
        },
{
    if let Some(code) = check_choices(
        payload.region.as_str(),
        payload.density.as_str(),
        payload.timezone.as_str(),
    ) {
        return Err(reply::deny(400, code));
    }
    let timezone = text::trim(payload.timezone.as_str()).to_owned();
    Ok(
        CustomerPreferences {
            region: payload.region,
            timezone,
            density: payload.density,
            notify_lock_contention: payload.notify_lock_contention,
            notify_key_rotation: payload.notify_key_rotation,
            notify_mfa: payload.notify_mfa,
        },
    )
}

/// A form with preferences. A box that is ticked is sent, whatever its text; one that is not is
/// left out.
pub struct CustomerPreferencesForm {
    pub region: String,
    pub timezone: String,
    pub density: String,
    pub notify_lock_contention: Option<String>,
    pub notify_key_rotation: Option<String>,
    pub notify_mfa: Option<String>,
}

impl CustomerPreferencesForm {
    /// The choices that the form holds.
    pub open spec fn choices(&self) -> PreferencesView {
        PreferencesView {
            region: self.region@,
            timezone: self.timezone@,
            density: self.density@,
            notify_lock_contention: self.notify_lock_contention is Some,
            notify_key_rotation: self.notify_key_rotation is Some,
            notify_mfa: self.notify_mfa is Some,
        }
    }
}

/// What is saved of a form with preferences.
pub fn accept_form_choices(form: CustomerPreferencesForm) -> (r: Result<
    CustomerPreferences,
    Reply,
>)
    ensures
        match r {
            Ok(saved) => accepted_choices(form.choices()) == Ok::<PreferencesView, Seq<char>>(
                saved@,
            ),
            Err(refused) => accepted_choices(form.choices()) matches Err(code) && refused@
                == reply::text_reply(400, code),
        },
{
    if let Some(code) = check_choices(
        form.region.as_str(),
        form.density.as_str(),
        form.timezone.as_str(),
    ) {
        return Err(reply::text_answer(400, code));
    }
    let timezone = text::trim(form.timezone.as_str()).to_owned();
    Ok(
        CustomerPreferences {
            region: form.region,
            timezone,
            density: form.density,
            notify_lock_contention: form.notify_lock_contention.is_some(),
            notify_key_rotation: form.notify_key_rotation.is_some(),
            notify_mfa: form.notify_mfa.is_some(),
        },
    )
}

/// A change that a caller asks for, with the subject and the mail address of the caller.
pub struct Change<T> {
    pub subject: u128,
    pub email: String,
    pub what: T,
}

/// A change that is made for a caller who is known, where what they ask for is accepted.
pub open spec fn callers_change<T>(
    storage: bool,
    ctx: CustomerView,
    what: Result<T, ReplyView>,
) -> Result<(int, Seq<char>, T), ReplyView> {
    match what {
        Err(refused) => Err(refused),
        Ok(what) => match identity(storage, ctx) {
            Err(refused) => Err(refused),
            Ok((subject, email)) => Ok((subject, email, what)),
        },
    }
}

/// Choices that are accepted, or the refusal in JSON.
pub open spec fn choices_or_refusal(choices: PreferencesView) -> Result<
    PreferencesView,
    ReplyView,
> {
    match accepted_choices(choices) {
        Ok(saved) => Ok(saved),
        Err(code) => Err(reply::refusal(400, code)),
    }
}

/// Choices that are accepted, or the refusal in plain text.
pub open spec fn choices_or_text(choices: PreferencesView) -> Result<PreferencesView, ReplyView> {
    match accepted_choices(choices) {
        Ok(saved) => Ok(saved),
        Err(code) => Err(reply::text_reply(400, code)),
    }
}

/// A change of preferences, as a mathematical value.
pub open spec fn preferences_change(r: Result<Change<CustomerPreferences>, Reply>) -> Result<
    (int, Seq<char>, PreferencesView),
    ReplyView,
> {
    match r {
        Ok(change) => Ok((change.subject as int, change.email@, change.what@)),
        Err(refused) => Err(refused@),
    }
}

/// What a request to change preferences comes to before anything is written. `check` says why
/// the request is turned away, if it is.
pub fn update_customer_preferences(
    check: Result<(), String>,
    storage: bool,
    ctx: &CustomerCtx,
    payload: CustomerPreferences,
) -> (r: Result<Change<CustomerPreferences>, Reply>)
    ensures
        preferences_change(r) == security::cleared(
            security::check_view(check),
            callers_change(storage, ctx@, choices_or_refusal(payload@)),
        ),
{
    if let Err(refused) = security::require_clearance(check) {
        return Err(refused);
    }
    let what = match accept_choices(payload) {
        Ok(what) => what,
        Err(refused) => return Err(refused),
    };
    match caller_identity(storage, ctx) {
        Ok((subject, email)) => Ok(Change { subject, email, what }),
        Err(refused) => Err(refused),
    }
}

/// What a form with preferences comes to before anything is written.
pub fn update_customer_preferences_form(
    check: Result<(), String>,
    storage: bool,
    ctx: &CustomerCtx,
    form: CustomerPreferencesForm,
) -> (r: Result<Change<CustomerPreferences>, Reply>)
    ensures
        preferences_change(r) == security::cleared(
            security::check_view(check),
            callers_change(storage, ctx@, choices_or_text(form.choices())),
        ),
{
    if let Err(refused) = security::require_clearance(check) {
        return Err(refused);
    }
    let what = match accept_form_choices(form) {
        Ok(what) => what,
        Err(refused) => return Err(refused),
    };
    match caller_identity(storage, ctx) {
        Ok((subject, email)) => Ok(Change { subject, email, what }),
        Err(refused) => Err(refused),
    }
}

/// Preferences as they are sent.
pub open spec fn preferences_nodes(p: PreferencesView) -> JsonNodes {
    json::object_nodes(
        map![
            "region"@ => json::text_nodes(p.region),
            "timezone"@ => json::text_nodes(p.timezone),
            "density"@ => json::text_nodes(p.density),
            "notify_lock_contention"@ => json::flag_nodes(p.notify_lock_contention),
            "notify_key_rotation"@ => json::flag_nodes(p.notify_key_rotation),
            "notify_mfa"@ => json::flag_nodes(p.notify_mfa),
        ],
    )
}

/// Preferences as they are sent.
pub fn preferences_value(p: &CustomerPreferences) -> (r: serde_json::Value)
    ensures
        json::json_nodes(r) == preferences_nodes(p@),
{
    JsonObject::new()
        .with("region", json::string(p.region.as_str()))
        .with("timezone", json::string(p.timezone.as_str()))
        .with("density", json::string(p.density.as_str()))
        .with("notify_lock_contention", json::flag(p.notify_lock_contention))
        .with("notify_key_rotation", json::flag(p.notify_key_rotation))
        .with("notify_mfa", json::flag(p.notify_mfa))
        .finish()
}

/// What reading preferences comes to: those of the row, or those of a user who has chosen
/// nothing.
pub open spec fn read_choices(
    found: Result<Option<CustomerPreferencesRow>, String>,
) -> Result<PreferencesView, ReplyView> {
    match found {
        Ok(Some(row)) => Ok(row.choices()),
        Ok(None) => Ok(store::default_choices()),
        Err(_) => Err(reply::outage(DATABASE@, "preferences_read_failed"@)),
    }
}

/// What reading preferences comes to.
pub fn read_preferences(found: Result<Option<CustomerPreferencesRow>, String>) -> (r: Result<
    CustomerPreferences,
    Reply,
>)
    ensures
        match r {
            Ok(p) => read_choices(found) == Ok::<PreferencesView, ReplyView>(p@),
            Err(refused) => read_choices(found) == Err::<PreferencesView, ReplyView>(refused@),
        },
{
    match found {
        Ok(Some(row)) => Ok(store::prefs_from_row(&row)),
        Ok(None) => Ok(store::default_customer_preferences()),
        Err(_) => Err(reply::dependency_error(DATABASE, "preferences_read_failed")),
    }
}

/// The answer to a request for preferences.
pub fn customer_preferences_json(found: Result<Option<CustomerPreferencesRow>, String>) -> (r:
    Reply)
    ensures
        r@ == match read_choices(found) {
            Ok(p) => reply::json_reply(200, preferences_nodes(p)),
            Err(refused) => refused,
        },
{
    match read_preferences(found) {
        Ok(p) => reply::json_answer(200, preferences_value(&p)),
        Err(refused) => refused,
    }
}

/// What is sent about preferences that were saved.
pub open spec fn saved_nodes(p: PreferencesView, now_ms: int) -> JsonNodes {
    json::object_nodes(
        map![
            "ok"@ => json::flag_nodes(true),
            "preferences"@ => preferences_nodes(p),
            "saved_at_ms"@ => json::integer_nodes(now_ms),
        ],
    )
}

/// The answer to a request to change preferences, given the row that was written, at `now_ms`
/// milliseconds after the Unix epoch.
pub fn preferences_saved(saved: Result<CustomerPreferencesRow, String>, now_ms: u64) -> (r: Reply)
    ensures
        r@ == match saved {
            Ok(row) => reply::json_reply(200, saved_nodes(row.choices(), now_ms as int)),
            Err(_) => reply::outage(DATABASE@, "preferences_write_failed"@),
        },
{
    match saved {
        Ok(row) => {
            let p = store::prefs_from_row(&row);
            reply::json_answer(
                200,
                JsonObject::new()
                    .with("ok", json::flag(true))
                    .with("preferences", preferences_value(&p))
                    .with("saved_at_ms", json::unsigned(now_ms))
                    .finish(),
            )
        },
        Err(_) => reply::dependency_error(DATABASE, "preferences_write_failed"),
    }
}

// Sessions.

/// A row of sessions. Its times are in UTC.
#[derive(Debug)]
pub struct CustomerSessionsRow {
    pub id: u128,
    pub user_id: u128,
    pub device: String,
    pub location: Option<String>,
    pub last_seen: Timestamp,
    pub status: String,
    pub updated_at: Timestamp,
    pub version: i64,
    pub sync_sequence: i64,
}

/// What is sent of a session.
pub open spec fn session_nodes(row: CustomerSessionsRow) -> JsonNodes {
    json::object_nodes(
        map![
            "device"@ => json::text_nodes(row.device@),
            "location"@ => json::opt_text_nodes(text::opt_view(row.location)),
            "last_seen"@ => json::text_nodes(row.last_seen.written()),
            "status"@ => json::text_nodes(row.status@),
        ],
    )
}

/// What is sent of a session.
pub fn session_model_json(row: &CustomerSessionsRow) -> (r: serde_json::Value)
    ensures
        json::json_nodes(r) == session_nodes(*row),
{
    JsonObject::new()
        .with("device", json::string(row.device.as_str()))
        .with("location", json::optional_string(&row.location))
        .with("last_seen", json::string(row.last_seen.to_rfc3339().as_str()))
        .with("status", json::string(row.status.as_str()))
        .finish()
}

/// What is sent of the sessions of a user.
pub open spec fn sessions_nodes(rows: Seq<CustomerSessionsRow>) -> JsonNodes {
    json::object_nodes(
        map![
            "sessions"@ => json::array_nodes(
                rows.map_values(|row: CustomerSessionsRow| session_nodes(row)),
            ),
            "revoke_supported"@ => json::flag_nodes(true),
        ],
    )
}

/// The answer to a request for the sessions of a user.
pub fn customer_security_sessions_json(rows: Result<Vec<CustomerSessionsRow>, String>) -> (r: Reply)
    ensures
        r@ == match rows {
            Ok(rows) => reply::json_reply(200, sessions_nodes(rows@)),
            Err(_) => reply::outage(DATABASE@, "sessions_list_failed"@),
        },
{
    let rows = match rows {
        Ok(rows) => rows,
        Err(_) => return reply::dependency_error(DATABASE, "sessions_list_failed"),
    };
    let mut values: Vec<serde_json::Value> = Vec::new();
    let mut i: usize = 0;
    while i < rows.len()
        invariant
            i <= rows.len(),
            values@.len() == i,
            forall|j: int|
                0 <= j < i ==> json::json_nodes(#[trigger] values@[j]) == session_nodes(rows@[j]),
        decreases rows.len() - i,
    {
        values.push(session_model_json(&rows[i]));
        i += 1;
    }
    assert(json::nodes_of(values@) =~= rows@.map_values(
        |row: CustomerSessionsRow| session_nodes(row),
    ));
    reply::json_answer(
        200,
        JsonObject::new()
            .with("sessions", json::array(values))
            .with("revoke_supported", json::flag(true))
            .finish(),
    )
}

/// The device of a session that is to be revoked.
pub open spec fn named_device(device: Seq<char>) -> Option<Seq<char>> {
    if is_short(device, MAX_SESSION_DEVICE_CHARS as int) {
        Some(text::trimmed(device))
    } else {
        None
    }
}

/// The device of a session that is to be revoked.
fn device_name<'a>(device: &'a str) -> (r: Option<&'a str>)
    ensures
        text::opt_str_view(r) == named_device(device@),
{
    let device = text::trim(device);
    if device.is_empty() || device.unicode_len() > MAX_SESSION_DEVICE_CHARS {
        None
    } else {
        Some(device)
    }
}

/// The device that a request to revoke a session names.
pub fn accept_device<'a>(device: &'a str) -> (r: Result<&'a str, Reply>)
    ensures
        match r {
            Ok(name) => named_device(device@) == Some(name@),
            Err(refused) => named_device(device@) is None && refused@ == reply::refusal(
                400,
                "invalid_device"@,
            ),
        },
{
    match device_name(device) {
        Some(name) => Ok(name),
        None => Err(reply::deny(400, "invalid_device")),
    }
}

/// The device that a form to revoke a session names.
pub fn accept_form_device<'a>(device: &'a str) -> (r: Result<&'a str, Reply>)
    ensures
        match r {
            Ok(name) => named_device(device@) == Some(name@),
            Err(refused) => named_device(device@) is None && refused@ == reply::text_reply(
                400,
                "invalid_device"@,
            ),
        },
{
    match device_name(device) {
        Some(name) => Ok(name),
        None => Err(reply::text_answer(400, "invalid_device")),
    }
}

/// A device, or the refusal in JSON.
pub open spec fn device_or_refusal(device: Seq<char>) -> Result<Seq<char>, ReplyView> {
    match named_device(device) {
        Some(name) => Ok(name),
        None => Err(reply::refusal(400, "invalid_device"@)),
    }
}

/// A device, or the refusal in plain text.
pub open spec fn device_or_text(device: Seq<char>) -> Result<Seq<char>, ReplyView> {
    match named_device(device) {
        Some(name) => Ok(name),
        None => Err(reply::text_reply(400, "invalid_device"@)),
    }
}

/// A change to a session, as a mathematical value.
pub open spec fn device_change(r: Result<Change<String>, Reply>) -> Result<
    (int, Seq<char>, Seq<char>),
    ReplyView,
> {
    match r {
        Ok(change) => Ok((change.subject as int, change.email@, change.what@)),
        Err(refused) => Err(refused@),
    }
}

/// What a request to revoke the session on a device comes to before anything is written.
pub fn revoke_customer_security_session(
    check: Result<(), String>,
    storage: bool,
    ctx: &CustomerCtx,
    device: &str,
) -> (r: Result<Change<String>, Reply>)
    ensures
        device_change(r) == security::cleared(
            security::check_view(check),
            callers_change(storage, ctx@, device_or_refusal(device@)),
        ),
{
    if let Err(refused) = security::require_clearance(check) {
        return Err(refused);
    }
    let what = match accept_device(device) {
        Ok(name) => name.to_owned(),
        Err(refused) => return Err(refused),
    };
    match caller_identity(storage, ctx) {
        Ok((subject, email)) => Ok(Change { subject, email, what }),
        Err(refused) => Err(refused),
    }
}

/// What a form to revoke the session on a device comes to before anything is written.
pub fn revoke_customer_session_form(
    check: Result<(), String>,
    storage: bool,
    ctx: &CustomerCtx,
    device: &str,
) -> (r: Result<Change<String>, Reply>)
    ensures
        device_change(r) == security::cleared(
            security::check_view(check),
            callers_change(storage, ctx@, device_or_text(device@)),
        ),
{
    if let Err(refused) = security::require_clearance(check) {
        return Err(refused);
    }
    let what = match accept_form_device(device) {
        Ok(name) => name.to_owned(),
        Err(refused) => return Err(refused),
    };
    match caller_identity(storage, ctx) {
        Ok((subject, email)) => Ok(Change { subject, email, what }),
        Err(refused) => Err(refused),
    }
}

/// What is sent about a session that was to be revoked.
pub open spec fn revocation_nodes(device: Seq<char>, done: bool) -> JsonNodes {
    json::object_nodes(
        map![
            "ok"@ => json::flag_nodes(true),
            "device"@ => json::text_nodes(device),
            "revoked"@ => json::flag_nodes(done),
        ],
    )
}

/// The answer to a request to revoke a session, given whether there was one to revoke.
pub fn session_revoked(device: &str, revoked: Result<bool, String>) -> (r: Reply)
    ensures
        r@ == match revoked {
            Ok(done) => reply::json_reply(200, revocation_nodes(device@, done)),
            Err(_) => reply::outage(DATABASE@, "session_revoke_failed"@),
        },
{
    match revoked {
        Ok(done) => reply::json_answer(
            200,
            JsonObject::new()
                .with("ok", json::flag(true))
                .with("device", json::string(device))
                .with("revoked", json::flag(done))
                .finish(),
        ),
        Err(_) => reply::dependency_error(DATABASE, "session_revoke_failed"),
    }
}

/// What a page says about the revocation of a session.
pub fn session_revoked_message(revoked: Result<bool, String>) -> (r: Result<&'static str, Reply>)
    ensures
        match (r, revoked) {
            (Ok(message), Ok(true)) => message@ == "Session revoked."@,
            (Ok(message), Ok(false)) => message@
                == "Session was already revoked or no longer exists."@,
            (Err(refused), Err(_)) => refused@ == reply::outage(DATABASE@, "session_revoke_failed"@),
            _ => false,
        },
{
    match revoked {
        Ok(true) => Ok("Session revoked."),
        Ok(false) => Ok("Session was already revoked or no longer exists."),
        Err(_) => Err(reply::dependency_error(DATABASE, "session_revoke_failed")),
    }
}

// Notifications.

/// The notification that a form names.
pub fn notification_id(id: &str) -> (r: Result<u128, Reply>)
    ensures
        match r {
            Ok(n) => ids::id_of(text::trimmed(id@)) == Some(n as int),
            Err(refused) => ids::id_of(text::trimmed(id@)) is None && refused@ == reply::text_reply(
                400,
                "invalid_notification_id"@,
            ),
        },
{
    match ids::parse(text::trim(id)) {
        Some(n) => Ok(n),
        None => Err(reply::text_answer(400, "invalid_notification_id")),
    }
}

/// A notification, or the refusal in plain text.
pub open spec fn notification_or_text(id: Seq<char>) -> Result<int, ReplyView> {
    match ids::id_of(text::trimmed(id)) {
        Some(n) => Ok(n),
        None => Err(reply::text_reply(400, "invalid_notification_id"@)),
    }
}

/// What a form to mark a notification as read comes to before anything is written.
pub fn read_customer_notification_form(
    check: Result<(), String>,
    storage: bool,
    ctx: &CustomerCtx,
    id: &str,
) -> (r: Result<Change<u128>, Reply>)
    ensures
        ({
            let expected = security::cleared(
                security::check_view(check),
                callers_change(storage, ctx@, notification_or_text(id@)),
            );
            match r {
                Ok(change) => expected == Ok::<(int, Seq<char>, int), ReplyView>(
                    (change.subject as int, change.email@, change.what as int),
                ),
                Err(refused) => expected == Err::<(int, Seq<char>, int), ReplyView>(refused@),
            }
        }),
{
    if let Err(refused) = security::require_clearance(check) {
        return Err(refused);
    }
    let what = match notification_id(id) {
        Ok(what) => what,
        Err(refused) => return Err(refused),
    };
    match caller_identity(storage, ctx) {
        Ok((subject, email)) => Ok(Change { subject, email, what }),
        Err(refused) => Err(refused),
    }
}

/// What a page says about a notification that was to be marked as read.
pub fn notification_read_message(read: Result<bool, String>) -> (r: Result<&'static str, Reply>)
    ensures
        match (r, read) {
            (Ok(message), Ok(true)) => message@ == "Notification marked read."@,
            (Ok(message), Ok(false)) => message@
                == "Notification was already read or no longer exists."@,
            (Err(refused), Err(_)) => refused@ == reply::outage(
                DATABASE@,
                "notification_read_failed"@,
            ),
            _ => false,
        },
{
    match read {
        Ok(true) => Ok("Notification marked read."),
        Ok(false) => Ok("Notification was already read or no longer exists."),
        Err(_) => Err(reply::dependency_error(DATABASE, "notification_read_failed")),
    }
}

/// The answer where the notifications of a user could not be read: neither listed nor, where
/// `counting`, counted.
pub fn notifications_unavailable(counting: bool) -> (r: Reply)
    ensures
        r@ == reply::outage(
            DATABASE@,
            if counting {
                "notifications_count_failed"@
            } else {
                "notifications_list_failed"@
            },
        ),
{
    if counting {
        reply::dependency_error(DATABASE, "notifications_count_failed")
    } else {
        reply::dependency_error(DATABASE, "notifications_list_failed")
    }
}

/// A request that its checks turn away changes nothing: no change comes of it.
pub proof fn law_rejected_requests_change_nothing(
    reason: Seq<char>,
    storage: bool,
    ctx: CustomerView,
    choices: PreferencesView,
)
    ensures
        security::cleared(
            Some(reason),
            callers_change(storage, ctx, choices_or_refusal(choices)),
        ) == Err::<(int, Seq<char>, PreferencesView), ReplyView>(security::rejection(reason)),
{
}

/// Choices that were saved would be saved again as they are.
pub proof fn law_saved_choices_are_stable(choices: PreferencesView)
    ensures
        accepted_choices(choices) matches Ok(saved) ==> accepted_choices(saved) == Ok::<
            PreferencesView,
            Seq<char>,
        >(saved),
{
    text::lemma_trimmed_ends(choices.timezone);
}

/// What a user who has chosen nothing has could be chosen.
pub proof fn law_default_choices_are_choices()
    ensures
        accepted_choices(store::default_choices()) == Ok::<PreferencesView, Seq<char>>(
            store::default_choices(),
        ),
{
    reveal_strlit("browser");
    let s = "browser"@;
    assert(regions()[0] == "auto"@);
    assert(!text::is_white_space(s[0]));
    assert(!text::is_white_space(s[6]));
    assert(text::trim_front(s) == s);
    assert(text::trim_back(s) == s);
}

} // verus!
