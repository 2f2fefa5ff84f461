//! Local users and their preferences in the customer database.

use vstd::prelude::*;
use vstd::string::*;

use crate::queries;
use crate::times::Timestamp;

verus! {

/// What is to be done next to find the local user of a subject.
pub enum UserStep {
    /// Nothing: this is the user's id, or the message of the failure.
    Settled(Result<u128, String>),
    /// Insert the user.
    Insert,
    /// Look the user up once more: another request may have inserted it first.
    LookUpAgain,
}

/// What is to be done next, as a mathematical value.
pub enum UserStepView {
    Settled(Result<int, Seq<char>>),
    Insert,
    LookUpAgain,
}

/// An id or a message, as a mathematical value.
pub open spec fn id_result(r: Result<u128, String>) -> Result<int, Seq<char>> {
    match r {
        Ok(id) => Ok(id as int),
        Err(message) => Err(message@),
    }
}

/// An optional id or a message, as a mathematical value.
pub open spec fn found_result(r: Result<Option<u128>, String>) -> Result<Option<int>, Seq<char>> {
    match r {
        Ok(Some(id)) => Ok(Some(id as int)),
        Ok(None) => Ok(None),
        Err(message) => Err(message@),
    }
}

impl View for UserStep {
    type V = UserStepView;

    open spec fn view(&self) -> UserStepView {
        match self {
            UserStep::Settled(r) => UserStepView::Settled(id_result(*r)),
            UserStep::Insert => UserStepView::Insert,
            UserStep::LookUpAgain => UserStepView::LookUpAgain,
        }
    }
}

/// What follows from the first look.
pub open spec fn looked_up(found: Result<Option<int>, Seq<char>>) -> UserStepView {
    match found {
        Ok(Some(id)) => UserStepView::Settled(Ok(id)),
        Ok(None) => UserStepView::Insert,
        Err(message) => UserStepView::Settled(Err(message)),
    }
}

/// What follows from the attempt to insert the user.
pub open spec fn inserted(result: Result<int, Seq<char>>) -> UserStepView {
    match result {
        Ok(id) => UserStepView::Settled(Ok(id)),
        Err(_) => UserStepView::LookUpAgain,
    }
}

/// What follows from the second look.
pub open spec fn looked_up_again(found: Result<Option<int>, Seq<char>>) -> Result<int, Seq<char>> {
    match found {
        Ok(Some(id)) => Ok(id),
        Ok(None) => Err("users row missing after insert race"@),
        Err(message) => Err(message),
    }
}

/// What follows from the first look for a user.
pub fn ensure_user(found: Result<Option<u128>, String>) -> (r: UserStep)
    ensures
        r@ == looked_up(found_result(found)),
{
    match found {
        Ok(Some(id)) => UserStep::Settled(Ok(id)),
        Ok(None) => UserStep::Insert,
        Err(message) => UserStep::Settled(Err(message)),
    }
}

/// What follows from the attempt to insert a user. Whatever made it fail, the user is looked up
/// once more.
pub fn after_user_insert(result: Result<u128, String>) -> (r: UserStep)
    ensures
        r@ == inserted(id_result(result)),
{
    match result {
        Ok(id) => UserStep::Settled(Ok(id)),
        Err(_) => UserStep::LookUpAgain,
    }
}

/// What follows from the second look for a user.
pub fn after_user_race(found: Result<Option<u128>, String>) -> (r: Result<u128, String>)
    ensures
        id_result(r) == looked_up_again(found_result(found)),
{
    match found {
        Ok(Some(id)) => Ok(id),
        Ok(None) => Err("users row missing after insert race".to_owned()),
        Err(message) => Err(message),
    }
}

/// The local users, by their subjects, of which each has one.
pub type Users = Map<int, int>;

/// What looking for a subject gives.
pub open spec fn found_in(users: Users, subject: int) -> Result<Option<int>, Seq<char>> {
    if users.contains_key(subject) {
        Ok(Some(users[subject]))
    } else {
        Ok(None)
    }
}

/// What inserting a subject with a new id does: it fails where the subject is there already.
pub open spec fn insert_user(users: Users, subject: int, fresh: int) -> (
    Users,
    Result<int, Seq<char>>,
) {
    if users.contains_key(subject) {
        (users, Err("duplicate key"@))
    } else {
        (users.insert(subject, fresh), Ok(fresh))
    }
}

/// What finding the user of a subject comes to, where another request may insert the same
/// subject, with the id `rival`, between the first look and the insertion.
pub open spec fn ensured(users: Users, subject: int, fresh: int, rival: Option<int>) -> (
    Users,
    Result<int, Seq<char>>,
) {
    match looked_up(found_in(users, subject)) {
        UserStepView::Settled(r) => (users, r),
        _ => {
            let meanwhile = match rival {
                Some(id) => insert_user(users, subject, id).0,
                None => users,
            };
            let (after, result) = insert_user(meanwhile, subject, fresh);
            match inserted(result) {
                UserStepView::Settled(r) => (after, r),
                _ => (after, looked_up_again(found_in(after, subject))),
            }
        },
    }
}

/// Finding the user of a subject always succeeds, gives the id that the subject then has, and
/// leaves all other users alone, whoever else is at it.
pub proof fn law_every_subject_gets_its_user(
    users: Users,
    subject: int,
    fresh: int,
    rival: Option<int>,
)
    ensures
        ({
            let (after, result) = ensured(users, subject, fresh, rival);
            &&& after.contains_key(subject)
            &&& result == Ok::<int, Seq<char>>(after[subject])
            &&& users.contains_key(subject) ==> after == users
            &&& after.remove(subject) == users.remove(subject)
        }),
{
    let (after, result) = ensured(users, subject, fresh, rival);
    assert(after.remove(subject) =~= users.remove(subject));
}

/// A subject that is looked for twice has the same user both times.
pub proof fn law_users_are_stable(
    users: Users,
    subject: int,
    fresh: int,
    other_fresh: int,
    rival: Option<int>,
    other_rival: Option<int>,
)
    ensures
        ({
            let (after, first) = ensured(users, subject, fresh, rival);
            ensured(after, subject, other_fresh, other_rival) == (after, first)
        }),
{
}

/// What a user can choose about the portal.
#[derive(Debug)]
pub struct CustomerPreferences {
    pub region: String,
    pub timezone: String,
    pub density: String,
    pub notify_lock_contention: bool,
    pub notify_key_rotation: bool,
    pub notify_mfa: bool,
}

/// What a user can choose, as a mathematical value.
pub struct PreferencesView {
    pub region: Seq<char>,
    pub timezone: Seq<char>,
    pub density: Seq<char>,
    pub notify_lock_contention: bool,
    pub notify_key_rotation: bool,
    pub notify_mfa: bool,
}

impl View for CustomerPreferences {
    type V = PreferencesView;

    open spec fn view(&self) -> PreferencesView {
        PreferencesView {
            region: self.region@,
            timezone: self.timezone@,
            density: self.density@,
            notify_lock_contention: self.notify_lock_contention,
            notify_key_rotation: self.notify_key_rotation,
            notify_mfa: self.notify_mfa,
        }
    }
}

/// A row of preferences.
#[derive(Debug)]
pub struct CustomerPreferencesRow {
    pub user_id: u128,
    pub density: String,
    pub timezone: String,
    pub region: String,
    pub notify_key_rotation: bool,
    pub notify_lock_contention: bool,
    pub notify_mfa: bool,
    pub updated_at: Timestamp,
    pub version: i64,
    pub sync_sequence: i64,
}

/// A row of preferences, as a mathematical value.
pub struct PreferencesRowView {
    pub user_id: int,
    pub choices: PreferencesView,
    pub updated_at: Timestamp,
    pub version: int,
    pub sync_sequence: int,
}

impl View for CustomerPreferencesRow {
    type V = PreferencesRowView;

    open spec fn view(&self) -> PreferencesRowView {
        PreferencesRowView {
            user_id: self.user_id as int,
            choices: self.choices(),
            updated_at: self.updated_at,
            version: self.version as int,
            sync_sequence: self.sync_sequence as int,
        }
    }
}

impl CustomerPreferencesRow {
    /// What the row says about the portal.
    pub open spec fn choices(&self) -> PreferencesView {
        PreferencesView {
            region: self.region@,
            timezone: self.timezone@,
            density: self.density@,
            notify_lock_contention: self.notify_lock_contention,
            notify_key_rotation: self.notify_key_rotation,
            notify_mfa: self.notify_mfa,
        }
    }
}

/// What a row of preferences says about the portal.
pub fn prefs_from_row(row: &CustomerPreferencesRow) -> (r: CustomerPreferences)
    ensures
        r@ == row.choices(),
{
    CustomerPreferences {
        region: row.region.clone(),
        timezone: row.timezone.clone(),
        density: row.density.clone(),
        notify_lock_contention: row.notify_lock_contention,
        notify_key_rotation: row.notify_key_rotation,
        notify_mfa: row.notify_mfa,
    }
}

/// What a user who has chosen nothing has.
pub open spec fn default_choices() -> PreferencesView {
    PreferencesView {
        region: "auto"@,
        timezone: "browser"@,
        density: "comfortable"@,
        notify_lock_contention: true,
        notify_key_rotation: true,
        notify_mfa: true,
    }
}

/// What a user who has chosen nothing has.
pub fn default_customer_preferences() -> (r: CustomerPreferences)
    ensures
        r@ == default_choices(),
{
    CustomerPreferences {
        region: "auto".to_owned(),
        timezone: "browser".to_owned(),
        density: "comfortable".to_owned(),
        notify_lock_contention: true,
        notify_key_rotation: true,
        notify_mfa: true,
    }
}

/// How the preferences of a user are written: as a new row, or over the old one, of which nothing
/// else changes.
pub enum PreferencesWrite {
    Insert(u128, CustomerPreferences),
    Update(u128, CustomerPreferences),
}

/// How the preferences of a user are written, as a mathematical value.
pub enum PreferencesWriteView {
    Insert(int, PreferencesView),
    Update(int, PreferencesView),
}

impl View for PreferencesWrite {
    type V = PreferencesWriteView;

    open spec fn view(&self) -> PreferencesWriteView {
        match self {
            PreferencesWrite::Insert(user_id, p) => PreferencesWriteView::Insert(
                *user_id as int,
                p@,
            ),
            PreferencesWrite::Update(user_id, p) => PreferencesWriteView::Update(
                *user_id as int,
                p@,
            ),
        }
    }
}

/// How the preferences of a user are written, given whether there is a row of theirs.
pub open spec fn upsert(
    has_row: bool,
    user_id: int,
    preferences: PreferencesView,
) -> PreferencesWriteView {
    if has_row {
        PreferencesWriteView::Update(user_id, preferences)
    } else {
        PreferencesWriteView::Insert(user_id, preferences)
    }
}

/// How the preferences of a user are written, given whether there is a row of theirs.
pub fn upsert_preferences(
    has_row: bool,
    user_id: u128,
    preferences: CustomerPreferences,
) -> (r: PreferencesWrite)
    ensures
        r@ == upsert(has_row, user_id as int, preferences@),
{
    if has_row {
        PreferencesWrite::Update(user_id, preferences)
    } else {
        PreferencesWrite::Insert(user_id, preferences)
    }
}

// Changes to one row.

/// What is put into a column.
pub enum Content {
    Text(&'static str),
    /// The time of the change.
    Now,
}

/// What is to be done next to change a row that was looked for.
pub enum ChangeStep {
    /// Nothing: this says whether the row was changed, or how that failed.
    Settled(Result<bool, String>),
    /// Put something into a column of the row with this id.
    Put { id: u128, column: &'static str, content: Content },
}

/// What is put into a column, as a mathematical value.
pub enum ContentView {
    Text(Seq<char>),
    Now,
}

/// What is to be done next to change a row, as a mathematical value.
pub enum ChangeStepView {
    Settled(Result<bool, Seq<char>>),
    Put { id: int, column: Seq<char>, content: ContentView },
}

/// An answer or a message, as a mathematical value.
pub open spec fn answer_view(r: Result<bool, String>) -> Result<bool, Seq<char>> {
    match r {
        Ok(done) => Ok(done),
        Err(message) => Err(message@),
    }
}

impl View for Content {
    type V = ContentView;

    open spec fn view(&self) -> ContentView {
        match self {
            Content::Text(s) => ContentView::Text(s@),
            Content::Now => ContentView::Now,
        }
    }
}

impl View for ChangeStep {
    type V = ChangeStepView;

    open spec fn view(&self) -> ChangeStepView {
        match self {
            ChangeStep::Settled(r) => ChangeStepView::Settled(answer_view(*r)),
            ChangeStep::Put { id, column, content } => ChangeStepView::Put {
                id: *id as int,
                column: column@,
                content: content@,
            },
        }
    }
}

/// What is done about a row that was looked for: one that was found is changed.
pub open spec fn change_step(
    found: Result<Option<int>, Seq<char>>,
    column: Seq<char>,
    content: ContentView,
) -> ChangeStepView {
    match found {
        Ok(Some(id)) => ChangeStepView::Put { id, column, content },
        Ok(None) => ChangeStepView::Settled(Ok(false)),
        Err(message) => ChangeStepView::Settled(Err(message)),
    }
}

/// What is done about a row that was looked for.
fn change(
    found: Result<Option<u128>, String>,
    column: &'static str,
    content: Content,
) -> (r: ChangeStep)
    ensures
        r@ == change_step(found_result(found), column@, content@),
{
    match found {
        Ok(Some(id)) => ChangeStep::Put { id, column, content },
        Ok(None) => ChangeStep::Settled(Ok(false)),
        Err(message) => ChangeStep::Settled(Err(message)),
    }
}

/// What is done about the session on a device, once it was looked for by
/// `queries::revoke_session`: it is marked as revoked, and nothing else of it changes.
pub fn revoke_session(found: Result<Option<u128>, String>) -> (r: ChangeStep)
    ensures
        r@ == change_step(
            found_result(found),
            "status"@,
            ContentView::Text(queries::REVOKED@),
        ),
        found matches Ok(Some(id)) ==> r@ == (ChangeStepView::Put {
            id: id as int,
            column: "status"@,
            content: ContentView::Text("revoked"@),
        }),
{
    change(found, "status", Content::Text(queries::REVOKED))
}

/// What is done about a notification, once it was looked for by
/// `queries::mark_notification_read`: it is marked as read now, and nothing else of it changes.
pub fn mark_notification_read(found: Result<Option<u128>, String>) -> (r: ChangeStep)
    ensures
        r@ == change_step(found_result(found), "read_at"@, ContentView::Now),
        found matches Ok(Some(id)) ==> r@ == (ChangeStepView::Put {
            id: id as int,
            column: "read_at"@,
            content: ContentView::Now,
        }),
{
    change(found, "read_at", Content::Now)
}

/// What a change comes to that was written, or could not be.
pub open spec fn changed(written: Result<(), Seq<char>>) -> Result<bool, Seq<char>> {
    match written {
        Ok(_) => Ok(true),
        Err(message) => Err(message),
    }
}

/// What a change comes to that was written, or could not be.
pub fn after_change(written: Result<(), String>) -> (r: Result<bool, String>)
    ensures
        answer_view(r) == changed(
            match written {
                Ok(done) => Ok::<(), Seq<char>>(done),
                Err(message) => Err(message@),
            },
        ),
{
    match written {
        Ok(_) => Ok(true),
        Err(message) => Err(message),
    }
}

} // verus!
