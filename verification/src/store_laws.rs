//! What changes to a customer's own rows guarantee.

use vstd::prelude::*;
use vstd::string::*;

use crate::queries;
use crate::queries::{CellView, Row};
use crate::store;
use crate::store::{
    ChangeStepView, ContentView, PreferencesRowView, PreferencesView, PreferencesWriteView,
    UserStepView,
};
use crate::times::Timestamp;

verus! {

// Preferences.

/// The rows of preferences, by the ids of their users.
pub type PreferenceRows = Map<int, PreferencesRowView>;

/// What the database puts into a row by itself. A trigger counts the version of a row up by one
/// with each update; `first_version` is the one that a new row has.
pub struct Stamp {
    pub updated_at: Timestamp,
    pub first_version: int,
    pub sync_sequence: int,
}

/// The row that writing preferences leaves, where `rows` has one to write over if one is to be.
pub open spec fn written_row(
    rows: PreferenceRows,
    write: PreferencesWriteView,
    stamp: Stamp,
) -> PreferencesRowView {
    match write {
        PreferencesWriteView::Insert(user_id, choices) => PreferencesRowView {
            user_id,
            choices,
            updated_at: stamp.updated_at,
            version: stamp.first_version,
            sync_sequence: stamp.sync_sequence,
        },
        PreferencesWriteView::Update(user_id, choices) => PreferencesRowView {
            user_id,
            choices,
            updated_at: stamp.updated_at,
            version: rows[user_id].version + 1,
            sync_sequence: stamp.sync_sequence,
        },
    }
}

/// What saving the preferences of a user does, and the row that it gives back.
pub open spec fn saved(
    rows: PreferenceRows,
    user_id: int,
    choices: PreferencesView,
    stamp: Stamp,
) -> (PreferenceRows, PreferencesRowView) {
    let write = store::upsert(rows.contains_key(user_id), user_id, choices);
    let row = written_row(rows, write, stamp);
    (rows.insert(row.user_id, row), row)
}

/// What reading the preferences of a user gives.
pub open spec fn read_back(rows: PreferenceRows, user_id: int) -> Option<PreferencesRowView> {
    if rows.contains_key(user_id) {
        Some(rows[user_id])
    } else {
        None
    }
}

/// What a user sees as their preferences.
pub open spec fn seen(rows: PreferenceRows, user_id: int) -> PreferencesView {
    match read_back(rows, user_id) {
        Some(row) => row.choices,
        None => store::default_choices(),
    }
}

/// What is saved is read back: the row that saving gave, with the choices that were made. No
/// row of any other user changes.
pub proof fn law_saved_preferences_are_read_back(
    rows: PreferenceRows,
    user_id: int,
    choices: PreferencesView,
    stamp: Stamp,
    other: int,
)
    requires
        other != user_id,
    ensures
        ({
            let (after, row) = saved(rows, user_id, choices, stamp);
            &&& row.user_id == user_id
            &&& row.choices == choices
            &&& read_back(after, user_id) == Some(row)
            &&& seen(after, user_id) == choices
            &&& read_back(after, other) == read_back(rows, other)
            &&& seen(after, other) == seen(rows, other)
            &&& rows.contains_key(user_id) ==> row.version == rows[user_id].version + 1
            &&& !rows.contains_key(user_id) ==> row.version == stamp.first_version
        }),
{
}

/// Of two saves of one user the second counts: its choices are read back, in a row whose version
/// is one above that of the first. No row of any other user changes.
pub proof fn law_the_last_save_counts(
    rows: PreferenceRows,
    user_id: int,
    first: PreferencesView,
    second: PreferencesView,
    stamp: Stamp,
    later: Stamp,
    other: int,
)
    requires
        other != user_id,
    ensures
        ({
            let (between, saved_row) = saved(rows, user_id, first, stamp);
            let (after, updated) = saved(between, user_id, second, later);
            &&& updated.choices == second
            &&& updated.version == saved_row.version + 1
            &&& read_back(after, user_id) == Some(updated)
            &&& read_back(after, other) == read_back(rows, other)
        }),
{
    let (between, saved_row) = saved(rows, user_id, first, stamp);
    law_saved_preferences_are_read_back(rows, user_id, first, stamp, other);
    law_saved_preferences_are_read_back(between, user_id, second, later, other);
}

// Sessions and notifications.

/// The rows of a table, by their ids.
pub type Rows = Map<int, Row>;

/// What a row becomes when something is put into a column at the time `now`.
pub open spec fn with_content(
    row: Row,
    column: Seq<char>,
    content: ContentView,
    now: int,
) -> Row {
    row.insert(
        column,
        match content {
            ContentView::Text(s) => CellView::Text(s),
            ContentView::Now => CellView::Time(now),
        },
    )
}

/// What is done about a row that was looked for, by a database that does what it is told.
pub open spec fn carried_out(rows: Rows, step: ChangeStepView, now: int) -> (
    Rows,
    Result<bool, Seq<char>>,
) {
    match step {
        ChangeStepView::Settled(answer) => (rows, answer),
        ChangeStepView::Put { id, column, content } => (
            rows.insert(id, with_content(rows[id], column, content, now)),
            store::changed(Ok(())),
        ),
    }
}

/// Whether a row is a session of a user on a device that can be revoked.
pub open spec fn can_revoke(rows: Rows, id: int, user_id: u128, device: Seq<char>) -> bool {
    rows.contains_key(id) && queries::revocable(rows[id], user_id, device)
}

/// What the database may give for a query for one row: one of those that meet its conditions,
/// or none where none does.
pub open spec fn may_find(
    rows: Rows,
    user_id: u128,
    device: Seq<char>,
    found: Option<int>,
) -> bool {
    match found {
        Some(id) => can_revoke(rows, id, user_id, device),
        None => forall|id: int| !can_revoke(rows, id, user_id, device),
    }
}

/// What revoking the session on a device does, and its answer, given what was found.
pub open spec fn session_revoked(rows: Rows, found: Option<int>, now: int) -> (
    Rows,
    Result<bool, Seq<char>>,
) {
    carried_out(
        rows,
        store::change_step(Ok(found), "status"@, ContentView::Text(queries::REVOKED@)),
        now,
    )
}

/// Revoking the session on a device succeeds exactly where its user has one there that can be
/// revoked. Whichever the database finds, the status of that one becomes revoked and nothing
/// else changes: every user has the same sessions as before, and those of others are as they
/// were.
pub proof fn law_sessions_are_revoked_by_their_user_alone(
    rows: Rows,
    user_id: u128,
    other: u128,
    device: Seq<char>,
    found: Option<int>,
    now: int,
)
    requires
        may_find(rows, user_id, device, found),
        other != user_id,
    ensures
        ({
            let (after, answer) = session_revoked(rows, found, now);
            &&& answer == Ok::<bool, Seq<char>>(
                exists|id: int| can_revoke(rows, id, user_id, device),
            )
            &&& found is None ==> after == rows
            &&& found matches Some(id) ==> after == rows.insert(
                id,
                rows[id].insert("status"@, CellView::Text(queries::REVOKED@)),
            )
            &&& after.dom() == rows.dom()
            &&& forall|id: int|
                rows.contains_key(id) ==> {
                    &&& #[trigger] queries::column_of(after[id], "user_id"@) == queries::column_of(
                        rows[id],
                        "user_id"@,
                    )
                    &&& queries::belongs(rows[id], "user_id"@, other) ==> after[id] == rows[id]
                }
        }),
{
    reveal_strlit("status");
    reveal_strlit("user_id");
    assert("status"@.len() != "user_id"@.len());
    let (after, answer) = session_revoked(rows, found, now);
    assert(after.dom() =~= rows.dom());
    if let Some(id) = found {
        assert(can_revoke(rows, id, user_id, device));
    }
}

/// A user with one session on a device revokes it once: it is then revoked, and a repetition
/// finds nothing and changes nothing.
pub proof fn law_a_session_is_revoked_once(
    rows: Rows,
    user_id: u128,
    device: Seq<char>,
    id: int,
    found: Option<int>,
    found_again: Option<int>,
    now: int,
    later: int,
)
    requires
        can_revoke(rows, id, user_id, device),
        forall|x: int| #[trigger] can_revoke(rows, x, user_id, device) ==> x == id,
        may_find(rows, user_id, device, found),
        may_find(session_revoked(rows, found, now).0, user_id, device, found_again),
    ensures
        ({
            let (after, answer) = session_revoked(rows, found, now);
            &&& answer == Ok::<bool, Seq<char>>(true)
            &&& queries::says(after[id], "status"@, queries::REVOKED@)
            &&& session_revoked(after, found_again, later) == (after, Ok::<bool, Seq<char>>(false))
        }),
{
    assert(found == Some(id));
    let after = session_revoked(rows, found, now).0;
    assert forall|x: int| !(#[trigger] can_revoke(after, x, user_id, device)) by {
        if x != id && rows.contains_key(x) {
            assert(after[x] == rows[x]);
            assert(!can_revoke(rows, x, user_id, device));
        }
    }
    if let Some(x) = found_again {
        assert(can_revoke(after, x, user_id, device));
    }
}

/// Whether a row is a notification with the given id that a user has not read.
pub open spec fn is_unread(rows: Rows, id: int, user_id: u128) -> bool {
    rows.contains_key(id) && queries::unread(rows[id], user_id)
}

/// What marking a notification as read does, and its answer.
pub open spec fn notification_read(rows: Rows, id: int, user_id: u128, now: int) -> (
    Rows,
    Result<bool, Seq<char>>,
) {
    let found = if is_unread(rows, id, user_id) {
        Some(id)
    } else {
        None
    };
    carried_out(rows, store::change_step(Ok(found), "read_at"@, ContentView::Now), now)
}

/// A notification is marked as read by its own user and once: a repetition, and a call of
/// another user, change nothing and say so.
pub proof fn law_notifications_are_read_once_by_their_user(
    rows: Rows,
    id: int,
    user_id: u128,
    other: u128,
    now: int,
    later: int,
)
    requires
        is_unread(rows, id, user_id),
        other != user_id,
    ensures
        notification_read(rows, id, other, now) == (rows, Ok::<bool, Seq<char>>(false)),
        ({
            let (after, answer) = notification_read(rows, id, user_id, now);
            &&& answer == Ok::<bool, Seq<char>>(true)
            &&& after == rows.insert(id, rows[id].insert("read_at"@, CellView::Time(now)))
            &&& notification_read(after, id, user_id, later) == (after, Ok::<bool, Seq<char>>(false))
        }),
{
}

/// A subject that was found is settled, one that was not is inserted, and one whose insertion
/// failed is looked for once more; every failure to look is told as it is.
pub proof fn law_users_are_found_step_by_step(id: int, message: Seq<char>)
    ensures
        store::looked_up(Ok(Some(id))) == UserStepView::Settled(Ok::<int, Seq<char>>(id)),
        store::looked_up(Ok(None)) == UserStepView::Insert,
        store::looked_up(Err(message)) == UserStepView::Settled(Err::<int, Seq<char>>(message)),
        store::inserted(Ok(id)) == UserStepView::Settled(Ok::<int, Seq<char>>(id)),
        store::inserted(Err(message)) == UserStepView::LookUpAgain,
        store::looked_up_again(Ok(Some(id))) == Ok::<int, Seq<char>>(id),
        store::looked_up_again(Ok(None)) == Err::<int, Seq<char>>(
            "users row missing after insert race"@,
        ),
        store::looked_up_again(Err(message)) == Err::<int, Seq<char>>(message),
{
}

/// A row that was found is changed, in the column and to the content that were asked for; where
/// none was, nothing is; and a failure is told as it is. What was written counts as changed.
pub proof fn law_rows_are_changed_where_found(
    id: int,
    column: Seq<char>,
    content: ContentView,
    message: Seq<char>,
)
    ensures
        store::change_step(Ok(Some(id)), column, content) == (ChangeStepView::Put {
            id,
            column,
            content,
        }),
        store::change_step(Ok(None), column, content) == ChangeStepView::Settled(
            Ok::<bool, Seq<char>>(false),
        ),
        store::change_step(Err(message), column, content) == ChangeStepView::Settled(
            Err::<bool, Seq<char>>(message),
        ),
        store::changed(Ok(())) == Ok::<bool, Seq<char>>(true),
        store::changed(Err(message)) == Err::<bool, Seq<char>>(message),
        queries::REVOKED@ == "revoked"@,
{
}

} // verus!
