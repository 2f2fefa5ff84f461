//! What the binding of sessions to a second factor guarantees.
//!
//! The laws speak of a database that does what the statements say: it joins a session with the
//! user whose id it holds, records no session of the identity service twice, and changes the
//! rows that a statement asks for, and those alone.

use vstd::prelude::*;
use vstd::string::*;

use crate::queries;
use crate::queries::{CellView, Row, TestView};
use crate::session_assurance;
use crate::session_assurance::BindingView;
use crate::statements;
use crate::statements::{
    AssignmentView, ColumnConditionView, ColumnTestView, OperandView, Source, SqlValueView,
};
use crate::text;

verus! {

/// The users and the recorded sessions, by their ids.
pub struct Tables {
    pub users: Map<int, Row>,
    pub sessions: Map<int, Row>,
}

/// What is given back of a recorded session.
pub struct SessionView {
    pub id: int,
    pub user_id: CellView,
    pub shared_auth_session_id: CellView,
    pub assurance_verified_at: CellView,
    pub expires_at: CellView,
}

/// What is given back of a row.
pub open spec fn given_back(id: int, row: Row) -> SessionView {
    SessionView {
        id,
        user_id: queries::column_of(row, "user_id"@),
        shared_auth_session_id: queries::column_of(row, "shared_auth_session_id"@),
        assurance_verified_at: queries::column_of(row, "assurance_verified_at"@),
        expires_at: queries::column_of(row, "expires_at"@),
    }
}

/// The user that a session is joined with.
pub open spec fn user_of(db: Tables, session: Row) -> Option<Row> {
    match queries::column_of(session, "user_id"@) {
        CellView::Id(id) => if db.users.contains_key(id) {
            Some(db.users[id])
        } else {
            None
        },
        _ => None,
    }
}

/// Whether a row records the given session of the identity service.
pub open spec fn records(db: Tables, id: int, sid: int) -> bool {
    db.sessions.contains_key(id) && queries::column_of(
        db.sessions[id],
        "shared_auth_session_id"@,
    ) == CellView::Id(sid)
}

/// No session of the identity service is recorded twice.
pub open spec fn is_sound(db: Tables) -> bool {
    forall|a: int, b: int, sid: int| #[trigger]
        records(db, a, sid) && #[trigger] records(db, b, sid) ==> a == b
}

/// Whether a lookup asks for a row.
pub open spec fn finds(db: Tables, id: int, subject: int, sid: int, now: int) -> bool {
    &&& db.sessions.contains_key(id)
    &&& user_of(db, db.sessions[id]) matches Some(user) && session_assurance::usable(
        db.sessions[id],
        user,
        subject,
        sid,
        now,
    )
}

/// What a lookup gives back.
pub open spec fn looked_up(db: Tables, subject: int, sid: int, now: int) -> Option<SessionView> {
    if exists|id: int| finds(db, id, subject, sid, now) {
        let id = choose|id: int| finds(db, id, subject, sid, now);
        Some(given_back(id, db.sessions[id]))
    } else {
        None
    }
}

/// What recording a session does, and what it gives back: a session that is recorded already is
/// left alone.
pub open spec fn bound(
    db: Tables,
    id: int,
    user_id: int,
    sid: int,
    b: BindingView,
    verified_at: int,
    expires_at: int,
) -> (Tables, Option<SessionView>) {
    let row = session_assurance::bound_row(user_id, sid, b, verified_at, expires_at);
    if exists|other: int| records(db, other, sid) {
        (db, None)
    } else {
        (
            Tables { sessions: db.sessions.insert(id, row), ..db },
            Some(given_back(id, row)),
        )
    }
}

/// Whether a revocation asks for a row.
pub open spec fn revokes(db: Tables, id: int, subject: int, sid: int) -> bool {
    &&& db.sessions.contains_key(id)
    &&& user_of(db, db.sessions[id]) matches Some(user) && session_assurance::is_verified_for(
        db.sessions[id],
        user,
        subject,
        sid,
    )
}

/// What a revocation does, and whether it gives back a row.
pub open spec fn revoked(db: Tables, subject: int, sid: int) -> (Tables, bool) {
    (
        Tables {
            sessions: Map::new(
                |id: int| db.sessions.contains_key(id),
                |id: int|
                    if revokes(db, id, subject, sid) {
                        db.sessions[id].insert("status"@, CellView::Text(queries::REVOKED@))
                    } else {
                        db.sessions[id]
                    },
            ),
            ..db
        },
        exists|id: int| revokes(db, id, subject, sid),
    )
}

/// The columns of a session are different ones.
proof fn lemma_columns()
    ensures
        "status"@ != "user_id"@,
        "status"@ != "shared_auth_session_id"@,
        "status"@ != "provider_project"@,
        "status"@ != "assurance_level"@,
        "status"@ != "device"@,
        "verified"@ != queries::REVOKED@,
        "user_id"@.len() == 7,
        "device"@.len() == 6,
        "location"@.len() == 8,
        "status"@.len() == 6,
        "shared_auth_session_id"@.len() == 22,
        "provider_project"@.len() == 16,
        "assurance_level"@.len() == 15,
        "assurance_verified_at"@.len() == 21,
        "expires_at"@.len() == 10,
{
    reveal_strlit("user_id");
    reveal_strlit("device");
    reveal_strlit("location");
    reveal_strlit("status");
    reveal_strlit("shared_auth_session_id");
    reveal_strlit("provider_project");
    reveal_strlit("assurance_level");
    reveal_strlit("assurance_verified_at");
    reveal_strlit("expires_at");
    reveal_strlit("verified");
    reveal_strlit("revoked");
    assert("status"@[0] != "device"@[0]);
    assert("status"@.len() == 6);
    assert("user_id"@.len() == 7);
    assert("shared_auth_session_id"@.len() == 22);
    assert("provider_project"@.len() == 16);
    assert("assurance_level"@.len() == 15);
    assert("verified"@.len() != "revoked"@.len());
}

/// What a recorded session holds in its columns.
proof fn lemma_bound_row(user_id: int, sid: int, b: BindingView, verified_at: int, expires_at: int)
    ensures
        ({
            let row = session_assurance::bound_row(user_id, sid, b, verified_at, expires_at);
            &&& queries::column_of(row, "user_id"@) == CellView::Id(user_id)
            &&& queries::column_of(row, "shared_auth_session_id"@) == CellView::Id(sid)
            &&& queries::says(row, "status"@, "verified"@)
            &&& queries::says(
                row,
                "provider_project"@,
                session_assurance::CUSTOMER_PROVIDER_PROJECT@,
            )
            &&& queries::says(row, "assurance_level"@, "aal2"@)
            &&& queries::column_of(row, "assurance_verified_at"@) == CellView::Time(verified_at)
            &&& queries::column_of(row, "expires_at"@) == CellView::Time(expires_at)
        }),
{
    lemma_columns();
}

/// A session that was bound is given back, as it was when it was bound, to its own subject from
/// the moment its second factor was shown until it expires, and at no other time; to any other
/// subject it is never given back.
pub proof fn law_lookups_give_back_what_was_bound(
    db: Tables,
    id: int,
    user_id: int,
    sid: int,
    device: Seq<char>,
    location: Option<Seq<char>>,
    verified_at: int,
    expires_at: int,
    subject: int,
    other_subject: int,
    now: int,
)
    requires
        session_assurance::binding(device, location, verified_at, expires_at) is Ok,
        db.users.contains_key(user_id),
        queries::column_of(db.users[user_id], "supabase_user_id"@) == CellView::Id(subject),
        !db.sessions.contains_key(id),
        forall|other: int| !records(db, other, sid),
        other_subject != subject,
    ensures
        ({
            let b = session_assurance::binding(device, location, verified_at, expires_at)->Ok_0;
            let (after, session) = bound(db, id, user_id, sid, b, verified_at, expires_at);
            &&& session is Some
            &&& looked_up(after, subject, sid, now) == if verified_at <= now < expires_at {
                session
            } else {
                None
            }
            &&& looked_up(after, other_subject, sid, now) is None
        }),
{
    let b = session_assurance::binding(device, location, verified_at, expires_at)->Ok_0;
    let (after, session) = bound(db, id, user_id, sid, b, verified_at, expires_at);
    let row = session_assurance::bound_row(user_id, sid, b, verified_at, expires_at);
    lemma_bound_row(user_id, sid, b, verified_at, expires_at);
    assert(after.sessions[id] == row);
    assert(user_of(after, row) == Some(db.users[user_id]));
    assert forall|x: int, s: int| #[trigger] finds(after, x, s, sid, now) implies x == id && s
        == subject && verified_at <= now < expires_at by {
        if x != id {
            assert(after.sessions[x] == db.sessions[x]);
            assert(records(db, x, sid));
        }
    }
    if verified_at <= now < expires_at {
        assert(finds(after, id, subject, sid, now));
    }
}

/// A session that is recorded already stays with the user it was recorded for.
pub proof fn law_bound_sessions_are_never_reassigned(
    db: Tables,
    id: int,
    existing: int,
    user_id: int,
    sid: int,
    b: BindingView,
    verified_at: int,
    expires_at: int,
)
    requires
        is_sound(db),
        !db.sessions.contains_key(id),
    ensures
        records(db, existing, sid) ==> bound(db, id, user_id, sid, b, verified_at, expires_at) == (
            db,
            None::<SessionView>,
        ),
        is_sound(bound(db, id, user_id, sid, b, verified_at, expires_at).0),
{
    let after = bound(db, id, user_id, sid, b, verified_at, expires_at).0;
    if !(exists|other: int| records(db, other, sid)) {
        lemma_bound_row(user_id, sid, b, verified_at, expires_at);
        assert forall|x: int, y: int, s: int| #[trigger]
            records(after, x, s) && #[trigger] records(after, y, s) implies x == y by {
            if x != id {
                assert(records(db, x, s));
            }
            if y != id {
                assert(records(db, y, s));
            }
        }
    }
}

/// A verified session is revoked by its own subject and by no other: the one call changes its
/// status and nothing else and says so, after it no lookup finds the session at any time, and a
/// second call finds nothing to revoke. A call of another subject changes nothing.
pub proof fn law_revocation_is_the_subjects_own_and_final(
    db: Tables,
    id: int,
    subject: int,
    other_subject: int,
    sid: int,
    now: int,
)
    requires
        is_sound(db),
        revokes(db, id, subject, sid),
        other_subject != subject,
    ensures
        revoked(db, other_subject, sid) == (db, false),
        ({
            let (after, done) = revoked(db, subject, sid);
            &&& done
            &&& after.users == db.users
            &&& after.sessions == db.sessions.insert(
                id,
                db.sessions[id].insert("status"@, CellView::Text(queries::REVOKED@)),
            )
            &&& looked_up(after, subject, sid, now) is None
            &&& looked_up(after, other_subject, sid, now) is None
            &&& revoked(after, subject, sid) == (after, false)
        }),
{
    lemma_columns();
    let (after, done) = revoked(db, subject, sid);
    assert(records(db, id, sid));
    assert forall|x: int, s: int| #[trigger] revokes(db, x, s, sid) implies x == id && s
        == subject by {
        assert(records(db, x, sid));
    }
    assert(revoked(db, other_subject, sid).0.sessions =~= db.sessions);
    let row = db.sessions[id];
    let new_row = row.insert("status"@, CellView::Text(queries::REVOKED@));
    assert(after.sessions =~= db.sessions.insert(id, new_row));
    assert(queries::column_of(new_row, "user_id"@) == queries::column_of(row, "user_id"@));
    assert forall|x: int, s: int| !(#[trigger] revokes(after, x, s, sid)) by {
        if revokes(after, x, s, sid) {
            if x != id {
                assert(after.sessions[x] == db.sessions[x]);
                assert(records(db, x, sid));
            } else {
                assert(queries::says(after.sessions[x], "status"@, queries::REVOKED@));
            }
        }
    }
    assert forall|x: int, s: int| !(#[trigger] finds(after, x, s, sid, now)) by {
        if finds(after, x, s, sid, now) {
            assert(revokes(after, x, s, sid));
        }
    }
    assert(revoked(after, subject, sid).0.sessions =~= after.sessions);
}

/// A label is recorded without the white space around it, exactly where what is left has at least
/// one character, no more than the given number, and no control character among them.
pub proof fn law_labels_are_recorded_trimmed(value: Seq<char>, maximum: int, field: Seq<char>)
    ensures
        ({
            let s = text::trimmed(value);
            let fine = 1 <= s.len() <= maximum && forall|i: int|
                0 <= i < s.len() ==> !text::is_control_char(#[trigger] s[i]);
            &&& fine ==> session_assurance::label(value, maximum, field) == Ok::<
                Seq<char>,
                Seq<char>,
            >(s)
            &&& !fine ==> session_assurance::label(value, maximum, field) == Err::<
                Seq<char>,
                Seq<char>,
            >("invalid "@ + field)
        }),
{
}

/// A session is recorded exactly where it expires after its second factor was shown, its device
/// has a label of at most 200 characters, and its place, unless it has none or a blank one, has
/// such a label too. What is recorded are those labels; otherwise the first fault is told.
pub proof fn law_bindings_hold_what_was_given(
    device: Seq<char>,
    location: Option<Seq<char>>,
    verified_at: int,
    expires_at: int,
)
    ensures
        ({
            let r = session_assurance::binding(device, location, verified_at, expires_at);
            let name = session_assurance::label(device, 200, "session device"@);
            let placed = location matches Some(place) && text::trimmed(place).len() > 0;
            let place = session_assurance::label(location->0, 200, "session location"@);
            &&& r is Ok <==> verified_at < expires_at && name is Ok && (placed ==> place is Ok)
            &&& r matches Ok(b) ==> {
                &&& b.device == text::trimmed(device)
                &&& placed ==> b.location == Some(text::trimmed(location->0))
                &&& !placed ==> b.location is None
            }
            &&& verified_at >= expires_at ==> r == Err::<BindingView, Seq<char>>(
                "customer Shared Auth session expiry must follow MFA verification"@,
            )
            &&& verified_at < expires_at && name is Err ==> r == Err::<BindingView, Seq<char>>(
                "invalid "@ + "session device"@,
            )
            &&& verified_at < expires_at && name is Ok && placed && place is Err ==> r == Err::<
                BindingView,
                Seq<char>,
            >("invalid "@ + "session location"@)
        }),
{
    if let Some(place) = location {
        text::lemma_trimmed_ends(place);
        text::lemma_trimmed_ends(text::trimmed(place));
    }
}

/// What is recorded of a session: whose it is, which one, from where, for how long, and that its
/// user has shown a second factor to this service.
pub proof fn law_bound_rows_tell_the_binding(
    user_id: int,
    sid: int,
    b: BindingView,
    verified_at: int,
    expires_at: int,
)
    ensures
        ({
            let row = session_assurance::bound_row(user_id, sid, b, verified_at, expires_at);
            &&& queries::column_of(row, "user_id"@) == CellView::Id(user_id)
            &&& queries::column_of(row, "device"@) == CellView::Text(b.device)
            &&& b.location matches Some(place) ==> queries::column_of(row, "location"@)
                == CellView::Text(place)
            &&& b.location is None ==> queries::column_of(row, "location"@) == CellView::Null
            &&& queries::column_of(row, "status"@) == CellView::Text("verified"@)
            &&& queries::column_of(row, "shared_auth_session_id"@) == CellView::Id(sid)
            &&& queries::column_of(row, "provider_project"@) == CellView::Text("fiducia-customer"@)
            &&& queries::column_of(row, "assurance_level"@) == CellView::Text("aal2"@)
            &&& queries::column_of(row, "assurance_verified_at"@) == CellView::Time(verified_at)
            &&& queries::column_of(row, "expires_at"@) == CellView::Time(expires_at)
            &&& row.dom() == set![
                "user_id"@,
                "device"@,
                "location"@,
                "status"@,
                "shared_auth_session_id"@,
                "provider_project"@,
                "assurance_level"@,
                "assurance_verified_at"@,
                "expires_at"@,
            ]
        }),
{
    lemma_columns();
    let row = session_assurance::bound_row(user_id, sid, b, verified_at, expires_at);
    assert(row.dom() =~= set![
        "user_id"@,
        "device"@,
        "location"@,
        "status"@,
        "shared_auth_session_id"@,
        "provider_project"@,
        "assurance_level"@,
        "assurance_verified_at"@,
        "expires_at"@,
    ]);
}

/// A session may be used by a subject now exactly where it is that subject's, it is the session
/// asked for, this service recorded it with a second factor, it was not revoked, and now is not
/// before the second factor was shown and is before it expires. The first five of these decide
/// whether it can be revoked.
pub proof fn law_usable_sessions(session: Row, user: Row, subject: int, sid: int, now: int)
    ensures
        ({
            let own = {
                &&& queries::column_of(user, "supabase_user_id"@) == CellView::Id(subject)
                &&& queries::column_of(session, "shared_auth_session_id"@) == CellView::Id(sid)
                &&& queries::column_of(session, "provider_project"@) == CellView::Text(
                    "fiducia-customer"@,
                )
                &&& queries::column_of(session, "assurance_level"@) == CellView::Text("aal2"@)
                &&& queries::column_of(session, "status"@) == CellView::Text("verified"@)
            };
            let begun = match queries::column_of(session, "assurance_verified_at"@) {
                CellView::Time(t) => t <= now,
                _ => false,
            };
            let lasting = match queries::column_of(session, "expires_at"@) {
                CellView::Time(t) => now < t,
                _ => false,
            };
            &&& session_assurance::is_verified_for(session, user, subject, sid) <==> own
            &&& session_assurance::usable(session, user, subject, sid, now) <==> own && begun
                && lasting
        }),
{
}

/// Conditions are written with the name of their table, their column and what they ask; values
/// stand in them by their number, and texts between quotes.
pub proof fn law_conditions_are_written_out(
    source: Source,
    column: Seq<char>,
    n: int,
    s: Seq<char>,
)
    requires
        1 <= n <= 9,
    ensures
        ({
            let table = if source == Source::Session {
                "session."@
            } else {
                "local_user."@
            };
            let written = |test: ColumnTestView|
                statements::condition_text(ColumnConditionView { source, column, test });
            let value = statements::operand_text(OperandView::Value(n));
            &&& written(ColumnTestView::Equals(OperandView::Value(n))) == table + column + " = "@
                + value
            &&& written(ColumnTestView::Equals(OperandView::Literal(s))) == table + column + " = '"@
                + s + "'"@
            &&& written(ColumnTestView::NotNull) == table + column + " is not null"@
            &&& written(ColumnTestView::AtMost(OperandView::Value(n))) == table + column + " <= "@
                + value
            &&& written(ColumnTestView::After(OperandView::Value(n))) == table + column + " > "@
                + value
            &&& value.len() == 2
            &&& value[0] == '$'
            &&& value[1] as u32 == '0' as u32 + n
        }),
{
    reveal_strlit("session");
    reveal_strlit("session.");
    reveal_strlit("local_user");
    reveal_strlit("local_user.");
    reveal_strlit(".");
    reveal_strlit(" = ");
    reveal_strlit(" = '");
    reveal_strlit("'");
    let table = if source == Source::Session {
        "session."@
    } else {
        "local_user."@
    };
    let value = statements::operand_text(OperandView::Value(n));
    assert(statements::source_name(source) + "."@ =~= table);
    assert(table + column + (" = "@ + value) =~= table + column + " = "@ + value);
    assert(table + column + (" = "@ + ("'"@ + s + "'"@)) =~= table + column + " = '"@ + s + "'"@);
    assert(table + column + (" <= "@ + value) =~= table + column + " <= "@ + value);
    assert(table + column + (" > "@ + value) =~= table + column + " > "@ + value);
}

/// What stands around the conditions and the columns in the three statements: which tables they
/// are on, how a session is joined with its user, and what they give back.
pub proof fn law_statements_keep_their_tables_and_joins()
    ensures
        session_assurance::CUSTOMER_PROVIDER_PROJECT@ == "fiducia-customer"@,
        session_assurance::BIND_HEAD@ == "\n            insert into customer_sessions (\n              "@,
        session_assurance::BIND_COMMA@ == ",\n              "@,
        session_assurance::BIND_VALUES@ == "\n            ) values ("@,
        session_assurance::BIND_TAIL@ == ")\n            returning\n              id,\n              user_id,\n              shared_auth_session_id,\n              assurance_verified_at,\n              expires_at\n            "@,
        session_assurance::FIND_HEAD@ == "\n        select\n          session.id,\n          session.user_id,\n          session.shared_auth_session_id,\n          session.assurance_verified_at,\n          session.expires_at\n        from customer_sessions as session\n        join users as local_user on local_user.id = session.user_id\n        where "@,
        session_assurance::FIND_AND@ == "\n          and "@,
        session_assurance::FIND_TAIL@ == "\n        limit 1\n        "@,
        session_assurance::REVOKE_HEAD@ == "\n            update customer_sessions as session\n               set "@,
        session_assurance::REVOKE_WHERE@ == "\n              from users as local_user\n             where local_user.id = session.user_id\n               and "@,
        session_assurance::REVOKE_AND@ == "\n               and "@,
        session_assurance::REVOKE_TAIL@ == "\n            returning session.id\n            "@,
{
}

/// Conditions are written one after the other with the given words between them, and so are the
/// columns and what is put into them.
pub proof fn law_parts_of_statements_are_written_in_order(
    asks: Seq<ColumnConditionView>,
    c: ColumnConditionView,
    puts: Seq<AssignmentView>,
    a: AssignmentView,
    sep: Seq<char>,
)
    ensures
        statements::where_text(seq![c], sep) == statements::condition_text(c),
        asks.len() > 0 ==> statements::where_text(asks.push(c), sep) == statements::where_text(
            asks,
            sep,
        ) + sep + statements::condition_text(c),
        statements::columns_text(seq![a], sep) == a.column,
        puts.len() > 0 ==> statements::columns_text(puts.push(a), sep) == statements::columns_text(
            puts,
            sep,
        ) + sep + a.column,
        statements::operands_text(seq![a], sep) == statements::operand_text(a.operand),
        puts.len() > 0 ==> statements::operands_text(puts.push(a), sep)
            == statements::operands_text(puts, sep) + sep + statements::operand_text(a.operand),
        statements::set_text(seq![a], sep) == a.column + " = "@ + statements::operand_text(
            a.operand,
        ),
        puts.len() > 0 ==> statements::set_text(puts.push(a), sep) == statements::set_text(
            puts,
            sep,
        ) + sep + (a.column + " = "@ + statements::operand_text(a.operand)),
{
    let f = |c: ColumnConditionView| statements::condition_text(c);
    let g = |a: AssignmentView| a.column;
    let h = |a: AssignmentView| statements::operand_text(a.operand);
    let k = |a: AssignmentView| a.column + " = "@ + statements::operand_text(a.operand);
    assert(asks.push(c).map_values(f) =~= asks.map_values(f).push(f(c)));
    assert(asks.map_values(f).push(f(c)).drop_last() =~= asks.map_values(f));
    assert(puts.push(a).map_values(g) =~= puts.map_values(g).push(g(a)));
    assert(puts.map_values(g).push(g(a)).drop_last() =~= puts.map_values(g));
    assert(puts.push(a).map_values(h) =~= puts.map_values(h).push(h(a)));
    assert(puts.map_values(h).push(h(a)).drop_last() =~= puts.map_values(h));
    assert(puts.push(a).map_values(k) =~= puts.map_values(k).push(k(a)));
    assert(puts.map_values(k).push(k(a)).drop_last() =~= puts.map_values(k));
}

/// The number of a value in a statement is its place among the values that the statement is run
/// with, from one on, and a text stands for itself; a column then holds what the value is.
pub proof fn law_operands_stand_for_their_values(
    values: Seq<SqlValueView>,
    n: int,
    s: Seq<char>,
    row: Row,
    a: AssignmentView,
)
    requires
        1 <= n <= values.len(),
    ensures
        ({
            let cell = statements::operand_cell(OperandView::Value(n), values);
            match values[n - 1] {
                SqlValueView::Id(id) => cell == CellView::Id(id),
                SqlValueView::Text(Some(s)) => cell == CellView::Text(s),
                SqlValueView::Text(None) => cell == CellView::Null,
                SqlValueView::Time(t) => cell == CellView::Time(
                    t.spec_secs() * 2_000_000_000 + t.spec_nanos(),
                ),
            }
        }),
        statements::operand_cell(OperandView::Literal(s), values) == CellView::Text(s),
        statements::assigned(row, seq![a], values, 1) == row.insert(
            a.column,
            statements::operand_cell(a.operand, values),
        ),
{
    reveal_with_fuel(statements::assigned, 2);
}

/// A statement asks for a session exactly where each of its conditions holds, of the session or of
/// its user as the condition says.
pub proof fn law_statements_ask_for_what_meets_every_condition(
    asks: Seq<ColumnConditionView>,
    values: Seq<SqlValueView>,
    session: Row,
    user: Row,
    count: nat,
)
    requires
        count <= asks.len(),
    ensures
        statements::all_hold(asks, values, session, user, count) <==> forall|i: int|
            0 <= i < count ==> queries::holds(
                statements::resolved((#[trigger] asks[i]).test, values),
                queries::column_of(
                    if asks[i].source == Source::Session {
                        session
                    } else {
                        user
                    },
                    asks[i].column,
                ),
            ),
    decreases count,
{
    if count > 0 {
        law_statements_ask_for_what_meets_every_condition(
            asks,
            values,
            session,
            user,
            (count - 1) as nat,
        );
    }
}

/// What a test compares with is what its operand stands for.
pub proof fn law_tests_compare_with_their_operands(
    operand: OperandView,
    values: Seq<SqlValueView>,
)
    ensures
        ({
            let cell = statements::operand_cell(operand, values);
            &&& statements::resolved(ColumnTestView::Equals(operand), values) == TestView::Equals(
                cell,
            )
            &&& statements::resolved(ColumnTestView::AtMost(operand), values) == TestView::AtMost(
                cell,
            )
            &&& statements::resolved(ColumnTestView::After(operand), values) == TestView::After(
                cell,
            )
            &&& statements::resolved(ColumnTestView::NotNull, values) == TestView::NotNull
        }),
{
}

} // verus!
