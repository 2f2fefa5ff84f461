//! The binding of browser sessions to a second factor.
//!
//! A session of the shared identity service is accepted in a browser only after its user has
//! shown a second factor here. That is recorded with the local user, for a bounded time, and
//! looked up with every request. This module decides what may be recorded, and gives the
//! statements by which it is recorded, looked up and revoked.

use vstd::prelude::*;
use vstd::string::*;

use crate::queries;
use crate::queries::{CellView, Row};
use crate::statements;
use crate::statements::{
    Assignment, AssignmentView, ColumnCondition, ColumnConditionView, ColumnTest, ColumnTestView,
    Operand, OperandView, Source, SqlStatement, SqlValue, SqlValueView,
};
use crate::text;
use crate::times::Timestamp;

verus! {

/// The name of this service at the identity provider.
pub const CUSTOMER_PROVIDER_PROJECT: &'static str = "fiducia-customer";

/// The longest name of a device.
pub const MAX_DEVICE_CHARS: usize = 200;

/// The longest name of a place.
pub const MAX_LOCATION_CHARS: usize = 200;

/// A session whose user has shown a second factor.
#[derive(Clone, Copy, Debug, PartialEq, Eq)]
pub struct VerifiedCustomerSession {
    pub id: u128,
    pub user_id: u128,
    pub shared_auth_session_id: u128,
    pub assurance_verified_at: Timestamp,
    pub expires_at: Timestamp,
}

/// The device and the place of a session, as they are recorded.
#[derive(Debug)]
pub struct NormalizedBinding {
    pub device: String,
    pub location: Option<String>,
}

/// The device and the place of a session, as a mathematical value.
pub struct BindingView {
    pub device: Seq<char>,
    pub location: Option<Seq<char>>,
}

impl View for NormalizedBinding {
    type V = BindingView;

    open spec fn view(&self) -> BindingView {
        BindingView { device: self.device@, location: text::opt_view(self.location) }
    }
}

/// A label that may be recorded: not blank, not longer than `maximum`, and without control
/// characters.
pub open spec fn label(value: Seq<char>, maximum: int, field: Seq<char>) -> Result<
    Seq<char>,
    Seq<char>,
> {
    let s = text::trimmed(value);
    if s.len() == 0 || s.len() > maximum || text::has_control(s) {
        Err("invalid "@ + field)
    } else {
        Ok(s)
    }
}

/// A text or a message, as a mathematical value.
pub open spec fn label_view(r: Result<String, String>) -> Result<Seq<char>, Seq<char>> {
    match r {
        Ok(s) => Ok(s@),
        Err(message) => Err(message@),
    }
}

/// A label as it is recorded.
pub fn bounded_label(value: &str, maximum: usize, field: &str) -> (r: Result<String, String>)
    ensures
        label_view(r) == label(value@, maximum as int, field@),
{
    let value = text::trim(value);
    if value.is_empty() || value.unicode_len() > maximum || text::contains_control(value) {
        return Err(text::cat("invalid ", field));
    }
    Ok(value.to_owned())
}

/// What is recorded of a session, given how far apart the second factor and the expiry are. A
/// blank place counts as none.
pub open spec fn binding(
    device: Seq<char>,
    location: Option<Seq<char>>,
    verified_at: int,
    expires_at: int,
) -> Result<BindingView, Seq<char>> {
    if expires_at <= verified_at {
        Err("customer Shared Auth session expiry must follow MFA verification"@)
    } else {
        match label(device, MAX_DEVICE_CHARS as int, "session device"@) {
            Err(message) => Err(message),
            Ok(device) => match location {
                Some(place) => if text::trimmed(place).len() == 0 {
                    Ok(BindingView { device, location: None })
                } else {
                    match label(text::trimmed(place), MAX_LOCATION_CHARS as int, "session location"@) {
                        Ok(place) => Ok(BindingView { device, location: Some(place) }),
                        Err(message) => Err(message),
                    }
                },
                None => Ok(BindingView { device, location: None }),
            },
        }
    }
}

/// A binding or a message, as a mathematical value.
pub open spec fn binding_view(r: Result<NormalizedBinding, String>) -> Result<
    BindingView,
    Seq<char>,
> {
    match r {
        Ok(b) => Ok(b@),
        Err(message) => Err(message@),
    }
}

/// What is recorded of a session.
pub fn normalize_binding(
    device: &str,
    location: Option<&str>,
    assurance_verified_at: &Timestamp,
    expires_at: &Timestamp,
) -> (r: Result<NormalizedBinding, String>)
    ensures
        binding_view(r) == binding(
            device@,
            text::opt_str_view(location),
            assurance_verified_at.moment(),
            expires_at.moment(),
        ),
{
    if expires_at.at_or_before(assurance_verified_at) {
        return Err(
            "customer Shared Auth session expiry must follow MFA verification".to_owned(),
        );
    }
    let device = match bounded_label(device, MAX_DEVICE_CHARS, "session device") {
        Ok(device) => device,
        Err(message) => return Err(message),
    };
    let location = match location {
        Some(place) => {
            let place = text::trim(place);
            if place.is_empty() {
                None
            } else {
                match bounded_label(place, MAX_LOCATION_CHARS, "session location") {
                    Ok(place) => Some(place),
                    Err(message) => return Err(message),
                }
            }
        },
        None => None,
    };
    Ok(NormalizedBinding { device, location })
}

/// What stands in front of the columns of a recorded session.
pub const BIND_HEAD: &'static str = "\n            insert into customer_sessions (\n              ";

/// What stands between those columns.
pub const BIND_COMMA: &'static str = ",\n              ";

/// What stands between the columns and what is put into them.
pub const BIND_VALUES: &'static str = "\n            ) values (";

/// What stands behind a recorded session: what the statement gives back of it.
pub const BIND_TAIL: &'static str =
    ")\n            returning\n              id,\n              user_id,\n              shared_auth_session_id,\n              assurance_verified_at,\n              expires_at\n            ";

/// What stands in front of the conditions of a lookup: what it gives back, and how a session
/// and its user are joined.
pub const FIND_HEAD: &'static str =
    "\n        select\n          session.id,\n          session.user_id,\n          session.shared_auth_session_id,\n          session.assurance_verified_at,\n          session.expires_at\n        from customer_sessions as session\n        join users as local_user on local_user.id = session.user_id\n        where ";

/// What stands between the conditions of a lookup.
pub const FIND_AND: &'static str = "\n          and ";

/// What stands behind the conditions of a lookup.
pub const FIND_TAIL: &'static str = "\n        limit 1\n        ";

/// What stands in front of what a revocation puts into a session.
pub const REVOKE_HEAD: &'static str =
    "\n            update customer_sessions as session\n               set ";

/// What stands between that and the conditions of a revocation: how a session and its user are
/// joined.
pub const REVOKE_WHERE: &'static str =
    "\n              from users as local_user\n             where local_user.id = session.user_id\n               and ";

/// What stands between the conditions of a revocation.
pub const REVOKE_AND: &'static str = "\n               and ";

/// What stands behind the conditions of a revocation: what it gives back.
pub const REVOKE_TAIL: &'static str = "\n            returning session.id\n            ";

/// A session that was recorded.
pub open spec fn bound_row(
    user_id: int,
    shared_auth_session_id: int,
    b: BindingView,
    verified_at: int,
    expires_at: int,
) -> Row {
    map![
        "user_id"@ => CellView::Id(user_id),
        "device"@ => CellView::Text(b.device),
        "location"@ => match b.location {
            Some(place) => CellView::Text(place),
            None => CellView::Null,
        },
        "status"@ => CellView::Text("verified"@),
        "shared_auth_session_id"@ => CellView::Id(shared_auth_session_id),
        "provider_project"@ => CellView::Text(CUSTOMER_PROVIDER_PROJECT@),
        "assurance_level"@ => CellView::Text("aal2"@),
        "assurance_verified_at"@ => CellView::Time(verified_at),
        "expires_at"@ => CellView::Time(expires_at),
    ]
}

/// What recording a session puts into the columns of its row.
pub open spec fn bind_puts() -> Seq<AssignmentView> {
    seq![
        AssignmentView { column: "user_id"@, operand: OperandView::Value(1) },
        AssignmentView { column: "device"@, operand: OperandView::Value(2) },
        AssignmentView { column: "location"@, operand: OperandView::Value(3) },
        AssignmentView { column: "status"@, operand: OperandView::Literal("verified"@) },
        AssignmentView { column: "shared_auth_session_id"@, operand: OperandView::Value(4) },
        AssignmentView { column: "provider_project"@, operand: OperandView::Value(5) },
        AssignmentView { column: "assurance_level"@, operand: OperandView::Literal("aal2"@) },
        AssignmentView { column: "assurance_verified_at"@, operand: OperandView::Value(6) },
        AssignmentView { column: "expires_at"@, operand: OperandView::Value(7) },
    ]
}

/// The statement that records a session of a local user, where it may be recorded. The database
/// itself sees to it that no session is recorded twice.
pub fn bind_verified_session(
    user_id: u128,
    shared_auth_session_id: u128,
    device: &str,
    location: Option<&str>,
    assurance_verified_at: Timestamp,
    expires_at: Timestamp,
) -> (r: Result<SqlStatement, String>)
    ensures
        match (
            r,
            binding(
                device@,
                text::opt_str_view(location),
                assurance_verified_at.moment(),
                expires_at.moment(),
            ),
        ) {
            (Ok(statement), Ok(b)) => {
                &&& statement.sql@ == BIND_HEAD@ + statements::columns_text(bind_puts(), BIND_COMMA@)
                    + BIND_VALUES@ + statements::operands_text(bind_puts(), ", "@) + BIND_TAIL@
                &&& statement.arguments() == seq![
                    SqlValueView::Id(user_id as int),
                    SqlValueView::Text(Some(b.device)),
                    SqlValueView::Text(b.location),
                    SqlValueView::Id(shared_auth_session_id as int),
                    SqlValueView::Text(Some(CUSTOMER_PROVIDER_PROJECT@)),
                    SqlValueView::Time(assurance_verified_at),
                    SqlValueView::Time(expires_at),
                ]
                &&& statement.asks() == Seq::<ColumnConditionView>::empty()
                &&& statement.puts() == bind_puts()
                &&& statement.writes(Map::empty()) == bound_row(
                    user_id as int,
                    shared_auth_session_id as int,
                    b,
                    assurance_verified_at.moment(),
                    expires_at.moment(),
                )
            },
            (Err(message), Err(expected)) => message@ == expected,
            _ => false,
        },
{
    let bound = match normalize_binding(device, location, &assurance_verified_at, &expires_at) {
        Ok(bound) => bound,
        Err(message) => return Err(message),
    };
    let ghost b = bound@;
    let mut values: Vec<SqlValue> = Vec::new();
    values.push(SqlValue::Id(user_id));
    values.push(SqlValue::Text(Some(bound.device)));
    values.push(SqlValue::Text(bound.location));
    values.push(SqlValue::Id(shared_auth_session_id));
    values.push(SqlValue::Text(Some(CUSTOMER_PROVIDER_PROJECT.to_owned())));
    values.push(SqlValue::Time(assurance_verified_at));
    values.push(SqlValue::Time(expires_at));
    let mut assignments: Vec<Assignment> = Vec::new();
    assignments.push(statements::put("user_id", Operand::Value(1)));
    assignments.push(statements::put("device", Operand::Value(2)));
    assignments.push(statements::put("location", Operand::Value(3)));
    assignments.push(statements::put("status", Operand::Literal("verified")));
    assignments.push(statements::put("shared_auth_session_id", Operand::Value(4)));
    assignments.push(statements::put("provider_project", Operand::Value(5)));
    assignments.push(statements::put("assurance_level", Operand::Literal("aal2")));
    assignments.push(statements::put("assurance_verified_at", Operand::Value(6)));
    assignments.push(statements::put("expires_at", Operand::Value(7)));
    let (columns, operands) = statements::write_assignments(&assignments);
    let mut sql = text::cat(BIND_HEAD, text::join(&columns, BIND_COMMA).as_str());
    sql.append(BIND_VALUES);
    sql.append(text::join(&operands, ", ").as_str());
    sql.append(BIND_TAIL);
    let conditions: Vec<ColumnCondition> = Vec::new();
    let statement = SqlStatement { sql, values, conditions, assignments };
    proof {
        assert(statement.puts() =~= bind_puts());
        assert(statement.asks() =~= Seq::empty());
        assert(statement.arguments() =~= seq![
            SqlValueView::Id(user_id as int),
            SqlValueView::Text(Some(b.device)),
            SqlValueView::Text(b.location),
            SqlValueView::Id(shared_auth_session_id as int),
            SqlValueView::Text(Some(CUSTOMER_PROVIDER_PROJECT@)),
            SqlValueView::Time(assurance_verified_at),
            SqlValueView::Time(expires_at),
        ]);
        reveal_with_fuel(statements::assigned, 10);
    }
    Ok(statement)
}

/// What follows from the row that recording a session gave back.
pub fn bound_session(row: Option<VerifiedCustomerSession>) -> (r: Result<
    VerifiedCustomerSession,
    String,
>)
    ensures
        match r {
            Ok(session) => row == Some(session),
            Err(message) => row is None && message@
                == "customer Shared Auth session insert returned no row"@,
        },
{
    match row {
        Some(session) => Ok(session),
        None => Err("customer Shared Auth session insert returned no row".to_owned()),
    }
}

/// Whether a session may be used now by the user with the given subject: it is a session of this
/// service, its user has shown a second factor, and it has neither expired nor been revoked.
pub open spec fn usable(
    session: Row,
    user: Row,
    supabase_user_id: int,
    shared_auth_session_id: int,
    now: int,
) -> bool {
    &&& is_verified_for(session, user, supabase_user_id, shared_auth_session_id)
    &&& queries::column_of(session, "assurance_verified_at"@) matches CellView::Time(t) && t <= now
    &&& queries::column_of(session, "expires_at"@) matches CellView::Time(t) && t > now
}

/// Whether a session is one of this service with a second factor, not revoked, of the user with
/// the given subject.
pub open spec fn is_verified_for(
    session: Row,
    user: Row,
    supabase_user_id: int,
    shared_auth_session_id: int,
) -> bool {
    &&& queries::column_of(user, "supabase_user_id"@) == CellView::Id(supabase_user_id)
    &&& queries::column_of(session, "shared_auth_session_id"@) == CellView::Id(
        shared_auth_session_id,
    )
    &&& queries::says(session, "provider_project"@, CUSTOMER_PROVIDER_PROJECT@)
    &&& queries::says(session, "assurance_level"@, "aal2"@)
    &&& queries::says(session, "status"@, "verified"@)
}

/// The conditions of a revocation.
pub open spec fn revoke_asks() -> Seq<ColumnConditionView> {
    seq![
        ColumnConditionView {
            source: Source::LocalUser,
            column: "supabase_user_id"@,
            test: ColumnTestView::Equals(OperandView::Value(1)),
        },
        ColumnConditionView {
            source: Source::Session,
            column: "shared_auth_session_id"@,
            test: ColumnTestView::Equals(OperandView::Value(2)),
        },
        ColumnConditionView {
            source: Source::Session,
            column: "provider_project"@,
            test: ColumnTestView::Equals(OperandView::Value(3)),
        },
        ColumnConditionView {
            source: Source::Session,
            column: "assurance_level"@,
            test: ColumnTestView::Equals(OperandView::Literal("aal2"@)),
        },
        ColumnConditionView {
            source: Source::Session,
            column: "status"@,
            test: ColumnTestView::Equals(OperandView::Literal("verified"@)),
        },
    ]
}

/// The conditions of a lookup: those of a revocation, and that the session is valid now.
pub open spec fn find_asks() -> Seq<ColumnConditionView> {
    revoke_asks() + seq![
        ColumnConditionView {
            source: Source::Session,
            column: "assurance_verified_at"@,
            test: ColumnTestView::NotNull,
        },
        ColumnConditionView {
            source: Source::Session,
            column: "assurance_verified_at"@,
            test: ColumnTestView::AtMost(OperandView::Value(4)),
        },
        ColumnConditionView {
            source: Source::Session,
            column: "expires_at"@,
            test: ColumnTestView::NotNull,
        },
        ColumnConditionView {
            source: Source::Session,
            column: "expires_at"@,
            test: ColumnTestView::After(OperandView::Value(4)),
        },
    ]
}

/// What a revocation puts into a session.
pub open spec fn revoke_puts() -> Seq<AssignmentView> {
    seq![
        AssignmentView { column: "status"@, operand: OperandView::Literal(queries::REVOKED@) },
    ]
}

/// The conditions of a revocation.
fn verified_conditions() -> (r: Vec<ColumnCondition>)
    ensures
        r@.map_values(|c: ColumnCondition| c@) == revoke_asks(),
{
    let mut r: Vec<ColumnCondition> = Vec::new();
    r.push(
        statements::ask(Source::LocalUser, "supabase_user_id", ColumnTest::Equals(Operand::Value(1))),
    );
    r.push(
        statements::ask(Source::Session, "shared_auth_session_id", ColumnTest::Equals(Operand::Value(2))),
    );
    r.push(statements::ask(Source::Session, "provider_project", ColumnTest::Equals(Operand::Value(3))));
    r.push(
        statements::ask(Source::Session, "assurance_level", ColumnTest::Equals(Operand::Literal("aal2"))),
    );
    r.push(statements::ask(Source::Session, "status", ColumnTest::Equals(Operand::Literal("verified"))));
    assert(r@.map_values(|c: ColumnCondition| c@) =~= revoke_asks());
    r
}

/// The statement that looks up a session of the user with the given subject. One of another
/// user or service, without a second factor, expired, not yet valid or revoked is not found.
pub fn verified_session_for_provider(
    supabase_user_id: u128,
    shared_auth_session_id: u128,
    now: Timestamp,
) -> (r: SqlStatement)
    ensures
        r.sql@ == FIND_HEAD@ + statements::where_text(find_asks(), FIND_AND@) + FIND_TAIL@,
        r.arguments() == seq![
            SqlValueView::Id(supabase_user_id as int),
            SqlValueView::Id(shared_auth_session_id as int),
            SqlValueView::Text(Some(CUSTOMER_PROVIDER_PROJECT@)),
            SqlValueView::Time(now),
        ],
        r.asks() == find_asks(),
        r.puts() == Seq::<AssignmentView>::empty(),
        forall|session: Row, user: Row| #[trigger]
            r.selects(session, user) <==> usable(
                session,
                user,
                supabase_user_id as int,
                shared_auth_session_id as int,
                now.moment(),
            ),
{
    let mut values: Vec<SqlValue> = Vec::new();
    values.push(SqlValue::Id(supabase_user_id));
    values.push(SqlValue::Id(shared_auth_session_id));
    values.push(SqlValue::Text(Some(CUSTOMER_PROVIDER_PROJECT.to_owned())));
    values.push(SqlValue::Time(now));
    let mut conditions = verified_conditions();
    let ghost first = conditions@;
    conditions.push(statements::ask(Source::Session, "assurance_verified_at", ColumnTest::NotNull));
    conditions.push(
        statements::ask(Source::Session, "assurance_verified_at", ColumnTest::AtMost(Operand::Value(4))),
    );
    conditions.push(statements::ask(Source::Session, "expires_at", ColumnTest::NotNull));
    conditions.push(statements::ask(Source::Session, "expires_at", ColumnTest::After(Operand::Value(4))));
    let ghost asks = conditions@.map_values(|c: ColumnCondition| c@);
    proof {
        assert(first.map_values(|c: ColumnCondition| c@).len() == first.len());
        assert(asks =~= first.map_values(|c: ColumnCondition| c@) + seq![
            conditions@[5]@,
            conditions@[6]@,
            conditions@[7]@,
            conditions@[8]@,
        ]);
        assert(asks =~= find_asks());
        assert forall|i: int| 0 <= i < conditions@.len() implies statements::is_small_test(
            (#[trigger] conditions@[i]).test@,
        ) by {
            assert(asks[i] == conditions@[i]@);
            assert(conditions@[i].test@ == find_asks()[i].test);
        }
    }
    let mut sql = text::cat(FIND_HEAD, statements::write_conditions(&conditions, FIND_AND).as_str());
    sql.append(FIND_TAIL);
    let assignments: Vec<Assignment> = Vec::new();
    let r = SqlStatement { sql, values, conditions, assignments };
    proof {
        assert(r.puts() =~= Seq::empty());
        assert(r.arguments() =~= seq![
            SqlValueView::Id(supabase_user_id as int),
            SqlValueView::Id(shared_auth_session_id as int),
            SqlValueView::Text(Some(CUSTOMER_PROVIDER_PROJECT@)),
            SqlValueView::Time(now),
        ]);
        reveal_with_fuel(statements::all_hold, 10);
    }
    r
}

/// The statement that revokes a session of the user with the given subject. It gives back a
/// row where there was such a session to revoke.
pub fn revoke_verified_session_for_provider(
    supabase_user_id: u128,
    shared_auth_session_id: u128,
) -> (r: SqlStatement)
    ensures
        r.sql@ == REVOKE_HEAD@ + statements::set_text(revoke_puts(), ", "@) + REVOKE_WHERE@ + statements::where_text(
            revoke_asks(),
            REVOKE_AND@,
        ) + REVOKE_TAIL@,
        r.arguments() == seq![
            SqlValueView::Id(supabase_user_id as int),
            SqlValueView::Id(shared_auth_session_id as int),
            SqlValueView::Text(Some(CUSTOMER_PROVIDER_PROJECT@)),
        ],
        r.asks() == revoke_asks(),
        r.puts() == revoke_puts(),
        forall|session: Row, user: Row| #[trigger]
            r.selects(session, user) <==> is_verified_for(
                session,
                user,
                supabase_user_id as int,
                shared_auth_session_id as int,
            ),
        forall|session: Row| #[trigger]
            r.writes(session) == session.insert("status"@, CellView::Text(queries::REVOKED@)),
{
    let mut values: Vec<SqlValue> = Vec::new();
    values.push(SqlValue::Id(supabase_user_id));
    values.push(SqlValue::Id(shared_auth_session_id));
    values.push(SqlValue::Text(Some(CUSTOMER_PROVIDER_PROJECT.to_owned())));
    let conditions = verified_conditions();
    let ghost asks = conditions@.map_values(|c: ColumnCondition| c@);
    proof {
        assert(asks.len() == conditions@.len());
        assert forall|i: int| 0 <= i < conditions@.len() implies statements::is_small_test(
            (#[trigger] conditions@[i]).test@,
        ) by {
            assert(asks[i] == conditions@[i]@);
            assert(conditions@[i].test@ == revoke_asks()[i].test);
        }
    }
    let mut assignments: Vec<Assignment> = Vec::new();
    assignments.push(statements::put("status", Operand::Literal(queries::REVOKED)));
    let (columns, operands) = statements::write_assignments(&assignments);
    let mut sql = REVOKE_HEAD.to_owned();
    assert(text::views(columns@).len() == columns@.len());
    assert(text::views(operands@).len() == operands@.len());
    let mut set = text::cat(columns[0].as_str(), " = ");
    set.append(operands[0].as_str());
    proof {
        let puts = assignments@.map_values(|a: Assignment| a@);
        assert(puts =~= revoke_puts());
        assert(text::views(columns@)[0] == "status"@);
        assert(text::views(operands@)[0] == statements::operand_text(puts[0].operand));
        let parts = puts.map_values(
            |a: AssignmentView| a.column + " = "@ + statements::operand_text(a.operand),
        );
        assert(parts.len() == 1);
        assert(statements::set_text(puts, ", "@) == parts[0]);
        assert(set@ =~= statements::set_text(puts, ", "@));
    }
    sql.append(set.as_str());
    sql.append(REVOKE_WHERE);
    sql.append(statements::write_conditions(&conditions, REVOKE_AND).as_str());
    sql.append(REVOKE_TAIL);
    let r = SqlStatement { sql, values, conditions, assignments };
    proof {
        assert(r.puts() =~= revoke_puts());
        assert(r.arguments() =~= seq![
            SqlValueView::Id(supabase_user_id as int),
            SqlValueView::Id(shared_auth_session_id as int),
            SqlValueView::Text(Some(CUSTOMER_PROVIDER_PROJECT@)),
        ]);
        reveal_with_fuel(statements::all_hold, 6);
        reveal_with_fuel(statements::assigned, 2);
    }
    r
}

/// What is recorded of a session expires after its second factor was shown, and its labels are
/// already in the form in which they would be recorded again.
pub proof fn law_bindings_are_bounded_and_stable(
    device: Seq<char>,
    location: Option<Seq<char>>,
    verified_at: int,
    expires_at: int,
)
    ensures
        binding(device, location, verified_at, expires_at) matches Ok(b) ==> {
            &&& verified_at < expires_at
            &&& 0 < b.device.len() <= MAX_DEVICE_CHARS && !text::has_control(b.device)
            &&& b.location matches Some(place) ==> 0 < place.len() <= MAX_LOCATION_CHARS
                && !text::has_control(place)
            &&& binding(b.device, b.location, verified_at, expires_at) == Ok::<
                BindingView,
                Seq<char>,
            >(b)
        },
{
    text::lemma_trimmed_ends(device);
    if let Some(place) = location {
        text::lemma_trimmed_ends(place);
        text::lemma_trimmed_ends(text::trimmed(place));
    }
}

} // verus!
