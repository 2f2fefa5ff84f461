//! What is asked of the customer database.
//!
//! A query names a table and the conditions that its rows must meet. Everything that belongs
//! to a user or an organisation is asked for with that owner as a condition, so that the
//! database itself hands out nothing of anybody else's.

use vstd::prelude::*;
use vstd::string::*;

verus! {

/// The status of a session that was revoked.
pub const REVOKED: &'static str = "revoked";

/// A value that a column is compared with.
pub enum Cell {
    Id(u128),
    Text(String),
}

/// What a condition asks of a column.
pub enum Test {
    Equals(Cell),
    Differs(Cell),
    IsNull,
}

/// A condition on one column.
pub struct Condition {
    pub column: &'static str,
    pub test: Test,
}

/// A query for the rows of a table that meet all conditions.
pub struct Query {
    pub table: &'static str,
    pub conditions: Vec<Condition>,
    /// The column that the rows are sorted by, the latest first.
    pub latest_first: Option<&'static str>,
    pub limit: Option<u64>,
}

/// What a column of a row holds.
pub enum CellView {
    Null,
    Id(int),
    Text(Seq<char>),
    /// A point in time, by its place in the course of time.
    Time(int),
    /// Something that no condition speaks of.
    Other,
}

/// What a condition asks of a column, as a mathematical value.
pub enum TestView {
    Equals(CellView),
    Differs(CellView),
    IsNull,
    NotNull,
    /// A point in time no later than this one.
    AtMost(CellView),
    /// A point in time later than this one.
    After(CellView),
}

/// A row, by the names of its columns.
pub type Row = Map<Seq<char>, CellView>;

impl View for Cell {
    type V = CellView;

    open spec fn view(&self) -> CellView {
        match self {
            Cell::Id(id) => CellView::Id(*id as int),
            Cell::Text(s) => CellView::Text(s@),
        }
    }
}

impl View for Test {
    type V = TestView;

    open spec fn view(&self) -> TestView {
        match self {
            Test::Equals(cell) => TestView::Equals(cell@),
            Test::Differs(cell) => TestView::Differs(cell@),
            Test::IsNull => TestView::IsNull,
        }
    }
}

/// What a row holds in a column; a column that it lacks is null.
pub open spec fn column_of(row: Row, column: Seq<char>) -> CellView {
    if row.contains_key(column) {
        row[column]
    } else {
        CellView::Null
    }
}

/// Whether a condition holds. As in SQL, null is neither equal to anything nor different.
pub open spec fn holds(test: TestView, cell: CellView) -> bool {
    match test {
        TestView::Equals(wanted) => !(cell is Null) && cell == wanted,
        TestView::Differs(unwanted) => !(cell is Null) && cell != unwanted,
        TestView::IsNull => cell is Null,
        TestView::NotNull => !(cell is Null),
        TestView::AtMost(limit) => match (cell, limit) {
            (CellView::Time(t), CellView::Time(n)) => t <= n,
            _ => false,
        },
        TestView::After(limit) => match (cell, limit) {
            (CellView::Time(t), CellView::Time(n)) => t > n,
            _ => false,
        },
    }
}

impl Query {
    /// Whether the query asks for a row.
    pub open spec fn selects(&self, row: Row) -> bool {
        forall|i: int|
            0 <= i < self.conditions@.len() ==> holds(
                (#[trigger] self.conditions@[i]).test@,
                column_of(row, self.conditions@[i].column@),
            )
    }
}

/// Whether a row belongs to an owner, as the given column says.
pub open spec fn belongs(row: Row, column: Seq<char>, owner: u128) -> bool {
    column_of(row, column) == CellView::Id(owner as int)
}

/// Whether a row holds a text in a column.
pub open spec fn says(row: Row, column: Seq<char>, s: Seq<char>) -> bool {
    column_of(row, column) == CellView::Text(s)
}

/// Whether a row is the session of a user on a device, and was not revoked.
pub open spec fn revocable(row: Row, user_id: u128, device: Seq<char>) -> bool {
    &&& belongs(row, "user_id"@, user_id)
    &&& says(row, "device"@, device)
    &&& !(column_of(row, "status"@) is Null)
    &&& !says(row, "status"@, REVOKED@)
}

/// Whether a row is a notification of a user that was not read.
pub open spec fn unread(row: Row, user_id: u128) -> bool {
    belongs(row, "user_id"@, user_id) && column_of(row, "read_at"@) is Null
}

/// The local user with the given subject at the identity provider.
pub fn users_by_subject(supabase_user_id: u128) -> (r: Query)
    ensures
        r.table@ == "users"@,
        forall|row: Row| #[trigger]
            r.selects(row) <==> belongs(row, "supabase_user_id"@, supabase_user_id),
        r.latest_first is None,
        r.limit is None,
{
    let mut conditions: Vec<Condition> = Vec::new();
    conditions.push(
        Condition { column: "supabase_user_id", test: Test::Equals(Cell::Id(supabase_user_id)) },
    );
    let r = Query { table: "users", conditions, latest_first: None, limit: None };
    assert forall|row: Row| #[trigger] r.selects(row) <==> belongs(
        row,
        "supabase_user_id"@,
        supabase_user_id,
    ) by {
        lemma_one(r, row);
    }
    r
}

/// A query with one condition.
proof fn lemma_one(q: Query, row: Row)
    requires
        q.conditions@.len() == 1,
    ensures
        q.selects(row) <==> holds(
            q.conditions@[0].test@,
            column_of(row, q.conditions@[0].column@),
        ),
{
    if q.selects(row) {
        assert(holds(q.conditions@[0].test@, column_of(row, q.conditions@[0].column@)));
    }
}

/// A query with two conditions.
proof fn lemma_two(q: Query, row: Row)
    requires
        q.conditions@.len() == 2,
    ensures
        q.selects(row) <==> {
            &&& holds(q.conditions@[0].test@, column_of(row, q.conditions@[0].column@))
            &&& holds(q.conditions@[1].test@, column_of(row, q.conditions@[1].column@))
        },
{
    if q.selects(row) {
        assert(holds(q.conditions@[0].test@, column_of(row, q.conditions@[0].column@)));
        assert(holds(q.conditions@[1].test@, column_of(row, q.conditions@[1].column@)));
    }
}

/// A query with three conditions.
proof fn lemma_three(q: Query, row: Row)
    requires
        q.conditions@.len() == 3,
    ensures
        q.selects(row) <==> {
            &&& holds(q.conditions@[0].test@, column_of(row, q.conditions@[0].column@))
            &&& holds(q.conditions@[1].test@, column_of(row, q.conditions@[1].column@))
            &&& holds(q.conditions@[2].test@, column_of(row, q.conditions@[2].column@))
        },
{
    if q.selects(row) {
        assert(holds(q.conditions@[0].test@, column_of(row, q.conditions@[0].column@)));
        assert(holds(q.conditions@[1].test@, column_of(row, q.conditions@[1].column@)));
        assert(holds(q.conditions@[2].test@, column_of(row, q.conditions@[2].column@)));
    }
}

/// The preferences of a user.
pub fn get_preferences(user_id: u128) -> (r: Query)
    ensures
        r.table@ == "customer_preferences"@,
        forall|row: Row| #[trigger] r.selects(row) <==> belongs(row, "user_id"@, user_id),
        r.latest_first is None,
        r.limit is None,
{
    let mut conditions: Vec<Condition> = Vec::new();
    conditions.push(Condition { column: "user_id", test: Test::Equals(Cell::Id(user_id)) });
    let r = Query { table: "customer_preferences", conditions, latest_first: None, limit: None };
    assert forall|row: Row| #[trigger] r.selects(row) <==> belongs(row, "user_id"@, user_id) by {
        lemma_one(r, row);
    }
    r
}

/// The sessions of a user, the one last seen first.
pub fn list_sessions(user_id: u128) -> (r: Query)
    ensures
        r.table@ == "customer_sessions"@,
        forall|row: Row| #[trigger] r.selects(row) <==> belongs(row, "user_id"@, user_id),
        r.latest_first matches Some(column) && column@ == "last_seen"@,
        r.limit is None,
{
    let mut conditions: Vec<Condition> = Vec::new();
    conditions.push(Condition { column: "user_id", test: Test::Equals(Cell::Id(user_id)) });
    let r = Query {
        table: "customer_sessions",
        conditions,
        latest_first: Some("last_seen"),
        limit: None,
    };
    assert forall|row: Row| #[trigger] r.selects(row) <==> belongs(row, "user_id"@, user_id) by {
        lemma_one(r, row);
    }
    r
}

/// The latest events in the log of an organisation.
pub fn list_audit_events(org_id: u128, limit: u64) -> (r: Query)
    ensures
        r.table@ == "audit_log"@,
        forall|row: Row| #[trigger] r.selects(row) <==> belongs(row, "org_id"@, org_id),
        r.latest_first matches Some(column) && column@ == "created_at"@,
        r.limit == Some(limit),
{
    let mut conditions: Vec<Condition> = Vec::new();
    conditions.push(Condition { column: "org_id", test: Test::Equals(Cell::Id(org_id)) });
    let r = Query {
        table: "audit_log",
        conditions,
        latest_first: Some("created_at"),
        limit: Some(limit),
    };
    assert forall|row: Row| #[trigger] r.selects(row) <==> belongs(row, "org_id"@, org_id) by {
        lemma_one(r, row);
    }
    r
}

/// The session of a user on a device, unless it was revoked.
pub fn revoke_session(user_id: u128, device: &str) -> (r: Query)
    ensures
        r.table@ == "customer_sessions"@,
        forall|row: Row| #[trigger] r.selects(row) <==> revocable(row, user_id, device@),
        r.latest_first is None,
        r.limit is None,
{
    let mut conditions: Vec<Condition> = Vec::new();
    conditions.push(Condition { column: "user_id", test: Test::Equals(Cell::Id(user_id)) });
    conditions.push(
        Condition { column: "device", test: Test::Equals(Cell::Text(device.to_owned())) },
    );
    conditions.push(
        Condition { column: "status", test: Test::Differs(Cell::Text(REVOKED.to_owned())) },
    );
    let r = Query { table: "customer_sessions", conditions, latest_first: None, limit: None };
    assert forall|row: Row| #[trigger] r.selects(row) <==> revocable(row, user_id, device@) by {
        lemma_three(r, row);
    }
    r
}

/// The latest notifications of a user.
pub fn list_notifications(user_id: u128, limit: u64) -> (r: Query)
    ensures
        r.table@ == "customer_notifications"@,
        forall|row: Row| #[trigger] r.selects(row) <==> belongs(row, "user_id"@, user_id),
        r.latest_first matches Some(column) && column@ == "created_at"@,
        r.limit == Some(limit),
{
    let mut conditions: Vec<Condition> = Vec::new();
    conditions.push(Condition { column: "user_id", test: Test::Equals(Cell::Id(user_id)) });
    let r = Query {
        table: "customer_notifications",
        conditions,
        latest_first: Some("created_at"),
        limit: Some(limit),
    };
    assert forall|row: Row| #[trigger] r.selects(row) <==> belongs(row, "user_id"@, user_id) by {
        lemma_one(r, row);
    }
    r
}

/// The notifications that a user has not read.
pub fn unread_notification_count(user_id: u128) -> (r: Query)
    ensures
        r.table@ == "customer_notifications"@,
        forall|row: Row| #[trigger] r.selects(row) <==> unread(row, user_id),
        r.latest_first is None,
        r.limit is None,
{
    let mut conditions: Vec<Condition> = Vec::new();
    conditions.push(Condition { column: "user_id", test: Test::Equals(Cell::Id(user_id)) });
    conditions.push(Condition { column: "read_at", test: Test::IsNull });
    let r = Query { table: "customer_notifications", conditions, latest_first: None, limit: None };
    assert forall|row: Row| #[trigger] r.selects(row) <==> unread(row, user_id) by {
        lemma_two(r, row);
    }
    r
}

/// One notification, where it is the user's and was not read.
pub fn mark_notification_read(user_id: u128, id: u128) -> (r: Query)
    ensures
        r.table@ == "customer_notifications"@,
        forall|row: Row| #[trigger]
            r.selects(row) <==> belongs(row, "id"@, id) && unread(row, user_id),
        r.latest_first is None,
        r.limit is None,
{
    let mut conditions: Vec<Condition> = Vec::new();
    conditions.push(Condition { column: "id", test: Test::Equals(Cell::Id(id)) });
    conditions.push(Condition { column: "user_id", test: Test::Equals(Cell::Id(user_id)) });
    conditions.push(Condition { column: "read_at", test: Test::IsNull });
    let r = Query { table: "customer_notifications", conditions, latest_first: None, limit: None };
    assert forall|row: Row| #[trigger] r.selects(row) <==> belongs(row, "id"@, id) && unread(
        row,
        user_id,
    ) by {
        lemma_three(r, row);
    }
    r
}

/// The row of the ledger for an event of a payment provider.
pub fn billing_event(provider: &str, provider_event_id: &str) -> (r: Query)
    ensures
        r.table@ == "billing_webhook_events"@,
        forall|row: Row| #[trigger]
            r.selects(row) <==> says(row, "provider"@, provider@) && says(
                row,
                "provider_event_id"@,
                provider_event_id@,
            ),
        r.latest_first is None,
        r.limit is None,
{
    let mut conditions: Vec<Condition> = Vec::new();
    conditions.push(
        Condition { column: "provider", test: Test::Equals(Cell::Text(provider.to_owned())) },
    );
    conditions.push(
        Condition {
            column: "provider_event_id",
            test: Test::Equals(Cell::Text(provider_event_id.to_owned())),
        },
    );
    let r = Query { table: "billing_webhook_events", conditions, latest_first: None, limit: None };
    assert forall|row: Row| #[trigger] r.selects(row) <==> says(row, "provider"@, provider@)
        && says(row, "provider_event_id"@, provider_event_id@) by {
        lemma_two(r, row);
    }
    r
}

/// A session that was revoked cannot be revoked again.
pub proof fn law_revocation_is_final(row: Row, user_id: u128, device: Seq<char>)
    ensures
        !revocable(row.insert("status"@, CellView::Text(REVOKED@)), user_id, device),
{
}

/// A notification that was marked as read does not count as unread again.
pub proof fn law_reading_is_final(row: Row, user_id: u128, now: int)
    ensures
        !unread(row.insert("read_at"@, CellView::Time(now)), user_id),
{
}

/// Nobody revokes the session, or reads the notification, of another user.
pub proof fn law_rows_have_one_owner(row: Row, user_id: u128, other: u128, device: Seq<char>)
    requires
        user_id != other,
    ensures
        revocable(row, user_id, device) ==> !revocable(row, other, device),
        unread(row, user_id) ==> !unread(row, other),
{
}

/// Whose a row is and what it says is read from its own column; a session can be revoked exactly
/// where it is the user's, on the device, and has a status other than revoked; and a
/// notification is unread exactly where it is the user's and has no time of reading.
pub proof fn law_rows_are_judged_by_their_columns(
    row: Row,
    column: Seq<char>,
    owner: u128,
    s: Seq<char>,
)
    ensures
        belongs(row, column, owner) <==> row.contains_key(column) && row[column] == CellView::Id(
            owner as int,
        ),
        says(row, column, s) <==> row.contains_key(column) && row[column] == CellView::Text(s),
        revocable(row, owner, s) <==> {
            &&& row.contains_key("user_id"@) && row["user_id"@] == CellView::Id(owner as int)
            &&& row.contains_key("device"@) && row["device"@] == CellView::Text(s)
            &&& row.contains_key("status"@) && row["status"@] != CellView::Null && row["status"@]
                != CellView::Text("revoked"@)
        },
        unread(row, owner) <==> {
            &&& row.contains_key("user_id"@) && row["user_id"@] == CellView::Id(owner as int)
            &&& row.contains_key("read_at"@) ==> row["read_at"@] == CellView::Null
        },
{
}

/// A condition compares as a database does: null is neither equal to anything nor different from
/// it, neither before nor after.
pub proof fn law_conditions_compare(cell: CellView, other: CellView, a: int, b: int)
    ensures
        !(cell is Null) ==> holds(TestView::Equals(cell), cell) && !holds(
            TestView::Differs(cell),
            cell,
        ),
        !(cell is Null) && cell != other ==> !holds(TestView::Equals(other), cell) && holds(
            TestView::Differs(other),
            cell,
        ),
        !holds(TestView::Equals(cell), CellView::Null),
        !holds(TestView::Differs(cell), CellView::Null),
        !holds(TestView::AtMost(cell), CellView::Null),
        !holds(TestView::After(cell), CellView::Null),
        holds(TestView::IsNull, cell) <==> cell is Null,
        holds(TestView::NotNull, cell) <==> !(cell is Null),
        holds(TestView::AtMost(CellView::Time(b)), CellView::Time(a)) <==> a <= b,
        holds(TestView::After(CellView::Time(b)), CellView::Time(a)) <==> a > b,
{
}

} // verus!
