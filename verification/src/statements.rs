//! SQL statements: the conditions that they ask for, what they put into columns, and the text
//! that says so.

use vstd::prelude::*;
use vstd::string::*;

use crate::queries;
use crate::queries::{CellView, Row, TestView};
use crate::text;
use crate::times::Timestamp;

verus! {

/// A value that a statement is run with.
pub enum SqlValue {
    Id(u128),
    Text(Option<String>),
    Time(Timestamp),
}

/// A value that a statement is run with, as a mathematical value.
pub enum SqlValueView {
    Id(int),
    Text(Option<Seq<char>>),
    Time(Timestamp),
}

impl View for SqlValue {
    type V = SqlValueView;

    open spec fn view(&self) -> SqlValueView {
        match self {
            SqlValue::Id(id) => SqlValueView::Id(*id as int),
            SqlValue::Text(s) => SqlValueView::Text(text::opt_view(*s)),
            SqlValue::Time(t) => SqlValueView::Time(*t),
        }
    }
}

/// The table that a column of a statement belongs to.
#[derive(Clone, Copy, Debug, PartialEq, Eq, Structural)]
pub enum Source {
    Session,
    LocalUser,
}

/// What a statement compares a column with, or puts into it: one of its values, by its number
/// from one on, or a text that stands in the statement itself.
pub enum Operand {
    Value(u8),
    Literal(&'static str),
}

/// What a statement asks of a column.
pub enum ColumnTest {
    Equals(Operand),
    NotNull,
    AtMost(Operand),
    After(Operand),
}

/// A condition on one column.
pub struct ColumnCondition {
    pub source: Source,
    pub column: &'static str,
    pub test: ColumnTest,
}

/// A column and what a statement puts into it.
pub struct Assignment {
    pub column: &'static str,
    pub operand: Operand,
}

/// What a statement compares a column with, as a mathematical value.
pub enum OperandView {
    Value(int),
    Literal(Seq<char>),
}

/// What a statement asks of a column, as a mathematical value.
pub enum ColumnTestView {
    Equals(OperandView),
    NotNull,
    AtMost(OperandView),
    After(OperandView),
}

/// A condition on one column, as a mathematical value.
pub struct ColumnConditionView {
    pub source: Source,
    pub column: Seq<char>,
    pub test: ColumnTestView,
}

/// A column and what a statement puts into it, as a mathematical value.
pub struct AssignmentView {
    pub column: Seq<char>,
    pub operand: OperandView,
}

impl View for Operand {
    type V = OperandView;

    open spec fn view(&self) -> OperandView {
        match self {
            Operand::Value(n) => OperandView::Value(*n as int),
            Operand::Literal(s) => OperandView::Literal(s@),
        }
    }
}

impl View for ColumnTest {
    type V = ColumnTestView;

    open spec fn view(&self) -> ColumnTestView {
        match self {
            ColumnTest::Equals(operand) => ColumnTestView::Equals(operand@),
            ColumnTest::NotNull => ColumnTestView::NotNull,
            ColumnTest::AtMost(operand) => ColumnTestView::AtMost(operand@),
            ColumnTest::After(operand) => ColumnTestView::After(operand@),
        }
    }
}

impl View for ColumnCondition {
    type V = ColumnConditionView;

    open spec fn view(&self) -> ColumnConditionView {
        ColumnConditionView { source: self.source, column: self.column@, test: self.test@ }
    }
}

impl View for Assignment {
    type V = AssignmentView;

    open spec fn view(&self) -> AssignmentView {
        AssignmentView { column: self.column@, operand: self.operand@ }
    }
}

/// A statement and the values that it is run with, in the order of their numbers in it. Its text
/// is made of the conditions and the assignments beside it.
pub struct SqlStatement {
    pub sql: String,
    pub values: Vec<SqlValue>,
    pub conditions: Vec<ColumnCondition>,
    pub assignments: Vec<Assignment>,
}

/// What a column holds that such a value was put into.
pub open spec fn cell_of(value: SqlValueView) -> CellView {
    match value {
        SqlValueView::Id(id) => CellView::Id(id),
        SqlValueView::Text(Some(s)) => CellView::Text(s),
        SqlValueView::Text(None) => CellView::Null,
        SqlValueView::Time(t) => CellView::Time(t.moment()),
    }
}

/// What an operand stands for, given the values of the statement.
pub open spec fn operand_cell(operand: OperandView, values: Seq<SqlValueView>) -> CellView {
    match operand {
        OperandView::Value(n) => cell_of(values[n - 1]),
        OperandView::Literal(s) => CellView::Text(s),
    }
}

/// What a statement asks of a column, given its values.
pub open spec fn resolved(test: ColumnTestView, values: Seq<SqlValueView>) -> TestView {
    match test {
        ColumnTestView::Equals(operand) => TestView::Equals(operand_cell(operand, values)),
        ColumnTestView::NotNull => TestView::NotNull,
        ColumnTestView::AtMost(operand) => TestView::AtMost(operand_cell(operand, values)),
        ColumnTestView::After(operand) => TestView::After(operand_cell(operand, values)),
    }
}

/// Whether the first so many conditions hold of a session and its user.
pub open spec fn all_hold(
    conditions: Seq<ColumnConditionView>,
    values: Seq<SqlValueView>,
    session: Row,
    user: Row,
    count: nat,
) -> bool
    decreases count,
{
    count == 0 || {
        let c = conditions[count - 1];
        let row = match c.source {
            Source::Session => session,
            Source::LocalUser => user,
        };
        all_hold(conditions, values, session, user, (count - 1) as nat) && queries::holds(
            resolved(c.test, values),
            queries::column_of(row, c.column),
        )
    }
}

/// A row after the first so many assignments.
pub open spec fn assigned(
    row: Row,
    assignments: Seq<AssignmentView>,
    values: Seq<SqlValueView>,
    count: nat,
) -> Row
    decreases count,
{
    if count == 0 {
        row
    } else {
        let a = assignments[count - 1];
        assigned(row, assignments, values, (count - 1) as nat).insert(
            a.column,
            operand_cell(a.operand, values),
        )
    }
}

impl SqlStatement {
    /// The values that the statement is run with.
    pub open spec fn arguments(&self) -> Seq<SqlValueView> {
        self.values@.map_values(|v: SqlValue| v@)
    }

    /// The conditions of the statement.
    pub open spec fn asks(&self) -> Seq<ColumnConditionView> {
        self.conditions@.map_values(|c: ColumnCondition| c@)
    }

    /// What the statement puts into columns.
    pub open spec fn puts(&self) -> Seq<AssignmentView> {
        self.assignments@.map_values(|a: Assignment| a@)
    }

    /// Whether the statement asks for a session, given the session's user.
    pub open spec fn selects(&self, session: Row, user: Row) -> bool {
        all_hold(self.asks(), self.arguments(), session, user, self.asks().len())
    }

    /// What the statement makes of a row.
    pub open spec fn writes(&self, row: Row) -> Row {
        assigned(row, self.puts(), self.arguments(), self.puts().len())
    }
}

/// The text of an operand.
pub open spec fn operand_text(operand: OperandView) -> Seq<char> {
    match operand {
        OperandView::Value(n) => seq!['$', (0x30 + n) as u8 as char],
        OperandView::Literal(s) => "'"@ + s + "'"@,
    }
}

/// The name that a table has in a statement.
pub open spec fn source_name(source: Source) -> Seq<char> {
    match source {
        Source::Session => "session"@,
        Source::LocalUser => "local_user"@,
    }
}

/// The text of a condition.
pub open spec fn condition_text(c: ColumnConditionView) -> Seq<char> {
    source_name(c.source) + "."@ + c.column + match c.test {
        ColumnTestView::Equals(operand) => " = "@ + operand_text(operand),
        ColumnTestView::NotNull => " is not null"@,
        ColumnTestView::AtMost(operand) => " <= "@ + operand_text(operand),
        ColumnTestView::After(operand) => " > "@ + operand_text(operand),
    }
}

/// The text of conditions that must all hold.
pub open spec fn where_text(conditions: Seq<ColumnConditionView>, and: Seq<char>) -> Seq<char> {
    text::joined(conditions.map_values(|c: ColumnConditionView| condition_text(c)), and)
}

/// The text of the columns that are assigned to.
pub open spec fn columns_text(assignments: Seq<AssignmentView>, comma: Seq<char>) -> Seq<char> {
    text::joined(assignments.map_values(|a: AssignmentView| a.column), comma)
}

/// The text of what is assigned.
pub open spec fn operands_text(assignments: Seq<AssignmentView>, comma: Seq<char>) -> Seq<char> {
    text::joined(assignments.map_values(|a: AssignmentView| operand_text(a.operand)), comma)
}

/// The text of assignments to the columns of existing rows.
pub open spec fn set_text(assignments: Seq<AssignmentView>, comma: Seq<char>) -> Seq<char> {
    text::joined(
        assignments.map_values(|a: AssignmentView| a.column + " = "@ + operand_text(a.operand)),
        comma,
    )
}

/// A number that stands in a statement with one digit.
pub open spec fn is_small(operand: OperandView) -> bool {
    operand matches OperandView::Value(n) ==> 1 <= n <= 9
}

/// The text of an operand.
fn write_operand(operand: &Operand) -> (r: String)
    requires
        is_small(operand@),
    ensures
        r@ == operand_text(operand@),
{
    let mut r = String::new();
    match operand {
        Operand::Value(n) => {
            r.push('$');
            r.push((0x30 + *n) as char);
            assert(r@ =~= operand_text(operand@));
        },
        Operand::Literal(s) => {
            r.append("'");
            r.append(s);
            r.append("'");
            assert(r@ =~= operand_text(operand@));
        },
    }
    r
}

/// A test whose operand can be written.
pub open spec fn is_small_test(test: ColumnTestView) -> bool {
    match test {
        ColumnTestView::Equals(operand) => is_small(operand),
        ColumnTestView::NotNull => true,
        ColumnTestView::AtMost(operand) => is_small(operand),
        ColumnTestView::After(operand) => is_small(operand),
    }
}

/// The text of a condition.
fn write_condition(c: &ColumnCondition) -> (r: String)
    requires
        is_small_test(c.test@),
    ensures
        r@ == condition_text(c@),
{
    let mut r = match c.source {
        Source::Session => "session".to_owned(),
        Source::LocalUser => "local_user".to_owned(),
    };
    r.append(".");
    r.append(c.column);
    let test = match &c.test {
        ColumnTest::Equals(operand) => text::cat(" = ", write_operand(operand).as_str()),
        ColumnTest::NotNull => " is not null".to_owned(),
        ColumnTest::AtMost(operand) => text::cat(" <= ", write_operand(operand).as_str()),
        ColumnTest::After(operand) => text::cat(" > ", write_operand(operand).as_str()),
    };
    r.append(test.as_str());
    r
}

/// The text of conditions that must all hold.
pub(crate) fn write_conditions(conditions: &Vec<ColumnCondition>, and: &str) -> (r: String)
    requires
        forall|i: int| 0 <= i < conditions@.len() ==> is_small_test(
            (#[trigger] conditions@[i]).test@,
        ),
    ensures
        r@ == where_text(conditions@.map_values(|c: ColumnCondition| c@), and@),
{
    let mut parts: Vec<String> = Vec::new();
    let mut i: usize = 0;
    while i < conditions.len()
        invariant
            i <= conditions.len(),
            parts@.len() == i,
            forall|j: int| 0 <= j < conditions@.len() ==> is_small_test(
                (#[trigger] conditions@[j]).test@,
            ),
            forall|j: int| 0 <= j < i ==> (#[trigger] parts@[j])@ == condition_text(conditions@[j]@),
        decreases conditions.len() - i,
    {
        parts.push(write_condition(&conditions[i]));
        i += 1;
    }
    assert(text::views(parts@) =~= conditions@.map_values(|c: ColumnCondition| c@).map_values(
        |c: ColumnConditionView| condition_text(c),
    ));
    text::join(&parts, and)
}

/// The texts of the columns and of what is put into them.
pub(crate) fn write_assignments(assignments: &Vec<Assignment>) -> (r: (Vec<String>, Vec<String>))
    requires
        forall|i: int| 0 <= i < assignments@.len() ==> is_small(
            (#[trigger] assignments@[i]).operand@,
        ),
    ensures
        text::views(r.0@) == assignments@.map_values(|a: Assignment| a@).map_values(
            |a: AssignmentView| a.column,
        ),
        text::views(r.1@) == assignments@.map_values(|a: Assignment| a@).map_values(
            |a: AssignmentView| operand_text(a.operand),
        ),
{
    let mut columns: Vec<String> = Vec::new();
    let mut operands: Vec<String> = Vec::new();
    let mut i: usize = 0;
    while i < assignments.len()
        invariant
            i <= assignments.len(),
            columns@.len() == i,
            operands@.len() == i,
            forall|j: int| 0 <= j < assignments@.len() ==> is_small(
                (#[trigger] assignments@[j]).operand@,
            ),
            forall|j: int| 0 <= j < i ==> (#[trigger] columns@[j])@ == assignments@[j].column@,
            forall|j: int|
                0 <= j < i ==> (#[trigger] operands@[j])@ == operand_text(assignments@[j].operand@),
        decreases assignments.len() - i,
    {
        columns.push(assignments[i].column.to_owned());
        operands.push(write_operand(&assignments[i].operand));
        i += 1;
    }
    assert(text::views(columns@) =~= assignments@.map_values(|a: Assignment| a@).map_values(
        |a: AssignmentView| a.column,
    ));
    assert(text::views(operands@) =~= assignments@.map_values(|a: Assignment| a@).map_values(
        |a: AssignmentView| operand_text(a.operand),
    ));
    (columns, operands)
}

/// An assignment.
pub(crate) fn put(column: &'static str, operand: Operand) -> (r: Assignment)
    ensures
        r@ == (AssignmentView { column: column@, operand: operand@ }),
{
    Assignment { column, operand }
}

/// A condition.
pub(crate) fn ask(source: Source, column: &'static str, test: ColumnTest) -> (r: ColumnCondition)
    ensures
        r@ == (ColumnConditionView { source, column: column@, test: test@ }),
{
    ColumnCondition { source, column, test }
}

} // verus!
