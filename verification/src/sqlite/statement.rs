//! Transitions as SQLite update statements, with the values that they are bound to.
//!
//! Parameters stand in the order of their question marks: first those of the
//! assignments, in order, then those of the condition.

use crate::claim::PreparedClaim;
use crate::sqlite::lifecycle_mutation::PreparedMutation;
use crate::transition::{
    claim_assignments, claim_list, column_text, finalize_assignments, finalize_list,
    mutation_assignments, mutation_list, Assignment, Column, MutationKind, Term,
};
use crate::value::{state_name, state_text, DeliveryState, RowId};
use vstd::prelude::*;
use vstd::slice::slice_to_vec;

verus! {

/// A term in SQLite's dialect. A later time takes three parameters: the
/// operation time and twice the duration in milliseconds.
pub open spec fn term_text(term: Term) -> Seq<char> {
    match term {
        Term::Null => "NULL"@,
        Term::State(state) => "'"@ + state_text(state) + "'"@,
        Term::Later => "strftime('%Y-%m-%dT%H:%M:%f000Z', ?, printf('+%lld.%03lld seconds', ? / 1000, ? % 1000))"@,
        _ => "?"@,
    }
}

/// One assignment in SQLite's dialect.
pub open spec fn assignment_text(assignment: Assignment) -> Seq<char> {
    column_text(assignment.column) + " = "@ + term_text(assignment.term)
}

/// Assignments in SQLite's dialect, separated by commas.
pub open spec fn set_text(list: Seq<Assignment>) -> Seq<char>
    decreases list.len(),
{
    if list.len() == 0 {
        Seq::empty()
    } else if list.len() == 1 {
        assignment_text(list[0])
    } else {
        set_text(list.drop_last()) + ", "@ + assignment_text(list.last())
    }
}

fn written(term: Term) -> (text: String)
    ensures
        text@ == term_text(term),
{
    match term {
        Term::Null => "NULL".to_owned(),
        Term::State(state) => "'".to_owned().concat(state_name(state)).concat("'"),
        Term::Later => "strftime('%Y-%m-%dT%H:%M:%f000Z', ?, printf('+%lld.%03lld seconds', ? / 1000, ? % 1000))".to_owned(),
        _ => "?".to_owned(),
    }
}

/// Writes assignments in SQLite's dialect.
pub fn set_clause(list: &Vec<Assignment>) -> (text: String)
    ensures
        text@ == set_text(list@),
{
    let mut text = String::new();
    let mut index: usize = 0;
    assert(text@ =~= set_text(list@.take(0)));
    while index < list.len()
        invariant
            index <= list@.len(),
            text@ == set_text(list@.take(index as int)),
        decreases list@.len() - index,
    {
        let entry = list[index].column.name().to_owned().concat(" = ").concat(
            written(list[index].term).as_str(),
        );
        proof {
            let longer = list@.take(index + 1);
            assert(longer.drop_last() =~= list@.take(index as int));
            assert(longer.last() == list@[index as int]);
            assert(longer[0] == list@[0]);
        }
        if index == 0 {
            text = entry;
        } else {
            text = text.concat(", ").concat(entry.as_str());
        }
        index = index + 1;
    }
    assert(list@.take(list@.len() as int) =~= list@);
    text
}

/// The condition of a mutation: the row of a tenant, or of any tenant, that the
/// holder of a token owns. Its parameters are the row, the tenant twice, the
/// token and the operation time.
pub const OWNED_ROW: &'static str = " WHERE event_row_id = ? AND (? IS NULL OR tenant_id = ?) AND state = 'claimed' AND claim_token = ? AND claim_expires_at > ?";

/// The condition of a claim: the row of a tenant that can still be claimed. Its
/// parameters are the tenant and the row.
pub const CLAIMED_ROW: &'static str = " WHERE tenant_id = ? AND event_row_id = ? AND (state = 'pending' OR state = 'claimed') RETURNING claim_expires_at";

/// The condition of a finalization: the untouched pending row of a tenant. Its
/// parameters are the tenant, the row and the time from which it is available.
pub const UNTOUCHED_ROW: &'static str = " WHERE tenant_id = ? AND event_row_id = ? AND state = 'pending' AND attempts = 0 AND claim_token IS NULL AND claimed_by IS NULL AND claim_expires_at IS NULL AND last_failure_code IS NULL AND last_failure_detail IS NULL AND delivered_at IS NULL AND quarantined_at IS NULL AND quarantine_reason IS NULL AND available_at = ?";

/// The text that applies assignments to the row that a condition names.
pub open spec fn update_text(list: Seq<Assignment>, condition: Seq<char>) -> Seq<char> {
    "UPDATE dovecote_deliveries SET "@ + set_text(list) + condition
}

fn update_statement(list: &Vec<Assignment>, condition: &str) -> (statement: String)
    ensures
        statement@ == update_text(list@, condition@),
{
    "UPDATE dovecote_deliveries SET ".to_owned().concat(set_clause(list).as_str()).concat(condition)
}

/// The statement of a mutation: its assignments, to the row that the holder of the
/// token owns.
pub fn mutation_statement(kind: MutationKind) -> (statement: String)
    ensures
        statement@ == update_text(mutation_list(kind), OWNED_ROW@),
{
    update_statement(&mutation_assignments(kind), OWNED_ROW)
}

/// The statement of a claim: its assignments, to a row that can still be claimed.
pub fn claim_statement() -> (statement: String)
    ensures
        statement@ == update_text(claim_list(), CLAIMED_ROW@),
{
    update_statement(&claim_assignments(), CLAIMED_ROW)
}

/// The statement of a finalization: its assignments, to an untouched pending row.
pub fn finalize_statement() -> (statement: String)
    ensures
        statement@ == update_text(finalize_list(), UNTOUCHED_ROW@),
{
    update_statement(&finalize_assignments(), UNTOUCHED_ROW)
}

/// A value that a statement is bound to.
#[derive(Debug)]
pub enum Parameter {
    /// No value.
    Absent,
    /// A text.
    Text(String),
    /// A number.
    Number(i64),
    /// Bytes.
    Bytes(Vec<u8>),
}

/// The mathematical content of a parameter.
pub ghost enum ParameterView {
    Absent,
    Text(Seq<char>),
    Number(int),
    Bytes(Seq<u8>),
}

impl View for Parameter {
    type V = ParameterView;

    open spec fn view(&self) -> ParameterView {
        match self {
            Parameter::Absent => ParameterView::Absent,
            Parameter::Text(text) => ParameterView::Text(text@),
            Parameter::Number(number) => ParameterView::Number(*number as int),
            Parameter::Bytes(bytes) => ParameterView::Bytes(bytes@),
        }
    }
}

/// The contents of parameters, in order.
pub open spec fn contents(list: Seq<Parameter>) -> Seq<ParameterView> {
    list.map_values(|parameter: Parameter| parameter@)
}

/// A transition with the values that its terms stand for.
pub enum Change<'a> {
    /// A mutation by the holder of a claim.
    Mutation(&'a PreparedMutation),
    /// A claim for a worker and a lease.
    Claim { prepared: &'a PreparedClaim, worker: &'a str, lease_ms: i64 },
    /// A finalization with its delivery time.
    Finalization { delivered_at: &'a str },
}

/// What a term stands for in a transition, if it is not written out in the
/// statement. A term that the transition has no value for stands for none.
pub open spec fn term_value(change: Change, now: Seq<char>, term: Term) -> ParameterView {
    match (term, change) {
        (Term::OperationTime, _) => ParameterView::Text(now),
        (Term::Later, Change::Mutation(mutation)) => match mutation.milliseconds() {
            Some(milliseconds) => ParameterView::Number(milliseconds),
            None => ParameterView::Absent,
        },
        (Term::Later, Change::Claim { lease_ms, .. }) => ParameterView::Number(lease_ms as int),
        (Term::Attempts, Change::Claim { prepared, .. }) => ParameterView::Number(
            prepared@.attempts,
        ),
        (Term::Token, Change::Claim { prepared, .. }) => ParameterView::Bytes(prepared@.token),
        (Term::Worker, Change::Claim { worker, .. }) => ParameterView::Text(worker@),
        (
            Term::FailureCode,
            Change::Mutation(PreparedMutation::Retry { code, .. }),
        ) => ParameterView::Text(code@),
        (
            Term::FailureDetail,
            Change::Mutation(PreparedMutation::Retry { detail, .. }),
        ) => ParameterView::Text(detail@),
        (
            Term::Reason,
            Change::Mutation(PreparedMutation::Quarantine { reason }),
        ) => ParameterView::Text(reason@),
        (Term::DeliveryTime, Change::Finalization { delivered_at }) => ParameterView::Text(
            delivered_at@,
        ),
        _ => ParameterView::Absent,
    }
}

/// The values of the question marks of a term, in order.
pub open spec fn term_values(change: Change, now: Seq<char>, term: Term) -> Seq<ParameterView> {
    match term {
        Term::Null => Seq::empty(),
        Term::State(_) => Seq::empty(),
        Term::Later => seq![
            ParameterView::Text(now),
            term_value(change, now, term),
            term_value(change, now, term),
        ],
        _ => seq![term_value(change, now, term)],
    }
}

/// The values of the question marks of assignments, in order.
pub open spec fn set_values(change: Change, now: Seq<char>, list: Seq<Assignment>) -> Seq<
    ParameterView,
>
    decreases list.len(),
{
    if list.len() == 0 {
        Seq::empty()
    } else {
        set_values(change, now, list.drop_last()) + term_values(change, now, list.last().term)
    }
}

fn bound(change: &Change, now: &str, term: Term) -> (parameter: Parameter)
    ensures
        parameter@ == term_value(*change, now@, term),
{
    match (term, change) {
        (Term::OperationTime, _) => Parameter::Text(now.to_owned()),
        (Term::Later, Change::Mutation(mutation)) => match mutation {
            PreparedMutation::Renew { duration_ms } => Parameter::Number(*duration_ms),
            PreparedMutation::Retry { duration_ms, .. } => Parameter::Number(*duration_ms),
            PreparedMutation::Release { duration_ms } => Parameter::Number(*duration_ms),
            _ => Parameter::Absent,
        },
        (Term::Later, Change::Claim { lease_ms, .. }) => Parameter::Number(*lease_ms),
        (Term::Attempts, Change::Claim { prepared, .. }) => Parameter::Number(prepared.attempts()),
        (Term::Token, Change::Claim { prepared, .. }) => Parameter::Bytes(
            slice_to_vec(prepared.token().as_slice()),
        ),
        (Term::Worker, Change::Claim { worker, .. }) => Parameter::Text((*worker).to_owned()),
        (Term::FailureCode, Change::Mutation(PreparedMutation::Retry { code, .. })) => {
            Parameter::Text(code.as_str().to_owned())
        },
        (Term::FailureDetail, Change::Mutation(PreparedMutation::Retry { detail, .. })) => {
            Parameter::Text(detail.as_str().to_owned())
        },
        (Term::Reason, Change::Mutation(PreparedMutation::Quarantine { reason })) => {
            Parameter::Text(reason.as_str().to_owned())
        },
        (Term::DeliveryTime, Change::Finalization { delivered_at }) => {
            Parameter::Text((*delivered_at).to_owned())
        },
        _ => Parameter::Absent,
    }
}

/// The values of the question marks of assignments, in order.
fn set_parameters(change: &Change, now: &str, list: &Vec<Assignment>) -> (parameters: Vec<
    Parameter,
>)
    ensures
        contents(parameters@) == set_values(*change, now@, list@),
{
    let mut parameters: Vec<Parameter> = Vec::new();
    let mut index: usize = 0;
    assert(contents(parameters@) =~= set_values(*change, now@, list@.take(0)));
    while index < list.len()
        invariant
            index <= list@.len(),
            contents(parameters@) == set_values(*change, now@, list@.take(index as int)),
        decreases list@.len() - index,
    {
        let term = list[index].term;
        let ghost before = parameters@;
        match term {
            Term::Null => {},
            Term::State(_) => {},
            Term::Later => {
                parameters.push(Parameter::Text(now.to_owned()));
                parameters.push(bound(change, now, term));
                parameters.push(bound(change, now, term));
            },
            _ => parameters.push(bound(change, now, term)),
        }
        proof {
            assert(contents(parameters@) =~= contents(before) + term_values(*change, now@, term));
            assert(list@.take(index + 1).drop_last() =~= list@.take(index as int));
        }
        index = index + 1;
    }
    assert(list@.take(list@.len() as int) =~= list@);
    parameters
}

/// A tenant as a parameter, absent where a statement spans all tenants.
pub open spec fn scope_value(tenant: Option<&str>) -> ParameterView {
    match tenant {
        Some(tenant) => ParameterView::Text(tenant@),
        None => ParameterView::Absent,
    }
}

fn scope(tenant: Option<&str>) -> (parameter: Parameter)
    ensures
        parameter@ == scope_value(tenant),
{
    match tenant {
        Some(tenant) => Parameter::Text(tenant.to_owned()),
        None => Parameter::Absent,
    }
}

/// The values of a mutation's statement, in order: those of its assignments, then
/// the row, the tenant twice, the token and the operation time.
pub open spec fn mutation_values(
    mutation: &PreparedMutation,
    now: Seq<char>,
    row_id: int,
    tenant: Option<&str>,
    token: Seq<u8>,
) -> Seq<ParameterView> {
    set_values(Change::Mutation(mutation), now, mutation_list(mutation.of_kind())) + seq![
        ParameterView::Number(row_id),
        scope_value(tenant),
        scope_value(tenant),
        ParameterView::Bytes(token),
        ParameterView::Text(now),
    ]
}

/// The values of a claim's statement, in order: those of its assignments, then the
/// tenant and the row.
pub open spec fn claim_values(
    prepared: &PreparedClaim,
    worker: &str,
    lease_ms: i64,
    now: Seq<char>,
) -> Seq<ParameterView> {
    set_values(Change::Claim { prepared, worker, lease_ms }, now, claim_list()) + seq![
        ParameterView::Text(prepared@.tenant_id),
        ParameterView::Number(prepared@.row_id),
    ]
}

/// The values of a finalization's statement, in order: those of its assignments,
/// then the tenant, the row and the time from which it is available.
pub open spec fn finalize_values(
    delivered_at: &str,
    tenant: Seq<char>,
    row_id: int,
    available_at: Seq<char>,
) -> Seq<ParameterView> {
    set_values(Change::Finalization { delivered_at }, available_at, finalize_list()) + seq![
        ParameterView::Text(tenant),
        ParameterView::Number(row_id),
        ParameterView::Text(available_at),
    ]
}

/// The parameters of a mutation's statement: those of its assignments, then the
/// row, the tenant twice, the token and the operation time.
pub fn mutation_parameters(
    mutation: &PreparedMutation,
    operation_time: &str,
    row_id: RowId,
    tenant: Option<&str>,
    token: &[u8; 16],
) -> (parameters: Vec<Parameter>)
    ensures
        contents(parameters@) == mutation_values(
            mutation,
            operation_time@,
            row_id@,
            tenant,
            token@,
        ),
{
    let change = Change::Mutation(mutation);
    let list = mutation_assignments(mutation.kind());
    let mut parameters = set_parameters(&change, operation_time, &list);
    let ghost first = contents(parameters@);
    parameters.push(Parameter::Number(row_id.get()));
    parameters.push(scope(tenant));
    parameters.push(scope(tenant));
    parameters.push(Parameter::Bytes(slice_to_vec(token.as_slice())));
    parameters.push(Parameter::Text(operation_time.to_owned()));
    assert(contents(parameters@) =~= first + seq![
        ParameterView::Number(row_id@),
        scope_value(tenant),
        scope_value(tenant),
        ParameterView::Bytes(token@),
        ParameterView::Text(operation_time@),
    ]);
    parameters
}

/// The parameters of a claim's statement: those of its assignments, then the
/// tenant and the row.
pub fn claim_parameters(
    prepared: &PreparedClaim,
    worker: &str,
    lease_ms: i64,
    operation_time: &str,
) -> (parameters: Vec<Parameter>)
    ensures
        contents(parameters@) == claim_values(prepared, worker, lease_ms, operation_time@),
{
    let change = Change::Claim { prepared, worker, lease_ms };
    let list = claim_assignments();
    let mut parameters = set_parameters(&change, operation_time, &list);
    let ghost first = contents(parameters@);
    parameters.push(Parameter::Text(prepared.tenant_id().to_owned()));
    parameters.push(Parameter::Number(prepared.row_id().get()));
    assert(contents(parameters@) =~= first + seq![
        ParameterView::Text(prepared@.tenant_id),
        ParameterView::Number(prepared@.row_id),
    ]);
    parameters
}

/// The parameters of a finalization's statement: those of its assignments, then the
/// tenant, the row and the time from which it is available.
pub fn finalize_parameters(
    delivered_at: &str,
    tenant: &str,
    row_id: RowId,
    available_at: &str,
) -> (parameters: Vec<Parameter>)
    ensures
        contents(parameters@) == finalize_values(delivered_at, tenant@, row_id@, available_at@),
        contents(parameters@) == seq![
            ParameterView::Text(delivered_at@),
            ParameterView::Text(tenant@),
            ParameterView::Number(row_id@),
            ParameterView::Text(available_at@),
        ],
{
    let change = Change::Finalization { delivered_at };
    let list = finalize_assignments();
    let mut parameters = set_parameters(&change, available_at, &list);
    let ghost first = contents(parameters@);
    proof {
        reveal_with_fuel(set_values, 3);
        assert(list@.drop_last().drop_last() =~= Seq::<Assignment>::empty());
        assert(first =~= seq![ParameterView::Text(delivered_at@)]);
    }
    parameters.push(Parameter::Text(tenant.to_owned()));
    parameters.push(Parameter::Number(row_id.get()));
    parameters.push(Parameter::Text(available_at.to_owned()));
    assert(contents(parameters@) =~= first + seq![
        ParameterView::Text(tenant@),
        ParameterView::Number(row_id@),
        ParameterView::Text(available_at@),
    ]);
    parameters
}

/// How many question marks a text holds.
pub open spec fn marks(text: Seq<char>) -> nat
    decreases text.len(),
{
    if text.len() == 0 {
        0
    } else if text.last() == '?' {
        marks(text.drop_last()) + 1
    } else {
        marks(text.drop_last())
    }
}

proof fn lemma_marks_of_both(left: Seq<char>, right: Seq<char>)
    ensures
        marks(left + right) == marks(left) + marks(right),
    decreases right.len(),
{
    if right.len() == 0 {
        assert(left + right == left);
    } else {
        lemma_marks_of_both(left, right.drop_last());
        assert((left + right).drop_last() == left + right.drop_last());
        assert((left + right).last() == right.last());
    }
}

/// Whether a text holds no question mark.
spec fn is_unmarked(text: Seq<char>) -> bool {
    forall|i: int| 0 <= i < text.len() ==> #[trigger] text[i] != '?'
}

proof fn lemma_unmarked(text: Seq<char>)
    requires
        is_unmarked(text),
    ensures
        marks(text) == 0,
    decreases text.len(),
{
    if text.len() > 0 {
        lemma_unmarked(text.drop_last());
        assert(text[text.len() - 1] != '?');
    }
}

proof fn lemma_one_mark()
    ensures
        marks("?"@) == 1,
{
    reveal_strlit("?");
    assert("?"@.drop_last() == Seq::<char>::empty());
    assert(marks(Seq::<char>::empty()) == 0);
}

/// The text of a later time takes three parameters.
proof fn lemma_marks_of_later()
    ensures
        marks(term_text(Term::Later)) == 3,
{
    let first = "strftime('%Y-%m-%dT%H:%M:%f000Z', "@;
    let second = ", printf('+%lld.%03lld seconds', "@;
    let third = " / 1000, "@;
    let last = " % 1000))"@;
    let mark = "?"@;
    reveal_strlit(
        "strftime('%Y-%m-%dT%H:%M:%f000Z', ?, printf('+%lld.%03lld seconds', ? / 1000, ? % 1000))",
    );
    reveal_strlit("strftime('%Y-%m-%dT%H:%M:%f000Z', ");
    reveal_strlit(", printf('+%lld.%03lld seconds', ");
    reveal_strlit(" / 1000, ");
    reveal_strlit(" % 1000))");
    reveal_strlit("?");
    assert(term_text(Term::Later) == first + mark + second + mark + third + mark + last);
    lemma_one_mark();
    lemma_unmarked(first);
    lemma_unmarked(second);
    lemma_unmarked(third);
    lemma_unmarked(last);
    lemma_marks_of_both(first, mark);
    lemma_marks_of_both(first + mark, second);
    lemma_marks_of_both(first + mark + second, mark);
    lemma_marks_of_both(first + mark + second + mark, third);
    lemma_marks_of_both(first + mark + second + mark + third, mark);
    lemma_marks_of_both(first + mark + second + mark + third + mark, last);
}

proof fn lemma_states_are_unmarked(state: DeliveryState)
    ensures
        marks(term_text(Term::State(state))) == 0,
{
    reveal_strlit("'");
    reveal_strlit("pending");
    reveal_strlit("claimed");
    reveal_strlit("delivered");
    reveal_strlit("quarantined");
    lemma_unmarked("'"@ + state_text(state) + "'"@);
}

proof fn lemma_columns_are_unmarked(column: Column)
    ensures
        marks(column_text(column)) == 0,
{
    reveal_strlit("state");
    reveal_strlit("available_at");
    reveal_strlit("attempts");
    reveal_strlit("claim_token");
    reveal_strlit("claimed_by");
    reveal_strlit("claim_expires_at");
    reveal_strlit("last_failure_code");
    reveal_strlit("last_failure_detail");
    reveal_strlit("delivered_at");
    reveal_strlit("quarantined_at");
    reveal_strlit("quarantine_reason");
    lemma_unmarked(column_text(column));
}

proof fn lemma_marks_of_assignment(change: Change, now: Seq<char>, assignment: Assignment)
    ensures
        marks(assignment_text(assignment)) == term_values(change, now, assignment.term).len(),
{
    let column = column_text(assignment.column);
    let text = term_text(assignment.term);
    lemma_columns_are_unmarked(assignment.column);
    reveal_strlit(" = ");
    lemma_unmarked(" = "@);
    lemma_marks_of_both(column, " = "@);
    lemma_marks_of_both(column + " = "@, text);
    match assignment.term {
        Term::Null => {
            reveal_strlit("NULL");
            lemma_unmarked("NULL"@);
        },
        Term::State(state) => lemma_states_are_unmarked(state),
        Term::Later => lemma_marks_of_later(),
        _ => lemma_one_mark(),
    }
}

/// Assignments have a value for each of their question marks.
pub proof fn every_question_mark_has_a_value(
    change: Change,
    now: Seq<char>,
    list: Seq<Assignment>,
)
    ensures
        marks(set_text(list)) == set_values(change, now, list).len(),
    decreases list.len(),
{
    if list.len() > 0 {
        lemma_marks_of_assignment(change, now, list.last());
        if list.len() == 1 {
            assert(set_values(change, now, list.drop_last()).len() == 0);
        } else {
            every_question_mark_has_a_value(change, now, list.drop_last());
            let before = set_text(list.drop_last());
            reveal_strlit(", ");
            lemma_unmarked(", "@);
            lemma_marks_of_both(before, ", "@);
            lemma_marks_of_both(before + ", "@, assignment_text(list.last()));
        }
    }
}

proof fn lemma_marks_of_owned_row()
    ensures
        marks(OWNED_ROW@) == 5,
{
    let mark = "?"@;
    let p0 = " WHERE event_row_id = "@;
    let p1 = " AND ("@;
    let p2 = " IS NULL OR tenant_id = "@;
    let p3 = ") AND state = 'claimed' AND claim_token = "@;
    let p4 = " AND claim_expires_at > "@;
    reveal_strlit(
        " WHERE event_row_id = ? AND (? IS NULL OR tenant_id = ?) AND state = 'claimed' AND claim_token = ? AND claim_expires_at > ?",
    );
    reveal_strlit(" WHERE event_row_id = ");
    reveal_strlit(" AND (");
    reveal_strlit(" IS NULL OR tenant_id = ");
    reveal_strlit(") AND state = 'claimed' AND claim_token = ");
    reveal_strlit(" AND claim_expires_at > ");
    reveal_strlit("?");
    assert(OWNED_ROW@ == p0 + mark + p1 + mark + p2 + mark + p3 + mark + p4 + mark);
    lemma_one_mark();
    lemma_unmarked(p0);
    lemma_unmarked(p1);
    lemma_unmarked(p2);
    lemma_unmarked(p3);
    lemma_unmarked(p4);
    lemma_marks_of_both(p0, mark);
    lemma_marks_of_both(p0 + mark, p1);
    lemma_marks_of_both(p0 + mark + p1, mark);
    lemma_marks_of_both(p0 + mark + p1 + mark, p2);
    lemma_marks_of_both(p0 + mark + p1 + mark + p2, mark);
    lemma_marks_of_both(p0 + mark + p1 + mark + p2 + mark, p3);
    lemma_marks_of_both(p0 + mark + p1 + mark + p2 + mark + p3, mark);
    lemma_marks_of_both(p0 + mark + p1 + mark + p2 + mark + p3 + mark, p4);
    lemma_marks_of_both(p0 + mark + p1 + mark + p2 + mark + p3 + mark + p4, mark);
}

proof fn lemma_marks_of_claimed_row()
    ensures
        marks(CLAIMED_ROW@) == 2,
{
    let mark = "?"@;
    let p0 = " WHERE tenant_id = "@;
    let p1 = " AND event_row_id = "@;
    let p2 = " AND (state = 'pending' OR state = 'claimed') RETURNING claim_expires_at"@;
    reveal_strlit(
        " WHERE tenant_id = ? AND event_row_id = ? AND (state = 'pending' OR state = 'claimed') RETURNING claim_expires_at",
    );
    reveal_strlit(" WHERE tenant_id = ");
    reveal_strlit(" AND event_row_id = ");
    reveal_strlit(" AND (state = 'pending' OR state = 'claimed') RETURNING claim_expires_at");
    reveal_strlit("?");
    assert(CLAIMED_ROW@ == p0 + mark + p1 + mark + p2);
    lemma_one_mark();
    lemma_unmarked(p0);
    lemma_unmarked(p1);
    lemma_unmarked(p2);
    lemma_marks_of_both(p0, mark);
    lemma_marks_of_both(p0 + mark, p1);
    lemma_marks_of_both(p0 + mark + p1, mark);
    lemma_marks_of_both(p0 + mark + p1 + mark, p2);
}

proof fn lemma_marks_of_untouched_row()
    ensures
        marks(UNTOUCHED_ROW@) == 3,
{
    let mark = "?"@;
    let p0 = " WHERE tenant_id = "@;
    let p1 = " AND event_row_id = "@;
    let p2 = " AND state = 'pending' AND attempts = 0 AND claim_token IS NULL AND claimed_by IS NULL AND claim_expires_at IS NULL AND last_failure_code IS NULL AND last_failure_detail IS NULL AND delivered_at IS NULL AND quarantined_at IS NULL AND quarantine_reason IS NULL AND available_at = "@;
    reveal_strlit(
        " WHERE tenant_id = ? AND event_row_id = ? AND state = 'pending' AND attempts = 0 AND claim_token IS NULL AND claimed_by IS NULL AND claim_expires_at IS NULL AND last_failure_code IS NULL AND last_failure_detail IS NULL AND delivered_at IS NULL AND quarantined_at IS NULL AND quarantine_reason IS NULL AND available_at = ?",
    );
    reveal_strlit(" WHERE tenant_id = ");
    reveal_strlit(" AND event_row_id = ");
    reveal_strlit(" AND state = 'pending' AND attempts = 0 AND claim_token IS NULL AND claimed_by IS NULL AND claim_expires_at IS NULL AND last_failure_code IS NULL AND last_failure_detail IS NULL AND delivered_at IS NULL AND quarantined_at IS NULL AND quarantine_reason IS NULL AND available_at = ");
    reveal_strlit("?");
    assert(UNTOUCHED_ROW@ == p0 + mark + p1 + mark + p2 + mark);
    lemma_one_mark();
    lemma_unmarked(p0);
    lemma_unmarked(p1);
    lemma_unmarked(p2);
    lemma_marks_of_both(p0, mark);
    lemma_marks_of_both(p0 + mark, p1);
    lemma_marks_of_both(p0 + mark + p1, mark);
    lemma_marks_of_both(p0 + mark + p1 + mark, p2);
    lemma_marks_of_both(p0 + mark + p1 + mark + p2, mark);
}

proof fn lemma_marks_of_update(
    change: Change,
    now: Seq<char>,
    list: Seq<Assignment>,
    condition: Seq<char>,
)
    ensures
        marks(update_text(list, condition)) == set_values(change, now, list).len() + marks(
            condition,
        ),
{
    let start = "UPDATE dovecote_deliveries SET "@;
    reveal_strlit("UPDATE dovecote_deliveries SET ");
    lemma_unmarked(start);
    every_question_mark_has_a_value(change, now, list);
    lemma_marks_of_both(start, set_text(list));
    lemma_marks_of_both(start + set_text(list), condition);
}

/// The statement of a mutation has a value for each of its question marks.
pub proof fn mutation_statements_are_fully_bound(
    mutation: &PreparedMutation,
    now: Seq<char>,
    row_id: int,
    tenant: Option<&str>,
    token: Seq<u8>,
)
    ensures
        marks(update_text(mutation_list(mutation.of_kind()), OWNED_ROW@)) == mutation_values(
            mutation,
            now,
            row_id,
            tenant,
            token,
        ).len(),
{
    lemma_marks_of_owned_row();
    lemma_marks_of_update(
        Change::Mutation(mutation),
        now,
        mutation_list(mutation.of_kind()),
        OWNED_ROW@,
    );
}

/// The statement of a claim has a value for each of its question marks.
pub proof fn claim_statements_are_fully_bound(
    prepared: &PreparedClaim,
    worker: &str,
    lease_ms: i64,
    now: Seq<char>,
)
    ensures
        marks(update_text(claim_list(), CLAIMED_ROW@)) == claim_values(
            prepared,
            worker,
            lease_ms,
            now,
        ).len(),
{
    lemma_marks_of_claimed_row();
    lemma_marks_of_update(
        Change::Claim { prepared, worker, lease_ms },
        now,
        claim_list(),
        CLAIMED_ROW@,
    );
}

/// The statement of a finalization has a value for each of its question marks.
pub proof fn finalize_statements_are_fully_bound(
    delivered_at: &str,
    tenant: Seq<char>,
    row_id: int,
    available_at: Seq<char>,
)
    ensures
        marks(update_text(finalize_list(), UNTOUCHED_ROW@)) == finalize_values(
            delivered_at,
            tenant,
            row_id,
            available_at,
        ).len(),
{
    lemma_marks_of_untouched_row();
    lemma_marks_of_update(
        Change::Finalization { delivered_at },
        available_at,
        finalize_list(),
        UNTOUCHED_ROW@,
    );
}

/// The values of one assignment of a list, and none past its end.
spec fn values_at(change: Change, now: Seq<char>, list: Seq<Assignment>, at: int) -> Seq<
    ParameterView,
> {
    if at < list.len() {
        term_values(change, now, list[at].term)
    } else {
        Seq::empty()
    }
}

proof fn lemma_values_up_to(change: Change, now: Seq<char>, list: Seq<Assignment>, count: int)
    requires
        0 <= count < list.len(),
    ensures
        set_values(change, now, list.take(count + 1)) == set_values(change, now, list.take(count))
            + values_at(change, now, list, count),
{
    assert(list.take(count + 1).drop_last() =~= list.take(count));
}

/// The values of short lists stand in the order of their assignments.
proof fn lemma_values_in_order(change: Change, now: Seq<char>, list: Seq<Assignment>)
    requires
        list.len() <= 7,
    ensures
        set_values(change, now, list) == values_at(change, now, list, 0) + values_at(
            change,
            now,
            list,
            1,
        ) + values_at(change, now, list, 2) + values_at(change, now, list, 3) + values_at(
            change,
            now,
            list,
            4,
        ) + values_at(change, now, list, 5) + values_at(change, now, list, 6),
{
    assert(set_values(change, now, list.take(0)) =~= Seq::empty());
    assert(list.take(list.len() as int) =~= list);
    if list.len() > 0 {
        lemma_values_up_to(change, now, list, 0);
    }
    if list.len() > 1 {
        lemma_values_up_to(change, now, list, 1);
    }
    if list.len() > 2 {
        lemma_values_up_to(change, now, list, 2);
    }
    if list.len() > 3 {
        lemma_values_up_to(change, now, list, 3);
    }
    if list.len() > 4 {
        lemma_values_up_to(change, now, list, 4);
    }
    if list.len() > 5 {
        lemma_values_up_to(change, now, list, 5);
    }
    if list.len() > 6 {
        lemma_values_up_to(change, now, list, 6);
    }
}

/// A mutation is bound to what it was asked for: its duration twice beside the
/// operation time where it sets a later time, its own failure or reason, and then
/// the row, the tenant, the token and the operation time of its condition.
pub proof fn mutations_are_bound_to_what_was_asked(
    mutation: &PreparedMutation,
    operation_time: &str,
    row_id: RowId,
    tenant: Option<&str>,
    token: &[u8; 16],
    parameters: Vec<Parameter>,
)
    requires
        call_ensures(
            mutation_parameters,
            (mutation, operation_time, row_id, tenant, token),
            parameters,
        ),
    ensures
        ({
            let now = ParameterView::Text(operation_time@);
            let scope = match tenant {
                Some(tenant) => ParameterView::Text(tenant@),
                None => ParameterView::Absent,
            };
            let condition = seq![
                ParameterView::Number(row_id@),
                scope,
                scope,
                ParameterView::Bytes(token@),
                now,
            ];
            contents(parameters@) == match *mutation {
                PreparedMutation::Renew { duration_ms } => seq![
                    now,
                    ParameterView::Number(duration_ms as int),
                    ParameterView::Number(duration_ms as int),
                ] + condition,
                PreparedMutation::Ack => seq![now] + condition,
                PreparedMutation::Retry { code, detail, duration_ms } => seq![
                    now,
                    ParameterView::Number(duration_ms as int),
                    ParameterView::Number(duration_ms as int),
                    ParameterView::Text(code@),
                    ParameterView::Text(detail@),
                ] + condition,
                PreparedMutation::Release { duration_ms } => seq![
                    now,
                    ParameterView::Number(duration_ms as int),
                    ParameterView::Number(duration_ms as int),
                ] + condition,
                PreparedMutation::Quarantine { reason } => seq![
                    now,
                    ParameterView::Text(reason@),
                ] + condition,
            }
        }),
{
    lemma_values_in_order(
        Change::Mutation(mutation),
        operation_time@,
        mutation_list(mutation.of_kind()),
    );
}

/// A claim is bound to the attempts and the token that were prepared, to its worker,
/// to the operation time and its lease in milliseconds, and to the tenant and the
/// row that were prepared.
pub proof fn claims_are_bound_to_what_was_prepared(
    prepared: &PreparedClaim,
    worker: &str,
    lease_ms: i64,
    operation_time: &str,
    parameters: Vec<Parameter>,
)
    requires
        call_ensures(claim_parameters, (prepared, worker, lease_ms, operation_time), parameters),
    ensures
        contents(parameters@) == seq![
            ParameterView::Number(prepared@.attempts),
            ParameterView::Bytes(prepared@.token),
            ParameterView::Text(worker@),
            ParameterView::Text(operation_time@),
            ParameterView::Number(lease_ms as int),
            ParameterView::Number(lease_ms as int),
            ParameterView::Text(prepared@.tenant_id),
            ParameterView::Number(prepared@.row_id),
        ],
{
    lemma_values_in_order(
        Change::Claim { prepared, worker, lease_ms },
        operation_time@,
        claim_list(),
    );
}

/// A finalization is bound to its delivery time, and then to the tenant, the row
/// and the time from which the row is available.
pub proof fn finalizations_are_bound_to_their_delivery_time(
    delivered_at: &str,
    tenant: &str,
    row_id: RowId,
    available_at: &str,
    parameters: Vec<Parameter>,
)
    requires
        call_ensures(finalize_parameters, (delivered_at, tenant, row_id, available_at), parameters),
    ensures
        contents(parameters@) == seq![
            ParameterView::Text(delivered_at@),
            ParameterView::Text(tenant@),
            ParameterView::Number(row_id@),
            ParameterView::Text(available_at@),
        ],
{
}

proof fn lemma_text_up_to(list: Seq<Assignment>, count: int)
    requires
        0 < count < list.len(),
    ensures
        set_text(list.take(count + 1)) == set_text(list.take(count)) + ", "@ + assignment_text(
            list[count],
        ),
{
    assert(list.take(count + 1).drop_last() =~= list.take(count));
}

/// The texts of short lists stand in the order of their assignments.
proof fn lemma_text_in_order(list: Seq<Assignment>)
    requires
        0 < list.len() <= 7,
    ensures
        set_text(list) == {
            let t1 = assignment_text(list[0]);
            let t2 = if list.len() > 1 { t1 + ", "@ + assignment_text(list[1]) } else { t1 };
            let t3 = if list.len() > 2 { t2 + ", "@ + assignment_text(list[2]) } else { t2 };
            let t4 = if list.len() > 3 { t3 + ", "@ + assignment_text(list[3]) } else { t3 };
            let t5 = if list.len() > 4 { t4 + ", "@ + assignment_text(list[4]) } else { t4 };
            let t6 = if list.len() > 5 { t5 + ", "@ + assignment_text(list[5]) } else { t5 };
            if list.len() > 6 { t6 + ", "@ + assignment_text(list[6]) } else { t6 }
        },
{
    assert(list.take(1)[0] == list[0]);
    assert(set_text(list.take(1)) == assignment_text(list[0]));
    assert(list.take(list.len() as int) =~= list);
    if list.len() > 1 {
        lemma_text_up_to(list, 1);
    }
    if list.len() > 2 {
        lemma_text_up_to(list, 2);
    }
    if list.len() > 3 {
        lemma_text_up_to(list, 3);
    }
    if list.len() > 4 {
        lemma_text_up_to(list, 4);
    }
    if list.len() > 5 {
        lemma_text_up_to(list, 5);
    }
    if list.len() > 6 {
        lemma_text_up_to(list, 6);
    }
}

/// The statement of every mutation, written out: it updates the one row that its
/// token owns.
pub proof fn mutation_statements_written_out(kind: MutationKind, statement: String)
    requires
        call_ensures(mutation_statement, (kind,), statement),
    ensures
        statement@ == "UPDATE dovecote_deliveries SET "@ + match kind {
            MutationKind::Renew => "claim_expires_at = strftime('%Y-%m-%dT%H:%M:%f000Z', ?, printf('+%lld.%03lld seconds', ? / 1000, ? % 1000))"@,
            MutationKind::Ack => "state = 'delivered', claim_token = NULL, claimed_by = NULL, claim_expires_at = NULL, delivered_at = ?"@,
            MutationKind::Retry => "state = 'pending', available_at = strftime('%Y-%m-%dT%H:%M:%f000Z', ?, printf('+%lld.%03lld seconds', ? / 1000, ? % 1000)), claim_token = NULL, claimed_by = NULL, claim_expires_at = NULL, last_failure_code = ?, last_failure_detail = ?"@,
            MutationKind::Release => "state = 'pending', available_at = strftime('%Y-%m-%dT%H:%M:%f000Z', ?, printf('+%lld.%03lld seconds', ? / 1000, ? % 1000)), claim_token = NULL, claimed_by = NULL, claim_expires_at = NULL"@,
            MutationKind::Quarantine => "state = 'quarantined', claim_token = NULL, claimed_by = NULL, claim_expires_at = NULL, quarantined_at = ?, quarantine_reason = ?"@,
        } + " WHERE event_row_id = ? AND (? IS NULL OR tenant_id = ?) AND state = 'claimed' AND claim_token = ? AND claim_expires_at > ?"@,
{
    reveal_strlit("state");
    reveal_strlit("available_at");
    reveal_strlit("attempts");
    reveal_strlit("claim_token");
    reveal_strlit("claimed_by");
    reveal_strlit("claim_expires_at");
    reveal_strlit("last_failure_code");
    reveal_strlit("last_failure_detail");
    reveal_strlit("delivered_at");
    reveal_strlit("quarantined_at");
    reveal_strlit("quarantine_reason");
    reveal_strlit(" = ");
    reveal_strlit(", ");
    reveal_strlit("'");
    reveal_strlit("NULL");
    reveal_strlit("?");
    reveal_strlit("strftime('%Y-%m-%dT%H:%M:%f000Z', ?, printf('+%lld.%03lld seconds', ? / 1000, ? % 1000))");
    reveal_strlit("pending");
    reveal_strlit("delivered");
    reveal_strlit("quarantined");
    lemma_text_in_order(mutation_list(kind));
    match kind {
        MutationKind::Renew => {
            reveal_strlit(
                "claim_expires_at = strftime('%Y-%m-%dT%H:%M:%f000Z', ?, printf('+%lld.%03lld seconds', ? / 1000, ? % 1000))",
            );
            assert(set_text(mutation_list(kind)) =~= "claim_expires_at = strftime('%Y-%m-%dT%H:%M:%f000Z', ?, printf('+%lld.%03lld seconds', ? / 1000, ? % 1000))"@);
        },
        MutationKind::Ack => {
            reveal_strlit(
                "state = 'delivered', claim_token = NULL, claimed_by = NULL, claim_expires_at = NULL, delivered_at = ?",
            );
            assert(set_text(mutation_list(kind)) =~= "state = 'delivered', claim_token = NULL, claimed_by = NULL, claim_expires_at = NULL, delivered_at = ?"@);
        },
        MutationKind::Retry => {
            reveal_strlit(
                "state = 'pending', available_at = strftime('%Y-%m-%dT%H:%M:%f000Z', ?, printf('+%lld.%03lld seconds', ? / 1000, ? % 1000)), claim_token = NULL, claimed_by = NULL, claim_expires_at = NULL, last_failure_code = ?, last_failure_detail = ?",
            );
            assert(set_text(mutation_list(kind)) =~= "state = 'pending', available_at = strftime('%Y-%m-%dT%H:%M:%f000Z', ?, printf('+%lld.%03lld seconds', ? / 1000, ? % 1000)), claim_token = NULL, claimed_by = NULL, claim_expires_at = NULL, last_failure_code = ?, last_failure_detail = ?"@);
        },
        MutationKind::Release => {
            reveal_strlit(
                "state = 'pending', available_at = strftime('%Y-%m-%dT%H:%M:%f000Z', ?, printf('+%lld.%03lld seconds', ? / 1000, ? % 1000)), claim_token = NULL, claimed_by = NULL, claim_expires_at = NULL",
            );
            assert(set_text(mutation_list(kind)) =~= "state = 'pending', available_at = strftime('%Y-%m-%dT%H:%M:%f000Z', ?, printf('+%lld.%03lld seconds', ? / 1000, ? % 1000)), claim_token = NULL, claimed_by = NULL, claim_expires_at = NULL"@);
        },
        MutationKind::Quarantine => {
            reveal_strlit(
                "state = 'quarantined', claim_token = NULL, claimed_by = NULL, claim_expires_at = NULL, quarantined_at = ?, quarantine_reason = ?",
            );
            assert(set_text(mutation_list(kind)) =~= "state = 'quarantined', claim_token = NULL, claimed_by = NULL, claim_expires_at = NULL, quarantined_at = ?, quarantine_reason = ?"@);
        },
    }
}

/// The statement of a claim, written out.
pub proof fn the_claim_statement_written_out(statement: String)
    requires
        call_ensures(claim_statement, (), statement),
    ensures
        statement@ == "UPDATE dovecote_deliveries SET "@
            + "state = 'claimed', attempts = ?, claim_token = ?, claimed_by = ?, claim_expires_at = strftime('%Y-%m-%dT%H:%M:%f000Z', ?, printf('+%lld.%03lld seconds', ? / 1000, ? % 1000))"@
            + " WHERE tenant_id = ? AND event_row_id = ? AND (state = 'pending' OR state = 'claimed') RETURNING claim_expires_at"@,
{
    reveal_strlit("state");
    reveal_strlit("available_at");
    reveal_strlit("attempts");
    reveal_strlit("claim_token");
    reveal_strlit("claimed_by");
    reveal_strlit("claim_expires_at");
    reveal_strlit("last_failure_code");
    reveal_strlit("last_failure_detail");
    reveal_strlit("delivered_at");
    reveal_strlit("quarantined_at");
    reveal_strlit("quarantine_reason");
    reveal_strlit(" = ");
    reveal_strlit(", ");
    reveal_strlit("'");
    reveal_strlit("NULL");
    reveal_strlit("?");
    reveal_strlit("strftime('%Y-%m-%dT%H:%M:%f000Z', ?, printf('+%lld.%03lld seconds', ? / 1000, ? % 1000))");
    reveal_strlit("claimed");
    lemma_text_in_order(claim_list());
    reveal_strlit(
        "state = 'claimed', attempts = ?, claim_token = ?, claimed_by = ?, claim_expires_at = strftime('%Y-%m-%dT%H:%M:%f000Z', ?, printf('+%lld.%03lld seconds', ? / 1000, ? % 1000))",
    );
    assert(set_text(claim_list()) =~= "state = 'claimed', attempts = ?, claim_token = ?, claimed_by = ?, claim_expires_at = strftime('%Y-%m-%dT%H:%M:%f000Z', ?, printf('+%lld.%03lld seconds', ? / 1000, ? % 1000))"@);
}

/// The statement of a finalization, written out.
pub proof fn the_finalize_statement_written_out(statement: String)
    requires
        call_ensures(finalize_statement, (), statement),
    ensures
        statement@ == "UPDATE dovecote_deliveries SET "@
            + "state = 'delivered', delivered_at = ?"@
            + " WHERE tenant_id = ? AND event_row_id = ? AND state = 'pending' AND attempts = 0 AND claim_token IS NULL AND claimed_by IS NULL AND claim_expires_at IS NULL AND last_failure_code IS NULL AND last_failure_detail IS NULL AND delivered_at IS NULL AND quarantined_at IS NULL AND quarantine_reason IS NULL AND available_at = ?"@,
{
    reveal_strlit("state");
    reveal_strlit("available_at");
    reveal_strlit("attempts");
    reveal_strlit("claim_token");
    reveal_strlit("claimed_by");
    reveal_strlit("claim_expires_at");
    reveal_strlit("last_failure_code");
    reveal_strlit("last_failure_detail");
    reveal_strlit("delivered_at");
    reveal_strlit("quarantined_at");
    reveal_strlit("quarantine_reason");
    reveal_strlit(" = ");
    reveal_strlit(", ");
    reveal_strlit("'");
    reveal_strlit("NULL");
    reveal_strlit("?");
    reveal_strlit("strftime('%Y-%m-%dT%H:%M:%f000Z', ?, printf('+%lld.%03lld seconds', ? / 1000, ? % 1000))");
    reveal_strlit("delivered");
    lemma_text_in_order(finalize_list());
    reveal_strlit("state = 'delivered', delivered_at = ?");
    assert(set_text(finalize_list()) =~= "state = 'delivered', delivered_at = ?"@);
}

} // verus!
