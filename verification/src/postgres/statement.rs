//! Transitions as PostgreSQL update statements, with the values that they are bound
//! to.
//!
//! Parameters are numbered. Those of the assignments follow each other in the
//! order of the assignments.

use crate::claim::PreparedClaim;
use crate::instant::Instant;
use crate::postgres::lifecycle_mutation::Mutation;
use crate::text::{decimal, decimal_text};
use crate::transition::{
    claim_assignments, claim_list, column_text, finalize_assignments, finalize_list,
    mutation_assignments, mutation_list, Assignment, MutationKind, Term,
};
use crate::value::{state_name, state_text, RowId};
use std::time::Duration;
use vstd::prelude::*;
use vstd::slice::slice_to_vec;

verus! {

/// Whether a term takes a parameter of its own.
pub open spec fn is_bound(term: Term) -> bool {
    match term {
        Term::Null => false,
        Term::State(_) => false,
        Term::OperationTime => false,
        _ => true,
    }
}

/// Tells whether a term takes a parameter of its own.
pub fn takes_parameter(term: Term) -> (bound: bool)
    ensures
        bound == is_bound(term),
{
    match term {
        Term::Null => false,
        Term::State(_) => false,
        Term::OperationTime => false,
        _ => true,
    }
}

/// How many parameters assignments take.
pub open spec fn parameters(list: Seq<Assignment>) -> nat
    decreases list.len(),
{
    if list.len() == 0 {
        0
    } else if is_bound(list.last().term) {
        parameters(list.drop_last()) + 1
    } else {
        parameters(list.drop_last())
    }
}

/// A term in PostgreSQL's dialect, where `now` stands for the operation time and
/// `number` is that of the term's parameter, if it takes one.
pub open spec fn term_text(term: Term, now: Seq<char>, number: nat) -> Seq<char> {
    match term {
        Term::Null => "NULL"@,
        Term::State(state) => "'"@ + state_text(state) + "'"@,
        Term::OperationTime => now,
        Term::Later => now + " + $"@ + decimal_text(number),
        _ => "$"@ + decimal_text(number),
    }
}

/// Assignments in PostgreSQL's dialect, separated by commas, with parameters from
/// `first` on.
pub open spec fn set_text(list: Seq<Assignment>, now: Seq<char>, first: nat) -> Seq<char>
    decreases list.len(),
{
    if list.len() == 0 {
        Seq::empty()
    } else {
        let before = list.drop_last();
        let entry = column_text(list.last().column) + " = "@ + term_text(
            list.last().term,
            now,
            first + parameters(before),
        );
        if before.len() == 0 {
            entry
        } else {
            set_text(before, now, first) + ", "@ + entry
        }
    }
}

fn written(term: Term, now: &str, number: u64) -> (text: String)
    ensures
        text@ == term_text(term, now@, number as nat),
{
    match term {
        Term::Null => "NULL".to_owned(),
        Term::State(state) => "'".to_owned().concat(state_name(state)).concat("'"),
        Term::OperationTime => now.to_owned(),
        Term::Later => now.to_owned().concat(" + $").concat(decimal(number).as_str()),
        _ => "$".to_owned().concat(decimal(number).as_str()),
    }
}

/// Writes assignments in PostgreSQL's dialect.
pub fn set_clause(list: &Vec<Assignment>, now: &str, first: u32) -> (text: String)
    requires
        list@.len() <= u32::MAX,
    ensures
        text@ == set_text(list@, now@, first as nat),
{
    let mut text = String::new();
    let mut number: u64 = first as u64;
    let mut index: usize = 0;
    assert(text@ =~= set_text(list@.take(0), now@, first as nat));
    while index < list.len()
        invariant
            list@.len() <= u32::MAX,
            index <= list@.len(),
            number == first + parameters(list@.take(index as int)),
            number <= first + index,
            text@ == set_text(list@.take(index as int), now@, first as nat),
        decreases list@.len() - index,
    {
        let entry = list[index].column.name().to_owned().concat(" = ").concat(
            written(list[index].term, now, number).as_str(),
        );
        proof {
            let longer = list@.take(index + 1);
            assert(longer.drop_last() =~= list@.take(index as int));
            assert(longer.last() == list@[index as int]);
        }
        if index == 0 {
            text = entry;
        } else {
            text = text.concat(", ").concat(entry.as_str());
        }
        if takes_parameter(list[index].term) {
            number = number + 1;
        }
        index = index + 1;
    }
    assert(list@.take(list@.len() as int) =~= list@);
    text
}

/// The start of a mutation. The row is locked before the clock is read, so a
/// worker that waited for the lock never acts on a time from before the wait.
/// The parameters are the tenant, or none, and the row.
pub const LOCKED_ROW: &'static str = "WITH locked AS MATERIALIZED (SELECT event_row_id FROM dovecote_deliveries WHERE ($1::varchar IS NULL OR tenant_id = $1) AND event_row_id = $2 FOR UPDATE), operation AS MATERIALIZED (SELECT locked.event_row_id, clock_timestamp() AS operation_time FROM locked) UPDATE dovecote_deliveries AS delivery SET ";

/// The condition of a mutation: the locked row, if the holder of the token in the
/// third parameter owns it.
pub const OWNED_ROW: &'static str = " FROM operation WHERE ($1::varchar IS NULL OR delivery.tenant_id = $1) AND delivery.event_row_id = operation.event_row_id AND delivery.state = 'claimed' AND delivery.claim_token = $3 AND delivery.claim_expires_at > operation.operation_time";

/// The statement of a mutation, with the parameters of its assignments from the
/// fourth on.
pub fn mutation_statement(kind: MutationKind) -> (statement: String)
    ensures
        statement@ == LOCKED_ROW@ + set_text(mutation_list(kind), "operation.operation_time"@, 4)
            + OWNED_ROW@,
{
    LOCKED_ROW.to_owned().concat(
        set_clause(&mutation_assignments(kind), "operation.operation_time", 4).as_str(),
    ).concat(OWNED_ROW)
}

/// The condition of a claim: the row of a tenant that can still be claimed.
pub const CLAIMED_ROW: &'static str = " WHERE tenant_id = $1 AND event_row_id = $2 AND (state = 'pending' OR state = 'claimed') RETURNING claim_expires_at";

/// The statement of a claim. The parameters are the tenant, the row and the
/// operation time, then those of the assignments.
pub fn claim_statement() -> (statement: String)
    ensures
        statement@ == "UPDATE dovecote_deliveries SET "@ + set_text(claim_list(), "$3"@, 4)
            + CLAIMED_ROW@,
{
    "UPDATE dovecote_deliveries SET ".to_owned().concat(
        set_clause(&claim_assignments(), "$3", 4).as_str(),
    ).concat(CLAIMED_ROW)
}

/// The condition of a finalization: the untouched pending row of a tenant.
pub const UNTOUCHED_ROW: &'static str = " WHERE tenant_id = $1 AND event_row_id = $2 AND state = 'pending' AND attempts = 0 AND claim_token IS NULL AND claimed_by IS NULL AND claim_expires_at IS NULL AND last_failure_code IS NULL AND last_failure_detail IS NULL AND delivered_at IS NULL AND quarantined_at IS NULL AND quarantine_reason IS NULL AND available_at = $3";

/// The statement of a finalization. The parameters are the tenant, the row and the
/// time from which it is available, then those of the assignments.
pub fn finalize_statement() -> (statement: String)
    ensures
        statement@ == "UPDATE dovecote_deliveries SET "@ + set_text(
            finalize_list(),
            "clock_timestamp()"@,
            4,
        ) + UNTOUCHED_ROW@,
{
    "UPDATE dovecote_deliveries SET ".to_owned().concat(
        set_clause(&finalize_assignments(), "clock_timestamp()", 4).as_str(),
    ).concat(UNTOUCHED_ROW)
}

/// A value that a statement is bound to.
#[derive(Debug)]
pub enum Parameter {
    /// No value.
    Absent,
    /// A text.
    Text(String),
    /// A number.
    Number(i64),
    /// Bytes.
    Bytes(Vec<u8>),
    /// A time.
    Time(Instant),
    /// A duration.
    Span(Duration),
}

/// The mathematical content of a parameter.
pub ghost enum ParameterView {
    Absent,
    Text(Seq<char>),
    Number(int),
    Bytes(Seq<u8>),
    Time(int),
    Span(Duration),
}

impl View for Parameter {
    type V = ParameterView;

    open spec fn view(&self) -> ParameterView {
        match self {
            Parameter::Absent => ParameterView::Absent,
            Parameter::Text(text) => ParameterView::Text(text@),
            Parameter::Number(number) => ParameterView::Number(*number as int),
            Parameter::Bytes(bytes) => ParameterView::Bytes(bytes@),
            Parameter::Time(time) => ParameterView::Time(time@),
            Parameter::Span(span) => ParameterView::Span(*span),
        }
    }
}

/// The contents of parameters, in order.
pub open spec fn contents(list: Seq<Parameter>) -> Seq<ParameterView> {
    list.map_values(|parameter: Parameter| parameter@)
}

/// A transition with the values that its terms stand for.
pub enum Change<'a> {
    /// A mutation by the holder of a claim.
    Mutation(&'a Mutation),
    /// A claim for a worker and a lease.
    Claim { prepared: &'a PreparedClaim, worker: &'a str, lease: Duration },
    /// A finalization with its delivery time.
    Finalization { delivered_at: Instant },
}

/// What a term stands for in a transition, if it is not written out in the
/// statement. A term that the transition has no value for stands for none.
pub open spec fn term_value(change: Change, term: Term) -> ParameterView {
    match (term, change) {
        (Term::Later, Change::Mutation(mutation)) => match mutation.duration() {
            Some(duration) => ParameterView::Span(duration),
            None => ParameterView::Absent,
        },
        (Term::Later, Change::Claim { lease, .. }) => ParameterView::Span(lease),
        (Term::Attempts, Change::Claim { prepared, .. }) => ParameterView::Number(
            prepared@.attempts,
        ),
        (Term::Token, Change::Claim { prepared, .. }) => ParameterView::Bytes(prepared@.token),
        (Term::Worker, Change::Claim { worker, .. }) => ParameterView::Text(worker@),
        (
            Term::FailureCode,
            Change::Mutation(Mutation::Retry { code, .. }),
        ) => ParameterView::Text(code@),
        (
            Term::FailureDetail,
            Change::Mutation(Mutation::Retry { detail, .. }),
        ) => ParameterView::Text(detail@),
        (
            Term::Reason,
            Change::Mutation(Mutation::Quarantine { reason }),
        ) => ParameterView::Text(reason@),
        (Term::DeliveryTime, Change::Finalization { delivered_at }) => ParameterView::Time(
            delivered_at@,
        ),
        _ => ParameterView::Absent,
    }
}

/// The values of the parameters of assignments, in order.
pub open spec fn set_values(change: Change, list: Seq<Assignment>) -> Seq<ParameterView>
    decreases list.len(),
{
    if list.len() == 0 {
        Seq::empty()
    } else if is_bound(list.last().term) {
        set_values(change, list.drop_last()).push(term_value(change, list.last().term))
    } else {
        set_values(change, list.drop_last())
    }
}

/// Assignments have a value for each of their parameters.
pub proof fn every_parameter_has_a_value(change: Change, list: Seq<Assignment>)
    ensures
        set_values(change, list).len() == parameters(list),
    decreases list.len(),
{
    if list.len() > 0 {
        every_parameter_has_a_value(change, list.drop_last());
    }
}

fn bound(change: &Change, term: Term) -> (parameter: Parameter)
    ensures
        parameter@ == term_value(*change, term),
{
    match (term, change) {
        (Term::Later, Change::Mutation(mutation)) => match mutation {
            Mutation::Renew { lease } => Parameter::Span(*lease),
            Mutation::Retry { backoff, .. } => Parameter::Span(*backoff),
            Mutation::Release { delay } => Parameter::Span(*delay),
            _ => Parameter::Absent,
        },
        (Term::Later, Change::Claim { lease, .. }) => Parameter::Span(*lease),
        (Term::Attempts, Change::Claim { prepared, .. }) => Parameter::Number(prepared.attempts()),
        (Term::Token, Change::Claim { prepared, .. }) => Parameter::Bytes(
            slice_to_vec(prepared.token().as_slice()),
        ),
        (Term::Worker, Change::Claim { worker, .. }) => Parameter::Text((*worker).to_owned()),
        (Term::FailureCode, Change::Mutation(Mutation::Retry { code, .. })) => {
            Parameter::Text(code.as_str().to_owned())
        },
        (Term::FailureDetail, Change::Mutation(Mutation::Retry { detail, .. })) => {
            Parameter::Text(detail.as_str().to_owned())
        },
        (Term::Reason, Change::Mutation(Mutation::Quarantine { reason })) => {
            Parameter::Text(reason.as_str().to_owned())
        },
        (Term::DeliveryTime, Change::Finalization { delivered_at }) => Parameter::Time(
            *delivered_at,
        ),
        _ => Parameter::Absent,
    }
}

/// Appends the values of the parameters of assignments, in order.
fn set_parameters(change: &Change, list: &Vec<Assignment>, first: Vec<Parameter>) -> (values: Vec<
    Parameter,
>)
    ensures
        contents(values@) == contents(first@) + set_values(*change, list@),
{
    let mut values = first;
    let mut index: usize = 0;
    assert(contents(values@) =~= contents(first@) + set_values(*change, list@.take(0)));
    while index < list.len()
        invariant
            index <= list@.len(),
            contents(values@) == contents(first@) + set_values(
                *change,
                list@.take(index as int),
            ),
        decreases list@.len() - index,
    {
        let term = list[index].term;
        let ghost before = values@;
        assert(list@.take(index + 1).drop_last() =~= list@.take(index as int));
        if takes_parameter(term) {
            values.push(bound(change, term));
            assert(contents(values@) =~= contents(before).push(term_value(*change, term)));
        }
        assert(contents(values@) =~= contents(first@) + set_values(*change, list@.take(index + 1)));
        index = index + 1;
    }
    assert(list@.take(list@.len() as int) =~= list@);
    values
}

/// A tenant as a parameter, absent where a statement spans all tenants.
pub open spec fn scope_value(tenant: Option<&str>) -> ParameterView {
    match tenant {
        Some(tenant) => ParameterView::Text(tenant@),
        None => ParameterView::Absent,
    }
}

fn scope(tenant: Option<&str>) -> (parameter: Parameter)
    ensures
        parameter@ == scope_value(tenant),
{
    match tenant {
        Some(tenant) => Parameter::Text(tenant.to_owned()),
        None => Parameter::Absent,
    }
}

/// The parameters of a mutation's statement: the tenant, or none, the row and the
/// token, then those of its assignments.
pub fn mutation_parameters(
    mutation: &Mutation,
    row_id: RowId,
    tenant: Option<&str>,
    token: &[u8; 16],
) -> (values: Vec<Parameter>)
    ensures
        contents(values@) == seq![
            scope_value(tenant),
            ParameterView::Number(row_id@),
            ParameterView::Bytes(token@),
        ] + set_values(Change::Mutation(mutation), mutation_list(mutation.of_kind())),
{
    let change = Change::Mutation(mutation);
    let list = mutation_assignments(mutation.kind());
    let first = vec![
        scope(tenant),
        Parameter::Number(row_id.get()),
        Parameter::Bytes(slice_to_vec(token.as_slice())),
    ];
    assert(contents(first@) =~= seq![
        scope_value(tenant),
        ParameterView::Number(row_id@),
        ParameterView::Bytes(token@),
    ]);
    set_parameters(&change, &list, first)
}

/// The parameters of a claim's statement: the tenant, the row and the operation
/// time, then those of its assignments.
pub fn claim_parameters(
    prepared: &PreparedClaim,
    worker: &str,
    lease: Duration,
    operation_time: Instant,
) -> (values: Vec<Parameter>)
    ensures
        contents(values@) == seq![
            ParameterView::Text(prepared@.tenant_id),
            ParameterView::Number(prepared@.row_id),
            ParameterView::Time(operation_time@),
        ] + set_values((Change::Claim { prepared, worker, lease }), claim_list()),
{
    let change = Change::Claim { prepared, worker, lease };
    let list = claim_assignments();
    let first = vec![
        Parameter::Text(prepared.tenant_id().to_owned()),
        Parameter::Number(prepared.row_id().get()),
        Parameter::Time(operation_time),
    ];
    assert(contents(first@) =~= seq![
        ParameterView::Text(prepared@.tenant_id),
        ParameterView::Number(prepared@.row_id),
        ParameterView::Time(operation_time@),
    ]);
    set_parameters(&change, &list, first)
}

/// The parameters of a finalization's statement: the tenant, the row and the time
/// from which it is available, then those of its assignments.
pub fn finalize_parameters(
    delivered_at: Instant,
    tenant: &str,
    row_id: RowId,
    available_at: Instant,
) -> (values: Vec<Parameter>)
    ensures
        contents(values@) == seq![
            ParameterView::Text(tenant@),
            ParameterView::Number(row_id@),
            ParameterView::Time(available_at@),
            ParameterView::Time(delivered_at@),
        ],
        contents(values@).skip(3) == set_values(
            (Change::Finalization { delivered_at }),
            finalize_list(),
        ),
{
    let change = Change::Finalization { delivered_at };
    let list = finalize_assignments();
    let first = vec![
        Parameter::Text(tenant.to_owned()),
        Parameter::Number(row_id.get()),
        Parameter::Time(available_at),
    ];
    proof {
        reveal_with_fuel(set_values, 3);
        assert(list@.drop_last().drop_last() =~= Seq::<Assignment>::empty());
        assert(set_values(change, list@) =~= seq![ParameterView::Time(delivered_at@)]);
        assert(contents(first@) =~= seq![
            ParameterView::Text(tenant@),
            ParameterView::Number(row_id@),
            ParameterView::Time(available_at@),
        ]);
    }
    set_parameters(&change, &list, first)
}

/// One assignment of a list, with the number of its parameter.
spec fn entry_at(list: Seq<Assignment>, now: Seq<char>, first: nat, at: int) -> Seq<char> {
    column_text(list[at].column) + " = "@ + term_text(
        list[at].term,
        now,
        first + parameters(list.take(at)),
    )
}

/// The values of one assignment of a list, and none past its end.
spec fn values_at(change: Change, list: Seq<Assignment>, at: int) -> Seq<ParameterView> {
    if at < list.len() && is_bound(list[at].term) {
        seq![term_value(change, list[at].term)]
    } else {
        Seq::empty()
    }
}

/// How many parameters one assignment of a list takes.
spec fn count_at(list: Seq<Assignment>, at: int) -> nat {
    if at < list.len() && is_bound(list[at].term) {
        1
    } else {
        0
    }
}

proof fn lemma_entry(list: Seq<Assignment>, now: Seq<char>, first: nat, count: int)
    requires
        0 <= count < list.len(),
    ensures
        set_text(list.take(count + 1), now, first) == if count == 0 {
            entry_at(list, now, first, 0)
        } else {
            set_text(list.take(count), now, first) + ", "@ + entry_at(list, now, first, count)
        },
        parameters(list.take(count + 1)) == parameters(list.take(count)) + count_at(list, count),
{
    assert(list.take(count + 1).drop_last() =~= list.take(count));
}

proof fn lemma_value(change: Change, list: Seq<Assignment>, count: int)
    requires
        0 <= count < list.len(),
    ensures
        set_values(change, list.take(count + 1)) == set_values(change, list.take(count))
            + values_at(change, list, count),
{
    assert(list.take(count + 1).drop_last() =~= list.take(count));
    assert(set_values(change, list.take(count + 1)) =~= set_values(change, list.take(count))
        + values_at(change, list, count));
}

/// The values of short lists stand in the order of their assignments.
proof fn lemma_values_in_order(change: Change, list: Seq<Assignment>)
    requires
        list.len() <= 7,
    ensures
        set_values(change, list) == values_at(change, list, 0) + values_at(change, list, 1)
            + values_at(change, list, 2) + values_at(change, list, 3) + values_at(change, list, 4)
            + values_at(change, list, 5) + values_at(change, list, 6),
{
    assert(list.take(list.len() as int) =~= list);
    assert(set_values(change, list.take(0)) =~= Seq::<ParameterView>::empty());
    if list.len() > 0 {
        lemma_value(change, list, 0);
    }
    if list.len() > 1 {
        lemma_value(change, list, 1);
    }
    if list.len() > 2 {
        lemma_value(change, list, 2);
    }
    if list.len() > 3 {
        lemma_value(change, list, 3);
    }
    if list.len() > 4 {
        lemma_value(change, list, 4);
    }
    if list.len() > 5 {
        lemma_value(change, list, 5);
    }
    if list.len() > 6 {
        lemma_value(change, list, 6);
    }
}

/// The parameters of short lists are numbered in the order of their assignments.
proof fn lemma_numbers_in_order(list: Seq<Assignment>)
    requires
        list.len() <= 7,
    ensures
        parameters(list.take(0)) == 0,
        list.len() > 0 ==> parameters(list.take(1)) == count_at(list, 0),
        list.len() > 1 ==> parameters(list.take(2)) == count_at(list, 0) + count_at(list, 1),
        list.len() > 2 ==> parameters(list.take(3)) == count_at(list, 0) + count_at(list, 1)
            + count_at(list, 2),
        list.len() > 3 ==> parameters(list.take(4)) == count_at(list, 0) + count_at(list, 1)
            + count_at(list, 2) + count_at(list, 3),
        list.len() > 4 ==> parameters(list.take(5)) == count_at(list, 0) + count_at(list, 1)
            + count_at(list, 2) + count_at(list, 3) + count_at(list, 4),
        list.len() > 5 ==> parameters(list.take(6)) == count_at(list, 0) + count_at(list, 1)
            + count_at(list, 2) + count_at(list, 3) + count_at(list, 4) + count_at(list, 5),
{
    if list.len() > 0 {
        lemma_entry(list, Seq::empty(), 0, 0);
    }
    if list.len() > 1 {
        lemma_entry(list, Seq::empty(), 0, 1);
    }
    if list.len() > 2 {
        lemma_entry(list, Seq::empty(), 0, 2);
    }
    if list.len() > 3 {
        lemma_entry(list, Seq::empty(), 0, 3);
    }
    if list.len() > 4 {
        lemma_entry(list, Seq::empty(), 0, 4);
    }
    if list.len() > 5 {
        lemma_entry(list, Seq::empty(), 0, 5);
    }
    if list.len() > 6 {
        lemma_entry(list, Seq::empty(), 0, 6);
    }
}

/// The texts of short lists stand in the order of their assignments.
proof fn lemma_text_in_order(list: Seq<Assignment>, now: Seq<char>, first: nat)
    requires
        0 < list.len() <= 7,
    ensures
        set_text(list, now, first) == {
            let t1 = entry_at(list, now, first, 0);
            let t2 = if list.len() > 1 { t1 + ", "@ + entry_at(list, now, first, 1) } else { t1 };
            let t3 = if list.len() > 2 { t2 + ", "@ + entry_at(list, now, first, 2) } else { t2 };
            let t4 = if list.len() > 3 { t3 + ", "@ + entry_at(list, now, first, 3) } else { t3 };
            let t5 = if list.len() > 4 { t4 + ", "@ + entry_at(list, now, first, 4) } else { t4 };
            let t6 = if list.len() > 5 { t5 + ", "@ + entry_at(list, now, first, 5) } else { t5 };
            if list.len() > 6 { t6 + ", "@ + entry_at(list, now, first, 6) } else { t6 }
        },
{
    assert(list.take(list.len() as int) =~= list);
    if list.len() > 0 {
        lemma_entry(list, now, first, 0);
    }
    if list.len() > 1 {
        lemma_entry(list, now, first, 1);
    }
    if list.len() > 2 {
        lemma_entry(list, now, first, 2);
    }
    if list.len() > 3 {
        lemma_entry(list, now, first, 3);
    }
    if list.len() > 4 {
        lemma_entry(list, now, first, 4);
    }
    if list.len() > 5 {
        lemma_entry(list, now, first, 5);
    }
    if list.len() > 6 {
        lemma_entry(list, now, first, 6);
    }
}

/// A mutation is bound to what it was asked for: the tenant, the row and the token
/// of its condition, and then its own duration, failure or reason.
pub proof fn mutations_are_bound_to_what_was_asked(
    mutation: &Mutation,
    row_id: RowId,
    tenant: Option<&str>,
    token: &[u8; 16],
    values: Vec<Parameter>,
)
    requires
        call_ensures(mutation_parameters, (mutation, row_id, tenant, token), values),
    ensures
        ({
            let scope = match tenant {
                Some(tenant) => ParameterView::Text(tenant@),
                None => ParameterView::Absent,
            };
            let row = ParameterView::Number(row_id@);
            let held = ParameterView::Bytes(token@);
            contents(values@) == match *mutation {
                Mutation::Renew { lease } => seq![scope, row, held, ParameterView::Span(lease)],
                Mutation::Ack => seq![scope, row, held],
                Mutation::Retry { code, detail, backoff } => seq![
                    scope,
                    row,
                    held,
                    ParameterView::Span(backoff),
                    ParameterView::Text(code@),
                    ParameterView::Text(detail@),
                ],
                Mutation::Release { delay } => seq![scope, row, held, ParameterView::Span(delay)],
                Mutation::Quarantine { reason } => seq![
                    scope,
                    row,
                    held,
                    ParameterView::Text(reason@),
                ],
            }
        }),
{
    lemma_values_in_order(Change::Mutation(mutation), mutation_list(mutation.of_kind()));
}

/// A claim is bound to the tenant and the row that were prepared, to the operation
/// time, to the attempts and the token that were prepared, to its worker and to its
/// lease.
pub proof fn claims_are_bound_to_what_was_prepared(
    prepared: &PreparedClaim,
    worker: &str,
    lease: Duration,
    operation_time: Instant,
    values: Vec<Parameter>,
)
    requires
        call_ensures(claim_parameters, (prepared, worker, lease, operation_time), values),
    ensures
        contents(values@) == seq![
            ParameterView::Text(prepared@.tenant_id),
            ParameterView::Number(prepared@.row_id),
            ParameterView::Time(operation_time@),
            ParameterView::Number(prepared@.attempts),
            ParameterView::Bytes(prepared@.token),
            ParameterView::Text(worker@),
            ParameterView::Span(lease),
        ],
{
    lemma_values_in_order(Change::Claim { prepared, worker, lease }, claim_list());
}

/// A finalization is bound to the tenant, the row and the time from which the row
/// is available, and then to its delivery time.
pub proof fn finalizations_are_bound_to_their_delivery_time(
    delivered_at: Instant,
    tenant: &str,
    row_id: RowId,
    available_at: Instant,
    values: Vec<Parameter>,
)
    requires
        call_ensures(finalize_parameters, (delivered_at, tenant, row_id, available_at), values),
    ensures
        contents(values@) == seq![
            ParameterView::Text(tenant@),
            ParameterView::Number(row_id@),
            ParameterView::Time(available_at@),
            ParameterView::Time(delivered_at@),
        ],
{
}

/// The statement of every mutation, written out: it locks the row, reads the clock,
/// and updates the one row that its token owns.
pub proof fn mutation_statements_written_out(kind: MutationKind, statement: String)
    requires
        call_ensures(mutation_statement, (kind,), statement),
    ensures
        statement@ == "WITH locked AS MATERIALIZED (SELECT event_row_id FROM dovecote_deliveries WHERE ($1::varchar IS NULL OR tenant_id = $1) AND event_row_id = $2 FOR UPDATE), operation AS MATERIALIZED (SELECT locked.event_row_id, clock_timestamp() AS operation_time FROM locked) UPDATE dovecote_deliveries AS delivery SET "@
            + match kind {
            MutationKind::Renew => "claim_expires_at = operation.operation_time + $4"@,
            MutationKind::Ack => "state = 'delivered', claim_token = NULL, claimed_by = NULL, claim_expires_at = NULL, delivered_at = operation.operation_time"@,
            MutationKind::Retry => "state = 'pending', available_at = operation.operation_time + $4, claim_token = NULL, claimed_by = NULL, claim_expires_at = NULL, last_failure_code = $5, last_failure_detail = $6"@,
            MutationKind::Release => "state = 'pending', available_at = operation.operation_time + $4, claim_token = NULL, claimed_by = NULL, claim_expires_at = NULL"@,
            MutationKind::Quarantine => "state = 'quarantined', claim_token = NULL, claimed_by = NULL, claim_expires_at = NULL, quarantined_at = operation.operation_time, quarantine_reason = $4"@,
        }
            + " FROM operation WHERE ($1::varchar IS NULL OR delivery.tenant_id = $1) AND delivery.event_row_id = operation.event_row_id AND delivery.state = 'claimed' AND delivery.claim_token = $3 AND delivery.claim_expires_at > operation.operation_time"@,
{
    reveal_strlit("state");
    reveal_strlit("available_at");
    reveal_strlit("attempts");
    reveal_strlit("claim_token");
    reveal_strlit("claimed_by");
    reveal_strlit("claim_expires_at");
    reveal_strlit("last_failure_code");
    reveal_strlit("last_failure_detail");
    reveal_strlit("delivered_at");
    reveal_strlit("quarantined_at");
    reveal_strlit("quarantine_reason");
    reveal_strlit(" = ");
    reveal_strlit(", ");
    reveal_strlit("'");
    reveal_strlit("NULL");
    reveal_strlit("$");
    reveal_strlit(" + $");
    reveal_strlit("pending");
    reveal_strlit("delivered");
    reveal_strlit("quarantined");
    reveal_strlit("operation.operation_time");
    assert(decimal_text(4) =~= seq!['4']);
    assert(decimal_text(5) =~= seq!['5']);
    assert(decimal_text(6) =~= seq!['6']);
    assert(decimal_text(7) =~= seq!['7']);
    lemma_numbers_in_order(mutation_list(kind));
    lemma_text_in_order(mutation_list(kind), "operation.operation_time"@, 4);
    match kind {
        MutationKind::Renew => {
            reveal_strlit(
                "claim_expires_at = operation.operation_time + $4",
            );
            assert(set_text(mutation_list(kind), "operation.operation_time"@, 4)
                =~= "claim_expires_at = operation.operation_time + $4"@);
        },
        MutationKind::Ack => {
            reveal_strlit(
                "state = 'delivered', claim_token = NULL, claimed_by = NULL, claim_expires_at = NULL, delivered_at = operation.operation_time",
            );
            assert(set_text(mutation_list(kind), "operation.operation_time"@, 4)
                =~= "state = 'delivered', claim_token = NULL, claimed_by = NULL, claim_expires_at = NULL, delivered_at = operation.operation_time"@);
        },
        MutationKind::Retry => {
            reveal_strlit(
                "state = 'pending', available_at = operation.operation_time + $4, claim_token = NULL, claimed_by = NULL, claim_expires_at = NULL, last_failure_code = $5, last_failure_detail = $6",
            );
            assert(set_text(mutation_list(kind), "operation.operation_time"@, 4)
                =~= "state = 'pending', available_at = operation.operation_time + $4, claim_token = NULL, claimed_by = NULL, claim_expires_at = NULL, last_failure_code = $5, last_failure_detail = $6"@);
        },
        MutationKind::Release => {
            reveal_strlit(
                "state = 'pending', available_at = operation.operation_time + $4, claim_token = NULL, claimed_by = NULL, claim_expires_at = NULL",
            );
            assert(set_text(mutation_list(kind), "operation.operation_time"@, 4)
                =~= "state = 'pending', available_at = operation.operation_time + $4, claim_token = NULL, claimed_by = NULL, claim_expires_at = NULL"@);
        },
        MutationKind::Quarantine => {
            reveal_strlit(
                "state = 'quarantined', claim_token = NULL, claimed_by = NULL, claim_expires_at = NULL, quarantined_at = operation.operation_time, quarantine_reason = $4",
            );
            assert(set_text(mutation_list(kind), "operation.operation_time"@, 4)
                =~= "state = 'quarantined', claim_token = NULL, claimed_by = NULL, claim_expires_at = NULL, quarantined_at = operation.operation_time, quarantine_reason = $4"@);
        },
    }
}

/// The statement of a claim, written out.
pub proof fn the_claim_statement_written_out(statement: String)
    requires
        call_ensures(claim_statement, (), statement),
    ensures
        statement@ == "UPDATE dovecote_deliveries SET "@
            + "state = 'claimed', attempts = $4, claim_token = $5, claimed_by = $6, claim_expires_at = $3 + $7"@
            + " WHERE tenant_id = $1 AND event_row_id = $2 AND (state = 'pending' OR state = 'claimed') RETURNING claim_expires_at"@,
{
    reveal_strlit("state");
    reveal_strlit("available_at");
    reveal_strlit("attempts");
    reveal_strlit("claim_token");
    reveal_strlit("claimed_by");
    reveal_strlit("claim_expires_at");
    reveal_strlit("last_failure_code");
    reveal_strlit("last_failure_detail");
    reveal_strlit("delivered_at");
    reveal_strlit("quarantined_at");
    reveal_strlit("quarantine_reason");
    reveal_strlit(" = ");
    reveal_strlit(", ");
    reveal_strlit("'");
    reveal_strlit("NULL");
    reveal_strlit("$");
    reveal_strlit(" + $");
    reveal_strlit("claimed");
    reveal_strlit("$3");
    assert(decimal_text(4) =~= seq!['4']);
    assert(decimal_text(5) =~= seq!['5']);
    assert(decimal_text(6) =~= seq!['6']);
    assert(decimal_text(7) =~= seq!['7']);
    lemma_numbers_in_order(claim_list());
    lemma_text_in_order(claim_list(), "$3"@, 4);
    reveal_strlit(
        "state = 'claimed', attempts = $4, claim_token = $5, claimed_by = $6, claim_expires_at = $3 + $7",
    );
    assert(set_text(claim_list(), "$3"@, 4)
        =~= "state = 'claimed', attempts = $4, claim_token = $5, claimed_by = $6, claim_expires_at = $3 + $7"@);
}

/// The statement of a finalization, written out.
pub proof fn the_finalize_statement_written_out(statement: String)
    requires
        call_ensures(finalize_statement, (), statement),
    ensures
        statement@ == "UPDATE dovecote_deliveries SET "@ + "state = 'delivered', delivered_at = $4"@
            + " WHERE tenant_id = $1 AND event_row_id = $2 AND state = 'pending' AND attempts = 0 AND claim_token IS NULL AND claimed_by IS NULL AND claim_expires_at IS NULL AND last_failure_code IS NULL AND last_failure_detail IS NULL AND delivered_at IS NULL AND quarantined_at IS NULL AND quarantine_reason IS NULL AND available_at = $3"@,
{
    reveal_strlit("state");
    reveal_strlit("available_at");
    reveal_strlit("attempts");
    reveal_strlit("claim_token");
    reveal_strlit("claimed_by");
    reveal_strlit("claim_expires_at");
    reveal_strlit("last_failure_code");
    reveal_strlit("last_failure_detail");
    reveal_strlit("delivered_at");
    reveal_strlit("quarantined_at");
    reveal_strlit("quarantine_reason");
    reveal_strlit(" = ");
    reveal_strlit(", ");
    reveal_strlit("'");
    reveal_strlit("NULL");
    reveal_strlit("$");
    reveal_strlit(" + $");
    reveal_strlit("delivered");
    assert(decimal_text(4) =~= seq!['4']);
    assert(decimal_text(5) =~= seq!['5']);
    assert(decimal_text(6) =~= seq!['6']);
    assert(decimal_text(7) =~= seq!['7']);
    lemma_numbers_in_order(finalize_list());
    lemma_text_in_order(finalize_list(), "clock_timestamp()"@, 4);
    reveal_strlit("state = 'delivered', delivered_at = $4");
    assert(set_text(finalize_list(), "clock_timestamp()"@, 4) =~= "state = 'delivered', delivered_at = $4"@);
}

} // verus!
