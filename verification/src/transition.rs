//! What claims and claim-fenced mutations do to a delivery row.
//!
//! A transition is a list of assignments to columns. Both adapters write the
//! lists of this module in their own SQL dialect.

use crate::attribute::bounded_text_error;
use crate::delivery::{failure_error, stored_failure};
use crate::instant::instant_error;
use crate::snapshot::{row_refusal, shown_delivery, StoredView, WorkerCheck};
use crate::value::{attempts_error, state_text, DeliveryState};
use vstd::prelude::*;

verus! {

/// A column of the delivery table that a transition may assign.
#[derive(Clone, Copy, Debug, PartialEq, Eq, Structural)]
pub enum Column {
    State,
    AvailableAt,
    Attempts,
    ClaimToken,
    ClaimedBy,
    ClaimExpiresAt,
    LastFailureCode,
    LastFailureDetail,
    DeliveredAt,
    QuarantinedAt,
    QuarantineReason,
}

/// The name of a column.
pub open spec fn column_text(column: Column) -> Seq<char> {
    match column {
        Column::State => "state"@,
        Column::AvailableAt => "available_at"@,
        Column::Attempts => "attempts"@,
        Column::ClaimToken => "claim_token"@,
        Column::ClaimedBy => "claimed_by"@,
        Column::ClaimExpiresAt => "claim_expires_at"@,
        Column::LastFailureCode => "last_failure_code"@,
        Column::LastFailureDetail => "last_failure_detail"@,
        Column::DeliveredAt => "delivered_at"@,
        Column::QuarantinedAt => "quarantined_at"@,
        Column::QuarantineReason => "quarantine_reason"@,
    }
}

impl Column {
    /// The name of the column.
    pub fn name(self) -> (name: &'static str)
        ensures
            name@ == column_text(self),
    {
        match self {
            Column::State => "state",
            Column::AvailableAt => "available_at",
            Column::Attempts => "attempts",
            Column::ClaimToken => "claim_token",
            Column::ClaimedBy => "claimed_by",
            Column::ClaimExpiresAt => "claim_expires_at",
            Column::LastFailureCode => "last_failure_code",
            Column::LastFailureDetail => "last_failure_detail",
            Column::DeliveredAt => "delivered_at",
            Column::QuarantinedAt => "quarantined_at",
            Column::QuarantineReason => "quarantine_reason",
        }
    }
}

/// What a transition assigns to a column.
#[derive(Clone, Copy, Debug, PartialEq, Eq, Structural)]
pub enum Term {
    /// No value.
    Null,
    /// The name of a state.
    State(DeliveryState),
    /// The database's time.
    OperationTime,
    /// The database's time plus the duration of the transition.
    Later,
    /// The attempt count of the claim.
    Attempts,
    /// The token of the claim.
    Token,
    /// The worker of the claim.
    Worker,
    /// The code of the recorded failure.
    FailureCode,
    /// The detail of the recorded failure.
    FailureDetail,
    /// The reason of the quarantine.
    Reason,
    /// The delivery time that a finalization records.
    DeliveryTime,
}

/// One assignment of a transition.
#[derive(Clone, Copy, Debug, PartialEq, Eq, Structural)]
pub struct Assignment {
    pub column: Column,
    pub term: Term,
}

/// The mutations that the holder of a claim may ask for.
#[derive(Clone, Copy, Debug, PartialEq, Eq, Structural)]
pub enum MutationKind {
    /// Extend the claim.
    Renew,
    /// Mark the delivery as done.
    Ack,
    /// Return to pending with a recorded failure.
    Retry,
    /// Return to pending.
    Release,
    /// Set the delivery aside.
    Quarantine,
}

/// A delivery row.
pub ghost struct RowView {
    pub state: Seq<char>,
    pub available_at: int,
    pub attempts: int,
    pub claim_token: Option<Seq<u8>>,
    pub claimed_by: Option<Seq<char>>,
    pub claim_expires_at: Option<int>,
    pub last_failure_code: Option<Seq<char>>,
    pub last_failure_detail: Option<Seq<char>>,
    pub delivered_at: Option<int>,
    pub quarantined_at: Option<int>,
    pub quarantine_reason: Option<Seq<char>>,
}

/// The values that the terms of a transition stand for.
pub ghost struct Inputs {
    pub now: int,
    pub duration: int,
    pub attempts: int,
    pub token: Seq<u8>,
    pub worker: Seq<char>,
    pub failure_code: Seq<char>,
    pub failure_detail: Seq<char>,
    pub reason: Seq<char>,
    pub delivered_at: int,
}

/// Whether a term is one that its column takes.
pub open spec fn fits(assignment: Assignment) -> bool {
    match assignment.column {
        Column::State => assignment.term is State,
        Column::AvailableAt => assignment.term is Later,
        Column::Attempts => assignment.term is Attempts,
        Column::ClaimToken => assignment.term is Null || assignment.term is Token,
        Column::ClaimedBy => assignment.term is Null || assignment.term is Worker,
        Column::ClaimExpiresAt => assignment.term is Null || assignment.term is Later,
        Column::LastFailureCode => assignment.term is FailureCode,
        Column::LastFailureDetail => assignment.term is FailureDetail,
        Column::DeliveredAt => assignment.term is OperationTime || assignment.term is DeliveryTime,
        Column::QuarantinedAt => assignment.term is OperationTime,
        Column::QuarantineReason => assignment.term is Reason,
    }
}

/// Whether a list of assignments can stand in one statement: every term fits
/// its column, and no column is assigned twice.
pub open spec fn is_assignable(list: Seq<Assignment>) -> bool {
    &&& forall|i: int| 0 <= i < list.len() ==> fits(#[trigger] list[i])
    &&& forall|i: int, j: int|
        0 <= i < j < list.len() ==> (#[trigger] list[i]).column != (#[trigger] list[j]).column
}

/// A row after one assignment. Nothing is known of the row after one whose
/// term does not fit its column.
pub open spec fn assigned(row: RowView, assignment: Assignment, inputs: Inputs) -> RowView {
    match (assignment.column, assignment.term) {
        (Column::State, Term::State(state)) => RowView { state: state_text(state), ..row },
        (Column::AvailableAt, Term::Later) => RowView {
            available_at: inputs.now + inputs.duration,
            ..row
        },
        (Column::Attempts, Term::Attempts) => RowView { attempts: inputs.attempts, ..row },
        (Column::ClaimToken, Term::Null) => RowView { claim_token: None, ..row },
        (Column::ClaimToken, Term::Token) => RowView { claim_token: Some(inputs.token), ..row },
        (Column::ClaimedBy, Term::Null) => RowView { claimed_by: None, ..row },
        (Column::ClaimedBy, Term::Worker) => RowView { claimed_by: Some(inputs.worker), ..row },
        (Column::ClaimExpiresAt, Term::Null) => RowView { claim_expires_at: None, ..row },
        (Column::ClaimExpiresAt, Term::Later) => RowView {
            claim_expires_at: Some(inputs.now + inputs.duration),
            ..row
        },
        (Column::LastFailureCode, Term::FailureCode) => RowView {
            last_failure_code: Some(inputs.failure_code),
            ..row
        },
        (Column::LastFailureDetail, Term::FailureDetail) => RowView {
            last_failure_detail: Some(inputs.failure_detail),
            ..row
        },
        (Column::DeliveredAt, Term::OperationTime) => RowView {
            delivered_at: Some(inputs.now),
            ..row
        },
        (Column::DeliveredAt, Term::DeliveryTime) => RowView {
            delivered_at: Some(inputs.delivered_at),
            ..row
        },
        (Column::QuarantinedAt, Term::OperationTime) => RowView {
            quarantined_at: Some(inputs.now),
            ..row
        },
        (Column::QuarantineReason, Term::Reason) => RowView {
            quarantine_reason: Some(inputs.reason),
            ..row
        },
        _ => arbitrary(),
    }
}

/// A row after a list of assignments.
pub open spec fn applied(row: RowView, list: Seq<Assignment>, inputs: Inputs) -> RowView
    decreases list.len(),
{
    if list.len() == 0 {
        row
    } else {
        assigned(applied(row, list.drop_last(), inputs), list.last(), inputs)
    }
}

/// A row without its claim.
pub open spec fn unclaimed(row: RowView) -> RowView {
    RowView { claim_token: None, claimed_by: None, claim_expires_at: None, ..row }
}

/// The row that a mutation leaves.
pub open spec fn mutated(row: RowView, kind: MutationKind, inputs: Inputs) -> RowView {
    match kind {
        MutationKind::Renew => RowView {
            claim_expires_at: Some(inputs.now + inputs.duration),
            ..row
        },
        MutationKind::Ack => RowView {
            state: "delivered"@,
            delivered_at: Some(inputs.now),
            ..unclaimed(row)
        },
        MutationKind::Retry => RowView {
            state: "pending"@,
            available_at: inputs.now + inputs.duration,
            last_failure_code: Some(inputs.failure_code),
            last_failure_detail: Some(inputs.failure_detail),
            ..unclaimed(row)
        },
        MutationKind::Release => RowView {
            state: "pending"@,
            available_at: inputs.now + inputs.duration,
            ..unclaimed(row)
        },
        MutationKind::Quarantine => RowView {
            state: "quarantined"@,
            quarantined_at: Some(inputs.now),
            quarantine_reason: Some(inputs.reason),
            ..unclaimed(row)
        },
    }
}

/// The row that a claim leaves.
pub open spec fn taken(row: RowView, inputs: Inputs) -> RowView {
    RowView {
        state: "claimed"@,
        attempts: inputs.attempts,
        claim_token: Some(inputs.token),
        claimed_by: Some(inputs.worker),
        claim_expires_at: Some(inputs.now + inputs.duration),
        ..row
    }
}

/// The row that a finalization leaves.
pub open spec fn finalized(row: RowView, inputs: Inputs) -> RowView {
    RowView { state: "delivered"@, delivered_at: Some(inputs.delivered_at), ..row }
}

/// A list shorter by its last assignment.
proof fn lemma_applied(row: RowView, list: Seq<Assignment>, last: Assignment, inputs: Inputs)
    ensures
        applied(row, list.push(last), inputs) == assigned(
            applied(row, list, inputs),
            last,
            inputs,
        ),
{
    assert(list.push(last).drop_last() =~= list);
}

/// Whether a list of assignments turns every row into the one that `leaves`
/// says.
pub open spec fn turns_into(
    list: Seq<Assignment>,
    leaves: spec_fn(RowView, Inputs) -> RowView,
) -> bool {
    forall|row: RowView, inputs: Inputs| #[trigger] applied(row, list, inputs) == leaves(row, inputs)
}

/// The assignments of a mutation.
pub open spec fn mutation_list(kind: MutationKind) -> Seq<Assignment> {
    let enters = |state: DeliveryState| (Assignment {
        column: Column::State,
        term: Term::State(state),
    });
    let later = Assignment { column: Column::AvailableAt, term: Term::Later };
    let token = Assignment { column: Column::ClaimToken, term: Term::Null };
    let worker = Assignment { column: Column::ClaimedBy, term: Term::Null };
    let expiry = Assignment { column: Column::ClaimExpiresAt, term: Term::Null };
    match kind {
        MutationKind::Renew => seq![
            Assignment { column: Column::ClaimExpiresAt, term: Term::Later },
        ],
        MutationKind::Ack => seq![
            enters(DeliveryState::Delivered),
            token,
            worker,
            expiry,
            Assignment { column: Column::DeliveredAt, term: Term::OperationTime },
        ],
        MutationKind::Retry => seq![
            enters(DeliveryState::Pending),
            later,
            token,
            worker,
            expiry,
            Assignment { column: Column::LastFailureCode, term: Term::FailureCode },
            Assignment { column: Column::LastFailureDetail, term: Term::FailureDetail },
        ],
        MutationKind::Release => seq![enters(DeliveryState::Pending), later, token, worker, expiry],
        MutationKind::Quarantine => seq![
            enters(DeliveryState::Quarantined),
            token,
            worker,
            expiry,
            Assignment { column: Column::QuarantinedAt, term: Term::OperationTime },
            Assignment { column: Column::QuarantineReason, term: Term::Reason },
        ],
    }
}

/// The assignments of a claim.
pub open spec fn claim_list() -> Seq<Assignment> {
    seq![
        Assignment { column: Column::State, term: Term::State(DeliveryState::Claimed) },
        Assignment { column: Column::Attempts, term: Term::Attempts },
        Assignment { column: Column::ClaimToken, term: Term::Token },
        Assignment { column: Column::ClaimedBy, term: Term::Worker },
        Assignment { column: Column::ClaimExpiresAt, term: Term::Later },
    ]
}

/// The assignments of a finalization.
pub open spec fn finalize_list() -> Seq<Assignment> {
    seq![
        Assignment { column: Column::State, term: Term::State(DeliveryState::Delivered) },
        Assignment { column: Column::DeliveredAt, term: Term::DeliveryTime },
    ]
}

/// The assignments of a mutation.
pub fn mutation_assignments(kind: MutationKind) -> (list: Vec<Assignment>)
    ensures
        list@ == mutation_list(kind),
        is_assignable(list@),
        turns_into(list@, |row: RowView, inputs: Inputs| mutated(row, kind, inputs)),
{
    let list = match kind {
        MutationKind::Renew => vec![
            Assignment { column: Column::ClaimExpiresAt, term: Term::Later },
        ],
        MutationKind::Ack => vec![
            Assignment { column: Column::State, term: Term::State(DeliveryState::Delivered) },
            Assignment { column: Column::ClaimToken, term: Term::Null },
            Assignment { column: Column::ClaimedBy, term: Term::Null },
            Assignment { column: Column::ClaimExpiresAt, term: Term::Null },
            Assignment { column: Column::DeliveredAt, term: Term::OperationTime },
        ],
        MutationKind::Retry => vec![
            Assignment { column: Column::State, term: Term::State(DeliveryState::Pending) },
            Assignment { column: Column::AvailableAt, term: Term::Later },
            Assignment { column: Column::ClaimToken, term: Term::Null },
            Assignment { column: Column::ClaimedBy, term: Term::Null },
            Assignment { column: Column::ClaimExpiresAt, term: Term::Null },
            Assignment { column: Column::LastFailureCode, term: Term::FailureCode },
            Assignment { column: Column::LastFailureDetail, term: Term::FailureDetail },
        ],
        MutationKind::Release => vec![
            Assignment { column: Column::State, term: Term::State(DeliveryState::Pending) },
            Assignment { column: Column::AvailableAt, term: Term::Later },
            Assignment { column: Column::ClaimToken, term: Term::Null },
            Assignment { column: Column::ClaimedBy, term: Term::Null },
            Assignment { column: Column::ClaimExpiresAt, term: Term::Null },
        ],
        MutationKind::Quarantine => vec![
            Assignment { column: Column::State, term: Term::State(DeliveryState::Quarantined) },
            Assignment { column: Column::ClaimToken, term: Term::Null },
            Assignment { column: Column::ClaimedBy, term: Term::Null },
            Assignment { column: Column::ClaimExpiresAt, term: Term::Null },
            Assignment { column: Column::QuarantinedAt, term: Term::OperationTime },
            Assignment { column: Column::QuarantineReason, term: Term::Reason },
        ],
    };
    proof {
        assert forall|row: RowView, inputs: Inputs| #[trigger]
            applied(row, list@, inputs) == mutated(row, kind, inputs) by {
            lemma_applied_in_order(row, list@, inputs);
        }
    }
    list
}

/// The assignments of a claim.
pub fn claim_assignments() -> (list: Vec<Assignment>)
    ensures
        list@ == claim_list(),
        is_assignable(list@),
        turns_into(list@, |row: RowView, inputs: Inputs| taken(row, inputs)),
{
    let list = vec![
        Assignment { column: Column::State, term: Term::State(DeliveryState::Claimed) },
        Assignment { column: Column::Attempts, term: Term::Attempts },
        Assignment { column: Column::ClaimToken, term: Term::Token },
        Assignment { column: Column::ClaimedBy, term: Term::Worker },
        Assignment { column: Column::ClaimExpiresAt, term: Term::Later },
    ];
    proof {
        assert forall|row: RowView, inputs: Inputs| #[trigger]
            applied(row, list@, inputs) == taken(row, inputs) by {
            lemma_applied_in_order(row, list@, inputs);
        }
    }
    list
}

/// The assignments of a finalization.
pub fn finalize_assignments() -> (list: Vec<Assignment>)
    ensures
        list@ == finalize_list(),
        is_assignable(list@),
        turns_into(list@, |row: RowView, inputs: Inputs| finalized(row, inputs)),
{
    let list = vec![
        Assignment { column: Column::State, term: Term::State(DeliveryState::Delivered) },
        Assignment { column: Column::DeliveredAt, term: Term::DeliveryTime },
    ];
    proof {
        assert forall|row: RowView, inputs: Inputs| #[trigger]
            applied(row, list@, inputs) == finalized(row, inputs) by {
            lemma_applied_in_order(row, list@, inputs);
        }
    }
    list
}

/// A row after the assignments from `from` on.
spec fn applied_from(row: RowView, list: Seq<Assignment>, from: int, inputs: Inputs) -> RowView
    decreases list.len() - from,
{
    if from < 0 || from >= list.len() {
        row
    } else {
        applied_from(assigned(row, list[from], inputs), list, from + 1, inputs)
    }
}

proof fn lemma_applied_from(
    row: RowView,
    list: Seq<Assignment>,
    from: int,
    inputs: Inputs,
    start: RowView,
)
    requires
        0 <= from <= list.len(),
        row == applied(start, list.take(from), inputs),
    ensures
        applied(start, list, inputs) == applied_from(row, list, from, inputs),
    decreases list.len() - from,
{
    if from == list.len() {
        assert(list.take(from) =~= list);
    } else {
        assert(list.take(from + 1) =~= list.take(from).push(list[from]));
        lemma_applied(start, list.take(from), list[from], inputs);
        lemma_applied_from(assigned(row, list[from], inputs), list, from + 1, inputs, start);
    }
}

/// Short lists unfold from the front.
proof fn lemma_applied_in_order(row: RowView, list: Seq<Assignment>, inputs: Inputs)
    requires
        list.len() <= 7,
    ensures
        applied(row, list, inputs) == {
            let r0 = row;
            let r1 = if list.len() > 0 { assigned(r0, list[0], inputs) } else { r0 };
            let r2 = if list.len() > 1 { assigned(r1, list[1], inputs) } else { r1 };
            let r3 = if list.len() > 2 { assigned(r2, list[2], inputs) } else { r2 };
            let r4 = if list.len() > 3 { assigned(r3, list[3], inputs) } else { r3 };
            let r5 = if list.len() > 4 { assigned(r4, list[4], inputs) } else { r4 };
            let r6 = if list.len() > 5 { assigned(r5, list[5], inputs) } else { r5 };
            if list.len() > 6 { assigned(r6, list[6], inputs) } else { r6 }
        },
{
    assert(list.take(0) =~= Seq::<Assignment>::empty());
    lemma_applied_from(row, list, 0, inputs, row);
    reveal_with_fuel(applied_from, 9);
}

/// Whether a row has exactly the columns of its state.
pub open spec fn is_well_formed(row: RowView) -> bool {
    let claimed = row.claim_token is Some && row.claim_token->0.len() == 16 && row.claimed_by is Some
        && row.claim_expires_at is Some;
    let free = row.claim_token is None && row.claimed_by is None && row.claim_expires_at is None;
    let kept = row.quarantined_at is None && row.quarantine_reason is None;
    &&& row.attempts >= 0
    &&& row.last_failure_code is Some <==> row.last_failure_detail is Some
    &&& {
        ||| row.state == "pending"@ && free && row.delivered_at is None && kept
        ||| row.state == "claimed"@ && claimed && row.delivered_at is None && kept
        ||| row.state == "delivered"@ && free && row.delivered_at is Some && kept
        ||| {
            &&& row.state == "quarantined"@
            &&& free
            &&& row.delivered_at is None
            &&& row.quarantined_at is Some
            &&& row.quarantine_reason is Some
        }
    }
}

/// Whether the holder of a token owns a row: the condition of every mutation.
pub open spec fn owns_row(row: RowView, token: Seq<u8>, now: int) -> bool {
    &&& row.state == "claimed"@
    &&& row.claim_token == Some(token)
    &&& row.claim_expires_at is Some && row.claim_expires_at->0 > now
}

/// Whether a claim may take a row: it is pending and available, or its claim has
/// expired.
pub open spec fn is_claimable(row: RowView, now: int) -> bool {
    ||| row.state == "pending"@ && row.available_at <= now
    ||| row.state == "claimed"@ && row.claim_expires_at is Some && row.claim_expires_at->0 <= now
}

proof fn lemma_states_differ()
    ensures
        "pending"@ != "claimed"@,
        "pending"@ != "delivered"@,
        "pending"@ != "quarantined"@,
        "claimed"@ != "delivered"@,
        "claimed"@ != "quarantined"@,
        "delivered"@ != "quarantined"@,
{
    reveal_strlit("pending");
    reveal_strlit("claimed");
    reveal_strlit("delivered");
    reveal_strlit("quarantined");
    assert("pending"@[0] == 'p' && "claimed"@[0] == 'c');
    assert("delivered"@[0] == 'd' && "quarantined"@[0] == 'q');
}

/// A mutation by the owner and a claim keep a row well formed.
pub proof fn transitions_keep_rows_well_formed(row: RowView, kind: MutationKind, inputs: Inputs)
    requires
        is_well_formed(row),
        inputs.token.len() == 16,
    ensures
        owns_row(row, inputs.token, inputs.now) ==> is_well_formed(mutated(row, kind, inputs)),
        is_claimable(row, inputs.now) && inputs.attempts >= 0 ==> is_well_formed(
            taken(row, inputs),
        ),
{
    lemma_states_differ();
}

/// A finalization makes a well-formed pending row a well-formed delivered one.
pub proof fn finalizing_keeps_rows_well_formed(row: RowView, inputs: Inputs)
    requires
        is_well_formed(row),
        row.state == "pending"@,
    ensures
        is_well_formed(finalized(row, inputs)),
        finalized(row, inputs).state == "delivered"@,
        finalized(row, inputs).delivered_at == Some(inputs.delivered_at),
{
    lemma_states_differ();
}

/// No mutation changes the attempt count.
pub proof fn mutations_keep_attempts(row: RowView, kind: MutationKind, inputs: Inputs)
    ensures
        mutated(row, kind, inputs).attempts == row.attempts,
{
}

/// Only a retry changes the recorded failure.
pub proof fn only_retries_record_failures(row: RowView, kind: MutationKind, inputs: Inputs)
    requires
        kind != MutationKind::Retry,
    ensures
        mutated(row, kind, inputs).last_failure_code == row.last_failure_code,
        mutated(row, kind, inputs).last_failure_detail == row.last_failure_detail,
        taken(row, inputs).last_failure_code == row.last_failure_code,
        taken(row, inputs).last_failure_detail == row.last_failure_detail,
{
}

/// Every mutation but a renewal ends the claim: no token owns the row any more.
/// A renewal leaves it to the same token until the new expiry, and to no other.
pub proof fn mutations_end_or_extend_the_claim(
    row: RowView,
    kind: MutationKind,
    inputs: Inputs,
    token: Seq<u8>,
    later: int,
)
    requires
        owns_row(row, inputs.token, inputs.now),
    ensures
        kind != MutationKind::Renew ==> !owns_row(mutated(row, kind, inputs), token, later),
        kind == MutationKind::Renew ==> (owns_row(mutated(row, kind, inputs), token, later) <==> (
        token == inputs.token && later < inputs.now + inputs.duration)),
{
    lemma_states_differ();
}

/// A claim hands the row to its token until it expires, and fences every other
/// token, that of an expired claim before all.
pub proof fn claims_fence_every_other_token(
    row: RowView,
    inputs: Inputs,
    token: Seq<u8>,
    later: int,
)
    ensures
        owns_row(taken(row, inputs), token, later) <==> (token == inputs.token && later
            < inputs.now + inputs.duration),
{
}

/// A row that is delivered or quarantined is final: no token owns it and no claim
/// takes it, at any time.
pub proof fn terminal_rows_are_final(row: RowView, token: Seq<u8>, now: int)
    requires
        row.state == "delivered"@ || row.state == "quarantined"@,
    ensures
        !owns_row(row, token, now),
        !is_claimable(row, now),
{
    lemma_states_differ();
}

/// A row is never both owned and free for a claim.
pub proof fn owned_rows_are_not_claimable(row: RowView, token: Seq<u8>, now: int)
    requires
        owns_row(row, token, now),
    ensures
        !is_claimable(row, now),
{
    lemma_states_differ();
}

/// A claim that is not mutated becomes claimable again when it expires, so no
/// delivery is lost with its worker.
pub proof fn expired_claims_become_claimable(row: RowView, inputs: Inputs, later: int)
    requires
        later >= inputs.now + inputs.duration,
    ensures
        is_claimable(taken(row, inputs), later),
{
}

/// The columns of a row that a page reads, once its failure was read.
pub open spec fn paged_columns(row: RowView) -> StoredView {
    StoredView {
        state: row.state,
        available_at: row.available_at,
        attempts: row.attempts,
        failure: match (row.last_failure_code, row.last_failure_detail) {
            (Some(code), Some(detail)) => Some((code, detail)),
            _ => None,
        },
        claim_token: row.claim_token,
        claimed_by: row.claimed_by,
        claim_expires_at: read_already(row.claim_expires_at),
        delivered_at: read_already(row.delivered_at),
        quarantined_at: read_already(row.quarantined_at),
        quarantine_reason: row.quarantine_reason,
    }
}

/// A stored time that could be read.
pub open spec fn read_already(time: Option<int>) -> Option<Result<int, Seq<char>>> {
    match time {
        Some(at) => Some(Ok(at)),
        None => None,
    }
}

/// Whether every time and every text that a row holds is one that the domain
/// accepts.
pub open spec fn has_valid_values(row: RowView) -> bool {
    &&& instant_error("available_at"@, row.available_at) is None
    &&& row.claim_expires_at is Some ==> instant_error(
        "claim_expires_at"@,
        row.claim_expires_at->0,
    ) is None
    &&& row.delivered_at is Some ==> instant_error("delivered_at"@, row.delivered_at->0) is None
    &&& row.quarantined_at is Some ==> instant_error(
        "quarantined_at"@,
        row.quarantined_at->0,
    ) is None
    &&& row.claimed_by is Some ==> bounded_text_error(
        "worker_id"@,
        row.claimed_by->0,
        255,
    ) is None
    &&& row.quarantine_reason is Some ==> bounded_text_error(
        "quarantine reason"@,
        row.quarantine_reason->0,
        2048,
    ) is None
    &&& row.last_failure_code is Some && row.last_failure_detail is Some ==> failure_error(
        row.last_failure_code->0,
        row.last_failure_detail->0,
    ) is None
}

/// A well-formed row with valid values is never refused when it is read, and the
/// page shows it as it is: its state, the time from which it is available, its
/// attempts, its failure and all columns of its state.
pub proof fn well_formed_rows_are_shown(row: RowView, check: WorkerCheck)
    requires
        is_well_formed(row),
        has_valid_values(row),
    ensures
        attempts_error(row.attempts) is None,
        stored_failure(row.last_failure_code, row.last_failure_detail) == Ok::<
            Option<(Seq<char>, Seq<char>)>,
            Seq<char>,
        >(paged_columns(row).failure),
        row_refusal(paged_columns(row), check) is None,
        state_text(shown_delivery(paged_columns(row)).state) == row.state,
        shown_delivery(paged_columns(row)).attempts == row.attempts,
        shown_delivery(paged_columns(row)).last_failure == paged_columns(row).failure,
        shown_delivery(paged_columns(row)).available_at == row.available_at,
        shown_delivery(paged_columns(row)).worker == row.claimed_by,
        shown_delivery(paged_columns(row)).expires_at == row.claim_expires_at,
        shown_delivery(paged_columns(row)).delivered_at == row.delivered_at,
        shown_delivery(paged_columns(row)).quarantined_at == row.quarantined_at,
        shown_delivery(paged_columns(row)).reason == row.quarantine_reason,
        row.last_failure_code is Some ==> shown_delivery(paged_columns(row)).last_failure == Some(
            (row.last_failure_code->0, row.last_failure_detail->0),
        ),
        row.last_failure_code is None ==> shown_delivery(paged_columns(row)).last_failure is None,
{
    lemma_states_differ();
}

/// A row that is not refused when it is read has exactly the columns of its state,
/// and none of the values that it shows is one that the domain refuses.
pub proof fn shown_rows_are_well_formed(row: StoredView, check: WorkerCheck)
    requires
        row_refusal(row, check) is None,
        row.attempts >= 0,
    ensures
        row.state == "pending"@ || row.state == "claimed"@ || row.state == "delivered"@ || row.state
            == "quarantined"@,
        row.state == "claimed"@ <==> row.claim_token is Some,
        row.state == "claimed"@ <==> row.claimed_by is Some,
        row.state == "claimed"@ <==> row.claim_expires_at is Some,
        row.state == "delivered"@ <==> row.delivered_at is Some,
        row.state == "quarantined"@ <==> row.quarantined_at is Some,
        row.state == "quarantined"@ <==> row.quarantine_reason is Some,
        row.claim_token is Some ==> row.claim_token->0.len() == 16,
        row.claim_expires_at is Some ==> row.claim_expires_at->0 is Ok,
        row.delivered_at is Some ==> row.delivered_at->0 is Ok,
        row.quarantined_at is Some ==> row.quarantined_at->0 is Ok,
        row.claimed_by is Some ==> bounded_text_error(
            "worker_id"@,
            row.claimed_by->0,
            255,
        ) is None,
        row.quarantine_reason is Some ==> bounded_text_error(
            "quarantine reason"@,
            row.quarantine_reason->0,
            2048,
        ) is None,
        instant_error("available_at"@, row.available_at) is None,
        row.claim_expires_at is Some ==> instant_error(
            "claim_expires_at"@,
            row.claim_expires_at->0->Ok_0,
        ) is None,
        row.delivered_at is Some ==> instant_error(
            "delivered_at"@,
            row.delivered_at->0->Ok_0,
        ) is None,
        row.quarantined_at is Some ==> instant_error(
            "quarantined_at"@,
            row.quarantined_at->0->Ok_0,
        ) is None,
{
    lemma_states_differ();
}

/// What the update of a mutation does to a row: each mutation enters its state,
/// sets what it is asked to set, clears the claim unless it renews it, and leaves
/// every other column as it was.
pub proof fn mutations_set_what_they_are_asked_to(
    row: RowView,
    inputs: Inputs,
    kind: MutationKind,
    list: Vec<Assignment>,
)
    requires
        call_ensures(mutation_assignments, (kind,), list),
    ensures
        ({
            let after = applied(row, list@, inputs);
            &&& after.attempts == row.attempts
            &&& kind is Renew ==> after == (RowView {
                claim_expires_at: Some(inputs.now + inputs.duration),
                ..row
            })
            &&& !(kind is Renew) ==> after.claim_token is None && after.claimed_by is None
                && after.claim_expires_at is None
            &&& kind is Ack ==> after.state == "delivered"@
            &&& kind is Retry || kind is Release ==> after.state == "pending"@
            &&& kind is Quarantine ==> after.state == "quarantined"@
            &&& after.available_at == if kind is Retry || kind is Release {
                inputs.now + inputs.duration
            } else {
                row.available_at
            }
            &&& after.delivered_at == if kind is Ack {
                Some(inputs.now)
            } else {
                row.delivered_at
            }
            &&& after.last_failure_code == if kind is Retry {
                Some(inputs.failure_code)
            } else {
                row.last_failure_code
            }
            &&& after.last_failure_detail == if kind is Retry {
                Some(inputs.failure_detail)
            } else {
                row.last_failure_detail
            }
            &&& after.quarantined_at == if kind is Quarantine {
                Some(inputs.now)
            } else {
                row.quarantined_at
            }
            &&& after.quarantine_reason == if kind is Quarantine {
                Some(inputs.reason)
            } else {
                row.quarantine_reason
            }
        }),
{
}

/// What the update of a claim does to a row: it enters the claimed state with the
/// attempts, the token, the worker and the expiry of the claim, and leaves every
/// other column as it was.
pub proof fn claims_set_the_claim_alone(row: RowView, inputs: Inputs, list: Vec<Assignment>)
    requires
        call_ensures(claim_assignments, (), list),
    ensures
        applied(row, list@, inputs) == (RowView {
            state: "claimed"@,
            available_at: row.available_at,
            attempts: inputs.attempts,
            claim_token: Some(inputs.token),
            claimed_by: Some(inputs.worker),
            claim_expires_at: Some(inputs.now + inputs.duration),
            last_failure_code: row.last_failure_code,
            last_failure_detail: row.last_failure_detail,
            delivered_at: row.delivered_at,
            quarantined_at: row.quarantined_at,
            quarantine_reason: row.quarantine_reason,
        }),
{
}

/// What the update of a finalization does to a row: it enters the delivered state
/// with the delivery time that it was given, and leaves every other column as it
/// was.
pub proof fn finalizing_sets_the_delivery_alone(
    row: RowView,
    inputs: Inputs,
    list: Vec<Assignment>,
)
    requires
        call_ensures(finalize_assignments, (), list),
    ensures
        applied(row, list@, inputs) == (RowView {
            state: "delivered"@,
            available_at: row.available_at,
            attempts: row.attempts,
            claim_token: row.claim_token,
            claimed_by: row.claimed_by,
            claim_expires_at: row.claim_expires_at,
            last_failure_code: row.last_failure_code,
            last_failure_detail: row.last_failure_detail,
            delivered_at: Some(inputs.delivered_at),
            quarantined_at: row.quarantined_at,
            quarantine_reason: row.quarantine_reason,
        }),
{
}

/// Every column is written under the name that the table has for it.
pub proof fn columns_have_their_names(column: Column, name: &'static str)
    requires
        call_ensures(Column::name, (column,), name),
    ensures
        column is State ==> name@ == "state"@,
        column is AvailableAt ==> name@ == "available_at"@,
        column is Attempts ==> name@ == "attempts"@,
        column is ClaimToken ==> name@ == "claim_token"@,
        column is ClaimedBy ==> name@ == "claimed_by"@,
        column is ClaimExpiresAt ==> name@ == "claim_expires_at"@,
        column is LastFailureCode ==> name@ == "last_failure_code"@,
        column is LastFailureDetail ==> name@ == "last_failure_detail"@,
        column is DeliveredAt ==> name@ == "delivered_at"@,
        column is QuarantinedAt ==> name@ == "quarantined_at"@,
        column is QuarantineReason ==> name@ == "quarantine_reason"@,
{
}

} // verus!
