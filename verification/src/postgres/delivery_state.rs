//! Canonical delivery-row shapes shared by migration workflows on PostgreSQL.

use crate::imported::{unsupported_text, ImportedDeliveryState, ImportedView};
use crate::instant::{optional_instant, Instant};
use crate::text::{optional_bytes, optional_text, same_text};
use vstd::prelude::*;

verus! {

/// The delivery columns needed to compare migration state idempotently.
#[derive(Debug)]
pub struct DeliveryRow {
    pub state: String,
    pub attempts: i64,
    pub claim_token: Option<Vec<u8>>,
    pub claimed_by: Option<String>,
    pub claim_expires_at: Option<Instant>,
    pub last_failure_code: Option<String>,
    pub last_failure_detail: Option<String>,
    pub delivered_at: Option<Instant>,
    pub quarantined_at: Option<Instant>,
    pub quarantine_reason: Option<String>,
    pub available_at: Instant,
}

/// The mathematical content of a [`DeliveryRow`].
pub ghost struct DeliveryRowView {
    pub state: Seq<char>,
    pub attempts: int,
    pub claim_token: Option<Seq<u8>>,
    pub claimed_by: Option<Seq<char>>,
    pub claim_expires_at: Option<int>,
    pub last_failure_code: Option<Seq<char>>,
    pub last_failure_detail: Option<Seq<char>>,
    pub delivered_at: Option<int>,
    pub quarantined_at: Option<int>,
    pub quarantine_reason: Option<Seq<char>>,
    pub available_at: int,
}

impl View for DeliveryRow {
    type V = DeliveryRowView;

    open spec fn view(&self) -> DeliveryRowView {
        DeliveryRowView {
            state: self.state@,
            attempts: self.attempts as int,
            claim_token: optional_bytes(self.claim_token),
            claimed_by: optional_text(self.claimed_by),
            claim_expires_at: optional_instant(self.claim_expires_at),
            last_failure_code: optional_text(self.last_failure_code),
            last_failure_detail: optional_text(self.last_failure_detail),
            delivered_at: optional_instant(self.delivered_at),
            quarantined_at: optional_instant(self.quarantined_at),
            quarantine_reason: optional_text(self.quarantine_reason),
            available_at: self.available_at@,
        }
    }
}

/// The row that an import writes: no attempt, no claim, no failure and no
/// quarantine, available since it was enqueued.
pub open spec fn untouched_row(
    state: Seq<char>,
    delivered_at: Option<int>,
    enqueued_at: int,
) -> DeliveryRowView {
    DeliveryRowView {
        state,
        attempts: 0,
        claim_token: None,
        claimed_by: None,
        claim_expires_at: None,
        last_failure_code: None,
        last_failure_detail: None,
        delivered_at,
        quarantined_at: None,
        quarantine_reason: None,
        available_at: enqueued_at,
    }
}

/// Whether all columns but state and delivery time have their canonical values.
pub open spec fn is_canonical(row: DeliveryRowView, enqueued_at: int) -> bool {
    row == untouched_row(row.state, row.delivered_at, enqueued_at)
}

/// Whether a row is the one that importing `state` writes.
pub open spec fn is_imported(row: DeliveryRowView, state: ImportedView, enqueued_at: int) -> bool {
    match state {
        ImportedView::Pending => row == untouched_row("pending"@, None, enqueued_at),
        ImportedView::Delivered(at) => row == untouched_row("delivered"@, Some(at), enqueued_at),
        ImportedView::Unsupported => false,
    }
}

/// Returns whether all non-state delivery columns have their canonical values.
pub fn canonical(row: &DeliveryRow, enqueued_at: Instant) -> (same: bool)
    ensures
        same == is_canonical(row@, enqueued_at@),
{
    row.attempts == 0 && row.claim_token.is_none() && row.claimed_by.is_none()
        && row.claim_expires_at.is_none() && row.last_failure_code.is_none()
        && row.last_failure_detail.is_none() && row.quarantined_at.is_none()
        && row.quarantine_reason.is_none() && row.available_at.same(enqueued_at)
}

/// Returns whether a row is the untouched pending shape that an import writes.
pub fn canonical_pending(row: &DeliveryRow, enqueued_at: Instant) -> (same: bool)
    ensures
        same == is_imported(row@, ImportedView::Pending, enqueued_at@),
{
    canonical(row, enqueued_at) && same_text(row.state.as_str(), "pending")
        && row.delivered_at.is_none()
}

/// Compares an existing row with one supported imported state.
pub fn matches_import(
    row: &DeliveryRow,
    state: ImportedDeliveryState,
    enqueued_at: Instant,
) -> (result: Result<bool, &'static str>)
    ensures
        match result {
            Ok(same) => {
                &&& !(state@ is Unsupported)
                &&& same == is_imported(row@, state@, enqueued_at@)
            },
            Err(detail) => state@ is Unsupported && detail@ == unsupported_text(),
        },
{
    let canonical = canonical(row, enqueued_at);
    match state {
        ImportedDeliveryState::Pending => Ok(
            canonical && same_text(row.state.as_str(), "pending") && row.delivered_at.is_none(),
        ),
        ImportedDeliveryState::Delivered { delivered_at } => {
            let same_time = match row.delivered_at {
                Some(stored) => stored.same(delivered_at),
                None => false,
            };
            Ok(canonical && same_text(row.state.as_str(), "delivered") && same_time)
        },
        ImportedDeliveryState::Unsupported => Err(
            "adapter does not support this imported delivery state",
        ),
    }
}

/// One row matches at most one imported state.
pub proof fn a_row_matches_one_state(
    row: DeliveryRowView,
    first: ImportedView,
    second: ImportedView,
    enqueued_at: int,
)
    requires
        is_imported(row, first, enqueued_at),
        is_imported(row, second, enqueued_at),
    ensures
        first == second,
{
    reveal_strlit("pending");
    reveal_strlit("delivered");
    assert("pending"@[0] == 'p' && "delivered"@[0] == 'd');
}

/// A row that was ever attempted, claimed, failed or quarantined matches no
/// imported state, so no import takes it over.
pub proof fn a_touched_row_matches_no_state(
    row: DeliveryRowView,
    state: ImportedView,
    enqueued_at: int,
)
    requires
        row.attempts != 0 || row.claim_token is Some || row.claimed_by is Some
            || row.claim_expires_at is Some || row.last_failure_code is Some
            || row.last_failure_detail is Some || row.quarantined_at is Some
            || row.quarantine_reason is Some,
    ensures
        !is_imported(row, state, enqueued_at),
{
}

} // verus!
