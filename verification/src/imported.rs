//! Delivery states that a migration may import, and what enqueueing, importing
//! and finalizing report.

use crate::instant::{instant_error, Instant};
use crate::validation::{check_delivered_at, refusal_message};
use crate::value::RowId;
use vstd::prelude::*;

verus! {

/// A delivery state that a migration caller hands over.
#[derive(Clone, Copy, Debug)]
pub enum ImportedDeliveryState {
    /// The row has not been delivered yet.
    Pending,
    /// The source system delivered the event at this instant.
    Delivered { delivered_at: Instant },
    /// A state that a later domain release may know and this adapter does not.
    Unsupported,
}

/// The mathematical content of [`ImportedDeliveryState`].
pub ghost enum ImportedView {
    Pending,
    Delivered(int),
    Unsupported,
}

impl View for ImportedDeliveryState {
    type V = ImportedView;

    open spec fn view(&self) -> ImportedView {
        match *self {
            ImportedDeliveryState::Pending => ImportedView::Pending,
            ImportedDeliveryState::Delivered { delivered_at } => ImportedView::Delivered(
                delivered_at@,
            ),
            ImportedDeliveryState::Unsupported => ImportedView::Unsupported,
        }
    }
}

/// Why an imported state is invalid, if it is: a delivery time must be portable.
pub open spec fn imported_error(state: ImportedView) -> Option<Seq<char>> {
    match state {
        ImportedView::Delivered(at) => instant_error("delivered_at"@, at),
        _ => None,
    }
}

/// How a state that the adapter does not know is reported.
pub open spec fn unsupported_text() -> Seq<char> {
    "adapter does not support this imported delivery state"@
}

impl ImportedDeliveryState {
    /// Checks that a delivery time is portable.
    pub fn validate(self) -> (result: Result<(), dovecote::ValidationError>)
        ensures
            match result {
                Ok(()) => imported_error(self@) is None,
                Err(error) => imported_error(self@) == Some(refusal_message(error)),
            },
    {
        match self {
            ImportedDeliveryState::Delivered { delivered_at } => check_delivered_at(delivered_at),
            _ => Ok(()),
        }
    }
}

/// What enqueueing an event did.
#[derive(Clone, Copy, Debug, PartialEq, Eq, Structural)]
pub enum EnqueueOutcome {
    /// The event and its pending delivery were inserted.
    Enqueued { row_id: RowId },
    /// The same event was there already.
    AlreadyEnqueued { row_id: RowId },
}

/// What importing an event did.
#[derive(Clone, Copy, Debug, PartialEq, Eq, Structural)]
pub enum ImportOutcome {
    /// The event and its delivery were inserted.
    Imported { row_id: RowId },
    /// The same event and delivery were there already.
    AlreadyImported { row_id: RowId },
}

/// What finalizing a pending import did.
#[derive(Clone, Copy, Debug, PartialEq, Eq, Structural)]
pub enum FinalizeOutcome {
    /// The pending row was finalized.
    Finalized { row_id: RowId },
    /// The row had been finalized with the same time already.
    AlreadyFinalized { row_id: RowId },
}

/// A state is refused exactly if it holds a delivery time that is not portable: one
/// that is not a count of whole microseconds from the Unix epoch to the end of year
/// 9999.
pub proof fn only_delivery_times_are_refused(
    state: ImportedDeliveryState,
    result: Result<(), dovecote::ValidationError>,
)
    requires
        call_ensures(ImportedDeliveryState::validate, (state,), result),
    ensures
        result is Err <==> (state matches ImportedDeliveryState::Delivered { delivered_at } && !(
        delivered_at@ % 1000 == 0 && 0 <= delivered_at@ <= 253_402_300_799_999_999_000)),
{
}

} // verus!
