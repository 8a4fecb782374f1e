//! Migration-only finalization of a delivery on PostgreSQL.
//!
//! Only the untouched pending row that an import wrote becomes delivered. An
//! exact rerun is acknowledged; anything else is a conflict.

use crate::imported::{FinalizeOutcome, ImportedDeliveryState, ImportedView};
use crate::instant::{instant_error, Instant};
use crate::postgres::delivery_state::{
    canonical_pending, is_imported, matches_import, DeliveryRow, DeliveryRowView,
};
use crate::postgres::error::{FinalizeError, SchemaError};
use crate::validation::{check_delivered_at, refusal_message};
use crate::value::RowId;
use vstd::prelude::*;

verus! {

/// What finalizing does next.
#[derive(Debug)]
pub enum FinalizeStep {
    /// Check the installed schema.
    CheckSchema,
    /// Lock and read the event row.
    LockEvent,
    /// Lock and read the delivery row.
    LockDelivery { enqueued_at: Instant },
    /// Mark the pending row as delivered.
    Update,
    /// Report the outcome.
    Done(FinalizeOutcome),
    /// Report the error; the caller rolls back.
    Failed(FinalizeError),
}

/// How a failed schema check is reported by a finalization.
pub open spec fn schema_failure(error: SchemaError) -> FinalizeError {
    match error {
        SchemaError::MigrationMismatch { detail } => FinalizeError::MigrationMismatch { detail },
        SchemaError::Sql { operation, source } => FinalizeError::Sql { operation, source },
        SchemaError::Transient { operation, kind, source } => FinalizeError::Transient {
            operation,
            kind,
            source,
        },
    }
}

/// Reports a failed schema check as a finalization error.
pub fn map_schema_error(error: SchemaError) -> (mapped: FinalizeError)
    ensures
        mapped == schema_failure(error),
{
    match error {
        SchemaError::MigrationMismatch { detail } => FinalizeError::MigrationMismatch { detail },
        SchemaError::Sql { operation, source } => FinalizeError::Sql { operation, source },
        SchemaError::Transient { operation, kind, source } => FinalizeError::Transient {
            operation,
            kind,
            source,
        },
    }
}

/// How a delivery row takes a finalization.
pub ghost enum Finalization {
    /// It was finalized with the same time.
    Already,
    /// It is the pending row of an import.
    Pending,
    /// It is neither.
    Conflict,
}

/// How a delivery row takes a finalization at `delivered_at`.
pub open spec fn finalization(
    row: DeliveryRowView,
    enqueued_at: int,
    delivered_at: int,
) -> Finalization {
    if is_imported(row, ImportedView::Delivered(delivered_at), enqueued_at) {
        Finalization::Already
    } else if is_imported(row, ImportedView::Pending, enqueued_at) {
        Finalization::Pending
    } else {
        Finalization::Conflict
    }
}

/// The row that a finalization leaves: delivered at that time, all else as it
/// was.
pub open spec fn finalized_row(row: DeliveryRowView, delivered_at: int) -> DeliveryRowView {
    DeliveryRowView { state: "delivered"@, delivered_at: Some(delivered_at), ..row }
}

/// A pending import can be finalized once: afterwards the same time is
/// acknowledged and any other time is a conflict. The row is then the one that
/// importing the delivered state would have written.
pub proof fn finalizing_is_idempotent(
    row: DeliveryRowView,
    enqueued_at: int,
    delivered_at: int,
    later: int,
)
    requires
        finalization(row, enqueued_at, delivered_at) is Pending,
    ensures
        is_imported(
            finalized_row(row, delivered_at),
            ImportedView::Delivered(delivered_at),
            enqueued_at,
        ),
        later == delivered_at ==> finalization(
            finalized_row(row, delivered_at),
            enqueued_at,
            later,
        ) is Already,
        later != delivered_at ==> finalization(
            finalized_row(row, delivered_at),
            enqueued_at,
            later,
        ) is Conflict,
{
    reveal_strlit("pending");
    reveal_strlit("delivered");
    assert("pending"@[0] == 'p' && "delivered"@[0] == 'd');
}

impl FinalizeStep {
    /// How many steps at most are still to come.
    pub open spec fn distance(self) -> nat {
        match self {
            FinalizeStep::CheckSchema => 4,
            FinalizeStep::LockEvent => 3,
            FinalizeStep::LockDelivery { .. } => 2,
            FinalizeStep::Update => 1,
            FinalizeStep::Done(_) => 0,
            FinalizeStep::Failed(_) => 0,
        }
    }

    /// Checks the delivery time before anything is read.
    pub fn begin(delivered_at: Instant) -> (next: FinalizeStep)
        ensures
            match instant_error("delivered_at"@, delivered_at@) {
                Some(text) => next matches FinalizeStep::Failed(
                    FinalizeError::InvalidTimestamp { source },
                ) && refusal_message(source) == text,
                None => next is CheckSchema,
            },
    {
        match check_delivered_at(delivered_at) {
            Ok(()) => FinalizeStep::CheckSchema,
            Err(source) => FinalizeStep::Failed(FinalizeError::InvalidTimestamp { source }),
        }
    }

    /// Decides on the schema check.
    pub fn after_schema(reply: Result<(), SchemaError>) -> (next: FinalizeStep)
        ensures
            match reply {
                Err(error) => next == FinalizeStep::Failed(schema_failure(error)),
                Ok(()) => next is LockEvent,
            },
            next.distance() < FinalizeStep::CheckSchema.distance(),
    {
        match reply {
            Err(error) => FinalizeStep::Failed(map_schema_error(error)),
            Ok(()) => FinalizeStep::LockEvent,
        }
    }

    /// Decides on the enqueue time of the event row.
    pub fn after_event(reply: Result<Option<Instant>, sqlx::Error>) -> (next: FinalizeStep)
        ensures
            match reply {
                Err(source) => next == FinalizeStep::Failed(
                    FinalizeError::failed("lock migration event", source),
                ),
                Ok(None) => next == FinalizeStep::Failed(FinalizeError::NotFound),
                Ok(Some(enqueued_at)) => next == (FinalizeStep::LockDelivery { enqueued_at }),
            },
            next.distance() < FinalizeStep::LockEvent.distance(),
    {
        match reply {
            Err(source) => FinalizeStep::Failed(
                FinalizeError::sql("lock migration event", source),
            ),
            Ok(None) => FinalizeStep::Failed(FinalizeError::NotFound),
            Ok(Some(enqueued_at)) => FinalizeStep::LockDelivery { enqueued_at },
        }
    }

    /// Decides on the delivery row.
    pub fn after_delivery(
        row_id: RowId,
        enqueued_at: Instant,
        delivered_at: Instant,
        reply: Result<Option<DeliveryRow>, sqlx::Error>,
    ) -> (next: FinalizeStep)
        ensures
            match reply {
                Err(source) => next == FinalizeStep::Failed(
                    FinalizeError::failed("lock migration delivery", source),
                ),
                Ok(None) => next matches FinalizeStep::Failed(
                    FinalizeError::MigrationMismatch { detail },
                ) && detail@ == "an existing event has no delivery row"@,
                Ok(Some(row)) => match finalization(row@, enqueued_at@, delivered_at@) {
                    Finalization::Already => next == FinalizeStep::Done(
                        FinalizeOutcome::AlreadyFinalized { row_id },
                    ),
                    Finalization::Pending => next is Update,
                    Finalization::Conflict => next == FinalizeStep::Failed(
                        FinalizeError::StateConflict { row_id },
                    ),
                },
            },
            next.distance() < 2,
    {
        let row = match reply {
            Err(source) => return FinalizeStep::Failed(
                FinalizeError::sql("lock migration delivery", source),
            ),
            Ok(None) => return FinalizeStep::Failed(
                FinalizeError::MigrationMismatch {
                    detail: "an existing event has no delivery row".to_owned(),
                },
            ),
            Ok(Some(row)) => row,
        };
        let state = ImportedDeliveryState::Delivered { delivered_at };
        if let Ok(true) = matches_import(&row, state, enqueued_at) {
            return FinalizeStep::Done(FinalizeOutcome::AlreadyFinalized { row_id });
        }
        if !canonical_pending(&row, enqueued_at) {
            return FinalizeStep::Failed(FinalizeError::StateConflict { row_id });
        }
        FinalizeStep::Update
    }

    /// Decides on the number of rows that the update changed.
    pub fn after_update(row_id: RowId, reply: Result<u64, sqlx::Error>) -> (next: FinalizeStep)
        ensures
            match reply {
                Err(source) => next == FinalizeStep::Failed(
                    FinalizeError::failed("finalize migration delivery", source),
                ),
                Ok(changed) => if changed == 1 {
                    next == FinalizeStep::Done(FinalizeOutcome::Finalized { row_id })
                } else {
                    next == FinalizeStep::Failed(FinalizeError::StateConflict { row_id })
                },
            },
    {
        match reply {
            Err(source) => FinalizeStep::Failed(
                FinalizeError::sql("finalize migration delivery", source),
            ),
            Ok(changed) => if changed == 1 {
                FinalizeStep::Done(FinalizeOutcome::Finalized { row_id })
            } else {
                FinalizeStep::Failed(FinalizeError::StateConflict { row_id })
            },
        }
    }
}

/// A finalization marks exactly the untouched pending row that an import wrote, counts
/// as done before exactly if the row is that one delivered at the same time, and is a
/// conflict, which names the row, for any other.
pub proof fn only_untouched_imports_are_finalized(
    row_id: RowId,
    enqueued_at: Instant,
    delivered_at: Instant,
    row: DeliveryRow,
    next: FinalizeStep,
)
    requires
        call_ensures(
            FinalizeStep::after_delivery,
            (row_id, enqueued_at, delivered_at, Ok(Some(row))),
            next,
        ),
    ensures
        ({
            let untouched = row.attempts == 0 && row.claim_token is None && row.claimed_by is None
                && row.claim_expires_at is None && row.last_failure_code is None
                && row.last_failure_detail is None && row.quarantined_at is None
                && row.quarantine_reason is None && row.available_at@ == enqueued_at@;
            let pending = row.state@ == "pending"@ && row.delivered_at is None;
            let done = row.state@ == "delivered"@ && row.delivered_at is Some
                && row.delivered_at->0@ == delivered_at@;
            &&& next is Update <==> untouched && pending
            &&& next == FinalizeStep::Done(FinalizeOutcome::AlreadyFinalized { row_id })
                <==> untouched && done
            &&& next == FinalizeStep::Failed(FinalizeError::StateConflict { row_id })
                <==> !(untouched && (pending || done))
        }),
{
    reveal_strlit("pending");
    reveal_strlit("delivered");
    assert("pending"@[0] == 'p' && "delivered"@[0] == 'd');
}

/// A finalization starts exactly if its delivery time is portable, goes on only with a
/// schema that was accepted and an event that is there, and is done exactly if one row
/// was changed.
pub proof fn finalizations_run_in_order(
    delivered_at: Instant,
    started: FinalizeStep,
    checked: Result<(), SchemaError>,
    accepted: FinalizeStep,
    event: Result<Option<Instant>, sqlx::Error>,
    found: FinalizeStep,
    row_id: RowId,
    changed: Result<u64, sqlx::Error>,
    ended: FinalizeStep,
)
    requires
        call_ensures(FinalizeStep::begin, (delivered_at,), started),
        call_ensures(FinalizeStep::after_schema, (checked,), accepted),
        call_ensures(FinalizeStep::after_event, (event,), found),
        call_ensures(FinalizeStep::after_update, (row_id, changed), ended),
    ensures
        started is CheckSchema <==> 0 <= delivered_at@ <= 253_402_300_799_999_999_000
            && delivered_at@ % 1000 == 0,
        !(started is CheckSchema) ==> (started matches FinalizeStep::Failed(error) && error
            is InvalidTimestamp),
        accepted is LockEvent <==> checked is Ok,
        checked matches Err(error) ==> {
            &&& error matches SchemaError::MigrationMismatch { detail } ==> accepted
                == FinalizeStep::Failed(FinalizeError::MigrationMismatch { detail })
            &&& error matches SchemaError::Sql { operation, source } ==> accepted
                == FinalizeStep::Failed(FinalizeError::Sql { operation, source })
            &&& error matches SchemaError::Transient { operation, kind, source } ==> accepted == FinalizeStep::Failed(
                FinalizeError::Transient { operation, kind, source },
            )
        },
        event matches Ok(Some(enqueued_at)) ==> found == (FinalizeStep::LockDelivery {
            enqueued_at,
        }),
        event matches Ok(None) ==> found == FinalizeStep::Failed(FinalizeError::NotFound),
        event is Err ==> found is Failed,
        changed == Ok::<u64, sqlx::Error>(1) ==> ended == FinalizeStep::Done(
            FinalizeOutcome::Finalized { row_id },
        ),
        changed is Ok && changed->Ok_0 != 1 ==> ended == FinalizeStep::Failed(
            FinalizeError::StateConflict { row_id },
        ),
        changed is Err ==> ended is Failed,
{
}

/// A delivery that is not there, or could not be read, is never finalized.
pub proof fn a_finalized_event_has_a_delivery(
    row_id: RowId,
    enqueued_at: Instant,
    delivered_at: Instant,
    reply: Result<Option<DeliveryRow>, sqlx::Error>,
    next: FinalizeStep,
)
    requires
        call_ensures(
            FinalizeStep::after_delivery,
            (row_id, enqueued_at, delivered_at, reply),
            next,
        ),
    ensures
        reply matches Ok(None) ==> (next matches FinalizeStep::Failed(error) && error
            is MigrationMismatch),
        reply is Err ==> next is Failed,
{
}

/// A query that failed is reported under its own name, with its own failure.
pub proof fn failed_queries_are_reported_by_name(
    source: sqlx::Error,
    row_id: RowId,
    at: Instant,
    delivered_at: Instant,
    event_reply: FinalizeStep,
    delivery_reply: FinalizeStep,
    update_reply: FinalizeStep,
)
    requires
        call_ensures(FinalizeStep::after_event, (Err(source),), event_reply),
        call_ensures(FinalizeStep::after_delivery, (row_id, at, delivered_at, Err(source)), delivery_reply),
        call_ensures(FinalizeStep::after_update, (row_id, Err(source)), update_reply),
    ensures
        event_reply == FinalizeStep::Failed(FinalizeError::failed("lock migration event", source)),
        delivery_reply == FinalizeStep::Failed(FinalizeError::failed("lock migration delivery", source)),
        update_reply == FinalizeStep::Failed(FinalizeError::failed("finalize migration delivery", source)),
{
}

/// A failed schema check keeps its account: a mismatch its detail, and a failed query
/// its name, its kind and its failure.
pub proof fn failed_schema_checks_keep_their_account(error: SchemaError, mapped: FinalizeError)
    requires
        call_ensures(map_schema_error, (error,), mapped),
    ensures
        error matches SchemaError::MigrationMismatch { detail } ==> mapped == (FinalizeError::MigrationMismatch {
            detail,
        }),
        error matches SchemaError::Sql { operation, source } ==> mapped == (FinalizeError::Sql {
            operation,
            source,
        }),
        error matches SchemaError::Transient { operation, kind, source } ==> mapped == (FinalizeError::Transient {
            operation,
            kind,
            source,
        }),
{
}

/// An existing event without a delivery is told as such.
pub proof fn missing_deliveries_are_told(
    row_id: RowId,
    at: Instant,
    delivered_at: Instant,
    next: FinalizeStep,
)
    requires
        call_ensures(FinalizeStep::after_delivery, (row_id, at, delivered_at, Ok(None)), next),
    ensures
        next matches FinalizeStep::Failed(FinalizeError::MigrationMismatch { detail }) && detail@
            == "an existing event has no delivery row"@,
{
}

} // verus!
