//! Migration-only import into the SQLite tables.
//!
//! The caller owns the transaction and hands over a checked event with a
//! portable delivery state. Each step takes what the database answered and says
//! what is next.

use crate::event::{
    columns_that_make_an_event_are_read_as_it, hold_event, lemma_holding, make_event, EventContent,
    EventView,
};
use crate::imported::{
    imported_error, unsupported_text, ImportOutcome, ImportedDeliveryState, ImportedView,
};
use crate::instant::{
    format_timestamp, parse_timestamp, rfc3339_rendering, stored_instant, EARLIEST_RENDERED_NANOS,
};
use crate::sql_error::{protocol_error, protocol_message};
use crate::sqlite::delivery_state::{
    is_imported, is_storable, matches_import, untouched_row, DeliveryRow, DeliveryRowView,
};
use crate::sqlite::enqueue::{
    has_storable_time, resolution, same_event, validate_existing_event, ExistingEvent, Resolution,
};
use crate::sqlite::error::{ImportError, SchemaError};
use crate::text::optional_text;
use crate::validation::refusal_message;
use crate::value::{row_id_error, RowId};
use vstd::prelude::*;

verus! {

/// The columns that an import writes of a delivery; the others stay absent.
#[derive(Debug)]
pub struct ImportedDelivery {
    pub state: &'static str,
    pub attempts: i64,
    pub available_at: String,
    pub delivered_at: Option<String>,
}

/// The delivery row that an import writes.
pub open spec fn written_row(delivery: ImportedDelivery) -> DeliveryRowView {
    DeliveryRowView {
        attempts: delivery.attempts as int,
        ..untouched_row(
            delivery.state@,
            optional_text(delivery.delivered_at),
            delivery.available_at@,
        )
    }
}

/// What importing does next.
#[derive(Debug)]
pub enum ImportStep {
    /// Ask whether the transaction holds the write lock.
    CheckWrite,
    /// Check the installed schema.
    CheckSchema,
    /// Read the database's operation time.
    ReadClock,
    /// Insert the event, enqueued at this time.
    InsertEvent { operation_time: String },
    /// Insert the delivery of the new row.
    InsertDelivery { row_id: RowId, delivery: ImportedDelivery },
    /// Find the row that holds the event's identity.
    FindExisting,
    /// Read the delivery of the row found.
    ReadDelivery { row_id: RowId, enqueued_at: String },
    /// Report the outcome.
    Done(ImportOutcome),
    /// Report the error; the caller rolls back.
    Failed(ImportError),
}

/// How a failed schema check is reported by an import.
pub open spec fn schema_failure(error: SchemaError) -> ImportError {
    match error {
        SchemaError::MigrationMismatch { detail } => ImportError::MigrationMismatch { detail },
        SchemaError::Sql { operation, source } => ImportError::Sql { operation, source },
        SchemaError::BusyExhausted { operation, source } => ImportError::BusyExhausted {
            operation,
            source,
        },
    }
}

/// Reports a failed schema check as an import error.
pub fn map_schema_error(error: SchemaError) -> (mapped: ImportError)
    ensures
        mapped == schema_failure(error),
{
    match error {
        SchemaError::MigrationMismatch { detail } => ImportError::MigrationMismatch { detail },
        SchemaError::Sql { operation, source } => ImportError::Sql { operation, source },
        SchemaError::BusyExhausted { operation, source } => ImportError::BusyExhausted {
            operation,
            source,
        },
    }
}

/// Whether a step reports a schema mismatch with that text.
pub open spec fn fails_with_mismatch(step: ImportStep, text: Seq<char>) -> bool {
    step matches ImportStep::Failed(ImportError::MigrationMismatch { detail }) && detail@ == text
}

/// Whether a step reports an invalid stored value with that text.
pub open spec fn fails_with_invalid(step: ImportStep, text: Seq<char>) -> bool {
    step matches ImportStep::Failed(ImportError::Serialization { detail }) && detail@ == text
}

/// Whether a step reports an invalid delivery time with that message.
pub open spec fn fails_with_state(step: ImportStep, text: Seq<char>) -> bool {
    step matches ImportStep::Failed(ImportError::InvalidState { source }) && refusal_message(source)
        == text
}

/// A state that passed validation can be stored.
pub proof fn valid_states_are_storable(state: ImportedView)
    requires
        imported_error(state) is None,
    ensures
        is_storable(state),
{
}

/// Where the reply to the insert of an event leads.
pub open spec fn event_insert_leads(
    state: ImportedView,
    operation_time: Seq<char>,
    reply: Result<Option<i64>, sqlx::Error>,
    next: ImportStep,
) -> bool {
    match reply {
        Err(source) => next == ImportStep::Failed(
            ImportError::failed("insert imported event", source),
        ),
        Ok(None) => next is FindExisting,
        Ok(Some(number)) => match row_id_error(number as int) {
            Some(text) => fails_with_invalid(next, text),
            None => if state is Unsupported {
                fails_with_mismatch(next, unsupported_text())
            } else {
                next matches ImportStep::InsertDelivery { row_id, delivery } && row_id@
                    == number && is_imported(
                    written_row(delivery),
                    state,
                    operation_time,
                )
            },
        },
    }
}

/// Where the reply to the insert of a delivery leads.
pub open spec fn delivery_insert_leads(
    row_id: RowId,
    reply: Result<(), sqlx::Error>,
    next: ImportStep,
) -> bool {
    match reply {
        Err(source) => next == ImportStep::Failed(
            ImportError::failed("insert imported delivery", source),
        ),
        Ok(()) => next == ImportStep::Done(ImportOutcome::Imported { row_id }),
    }
}

/// Where the row that holds an event's identity leads.
pub open spec fn existing_leads(
    event: EventView,
    reply: Result<Option<ExistingEvent>, sqlx::Error>,
    next: ImportStep,
) -> bool {
    match reply {
        Err(source) => next == ImportStep::Failed(
            ImportError::failed("find imported event", source),
        ),
        Ok(None) => next matches ImportStep::Failed(error) && exists|source: sqlx::Error|
            {
                &&& #[trigger] protocol_message(source) == Some(
                    "identity insert returned no row"@,
                )
                &&& error == ImportError::failed("resolve imported event", source)
            },
        Ok(Some(existing)) => match resolution(event, existing) {
            Resolution::Invalid(text) => fails_with_invalid(next, text),
            Resolution::Differs => next matches ImportStep::Failed(
                ImportError::IdentityConflict { existing_row_id },
            ) && existing_row_id@ == existing.row_id,
            Resolution::Same => next matches ImportStep::ReadDelivery {
                row_id,
                enqueued_at,
            } && row_id@ == existing.row_id && enqueued_at@ == existing.enqueued_at@,
        },
    }
}

/// Where the delivery of the row found leads.
pub open spec fn delivery_leads(
    row_id: RowId,
    enqueued_at: Seq<char>,
    state: ImportedView,
    reply: Result<Option<DeliveryRow>, sqlx::Error>,
    next: ImportStep,
) -> bool {
    match reply {
        Err(source) => next == ImportStep::Failed(
            ImportError::failed("find imported delivery", source),
        ),
        Ok(None) => fails_with_mismatch(next, "an existing event has no delivery row"@),
        Ok(Some(row)) => if state is Unsupported {
            fails_with_mismatch(next, unsupported_text())
        } else if is_imported(row@, state, enqueued_at) {
            next == ImportStep::Done(ImportOutcome::AlreadyImported { row_id })
        } else {
            next == ImportStep::Failed(
                ImportError::ImportConflict { existing_row_id: row_id },
            )
        },
    }
}

impl ImportStep {
    /// How many steps at most are still to come.
    pub open spec fn distance(self) -> nat {
        match self {
            ImportStep::CheckWrite => 6,
            ImportStep::CheckSchema => 5,
            ImportStep::ReadClock => 4,
            ImportStep::InsertEvent { .. } => 3,
            ImportStep::FindExisting => 2,
            ImportStep::InsertDelivery { .. } => 1,
            ImportStep::ReadDelivery { .. } => 1,
            ImportStep::Done(_) => 0,
            ImportStep::Failed(_) => 0,
        }
    }

    /// Checks the imported state before anything is read.
    pub fn begin(state: ImportedDeliveryState) -> (next: ImportStep)
        ensures
            match imported_error(state@) {
                Some(text) => fails_with_state(next, text),
                None => next is CheckWrite,
            },
    {
        match state.validate() {
            Ok(()) => ImportStep::CheckWrite,
            Err(source) => ImportStep::Failed(ImportError::InvalidState { source }),
        }
    }

    /// Decides on whether the transaction holds the write lock.
    pub fn after_write_check(reply: Result<bool, sqlx::Error>) -> (next: ImportStep)
        ensures
            match reply {
                Err(source) => next == ImportStep::Failed(
                    ImportError::failed("inspect import transaction state", source),
                ),
                Ok(writes) => if writes {
                    next is CheckSchema
                } else {
                    next == ImportStep::Failed(ImportError::WriteTransactionRequired)
                },
            },
            next.distance() < ImportStep::CheckWrite.distance(),
    {
        match reply {
            Err(source) => ImportStep::Failed(
                ImportError::sql("inspect import transaction state", source),
            ),
            Ok(writes) => if writes {
                ImportStep::CheckSchema
            } else {
                ImportStep::Failed(ImportError::WriteTransactionRequired)
            },
        }
    }

    /// Decides on the schema check.
    pub fn after_schema(reply: Result<(), SchemaError>) -> (next: ImportStep)
        ensures
            match reply {
                Err(error) => next == ImportStep::Failed(schema_failure(error)),
                Ok(()) => next is ReadClock,
            },
            next.distance() < ImportStep::CheckSchema.distance(),
    {
        match reply {
            Err(error) => ImportStep::Failed(map_schema_error(error)),
            Ok(()) => ImportStep::ReadClock,
        }
    }

    /// Decides on the database's operation time. It is read and stored again as
    /// every other time is; a time before year 0 has no stored form.
    pub fn after_clock(reply: Result<String, sqlx::Error>) -> (next: ImportStep)
        ensures
            match reply {
                Err(source) => next == ImportStep::Failed(
                    ImportError::failed("read import operation time", source),
                ),
                Ok(text) => match stored_instant(text@) {
                    Err(error) => fails_with_invalid(next, error),
                    Ok(at) => if at < EARLIEST_RENDERED_NANOS {
                        fails_with_invalid(
                            next,
                            "invalid stored timestamp: outside the supported calendar"@,
                        )
                    } else {
                        next matches ImportStep::InsertEvent { operation_time }
                            && operation_time@ == rfc3339_rendering(at)
                    },
                },
            },
            next.distance() < ImportStep::ReadClock.distance(),
    {
        let text = match reply {
            Err(source) => return ImportStep::Failed(
                ImportError::sql("read import operation time", source),
            ),
            Ok(text) => text,
        };
        match parse_timestamp(text.as_str()) {
            Err(error) => ImportStep::Failed(ImportError::serialization(error)),
            Ok(at) => if at.has_rendering() {
                ImportStep::InsertEvent { operation_time: format_timestamp(at) }
            } else {
                ImportStep::Failed(
                    ImportError::serialization(
                        "invalid stored timestamp: outside the supported calendar".to_owned(),
                    ),
                )
            },
        }
    }

    /// Decides on the inserted event row. No row means that the identity is
    /// taken. The delivery that follows is the canonical row of the state.
    pub fn after_event_insert(
        state: ImportedDeliveryState,
        operation_time: &str,
        reply: Result<Option<i64>, sqlx::Error>,
    ) -> (next: ImportStep)
        requires
            is_storable(state@),
        ensures
            event_insert_leads(state@, operation_time@, reply, next),
            next.distance() < 3,
    {
        let number: i64 = match reply {
            Err(source) => return ImportStep::Failed(
                ImportError::sql("insert imported event", source),
            ),
            Ok(None) => return ImportStep::FindExisting,
            Ok(Some(number)) => number,
        };
        let row_id = match RowId::new(number) {
            Ok(row_id) => row_id,
            Err(error) => return ImportStep::Failed(ImportError::serialization(error)),
        };
        let (name, delivered_at) = match state {
            ImportedDeliveryState::Pending => ("pending", None),
            ImportedDeliveryState::Delivered { delivered_at } => (
                "delivered",
                Some(format_timestamp(delivered_at)),
            ),
            ImportedDeliveryState::Unsupported => return ImportStep::Failed(
                ImportError::MigrationMismatch {
                    detail: "adapter does not support this imported delivery state".to_owned(),
                },
            ),
        };
        let delivery = ImportedDelivery {
            state: name,
            attempts: 0,
            available_at: operation_time.to_owned(),
            delivered_at,
        };
        ImportStep::InsertDelivery { row_id, delivery }
    }

    /// Decides on the inserted delivery row.
    pub fn after_delivery_insert(row_id: RowId, reply: Result<(), sqlx::Error>) -> (next:
        ImportStep)
        ensures
            delivery_insert_leads(row_id, reply, next),
    {
        match reply {
            Err(source) => ImportStep::Failed(
                ImportError::sql("insert imported delivery", source),
            ),
            Ok(()) => ImportStep::Done(ImportOutcome::Imported { row_id }),
        }
    }

    /// Decides on the row that holds the event's identity.
    pub fn after_existing(
        event: &EventContent,
        reply: Result<Option<ExistingEvent>, sqlx::Error>,
    ) -> (next: ImportStep)
        requires
            has_storable_time(event@),
        ensures
            existing_leads(event@, reply, next),
            next.distance() < ImportStep::FindExisting.distance(),
    {
        let existing = match reply {
            Err(source) => return ImportStep::Failed(
                ImportError::sql("find imported event", source),
            ),
            Ok(None) => return ImportStep::Failed(
                ImportError::sql(
                    "resolve imported event",
                    protocol_error("identity insert returned no row"),
                ),
            ),
            Ok(Some(existing)) => existing,
        };
        let row_id = match RowId::new(existing.row_id) {
            Ok(row_id) => row_id,
            Err(error) => return ImportStep::Failed(ImportError::serialization(error)),
        };
        match validate_existing_event(&existing) {
            Ok(()) => {},
            Err(error) => return ImportStep::Failed(ImportError::serialization(error)),
        }
        if !same_event(event, &existing) {
            return ImportStep::Failed(ImportError::IdentityConflict { existing_row_id: row_id });
        }
        ImportStep::ReadDelivery { row_id, enqueued_at: existing.enqueued_at }
    }

    /// Decides on the delivery of the row found: only the row that this import
    /// would have written is a repeated import.
    pub fn after_delivery(
        row_id: RowId,
        enqueued_at: &str,
        state: ImportedDeliveryState,
        reply: Result<Option<DeliveryRow>, sqlx::Error>,
    ) -> (next: ImportStep)
        requires
            is_storable(state@),
        ensures
            delivery_leads(row_id, enqueued_at@, state@, reply, next),
    {
        let row = match reply {
            Err(source) => return ImportStep::Failed(
                ImportError::sql("find imported delivery", source),
            ),
            Ok(None) => return ImportStep::Failed(
                ImportError::MigrationMismatch {
                    detail: "an existing event has no delivery row".to_owned(),
                },
            ),
            Ok(Some(row)) => row,
        };
        match matches_import(&row, state, enqueued_at) {
            Ok(true) => ImportStep::Done(ImportOutcome::AlreadyImported { row_id }),
            Ok(false) => ImportStep::Failed(
                ImportError::ImportConflict { existing_row_id: row_id },
            ),
            Err(detail) => ImportStep::Failed(
                ImportError::MigrationMismatch { detail: detail.to_owned() },
            ),
        }
    }
}

/// An imported event gets the delivery that its state asks for: pending or delivered
/// at the given time, never attempted, and available from the operation time. No row
/// means that the identity is taken.
pub proof fn imports_write_the_state_that_was_asked(
    state: ImportedDeliveryState,
    operation_time: &str,
    reply: Result<Option<i64>, sqlx::Error>,
    next: ImportStep,
    row_id: RowId,
    stored: Result<(), sqlx::Error>,
    ended: ImportStep,
)
    requires
        is_storable(state@),
        call_ensures(ImportStep::after_event_insert, (state, operation_time, reply), next),
        call_ensures(ImportStep::after_delivery_insert, (row_id, stored), ended),
    ensures
        next is FindExisting <==> (reply is Ok && reply->Ok_0 is None),
        reply is Err ==> next is Failed,
        reply matches Ok(Some(number)) ==> {
            &&& number <= 0 ==> (next matches ImportStep::Failed(error) && error is Serialization)
            &&& number > 0 && state is Unsupported ==> (next matches ImportStep::Failed(error)
                && error is MigrationMismatch)
            &&& number > 0 && !(state is Unsupported) ==> {
                &&& next matches ImportStep::InsertDelivery { row_id, delivery }
                &&& row_id@ == number
                &&& delivery.attempts == 0
                &&& delivery.available_at@ == operation_time@
                &&& state is Pending ==> delivery.state@ == "pending"@ && delivery.delivered_at
                    is None
                &&& state matches ImportedDeliveryState::Delivered { delivered_at }
                    ==> delivery.state@ == "delivered"@ && delivery.delivered_at is Some
                    && delivery.delivered_at->0@ == rfc3339_rendering(delivered_at@)
            }
        },
        stored is Ok ==> ended == ImportStep::Done(ImportOutcome::Imported { row_id }),
        stored is Err ==> ended is Failed,
{
}

/// An import whose identity is taken goes on exactly if the row there is a valid event
/// row that holds the same content. Other content is a conflict, which names the row.
pub proof fn only_the_same_event_is_imported_again(
    event: &EventContent,
    existing: ExistingEvent,
    next: ImportStep,
)
    requires
        has_storable_time(event@),
        call_ensures(ImportStep::after_existing, (event, Ok(Some(existing))), next),
    ensures
        ({
            let valid = existing.row_id > 0 && (match existing.occurred_at {
                Some(text) => stored_instant(text@) is Ok && make_event(
                    existing.columns@,
                    Some(stored_instant(text@)->Ok_0),
                ),
                None => make_event(existing.columns@, None),
            });
            let same = hold_event(existing.columns, *event) && (match (
                existing.occurred_at,
                event.time,
            ) {
                (Some(text), Some(at)) => text@ == rfc3339_rendering(at@),
                (None, None) => true,
                _ => false,
            });
            &&& !valid ==> (next matches ImportStep::Failed(error) && error is Serialization)
            &&& valid && same ==> (next matches ImportStep::ReadDelivery { row_id, enqueued_at }
                && row_id@ == existing.row_id && enqueued_at@ == existing.enqueued_at@)
            &&& valid && !same ==> (next matches ImportStep::Failed(
                ImportError::IdentityConflict { existing_row_id },
            ) && existing_row_id@ == existing.row_id)
        }),
{
    let time = match existing.occurred_at {
        Some(text) => Some(stored_instant(text@)->Ok_0),
        None => None,
    };
    columns_that_make_an_event_are_read_as_it(existing.columns@, time);
    lemma_holding(existing.columns, *event);
}

/// A taken identity that no row holds is no outcome.
pub proof fn a_taken_identity_has_a_row(
    event: &EventContent,
    reply: Result<Option<ExistingEvent>, sqlx::Error>,
    next: ImportStep,
)
    requires
        reply is Err || reply->Ok_0 is None,
        has_storable_time(event@),
        call_ensures(ImportStep::after_existing, (event, reply), next),
    ensures
        next is Failed,
{
}

/// An import counts as done before exactly if the delivery there is the one that it
/// would have written: in the same state and with the same delivery time, never
/// attempted, claimed, failed or quarantined, and available since it was enqueued.
/// Any other delivery is a conflict, which names the row.
pub proof fn only_the_same_delivery_is_imported_again(
    row_id: RowId,
    enqueued_at: &str,
    state: ImportedDeliveryState,
    row: DeliveryRow,
    next: ImportStep,
)
    requires
        is_storable(state@),
        call_ensures(
            ImportStep::after_delivery,
            (row_id, enqueued_at, state, Ok(Some(row))),
            next,
        ),
    ensures
        ({
            let untouched = row.attempts == 0 && row.claim_token is None && row.claimed_by is None
                && row.claim_expires_at is None && row.last_failure_code is None
                && row.last_failure_detail is None && row.quarantined_at is None
                && row.quarantine_reason is None && row.available_at@ == enqueued_at@;
            let same = match state {
                ImportedDeliveryState::Pending => row.state@ == "pending"@ && row.delivered_at
                    is None,
                ImportedDeliveryState::Delivered { delivered_at } => row.state@ == "delivered"@
                    && row.delivered_at is Some && row.delivered_at->0@ == rfc3339_rendering(
                    delivered_at@,
                ),
                ImportedDeliveryState::Unsupported => false,
            };
            &&& state is Unsupported ==> (next matches ImportStep::Failed(error) && error
                is MigrationMismatch)
            &&& !(state is Unsupported) && untouched && same ==> next == ImportStep::Done(
                ImportOutcome::AlreadyImported { row_id },
            )
            &&& !(state is Unsupported) && !(untouched && same) ==> next == ImportStep::Failed(
                ImportError::ImportConflict { existing_row_id: row_id },
            )
        }),
{
}

/// An event without a delivery, and a delivery that could not be read, are no outcome.
pub proof fn an_existing_event_has_a_delivery(
    row_id: RowId,
    enqueued_at: &str,
    state: ImportedDeliveryState,
    reply: Result<Option<DeliveryRow>, sqlx::Error>,
    next: ImportStep,
)
    requires
        is_storable(state@),
        call_ensures(ImportStep::after_delivery, (row_id, enqueued_at, state, reply), next),
    ensures
        reply matches Ok(None) ==> (next matches ImportStep::Failed(error) && error
            is MigrationMismatch),
        reply is Err ==> next is Failed,
{
}

/// An import starts exactly if its delivery time, where it has one, is portable, and
/// goes on only with a schema that was accepted.
pub proof fn imports_start_with_a_portable_time(
    state: ImportedDeliveryState,
    started: ImportStep,
    checked: Result<(), SchemaError>,
    next: ImportStep,
)
    requires
        call_ensures(ImportStep::begin, (state,), started),
        call_ensures(ImportStep::after_schema, (checked,), next),
    ensures
        started is CheckWrite <==> (state matches ImportedDeliveryState::Delivered { delivered_at }
            ==> 0 <= delivered_at@ <= 253_402_300_799_999_999_000 && delivered_at@ % 1000 == 0),
        !(started is CheckWrite) ==> (started matches ImportStep::Failed(error) && error
            is InvalidState),
        next is ReadClock <==> checked is Ok,
        checked matches Err(error) ==> {
            &&& error matches SchemaError::MigrationMismatch { detail } ==> next
                == ImportStep::Failed(ImportError::MigrationMismatch { detail })
            &&& error matches SchemaError::Sql { operation, source } ==> next
                == ImportStep::Failed(ImportError::Sql { operation, source })
            &&& error matches SchemaError::BusyExhausted { operation, source } ==> next == ImportStep::Failed(ImportError::BusyExhausted { operation, source })
        },
{
}

/// An import goes on only in a transaction that holds the write lock, and its
/// operation time is the database's, written as every other time is.
pub proof fn imports_need_the_lock_and_the_clock(
    writes: Result<bool, sqlx::Error>,
    locked: ImportStep,
    clock: Result<String, sqlx::Error>,
    next: ImportStep,
)
    requires
        call_ensures(ImportStep::after_write_check, (writes,), locked),
        call_ensures(ImportStep::after_clock, (clock,), next),
    ensures
        locked is CheckSchema <==> writes == Ok::<bool, sqlx::Error>(true),
        writes == Ok::<bool, sqlx::Error>(false) ==> locked == ImportStep::Failed(
            ImportError::WriteTransactionRequired,
        ),
        writes is Err ==> locked is Failed,
        clock matches Ok(text) ==> {
            &&& next is InsertEvent <==> stored_instant(text@) is Ok && stored_instant(text@)->Ok_0
                >= -62_167_219_200_000_000_000
            &&& next matches ImportStep::InsertEvent { operation_time } ==> operation_time@
                == rfc3339_rendering(stored_instant(text@)->Ok_0)
            &&& !(next is InsertEvent) ==> (next matches ImportStep::Failed(error) && error
                is Serialization)
        },
        clock is Err ==> next is Failed,
{
}

/// A query that failed is reported under its own name, with its own failure.
pub proof fn failed_queries_are_reported_by_name(
    source: sqlx::Error,
    event: &EventContent,
    row_id: RowId,
    state: ImportedDeliveryState,
    at: &str,
    write_check_reply: ImportStep,
    clock_reply: ImportStep,
    event_insert_reply: ImportStep,
    delivery_insert_reply: ImportStep,
    existing_reply: ImportStep,
    delivery_reply: ImportStep,
)
    requires
        has_storable_time(event@),
        is_storable(state@),
        call_ensures(ImportStep::after_write_check, (Err(source),), write_check_reply),
        call_ensures(ImportStep::after_clock, (Err(source),), clock_reply),
        call_ensures(ImportStep::after_event_insert, (state, at, Err(source)), event_insert_reply),
        call_ensures(ImportStep::after_delivery_insert, (row_id, Err(source)), delivery_insert_reply),
        call_ensures(ImportStep::after_existing, (event, Err(source)), existing_reply),
        call_ensures(ImportStep::after_delivery, (row_id, at, state, Err(source)), delivery_reply),
    ensures
        write_check_reply == ImportStep::Failed(ImportError::failed("inspect import transaction state", source)),
        clock_reply == ImportStep::Failed(ImportError::failed("read import operation time", source)),
        event_insert_reply == ImportStep::Failed(ImportError::failed("insert imported event", source)),
        delivery_insert_reply == ImportStep::Failed(ImportError::failed("insert imported delivery", source)),
        existing_reply == ImportStep::Failed(ImportError::failed("find imported event", source)),
        delivery_reply == ImportStep::Failed(ImportError::failed("find imported delivery", source)),
{
}

/// A failed schema check keeps its account: a mismatch its detail, and a failed query
/// its name, its kind and its failure.
pub proof fn failed_schema_checks_keep_their_account(error: SchemaError, mapped: ImportError)
    requires
        call_ensures(map_schema_error, (error,), mapped),
    ensures
        error matches SchemaError::MigrationMismatch { detail } ==> mapped == (ImportError::MigrationMismatch {
            detail,
        }),
        error matches SchemaError::Sql { operation, source } ==> mapped == (ImportError::Sql {
            operation,
            source,
        }),
        error matches SchemaError::BusyExhausted { operation, source } ==> mapped == (ImportError::BusyExhausted {
            operation,
            source,
        }),
{
}

/// An existing event without a delivery is told as such.
pub proof fn missing_deliveries_are_told(
    row_id: RowId,
    at: &str,
    state: ImportedDeliveryState,
    next: ImportStep,
)
    requires
        is_storable(state@),
        call_ensures(ImportStep::after_delivery, (row_id, at, state, Ok(None)), next),
    ensures
        next matches ImportStep::Failed(ImportError::MigrationMismatch { detail }) && detail@ == "an existing event has no delivery row"@,
{
}

/// An identity that is taken by no row is reported as a failed query that says so.
pub proof fn a_lost_identity_is_told(event: &EventContent, next: ImportStep)
    requires
        has_storable_time(event@),
        call_ensures(ImportStep::after_existing, (event, Ok(None)), next),
    ensures
        next matches ImportStep::Failed(error) && exists|source: sqlx::Error|
            #![trigger protocol_message(source)]
            {
                &&& protocol_message(source) == Some("identity insert returned no row"@)
                &&& error == ImportError::failed("resolve imported event", source)
            },
{
}

} // verus!
