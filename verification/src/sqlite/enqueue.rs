//! Caller-transaction enqueue on SQLite.
//!
//! Each step takes what the database answered and says what is next: another
//! statement of the same transaction, an outcome, or the error to report.

use crate::event::{
    columns_that_make_an_event_are_read_as_it, hold_event, lemma_holding, make_event, same_columns,
    stored_columns, EventColumns, EventContent, EventView,
};
use crate::imported::EnqueueOutcome;
use crate::instant::{
    format_timestamp, rfc3339_rendering, stored_instant, EARLIEST_RENDERED_NANOS,
};
use crate::sql_error::{protocol_error, protocol_message};
use crate::sqlite::error::EnqueueError;
use crate::sqlite::hydrate::{event_hydration, hydrate_event};
use crate::sqlite::migration::{baseline, current_migration, migration_is_usable, unusable};
use crate::text::{optional_text, same_optional_text};
use crate::value::{row_id_error, RowId};
use vstd::prelude::*;

verus! {

/// A table that enqueueing needs.
#[derive(Clone, Copy, Debug, PartialEq, Eq, Structural)]
pub enum DomainTable {
    /// The event table.
    Events,
    /// The delivery table.
    Deliveries,
}

impl DomainTable {
    /// The name of the table.
    pub open spec fn name_text(self) -> Seq<char> {
        match self {
            DomainTable::Events => "dovecote_events"@,
            DomainTable::Deliveries => "dovecote_deliveries"@,
        }
    }

    /// The name of the table.
    pub fn name(self) -> (name: &'static str)
        ensures
            name@ == self.name_text(),
    {
        match self {
            DomainTable::Events => "dovecote_events",
            DomainTable::Deliveries => "dovecote_deliveries",
        }
    }
}

/// What an insert returned of a new event row.
#[derive(Debug)]
pub struct InsertedEvent {
    pub row_id: i64,
    pub enqueued_at: String,
}

/// An event row that was found under the identity of another event.
#[derive(Debug)]
pub struct ExistingEvent {
    pub row_id: i64,
    pub columns: EventColumns,
    pub occurred_at: Option<String>,
    pub enqueued_at: String,
}

/// The stored text of an optional time.
pub open spec fn rendered(time: Option<int>) -> Option<Seq<char>> {
    match time {
        Some(at) => Some(rfc3339_rendering(at)),
        None => None,
    }
}

/// Whether the time of an event, if it has one, can be stored. Every valid event
/// meets this.
pub open spec fn has_storable_time(event: EventView) -> bool {
    event.time matches Some(at) ==> at >= EARLIEST_RENDERED_NANOS
}

/// The time of a valid event can be stored.
pub proof fn valid_events_have_storable_times(event: EventView)
    requires
        crate::event::is_valid_event(event),
    ensures
        has_storable_time(event),
{
}

/// The stored text of an event's occurrence time, which reads back as that time.
pub fn occurrence_text(event: &EventContent) -> (text: Option<String>)
    requires
        has_storable_time(event@),
    ensures
        optional_text(text) == rendered(event@.time),
        reads_back(text, event@.time),
{
    match event.time {
        Some(at) => Some(format_timestamp(at)),
        None => None,
    }
}

/// Whether a stored text reads back as a time.
pub open spec fn reads_back(text: Option<String>, time: Option<int>) -> bool {
    match (text, time) {
        (Some(text), Some(at)) => stored_instant(text@) == Ok::<int, Seq<char>>(at),
        (None, None) => true,
        _ => false,
    }
}

/// Whether an event and a stored row hold the same immutable content.
pub open spec fn is_same_event(event: EventView, existing: ExistingEvent) -> bool {
    existing.columns@ == stored_columns(event) && optional_text(existing.occurred_at) == rendered(
        event.time,
    )
}

/// Compares an event with a stored row, column by column.
pub fn same_event(event: &EventContent, existing: &ExistingEvent) -> (same: bool)
    requires
        has_storable_time(event@),
    ensures
        same == is_same_event(event@, *existing),
{
    let occurred_at = occurrence_text(event);
    same_columns(event, &existing.columns) && same_optional_text(
        &occurred_at,
        &existing.occurred_at,
    )
}

/// What a stored row yields when it is read as an event.
pub open spec fn existing_hydration(existing: ExistingEvent) -> Result<EventView, Seq<char>> {
    event_hydration(existing.columns, existing.occurred_at)
}

/// Checks that a stored row is a valid event.
pub fn validate_existing_event(existing: &ExistingEvent) -> (result: Result<(), String>)
    ensures
        match result {
            Ok(()) => existing_hydration(*existing) is Ok,
            Err(error) => existing_hydration(*existing) == Err::<EventView, Seq<char>>(error@),
        },
{
    match hydrate_event(&existing.columns, &existing.occurred_at) {
        Ok(_) => Ok(()),
        Err(error) => Err(error),
    }
}

/// How an event relates to the row that holds its identity.
pub ghost enum Resolution {
    /// The row holds the same immutable content.
    Same,
    /// The row holds other content.
    Differs,
    /// The row is no valid event row.
    Invalid(Seq<char>),
}

/// How an event relates to the row that holds its identity.
pub open spec fn resolution(event: EventView, existing: ExistingEvent) -> Resolution {
    match row_id_error(existing.row_id as int) {
        Some(error) => Resolution::Invalid(error),
        None => match existing_hydration(existing) {
            Err(error) => Resolution::Invalid(error),
            Ok(_) => if is_same_event(event, existing) {
                Resolution::Same
            } else {
                Resolution::Differs
            },
        },
    }
}

/// An event that was stored is found again as itself, whatever row it got: its
/// time was written as text that reads back, as [`occurrence_text`] writes it.
pub proof fn stored_events_resolve_to_themselves(event: EventView, existing: ExistingEvent)
    requires
        crate::event::is_valid_event(event),
        is_same_event(event, existing),
        reads_back(existing.occurred_at, event.time),
        existing.row_id > 0,
    ensures
        resolution(event, existing) is Same,
{
    crate::event::stored_events_read_back(event);
}

/// Two different valid events never resolve to the same stored row, whose time is
/// text that reads back.
pub proof fn a_row_resolves_to_one_event(
    first: EventView,
    second: EventView,
    existing: ExistingEvent,
)
    requires
        resolution(first, existing) is Same,
        resolution(second, existing) is Same,
        crate::event::is_valid_event(first),
        crate::event::is_valid_event(second),
        reads_back(existing.occurred_at, first.time),
        reads_back(existing.occurred_at, second.time),
    ensures
        first == second,
{
    crate::event::stored_events_read_back(first);
    crate::event::stored_events_read_back(second);
}

/// What enqueueing does next.
#[derive(Debug)]
pub enum EnqueueStep {
    /// Ask whether the transaction holds the write lock.
    CheckWrite,
    /// Ask whether foreign keys are enforced.
    CheckEnforcement,
    /// Look for a table.
    FindTable(DomainTable),
    /// Insert the event.
    InsertEvent,
    /// Insert the pending delivery of the new row.
    InsertDelivery { row_id: RowId, available_at: String },
    /// Find the row that holds the event's identity.
    FindDuplicate,
    /// Check that the row found has a delivery.
    CheckDelivery { row_id: RowId },
    /// Report the outcome.
    Done(EnqueueOutcome),
    /// Report the error; the caller rolls back.
    Failed(EnqueueError),
}

/// Whether a step reports a schema mismatch with that text.
pub open spec fn fails_with_mismatch(step: EnqueueStep, text: Seq<char>) -> bool {
    step matches EnqueueStep::Failed(EnqueueError::MigrationMismatch { detail }) && detail@ == text
}

/// Where the reply to the insert of an event leads.
pub open spec fn event_insert_leads(
    reply: Result<Option<InsertedEvent>, sqlx::Error>,
    next: EnqueueStep,
) -> bool {
    match reply {
        Err(source) => next == EnqueueStep::Failed(
            EnqueueError::failed("insert event", source),
        ),
        Ok(None) => next is FindDuplicate,
        Ok(Some(inserted)) => match row_id_error(inserted.row_id as int) {
            Some(text) => next matches EnqueueStep::Failed(
                EnqueueError::Serialization { detail },
            ) && detail@ == text,
            None => next matches EnqueueStep::InsertDelivery { row_id, available_at }
                && row_id@ == inserted.row_id && available_at == inserted.enqueued_at,
        },
    }
}

/// Where the reply to the insert of a delivery leads.
pub open spec fn delivery_insert_leads(
    row_id: RowId,
    reply: Result<(), sqlx::Error>,
    next: EnqueueStep,
) -> bool {
    match reply {
        Err(source) => next == EnqueueStep::Failed(
            EnqueueError::failed("insert delivery", source),
        ),
        Ok(()) => next == EnqueueStep::Done(EnqueueOutcome::Enqueued { row_id }),
    }
}

/// Where the row that holds an event's identity leads.
pub open spec fn duplicate_leads(
    event: EventView,
    reply: Result<Option<ExistingEvent>, sqlx::Error>,
    next: EnqueueStep,
) -> bool {
    match reply {
        Err(source) => next == EnqueueStep::Failed(
            EnqueueError::failed("find duplicate event", source),
        ),
        Ok(None) => next matches EnqueueStep::Failed(error) && exists|source: sqlx::Error|
            {
                &&& #[trigger] protocol_message(source) == Some(
                    "identity disappeared after conflict"@,
                )
                &&& error == EnqueueError::failed("resolve duplicate event", source)
            },
        Ok(Some(existing)) => match resolution(event, existing) {
            Resolution::Invalid(text) => next matches EnqueueStep::Failed(
                EnqueueError::Serialization { detail },
            ) && detail@ == text,
            Resolution::Differs => next matches EnqueueStep::Failed(
                EnqueueError::IdempotencyConflict { existing_row_id },
            ) && existing_row_id@ == existing.row_id,
            Resolution::Same => next matches EnqueueStep::CheckDelivery { row_id }
                && row_id@ == existing.row_id,
        },
    }
}

/// Where the look for a delivery of the row found leads.
pub open spec fn delivery_check_leads(
    row_id: RowId,
    reply: Result<Option<i64>, sqlx::Error>,
    next: EnqueueStep,
) -> bool {
    match reply {
        Err(source) => next == EnqueueStep::Failed(
            EnqueueError::failed("check duplicate delivery", source),
        ),
        Ok(None) => fails_with_mismatch(next, "an existing event has no delivery row"@),
        Ok(Some(_)) => next == EnqueueStep::Done(
            EnqueueOutcome::AlreadyEnqueued { row_id },
        ),
    }
}

impl EnqueueStep {
    /// How many statements at most are still to come.
    pub open spec fn distance(self) -> nat {
        match self {
            EnqueueStep::CheckWrite => 7,
            EnqueueStep::CheckEnforcement => 6,
            EnqueueStep::FindTable(DomainTable::Events) => 5,
            EnqueueStep::FindTable(DomainTable::Deliveries) => 4,
            EnqueueStep::InsertEvent => 3,
            EnqueueStep::FindDuplicate => 2,
            EnqueueStep::InsertDelivery { .. } => 1,
            EnqueueStep::CheckDelivery { .. } => 1,
            EnqueueStep::Done(_) => 0,
            EnqueueStep::Failed(_) => 0,
        }
    }

    /// Decides on whether the transaction holds the write lock. A deferred
    /// transaction is refused before anything is read.
    pub fn after_write_check(reply: Result<bool, sqlx::Error>) -> (next: EnqueueStep)
        ensures
            match reply {
                Err(source) => next == EnqueueStep::Failed(
                    EnqueueError::failed("inspect enqueue transaction state", source),
                ),
                Ok(writes) => if writes {
                    next is CheckEnforcement
                } else {
                    next == EnqueueStep::Failed(EnqueueError::WriteTransactionRequired)
                },
            },
            next.distance() < EnqueueStep::CheckWrite.distance(),
    {
        match reply {
            Err(source) => EnqueueStep::Failed(
                EnqueueError::sql("inspect enqueue transaction state", source),
            ),
            Ok(writes) => if writes {
                EnqueueStep::CheckEnforcement
            } else {
                EnqueueStep::Failed(EnqueueError::WriteTransactionRequired)
            },
        }
    }

    /// Decides on the foreign-key setting.
    pub fn after_enforcement(reply: Result<i64, sqlx::Error>) -> (next: EnqueueStep)
        ensures
            match reply {
                Err(source) => next == EnqueueStep::Failed(
                    EnqueueError::failed("check enqueue foreign-key enforcement", source),
                ),
                Ok(enabled) => if enabled == 1 {
                    next == EnqueueStep::FindTable(DomainTable::Events)
                } else {
                    fails_with_mismatch(next, "foreign-key enforcement is disabled"@)
                },
            },
            next.distance() < EnqueueStep::CheckEnforcement.distance(),
    {
        match reply {
            Err(source) => EnqueueStep::Failed(
                EnqueueError::sql("check enqueue foreign-key enforcement", source),
            ),
            Ok(enabled) => if enabled == 1 {
                EnqueueStep::FindTable(DomainTable::Events)
            } else {
                EnqueueStep::Failed(
                    EnqueueError::MigrationMismatch {
                        detail: "foreign-key enforcement is disabled".to_owned(),
                    },
                )
            },
        }
    }

    /// Decides on a table that was looked for by name.
    pub fn after_table(table: DomainTable, reply: Result<Option<String>, sqlx::Error>) -> (next:
        EnqueueStep)
        ensures
            match reply {
                Err(source) => next == EnqueueStep::Failed(
                    EnqueueError::failed("validate enqueue domain tables", source),
                ),
                Ok(None) => fails_with_mismatch(next, table.name_text() + " is missing"@),
                Ok(Some(_)) => match table {
                    DomainTable::Events => next == EnqueueStep::FindTable(DomainTable::Deliveries),
                    DomainTable::Deliveries => match unusable(baseline()) {
                        Some(text) => fails_with_mismatch(next, text),
                        None => next is InsertEvent,
                    },
                },
            },
            next.distance() < EnqueueStep::FindTable(table).distance(),
    {
        match reply {
            Err(source) => return EnqueueStep::Failed(
                EnqueueError::sql("validate enqueue domain tables", source),
            ),
            Ok(None) => return EnqueueStep::Failed(
                EnqueueError::MigrationMismatch {
                    detail: table.name().to_owned().concat(" is missing"),
                },
            ),
            Ok(Some(_)) => {},
        }
        if table == DomainTable::Events {
            return EnqueueStep::FindTable(DomainTable::Deliveries);
        }
        let migration = match current_migration() {
            Ok(migration) => migration,
            Err(detail) => return EnqueueStep::Failed(EnqueueError::MigrationMismatch { detail }),
        };
        match migration_is_usable(migration) {
            Ok(()) => EnqueueStep::InsertEvent,
            Err(detail) => EnqueueStep::Failed(EnqueueError::MigrationMismatch { detail }),
        }
    }

    /// Decides on the inserted event row. No row means that the identity is
    /// taken.
    pub fn after_event_insert(reply: Result<Option<InsertedEvent>, sqlx::Error>) -> (next:
        EnqueueStep)
        ensures
            event_insert_leads(reply, next),
            next.distance() < EnqueueStep::InsertEvent.distance(),
    {
        match reply {
            Err(source) => EnqueueStep::Failed(EnqueueError::sql("insert event", source)),
            Ok(None) => EnqueueStep::FindDuplicate,
            Ok(Some(inserted)) => match RowId::new(inserted.row_id) {
                Ok(row_id) => EnqueueStep::InsertDelivery {
                    row_id,
                    available_at: inserted.enqueued_at,
                },
                Err(error) => EnqueueStep::Failed(EnqueueError::serialization(error)),
            },
        }
    }

    /// Decides on the inserted delivery row.
    pub fn after_delivery_insert(row_id: RowId, reply: Result<(), sqlx::Error>) -> (next:
        EnqueueStep)
        ensures
            delivery_insert_leads(row_id, reply, next),
    {
        match reply {
            Err(source) => EnqueueStep::Failed(EnqueueError::sql("insert delivery", source)),
            Ok(()) => EnqueueStep::Done(EnqueueOutcome::Enqueued { row_id }),
        }
    }

    /// Decides on the row that holds the event's identity: only the same
    /// immutable content is a repeated enqueue.
    pub fn after_duplicate(
        event: &EventContent,
        reply: Result<Option<ExistingEvent>, sqlx::Error>,
    ) -> (next: EnqueueStep)
        requires
            has_storable_time(event@),
        ensures
            duplicate_leads(event@, reply, next),
            next.distance() < EnqueueStep::FindDuplicate.distance(),
    {
        let existing = match reply {
            Err(source) => return EnqueueStep::Failed(
                EnqueueError::sql("find duplicate event", source),
            ),
            Ok(None) => return EnqueueStep::Failed(
                EnqueueError::sql(
                    "resolve duplicate event",
                    protocol_error("identity disappeared after conflict"),
                ),
            ),
            Ok(Some(existing)) => existing,
        };
        let existing_id = match RowId::new(existing.row_id) {
            Ok(row_id) => row_id,
            Err(error) => return EnqueueStep::Failed(EnqueueError::serialization(error)),
        };
        match validate_existing_event(&existing) {
            Ok(()) => {},
            Err(error) => return EnqueueStep::Failed(EnqueueError::serialization(error)),
        }
        if !same_event(event, &existing) {
            return EnqueueStep::Failed(
                EnqueueError::IdempotencyConflict { existing_row_id: existing_id },
            );
        }
        EnqueueStep::CheckDelivery { row_id: existing_id }
    }

    /// Decides on whether the row found has a delivery.
    pub fn after_delivery_check(row_id: RowId, reply: Result<Option<i64>, sqlx::Error>) -> (next:
        EnqueueStep)
        ensures
            delivery_check_leads(row_id, reply, next),
    {
        match reply {
            Err(source) => EnqueueStep::Failed(
                EnqueueError::sql("check duplicate delivery", source),
            ),
            Ok(None) => EnqueueStep::Failed(
                EnqueueError::MigrationMismatch {
                    detail: "an existing event has no delivery row".to_owned(),
                },
            ),
            Ok(Some(_)) => EnqueueStep::Done(EnqueueOutcome::AlreadyEnqueued { row_id }),
        }
    }
}

/// Enqueueing goes on only in a transaction that holds the write lock, with foreign
/// keys enforced, and with both tables there.
pub proof fn enqueueing_needs_the_lock_and_the_schema(
    writes: Result<bool, sqlx::Error>,
    locked: EnqueueStep,
    enabled: Result<i64, sqlx::Error>,
    enforced: EnqueueStep,
    table: DomainTable,
    found: Result<Option<String>, sqlx::Error>,
    next: EnqueueStep,
    name: &'static str,
)
    requires
        call_ensures(EnqueueStep::after_write_check, (writes,), locked),
        call_ensures(EnqueueStep::after_enforcement, (enabled,), enforced),
        call_ensures(EnqueueStep::after_table, (table, found), next),
        call_ensures(DomainTable::name, (table,), name),
    ensures
        locked is CheckEnforcement <==> writes == Ok::<bool, sqlx::Error>(true),
        writes == Ok::<bool, sqlx::Error>(false) ==> locked == EnqueueStep::Failed(
            EnqueueError::WriteTransactionRequired,
        ),
        writes is Err ==> locked is Failed,
        enforced == EnqueueStep::FindTable(DomainTable::Events) <==> enabled == Ok::<
            i64,
            sqlx::Error,
        >(1),
        enabled is Err ==> enforced is Failed,
        enabled is Ok && enabled->Ok_0 != 1 ==> (enforced matches EnqueueStep::Failed(error) && error
            is MigrationMismatch),
        table is Events ==> (next == EnqueueStep::FindTable(DomainTable::Deliveries) <==> (found
            is Ok && found->Ok_0 is Some)),
        table is Deliveries ==> (next is InsertEvent <==> (found is Ok && found->Ok_0 is Some)),
        found is Err || found->Ok_0 is None ==> next is Failed,
        found matches Ok(None) ==> (next matches EnqueueStep::Failed(error) && error
            is MigrationMismatch),
        table is Events ==> name@ == "dovecote_events"@,
        table is Deliveries ==> name@ == "dovecote_deliveries"@,
{
}

/// The stored text of an occurrence time reads back as that time, and no time has no
/// text.
pub proof fn occurrence_texts_read_back(event: &EventContent, text: Option<String>)
    requires
        has_storable_time(event@),
        call_ensures(occurrence_text, (event,), text),
    ensures
        text is Some <==> event.time is Some,
        text is Some ==> stored_instant(text->0@) == Ok::<int, Seq<char>>(event.time->0@),
{
}

/// A new event gets its pending delivery, available from the time at which the event
/// was enqueued, and is reported as enqueued under its row once that is stored. No
/// row means that the identity is taken.
pub proof fn new_events_get_their_delivery(
    reply: Result<Option<InsertedEvent>, sqlx::Error>,
    next: EnqueueStep,
    row_id: RowId,
    stored: Result<(), sqlx::Error>,
    ended: EnqueueStep,
)
    requires
        call_ensures(EnqueueStep::after_event_insert, (reply,), next),
        call_ensures(EnqueueStep::after_delivery_insert, (row_id, stored), ended),
    ensures
        next is FindDuplicate <==> (reply is Ok && reply->Ok_0 is None),
        reply matches Ok(Some(inserted)) ==> (if inserted.row_id > 0 {
            next matches EnqueueStep::InsertDelivery { row_id, available_at } && row_id@
                == inserted.row_id && available_at@ == inserted.enqueued_at@
        } else {
            next matches EnqueueStep::Failed(error) && error is Serialization
        }),
        reply is Err ==> next is Failed,
        stored is Ok ==> ended == EnqueueStep::Done(EnqueueOutcome::Enqueued { row_id }),
        stored is Err ==> ended is Failed,
{
}

/// An event whose identity is taken counts as enqueued before exactly if the row
/// there is a valid event row that holds the same content and has a delivery. Other
/// content is a conflict, which names the row.
pub proof fn only_the_same_event_is_enqueued_again(
    event: &EventContent,
    existing: ExistingEvent,
    next: EnqueueStep,
    row_id: RowId,
    reply: Result<Option<i64>, sqlx::Error>,
    ended: EnqueueStep,
)
    requires
        has_storable_time(event@),
        call_ensures(EnqueueStep::after_duplicate, (event, Ok(Some(existing))), next),
        call_ensures(EnqueueStep::after_delivery_check, (row_id, reply), ended),
    ensures
        ({
            let valid = existing.row_id > 0 && (match existing.occurred_at {
                Some(text) => stored_instant(text@) is Ok && make_event(
                    existing.columns@,
                    Some(stored_instant(text@)->Ok_0),
                ),
                None => make_event(existing.columns@, None),
            });
            let same = hold_event(existing.columns, *event) && (match (
                existing.occurred_at,
                event.time,
            ) {
                (Some(text), Some(at)) => text@ == rfc3339_rendering(at@),
                (None, None) => true,
                _ => false,
            });
            &&& !valid ==> (next matches EnqueueStep::Failed(error) && error is Serialization)
            &&& valid && same ==> (next matches EnqueueStep::CheckDelivery { row_id } && row_id@
                == existing.row_id)
            &&& valid && !same ==> (next matches EnqueueStep::Failed(
                EnqueueError::IdempotencyConflict { existing_row_id },
            ) && existing_row_id@ == existing.row_id)
        }),
        reply matches Ok(Some(_)) ==> ended == EnqueueStep::Done(
            EnqueueOutcome::AlreadyEnqueued { row_id },
        ),
        reply matches Ok(None) ==> (ended matches EnqueueStep::Failed(error) && error
            is MigrationMismatch),
        reply is Err ==> ended is Failed,
{
    let time = match existing.occurred_at {
        Some(text) => Some(stored_instant(text@)->Ok_0),
        None => None,
    };
    columns_that_make_an_event_are_read_as_it(existing.columns@, time);
    lemma_holding(existing.columns, *event);
}

/// An identity that is taken and that no row holds is no outcome.
pub proof fn a_taken_identity_has_a_row(
    event: &EventContent,
    reply: Result<Option<ExistingEvent>, sqlx::Error>,
    next: EnqueueStep,
)
    requires
        reply is Err || reply->Ok_0 is None,
        has_storable_time(event@),
        call_ensures(EnqueueStep::after_duplicate, (event, reply), next),
    ensures
        next is Failed,
{
}

/// A query that failed is reported under its own name, with its own failure.
pub proof fn failed_queries_are_reported_by_name(
    source: sqlx::Error,
    event: &EventContent,
    row_id: RowId,
    table: DomainTable,
    write_check_reply: EnqueueStep,
    enforcement_reply: EnqueueStep,
    table_reply: EnqueueStep,
    event_insert_reply: EnqueueStep,
    delivery_insert_reply: EnqueueStep,
    duplicate_reply: EnqueueStep,
    delivery_check_reply: EnqueueStep,
)
    requires
        has_storable_time(event@),
        call_ensures(EnqueueStep::after_write_check, (Err(source),), write_check_reply),
        call_ensures(EnqueueStep::after_enforcement, (Err(source),), enforcement_reply),
        call_ensures(EnqueueStep::after_table, (table, Err(source)), table_reply),
        call_ensures(EnqueueStep::after_event_insert, (Err(source),), event_insert_reply),
        call_ensures(EnqueueStep::after_delivery_insert, (row_id, Err(source)), delivery_insert_reply),
        call_ensures(EnqueueStep::after_duplicate, (event, Err(source)), duplicate_reply),
        call_ensures(EnqueueStep::after_delivery_check, (row_id, Err(source)), delivery_check_reply),
    ensures
        write_check_reply == EnqueueStep::Failed(EnqueueError::failed("inspect enqueue transaction state", source)),
        enforcement_reply == EnqueueStep::Failed(EnqueueError::failed("check enqueue foreign-key enforcement", source)),
        table_reply == EnqueueStep::Failed(EnqueueError::failed("validate enqueue domain tables", source)),
        event_insert_reply == EnqueueStep::Failed(EnqueueError::failed("insert event", source)),
        delivery_insert_reply == EnqueueStep::Failed(EnqueueError::failed("insert delivery", source)),
        duplicate_reply == EnqueueStep::Failed(EnqueueError::failed("find duplicate event", source)),
        delivery_check_reply == EnqueueStep::Failed(EnqueueError::failed("check duplicate delivery", source)),
{
}

/// What keeps an event from being enqueued is told: foreign keys that are not enforced,
/// or an existing event without a delivery.
pub proof fn mismatches_are_told(
    enabled: i64,
    enforced: EnqueueStep,
    row_id: RowId,
    undelivered: EnqueueStep,
)
    requires
        call_ensures(EnqueueStep::after_enforcement, (Ok(enabled),), enforced),
        call_ensures(EnqueueStep::after_delivery_check, (row_id, Ok(None)), undelivered),
    ensures
        enabled != 1 ==> (enforced matches EnqueueStep::Failed(
            EnqueueError::MigrationMismatch { detail },
        ) && detail@ == "foreign-key enforcement is disabled"@),
        undelivered matches EnqueueStep::Failed(EnqueueError::MigrationMismatch { detail })
            && detail@ == "an existing event has no delivery row"@,
{
}

/// An identity that is taken by no row is reported as a failed query that says so.
pub proof fn a_lost_identity_is_told(event: &EventContent, next: EnqueueStep)
    requires
        has_storable_time(event@),
        call_ensures(EnqueueStep::after_duplicate, (event, Ok(None)), next),
    ensures
        next matches EnqueueStep::Failed(error) && exists|source: sqlx::Error|
            #![trigger protocol_message(source)]
            {
                &&& protocol_message(source) == Some("identity disappeared after conflict"@)
                &&& error == EnqueueError::failed("resolve duplicate event", source)
            },
{
}

} // verus!
