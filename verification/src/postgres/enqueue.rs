//! Caller-transaction enqueue on PostgreSQL.
//!
//! Each step takes what the database answered and says what is next: another
//! statement of the same transaction, an outcome, or the error to report.

use crate::event::{
    columns_that_make_an_event_are_read_as_it, hold_event, hydration, lemma_holding, make_event,
    same_columns, stored_columns, EventColumns, EventContent, EventView,
};
use crate::imported::EnqueueOutcome;
use crate::instant::{optional_instant, same_optional_instant, Instant};
use crate::postgres::error::EnqueueError;
use crate::postgres::hydrate::hydrate_event;
use crate::postgres::migration::{
    baseline, current_migration, marker_matches_migration, marker_mismatch, SchemaMarker,
};
use crate::sql_error::{protocol_error, protocol_message};
use crate::value::{row_id_error, RowId};
use vstd::prelude::*;

verus! {

/// The namespace that the caller's transaction selects, and which tables of the
/// adapter it contains.
#[derive(Debug)]
pub struct EnqueueSchemaSelection {
    pub schema_name: String,
    pub marker_table: bool,
    pub events_table: bool,
    pub deliveries_table: bool,
}

/// What an insert returned of a new event row.
#[derive(Debug)]
pub struct InsertedEvent {
    pub row_id: i64,
    pub enqueued_at: Instant,
}

/// An event row that was found under the identity of another event.
#[derive(Debug)]
pub struct ExistingEvent {
    pub row_id: i64,
    pub columns: EventColumns,
    pub occurred_at: Option<Instant>,
    pub enqueued_at: Instant,
}

/// Whether an event and a stored row hold the same immutable content.
pub open spec fn is_same_event(event: EventView, existing: ExistingEvent) -> bool {
    existing.columns@ == stored_columns(event) && optional_instant(existing.occurred_at)
        == event.time
}

/// Compares an event with a stored row, column by column.
pub fn same_event(event: &EventContent, existing: &ExistingEvent) -> (same: bool)
    ensures
        same == is_same_event(event@, *existing),
{
    same_columns(event, &existing.columns) && same_optional_instant(
        event.time,
        existing.occurred_at,
    )
}

/// What a stored row yields when it is read as an event.
pub open spec fn existing_hydration(existing: ExistingEvent) -> Result<EventView, Seq<char>> {
    hydration(existing.columns@, Ok(optional_instant(existing.occurred_at)))
}

/// Checks that a stored row is a valid event.
pub fn validate_existing_event(existing: &ExistingEvent) -> (result: Result<(), String>)
    ensures
        match result {
            Ok(()) => existing_hydration(*existing) is Ok,
            Err(error) => existing_hydration(*existing) == Err::<EventView, Seq<char>>(error@),
        },
{
    match hydrate_event(&existing.columns, existing.occurred_at) {
        Ok(_) => Ok(()),
        Err(error) => Err(error),
    }
}

/// How an event relates to the row that holds its identity.
pub ghost enum Resolution {
    /// The row holds the same immutable content.
    Same,
    /// The row holds other content.
    Differs,
    /// The row is no valid event row.
    Invalid(Seq<char>),
}

/// How an event relates to the row that holds its identity.
pub open spec fn resolution(event: EventView, existing: ExistingEvent) -> Resolution {
    match row_id_error(existing.row_id as int) {
        Some(error) => Resolution::Invalid(error),
        None => match existing_hydration(existing) {
            Err(error) => Resolution::Invalid(error),
            Ok(_) => if is_same_event(event, existing) {
                Resolution::Same
            } else {
                Resolution::Differs
            },
        },
    }
}

/// An event that was stored is found again as itself, whatever row it got.
pub proof fn stored_events_resolve_to_themselves(event: EventView, existing: ExistingEvent)
    requires
        crate::event::is_valid_event(event),
        is_same_event(event, existing),
        existing.row_id > 0,
    ensures
        resolution(event, existing) is Same,
{
    crate::event::stored_events_read_back(event);
}

/// Two different valid events never resolve to the same stored row.
pub proof fn a_row_resolves_to_one_event(
    first: EventView,
    second: EventView,
    existing: ExistingEvent,
)
    requires
        resolution(first, existing) is Same,
        resolution(second, existing) is Same,
        crate::event::is_valid_event(first),
        crate::event::is_valid_event(second),
    ensures
        first == second,
{
    crate::event::stored_events_read_back(first);
    crate::event::stored_events_read_back(second);
}

/// What enqueueing does next.
#[derive(Debug)]
pub enum EnqueueStep {
    /// Read the selected namespace.
    SelectSchema,
    /// Read the schema marker.
    ReadMarker,
    /// Insert the event.
    InsertEvent,
    /// Insert the pending delivery of the new row.
    InsertDelivery { row_id: RowId, available_at: Instant },
    /// Find the row that holds the event's identity.
    FindDuplicate,
    /// Check that the row found has a delivery.
    CheckDelivery { row_id: RowId },
    /// Report the outcome.
    Done(EnqueueOutcome),
    /// Report the error; the caller rolls back.
    Failed(EnqueueError),
}

/// Why the selected namespace cannot be used, if it cannot.
pub open spec fn selection_mismatch(selection: Option<EnqueueSchemaSelection>) -> Option<
    Seq<char>,
> {
    match selection {
        None => Some("the caller transaction has no current schema"@),
        Some(found) => if found.marker_table && found.events_table && found.deliveries_table {
            None
        } else {
            Some(
                "current schema "@ + found.schema_name@
                    + " does not contain the Dovecote tables"@,
            )
        },
    }
}

/// Why the schema marker cannot be used, if it cannot.
pub open spec fn enqueue_marker_mismatch(marker: Option<SchemaMarker>) -> Option<Seq<char>> {
    match marker {
        None => Some("schema marker is missing"@),
        Some(found) => marker_mismatch(found, baseline()),
    }
}

/// Whether a step reports a schema mismatch with that text.
pub open spec fn fails_with_mismatch(step: EnqueueStep, text: Seq<char>) -> bool {
    step matches EnqueueStep::Failed(EnqueueError::MigrationMismatch { detail }) && detail@ == text
}

/// Where the reply to the insert of an event leads.
pub open spec fn event_insert_leads(
    reply: Result<Option<InsertedEvent>, sqlx::Error>,
    next: EnqueueStep,
) -> bool {
    match reply {
        Err(source) => next == EnqueueStep::Failed(
            EnqueueError::failed("insert event", source),
        ),
        Ok(None) => next is FindDuplicate,
        Ok(Some(inserted)) => match row_id_error(inserted.row_id as int) {
            Some(text) => next matches EnqueueStep::Failed(
                EnqueueError::Serialization { detail },
            ) && detail@ == text,
            None => next matches EnqueueStep::InsertDelivery { row_id, available_at }
                && row_id@ == inserted.row_id && available_at == inserted.enqueued_at,
        },
    }
}

/// Where the reply to the insert of a delivery leads.
pub open spec fn delivery_insert_leads(
    row_id: RowId,
    reply: Result<(), sqlx::Error>,
    next: EnqueueStep,
) -> bool {
    match reply {
        Err(source) => next == EnqueueStep::Failed(
            EnqueueError::failed("insert delivery", source),
        ),
        Ok(()) => next == EnqueueStep::Done(EnqueueOutcome::Enqueued { row_id }),
    }
}

/// Where the row that holds an event's identity leads.
pub open spec fn duplicate_leads(
    event: EventView,
    reply: Result<Option<ExistingEvent>, sqlx::Error>,
    next: EnqueueStep,
) -> bool {
    match reply {
        Err(source) => next == EnqueueStep::Failed(
            EnqueueError::failed("find duplicate event", source),
        ),
        Ok(None) => next matches EnqueueStep::Failed(error) && exists|source: sqlx::Error|
            {
                &&& #[trigger] protocol_message(source) == Some(
                    "expected a row after a successful identity lookup"@,
                )
                &&& error == EnqueueError::failed("resolve duplicate event", source)
            },
        Ok(Some(existing)) => match resolution(event, existing) {
            Resolution::Invalid(text) => next matches EnqueueStep::Failed(
                EnqueueError::Serialization { detail },
            ) && detail@ == text,
            Resolution::Differs => next matches EnqueueStep::Failed(
                EnqueueError::IdempotencyConflict { existing_row_id },
            ) && existing_row_id@ == existing.row_id,
            Resolution::Same => next matches EnqueueStep::CheckDelivery { row_id }
                && row_id@ == existing.row_id,
        },
    }
}

/// Where the look for a delivery of the row found leads.
pub open spec fn delivery_check_leads(
    row_id: RowId,
    reply: Result<Option<i64>, sqlx::Error>,
    next: EnqueueStep,
) -> bool {
    match reply {
        Err(source) => next == EnqueueStep::Failed(
            EnqueueError::failed("check duplicate delivery", source),
        ),
        Ok(None) => fails_with_mismatch(next, "an existing event has no delivery row"@),
        Ok(Some(_)) => next == EnqueueStep::Done(
            EnqueueOutcome::AlreadyEnqueued { row_id },
        ),
    }
}

impl EnqueueStep {
    /// How many statements at most are still to come.
    pub open spec fn distance(self) -> nat {
        match self {
            EnqueueStep::SelectSchema => 5,
            EnqueueStep::ReadMarker => 4,
            EnqueueStep::InsertEvent => 3,
            EnqueueStep::FindDuplicate => 2,
            EnqueueStep::InsertDelivery { .. } => 1,
            EnqueueStep::CheckDelivery { .. } => 1,
            EnqueueStep::Done(_) => 0,
            EnqueueStep::Failed(_) => 0,
        }
    }

    /// Decides on the selected namespace.
    pub fn after_selection(reply: Result<Option<EnqueueSchemaSelection>, sqlx::Error>) -> (next:
        EnqueueStep)
        ensures
            match reply {
                Err(source) => next == EnqueueStep::Failed(
                    EnqueueError::failed("validate enqueue schema selection", source),
                ),
                Ok(selection) => match selection_mismatch(selection) {
                    Some(text) => fails_with_mismatch(next, text),
                    None => next is ReadMarker,
                },
            },
            next.distance() < EnqueueStep::SelectSchema.distance(),
    {
        let selection = match reply {
            Err(source) => return EnqueueStep::Failed(
                EnqueueError::sql("validate enqueue schema selection", source),
            ),
            Ok(selection) => selection,
        };
        match selection {
            None => EnqueueStep::Failed(
                EnqueueError::MigrationMismatch {
                    detail: "the caller transaction has no current schema".to_owned(),
                },
            ),
            Some(found) => if found.marker_table && found.events_table && found.deliveries_table {
                EnqueueStep::ReadMarker
            } else {
                let detail = "current schema ".to_owned().concat(
                    found.schema_name.as_str(),
                ).concat(" does not contain the Dovecote tables");
                EnqueueStep::Failed(EnqueueError::MigrationMismatch { detail })
            },
        }
    }

    /// Decides on the schema marker with the highest version.
    pub fn after_marker(reply: Result<Option<SchemaMarker>, sqlx::Error>) -> (next: EnqueueStep)
        ensures
            match reply {
                Err(source) => next == EnqueueStep::Failed(
                    EnqueueError::failed("check enqueue schema marker", source),
                ),
                Ok(marker) => match enqueue_marker_mismatch(marker) {
                    Some(text) => fails_with_mismatch(next, text),
                    None => next is InsertEvent,
                },
            },
            next.distance() < EnqueueStep::ReadMarker.distance(),
    {
        let marker = match reply {
            Err(source) => return EnqueueStep::Failed(
                EnqueueError::sql("check enqueue schema marker", source),
            ),
            Ok(Some(marker)) => marker,
            Ok(None) => return EnqueueStep::Failed(
                EnqueueError::MigrationMismatch { detail: "schema marker is missing".to_owned() },
            ),
        };
        let migration = match current_migration() {
            Ok(migration) => migration,
            Err(detail) => return EnqueueStep::Failed(EnqueueError::MigrationMismatch { detail }),
        };
        match marker_matches_migration(&marker, migration) {
            Ok(()) => EnqueueStep::InsertEvent,
            Err(detail) => EnqueueStep::Failed(EnqueueError::MigrationMismatch { detail }),
        }
    }

    /// Decides on the inserted event row. No row means that the identity is
    /// taken.
    pub fn after_event_insert(reply: Result<Option<InsertedEvent>, sqlx::Error>) -> (next:
        EnqueueStep)
        ensures
            event_insert_leads(reply, next),
            next.distance() < EnqueueStep::InsertEvent.distance(),
    {
        match reply {
            Err(source) => EnqueueStep::Failed(EnqueueError::sql("insert event", source)),
            Ok(None) => EnqueueStep::FindDuplicate,
            Ok(Some(inserted)) => match RowId::new(inserted.row_id) {
                Ok(row_id) => EnqueueStep::InsertDelivery {
                    row_id,
                    available_at: inserted.enqueued_at,
                },
                Err(error) => EnqueueStep::Failed(EnqueueError::serialization(error)),
            },
        }
    }

    /// Decides on the inserted delivery row.
    pub fn after_delivery_insert(row_id: RowId, reply: Result<(), sqlx::Error>) -> (next:
        EnqueueStep)
        ensures
            delivery_insert_leads(row_id, reply, next),
    {
        match reply {
            Err(source) => EnqueueStep::Failed(EnqueueError::sql("insert delivery", source)),
            Ok(()) => EnqueueStep::Done(EnqueueOutcome::Enqueued { row_id }),
        }
    }

    /// Decides on the row that holds the event's identity: only the same
    /// immutable content is a repeated enqueue.
    pub fn after_duplicate(
        event: &EventContent,
        reply: Result<Option<ExistingEvent>, sqlx::Error>,
    ) -> (next: EnqueueStep)
        ensures
            duplicate_leads(event@, reply, next),
            next.distance() < EnqueueStep::FindDuplicate.distance(),
    {
        let existing = match reply {
            Err(source) => return EnqueueStep::Failed(
                EnqueueError::sql("find duplicate event", source),
            ),
            Ok(None) => return EnqueueStep::Failed(
                EnqueueError::sql(
                    "resolve duplicate event",
                    protocol_error("expected a row after a successful identity lookup"),
                ),
            ),
            Ok(Some(existing)) => existing,
        };
        let existing_id = match RowId::new(existing.row_id) {
            Ok(row_id) => row_id,
            Err(error) => return EnqueueStep::Failed(EnqueueError::serialization(error)),
        };
        match validate_existing_event(&existing) {
            Ok(()) => {},
            Err(error) => return EnqueueStep::Failed(EnqueueError::serialization(error)),
        }
        if !same_event(event, &existing) {
            return EnqueueStep::Failed(
                EnqueueError::IdempotencyConflict { existing_row_id: existing_id },
            );
        }
        EnqueueStep::CheckDelivery { row_id: existing_id }
    }

    /// Decides on whether the row found has a delivery.
    pub fn after_delivery_check(row_id: RowId, reply: Result<Option<i64>, sqlx::Error>) -> (next:
        EnqueueStep)
        ensures
            delivery_check_leads(row_id, reply, next),
    {
        match reply {
            Err(source) => EnqueueStep::Failed(
                EnqueueError::sql("check duplicate delivery", source),
            ),
            Ok(None) => EnqueueStep::Failed(
                EnqueueError::MigrationMismatch {
                    detail: "an existing event has no delivery row".to_owned(),
                },
            ),
            Ok(Some(_)) => EnqueueStep::Done(EnqueueOutcome::AlreadyEnqueued { row_id }),
        }
    }
}

/// Enqueueing goes on only in a namespace that holds the three tables, and only under
/// the marker of version 2 for crates from version 0.2.0 on without rolling
/// compatibility.
pub proof fn enqueueing_needs_the_schema(
    selection: Result<Option<EnqueueSchemaSelection>, sqlx::Error>,
    selected: EnqueueStep,
    marker: Result<Option<SchemaMarker>, sqlx::Error>,
    marked: EnqueueStep,
)
    requires
        call_ensures(EnqueueStep::after_selection, (selection,), selected),
        call_ensures(EnqueueStep::after_marker, (marker,), marked),
    ensures
        selected is ReadMarker <==> (selection matches Ok(Some(found)) && found.marker_table
            && found.events_table && found.deliveries_table),
        !(selected is ReadMarker) ==> selected is Failed,
        selection is Ok && selected is Failed ==> selected->Failed_0 is MigrationMismatch,
        marked is InsertEvent <==> (marker matches Ok(Some(found)) && found.schema_version == 2
            && found.minimum_crate_major == 0 && found.minimum_crate_minor == 2
            && found.minimum_crate_patch == 0 && !found.rolling_compatible),
        !(marked is InsertEvent) ==> marked is Failed,
        marker is Ok && marked is Failed ==> marked->Failed_0 is MigrationMismatch,
{
}

/// A new event gets its pending delivery, available from the time at which the event
/// was enqueued, and is reported as enqueued under its row once that is stored. No
/// row means that the identity is taken.
pub proof fn new_events_get_their_delivery(
    reply: Result<Option<InsertedEvent>, sqlx::Error>,
    next: EnqueueStep,
    row_id: RowId,
    stored: Result<(), sqlx::Error>,
    ended: EnqueueStep,
)
    requires
        call_ensures(EnqueueStep::after_event_insert, (reply,), next),
        call_ensures(EnqueueStep::after_delivery_insert, (row_id, stored), ended),
    ensures
        next is FindDuplicate <==> (reply is Ok && reply->Ok_0 is None),
        reply matches Ok(Some(inserted)) ==> (if inserted.row_id > 0 {
            next matches EnqueueStep::InsertDelivery { row_id, available_at } && row_id@
                == inserted.row_id && available_at@ == inserted.enqueued_at@
        } else {
            next matches EnqueueStep::Failed(error) && error is Serialization
        }),
        reply is Err ==> next is Failed,
        stored is Ok ==> ended == EnqueueStep::Done(EnqueueOutcome::Enqueued { row_id }),
        stored is Err ==> ended is Failed,
{
}

/// An event whose identity is taken counts as enqueued before exactly if the row
/// there is a valid event row that holds the same content and has a delivery. Other
/// content is a conflict, which names the row.
pub proof fn only_the_same_event_is_enqueued_again(
    event: &EventContent,
    existing: ExistingEvent,
    next: EnqueueStep,
    row_id: RowId,
    reply: Result<Option<i64>, sqlx::Error>,
    ended: EnqueueStep,
)
    requires
        call_ensures(EnqueueStep::after_duplicate, (event, Ok(Some(existing))), next),
        call_ensures(EnqueueStep::after_delivery_check, (row_id, reply), ended),
    ensures
        ({
            let valid = existing.row_id > 0 && make_event(
                existing.columns@,
                optional_instant(existing.occurred_at),
            );
            let same = hold_event(existing.columns, *event) && optional_instant(
                existing.occurred_at,
            ) == optional_instant(event.time);
            &&& !valid ==> (next matches EnqueueStep::Failed(error) && error is Serialization)
            &&& valid && same ==> (next matches EnqueueStep::CheckDelivery { row_id } && row_id@
                == existing.row_id)
            &&& valid && !same ==> (next matches EnqueueStep::Failed(
                EnqueueError::IdempotencyConflict { existing_row_id },
            ) && existing_row_id@ == existing.row_id)
        }),
        reply matches Ok(Some(_)) ==> ended == EnqueueStep::Done(
            EnqueueOutcome::AlreadyEnqueued { row_id },
        ),
        reply matches Ok(None) ==> (ended matches EnqueueStep::Failed(error) && error
            is MigrationMismatch),
        reply is Err ==> ended is Failed,
{
    columns_that_make_an_event_are_read_as_it(
        existing.columns@,
        optional_instant(existing.occurred_at),
    );
    lemma_holding(existing.columns, *event);
}

/// An identity that is taken and that no row holds is no outcome.
pub proof fn a_taken_identity_has_a_row(
    event: &EventContent,
    reply: Result<Option<ExistingEvent>, sqlx::Error>,
    next: EnqueueStep,
)
    requires
        reply is Err || reply->Ok_0 is None,
        call_ensures(EnqueueStep::after_duplicate, (event, reply), next),
    ensures
        next is Failed,
{
}

/// A query that failed is reported under its own name, with its own failure.
pub proof fn failed_queries_are_reported_by_name(
    source: sqlx::Error,
    event: &EventContent,
    row_id: RowId,
    selection_reply: EnqueueStep,
    marker_reply: EnqueueStep,
    event_insert_reply: EnqueueStep,
    delivery_insert_reply: EnqueueStep,
    duplicate_reply: EnqueueStep,
    delivery_check_reply: EnqueueStep,
)
    requires
        call_ensures(EnqueueStep::after_selection, (Err(source),), selection_reply),
        call_ensures(EnqueueStep::after_marker, (Err(source),), marker_reply),
        call_ensures(EnqueueStep::after_event_insert, (Err(source),), event_insert_reply),
        call_ensures(EnqueueStep::after_delivery_insert, (row_id, Err(source)), delivery_insert_reply),
        call_ensures(EnqueueStep::after_duplicate, (event, Err(source)), duplicate_reply),
        call_ensures(EnqueueStep::after_delivery_check, (row_id, Err(source)), delivery_check_reply),
    ensures
        selection_reply == EnqueueStep::Failed(EnqueueError::failed("validate enqueue schema selection", source)),
        marker_reply == EnqueueStep::Failed(EnqueueError::failed("check enqueue schema marker", source)),
        event_insert_reply == EnqueueStep::Failed(EnqueueError::failed("insert event", source)),
        delivery_insert_reply == EnqueueStep::Failed(EnqueueError::failed("insert delivery", source)),
        duplicate_reply == EnqueueStep::Failed(EnqueueError::failed("find duplicate event", source)),
        delivery_check_reply == EnqueueStep::Failed(EnqueueError::failed("check duplicate delivery", source)),
{
}

/// What keeps an event from being enqueued is told: no current schema, a schema without
/// the tables, by its name, no marker, or an existing event without a delivery.
pub proof fn mismatches_are_told(
    found: EnqueueSchemaSelection,
    unselected: EnqueueStep,
    selected: EnqueueStep,
    unmarked: EnqueueStep,
    row_id: RowId,
    undelivered: EnqueueStep,
)
    requires
        call_ensures(EnqueueStep::after_selection, (Ok(None),), unselected),
        call_ensures(EnqueueStep::after_selection, (Ok(Some(found)),), selected),
        call_ensures(EnqueueStep::after_marker, (Ok(None),), unmarked),
        call_ensures(EnqueueStep::after_delivery_check, (row_id, Ok(None)), undelivered),
    ensures
        unselected matches EnqueueStep::Failed(EnqueueError::MigrationMismatch { detail }) && detail@
            == "the caller transaction has no current schema"@,
        !(found.marker_table && found.events_table && found.deliveries_table) ==> (
        selected matches EnqueueStep::Failed(EnqueueError::MigrationMismatch { detail }) && detail@
            == "current schema "@ + found.schema_name@ + " does not contain the Dovecote tables"@),
        unmarked matches EnqueueStep::Failed(EnqueueError::MigrationMismatch { detail }) && detail@
            == "schema marker is missing"@,
        undelivered matches EnqueueStep::Failed(EnqueueError::MigrationMismatch { detail })
            && detail@ == "an existing event has no delivery row"@,
{
}

/// An identity that is taken by no row is reported as a failed query that says so.
pub proof fn a_lost_identity_is_told(event: &EventContent, next: EnqueueStep)
    requires
        call_ensures(EnqueueStep::after_duplicate, (event, Ok(None)), next),
    ensures
        next matches EnqueueStep::Failed(error) && exists|source: sqlx::Error|
            #![trigger protocol_message(source)]
            {
                &&& protocol_message(source) == Some("expected a row after a successful identity lookup"@)
                &&& error == EnqueueError::failed("resolve duplicate event", source)
            },
{
}

} // verus!
