//! What repeated enqueues and imports on PostgreSQL lead to.
//!
//! The laws run the steps of one call after another against the model of the two
//! tables: an insert under a taken identity inserts nothing, and a look-up finds the
//! row that holds the identity.

use crate::event::{is_valid_event, stored_columns, EventView};
use crate::imported::{ImportOutcome, ImportedView, EnqueueOutcome};
use crate::instant::optional_instant;
use crate::postgres::delivery_state::{
    a_row_matches_one_state, is_imported, untouched_row, DeliveryRow, DeliveryRowView,
};
use crate::postgres::enqueue::{
    a_row_resolves_to_one_event, delivery_check_leads, delivery_insert_leads, duplicate_leads,
    event_insert_leads, is_same_event, resolution,
    stored_events_resolve_to_themselves, EnqueueStep, ExistingEvent, InsertedEvent, Resolution,
};
use crate::postgres::error::{EnqueueError, ImportError};
use crate::postgres::import::{self, written_row, ImportStep};
use crate::store::{
    a_free_identity_is_taken_once, has_unique_identities, holds_identity, is_taken, with_event,
    EventRow, Store,
};
use vstd::prelude::*;

verus! {

/// The tables as PostgreSQL keeps them.
pub type Tables = Store<int, DeliveryRowView>;

/// The row of an event that was enqueued at that time.
pub open spec fn event_row(tenant: Seq<char>, event: EventView, enqueued_at: int) -> EventRow<
    int,
> {
    EventRow {
        tenant,
        columns: stored_columns(event),
        occurred_at: event.time,
        enqueued_at,
    }
}

/// Whether a row that was read is the one that the tables hold.
pub open spec fn is_read_from(existing: ExistingEvent, tables: Tables) -> bool {
    let row = tables.events[existing.row_id as int];
    &&& existing.row_id > 0
    &&& tables.events.dom().contains(existing.row_id as int)
    &&& existing.columns@ == row.columns
    &&& optional_instant(existing.occurred_at) == row.occurred_at
    &&& existing.enqueued_at@ == row.enqueued_at
}

/// One enqueue: what the database replied, the steps after the insert and after the
/// look-up, and the last step.
pub ghost struct EnqueueRun {
    pub inserted: Option<InsertedEvent>,
    pub existing: Option<ExistingEvent>,
    pub delivery: Option<i64>,
    pub after_insert: EnqueueStep,
    pub after_look: EnqueueStep,
    pub last: EnqueueStep,
}

/// Whether a run is one of an enqueue against the tables, which it leaves as
/// `after`.
pub open spec fn is_enqueue(
    before: Tables,
    tenant: Seq<char>,
    event: EventView,
    run: EnqueueRun,
    after: Tables,
) -> bool {
    &&& run.inserted is Some <==> !is_taken(before, tenant, event)
    &&& run.inserted matches Some(new) ==> new.row_id > 0 && !before.events.dom().contains(
        new.row_id as int,
    )
    &&& is_taken(before, tenant, event) ==> {
        &&& run.existing matches Some(existing)
        &&& is_read_from(existing, before)
        &&& holds_identity(before, existing.row_id as int, tenant, event)
        &&& run.delivery is Some <==> before.deliveries.dom().contains(existing.row_id as int)
    }
    &&& event_insert_leads(Ok(run.inserted), run.after_insert)
    &&& match run.after_insert {
        EnqueueStep::InsertDelivery { row_id, available_at } => {
            &&& delivery_insert_leads(row_id, Ok(()), run.last)
            &&& after == with_event(
                before,
                row_id@,
                event_row(tenant, event, run.inserted->0.enqueued_at@),
                untouched_row("pending"@, None, available_at@),
            )
        },
        EnqueueStep::FindDuplicate => {
            &&& after == before
            &&& duplicate_leads(event, Ok(run.existing), run.after_look)
            &&& match run.after_look {
                EnqueueStep::CheckDelivery { row_id } => delivery_check_leads(
                    row_id,
                    Ok(run.delivery),
                    run.last,
                ),
                _ => run.last == run.after_look,
            }
        },
        _ => after == before && run.last == run.after_insert,
    }
}

/// An event under a free identity is enqueued under a new row, with one pending
/// delivery that is available from the time of the enqueue. Identities stay unique,
/// and none but that of the event is taken, so other tenants are not touched.
pub proof fn a_free_identity_is_enqueued(
    before: Tables,
    tenant: Seq<char>,
    event: EventView,
    run: EnqueueRun,
    after: Tables,
)
    requires
        has_unique_identities(before),
        !is_taken(before, tenant, event),
        is_enqueue(before, tenant, event, run, after),
    ensures
        run.last matches EnqueueStep::Done(EnqueueOutcome::Enqueued { row_id }) && {
            &&& row_id@ > 0
            &&& !before.events.dom().contains(row_id@)
            &&& after.events == before.events.insert(
                row_id@,
                event_row(tenant, event, run.inserted->0.enqueued_at@),
            )
            &&& after.deliveries == before.deliveries.insert(
                row_id@,
                untouched_row("pending"@, None, run.inserted->0.enqueued_at@),
            )
            &&& holds_identity(after, row_id@, tenant, event)
        },
        has_unique_identities(after),
        forall|other: Seq<char>, second: EventView|
            other != tenant || second.source != event.source || second.event_id != event.event_id
                ==> #[trigger] is_taken(after, other, second) == is_taken(before, other, second),
{
    let row = run.inserted->0.row_id as int;
    let at = run.inserted->0.enqueued_at@;
    a_free_identity_is_taken_once(
        before,
        row,
        tenant,
        event,
        event_row(tenant, event, at),
        untouched_row("pending"@, None, at),
    );
}

/// How a valid event resolves against the row of another: as the same event if they
/// are equal, as different if not.
proof fn lemma_resolution_against(
    first: EventView,
    second: EventView,
    tenant: Seq<char>,
    enqueued_at: int,
    existing: ExistingEvent,
)
    requires
        is_valid_event(first),
        is_valid_event(second),
        existing.row_id > 0,
        existing.columns@ == event_row(tenant, first, enqueued_at).columns,
        optional_instant(existing.occurred_at) == event_row(tenant, first, enqueued_at).occurred_at,
    ensures
        first == second ==> resolution(second, existing) is Same,
        first != second ==> resolution(second, existing) is Differs,
{
    assert(is_same_event(first, existing));
    stored_events_resolve_to_themselves(first, existing);
    if resolution(second, existing) is Same {
        a_row_resolves_to_one_event(first, second, existing);
    }
}

/// An event under a taken identity is answered from the row that holds it, and
/// changes nothing: the same event was enqueued before, another is a conflict.
pub proof fn a_taken_identity_is_resolved(
    before: Tables,
    tenant: Seq<char>,
    row: int,
    first: EventView,
    enqueued_at: int,
    second: EventView,
    run: EnqueueRun,
    after: Tables,
)
    requires
        has_unique_identities(before),
        holds_identity(before, row, tenant, second),
        before.events[row] == event_row(tenant, first, enqueued_at),
        before.deliveries.dom().contains(row),
        is_valid_event(first),
        is_valid_event(second),
        is_enqueue(before, tenant, second, run, after),
    ensures
        after == before,
        first == second ==> (run.last matches EnqueueStep::Done(
            EnqueueOutcome::AlreadyEnqueued { row_id },
        ) && row_id@ == row),
        first != second ==> (run.last matches EnqueueStep::Failed(
            EnqueueError::IdempotencyConflict { existing_row_id },
        ) && existing_row_id@ == row),
{
    let existing = run.existing->0;
    assert(holds_identity(before, existing.row_id as int, tenant, second));
    lemma_resolution_against(first, second, tenant, enqueued_at, existing);
}

/// Enqueueing is idempotent: after an event was enqueued, the same event is
/// acknowledged under the row that it got, and another under its identity is a
/// conflict with that row. Neither changes the tables.
pub proof fn enqueueing_is_idempotent(
    before: Tables,
    tenant: Seq<char>,
    first: EventView,
    first_run: EnqueueRun,
    middle: Tables,
    second: EventView,
    second_run: EnqueueRun,
    after: Tables,
)
    requires
        has_unique_identities(before),
        !is_taken(before, tenant, first),
        is_valid_event(first),
        is_valid_event(second),
        first.source == second.source,
        first.event_id == second.event_id,
        is_enqueue(before, tenant, first, first_run, middle),
        is_enqueue(middle, tenant, second, second_run, after),
    ensures
        first_run.last matches EnqueueStep::Done(EnqueueOutcome::Enqueued { row_id: row }) && {
            &&& after == middle
            &&& first == second ==> (second_run.last matches EnqueueStep::Done(
                EnqueueOutcome::AlreadyEnqueued { row_id },
            ) && row_id@ == row@)
            &&& first != second ==> (second_run.last matches EnqueueStep::Failed(
                EnqueueError::IdempotencyConflict { existing_row_id },
            ) && existing_row_id@ == row@)
        },
{
    a_free_identity_is_enqueued(before, tenant, first, first_run, middle);
    let row = first_run.inserted->0.row_id as int;
    assert(holds_identity(middle, row, tenant, first));
    assert(holds_identity(middle, row, tenant, second));
    a_taken_identity_is_resolved(
        middle,
        tenant,
        row,
        first,
        first_run.inserted->0.enqueued_at@,
        second,
        second_run,
        after,
    );
}

/// One import: what the database replied, the steps after the insert and after the
/// look-up, and the last step.
pub ghost struct ImportRun {
    pub inserted: Option<i64>,
    pub existing: Option<ExistingEvent>,
    pub delivery: Option<DeliveryRow>,
    pub after_insert: ImportStep,
    pub after_look: ImportStep,
    pub last: ImportStep,
}

/// Whether a run is one of an import at that operation time against the tables,
/// which it leaves as `after`.
pub open spec fn is_import(
    before: Tables,
    tenant: Seq<char>,
    event: EventView,
    state: ImportedView,
    operation_time: int,
    run: ImportRun,
    after: Tables,
) -> bool {
    &&& run.inserted is Some <==> !is_taken(before, tenant, event)
    &&& run.inserted matches Some(row) ==> row > 0 && !before.events.dom().contains(row as int)
    &&& is_taken(before, tenant, event) ==> {
        &&& run.existing matches Some(existing)
        &&& is_read_from(existing, before)
        &&& holds_identity(before, existing.row_id as int, tenant, event)
        &&& run.delivery is Some <==> before.deliveries.dom().contains(existing.row_id as int)
        &&& run.delivery matches Some(delivery) ==> delivery@
            == before.deliveries[existing.row_id as int]
    }
    &&& import::event_insert_leads(state, operation_time, Ok(run.inserted), run.after_insert)
    &&& match run.after_insert {
        ImportStep::InsertDelivery { row_id, delivery } => {
            &&& import::delivery_insert_leads(row_id, Ok(()), run.last)
            &&& after == with_event(
                before,
                row_id@,
                event_row(tenant, event, operation_time),
                written_row(delivery),
            )
        },
        ImportStep::FindExisting => {
            &&& after == before
            &&& import::existing_leads(event, Ok(run.existing), run.after_look)
            &&& match run.after_look {
                ImportStep::ReadDelivery { row_id, enqueued_at } => import::delivery_leads(
                    row_id,
                    enqueued_at@,
                    state,
                    Ok(run.delivery),
                    run.last,
                ),
                _ => run.last == run.after_look,
            }
        },
        _ => after == before && run.last == run.after_insert,
    }
}

/// An event under a free identity is imported under a new row, with the untouched
/// delivery of its state: no attempt was made, it is available from the operation
/// time, and a delivery time is stored as it was given. Identities stay unique, and
/// none but that of the event is taken.
pub proof fn a_free_identity_is_imported(
    before: Tables,
    tenant: Seq<char>,
    event: EventView,
    state: ImportedView,
    operation_time: int,
    run: ImportRun,
    after: Tables,
)
    requires
        has_unique_identities(before),
        !is_taken(before, tenant, event),
        !(state is Unsupported),
        is_import(before, tenant, event, state, operation_time, run, after),
    ensures
        run.last matches ImportStep::Done(ImportOutcome::Imported { row_id }) && {
            &&& row_id@ > 0
            &&& !before.events.dom().contains(row_id@)
            &&& after.events == before.events.insert(
                row_id@,
                event_row(tenant, event, operation_time),
            )
            &&& after.deliveries.dom() == before.deliveries.dom().insert(row_id@)
            &&& after.deliveries == before.deliveries.insert(row_id@, after.deliveries[row_id@])
            &&& is_imported(after.deliveries[row_id@], state, operation_time)
            &&& holds_identity(after, row_id@, tenant, event)
        },
        has_unique_identities(after),
        forall|other: Seq<char>, second: EventView|
            other != tenant || second.source != event.source || second.event_id != event.event_id
                ==> #[trigger] is_taken(after, other, second) == is_taken(before, other, second),
{
    let row = run.inserted->0 as int;
    let delivery = written_row(run.after_insert->delivery);
    a_free_identity_is_taken_once(
        before,
        row,
        tenant,
        event,
        event_row(tenant, event, operation_time),
        delivery,
    );
    assert(after.deliveries[row] == delivery);
    assert(after.deliveries == before.deliveries.insert(row, delivery));
    assert(after.deliveries.dom() == before.deliveries.dom().insert(row));
}

/// An import under a taken identity is answered from the row that holds it, and
/// changes nothing: the same event in the same state was imported before, the same
/// event in another state is a conflict of the state, and another event one of the
/// identity.
pub proof fn a_taken_identity_is_compared(
    before: Tables,
    tenant: Seq<char>,
    row: int,
    first: EventView,
    first_state: ImportedView,
    imported_at: int,
    second: EventView,
    second_state: ImportedView,
    operation_time: int,
    run: ImportRun,
    after: Tables,
)
    requires
        has_unique_identities(before),
        holds_identity(before, row, tenant, second),
        before.events[row] == event_row(tenant, first, imported_at),
        before.deliveries.dom().contains(row),
        is_imported(before.deliveries[row], first_state, imported_at),
        !(second_state is Unsupported),
        is_valid_event(first),
        is_valid_event(second),
        is_import(before, tenant, second, second_state, operation_time, run, after),
    ensures
        after == before,
        first == second && first_state == second_state ==> (run.last matches ImportStep::Done(
            ImportOutcome::AlreadyImported { row_id },
        ) && row_id@ == row),
        first == second && first_state != second_state ==> (run.last matches ImportStep::Failed(
            ImportError::ImportConflict { existing_row_id },
        ) && existing_row_id@ == row),
        first != second ==> (run.last matches ImportStep::Failed(
            ImportError::IdentityConflict { existing_row_id },
        ) && existing_row_id@ == row),
{
    let existing = run.existing->0;
    assert(holds_identity(before, existing.row_id as int, tenant, second));
    lemma_resolution_against(first, second, tenant, imported_at, existing);
    if is_imported(before.deliveries[row], second_state, imported_at) {
        a_row_matches_one_state(before.deliveries[row], first_state, second_state, imported_at);
    }
}

/// Importing is idempotent: after an event was imported in a state, the same event
/// in that state is acknowledged under the row that it got; the same event in
/// another state, and another event under its identity, are conflicts with that row.
/// None of the three changes the tables.
pub proof fn importing_is_idempotent(
    before: Tables,
    tenant: Seq<char>,
    first: EventView,
    first_state: ImportedView,
    first_time: int,
    first_run: ImportRun,
    middle: Tables,
    second: EventView,
    second_state: ImportedView,
    second_time: int,
    second_run: ImportRun,
    after: Tables,
)
    requires
        has_unique_identities(before),
        !is_taken(before, tenant, first),
        !(first_state is Unsupported),
        !(second_state is Unsupported),
        is_valid_event(first),
        is_valid_event(second),
        first.source == second.source,
        first.event_id == second.event_id,
        is_import(before, tenant, first, first_state, first_time, first_run, middle),
        is_import(middle, tenant, second, second_state, second_time, second_run, after),
    ensures
        first_run.last matches ImportStep::Done(ImportOutcome::Imported { row_id: row }) && {
            &&& after == middle
            &&& first == second && first_state == second_state ==> (
            second_run.last matches ImportStep::Done(
                ImportOutcome::AlreadyImported { row_id },
            ) && row_id@ == row@)
            &&& first == second && first_state != second_state ==> (
            second_run.last matches ImportStep::Failed(
                ImportError::ImportConflict { existing_row_id },
            ) && existing_row_id@ == row@)
            &&& first != second ==> (second_run.last matches ImportStep::Failed(
                ImportError::IdentityConflict { existing_row_id },
            ) && existing_row_id@ == row@)
        },
{
    a_free_identity_is_imported(
        before,
        tenant,
        first,
        first_state,
        first_time,
        first_run,
        middle,
    );
    let row = first_run.inserted->0 as int;
    assert(holds_identity(middle, row, tenant, first));
    assert(holds_identity(middle, row, tenant, second));
    a_taken_identity_is_compared(
        middle,
        tenant,
        row,
        first,
        first_state,
        first_time,
        second,
        second_state,
        second_time,
        second_run,
        after,
    );
}

} // verus!
