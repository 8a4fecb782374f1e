//! Live and finite snapshot paging on PostgreSQL.

use crate::attribute::{tenant_id, tenant_id_error};
use crate::delivery::{
    bare_delivery, paged_event, parse_failure, stored_failure, DeliveryView, HydratedDelivery, HydratedPage,
    PageView,
};
use crate::event::{
    columns_that_make_an_event_are_read_as_it, copied_bytes, copied_text,
    hydrated_events_store_back, hydration, is_valid_event, make_event, stored_columns,
    stored_events_read_back, EventColumns, EventView,
};
use crate::instant::{instant_error, optional_instant, Instant};
use crate::paging::{begun, SnapshotCursor};
use crate::postgres::delivery_state::{untouched_row, DeliveryRowView};
use crate::postgres::error::PageError;
use crate::postgres::hydrate::hydrate_event;
use crate::snapshot::{
    hydrate_delivery, optional_time, row_refusal, shown_delivery, StoredDelivery, StoredView,
    WorkerCheck,
};
use crate::text::{optional_bytes, optional_text, signed_decimal, signed_text};
use crate::transition::{
    has_valid_values, is_well_formed, paged_columns, well_formed_rows_are_shown, RowView,
};
use crate::value::{
    attempt_count, attempts_error, row_id_error, state_text, DeliveryState, RowId,
};
use vstd::prelude::*;

verus! {

/// One row of a page: an event, and its delivery where there is one.
#[derive(Debug)]
pub struct PageRow {
    pub row_id: i64,
    pub tenant_id: String,
    pub columns: EventColumns,
    pub occurred_at: Option<Instant>,
    pub enqueued_at: Instant,
    pub delivery: Option<PageDelivery>,
}

/// The delivery columns of a page row.
#[derive(Debug)]
pub struct PageDelivery {
    pub state: String,
    pub available_at: Instant,
    pub attempts: i64,
    pub claim_token: Option<Vec<u8>>,
    pub claimed_by: Option<String>,
    pub claim_expires_at: Option<Instant>,
    pub last_failure_code: Option<String>,
    pub last_failure_detail: Option<String>,
    pub delivered_at: Option<Instant>,
    pub quarantined_at: Option<Instant>,
    pub quarantine_reason: Option<String>,
}

/// The view of an optional time that needs no reading.
pub open spec fn known_time(value: Option<Instant>) -> Option<Result<int, Seq<char>>> {
    match value {
        Some(at) => Some(Ok(at@)),
        None => None,
    }
}

/// The delivery columns of a row, once its failure columns were read.
pub open spec fn delivery_columns(
    row: PageDelivery,
    failure: Option<(Seq<char>, Seq<char>)>,
) -> StoredView {
    StoredView {
        state: row.state@,
        available_at: row.available_at@,
        attempts: row.attempts as int,
        failure,
        claim_token: optional_bytes(row.claim_token),
        claimed_by: optional_text(row.claimed_by),
        claim_expires_at: known_time(row.claim_expires_at),
        delivered_at: known_time(row.delivered_at),
        quarantined_at: known_time(row.quarantined_at),
        quarantine_reason: optional_text(row.quarantine_reason),
    }
}

/// The delivery columns as an enqueue or an import writes them.
pub open spec fn stored_row(delivery: PageDelivery) -> DeliveryRowView {
    DeliveryRowView {
        state: delivery.state@,
        attempts: delivery.attempts as int,
        claim_token: optional_bytes(delivery.claim_token),
        claimed_by: optional_text(delivery.claimed_by),
        claim_expires_at: optional_instant(delivery.claim_expires_at),
        last_failure_code: optional_text(delivery.last_failure_code),
        last_failure_detail: optional_text(delivery.last_failure_detail),
        delivered_at: optional_instant(delivery.delivered_at),
        quarantined_at: optional_instant(delivery.quarantined_at),
        quarantine_reason: optional_text(delivery.quarantine_reason),
        available_at: delivery.available_at@,
    }
}

/// What a row says of an event without a delivery.
pub open spec fn missing_delivery(row_id: int) -> Seq<char> {
    "event row "@ + signed_text(row_id) + " has no required delivery row"@
}

/// What a delivery shows, or its first refusal in the order of validation.
pub open spec fn shown_state(delivery: PageDelivery) -> Result<DeliveryView, Seq<char>> {
    if attempts_error(delivery.attempts as int) is Some {
        Err(attempts_error(delivery.attempts as int)->0)
    } else {
        match stored_failure(
            optional_text(delivery.last_failure_code),
            optional_text(delivery.last_failure_detail),
        ) {
            Err(error) => Err(error),
            Ok(failure) => {
                let columns = delivery_columns(delivery, failure);
                if row_refusal(columns, WorkerCheck::Late) is Some {
                    Err(row_refusal(columns, WorkerCheck::Late)->0)
                } else {
                    Ok(shown_delivery(columns))
                }
            },
        }
    }
}

/// What a row shows on a page, or the first refusal in the order of validation.
/// An event without a delivery is refused, not skipped.
pub open spec fn shown_row(row: PageRow) -> Result<PageView, Seq<char>> {
    if tenant_id_error(row.tenant_id@) is Some {
        Err(tenant_id_error(row.tenant_id@)->0)
    } else if row_id_error(row.row_id as int) is Some {
        Err(row_id_error(row.row_id as int)->0)
    } else {
        match (hydration(row.columns@, Ok(optional_instant(row.occurred_at))), row.delivery) {
            (Err(error), _) => Err(error),
            (Ok(event), None) => Err(missing_delivery(row.row_id as int)),
            (Ok(event), Some(delivery)) => match shown_state(delivery) {
                Err(error) => Err(error),
                Ok(shown) => if instant_error("enqueued_at"@, row.enqueued_at@) is Some {
                    Err(instant_error("enqueued_at"@, row.enqueued_at@)->0)
                } else {
                    Ok(
                        PageView {
                            tenant_id: row.tenant_id@,
                            row_id: row.row_id as int,
                            event,
                            enqueued_at: row.enqueued_at@,
                            delivery: shown,
                        },
                    )
                },
            },
        }
    }
}

/// A time that needs no reading.
fn known(value: Option<Instant>) -> (time: Option<Result<Instant, String>>)
    ensures
        optional_time(time) == known_time(value),
{
    match value {
        Some(at) => Some(Ok(at)),
        None => None,
    }
}

/// Reconstructs and validates the delivery of one row.
fn hydrate_state(row: &PageDelivery) -> (result: Result<HydratedDelivery, String>)
    ensures
        match result {
            Ok(delivery) => shown_state(*row) == Ok::<DeliveryView, Seq<char>>(delivery@),
            Err(error) => shown_state(*row) == Err::<DeliveryView, Seq<char>>(error@),
        },
{
    let attempts: i64 = match attempt_count(row.attempts) {
        Ok(attempts) => attempts,
        Err(error) => return Err(error),
    };
    let failure = match parse_failure(
        copied_text(&row.last_failure_code),
        copied_text(&row.last_failure_detail),
    ) {
        Ok(failure) => failure,
        Err(error) => return Err(error),
    };
    let stored = StoredDelivery {
        state: row.state.clone(),
        available_at: row.available_at,
        attempts,
        failure,
        claim_token: copied_bytes(&row.claim_token),
        claimed_by: copied_text(&row.claimed_by),
        claim_expires_at: known(row.claim_expires_at),
        delivered_at: known(row.delivered_at),
        quarantined_at: known(row.quarantined_at),
        quarantine_reason: copied_text(&row.quarantine_reason),
    };
    assert(stored@ == delivery_columns(*row, stored@.failure));
    hydrate_delivery(stored, WorkerCheck::Late)
}

/// Reconstructs and validates one paged event from its row.
pub fn hydrate_page(row: &PageRow) -> (result: Result<HydratedPage, String>)
    ensures
        match result {
            Ok(page) => shown_row(*row) == Ok::<PageView, Seq<char>>(page@),
            Err(error) => shown_row(*row) == Err::<PageView, Seq<char>>(error@),
        },
{
    let tenant = match tenant_id(row.tenant_id.as_str()) {
        Ok(tenant) => tenant,
        Err(error) => return Err(error),
    };
    let row_id = match RowId::new(row.row_id) {
        Ok(row_id) => row_id,
        Err(error) => return Err(error),
    };
    let event = match hydrate_event(&row.columns, row.occurred_at) {
        Ok(event) => event,
        Err(error) => return Err(error),
    };
    let delivery = match &row.delivery {
        Some(delivery) => match hydrate_state(delivery) {
            Ok(delivery) => delivery,
            Err(error) => return Err(error),
        },
        None => {
            let named = "event row ".to_owned().concat(signed_decimal(row.row_id).as_str());
            return Err(named.concat(" has no required delivery row"));
        },
    };
    paged_event(tenant, row_id, event, row.enqueued_at, delivery)
}

/// Whether a page shows every row of a reply, or reports the first row that
/// shows nothing.
pub open spec fn shows_page(rows: Seq<PageRow>, result: Result<Vec<HydratedPage>, PageError>) -> bool {
    match result {
        Ok(page) => {
            &&& page@.len() == rows.len()
            &&& forall|i: int|
                0 <= i < rows.len() ==> shown_row(#[trigger] rows[i]) == Ok::<PageView, Seq<char>>(
                    page@[i]@,
                )
        },
        Err(error) => error matches PageError::Serialization { detail } && exists|k: int|
            {
                &&& 0 <= k < rows.len()
                &&& shown_row(#[trigger] rows[k]) == Err::<PageView, Seq<char>>(detail@)
                &&& forall|i: int| 0 <= i < k ==> shown_row(#[trigger] rows[i]) is Ok
            },
    }
}

fn hydrate_rows(rows: &Vec<PageRow>) -> (result: Result<Vec<HydratedPage>, PageError>)
    ensures
        shows_page(rows@, result),
{
    let mut page: Vec<HydratedPage> = Vec::new();
    let mut index: usize = 0;
    while index < rows.len()
        invariant
            index <= rows.len(),
            page@.len() == index,
            forall|i: int|
                0 <= i < index ==> shown_row(#[trigger] rows@[i]) == Ok::<PageView, Seq<char>>(
                    page@[i]@,
                ),
        decreases rows.len() - index,
    {
        match hydrate_page(&rows[index]) {
            Ok(shown) => page.push(shown),
            Err(detail) => return Err(PageError::serialization(detail)),
        }
        index += 1;
    }
    Ok(page)
}

/// Decides on the rows that a page query returned.
pub fn page_rows(reply: Result<Vec<PageRow>, sqlx::Error>) -> (result: Result<
    Vec<HydratedPage>,
    PageError,
>)
    ensures
        match reply {
            Err(source) => result == Err::<Vec<HydratedPage>, PageError>(
                PageError::failed("read event page", source),
            ),
            Ok(rows) => shows_page(rows@, result),
        },
{
    match reply {
        Err(source) => Err(PageError::sql("read event page", source)),
        Ok(rows) => hydrate_rows(&rows),
    }
}

/// Decides on the highest row that a snapshot shows: an export up to that row.
pub fn begin_export(reply: Result<Option<i64>, sqlx::Error>) -> (result: Result<
    SnapshotCursor,
    PageError,
>)
    ensures
        match (reply, result) {
            (Err(source), _) => result == Err::<SnapshotCursor, PageError>(
                PageError::failed("read snapshot upper row ID", source),
            ),
            (Ok(None), Ok(state)) => state@ == begun(None),
            (Ok(Some(row)), Ok(state)) => row_id_error(row as int) is None && state@ == begun(
                Some(row as int),
            ),
            (Ok(highest), Err(error)) => {
                &&& highest is Some
                &&& error matches PageError::Serialization { detail }
                &&& row_id_error(highest->0 as int) == Some(detail@)
            },
        },
{
    match reply {
        Err(source) => Err(PageError::sql("read snapshot upper row ID", source)),
        Ok(highest) => match SnapshotCursor::begin(highest) {
            Ok(state) => Ok(state),
            Err(detail) => Err(PageError::serialization(detail)),
        },
    }
}

/// An event that was enqueued is on the page: the row that an enqueue writes
/// shows that event, pending, with no attempt and no failure, available since it
/// was enqueued.
pub proof fn enqueued_events_are_paged(event: EventView, row: PageRow)
    requires
        is_valid_event(event),
        tenant_id_error(row.tenant_id@) is None,
        row_id_error(row.row_id as int) is None,
        instant_error("enqueued_at"@, row.enqueued_at@) is None,
        row.columns@ == stored_columns(event),
        optional_instant(row.occurred_at) == event.time,
        row.delivery matches Some(delivery) && stored_row(delivery) == untouched_row(
            "pending"@,
            None,
            row.enqueued_at@,
        ),
    ensures
        shown_row(row) == Ok::<PageView, Seq<char>>(
            PageView {
                tenant_id: row.tenant_id@,
                row_id: row.row_id as int,
                event,
                enqueued_at: row.enqueued_at@,
                delivery: bare_delivery(DeliveryState::Pending, row.enqueued_at@, 0, None),
            },
        ),
{
    stored_events_read_back(event);
}

/// A page shows all rows of a reply, one for each and in their order, or none: the
/// first row that shows nothing is reported.
pub proof fn pages_show_all_rows_or_none(
    reply: Result<Vec<PageRow>, sqlx::Error>,
    result: Result<Vec<HydratedPage>, PageError>,
)
    requires
        call_ensures(page_rows, (reply,), result),
    ensures
        reply is Err ==> result is Err,
        reply matches Ok(rows) ==> {
            &&& result is Ok <==> forall|i: int|
                0 <= i < rows@.len() ==> shown_row(#[trigger] rows@[i]) is Ok
            &&& result matches Ok(page) ==> {
                &&& page@.len() == rows@.len()
                &&& forall|i: int|
                    0 <= i < page@.len() ==> (#[trigger] page@[i])@.row_id == rows@[i].row_id
                        && page@[i]@.tenant_id == rows@[i].tenant_id@
            }
            &&& result matches Err(error) ==> error is Serialization
        },
{
    match (reply, result) {
        (Ok(rows), Ok(page)) => {
            assert forall|i: int| 0 <= i < page@.len() implies (#[trigger] page@[i])@.row_id
                == rows@[i].row_id && page@[i]@.tenant_id == rows@[i].tenant_id@ by {
                assert(shown_row(rows@[i]) == Ok::<PageView, Seq<char>>(page@[i]@));
            }
        },
        _ => {},
    }
}

/// An export goes up to the highest row that its snapshot shows and is exhausted from
/// the start where it shows none.
pub proof fn exports_go_up_to_the_highest_row(
    reply: Result<Option<i64>, sqlx::Error>,
    result: Result<SnapshotCursor, PageError>,
)
    requires
        call_ensures(begin_export, (reply,), result),
    ensures
        reply is Err ==> result is Err,
        reply matches Ok(None) ==> (result matches Ok(state) && state@.exhausted
            && state@.upper_bound is None && state@.cursor is None),
        reply matches Ok(Some(row)) ==> if row > 0 {
            result matches Ok(state) && !state@.exhausted && state@.upper_bound == Some(row as int)
                && state@.cursor is None
        } else {
            result matches Err(error) && error is Serialization
        },
{
}

/// A row is shown on a page exactly if its tenant, its identifier, its event, its
/// times, its counter and its failure are valid and its delivery columns are those of
/// its state. The page shows every one of them as it was stored.
pub proof fn pages_show_their_rows(row: &PageRow, result: Result<HydratedPage, String>)
    requires
        call_ensures(hydrate_page, (row,), result),
    ensures
        row.delivery is None ==> result is Err,
        result matches Ok(page) ==> {
            let delivery = row.delivery->0;
            &&& page@.tenant_id == row.tenant_id@
            &&& page@.row_id == row.row_id
            &&& row.row_id > 0
            &&& tenant_id_error(row.tenant_id@) is None
            &&& stored_columns(page@.event) == row.columns@
            &&& page@.event.time == optional_instant(row.occurred_at)
            &&& page@.enqueued_at == row.enqueued_at@
            &&& row.delivery is Some
            &&& delivery.attempts >= 0
            &&& state_text(page@.delivery.state) == delivery.state@
            &&& page@.delivery.available_at == delivery.available_at@
            &&& page@.delivery.attempts == delivery.attempts
            &&& page@.delivery.worker == optional_text(delivery.claimed_by)
            &&& page@.delivery.reason == optional_text(delivery.quarantine_reason)
            &&& page@.delivery.expires_at == optional_instant(delivery.claim_expires_at)
            &&& page@.delivery.delivered_at == optional_instant(delivery.delivered_at)
            &&& page@.delivery.quarantined_at == optional_instant(delivery.quarantined_at)
            &&& delivery.last_failure_code is Some <==> page@.delivery.last_failure is Some
            &&& delivery.last_failure_code is Some <==> delivery.last_failure_detail is Some
            &&& delivery.last_failure_code is Some ==> page@.delivery.last_failure == Some(
                (delivery.last_failure_code->0@, delivery.last_failure_detail->0@),
            )
        },
{
    if result is Ok {
        hydrated_events_store_back(
            row.columns@,
            optional_instant(row.occurred_at),
            result->Ok_0@.event,
        );
        reveal_strlit("pending");
        reveal_strlit("claimed");
        reveal_strlit("delivered");
        reveal_strlit("quarantined");
        assert("pending"@[0] == 'p' && "claimed"@[0] == 'c');
        assert("delivered"@[0] == 'd' && "quarantined"@[0] == 'q');
    }
}

/// Whether a page row stores a delivery row with its event.
pub open spec fn stores(row: PageRow, delivery: RowView) -> bool {
    &&& row.delivery matches Some(stored)
    &&& stored.state@ == delivery.state
    &&& stored.available_at@ == delivery.available_at
    &&& stored.attempts == delivery.attempts
    &&& optional_bytes(stored.claim_token) == delivery.claim_token
    &&& optional_text(stored.claimed_by) == delivery.claimed_by
    &&& optional_instant(stored.claim_expires_at) == delivery.claim_expires_at
    &&& optional_text(stored.last_failure_code) == delivery.last_failure_code
    &&& optional_text(stored.last_failure_detail) == delivery.last_failure_detail
    &&& optional_instant(stored.delivered_at) == delivery.delivered_at
    &&& optional_instant(stored.quarantined_at) == delivery.quarantined_at
    &&& optional_text(stored.quarantine_reason) == delivery.quarantine_reason
}

/// No well-formed row is missing from a page: a row with a valid tenant, identifier,
/// event and enqueue time whose delivery is well formed and has valid values is shown.
pub proof fn well_formed_rows_are_on_the_page(
    row: &PageRow,
    delivery: RowView,
    result: Result<HydratedPage, String>,
)
    requires
        call_ensures(hydrate_page, (row,), result),
        stores(*row, delivery),
        is_well_formed(delivery),
        has_valid_values(delivery),
        row.row_id > 0,
        tenant_id_error(row.tenant_id@) is None,
        make_event(row.columns@, optional_instant(row.occurred_at)),
        instant_error("enqueued_at"@, row.enqueued_at@) is None,
    ensures
        result is Ok,
{
    well_formed_rows_are_shown(delivery, WorkerCheck::Late);
    columns_that_make_an_event_are_read_as_it(
        row.columns@,
        optional_instant(row.occurred_at),
    );
    let stored = row.delivery->0;
    assert(delivery_columns(stored, paged_columns(delivery).failure) == paged_columns(delivery));
}

/// A query that failed is reported under its own name, with its own failure.
pub proof fn failed_queries_are_reported_by_name(
    source: sqlx::Error,
    page_rows_reply: Result<Vec<HydratedPage>, PageError>,
    start_export_reply: Result<SnapshotCursor, PageError>,
)
    requires
        call_ensures(page_rows, (Err(source),), page_rows_reply),
        call_ensures(begin_export, (Err(source),), start_export_reply),
    ensures
        page_rows_reply == Err::<Vec<HydratedPage>, PageError>(
            PageError::failed("read event page", source),
        ),
        start_export_reply == Err::<SnapshotCursor, PageError>(
            PageError::failed("read snapshot upper row ID", source),
        ),
{
}

/// An event that can be read but has no delivery is refused by its row.
pub proof fn missing_deliveries_are_told(row: PageRow, result: Result<HydratedPage, String>)
    requires
        call_ensures(hydrate_page, (&row,), result),
        row.delivery is None,
    ensures
        result is Err,
        tenant_id_error(row.tenant_id@) is None && row.row_id > 0 && hydration(
            row.columns@,
            Ok(optional_instant(row.occurred_at)),
        ) is Ok ==> (result matches Err(detail) && detail@ == "event row "@ + signed_text(
            row.row_id as int,
        ) + " has no required delivery row"@),
{
}

} // verus!
