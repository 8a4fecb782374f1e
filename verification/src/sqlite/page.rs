//! Live and finite snapshot paging on SQLite.

use crate::attribute::tenant_id_error;
use crate::delivery::{bare_delivery, HydratedPage, PageView};
use crate::event::{
    columns_that_make_an_event_are_read_as_it, is_valid_event, make_event, stored_columns,
    stored_events_read_back, EventView,
};
use crate::instant::{instant_error, stored_instant};
use crate::paging::{begun, SnapshotCursor};
use crate::sqlite::delivery_state::{untouched_row, DeliveryRowView};
use crate::sqlite::enqueue::reads_back;
use crate::sqlite::error::PageError;
use crate::snapshot::WorkerCheck;
use crate::sqlite::hydrate::{delivery_columns, hydrate_page, read_time, shown_row, DurableRow};
use crate::text::{optional_bytes, optional_text};
use crate::transition::{
    has_valid_values, is_well_formed, paged_columns, well_formed_rows_are_shown, RowView,
};
use crate::value::{row_id_error, DeliveryState};
use vstd::prelude::*;

verus! {

/// Whether a page shows every row of a reply, or reports the first row that
/// shows nothing.
pub open spec fn shows_page(
    rows: Seq<DurableRow>,
    result: Result<Vec<HydratedPage>, PageError>,
) -> bool {
    match result {
        Ok(page) => {
            &&& page@.len() == rows.len()
            &&& forall|i: int|
                0 <= i < rows.len() ==> shown_row(#[trigger] rows[i]) == Ok::<PageView, Seq<char>>(
                    page@[i]@,
                )
        },
        Err(error) => error matches PageError::Serialization { detail } && exists|k: int|
            {
                &&& 0 <= k < rows.len()
                &&& shown_row(#[trigger] rows[k]) == Err::<PageView, Seq<char>>(detail@)
                &&& forall|i: int| 0 <= i < k ==> shown_row(#[trigger] rows[i]) is Ok
            },
    }
}

fn hydrate_rows(rows: &Vec<DurableRow>) -> (result: Result<Vec<HydratedPage>, PageError>)
    ensures
        shows_page(rows@, result),
{
    let mut page: Vec<HydratedPage> = Vec::new();
    let mut index: usize = 0;
    while index < rows.len()
        invariant
            index <= rows.len(),
            page@.len() == index,
            forall|i: int|
                0 <= i < index ==> shown_row(#[trigger] rows@[i]) == Ok::<PageView, Seq<char>>(
                    page@[i]@,
                ),
        decreases rows.len() - index,
    {
        match hydrate_page(&rows[index]) {
            Ok(shown) => page.push(shown),
            Err(detail) => return Err(PageError::serialization(detail)),
        }
        index += 1;
    }
    Ok(page)
}

/// Decides on the rows that a page query returned.
pub fn page_rows(reply: Result<Vec<DurableRow>, sqlx::Error>) -> (result: Result<
    Vec<HydratedPage>,
    PageError,
>)
    ensures
        match reply {
            Err(source) => result == Err::<Vec<HydratedPage>, PageError>(
                PageError::failed("read event page", source),
            ),
            Ok(rows) => shows_page(rows@, result),
        },
{
    match reply {
        Err(source) => Err(PageError::sql("read event page", source)),
        Ok(rows) => hydrate_rows(&rows),
    }
}

/// Decides on the highest row that a snapshot shows: an export up to that row.
pub fn begin_export(reply: Result<Option<i64>, sqlx::Error>) -> (result: Result<
    SnapshotCursor,
    PageError,
>)
    ensures
        match (reply, result) {
            (Err(source), _) => result == Err::<SnapshotCursor, PageError>(
                PageError::failed("read snapshot upper row ID", source),
            ),
            (Ok(None), Ok(state)) => state@ == begun(None),
            (Ok(Some(row)), Ok(state)) => row_id_error(row as int) is None && state@ == begun(
                Some(row as int),
            ),
            (Ok(highest), Err(error)) => {
                &&& highest is Some
                &&& error matches PageError::Serialization { detail }
                &&& row_id_error(highest->0 as int) == Some(detail@)
            },
        },
{
    match reply {
        Err(source) => Err(PageError::sql("read snapshot upper row ID", source)),
        Ok(highest) => match SnapshotCursor::begin(highest) {
            Ok(state) => Ok(state),
            Err(detail) => Err(PageError::serialization(detail)),
        },
    }
}

/// What a pager does when it is asked for a page.
#[derive(Clone, Copy, Debug)]
pub enum PagerTurn {
    /// Return an empty page without reading.
    Nothing,
    /// Read the rows after `after` up to `up_to`.
    Read { after: i64, up_to: i64 },
}

/// Decides what a pager reads next. An exhausted pager reads nothing, even if it
/// was closed; a closed one that is not exhausted reports that it is closed.
pub fn next_turn(cursor: &SnapshotCursor, open: bool) -> (result: Result<PagerTurn, PageError>)
    ensures
        if cursor@.exhausted {
            result matches Ok(turn) && turn is Nothing
        } else if !open {
            result == Err::<PagerTurn, PageError>(PageError::Closed)
        } else {
            result matches Ok(PagerTurn::Read { after, up_to }) && after
                == crate::paging::start_after(cursor@.cursor) && cursor@.upper_bound == Some(
                up_to as int,
            )
        },
{
    match cursor.next_bounds() {
        None => Ok(PagerTurn::Nothing),
        Some(bounds) => if open {
            Ok(PagerTurn::Read { after: bounds.after, up_to: bounds.up_to })
        } else {
            Err(PageError::Closed)
        },
    }
}

/// The delivery columns of a row, as an enqueue or an import writes them.
pub open spec fn stored_row(row: DurableRow) -> DeliveryRowView {
    DeliveryRowView {
        state: row.state->0@,
        attempts: row.attempts->0 as int,
        claim_token: optional_bytes(row.claim_token),
        claimed_by: optional_text(row.claimed_by),
        claim_expires_at: optional_text(row.claim_expires_at),
        last_failure_code: optional_text(row.last_failure_code),
        last_failure_detail: optional_text(row.last_failure_detail),
        delivered_at: optional_text(row.delivered_at),
        quarantined_at: optional_text(row.quarantined_at),
        quarantine_reason: optional_text(row.quarantine_reason),
        available_at: row.available_at->0@,
    }
}

/// An event that was enqueued is on the page: the row that an enqueue writes
/// shows that event, pending, with no attempt and no failure, available since it
/// was enqueued.
pub proof fn enqueued_events_are_paged(event: EventView, row: DurableRow, enqueued_at: int)
    requires
        is_valid_event(event),
        tenant_id_error(row.tenant_id@) is None,
        row_id_error(row.row_id as int) is None,
        stored_instant(row.enqueued_at@) == Ok::<int, Seq<char>>(enqueued_at),
        instant_error("enqueued_at"@, enqueued_at) is None,
        row.columns@ == stored_columns(event),
        reads_back(row.occurred_at, event.time),
        row.state is Some && row.available_at is Some && row.attempts is Some,
        stored_row(row) == untouched_row("pending"@, None, row.enqueued_at@),
    ensures
        shown_row(row) == Ok::<PageView, Seq<char>>(
            PageView {
                tenant_id: row.tenant_id@,
                row_id: row.row_id as int,
                event,
                enqueued_at,
                delivery: bare_delivery(DeliveryState::Pending, enqueued_at, 0, None),
            },
        ),
{
    stored_events_read_back(event);
    assert(read_time(optional_text(row.occurred_at)) == Ok::<Option<int>, Seq<char>>(event.time));
}

/// A page shows all rows of a reply, one for each and in their order, or none: the
/// first row that shows nothing is reported.
pub proof fn pages_show_all_rows_or_none(
    reply: Result<Vec<DurableRow>, sqlx::Error>,
    result: Result<Vec<HydratedPage>, PageError>,
)
    requires
        call_ensures(page_rows, (reply,), result),
    ensures
        reply is Err ==> result is Err,
        reply matches Ok(rows) ==> {
            &&& result is Ok <==> forall|i: int|
                0 <= i < rows@.len() ==> shown_row(#[trigger] rows@[i]) is Ok
            &&& result matches Ok(page) ==> {
                &&& page@.len() == rows@.len()
                &&& forall|i: int|
                    0 <= i < page@.len() ==> (#[trigger] page@[i])@.row_id == rows@[i].row_id
                        && page@[i]@.tenant_id == rows@[i].tenant_id@
            }
            &&& result matches Err(error) ==> error is Serialization
        },
{
    match (reply, result) {
        (Ok(rows), Ok(page)) => {
            assert forall|i: int| 0 <= i < page@.len() implies (#[trigger] page@[i])@.row_id
                == rows@[i].row_id && page@[i]@.tenant_id == rows@[i].tenant_id@ by {
                assert(shown_row(rows@[i]) == Ok::<PageView, Seq<char>>(page@[i]@));
            }
        },
        _ => {},
    }
}

/// An export goes up to the highest row that its snapshot shows and is exhausted from
/// the start where it shows none.
pub proof fn exports_go_up_to_the_highest_row(
    reply: Result<Option<i64>, sqlx::Error>,
    result: Result<SnapshotCursor, PageError>,
)
    requires
        call_ensures(begin_export, (reply,), result),
    ensures
        reply is Err ==> result is Err,
        reply matches Ok(None) ==> (result matches Ok(state) && state@.exhausted
            && state@.upper_bound is None && state@.cursor is None),
        reply matches Ok(Some(row)) ==> if row > 0 {
            result matches Ok(state) && !state@.exhausted && state@.upper_bound == Some(row as int)
                && state@.cursor is None
        } else {
            result matches Err(error) && error is Serialization
        },
{
}

/// A pager reads on after the last row that it returned and up to its bound while it
/// is open. Once it returned every row it reads nothing, open or not, and closed
/// before that it says so.
pub proof fn pagers_read_on_until_they_are_done(
    cursor: &SnapshotCursor,
    open: bool,
    result: Result<PagerTurn, PageError>,
)
    requires
        call_ensures(next_turn, (cursor, open), result),
    ensures
        (result matches Ok(turn) && turn is Nothing) <==> cursor@.exhausted,
        result is Err <==> !cursor@.exhausted && !open,
        result matches Err(error) ==> error is Closed,
        result matches Ok(PagerTurn::Read { after, up_to }) ==> {
            &&& cursor@.upper_bound == Some(up_to as int)
            &&& cursor@.cursor is None ==> after == 0
            &&& cursor@.cursor is Some ==> cursor@.cursor == Some(after as int)
        },
{
}

/// Whether a page row stores a delivery row with its event.
pub open spec fn stores(row: DurableRow, delivery: RowView) -> bool {
    &&& row.state is Some && row.state->0@ == delivery.state
    &&& row.available_at is Some && stored_instant(row.available_at->0@) == Ok::<int, Seq<char>>(
        delivery.available_at,
    )
    &&& row.attempts is Some && row.attempts->0 == delivery.attempts
    &&& optional_bytes(row.claim_token) == delivery.claim_token
    &&& optional_text(row.claimed_by) == delivery.claimed_by
    &&& read_time(optional_text(row.claim_expires_at)) == Ok::<Option<int>, Seq<char>>(
        delivery.claim_expires_at,
    )
    &&& optional_text(row.last_failure_code) == delivery.last_failure_code
    &&& optional_text(row.last_failure_detail) == delivery.last_failure_detail
    &&& read_time(optional_text(row.delivered_at)) == Ok::<Option<int>, Seq<char>>(
        delivery.delivered_at,
    )
    &&& read_time(optional_text(row.quarantined_at)) == Ok::<Option<int>, Seq<char>>(
        delivery.quarantined_at,
    )
    &&& optional_text(row.quarantine_reason) == delivery.quarantine_reason
}

/// No well-formed row is missing from a page: a row with a valid tenant, identifier,
/// event and enqueue time whose delivery is well formed and has valid values is shown.
pub proof fn well_formed_rows_are_on_the_page(
    row: &DurableRow,
    delivery: RowView,
    time: Option<int>,
    result: Result<HydratedPage, String>,
)
    requires
        call_ensures(hydrate_page, (row,), result),
        stores(*row, delivery),
        is_well_formed(delivery),
        has_valid_values(delivery),
        row.row_id > 0,
        tenant_id_error(row.tenant_id@) is None,
        read_time(optional_text(row.occurred_at)) == Ok::<Option<int>, Seq<char>>(time),
        make_event(row.columns@, time),
        stored_instant(row.enqueued_at@) is Ok,
        instant_error("enqueued_at"@, stored_instant(row.enqueued_at@)->Ok_0) is None,
    ensures
        result is Ok,
{
    well_formed_rows_are_shown(delivery, WorkerCheck::Early);
    columns_that_make_an_event_are_read_as_it(row.columns@, time);
    assert(delivery_columns(*row, delivery.available_at, paged_columns(delivery).failure)
        == paged_columns(delivery));
}

/// A query that failed is reported under its own name, with its own failure.
pub proof fn failed_queries_are_reported_by_name(
    source: sqlx::Error,
    page_rows_reply: Result<Vec<HydratedPage>, PageError>,
    start_export_reply: Result<SnapshotCursor, PageError>,
)
    requires
        call_ensures(page_rows, (Err(source),), page_rows_reply),
        call_ensures(begin_export, (Err(source),), start_export_reply),
    ensures
        page_rows_reply == Err::<Vec<HydratedPage>, PageError>(
            PageError::failed("read event page", source),
        ),
        start_export_reply == Err::<SnapshotCursor, PageError>(
            PageError::failed("read snapshot upper row ID", source),
        ),
{
}

} // verus!
