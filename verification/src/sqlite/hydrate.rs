//! Validation and reconstruction of rows read from SQLite.

use crate::attribute::{tenant_id, tenant_id_error};
use crate::delivery::{paged_event, parse_failure, stored_failure, HydratedPage, PageView};
use crate::event::{
    begin_event, columns_that_make_an_event_are_read_as_it, copied_bytes, copied_text,
    finish_event, hydrated, hydrated_events_store_back, hydration, make_event, stored_columns,
    EventColumns, EventView, HydratedEvent,
};
use crate::instant::{instant_error, parse_timestamp, stored_instant, Instant};
use crate::snapshot::{
    hydrate_delivery, optional_time, row_refusal, shown_delivery, StoredDelivery, StoredView,
    WorkerCheck,
};
use crate::text::{optional_bytes, optional_text};
use crate::value::{attempt_count, attempts_error, row_id_error, state_text, RowId};
use vstd::prelude::*;

verus! {

/// An event row with the delivery row that belongs to it, if there is one.
#[derive(Debug)]
pub struct DurableRow {
    pub row_id: i64,
    pub tenant_id: String,
    pub columns: EventColumns,
    pub occurred_at: Option<String>,
    pub enqueued_at: String,
    pub state: Option<String>,
    pub available_at: Option<String>,
    pub attempts: Option<i64>,
    pub claim_token: Option<Vec<u8>>,
    pub claimed_by: Option<String>,
    pub claim_expires_at: Option<String>,
    pub last_failure_code: Option<String>,
    pub last_failure_detail: Option<String>,
    pub delivered_at: Option<String>,
    pub quarantined_at: Option<String>,
    pub quarantine_reason: Option<String>,
}

/// What an optional stored time reads as.
pub open spec fn read_time(text: Option<Seq<char>>) -> Result<Option<int>, Seq<char>> {
    match text {
        None => Ok(None),
        Some(text) => match stored_instant(text) {
            Ok(at) => Ok(Some(at)),
            Err(error) => Err(error),
        },
    }
}

/// What stored event columns with a stored occurrence time yield.
pub open spec fn event_hydration(columns: EventColumns, occurred_at: Option<String>) -> Result<
    EventView,
    Seq<char>,
> {
    hydration(columns@, read_time(optional_text(occurred_at)))
}

/// Reconstructs and validates one stored event from its database columns.
pub fn hydrate_event(row: &EventColumns, occurred_at: &Option<String>) -> (result: Result<
    HydratedEvent,
    String,
>)
    ensures
        hydrated(event_hydration(*row, *occurred_at), result),
{
    match begin_event(row) {
        Err(error) => Err(error),
        Ok(draft) => match occurred_at {
            Some(text) => match parse_timestamp(text.as_str()) {
                Ok(at) => finish_event(draft.time(at), row),
                Err(error) => Err(error),
            },
            None => finish_event(draft, row),
        },
    }
}

/// The view of an optional stored time as text that still has to be read.
pub open spec fn stored_time(text: Option<Seq<char>>) -> Option<Result<int, Seq<char>>> {
    match text {
        None => None,
        Some(text) => Some(stored_instant(text)),
    }
}

fn read_stored_time(text: &Option<String>) -> (time: Option<Result<Instant, String>>)
    ensures
        optional_time(time) == stored_time(optional_text(*text)),
{
    match text {
        Some(text) => Some(parse_timestamp(text.as_str())),
        None => None,
    }
}

/// The delivery columns of a row, once what every state needs was read.
pub open spec fn delivery_columns(
    row: DurableRow,
    available_at: int,
    failure: Option<(Seq<char>, Seq<char>)>,
) -> StoredView {
    StoredView {
        state: row.state->0@,
        available_at,
        attempts: row.attempts->0 as int,
        failure,
        claim_token: optional_bytes(row.claim_token),
        claimed_by: optional_text(row.claimed_by),
        claim_expires_at: stored_time(optional_text(row.claim_expires_at)),
        delivered_at: stored_time(optional_text(row.delivered_at)),
        quarantined_at: stored_time(optional_text(row.quarantined_at)),
        quarantine_reason: optional_text(row.quarantine_reason),
    }
}

/// What a row shows on a page, once its event, failure and availability were
/// read, or the first refusal.
pub open spec fn shown_with(
    row: DurableRow,
    event: EventView,
    failure: Option<(Seq<char>, Seq<char>)>,
    available_at: int,
) -> Result<PageView, Seq<char>> {
    let columns = delivery_columns(row, available_at, failure);
    if row_refusal(columns, WorkerCheck::Early) is Some {
        Err(row_refusal(columns, WorkerCheck::Early)->0)
    } else {
        match stored_instant(row.enqueued_at@) {
            Err(error) => Err(error),
            Ok(enqueued_at) => if instant_error("enqueued_at"@, enqueued_at) is Some {
                Err(instant_error("enqueued_at"@, enqueued_at)->0)
            } else {
                Ok(
                    PageView {
                        tenant_id: row.tenant_id@,
                        row_id: row.row_id as int,
                        event,
                        enqueued_at,
                        delivery: shown_delivery(columns),
                    },
                )
            },
        }
    }
}

/// What a row shows on a page, or the first refusal in the order of validation.
pub open spec fn shown_row(row: DurableRow) -> Result<PageView, Seq<char>> {
    if tenant_id_error(row.tenant_id@) is Some {
        Err(tenant_id_error(row.tenant_id@)->0)
    } else if row_id_error(row.row_id as int) is Some {
        Err(row_id_error(row.row_id as int)->0)
    } else {
        match event_hydration(row.columns, row.occurred_at) {
            Err(error) => Err(error),
            Ok(event) => if row.state is None {
                Err("event has no required delivery row"@)
            } else if row.available_at is None {
                Err("delivery row has no available_at"@)
            } else if row.attempts is None {
                Err("delivery row has no attempts"@)
            } else if attempts_error(row.attempts->0 as int) is Some {
                Err(attempts_error(row.attempts->0 as int)->0)
            } else {
                match stored_failure(
                    optional_text(row.last_failure_code),
                    optional_text(row.last_failure_detail),
                ) {
                    Err(error) => Err(error),
                    Ok(failure) => match stored_instant(row.available_at->0@) {
                        Err(error) => Err(error),
                        Ok(available_at) => shown_with(row, event, failure, available_at),
                    },
                }
            },
        }
    }
}

/// Reconstructs and validates one paged event from its row. An event without a
/// delivery row is refused, not skipped.
pub fn hydrate_page(row: &DurableRow) -> (result: Result<HydratedPage, String>)
    ensures
        match result {
            Ok(page) => shown_row(*row) == Ok::<PageView, Seq<char>>(page@),
            Err(error) => shown_row(*row) == Err::<PageView, Seq<char>>(error@),
        },
{
    let tenant = match tenant_id(row.tenant_id.as_str()) {
        Ok(tenant) => tenant,
        Err(error) => return Err(error),
    };
    let row_id = match RowId::new(row.row_id) {
        Ok(row_id) => row_id,
        Err(error) => return Err(error),
    };
    let event = match hydrate_event(&row.columns, &row.occurred_at) {
        Ok(event) => event,
        Err(error) => return Err(error),
    };
    let state = match &row.state {
        Some(state) => state,
        None => return Err("event has no required delivery row".to_owned()),
    };
    let available_at = match &row.available_at {
        Some(available_at) => available_at,
        None => return Err("delivery row has no available_at".to_owned()),
    };
    let attempts: i64 = match row.attempts {
        Some(attempts) => attempts,
        None => return Err("delivery row has no attempts".to_owned()),
    };
    let attempts: i64 = match attempt_count(attempts) {
        Ok(attempts) => attempts,
        Err(error) => return Err(error),
    };
    let failure = match parse_failure(
        copied_text(&row.last_failure_code),
        copied_text(&row.last_failure_detail),
    ) {
        Ok(failure) => failure,
        Err(error) => return Err(error),
    };
    let available_at = match parse_timestamp(available_at.as_str()) {
        Ok(available_at) => available_at,
        Err(error) => return Err(error),
    };
    let stored = StoredDelivery {
        state: state.clone(),
        available_at,
        attempts,
        failure,
        claim_token: copied_bytes(&row.claim_token),
        claimed_by: copied_text(&row.claimed_by),
        claim_expires_at: read_stored_time(&row.claim_expires_at),
        delivered_at: read_stored_time(&row.delivered_at),
        quarantined_at: read_stored_time(&row.quarantined_at),
        quarantine_reason: copied_text(&row.quarantine_reason),
    };
    assert(stored@ == delivery_columns(*row, available_at@, stored@.failure));
    let delivery = match hydrate_delivery(stored, WorkerCheck::Early) {
        Ok(delivery) => delivery,
        Err(error) => return Err(error),
    };
    match parse_timestamp(row.enqueued_at.as_str()) {
        Ok(enqueued_at) => paged_event(tenant, row_id, event, enqueued_at, delivery),
        Err(error) => Err(error),
    }
}

/// Stored columns are read as an event exactly if their time could be read and they
/// make one with it, and the event is then stored under the same columns.
pub proof fn events_are_read_as_they_were_stored(
    row: &EventColumns,
    occurred_at: &Option<String>,
    result: Result<HydratedEvent, String>,
)
    requires
        call_ensures(hydrate_event, (row, occurred_at), result),
    ensures
        occurred_at is None ==> (result is Ok <==> make_event(row@, None)),
        *occurred_at matches Some(text) ==> (result is Ok <==> stored_instant(text@) is Ok
            && make_event(row@, Some(stored_instant(text@)->Ok_0))),
        result matches Ok(event) ==> {
            &&& stored_columns(event@) == row@
            &&& occurred_at is None ==> event@.time is None
            &&& *occurred_at matches Some(text) ==> event@.time == Some(
                stored_instant(text@)->Ok_0,
            )
        },
{
    let time = match *occurred_at {
        Some(text) => Some(stored_instant(text@)->Ok_0),
        None => None,
    };
    columns_that_make_an_event_are_read_as_it(row@, time);
    if result is Ok {
        hydrated_events_store_back(row@, time, result->Ok_0@);
    }
}

/// A row is shown on a page exactly if its tenant, its identifier, its event, its
/// times, its counter and its failure are valid and its delivery columns are those
/// of its state. The page shows every one of them as it was stored.
pub proof fn pages_show_their_rows(row: &DurableRow, result: Result<HydratedPage, String>)
    requires
        call_ensures(hydrate_page, (row,), result),
    ensures
        result matches Ok(page) ==> {
            &&& page@.tenant_id == row.tenant_id@
            &&& page@.row_id == row.row_id
            &&& row.row_id > 0
            &&& tenant_id_error(row.tenant_id@) is None
            &&& stored_columns(page@.event) == row.columns@
            &&& stored_instant(row.enqueued_at@) == Ok::<int, Seq<char>>(page@.enqueued_at)
            &&& row.state is Some && row.available_at is Some && row.attempts is Some
            &&& row.attempts->0 >= 0
            &&& state_text(page@.delivery.state) == row.state->0@
            &&& stored_instant(row.available_at->0@) == Ok::<int, Seq<char>>(
                page@.delivery.available_at,
            )
            &&& page@.delivery.attempts == row.attempts->0
            &&& page@.delivery.worker == optional_text(row.claimed_by)
            &&& page@.delivery.reason == optional_text(row.quarantine_reason)
            &&& read_time(optional_text(row.claim_expires_at)) == Ok::<Option<int>, Seq<char>>(
                page@.delivery.expires_at,
            )
            &&& read_time(optional_text(row.delivered_at)) == Ok::<Option<int>, Seq<char>>(
                page@.delivery.delivered_at,
            )
            &&& read_time(optional_text(row.quarantined_at)) == Ok::<Option<int>, Seq<char>>(
                page@.delivery.quarantined_at,
            )
            &&& row.last_failure_code is Some <==> page@.delivery.last_failure is Some
            &&& row.last_failure_code is Some <==> row.last_failure_detail is Some
            &&& row.last_failure_code is Some ==> page@.delivery.last_failure == Some(
                (row.last_failure_code->0@, row.last_failure_detail->0@),
            )
        },
        row.state is None ==> result is Err,
{
    if result is Ok {
        let time = read_time(optional_text(row.occurred_at))->Ok_0;
        hydrated_events_store_back(row.columns@, time, result->Ok_0@.event);
        reveal_strlit("pending");
        reveal_strlit("claimed");
        reveal_strlit("delivered");
        reveal_strlit("quarantined");
        assert("pending"@[0] == 'p' && "claimed"@[0] == 'c');
        assert("delivered"@[0] == 'd' && "quarantined"@[0] == 'q');
    }
}

/// An event that can be read but whose delivery is not there, or lacks its time or its
/// attempts, is refused for that.
pub proof fn missing_deliveries_are_told(row: DurableRow, result: Result<HydratedPage, String>)
    requires
        call_ensures(hydrate_page, (&row,), result),
        tenant_id_error(row.tenant_id@) is None,
        row.row_id > 0,
        event_hydration(row.columns, row.occurred_at) is Ok,
    ensures
        row.state is None ==> (result matches Err(detail) && detail@
            == "event has no required delivery row"@),
        row.state is Some && row.available_at is None ==> (result matches Err(detail) && detail@
            == "delivery row has no available_at"@),
        row.state is Some && row.available_at is Some && row.attempts is None ==> (
        result matches Err(detail) && detail@ == "delivery row has no attempts"@),
{
}

/// An event of another version, and data without a kind, of an unknown kind or a kind
/// without data, are refused in words.
pub proof fn refused_columns_are_told(
    row: &EventColumns,
    occurred_at: &Option<String>,
    result: Result<HydratedEvent, String>,
)
    requires
        call_ensures(hydrate_event, (row, occurred_at), result),
    ensures
        row.specversion@ != "1.0"@ ==> (result matches Err(detail) && detail@
            == "stored event has an unsupported specversion"@),
        row.data is Some != row.data_kind is Some ==> result is Err,
        (row.data_kind matches Some(kind) && kind@ != "json"@ && kind@ != "binary"@) ==> result
            is Err,
{
}

} // verus!
