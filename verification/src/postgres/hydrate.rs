//! Validation and reconstruction of events read from PostgreSQL.

use crate::event::{
    begin_event, columns_that_make_an_event_are_read_as_it, finish_event, hydrated,
    hydrated_events_store_back, hydration, make_event, stored_columns, EventColumns, HydratedEvent,
};
use crate::instant::{optional_instant, Instant};
use vstd::prelude::*;

verus! {

/// Reconstructs and validates one stored event from its database columns.
pub fn hydrate_event(row: &EventColumns, occurred_at: Option<Instant>) -> (result: Result<
    HydratedEvent,
    String,
>)
    ensures
        hydrated(hydration(row@, Ok(optional_instant(occurred_at))), result),
{
    match begin_event(row) {
        Err(error) => Err(error),
        Ok(draft) => match occurred_at {
            Some(at) => finish_event(draft.time(at), row),
            None => finish_event(draft, row),
        },
    }
}

/// Stored columns are read as an event exactly if they make one with their time,
/// and the event is then stored under the same columns and the same time.
pub proof fn events_are_read_as_they_were_stored(
    row: &EventColumns,
    occurred_at: Option<Instant>,
    result: Result<HydratedEvent, String>,
)
    requires
        call_ensures(hydrate_event, (row, occurred_at), result),
    ensures
        result is Ok <==> make_event(row@, optional_instant(occurred_at)),
        result matches Ok(event) ==> stored_columns(event@) == row@ && event@.time
            == optional_instant(occurred_at),
{
    let time = optional_instant(occurred_at);
    columns_that_make_an_event_are_read_as_it(row@, time);
    if result is Ok {
        hydrated_events_store_back(row@, time, result->Ok_0@);
    }
}

/// An event of another version, and data without a kind, of an unknown kind or a kind
/// without data, are refused in words.
pub proof fn refused_columns_are_told(
    row: &EventColumns,
    occurred_at: Option<Instant>,
    result: Result<HydratedEvent, String>,
)
    requires
        call_ensures(hydrate_event, (row, occurred_at), result),
    ensures
        row.specversion@ != "1.0"@ ==> (result matches Err(detail) && detail@
            == "stored event has an unsupported specversion"@),
        row.data is Some != row.data_kind is Some ==> result is Err,
        (row.data_kind matches Some(kind) && kind@ != "json"@ && kind@ != "binary"@) ==> result
            is Err,
{
}

} // verus!
