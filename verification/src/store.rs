//! A model of the event and delivery tables, for laws that span several calls.
//!
//! Times are kept as the adapter stores them, `T`, and delivery rows as the adapter
//! views them, `D`.

use crate::event::{ColumnsView, EventView};
use vstd::prelude::*;

verus! {

/// A row of the event table.
pub ghost struct EventRow<T> {
    pub tenant: Seq<char>,
    pub columns: ColumnsView,
    pub occurred_at: Option<T>,
    pub enqueued_at: T,
}

/// The two tables, each by row identifier.
pub ghost struct Store<T, D> {
    pub events: Map<int, EventRow<T>>,
    pub deliveries: Map<int, D>,
}

/// Whether a row holds the identity of an event: its tenant, source and
/// identifier.
pub open spec fn holds_identity<T, D>(
    store: Store<T, D>,
    row: int,
    tenant: Seq<char>,
    event: EventView,
) -> bool {
    &&& store.events.dom().contains(row)
    &&& store.events[row].tenant == tenant
    &&& store.events[row].columns.source == event.source
    &&& store.events[row].columns.event_id == event.event_id
}

/// Whether some row holds the identity of an event.
pub open spec fn is_taken<T, D>(store: Store<T, D>, tenant: Seq<char>, event: EventView) -> bool {
    exists|row: int| #[trigger] holds_identity(store, row, tenant, event)
}

/// Whether no two rows share an identity, as the unique index sees to.
pub open spec fn has_unique_identities<T, D>(store: Store<T, D>) -> bool {
    forall|left: int, right: int, tenant: Seq<char>, event: EventView|
        #[trigger] holds_identity(store, left, tenant, event) && #[trigger] holds_identity(
            store,
            right,
            tenant,
            event,
        ) ==> left == right
}

/// The tables with one more event and its delivery.
pub open spec fn with_event<T, D>(
    store: Store<T, D>,
    row: int,
    event: EventRow<T>,
    delivery: D,
) -> Store<T, D> {
    Store {
        events: store.events.insert(row, event),
        deliveries: store.deliveries.insert(row, delivery),
    }
}

/// One more event under a free identity takes that identity and no other, and
/// keeps identities unique.
pub proof fn a_free_identity_is_taken_once<T, D>(
    store: Store<T, D>,
    row: int,
    tenant: Seq<char>,
    event: EventView,
    stored: EventRow<T>,
    delivery: D,
)
    requires
        has_unique_identities(store),
        !store.events.dom().contains(row),
        !is_taken(store, tenant, event),
        stored.tenant == tenant,
        stored.columns.source == event.source,
        stored.columns.event_id == event.event_id,
    ensures
        has_unique_identities(with_event(store, row, stored, delivery)),
        holds_identity(with_event(store, row, stored, delivery), row, tenant, event),
        forall|other: Seq<char>, second: EventView|
            other != tenant || second.source != event.source || second.event_id != event.event_id
                ==> #[trigger] is_taken(with_event(store, row, stored, delivery), other, second)
                == is_taken(store, other, second),
{
    let after = with_event(store, row, stored, delivery);
    assert forall|at: int, other: Seq<char>, second: EventView| at != row implies #[trigger]
        holds_identity(after, at, other, second) == holds_identity(store, at, other, second) by {}
    assert forall|left: int, right: int, other: Seq<char>, second: EventView|
        #[trigger] holds_identity(after, left, other, second) && #[trigger] holds_identity(
            after,
            right,
            other,
            second,
        ) implies left == right by {
        if left == row && right != row {
            assert(holds_identity(store, right, tenant, event));
        }
        if right == row && left != row {
            assert(holds_identity(store, left, tenant, event));
        }
        if left != row && right != row {
            assert(holds_identity(store, left, other, second));
            assert(holds_identity(store, right, other, second));
        }
    }
    assert forall|other: Seq<char>, second: EventView|
        other != tenant || second.source != event.source || second.event_id
            != event.event_id implies #[trigger] is_taken(after, other, second) == is_taken(
        store,
        other,
        second,
    ) by {
        if is_taken(after, other, second) {
            let at = choose|at: int| #[trigger] holds_identity(after, at, other, second);
            assert(holds_identity(store, at, other, second));
        }
        if is_taken(store, other, second) {
            let at = choose|at: int| #[trigger] holds_identity(store, at, other, second);
            assert(holds_identity(after, at, other, second));
        }
    }
}

} // verus!
