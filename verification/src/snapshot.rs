//! Delivery snapshots from stored columns: each lifecycle state has its own
//! columns, and all others must be absent.

use crate::attribute::{bounded_text_error, quarantine_reason, worker_id};
use crate::delivery::{
    bare_delivery, claimed_snapshot, delivered_snapshot, optional_failure, pending_snapshot,
    quarantined_snapshot, DeliveryView, HydratedDelivery, RecordedFailure,
};
use crate::event::first_refusal;
use crate::instant::{instant_error, Instant};
use crate::text::{decimal, decimal_text, optional_bytes, optional_text};
use crate::value::{named_state, parse_state, unknown_state_text, DeliveryState};
use vstd::prelude::*;

verus! {

/// The delivery columns of one row. A stored time is absent, or was read, or
/// could not be read.
#[derive(Debug)]
pub struct StoredDelivery {
    pub state: String,
    pub available_at: Instant,
    pub attempts: i64,
    pub failure: Option<RecordedFailure>,
    pub claim_token: Option<Vec<u8>>,
    pub claimed_by: Option<String>,
    pub claim_expires_at: Option<Result<Instant, String>>,
    pub delivered_at: Option<Result<Instant, String>>,
    pub quarantined_at: Option<Result<Instant, String>>,
    pub quarantine_reason: Option<String>,
}

/// The mathematical content of a [`StoredDelivery`].
pub ghost struct StoredView {
    pub state: Seq<char>,
    pub available_at: int,
    pub attempts: int,
    pub failure: Option<(Seq<char>, Seq<char>)>,
    pub claim_token: Option<Seq<u8>>,
    pub claimed_by: Option<Seq<char>>,
    pub claim_expires_at: Option<Result<int, Seq<char>>>,
    pub delivered_at: Option<Result<int, Seq<char>>>,
    pub quarantined_at: Option<Result<int, Seq<char>>>,
    pub quarantine_reason: Option<Seq<char>>,
}

/// The view of an optional stored time.
pub open spec fn optional_time(value: Option<Result<Instant, String>>) -> Option<
    Result<int, Seq<char>>,
> {
    match value {
        Some(Ok(at)) => Some(Ok(at@)),
        Some(Err(complaint)) => Some(Err(complaint@)),
        None => None,
    }
}

impl View for StoredDelivery {
    type V = StoredView;

    open spec fn view(&self) -> StoredView {
        StoredView {
            state: self.state@,
            available_at: self.available_at@,
            attempts: self.attempts as int,
            failure: optional_failure(self.failure),
            claim_token: optional_bytes(self.claim_token),
            claimed_by: optional_text(self.claimed_by),
            claim_expires_at: optional_time(self.claim_expires_at),
            delivered_at: optional_time(self.delivered_at),
            quarantined_at: optional_time(self.quarantined_at),
            quarantine_reason: optional_text(self.quarantine_reason),
        }
    }
}

/// When the worker of a claim is checked: as soon as it is known to be there, or
/// after all other columns.
#[derive(Clone, Copy, Debug, PartialEq, Eq, Structural)]
pub enum WorkerCheck {
    /// Before the claim expiry.
    Early,
    /// After the columns that must be absent.
    Late,
}

/// How a column is refused that its delivery state does not have, if it is
/// present.
pub open spec fn absence_refusal(field: Seq<char>, present: bool) -> Option<Seq<char>> {
    if present {
        Some(field + " must be NULL for its delivery state"@)
    } else {
        None
    }
}

/// Requires that a column is absent.
pub fn require_absent<T>(field: &str, value: &Option<T>) -> (result: Result<(), String>)
    ensures
        match result {
            Ok(()) => absence_refusal(field@, *value is Some) is None,
            Err(error) => absence_refusal(field@, *value is Some) == Some(error@),
        },
{
    if value.is_some() {
        Err(field.to_owned().concat(" must be NULL for its delivery state"))
    } else {
        Ok(())
    }
}

/// How a claim token is refused, if it is: it must be there and 16 bytes wide.
pub open spec fn token_refusal(token: Option<Seq<u8>>) -> Option<Seq<char>> {
    match token {
        Some(bytes) => if bytes.len() == 16 {
            None
        } else {
            Some("claimed delivery has an invalid claim token width: "@ + decimal_text(bytes.len()))
        },
        None => Some("claimed delivery has no claim token"@),
    }
}

/// Requires a claim token of the right width.
pub fn require_token_width(value: &Option<Vec<u8>>) -> (result: Result<(), String>)
    ensures
        match result {
            Ok(()) => token_refusal(optional_bytes(*value)) is None,
            Err(error) => token_refusal(optional_bytes(*value)) == Some(error@),
        },
{
    match value {
        Some(bytes) => if bytes.len() == 16 {
            Ok(())
        } else {
            let width = decimal(bytes.len() as u64);
            Err(
                "claimed delivery has an invalid claim token width: ".to_owned().concat(
                    width.as_str(),
                ),
            )
        },
        None => Err("claimed delivery has no claim token".to_owned()),
    }
}

/// How a stored time is refused, if it is: it must be there and be readable.
pub open spec fn time_refusal(value: Option<Result<int, Seq<char>>>, missing: Seq<char>) -> Option<
    Seq<char>,
> {
    match value {
        Some(Ok(_)) => None,
        Some(Err(complaint)) => Some(complaint),
        None => Some(missing),
    }
}

/// Requires a stored time.
fn require_time(value: Option<Result<Instant, String>>, missing: &str) -> (result: Result<
    Instant,
    String,
>)
    ensures
        match result {
            Ok(at) => optional_time(value) == Some(Ok::<int, Seq<char>>(at@)),
            Err(error) => time_refusal(optional_time(value), missing@) == Some(error@),
        },
{
    match value {
        Some(Ok(at)) => Ok(at),
        Some(Err(complaint)) => Err(complaint),
        None => Err(missing.to_owned()),
    }
}

/// Why a text column is refused, if it is: it must be there and be bounded.
pub open spec fn text_refusal(
    value: Option<Seq<char>>,
    missing: Seq<char>,
    field: Seq<char>,
    maximum: nat,
) -> Option<Seq<char>> {
    match value {
        Some(text) => bounded_text_error(field, text, maximum),
        None => Some(missing),
    }
}

/// Why a pending row is refused, if it is.
pub open spec fn pending_refusal(row: StoredView) -> Option<Seq<char>> {
    first_refusal(
        absence_refusal("pending claim token"@, row.claim_token is Some),
        first_refusal(
            absence_refusal("pending claimed worker"@, row.claimed_by is Some),
            first_refusal(
                absence_refusal("pending claim expiry"@, row.claim_expires_at is Some),
                first_refusal(
                    absence_refusal("pending delivered time"@, row.delivered_at is Some),
                    first_refusal(
                        absence_refusal("pending quarantine time"@, row.quarantined_at is Some),
                        first_refusal(
                            absence_refusal(
                                "pending quarantine reason"@,
                                row.quarantine_reason is Some,
                            ),
                            instant_error("available_at"@, row.available_at),
                        ),
                    ),
                ),
            ),
        ),
    )
}

/// Why the columns that a claimed row must not have are refused, if they are.
pub open spec fn claimed_absences(row: StoredView) -> Option<Seq<char>> {
    first_refusal(
        absence_refusal("claimed delivered time"@, row.delivered_at is Some),
        first_refusal(
            absence_refusal("claimed quarantine time"@, row.quarantined_at is Some),
            absence_refusal("claimed quarantine reason"@, row.quarantine_reason is Some),
        ),
    )
}

/// Why a claimed row is refused, if it is.
pub open spec fn claimed_refusal(row: StoredView, check: WorkerCheck) -> Option<Seq<char>> {
    let expiry = time_refusal(row.claim_expires_at, "claimed delivery has no claim expiry"@);
    let instants = first_refusal(
        instant_error("available_at"@, row.available_at),
        instant_error("claim_expires_at"@, row.claim_expires_at->0->Ok_0),
    );
    first_refusal(
        token_refusal(row.claim_token),
        if row.claimed_by is None {
            Some("claimed delivery has no worker"@)
        } else {
            let worker = bounded_text_error("worker_id"@, row.claimed_by->0, 255);
            match check {
                WorkerCheck::Early => first_refusal(
                    worker,
                    first_refusal(expiry, first_refusal(claimed_absences(row), instants)),
                ),
                WorkerCheck::Late => first_refusal(
                    expiry,
                    first_refusal(claimed_absences(row), first_refusal(worker, instants)),
                ),
            }
        },
    )
}

/// Why a delivered row is refused, if it is.
pub open spec fn delivered_refusal(row: StoredView) -> Option<Seq<char>> {
    first_refusal(
        absence_refusal("delivered claim token"@, row.claim_token is Some),
        first_refusal(
            absence_refusal("delivered claimed worker"@, row.claimed_by is Some),
            first_refusal(
                absence_refusal("delivered claim expiry"@, row.claim_expires_at is Some),
                first_refusal(
                    time_refusal(
                        row.delivered_at,
                        "delivered delivery has no delivered time"@,
                    ),
                    first_refusal(
                        absence_refusal("delivered quarantine time"@, row.quarantined_at is Some),
                        first_refusal(
                            absence_refusal(
                                "delivered quarantine reason"@,
                                row.quarantine_reason is Some,
                            ),
                            first_refusal(
                                instant_error("available_at"@, row.available_at),
                                instant_error("delivered_at"@, row.delivered_at->0->Ok_0),
                            ),
                        ),
                    ),
                ),
            ),
        ),
    )
}

/// Why a quarantined row is refused, if it is.
pub open spec fn quarantined_refusal(row: StoredView) -> Option<Seq<char>> {
    first_refusal(
        absence_refusal("quarantined claim token"@, row.claim_token is Some),
        first_refusal(
            absence_refusal("quarantined claimed worker"@, row.claimed_by is Some),
            first_refusal(
                absence_refusal("quarantined claim expiry"@, row.claim_expires_at is Some),
                first_refusal(
                    absence_refusal("quarantined delivered time"@, row.delivered_at is Some),
                    first_refusal(
                        time_refusal(
                            row.quarantined_at,
                            "quarantined delivery has no quarantine time"@,
                        ),
                        first_refusal(
                            text_refusal(
                                row.quarantine_reason,
                                "quarantined delivery has no quarantine reason"@,
                                "quarantine reason"@,
                                2048,
                            ),
                            first_refusal(
                                instant_error("available_at"@, row.available_at),
                                instant_error("quarantined_at"@, row.quarantined_at->0->Ok_0),
                            ),
                        ),
                    ),
                ),
            ),
        ),
    )
}

/// Why a row is refused, if it is.
pub open spec fn row_refusal(row: StoredView, check: WorkerCheck) -> Option<Seq<char>> {
    match named_state(row.state) {
        None => Some(unknown_state_text(row.state)),
        Some(DeliveryState::Pending) => pending_refusal(row),
        Some(DeliveryState::Claimed) => claimed_refusal(row, check),
        Some(DeliveryState::Delivered) => delivered_refusal(row),
        Some(DeliveryState::Quarantined) => quarantined_refusal(row),
    }
}

/// The snapshot that an accepted row shows: the columns of its state.
pub open spec fn shown_delivery(row: StoredView) -> DeliveryView {
    let state = named_state(row.state)->0;
    let bare = bare_delivery(state, row.available_at, row.attempts, row.failure);
    match state {
        DeliveryState::Pending => bare,
        DeliveryState::Claimed => DeliveryView {
            worker: row.claimed_by,
            expires_at: Some(row.claim_expires_at->0->Ok_0),
            ..bare
        },
        DeliveryState::Delivered => DeliveryView {
            delivered_at: Some(row.delivered_at->0->Ok_0),
            ..bare
        },
        DeliveryState::Quarantined => DeliveryView {
            quarantined_at: Some(row.quarantined_at->0->Ok_0),
            reason: row.quarantine_reason,
            ..bare
        },
    }
}

/// Whether a result is the snapshot that a row shows, or its refusal.
pub open spec fn shows(
    row: StoredView,
    check: WorkerCheck,
    result: Result<HydratedDelivery, String>,
) -> bool {
    match result {
        Ok(delivery) => row_refusal(row, check) is None && delivery@ == shown_delivery(row),
        Err(error) => row_refusal(row, check) == Some(error@),
    }
}

fn pending_delivery(row: StoredDelivery) -> (result: Result<HydratedDelivery, String>)
    requires
        row.attempts >= 0,
        named_state(row@.state) == Some(DeliveryState::Pending),
    ensures
        shows(row@, WorkerCheck::Early, result),
        shows(row@, WorkerCheck::Late, result),
{
    if let Err(error) = require_absent("pending claim token", &row.claim_token) {
        return Err(error);
    }
    if let Err(error) = require_absent("pending claimed worker", &row.claimed_by) {
        return Err(error);
    }
    if let Err(error) = require_absent("pending claim expiry", &row.claim_expires_at) {
        return Err(error);
    }
    if let Err(error) = require_absent("pending delivered time", &row.delivered_at) {
        return Err(error);
    }
    if let Err(error) = require_absent("pending quarantine time", &row.quarantined_at) {
        return Err(error);
    }
    if let Err(error) = require_absent("pending quarantine reason", &row.quarantine_reason) {
        return Err(error);
    }
    pending_snapshot(row.available_at, row.attempts, row.failure)
}

fn claimed_delivery(row: StoredDelivery, check: WorkerCheck) -> (result: Result<
    HydratedDelivery,
    String,
>)
    requires
        row.attempts >= 0,
        named_state(row@.state) == Some(DeliveryState::Claimed),
    ensures
        shows(row@, check, result),
{
    if let Err(error) = require_token_width(&row.claim_token) {
        return Err(error);
    }
    let claimed_by = match row.claimed_by {
        Some(claimed_by) => claimed_by,
        None => return Err("claimed delivery has no worker".to_owned()),
    };
    let worker = worker_id(claimed_by.as_str());
    if check == WorkerCheck::Early {
        if let Err(error) = worker {
            return Err(error);
        }
    }
    let expires_at = match require_time(
        row.claim_expires_at,
        "claimed delivery has no claim expiry",
    ) {
        Ok(expires_at) => expires_at,
        Err(error) => return Err(error),
    };
    if let Err(error) = require_absent("claimed delivered time", &row.delivered_at) {
        return Err(error);
    }
    if let Err(error) = require_absent("claimed quarantine time", &row.quarantined_at) {
        return Err(error);
    }
    if let Err(error) = require_absent("claimed quarantine reason", &row.quarantine_reason) {
        return Err(error);
    }
    let worker = match worker {
        Ok(worker) => worker,
        Err(error) => return Err(error),
    };
    claimed_snapshot(row.available_at, worker, expires_at, row.attempts, row.failure)
}

fn delivered_delivery(row: StoredDelivery) -> (result: Result<HydratedDelivery, String>)
    requires
        row.attempts >= 0,
        named_state(row@.state) == Some(DeliveryState::Delivered),
    ensures
        shows(row@, WorkerCheck::Early, result),
        shows(row@, WorkerCheck::Late, result),
{
    if let Err(error) = require_absent("delivered claim token", &row.claim_token) {
        return Err(error);
    }
    if let Err(error) = require_absent("delivered claimed worker", &row.claimed_by) {
        return Err(error);
    }
    if let Err(error) = require_absent("delivered claim expiry", &row.claim_expires_at) {
        return Err(error);
    }
    let delivered_at = match require_time(
        row.delivered_at,
        "delivered delivery has no delivered time",
    ) {
        Ok(delivered_at) => delivered_at,
        Err(error) => return Err(error),
    };
    if let Err(error) = require_absent("delivered quarantine time", &row.quarantined_at) {
        return Err(error);
    }
    if let Err(error) = require_absent("delivered quarantine reason", &row.quarantine_reason) {
        return Err(error);
    }
    delivered_snapshot(row.available_at, delivered_at, row.attempts, row.failure)
}

fn quarantined_delivery(row: StoredDelivery) -> (result: Result<HydratedDelivery, String>)
    requires
        row.attempts >= 0,
        named_state(row@.state) == Some(DeliveryState::Quarantined),
    ensures
        shows(row@, WorkerCheck::Early, result),
        shows(row@, WorkerCheck::Late, result),
{
    if let Err(error) = require_absent("quarantined claim token", &row.claim_token) {
        return Err(error);
    }
    if let Err(error) = require_absent("quarantined claimed worker", &row.claimed_by) {
        return Err(error);
    }
    if let Err(error) = require_absent("quarantined claim expiry", &row.claim_expires_at) {
        return Err(error);
    }
    if let Err(error) = require_absent("quarantined delivered time", &row.delivered_at) {
        return Err(error);
    }
    let quarantined_at = match require_time(
        row.quarantined_at,
        "quarantined delivery has no quarantine time",
    ) {
        Ok(quarantined_at) => quarantined_at,
        Err(error) => return Err(error),
    };
    let text = match row.quarantine_reason {
        Some(text) => text,
        None => return Err("quarantined delivery has no quarantine reason".to_owned()),
    };
    let reason = match quarantine_reason(text.as_str()) {
        Ok(reason) => reason,
        Err(error) => return Err(error),
    };
    quarantined_snapshot(row.available_at, quarantined_at, row.attempts, row.failure, reason)
}

/// Reads the delivery columns of a row as a snapshot of its state.
pub fn hydrate_delivery(row: StoredDelivery, check: WorkerCheck) -> (result: Result<
    HydratedDelivery,
    String,
>)
    requires
        row.attempts >= 0,
    ensures
        shows(row@, check, result),
{
    let state = match parse_state(row.state.as_str()) {
        Ok(state) => state,
        Err(error) => return Err(error),
    };
    match state {
        DeliveryState::Pending => pending_delivery(row),
        DeliveryState::Claimed => claimed_delivery(row, check),
        DeliveryState::Delivered => delivered_delivery(row),
        DeliveryState::Quarantined => quarantined_delivery(row),
    }
}

/// A snapshot shows what the columns of its row hold, each under its own name, and
/// no column that is not there.
pub proof fn snapshots_show_their_rows(
    row: StoredDelivery,
    check: WorkerCheck,
    result: Result<HydratedDelivery, String>,
)
    requires
        row.attempts >= 0,
        call_ensures(hydrate_delivery, (row, check), result),
    ensures
        result matches Ok(delivery) ==> {
            &&& delivery@.state == DeliveryState::Pending <==> row.state@ == "pending"@
            &&& delivery@.state == DeliveryState::Claimed <==> row.state@ == "claimed"@
            &&& delivery@.state == DeliveryState::Delivered <==> row.state@ == "delivered"@
            &&& delivery@.state == DeliveryState::Quarantined <==> row.state@ == "quarantined"@
            &&& delivery@.available_at == row.available_at@
            &&& delivery@.attempts == row.attempts
            &&& delivery@.last_failure == optional_failure(row.failure)
            &&& delivery@.worker is Some <==> row.claimed_by is Some
            &&& row.claimed_by matches Some(worker) ==> delivery@.worker == Some(worker@)
            &&& delivery@.expires_at is Some <==> row.claim_expires_at is Some
            &&& row.claim_expires_at matches Some(Ok(at)) ==> delivery@.expires_at == Some(at@)
            &&& delivery@.delivered_at is Some <==> row.delivered_at is Some
            &&& row.delivered_at matches Some(Ok(at)) ==> delivery@.delivered_at == Some(at@)
            &&& delivery@.quarantined_at is Some <==> row.quarantined_at is Some
            &&& row.quarantined_at matches Some(Ok(at)) ==> delivery@.quarantined_at == Some(at@)
            &&& delivery@.reason is Some <==> row.quarantine_reason is Some
            &&& row.quarantine_reason matches Some(reason) ==> delivery@.reason == Some(reason@)
        },
        result is Err <==> row_refusal(row@, check) is Some,
{
    reveal_strlit("pending");
    reveal_strlit("claimed");
    reveal_strlit("delivered");
    reveal_strlit("quarantined");
    assert("pending"@[0] == 'p' && "claimed"@[0] == 'c');
    assert("delivered"@[0] == 'd' && "quarantined"@[0] == 'q');
}

/// A row with a value that its state does not have, or without one that it has, is
/// refused with the name of the first such column.
pub proof fn misplaced_values_are_named(
    row: StoredDelivery,
    check: WorkerCheck,
    result: Result<HydratedDelivery, String>,
)
    requires
        row.attempts >= 0,
        call_ensures(hydrate_delivery, (row, check), result),
    ensures
        row.state@ == "pending"@ && row.claim_token is Some ==> (result matches Err(error) && error@ == "pending claim token"@ + " must be NULL for its delivery state"@),
        row.state@ == "pending"@ && row.claim_token is None && row.claimed_by is Some ==> (result matches Err(error) && error@ == "pending claimed worker"@ + " must be NULL for its delivery state"@),
        row.state@ == "pending"@ && row.claim_token is None && row.claimed_by is None && row.claim_expires_at is Some ==> (result matches Err(error) && error@ == "pending claim expiry"@ + " must be NULL for its delivery state"@),
        row.state@ == "pending"@ && row.claim_token is None && row.claimed_by is None && row.claim_expires_at is None && row.delivered_at is Some ==> (result matches Err(error) && error@ == "pending delivered time"@ + " must be NULL for its delivery state"@),
        row.state@ == "pending"@ && row.claim_token is None && row.claimed_by is None && row.claim_expires_at is None && row.delivered_at is None && row.quarantined_at is Some ==> (result matches Err(error) && error@ == "pending quarantine time"@ + " must be NULL for its delivery state"@),
        row.state@ == "pending"@ && row.claim_token is None && row.claimed_by is None && row.claim_expires_at is None && row.delivered_at is None && row.quarantined_at is None && row.quarantine_reason is Some ==> (result matches Err(error) && error@ == "pending quarantine reason"@ + " must be NULL for its delivery state"@),
        row.state@ == "delivered"@ && row.claim_token is Some ==> (result matches Err(error) && error@ == "delivered claim token"@ + " must be NULL for its delivery state"@),
        row.state@ == "delivered"@ && row.claim_token is None && row.claimed_by is Some ==> (result matches Err(error) && error@ == "delivered claimed worker"@ + " must be NULL for its delivery state"@),
        row.state@ == "delivered"@ && row.claim_token is None && row.claimed_by is None && row.claim_expires_at is Some ==> (result matches Err(error) && error@ == "delivered claim expiry"@ + " must be NULL for its delivery state"@),
        row.state@ == "delivered"@ && row.claim_token is None && row.claimed_by is None && row.claim_expires_at is None && row.delivered_at is None ==> (result matches Err(error) && error@ == "delivered delivery has no delivered time"@),
        row.state@ == "delivered"@ && row.claim_token is None && row.claimed_by is None && row.claim_expires_at is None ==> (row.delivered_at matches Some(Err(complaint)) ==> (result matches Err(error) && error@ == complaint@)),
        row.state@ == "delivered"@ && row.claim_token is None && row.claimed_by is None && row.claim_expires_at is None && (row.delivered_at matches Some(at) && at is Ok) && row.quarantined_at is Some ==> (result matches Err(error) && error@ == "delivered quarantine time"@ + " must be NULL for its delivery state"@),
        row.state@ == "delivered"@ && row.claim_token is None && row.claimed_by is None && row.claim_expires_at is None && (row.delivered_at matches Some(at) && at is Ok) && row.quarantined_at is None && row.quarantine_reason is Some ==> (result matches Err(error) && error@ == "delivered quarantine reason"@ + " must be NULL for its delivery state"@),
        row.state@ == "quarantined"@ && row.claim_token is Some ==> (result matches Err(error) && error@ == "quarantined claim token"@ + " must be NULL for its delivery state"@),
        row.state@ == "quarantined"@ && row.claim_token is None && row.claimed_by is Some ==> (result matches Err(error) && error@ == "quarantined claimed worker"@ + " must be NULL for its delivery state"@),
        row.state@ == "quarantined"@ && row.claim_token is None && row.claimed_by is None && row.claim_expires_at is Some ==> (result matches Err(error) && error@ == "quarantined claim expiry"@ + " must be NULL for its delivery state"@),
        row.state@ == "quarantined"@ && row.claim_token is None && row.claimed_by is None && row.claim_expires_at is None && row.delivered_at is Some ==> (result matches Err(error) && error@ == "quarantined delivered time"@ + " must be NULL for its delivery state"@),
        row.state@ == "quarantined"@ && row.claim_token is None && row.claimed_by is None && row.claim_expires_at is None && row.delivered_at is None && row.quarantined_at is None ==> (result matches Err(error) && error@ == "quarantined delivery has no quarantine time"@),
        row.state@ == "quarantined"@ && row.claim_token is None && row.claimed_by is None && row.claim_expires_at is None && row.delivered_at is None ==> (row.quarantined_at matches Some(Err(complaint)) ==> (result matches Err(error) && error@ == complaint@)),
        row.state@ == "quarantined"@ && row.claim_token is None && row.claimed_by is None && row.claim_expires_at is None && row.delivered_at is None && (row.quarantined_at matches Some(at) && at is Ok) && row.quarantine_reason is None ==> (result matches Err(error) && error@ == "quarantined delivery has no quarantine reason"@),
        row.state@ == "claimed"@ && row.claim_token is None ==> (result matches Err(error) && error@ == "claimed delivery has no claim token"@),
        row.state@ == "claimed"@ && (row.claim_token matches Some(token) && token@.len() == 16) && row.claimed_by is None ==> (result matches Err(error) && error@ == "claimed delivery has no worker"@),
{
    reveal_strlit("pending");
    reveal_strlit("claimed");
    reveal_strlit("delivered");
    reveal_strlit("quarantined");
    assert("pending"@.len() == 7 && "claimed"@.len() == 7);
    assert("pending"@[0] == 'p' && "claimed"@[0] == 'c');
    assert("delivered"@.len() == 9 && "quarantined"@.len() == 11);
}

/// A claimed row with a token, a worker and an expiry that holds a value of another
/// state is refused with the name of the first such column, and one without an expiry
/// for that. A token of another width than sixteen bytes is refused with its width.
pub proof fn misplaced_values_of_claims_are_named(
    row: StoredDelivery,
    check: WorkerCheck,
    result: Result<HydratedDelivery, String>,
)
    requires
        row.attempts >= 0,
        call_ensures(hydrate_delivery, (row, check), result),
        row.state@ == "claimed"@,
    ensures
        row.claim_token matches Some(token) ==> (token@.len() != 16 ==> (result matches Err(error)
            && error@ == "claimed delivery has an invalid claim token width: "@ + decimal_text(
            token@.len(),
        ))),
        ({
            let claimed = row.claim_token is Some && row.claim_token->0@.len() == 16
                && row.claimed_by is Some && bounded_text_error(
                "worker_id"@,
                row.claimed_by->0@,
                255,
            ) is None;
            let expires = claimed && row.claim_expires_at is Some && row.claim_expires_at->0 is Ok;
            &&& claimed && row.claim_expires_at is None ==> (result matches Err(error) && error@
                == "claimed delivery has no claim expiry"@)
            &&& expires && row.delivered_at is Some ==> (result matches Err(error) && error@
                == "claimed delivered time"@ + " must be NULL for its delivery state"@)
            &&& expires && row.delivered_at is None && row.quarantined_at is Some ==> (
            result matches Err(error) && error@ == "claimed quarantine time"@
                + " must be NULL for its delivery state"@)
            &&& expires && row.delivered_at is None && row.quarantined_at is None
                && row.quarantine_reason is Some ==> (result matches Err(error) && error@
                == "claimed quarantine reason"@ + " must be NULL for its delivery state"@)
        }),
{
    reveal_strlit("pending");
    reveal_strlit("claimed");
    reveal_strlit("delivered");
    reveal_strlit("quarantined");
    assert("pending"@[0] == 'p' && "claimed"@[0] == 'c');
    assert("delivered"@.len() == 9 && "quarantined"@.len() == 11 && "claimed"@.len() == 7);
}

} // verus!
