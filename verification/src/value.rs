//! Small domain values: row identifiers, attempt counts and delivery states.

use crate::text::{quoted, quoted_text, same_text};
use vstd::prelude::*;

verus! {

/// A positive database row identifier, viewed as its number.
#[derive(Clone, Copy, Debug, PartialEq, Eq, Structural)]
pub struct RowId {
    pub(crate) value: i64,
}

impl View for RowId {
    type V = int;

    closed spec fn view(&self) -> int {
        self.value as int
    }
}

/// Why a number is no row identifier, if it is not.
pub open spec fn row_id_error(value: int) -> Option<Seq<char>> {
    if value > 0 {
        None
    } else {
        Some("row_id: is outside the supported range"@)
    }
}

impl RowId {
    #[verifier::type_invariant]
    closed spec fn positive(self) -> bool {
        self.value > 0
    }

    /// Accepts a positive number as a row identifier.
    pub fn new(value: i64) -> (result: Result<RowId, String>)
        ensures
            match result {
                Ok(row_id) => row_id@ == value && row_id_error(value as int) is None,
                Err(error) => row_id_error(value as int) == Some(error@),
            },
    {
        if value > 0 {
            Ok(RowId { value })
        } else {
            Err("row_id: is outside the supported range".to_owned())
        }
    }

    /// The number of the row.
    pub fn get(self) -> (value: i64)
        ensures
            value == self@,
            value > 0,
    {
        proof {
            use_type_invariant(&self);
        }
        self.value
    }
}

/// The view of an optional row identifier.
pub open spec fn optional_row_id(value: Option<RowId>) -> Option<int> {
    match value {
        Some(row_id) => Some(row_id@),
        None => None,
    }
}

/// Why a number is no attempt count, if it is not.
pub open spec fn attempts_error(value: int) -> Option<Seq<char>> {
    if value >= 0 {
        None
    } else {
        Some("attempts: is outside the supported range"@)
    }
}

/// Accepts a number of attempts, which is never negative.
pub fn attempt_count(value: i64) -> (result: Result<i64, String>)
    ensures
        match result {
            Ok(attempts) => attempts == value && attempts_error(value as int) is None,
            Err(error) => attempts_error(value as int) == Some(error@),
        },
{
    if value >= 0 {
        Ok(value)
    } else {
        Err("attempts: is outside the supported range".to_owned())
    }
}

/// Durable lifecycle state of a delivery row.
#[derive(Clone, Copy, Debug, PartialEq, Eq, Structural)]
pub enum DeliveryState {
    /// The row is available for claiming.
    Pending,
    /// The row is fenced to an active worker claim.
    Claimed,
    /// The row has been acknowledged successfully.
    Delivered,
    /// The row is terminal and requires quarantine handling.
    Quarantined,
}

/// The stored name of a delivery state.
pub open spec fn state_text(state: DeliveryState) -> Seq<char> {
    match state {
        DeliveryState::Pending => "pending"@,
        DeliveryState::Claimed => "claimed"@,
        DeliveryState::Delivered => "delivered"@,
        DeliveryState::Quarantined => "quarantined"@,
    }
}

/// The state that a stored name denotes, if it is the name of one.
pub open spec fn named_state(value: Seq<char>) -> Option<DeliveryState> {
    if value == "pending"@ {
        Some(DeliveryState::Pending)
    } else if value == "claimed"@ {
        Some(DeliveryState::Claimed)
    } else if value == "delivered"@ {
        Some(DeliveryState::Delivered)
    } else if value == "quarantined"@ {
        Some(DeliveryState::Quarantined)
    } else {
        None
    }
}

/// How an unknown state name is reported.
pub open spec fn unknown_state_text(value: Seq<char>) -> Seq<char> {
    "unknown delivery state "@ + quoted_text(value)
}

/// Reads a stored state name.
pub fn parse_state(value: &str) -> (result: Result<DeliveryState, String>)
    ensures
        match result {
            Ok(state) => named_state(value@) == Some(state),
            Err(error) => named_state(value@) is None && error@ == unknown_state_text(value@),
        },
{
    if same_text(value, "pending") {
        Ok(DeliveryState::Pending)
    } else if same_text(value, "claimed") {
        Ok(DeliveryState::Claimed)
    } else if same_text(value, "delivered") {
        Ok(DeliveryState::Delivered)
    } else if same_text(value, "quarantined") {
        Ok(DeliveryState::Quarantined)
    } else {
        Err("unknown delivery state ".to_owned().concat(quoted(value).as_str()))
    }
}

/// The stored name of a delivery state.
pub fn state_name(state: DeliveryState) -> (name: &'static str)
    ensures
        name@ == state_text(state),
{
    match state {
        DeliveryState::Pending => "pending",
        DeliveryState::Claimed => "claimed",
        DeliveryState::Delivered => "delivered",
        DeliveryState::Quarantined => "quarantined",
    }
}

/// Reading the stored name of a state gives back the state.
pub proof fn state_names_read_back(state: DeliveryState)
    ensures
        named_state(state_text(state)) == Some(state),
{
    reveal_strlit("pending");
    reveal_strlit("claimed");
    reveal_strlit("delivered");
    reveal_strlit("quarantined");
    assert("pending"@[0] == 'p');
    assert("claimed"@[0] == 'c');
    assert("delivered"@[0] == 'd');
    assert("quarantined"@[0] == 'q');
}

/// The four states are stored under their four names, and no other name is read as
/// a state.
pub proof fn states_have_their_names(
    value: &str,
    read: Result<DeliveryState, String>,
    state: DeliveryState,
    name: &'static str,
)
    requires
        call_ensures(parse_state, (value,), read),
        call_ensures(state_name, (state,), name),
    ensures
        read == Ok::<DeliveryState, String>(DeliveryState::Pending) <==> value@ == "pending"@,
        read == Ok::<DeliveryState, String>(DeliveryState::Claimed) <==> value@ == "claimed"@,
        read == Ok::<DeliveryState, String>(DeliveryState::Delivered) <==> value@ == "delivered"@,
        read == Ok::<DeliveryState, String>(DeliveryState::Quarantined) <==> value@
            == "quarantined"@,
        state is Pending ==> name@ == "pending"@,
        state is Claimed ==> name@ == "claimed"@,
        state is Delivered ==> name@ == "delivered"@,
        state is Quarantined ==> name@ == "quarantined"@,
{
    reveal_strlit("pending");
    reveal_strlit("claimed");
    reveal_strlit("delivered");
    reveal_strlit("quarantined");
    assert("pending"@[0] == 'p' && "claimed"@[0] == 'c');
    assert("delivered"@[0] == 'd' && "quarantined"@[0] == 'q');
}

/// Row identifiers are the positive numbers and attempt counts those that are not
/// negative, and both come back as the number that was given.
pub proof fn numbers_are_accepted_by_their_sign(
    value: i64,
    row: Result<RowId, String>,
    number: i64,
    attempts: Result<i64, String>,
)
    requires
        call_ensures(RowId::new, (value,), row),
        row matches Ok(row_id) ==> call_ensures(RowId::get, (row_id,), number),
        call_ensures(attempt_count, (value,), attempts),
    ensures
        row is Ok <==> value > 0,
        row is Ok ==> number == value,
        attempts is Ok <==> value >= 0,
        attempts is Ok ==> attempts == Ok::<i64, String>(value),
{
}

/// A number out of its range is refused under the name of its column, and an unknown
/// state with the state in quotes.
pub proof fn refused_values_are_named(
    number: i64,
    row_id: Result<RowId, String>,
    attempts: Result<i64, String>,
    name: &str,
    state: Result<DeliveryState, String>,
)
    requires
        call_ensures(RowId::new, (number,), row_id),
        call_ensures(attempt_count, (number,), attempts),
        call_ensures(parse_state, (name,), state),
    ensures
        row_id matches Err(detail) ==> detail@ == "row_id: is outside the supported range"@,
        attempts matches Err(detail) ==> detail@ == "attempts: is outside the supported range"@,
        state matches Err(detail) ==> detail@ == "unknown delivery state "@ + quoted_text(name@),
{
}

} // verus!
