//! Claim-token-fenced delivery mutations on SQLite.
//!
//! A mutation holds the writer lock and is one conditional update. When it
//! changes no row, the row is read and classified, and nothing is committed.

use crate::instant::{parse_timestamp, stored_instant};
use crate::sql_error::{protocol_error, protocol_message};
use crate::sqlite::busy::{
    checked_milliseconds, nanoseconds, timeout_milliseconds, validate_busy_config,
    whole_milliseconds, BusyConfig,
};
use crate::sqlite::error::MutationError;
use crate::sqlite::hydrate::read_time;
use crate::text::{optional_bytes, optional_text, quoted_text, same_bytes};
use crate::transition::{owns_row, MutationKind, RowView};
use crate::value::{named_state, parse_state, state_text, unknown_state_text, DeliveryState};
use std::time::Duration;
use vstd::prelude::*;

verus! {

/// A post-claim transition with its durations.
#[derive(Debug)]
pub enum Mutation {
    /// Extend the claim.
    Renew { lease: Duration },
    /// Mark the delivery as done.
    Ack,
    /// Return to pending with a recorded failure.
    Retry { code: String, detail: String, backoff: Duration },
    /// Return to pending.
    Release { delay: Duration },
    /// Set the delivery aside.
    Quarantine { reason: String },
}

/// A transition with its durations in milliseconds.
#[derive(Debug)]
pub enum PreparedMutation {
    /// Extend the claim.
    Renew { duration_ms: i64 },
    /// Mark the delivery as done.
    Ack,
    /// Return to pending with a recorded failure.
    Retry { code: String, detail: String, duration_ms: i64 },
    /// Return to pending.
    Release { duration_ms: i64 },
    /// Set the delivery aside.
    Quarantine { reason: String },
}

impl Mutation {
    /// The duration of a transition, if it has one.
    pub open spec fn duration(self) -> Option<Duration> {
        match self {
            Mutation::Renew { lease } => Some(lease),
            Mutation::Retry { backoff, .. } => Some(backoff),
            Mutation::Release { delay } => Some(delay),
            _ => None,
        }
    }
}

impl PreparedMutation {
    /// The duration of the transition in milliseconds, if it has one.
    pub open spec fn milliseconds(self) -> Option<int> {
        match self {
            PreparedMutation::Renew { duration_ms } => Some(duration_ms as int),
            PreparedMutation::Retry { duration_ms, .. } => Some(duration_ms as int),
            PreparedMutation::Release { duration_ms } => Some(duration_ms as int),
            _ => None,
        }
    }

    /// The kind of the transition.
    pub open spec fn of_kind(self) -> MutationKind {
        match self {
            PreparedMutation::Renew { .. } => MutationKind::Renew,
            PreparedMutation::Ack => MutationKind::Ack,
            PreparedMutation::Retry { .. } => MutationKind::Retry,
            PreparedMutation::Release { .. } => MutationKind::Release,
            PreparedMutation::Quarantine { .. } => MutationKind::Quarantine,
        }
    }

    /// Tells the kind of the transition.
    pub fn kind(&self) -> (kind: MutationKind)
        ensures
            kind == self.of_kind(),
    {
        match self {
            PreparedMutation::Renew { .. } => MutationKind::Renew,
            PreparedMutation::Ack => MutationKind::Ack,
            PreparedMutation::Retry { .. } => MutationKind::Retry,
            PreparedMutation::Release { .. } => MutationKind::Release,
            PreparedMutation::Quarantine { .. } => MutationKind::Quarantine,
        }
    }
}

/// Whether a prepared transition is the one that was asked for, with its
/// duration in whole milliseconds.
pub open spec fn is_prepared(prepared: PreparedMutation, mutation: Mutation) -> bool {
    match (mutation, prepared) {
        (
            Mutation::Renew { lease },
            PreparedMutation::Renew { duration_ms },
        ) => whole_milliseconds(nanoseconds(lease)) == Ok::<int, Seq<char>>(duration_ms as int),
        (Mutation::Ack, PreparedMutation::Ack) => true,
        (
            Mutation::Retry { code, detail, backoff },
            PreparedMutation::Retry { code: stored_code, detail: stored_detail, duration_ms },
        ) => {
            &&& stored_code@ == code@
            &&& stored_detail@ == detail@
            &&& whole_milliseconds(nanoseconds(backoff)) == Ok::<int, Seq<char>>(duration_ms as int)
        },
        (
            Mutation::Release { delay },
            PreparedMutation::Release { duration_ms },
        ) => whole_milliseconds(nanoseconds(delay)) == Ok::<int, Seq<char>>(duration_ms as int),
        (Mutation::Quarantine { reason }, PreparedMutation::Quarantine { reason: stored }) => stored@
            == reason@,
        _ => false,
    }
}

/// Checks the policy and the duration of a transition before anything is read.
pub fn begin_mutation(busy: BusyConfig, mutation: Mutation) -> (result: Result<
    PreparedMutation,
    MutationError,
>)
    ensures
        match timeout_milliseconds(nanoseconds(busy@.timeout)) {
            Err(text) => result matches Err(MutationError::Configuration { detail }) && detail@
                == text,
            Ok(_) => match result {
                Ok(prepared) => is_prepared(prepared, mutation),
                Err(error) => {
                    &&& mutation.duration() is Some
                    &&& error matches MutationError::Serialization { detail }
                    &&& whole_milliseconds(nanoseconds(mutation.duration()->0)) == Err::<
                        int,
                        Seq<char>,
                    >(detail@)
                },
            },
        },
{
    if let Err(detail) = validate_busy_config(busy) {
        return Err(MutationError::Configuration { detail });
    }
    match mutation {
        Mutation::Renew { lease } => match checked_milliseconds(lease) {
            Ok(duration_ms) => Ok(PreparedMutation::Renew { duration_ms }),
            Err(detail) => Err(MutationError::serialization(detail)),
        },
        Mutation::Ack => Ok(PreparedMutation::Ack),
        Mutation::Retry { code, detail, backoff } => match checked_milliseconds(backoff) {
            Ok(duration_ms) => Ok(PreparedMutation::Retry { code, detail, duration_ms }),
            Err(detail) => Err(MutationError::serialization(detail)),
        },
        Mutation::Release { delay } => match checked_milliseconds(delay) {
            Ok(duration_ms) => Ok(PreparedMutation::Release { duration_ms }),
            Err(detail) => Err(MutationError::serialization(detail)),
        },
        Mutation::Quarantine { reason } => Ok(PreparedMutation::Quarantine { reason }),
    }
}

/// A delivery row as a mutation finds it.
#[derive(Debug)]
pub struct DeliveryForMutation {
    pub state: String,
    pub claim_token: Option<Vec<u8>>,
    pub claim_expires_at: Option<String>,
}

/// Why a row does not take a mutation.
pub ghost enum MutationRefusal {
    /// The row is in another state than claimed.
    Illegal(DeliveryState),
    /// The claim is another's, or has expired.
    Lost,
    /// The row, or the database's time, is not valid.
    Invalid(Seq<char>),
}

/// Why a row does not take a mutation by the holder of `token` at
/// `operation_time`, if it does not.
pub open spec fn classification(
    delivery: DeliveryForMutation,
    token: Seq<u8>,
    operation_time: Seq<char>,
) -> Option<MutationRefusal> {
    match named_state(delivery.state@) {
        None => Some(MutationRefusal::Invalid(unknown_state_text(delivery.state@))),
        Some(state) => if state != DeliveryState::Claimed {
            Some(MutationRefusal::Illegal(state))
        } else if delivery.claim_token is None {
            Some(MutationRefusal::Invalid("claimed delivery has no claim token"@))
        } else if delivery.claim_token->0@.len() != 16 {
            Some(MutationRefusal::Invalid("claimed delivery has an invalid claim token width"@))
        } else if delivery.claim_expires_at is None {
            Some(MutationRefusal::Invalid("claimed delivery has no claim expiry"@))
        } else {
            match (stored_instant(delivery.claim_expires_at->0@), stored_instant(operation_time)) {
                (Err(error), _) => Some(MutationRefusal::Invalid(error)),
                (Ok(_), Err(error)) => Some(MutationRefusal::Invalid(error)),
                (Ok(expires_at), Ok(now)) => if delivery.claim_token->0@ != token || expires_at
                    <= now {
                    Some(MutationRefusal::Lost)
                } else {
                    None
                },
            }
        },
    }
}

/// Whether an error reports a refusal.
pub open spec fn reports(error: MutationError, refusal: MutationRefusal) -> bool {
    match refusal {
        MutationRefusal::Illegal(state) => error == (MutationError::IllegalTransition { state }),
        MutationRefusal::Lost => error == MutationError::LostClaim,
        MutationRefusal::Invalid(text) => error matches MutationError::Serialization { detail }
            && detail@ == text,
    }
}

/// Decides whether the holder of a token still owns a row.
pub fn classify_delivery(
    delivery: &DeliveryForMutation,
    token: &[u8; 16],
    operation_time: &str,
) -> (result: Result<(), MutationError>)
    ensures
        match result {
            Ok(()) => classification(*delivery, token@, operation_time@) is None,
            Err(error) => {
                &&& classification(*delivery, token@, operation_time@) is Some
                &&& reports(error, classification(*delivery, token@, operation_time@)->0)
            },
        },
{
    let state = match parse_state(delivery.state.as_str()) {
        Ok(state) => state,
        Err(detail) => return Err(MutationError::serialization(detail)),
    };
    if state != DeliveryState::Claimed {
        return Err(MutationError::IllegalTransition { state });
    }
    let stored = match &delivery.claim_token {
        Some(stored) => stored,
        None => return Err(
            MutationError::serialization("claimed delivery has no claim token".to_owned()),
        ),
    };
    if stored.len() != 16 {
        return Err(
            MutationError::serialization(
                "claimed delivery has an invalid claim token width".to_owned(),
            ),
        );
    }
    let expiry = match &delivery.claim_expires_at {
        Some(expiry) => expiry,
        None => return Err(
            MutationError::serialization("claimed delivery has no claim expiry".to_owned()),
        ),
    };
    let expires_at = match parse_timestamp(expiry.as_str()) {
        Ok(expires_at) => expires_at,
        Err(detail) => return Err(MutationError::serialization(detail)),
    };
    let now = match parse_timestamp(operation_time) {
        Ok(now) => now,
        Err(detail) => return Err(MutationError::serialization(detail)),
    };
    if !same_bytes(stored.as_slice(), token.as_slice()) || expires_at.not_after(now) {
        return Err(MutationError::LostClaim);
    }
    Ok(())
}

/// Whether the holder of a token owns a row: it is claimed with that token, and
/// the claim has not expired.
pub open spec fn owns(
    delivery: DeliveryForMutation,
    token: Seq<u8>,
    operation_time: Seq<char>,
) -> bool {
    &&& delivery.state@ == "claimed"@
    &&& optional_bytes(delivery.claim_token) == Some(token)
    &&& delivery.claim_expires_at is Some
    &&& stored_instant(delivery.claim_expires_at->0@) is Ok
    &&& stored_instant(operation_time) is Ok
    &&& stored_instant(delivery.claim_expires_at->0@)->Ok_0 > stored_instant(operation_time)->Ok_0
}

/// A row is classified as mutable exactly for the holder of its live claim.
pub proof fn only_the_owner_may_mutate(
    delivery: DeliveryForMutation,
    token: Seq<u8>,
    operation_time: Seq<char>,
)
    requires
        token.len() == 16,
    ensures
        classification(delivery, token, operation_time) is None <==> owns(
            delivery,
            token,
            operation_time,
        ),
{
    reveal_strlit("pending");
    reveal_strlit("claimed");
    reveal_strlit("delivered");
    reveal_strlit("quarantined");
    assert("pending"@[0] == 'p' && "claimed"@[0] == 'c');
}

/// The look at a row and the condition of the update agree: a row is classified
/// as mutable exactly if the update would have changed it at that time.
pub proof fn the_look_agrees_with_the_update(
    delivery: DeliveryForMutation,
    row: RowView,
    token: Seq<u8>,
    operation_time: Seq<char>,
)
    requires
        delivery.state@ == row.state,
        optional_bytes(delivery.claim_token) == row.claim_token,
        read_time(optional_text(delivery.claim_expires_at)) == Ok::<Option<int>, Seq<char>>(
            row.claim_expires_at,
        ),
        stored_instant(operation_time) is Ok,
        token.len() == 16,
    ensures
        classification(delivery, token, operation_time) is None <==> owns_row(
            row,
            token,
            stored_instant(operation_time)->Ok_0,
        ),
{
    only_the_owner_may_mutate(delivery, token, operation_time);
}

/// Two different tokens never own the same row.
pub proof fn a_row_has_one_owner(
    delivery: DeliveryForMutation,
    first: Seq<u8>,
    second: Seq<u8>,
    operation_time: Seq<char>,
)
    requires
        classification(delivery, first, operation_time) is None,
        classification(delivery, second, operation_time) is None,
    ensures
        first == second,
{
}

/// A row in a terminal state refuses every token and says so.
pub proof fn terminal_states_refuse_every_token(
    delivery: DeliveryForMutation,
    state: DeliveryState,
    token: Seq<u8>,
    operation_time: Seq<char>,
)
    requires
        delivery.state@ == state_text(state),
        state != DeliveryState::Claimed,
    ensures
        classification(delivery, token, operation_time) == Some(MutationRefusal::Illegal(state)),
{
    crate::value::state_names_read_back(state);
}

/// How far a mutation has come: what it does next, or how it ended.
#[derive(Debug)]
pub enum MutationStep {
    /// Read the database's time.
    ReadClock,
    /// Run the conditional update.
    Update { operation_time: String },
    /// Read the row after the update changed nothing.
    Classify,
    /// Commit: exactly one row was changed.
    Commit,
    /// Roll back and report the error.
    RollBack(MutationError),
}

impl MutationStep {
    /// How many steps at most can follow.
    pub open spec fn distance(self) -> nat {
        match self {
            MutationStep::ReadClock => 3,
            MutationStep::Update { .. } => 2,
            MutationStep::Classify => 1,
            MutationStep::Commit => 0,
            MutationStep::RollBack(_) => 0,
        }
    }

    /// Decides on the start of the transaction, which takes the writer lock.
    pub fn after_begin(reply: Result<(), sqlx::Error>) -> (result: Result<
        MutationStep,
        MutationError,
    >)
        ensures
            match reply {
                Err(source) => result == Err::<MutationStep, MutationError>(
                    MutationError::Sql { operation: "begin immediate mutation transaction", source },
                ),
                Ok(()) => result matches Ok(next) && next is ReadClock,
            },
    {
        match reply {
            Err(source) => Err(MutationError::sql("begin immediate mutation transaction", source)),
            Ok(()) => Ok(MutationStep::ReadClock),
        }
    }

    /// Decides on the database's time.
    pub fn after_clock(reply: Result<String, sqlx::Error>) -> (next: MutationStep)
        ensures
            match reply {
                Err(source) => next == MutationStep::RollBack(
                    MutationError::Sql { operation: "read mutation operation time", source },
                ),
                Ok(text) => next == (MutationStep::Update { operation_time: text }),
            },
            next.distance() < MutationStep::ReadClock.distance(),
    {
        match reply {
            Err(source) => MutationStep::RollBack(
                MutationError::sql("read mutation operation time", source),
            ),
            Ok(operation_time) => MutationStep::Update { operation_time },
        }
    }

    /// Decides on the number of rows that the update changed.
    pub fn after_update(reply: Result<u64, sqlx::Error>) -> (next: MutationStep)
        ensures
            match reply {
                Err(source) => next == MutationStep::RollBack(
                    MutationError::Sql { operation: "execute conditional delivery mutation", source },
                ),
                Ok(changed) => if changed == 1 {
                    next is Commit
                } else {
                    next is Classify
                },
            },
            next.distance() < 2,
    {
        match reply {
            Err(source) => MutationStep::RollBack(
                MutationError::sql("execute conditional delivery mutation", source),
            ),
            Ok(changed) => if changed == 1 {
                MutationStep::Commit
            } else {
                MutationStep::Classify
            },
        }
    }

    /// Decides on the row that was not changed: it says why, and nothing is
    /// committed.
    pub fn after_classification(
        token: &[u8; 16],
        operation_time: &str,
        reply: Result<Option<DeliveryForMutation>, sqlx::Error>,
    ) -> (error: MutationError)
        ensures
            match reply {
                Err(source) => error == (MutationError::Sql {
                    operation: "classify delivery mutation",
                    source,
                }),
                Ok(None) => error == MutationError::NotFound,
                Ok(Some(delivery)) => match classification(delivery, token@, operation_time@) {
                    Some(refusal) => reports(error, refusal),
                    None => error matches MutationError::Sql { operation, source } && operation
                        == "conditional delivery mutation" && protocol_message(source) == Some(
                        "claimed delivery did not satisfy mutation"@,
                    ),
                },
            },
    {
        let delivery = match reply {
            Err(source) => return MutationError::sql("classify delivery mutation", source),
            Ok(None) => return MutationError::NotFound,
            Ok(Some(delivery)) => delivery,
        };
        match classify_delivery(&delivery, token, operation_time) {
            Err(error) => error,
            Ok(()) => MutationError::sql(
                "conditional delivery mutation",
                protocol_error("claimed delivery did not satisfy mutation"),
            ),
        }
    }
}

/// Reports how the commit of a mutation ended.
pub fn committed(reply: Result<(), sqlx::Error>) -> (result: Result<(), MutationError>)
    ensures
        match reply {
            Ok(()) => result is Ok,
            Err(source) => result == Err::<(), MutationError>(
                MutationError::Sql { operation: "commit mutation transaction", source },
            ),
        },
{
    match reply {
        Ok(()) => Ok(()),
        Err(source) => Err(MutationError::sql("commit mutation transaction", source)),
    }
}

/// Who may mutate a row, and what everyone else is told: the holder of its live
/// claim may; in another state than claimed the state is named; a claim that is
/// another's, or has expired, is lost; and everything else is no valid row.
pub proof fn refusals_name_their_reason(
    delivery: &DeliveryForMutation,
    token: &[u8; 16],
    operation_time: &str,
    result: Result<(), MutationError>,
)
    requires
        call_ensures(classify_delivery, (delivery, token, operation_time), result),
    ensures
        ({
            let now = stored_instant(operation_time@);
            let expiry = stored_instant(delivery.claim_expires_at->0@);
            let held = delivery.state@ == "claimed"@ && delivery.claim_token is Some
                && delivery.claim_token->0@.len() == 16 && delivery.claim_expires_at is Some
                && expiry is Ok && now is Ok;
            let live = delivery.claim_token->0@ == token@ && now->Ok_0 < expiry->Ok_0;
            &&& result is Ok <==> held && live
            &&& result == Err::<(), MutationError>(MutationError::LostClaim) <==> held && !live
            &&& result == Err::<(), MutationError>(
                MutationError::IllegalTransition { state: DeliveryState::Pending },
            ) <==> delivery.state@ == "pending"@
            &&& result == Err::<(), MutationError>(
                MutationError::IllegalTransition { state: DeliveryState::Delivered },
            ) <==> delivery.state@ == "delivered"@
            &&& result == Err::<(), MutationError>(
                MutationError::IllegalTransition { state: DeliveryState::Quarantined },
            ) <==> delivery.state@ == "quarantined"@
            &&& result matches Err(error) ==> error is LostClaim || error is IllegalTransition
                || error is Serialization
        }),
{
    reveal_strlit("pending");
    reveal_strlit("claimed");
    reveal_strlit("delivered");
    reveal_strlit("quarantined");
    assert("pending"@[0] == 'p' && "claimed"@[0] == 'c');
    assert("delivered"@[0] == 'd' && "quarantined"@[0] == 'q');
}

/// A mutation starts exactly if the wait of its policy and its duration are whole
/// milliseconds that SQLite can hold. It is then the one that was asked for, with
/// the same duration and the same texts.
pub proof fn prepared_mutations_are_what_was_asked(
    busy: BusyConfig,
    mutation: Mutation,
    result: Result<PreparedMutation, MutationError>,
)
    requires
        call_ensures(begin_mutation, (busy, mutation), result),
    ensures
        ({
            let held = |duration: Duration|
                nanoseconds(duration) % 1_000_000 == 0 && nanoseconds(duration)
                    <= 9_223_372_036_854_775_807_000_000;
            &&& result is Ok <==> {
                &&& nanoseconds(busy@.timeout) % 1_000_000 == 0
                &&& nanoseconds(busy@.timeout) <= 2_147_483_647_000_000
                &&& mutation matches Mutation::Renew { lease } ==> held(lease)
                &&& mutation matches Mutation::Retry { backoff, .. } ==> held(backoff)
                &&& mutation matches Mutation::Release { delay } ==> held(delay)
            }
            &&& result matches Ok(prepared) ==> match mutation {
                Mutation::Renew { lease } => prepared matches PreparedMutation::Renew {
                    duration_ms,
                } && duration_ms * 1_000_000 == nanoseconds(lease),
                Mutation::Ack => prepared is Ack,
                Mutation::Retry {
                    code: given_code,
                    detail: given_detail,
                    backoff,
                } => prepared matches PreparedMutation::Retry { code, detail, duration_ms }
                    && duration_ms * 1_000_000 == nanoseconds(backoff) && code@ == given_code@
                    && detail@ == given_detail@,
                Mutation::Release { delay } => prepared matches PreparedMutation::Release {
                    duration_ms,
                } && duration_ms * 1_000_000 == nanoseconds(delay),
                Mutation::Quarantine {
                    reason: given_reason,
                } => prepared matches PreparedMutation::Quarantine { reason } && reason@
                    == given_reason@,
            }
            &&& result matches Err(error) ==> error is Configuration || error is Serialization
        }),
{
}

/// A mutation is committed exactly if its update changed one row. A row that was
/// not changed is looked at, and the mutation then always ends with the reason: the
/// row is not there, or it refuses the token.
pub proof fn mutations_run_in_order(
    reply: Result<(), sqlx::Error>,
    started: Result<MutationStep, MutationError>,
    clock: Result<String, sqlx::Error>,
    timed: MutationStep,
    changed: Result<u64, sqlx::Error>,
    updated: MutationStep,
    ended: Result<(), MutationError>,
)
    requires
        call_ensures(MutationStep::after_begin, (reply,), started),
        call_ensures(MutationStep::after_clock, (clock,), timed),
        call_ensures(MutationStep::after_update, (changed,), updated),
        call_ensures(committed, (reply,), ended),
    ensures
        started is Ok <==> reply is Ok,
        started is Ok ==> started->Ok_0 is ReadClock,
        clock matches Ok(time) ==> timed == (MutationStep::Update { operation_time: time }),
        clock is Err <==> timed is RollBack,
        updated is Commit <==> changed == Ok::<u64, sqlx::Error>(1),
        updated is RollBack <==> changed is Err,
        updated is Classify <==> changed is Ok && changed->Ok_0 != 1,
        ended is Ok <==> reply is Ok,
{
}

/// A row that a mutation did not change says why.
pub proof fn unchanged_rows_say_why(
    token: &[u8; 16],
    operation_time: &str,
    reply: Result<Option<DeliveryForMutation>, sqlx::Error>,
    judged: Result<(), MutationError>,
    error: MutationError,
)
    requires
        call_ensures(MutationStep::after_classification, (token, operation_time, reply), error),
        reply matches Ok(Some(delivery)) ==> call_ensures(
            classify_delivery,
            (&delivery, token, operation_time),
            judged,
        ),
    ensures
        reply is Err ==> error is Sql,
        reply matches Ok(None) ==> error == MutationError::NotFound,
        reply is Ok && reply->Ok_0 is Some ==> {
            &&& judged is Ok ==> error is Sql
            &&& judged == Err::<(), MutationError>(MutationError::LostClaim) ==> error
                == MutationError::LostClaim
            &&& judged is Err && judged->Err_0 is Serialization ==> error is Serialization
            &&& judged matches Err(MutationError::IllegalTransition { state }) ==> error == (
            MutationError::IllegalTransition { state })
        },
{
}

/// Every prepared mutation is of the kind that its name says.
pub proof fn prepared_mutations_are_of_their_kind(mutation: PreparedMutation, kind: MutationKind)
    requires
        call_ensures(PreparedMutation::kind, (&mutation,), kind),
    ensures
        kind is Renew <==> mutation is Renew,
        kind is Ack <==> mutation is Ack,
        kind is Retry <==> mutation is Retry,
        kind is Release <==> mutation is Release,
        kind is Quarantine <==> mutation is Quarantine,
{
}

/// A query that failed is reported under its own name, with its own failure.
pub proof fn failed_queries_are_reported_by_name(
    source: sqlx::Error,
    token: &[u8; 16],
    now: &str,
    start_reply: Result<MutationStep, MutationError>,
    clock_reply: MutationStep,
    update_reply: MutationStep,
    classification_reply: MutationError,
    committed_reply: Result<(), MutationError>,
)
    requires
        call_ensures(MutationStep::after_begin, (Err(source),), start_reply),
        call_ensures(MutationStep::after_clock, (Err(source),), clock_reply),
        call_ensures(MutationStep::after_update, (Err(source),), update_reply),
        call_ensures(MutationStep::after_classification, (token, now, Err(source)), classification_reply),
        call_ensures(committed, (Err(source),), committed_reply),
    ensures
        start_reply == Err::<MutationStep, MutationError>(
            MutationError::Sql { operation: "begin immediate mutation transaction", source },
        ),
        clock_reply == MutationStep::RollBack(
            MutationError::Sql { operation: "read mutation operation time", source },
        ),
        update_reply == MutationStep::RollBack(
            MutationError::Sql { operation: "execute conditional delivery mutation", source },
        ),
        classification_reply == (MutationError::Sql { operation: "classify delivery mutation", source }),
        committed_reply == Err::<(), MutationError>(
            MutationError::Sql { operation: "commit mutation transaction", source },
        ),
{
}

/// A claimed row without a token, with a token of another width than sixteen bytes, or
/// without an expiry is refused for the first of these, and an unknown state with the
/// state in quotes.
pub proof fn malformed_claims_are_told(
    delivery: &DeliveryForMutation,
    token: &[u8; 16],
    operation_time: &str,
    result: Result<(), MutationError>,
)
    requires
        call_ensures(classify_delivery, (delivery, token, operation_time), result),
    ensures
        named_state(delivery.state@) is None ==> (result matches Err(
            MutationError::Serialization { detail },
        ) && detail@ == "unknown delivery state "@ + quoted_text(delivery.state@)),
        delivery.state@ == "claimed"@ && delivery.claim_token is None ==> (result matches Err(
            MutationError::Serialization { detail },
        ) && detail@ == "claimed delivery has no claim token"@),
        delivery.state@ == "claimed"@ && delivery.claim_token is Some
            && delivery.claim_token->0@.len() != 16 ==> (result matches Err(
            MutationError::Serialization { detail },
        ) && detail@ == "claimed delivery has an invalid claim token width"@),
        delivery.state@ == "claimed"@ && delivery.claim_token is Some
            && delivery.claim_token->0@.len() == 16 && delivery.claim_expires_at is None ==> (
        result matches Err(MutationError::Serialization { detail }) && detail@
            == "claimed delivery has no claim expiry"@),
{
    reveal_strlit("pending");
    reveal_strlit("claimed");
    reveal_strlit("delivered");
    reveal_strlit("quarantined");
    assert("pending"@[0] == 'p' && "claimed"@[0] == 'c');
    assert("delivered"@[0] == 'd' && "quarantined"@[0] == 'q');
}

} // verus!
