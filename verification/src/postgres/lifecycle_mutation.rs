//! Claim-token-fenced delivery mutations on PostgreSQL.
//!
//! A mutation is one conditional update. Only when it changes no row is the row
//! locked and classified; a row that the caller still owns is updated once more.

use crate::instant::{optional_instant, Instant};
use crate::postgres::error::MutationError;
use crate::sql_error::{protocol_error, protocol_message};
use crate::text::{optional_bytes, quoted_text, same_bytes};
use crate::transition::{owns_row, MutationKind, RowView};
use crate::value::{named_state, parse_state, state_text, unknown_state_text, DeliveryState};
use std::time::Duration;
use vstd::prelude::*;

verus! {

/// A post-claim transition with the values that it stores.
#[derive(Debug)]
pub enum Mutation {
    /// Extend the claim.
    Renew { lease: Duration },
    /// Mark the delivery as done.
    Ack,
    /// Return to pending with a recorded failure.
    Retry { code: String, detail: String, backoff: Duration },
    /// Return to pending.
    Release { delay: Duration },
    /// Set the delivery aside.
    Quarantine { reason: String },
}

impl Mutation {
    /// The duration of the transition, if it has one.
    pub open spec fn duration(self) -> Option<Duration> {
        match self {
            Mutation::Renew { lease } => Some(lease),
            Mutation::Retry { backoff, .. } => Some(backoff),
            Mutation::Release { delay } => Some(delay),
            _ => None,
        }
    }

    /// The kind of the transition.
    pub open spec fn of_kind(self) -> MutationKind {
        match self {
            Mutation::Renew { .. } => MutationKind::Renew,
            Mutation::Ack => MutationKind::Ack,
            Mutation::Retry { .. } => MutationKind::Retry,
            Mutation::Release { .. } => MutationKind::Release,
            Mutation::Quarantine { .. } => MutationKind::Quarantine,
        }
    }

    /// Tells the kind of the transition.
    pub fn kind(&self) -> (kind: MutationKind)
        ensures
            kind == self.of_kind(),
    {
        match self {
            Mutation::Renew { .. } => MutationKind::Renew,
            Mutation::Ack => MutationKind::Ack,
            Mutation::Retry { .. } => MutationKind::Retry,
            Mutation::Release { .. } => MutationKind::Release,
            Mutation::Quarantine { .. } => MutationKind::Quarantine,
        }
    }
}

/// A delivery row as a mutation finds it, with the database time at that point.
#[derive(Debug)]
pub struct DeliveryForMutation {
    pub state: String,
    pub claim_token: Option<Vec<u8>>,
    pub claim_expires_at: Option<Instant>,
    pub operation_time: Instant,
}

/// Why a row does not take a mutation.
pub ghost enum MutationRefusal {
    /// The row is in another state than claimed.
    Illegal(DeliveryState),
    /// The claim is another's, or has expired.
    Lost,
    /// The row is not a valid delivery row.
    Invalid(Seq<char>),
}

/// Why a row does not take a mutation by the holder of `token`, if it does not.
pub open spec fn classification(delivery: DeliveryForMutation, token: Seq<u8>) -> Option<
    MutationRefusal,
> {
    match named_state(delivery.state@) {
        None => Some(MutationRefusal::Invalid(unknown_state_text(delivery.state@))),
        Some(state) => if state != DeliveryState::Claimed {
            Some(MutationRefusal::Illegal(state))
        } else if delivery.claim_token is None {
            Some(MutationRefusal::Invalid("claimed delivery has no claim token"@))
        } else if delivery.claim_token->0@.len() != 16 {
            Some(MutationRefusal::Invalid("claimed delivery has an invalid claim token width"@))
        } else if delivery.claim_expires_at is None {
            Some(MutationRefusal::Invalid("claimed delivery has no claim expiry"@))
        } else if delivery.claim_token->0@ != token || delivery.claim_expires_at->0@
            <= delivery.operation_time@ {
            Some(MutationRefusal::Lost)
        } else {
            None
        },
    }
}

/// Whether an error reports a refusal.
pub open spec fn reports(error: MutationError, refusal: MutationRefusal) -> bool {
    match refusal {
        MutationRefusal::Illegal(state) => error == (MutationError::IllegalTransition { state }),
        MutationRefusal::Lost => error == MutationError::LostClaim,
        MutationRefusal::Invalid(text) => error matches MutationError::Serialization { detail }
            && detail@ == text,
    }
}

/// Decides whether the holder of a token still owns a row.
pub fn classify_delivery(delivery: &DeliveryForMutation, token: &[u8; 16]) -> (result: Result<
    (),
    MutationError,
>)
    ensures
        match result {
            Ok(()) => classification(*delivery, token@) is None,
            Err(error) => {
                &&& classification(*delivery, token@) is Some
                &&& reports(error, classification(*delivery, token@)->0)
            },
        },
{
    let state = match parse_state(delivery.state.as_str()) {
        Ok(state) => state,
        Err(detail) => return Err(MutationError::serialization(detail)),
    };
    if state != DeliveryState::Claimed {
        return Err(MutationError::IllegalTransition { state });
    }
    let stored = match &delivery.claim_token {
        Some(stored) => stored,
        None => return Err(
            MutationError::serialization("claimed delivery has no claim token".to_owned()),
        ),
    };
    if stored.len() != 16 {
        return Err(
            MutationError::serialization(
                "claimed delivery has an invalid claim token width".to_owned(),
            ),
        );
    }
    let expires_at = match delivery.claim_expires_at {
        Some(expires_at) => expires_at,
        None => return Err(
            MutationError::serialization("claimed delivery has no claim expiry".to_owned()),
        ),
    };
    if !same_bytes(stored.as_slice(), token.as_slice()) || expires_at.not_after(
        delivery.operation_time,
    ) {
        return Err(MutationError::LostClaim);
    }
    Ok(())
}

/// Whether the holder of a token owns a row: it is claimed with that token, and
/// the claim has not expired. This is the condition of the conditional update.
pub open spec fn owns(delivery: DeliveryForMutation, token: Seq<u8>) -> bool {
    &&& delivery.state@ == "claimed"@
    &&& optional_bytes(delivery.claim_token) == Some(token)
    &&& delivery.claim_expires_at is Some && delivery.claim_expires_at->0@
        > delivery.operation_time@
}

/// A row is classified as mutable exactly for the holder of its live claim.
pub proof fn only_the_owner_may_mutate(delivery: DeliveryForMutation, token: Seq<u8>)
    requires
        token.len() == 16,
    ensures
        classification(delivery, token) is None <==> owns(delivery, token),
{
    reveal_strlit("pending");
    reveal_strlit("claimed");
    reveal_strlit("delivered");
    reveal_strlit("quarantined");
    assert("pending"@[0] == 'p' && "claimed"@[0] == 'c');
}

/// The look at a row and the condition of the update agree: a row is classified
/// as mutable exactly if the update would have changed it at that time.
pub proof fn the_look_agrees_with_the_update(
    delivery: DeliveryForMutation,
    row: RowView,
    token: Seq<u8>,
)
    requires
        delivery.state@ == row.state,
        optional_bytes(delivery.claim_token) == row.claim_token,
        optional_instant(delivery.claim_expires_at) == row.claim_expires_at,
        token.len() == 16,
    ensures
        classification(delivery, token) is None <==> owns_row(
            row,
            token,
            delivery.operation_time@,
        ),
{
    only_the_owner_may_mutate(delivery, token);
}

/// Two different tokens never own the same row.
pub proof fn a_row_has_one_owner(
    delivery: DeliveryForMutation,
    first: Seq<u8>,
    second: Seq<u8>,
)
    requires
        classification(delivery, first) is None,
        classification(delivery, second) is None,
    ensures
        first == second,
{
}

/// A claim that has expired stays lost: no later look accepts it.
pub proof fn an_expired_claim_stays_lost(
    earlier: DeliveryForMutation,
    later: DeliveryForMutation,
    token: Seq<u8>,
)
    requires
        classification(earlier, token) == Some(MutationRefusal::Lost),
        later.state == earlier.state,
        later.claim_token == earlier.claim_token,
        later.claim_expires_at == earlier.claim_expires_at,
        earlier.operation_time@ <= later.operation_time@,
    ensures
        classification(later, token) == Some(MutationRefusal::Lost),
{
}

/// A row in a terminal state refuses every token and says so.
pub proof fn terminal_states_refuse_every_token(
    delivery: DeliveryForMutation,
    state: DeliveryState,
    token: Seq<u8>,
)
    requires
        delivery.state@ == state_text(state),
        state != DeliveryState::Claimed,
    ensures
        classification(delivery, token) == Some(MutationRefusal::Illegal(state)),
{
    crate::value::state_names_read_back(state);
}

/// How far a mutation has come: what it does next, or how it ended.
#[derive(Debug)]
pub enum MutationStep {
    /// Bind the tenant to the transaction.
    BindTenant,
    /// Run the conditional update for the first time.
    FirstUpdate,
    /// Lock and read the row after the first update changed nothing.
    FirstLook,
    /// Run the conditional update once more.
    SecondUpdate,
    /// Lock and read the row after the second update changed nothing.
    SecondLook,
    /// Commit: exactly one row was changed.
    Commit,
    /// Roll back and report the error.
    RollBack(MutationError),
}

impl MutationStep {
    /// Whether this step runs the conditional update.
    pub open spec fn updates(self) -> bool {
        self is FirstUpdate || self is SecondUpdate
    }

    /// Whether this step locks and reads the row.
    pub open spec fn looks(self) -> bool {
        self is FirstLook || self is SecondLook
    }

    /// How many steps at most can follow.
    pub open spec fn distance(self) -> nat {
        match self {
            MutationStep::BindTenant => 5,
            MutationStep::FirstUpdate => 4,
            MutationStep::FirstLook => 3,
            MutationStep::SecondUpdate => 2,
            MutationStep::SecondLook => 1,
            MutationStep::Commit => 0,
            MutationStep::RollBack(_) => 0,
        }
    }

    /// Decides on the start of the transaction. A mutation for one tenant binds
    /// the tenant before it changes anything.
    pub fn after_begin(scoped: bool, reply: Result<(), sqlx::Error>) -> (result: Result<
        MutationStep,
        MutationError,
    >)
        ensures
            match reply {
                Err(source) => result == Err::<MutationStep, MutationError>(
                    MutationError::failed("begin mutation transaction", source),
                ),
                Ok(()) => result matches Ok(next) && if scoped {
                    next is BindTenant
                } else {
                    next is FirstUpdate
                },
            },
    {
        match reply {
            Err(source) => Err(MutationError::sql("begin mutation transaction", source)),
            Ok(()) => if scoped {
                Ok(MutationStep::BindTenant)
            } else {
                Ok(MutationStep::FirstUpdate)
            },
        }
    }

    /// Decides on the binding of the tenant.
    pub fn after_binding(reply: Result<(), sqlx::Error>) -> (next: MutationStep)
        ensures
            match reply {
                Err(source) => next == MutationStep::RollBack(
                    MutationError::failed("bind mutation tenant", source),
                ),
                Ok(()) => next is FirstUpdate,
            },
            next.distance() < MutationStep::BindTenant.distance(),
    {
        match reply {
            Err(source) => MutationStep::RollBack(
                MutationError::sql("bind mutation tenant", source),
            ),
            Ok(()) => MutationStep::FirstUpdate,
        }
    }

    /// Decides on the number of rows that an update changed.
    pub fn after_update(self, reply: Result<u64, sqlx::Error>) -> (next: MutationStep)
        requires
            self.updates(),
        ensures
            match reply {
                Err(source) => next == MutationStep::RollBack(
                    MutationError::failed("execute conditional delivery mutation", source),
                ),
                Ok(changed) => if changed == 1 {
                    next is Commit
                } else if self is FirstUpdate {
                    next is FirstLook
                } else {
                    next is SecondLook
                },
            },
            next.distance() < self.distance(),
    {
        match reply {
            Err(source) => MutationStep::RollBack(
                MutationError::sql("execute conditional delivery mutation", source),
            ),
            Ok(changed) => if changed == 1 {
                MutationStep::Commit
            } else {
                match self {
                    MutationStep::FirstUpdate => MutationStep::FirstLook,
                    _ => MutationStep::SecondLook,
                }
            },
        }
    }

    /// Decides on the locked row. A row that refuses the mutation says why; a row
    /// that the caller owns is updated once more, but not twice.
    pub fn after_look(
        self,
        reply: Result<Option<DeliveryForMutation>, sqlx::Error>,
        token: &[u8; 16],
    ) -> (next: MutationStep)
        requires
            self.looks(),
        ensures
            match reply {
                Err(source) => next == MutationStep::RollBack(
                    MutationError::failed("lock delivery for mutation", source),
                ),
                Ok(None) => next == MutationStep::RollBack(MutationError::NotFound),
                Ok(Some(delivery)) => match classification(delivery, token@) {
                    Some(refusal) => next matches MutationStep::RollBack(error) && reports(
                        error,
                        refusal,
                    ),
                    None => if self is FirstLook {
                        next is SecondUpdate
                    } else {
                        next matches MutationStep::RollBack(error) && exists|source: sqlx::Error|
                            #![trigger protocol_message(source)]
                            {
                                &&& protocol_message(source) == Some(
                                    "locked claimed delivery did not satisfy mutation"@,
                                )
                                &&& error == MutationError::failed(
                                    "conditional delivery mutation",
                                    source,
                                )
                            }
                    },
                },
            },
            next.distance() < self.distance(),
    {
        let delivery = match reply {
            Err(source) => return MutationStep::RollBack(
                MutationError::sql("lock delivery for mutation", source),
            ),
            Ok(None) => return MutationStep::RollBack(MutationError::NotFound),
            Ok(Some(delivery)) => delivery,
        };
        match classify_delivery(&delivery, token) {
            Err(error) => MutationStep::RollBack(error),
            Ok(()) => match self {
                MutationStep::FirstLook => MutationStep::SecondUpdate,
                _ => MutationStep::RollBack(
                    MutationError::sql(
                        "conditional delivery mutation",
                        protocol_error("locked claimed delivery did not satisfy mutation"),
                    ),
                ),
            },
        }
    }
}

/// Reports how the commit of a mutation ended.
pub fn committed(reply: Result<(), sqlx::Error>) -> (result: Result<(), MutationError>)
    ensures
        match reply {
            Ok(()) => result is Ok,
            Err(source) => result == Err::<(), MutationError>(
                MutationError::failed("commit mutation transaction", source),
            ),
        },
{
    match reply {
        Ok(()) => Ok(()),
        Err(source) => Err(MutationError::sql("commit mutation transaction", source)),
    }
}

/// Who may mutate a row, and what everyone else is told: the holder of its live
/// claim may; in another state than claimed the state is named; a claim that is
/// another's, or has expired, is lost; and everything else is no valid row.
pub proof fn refusals_name_their_reason(
    delivery: &DeliveryForMutation,
    token: &[u8; 16],
    result: Result<(), MutationError>,
)
    requires
        call_ensures(classify_delivery, (delivery, token), result),
    ensures
        ({
            let held = delivery.state@ == "claimed"@ && delivery.claim_token is Some
                && delivery.claim_token->0@.len() == 16 && delivery.claim_expires_at is Some;
            let live = delivery.claim_token->0@ == token@ && delivery.operation_time@
                < delivery.claim_expires_at->0@;
            &&& result is Ok <==> held && live
            &&& result == Err::<(), MutationError>(MutationError::LostClaim) <==> held && !live
            &&& result == Err::<(), MutationError>(
                MutationError::IllegalTransition { state: DeliveryState::Pending },
            ) <==> delivery.state@ == "pending"@
            &&& result == Err::<(), MutationError>(
                MutationError::IllegalTransition { state: DeliveryState::Delivered },
            ) <==> delivery.state@ == "delivered"@
            &&& result == Err::<(), MutationError>(
                MutationError::IllegalTransition { state: DeliveryState::Quarantined },
            ) <==> delivery.state@ == "quarantined"@
            &&& result matches Err(error) ==> error is LostClaim || error is IllegalTransition
                || error is Serialization
        }),
{
    reveal_strlit("pending");
    reveal_strlit("claimed");
    reveal_strlit("delivered");
    reveal_strlit("quarantined");
    assert("pending"@[0] == 'p' && "claimed"@[0] == 'c');
    assert("delivered"@[0] == 'd' && "quarantined"@[0] == 'q');
}

/// A mutation is committed exactly if its update changed one row. A row that was
/// not changed is looked at: one that is not there and one that refuses the token
/// end the mutation with the reason, and one that the caller owns is updated once
/// more, but never a third time.
pub proof fn mutations_run_in_order(
    step: MutationStep,
    changed: Result<u64, sqlx::Error>,
    updated: MutationStep,
    found: Result<Option<DeliveryForMutation>, sqlx::Error>,
    token: &[u8; 16],
    looked: MutationStep,
    judged: Result<(), MutationError>,
)
    requires
        step is FirstUpdate || step is SecondUpdate ==> call_ensures(
            MutationStep::after_update,
            (step, changed),
            updated,
        ),
        step is FirstLook || step is SecondLook ==> call_ensures(
            MutationStep::after_look,
            (step, found, token),
            looked,
        ),
        found matches Ok(Some(delivery)) ==> call_ensures(
            classify_delivery,
            (&delivery, token),
            judged,
        ),
    ensures
        step is FirstUpdate || step is SecondUpdate ==> {
            &&& updated is Commit <==> changed == Ok::<u64, sqlx::Error>(1)
            &&& changed is Err <==> updated is RollBack
            &&& changed is Ok && changed->Ok_0 != 1 ==> if step is FirstUpdate {
                updated is FirstLook
            } else {
                updated is SecondLook
            }
        },
        step is FirstLook || step is SecondLook ==> {
            &&& looked is SecondUpdate <==> (step is FirstLook && found is Ok
                && found->Ok_0 is Some && judged is Ok)
            &&& !(looked is SecondUpdate) ==> looked is RollBack
            &&& found matches Ok(None) ==> looked == MutationStep::RollBack(MutationError::NotFound)
            &&& found is Ok && found->Ok_0 is Some && judged
                == Err::<(), MutationError>(MutationError::LostClaim) ==> looked
                == MutationStep::RollBack(MutationError::LostClaim)
            &&& found is Ok && found->Ok_0 is Some ==> (judged matches Err(
                MutationError::IllegalTransition { state },
            ) ==> looked == MutationStep::RollBack(MutationError::IllegalTransition { state }))
        },
{
    reveal_strlit("pending");
    reveal_strlit("claimed");
    reveal_strlit("delivered");
    reveal_strlit("quarantined");
    assert("pending"@[0] == 'p' && "claimed"@[0] == 'c');
    assert("delivered"@[0] == 'd' && "quarantined"@[0] == 'q');
}

/// A mutation for one tenant binds the tenant before anything is changed, and one
/// for all tenants binds none; it is done exactly if the commit succeeded.
pub proof fn mutations_start_and_end(
    scoped: bool,
    reply: Result<(), sqlx::Error>,
    started: Result<MutationStep, MutationError>,
    bound: MutationStep,
    ended: Result<(), MutationError>,
)
    requires
        call_ensures(MutationStep::after_begin, (scoped, reply), started),
        call_ensures(MutationStep::after_binding, (reply,), bound),
        call_ensures(committed, (reply,), ended),
    ensures
        started is Ok <==> reply is Ok,
        started is Ok && scoped ==> started->Ok_0 is BindTenant,
        started is Ok && !scoped ==> started->Ok_0 is FirstUpdate,
        bound is FirstUpdate <==> reply is Ok,
        bound is RollBack <==> reply is Err,
        ended is Ok <==> reply is Ok,
{
}

/// Every mutation is of the kind that its name says.
pub proof fn mutations_are_of_their_kind(mutation: Mutation, kind: MutationKind)
    requires
        call_ensures(Mutation::kind, (&mutation,), kind),
    ensures
        kind is Renew <==> mutation is Renew,
        kind is Ack <==> mutation is Ack,
        kind is Retry <==> mutation is Retry,
        kind is Release <==> mutation is Release,
        kind is Quarantine <==> mutation is Quarantine,
{
}

/// A query that failed is reported under its own name, with its own failure.
pub proof fn failed_queries_are_reported_by_name(
    source: sqlx::Error,
    scoped: bool,
    token: &[u8; 16],
    start_reply: Result<MutationStep, MutationError>,
    binding_reply: MutationStep,
    update_reply: MutationStep,
    look_reply: MutationStep,
    committed_reply: Result<(), MutationError>,
)
    requires
        call_ensures(MutationStep::after_begin, (scoped, Err(source)), start_reply),
        call_ensures(MutationStep::after_binding, (Err(source),), binding_reply),
        call_ensures(MutationStep::after_update, (MutationStep::FirstUpdate, Err(source)), update_reply),
        call_ensures(MutationStep::after_look, (MutationStep::FirstLook, Err(source), token), look_reply),
        call_ensures(committed, (Err(source),), committed_reply),
    ensures
        start_reply == Err::<MutationStep, MutationError>(
            MutationError::failed("begin mutation transaction", source),
        ),
        binding_reply == MutationStep::RollBack(MutationError::failed("bind mutation tenant", source)),
        update_reply == MutationStep::RollBack(MutationError::failed("execute conditional delivery mutation", source)),
        look_reply == MutationStep::RollBack(MutationError::failed("lock delivery for mutation", source)),
        committed_reply == Err::<(), MutationError>(
            MutationError::failed("commit mutation transaction", source),
        ),
{
}

/// A claimed row without a token, with a token of another width than sixteen bytes, or
/// without an expiry is refused for the first of these, and an unknown state with the
/// state in quotes.
pub proof fn malformed_claims_are_told(
    delivery: &DeliveryForMutation,
    token: &[u8; 16],
    result: Result<(), MutationError>,
)
    requires
        call_ensures(classify_delivery, (delivery, token), result),
    ensures
        named_state(delivery.state@) is None ==> (result matches Err(
            MutationError::Serialization { detail },
        ) && detail@ == "unknown delivery state "@ + quoted_text(delivery.state@)),
        delivery.state@ == "claimed"@ && delivery.claim_token is None ==> (result matches Err(
            MutationError::Serialization { detail },
        ) && detail@ == "claimed delivery has no claim token"@),
        delivery.state@ == "claimed"@ && delivery.claim_token is Some
            && delivery.claim_token->0@.len() != 16 ==> (result matches Err(
            MutationError::Serialization { detail },
        ) && detail@ == "claimed delivery has an invalid claim token width"@),
        delivery.state@ == "claimed"@ && delivery.claim_token is Some
            && delivery.claim_token->0@.len() == 16 && delivery.claim_expires_at is None ==> (
        result matches Err(MutationError::Serialization { detail }) && detail@
            == "claimed delivery has no claim expiry"@),
{
    reveal_strlit("pending");
    reveal_strlit("claimed");
    reveal_strlit("delivered");
    reveal_strlit("quarantined");
    assert("pending"@[0] == 'p' && "claimed"@[0] == 'c');
    assert("delivered"@[0] == 'd' && "quarantined"@[0] == 'q');
}

} // verus!
