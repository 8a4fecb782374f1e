//! Claims on PostgreSQL deliveries.
//!
//! All tokens of a batch are drawn before any row is updated, so a failure of
//! the entropy source leaves the whole batch unchanged, attempts included.

use crate::attribute::{tenant_id, tenant_id_error, worker_id_copy, Attribute};
use crate::claim::{
    claimed_from, claiming_one_more_stays_on_course, completed, content_refused,
    fresh_tokens_stay_distinct, prepared_from, refused_before_token, tokens_distinct, tokens_of,
    CandidateView, ClaimBatch, ClaimRefusal, PreparedClaim, PreparedView,
};
use crate::delivery::HydratedClaim;
use crate::event::{hydration, EventColumns};
use crate::instant::{instant_error, optional_instant, Instant};
use crate::postgres::error::ClaimError;
use crate::postgres::hydrate::hydrate_event;
use crate::sql_error::{protocol_error, protocol_message};
use crate::text::{optional_bytes, same_text};
use crate::token::{
    blanks_add_up, draws_since, ends_in_failure, fresh_token, is_search, later_draws_are_kept,
    only_blanks, EntropySource,
};
use crate::transition::{is_claimable, RowView};
use crate::value::{attempt_count, RowId};
use vstd::prelude::*;

verus! {

/// A delivery row that a claim may take, with the event it belongs to.
#[derive(Debug)]
pub struct ClaimCandidate {
    pub event_row_id: i64,
    pub tenant_id: String,
    pub state: String,
    pub attempts: i64,
    pub claim_token: Option<Vec<u8>>,
    pub event: EventColumns,
    pub occurred_at: Option<Instant>,
}

impl ClaimCandidate {
    /// What a claim needs of the row on either database.
    pub open spec fn shared(self) -> CandidateView {
        CandidateView {
            row_id: self.event_row_id as int,
            tenant_id: self.tenant_id@,
            attempts: self.attempts as int,
            claim_token: optional_bytes(self.claim_token),
            event: hydration(self.event@, Ok(optional_instant(self.occurred_at))),
        }
    }
}

/// Why a candidate is refused once it has a token, if it is.
pub open spec fn refused_after_token(candidate: ClaimCandidate) -> Option<ClaimRefusal> {
    if candidate.state@ != "pending"@ && candidate.state@ != "claimed"@ {
        Some(ClaimRefusal::Invalid("claim candidate has an ineligible state"@))
    } else {
        content_refused(candidate.shared())
    }
}

/// Why a candidate is refused, if it is.
pub open spec fn refused(candidate: ClaimCandidate) -> Option<ClaimRefusal> {
    if refused_before_token(candidate.shared()) is Some {
        refused_before_token(candidate.shared())
    } else {
        refused_after_token(candidate)
    }
}

/// Whether an error reports a refusal.
pub open spec fn reports(error: ClaimError, refusal: ClaimRefusal) -> bool {
    match refusal {
        ClaimRefusal::Invalid(text) => error matches ClaimError::Serialization { detail } && detail@
            == text,
        ClaimRefusal::Overflow(row) => error matches ClaimError::CounterOverflow { row_id }
            && row_id@ == row,
        ClaimRefusal::Mismatch(text) => error matches ClaimError::MigrationMismatch { detail }
            && detail@ == text,
    }
}

/// Prepares the claim of one candidate.
pub fn prepare_claim<E: EntropySource>(
    candidate: &ClaimCandidate,
    used: &Vec<[u8; 16]>,
    entropy: &mut E,
) -> (result: Result<PreparedClaim, ClaimError>)
    ensures
        match result {
            Ok(prepared) => {
                &&& refused(*candidate) is None
                &&& prepared_from(prepared@, candidate.shared())
                &&& is_search(
                    draws_since(old(entropy).draws(), final(entropy).draws()),
                    candidate.shared().claim_token,
                    used@,
                    Ok(prepared@.token),
                )
            },
            Err(ClaimError::EntropyUnavailable { source }) => {
                &&& refused_before_token(candidate.shared()) is None
                &&& is_search(
                    draws_since(old(entropy).draws(), final(entropy).draws()),
                    candidate.shared().claim_token,
                    used@,
                    Err(source),
                )
            },
            Err(error) => refused(*candidate) is Some && reports(error, refused(*candidate)->0),
        },
        old(entropy).draws().is_prefix_of(final(entropy).draws()),
        only_blanks(
            old(entropy).requests(),
            final(entropy).requests(),
            draws_since(old(entropy).draws(), final(entropy).draws()).len(),
        ),
        refused_before_token(candidate.shared()) is Some ==> final(entropy).draws() == old(
            entropy,
        ).draws(),
{
    let row_id = match RowId::new(candidate.event_row_id) {
        Ok(row_id) => row_id,
        Err(detail) => return Err(ClaimError::serialization(detail)),
    };
    let attempts = match candidate.attempts.checked_add(1) {
        Some(attempts) => attempts,
        None => return Err(ClaimError::CounterOverflow { row_id }),
    };
    let attempts = match attempt_count(attempts) {
        Ok(attempts) => attempts,
        Err(detail) => return Err(ClaimError::serialization(detail)),
    };
    let token = match fresh_token(&candidate.claim_token, used, entropy) {
        Ok(token) => token,
        Err(source) => return Err(ClaimError::EntropyUnavailable { source }),
    };
    if !same_text(candidate.state.as_str(), "pending") && !same_text(
        candidate.state.as_str(),
        "claimed",
    ) {
        return Err(
            ClaimError::serialization("claim candidate has an ineligible state".to_owned()),
        );
    }
    let event = match hydrate_event(&candidate.event, candidate.occurred_at) {
        Ok(event) => event,
        Err(detail) => return Err(ClaimError::serialization(detail)),
    };
    let tenant = match tenant_id(candidate.tenant_id.as_str()) {
        Ok(tenant) => tenant,
        Err(detail) => return Err(ClaimError::serialization(detail)),
    };
    Ok(PreparedClaim::new(tenant, row_id, event, attempts, token))
}

/// Whether a batch is the one that its candidates lead to, in their order and
/// with distinct tokens.
pub open spec fn prepared_batch(
    batch: Seq<PreparedClaim>,
    candidates: Seq<ClaimCandidate>,
) -> bool {
    &&& batch.len() == candidates.len()
    &&& forall|i: int|
        0 <= i < batch.len() ==> prepared_from((#[trigger] batch[i])@, candidates[i].shared())
    &&& tokens_distinct(batch)
}

/// Whether a batch of candidates leads to a result: to their claims if none of
/// them is refused, else to the first refusal, unless no entropy could be had
/// first.
pub open spec fn prepares(
    candidates: Seq<ClaimCandidate>,
    result: Result<Vec<PreparedClaim>, ClaimError>,
) -> bool {
    match result {
        Ok(batch) => {
            &&& prepared_batch(batch@, candidates)
            &&& forall|i: int|
                0 <= i < candidates.len() ==> refused(#[trigger] candidates[i]) is None
        },
        Err(ClaimError::EntropyUnavailable { .. }) => exists|k: int|
            {
                &&& 0 <= k < candidates.len()
                &&& refused_before_token((#[trigger] candidates[k]).shared()) is None
                &&& forall|i: int| 0 <= i < k ==> refused(#[trigger] candidates[i]) is None
            },
        Err(error) => exists|k: int|
            {
                &&& 0 <= k < candidates.len()
                &&& refused(#[trigger] candidates[k]) is Some
                &&& reports(error, refused(candidates[k])->0)
                &&& forall|i: int| 0 <= i < k ==> refused(#[trigger] candidates[i]) is None
            },
    }
}

/// Prepares a batch of claims: every row identifier, counter, token, event and
/// tenant is validated before the first update.
pub fn prepare_claims<E: EntropySource>(
    candidates: &Vec<ClaimCandidate>,
    entropy: &mut E,
) -> (result: Result<Vec<PreparedClaim>, ClaimError>)
    ensures
        prepares(candidates@, result),
        old(entropy).draws().is_prefix_of(final(entropy).draws()),
        only_blanks(
            old(entropy).requests(),
            final(entropy).requests(),
            draws_since(old(entropy).draws(), final(entropy).draws()).len(),
        ),
        result matches Ok(batch) ==> forall|i: int|
            0 <= i < batch@.len() ==> draws_since(
                old(entropy).draws(),
                final(entropy).draws(),
            ).contains(Ok((#[trigger] batch@[i])@.token)),
        result matches Err(ClaimError::EntropyUnavailable { source }) ==> ends_in_failure(
            draws_since(old(entropy).draws(), final(entropy).draws()),
            source,
        ),
{
    let ghost before = entropy.draws();
    let ghost requests = entropy.requests();
    let mut used: Vec<[u8; 16]> = Vec::new();
    let mut batch: Vec<PreparedClaim> = Vec::new();
    let mut index: usize = 0;
    while index < candidates.len()
        invariant
            index <= candidates@.len(),
            batch@.len() == index,
            tokens_of(batch@, used@),
            tokens_distinct(batch@),
            forall|i: int|
                0 <= i < index ==> prepared_from((#[trigger] batch@[i])@, candidates@[i].shared()),
            forall|i: int| 0 <= i < index ==> refused(#[trigger] candidates@[i]) is None,
            before == old(entropy).draws(),
            before.is_prefix_of(entropy.draws()),
            requests == old(entropy).requests(),
            only_blanks(
                requests,
                entropy.requests(),
                draws_since(before, entropy.draws()).len(),
            ),
            forall|i: int|
                0 <= i < index ==> draws_since(before, entropy.draws()).contains(
                    Ok((#[trigger] batch@[i])@.token),
                ),
        decreases candidates@.len() - index,
    {
        let ghost so_far = entropy.draws();
        let ghost asked = entropy.requests();
        match prepare_claim(&candidates[index], &used, entropy) {
            Err(error) => {
                proof {
                    later_draws_are_kept(before, so_far, entropy.draws());
                    blanks_add_up(
                        requests,
                        asked,
                        entropy.requests(),
                        draws_since(before, so_far).len(),
                        draws_since(so_far, entropy.draws()).len(),
                    );
                }
                return Err(error);
            },
            Ok(prepared) => {
                proof {
                    later_draws_are_kept(before, so_far, entropy.draws());
                    blanks_add_up(
                        requests,
                        asked,
                        entropy.requests(),
                        draws_since(before, so_far).len(),
                        draws_since(so_far, entropy.draws()).len(),
                    );
                    assert(draws_since(before, entropy.draws()).contains(Ok(prepared@.token)));
                    fresh_tokens_stay_distinct(
                        batch@,
                        used@,
                        prepared,
                        candidates@[index as int].shared().claim_token,
                    );
                }
                used.push(*prepared.token());
                batch.push(prepared);
            },
        }
        index = index + 1;
    }
    Ok(batch)
}

/// Whether the reply to the update of a row leads to a result: to the claimed
/// event with the expiry that was stored, or to the error that the reply means.
pub open spec fn completes(
    prepared: PreparedView,
    worker: Seq<char>,
    reply: Result<Option<Instant>, sqlx::Error>,
    result: Result<HydratedClaim, ClaimError>,
) -> bool {
    match reply {
        Err(source) => result == Err::<HydratedClaim, ClaimError>(
            ClaimError::failed("update claimed delivery", source),
        ),
        Ok(None) => result matches Err(error) && exists|source: sqlx::Error|
            {
                &&& #[trigger] protocol_message(source) == Some(
                    "claim candidate disappeared while locked"@,
                )
                &&& error == ClaimError::failed("update claimed delivery", source)
            },
        Ok(Some(expires_at)) => match instant_error("claim_expires_at"@, expires_at@) {
            Some(text) => result matches Err(ClaimError::Serialization { detail }) && detail@
                == text,
            None => result matches Ok(claim) && claim@ == completed(
                prepared,
                worker,
                expires_at@,
            ),
        },
    }
}

/// Completes one claim with the reply to its update.
pub fn complete_claim(
    prepared: PreparedClaim,
    worker: &Attribute<dovecote::WorkerId>,
    reply: Result<Option<Instant>, sqlx::Error>,
) -> (result: Result<HydratedClaim, ClaimError>)
    ensures
        completes(prepared@, worker@, reply, result),
{
    match reply {
        Err(source) => Err(ClaimError::sql("update claimed delivery", source)),
        Ok(None) => Err(
            ClaimError::sql(
                "update claimed delivery",
                protocol_error("claim candidate disappeared while locked"),
            ),
        ),
        Ok(Some(expires_at)) => match prepared.complete(worker_id_copy(worker), expires_at) {
            Ok(claim) => Ok(claim),
            Err(detail) => Err(ClaimError::serialization(detail)),
        },
    }
}

/// How far a claim has come: what it does next, or how it ended.
#[derive(Debug)]
pub enum ClaimStep {
    /// Bind the tenant to the transaction.
    BindTenant,
    /// Read the database's time.
    ReadClock,
    /// Select the rows that may be claimed at this time.
    SelectCandidates { operation_time: Instant },
    /// Update the first row that waits.
    Update(ClaimBatch),
    /// Commit, and hand out the claimed events.
    Commit(Vec<HydratedClaim>),
    /// Roll back the whole batch and report the error.
    RollBack(ClaimError),
}

impl ClaimStep {
    /// Decides on the start of the transaction. A claim for one tenant binds the
    /// tenant before it reads anything.
    pub fn after_begin(scoped: bool, reply: Result<(), sqlx::Error>) -> (result: Result<
        ClaimStep,
        ClaimError,
    >)
        ensures
            match reply {
                Err(source) => result == Err::<ClaimStep, ClaimError>(
                    ClaimError::failed("begin claim transaction", source),
                ),
                Ok(()) => result matches Ok(next) && if scoped {
                    next is BindTenant
                } else {
                    next is ReadClock
                },
            },
    {
        match reply {
            Err(source) => Err(ClaimError::sql("begin claim transaction", source)),
            Ok(()) => if scoped {
                Ok(ClaimStep::BindTenant)
            } else {
                Ok(ClaimStep::ReadClock)
            },
        }
    }

    /// Decides on the binding of the tenant.
    pub fn after_binding(reply: Result<(), sqlx::Error>) -> (next: ClaimStep)
        ensures
            match reply {
                Err(source) => next == ClaimStep::RollBack(
                    ClaimError::failed("bind claim tenant", source),
                ),
                Ok(()) => next is ReadClock,
            },
    {
        match reply {
            Err(source) => ClaimStep::RollBack(ClaimError::sql("bind claim tenant", source)),
            Ok(()) => ClaimStep::ReadClock,
        }
    }

    /// Decides on the database's time.
    pub fn after_clock(reply: Result<Instant, sqlx::Error>) -> (next: ClaimStep)
        ensures
            match reply {
                Err(source) => next == ClaimStep::RollBack(
                    ClaimError::failed("read claim operation time", source),
                ),
                Ok(time) => next == (ClaimStep::SelectCandidates { operation_time: time }),
            },
    {
        match reply {
            Err(source) => ClaimStep::RollBack(
                ClaimError::sql("read claim operation time", source),
            ),
            Ok(operation_time) => ClaimStep::SelectCandidates { operation_time },
        }
    }

    /// Decides on the selected rows: all of them are prepared before the first
    /// is updated. A claim that finds no row has nothing to update.
    pub fn after_candidates<E: EntropySource>(
        reply: Result<Vec<ClaimCandidate>, sqlx::Error>,
        entropy: &mut E,
    ) -> (next: ClaimStep)
        ensures
            match (reply, next) {
                (Err(source), _) => next == ClaimStep::RollBack(
                    ClaimError::failed("select claim candidates", source),
                ),
                (Ok(candidates), ClaimStep::Update(batch)) => {
                    &&& candidates@.len() > 0
                    &&& batch.claimed@.len() == 0
                    &&& prepares(candidates@, Ok(batch.waiting))
                    &&& forall|worker: Seq<char>|
                        #[trigger] batch.stems_from(batch.waiting@, worker)
                },
                (Ok(candidates), ClaimStep::Commit(claimed)) => candidates@.len() == 0
                    && claimed@.len() == 0,
                (Ok(candidates), ClaimStep::RollBack(error)) => prepares(candidates@, Err(error)),
                _ => false,
            },
            old(entropy).draws().is_prefix_of(final(entropy).draws()),
            only_blanks(
                old(entropy).requests(),
                final(entropy).requests(),
                draws_since(old(entropy).draws(), final(entropy).draws()).len(),
            ),
            reply is Err ==> final(entropy).draws() == old(entropy).draws(),
            next matches ClaimStep::Update(batch) ==> forall|i: int|
                0 <= i < batch.waiting@.len() ==> draws_since(
                    old(entropy).draws(),
                    final(entropy).draws(),
                ).contains(Ok((#[trigger] batch.waiting@[i])@.token)),
            next matches ClaimStep::RollBack(ClaimError::EntropyUnavailable { source })
                ==> ends_in_failure(
                draws_since(old(entropy).draws(), final(entropy).draws()),
                source,
            ),
    {
        let candidates = match reply {
            Err(source) => return ClaimStep::RollBack(
                ClaimError::sql("select claim candidates", source),
            ),
            Ok(candidates) => candidates,
        };
        let waiting = match prepare_claims(&candidates, entropy) {
            Err(error) => return ClaimStep::RollBack(error),
            Ok(waiting) => waiting,
        };
        let batch = ClaimBatch { waiting, claimed: Vec::new() };
        if batch.waiting.len() == 0 {
            return ClaimStep::Commit(batch.claimed);
        }
        assert(batch.waiting@.skip(0) == batch.waiting@);
        ClaimStep::Update(batch)
    }

    /// Decides on the reply to the update of the first row that waits. A batch is
    /// committed when no row waits, so a commit hands out one event for every
    /// prepared claim, in their order; any failure rolls the whole batch back.
    pub fn after_update(
        batch: ClaimBatch,
        worker: &Attribute<dovecote::WorkerId>,
        reply: Result<Option<Instant>, sqlx::Error>,
    ) -> (next: ClaimStep)
        requires
            batch.waiting@.len() > 0,
        ensures
            match next {
                ClaimStep::Update(rest) => {
                    &&& batch.waiting@.len() > 1
                    &&& rest.waiting@ == batch.waiting@.skip(1)
                    &&& rest.claimed@.len() == batch.claimed@.len() + 1
                    &&& rest.claimed@.drop_last() == batch.claimed@
                    &&& completes(batch.waiting@[0]@, worker@, reply, Ok(rest.claimed@.last()))
                },
                ClaimStep::Commit(claimed) => {
                    &&& batch.waiting@.len() == 1
                    &&& claimed@.len() == batch.claimed@.len() + 1
                    &&& claimed@.drop_last() == batch.claimed@
                    &&& completes(batch.waiting@[0]@, worker@, reply, Ok(claimed@.last()))
                },
                ClaimStep::RollBack(error) => completes(
                    batch.waiting@[0]@,
                    worker@,
                    reply,
                    Err(error),
                ),
                _ => false,
            },
            forall|prepared: Seq<PreparedClaim>| #[trigger]
                batch.stems_from(prepared, worker@) ==> match next {
                    ClaimStep::Update(rest) => rest.stems_from(prepared, worker@),
                    ClaimStep::Commit(claimed) => claimed_from(claimed@, prepared, worker@),
                    _ => true,
                },
    {
        let ghost before = batch;
        let mut batch = batch;
        let first = batch.waiting.remove(0);
        let claim = match complete_claim(first, worker, reply) {
            Err(error) => return ClaimStep::RollBack(error),
            Ok(claim) => claim,
        };
        batch.claimed.push(claim);
        proof {
            assert(batch.waiting@ == before.waiting@.skip(1));
            assert(batch.claimed@.drop_last() == before.claimed@);
            assert forall|prepared: Seq<PreparedClaim>| #[trigger]
                before.stems_from(prepared, worker@) implies batch.stems_from(prepared, worker@) && (
            batch.waiting@.len() == 0 ==> claimed_from(batch.claimed@, prepared, worker@)) by {
                claiming_one_more_stays_on_course(before, batch, prepared, worker@);
            }
        }
        if batch.waiting.len() == 0 {
            ClaimStep::Commit(batch.claimed)
        } else {
            ClaimStep::Update(batch)
        }
    }
}

/// Hands out the claimed events once the commit succeeded, and none if it failed.
pub fn committed(claimed: Vec<HydratedClaim>, reply: Result<(), sqlx::Error>) -> (result: Result<
    Vec<HydratedClaim>,
    ClaimError,
>)
    ensures
        match reply {
            Ok(()) => result == Ok::<Vec<HydratedClaim>, ClaimError>(claimed),
            Err(source) => result == Err::<Vec<HydratedClaim>, ClaimError>(
                ClaimError::failed("commit claim transaction", source),
            ),
        },
{
    match reply {
        Ok(()) => Ok(claimed),
        Err(source) => Err(ClaimError::sql("commit claim transaction", source)),
    }
}

/// A claim takes every row that can be claimed, one that waits as well as one whose
/// worker let its claim expire: such a row with a row identifier, a counter that
/// can grow, a tenant and an event that are valid is never refused.
pub proof fn claimable_rows_are_never_refused(
    candidate: ClaimCandidate,
    row: RowView,
    now: int,
)
    requires
        candidate.state@ == row.state,
        is_claimable(row, now),
        candidate.event_row_id > 0,
        0 <= candidate.attempts < i64::MAX,
        tenant_id_error(candidate.tenant_id@) is None,
        hydration(candidate.event@, Ok(optional_instant(candidate.occurred_at))) is Ok,
    ensures
        refused(candidate) is None,
{
}

/// The claim of a row succeeds, unless no entropy can be had, exactly if the row
/// waits or is claimed and its row identifier, its counter, its tenant and its
/// event are valid. It then has the identifier, the tenant and the event of the
/// row, one attempt more than it, and another token.
pub proof fn claims_succeed_exactly_on_valid_rows<E: EntropySource>(
    candidate: &ClaimCandidate,
    used: &Vec<[u8; 16]>,
    entropy: &mut E,
    result: Result<PreparedClaim, ClaimError>,
)
    requires
        call_ensures(prepare_claim::<E>, (candidate, used, entropy), result),
        !(result matches Err(ClaimError::EntropyUnavailable { .. })),
    ensures
        result is Ok <==> {
            &&& candidate.event_row_id > 0
            &&& 0 <= candidate.attempts + 1 <= i64::MAX
            &&& candidate.state@ == "pending"@ || candidate.state@ == "claimed"@
            &&& hydration(candidate.event@, Ok(optional_instant(candidate.occurred_at))) is Ok
            &&& tenant_id_error(candidate.tenant_id@) is None
        },
        result matches Ok(prepared) ==> {
            &&& prepared@.row_id == candidate.event_row_id
            &&& prepared@.tenant_id == candidate.tenant_id@
            &&& prepared@.attempts == candidate.attempts + 1
            &&& prepared@.event == hydration(
                candidate.event@,
                Ok(optional_instant(candidate.occurred_at)),
            )->Ok_0
            &&& candidate.claim_token matches Some(token) ==> prepared@.token != token@
        },
        result matches Err(error) ==> if candidate.event_row_id > 0 && candidate.attempts
            == i64::MAX {
            error matches ClaimError::CounterOverflow { row_id } && row_id@
                == candidate.event_row_id
        } else {
            error is Serialization
        },
{
}

/// A batch is prepared as a whole or not at all: all its claims come out, in the
/// order of their rows and with tokens that all differ, or none does.
pub proof fn batches_are_prepared_as_a_whole<E: EntropySource>(
    candidates: &Vec<ClaimCandidate>,
    entropy: &mut E,
    result: Result<Vec<PreparedClaim>, ClaimError>,
)
    requires
        call_ensures(prepare_claims::<E>, (candidates, entropy), result),
        !(result matches Err(ClaimError::EntropyUnavailable { .. })),
    ensures
        result is Ok <==> forall|i: int|
            0 <= i < candidates@.len() ==> refused(#[trigger] candidates@[i]) is None,
        result matches Ok(batch) ==> {
            &&& batch@.len() == candidates@.len()
            &&& forall|i: int|
                0 <= i < batch@.len() ==> {
                    &&& (#[trigger] batch@[i])@.row_id == candidates@[i].event_row_id
                    &&& batch@[i]@.tenant_id == candidates@[i].tenant_id@
                    &&& batch@[i]@.attempts == candidates@[i].attempts + 1
                    &&& candidates@[i].claim_token matches Some(token) ==> batch@[i]@.token
                        != token@
                }
            &&& forall|i: int, j: int|
                0 <= i < j < batch@.len() ==> (#[trigger] batch@[i])@.token != (
                #[trigger] batch@[j])@.token
        },
{
    match result {
        Ok(batch) => {
            assert forall|i: int| 0 <= i < batch@.len() implies candidates@[i].claim_token matches Some(
                token,
            ) ==> (#[trigger] batch@[i])@.token != token@ by {
                assert(prepared_from(batch@[i]@, candidates@[i].shared()));
            }
        },
        Err(_) => {},
    }
}

/// The claimed event is the row that was prepared, held by the worker until the
/// expiry that the database stored, and comes out exactly if the database returned
/// an expiry that is valid.
pub proof fn claimed_events_are_the_prepared_rows(
    prepared: PreparedClaim,
    worker: &Attribute<dovecote::WorkerId>,
    reply: Result<Option<Instant>, sqlx::Error>,
    result: Result<HydratedClaim, ClaimError>,
)
    requires
        call_ensures(complete_claim, (prepared, worker, reply), result),
    ensures
        result is Ok <==> (reply matches Ok(Some(expires_at)) && instant_error(
            "claim_expires_at"@,
            expires_at@,
        ) is None),
        result matches Ok(claim) ==> {
            &&& claim@.tenant_id == prepared@.tenant_id
            &&& claim@.row_id == prepared@.row_id
            &&& claim@.event == prepared@.event
            &&& claim@.attempts == prepared@.attempts
            &&& claim@.token == prepared@.token
            &&& claim@.worker == worker@
            &&& claim@.expires_at == reply->Ok_0->0@
        },
{
}

/// A claim for one tenant binds the tenant before anything is read, and one for
/// all tenants binds none; the clock is read before rows are selected, at the time
/// that it showed; and a failure of the database rolls everything back.
pub proof fn claims_run_in_order(
    scoped: bool,
    reply: Result<(), sqlx::Error>,
    started: Result<ClaimStep, ClaimError>,
    bound: ClaimStep,
    clock: Result<Instant, sqlx::Error>,
    timed: ClaimStep,
)
    requires
        call_ensures(ClaimStep::after_begin, (scoped, reply), started),
        call_ensures(ClaimStep::after_binding, (reply,), bound),
        call_ensures(ClaimStep::after_clock, (clock,), timed),
    ensures
        started is Ok <==> reply is Ok,
        started is Ok && scoped ==> started->Ok_0 is BindTenant,
        started is Ok && !scoped ==> started->Ok_0 is ReadClock,
        reply is Ok ==> bound is ReadClock,
        reply is Err ==> bound is RollBack,
        clock matches Ok(time) ==> timed == (ClaimStep::SelectCandidates { operation_time: time }),
        clock is Err ==> timed is RollBack,
{
}

/// The events of a batch are handed out exactly if the commit succeeded.
pub proof fn events_are_handed_out_after_the_commit(
    claimed: Vec<HydratedClaim>,
    reply: Result<(), sqlx::Error>,
    result: Result<Vec<HydratedClaim>, ClaimError>,
)
    requires
        call_ensures(committed, (claimed, reply), result),
    ensures
        reply is Ok ==> result == Ok::<Vec<HydratedClaim>, ClaimError>(claimed),
        reply is Err ==> result is Err,
{
}

/// Rows are prepared all or none, before the first of them is updated: a claim goes
/// on to the updates only with one prepared claim for each selected row, ends at
/// once where no row was selected, and otherwise rolls everything back.
pub proof fn rows_are_updated_after_all_are_prepared<E: EntropySource>(
    reply: Result<Vec<ClaimCandidate>, sqlx::Error>,
    entropy: &mut E,
    next: ClaimStep,
)
    requires
        call_ensures(ClaimStep::after_candidates::<E>, (reply, entropy), next),
    ensures
        reply is Err ==> next is RollBack,
        next matches ClaimStep::Update(batch) ==> {
            &&& reply is Ok
            &&& batch.waiting@.len() == reply->Ok_0@.len()
            &&& batch.waiting@.len() > 0
            &&& batch.claimed@.len() == 0
            &&& forall|i: int|
                0 <= i < batch.waiting@.len() ==> (#[trigger] batch.waiting@[i])@.row_id
                    == reply->Ok_0@[i].event_row_id
        },
        next matches ClaimStep::Commit(claimed) ==> reply is Ok && reply->Ok_0@.len() == 0
            && claimed@.len() == 0,
        next is Update || next is Commit || next is RollBack,
        reply is Ok && reply->Ok_0@.len() == 0 ==> next is Commit,
        next matches ClaimStep::RollBack(error) ==> reply is Err || error is EntropyUnavailable
            || exists|i: int|
            0 <= i < reply->Ok_0@.len() && refused(#[trigger] reply->Ok_0@[i]) is Some,
{
}

/// The first row that waits is the one that the reply completes. The rest goes on
/// waiting in its order, a batch is committed when none waits any more, and a reply
/// that completes nothing rolls the whole batch back.
pub proof fn rows_are_claimed_in_order(
    batch: ClaimBatch,
    worker: &Attribute<dovecote::WorkerId>,
    reply: Result<Option<Instant>, sqlx::Error>,
    next: ClaimStep,
)
    requires
        batch.waiting@.len() > 0,
        call_ensures(ClaimStep::after_update, (batch, worker, reply), next),
    ensures
        reply is Err || reply->Ok_0 is None ==> next is RollBack,
        next matches ClaimStep::Update(rest) ==> {
            &&& rest.waiting@.len() == batch.waiting@.len() - 1
            &&& forall|i: int|
                0 <= i < rest.waiting@.len() ==> #[trigger] rest.waiting@[i] == batch.waiting@[i
                    + 1]
            &&& rest.claimed@.len() == batch.claimed@.len() + 1
            &&& rest.claimed@.last()@.row_id == batch.waiting@[0]@.row_id
            &&& rest.claimed@.last()@.token == batch.waiting@[0]@.token
            &&& rest.claimed@.last()@.attempts == batch.waiting@[0]@.attempts
            &&& rest.claimed@.last()@.worker == worker@
        },
        next matches ClaimStep::Commit(claimed) ==> {
            &&& batch.waiting@.len() == 1
            &&& claimed@.len() == batch.claimed@.len() + 1
            &&& claimed@.drop_last() == batch.claimed@
            &&& claimed@.last()@.row_id == batch.waiting@[0]@.row_id
            &&& claimed@.last()@.token == batch.waiting@[0]@.token
            &&& claimed@.last()@.attempts == batch.waiting@[0]@.attempts
            &&& claimed@.last()@.worker == worker@
        },
        next is Update || next is Commit || next is RollBack,
{
}

/// A query that failed is reported under its own name, with its own failure.
pub proof fn failed_queries_are_reported_by_name(
    source: sqlx::Error,
    scoped: bool,
    prepared: PreparedClaim,
    worker: &Attribute<dovecote::WorkerId>,
    claimed: Vec<HydratedClaim>,
    start_reply: Result<ClaimStep, ClaimError>,
    binding_reply: ClaimStep,
    clock_reply: ClaimStep,
    complete_claim_reply: Result<HydratedClaim, ClaimError>,
    committed_reply: Result<Vec<HydratedClaim>, ClaimError>,
)
    requires
        call_ensures(ClaimStep::after_begin, (scoped, Err(source)), start_reply),
        call_ensures(ClaimStep::after_binding, (Err(source),), binding_reply),
        call_ensures(ClaimStep::after_clock, (Err(source),), clock_reply),
        call_ensures(complete_claim, (prepared, worker, Err(source)), complete_claim_reply),
        call_ensures(committed, (claimed, Err(source)), committed_reply),
    ensures
        start_reply == Err::<ClaimStep, ClaimError>(
            ClaimError::failed("begin claim transaction", source),
        ),
        binding_reply == ClaimStep::RollBack(ClaimError::failed("bind claim tenant", source)),
        clock_reply == ClaimStep::RollBack(ClaimError::failed("read claim operation time", source)),
        complete_claim_reply == Err::<HydratedClaim, ClaimError>(
            ClaimError::failed("update claimed delivery", source),
        ),
        committed_reply == Err::<Vec<HydratedClaim>, ClaimError>(
            ClaimError::failed("commit claim transaction", source),
        ),
{
}

/// A selection that failed is reported under its name. A row that is gone when its claim
/// is written is reported as a failed update that says so.
pub proof fn failed_selections_are_reported<E: EntropySource>(
    source: sqlx::Error,
    entropy: &mut E,
    next: ClaimStep,
    prepared: PreparedClaim,
    worker: &Attribute<dovecote::WorkerId>,
    gone: Result<HydratedClaim, ClaimError>,
)
    requires
        call_ensures(ClaimStep::after_candidates::<E>, (Err(source), entropy), next),
        call_ensures(complete_claim, (prepared, worker, Ok(None)), gone),
    ensures
        next == ClaimStep::RollBack(ClaimError::failed("select claim candidates", source)),
        gone matches Err(error) && exists|lost: sqlx::Error|
            #![trigger protocol_message(lost)]
            {
                &&& protocol_message(lost) == Some("claim candidate disappeared while locked"@)
                &&& error == ClaimError::failed("update claimed delivery", lost)
            },
{
}

/// A candidate is refused for the first of these: an identifier or a counter out of its
/// range, a state that cannot be claimed, an event that cannot be read, and a tenant that
/// is not valid. For the first two no token is drawn.
pub proof fn refused_candidates_are_told<E: EntropySource>(
    candidate: &ClaimCandidate,
    used: &Vec<[u8; 16]>,
    entropy: &mut E,
    result: Result<PreparedClaim, ClaimError>,
)
    requires
        call_ensures(prepare_claim::<E>, (candidate, used, entropy), result),
        !(result matches Err(ClaimError::EntropyUnavailable { .. })),
    ensures
        candidate.event_row_id <= 0 || candidate.attempts == i64::MAX || candidate.attempts < -1
            ==> final(entropy).draws() == old(entropy).draws(),
        candidate.event_row_id <= 0 ==> (result matches Err(ClaimError::Serialization { detail })
            && detail@ == "row_id: is outside the supported range"@),
        candidate.event_row_id > 0 && candidate.attempts < -1 ==> (result matches Err(
            ClaimError::Serialization { detail },
        ) && detail@ == "attempts: is outside the supported range"@),
        candidate.event_row_id > 0 && -1 <= candidate.attempts < i64::MAX && candidate.state@ != "pending"@ && candidate.state@ != "claimed"@ ==> (
        result matches Err(ClaimError::Serialization { detail }) && detail@
            == "claim candidate has an ineligible state"@),
        candidate.event_row_id > 0 && -1 <= candidate.attempts < i64::MAX && (candidate.state@ == "pending"@ || candidate.state@ == "claimed"@) ==> (hydration(candidate.event@, Ok(optional_instant(candidate.occurred_at))) matches Err(complaint) ==> (result matches Err(
            ClaimError::Serialization { detail },
        ) && detail@ == complaint)),
        candidate.event_row_id > 0 && -1 <= candidate.attempts < i64::MAX && (candidate.state@ == "pending"@ || candidate.state@ == "claimed"@) && hydration(candidate.event@, Ok(optional_instant(candidate.occurred_at))) is Ok ==> (tenant_id_error(candidate.tenant_id@) matches Some(complaint)
            ==> (result matches Err(ClaimError::Serialization { detail }) && detail@ == complaint)),
{
}

} // verus!
