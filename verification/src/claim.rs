//! Claim preparation shared by both adapters: what a claim refuses, and what it
//! hands to the update.

use crate::attribute::{tenant_id_error, Attribute};
use crate::delivery::{claimed_event, ClaimView, HydratedClaim};
use crate::event::{EventView, HydratedEvent};
use crate::instant::{instant_error, Instant};
use crate::token::is_fresh;
use crate::value::{attempts_error, row_id_error, RowId};
use vstd::prelude::*;

verus! {

/// A claim that is ready for its update: the row, the incremented attempts, the
/// fresh token and the event that the worker will get.
#[derive(Debug)]
pub struct PreparedClaim {
    pub(crate) tenant: Attribute<dovecote::TenantId>,
    pub(crate) row_id: RowId,
    pub(crate) event: HydratedEvent,
    pub(crate) attempts: i64,
    pub(crate) token: [u8; 16],
}

/// The mathematical content of a prepared claim.
pub ghost struct PreparedView {
    pub tenant_id: Seq<char>,
    pub row_id: int,
    pub event: EventView,
    pub attempts: int,
    pub token: Seq<u8>,
}

impl View for PreparedClaim {
    type V = PreparedView;

    closed spec fn view(&self) -> PreparedView {
        PreparedView {
            tenant_id: self.tenant@,
            row_id: self.row_id@,
            event: self.event@,
            attempts: self.attempts as int,
            token: self.token@,
        }
    }
}

impl PreparedClaim {
    #[verifier::type_invariant]
    closed spec fn counted(self) -> bool {
        self.attempts >= 0
    }

    /// Gathers the parts of a prepared claim.
    pub(crate) fn new(
        tenant: Attribute<dovecote::TenantId>,
        row_id: RowId,
        event: HydratedEvent,
        attempts: i64,
        token: [u8; 16],
    ) -> (claim: PreparedClaim)
        requires
            attempts >= 0,
        ensures
            claim@ == (PreparedView {
                tenant_id: tenant@,
                row_id: row_id@,
                event: event@,
                attempts: attempts as int,
                token: token@,
            }),
    {
        PreparedClaim { tenant, row_id, event, attempts, token }
    }

    /// The tenant of the row.
    pub fn tenant_id(&self) -> (tenant: &str)
        ensures
            tenant@ == self@.tenant_id,
    {
        self.tenant.as_str()
    }

    /// The row to update.
    pub fn row_id(&self) -> (row_id: RowId)
        ensures
            row_id@ == self@.row_id,
    {
        self.row_id
    }

    /// The attempts to store.
    pub fn attempts(&self) -> (attempts: i64)
        ensures
            attempts == self@.attempts,
    {
        self.attempts
    }

    /// The token to store.
    pub fn token(&self) -> (token: &[u8; 16])
        ensures
            token@ == self@.token,
    {
        &self.token
    }

    /// Completes the claim with the worker and the expiry that was stored.
    pub fn complete(
        self,
        worker: Attribute<dovecote::WorkerId>,
        expires_at: Instant,
    ) -> (result: Result<HydratedClaim, String>)
        ensures
            match result {
                Ok(claim) => {
                    &&& instant_error("claim_expires_at"@, expires_at@) is None
                    &&& claim@ == completed(self@, worker@, expires_at@)
                },
                Err(error) => instant_error("claim_expires_at"@, expires_at@) == Some(error@),
            },
    {
        proof {
            use_type_invariant(&self);
        }
        claimed_event(
            self.tenant,
            self.row_id,
            self.event,
            self.attempts,
            self.token,
            worker,
            expires_at,
        )
    }
}

/// The claim that a prepared claim becomes.
pub open spec fn completed(
    prepared: PreparedView,
    worker: Seq<char>,
    expires_at: int,
) -> ClaimView {
    ClaimView {
        tenant_id: prepared.tenant_id,
        row_id: prepared.row_id,
        event: prepared.event,
        attempts: prepared.attempts,
        token: prepared.token,
        worker,
        expires_at,
    }
}

/// What a claim needs of one candidate row, whichever database it came from.
pub ghost struct CandidateView {
    pub row_id: int,
    pub tenant_id: Seq<char>,
    pub attempts: int,
    pub claim_token: Option<Seq<u8>>,
    pub event: Result<EventView, Seq<char>>,
}

/// Why a candidate row is refused.
pub ghost enum ClaimRefusal {
    /// A stored value is no valid domain value.
    Invalid(Seq<char>),
    /// The attempt counter of this row cannot grow.
    Overflow(int),
    /// The schema is not the expected one.
    Mismatch(Seq<char>),
}

/// Why a candidate is refused before a token is drawn for it, if it is.
pub open spec fn refused_before_token(candidate: CandidateView) -> Option<ClaimRefusal> {
    if row_id_error(candidate.row_id) is Some {
        Some(ClaimRefusal::Invalid(row_id_error(candidate.row_id)->0))
    } else if candidate.attempts == i64::MAX {
        Some(ClaimRefusal::Overflow(candidate.row_id))
    } else if attempts_error(candidate.attempts + 1) is Some {
        Some(ClaimRefusal::Invalid(attempts_error(candidate.attempts + 1)->0))
    } else {
        None
    }
}

/// Why a candidate's event or tenant is refused, if it is.
pub open spec fn content_refused(candidate: CandidateView) -> Option<ClaimRefusal> {
    match candidate.event {
        Err(error) => Some(ClaimRefusal::Invalid(error)),
        Ok(_) => match tenant_id_error(candidate.tenant_id) {
            Some(error) => Some(ClaimRefusal::Invalid(error)),
            None => None,
        },
    }
}

/// Whether a prepared claim is the one that its candidate leads to: one attempt
/// more, the same row, tenant and event, and a token that differs from the one
/// the row held.
pub open spec fn prepared_from(prepared: PreparedView, candidate: CandidateView) -> bool {
    &&& prepared.row_id == candidate.row_id
    &&& prepared.tenant_id == candidate.tenant_id
    &&& prepared.attempts == candidate.attempts + 1
    &&& candidate.event == Ok::<EventView, Seq<char>>(prepared.event)
    &&& candidate.claim_token != Some(prepared.token)
}

/// Whether no two claims of a batch share a token.
pub open spec fn tokens_distinct(batch: Seq<PreparedClaim>) -> bool {
    forall|i: int, j: int|
        0 <= i < j < batch.len() ==> (#[trigger] batch[i])@.token != (#[trigger] batch[j])@.token
}

/// Whether the tokens in use are exactly those of the batch so far.
pub open spec fn tokens_of(batch: Seq<PreparedClaim>, used: Seq<[u8; 16]>) -> bool {
    &&& batch.len() == used.len()
    &&& forall|i: int| 0 <= i < used.len() ==> (#[trigger] used[i])@ == batch[i]@.token
}

/// A fresh token keeps the tokens of a batch distinct.
pub proof fn fresh_tokens_stay_distinct(
    batch: Seq<PreparedClaim>,
    used: Seq<[u8; 16]>,
    next: PreparedClaim,
    previous: Option<Seq<u8>>,
)
    requires
        tokens_distinct(batch),
        tokens_of(batch, used),
        is_fresh(next@.token, previous, used),
    ensures
        tokens_distinct(batch.push(next)),
{
    assert forall|i: int, j: int| 0 <= i < j < batch.push(next).len() implies (
    #[trigger] batch.push(next)[i])@.token != (#[trigger] batch.push(next)[j])@.token by {
        if j == batch.len() {
            assert(used[i]@ == batch[i]@.token);
        }
    }
}

/// A claim batch under way: the claims whose rows are still to be updated, in
/// their order, and the events that the updated rows became.
#[derive(Debug)]
pub struct ClaimBatch {
    pub waiting: Vec<PreparedClaim>,
    pub claimed: Vec<HydratedClaim>,
}

/// Whether claimed events are those of the prepared claims, one for each and in
/// their order, held by the given worker.
pub open spec fn claimed_from(
    claimed: Seq<HydratedClaim>,
    prepared: Seq<PreparedClaim>,
    worker: Seq<char>,
) -> bool {
    &&& claimed.len() == prepared.len()
    &&& forall|i: int|
        0 <= i < claimed.len() ==> (#[trigger] claimed[i])@ == completed(
            prepared[i]@,
            worker,
            claimed[i]@.expires_at,
        )
}

impl ClaimBatch {
    /// Whether this batch stems from the prepared claims: the first of them are
    /// claimed, and the rest waits.
    pub open spec fn stems_from(self, prepared: Seq<PreparedClaim>, worker: Seq<char>) -> bool {
        let done = self.claimed@.len() as int;
        &&& done <= prepared.len()
        &&& self.waiting@ == prepared.skip(done)
        &&& claimed_from(self.claimed@, prepared.take(done), worker)
    }
}

/// Claiming the first of the waiting rows keeps a batch on its course.
pub proof fn claiming_one_more_stays_on_course(
    before: ClaimBatch,
    after: ClaimBatch,
    prepared: Seq<PreparedClaim>,
    worker: Seq<char>,
)
    requires
        before.stems_from(prepared, worker),
        before.waiting@.len() > 0,
        after.waiting@ == before.waiting@.skip(1),
        after.claimed@.len() == before.claimed@.len() + 1,
        after.claimed@.drop_last() == before.claimed@,
        after.claimed@.last()@ == completed(
            before.waiting@[0]@,
            worker,
            after.claimed@.last()@.expires_at,
        ),
    ensures
        after.stems_from(prepared, worker),
        after.waiting@.len() == 0 ==> claimed_from(after.claimed@, prepared, worker),
{
    let done = before.claimed@.len() as int;
    assert(prepared.skip(done).skip(1) == prepared.skip(done + 1));
    assert(before.waiting@[0] == prepared[done]);
    assert forall|i: int| 0 <= i < after.claimed@.len() implies (#[trigger] after.claimed@[i])@
        == completed(prepared.take(done + 1)[i]@, worker, after.claimed@[i]@.expires_at) by {
        if i < done {
            assert(after.claimed@[i] == before.claimed@[i]);
            assert(prepared.take(done + 1)[i] == prepared.take(done)[i]);
        }
    }
    if after.waiting@.len() == 0 {
        assert(prepared.take(done + 1) == prepared);
    }
}

} // verus!
