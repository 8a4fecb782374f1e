//! Delivery snapshots, paged events and claimed events.
//!
//! Each type pairs plain values with the `dovecote` value that holds the same
//! values, and is viewed as those values.

use crate::attribute::{
    bounded_text_error, quarantine_reason_text, tenant_id_text, worker_id_text, Attribute,
};
use crate::event::{event_content, first_refusal, EventContent, EventView, HydratedEvent};
use crate::instant::{instant_error, optional_instant, Instant};
use crate::text::optional_text;
use crate::value::{DeliveryState, RowId};
use vstd::prelude::*;

verus! {

#[verifier::external_type_specification]
#[verifier::external_body]
pub struct ExFailure(dovecote::Failure);

#[verifier::external_type_specification]
#[verifier::external_body]
pub struct ExDeliverySnapshot(dovecote::DeliverySnapshot);

#[verifier::external_type_specification]
#[verifier::external_body]
pub struct ExPagedEvent(dovecote::PagedEvent);

#[verifier::external_type_specification]
#[verifier::external_body]
pub struct ExClaimedEvent(dovecote::ClaimedEvent);

/// A retryable failure: its code, its detail and the domain's value.
#[derive(Debug)]
pub struct RecordedFailure {
    code: String,
    detail: String,
    value: dovecote::Failure,
}

/// What a failure of the domain holds: its code and its detail.
pub uninterp spec fn failure_content(failure: dovecote::Failure) -> (Seq<char>, Seq<char>);

impl View for RecordedFailure {
    type V = (Seq<char>, Seq<char>);

    closed spec fn view(&self) -> (Seq<char>, Seq<char>) {
        (self.code@, self.detail@)
    }
}

/// Why a failure is refused, if it is.
pub open spec fn failure_error(code: Seq<char>, detail: Seq<char>) -> Option<Seq<char>> {
    first_refusal(
        bounded_text_error("failure code"@, code, 128),
        bounded_text_error("failure detail"@, detail, 2048),
    )
}

/// `dovecote::Failure::new`: a bounded code of at most 128 bytes, then a bounded
/// detail of at most 2048 bytes.
#[verifier::external_body]
fn domain_failure(code: &str, detail: &str) -> (result: Result<dovecote::Failure, String>)
    ensures
        match result {
            Ok(failure) => failure_error(code@, detail@) is None && failure_content(failure) == (
                code@,
                detail@,
            ),
            Err(error) => failure_error(code@, detail@) == Some(error@),
        },
{
    dovecote::Failure::new(code, detail).map_err(|error| error.to_string())
}

impl RecordedFailure {
    #[verifier::type_invariant]
    closed spec fn agrees(self) -> bool {
        failure_content(self.value) == (self.code@, self.detail@)
    }

    /// Validates a code and a detail.
    fn new(code: String, detail: String) -> (result: Result<RecordedFailure, String>)
        ensures
            match result {
                Ok(failure) => {
                    &&& failure_error(code@, detail@) is None
                    &&& failure@ == (code@, detail@)
                },
                Err(error) => failure_error(code@, detail@) == Some(error@),
            },
    {
        match domain_failure(code.as_str(), detail.as_str()) {
            Ok(value) => Ok(RecordedFailure { code, detail, value }),
            Err(error) => Err(error),
        }
    }
}

/// The content of an optional failure of the domain.
pub open spec fn optional_failure_content(failure: Option<dovecote::Failure>) -> Option<
    (Seq<char>, Seq<char>),
> {
    match failure {
        Some(failure) => Some(failure_content(failure)),
        None => None,
    }
}

/// The view of an optional code and detail.
pub open spec fn optional_texts(texts: Option<(String, String)>) -> Option<(Seq<char>, Seq<char>)> {
    match texts {
        Some(texts) => Some((texts.0@, texts.1@)),
        None => None,
    }
}

/// Parts an optional failure into its plain values and the domain's value.
fn failure_parts(failure: Option<RecordedFailure>) -> (parts: (
    Option<(String, String)>,
    Option<dovecote::Failure>,
))
    ensures
        optional_texts(parts.0) == optional_failure(failure),
        optional_failure_content(parts.1) == optional_failure(failure),
{
    match failure {
        Some(failure) => {
            proof {
                use_type_invariant(&failure);
            }
            (Some((failure.code, failure.detail)), Some(failure.value))
        },
        None => (None, None),
    }
}

/// What the two failure columns hold, if they agree and are accepted.
pub open spec fn stored_failure(code: Option<Seq<char>>, detail: Option<Seq<char>>) -> Result<
    Option<(Seq<char>, Seq<char>)>,
    Seq<char>,
> {
    match (code, detail) {
        (None, None) => Ok(None),
        (Some(code), Some(detail)) => match failure_error(code, detail) {
            Some(error) => Err(error),
            None => Ok(Some((code, detail))),
        },
        _ => Err("delivery failure code and detail must be both NULL or non-NULL"@),
    }
}

/// The view of an optional failure.
pub open spec fn optional_failure(failure: Option<RecordedFailure>) -> Option<
    (Seq<char>, Seq<char>),
> {
    match failure {
        Some(failure) => Some(failure@),
        None => None,
    }
}

/// Reads the two failure columns, which are both absent or both present.
pub fn parse_failure(code: Option<String>, detail: Option<String>) -> (result: Result<
    Option<RecordedFailure>,
    String,
>)
    ensures
        match result {
            Ok(failure) => stored_failure(optional_text(code), optional_text(detail)) == Ok::<
                Option<(Seq<char>, Seq<char>)>,
                Seq<char>,
            >(optional_failure(failure)),
            Err(error) => stored_failure(optional_text(code), optional_text(detail)) == Err::<
                Option<(Seq<char>, Seq<char>)>,
                Seq<char>,
            >(error@),
        },
{
    match (code, detail) {
        (None, None) => Ok(None),
        (Some(code), Some(detail)) => match RecordedFailure::new(code, detail) {
            Ok(failure) => Ok(Some(failure)),
            Err(error) => Err(error),
        },
        _ => Err("delivery failure code and detail must be both NULL or non-NULL".to_owned()),
    }
}

/// The plain values of a delivery snapshot. A field that the state does not use
/// is absent.
#[derive(Debug)]
pub struct Delivery {
    /// Lifecycle state.
    pub state: DeliveryState,
    /// When the row becomes, or became, available.
    pub available_at: Instant,
    /// Delivery attempts so far.
    pub attempts: i64,
    /// Code and detail of the last retryable failure.
    pub last_failure: Option<(String, String)>,
    /// Worker that holds the claim, when claimed.
    pub worker: Option<String>,
    /// When the claim expires, when claimed.
    pub expires_at: Option<Instant>,
    /// When the event was delivered, when delivered.
    pub delivered_at: Option<Instant>,
    /// When the row was quarantined, when quarantined.
    pub quarantined_at: Option<Instant>,
    /// Why the row was quarantined, when quarantined.
    pub reason: Option<String>,
}

/// The mathematical content of a delivery snapshot.
pub ghost struct DeliveryView {
    pub state: DeliveryState,
    pub available_at: int,
    pub attempts: int,
    pub last_failure: Option<(Seq<char>, Seq<char>)>,
    pub worker: Option<Seq<char>>,
    pub expires_at: Option<int>,
    pub delivered_at: Option<int>,
    pub quarantined_at: Option<int>,
    pub reason: Option<Seq<char>>,
}

impl View for Delivery {
    type V = DeliveryView;

    open spec fn view(&self) -> DeliveryView {
        DeliveryView {
            state: self.state,
            available_at: self.available_at@,
            attempts: self.attempts as int,
            last_failure: optional_texts(self.last_failure),
            worker: optional_text(self.worker),
            expires_at: optional_instant(self.expires_at),
            delivered_at: optional_instant(self.delivered_at),
            quarantined_at: optional_instant(self.quarantined_at),
            reason: optional_text(self.reason),
        }
    }
}

/// The snapshot of a row in `state` with the three fields that every state has
/// and none of the others.
pub open spec fn bare_delivery(
    state: DeliveryState,
    available_at: int,
    attempts: int,
    last_failure: Option<(Seq<char>, Seq<char>)>,
) -> DeliveryView {
    DeliveryView {
        state,
        available_at,
        attempts,
        last_failure,
        worker: None,
        expires_at: None,
        delivered_at: None,
        quarantined_at: None,
        reason: None,
    }
}

/// What a delivery snapshot of the domain holds: what its accessors show.
pub uninterp spec fn snapshot_content(snapshot: dovecote::DeliverySnapshot) -> DeliveryView;

/// A delivery snapshot: plain values and the domain's snapshot, which holds the
/// same values.
#[derive(Debug)]
pub struct HydratedDelivery {
    content: Delivery,
    snapshot: dovecote::DeliverySnapshot,
}

impl View for HydratedDelivery {
    type V = DeliveryView;

    closed spec fn view(&self) -> DeliveryView {
        self.content@
    }
}

impl HydratedDelivery {
    #[verifier::type_invariant]
    closed spec fn agrees(self) -> bool {
        snapshot_content(self.snapshot) == self.content@
    }
}

/// Whether a snapshot was built as `expected`, or refused as `refusal` words it.
pub open spec fn snapshot_built(
    expected: DeliveryView,
    refusal: Option<Seq<char>>,
    result: Result<HydratedDelivery, String>,
) -> bool {
    match result {
        Ok(delivery) => refusal is None && delivery@ == expected,
        Err(error) => refusal == Some(error@),
    }
}

/// `dovecote::DeliverySnapshot::pending`: a pending snapshot, if its instant is portable.
#[verifier::external_body]
fn domain_pending(
    available_at: Instant,
    attempts: i64,
    failure: Option<dovecote::Failure>,
) -> (result: Result<dovecote::DeliverySnapshot, String>)
    requires
        attempts >= 0,
    ensures
        match result {
            Ok(snapshot) => {
                &&& instant_error("available_at"@, available_at@) is None
                &&& snapshot_content(snapshot) == bare_delivery(
                    DeliveryState::Pending,
                    available_at@,
                    attempts as int,
                    optional_failure_content(failure),
                )
            },
            Err(error) => instant_error("available_at"@, available_at@) == Some(error@),
        },
{
    let count = dovecote::AttemptCount::new(attempts).expect("attempts are not negative");
    let at = time::OffsetDateTime::from_unix_timestamp_nanos(available_at.nanos).expect("calendar");
    dovecote::DeliverySnapshot::pending(at, count, failure)
        .map_err(|error| error.to_string())
}

/// A pending snapshot, if its instant is portable.
pub(crate) fn pending_snapshot(
    available_at: Instant,
    attempts: i64,
    failure: Option<RecordedFailure>,
) -> (result: Result<HydratedDelivery, String>)
    requires
        attempts >= 0,
    ensures
        snapshot_built(
            bare_delivery(
                DeliveryState::Pending,
                available_at@,
                attempts as int,
                optional_failure(failure),
            ),
            instant_error("available_at"@, available_at@),
            result,
        ),
{
    let (last_failure, failure) = failure_parts(failure);
    match domain_pending(available_at, attempts, failure) {
        Ok(snapshot) => {
            let content = Delivery {
                state: DeliveryState::Pending,
                available_at,
                attempts,
                last_failure,
                worker: None,
                expires_at: None,
                delivered_at: None,
                quarantined_at: None,
                reason: None,
            };
            Ok(HydratedDelivery { content, snapshot })
        },
        Err(error) => Err(error),
    }
}

/// `dovecote::DeliverySnapshot::claimed`: a claimed snapshot, if its instants are portable.
#[verifier::external_body]
fn domain_claimed(
    available_at: Instant,
    worker: dovecote::WorkerId,
    expires_at: Instant,
    attempts: i64,
    failure: Option<dovecote::Failure>,
) -> (result: Result<dovecote::DeliverySnapshot, String>)
    requires
        attempts >= 0,
    ensures
        match result {
            Ok(snapshot) => {
                &&& first_refusal(
                    instant_error("available_at"@, available_at@),
                    instant_error("claim_expires_at"@, expires_at@),
                ) is None
                &&& snapshot_content(snapshot) == (DeliveryView {
                    worker: Some(worker_id_text(worker)),
                    expires_at: Some(expires_at@),
                    ..bare_delivery(
                        DeliveryState::Claimed,
                        available_at@,
                        attempts as int,
                        optional_failure_content(failure),
                    )
                })
            },
            Err(error) => first_refusal(
                instant_error("available_at"@, available_at@),
                instant_error("claim_expires_at"@, expires_at@),
            ) == Some(error@),
        },
{
    let count = dovecote::AttemptCount::new(attempts).expect("attempts are not negative");
    let at = time::OffsetDateTime::from_unix_timestamp_nanos(available_at.nanos).expect("calendar");
    let end = time::OffsetDateTime::from_unix_timestamp_nanos(expires_at.nanos).expect("calendar");
    dovecote::DeliverySnapshot::claimed(at, worker, end, count, failure)
        .map_err(|error| error.to_string())
}

/// A claimed snapshot, if its instants are portable.
pub(crate) fn claimed_snapshot(
    available_at: Instant,
    worker: Attribute<dovecote::WorkerId>,
    expires_at: Instant,
    attempts: i64,
    failure: Option<RecordedFailure>,
) -> (result: Result<HydratedDelivery, String>)
    requires
        attempts >= 0,
    ensures
        snapshot_built(
            (DeliveryView {
                worker: Some(worker@),
                expires_at: Some(expires_at@),
                ..bare_delivery(
                    DeliveryState::Claimed,
                    available_at@,
                    attempts as int,
                    optional_failure(failure),
                )
            }),
            first_refusal(
                instant_error("available_at"@, available_at@),
                instant_error("claim_expires_at"@, expires_at@),
            ),
            result,
        ),
{
    let (last_failure, failure) = failure_parts(failure);
    let (name, holder) = worker.into_parts();
    match domain_claimed(available_at, holder, expires_at, attempts, failure) {
        Ok(snapshot) => {
            let content = Delivery {
                state: DeliveryState::Claimed,
                available_at,
                attempts,
                last_failure,
                worker: Some(name),
                expires_at: Some(expires_at),
                delivered_at: None,
                quarantined_at: None,
                reason: None,
            };
            Ok(HydratedDelivery { content, snapshot })
        },
        Err(error) => Err(error),
    }
}

/// `dovecote::DeliverySnapshot::delivered`: a delivered snapshot, if its instants are portable.
#[verifier::external_body]
fn domain_delivered(
    available_at: Instant,
    delivered_at: Instant,
    attempts: i64,
    failure: Option<dovecote::Failure>,
) -> (result: Result<dovecote::DeliverySnapshot, String>)
    requires
        attempts >= 0,
    ensures
        match result {
            Ok(snapshot) => {
                &&& first_refusal(
                    instant_error("available_at"@, available_at@),
                    instant_error("delivered_at"@, delivered_at@),
                ) is None
                &&& snapshot_content(snapshot) == (DeliveryView {
                    delivered_at: Some(delivered_at@),
                    ..bare_delivery(
                        DeliveryState::Delivered,
                        available_at@,
                        attempts as int,
                        optional_failure_content(failure),
                    )
                })
            },
            Err(error) => first_refusal(
                instant_error("available_at"@, available_at@),
                instant_error("delivered_at"@, delivered_at@),
            ) == Some(error@),
        },
{
    let count = dovecote::AttemptCount::new(attempts).expect("attempts are not negative");
    let at = time::OffsetDateTime::from_unix_timestamp_nanos(available_at.nanos).expect("calendar");
    let end = time::OffsetDateTime::from_unix_timestamp_nanos(delivered_at.nanos)
        .expect("calendar");
    dovecote::DeliverySnapshot::delivered(at, end, count, failure)
        .map_err(|error| error.to_string())
}

/// A delivered snapshot, if its instants are portable.
pub(crate) fn delivered_snapshot(
    available_at: Instant,
    delivered_at: Instant,
    attempts: i64,
    failure: Option<RecordedFailure>,
) -> (result: Result<HydratedDelivery, String>)
    requires
        attempts >= 0,
    ensures
        snapshot_built(
            (DeliveryView {
                delivered_at: Some(delivered_at@),
                ..bare_delivery(
                    DeliveryState::Delivered,
                    available_at@,
                    attempts as int,
                    optional_failure(failure),
                )
            }),
            first_refusal(
                instant_error("available_at"@, available_at@),
                instant_error("delivered_at"@, delivered_at@),
            ),
            result,
        ),
{
    let (last_failure, failure) = failure_parts(failure);
    match domain_delivered(available_at, delivered_at, attempts, failure) {
        Ok(snapshot) => {
            let content = Delivery {
                state: DeliveryState::Delivered,
                available_at,
                attempts,
                last_failure,
                worker: None,
                expires_at: None,
                delivered_at: Some(delivered_at),
                quarantined_at: None,
                reason: None,
            };
            Ok(HydratedDelivery { content, snapshot })
        },
        Err(error) => Err(error),
    }
}

/// `dovecote::DeliverySnapshot::quarantined`: a quarantined snapshot, if its instants are portable.
#[verifier::external_body]
fn domain_quarantined(
    available_at: Instant,
    quarantined_at: Instant,
    attempts: i64,
    failure: Option<dovecote::Failure>,
    reason: dovecote::QuarantineReason,
) -> (result: Result<dovecote::DeliverySnapshot, String>)
    requires
        attempts >= 0,
    ensures
        match result {
            Ok(snapshot) => {
                &&& first_refusal(
                    instant_error("available_at"@, available_at@),
                    instant_error("quarantined_at"@, quarantined_at@),
                ) is None
                &&& snapshot_content(snapshot) == (DeliveryView {
                    quarantined_at: Some(quarantined_at@),
                    reason: Some(quarantine_reason_text(reason)),
                    ..bare_delivery(
                        DeliveryState::Quarantined,
                        available_at@,
                        attempts as int,
                        optional_failure_content(failure),
                    )
                })
            },
            Err(error) => first_refusal(
                instant_error("available_at"@, available_at@),
                instant_error("quarantined_at"@, quarantined_at@),
            ) == Some(error@),
        },
{
    let count = dovecote::AttemptCount::new(attempts).expect("attempts are not negative");
    let at = time::OffsetDateTime::from_unix_timestamp_nanos(available_at.nanos).expect("calendar");
    let end = time::OffsetDateTime::from_unix_timestamp_nanos(quarantined_at.nanos)
        .expect("calendar");
    dovecote::DeliverySnapshot::quarantined(at, end, count, failure, reason)
        .map_err(|error| error.to_string())
}

/// A quarantined snapshot, if its instants are portable.
pub(crate) fn quarantined_snapshot(
    available_at: Instant,
    quarantined_at: Instant,
    attempts: i64,
    failure: Option<RecordedFailure>,
    reason: Attribute<dovecote::QuarantineReason>,
) -> (result: Result<HydratedDelivery, String>)
    requires
        attempts >= 0,
    ensures
        snapshot_built(
            (DeliveryView {
                quarantined_at: Some(quarantined_at@),
                reason: Some(reason@),
                ..bare_delivery(
                    DeliveryState::Quarantined,
                    available_at@,
                    attempts as int,
                    optional_failure(failure),
                )
            }),
            first_refusal(
                instant_error("available_at"@, available_at@),
                instant_error("quarantined_at"@, quarantined_at@),
            ),
            result,
        ),
{
    let (last_failure, failure) = failure_parts(failure);
    let (text, reason) = reason.into_parts();
    match domain_quarantined(available_at, quarantined_at, attempts, failure, reason) {
        Ok(snapshot) => {
            let content = Delivery {
                state: DeliveryState::Quarantined,
                available_at,
                attempts,
                last_failure,
                worker: None,
                expires_at: None,
                delivered_at: None,
                quarantined_at: Some(quarantined_at),
                reason: Some(text),
            };
            Ok(HydratedDelivery { content, snapshot })
        },
        Err(error) => Err(error),
    }
}

/// An event with its delivery state, as a page shows it: plain values and the
/// domain's paged event, which holds the same values.
#[derive(Debug)]
pub struct HydratedPage {
    tenant_id: String,
    row_id: RowId,
    event: EventContent,
    enqueued_at: Instant,
    delivery: Delivery,
    page: dovecote::PagedEvent,
}

/// The mathematical content of a paged event.
pub ghost struct PageView {
    pub tenant_id: Seq<char>,
    pub row_id: int,
    pub event: EventView,
    pub enqueued_at: int,
    pub delivery: DeliveryView,
}

/// What a paged event of the domain holds: what its accessors show.
pub uninterp spec fn page_content(page: dovecote::PagedEvent) -> PageView;

impl View for HydratedPage {
    type V = PageView;

    closed spec fn view(&self) -> PageView {
        PageView {
            tenant_id: self.tenant_id@,
            row_id: self.row_id@,
            event: self.event@,
            enqueued_at: self.enqueued_at@,
            delivery: self.delivery@,
        }
    }
}

impl HydratedPage {
    #[verifier::type_invariant]
    closed spec fn agrees(self) -> bool {
        page_content(self.page) == self@
    }

    /// The row of the event.
    pub fn row_id(&self) -> (row_id: RowId)
        ensures
            row_id@ == self@.row_id,
    {
        self.row_id
    }

    /// The tenant of the event.
    pub fn tenant_id(&self) -> (tenant_id: &str)
        ensures
            tenant_id@ == self@.tenant_id,
    {
        self.tenant_id.as_str()
    }

    /// The plain content of the event.
    pub fn event(&self) -> (event: &EventContent)
        ensures
            event@ == self@.event,
    {
        &self.event
    }

    /// When the event was enqueued.
    pub fn enqueued_at(&self) -> (at: Instant)
        ensures
            at@ == self@.enqueued_at,
    {
        self.enqueued_at
    }

    /// The plain values of the delivery snapshot.
    pub fn delivery(&self) -> (delivery: &Delivery)
        ensures
            delivery@ == self@.delivery,
    {
        &self.delivery
    }

    /// The domain's paged event, which holds the values that this one shows.
    pub fn into_paged_event(self) -> (page: dovecote::PagedEvent)
        ensures
            page_content(page) == self@,
    {
        proof {
            use_type_invariant(&self);
        }
        self.page
    }
}

/// `dovecote::PagedEvent::new`: a paged event, if its enqueue instant is portable.
#[verifier::external_body]
fn domain_page(
    tenant: dovecote::TenantId,
    row_id: RowId,
    event: dovecote::StoredEvent,
    enqueued_at: Instant,
    delivery: dovecote::DeliverySnapshot,
) -> (result: Result<dovecote::PagedEvent, String>)
    ensures
        match result {
            Ok(page) => instant_error("enqueued_at"@, enqueued_at@) is None && page_content(page)
                == (PageView {
                tenant_id: tenant_id_text(tenant),
                row_id: row_id@,
                event: event_content(event),
                enqueued_at: enqueued_at@,
                delivery: snapshot_content(delivery),
            }),
            Err(error) => instant_error("enqueued_at"@, enqueued_at@) == Some(error@),
        },
{
    let id = dovecote::RowId::new(row_id.value).expect("row identifiers are positive");
    let at = time::OffsetDateTime::from_unix_timestamp_nanos(enqueued_at.nanos).expect("calendar");
    dovecote::PagedEvent::new(tenant, id, event, at, delivery).map_err(|error| error.to_string())
}

/// A paged event, if its enqueue instant is portable.
pub(crate) fn paged_event(
    tenant: Attribute<dovecote::TenantId>,
    row_id: RowId,
    event: HydratedEvent,
    enqueued_at: Instant,
    delivery: HydratedDelivery,
) -> (result: Result<HydratedPage, String>)
    ensures
        match result {
            Ok(page) => instant_error("enqueued_at"@, enqueued_at@) is None && page@ == (PageView {
                tenant_id: tenant@,
                row_id: row_id@,
                event: event@,
                enqueued_at: enqueued_at@,
                delivery: delivery@,
            }),
            Err(error) => instant_error("enqueued_at"@, enqueued_at@) == Some(error@),
        },
{
    proof {
        use_type_invariant(&delivery);
    }
    let (tenant_id, tenant) = tenant.into_parts();
    let (content, event) = event.into_parts();
    match domain_page(tenant, row_id, event, enqueued_at, delivery.snapshot) {
        Ok(page) => Ok(
            HydratedPage {
                tenant_id,
                row_id,
                event: content,
                enqueued_at,
                delivery: delivery.content,
                page,
            },
        ),
        Err(error) => Err(error),
    }
}

/// A claimed event: plain values and the domain's claimed event, which holds the
/// same values.
#[derive(Debug)]
pub struct HydratedClaim {
    tenant_id: String,
    row_id: RowId,
    event: EventContent,
    attempts: i64,
    token: [u8; 16],
    worker: String,
    expires_at: Instant,
    claim: dovecote::ClaimedEvent,
}

/// The mathematical content of a claimed event.
pub ghost struct ClaimView {
    pub tenant_id: Seq<char>,
    pub row_id: int,
    pub event: EventView,
    pub attempts: int,
    pub token: Seq<u8>,
    pub worker: Seq<char>,
    pub expires_at: int,
}

/// What a claimed event of the domain holds: what its accessors show.
pub uninterp spec fn claim_content(claim: dovecote::ClaimedEvent) -> ClaimView;

impl View for HydratedClaim {
    type V = ClaimView;

    closed spec fn view(&self) -> ClaimView {
        ClaimView {
            tenant_id: self.tenant_id@,
            row_id: self.row_id@,
            event: self.event@,
            attempts: self.attempts as int,
            token: self.token@,
            worker: self.worker@,
            expires_at: self.expires_at@,
        }
    }
}

impl HydratedClaim {
    #[verifier::type_invariant]
    closed spec fn agrees(self) -> bool {
        claim_content(self.claim) == self@
    }

    /// The row of the event.
    pub fn row_id(&self) -> (row_id: RowId)
        ensures
            row_id@ == self@.row_id,
    {
        self.row_id
    }

    /// The attempts, the claim included.
    pub fn attempts(&self) -> (attempts: i64)
        ensures
            attempts == self@.attempts,
    {
        self.attempts
    }

    /// The fencing token of the claim.
    pub fn token(&self) -> (token: &[u8; 16])
        ensures
            token@ == self@.token,
    {
        &self.token
    }

    /// When the claim expires.
    pub fn expires_at(&self) -> (at: Instant)
        ensures
            at@ == self@.expires_at,
    {
        self.expires_at
    }

    /// The domain's claimed event, which holds the values that this one shows.
    pub fn into_claimed_event(self) -> (claim: dovecote::ClaimedEvent)
        ensures
            claim_content(claim) == self@,
    {
        proof {
            use_type_invariant(&self);
        }
        self.claim
    }
}

/// `dovecote::ClaimedEvent::new`: a claimed event, if its expiry is portable.
#[verifier::external_body]
fn domain_claim(
    tenant: dovecote::TenantId,
    row_id: RowId,
    event: dovecote::StoredEvent,
    attempts: i64,
    token: [u8; 16],
    worker: dovecote::WorkerId,
    expires_at: Instant,
) -> (result: Result<dovecote::ClaimedEvent, String>)
    requires
        attempts >= 0,
    ensures
        match result {
            Ok(claim) => instant_error("claim_expires_at"@, expires_at@) is None && claim_content(
                claim,
            ) == (ClaimView {
                tenant_id: tenant_id_text(tenant),
                row_id: row_id@,
                event: event_content(event),
                attempts: attempts as int,
                token: token@,
                worker: worker_id_text(worker),
                expires_at: expires_at@,
            }),
            Err(error) => instant_error("claim_expires_at"@, expires_at@) == Some(error@),
        },
{
    let id = dovecote::RowId::new(row_id.value).expect("row identifiers are positive");
    let count = dovecote::AttemptCount::new(attempts).expect("attempts are not negative");
    let fence = dovecote::ClaimToken::from_bytes(token);
    let end = time::OffsetDateTime::from_unix_timestamp_nanos(expires_at.nanos).expect("calendar");
    dovecote::ClaimedEvent::new(tenant, id, event, count, fence, worker, end)
        .map_err(|error| error.to_string())
}

/// A claimed event, if its expiry is portable.
pub(crate) fn claimed_event(
    tenant: Attribute<dovecote::TenantId>,
    row_id: RowId,
    event: HydratedEvent,
    attempts: i64,
    token: [u8; 16],
    worker: Attribute<dovecote::WorkerId>,
    expires_at: Instant,
) -> (result: Result<HydratedClaim, String>)
    requires
        attempts >= 0,
    ensures
        match result {
            Ok(claim) => {
                &&& instant_error("claim_expires_at"@, expires_at@) is None
                &&& claim@ == (ClaimView {
                    tenant_id: tenant@,
                    row_id: row_id@,
                    event: event@,
                    attempts: attempts as int,
                    token: token@,
                    worker: worker@,
                    expires_at: expires_at@,
                })
            },
            Err(error) => instant_error("claim_expires_at"@, expires_at@) == Some(error@),
        },
{
    let (tenant_id, tenant) = tenant.into_parts();
    let (content, event) = event.into_parts();
    let (name, holder) = worker.into_parts();
    match domain_claim(tenant, row_id, event, attempts, token, holder, expires_at) {
        Ok(claim) => Ok(
            HydratedClaim {
                tenant_id,
                row_id,
                event: content,
                attempts,
                token,
                worker: name,
                expires_at,
                claim,
            },
        ),
        Err(error) => Err(error),
    }
}

/// A failure is read exactly if both of its columns are absent, or both are there with
/// a code of at most 128 bytes and a detail of at most 2048 bytes that the domain
/// accepts. It then holds the code and the detail as they were stored.
pub proof fn failures_are_read_as_they_were_stored(
    code: Option<String>,
    detail: Option<String>,
    result: Result<Option<RecordedFailure>, String>,
)
    requires
        call_ensures(parse_failure, (code, detail), result),
    ensures
        result is Ok <==> {
            ||| code is None && detail is None
            ||| {
                &&& code is Some && detail is Some
                &&& bounded_text_error("failure code"@, code->0@, 128) is None
                &&& bounded_text_error("failure detail"@, detail->0@, 2048) is None
            }
        },
        result matches Ok(None) ==> code is None && detail is None,
        result matches Ok(Some(failure)) ==> code is Some && detail is Some && failure@ == (
            code->0@,
            detail->0@,
        ),
{
}

/// The parts of a paged event are those that it shows.
pub proof fn paged_events_show_their_parts(
    page: &HydratedPage,
    row_id: RowId,
    tenant: &str,
    event: &EventContent,
    enqueued_at: Instant,
    delivery: &Delivery,
)
    requires
        call_ensures(HydratedPage::row_id, (page,), row_id),
        call_ensures(HydratedPage::tenant_id, (page,), tenant),
        call_ensures(HydratedPage::event, (page,), event),
        call_ensures(HydratedPage::enqueued_at, (page,), enqueued_at),
        call_ensures(HydratedPage::delivery, (page,), delivery),
    ensures
        page@ == (PageView {
            tenant_id: tenant@,
            row_id: row_id@,
            event: event@,
            enqueued_at: enqueued_at@,
            delivery: delivery@,
        }),
{
}

/// The parts of a claimed event are those that it shows.
pub proof fn claimed_events_show_their_parts(
    claim: &HydratedClaim,
    row_id: RowId,
    attempts: i64,
    token: &[u8; 16],
    expires_at: Instant,
)
    requires
        call_ensures(HydratedClaim::row_id, (claim,), row_id),
        call_ensures(HydratedClaim::attempts, (claim,), attempts),
        call_ensures(HydratedClaim::token, (claim,), token),
        call_ensures(HydratedClaim::expires_at, (claim,), expires_at),
    ensures
        claim@.row_id == row_id@,
        claim@.attempts == attempts,
        claim@.token == token@,
        claim@.expires_at == expires_at@,
{
}

} // verus!
