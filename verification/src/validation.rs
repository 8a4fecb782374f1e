//! Refusals of the domain that the adapters hand on as errors.

use crate::instant::{instant_error, Instant};
use vstd::prelude::*;

verus! {

#[verifier::external_type_specification]
#[verifier::external_body]
pub struct ExValidationError(dovecote::ValidationError);

/// The message of a refusal.
pub uninterp spec fn refusal_message(error: dovecote::ValidationError) -> Seq<char>;

/// `dovecote::ImportedDeliveryState::delivered`: accepts a portable instant as
/// the time of a delivery. A refusal is the one that [`instant_error`] words.
#[verifier::external_body]
pub(crate) fn check_delivered_at(at: Instant) -> (result: Result<(), dovecote::ValidationError>)
    ensures
        match result {
            Ok(()) => instant_error("delivered_at"@, at@) is None,
            Err(error) => instant_error("delivered_at"@, at@) == Some(refusal_message(error)),
        },
{
    let value = time::OffsetDateTime::from_unix_timestamp_nanos(at.nanos).expect("calendar");
    dovecote::ImportedDeliveryState::delivered(value).map(|_| ())
}

} // verus!
