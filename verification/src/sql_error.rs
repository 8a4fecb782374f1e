//! What the adapters read of a failed SQL operation.

use vstd::prelude::*;

verus! {

#[verifier::external_type_specification]
#[verifier::external_body]
pub struct ExSqlxError(sqlx::Error);

/// The code that the database attached to a failure, if the failure came from
/// the database and has one.
pub uninterp spec fn database_code(source: sqlx::Error) -> Option<Seq<char>>;

/// `sqlx::Error::as_database_error` and `sqlx::error::DatabaseError::code`: the
/// code of a database failure. It depends on the error alone.
#[verifier::external_body]
pub(crate) fn error_code(source: &sqlx::Error) -> (code: Option<String>)
    ensures
        match code {
            Some(code) => database_code(*source) == Some(code@),
            None => database_code(*source) is None,
        },
{
    source.as_database_error().and_then(|error| error.code()).map(|code| code.into_owned())
}

/// The message of a failure that the adapter itself reported.
pub uninterp spec fn protocol_message(source: sqlx::Error) -> Option<Seq<char>>;

/// `sqlx::Error::Protocol`: a failure that the adapter itself reports. It holds
/// the given message; it does not come from the database, so it has no code.
#[verifier::external_body]
pub(crate) fn protocol_error(detail: &str) -> (source: sqlx::Error)
    ensures
        protocol_message(source) == Some(detail@),
        database_code(source) is None,
{
    sqlx::Error::Protocol(detail.to_owned())
}

} // verus!
