//! Typed errors at the SQLite adapter boundary.

use crate::sql_error::{database_code, error_code};
use crate::text::{parse_i32, parsed_i32};
use crate::value::{DeliveryState, RowId};
use vstd::prelude::*;

verus! {

/// Errors that can be retried by the adapter's bounded busy policy.
#[derive(Clone, Copy, Debug, PartialEq, Eq, Structural)]
pub enum TransientKind {
    /// SQLite could not acquire its single-writer lock before the configured
    /// busy timeout. The complete operation has been rolled back.
    BusyExhausted,
}

impl TransientKind {
    /// The label of the category.
    pub fn label(self) -> (label: &'static str)
        ensures
            label@ == "SQLite busy timeout exhausted"@,
    {
        "SQLite busy timeout exhausted"
    }
}

/// Whether a SQLite result code means that the database or a table is locked:
/// the primary code, its low byte, is 5 or 6.
pub open spec fn is_busy_code(code: int) -> bool {
    code % 256 == 5 || code % 256 == 6
}

/// Whether a failed SQL operation found SQLite busy or locked.
pub open spec fn busy_failure(source: sqlx::Error) -> bool {
    match database_code(source) {
        Some(code) => match parsed_i32(code) {
            Some(number) => is_busy_code(number),
            None => false,
        },
        None => false,
    }
}

/// Whether a failed SQL operation found SQLite busy or locked.
pub fn is_busy(source: &sqlx::Error) -> (busy: bool)
    ensures
        busy == busy_failure(*source),
{
    match error_code(source) {
        Some(code) => match parse_i32(code.as_str()) {
            Some(number) => {
                assert(number & 0xffi32 == number % 256) by (bit_vector);
                number & 0xffi32 == 5 || number & 0xffi32 == 6
            },
            None => false,
        },
        None => false,
    }
}

/// Errors returned while enqueueing an event.
#[derive(Debug)]
pub enum EnqueueError {
    /// The transaction was not opened with SQLite's writer lock.
    WriteTransactionRequired,
    /// The adapter's bounded busy policy is not representable by SQLite.
    Configuration { detail: String },
    /// Existing identity has different immutable event content.
    IdempotencyConflict { existing_row_id: RowId },
    /// Installed durable schema is incompatible with this adapter.
    MigrationMismatch { detail: String },
    /// Stored or returned data could not be represented safely.
    Serialization { detail: String },
    /// SQLite stayed busy or locked for the whole configured wait.
    BusyExhausted { operation: &'static str, source: sqlx::Error },
    /// A non-busy SQLx operation failed.
    Sql { operation: &'static str, source: sqlx::Error },
}

impl EnqueueError {
    /// How a failed SQL operation is reported: as exhausted if SQLite was busy.
    pub open spec fn failed(operation: &'static str, source: sqlx::Error) -> EnqueueError {
        if busy_failure(source) {
            EnqueueError::BusyExhausted { operation, source }
        } else {
            EnqueueError::Sql { operation, source }
        }
    }

    /// Reports a failed SQL operation, as exhausted if SQLite was busy.
    pub fn sql(operation: &'static str, source: sqlx::Error) -> (error: EnqueueError)
        ensures
            error == EnqueueError::failed(operation, source),
    {
        if is_busy(&source) {
            EnqueueError::BusyExhausted { operation, source }
        } else {
            EnqueueError::Sql { operation, source }
        }
    }

    /// Reports a stored value that is no valid domain value.
    pub fn serialization(detail: String) -> (error: EnqueueError)
        ensures
            error == (EnqueueError::Serialization { detail }),
    {
        EnqueueError::Serialization { detail }
    }
}

/// Errors returned by the migration-only importer.
#[derive(Debug)]
pub enum ImportError {
    /// The transaction was not opened with SQLite's writer lock.
    WriteTransactionRequired,
    /// Existing identity has different immutable event content.
    IdentityConflict { existing_row_id: RowId },
    /// Existing delivery state differs from the requested imported state.
    ImportConflict { existing_row_id: RowId },
    /// The adapter's bounded busy policy is not representable by SQLite.
    Configuration { detail: String },
    /// Imported state failed Dovecote validation.
    InvalidState { source: dovecote::ValidationError },
    /// Installed durable schema is incompatible with this adapter.
    MigrationMismatch { detail: String },
    /// Stored or returned data could not be represented safely.
    Serialization { detail: String },
    /// SQLite stayed busy or locked for the whole configured wait.
    BusyExhausted { operation: &'static str, source: sqlx::Error },
    /// A non-busy SQLx operation failed.
    Sql { operation: &'static str, source: sqlx::Error },
}

impl ImportError {
    /// How a failed SQL operation is reported: as exhausted if SQLite was busy.
    pub open spec fn failed(operation: &'static str, source: sqlx::Error) -> ImportError {
        if busy_failure(source) {
            ImportError::BusyExhausted { operation, source }
        } else {
            ImportError::Sql { operation, source }
        }
    }

    /// Reports a failed SQL operation, as exhausted if SQLite was busy.
    pub fn sql(operation: &'static str, source: sqlx::Error) -> (error: ImportError)
        ensures
            error == ImportError::failed(operation, source),
    {
        if is_busy(&source) {
            ImportError::BusyExhausted { operation, source }
        } else {
            ImportError::Sql { operation, source }
        }
    }

    /// Reports a stored value that is no valid domain value.
    pub fn serialization(detail: String) -> (error: ImportError)
        ensures
            error == (ImportError::Serialization { detail }),
    {
        ImportError::Serialization { detail }
    }
}

/// Errors returned by the migration-only delivery finalizer.
#[derive(Debug)]
pub enum FinalizeError {
    /// The transaction was not opened with SQLite's writer lock.
    WriteTransactionRequired,
    /// No event row exists for the requested delivery.
    NotFound,
    /// The row is not a canonical imported pending delivery.
    StateConflict { row_id: RowId },
    /// Authoritative delivery time failed Dovecote validation.
    InvalidTimestamp { source: dovecote::ValidationError },
    /// Installed durable schema is incompatible with this adapter.
    MigrationMismatch { detail: String },
    /// Stored or returned data could not be represented safely.
    Serialization { detail: String },
    /// SQLite stayed busy or locked for the whole configured wait.
    BusyExhausted { operation: &'static str, source: sqlx::Error },
    /// A non-busy SQLx operation failed.
    Sql { operation: &'static str, source: sqlx::Error },
}

impl FinalizeError {
    /// How a failed SQL operation is reported: as exhausted if SQLite was busy.
    pub open spec fn failed(operation: &'static str, source: sqlx::Error) -> FinalizeError {
        if busy_failure(source) {
            FinalizeError::BusyExhausted { operation, source }
        } else {
            FinalizeError::Sql { operation, source }
        }
    }

    /// Reports a failed SQL operation, as exhausted if SQLite was busy.
    pub fn sql(operation: &'static str, source: sqlx::Error) -> (error: FinalizeError)
        ensures
            error == FinalizeError::failed(operation, source),
    {
        if is_busy(&source) {
            FinalizeError::BusyExhausted { operation, source }
        } else {
            FinalizeError::Sql { operation, source }
        }
    }
}

/// Errors returned while selecting and claiming a batch of events.
#[derive(Debug)]
pub enum ClaimError {
    /// The delivery attempt counter cannot be incremented.
    CounterOverflow { row_id: RowId },
    /// The operating system could not provide a fresh claim token.
    EntropyUnavailable { source: getrandom::Error },
    /// Stored or returned data could not be represented safely.
    Serialization { detail: String },
    /// Installed durable schema is incompatible with this adapter.
    MigrationMismatch { detail: String },
    /// The adapter's bounded busy policy is not representable by SQLite.
    Configuration { detail: String },
    /// SQLite stayed busy or locked for the whole configured wait.
    BusyExhausted { operation: &'static str, source: sqlx::Error },
    /// A non-busy SQLx operation failed.
    Sql { operation: &'static str, source: sqlx::Error },
}

impl ClaimError {
    /// Reports a failed SQL operation. The retry policy decides later whether a
    /// busy database exhausted it.
    pub fn sql(operation: &'static str, source: sqlx::Error) -> (error: ClaimError)
        ensures
            error == (ClaimError::Sql { operation, source }),
    {
        ClaimError::Sql { operation, source }
    }

    /// Reports a stored value that is no valid domain value.
    pub fn serialization(detail: String) -> (error: ClaimError)
        ensures
            error == (ClaimError::Serialization { detail }),
    {
        ClaimError::Serialization { detail }
    }

    /// The busy failure behind this error, if there is one.
    pub open spec fn busy_cause(self) -> Option<sqlx::Error> {
        match self {
            ClaimError::Sql { source, .. } => if busy_failure(source) {
                Some(source)
            } else {
                None
            },
            ClaimError::BusyExhausted { source, .. } => if busy_failure(source) {
                Some(source)
            } else {
                None
            },
            _ => None,
        }
    }

    /// The busy failure behind this error, if there is one.
    pub fn busy_source(&self) -> (source: Option<&sqlx::Error>)
        ensures
            match source {
                Some(source) => self.busy_cause() == Some(*source),
                None => self.busy_cause() is None,
            },
    {
        match self {
            ClaimError::Sql { source, .. } => if is_busy(source) {
                Some(source)
            } else {
                None
            },
            ClaimError::BusyExhausted { source, .. } => if is_busy(source) {
                Some(source)
            } else {
                None
            },
            _ => None,
        }
    }

    /// The error once the retries are used up: a SQL failure becomes an exhausted
    /// wait, anything else stays.
    pub open spec fn exhausted(self) -> ClaimError {
        match self {
            ClaimError::Sql { operation, source } => ClaimError::BusyExhausted { operation, source },
            other => other,
        }
    }

    /// Marks a SQL failure as an exhausted wait.
    pub fn into_busy_exhausted(self) -> (error: ClaimError)
        ensures
            error == self.exhausted(),
    {
        match self {
            ClaimError::Sql { operation, source } => ClaimError::BusyExhausted { operation, source },
            other => other,
        }
    }
}

/// Errors returned by claim-token-fenced delivery mutations.
#[derive(Debug)]
pub enum MutationError {
    /// No event row exists for the requested delivery.
    NotFound,
    /// The requested mutation is invalid for the current delivery state.
    IllegalTransition { state: DeliveryState },
    /// The supplied claim token no longer owns the delivery.
    LostClaim,
    /// Installed durable schema is incompatible with this adapter.
    MigrationMismatch { detail: String },
    /// The adapter's bounded busy policy is not representable by SQLite.
    Configuration { detail: String },
    /// Stored or returned data could not be represented safely.
    Serialization { detail: String },
    /// SQLite stayed busy or locked for the whole configured wait.
    BusyExhausted { operation: &'static str, source: sqlx::Error },
    /// A non-busy SQLx operation failed.
    Sql { operation: &'static str, source: sqlx::Error },
}

impl MutationError {
    /// Reports a failed SQL operation. The retry policy decides later whether a
    /// busy database exhausted it.
    pub fn sql(operation: &'static str, source: sqlx::Error) -> (error: MutationError)
        ensures
            error == (MutationError::Sql { operation, source }),
    {
        MutationError::Sql { operation, source }
    }

    /// Reports a stored value that is no valid domain value.
    pub fn serialization(detail: String) -> (error: MutationError)
        ensures
            error == (MutationError::Serialization { detail }),
    {
        MutationError::Serialization { detail }
    }

    /// Whether this is a SQL failure that found SQLite busy.
    pub open spec fn is_busy_failure(self) -> bool {
        self matches MutationError::Sql { source, .. } && busy_failure(source)
    }

    /// Whether this is a SQL failure that found SQLite busy.
    pub fn is_busy(&self) -> (busy: bool)
        ensures
            busy == self.is_busy_failure(),
    {
        match self {
            MutationError::Sql { source, .. } => is_busy(source),
            _ => false,
        }
    }

    /// The error once the retries are used up: a SQL failure becomes an exhausted
    /// wait, anything else stays.
    pub open spec fn exhausted(self) -> MutationError {
        match self {
            MutationError::Sql { operation, source } => MutationError::BusyExhausted { operation, source },
            other => other,
        }
    }

    /// Marks a SQL failure as an exhausted wait.
    pub fn into_busy_exhausted(self) -> (error: MutationError)
        ensures
            error == self.exhausted(),
    {
        match self {
            MutationError::Sql { operation, source } => MutationError::BusyExhausted { operation, source },
            other => other,
        }
    }
}

/// Errors returned by live and snapshot paging.
#[derive(Debug)]
pub enum PageError {
    /// The snapshot pager has already been finished or rolled back.
    Closed,
    /// Stored or returned data could not be represented safely.
    Serialization { detail: String },
    /// SQLite stayed busy or locked for the whole configured wait.
    BusyExhausted { operation: &'static str, source: sqlx::Error },
    /// A non-busy SQLx operation failed.
    Sql { operation: &'static str, source: sqlx::Error },
}

impl PageError {
    /// How a failed SQL operation is reported: as exhausted if SQLite was busy.
    pub open spec fn failed(operation: &'static str, source: sqlx::Error) -> PageError {
        if busy_failure(source) {
            PageError::BusyExhausted { operation, source }
        } else {
            PageError::Sql { operation, source }
        }
    }

    /// Reports a failed SQL operation, as exhausted if SQLite was busy.
    pub fn sql(operation: &'static str, source: sqlx::Error) -> (error: PageError)
        ensures
            error == PageError::failed(operation, source),
    {
        if is_busy(&source) {
            PageError::BusyExhausted { operation, source }
        } else {
            PageError::Sql { operation, source }
        }
    }

    /// Reports a stored value that is no valid domain value.
    pub fn serialization(detail: String) -> (error: PageError)
        ensures
            error == (PageError::Serialization { detail }),
    {
        PageError::Serialization { detail }
    }
}

/// Errors returned while checking the installed schema.
#[derive(Debug)]
pub enum SchemaError {
    /// Installed durable schema is incompatible with this adapter.
    MigrationMismatch { detail: String },
    /// SQLite stayed busy or locked for the whole configured wait.
    BusyExhausted { operation: &'static str, source: sqlx::Error },
    /// A non-busy SQLx operation failed.
    Sql { operation: &'static str, source: sqlx::Error },
}

impl SchemaError {
    /// How a failed SQL operation is reported: as exhausted if SQLite was busy.
    pub open spec fn failed(operation: &'static str, source: sqlx::Error) -> SchemaError {
        if busy_failure(source) {
            SchemaError::BusyExhausted { operation, source }
        } else {
            SchemaError::Sql { operation, source }
        }
    }

    /// Reports a failed SQL operation, as exhausted if SQLite was busy.
    pub fn sql(operation: &'static str, source: sqlx::Error) -> (error: SchemaError)
        ensures
            error == SchemaError::failed(operation, source),
    {
        if is_busy(&source) {
            SchemaError::BusyExhausted { operation, source }
        } else {
            SchemaError::Sql { operation, source }
        }
    }
}

/// A failure counts as busy exactly if the database gave it a number whose low
/// byte is that of a busy (5) or a locked (6) database.
pub proof fn busy_failures_have_a_busy_code(source: sqlx::Error, busy: bool)
    requires
        call_ensures(is_busy, (&source,), busy),
    ensures
        busy <==> {
            &&& database_code(source) is Some
            &&& parsed_i32(database_code(source)->0) is Some
            &&& 5 <= parsed_i32(database_code(source)->0)->0 % 256 <= 6
        },
        busy <==> busy_failure(source),
{
}

/// A failed SQL operation is reported as exhausted exactly if SQLite was busy,
/// with its own name and failure, by every operation that retries nothing.
pub proof fn busy_failures_are_reported_as_exhausted(
    operation: &'static str,
    source: sqlx::Error,
    enqueue: EnqueueError,
    import: ImportError,
    finalize: FinalizeError,
    page: PageError,
    schema: SchemaError,
)
    requires
        call_ensures(EnqueueError::sql, (operation, source), enqueue),
        call_ensures(ImportError::sql, (operation, source), import),
        call_ensures(FinalizeError::sql, (operation, source), finalize),
        call_ensures(PageError::sql, (operation, source), page),
        call_ensures(SchemaError::sql, (operation, source), schema),
    ensures
        busy_failure(source) ==> {
            &&& enqueue == (EnqueueError::BusyExhausted { operation, source })
            &&& import == (ImportError::BusyExhausted { operation, source })
            &&& finalize == (FinalizeError::BusyExhausted { operation, source })
            &&& page == (PageError::BusyExhausted { operation, source })
            &&& schema == (SchemaError::BusyExhausted { operation, source })
        },
        !busy_failure(source) ==> {
            &&& enqueue == (EnqueueError::Sql { operation, source })
            &&& import == (ImportError::Sql { operation, source })
            &&& finalize == (FinalizeError::Sql { operation, source })
            &&& page == (PageError::Sql { operation, source })
            &&& schema == (SchemaError::Sql { operation, source })
        },
{
}

/// Claims and mutations report a failed SQL operation as it is, so that their
/// retry policy sees it.
pub proof fn retried_operations_report_the_failure_itself(
    operation: &'static str,
    source: sqlx::Error,
    claim: ClaimError,
    mutation: MutationError,
)
    requires
        call_ensures(ClaimError::sql, (operation, source), claim),
        call_ensures(MutationError::sql, (operation, source), mutation),
    ensures
        claim == (ClaimError::Sql { operation, source }),
        mutation == (MutationError::Sql { operation, source }),
{
}

} // verus!
