//! Typed errors at the PostgreSQL adapter boundary.

use crate::sql_error::{database_code, error_code};
use crate::text::same_text;
use crate::value::{DeliveryState, RowId};
use vstd::prelude::*;

verus! {

/// PostgreSQL SQLSTATE categories for failures callers may retry as a whole
/// operation. The original SQLx error remains available as the source.
#[derive(Clone, Copy, Debug, PartialEq, Eq, Structural)]
pub enum TransientKind {
    /// Serialization failure (`40001`).
    SerializationFailure,
    /// Deadlock detected (`40P01`).
    DeadlockDetected,
    /// Statement/query cancellation or lock timeout (`57014`/`55P03`).
    StatementOrLockTimeout,
}

/// The category of a SQLSTATE code, if it has one.
pub open spec fn sqlstate_kind(code: Seq<char>) -> Option<TransientKind> {
    if code == "40001"@ {
        Some(TransientKind::SerializationFailure)
    } else if code == "40P01"@ {
        Some(TransientKind::DeadlockDetected)
    } else if code == "57014"@ || code == "55P03"@ {
        Some(TransientKind::StatementOrLockTimeout)
    } else {
        None
    }
}

/// The category of a failure, if the database gave it a code that has one.
pub open spec fn failure_kind(source: sqlx::Error) -> Option<TransientKind> {
    match database_code(source) {
        Some(code) => sqlstate_kind(code),
        None => None,
    }
}

impl TransientKind {
    /// The label of the category.
    pub fn label(self) -> (label: &'static str)
        ensures
            label@ == match self {
                TransientKind::SerializationFailure => "serialization failure"@,
                TransientKind::DeadlockDetected => "deadlock detected"@,
                TransientKind::StatementOrLockTimeout => "statement or lock timeout"@,
            },
    {
        match self {
            TransientKind::SerializationFailure => "serialization failure",
            TransientKind::DeadlockDetected => "deadlock detected",
            TransientKind::StatementOrLockTimeout => "statement or lock timeout",
        }
    }

    /// The category of a failed SQL operation, if it has one.
    pub fn from_sqlx(source: &sqlx::Error) -> (kind: Option<TransientKind>)
        ensures
            kind == failure_kind(*source),
    {
        match error_code(source) {
            Some(code) => TransientKind::from_sqlstate(code.as_str()),
            None => None,
        }
    }

    /// The category of a SQLSTATE code, if it has one.
    pub fn from_sqlstate(code: &str) -> (kind: Option<TransientKind>)
        ensures
            kind == sqlstate_kind(code@),
    {
        if same_text(code, "40001") {
            Some(TransientKind::SerializationFailure)
        } else if same_text(code, "40P01") {
            Some(TransientKind::DeadlockDetected)
        } else if same_text(code, "57014") || same_text(code, "55P03") {
            Some(TransientKind::StatementOrLockTimeout)
        } else {
            None
        }
    }
}

/// Errors returned while enqueueing an event.
#[derive(Debug)]
pub enum EnqueueError {
    /// The immutable event identity already exists with different content.
    IdempotencyConflict { existing_row_id: RowId },
    /// The installed schema does not satisfy this adapter's migration contract.
    MigrationMismatch { detail: String },
    /// A database value could not be reconstructed as a valid domain value.
    Serialization { detail: String },
    /// A non-transient SQL operation failed.
    Sql {
        operation: &'static str,
        source: sqlx::Error,
    },
    /// A SQL operation failed with a retryable PostgreSQL condition.
    Transient {
        operation: &'static str,
        kind: TransientKind,
        source: sqlx::Error,
    },
}

impl EnqueueError {
    /// How a failed SQL operation is reported: as retryable if its code says so.
    pub open spec fn failed(operation: &'static str, source: sqlx::Error) -> EnqueueError {
        match failure_kind(source) {
            Some(kind) => EnqueueError::Transient { operation, kind, source },
            None => EnqueueError::Sql { operation, source },
        }
    }

    /// Classifies a failed SQL operation as retryable or not.
    pub fn sql(operation: &'static str, source: sqlx::Error) -> (error: EnqueueError)
        ensures
            error == EnqueueError::failed(operation, source),
    {
        match TransientKind::from_sqlx(&source) {
            Some(kind) => EnqueueError::Transient { operation, kind, source },
            None => EnqueueError::Sql { operation, source },
        }
    }

    /// Reports a stored value that is no valid domain value.
    pub fn serialization(detail: String) -> (error: EnqueueError)
        ensures
            error == (EnqueueError::Serialization { detail }),
    {
        EnqueueError::Serialization { detail }
    }
}

/// Errors returned by the migration-only importer.
#[derive(Debug)]
pub enum ImportError {
    /// The immutable event identity conflicts with an existing row.
    IdentityConflict { existing_row_id: RowId },
    /// The imported delivery state conflicts with an existing row.
    ImportConflict { existing_row_id: RowId },
    /// The supplied legacy delivery state is invalid.
    InvalidState { source: dovecote::ValidationError },
    /// The installed schema does not satisfy this adapter's migration contract.
    MigrationMismatch { detail: String },
    /// A database value could not be reconstructed as a valid domain value.
    Serialization { detail: String },
    /// A non-transient SQL operation failed.
    Sql {
        operation: &'static str,
        source: sqlx::Error,
    },
    /// A SQL operation failed with a retryable PostgreSQL condition.
    Transient {
        operation: &'static str,
        kind: TransientKind,
        source: sqlx::Error,
    },
}

impl ImportError {
    /// How a failed SQL operation is reported: as retryable if its code says so.
    pub open spec fn failed(operation: &'static str, source: sqlx::Error) -> ImportError {
        match failure_kind(source) {
            Some(kind) => ImportError::Transient { operation, kind, source },
            None => ImportError::Sql { operation, source },
        }
    }

    /// Classifies a failed SQL operation as retryable or not.
    pub fn sql(operation: &'static str, source: sqlx::Error) -> (error: ImportError)
        ensures
            error == ImportError::failed(operation, source),
    {
        match TransientKind::from_sqlx(&source) {
            Some(kind) => ImportError::Transient { operation, kind, source },
            None => ImportError::Sql { operation, source },
        }
    }

    /// Reports a stored value that is no valid domain value.
    pub fn serialization(detail: String) -> (error: ImportError)
        ensures
            error == (ImportError::Serialization { detail }),
    {
        ImportError::Serialization { detail }
    }
}

/// Errors returned by the migration-only delivery finalizer.
#[derive(Debug)]
pub enum FinalizeError {
    /// The requested event row does not exist.
    NotFound,
    /// The delivery row is not in the canonical imported pending state.
    StateConflict { row_id: RowId },
    /// The supplied authoritative timestamp is invalid.
    InvalidTimestamp { source: dovecote::ValidationError },
    /// The installed schema does not satisfy this adapter's migration contract.
    MigrationMismatch { detail: String },
    /// A database value could not be reconstructed as a valid domain value.
    Serialization { detail: String },
    /// A non-transient SQL operation failed.
    Sql {
        operation: &'static str,
        source: sqlx::Error,
    },
    /// A SQL operation failed with a retryable PostgreSQL condition.
    Transient {
        operation: &'static str,
        kind: TransientKind,
        source: sqlx::Error,
    },
}

impl FinalizeError {
    /// How a failed SQL operation is reported: as retryable if its code says so.
    pub open spec fn failed(operation: &'static str, source: sqlx::Error) -> FinalizeError {
        match failure_kind(source) {
            Some(kind) => FinalizeError::Transient { operation, kind, source },
            None => FinalizeError::Sql { operation, source },
        }
    }

    /// Classifies a failed SQL operation as retryable or not.
    pub fn sql(operation: &'static str, source: sqlx::Error) -> (error: FinalizeError)
        ensures
            error == FinalizeError::failed(operation, source),
    {
        match TransientKind::from_sqlx(&source) {
            Some(kind) => FinalizeError::Transient { operation, kind, source },
            None => FinalizeError::Sql { operation, source },
        }
    }
}

/// Errors returned while selecting and claiming a batch of events.
#[derive(Debug)]
pub enum ClaimError {
    /// The delivery attempt counter cannot be incremented safely.
    CounterOverflow { row_id: RowId },
    /// The operating system could not provide claim-token entropy.
    EntropyUnavailable { source: getrandom::Error },
    /// A database value could not be reconstructed as a valid domain value.
    Serialization { detail: String },
    /// The installed schema does not satisfy this adapter's migration contract.
    MigrationMismatch { detail: String },
    /// A non-transient SQL operation failed.
    Sql {
        operation: &'static str,
        source: sqlx::Error,
    },
    /// A SQL operation failed with a retryable PostgreSQL condition.
    Transient {
        operation: &'static str,
        kind: TransientKind,
        source: sqlx::Error,
    },
}

impl ClaimError {
    /// How a failed SQL operation is reported: as retryable if its code says so.
    pub open spec fn failed(operation: &'static str, source: sqlx::Error) -> ClaimError {
        match failure_kind(source) {
            Some(kind) => ClaimError::Transient { operation, kind, source },
            None => ClaimError::Sql { operation, source },
        }
    }

    /// Classifies a failed SQL operation as retryable or not.
    pub fn sql(operation: &'static str, source: sqlx::Error) -> (error: ClaimError)
        ensures
            error == ClaimError::failed(operation, source),
    {
        match TransientKind::from_sqlx(&source) {
            Some(kind) => ClaimError::Transient { operation, kind, source },
            None => ClaimError::Sql { operation, source },
        }
    }

    /// Reports a stored value that is no valid domain value.
    pub fn serialization(detail: String) -> (error: ClaimError)
        ensures
            error == (ClaimError::Serialization { detail }),
    {
        ClaimError::Serialization { detail }
    }
}

/// Errors returned by fenced post-claim mutations.
#[derive(Debug)]
pub enum MutationError {
    /// The requested event row does not exist.
    NotFound,
    /// The current delivery state cannot perform this mutation.
    IllegalTransition { state: DeliveryState },
    /// The claim token is stale or the lease has expired.
    LostClaim,
    /// The installed schema does not satisfy this adapter's migration contract.
    MigrationMismatch { detail: String },
    /// A database value could not be reconstructed as a valid domain value.
    Serialization { detail: String },
    /// A non-transient SQL operation failed.
    Sql {
        operation: &'static str,
        source: sqlx::Error,
    },
    /// A SQL operation failed with a retryable PostgreSQL condition.
    Transient {
        operation: &'static str,
        kind: TransientKind,
        source: sqlx::Error,
    },
}

impl MutationError {
    /// How a failed SQL operation is reported: as retryable if its code says so.
    pub open spec fn failed(operation: &'static str, source: sqlx::Error) -> MutationError {
        match failure_kind(source) {
            Some(kind) => MutationError::Transient { operation, kind, source },
            None => MutationError::Sql { operation, source },
        }
    }

    /// Classifies a failed SQL operation as retryable or not.
    pub fn sql(operation: &'static str, source: sqlx::Error) -> (error: MutationError)
        ensures
            error == MutationError::failed(operation, source),
    {
        match TransientKind::from_sqlx(&source) {
            Some(kind) => MutationError::Transient { operation, kind, source },
            None => MutationError::Sql { operation, source },
        }
    }

    /// Reports a stored value that is no valid domain value.
    pub fn serialization(detail: String) -> (error: MutationError)
        ensures
            error == (MutationError::Serialization { detail }),
    {
        MutationError::Serialization { detail }
    }
}

/// Errors returned by live and snapshot paging.
#[derive(Debug)]
pub enum PageError {
    /// A database value could not be reconstructed as a valid domain value.
    Serialization { detail: String },
    /// A non-transient SQL operation failed.
    Sql {
        operation: &'static str,
        source: sqlx::Error,
    },
    /// A SQL operation failed with a retryable PostgreSQL condition.
    Transient {
        operation: &'static str,
        kind: TransientKind,
        source: sqlx::Error,
    },
}

impl PageError {
    /// How a failed SQL operation is reported: as retryable if its code says so.
    pub open spec fn failed(operation: &'static str, source: sqlx::Error) -> PageError {
        match failure_kind(source) {
            Some(kind) => PageError::Transient { operation, kind, source },
            None => PageError::Sql { operation, source },
        }
    }

    /// Classifies a failed SQL operation as retryable or not.
    pub fn sql(operation: &'static str, source: sqlx::Error) -> (error: PageError)
        ensures
            error == PageError::failed(operation, source),
    {
        match TransientKind::from_sqlx(&source) {
            Some(kind) => PageError::Transient { operation, kind, source },
            None => PageError::Sql { operation, source },
        }
    }

    /// Reports a stored value that is no valid domain value.
    pub fn serialization(detail: String) -> (error: PageError)
        ensures
            error == (PageError::Serialization { detail }),
    {
        PageError::Serialization { detail }
    }
}

/// Errors returned while checking the installed schema.
#[derive(Debug)]
pub enum SchemaError {
    /// The installed schema does not satisfy this adapter's migration contract.
    MigrationMismatch { detail: String },
    /// A non-transient SQL operation failed.
    Sql {
        operation: &'static str,
        source: sqlx::Error,
    },
    /// A SQL operation failed with a retryable PostgreSQL condition.
    Transient {
        operation: &'static str,
        kind: TransientKind,
        source: sqlx::Error,
    },
}

impl SchemaError {
    /// How a failed SQL operation is reported: as retryable if its code says so.
    pub open spec fn failed(operation: &'static str, source: sqlx::Error) -> SchemaError {
        match failure_kind(source) {
            Some(kind) => SchemaError::Transient { operation, kind, source },
            None => SchemaError::Sql { operation, source },
        }
    }

    /// Classifies a failed SQL operation as retryable or not.
    pub fn sql(operation: &'static str, source: sqlx::Error) -> (error: SchemaError)
        ensures
            error == SchemaError::failed(operation, source),
    {
        match TransientKind::from_sqlx(&source) {
            Some(kind) => SchemaError::Transient { operation, kind, source },
            None => SchemaError::Sql { operation, source },
        }
    }
}

/// A failure may be retried exactly if PostgreSQL reports that transactions could
/// not be serialized, that they blocked each other, or that a statement or a lock
/// took too long.
pub proof fn only_these_codes_may_be_retried(code: &str, kind: Option<TransientKind>)
    requires
        call_ensures(TransientKind::from_sqlstate, (code,), kind),
    ensures
        kind == Some(TransientKind::SerializationFailure) <==> code@ == "40001"@,
        kind == Some(TransientKind::DeadlockDetected) <==> code@ == "40P01"@,
        kind == Some(TransientKind::StatementOrLockTimeout) <==> code@ == "57014"@ || code@
            == "55P03"@,
        kind is None <==> code@ != "40001"@ && code@ != "40P01"@ && code@ != "57014"@ && code@
            != "55P03"@,
{
    reveal_strlit("40001");
    reveal_strlit("40P01");
    reveal_strlit("57014");
    reveal_strlit("55P03");
    assert("40001"@[2] == '0' && "40P01"@[2] == 'P' && "57014"@[1] == '7' && "55P03"@[1] == '5');
}

/// A failed SQL operation is reported as retryable exactly if its code says so, with
/// the kind that the code stands for, by every operation.
pub proof fn retryable_failures_are_reported_as_such(
    operation: &'static str,
    source: sqlx::Error,
    code: &str,
    kind: Option<TransientKind>,
    enqueue: EnqueueError,
    import: ImportError,
    finalize: FinalizeError,
    claim: ClaimError,
    mutation: MutationError,
    page: PageError,
    schema: SchemaError,
)
    requires
        database_code(source) == Some(code@),
        call_ensures(TransientKind::from_sqlstate, (code,), kind),
        call_ensures(EnqueueError::sql, (operation, source), enqueue),
        call_ensures(ImportError::sql, (operation, source), import),
        call_ensures(FinalizeError::sql, (operation, source), finalize),
        call_ensures(ClaimError::sql, (operation, source), claim),
        call_ensures(MutationError::sql, (operation, source), mutation),
        call_ensures(PageError::sql, (operation, source), page),
        call_ensures(SchemaError::sql, (operation, source), schema),
    ensures
        kind matches Some(kind) ==> {
            &&& enqueue == (EnqueueError::Transient { operation, kind, source })
            &&& import == (ImportError::Transient { operation, kind, source })
            &&& finalize == (FinalizeError::Transient { operation, kind, source })
            &&& claim == (ClaimError::Transient { operation, kind, source })
            &&& mutation == (MutationError::Transient { operation, kind, source })
            &&& page == (PageError::Transient { operation, kind, source })
            &&& schema == (SchemaError::Transient { operation, kind, source })
        },
        kind is None ==> {
            &&& enqueue == (EnqueueError::Sql { operation, source })
            &&& import == (ImportError::Sql { operation, source })
            &&& finalize == (FinalizeError::Sql { operation, source })
            &&& claim == (ClaimError::Sql { operation, source })
            &&& mutation == (MutationError::Sql { operation, source })
            &&& page == (PageError::Sql { operation, source })
            &&& schema == (SchemaError::Sql { operation, source })
        },
{
}

/// A failure that has no code is never reported as retryable.
pub proof fn failures_without_a_code_are_not_retryable(
    operation: &'static str,
    source: sqlx::Error,
    enqueue: EnqueueError,
    import: ImportError,
    finalize: FinalizeError,
    claim: ClaimError,
    mutation: MutationError,
    page: PageError,
    schema: SchemaError,
)
    requires
        database_code(source) is None,
        call_ensures(EnqueueError::sql, (operation, source), enqueue),
        call_ensures(ImportError::sql, (operation, source), import),
        call_ensures(FinalizeError::sql, (operation, source), finalize),
        call_ensures(ClaimError::sql, (operation, source), claim),
        call_ensures(MutationError::sql, (operation, source), mutation),
        call_ensures(PageError::sql, (operation, source), page),
        call_ensures(SchemaError::sql, (operation, source), schema),
    ensures
        enqueue == (EnqueueError::Sql { operation, source }),
        import == (ImportError::Sql { operation, source }),
        finalize == (FinalizeError::Sql { operation, source }),
        claim == (ClaimError::Sql { operation, source }),
        mutation == (MutationError::Sql { operation, source }),
        page == (PageError::Sql { operation, source }),
        schema == (SchemaError::Sql { operation, source }),
{
}

/// Each retryable condition has its own label.
pub proof fn conditions_have_their_labels(kind: TransientKind, label: &'static str)
    requires
        call_ensures(TransientKind::label, (kind,), label),
    ensures
        kind == TransientKind::SerializationFailure ==> label@ == "serialization failure"@,
        kind == TransientKind::DeadlockDetected ==> label@ == "deadlock detected"@,
        kind == TransientKind::StatementOrLockTimeout ==> label@ == "statement or lock timeout"@,
{
}

} // verus!
