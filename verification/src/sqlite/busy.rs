//! Bounded waiting for SQLite's single writer lock.

use crate::sql_error::{protocol_error, protocol_message};
use crate::sqlite::error::{busy_failure, is_busy, ClaimError, EnqueueError, MutationError};
use crate::text::{decimal, decimal_text, signed_decimal, signed_text};
use std::time::Duration;
use vstd::prelude::*;

verus! {

/// The length of a duration in nanoseconds.
pub uninterp spec fn nanoseconds(value: Duration) -> nat;

/// `std::time::Duration::as_nanos`: the length in nanoseconds. It depends on the
/// duration alone.
pub assume_specification[ Duration::as_nanos ](value: &Duration) -> (nanos: u128)
    ensures
        nanos == nanoseconds(*value),
;

/// `std::time::Duration::from_secs`: a duration of that many whole seconds.
pub assume_specification[ Duration::from_secs ](seconds: u64) -> (value: Duration)
    ensures
        nanoseconds(value) == seconds * 1_000_000_000,
;

/// Default number of whole-operation retries after each configured busy timeout.
pub const DEFAULT_BUSY_RETRIES: u32 = 3;

/// Default per-connection wait before SQLite reports that it is busy: five
/// seconds.
pub fn default_busy_timeout() -> (timeout: Duration)
    ensures
        nanoseconds(timeout) == 5_000_000_000,
{
    Duration::from_secs(5)
}

/// Bounded busy handling for SQLite's single-writer lock.
#[derive(Clone, Copy, Debug, PartialEq, Eq)]
pub struct BusyConfig {
    timeout: Duration,
    retries: u32,
}

/// The mathematical content of a [`BusyConfig`].
pub ghost struct BusyView {
    pub timeout: Duration,
    pub retries: int,
}

impl View for BusyConfig {
    type V = BusyView;

    closed spec fn view(&self) -> BusyView {
        BusyView { timeout: self.timeout, retries: self.retries as int }
    }
}

impl BusyConfig {
    /// A policy with a finite wait per lock and at most `retries` immediate
    /// retries of the whole operation. One operation waits at most
    /// `(retries + 1) * timeout` for locks.
    pub fn new(timeout: Duration, retries: u32) -> (config: BusyConfig)
        ensures
            config@ == (BusyView { timeout, retries: retries as int }),
    {
        BusyConfig { timeout, retries }
    }

    /// A policy with the default wait per lock.
    pub fn with_retries(retries: u32) -> (config: BusyConfig)
        ensures
            nanoseconds(config@.timeout) == 5_000_000_000,
            config@.retries == retries,
    {
        BusyConfig::new(default_busy_timeout(), retries)
    }

    /// The longest wait for one lock.
    pub fn timeout(self) -> (timeout: Duration)
        ensures
            timeout == self@.timeout,
    {
        self.timeout
    }

    /// How often a whole operation is retried after the first wait.
    pub fn retries(self) -> (retries: u32)
        ensures
            retries == self@.retries,
    {
        self.retries
    }
}

impl Default for BusyConfig {
    fn default() -> (config: BusyConfig)
        ensures
            nanoseconds(config@.timeout) == 5_000_000_000,
            config@.retries == DEFAULT_BUSY_RETRIES,
    {
        BusyConfig::new(default_busy_timeout(), DEFAULT_BUSY_RETRIES)
    }
}

/// A duration of that many nanoseconds in whole milliseconds, or why it has no
/// such form.
pub open spec fn whole_milliseconds(nanos: nat) -> Result<int, Seq<char>> {
    if nanos % 1_000_000 != 0 {
        Err("duration must be an exact whole number of milliseconds"@)
    } else if nanos / 1_000_000 > i64::MAX {
        Err("duration exceeds SQLite integer range"@)
    } else {
        Ok((nanos / 1_000_000) as int)
    }
}

/// Converts nanoseconds to whole milliseconds.
pub fn milliseconds_of(nanos: u128) -> (result: Result<i64, String>)
    ensures
        match result {
            Ok(milliseconds) => whole_milliseconds(nanos as nat) == Ok::<int, Seq<char>>(
                milliseconds as int,
            ),
            Err(detail) => whole_milliseconds(nanos as nat) == Err::<int, Seq<char>>(detail@),
        },
{
    if nanos % 1_000_000 != 0 {
        return Err("duration must be an exact whole number of milliseconds".to_owned());
    }
    let milliseconds: u128 = nanos / 1_000_000;
    if milliseconds > i64::MAX as u128 {
        return Err("duration exceeds SQLite integer range".to_owned());
    }
    Ok(milliseconds as i64)
}

/// Converts a duration to whole milliseconds.
pub fn checked_milliseconds(value: Duration) -> (result: Result<i64, String>)
    ensures
        match result {
            Ok(milliseconds) => whole_milliseconds(nanoseconds(value)) == Ok::<int, Seq<char>>(
                milliseconds as int,
            ),
            Err(detail) => whole_milliseconds(nanoseconds(value)) == Err::<int, Seq<char>>(detail@),
        },
{
    milliseconds_of(value.as_nanos())
}

/// A busy timeout in milliseconds, or why SQLite cannot hold it.
pub open spec fn timeout_milliseconds(nanos: nat) -> Result<int, Seq<char>> {
    match whole_milliseconds(nanos) {
        Err(detail) => Err(detail),
        Ok(milliseconds) => if milliseconds > i32::MAX {
            Err("busy timeout exceeds SQLite's signed 32-bit millisecond range"@)
        } else {
            Ok(milliseconds)
        },
    }
}

/// Converts a busy timeout to milliseconds.
pub fn checked_busy_timeout(value: Duration) -> (result: Result<i64, String>)
    ensures
        match result {
            Ok(milliseconds) => {
                &&& timeout_milliseconds(nanoseconds(value)) == Ok::<int, Seq<char>>(
                    milliseconds as int,
                )
                &&& 0 <= milliseconds <= i32::MAX
            },
            Err(detail) => timeout_milliseconds(nanoseconds(value)) == Err::<int, Seq<char>>(
                detail@,
            ),
        },
{
    match checked_milliseconds(value) {
        Err(detail) => Err(detail),
        Ok(milliseconds) => if milliseconds > i32::MAX as i64 {
            Err("busy timeout exceeds SQLite's signed 32-bit millisecond range".to_owned())
        } else {
            Ok(milliseconds)
        },
    }
}

/// Checks that SQLite can hold the timeout of a policy.
pub fn validate_busy_config(busy: BusyConfig) -> (result: Result<(), String>)
    ensures
        match result {
            Ok(()) => timeout_milliseconds(nanoseconds(busy@.timeout)) is Ok,
            Err(detail) => timeout_milliseconds(nanoseconds(busy@.timeout)) == Err::<
                int,
                Seq<char>,
            >(detail@),
        },
{
    match checked_busy_timeout(busy.timeout()) {
        Ok(_) => Ok(()),
        Err(detail) => Err(detail),
    }
}

/// Accepts the foreign-key setting that was just installed.
pub fn foreign_keys_installed(enabled: i64) -> (result: Result<(), sqlx::Error>)
    ensures
        match result {
            Ok(()) => enabled == 1,
            Err(source) => enabled != 1 && protocol_message(source) == Some(
                "SQLite foreign-key enforcement could not be enabled"@,
            ),
        },
{
    if enabled != 1 {
        return Err(protocol_error("SQLite foreign-key enforcement could not be enabled"));
    }
    Ok(())
}

/// The milliseconds that the timeout statement of a policy installs, and the
/// statement.
pub fn busy_timeout_statement(busy: BusyConfig) -> (result: Result<(i64, String), sqlx::Error>)
    ensures
        match result {
            Ok((milliseconds, statement)) => {
                &&& timeout_milliseconds(nanoseconds(busy@.timeout)) == Ok::<int, Seq<char>>(
                    milliseconds as int,
                )
                &&& statement@ == "PRAGMA busy_timeout = "@ + decimal_text(milliseconds as nat)
            },
            Err(source) => match timeout_milliseconds(nanoseconds(busy@.timeout)) {
                Err(detail) => protocol_message(source) == Some(
                    "invalid busy configuration: "@ + detail,
                ),
                Ok(_) => false,
            },
        },
{
    match checked_busy_timeout(busy.timeout()) {
        Ok(milliseconds) => {
            let statement = "PRAGMA busy_timeout = ".to_owned().concat(
                decimal(milliseconds as u64).as_str(),
            );
            Ok((milliseconds, statement))
        },
        Err(detail) => Err(
            protocol_error(
                "invalid busy configuration: ".to_owned().concat(detail.as_str()).as_str(),
            ),
        ),
    }
}

/// How a timeout is reported that was not installed as requested.
pub open spec fn installation_mismatch(requested: int, installed: int) -> Seq<char> {
    "SQLite busy timeout installation mismatch: requested "@ + signed_text(requested)
        + ", installed "@ + signed_text(installed)
}

/// Accepts the busy timeout that was just installed.
pub fn busy_timeout_installed(requested: i64, installed: i64) -> (result: Result<(), sqlx::Error>)
    ensures
        match result {
            Ok(()) => installed == requested,
            Err(source) => installed != requested && protocol_message(source) == Some(
                installation_mismatch(requested as int, installed as int),
            ),
        },
{
    if installed != requested {
        let detail = "SQLite busy timeout installation mismatch: requested ".to_owned().concat(
            signed_decimal(requested).as_str(),
        ).concat(", installed ").concat(signed_decimal(installed).as_str());
        return Err(protocol_error(detail.as_str()));
    }
    Ok(())
}

/// Decides on a failed start of a write transaction: a busy database is tried
/// again while the policy allows. The result counts the retries.
pub fn after_failed_begin(busy: BusyConfig, tries: u32, source: sqlx::Error) -> (result: Result<
    u32,
    EnqueueError,
>)
    ensures
        if busy_failure(source) && tries < busy@.retries {
            result == Ok::<u32, EnqueueError>((tries + 1) as u32)
        } else {
            result == Err::<u32, EnqueueError>(
                EnqueueError::failed("begin write transaction", source),
            )
        },
{
    if is_busy(&source) && tries < busy.retries() {
        Ok(tries + 1)
    } else {
        Err(EnqueueError::sql("begin write transaction", source))
    }
}

/// Decides on a failed claim: a busy database is tried again while the policy
/// allows, and is reported as exhausted afterwards.
pub fn after_failed_claim(busy: BusyConfig, tries: u32, error: ClaimError) -> (result: Result<
    u32,
    ClaimError,
>)
    ensures
        if error.busy_cause() is None {
            result == Err::<u32, ClaimError>(error)
        } else if tries < busy@.retries {
            result == Ok::<u32, ClaimError>((tries + 1) as u32)
        } else {
            result == Err::<u32, ClaimError>(error.exhausted())
        },
{
    if error.busy_source().is_none() {
        Err(error)
    } else if tries < busy.retries() {
        Ok(tries + 1)
    } else {
        Err(error.into_busy_exhausted())
    }
}

/// Decides on a failed mutation: a busy database is tried again while the policy
/// allows, and is reported as exhausted afterwards.
pub fn after_failed_mutation(busy: BusyConfig, tries: u32, error: MutationError) -> (result: Result<
    u32,
    MutationError,
>)
    ensures
        if !error.is_busy_failure() {
            result == Err::<u32, MutationError>(error)
        } else if tries < busy@.retries {
            result == Ok::<u32, MutationError>((tries + 1) as u32)
        } else {
            result == Err::<u32, MutationError>(error.exhausted())
        },
{
    if !error.is_busy() {
        Err(error)
    } else if tries < busy.retries() {
        Ok(tries + 1)
    } else {
        Err(error.into_busy_exhausted())
    }
}

/// Whether each entry of a retry history is one that a policy allows after the
/// one before, starting from none.
pub open spec fn is_retry_history(tries: Seq<int>, retries: int) -> bool {
    &&& tries.len() > 0 ==> tries[0] == 0
    &&& forall|i: int|
        0 < i < tries.len() ==> tries[i - 1] < retries && #[trigger] tries[i] == tries[i - 1] + 1
}

/// A policy runs an operation at most once more often than it allows retries.
pub proof fn attempts_are_bounded(tries: Seq<int>, retries: int)
    requires
        0 <= retries,
        is_retry_history(tries, retries),
    ensures
        tries.len() <= retries + 1,
{
    lemma_history_counts(tries, retries, tries.len() as int);
    if tries.len() > 1 {
        assert(tries[tries.len() - 1] == tries[tries.len() - 2] + 1);
    }
}

proof fn lemma_history_counts(tries: Seq<int>, retries: int, count: int)
    requires
        is_retry_history(tries, retries),
        0 <= count <= tries.len(),
    ensures
        forall|i: int| 0 <= i < count ==> #[trigger] tries[i] == i,
    decreases count,
{
    if count > 0 {
        lemma_history_counts(tries, retries, count - 1);
    }
}

/// A claim that found SQLite busy or locked is tried again while the policy has a
/// retry left, and is reported as exhausted after the last one, with the operation
/// and the failure that it ended in. A claim that failed otherwise is never tried
/// again, and its error is reported as it is.
pub proof fn busy_claims_are_retried_and_then_exhausted(
    busy: BusyConfig,
    tries: u32,
    operation: &'static str,
    source: sqlx::Error,
    error: ClaimError,
    result: Result<u32, ClaimError>,
)
    requires
        call_ensures(after_failed_claim, (busy, tries, error), result),
    ensures
        error == (ClaimError::Sql { operation, source }) && busy_failure(source) ==> result == (
        if tries < busy@.retries {
            Ok::<u32, ClaimError>((tries + 1) as u32)
        } else {
            Err::<u32, ClaimError>(ClaimError::BusyExhausted { operation, source })
        }),
        error == (ClaimError::Sql { operation, source }) && !busy_failure(source) ==> result == Err::<
            u32,
            ClaimError,
        >(error),
        error !is Sql && error !is BusyExhausted ==> result == Err::<u32, ClaimError>(error),
        result is Ok ==> result->Ok_0 == tries + 1 && tries < busy@.retries,
{
}

/// A mutation that found SQLite busy or locked is tried again while the policy has
/// a retry left, and is reported as exhausted after the last one, with the
/// operation and the failure that it ended in. A mutation that failed otherwise is
/// never tried again, and its error is reported as it is.
pub proof fn busy_mutations_are_retried_and_then_exhausted(
    busy: BusyConfig,
    tries: u32,
    operation: &'static str,
    source: sqlx::Error,
    error: MutationError,
    result: Result<u32, MutationError>,
)
    requires
        call_ensures(after_failed_mutation, (busy, tries, error), result),
    ensures
        error == (MutationError::Sql { operation, source }) && busy_failure(source) ==> result == (
        if tries < busy@.retries {
            Ok::<u32, MutationError>((tries + 1) as u32)
        } else {
            Err::<u32, MutationError>(MutationError::BusyExhausted { operation, source })
        }),
        error == (MutationError::Sql { operation, source }) && !busy_failure(source) ==> result
            == Err::<u32, MutationError>(error),
        error !is Sql ==> result == Err::<u32, MutationError>(error),
        result is Ok ==> result->Ok_0 == tries + 1 && tries < busy@.retries,
{
}

/// A write transaction that found SQLite busy or locked at its start is tried
/// again while the policy has a retry left, and is reported as exhausted after the
/// last one. One that failed otherwise is never tried again.
pub proof fn busy_starts_are_retried_and_then_exhausted(
    busy: BusyConfig,
    tries: u32,
    source: sqlx::Error,
    result: Result<u32, EnqueueError>,
)
    requires
        call_ensures(after_failed_begin, (busy, tries, source), result),
    ensures
        busy_failure(source) ==> result == (if tries < busy@.retries {
            Ok::<u32, EnqueueError>((tries + 1) as u32)
        } else {
            Err::<u32, EnqueueError>(
                EnqueueError::BusyExhausted { operation: "begin write transaction", source },
            )
        }),
        !busy_failure(source) ==> result == Err::<u32, EnqueueError>(
            EnqueueError::Sql { operation: "begin write transaction", source },
        ),
{
}

/// Milliseconds denote the same time as the nanoseconds that they came from, and
/// every time of whole milliseconds that SQLite can hold has them.
pub proof fn milliseconds_denote_the_duration(nanos: u128, result: Result<i64, String>)
    requires
        call_ensures(milliseconds_of, (nanos,), result),
    ensures
        result is Ok ==> result->Ok_0 * 1_000_000 == nanos,
        result is Ok <==> nanos % 1_000_000 == 0 && nanos <= 9_223_372_036_854_775_807_000_000,
{
}

/// A policy is accepted exactly if its wait is a whole number of milliseconds that
/// fits SQLite's signed 32-bit limit, and the statement then installs that wait.
pub proof fn accepted_policies_install_their_wait(
    busy: BusyConfig,
    checked: Result<(), String>,
    statement: Result<(i64, String), sqlx::Error>,
)
    requires
        call_ensures(validate_busy_config, (busy,), checked),
        call_ensures(busy_timeout_statement, (busy,), statement),
    ensures
        checked is Ok <==> nanoseconds(busy@.timeout) % 1_000_000 == 0 && nanoseconds(
            busy@.timeout,
        ) <= 2_147_483_647_000_000,
        statement is Ok <==> checked is Ok,
        statement is Ok ==> statement->Ok_0.0 * 1_000_000 == nanoseconds(busy@.timeout)
            && statement->Ok_0.1@ == "PRAGMA busy_timeout = "@ + signed_text(
            statement->Ok_0.0 as int,
        ),
{
}

/// What was installed is accepted exactly if it is what was asked for: enforced
/// foreign keys, and a timeout of the requested length. A configuration without a
/// timeout waits for five seconds.
pub proof fn only_requested_settings_are_accepted(
    enabled: i64,
    enforced: Result<(), sqlx::Error>,
    requested: i64,
    installed: i64,
    waits: Result<(), sqlx::Error>,
    retries: u32,
    config: BusyConfig,
    timeout: Duration,
)
    requires
        call_ensures(foreign_keys_installed, (enabled,), enforced),
        call_ensures(busy_timeout_installed, (requested, installed), waits),
        call_ensures(BusyConfig::with_retries, (retries,), config),
        call_ensures(default_busy_timeout, (), timeout),
    ensures
        enforced is Ok <==> enabled == 1,
        waits is Ok <==> installed == requested,
        nanoseconds(timeout) == 5 * 1_000_000_000,
        nanoseconds(config@.timeout) == 5 * 1_000_000_000,
        config@.retries == retries,
{
}

/// A wait that is no whole number of milliseconds, or too long for SQLite, is refused
/// for that. So are settings that were not installed as requested.
pub proof fn refused_settings_are_told(
    wait: Duration,
    checked: Result<i64, String>,
    timed: Result<i64, String>,
    enabled: i64,
    enforced: Result<(), sqlx::Error>,
    requested: i64,
    installed: i64,
    waits: Result<(), sqlx::Error>,
)
    requires
        call_ensures(checked_milliseconds, (wait,), checked),
        call_ensures(checked_busy_timeout, (wait,), timed),
        call_ensures(foreign_keys_installed, (enabled,), enforced),
        call_ensures(busy_timeout_installed, (requested, installed), waits),
    ensures
        nanoseconds(wait) % 1_000_000 != 0 ==> (checked matches Err(detail) && detail@
            == "duration must be an exact whole number of milliseconds"@),
        nanoseconds(wait) % 1_000_000 != 0 ==> (timed matches Err(detail) && detail@
            == "duration must be an exact whole number of milliseconds"@),
        nanoseconds(wait) % 1_000_000 == 0 && nanoseconds(wait) / 1_000_000 > i64::MAX ==> (
        checked matches Err(detail) && detail@ == "duration exceeds SQLite integer range"@),
        nanoseconds(wait) % 1_000_000 == 0 && i32::MAX < nanoseconds(wait) / 1_000_000 <= i64::MAX
            ==> (timed matches Err(detail) && detail@
            == "busy timeout exceeds SQLite's signed 32-bit millisecond range"@),
        enforced matches Err(source) ==> protocol_message(source) == Some(
            "SQLite foreign-key enforcement could not be enabled"@,
        ),
        waits matches Err(source) ==> protocol_message(source) == Some(
            "SQLite busy timeout installation mismatch: requested "@ + signed_text(
                requested as int,
            ) + ", installed "@ + signed_text(installed as int),
        ),
{
}

/// Without a policy of its own an operation waits for five seconds and is retried three
/// times.
pub proof fn the_default_policy(config: BusyConfig)
    requires
        call_ensures(BusyConfig::default, (), config),
    ensures
        nanoseconds(config@.timeout) == 5 * 1_000_000_000,
        config@.retries == 3,
{
}

} // verus!
