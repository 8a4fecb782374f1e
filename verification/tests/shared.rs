//! Tests of what both adapters share.

use dovecote_sqlx::attribute::worker;
use dovecote_sqlx::extension::find_undecodable;
use dovecote_sqlx::imported::ImportedDeliveryState;
use dovecote_sqlx::instant::{
    format_timestamp, parse_timestamp, parsed_instant, renders, Instant, EARLIEST_NANOS,
    LATEST_NANOS,
};
use dovecote_sqlx::json::read_tokens;
use dovecote_sqlx::migration::{
    current_crate_version, CrateVersion, MigrationCompatibility, SCHEMA_VERSION,
};
use dovecote_sqlx::paging::{page_start, SnapshotCursor};
use dovecote_sqlx::snapshot::{require_absent, require_token_width};
use dovecote_sqlx::text::{decimal, parse_i32, signed_decimal};
use dovecote_sqlx::token::{
    fresh_token, judge_draw, Draw, Draws, EntropySource, OsEntropy, Requests,
};
use dovecote_sqlx::transition::{
    claim_assignments, mutation_assignments, Column, MutationKind, Term,
};
use dovecote_sqlx::value::{attempt_count, parse_state, state_name, DeliveryState, RowId};
use dovecote_sqlx::{postgres, sqlite};

const SECOND: i128 = 1_000_000_000;

fn at(nanos: i128) -> Instant {
    Instant::from_unix_nanos(nanos).expect("the instant lies in the calendar")
}

struct FailsEntropy;

impl EntropySource for FailsEntropy {
    fn draws(&self) -> Draws {
        unreachable!("the record of draws is never computed")
    }

    fn requests(&self) -> Requests {
        unreachable!("the record of requests is never computed")
    }

    fn fill(&mut self, _output: &mut [u8]) -> Result<(), getrandom::Error> {
        Err(getrandom::Error::new_custom(1))
    }
}

/// Yields the listed bytes in turn, then zeros.
struct ListedEntropy {
    bytes: Vec<u8>,
}

impl EntropySource for ListedEntropy {
    fn draws(&self) -> Draws {
        unreachable!("the record of draws is never computed")
    }

    fn requests(&self) -> Requests {
        unreachable!("the record of requests is never computed")
    }

    fn fill(&mut self, output: &mut [u8]) -> Result<(), getrandom::Error> {
        let byte = if self.bytes.is_empty() {
            0
        } else {
            self.bytes.remove(0)
        };
        for slot in output.iter_mut() {
            *slot = byte;
        }
        Ok(())
    }
}

#[test]
fn generated_tokens_are_distinct_from_previous_and_batch_values() {
    let mut entropy = OsEntropy::new();
    let first = fresh_token(&None, &Vec::new(), &mut entropy).expect("OS entropy available");
    let second = fresh_token(&Some(first.to_vec()), &vec![first], &mut entropy)
        .expect("OS entropy available");
    assert_ne!(first, second);
}

#[test]
fn lifecycle_generated_tokens_are_distinct_from_previous_and_batch_values() {
    let mut entropy = OsEntropy::new();
    let first = fresh_token(&None, &Vec::new(), &mut entropy).expect("OS entropy available");
    let second = fresh_token(&Some(first.to_vec()), &vec![first], &mut entropy)
        .expect("OS entropy available");
    assert_ne!(first, second);
}

#[test]
fn entropy_failure_is_returned_before_a_token_is_accepted() {
    let mut entropy = FailsEntropy;
    let error = fresh_token(&None, &Vec::new(), &mut entropy).expect_err("injected failure");
    assert_eq!(error.raw_os_error(), None);
}

#[test]
fn stale_draws_are_repeated() {
    let mut entropy = ListedEntropy { bytes: vec![1, 2, 3] };
    let token = fresh_token(&Some(vec![1; 16]), &vec![[2; 16]], &mut entropy)
        .expect("the source does not fail");
    assert_eq!(token, [3; 16]);
    assert!(matches!(
        judge_draw(Ok(()), &[2; 16], &None, &vec![[2; 16]]),
        Draw::Stale
    ));
    assert!(matches!(
        judge_draw(Ok(()), &[2; 16], &Some(vec![2; 15]), &Vec::new()),
        Draw::Fresh
    ));
}

#[test]
fn migrations_are_ordered_and_typed() {
    let shipped = postgres::migration::migrations();
    let legacy = postgres::migration::legacy_migration();
    assert_eq!(shipped[0].version(), SCHEMA_VERSION);
    assert!(!shipped[0].sql().is_empty());
    assert_eq!(
        shipped[0].compatibility().minimum(),
        CrateVersion::new(0, 2, 0)
    );
    assert!(!shipped[0].rolling_compatible());
    assert_eq!(legacy.version(), 1);
    assert!(!legacy.sql().is_empty());
    assert!(shipped[0]
        .compatibility()
        .contains(CrateVersion::new(0, 9, 0)));
    assert!(MigrationCompatibility::try_new(
        CrateVersion::new(1, 0, 0),
        Some(CrateVersion::new(0, 9, 0))
    )
    .is_err());
}

#[test]
fn migration_migrations_are_ordered_and_typed() {
    let shipped = sqlite::migration::migrations();
    assert_eq!(shipped[0].version(), SCHEMA_VERSION);
    assert!(!shipped[0].sql().is_empty());
    assert_eq!(
        shipped[0].compatibility().minimum(),
        CrateVersion::new(0, 2, 0)
    );
    assert!(shipped[0].sql().contains("dovecote_schema"));
    assert!(!shipped[0].rolling_compatible());
    assert!(shipped[0]
        .compatibility()
        .contains(CrateVersion::new(0, 9, 0)));
    assert!(MigrationCompatibility::try_new(
        CrateVersion::new(1, 0, 0),
        Some(CrateVersion::new(0, 9, 0))
    )
    .is_err());
}

#[test]
fn compatibility_ranges_hold_their_bounds() {
    let low = CrateVersion::new(0, 2, 1);
    let high = CrateVersion::new(0, 3, 0);
    let range = MigrationCompatibility::try_new(low, Some(high)).expect("ordered bounds");
    assert_eq!(range.minimum(), low);
    assert_eq!(range.maximum(), Some(high));
    assert!(range.contains(low));
    assert!(range.contains(high));
    assert!(range.contains(CrateVersion::new(0, 2, 9)));
    assert!(!range.contains(CrateVersion::new(0, 2, 0)));
    assert!(!range.contains(CrateVersion::new(0, 3, 1)));
    let error = MigrationCompatibility::try_new(high, Some(low)).expect_err("inverted bounds");
    assert_eq!(
        error.message(),
        "migration compatibility maximum precedes minimum"
    );
    let version = current_crate_version();
    assert_eq!(
        (version.major(), version.minor(), version.patch()),
        (0, 2, 0)
    );
}

#[test]
fn timestamps_read_back_what_was_rendered() {
    let epoch = at(0);
    assert_eq!(format_timestamp(epoch), "1970-01-01T00:00:00Z");
    let fraction = at(SECOND + 120_000_000);
    assert_eq!(format_timestamp(fraction), "1970-01-01T00:00:01.12Z");
    assert!(renders("1970-01-01T00:00:01.12Z", fraction));
    assert!(!renders("1970-01-01T00:00:01.120000Z", fraction));
    let read = parse_timestamp("1970-01-01T01:00:01.120000+01:00").expect("a valid timestamp");
    assert!(read.same(fraction));
    let detail = parse_timestamp("yesterday").expect_err("no timestamp");
    assert!(detail.starts_with("invalid stored timestamp: "));
}

#[test]
fn instants_stay_in_the_calendar() {
    assert!(Instant::from_unix_nanos(LATEST_NANOS).is_some());
    assert!(Instant::from_unix_nanos(LATEST_NANOS + 1).is_none());
    assert!(Instant::from_unix_nanos(EARLIEST_NANOS).is_some());
    assert!(Instant::from_unix_nanos(EARLIEST_NANOS - 1).is_none());
    assert_eq!(
        parsed_instant(LATEST_NANOS + 1).expect_err("outside"),
        "invalid stored timestamp: outside the supported calendar"
    );
    assert!(at(1).not_after(at(1)));
    assert!(!at(2).not_after(at(1)));
    assert_eq!(at(7).unix_nanos(), 7);
}

#[test]
fn imported_states_need_portable_times() {
    assert!(ImportedDeliveryState::Pending.validate().is_ok());
    assert!(ImportedDeliveryState::Unsupported.validate().is_ok());
    let valid = ImportedDeliveryState::Delivered {
        delivered_at: at(1_000),
    };
    assert!(valid.validate().is_ok());
    let fine = ImportedDeliveryState::Delivered { delivered_at: at(1) };
    assert_eq!(
        fine.validate().expect_err("too fine").to_string(),
        "delivered_at: has unsupported precision"
    );
    let early = ImportedDeliveryState::Delivered {
        delivered_at: at(-1_000),
    };
    assert_eq!(
        early.validate().expect_err("too early").to_string(),
        "delivered_at: is outside the supported range"
    );
}

#[test]
fn small_values_are_validated() {
    assert_eq!(RowId::new(7).expect("positive").get(), 7);
    assert_eq!(
        RowId::new(0).expect_err("zero"),
        "row_id: is outside the supported range"
    );
    assert_eq!(attempt_count(0), Ok(0));
    assert_eq!(
        attempt_count(-1).expect_err("negative"),
        "attempts: is outside the supported range"
    );
    for state in [
        DeliveryState::Pending,
        DeliveryState::Claimed,
        DeliveryState::Delivered,
        DeliveryState::Quarantined,
    ] {
        assert_eq!(parse_state(state_name(state)), Ok(state));
    }
    assert_eq!(
        parse_state("lo\"st").expect_err("unknown"),
        "unknown delivery state \"lo\\\"st\""
    );
    assert_eq!(worker("builder-1").expect("valid worker").as_str(), "builder-1");
    assert!(worker("").is_err());
    assert!(worker(&"w".repeat(255)).is_ok());
    assert!(worker(&"w".repeat(256)).is_err());
}

#[test]
fn numbers_are_written_in_decimal() {
    assert_eq!(decimal(0), "0");
    assert_eq!(decimal(u64::MAX), "18446744073709551615");
    assert_eq!(signed_decimal(-15), "-15");
    assert_eq!(signed_decimal(i64::MIN), "-9223372036854775808");
    assert_eq!(signed_decimal(i64::MAX), "9223372036854775807");
    assert_eq!(parse_i32("+5"), Some(5));
    assert_eq!(parse_i32("-2147483648"), Some(i32::MIN));
    assert_eq!(parse_i32("2147483648"), None);
    assert_eq!(parse_i32("5 "), None);
}

#[test]
fn delivery_columns_are_present_or_absent() {
    assert_eq!(require_absent::<i64>("pending claim expiry", &None), Ok(()));
    assert_eq!(
        require_absent("pending claim expiry", &Some(1)),
        Err("pending claim expiry must be NULL for its delivery state".to_owned())
    );
    assert_eq!(require_token_width(&Some(vec![0; 16])), Ok(()));
    assert_eq!(
        require_token_width(&Some(vec![0; 15])),
        Err("claimed delivery has an invalid claim token width: 15".to_owned())
    );
    assert_eq!(
        require_token_width(&None),
        Err("claimed delivery has no claim token".to_owned())
    );
}

#[test]
fn exports_end_with_their_last_row() {
    let empty = SnapshotCursor::begin(None).expect("nothing to export");
    assert!(empty.is_exhausted());
    assert!(empty.next_bounds().is_none());
    assert!(empty.upper_bound().is_none());
    assert!(SnapshotCursor::begin(Some(0)).is_err());

    let mut export = SnapshotCursor::begin(Some(9)).expect("rows to export");
    assert!(!export.is_exhausted());
    let bounds = export.next_bounds().expect("a page to read");
    assert_eq!((bounds.after, bounds.up_to), (0, 9));
    export.advance(&Vec::new(), 10);
    assert!(export.is_exhausted());
    assert!(export.cursor().is_none());
    assert_eq!(page_start(None), 0);
    assert_eq!(page_start(Some(RowId::new(4).expect("positive"))), 4);
}

#[test]
fn transitions_assign_the_columns_of_their_state() {
    let names = |kind: MutationKind| -> Vec<&'static str> {
        mutation_assignments(kind)
            .iter()
            .map(|assignment| assignment.column.name())
            .collect()
    };
    assert_eq!(names(MutationKind::Renew), ["claim_expires_at"]);
    assert_eq!(
        names(MutationKind::Ack),
        [
            "state",
            "claim_token",
            "claimed_by",
            "claim_expires_at",
            "delivered_at"
        ]
    );
    assert_eq!(
        names(MutationKind::Release),
        [
            "state",
            "available_at",
            "claim_token",
            "claimed_by",
            "claim_expires_at"
        ]
    );
    let retry = mutation_assignments(MutationKind::Retry);
    assert_eq!(retry[0].term, Term::State(DeliveryState::Pending));
    assert_eq!(retry[5].column, Column::LastFailureCode);
    assert_eq!(retry[6].term, Term::FailureDetail);
    let quarantine = mutation_assignments(MutationKind::Quarantine);
    assert_eq!(quarantine[5].term, Term::Reason);
    let claim = claim_assignments();
    assert_eq!(claim[0].term, Term::State(DeliveryState::Claimed));
    assert_eq!(claim.len(), 5);
}

#[test]
fn identity_boundary_accepts_2048_bytes_and_rejects_2049() {
    let id = dovecote::EventId::new("i".repeat(1_024)).unwrap();
    let source = dovecote::EventSource::new("s".repeat(1_024)).unwrap();
    assert!(dovecote::NewEvent::new(
        dovecote::StreamName::new("audit").unwrap(),
        id,
        source,
        dovecote::EventType::new("com.example.boundary").unwrap(),
    )
    .is_ok());
    assert!(dovecote::NewEvent::new(
        dovecote::StreamName::new("audit").unwrap(),
        dovecote::EventId::new("i".repeat(1_024)).unwrap(),
        dovecote::EventSource::new("s".repeat(1_025)).unwrap(),
        dovecote::EventType::new("com.example.boundary").unwrap(),
    )
    .is_err());
}

#[test]
fn tenant_ids_are_exact_bounded_values() {
    let tenant = dovecote::TenantId::new("School-A").expect("valid tenant");
    assert_eq!(tenant.as_str(), "School-A");
    assert_ne!(
        tenant,
        dovecote::TenantId::new("school-a").expect("valid tenant")
    );
    assert!(dovecote::TenantId::new("").is_err());
    assert!(dovecote::TenantId::new("line\nbreak").is_err());
    assert!(dovecote::TenantId::new("x".repeat(dovecote::MAX_TENANT_ID_BYTES + 1)).is_err());
}

#[test]
fn migration_import_state_rejects_submicrosecond_delivery_time() {
    let invalid = time::OffsetDateTime::UNIX_EPOCH
        .replace_nanosecond(1)
        .expect("valid nanosecond");
    assert!(dovecote::ImportedDeliveryState::delivered(invalid).is_err());
    let imported = ImportedDeliveryState::Delivered {
        delivered_at: at(invalid.unix_timestamp_nanos()),
    };
    assert!(imported.validate().is_err());
}

fn is_truthy(value: &str) -> bool {
    matches!(value.trim(), "1" | "true" | "yes")
}

#[test]
fn environment_flags_use_explicit_truth_values() {
    for value in ["1", "true", "yes"] {
        assert!(is_truthy(value), "expected {value:?} to be truthy");
    }

    for value in ["0", "false", "no", "", "on", "TRUE", " YES "] {
        assert!(!is_truthy(value), "expected {value:?} to be false");
    }
}

/// Yields the same bytes twice, then fails.
struct WearyEntropy {
    draws_made: u32,
    all_blank: bool,
}

impl EntropySource for WearyEntropy {
    fn draws(&self) -> Draws {
        unreachable!("the record of draws is never computed")
    }

    fn requests(&self) -> Requests {
        unreachable!("the record of requests is never computed")
    }

    fn fill(&mut self, output: &mut [u8]) -> Result<(), getrandom::Error> {
        self.draws_made += 1;
        self.all_blank &= output == [0u8; 16].as_slice();
        if self.draws_made > 2 {
            return Err(getrandom::Error::new_custom(7));
        }
        for slot in output.iter_mut() {
            *slot = 9;
        }
        Ok(())
    }
}

#[test]
fn stale_draws_are_followed_by_more_until_a_token_or_a_failure() {
    let mut weary = WearyEntropy { draws_made: 0, all_blank: true };
    let error = fresh_token(&Some(vec![9; 16]), &Vec::new(), &mut weary).expect_err("a failure");
    assert_eq!(error, getrandom::Error::new_custom(7));
    assert_eq!(weary.draws_made, 3);
    assert!(weary.all_blank, "every draw is made into a blank buffer");

    let mut fresh = WearyEntropy { draws_made: 0, all_blank: true };
    let token = fresh_token(&Some(vec![8; 16]), &vec![[7; 16]], &mut fresh).expect("a token");
    assert_eq!(token, [9; 16]);
    assert_eq!(fresh.draws_made, 1);
}

#[test]
fn json_tokens_undo_escapes() {
    let shown = |text: &str| -> Vec<String> {
        read_tokens(&text.chars().collect())
            .iter()
            .map(|token| format!("{token:?}"))
            .collect()
    };
    assert_eq!(
        shown("{\"a\\u0062\" : [1]}"),
        ["Open", "Text(\"ab\")", "Colon", "Open", "Other", "Close", "Close"]
    );
    assert_eq!(
        shown("\"\\\"\\\\\\/\\b\\f\\n\\r\\t\\ud83d\\ude00\\u00E9\""),
        [format!("Text({:?})", "\"\\/\u{8}\u{c}\n\r\t\u{1f600}\u{e9}")]
    );
    assert_eq!(shown("\"\\ud83d\\u0041\""), ["Text(\"\u{fffd}A\")"]);
    assert_eq!(shown("\"open"), ["Text(\"open\")"]);
    assert!(shown(" \n\t\r").is_empty());
}

#[test]
fn only_timestamps_are_held_to_the_calendar() {
    assert_eq!(find_undecodable("{}"), None);
    assert_eq!(find_undecodable("not json"), None);
    let nested = "{\"x\":{\"type\":\"timestamp\",\"value\":[\"0000-01-01T00:00:00+00:01\"]}}";
    assert_eq!(find_undecodable(nested), None);
    let apart = "{\"x\":{\"type\":\"timestamp\"},\"y\":{\"value\":\"0000-01-01T00:00:00+00:01\"}}";
    assert_eq!(find_undecodable(apart), None);
}
