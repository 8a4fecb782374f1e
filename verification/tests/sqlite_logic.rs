//! Tests of the SQLite adapter's logic.

use std::time::Duration;

use dovecote_sqlx::attribute::worker;
use dovecote_sqlx::event::{event_columns, EventColumns, EventContent, EventData};
use dovecote_sqlx::imported::{
    EnqueueOutcome, FinalizeOutcome, ImportOutcome, ImportedDeliveryState,
};
use dovecote_sqlx::instant::Instant;
use dovecote_sqlx::sqlite::artifacts::V1_TENANT_ACTIVATE_SQL;
use dovecote_sqlx::sqlite::busy::{
    after_failed_begin, after_failed_claim, after_failed_mutation, busy_timeout_installed,
    busy_timeout_statement, checked_busy_timeout, checked_milliseconds, default_busy_timeout,
    foreign_keys_installed, validate_busy_config, BusyConfig, DEFAULT_BUSY_RETRIES,
};
use dovecote_sqlx::sqlite::delivery_state::{
    canonical, canonical_pending, matches_import, DeliveryRow,
};
use dovecote_sqlx::sqlite::enqueue::{
    occurrence_text, DomainTable, EnqueueStep, ExistingEvent, InsertedEvent,
};
use dovecote_sqlx::sqlite::error::{
    is_busy, ClaimError, EnqueueError, FinalizeError, ImportError, MutationError, PageError,
    SchemaError, TransientKind,
};
use dovecote_sqlx::sqlite::finalize::FinalizeStep;
use dovecote_sqlx::sqlite::hydrate::{hydrate_event, DurableRow};
use dovecote_sqlx::sqlite::import::ImportStep;
use dovecote_sqlx::sqlite::lifecycle::{
    begin_claim, complete_claim, prepare_claims, ClaimCandidate,
};
use dovecote_sqlx::sqlite::lifecycle_mutation::{
    begin_mutation, classify_delivery, committed, DeliveryForMutation, Mutation, MutationStep,
    PreparedMutation,
};
use dovecote_sqlx::sqlite::migration::{
    current_migration, legacy_migration, migration_is_usable, migrations,
};
use dovecote_sqlx::sqlite::page::{begin_export, next_turn, page_rows, PagerTurn};
use dovecote_sqlx::sqlite::schema::catalog::{
    compare_collations, compare_columns, compare_foreign_key, compare_index_columns,
    compare_listed, compare_markers, compare_objects, compare_tables, delivery_columns,
    Collations, ForeignKeyRow, IndexRow, SchemaMarker, SchemaObject, TableColumn, TableSource,
};
use dovecote_sqlx::sqlite::schema::check::{CatalogReply, SchemaCheck, SchemaIndex};
use dovecote_sqlx::sqlite::schema::normalization::normalize_sql;
use dovecote_sqlx::sqlite::schema::source::{expected_index_source, expected_table_source};
use dovecote_sqlx::sqlite::statement::{
    claim_parameters, claim_statement, finalize_parameters, finalize_statement,
    mutation_parameters, mutation_statement, Parameter,
};
use dovecote_sqlx::token::OsEntropy;
use dovecote_sqlx::transition::MutationKind;
use dovecote_sqlx::value::{DeliveryState, RowId};

const SECOND: i128 = 1_000_000_000;

fn at(nanos: i128) -> Instant {
    Instant::from_unix_nanos(nanos).expect("the instant lies in the calendar")
}

fn row(number: i64) -> RowId {
    RowId::new(number).expect("positive row")
}

fn failure() -> sqlx::Error {
    sqlx::Error::PoolClosed
}

fn content() -> EventContent {
    EventContent {
        stream: "audit".to_owned(),
        event_id: "event-1".to_owned(),
        source: "https://example.test/source".to_owned(),
        event_type: "com.example.created".to_owned(),
        subject: None,
        time: Some(at(12 * SECOND)),
        datacontenttype: Some("application/octet-stream".to_owned()),
        dataschema: None,
        partitionkey: None,
        extensions: "{}".to_owned(),
        data: Some(EventData::Binary(vec![0, 159])),
    }
}

fn columns() -> EventColumns {
    event_columns(&content())
}

#[test]
fn tenant_baseline_retains_v1_durable_bounds() {
    let shipped = migrations();
    let sql = shipped[0].sql();
    for bound in [
        "stream AS BLOB)) <= 255",
        "event_id AS BLOB)) <= 1024",
        "source AS BLOB)) <= 2048",
        "event_type AS BLOB)) <= 1024",
        "subject AS BLOB)) <= 2048",
        "datacontenttype AS BLOB)) <= 255",
        "dataschema AS BLOB)) <= 2048",
        "partitionkey AS BLOB)) <= 255",
        "claimed_by AS BLOB)) <= 255",
        "last_failure_code AS BLOB)) <= 128",
        "last_failure_detail AS BLOB)) <= 2048",
        "quarantine_reason AS BLOB)) <= 2048",
    ] {
        assert!(sql.contains(bound), "missing durable bound: {bound}");
    }
    assert!(sql.contains("source AS BLOB)) + length(CAST(event_id AS BLOB)) <= 2048"));
}

#[test]
fn tenant_activation_is_a_transactional_rebuild() {
    assert!(V1_TENANT_ACTIVATE_SQL.contains("BEGIN IMMEDIATE"));
    assert!(V1_TENANT_ACTIVATE_SQL.contains("CREATE TEMP TABLE"));
    assert!(V1_TENANT_ACTIVATE_SQL.contains("CREATE TABLE dovecote_events_v2"));
    assert!(V1_TENANT_ACTIVATE_SQL.contains("ALTER TABLE dovecote_events_v2 RENAME"));
    assert!(V1_TENANT_ACTIVATE_SQL.contains("LEFT JOIN dovecote_events AS e"));
    assert!(V1_TENANT_ACTIVATE_SQL.contains("e.row_id IS NULL OR d.tenant_id <> e.tenant_id"));
    assert!(V1_TENANT_ACTIVATE_SQL.contains("COMMIT"));
    assert!(V1_TENANT_ACTIVATE_SQL.contains("INSERT INTO dovecote_deliveries_v2"));
}

#[test]
fn shipped_migrations_are_usable() {
    let migration = current_migration().expect("shipped");
    assert_eq!(migration.version(), 2);
    assert_eq!(migration_is_usable(migration), Ok(()));
    assert_eq!(legacy_migration().version(), 1);
}

#[test]
fn busy_policies_are_bounded() {
    let policy = BusyConfig::default();
    assert_eq!(policy.timeout(), Duration::from_secs(5));
    assert_eq!(policy.retries(), DEFAULT_BUSY_RETRIES);
    assert_eq!(policy, BusyConfig::with_retries(3));
    assert_eq!(policy, BusyConfig::new(default_busy_timeout(), 3));
    assert_eq!(validate_busy_config(policy), Ok(()));

    assert_eq!(checked_milliseconds(Duration::ZERO), Ok(0));
    assert_eq!(checked_milliseconds(Duration::from_millis(1_500)), Ok(1_500));
    assert_eq!(
        checked_milliseconds(Duration::from_micros(1)),
        Err("duration must be an exact whole number of milliseconds".to_owned())
    );
    assert_eq!(
        checked_milliseconds(Duration::from_secs(u64::MAX)),
        Err("duration exceeds SQLite integer range".to_owned())
    );
    assert_eq!(
        checked_busy_timeout(Duration::from_millis(2_147_483_647)),
        Ok(2_147_483_647)
    );
    assert_eq!(
        checked_busy_timeout(Duration::from_millis(2_147_483_648)),
        Err("busy timeout exceeds SQLite's signed 32-bit millisecond range".to_owned())
    );

    let (milliseconds, statement) = busy_timeout_statement(policy).expect("a valid policy");
    assert_eq!(milliseconds, 5_000);
    assert_eq!(statement, "PRAGMA busy_timeout = 5000");
    let invalid = BusyConfig::new(Duration::from_nanos(1), 0);
    assert!(busy_timeout_statement(invalid)
        .expect_err("too fine")
        .to_string()
        .contains(
            "invalid busy configuration: duration must be an exact whole number of milliseconds"
        ));
    assert!(busy_timeout_installed(5_000, 5_000).is_ok());
    assert!(busy_timeout_installed(5_000, -1)
        .expect_err("not installed")
        .to_string()
        .contains(
            "SQLite busy timeout installation mismatch: requested 5000, installed -1"
        ));
    assert!(foreign_keys_installed(1).is_ok());
    assert!(foreign_keys_installed(0)
        .expect_err("not installed")
        .to_string()
        .contains("SQLite foreign-key enforcement could not be enabled"));
}

#[test]
fn only_busy_failures_are_retried() {
    let policy = BusyConfig::with_retries(3);
    assert!(!is_busy(&failure()));
    assert!(matches!(
        after_failed_begin(policy, 0, failure()),
        Err(EnqueueError::Sql {
            operation: "begin write transaction",
            ..
        })
    ));
    assert!(matches!(
        after_failed_claim(policy, 0, ClaimError::sql("claim", failure())),
        Err(ClaimError::Sql { .. })
    ));
    assert!(matches!(
        after_failed_mutation(policy, 0, MutationError::LostClaim),
        Err(MutationError::LostClaim)
    ));
    assert!(matches!(
        ClaimError::sql("claim", failure()).into_busy_exhausted(),
        ClaimError::BusyExhausted {
            operation: "claim",
            ..
        }
    ));
    assert_eq!(TransientKind::BusyExhausted.label(), "SQLite busy timeout exhausted");
}

#[test]
fn normal_forms_keep_string_literals() {
    assert_eq!(
        normalize_sql("CREATE TABLE \"T\" (\n  X TEXT DEFAULT 'A \"b\"'\n)"),
        "createtablet(xtextdefault'A\"b\"')"
    );
    assert_eq!(normalize_sql("\u{130}X"), "i\u{307}x");
}

#[test]
fn definitions_are_found_whole() {
    let migration = "-- a; b\nCREATE TABLE t (a TEXT DEFAULT ');', b INTEGER);\nCREATE INDEX i ON \
                     t (a);\nCREATE UNIQUE INDEX u ON t (b)";
    assert_eq!(
        expected_table_source(migration, "t"),
        Ok("CREATE TABLE t (a TEXT DEFAULT ');', b INTEGER)".to_owned())
    );
    assert_eq!(
        expected_table_source(migration, "other"),
        Err("migration does not define other".to_owned())
    );
    assert_eq!(
        expected_table_source("CREATE TABLE t (a", "t"),
        Err("migration statement for t is unterminated".to_owned())
    );
    assert_eq!(
        expected_index_source(migration, "i"),
        Ok("CREATE INDEX i ON t (a)".to_owned())
    );
    assert_eq!(
        expected_index_source(migration, "u"),
        Err("migration statement for u is unterminated".to_owned())
    );
    assert_eq!(
        expected_index_source(migration, "missing"),
        Err("migration does not define missing".to_owned())
    );
}

fn shown_columns() -> Vec<TableColumn> {
    delivery_columns()
        .iter()
        .map(|spec| TableColumn {
            name: Some(spec.name.to_owned()),
            kind: Some(spec.kind.to_lowercase()),
            primary_key: Some(i64::from(spec.primary_key)),
            not_null: Some(i64::from(spec.not_null)),
        })
        .collect()
}

#[test]
fn catalog_faults_are_worded() {
    let demanded = delivery_columns();
    let table = "dovecote_deliveries";
    assert_eq!(compare_columns(table, &shown_columns(), &demanded), Ok(()));
    let fault = |change: fn(&mut Vec<TableColumn>)| {
        let mut rows = shown_columns();
        change(&mut rows);
        compare_columns(table, &rows, &demanded).expect_err("a fault")
    };
    assert_eq!(
        fault(|rows| rows[2].name = None),
        "required column dovecote_deliveries.state is missing"
    );
    assert_eq!(
        fault(|rows| rows[2].kind = None),
        "column dovecote_deliveries.state has no type"
    );
    assert_eq!(
        fault(|rows| rows[4].kind = Some("TEXT".to_owned())),
        "column dovecote_deliveries.attempts has type TEXT, expected INTEGER"
    );
    assert_eq!(
        fault(|rows| rows[0].primary_key = None),
        "column dovecote_deliveries.event_row_id is not the primary key"
    );
    assert_eq!(
        fault(|rows| rows[1].not_null = Some(0)),
        "column dovecote_deliveries.tenant_id must be NOT NULL"
    );

    let migration = current_migration().expect("shipped");
    let marker = |schema_version: i64| SchemaMarker {
        schema_version,
        minimum_crate_major: 0,
        minimum_crate_minor: 2,
        minimum_crate_patch: 0,
        rolling_compatible: 0,
    };
    assert_eq!(compare_markers(&vec![marker(2)], migration), Ok(()));
    assert_eq!(
        compare_markers(&vec![marker(1)], migration),
        Err("schema marker is incompatible with this adapter".to_owned())
    );
    assert_eq!(
        compare_markers(&vec![marker(2), marker(2)], migration),
        Err("expected exactly one schema marker row, found 2".to_owned())
    );

    let sources = || -> Vec<TableSource> {
        ["dovecote_events", "dovecote_schema", "dovecote_deliveries"]
            .iter()
            .map(|name| TableSource {
                name: (*name).to_owned(),
                sql: expected_table_source(migration.sql(), name).expect("defined"),
            })
            .collect()
    };
    assert_eq!(compare_tables(&sources(), migration), Ok(()));
    let mut missing = sources();
    missing.remove(2);
    assert_eq!(
        compare_tables(&missing, migration),
        Err("required table dovecote_deliveries is missing".to_owned())
    );
    let mut altered = sources();
    altered[0].sql.push_str(" STRICT");
    assert_eq!(
        compare_tables(&altered, migration),
        Err("table dovecote_events definition is incompatible with schema version 2".to_owned())
    );

    assert_eq!(compare_objects(&Vec::new()), Ok(()));
    assert_eq!(
        compare_objects(&vec![SchemaObject {
            object_type: "trigger".to_owned(),
            name: "dovecote_probe".to_owned(),
            table_name: "dovecote_events".to_owned(),
        }]),
        Err("unsupported SQLite schema object trigger dovecote_probe on dovecote_events".to_owned())
    );

    let listed = |unique: i64| {
        vec![IndexRow {
            name: Some("i".to_owned()),
            unique: Some(unique),
        }]
    };
    assert_eq!(compare_listed(&listed(1), "i", true), Ok(()));
    assert_eq!(
        compare_listed(&listed(0), "i", true),
        Err("index i uniqueness is incompatible".to_owned())
    );
    assert_eq!(
        compare_listed(&Vec::new(), "i", true),
        Err("required index i is missing".to_owned())
    );
    let names = vec![Some("a".to_owned()), None, Some("b".to_owned())];
    assert_eq!(compare_index_columns(&names, "i", &vec!["a", "b"]), Ok(()));
    assert_eq!(
        compare_index_columns(&names, "i", &vec!["b", "a"]),
        Err("index i columns are incompatible".to_owned())
    );
}

#[test]
fn identity_collations_and_foreign_keys_are_exact() {
    let collations = |last: &str, keys: Vec<Option<i64>>| Collations {
        keys,
        collations: vec![
            Some("BINARY".to_owned()),
            Some("BINARY".to_owned()),
            Some(last.to_owned()),
            Some("BINARY".to_owned()),
        ],
    };
    let three = || vec![Some(1), Some(1), Some(1), Some(0)];
    assert_eq!(compare_collations(&collations("BINARY", three())), Ok(()));
    assert!(compare_collations(&collations("NOCASE", three())).is_err());
    assert!(compare_collations(&collations("BINARY", vec![Some(1), Some(1)])).is_err());
    assert_eq!(
        compare_collations(&collations("BINARY", vec![Some(1); 4])),
        Err("identity index collation is not BINARY".to_owned())
    );

    let key = |from: &str, to: &str| ForeignKeyRow {
        table: Some("dovecote_events".to_owned()),
        from: Some(from.to_owned()),
        to: Some(to.to_owned()),
    };
    assert_eq!(
        compare_foreign_key(&vec![
            key("tenant_id", "tenant_id"),
            key("event_row_id", "row_id")
        ]),
        Ok(())
    );
    assert_eq!(
        compare_foreign_key(&vec![key("tenant_id", "tenant_id")]),
        Err("delivery foreign key is missing".to_owned())
    );
    assert_eq!(
        compare_foreign_key(&vec![
            key("tenant_id", "tenant_id"),
            key("event_row_id", "tenant_id")
        ]),
        Err("delivery foreign key is incompatible".to_owned())
    );
}

#[test]
fn the_schema_check_asks_in_order() {
    assert_eq!(
        SchemaCheck::Enforcement
            .advance(CatalogReply::Enforcement(Ok(1)))
            .expect("enforced"),
        SchemaCheck::Markers
    );
    let Err(SchemaError::MigrationMismatch { detail }) =
        SchemaCheck::Enforcement.advance(CatalogReply::Enforcement(Ok(0)))
    else {
        panic!("foreign keys are off");
    };
    assert_eq!(detail, "foreign-key enforcement is disabled");
    assert!(matches!(
        SchemaCheck::Violations.advance(CatalogReply::Violations(Err(failure()))),
        Err(SchemaError::Sql {
            operation: "check foreign-key integrity",
            ..
        })
    ));
    let Err(SchemaError::MigrationMismatch { detail }) =
        SchemaCheck::Violations.advance(CatalogReply::Violations(Ok(2)))
    else {
        panic!("rows violate a foreign key");
    };
    assert_eq!(detail, "installed schema contains foreign-key violations");
    assert_eq!(
        SchemaCheck::Violations
            .advance(CatalogReply::Violations(Ok(0)))
            .expect("no violations"),
        SchemaCheck::Accepted
    );
    let Err(SchemaError::MigrationMismatch { detail }) =
        SchemaCheck::IndexDefinition(SchemaIndex::TenantRow)
            .advance(CatalogReply::Definition(Ok(None)))
    else {
        panic!("the index has no definition");
    };
    assert_eq!(detail, "index dovecote_events_tenant_row has no definition");
    assert_eq!(SchemaIndex::Claimable.table(), "dovecote_deliveries");
    assert!(SchemaIndex::Identity.unique());
    assert_eq!(
        SchemaIndex::ExpiredClaims.columns(),
        ["tenant_id", "state", "claim_expires_at", "event_row_id"]
    );
}

#[test]
fn stored_times_are_read_with_the_event() {
    let time = Some("1970-01-01T00:00:12Z".to_owned());
    assert_eq!(occurrence_text(&content()), time);
    let stored = hydrate_event(&columns(), &time).expect("a valid event");
    assert!(stored.content().time.expect("a time").same(at(12 * SECOND)));
    assert!(hydrate_event(&columns(), &Some("noon".to_owned()))
        .expect_err("no time")
        .starts_with("invalid stored timestamp: "));
}

#[test]
fn sqlite_enqueue_needs_the_write_lock() {
    assert!(matches!(
        EnqueueStep::after_write_check(Ok(true)),
        EnqueueStep::CheckEnforcement
    ));
    assert!(matches!(
        EnqueueStep::after_write_check(Ok(false)),
        EnqueueStep::Failed(EnqueueError::WriteTransactionRequired)
    ));
    assert!(matches!(
        EnqueueStep::after_enforcement(Ok(1)),
        EnqueueStep::FindTable(DomainTable::Events)
    ));
    assert!(matches!(
        EnqueueStep::after_enforcement(Ok(0)),
        EnqueueStep::Failed(EnqueueError::MigrationMismatch { .. })
    ));
    assert!(matches!(
        EnqueueStep::after_table(DomainTable::Events, Ok(Some("dovecote_events".to_owned()))),
        EnqueueStep::FindTable(DomainTable::Deliveries)
    ));
    assert!(matches!(
        EnqueueStep::after_table(
            DomainTable::Deliveries,
            Ok(Some("dovecote_deliveries".to_owned()))
        ),
        EnqueueStep::InsertEvent
    ));
    let EnqueueStep::Failed(EnqueueError::MigrationMismatch { detail }) =
        EnqueueStep::after_table(DomainTable::Deliveries, Ok(None))
    else {
        panic!("the table is missing");
    };
    assert_eq!(detail, "dovecote_deliveries is missing");
    assert_eq!(DomainTable::Events.name(), "dovecote_events");
}

fn existing() -> ExistingEvent {
    ExistingEvent {
        row_id: 4,
        columns: columns(),
        occurred_at: Some("1970-01-01T00:00:12Z".to_owned()),
        enqueued_at: "1970-01-01T00:00:13Z".to_owned(),
    }
}

#[test]
fn sqlite_enqueue_is_idempotent_for_the_same_content_only() {
    let EnqueueStep::InsertDelivery {
        row_id,
        available_at,
    } = EnqueueStep::after_event_insert(Ok(Some(InsertedEvent {
        row_id: 3,
        enqueued_at: "1970-01-01T00:00:01.000000Z".to_owned(),
    })))
    else {
        panic!("the event was inserted");
    };
    assert_eq!(available_at, "1970-01-01T00:00:01.000000Z");
    assert!(matches!(
        EnqueueStep::after_delivery_insert(row_id, Ok(())),
        EnqueueStep::Done(EnqueueOutcome::Enqueued { .. })
    ));
    let EnqueueStep::CheckDelivery { row_id } =
        EnqueueStep::after_duplicate(&content(), Ok(Some(existing())))
    else {
        panic!("the row holds the same event");
    };
    assert_eq!(row_id.get(), 4);
    assert!(matches!(
        EnqueueStep::after_delivery_check(row_id, Ok(Some(4))),
        EnqueueStep::Done(EnqueueOutcome::AlreadyEnqueued { .. })
    ));
    // The stored text counts, not the instant that it denotes.
    assert!(matches!(
        EnqueueStep::after_duplicate(
            &content(),
            Ok(Some(ExistingEvent {
                occurred_at: Some("1970-01-01T00:00:12.000Z".to_owned()),
                ..existing()
            }))
        ),
        EnqueueStep::Failed(EnqueueError::IdempotencyConflict { .. })
    ));
    let EnqueueStep::Failed(EnqueueError::Sql { source, .. }) =
        EnqueueStep::after_duplicate(&content(), Ok(None))
    else {
        panic!("the row is gone");
    };
    assert!(source
        .to_string()
        .contains("identity disappeared after conflict"));
}

fn canonical_row(enqueued_at: &str) -> DeliveryRow {
    DeliveryRow {
        state: "pending".to_owned(),
        attempts: 0,
        claim_token: None,
        claimed_by: None,
        claim_expires_at: None,
        last_failure_code: None,
        last_failure_detail: None,
        delivered_at: None,
        quarantined_at: None,
        quarantine_reason: None,
        available_at: enqueued_at.to_owned(),
    }
}

#[test]
fn sqlite_imports_compare_stored_text() {
    let enqueued_at = "1970-01-01T00:00:13Z";
    let pending = canonical_row(enqueued_at);
    assert!(canonical(&pending, enqueued_at));
    assert!(canonical_pending(&pending, enqueued_at));
    assert!(!canonical(&pending, "1970-01-01T00:00:13.0Z"));
    let state = ImportedDeliveryState::Delivered {
        delivered_at: at(5 * SECOND),
    };
    assert_eq!(matches_import(&pending, state, enqueued_at), Ok(false));

    assert!(matches!(ImportStep::begin(state), ImportStep::CheckWrite));
    assert!(matches!(
        ImportStep::after_write_check(Ok(false)),
        ImportStep::Failed(ImportError::WriteTransactionRequired)
    ));
    let ImportStep::InsertEvent { operation_time } =
        ImportStep::after_clock(Ok("1970-01-01T00:00:14.500000Z".to_owned()))
    else {
        panic!("the clock can be read");
    };
    assert_eq!(operation_time, "1970-01-01T00:00:14.5Z");
    assert!(matches!(
        ImportStep::after_clock(Ok("now".to_owned())),
        ImportStep::Failed(ImportError::Serialization { .. })
    ));
    let ImportStep::InsertDelivery { delivery, .. } =
        ImportStep::after_event_insert(state, &operation_time, Ok(Some(2)))
    else {
        panic!("the event was inserted");
    };
    assert_eq!(delivery.state, "delivered");
    assert_eq!(delivery.available_at, operation_time);
    assert_eq!(delivery.delivered_at.as_deref(), Some("1970-01-01T00:00:05Z"));
    let stored = DeliveryRow {
        state: "delivered".to_owned(),
        delivered_at: delivery.delivered_at,
        ..canonical_row(&operation_time)
    };
    assert!(matches!(
        ImportStep::after_delivery(row(2), &operation_time, state, Ok(Some(stored))),
        ImportStep::Done(ImportOutcome::AlreadyImported { .. })
    ));
    assert!(matches!(
        ImportStep::after_delivery(
            row(2),
            &operation_time,
            state,
            Ok(Some(canonical_row(&operation_time)))
        ),
        ImportStep::Failed(ImportError::ImportConflict { .. })
    ));
    assert!(matches!(
        ImportStep::after_schema(Err(SchemaError::BusyExhausted {
            operation: "check table columns",
            source: failure(),
        })),
        ImportStep::Failed(ImportError::BusyExhausted { .. })
    ));
}

#[test]
fn sqlite_finalizing_happens_once() {
    let enqueued_at = "1970-01-01T00:00:01Z";
    let delivered_at = at(2 * SECOND);
    assert!(matches!(
        FinalizeStep::begin(delivered_at),
        FinalizeStep::CheckWrite
    ));
    assert!(matches!(
        FinalizeStep::after_write_check(Ok(false)),
        FinalizeStep::Failed(FinalizeError::WriteTransactionRequired)
    ));
    assert!(matches!(
        FinalizeStep::after_event(Ok(None)),
        FinalizeStep::Failed(FinalizeError::NotFound)
    ));
    let step = |stored: DeliveryRow, delivered_at: Instant| {
        FinalizeStep::after_delivery(row(8), enqueued_at, delivered_at, Ok(Some(stored)))
    };
    assert!(matches!(
        step(canonical_row(enqueued_at), delivered_at),
        FinalizeStep::Update
    ));
    let finalized = || DeliveryRow {
        state: "delivered".to_owned(),
        delivered_at: Some("1970-01-01T00:00:02Z".to_owned()),
        ..canonical_row(enqueued_at)
    };
    assert!(matches!(
        step(finalized(), delivered_at),
        FinalizeStep::Done(FinalizeOutcome::AlreadyFinalized { .. })
    ));
    assert!(matches!(
        step(finalized(), at(3 * SECOND)),
        FinalizeStep::Failed(FinalizeError::StateConflict { .. })
    ));
    assert!(matches!(
        FinalizeStep::after_update(row(8), Ok(1)),
        FinalizeStep::Done(FinalizeOutcome::Finalized { .. })
    ));
}

fn candidate(event_row_id: i64, attempts: Option<i64>) -> ClaimCandidate {
    ClaimCandidate {
        event_row_id,
        tenant_id: "School-A".to_owned(),
        attempts,
        claim_token: None,
        event: columns(),
        occurred_at: None,
    }
}

#[test]
fn sqlite_claims_are_prepared_before_any_update() {
    let lease = Duration::from_secs(30);
    assert!(matches!(
        begin_claim(BusyConfig::default(), lease),
        Ok(30_000)
    ));
    assert!(matches!(
        begin_claim(BusyConfig::new(Duration::from_nanos(1), 0), lease),
        Err(ClaimError::Configuration { .. })
    ));
    assert!(matches!(
        begin_claim(BusyConfig::default(), Duration::from_micros(1)),
        Err(ClaimError::Serialization { .. })
    ));
    let mut batch = prepare_claims(
        &vec![candidate(1, Some(0)), candidate(2, Some(1))],
        &mut OsEntropy::new(),
    )
    .expect("two valid candidates");
    assert_ne!(batch[0].token(), batch[1].token());
    let holder = worker("builder").expect("valid worker");
    let claim = complete_claim(
        batch.pop().expect("two claims"),
        &holder,
        Ok(Some("1970-01-01T00:01:00.000000Z".to_owned())),
    )
    .expect("completed");
    assert_eq!(claim.attempts(), 2);
    assert!(claim.expires_at().same(at(60 * SECOND)));
    let Err(ClaimError::Sql { source, .. }) =
        complete_claim(batch.pop().expect("one claim"), &holder, Ok(None))
    else {
        panic!("the row is gone");
    };
    assert!(source
        .to_string()
        .contains("claim candidate disappeared while writer lock was held"));
    let Err(ClaimError::MigrationMismatch { detail }) =
        prepare_claims(&vec![candidate(1, None)], &mut OsEntropy::new())
    else {
        panic!("the row has no attempts");
    };
    assert_eq!(detail, "eligible delivery row has no attempts");
    assert!(matches!(
        prepare_claims(&vec![candidate(1, Some(i64::MAX))], &mut OsEntropy::new()),
        Err(ClaimError::CounterOverflow { .. })
    ));
    assert!(matches!(
        prepare_claims(&vec![candidate(0, None)], &mut OsEntropy::new()),
        Err(ClaimError::Serialization { .. })
    ));
}

#[test]
fn sqlite_mutations_are_fenced() {
    let prepared = begin_mutation(
        BusyConfig::default(),
        Mutation::Retry {
            code: "E1".to_owned(),
            detail: "broken".to_owned(),
            backoff: Duration::from_millis(250),
        },
    )
    .expect("a whole number of milliseconds");
    assert!(matches!(
        prepared,
        PreparedMutation::Retry {
            duration_ms: 250,
            ..
        }
    ));
    assert!(matches!(
        begin_mutation(
            BusyConfig::default(),
            Mutation::Release {
                delay: Duration::from_nanos(5)
            }
        ),
        Err(MutationError::Serialization { .. })
    ));
    assert!(matches!(
        begin_mutation(BusyConfig::new(Duration::from_nanos(1), 0), Mutation::Ack),
        Err(MutationError::Configuration { .. })
    ));

    let claimed = |expires_at: &str| DeliveryForMutation {
        state: "claimed".to_owned(),
        claim_token: Some(vec![1; 16]),
        claim_expires_at: Some(expires_at.to_owned()),
    };
    let now = "1970-01-01T00:00:10.000000Z";
    assert!(classify_delivery(&claimed("1970-01-01T00:00:11Z"), &[1; 16], now).is_ok());
    assert!(matches!(
        classify_delivery(&claimed("1970-01-01T00:00:10Z"), &[1; 16], now),
        Err(MutationError::LostClaim)
    ));
    assert!(matches!(
        classify_delivery(&claimed("1970-01-01T00:00:11Z"), &[2; 16], now),
        Err(MutationError::LostClaim)
    ));
    assert!(matches!(
        classify_delivery(&claimed("soon"), &[1; 16], now),
        Err(MutationError::Serialization { .. })
    ));
    assert!(matches!(
        classify_delivery(&claimed("1970-01-01T00:00:11Z"), &[1; 16], "now"),
        Err(MutationError::Serialization { .. })
    ));

    assert!(matches!(
        MutationStep::after_begin(Ok(())),
        Ok(MutationStep::ReadClock)
    ));
    assert!(matches!(
        MutationStep::after_clock(Ok(now.to_owned())),
        MutationStep::Update { .. }
    ));
    assert!(matches!(
        MutationStep::after_update(Ok(1)),
        MutationStep::Commit
    ));
    assert!(matches!(
        MutationStep::after_update(Ok(0)),
        MutationStep::Classify
    ));
    assert!(matches!(
        MutationStep::after_classification(&[1; 16], now, Ok(None)),
        MutationError::NotFound
    ));
    let MutationError::Sql { operation, source } = MutationStep::after_classification(
        &[1; 16],
        now,
        Ok(Some(claimed("1970-01-01T00:00:11Z"))),
    ) else {
        panic!("the update did nothing");
    };
    assert_eq!(operation, "conditional delivery mutation");
    assert!(source
        .to_string()
        .contains("claimed delivery did not satisfy mutation"));
    let MutationError::IllegalTransition { state } = MutationStep::after_classification(
        &[1; 16],
        now,
        Ok(Some(DeliveryForMutation {
            state: "delivered".to_owned(),
            ..claimed("1970-01-01T00:00:11Z")
        })),
    ) else {
        panic!("the row is terminal");
    };
    assert_eq!(state, DeliveryState::Delivered);
    assert!(committed(Ok(())).is_ok());
}

#[test]
fn sqlite_statements_bind_in_order() {
    assert_eq!(
        mutation_statement(MutationKind::Ack),
        "UPDATE dovecote_deliveries SET state = 'delivered', claim_token = NULL, claimed_by = \
         NULL, claim_expires_at = NULL, delivered_at = ? WHERE event_row_id = ? AND (? IS NULL \
         OR tenant_id = ?) AND state = 'claimed' AND claim_token = ? AND claim_expires_at > ?"
    );
    assert!(claim_statement().starts_with(
        "UPDATE dovecote_deliveries SET state = 'claimed', attempts = ?, claim_token = ?, \
         claimed_by = ?, claim_expires_at = strftime("
    ));
}

fn shown(parameters: Vec<Parameter>) -> Vec<String> {
    parameters.iter().map(|parameter| format!("{parameter:?}")).collect()
}

#[test]
fn sqlite_parameters_follow_the_question_marks() {
    let now = "1970-01-01T00:00:13.000000Z";
    let row = row(5);
    let retry = PreparedMutation::Retry {
        code: "timeout".to_owned(),
        detail: "upstream".to_owned(),
        duration_ms: 1500,
    };
    assert_eq!(retry.kind(), MutationKind::Retry);
    assert_eq!(
        shown(mutation_parameters(&retry, now, row, Some("School-A"), &[7; 16])),
        [
            "Text(\"1970-01-01T00:00:13.000000Z\")",
            "Number(1500)",
            "Number(1500)",
            "Text(\"timeout\")",
            "Text(\"upstream\")",
            "Number(5)",
            "Text(\"School-A\")",
            "Text(\"School-A\")",
            "Bytes([7, 7, 7, 7, 7, 7, 7, 7, 7, 7, 7, 7, 7, 7, 7, 7])",
            "Text(\"1970-01-01T00:00:13.000000Z\")",
        ]
    );
    let quarantine = PreparedMutation::Quarantine { reason: "poison".to_owned() };
    assert_eq!(
        shown(mutation_parameters(&quarantine, now, row, None, &[0; 16]))[..5],
        [
            "Text(\"1970-01-01T00:00:13.000000Z\")",
            "Text(\"poison\")",
            "Number(5)",
            "Absent",
            "Absent",
        ]
    );
    for (mutation, marks) in [
        (PreparedMutation::Renew { duration_ms: 1 }, 3),
        (PreparedMutation::Ack, 1),
        (retry, 5),
        (PreparedMutation::Release { duration_ms: 1 }, 3),
        (quarantine, 2),
    ] {
        let statement = mutation_statement(mutation.kind());
        assert_eq!(statement.matches('?').count(), marks + 5);
        assert_eq!(mutation_parameters(&mutation, now, row, None, &[0; 16]).len(), marks + 5);
    }

    let batch = prepare_claims(&vec![candidate(4, Some(2))], &mut OsEntropy::new())
        .expect("a valid candidate");
    let values = shown(claim_parameters(&batch[0], "worker-1", 30_000, now));
    assert_eq!(values[0], "Number(3)");
    assert_eq!(values[1], format!("Bytes({:?})", batch[0].token()));
    assert_eq!(
        values[2..],
        [
            "Text(\"worker-1\")",
            "Text(\"1970-01-01T00:00:13.000000Z\")",
            "Number(30000)",
            "Number(30000)",
            "Text(\"School-A\")",
            "Number(4)",
        ]
    );
    let statement = claim_statement();
    assert_eq!(statement.matches('?').count(), values.len());

    let values = shown(finalize_parameters(now, "School-A", row, "1970-01-01T00:00:01.000000Z"));
    assert_eq!(
        values,
        [
            "Text(\"1970-01-01T00:00:13.000000Z\")",
            "Text(\"School-A\")",
            "Number(5)",
            "Text(\"1970-01-01T00:00:01.000000Z\")",
        ]
    );
    let statement = finalize_statement();
    assert!(statement.starts_with(
        "UPDATE dovecote_deliveries SET state = 'delivered', delivered_at = ? WHERE tenant_id = ? \
         AND event_row_id = ? AND state = 'pending' AND attempts = 0 AND claim_token IS NULL"
    ));
    assert_eq!(statement.matches('?').count(), values.len());
}

#[test]
fn sqlite_refuses_stored_timestamps_without_a_rendering() {
    for value in ["0000-01-01T00:00:00+00:01", "9999-12-31T23:59:59-00:01"] {
        let extensions =
            format!("{{\"x\":{{\"type\":\"timestamp\",\"value\":\"{value}\"}}}}");
        let row = DurableRow {
            columns: EventColumns { extensions, ..columns() },
            ..durable_row(1)
        };
        let Err(PageError::Serialization { detail }) = page_rows(Ok(vec![row])) else {
            panic!("the set cannot be decoded");
        };
        assert_eq!(detail, "extensions: hold a timestamp outside of the years 0 to 9999");
    }
}

#[test]
fn sqlite_normal_forms_are_settled_and_keep_their_literals() {
    let text = "CHECK (State IN ('Pending', \"Claimed\", 'a b'))";
    let once = normalize_sql(text);
    assert_eq!(once, "check(statein('Pending',claimed,'ab'))");
    assert_eq!(normalize_sql(&once), once);
    assert_ne!(normalize_sql("DEFAULT 'A'"), normalize_sql("DEFAULT 'a'"));
    assert_ne!(normalize_sql("DEFAULT '\"'"), normalize_sql("DEFAULT ''"));
    assert_eq!(normalize_sql("DEFAULT 'a b'"), normalize_sql("default 'ab'"));
    assert_eq!(normalize_sql("\u{c4} \u{130}"), "\u{e4}i\u{307}");
}

fn durable_row(row_id: i64) -> DurableRow {
    DurableRow {
        row_id,
        tenant_id: "School-A".to_owned(),
        columns: columns(),
        occurred_at: None,
        enqueued_at: "1970-01-01T00:00:13.000000Z".to_owned(),
        state: Some("pending".to_owned()),
        available_at: Some("1970-01-01T00:00:13.000000Z".to_owned()),
        attempts: Some(0),
        claim_token: None,
        claimed_by: None,
        claim_expires_at: None,
        last_failure_code: None,
        last_failure_detail: None,
        delivered_at: None,
        quarantined_at: None,
        quarantine_reason: None,
    }
}

#[test]
fn sqlite_pages_surface_orphans_and_corruption() {
    let page = page_rows(Ok(vec![durable_row(1), durable_row(2)])).expect("two valid rows");
    assert_eq!(page.len(), 2);
    assert!(page[1].delivery().available_at.same(at(13 * SECOND)));
    let detail = |row: DurableRow| match page_rows(Ok(vec![durable_row(1), row])) {
        Err(PageError::Serialization { detail }) => detail,
        other => panic!("unexpected {other:?}"),
    };
    assert_eq!(
        detail(DurableRow {
            state: None,
            ..durable_row(2)
        }),
        "event has no required delivery row"
    );
    assert_eq!(
        detail(DurableRow {
            available_at: None,
            ..durable_row(2)
        }),
        "delivery row has no available_at"
    );
    assert_eq!(
        detail(DurableRow {
            attempts: None,
            ..durable_row(2)
        }),
        "delivery row has no attempts"
    );
    // The worker is validated before the claim expiry is asked for.
    assert_ne!(
        detail(DurableRow {
            state: Some("claimed".to_owned()),
            claim_token: Some(vec![1; 16]),
            claimed_by: Some(String::new()),
            ..durable_row(2)
        }),
        "claimed delivery has no claim expiry"
    );
    assert_eq!(
        detail(DurableRow {
            tenant_id: String::new(),
            row_id: 0,
            ..durable_row(2)
        }),
        "tenant id: must not be empty"
    );

    let export = begin_export(Ok(Some(9))).expect("rows to export");
    assert!(matches!(
        next_turn(&export, true),
        Ok(PagerTurn::Read { after: 0, up_to: 9 })
    ));
    assert!(matches!(next_turn(&export, false), Err(PageError::Closed)));
    let empty = begin_export(Ok(None)).expect("nothing to export");
    assert!(matches!(next_turn(&empty, false), Ok(PagerTurn::Nothing)));
}
