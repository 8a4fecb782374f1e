//! Tests of the PostgreSQL adapter's logic.

use dovecote_sqlx::attribute::worker;
use dovecote_sqlx::event::{event_columns, EventColumns, EventContent, EventData};
use dovecote_sqlx::imported::{
    EnqueueOutcome, FinalizeOutcome, ImportOutcome, ImportedDeliveryState,
};
use dovecote_sqlx::instant::Instant;
use dovecote_sqlx::migration::{current_crate_version, SCHEMA_VERSION};
use dovecote_sqlx::postgres::artifacts::{
    RLS_PROFILE_SQL, V1_TENANT_ACTIVATE_SQL, V1_TENANT_PREPARE_SQL,
};
use dovecote_sqlx::postgres::delivery_state::{
    canonical, canonical_pending, matches_import, DeliveryRow,
};
use dovecote_sqlx::postgres::enqueue::{
    EnqueueSchemaSelection, EnqueueStep, ExistingEvent, InsertedEvent,
};
use dovecote_sqlx::postgres::error::{
    ClaimError, EnqueueError, FinalizeError, ImportError, MutationError, PageError, SchemaError,
    TransientKind,
};
use dovecote_sqlx::postgres::finalize::FinalizeStep;
use dovecote_sqlx::postgres::hydrate::hydrate_event;
use dovecote_sqlx::postgres::import::ImportStep;
use dovecote_sqlx::postgres::lifecycle::{
    committed as claim_committed, complete_claim, prepare_claims, ClaimCandidate, ClaimStep,
};
use dovecote_sqlx::postgres::lifecycle_mutation::{
    classify_delivery, committed, DeliveryForMutation, Mutation, MutationStep,
};
use dovecote_sqlx::postgres::migration::{
    current_migration, legacy_migration, marker_compatibility, marker_matches_migration,
    migrations, SchemaMarker,
};
use dovecote_sqlx::postgres::page::{begin_export, page_rows, PageDelivery, PageRow};
use dovecote_sqlx::postgres::schema::catalog::{ColumnInfo, NamespaceInfo};
use dovecote_sqlx::postgres::schema::contracts::{
    expected_constraints, expected_indexes, ConstraintContract, ConstraintInfo, IndexContract,
    IndexInfo,
};
use dovecote_sqlx::postgres::schema::normalization::normalize_sql;
use dovecote_sqlx::postgres::schema::{
    check_markers, compare_constraints, compare_indexes, is_expected_name, marker_columns,
    resolve_namespace, CatalogReply, SchemaCheck,
};
use dovecote_sqlx::postgres::statement::{
    claim_parameters, claim_statement, finalize_parameters, finalize_statement,
    mutation_parameters, mutation_statement, Parameter,
};
use dovecote_sqlx::token::OsEntropy;
use dovecote_sqlx::transition::MutationKind;
use dovecote_sqlx::value::{DeliveryState, RowId};
use std::time::Duration;

const SECOND: i128 = 1_000_000_000;

fn at(nanos: i128) -> Instant {
    Instant::from_unix_nanos(nanos).expect("the instant lies in the calendar")
}

fn row(number: i64) -> RowId {
    RowId::new(number).expect("positive row")
}

fn failure() -> sqlx::Error {
    sqlx::Error::PoolClosed
}

fn content() -> EventContent {
    EventContent {
        stream: "audit".to_owned(),
        event_id: "event-1".to_owned(),
        source: "https://example.test/source".to_owned(),
        event_type: "com.example.created".to_owned(),
        subject: Some("account/7".to_owned()),
        time: Some(at(12 * SECOND)),
        datacontenttype: Some("application/json".to_owned()),
        dataschema: Some("https://example.test/schema".to_owned()),
        partitionkey: Some("7".to_owned()),
        extensions: "{}".to_owned(),
        data: Some(EventData::Json(b"{\"a\":1}".to_vec())),
    }
}

fn columns() -> EventColumns {
    event_columns(&content())
}

fn canonical_row(enqueued_at: Instant) -> DeliveryRow {
    DeliveryRow {
        state: "pending".to_owned(),
        attempts: 0,
        claim_token: None,
        claimed_by: None,
        claim_expires_at: None,
        last_failure_code: None,
        last_failure_detail: None,
        delivered_at: None,
        quarantined_at: None,
        quarantine_reason: None,
        available_at: enqueued_at,
    }
}

#[test]
fn canonical_shapes_match_supported_import_states() {
    let enqueued_at = at(0);
    let pending = canonical_row(enqueued_at);
    assert!(canonical(&pending, enqueued_at));
    assert!(canonical_pending(&pending, enqueued_at));
    assert!(
        matches_import(&pending, ImportedDeliveryState::Pending, enqueued_at)
            .expect("pending is a supported import state")
    );

    let delivered_at = at(SECOND);
    let delivered = DeliveryRow {
        state: "delivered".to_owned(),
        delivered_at: Some(delivered_at),
        ..pending
    };
    let state = ImportedDeliveryState::Delivered { delivered_at };
    state.validate().expect("valid timestamp");
    assert!(matches_import(&delivered, state, enqueued_at)
        .expect("delivered is a supported import state"));
}

#[test]
fn noncanonical_shapes_and_timestamp_mismatches_are_rejected() {
    let enqueued_at = at(0);
    let retried = DeliveryRow {
        attempts: 1,
        ..canonical_row(enqueued_at)
    };
    assert!(!canonical(&retried, enqueued_at));
    assert!(!canonical_pending(&retried, enqueued_at));
    assert!(
        !matches_import(&retried, ImportedDeliveryState::Pending, enqueued_at)
            .expect("pending is a supported import state")
    );

    let delivered_at = at(SECOND);
    let delivered = DeliveryRow {
        state: "delivered".to_owned(),
        delivered_at: Some(delivered_at),
        ..canonical_row(enqueued_at)
    };
    let wrong_timestamp = ImportedDeliveryState::Delivered {
        delivered_at: at(2 * SECOND),
    };
    wrong_timestamp.validate().expect("valid timestamp");
    assert!(!matches_import(&delivered, wrong_timestamp, enqueued_at)
        .expect("delivered is a supported import state"));
    assert_eq!(
        matches_import(&delivered, ImportedDeliveryState::Unsupported, enqueued_at),
        Err("adapter does not support this imported delivery state")
    );
}

#[test]
fn postgres_transient_sqlstates_have_typed_categories() {
    assert_eq!(
        TransientKind::from_sqlstate("40001"),
        Some(TransientKind::SerializationFailure)
    );
    assert_eq!(
        TransientKind::from_sqlstate("40P01"),
        Some(TransientKind::DeadlockDetected)
    );
    for code in ["57014", "55P03"] {
        assert_eq!(
            TransientKind::from_sqlstate(code),
            Some(TransientKind::StatementOrLockTimeout)
        );
    }
    assert_eq!(TransientKind::from_sqlstate("23505"), None);
    assert_eq!(TransientKind::from_sqlx(&failure()), None);
    assert_eq!(TransientKind::DeadlockDetected.label(), "deadlock detected");
}

#[test]
fn schema_schema_marker_uses_the_shipped_compatibility_range() {
    let migration = legacy_migration();
    let marker = SchemaMarker {
        schema_version: 1,
        minimum_crate_major: 0,
        minimum_crate_minor: 1,
        minimum_crate_patch: 0,
        rolling_compatible: false,
    };
    assert_eq!(marker_compatibility(&marker), Ok(migration.compatibility()));
    assert!(marker_matches_migration(&marker, migration).is_ok());
    assert!(migration.compatibility().contains(current_crate_version()));

    let wrong_version = SchemaMarker {
        schema_version: 2,
        ..marker
    };
    assert!(marker_matches_migration(&wrong_version, migration).is_err());

    let too_new = SchemaMarker {
        minimum_crate_major: 9,
        ..marker
    };
    assert!(marker_matches_migration(&too_new, migration).is_err());

    let malformed = SchemaMarker {
        minimum_crate_minor: -1,
        ..marker
    };
    assert!(marker_compatibility(&malformed).is_err());
}

#[test]
fn tests_schema_marker_uses_the_shipped_compatibility_range() {
    let shipped = migrations();
    let migration = shipped
        .iter()
        .find(|migration| migration.version() == SCHEMA_VERSION)
        .expect("the v2 migration is shipped");
    let marker = SchemaMarker {
        schema_version: 2,
        minimum_crate_major: 0,
        minimum_crate_minor: 2,
        minimum_crate_patch: 0,
        rolling_compatible: false,
    };
    assert_eq!(marker_compatibility(&marker), Ok(migration.compatibility()));
    assert!(marker_matches_migration(&marker, *migration).is_ok());
    assert!(migration.compatibility().contains(current_crate_version()));

    let wrong_version = SchemaMarker {
        schema_version: 1,
        ..marker
    };
    assert!(marker_matches_migration(&wrong_version, *migration).is_err());

    let too_new = SchemaMarker {
        minimum_crate_major: 9,
        ..marker
    };
    assert!(marker_matches_migration(&too_new, *migration).is_err());

    let malformed = SchemaMarker {
        minimum_crate_minor: -1,
        ..marker
    };
    assert!(marker_compatibility(&malformed).is_err());
    assert_eq!(current_migration().expect("shipped").version(), 2);
}

fn primary_key() -> ConstraintInfo {
    ConstraintInfo {
        table_name: "dovecote_events".to_owned(),
        name: "dovecote_events_pkey".to_owned(),
        kind: "p".to_owned(),
        columns: vec!["row_id".to_owned()],
        referenced_table: None,
        referenced_columns: Vec::new(),
        delete_action: None,
        validated: true,
        deferrable: false,
        deferred: false,
        definition: "PRIMARY KEY (row_id)".to_owned(),
    }
}

fn version_check() -> ConstraintInfo {
    ConstraintInfo {
        table_name: "dovecote_schema".to_owned(),
        name: "dovecote_schema_version_supported".to_owned(),
        kind: "c".to_owned(),
        columns: vec!["schema_version".to_owned()],
        referenced_table: None,
        referenced_columns: Vec::new(),
        delete_action: None,
        validated: true,
        deferrable: false,
        deferred: false,
        definition: "CHECK ((schema_version = 1))".to_owned(),
    }
}

fn check_constraint_contracts() {
    let constraint = primary_key();
    let expected = ConstraintContract::primary_key(
        "dovecote_events_pkey",
        "dovecote_events",
        &["row_id"],
        &["PRIMARY KEY (row_id)"],
    );
    assert!(constraint.matches(&expected));
    let wrong_relation = ConstraintInfo {
        table_name: "other".to_owned(),
        ..constraint
    };
    assert!(!wrong_relation.matches(&expected));

    let expected_check = ConstraintContract::check(
        "dovecote_schema_version_supported",
        "dovecote_schema",
        &["CHECK ((schema_version = 1))"],
    );
    assert!(version_check().matches(&expected_check));
}

#[test]
fn schema_constraint_and_index_contracts_require_their_live_semantics() {
    check_constraint_contracts();
    let index = IndexInfo {
        table_name: "dovecote_events".to_owned(),
        name: "dovecote_events_source_event_id".to_owned(),
        access_method: "btree".to_owned(),
        is_unique: true,
        is_valid: true,
        is_ready: true,
        has_predicate: false,
        key_columns: 2,
        total_columns: 2,
        options: vec![0, 0],
        columns: vec!["source".to_owned(), "event_id".to_owned()],
        collations: vec!["C".to_owned(), "C".to_owned()],
    };
    let expected_index = IndexContract::new(
        "dovecote_events_source_event_id",
        "dovecote_events",
        true,
        &["source", "event_id"],
        Some(&["C", "C"]),
    );
    assert!(index.matches(&expected_index));
    let wrong_order = IndexInfo {
        options: vec![1, 0],
        ..index
    };
    assert!(!wrong_order.matches(&expected_index));
}

#[test]
fn tests_constraint_and_index_contracts_require_their_live_semantics() {
    check_constraint_contracts();
    let index = IndexInfo {
        table_name: "dovecote_events".to_owned(),
        name: "dovecote_events_tenant_source_event_id".to_owned(),
        access_method: "btree".to_owned(),
        is_unique: true,
        is_valid: true,
        is_ready: true,
        has_predicate: false,
        key_columns: 3,
        total_columns: 3,
        options: vec![0, 0, 0],
        columns: vec![
            "tenant_id".to_owned(),
            "source".to_owned(),
            "event_id".to_owned(),
        ],
        collations: vec!["C".to_owned(), "C".to_owned(), "C".to_owned()],
    };
    let expected_index = IndexContract::new(
        "dovecote_events_tenant_source_event_id",
        "dovecote_events",
        true,
        &["tenant_id", "source", "event_id"],
        Some(&["C", "C", "C"]),
    );
    assert!(index.matches(&expected_index));
    let wrong_order = IndexInfo {
        options: vec![1, 0, 0],
        ..index
    };
    assert!(!wrong_order.matches(&expected_index));
}

fn check_rendered_constraints() {
    let fixtures = [(
        ConstraintInfo {
            table_name: "dovecote_events".to_owned(),
            name: "dovecote_events_identity_size".to_owned(),
            kind: "c".to_owned(),
            columns: vec!["source".to_owned(), "event_id".to_owned()],
            referenced_table: None,
            referenced_columns: Vec::new(),
            delete_action: None,
            validated: true,
            deferrable: false,
            deferred: false,
            definition:
                "CHECK (((octet_length((source)::text) + octet_length((event_id)::text)) <= 2048))"
                    .to_owned(),
        },
        ConstraintContract::check(
            "dovecote_events_identity_size",
            "dovecote_events",
            &["CHECK (((octet_length((source)) + octet_length((event_id))) <= 2048))"],
        ),
    )];

    for (actual, expected) in fixtures {
        assert!(actual.matches(&expected));
    }
}

#[test]
fn schema_pg17_constraint_renderings_match_the_shipped_contracts() {
    check_rendered_constraints();
}

#[test]
fn tests_pg17_constraint_renderings_match_the_shipped_contracts() {
    check_rendered_constraints();
}

fn check_boolean_grouping() {
    assert_ne!(
        normalize_sql("CHECK ((left IS NULL OR right IS NULL))"),
        normalize_sql("CHECK (((left IS NULL OR right IS NULL)))")
    );
    assert_ne!(
        normalize_sql("CHECK (((left IS NULL) OR (right IS NULL)))"),
        normalize_sql("CHECK (((left IS NULL) AND (right IS NULL)))")
    );
}

#[test]
fn schema_sql_normalization_preserves_boolean_grouping() {
    check_boolean_grouping();
}

#[test]
fn tests_sql_normalization_preserves_boolean_grouping() {
    check_boolean_grouping();
}

#[test]
fn schema_catalog_name_matching_rejects_unexpected_objects() {
    let expected = [
        "dovecote_events_tenant_source_event_id",
        "dovecote_deliveries_claimable",
    ];
    assert!(is_expected_name(
        "dovecote_events_tenant_source_event_id",
        &expected
    ));
    assert!(!is_expected_name("dovecote_events_probe", &expected));
}

#[test]
fn tenant_migration_path_requires_explicit_backfill() {
    assert!(V1_TENANT_PREPARE_SQL.contains("ADD COLUMN tenant_id VARCHAR(255)"));
    assert!(V1_TENANT_ACTIVATE_SQL.contains("tenant_id IS NULL"));
    assert!(V1_TENANT_ACTIVATE_SQL.contains("Dovecote tenant backfill is incomplete"));
    assert!(V1_TENANT_ACTIVATE_SQL.starts_with("--"));
    assert!(V1_TENANT_ACTIVATE_SQL.contains("BEGIN;"));
    assert!(V1_TENANT_ACTIVATE_SQL.contains("COMMIT;"));
    assert!(!V1_TENANT_ACTIVATE_SQL.contains("COALESCE(tenant_id"));
}

#[test]
fn rls_profile_is_opt_in_and_transaction_local() {
    assert!(RLS_PROFILE_SQL.contains("FORCE ROW LEVEL SECURITY"));
    assert!(RLS_PROFILE_SQL.contains("current_setting('dovecote.tenant_id', true)"));
    assert!(RLS_PROFILE_SQL.contains("USING (tenant_id = current_setting"));
    assert!(RLS_PROFILE_SQL.contains("WITH CHECK (tenant_id = current_setting"));
    assert!(RLS_PROFILE_SQL.contains("Scoped"));
    assert!(RLS_PROFILE_SQL.contains("application transactions must call bind_tenant"));
    assert!(RLS_PROFILE_SQL.contains("administrative roles must"));
    assert!(RLS_PROFILE_SQL.contains("use BYPASSRLS"));
    assert!(RLS_PROFILE_SQL.contains("not part of the ordinary migration"));
}

#[test]
fn normal_forms_drop_casts_case_and_space() {
    assert_eq!(
        normalize_sql("CHECK ((State)::text = ANY (ARRAY['a'::text]))"),
        "check((state)=any(array['a']))"
    );
    assert_eq!(normalize_sql("x::character varying[]"), "x");
}

fn shown_constraint(contract: &ConstraintContract) -> ConstraintInfo {
    ConstraintInfo {
        table_name: contract.table_name.to_owned(),
        name: contract.name.to_owned(),
        kind: contract.kind.to_owned(),
        columns: contract.columns.iter().map(|c| (*c).to_owned()).collect(),
        referenced_table: contract.referenced_table.map(str::to_owned),
        referenced_columns: contract
            .referenced_columns
            .iter()
            .map(|c| (*c).to_owned())
            .collect(),
        delete_action: contract.delete_action.map(str::to_owned),
        validated: true,
        deferrable: false,
        deferred: false,
        definition: contract.definition_variants[0].to_owned(),
    }
}

#[test]
fn the_demanded_constraints_conform_and_others_do_not() {
    let expected = expected_constraints();
    let shown: Vec<ConstraintInfo> = expected.iter().map(shown_constraint).collect();
    assert_eq!(compare_constraints(&shown), Ok(()));

    let mut missing: Vec<ConstraintInfo> = expected.iter().map(shown_constraint).collect();
    let gone = missing.remove(0);
    assert_eq!(
        compare_constraints(&missing),
        Err(format!("required constraint {} is missing", gone.name))
    );

    let mut extra: Vec<ConstraintInfo> = expected.iter().map(shown_constraint).collect();
    extra.push(ConstraintInfo {
        name: "probe".to_owned(),
        ..primary_key()
    });
    assert_eq!(
        compare_constraints(&extra),
        Err("unexpected constraint probe".to_owned())
    );
    assert_eq!(expected_indexes().len(), 3);
    assert!(compare_indexes(&Vec::new()).is_err());
}

#[test]
fn the_schema_check_reports_the_first_fault() {
    assert!(matches!(
        resolve_namespace(Ok(None)),
        Err(SchemaError::MigrationMismatch { .. })
    ));
    assert!(resolve_namespace(Ok(Some(NamespaceInfo {
        oid: 2200,
        name: "public".to_owned(),
    })))
    .is_ok());
    assert!(matches!(
        check_markers(Ok(Vec::new())),
        Err(SchemaError::MigrationMismatch { .. })
    ));
    assert!(matches!(
        check_markers(Err(failure())),
        Err(SchemaError::Sql {
            operation: "check schema marker",
            ..
        })
    ));
    let shown: Vec<ColumnInfo> = marker_columns()
        .iter()
        .map(|spec| ColumnInfo {
            column_name: spec.name.to_owned(),
            data_type: spec.data_type.to_owned(),
            character_maximum_length: spec.maximum_length,
            is_nullable: if spec.nullable { "YES" } else { "NO" }.to_owned(),
            column_default: spec.default_fragment.map(str::to_owned),
            is_identity: "NO".to_owned(),
            identity_generation: None,
        })
        .collect();
    let next = SchemaCheck::MarkerColumns
        .advance(CatalogReply::Columns(Ok(shown)))
        .expect("the marker columns conform");
    assert_eq!(next, SchemaCheck::Markers);
    assert_eq!(SchemaCheck::EventColumns.table(), Some("dovecote_events"));
    assert!(SchemaCheck::EventColumns
        .advance(CatalogReply::Columns(Ok(Vec::new())))
        .is_err());
}

#[test]
fn stored_events_hydrate_to_what_was_stored() {
    let stored = hydrate_event(&columns(), Some(at(12 * SECOND))).expect("a valid event");
    let (plain, event) = stored.into_parts();
    assert_eq!(plain.event_id, "event-1");
    assert_eq!(event.id().as_str(), "event-1");
    assert_eq!(plain.subject.as_deref(), Some("account/7"));
    assert!(matches!(plain.data, Some(EventData::Json(ref bytes)) if bytes == b"{\"a\":1}"));

    let refused = |change: EventColumns| -> String {
        hydrate_event(&change, None).expect_err("an invalid row")
    };
    assert_eq!(
        refused(EventColumns {
            specversion: "0.3".to_owned(),
            ..columns()
        }),
        "stored event has an unsupported specversion"
    );
    assert_eq!(
        refused(EventColumns {
            data_kind: Some("xml".to_owned()),
            ..columns()
        }),
        "stored data kind and data columns do not agree"
    );
    assert_eq!(
        refused(EventColumns {
            data: Some(b"{".to_vec()),
            ..columns()
        }),
        "JSON data: must contain one valid JSON value encoded as UTF-8"
    );
    assert_eq!(
        refused(EventColumns {
            datacontenttype: None,
            ..columns()
        }),
        "datacontenttype: is invalid in combination with another value"
    );
    assert_eq!(
        refused(EventColumns {
            event_id: "i".repeat(1_024),
            source: "s".repeat(1_025),
            ..columns()
        }),
        "source and event id: has an invalid byte length"
    );
    assert!(!refused(EventColumns {
        extensions: "{".to_owned(),
        ..columns()
    })
    .is_empty());
    assert_eq!(
        hydrate_event(&columns(), Some(at(1))).expect_err("too fine"),
        "time: has unsupported precision"
    );
}

fn selection(deliveries_table: bool) -> EnqueueSchemaSelection {
    EnqueueSchemaSelection {
        schema_name: "app".to_owned(),
        marker_table: true,
        events_table: true,
        deliveries_table,
    }
}

fn existing() -> ExistingEvent {
    ExistingEvent {
        row_id: 4,
        columns: columns(),
        occurred_at: Some(at(12 * SECOND)),
        enqueued_at: at(13 * SECOND),
    }
}

#[test]
fn enqueue_checks_the_schema_first() {
    assert!(matches!(
        EnqueueStep::after_selection(Ok(Some(selection(true)))),
        EnqueueStep::ReadMarker
    ));
    let EnqueueStep::Failed(EnqueueError::MigrationMismatch { detail }) =
        EnqueueStep::after_selection(Ok(Some(selection(false))))
    else {
        panic!("the tables are missing");
    };
    assert_eq!(
        detail,
        "current schema app does not contain the Dovecote tables"
    );
    assert!(matches!(
        EnqueueStep::after_selection(Ok(None)),
        EnqueueStep::Failed(EnqueueError::MigrationMismatch { .. })
    ));
    assert!(matches!(
        EnqueueStep::after_marker(Ok(None)),
        EnqueueStep::Failed(EnqueueError::MigrationMismatch { .. })
    ));
    assert!(matches!(
        EnqueueStep::after_marker(Ok(Some(SchemaMarker {
            schema_version: 2,
            minimum_crate_major: 0,
            minimum_crate_minor: 2,
            minimum_crate_patch: 0,
            rolling_compatible: false,
        }))),
        EnqueueStep::InsertEvent
    ));
    assert!(matches!(
        EnqueueStep::after_marker(Err(failure())),
        EnqueueStep::Failed(EnqueueError::Sql {
            operation: "check enqueue schema marker",
            ..
        })
    ));
}

#[test]
fn enqueue_is_idempotent_for_the_same_content_only() {
    let EnqueueStep::InsertDelivery {
        row_id,
        available_at,
    } = EnqueueStep::after_event_insert(Ok(Some(InsertedEvent {
        row_id: 3,
        enqueued_at: at(SECOND),
    })))
    else {
        panic!("the event was inserted");
    };
    assert_eq!(row_id.get(), 3);
    assert!(available_at.same(at(SECOND)));
    assert!(matches!(
        EnqueueStep::after_delivery_insert(row_id, Ok(())),
        EnqueueStep::Done(EnqueueOutcome::Enqueued { .. })
    ));
    assert!(matches!(
        EnqueueStep::after_event_insert(Ok(None)),
        EnqueueStep::FindDuplicate
    ));
    let EnqueueStep::CheckDelivery { row_id } =
        EnqueueStep::after_duplicate(&content(), Ok(Some(existing())))
    else {
        panic!("the row holds the same event");
    };
    assert!(matches!(
        EnqueueStep::after_delivery_check(row_id, Ok(Some(4))),
        EnqueueStep::Done(EnqueueOutcome::AlreadyEnqueued { .. })
    ));
    assert!(matches!(
        EnqueueStep::after_delivery_check(row_id, Ok(None)),
        EnqueueStep::Failed(EnqueueError::MigrationMismatch { .. })
    ));
    let other = EventContent {
        subject: None,
        ..content()
    };
    let EnqueueStep::Failed(EnqueueError::IdempotencyConflict { existing_row_id }) =
        EnqueueStep::after_duplicate(&other, Ok(Some(existing())))
    else {
        panic!("the row holds another event");
    };
    assert_eq!(existing_row_id.get(), 4);
    let later = EventContent {
        time: Some(at(14 * SECOND)),
        ..content()
    };
    assert!(matches!(
        EnqueueStep::after_duplicate(&later, Ok(Some(existing()))),
        EnqueueStep::Failed(EnqueueError::IdempotencyConflict { .. })
    ));
    assert!(matches!(
        EnqueueStep::after_duplicate(
            &content(),
            Ok(Some(ExistingEvent {
                row_id: 0,
                ..existing()
            }))
        ),
        EnqueueStep::Failed(EnqueueError::Serialization { .. })
    ));
    let EnqueueStep::Failed(EnqueueError::Sql { operation, source }) =
        EnqueueStep::after_duplicate(&content(), Ok(None))
    else {
        panic!("the row is gone");
    };
    assert_eq!(operation, "resolve duplicate event");
    assert!(source
        .to_string()
        .contains("expected a row after a successful identity lookup"));
}

#[test]
fn imports_write_and_acknowledge_canonical_rows() {
    let delivered = ImportedDeliveryState::Delivered {
        delivered_at: at(5 * SECOND),
    };
    assert!(matches!(ImportStep::begin(delivered), ImportStep::CheckSchema));
    assert!(matches!(
        ImportStep::begin(ImportedDeliveryState::Delivered { delivered_at: at(5) }),
        ImportStep::Failed(ImportError::InvalidState { .. })
    ));
    assert!(matches!(
        ImportStep::after_schema(Err(SchemaError::MigrationMismatch {
            detail: "drift".to_owned()
        })),
        ImportStep::Failed(ImportError::MigrationMismatch { .. })
    ));
    assert!(matches!(
        ImportStep::after_clock(Ok(at(7))),
        ImportStep::Failed(ImportError::InvalidState { .. })
    ));
    let ImportStep::InsertEvent { operation_time } = ImportStep::after_clock(Ok(at(9 * SECOND)))
    else {
        panic!("the clock is portable");
    };
    let ImportStep::InsertDelivery { row_id, delivery } =
        ImportStep::after_event_insert(delivered, operation_time, Ok(Some(2)))
    else {
        panic!("the event was inserted");
    };
    assert_eq!(delivery.state, "delivered");
    assert_eq!(delivery.attempts, 0);
    assert!(delivery.available_at.same(operation_time));
    assert!(delivery.delivered_at.expect("delivered").same(at(5 * SECOND)));
    assert!(matches!(
        ImportStep::after_delivery_insert(row_id, Ok(())),
        ImportStep::Done(ImportOutcome::Imported { .. })
    ));
    assert!(matches!(
        ImportStep::after_event_insert(
            ImportedDeliveryState::Unsupported,
            operation_time,
            Ok(Some(2))
        ),
        ImportStep::Failed(ImportError::MigrationMismatch { .. })
    ));

    let ImportStep::ReadDelivery {
        row_id,
        enqueued_at,
    } = ImportStep::after_existing(&content(), Ok(Some(existing())))
    else {
        panic!("the row holds the same event");
    };
    let stored = || DeliveryRow {
        state: "delivered".to_owned(),
        delivered_at: Some(at(5 * SECOND)),
        ..canonical_row(enqueued_at)
    };
    assert!(matches!(
        ImportStep::after_delivery(row_id, enqueued_at, delivered, Ok(Some(stored()))),
        ImportStep::Done(ImportOutcome::AlreadyImported { .. })
    ));
    assert!(matches!(
        ImportStep::after_delivery(
            row_id,
            enqueued_at,
            ImportedDeliveryState::Pending,
            Ok(Some(stored()))
        ),
        ImportStep::Failed(ImportError::ImportConflict { .. })
    ));
    assert!(matches!(
        ImportStep::after_delivery(row_id, enqueued_at, delivered, Ok(None)),
        ImportStep::Failed(ImportError::MigrationMismatch { .. })
    ));
    let other = EventContent {
        event_type: "com.example.other".to_owned(),
        ..content()
    };
    assert!(matches!(
        ImportStep::after_existing(&other, Ok(Some(existing()))),
        ImportStep::Failed(ImportError::IdentityConflict { .. })
    ));
    assert!(matches!(
        ImportStep::after_existing(&content(), Ok(None)),
        ImportStep::Failed(ImportError::Sql {
            operation: "resolve imported event",
            ..
        })
    ));
}

#[test]
fn finalizing_happens_once() {
    let enqueued_at = at(SECOND);
    let delivered_at = at(2 * SECOND);
    assert!(matches!(
        FinalizeStep::begin(delivered_at),
        FinalizeStep::CheckSchema
    ));
    assert!(matches!(
        FinalizeStep::begin(at(3)),
        FinalizeStep::Failed(FinalizeError::InvalidTimestamp { .. })
    ));
    assert!(matches!(
        FinalizeStep::after_event(Ok(None)),
        FinalizeStep::Failed(FinalizeError::NotFound)
    ));
    let step = |row: DeliveryRow, delivered_at: Instant| {
        FinalizeStep::after_delivery(self::row(8), enqueued_at, delivered_at, Ok(Some(row)))
    };
    assert!(matches!(
        step(canonical_row(enqueued_at), delivered_at),
        FinalizeStep::Update
    ));
    let finalized = || DeliveryRow {
        state: "delivered".to_owned(),
        delivered_at: Some(delivered_at),
        ..canonical_row(enqueued_at)
    };
    assert!(matches!(
        step(finalized(), delivered_at),
        FinalizeStep::Done(FinalizeOutcome::AlreadyFinalized { .. })
    ));
    assert!(matches!(
        step(finalized(), at(3 * SECOND)),
        FinalizeStep::Failed(FinalizeError::StateConflict { .. })
    ));
    assert!(matches!(
        FinalizeStep::after_update(row(8), Ok(1)),
        FinalizeStep::Done(FinalizeOutcome::Finalized { .. })
    ));
    assert!(matches!(
        FinalizeStep::after_update(row(8), Ok(0)),
        FinalizeStep::Failed(FinalizeError::StateConflict { .. })
    ));
    assert!(matches!(
        FinalizeStep::after_schema(Err(SchemaError::Sql {
            operation: "check columns",
            source: failure(),
        })),
        FinalizeStep::Failed(FinalizeError::Sql { .. })
    ));
}

fn candidate(event_row_id: i64, attempts: i64) -> ClaimCandidate {
    ClaimCandidate {
        event_row_id,
        tenant_id: "School-A".to_owned(),
        state: "pending".to_owned(),
        attempts,
        claim_token: None,
        event: columns(),
        occurred_at: Some(at(12 * SECOND)),
    }
}

#[test]
fn claims_are_prepared_before_any_update() {
    let candidates = vec![candidate(1, 0), candidate(2, 4)];
    let batch = prepare_claims(&candidates, &mut OsEntropy::new()).expect("two valid candidates");
    assert_eq!(batch.len(), 2);
    assert_eq!(batch[0].attempts(), 1);
    assert_eq!(batch[1].attempts(), 5);
    assert_eq!(batch[1].row_id().get(), 2);
    assert_eq!(batch[1].tenant_id(), "School-A");
    assert_ne!(batch[0].token(), batch[1].token());

    let holder = worker("builder").expect("valid worker");
    let mut batch = batch;
    let second = batch.pop().expect("two claims");
    let first = batch.pop().expect("one claim");
    let claim = complete_claim(first, &holder, Ok(Some(at(60 * SECOND)))).expect("completed");
    assert_eq!(claim.attempts(), 1);
    assert!(claim.expires_at().same(at(60 * SECOND)));
    let token = *claim.token();
    let domain = claim.into_claimed_event();
    assert_eq!(domain.attempts().get(), 1);
    assert_eq!(domain.row_id().get(), 1);
    assert_eq!(domain.tenant_id().as_str(), "School-A");
    assert_eq!(domain.event().id().as_str(), "event-1");
    assert_eq!(*domain.claim_token().as_bytes(), token);
    assert_eq!(domain.claimed_by().as_str(), "builder");
    assert_eq!(nanos(Some(domain.claim_expires_at())), Some(60 * SECOND));
    assert!(matches!(
        complete_claim(second, &holder, Ok(None)),
        Err(ClaimError::Sql {
            operation: "update claimed delivery",
            ..
        })
    ));

    let overflow = vec![candidate(1, 0), candidate(2, i64::MAX)];
    let Err(ClaimError::CounterOverflow { row_id }) = prepare_claims(&overflow, &mut OsEntropy::new())
    else {
        panic!("the counter is full");
    };
    assert_eq!(row_id.get(), 2);
    let terminal = vec![ClaimCandidate {
        state: "delivered".to_owned(),
        ..candidate(1, 0)
    }];
    assert!(matches!(
        prepare_claims(&terminal, &mut OsEntropy::new()),
        Err(ClaimError::Serialization { .. })
    ));
    let unnamed = vec![ClaimCandidate {
        tenant_id: String::new(),
        ..candidate(1, 0)
    }];
    assert!(matches!(
        prepare_claims(&unnamed, &mut OsEntropy::new()),
        Err(ClaimError::Serialization { .. })
    ));
}

fn claimed(token: u8, expires_at: i128) -> DeliveryForMutation {
    DeliveryForMutation {
        state: "claimed".to_owned(),
        claim_token: Some(vec![token; 16]),
        claim_expires_at: Some(at(expires_at)),
        operation_time: at(10 * SECOND),
    }
}

#[test]
fn only_a_live_claim_is_mutable() {
    assert!(classify_delivery(&claimed(1, 11 * SECOND), &[1; 16]).is_ok());
    assert!(matches!(
        classify_delivery(&claimed(1, 11 * SECOND), &[2; 16]),
        Err(MutationError::LostClaim)
    ));
    assert!(matches!(
        classify_delivery(&claimed(1, 10 * SECOND), &[1; 16]),
        Err(MutationError::LostClaim)
    ));
    for (name, state) in [
        ("pending", DeliveryState::Pending),
        ("delivered", DeliveryState::Delivered),
        ("quarantined", DeliveryState::Quarantined),
    ] {
        let Err(MutationError::IllegalTransition { state: found }) = classify_delivery(
            &DeliveryForMutation {
                state: name.to_owned(),
                ..claimed(1, 11 * SECOND)
            },
            &[1; 16],
        ) else {
            panic!("only claimed rows are mutable");
        };
        assert_eq!(found, state);
    }
    let details = |delivery: DeliveryForMutation| match classify_delivery(&delivery, &[1; 16]) {
        Err(MutationError::Serialization { detail }) => detail,
        other => panic!("unexpected {other:?}"),
    };
    assert_eq!(
        details(DeliveryForMutation {
            claim_token: None,
            ..claimed(1, 11 * SECOND)
        }),
        "claimed delivery has no claim token"
    );
    assert_eq!(
        details(DeliveryForMutation {
            claim_token: Some(vec![1; 15]),
            ..claimed(1, 11 * SECOND)
        }),
        "claimed delivery has an invalid claim token width"
    );
    assert_eq!(
        details(DeliveryForMutation {
            claim_expires_at: None,
            ..claimed(1, 11 * SECOND)
        }),
        "claimed delivery has no claim expiry"
    );
    assert_eq!(
        details(DeliveryForMutation {
            state: "lost".to_owned(),
            ..claimed(1, 11 * SECOND)
        }),
        "unknown delivery state \"lost\""
    );
}

#[test]
fn mutations_retry_a_locked_row_once() {
    assert!(matches!(
        MutationStep::FirstUpdate.after_update(Ok(1)),
        MutationStep::Commit
    ));
    let look = MutationStep::FirstUpdate.after_update(Ok(0));
    assert!(matches!(look, MutationStep::FirstLook));
    assert!(matches!(
        MutationStep::FirstLook.after_look(Ok(None), &[1; 16]),
        MutationStep::RollBack(MutationError::NotFound)
    ));
    let again = look.after_look(Ok(Some(claimed(1, 11 * SECOND))), &[1; 16]);
    assert!(matches!(again, MutationStep::SecondUpdate));
    let last = again.after_update(Ok(0));
    assert!(matches!(last, MutationStep::SecondLook));
    let MutationStep::RollBack(MutationError::Sql { operation, source }) =
        last.after_look(Ok(Some(claimed(1, 11 * SECOND))), &[1; 16])
    else {
        panic!("the update did nothing twice");
    };
    assert_eq!(operation, "conditional delivery mutation");
    assert!(source
        .to_string()
        .contains("locked claimed delivery did not satisfy mutation"));
    assert!(matches!(
        MutationStep::SecondLook.after_look(Ok(Some(claimed(1, SECOND))), &[1; 16]),
        MutationStep::RollBack(MutationError::LostClaim)
    ));
    assert!(matches!(
        committed(Err(failure())),
        Err(MutationError::Sql {
            operation: "commit mutation transaction",
            ..
        })
    ));
    assert!(committed(Ok(())).is_ok());
}

#[test]
fn mutation_statements_fence_with_the_token() {
    assert_eq!(
        mutation_statement(MutationKind::Retry)
            .split(" SET ")
            .nth(1)
            .expect("assignments"),
        "state = 'pending', available_at = operation.operation_time + $4, claim_token = NULL, \
         claimed_by = NULL, claim_expires_at = NULL, last_failure_code = $5, \
         last_failure_detail = $6 FROM operation WHERE ($1::varchar IS NULL OR \
         delivery.tenant_id = $1) AND delivery.event_row_id = operation.event_row_id AND \
         delivery.state = 'claimed' AND delivery.claim_token = $3 AND \
         delivery.claim_expires_at > operation.operation_time"
    );
    assert_eq!(
        claim_statement(),
        "UPDATE dovecote_deliveries SET state = 'claimed', attempts = $4, claim_token = $5, \
         claimed_by = $6, claim_expires_at = $3 + $7 WHERE tenant_id = $1 AND event_row_id = $2 \
         AND (state = 'pending' OR state = 'claimed') RETURNING claim_expires_at"
    );
}

fn shown(parameters: Vec<Parameter>) -> Vec<String> {
    parameters.iter().map(|parameter| format!("{parameter:?}")).collect()
}

#[test]
fn postgres_parameters_follow_their_numbers() {
    let row = row(5);
    let retry = Mutation::Retry {
        code: "timeout".to_owned(),
        detail: "upstream".to_owned(),
        backoff: Duration::from_millis(1500),
    };
    assert_eq!(retry.kind(), MutationKind::Retry);
    assert_eq!(
        shown(mutation_parameters(&retry, row, Some("School-A"), &[7; 16])),
        [
            "Text(\"School-A\")",
            "Number(5)",
            "Bytes([7, 7, 7, 7, 7, 7, 7, 7, 7, 7, 7, 7, 7, 7, 7, 7])",
            "Span(1.5s)",
            "Text(\"timeout\")",
            "Text(\"upstream\")",
        ]
    );
    for (mutation, own) in [
        (Mutation::Renew { lease: Duration::from_secs(1) }, vec!["Span(1s)"]),
        (Mutation::Ack, vec![]),
        (Mutation::Release { delay: Duration::from_secs(2) }, vec!["Span(2s)"]),
        (Mutation::Quarantine { reason: "poison".to_owned() }, vec!["Text(\"poison\")"]),
    ] {
        let values = shown(mutation_parameters(&mutation, row, None, &[0; 16]));
        assert_eq!(values[0], "Absent");
        assert_eq!(values[3..], own);
        let statement = mutation_statement(mutation.kind());
        assert!(!statement.contains(&format!("${}", values.len() + 1)));
    }

    let batch = prepare_claims(&vec![candidate(4, 2)], &mut OsEntropy::new())
        .expect("a valid candidate");
    let lease = Duration::from_secs(30);
    let values = shown(claim_parameters(&batch[0], "worker-1", lease, at(13 * SECOND)));
    assert_eq!(values[1], "Number(4)");
    assert_eq!(values[2], format!("Time({:?})", at(13 * SECOND)));
    assert_eq!(values[3], "Number(3)");
    assert_eq!(values[4], format!("Bytes({:?})", batch[0].token()));
    assert_eq!(values[5..], ["Text(\"worker-1\")", "Span(30s)"]);

    let values = shown(finalize_parameters(at(20 * SECOND), "School-A", row, at(13 * SECOND)));
    assert_eq!(
        values,
        [
            "Text(\"School-A\")".to_owned(),
            "Number(5)".to_owned(),
            format!("Time({:?})", at(13 * SECOND)),
            format!("Time({:?})", at(20 * SECOND)),
        ]
    );
    assert!(finalize_statement().starts_with(
        "UPDATE dovecote_deliveries SET state = 'delivered', delivered_at = $4 WHERE tenant_id = \
         $1 AND event_row_id = $2 AND state = 'pending' AND attempts = 0"
    ));
}

#[test]
fn postgres_normal_forms_keep_every_parenthesis() {
    assert_eq!(normalize_sql("a::text OR (B AND c)"), "aor(bandc)");
    assert_ne!(normalize_sql("(a OR b) AND c"), normalize_sql("a OR (b AND c)"));
    assert_ne!(normalize_sql("(a)"), normalize_sql("a"));
    assert_ne!(normalize_sql("(a)"), normalize_sql("((a))"));
}

fn fresh_delivery() -> PageDelivery {
    PageDelivery {
        state: "pending".to_owned(),
        available_at: at(13 * SECOND),
        attempts: 0,
        claim_token: None,
        claimed_by: None,
        claim_expires_at: None,
        last_failure_code: None,
        last_failure_detail: None,
        delivered_at: None,
        quarantined_at: None,
        quarantine_reason: None,
    }
}

fn page_row(row_id: i64) -> PageRow {
    PageRow {
        row_id,
        tenant_id: "School-A".to_owned(),
        columns: columns(),
        occurred_at: Some(at(12 * SECOND)),
        enqueued_at: at(13 * SECOND),
        delivery: Some(fresh_delivery()),
    }
}

#[test]
fn pages_show_every_delivery_state() {
    let rows = vec![
        page_row(1),
        PageRow {
            delivery: Some(PageDelivery {
                state: "claimed".to_owned(),
                attempts: 1,
                claim_token: Some(vec![1; 16]),
                claimed_by: Some("builder".to_owned()),
                claim_expires_at: Some(at(20 * SECOND)),
                ..fresh_delivery()
            }),
            ..page_row(2)
        },
        PageRow {
            delivery: Some(PageDelivery {
                state: "delivered".to_owned(),
                attempts: 1,
                delivered_at: Some(at(21 * SECOND)),
                ..fresh_delivery()
            }),
            ..page_row(3)
        },
        PageRow {
            delivery: Some(PageDelivery {
                state: "quarantined".to_owned(),
                attempts: 2,
                quarantined_at: Some(at(22 * SECOND)),
                quarantine_reason: Some("poison".to_owned()),
                last_failure_code: Some("E1".to_owned()),
                last_failure_detail: Some("broken".to_owned()),
                ..fresh_delivery()
            }),
            ..page_row(4)
        },
    ];
    let page = page_rows(Ok(rows)).expect("four valid rows");
    assert_eq!(page.len(), 4);
    assert_eq!(page[0].delivery().state, DeliveryState::Pending);
    assert_eq!(page[1].delivery().worker.as_deref(), Some("builder"));
    assert!(page[2]
        .delivery()
        .delivered_at
        .expect("delivered")
        .same(at(21 * SECOND)));
    assert_eq!(page[3].delivery().reason.as_deref(), Some("poison"));
    assert_eq!(
        page[3].delivery().last_failure,
        Some(("E1".to_owned(), "broken".to_owned()))
    );
    assert_eq!(page[3].row_id().get(), 4);
    assert_eq!(page[0].tenant_id(), "School-A");
    assert!(page[0].enqueued_at().same(at(13 * SECOND)));
    assert_eq!(page[0].event().stream, "audit");

    let mut export = begin_export(Ok(Some(9))).expect("rows to export");
    export.advance(&page, 4);
    assert!(!export.is_exhausted());
    assert_eq!(export.cursor().expect("a cursor").get(), 4);
    export.advance(&page, 5);
    assert!(export.is_exhausted());
    let mut last = begin_export(Ok(Some(4))).expect("rows to export");
    last.advance(&page, 4);
    assert!(last.is_exhausted());
    let domain: Vec<dovecote::PagedEvent> =
        page.into_iter().map(|page| page.into_paged_event()).collect();
    assert_eq!(domain.len(), 4);
    let pending = domain[0].delivery();
    assert_eq!(pending.state(), dovecote::DeliveryState::Pending);
    assert_eq!(nanos(pending.available_at()), Some(13 * SECOND));
    assert_eq!(pending.last_failure(), None);
    let claimed = domain[1].delivery();
    assert_eq!(claimed.attempts().get(), 1);
    assert_eq!(claimed.claimed_by().map(|worker| worker.as_str()), Some("builder"));
    assert_eq!(nanos(claimed.claim_expires_at()), Some(20 * SECOND));
    assert_eq!(nanos(domain[2].delivery().delivered_at()), Some(21 * SECOND));
    let quarantined = domain[3].delivery();
    assert_eq!(quarantined.quarantine_reason().map(|reason| reason.as_str()), Some("poison"));
    let failure = quarantined.last_failure().expect("a failure");
    assert_eq!((failure.code(), failure.detail()), ("E1", "broken"));
    assert_eq!(domain[3].tenant_id().as_str(), "School-A");
    assert_eq!(domain[3].row_id().get(), 4);
    assert_eq!(nanos(Some(domain[3].enqueued_at())), Some(13 * SECOND));
    assert_eq!(domain[3].event().id().as_str(), "event-1");
}

fn nanos(at: Option<time::OffsetDateTime>) -> Option<i128> {
    at.map(|at| at.unix_timestamp_nanos())
}

fn tagged(kind: &str, value: &str) -> String {
    format!("{{\"x\":{{\"type\":\"{kind}\",\"value\":\"{value}\"}}}}")
}

#[test]
fn stored_timestamps_without_a_rendering_are_refused() {
    let early = "0000-01-01T00:00:00+00:01";
    let late = "9999-12-31T23:59:59-00:01";
    let hydrated = |extensions: String| hydrate_event(&EventColumns { extensions, ..columns() }, None);
    let refusal = "extensions: hold a timestamp outside of the years 0 to 9999";
    for text in [
        tagged("timestamp", early),
        tagged("timestamp", late),
        tagged("timestamp", "\\u0030000-01-01T00:00:00+00:01"),
        tagged("time\\u0073tamp", late),
        format!("{{\"x\":{{\"value\":\"{early}\",\"type\":\"timestamp\"}}}}"),
        format!(" {{ \"x\" : {{ \"type\" : \"timestamp\" ,\n\"value\" : \"{late}\" }} }}"),
        format!(
            "{{\"a\":{{\"type\":\"boolean\",\"value\":true}},\"x\":{{\"type\":\"timestamp\",\"value\":\"{early}\"}}}}"
        ),
    ] {
        assert_eq!(hydrated(text).expect_err("no rendering"), refusal);
    }
    let embedded = "{\"x\":{\"$serde_json::private::RawValue\":\"{}\"}}";
    assert_eq!(
        hydrated(embedded.to_owned()).expect_err("embedded"),
        "extensions: hold an embedded JSON text"
    );

    for text in [
        tagged("string", early),
        tagged("string", late),
        tagged("string", "$serde_json::private::RawValue"),
        tagged("timestamp", "2024-01-01T00:00:00Z"),
        tagged("timestamp", "9999-12-31T23:59:59.999999Z"),
        format!(
            "{{\"a\":{{\"type\":\"timestamp\",\"value\":\"1970-01-01T00:00:00Z\"}},\"b\":{{\"type\":\"string\",\"value\":\"{early}\"}}}}"
        ),
    ] {
        let (plain, event) = hydrated(text.clone()).expect("a valid set").into_parts();
        assert_eq!(plain.extensions, text);
        assert_eq!(event.extensions().canonical_json(), text);
    }
    assert_eq!(
        hydrated(tagged("timestamp", "0000-01-01T00:00:00Z")).expect_err("before the epoch"),
        "extension x has invalid timestamp value"
    );
}

#[test]
fn domain_events_hold_the_plain_values() {
    let row = EventColumns {
        dataschema: Some("https://example.com/schema".to_owned()),
        partitionkey: Some("key-1".to_owned()),
        extensions: "{\"lane\":{\"type\":\"string\",\"value\":\"fast\"}}".to_owned(),
        ..columns()
    };
    let stored = hydrate_event(&row, Some(at(12 * SECOND))).expect("a valid event");
    let (plain, event) = stored.into_parts();
    assert_eq!(event.stream().as_str(), plain.stream);
    assert_eq!(event.id().as_str(), plain.event_id);
    assert_eq!(event.source().as_str(), plain.source);
    assert_eq!(event.event_type().as_str(), plain.event_type);
    assert_eq!(event.subject().map(|text| text.as_str()), Some("account/7"));
    assert_eq!(nanos(event.time()), Some(12 * SECOND));
    assert_eq!(
        event.datacontenttype().map(|text| text.as_str()),
        plain.datacontenttype.as_deref()
    );
    assert_eq!(
        event.dataschema().map(|text| text.as_str()),
        Some("https://example.com/schema")
    );
    assert_eq!(event.partitionkey().map(|text| text.as_str()), Some("key-1"));
    assert_eq!(event.extensions().canonical_json(), row.extensions);
    assert_eq!(event.extensions().canonical_json(), plain.extensions);
    let data = event.data().expect("data");
    assert!(data.is_json());
    assert_eq!(data.as_bytes(), b"{\"a\":1}");

    let opaque = EventColumns {
        data_kind: Some("binary".to_owned()),
        data: Some(vec![0, 255]),
        ..columns()
    };
    let (_, event) = hydrate_event(&opaque, None).expect("a valid event").into_parts();
    let data = event.data().expect("data");
    assert!(!data.is_json());
    assert_eq!(data.as_bytes(), [0, 255]);
    assert_eq!(event.extensions().canonical_json(), "{}");
}

#[test]
fn pages_report_corrupt_rows() {
    let detail = |row: PageRow| match page_rows(Ok(vec![page_row(1), row])) {
        Err(PageError::Serialization { detail }) => detail,
        other => panic!("unexpected {other:?}"),
    };
    assert_eq!(
        detail(PageRow {
            delivery: Some(PageDelivery {
                delivered_at: Some(at(SECOND)),
                ..fresh_delivery()
            }),
            ..page_row(2)
        }),
        "pending delivered time must be NULL for its delivery state"
    );
    assert_eq!(
        detail(PageRow {
            delivery: Some(PageDelivery {
                state: "claimed".to_owned(),
                claim_token: Some(vec![1; 16]),
                ..fresh_delivery()
            }),
            ..page_row(2)
        }),
        "claimed delivery has no worker"
    );
    // The claim expiry is asked for before the worker is validated.
    assert_eq!(
        detail(PageRow {
            delivery: Some(PageDelivery {
                state: "claimed".to_owned(),
                claim_token: Some(vec![1; 16]),
                claimed_by: Some(String::new()),
                ..fresh_delivery()
            }),
            ..page_row(2)
        }),
        "claimed delivery has no claim expiry"
    );
    assert_eq!(
        detail(PageRow {
            delivery: Some(PageDelivery {
                state: "delivered".to_owned(),
                ..fresh_delivery()
            }),
            ..page_row(2)
        }),
        "delivered delivery has no delivered time"
    );
    assert_eq!(
        detail(PageRow {
            delivery: Some(PageDelivery {
                state: "quarantined".to_owned(),
                quarantined_at: Some(at(SECOND)),
                ..fresh_delivery()
            }),
            ..page_row(2)
        }),
        "quarantined delivery has no quarantine reason"
    );
    assert_eq!(
        detail(PageRow {
            delivery: Some(PageDelivery {
                last_failure_code: Some("E1".to_owned()),
                ..fresh_delivery()
            }),
            ..page_row(2)
        }),
        "delivery failure code and detail must be both NULL or non-NULL"
    );
    assert_eq!(
        detail(PageRow {
            delivery: Some(PageDelivery {
                attempts: -1,
                ..fresh_delivery()
            }),
            ..page_row(2)
        }),
        "attempts: is outside the supported range"
    );
    assert_eq!(
        detail(PageRow {
            enqueued_at: at(1),
            ..page_row(2)
        }),
        "enqueued_at: has unsupported precision"
    );
    assert_eq!(
        detail(PageRow {
            delivery: None,
            ..page_row(12)
        }),
        "event row 12 has no required delivery row"
    );
    assert!(matches!(
        page_rows(Err(failure())),
        Err(PageError::Sql {
            operation: "read event page",
            ..
        })
    ));
    assert!(matches!(
        begin_export(Ok(Some(0))),
        Err(PageError::Serialization { .. })
    ));
}

#[test]
fn every_attribute_is_validated() {
    let refused = |change: fn(&mut EventColumns)| -> String {
        let mut changed = columns();
        change(&mut changed);
        hydrate_event(&changed, None).expect_err("an invalid row")
    };
    assert_eq!(
        refused(|c| c.stream = String::new()),
        "stream: must not be empty"
    );
    assert_eq!(
        refused(|c| c.stream = "-audit".to_owned()),
        "stream: contains forbidden characters"
    );
    assert_eq!(
        refused(|c| c.stream = "a".repeat(256)),
        "stream: has an invalid byte length"
    );
    assert_eq!(
        refused(|c| c.event_id = "a\u{7f}".to_owned()),
        "event id: contains forbidden characters"
    );
    assert_eq!(
        refused(|c| c.event_id = "i".repeat(1_025)),
        "event id: has an invalid byte length"
    );
    assert_eq!(
        refused(|c| c.source = "not a uri".to_owned()),
        "source: has invalid syntax"
    );
    assert_eq!(
        refused(|c| c.event_type = "\u{fffe}".to_owned()),
        "event type: contains forbidden characters"
    );
    assert_eq!(
        refused(|c| c.subject = Some("s".repeat(2_049))),
        "subject: has an invalid byte length"
    );
    assert_eq!(
        refused(|c| c.datacontenttype = Some("json".to_owned())),
        "datacontenttype: must be a valid media type"
    );
    assert_eq!(
        refused(|c| c.datacontenttype = Some("text/plain".to_owned())),
        "datacontenttype: is invalid in combination with another value"
    );
    assert_eq!(
        refused(|c| c.dataschema = Some("relative".to_owned())),
        "URI: has invalid syntax"
    );
    assert_eq!(
        refused(|c| c.partitionkey = Some(String::new())),
        "partition key: must not be empty"
    );
    assert!(hydrate_event(&columns(), None).is_ok());

    let detail = |row: PageRow| match page_rows(Ok(vec![row])) {
        Err(PageError::Serialization { detail }) => detail,
        other => panic!("unexpected {other:?}"),
    };
    assert_eq!(
        detail(PageRow {
            delivery: Some(PageDelivery {
                last_failure_code: Some("c".repeat(129)),
                last_failure_detail: Some("broken".to_owned()),
                ..fresh_delivery()
            }),
            ..page_row(1)
        }),
        "failure code: has an invalid byte length"
    );
    assert_eq!(
        detail(PageRow {
            delivery: Some(PageDelivery {
                last_failure_code: Some("E1".to_owned()),
                last_failure_detail: Some(String::new()),
                ..fresh_delivery()
            }),
            ..page_row(1)
        }),
        "failure detail: must not be empty"
    );
    assert_eq!(
        detail(PageRow {
            delivery: Some(PageDelivery {
                state: "claimed".to_owned(),
                claim_token: Some(vec![1; 16]),
                claimed_by: Some(String::new()),
                claim_expires_at: Some(at(SECOND)),
                ..fresh_delivery()
            }),
            ..page_row(1)
        }),
        "worker_id: must not be empty"
    );
    assert_eq!(
        detail(PageRow {
            delivery: Some(PageDelivery {
                state: "claimed".to_owned(),
                claim_token: Some(vec![1; 16]),
                claimed_by: Some("builder".to_owned()),
                claim_expires_at: Some(at(1)),
                ..fresh_delivery()
            }),
            ..page_row(1)
        }),
        "claim_expires_at: has unsupported precision"
    );
    assert_eq!(
        detail(PageRow {
            delivery: Some(PageDelivery {
                state: "delivered".to_owned(),
                delivered_at: Some(at(-1)),
                ..fresh_delivery()
            }),
            ..page_row(1)
        }),
        "delivered_at: is outside the supported range"
    );
    assert_eq!(
        detail(PageRow {
            delivery: Some(PageDelivery {
                state: "quarantined".to_owned(),
                quarantined_at: Some(at(1)),
                quarantine_reason: Some("poison".to_owned()),
                ..fresh_delivery()
            }),
            ..page_row(1)
        }),
        "quarantined_at: has unsupported precision"
    );
    assert_eq!(
        detail(PageRow {
            delivery: Some(PageDelivery {
                state: "quarantined".to_owned(),
                quarantined_at: Some(at(SECOND)),
                quarantine_reason: Some("r".repeat(2_049)),
                ..fresh_delivery()
            }),
            ..page_row(1)
        }),
        "quarantine reason: has an invalid byte length"
    );
    assert_eq!(
        detail(PageRow {
            delivery: Some(PageDelivery {
                available_at: at(1),
                ..fresh_delivery()
            }),
            ..page_row(1)
        }),
        "available_at: has unsupported precision"
    );
    assert_eq!(
        detail(PageRow {
            tenant_id: "\u{2003}".to_owned(),
            ..page_row(1)
        }),
        "tenant id: must not be empty"
    );
    let holder = worker("builder").expect("valid worker");
    let mut batch = prepare_claims(&vec![candidate(1, 0)], &mut OsEntropy::new()).expect("one claim");
    let Err(ClaimError::Serialization { detail }) = complete_claim(
        batch.pop().expect("one claim"),
        &holder,
        Ok(Some(at(1))),
    ) else {
        panic!("the expiry is too fine");
    };
    assert_eq!(detail, "claim_expires_at: has unsupported precision");
}

#[test]
fn a_claim_walks_from_its_start_to_its_commit() {
    assert!(matches!(ClaimStep::after_begin(false, Ok(())), Ok(ClaimStep::ReadClock)));
    assert!(matches!(ClaimStep::after_begin(true, Ok(())), Ok(ClaimStep::BindTenant)));
    assert!(matches!(
        ClaimStep::after_begin(true, Err(failure())),
        Err(ClaimError::Sql { operation: "begin claim transaction", .. })
    ));
    assert!(matches!(ClaimStep::after_binding(Ok(())), ClaimStep::ReadClock));
    assert!(matches!(
        ClaimStep::after_binding(Err(failure())),
        ClaimStep::RollBack(ClaimError::Sql { operation: "bind claim tenant", .. })
    ));
    assert!(matches!(
        ClaimStep::after_clock(Err(failure())),
        ClaimStep::RollBack(ClaimError::Sql { operation: "read claim operation time", .. })
    ));
    assert!(matches!(
        ClaimStep::after_clock(Ok(at(5 * SECOND))),
        ClaimStep::SelectCandidates { operation_time } if operation_time.same(at(5 * SECOND))
    ));
    assert!(matches!(
        ClaimStep::after_candidates(Err(failure()), &mut OsEntropy::new()),
        ClaimStep::RollBack(ClaimError::Sql { operation: "select claim candidates", .. })
    ));
    assert!(matches!(
        ClaimStep::after_candidates(Ok(Vec::new()), &mut OsEntropy::new()),
        ClaimStep::Commit(claimed) if claimed.is_empty()
    ));
    assert!(matches!(
        ClaimStep::after_candidates(Ok(vec![candidate(1, i64::MAX)]), &mut OsEntropy::new()),
        ClaimStep::RollBack(ClaimError::CounterOverflow { row_id }) if row_id.get() == 1
    ));

    let holder = worker("builder").expect("valid worker");
    let ClaimStep::Update(batch) =
        ClaimStep::after_candidates(Ok(vec![candidate(1, 0), candidate(2, 4)]), &mut OsEntropy::new())
    else {
        panic!("two rows to update");
    };
    let ClaimStep::Update(rest) =
        ClaimStep::after_update(batch, &holder, Ok(Some(at(20 * SECOND))))
    else {
        panic!("one row left to update");
    };
    assert_eq!((rest.claimed.len(), rest.waiting.len()), (1, 1));
    assert_eq!(rest.waiting[0].row_id().get(), 2);
    let ClaimStep::Commit(claimed) =
        ClaimStep::after_update(rest, &holder, Ok(Some(at(21 * SECOND))))
    else {
        panic!("nothing left to update");
    };
    assert_eq!(
        claimed.iter().map(|claim| claim.row_id().get()).collect::<Vec<i64>>(),
        vec![1, 2]
    );
    assert_eq!(claimed[1].attempts(), 5);
    assert!(claimed[1].expires_at().same(at(21 * SECOND)));
    let handed = claim_committed(claimed, Ok(())).expect("committed");
    assert_eq!(handed.len(), 2);
    assert!(matches!(
        claim_committed(handed, Err(failure())),
        Err(ClaimError::Sql { operation: "commit claim transaction", .. })
    ));

    let ClaimStep::Update(batch) =
        ClaimStep::after_candidates(Ok(vec![candidate(1, 0)]), &mut OsEntropy::new())
    else {
        panic!("one row to update");
    };
    assert!(matches!(
        ClaimStep::after_update(batch, &holder, Ok(None)),
        ClaimStep::RollBack(ClaimError::Sql {
            operation: "update claimed delivery",
            source: sqlx::Error::Protocol(detail),
        }) if detail == "claim candidate disappeared while locked"
    ));
}

#[test]
fn a_scoped_mutation_binds_its_tenant_first() {
    assert!(matches!(
        MutationStep::after_begin(true, Ok(())),
        Ok(MutationStep::BindTenant)
    ));
    assert!(matches!(
        MutationStep::after_begin(false, Ok(())),
        Ok(MutationStep::FirstUpdate)
    ));
    assert!(matches!(
        MutationStep::after_begin(false, Err(failure())),
        Err(MutationError::Sql { operation: "begin mutation transaction", .. })
    ));
    assert!(matches!(MutationStep::after_binding(Ok(())), MutationStep::FirstUpdate));
    assert!(matches!(
        MutationStep::after_binding(Err(failure())),
        MutationStep::RollBack(MutationError::Sql { operation: "bind mutation tenant", .. })
    ));
}
