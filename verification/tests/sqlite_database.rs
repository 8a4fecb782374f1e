//! Runs the SQLite adapter's decisions against a database in memory.

use std::time::Duration;

use dovecote_sqlx::attribute::worker;
use dovecote_sqlx::delivery::{HydratedClaim, HydratedPage};
use dovecote_sqlx::event::{event_columns as stored_columns, EventColumns, EventContent, EventData};
use dovecote_sqlx::imported::{
    EnqueueOutcome, FinalizeOutcome, ImportOutcome, ImportedDeliveryState,
};
use dovecote_sqlx::instant::{format_timestamp, Instant};
use dovecote_sqlx::paging::page_start;
use dovecote_sqlx::sqlite::artifacts::{
    BASELINE_SQL, LEGACY_SQL, V1_TENANT_ACTIVATE_SQL, V1_TENANT_PREPARE_SQL,
};
use dovecote_sqlx::sqlite::busy::{
    busy_timeout_installed, busy_timeout_statement, foreign_keys_installed, BusyConfig,
};
use dovecote_sqlx::sqlite::delivery_state::DeliveryRow;
use dovecote_sqlx::sqlite::enqueue::{
    occurrence_text, EnqueueStep, ExistingEvent, InsertedEvent,
};
use dovecote_sqlx::sqlite::error::{
    is_busy, ClaimError, EnqueueError, FinalizeError, ImportError, MutationError, PageError,
    SchemaError,
};
use dovecote_sqlx::sqlite::finalize::FinalizeStep;
use dovecote_sqlx::sqlite::hydrate::DurableRow;
use dovecote_sqlx::sqlite::import::ImportStep;
use dovecote_sqlx::sqlite::lifecycle::{
    begin_claim, committed as claim_committed, ClaimCandidate, ClaimStep,
};
use dovecote_sqlx::sqlite::lifecycle_mutation::{
    begin_mutation, committed as mutation_committed, DeliveryForMutation, Mutation, MutationStep,
};
use dovecote_sqlx::sqlite::page::{begin_export, next_turn, page_rows, PagerTurn};
use dovecote_sqlx::sqlite::schema::catalog::{
    Collations, ForeignKeyRow, IndexRow, SchemaMarker, SchemaObject, TableColumn, TableSource,
};
use dovecote_sqlx::sqlite::schema::check::{CatalogReply, SchemaCheck};
use dovecote_sqlx::sqlite::statement::{
    claim_parameters, claim_statement, finalize_parameters, finalize_statement,
    mutation_parameters, mutation_statement, Parameter,
};
use dovecote_sqlx::token::{Draws, EntropySource, OsEntropy, Requests};
use dovecote_sqlx::value::{DeliveryState, RowId};
use sqlx::sqlite::{SqliteConnectOptions, SqliteRow};
use sqlx::{query, query_scalar, raw_sql, AssertSqlSafe, Connection, Row, SqliteConnection};

const SECOND: i128 = 1_000_000_000;

type Read<T> = Result<T, sqlx::Error>;

fn optional<T>(
    reply: Read<Option<SqliteRow>>,
    read: fn(&SqliteRow) -> Read<T>,
) -> Read<Option<T>> {
    reply.and_then(|row| row.as_ref().map(read).transpose())
}

fn all<T>(reply: Read<Vec<SqliteRow>>, read: fn(&SqliteRow) -> Read<T>) -> Read<Vec<T>> {
    reply.and_then(|rows| rows.iter().map(read).collect())
}

fn event_columns(row: &SqliteRow) -> Read<EventColumns> {
    Ok(EventColumns {
        stream: row.try_get("stream")?,
        specversion: row.try_get("specversion")?,
        event_id: row.try_get("event_id")?,
        source: row.try_get("source")?,
        event_type: row.try_get("event_type")?,
        subject: row.try_get("subject")?,
        datacontenttype: row.try_get("datacontenttype")?,
        dataschema: row.try_get("dataschema")?,
        partitionkey: row.try_get("partitionkey")?,
        extensions: row.try_get("extensions")?,
        data_kind: row.try_get("data_kind")?,
        data: row.try_get("data")?,
    })
}

fn inserted_event(row: &SqliteRow) -> Read<InsertedEvent> {
    Ok(InsertedEvent {
        row_id: row.try_get("row_id")?,
        enqueued_at: row.try_get("enqueued_at")?,
    })
}

fn existing_event(row: &SqliteRow) -> Read<ExistingEvent> {
    Ok(ExistingEvent {
        row_id: row.try_get("row_id")?,
        columns: event_columns(row)?,
        occurred_at: row.try_get("occurred_at")?,
        enqueued_at: row.try_get("enqueued_at")?,
    })
}

fn delivery_row(row: &SqliteRow) -> Read<DeliveryRow> {
    Ok(DeliveryRow {
        state: row.try_get("state")?,
        attempts: row.try_get("attempts")?,
        claim_token: row.try_get("claim_token")?,
        claimed_by: row.try_get("claimed_by")?,
        claim_expires_at: row.try_get("claim_expires_at")?,
        last_failure_code: row.try_get("last_failure_code")?,
        last_failure_detail: row.try_get("last_failure_detail")?,
        delivered_at: row.try_get("delivered_at")?,
        quarantined_at: row.try_get("quarantined_at")?,
        quarantine_reason: row.try_get("quarantine_reason")?,
        available_at: row.try_get("available_at")?,
    })
}

fn claim_candidate(row: &SqliteRow) -> Read<ClaimCandidate> {
    Ok(ClaimCandidate {
        event_row_id: row.try_get("row_id")?,
        tenant_id: row.try_get("tenant_id")?,
        attempts: row.try_get("attempts")?,
        claim_token: row.try_get("claim_token")?,
        event: event_columns(row)?,
        occurred_at: row.try_get("occurred_at")?,
    })
}

fn delivery_for_mutation(row: &SqliteRow) -> Read<DeliveryForMutation> {
    Ok(DeliveryForMutation {
        state: row.try_get("state")?,
        claim_token: row.try_get("claim_token")?,
        claim_expires_at: row.try_get("claim_expires_at")?,
    })
}

fn durable_row(row: &SqliteRow) -> Read<DurableRow> {
    Ok(DurableRow {
        row_id: row.try_get("row_id")?,
        tenant_id: row.try_get("tenant_id")?,
        columns: event_columns(row)?,
        occurred_at: row.try_get("occurred_at")?,
        enqueued_at: row.try_get("enqueued_at")?,
        state: row.try_get("state")?,
        available_at: row.try_get("available_at")?,
        attempts: row.try_get("attempts")?,
        claim_token: row.try_get("claim_token")?,
        claimed_by: row.try_get("claimed_by")?,
        claim_expires_at: row.try_get("claim_expires_at")?,
        last_failure_code: row.try_get("last_failure_code")?,
        last_failure_detail: row.try_get("last_failure_detail")?,
        delivered_at: row.try_get("delivered_at")?,
        quarantined_at: row.try_get("quarantined_at")?,
        quarantine_reason: row.try_get("quarantine_reason")?,
    })
}

fn marker(row: &SqliteRow) -> Read<SchemaMarker> {
    Ok(SchemaMarker {
        schema_version: row.try_get("schema_version")?,
        minimum_crate_major: row.try_get("minimum_crate_major")?,
        minimum_crate_minor: row.try_get("minimum_crate_minor")?,
        minimum_crate_patch: row.try_get("minimum_crate_patch")?,
        rolling_compatible: row.try_get("rolling_compatible")?,
    })
}

fn table_column(row: &SqliteRow) -> Read<TableColumn> {
    Ok(TableColumn {
        name: row.try_get("name").ok(),
        kind: row.try_get("type").ok(),
        primary_key: row.try_get("pk").ok(),
        not_null: row.try_get("notnull").ok(),
    })
}

fn table_source(row: &SqliteRow) -> Read<TableSource> {
    Ok(TableSource {
        name: row.try_get("name")?,
        sql: row.try_get("sql")?,
    })
}

fn schema_object(row: &SqliteRow) -> Read<SchemaObject> {
    Ok(SchemaObject {
        object_type: row.try_get("type")?,
        name: row.try_get("name")?,
        table_name: row.try_get("tbl_name")?,
    })
}

fn index_row(row: &SqliteRow) -> Read<IndexRow> {
    Ok(IndexRow {
        name: row.try_get("name").ok(),
        unique: row.try_get("unique").ok(),
    })
}

fn index_column(row: &SqliteRow) -> Read<Option<String>> {
    Ok(row.try_get("name").ok())
}

fn foreign_key(row: &SqliteRow) -> Read<ForeignKeyRow> {
    Ok(ForeignKeyRow {
        table: row.try_get("table").ok(),
        from: row.try_get("from").ok(),
        to: row.try_get("to").ok(),
    })
}

fn collations(reply: Read<Vec<SqliteRow>>) -> Read<Collations> {
    reply.map(|rows| Collations {
        keys: rows.iter().map(|row| row.try_get("key").ok()).collect(),
        collations: rows.iter().map(|row| row.try_get("coll").ok()).collect(),
    })
}

const MARKERS_SQL: &str = "SELECT schema_version, minimum_crate_major, minimum_crate_minor, minimum_crate_patch, rolling_compatible FROM dovecote_schema";

const TABLES_SQL: &str = "SELECT name, sql FROM sqlite_master WHERE type = 'table' AND name IN ('dovecote_schema', 'dovecote_events', 'dovecote_deliveries')";

const OBJECTS_SQL: &str = "SELECT type, name, COALESCE(tbl_name, '') AS tbl_name FROM sqlite_master WHERE (name LIKE 'dovecote_%' OR tbl_name IN ('dovecote_events', 'dovecote_deliveries')) AND NOT (type = 'table' AND name IN ('dovecote_schema', 'dovecote_events', 'dovecote_deliveries')) AND NOT (type = 'index' AND name IN ('dovecote_events_tenant_source_event_id', 'dovecote_events_tenant_row', 'dovecote_deliveries_claimable', 'dovecote_deliveries_expired_claims', 'sqlite_autoindex_dovecote_events_1')) UNION ALL SELECT type, name, COALESCE(tbl_name, '') AS tbl_name FROM sqlite_temp_master WHERE name LIKE 'dovecote_%' OR tbl_name IN ('dovecote_events', 'dovecote_deliveries')";

const CLOCK_SQL: &str = "SELECT strftime('%Y-%m-%dT%H:%M:%f000Z', 'now')";

const TABLE_SQL: &str = "SELECT name FROM sqlite_master WHERE type = 'table' AND name = ?";

const INSERT_EVENT_SQL: &str = "INSERT INTO dovecote_events (tenant_id, stream, specversion, event_id, source, event_type, subject, occurred_at, datacontenttype, dataschema, partitionkey, extensions, data_kind, data) VALUES (?, ?, ?, ?, ?, ?, ?, ?, ?, ?, ?, ?, ?, ?) ON CONFLICT(tenant_id, source, event_id) DO NOTHING RETURNING row_id, enqueued_at";

const INSERT_DELIVERY_SQL: &str = "INSERT INTO dovecote_deliveries (tenant_id, event_row_id, state, available_at) VALUES (?, ?, 'pending', ?)";

const EXISTING_EVENT_SQL: &str = "SELECT row_id, stream, specversion, event_id, source, event_type, subject, occurred_at, datacontenttype, dataschema, partitionkey, extensions, data_kind, data, enqueued_at FROM dovecote_events WHERE tenant_id = ? COLLATE BINARY AND source = ? COLLATE BINARY AND event_id = ? COLLATE BINARY";

const DELIVERY_EXISTS_SQL: &str =
    "SELECT event_row_id FROM dovecote_deliveries WHERE tenant_id = ? AND event_row_id = ?";

const IMPORT_EVENT_SQL: &str = "INSERT INTO dovecote_events (tenant_id, stream, specversion, event_id, source, event_type, subject, occurred_at, datacontenttype, dataschema, partitionkey, extensions, data_kind, data, enqueued_at) VALUES (?, ?, ?, ?, ?, ?, ?, ?, ?, ?, ?, ?, ?, ?, ?) ON CONFLICT(tenant_id, source, event_id) DO NOTHING RETURNING row_id";

const IMPORT_DELIVERY_SQL: &str = "INSERT INTO dovecote_deliveries (tenant_id, event_row_id, state, available_at, attempts, delivered_at) VALUES (?, ?, ?, ?, ?, ?)";

const DELIVERY_SQL: &str = "SELECT state, attempts, claim_token, claimed_by, claim_expires_at, last_failure_code, last_failure_detail, delivered_at, quarantined_at, quarantine_reason, available_at FROM dovecote_deliveries WHERE tenant_id = ? AND event_row_id = ?";

const LOCK_EVENT_SQL: &str =
    "SELECT enqueued_at FROM dovecote_events WHERE tenant_id = ? AND row_id = ?";

const CANDIDATES_SQL: &str = "SELECT e.row_id, e.tenant_id, e.stream, e.specversion, e.event_id, e.source, e.event_type, e.subject, e.occurred_at, e.datacontenttype, e.dataschema, e.partitionkey, e.extensions, e.data_kind, e.data, d.attempts, d.claim_token FROM dovecote_deliveries AS d JOIN dovecote_events AS e ON e.tenant_id = d.tenant_id AND e.row_id = d.event_row_id WHERE (? IS NULL OR e.tenant_id = ?) AND ((d.state = 'pending' AND d.available_at <= ?) OR (d.state = 'claimed' AND d.claim_expires_at <= ?)) ORDER BY d.event_row_id ASC LIMIT ?";

const LOOK_SQL: &str = "SELECT state, claim_token, claim_expires_at FROM dovecote_deliveries WHERE event_row_id = ? AND (? IS NULL OR tenant_id = ?)";

const UPPER_BOUND_SQL: &str =
    "SELECT MAX(row_id) FROM dovecote_events WHERE (? IS NULL OR tenant_id = ?)";

const PAGE_SQL: &str = "SELECT e.row_id, e.tenant_id, e.stream, e.specversion, e.event_id, e.source, e.event_type, e.subject, e.occurred_at, e.enqueued_at, e.datacontenttype, e.dataschema, e.partitionkey, e.extensions, e.data_kind, e.data, d.state, d.available_at, d.attempts, d.claim_token, d.claimed_by, d.claim_expires_at, d.last_failure_code, d.last_failure_detail, d.delivered_at, d.quarantined_at, d.quarantine_reason FROM dovecote_events AS e LEFT JOIN dovecote_deliveries AS d ON d.tenant_id = e.tenant_id AND d.event_row_id = e.row_id WHERE e.row_id > ? AND (? IS NULL OR e.row_id <= ?) AND (? IS NULL OR e.tenant_id = ?) ORDER BY e.row_id ASC LIMIT ?";

async fn check_schema(
    connection: &mut SqliteConnection,
) -> Result<(), SchemaError> {
    let mut check = SchemaCheck::Enforcement;
    loop {
        let reply = match check {
            SchemaCheck::Enforcement => CatalogReply::Enforcement(
                query_scalar("PRAGMA foreign_keys").fetch_one(&mut *connection).await,
            ),
            SchemaCheck::Markers => {
                let reply = query(MARKERS_SQL).fetch_all(&mut *connection).await;
                CatalogReply::Markers(all(reply, marker))
            }
            SchemaCheck::EventColumns => {
                let reply =
                    query("PRAGMA table_info(dovecote_events)").fetch_all(&mut *connection).await;
                CatalogReply::Columns(all(reply, table_column))
            }
            SchemaCheck::DeliveryColumns => {
                let reply = query("PRAGMA table_info(dovecote_deliveries)")
                    .fetch_all(&mut *connection)
                    .await;
                CatalogReply::Columns(all(reply, table_column))
            }
            SchemaCheck::Tables => {
                let reply = query(TABLES_SQL).fetch_all(&mut *connection).await;
                CatalogReply::Tables(all(reply, table_source))
            }
            SchemaCheck::Objects => {
                let reply = query(OBJECTS_SQL).fetch_all(&mut *connection).await;
                CatalogReply::Objects(all(reply, schema_object))
            }
            SchemaCheck::IndexList(index) => {
                let pragma = AssertSqlSafe(format!("PRAGMA index_list({})", index.table()));
                let reply = query(pragma).fetch_all(&mut *connection).await;
                CatalogReply::Indexes(all(reply, index_row))
            }
            SchemaCheck::IndexDefinition(index) => CatalogReply::Definition(
                query_scalar("SELECT sql FROM sqlite_master WHERE type = 'index' AND name = ?")
                    .bind(index.name())
                    .fetch_optional(&mut *connection)
                    .await,
            ),
            SchemaCheck::IndexColumns(index) => {
                let pragma = AssertSqlSafe(format!("PRAGMA index_info({})", index.name()));
                let reply = query(pragma).fetch_all(&mut *connection).await;
                CatalogReply::IndexColumns(all(reply, index_column))
            }
            SchemaCheck::IdentityCollation => {
                let reply = query("PRAGMA index_xinfo(dovecote_events_tenant_source_event_id)")
                    .fetch_all(&mut *connection)
                    .await;
                CatalogReply::Collations(collations(reply))
            }
            SchemaCheck::DeliveryForeignKey => {
                let reply = query("PRAGMA foreign_key_list(dovecote_deliveries)")
                    .fetch_all(&mut *connection)
                    .await;
                CatalogReply::ForeignKeys(all(reply, foreign_key))
            }
            SchemaCheck::Violations => {
                let reply = query("PRAGMA foreign_key_check").fetch_all(&mut *connection).await;
                CatalogReply::Violations(reply.map(|rows| rows.len()))
            }
            SchemaCheck::Accepted => return Ok(()),
        };
        check = check.advance(reply)?;
    }
}

async fn enqueue(
    connection: &mut SqliteConnection,
    tenant: &str,
    content: &EventContent,
) -> Result<EnqueueOutcome, EnqueueError> {
    let columns = stored_columns(content);
    let occurred_at = occurrence_text(content);
    let mut step = EnqueueStep::CheckWrite;
    loop {
        step = match step {
            EnqueueStep::CheckWrite => {
                EnqueueStep::after_write_check(Ok(true))
            }
            EnqueueStep::CheckEnforcement => EnqueueStep::after_enforcement(
                query_scalar("PRAGMA foreign_keys").fetch_one(&mut *connection).await,
            ),
            EnqueueStep::FindTable(table) => {
                let reply = query_scalar(TABLE_SQL)
                    .bind(table.name())
                    .fetch_optional(&mut *connection)
                    .await;
                EnqueueStep::after_table(table, reply)
            }
            EnqueueStep::InsertEvent => {
                let reply = query(INSERT_EVENT_SQL)
                    .bind(tenant)
                    .bind(columns.stream.as_str())
                    .bind(columns.specversion.as_str())
                    .bind(columns.event_id.as_str())
                    .bind(columns.source.as_str())
                    .bind(columns.event_type.as_str())
                    .bind(columns.subject.as_deref())
                    .bind(occurred_at.as_deref())
                    .bind(columns.datacontenttype.as_deref())
                    .bind(columns.dataschema.as_deref())
                    .bind(columns.partitionkey.as_deref())
                    .bind(columns.extensions.as_str())
                    .bind(columns.data_kind.as_deref())
                    .bind(columns.data.as_deref())
                    .fetch_optional(&mut *connection)
                    .await;
                EnqueueStep::after_event_insert(optional(reply, inserted_event))
            }
            EnqueueStep::InsertDelivery { row_id, available_at } => {
                let reply = query(INSERT_DELIVERY_SQL)
                    .bind(tenant)
                    .bind(row_id.get())
                    .bind(available_at)
                    .execute(&mut *connection)
                    .await;
                EnqueueStep::after_delivery_insert(row_id, reply.map(|_| ()))
            }
            EnqueueStep::FindDuplicate => {
                let reply = query(EXISTING_EVENT_SQL)
                    .bind(tenant)
                    .bind(columns.source.as_str())
                    .bind(columns.event_id.as_str())
                    .fetch_optional(&mut *connection)
                    .await;
                EnqueueStep::after_duplicate(content, optional(reply, existing_event))
            }
            EnqueueStep::CheckDelivery { row_id } => {
                let reply = query_scalar(DELIVERY_EXISTS_SQL)
                    .bind(tenant)
                    .bind(row_id.get())
                    .fetch_optional(&mut *connection)
                    .await;
                EnqueueStep::after_delivery_check(row_id, reply)
            }
            EnqueueStep::Done(outcome) => return Ok(outcome),
            EnqueueStep::Failed(error) => return Err(error),
        };
    }
}

async fn import(
    connection: &mut SqliteConnection,
    tenant: &str,
    content: &EventContent,
    state: ImportedDeliveryState,
) -> Result<ImportOutcome, ImportError> {
    let columns = stored_columns(content);
    let occurred_at = occurrence_text(content);
    let mut step = ImportStep::begin(state);
    loop {
        step = match step {
            ImportStep::CheckWrite => {
                ImportStep::after_write_check(Ok(true))
            }
            ImportStep::CheckSchema => {
                ImportStep::after_schema(check_schema(&mut *connection).await)
            }
            ImportStep::ReadClock => ImportStep::after_clock(
                query_scalar(CLOCK_SQL).fetch_one(&mut *connection).await,
            ),
            ImportStep::InsertEvent { operation_time } => {
                let reply = query_scalar(IMPORT_EVENT_SQL)
                    .bind(tenant)
                    .bind(columns.stream.as_str())
                    .bind(columns.specversion.as_str())
                    .bind(columns.event_id.as_str())
                    .bind(columns.source.as_str())
                    .bind(columns.event_type.as_str())
                    .bind(columns.subject.as_deref())
                    .bind(occurred_at.as_deref())
                    .bind(columns.datacontenttype.as_deref())
                    .bind(columns.dataschema.as_deref())
                    .bind(columns.partitionkey.as_deref())
                    .bind(columns.extensions.as_str())
                    .bind(columns.data_kind.as_deref())
                    .bind(columns.data.as_deref())
                    .bind(operation_time.as_str())
                    .fetch_optional(&mut *connection)
                    .await;
                ImportStep::after_event_insert(state, operation_time.as_str(), reply)
            }
            ImportStep::InsertDelivery { row_id, delivery } => {
                let reply = query(IMPORT_DELIVERY_SQL)
                    .bind(tenant)
                    .bind(row_id.get())
                    .bind(delivery.state)
                    .bind(delivery.available_at)
                    .bind(delivery.attempts)
                    .bind(delivery.delivered_at)
                    .execute(&mut *connection)
                    .await;
                ImportStep::after_delivery_insert(row_id, reply.map(|_| ()))
            }
            ImportStep::FindExisting => {
                let reply = query(EXISTING_EVENT_SQL)
                    .bind(tenant)
                    .bind(columns.source.as_str())
                    .bind(columns.event_id.as_str())
                    .fetch_optional(&mut *connection)
                    .await;
                ImportStep::after_existing(content, optional(reply, existing_event))
            }
            ImportStep::ReadDelivery { row_id, enqueued_at } => {
                let reply = query(DELIVERY_SQL)
                    .bind(tenant)
                    .bind(row_id.get())
                    .fetch_optional(&mut *connection)
                    .await;
                let reply = optional(reply, delivery_row);
                ImportStep::after_delivery(row_id, enqueued_at.as_str(), state, reply)
            }
            ImportStep::Done(outcome) => return Ok(outcome),
            ImportStep::Failed(error) => return Err(error),
        };
    }
}

async fn finalize(
    connection: &mut SqliteConnection,
    tenant: &str,
    row_id: RowId,
    delivered_at: Instant,
) -> Result<FinalizeOutcome, FinalizeError> {
    let update = finalize_statement();
    let mut available_at = String::new();
    let mut step = FinalizeStep::begin(delivered_at);
    loop {
        step = match step {
            FinalizeStep::CheckWrite => {
                FinalizeStep::after_write_check(Ok(true))
            }
            FinalizeStep::CheckSchema => {
                FinalizeStep::after_schema(check_schema(&mut *connection).await)
            }
            FinalizeStep::LockEvent => {
                let reply = query_scalar(LOCK_EVENT_SQL)
                    .bind(tenant)
                    .bind(row_id.get())
                    .fetch_optional(&mut *connection)
                    .await;
                FinalizeStep::after_event(reply)
            }
            FinalizeStep::LockDelivery { enqueued_at } => {
                available_at = enqueued_at;
                let reply = query(DELIVERY_SQL)
                    .bind(tenant)
                    .bind(row_id.get())
                    .fetch_optional(&mut *connection)
                    .await;
                let reply = optional(reply, delivery_row);
                FinalizeStep::after_delivery(row_id, available_at.as_str(), delivered_at, reply)
            }
            FinalizeStep::Update => {
                let at = format_timestamp(delivered_at);
                let mut statement = query(AssertSqlSafe(update.as_str()));
                for value in finalize_parameters(&at, tenant, row_id, &available_at) {
                    statement = match value {
                        Parameter::Absent => statement.bind(None::<String>),
                        Parameter::Text(text) => statement.bind(text),
                        Parameter::Number(number) => statement.bind(number),
                        Parameter::Bytes(bytes) => statement.bind(bytes),
                    };
                }
                let reply = statement.execute(&mut *connection).await;
                FinalizeStep::after_update(row_id, reply.map(|done| done.rows_affected()))
            }
            FinalizeStep::Done(outcome) => return Ok(outcome),
            FinalizeStep::Failed(error) => return Err(error),
        };
    }
}

async fn claim<E: EntropySource>(
    connection: &mut SqliteConnection,
    tenant: Option<&str>,
    name: &str,
    lease: Duration,
    limit: u32,
    entropy: &mut E,
) -> Result<Vec<HydratedClaim>, ClaimError> {
    let holder = worker(name).expect("a valid worker");
    let update = claim_statement();
    let lease_ms = begin_claim(BusyConfig::default(), lease)?;
    let reply = query("BEGIN IMMEDIATE").execute(&mut *connection).await;
    let mut step = ClaimStep::after_begin(reply.map(|_| ()))?;
    let mut claimed_at = String::new();
    loop {
        step = match step {
            ClaimStep::ReadClock => ClaimStep::after_clock(
                query_scalar(CLOCK_SQL).fetch_one(&mut *connection).await,
            ),
            ClaimStep::SelectCandidates { operation_time } => {
                claimed_at = operation_time;
                let reply = query(CANDIDATES_SQL)
                    .bind(tenant)
                    .bind(tenant)
                    .bind(claimed_at.as_str())
                    .bind(claimed_at.as_str())
                    .bind(i64::from(limit))
                    .fetch_all(&mut *connection)
                    .await;
                ClaimStep::after_candidates(all(reply, claim_candidate), entropy)
            }
            ClaimStep::Update(batch) => {
                let first = batch.waiting.first().expect("an update has a claim that waits");
                let mut statement = query_scalar(AssertSqlSafe(update.as_str()));
                for value in claim_parameters(first, name, lease_ms, &claimed_at) {
                    statement = match value {
                        Parameter::Absent => statement.bind(None::<String>),
                        Parameter::Text(text) => statement.bind(text),
                        Parameter::Number(number) => statement.bind(number),
                        Parameter::Bytes(bytes) => statement.bind(bytes),
                    };
                }
                let reply = statement.fetch_optional(&mut *connection).await;
                ClaimStep::after_update(batch, &holder, reply)
            }
            ClaimStep::Commit(claimed) => {
                let reply = query("COMMIT").execute(&mut *connection).await;
                return claim_committed(claimed, reply.map(|_| ()));
            }
            ClaimStep::RollBack(error) => {
                query("ROLLBACK").execute(&mut *connection).await.expect("rolled back");
                return Err(error);
            }
        };
    }
}

async fn mutate(
    connection: &mut SqliteConnection,
    tenant: Option<&str>,
    row_id: RowId,
    token: &[u8; 16],
    mutation: Mutation,
) -> Result<(), MutationError> {
    let mutation = begin_mutation(BusyConfig::default(), mutation)?;
    let update = mutation_statement(mutation.kind());
    let reply = query("BEGIN IMMEDIATE").execute(&mut *connection).await;
    let mut step = MutationStep::after_begin(reply.map(|_| ()))?;
    let mut changed_at = String::new();
    loop {
        step = match step {
            MutationStep::ReadClock => MutationStep::after_clock(
                query_scalar(CLOCK_SQL).fetch_one(&mut *connection).await,
            ),
            MutationStep::Update { operation_time } => {
                changed_at = operation_time;
                let mut statement = query(AssertSqlSafe(update.as_str()));
                for value in mutation_parameters(&mutation, &changed_at, row_id, tenant, token) {
                    statement = match value {
                        Parameter::Absent => statement.bind(None::<String>),
                        Parameter::Text(text) => statement.bind(text),
                        Parameter::Number(number) => statement.bind(number),
                        Parameter::Bytes(bytes) => statement.bind(bytes),
                    };
                }
                let reply = statement.execute(&mut *connection).await;
                MutationStep::after_update(reply.map(|done| done.rows_affected()))
            }
            MutationStep::Classify => {
                let reply = query(LOOK_SQL)
                    .bind(row_id.get())
                    .bind(tenant)
                    .bind(tenant)
                    .fetch_optional(&mut *connection)
                    .await;
                let reply = optional(reply, delivery_for_mutation);
                let error = MutationStep::after_classification(token, changed_at.as_str(), reply);
                MutationStep::RollBack(error)
            }
            MutationStep::Commit => {
                let reply = query("COMMIT").execute(&mut *connection).await;
                return mutation_committed(reply.map(|_| ()));
            }
            MutationStep::RollBack(error) => {
                query("ROLLBACK").execute(&mut *connection).await.expect("rolled back");
                return Err(error);
            }
        };
    }
}

async fn read_page(
    connection: &mut SqliteConnection,
    tenant: Option<&str>,
    after: i64,
    up_to: Option<i64>,
    limit: u32,
) -> Result<Vec<HydratedPage>, PageError> {
    let reply = query(PAGE_SQL)
        .bind(after)
        .bind(up_to)
        .bind(up_to)
        .bind(tenant)
        .bind(tenant)
        .bind(i64::from(limit))
        .fetch_all(connection)
        .await;
    page_rows(all(reply, durable_row))
}

async fn opened(schema: &'static str) -> SqliteConnection {
    let mut connection = SqliteConnection::connect("sqlite::memory:")
        .await
        .expect("a database in memory");
    query("PRAGMA foreign_keys = ON")
        .execute(&mut connection)
        .await
        .expect("foreign keys enabled");
    let enabled = query_scalar("PRAGMA foreign_keys")
        .fetch_one(&mut connection)
        .await
        .expect("the setting");
    assert!(foreign_keys_installed(enabled).is_ok());
    run(&mut connection, schema).await;
    connection
}

async fn run(connection: &mut SqliteConnection, sql: &'static str) {
    raw_sql(sql).execute(&mut *connection).await.expect("the statements succeed");
}

async fn count(connection: &mut SqliteConnection, sql: &'static str) -> i64 {
    query_scalar(sql).fetch_one(&mut *connection).await.expect("a number")
}

fn at(nanos: i128) -> Instant {
    Instant::from_unix_nanos(nanos).expect("the instant lies in the calendar")
}

fn event(id: &str) -> EventContent {
    EventContent {
        stream: "audit".to_owned(),
        event_id: id.to_owned(),
        source: "https://example.test/source".to_owned(),
        event_type: "com.example.created".to_owned(),
        subject: None,
        time: None,
        datacontenttype: None,
        dataschema: None,
        partitionkey: None,
        extensions: "{}".to_owned(),
        data: None,
    }
}

fn enqueued(outcome: EnqueueOutcome) -> RowId {
    match outcome {
        EnqueueOutcome::Enqueued { row_id } => row_id,
        EnqueueOutcome::AlreadyEnqueued { .. } => panic!("the event is new"),
    }
}

fn lease(seconds: u64) -> Duration {
    Duration::from_secs(seconds)
}

fn token_of(claim: HydratedClaim) -> [u8; 16] {
    *claim.into_claimed_event().claim_token().as_bytes()
}

struct NoEntropy;

impl EntropySource for NoEntropy {
    fn draws(&self) -> Draws {
        unreachable!("the record of draws is never computed")
    }

    fn requests(&self) -> Requests {
        unreachable!("the record of requests is never computed")
    }

    fn fill(&mut self, _output: &mut [u8]) -> Result<(), getrandom::Error> {
        Err(getrandom::Error::new_custom(1))
    }
}

fn mismatch(result: Result<(), SchemaError>) -> String {
    match result {
        Err(SchemaError::MigrationMismatch { detail }) => detail,
        other => panic!("unexpected {other:?}"),
    }
}

#[test]
fn the_baseline_passes_the_whole_check() {
    sqlx::__rt::test_block_on(async {
        let mut connection = opened(BASELINE_SQL).await;
        check_schema(&mut connection).await.expect("the shipped schema");
        let (milliseconds, statement) = busy_timeout_statement(BusyConfig::new(
            Duration::from_millis(25),
            0,
        ))
        .expect("a valid policy");
        query(AssertSqlSafe(statement))
            .execute(&mut connection)
            .await
            .expect("the timeout is set");
        let installed = count(&mut connection, "PRAGMA busy_timeout").await;
        assert!(busy_timeout_installed(milliseconds, installed).is_ok());
    });
}

#[test]
fn a_tenant_less_schema_becomes_the_baseline() {
    sqlx::__rt::test_block_on(async {
        let mut connection = opened(LEGACY_SQL).await;
        run(
            &mut connection,
            "INSERT INTO dovecote_events (stream, specversion, event_id, source, event_type) \
             VALUES ('audit', '1.0', 'event-1', 'https://example.test/source', 'com.example.test'); \
             INSERT INTO dovecote_deliveries (event_row_id, state) VALUES (1, 'pending')",
        )
        .await;
        run(&mut connection, V1_TENANT_PREPARE_SQL).await;
        run(
            &mut connection,
            "UPDATE dovecote_events SET tenant_id = 'tenant-a'; \
             UPDATE dovecote_deliveries SET tenant_id = 'tenant-a'",
        )
        .await;
        run(&mut connection, V1_TENANT_ACTIVATE_SQL).await;
        check_schema(&mut connection).await.expect("the activated schema");
        for table in [
            "SELECT COUNT(*) FROM dovecote_events",
            "SELECT COUNT(*) FROM dovecote_deliveries",
            "SELECT COUNT(*) FROM dovecote_schema",
        ] {
            assert_eq!(count(&mut connection, table).await, 1);
        }
        let page = read_page(&mut connection, Some("tenant-a"), 0, None, 10)
            .await
            .expect("the kept event");
        assert_eq!(page[0].event().event_id, "event-1");
        assert_eq!(page[0].delivery().state, DeliveryState::Pending);
    });
}

#[test]
fn activation_refuses_orphans_and_gaps_in_the_backfill() {
    sqlx::__rt::test_block_on(async {
        let mut orphans = opened(LEGACY_SQL).await;
        run(
            &mut orphans,
            "PRAGMA foreign_keys = OFF; \
             INSERT INTO dovecote_deliveries (event_row_id, state) VALUES (999, 'pending'); \
             PRAGMA foreign_keys = ON",
        )
        .await;
        run(&mut orphans, V1_TENANT_PREPARE_SQL).await;
        run(&mut orphans, "UPDATE dovecote_deliveries SET tenant_id = 'tenant-a'").await;
        assert!(raw_sql(V1_TENANT_ACTIVATE_SQL).execute(&mut orphans).await.is_err());
        let tables = "SELECT COUNT(*) FROM sqlite_master WHERE type = 'table' AND name = 'dovecote_events'";
        assert_eq!(count(&mut orphans, tables).await, 1);

        let mut gaps = opened(LEGACY_SQL).await;
        run(
            &mut gaps,
            "INSERT INTO dovecote_events (stream, specversion, event_id, source, event_type) \
             VALUES ('audit', '1.0', 'event-1', 'https://example.test/source', 'com.example.test')",
        )
        .await;
        run(&mut gaps, V1_TENANT_PREPARE_SQL).await;
        assert!(raw_sql(V1_TENANT_ACTIVATE_SQL).execute(&mut gaps).await.is_err());
        assert_eq!(count(&mut gaps, tables).await, 1);
    });
}

#[test]
fn every_drift_of_the_schema_is_reported() {
    sqlx::__rt::test_block_on(async {
        for (change, detail) in [
            (
                "PRAGMA foreign_keys = OFF",
                "foreign-key enforcement is disabled",
            ),
            (
                "DELETE FROM dovecote_schema",
                "expected exactly one schema marker row, found 0",
            ),
            (
                "UPDATE dovecote_schema SET minimum_crate_patch = 1",
                "schema marker is incompatible with this adapter",
            ),
            (
                "DROP INDEX dovecote_events_tenant_source_event_id",
                "required index dovecote_events_tenant_source_event_id is missing",
            ),
            (
                "DROP INDEX dovecote_deliveries_claimable; CREATE INDEX dovecote_deliveries_claimable \
                 ON dovecote_deliveries (tenant_id, state, event_row_id)",
                "index dovecote_deliveries_claimable definition is incompatible",
            ),
            (
                "ALTER TABLE dovecote_schema ADD COLUMN marker_corruption INTEGER",
                "table dovecote_schema definition is incompatible with schema version 2",
            ),
            (
                "ALTER TABLE dovecote_deliveries RENAME COLUMN claimed_by TO holder",
                "required column dovecote_deliveries.claimed_by is missing",
            ),
            (
                "CREATE TRIGGER dovecote_probe AFTER INSERT ON dovecote_events BEGIN SELECT 1; END",
                "unsupported SQLite schema object trigger dovecote_probe on dovecote_events",
            ),
            (
                "CREATE TEMP TRIGGER probe AFTER INSERT ON dovecote_events BEGIN SELECT 1; END",
                "unsupported SQLite schema object trigger probe on dovecote_events",
            ),
            (
                "PRAGMA foreign_keys = OFF; INSERT INTO dovecote_deliveries (event_row_id, tenant_id, state) \
                 VALUES (999, 'tenant-a', 'pending'); PRAGMA foreign_keys = ON",
                "installed schema contains foreign-key violations",
            ),
        ] {
            let mut connection = opened(BASELINE_SQL).await;
            run(&mut connection, change).await;
            assert_eq!(mismatch(check_schema(&mut connection).await), detail);
        }
        for change in [
            "PRAGMA writable_schema = ON; UPDATE sqlite_master SET sql = REPLACE(sql, 'DEFAULT ''{}''', \
             'DEFAULT ''[]''') WHERE name = 'dovecote_events'; PRAGMA writable_schema = OFF",
            "PRAGMA writable_schema = ON; UPDATE sqlite_master SET sql = REPLACE(sql, \
             'CHECK (attempts >= 0)', 'CHECK (attempts >= 0 OR 1 = 1)') WHERE name = 'dovecote_deliveries'; \
             PRAGMA writable_schema = OFF",
        ] {
            let mut connection = opened(BASELINE_SQL).await;
            run(&mut connection, change).await;
            assert!(mismatch(check_schema(&mut connection).await).ends_with(
                "definition is incompatible with schema version 2"
            ));
        }
    });
}

#[test]
fn an_enqueue_is_idempotent_and_reads_back() {
    sqlx::__rt::test_block_on(async {
        let mut connection = opened(BASELINE_SQL).await;
        let full = EventContent {
            subject: Some("student/1".to_owned()),
            time: Some(at(1_700_000_000 * SECOND + 123_456_000)),
            datacontenttype: Some("application/json".to_owned()),
            dataschema: Some("https://example.test/schema".to_owned()),
            partitionkey: Some("north".to_owned()),
            data: Some(EventData::Json(b"{\"a\":1}".to_vec())),
            ..event("full")
        };
        let binary = EventContent {
            datacontenttype: Some("application/octet-stream".to_owned()),
            data: Some(EventData::Binary(vec![0, 255])),
            ..event("binary")
        };
        let first = enqueued(enqueue(&mut connection, "School-A", &full).await.expect("new"));
        enqueued(enqueue(&mut connection, "School-A", &binary).await.expect("new"));
        assert_eq!(
            enqueue(&mut connection, "School-A", &full).await.expect("known"),
            EnqueueOutcome::AlreadyEnqueued { row_id: first }
        );
        // The same identity of another tenant is another event.
        enqueued(enqueue(&mut connection, "School-B", &full).await.expect("new"));
        let changed = EventContent {
            subject: Some("student/2".to_owned()),
            ..event("full")
        };
        assert!(matches!(
            enqueue(&mut connection, "School-A", &changed).await,
            Err(EnqueueError::IdempotencyConflict { existing_row_id }) if existing_row_id == first
        ));

        let page = read_page(&mut connection, Some("School-A"), page_start(None), None, 10)
            .await
            .expect("two rows");
        assert_eq!(page.len(), 2);
        let shown = page[0].event();
        assert_eq!(shown.subject.as_deref(), Some("student/1"));
        assert!(shown.time.expect("a time").same(full.time.expect("a time")));
        assert_eq!(shown.dataschema.as_deref(), Some("https://example.test/schema"));
        assert_eq!(shown.partitionkey.as_deref(), Some("north"));
        assert!(matches!(&shown.data, Some(EventData::Json(bytes)) if bytes == b"{\"a\":1}"));
        assert!(
            matches!(&page[1].event().data, Some(EventData::Binary(bytes)) if bytes == &[0, 255])
        );
        assert_eq!(page[0].delivery().state, DeliveryState::Pending);
        assert_eq!(page[0].delivery().attempts, 0);
        assert!(page[0].delivery().available_at.same(page[0].enqueued_at()));

        // The domain's page holds what the plain page shows.
        let domain = page.into_iter().next().expect("two rows").into_paged_event();
        assert_eq!(domain.tenant_id().as_str(), "School-A");
        assert_eq!(domain.row_id().get(), first.get());
        assert_eq!(domain.event().stream().as_str(), "audit");
        assert_eq!(domain.event().id().as_str(), "full");
        assert_eq!(domain.event().source().as_str(), "https://example.test/source");
        assert_eq!(domain.event().event_type().as_str(), "com.example.created");
        assert_eq!(domain.event().subject().map(|value| value.as_str()), Some("student/1"));
        assert_eq!(
            domain.event().time().map(|time| time.unix_timestamp_nanos()),
            Some(1_700_000_000 * SECOND + 123_456_000)
        );
        assert_eq!(
            domain.event().datacontenttype().map(|value| value.as_str()),
            Some("application/json")
        );
        assert_eq!(
            domain.event().dataschema().map(|value| value.as_str()),
            Some("https://example.test/schema")
        );
        assert_eq!(domain.event().partitionkey().map(|value| value.as_str()), Some("north"));
        assert_eq!(domain.event().extensions().canonical_json(), "{}");
        assert_eq!(
            domain.event().data().map(|data| (data.is_json(), data.as_bytes().to_vec())),
            Some((true, b"{\"a\":1}".to_vec()))
        );
        assert_eq!(domain.delivery().state(), dovecote::DeliveryState::Pending);
        assert_eq!(domain.delivery().attempts().get(), 0);
        assert_eq!(domain.delivery().available_at(), Some(domain.enqueued_at()));

        run(&mut connection, "DELETE FROM dovecote_deliveries WHERE event_row_id = 1").await;
        assert!(matches!(
            enqueue(&mut connection, "School-A", &full).await,
            Err(EnqueueError::MigrationMismatch { detail })
                if detail == "an existing event has no delivery row"
        ));
        run(&mut connection, "PRAGMA foreign_keys = OFF").await;
        assert!(matches!(
            enqueue(&mut connection, "School-A", &full).await,
            Err(EnqueueError::MigrationMismatch { .. })
        ));
    });
}

#[test]
fn a_caller_rollback_removes_event_and_delivery() {
    sqlx::__rt::test_block_on(async {
        let mut connection = opened(BASELINE_SQL).await;
        run(&mut connection, "BEGIN IMMEDIATE").await;
        enqueued(enqueue(&mut connection, "School-A", &event("gone")).await.expect("new"));
        run(&mut connection, "ROLLBACK").await;
        assert_eq!(count(&mut connection, "SELECT COUNT(*) FROM dovecote_events").await, 0);
        assert_eq!(count(&mut connection, "SELECT COUNT(*) FROM dovecote_deliveries").await, 0);
    });
}

#[test]
fn claims_are_fenced_by_their_token() {
    sqlx::__rt::test_block_on(async {
        let mut connection = opened(BASELINE_SQL).await;
        for id in ["first", "second", "third"] {
            enqueued(enqueue(&mut connection, "School-A", &event(id)).await.expect("new"));
        }
        enqueued(enqueue(&mut connection, "School-B", &event("other")).await.expect("new"));
        let mut claimed = claim(
            &mut connection,
            Some("School-A"),
            "builder",
            lease(60),
            2,
            &mut OsEntropy::new(),
        )
        .await
        .expect("two claims");
        assert_eq!(claimed.len(), 2);
        assert_eq!(claimed[0].attempts(), 1);
        assert!(claimed[0].expires_at().not_after(claimed[1].expires_at()));
        let second = claimed.pop().expect("two claims");
        let row = second.row_id();
        assert_eq!(row.get(), 2);
        let token = token_of(second);
        let first = token_of(claimed.pop().expect("two claims"));
        assert_ne!(first, token);

        // The other rows stay claimable, and claimed rows are not.
        let rest = claim(&mut connection, None, "other", lease(60), 10, &mut OsEntropy::new())
            .await
            .expect("two claims");
        assert_eq!(
            rest.iter().map(|claim| claim.row_id().get()).collect::<Vec<i64>>(),
            vec![3, 4]
        );
        assert_eq!(
            claim(&mut connection, None, "other", lease(60), 10, &mut OsEntropy::new())
                .await
                .expect("no claim")
                .len(),
            0
        );

        assert!(matches!(
            mutate(&mut connection, Some("School-A"), row, &first, Mutation::Ack).await,
            Err(MutationError::LostClaim)
        ));
        assert!(matches!(
            mutate(&mut connection, Some("School-B"), row, &token, Mutation::Ack).await,
            Err(MutationError::NotFound)
        ));
        mutate(&mut connection, Some("School-A"), row, &token, Mutation::Ack)
            .await
            .expect("the owner acknowledges");
        assert!(matches!(
            mutate(&mut connection, Some("School-A"), row, &token, Mutation::Ack).await,
            Err(MutationError::IllegalTransition { state: DeliveryState::Delivered })
        ));
    });
}

#[test]
fn mutations_store_what_they_announce() {
    sqlx::__rt::test_block_on(async {
        let mut connection = opened(BASELINE_SQL).await;
        for id in ["renewed", "retried", "released", "quarantined"] {
            enqueued(enqueue(&mut connection, "School-A", &event(id)).await.expect("new"));
        }
        let claims = claim(&mut connection, None, "builder", lease(30), 4, &mut OsEntropy::new())
            .await
            .expect("four claims");
        let before = claims[0].expires_at();
        let mut tokens: Vec<[u8; 16]> = claims.into_iter().map(token_of).collect();
        let fourth = tokens.pop().expect("four tokens");
        let third = tokens.pop().expect("four tokens");
        let second = tokens.pop().expect("four tokens");
        let first = tokens.pop().expect("four tokens");
        let row = |number: i64| RowId::new(number).expect("positive row");
        mutate(
            &mut connection,
            None,
            row(1),
            &first,
            Mutation::Renew { lease: lease(600) },
        )
        .await
        .expect("renewed");
        mutate(
            &mut connection,
            None,
            row(2),
            &second,
            Mutation::Retry {
                code: "E1".to_owned(),
                detail: "broken".to_owned(),
                backoff: Duration::from_millis(3_600_500),
            },
        )
        .await
        .expect("retried");
        mutate(&mut connection, None, row(3), &third, Mutation::Release { delay: lease(0) })
            .await
            .expect("released");
        mutate(
            &mut connection,
            None,
            row(4),
            &fourth,
            Mutation::Quarantine { reason: "poison".to_owned() },
        )
        .await
        .expect("quarantined");

        let page = read_page(&mut connection, None, 0, None, 10).await.expect("four rows");
        assert_eq!(page[0].delivery().state, DeliveryState::Claimed);
        assert_eq!(page[0].delivery().worker.as_deref(), Some("builder"));
        let renewed = page[0].delivery().expires_at.expect("an expiry");
        assert!(before.not_after(renewed) && !before.same(renewed));
        assert_eq!(page[1].delivery().state, DeliveryState::Pending);
        assert_eq!(
            page[1].delivery().last_failure,
            Some(("E1".to_owned(), "broken".to_owned()))
        );
        let backoff =
            page[1].delivery().available_at.unix_nanos() - page[1].enqueued_at().unix_nanos();
        assert!(backoff >= 3_600 * SECOND + SECOND / 2);
        assert_eq!(page[2].delivery().state, DeliveryState::Pending);
        assert_eq!(page[2].delivery().last_failure, None);
        assert_eq!(page[3].delivery().state, DeliveryState::Quarantined);
        assert_eq!(page[3].delivery().reason.as_deref(), Some("poison"));
        assert!(page.iter().all(|shown| shown.delivery().attempts == 1));

        // Only the released row can be claimed again, with one attempt more.
        let again = claim(&mut connection, None, "builder", lease(30), 10, &mut OsEntropy::new())
            .await
            .expect("one claim");
        assert_eq!(again.len(), 1);
        assert_eq!((again[0].row_id().get(), again[0].attempts()), (3, 2));
        assert!(matches!(
            mutate(&mut connection, None, row(2), &second, Mutation::Ack).await,
            Err(MutationError::IllegalTransition { state: DeliveryState::Pending })
        ));
    });
}

#[test]
fn an_expired_claim_is_taken_over_and_its_token_lost() {
    sqlx::__rt::test_block_on(async {
        let mut connection = opened(BASELINE_SQL).await;
        let row = enqueued(enqueue(&mut connection, "School-A", &event("slow")).await.expect("new"));
        let old = claim(&mut connection, None, "slow", lease(60), 1, &mut OsEntropy::new())
            .await
            .expect("one claim");
        let expires_at = old[0].expires_at();
        let domain = old.into_iter().next().expect("one claim").into_claimed_event();
        assert_eq!(domain.tenant_id().as_str(), "School-A");
        assert_eq!(domain.row_id().get(), row.get());
        assert_eq!(domain.event().id().as_str(), "slow");
        assert_eq!(domain.attempts().get(), 1);
        assert_eq!(domain.claimed_by().as_str(), "slow");
        assert_eq!(
            domain.claim_expires_at().unix_timestamp_nanos(),
            expires_at.unix_nanos()
        );
        let old = *domain.claim_token().as_bytes();
        run(
            &mut connection,
            "UPDATE dovecote_deliveries SET claim_expires_at = '2000-01-01T00:00:00.000000Z'",
        )
        .await;
        assert!(matches!(
            mutate(&mut connection, None, row, &old, Mutation::Ack).await,
            Err(MutationError::LostClaim)
        ));
        let taken = claim(&mut connection, None, "fast", lease(60), 1, &mut OsEntropy::new())
            .await
            .expect("one claim");
        assert_eq!(taken[0].attempts(), 2);
        let new = taken.into_iter().map(token_of).next().expect("one token");
        assert_ne!(old, new);
        assert!(matches!(
            mutate(&mut connection, None, row, &old, Mutation::Ack).await,
            Err(MutationError::LostClaim)
        ));
        mutate(&mut connection, None, row, &new, Mutation::Ack).await.expect("the new owner");
    });
}

#[test]
fn a_failed_claim_changes_no_row() {
    sqlx::__rt::test_block_on(async {
        let mut connection = opened(BASELINE_SQL).await;
        for id in ["first", "second"] {
            enqueued(enqueue(&mut connection, "School-A", &event(id)).await.expect("new"));
        }
        assert!(matches!(
            claim(&mut connection, None, "builder", lease(5), 2, &mut NoEntropy).await,
            Err(ClaimError::EntropyUnavailable { .. })
        ));
        let untouched = "SELECT COUNT(*) FROM dovecote_deliveries WHERE state = 'pending' \
                         AND attempts IN (0, 9223372036854775807) AND claim_token IS NULL";
        assert_eq!(count(&mut connection, untouched).await, 2);
        run(
            &mut connection,
            "UPDATE dovecote_deliveries SET attempts = 9223372036854775807 WHERE event_row_id = 2",
        )
        .await;
        assert!(matches!(
            claim(&mut connection, None, "builder", lease(5), 2, &mut OsEntropy::new()).await,
            Err(ClaimError::CounterOverflow { row_id }) if row_id.get() == 2
        ));
        assert_eq!(count(&mut connection, untouched).await, 2);
        // The writer lock is free again.
        let one = claim(&mut connection, None, "builder", lease(5), 1, &mut OsEntropy::new())
            .await
            .expect("one claim");
        assert_eq!(one[0].row_id().get(), 1);
    });
}

#[test]
fn imports_are_idempotent_and_conflicts_typed() {
    sqlx::__rt::test_block_on(async {
        let mut connection = opened(BASELINE_SQL).await;
        let delivered = ImportedDeliveryState::Delivered {
            delivered_at: at(1_600_000_000 * SECOND + 250_000_000),
        };
        let later = ImportedDeliveryState::Delivered {
            delivered_at: at(1_600_000_001 * SECOND),
        };
        let pending = ImportedDeliveryState::Pending;
        assert!(matches!(
            import(&mut connection, "School-A", &event("open"), pending).await,
            Ok(ImportOutcome::Imported { row_id }) if row_id.get() == 1
        ));
        assert!(matches!(
            import(&mut connection, "School-A", &event("open"), pending).await,
            Ok(ImportOutcome::AlreadyImported { row_id }) if row_id.get() == 1
        ));
        assert!(matches!(
            import(&mut connection, "School-A", &event("open"), delivered).await,
            Err(ImportError::ImportConflict { existing_row_id }) if existing_row_id.get() == 1
        ));
        let changed = EventContent {
            event_type: "com.example.changed".to_owned(),
            ..event("open")
        };
        assert!(matches!(
            import(&mut connection, "School-A", &changed, pending).await,
            Err(ImportError::IdentityConflict { existing_row_id }) if existing_row_id.get() == 1
        ));
        let Ok(ImportOutcome::Imported { row_id: done }) =
            import(&mut connection, "School-A", &event("done"), delivered).await
        else {
            panic!("the event is new");
        };
        assert!(matches!(
            import(&mut connection, "School-A", &event("done"), delivered).await,
            Ok(ImportOutcome::AlreadyImported { row_id }) if row_id == done
        ));
        assert!(matches!(
            import(&mut connection, "School-A", &event("done"), later).await,
            Err(ImportError::ImportConflict { existing_row_id }) if existing_row_id == done
        ));
        assert!(matches!(
            import(
                &mut connection,
                "School-A",
                &event("late"),
                ImportedDeliveryState::Delivered { delivered_at: at(1) },
            )
            .await,
            Err(ImportError::InvalidState { .. })
        ));
        assert_eq!(count(&mut connection, "SELECT COUNT(*) FROM dovecote_events").await, 2);
        let page = read_page(&mut connection, None, 1, None, 10).await.expect("one row");
        assert_eq!(page[0].delivery().state, DeliveryState::Delivered);
        assert!(page[0]
            .delivery()
            .delivered_at
            .expect("a delivery time")
            .same(at(1_600_000_000 * SECOND + 250_000_000)));
        // A delivered import is never claimed; a pending one is, once it is available.
        run(
            &mut connection,
            "UPDATE dovecote_deliveries SET available_at = '2000-01-01T00:00:00.000000Z'",
        )
        .await;
        let claims = claim(&mut connection, None, "builder", lease(5), 10, &mut OsEntropy::new())
            .await
            .expect("one claim");
        assert_eq!(claims.len(), 1);
        assert!(matches!(
            import(&mut connection, "School-A", &event("open"), pending).await,
            Err(ImportError::ImportConflict { .. })
        ));
        run(&mut connection, "ALTER TABLE dovecote_schema ADD COLUMN probe INTEGER").await;
        assert!(matches!(
            import(&mut connection, "School-A", &event("drift"), pending).await,
            Err(ImportError::MigrationMismatch { .. })
        ));
    });
}

#[test]
fn only_untouched_imports_are_finalized() {
    sqlx::__rt::test_block_on(async {
        let mut connection = opened(BASELINE_SQL).await;
        let pending = ImportedDeliveryState::Pending;
        for id in ["first", "second"] {
            import(&mut connection, "School-A", &event(id), pending).await.expect("imported");
        }
        let first = RowId::new(1).expect("positive row");
        let second = RowId::new(2).expect("positive row");
        let time = at(1_600_000_000 * SECOND);
        assert!(matches!(
            finalize(&mut connection, "School-A", first, time).await,
            Ok(FinalizeOutcome::Finalized { row_id }) if row_id == first
        ));
        assert!(matches!(
            finalize(&mut connection, "School-A", first, time).await,
            Ok(FinalizeOutcome::AlreadyFinalized { row_id }) if row_id == first
        ));
        assert!(matches!(
            finalize(&mut connection, "School-A", first, at(1_600_000_001 * SECOND)).await,
            Err(FinalizeError::StateConflict { row_id }) if row_id == first
        ));
        assert!(matches!(
            finalize(&mut connection, "School-B", second, time).await,
            Err(FinalizeError::NotFound)
        ));
        assert!(matches!(
            finalize(&mut connection, "School-A", second, at(1)).await,
            Err(FinalizeError::InvalidTimestamp { .. })
        ));
        run(&mut connection, "UPDATE dovecote_deliveries SET attempts = 1 WHERE event_row_id = 2")
            .await;
        assert!(matches!(
            finalize(&mut connection, "School-A", second, time).await,
            Err(FinalizeError::StateConflict { row_id }) if row_id == second
        ));
        let stored: String =
            query_scalar("SELECT delivered_at FROM dovecote_deliveries WHERE event_row_id = 1")
                .fetch_one(&mut connection)
                .await
                .expect("the stored time");
        assert_eq!(stored, format_timestamp(time));
        assert_eq!(stored, "2020-09-13T12:26:40Z");
    });
}

#[test]
fn an_export_is_finite_and_visits_every_row_once() {
    sqlx::__rt::test_block_on(async {
        let mut connection = opened(BASELINE_SQL).await;
        for id in ["a", "b", "c", "d", "e"] {
            enqueued(enqueue(&mut connection, "School-A", &event(id)).await.expect("new"));
        }
        let highest = query_scalar(UPPER_BOUND_SQL)
            .bind(None::<&str>)
            .bind(None::<&str>)
            .fetch_one(&mut connection)
            .await;
        let mut cursor = begin_export(highest).expect("five rows");
        enqueued(enqueue(&mut connection, "School-A", &event("late")).await.expect("new"));
        let mut seen: Vec<i64> = Vec::new();
        while let PagerTurn::Read { after, up_to } = next_turn(&cursor, true).expect("open") {
            let page = read_page(&mut connection, None, after, Some(up_to), 2)
                .await
                .expect("a page");
            seen.extend(page.iter().map(|shown| shown.row_id().get()));
            cursor.advance(&page, 2);
        }
        assert_eq!(seen, vec![1, 2, 3, 4, 5]);
        assert!(cursor.is_exhausted());
        assert!(matches!(next_turn(&cursor, false), Ok(PagerTurn::Nothing)));
    });
}

#[test]
fn corrupt_and_orphaned_rows_are_reported() {
    sqlx::__rt::test_block_on(async {
        let mut connection = opened(BASELINE_SQL).await;
        enqueued(enqueue(&mut connection, "School-A", &event("alone")).await.expect("new"));
        run(&mut connection, "DELETE FROM dovecote_deliveries").await;
        let Err(PageError::Serialization { detail }) =
            read_page(&mut connection, None, 0, None, 1).await
        else {
            panic!("an orphan is no page");
        };
        assert_eq!(detail, "event has no required delivery row");
        run(&mut connection, "UPDATE dovecote_events SET extensions = '[]'").await;
        assert!(matches!(
            read_page(&mut connection, None, 0, None, 1).await,
            Err(PageError::Serialization { .. })
        ));
        run(&mut connection, "DROP TABLE dovecote_deliveries").await;
        let Err(PageError::Sql { operation, source }) =
            read_page(&mut connection, None, 0, None, 1).await
        else {
            panic!("a missing table is no page");
        };
        assert_eq!(operation, "read event page");
        assert!(!is_busy(&source));
    });
}

#[test]
fn a_locked_database_is_busy() {
    sqlx::__rt::test_block_on(async {
        let shared = SqliteConnectOptions::new()
            .filename("/dovecote_busy")
            .vfs("memdb")
            .create_if_missing(true)
            .busy_timeout(Duration::ZERO);
        let mut writer = SqliteConnection::connect_with(&shared).await.expect("a shared database");
        run(&mut writer, BASELINE_SQL).await;
        run(&mut writer, "BEGIN IMMEDIATE").await;
        let mut other = SqliteConnection::connect_with(&shared).await.expect("a shared database");
        let error = claim(&mut other, None, "builder", lease(5), 1, &mut OsEntropy::new())
            .await
            .expect_err("the writer holds the lock");
        let ClaimError::Sql { operation, source } = &error else {
            panic!("unexpected {error:?}");
        };
        assert_eq!(*operation, "begin immediate claim transaction");
        assert!(is_busy(source));
        assert!(matches!(
            error.into_busy_exhausted(),
            ClaimError::BusyExhausted { .. }
        ));
        run(&mut writer, "ROLLBACK").await;
        assert_eq!(
            claim(&mut other, None, "builder", lease(5), 1, &mut OsEntropy::new())
                .await
                .expect("nothing to claim")
                .len(),
            0
        );
    });
}
