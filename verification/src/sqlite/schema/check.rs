//! The schema check as a sequence of questions to the catalog.

use crate::sqlite::error::SchemaError;
use crate::sqlite::migration::{baseline, current_migration, migration_is_usable, unusable};
use crate::sqlite::schema::catalog::{
    collation_fault, columns_fault, compare_collations, compare_columns, compare_foreign_key,
    compare_index, compare_index_columns, compare_listed, compare_markers, compare_objects,
    compare_tables, delivery_columns, demanded_delivery_columns, demanded_event_columns,
    event_columns, foreign_key_fault, index_columns_fault, index_fault, listed_fault,
    markers_fault, objects_fault, tables_fault, worded, Collations, ForeignKeyRow, IndexRow,
    SchemaMarker, SchemaObject, TableColumn, TableSource,
};
use crate::text::{literals, optional_text};
use vstd::prelude::*;

verus! {

/// The indexes that the check demands.
#[derive(Clone, Copy, Debug, PartialEq, Eq, Structural)]
pub enum SchemaIndex {
    /// One event per tenant, source and event ID.
    Identity,
    /// The events of a tenant in row order.
    TenantRow,
    /// The deliveries that become available.
    Claimable,
    /// The claims that expire.
    ExpiredClaims,
}

impl SchemaIndex {
    /// The name of the index.
    pub open spec fn name_text(self) -> Seq<char> {
        match self {
            SchemaIndex::Identity => "dovecote_events_tenant_source_event_id"@,
            SchemaIndex::TenantRow => "dovecote_events_tenant_row"@,
            SchemaIndex::Claimable => "dovecote_deliveries_claimable"@,
            SchemaIndex::ExpiredClaims => "dovecote_deliveries_expired_claims"@,
        }
    }

    /// The columns of the index in order.
    pub open spec fn column_texts(self) -> Seq<Seq<char>> {
        match self {
            SchemaIndex::Identity => seq!["tenant_id"@, "source"@, "event_id"@],
            SchemaIndex::TenantRow => seq!["tenant_id"@, "row_id"@],
            SchemaIndex::Claimable => seq![
                "tenant_id"@,
                "state"@,
                "available_at"@,
                "event_row_id"@,
            ],
            SchemaIndex::ExpiredClaims => seq![
                "tenant_id"@,
                "state"@,
                "claim_expires_at"@,
                "event_row_id"@,
            ],
        }
    }

    /// The name of the index.
    pub fn name(self) -> (name: &'static str)
        ensures
            name@ == self.name_text(),
    {
        match self {
            SchemaIndex::Identity => "dovecote_events_tenant_source_event_id",
            SchemaIndex::TenantRow => "dovecote_events_tenant_row",
            SchemaIndex::Claimable => "dovecote_deliveries_claimable",
            SchemaIndex::ExpiredClaims => "dovecote_deliveries_expired_claims",
        }
    }

    /// The table of the index.
    pub fn table(self) -> (table: &'static str)
        ensures
            table@ == (if self is Identity || self is TenantRow {
                "dovecote_events"@
            } else {
                "dovecote_deliveries"@
            }),
    {
        match self {
            SchemaIndex::Identity => "dovecote_events",
            SchemaIndex::TenantRow => "dovecote_events",
            SchemaIndex::Claimable => "dovecote_deliveries",
            SchemaIndex::ExpiredClaims => "dovecote_deliveries",
        }
    }

    /// Whether the index is unique: only the identity index is.
    pub fn unique(self) -> (unique: bool)
        ensures
            unique == (self is Identity),
    {
        match self {
            SchemaIndex::Identity => true,
            _ => false,
        }
    }

    /// The columns of the index in order.
    pub fn columns(self) -> (columns: Vec<&'static str>)
        ensures
            literals(columns@) == self.column_texts(),
    {
        let columns = match self {
            SchemaIndex::Identity => vec!["tenant_id", "source", "event_id"],
            SchemaIndex::TenantRow => vec!["tenant_id", "row_id"],
            SchemaIndex::Claimable => vec!["tenant_id", "state", "available_at", "event_row_id"],
            SchemaIndex::ExpiredClaims => vec![
                "tenant_id",
                "state",
                "claim_expires_at",
                "event_row_id",
            ],
        };
        assert(literals(columns@) =~= self.column_texts());
        columns
    }
}

/// How far the schema check has come: what it asks next, or that it is done.
#[derive(Clone, Copy, Debug, PartialEq, Eq, Structural)]
pub enum SchemaCheck {
    /// Whether foreign keys are enforced.
    Enforcement,
    /// The marker rows.
    Markers,
    /// The columns of the event table.
    EventColumns,
    /// The columns of the delivery table.
    DeliveryColumns,
    /// The definitions of the three tables.
    Tables,
    /// The objects that the adapter does not ship.
    Objects,
    /// The indexes of an index's table.
    IndexList(SchemaIndex),
    /// The definition of an index.
    IndexDefinition(SchemaIndex),
    /// The columns of an index.
    IndexColumns(SchemaIndex),
    /// The collations of the identity index.
    IdentityCollation,
    /// The foreign keys of the delivery table.
    DeliveryForeignKey,
    /// The rows that violate a foreign key.
    Violations,
    /// The schema is accepted.
    Accepted,
}

/// What the database replied to one question of the schema check.
#[derive(Debug)]
pub enum CatalogReply {
    /// The foreign-key setting.
    Enforcement(Result<i64, sqlx::Error>),
    /// The marker rows.
    Markers(Result<Vec<SchemaMarker>, sqlx::Error>),
    /// The columns of a table.
    Columns(Result<Vec<TableColumn>, sqlx::Error>),
    /// The table definitions.
    Tables(Result<Vec<TableSource>, sqlx::Error>),
    /// The unsupported objects.
    Objects(Result<Vec<SchemaObject>, sqlx::Error>),
    /// The indexes of a table.
    Indexes(Result<Vec<IndexRow>, sqlx::Error>),
    /// The definition of an index.
    Definition(Result<Option<String>, sqlx::Error>),
    /// The columns of an index.
    IndexColumns(Result<Vec<Option<String>>, sqlx::Error>),
    /// The keys and collations of an index.
    Collations(Result<Collations, sqlx::Error>),
    /// The foreign keys of a table.
    ForeignKeys(Result<Vec<ForeignKeyRow>, sqlx::Error>),
    /// How many rows violate a foreign key.
    Violations(Result<usize, sqlx::Error>),
}

/// The fault of the foreign-key setting or of the shipped migration, if there is
/// one.
pub open spec fn enforcement_fault(enabled: i64) -> Option<Seq<char>> {
    if enabled != 1 {
        Some("foreign-key enforcement is disabled"@)
    } else {
        unusable(baseline())
    }
}

/// The fault of violating rows, if there are any.
pub open spec fn violations_fault(count: usize) -> Option<Seq<char>> {
    if count == 0 {
        None
    } else {
        Some("installed schema contains foreign-key violations"@)
    }
}

/// Whether a step judged a reply: a failed query is reported as such, a fault as
/// a mismatch, and only a reply without a fault passes.
pub open spec fn judged_as<T>(
    operation: &'static str,
    reply: Result<T, sqlx::Error>,
    fault: Option<Seq<char>>,
    result: Result<(), SchemaError>,
) -> bool {
    match reply {
        Err(source) => result == Err::<(), SchemaError>(SchemaError::failed(operation, source)),
        Ok(_) => match fault {
            None => result is Ok,
            Some(text) => result matches Err(SchemaError::MigrationMismatch { detail }) && detail@
                == text,
        },
    }
}

/// A mismatch with that detail.
fn mismatched(verdict: Result<(), String>) -> (result: Result<(), SchemaError>)
    ensures
        match verdict {
            Ok(()) => result is Ok,
            Err(detail) => result == Err::<(), SchemaError>(
                SchemaError::MigrationMismatch { detail },
            ),
        },
{
    match verdict {
        Ok(()) => Ok(()),
        Err(detail) => Err(SchemaError::MigrationMismatch { detail }),
    }
}

fn compare_enforcement(enabled: i64) -> (verdict: Result<(), String>)
    ensures
        worded(enforcement_fault(enabled), verdict),
{
    if enabled != 1 {
        return Err("foreign-key enforcement is disabled".to_owned());
    }
    match current_migration() {
        Ok(migration) => migration_is_usable(migration),
        Err(detail) => Err(detail),
    }
}

/// Judges the foreign-key setting.
pub fn check_enforcement(reply: Result<i64, sqlx::Error>) -> (result: Result<(), SchemaError>)
    ensures
        judged_as(
            "check foreign-key enforcement",
            reply,
            enforcement_fault(reply->Ok_0),
            result,
        ),
{
    match reply {
        Err(source) => Err(SchemaError::sql("check foreign-key enforcement", source)),
        Ok(enabled) => mismatched(compare_enforcement(enabled)),
    }
}

/// Judges the marker rows.
pub fn check_schema_marker(reply: Result<Vec<SchemaMarker>, sqlx::Error>) -> (result: Result<
    (),
    SchemaError,
>)
    ensures
        judged_as(
            "check schema marker",
            reply,
            markers_fault(reply->Ok_0@, baseline()),
            result,
        ),
{
    match reply {
        Err(source) => Err(SchemaError::sql("check schema marker", source)),
        Ok(markers) => match current_migration() {
            Ok(migration) => mismatched(compare_markers(&markers, migration)),
            Err(detail) => mismatched(Err(detail)),
        },
    }
}

/// Judges the columns of the event table.
pub fn check_event_columns(reply: Result<Vec<TableColumn>, sqlx::Error>) -> (result: Result<
    (),
    SchemaError,
>)
    ensures
        judged_as(
            "check table columns",
            reply,
            columns_fault("dovecote_events"@, reply->Ok_0@, demanded_event_columns()),
            result,
        ),
{
    match reply {
        Err(source) => Err(SchemaError::sql("check table columns", source)),
        Ok(rows) => mismatched(compare_columns("dovecote_events", &rows, &event_columns())),
    }
}

/// Judges the columns of the delivery table.
pub fn check_delivery_columns(reply: Result<Vec<TableColumn>, sqlx::Error>) -> (result: Result<
    (),
    SchemaError,
>)
    ensures
        judged_as(
            "check table columns",
            reply,
            columns_fault("dovecote_deliveries"@, reply->Ok_0@, demanded_delivery_columns()),
            result,
        ),
{
    match reply {
        Err(source) => Err(SchemaError::sql("check table columns", source)),
        Ok(rows) => mismatched(compare_columns("dovecote_deliveries", &rows, &delivery_columns())),
    }
}

/// Judges the definitions of the tables.
pub fn check_tables(reply: Result<Vec<TableSource>, sqlx::Error>) -> (result: Result<
    (),
    SchemaError,
>)
    ensures
        judged_as(
            "read schema definitions",
            reply,
            tables_fault(reply->Ok_0@, baseline()),
            result,
        ),
{
    match reply {
        Err(source) => Err(SchemaError::sql("read schema definitions", source)),
        Ok(sources) => match current_migration() {
            Ok(migration) => mismatched(compare_tables(&sources, migration)),
            Err(detail) => mismatched(Err(detail)),
        },
    }
}

/// Judges the objects that the adapter does not ship.
pub fn check_objects(reply: Result<Vec<SchemaObject>, sqlx::Error>) -> (result: Result<
    (),
    SchemaError,
>)
    ensures
        judged_as("check schema object isolation", reply, objects_fault(reply->Ok_0@), result),
{
    match reply {
        Err(source) => Err(SchemaError::sql("check schema object isolation", source)),
        Ok(objects) => mismatched(compare_objects(&objects)),
    }
}

/// Judges the list of indexes of an index's table.
pub fn check_index_list(index: SchemaIndex, reply: Result<Vec<IndexRow>, sqlx::Error>) -> (result:
    Result<(), SchemaError>)
    ensures
        judged_as(
            "check schema indexes",
            reply,
            listed_fault(reply->Ok_0@, index.name_text(), index is Identity),
            result,
        ),
{
    match reply {
        Err(source) => Err(SchemaError::sql("check schema indexes", source)),
        Ok(rows) => mismatched(compare_listed(&rows, index.name(), index.unique())),
    }
}

/// Judges the definition of an index.
pub fn check_index_definition(
    index: SchemaIndex,
    reply: Result<Option<String>, sqlx::Error>,
) -> (result: Result<(), SchemaError>)
    ensures
        judged_as(
            "read schema index definition",
            reply,
            index_fault(optional_text(reply->Ok_0), index.name_text(), baseline()),
            result,
        ),
{
    match reply {
        Err(source) => Err(SchemaError::sql("read schema index definition", source)),
        Ok(source) => match current_migration() {
            Ok(migration) => mismatched(compare_index(&source, index.name(), migration)),
            Err(detail) => mismatched(Err(detail)),
        },
    }
}

/// Judges the columns of an index.
pub fn check_index_columns(
    index: SchemaIndex,
    reply: Result<Vec<Option<String>>, sqlx::Error>,
) -> (result: Result<(), SchemaError>)
    ensures
        judged_as(
            "read schema index columns",
            reply,
            index_columns_fault(reply->Ok_0@, index.name_text(), index.column_texts()),
            result,
        ),
{
    match reply {
        Err(source) => Err(SchemaError::sql("read schema index columns", source)),
        Ok(names) => mismatched(compare_index_columns(&names, index.name(), &index.columns())),
    }
}

/// Judges the collations of the identity index.
pub fn check_identity_collation(reply: Result<Collations, sqlx::Error>) -> (result: Result<
    (),
    SchemaError,
>)
    ensures
        judged_as(
            "read identity index collation",
            reply,
            collation_fault(reply->Ok_0.keys@, reply->Ok_0.collations@),
            result,
        ),
{
    match reply {
        Err(source) => Err(SchemaError::sql("read identity index collation", source)),
        Ok(shown) => mismatched(compare_collations(&shown)),
    }
}

/// Judges the foreign key of deliveries.
pub fn check_foreign_key(reply: Result<Vec<ForeignKeyRow>, sqlx::Error>) -> (result: Result<
    (),
    SchemaError,
>)
    ensures
        judged_as("check delivery foreign key", reply, foreign_key_fault(reply->Ok_0@), result),
{
    match reply {
        Err(source) => Err(SchemaError::sql("check delivery foreign key", source)),
        Ok(rows) => mismatched(compare_foreign_key(&rows)),
    }
}

/// Judges how many rows violate a foreign key.
pub fn check_violations(reply: Result<usize, sqlx::Error>) -> (result: Result<(), SchemaError>)
    ensures
        judged_as("check foreign-key integrity", reply, violations_fault(reply->Ok_0), result),
{
    match reply {
        Err(source) => Err(SchemaError::sql("check foreign-key integrity", source)),
        Ok(count) => if count == 0 {
            Ok(())
        } else {
            mismatched(Err("installed schema contains foreign-key violations".to_owned()))
        },
    }
}

impl SchemaCheck {
    /// Whether a reply is of the kind that this step asks for.
    pub open spec fn awaits(self, reply: CatalogReply) -> bool {
        match self {
            SchemaCheck::Enforcement => reply is Enforcement,
            SchemaCheck::Markers => reply is Markers,
            SchemaCheck::EventColumns => reply is Columns,
            SchemaCheck::DeliveryColumns => reply is Columns,
            SchemaCheck::Tables => reply is Tables,
            SchemaCheck::Objects => reply is Objects,
            SchemaCheck::IndexList(_) => reply is Indexes,
            SchemaCheck::IndexDefinition(_) => reply is Definition,
            SchemaCheck::IndexColumns(_) => reply is IndexColumns,
            SchemaCheck::IdentityCollation => reply is Collations,
            SchemaCheck::DeliveryForeignKey => reply is ForeignKeys,
            SchemaCheck::Violations => reply is Violations,
            SchemaCheck::Accepted => false,
        }
    }

    /// The step that follows an accepted reply.
    pub open spec fn following(self) -> SchemaCheck {
        match self {
            SchemaCheck::Enforcement => SchemaCheck::Markers,
            SchemaCheck::Markers => SchemaCheck::EventColumns,
            SchemaCheck::EventColumns => SchemaCheck::DeliveryColumns,
            SchemaCheck::DeliveryColumns => SchemaCheck::Tables,
            SchemaCheck::Tables => SchemaCheck::Objects,
            SchemaCheck::Objects => SchemaCheck::IndexList(SchemaIndex::Identity),
            SchemaCheck::IndexList(index) => SchemaCheck::IndexDefinition(index),
            SchemaCheck::IndexDefinition(index) => SchemaCheck::IndexColumns(index),
            SchemaCheck::IndexColumns(SchemaIndex::Identity) => SchemaCheck::IdentityCollation,
            SchemaCheck::IdentityCollation => SchemaCheck::IndexList(SchemaIndex::TenantRow),
            SchemaCheck::IndexColumns(SchemaIndex::TenantRow) => SchemaCheck::IndexList(
                SchemaIndex::Claimable,
            ),
            SchemaCheck::IndexColumns(SchemaIndex::Claimable) => SchemaCheck::IndexList(
                SchemaIndex::ExpiredClaims,
            ),
            SchemaCheck::IndexColumns(
                SchemaIndex::ExpiredClaims,
            ) => SchemaCheck::DeliveryForeignKey,
            SchemaCheck::DeliveryForeignKey => SchemaCheck::Violations,
            SchemaCheck::Violations => SchemaCheck::Accepted,
            SchemaCheck::Accepted => SchemaCheck::Accepted,
        }
    }

    /// How many questions are still to come.
    pub open spec fn distance(self) -> nat {
        match self {
            SchemaCheck::Enforcement => 21,
            SchemaCheck::Markers => 20,
            SchemaCheck::EventColumns => 19,
            SchemaCheck::DeliveryColumns => 18,
            SchemaCheck::Tables => 17,
            SchemaCheck::Objects => 16,
            SchemaCheck::IndexList(SchemaIndex::Identity) => 15,
            SchemaCheck::IndexDefinition(SchemaIndex::Identity) => 14,
            SchemaCheck::IndexColumns(SchemaIndex::Identity) => 13,
            SchemaCheck::IdentityCollation => 12,
            SchemaCheck::IndexList(SchemaIndex::TenantRow) => 11,
            SchemaCheck::IndexDefinition(SchemaIndex::TenantRow) => 10,
            SchemaCheck::IndexColumns(SchemaIndex::TenantRow) => 9,
            SchemaCheck::IndexList(SchemaIndex::Claimable) => 8,
            SchemaCheck::IndexDefinition(SchemaIndex::Claimable) => 7,
            SchemaCheck::IndexColumns(SchemaIndex::Claimable) => 6,
            SchemaCheck::IndexList(SchemaIndex::ExpiredClaims) => 5,
            SchemaCheck::IndexDefinition(SchemaIndex::ExpiredClaims) => 4,
            SchemaCheck::IndexColumns(SchemaIndex::ExpiredClaims) => 3,
            SchemaCheck::DeliveryForeignKey => 2,
            SchemaCheck::Violations => 1,
            SchemaCheck::Accepted => 0,
        }
    }

    /// The fault that this step finds in a readable reply, if it finds one.
    pub open spec fn fault(self, reply: CatalogReply) -> Option<Seq<char>> {
        match (self, reply) {
            (SchemaCheck::Enforcement, CatalogReply::Enforcement(Ok(enabled))) => enforcement_fault(
                enabled,
            ),
            (SchemaCheck::Markers, CatalogReply::Markers(Ok(markers))) => markers_fault(
                markers@,
                baseline(),
            ),
            (SchemaCheck::EventColumns, CatalogReply::Columns(Ok(rows))) => columns_fault(
                "dovecote_events"@,
                rows@,
                demanded_event_columns(),
            ),
            (SchemaCheck::DeliveryColumns, CatalogReply::Columns(Ok(rows))) => columns_fault(
                "dovecote_deliveries"@,
                rows@,
                demanded_delivery_columns(),
            ),
            (SchemaCheck::Tables, CatalogReply::Tables(Ok(sources))) => tables_fault(
                sources@,
                baseline(),
            ),
            (SchemaCheck::Objects, CatalogReply::Objects(Ok(objects))) => objects_fault(objects@),
            (SchemaCheck::IndexList(index), CatalogReply::Indexes(Ok(rows))) => listed_fault(
                rows@,
                index.name_text(),
                index is Identity,
            ),
            (SchemaCheck::IndexDefinition(index), CatalogReply::Definition(Ok(source))) => index_fault(
                optional_text(source),
                index.name_text(),
                baseline(),
            ),
            (
                SchemaCheck::IndexColumns(index),
                CatalogReply::IndexColumns(Ok(names)),
            ) => index_columns_fault(names@, index.name_text(), index.column_texts()),
            (SchemaCheck::IdentityCollation, CatalogReply::Collations(Ok(shown))) => collation_fault(
                shown.keys@,
                shown.collations@,
            ),
            (SchemaCheck::DeliveryForeignKey, CatalogReply::ForeignKeys(Ok(rows))) => foreign_key_fault(
                rows@,
            ),
            (SchemaCheck::Violations, CatalogReply::Violations(Ok(count))) => violations_fault(
                count,
            ),
            _ => None,
        }
    }

    /// Whether this step judged a reply: a failed query is reported under the
    /// name of the question, a fault as a mismatch, and only a reply without a
    /// fault passes.
    pub open spec fn judged(self, reply: CatalogReply, result: Result<(), SchemaError>) -> bool {
        let fault = self.fault(reply);
        match (self, reply) {
            (SchemaCheck::Enforcement, CatalogReply::Enforcement(reply)) => judged_as(
                "check foreign-key enforcement",
                reply,
                fault,
                result,
            ),
            (SchemaCheck::Markers, CatalogReply::Markers(reply)) => judged_as(
                "check schema marker",
                reply,
                fault,
                result,
            ),
            (SchemaCheck::EventColumns, CatalogReply::Columns(reply)) => judged_as(
                "check table columns",
                reply,
                fault,
                result,
            ),
            (SchemaCheck::DeliveryColumns, CatalogReply::Columns(reply)) => judged_as(
                "check table columns",
                reply,
                fault,
                result,
            ),
            (SchemaCheck::Tables, CatalogReply::Tables(reply)) => judged_as(
                "read schema definitions",
                reply,
                fault,
                result,
            ),
            (SchemaCheck::Objects, CatalogReply::Objects(reply)) => judged_as(
                "check schema object isolation",
                reply,
                fault,
                result,
            ),
            (SchemaCheck::IndexList(_), CatalogReply::Indexes(reply)) => judged_as(
                "check schema indexes",
                reply,
                fault,
                result,
            ),
            (SchemaCheck::IndexDefinition(_), CatalogReply::Definition(reply)) => judged_as(
                "read schema index definition",
                reply,
                fault,
                result,
            ),
            (SchemaCheck::IndexColumns(_), CatalogReply::IndexColumns(reply)) => judged_as(
                "read schema index columns",
                reply,
                fault,
                result,
            ),
            (SchemaCheck::IdentityCollation, CatalogReply::Collations(reply)) => judged_as(
                "read identity index collation",
                reply,
                fault,
                result,
            ),
            (SchemaCheck::DeliveryForeignKey, CatalogReply::ForeignKeys(reply)) => judged_as(
                "check delivery foreign key",
                reply,
                fault,
                result,
            ),
            (SchemaCheck::Violations, CatalogReply::Violations(reply)) => judged_as(
                "check foreign-key integrity",
                reply,
                fault,
                result,
            ),
            _ => false,
        }
    }

    /// The step that follows an accepted reply.
    fn next(self) -> (next: SchemaCheck)
        ensures
            next == self.following(),
    {
        match self {
            SchemaCheck::Enforcement => SchemaCheck::Markers,
            SchemaCheck::Markers => SchemaCheck::EventColumns,
            SchemaCheck::EventColumns => SchemaCheck::DeliveryColumns,
            SchemaCheck::DeliveryColumns => SchemaCheck::Tables,
            SchemaCheck::Tables => SchemaCheck::Objects,
            SchemaCheck::Objects => SchemaCheck::IndexList(SchemaIndex::Identity),
            SchemaCheck::IndexList(index) => SchemaCheck::IndexDefinition(index),
            SchemaCheck::IndexDefinition(index) => SchemaCheck::IndexColumns(index),
            SchemaCheck::IndexColumns(index) => match index {
                SchemaIndex::Identity => SchemaCheck::IdentityCollation,
                SchemaIndex::TenantRow => SchemaCheck::IndexList(SchemaIndex::Claimable),
                SchemaIndex::Claimable => SchemaCheck::IndexList(SchemaIndex::ExpiredClaims),
                SchemaIndex::ExpiredClaims => SchemaCheck::DeliveryForeignKey,
            },
            SchemaCheck::IdentityCollation => SchemaCheck::IndexList(SchemaIndex::TenantRow),
            SchemaCheck::DeliveryForeignKey => SchemaCheck::Violations,
            SchemaCheck::Violations => SchemaCheck::Accepted,
            SchemaCheck::Accepted => SchemaCheck::Accepted,
        }
    }

    /// Judges the reply to this step.
    fn judge(self, reply: CatalogReply) -> (result: Result<(), SchemaError>)
        requires
            self.awaits(reply),
        ensures
            self.judged(reply, result),
    {
        match (self, reply) {
            (SchemaCheck::Enforcement, CatalogReply::Enforcement(reply)) => check_enforcement(
                reply,
            ),
            (SchemaCheck::Markers, CatalogReply::Markers(reply)) => check_schema_marker(reply),
            (SchemaCheck::EventColumns, CatalogReply::Columns(reply)) => check_event_columns(reply),
            (SchemaCheck::DeliveryColumns, CatalogReply::Columns(reply)) => check_delivery_columns(
                reply,
            ),
            (SchemaCheck::Tables, CatalogReply::Tables(reply)) => check_tables(reply),
            (SchemaCheck::Objects, CatalogReply::Objects(reply)) => check_objects(reply),
            (SchemaCheck::IndexList(index), CatalogReply::Indexes(reply)) => check_index_list(
                index,
                reply,
            ),
            (
                SchemaCheck::IndexDefinition(index),
                CatalogReply::Definition(reply),
            ) => check_index_definition(index, reply),
            (
                SchemaCheck::IndexColumns(index),
                CatalogReply::IndexColumns(reply),
            ) => check_index_columns(index, reply),
            (
                SchemaCheck::IdentityCollation,
                CatalogReply::Collations(reply),
            ) => check_identity_collation(reply),
            (
                SchemaCheck::DeliveryForeignKey,
                CatalogReply::ForeignKeys(reply),
            ) => check_foreign_key(reply),
            (SchemaCheck::Violations, CatalogReply::Violations(reply)) => check_violations(reply),
            // No step awaits any other reply.
            _ => Err(
                SchemaError::MigrationMismatch {
                    detail: "the catalog reply answers another question".to_owned(),
                },
            ),
        }
    }

    /// Judges the reply to this step and says what comes next.
    pub fn advance(self, reply: CatalogReply) -> (result: Result<SchemaCheck, SchemaError>)
        requires
            self.awaits(reply),
        ensures
            match result {
                Ok(next) => next == self.following() && self.judged(reply, Ok(())),
                Err(error) => self.judged(reply, Err(error)),
            },
    {
        match self.judge(reply) {
            Ok(()) => Ok(self.next()),
            Err(error) => Err(error),
        }
    }
}

/// Whether a reply could be read.
pub open spec fn is_readable(reply: CatalogReply) -> bool {
    match reply {
        CatalogReply::Enforcement(reply) => reply is Ok,
        CatalogReply::Markers(reply) => reply is Ok,
        CatalogReply::Columns(reply) => reply is Ok,
        CatalogReply::Tables(reply) => reply is Ok,
        CatalogReply::Objects(reply) => reply is Ok,
        CatalogReply::Indexes(reply) => reply is Ok,
        CatalogReply::Definition(reply) => reply is Ok,
        CatalogReply::IndexColumns(reply) => reply is Ok,
        CatalogReply::Collations(reply) => reply is Ok,
        CatalogReply::ForeignKeys(reply) => reply is Ok,
        CatalogReply::Violations(reply) => reply is Ok,
    }
}

/// The step after that many accepted replies.
pub open spec fn step_after(count: nat) -> SchemaCheck
    decreases count,
{
    if count == 0 {
        SchemaCheck::Enforcement
    } else {
        step_after((count - 1) as nat).following()
    }
}

/// Every step asks one question fewer than the one before, so the check accepts
/// after exactly twenty-one accepted replies and never before.
pub proof fn the_check_asks_every_question(count: nat)
    ensures
        count <= 21 ==> step_after(count).distance() == 21 - count,
        count >= 21 ==> step_after(count) is Accepted,
    decreases count,
{
    if count > 0 {
        the_check_asks_every_question((count - 1) as nat);
    }
}

/// A step passes a reply exactly if the reply could be read and has no fault.
pub proof fn a_step_passes_exactly_conforming_replies(
    step: SchemaCheck,
    reply: CatalogReply,
    result: Result<(), SchemaError>,
)
    requires
        step.judged(reply, result),
    ensures
        result is Ok <==> is_readable(reply) && step.fault(reply) is None,
{
}

} // verus!
