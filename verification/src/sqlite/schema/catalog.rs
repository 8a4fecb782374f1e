//! What the schema check demands of SQLite's catalog.
//!
//! Each check has a spec function that words the first fault, if there is one. A
//! value that the driver could not read is absent.

use crate::event::first_refusal;
use crate::migration::{Migration, MigrationView};
use crate::sqlite::schema::normalization::{normalize_sql, normalized};
use crate::sqlite::schema::source::{
    expected_index_source, expected_table_source, index_source, table_source,
};
use crate::text::{
    characters, decimal, decimal_text, is_text, lower, lowered, optional_text, same_characters,
    same_text,
    same_texts, literals, texts,
};
use vstd::prelude::*;

verus! {

/// A number that was read, or zero.
pub open spec fn number(value: Option<i64>) -> int {
    match value {
        Some(number) => number as int,
        None => 0,
    }
}

fn number_or_zero(value: Option<i64>) -> (read: i64)
    ensures
        read == number(value),
{
    match value {
        Some(read) => read,
        None => 0,
    }
}

/// The one row of the marker table.
#[derive(Debug)]
pub struct SchemaMarker {
    pub schema_version: i64,
    pub minimum_crate_major: i64,
    pub minimum_crate_minor: i64,
    pub minimum_crate_patch: i64,
    pub rolling_compatible: i64,
}

/// Whether a marker row is the one of a migration.
pub open spec fn marks(marker: SchemaMarker, migration: MigrationView) -> bool {
    let minimum = migration.compatibility.minimum;
    &&& marker.schema_version == migration.version
    &&& marker.minimum_crate_major == minimum.0
    &&& marker.minimum_crate_minor == minimum.1
    &&& marker.minimum_crate_patch == minimum.2
    &&& marker.rolling_compatible == if migration.rolling_compatible {
        1int
    } else {
        0int
    }
}

/// The fault of the marker rows, if they have one.
pub open spec fn markers_fault(markers: Seq<SchemaMarker>, migration: MigrationView) -> Option<
    Seq<char>,
> {
    if markers.len() != 1 {
        Some("expected exactly one schema marker row, found "@ + decimal_text(markers.len()))
    } else if !marks(markers[0], migration) {
        Some("schema marker is incompatible with this adapter"@)
    } else {
        None
    }
}

/// Whether a verdict passes without a fault and words the fault otherwise.
pub open spec fn worded(fault: Option<Seq<char>>, verdict: Result<(), String>) -> bool {
    match verdict {
        Ok(()) => fault is None,
        Err(detail) => fault == Some(detail@),
    }
}

/// Compares the marker rows with a migration.
pub fn compare_markers(markers: &Vec<SchemaMarker>, migration: Migration) -> (verdict: Result<
    (),
    String,
>)
    ensures
        worded(markers_fault(markers@, migration@), verdict),
{
    if markers.len() != 1 {
        let count = decimal(markers.len() as u64);
        return Err(
            "expected exactly one schema marker row, found ".to_owned().concat(count.as_str()),
        );
    }
    let marker = &markers[0];
    let minimum = migration.compatibility().minimum();
    let rolling: i64 = if migration.rolling_compatible() {
        1
    } else {
        0
    };
    if marker.schema_version != migration.version() as i64 || marker.minimum_crate_major
        != minimum.major() as i64 || marker.minimum_crate_minor != minimum.minor() as i64
        || marker.minimum_crate_patch != minimum.patch() as i64 || marker.rolling_compatible
        != rolling {
        return Err("schema marker is incompatible with this adapter".to_owned());
    }
    Ok(())
}

/// What the check demands of a column.
#[derive(Clone, Copy, Debug)]
pub struct ColumnSpec {
    pub name: &'static str,
    pub kind: &'static str,
    pub primary_key: bool,
    pub not_null: bool,
}

/// The mathematical content of a [`ColumnSpec`].
pub ghost struct ColumnView {
    pub name: Seq<char>,
    pub kind: Seq<char>,
    pub primary_key: bool,
    pub not_null: bool,
}

impl View for ColumnSpec {
    type V = ColumnView;

    open spec fn view(&self) -> ColumnView {
        ColumnView {
            name: self.name@,
            kind: self.kind@,
            primary_key: self.primary_key,
            not_null: self.not_null,
        }
    }
}

/// A column that must not be null, unless it is the primary key, which SQLite
/// does not mark so.
pub open spec fn required(name: Seq<char>, kind: Seq<char>, primary_key: bool) -> ColumnView {
    ColumnView { name, kind, primary_key, not_null: !primary_key }
}

/// A column that may be null.
pub open spec fn optional(name: Seq<char>, kind: Seq<char>, primary_key: bool) -> ColumnView {
    ColumnView { name, kind, primary_key, not_null: false }
}

impl ColumnSpec {
    /// Demands a column that is not null.
    pub fn required(name: &'static str, kind: &'static str, primary_key: bool) -> (column:
        ColumnSpec)
        ensures
            column@ == required(name@, kind@, primary_key),
    {
        ColumnSpec { name, kind, primary_key, not_null: !primary_key }
    }

    /// Demands a column that may be null.
    pub fn optional(name: &'static str, kind: &'static str, primary_key: bool) -> (column:
        ColumnSpec)
        ensures
            column@ == optional(name@, kind@, primary_key),
    {
        ColumnSpec { name, kind, primary_key, not_null: false }
    }
}

/// The views of demanded columns.
pub open spec fn column_views(list: Seq<ColumnSpec>) -> Seq<ColumnView> {
    list.map_values(|column: ColumnSpec| column@)
}

/// The columns of the event table.
pub open spec fn demanded_event_columns() -> Seq<ColumnView> {
    seq![
        required("row_id"@, "INTEGER"@, true),
        required("tenant_id"@, "TEXT"@, false),
        required("stream"@, "TEXT"@, false),
        required("specversion"@, "TEXT"@, false),
        required("event_id"@, "TEXT"@, false),
        required("source"@, "TEXT"@, false),
        required("event_type"@, "TEXT"@, false),
        optional("subject"@, "TEXT"@, false),
        optional("occurred_at"@, "TEXT"@, false),
        optional("datacontenttype"@, "TEXT"@, false),
        optional("dataschema"@, "TEXT"@, false),
        optional("partitionkey"@, "TEXT"@, false),
        required("extensions"@, "TEXT"@, false),
        optional("data_kind"@, "TEXT"@, false),
        optional("data"@, "BLOB"@, false),
        required("enqueued_at"@, "TEXT"@, false),
    ]
}

/// The columns of the event table.
pub fn event_columns() -> (list: Vec<ColumnSpec>)
    ensures
        column_views(list@) == demanded_event_columns(),
{
    let list = vec![
        ColumnSpec::required("row_id", "INTEGER", true),
        ColumnSpec::required("tenant_id", "TEXT", false),
        ColumnSpec::required("stream", "TEXT", false),
        ColumnSpec::required("specversion", "TEXT", false),
        ColumnSpec::required("event_id", "TEXT", false),
        ColumnSpec::required("source", "TEXT", false),
        ColumnSpec::required("event_type", "TEXT", false),
        ColumnSpec::optional("subject", "TEXT", false),
        ColumnSpec::optional("occurred_at", "TEXT", false),
        ColumnSpec::optional("datacontenttype", "TEXT", false),
        ColumnSpec::optional("dataschema", "TEXT", false),
        ColumnSpec::optional("partitionkey", "TEXT", false),
        ColumnSpec::required("extensions", "TEXT", false),
        ColumnSpec::optional("data_kind", "TEXT", false),
        ColumnSpec::optional("data", "BLOB", false),
        ColumnSpec::required("enqueued_at", "TEXT", false),
    ];
    assert(column_views(list@) =~= demanded_event_columns());
    list
}

/// The columns of the delivery table.
pub open spec fn demanded_delivery_columns() -> Seq<ColumnView> {
    seq![
        required("event_row_id"@, "INTEGER"@, true),
        required("tenant_id"@, "TEXT"@, false),
        required("state"@, "TEXT"@, false),
        required("available_at"@, "TEXT"@, false),
        required("attempts"@, "INTEGER"@, false),
        optional("claim_token"@, "BLOB"@, false),
        optional("claimed_by"@, "TEXT"@, false),
        optional("claim_expires_at"@, "TEXT"@, false),
        optional("last_failure_code"@, "TEXT"@, false),
        optional("last_failure_detail"@, "TEXT"@, false),
        optional("delivered_at"@, "TEXT"@, false),
        optional("quarantined_at"@, "TEXT"@, false),
        optional("quarantine_reason"@, "TEXT"@, false),
    ]
}

/// The columns of the delivery table.
pub fn delivery_columns() -> (list: Vec<ColumnSpec>)
    ensures
        column_views(list@) == demanded_delivery_columns(),
{
    let list = vec![
        ColumnSpec::required("event_row_id", "INTEGER", true),
        ColumnSpec::required("tenant_id", "TEXT", false),
        ColumnSpec::required("state", "TEXT", false),
        ColumnSpec::required("available_at", "TEXT", false),
        ColumnSpec::required("attempts", "INTEGER", false),
        ColumnSpec::optional("claim_token", "BLOB", false),
        ColumnSpec::optional("claimed_by", "TEXT", false),
        ColumnSpec::optional("claim_expires_at", "TEXT", false),
        ColumnSpec::optional("last_failure_code", "TEXT", false),
        ColumnSpec::optional("last_failure_detail", "TEXT", false),
        ColumnSpec::optional("delivered_at", "TEXT", false),
        ColumnSpec::optional("quarantined_at", "TEXT", false),
        ColumnSpec::optional("quarantine_reason", "TEXT", false),
    ];
    assert(column_views(list@) =~= demanded_delivery_columns());
    list
}

/// One column as `PRAGMA table_info` shows it.
#[derive(Debug)]
pub struct TableColumn {
    pub name: Option<String>,
    pub kind: Option<String>,
    pub primary_key: Option<i64>,
    pub not_null: Option<i64>,
}

/// The first column of that name from `from` on, if there is one.
pub open spec fn column_from(rows: Seq<TableColumn>, name: Seq<char>, from: int) -> Option<int>
    decreases rows.len() - from,
{
    if from < 0 || from >= rows.len() {
        None
    } else if optional_text(rows[from].name) == Some(name) {
        Some(from)
    } else {
        column_from(rows, name, from + 1)
    }
}

fn find_column(rows: &Vec<TableColumn>, name: &str) -> (found: Option<usize>)
    ensures
        match found {
            Some(at) => at < rows@.len() && column_from(rows@, name@, 0) == Some(at as int),
            None => column_from(rows@, name@, 0) is None,
        },
{
    let mut index: usize = 0;
    while index < rows.len()
        invariant
            index <= rows@.len(),
            column_from(rows@, name@, 0) == column_from(rows@, name@, index as int),
        decreases rows@.len() - index,
    {
        if is_text(&rows[index].name, name) {
            return Some(index);
        }
        index = index + 1;
    }
    None
}

/// A column by its table and name.
pub open spec fn column_label(table: Seq<char>, name: Seq<char>) -> Seq<char> {
    "column "@ + table + "."@ + name
}

/// The fault of one demanded column, if it has one.
pub open spec fn column_fault(
    table: Seq<char>,
    rows: Seq<TableColumn>,
    demanded: ColumnView,
) -> Option<Seq<char>> {
    let label = column_label(table, demanded.name);
    match column_from(rows, demanded.name, 0) {
        None => Some("required "@ + label + " is missing"@),
        Some(at) => {
            let row = rows[at];
            if row.kind is None {
                Some(label + " has no type"@)
            } else if lowered(row.kind->0@) != lowered(demanded.kind) {
                Some(label + " has type "@ + row.kind->0@ + ", expected "@ + demanded.kind)
            } else if demanded.primary_key && number(row.primary_key) != 1 {
                Some(label + " is not the primary key"@)
            } else if demanded.not_null && number(row.not_null) == 0 {
                Some(label + " must be NOT NULL"@)
            } else {
                None
            }
        },
    }
}

/// The first fault of the demanded columns of a table, if they have one.
pub open spec fn columns_fault(
    table: Seq<char>,
    rows: Seq<TableColumn>,
    demanded: Seq<ColumnView>,
) -> Option<Seq<char>>
    decreases demanded.len(),
{
    if demanded.len() == 0 {
        None
    } else {
        first_refusal(
            columns_fault(table, rows, demanded.drop_last()),
            column_fault(table, rows, demanded.last()),
        )
    }
}

fn compare_column(table: &str, rows: &Vec<TableColumn>, demanded: ColumnSpec) -> (verdict: Result<
    (),
    String,
>)
    ensures
        worded(column_fault(table@, rows@, demanded@), verdict),
{
    let label = "column ".to_owned().concat(table).concat(".").concat(demanded.name);
    let at: usize = match find_column(rows, demanded.name) {
        Some(at) => at,
        None => return Err(
            "required ".to_owned().concat(label.as_str()).concat(" is missing"),
        ),
    };
    let row = &rows[at];
    let kind = match &row.kind {
        Some(kind) => kind,
        None => return Err(label.concat(" has no type")),
    };
    let actual = lower(&characters(kind.as_str()));
    let expected = lower(&characters(demanded.kind));
    if !same_characters(&actual, &expected) {
        return Err(
            label.concat(" has type ").concat(kind.as_str()).concat(", expected ").concat(
                demanded.kind,
            ),
        );
    }
    if demanded.primary_key && number_or_zero(row.primary_key) != 1 {
        return Err(label.concat(" is not the primary key"));
    }
    if demanded.not_null && number_or_zero(row.not_null) == 0 {
        return Err(label.concat(" must be NOT NULL"));
    }
    Ok(())
}

/// Compares the columns of a table with the demanded ones.
pub fn compare_columns(
    table: &str,
    rows: &Vec<TableColumn>,
    demanded: &Vec<ColumnSpec>,
) -> (verdict: Result<(), String>)
    ensures
        worded(columns_fault(table@, rows@, column_views(demanded@)), verdict),
{
    let ghost views = column_views(demanded@);
    let mut index: usize = 0;
    assert(views.take(0).len() == 0);
    while index < demanded.len()
        invariant
            views == column_views(demanded@),
            index <= demanded@.len(),
            columns_fault(table@, rows@, views.take(index as int)) is None,
        decreases demanded@.len() - index,
    {
        let verdict = compare_column(table, rows, demanded[index]);
        proof {
            let longer = views.take(index + 1);
            assert(longer.drop_last() =~= views.take(index as int));
            assert(longer.last() == demanded@[index as int]@);
            if verdict is Err {
                lemma_fault_stays(table@, rows@, views, index + 1);
            }
        }
        if let Err(detail) = verdict {
            return Err(detail);
        }
        index = index + 1;
    }
    assert(views.take(views.len() as int) =~= views);
    Ok(())
}

proof fn lemma_fault_stays(
    table: Seq<char>,
    rows: Seq<TableColumn>,
    demanded: Seq<ColumnView>,
    count: int,
)
    requires
        0 <= count <= demanded.len(),
        columns_fault(table, rows, demanded.take(count)) is Some,
    ensures
        columns_fault(table, rows, demanded) == columns_fault(table, rows, demanded.take(count)),
    decreases demanded.len(),
{
    if count == demanded.len() {
        assert(demanded.take(count) =~= demanded);
    } else {
        assert(demanded.drop_last().take(count) =~= demanded.take(count));
        lemma_fault_stays(table, rows, demanded.drop_last(), count);
    }
}

/// A table with the statement that created it.
#[derive(Debug)]
pub struct TableSource {
    pub name: String,
    pub sql: String,
}

/// The first table of that name from `from` on, if there is one.
pub open spec fn table_from(sources: Seq<TableSource>, name: Seq<char>, from: int) -> Option<int>
    decreases sources.len() - from,
{
    if from < 0 || from >= sources.len() {
        None
    } else if sources[from].name@ == name {
        Some(from)
    } else {
        table_from(sources, name, from + 1)
    }
}

fn find_table(sources: &Vec<TableSource>, name: &str) -> (found: Option<usize>)
    ensures
        match found {
            Some(at) => at < sources@.len() && table_from(sources@, name@, 0) == Some(at as int),
            None => table_from(sources@, name@, 0) is None,
        },
{
    let mut index: usize = 0;
    while index < sources.len()
        invariant
            index <= sources@.len(),
            table_from(sources@, name@, 0) == table_from(sources@, name@, index as int),
        decreases sources@.len() - index,
    {
        if same_text(sources[index].name.as_str(), name) {
            return Some(index);
        }
        index = index + 1;
    }
    None
}

/// How a missing table is reported, if it is missing.
pub open spec fn missing_fault(sources: Seq<TableSource>, name: Seq<char>) -> Option<Seq<char>> {
    match table_from(sources, name, 0) {
        None => Some("required table "@ + name + " is missing"@),
        Some(_) => None,
    }
}

fn require_table(sources: &Vec<TableSource>, name: &str) -> (verdict: Result<(), String>)
    ensures
        worded(missing_fault(sources@, name@), verdict),
{
    match find_table(sources, name) {
        Some(_) => Ok(()),
        None => Err("required table ".to_owned().concat(name).concat(" is missing")),
    }
}

/// The fault of a table's definition, if the table is there and it has one: the
/// definition must be the migration's in normal form.
pub open spec fn definition_fault(
    sources: Seq<TableSource>,
    name: Seq<char>,
    migration: MigrationView,
) -> Option<Seq<char>> {
    match (table_from(sources, name, 0), table_source(migration.sql, name)) {
        (None, _) => None,
        (Some(_), Err(error)) => Some(error),
        (Some(at), Ok(expected)) => if normalized(sources[at].sql@) == normalized(expected) {
            None
        } else {
            Some(
                "table "@ + name + " definition is incompatible with schema version "@
                    + decimal_text(migration.version as nat),
            )
        },
    }
}

fn compare_table(sources: &Vec<TableSource>, name: &str, migration: Migration) -> (verdict: Result<
    (),
    String,
>)
    ensures
        worded(definition_fault(sources@, name@, migration@), verdict),
{
    let at: usize = match find_table(sources, name) {
        Some(at) => at,
        None => return Ok(()),
    };
    let expected = match expected_table_source(migration.sql(), name) {
        Ok(expected) => expected,
        Err(detail) => return Err(detail),
    };
    if same_text(
        normalize_sql(sources[at].sql.as_str()).as_str(),
        normalize_sql(expected.as_str()).as_str(),
    ) {
        Ok(())
    } else {
        let version = decimal(migration.version() as u64);
        Err(
            "table ".to_owned().concat(name).concat(
                " definition is incompatible with schema version ",
            ).concat(version.as_str()),
        )
    }
}

/// The first fault of the tables, if they have one: first all must be there,
/// then each must be defined as the migration defines it.
pub open spec fn tables_fault(sources: Seq<TableSource>, migration: MigrationView) -> Option<
    Seq<char>,
> {
    first_refusal(
        first_refusal(
            missing_fault(sources, "dovecote_schema"@),
            first_refusal(
                missing_fault(sources, "dovecote_events"@),
                missing_fault(sources, "dovecote_deliveries"@),
            ),
        ),
        first_refusal(
            definition_fault(sources, "dovecote_schema"@, migration),
            first_refusal(
                definition_fault(sources, "dovecote_events"@, migration),
                definition_fault(sources, "dovecote_deliveries"@, migration),
            ),
        ),
    )
}

/// Compares the tables with those of a migration.
pub fn compare_tables(sources: &Vec<TableSource>, migration: Migration) -> (verdict: Result<
    (),
    String,
>)
    ensures
        worded(tables_fault(sources@, migration@), verdict),
{
    if let Err(detail) = require_table(sources, "dovecote_schema") {
        return Err(detail);
    }
    if let Err(detail) = require_table(sources, "dovecote_events") {
        return Err(detail);
    }
    if let Err(detail) = require_table(sources, "dovecote_deliveries") {
        return Err(detail);
    }
    if let Err(detail) = compare_table(sources, "dovecote_schema", migration) {
        return Err(detail);
    }
    if let Err(detail) = compare_table(sources, "dovecote_events", migration) {
        return Err(detail);
    }
    compare_table(sources, "dovecote_deliveries", migration)
}

/// A schema object that the adapter does not ship.
#[derive(Debug)]
pub struct SchemaObject {
    pub object_type: String,
    pub name: String,
    pub table_name: String,
}

/// How the first unsupported object is reported, if there is one.
pub open spec fn objects_fault(objects: Seq<SchemaObject>) -> Option<Seq<char>> {
    if objects.len() == 0 {
        None
    } else {
        Some(
            "unsupported SQLite schema object "@ + objects[0].object_type@ + " "@
                + objects[0].name@ + " on "@ + objects[0].table_name@,
        )
    }
}

/// Requires that there is no unsupported object.
pub fn compare_objects(objects: &Vec<SchemaObject>) -> (verdict: Result<(), String>)
    ensures
        worded(objects_fault(objects@), verdict),
{
    if objects.len() == 0 {
        return Ok(());
    }
    let object = &objects[0];
    Err(
        "unsupported SQLite schema object ".to_owned().concat(object.object_type.as_str()).concat(
            " ",
        ).concat(object.name.as_str()).concat(" on ").concat(object.table_name.as_str()),
    )
}

/// One index as `PRAGMA index_list` shows it.
#[derive(Debug)]
pub struct IndexRow {
    pub name: Option<String>,
    pub unique: Option<i64>,
}

/// The first index of that name from `from` on, if there is one.
pub open spec fn index_from(rows: Seq<IndexRow>, name: Seq<char>, from: int) -> Option<int>
    decreases rows.len() - from,
{
    if from < 0 || from >= rows.len() {
        None
    } else if optional_text(rows[from].name) == Some(name) {
        Some(from)
    } else {
        index_from(rows, name, from + 1)
    }
}

fn find_index(rows: &Vec<IndexRow>, name: &str) -> (found: Option<usize>)
    ensures
        match found {
            Some(at) => at < rows@.len() && index_from(rows@, name@, 0) == Some(at as int),
            None => index_from(rows@, name@, 0) is None,
        },
{
    let mut index: usize = 0;
    while index < rows.len()
        invariant
            index <= rows@.len(),
            index_from(rows@, name@, 0) == index_from(rows@, name@, index as int),
        decreases rows@.len() - index,
    {
        if is_text(&rows[index].name, name) {
            return Some(index);
        }
        index = index + 1;
    }
    None
}

/// The fault of an index in the list of its table, if it has one.
pub open spec fn listed_fault(rows: Seq<IndexRow>, name: Seq<char>, unique: bool) -> Option<
    Seq<char>,
> {
    match index_from(rows, name, 0) {
        None => Some("required index "@ + name + " is missing"@),
        Some(at) => if (number(rows[at].unique) != 0) == unique {
            None
        } else {
            Some("index "@ + name + " uniqueness is incompatible"@)
        },
    }
}

/// Requires an index in the list of its table.
pub fn compare_listed(rows: &Vec<IndexRow>, name: &str, unique: bool) -> (verdict: Result<
    (),
    String,
>)
    ensures
        worded(listed_fault(rows@, name@, unique), verdict),
{
    match find_index(rows, name) {
        None => Err("required index ".to_owned().concat(name).concat(" is missing")),
        Some(at) => if (number_or_zero(rows[at].unique) != 0) == unique {
            Ok(())
        } else {
            Err("index ".to_owned().concat(name).concat(" uniqueness is incompatible"))
        },
    }
}

/// The fault of an index's definition, if it has one.
pub open spec fn index_fault(
    source: Option<Seq<char>>,
    name: Seq<char>,
    migration: MigrationView,
) -> Option<Seq<char>> {
    match (source, index_source(migration.sql, name)) {
        (None, _) => Some("index "@ + name + " has no definition"@),
        (Some(_), Err(error)) => Some(error),
        (Some(sql), Ok(expected)) => if normalized(sql) == normalized(expected) {
            None
        } else {
            Some("index "@ + name + " definition is incompatible"@)
        },
    }
}

/// Compares the definition of an index with the migration's.
pub fn compare_index(source: &Option<String>, name: &str, migration: Migration) -> (verdict: Result<
    (),
    String,
>)
    ensures
        worded(index_fault(optional_text(*source), name@, migration@), verdict),
{
    let sql = match source {
        Some(sql) => sql,
        None => return Err("index ".to_owned().concat(name).concat(" has no definition")),
    };
    let expected = match expected_index_source(migration.sql(), name) {
        Ok(expected) => expected,
        Err(detail) => return Err(detail),
    };
    if same_text(
        normalize_sql(sql.as_str()).as_str(),
        normalize_sql(expected.as_str()).as_str(),
    ) {
        Ok(())
    } else {
        Err("index ".to_owned().concat(name).concat(" definition is incompatible"))
    }
}

/// The texts that were read, in order.
pub open spec fn present(values: Seq<Option<String>>) -> Seq<Seq<char>>
    decreases values.len(),
{
    if values.len() == 0 {
        Seq::empty()
    } else {
        match values.last() {
            Some(text) => present(values.drop_last()).push(text@),
            None => present(values.drop_last()),
        }
    }
}

fn present_texts(values: &Vec<Option<String>>) -> (list: Vec<String>)
    ensures
        texts(list@) == present(values@),
{
    let mut list: Vec<String> = Vec::new();
    let mut index: usize = 0;
    assert(texts(list@) =~= present(values@.take(0)));
    while index < values.len()
        invariant
            index <= values@.len(),
            texts(list@) == present(values@.take(index as int)),
        decreases values@.len() - index,
    {
        proof {
            let longer = values@.take(index + 1);
            assert(longer.drop_last() =~= values@.take(index as int));
            assert(longer.last() == values@[index as int]);
        }
        if let Some(text) = &values[index] {
            let ghost before = list@;
            list.push(text.clone());
            assert(texts(list@) =~= texts(before).push(text@));
        }
        index = index + 1;
    }
    assert(values@.take(values@.len() as int) =~= values@);
    list
}

/// The fault of an index's columns, if they have one.
pub open spec fn index_columns_fault(
    names: Seq<Option<String>>,
    name: Seq<char>,
    columns: Seq<Seq<char>>,
) -> Option<Seq<char>> {
    if present(names) == columns {
        None
    } else {
        Some("index "@ + name + " columns are incompatible"@)
    }
}

/// Compares the columns of an index with the demanded ones.
pub fn compare_index_columns(
    names: &Vec<Option<String>>,
    name: &str,
    columns: &Vec<&'static str>,
) -> (verdict: Result<(), String>)
    ensures
        worded(index_columns_fault(names@, name@, literals(columns@)), verdict),
{
    let actual = present_texts(names);
    if same_texts(&actual, columns) {
        Ok(())
    } else {
        Err("index ".to_owned().concat(name).concat(" columns are incompatible"))
    }
}

/// The key flags and the collations that `PRAGMA index_xinfo` shows, each in the
/// order of the rows.
#[derive(Debug)]
pub struct Collations {
    pub keys: Vec<Option<i64>>,
    pub collations: Vec<Option<String>>,
}

/// How many key flags were read and are set.
pub open spec fn set_keys(keys: Seq<Option<i64>>) -> nat
    decreases keys.len(),
{
    if keys.len() == 0 {
        0
    } else if number(keys.last()) != 0 {
        set_keys(keys.drop_last()) + 1
    } else {
        set_keys(keys.drop_last())
    }
}

/// The collations that pair with the set keys: of each, the first with the first
/// and so on, as far as both reach.
pub open spec fn paired_collations(keys: Seq<Option<i64>>, collations: Seq<Option<String>>) -> Seq<
    Seq<char>,
> {
    let read = present(collations);
    if set_keys(keys) < read.len() {
        read.take(set_keys(keys) as int)
    } else {
        read
    }
}

/// The fault of the identity index's collations, if they have one.
pub open spec fn collation_fault(
    keys: Seq<Option<i64>>,
    collations: Seq<Option<String>>,
) -> Option<Seq<char>> {
    if paired_collations(keys, collations) == seq!["BINARY"@, "BINARY"@, "BINARY"@] {
        None
    } else {
        Some("identity index collation is not BINARY"@)
    }
}

fn count_keys(keys: &Vec<Option<i64>>) -> (count: usize)
    ensures
        count == set_keys(keys@),
{
    let mut count: usize = 0;
    let mut index: usize = 0;
    while index < keys.len()
        invariant
            index <= keys@.len(),
            count <= index,
            count == set_keys(keys@.take(index as int)),
        decreases keys@.len() - index,
    {
        proof {
            let longer = keys@.take(index + 1);
            assert(longer.drop_last() =~= keys@.take(index as int));
            assert(longer.last() == keys@[index as int]);
        }
        if number_or_zero(keys[index]) != 0 {
            count = count + 1;
        }
        index = index + 1;
    }
    assert(keys@.take(keys@.len() as int) =~= keys@);
    count
}

/// Requires that the identity index compares its three columns byte by byte.
pub fn compare_collations(shown: &Collations) -> (verdict: Result<(), String>)
    ensures
        worded(collation_fault(shown.keys@, shown.collations@), verdict),
{
    let read = present_texts(&shown.collations);
    let keys = count_keys(&shown.keys);
    let ghost expected = seq!["BINARY"@, "BINARY"@, "BINARY"@];
    let ghost paired = paired_collations(shown.keys@, shown.collations@);
    let paired_len: usize = if keys < read.len() {
        keys
    } else {
        read.len()
    };
    assert(read@.len() == present(shown.collations@).len());
    assert(paired.len() == paired_len);
    if paired_len == 3 {
        assert(forall|i: int| 0 <= i < 3 ==> paired[i] == texts(read@)[i]);
        assert(paired[0] == read@[0]@ && paired[1] == read@[1]@ && paired[2] == read@[2]@);
        if same_text(read[0].as_str(), "BINARY") && same_text(read[1].as_str(), "BINARY")
            && same_text(read[2].as_str(), "BINARY") {
            assert(paired =~= expected);
            return Ok(());
        }
        proof {
            if paired == expected {
                assert(paired[0] == "BINARY"@ && paired[1] == "BINARY"@ && paired[2] == "BINARY"@);
            }
        }
    }
    Err("identity index collation is not BINARY".to_owned())
}

/// One foreign-key column as `PRAGMA foreign_key_list` shows it.
#[derive(Debug)]
pub struct ForeignKeyRow {
    pub table: Option<String>,
    pub from: Option<String>,
    pub to: Option<String>,
}

/// A text that was read, or the empty text.
pub open spec fn text_or_empty(value: Option<String>) -> Seq<char> {
    match value {
        Some(text) => text@,
        None => Seq::empty(),
    }
}

fn is_text_or_empty(value: &Option<String>, expected: &str) -> (same: bool)
    requires
        expected@.len() > 0,
    ensures
        same == (text_or_empty(*value) == expected@),
{
    match value {
        Some(text) => same_text(text.as_str(), expected),
        None => false,
    }
}

/// The column pairs of the foreign keys to the event table.
pub open spec fn event_references(rows: Seq<ForeignKeyRow>) -> Seq<(Seq<char>, Seq<char>)>
    decreases rows.len(),
{
    if rows.len() == 0 {
        Seq::empty()
    } else if optional_text(rows.last().table) == Some("dovecote_events"@) {
        event_references(rows.drop_last()).push(
            (text_or_empty(rows.last().from), text_or_empty(rows.last().to)),
        )
    } else {
        event_references(rows.drop_last())
    }
}

/// The fault of the foreign key of deliveries, if it has one.
pub open spec fn foreign_key_fault(rows: Seq<ForeignKeyRow>) -> Option<Seq<char>> {
    let pairs = event_references(rows);
    if pairs.len() != 2 {
        Some("delivery foreign key is missing"@)
    } else if !pairs.contains(("tenant_id"@, "tenant_id"@)) || !pairs.contains(
        ("event_row_id"@, "row_id"@),
    ) {
        Some("delivery foreign key is incompatible"@)
    } else {
        None
    }
}

/// Requires the foreign key of deliveries.
pub fn compare_foreign_key(rows: &Vec<ForeignKeyRow>) -> (verdict: Result<(), String>)
    ensures
        worded(foreign_key_fault(rows@), verdict),
{
    let ghost tenant_pair = ("tenant_id"@, "tenant_id"@);
    let ghost row_pair = ("event_row_id"@, "row_id"@);
    let mut count: usize = 0;
    let mut tenant = false;
    let mut row = false;
    let mut index: usize = 0;
    proof {
        reveal_strlit("tenant_id");
        reveal_strlit("event_row_id");
        reveal_strlit("row_id");
    }
    while index < rows.len()
        invariant
            "tenant_id"@.len() > 0,
            "event_row_id"@.len() > 0,
            "row_id"@.len() > 0,
            tenant_pair == ("tenant_id"@, "tenant_id"@),
            row_pair == ("event_row_id"@, "row_id"@),
            index <= rows@.len(),
            count <= index,
            count == event_references(rows@.take(index as int)).len(),
            tenant == event_references(rows@.take(index as int)).contains(tenant_pair),
            row == event_references(rows@.take(index as int)).contains(row_pair),
        decreases rows@.len() - index,
    {
        let ghost before = event_references(rows@.take(index as int));
        let ghost longer = rows@.take(index + 1);
        proof {
            assert(longer.drop_last() =~= rows@.take(index as int));
            assert(longer.last() == rows@[index as int]);
        }
        let entry = &rows[index];
        if is_text(&entry.table, "dovecote_events") {
            let is_tenant = is_text_or_empty(&entry.from, "tenant_id") && is_text_or_empty(
                &entry.to,
                "tenant_id",
            );
            let is_row = is_text_or_empty(&entry.from, "event_row_id") && is_text_or_empty(
                &entry.to,
                "row_id",
            );
            proof {
                let pair = (text_or_empty(entry.from), text_or_empty(entry.to));
                assert(event_references(longer) == before.push(pair));
                lemma_push_contains(before, pair, tenant_pair);
                lemma_push_contains(before, pair, row_pair);
            }
            count = count + 1;
            tenant = tenant || is_tenant;
            row = row || is_row;
        }
        index = index + 1;
    }
    assert(rows@.take(rows@.len() as int) =~= rows@);
    if count != 2 {
        return Err("delivery foreign key is missing".to_owned());
    }
    if !tenant || !row {
        return Err("delivery foreign key is incompatible".to_owned());
    }
    Ok(())
}

proof fn lemma_push_contains<A>(list: Seq<A>, item: A, sought: A)
    ensures
        list.push(item).contains(sought) == (list.contains(sought) || item == sought),
{
    let longer = list.push(item);
    if list.contains(sought) {
        let i = choose|i: int| 0 <= i < list.len() && list[i] == sought;
        assert(longer[i] == sought);
    }
    if item == sought {
        assert(longer[list.len() as int] == sought);
    }
    if longer.contains(sought) {
        let i = choose|i: int| 0 <= i < longer.len() && longer[i] == sought;
        if i < list.len() {
            assert(list[i] == sought);
        }
    }
}

} // verus!
