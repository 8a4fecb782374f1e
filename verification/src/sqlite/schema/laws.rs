//! What an accepted catalog shows, question by question.

use crate::sqlite::error::SchemaError;
use crate::migration::Migration;
use crate::sqlite::migration::baseline;
use crate::sqlite::schema::catalog::{
    column_fault, column_from, column_views, columns_fault, compare_columns, compare_index,
    compare_index_columns, compare_listed, compare_markers, compare_objects,
    demanded_delivery_columns, demanded_event_columns, event_references, index_from, present,
    set_keys, table_from, Collations, ColumnSpec, ColumnView, ForeignKeyRow, IndexRow,
    SchemaMarker, SchemaObject, TableColumn, TableSource,
};
use crate::sqlite::schema::check::{CatalogReply, SchemaCheck, SchemaIndex};
use crate::sqlite::schema::normalization::normalized;
use crate::sqlite::schema::source::{index_source, table_source};
use crate::text::{decimal_text, lowered, optional_text};
use vstd::prelude::*;

verus! {

/// Whether `at` is the first column of this name.
pub open spec fn first_column(rows: Seq<TableColumn>, name: Seq<char>, at: int) -> bool {
    &&& 0 <= at < rows.len()
    &&& optional_text(rows[at].name) == Some(name)
    &&& forall|i: int| 0 <= i < at ==> optional_text((#[trigger] rows[i]).name) != Some(name)
}

proof fn lemma_column_from(rows: Seq<TableColumn>, name: Seq<char>, from: int)
    requires
        0 <= from <= rows.len(),
        forall|i: int| 0 <= i < from ==> optional_text((#[trigger] rows[i]).name) != Some(name),
    ensures
        column_from(rows, name, from) matches Some(at) ==> first_column(rows, name, at),
        column_from(rows, name, from) is None ==> forall|at: int|
            !#[trigger] first_column(rows, name, at),
        forall|at: int| #[trigger]
            first_column(rows, name, at) ==> column_from(rows, name, from) == Some(at),
    decreases rows.len() - from,
{
    if from < rows.len() {
        if optional_text(rows[from].name) != Some(name) {
            lemma_column_from(rows, name, from + 1);
        } else {
            assert forall|at: int| #[trigger] first_column(rows, name, at) implies at == from by {
                if at < from {
                    assert(optional_text(rows[at].name) != Some(name));
                }
                if from < at {
                    assert(optional_text(rows[from].name) != Some(name));
                }
            }
        }
    } else {
        assert forall|at: int| !#[trigger] first_column(rows, name, at) by {
            if first_column(rows, name, at) {
                assert(optional_text(rows[at].name) != Some(name));
            }
        }
    }
}

/// Whether a column has this type, in any letter case.
pub open spec fn is_of_type(row: TableColumn, kind: Seq<char>) -> bool {
    row.kind is Some && lowered(row.kind->0@) == lowered(kind)
}

/// Whether a table has a column of this name and type.
pub open spec fn has_column(rows: Seq<TableColumn>, name: Seq<char>, kind: Seq<char>) -> bool {
    exists|at: int| #[trigger] first_column(rows, name, at) && is_of_type(rows[at], kind)
}

/// Whether a table has a column of this name and type that must have a value.
pub open spec fn has_required(rows: Seq<TableColumn>, name: Seq<char>, kind: Seq<char>) -> bool {
    exists|at: int|
        #[trigger] first_column(rows, name, at) && is_of_type(rows[at], kind)
            && rows[at].not_null is Some && rows[at].not_null->0 != 0
}

/// Whether a table has a column of this name and type that is its primary key.
pub open spec fn has_primary_key(rows: Seq<TableColumn>, name: Seq<char>, kind: Seq<char>) -> bool {
    exists|at: int|
        #[trigger] first_column(rows, name, at) && is_of_type(rows[at], kind)
            && rows[at].primary_key == Some(1i64)
}

proof fn lemma_columns_fault(table: Seq<char>, rows: Seq<TableColumn>, demanded: Seq<ColumnView>)
    ensures
        columns_fault(table, rows, demanded) is None <==> (forall|i: int|
            0 <= i < demanded.len() ==> column_fault(table, rows, #[trigger] demanded[i]) is None),
    decreases demanded.len(),
{
    if demanded.len() > 0 {
        let shorter = demanded.drop_last();
        lemma_columns_fault(table, rows, shorter);
        assert(demanded.last() == demanded[demanded.len() - 1]);
        if columns_fault(table, rows, demanded) is None {
            assert forall|i: int| 0 <= i < demanded.len() implies column_fault(
                table,
                rows,
                #[trigger] demanded[i],
            ) is None by {
                if i < shorter.len() {
                    assert(demanded[i] == shorter[i]);
                }
            }
        } else if columns_fault(table, rows, shorter) is Some {
            let i = choose|i: int|
                0 <= i < shorter.len() && column_fault(table, rows, #[trigger] shorter[i]) is Some;
            assert(demanded[i] == shorter[i]);
        }
    }
}

proof fn lemma_column_fault(table: Seq<char>, rows: Seq<TableColumn>, demanded: ColumnView)
    ensures
        demanded.primary_key && !demanded.not_null ==> (column_fault(
            table,
            rows,
            demanded,
        ) is None <==> has_primary_key(rows, demanded.name, demanded.kind)),
        !demanded.primary_key && demanded.not_null ==> (column_fault(
            table,
            rows,
            demanded,
        ) is None <==> has_required(rows, demanded.name, demanded.kind)),
        !demanded.primary_key && !demanded.not_null ==> (column_fault(
            table,
            rows,
            demanded,
        ) is None <==> has_column(rows, demanded.name, demanded.kind)),
{
    lemma_column_from(rows, demanded.name, 0);
}

/// Whether a catalog has every column of `dovecote_events`.
pub open spec fn has_event_columns(rows: Seq<TableColumn>) -> bool {
    &&& has_primary_key(rows, "row_id"@, "INTEGER"@)
    &&& has_required(rows, "tenant_id"@, "TEXT"@)
    &&& has_required(rows, "stream"@, "TEXT"@)
    &&& has_required(rows, "specversion"@, "TEXT"@)
    &&& has_required(rows, "event_id"@, "TEXT"@)
    &&& has_required(rows, "source"@, "TEXT"@)
    &&& has_required(rows, "event_type"@, "TEXT"@)
    &&& has_column(rows, "subject"@, "TEXT"@)
    &&& has_column(rows, "occurred_at"@, "TEXT"@)
    &&& has_column(rows, "datacontenttype"@, "TEXT"@)
    &&& has_column(rows, "dataschema"@, "TEXT"@)
    &&& has_column(rows, "partitionkey"@, "TEXT"@)
    &&& has_required(rows, "extensions"@, "TEXT"@)
    &&& has_column(rows, "data_kind"@, "TEXT"@)
    &&& has_column(rows, "data"@, "BLOB"@)
    &&& has_required(rows, "enqueued_at"@, "TEXT"@)
}

/// The columns of `dovecote_events` are accepted exactly if the catalog has all of
/// these.
pub proof fn accepted_event_columns(
    rows: Vec<TableColumn>,
    result: Result<SchemaCheck, SchemaError>,
)
    requires
        call_ensures(
            SchemaCheck::advance,
            (SchemaCheck::EventColumns, CatalogReply::Columns(Ok(rows))),
            result,
        ),
    ensures
        result is Ok <==> has_event_columns(rows@),
{
    let table = "dovecote_events"@;
    let demanded = demanded_event_columns();
    assert(demanded.len() == 16);
    lemma_columns_fault(table, rows@, demanded);
    lemma_column_fault(table, rows@, demanded[0]);
    assert(column_fault(table, rows@, demanded[0]) is None <==> has_primary_key(rows@, "row_id"@, "INTEGER"@));
    lemma_column_fault(table, rows@, demanded[1]);
    assert(column_fault(table, rows@, demanded[1]) is None <==> has_required(rows@, "tenant_id"@, "TEXT"@));
    lemma_column_fault(table, rows@, demanded[2]);
    assert(column_fault(table, rows@, demanded[2]) is None <==> has_required(rows@, "stream"@, "TEXT"@));
    lemma_column_fault(table, rows@, demanded[3]);
    assert(column_fault(table, rows@, demanded[3]) is None <==> has_required(rows@, "specversion"@, "TEXT"@));
    lemma_column_fault(table, rows@, demanded[4]);
    assert(column_fault(table, rows@, demanded[4]) is None <==> has_required(rows@, "event_id"@, "TEXT"@));
    lemma_column_fault(table, rows@, demanded[5]);
    assert(column_fault(table, rows@, demanded[5]) is None <==> has_required(rows@, "source"@, "TEXT"@));
    lemma_column_fault(table, rows@, demanded[6]);
    assert(column_fault(table, rows@, demanded[6]) is None <==> has_required(rows@, "event_type"@, "TEXT"@));
    lemma_column_fault(table, rows@, demanded[7]);
    assert(column_fault(table, rows@, demanded[7]) is None <==> has_column(rows@, "subject"@, "TEXT"@));
    lemma_column_fault(table, rows@, demanded[8]);
    assert(column_fault(table, rows@, demanded[8]) is None <==> has_column(rows@, "occurred_at"@, "TEXT"@));
    lemma_column_fault(table, rows@, demanded[9]);
    assert(column_fault(table, rows@, demanded[9]) is None <==> has_column(rows@, "datacontenttype"@, "TEXT"@));
    lemma_column_fault(table, rows@, demanded[10]);
    assert(column_fault(table, rows@, demanded[10]) is None <==> has_column(rows@, "dataschema"@, "TEXT"@));
    lemma_column_fault(table, rows@, demanded[11]);
    assert(column_fault(table, rows@, demanded[11]) is None <==> has_column(rows@, "partitionkey"@, "TEXT"@));
    lemma_column_fault(table, rows@, demanded[12]);
    assert(column_fault(table, rows@, demanded[12]) is None <==> has_required(rows@, "extensions"@, "TEXT"@));
    lemma_column_fault(table, rows@, demanded[13]);
    assert(column_fault(table, rows@, demanded[13]) is None <==> has_column(rows@, "data_kind"@, "TEXT"@));
    lemma_column_fault(table, rows@, demanded[14]);
    assert(column_fault(table, rows@, demanded[14]) is None <==> has_column(rows@, "data"@, "BLOB"@));
    lemma_column_fault(table, rows@, demanded[15]);
    assert(column_fault(table, rows@, demanded[15]) is None <==> has_required(rows@, "enqueued_at"@, "TEXT"@));
    if has_event_columns(rows@) {
        assert forall|i: int| 0 <= i < demanded.len() implies column_fault(
            table,
            rows@,
            #[trigger] demanded[i],
        ) is None by {}
    }
}

/// Whether a catalog has every column of `dovecote_deliveries`.
pub open spec fn has_delivery_columns(rows: Seq<TableColumn>) -> bool {
    &&& has_primary_key(rows, "event_row_id"@, "INTEGER"@)
    &&& has_required(rows, "tenant_id"@, "TEXT"@)
    &&& has_required(rows, "state"@, "TEXT"@)
    &&& has_required(rows, "available_at"@, "TEXT"@)
    &&& has_required(rows, "attempts"@, "INTEGER"@)
    &&& has_column(rows, "claim_token"@, "BLOB"@)
    &&& has_column(rows, "claimed_by"@, "TEXT"@)
    &&& has_column(rows, "claim_expires_at"@, "TEXT"@)
    &&& has_column(rows, "last_failure_code"@, "TEXT"@)
    &&& has_column(rows, "last_failure_detail"@, "TEXT"@)
    &&& has_column(rows, "delivered_at"@, "TEXT"@)
    &&& has_column(rows, "quarantined_at"@, "TEXT"@)
    &&& has_column(rows, "quarantine_reason"@, "TEXT"@)
}

/// The columns of `dovecote_deliveries` are accepted exactly if the catalog has all of
/// these.
pub proof fn accepted_delivery_columns(
    rows: Vec<TableColumn>,
    result: Result<SchemaCheck, SchemaError>,
)
    requires
        call_ensures(
            SchemaCheck::advance,
            (SchemaCheck::DeliveryColumns, CatalogReply::Columns(Ok(rows))),
            result,
        ),
    ensures
        result is Ok <==> has_delivery_columns(rows@),
{
    let table = "dovecote_deliveries"@;
    let demanded = demanded_delivery_columns();
    assert(demanded.len() == 13);
    lemma_columns_fault(table, rows@, demanded);
    lemma_column_fault(table, rows@, demanded[0]);
    assert(column_fault(table, rows@, demanded[0]) is None <==> has_primary_key(rows@, "event_row_id"@, "INTEGER"@));
    lemma_column_fault(table, rows@, demanded[1]);
    assert(column_fault(table, rows@, demanded[1]) is None <==> has_required(rows@, "tenant_id"@, "TEXT"@));
    lemma_column_fault(table, rows@, demanded[2]);
    assert(column_fault(table, rows@, demanded[2]) is None <==> has_required(rows@, "state"@, "TEXT"@));
    lemma_column_fault(table, rows@, demanded[3]);
    assert(column_fault(table, rows@, demanded[3]) is None <==> has_required(rows@, "available_at"@, "TEXT"@));
    lemma_column_fault(table, rows@, demanded[4]);
    assert(column_fault(table, rows@, demanded[4]) is None <==> has_required(rows@, "attempts"@, "INTEGER"@));
    lemma_column_fault(table, rows@, demanded[5]);
    assert(column_fault(table, rows@, demanded[5]) is None <==> has_column(rows@, "claim_token"@, "BLOB"@));
    lemma_column_fault(table, rows@, demanded[6]);
    assert(column_fault(table, rows@, demanded[6]) is None <==> has_column(rows@, "claimed_by"@, "TEXT"@));
    lemma_column_fault(table, rows@, demanded[7]);
    assert(column_fault(table, rows@, demanded[7]) is None <==> has_column(rows@, "claim_expires_at"@, "TEXT"@));
    lemma_column_fault(table, rows@, demanded[8]);
    assert(column_fault(table, rows@, demanded[8]) is None <==> has_column(rows@, "last_failure_code"@, "TEXT"@));
    lemma_column_fault(table, rows@, demanded[9]);
    assert(column_fault(table, rows@, demanded[9]) is None <==> has_column(rows@, "last_failure_detail"@, "TEXT"@));
    lemma_column_fault(table, rows@, demanded[10]);
    assert(column_fault(table, rows@, demanded[10]) is None <==> has_column(rows@, "delivered_at"@, "TEXT"@));
    lemma_column_fault(table, rows@, demanded[11]);
    assert(column_fault(table, rows@, demanded[11]) is None <==> has_column(rows@, "quarantined_at"@, "TEXT"@));
    lemma_column_fault(table, rows@, demanded[12]);
    assert(column_fault(table, rows@, demanded[12]) is None <==> has_column(rows@, "quarantine_reason"@, "TEXT"@));
    if has_delivery_columns(rows@) {
        assert forall|i: int| 0 <= i < demanded.len() implies column_fault(
            table,
            rows@,
            #[trigger] demanded[i],
        ) is None by {}
    }
}

/// Foreign keys must be enforced.
pub proof fn accepted_enforcement(enabled: i64, result: Result<SchemaCheck, SchemaError>)
    requires
        call_ensures(
            SchemaCheck::advance,
            (SchemaCheck::Enforcement, CatalogReply::Enforcement(Ok(enabled))),
            result,
        ),
    ensures
        result is Ok <==> enabled == 1,
{
}

/// The markers are accepted exactly if there is one, of version 2, for crates from
/// version 0.2.0 on and without rolling compatibility.
pub proof fn accepted_markers(
    markers: Vec<SchemaMarker>,
    result: Result<SchemaCheck, SchemaError>,
)
    requires
        call_ensures(
            SchemaCheck::advance,
            (SchemaCheck::Markers, CatalogReply::Markers(Ok(markers))),
            result,
        ),
    ensures
        result is Ok <==> {
            &&& markers@.len() == 1
            &&& markers@[0].schema_version == 2
            &&& markers@[0].minimum_crate_major == 0
            &&& markers@[0].minimum_crate_minor == 2
            &&& markers@[0].minimum_crate_patch == 0
            &&& markers@[0].rolling_compatible == 0
        },
{
}

/// Whether `at` is the first table of this name.
pub open spec fn first_table(sources: Seq<TableSource>, name: Seq<char>, at: int) -> bool {
    &&& 0 <= at < sources.len()
    &&& sources[at].name@ == name
    &&& forall|i: int| 0 <= i < at ==> (#[trigger] sources[i]).name@ != name
}

proof fn lemma_table_from(sources: Seq<TableSource>, name: Seq<char>, from: int)
    requires
        0 <= from <= sources.len(),
        forall|i: int| 0 <= i < from ==> (#[trigger] sources[i]).name@ != name,
    ensures
        table_from(sources, name, from) matches Some(at) ==> first_table(sources, name, at),
        table_from(sources, name, from) is None ==> forall|at: int|
            !#[trigger] first_table(sources, name, at),
        forall|at: int| #[trigger]
            first_table(sources, name, at) ==> table_from(sources, name, from) == Some(at),
    decreases sources.len() - from,
{
    if from < sources.len() {
        if sources[from].name@ != name {
            lemma_table_from(sources, name, from + 1);
        } else {
            assert forall|at: int| #[trigger] first_table(sources, name, at) implies at == from by {
                if at < from {
                    assert(sources[at].name@ != name);
                }
                if from < at {
                    assert(sources[from].name@ != name);
                }
            }
        }
    } else {
        assert forall|at: int| !#[trigger] first_table(sources, name, at) by {
            if first_table(sources, name, at) {
                assert(sources[at].name@ != name);
            }
        }
    }
}

/// Whether a catalog has this table, created by the statement of the shipped
/// migration up to white space, letter case and identifier quotes.
pub open spec fn has_table(sources: Seq<TableSource>, name: Seq<char>) -> bool {
    exists|at: int|
        {
            &&& #[trigger] first_table(sources, name, at)
            &&& table_source(baseline().sql, name) is Ok
            &&& normalized(sources[at].sql@) == normalized(table_source(baseline().sql, name)->Ok_0)
        }
}

/// The tables are accepted exactly if all three are there and were created by the
/// statements of the shipped migration.
pub proof fn accepted_tables(
    sources: Vec<TableSource>,
    result: Result<SchemaCheck, SchemaError>,
)
    requires
        call_ensures(
            SchemaCheck::advance,
            (SchemaCheck::Tables, CatalogReply::Tables(Ok(sources))),
            result,
        ),
    ensures
        result is Ok <==> {
            &&& has_table(sources@, "dovecote_schema"@)
            &&& has_table(sources@, "dovecote_events"@)
            &&& has_table(sources@, "dovecote_deliveries"@)
        },
{
    lemma_table_from(sources@, "dovecote_schema"@, 0);
    lemma_table_from(sources@, "dovecote_events"@, 0);
    lemma_table_from(sources@, "dovecote_deliveries"@, 0);
}

/// No object beside those of the migration is accepted, and no row that violates a
/// foreign key.
pub proof fn accepted_objects(
    objects: Vec<SchemaObject>,
    shown: Result<SchemaCheck, SchemaError>,
    count: usize,
    counted: Result<SchemaCheck, SchemaError>,
)
    requires
        call_ensures(
            SchemaCheck::advance,
            (SchemaCheck::Objects, CatalogReply::Objects(Ok(objects))),
            shown,
        ),
        call_ensures(
            SchemaCheck::advance,
            (SchemaCheck::Violations, CatalogReply::Violations(Ok(count))),
            counted,
        ),
    ensures
        shown is Ok <==> objects@.len() == 0,
        counted is Ok <==> count == 0,
{
}

/// Whether `at` is the first index of this name.
pub open spec fn first_index(rows: Seq<IndexRow>, name: Seq<char>, at: int) -> bool {
    &&& 0 <= at < rows.len()
    &&& optional_text(rows[at].name) == Some(name)
    &&& forall|i: int| 0 <= i < at ==> optional_text((#[trigger] rows[i]).name) != Some(name)
}

proof fn lemma_index_from(rows: Seq<IndexRow>, name: Seq<char>, from: int)
    requires
        0 <= from <= rows.len(),
        forall|i: int| 0 <= i < from ==> optional_text((#[trigger] rows[i]).name) != Some(name),
    ensures
        index_from(rows, name, from) matches Some(at) ==> first_index(rows, name, at),
        index_from(rows, name, from) is None ==> forall|at: int|
            !#[trigger] first_index(rows, name, at),
        forall|at: int| #[trigger]
            first_index(rows, name, at) ==> index_from(rows, name, from) == Some(at),
    decreases rows.len() - from,
{
    if from < rows.len() {
        if optional_text(rows[from].name) != Some(name) {
            lemma_index_from(rows, name, from + 1);
        } else {
            assert forall|at: int| #[trigger] first_index(rows, name, at) implies at == from by {
                if at < from {
                    assert(optional_text(rows[at].name) != Some(name));
                }
                if from < at {
                    assert(optional_text(rows[from].name) != Some(name));
                }
            }
        }
    } else {
        assert forall|at: int| !#[trigger] first_index(rows, name, at) by {
            if first_index(rows, name, at) {
                assert(optional_text(rows[at].name) != Some(name));
            }
        }
    }
}

/// Whether a table has an index of this name that keeps its keys unique, or one
/// that does not.
pub open spec fn has_index(rows: Seq<IndexRow>, name: Seq<char>, unique: bool) -> bool {
    exists|at: int|
        #[trigger] first_index(rows, name, at) && (unique <==> (rows[at].unique is Some
            && rows[at].unique->0 != 0))
}

/// The name of an index of the schema.
pub open spec fn name_of(index: SchemaIndex) -> Seq<char> {
    if index is Identity {
        "dovecote_events_tenant_source_event_id"@
    } else if index is TenantRow {
        "dovecote_events_tenant_row"@
    } else if index is Claimable {
        "dovecote_deliveries_claimable"@
    } else {
        "dovecote_deliveries_expired_claims"@
    }
}

/// An index is accepted exactly if its table lists it, unique if it is the one of
/// event identities and not otherwise, if it was created by the statement of the
/// shipped migration, and if it has its columns in their order.
pub proof fn accepted_indexes(
    index: SchemaIndex,
    rows: Vec<IndexRow>,
    listed: Result<SchemaCheck, SchemaError>,
    source: Option<String>,
    defined: Result<SchemaCheck, SchemaError>,
    names: Vec<Option<String>>,
    shaped: Result<SchemaCheck, SchemaError>,
)
    requires
        call_ensures(
            SchemaCheck::advance,
            (SchemaCheck::IndexList(index), CatalogReply::Indexes(Ok(rows))),
            listed,
        ),
        call_ensures(
            SchemaCheck::advance,
            (SchemaCheck::IndexDefinition(index), CatalogReply::Definition(Ok(source))),
            defined,
        ),
        call_ensures(
            SchemaCheck::advance,
            (SchemaCheck::IndexColumns(index), CatalogReply::IndexColumns(Ok(names))),
            shaped,
        ),
    ensures
        listed is Ok <==> has_index(rows@, name_of(index), index is Identity),
        defined is Ok <==> {
            &&& source is Some
            &&& index_source(baseline().sql, name_of(index)) is Ok
            &&& normalized(source->0@) == normalized(
                index_source(baseline().sql, name_of(index))->Ok_0,
            )
        },
        index is Identity ==> (shaped is Ok <==> present(names@) == seq![
            "tenant_id"@,
            "source"@,
            "event_id"@,
        ]),
        index is TenantRow ==> (shaped is Ok <==> present(names@) == seq!["tenant_id"@, "row_id"@]),
        index is Claimable ==> (shaped is Ok <==> present(names@) == seq![
            "tenant_id"@,
            "state"@,
            "available_at"@,
            "event_row_id"@,
        ]),
        index is ExpiredClaims ==> (shaped is Ok <==> present(names@) == seq![
            "tenant_id"@,
            "state"@,
            "claim_expires_at"@,
            "event_row_id"@,
        ]),
{
    lemma_index_from(rows@, name_of(index), 0);
}

/// Columns that could all be read are the columns of the index.
pub proof fn columns_that_were_read_are_present(names: Seq<Option<String>>)
    requires
        forall|i: int| 0 <= i < names.len() ==> (#[trigger] names[i]) is Some,
    ensures
        present(names).len() == names.len(),
        forall|i: int| 0 <= i < names.len() ==> #[trigger] present(names)[i] == names[i]->0@,
    decreases names.len(),
{
    if names.len() > 0 {
        assert(names.last() == names[names.len() - 1]);
        let shorter = names.drop_last();
        assert forall|i: int| 0 <= i < shorter.len() implies (#[trigger] shorter[i]) is Some by {
            assert(shorter[i] == names[i]);
        }
        columns_that_were_read_are_present(shorter);
        assert forall|i: int| 0 <= i < names.len() implies #[trigger] present(names)[i]
            == names[i]->0@ by {
            if i < shorter.len() {
                assert(present(shorter)[i] == shorter[i]->0@);
            }
        }
    }
}

/// The keys of an index are counted exactly if they were read as set.
pub proof fn set_keys_are_counted(keys: Seq<Option<i64>>)
    requires
        forall|i: int| 0 <= i < keys.len() ==> (#[trigger] keys[i]) is Some,
    ensures
        set_keys(keys) == keys.filter(|key: Option<i64>| key->0 != 0).len(),
    decreases keys.len(),
{
    reveal(Seq::filter);
    if keys.len() > 0 {
        assert(keys.last() == keys[keys.len() - 1]);
        let shorter = keys.drop_last();
        assert forall|i: int| 0 <= i < shorter.len() implies (#[trigger] shorter[i]) is Some by {
            assert(shorter[i] == keys[i]);
        }
        set_keys_are_counted(shorter);
    }
}

/// The index of event identities is accepted only if it compares its three columns
/// byte by byte, and is accepted if the catalog shows exactly that.
pub proof fn accepted_collations(
    shown: Collations,
    result: Result<SchemaCheck, SchemaError>,
)
    requires
        call_ensures(
            SchemaCheck::advance,
            (SchemaCheck::IdentityCollation, CatalogReply::Collations(Ok(shown))),
            result,
        ),
    ensures
        result is Ok ==> {
            &&& present(shown.collations@).len() >= 3
            &&& present(shown.collations@)[0] == "BINARY"@
            &&& present(shown.collations@)[1] == "BINARY"@
            &&& present(shown.collations@)[2] == "BINARY"@
            &&& set_keys(shown.keys@) >= 3
            &&& present(shown.collations@).len() == 3 || set_keys(shown.keys@) == 3
        },
        set_keys(shown.keys@) == 3 && present(shown.collations@).len() >= 3 ==> (result is Ok <==> {
            &&& present(shown.collations@)[0] == "BINARY"@
            &&& present(shown.collations@)[1] == "BINARY"@
            &&& present(shown.collations@)[2] == "BINARY"@
        }),
{
    let read = present(shown.collations@);
    let three = seq!["BINARY"@, "BINARY"@, "BINARY"@];
    let paired = if set_keys(shown.keys@) < read.len() {
        read.take(set_keys(shown.keys@) as int)
    } else {
        read
    };
    if result is Ok {
        assert(paired == three);
        assert(paired.len() == 3);
        assert(paired[0] == "BINARY"@ && paired[1] == "BINARY"@ && paired[2] == "BINARY"@);
    }
    if set_keys(shown.keys@) == 3 && read.len() >= 3 && read[0] == "BINARY"@ && read[1]
        == "BINARY"@ && read[2] == "BINARY"@ {
        assert(paired =~= three);
    }
}

/// Whether a row is part of a foreign key to the event table.
pub open spec fn refers_to_events(row: ForeignKeyRow) -> bool {
    optional_text(row.table) == Some("dovecote_events"@)
}

/// Whether a row pairs a column of deliveries with one of the table that it refers
/// to.
pub open spec fn is_pair(row: ForeignKeyRow, from: Seq<char>, to: Seq<char>) -> bool {
    optional_text(row.from) == Some(from) && optional_text(row.to) == Some(to)
}

proof fn lemma_references(rows: Seq<ForeignKeyRow>)
    ensures
        event_references(rows).len() == rows.filter(|row: ForeignKeyRow| refers_to_events(row)).len(),
        forall|from: Seq<char>, to: Seq<char>|
            from.len() > 0 && to.len() > 0 ==> (#[trigger] event_references(rows).contains(
                (from, to),
            ) <==> exists|i: int|
                0 <= i < rows.len() && refers_to_events(#[trigger] rows[i]) && is_pair(
                    rows[i],
                    from,
                    to,
                )),
    decreases rows.len(),
{
    reveal(Seq::filter);
    if rows.len() > 0 {
        let shorter = rows.drop_last();
        let last = rows.last();
        lemma_references(shorter);
        let before = event_references(shorter);
        assert forall|from: Seq<char>, to: Seq<char>| from.len() > 0 && to.len() > 0 implies (
        #[trigger] event_references(rows).contains((from, to)) <==> exists|i: int|
            0 <= i < rows.len() && refers_to_events(#[trigger] rows[i]) && is_pair(
                rows[i],
                from,
                to,
            )) by {
            if event_references(rows).contains((from, to)) {
                let k = choose|k: int|
                    0 <= k < event_references(rows).len() && event_references(rows)[k] == (from, to);
                if k < before.len() {
                    assert(before[k] == (from, to));
                    assert(before.contains((from, to)));
                    let i = choose|i: int|
                        0 <= i < shorter.len() && refers_to_events(#[trigger] shorter[i]) && is_pair(
                            shorter[i],
                            from,
                            to,
                        );
                    assert(rows[i] == shorter[i]);
                } else {
                    assert(rows[rows.len() - 1] == last);
                    assert(refers_to_events(last) && is_pair(last, from, to));
                }
            }
            if exists|i: int|
                0 <= i < rows.len() && refers_to_events(#[trigger] rows[i]) && is_pair(
                    rows[i],
                    from,
                    to,
                ) {
                let i = choose|i: int|
                    0 <= i < rows.len() && refers_to_events(#[trigger] rows[i]) && is_pair(
                        rows[i],
                        from,
                        to,
                    );
                if i < shorter.len() {
                    assert(shorter[i] == rows[i]);
                    assert(before.contains((from, to)));
                    let k = choose|k: int| 0 <= k < before.len() && before[k] == (from, to);
                    assert(event_references(rows)[k] == (from, to));
                } else {
                    assert(event_references(rows)[before.len() as int] == (from, to));
                }
            }
        }
    }
}

/// The foreign key of deliveries is accepted exactly if two rows refer to the event
/// table, one by the tenant and one by the row.
pub proof fn accepted_foreign_key(
    rows: Vec<ForeignKeyRow>,
    result: Result<SchemaCheck, SchemaError>,
)
    requires
        call_ensures(
            SchemaCheck::advance,
            (SchemaCheck::DeliveryForeignKey, CatalogReply::ForeignKeys(Ok(rows))),
            result,
        ),
    ensures
        result is Ok <==> {
            &&& rows@.filter(|row: ForeignKeyRow| refers_to_events(row)).len() == 2
            &&& exists|i: int|
                0 <= i < rows@.len() && refers_to_events(#[trigger] rows@[i]) && is_pair(
                    rows@[i],
                    "tenant_id"@,
                    "tenant_id"@,
                )
            &&& exists|i: int|
                0 <= i < rows@.len() && refers_to_events(#[trigger] rows@[i]) && is_pair(
                    rows@[i],
                    "event_row_id"@,
                    "row_id"@,
                )
        },
{
    reveal_strlit("tenant_id");
    reveal_strlit("event_row_id");
    reveal_strlit("row_id");
    lemma_references(rows@);
    assert(event_references(rows@).contains(("tenant_id"@, "tenant_id"@)) <==> exists|i: int|
        0 <= i < rows@.len() && refers_to_events(#[trigger] rows@[i]) && is_pair(
            rows@[i],
            "tenant_id"@,
            "tenant_id"@,
        ));
    assert(event_references(rows@).contains(("event_row_id"@, "row_id"@)) <==> exists|i: int|
        0 <= i < rows@.len() && refers_to_events(#[trigger] rows@[i]) && is_pair(
            rows@[i],
            "event_row_id"@,
            "row_id"@,
        ));
}

/// The check asks its questions in this order and is done with the last. It stops at
/// the first query that fails.
pub proof fn the_check_asks_in_order(
    step: SchemaCheck,
    reply: CatalogReply,
    result: Result<SchemaCheck, SchemaError>,
)
    requires
        step.awaits(reply),
        call_ensures(SchemaCheck::advance, (step, reply), result),
    ensures
        result matches Ok(next) ==> {
            &&& step is Enforcement ==> next is Markers
            &&& step is Markers ==> next is EventColumns
            &&& step is EventColumns ==> next is DeliveryColumns
            &&& step is DeliveryColumns ==> next is Tables
            &&& step is Tables ==> next is Objects
            &&& step is Objects ==> next == SchemaCheck::IndexList(SchemaIndex::Identity)
            &&& step matches SchemaCheck::IndexList(index) ==> next
                == SchemaCheck::IndexDefinition(index)
            &&& step matches SchemaCheck::IndexDefinition(index) ==> next
                == SchemaCheck::IndexColumns(index)
            &&& step == SchemaCheck::IndexColumns(SchemaIndex::Identity) ==> next
                is IdentityCollation
            &&& step is IdentityCollation ==> next == SchemaCheck::IndexList(SchemaIndex::TenantRow)
            &&& step == SchemaCheck::IndexColumns(SchemaIndex::TenantRow) ==> next
                == SchemaCheck::IndexList(SchemaIndex::Claimable)
            &&& step == SchemaCheck::IndexColumns(SchemaIndex::Claimable) ==> next
                == SchemaCheck::IndexList(SchemaIndex::ExpiredClaims)
            &&& step == SchemaCheck::IndexColumns(SchemaIndex::ExpiredClaims) ==> next
                is DeliveryForeignKey
            &&& step is DeliveryForeignKey ==> next is Violations
            &&& step is Violations ==> next is Accepted
        },
        reply matches CatalogReply::Enforcement(Err(_)) ==> result is Err,
        reply matches CatalogReply::Markers(Err(_)) ==> result is Err,
        reply matches CatalogReply::Columns(Err(_)) ==> result is Err,
        reply matches CatalogReply::Tables(Err(_)) ==> result is Err,
        reply matches CatalogReply::Objects(Err(_)) ==> result is Err,
        reply matches CatalogReply::Indexes(Err(_)) ==> result is Err,
        reply matches CatalogReply::Definition(Err(_)) ==> result is Err,
        reply matches CatalogReply::IndexColumns(Err(_)) ==> result is Err,
        reply matches CatalogReply::Collations(Err(_)) ==> result is Err,
        reply matches CatalogReply::ForeignKeys(Err(_)) ==> result is Err,
        reply matches CatalogReply::Violations(Err(_)) ==> result is Err,
{
}

/// Every index is looked for under its name and on its table.
pub proof fn indexes_are_looked_for_by_name(
    index: SchemaIndex,
    name: &'static str,
    table: &'static str,
)
    requires
        call_ensures(SchemaIndex::name, (index,), name),
        call_ensures(SchemaIndex::table, (index,), table),
    ensures
        name@ == name_of(index),
        index is Identity || index is TenantRow ==> table@ == "dovecote_events"@,
        index is Claimable || index is ExpiredClaims ==> table@ == "dovecote_deliveries"@,
{
}

/// A query that failed is reported under its own name, with its own failure.
pub proof fn failed_queries_are_reported_by_name(
    source: sqlx::Error,
    check_foreign_key_enforcement: Result<SchemaCheck, SchemaError>,
    check_schema_marker: Result<SchemaCheck, SchemaError>,
    check_table_columns: Result<SchemaCheck, SchemaError>,
    read_schema_definitions: Result<SchemaCheck, SchemaError>,
    check_schema_object_isolation: Result<SchemaCheck, SchemaError>,
    check_schema_indexes: Result<SchemaCheck, SchemaError>,
    read_schema_index_definition: Result<SchemaCheck, SchemaError>,
    read_schema_index_columns: Result<SchemaCheck, SchemaError>,
    read_identity_index_collation: Result<SchemaCheck, SchemaError>,
    check_delivery_foreign_key: Result<SchemaCheck, SchemaError>,
    check_foreign_key_integrity: Result<SchemaCheck, SchemaError>,
    index: SchemaIndex,
)
    requires
        call_ensures(
            SchemaCheck::advance,
            (SchemaCheck::Enforcement, CatalogReply::Enforcement(Err(source))),
            check_foreign_key_enforcement,
        ),
        call_ensures(
            SchemaCheck::advance,
            (SchemaCheck::Markers, CatalogReply::Markers(Err(source))),
            check_schema_marker,
        ),
        call_ensures(
            SchemaCheck::advance,
            (SchemaCheck::EventColumns, CatalogReply::Columns(Err(source))),
            check_table_columns,
        ),
        call_ensures(
            SchemaCheck::advance,
            (SchemaCheck::Tables, CatalogReply::Tables(Err(source))),
            read_schema_definitions,
        ),
        call_ensures(
            SchemaCheck::advance,
            (SchemaCheck::Objects, CatalogReply::Objects(Err(source))),
            check_schema_object_isolation,
        ),
        call_ensures(
            SchemaCheck::advance,
            (SchemaCheck::IndexList(index), CatalogReply::Indexes(Err(source))),
            check_schema_indexes,
        ),
        call_ensures(
            SchemaCheck::advance,
            (SchemaCheck::IndexDefinition(index), CatalogReply::Definition(Err(source))),
            read_schema_index_definition,
        ),
        call_ensures(
            SchemaCheck::advance,
            (SchemaCheck::IndexColumns(index), CatalogReply::IndexColumns(Err(source))),
            read_schema_index_columns,
        ),
        call_ensures(
            SchemaCheck::advance,
            (SchemaCheck::IdentityCollation, CatalogReply::Collations(Err(source))),
            read_identity_index_collation,
        ),
        call_ensures(
            SchemaCheck::advance,
            (SchemaCheck::DeliveryForeignKey, CatalogReply::ForeignKeys(Err(source))),
            check_delivery_foreign_key,
        ),
        call_ensures(
            SchemaCheck::advance,
            (SchemaCheck::Violations, CatalogReply::Violations(Err(source))),
            check_foreign_key_integrity,
        ),
    ensures
        check_foreign_key_enforcement == Err::<SchemaCheck, SchemaError>(
            SchemaError::failed("check foreign-key enforcement", source),
        ),
        check_schema_marker == Err::<SchemaCheck, SchemaError>(
            SchemaError::failed("check schema marker", source),
        ),
        check_table_columns == Err::<SchemaCheck, SchemaError>(
            SchemaError::failed("check table columns", source),
        ),
        read_schema_definitions == Err::<SchemaCheck, SchemaError>(
            SchemaError::failed("read schema definitions", source),
        ),
        check_schema_object_isolation == Err::<SchemaCheck, SchemaError>(
            SchemaError::failed("check schema object isolation", source),
        ),
        check_schema_indexes == Err::<SchemaCheck, SchemaError>(
            SchemaError::failed("check schema indexes", source),
        ),
        read_schema_index_definition == Err::<SchemaCheck, SchemaError>(
            SchemaError::failed("read schema index definition", source),
        ),
        read_schema_index_columns == Err::<SchemaCheck, SchemaError>(
            SchemaError::failed("read schema index columns", source),
        ),
        read_identity_index_collation == Err::<SchemaCheck, SchemaError>(
            SchemaError::failed("read identity index collation", source),
        ),
        check_delivery_foreign_key == Err::<SchemaCheck, SchemaError>(
            SchemaError::failed("check delivery foreign key", source),
        ),
        check_foreign_key_integrity == Err::<SchemaCheck, SchemaError>(
            SchemaError::failed("check foreign-key integrity", source),
        ),
{
}

/// A demanded column is refused by its table and name, for the first thing that is
/// wrong with it: it is missing, has no type, has another type, is not the primary key,
/// or may lack a value.
pub proof fn refused_columns_are_named(
    table: &str,
    rows: Vec<TableColumn>,
    demanded: Vec<ColumnSpec>,
    verdict: Result<(), String>,
    at: int,
)
    requires
        demanded@.len() == 1,
        call_ensures(compare_columns, (table, &rows, &demanded), verdict),
        first_column(rows@, demanded@[0]@.name, at) || (forall|i: int|
            0 <= i < rows@.len() ==> optional_text((#[trigger] rows@[i]).name) != Some(
                demanded@[0]@.name,
            )),
    ensures
        !first_column(rows@, demanded@[0]@.name, at) ==> (verdict matches Err(detail) && detail@
            == "required "@ + ("column "@ + table@ + "."@ + demanded@[0]@.name) + " is missing"@),
        first_column(rows@, demanded@[0]@.name, at) && rows@[at].kind is None ==> (
        verdict matches Err(detail) && detail@ == "column "@ + table@ + "."@ + demanded@[0]@.name
            + " has no type"@),
        first_column(rows@, demanded@[0]@.name, at) && (rows@[at].kind matches Some(kind)
            && lowered(kind@) != lowered(demanded@[0]@.kind)) ==> (verdict matches Err(detail)
            && detail@ == "column "@ + table@ + "."@ + demanded@[0]@.name + " has type "@
            + rows@[at].kind->0@ + ", expected "@ + demanded@[0]@.kind),
        first_column(rows@, demanded@[0]@.name, at) && (rows@[at].kind matches Some(kind)
            && lowered(kind@) == lowered(demanded@[0]@.kind)) && demanded@[0]@.primary_key
            && rows@[at].primary_key != Some(1i64) ==> (verdict matches Err(detail) && detail@
            == "column "@ + table@ + "."@ + demanded@[0]@.name + " is not the primary key"@),
        first_column(rows@, demanded@[0]@.name, at) && (rows@[at].kind matches Some(kind)
            && lowered(kind@) == lowered(demanded@[0]@.kind)) && !demanded@[0]@.primary_key
            && demanded@[0]@.not_null && rows@[at].not_null == Some(0i64) ==> (
        verdict matches Err(detail) && detail@ == "column "@ + table@ + "."@ + demanded@[0]@.name
            + " must be NOT NULL"@),
{
    let views = column_views(demanded@);
    assert(views.len() == 1 && views.last() == demanded@[0]@);
    assert(views.drop_last().len() == 0);
    assert(columns_fault(table@, rows@, views.drop_last()) is None);
    lemma_column_from(rows@, demanded@[0]@.name, 0);
    assert(columns_fault(table@, rows@, views) == column_fault(table@, rows@, views.last()));
}

/// A refused marker count is told, a refused object is told with its type, name and
/// table, and a refused index by its name, for the first thing that is wrong with it.
pub proof fn refused_objects_are_named(
    markers: Vec<SchemaMarker>,
    migration: Migration,
    marked: Result<(), String>,
    objects: Vec<SchemaObject>,
    isolated: Result<(), String>,
    indexes: Vec<IndexRow>,
    name: &str,
    unique: bool,
    listed: Result<(), String>,
    names: Vec<Option<String>>,
    columns: Vec<&'static str>,
    covered: Result<(), String>,
    undefined: Result<(), String>,
    source: Option<String>,
    defined: Result<(), String>,
)
    requires
        call_ensures(compare_markers, (&markers, migration), marked),
        call_ensures(compare_objects, (&objects,), isolated),
        call_ensures(compare_listed, (&indexes, name, unique), listed),
        call_ensures(compare_index_columns, (&names, name, &columns), covered),
        call_ensures(compare_index, (&None, name, migration), undefined),
        call_ensures(compare_index, (&source, name, migration), defined),
    ensures
        markers@.len() != 1 ==> (marked matches Err(detail) && detail@
            == "expected exactly one schema marker row, found "@ + decimal_text(markers@.len())),
        markers@.len() == 1 ==> (marked matches Err(detail) ==> detail@
            == "schema marker is incompatible with this adapter"@),
        objects@.len() > 0 ==> (isolated matches Err(detail) && detail@
            == "unsupported SQLite schema object "@ + objects@[0].object_type@ + " "@
            + objects@[0].name@ + " on "@ + objects@[0].table_name@),
        listed matches Err(detail) ==> detail@ == "required index "@ + name@ + " is missing"@
            || detail@ == "index "@ + name@ + " uniqueness is incompatible"@,
        (forall|i: int|
            0 <= i < indexes@.len() ==> optional_text((#[trigger] indexes@[i]).name) != Some(name@))
            ==> (listed matches Err(detail) && detail@ == "required index "@ + name@
            + " is missing"@),
        covered matches Err(detail) ==> detail@ == "index "@ + name@ + " columns are incompatible"@,
        undefined matches Err(detail) && detail@ == "index "@ + name@ + " has no definition"@,
        source is Some && index_source(migration@.sql, name@) is Ok ==> (
        defined matches Err(detail) ==> detail@ == "index "@ + name@
            + " definition is incompatible"@),
{
    lemma_index_from(indexes@, name@, 0);
}

/// Disabled foreign keys and violating rows are refused in words, and so is a foreign
/// key of deliveries that is missing or leads elsewhere.
pub proof fn refused_foreign_keys_are_told(
    enabled: i64,
    enforced: Result<SchemaCheck, SchemaError>,
    count: usize,
    kept: Result<SchemaCheck, SchemaError>,
    rows: Vec<ForeignKeyRow>,
    led: Result<SchemaCheck, SchemaError>,
    shown: Collations,
    collated: Result<SchemaCheck, SchemaError>,
)
    requires
        call_ensures(
            SchemaCheck::advance,
            (SchemaCheck::Enforcement, CatalogReply::Enforcement(Ok(enabled))),
            enforced,
        ),
        call_ensures(
            SchemaCheck::advance,
            (SchemaCheck::Violations, CatalogReply::Violations(Ok(count))),
            kept,
        ),
        call_ensures(
            SchemaCheck::advance,
            (SchemaCheck::DeliveryForeignKey, CatalogReply::ForeignKeys(Ok(rows))),
            led,
        ),
        call_ensures(
            SchemaCheck::advance,
            (SchemaCheck::IdentityCollation, CatalogReply::Collations(Ok(shown))),
            collated,
        ),
    ensures
        enabled != 1 ==> (enforced matches Err(SchemaError::MigrationMismatch { detail }) && detail@
            == "foreign-key enforcement is disabled"@),
        count > 0 ==> (kept matches Err(SchemaError::MigrationMismatch { detail }) && detail@
            == "installed schema contains foreign-key violations"@),
        rows@.len() == 0 ==> (led matches Err(SchemaError::MigrationMismatch { detail }) && detail@
            == "delivery foreign key is missing"@),
        led matches Err(error) ==> (error matches SchemaError::MigrationMismatch { detail } && (
        detail@ == "delivery foreign key is missing"@ || detail@
            == "delivery foreign key is incompatible"@)),
        collated matches Err(error) ==> (error matches SchemaError::MigrationMismatch { detail }
            && detail@ == "identity index collation is not BINARY"@),
{
}

} // verus!
