//! What an accepted catalog shows, column by column, constraint by constraint and
//! index by index.

use crate::postgres::error::SchemaError;
use crate::postgres::migration::SchemaMarker;
use crate::postgres::schema::catalog::{
    column_conforms, columns_conform, compare_columns, first_named, is_demanded, ColumnInfo,
    ColumnSpec, NamespaceInfo,
};
use crate::postgres::schema::contracts::{
    checked, constraint_matches, defined_as, demanded_constraints, demanded_indexes, keyed,
    ConstraintInfo, IndexInfo,
};
use crate::postgres::schema::normalization::normalized;
use crate::postgres::schema::{
    compare_constraints, compare_indexes, constraint_conforms, constraints_conform,
    demanded_delivery_columns, demanded_event_columns,
    demanded_marker_columns, first_constraint, first_index, index_conforms, indexes_conform,
    is_demanded_constraint, is_demanded_index, resolve_namespace, CatalogReply, SchemaCheck,
};
use crate::text::{decimal_text, optional_text, texts};
use vstd::prelude::*;

verus! {

/// Whether a column has this type and length, takes no value or must have one, and
/// is no identity.
pub open spec fn is_of_type(
    column: ColumnInfo,
    data_type: Seq<char>,
    length: Option<i32>,
    nullable: bool,
) -> bool {
    &&& column.data_type@ == data_type
    &&& column.character_maximum_length == length
    &&& column.is_nullable@ == "YES"@ <==> nullable
    &&& column.is_identity@ == "NO"@
}

/// Whether a catalog has a column of this name and type that must have a value.
pub open spec fn has_required(
    columns: Seq<ColumnInfo>,
    name: Seq<char>,
    data_type: Seq<char>,
    length: Option<i32>,
) -> bool {
    exists|at: int|
        #[trigger] first_named(columns, name, at) && is_of_type(
            columns[at],
            data_type,
            length,
            false,
        )
}

/// Whether a catalog has a column of this name and type that may lack a value.
pub open spec fn has_optional(
    columns: Seq<ColumnInfo>,
    name: Seq<char>,
    data_type: Seq<char>,
    length: Option<i32>,
) -> bool {
    exists|at: int|
        #[trigger] first_named(columns, name, at) && is_of_type(
            columns[at],
            data_type,
            length,
            true,
        )
}

/// Whether a catalog has a column of this name and type that must have a value and
/// gets this one by default.
pub open spec fn has_defaulted(
    columns: Seq<ColumnInfo>,
    name: Seq<char>,
    data_type: Seq<char>,
    default: Seq<char>,
) -> bool {
    exists|at: int|
        #[trigger] first_named(columns, name, at) && is_of_type(
            columns[at],
            data_type,
            None,
            false,
        ) && columns[at].column_default is Some && normalized(columns[at].column_default->0@)
            == normalized(default)
}

/// Whether a catalog has a column of this name and type that is always generated as
/// an identity.
pub open spec fn has_identity(
    columns: Seq<ColumnInfo>,
    name: Seq<char>,
    data_type: Seq<char>,
) -> bool {
    exists|at: int|
        #[trigger] first_named(columns, name, at) && columns[at].data_type@ == data_type
            && columns[at].character_maximum_length is None && columns[at].is_nullable@ != "YES"@
            && columns[at].is_identity@ == "YES"@ && optional_text(columns[at].identity_generation)
            == Some("ALWAYS"@)
}

/// Whether a catalog has every column of `dovecote_schema`.
pub open spec fn has_marker_columns(columns: Seq<ColumnInfo>) -> bool {
    &&& has_required(columns, "schema_version"@, "integer"@, None)
    &&& has_required(columns, "minimum_crate_major"@, "smallint"@, None)
    &&& has_required(columns, "minimum_crate_minor"@, "smallint"@, None)
    &&& has_required(columns, "minimum_crate_patch"@, "smallint"@, None)
    &&& has_required(columns, "rolling_compatible"@, "boolean"@, None)
}

/// Whether a name is that of a column of `dovecote_schema`.
pub open spec fn names_marker_column(name: Seq<char>) -> bool {
    ||| name == "schema_version"@
    ||| name == "minimum_crate_major"@
    ||| name == "minimum_crate_minor"@
    ||| name == "minimum_crate_patch"@
    ||| name == "rolling_compatible"@
}

/// The columns of `dovecote_schema` are accepted exactly if the catalog shows these and
/// no others.
pub proof fn accepted_marker_columns(
    columns: Vec<ColumnInfo>,
    result: Result<SchemaCheck, SchemaError>,
)
    requires
        call_ensures(
            SchemaCheck::advance,
            (SchemaCheck::MarkerColumns, CatalogReply::Columns(Ok(columns))),
            result,
        ),
    ensures
        result is Ok <==> has_marker_columns(columns@) && forall|i: int|
            0 <= i < columns@.len() ==> names_marker_column((#[trigger] columns@[i]).column_name@),
{
    let demanded = demanded_marker_columns();
    assert(demanded.len() == 5);
    assert(result is Ok <==> columns_conform(columns@, demanded));
    assert forall|name: Seq<char>| #[trigger] is_demanded(name, demanded) <==> names_marker_column(
        name,
    ) by {
        assert(demanded[0].name@ == "schema_version"@);
        assert(demanded[1].name@ == "minimum_crate_major"@);
        assert(demanded[2].name@ == "minimum_crate_minor"@);
        assert(demanded[3].name@ == "minimum_crate_patch"@);
        assert(demanded[4].name@ == "rolling_compatible"@);
    }
    assert(column_conforms(columns@, demanded[0]) <==> has_required(columns@, "schema_version"@, "integer"@, None));
    assert(column_conforms(columns@, demanded[1]) <==> has_required(columns@, "minimum_crate_major"@, "smallint"@, None));
    assert(column_conforms(columns@, demanded[2]) <==> has_required(columns@, "minimum_crate_minor"@, "smallint"@, None));
    assert(column_conforms(columns@, demanded[3]) <==> has_required(columns@, "minimum_crate_patch"@, "smallint"@, None));
    assert(column_conforms(columns@, demanded[4]) <==> has_required(columns@, "rolling_compatible"@, "boolean"@, None));
    if columns_conform(columns@, demanded) {
        assert forall|i: int| 0 <= i < columns@.len() implies names_marker_column(
            (#[trigger] columns@[i]).column_name@,
        ) by {
            assert(is_demanded(columns@[i].column_name@, demanded));
        }
    }
    if has_marker_columns(columns@) {
        assert forall|i: int| 0 <= i < demanded.len() implies column_conforms(
            columns@,
            #[trigger] demanded[i],
        ) by {}
    }
}

/// Whether a catalog has every column of `dovecote_events`.
pub open spec fn has_event_columns(columns: Seq<ColumnInfo>) -> bool {
    &&& has_identity(columns, "row_id"@, "bigint"@)
    &&& has_required(columns, "tenant_id"@, "character varying"@, Some(255))
    &&& has_required(columns, "stream"@, "character varying"@, Some(255))
    &&& has_required(columns, "specversion"@, "character varying"@, Some(8))
    &&& has_required(columns, "event_id"@, "character varying"@, Some(1024))
    &&& has_required(columns, "source"@, "character varying"@, Some(2048))
    &&& has_required(columns, "event_type"@, "character varying"@, Some(1024))
    &&& has_optional(columns, "subject"@, "character varying"@, Some(2048))
    &&& has_optional(columns, "occurred_at"@, "timestamp with time zone"@, None)
    &&& has_optional(columns, "datacontenttype"@, "character varying"@, Some(255))
    &&& has_optional(columns, "dataschema"@, "character varying"@, Some(2048))
    &&& has_optional(columns, "partitionkey"@, "character varying"@, Some(255))
    &&& has_defaulted(columns, "extensions"@, "text"@, "'{}'::text"@)
    &&& has_optional(columns, "data_kind"@, "character varying"@, Some(6))
    &&& has_optional(columns, "data"@, "bytea"@, None)
    &&& has_defaulted(columns, "enqueued_at"@, "timestamp with time zone"@, "current_timestamp"@)
}

/// Whether a name is that of a column of `dovecote_events`.
pub open spec fn names_event_column(name: Seq<char>) -> bool {
    ||| name == "row_id"@
    ||| name == "tenant_id"@
    ||| name == "stream"@
    ||| name == "specversion"@
    ||| name == "event_id"@
    ||| name == "source"@
    ||| name == "event_type"@
    ||| name == "subject"@
    ||| name == "occurred_at"@
    ||| name == "datacontenttype"@
    ||| name == "dataschema"@
    ||| name == "partitionkey"@
    ||| name == "extensions"@
    ||| name == "data_kind"@
    ||| name == "data"@
    ||| name == "enqueued_at"@
}

/// The columns of `dovecote_events` are accepted exactly if the catalog shows these and
/// no others.
pub proof fn accepted_event_columns(
    columns: Vec<ColumnInfo>,
    result: Result<SchemaCheck, SchemaError>,
)
    requires
        call_ensures(
            SchemaCheck::advance,
            (SchemaCheck::EventColumns, CatalogReply::Columns(Ok(columns))),
            result,
        ),
    ensures
        result is Ok <==> has_event_columns(columns@) && forall|i: int|
            0 <= i < columns@.len() ==> names_event_column((#[trigger] columns@[i]).column_name@),
{
    let demanded = demanded_event_columns();
    assert(demanded.len() == 16);
    assert(result is Ok <==> columns_conform(columns@, demanded));
    assert forall|name: Seq<char>| #[trigger] is_demanded(name, demanded) <==> names_event_column(
        name,
    ) by {
        assert(demanded[0].name@ == "row_id"@);
        assert(demanded[1].name@ == "tenant_id"@);
        assert(demanded[2].name@ == "stream"@);
        assert(demanded[3].name@ == "specversion"@);
        assert(demanded[4].name@ == "event_id"@);
        assert(demanded[5].name@ == "source"@);
        assert(demanded[6].name@ == "event_type"@);
        assert(demanded[7].name@ == "subject"@);
        assert(demanded[8].name@ == "occurred_at"@);
        assert(demanded[9].name@ == "datacontenttype"@);
        assert(demanded[10].name@ == "dataschema"@);
        assert(demanded[11].name@ == "partitionkey"@);
        assert(demanded[12].name@ == "extensions"@);
        assert(demanded[13].name@ == "data_kind"@);
        assert(demanded[14].name@ == "data"@);
        assert(demanded[15].name@ == "enqueued_at"@);
    }
    assert(column_conforms(columns@, demanded[0]) <==> has_identity(columns@, "row_id"@, "bigint"@));
    assert(column_conforms(columns@, demanded[1]) <==> has_required(columns@, "tenant_id"@, "character varying"@, Some(255)));
    assert(column_conforms(columns@, demanded[2]) <==> has_required(columns@, "stream"@, "character varying"@, Some(255)));
    assert(column_conforms(columns@, demanded[3]) <==> has_required(columns@, "specversion"@, "character varying"@, Some(8)));
    assert(column_conforms(columns@, demanded[4]) <==> has_required(columns@, "event_id"@, "character varying"@, Some(1024)));
    assert(column_conforms(columns@, demanded[5]) <==> has_required(columns@, "source"@, "character varying"@, Some(2048)));
    assert(column_conforms(columns@, demanded[6]) <==> has_required(columns@, "event_type"@, "character varying"@, Some(1024)));
    assert(column_conforms(columns@, demanded[7]) <==> has_optional(columns@, "subject"@, "character varying"@, Some(2048)));
    assert(column_conforms(columns@, demanded[8]) <==> has_optional(columns@, "occurred_at"@, "timestamp with time zone"@, None));
    assert(column_conforms(columns@, demanded[9]) <==> has_optional(columns@, "datacontenttype"@, "character varying"@, Some(255)));
    assert(column_conforms(columns@, demanded[10]) <==> has_optional(columns@, "dataschema"@, "character varying"@, Some(2048)));
    assert(column_conforms(columns@, demanded[11]) <==> has_optional(columns@, "partitionkey"@, "character varying"@, Some(255)));
    assert(column_conforms(columns@, demanded[12]) <==> has_defaulted(columns@, "extensions"@, "text"@, "'{}'::text"@));
    assert(column_conforms(columns@, demanded[13]) <==> has_optional(columns@, "data_kind"@, "character varying"@, Some(6)));
    assert(column_conforms(columns@, demanded[14]) <==> has_optional(columns@, "data"@, "bytea"@, None));
    assert(column_conforms(columns@, demanded[15]) <==> has_defaulted(columns@, "enqueued_at"@, "timestamp with time zone"@, "current_timestamp"@));
    if columns_conform(columns@, demanded) {
        assert forall|i: int| 0 <= i < columns@.len() implies names_event_column(
            (#[trigger] columns@[i]).column_name@,
        ) by {
            assert(is_demanded(columns@[i].column_name@, demanded));
        }
    }
    if has_event_columns(columns@) {
        assert forall|i: int| 0 <= i < demanded.len() implies column_conforms(
            columns@,
            #[trigger] demanded[i],
        ) by {}
    }
}

/// Whether a catalog has every column of `dovecote_deliveries`.
pub open spec fn has_delivery_columns(columns: Seq<ColumnInfo>) -> bool {
    &&& has_required(columns, "event_row_id"@, "bigint"@, None)
    &&& has_required(columns, "tenant_id"@, "character varying"@, Some(255))
    &&& has_required(columns, "state"@, "character varying"@, Some(12))
    &&& has_defaulted(columns, "available_at"@, "timestamp with time zone"@, "current_timestamp"@)
    &&& has_defaulted(columns, "attempts"@, "bigint"@, "0"@)
    &&& has_optional(columns, "claim_token"@, "bytea"@, None)
    &&& has_optional(columns, "claimed_by"@, "character varying"@, Some(255))
    &&& has_optional(columns, "claim_expires_at"@, "timestamp with time zone"@, None)
    &&& has_optional(columns, "last_failure_code"@, "character varying"@, Some(128))
    &&& has_optional(columns, "last_failure_detail"@, "character varying"@, Some(2048))
    &&& has_optional(columns, "delivered_at"@, "timestamp with time zone"@, None)
    &&& has_optional(columns, "quarantined_at"@, "timestamp with time zone"@, None)
    &&& has_optional(columns, "quarantine_reason"@, "character varying"@, Some(2048))
}

/// Whether a name is that of a column of `dovecote_deliveries`.
pub open spec fn names_delivery_column(name: Seq<char>) -> bool {
    ||| name == "event_row_id"@
    ||| name == "tenant_id"@
    ||| name == "state"@
    ||| name == "available_at"@
    ||| name == "attempts"@
    ||| name == "claim_token"@
    ||| name == "claimed_by"@
    ||| name == "claim_expires_at"@
    ||| name == "last_failure_code"@
    ||| name == "last_failure_detail"@
    ||| name == "delivered_at"@
    ||| name == "quarantined_at"@
    ||| name == "quarantine_reason"@
}

/// The columns of `dovecote_deliveries` are accepted exactly if the catalog shows these and
/// no others.
pub proof fn accepted_delivery_columns(
    columns: Vec<ColumnInfo>,
    result: Result<SchemaCheck, SchemaError>,
)
    requires
        call_ensures(
            SchemaCheck::advance,
            (SchemaCheck::DeliveryColumns, CatalogReply::Columns(Ok(columns))),
            result,
        ),
    ensures
        result is Ok <==> has_delivery_columns(columns@) && forall|i: int|
            0 <= i < columns@.len() ==> names_delivery_column((#[trigger] columns@[i]).column_name@),
{
    let demanded = demanded_delivery_columns();
    assert(demanded.len() == 13);
    assert(result is Ok <==> columns_conform(columns@, demanded));
    assert forall|name: Seq<char>| #[trigger] is_demanded(name, demanded) <==> names_delivery_column(
        name,
    ) by {
        assert(demanded[0].name@ == "event_row_id"@);
        assert(demanded[1].name@ == "tenant_id"@);
        assert(demanded[2].name@ == "state"@);
        assert(demanded[3].name@ == "available_at"@);
        assert(demanded[4].name@ == "attempts"@);
        assert(demanded[5].name@ == "claim_token"@);
        assert(demanded[6].name@ == "claimed_by"@);
        assert(demanded[7].name@ == "claim_expires_at"@);
        assert(demanded[8].name@ == "last_failure_code"@);
        assert(demanded[9].name@ == "last_failure_detail"@);
        assert(demanded[10].name@ == "delivered_at"@);
        assert(demanded[11].name@ == "quarantined_at"@);
        assert(demanded[12].name@ == "quarantine_reason"@);
    }
    assert(column_conforms(columns@, demanded[0]) <==> has_required(columns@, "event_row_id"@, "bigint"@, None));
    assert(column_conforms(columns@, demanded[1]) <==> has_required(columns@, "tenant_id"@, "character varying"@, Some(255)));
    assert(column_conforms(columns@, demanded[2]) <==> has_required(columns@, "state"@, "character varying"@, Some(12)));
    assert(column_conforms(columns@, demanded[3]) <==> has_defaulted(columns@, "available_at"@, "timestamp with time zone"@, "current_timestamp"@));
    assert(column_conforms(columns@, demanded[4]) <==> has_defaulted(columns@, "attempts"@, "bigint"@, "0"@));
    assert(column_conforms(columns@, demanded[5]) <==> has_optional(columns@, "claim_token"@, "bytea"@, None));
    assert(column_conforms(columns@, demanded[6]) <==> has_optional(columns@, "claimed_by"@, "character varying"@, Some(255)));
    assert(column_conforms(columns@, demanded[7]) <==> has_optional(columns@, "claim_expires_at"@, "timestamp with time zone"@, None));
    assert(column_conforms(columns@, demanded[8]) <==> has_optional(columns@, "last_failure_code"@, "character varying"@, Some(128)));
    assert(column_conforms(columns@, demanded[9]) <==> has_optional(columns@, "last_failure_detail"@, "character varying"@, Some(2048)));
    assert(column_conforms(columns@, demanded[10]) <==> has_optional(columns@, "delivered_at"@, "timestamp with time zone"@, None));
    assert(column_conforms(columns@, demanded[11]) <==> has_optional(columns@, "quarantined_at"@, "timestamp with time zone"@, None));
    assert(column_conforms(columns@, demanded[12]) <==> has_optional(columns@, "quarantine_reason"@, "character varying"@, Some(2048)));
    if columns_conform(columns@, demanded) {
        assert forall|i: int| 0 <= i < columns@.len() implies names_delivery_column(
            (#[trigger] columns@[i]).column_name@,
        ) by {
            assert(is_demanded(columns@[i].column_name@, demanded));
        }
    }
    if has_delivery_columns(columns@) {
        assert forall|i: int| 0 <= i < demanded.len() implies column_conforms(
            columns@,
            #[trigger] demanded[i],
        ) by {}
    }
}

/// Whether a constraint holds at once for every row: it is validated and cannot be
/// deferred.
pub open spec fn is_enforced(constraint: ConstraintInfo) -> bool {
    constraint.validated && !constraint.deferrable && !constraint.deferred
}

/// Whether a constraint refers to no other table.
pub open spec fn is_local(constraint: ConstraintInfo) -> bool {
    &&& constraint.referenced_table is None
    &&& constraint.referenced_columns@.len() == 0
    &&& constraint.delete_action is None
}

/// Whether a catalog has an enforced check of this name and definition on a table.
pub open spec fn has_check(
    list: Seq<ConstraintInfo>,
    name: Seq<char>,
    table: Seq<char>,
    definition: Seq<char>,
) -> bool {
    exists|at: int|
        {
            &&& #[trigger] first_constraint(list, name, at)
            &&& list[at].table_name@ == table
            &&& list[at].kind@ == "c"@
            &&& is_local(list[at])
            &&& is_enforced(list[at])
            &&& normalized(list[at].definition@) == normalized(definition)
        }
}

/// Whether a catalog has an enforced key of this name, kind and definition over
/// columns of a table.
pub open spec fn has_key(
    list: Seq<ConstraintInfo>,
    name: Seq<char>,
    table: Seq<char>,
    kind: Seq<char>,
    columns: Seq<Seq<char>>,
    definition: Seq<char>,
) -> bool {
    exists|at: int|
        {
            &&& #[trigger] first_constraint(list, name, at)
            &&& list[at].table_name@ == table
            &&& list[at].kind@ == kind
            &&& texts(list[at].columns@) == columns
            &&& is_local(list[at])
            &&& is_enforced(list[at])
            &&& normalized(list[at].definition@) == normalized(definition)
        }
}

/// Whether a catalog has the enforced foreign key from deliveries to the events of
/// the same tenant, which keeps an event that has a delivery.
pub open spec fn has_event_key(list: Seq<ConstraintInfo>) -> bool {
    exists|at: int|
        {
            &&& #[trigger] first_constraint(list, "dovecote_deliveries_event_fk"@, at)
            &&& list[at].table_name@ == "dovecote_deliveries"@
            &&& list[at].kind@ == "f"@
            &&& texts(list[at].columns@) == seq!["tenant_id"@, "event_row_id"@]
            &&& list[at].referenced_table is Some
            &&& list[at].referenced_table->0@ == "dovecote_events"@
            &&& texts(list[at].referenced_columns@) == seq!["tenant_id"@, "row_id"@]
            &&& list[at].delete_action is Some
            &&& list[at].delete_action->0@ == "r"@
            &&& is_enforced(list[at])
            &&& normalized(list[at].definition@) == normalized(
                "FOREIGN KEY (tenant_id, event_row_id) REFERENCES dovecote_events (tenant_id, row_id) ON DELETE RESTRICT"@,
            )
        }
}

/// Whether a catalog has every constraint of `dovecote_schema`.
pub open spec fn has_schema_constraints(list: Seq<ConstraintInfo>) -> bool {
    &&& has_check(
        list,
        "dovecote_schema_version_supported"@,
        "dovecote_schema"@,
        "CHECK ((schema_version = 2))"@,
    )
    &&& has_check(
        list,
        "dovecote_schema_minimum_nonnegative"@,
        "dovecote_schema"@,
        "CHECK (((minimum_crate_major >= 0) AND (minimum_crate_minor >= 0) AND (minimum_crate_patch >= 0)))"@,
    )
    &&& has_key(
        list,
        "dovecote_schema_pkey"@,
        "dovecote_schema"@,
        "p"@,
        seq!["schema_version"@],
        "PRIMARY KEY (schema_version)"@,
    )
}

/// Whether a name is that of a constraint of `dovecote_schema`.
pub open spec fn names_schema_constraint(name: Seq<char>) -> bool {
    ||| name == "dovecote_schema_version_supported"@
    ||| name == "dovecote_schema_minimum_nonnegative"@
    ||| name == "dovecote_schema_pkey"@
}

#[verifier::rlimit(60)]
proof fn lemma_schema_constraints(list: Seq<ConstraintInfo>)
    ensures
        has_schema_constraints(list) <==> (forall|k: int|
            0 <= k < 3 ==> #[trigger] constraint_conforms(list, k)),
        forall|name: Seq<char>| #[trigger]
            names_schema_constraint(name) <==> exists|k: int|
                0 <= k < 3 && (#[trigger] demanded_constraints()[k]).name == name,
{
    let demanded = demanded_constraints();
    lemma_check(list, 0);
    lemma_check(list, 1);
    lemma_key(list, 2);
    assert forall|name: Seq<char>| #[trigger]
        names_schema_constraint(name) <==> exists|k: int|
            0 <= k < 3 && (#[trigger] demanded[k]).name == name by {
        assert(demanded[0].name == "dovecote_schema_version_supported"@);
        assert(demanded[1].name == "dovecote_schema_minimum_nonnegative"@);
        assert(demanded[2].name == "dovecote_schema_pkey"@);
    }
}

/// Whether a catalog has every constraint of `dovecote_events`.
pub open spec fn has_events_constraints(list: Seq<ConstraintInfo>) -> bool {
    &&& has_check(
        list,
        "dovecote_events_row_id_positive"@,
        "dovecote_events"@,
        "CHECK ((row_id > 0))"@,
    )
    &&& has_check(
        list,
        "dovecote_events_tenant_size"@,
        "dovecote_events"@,
        "CHECK ((octet_length((tenant_id)) <= 255))"@,
    )
    &&& has_check(
        list,
        "dovecote_events_tenant_nonempty"@,
        "dovecote_events"@,
        "CHECK ((octet_length((tenant_id)) > 0))"@,
    )
    &&& has_key(
        list,
        "dovecote_events_pkey"@,
        "dovecote_events"@,
        "p"@,
        seq!["row_id"@],
        "PRIMARY KEY (row_id)"@,
    )
    &&& has_key(
        list,
        "dovecote_events_tenant_row_unique"@,
        "dovecote_events"@,
        "u"@,
        seq!["tenant_id"@, "row_id"@],
        "UNIQUE (tenant_id, row_id)"@,
    )
    &&& has_check(
        list,
        "dovecote_events_specversion"@,
        "dovecote_events"@,
        "CHECK (((specversion) = '1.0'))"@,
    )
    &&& has_check(
        list,
        "dovecote_events_stream_size"@,
        "dovecote_events"@,
        "CHECK ((octet_length((stream)) <= 255))"@,
    )
    &&& has_check(
        list,
        "dovecote_events_event_id_size"@,
        "dovecote_events"@,
        "CHECK ((octet_length((event_id)) <= 1024))"@,
    )
    &&& has_check(
        list,
        "dovecote_events_source_size"@,
        "dovecote_events"@,
        "CHECK ((octet_length((source)) <= 2048))"@,
    )
    &&& has_check(
        list,
        "dovecote_events_event_type_size"@,
        "dovecote_events"@,
        "CHECK ((octet_length((event_type)) <= 1024))"@,
    )
    &&& has_check(
        list,
        "dovecote_events_subject_size"@,
        "dovecote_events"@,
        "CHECK (((subject IS NULL) OR (octet_length((subject)) <= 2048)))"@,
    )
    &&& has_check(
        list,
        "dovecote_events_content_type_size"@,
        "dovecote_events"@,
        "CHECK (((datacontenttype IS NULL) OR (octet_length((datacontenttype)) <= 255)))"@,
    )
    &&& has_check(
        list,
        "dovecote_events_schema_size"@,
        "dovecote_events"@,
        "CHECK (((dataschema IS NULL) OR (octet_length((dataschema)) <= 2048)))"@,
    )
    &&& has_check(
        list,
        "dovecote_events_partition_size"@,
        "dovecote_events"@,
        "CHECK (((partitionkey IS NULL) OR (octet_length((partitionkey)) <= 255)))"@,
    )
    &&& has_check(
        list,
        "dovecote_events_identity_size"@,
        "dovecote_events"@,
        "CHECK (((octet_length((source)) + octet_length((event_id))) <= 2048))"@,
    )
    &&& has_check(
        list,
        "dovecote_events_data_kind"@,
        "dovecote_events"@,
        "CHECK (((data_kind IS NULL) OR ((data_kind) = ANY ((ARRAY['json', 'binary'])))))"@,
    )
    &&& has_check(
        list,
        "dovecote_events_data_pair"@,
        "dovecote_events"@,
        "CHECK (((data_kind IS NULL) = (data IS NULL)))"@,
    )
    &&& has_check(
        list,
        "dovecote_events_content_type"@,
        "dovecote_events"@,
        "CHECK (((data IS NULL) OR (octet_length(data) = 0) OR (datacontenttype IS NOT NULL)))"@,
    )
}

/// Whether a name is that of a constraint of `dovecote_events`.
pub open spec fn names_events_constraint(name: Seq<char>) -> bool {
    ||| name == "dovecote_events_row_id_positive"@
    ||| name == "dovecote_events_tenant_size"@
    ||| name == "dovecote_events_tenant_nonempty"@
    ||| name == "dovecote_events_pkey"@
    ||| name == "dovecote_events_tenant_row_unique"@
    ||| name == "dovecote_events_specversion"@
    ||| name == "dovecote_events_stream_size"@
    ||| name == "dovecote_events_event_id_size"@
    ||| name == "dovecote_events_source_size"@
    ||| name == "dovecote_events_event_type_size"@
    ||| name == "dovecote_events_subject_size"@
    ||| name == "dovecote_events_content_type_size"@
    ||| name == "dovecote_events_schema_size"@
    ||| name == "dovecote_events_partition_size"@
    ||| name == "dovecote_events_identity_size"@
    ||| name == "dovecote_events_data_kind"@
    ||| name == "dovecote_events_data_pair"@
    ||| name == "dovecote_events_content_type"@
}

#[verifier::rlimit(60)]
proof fn lemma_events_constraints(list: Seq<ConstraintInfo>)
    ensures
        has_events_constraints(list) <==> (forall|k: int|
            3 <= k < 21 ==> #[trigger] constraint_conforms(list, k)),
        forall|name: Seq<char>| #[trigger]
            names_events_constraint(name) <==> exists|k: int|
                3 <= k < 21 && (#[trigger] demanded_constraints()[k]).name == name,
{
    let demanded = demanded_constraints();
    lemma_check(list, 3);
    lemma_check(list, 4);
    lemma_check(list, 5);
    lemma_key(list, 6);
    lemma_key(list, 7);
    lemma_check(list, 8);
    lemma_check(list, 9);
    lemma_check(list, 10);
    lemma_check(list, 11);
    lemma_check(list, 12);
    lemma_check(list, 13);
    lemma_check(list, 14);
    lemma_check(list, 15);
    lemma_check(list, 16);
    lemma_check(list, 17);
    lemma_check(list, 18);
    lemma_check(list, 19);
    lemma_check(list, 20);
    assert forall|name: Seq<char>| #[trigger]
        names_events_constraint(name) <==> exists|k: int|
            3 <= k < 21 && (#[trigger] demanded[k]).name == name by {
        assert(demanded[3].name == "dovecote_events_row_id_positive"@);
        assert(demanded[4].name == "dovecote_events_tenant_size"@);
        assert(demanded[5].name == "dovecote_events_tenant_nonempty"@);
        assert(demanded[6].name == "dovecote_events_pkey"@);
        assert(demanded[7].name == "dovecote_events_tenant_row_unique"@);
        assert(demanded[8].name == "dovecote_events_specversion"@);
        assert(demanded[9].name == "dovecote_events_stream_size"@);
        assert(demanded[10].name == "dovecote_events_event_id_size"@);
        assert(demanded[11].name == "dovecote_events_source_size"@);
        assert(demanded[12].name == "dovecote_events_event_type_size"@);
        assert(demanded[13].name == "dovecote_events_subject_size"@);
        assert(demanded[14].name == "dovecote_events_content_type_size"@);
        assert(demanded[15].name == "dovecote_events_schema_size"@);
        assert(demanded[16].name == "dovecote_events_partition_size"@);
        assert(demanded[17].name == "dovecote_events_identity_size"@);
        assert(demanded[18].name == "dovecote_events_data_kind"@);
        assert(demanded[19].name == "dovecote_events_data_pair"@);
        assert(demanded[20].name == "dovecote_events_content_type"@);
    }
}

/// Whether a catalog has every constraint of `dovecote_deliveries`.
pub open spec fn has_deliveries_constraints(list: Seq<ConstraintInfo>) -> bool {
    &&& has_check(
        list,
        "dovecote_deliveries_state"@,
        "dovecote_deliveries"@,
        "CHECK (((state) = ANY ((ARRAY['pending', 'claimed', 'delivered', 'quarantined']))))"@,
    )
    &&& has_check(
        list,
        "dovecote_deliveries_tenant_size"@,
        "dovecote_deliveries"@,
        "CHECK ((octet_length((tenant_id)) <= 255))"@,
    )
    &&& has_check(
        list,
        "dovecote_deliveries_tenant_nonempty"@,
        "dovecote_deliveries"@,
        "CHECK ((octet_length((tenant_id)) > 0))"@,
    )
    &&& has_key(
        list,
        "dovecote_deliveries_pkey"@,
        "dovecote_deliveries"@,
        "p"@,
        seq!["event_row_id"@],
        "PRIMARY KEY (event_row_id)"@,
    )
    &&& has_check(
        list,
        "dovecote_deliveries_attempts"@,
        "dovecote_deliveries"@,
        "CHECK ((attempts >= 0))"@,
    )
    &&& has_check(
        list,
        "dovecote_deliveries_token_size"@,
        "dovecote_deliveries"@,
        "CHECK (((claim_token IS NULL) OR (octet_length(claim_token) = 16)))"@,
    )
    &&& has_check(
        list,
        "dovecote_deliveries_worker_size"@,
        "dovecote_deliveries"@,
        "CHECK (((claimed_by IS NULL) OR (octet_length((claimed_by)) <= 255)))"@,
    )
    &&& has_check(
        list,
        "dovecote_deliveries_failure_code_size"@,
        "dovecote_deliveries"@,
        "CHECK (((last_failure_code IS NULL) OR (octet_length((last_failure_code)) <= 128)))"@,
    )
    &&& has_check(
        list,
        "dovecote_deliveries_failure_detail_size"@,
        "dovecote_deliveries"@,
        "CHECK (((last_failure_detail IS NULL) OR (octet_length((last_failure_detail)) <= 2048)))"@,
    )
    &&& has_check(
        list,
        "dovecote_deliveries_quarantine_size"@,
        "dovecote_deliveries"@,
        "CHECK (((quarantine_reason IS NULL) OR (octet_length((quarantine_reason)) <= 2048)))"@,
    )
    &&& has_check(
        list,
        "dovecote_deliveries_failure_pair"@,
        "dovecote_deliveries"@,
        "CHECK (((last_failure_code IS NULL) = (last_failure_detail IS NULL)))"@,
    )
    &&& has_check(
        list,
        "dovecote_deliveries_state_shape"@,
        "dovecote_deliveries"@,
        "CHECK (((((state) = 'pending') AND (claim_token IS NULL) AND (claimed_by IS NULL) AND (claim_expires_at IS NULL) AND (delivered_at IS NULL) AND (quarantined_at IS NULL) AND (quarantine_reason IS NULL)) OR (((state) = 'claimed') AND (claim_token IS NOT NULL) AND (claimed_by IS NOT NULL) AND (claim_expires_at IS NOT NULL) AND (delivered_at IS NULL) AND (quarantined_at IS NULL) AND (quarantine_reason IS NULL)) OR (((state) = 'delivered') AND (claim_token IS NULL) AND (claimed_by IS NULL) AND (claim_expires_at IS NULL) AND (delivered_at IS NOT NULL) AND (quarantined_at IS NULL) AND (quarantine_reason IS NULL)) OR (((state) = 'quarantined') AND (claim_token IS NULL) AND (claimed_by IS NULL) AND (claim_expires_at IS NULL) AND (delivered_at IS NULL) AND (quarantined_at IS NOT NULL) AND (quarantine_reason IS NOT NULL))))"@,
    )
    &&& has_event_key(list)
}

/// Whether a name is that of a constraint of `dovecote_deliveries`.
pub open spec fn names_deliveries_constraint(name: Seq<char>) -> bool {
    ||| name == "dovecote_deliveries_state"@
    ||| name == "dovecote_deliveries_tenant_size"@
    ||| name == "dovecote_deliveries_tenant_nonempty"@
    ||| name == "dovecote_deliveries_pkey"@
    ||| name == "dovecote_deliveries_attempts"@
    ||| name == "dovecote_deliveries_token_size"@
    ||| name == "dovecote_deliveries_worker_size"@
    ||| name == "dovecote_deliveries_failure_code_size"@
    ||| name == "dovecote_deliveries_failure_detail_size"@
    ||| name == "dovecote_deliveries_quarantine_size"@
    ||| name == "dovecote_deliveries_failure_pair"@
    ||| name == "dovecote_deliveries_state_shape"@
    ||| name == "dovecote_deliveries_event_fk"@
}

#[verifier::rlimit(60)]
proof fn lemma_deliveries_constraints(list: Seq<ConstraintInfo>)
    ensures
        has_deliveries_constraints(list) <==> (forall|k: int|
            21 <= k < 34 ==> #[trigger] constraint_conforms(list, k)),
        forall|name: Seq<char>| #[trigger]
            names_deliveries_constraint(name) <==> exists|k: int|
                21 <= k < 34 && (#[trigger] demanded_constraints()[k]).name == name,
{
    let demanded = demanded_constraints();
    lemma_check(list, 21);
    lemma_check(list, 22);
    lemma_check(list, 23);
    lemma_key(list, 24);
    lemma_check(list, 25);
    lemma_check(list, 26);
    lemma_check(list, 27);
    lemma_check(list, 28);
    lemma_check(list, 29);
    lemma_check(list, 30);
    lemma_check(list, 31);
    lemma_check(list, 32);
    lemma_event_key(list, 33);
    assert forall|name: Seq<char>| #[trigger]
        names_deliveries_constraint(name) <==> exists|k: int|
            21 <= k < 34 && (#[trigger] demanded[k]).name == name by {
        assert(demanded[21].name == "dovecote_deliveries_state"@);
        assert(demanded[22].name == "dovecote_deliveries_tenant_size"@);
        assert(demanded[23].name == "dovecote_deliveries_tenant_nonempty"@);
        assert(demanded[24].name == "dovecote_deliveries_pkey"@);
        assert(demanded[25].name == "dovecote_deliveries_attempts"@);
        assert(demanded[26].name == "dovecote_deliveries_token_size"@);
        assert(demanded[27].name == "dovecote_deliveries_worker_size"@);
        assert(demanded[28].name == "dovecote_deliveries_failure_code_size"@);
        assert(demanded[29].name == "dovecote_deliveries_failure_detail_size"@);
        assert(demanded[30].name == "dovecote_deliveries_quarantine_size"@);
        assert(demanded[31].name == "dovecote_deliveries_failure_pair"@);
        assert(demanded[32].name == "dovecote_deliveries_state_shape"@);
        assert(demanded[33].name == "dovecote_deliveries_event_fk"@);
    }
}

proof fn lemma_check(list: Seq<ConstraintInfo>, k: int)
    requires
        0 <= k < demanded_constraints().len(),
        demanded_constraints()[k] == checked(
            demanded_constraints()[k].name,
            demanded_constraints()[k].table_name,
            demanded_constraints()[k].definitions[0],
        ),
    ensures
        constraint_conforms(list, k) <==> has_check(
            list,
            demanded_constraints()[k].name,
            demanded_constraints()[k].table_name,
            demanded_constraints()[k].definitions[0],
        ),
{
    let expected = demanded_constraints()[k];
    assert forall|at: int| #[trigger] first_constraint(list, expected.name, at) implies (
    constraint_matches(list[at], expected) <==> {
        &&& list[at].table_name@ == expected.table_name
        &&& list[at].kind@ == "c"@
        &&& is_local(list[at])
        &&& is_enforced(list[at])
        &&& normalized(list[at].definition@) == normalized(expected.definitions[0])
    }) by {
        assert(texts(list[at].referenced_columns@) == Seq::<Seq<char>>::empty()
            <==> list[at].referenced_columns@.len() == 0) by {
            assert(texts(list[at].referenced_columns@).len() == list[at].referenced_columns@.len());
            if list[at].referenced_columns@.len() == 0 {
                assert(texts(list[at].referenced_columns@) =~= Seq::<Seq<char>>::empty());
            }
        }
    }
}

proof fn lemma_key(list: Seq<ConstraintInfo>, k: int)
    requires
        0 <= k < demanded_constraints().len(),
        demanded_constraints()[k] == keyed(
            demanded_constraints()[k].kind,
            demanded_constraints()[k].name,
            demanded_constraints()[k].table_name,
            demanded_constraints()[k].columns,
            demanded_constraints()[k].definitions[0],
        ),
        demanded_constraints()[k].kind == "p"@ || demanded_constraints()[k].kind == "u"@,
    ensures
        constraint_conforms(list, k) <==> has_key(
            list,
            demanded_constraints()[k].name,
            demanded_constraints()[k].table_name,
            demanded_constraints()[k].kind,
            demanded_constraints()[k].columns,
            demanded_constraints()[k].definitions[0],
        ),
{
    let expected = demanded_constraints()[k];
    lemma_kinds_differ();
    assert forall|at: int| #[trigger] first_constraint(list, expected.name, at) implies (
    constraint_matches(list[at], expected) <==> {
        &&& list[at].table_name@ == expected.table_name
        &&& list[at].kind@ == expected.kind
        &&& texts(list[at].columns@) == expected.columns
        &&& is_local(list[at])
        &&& is_enforced(list[at])
        &&& normalized(list[at].definition@) == normalized(expected.definitions[0])
    }) by {
        assert(texts(list[at].referenced_columns@) == Seq::<Seq<char>>::empty()
            <==> list[at].referenced_columns@.len() == 0) by {
            assert(texts(list[at].referenced_columns@).len() == list[at].referenced_columns@.len());
            if list[at].referenced_columns@.len() == 0 {
                assert(texts(list[at].referenced_columns@) =~= Seq::<Seq<char>>::empty());
            }
        }
    }
}

proof fn lemma_kinds_differ()
    ensures
        "c"@ != "p"@,
        "c"@ != "u"@,
        "c"@ != "f"@,
{
    reveal_strlit("c");
    reveal_strlit("p");
    reveal_strlit("u");
    reveal_strlit("f");
    assert("c"@[0] == 'c' && "p"@[0] == 'p' && "u"@[0] == 'u' && "f"@[0] == 'f');
}

proof fn lemma_event_key(list: Seq<ConstraintInfo>, k: int)
    requires
        k == 33,
    ensures
        constraint_conforms(list, k) <==> has_event_key(list),
{
    let expected = demanded_constraints()[k];
    lemma_kinds_differ();
    assert(expected.name == "dovecote_deliveries_event_fk"@);
    let definition = "FOREIGN KEY (tenant_id, event_row_id) REFERENCES dovecote_events (tenant_id, row_id) ON DELETE RESTRICT"@;
    assert(expected.definitions.len() == 1 && expected.definitions[0] == definition);
    assert forall|at: int| #[trigger] first_constraint(list, expected.name, at) implies (
    constraint_matches(list[at], expected) <==> {
        &&& list[at].table_name@ == "dovecote_deliveries"@
        &&& list[at].kind@ == "f"@
        &&& texts(list[at].columns@) == seq!["tenant_id"@, "event_row_id"@]
        &&& list[at].referenced_table is Some
        &&& list[at].referenced_table->0@ == "dovecote_events"@
        &&& texts(list[at].referenced_columns@) == seq!["tenant_id"@, "row_id"@]
        &&& list[at].delete_action is Some
        &&& list[at].delete_action->0@ == "r"@
        &&& is_enforced(list[at])
        &&& normalized(list[at].definition@) == normalized(definition)
    }) by {
        assert(defined_as(expected.definitions, list[at].definition@) <==> normalized(
            list[at].definition@,
        ) == normalized(definition));
    }
}

/// The constraints are accepted exactly if the catalog shows those of the three
/// tables and no others.
pub proof fn accepted_constraints(
    list: Vec<ConstraintInfo>,
    result: Result<SchemaCheck, SchemaError>,
)
    requires
        call_ensures(
            SchemaCheck::advance,
            (SchemaCheck::Constraints, CatalogReply::Constraints(Ok(list))),
            result,
        ),
    ensures
        result is Ok <==> {
            &&& has_schema_constraints(list@)
            &&& has_events_constraints(list@)
            &&& has_deliveries_constraints(list@)
            &&& forall|i: int|
                0 <= i < list@.len() ==> names_schema_constraint((#[trigger] list@[i]).name@)
                    || names_events_constraint(list@[i].name@) || names_deliveries_constraint(
                    list@[i].name@,
                )
        },
{
    lemma_schema_constraints(list@);
    lemma_events_constraints(list@);
    lemma_deliveries_constraints(list@);
    assert(result is Ok <==> constraints_conform(list@));
    assert(demanded_constraints().len() == 34);
    assert forall|name: Seq<char>| #[trigger] is_demanded_constraint(name) <==> (
    names_schema_constraint(name) || names_events_constraint(name) || names_deliveries_constraint(
        name,
    )) by {}
    if constraints_conform(list@) {
        assert forall|i: int| 0 <= i < list@.len() implies names_schema_constraint(
            (#[trigger] list@[i]).name@,
        ) || names_events_constraint(list@[i].name@) || names_deliveries_constraint(
            list@[i].name@,
        ) by {
            assert(is_demanded_constraint(list@[i].name@));
        }
    }
}

/// Whether a catalog has a plain B-tree of this name over columns of a table, all
/// of its rows and in ascending order.
pub open spec fn has_index(
    list: Seq<IndexInfo>,
    name: Seq<char>,
    table: Seq<char>,
    unique: bool,
    columns: Seq<Seq<char>>,
    collations: Seq<Seq<char>>,
) -> bool {
    exists|at: int|
        {
            &&& #[trigger] first_index(list, name, at)
            &&& list[at].table_name@ == table
            &&& list[at].access_method@ == "btree"@
            &&& list[at].is_unique == unique
            &&& list[at].is_valid && list[at].is_ready && !list[at].has_predicate
            &&& list[at].key_columns == columns.len() && list[at].total_columns == columns.len()
            &&& list[at].options@.len() == columns.len()
            &&& forall|i: int|
                0 <= i < list[at].options@.len() ==> #[trigger] list[at].options@[i] == 0
            &&& texts(list[at].columns@) == columns
            &&& texts(list[at].collations@) == collations
        }
}

/// The indexes are accepted exactly if the catalog shows these and no others: one
/// event per tenant, source and identifier, and the two orders in which claims look
/// for rows.
pub proof fn accepted_indexes(list: Vec<IndexInfo>, result: Result<SchemaCheck, SchemaError>)
    requires
        call_ensures(
            SchemaCheck::advance,
            (SchemaCheck::Indexes, CatalogReply::Indexes(Ok(list))),
            result,
        ),
    ensures
        result is Ok <==> {
            &&& has_index(
                list@,
                "dovecote_events_tenant_source_event_id"@,
                "dovecote_events"@,
                true,
                seq!["tenant_id"@, "source"@, "event_id"@],
                seq!["C"@, "C"@, "C"@],
            )
            &&& has_index(
                list@,
                "dovecote_deliveries_claimable"@,
                "dovecote_deliveries"@,
                false,
                seq!["tenant_id"@, "state"@, "available_at"@, "event_row_id"@],
                seq!["C"@, "default"@, "default"@, "default"@],
            )
            &&& has_index(
                list@,
                "dovecote_deliveries_expired_claims"@,
                "dovecote_deliveries"@,
                false,
                seq!["tenant_id"@, "state"@, "claim_expires_at"@, "event_row_id"@],
                seq!["C"@, "default"@, "default"@, "default"@],
            )
            &&& forall|i: int|
                0 <= i < list@.len() ==> {
                    ||| (#[trigger] list@[i]).name@ == "dovecote_events_tenant_source_event_id"@
                    ||| list@[i].name@ == "dovecote_deliveries_claimable"@
                    ||| list@[i].name@ == "dovecote_deliveries_expired_claims"@
                }
        },
{
    let demanded = demanded_indexes();
    assert(result is Ok <==> indexes_conform(list@));
    assert(demanded.len() == 3);
    assert(demanded[0].name == "dovecote_events_tenant_source_event_id"@);
    assert(demanded[1].name == "dovecote_deliveries_claimable"@);
    assert(demanded[2].name == "dovecote_deliveries_expired_claims"@);
    assert(index_conforms(list@, 0) <==> has_index(
        list@,
        "dovecote_events_tenant_source_event_id"@,
        "dovecote_events"@,
        true,
        seq!["tenant_id"@, "source"@, "event_id"@],
        seq!["C"@, "C"@, "C"@],
    ));
    assert(index_conforms(list@, 1) <==> has_index(
        list@,
        "dovecote_deliveries_claimable"@,
        "dovecote_deliveries"@,
        false,
        seq!["tenant_id"@, "state"@, "available_at"@, "event_row_id"@],
        seq!["C"@, "default"@, "default"@, "default"@],
    ));
    assert(index_conforms(list@, 2) <==> has_index(
        list@,
        "dovecote_deliveries_expired_claims"@,
        "dovecote_deliveries"@,
        false,
        seq!["tenant_id"@, "state"@, "claim_expires_at"@, "event_row_id"@],
        seq!["C"@, "default"@, "default"@, "default"@],
    ));
    assert forall|name: Seq<char>| #[trigger] is_demanded_index(name) <==> {
        ||| name == "dovecote_events_tenant_source_event_id"@
        ||| name == "dovecote_deliveries_claimable"@
        ||| name == "dovecote_deliveries_expired_claims"@
    } by {}
    if indexes_conform(list@) {
        assert forall|i: int| 0 <= i < list@.len() implies {
            ||| (#[trigger] list@[i]).name@ == "dovecote_events_tenant_source_event_id"@
            ||| list@[i].name@ == "dovecote_deliveries_claimable"@
            ||| list@[i].name@ == "dovecote_deliveries_expired_claims"@
        } by {
            assert(is_demanded_index(list@[i].name@));
        }
    }
}

/// The check asks for the columns of the marker table, the markers, the columns of
/// the event and of the delivery table, the constraints and the indexes, in this
/// order, and is done with the last. It stops at the first query that fails.
pub proof fn the_check_asks_in_order(
    step: SchemaCheck,
    reply: CatalogReply,
    result: Result<SchemaCheck, SchemaError>,
    table: Option<&'static str>,
)
    requires
        step.awaits(reply),
        call_ensures(SchemaCheck::advance, (step, reply), result),
        call_ensures(SchemaCheck::table, (step,), table),
    ensures
        result matches Ok(next) ==> {
            &&& step is MarkerColumns ==> next is Markers
            &&& step is Markers ==> next is EventColumns
            &&& step is EventColumns ==> next is DeliveryColumns
            &&& step is DeliveryColumns ==> next is Constraints
            &&& step is Constraints ==> next is Indexes
            &&& step is Indexes ==> next is Accepted
        },
        reply matches CatalogReply::Columns(Err(_)) ==> result is Err,
        reply matches CatalogReply::Markers(Err(_)) ==> result is Err,
        reply matches CatalogReply::Constraints(Err(_)) ==> result is Err,
        reply matches CatalogReply::Indexes(Err(_)) ==> result is Err,
        step is MarkerColumns ==> table is Some && table->0@ == "dovecote_schema"@,
        step is EventColumns ==> table is Some && table->0@ == "dovecote_events"@,
        step is DeliveryColumns ==> table is Some && table->0@ == "dovecote_deliveries"@,
        table is Some <==> step is MarkerColumns || step is EventColumns || step is DeliveryColumns,
{
}

/// The markers are accepted exactly if there is one, of version 2, for crates from
/// version 0.2.0 on and without rolling compatibility.
pub proof fn accepted_markers(
    markers: Vec<SchemaMarker>,
    result: Result<SchemaCheck, SchemaError>,
)
    requires
        call_ensures(
            SchemaCheck::advance,
            (SchemaCheck::Markers, CatalogReply::Markers(Ok(markers))),
            result,
        ),
    ensures
        result is Ok <==> {
            &&& markers@.len() == 1
            &&& markers@[0].schema_version == 2
            &&& markers@[0].minimum_crate_major == 0
            &&& markers@[0].minimum_crate_minor == 2
            &&& markers@[0].minimum_crate_patch == 0
            &&& !markers@[0].rolling_compatible
        },
{
}

/// The check needs the schema that unqualified names resolve to.
pub proof fn the_check_needs_a_namespace(
    reply: Result<Option<NamespaceInfo>, sqlx::Error>,
    result: Result<NamespaceInfo, SchemaError>,
)
    requires
        call_ensures(resolve_namespace, (reply,), result),
    ensures
        reply matches Ok(Some(namespace)) ==> result == Ok::<NamespaceInfo, SchemaError>(namespace),
        reply matches Ok(None) ==> result is Err && result->Err_0 is MigrationMismatch,
        reply is Err ==> result is Err,
{
}

/// A query that failed is reported under its own name, with its own failure.
pub proof fn failed_queries_are_reported_by_name(
    source: sqlx::Error,
    check_columns: Result<SchemaCheck, SchemaError>,
    check_schema_marker: Result<SchemaCheck, SchemaError>,
    check_constraints: Result<SchemaCheck, SchemaError>,
    check_indexes: Result<SchemaCheck, SchemaError>,
)
    requires
        call_ensures(
            SchemaCheck::advance,
            (SchemaCheck::MarkerColumns, CatalogReply::Columns(Err(source))),
            check_columns,
        ),
        call_ensures(
            SchemaCheck::advance,
            (SchemaCheck::Markers, CatalogReply::Markers(Err(source))),
            check_schema_marker,
        ),
        call_ensures(
            SchemaCheck::advance,
            (SchemaCheck::Constraints, CatalogReply::Constraints(Err(source))),
            check_constraints,
        ),
        call_ensures(
            SchemaCheck::advance,
            (SchemaCheck::Indexes, CatalogReply::Indexes(Err(source))),
            check_indexes,
        ),
    ensures
        check_columns == Err::<SchemaCheck, SchemaError>(
            SchemaError::failed("check columns", source),
        ),
        check_schema_marker == Err::<SchemaCheck, SchemaError>(
            SchemaError::failed("check schema marker", source),
        ),
        check_constraints == Err::<SchemaCheck, SchemaError>(
            SchemaError::failed("check constraints", source),
        ),
        check_indexes == Err::<SchemaCheck, SchemaError>(
            SchemaError::failed("check indexes", source),
        ),
{
}

/// A column that nobody demands is refused by its table and name; so is a demanded one
/// that is missing, or that is not as it is demanded.
pub proof fn refused_columns_are_named(
    table: &str,
    columns: Vec<ColumnInfo>,
    demanded: Vec<ColumnSpec>,
    result: Result<(), String>,
)
    requires
        demanded@.len() == 1,
        call_ensures(compare_columns, (table, &columns, &demanded), result),
    ensures
        columns@.len() == 0 ==> (result matches Err(detail) && detail@ == "required column "@
            + table@ + "."@ + demanded@[0].name@ + " is missing"@),
        columns@.len() == 1 && columns@[0].column_name@ != demanded@[0].name@ ==> (
        result matches Err(detail) && detail@ == "unexpected column "@ + table@ + "."@
            + columns@[0].column_name@),
        columns@.len() == 1 && columns@[0].column_name@ == demanded@[0].name@ ==> (
        result matches Err(detail) ==> detail@ == "column "@ + table@ + "."@ + demanded@[0].name@
            + " is incompatible"@),
{
    if columns@.len() == 0 {
        assert(!column_conforms(columns@, demanded@[0]));
    }
    if columns@.len() == 1 && columns@[0].column_name@ == demanded@[0].name@ {
        assert(is_demanded(columns@[0].column_name@, demanded@));
    }
    if columns@.len() == 1 && columns@[0].column_name@ != demanded@[0].name@ {
        assert(!is_demanded(columns@[0].column_name@, demanded@));
    }
}

/// A refused marker count is told. Without a constraint the one of the schema version
/// is missed first, and without an index the one of the event identity. A constraint or
/// an index beside the demanded ones is refused by its name.
pub proof fn refused_objects_are_named(
    markers: Vec<SchemaMarker>,
    marked: Result<SchemaCheck, SchemaError>,
    constraints: Vec<ConstraintInfo>,
    constrained: Result<(), String>,
    indexes: Vec<IndexInfo>,
    indexed: Result<(), String>,
)
    requires
        call_ensures(
            SchemaCheck::advance,
            (SchemaCheck::Markers, CatalogReply::Markers(Ok(markers))),
            marked,
        ),
        call_ensures(compare_constraints, (&constraints,), constrained),
        call_ensures(compare_indexes, (&indexes,), indexed),
    ensures
        markers@.len() != 1 ==> (marked matches Err(SchemaError::MigrationMismatch { detail })
            && detail@ == "expected exactly one schema marker row, found "@ + decimal_text(
            markers@.len(),
        )),
        constraints@.len() == 0 ==> (constrained matches Err(detail) && detail@
            == "required constraint "@ + "dovecote_schema_version_supported"@ + " is missing"@),
        indexes@.len() == 0 ==> (indexed matches Err(detail) && detail@ == "required index "@
            + "dovecote_events_tenant_source_event_id"@ + " is missing"@),
        (forall|k: int|
            0 <= k < demanded_constraints().len() ==> #[trigger] constraint_conforms(
                constraints@,
                k,
            )) && constraints@.len() > 0 && !is_demanded_constraint(constraints@[0].name@) ==> (
        constrained matches Err(detail) && detail@ == "unexpected constraint "@
            + constraints@[0].name@),
        (forall|k: int|
            0 <= k < demanded_indexes().len() ==> #[trigger] index_conforms(indexes@, k))
            && indexes@.len() > 0 && !is_demanded_index(indexes@[0].name@) ==> (
        indexed matches Err(detail) && detail@ == "unexpected index "@ + indexes@[0].name@),
{
    if constraints@.len() == 0 {
        assert(!constraint_conforms(constraints@, 0));
    }
    if indexes@.len() == 0 {
        assert(!index_conforms(indexes@, 0));
    }
}

/// A namespace that could not be read is reported under the name of the question, and a
/// missing one in words.
pub proof fn missing_namespaces_are_told(
    source: sqlx::Error,
    failed: Result<NamespaceInfo, SchemaError>,
    missing: Result<NamespaceInfo, SchemaError>,
)
    requires
        call_ensures(resolve_namespace, (Err(source),), failed),
        call_ensures(resolve_namespace, (Ok(None),), missing),
    ensures
        failed == Err::<NamespaceInfo, SchemaError>(
            SchemaError::failed("resolve current schema", source),
        ),
        missing matches Err(SchemaError::MigrationMismatch { detail }) && detail@
            == "the transaction has no resolvable current schema"@,
{
}

} // verus!
