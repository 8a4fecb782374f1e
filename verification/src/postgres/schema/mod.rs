//! Catalog verification for the installed schema.
//!
//! The check reads the catalog in a fixed order and stops at the first fault.
//! Each function here judges one reply of the database.

pub mod catalog;
pub mod contracts;
pub mod laws;
pub mod normalization;

use crate::postgres::error::SchemaError;
use crate::postgres::migration::{
    baseline, current_migration, marker_matches_migration, marker_mismatch, SchemaMarker,
};
use crate::postgres::schema::catalog::{
    check_columns, checked_as, columns_conform, columns_refused, ColumnInfo, ColumnSpec,
    NamespaceInfo,
};
use crate::postgres::schema::contracts::{
    constraint_matches, contract_views, demanded_constraints, demanded_indexes,
    expected_constraints, expected_indexes, index_matches, index_views, ConstraintInfo, IndexInfo,
};
use crate::text::{decimal, decimal_text, is_listed, same_text};
use vstd::prelude::*;

verus! {

/// A plain required column.
pub open spec fn required(
    name: &'static str,
    data_type: &'static str,
    maximum_length: Option<i32>,
) -> ColumnSpec {
    ColumnSpec {
        name,
        data_type,
        maximum_length,
        nullable: false,
        identity: false,
        default_fragment: None,
    }
}

/// A nullable column.
pub open spec fn optional(
    name: &'static str,
    data_type: &'static str,
    maximum_length: Option<i32>,
) -> ColumnSpec {
    ColumnSpec { nullable: true, ..required(name, data_type, maximum_length) }
}

/// A required column with a particular default.
pub open spec fn defaulted(
    name: &'static str,
    data_type: &'static str,
    default_fragment: &'static str,
) -> ColumnSpec {
    ColumnSpec { default_fragment: Some(default_fragment), ..required(name, data_type, None) }
}

/// The columns of the marker table.
pub open spec fn demanded_marker_columns() -> Seq<ColumnSpec> {
    seq![
        required("schema_version", "integer", None),
        required("minimum_crate_major", "smallint", None),
        required("minimum_crate_minor", "smallint", None),
        required("minimum_crate_patch", "smallint", None),
        required("rolling_compatible", "boolean", None),
    ]
}

/// The columns of the marker table.
pub fn marker_columns() -> (columns: Vec<ColumnSpec>)
    ensures
        columns@ == demanded_marker_columns(),
{
    let columns = vec![
        ColumnSpec::required("schema_version", "integer", None),
        ColumnSpec::required("minimum_crate_major", "smallint", None),
        ColumnSpec::required("minimum_crate_minor", "smallint", None),
        ColumnSpec::required("minimum_crate_patch", "smallint", None),
        ColumnSpec::required("rolling_compatible", "boolean", None),
    ];
    assert(columns@ =~= demanded_marker_columns());
    columns
}

/// The columns of the event table.
pub open spec fn demanded_event_columns() -> Seq<ColumnSpec> {
    seq![
        ColumnSpec { identity: true, ..required("row_id", "bigint", None) },
        required("tenant_id", "character varying", Some(255)),
        required("stream", "character varying", Some(255)),
        required("specversion", "character varying", Some(8)),
        required("event_id", "character varying", Some(1024)),
        required("source", "character varying", Some(2048)),
        required("event_type", "character varying", Some(1024)),
        optional("subject", "character varying", Some(2048)),
        optional("occurred_at", "timestamp with time zone", None),
        optional("datacontenttype", "character varying", Some(255)),
        optional("dataschema", "character varying", Some(2048)),
        optional("partitionkey", "character varying", Some(255)),
        defaulted("extensions", "text", "'{}'::text"),
        optional("data_kind", "character varying", Some(6)),
        optional("data", "bytea", None),
        defaulted("enqueued_at", "timestamp with time zone", "current_timestamp"),
    ]
}

/// The columns of the event table.
pub fn event_columns() -> (columns: Vec<ColumnSpec>)
    ensures
        columns@ == demanded_event_columns(),
{
    let columns = vec![
        ColumnSpec::required_identity("row_id", "bigint", None),
        ColumnSpec::required("tenant_id", "character varying", Some(255)),
        ColumnSpec::required("stream", "character varying", Some(255)),
        ColumnSpec::required("specversion", "character varying", Some(8)),
        ColumnSpec::required("event_id", "character varying", Some(1024)),
        ColumnSpec::required("source", "character varying", Some(2048)),
        ColumnSpec::required("event_type", "character varying", Some(1024)),
        ColumnSpec::optional("subject", "character varying", Some(2048)),
        ColumnSpec::optional("occurred_at", "timestamp with time zone", None),
        ColumnSpec::optional("datacontenttype", "character varying", Some(255)),
        ColumnSpec::optional("dataschema", "character varying", Some(2048)),
        ColumnSpec::optional("partitionkey", "character varying", Some(255)),
        ColumnSpec::required_with_default("extensions", "text", None, "'{}'::text"),
        ColumnSpec::optional("data_kind", "character varying", Some(6)),
        ColumnSpec::optional("data", "bytea", None),
        ColumnSpec::required_with_default(
            "enqueued_at",
            "timestamp with time zone",
            None,
            "current_timestamp",
        ),
    ];
    assert(columns@ =~= demanded_event_columns());
    columns
}

/// The columns of the delivery table.
pub open spec fn demanded_delivery_columns() -> Seq<ColumnSpec> {
    seq![
        required("event_row_id", "bigint", None),
        required("tenant_id", "character varying", Some(255)),
        required("state", "character varying", Some(12)),
        defaulted("available_at", "timestamp with time zone", "current_timestamp"),
        defaulted("attempts", "bigint", "0"),
        optional("claim_token", "bytea", None),
        optional("claimed_by", "character varying", Some(255)),
        optional("claim_expires_at", "timestamp with time zone", None),
        optional("last_failure_code", "character varying", Some(128)),
        optional("last_failure_detail", "character varying", Some(2048)),
        optional("delivered_at", "timestamp with time zone", None),
        optional("quarantined_at", "timestamp with time zone", None),
        optional("quarantine_reason", "character varying", Some(2048)),
    ]
}

/// The columns of the delivery table.
pub fn delivery_columns() -> (columns: Vec<ColumnSpec>)
    ensures
        columns@ == demanded_delivery_columns(),
{
    let columns = vec![
        ColumnSpec::required("event_row_id", "bigint", None),
        ColumnSpec::required("tenant_id", "character varying", Some(255)),
        ColumnSpec::required("state", "character varying", Some(12)),
        ColumnSpec::required_with_default(
            "available_at",
            "timestamp with time zone",
            None,
            "current_timestamp",
        ),
        ColumnSpec::required_with_default("attempts", "bigint", None, "0"),
        ColumnSpec::optional("claim_token", "bytea", None),
        ColumnSpec::optional("claimed_by", "character varying", Some(255)),
        ColumnSpec::optional("claim_expires_at", "timestamp with time zone", None),
        ColumnSpec::optional("last_failure_code", "character varying", Some(128)),
        ColumnSpec::optional("last_failure_detail", "character varying", Some(2048)),
        ColumnSpec::optional("delivered_at", "timestamp with time zone", None),
        ColumnSpec::optional("quarantined_at", "timestamp with time zone", None),
        ColumnSpec::optional("quarantine_reason", "character varying", Some(2048)),
    ];
    assert(columns@ =~= demanded_delivery_columns());
    columns
}

/// Judges the lookup of the namespace that unqualified names resolve to.
pub fn resolve_namespace(reply: Result<Option<NamespaceInfo>, sqlx::Error>) -> (result: Result<
    NamespaceInfo,
    SchemaError,
>)
    ensures
        match reply {
            Err(source) => result == Err::<NamespaceInfo, SchemaError>(
                SchemaError::failed("resolve current schema", source),
            ),
            Ok(Some(namespace)) => result == Ok::<NamespaceInfo, SchemaError>(namespace),
            Ok(None) => result matches Err(SchemaError::MigrationMismatch { detail }) && detail@
                == "the transaction has no resolvable current schema"@,
        },
{
    match reply {
        Err(source) => Err(SchemaError::sql("resolve current schema", source)),
        Ok(Some(namespace)) => Ok(namespace),
        Ok(None) => Err(
            SchemaError::MigrationMismatch {
                detail: "the transaction has no resolvable current schema".to_owned(),
            },
        ),
    }
}

/// Why the marker rows are refused, if they are: there is not exactly one, or it
/// does not match the shipped migration.
pub open spec fn markers_refusal(markers: Seq<SchemaMarker>) -> Option<Seq<char>> {
    if markers.len() != 1 {
        Some("expected exactly one schema marker row, found "@ + decimal_text(markers.len()))
    } else {
        marker_mismatch(markers[0], baseline())
    }
}

/// Judges the marker rows.
pub fn check_markers(reply: Result<Vec<SchemaMarker>, sqlx::Error>) -> (result: Result<
    (),
    SchemaError,
>)
    ensures
        checked_as(
            "check schema marker",
            reply,
            markers_refusal(reply->Ok_0@) is None,
            |detail: Seq<char>| markers_refusal(reply->Ok_0@) == Some(detail),
            result,
        ),
{
    let markers = match reply {
        Ok(markers) => markers,
        Err(source) => return Err(SchemaError::sql("check schema marker", source)),
    };
    if markers.len() != 1 {
        return Err(
            SchemaError::MigrationMismatch {
                detail: "expected exactly one schema marker row, found ".to_owned().concat(
                    decimal(markers.len() as u64).as_str(),
                ),
            },
        );
    }
    let migration = match current_migration() {
        Ok(migration) => migration,
        Err(detail) => return Err(SchemaError::MigrationMismatch { detail }),
    };
    match marker_matches_migration(&markers[0], migration) {
        Ok(()) => Ok(()),
        Err(detail) => Err(SchemaError::MigrationMismatch { detail }),
    }
}

/// Whether `at` is the first catalog constraint of this name.
pub open spec fn first_constraint(list: Seq<ConstraintInfo>, name: Seq<char>, at: int) -> bool {
    &&& 0 <= at < list.len()
    &&& list[at].name@ == name
    &&& forall|i: int| 0 <= i < at ==> (#[trigger] list[i]).name@ != name
}

/// Whether the catalog shows the `k`th demanded constraint as it is demanded.
pub open spec fn constraint_conforms(list: Seq<ConstraintInfo>, k: int) -> bool {
    exists|at: int|
        #[trigger] first_constraint(list, demanded_constraints()[k].name, at)
            && constraint_matches(list[at], demanded_constraints()[k])
}

/// Whether a constraint of this name is demanded.
pub open spec fn is_demanded_constraint(name: Seq<char>) -> bool {
    exists|k: int|
        0 <= k < demanded_constraints().len() && (#[trigger] demanded_constraints()[k]).name == name
}

/// Whether the catalog shows exactly the demanded constraints.
pub open spec fn constraints_conform(list: Seq<ConstraintInfo>) -> bool {
    &&& forall|k: int|
        0 <= k < demanded_constraints().len() ==> #[trigger] constraint_conforms(list, k)
    &&& forall|i: int| 0 <= i < list.len() ==> is_demanded_constraint((#[trigger] list[i]).name@)
}

/// Whether a refusal names the first fault among the constraints: the first
/// demanded one that is missing or differs, else the first that nobody demands.
pub open spec fn constraints_refused(list: Seq<ConstraintInfo>, detail: Seq<char>) -> bool {
    ||| exists|k: int|
        {
            &&& 0 <= k < demanded_constraints().len()
            &&& forall|j: int| 0 <= j < k ==> #[trigger] constraint_conforms(list, j)
            &&& !#[trigger] constraint_conforms(list, k)
            &&& detail == "required constraint "@ + demanded_constraints()[k].name + if exists|
                at: int,
            | #[trigger] first_constraint(list, demanded_constraints()[k].name, at) {
                " is incompatible"@
            } else {
                " is missing"@
            }
        }
    ||| {
        &&& forall|k: int|
            0 <= k < demanded_constraints().len() ==> #[trigger] constraint_conforms(list, k)
        &&& exists|i: int|
            {
                &&& 0 <= i < list.len()
                &&& !is_demanded_constraint((#[trigger] list[i]).name@)
                &&& forall|j: int| 0 <= j < i ==> is_demanded_constraint((#[trigger] list[j]).name@)
                &&& detail == "unexpected constraint "@ + list[i].name@
            }
    }
}

fn find_constraint(list: &Vec<ConstraintInfo>, name: &str) -> (found: Option<usize>)
    ensures
        match found {
            Some(at) => first_constraint(list@, name@, at as int),
            None => forall|at: int| !#[trigger] first_constraint(list@, name@, at),
        },
{
    let mut index: usize = 0;
    while index < list.len()
        invariant
            index <= list@.len(),
            forall|i: int| 0 <= i < index ==> (#[trigger] list@[i]).name@ != name@,
        decreases list@.len() - index,
    {
        if same_text(list[index].name.as_str(), name) {
            return Some(index);
        }
        index = index + 1;
    }
    None
}

proof fn lemma_first_constraint_unique(list: Seq<ConstraintInfo>, name: Seq<char>, at: int)
    requires
        first_constraint(list, name, at),
    ensures
        forall|other: int| #[trigger] first_constraint(list, name, other) ==> other == at,
{
    assert forall|other: int| #[trigger] first_constraint(list, name, other) implies other == at by {
        if other < at {
            assert(list[other].name@ == name);
        }
        if at < other {
            assert(list[at].name@ == name);
        }
    }
}

/// Compares the constraints that the catalog shows with the demanded ones.
pub fn compare_constraints(list: &Vec<ConstraintInfo>) -> (result: Result<(), String>)
    ensures
        match result {
            Ok(()) => constraints_conform(list@),
            Err(detail) => !constraints_conform(list@) && constraints_refused(list@, detail@),
        },
{
    let expected = expected_constraints();
    let ghost demanded = demanded_constraints();
    assert(contract_views(expected@).len() == expected@.len());
    let mut index: usize = 0;
    while index < expected.len()
        invariant
            demanded == demanded_constraints(),
            contract_views(expected@) == demanded,
            expected@.len() == demanded.len(),
            index <= expected@.len(),
            forall|j: int| 0 <= j < index ==> #[trigger] constraint_conforms(list@, j),
        decreases expected@.len() - index,
    {
        let ghost k = index as int;
        assert(contract_views(expected@)[k] == expected@[k]@);
        assert(demanded[k] == expected@[k]@);
        match find_constraint(list, expected[index].name) {
            None => {
                assert(!constraint_conforms(list@, k));
                return Err(
                    "required constraint ".to_owned().concat(
                            expected[index].name,
                        ).concat(" is missing"),
                    );
            },
            Some(at) => {
                assert(first_constraint(list@, demanded[k].name, at as int));
                if !list[at].matches(&expected[index]) {
                    proof {
                        lemma_first_constraint_unique(list@, demanded[k].name, at as int);
                    }
                    assert(!constraint_conforms(list@, k));
                    return Err(
                        "required constraint ".to_owned().concat(
                                expected[index].name,
                            ).concat(" is incompatible"),
                    );
                }
                assert(constraint_conforms(list@, k));
            },
        }
        index = index + 1;
    }
    let mut names: Vec<&str> = Vec::new();
    index = 0;
    while index < expected.len()
        invariant
            demanded == demanded_constraints(),
            contract_views(expected@) == demanded,
            expected@.len() == demanded.len(),
            index <= expected@.len(),
            names@.len() == index,
            forall|j: int| 0 <= j < index ==> (#[trigger] names@[j])@ == demanded[j].name,
        decreases expected@.len() - index,
    {
        assert(contract_views(expected@)[index as int] == expected@[index as int]@);
        names.push(expected[index].name);
        index = index + 1;
    }
    index = 0;
    while index < list.len()
        invariant
            demanded == demanded_constraints(),
            forall|k: int|
                0 <= k < demanded.len() ==> #[trigger] constraint_conforms(list@, k),
            names@.len() == demanded.len(),
            forall|j: int| 0 <= j < names@.len() ==> (#[trigger] names@[j])@ == demanded[j].name,
            index <= list@.len(),
            forall|i: int|
                0 <= i < index ==> is_demanded_constraint((#[trigger] list@[i]).name@),
        decreases list@.len() - index,
    {
        let ghost name = list@[index as int].name@;
        if !is_expected_name(list[index].name.as_str(), names.as_slice()) {
            assert(!is_demanded_constraint(name)) by {
                if is_demanded_constraint(name) {
                    let k = choose|k: int|
                        0 <= k < demanded.len() && (#[trigger] demanded[k]).name == name;
                    assert(names@[k]@ == name);
                }
            }
            return Err(
                "unexpected constraint ".to_owned().concat(list[index].name.as_str()),
                    );
        }
        assert(is_demanded_constraint(name)) by {
            let k = choose|k: int| 0 <= k < names@.len() && (#[trigger] names@[k])@ == name;
            assert(demanded[k].name == name);
        }
        index = index + 1;
    }
    Ok(())
}

/// Judges the constraints that the catalog shows.
pub fn check_constraints(reply: Result<Vec<ConstraintInfo>, sqlx::Error>) -> (result: Result<(), SchemaError>)
    ensures
        checked_as(
            "check constraints",
            reply,
            constraints_conform(reply->Ok_0@),
            |detail: Seq<char>| constraints_refused(reply->Ok_0@, detail),
            result,
        ),
{
    match reply {
        Err(source) => Err(SchemaError::sql("check constraints", source)),
        Ok(list) => match compare_constraints(&list) {
            Ok(()) => Ok(()),
            Err(detail) => Err(SchemaError::MigrationMismatch { detail }),
        },
    }
}

/// Whether a catalog name is one of the expected ones.
pub fn is_expected_name(name: &str, expected: &[&str]) -> (known: bool)
    ensures
        known == exists|i: int| 0 <= i < expected@.len() && (#[trigger] expected@[i])@ == name@,
{
    is_listed(name, expected)
}

/// Whether `at` is the first catalog index of this name.
pub open spec fn first_index(list: Seq<IndexInfo>, name: Seq<char>, at: int) -> bool {
    &&& 0 <= at < list.len()
    &&& list[at].name@ == name
    &&& forall|i: int| 0 <= i < at ==> (#[trigger] list[i]).name@ != name
}

/// Whether the catalog shows the `k`th demanded index as it is demanded.
pub open spec fn index_conforms(list: Seq<IndexInfo>, k: int) -> bool {
    exists|at: int|
        #[trigger] first_index(list, demanded_indexes()[k].name, at) && index_matches(
            list[at],
            demanded_indexes()[k],
        )
}

/// Whether an index of this name is demanded.
pub open spec fn is_demanded_index(name: Seq<char>) -> bool {
    exists|k: int|
        0 <= k < demanded_indexes().len() && (#[trigger] demanded_indexes()[k]).name == name
}

/// Whether the catalog shows exactly the demanded indexes.
pub open spec fn indexes_conform(list: Seq<IndexInfo>) -> bool {
    &&& forall|k: int| 0 <= k < demanded_indexes().len() ==> #[trigger] index_conforms(list, k)
    &&& forall|i: int| 0 <= i < list.len() ==> is_demanded_index((#[trigger] list[i]).name@)
}

/// Whether a refusal names the first fault among the indexes: the first demanded
/// one that is missing or differs, else the first that nobody demands.
pub open spec fn indexes_refused(list: Seq<IndexInfo>, detail: Seq<char>) -> bool {
    ||| exists|k: int|
        {
            &&& 0 <= k < demanded_indexes().len()
            &&& forall|j: int| 0 <= j < k ==> #[trigger] index_conforms(list, j)
            &&& !#[trigger] index_conforms(list, k)
            &&& detail == "required index "@ + demanded_indexes()[k].name + if exists|at: int|
                #[trigger] first_index(list, demanded_indexes()[k].name, at) {
                " is incompatible"@
            } else {
                " is missing"@
            }
        }
    ||| {
        &&& forall|k: int|
            0 <= k < demanded_indexes().len() ==> #[trigger] index_conforms(list, k)
        &&& exists|i: int|
            {
                &&& 0 <= i < list.len()
                &&& !is_demanded_index((#[trigger] list[i]).name@)
                &&& forall|j: int| 0 <= j < i ==> is_demanded_index((#[trigger] list[j]).name@)
                &&& detail == "unexpected index "@ + list[i].name@
            }
    }
}

fn find_index(list: &Vec<IndexInfo>, name: &str) -> (found: Option<usize>)
    ensures
        match found {
            Some(at) => first_index(list@, name@, at as int),
            None => forall|at: int| !#[trigger] first_index(list@, name@, at),
        },
{
    let mut index: usize = 0;
    while index < list.len()
        invariant
            index <= list@.len(),
            forall|i: int| 0 <= i < index ==> (#[trigger] list@[i]).name@ != name@,
        decreases list@.len() - index,
    {
        if same_text(list[index].name.as_str(), name) {
            return Some(index);
        }
        index = index + 1;
    }
    None
}

proof fn lemma_first_index_unique(list: Seq<IndexInfo>, name: Seq<char>, at: int)
    requires
        first_index(list, name, at),
    ensures
        forall|other: int| #[trigger] first_index(list, name, other) ==> other == at,
{
    assert forall|other: int| #[trigger] first_index(list, name, other) implies other == at by {
        if other < at {
            assert(list[other].name@ == name);
        }
        if at < other {
            assert(list[at].name@ == name);
        }
    }
}

/// Compares the indexes that the catalog shows and no constraint owns with the demanded ones.
pub fn compare_indexes(list: &Vec<IndexInfo>) -> (result: Result<(), String>)
    ensures
        match result {
            Ok(()) => indexes_conform(list@),
            Err(detail) => !indexes_conform(list@) && indexes_refused(list@, detail@),
        },
{
    let expected = expected_indexes();
    let ghost demanded = demanded_indexes();
    assert(index_views(expected@).len() == expected@.len());
    let mut index: usize = 0;
    while index < expected.len()
        invariant
            demanded == demanded_indexes(),
            index_views(expected@) == demanded,
            expected@.len() == demanded.len(),
            index <= expected@.len(),
            forall|j: int| 0 <= j < index ==> #[trigger] index_conforms(list@, j),
        decreases expected@.len() - index,
    {
        let ghost k = index as int;
        assert(index_views(expected@)[k] == expected@[k]@);
        match find_index(list, expected[index].name) {
            None => {
                assert(!index_conforms(list@, k));
                return Err(
                    "required index ".to_owned().concat(expected[index].name).concat(
                            " is missing",
                        ),
                    );
            },
            Some(at) => {
                assert(first_index(list@, demanded[k].name, at as int));
                if !list[at].matches(&expected[index]) {
                    proof {
                        lemma_first_index_unique(list@, demanded[k].name, at as int);
                    }
                    assert(!index_conforms(list@, k));
                    return Err(
                        "required index ".to_owned().concat(
                                expected[index].name,
                            ).concat(" is incompatible"),
                    );
                }
                assert(index_conforms(list@, k));
            },
        }
        index = index + 1;
    }
    let mut names: Vec<&str> = Vec::new();
    index = 0;
    while index < expected.len()
        invariant
            demanded == demanded_indexes(),
            index_views(expected@) == demanded,
            expected@.len() == demanded.len(),
            index <= expected@.len(),
            names@.len() == index,
            forall|j: int| 0 <= j < index ==> (#[trigger] names@[j])@ == demanded[j].name,
        decreases expected@.len() - index,
    {
        assert(index_views(expected@)[index as int] == expected@[index as int]@);
        names.push(expected[index].name);
        index = index + 1;
    }
    index = 0;
    while index < list.len()
        invariant
            demanded == demanded_indexes(),
            forall|k: int| 0 <= k < demanded.len() ==> #[trigger] index_conforms(list@, k),
            names@.len() == demanded.len(),
            forall|j: int| 0 <= j < names@.len() ==> (#[trigger] names@[j])@ == demanded[j].name,
            index <= list@.len(),
            forall|i: int| 0 <= i < index ==> is_demanded_index((#[trigger] list@[i]).name@),
        decreases list@.len() - index,
    {
        let ghost name = list@[index as int].name@;
        if !is_expected_name(list[index].name.as_str(), names.as_slice()) {
            assert(!is_demanded_index(name)) by {
                if is_demanded_index(name) {
                    let k = choose|k: int|
                        0 <= k < demanded.len() && (#[trigger] demanded[k]).name == name;
                    assert(names@[k]@ == name);
                }
            }
            return Err(
                "unexpected index ".to_owned().concat(list[index].name.as_str()),
                    );
        }
        assert(is_demanded_index(name)) by {
            let k = choose|k: int| 0 <= k < names@.len() && (#[trigger] names@[k])@ == name;
            assert(demanded[k].name == name);
        }
        index = index + 1;
    }
    Ok(())
}

/// Judges the indexes that the catalog shows and no constraint owns.
pub fn check_indexes(reply: Result<Vec<IndexInfo>, sqlx::Error>) -> (result: Result<(), SchemaError>)
    ensures
        checked_as(
            "check indexes",
            reply,
            indexes_conform(reply->Ok_0@),
            |detail: Seq<char>| indexes_refused(reply->Ok_0@, detail),
            result,
        ),
{
    match reply {
        Err(source) => Err(SchemaError::sql("check indexes", source)),
        Ok(list) => match compare_indexes(&list) {
            Ok(()) => Ok(()),
            Err(detail) => Err(SchemaError::MigrationMismatch { detail }),
        },
    }
}

/// How far the schema check has come: what it reads next, or that it is done.
#[derive(Clone, Copy, Debug, PartialEq, Eq, Structural)]
pub enum SchemaCheck {
    /// The columns of the marker table come next.
    MarkerColumns,
    /// The marker rows come next.
    Markers,
    /// The columns of the event table come next.
    EventColumns,
    /// The columns of the delivery table come next.
    DeliveryColumns,
    /// The constraints of the three tables come next.
    Constraints,
    /// The indexes of the three tables come next.
    Indexes,
    /// The schema is accepted.
    Accepted,
}

/// What the database replied to one question of the schema check.
#[derive(Debug)]
pub enum CatalogReply {
    /// The columns of a table.
    Columns(Result<Vec<ColumnInfo>, sqlx::Error>),
    /// The marker rows.
    Markers(Result<Vec<SchemaMarker>, sqlx::Error>),
    /// The constraints.
    Constraints(Result<Vec<ConstraintInfo>, sqlx::Error>),
    /// The indexes.
    Indexes(Result<Vec<IndexInfo>, sqlx::Error>),
}

impl SchemaCheck {
    /// Whether a reply is of the kind that this step asks for.
    pub open spec fn awaits(self, reply: CatalogReply) -> bool {
        match self {
            SchemaCheck::MarkerColumns => reply is Columns,
            SchemaCheck::Markers => reply is Markers,
            SchemaCheck::EventColumns => reply is Columns,
            SchemaCheck::DeliveryColumns => reply is Columns,
            SchemaCheck::Constraints => reply is Constraints,
            SchemaCheck::Indexes => reply is Indexes,
            SchemaCheck::Accepted => false,
        }
    }

    /// The step that follows an accepted reply.
    pub open spec fn following(self) -> SchemaCheck {
        match self {
            SchemaCheck::MarkerColumns => SchemaCheck::Markers,
            SchemaCheck::Markers => SchemaCheck::EventColumns,
            SchemaCheck::EventColumns => SchemaCheck::DeliveryColumns,
            SchemaCheck::DeliveryColumns => SchemaCheck::Constraints,
            SchemaCheck::Constraints => SchemaCheck::Indexes,
            SchemaCheck::Indexes => SchemaCheck::Accepted,
            SchemaCheck::Accepted => SchemaCheck::Accepted,
        }
    }

    /// Whether this step judged a reply as the schema demands: a conforming
    /// reply passes, a failed query and the first fault do not.
    pub open spec fn judged(self, reply: CatalogReply, result: Result<(), SchemaError>) -> bool {
        match (self, reply) {
            (SchemaCheck::MarkerColumns, CatalogReply::Columns(reply)) => checked_as(
                "check columns",
                reply,
                columns_conform(reply->Ok_0@, demanded_marker_columns()),
                |detail: Seq<char>|
                    columns_refused(
                        "dovecote_schema"@,
                        reply->Ok_0@,
                        demanded_marker_columns(),
                        detail,
                    ),
                result,
            ),
            (SchemaCheck::Markers, CatalogReply::Markers(reply)) => checked_as(
                "check schema marker",
                reply,
                markers_refusal(reply->Ok_0@) is None,
                |detail: Seq<char>| markers_refusal(reply->Ok_0@) == Some(detail),
                result,
            ),
            (SchemaCheck::EventColumns, CatalogReply::Columns(reply)) => checked_as(
                "check columns",
                reply,
                columns_conform(reply->Ok_0@, demanded_event_columns()),
                |detail: Seq<char>|
                    columns_refused(
                        "dovecote_events"@,
                        reply->Ok_0@,
                        demanded_event_columns(),
                        detail,
                    ),
                result,
            ),
            (SchemaCheck::DeliveryColumns, CatalogReply::Columns(reply)) => checked_as(
                "check columns",
                reply,
                columns_conform(reply->Ok_0@, demanded_delivery_columns()),
                |detail: Seq<char>|
                    columns_refused(
                        "dovecote_deliveries"@,
                        reply->Ok_0@,
                        demanded_delivery_columns(),
                        detail,
                    ),
                result,
            ),
            (SchemaCheck::Constraints, CatalogReply::Constraints(reply)) => checked_as(
                "check constraints",
                reply,
                constraints_conform(reply->Ok_0@),
                |detail: Seq<char>| constraints_refused(reply->Ok_0@, detail),
                result,
            ),
            (SchemaCheck::Indexes, CatalogReply::Indexes(reply)) => checked_as(
                "check indexes",
                reply,
                indexes_conform(reply->Ok_0@),
                |detail: Seq<char>| indexes_refused(reply->Ok_0@, detail),
                result,
            ),
            _ => false,
        }
    }

    /// The table whose columns this step reads, if it reads columns.
    pub fn table(self) -> (table: Option<&'static str>)
        ensures
            match self {
                SchemaCheck::MarkerColumns => table is Some && table->0@ == "dovecote_schema"@,
                SchemaCheck::EventColumns => table is Some && table->0@ == "dovecote_events"@,
                SchemaCheck::DeliveryColumns => table is Some && table->0@
                    == "dovecote_deliveries"@,
                _ => table is None,
            },
    {
        match self {
            SchemaCheck::MarkerColumns => Some("dovecote_schema"),
            SchemaCheck::EventColumns => Some("dovecote_events"),
            SchemaCheck::DeliveryColumns => Some("dovecote_deliveries"),
            _ => None,
        }
    }

    /// Judges the reply to this step and says what comes next.
    pub fn advance(self, reply: CatalogReply) -> (result: Result<SchemaCheck, SchemaError>)
        requires
            self.awaits(reply),
        ensures
            match result {
                Ok(next) => next == self.following() && self.judged(reply, Ok(())),
                Err(error) => self.judged(reply, Err(error)),
            },
    {
        let (verdict, next) = match (self, reply) {
            (SchemaCheck::MarkerColumns, CatalogReply::Columns(reply)) => (
                check_columns("dovecote_schema", &marker_columns(), reply),
                SchemaCheck::Markers,
            ),
            (SchemaCheck::Markers, CatalogReply::Markers(reply)) => (
                check_markers(reply),
                SchemaCheck::EventColumns,
            ),
            (SchemaCheck::EventColumns, CatalogReply::Columns(reply)) => (
                check_columns("dovecote_events", &event_columns(), reply),
                SchemaCheck::DeliveryColumns,
            ),
            (SchemaCheck::DeliveryColumns, CatalogReply::Columns(reply)) => (
                check_columns("dovecote_deliveries", &delivery_columns(), reply),
                SchemaCheck::Constraints,
            ),
            (SchemaCheck::Constraints, CatalogReply::Constraints(reply)) => (
                check_constraints(reply),
                SchemaCheck::Indexes,
            ),
            (SchemaCheck::Indexes, CatalogReply::Indexes(reply)) => (
                check_indexes(reply),
                SchemaCheck::Accepted,
            ),
            // No step awaits any other reply.
            _ => (
                Err(
                    SchemaError::MigrationMismatch {
                        detail: "the catalog reply answers another question".to_owned(),
                    },
                ),
                SchemaCheck::Accepted,
            ),
        };
        match verdict {
            Ok(()) => Ok(next),
            Err(error) => Err(error),
        }
    }
}

/// Whether a catalog shows exactly schema version 2.
pub open spec fn schema_conforms(
    marker_columns: Seq<ColumnInfo>,
    markers: Seq<SchemaMarker>,
    event_columns: Seq<ColumnInfo>,
    delivery_columns: Seq<ColumnInfo>,
    constraints: Seq<ConstraintInfo>,
    indexes: Seq<IndexInfo>,
) -> bool {
    &&& columns_conform(marker_columns, demanded_marker_columns())
    &&& markers_refusal(markers) is None
    &&& columns_conform(event_columns, demanded_event_columns())
    &&& columns_conform(delivery_columns, demanded_delivery_columns())
    &&& constraints_conform(constraints)
    &&& indexes_conform(indexes)
}

/// The check accepts a readable catalog exactly if it shows schema version 2:
/// the six judgements all pass if and only if every part conforms.
pub proof fn the_check_accepts_exactly_the_schema(
    marker_columns: Vec<ColumnInfo>,
    markers: Vec<SchemaMarker>,
    event_columns: Vec<ColumnInfo>,
    delivery_columns: Vec<ColumnInfo>,
    constraints: Vec<ConstraintInfo>,
    indexes: Vec<IndexInfo>,
    verdicts: Seq<Result<(), SchemaError>>,
)
    requires
        verdicts.len() == 6,
        SchemaCheck::MarkerColumns.judged(CatalogReply::Columns(Ok(marker_columns)), verdicts[0]),
        SchemaCheck::Markers.judged(CatalogReply::Markers(Ok(markers)), verdicts[1]),
        SchemaCheck::EventColumns.judged(CatalogReply::Columns(Ok(event_columns)), verdicts[2]),
        SchemaCheck::DeliveryColumns.judged(
            CatalogReply::Columns(Ok(delivery_columns)),
            verdicts[3],
        ),
        SchemaCheck::Constraints.judged(CatalogReply::Constraints(Ok(constraints)), verdicts[4]),
        SchemaCheck::Indexes.judged(CatalogReply::Indexes(Ok(indexes)), verdicts[5]),
    ensures
        schema_conforms(
            marker_columns@,
            markers@,
            event_columns@,
            delivery_columns@,
            constraints@,
            indexes@,
        ) <==> (forall|i: int| 0 <= i < 6 ==> (#[trigger] verdicts[i]) is Ok),
{
    assert(verdicts[0] is Ok <==> columns_conform(marker_columns@, demanded_marker_columns()));
    assert(verdicts[1] is Ok <==> markers_refusal(markers@) is None);
    assert(verdicts[2] is Ok <==> columns_conform(event_columns@, demanded_event_columns()));
    assert(verdicts[3] is Ok <==> columns_conform(delivery_columns@, demanded_delivery_columns()));
    assert(verdicts[4] is Ok <==> constraints_conform(constraints@));
    assert(verdicts[5] is Ok <==> indexes_conform(indexes@));
}

} // verus!
