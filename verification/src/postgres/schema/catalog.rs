//! Column definitions as `information_schema` shows them.

use crate::postgres::error::SchemaError;
use crate::postgres::schema::normalization::{normalize_sql, normalized};
use crate::text::{is_text, optional_text, same_text};
use vstd::prelude::*;

verus! {

/// The namespace that unqualified table names resolve to.
#[derive(Debug)]
pub struct NamespaceInfo {
    pub oid: i64,
    pub name: String,
}

/// A column as the schema demands it.
#[derive(Clone, Copy, Debug)]
pub struct ColumnSpec {
    pub name: &'static str,
    pub data_type: &'static str,
    pub maximum_length: Option<i32>,
    pub nullable: bool,
    pub identity: bool,
    pub default_fragment: Option<&'static str>,
}

impl ColumnSpec {
    /// Demands a column that is not nullable and has no particular default.
    pub fn required(
        name: &'static str,
        data_type: &'static str,
        maximum_length: Option<i32>,
    ) -> (column: ColumnSpec)
        ensures
            column == (ColumnSpec {
                name,
                data_type,
                maximum_length,
                nullable: false,
                identity: false,
                default_fragment: None,
            }),
    {
        ColumnSpec {
            name,
            data_type,
            maximum_length,
            nullable: false,
            identity: false,
            default_fragment: None,
        }
    }

    /// Demands a column that is always generated as an identity.
    pub fn required_identity(
        name: &'static str,
        data_type: &'static str,
        maximum_length: Option<i32>,
    ) -> (column: ColumnSpec)
        ensures
            column == (ColumnSpec {
                name,
                data_type,
                maximum_length,
                nullable: false,
                identity: true,
                default_fragment: None,
            }),
    {
        ColumnSpec {
            name,
            data_type,
            maximum_length,
            nullable: false,
            identity: true,
            default_fragment: None,
        }
    }

    /// Demands a nullable column.
    pub fn optional(
        name: &'static str,
        data_type: &'static str,
        maximum_length: Option<i32>,
    ) -> (column: ColumnSpec)
        ensures
            column == (ColumnSpec {
                name,
                data_type,
                maximum_length,
                nullable: true,
                identity: false,
                default_fragment: None,
            }),
    {
        ColumnSpec {
            name,
            data_type,
            maximum_length,
            nullable: true,
            identity: false,
            default_fragment: None,
        }
    }

    /// Demands a column that is not nullable and has a particular default.
    pub fn required_with_default(
        name: &'static str,
        data_type: &'static str,
        maximum_length: Option<i32>,
        default_fragment: &'static str,
    ) -> (column: ColumnSpec)
        ensures
            column == (ColumnSpec {
                name,
                data_type,
                maximum_length,
                nullable: false,
                identity: false,
                default_fragment: Some(default_fragment),
            }),
    {
        ColumnSpec {
            name,
            data_type,
            maximum_length,
            nullable: false,
            identity: false,
            default_fragment: Some(default_fragment),
        }
    }
}

/// A column as the catalog shows it.
#[derive(Debug)]
pub struct ColumnInfo {
    pub column_name: String,
    pub data_type: String,
    pub character_maximum_length: Option<i32>,
    pub is_nullable: String,
    pub column_default: Option<String>,
    pub is_identity: String,
    pub identity_generation: Option<String>,
}

/// Whether a catalog column has the default that is demanded, if one is.
pub open spec fn default_matches(column: ColumnInfo, demanded: ColumnSpec) -> bool {
    demanded.default_fragment is Some ==> column.column_default is Some && normalized(
        column.column_default->0@,
    ) == normalized(demanded.default_fragment->0@)
}

/// Whether a catalog column is an identity exactly if one is demanded.
pub open spec fn identity_matches(column: ColumnInfo, demanded: ColumnSpec) -> bool {
    if demanded.identity {
        column.is_identity@ == "YES"@ && optional_text(column.identity_generation) == Some(
            "ALWAYS"@,
        )
    } else {
        column.is_identity@ == "NO"@
    }
}

/// Whether a catalog column is the demanded one, its name aside.
pub open spec fn column_matches(column: ColumnInfo, demanded: ColumnSpec) -> bool {
    &&& column.data_type@ == demanded.data_type@
    &&& column.character_maximum_length == demanded.maximum_length
    &&& (column.is_nullable@ == "YES"@) == demanded.nullable
    &&& default_matches(column, demanded)
    &&& identity_matches(column, demanded)
}

/// Whether a catalog column is the demanded one, its name aside.
pub fn is_column(column: &ColumnInfo, demanded: &ColumnSpec) -> (matches: bool)
    ensures
        matches == column_matches(*column, *demanded),
{
    let default_matches = match demanded.default_fragment {
        Some(fragment) => match &column.column_default {
            Some(default) => same_text(
                normalize_sql(default.as_str()).as_str(),
                normalize_sql(fragment).as_str(),
            ),
            None => false,
        },
        None => true,
    };
    let identity_matches = if demanded.identity {
        same_text(column.is_identity.as_str(), "YES") && is_text(
            &column.identity_generation,
            "ALWAYS",
        )
    } else {
        same_text(column.is_identity.as_str(), "NO")
    };
    let same_length = match (column.character_maximum_length, demanded.maximum_length) {
        (Some(actual), Some(expected)) => actual == expected,
        (None, None) => true,
        _ => false,
    };
    same_text(column.data_type.as_str(), demanded.data_type) && same_length && same_text(
        column.is_nullable.as_str(),
        "YES",
    ) == demanded.nullable && default_matches && identity_matches
}

/// Whether some demanded column has this name.
pub open spec fn is_demanded(name: Seq<char>, demanded: Seq<ColumnSpec>) -> bool {
    exists|i: int| 0 <= i < demanded.len() && (#[trigger] demanded[i]).name@ == name
}

/// The first catalog column that nobody demands: columns before it are demanded.
pub open spec fn first_unexpected(
    columns: Seq<ColumnInfo>,
    demanded: Seq<ColumnSpec>,
    at: int,
) -> bool {
    &&& 0 <= at < columns.len()
    &&& !is_demanded(columns[at].column_name@, demanded)
    &&& forall|i: int|
        0 <= i < at ==> is_demanded((#[trigger] columns[i]).column_name@, demanded)
}

/// Whether `at` is the first catalog column of this name.
pub open spec fn first_named(columns: Seq<ColumnInfo>, name: Seq<char>, at: int) -> bool {
    &&& 0 <= at < columns.len()
    &&& columns[at].column_name@ == name
    &&& forall|i: int| 0 <= i < at ==> (#[trigger] columns[i]).column_name@ != name
}

/// Whether no catalog column has this name.
pub open spec fn unnamed(columns: Seq<ColumnInfo>, name: Seq<char>) -> bool {
    forall|i: int| 0 <= i < columns.len() ==> (#[trigger] columns[i]).column_name@ != name
}

/// Whether the catalog shows a demanded column as it is demanded.
pub open spec fn column_conforms(columns: Seq<ColumnInfo>, demanded: ColumnSpec) -> bool {
    exists|at: int|
        #[trigger] first_named(columns, demanded.name@, at) && column_matches(columns[at], demanded)
}

/// Whether the catalog shows exactly the demanded columns.
pub open spec fn columns_conform(columns: Seq<ColumnInfo>, demanded: Seq<ColumnSpec>) -> bool {
    &&& forall|i: int|
        0 <= i < columns.len() ==> is_demanded((#[trigger] columns[i]).column_name@, demanded)
    &&& forall|i: int|
        0 <= i < demanded.len() ==> column_conforms(columns, #[trigger] demanded[i])
}

/// Whether a refusal names the first fault of a table: a column that nobody
/// demands, else the first demanded column that is missing or differs.
pub open spec fn columns_refused(
    table: Seq<char>,
    columns: Seq<ColumnInfo>,
    demanded: Seq<ColumnSpec>,
    detail: Seq<char>,
) -> bool {
    ||| exists|at: int|
        #[trigger] first_unexpected(columns, demanded, at) && detail == "unexpected column "@
            + table + "."@ + columns[at].column_name@
    ||| exists|at: int|
        {
            &&& 0 <= at < demanded.len()
            &&& forall|i: int|
                0 <= i < columns.len() ==> is_demanded(
                    (#[trigger] columns[i]).column_name@,
                    demanded,
                )
            &&& forall|i: int| 0 <= i < at ==> column_conforms(columns, #[trigger] demanded[i])
            &&& !column_conforms(columns, #[trigger] demanded[at])
            &&& detail == if unnamed(columns, demanded[at].name@) {
                "required column "@ + table + "."@ + demanded[at].name@ + " is missing"@
            } else {
                "column "@ + table + "."@ + demanded[at].name@ + " is incompatible"@
            }
        }
}

fn find_unexpected(columns: &Vec<ColumnInfo>, demanded: &Vec<ColumnSpec>) -> (found: Option<usize>)
    ensures
        match found {
            Some(at) => first_unexpected(columns@, demanded@, at as int),
            None => forall|i: int|
                0 <= i < columns@.len() ==> is_demanded(
                    (#[trigger] columns@[i]).column_name@,
                    demanded@,
                ),
        },
{
    let mut index: usize = 0;
    while index < columns.len()
        invariant
            index <= columns@.len(),
            forall|i: int|
                0 <= i < index ==> is_demanded((#[trigger] columns@[i]).column_name@, demanded@),
        decreases columns@.len() - index,
    {
        let mut listed = false;
        let mut candidate: usize = 0;
        while candidate < demanded.len()
            invariant
                index < columns@.len(),
                candidate <= demanded@.len(),
                listed == exists|i: int|
                    0 <= i < candidate && (#[trigger] demanded@[i]).name@
                        == columns@[index as int].column_name@,
            decreases demanded@.len() - candidate,
        {
            if same_text(demanded[candidate].name, columns[index].column_name.as_str()) {
                listed = true;
            }
            candidate = candidate + 1;
        }
        if !listed {
            return Some(index);
        }
        index = index + 1;
    }
    None
}

fn find_column(columns: &Vec<ColumnInfo>, name: &str) -> (found: Option<usize>)
    ensures
        match found {
            Some(at) => first_named(columns@, name@, at as int),
            None => unnamed(columns@, name@),
        },
{
    let mut index: usize = 0;
    while index < columns.len()
        invariant
            index <= columns@.len(),
            forall|i: int| 0 <= i < index ==> (#[trigger] columns@[i]).column_name@ != name@,
        decreases columns@.len() - index,
    {
        if same_text(columns[index].column_name.as_str(), name) {
            return Some(index);
        }
        index = index + 1;
    }
    None
}

/// Compares the columns of a table with the demanded ones.
pub fn compare_columns(
    table: &str,
    columns: &Vec<ColumnInfo>,
    demanded: &Vec<ColumnSpec>,
) -> (result: Result<(), String>)
    ensures
        match result {
            Ok(()) => columns_conform(columns@, demanded@),
            Err(detail) => {
                &&& !columns_conform(columns@, demanded@)
                &&& columns_refused(table@, columns@, demanded@, detail@)
            },
        },
{
    if let Some(at) = find_unexpected(columns, demanded) {
        let ghost at_int = at as int;
        assert(first_unexpected(columns@, demanded@, at_int));
        return Err(
            "unexpected column ".to_owned().concat(table).concat(".").concat(
                columns[at].column_name.as_str(),
            ),
        );
    }
    let mut index: usize = 0;
    while index < demanded.len()
        invariant
            index <= demanded@.len(),
            forall|i: int|
                0 <= i < columns@.len() ==> is_demanded(
                    (#[trigger] columns@[i]).column_name@,
                    demanded@,
                ),
            forall|i: int| 0 <= i < index ==> column_conforms(columns@, #[trigger] demanded@[i]),
        decreases demanded@.len() - index,
    {
        let specification = demanded[index];
        let ghost name = specification.name@;
        match find_column(columns, specification.name) {
            None => {
                assert(unnamed(columns@, name));
                assert(!column_conforms(columns@, demanded@[index as int]));
                return Err(
                    "required column ".to_owned().concat(table).concat(".").concat(
                        specification.name,
                    ).concat(" is missing"),
                );
            },
            Some(at) => {
                assert(first_named(columns@, name, at as int));
                if !is_column(&columns[at], &specification) {
                    assert forall|other: int| #[trigger]
                        first_named(columns@, name, other) implies other == at by {
                        if other < at {
                            assert(columns@[other].column_name@ == name);
                        }
                        if at < other {
                            assert(columns@[at as int].column_name@ == name);
                        }
                    }
                    assert(!column_conforms(columns@, demanded@[index as int]));
                    assert(!unnamed(columns@, name)) by {
                        assert(columns@[at as int].column_name@ == name);
                    }
                    return Err(
                        "column ".to_owned().concat(table).concat(".").concat(
                            specification.name,
                        ).concat(" is incompatible"),
                    );
                }
                assert(column_conforms(columns@, demanded@[index as int]));
            },
        }
        index = index + 1;
    }
    Ok(())
}

/// Whether a schema check passed, or stopped with the SQL failure or with a
/// mismatch that `refused` accepts.
pub open spec fn checked_as<T>(
    operation: &'static str,
    reply: Result<T, sqlx::Error>,
    conforms: bool,
    refused: spec_fn(Seq<char>) -> bool,
    result: Result<(), SchemaError>,
) -> bool {
    match reply {
        Err(source) => result is Err && result->Err_0 == SchemaError::failed(operation, source),
        Ok(_) => match result {
            Ok(()) => conforms,
            Err(SchemaError::MigrationMismatch { detail }) => !conforms && refused(detail@),
            Err(_) => false,
        },
    }
}

/// Judges the columns that the catalog shows for a table.
pub fn check_columns(
    table: &str,
    demanded: &Vec<ColumnSpec>,
    reply: Result<Vec<ColumnInfo>, sqlx::Error>,
) -> (result: Result<(), SchemaError>)
    ensures
        checked_as(
            "check columns",
            reply,
            columns_conform(reply->Ok_0@, demanded@),
            |detail: Seq<char>| columns_refused(table@, reply->Ok_0@, demanded@, detail),
            result,
        ),
{
    match reply {
        Err(source) => Err(SchemaError::sql("check columns", source)),
        Ok(columns) => match compare_columns(table, &columns, demanded) {
            Ok(()) => Ok(()),
            Err(detail) => Err(SchemaError::MigrationMismatch { detail }),
        },
    }
}

} // verus!
