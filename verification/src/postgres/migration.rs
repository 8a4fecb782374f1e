//! The migrations of the PostgreSQL adapter and the marker that a database
//! carries of them.

use crate::migration::{
    current_crate_version, in_range, CrateVersion, Migration, MigrationCompatibility,
    MigrationView, VersionRange, SCHEMA_VERSION,
};
use crate::postgres::artifacts::{BASELINE_SQL, LEGACY_SQL};
use crate::text::{decimal, decimal_text};
use vstd::prelude::*;

verus! {

/// The clean-install migration, version 2.
pub open spec fn baseline() -> MigrationView {
    MigrationView {
        version: 2,
        sql: BASELINE_SQL@,
        compatibility: VersionRange { minimum: (0, 2, 0), maximum: None },
        rolling_compatible: false,
    }
}

/// The pre-tenant migration, version 1.
pub open spec fn legacy() -> MigrationView {
    MigrationView {
        version: 1,
        sql: LEGACY_SQL@,
        compatibility: VersionRange { minimum: (0, 1, 0), maximum: None },
        rolling_compatible: false,
    }
}

/// The clean-install migration sequence shipped with this adapter.
///
/// The version 1 artifact remains available as [`legacy_migration`] for the
/// explicit prepare/backfill/activate upgrade route. It is intentionally not
/// rewritten or silently upgraded in place.
pub fn migrations() -> (list: Vec<Migration>)
    ensures
        list@.len() == 1,
        list@[0]@ == baseline(),
{
    let compatibility = MigrationCompatibility::new(CrateVersion::new(0, 2, 0), None);
    vec![Migration::new(2, BASELINE_SQL, compatibility, false)]
}

/// The immutable schema version 1 artifact used by pre-tenant deployments.
pub fn legacy_migration() -> (migration: Migration)
    ensures
        migration@ == legacy(),
{
    let compatibility = MigrationCompatibility::new(CrateVersion::new(0, 1, 0), None);
    Migration::new(1, LEGACY_SQL, compatibility, false)
}

/// The shipped migration for the schema version that this adapter works on.
pub fn current_migration() -> (result: Result<Migration, String>)
    ensures
        result is Ok,
        result->Ok_0@ == baseline(),
{
    let list = migrations();
    let mut index: usize = 0;
    while index < list.len()
        invariant
            list@.len() == 1,
            list@[0]@ == baseline(),
            index <= list@.len(),
            forall|i: int| 0 <= i < index ==> (#[trigger] list@[i])@.version != SCHEMA_VERSION,
        decreases list@.len() - index,
    {
        let migration = list[index];
        if migration.version() == SCHEMA_VERSION {
            return Ok(migration);
        }
        index = index + 1;
    }
    assert(list@[0]@.version != SCHEMA_VERSION);
    Err("adapter does not ship schema version 2".to_owned())
}

/// The marker row of an installed schema.
#[derive(Clone, Copy, Debug)]
pub struct SchemaMarker {
    /// Installed schema version.
    pub schema_version: i32,
    /// Major component of the oldest crate that may use the schema.
    pub minimum_crate_major: i16,
    /// Minor component of the oldest crate that may use the schema.
    pub minimum_crate_minor: i16,
    /// Patch component of the oldest crate that may use the schema.
    pub minimum_crate_patch: i16,
    /// Whether older and newer crates may use the schema side by side.
    pub rolling_compatible: bool,
}

/// The range that a marker spells, or why it spells none.
pub open spec fn marker_range(marker: SchemaMarker) -> Result<VersionRange, Seq<char>> {
    if marker.minimum_crate_major < 0 {
        Err("schema marker minimum major version is negative"@)
    } else if marker.minimum_crate_minor < 0 {
        Err("schema marker minimum minor version is negative"@)
    } else if marker.minimum_crate_patch < 0 {
        Err("schema marker minimum patch version is negative"@)
    } else {
        Ok(
            VersionRange {
                minimum: (
                    marker.minimum_crate_major as int,
                    marker.minimum_crate_minor as int,
                    marker.minimum_crate_patch as int,
                ),
                maximum: None,
            },
        )
    }
}

/// The compatibility range of a marker, which has no maximum.
pub fn marker_compatibility(marker: &SchemaMarker) -> (result: Result<
    MigrationCompatibility,
    String,
>)
    ensures
        match result {
            Ok(range) => marker_range(*marker) == Ok::<VersionRange, Seq<char>>(range@),
            Err(detail) => marker_range(*marker) == Err::<VersionRange, Seq<char>>(detail@),
        },
{
    if marker.minimum_crate_major < 0 {
        return Err("schema marker minimum major version is negative".to_owned());
    }
    if marker.minimum_crate_minor < 0 {
        return Err("schema marker minimum minor version is negative".to_owned());
    }
    if marker.minimum_crate_patch < 0 {
        return Err("schema marker minimum patch version is negative".to_owned());
    }
    let minimum = CrateVersion::new(
        marker.minimum_crate_major as u16,
        marker.minimum_crate_minor as u16,
        marker.minimum_crate_patch as u16,
    );
    match MigrationCompatibility::try_new(minimum, None) {
        Ok(range) => Ok(range),
        Err(error) => Err(
            "schema marker compatibility is invalid: ".to_owned().concat(error.message()),
        ),
    }
}

/// Why a marker does not match a migration for this crate, if it does not.
pub open spec fn marker_mismatch(marker: SchemaMarker, migration: MigrationView) -> Option<
    Seq<char>,
> {
    if marker.schema_version < 0 {
        Some("schema marker version is negative"@)
    } else {
        match marker_range(marker) {
            Err(detail) => Some(detail),
            Ok(range) => if marker.schema_version != migration.version {
                Some(
                    "schema marker version "@ + decimal_text(marker.schema_version as nat)
                        + " does not match installed version "@ + decimal_text(
                        migration.version as nat,
                    ),
                )
            } else if range != migration.compatibility {
                Some("schema marker compatibility range is incompatible"@)
            } else if marker.rolling_compatible != migration.rolling_compatible {
                Some("schema marker rolling compatibility is incompatible"@)
            } else if !in_range(migration.compatibility, (0, 2, 0)) {
                Some("current crate is outside the migration compatibility range"@)
            } else {
                None
            },
        }
    }
}

/// Compares the marker of a database with a migration: the version, the
/// compatibility range and the rolling flag are equal, and the range holds this
/// crate.
pub fn marker_matches_migration(marker: &SchemaMarker, migration: Migration) -> (result: Result<
    (),
    String,
>)
    ensures
        match result {
            Ok(()) => marker_mismatch(*marker, migration@) is None,
            Err(detail) => marker_mismatch(*marker, migration@) == Some(detail@),
        },
{
    if marker.schema_version < 0 {
        return Err("schema marker version is negative".to_owned());
    }
    let marker_version: u32 = marker.schema_version as u32;
    let compatibility = match marker_compatibility(marker) {
        Ok(compatibility) => compatibility,
        Err(detail) => return Err(detail),
    };
    if marker_version != migration.version() {
        return Err(
            "schema marker version ".to_owned().concat(
                decimal(marker_version as u64).as_str(),
            ).concat(" does not match installed version ").concat(
                decimal(migration.version() as u64).as_str(),
            ),
        );
    }
    if !compatibility.same(migration.compatibility()) {
        return Err("schema marker compatibility range is incompatible".to_owned());
    }
    if marker.rolling_compatible != migration.rolling_compatible() {
        return Err("schema marker rolling compatibility is incompatible".to_owned());
    }
    if !migration.compatibility().contains(current_crate_version()) {
        return Err("current crate is outside the migration compatibility range".to_owned());
    }
    Ok(())
}

/// Exactly one marker matches the shipped migration.
pub proof fn one_marker_matches_the_baseline(marker: SchemaMarker)
    ensures
        marker_mismatch(marker, baseline()) is None <==> marker == (SchemaMarker {
            schema_version: 2,
            minimum_crate_major: 0,
            minimum_crate_minor: 2,
            minimum_crate_patch: 0,
            rolling_compatible: false,
        }),
{
}

/// A marker that matches one migration matches no migration of another version.
pub proof fn a_marker_matches_one_version(
    marker: SchemaMarker,
    first: MigrationView,
    second: MigrationView,
)
    requires
        marker_mismatch(marker, first) is None,
        marker_mismatch(marker, second) is None,
    ensures
        first.version == second.version,
        first.compatibility == second.compatibility,
        first.rolling_compatible == second.rolling_compatible,
{
}

/// The adapter ships one migration, which creates version 2 for crates from version
/// 0.2.0 on. The artifact of version 1 is for crates from version 0.1.0 on. Neither
/// has a newest crate, and neither supports rolling deployments.
pub proof fn the_shipped_migrations(
    list: Vec<Migration>,
    current: Result<Migration, String>,
    first: Migration,
)
    requires
        call_ensures(migrations, (), list),
        call_ensures(current_migration, (), current),
        call_ensures(legacy_migration, (), first),
    ensures
        list@.len() == 1,
        list@[0]@.version == 2,
        list@[0]@.version == SCHEMA_VERSION,
        list@[0]@.sql == BASELINE_SQL@,
        list@[0]@.compatibility.minimum == (0int, 2int, 0int),
        list@[0]@.compatibility.maximum is None,
        !list@[0]@.rolling_compatible,
        current is Ok,
        current->Ok_0@ == list@[0]@,
        first@.version == 1,
        first@.sql == LEGACY_SQL@,
        first@.compatibility.minimum == (0int, 1int, 0int),
        first@.compatibility.maximum is None,
        !first@.rolling_compatible,
{
}

/// A marker that does not match is refused for its first difference: a negative
/// number, the version, the compatibility range or the rolling flag.
pub proof fn mismatches_name_their_difference(
    marker: SchemaMarker,
    migration: Migration,
    result: Result<(), String>,
)
    requires
        call_ensures(marker_matches_migration, (&marker, migration), result),
    ensures
        marker.schema_version < 0 ==> (result matches Err(detail) && detail@
            == "schema marker version is negative"@),
        marker.schema_version >= 0 && marker.minimum_crate_major < 0 ==> (result matches Err(detail)
            && detail@ == "schema marker minimum major version is negative"@),
        marker.schema_version >= 0 && marker.minimum_crate_major >= 0 && marker.minimum_crate_minor < 0
            ==> (result matches Err(detail) && detail@
            == "schema marker minimum minor version is negative"@),
        marker.schema_version >= 0 && marker.minimum_crate_major >= 0 && marker.minimum_crate_minor
            >= 0 && marker.minimum_crate_patch < 0 ==> (result matches Err(detail) && detail@
            == "schema marker minimum patch version is negative"@),
        marker.schema_version >= 0 && marker.minimum_crate_major >= 0 && marker.minimum_crate_minor
            >= 0 && marker.minimum_crate_patch >= 0 && marker.schema_version
            != migration@.version ==> (result matches Err(detail) && detail@
            == "schema marker version "@ + decimal_text(marker.schema_version as nat)
            + " does not match installed version "@ + decimal_text(migration@.version as nat)),
        result is Ok ==> {
            &&& marker.schema_version == migration@.version
            &&& migration@.compatibility.minimum == (
                marker.minimum_crate_major as int,
                marker.minimum_crate_minor as int,
                marker.minimum_crate_patch as int,
            )
            &&& migration@.compatibility.maximum is None
            &&& marker.rolling_compatible == migration@.rolling_compatible
        },
{
}

} // verus!
