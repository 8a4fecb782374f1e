//! The migrations of the SQLite adapter.

use crate::migration::{
    current_crate_version, in_range, CrateVersion, Migration, MigrationCompatibility,
    MigrationView, VersionRange, SCHEMA_VERSION,
};
use crate::sqlite::artifacts::{BASELINE_SQL, LEGACY_SQL};
use vstd::prelude::*;

verus! {

/// The clean-install migration, version 2.
pub open spec fn baseline() -> MigrationView {
    MigrationView {
        version: 2,
        sql: BASELINE_SQL@,
        compatibility: VersionRange { minimum: (0, 2, 0), maximum: None },
        rolling_compatible: false,
    }
}

/// The pre-tenant migration, version 1.
pub open spec fn legacy() -> MigrationView {
    MigrationView {
        version: 1,
        sql: LEGACY_SQL@,
        compatibility: VersionRange { minimum: (0, 1, 0), maximum: None },
        rolling_compatible: false,
    }
}

/// All migration artifacts shipped by this adapter, in version order.
pub fn migrations() -> (list: Vec<Migration>)
    ensures
        list@.len() == 1,
        list@[0]@ == baseline(),
{
    let compatibility = MigrationCompatibility::new(CrateVersion::new(0, 2, 0), None);
    vec![Migration::new(2, BASELINE_SQL, compatibility, false)]
}

/// The immutable schema version 1 artifact for pre-tenant deployments.
pub fn legacy_migration() -> (migration: Migration)
    ensures
        migration@ == legacy(),
{
    let compatibility = MigrationCompatibility::new(CrateVersion::new(0, 1, 0), None);
    Migration::new(1, LEGACY_SQL, compatibility, false)
}

/// The shipped migration for the schema version that this adapter works on.
pub fn current_migration() -> (result: Result<Migration, String>)
    ensures
        result is Ok,
        result->Ok_0@ == baseline(),
{
    let list = migrations();
    let mut index: usize = 0;
    while index < list.len()
        invariant
            list@.len() == 1,
            list@[0]@ == baseline(),
            index <= list@.len(),
            forall|i: int| 0 <= i < index ==> (#[trigger] list@[i])@.version != SCHEMA_VERSION,
        decreases list@.len() - index,
    {
        let migration = list[index];
        if migration.version() == SCHEMA_VERSION {
            return Ok(migration);
        }
        index = index + 1;
    }
    assert(list@[0]@.version != SCHEMA_VERSION);
    Err("adapter does not ship schema version 2".to_owned())
}

/// Why this crate cannot use a migration, if it cannot: its own version must lie
/// in the migration's range.
pub open spec fn unusable(migration: MigrationView) -> Option<Seq<char>> {
    if in_range(migration.compatibility, (0, 2, 0)) {
        None
    } else {
        Some("current crate is outside migration compatibility range"@)
    }
}

/// Checks that this crate can use a migration.
pub fn migration_is_usable(migration: Migration) -> (result: Result<(), String>)
    ensures
        match result {
            Ok(()) => unusable(migration@) is None,
            Err(detail) => unusable(migration@) == Some(detail@),
        },
{
    if !migration.compatibility().contains(current_crate_version()) {
        return Err("current crate is outside migration compatibility range".to_owned());
    }
    Ok(())
}

/// The adapter ships one migration, which creates version 2 for crates from version
/// 0.2.0 on. The artifact of version 1 is for crates from version 0.1.0 on. Neither
/// has a newest crate, and neither supports rolling deployments.
pub proof fn the_shipped_migrations(
    list: Vec<Migration>,
    current: Result<Migration, String>,
    first: Migration,
)
    requires
        call_ensures(migrations, (), list),
        call_ensures(current_migration, (), current),
        call_ensures(legacy_migration, (), first),
    ensures
        list@.len() == 1,
        list@[0]@.version == 2,
        list@[0]@.version == SCHEMA_VERSION,
        list@[0]@.sql == BASELINE_SQL@,
        list@[0]@.compatibility.minimum == (0int, 2int, 0int),
        list@[0]@.compatibility.maximum is None,
        !list@[0]@.rolling_compatible,
        current is Ok,
        current->Ok_0@ == list@[0]@,
        first@.version == 1,
        first@.sql == LEGACY_SQL@,
        first@.compatibility.minimum == (0int, 1int, 0int),
        first@.compatibility.maximum is None,
        !first@.rolling_compatible,
{
}

} // verus!
