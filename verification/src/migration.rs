//! Versioned migration metadata shared by both adapters.

use vstd::prelude::*;

verus! {

/// Schema version adapters compare before using these migration artifacts.
pub const SCHEMA_VERSION: u32 = 2;

/// Numeric crate version used to evaluate migration compatibility without
/// parsing free-form requirement strings. It is viewed as its three components
/// in order of significance.
#[derive(Clone, Copy, Debug, PartialEq, Eq, PartialOrd, Ord, Structural)]
pub struct CrateVersion {
    major: u16,
    minor: u16,
    patch: u16,
}

impl View for CrateVersion {
    type V = (int, int, int);

    closed spec fn view(&self) -> (int, int, int) {
        (self.major as int, self.minor as int, self.patch as int)
    }
}

/// Whether one version precedes another, by the first component that differs.
pub open spec fn precedes(left: (int, int, int), right: (int, int, int)) -> bool {
    ||| left.0 < right.0
    ||| left.0 == right.0 && left.1 < right.1
    ||| left.0 == right.0 && left.1 == right.1 && left.2 < right.2
}

impl CrateVersion {
    /// Creates a comparable semantic version from numeric components.
    pub fn new(major: u16, minor: u16, patch: u16) -> (version: CrateVersion)
        ensures
            version@ == (major as int, minor as int, patch as int),
    {
        CrateVersion { major, minor, patch }
    }

    /// Returns the major component.
    pub fn major(self) -> (major: u16)
        ensures
            major == self@.0,
    {
        self.major
    }

    /// Returns the minor component.
    pub fn minor(self) -> (minor: u16)
        ensures
            minor == self@.1,
    {
        self.minor
    }

    /// Returns the patch component.
    pub fn patch(self) -> (patch: u16)
        ensures
            patch == self@.2,
    {
        self.patch
    }

    /// Whether this version precedes another.
    pub fn is_less_than(self, other: CrateVersion) -> (less: bool)
        ensures
            less == precedes(self@, other@),
    {
        self.major < other.major || (self.major == other.major && (self.minor < other.minor || (
        self.minor == other.minor && self.patch < other.patch)))
    }
}

/// Two versions with the same components are the same version.
pub proof fn version_is_its_components(left: CrateVersion, right: CrateVersion)
    ensures
        left == right <==> left@ == right@,
{
}

/// Versions are totally ordered: of two different versions exactly one precedes
/// the other, and precedence carries over.
pub proof fn versions_are_totally_ordered(
    first: CrateVersion,
    second: CrateVersion,
    third: CrateVersion,
)
    ensures
        !precedes(first@, first@),
        first != second ==> (precedes(first@, second@) != precedes(second@, first@)),
        precedes(first@, second@) && precedes(second@, third@) ==> precedes(first@, third@),
{
}

/// The version of this crate. It is the `version` of the package in `Cargo.toml`;
/// the two change together.
pub fn current_crate_version() -> (version: CrateVersion)
    ensures
        version@ == (0int, 2int, 0int),
{
    CrateVersion::new(0, 2, 0)
}

/// Returned when a migration's maximum supported release precedes its minimum.
#[derive(Clone, Copy, Debug, PartialEq, Eq, Structural)]
pub struct MigrationCompatibilityError;

impl MigrationCompatibilityError {
    /// The message of the error.
    pub fn message(self) -> (message: &'static str)
        ensures
            message@ == "migration compatibility maximum precedes minimum"@,
    {
        "migration compatibility maximum precedes minimum"
    }
}

/// A checked crate-version range for a migration artifact.
///
/// Use [`Self::contains`] when deciding whether the running adapter may apply it.
#[derive(Clone, Copy, Debug, PartialEq, Eq, Structural)]
pub struct MigrationCompatibility {
    minimum: CrateVersion,
    maximum: Option<CrateVersion>,
}

/// A version range: its minimum and, if it is bounded, its maximum.
pub ghost struct VersionRange {
    pub minimum: (int, int, int),
    pub maximum: Option<(int, int, int)>,
}

impl View for MigrationCompatibility {
    type V = VersionRange;

    closed spec fn view(&self) -> VersionRange {
        VersionRange {
            minimum: self.minimum@,
            maximum: match self.maximum {
                Some(maximum) => Some(maximum@),
                None => None,
            },
        }
    }
}

/// The view of an optional version.
pub open spec fn optional_version(version: Option<CrateVersion>) -> Option<(int, int, int)> {
    match version {
        Some(version) => Some(version@),
        None => None,
    }
}

/// Whether a version lies within an inclusive range.
pub open spec fn in_range(range: VersionRange, version: (int, int, int)) -> bool {
    &&& !precedes(version, range.minimum)
    &&& range.maximum is Some ==> !precedes(range.maximum->0, version)
}

impl MigrationCompatibility {
    /// Whether the range is not empty: its maximum does not precede its minimum.
    #[verifier::type_invariant]
    closed spec fn ordered(self) -> bool {
        self.maximum is Some ==> !precedes(self.maximum->0@, self.minimum@)
    }

    /// A range whose bounds are known to be in order.
    pub(crate) fn new(minimum: CrateVersion, maximum: Option<CrateVersion>) -> (range:
        MigrationCompatibility)
        requires
            maximum is Some ==> !precedes(maximum->0@, minimum@),
        ensures
            range@ == (VersionRange { minimum: minimum@, maximum: optional_version(maximum) }),
    {
        MigrationCompatibility { minimum, maximum }
    }

    /// Constructs a compatibility range, rejecting a maximum below its minimum.
    pub fn try_new(minimum: CrateVersion, maximum: Option<CrateVersion>) -> (result: Result<
        MigrationCompatibility,
        MigrationCompatibilityError,
    >)
        ensures
            match result {
                Ok(range) => {
                    &&& range@ == (VersionRange {
                        minimum: minimum@,
                        maximum: optional_version(maximum),
                    })
                    &&& maximum is Some ==> !precedes(maximum->0@, minimum@)
                },
                Err(_) => maximum is Some && precedes(maximum->0@, minimum@),
            },
    {
        if let Some(maximum) = maximum {
            if maximum.is_less_than(minimum) {
                return Err(MigrationCompatibilityError);
            }
        }
        Ok(MigrationCompatibility::new(minimum, maximum))
    }

    /// Returns the minimum supported crate version.
    pub fn minimum(self) -> (minimum: CrateVersion)
        ensures
            minimum@ == self@.minimum,
    {
        self.minimum
    }

    /// Returns the optional maximum supported crate version.
    pub fn maximum(self) -> (maximum: Option<CrateVersion>)
        ensures
            optional_version(maximum) == self@.maximum,
    {
        self.maximum
    }

    /// Returns whether `version` falls within this inclusive range.
    pub fn contains(self, version: CrateVersion) -> (contained: bool)
        ensures
            contained == in_range(self@, version@),
    {
        !version.is_less_than(self.minimum) && match self.maximum {
            Some(maximum) => !maximum.is_less_than(version),
            None => true,
        }
    }

    /// Whether two ranges have the same bounds.
    pub fn same(self, other: MigrationCompatibility) -> (same: bool)
        ensures
            same == (self@ == other@),
    {
        proof {
            version_is_its_components(self.minimum, other.minimum);
            if self.maximum is Some && other.maximum is Some {
                version_is_its_components(self.maximum->0, other.maximum->0);
            }
        }
        self.minimum == other.minimum && match (self.maximum, other.maximum) {
            (Some(left), Some(right)) => left == right,
            (None, None) => true,
            _ => false,
        }
    }
}

/// A range that was accepted is never empty: it contains its minimum, and its
/// maximum where it has one.
pub proof fn accepted_ranges_contain_their_bounds(range: VersionRange)
    requires
        range.maximum is Some ==> !precedes(range.maximum->0, range.minimum),
    ensures
        in_range(range, range.minimum),
        range.maximum is Some ==> in_range(range, range.maximum->0),
{
}

/// A range holds every version between two versions that it holds.
pub proof fn ranges_have_no_gaps(
    range: VersionRange,
    low: (int, int, int),
    middle: (int, int, int),
    high: (int, int, int),
)
    requires
        in_range(range, low),
        in_range(range, high),
        !precedes(middle, low),
        !precedes(high, middle),
    ensures
        in_range(range, middle),
{
}

/// An immutable SQL artifact whose compatibility metadata cannot be fabricated
/// by callers of the adapter crate.
#[derive(Clone, Copy, Debug, PartialEq, Eq)]
pub struct Migration {
    version: u32,
    sql: &'static str,
    compatibility: MigrationCompatibility,
    rolling_compatible: bool,
}

/// The mathematical content of a migration.
pub ghost struct MigrationView {
    pub version: int,
    pub sql: Seq<char>,
    pub compatibility: VersionRange,
    pub rolling_compatible: bool,
}

impl View for Migration {
    type V = MigrationView;

    closed spec fn view(&self) -> MigrationView {
        MigrationView {
            version: self.version as int,
            sql: self.sql@,
            compatibility: self.compatibility@,
            rolling_compatible: self.rolling_compatible,
        }
    }
}

impl Migration {
    /// A migration artifact with its metadata.
    pub(crate) fn new(
        version: u32,
        sql: &'static str,
        compatibility: MigrationCompatibility,
        rolling_compatible: bool,
    ) -> (migration: Migration)
        ensures
            migration@ == (MigrationView {
                version: version as int,
                sql: sql@,
                compatibility: compatibility@,
                rolling_compatible,
            }),
    {
        Migration { version, sql, compatibility, rolling_compatible }
    }

    /// Returns the schema version represented by this migration.
    pub fn version(self) -> (version: u32)
        ensures
            version == self@.version,
    {
        self.version
    }

    /// Returns the immutable SQL text shipped for this migration.
    pub fn sql(self) -> (sql: &'static str)
        ensures
            sql@ == self@.sql,
    {
        self.sql
    }

    /// Returns the crate-version compatibility range for this migration.
    pub fn compatibility(self) -> (compatibility: MigrationCompatibility)
        ensures
            compatibility@ == self@.compatibility,
    {
        self.compatibility
    }

    /// Returns whether this migration supports rolling deployment compatibility.
    pub fn rolling_compatible(self) -> (rolling: bool)
        ensures
            rolling == self@.rolling_compatible,
    {
        self.rolling_compatible
    }
}

/// The place of a version among all versions: each component has its own sixteen
/// bits, the major one above the minor one above the patch.
pub open spec fn place(version: (int, int, int)) -> int {
    (version.0 * 65_536 + version.1) * 65_536 + version.2
}

/// A range is accepted exactly if its maximum, where it has one, is not below its
/// minimum, and it then holds exactly the versions from its minimum up to its
/// maximum, both of them included.
pub proof fn ranges_hold_the_versions_between_their_bounds(
    minimum: CrateVersion,
    maximum: Option<CrateVersion>,
    result: Result<MigrationCompatibility, MigrationCompatibilityError>,
    version: CrateVersion,
    contained: bool,
)
    requires
        call_ensures(MigrationCompatibility::try_new, (minimum, maximum), result),
        result matches Ok(range) ==> call_ensures(
            MigrationCompatibility::contains,
            (range, version),
            contained,
        ),
    ensures
        result is Ok <==> (maximum matches Some(maximum) ==> place(minimum@) <= place(maximum@)),
        result is Ok ==> (contained <==> {
            &&& place(minimum@) <= place(version@)
            &&& maximum matches Some(maximum) ==> place(version@) <= place(maximum@)
        }),
{
}

/// The order of versions is the order of their places.
pub proof fn versions_are_ordered_by_place(left: CrateVersion, right: CrateVersion, less: bool)
    requires
        call_ensures(CrateVersion::is_less_than, (left, right), less),
    ensures
        less <==> place(left@) < place(right@),
{
}

/// The parts of a version come back as they were given.
pub proof fn versions_keep_their_components(
    major: u16,
    minor: u16,
    patch: u16,
    version: CrateVersion,
    components: (u16, u16, u16),
)
    requires
        call_ensures(CrateVersion::new, (major, minor, patch), version),
        call_ensures(CrateVersion::major, (version,), components.0),
        call_ensures(CrateVersion::minor, (version,), components.1),
        call_ensures(CrateVersion::patch, (version,), components.2),
    ensures
        components == (major, minor, patch),
{
}

} // verus!
