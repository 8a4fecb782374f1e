//! The constraints and indexes that schema version 2 consists of, and what a
//! catalog row must show to be one of them.

use crate::postgres::schema::normalization::{normalize_sql, normalized};
use crate::text::{is_text, optional_text, same_text, texts};
use vstd::prelude::*;

verus! {

/// A constraint as the catalog shows it.
#[derive(Debug)]
pub struct ConstraintInfo {
    pub table_name: String,
    pub name: String,
    pub kind: String,
    pub columns: Vec<String>,
    pub referenced_table: Option<String>,
    pub referenced_columns: Vec<String>,
    pub delete_action: Option<String>,
    pub validated: bool,
    pub deferrable: bool,
    pub deferred: bool,
    pub definition: String,
}

/// A constraint as the schema demands it. A definition counts by its normal
/// form, and any of the listed variants will do.
#[derive(Debug)]
pub struct ConstraintContract {
    pub name: &'static str,
    pub table_name: &'static str,
    pub kind: &'static str,
    pub columns: &'static [&'static str],
    pub referenced_table: Option<&'static str>,
    pub referenced_columns: &'static [&'static str],
    pub delete_action: Option<&'static str>,
    pub definition_variants: &'static [&'static str],
}

/// The mathematical content of a constraint contract.
pub ghost struct ContractView {
    pub name: Seq<char>,
    pub table_name: Seq<char>,
    pub kind: Seq<char>,
    pub columns: Seq<Seq<char>>,
    pub referenced_table: Option<Seq<char>>,
    pub referenced_columns: Seq<Seq<char>>,
    pub delete_action: Option<Seq<char>>,
    pub definitions: Seq<Seq<char>>,
}

/// The texts of a list of literals.
pub open spec fn words(list: &'static [&'static str]) -> Seq<Seq<char>> {
    list@.map_values(|text: &'static str| text@)
}

/// The view of an optional literal.
pub open spec fn optional_word(value: Option<&'static str>) -> Option<Seq<char>> {
    match value {
        Some(text) => Some(text@),
        None => None,
    }
}

impl View for ConstraintContract {
    type V = ContractView;

    open spec fn view(&self) -> ContractView {
        ContractView {
            name: self.name@,
            table_name: self.table_name@,
            kind: self.kind@,
            columns: words(self.columns),
            referenced_table: optional_word(self.referenced_table),
            referenced_columns: words(self.referenced_columns),
            delete_action: optional_word(self.delete_action),
            definitions: words(self.definition_variants),
        }
    }
}

/// A contract of the given kind that refers to no other table.
pub open spec fn local_contract(
    kind: Seq<char>,
    name: Seq<char>,
    table_name: Seq<char>,
    columns: Seq<Seq<char>>,
    definitions: Seq<Seq<char>>,
) -> ContractView {
    ContractView {
        name,
        table_name,
        kind,
        columns,
        referenced_table: None,
        referenced_columns: Seq::empty(),
        delete_action: None,
        definitions,
    }
}

/// A check constraint with one definition.
pub open spec fn checked(
    name: Seq<char>,
    table_name: Seq<char>,
    definition: Seq<char>,
) -> ContractView {
    local_contract("c"@, name, table_name, Seq::empty(), seq![definition])
}

/// A key constraint with one definition.
pub open spec fn keyed(
    kind: Seq<char>,
    name: Seq<char>,
    table_name: Seq<char>,
    columns: Seq<Seq<char>>,
    definition: Seq<char>,
) -> ContractView {
    local_contract(kind, name, table_name, columns, seq![definition])
}

impl ConstraintContract {
    /// Demands a check constraint.
    pub fn check(
        name: &'static str,
        table_name: &'static str,
        definition_variants: &'static [&'static str],
    ) -> (contract: ConstraintContract)
        ensures
            contract@ == local_contract(
                "c"@,
                name@,
                table_name@,
                Seq::empty(),
                words(definition_variants),
            ),
    {
        let contract = ConstraintContract {
            name,
            table_name,
            kind: "c",
            columns: &[],
            referenced_table: None,
            referenced_columns: &[],
            delete_action: None,
            definition_variants,
        };
        assert(contract@.columns =~= Seq::<Seq<char>>::empty());
        assert(contract@.referenced_columns =~= Seq::<Seq<char>>::empty());
        contract
    }

    /// Demands a primary key.
    pub fn primary_key(
        name: &'static str,
        table_name: &'static str,
        columns: &'static [&'static str],
        definition_variants: &'static [&'static str],
    ) -> (contract: ConstraintContract)
        ensures
            contract@ == local_contract(
                "p"@,
                name@,
                table_name@,
                words(columns),
                words(definition_variants),
            ),
    {
        let contract = ConstraintContract {
            name,
            table_name,
            kind: "p",
            columns,
            referenced_table: None,
            referenced_columns: &[],
            delete_action: None,
            definition_variants,
        };
        assert(contract@.referenced_columns =~= Seq::<Seq<char>>::empty());
        contract
    }

    /// Demands a unique constraint.
    pub fn unique(
        name: &'static str,
        table_name: &'static str,
        columns: &'static [&'static str],
        definition_variants: &'static [&'static str],
    ) -> (contract: ConstraintContract)
        ensures
            contract@ == local_contract(
                "u"@,
                name@,
                table_name@,
                words(columns),
                words(definition_variants),
            ),
    {
        let contract = ConstraintContract {
            name,
            table_name,
            kind: "u",
            columns,
            referenced_table: None,
            referenced_columns: &[],
            delete_action: None,
            definition_variants,
        };
        assert(contract@.referenced_columns =~= Seq::<Seq<char>>::empty());
        contract
    }

    /// Demands a foreign key.
    pub fn foreign_key(
        name: &'static str,
        table_name: &'static str,
        columns: &'static [&'static str],
        referenced_table: &'static str,
        referenced_columns: &'static [&'static str],
        delete_action: &'static str,
        definition_variants: &'static [&'static str],
    ) -> (contract: ConstraintContract)
        ensures
            contract@ == (ContractView {
                name: name@,
                table_name: table_name@,
                kind: "f"@,
                columns: words(columns),
                referenced_table: Some(referenced_table@),
                referenced_columns: words(referenced_columns),
                delete_action: Some(delete_action@),
                definitions: words(definition_variants),
            }),
    {
        ConstraintContract {
            name,
            table_name,
            kind: "f",
            columns,
            referenced_table: Some(referenced_table),
            referenced_columns,
            delete_action: Some(delete_action),
            definition_variants,
        }
    }
}

/// Whether a list of texts and a list of literals hold the same texts.
fn same_words(actual: &Vec<String>, expected: &'static [&'static str]) -> (same: bool)
    ensures
        same == (texts(actual@) == words(expected)),
{
    let ghost left = texts(actual@);
    let ghost right = words(expected);
    if actual.len() != expected.len() {
        assert(left.len() != right.len());
        return false;
    }
    let mut index: usize = 0;
    while index < actual.len()
        invariant
            actual@.len() == expected@.len(),
            left == texts(actual@),
            right == words(expected),
            index <= actual@.len(),
            forall|i: int| 0 <= i < index ==> left[i] == right[i],
        decreases actual@.len() - index,
    {
        if !same_text(actual[index].as_str(), expected[index]) {
            assert(left[index as int] != right[index as int]);
            return false;
        }
        index = index + 1;
    }
    assert(left =~= right);
    true
}

fn same_optional_word(actual: &Option<String>, expected: Option<&'static str>) -> (same: bool)
    ensures
        same == (optional_text(*actual) == optional_word(expected)),
{
    match expected {
        Some(text) => is_text(actual, text),
        None => actual.is_none(),
    }
}

/// Whether some definition has the same normal form as `actual`.
pub open spec fn defined_as(definitions: Seq<Seq<char>>, actual: Seq<char>) -> bool {
    exists|i: int|
        0 <= i < definitions.len() && normalized(actual) == normalized(#[trigger] definitions[i])
}

/// Whether a catalog constraint is the demanded one: the same table, kind,
/// columns and reference, validated, not deferrable, and defined by one of the
/// variants. The columns of a check are left to its definition.
pub open spec fn constraint_matches(actual: ConstraintInfo, expected: ContractView) -> bool {
    &&& actual.table_name@ == expected.table_name
    &&& actual.kind@ == expected.kind
    &&& actual.kind@ == "c"@ || texts(actual.columns@) == expected.columns
    &&& optional_text(actual.referenced_table) == expected.referenced_table
    &&& texts(actual.referenced_columns@) == expected.referenced_columns
    &&& optional_text(actual.delete_action) == expected.delete_action
    &&& actual.validated
    &&& !actual.deferrable
    &&& !actual.deferred
    &&& defined_as(expected.definitions, actual.definition@)
}

impl ConstraintInfo {
    /// Whether this catalog constraint is the demanded one.
    pub fn matches(&self, expected: &ConstraintContract) -> (matches: bool)
        ensures
            matches == constraint_matches(*self, expected@),
    {
        let definition = normalize_sql(self.definition.as_str());
        let ghost definitions = expected@.definitions;
        let mut defined = false;
        let mut index: usize = 0;
        while index < expected.definition_variants.len()
            invariant
                definitions == words(expected.definition_variants),
                definition@ == normalized(self.definition@),
                index <= definitions.len(),
                definitions.len() == expected.definition_variants@.len(),
                defined == exists|i: int|
                    0 <= i < index && normalized(self.definition@) == normalized(
                        #[trigger] definitions[i],
                    ),
            decreases definitions.len() - index,
        {
            let variant = normalize_sql(expected.definition_variants[index]);
            assert(definitions[index as int] == expected.definition_variants@[index as int]@);
            if same_text(definition.as_str(), variant.as_str()) {
                defined = true;
            }
            index = index + 1;
        }
        let columns_match = same_text(self.kind.as_str(), "c") || same_words(
            &self.columns,
            expected.columns,
        );
        same_text(self.table_name.as_str(), expected.table_name) && same_text(
            self.kind.as_str(),
            expected.kind,
        ) && columns_match && same_optional_word(&self.referenced_table, expected.referenced_table)
            && same_words(&self.referenced_columns, expected.referenced_columns)
            && same_optional_word(&self.delete_action, expected.delete_action) && self.validated
            && !self.deferrable && !self.deferred && defined
    }
}

/// An index as the catalog shows it.
#[derive(Debug)]
pub struct IndexInfo {
    pub table_name: String,
    pub name: String,
    pub access_method: String,
    pub is_unique: bool,
    pub is_valid: bool,
    pub is_ready: bool,
    pub has_predicate: bool,
    pub key_columns: i16,
    pub total_columns: i16,
    pub options: Vec<i16>,
    pub columns: Vec<String>,
    pub collations: Vec<String>,
}

/// An index as the schema demands it.
#[derive(Debug)]
pub struct IndexContract {
    pub name: &'static str,
    pub table_name: &'static str,
    pub is_unique: bool,
    pub columns: &'static [&'static str],
    pub collations: Option<&'static [&'static str]>,
}

/// The mathematical content of an index contract.
pub ghost struct IndexView {
    pub name: Seq<char>,
    pub table_name: Seq<char>,
    pub is_unique: bool,
    pub columns: Seq<Seq<char>>,
    pub collations: Option<Seq<Seq<char>>>,
}

impl View for IndexContract {
    type V = IndexView;

    open spec fn view(&self) -> IndexView {
        IndexView {
            name: self.name@,
            table_name: self.table_name@,
            is_unique: self.is_unique,
            columns: words(self.columns),
            collations: match self.collations {
                Some(collations) => Some(words(collations)),
                None => None,
            },
        }
    }
}

impl IndexContract {
    /// Demands an index.
    pub fn new(
        name: &'static str,
        table_name: &'static str,
        is_unique: bool,
        columns: &'static [&'static str],
        collations: Option<&'static [&'static str]>,
    ) -> (contract: IndexContract)
        ensures
            contract@ == (IndexView {
                name: name@,
                table_name: table_name@,
                is_unique,
                columns: words(columns),
                collations: match collations {
                    Some(collations) => Some(words(collations)),
                    None => None,
                },
            }),
    {
        IndexContract { name, table_name, is_unique, columns, collations }
    }
}

/// The number of columns as the catalog counts them, saturated.
pub open spec fn catalog_count(columns: nat) -> int {
    if columns <= i16::MAX {
        columns as int
    } else {
        i16::MAX as int
    }
}

/// Whether a catalog index is the demanded one: a valid, ready and total B-tree
/// over exactly the demanded columns in ascending order, with the demanded
/// uniqueness and collations.
pub open spec fn index_matches(actual: IndexInfo, expected: IndexView) -> bool {
    &&& actual.table_name@ == expected.table_name
    &&& actual.access_method@ == "btree"@
    &&& actual.is_unique == expected.is_unique
    &&& actual.is_valid
    &&& actual.is_ready
    &&& !actual.has_predicate
    &&& actual.key_columns == catalog_count(expected.columns.len())
    &&& actual.total_columns == actual.key_columns
    &&& actual.options@.len() == expected.columns.len()
    &&& forall|i: int| 0 <= i < actual.options@.len() ==> #[trigger] actual.options@[i] == 0
    &&& texts(actual.columns@) == expected.columns
    &&& expected.collations is Some ==> texts(actual.collations@) == expected.collations->0
}

impl IndexInfo {
    /// Whether this catalog index is the demanded one.
    pub fn matches(&self, expected: &IndexContract) -> (matches: bool)
        ensures
            matches == index_matches(*self, expected@),
    {
        let count: i16 = if expected.columns.len() <= 32767 {
            expected.columns.len() as i16
        } else {
            32767
        };
        let mut plain = self.options.len() == expected.columns.len();
        let mut index: usize = 0;
        while index < self.options.len()
            invariant
                index <= self.options@.len(),
                plain == (self.options@.len() == expected.columns@.len() && forall|i: int|
                    0 <= i < index ==> #[trigger] self.options@[i] == 0),
            decreases self.options@.len() - index,
        {
            if self.options[index] != 0 {
                plain = false;
            }
            index = index + 1;
        }
        let collated = match expected.collations {
            Some(collations) => same_words(&self.collations, collations),
            None => true,
        };
        same_text(self.table_name.as_str(), expected.table_name) && same_text(
            self.access_method.as_str(),
            "btree",
        ) && self.is_unique == expected.is_unique && self.is_valid && self.is_ready
            && !self.has_predicate && self.key_columns == count && self.total_columns
            == self.key_columns && plain && same_words(&self.columns, expected.columns) && collated
    }
}

/// The constraints of schema version 2.
pub open spec fn demanded_constraints() -> Seq<ContractView> {
    seq![
        checked("dovecote_schema_version_supported"@, "dovecote_schema"@, "CHECK ((schema_version = 2))"@),
        checked("dovecote_schema_minimum_nonnegative"@, "dovecote_schema"@, "CHECK (((minimum_crate_major >= 0) AND (minimum_crate_minor >= 0) AND (minimum_crate_patch >= 0)))"@),
        keyed("p"@, "dovecote_schema_pkey"@, "dovecote_schema"@, seq!["schema_version"@], "PRIMARY KEY (schema_version)"@),
        checked("dovecote_events_row_id_positive"@, "dovecote_events"@, "CHECK ((row_id > 0))"@),
        checked("dovecote_events_tenant_size"@, "dovecote_events"@, "CHECK ((octet_length((tenant_id)) <= 255))"@),
        checked("dovecote_events_tenant_nonempty"@, "dovecote_events"@, "CHECK ((octet_length((tenant_id)) > 0))"@),
        keyed("p"@, "dovecote_events_pkey"@, "dovecote_events"@, seq!["row_id"@], "PRIMARY KEY (row_id)"@),
        keyed("u"@, "dovecote_events_tenant_row_unique"@, "dovecote_events"@, seq!["tenant_id"@, "row_id"@], "UNIQUE (tenant_id, row_id)"@),
        checked("dovecote_events_specversion"@, "dovecote_events"@, "CHECK (((specversion) = '1.0'))"@),
        checked("dovecote_events_stream_size"@, "dovecote_events"@, "CHECK ((octet_length((stream)) <= 255))"@),
        checked("dovecote_events_event_id_size"@, "dovecote_events"@, "CHECK ((octet_length((event_id)) <= 1024))"@),
        checked("dovecote_events_source_size"@, "dovecote_events"@, "CHECK ((octet_length((source)) <= 2048))"@),
        checked("dovecote_events_event_type_size"@, "dovecote_events"@, "CHECK ((octet_length((event_type)) <= 1024))"@),
        checked("dovecote_events_subject_size"@, "dovecote_events"@, "CHECK (((subject IS NULL) OR (octet_length((subject)) <= 2048)))"@),
        checked("dovecote_events_content_type_size"@, "dovecote_events"@, "CHECK (((datacontenttype IS NULL) OR (octet_length((datacontenttype)) <= 255)))"@),
        checked("dovecote_events_schema_size"@, "dovecote_events"@, "CHECK (((dataschema IS NULL) OR (octet_length((dataschema)) <= 2048)))"@),
        checked("dovecote_events_partition_size"@, "dovecote_events"@, "CHECK (((partitionkey IS NULL) OR (octet_length((partitionkey)) <= 255)))"@),
        checked("dovecote_events_identity_size"@, "dovecote_events"@, "CHECK (((octet_length((source)) + octet_length((event_id))) <= 2048))"@),
        checked("dovecote_events_data_kind"@, "dovecote_events"@, "CHECK (((data_kind IS NULL) OR ((data_kind) = ANY ((ARRAY['json', 'binary'])))))"@),
        checked("dovecote_events_data_pair"@, "dovecote_events"@, "CHECK (((data_kind IS NULL) = (data IS NULL)))"@),
        checked("dovecote_events_content_type"@, "dovecote_events"@, "CHECK (((data IS NULL) OR (octet_length(data) = 0) OR (datacontenttype IS NOT NULL)))"@),
        checked("dovecote_deliveries_state"@, "dovecote_deliveries"@, "CHECK (((state) = ANY ((ARRAY['pending', 'claimed', 'delivered', 'quarantined']))))"@),
        checked("dovecote_deliveries_tenant_size"@, "dovecote_deliveries"@, "CHECK ((octet_length((tenant_id)) <= 255))"@),
        checked("dovecote_deliveries_tenant_nonempty"@, "dovecote_deliveries"@, "CHECK ((octet_length((tenant_id)) > 0))"@),
        keyed("p"@, "dovecote_deliveries_pkey"@, "dovecote_deliveries"@, seq!["event_row_id"@], "PRIMARY KEY (event_row_id)"@),
        checked("dovecote_deliveries_attempts"@, "dovecote_deliveries"@, "CHECK ((attempts >= 0))"@),
        checked("dovecote_deliveries_token_size"@, "dovecote_deliveries"@, "CHECK (((claim_token IS NULL) OR (octet_length(claim_token) = 16)))"@),
        checked("dovecote_deliveries_worker_size"@, "dovecote_deliveries"@, "CHECK (((claimed_by IS NULL) OR (octet_length((claimed_by)) <= 255)))"@),
        checked("dovecote_deliveries_failure_code_size"@, "dovecote_deliveries"@, "CHECK (((last_failure_code IS NULL) OR (octet_length((last_failure_code)) <= 128)))"@),
        checked("dovecote_deliveries_failure_detail_size"@, "dovecote_deliveries"@, "CHECK (((last_failure_detail IS NULL) OR (octet_length((last_failure_detail)) <= 2048)))"@),
        checked("dovecote_deliveries_quarantine_size"@, "dovecote_deliveries"@, "CHECK (((quarantine_reason IS NULL) OR (octet_length((quarantine_reason)) <= 2048)))"@),
        checked("dovecote_deliveries_failure_pair"@, "dovecote_deliveries"@, "CHECK (((last_failure_code IS NULL) = (last_failure_detail IS NULL)))"@),
        checked("dovecote_deliveries_state_shape"@, "dovecote_deliveries"@, "CHECK (((((state) = 'pending') AND (claim_token IS NULL) AND (claimed_by IS NULL) AND (claim_expires_at IS NULL) AND (delivered_at IS NULL) AND (quarantined_at IS NULL) AND (quarantine_reason IS NULL)) OR (((state) = 'claimed') AND (claim_token IS NOT NULL) AND (claimed_by IS NOT NULL) AND (claim_expires_at IS NOT NULL) AND (delivered_at IS NULL) AND (quarantined_at IS NULL) AND (quarantine_reason IS NULL)) OR (((state) = 'delivered') AND (claim_token IS NULL) AND (claimed_by IS NULL) AND (claim_expires_at IS NULL) AND (delivered_at IS NOT NULL) AND (quarantined_at IS NULL) AND (quarantine_reason IS NULL)) OR (((state) = 'quarantined') AND (claim_token IS NULL) AND (claimed_by IS NULL) AND (claim_expires_at IS NULL) AND (delivered_at IS NULL) AND (quarantined_at IS NOT NULL) AND (quarantine_reason IS NOT NULL))))"@),
        ContractView {
            name: "dovecote_deliveries_event_fk"@,
            table_name: "dovecote_deliveries"@,
            kind: "f"@,
            columns: seq!["tenant_id"@, "event_row_id"@],
            referenced_table: Some("dovecote_events"@),
            referenced_columns: seq!["tenant_id"@, "row_id"@],
            delete_action: Some("r"@),
            definitions: seq!["FOREIGN KEY (tenant_id, event_row_id) REFERENCES dovecote_events (tenant_id, row_id) ON DELETE RESTRICT"@],
        },
    ]
}

/// The views of a list of constraint contracts.
pub open spec fn contract_views(list: Seq<ConstraintContract>) -> Seq<ContractView> {
    list.map_values(|contract: ConstraintContract| contract@)
}

/// The constraints of schema version 2.
#[verifier::rlimit(60)]
pub fn expected_constraints() -> (list: Vec<ConstraintContract>)
    ensures
        contract_views(list@) == demanded_constraints(),
{
    let list = vec![
        ConstraintContract::check(
            "dovecote_schema_version_supported",
            "dovecote_schema",
            &["CHECK ((schema_version = 2))"],
        ),
        ConstraintContract::check(
            "dovecote_schema_minimum_nonnegative",
            "dovecote_schema",
            &["CHECK (((minimum_crate_major >= 0) AND (minimum_crate_minor >= 0) AND (minimum_crate_patch >= 0)))"],
        ),
        ConstraintContract::primary_key(
            "dovecote_schema_pkey",
            "dovecote_schema",
            &["schema_version"],
            &["PRIMARY KEY (schema_version)"],
        ),
        ConstraintContract::check(
            "dovecote_events_row_id_positive",
            "dovecote_events",
            &["CHECK ((row_id > 0))"],
        ),
        ConstraintContract::check(
            "dovecote_events_tenant_size",
            "dovecote_events",
            &["CHECK ((octet_length((tenant_id)) <= 255))"],
        ),
        ConstraintContract::check(
            "dovecote_events_tenant_nonempty",
            "dovecote_events",
            &["CHECK ((octet_length((tenant_id)) > 0))"],
        ),
        ConstraintContract::primary_key(
            "dovecote_events_pkey",
            "dovecote_events",
            &["row_id"],
            &["PRIMARY KEY (row_id)"],
        ),
        ConstraintContract::unique(
            "dovecote_events_tenant_row_unique",
            "dovecote_events",
            &["tenant_id", "row_id"],
            &["UNIQUE (tenant_id, row_id)"],
        ),
        ConstraintContract::check(
            "dovecote_events_specversion",
            "dovecote_events",
            &["CHECK (((specversion) = '1.0'))"],
        ),
        ConstraintContract::check(
            "dovecote_events_stream_size",
            "dovecote_events",
            &["CHECK ((octet_length((stream)) <= 255))"],
        ),
        ConstraintContract::check(
            "dovecote_events_event_id_size",
            "dovecote_events",
            &["CHECK ((octet_length((event_id)) <= 1024))"],
        ),
        ConstraintContract::check(
            "dovecote_events_source_size",
            "dovecote_events",
            &["CHECK ((octet_length((source)) <= 2048))"],
        ),
        ConstraintContract::check(
            "dovecote_events_event_type_size",
            "dovecote_events",
            &["CHECK ((octet_length((event_type)) <= 1024))"],
        ),
        ConstraintContract::check(
            "dovecote_events_subject_size",
            "dovecote_events",
            &["CHECK (((subject IS NULL) OR (octet_length((subject)) <= 2048)))"],
        ),
        ConstraintContract::check(
            "dovecote_events_content_type_size",
            "dovecote_events",
            &["CHECK (((datacontenttype IS NULL) OR (octet_length((datacontenttype)) <= 255)))"],
        ),
        ConstraintContract::check(
            "dovecote_events_schema_size",
            "dovecote_events",
            &["CHECK (((dataschema IS NULL) OR (octet_length((dataschema)) <= 2048)))"],
        ),
        ConstraintContract::check(
            "dovecote_events_partition_size",
            "dovecote_events",
            &["CHECK (((partitionkey IS NULL) OR (octet_length((partitionkey)) <= 255)))"],
        ),
        ConstraintContract::check(
            "dovecote_events_identity_size",
            "dovecote_events",
            &["CHECK (((octet_length((source)) + octet_length((event_id))) <= 2048))"],
        ),
        ConstraintContract::check(
            "dovecote_events_data_kind",
            "dovecote_events",
            &["CHECK (((data_kind IS NULL) OR ((data_kind) = ANY ((ARRAY['json', 'binary'])))))"],
        ),
        ConstraintContract::check(
            "dovecote_events_data_pair",
            "dovecote_events",
            &["CHECK (((data_kind IS NULL) = (data IS NULL)))"],
        ),
        ConstraintContract::check(
            "dovecote_events_content_type",
            "dovecote_events",
            &["CHECK (((data IS NULL) OR (octet_length(data) = 0) OR (datacontenttype IS NOT NULL)))"],
        ),
        ConstraintContract::check(
            "dovecote_deliveries_state",
            "dovecote_deliveries",
            &["CHECK (((state) = ANY ((ARRAY['pending', 'claimed', 'delivered', 'quarantined']))))"],
        ),
        ConstraintContract::check(
            "dovecote_deliveries_tenant_size",
            "dovecote_deliveries",
            &["CHECK ((octet_length((tenant_id)) <= 255))"],
        ),
        ConstraintContract::check(
            "dovecote_deliveries_tenant_nonempty",
            "dovecote_deliveries",
            &["CHECK ((octet_length((tenant_id)) > 0))"],
        ),
        ConstraintContract::primary_key(
            "dovecote_deliveries_pkey",
            "dovecote_deliveries",
            &["event_row_id"],
            &["PRIMARY KEY (event_row_id)"],
        ),
        ConstraintContract::check(
            "dovecote_deliveries_attempts",
            "dovecote_deliveries",
            &["CHECK ((attempts >= 0))"],
        ),
        ConstraintContract::check(
            "dovecote_deliveries_token_size",
            "dovecote_deliveries",
            &["CHECK (((claim_token IS NULL) OR (octet_length(claim_token) = 16)))"],
        ),
        ConstraintContract::check(
            "dovecote_deliveries_worker_size",
            "dovecote_deliveries",
            &["CHECK (((claimed_by IS NULL) OR (octet_length((claimed_by)) <= 255)))"],
        ),
        ConstraintContract::check(
            "dovecote_deliveries_failure_code_size",
            "dovecote_deliveries",
            &["CHECK (((last_failure_code IS NULL) OR (octet_length((last_failure_code)) <= 128)))"],
        ),
        ConstraintContract::check(
            "dovecote_deliveries_failure_detail_size",
            "dovecote_deliveries",
            &["CHECK (((last_failure_detail IS NULL) OR (octet_length((last_failure_detail)) <= 2048)))"],
        ),
        ConstraintContract::check(
            "dovecote_deliveries_quarantine_size",
            "dovecote_deliveries",
            &["CHECK (((quarantine_reason IS NULL) OR (octet_length((quarantine_reason)) <= 2048)))"],
        ),
        ConstraintContract::check(
            "dovecote_deliveries_failure_pair",
            "dovecote_deliveries",
            &["CHECK (((last_failure_code IS NULL) = (last_failure_detail IS NULL)))"],
        ),
        ConstraintContract::check(
            "dovecote_deliveries_state_shape",
            "dovecote_deliveries",
            &["CHECK (((((state) = 'pending') AND (claim_token IS NULL) AND (claimed_by IS NULL) AND (claim_expires_at IS NULL) AND (delivered_at IS NULL) AND (quarantined_at IS NULL) AND (quarantine_reason IS NULL)) OR (((state) = 'claimed') AND (claim_token IS NOT NULL) AND (claimed_by IS NOT NULL) AND (claim_expires_at IS NOT NULL) AND (delivered_at IS NULL) AND (quarantined_at IS NULL) AND (quarantine_reason IS NULL)) OR (((state) = 'delivered') AND (claim_token IS NULL) AND (claimed_by IS NULL) AND (claim_expires_at IS NULL) AND (delivered_at IS NOT NULL) AND (quarantined_at IS NULL) AND (quarantine_reason IS NULL)) OR (((state) = 'quarantined') AND (claim_token IS NULL) AND (claimed_by IS NULL) AND (claim_expires_at IS NULL) AND (delivered_at IS NULL) AND (quarantined_at IS NOT NULL) AND (quarantine_reason IS NOT NULL))))"],
        ),
        ConstraintContract::foreign_key(
            "dovecote_deliveries_event_fk",
            "dovecote_deliveries",
            &["tenant_id", "event_row_id"],
            "dovecote_events",
            &["tenant_id", "row_id"],
            "r",
            &["FOREIGN KEY (tenant_id, event_row_id) REFERENCES dovecote_events (tenant_id, row_id) ON DELETE RESTRICT"],
        ),
    ];
    let ghost actual = contract_views(list@);
    let ghost expected = demanded_constraints();
    assert(actual.len() == 34 && expected.len() == 34);
    assert forall|i: int| 0 <= i < 34 implies actual[i] == expected[i] by {
        assert(actual[i] == list@[i]@);
        assert(actual[i].columns =~= expected[i].columns);
        assert(actual[i].referenced_columns =~= expected[i].referenced_columns);
        assert(actual[i].definitions =~= expected[i].definitions);
    }
    assert(actual =~= expected);
    list
}

/// The indexes of schema version 2 that no constraint owns.
pub open spec fn demanded_indexes() -> Seq<IndexView> {
    seq![
        IndexView {
            name: "dovecote_events_tenant_source_event_id"@,
            table_name: "dovecote_events"@,
            is_unique: true,
            columns: seq!["tenant_id"@, "source"@, "event_id"@],
            collations: Some(seq!["C"@, "C"@, "C"@]),
        },
        IndexView {
            name: "dovecote_deliveries_claimable"@,
            table_name: "dovecote_deliveries"@,
            is_unique: false,
            columns: seq!["tenant_id"@, "state"@, "available_at"@, "event_row_id"@],
            collations: Some(seq!["C"@, "default"@, "default"@, "default"@]),
        },
        IndexView {
            name: "dovecote_deliveries_expired_claims"@,
            table_name: "dovecote_deliveries"@,
            is_unique: false,
            columns: seq!["tenant_id"@, "state"@, "claim_expires_at"@, "event_row_id"@],
            collations: Some(seq!["C"@, "default"@, "default"@, "default"@]),
        },
    ]
}

/// The views of a list of index contracts.
pub open spec fn index_views(list: Seq<IndexContract>) -> Seq<IndexView> {
    list.map_values(|contract: IndexContract| contract@)
}

/// The indexes of schema version 2 that no constraint owns.
pub fn expected_indexes() -> (list: Vec<IndexContract>)
    ensures
        index_views(list@) == demanded_indexes(),
{
    let list = vec![
        IndexContract::new(
            "dovecote_events_tenant_source_event_id",
            "dovecote_events",
            true,
            &["tenant_id", "source", "event_id"],
            Some(&["C", "C", "C"]),
        ),
        IndexContract::new(
            "dovecote_deliveries_claimable",
            "dovecote_deliveries",
            false,
            &["tenant_id", "state", "available_at", "event_row_id"],
            Some(&["C", "default", "default", "default"]),
        ),
        IndexContract::new(
            "dovecote_deliveries_expired_claims",
            "dovecote_deliveries",
            false,
            &["tenant_id", "state", "claim_expires_at", "event_row_id"],
            Some(&["C", "default", "default", "default"]),
        ),
    ];
    let ghost actual = index_views(list@);
    let ghost expected = demanded_indexes();
    assert forall|i: int| 0 <= i < 3 implies actual[i] == expected[i] by {
        assert(actual[i] == list@[i]@);
        assert(actual[i].columns =~= expected[i].columns);
        assert(actual[i].collations->0 =~= expected[i].collations->0);
    }
    assert(actual =~= expected);
    list
}

} // verus!
