//! The SQL artifacts that the SQLite adapter ships.

use vstd::prelude::*;

verus! {

/// The clean-install schema, version 2.
pub const BASELINE_SQL: &'static str = r#"-- Dovecote schema version 2: tenant-scoped events and deliveries.

CREATE TABLE dovecote_schema (
    schema_version INTEGER PRIMARY KEY CHECK (schema_version = 2),
    minimum_crate_major INTEGER NOT NULL CHECK (minimum_crate_major >= 0),
    minimum_crate_minor INTEGER NOT NULL CHECK (minimum_crate_minor >= 0),
    minimum_crate_patch INTEGER NOT NULL CHECK (minimum_crate_patch >= 0),
    rolling_compatible INTEGER NOT NULL CHECK (rolling_compatible IN (0, 1))
);

INSERT INTO dovecote_schema
    (schema_version, minimum_crate_major, minimum_crate_minor, minimum_crate_patch,
     rolling_compatible)
VALUES (2, 0, 2, 0, 0);

CREATE TABLE dovecote_events (
    row_id INTEGER PRIMARY KEY AUTOINCREMENT CHECK (row_id > 0),
    tenant_id TEXT NOT NULL COLLATE BINARY
        CHECK (length(CAST(tenant_id AS BLOB)) > 0)
        CHECK (length(CAST(tenant_id AS BLOB)) <= 255),
    stream TEXT NOT NULL CHECK (length(CAST(stream AS BLOB)) <= 255),
    specversion TEXT NOT NULL CHECK (specversion = '1.0'),
    event_id TEXT NOT NULL COLLATE BINARY CHECK (length(CAST(event_id AS BLOB)) <= 1024),
    source TEXT NOT NULL COLLATE BINARY CHECK (length(CAST(source AS BLOB)) <= 2048),
    event_type TEXT NOT NULL CHECK (length(CAST(event_type AS BLOB)) <= 1024),
    subject TEXT CHECK (subject IS NULL OR length(CAST(subject AS BLOB)) <= 2048),
    occurred_at TEXT,
    datacontenttype TEXT
        CHECK (datacontenttype IS NULL OR length(CAST(datacontenttype AS BLOB)) <= 255),
    dataschema TEXT CHECK (dataschema IS NULL OR length(CAST(dataschema AS BLOB)) <= 2048),
    partitionkey TEXT CHECK (partitionkey IS NULL OR length(CAST(partitionkey AS BLOB)) <= 255),
    extensions TEXT NOT NULL DEFAULT '{}',
    data_kind TEXT CHECK (data_kind IS NULL OR data_kind IN ('json', 'binary')),
    data BLOB,
    enqueued_at TEXT NOT NULL DEFAULT (strftime('%Y-%m-%dT%H:%M:%f000Z', 'now')),
    CHECK (length(CAST(source AS BLOB)) + length(CAST(event_id AS BLOB)) <= 2048),
    CHECK ((data_kind IS NULL) = (data IS NULL)),
    CHECK (data IS NULL OR length(data) = 0 OR datacontenttype IS NOT NULL),
    UNIQUE (tenant_id, row_id)
);

CREATE TABLE dovecote_deliveries (
    event_row_id INTEGER PRIMARY KEY,
    tenant_id TEXT NOT NULL COLLATE BINARY
        CHECK (length(CAST(tenant_id AS BLOB)) > 0)
        CHECK (length(CAST(tenant_id AS BLOB)) <= 255),
    state TEXT NOT NULL CHECK (state IN ('pending', 'claimed', 'delivered', 'quarantined')),
    available_at TEXT NOT NULL DEFAULT (strftime('%Y-%m-%dT%H:%M:%f000Z', 'now')),
    attempts INTEGER NOT NULL DEFAULT 0 CHECK (attempts >= 0),
    claim_token BLOB CHECK (claim_token IS NULL OR length(claim_token) = 16),
    claimed_by TEXT CHECK (claimed_by IS NULL OR length(CAST(claimed_by AS BLOB)) <= 255),
    claim_expires_at TEXT,
    last_failure_code TEXT
        CHECK (last_failure_code IS NULL OR length(CAST(last_failure_code AS BLOB)) <= 128),
    last_failure_detail TEXT
        CHECK (last_failure_detail IS NULL OR length(CAST(last_failure_detail AS BLOB)) <= 2048),
    delivered_at TEXT,
    quarantined_at TEXT,
    quarantine_reason TEXT
        CHECK (quarantine_reason IS NULL OR length(CAST(quarantine_reason AS BLOB)) <= 2048),
    CHECK ((last_failure_code IS NULL) = (last_failure_detail IS NULL)),
    CHECK (
        (state = 'pending' AND claim_token IS NULL AND claimed_by IS NULL
            AND claim_expires_at IS NULL AND delivered_at IS NULL
            AND quarantined_at IS NULL AND quarantine_reason IS NULL)
        OR (state = 'claimed' AND claim_token IS NOT NULL AND claimed_by IS NOT NULL
            AND claim_expires_at IS NOT NULL AND delivered_at IS NULL
            AND quarantined_at IS NULL AND quarantine_reason IS NULL)
        OR (state = 'delivered' AND claim_token IS NULL AND claimed_by IS NULL
            AND claim_expires_at IS NULL AND delivered_at IS NOT NULL
            AND quarantined_at IS NULL AND quarantine_reason IS NULL)
        OR (state = 'quarantined' AND claim_token IS NULL AND claimed_by IS NULL
            AND claim_expires_at IS NULL AND delivered_at IS NULL
            AND quarantined_at IS NOT NULL AND quarantine_reason IS NOT NULL)
    ),
    FOREIGN KEY (tenant_id, event_row_id)
        REFERENCES dovecote_events (tenant_id, row_id) ON DELETE RESTRICT
);

CREATE UNIQUE INDEX dovecote_events_tenant_source_event_id
    ON dovecote_events (tenant_id COLLATE BINARY, source COLLATE BINARY, event_id COLLATE BINARY);

CREATE INDEX dovecote_events_tenant_row ON dovecote_events (tenant_id, row_id);

CREATE INDEX dovecote_deliveries_claimable
    ON dovecote_deliveries (tenant_id, state, available_at, event_row_id);

CREATE INDEX dovecote_deliveries_expired_claims
    ON dovecote_deliveries (tenant_id, state, claim_expires_at, event_row_id);
"#;

/// The schema of pre-tenant deployments, version 1.
pub const LEGACY_SQL: &'static str = r#"-- Dovecote schema version 1: events and deliveries without tenants.

CREATE TABLE dovecote_schema (
    schema_version INTEGER PRIMARY KEY CHECK (schema_version = 1),
    minimum_crate_major INTEGER NOT NULL CHECK (minimum_crate_major >= 0),
    minimum_crate_minor INTEGER NOT NULL CHECK (minimum_crate_minor >= 0),
    minimum_crate_patch INTEGER NOT NULL CHECK (minimum_crate_patch >= 0),
    rolling_compatible INTEGER NOT NULL CHECK (rolling_compatible IN (0, 1))
);

INSERT INTO dovecote_schema
    (schema_version, minimum_crate_major, minimum_crate_minor, minimum_crate_patch,
     rolling_compatible)
VALUES (1, 0, 1, 0, 0);

CREATE TABLE dovecote_events (
    row_id INTEGER PRIMARY KEY AUTOINCREMENT CHECK (row_id > 0),
    stream TEXT NOT NULL CHECK (length(CAST(stream AS BLOB)) <= 255),
    specversion TEXT NOT NULL CHECK (specversion = '1.0'),
    event_id TEXT NOT NULL COLLATE BINARY CHECK (length(CAST(event_id AS BLOB)) <= 1024),
    source TEXT NOT NULL COLLATE BINARY CHECK (length(CAST(source AS BLOB)) <= 2048),
    event_type TEXT NOT NULL CHECK (length(CAST(event_type AS BLOB)) <= 1024),
    subject TEXT CHECK (subject IS NULL OR length(CAST(subject AS BLOB)) <= 2048),
    occurred_at TEXT,
    datacontenttype TEXT
        CHECK (datacontenttype IS NULL OR length(CAST(datacontenttype AS BLOB)) <= 255),
    dataschema TEXT CHECK (dataschema IS NULL OR length(CAST(dataschema AS BLOB)) <= 2048),
    partitionkey TEXT CHECK (partitionkey IS NULL OR length(CAST(partitionkey AS BLOB)) <= 255),
    extensions TEXT NOT NULL DEFAULT '{}',
    data_kind TEXT CHECK (data_kind IS NULL OR data_kind IN ('json', 'binary')),
    data BLOB,
    enqueued_at TEXT NOT NULL DEFAULT (strftime('%Y-%m-%dT%H:%M:%f000Z', 'now')),
    CHECK (length(CAST(source AS BLOB)) + length(CAST(event_id AS BLOB)) <= 2048),
    CHECK ((data_kind IS NULL) = (data IS NULL)),
    CHECK (data IS NULL OR length(data) = 0 OR datacontenttype IS NOT NULL)
);

CREATE TABLE dovecote_deliveries (
    event_row_id INTEGER PRIMARY KEY
        REFERENCES dovecote_events (row_id) ON DELETE RESTRICT,
    state TEXT NOT NULL CHECK (state IN ('pending', 'claimed', 'delivered', 'quarantined')),
    available_at TEXT NOT NULL DEFAULT (strftime('%Y-%m-%dT%H:%M:%f000Z', 'now')),
    attempts INTEGER NOT NULL DEFAULT 0 CHECK (attempts >= 0),
    claim_token BLOB CHECK (claim_token IS NULL OR length(claim_token) = 16),
    claimed_by TEXT CHECK (claimed_by IS NULL OR length(CAST(claimed_by AS BLOB)) <= 255),
    claim_expires_at TEXT,
    last_failure_code TEXT
        CHECK (last_failure_code IS NULL OR length(CAST(last_failure_code AS BLOB)) <= 128),
    last_failure_detail TEXT
        CHECK (last_failure_detail IS NULL OR length(CAST(last_failure_detail AS BLOB)) <= 2048),
    delivered_at TEXT,
    quarantined_at TEXT,
    quarantine_reason TEXT
        CHECK (quarantine_reason IS NULL OR length(CAST(quarantine_reason AS BLOB)) <= 2048),
    CHECK ((last_failure_code IS NULL) = (last_failure_detail IS NULL)),
    CHECK (
        (state = 'pending' AND claim_token IS NULL AND claimed_by IS NULL
            AND claim_expires_at IS NULL AND delivered_at IS NULL
            AND quarantined_at IS NULL AND quarantine_reason IS NULL)
        OR (state = 'claimed' AND claim_token IS NOT NULL AND claimed_by IS NOT NULL
            AND claim_expires_at IS NOT NULL AND delivered_at IS NULL
            AND quarantined_at IS NULL AND quarantine_reason IS NULL)
        OR (state = 'delivered' AND claim_token IS NULL AND claimed_by IS NULL
            AND claim_expires_at IS NULL AND delivered_at IS NOT NULL
            AND quarantined_at IS NULL AND quarantine_reason IS NULL)
        OR (state = 'quarantined' AND claim_token IS NULL AND claimed_by IS NULL
            AND claim_expires_at IS NULL AND delivered_at IS NULL
            AND quarantined_at IS NOT NULL AND quarantine_reason IS NOT NULL)
    )
);

CREATE UNIQUE INDEX dovecote_events_source_event_id
    ON dovecote_events (source COLLATE BINARY, event_id COLLATE BINARY);

CREATE INDEX dovecote_deliveries_claimable
    ON dovecote_deliveries (state, available_at, event_row_id);

CREATE INDEX dovecote_deliveries_expired_claims
    ON dovecote_deliveries (state, claim_expires_at, event_row_id);
"#;

/// SQL that adds nullable tenant columns to a version 1 deployment.
pub const V1_TENANT_PREPARE_SQL: &'static str = r#"-- Adds nullable tenant columns to a version 1 deployment. The operator fills
-- them before activation; nothing here invents a tenant.

ALTER TABLE dovecote_events ADD COLUMN tenant_id TEXT;
ALTER TABLE dovecote_deliveries ADD COLUMN tenant_id TEXT;
"#;

/// SQL that validates backfill and activates tenant constraints.
pub const V1_TENANT_ACTIVATE_SQL: &'static str = r#"-- Validates the operator's tenant backfill and rebuilds the tables as schema
-- version 2 in one transaction.

BEGIN IMMEDIATE;

CREATE TEMP TABLE activation_guard (accepted INTEGER NOT NULL CHECK (accepted = 1));
INSERT INTO activation_guard
SELECT NOT EXISTS (SELECT 1 FROM dovecote_events WHERE tenant_id IS NULL)
    AND NOT EXISTS (SELECT 1 FROM dovecote_deliveries WHERE tenant_id IS NULL);
INSERT INTO activation_guard
SELECT NOT EXISTS (
    SELECT 1
    FROM dovecote_deliveries AS d
    LEFT JOIN dovecote_events AS e ON e.row_id = d.event_row_id
    WHERE e.row_id IS NULL OR d.tenant_id <> e.tenant_id
);
DROP TABLE activation_guard;

CREATE TABLE dovecote_schema_v2 (
    schema_version INTEGER PRIMARY KEY CHECK (schema_version = 2),
    minimum_crate_major INTEGER NOT NULL CHECK (minimum_crate_major >= 0),
    minimum_crate_minor INTEGER NOT NULL CHECK (minimum_crate_minor >= 0),
    minimum_crate_patch INTEGER NOT NULL CHECK (minimum_crate_patch >= 0),
    rolling_compatible INTEGER NOT NULL CHECK (rolling_compatible IN (0, 1))
);

INSERT INTO dovecote_schema_v2
    (schema_version, minimum_crate_major, minimum_crate_minor, minimum_crate_patch,
     rolling_compatible)
VALUES (2, 0, 2, 0, 0);

CREATE TABLE dovecote_events_v2 (
    row_id INTEGER PRIMARY KEY AUTOINCREMENT CHECK (row_id > 0),
    tenant_id TEXT NOT NULL COLLATE BINARY
        CHECK (length(CAST(tenant_id AS BLOB)) > 0)
        CHECK (length(CAST(tenant_id AS BLOB)) <= 255),
    stream TEXT NOT NULL CHECK (length(CAST(stream AS BLOB)) <= 255),
    specversion TEXT NOT NULL CHECK (specversion = '1.0'),
    event_id TEXT NOT NULL COLLATE BINARY CHECK (length(CAST(event_id AS BLOB)) <= 1024),
    source TEXT NOT NULL COLLATE BINARY CHECK (length(CAST(source AS BLOB)) <= 2048),
    event_type TEXT NOT NULL CHECK (length(CAST(event_type AS BLOB)) <= 1024),
    subject TEXT CHECK (subject IS NULL OR length(CAST(subject AS BLOB)) <= 2048),
    occurred_at TEXT,
    datacontenttype TEXT
        CHECK (datacontenttype IS NULL OR length(CAST(datacontenttype AS BLOB)) <= 255),
    dataschema TEXT CHECK (dataschema IS NULL OR length(CAST(dataschema AS BLOB)) <= 2048),
    partitionkey TEXT CHECK (partitionkey IS NULL OR length(CAST(partitionkey AS BLOB)) <= 255),
    extensions TEXT NOT NULL DEFAULT '{}',
    data_kind TEXT CHECK (data_kind IS NULL OR data_kind IN ('json', 'binary')),
    data BLOB,
    enqueued_at TEXT NOT NULL DEFAULT (strftime('%Y-%m-%dT%H:%M:%f000Z', 'now')),
    CHECK (length(CAST(source AS BLOB)) + length(CAST(event_id AS BLOB)) <= 2048),
    CHECK ((data_kind IS NULL) = (data IS NULL)),
    CHECK (data IS NULL OR length(data) = 0 OR datacontenttype IS NOT NULL),
    UNIQUE (tenant_id, row_id)
);

INSERT INTO dovecote_events_v2
    (row_id, tenant_id, stream, specversion, event_id, source, event_type, subject, occurred_at,
     datacontenttype, dataschema, partitionkey, extensions, data_kind, data, enqueued_at)
SELECT row_id, tenant_id, stream, specversion, event_id, source, event_type, subject, occurred_at,
     datacontenttype, dataschema, partitionkey, extensions, data_kind, data, enqueued_at
FROM dovecote_events;

CREATE TABLE dovecote_deliveries_v2 (
    event_row_id INTEGER PRIMARY KEY,
    tenant_id TEXT NOT NULL COLLATE BINARY
        CHECK (length(CAST(tenant_id AS BLOB)) > 0)
        CHECK (length(CAST(tenant_id AS BLOB)) <= 255),
    state TEXT NOT NULL CHECK (state IN ('pending', 'claimed', 'delivered', 'quarantined')),
    available_at TEXT NOT NULL DEFAULT (strftime('%Y-%m-%dT%H:%M:%f000Z', 'now')),
    attempts INTEGER NOT NULL DEFAULT 0 CHECK (attempts >= 0),
    claim_token BLOB CHECK (claim_token IS NULL OR length(claim_token) = 16),
    claimed_by TEXT CHECK (claimed_by IS NULL OR length(CAST(claimed_by AS BLOB)) <= 255),
    claim_expires_at TEXT,
    last_failure_code TEXT
        CHECK (last_failure_code IS NULL OR length(CAST(last_failure_code AS BLOB)) <= 128),
    last_failure_detail TEXT
        CHECK (last_failure_detail IS NULL OR length(CAST(last_failure_detail AS BLOB)) <= 2048),
    delivered_at TEXT,
    quarantined_at TEXT,
    quarantine_reason TEXT
        CHECK (quarantine_reason IS NULL OR length(CAST(quarantine_reason AS BLOB)) <= 2048),
    CHECK ((last_failure_code IS NULL) = (last_failure_detail IS NULL)),
    CHECK (
        (state = 'pending' AND claim_token IS NULL AND claimed_by IS NULL
            AND claim_expires_at IS NULL AND delivered_at IS NULL
            AND quarantined_at IS NULL AND quarantine_reason IS NULL)
        OR (state = 'claimed' AND claim_token IS NOT NULL AND claimed_by IS NOT NULL
            AND claim_expires_at IS NOT NULL AND delivered_at IS NULL
            AND quarantined_at IS NULL AND quarantine_reason IS NULL)
        OR (state = 'delivered' AND claim_token IS NULL AND claimed_by IS NULL
            AND claim_expires_at IS NULL AND delivered_at IS NOT NULL
            AND quarantined_at IS NULL AND quarantine_reason IS NULL)
        OR (state = 'quarantined' AND claim_token IS NULL AND claimed_by IS NULL
            AND claim_expires_at IS NULL AND delivered_at IS NULL
            AND quarantined_at IS NOT NULL AND quarantine_reason IS NOT NULL)
    ),
    FOREIGN KEY (tenant_id, event_row_id)
        REFERENCES dovecote_events_v2 (tenant_id, row_id) ON DELETE RESTRICT
);

INSERT INTO dovecote_deliveries_v2
    (event_row_id, tenant_id, state, available_at, attempts, claim_token, claimed_by,
     claim_expires_at, last_failure_code, last_failure_detail, delivered_at, quarantined_at,
     quarantine_reason)
SELECT event_row_id, tenant_id, state, available_at, attempts, claim_token, claimed_by,
     claim_expires_at, last_failure_code, last_failure_detail, delivered_at, quarantined_at,
     quarantine_reason
FROM dovecote_deliveries;

DROP TABLE dovecote_deliveries;
DROP TABLE dovecote_events;
DROP TABLE dovecote_schema;
ALTER TABLE dovecote_schema_v2 RENAME TO dovecote_schema;
ALTER TABLE dovecote_events_v2 RENAME TO dovecote_events;
ALTER TABLE dovecote_deliveries_v2 RENAME TO dovecote_deliveries;

CREATE UNIQUE INDEX dovecote_events_tenant_source_event_id
    ON dovecote_events (tenant_id COLLATE BINARY, source COLLATE BINARY, event_id COLLATE BINARY);

CREATE INDEX dovecote_events_tenant_row ON dovecote_events (tenant_id, row_id);

CREATE INDEX dovecote_deliveries_claimable
    ON dovecote_deliveries (tenant_id, state, available_at, event_row_id);

CREATE INDEX dovecote_deliveries_expired_claims
    ON dovecote_deliveries (tenant_id, state, claim_expires_at, event_row_id);

COMMIT;
"#;

} // verus!
