//! The SQL artifacts that the PostgreSQL adapter ships.

use vstd::prelude::*;

verus! {

/// The clean-install schema, version 2.
pub const BASELINE_SQL: &'static str = r#"-- Dovecote schema version 2: tenant-scoped events and deliveries.

CREATE TABLE dovecote_schema (
    schema_version INTEGER NOT NULL,
    minimum_crate_major SMALLINT NOT NULL,
    minimum_crate_minor SMALLINT NOT NULL,
    minimum_crate_patch SMALLINT NOT NULL,
    rolling_compatible BOOLEAN NOT NULL,
    CONSTRAINT dovecote_schema_pkey PRIMARY KEY (schema_version),
    CONSTRAINT dovecote_schema_version_supported CHECK (schema_version = 2),
    CONSTRAINT dovecote_schema_minimum_nonnegative CHECK (
        minimum_crate_major >= 0 AND minimum_crate_minor >= 0 AND minimum_crate_patch >= 0
    )
);

INSERT INTO dovecote_schema
    (schema_version, minimum_crate_major, minimum_crate_minor, minimum_crate_patch,
     rolling_compatible)
VALUES (2, 0, 2, 0, FALSE);

CREATE TABLE dovecote_events (
    row_id BIGINT GENERATED ALWAYS AS IDENTITY,
    tenant_id VARCHAR(255) COLLATE "C" NOT NULL,
    stream VARCHAR(255) NOT NULL,
    specversion VARCHAR(8) NOT NULL,
    event_id VARCHAR(1024) COLLATE "C" NOT NULL,
    source VARCHAR(2048) COLLATE "C" NOT NULL,
    event_type VARCHAR(1024) NOT NULL,
    subject VARCHAR(2048),
    occurred_at TIMESTAMPTZ,
    datacontenttype VARCHAR(255),
    dataschema VARCHAR(2048),
    partitionkey VARCHAR(255),
    extensions TEXT NOT NULL DEFAULT '{}',
    data_kind VARCHAR(6),
    data BYTEA,
    enqueued_at TIMESTAMPTZ NOT NULL DEFAULT CURRENT_TIMESTAMP,
    CONSTRAINT dovecote_events_pkey PRIMARY KEY (row_id),
    CONSTRAINT dovecote_events_tenant_row_unique UNIQUE (tenant_id, row_id),
    CONSTRAINT dovecote_events_tenant_size CHECK (octet_length(tenant_id) <= 255),
    CONSTRAINT dovecote_events_tenant_nonempty CHECK (octet_length(tenant_id) > 0),
    CONSTRAINT dovecote_events_row_id_positive CHECK (row_id > 0),
    CONSTRAINT dovecote_events_specversion CHECK (specversion = '1.0'),
    CONSTRAINT dovecote_events_stream_size CHECK (octet_length(stream) <= 255),
    CONSTRAINT dovecote_events_event_id_size CHECK (octet_length(event_id) <= 1024),
    CONSTRAINT dovecote_events_source_size CHECK (octet_length(source) <= 2048),
    CONSTRAINT dovecote_events_event_type_size CHECK (octet_length(event_type) <= 1024),
    CONSTRAINT dovecote_events_subject_size
        CHECK (subject IS NULL OR octet_length(subject) <= 2048),
    CONSTRAINT dovecote_events_content_type_size
        CHECK (datacontenttype IS NULL OR octet_length(datacontenttype) <= 255),
    CONSTRAINT dovecote_events_schema_size
        CHECK (dataschema IS NULL OR octet_length(dataschema) <= 2048),
    CONSTRAINT dovecote_events_partition_size
        CHECK (partitionkey IS NULL OR octet_length(partitionkey) <= 255),
    CONSTRAINT dovecote_events_identity_size
        CHECK (octet_length(source) + octet_length(event_id) <= 2048),
    CONSTRAINT dovecote_events_data_kind
        CHECK (data_kind IS NULL OR data_kind IN ('json', 'binary')),
    CONSTRAINT dovecote_events_data_pair CHECK ((data_kind IS NULL) = (data IS NULL)),
    CONSTRAINT dovecote_events_content_type
        CHECK (data IS NULL OR octet_length(data) = 0 OR datacontenttype IS NOT NULL)
);

CREATE UNIQUE INDEX dovecote_events_tenant_source_event_id
    ON dovecote_events (tenant_id COLLATE "C", source COLLATE "C", event_id COLLATE "C");

CREATE TABLE dovecote_deliveries (
    event_row_id BIGINT NOT NULL,
    tenant_id VARCHAR(255) COLLATE "C" NOT NULL,
    state VARCHAR(12) NOT NULL,
    available_at TIMESTAMPTZ NOT NULL DEFAULT CURRENT_TIMESTAMP,
    attempts BIGINT NOT NULL DEFAULT 0,
    claim_token BYTEA,
    claimed_by VARCHAR(255),
    claim_expires_at TIMESTAMPTZ,
    last_failure_code VARCHAR(128),
    last_failure_detail VARCHAR(2048),
    delivered_at TIMESTAMPTZ,
    quarantined_at TIMESTAMPTZ,
    quarantine_reason VARCHAR(2048),
    CONSTRAINT dovecote_deliveries_pkey PRIMARY KEY (event_row_id),
    CONSTRAINT dovecote_deliveries_event_fk FOREIGN KEY (tenant_id, event_row_id)
        REFERENCES dovecote_events (tenant_id, row_id) ON DELETE RESTRICT,
    CONSTRAINT dovecote_deliveries_tenant_size CHECK (octet_length(tenant_id) <= 255),
    CONSTRAINT dovecote_deliveries_tenant_nonempty CHECK (octet_length(tenant_id) > 0),
    CONSTRAINT dovecote_deliveries_state
        CHECK (state IN ('pending', 'claimed', 'delivered', 'quarantined')),
    CONSTRAINT dovecote_deliveries_attempts CHECK (attempts >= 0),
    CONSTRAINT dovecote_deliveries_token_size
        CHECK (claim_token IS NULL OR octet_length(claim_token) = 16),
    CONSTRAINT dovecote_deliveries_worker_size
        CHECK (claimed_by IS NULL OR octet_length(claimed_by) <= 255),
    CONSTRAINT dovecote_deliveries_failure_code_size
        CHECK (last_failure_code IS NULL OR octet_length(last_failure_code) <= 128),
    CONSTRAINT dovecote_deliveries_failure_detail_size
        CHECK (last_failure_detail IS NULL OR octet_length(last_failure_detail) <= 2048),
    CONSTRAINT dovecote_deliveries_quarantine_size
        CHECK (quarantine_reason IS NULL OR octet_length(quarantine_reason) <= 2048),
    CONSTRAINT dovecote_deliveries_failure_pair
        CHECK ((last_failure_code IS NULL) = (last_failure_detail IS NULL)),
    CONSTRAINT dovecote_deliveries_state_shape CHECK (
        (state = 'pending' AND claim_token IS NULL AND claimed_by IS NULL
            AND claim_expires_at IS NULL AND delivered_at IS NULL
            AND quarantined_at IS NULL AND quarantine_reason IS NULL)
        OR (state = 'claimed' AND claim_token IS NOT NULL AND claimed_by IS NOT NULL
            AND claim_expires_at IS NOT NULL AND delivered_at IS NULL
            AND quarantined_at IS NULL AND quarantine_reason IS NULL)
        OR (state = 'delivered' AND claim_token IS NULL AND claimed_by IS NULL
            AND claim_expires_at IS NULL AND delivered_at IS NOT NULL
            AND quarantined_at IS NULL AND quarantine_reason IS NULL)
        OR (state = 'quarantined' AND claim_token IS NULL AND claimed_by IS NULL
            AND claim_expires_at IS NULL AND delivered_at IS NULL
            AND quarantined_at IS NOT NULL AND quarantine_reason IS NOT NULL)
    )
);

CREATE INDEX dovecote_deliveries_claimable
    ON dovecote_deliveries (tenant_id COLLATE "C", state, available_at, event_row_id);

CREATE INDEX dovecote_deliveries_expired_claims
    ON dovecote_deliveries (tenant_id COLLATE "C", state, claim_expires_at, event_row_id);
"#;

/// The schema of pre-tenant deployments, version 1.
pub const LEGACY_SQL: &'static str = r#"-- Dovecote schema version 1: events and deliveries without tenants.

CREATE TABLE dovecote_schema (
    schema_version INTEGER NOT NULL,
    minimum_crate_major SMALLINT NOT NULL,
    minimum_crate_minor SMALLINT NOT NULL,
    minimum_crate_patch SMALLINT NOT NULL,
    rolling_compatible BOOLEAN NOT NULL,
    CONSTRAINT dovecote_schema_pkey PRIMARY KEY (schema_version),
    CONSTRAINT dovecote_schema_version_supported CHECK (schema_version = 1),
    CONSTRAINT dovecote_schema_minimum_nonnegative CHECK (
        minimum_crate_major >= 0 AND minimum_crate_minor >= 0 AND minimum_crate_patch >= 0
    )
);

INSERT INTO dovecote_schema
    (schema_version, minimum_crate_major, minimum_crate_minor, minimum_crate_patch,
     rolling_compatible)
VALUES (1, 0, 1, 0, FALSE);

CREATE TABLE dovecote_events (
    row_id BIGINT GENERATED ALWAYS AS IDENTITY,
    stream VARCHAR(255) NOT NULL,
    specversion VARCHAR(8) NOT NULL,
    event_id VARCHAR(1024) COLLATE "C" NOT NULL,
    source VARCHAR(2048) COLLATE "C" NOT NULL,
    event_type VARCHAR(1024) NOT NULL,
    subject VARCHAR(2048),
    occurred_at TIMESTAMPTZ,
    datacontenttype VARCHAR(255),
    dataschema VARCHAR(2048),
    partitionkey VARCHAR(255),
    extensions TEXT NOT NULL DEFAULT '{}',
    data_kind VARCHAR(6),
    data BYTEA,
    enqueued_at TIMESTAMPTZ NOT NULL DEFAULT CURRENT_TIMESTAMP,
    CONSTRAINT dovecote_events_pkey PRIMARY KEY (row_id),
    CONSTRAINT dovecote_events_row_id_positive CHECK (row_id > 0),
    CONSTRAINT dovecote_events_specversion CHECK (specversion = '1.0'),
    CONSTRAINT dovecote_events_stream_size CHECK (octet_length(stream) <= 255),
    CONSTRAINT dovecote_events_event_id_size CHECK (octet_length(event_id) <= 1024),
    CONSTRAINT dovecote_events_source_size CHECK (octet_length(source) <= 2048),
    CONSTRAINT dovecote_events_event_type_size CHECK (octet_length(event_type) <= 1024),
    CONSTRAINT dovecote_events_subject_size
        CHECK (subject IS NULL OR octet_length(subject) <= 2048),
    CONSTRAINT dovecote_events_content_type_size
        CHECK (datacontenttype IS NULL OR octet_length(datacontenttype) <= 255),
    CONSTRAINT dovecote_events_schema_size
        CHECK (dataschema IS NULL OR octet_length(dataschema) <= 2048),
    CONSTRAINT dovecote_events_partition_size
        CHECK (partitionkey IS NULL OR octet_length(partitionkey) <= 255),
    CONSTRAINT dovecote_events_identity_size
        CHECK (octet_length(source) + octet_length(event_id) <= 2048),
    CONSTRAINT dovecote_events_data_kind
        CHECK (data_kind IS NULL OR data_kind IN ('json', 'binary')),
    CONSTRAINT dovecote_events_data_pair CHECK ((data_kind IS NULL) = (data IS NULL)),
    CONSTRAINT dovecote_events_content_type
        CHECK (data IS NULL OR octet_length(data) = 0 OR datacontenttype IS NOT NULL)
);

CREATE UNIQUE INDEX dovecote_events_source_event_id
    ON dovecote_events (source COLLATE "C", event_id COLLATE "C");

CREATE TABLE dovecote_deliveries (
    event_row_id BIGINT NOT NULL,
    state VARCHAR(12) NOT NULL,
    available_at TIMESTAMPTZ NOT NULL DEFAULT CURRENT_TIMESTAMP,
    attempts BIGINT NOT NULL DEFAULT 0,
    claim_token BYTEA,
    claimed_by VARCHAR(255),
    claim_expires_at TIMESTAMPTZ,
    last_failure_code VARCHAR(128),
    last_failure_detail VARCHAR(2048),
    delivered_at TIMESTAMPTZ,
    quarantined_at TIMESTAMPTZ,
    quarantine_reason VARCHAR(2048),
    CONSTRAINT dovecote_deliveries_pkey PRIMARY KEY (event_row_id),
    CONSTRAINT dovecote_deliveries_event_row_id_fkey FOREIGN KEY (event_row_id)
        REFERENCES dovecote_events (row_id) ON DELETE RESTRICT,
    CONSTRAINT dovecote_deliveries_state
        CHECK (state IN ('pending', 'claimed', 'delivered', 'quarantined')),
    CONSTRAINT dovecote_deliveries_attempts CHECK (attempts >= 0),
    CONSTRAINT dovecote_deliveries_token_size
        CHECK (claim_token IS NULL OR octet_length(claim_token) = 16),
    CONSTRAINT dovecote_deliveries_worker_size
        CHECK (claimed_by IS NULL OR octet_length(claimed_by) <= 255),
    CONSTRAINT dovecote_deliveries_failure_code_size
        CHECK (last_failure_code IS NULL OR octet_length(last_failure_code) <= 128),
    CONSTRAINT dovecote_deliveries_failure_detail_size
        CHECK (last_failure_detail IS NULL OR octet_length(last_failure_detail) <= 2048),
    CONSTRAINT dovecote_deliveries_quarantine_size
        CHECK (quarantine_reason IS NULL OR octet_length(quarantine_reason) <= 2048),
    CONSTRAINT dovecote_deliveries_failure_pair
        CHECK ((last_failure_code IS NULL) = (last_failure_detail IS NULL)),
    CONSTRAINT dovecote_deliveries_state_shape CHECK (
        (state = 'pending' AND claim_token IS NULL AND claimed_by IS NULL
            AND claim_expires_at IS NULL AND delivered_at IS NULL
            AND quarantined_at IS NULL AND quarantine_reason IS NULL)
        OR (state = 'claimed' AND claim_token IS NOT NULL AND claimed_by IS NOT NULL
            AND claim_expires_at IS NOT NULL AND delivered_at IS NULL
            AND quarantined_at IS NULL AND quarantine_reason IS NULL)
        OR (state = 'delivered' AND claim_token IS NULL AND claimed_by IS NULL
            AND claim_expires_at IS NULL AND delivered_at IS NOT NULL
            AND quarantined_at IS NULL AND quarantine_reason IS NULL)
        OR (state = 'quarantined' AND claim_token IS NULL AND claimed_by IS NULL
            AND claim_expires_at IS NULL AND delivered_at IS NULL
            AND quarantined_at IS NOT NULL AND quarantine_reason IS NOT NULL)
    )
);

CREATE INDEX dovecote_deliveries_claimable
    ON dovecote_deliveries (state, available_at, event_row_id);

CREATE INDEX dovecote_deliveries_expired_claims
    ON dovecote_deliveries (state, claim_expires_at, event_row_id);
"#;

/// SQL that adds nullable tenant columns to a version 1 deployment.
pub const V1_TENANT_PREPARE_SQL: &'static str = r#"-- Adds nullable tenant columns to a version 1 deployment. The operator fills
-- them before activation; nothing here invents a tenant.

ALTER TABLE dovecote_events ADD COLUMN tenant_id VARCHAR(255) COLLATE "C";
ALTER TABLE dovecote_deliveries ADD COLUMN tenant_id VARCHAR(255) COLLATE "C";
"#;

/// SQL that validates an operator-owned backfill and activates version 2.
pub const V1_TENANT_ACTIVATE_SQL: &'static str = r#"-- Validates the operator's tenant backfill and activates schema version 2.

BEGIN;

LOCK TABLE dovecote_events, dovecote_deliveries IN ACCESS EXCLUSIVE MODE;

DO $$
BEGIN
    IF EXISTS (SELECT 1 FROM dovecote_events WHERE tenant_id IS NULL)
        OR EXISTS (SELECT 1 FROM dovecote_deliveries WHERE tenant_id IS NULL) THEN
        RAISE EXCEPTION 'Dovecote tenant backfill is incomplete';
    END IF;
    IF EXISTS (
        SELECT 1
        FROM dovecote_deliveries AS d
        LEFT JOIN dovecote_events AS e ON e.row_id = d.event_row_id
        WHERE e.row_id IS NULL OR d.tenant_id <> e.tenant_id
    ) THEN
        RAISE EXCEPTION 'Dovecote tenant backfill disagrees between events and deliveries';
    END IF;
END
$$;

ALTER TABLE dovecote_events
    ALTER COLUMN tenant_id SET NOT NULL,
    ADD CONSTRAINT dovecote_events_tenant_size CHECK (octet_length(tenant_id) <= 255),
    ADD CONSTRAINT dovecote_events_tenant_nonempty CHECK (octet_length(tenant_id) > 0),
    ADD CONSTRAINT dovecote_events_tenant_row_unique UNIQUE (tenant_id, row_id);

ALTER TABLE dovecote_deliveries
    ALTER COLUMN tenant_id SET NOT NULL,
    ADD CONSTRAINT dovecote_deliveries_tenant_size CHECK (octet_length(tenant_id) <= 255),
    ADD CONSTRAINT dovecote_deliveries_tenant_nonempty CHECK (octet_length(tenant_id) > 0),
    DROP CONSTRAINT dovecote_deliveries_event_row_id_fkey,
    ADD CONSTRAINT dovecote_deliveries_event_fk FOREIGN KEY (tenant_id, event_row_id)
        REFERENCES dovecote_events (tenant_id, row_id) ON DELETE RESTRICT;

DROP INDEX dovecote_events_source_event_id;
CREATE UNIQUE INDEX dovecote_events_tenant_source_event_id
    ON dovecote_events (tenant_id COLLATE "C", source COLLATE "C", event_id COLLATE "C");

DROP INDEX dovecote_deliveries_claimable;
CREATE INDEX dovecote_deliveries_claimable
    ON dovecote_deliveries (tenant_id COLLATE "C", state, available_at, event_row_id);

DROP INDEX dovecote_deliveries_expired_claims;
CREATE INDEX dovecote_deliveries_expired_claims
    ON dovecote_deliveries (tenant_id COLLATE "C", state, claim_expires_at, event_row_id);

ALTER TABLE dovecote_schema DROP CONSTRAINT dovecote_schema_version_supported;
DELETE FROM dovecote_schema;
ALTER TABLE dovecote_schema
    ADD CONSTRAINT dovecote_schema_version_supported CHECK (schema_version = 2);
INSERT INTO dovecote_schema
    (schema_version, minimum_crate_major, minimum_crate_minor, minimum_crate_patch,
     rolling_compatible)
VALUES (2, 0, 2, 0, FALSE);

COMMIT;
"#;

/// SQL that installs the opt-in row-level-security policies of a tenant-aware
/// schema. Scoped transactions bind their tenant first; administrative roles
/// bypass the policies.
pub const RLS_PROFILE_SQL: &'static str = r#"-- Row-level security for tenant isolation. This profile is opt-in and is
-- not part of the ordinary migration. Scoped
-- application transactions must call bind_tenant before they touch a row;
-- administrative roles must
-- use BYPASSRLS to see every tenant.

ALTER TABLE dovecote_events ENABLE ROW LEVEL SECURITY;
ALTER TABLE dovecote_events FORCE ROW LEVEL SECURITY;
CREATE POLICY dovecote_events_tenant ON dovecote_events
    USING (tenant_id = current_setting('dovecote.tenant_id', true))
    WITH CHECK (tenant_id = current_setting('dovecote.tenant_id', true));

ALTER TABLE dovecote_deliveries ENABLE ROW LEVEL SECURITY;
ALTER TABLE dovecote_deliveries FORCE ROW LEVEL SECURITY;
CREATE POLICY dovecote_deliveries_tenant ON dovecote_deliveries
    USING (tenant_id = current_setting('dovecote.tenant_id', true))
    WITH CHECK (tenant_id = current_setting('dovecote.tenant_id', true));
"#;

} // verus!
