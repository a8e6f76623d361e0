//! The tables of the search database.
use vstd::prelude::*;

verus! {

/// The indexes.
pub const SEARCH_INDEX_TABLE: &'static str = "search_index";

/// The indexing jobs.
pub const SEARCH_INDEX_JOB_TABLE: &'static str = "search_index_job";

/// The documents.
pub const SEARCH_DOCUMENT_TABLE: &'static str = "search_document";

/// The suggestions.
pub const SEARCH_QUERY_SUGGESTION_TABLE: &'static str = "search_query_suggestion";

/// What users did.
pub const SEARCH_USER_EVENT_TABLE: &'static str = "search_user_event";

/// What users searched for.
pub const SEARCH_RECENT_QUERY_TABLE: &'static str = "search_recent_query";

/// The promotions.
pub const SEARCH_PROMOTION_TABLE: &'static str = "search_promotion";

/// The statements that create the tables, where they are missing. The unique keys
/// are those that the statements name where they write over a row.
pub const SEARCH_INDEXING_MIGRATION_SQL: &'static str = r#"
CREATE EXTENSION IF NOT EXISTS pg_trgm;

CREATE TABLE IF NOT EXISTS search_index (
    id BIGINT GENERATED BY DEFAULT AS IDENTITY PRIMARY KEY,
    uuid TEXT NOT NULL UNIQUE,
    tenant_id BIGINT NOT NULL,
    organization_id BIGINT NOT NULL,
    index_key TEXT NOT NULL,
    title TEXT NOT NULL,
    description TEXT,
    status INTEGER NOT NULL DEFAULT 1,
    data_scope INTEGER NOT NULL DEFAULT 0,
    config_json JSONB NOT NULL DEFAULT '{}'::jsonb,
    created_at TIMESTAMPTZ NOT NULL DEFAULT NOW(),
    updated_at TIMESTAMPTZ NOT NULL DEFAULT NOW(),
    version BIGINT NOT NULL DEFAULT 0,
    deleted_at TIMESTAMPTZ,
    deleted_by BIGINT,
    UNIQUE (tenant_id, organization_id, index_key)
);

CREATE TABLE IF NOT EXISTS search_index_job (
    id BIGINT GENERATED BY DEFAULT AS IDENTITY PRIMARY KEY,
    uuid TEXT NOT NULL UNIQUE,
    tenant_id BIGINT NOT NULL,
    organization_id BIGINT NOT NULL,
    index_key TEXT NOT NULL,
    job_type TEXT NOT NULL,
    status INTEGER NOT NULL DEFAULT 0,
    payload_json JSONB NOT NULL DEFAULT '{}'::jsonb,
    scheduled_at TIMESTAMPTZ,
    started_at TIMESTAMPTZ,
    finished_at TIMESTAMPTZ,
    error_summary TEXT,
    retry_count INTEGER NOT NULL DEFAULT 0,
    created_at TIMESTAMPTZ NOT NULL DEFAULT NOW(),
    updated_at TIMESTAMPTZ NOT NULL DEFAULT NOW(),
    version BIGINT NOT NULL DEFAULT 0
);

CREATE TABLE IF NOT EXISTS search_document (
    id BIGINT GENERATED BY DEFAULT AS IDENTITY PRIMARY KEY,
    uuid TEXT NOT NULL UNIQUE,
    tenant_id BIGINT NOT NULL,
    organization_id BIGINT NOT NULL,
    index_id BIGINT NOT NULL,
    index_key TEXT NOT NULL,
    document_id TEXT NOT NULL,
    capability TEXT,
    scope TEXT NOT NULL DEFAULT 'global',
    group_key TEXT,
    group_title TEXT,
    source_ref TEXT,
    title TEXT NOT NULL,
    body_text TEXT,
    keyword_text TEXT,
    payload_json JSONB NOT NULL DEFAULT '{}'::jsonb,
    token_json JSONB NOT NULL DEFAULT '[]'::jsonb,
    embedding_json JSONB NOT NULL DEFAULT '{}'::jsonb,
    status INTEGER NOT NULL DEFAULT 1,
    data_scope INTEGER NOT NULL DEFAULT 0,
    indexed_at TIMESTAMPTZ,
    created_at TIMESTAMPTZ NOT NULL DEFAULT NOW(),
    updated_at TIMESTAMPTZ NOT NULL DEFAULT NOW(),
    version BIGINT NOT NULL DEFAULT 0,
    deleted_at TIMESTAMPTZ,
    deleted_by BIGINT,
    search_vector TSVECTOR GENERATED ALWAYS AS (
        to_tsvector(
            'pg_catalog.english',
            title || ' ' || COALESCE(body_text, '') || ' ' || COALESCE(keyword_text, '')
        )
    ) STORED,
    UNIQUE (tenant_id, organization_id, index_key, document_id)
);

CREATE INDEX IF NOT EXISTS search_document_words ON search_document USING GIN (search_vector);

CREATE INDEX IF NOT EXISTS search_document_title ON search_document
    USING GIN (title gin_trgm_ops);

CREATE TABLE IF NOT EXISTS search_query_suggestion (
    id BIGINT GENERATED BY DEFAULT AS IDENTITY PRIMARY KEY,
    uuid TEXT NOT NULL UNIQUE,
    tenant_id BIGINT NOT NULL,
    organization_id BIGINT NOT NULL,
    index_key TEXT NOT NULL,
    suggestion_text TEXT NOT NULL,
    source TEXT NOT NULL DEFAULT 'query',
    score INTEGER NOT NULL DEFAULT 0,
    status INTEGER NOT NULL DEFAULT 1,
    created_at TIMESTAMPTZ NOT NULL DEFAULT NOW(),
    updated_at TIMESTAMPTZ NOT NULL DEFAULT NOW(),
    version BIGINT NOT NULL DEFAULT 0,
    UNIQUE (tenant_id, organization_id, index_key, suggestion_text)
);

CREATE TABLE IF NOT EXISTS search_user_event (
    id BIGINT GENERATED BY DEFAULT AS IDENTITY PRIMARY KEY,
    uuid TEXT NOT NULL UNIQUE,
    tenant_id BIGINT NOT NULL,
    organization_id BIGINT NOT NULL,
    user_id BIGINT NOT NULL,
    event_type TEXT NOT NULL,
    surface TEXT NOT NULL,
    index_key TEXT,
    document_id TEXT,
    placement TEXT,
    q TEXT,
    result_position INTEGER,
    request_id TEXT,
    metadata_json JSONB NOT NULL DEFAULT '{}'::jsonb,
    occurred_at TIMESTAMPTZ NOT NULL DEFAULT NOW(),
    created_at TIMESTAMPTZ NOT NULL DEFAULT NOW()
);

CREATE TABLE IF NOT EXISTS search_recent_query (
    id BIGINT GENERATED BY DEFAULT AS IDENTITY PRIMARY KEY,
    uuid TEXT NOT NULL UNIQUE,
    tenant_id BIGINT NOT NULL,
    organization_id BIGINT NOT NULL,
    user_id BIGINT NOT NULL,
    index_key TEXT NOT NULL,
    q TEXT NOT NULL,
    result_count INTEGER NOT NULL DEFAULT 0,
    last_used_at TIMESTAMPTZ NOT NULL DEFAULT NOW(),
    created_at TIMESTAMPTZ NOT NULL DEFAULT NOW(),
    updated_at TIMESTAMPTZ NOT NULL DEFAULT NOW(),
    UNIQUE (tenant_id, organization_id, user_id, index_key, q)
);

CREATE TABLE IF NOT EXISTS search_promotion (
    id BIGINT GENERATED BY DEFAULT AS IDENTITY PRIMARY KEY,
    uuid TEXT NOT NULL UNIQUE,
    tenant_id BIGINT NOT NULL,
    organization_id BIGINT NOT NULL,
    promotion_key TEXT NOT NULL,
    placement TEXT NOT NULL,
    index_key TEXT NOT NULL,
    document_id TEXT NOT NULL,
    priority INTEGER NOT NULL DEFAULT 0,
    rule_json JSONB NOT NULL DEFAULT '[]'::jsonb,
    status INTEGER NOT NULL DEFAULT 1,
    active_from TIMESTAMPTZ,
    active_until TIMESTAMPTZ,
    created_at TIMESTAMPTZ NOT NULL DEFAULT NOW(),
    updated_at TIMESTAMPTZ NOT NULL DEFAULT NOW(),
    version BIGINT NOT NULL DEFAULT 0,
    deleted_at TIMESTAMPTZ,
    deleted_by BIGINT,
    UNIQUE (tenant_id, organization_id, promotion_key)
);
"#;

} // verus!
