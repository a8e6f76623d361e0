//! What the migration says of the keys of the tables.
use vstd::prelude::*;

use crate::provider_sql_laws::{lemma_says, says};
use crate::schema::SEARCH_INDEXING_MIGRATION_SQL;

verus! {

/// Each row is kept once: an index by its key, a document by its name in an index, a suggestion
/// by its text in an index, a query by its user, its index and its text, a promotion by its key;
/// all of them by tenant and organization. The words of a document are those of its title, its
/// content and its keywords.
#[verifier::rlimit(60)]
pub proof fn lemma_rows_are_kept_once()
    ensures
        says(
            SEARCH_INDEXING_MIGRATION_SQL@,
            "UNIQUE (tenant_id, organization_id, index_key)"@,
        ),
        says(
            SEARCH_INDEXING_MIGRATION_SQL@,
            "    search_vector TSVECTOR GENERATED ALWAYS AS (\n        to_tsvector(\n            'pg_catalog.english',\n            title || ' ' || COALESCE(body_text, '') || ' ' || COALESCE(keyword_text, '')\n        )\n    ) STORED,\n    UNIQUE (tenant_id, organization_id, index_key, document_id)\n"@,
        ),
        says(
            SEARCH_INDEXING_MIGRATION_SQL@,
            "UNIQUE (tenant_id, organization_id, index_key, suggestion_text)"@,
        ),
        says(
            SEARCH_INDEXING_MIGRATION_SQL@,
            "UNIQUE (tenant_id, organization_id, user_id, index_key, q)"@,
        ),
        says(
            SEARCH_INDEXING_MIGRATION_SQL@,
            "UNIQUE (tenant_id, organization_id, promotion_key)"@,
        ),
{
    reveal_strlit(
        r#"
CREATE EXTENSION IF NOT EXISTS pg_trgm;

CREATE TABLE IF NOT EXISTS search_index (
    id BIGINT GENERATED BY DEFAULT AS IDENTITY PRIMARY KEY,
    uuid TEXT NOT NULL UNIQUE,
    tenant_id BIGINT NOT NULL,
    organization_id BIGINT NOT NULL,
    index_key TEXT NOT NULL,
    title TEXT NOT NULL,
    description TEXT,
    status INTEGER NOT NULL DEFAULT 1,
    data_scope INTEGER NOT NULL DEFAULT 0,
    config_json JSONB NOT NULL DEFAULT '{}'::jsonb,
    created_at TIMESTAMPTZ NOT NULL DEFAULT NOW(),
    updated_at TIMESTAMPTZ NOT NULL DEFAULT NOW(),
    version BIGINT NOT NULL DEFAULT 0,
    deleted_at TIMESTAMPTZ,
    deleted_by BIGINT,
    UNIQUE (tenant_id, organization_id, index_key)
);

CREATE TABLE IF NOT EXISTS search_index_job (
    id BIGINT GENERATED BY DEFAULT AS IDENTITY PRIMARY KEY,
    uuid TEXT NOT NULL UNIQUE,
    tenant_id BIGINT NOT NULL,
    organization_id BIGINT NOT NULL,
    index_key TEXT NOT NULL,
    job_type TEXT NOT NULL,
    status INTEGER NOT NULL DEFAULT 0,
    payload_json JSONB NOT NULL DEFAULT '{}'::jsonb,
    scheduled_at TIMESTAMPTZ,
    started_at TIMESTAMPTZ,
    finished_at TIMESTAMPTZ,
    error_summary TEXT,
    retry_count INTEGER NOT NULL DEFAULT 0,
    created_at TIMESTAMPTZ NOT NULL DEFAULT NOW(),
    updated_at TIMESTAMPTZ NOT NULL DEFAULT NOW(),
    version BIGINT NOT NULL DEFAULT 0
);

CREATE TABLE IF NOT EXISTS search_document (
    id BIGINT GENERATED BY DEFAULT AS IDENTITY PRIMARY KEY,
    uuid TEXT NOT NULL UNIQUE,
    tenant_id BIGINT NOT NULL,
    organization_id BIGINT NOT NULL,
    index_id BIGINT NOT NULL,
    index_key TEXT NOT NULL,
    document_id TEXT NOT NULL,
    capability TEXT,
    scope TEXT NOT NULL DEFAULT 'global',
    group_key TEXT,
    group_title TEXT,
    source_ref TEXT,
    title TEXT NOT NULL,
    body_text TEXT,
    keyword_text TEXT,
    payload_json JSONB NOT NULL DEFAULT '{}'::jsonb,
    token_json JSONB NOT NULL DEFAULT '[]'::jsonb,
    embedding_json JSONB NOT NULL DEFAULT '{}'::jsonb,
    status INTEGER NOT NULL DEFAULT 1,
    data_scope INTEGER NOT NULL DEFAULT 0,
    indexed_at TIMESTAMPTZ,
    created_at TIMESTAMPTZ NOT NULL DEFAULT NOW(),
    updated_at TIMESTAMPTZ NOT NULL DEFAULT NOW(),
    version BIGINT NOT NULL DEFAULT 0,
    deleted_at TIMESTAMPTZ,
    deleted_by BIGINT,
    search_vector TSVECTOR GENERATED ALWAYS AS (
        to_tsvector(
            'pg_catalog.english',
            title || ' ' || COALESCE(body_text, '') || ' ' || COALESCE(keyword_text, '')
        )
    ) STORED,
    UNIQUE (tenant_id, organization_id, index_key, document_id)
);

CREATE INDEX IF NOT EXISTS search_document_words ON search_document USING GIN (search_vector);

CREATE INDEX IF NOT EXISTS search_document_title ON search_document
    USING GIN (title gin_trgm_ops);

CREATE TABLE IF NOT EXISTS search_query_suggestion (
    id BIGINT GENERATED BY DEFAULT AS IDENTITY PRIMARY KEY,
    uuid TEXT NOT NULL UNIQUE,
    tenant_id BIGINT NOT NULL,
    organization_id BIGINT NOT NULL,
    index_key TEXT NOT NULL,
    suggestion_text TEXT NOT NULL,
    source TEXT NOT NULL DEFAULT 'query',
    score INTEGER NOT NULL DEFAULT 0,
    status INTEGER NOT NULL DEFAULT 1,
    created_at TIMESTAMPTZ NOT NULL DEFAULT NOW(),
    updated_at TIMESTAMPTZ NOT NULL DEFAULT NOW(),
    version BIGINT NOT NULL DEFAULT 0,
    UNIQUE (tenant_id, organization_id, index_key, suggestion_text)
);

CREATE TABLE IF NOT EXISTS search_user_event (
    id BIGINT GENERATED BY DEFAULT AS IDENTITY PRIMARY KEY,
    uuid TEXT NOT NULL UNIQUE,
    tenant_id BIGINT NOT NULL,
    organization_id BIGINT NOT NULL,
    user_id BIGINT NOT NULL,
    event_type TEXT NOT NULL,
    surface TEXT NOT NULL,
    index_key TEXT,
    document_id TEXT,
    placement TEXT,
    q TEXT,
    result_position INTEGER,
    request_id TEXT,
    metadata_json JSONB NOT NULL DEFAULT '{}'::jsonb,
    occurred_at TIMESTAMPTZ NOT NULL DEFAULT NOW(),
    created_at TIMESTAMPTZ NOT NULL DEFAULT NOW()
);

CREATE TABLE IF NOT EXISTS search_recent_query (
    id BIGINT GENERATED BY DEFAULT AS IDENTITY PRIMARY KEY,
    uuid TEXT NOT NULL UNIQUE,
    tenant_id BIGINT NOT NULL,
    organization_id BIGINT NOT NULL,
    user_id BIGINT NOT NULL,
    index_key TEXT NOT NULL,
    q TEXT NOT NULL,
    result_count INTEGER NOT NULL DEFAULT 0,
    last_used_at TIMESTAMPTZ NOT NULL DEFAULT NOW(),
    created_at TIMESTAMPTZ NOT NULL DEFAULT NOW(),
    updated_at TIMESTAMPTZ NOT NULL DEFAULT NOW(),
    UNIQUE (tenant_id, organization_id, user_id, index_key, q)
);

CREATE TABLE IF NOT EXISTS search_promotion (
    id BIGINT GENERATED BY DEFAULT AS IDENTITY PRIMARY KEY,
    uuid TEXT NOT NULL UNIQUE,
    tenant_id BIGINT NOT NULL,
    organization_id BIGINT NOT NULL,
    promotion_key TEXT NOT NULL,
    placement TEXT NOT NULL,
    index_key TEXT NOT NULL,
    document_id TEXT NOT NULL,
    priority INTEGER NOT NULL DEFAULT 0,
    rule_json JSONB NOT NULL DEFAULT '[]'::jsonb,
    status INTEGER NOT NULL DEFAULT 1,
    active_from TIMESTAMPTZ,
    active_until TIMESTAMPTZ,
    created_at TIMESTAMPTZ NOT NULL DEFAULT NOW(),
    updated_at TIMESTAMPTZ NOT NULL DEFAULT NOW(),
    version BIGINT NOT NULL DEFAULT 0,
    deleted_at TIMESTAMPTZ,
    deleted_by BIGINT,
    UNIQUE (tenant_id, organization_id, promotion_key)
);
"#,
    );
    reveal_strlit(
        "UNIQUE (tenant_id, organization_id, index_key)",
    );
    lemma_says(
        SEARCH_INDEXING_MIGRATION_SQL@,
        "UNIQUE (tenant_id, organization_id, index_key)"@,
        649,
    );
    reveal_strlit(
        "    search_vector TSVECTOR GENERATED ALWAYS AS (\n        to_tsvector(\n            'pg_catalog.english',\n            title || ' ' || COALESCE(body_text, '') || ' ' || COALESCE(keyword_text, '')\n        )\n    ) STORED,\n    UNIQUE (tenant_id, organization_id, index_key, document_id)\n",
    );
    lemma_says(
        SEARCH_INDEXING_MIGRATION_SQL@,
        "    search_vector TSVECTOR GENERATED ALWAYS AS (\n        to_tsvector(\n            'pg_catalog.english',\n            title || ' ' || COALESCE(body_text, '') || ' ' || COALESCE(keyword_text, '')\n        )\n    ) STORED,\n    UNIQUE (tenant_id, organization_id, index_key, document_id)\n"@,
        2302,
    );
    reveal_strlit(
        "UNIQUE (tenant_id, organization_id, index_key, suggestion_text)",
    );
    lemma_says(
        SEARCH_INDEXING_MIGRATION_SQL@,
        "UNIQUE (tenant_id, organization_id, index_key, suggestion_text)"@,
        3328,
    );
    reveal_strlit(
        "UNIQUE (tenant_id, organization_id, user_id, index_key, q)",
    );
    lemma_says(
        SEARCH_INDEXING_MIGRATION_SQL@,
        "UNIQUE (tenant_id, organization_id, user_id, index_key, q)"@,
        4463,
    );
    reveal_strlit(
        "UNIQUE (tenant_id, organization_id, promotion_key)",
    );
    lemma_says(
        SEARCH_INDEXING_MIGRATION_SQL@,
        "UNIQUE (tenant_id, organization_id, promotion_key)"@,
        5238,
    );
}

} // verus!
