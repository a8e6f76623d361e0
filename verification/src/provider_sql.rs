//! The fixed statements of the PostgreSQL provider. Their parameters are numbered
//! in the order in which values are bound to them.
use vstd::prelude::*;

verus! {

/// Sets up fuzzy matching.
pub const CREATE_TRIGRAM_EXTENSION: &'static str = "CREATE EXTENSION IF NOT EXISTS pg_trgm";

/// Sets up vector search.
pub const CREATE_VECTOR_EXTENSION: &'static str = "CREATE EXTENSION IF NOT EXISTS vector";

/// Asks whether the database answers.
pub const HEALTH: &'static str = "SELECT 1";

/// The suggestions most similar to a text.
pub const SUGGEST: &'static str = r#"
            SELECT suggestion_text, similarity(suggestion_text, $4) AS sim
            FROM search_query_suggestion
            WHERE tenant_id = $1
              AND organization_id = $2
              AND index_key = $3
              AND suggestion_text % $4
            ORDER BY sim DESC
            LIMIT $5
            "#;

/// The documents whose embedding is nearest to a vector.
pub const SEMANTIC_SEARCH: &'static str = r#"
            SELECT document_id,
                   1 - ((embedding_json->'vector')::text)::vector <=> $4::vector AS score,
                   payload_json,
                   title
            FROM search_document
            WHERE tenant_id = $1
              AND organization_id = $2
              AND index_key = $3
              AND deleted_at IS NULL
              AND embedding_json ? 'vector'
            ORDER BY (embedding_json->'vector')::text::vector <=> $4::vector
            LIMIT $5
            "#;

/// Writes a document, over the one of the same name where there is one.
pub const INDEX_DOCUMENT: &'static str = r#"
            INSERT INTO search_document
                (uuid, tenant_id, organization_id, index_id, index_key, document_id,
                 title, body_text, keyword_text, payload_json, token_json,
                 embedding_json, status, data_scope, indexed_at)
            VALUES ($1, $2, $3, 0, $4, $5, $6, $7, $8, $9, '[]'::jsonb,
                    $10, 1, 0, CURRENT_TIMESTAMP)
            ON CONFLICT (tenant_id, organization_id, index_key, document_id)
            DO UPDATE SET
                title = EXCLUDED.title,
                body_text = EXCLUDED.body_text,
                keyword_text = EXCLUDED.keyword_text,
                payload_json = EXCLUDED.payload_json,
                embedding_json = EXCLUDED.embedding_json,
                indexed_at = CURRENT_TIMESTAMP,
                updated_at = CURRENT_TIMESTAMP,
                version = search_document.version + 1
            "#;

/// Merges fields into the payload of a document.
pub const MERGE_DOCUMENT: &'static str = r#"
                UPDATE search_document
                SET payload_json = payload_json || $4,
                    updated_at = CURRENT_TIMESTAMP,
                    version = version + 1
                WHERE tenant_id = $1 AND organization_id = $2
                  AND index_key = $3 AND document_id = $5
                  AND deleted_at IS NULL
                "#;

/// Replaces the payload of a document.
pub const REPLACE_DOCUMENT: &'static str = r#"
                UPDATE search_document
                SET payload_json = $4,
                    updated_at = CURRENT_TIMESTAMP,
                    version = version + 1
                WHERE tenant_id = $1 AND organization_id = $2
                  AND index_key = $3 AND document_id = $5
                  AND deleted_at IS NULL
                "#;

/// Marks a document as deleted.
pub const DELETE_DOCUMENT: &'static str = r#"
            UPDATE search_document
            SET deleted_at = CURRENT_TIMESTAMP,
                status = 0,
                version = version + 1
            WHERE tenant_id = $1 AND organization_id = $2
              AND index_key = $3 AND document_id = $4
              AND deleted_at IS NULL
            "#;

/// Writes an index, over the one of the same key where there is one.
pub const CREATE_INDEX: &'static str = r#"
            INSERT INTO search_index
                (uuid, tenant_id, organization_id, index_key, title, description,
                 status, data_scope, config_json)
            VALUES ($1, $2, $3, $4, $4, NULL, 1, 0, $5)
            ON CONFLICT (tenant_id, organization_id, index_key)
            DO UPDATE SET config_json = EXCLUDED.config_json, updated_at = CURRENT_TIMESTAMP
            "#;

/// Marks an index as deleted.
pub const DROP_INDEX: &'static str = r#"
            UPDATE search_index
            SET deleted_at = CURRENT_TIMESTAMP, status = 0, updated_at = CURRENT_TIMESTAMP
            WHERE tenant_id = $1 AND organization_id = $2 AND index_key = $3
            "#;

} // verus!
