//! What the fixed statements of the PostgreSQL provider say.
use vstd::prelude::*;

use crate::provider_sql;

verus! {

/// The part stands in the text at that place.
pub open spec fn stands_in(text: Seq<char>, part: Seq<char>, place: int) -> bool {
    0 <= place && place + part.len() <= text.len() && text.subrange(place, place + part.len())
        == part
}

/// The text says so somewhere.
pub open spec fn says(text: Seq<char>, part: Seq<char>) -> bool {
    exists|place: int| #[trigger] stands_in(text, part, place)
}

/// A text says what stands in it at some place.
pub proof fn lemma_says(text: Seq<char>, part: Seq<char>, place: int)
    requires
        0 <= place,
        place + part.len() <= text.len(),
        text.subrange(place, place + part.len()) =~= part,
    ensures
        says(text, part),
{
    assert(stands_in(text, part, place));
}

/// Suggestions are those of the tenant, the organization and the index that are similar to
/// the text, the most similar first and no more than asked for.
pub proof fn lemma_suggest_text()
    ensures
        says(
            provider_sql::SUGGEST@,
            "SELECT suggestion_text, similarity(suggestion_text, $4) AS sim"@,
        ),
        says(
            provider_sql::SUGGEST@,
            "FROM search_query_suggestion\n            WHERE tenant_id = $1\n              AND organization_id = $2\n              AND index_key = $3\n              AND suggestion_text % $4\n            ORDER BY sim DESC\n            LIMIT $5\n"@,
        ),
{
    reveal_strlit(
        "\n            SELECT suggestion_text, similarity(suggestion_text, $4) AS sim\n            FROM search_query_suggestion\n            WHERE tenant_id = $1\n              AND organization_id = $2\n              AND index_key = $3\n              AND suggestion_text % $4\n            ORDER BY sim DESC\n            LIMIT $5\n            ",
    );
    reveal_strlit(
        "SELECT suggestion_text, similarity(suggestion_text, $4) AS sim",
    );
    lemma_says(
        provider_sql::SUGGEST@,
        "SELECT suggestion_text, similarity(suggestion_text, $4) AS sim"@,
        13,
    );
    reveal_strlit(
        "FROM search_query_suggestion\n            WHERE tenant_id = $1\n              AND organization_id = $2\n              AND index_key = $3\n              AND suggestion_text % $4\n            ORDER BY sim DESC\n            LIMIT $5\n",
    );
    lemma_says(
        provider_sql::SUGGEST@,
        "FROM search_query_suggestion\n            WHERE tenant_id = $1\n              AND organization_id = $2\n              AND index_key = $3\n              AND suggestion_text % $4\n            ORDER BY sim DESC\n            LIMIT $5\n"@,
        88,
    );
}

/// A semantic search reads the documents of the tenant, the organization and the index that
/// are not deleted and have an embedding, the nearest first and no more than asked for.
pub proof fn lemma_semantic_search_text()
    ensures
        says(
            provider_sql::SEMANTIC_SEARCH@,
            "SELECT document_id,\n                   1 - ((embedding_json->'vector')::text)::vector <=> $4::vector AS score,\n                   payload_json,\n                   title\n            FROM search_document"@,
        ),
        says(
            provider_sql::SEMANTIC_SEARCH@,
            "WHERE tenant_id = $1\n              AND organization_id = $2\n              AND index_key = $3\n              AND deleted_at IS NULL\n              AND embedding_json ? 'vector'\n"@,
        ),
        says(
            provider_sql::SEMANTIC_SEARCH@,
            "ORDER BY (embedding_json->'vector')::text::vector <=> $4::vector\n            LIMIT $5\n"@,
        ),
{
    reveal_strlit(
        "\n            SELECT document_id,\n                   1 - ((embedding_json->'vector')::text)::vector <=> $4::vector AS score,\n                   payload_json,\n                   title\n            FROM search_document\n            WHERE tenant_id = $1\n              AND organization_id = $2\n              AND index_key = $3\n              AND deleted_at IS NULL\n              AND embedding_json ? 'vector'\n            ORDER BY (embedding_json->'vector')::text::vector <=> $4::vector\n            LIMIT $5\n            ",
    );
    reveal_strlit(
        "SELECT document_id,\n                   1 - ((embedding_json->'vector')::text)::vector <=> $4::vector AS score,\n                   payload_json,\n                   title\n            FROM search_document",
    );
    lemma_says(
        provider_sql::SEMANTIC_SEARCH@,
        "SELECT document_id,\n                   1 - ((embedding_json->'vector')::text)::vector <=> $4::vector AS score,\n                   payload_json,\n                   title\n            FROM search_document"@,
        13,
    );
    reveal_strlit(
        "WHERE tenant_id = $1\n              AND organization_id = $2\n              AND index_key = $3\n              AND deleted_at IS NULL\n              AND embedding_json ? 'vector'\n",
    );
    lemma_says(
        provider_sql::SEMANTIC_SEARCH@,
        "WHERE tenant_id = $1\n              AND organization_id = $2\n              AND index_key = $3\n              AND deleted_at IS NULL\n              AND embedding_json ? 'vector'\n"@,
        227,
    );
    reveal_strlit(
        "ORDER BY (embedding_json->'vector')::text::vector <=> $4::vector\n            LIMIT $5\n",
    );
    lemma_says(
        provider_sql::SEMANTIC_SEARCH@,
        "ORDER BY (embedding_json->'vector')::text::vector <=> $4::vector\n            LIMIT $5\n"@,
        413,
    );
}

/// A document is written as active under its names, with each value in its column, over the
/// one of the same names where there is one; that one gets the new content and counts one
/// version more.
pub proof fn lemma_index_document_text()
    ensures
        says(
            provider_sql::INDEX_DOCUMENT@,
            "INSERT INTO search_document\n                (uuid, tenant_id, organization_id, index_id, index_key, document_id,\n                 title, body_text, keyword_text, payload_json, token_json,\n                 embedding_json, status, data_scope, indexed_at)\n            VALUES ($1, $2, $3, 0, $4, $5, $6, $7, $8, $9, '[]'::jsonb,\n                    $10, 1, 0, CURRENT_TIMESTAMP)\n"@,
        ),
        says(
            provider_sql::INDEX_DOCUMENT@,
            "ON CONFLICT (tenant_id, organization_id, index_key, document_id)\n            DO UPDATE SET\n                title = EXCLUDED.title,\n                body_text = EXCLUDED.body_text,\n                keyword_text = EXCLUDED.keyword_text,\n                payload_json = EXCLUDED.payload_json,\n                embedding_json = EXCLUDED.embedding_json,\n"@,
        ),
        says(
            provider_sql::INDEX_DOCUMENT@,
            "indexed_at = CURRENT_TIMESTAMP,\n                updated_at = CURRENT_TIMESTAMP,\n                version = search_document.version + 1\n"@,
        ),
{
    reveal_strlit(
        "\n            INSERT INTO search_document\n                (uuid, tenant_id, organization_id, index_id, index_key, document_id,\n                 title, body_text, keyword_text, payload_json, token_json,\n                 embedding_json, status, data_scope, indexed_at)\n            VALUES ($1, $2, $3, 0, $4, $5, $6, $7, $8, $9, '[]'::jsonb,\n                    $10, 1, 0, CURRENT_TIMESTAMP)\n            ON CONFLICT (tenant_id, organization_id, index_key, document_id)\n            DO UPDATE SET\n                title = EXCLUDED.title,\n                body_text = EXCLUDED.body_text,\n                keyword_text = EXCLUDED.keyword_text,\n                payload_json = EXCLUDED.payload_json,\n                embedding_json = EXCLUDED.embedding_json,\n                indexed_at = CURRENT_TIMESTAMP,\n                updated_at = CURRENT_TIMESTAMP,\n                version = search_document.version + 1\n            ",
    );
    reveal_strlit(
        "INSERT INTO search_document\n                (uuid, tenant_id, organization_id, index_id, index_key, document_id,\n                 title, body_text, keyword_text, payload_json, token_json,\n                 embedding_json, status, data_scope, indexed_at)\n            VALUES ($1, $2, $3, 0, $4, $5, $6, $7, $8, $9, '[]'::jsonb,\n                    $10, 1, 0, CURRENT_TIMESTAMP)\n",
    );
    lemma_says(
        provider_sql::INDEX_DOCUMENT@,
        "INSERT INTO search_document\n                (uuid, tenant_id, organization_id, index_id, index_key, document_id,\n                 title, body_text, keyword_text, payload_json, token_json,\n                 embedding_json, status, data_scope, indexed_at)\n            VALUES ($1, $2, $3, 0, $4, $5, $6, $7, $8, $9, '[]'::jsonb,\n                    $10, 1, 0, CURRENT_TIMESTAMP)\n"@,
        13,
    );
    reveal_strlit(
        "ON CONFLICT (tenant_id, organization_id, index_key, document_id)\n            DO UPDATE SET\n                title = EXCLUDED.title,\n                body_text = EXCLUDED.body_text,\n                keyword_text = EXCLUDED.keyword_text,\n                payload_json = EXCLUDED.payload_json,\n                embedding_json = EXCLUDED.embedding_json,\n",
    );
    lemma_says(
        provider_sql::INDEX_DOCUMENT@,
        "ON CONFLICT (tenant_id, organization_id, index_key, document_id)\n            DO UPDATE SET\n                title = EXCLUDED.title,\n                body_text = EXCLUDED.body_text,\n                keyword_text = EXCLUDED.keyword_text,\n                payload_json = EXCLUDED.payload_json,\n                embedding_json = EXCLUDED.embedding_json,\n"@,
        400,
    );
    reveal_strlit(
        "indexed_at = CURRENT_TIMESTAMP,\n                updated_at = CURRENT_TIMESTAMP,\n                version = search_document.version + 1\n",
    );
    lemma_says(
        provider_sql::INDEX_DOCUMENT@,
        "indexed_at = CURRENT_TIMESTAMP,\n                updated_at = CURRENT_TIMESTAMP,\n                version = search_document.version + 1\n"@,
        761,
    );
}

/// A partial change merges the new fields into the payload of the document of that name, and
/// of no other.
pub proof fn lemma_merge_document_text()
    ensures
        says(
            provider_sql::MERGE_DOCUMENT@,
            "UPDATE search_document\n                SET payload_json = payload_json || $4,\n                    updated_at = CURRENT_TIMESTAMP,\n                    version = version + 1\n"@,
        ),
        says(
            provider_sql::MERGE_DOCUMENT@,
            "WHERE tenant_id = $1 AND organization_id = $2\n                  AND index_key = $3 AND document_id = $5\n                  AND deleted_at IS NULL\n"@,
        ),
{
    reveal_strlit(
        "\n                UPDATE search_document\n                SET payload_json = payload_json || $4,\n                    updated_at = CURRENT_TIMESTAMP,\n                    version = version + 1\n                WHERE tenant_id = $1 AND organization_id = $2\n                  AND index_key = $3 AND document_id = $5\n                  AND deleted_at IS NULL\n                ",
    );
    reveal_strlit(
        "UPDATE search_document\n                SET payload_json = payload_json || $4,\n                    updated_at = CURRENT_TIMESTAMP,\n                    version = version + 1\n",
    );
    lemma_says(
        provider_sql::MERGE_DOCUMENT@,
        "UPDATE search_document\n                SET payload_json = payload_json || $4,\n                    updated_at = CURRENT_TIMESTAMP,\n                    version = version + 1\n"@,
        17,
    );
    reveal_strlit(
        "WHERE tenant_id = $1 AND organization_id = $2\n                  AND index_key = $3 AND document_id = $5\n                  AND deleted_at IS NULL\n",
    );
    lemma_says(
        provider_sql::MERGE_DOCUMENT@,
        "WHERE tenant_id = $1 AND organization_id = $2\n                  AND index_key = $3 AND document_id = $5\n                  AND deleted_at IS NULL\n"@,
        205,
    );
}

/// A full change puts the new payload in the place of that of the document of that name, and
/// of no other.
pub proof fn lemma_replace_document_text()
    ensures
        says(
            provider_sql::REPLACE_DOCUMENT@,
            "UPDATE search_document\n                SET payload_json = $4,\n                    updated_at = CURRENT_TIMESTAMP,\n                    version = version + 1\n"@,
        ),
        says(
            provider_sql::REPLACE_DOCUMENT@,
            "WHERE tenant_id = $1 AND organization_id = $2\n                  AND index_key = $3 AND document_id = $5\n                  AND deleted_at IS NULL\n"@,
        ),
{
    reveal_strlit(
        "\n                UPDATE search_document\n                SET payload_json = $4,\n                    updated_at = CURRENT_TIMESTAMP,\n                    version = version + 1\n                WHERE tenant_id = $1 AND organization_id = $2\n                  AND index_key = $3 AND document_id = $5\n                  AND deleted_at IS NULL\n                ",
    );
    reveal_strlit(
        "UPDATE search_document\n                SET payload_json = $4,\n                    updated_at = CURRENT_TIMESTAMP,\n                    version = version + 1\n",
    );
    lemma_says(
        provider_sql::REPLACE_DOCUMENT@,
        "UPDATE search_document\n                SET payload_json = $4,\n                    updated_at = CURRENT_TIMESTAMP,\n                    version = version + 1\n"@,
        17,
    );
    reveal_strlit(
        "WHERE tenant_id = $1 AND organization_id = $2\n                  AND index_key = $3 AND document_id = $5\n                  AND deleted_at IS NULL\n",
    );
    lemma_says(
        provider_sql::REPLACE_DOCUMENT@,
        "WHERE tenant_id = $1 AND organization_id = $2\n                  AND index_key = $3 AND document_id = $5\n                  AND deleted_at IS NULL\n"@,
        189,
    );
}

/// A deletion marks the document of that name, and no other, and one only once.
pub proof fn lemma_delete_document_text()
    ensures
        says(
            provider_sql::DELETE_DOCUMENT@,
            "UPDATE search_document\n            SET deleted_at = CURRENT_TIMESTAMP,\n                status = 0,\n                version = version + 1\n"@,
        ),
        says(
            provider_sql::DELETE_DOCUMENT@,
            "WHERE tenant_id = $1 AND organization_id = $2\n              AND index_key = $3 AND document_id = $4\n              AND deleted_at IS NULL\n"@,
        ),
{
    reveal_strlit(
        "\n            UPDATE search_document\n            SET deleted_at = CURRENT_TIMESTAMP,\n                status = 0,\n                version = version + 1\n            WHERE tenant_id = $1 AND organization_id = $2\n              AND index_key = $3 AND document_id = $4\n              AND deleted_at IS NULL\n            ",
    );
    reveal_strlit(
        "UPDATE search_document\n            SET deleted_at = CURRENT_TIMESTAMP,\n                status = 0,\n                version = version + 1\n",
    );
    lemma_says(
        provider_sql::DELETE_DOCUMENT@,
        "UPDATE search_document\n            SET deleted_at = CURRENT_TIMESTAMP,\n                status = 0,\n                version = version + 1\n"@,
        13,
    );
    reveal_strlit(
        "WHERE tenant_id = $1 AND organization_id = $2\n              AND index_key = $3 AND document_id = $4\n              AND deleted_at IS NULL\n",
    );
    lemma_says(
        provider_sql::DELETE_DOCUMENT@,
        "WHERE tenant_id = $1 AND organization_id = $2\n              AND index_key = $3 AND document_id = $4\n              AND deleted_at IS NULL\n"@,
        162,
    );
}

/// An index is written as active, its key standing for its title, over the one of the same
/// key where there is one; that one gets the new configuration.
pub proof fn lemma_create_index_text()
    ensures
        says(
            provider_sql::CREATE_INDEX@,
            "INSERT INTO search_index\n                (uuid, tenant_id, organization_id, index_key, title, description,\n                 status, data_scope, config_json)\n            VALUES ($1, $2, $3, $4, $4, NULL, 1, 0, $5)\n"@,
        ),
        says(
            provider_sql::CREATE_INDEX@,
            "ON CONFLICT (tenant_id, organization_id, index_key)\n            DO UPDATE SET config_json = EXCLUDED.config_json, updated_at = CURRENT_TIMESTAMP\n"@,
        ),
{
    reveal_strlit(
        "\n            INSERT INTO search_index\n                (uuid, tenant_id, organization_id, index_key, title, description,\n                 status, data_scope, config_json)\n            VALUES ($1, $2, $3, $4, $4, NULL, 1, 0, $5)\n            ON CONFLICT (tenant_id, organization_id, index_key)\n            DO UPDATE SET config_json = EXCLUDED.config_json, updated_at = CURRENT_TIMESTAMP\n            ",
    );
    reveal_strlit(
        "INSERT INTO search_index\n                (uuid, tenant_id, organization_id, index_key, title, description,\n                 status, data_scope, config_json)\n            VALUES ($1, $2, $3, $4, $4, NULL, 1, 0, $5)\n",
    );
    lemma_says(
        provider_sql::CREATE_INDEX@,
        "INSERT INTO search_index\n                (uuid, tenant_id, organization_id, index_key, title, description,\n                 status, data_scope, config_json)\n            VALUES ($1, $2, $3, $4, $4, NULL, 1, 0, $5)\n"@,
        13,
    );
    reveal_strlit(
        "ON CONFLICT (tenant_id, organization_id, index_key)\n            DO UPDATE SET config_json = EXCLUDED.config_json, updated_at = CURRENT_TIMESTAMP\n",
    );
    lemma_says(
        provider_sql::CREATE_INDEX@,
        "ON CONFLICT (tenant_id, organization_id, index_key)\n            DO UPDATE SET config_json = EXCLUDED.config_json, updated_at = CURRENT_TIMESTAMP\n"@,
        238,
    );
}

/// Dropping an index marks the one of that key, and no other.
pub proof fn lemma_drop_index_text()
    ensures
        says(
            provider_sql::DROP_INDEX@,
            "UPDATE search_index\n            SET deleted_at = CURRENT_TIMESTAMP, status = 0, updated_at = CURRENT_TIMESTAMP\n"@,
        ),
        says(
            provider_sql::DROP_INDEX@,
            "WHERE tenant_id = $1 AND organization_id = $2 AND index_key = $3\n"@,
        ),
{
    reveal_strlit(
        "\n            UPDATE search_index\n            SET deleted_at = CURRENT_TIMESTAMP, status = 0, updated_at = CURRENT_TIMESTAMP\n            WHERE tenant_id = $1 AND organization_id = $2 AND index_key = $3\n            ",
    );
    reveal_strlit(
        "UPDATE search_index\n            SET deleted_at = CURRENT_TIMESTAMP, status = 0, updated_at = CURRENT_TIMESTAMP\n",
    );
    lemma_says(
        provider_sql::DROP_INDEX@,
        "UPDATE search_index\n            SET deleted_at = CURRENT_TIMESTAMP, status = 0, updated_at = CURRENT_TIMESTAMP\n"@,
        13,
    );
    reveal_strlit(
        "WHERE tenant_id = $1 AND organization_id = $2 AND index_key = $3\n",
    );
    lemma_says(
        provider_sql::DROP_INDEX@,
        "WHERE tenant_id = $1 AND organization_id = $2 AND index_key = $3\n"@,
        136,
    );
}

/// Setting up fuzzy matching and vector search asks for their extensions, and asking whether
/// the database answers asks for the number one.
pub proof fn lemma_setup_texts()
    ensures
        provider_sql::CREATE_TRIGRAM_EXTENSION@ == "CREATE EXTENSION IF NOT EXISTS pg_trgm"@,
        provider_sql::CREATE_VECTOR_EXTENSION@ == "CREATE EXTENSION IF NOT EXISTS vector"@,
        provider_sql::HEALTH@ == "SELECT 1"@,
{
}

} // verus!
