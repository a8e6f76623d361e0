//! What the named statements say: which rows they read or write, and in which order.
use vstd::prelude::*;

use crate::provider_sql_laws::{lemma_says, says};
use crate::queries;

verus! {

/// [`queries::INDEX_LIST_INDEXES`]: the indexes of an organization, the latest first.
pub proof fn lemma_index_list_indexes_text()
    ensures
        says(
            queries::INDEX_LIST_INDEXES@,
            "FROM search_index"@,
        ),
        says(
            queries::INDEX_LIST_INDEXES@,
            "WHERE tenant_id = :tenant_id AND organization_id = :organization_id AND deleted_at \
            IS NULL"@,
        ),
        says(
            queries::INDEX_LIST_INDEXES@,
            "ORDER BY updated_at DESC"@,
        ),
{
    reveal_strlit(
        "SELECT id, uuid, tenant_id, organization_id, index_key, title, description, status, \
        data_scope, config_json, created_at, updated_at, version, deleted_at, deleted_by \
        FROM search_index WHERE tenant_id = :tenant_id AND organization_id = \
        :organization_id AND deleted_at IS NULL ORDER BY updated_at DESC",
    );
    reveal_strlit(
        "FROM search_index",
    );
    lemma_says(
        queries::INDEX_LIST_INDEXES@,
        "FROM search_index"@,
        165,
    );
    reveal_strlit(
        "WHERE tenant_id = :tenant_id AND organization_id = :organization_id AND deleted_at \
        IS NULL",
    );
    lemma_says(
        queries::INDEX_LIST_INDEXES@,
        "WHERE tenant_id = :tenant_id AND organization_id = :organization_id AND deleted_at \
        IS NULL"@,
        183,
    );
    reveal_strlit(
        "ORDER BY updated_at DESC",
    );
    lemma_says(
        queries::INDEX_LIST_INDEXES@,
        "ORDER BY updated_at DESC"@,
        274,
    );
}

/// [`queries::INDEX_GET_BY_KEY`]: the index of a key.
pub proof fn lemma_index_get_by_key_text()
    ensures
        says(
            queries::INDEX_GET_BY_KEY@,
            "FROM search_index"@,
        ),
        says(
            queries::INDEX_GET_BY_KEY@,
            "WHERE tenant_id = :tenant_id AND organization_id = :organization_id AND index_key = \
            :index_key AND deleted_at IS NULL"@,
        ),
{
    reveal_strlit(
        "SELECT id, uuid, tenant_id, organization_id, index_key, title, description, status, \
        data_scope, config_json, created_at, updated_at, version, deleted_at, deleted_by \
        FROM search_index WHERE tenant_id = :tenant_id AND organization_id = \
        :organization_id AND index_key = :index_key AND deleted_at IS NULL",
    );
    reveal_strlit(
        "FROM search_index",
    );
    lemma_says(
        queries::INDEX_GET_BY_KEY@,
        "FROM search_index"@,
        165,
    );
    reveal_strlit(
        "WHERE tenant_id = :tenant_id AND organization_id = :organization_id AND index_key = \
        :index_key AND deleted_at IS NULL",
    );
    lemma_says(
        queries::INDEX_GET_BY_KEY@,
        "WHERE tenant_id = :tenant_id AND organization_id = :organization_id AND index_key = \
        :index_key AND deleted_at IS NULL"@,
        183,
    );
}

/// [`queries::INDEX_CREATE`]: writes a new index.
pub proof fn lemma_index_create_text()
    ensures
        says(
            queries::INDEX_CREATE@,
            "INSERT INTO search_index (id, uuid, tenant_id, organization_id, index_key, title, \
            description, status, data_scope, config_json, version)"@,
        ),
        says(
            queries::INDEX_CREATE@,
            "VALUES (:id, :uuid, :tenant_id, :organization_id, :index_key, :title, :description, \
            1, 0, :config_json, 0)"@,
        ),
{
    reveal_strlit(
        "INSERT INTO search_index (id, uuid, tenant_id, organization_id, index_key, title, \
        description, status, data_scope, config_json, version) VALUES (:id, :uuid, \
        :tenant_id, :organization_id, :index_key, :title, :description, 1, 0, :config_json, \
        0) RETURNING id, uuid, tenant_id, organization_id, index_key, title, description, \
        status, data_scope, config_json, created_at, updated_at, version, deleted_at, \
        deleted_by",
    );
    reveal_strlit(
        "INSERT INTO search_index (id, uuid, tenant_id, organization_id, index_key, title, \
        description, status, data_scope, config_json, version)",
    );
    lemma_says(
        queries::INDEX_CREATE@,
        "INSERT INTO search_index (id, uuid, tenant_id, organization_id, index_key, title, \
        description, status, data_scope, config_json, version)"@,
        0,
    );
    reveal_strlit(
        "VALUES (:id, :uuid, :tenant_id, :organization_id, :index_key, :title, :description, \
        1, 0, :config_json, 0)",
    );
    lemma_says(
        queries::INDEX_CREATE@,
        "VALUES (:id, :uuid, :tenant_id, :organization_id, :index_key, :title, :description, \
        1, 0, :config_json, 0)"@,
        137,
    );
}

/// [`queries::INDEX_UPDATE`]: changes an index.
pub proof fn lemma_index_update_text()
    ensures
        says(
            queries::INDEX_UPDATE@,
            "UPDATE search_index SET title = :title, description = :description, status = \
            :status, config_json = :config_json, version = version + 1, updated_at = NOW()"@,
        ),
        says(
            queries::INDEX_UPDATE@,
            "WHERE id = :id AND tenant_id = :tenant_id AND organization_id = :organization_id \
            AND deleted_at IS NULL"@,
        ),
{
    reveal_strlit(
        "UPDATE search_index SET title = :title, description = :description, status = \
        :status, config_json = :config_json, version = version + 1, updated_at = NOW() \
        WHERE id = :id AND tenant_id = :tenant_id AND organization_id = :organization_id \
        AND deleted_at IS NULL RETURNING id, uuid, tenant_id, organization_id, index_key, \
        title, description, status, data_scope, config_json, created_at, updated_at, \
        version, deleted_at, deleted_by",
    );
    reveal_strlit(
        "UPDATE search_index SET title = :title, description = :description, status = \
        :status, config_json = :config_json, version = version + 1, updated_at = NOW()",
    );
    lemma_says(
        queries::INDEX_UPDATE@,
        "UPDATE search_index SET title = :title, description = :description, status = \
        :status, config_json = :config_json, version = version + 1, updated_at = NOW()"@,
        0,
    );
    reveal_strlit(
        "WHERE id = :id AND tenant_id = :tenant_id AND organization_id = :organization_id \
        AND deleted_at IS NULL",
    );
    lemma_says(
        queries::INDEX_UPDATE@,
        "WHERE id = :id AND tenant_id = :tenant_id AND organization_id = :organization_id \
        AND deleted_at IS NULL"@,
        156,
    );
}

/// [`queries::INDEX_DELETE`]: marks an index as deleted.
pub proof fn lemma_index_delete_text()
    ensures
        says(
            queries::INDEX_DELETE@,
            "UPDATE search_index SET deleted_at = NOW(), deleted_by = :deleted_by, version = \
            version + 1, updated_at = NOW()"@,
        ),
        says(
            queries::INDEX_DELETE@,
            "WHERE id = :id AND tenant_id = :tenant_id AND organization_id = :organization_id \
            AND deleted_at IS NULL"@,
        ),
{
    reveal_strlit(
        "UPDATE search_index SET deleted_at = NOW(), deleted_by = :deleted_by, version = \
        version + 1, updated_at = NOW() WHERE id = :id AND tenant_id = :tenant_id AND \
        organization_id = :organization_id AND deleted_at IS NULL",
    );
    reveal_strlit(
        "UPDATE search_index SET deleted_at = NOW(), deleted_by = :deleted_by, version = \
        version + 1, updated_at = NOW()",
    );
    lemma_says(
        queries::INDEX_DELETE@,
        "UPDATE search_index SET deleted_at = NOW(), deleted_by = :deleted_by, version = \
        version + 1, updated_at = NOW()"@,
        0,
    );
    reveal_strlit(
        "WHERE id = :id AND tenant_id = :tenant_id AND organization_id = :organization_id \
        AND deleted_at IS NULL",
    );
    lemma_says(
        queries::INDEX_DELETE@,
        "WHERE id = :id AND tenant_id = :tenant_id AND organization_id = :organization_id \
        AND deleted_at IS NULL"@,
        112,
    );
}

/// [`queries::JOB_CREATE`]: writes a new indexing job, pending and scheduled at once.
pub proof fn lemma_job_create_text()
    ensures
        says(
            queries::JOB_CREATE@,
            "INSERT INTO search_index_job (id, uuid, tenant_id, organization_id, index_key, \
            job_type, status, payload_json, scheduled_at)"@,
        ),
        says(
            queries::JOB_CREATE@,
            "VALUES (:id, :uuid, :tenant_id, :organization_id, :index_key, :job_type, 0, \
            :payload_json, NOW())"@,
        ),
{
    reveal_strlit(
        "INSERT INTO search_index_job (id, uuid, tenant_id, organization_id, index_key, \
        job_type, status, payload_json, scheduled_at) VALUES (:id, :uuid, :tenant_id, \
        :organization_id, :index_key, :job_type, 0, :payload_json, NOW()) RETURNING id, \
        uuid, tenant_id, organization_id, index_key, job_type, status, payload_json, \
        scheduled_at, started_at, finished_at, error_summary, retry_count, created_at, \
        updated_at, version",
    );
    reveal_strlit(
        "INSERT INTO search_index_job (id, uuid, tenant_id, organization_id, index_key, \
        job_type, status, payload_json, scheduled_at)",
    );
    lemma_says(
        queries::JOB_CREATE@,
        "INSERT INTO search_index_job (id, uuid, tenant_id, organization_id, index_key, \
        job_type, status, payload_json, scheduled_at)"@,
        0,
    );
    reveal_strlit(
        "VALUES (:id, :uuid, :tenant_id, :organization_id, :index_key, :job_type, 0, \
        :payload_json, NOW())",
    );
    lemma_says(
        queries::JOB_CREATE@,
        "VALUES (:id, :uuid, :tenant_id, :organization_id, :index_key, :job_type, 0, \
        :payload_json, NOW())"@,
        125,
    );
}

/// [`queries::JOB_GET`]: the indexing job of a name.
pub proof fn lemma_job_get_text()
    ensures
        says(
            queries::JOB_GET@,
            "FROM search_index_job"@,
        ),
        says(
            queries::JOB_GET@,
            "WHERE tenant_id = :tenant_id AND organization_id = :organization_id AND uuid = :uuid"@,
        ),
{
    reveal_strlit(
        "SELECT id, uuid, tenant_id, organization_id, index_key, job_type, status, \
        payload_json, scheduled_at, started_at, finished_at, error_summary, retry_count, \
        created_at, updated_at, version FROM search_index_job WHERE tenant_id = :tenant_id \
        AND organization_id = :organization_id AND uuid = :uuid",
    );
    reveal_strlit(
        "FROM search_index_job",
    );
    lemma_says(
        queries::JOB_GET@,
        "FROM search_index_job"@,
        187,
    );
    reveal_strlit(
        "WHERE tenant_id = :tenant_id AND organization_id = :organization_id AND uuid = :uuid",
    );
    lemma_says(
        queries::JOB_GET@,
        "WHERE tenant_id = :tenant_id AND organization_id = :organization_id AND uuid = :uuid"@,
        209,
    );
}

/// [`queries::JOB_UPDATE_STATUS`]: changes the status of an indexing job. The times and the
/// error summary may be null. A job that is not found leaves no row affected.
pub proof fn lemma_job_update_status_text()
    ensures
        says(
            queries::JOB_UPDATE_STATUS@,
            "UPDATE search_index_job SET status = :status, started_at = :started_at, finished_at \
            = :finished_at, error_summary = :error_summary, updated_at = NOW(), version = \
            version + 1"@,
        ),
        says(
            queries::JOB_UPDATE_STATUS@,
            "WHERE uuid = :uuid AND tenant_id = :tenant_id AND organization_id = :organization_id"@,
        ),
{
    reveal_strlit(
        "UPDATE search_index_job SET status = :status, started_at = :started_at, finished_at \
        = :finished_at, error_summary = :error_summary, updated_at = NOW(), version = \
        version + 1 WHERE uuid = :uuid AND tenant_id = :tenant_id AND organization_id = \
        :organization_id",
    );
    reveal_strlit(
        "UPDATE search_index_job SET status = :status, started_at = :started_at, finished_at \
        = :finished_at, error_summary = :error_summary, updated_at = NOW(), version = \
        version + 1",
    );
    lemma_says(
        queries::JOB_UPDATE_STATUS@,
        "UPDATE search_index_job SET status = :status, started_at = :started_at, finished_at \
        = :finished_at, error_summary = :error_summary, updated_at = NOW(), version = \
        version + 1"@,
        0,
    );
    reveal_strlit(
        "WHERE uuid = :uuid AND tenant_id = :tenant_id AND organization_id = :organization_id",
    );
    lemma_says(
        queries::JOB_UPDATE_STATUS@,
        "WHERE uuid = :uuid AND tenant_id = :tenant_id AND organization_id = :organization_id"@,
        174,
    );
}

/// [`queries::DOCUMENT_GET`]: the document of a name.
pub proof fn lemma_document_get_text()
    ensures
        says(
            queries::DOCUMENT_GET@,
            "FROM search_document"@,
        ),
        says(
            queries::DOCUMENT_GET@,
            "WHERE tenant_id = :tenant_id AND organization_id = :organization_id AND index_key = \
            :index_key AND document_id = :document_id AND deleted_at IS NULL"@,
        ),
{
    reveal_strlit(
        "SELECT id, uuid, tenant_id, organization_id, index_id, index_key, document_id, \
        capability, scope, group_key, group_title, source_ref, title, body_text, \
        keyword_text, payload_json, token_json, embedding_json, status, data_scope, \
        indexed_at, created_at, updated_at, version, deleted_at, deleted_by FROM \
        search_document WHERE tenant_id = :tenant_id AND organization_id = :organization_id \
        AND index_key = :index_key AND document_id = :document_id AND deleted_at IS NULL",
    );
    reveal_strlit(
        "FROM search_document",
    );
    lemma_says(
        queries::DOCUMENT_GET@,
        "FROM search_document"@,
        296,
    );
    reveal_strlit(
        "WHERE tenant_id = :tenant_id AND organization_id = :organization_id AND index_key = \
        :index_key AND document_id = :document_id AND deleted_at IS NULL",
    );
    lemma_says(
        queries::DOCUMENT_GET@,
        "WHERE tenant_id = :tenant_id AND organization_id = :organization_id AND index_key = \
        :index_key AND document_id = :document_id AND deleted_at IS NULL"@,
        317,
    );
}

/// [`queries::DOCUMENT_LIST`]: a page of the documents of an index, the latest first.
pub proof fn lemma_document_list_text()
    ensures
        says(
            queries::DOCUMENT_LIST@,
            "FROM search_document"@,
        ),
        says(
            queries::DOCUMENT_LIST@,
            "WHERE tenant_id = :tenant_id AND organization_id = :organization_id AND index_key = \
            :index_key AND deleted_at IS NULL"@,
        ),
        says(
            queries::DOCUMENT_LIST@,
            "ORDER BY updated_at DESC LIMIT :limit OFFSET :offset"@,
        ),
{
    reveal_strlit(
        "SELECT id, uuid, tenant_id, organization_id, index_id, index_key, document_id, \
        capability, scope, group_key, group_title, source_ref, title, body_text, \
        keyword_text, payload_json, token_json, embedding_json, status, data_scope, \
        indexed_at, created_at, updated_at, version, deleted_at, deleted_by FROM \
        search_document WHERE tenant_id = :tenant_id AND organization_id = :organization_id \
        AND index_key = :index_key AND deleted_at IS NULL ORDER BY updated_at DESC LIMIT \
        :limit OFFSET :offset",
    );
    reveal_strlit(
        "FROM search_document",
    );
    lemma_says(
        queries::DOCUMENT_LIST@,
        "FROM search_document"@,
        296,
    );
    reveal_strlit(
        "WHERE tenant_id = :tenant_id AND organization_id = :organization_id AND index_key = \
        :index_key AND deleted_at IS NULL",
    );
    lemma_says(
        queries::DOCUMENT_LIST@,
        "WHERE tenant_id = :tenant_id AND organization_id = :organization_id AND index_key = \
        :index_key AND deleted_at IS NULL"@,
        317,
    );
    reveal_strlit(
        "ORDER BY updated_at DESC LIMIT :limit OFFSET :offset",
    );
    lemma_says(
        queries::DOCUMENT_LIST@,
        "ORDER BY updated_at DESC LIMIT :limit OFFSET :offset"@,
        435,
    );
}

/// [`queries::DOCUMENT_UPSERT`]: writes a document, over the one of the same name where there
/// is one.
pub proof fn lemma_document_upsert_text()
    ensures
        says(
            queries::DOCUMENT_UPSERT@,
            "INSERT INTO search_document (id, uuid, tenant_id, organization_id, index_id, \
            index_key, document_id, capability, scope, group_key, group_title, source_ref, \
            title, body_text, keyword_text, payload_json, token_json, embedding_json, status, \
            data_scope, indexed_at)"@,
        ),
        says(
            queries::DOCUMENT_UPSERT@,
            "VALUES (:id, :uuid, :tenant_id, :organization_id, :index_id, :index_key, \
            :document_id, :capability, :scope, :group_key, :group_title, :source_ref, :title, \
            :body_text, :keyword_text, :payload_json, :token_json, :embedding_json, :status, \
            :data_scope, NOW())"@,
        ),
        says(
            queries::DOCUMENT_UPSERT@,
            "ON CONFLICT (tenant_id, organization_id, index_key, document_id) DO UPDATE SET \
            index_id = EXCLUDED.index_id, capability = EXCLUDED.capability, scope = \
            EXCLUDED.scope, group_key = EXCLUDED.group_key, group_title = EXCLUDED.group_title, \
            source_ref = EXCLUDED.source_ref, title = EXCLUDED.title, body_text = \
            EXCLUDED.body_text, keyword_text = EXCLUDED.keyword_text, payload_json = \
            EXCLUDED.payload_json, token_json = EXCLUDED.token_json, embedding_json = \
            EXCLUDED.embedding_json, status = EXCLUDED.status, data_scope = \
            EXCLUDED.data_scope, indexed_at = NOW(), updated_at = NOW(), version = \
            search_document.version + 1"@,
        ),
{
    reveal_strlit(
        "INSERT INTO search_document (id, uuid, tenant_id, organization_id, index_id, \
        index_key, document_id, capability, scope, group_key, group_title, source_ref, \
        title, body_text, keyword_text, payload_json, token_json, embedding_json, status, \
        data_scope, indexed_at) VALUES (:id, :uuid, :tenant_id, :organization_id, \
        :index_id, :index_key, :document_id, :capability, :scope, :group_key, :group_title, \
        :source_ref, :title, :body_text, :keyword_text, :payload_json, :token_json, \
        :embedding_json, :status, :data_scope, NOW()) ON CONFLICT (tenant_id, \
        organization_id, index_key, document_id) DO UPDATE SET index_id = \
        EXCLUDED.index_id, capability = EXCLUDED.capability, scope = EXCLUDED.scope, \
        group_key = EXCLUDED.group_key, group_title = EXCLUDED.group_title, source_ref = \
        EXCLUDED.source_ref, title = EXCLUDED.title, body_text = EXCLUDED.body_text, \
        keyword_text = EXCLUDED.keyword_text, payload_json = EXCLUDED.payload_json, \
        token_json = EXCLUDED.token_json, embedding_json = EXCLUDED.embedding_json, status \
        = EXCLUDED.status, data_scope = EXCLUDED.data_scope, indexed_at = NOW(), updated_at \
        = NOW(), version = search_document.version + 1 RETURNING id, uuid, tenant_id, \
        organization_id, index_id, index_key, document_id, capability, scope, group_key, \
        group_title, source_ref, title, body_text, keyword_text, payload_json, token_json, \
        embedding_json, status, data_scope, indexed_at, created_at, updated_at, version, \
        deleted_at, deleted_by",
    );
    reveal_strlit(
        "INSERT INTO search_document (id, uuid, tenant_id, organization_id, index_id, \
        index_key, document_id, capability, scope, group_key, group_title, source_ref, \
        title, body_text, keyword_text, payload_json, token_json, embedding_json, status, \
        data_scope, indexed_at)",
    );
    lemma_says(
        queries::DOCUMENT_UPSERT@,
        "INSERT INTO search_document (id, uuid, tenant_id, organization_id, index_id, \
        index_key, document_id, capability, scope, group_key, group_title, source_ref, \
        title, body_text, keyword_text, payload_json, token_json, embedding_json, status, \
        data_scope, indexed_at)"@,
        0,
    );
    reveal_strlit(
        "VALUES (:id, :uuid, :tenant_id, :organization_id, :index_id, :index_key, \
        :document_id, :capability, :scope, :group_key, :group_title, :source_ref, :title, \
        :body_text, :keyword_text, :payload_json, :token_json, :embedding_json, :status, \
        :data_scope, NOW())",
    );
    lemma_says(
        queries::DOCUMENT_UPSERT@,
        "VALUES (:id, :uuid, :tenant_id, :organization_id, :index_id, :index_key, \
        :document_id, :capability, :scope, :group_key, :group_title, :source_ref, :title, \
        :body_text, :keyword_text, :payload_json, :token_json, :embedding_json, :status, \
        :data_scope, NOW())"@,
        262,
    );
    reveal_strlit(
        "ON CONFLICT (tenant_id, organization_id, index_key, document_id) DO UPDATE SET \
        index_id = EXCLUDED.index_id, capability = EXCLUDED.capability, scope = \
        EXCLUDED.scope, group_key = EXCLUDED.group_key, group_title = EXCLUDED.group_title, \
        source_ref = EXCLUDED.source_ref, title = EXCLUDED.title, body_text = \
        EXCLUDED.body_text, keyword_text = EXCLUDED.keyword_text, payload_json = \
        EXCLUDED.payload_json, token_json = EXCLUDED.token_json, embedding_json = \
        EXCLUDED.embedding_json, status = EXCLUDED.status, data_scope = \
        EXCLUDED.data_scope, indexed_at = NOW(), updated_at = NOW(), version = \
        search_document.version + 1",
    );
    lemma_says(
        queries::DOCUMENT_UPSERT@,
        "ON CONFLICT (tenant_id, organization_id, index_key, document_id) DO UPDATE SET \
        index_id = EXCLUDED.index_id, capability = EXCLUDED.capability, scope = \
        EXCLUDED.scope, group_key = EXCLUDED.group_key, group_title = EXCLUDED.group_title, \
        source_ref = EXCLUDED.source_ref, title = EXCLUDED.title, body_text = \
        EXCLUDED.body_text, keyword_text = EXCLUDED.keyword_text, payload_json = \
        EXCLUDED.payload_json, token_json = EXCLUDED.token_json, embedding_json = \
        EXCLUDED.embedding_json, status = EXCLUDED.status, data_scope = \
        EXCLUDED.data_scope, indexed_at = NOW(), updated_at = NOW(), version = \
        search_document.version + 1"@,
        518,
    );
}

/// [`queries::DOCUMENT_DELETE`]: marks a document as deleted.
pub proof fn lemma_document_delete_text()
    ensures
        says(
            queries::DOCUMENT_DELETE@,
            "UPDATE search_document SET deleted_at = NOW(), deleted_by = :deleted_by, version = \
            version + 1, updated_at = NOW()"@,
        ),
        says(
            queries::DOCUMENT_DELETE@,
            "WHERE tenant_id = :tenant_id AND organization_id = :organization_id AND index_key = \
            :index_key AND document_id = :document_id AND deleted_at IS NULL"@,
        ),
{
    reveal_strlit(
        "UPDATE search_document SET deleted_at = NOW(), deleted_by = :deleted_by, version = \
        version + 1, updated_at = NOW() WHERE tenant_id = :tenant_id AND organization_id = \
        :organization_id AND index_key = :index_key AND document_id = :document_id AND \
        deleted_at IS NULL",
    );
    reveal_strlit(
        "UPDATE search_document SET deleted_at = NOW(), deleted_by = :deleted_by, version = \
        version + 1, updated_at = NOW()",
    );
    lemma_says(
        queries::DOCUMENT_DELETE@,
        "UPDATE search_document SET deleted_at = NOW(), deleted_by = :deleted_by, version = \
        version + 1, updated_at = NOW()"@,
        0,
    );
    reveal_strlit(
        "WHERE tenant_id = :tenant_id AND organization_id = :organization_id AND index_key = \
        :index_key AND document_id = :document_id AND deleted_at IS NULL",
    );
    lemma_says(
        queries::DOCUMENT_DELETE@,
        "WHERE tenant_id = :tenant_id AND organization_id = :organization_id AND index_key = \
        :index_key AND document_id = :document_id AND deleted_at IS NULL"@,
        115,
    );
}

/// [`queries::DOCUMENT_FULLTEXT_SEARCH`]: the documents that hold the words of a query, the
/// best first.
pub proof fn lemma_document_fulltext_search_text()
    ensures
        says(
            queries::DOCUMENT_FULLTEXT_SEARCH@,
            "ts_rank(search_vector, plainto_tsquery(:query)) AS score"@,
        ),
        says(
            queries::DOCUMENT_FULLTEXT_SEARCH@,
            "FROM search_document"@,
        ),
        says(
            queries::DOCUMENT_FULLTEXT_SEARCH@,
            "WHERE tenant_id = :tenant_id AND organization_id = :organization_id AND index_key = \
            :index_key AND search_vector @@ plainto_tsquery(:query) AND deleted_at IS NULL"@,
        ),
        says(
            queries::DOCUMENT_FULLTEXT_SEARCH@,
            "ORDER BY score DESC LIMIT :limit OFFSET :offset"@,
        ),
{
    reveal_strlit(
        "SELECT id, uuid, tenant_id, organization_id, index_id, index_key, document_id, \
        capability, scope, group_key, group_title, source_ref, title, body_text, \
        keyword_text, payload_json, token_json, embedding_json, status, data_scope, \
        indexed_at, created_at, updated_at, version, deleted_at, deleted_by , \
        ts_rank(search_vector, plainto_tsquery(:query)) AS score FROM search_document WHERE \
        tenant_id = :tenant_id AND organization_id = :organization_id AND index_key = \
        :index_key AND search_vector @@ plainto_tsquery(:query) AND deleted_at IS NULL \
        ORDER BY score DESC LIMIT :limit OFFSET :offset",
    );
    reveal_strlit(
        "ts_rank(search_vector, plainto_tsquery(:query)) AS score",
    );
    lemma_says(
        queries::DOCUMENT_FULLTEXT_SEARCH@,
        "ts_rank(search_vector, plainto_tsquery(:query)) AS score"@,
        298,
    );
    reveal_strlit(
        "FROM search_document",
    );
    lemma_says(
        queries::DOCUMENT_FULLTEXT_SEARCH@,
        "FROM search_document"@,
        355,
    );
    reveal_strlit(
        "WHERE tenant_id = :tenant_id AND organization_id = :organization_id AND index_key = \
        :index_key AND search_vector @@ plainto_tsquery(:query) AND deleted_at IS NULL",
    );
    lemma_says(
        queries::DOCUMENT_FULLTEXT_SEARCH@,
        "WHERE tenant_id = :tenant_id AND organization_id = :organization_id AND index_key = \
        :index_key AND search_vector @@ plainto_tsquery(:query) AND deleted_at IS NULL"@,
        376,
    );
    reveal_strlit(
        "ORDER BY score DESC LIMIT :limit OFFSET :offset",
    );
    lemma_says(
        queries::DOCUMENT_FULLTEXT_SEARCH@,
        "ORDER BY score DESC LIMIT :limit OFFSET :offset"@,
        539,
    );
}

/// [`queries::DOCUMENT_FUZZY_SEARCH`]: the documents whose title is similar to a query, the
/// most similar first.
pub proof fn lemma_document_fuzzy_search_text()
    ensures
        says(
            queries::DOCUMENT_FUZZY_SEARCH@,
            "similarity(title, :query) AS score"@,
        ),
        says(
            queries::DOCUMENT_FUZZY_SEARCH@,
            "FROM search_document"@,
        ),
        says(
            queries::DOCUMENT_FUZZY_SEARCH@,
            "WHERE tenant_id = :tenant_id AND organization_id = :organization_id AND index_key = \
            :index_key AND similarity(title, :query) > 0.1 AND deleted_at IS NULL"@,
        ),
        says(
            queries::DOCUMENT_FUZZY_SEARCH@,
            "ORDER BY score DESC LIMIT :limit OFFSET :offset"@,
        ),
{
    reveal_strlit(
        "SELECT id, uuid, tenant_id, organization_id, index_id, index_key, document_id, \
        capability, scope, group_key, group_title, source_ref, title, body_text, \
        keyword_text, payload_json, token_json, embedding_json, status, data_scope, \
        indexed_at, created_at, updated_at, version, deleted_at, deleted_by , \
        similarity(title, :query) AS score FROM search_document WHERE tenant_id = \
        :tenant_id AND organization_id = :organization_id AND index_key = :index_key AND \
        similarity(title, :query) > 0.1 AND deleted_at IS NULL ORDER BY score DESC LIMIT \
        :limit OFFSET :offset",
    );
    reveal_strlit(
        "similarity(title, :query) AS score",
    );
    lemma_says(
        queries::DOCUMENT_FUZZY_SEARCH@,
        "similarity(title, :query) AS score"@,
        298,
    );
    reveal_strlit(
        "FROM search_document",
    );
    lemma_says(
        queries::DOCUMENT_FUZZY_SEARCH@,
        "FROM search_document"@,
        333,
    );
    reveal_strlit(
        "WHERE tenant_id = :tenant_id AND organization_id = :organization_id AND index_key = \
        :index_key AND similarity(title, :query) > 0.1 AND deleted_at IS NULL",
    );
    lemma_says(
        queries::DOCUMENT_FUZZY_SEARCH@,
        "WHERE tenant_id = :tenant_id AND organization_id = :organization_id AND index_key = \
        :index_key AND similarity(title, :query) > 0.1 AND deleted_at IS NULL"@,
        354,
    );
    reveal_strlit(
        "ORDER BY score DESC LIMIT :limit OFFSET :offset",
    );
    lemma_says(
        queries::DOCUMENT_FUZZY_SEARCH@,
        "ORDER BY score DESC LIMIT :limit OFFSET :offset"@,
        508,
    );
}

/// [`queries::DOCUMENT_SEMANTIC_SEARCH`]: the documents whose embedding is nearest to a
/// vector, which is bound as a literal such as `[0.1,0.2]`.
pub proof fn lemma_document_semantic_search_text()
    ensures
        says(
            queries::DOCUMENT_SEMANTIC_SEARCH@,
            "1 - ((embedding_json -> 'vector')::text)::vector <=> :query_embedding::vector AS \
            score"@,
        ),
        says(
            queries::DOCUMENT_SEMANTIC_SEARCH@,
            "FROM search_document"@,
        ),
        says(
            queries::DOCUMENT_SEMANTIC_SEARCH@,
            "WHERE tenant_id = :tenant_id AND organization_id = :organization_id AND index_key = \
            :index_key AND embedding_json ? 'vector' AND deleted_at IS NULL"@,
        ),
        says(
            queries::DOCUMENT_SEMANTIC_SEARCH@,
            "ORDER BY score DESC LIMIT :limit OFFSET :offset"@,
        ),
{
    reveal_strlit(
        "SELECT id, uuid, tenant_id, organization_id, index_id, index_key, document_id, \
        capability, scope, group_key, group_title, source_ref, title, body_text, \
        keyword_text, payload_json, token_json, embedding_json, status, data_scope, \
        indexed_at, created_at, updated_at, version, deleted_at, deleted_by , 1 - \
        ((embedding_json -> 'vector')::text)::vector <=> :query_embedding::vector AS score \
        FROM search_document WHERE tenant_id = :tenant_id AND organization_id = \
        :organization_id AND index_key = :index_key AND embedding_json ? 'vector' AND \
        deleted_at IS NULL ORDER BY score DESC LIMIT :limit OFFSET :offset",
    );
    reveal_strlit(
        "1 - ((embedding_json -> 'vector')::text)::vector <=> :query_embedding::vector AS \
        score",
    );
    lemma_says(
        queries::DOCUMENT_SEMANTIC_SEARCH@,
        "1 - ((embedding_json -> 'vector')::text)::vector <=> :query_embedding::vector AS \
        score"@,
        298,
    );
    reveal_strlit(
        "FROM search_document",
    );
    lemma_says(
        queries::DOCUMENT_SEMANTIC_SEARCH@,
        "FROM search_document"@,
        385,
    );
    reveal_strlit(
        "WHERE tenant_id = :tenant_id AND organization_id = :organization_id AND index_key = \
        :index_key AND embedding_json ? 'vector' AND deleted_at IS NULL",
    );
    lemma_says(
        queries::DOCUMENT_SEMANTIC_SEARCH@,
        "WHERE tenant_id = :tenant_id AND organization_id = :organization_id AND index_key = \
        :index_key AND embedding_json ? 'vector' AND deleted_at IS NULL"@,
        406,
    );
    reveal_strlit(
        "ORDER BY score DESC LIMIT :limit OFFSET :offset",
    );
    lemma_says(
        queries::DOCUMENT_SEMANTIC_SEARCH@,
        "ORDER BY score DESC LIMIT :limit OFFSET :offset"@,
        554,
    );
}

/// [`queries::DOCUMENT_COUNT`]: the number of documents of an index.
pub proof fn lemma_document_count_text()
    ensures
        says(
            queries::DOCUMENT_COUNT@,
            "SELECT COUNT(*) AS count"@,
        ),
        says(
            queries::DOCUMENT_COUNT@,
            "FROM search_document"@,
        ),
        says(
            queries::DOCUMENT_COUNT@,
            "WHERE tenant_id = :tenant_id AND organization_id = :organization_id AND index_key = \
            :index_key AND deleted_at IS NULL"@,
        ),
{
    reveal_strlit(
        "SELECT COUNT(*) AS count FROM search_document WHERE tenant_id = :tenant_id AND \
        organization_id = :organization_id AND index_key = :index_key AND deleted_at IS NULL",
    );
    reveal_strlit(
        "SELECT COUNT(*) AS count",
    );
    lemma_says(
        queries::DOCUMENT_COUNT@,
        "SELECT COUNT(*) AS count"@,
        0,
    );
    reveal_strlit(
        "FROM search_document",
    );
    lemma_says(
        queries::DOCUMENT_COUNT@,
        "FROM search_document"@,
        25,
    );
    reveal_strlit(
        "WHERE tenant_id = :tenant_id AND organization_id = :organization_id AND index_key = \
        :index_key AND deleted_at IS NULL",
    );
    lemma_says(
        queries::DOCUMENT_COUNT@,
        "WHERE tenant_id = :tenant_id AND organization_id = :organization_id AND index_key = \
        :index_key AND deleted_at IS NULL"@,
        46,
    );
}

/// [`queries::DOCUMENT_STATS`]: the number of documents of an index, the number of active
/// ones, and the time of the latest change.
pub proof fn lemma_document_stats_text()
    ensures
        says(
            queries::DOCUMENT_STATS@,
            "SELECT COUNT(*) AS document_count, COUNT(*) FILTER (WHERE status = 1) AS \
            active_document_count, MAX(updated_at) AS last_updated"@,
        ),
        says(
            queries::DOCUMENT_STATS@,
            "FROM search_document"@,
        ),
        says(
            queries::DOCUMENT_STATS@,
            "WHERE tenant_id = :tenant_id AND organization_id = :organization_id AND index_key = \
            :index_key AND deleted_at IS NULL"@,
        ),
{
    reveal_strlit(
        "SELECT COUNT(*) AS document_count, COUNT(*) FILTER (WHERE status = 1) AS \
        active_document_count, MAX(updated_at) AS last_updated FROM search_document WHERE \
        tenant_id = :tenant_id AND organization_id = :organization_id AND index_key = \
        :index_key AND deleted_at IS NULL",
    );
    reveal_strlit(
        "SELECT COUNT(*) AS document_count, COUNT(*) FILTER (WHERE status = 1) AS \
        active_document_count, MAX(updated_at) AS last_updated",
    );
    lemma_says(
        queries::DOCUMENT_STATS@,
        "SELECT COUNT(*) AS document_count, COUNT(*) FILTER (WHERE status = 1) AS \
        active_document_count, MAX(updated_at) AS last_updated"@,
        0,
    );
    reveal_strlit(
        "FROM search_document",
    );
    lemma_says(
        queries::DOCUMENT_STATS@,
        "FROM search_document"@,
        128,
    );
    reveal_strlit(
        "WHERE tenant_id = :tenant_id AND organization_id = :organization_id AND index_key = \
        :index_key AND deleted_at IS NULL",
    );
    lemma_says(
        queries::DOCUMENT_STATS@,
        "WHERE tenant_id = :tenant_id AND organization_id = :organization_id AND index_key = \
        :index_key AND deleted_at IS NULL"@,
        149,
    );
}

/// [`queries::SUGGESTION_LIST`]: the suggestions that are similar to a text, the most similar
/// first.
pub proof fn lemma_suggestion_list_text()
    ensures
        says(
            queries::SUGGESTION_LIST@,
            "FROM search_query_suggestion"@,
        ),
        says(
            queries::SUGGESTION_LIST@,
            "WHERE tenant_id = :tenant_id AND organization_id = :organization_id AND index_key = \
            :index_key AND status = 1 AND similarity(suggestion_text, :prefix) > 0.1"@,
        ),
        says(
            queries::SUGGESTION_LIST@,
            "ORDER BY similarity(suggestion_text, :prefix) DESC, score DESC LIMIT :limit"@,
        ),
{
    reveal_strlit(
        "SELECT id, uuid, tenant_id, organization_id, index_key, suggestion_text, source, \
        score, status, created_at, updated_at, version FROM search_query_suggestion WHERE \
        tenant_id = :tenant_id AND organization_id = :organization_id AND index_key = \
        :index_key AND status = 1 AND similarity(suggestion_text, :prefix) > 0.1 ORDER BY \
        similarity(suggestion_text, :prefix) DESC, score DESC LIMIT :limit",
    );
    reveal_strlit(
        "FROM search_query_suggestion",
    );
    lemma_says(
        queries::SUGGESTION_LIST@,
        "FROM search_query_suggestion"@,
        128,
    );
    reveal_strlit(
        "WHERE tenant_id = :tenant_id AND organization_id = :organization_id AND index_key = \
        :index_key AND status = 1 AND similarity(suggestion_text, :prefix) > 0.1",
    );
    lemma_says(
        queries::SUGGESTION_LIST@,
        "WHERE tenant_id = :tenant_id AND organization_id = :organization_id AND index_key = \
        :index_key AND status = 1 AND similarity(suggestion_text, :prefix) > 0.1"@,
        157,
    );
    reveal_strlit(
        "ORDER BY similarity(suggestion_text, :prefix) DESC, score DESC LIMIT :limit",
    );
    lemma_says(
        queries::SUGGESTION_LIST@,
        "ORDER BY similarity(suggestion_text, :prefix) DESC, score DESC LIMIT :limit"@,
        314,
    );
}

/// [`queries::SUGGESTION_UPSERT`]: writes a suggestion, or counts it once more.
pub proof fn lemma_suggestion_upsert_text()
    ensures
        says(
            queries::SUGGESTION_UPSERT@,
            "INSERT INTO search_query_suggestion (id, uuid, tenant_id, organization_id, \
            index_key, suggestion_text, score, status, version)"@,
        ),
        says(
            queries::SUGGESTION_UPSERT@,
            "VALUES (:id, :uuid, :tenant_id, :organization_id, :index_key, :suggestion_text, 1, \
            1, 0)"@,
        ),
        says(
            queries::SUGGESTION_UPSERT@,
            "ON CONFLICT (tenant_id, organization_id, index_key, suggestion_text) DO UPDATE SET \
            score = search_query_suggestion.score + 1, updated_at = NOW(), version = version + 1"@,
        ),
{
    reveal_strlit(
        "INSERT INTO search_query_suggestion (id, uuid, tenant_id, organization_id, \
        index_key, suggestion_text, score, status, version) VALUES (:id, :uuid, :tenant_id, \
        :organization_id, :index_key, :suggestion_text, 1, 1, 0) ON CONFLICT (tenant_id, \
        organization_id, index_key, suggestion_text) DO UPDATE SET score = \
        search_query_suggestion.score + 1, updated_at = NOW(), version = version + 1 \
        RETURNING id, uuid, tenant_id, organization_id, index_key, suggestion_text, source, \
        score, status, created_at, updated_at, version",
    );
    reveal_strlit(
        "INSERT INTO search_query_suggestion (id, uuid, tenant_id, organization_id, \
        index_key, suggestion_text, score, status, version)",
    );
    lemma_says(
        queries::SUGGESTION_UPSERT@,
        "INSERT INTO search_query_suggestion (id, uuid, tenant_id, organization_id, \
        index_key, suggestion_text, score, status, version)"@,
        0,
    );
    reveal_strlit(
        "VALUES (:id, :uuid, :tenant_id, :organization_id, :index_key, :suggestion_text, 1, \
        1, 0)",
    );
    lemma_says(
        queries::SUGGESTION_UPSERT@,
        "VALUES (:id, :uuid, :tenant_id, :organization_id, :index_key, :suggestion_text, 1, \
        1, 0)"@,
        127,
    );
    reveal_strlit(
        "ON CONFLICT (tenant_id, organization_id, index_key, suggestion_text) DO UPDATE SET \
        score = search_query_suggestion.score + 1, updated_at = NOW(), version = version + 1",
    );
    lemma_says(
        queries::SUGGESTION_UPSERT@,
        "ON CONFLICT (tenant_id, organization_id, index_key, suggestion_text) DO UPDATE SET \
        score = search_query_suggestion.score + 1, updated_at = NOW(), version = version + 1"@,
        216,
    );
}

/// [`queries::SUGGESTION_INCREMENT_POPULARITY`]: counts a suggestion once more.
pub proof fn lemma_suggestion_increment_popularity_text()
    ensures
        says(
            queries::SUGGESTION_INCREMENT_POPULARITY@,
            "UPDATE search_query_suggestion SET score = score + 1, updated_at = NOW(), version = \
            version + 1"@,
        ),
        says(
            queries::SUGGESTION_INCREMENT_POPULARITY@,
            "WHERE id = :id AND tenant_id = :tenant_id AND organization_id = :organization_id \
            AND status = 1"@,
        ),
{
    reveal_strlit(
        "UPDATE search_query_suggestion SET score = score + 1, updated_at = NOW(), version = \
        version + 1 WHERE id = :id AND tenant_id = :tenant_id AND organization_id = \
        :organization_id AND status = 1",
    );
    reveal_strlit(
        "UPDATE search_query_suggestion SET score = score + 1, updated_at = NOW(), version = \
        version + 1",
    );
    lemma_says(
        queries::SUGGESTION_INCREMENT_POPULARITY@,
        "UPDATE search_query_suggestion SET score = score + 1, updated_at = NOW(), version = \
        version + 1"@,
        0,
    );
    reveal_strlit(
        "WHERE id = :id AND tenant_id = :tenant_id AND organization_id = :organization_id \
        AND status = 1",
    );
    lemma_says(
        queries::SUGGESTION_INCREMENT_POPULARITY@,
        "WHERE id = :id AND tenant_id = :tenant_id AND organization_id = :organization_id \
        AND status = 1"@,
        96,
    );
}

/// [`queries::USER_EVENT_RECORD`]: writes what a user did.
pub proof fn lemma_user_event_record_text()
    ensures
        says(
            queries::USER_EVENT_RECORD@,
            "INSERT INTO search_user_event (id, uuid, tenant_id, organization_id, user_id, \
            event_type, surface, index_key, document_id, placement, q, result_position, \
            request_id, metadata_json, occurred_at)"@,
        ),
        says(
            queries::USER_EVENT_RECORD@,
            "VALUES (:id, :uuid, :tenant_id, :organization_id, :user_id, :event_type, :surface, \
            :index_key, :document_id, :placement, :q, :result_position, :request_id, \
            :metadata_json, NOW())"@,
        ),
{
    reveal_strlit(
        "INSERT INTO search_user_event (id, uuid, tenant_id, organization_id, user_id, \
        event_type, surface, index_key, document_id, placement, q, result_position, \
        request_id, metadata_json, occurred_at) VALUES (:id, :uuid, :tenant_id, \
        :organization_id, :user_id, :event_type, :surface, :index_key, :document_id, \
        :placement, :q, :result_position, :request_id, :metadata_json, NOW()) RETURNING id, \
        uuid, tenant_id, organization_id, user_id, event_type, surface, index_key, \
        document_id, placement, q, result_position, request_id, metadata_json, occurred_at, \
        created_at",
    );
    reveal_strlit(
        "INSERT INTO search_user_event (id, uuid, tenant_id, organization_id, user_id, \
        event_type, surface, index_key, document_id, placement, q, result_position, \
        request_id, metadata_json, occurred_at)",
    );
    lemma_says(
        queries::USER_EVENT_RECORD@,
        "INSERT INTO search_user_event (id, uuid, tenant_id, organization_id, user_id, \
        event_type, surface, index_key, document_id, placement, q, result_position, \
        request_id, metadata_json, occurred_at)"@,
        0,
    );
    reveal_strlit(
        "VALUES (:id, :uuid, :tenant_id, :organization_id, :user_id, :event_type, :surface, \
        :index_key, :document_id, :placement, :q, :result_position, :request_id, \
        :metadata_json, NOW())",
    );
    lemma_says(
        queries::USER_EVENT_RECORD@,
        "VALUES (:id, :uuid, :tenant_id, :organization_id, :user_id, :event_type, :surface, \
        :index_key, :document_id, :placement, :q, :result_position, :request_id, \
        :metadata_json, NOW())"@,
        194,
    );
}

/// [`queries::RECENT_QUERY_UPSERT`]: writes a query that a user made, or that it was made
/// again.
pub proof fn lemma_recent_query_upsert_text()
    ensures
        says(
            queries::RECENT_QUERY_UPSERT@,
            "INSERT INTO search_recent_query (id, uuid, tenant_id, organization_id, user_id, \
            index_key, q, result_count, last_used_at)"@,
        ),
        says(
            queries::RECENT_QUERY_UPSERT@,
            "VALUES (:id, :uuid, :tenant_id, :organization_id, :user_id, :index_key, :q, \
            :result_count, NOW())"@,
        ),
        says(
            queries::RECENT_QUERY_UPSERT@,
            "ON CONFLICT (tenant_id, organization_id, user_id, index_key, q) DO UPDATE SET \
            result_count = EXCLUDED.result_count, last_used_at = NOW(), updated_at = NOW()"@,
        ),
{
    reveal_strlit(
        "INSERT INTO search_recent_query (id, uuid, tenant_id, organization_id, user_id, \
        index_key, q, result_count, last_used_at) VALUES (:id, :uuid, :tenant_id, \
        :organization_id, :user_id, :index_key, :q, :result_count, NOW()) ON CONFLICT \
        (tenant_id, organization_id, user_id, index_key, q) DO UPDATE SET result_count = \
        EXCLUDED.result_count, last_used_at = NOW(), updated_at = NOW() RETURNING id, uuid, \
        tenant_id, organization_id, user_id, index_key, q, result_count, last_used_at, \
        created_at, updated_at",
    );
    reveal_strlit(
        "INSERT INTO search_recent_query (id, uuid, tenant_id, organization_id, user_id, \
        index_key, q, result_count, last_used_at)",
    );
    lemma_says(
        queries::RECENT_QUERY_UPSERT@,
        "INSERT INTO search_recent_query (id, uuid, tenant_id, organization_id, user_id, \
        index_key, q, result_count, last_used_at)"@,
        0,
    );
    reveal_strlit(
        "VALUES (:id, :uuid, :tenant_id, :organization_id, :user_id, :index_key, :q, \
        :result_count, NOW())",
    );
    lemma_says(
        queries::RECENT_QUERY_UPSERT@,
        "VALUES (:id, :uuid, :tenant_id, :organization_id, :user_id, :index_key, :q, \
        :result_count, NOW())"@,
        122,
    );
    reveal_strlit(
        "ON CONFLICT (tenant_id, organization_id, user_id, index_key, q) DO UPDATE SET \
        result_count = EXCLUDED.result_count, last_used_at = NOW(), updated_at = NOW()",
    );
    lemma_says(
        queries::RECENT_QUERY_UPSERT@,
        "ON CONFLICT (tenant_id, organization_id, user_id, index_key, q) DO UPDATE SET \
        result_count = EXCLUDED.result_count, last_used_at = NOW(), updated_at = NOW()"@,
        220,
    );
}

/// [`queries::RECENT_QUERY_LIST`]: the latest queries of a user.
pub proof fn lemma_recent_query_list_text()
    ensures
        says(
            queries::RECENT_QUERY_LIST@,
            "FROM search_recent_query"@,
        ),
        says(
            queries::RECENT_QUERY_LIST@,
            "WHERE tenant_id = :tenant_id AND organization_id = :organization_id AND user_id = \
            :user_id"@,
        ),
        says(
            queries::RECENT_QUERY_LIST@,
            "ORDER BY last_used_at DESC LIMIT :limit"@,
        ),
{
    reveal_strlit(
        "SELECT id, uuid, tenant_id, organization_id, user_id, index_key, q, result_count, \
        last_used_at, created_at, updated_at FROM search_recent_query WHERE tenant_id = \
        :tenant_id AND organization_id = :organization_id AND user_id = :user_id ORDER BY \
        last_used_at DESC LIMIT :limit",
    );
    reveal_strlit(
        "FROM search_recent_query",
    );
    lemma_says(
        queries::RECENT_QUERY_LIST@,
        "FROM search_recent_query"@,
        119,
    );
    reveal_strlit(
        "WHERE tenant_id = :tenant_id AND organization_id = :organization_id AND user_id = \
        :user_id",
    );
    lemma_says(
        queries::RECENT_QUERY_LIST@,
        "WHERE tenant_id = :tenant_id AND organization_id = :organization_id AND user_id = \
        :user_id"@,
        144,
    );
    reveal_strlit(
        "ORDER BY last_used_at DESC LIMIT :limit",
    );
    lemma_says(
        queries::RECENT_QUERY_LIST@,
        "ORDER BY last_used_at DESC LIMIT :limit"@,
        235,
    );
}

/// [`queries::USER_EVENT_LIST_BY_USER`]: what a user did, the latest first: all of it, or
/// what is of one type.
pub proof fn lemma_user_event_list_by_user_text()
    ensures
        says(
            queries::USER_EVENT_LIST_BY_USER@,
            "FROM search_user_event"@,
        ),
        says(
            queries::USER_EVENT_LIST_BY_USER@,
            "WHERE tenant_id = :tenant_id AND organization_id = :organization_id AND user_id = \
            :user_id AND (:event_type IS NULL OR event_type = :event_type)"@,
        ),
        says(
            queries::USER_EVENT_LIST_BY_USER@,
            "ORDER BY occurred_at DESC LIMIT :limit"@,
        ),
{
    reveal_strlit(
        "SELECT id, uuid, tenant_id, organization_id, user_id, event_type, surface, \
        index_key, document_id, placement, q, result_position, request_id, metadata_json, \
        occurred_at, created_at FROM search_user_event WHERE tenant_id = :tenant_id AND \
        organization_id = :organization_id AND user_id = :user_id AND (:event_type IS NULL \
        OR event_type = :event_type) ORDER BY occurred_at DESC LIMIT :limit",
    );
    reveal_strlit(
        "FROM search_user_event",
    );
    lemma_says(
        queries::USER_EVENT_LIST_BY_USER@,
        "FROM search_user_event"@,
        181,
    );
    reveal_strlit(
        "WHERE tenant_id = :tenant_id AND organization_id = :organization_id AND user_id = \
        :user_id AND (:event_type IS NULL OR event_type = :event_type)",
    );
    lemma_says(
        queries::USER_EVENT_LIST_BY_USER@,
        "WHERE tenant_id = :tenant_id AND organization_id = :organization_id AND user_id = \
        :user_id AND (:event_type IS NULL OR event_type = :event_type)"@,
        204,
    );
    reveal_strlit(
        "ORDER BY occurred_at DESC LIMIT :limit",
    );
    lemma_says(
        queries::USER_EVENT_LIST_BY_USER@,
        "ORDER BY occurred_at DESC LIMIT :limit"@,
        349,
    );
}

/// [`queries::USER_EVENT_TRENDING`]: the documents that were viewed or clicked most often.
pub proof fn lemma_user_event_trending_text()
    ensures
        says(
            queries::USER_EVENT_TRENDING@,
            "SELECT document_id, COUNT(*) AS event_count"@,
        ),
        says(
            queries::USER_EVENT_TRENDING@,
            "FROM search_user_event"@,
        ),
        says(
            queries::USER_EVENT_TRENDING@,
            "WHERE tenant_id = :tenant_id AND organization_id = :organization_id AND index_key = \
            :index_key AND event_type IN ('view', 'click') AND document_id IS NOT NULL GROUP BY \
            document_id"@,
        ),
        says(
            queries::USER_EVENT_TRENDING@,
            "ORDER BY event_count DESC LIMIT :limit"@,
        ),
{
    reveal_strlit(
        "SELECT document_id, COUNT(*) AS event_count FROM search_user_event WHERE tenant_id \
        = :tenant_id AND organization_id = :organization_id AND index_key = :index_key AND \
        event_type IN ('view', 'click') AND document_id IS NOT NULL GROUP BY document_id \
        ORDER BY event_count DESC LIMIT :limit",
    );
    reveal_strlit(
        "SELECT document_id, COUNT(*) AS event_count",
    );
    lemma_says(
        queries::USER_EVENT_TRENDING@,
        "SELECT document_id, COUNT(*) AS event_count"@,
        0,
    );
    reveal_strlit(
        "FROM search_user_event",
    );
    lemma_says(
        queries::USER_EVENT_TRENDING@,
        "FROM search_user_event"@,
        44,
    );
    reveal_strlit(
        "WHERE tenant_id = :tenant_id AND organization_id = :organization_id AND index_key = \
        :index_key AND event_type IN ('view', 'click') AND document_id IS NOT NULL GROUP BY \
        document_id",
    );
    lemma_says(
        queries::USER_EVENT_TRENDING@,
        "WHERE tenant_id = :tenant_id AND organization_id = :organization_id AND index_key = \
        :index_key AND event_type IN ('view', 'click') AND document_id IS NOT NULL GROUP BY \
        document_id"@,
        67,
    );
    reveal_strlit(
        "ORDER BY event_count DESC LIMIT :limit",
    );
    lemma_says(
        queries::USER_EVENT_TRENDING@,
        "ORDER BY event_count DESC LIMIT :limit"@,
        247,
    );
}

/// [`queries::USER_EVENT_SIMILAR_DOCUMENTS`]: the documents that users of the given documents
/// viewed or clicked too, those with the most common users first. The given documents are
/// left out. Events of other tenants and organizations do not count: neither those of the
/// documents found nor those that the users are drawn from.
pub proof fn lemma_user_event_similar_documents_text()
    ensures
        says(
            queries::USER_EVENT_SIMILAR_DOCUMENTS@,
            "SELECT document_id, COUNT(DISTINCT user_id) AS similarity_score"@,
        ),
        says(
            queries::USER_EVENT_SIMILAR_DOCUMENTS@,
            "FROM search_user_event WHERE tenant_id = :tenant_id AND organization_id = \
            :organization_id AND index_key = :index_key AND document_id != \
            ALL(:document_ids::text[])"@,
        ),
        says(
            queries::USER_EVENT_SIMILAR_DOCUMENTS@,
            "AND user_id IN ( SELECT DISTINCT user_id FROM search_user_event WHERE tenant_id = \
            :tenant_id AND organization_id = :organization_id AND document_id = \
            ANY(:document_ids::text[]) ) AND document_id IS NOT NULL AND event_type IN ('view', \
            'click') GROUP BY document_id ORDER BY similarity_score DESC LIMIT :limit"@,
        ),
{
    reveal_strlit(
        "SELECT document_id, COUNT(DISTINCT user_id) AS similarity_score FROM \
        search_user_event WHERE tenant_id = :tenant_id AND organization_id = \
        :organization_id AND index_key = :index_key AND document_id != \
        ALL(:document_ids::text[]) AND user_id IN ( SELECT DISTINCT user_id FROM \
        search_user_event WHERE tenant_id = :tenant_id AND organization_id = \
        :organization_id AND document_id = ANY(:document_ids::text[]) ) AND document_id IS \
        NOT NULL AND event_type IN ('view', 'click') GROUP BY document_id ORDER BY \
        similarity_score DESC LIMIT :limit",
    );
    reveal_strlit(
        "SELECT document_id, COUNT(DISTINCT user_id) AS similarity_score",
    );
    lemma_says(
        queries::USER_EVENT_SIMILAR_DOCUMENTS@,
        "SELECT document_id, COUNT(DISTINCT user_id) AS similarity_score"@,
        0,
    );
    reveal_strlit(
        "FROM search_user_event WHERE tenant_id = :tenant_id AND organization_id = \
        :organization_id AND index_key = :index_key AND document_id != \
        ALL(:document_ids::text[])",
    );
    lemma_says(
        queries::USER_EVENT_SIMILAR_DOCUMENTS@,
        "FROM search_user_event WHERE tenant_id = :tenant_id AND organization_id = \
        :organization_id AND index_key = :index_key AND document_id != \
        ALL(:document_ids::text[])"@,
        64,
    );
    reveal_strlit(
        "AND user_id IN ( SELECT DISTINCT user_id FROM search_user_event WHERE tenant_id = \
        :tenant_id AND organization_id = :organization_id AND document_id = \
        ANY(:document_ids::text[]) ) AND document_id IS NOT NULL AND event_type IN ('view', \
        'click') GROUP BY document_id ORDER BY similarity_score DESC LIMIT :limit",
    );
    lemma_says(
        queries::USER_EVENT_SIMILAR_DOCUMENTS@,
        "AND user_id IN ( SELECT DISTINCT user_id FROM search_user_event WHERE tenant_id = \
        :tenant_id AND organization_id = :organization_id AND document_id = \
        ANY(:document_ids::text[]) ) AND document_id IS NOT NULL AND event_type IN ('view', \
        'click') GROUP BY document_id ORDER BY similarity_score DESC LIMIT :limit"@,
        228,
    );
}

/// [`queries::PROMOTION_LIST_ACTIVE`]: the promotions of a placement that are active at a
/// time.
pub proof fn lemma_promotion_list_active_text()
    ensures
        says(
            queries::PROMOTION_LIST_ACTIVE@,
            "FROM search_promotion"@,
        ),
        says(
            queries::PROMOTION_LIST_ACTIVE@,
            "WHERE tenant_id = :tenant_id AND organization_id = :organization_id AND index_key = \
            :index_key AND placement = :placement AND status = 1 AND deleted_at IS NULL AND \
            (active_from IS NULL OR active_from <= :now) AND (active_until IS NULL OR \
            active_until >= :now)"@,
        ),
        says(
            queries::PROMOTION_LIST_ACTIVE@,
            "ORDER BY priority DESC, updated_at DESC"@,
        ),
{
    reveal_strlit(
        "SELECT id, uuid, tenant_id, organization_id, promotion_key, placement, index_key, \
        document_id, priority, rule_json, status, active_from, active_until, created_at, \
        updated_at, version, deleted_at, deleted_by FROM search_promotion WHERE tenant_id = \
        :tenant_id AND organization_id = :organization_id AND index_key = :index_key AND \
        placement = :placement AND status = 1 AND deleted_at IS NULL AND (active_from IS \
        NULL OR active_from <= :now) AND (active_until IS NULL OR active_until >= :now) \
        ORDER BY priority DESC, updated_at DESC",
    );
    reveal_strlit(
        "FROM search_promotion",
    );
    lemma_says(
        queries::PROMOTION_LIST_ACTIVE@,
        "FROM search_promotion"@,
        207,
    );
    reveal_strlit(
        "WHERE tenant_id = :tenant_id AND organization_id = :organization_id AND index_key = \
        :index_key AND placement = :placement AND status = 1 AND deleted_at IS NULL AND \
        (active_from IS NULL OR active_from <= :now) AND (active_until IS NULL OR \
        active_until >= :now)",
    );
    lemma_says(
        queries::PROMOTION_LIST_ACTIVE@,
        "WHERE tenant_id = :tenant_id AND organization_id = :organization_id AND index_key = \
        :index_key AND placement = :placement AND status = 1 AND deleted_at IS NULL AND \
        (active_from IS NULL OR active_from <= :now) AND (active_until IS NULL OR \
        active_until >= :now)"@,
        229,
    );
    reveal_strlit(
        "ORDER BY priority DESC, updated_at DESC",
    );
    lemma_says(
        queries::PROMOTION_LIST_ACTIVE@,
        "ORDER BY priority DESC, updated_at DESC"@,
        489,
    );
}

/// [`queries::PROMOTION_CREATE`]: writes a new promotion.
pub proof fn lemma_promotion_create_text()
    ensures
        says(
            queries::PROMOTION_CREATE@,
            "INSERT INTO search_promotion (id, uuid, tenant_id, organization_id, promotion_key, \
            placement, index_key, document_id, priority, rule_json, status, version)"@,
        ),
        says(
            queries::PROMOTION_CREATE@,
            "VALUES (:id, :uuid, :tenant_id, :organization_id, :promotion_key, :placement, \
            :index_key, :document_id, :priority, :rule_json, 1, 0)"@,
        ),
{
    reveal_strlit(
        "INSERT INTO search_promotion (id, uuid, tenant_id, organization_id, promotion_key, \
        placement, index_key, document_id, priority, rule_json, status, version) VALUES \
        (:id, :uuid, :tenant_id, :organization_id, :promotion_key, :placement, :index_key, \
        :document_id, :priority, :rule_json, 1, 0) RETURNING id, uuid, tenant_id, \
        organization_id, promotion_key, placement, index_key, document_id, priority, \
        rule_json, status, active_from, active_until, created_at, updated_at, version, \
        deleted_at, deleted_by",
    );
    reveal_strlit(
        "INSERT INTO search_promotion (id, uuid, tenant_id, organization_id, promotion_key, \
        placement, index_key, document_id, priority, rule_json, status, version)",
    );
    lemma_says(
        queries::PROMOTION_CREATE@,
        "INSERT INTO search_promotion (id, uuid, tenant_id, organization_id, promotion_key, \
        placement, index_key, document_id, priority, rule_json, status, version)"@,
        0,
    );
    reveal_strlit(
        "VALUES (:id, :uuid, :tenant_id, :organization_id, :promotion_key, :placement, \
        :index_key, :document_id, :priority, :rule_json, 1, 0)",
    );
    lemma_says(
        queries::PROMOTION_CREATE@,
        "VALUES (:id, :uuid, :tenant_id, :organization_id, :promotion_key, :placement, \
        :index_key, :document_id, :priority, :rule_json, 1, 0)"@,
        156,
    );
}

/// [`queries::PROMOTION_EVENT_INSERT`]: writes that a promotion was delivered or clicked. The
/// promotion stands in the place of the document.
pub proof fn lemma_promotion_event_insert_text()
    ensures
        says(
            queries::PROMOTION_EVENT_INSERT@,
            "INSERT INTO search_user_event (id, uuid, tenant_id, organization_id, user_id, \
            event_type, surface, document_id, metadata_json, occurred_at)"@,
        ),
        says(
            queries::PROMOTION_EVENT_INSERT@,
            "VALUES (:id, :uuid, :tenant_id, :organization_id, :user_id, :event_type, \
            'promotion', :promotion_id, :metadata_json, NOW())"@,
        ),
{
    reveal_strlit(
        "INSERT INTO search_user_event (id, uuid, tenant_id, organization_id, user_id, \
        event_type, surface, document_id, metadata_json, occurred_at) VALUES (:id, :uuid, \
        :tenant_id, :organization_id, :user_id, :event_type, 'promotion', :promotion_id, \
        :metadata_json, NOW())",
    );
    reveal_strlit(
        "INSERT INTO search_user_event (id, uuid, tenant_id, organization_id, user_id, \
        event_type, surface, document_id, metadata_json, occurred_at)",
    );
    lemma_says(
        queries::PROMOTION_EVENT_INSERT@,
        "INSERT INTO search_user_event (id, uuid, tenant_id, organization_id, user_id, \
        event_type, surface, document_id, metadata_json, occurred_at)"@,
        0,
    );
    reveal_strlit(
        "VALUES (:id, :uuid, :tenant_id, :organization_id, :user_id, :event_type, \
        'promotion', :promotion_id, :metadata_json, NOW())",
    );
    lemma_says(
        queries::PROMOTION_EVENT_INSERT@,
        "VALUES (:id, :uuid, :tenant_id, :organization_id, :user_id, :event_type, \
        'promotion', :promotion_id, :metadata_json, NOW())"@,
        140,
    );
}

/// [`queries::PROMOTION_STATS`]: how often a promotion was delivered and clicked.
pub proof fn lemma_promotion_stats_text()
    ensures
        says(
            queries::PROMOTION_STATS@,
            "SELECT COUNT(*) FILTER (WHERE event_type = 'promotion_delivery') AS delivery_count, \
            COUNT(*) FILTER (WHERE event_type = 'promotion_click') AS click_count"@,
        ),
        says(
            queries::PROMOTION_STATS@,
            "FROM search_user_event"@,
        ),
        says(
            queries::PROMOTION_STATS@,
            "WHERE tenant_id = :tenant_id AND organization_id = :organization_id AND document_id \
            = :promotion_id AND event_type IN ('promotion_delivery', 'promotion_click')"@,
        ),
{
    reveal_strlit(
        "SELECT COUNT(*) FILTER (WHERE event_type = 'promotion_delivery') AS delivery_count, \
        COUNT(*) FILTER (WHERE event_type = 'promotion_click') AS click_count FROM \
        search_user_event WHERE tenant_id = :tenant_id AND organization_id = \
        :organization_id AND document_id = :promotion_id AND event_type IN \
        ('promotion_delivery', 'promotion_click')",
    );
    reveal_strlit(
        "SELECT COUNT(*) FILTER (WHERE event_type = 'promotion_delivery') AS delivery_count, \
        COUNT(*) FILTER (WHERE event_type = 'promotion_click') AS click_count",
    );
    lemma_says(
        queries::PROMOTION_STATS@,
        "SELECT COUNT(*) FILTER (WHERE event_type = 'promotion_delivery') AS delivery_count, \
        COUNT(*) FILTER (WHERE event_type = 'promotion_click') AS click_count"@,
        0,
    );
    reveal_strlit(
        "FROM search_user_event",
    );
    lemma_says(
        queries::PROMOTION_STATS@,
        "FROM search_user_event"@,
        154,
    );
    reveal_strlit(
        "WHERE tenant_id = :tenant_id AND organization_id = :organization_id AND document_id \
        = :promotion_id AND event_type IN ('promotion_delivery', 'promotion_click')",
    );
    lemma_says(
        queries::PROMOTION_STATS@,
        "WHERE tenant_id = :tenant_id AND organization_id = :organization_id AND document_id \
        = :promotion_id AND event_type IN ('promotion_delivery', 'promotion_click')"@,
        177,
    );
}

/// [`queries::PROMOTION_LIST_ALL`]: a page of the promotions of an index, active or not.
pub proof fn lemma_promotion_list_all_text()
    ensures
        says(
            queries::PROMOTION_LIST_ALL@,
            "FROM search_promotion"@,
        ),
        says(
            queries::PROMOTION_LIST_ALL@,
            "WHERE tenant_id = :tenant_id AND organization_id = :organization_id AND index_key = \
            :index_key AND deleted_at IS NULL"@,
        ),
        says(
            queries::PROMOTION_LIST_ALL@,
            "ORDER BY priority DESC, updated_at DESC LIMIT :limit OFFSET :offset"@,
        ),
{
    reveal_strlit(
        "SELECT id, uuid, tenant_id, organization_id, promotion_key, placement, index_key, \
        document_id, priority, rule_json, status, active_from, active_until, created_at, \
        updated_at, version, deleted_at, deleted_by FROM search_promotion WHERE tenant_id = \
        :tenant_id AND organization_id = :organization_id AND index_key = :index_key AND \
        deleted_at IS NULL ORDER BY priority DESC, updated_at DESC LIMIT :limit OFFSET \
        :offset",
    );
    reveal_strlit(
        "FROM search_promotion",
    );
    lemma_says(
        queries::PROMOTION_LIST_ALL@,
        "FROM search_promotion"@,
        207,
    );
    reveal_strlit(
        "WHERE tenant_id = :tenant_id AND organization_id = :organization_id AND index_key = \
        :index_key AND deleted_at IS NULL",
    );
    lemma_says(
        queries::PROMOTION_LIST_ALL@,
        "WHERE tenant_id = :tenant_id AND organization_id = :organization_id AND index_key = \
        :index_key AND deleted_at IS NULL"@,
        229,
    );
    reveal_strlit(
        "ORDER BY priority DESC, updated_at DESC LIMIT :limit OFFSET :offset",
    );
    lemma_says(
        queries::PROMOTION_LIST_ALL@,
        "ORDER BY priority DESC, updated_at DESC LIMIT :limit OFFSET :offset"@,
        347,
    );
}

/// [`queries::PROMOTION_GET`]: the promotion of a key.
pub proof fn lemma_promotion_get_text()
    ensures
        says(
            queries::PROMOTION_GET@,
            "FROM search_promotion"@,
        ),
        says(
            queries::PROMOTION_GET@,
            "WHERE tenant_id = :tenant_id AND organization_id = :organization_id AND \
            promotion_key = :promotion_key AND deleted_at IS NULL"@,
        ),
{
    reveal_strlit(
        "SELECT id, uuid, tenant_id, organization_id, promotion_key, placement, index_key, \
        document_id, priority, rule_json, status, active_from, active_until, created_at, \
        updated_at, version, deleted_at, deleted_by FROM search_promotion WHERE tenant_id = \
        :tenant_id AND organization_id = :organization_id AND promotion_key = \
        :promotion_key AND deleted_at IS NULL",
    );
    reveal_strlit(
        "FROM search_promotion",
    );
    lemma_says(
        queries::PROMOTION_GET@,
        "FROM search_promotion"@,
        207,
    );
    reveal_strlit(
        "WHERE tenant_id = :tenant_id AND organization_id = :organization_id AND \
        promotion_key = :promotion_key AND deleted_at IS NULL",
    );
    lemma_says(
        queries::PROMOTION_GET@,
        "WHERE tenant_id = :tenant_id AND organization_id = :organization_id AND \
        promotion_key = :promotion_key AND deleted_at IS NULL"@,
        229,
    );
}

/// [`queries::PROMOTION_UPDATE`]: changes a promotion. What is bound as null stays as it is.
pub proof fn lemma_promotion_update_text()
    ensures
        says(
            queries::PROMOTION_UPDATE@,
            "UPDATE search_promotion SET placement = COALESCE(:placement, placement), \
            document_id = COALESCE(:document_id, document_id), priority = COALESCE(:priority, \
            priority), rule_json = COALESCE(:rule_json, rule_json), status = COALESCE(:status, \
            status), active_from = COALESCE(:active_from, active_from), active_until = \
            COALESCE(:active_until, active_until), updated_at = NOW(), version = version + 1"@,
        ),
        says(
            queries::PROMOTION_UPDATE@,
            "WHERE tenant_id = :tenant_id AND organization_id = :organization_id AND \
            promotion_key = :promotion_key AND deleted_at IS NULL"@,
        ),
{
    reveal_strlit(
        "UPDATE search_promotion SET placement = COALESCE(:placement, placement), \
        document_id = COALESCE(:document_id, document_id), priority = COALESCE(:priority, \
        priority), rule_json = COALESCE(:rule_json, rule_json), status = COALESCE(:status, \
        status), active_from = COALESCE(:active_from, active_from), active_until = \
        COALESCE(:active_until, active_until), updated_at = NOW(), version = version + 1 \
        WHERE tenant_id = :tenant_id AND organization_id = :organization_id AND \
        promotion_key = :promotion_key AND deleted_at IS NULL RETURNING id, uuid, \
        tenant_id, organization_id, promotion_key, placement, index_key, document_id, \
        priority, rule_json, status, active_from, active_until, created_at, updated_at, \
        version, deleted_at, deleted_by",
    );
    reveal_strlit(
        "UPDATE search_promotion SET placement = COALESCE(:placement, placement), \
        document_id = COALESCE(:document_id, document_id), priority = COALESCE(:priority, \
        priority), rule_json = COALESCE(:rule_json, rule_json), status = COALESCE(:status, \
        status), active_from = COALESCE(:active_from, active_from), active_until = \
        COALESCE(:active_until, active_until), updated_at = NOW(), version = version + 1",
    );
    lemma_says(
        queries::PROMOTION_UPDATE@,
        "UPDATE search_promotion SET placement = COALESCE(:placement, placement), \
        document_id = COALESCE(:document_id, document_id), priority = COALESCE(:priority, \
        priority), rule_json = COALESCE(:rule_json, rule_json), status = COALESCE(:status, \
        status), active_from = COALESCE(:active_from, active_from), active_until = \
        COALESCE(:active_until, active_until), updated_at = NOW(), version = version + 1"@,
        0,
    );
    reveal_strlit(
        "WHERE tenant_id = :tenant_id AND organization_id = :organization_id AND \
        promotion_key = :promotion_key AND deleted_at IS NULL",
    );
    lemma_says(
        queries::PROMOTION_UPDATE@,
        "WHERE tenant_id = :tenant_id AND organization_id = :organization_id AND \
        promotion_key = :promotion_key AND deleted_at IS NULL"@,
        394,
    );
}

/// [`queries::PROMOTION_DELETE`]: marks a promotion as deleted.
pub proof fn lemma_promotion_delete_text()
    ensures
        says(
            queries::PROMOTION_DELETE@,
            "UPDATE search_promotion SET deleted_at = NOW(), deleted_by = :deleted_by, version = \
            version + 1, updated_at = NOW()"@,
        ),
        says(
            queries::PROMOTION_DELETE@,
            "WHERE tenant_id = :tenant_id AND organization_id = :organization_id AND \
            promotion_key = :promotion_key AND deleted_at IS NULL"@,
        ),
{
    reveal_strlit(
        "UPDATE search_promotion SET deleted_at = NOW(), deleted_by = :deleted_by, version = \
        version + 1, updated_at = NOW() WHERE tenant_id = :tenant_id AND organization_id = \
        :organization_id AND promotion_key = :promotion_key AND deleted_at IS NULL",
    );
    reveal_strlit(
        "UPDATE search_promotion SET deleted_at = NOW(), deleted_by = :deleted_by, version = \
        version + 1, updated_at = NOW()",
    );
    lemma_says(
        queries::PROMOTION_DELETE@,
        "UPDATE search_promotion SET deleted_at = NOW(), deleted_by = :deleted_by, version = \
        version + 1, updated_at = NOW()"@,
        0,
    );
    reveal_strlit(
        "WHERE tenant_id = :tenant_id AND organization_id = :organization_id AND \
        promotion_key = :promotion_key AND deleted_at IS NULL",
    );
    lemma_says(
        queries::PROMOTION_DELETE@,
        "WHERE tenant_id = :tenant_id AND organization_id = :organization_id AND \
        promotion_key = :promotion_key AND deleted_at IS NULL"@,
        116,
    );
}

} // verus!
