//! The statements of the repositories.
//!
//! Parameters are named (`:name`) and are bound in the order in which their names
//! first appear; the comment on each statement gives that order. Every statement is
//! confined to a tenant and an organization: it reads no rows of others, not even to
//! choose or to count its own.
use vstd::prelude::*;

verus! {

// ---------------------------------------------------------------------------
// search_index
// ---------------------------------------------------------------------------

/// The indexes of an organization, the latest first.
///
/// Bound: tenant_id, organization_id.
pub const INDEX_LIST_INDEXES: &'static str =
    "SELECT id, uuid, tenant_id, organization_id, index_key, title, description, status, \
    data_scope, config_json, created_at, updated_at, version, deleted_at, deleted_by FROM \
    search_index WHERE tenant_id = :tenant_id AND organization_id = :organization_id AND \
    deleted_at IS NULL ORDER BY updated_at DESC";

/// The index of a key.
///
/// Bound: tenant_id, organization_id, index_key.
pub const INDEX_GET_BY_KEY: &'static str =
    "SELECT id, uuid, tenant_id, organization_id, index_key, title, description, status, \
    data_scope, config_json, created_at, updated_at, version, deleted_at, deleted_by FROM \
    search_index WHERE tenant_id = :tenant_id AND organization_id = :organization_id AND \
    index_key = :index_key AND deleted_at IS NULL";

/// Writes a new index.
///
/// Bound: id, uuid, tenant_id, organization_id, index_key, title, description,
/// config_json.
pub const INDEX_CREATE: &'static str =
    "INSERT INTO search_index (id, uuid, tenant_id, organization_id, index_key, title, \
    description, status, data_scope, config_json, version) VALUES (:id, :uuid, :tenant_id, \
    :organization_id, :index_key, :title, :description, 1, 0, :config_json, 0) RETURNING \
    id, uuid, tenant_id, organization_id, index_key, title, description, status, \
    data_scope, config_json, created_at, updated_at, version, deleted_at, deleted_by";

/// Changes an index.
///
/// Bound: title, description, status, config_json, id, tenant_id, organization_id.
pub const INDEX_UPDATE: &'static str =
    "UPDATE search_index SET title = :title, description = :description, status = :status, \
    config_json = :config_json, version = version + 1, updated_at = NOW() WHERE id = :id \
    AND tenant_id = :tenant_id AND organization_id = :organization_id AND deleted_at IS \
    NULL RETURNING id, uuid, tenant_id, organization_id, index_key, title, description, \
    status, data_scope, config_json, created_at, updated_at, version, deleted_at, \
    deleted_by";

/// Marks an index as deleted.
///
/// Bound: deleted_by, id, tenant_id, organization_id.
pub const INDEX_DELETE: &'static str =
    "UPDATE search_index SET deleted_at = NOW(), deleted_by = :deleted_by, version = \
    version + 1, updated_at = NOW() WHERE id = :id AND tenant_id = :tenant_id AND \
    organization_id = :organization_id AND deleted_at IS NULL";

// ---------------------------------------------------------------------------
// search_index_job
// ---------------------------------------------------------------------------

/// Writes a new indexing job, pending and scheduled at once.
///
/// Bound: id, uuid, tenant_id, organization_id, index_key, job_type,
/// payload_json.
pub const JOB_CREATE: &'static str =
    "INSERT INTO search_index_job (id, uuid, tenant_id, organization_id, index_key, \
    job_type, status, payload_json, scheduled_at) VALUES (:id, :uuid, :tenant_id, \
    :organization_id, :index_key, :job_type, 0, :payload_json, NOW()) RETURNING id, uuid, \
    tenant_id, organization_id, index_key, job_type, status, payload_json, scheduled_at, \
    started_at, finished_at, error_summary, retry_count, created_at, updated_at, version";

/// The indexing job of a name.
///
/// Bound: tenant_id, organization_id, uuid.
pub const JOB_GET: &'static str =
    "SELECT id, uuid, tenant_id, organization_id, index_key, job_type, status, \
    payload_json, scheduled_at, started_at, finished_at, error_summary, retry_count, \
    created_at, updated_at, version FROM search_index_job WHERE tenant_id = :tenant_id AND \
    organization_id = :organization_id AND uuid = :uuid";

/// Changes the status of an indexing job. The times and the error summary may be
/// null. A job that is not found leaves no row affected.
///
/// Bound: status, started_at, finished_at, error_summary, uuid, tenant_id,
/// organization_id.
pub const JOB_UPDATE_STATUS: &'static str =
    "UPDATE search_index_job SET status = :status, started_at = :started_at, finished_at = \
    :finished_at, error_summary = :error_summary, updated_at = NOW(), version = version + \
    1 WHERE uuid = :uuid AND tenant_id = :tenant_id AND organization_id = \
    :organization_id";

// ---------------------------------------------------------------------------
// search_document
// ---------------------------------------------------------------------------

/// The document of a name.
///
/// Bound: tenant_id, organization_id, index_key, document_id.
pub const DOCUMENT_GET: &'static str =
    "SELECT id, uuid, tenant_id, organization_id, index_id, index_key, document_id, \
    capability, scope, group_key, group_title, source_ref, title, body_text, keyword_text, \
    payload_json, token_json, embedding_json, status, data_scope, indexed_at, created_at, \
    updated_at, version, deleted_at, deleted_by FROM search_document WHERE tenant_id = \
    :tenant_id AND organization_id = :organization_id AND index_key = :index_key AND \
    document_id = :document_id AND deleted_at IS NULL";

/// A page of the documents of an index, the latest first.
///
/// Bound: tenant_id, organization_id, index_key, limit, offset.
pub const DOCUMENT_LIST: &'static str =
    "SELECT id, uuid, tenant_id, organization_id, index_id, index_key, document_id, \
    capability, scope, group_key, group_title, source_ref, title, body_text, keyword_text, \
    payload_json, token_json, embedding_json, status, data_scope, indexed_at, created_at, \
    updated_at, version, deleted_at, deleted_by FROM search_document WHERE tenant_id = \
    :tenant_id AND organization_id = :organization_id AND index_key = :index_key AND \
    deleted_at IS NULL ORDER BY updated_at DESC LIMIT :limit OFFSET :offset";

/// Writes a document, over the one of the same name where there is one.
///
/// Bound: id, uuid, tenant_id, organization_id, index_id, index_key, document_id,
/// capability, scope, group_key, group_title, source_ref, title, body_text,
/// keyword_text, payload_json, token_json, embedding_json, status, data_scope.
pub const DOCUMENT_UPSERT: &'static str =
    "INSERT INTO search_document (id, uuid, tenant_id, organization_id, index_id, \
    index_key, document_id, capability, scope, group_key, group_title, source_ref, title, \
    body_text, keyword_text, payload_json, token_json, embedding_json, status, data_scope, \
    indexed_at) VALUES (:id, :uuid, :tenant_id, :organization_id, :index_id, :index_key, \
    :document_id, :capability, :scope, :group_key, :group_title, :source_ref, :title, \
    :body_text, :keyword_text, :payload_json, :token_json, :embedding_json, :status, \
    :data_scope, NOW()) ON CONFLICT (tenant_id, organization_id, index_key, document_id) \
    DO UPDATE SET index_id = EXCLUDED.index_id, capability = EXCLUDED.capability, scope = \
    EXCLUDED.scope, group_key = EXCLUDED.group_key, group_title = EXCLUDED.group_title, \
    source_ref = EXCLUDED.source_ref, title = EXCLUDED.title, body_text = \
    EXCLUDED.body_text, keyword_text = EXCLUDED.keyword_text, payload_json = \
    EXCLUDED.payload_json, token_json = EXCLUDED.token_json, embedding_json = \
    EXCLUDED.embedding_json, status = EXCLUDED.status, data_scope = EXCLUDED.data_scope, \
    indexed_at = NOW(), updated_at = NOW(), version = search_document.version + 1 \
    RETURNING id, uuid, tenant_id, organization_id, index_id, index_key, document_id, \
    capability, scope, group_key, group_title, source_ref, title, body_text, keyword_text, \
    payload_json, token_json, embedding_json, status, data_scope, indexed_at, created_at, \
    updated_at, version, deleted_at, deleted_by";

/// Marks a document as deleted.
///
/// Bound: deleted_by, tenant_id, organization_id, index_key, document_id.
pub const DOCUMENT_DELETE: &'static str =
    "UPDATE search_document SET deleted_at = NOW(), deleted_by = :deleted_by, version = \
    version + 1, updated_at = NOW() WHERE tenant_id = :tenant_id AND organization_id = \
    :organization_id AND index_key = :index_key AND document_id = :document_id AND \
    deleted_at IS NULL";

/// The documents that hold the words of a query, the best first.
///
/// Bound: query, tenant_id, organization_id, index_key, limit, offset.
pub const DOCUMENT_FULLTEXT_SEARCH: &'static str =
    "SELECT id, uuid, tenant_id, organization_id, index_id, index_key, document_id, \
    capability, scope, group_key, group_title, source_ref, title, body_text, keyword_text, \
    payload_json, token_json, embedding_json, status, data_scope, indexed_at, created_at, \
    updated_at, version, deleted_at, deleted_by , ts_rank(search_vector, \
    plainto_tsquery(:query)) AS score FROM search_document WHERE tenant_id = :tenant_id \
    AND organization_id = :organization_id AND index_key = :index_key AND search_vector @@ \
    plainto_tsquery(:query) AND deleted_at IS NULL ORDER BY score DESC LIMIT :limit OFFSET \
    :offset";

/// The documents whose title is similar to a query, the most similar first.
///
/// Bound: query, tenant_id, organization_id, index_key, limit, offset.
pub const DOCUMENT_FUZZY_SEARCH: &'static str =
    "SELECT id, uuid, tenant_id, organization_id, index_id, index_key, document_id, \
    capability, scope, group_key, group_title, source_ref, title, body_text, keyword_text, \
    payload_json, token_json, embedding_json, status, data_scope, indexed_at, created_at, \
    updated_at, version, deleted_at, deleted_by , similarity(title, :query) AS score FROM \
    search_document WHERE tenant_id = :tenant_id AND organization_id = :organization_id \
    AND index_key = :index_key AND similarity(title, :query) > 0.1 AND deleted_at IS NULL \
    ORDER BY score DESC LIMIT :limit OFFSET :offset";

/// The documents whose embedding is nearest to a vector, which is bound as a
/// literal such as `[0.1,0.2]`.
///
/// Bound: query_embedding, tenant_id, organization_id, index_key, limit, offset.
pub const DOCUMENT_SEMANTIC_SEARCH: &'static str =
    "SELECT id, uuid, tenant_id, organization_id, index_id, index_key, document_id, \
    capability, scope, group_key, group_title, source_ref, title, body_text, keyword_text, \
    payload_json, token_json, embedding_json, status, data_scope, indexed_at, created_at, \
    updated_at, version, deleted_at, deleted_by , 1 - ((embedding_json -> \
    'vector')::text)::vector <=> :query_embedding::vector AS score FROM search_document \
    WHERE tenant_id = :tenant_id AND organization_id = :organization_id AND index_key = \
    :index_key AND embedding_json ? 'vector' AND deleted_at IS NULL ORDER BY score DESC \
    LIMIT :limit OFFSET :offset";

/// The number of documents of an index.
///
/// Bound: tenant_id, organization_id, index_key.
pub const DOCUMENT_COUNT: &'static str =
    "SELECT COUNT(*) AS count FROM search_document WHERE tenant_id = :tenant_id AND \
    organization_id = :organization_id AND index_key = :index_key AND deleted_at IS NULL";

/// The number of documents of an index, the number of active ones, and the time of
/// the latest change.
///
/// Bound: tenant_id, organization_id, index_key.
pub const DOCUMENT_STATS: &'static str =
    "SELECT COUNT(*) AS document_count, COUNT(*) FILTER (WHERE status = 1) AS \
    active_document_count, MAX(updated_at) AS last_updated FROM search_document WHERE \
    tenant_id = :tenant_id AND organization_id = :organization_id AND index_key = \
    :index_key AND deleted_at IS NULL";

// ---------------------------------------------------------------------------
// search_query_suggestion
// ---------------------------------------------------------------------------

/// The suggestions that are similar to a text, the most similar first.
///
/// Bound: tenant_id, organization_id, index_key, prefix, limit.
pub const SUGGESTION_LIST: &'static str =
    "SELECT id, uuid, tenant_id, organization_id, index_key, suggestion_text, source, \
    score, status, created_at, updated_at, version FROM search_query_suggestion WHERE \
    tenant_id = :tenant_id AND organization_id = :organization_id AND index_key = \
    :index_key AND status = 1 AND similarity(suggestion_text, :prefix) > 0.1 ORDER BY \
    similarity(suggestion_text, :prefix) DESC, score DESC LIMIT :limit";

/// Writes a suggestion, or counts it once more.
///
/// Bound: id, uuid, tenant_id, organization_id, index_key, suggestion_text.
pub const SUGGESTION_UPSERT: &'static str =
    "INSERT INTO search_query_suggestion (id, uuid, tenant_id, organization_id, index_key, \
    suggestion_text, score, status, version) VALUES (:id, :uuid, :tenant_id, \
    :organization_id, :index_key, :suggestion_text, 1, 1, 0) ON CONFLICT (tenant_id, \
    organization_id, index_key, suggestion_text) DO UPDATE SET score = \
    search_query_suggestion.score + 1, updated_at = NOW(), version = version + 1 RETURNING \
    id, uuid, tenant_id, organization_id, index_key, suggestion_text, source, score, \
    status, created_at, updated_at, version";

/// Counts a suggestion once more.
///
/// Bound: id, tenant_id, organization_id.
pub const SUGGESTION_INCREMENT_POPULARITY: &'static str =
    "UPDATE search_query_suggestion SET score = score + 1, updated_at = NOW(), version = \
    version + 1 WHERE id = :id AND tenant_id = :tenant_id AND organization_id = \
    :organization_id AND status = 1";

// ---------------------------------------------------------------------------
// search_user_event and search_recent_query
// ---------------------------------------------------------------------------

/// Writes what a user did.
///
/// Bound: id, uuid, tenant_id, organization_id, user_id, event_type, surface,
/// index_key, document_id, placement, q, result_position, request_id,
/// metadata_json.
pub const USER_EVENT_RECORD: &'static str =
    "INSERT INTO search_user_event (id, uuid, tenant_id, organization_id, user_id, \
    event_type, surface, index_key, document_id, placement, q, result_position, \
    request_id, metadata_json, occurred_at) VALUES (:id, :uuid, :tenant_id, \
    :organization_id, :user_id, :event_type, :surface, :index_key, :document_id, \
    :placement, :q, :result_position, :request_id, :metadata_json, NOW()) RETURNING id, \
    uuid, tenant_id, organization_id, user_id, event_type, surface, index_key, \
    document_id, placement, q, result_position, request_id, metadata_json, occurred_at, \
    created_at";

/// Writes a query that a user made, or that it was made again.
///
/// Bound: id, uuid, tenant_id, organization_id, user_id, index_key, q,
/// result_count.
pub const RECENT_QUERY_UPSERT: &'static str =
    "INSERT INTO search_recent_query (id, uuid, tenant_id, organization_id, user_id, \
    index_key, q, result_count, last_used_at) VALUES (:id, :uuid, :tenant_id, \
    :organization_id, :user_id, :index_key, :q, :result_count, NOW()) ON CONFLICT \
    (tenant_id, organization_id, user_id, index_key, q) DO UPDATE SET result_count = \
    EXCLUDED.result_count, last_used_at = NOW(), updated_at = NOW() RETURNING id, uuid, \
    tenant_id, organization_id, user_id, index_key, q, result_count, last_used_at, \
    created_at, updated_at";

/// The latest queries of a user.
///
/// Bound: tenant_id, organization_id, user_id, limit.
pub const RECENT_QUERY_LIST: &'static str =
    "SELECT id, uuid, tenant_id, organization_id, user_id, index_key, q, result_count, \
    last_used_at, created_at, updated_at FROM search_recent_query WHERE tenant_id = \
    :tenant_id AND organization_id = :organization_id AND user_id = :user_id ORDER BY \
    last_used_at DESC LIMIT :limit";

/// What a user did, the latest first: all of it, or what is of one type.
///
/// Bound: tenant_id, organization_id, user_id, event_type, limit.
pub const USER_EVENT_LIST_BY_USER: &'static str =
    "SELECT id, uuid, tenant_id, organization_id, user_id, event_type, surface, index_key, \
    document_id, placement, q, result_position, request_id, metadata_json, occurred_at, \
    created_at FROM search_user_event WHERE tenant_id = :tenant_id AND organization_id = \
    :organization_id AND user_id = :user_id AND (:event_type IS NULL OR event_type = \
    :event_type) ORDER BY occurred_at DESC LIMIT :limit";

/// The documents that were viewed or clicked most often.
///
/// Bound: tenant_id, organization_id, index_key, limit.
pub const USER_EVENT_TRENDING: &'static str =
    "SELECT document_id, COUNT(*) AS event_count FROM search_user_event WHERE tenant_id = \
    :tenant_id AND organization_id = :organization_id AND index_key = :index_key AND \
    event_type IN ('view', 'click') AND document_id IS NOT NULL GROUP BY document_id ORDER \
    BY event_count DESC LIMIT :limit";

/// The documents that users of the given documents viewed or clicked too, those
/// with the most common users first. The given documents are left out. Events of
/// other tenants and organizations do not count: neither those of the documents found
/// nor those that the users are drawn from.
///
/// Bound: tenant_id, organization_id, index_key, document_ids, limit.
pub const USER_EVENT_SIMILAR_DOCUMENTS: &'static str =
    "SELECT document_id, COUNT(DISTINCT user_id) AS similarity_score FROM search_user_event \
    WHERE tenant_id = :tenant_id AND organization_id = :organization_id AND index_key = \
    :index_key AND document_id != ALL(:document_ids::text[]) AND user_id IN ( SELECT \
    DISTINCT user_id FROM search_user_event WHERE tenant_id = :tenant_id AND \
    organization_id = :organization_id AND document_id = ANY(:document_ids::text[]) ) AND \
    document_id IS NOT NULL AND event_type IN ('view', 'click') GROUP BY document_id ORDER \
    BY similarity_score DESC LIMIT :limit";

// ---------------------------------------------------------------------------
// search_promotion
// ---------------------------------------------------------------------------

/// The promotions of a placement that are active at a time.
///
/// Bound: tenant_id, organization_id, index_key, placement, now.
pub const PROMOTION_LIST_ACTIVE: &'static str =
    "SELECT id, uuid, tenant_id, organization_id, promotion_key, placement, index_key, \
    document_id, priority, rule_json, status, active_from, active_until, created_at, \
    updated_at, version, deleted_at, deleted_by FROM search_promotion WHERE tenant_id = \
    :tenant_id AND organization_id = :organization_id AND index_key = :index_key AND \
    placement = :placement AND status = 1 AND deleted_at IS NULL AND (active_from IS NULL \
    OR active_from <= :now) AND (active_until IS NULL OR active_until >= :now) ORDER BY \
    priority DESC, updated_at DESC";

/// Writes a new promotion.
///
/// Bound: id, uuid, tenant_id, organization_id, promotion_key, placement,
/// index_key, document_id, priority, rule_json.
pub const PROMOTION_CREATE: &'static str =
    "INSERT INTO search_promotion (id, uuid, tenant_id, organization_id, promotion_key, \
    placement, index_key, document_id, priority, rule_json, status, version) VALUES (:id, \
    :uuid, :tenant_id, :organization_id, :promotion_key, :placement, :index_key, \
    :document_id, :priority, :rule_json, 1, 0) RETURNING id, uuid, tenant_id, \
    organization_id, promotion_key, placement, index_key, document_id, priority, \
    rule_json, status, active_from, active_until, created_at, updated_at, version, \
    deleted_at, deleted_by";

/// Writes that a promotion was delivered or clicked. The promotion stands in the
/// place of the document.
///
/// Bound: id, uuid, tenant_id, organization_id, user_id, event_type,
/// promotion_id, metadata_json.
pub const PROMOTION_EVENT_INSERT: &'static str =
    "INSERT INTO search_user_event (id, uuid, tenant_id, organization_id, user_id, \
    event_type, surface, document_id, metadata_json, occurred_at) VALUES (:id, :uuid, \
    :tenant_id, :organization_id, :user_id, :event_type, 'promotion', :promotion_id, \
    :metadata_json, NOW())";

/// How often a promotion was delivered and clicked.
///
/// Bound: tenant_id, organization_id, promotion_id.
pub const PROMOTION_STATS: &'static str =
    "SELECT COUNT(*) FILTER (WHERE event_type = 'promotion_delivery') AS delivery_count, \
    COUNT(*) FILTER (WHERE event_type = 'promotion_click') AS click_count FROM \
    search_user_event WHERE tenant_id = :tenant_id AND organization_id = :organization_id \
    AND document_id = :promotion_id AND event_type IN ('promotion_delivery', \
    'promotion_click')";

/// A page of the promotions of an index, active or not.
///
/// Bound: tenant_id, organization_id, index_key, limit, offset.
pub const PROMOTION_LIST_ALL: &'static str =
    "SELECT id, uuid, tenant_id, organization_id, promotion_key, placement, index_key, \
    document_id, priority, rule_json, status, active_from, active_until, created_at, \
    updated_at, version, deleted_at, deleted_by FROM search_promotion WHERE tenant_id = \
    :tenant_id AND organization_id = :organization_id AND index_key = :index_key AND \
    deleted_at IS NULL ORDER BY priority DESC, updated_at DESC LIMIT :limit OFFSET :offset";

/// The promotion of a key.
///
/// Bound: tenant_id, organization_id, promotion_key.
pub const PROMOTION_GET: &'static str =
    "SELECT id, uuid, tenant_id, organization_id, promotion_key, placement, index_key, \
    document_id, priority, rule_json, status, active_from, active_until, created_at, \
    updated_at, version, deleted_at, deleted_by FROM search_promotion WHERE tenant_id = \
    :tenant_id AND organization_id = :organization_id AND promotion_key = :promotion_key \
    AND deleted_at IS NULL";

/// Changes a promotion. What is bound as null stays as it is.
///
/// Bound: placement, document_id, priority, rule_json, status, active_from,
/// active_until, tenant_id, organization_id, promotion_key.
pub const PROMOTION_UPDATE: &'static str =
    "UPDATE search_promotion SET placement = COALESCE(:placement, placement), document_id = \
    COALESCE(:document_id, document_id), priority = COALESCE(:priority, priority), \
    rule_json = COALESCE(:rule_json, rule_json), status = COALESCE(:status, status), \
    active_from = COALESCE(:active_from, active_from), active_until = \
    COALESCE(:active_until, active_until), updated_at = NOW(), version = version + 1 WHERE \
    tenant_id = :tenant_id AND organization_id = :organization_id AND promotion_key = \
    :promotion_key AND deleted_at IS NULL RETURNING id, uuid, tenant_id, organization_id, \
    promotion_key, placement, index_key, document_id, priority, rule_json, status, \
    active_from, active_until, created_at, updated_at, version, deleted_at, deleted_by";

/// Marks a promotion as deleted.
///
/// Bound: deleted_by, tenant_id, organization_id, promotion_key.
pub const PROMOTION_DELETE: &'static str =
    "UPDATE search_promotion SET deleted_at = NOW(), deleted_by = :deleted_by, version = \
    version + 1, updated_at = NOW() WHERE tenant_id = :tenant_id AND organization_id = \
    :organization_id AND promotion_key = :promotion_key AND deleted_at IS NULL";

} // verus!
