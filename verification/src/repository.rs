//! The repositories: for each operation on a table, the statement and the values
//! bound to it.
use vstd::prelude::*;

use crate::clock::Timestamp;
use crate::json::{json, object_value, optional_json, Json};
use crate::queries;
use crate::search::{page_limit, page_offset};
use crate::statement::{BindValue, Bound, Statement};
use crate::text::{optional_view, views};

verus! {

// ---------------------------------------------------------------------------
// Parameters
// ---------------------------------------------------------------------------

/// A new index.
#[derive(Debug)]
pub struct CreateIndexParams {
    pub id: i64,
    pub tenant_id: i64,
    pub organization_id: i64,
    pub index_key: String,
    pub title: String,
    pub description: Option<String>,
    pub config_json: serde_json::Value,
}

/// The new content of an index.
#[derive(Debug)]
pub struct UpdateIndexParams {
    pub id: i64,
    pub tenant_id: i64,
    pub title: String,
    pub description: Option<String>,
    pub status: i32,
    pub config_json: serde_json::Value,
}

/// A new indexing job.
#[derive(Debug)]
pub struct CreateIndexJobParams {
    pub id: i64,
    pub tenant_id: i64,
    pub organization_id: i64,
    pub index_key: String,
    pub job_type: String,
    pub payload_json: serde_json::Value,
}

/// A document to write.
#[derive(Debug)]
pub struct UpsertDocumentParams {
    pub id: i64,
    pub tenant_id: i64,
    pub organization_id: i64,
    pub index_id: i64,
    pub index_key: String,
    pub document_id: String,
    pub capability: Option<String>,
    pub scope: String,
    pub group_key: Option<String>,
    pub group_title: Option<String>,
    pub source_ref: Option<String>,
    pub title: String,
    pub body_text: Option<String>,
    pub keyword_text: Option<String>,
    pub payload_json: serde_json::Value,
    pub token_json: serde_json::Value,
    pub embedding_json: serde_json::Value,
    pub status: i32,
    pub data_scope: i32,
}

/// What a user did.
#[derive(Debug)]
pub struct RecordUserEventParams {
    pub id: i64,
    pub tenant_id: i64,
    pub organization_id: i64,
    pub user_id: i64,
    pub event_type: String,
    pub surface: String,
    pub index_key: Option<String>,
    pub document_id: Option<String>,
    pub placement: Option<String>,
    pub q: Option<String>,
    pub result_position: Option<i32>,
    pub request_id: Option<String>,
    pub metadata_json: serde_json::Value,
}

/// A query that a user made.
#[derive(Debug)]
pub struct UpsertRecentQueryParams<'a> {
    pub id: i64,
    pub tenant_id: i64,
    pub organization_id: i64,
    pub user_id: i64,
    pub index_key: &'a str,
    pub q: &'a str,
    pub result_count: i32,
}

/// A new promotion.
#[derive(Debug)]
pub struct CreatePromotionParams {
    pub id: i64,
    pub tenant_id: i64,
    pub organization_id: i64,
    pub promotion_key: String,
    pub placement: String,
    pub index_key: String,
    pub document_id: String,
    pub priority: i32,
    pub rule_json: serde_json::Value,
}

/// The changes to a promotion. What is absent stays as it is.
#[derive(Debug)]
pub struct UpdatePromotionParams {
    pub placement: Option<String>,
    pub document_id: Option<String>,
    pub priority: Option<i32>,
    pub rule_json: Option<serde_json::Value>,
    pub status: Option<i32>,
    pub active_from: Option<Timestamp>,
    pub active_until: Option<Timestamp>,
}

// ---------------------------------------------------------------------------
// Copies
// ---------------------------------------------------------------------------

/// A copy of the text, where there is one.
pub(crate) fn copy_text(text: &Option<String>) -> (copy: Option<String>)
    ensures
        optional_view(copy) == optional_view(*text),
{
    match text {
        Some(t) => Some(t.clone()),
        None => None,
    }
}

/// A copy of the value, where there is one.
pub(crate) fn copy_json(value: &Option<serde_json::Value>) -> (copy: Option<serde_json::Value>)
    ensures
        optional_json(copy) == optional_json(*value),
{
    match value {
        Some(v) => Some(v.clone()),
        None => None,
    }
}

/// A copy of the texts.
pub(crate) fn copy_texts(texts: &Vec<String>) -> (copies: Vec<String>)
    ensures
        views(copies@) == views(texts@),
{
    let mut copies: Vec<String> = Vec::new();
    let mut i: usize = 0;
    while i < texts.len()
        invariant
            i <= texts@.len(),
            copies@.len() == i,
            forall|k: int| 0 <= k < i ==> (#[trigger] copies@[k])@ == texts@[k]@,
        decreases texts.len() - i,
    {
        copies.push(texts[i].clone());
        i += 1;
    }
    assert(views(copies@) == views(texts@));
    copies
}

// ---------------------------------------------------------------------------
// search_index and search_index_job
// ---------------------------------------------------------------------------

/// The indexes and the indexing jobs. `P` is the connection pool.
#[derive(Debug)]
pub struct SearchIndexRepository<P> {
    pub pool: P,
}

/// What is bound to the statement that writes a new index.
pub open spec fn create_index_binds(params: CreateIndexParams, uuid: Seq<char>) -> Seq<Bound> {
    seq![
        Bound::BigInt(params.id),
        Bound::Text(uuid),
        Bound::BigInt(params.tenant_id),
        Bound::BigInt(params.organization_id),
        Bound::Text(params.index_key@),
        Bound::Text(params.title@),
        Bound::OptionalText(optional_view(params.description)),
        Bound::Json(json(params.config_json)),
    ]
}

/// What is bound to the statement that writes a new indexing job.
pub open spec fn create_index_job_binds(params: CreateIndexJobParams, uuid: Seq<char>) -> Seq<
    Bound,
> {
    seq![
        Bound::BigInt(params.id),
        Bound::Text(uuid),
        Bound::BigInt(params.tenant_id),
        Bound::BigInt(params.organization_id),
        Bound::Text(params.index_key@),
        Bound::Text(params.job_type@),
        Bound::Json(json(params.payload_json)),
    ]
}

impl<P> SearchIndexRepository<P> {
    /// The repository on that pool.
    pub fn new(pool: P) -> (repository: SearchIndexRepository<P>)
        ensures
            repository.pool == pool,
    {
        SearchIndexRepository { pool }
    }

    /// The statement that lists the indexes of an organization.
    pub fn list_indexes(&self, tenant_id: i64, organization_id: i64) -> (statement: Statement)
        ensures
            statement.reads(
                queries::INDEX_LIST_INDEXES@,
                seq![Bound::BigInt(tenant_id), Bound::BigInt(organization_id)],
            ),
    {
        Statement {
            sql: queries::INDEX_LIST_INDEXES.to_owned(),
            binds: vec![BindValue::BigInt(tenant_id), BindValue::BigInt(organization_id)],
        }
    }

    /// The statement that finds an index by its key.
    pub fn get_index_by_key(&self, tenant_id: i64, organization_id: i64, index_key: &str) -> (statement:
        Statement)
        ensures
            statement.reads(
                queries::INDEX_GET_BY_KEY@,
                seq![
                    Bound::BigInt(tenant_id),
                    Bound::BigInt(organization_id),
                    Bound::Text(index_key@),
                ],
            ),
    {
        Statement {
            sql: queries::INDEX_GET_BY_KEY.to_owned(),
            binds: vec![
                BindValue::BigInt(tenant_id),
                BindValue::BigInt(organization_id),
                BindValue::Text(index_key.to_owned()),
            ],
        }
    }

    /// The statement that writes a new index under the name `uuid`.
    pub fn create_index(&self, params: &CreateIndexParams, uuid: String) -> (statement: Statement)
        ensures
            statement.reads(queries::INDEX_CREATE@, create_index_binds(*params, uuid@)),
    {
        Statement {
            sql: queries::INDEX_CREATE.to_owned(),
            binds: vec![
                BindValue::BigInt(params.id),
                BindValue::Text(uuid),
                BindValue::BigInt(params.tenant_id),
                BindValue::BigInt(params.organization_id),
                BindValue::Text(params.index_key.clone()),
                BindValue::Text(params.title.clone()),
                BindValue::OptionalText(copy_text(&params.description)),
                BindValue::Json(params.config_json.clone()),
            ],
        }
    }

    /// The statement that changes an index of an organization.
    pub fn update_index(&self, organization_id: i64, params: &UpdateIndexParams) -> (statement:
        Statement)
        ensures
            statement.reads(
                queries::INDEX_UPDATE@,
                seq![
                    Bound::Text(params.title@),
                    Bound::OptionalText(optional_view(params.description)),
                    Bound::Integer(params.status),
                    Bound::Json(json(params.config_json)),
                    Bound::BigInt(params.id),
                    Bound::BigInt(params.tenant_id),
                    Bound::BigInt(organization_id),
                ],
            ),
    {
        Statement {
            sql: queries::INDEX_UPDATE.to_owned(),
            binds: vec![
                BindValue::Text(params.title.clone()),
                BindValue::OptionalText(copy_text(&params.description)),
                BindValue::Integer(params.status),
                BindValue::Json(params.config_json.clone()),
                BindValue::BigInt(params.id),
                BindValue::BigInt(params.tenant_id),
                BindValue::BigInt(organization_id),
            ],
        }
    }

    /// The statement that writes a new indexing job under the name `uuid`.
    pub fn create_index_job(&self, params: &CreateIndexJobParams, uuid: String) -> (statement: Statement)
        ensures
            statement.reads(queries::JOB_CREATE@, create_index_job_binds(*params, uuid@)),
    {
        Statement {
            sql: queries::JOB_CREATE.to_owned(),
            binds: vec![
                BindValue::BigInt(params.id),
                BindValue::Text(uuid),
                BindValue::BigInt(params.tenant_id),
                BindValue::BigInt(params.organization_id),
                BindValue::Text(params.index_key.clone()),
                BindValue::Text(params.job_type.clone()),
                BindValue::Json(params.payload_json.clone()),
            ],
        }
    }

    /// The statement that finds an indexing job by its name.
    pub fn get_index_job(&self, tenant_id: i64, organization_id: i64, job_uuid: &str) -> (statement:
        Statement)
        ensures
            statement.reads(
                queries::JOB_GET@,
                seq![
                    Bound::BigInt(tenant_id),
                    Bound::BigInt(organization_id),
                    Bound::Text(job_uuid@),
                ],
            ),
    {
        Statement {
            sql: queries::JOB_GET.to_owned(),
            binds: vec![
                BindValue::BigInt(tenant_id),
                BindValue::BigInt(organization_id),
                BindValue::Text(job_uuid.to_owned()),
            ],
        }
    }

    /// The statement that changes the status of an indexing job.
    pub fn update_index_job_status(
        &self,
        tenant_id: i64,
        organization_id: i64,
        job_uuid: &str,
        status: i32,
        started_at: Option<Timestamp>,
        finished_at: Option<Timestamp>,
        error_summary: Option<String>,
    ) -> (statement: Statement)
        ensures
            statement.reads(
                queries::JOB_UPDATE_STATUS@,
                seq![
                    Bound::Integer(status),
                    Bound::OptionalMoment(started_at),
                    Bound::OptionalMoment(finished_at),
                    Bound::OptionalText(optional_view(error_summary)),
                    Bound::Text(job_uuid@),
                    Bound::BigInt(tenant_id),
                    Bound::BigInt(organization_id),
                ],
            ),
    {
        Statement {
            sql: queries::JOB_UPDATE_STATUS.to_owned(),
            binds: vec![
                BindValue::Integer(status),
                BindValue::OptionalMoment(started_at),
                BindValue::OptionalMoment(finished_at),
                BindValue::OptionalText(error_summary),
                BindValue::Text(job_uuid.to_owned()),
                BindValue::BigInt(tenant_id),
                BindValue::BigInt(organization_id),
            ],
        }
    }
}

// ---------------------------------------------------------------------------
// search_document
// ---------------------------------------------------------------------------

/// The documents. `P` is the connection pool.
#[derive(Debug)]
pub struct SearchDocumentRepository<P> {
    pub pool: P,
}

/// What is bound to the statement that writes a document.
pub open spec fn upsert_document_binds(params: UpsertDocumentParams, uuid: Seq<char>) -> Seq<Bound> {
    seq![
        Bound::BigInt(params.id),
        Bound::Text(uuid),
        Bound::BigInt(params.tenant_id),
        Bound::BigInt(params.organization_id),
        Bound::BigInt(params.index_id),
        Bound::Text(params.index_key@),
        Bound::Text(params.document_id@),
        Bound::OptionalText(optional_view(params.capability)),
        Bound::Text(params.scope@),
        Bound::OptionalText(optional_view(params.group_key)),
        Bound::OptionalText(optional_view(params.group_title)),
        Bound::OptionalText(optional_view(params.source_ref)),
        Bound::Text(params.title@),
        Bound::OptionalText(optional_view(params.body_text)),
        Bound::OptionalText(optional_view(params.keyword_text)),
        Bound::Json(json(params.payload_json)),
        Bound::Json(json(params.token_json)),
        Bound::Json(json(params.embedding_json)),
        Bound::Integer(params.status),
        Bound::Integer(params.data_scope),
    ]
}

/// What is bound to a statement on one document.
pub open spec fn document_binds(
    tenant_id: i64,
    organization_id: i64,
    index_key: Seq<char>,
    document_id: Seq<char>,
) -> Seq<Bound> {
    seq![
        Bound::BigInt(tenant_id),
        Bound::BigInt(organization_id),
        Bound::Text(index_key),
        Bound::Text(document_id),
    ]
}

/// What is bound to a statement on all documents, or all promotions, of an index.
pub open spec fn index_binds(tenant_id: i64, organization_id: i64, index_key: Seq<char>) -> Seq<
    Bound,
> {
    seq![Bound::BigInt(tenant_id), Bound::BigInt(organization_id), Bound::Text(index_key)]
}

/// The size of a page and its offset, as they are bound.
pub open spec fn page_binds(page: u32, page_size: u32) -> Seq<Bound> {
    seq![
        Bound::BigInt(page_limit(page_size as int) as i64),
        Bound::BigInt(page_offset(page as int, page_size as int) as i64),
    ]
}

/// Whether the offset of the page fits a signed 64-bit number.
pub open spec fn page_fits(page: u32, page_size: u32) -> bool {
    page_offset(page as int, page_size as int) <= i64::MAX
}

/// Whether the offset of the page fits a signed 64-bit number.
pub fn is_reachable_page(page: u32, page_size: u32) -> (reachable: bool)
    ensures
        reachable == page_fits(page, page_size),
{
    let page: u32 = if page < 1 { 1 } else { page };
    let page_size: u32 = if page_size < 1 { 1 } else { page_size };
    proof {
        lemma_offset_bound(page, page_size);
    }
    ((page - 1) as u64) * (page_size as u64) <= i64::MAX as u64
}

/// An offset fits an unsigned 64-bit number.
proof fn lemma_offset_bound(page: u32, page_size: u32)
    requires
        1 <= page,
        1 <= page_size,
    ensures
        0 <= (page - 1) * page_size <= u64::MAX,
{
    assert(0 <= (page - 1) * page_size <= 0xffff_ffff * 0xffff_ffff) by (nonlinear_arith)
        requires
            1 <= page <= 0xffff_ffff,
            1 <= page_size <= 0xffff_ffff,
    ;
}

/// The size of a page and its offset. Pages are counted from one, and a page has
/// at least one row.
pub fn page_window(page: u32, page_size: u32) -> (window: (i64, i64))
    requires
        page_fits(page, page_size),
    ensures
        window.0 == page_limit(page_size as int),
        window.1 == page_offset(page as int, page_size as int),
{
    let page: u32 = if page < 1 { 1 } else { page };
    let page_size: u32 = if page_size < 1 { 1 } else { page_size };
    proof {
        lemma_offset_bound(page, page_size);
    }
    let limit: i64 = page_size as i64;
    let offset: i64 = ((page - 1) as i64) * limit;
    (limit, offset)
}

impl<P> SearchDocumentRepository<P> {
    /// The repository on that pool.
    pub fn new(pool: P) -> (repository: SearchDocumentRepository<P>)
        ensures
            repository.pool == pool,
    {
        SearchDocumentRepository { pool }
    }

    /// The statement that finds a document by its name.
    pub fn get_document(
        &self,
        tenant_id: i64,
        organization_id: i64,
        index_key: &str,
        document_id: &str,
    ) -> (statement: Statement)
        ensures
            statement.reads(
                queries::DOCUMENT_GET@,
                document_binds(tenant_id, organization_id, index_key@, document_id@),
            ),
    {
        Statement {
            sql: queries::DOCUMENT_GET.to_owned(),
            binds: vec![
                BindValue::BigInt(tenant_id),
                BindValue::BigInt(organization_id),
                BindValue::Text(index_key.to_owned()),
                BindValue::Text(document_id.to_owned()),
            ],
        }
    }

    /// The statement that lists a page of the documents of an index.
    pub fn list_documents(
        &self,
        tenant_id: i64,
        organization_id: i64,
        index_key: &str,
        page: u32,
        page_size: u32,
    ) -> (statement: Statement)
        requires
            page_fits(page, page_size),
        ensures
            statement.reads(
                queries::DOCUMENT_LIST@,
                index_binds(tenant_id, organization_id, index_key@) + page_binds(page, page_size),
            ),
    {
        let (limit, offset): (i64, i64) = page_window(page, page_size);
        Statement {
            sql: queries::DOCUMENT_LIST.to_owned(),
            binds: vec![
                BindValue::BigInt(tenant_id),
                BindValue::BigInt(organization_id),
                BindValue::Text(index_key.to_owned()),
                BindValue::BigInt(limit),
                BindValue::BigInt(offset),
            ],
        }
    }

    /// The statement that writes a document under the name `uuid`.
    pub fn upsert_document(&self, params: &UpsertDocumentParams, uuid: String) -> (statement: Statement)
        ensures
            statement.reads(queries::DOCUMENT_UPSERT@, upsert_document_binds(*params, uuid@)),
    {
        Statement {
            sql: queries::DOCUMENT_UPSERT.to_owned(),
            binds: vec![
                BindValue::BigInt(params.id),
                BindValue::Text(uuid),
                BindValue::BigInt(params.tenant_id),
                BindValue::BigInt(params.organization_id),
                BindValue::BigInt(params.index_id),
                BindValue::Text(params.index_key.clone()),
                BindValue::Text(params.document_id.clone()),
                BindValue::OptionalText(copy_text(&params.capability)),
                BindValue::Text(params.scope.clone()),
                BindValue::OptionalText(copy_text(&params.group_key)),
                BindValue::OptionalText(copy_text(&params.group_title)),
                BindValue::OptionalText(copy_text(&params.source_ref)),
                BindValue::Text(params.title.clone()),
                BindValue::OptionalText(copy_text(&params.body_text)),
                BindValue::OptionalText(copy_text(&params.keyword_text)),
                BindValue::Json(params.payload_json.clone()),
                BindValue::Json(params.token_json.clone()),
                BindValue::Json(params.embedding_json.clone()),
                BindValue::Integer(params.status),
                BindValue::Integer(params.data_scope),
            ],
        }
    }

    /// The statement that deletes a document. It is marked, not removed.
    pub fn delete_document(
        &self,
        tenant_id: i64,
        organization_id: i64,
        index_key: &str,
        document_id: &str,
        deleted_by: Option<i64>,
    ) -> (statement: Statement)
        ensures
            statement.reads(
                queries::DOCUMENT_DELETE@,
                seq![Bound::OptionalBigInt(deleted_by)] + document_binds(
                    tenant_id,
                    organization_id,
                    index_key@,
                    document_id@,
                ),
            ),
    {
        Statement {
            sql: queries::DOCUMENT_DELETE.to_owned(),
            binds: vec![
                BindValue::OptionalBigInt(deleted_by),
                BindValue::BigInt(tenant_id),
                BindValue::BigInt(organization_id),
                BindValue::Text(index_key.to_owned()),
                BindValue::Text(document_id.to_owned()),
            ],
        }
    }

    /// The statement that counts the documents of an index.
    pub fn count_documents(&self, tenant_id: i64, organization_id: i64, index_key: &str) -> (statement:
        Statement)
        ensures
            statement.reads(
                queries::DOCUMENT_COUNT@,
                index_binds(tenant_id, organization_id, index_key@),
            ),
    {
        Statement {
            sql: queries::DOCUMENT_COUNT.to_owned(),
            binds: vec![
                BindValue::BigInt(tenant_id),
                BindValue::BigInt(organization_id),
                BindValue::Text(index_key.to_owned()),
            ],
        }
    }

    /// The statement that counts the documents of an index and the active ones.
    pub fn document_stats(&self, tenant_id: i64, organization_id: i64, index_key: &str) -> (statement:
        Statement)
        ensures
            statement.reads(
                queries::DOCUMENT_STATS@,
                index_binds(tenant_id, organization_id, index_key@),
            ),
    {
        Statement {
            sql: queries::DOCUMENT_STATS.to_owned(),
            binds: vec![
                BindValue::BigInt(tenant_id),
                BindValue::BigInt(organization_id),
                BindValue::Text(index_key.to_owned()),
            ],
        }
    }
}

// ---------------------------------------------------------------------------
// search_query_suggestion
// ---------------------------------------------------------------------------

/// The suggestions. `P` is the connection pool.
#[derive(Debug)]
pub struct SearchSuggestionRepository<P> {
    pub pool: P,
}

impl<P> SearchSuggestionRepository<P> {
    /// The repository on that pool.
    pub fn new(pool: P) -> (repository: SearchSuggestionRepository<P>)
        ensures
            repository.pool == pool,
    {
        SearchSuggestionRepository { pool }
    }
}

// ---------------------------------------------------------------------------
// search_user_event and search_recent_query
// ---------------------------------------------------------------------------

/// What users did and asked. `P` is the connection pool.
#[derive(Debug)]
pub struct SearchUserEventRepository<P> {
    pub pool: P,
}

/// What is bound to the statement that writes what a user did.
pub open spec fn record_event_binds(params: RecordUserEventParams, uuid: Seq<char>) -> Seq<Bound> {
    seq![
        Bound::BigInt(params.id),
        Bound::Text(uuid),
        Bound::BigInt(params.tenant_id),
        Bound::BigInt(params.organization_id),
        Bound::BigInt(params.user_id),
        Bound::Text(params.event_type@),
        Bound::Text(params.surface@),
        Bound::OptionalText(optional_view(params.index_key)),
        Bound::OptionalText(optional_view(params.document_id)),
        Bound::OptionalText(optional_view(params.placement)),
        Bound::OptionalText(optional_view(params.q)),
        Bound::OptionalInteger(params.result_position),
        Bound::OptionalText(optional_view(params.request_id)),
        Bound::Json(json(params.metadata_json)),
    ]
}

/// What is bound to the statement that writes a query that a user made.
pub open spec fn recent_query_binds(params: UpsertRecentQueryParams, uuid: Seq<char>) -> Seq<Bound> {
    seq![
        Bound::BigInt(params.id),
        Bound::Text(uuid),
        Bound::BigInt(params.tenant_id),
        Bound::BigInt(params.organization_id),
        Bound::BigInt(params.user_id),
        Bound::Text(params.index_key@),
        Bound::Text(params.q@),
        Bound::Integer(params.result_count),
    ]
}

impl<P> SearchUserEventRepository<P> {
    /// The repository on that pool.
    pub fn new(pool: P) -> (repository: SearchUserEventRepository<P>)
        ensures
            repository.pool == pool,
    {
        SearchUserEventRepository { pool }
    }

    /// The statement that lists the latest queries of a user.
    pub fn list_recent_queries(
        &self,
        tenant_id: i64,
        organization_id: i64,
        user_id: i64,
        limit: u32,
    ) -> (statement: Statement)
        ensures
            statement.reads(
                queries::RECENT_QUERY_LIST@,
                seq![
                    Bound::BigInt(tenant_id),
                    Bound::BigInt(organization_id),
                    Bound::BigInt(user_id),
                    Bound::BigInt(limit as i64),
                ],
            ),
    {
        Statement {
            sql: queries::RECENT_QUERY_LIST.to_owned(),
            binds: vec![
                BindValue::BigInt(tenant_id),
                BindValue::BigInt(organization_id),
                BindValue::BigInt(user_id),
                BindValue::BigInt(limit as i64),
            ],
        }
    }

    /// The statement that writes a query that a user made, under the name `uuid`.
    pub fn upsert_recent_query<'a>(&self, params: &UpsertRecentQueryParams<'a>, uuid: String) -> (statement:
        Statement)
        ensures
            statement.reads(queries::RECENT_QUERY_UPSERT@, recent_query_binds(*params, uuid@)),
    {
        Statement {
            sql: queries::RECENT_QUERY_UPSERT.to_owned(),
            binds: vec![
                BindValue::BigInt(params.id),
                BindValue::Text(uuid),
                BindValue::BigInt(params.tenant_id),
                BindValue::BigInt(params.organization_id),
                BindValue::BigInt(params.user_id),
                BindValue::Text(params.index_key.to_owned()),
                BindValue::Text(params.q.to_owned()),
                BindValue::Integer(params.result_count),
            ],
        }
    }

    /// The statement that writes what a user did, under the name `uuid`.
    pub fn record_event(&self, params: &RecordUserEventParams, uuid: String) -> (statement: Statement)
        ensures
            statement.reads(queries::USER_EVENT_RECORD@, record_event_binds(*params, uuid@)),
    {
        Statement {
            sql: queries::USER_EVENT_RECORD.to_owned(),
            binds: vec![
                BindValue::BigInt(params.id),
                BindValue::Text(uuid),
                BindValue::BigInt(params.tenant_id),
                BindValue::BigInt(params.organization_id),
                BindValue::BigInt(params.user_id),
                BindValue::Text(params.event_type.clone()),
                BindValue::Text(params.surface.clone()),
                BindValue::OptionalText(copy_text(&params.index_key)),
                BindValue::OptionalText(copy_text(&params.document_id)),
                BindValue::OptionalText(copy_text(&params.placement)),
                BindValue::OptionalText(copy_text(&params.q)),
                BindValue::OptionalInteger(params.result_position),
                BindValue::OptionalText(copy_text(&params.request_id)),
                BindValue::Json(params.metadata_json.clone()),
            ],
        }
    }

    /// The statement that lists what a user did: all of it, or what is of one type.
    pub fn list_user_events(
        &self,
        tenant_id: i64,
        organization_id: i64,
        user_id: i64,
        event_type: Option<String>,
        limit: u32,
    ) -> (statement: Statement)
        ensures
            statement.reads(
                queries::USER_EVENT_LIST_BY_USER@,
                seq![
                    Bound::BigInt(tenant_id),
                    Bound::BigInt(organization_id),
                    Bound::BigInt(user_id),
                    Bound::OptionalText(optional_view(event_type)),
                    Bound::BigInt(limit as i64),
                ],
            ),
    {
        Statement {
            sql: queries::USER_EVENT_LIST_BY_USER.to_owned(),
            binds: vec![
                BindValue::BigInt(tenant_id),
                BindValue::BigInt(organization_id),
                BindValue::BigInt(user_id),
                BindValue::OptionalText(event_type),
                BindValue::BigInt(limit as i64),
            ],
        }
    }

    /// The statement that finds the documents that were viewed or clicked most.
    pub fn get_trending(&self, tenant_id: i64, organization_id: i64, index_key: &str, limit: u32) -> (statement:
        Statement)
        ensures
            statement.reads(
                queries::USER_EVENT_TRENDING@,
                index_binds(tenant_id, organization_id, index_key@).push(
                    Bound::BigInt(limit as i64),
                ),
            ),
    {
        Statement {
            sql: queries::USER_EVENT_TRENDING.to_owned(),
            binds: vec![
                BindValue::BigInt(tenant_id),
                BindValue::BigInt(organization_id),
                BindValue::Text(index_key.to_owned()),
                BindValue::BigInt(limit as i64),
            ],
        }
    }

    /// The statement that finds documents by the users that they have in common
    /// with the given documents.
    pub fn get_similar_documents(
        &self,
        tenant_id: i64,
        organization_id: i64,
        index_key: &str,
        document_ids: &Vec<String>,
        limit: u32,
    ) -> (statement: Statement)
        ensures
            statement.reads(
                queries::USER_EVENT_SIMILAR_DOCUMENTS@,
                index_binds(tenant_id, organization_id, index_key@) + seq![
                    Bound::TextArray(views(document_ids@)),
                    Bound::BigInt(limit as i64),
                ],
            ),
    {
        Statement {
            sql: queries::USER_EVENT_SIMILAR_DOCUMENTS.to_owned(),
            binds: vec![
                BindValue::BigInt(tenant_id),
                BindValue::BigInt(organization_id),
                BindValue::Text(index_key.to_owned()),
                BindValue::TextArray(copy_texts(document_ids)),
                BindValue::BigInt(limit as i64),
            ],
        }
    }
}

// ---------------------------------------------------------------------------
// search_promotion
// ---------------------------------------------------------------------------

/// The promotions. `P` is the connection pool.
#[derive(Debug)]
pub struct SearchPromotionRepository<P> {
    pub pool: P,
}

/// What is bound to the statement that writes a new promotion.
pub open spec fn create_promotion_binds(params: CreatePromotionParams, uuid: Seq<char>) -> Seq<
    Bound,
> {
    seq![
        Bound::BigInt(params.id),
        Bound::Text(uuid),
        Bound::BigInt(params.tenant_id),
        Bound::BigInt(params.organization_id),
        Bound::Text(params.promotion_key@),
        Bound::Text(params.placement@),
        Bound::Text(params.index_key@),
        Bound::Text(params.document_id@),
        Bound::Integer(params.priority),
        Bound::Json(json(params.rule_json)),
    ]
}

/// What is bound to a statement on one promotion.
pub open spec fn promotion_binds(
    tenant_id: i64,
    organization_id: i64,
    promotion_key: Seq<char>,
) -> Seq<Bound> {
    seq![Bound::BigInt(tenant_id), Bound::BigInt(organization_id), Bound::Text(promotion_key)]
}

/// What is bound to the statement that writes that a promotion was delivered or
/// clicked. No metadata comes with it.
pub open spec fn promotion_event_binds(
    id: i64,
    uuid: Seq<char>,
    tenant_id: i64,
    organization_id: i64,
    user_id: i64,
    event_type: Seq<char>,
    promotion_id: Seq<char>,
) -> Seq<Bound> {
    seq![
        Bound::BigInt(id),
        Bound::Text(uuid),
        Bound::BigInt(tenant_id),
        Bound::BigInt(organization_id),
        Bound::BigInt(user_id),
        Bound::Text(event_type),
        Bound::Text(promotion_id),
        Bound::Json(Json::Object(Map::empty())),
    ]
}

impl<P> SearchPromotionRepository<P> {
    /// The repository on that pool.
    pub fn new(pool: P) -> (repository: SearchPromotionRepository<P>)
        ensures
            repository.pool == pool,
    {
        SearchPromotionRepository { pool }
    }

    /// The statement that lists the promotions of a placement that are active.
    pub fn list_active_promotions(
        &self,
        tenant_id: i64,
        organization_id: i64,
        index_key: &str,
        placement: &str,
        now: Timestamp,
    ) -> (statement: Statement)
        ensures
            statement.reads(
                queries::PROMOTION_LIST_ACTIVE@,
                index_binds(tenant_id, organization_id, index_key@) + seq![
                    Bound::Text(placement@),
                    Bound::Moment(now),
                ],
            ),
    {
        Statement {
            sql: queries::PROMOTION_LIST_ACTIVE.to_owned(),
            binds: vec![
                BindValue::BigInt(tenant_id),
                BindValue::BigInt(organization_id),
                BindValue::Text(index_key.to_owned()),
                BindValue::Text(placement.to_owned()),
                BindValue::Moment(now),
            ],
        }
    }

    /// The statement that writes a new promotion under the name `uuid`.
    pub fn create_promotion(&self, params: &CreatePromotionParams, uuid: String) -> (statement: Statement)
        ensures
            statement.reads(queries::PROMOTION_CREATE@, create_promotion_binds(*params, uuid@)),
    {
        Statement {
            sql: queries::PROMOTION_CREATE.to_owned(),
            binds: vec![
                BindValue::BigInt(params.id),
                BindValue::Text(uuid),
                BindValue::BigInt(params.tenant_id),
                BindValue::BigInt(params.organization_id),
                BindValue::Text(params.promotion_key.clone()),
                BindValue::Text(params.placement.clone()),
                BindValue::Text(params.index_key.clone()),
                BindValue::Text(params.document_id.clone()),
                BindValue::Integer(params.priority),
                BindValue::Json(params.rule_json.clone()),
            ],
        }
    }

    /// The statement that writes an event of a promotion under the name `uuid`.
    pub fn record_promotion_event(
        &self,
        id: i64,
        uuid: String,
        tenant_id: i64,
        organization_id: i64,
        user_id: i64,
        event_type: &str,
        promotion_id: &str,
    ) -> (statement: Statement)
        ensures
            statement.reads(
                queries::PROMOTION_EVENT_INSERT@,
                promotion_event_binds(
                    id,
                    uuid@,
                    tenant_id,
                    organization_id,
                    user_id,
                    event_type@,
                    promotion_id@,
                ),
            ),
    {
        Statement {
            sql: queries::PROMOTION_EVENT_INSERT.to_owned(),
            binds: vec![
                BindValue::BigInt(id),
                BindValue::Text(uuid),
                BindValue::BigInt(tenant_id),
                BindValue::BigInt(organization_id),
                BindValue::BigInt(user_id),
                BindValue::Text(event_type.to_owned()),
                BindValue::Text(promotion_id.to_owned()),
                BindValue::Json(object_value(serde_json::Map::new())),
            ],
        }
    }

    /// The statement that counts how often a promotion was delivered and clicked.
    pub fn get_promotion_stats(&self, tenant_id: i64, organization_id: i64, promotion_id: &str) -> (statement:
        Statement)
        ensures
            statement.reads(
                queries::PROMOTION_STATS@,
                promotion_binds(tenant_id, organization_id, promotion_id@),
            ),
    {
        Statement {
            sql: queries::PROMOTION_STATS.to_owned(),
            binds: vec![
                BindValue::BigInt(tenant_id),
                BindValue::BigInt(organization_id),
                BindValue::Text(promotion_id.to_owned()),
            ],
        }
    }

    /// The statement that lists a page of the promotions of an index.
    pub fn list_all_promotions(
        &self,
        tenant_id: i64,
        organization_id: i64,
        index_key: &str,
        page: u32,
        page_size: u32,
    ) -> (statement: Statement)
        requires
            page_fits(page, page_size),
        ensures
            statement.reads(
                queries::PROMOTION_LIST_ALL@,
                index_binds(tenant_id, organization_id, index_key@) + page_binds(page, page_size),
            ),
    {
        let (limit, offset): (i64, i64) = page_window(page, page_size);
        Statement {
            sql: queries::PROMOTION_LIST_ALL.to_owned(),
            binds: vec![
                BindValue::BigInt(tenant_id),
                BindValue::BigInt(organization_id),
                BindValue::Text(index_key.to_owned()),
                BindValue::BigInt(limit),
                BindValue::BigInt(offset),
            ],
        }
    }

    /// The statement that finds a promotion by its key.
    pub fn get_promotion(&self, tenant_id: i64, organization_id: i64, promotion_key: &str) -> (statement:
        Statement)
        ensures
            statement.reads(
                queries::PROMOTION_GET@,
                promotion_binds(tenant_id, organization_id, promotion_key@),
            ),
    {
        Statement {
            sql: queries::PROMOTION_GET.to_owned(),
            binds: vec![
                BindValue::BigInt(tenant_id),
                BindValue::BigInt(organization_id),
                BindValue::Text(promotion_key.to_owned()),
            ],
        }
    }

    /// The statement that changes a promotion.
    pub fn update_promotion(
        &self,
        tenant_id: i64,
        organization_id: i64,
        promotion_key: &str,
        params: &UpdatePromotionParams,
    ) -> (statement: Statement)
        ensures
            statement.reads(
                queries::PROMOTION_UPDATE@,
                seq![
                    Bound::OptionalText(optional_view(params.placement)),
                    Bound::OptionalText(optional_view(params.document_id)),
                    Bound::OptionalInteger(params.priority),
                    Bound::OptionalJson(optional_json(params.rule_json)),
                    Bound::OptionalInteger(params.status),
                    Bound::OptionalMoment(params.active_from),
                    Bound::OptionalMoment(params.active_until),
                ] + promotion_binds(tenant_id, organization_id, promotion_key@),
            ),
    {
        Statement {
            sql: queries::PROMOTION_UPDATE.to_owned(),
            binds: vec![
                BindValue::OptionalText(copy_text(&params.placement)),
                BindValue::OptionalText(copy_text(&params.document_id)),
                BindValue::OptionalInteger(params.priority),
                BindValue::OptionalJson(copy_json(&params.rule_json)),
                BindValue::OptionalInteger(params.status),
                BindValue::OptionalMoment(params.active_from),
                BindValue::OptionalMoment(params.active_until),
                BindValue::BigInt(tenant_id),
                BindValue::BigInt(organization_id),
                BindValue::Text(promotion_key.to_owned()),
            ],
        }
    }

    /// The statement that deletes a promotion. It is marked, not removed.
    pub fn delete_promotion(
        &self,
        tenant_id: i64,
        organization_id: i64,
        promotion_key: &str,
        deleted_by: Option<i64>,
    ) -> (statement: Statement)
        ensures
            statement.reads(
                queries::PROMOTION_DELETE@,
                seq![Bound::OptionalBigInt(deleted_by)] + promotion_binds(
                    tenant_id,
                    organization_id,
                    promotion_key@,
                ),
            ),
    {
        Statement {
            sql: queries::PROMOTION_DELETE.to_owned(),
            binds: vec![
                BindValue::OptionalBigInt(deleted_by),
                BindValue::BigInt(tenant_id),
                BindValue::BigInt(organization_id),
                BindValue::Text(promotion_key.to_owned()),
            ],
        }
    }
}

/// Every page can be reached whose first row has a number that fits: the first page always,
/// and any page up to the size of a signed 64-bit number.
pub proof fn lemma_reachable_pages(page: u32, page_size: u32)
    ensures
        page <= 1 ==> page_fits(page, page_size),
        page_size <= 1 ==> page_fits(page, page_size),
        page >= 1 && page_size >= 1 ==> (page_fits(page, page_size) <==> (page - 1) * page_size
            <= i64::MAX),
{
    let size = page_limit(page_size as int);
    assert(0 * size == 0) by (nonlinear_arith);
    if page >= 1 && page_size <= 1 {
        assert((page - 1) * size == page - 1) by (nonlinear_arith)
            requires
                size == 1,
        ;
    }
}

} // verus!
