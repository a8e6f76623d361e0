//! The repositories behind the search services: the requests that the services
//! make, as statements for the database.
use vstd::prelude::*;
use vstd::string::StringExecFns;

use crate::clock::{now_id, Timestamp};
use crate::documents::{embedding_to_json, stored_embedding, IndexDocument};
use crate::domain::{placement_text, placement_to_str, PromotionPlacement, SearchIndexRow};
use crate::ids::{new_uuid, random_uuid_text};
use crate::json::{array_value, json, jsons, Json};
use crate::queries;
use crate::repository::{
    copy_text, document_binds, index_binds, page_binds, page_fits, promotion_binds,
    promotion_event_binds, CreateIndexJobParams, CreateIndexParams, CreatePromotionParams,
    RecordUserEventParams, SearchDocumentRepository, SearchIndexRepository,
    SearchPromotionRepository, SearchUserEventRepository, UpdateIndexParams,
    UpdatePromotionParams, UpsertDocumentParams, UpsertRecentQueryParams,
};
use crate::spi::SearchProviderContext;
use crate::statement::{Bound, Statement};
use crate::text::{optional_view, views};

verus! {

/// The repositories that the search services need. `P` is the connection pool.
#[derive(Debug)]
pub struct SearchRepositoryAdapter<P> {
    pub index_repo: SearchIndexRepository<P>,
    pub document_repo: SearchDocumentRepository<P>,
    pub user_event_repo: SearchUserEventRepository<P>,
    pub promotion_repo: SearchPromotionRepository<P>,
}

impl<P: Clone> SearchRepositoryAdapter<P> {
    /// The repositories, each on a handle of the pool.
    pub fn new(pool: P) -> (adapter: SearchRepositoryAdapter<P>)
        ensures
            cloned(pool, adapter.index_repo.pool),
            cloned(pool, adapter.document_repo.pool),
            cloned(pool, adapter.user_event_repo.pool),
            adapter.promotion_repo.pool == pool,
    {
        SearchRepositoryAdapter {
            index_repo: SearchIndexRepository::new(pool.clone()),
            document_repo: SearchDocumentRepository::new(pool.clone()),
            user_event_repo: SearchUserEventRepository::new(pool.clone()),
            promotion_repo: SearchPromotionRepository::new(pool),
        }
    }
}

// ---------------------------------------------------------------------------
// Queries and events
// ---------------------------------------------------------------------------

/// The user of a request, or zero where it has none.
pub open spec fn acting_user(context: SearchProviderContext) -> i64 {
    match context.user_id {
        Some(id) => id,
        None => 0,
    }
}

fn user_or_zero(context: &SearchProviderContext) -> (user_id: i64)
    ensures
        user_id == acting_user(*context),
{
    match context.user_id {
        Some(id) => id,
        None => 0,
    }
}

/// What is bound where a query is written down as row `id` under the name `uuid`.
pub open spec fn query_audit_binds(
    context: SearchProviderContext,
    query_text: Seq<char>,
    index_key: Seq<char>,
    id: i64,
    uuid: Seq<char>,
) -> Seq<Bound> {
    seq![
        Bound::BigInt(id),
        Bound::Text(uuid),
        Bound::BigInt(context.tenant_id),
        Bound::BigInt(context.organization_id),
        Bound::BigInt(acting_user(context)),
        Bound::Text(index_key),
        Bound::Text(query_text),
        Bound::Integer(0),
    ]
}

/// What is bound where an event is written down as row `id` under the name `uuid`.
pub open spec fn user_event_binds(
    context: SearchProviderContext,
    event_kind: Seq<char>,
    payload: Json,
    id: i64,
    uuid: Seq<char>,
) -> Seq<Bound> {
    seq![
        Bound::BigInt(id),
        Bound::Text(uuid),
        Bound::BigInt(context.tenant_id),
        Bound::BigInt(context.organization_id),
        Bound::BigInt(acting_user(context)),
        Bound::Text(event_kind),
        Bound::Text("app"@),
        Bound::OptionalText(None),
        Bound::OptionalText(None),
        Bound::OptionalText(None),
        Bound::OptionalText(None),
        Bound::OptionalInteger(None),
        Bound::OptionalText(optional_view(context.request_id)),
        Bound::Json(payload),
    ]
}

impl<P> SearchRepositoryAdapter<P> {
    /// The statement that lists the latest queries of the user.
    pub fn list_recent_queries(&self, context: &SearchProviderContext, limit: u32) -> (statement:
        Statement)
        ensures
            statement.reads(
                queries::RECENT_QUERY_LIST@,
                seq![
                    Bound::BigInt(context.tenant_id),
                    Bound::BigInt(context.organization_id),
                    Bound::BigInt(acting_user(*context)),
                    Bound::BigInt(limit as i64),
                ],
            ),
    {
        self.user_event_repo.list_recent_queries(
            context.tenant_id,
            context.organization_id,
            user_or_zero(context),
            limit,
        )
    }

    /// The statement that writes a query down as row `id` under the name `uuid`.
    pub fn record_query_audit_as(
        &self,
        context: &SearchProviderContext,
        query_text: &str,
        index_key: &str,
        id: i64,
        uuid: String,
    ) -> (statement: Statement)
        ensures
            statement.reads(
                queries::RECENT_QUERY_UPSERT@,
                query_audit_binds(*context, query_text@, index_key@, id, uuid@),
            ),
    {
        let params: UpsertRecentQueryParams = UpsertRecentQueryParams {
            id,
            tenant_id: context.tenant_id,
            organization_id: context.organization_id,
            user_id: user_or_zero(context),
            index_key,
            q: query_text,
            result_count: 0,
        };
        self.user_event_repo.upsert_recent_query(&params, uuid)
    }

    /// The statement that writes a query down, as a new row.
    pub fn record_query_audit(
        &self,
        context: &SearchProviderContext,
        query_text: &str,
        index_key: &str,
    ) -> (statement: Statement)
        ensures
            exists|id: i64, uuid: Seq<char>|
                id >= 0 && random_uuid_text(uuid) && #[trigger] statement.reads(
                    queries::RECENT_QUERY_UPSERT@,
                    query_audit_binds(*context, query_text@, index_key@, id, uuid),
                ),
    {
        let id: i64 = now_id();
        let uuid: String = new_uuid();
        self.record_query_audit_as(context, query_text, index_key, id, uuid)
    }

    /// The statement that writes an event down as row `id` under the name `uuid`.
    pub fn record_user_event_as(
        &self,
        context: &SearchProviderContext,
        event_kind: &str,
        payload: &serde_json::Value,
        id: i64,
        uuid: String,
    ) -> (statement: Statement)
        ensures
            statement.reads(
                queries::USER_EVENT_RECORD@,
                user_event_binds(*context, event_kind@, json(*payload), id, uuid@),
            ),
    {
        let params: RecordUserEventParams = RecordUserEventParams {
            id,
            tenant_id: context.tenant_id,
            organization_id: context.organization_id,
            user_id: user_or_zero(context),
            event_type: event_kind.to_owned(),
            surface: "app".to_owned(),
            index_key: None,
            document_id: None,
            placement: None,
            q: None,
            result_position: None,
            request_id: copy_text(&context.request_id),
            metadata_json: payload.clone(),
        };
        self.user_event_repo.record_event(&params, uuid)
    }

    /// The statement that writes an event down, as a new row.
    pub fn record_user_event(
        &self,
        context: &SearchProviderContext,
        event_kind: &str,
        payload: &serde_json::Value,
    ) -> (statement: Statement)
        ensures
            exists|id: i64, uuid: Seq<char>|
                id >= 0 && random_uuid_text(uuid) && #[trigger] statement.reads(
                    queries::USER_EVENT_RECORD@,
                    user_event_binds(*context, event_kind@, json(*payload), id, uuid),
                ),
    {
        let id: i64 = now_id();
        let uuid: String = new_uuid();
        self.record_user_event_as(context, event_kind, payload, id, uuid)
    }
}

// ---------------------------------------------------------------------------
// Documents
// ---------------------------------------------------------------------------

/// The title of a document, or its name where it has none.
pub open spec fn title_or_name(document: IndexDocument) -> Seq<char> {
    match document.title {
        Some(title) => title@,
        None => document.document_id@,
    }
}

/// What is bound where a document of the index `index_id` is written as row `id`
/// under the name `uuid`.
pub open spec fn stored_document_binds(
    context: SearchProviderContext,
    document: IndexDocument,
    index_id: i64,
    id: i64,
    uuid: Seq<char>,
) -> Seq<Bound> {
    seq![
        Bound::BigInt(id),
        Bound::Text(uuid),
        Bound::BigInt(context.tenant_id),
        Bound::BigInt(context.organization_id),
        Bound::BigInt(index_id),
        Bound::Text(document.index_key@),
        Bound::Text(document.document_id@),
        Bound::OptionalText(None),
        Bound::Text("global"@),
        Bound::OptionalText(None),
        Bound::OptionalText(None),
        Bound::OptionalText(None),
        Bound::Text(title_or_name(document)),
        Bound::OptionalText(optional_view(document.content)),
        Bound::OptionalText(None),
        Bound::Json(json(document.source)),
        Bound::Json(Json::Array(seq![])),
        Bound::Json(stored_embedding(jsons(document.embedding@))),
        Bound::Integer(1),
        Bound::Integer(0),
    ]
}

/// The message for a document whose index is not there.
pub open spec fn index_missing_message(index_key: Seq<char>) -> Seq<char> {
    "index not found for index_key: "@ + index_key
}

impl<P> SearchRepositoryAdapter<P> {
    /// The statement that writes a document as row `id` under the name `uuid`. `index`
    /// is the row of its index, where there is one.
    pub fn upsert_document_as(
        &self,
        context: &SearchProviderContext,
        document: &IndexDocument,
        index: &Option<SearchIndexRow>,
        id: i64,
        uuid: String,
    ) -> (statement: Result<Statement, String>)
        ensures
            match statement {
                Ok(s) => index is Some && s.reads(
                    queries::DOCUMENT_UPSERT@,
                    stored_document_binds(*context, *document, index->0.id, id, uuid@),
                ),
                Err(message) => index is None && message@ == index_missing_message(
                    document.index_key@,
                ),
            },
    {
        match index {
            Some(row) => {
                let tokens: Vec<serde_json::Value> = Vec::new();
                assert(jsons(tokens@) == Seq::<Json>::empty());
                let params: UpsertDocumentParams = UpsertDocumentParams {
                    id,
                    tenant_id: context.tenant_id,
                    organization_id: context.organization_id,
                    index_id: row.id,
                    index_key: document.index_key.clone(),
                    document_id: document.document_id.clone(),
                    capability: None,
                    scope: "global".to_owned(),
                    group_key: None,
                    group_title: None,
                    source_ref: None,
                    title: match &document.title {
                        Some(title) => title.clone(),
                        None => document.document_id.clone(),
                    },
                    body_text: copy_text(&document.content),
                    keyword_text: None,
                    payload_json: document.source.clone(),
                    token_json: array_value(tokens),
                    embedding_json: embedding_to_json(&document.embedding),
                    status: 1,
                    data_scope: 0,
                };
                Ok(self.document_repo.upsert_document(&params, uuid))
            },
            None => {
                let mut message: String = String::from_str("index not found for index_key: ");
                message.append(document.index_key.as_str());
                Err(message)
            },
        }
    }

    /// The statement that writes a document, as a new row where there is none of its
    /// name. `index` is the row of its index, where there is one.
    pub fn upsert_document(
        &self,
        context: &SearchProviderContext,
        document: &IndexDocument,
        index: &Option<SearchIndexRow>,
    ) -> (statement: Result<Statement, String>)
        ensures
            match statement {
                Ok(s) => index is Some && exists|id: i64, uuid: Seq<char>|
                    id >= 0 && random_uuid_text(uuid) && #[trigger] s.reads(
                        queries::DOCUMENT_UPSERT@,
                        stored_document_binds(*context, *document, index->0.id, id, uuid),
                    ),
                Err(message) => index is None && message@ == index_missing_message(
                    document.index_key@,
                ),
            },
    {
        let id: i64 = now_id();
        let uuid: String = new_uuid();
        self.upsert_document_as(context, document, index, id, uuid)
    }

    /// The statement that deletes a document, in the name of the user.
    pub fn delete_document(
        &self,
        context: &SearchProviderContext,
        index_key: &str,
        document_id: &str,
    ) -> (statement: Statement)
        ensures
            statement.reads(
                queries::DOCUMENT_DELETE@,
                seq![Bound::OptionalBigInt(context.user_id)] + document_binds(
                    context.tenant_id,
                    context.organization_id,
                    index_key@,
                    document_id@,
                ),
            ),
    {
        self.document_repo.delete_document(
            context.tenant_id,
            context.organization_id,
            index_key,
            document_id,
            context.user_id,
        )
    }

    /// The next step in deleting documents, by what came of the statements so far: each is
    /// deleted by a statement of its own, in their order, and the first failure ends it.
    /// What was deleted before a failure stays deleted, but is not counted.
    pub fn bulk_delete_documents(
        &self,
        context: &SearchProviderContext,
        index_key: &str,
        document_ids: &Vec<String>,
        outcomes: &Vec<Result<u64, String>>,
    ) -> (step: DeletionStep)
        requires
            outcomes@.len() <= document_ids@.len(),
            affected(outcomes@) <= u64::MAX,
        ensures
            match step {
                DeletionStep::Run(statement) => all_succeeded(outcomes@) && outcomes@.len()
                    < document_ids@.len() && statement.reads(
                    queries::DOCUMENT_DELETE@,
                    seq![Bound::OptionalBigInt(context.user_id)] + document_binds(
                        context.tenant_id,
                        context.organization_id,
                        index_key@,
                        document_ids@[outcomes@.len() as int]@,
                    ),
                ),
                DeletionStep::Done(Ok(deleted)) => all_succeeded(outcomes@) && outcomes@.len()
                    == document_ids@.len() && deleted == affected(outcomes@),
                DeletionStep::Done(Err(message)) => is_first_failure(outcomes@, message@),
            },
    {
        match bulk_delete_outcome(outcomes) {
            Ok(deleted) => if outcomes.len() < document_ids.len() {
                DeletionStep::Run(
                    self.delete_document(
                        context,
                        index_key,
                        document_ids[outcomes.len()].as_str(),
                    ),
                )
            } else {
                DeletionStep::Done(Ok(deleted))
            },
            Err(message) => DeletionStep::Done(Err(message)),
        }
    }

    /// The statement that lists a page of the documents of an index.
    pub fn list_documents(
        &self,
        context: &SearchProviderContext,
        index_key: &str,
        page: u32,
        page_size: u32,
    ) -> (statement: Statement)
        requires
            page_fits(page, page_size),
        ensures
            statement.reads(
                queries::DOCUMENT_LIST@,
                index_binds(context.tenant_id, context.organization_id, index_key@) + page_binds(
                    page,
                    page_size,
                ),
            ),
    {
        self.document_repo.list_documents(
            context.tenant_id,
            context.organization_id,
            index_key,
            page,
            page_size,
        )
    }

    /// The statement that counts the documents of an index.
    pub fn count_documents(&self, context: &SearchProviderContext, index_key: &str) -> (statement:
        Statement)
        ensures
            statement.reads(
                queries::DOCUMENT_COUNT@,
                index_binds(context.tenant_id, context.organization_id, index_key@),
            ),
    {
        self.document_repo.count_documents(context.tenant_id, context.organization_id, index_key)
    }

    /// The statement that finds a document by its name.
    pub fn get_document(
        &self,
        context: &SearchProviderContext,
        index_key: &str,
        document_id: &str,
    ) -> (statement: Statement)
        ensures
            statement.reads(
                queries::DOCUMENT_GET@,
                document_binds(
                    context.tenant_id,
                    context.organization_id,
                    index_key@,
                    document_id@,
                ),
            ),
    {
        self.document_repo.get_document(
            context.tenant_id,
            context.organization_id,
            index_key,
            document_id,
        )
    }

    /// The statement that counts the documents of an index and the active ones.
    pub fn get_index_stats(&self, context: &SearchProviderContext, index_key: &str) -> (statement:
        Statement)
        ensures
            statement.reads(
                queries::DOCUMENT_STATS@,
                index_binds(context.tenant_id, context.organization_id, index_key@),
            ),
    {
        self.document_repo.document_stats(context.tenant_id, context.organization_id, index_key)
    }
}

/// The next step in deleting documents.
#[derive(Debug)]
pub enum DeletionStep {
    /// This statement is to be carried out.
    Run(Statement),
    /// How many documents were deleted, or why one could not be.
    Done(Result<u64, String>),
}

/// Every statement was carried out.
pub open spec fn all_succeeded(outcomes: Seq<Result<u64, String>>) -> bool {
    forall|i: int| 0 <= i < outcomes.len() ==> (#[trigger] outcomes[i]) is Ok
}

/// A statement failed with that message, and none before it did.
pub open spec fn is_first_failure(outcomes: Seq<Result<u64, String>>, message: Seq<char>) -> bool {
    exists|i: int|
        0 <= i < outcomes.len() && (#[trigger] outcomes[i]) is Err && outcomes[i]->Err_0@ == message
            && all_succeeded(outcomes.take(i))
}

/// The first failure is one failure.
pub proof fn lemma_one_first_failure(
    outcomes: Seq<Result<u64, String>>,
    a: Seq<char>,
    b: Seq<char>,
)
    requires
        is_first_failure(outcomes, a),
        is_first_failure(outcomes, b),
    ensures
        a == b,
        !all_succeeded(outcomes),
{
    let i = choose|i: int|
        0 <= i < outcomes.len() && (#[trigger] outcomes[i]) is Err && outcomes[i]->Err_0@ == a
            && all_succeeded(outcomes.take(i));
    let k = choose|k: int|
        0 <= k < outcomes.len() && (#[trigger] outcomes[k]) is Err && outcomes[k]->Err_0@ == b
            && all_succeeded(outcomes.take(k));
    if i < k {
        assert(outcomes.take(k)[i] is Ok);
    } else if k < i {
        assert(outcomes.take(i)[k] is Ok);
    }
}

/// How many rows the statements affected together.
pub open spec fn affected(outcomes: Seq<Result<u64, String>>) -> nat
    decreases outcomes.len(),
{
    if outcomes.len() == 0 {
        0
    } else {
        affected(outcomes.drop_last()) + match outcomes.last() {
            Ok(n) => n as nat,
            Err(_) => 0,
        }
    }
}

/// The rows of some of the statements are among the rows of all.
proof fn lemma_affected_grows(outcomes: Seq<Result<u64, String>>, n: int)
    requires
        0 <= n <= outcomes.len(),
    ensures
        affected(outcomes.take(n)) <= affected(outcomes),
    decreases outcomes.len(),
{
    if n == outcomes.len() {
        assert(outcomes.take(n) == outcomes);
    } else {
        lemma_affected_grows(outcomes.drop_last(), n);
        assert(outcomes.drop_last().take(n) == outcomes.take(n));
    }
}

/// How many documents the statements deleted together, or the first failure.
fn bulk_delete_outcome(outcomes: &Vec<Result<u64, String>>) -> (deleted: Result<u64, String>)
    requires
        affected(outcomes@) <= u64::MAX,
    ensures
        match deleted {
            Ok(n) => n == affected(outcomes@) && all_succeeded(outcomes@),
            Err(message) => is_first_failure(outcomes@, message@),
        },
{
    let mut deleted: u64 = 0;
    let mut i: usize = 0;
    assert(outcomes@.take(0) == Seq::<Result<u64, String>>::empty());
    while i < outcomes.len()
        invariant
            i <= outcomes@.len(),
            affected(outcomes@) <= u64::MAX,
            deleted == affected(outcomes@.take(i as int)),
            forall|k: int| 0 <= k < i ==> (#[trigger] outcomes@[k]) is Ok,
        decreases outcomes.len() - i,
    {
        proof {
            assert(outcomes@.take(i + 1).drop_last() == outcomes@.take(i as int));
            assert(outcomes@.take(i + 1).last() == outcomes@[i as int]);
            lemma_affected_grows(outcomes@, i + 1);
        }
        match &outcomes[i] {
            Ok(n) => {
                deleted += *n;
            },
            Err(message) => {
                assert(outcomes@[i as int] is Err && all_succeeded(outcomes@.take(i as int)));
                return Err(message.clone());
            },
        }
        i += 1;
    }
    assert(outcomes@.take(outcomes@.len() as int) == outcomes@);
    Ok(deleted)
}

// ---------------------------------------------------------------------------
// Indexes and jobs
// ---------------------------------------------------------------------------

/// What is bound where an index is written as row `id` under the name `uuid`. Its key
/// is its title too.
pub open spec fn new_index_binds(
    context: SearchProviderContext,
    index_key: Seq<char>,
    schema: Json,
    id: i64,
    uuid: Seq<char>,
) -> Seq<Bound> {
    seq![
        Bound::BigInt(id),
        Bound::Text(uuid),
        Bound::BigInt(context.tenant_id),
        Bound::BigInt(context.organization_id),
        Bound::Text(index_key),
        Bound::Text(index_key),
        Bound::OptionalText(None),
        Bound::Json(schema),
    ]
}

/// What is bound where an indexing job is written as row `id` under the name `uuid`.
pub open spec fn new_job_binds(
    context: SearchProviderContext,
    index_key: Seq<char>,
    job_type: Seq<char>,
    payload: Json,
    id: i64,
    uuid: Seq<char>,
) -> Seq<Bound> {
    seq![
        Bound::BigInt(id),
        Bound::Text(uuid),
        Bound::BigInt(context.tenant_id),
        Bound::BigInt(context.organization_id),
        Bound::Text(index_key),
        Bound::Text(job_type),
        Bound::Json(payload),
    ]
}

/// What is bound where an indexing job is found.
pub open spec fn job_binds(context: SearchProviderContext, job_uuid: Seq<char>) -> Seq<Bound> {
    seq![
        Bound::BigInt(context.tenant_id),
        Bound::BigInt(context.organization_id),
        Bound::Text(job_uuid),
    ]
}

/// What is bound where the status of an indexing job is changed.
pub open spec fn job_status_binds(
    context: SearchProviderContext,
    job_uuid: Seq<char>,
    status: i32,
    started_at: Option<Timestamp>,
    finished_at: Option<Timestamp>,
    error_summary: Option<Seq<char>>,
) -> Seq<Bound> {
    seq![
        Bound::Integer(status),
        Bound::OptionalMoment(started_at),
        Bound::OptionalMoment(finished_at),
        Bound::OptionalText(error_summary),
        Bound::Text(job_uuid),
        Bound::BigInt(context.tenant_id),
        Bound::BigInt(context.organization_id),
    ]
}

/// The changes to an index. What is absent stays as it is.
#[derive(Debug)]
pub struct IndexPatch {
    pub title: Option<String>,
    pub description: Option<String>,
    pub status: Option<i32>,
    pub config_json: Option<serde_json::Value>,
}

/// What is bound where an index is changed: what the patch holds, and what the row
/// holds where the patch does not.
pub open spec fn changed_index_binds(
    context: SearchProviderContext,
    row: SearchIndexRow,
    patch: IndexPatch,
) -> Seq<Bound> {
    seq![
        Bound::Text(
            match patch.title {
                Some(title) => title@,
                None => row.title@,
            },
        ),
        Bound::OptionalText(
            match patch.description {
                Some(description) => Some(description@),
                None => optional_view(row.description),
            },
        ),
        Bound::Integer(
            match patch.status {
                Some(status) => status,
                None => row.status,
            },
        ),
        Bound::Json(
            match patch.config_json {
                Some(config) => json(config),
                None => json(row.config_json),
            },
        ),
        Bound::BigInt(row.id),
        Bound::BigInt(context.tenant_id),
        Bound::BigInt(context.organization_id),
    ]
}

/// A patch without changes writes what the row holds.
pub proof fn lemma_empty_patch_keeps_index(
    context: SearchProviderContext,
    row: SearchIndexRow,
    patch: IndexPatch,
)
    requires
        patch.title is None,
        patch.description is None,
        patch.status is None,
        patch.config_json is None,
    ensures
        changed_index_binds(context, row, patch) == seq![
            Bound::Text(row.title@),
            Bound::OptionalText(optional_view(row.description)),
            Bound::Integer(row.status),
            Bound::Json(json(row.config_json)),
            Bound::BigInt(row.id),
            Bound::BigInt(context.tenant_id),
            Bound::BigInt(context.organization_id),
        ],
{
}

impl<P> SearchRepositoryAdapter<P> {
    /// The statement that finds an index by its key.
    pub fn get_index(&self, context: &SearchProviderContext, index_key: &str) -> (statement: Statement)
        ensures
            statement.reads(
                queries::INDEX_GET_BY_KEY@,
                index_binds(context.tenant_id, context.organization_id, index_key@),
            ),
    {
        self.index_repo.get_index_by_key(context.tenant_id, context.organization_id, index_key)
    }

    /// The statement that lists the indexes.
    pub fn list_indexes(&self, context: &SearchProviderContext) -> (statement: Statement)
        ensures
            statement.reads(
                queries::INDEX_LIST_INDEXES@,
                seq![Bound::BigInt(context.tenant_id), Bound::BigInt(context.organization_id)],
            ),
    {
        self.index_repo.list_indexes(context.tenant_id, context.organization_id)
    }

    /// The statement that writes an index as row `id` under the name `uuid`.
    pub fn create_index_as(
        &self,
        context: &SearchProviderContext,
        index_key: &str,
        schema: &serde_json::Value,
        id: i64,
        uuid: String,
    ) -> (statement: Statement)
        ensures
            statement.reads(
                queries::INDEX_CREATE@,
                new_index_binds(*context, index_key@, json(*schema), id, uuid@),
            ),
    {
        let params: CreateIndexParams = CreateIndexParams {
            id,
            tenant_id: context.tenant_id,
            organization_id: context.organization_id,
            index_key: index_key.to_owned(),
            title: index_key.to_owned(),
            description: None,
            config_json: schema.clone(),
        };
        self.index_repo.create_index(&params, uuid)
    }

    /// The statement that writes an index, as a new row.
    pub fn create_index(
        &self,
        context: &SearchProviderContext,
        index_key: &str,
        schema: &serde_json::Value,
    ) -> (statement: Statement)
        ensures
            exists|id: i64, uuid: Seq<char>|
                id >= 0 && random_uuid_text(uuid) && #[trigger] statement.reads(
                    queries::INDEX_CREATE@,
                    new_index_binds(*context, index_key@, json(*schema), id, uuid),
                ),
    {
        let id: i64 = now_id();
        let uuid: String = new_uuid();
        self.create_index_as(context, index_key, schema, id, uuid)
    }

    /// The statement that changes an index. `row` is the row of the index; where
    /// there is none, there is nothing to change.
    pub fn update_index(
        &self,
        context: &SearchProviderContext,
        row: &Option<SearchIndexRow>,
        patch: &IndexPatch,
    ) -> (statement: Option<Statement>)
        ensures
            match statement {
                Some(s) => row is Some && s.reads(
                    queries::INDEX_UPDATE@,
                    changed_index_binds(*context, row->0, *patch),
                ),
                None => row is None,
            },
    {
        match row {
            Some(row) => {
                let params: UpdateIndexParams = UpdateIndexParams {
                    id: row.id,
                    tenant_id: context.tenant_id,
                    title: match &patch.title {
                        Some(title) => title.clone(),
                        None => row.title.clone(),
                    },
                    description: match &patch.description {
                        Some(description) => Some(description.clone()),
                        None => copy_text(&row.description),
                    },
                    status: match patch.status {
                        Some(status) => status,
                        None => row.status,
                    },
                    config_json: match &patch.config_json {
                        Some(config) => config.clone(),
                        None => row.config_json.clone(),
                    },
                };
                Some(self.index_repo.update_index(context.organization_id, &params))
            },
            None => None,
        }
    }

    /// The statement that writes an indexing job as row `id` under the name `uuid`.
    pub fn create_index_job_as(
        &self,
        context: &SearchProviderContext,
        index_key: &str,
        job_type: &str,
        payload: &serde_json::Value,
        id: i64,
        uuid: String,
    ) -> (statement: Statement)
        ensures
            statement.reads(
                queries::JOB_CREATE@,
                new_job_binds(*context, index_key@, job_type@, json(*payload), id, uuid@),
            ),
    {
        let params: CreateIndexJobParams = CreateIndexJobParams {
            id,
            tenant_id: context.tenant_id,
            organization_id: context.organization_id,
            index_key: index_key.to_owned(),
            job_type: job_type.to_owned(),
            payload_json: payload.clone(),
        };
        self.index_repo.create_index_job(&params, uuid)
    }

    /// The statement that writes an indexing job, as a new row. The row that comes back
    /// has the name of the job.
    pub fn create_index_job(
        &self,
        context: &SearchProviderContext,
        index_key: &str,
        job_type: &str,
        payload: &serde_json::Value,
    ) -> (statement: Statement)
        ensures
            exists|id: i64, uuid: Seq<char>|
                id >= 0 && random_uuid_text(uuid) && #[trigger] statement.reads(
                    queries::JOB_CREATE@,
                    new_job_binds(*context, index_key@, job_type@, json(*payload), id, uuid),
                ),
    {
        let id: i64 = now_id();
        let uuid: String = new_uuid();
        self.create_index_job_as(context, index_key, job_type, payload, id, uuid)
    }

    /// The statement that finds an indexing job by its name.
    pub fn get_index_job(&self, context: &SearchProviderContext, job_uuid: &str) -> (statement:
        Statement)
        ensures
            statement.reads(
                queries::JOB_GET@,
                job_binds(*context, job_uuid@),
            ),
    {
        self.index_repo.get_index_job(context.tenant_id, context.organization_id, job_uuid)
    }

    /// The statement that changes the status of an indexing job.
    pub fn update_index_job_status(
        &self,
        context: &SearchProviderContext,
        job_uuid: &str,
        status: i32,
        started_at: Option<Timestamp>,
        finished_at: Option<Timestamp>,
        error_summary: Option<String>,
    ) -> (statement: Statement)
        ensures
            statement.reads(
                queries::JOB_UPDATE_STATUS@,
                job_status_binds(
                    *context,
                    job_uuid@,
                    status,
                    started_at,
                    finished_at,
                    optional_view(error_summary),
                ),
            ),
    {
        self.index_repo.update_index_job_status(
            context.tenant_id,
            context.organization_id,
            job_uuid,
            status,
            started_at,
            finished_at,
            error_summary,
        )
    }
}

/// Whether a statement changed anything.
pub fn was_updated(affected: u64) -> (updated: bool)
    ensures
        updated == (affected > 0),
{
    affected > 0
}

// ---------------------------------------------------------------------------
// Recommendations
// ---------------------------------------------------------------------------

/// What is bound where documents are found by the users that they have in common.
pub open spec fn similar_documents_binds(
    context: SearchProviderContext,
    index_key: Seq<char>,
    document_ids: Seq<Seq<char>>,
    limit: u32,
) -> Seq<Bound> {
    seq![
        Bound::BigInt(context.tenant_id),
        Bound::BigInt(context.organization_id),
        Bound::Text(index_key),
        Bound::TextArray(document_ids),
        Bound::BigInt(limit as i64),
    ]
}

impl<P> SearchRepositoryAdapter<P> {
    /// The statement that lists what a user did, of any type.
    pub fn get_user_events(&self, context: &SearchProviderContext, user_id: i64, limit: u32) -> (statement:
        Statement)
        ensures
            statement.reads(
                queries::USER_EVENT_LIST_BY_USER@,
                seq![
                    Bound::BigInt(context.tenant_id),
                    Bound::BigInt(context.organization_id),
                    Bound::BigInt(user_id),
                    Bound::OptionalText(None),
                    Bound::BigInt(limit as i64),
                ],
            ),
    {
        self.user_event_repo.list_user_events(
            context.tenant_id,
            context.organization_id,
            user_id,
            None,
            limit,
        )
    }

    /// The statement that finds the documents that were viewed or clicked most.
    pub fn get_trending(&self, context: &SearchProviderContext, index_key: &str, limit: u32) -> (statement:
        Statement)
        ensures
            statement.reads(
                queries::USER_EVENT_TRENDING@,
                index_binds(context.tenant_id, context.organization_id, index_key@).push(
                    Bound::BigInt(limit as i64),
                ),
            ),
    {
        self.user_event_repo.get_trending(
            context.tenant_id,
            context.organization_id,
            index_key,
            limit,
        )
    }

    /// The statement that finds documents by the users that they have in common with
    /// the given documents.
    pub fn get_similar_documents(
        &self,
        context: &SearchProviderContext,
        index_key: &str,
        document_ids: &Vec<String>,
        limit: u32,
    ) -> (statement: Statement)
        ensures
            statement.reads(
                queries::USER_EVENT_SIMILAR_DOCUMENTS@,
                similar_documents_binds(*context, index_key@, views(document_ids@), limit),
            ),
    {
        self.user_event_repo.get_similar_documents(
            context.tenant_id,
            context.organization_id,
            index_key,
            document_ids,
            limit,
        )
    }
}

// ---------------------------------------------------------------------------
// Promotions
// ---------------------------------------------------------------------------

/// A promotion to create, without its rules.
#[derive(Debug)]
pub struct CreatePromotionInput {
    pub promotion_key: String,
    pub placement: PromotionPlacement,
    pub index_key: String,
    pub document_id: String,
    pub priority: i32,
}

/// The changes to a promotion, without its rules. What is absent stays as it is.
#[derive(Debug)]
pub struct UpdatePromotionInput {
    pub placement: Option<PromotionPlacement>,
    pub document_id: Option<String>,
    pub priority: Option<i32>,
    pub enabled: Option<bool>,
    pub start_at: Option<Timestamp>,
    pub end_at: Option<Timestamp>,
}

/// The rules as they are stored: rules that could not be written are none.
pub open spec fn stored_rules(written: Option<serde_json::Value>) -> Json {
    match written {
        Some(rules) => json(rules),
        None => Json::Array(seq![]),
    }
}

fn rules_or_none(written: &Option<serde_json::Value>) -> (stored: serde_json::Value)
    ensures
        json(stored) == stored_rules(*written),
{
    match written {
        Some(rules) => rules.clone(),
        None => {
            let rules: Vec<serde_json::Value> = Vec::new();
            assert(jsons(rules@) == Seq::<Json>::empty());
            array_value(rules)
        },
    }
}

/// What is bound where the promotions of a placement are listed that are active at a
/// time.
pub open spec fn active_promotions_binds(
    context: SearchProviderContext,
    index_key: Seq<char>,
    placement: PromotionPlacement,
    now: Timestamp,
) -> Seq<Bound> {
    seq![
        Bound::BigInt(context.tenant_id),
        Bound::BigInt(context.organization_id),
        Bound::Text(index_key),
        Bound::Text(placement_text(placement)),
        Bound::Moment(now),
    ]
}

/// What is bound where a promotion is written as row `id` under the name `uuid`.
pub open spec fn new_promotion_binds(
    context: SearchProviderContext,
    input: CreatePromotionInput,
    rules: Json,
    id: i64,
    uuid: Seq<char>,
) -> Seq<Bound> {
    seq![
        Bound::BigInt(id),
        Bound::Text(uuid),
        Bound::BigInt(context.tenant_id),
        Bound::BigInt(context.organization_id),
        Bound::Text(input.promotion_key@),
        Bound::Text(placement_text(input.placement)),
        Bound::Text(input.index_key@),
        Bound::Text(input.document_id@),
        Bound::Integer(input.priority),
        Bound::Json(rules),
    ]
}

/// What is bound where a promotion is changed. `rules` is what its new rules were
/// written as, where there are new ones.
pub open spec fn changed_promotion_binds(
    context: SearchProviderContext,
    promotion_id: Seq<char>,
    patch: UpdatePromotionInput,
    rules: Option<Option<serde_json::Value>>,
) -> Seq<Bound> {
    seq![
        Bound::OptionalText(
            match patch.placement {
                Some(placement) => Some(placement_text(placement)),
                None => None,
            },
        ),
        Bound::OptionalText(optional_view(patch.document_id)),
        Bound::OptionalInteger(patch.priority),
        Bound::OptionalJson(
            match rules {
                Some(written) => Some(stored_rules(written)),
                None => None,
            },
        ),
        Bound::OptionalInteger(
            match patch.enabled {
                Some(enabled) => Some(
                    if enabled {
                        1
                    } else {
                        0
                    },
                ),
                None => None,
            },
        ),
        Bound::OptionalMoment(patch.start_at),
        Bound::OptionalMoment(patch.end_at),
    ] + promotion_binds(context.tenant_id, context.organization_id, promotion_id)
}

impl<P> SearchRepositoryAdapter<P> {
    /// The statement that lists the promotions of a placement that are active at a time.
    pub fn list_active_promotions_at(
        &self,
        context: &SearchProviderContext,
        index_key: &str,
        placement: PromotionPlacement,
        now: Timestamp,
    ) -> (statement: Statement)
        ensures
            statement.reads(
                queries::PROMOTION_LIST_ACTIVE@,
                active_promotions_binds(*context, index_key@, placement, now),
            ),
    {
        self.promotion_repo.list_active_promotions(
            context.tenant_id,
            context.organization_id,
            index_key,
            placement_to_str(placement),
            now,
        )
    }

    /// The statement that lists the promotions of a placement that are active now.
    pub fn list_active_promotions(
        &self,
        context: &SearchProviderContext,
        index_key: &str,
        placement: PromotionPlacement,
    ) -> (statement: Statement)
        ensures
            exists|now: Timestamp|
                now.spec_seconds() >= 0 && #[trigger] statement.reads(
                    queries::PROMOTION_LIST_ACTIVE@,
                    active_promotions_binds(*context, index_key@, placement, now),
                ),
    {
        let now: Timestamp = Timestamp::now();
        self.list_active_promotions_at(context, index_key, placement, now)
    }

    /// The statement that writes down that a promotion was delivered, as row `id` under
    /// the name `uuid`.
    pub fn record_delivery_as(
        &self,
        context: &SearchProviderContext,
        promotion_id: &str,
        user_id: i64,
        id: i64,
        uuid: String,
    ) -> (statement: Statement)
        ensures
            statement.reads(
                queries::PROMOTION_EVENT_INSERT@,
                promotion_event_binds(
                    id,
                    uuid@,
                    context.tenant_id,
                    context.organization_id,
                    user_id,
                    "promotion_delivery"@,
                    promotion_id@,
                ),
            ),
    {
        self.promotion_repo.record_promotion_event(
            id,
            uuid,
            context.tenant_id,
            context.organization_id,
            user_id,
            "promotion_delivery",
            promotion_id,
        )
    }

    /// The statement that writes down that a promotion was delivered, as a new row.
    pub fn record_delivery(&self, context: &SearchProviderContext, promotion_id: &str, user_id: i64) -> (statement:
        Statement)
        ensures
            exists|id: i64, uuid: Seq<char>|
                id >= 0 && random_uuid_text(uuid) && #[trigger] statement.reads(
                    queries::PROMOTION_EVENT_INSERT@,
                    promotion_event_binds(
                        id,
                        uuid,
                        context.tenant_id,
                        context.organization_id,
                        user_id,
                        "promotion_delivery"@,
                        promotion_id@,
                    ),
                ),
    {
        let id: i64 = now_id();
        let uuid: String = new_uuid();
        self.record_delivery_as(context, promotion_id, user_id, id, uuid)
    }

    /// The statement that writes down that a promotion was clicked, as row `id` under the
    /// name `uuid`.
    pub fn record_click_as(
        &self,
        context: &SearchProviderContext,
        promotion_id: &str,
        user_id: i64,
        id: i64,
        uuid: String,
    ) -> (statement: Statement)
        ensures
            statement.reads(
                queries::PROMOTION_EVENT_INSERT@,
                promotion_event_binds(
                    id,
                    uuid@,
                    context.tenant_id,
                    context.organization_id,
                    user_id,
                    "promotion_click"@,
                    promotion_id@,
                ),
            ),
    {
        self.promotion_repo.record_promotion_event(
            id,
            uuid,
            context.tenant_id,
            context.organization_id,
            user_id,
            "promotion_click",
            promotion_id,
        )
    }

    /// The statement that writes down that a promotion was clicked, as a new row.
    pub fn record_click(&self, context: &SearchProviderContext, promotion_id: &str, user_id: i64) -> (statement:
        Statement)
        ensures
            exists|id: i64, uuid: Seq<char>|
                id >= 0 && random_uuid_text(uuid) && #[trigger] statement.reads(
                    queries::PROMOTION_EVENT_INSERT@,
                    promotion_event_binds(
                        id,
                        uuid,
                        context.tenant_id,
                        context.organization_id,
                        user_id,
                        "promotion_click"@,
                        promotion_id@,
                    ),
                ),
    {
        let id: i64 = now_id();
        let uuid: String = new_uuid();
        self.record_click_as(context, promotion_id, user_id, id, uuid)
    }

    /// The statement that counts how often a promotion was delivered and clicked.
    pub fn get_promotion_stats(&self, context: &SearchProviderContext, promotion_id: &str) -> (statement:
        Statement)
        ensures
            statement.reads(
                queries::PROMOTION_STATS@,
                promotion_binds(context.tenant_id, context.organization_id, promotion_id@),
            ),
    {
        self.promotion_repo.get_promotion_stats(
            context.tenant_id,
            context.organization_id,
            promotion_id,
        )
    }

    /// The statement that writes a promotion as row `id` under the name `uuid`. `rules`
    /// is what its rules were written as, where they could be.
    pub fn create_promotion_as(
        &self,
        context: &SearchProviderContext,
        input: &CreatePromotionInput,
        rules: &Option<serde_json::Value>,
        id: i64,
        uuid: String,
    ) -> (statement: Statement)
        ensures
            statement.reads(
                queries::PROMOTION_CREATE@,
                new_promotion_binds(*context, *input, stored_rules(*rules), id, uuid@),
            ),
    {
        let params: CreatePromotionParams = CreatePromotionParams {
            id,
            tenant_id: context.tenant_id,
            organization_id: context.organization_id,
            promotion_key: input.promotion_key.clone(),
            placement: placement_to_str(input.placement).to_owned(),
            index_key: input.index_key.clone(),
            document_id: input.document_id.clone(),
            priority: input.priority,
            rule_json: rules_or_none(rules),
        };
        self.promotion_repo.create_promotion(&params, uuid)
    }

    /// The statement that writes a promotion, as a new row. `rules` is what its rules
    /// were written as, where they could be.
    pub fn create_promotion(
        &self,
        context: &SearchProviderContext,
        input: &CreatePromotionInput,
        rules: &Option<serde_json::Value>,
    ) -> (statement: Statement)
        ensures
            exists|id: i64, uuid: Seq<char>|
                id >= 0 && random_uuid_text(uuid) && #[trigger] statement.reads(
                    queries::PROMOTION_CREATE@,
                    new_promotion_binds(*context, *input, stored_rules(*rules), id, uuid),
                ),
    {
        let id: i64 = now_id();
        let uuid: String = new_uuid();
        self.create_promotion_as(context, input, rules, id, uuid)
    }

    /// The statement that changes a promotion. `rules` is what its new rules were written
    /// as, where there are new ones and they could be.
    pub fn update_promotion(
        &self,
        context: &SearchProviderContext,
        promotion_id: &str,
        patch: &UpdatePromotionInput,
        rules: &Option<Option<serde_json::Value>>,
    ) -> (statement: Statement)
        ensures
            statement.reads(
                queries::PROMOTION_UPDATE@,
                changed_promotion_binds(*context, promotion_id@, *patch, *rules),
            ),
    {
        let params: UpdatePromotionParams = UpdatePromotionParams {
            placement: match patch.placement {
                Some(placement) => Some(placement_to_str(placement).to_owned()),
                None => None,
            },
            document_id: copy_text(&patch.document_id),
            priority: patch.priority,
            rule_json: match rules {
                Some(written) => Some(rules_or_none(written)),
                None => None,
            },
            status: match patch.enabled {
                Some(enabled) => Some(
                    if enabled {
                        1
                    } else {
                        0
                    },
                ),
                None => None,
            },
            active_from: patch.start_at,
            active_until: patch.end_at,
        };
        self.promotion_repo.update_promotion(
            context.tenant_id,
            context.organization_id,
            promotion_id,
            &params,
        )
    }

    /// The statement that deletes a promotion, in the name of the user.
    pub fn delete_promotion(&self, context: &SearchProviderContext, promotion_id: &str) -> (statement:
        Statement)
        ensures
            statement.reads(
                queries::PROMOTION_DELETE@,
                seq![Bound::OptionalBigInt(context.user_id)] + promotion_binds(
                    context.tenant_id,
                    context.organization_id,
                    promotion_id@,
                ),
            ),
    {
        self.promotion_repo.delete_promotion(
            context.tenant_id,
            context.organization_id,
            promotion_id,
            context.user_id,
        )
    }

    /// The statement that lists a page of the promotions of an index.
    pub fn list_all_promotions(
        &self,
        context: &SearchProviderContext,
        index_key: &str,
        page: u32,
        page_size: u32,
    ) -> (statement: Statement)
        requires
            page_fits(page, page_size),
        ensures
            statement.reads(
                queries::PROMOTION_LIST_ALL@,
                index_binds(context.tenant_id, context.organization_id, index_key@) + page_binds(
                    page,
                    page_size,
                ),
            ),
    {
        self.promotion_repo.list_all_promotions(
            context.tenant_id,
            context.organization_id,
            index_key,
            page,
            page_size,
        )
    }

    /// The statement that finds a promotion by its key.
    pub fn get_promotion(&self, context: &SearchProviderContext, promotion_id: &str) -> (statement:
        Statement)
        ensures
            statement.reads(
                queries::PROMOTION_GET@,
                promotion_binds(context.tenant_id, context.organization_id, promotion_id@),
            ),
    {
        self.promotion_repo.get_promotion(
            context.tenant_id,
            context.organization_id,
            promotion_id,
        )
    }
}

// ---------------------------------------------------------------------------
// Laws
// ---------------------------------------------------------------------------

/// What is done for a user is done in the name of that user, and for no user in the name of
/// the user zero.
pub proof fn lemma_acting_user(context: SearchProviderContext)
    ensures
        context.user_id is Some ==> acting_user(context) == context.user_id->0,
        context.user_id is None ==> acting_user(context) == 0,
{
}

/// A document without a title is stored under its name.
pub proof fn lemma_title_or_name(document: IndexDocument)
    ensures
        document.title is Some ==> title_or_name(document) == document.title->0@,
        document.title is None ==> title_or_name(document) == document.document_id@,
{
}

/// The message for a missing index names that index.
pub proof fn lemma_missing_index_is_named(index_key: Seq<char>)
    ensures
        "index not found for index_key: "@.is_prefix_of(index_missing_message(index_key)),
        index_key.is_suffix_of(index_missing_message(index_key)),
        index_missing_message(index_key).len() == "index not found for index_key: "@.len()
            + index_key.len(),
{
    let start = "index not found for index_key: "@;
    let whole = index_missing_message(index_key);
    assert(whole.subrange(0, start.len() as int) =~= start);
    assert(whole.subrange(whole.len() - index_key.len(), whole.len() as int) =~= index_key);
}

/// Rules that were written are stored as they are; rules that could not be written are none.
pub proof fn lemma_rules_stored(written: Option<serde_json::Value>)
    ensures
        written is Some ==> stored_rules(written) == json(written->0),
        written is None ==> stored_rules(written) is Array && stored_rules(written)->Array_0.len()
            == 0,
{
}

/// One more statement that was carried out adds the rows that it affected to those of the
/// statements before, and one that failed adds none.
pub proof fn lemma_one_more_deletion(outcomes: Seq<Result<u64, String>>, outcome: Result<u64, String>)
    ensures
        affected(Seq::<Result<u64, String>>::empty()) == 0,
        outcome is Ok ==> affected(outcomes.push(outcome)) == affected(outcomes) + outcome->Ok_0,
        outcome is Err ==> affected(outcomes.push(outcome)) == affected(outcomes),
        all_succeeded(outcomes.push(outcome)) <==> all_succeeded(outcomes) && outcome is Ok,
{
    let all = outcomes.push(outcome);
    assert(all.drop_last() =~= outcomes);
    if all_succeeded(all) {
        assert forall|i: int| 0 <= i < outcomes.len() implies (#[trigger] outcomes[i]) is Ok by {
            assert(all[i] == outcomes[i]);
        }
        assert(all[outcomes.len() as int] is Ok);
    }
}

/// The failure that is told is that of a statement all before which were carried out. Where
/// one was carried out and the next failed, the message is that of the next.
pub proof fn lemma_failure_that_is_told(
    outcomes: Seq<Result<u64, String>>,
    message: Seq<char>,
    i: int,
)
    requires
        is_first_failure(outcomes, message),
        0 <= i < outcomes.len(),
        outcomes[i] is Err,
        forall|k: int| 0 <= k < i ==> (#[trigger] outcomes[k]) is Ok,
    ensures
        message == outcomes[i]->Err_0@,
{
    assert(all_succeeded(outcomes.take(i)));
    assert(is_first_failure(outcomes, outcomes[i]->Err_0@));
    lemma_one_first_failure(outcomes, message, outcomes[i]->Err_0@);
}

} // verus!
