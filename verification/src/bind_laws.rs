//! What is bound to each named statement, by the names of its parameters: whatever order they
//! are bound in, each parameter gets the value that is meant for it.
use vstd::prelude::*;

use crate::adapter::{
    active_promotions_binds, changed_index_binds, changed_promotion_binds, job_binds,
    job_status_binds, new_index_binds, new_job_binds, new_promotion_binds, query_audit_binds,
    similar_documents_binds, stored_document_binds, user_event_binds, CreatePromotionInput,
    IndexPatch, UpdatePromotionInput,
};
use crate::clock::Timestamp;
use crate::documents::IndexDocument;
use crate::domain::{PromotionPlacement, SearchIndexRow};
use crate::json::{json, jsons, Json};
use crate::named::{lemma_names_distinct, parameter_names};
use crate::queries;
use crate::query_laws::{
    lemma_document_count, lemma_document_delete, lemma_document_get, lemma_document_list,
    lemma_document_stats, lemma_document_upsert, lemma_index_create, lemma_index_get_by_key,
    lemma_index_update, lemma_job_create, lemma_job_get, lemma_job_update_status,
    lemma_promotion_create, lemma_promotion_delete, lemma_promotion_event_insert,
    lemma_promotion_get, lemma_promotion_list_active, lemma_promotion_list_all,
    lemma_promotion_stats, lemma_promotion_update, lemma_recent_query_upsert,
    lemma_user_event_record, lemma_user_event_similar_documents, lemma_user_event_trending,
};
use crate::repository::{
    create_index_binds, create_index_job_binds, create_promotion_binds, document_binds,
    index_binds, page_binds, promotion_binds, promotion_event_binds, recent_query_binds,
    record_event_binds, upsert_document_binds, CreateIndexJobParams, CreateIndexParams,
    CreatePromotionParams, RecordUserEventParams, UpsertDocumentParams, UpsertRecentQueryParams,
};
use crate::spi::SearchProviderContext;
use crate::statement::Bound;

verus! {

/// What is bound to the parameter of that name.
pub open spec fn bound_to(sql: Seq<char>, binds: Seq<Bound>, name: Seq<char>) -> Bound {
    binds[parameter_names(sql).index_of(name)]
}

/// There is a value for each parameter, and no other.
pub open spec fn binds_each(sql: Seq<char>, binds: Seq<Bound>) -> bool {
    binds.len() == parameter_names(sql).len()
}

proof fn lemma_bound_in_place(sql: Seq<char>, binds: Seq<Bound>, names: Seq<Seq<char>>)
    requires
        parameter_names(sql) == names,
        binds.len() == names.len(),
    ensures
        binds_each(sql, binds),
        forall|i: int| 0 <= i < names.len() ==> bound_to(sql, binds, #[trigger] names[i]) == binds[i],
{
    lemma_names_distinct(sql);
    assert forall|i: int| 0 <= i < names.len() implies bound_to(sql, binds, #[trigger] names[i])
        == binds[i] by {
        assert(names.contains(names[i]));
        let k = names.index_of(names[i]);
        assert(0 <= k < names.len() && names[k] == names[i]);
    }
}

/// A query is written down for the user who made it, or for none, under its index and with its
/// text; no results are counted.
pub proof fn lemma_query_audit_bound(
    context: SearchProviderContext,
    query_text: Seq<char>,
    index_key: Seq<char>,
    id: i64,
    uuid: Seq<char>,
)
    ensures
        ({
            let sql = queries::RECENT_QUERY_UPSERT@;
            let binds = query_audit_binds(context, query_text, index_key, id, uuid);
            &&& binds_each(sql, binds)
            &&& bound_to(sql, binds, "id"@) == Bound::BigInt(id)
            &&& bound_to(sql, binds, "uuid"@) == Bound::Text(uuid)
            &&& bound_to(sql, binds, "tenant_id"@) == Bound::BigInt(context.tenant_id)
            &&& bound_to(sql, binds, "organization_id"@) == Bound::BigInt(context.organization_id)
            &&& bound_to(sql, binds, "user_id"@) == Bound::BigInt(
                if context.user_id is Some {
                    context.user_id->0
                } else {
                    0
                },
            )
            &&& bound_to(sql, binds, "index_key"@) == Bound::Text(index_key)
            &&& bound_to(sql, binds, "q"@) == Bound::Text(query_text)
            &&& bound_to(sql, binds, "result_count"@) == Bound::Integer(0)
        }),
{
    lemma_recent_query_upsert();
    let sql = queries::RECENT_QUERY_UPSERT@;
    let names = seq![
        "id"@,
        "uuid"@,
        "tenant_id"@,
        "organization_id"@,
        "user_id"@,
        "index_key"@,
        "q"@,
        "result_count"@,
    ];
    let binds = query_audit_binds(context, query_text, index_key, id, uuid);
    lemma_bound_in_place(sql, binds, names);
    assert(bound_to(sql, binds, names[0]) == binds[0]);
    assert(bound_to(sql, binds, names[1]) == binds[1]);
    assert(bound_to(sql, binds, names[2]) == binds[2]);
    assert(bound_to(sql, binds, names[3]) == binds[3]);
    assert(bound_to(sql, binds, names[4]) == binds[4]);
    assert(bound_to(sql, binds, names[5]) == binds[5]);
    assert(bound_to(sql, binds, names[6]) == binds[6]);
    assert(bound_to(sql, binds, names[7]) == binds[7]);
}

/// An event is written down for the user of the request, or for none, with its kind, the name
/// of the request and what it is about.
pub proof fn lemma_user_event_bound(
    context: SearchProviderContext,
    event_kind: Seq<char>,
    payload: Json,
    id: i64,
    uuid: Seq<char>,
)
    ensures
        ({
            let sql = queries::USER_EVENT_RECORD@;
            let binds = user_event_binds(context, event_kind, payload, id, uuid);
            &&& binds_each(sql, binds)
            &&& bound_to(sql, binds, "id"@) == Bound::BigInt(id)
            &&& bound_to(sql, binds, "uuid"@) == Bound::Text(uuid)
            &&& bound_to(sql, binds, "tenant_id"@) == Bound::BigInt(context.tenant_id)
            &&& bound_to(sql, binds, "organization_id"@) == Bound::BigInt(context.organization_id)
            &&& bound_to(sql, binds, "user_id"@) == Bound::BigInt(
                if context.user_id is Some {
                    context.user_id->0
                } else {
                    0
                },
            )
            &&& bound_to(sql, binds, "event_type"@) == Bound::Text(event_kind)
            &&& bound_to(sql, binds, "surface"@) == Bound::Text("app"@)
            &&& bound_to(sql, binds, "index_key"@) == Bound::OptionalText(None)
            &&& bound_to(sql, binds, "document_id"@) == Bound::OptionalText(None)
            &&& bound_to(sql, binds, "placement"@) == Bound::OptionalText(None)
            &&& bound_to(sql, binds, "q"@) == Bound::OptionalText(None)
            &&& bound_to(sql, binds, "result_position"@) == Bound::OptionalInteger(None)
            &&& bound_to(sql, binds, "request_id"@) == Bound::OptionalText(
                if context.request_id is Some {
                    Some(context.request_id->0@)
                } else {
                    None
                },
            )
            &&& bound_to(sql, binds, "metadata_json"@) == Bound::Json(payload)
        }),
{
    lemma_user_event_record();
    let sql = queries::USER_EVENT_RECORD@;
    let names = seq![
        "id"@,
        "uuid"@,
        "tenant_id"@,
        "organization_id"@,
        "user_id"@,
        "event_type"@,
        "surface"@,
        "index_key"@,
        "document_id"@,
        "placement"@,
        "q"@,
        "result_position"@,
        "request_id"@,
        "metadata_json"@,
    ];
    let binds = user_event_binds(context, event_kind, payload, id, uuid);
    lemma_bound_in_place(sql, binds, names);
    assert(bound_to(sql, binds, names[0]) == binds[0]);
    assert(bound_to(sql, binds, names[1]) == binds[1]);
    assert(bound_to(sql, binds, names[2]) == binds[2]);
    assert(bound_to(sql, binds, names[3]) == binds[3]);
    assert(bound_to(sql, binds, names[4]) == binds[4]);
    assert(bound_to(sql, binds, names[5]) == binds[5]);
    assert(bound_to(sql, binds, names[6]) == binds[6]);
    assert(bound_to(sql, binds, names[7]) == binds[7]);
    assert(bound_to(sql, binds, names[8]) == binds[8]);
    assert(bound_to(sql, binds, names[9]) == binds[9]);
    assert(bound_to(sql, binds, names[10]) == binds[10]);
    assert(bound_to(sql, binds, names[11]) == binds[11]);
    assert(bound_to(sql, binds, names[12]) == binds[12]);
    assert(bound_to(sql, binds, names[13]) == binds[13]);
}

/// A document is stored under its names, with its title, or its name where it has none, its
/// content, its source and its embedding; it is active.
pub proof fn lemma_stored_document_bound(
    context: SearchProviderContext,
    document: IndexDocument,
    index_id: i64,
    id: i64,
    uuid: Seq<char>,
)
    ensures
        ({
            let sql = queries::DOCUMENT_UPSERT@;
            let binds = stored_document_binds(context, document, index_id, id, uuid);
            &&& binds_each(sql, binds)
            &&& bound_to(sql, binds, "id"@) == Bound::BigInt(id)
            &&& bound_to(sql, binds, "uuid"@) == Bound::Text(uuid)
            &&& bound_to(sql, binds, "tenant_id"@) == Bound::BigInt(context.tenant_id)
            &&& bound_to(sql, binds, "organization_id"@) == Bound::BigInt(context.organization_id)
            &&& bound_to(sql, binds, "index_id"@) == Bound::BigInt(index_id)
            &&& bound_to(sql, binds, "index_key"@) == Bound::Text(document.index_key@)
            &&& bound_to(sql, binds, "document_id"@) == Bound::Text(document.document_id@)
            &&& bound_to(sql, binds, "capability"@) == Bound::OptionalText(None)
            &&& bound_to(sql, binds, "scope"@) == Bound::Text("global"@)
            &&& bound_to(sql, binds, "group_key"@) == Bound::OptionalText(None)
            &&& bound_to(sql, binds, "group_title"@) == Bound::OptionalText(None)
            &&& bound_to(sql, binds, "source_ref"@) == Bound::OptionalText(None)
            &&& bound_to(sql, binds, "title"@) == Bound::Text(
                if document.title is Some {
                    document.title->0@
                } else {
                    document.document_id@
                },
            )
            &&& bound_to(sql, binds, "body_text"@) == Bound::OptionalText(
                if document.content is Some {
                    Some(document.content->0@)
                } else {
                    None
                },
            )
            &&& bound_to(sql, binds, "keyword_text"@) == Bound::OptionalText(None)
            &&& bound_to(sql, binds, "payload_json"@) == Bound::Json(json(document.source))
            &&& bound_to(sql, binds, "token_json"@) == Bound::Json(Json::Array(Seq::<Json>::empty()))
            &&& bound_to(sql, binds, "embedding_json"@) == Bound::Json(
                Json::Object(
                    map!["vector"@ => Json::Array(document.embedding@.map_values(|number: serde_json::Value| json(number)))],
                ),
            )
            &&& bound_to(sql, binds, "status"@) == Bound::Integer(1)
            &&& bound_to(sql, binds, "data_scope"@) == Bound::Integer(0)
        }),
{
    lemma_document_upsert();
    let sql = queries::DOCUMENT_UPSERT@;
    let names = seq![
        "id"@,
        "uuid"@,
        "tenant_id"@,
        "organization_id"@,
        "index_id"@,
        "index_key"@,
        "document_id"@,
        "capability"@,
        "scope"@,
        "group_key"@,
        "group_title"@,
        "source_ref"@,
        "title"@,
        "body_text"@,
        "keyword_text"@,
        "payload_json"@,
        "token_json"@,
        "embedding_json"@,
        "status"@,
        "data_scope"@,
    ];
    let binds = stored_document_binds(context, document, index_id, id, uuid);
    assert(jsons(document.embedding@) =~= document.embedding@.map_values(
        |number: serde_json::Value| json(number),
    ));
    lemma_bound_in_place(sql, binds, names);
    assert(bound_to(sql, binds, names[0]) == binds[0]);
    assert(bound_to(sql, binds, names[1]) == binds[1]);
    assert(bound_to(sql, binds, names[2]) == binds[2]);
    assert(bound_to(sql, binds, names[3]) == binds[3]);
    assert(bound_to(sql, binds, names[4]) == binds[4]);
    assert(bound_to(sql, binds, names[5]) == binds[5]);
    assert(bound_to(sql, binds, names[6]) == binds[6]);
    assert(bound_to(sql, binds, names[7]) == binds[7]);
    assert(bound_to(sql, binds, names[8]) == binds[8]);
    assert(bound_to(sql, binds, names[9]) == binds[9]);
    assert(bound_to(sql, binds, names[10]) == binds[10]);
    assert(bound_to(sql, binds, names[11]) == binds[11]);
    assert(bound_to(sql, binds, names[12]) == binds[12]);
    assert(bound_to(sql, binds, names[13]) == binds[13]);
    assert(bound_to(sql, binds, names[14]) == binds[14]);
    assert(bound_to(sql, binds, names[15]) == binds[15]);
    assert(bound_to(sql, binds, names[16]) == binds[16]);
    assert(bound_to(sql, binds, names[17]) == binds[17]);
    assert(bound_to(sql, binds, names[18]) == binds[18]);
    assert(bound_to(sql, binds, names[19]) == binds[19]);
}

/// A new index has its key for its title, no description, and its schema.
pub proof fn lemma_new_index_bound(
    context: SearchProviderContext,
    index_key: Seq<char>,
    schema: Json,
    id: i64,
    uuid: Seq<char>,
)
    ensures
        ({
            let sql = queries::INDEX_CREATE@;
            let binds = new_index_binds(context, index_key, schema, id, uuid);
            &&& binds_each(sql, binds)
            &&& bound_to(sql, binds, "id"@) == Bound::BigInt(id)
            &&& bound_to(sql, binds, "uuid"@) == Bound::Text(uuid)
            &&& bound_to(sql, binds, "tenant_id"@) == Bound::BigInt(context.tenant_id)
            &&& bound_to(sql, binds, "organization_id"@) == Bound::BigInt(context.organization_id)
            &&& bound_to(sql, binds, "index_key"@) == Bound::Text(index_key)
            &&& bound_to(sql, binds, "title"@) == Bound::Text(index_key)
            &&& bound_to(sql, binds, "description"@) == Bound::OptionalText(None)
            &&& bound_to(sql, binds, "config_json"@) == Bound::Json(schema)
        }),
{
    lemma_index_create();
    let sql = queries::INDEX_CREATE@;
    let names = seq![
        "id"@,
        "uuid"@,
        "tenant_id"@,
        "organization_id"@,
        "index_key"@,
        "title"@,
        "description"@,
        "config_json"@,
    ];
    let binds = new_index_binds(context, index_key, schema, id, uuid);
    lemma_bound_in_place(sql, binds, names);
    assert(bound_to(sql, binds, names[0]) == binds[0]);
    assert(bound_to(sql, binds, names[1]) == binds[1]);
    assert(bound_to(sql, binds, names[2]) == binds[2]);
    assert(bound_to(sql, binds, names[3]) == binds[3]);
    assert(bound_to(sql, binds, names[4]) == binds[4]);
    assert(bound_to(sql, binds, names[5]) == binds[5]);
    assert(bound_to(sql, binds, names[6]) == binds[6]);
    assert(bound_to(sql, binds, names[7]) == binds[7]);
}

/// A new job is one of its index, with its type and its payload.
pub proof fn lemma_new_job_bound(
    context: SearchProviderContext,
    index_key: Seq<char>,
    job_type: Seq<char>,
    payload: Json,
    id: i64,
    uuid: Seq<char>,
)
    ensures
        ({
            let sql = queries::JOB_CREATE@;
            let binds = new_job_binds(context, index_key, job_type, payload, id, uuid);
            &&& binds_each(sql, binds)
            &&& bound_to(sql, binds, "id"@) == Bound::BigInt(id)
            &&& bound_to(sql, binds, "uuid"@) == Bound::Text(uuid)
            &&& bound_to(sql, binds, "tenant_id"@) == Bound::BigInt(context.tenant_id)
            &&& bound_to(sql, binds, "organization_id"@) == Bound::BigInt(context.organization_id)
            &&& bound_to(sql, binds, "index_key"@) == Bound::Text(index_key)
            &&& bound_to(sql, binds, "job_type"@) == Bound::Text(job_type)
            &&& bound_to(sql, binds, "payload_json"@) == Bound::Json(payload)
        }),
{
    lemma_job_create();
    let sql = queries::JOB_CREATE@;
    let names = seq![
        "id"@,
        "uuid"@,
        "tenant_id"@,
        "organization_id"@,
        "index_key"@,
        "job_type"@,
        "payload_json"@,
    ];
    let binds = new_job_binds(context, index_key, job_type, payload, id, uuid);
    lemma_bound_in_place(sql, binds, names);
    assert(bound_to(sql, binds, names[0]) == binds[0]);
    assert(bound_to(sql, binds, names[1]) == binds[1]);
    assert(bound_to(sql, binds, names[2]) == binds[2]);
    assert(bound_to(sql, binds, names[3]) == binds[3]);
    assert(bound_to(sql, binds, names[4]) == binds[4]);
    assert(bound_to(sql, binds, names[5]) == binds[5]);
    assert(bound_to(sql, binds, names[6]) == binds[6]);
}

/// A job is looked for by its name, for its tenant and its organization.
pub proof fn lemma_job_bound(context: SearchProviderContext, job_uuid: Seq<char>)
    ensures
        ({
            let sql = queries::JOB_GET@;
            let binds = job_binds(context, job_uuid);
            &&& binds_each(sql, binds)
            &&& bound_to(sql, binds, "tenant_id"@) == Bound::BigInt(context.tenant_id)
            &&& bound_to(sql, binds, "organization_id"@) == Bound::BigInt(context.organization_id)
            &&& bound_to(sql, binds, "uuid"@) == Bound::Text(job_uuid)
        }),
{
    lemma_job_get();
    let sql = queries::JOB_GET@;
    let names = seq!["tenant_id"@, "organization_id"@, "uuid"@];
    let binds = job_binds(context, job_uuid);
    lemma_bound_in_place(sql, binds, names);
    assert(bound_to(sql, binds, names[0]) == binds[0]);
    assert(bound_to(sql, binds, names[1]) == binds[1]);
    assert(bound_to(sql, binds, names[2]) == binds[2]);
}

/// The status, the two times and the error of a job are written each in its place, to the job
/// of that name.
pub proof fn lemma_job_status_bound(
    context: SearchProviderContext,
    job_uuid: Seq<char>,
    status: i32,
    started_at: Option<Timestamp>,
    finished_at: Option<Timestamp>,
    error_summary: Option<Seq<char>>,
)
    ensures
        ({
            let sql = queries::JOB_UPDATE_STATUS@;
            let binds = job_status_binds(
                context,
                job_uuid,
                status,
                started_at,
                finished_at,
                error_summary,
            );
            &&& binds_each(sql, binds)
            &&& bound_to(sql, binds, "status"@) == Bound::Integer(status)
            &&& bound_to(sql, binds, "started_at"@) == Bound::OptionalMoment(started_at)
            &&& bound_to(sql, binds, "finished_at"@) == Bound::OptionalMoment(finished_at)
            &&& bound_to(sql, binds, "error_summary"@) == Bound::OptionalText(error_summary)
            &&& bound_to(sql, binds, "uuid"@) == Bound::Text(job_uuid)
            &&& bound_to(sql, binds, "tenant_id"@) == Bound::BigInt(context.tenant_id)
            &&& bound_to(sql, binds, "organization_id"@) == Bound::BigInt(context.organization_id)
        }),
{
    lemma_job_update_status();
    let sql = queries::JOB_UPDATE_STATUS@;
    let names = seq![
        "status"@,
        "started_at"@,
        "finished_at"@,
        "error_summary"@,
        "uuid"@,
        "tenant_id"@,
        "organization_id"@,
    ];
    let binds = job_status_binds(
        context,
        job_uuid,
        status,
        started_at,
        finished_at,
        error_summary,
    );
    lemma_bound_in_place(sql, binds, names);
    assert(bound_to(sql, binds, names[0]) == binds[0]);
    assert(bound_to(sql, binds, names[1]) == binds[1]);
    assert(bound_to(sql, binds, names[2]) == binds[2]);
    assert(bound_to(sql, binds, names[3]) == binds[3]);
    assert(bound_to(sql, binds, names[4]) == binds[4]);
    assert(bound_to(sql, binds, names[5]) == binds[5]);
    assert(bound_to(sql, binds, names[6]) == binds[6]);
}

/// An index gets what the patch holds, and keeps what the row holds where the patch holds
/// nothing.
pub proof fn lemma_changed_index_bound(
    context: SearchProviderContext,
    row: SearchIndexRow,
    patch: IndexPatch,
)
    ensures
        ({
            let sql = queries::INDEX_UPDATE@;
            let binds = changed_index_binds(context, row, patch);
            &&& binds_each(sql, binds)
            &&& bound_to(sql, binds, "title"@) == Bound::Text(
                if patch.title is Some {
                    patch.title->0@
                } else {
                    row.title@
                },
            )
            &&& bound_to(sql, binds, "description"@) == Bound::OptionalText(
                if patch.description is Some {
                    Some(patch.description->0@)
                } else if row.description is Some {
                    Some(row.description->0@)
                } else {
                    None
                },
            )
            &&& bound_to(sql, binds, "status"@) == Bound::Integer(
                if patch.status is Some {
                    patch.status->0
                } else {
                    row.status
                },
            )
            &&& bound_to(sql, binds, "config_json"@) == Bound::Json(
                if patch.config_json is Some {
                    json(patch.config_json->0)
                } else {
                    json(row.config_json)
                },
            )
            &&& bound_to(sql, binds, "id"@) == Bound::BigInt(row.id)
            &&& bound_to(sql, binds, "tenant_id"@) == Bound::BigInt(context.tenant_id)
            &&& bound_to(sql, binds, "organization_id"@) == Bound::BigInt(context.organization_id)
        }),
{
    lemma_index_update();
    let sql = queries::INDEX_UPDATE@;
    let names = seq![
        "title"@,
        "description"@,
        "status"@,
        "config_json"@,
        "id"@,
        "tenant_id"@,
        "organization_id"@,
    ];
    let binds = changed_index_binds(context, row, patch);
    lemma_bound_in_place(sql, binds, names);
    assert(bound_to(sql, binds, names[0]) == binds[0]);
    assert(bound_to(sql, binds, names[1]) == binds[1]);
    assert(bound_to(sql, binds, names[2]) == binds[2]);
    assert(bound_to(sql, binds, names[3]) == binds[3]);
    assert(bound_to(sql, binds, names[4]) == binds[4]);
    assert(bound_to(sql, binds, names[5]) == binds[5]);
    assert(bound_to(sql, binds, names[6]) == binds[6]);
}

/// Similar documents are looked for by all the given documents, in their index, and no more
/// than asked for.
pub proof fn lemma_similar_documents_bound(
    context: SearchProviderContext,
    index_key: Seq<char>,
    document_ids: Seq<Seq<char>>,
    limit: u32,
)
    ensures
        ({
            let sql = queries::USER_EVENT_SIMILAR_DOCUMENTS@;
            let binds = similar_documents_binds(context, index_key, document_ids, limit);
            &&& binds_each(sql, binds)
            &&& bound_to(sql, binds, "tenant_id"@) == Bound::BigInt(context.tenant_id)
            &&& bound_to(sql, binds, "organization_id"@) == Bound::BigInt(context.organization_id)
            &&& bound_to(sql, binds, "index_key"@) == Bound::Text(index_key)
            &&& bound_to(sql, binds, "document_ids"@) == Bound::TextArray(document_ids)
            &&& bound_to(sql, binds, "limit"@) == Bound::BigInt(limit as i64)
        }),
{
    lemma_user_event_similar_documents();
    let sql = queries::USER_EVENT_SIMILAR_DOCUMENTS@;
    let names = seq!["tenant_id"@, "organization_id"@, "index_key"@, "document_ids"@, "limit"@];
    let binds = similar_documents_binds(context, index_key, document_ids, limit);
    lemma_bound_in_place(sql, binds, names);
    assert(bound_to(sql, binds, names[0]) == binds[0]);
    assert(bound_to(sql, binds, names[1]) == binds[1]);
    assert(bound_to(sql, binds, names[2]) == binds[2]);
    assert(bound_to(sql, binds, names[3]) == binds[3]);
    assert(bound_to(sql, binds, names[4]) == binds[4]);
}

/// Promotions are looked for in their index and at their placement, as of the time that is
/// given.
pub proof fn lemma_active_promotions_bound(
    context: SearchProviderContext,
    index_key: Seq<char>,
    placement: PromotionPlacement,
    now: Timestamp,
)
    ensures
        ({
            let sql = queries::PROMOTION_LIST_ACTIVE@;
            let binds = active_promotions_binds(context, index_key, placement, now);
            &&& binds_each(sql, binds)
            &&& bound_to(sql, binds, "tenant_id"@) == Bound::BigInt(context.tenant_id)
            &&& bound_to(sql, binds, "organization_id"@) == Bound::BigInt(context.organization_id)
            &&& bound_to(sql, binds, "index_key"@) == Bound::Text(index_key)
            &&& bound_to(sql, binds, "placement"@) == Bound::Text(
                if placement is Top {
                    "top"@
                } else if placement is Inline {
                    "inline"@
                } else if placement is Banner {
                    "banner"@
                } else {
                    "sidebar"@
                },
            )
            &&& bound_to(sql, binds, "now"@) == Bound::Moment(now)
        }),
{
    lemma_promotion_list_active();
    let sql = queries::PROMOTION_LIST_ACTIVE@;
    let names = seq!["tenant_id"@, "organization_id"@, "index_key"@, "placement"@, "now"@];
    let binds = active_promotions_binds(context, index_key, placement, now);
    lemma_bound_in_place(sql, binds, names);
    assert(bound_to(sql, binds, names[0]) == binds[0]);
    assert(bound_to(sql, binds, names[1]) == binds[1]);
    assert(bound_to(sql, binds, names[2]) == binds[2]);
    assert(bound_to(sql, binds, names[3]) == binds[3]);
    assert(bound_to(sql, binds, names[4]) == binds[4]);
}

/// A new promotion has its key, its placement, its index, its document, its priority and its
/// rules, each in its place.
pub proof fn lemma_new_promotion_bound(
    context: SearchProviderContext,
    input: CreatePromotionInput,
    rules: Json,
    id: i64,
    uuid: Seq<char>,
)
    ensures
        ({
            let sql = queries::PROMOTION_CREATE@;
            let binds = new_promotion_binds(context, input, rules, id, uuid);
            &&& binds_each(sql, binds)
            &&& bound_to(sql, binds, "id"@) == Bound::BigInt(id)
            &&& bound_to(sql, binds, "uuid"@) == Bound::Text(uuid)
            &&& bound_to(sql, binds, "tenant_id"@) == Bound::BigInt(context.tenant_id)
            &&& bound_to(sql, binds, "organization_id"@) == Bound::BigInt(context.organization_id)
            &&& bound_to(sql, binds, "promotion_key"@) == Bound::Text(input.promotion_key@)
            &&& bound_to(sql, binds, "placement"@) == Bound::Text(
                if input.placement is Top {
                    "top"@
                } else if input.placement is Inline {
                    "inline"@
                } else if input.placement is Banner {
                    "banner"@
                } else {
                    "sidebar"@
                },
            )
            &&& bound_to(sql, binds, "index_key"@) == Bound::Text(input.index_key@)
            &&& bound_to(sql, binds, "document_id"@) == Bound::Text(input.document_id@)
            &&& bound_to(sql, binds, "priority"@) == Bound::Integer(input.priority)
            &&& bound_to(sql, binds, "rule_json"@) == Bound::Json(rules)
        }),
{
    lemma_promotion_create();
    let sql = queries::PROMOTION_CREATE@;
    let names = seq![
        "id"@,
        "uuid"@,
        "tenant_id"@,
        "organization_id"@,
        "promotion_key"@,
        "placement"@,
        "index_key"@,
        "document_id"@,
        "priority"@,
        "rule_json"@,
    ];
    let binds = new_promotion_binds(context, input, rules, id, uuid);
    lemma_bound_in_place(sql, binds, names);
    assert(bound_to(sql, binds, names[0]) == binds[0]);
    assert(bound_to(sql, binds, names[1]) == binds[1]);
    assert(bound_to(sql, binds, names[2]) == binds[2]);
    assert(bound_to(sql, binds, names[3]) == binds[3]);
    assert(bound_to(sql, binds, names[4]) == binds[4]);
    assert(bound_to(sql, binds, names[5]) == binds[5]);
    assert(bound_to(sql, binds, names[6]) == binds[6]);
    assert(bound_to(sql, binds, names[7]) == binds[7]);
    assert(bound_to(sql, binds, names[8]) == binds[8]);
    assert(bound_to(sql, binds, names[9]) == binds[9]);
}

/// A promotion gets what the patch holds, each in its place; what the patch does not hold is
/// bound as null and so stays. One that is switched on has the status one, one that is switched
/// off zero.
pub proof fn lemma_changed_promotion_bound(
    context: SearchProviderContext,
    promotion_id: Seq<char>,
    patch: UpdatePromotionInput,
    rules: Option<Option<serde_json::Value>>,
)
    ensures
        ({
            let sql = queries::PROMOTION_UPDATE@;
            let binds = changed_promotion_binds(context, promotion_id, patch, rules);
            &&& binds_each(sql, binds)
            &&& bound_to(sql, binds, "placement"@) == Bound::OptionalText(
                if patch.placement is None {
                    None
                } else if patch.placement->0 is Top {
                    Some("top"@)
                } else if patch.placement->0 is Inline {
                    Some("inline"@)
                } else if patch.placement->0 is Banner {
                    Some("banner"@)
                } else {
                    Some("sidebar"@)
                },
            )
            &&& bound_to(sql, binds, "document_id"@) == Bound::OptionalText(
                if patch.document_id is Some {
                    Some(patch.document_id->0@)
                } else {
                    None
                },
            )
            &&& bound_to(sql, binds, "priority"@) == Bound::OptionalInteger(patch.priority)
            &&& bound_to(sql, binds, "rule_json"@) == Bound::OptionalJson(
                if rules is None {
                    None
                } else if rules->0 is Some {
                    Some(json(rules->0->0))
                } else {
                    Some(Json::Array(Seq::<Json>::empty()))
                },
            )
            &&& bound_to(sql, binds, "status"@) == Bound::OptionalInteger(
                if patch.enabled is None {
                    None
                } else if patch.enabled->0 {
                    Some(1i32)
                } else {
                    Some(0i32)
                },
            )
            &&& bound_to(sql, binds, "active_from"@) == Bound::OptionalMoment(patch.start_at)
            &&& bound_to(sql, binds, "active_until"@) == Bound::OptionalMoment(patch.end_at)
            &&& bound_to(sql, binds, "tenant_id"@) == Bound::BigInt(context.tenant_id)
            &&& bound_to(sql, binds, "organization_id"@) == Bound::BigInt(context.organization_id)
            &&& bound_to(sql, binds, "promotion_key"@) == Bound::Text(promotion_id)
        }),
{
    lemma_promotion_update();
    let sql = queries::PROMOTION_UPDATE@;
    let names = seq![
        "placement"@,
        "document_id"@,
        "priority"@,
        "rule_json"@,
        "status"@,
        "active_from"@,
        "active_until"@,
        "tenant_id"@,
        "organization_id"@,
        "promotion_key"@,
    ];
    let binds = changed_promotion_binds(context, promotion_id, patch, rules);
    lemma_bound_in_place(sql, binds, names);
    assert(bound_to(sql, binds, names[0]) == binds[0]);
    assert(bound_to(sql, binds, names[1]) == binds[1]);
    assert(bound_to(sql, binds, names[2]) == binds[2]);
    assert(bound_to(sql, binds, names[3]) == binds[3]);
    assert(bound_to(sql, binds, names[4]) == binds[4]);
    assert(bound_to(sql, binds, names[5]) == binds[5]);
    assert(bound_to(sql, binds, names[6]) == binds[6]);
    assert(bound_to(sql, binds, names[7]) == binds[7]);
    assert(bound_to(sql, binds, names[8]) == binds[8]);
    assert(bound_to(sql, binds, names[9]) == binds[9]);
}

/// A document is looked for by its names, for its tenant and its organization.
pub proof fn lemma_document_bound(
    tenant_id: i64,
    organization_id: i64,
    index_key: Seq<char>,
    document_id: Seq<char>,
)
    ensures
        ({
            let sql = queries::DOCUMENT_GET@;
            let binds = document_binds(tenant_id, organization_id, index_key, document_id);
            &&& binds_each(sql, binds)
            &&& bound_to(sql, binds, "tenant_id"@) == Bound::BigInt(tenant_id)
            &&& bound_to(sql, binds, "organization_id"@) == Bound::BigInt(organization_id)
            &&& bound_to(sql, binds, "index_key"@) == Bound::Text(index_key)
            &&& bound_to(sql, binds, "document_id"@) == Bound::Text(document_id)
        }),
{
    lemma_document_get();
    let sql = queries::DOCUMENT_GET@;
    let names = seq!["tenant_id"@, "organization_id"@, "index_key"@, "document_id"@];
    let binds = document_binds(tenant_id, organization_id, index_key, document_id);
    lemma_bound_in_place(sql, binds, names);
    assert(bound_to(sql, binds, names[0]) == binds[0]);
    assert(bound_to(sql, binds, names[1]) == binds[1]);
    assert(bound_to(sql, binds, names[2]) == binds[2]);
    assert(bound_to(sql, binds, names[3]) == binds[3]);
}

/// A document is deleted by its names, for its tenant and its organization, in the name of the
/// user.
pub proof fn lemma_deleted_document_bound(
    deleted_by: Option<i64>,
    tenant_id: i64,
    organization_id: i64,
    index_key: Seq<char>,
    document_id: Seq<char>,
)
    ensures
        ({
            let sql = queries::DOCUMENT_DELETE@;
            let binds = seq![Bound::OptionalBigInt(deleted_by)] + document_binds(
                tenant_id,
                organization_id,
                index_key,
                document_id,
            );
            &&& binds_each(sql, binds)
            &&& bound_to(sql, binds, "deleted_by"@) == Bound::OptionalBigInt(deleted_by)
            &&& bound_to(sql, binds, "tenant_id"@) == Bound::BigInt(tenant_id)
            &&& bound_to(sql, binds, "organization_id"@) == Bound::BigInt(organization_id)
            &&& bound_to(sql, binds, "index_key"@) == Bound::Text(index_key)
            &&& bound_to(sql, binds, "document_id"@) == Bound::Text(document_id)
        }),
{
    lemma_document_delete();
    let sql = queries::DOCUMENT_DELETE@;
    let names = seq![
        "deleted_by"@,
        "tenant_id"@,
        "organization_id"@,
        "index_key"@,
        "document_id"@,
    ];
    let binds = seq![Bound::OptionalBigInt(deleted_by)] + document_binds(
        tenant_id,
        organization_id,
        index_key,
        document_id,
    );
    lemma_bound_in_place(sql, binds, names);
    assert(bound_to(sql, binds, names[0]) == binds[0]);
    assert(bound_to(sql, binds, names[1]) == binds[1]);
    assert(bound_to(sql, binds, names[2]) == binds[2]);
    assert(bound_to(sql, binds, names[3]) == binds[3]);
    assert(bound_to(sql, binds, names[4]) == binds[4]);
}

/// Documents are counted in one index.
pub proof fn lemma_count_bound(tenant_id: i64, organization_id: i64, index_key: Seq<char>)
    ensures
        ({
            let sql = queries::DOCUMENT_COUNT@;
            let binds = index_binds(tenant_id, organization_id, index_key);
            &&& binds_each(sql, binds)
            &&& bound_to(sql, binds, "tenant_id"@) == Bound::BigInt(tenant_id)
            &&& bound_to(sql, binds, "organization_id"@) == Bound::BigInt(organization_id)
            &&& bound_to(sql, binds, "index_key"@) == Bound::Text(index_key)
        }),
{
    lemma_document_count();
    let sql = queries::DOCUMENT_COUNT@;
    let names = seq!["tenant_id"@, "organization_id"@, "index_key"@];
    let binds = index_binds(tenant_id, organization_id, index_key);
    lemma_bound_in_place(sql, binds, names);
    assert(bound_to(sql, binds, names[0]) == binds[0]);
    assert(bound_to(sql, binds, names[1]) == binds[1]);
    assert(bound_to(sql, binds, names[2]) == binds[2]);
}

/// The statistics are those of one index.
pub proof fn lemma_stats_bound(tenant_id: i64, organization_id: i64, index_key: Seq<char>)
    ensures
        ({
            let sql = queries::DOCUMENT_STATS@;
            let binds = index_binds(tenant_id, organization_id, index_key);
            &&& binds_each(sql, binds)
            &&& bound_to(sql, binds, "tenant_id"@) == Bound::BigInt(tenant_id)
            &&& bound_to(sql, binds, "organization_id"@) == Bound::BigInt(organization_id)
            &&& bound_to(sql, binds, "index_key"@) == Bound::Text(index_key)
        }),
{
    lemma_document_stats();
    let sql = queries::DOCUMENT_STATS@;
    let names = seq!["tenant_id"@, "organization_id"@, "index_key"@];
    let binds = index_binds(tenant_id, organization_id, index_key);
    lemma_bound_in_place(sql, binds, names);
    assert(bound_to(sql, binds, names[0]) == binds[0]);
    assert(bound_to(sql, binds, names[1]) == binds[1]);
    assert(bound_to(sql, binds, names[2]) == binds[2]);
}

/// An index is looked for by its key.
pub proof fn lemma_index_bound(tenant_id: i64, organization_id: i64, index_key: Seq<char>)
    ensures
        ({
            let sql = queries::INDEX_GET_BY_KEY@;
            let binds = index_binds(tenant_id, organization_id, index_key);
            &&& binds_each(sql, binds)
            &&& bound_to(sql, binds, "tenant_id"@) == Bound::BigInt(tenant_id)
            &&& bound_to(sql, binds, "organization_id"@) == Bound::BigInt(organization_id)
            &&& bound_to(sql, binds, "index_key"@) == Bound::Text(index_key)
        }),
{
    lemma_index_get_by_key();
    let sql = queries::INDEX_GET_BY_KEY@;
    let names = seq!["tenant_id"@, "organization_id"@, "index_key"@];
    let binds = index_binds(tenant_id, organization_id, index_key);
    lemma_bound_in_place(sql, binds, names);
    assert(bound_to(sql, binds, names[0]) == binds[0]);
    assert(bound_to(sql, binds, names[1]) == binds[1]);
    assert(bound_to(sql, binds, names[2]) == binds[2]);
}

/// A page of documents is of one index; it has the size that is asked for, or one, and starts
/// behind the pages before it.
pub proof fn lemma_document_page_bound(
    tenant_id: i64,
    organization_id: i64,
    index_key: Seq<char>,
    page: u32,
    page_size: u32,
)
    ensures
        ({
            let sql = queries::DOCUMENT_LIST@;
            let binds = index_binds(tenant_id, organization_id, index_key) + page_binds(
                page,
                page_size,
            );
            &&& binds_each(sql, binds)
            &&& bound_to(sql, binds, "tenant_id"@) == Bound::BigInt(tenant_id)
            &&& bound_to(sql, binds, "organization_id"@) == Bound::BigInt(organization_id)
            &&& bound_to(sql, binds, "index_key"@) == Bound::Text(index_key)
            &&& bound_to(sql, binds, "limit"@) == Bound::BigInt(
                if page_size == 0 {
                    1
                } else {
                    page_size as i64
                },
            )
            &&& bound_to(sql, binds, "offset"@) == Bound::BigInt(
                (if page == 0 {
                    0
                } else {
                    (page - 1) * (if page_size == 0 {
                        1
                    } else {
                        page_size as int
                    })
                }) as i64,
            )
        }),
{
    lemma_document_list();
    let sql = queries::DOCUMENT_LIST@;
    let names = seq!["tenant_id"@, "organization_id"@, "index_key"@, "limit"@, "offset"@];
    let binds = index_binds(tenant_id, organization_id, index_key) + page_binds(
        page,
        page_size,
    );
    assert(0 * crate::search::at_least_one(page_size as int) == 0) by (nonlinear_arith);
    lemma_bound_in_place(sql, binds, names);
    assert(bound_to(sql, binds, names[0]) == binds[0]);
    assert(bound_to(sql, binds, names[1]) == binds[1]);
    assert(bound_to(sql, binds, names[2]) == binds[2]);
    assert(bound_to(sql, binds, names[3]) == binds[3]);
    assert(bound_to(sql, binds, names[4]) == binds[4]);
}

/// A page of promotions is of one index; it has the size that is asked for, or one, and starts
/// behind the pages before it.
pub proof fn lemma_promotion_page_bound(
    tenant_id: i64,
    organization_id: i64,
    index_key: Seq<char>,
    page: u32,
    page_size: u32,
)
    ensures
        ({
            let sql = queries::PROMOTION_LIST_ALL@;
            let binds = index_binds(tenant_id, organization_id, index_key) + page_binds(
                page,
                page_size,
            );
            &&& binds_each(sql, binds)
            &&& bound_to(sql, binds, "tenant_id"@) == Bound::BigInt(tenant_id)
            &&& bound_to(sql, binds, "organization_id"@) == Bound::BigInt(organization_id)
            &&& bound_to(sql, binds, "index_key"@) == Bound::Text(index_key)
            &&& bound_to(sql, binds, "limit"@) == Bound::BigInt(
                if page_size == 0 {
                    1
                } else {
                    page_size as i64
                },
            )
            &&& bound_to(sql, binds, "offset"@) == Bound::BigInt(
                (if page == 0 {
                    0
                } else {
                    (page - 1) * (if page_size == 0 {
                        1
                    } else {
                        page_size as int
                    })
                }) as i64,
            )
        }),
{
    lemma_promotion_list_all();
    let sql = queries::PROMOTION_LIST_ALL@;
    let names = seq!["tenant_id"@, "organization_id"@, "index_key"@, "limit"@, "offset"@];
    let binds = index_binds(tenant_id, organization_id, index_key) + page_binds(
        page,
        page_size,
    );
    assert(0 * crate::search::at_least_one(page_size as int) == 0) by (nonlinear_arith);
    lemma_bound_in_place(sql, binds, names);
    assert(bound_to(sql, binds, names[0]) == binds[0]);
    assert(bound_to(sql, binds, names[1]) == binds[1]);
    assert(bound_to(sql, binds, names[2]) == binds[2]);
    assert(bound_to(sql, binds, names[3]) == binds[3]);
    assert(bound_to(sql, binds, names[4]) == binds[4]);
}

/// What is trending is counted in one index, and no more of it than asked for.
pub proof fn lemma_trending_bound(
    tenant_id: i64,
    organization_id: i64,
    index_key: Seq<char>,
    limit: u32,
)
    ensures
        ({
            let sql = queries::USER_EVENT_TRENDING@;
            let binds = index_binds(tenant_id, organization_id, index_key).push(
                Bound::BigInt(limit as i64),
            );
            &&& binds_each(sql, binds)
            &&& bound_to(sql, binds, "tenant_id"@) == Bound::BigInt(tenant_id)
            &&& bound_to(sql, binds, "organization_id"@) == Bound::BigInt(organization_id)
            &&& bound_to(sql, binds, "index_key"@) == Bound::Text(index_key)
            &&& bound_to(sql, binds, "limit"@) == Bound::BigInt(limit as i64)
        }),
{
    lemma_user_event_trending();
    let sql = queries::USER_EVENT_TRENDING@;
    let names = seq!["tenant_id"@, "organization_id"@, "index_key"@, "limit"@];
    let binds = index_binds(tenant_id, organization_id, index_key).push(
        Bound::BigInt(limit as i64),
    );
    lemma_bound_in_place(sql, binds, names);
    assert(bound_to(sql, binds, names[0]) == binds[0]);
    assert(bound_to(sql, binds, names[1]) == binds[1]);
    assert(bound_to(sql, binds, names[2]) == binds[2]);
    assert(bound_to(sql, binds, names[3]) == binds[3]);
}

/// A promotion is looked for by its key.
pub proof fn lemma_promotion_bound(tenant_id: i64, organization_id: i64, promotion_key: Seq<char>)
    ensures
        ({
            let sql = queries::PROMOTION_GET@;
            let binds = promotion_binds(tenant_id, organization_id, promotion_key);
            &&& binds_each(sql, binds)
            &&& bound_to(sql, binds, "tenant_id"@) == Bound::BigInt(tenant_id)
            &&& bound_to(sql, binds, "organization_id"@) == Bound::BigInt(organization_id)
            &&& bound_to(sql, binds, "promotion_key"@) == Bound::Text(promotion_key)
        }),
{
    lemma_promotion_get();
    let sql = queries::PROMOTION_GET@;
    let names = seq!["tenant_id"@, "organization_id"@, "promotion_key"@];
    let binds = promotion_binds(tenant_id, organization_id, promotion_key);
    lemma_bound_in_place(sql, binds, names);
    assert(bound_to(sql, binds, names[0]) == binds[0]);
    assert(bound_to(sql, binds, names[1]) == binds[1]);
    assert(bound_to(sql, binds, names[2]) == binds[2]);
}

/// The deliveries and clicks that are counted are those of one promotion.
pub proof fn lemma_promotion_stats_bound(
    tenant_id: i64,
    organization_id: i64,
    promotion_key: Seq<char>,
)
    ensures
        ({
            let sql = queries::PROMOTION_STATS@;
            let binds = promotion_binds(tenant_id, organization_id, promotion_key);
            &&& binds_each(sql, binds)
            &&& bound_to(sql, binds, "tenant_id"@) == Bound::BigInt(tenant_id)
            &&& bound_to(sql, binds, "organization_id"@) == Bound::BigInt(organization_id)
            &&& bound_to(sql, binds, "promotion_id"@) == Bound::Text(promotion_key)
        }),
{
    lemma_promotion_stats();
    let sql = queries::PROMOTION_STATS@;
    let names = seq!["tenant_id"@, "organization_id"@, "promotion_id"@];
    let binds = promotion_binds(tenant_id, organization_id, promotion_key);
    lemma_bound_in_place(sql, binds, names);
    assert(bound_to(sql, binds, names[0]) == binds[0]);
    assert(bound_to(sql, binds, names[1]) == binds[1]);
    assert(bound_to(sql, binds, names[2]) == binds[2]);
}

/// A promotion is deleted by its key, for its tenant and its organization, in the name of the
/// user.
pub proof fn lemma_deleted_promotion_bound(
    deleted_by: Option<i64>,
    tenant_id: i64,
    organization_id: i64,
    promotion_key: Seq<char>,
)
    ensures
        ({
            let sql = queries::PROMOTION_DELETE@;
            let binds = seq![Bound::OptionalBigInt(deleted_by)] + promotion_binds(
                tenant_id,
                organization_id,
                promotion_key,
            );
            &&& binds_each(sql, binds)
            &&& bound_to(sql, binds, "deleted_by"@) == Bound::OptionalBigInt(deleted_by)
            &&& bound_to(sql, binds, "tenant_id"@) == Bound::BigInt(tenant_id)
            &&& bound_to(sql, binds, "organization_id"@) == Bound::BigInt(organization_id)
            &&& bound_to(sql, binds, "promotion_key"@) == Bound::Text(promotion_key)
        }),
{
    lemma_promotion_delete();
    let sql = queries::PROMOTION_DELETE@;
    let names = seq!["deleted_by"@, "tenant_id"@, "organization_id"@, "promotion_key"@];
    let binds = seq![Bound::OptionalBigInt(deleted_by)] + promotion_binds(
        tenant_id,
        organization_id,
        promotion_key,
    );
    lemma_bound_in_place(sql, binds, names);
    assert(bound_to(sql, binds, names[0]) == binds[0]);
    assert(bound_to(sql, binds, names[1]) == binds[1]);
    assert(bound_to(sql, binds, names[2]) == binds[2]);
    assert(bound_to(sql, binds, names[3]) == binds[3]);
}

/// An event of a promotion is written for its user, with its type and its promotion, and
/// without more.
pub proof fn lemma_promotion_event_bound(
    id: i64,
    uuid: Seq<char>,
    tenant_id: i64,
    organization_id: i64,
    user_id: i64,
    event_type: Seq<char>,
    promotion_id: Seq<char>,
)
    ensures
        ({
            let sql = queries::PROMOTION_EVENT_INSERT@;
            let binds = promotion_event_binds(
                id,
                uuid,
                tenant_id,
                organization_id,
                user_id,
                event_type,
                promotion_id,
            );
            &&& binds_each(sql, binds)
            &&& bound_to(sql, binds, "id"@) == Bound::BigInt(id)
            &&& bound_to(sql, binds, "uuid"@) == Bound::Text(uuid)
            &&& bound_to(sql, binds, "tenant_id"@) == Bound::BigInt(tenant_id)
            &&& bound_to(sql, binds, "organization_id"@) == Bound::BigInt(organization_id)
            &&& bound_to(sql, binds, "user_id"@) == Bound::BigInt(user_id)
            &&& bound_to(sql, binds, "event_type"@) == Bound::Text(event_type)
            &&& bound_to(sql, binds, "promotion_id"@) == Bound::Text(promotion_id)
            &&& bound_to(sql, binds, "metadata_json"@) == Bound::Json(Json::Object(Map::<Seq<char>, Json>::empty()))
        }),
{
    lemma_promotion_event_insert();
    let sql = queries::PROMOTION_EVENT_INSERT@;
    let names = seq![
        "id"@,
        "uuid"@,
        "tenant_id"@,
        "organization_id"@,
        "user_id"@,
        "event_type"@,
        "promotion_id"@,
        "metadata_json"@,
    ];
    let binds = promotion_event_binds(
        id,
        uuid,
        tenant_id,
        organization_id,
        user_id,
        event_type,
        promotion_id,
    );
    lemma_bound_in_place(sql, binds, names);
    assert(bound_to(sql, binds, names[0]) == binds[0]);
    assert(bound_to(sql, binds, names[1]) == binds[1]);
    assert(bound_to(sql, binds, names[2]) == binds[2]);
    assert(bound_to(sql, binds, names[3]) == binds[3]);
    assert(bound_to(sql, binds, names[4]) == binds[4]);
    assert(bound_to(sql, binds, names[5]) == binds[5]);
    assert(bound_to(sql, binds, names[6]) == binds[6]);
    assert(bound_to(sql, binds, names[7]) == binds[7]);
}

/// The values of a new index are each written in its column.
pub proof fn lemma_created_index_bound(params: CreateIndexParams, uuid: Seq<char>)
    ensures
        ({
            let sql = queries::INDEX_CREATE@;
            let binds = create_index_binds(params, uuid);
            &&& binds_each(sql, binds)
            &&& bound_to(sql, binds, "id"@) == Bound::BigInt(params.id)
            &&& bound_to(sql, binds, "uuid"@) == Bound::Text(uuid)
            &&& bound_to(sql, binds, "tenant_id"@) == Bound::BigInt(params.tenant_id)
            &&& bound_to(sql, binds, "organization_id"@) == Bound::BigInt(params.organization_id)
            &&& bound_to(sql, binds, "index_key"@) == Bound::Text(params.index_key@)
            &&& bound_to(sql, binds, "title"@) == Bound::Text(params.title@)
            &&& bound_to(sql, binds, "description"@) == Bound::OptionalText(
                if params.description is Some {
                    Some(params.description->0@)
                } else {
                    None
                },
            )
            &&& bound_to(sql, binds, "config_json"@) == Bound::Json(json(params.config_json))
        }),
{
    lemma_index_create();
    let sql = queries::INDEX_CREATE@;
    let names = seq![
        "id"@,
        "uuid"@,
        "tenant_id"@,
        "organization_id"@,
        "index_key"@,
        "title"@,
        "description"@,
        "config_json"@,
    ];
    let binds = create_index_binds(params, uuid);
    lemma_bound_in_place(sql, binds, names);
    assert(bound_to(sql, binds, names[0]) == binds[0]);
    assert(bound_to(sql, binds, names[1]) == binds[1]);
    assert(bound_to(sql, binds, names[2]) == binds[2]);
    assert(bound_to(sql, binds, names[3]) == binds[3]);
    assert(bound_to(sql, binds, names[4]) == binds[4]);
    assert(bound_to(sql, binds, names[5]) == binds[5]);
    assert(bound_to(sql, binds, names[6]) == binds[6]);
    assert(bound_to(sql, binds, names[7]) == binds[7]);
}

/// The values of a new job are each written in its column.
pub proof fn lemma_created_job_bound(params: CreateIndexJobParams, uuid: Seq<char>)
    ensures
        ({
            let sql = queries::JOB_CREATE@;
            let binds = create_index_job_binds(params, uuid);
            &&& binds_each(sql, binds)
            &&& bound_to(sql, binds, "id"@) == Bound::BigInt(params.id)
            &&& bound_to(sql, binds, "uuid"@) == Bound::Text(uuid)
            &&& bound_to(sql, binds, "tenant_id"@) == Bound::BigInt(params.tenant_id)
            &&& bound_to(sql, binds, "organization_id"@) == Bound::BigInt(params.organization_id)
            &&& bound_to(sql, binds, "index_key"@) == Bound::Text(params.index_key@)
            &&& bound_to(sql, binds, "job_type"@) == Bound::Text(params.job_type@)
            &&& bound_to(sql, binds, "payload_json"@) == Bound::Json(json(params.payload_json))
        }),
{
    lemma_job_create();
    let sql = queries::JOB_CREATE@;
    let names = seq![
        "id"@,
        "uuid"@,
        "tenant_id"@,
        "organization_id"@,
        "index_key"@,
        "job_type"@,
        "payload_json"@,
    ];
    let binds = create_index_job_binds(params, uuid);
    lemma_bound_in_place(sql, binds, names);
    assert(bound_to(sql, binds, names[0]) == binds[0]);
    assert(bound_to(sql, binds, names[1]) == binds[1]);
    assert(bound_to(sql, binds, names[2]) == binds[2]);
    assert(bound_to(sql, binds, names[3]) == binds[3]);
    assert(bound_to(sql, binds, names[4]) == binds[4]);
    assert(bound_to(sql, binds, names[5]) == binds[5]);
    assert(bound_to(sql, binds, names[6]) == binds[6]);
}

/// The values of a document are each written in its column.
pub proof fn lemma_written_document_bound(params: UpsertDocumentParams, uuid: Seq<char>)
    ensures
        ({
            let sql = queries::DOCUMENT_UPSERT@;
            let binds = upsert_document_binds(params, uuid);
            &&& binds_each(sql, binds)
            &&& bound_to(sql, binds, "id"@) == Bound::BigInt(params.id)
            &&& bound_to(sql, binds, "uuid"@) == Bound::Text(uuid)
            &&& bound_to(sql, binds, "tenant_id"@) == Bound::BigInt(params.tenant_id)
            &&& bound_to(sql, binds, "organization_id"@) == Bound::BigInt(params.organization_id)
            &&& bound_to(sql, binds, "index_id"@) == Bound::BigInt(params.index_id)
            &&& bound_to(sql, binds, "index_key"@) == Bound::Text(params.index_key@)
            &&& bound_to(sql, binds, "document_id"@) == Bound::Text(params.document_id@)
            &&& bound_to(sql, binds, "capability"@) == Bound::OptionalText(
                if params.capability is Some {
                    Some(params.capability->0@)
                } else {
                    None
                },
            )
            &&& bound_to(sql, binds, "scope"@) == Bound::Text(params.scope@)
            &&& bound_to(sql, binds, "group_key"@) == Bound::OptionalText(
                if params.group_key is Some {
                    Some(params.group_key->0@)
                } else {
                    None
                },
            )
            &&& bound_to(sql, binds, "group_title"@) == Bound::OptionalText(
                if params.group_title is Some {
                    Some(params.group_title->0@)
                } else {
                    None
                },
            )
            &&& bound_to(sql, binds, "source_ref"@) == Bound::OptionalText(
                if params.source_ref is Some {
                    Some(params.source_ref->0@)
                } else {
                    None
                },
            )
            &&& bound_to(sql, binds, "title"@) == Bound::Text(params.title@)
            &&& bound_to(sql, binds, "body_text"@) == Bound::OptionalText(
                if params.body_text is Some {
                    Some(params.body_text->0@)
                } else {
                    None
                },
            )
            &&& bound_to(sql, binds, "keyword_text"@) == Bound::OptionalText(
                if params.keyword_text is Some {
                    Some(params.keyword_text->0@)
                } else {
                    None
                },
            )
            &&& bound_to(sql, binds, "payload_json"@) == Bound::Json(json(params.payload_json))
            &&& bound_to(sql, binds, "token_json"@) == Bound::Json(json(params.token_json))
            &&& bound_to(sql, binds, "embedding_json"@) == Bound::Json(json(params.embedding_json))
            &&& bound_to(sql, binds, "status"@) == Bound::Integer(params.status)
            &&& bound_to(sql, binds, "data_scope"@) == Bound::Integer(params.data_scope)
        }),
{
    lemma_document_upsert();
    let sql = queries::DOCUMENT_UPSERT@;
    let names = seq![
        "id"@,
        "uuid"@,
        "tenant_id"@,
        "organization_id"@,
        "index_id"@,
        "index_key"@,
        "document_id"@,
        "capability"@,
        "scope"@,
        "group_key"@,
        "group_title"@,
        "source_ref"@,
        "title"@,
        "body_text"@,
        "keyword_text"@,
        "payload_json"@,
        "token_json"@,
        "embedding_json"@,
        "status"@,
        "data_scope"@,
    ];
    let binds = upsert_document_binds(params, uuid);
    lemma_bound_in_place(sql, binds, names);
    assert(bound_to(sql, binds, names[0]) == binds[0]);
    assert(bound_to(sql, binds, names[1]) == binds[1]);
    assert(bound_to(sql, binds, names[2]) == binds[2]);
    assert(bound_to(sql, binds, names[3]) == binds[3]);
    assert(bound_to(sql, binds, names[4]) == binds[4]);
    assert(bound_to(sql, binds, names[5]) == binds[5]);
    assert(bound_to(sql, binds, names[6]) == binds[6]);
    assert(bound_to(sql, binds, names[7]) == binds[7]);
    assert(bound_to(sql, binds, names[8]) == binds[8]);
    assert(bound_to(sql, binds, names[9]) == binds[9]);
    assert(bound_to(sql, binds, names[10]) == binds[10]);
    assert(bound_to(sql, binds, names[11]) == binds[11]);
    assert(bound_to(sql, binds, names[12]) == binds[12]);
    assert(bound_to(sql, binds, names[13]) == binds[13]);
    assert(bound_to(sql, binds, names[14]) == binds[14]);
    assert(bound_to(sql, binds, names[15]) == binds[15]);
    assert(bound_to(sql, binds, names[16]) == binds[16]);
    assert(bound_to(sql, binds, names[17]) == binds[17]);
    assert(bound_to(sql, binds, names[18]) == binds[18]);
    assert(bound_to(sql, binds, names[19]) == binds[19]);
}

/// The values of an event are each written in its column.
pub proof fn lemma_recorded_event_bound(params: RecordUserEventParams, uuid: Seq<char>)
    ensures
        ({
            let sql = queries::USER_EVENT_RECORD@;
            let binds = record_event_binds(params, uuid);
            &&& binds_each(sql, binds)
            &&& bound_to(sql, binds, "id"@) == Bound::BigInt(params.id)
            &&& bound_to(sql, binds, "uuid"@) == Bound::Text(uuid)
            &&& bound_to(sql, binds, "tenant_id"@) == Bound::BigInt(params.tenant_id)
            &&& bound_to(sql, binds, "organization_id"@) == Bound::BigInt(params.organization_id)
            &&& bound_to(sql, binds, "user_id"@) == Bound::BigInt(params.user_id)
            &&& bound_to(sql, binds, "event_type"@) == Bound::Text(params.event_type@)
            &&& bound_to(sql, binds, "surface"@) == Bound::Text(params.surface@)
            &&& bound_to(sql, binds, "index_key"@) == Bound::OptionalText(
                if params.index_key is Some {
                    Some(params.index_key->0@)
                } else {
                    None
                },
            )
            &&& bound_to(sql, binds, "document_id"@) == Bound::OptionalText(
                if params.document_id is Some {
                    Some(params.document_id->0@)
                } else {
                    None
                },
            )
            &&& bound_to(sql, binds, "placement"@) == Bound::OptionalText(
                if params.placement is Some {
                    Some(params.placement->0@)
                } else {
                    None
                },
            )
            &&& bound_to(sql, binds, "q"@) == Bound::OptionalText(
                if params.q is Some {
                    Some(params.q->0@)
                } else {
                    None
                },
            )
            &&& bound_to(sql, binds, "result_position"@) == Bound::OptionalInteger(params.result_position)
            &&& bound_to(sql, binds, "request_id"@) == Bound::OptionalText(
                if params.request_id is Some {
                    Some(params.request_id->0@)
                } else {
                    None
                },
            )
            &&& bound_to(sql, binds, "metadata_json"@) == Bound::Json(json(params.metadata_json))
        }),
{
    lemma_user_event_record();
    let sql = queries::USER_EVENT_RECORD@;
    let names = seq![
        "id"@,
        "uuid"@,
        "tenant_id"@,
        "organization_id"@,
        "user_id"@,
        "event_type"@,
        "surface"@,
        "index_key"@,
        "document_id"@,
        "placement"@,
        "q"@,
        "result_position"@,
        "request_id"@,
        "metadata_json"@,
    ];
    let binds = record_event_binds(params, uuid);
    lemma_bound_in_place(sql, binds, names);
    assert(bound_to(sql, binds, names[0]) == binds[0]);
    assert(bound_to(sql, binds, names[1]) == binds[1]);
    assert(bound_to(sql, binds, names[2]) == binds[2]);
    assert(bound_to(sql, binds, names[3]) == binds[3]);
    assert(bound_to(sql, binds, names[4]) == binds[4]);
    assert(bound_to(sql, binds, names[5]) == binds[5]);
    assert(bound_to(sql, binds, names[6]) == binds[6]);
    assert(bound_to(sql, binds, names[7]) == binds[7]);
    assert(bound_to(sql, binds, names[8]) == binds[8]);
    assert(bound_to(sql, binds, names[9]) == binds[9]);
    assert(bound_to(sql, binds, names[10]) == binds[10]);
    assert(bound_to(sql, binds, names[11]) == binds[11]);
    assert(bound_to(sql, binds, names[12]) == binds[12]);
    assert(bound_to(sql, binds, names[13]) == binds[13]);
}

/// The values of a query are each written in its column.
pub proof fn lemma_recent_query_bound(params: UpsertRecentQueryParams, uuid: Seq<char>)
    ensures
        ({
            let sql = queries::RECENT_QUERY_UPSERT@;
            let binds = recent_query_binds(params, uuid);
            &&& binds_each(sql, binds)
            &&& bound_to(sql, binds, "id"@) == Bound::BigInt(params.id)
            &&& bound_to(sql, binds, "uuid"@) == Bound::Text(uuid)
            &&& bound_to(sql, binds, "tenant_id"@) == Bound::BigInt(params.tenant_id)
            &&& bound_to(sql, binds, "organization_id"@) == Bound::BigInt(params.organization_id)
            &&& bound_to(sql, binds, "user_id"@) == Bound::BigInt(params.user_id)
            &&& bound_to(sql, binds, "index_key"@) == Bound::Text(params.index_key@)
            &&& bound_to(sql, binds, "q"@) == Bound::Text(params.q@)
            &&& bound_to(sql, binds, "result_count"@) == Bound::Integer(params.result_count)
        }),
{
    lemma_recent_query_upsert();
    let sql = queries::RECENT_QUERY_UPSERT@;
    let names = seq![
        "id"@,
        "uuid"@,
        "tenant_id"@,
        "organization_id"@,
        "user_id"@,
        "index_key"@,
        "q"@,
        "result_count"@,
    ];
    let binds = recent_query_binds(params, uuid);
    lemma_bound_in_place(sql, binds, names);
    assert(bound_to(sql, binds, names[0]) == binds[0]);
    assert(bound_to(sql, binds, names[1]) == binds[1]);
    assert(bound_to(sql, binds, names[2]) == binds[2]);
    assert(bound_to(sql, binds, names[3]) == binds[3]);
    assert(bound_to(sql, binds, names[4]) == binds[4]);
    assert(bound_to(sql, binds, names[5]) == binds[5]);
    assert(bound_to(sql, binds, names[6]) == binds[6]);
    assert(bound_to(sql, binds, names[7]) == binds[7]);
}

/// The values of a new promotion are each written in its column.
pub proof fn lemma_created_promotion_bound(params: CreatePromotionParams, uuid: Seq<char>)
    ensures
        ({
            let sql = queries::PROMOTION_CREATE@;
            let binds = create_promotion_binds(params, uuid);
            &&& binds_each(sql, binds)
            &&& bound_to(sql, binds, "id"@) == Bound::BigInt(params.id)
            &&& bound_to(sql, binds, "uuid"@) == Bound::Text(uuid)
            &&& bound_to(sql, binds, "tenant_id"@) == Bound::BigInt(params.tenant_id)
            &&& bound_to(sql, binds, "organization_id"@) == Bound::BigInt(params.organization_id)
            &&& bound_to(sql, binds, "promotion_key"@) == Bound::Text(params.promotion_key@)
            &&& bound_to(sql, binds, "placement"@) == Bound::Text(params.placement@)
            &&& bound_to(sql, binds, "index_key"@) == Bound::Text(params.index_key@)
            &&& bound_to(sql, binds, "document_id"@) == Bound::Text(params.document_id@)
            &&& bound_to(sql, binds, "priority"@) == Bound::Integer(params.priority)
            &&& bound_to(sql, binds, "rule_json"@) == Bound::Json(json(params.rule_json))
        }),
{
    lemma_promotion_create();
    let sql = queries::PROMOTION_CREATE@;
    let names = seq![
        "id"@,
        "uuid"@,
        "tenant_id"@,
        "organization_id"@,
        "promotion_key"@,
        "placement"@,
        "index_key"@,
        "document_id"@,
        "priority"@,
        "rule_json"@,
    ];
    let binds = create_promotion_binds(params, uuid);
    lemma_bound_in_place(sql, binds, names);
    assert(bound_to(sql, binds, names[0]) == binds[0]);
    assert(bound_to(sql, binds, names[1]) == binds[1]);
    assert(bound_to(sql, binds, names[2]) == binds[2]);
    assert(bound_to(sql, binds, names[3]) == binds[3]);
    assert(bound_to(sql, binds, names[4]) == binds[4]);
    assert(bound_to(sql, binds, names[5]) == binds[5]);
    assert(bound_to(sql, binds, names[6]) == binds[6]);
    assert(bound_to(sql, binds, names[7]) == binds[7]);
    assert(bound_to(sql, binds, names[8]) == binds[8]);
    assert(bound_to(sql, binds, names[9]) == binds[9]);
}

} // verus!
