//! Writing documents and indexes: the statements of the PostgreSQL provider.
use vstd::prelude::*;

use crate::ids::{new_uuid, random_uuid_text};
use crate::json::{
    add_missing_text, array_value, fields, json, jsons, object_value, with_missing_text, Json,
};
use crate::provider_sql::{
    CREATE_INDEX, DELETE_DOCUMENT, DROP_INDEX, INDEX_DOCUMENT, MERGE_DOCUMENT, REPLACE_DOCUMENT,
};
use crate::spi::{indexing_error, SearchProviderContext, SearchProviderError};
use crate::statement::{BindValue, Bound, Statement};
use crate::text::{join, joined, optional_view, views};

verus! {

/// A document to write. The embedding is given by the JSON numbers of its vector.
#[derive(Debug)]
pub struct IndexDocument {
    pub index_key: String,
    pub document_id: String,
    pub title: Option<String>,
    pub content: Option<String>,
    pub tags: Vec<String>,
    pub source: serde_json::Value,
    pub embedding: Vec<serde_json::Value>,
    pub drive_space_id: Option<String>,
    pub drive_node_id: Option<String>,
}

/// New payload fields of a document: merged into its payload, or in its place.
#[derive(Debug)]
pub struct UpdateDocument {
    pub index_key: String,
    pub document_id: String,
    pub source: serde_json::Value,
    pub partial: bool,
}

/// A document to delete.
#[derive(Debug)]
pub struct DeleteDocument {
    pub index_key: String,
    pub document_id: String,
}

// ---------------------------------------------------------------------------
// What is written of a document
// ---------------------------------------------------------------------------

/// How an embedding is stored: an object with the field `vector`.
pub open spec fn stored_embedding(elements: Seq<Json>) -> Json {
    Json::Object(Map::<Seq<char>, Json>::empty().insert("vector"@, Json::Array(elements)))
}

/// A payload with the Drive space and the Drive node of the document, where it
/// does not name them itself.
pub open spec fn with_drive_references(
    payload: Json,
    space_id: Option<Seq<char>>,
    node_id: Option<Seq<char>>,
) -> Json {
    let with_space = match space_id {
        Some(id) => with_missing_text(payload, "drive_space_id"@, id),
        None => payload,
    };
    match node_id {
        Some(id) => with_missing_text(with_space, "drive_node_id"@, id),
        None => with_space,
    }
}

/// The tags as one text, where there are any.
pub open spec fn keyword_text(tags: Seq<String>) -> Option<Seq<char>> {
    if tags.len() == 0 {
        None
    } else {
        Some(joined(views(tags), " | "@))
    }
}

/// The text, or the empty one.
pub open spec fn text_or_empty(text: Option<String>) -> Seq<char> {
    match text {
        Some(t) => t@,
        None => ""@,
    }
}

/// What is bound to the statement that writes a document under the name `uuid`.
pub open spec fn index_document_binds(
    context: SearchProviderContext,
    document: IndexDocument,
    uuid: Seq<char>,
) -> Seq<Bound> {
    seq![
        Bound::Text(uuid),
        Bound::BigInt(context.tenant_id),
        Bound::BigInt(context.organization_id),
        Bound::Text(document.index_key@),
        Bound::Text(document.document_id@),
        Bound::Text(text_or_empty(document.title)),
        Bound::Text(text_or_empty(document.content)),
        Bound::OptionalText(keyword_text(document.tags@)),
        Bound::Json(
            with_drive_references(
                json(document.source),
                optional_view(document.drive_space_id),
                optional_view(document.drive_node_id),
            ),
        ),
        Bound::Json(stored_embedding(jsons(document.embedding@))),
    ]
}

/// The values one by one, each holding what the given value holds.
fn copy_values(values: &Vec<serde_json::Value>) -> (copies: Vec<serde_json::Value>)
    ensures
        jsons(copies@) == jsons(values@),
{
    let mut copies: Vec<serde_json::Value> = Vec::new();
    let mut i: usize = 0;
    while i < values.len()
        invariant
            i <= values@.len(),
            copies@.len() == i,
            forall|k: int| 0 <= k < i ==> json(#[trigger] copies@[k]) == json(values@[k]),
        decreases values.len() - i,
    {
        copies.push(values[i].clone());
        i += 1;
    }
    assert(jsons(copies@) == jsons(values@));
    copies
}

/// How an embedding is stored: an object with the field `vector`.
pub fn embedding_to_json(embedding: &Vec<serde_json::Value>) -> (stored: serde_json::Value)
    ensures
        json(stored) == stored_embedding(jsons(embedding@)),
{
    let mut object: serde_json::Map<String, serde_json::Value> = serde_json::Map::new();
    let _ = object.insert("vector".to_owned(), array_value(copy_values(embedding)));
    object_value(object)
}

/// The payload of a document with its Drive references.
fn merge_drive_references(document: &IndexDocument) -> (payload: serde_json::Value)
    ensures
        json(payload) == with_drive_references(
            json(document.source),
            optional_view(document.drive_space_id),
            optional_view(document.drive_node_id),
        ),
{
    let mut payload: serde_json::Value = document.source.clone();
    if let Some(space_id) = &document.drive_space_id {
        add_missing_text(&mut payload, "drive_space_id", space_id.as_str());
    }
    if let Some(node_id) = &document.drive_node_id {
        add_missing_text(&mut payload, "drive_node_id", node_id.as_str());
    }
    payload
}

/// A copy of the text, or the empty one.
fn copy_or_empty(text: &Option<String>) -> (copy: String)
    ensures
        copy@ == text_or_empty(*text),
{
    match text {
        Some(t) => t.clone(),
        None => "".to_owned(),
    }
}

/// The statement that writes a document under the name `uuid`.
pub fn index_document_as(
    context: &SearchProviderContext,
    document: &IndexDocument,
    uuid: String,
) -> (statement: Statement)
    ensures
        statement.reads(INDEX_DOCUMENT@, index_document_binds(*context, *document, uuid@)),
{
    let keywords: Option<String> = if document.tags.len() == 0 {
        None
    } else {
        Some(join(&document.tags, " | "))
    };
    let binds: Vec<BindValue> = vec![
        BindValue::Text(uuid),
        BindValue::BigInt(context.tenant_id),
        BindValue::BigInt(context.organization_id),
        BindValue::Text(document.index_key.clone()),
        BindValue::Text(document.document_id.clone()),
        BindValue::Text(copy_or_empty(&document.title)),
        BindValue::Text(copy_or_empty(&document.content)),
        BindValue::OptionalText(keywords),
        BindValue::Json(merge_drive_references(document)),
        BindValue::Json(embedding_to_json(&document.embedding)),
    ];
    Statement { sql: INDEX_DOCUMENT.to_owned(), binds }
}

/// The statement that writes a document under a new random name.
pub fn index_document(context: &SearchProviderContext, document: &IndexDocument) -> (statement:
    Statement)
    ensures
        exists|uuid: Seq<char>|
            random_uuid_text(uuid) && #[trigger] statement.reads(
                INDEX_DOCUMENT@,
                index_document_binds(*context, *document, uuid),
            ),
{
    let uuid: String = new_uuid();
    let ghost name = uuid@;
    let statement: Statement = index_document_as(context, document, uuid);
    assert(random_uuid_text(name) && statement.reads(
        INDEX_DOCUMENT@,
        index_document_binds(*context, *document, name),
    ));
    statement
}

/// What came of writing a document or an index: of the statement that indexes, updates or
/// deletes a document, or that creates or drops an index.
pub fn write_outcome(outcome: Result<(), String>) -> (written: Result<(), SearchProviderError>)
    ensures
        written == match outcome {
            Ok(_) => Ok::<(), SearchProviderError>(()),
            Err(message) => Err(SearchProviderError::Indexing { message }),
        },
{
    match outcome {
        Ok(_) => Ok(()),
        Err(message) => Err(indexing_error(message)),
    }
}

// ---------------------------------------------------------------------------
// Batches
// ---------------------------------------------------------------------------

/// Why a document of a batch was not written.
#[derive(Debug, PartialEq, Eq)]
pub struct IndexOperationError {
    pub document_id: String,
    pub message: String,
}

/// How many documents of a batch were written, and why the others were not.
#[derive(Debug, PartialEq, Eq)]
pub struct IndexOperationResult {
    pub success_count: u32,
    pub failure_count: u32,
    pub errors: Vec<IndexOperationError>,
}

/// The number of documents that were written.
pub open spec fn successes(outcomes: Seq<Result<(), String>>) -> nat
    decreases outcomes.len(),
{
    if outcomes.len() == 0 {
        0
    } else {
        successes(outcomes.drop_last()) + if outcomes.last() is Ok {
            1nat
        } else {
            0
        }
    }
}

/// The documents that were not written, each with the reason.
pub open spec fn failures(documents: Seq<IndexDocument>, outcomes: Seq<Result<(), String>>) -> Seq<
    (Seq<char>, Seq<char>),
>
    decreases outcomes.len(),
{
    if outcomes.len() == 0 {
        Seq::empty()
    } else {
        let others = failures(documents, outcomes.drop_last());
        match outcomes.last() {
            Ok(_) => others,
            Err(message) => others.push((documents[outcomes.len() - 1].document_id@, message@)),
        }
    }
}

/// The errors, each as the document and the reason.
pub open spec fn error_pairs(errors: Seq<IndexOperationError>) -> Seq<(Seq<char>, Seq<char>)> {
    Seq::new(errors.len(), |i: int| (errors[i].document_id@, errors[i].message@))
}

/// Every document was written or not.
pub proof fn lemma_batch_is_accounted_for(
    documents: Seq<IndexDocument>,
    outcomes: Seq<Result<(), String>>,
)
    ensures
        successes(outcomes) + failures(documents, outcomes).len() == outcomes.len(),
    decreases outcomes.len(),
{
    if outcomes.len() > 0 {
        lemma_batch_is_accounted_for(documents, outcomes.drop_last());
    }
}

proof fn lemma_counts_grow(documents: Seq<IndexDocument>, outcomes: Seq<Result<(), String>>, i: int)
    requires
        0 <= i <= outcomes.len(),
    ensures
        successes(outcomes.take(i)) <= successes(outcomes),
        failures(documents, outcomes.take(i)).len() <= failures(documents, outcomes).len(),
    decreases outcomes.len() - i,
{
    if i == outcomes.len() {
        assert(outcomes.take(i) == outcomes);
    } else {
        lemma_counts_grow(documents, outcomes, i + 1);
        assert(outcomes.take(i + 1).drop_last() == outcomes.take(i));
    }
}

/// The result of a batch, from the outcome of writing each of its documents.
pub fn index_batch(documents: &Vec<IndexDocument>, outcomes: Vec<Result<(), String>>) -> (result:
    IndexOperationResult)
    requires
        outcomes@.len() == documents@.len(),
        successes(outcomes@) <= u32::MAX,
        failures(documents@, outcomes@).len() <= u32::MAX,
    ensures
        result.success_count == successes(outcomes@),
        result.failure_count == failures(documents@, outcomes@).len(),
        error_pairs(result.errors@) == failures(documents@, outcomes@),
{
    let ghost all = outcomes@;
    let mut success: u32 = 0;
    let mut failed: u32 = 0;
    let mut errors: Vec<IndexOperationError> = Vec::new();
    let mut i: usize = 0;
    assert(error_pairs(errors@) == failures(documents@, all.take(0)));
    for outcome in it: outcomes
        invariant
            it.seq() == all,
            i == it.index(),
            all.len() == documents.len(),
            successes(all) <= u32::MAX,
            failures(documents@, all).len() <= u32::MAX,
            success == successes(all.take(i as int)),
            failed == failures(documents@, all.take(i as int)).len(),
            error_pairs(errors@) == failures(documents@, all.take(i as int)),
    {
        proof {
            assert(all.take(i + 1).drop_last() == all.take(i as int));
            assert(all.take(i + 1).last() == outcome);
            lemma_counts_grow(documents@, all, i + 1);
        }
        match outcome {
            Ok(_) => {
                success += 1;
            },
            Err(message) => {
                failed += 1;
                let ghost before = errors@;
                let ghost reason = message@;
                errors.push(
                    IndexOperationError { document_id: documents[i].document_id.clone(), message },
                );
                assert(error_pairs(errors@) == error_pairs(before).push(
                    (documents@[i as int].document_id@, reason),
                ));
            },
        }
        i += 1;
    }
    assert(all.take(all.len() as int) == all);
    IndexOperationResult { success_count: success, failure_count: failed, errors }
}

// ---------------------------------------------------------------------------
// Changes
// ---------------------------------------------------------------------------

/// The statement that changes the payload of a document.
pub fn update_document(context: &SearchProviderContext, document: &UpdateDocument) -> (statement:
    Statement)
    ensures
        statement.reads(
            if document.partial {
                MERGE_DOCUMENT@
            } else {
                REPLACE_DOCUMENT@
            },
            seq![
                Bound::BigInt(context.tenant_id),
                Bound::BigInt(context.organization_id),
                Bound::Text(document.index_key@),
                Bound::Json(json(document.source)),
                Bound::Text(document.document_id@),
            ],
        ),
{
    let sql: String = if document.partial {
        MERGE_DOCUMENT.to_owned()
    } else {
        REPLACE_DOCUMENT.to_owned()
    };
    let binds: Vec<BindValue> = vec![
        BindValue::BigInt(context.tenant_id),
        BindValue::BigInt(context.organization_id),
        BindValue::Text(document.index_key.clone()),
        BindValue::Json(document.source.clone()),
        BindValue::Text(document.document_id.clone()),
    ];
    Statement { sql, binds }
}

/// The statement that deletes a document. It is marked, not removed.
pub fn delete_document(context: &SearchProviderContext, document: &DeleteDocument) -> (statement:
    Statement)
    ensures
        statement.reads(
            DELETE_DOCUMENT@,
            seq![
                Bound::BigInt(context.tenant_id),
                Bound::BigInt(context.organization_id),
                Bound::Text(document.index_key@),
                Bound::Text(document.document_id@),
            ],
        ),
{
    let binds: Vec<BindValue> = vec![
        BindValue::BigInt(context.tenant_id),
        BindValue::BigInt(context.organization_id),
        BindValue::Text(document.index_key.clone()),
        BindValue::Text(document.document_id.clone()),
    ];
    Statement { sql: DELETE_DOCUMENT.to_owned(), binds }
}

/// What is bound to the statement that writes an index under the name `uuid`.
pub open spec fn create_index_binds(
    context: SearchProviderContext,
    index_key: Seq<char>,
    schema: Json,
    uuid: Seq<char>,
) -> Seq<Bound> {
    seq![
        Bound::Text(uuid),
        Bound::BigInt(context.tenant_id),
        Bound::BigInt(context.organization_id),
        Bound::Text(index_key),
        Bound::Json(schema),
    ]
}

/// The statement that writes an index under the name `uuid`.
pub fn create_index_as(
    context: &SearchProviderContext,
    index_key: &str,
    schema: &serde_json::Value,
    uuid: String,
) -> (statement: Statement)
    ensures
        statement.reads(
            CREATE_INDEX@,
            create_index_binds(*context, index_key@, json(*schema), uuid@),
        ),
{
    let binds: Vec<BindValue> = vec![
        BindValue::Text(uuid),
        BindValue::BigInt(context.tenant_id),
        BindValue::BigInt(context.organization_id),
        BindValue::Text(index_key.to_owned()),
        BindValue::Json(schema.clone()),
    ];
    Statement { sql: CREATE_INDEX.to_owned(), binds }
}

/// The statement that writes an index under a new random name.
pub fn create_index(
    context: &SearchProviderContext,
    index_key: &str,
    schema: &serde_json::Value,
) -> (statement: Statement)
    ensures
        exists|uuid: Seq<char>|
            random_uuid_text(uuid) && #[trigger] statement.reads(
                CREATE_INDEX@,
                create_index_binds(*context, index_key@, json(*schema), uuid),
            ),
{
    let uuid: String = new_uuid();
    let ghost name = uuid@;
    let statement: Statement = create_index_as(context, index_key, schema, uuid);
    assert(random_uuid_text(name) && statement.reads(
        CREATE_INDEX@,
        create_index_binds(*context, index_key@, json(*schema), name),
    ));
    statement
}

/// The statement that drops an index. It is marked, not removed.
pub fn drop_index(context: &SearchProviderContext, index_key: &str) -> (statement: Statement)
    ensures
        statement.reads(
            DROP_INDEX@,
            seq![
                Bound::BigInt(context.tenant_id),
                Bound::BigInt(context.organization_id),
                Bound::Text(index_key@),
            ],
        ),
{
    let binds: Vec<BindValue> = vec![
        BindValue::BigInt(context.tenant_id),
        BindValue::BigInt(context.organization_id),
        BindValue::Text(index_key.to_owned()),
    ];
    Statement { sql: DROP_INDEX.to_owned(), binds }
}

/// A payload that names its Drive space and its Drive node keeps both, whatever
/// references the document carries.
pub proof fn lemma_own_drive_references_stay(
    payload: Json,
    space_id: Option<Seq<char>>,
    node_id: Option<Seq<char>>,
)
    requires
        payload is Object,
        payload->Object_0.contains_key("drive_space_id"@),
        payload->Object_0.contains_key("drive_node_id"@),
    ensures
        with_drive_references(payload, space_id, node_id) == payload,
{
}

} // verus!
