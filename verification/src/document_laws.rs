//! What holds of every document and index that the provider writes, and of every batch.
use vstd::prelude::*;

use crate::documents::{
    create_index_binds, error_pairs, failures, index_document_binds, keyword_text,
    stored_embedding, successes, IndexDocument, IndexOperationError,
};
use crate::json::{json, Json};
use crate::search::page_limit;
use crate::semantic::{semantic_binds, vector_literal, SemanticSearchQuery};
use crate::spi::SearchProviderContext;
use crate::statement::Bound;
use crate::text::{joined, lemma_joined_push, views};

verus! {

// ---------------------------------------------------------------------------
// A document
// ---------------------------------------------------------------------------

/// Each value of a document is bound in its place: its name, whose it is, its index and its
/// own name, then its title and its content, which are empty where it has none.
pub proof fn lemma_document_values_bound(
    context: SearchProviderContext,
    document: IndexDocument,
    uuid: Seq<char>,
)
    ensures
        ({
            let binds = index_document_binds(context, document, uuid);
            &&& binds.len() == 10
            &&& binds[0] == Bound::Text(uuid)
            &&& binds[1] == Bound::BigInt(context.tenant_id)
            &&& binds[2] == Bound::BigInt(context.organization_id)
            &&& binds[3] == Bound::Text(document.index_key@)
            &&& binds[4] == Bound::Text(document.document_id@)
            &&& document.title is Some ==> binds[5] == Bound::Text(document.title->0@)
            &&& document.title is None ==> binds[5] is Text && binds[5]->Text_0.len() == 0
            &&& document.content is Some ==> binds[6] == Bound::Text(document.content->0@)
            &&& document.content is None ==> binds[6] is Text && binds[6]->Text_0.len() == 0
            &&& document.tags@.len() == 0 ==> binds[7] == Bound::OptionalText(None)
            &&& document.tags@.len() > 0 ==> binds[7] == Bound::OptionalText(
                Some(joined(document.tags@.map_values(|tag: String| tag@), " | "@)),
            )
            &&& binds[8] is Json
            &&& binds[9] is Json
        }),
{
    reveal_strlit("");
    assert(views(document.tags@) =~= document.tags@.map_values(|tag: String| tag@));
}

/// The embedding of a document is stored under `vector`, number by number, and nothing else
/// is stored with it.
pub proof fn lemma_embedding_stored(
    context: SearchProviderContext,
    document: IndexDocument,
    uuid: Seq<char>,
)
    ensures
        ({
            let stored = index_document_binds(context, document, uuid)[9]->Json_0;
            &&& stored is Object
            &&& stored->Object_0.dom() == set!["vector"@]
            &&& stored->Object_0["vector"@] == Json::Array(
                document.embedding@.map_values(|number: serde_json::Value| json(number)),
            )
        }),
{
    let stored = index_document_binds(context, document, uuid)[9]->Json_0;
    assert(stored->Object_0.dom() =~= set!["vector"@]);
    assert(stored->Object_0["vector"@]->Array_0 =~= document.embedding@.map_values(
        |number: serde_json::Value| json(number),
    ));
}

/// What is stored of an embedding tells embeddings apart.
pub proof fn lemma_embeddings_told_apart(a: Seq<Json>, b: Seq<Json>)
    ensures
        stored_embedding(a) == stored_embedding(b) <==> a == b,
{
    if stored_embedding(a) == stored_embedding(b) {
        assert(stored_embedding(a)->Object_0["vector"@] == Json::Array(a));
        assert(stored_embedding(b)->Object_0["vector"@] == Json::Array(b));
    }
}

/// The payload of a document is its source. Where the source is an object that does not name
/// the Drive space or the Drive node, it names them as the document does; every other field
/// stays as it is, and a source that is no object does too.
pub proof fn lemma_payload_is_the_source(
    context: SearchProviderContext,
    document: IndexDocument,
    uuid: Seq<char>,
    name: Seq<char>,
)
    ensures
        ({
            let source = json(document.source);
            let payload = index_document_binds(context, document, uuid)[8]->Json_0;
            &&& !(source is Object) ==> payload == source
            &&& source is Object ==> {
                let given = source->Object_0;
                let stored = payload->Object_0;
                &&& payload is Object
                &&& given.contains_key(name) ==> stored.contains_key(name) && stored[name]
                    == given[name]
                &&& !given.contains_key(name) && name != "drive_space_id"@ && name
                    != "drive_node_id"@ ==> !stored.contains_key(name)
                &&& !given.contains_key("drive_space_id"@) && document.drive_space_id is Some
                    ==> stored.contains_key("drive_space_id"@) && stored["drive_space_id"@]
                    == Json::Text(document.drive_space_id->0@)
                &&& !given.contains_key("drive_space_id"@) && document.drive_space_id is None
                    ==> !stored.contains_key("drive_space_id"@)
                &&& !given.contains_key("drive_node_id"@) && document.drive_node_id is Some
                    ==> stored.contains_key("drive_node_id"@) && stored["drive_node_id"@]
                    == Json::Text(document.drive_node_id->0@)
                &&& !given.contains_key("drive_node_id"@) && document.drive_node_id is None
                    ==> !stored.contains_key("drive_node_id"@)
            }
        }),
{
    reveal_strlit("drive_space_id");
    reveal_strlit("drive_node_id");
    assert("drive_space_id"@.len() == 14);
    assert("drive_node_id"@.len() == 13);
    assert("drive_space_id"@ != "drive_node_id"@);
}

/// The keywords of a document are its tags, one behind the other: one more tag is added at
/// the end.
pub proof fn lemma_one_more_tag(tags: Seq<String>, tag: String)
    ensures
        keyword_text(Seq::<String>::empty()) is None,
        keyword_text(tags.push(tag)) is Some,
        tags.len() == 0 ==> keyword_text(tags.push(tag))->0 == tag@,
        tags.len() > 0 ==> keyword_text(tags.push(tag))->0 == keyword_text(tags)->0 + " | "@ + tag@,
{
    assert(views(tags.push(tag)) =~= views(tags).push(tag@));
    lemma_joined_push(views(tags), tag@, " | "@);
}

/// An index is written for its tenant and its organization, under its key, with its schema.
pub proof fn lemma_index_values_bound(
    context: SearchProviderContext,
    index_key: Seq<char>,
    schema: Json,
    uuid: Seq<char>,
)
    ensures
        ({
            let binds = create_index_binds(context, index_key, schema, uuid);
            &&& binds.len() == 5
            &&& binds[0] == Bound::Text(uuid)
            &&& binds[1] == Bound::BigInt(context.tenant_id)
            &&& binds[2] == Bound::BigInt(context.organization_id)
            &&& binds[3] == Bound::Text(index_key)
            &&& binds[4] == Bound::Json(schema)
        }),
{
}

// ---------------------------------------------------------------------------
// A batch
// ---------------------------------------------------------------------------

proof fn lemma_failures_by_names(
    a: Seq<IndexDocument>,
    b: Seq<IndexDocument>,
    outcomes: Seq<Result<(), String>>,
)
    requires
        outcomes.len() <= a.len(),
        outcomes.len() <= b.len(),
        forall|i: int|
            0 <= i < outcomes.len() ==> (#[trigger] a[i]).document_id@ == b[i].document_id@,
    ensures
        failures(a, outcomes) == failures(b, outcomes),
    decreases outcomes.len(),
{
    if outcomes.len() > 0 {
        lemma_failures_by_names(a, b, outcomes.drop_last());
        assert(a[outcomes.len() - 1].document_id@ == b[outcomes.len() - 1].document_id@);
    }
}

/// One more document in a batch is one more success where it was written. Where it was not,
/// it is one more failure, told last, under the name of that document and with the message of
/// its own outcome.
pub proof fn lemma_one_more_document(
    documents: Seq<IndexDocument>,
    document: IndexDocument,
    outcomes: Seq<Result<(), String>>,
    outcome: Result<(), String>,
)
    requires
        documents.len() == outcomes.len(),
    ensures
        ({
            let told = failures(documents.push(document), outcomes.push(outcome));
            let before = failures(documents, outcomes);
            &&& outcome is Ok ==> successes(outcomes.push(outcome)) == successes(outcomes) + 1
                && told == before
            &&& outcome is Err ==> successes(outcomes.push(outcome)) == successes(outcomes) && told
                == before.push((document.document_id@, outcome->Err_0@))
        }),
{
    let all = documents.push(document);
    assert(outcomes.push(outcome).drop_last() =~= outcomes);
    assert(outcomes.push(outcome).last() == outcome);
    assert forall|i: int| 0 <= i < outcomes.len() implies (#[trigger] all[i]).document_id@
        == documents[i].document_id@ by {}
    lemma_failures_by_names(all, documents, outcomes);
    assert(all[outcomes.len() as int] == document);
}

/// A batch without documents has no success and no failure.
pub proof fn lemma_empty_batch(documents: Seq<IndexDocument>)
    ensures
        successes(Seq::<Result<(), String>>::empty()) == 0,
        failures(documents, Seq::<Result<(), String>>::empty()).len() == 0,
{
}

/// Each document that was not written is told, with its own message.
pub proof fn lemma_each_failure_told(
    documents: Seq<IndexDocument>,
    outcomes: Seq<Result<(), String>>,
    errors: Seq<IndexOperationError>,
    i: int,
)
    requires
        documents.len() == outcomes.len(),
        error_pairs(errors) == failures(documents, outcomes),
        0 <= i < outcomes.len(),
        outcomes[i] is Err,
    ensures
        exists|k: int|
            0 <= k < errors.len() && (#[trigger] errors[k]).document_id@ == documents[i].document_id@
                && errors[k].message@ == outcomes[i]->Err_0@,
{
    lemma_failure_listed(documents, outcomes, i);
    let pair = (documents[i].document_id@, outcomes[i]->Err_0@);
    let all = failures(documents, outcomes);
    let k = choose|k: int| 0 <= k < all.len() && all[k] == pair;
    assert(error_pairs(errors).len() == errors.len());
    assert(error_pairs(errors)[k] == (errors[k].document_id@, errors[k].message@));
}

proof fn lemma_failure_listed(
    documents: Seq<IndexDocument>,
    outcomes: Seq<Result<(), String>>,
    i: int,
)
    requires
        0 <= i < outcomes.len(),
        outcomes[i] is Err,
    ensures
        failures(documents, outcomes).contains((documents[i].document_id@, outcomes[i]->Err_0@)),
    decreases outcomes.len(),
{
    let before = failures(documents, outcomes.drop_last());
    let all = failures(documents, outcomes);
    let pair = (documents[i].document_id@, outcomes[i]->Err_0@);
    if i == outcomes.len() - 1 {
        assert(all[before.len() as int] == pair);
    } else {
        lemma_failure_listed(documents, outcomes.drop_last(), i);
        let k = choose|k: int| 0 <= k < before.len() && before[k] == pair;
        assert(all[k] == pair);
    }
}

/// No document is told that was written: each error is that of a document that was not, and
/// each error has a document of its own, in their order.
pub proof fn lemma_only_failures_told(
    documents: Seq<IndexDocument>,
    outcomes: Seq<Result<(), String>>,
    errors: Seq<IndexOperationError>,
)
    requires
        documents.len() == outcomes.len(),
        error_pairs(errors) == failures(documents, outcomes),
    ensures
        exists|places: Seq<int>|
            {
                &&& places.len() == errors.len()
                &&& #[trigger] rises(places)
                &&& forall|k: int|
                    0 <= k < errors.len() ==> {
                        let i = #[trigger] places[k];
                        &&& 0 <= i < outcomes.len()
                        &&& outcomes[i] is Err
                        &&& errors[k].document_id@ == documents[i].document_id@
                        &&& errors[k].message@ == outcomes[i]->Err_0@
                    }
            },
{
    let places = lemma_failure_places(documents, outcomes);
    assert(error_pairs(errors).len() == errors.len());
    assert forall|k: int| 0 <= k < errors.len() implies {
        let i = #[trigger] places[k];
        &&& 0 <= i < outcomes.len()
        &&& outcomes[i] is Err
        &&& errors[k].document_id@ == documents[i].document_id@
        &&& errors[k].message@ == outcomes[i]->Err_0@
    } by {
        assert(error_pairs(errors)[k] == (errors[k].document_id@, errors[k].message@));
        assert(failures(documents, outcomes)[k] == (
            documents[places[k]].document_id@,
            outcomes[places[k]]->Err_0@,
        ));
    }
    assert(rises(places));
}

/// The places are in their order, none twice.
pub open spec fn rises(places: Seq<int>) -> bool {
    forall|k: int, l: int| 0 <= k < l < places.len() ==> #[trigger] places[k] < #[trigger] places[l]
}

proof fn lemma_failure_places(
    documents: Seq<IndexDocument>,
    outcomes: Seq<Result<(), String>>,
) -> (places: Seq<int>)
    ensures
        places.len() == failures(documents, outcomes).len(),
        rises(places),
        forall|k: int|
            0 <= k < places.len() ==> {
                let i = #[trigger] places[k];
                &&& 0 <= i < outcomes.len()
                &&& outcomes[i] is Err
                &&& failures(documents, outcomes)[k] == (
                    documents[i].document_id@,
                    outcomes[i]->Err_0@,
                )
            },
    decreases outcomes.len(),
{
    if outcomes.len() == 0 {
        Seq::empty()
    } else {
        let before = lemma_failure_places(documents, outcomes.drop_last());
        if outcomes.last() is Err {
            before.push(outcomes.len() - 1)
        } else {
            before
        }
    }
}

// ---------------------------------------------------------------------------
// A semantic search
// ---------------------------------------------------------------------------

/// A semantic search is confined to its tenant, its organization and its index, and asks for
/// as many documents as the query does, or for one where that asks for none.
pub proof fn lemma_semantic_values_bound(context: SearchProviderContext, query: SemanticSearchQuery)
    ensures
        ({
            let binds = semantic_binds(context, query);
            &&& binds.len() == 5
            &&& binds[0] == Bound::BigInt(context.tenant_id)
            &&& binds[1] == Bound::BigInt(context.organization_id)
            &&& binds[2] == Bound::Text(query.index_key@)
            &&& binds[3] == Bound::Text(
                "["@ + joined(query.query_embedding@.map_values(|number: String| number@), ","@)
                    + "]"@,
            )
            &&& query.top_k >= 1 ==> binds[4] == Bound::BigInt(query.top_k as i64)
            &&& query.top_k == 0 ==> binds[4] == Bound::BigInt(1)
        }),
{
    assert(views(query.query_embedding@) =~= query.query_embedding@.map_values(
        |number: String| number@,
    ));
}

/// One more number of a vector stands behind the others, with a comma between.
pub proof fn lemma_one_more_number(numbers: Seq<Seq<char>>, number: Seq<char>)
    ensures
        numbers.len() == 0 ==> vector_literal(numbers.push(number)) == "["@ + number + "]"@,
        numbers.len() > 0 ==> vector_literal(numbers.push(number)) == "["@ + joined(numbers, ","@)
            + ","@ + number + "]"@,
{
    lemma_joined_push(numbers, number, ","@);
    assert(vector_literal(numbers.push(number)) =~= "["@ + joined(numbers.push(number), ","@)
        + "]"@);
    if numbers.len() > 0 {
        assert("["@ + (joined(numbers, ","@) + ","@ + number) + "]"@ =~= "["@ + joined(
            numbers,
            ","@,
        ) + ","@ + number + "]"@);
    }
}

/// As many rows are asked for as are wanted, and at least one.
pub proof fn lemma_limit_is_what_is_wanted(wanted: int)
    ensures
        wanted >= 1 ==> page_limit(wanted) == wanted,
        wanted < 1 ==> page_limit(wanted) == 1,
{
}

} // verus!
