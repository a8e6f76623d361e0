//! What holds of every answer of the search provider, field by field: of a search, of a
//! semantic search and of a request for suggestions.
use vstd::prelude::*;

use crate::json::{json, Json};
use crate::response::{
    answers_search, fragment_lists, highlight_map, highlighted_fields, is_hit_of, kept_rows, titled,
    SearchRow,
};
use crate::semantic::{
    answers_semantic, answers_suggestions, kept_semantic_rows, SearchSuggestion,
    SearchSuggestionResponse, SemanticSearchHit, SemanticSearchResponse, SemanticSearchRow,
    SuggestionRow,
};
use crate::spi::{
    FacetBucket, SearchHit, SearchProviderContext, SearchQuery, SearchResponse,
};
use crate::text::safe_identifier;
use crate::text_map::TextMap;

verus! {

// ---------------------------------------------------------------------------
// A search
// ---------------------------------------------------------------------------

/// The number found is the one that the rows carry, on however few of them the page shows:
/// it counts the documents on all pages.
pub proof fn lemma_total_is_that_of_all_pages(
    response: SearchResponse,
    context: SearchProviderContext,
    query: SearchQuery,
    rows: Seq<SearchRow>,
    facets: TextMap<Vec<FacetBucket>>,
    took_ms: u64,
    n: i64,
)
    requires
        answers_search(response, context, query, rows, facets, took_ms),
        rows.len() > 0,
        n >= 0,
        forall|i: int| 0 <= i < rows.len() ==> (#[trigger] rows[i]).total_count == n,
    ensures
        response.total == n,
{
    assert(rows[rows.len() - 1].total_count == n);
}

/// Where the rows differ, the last of them says how many were found; a number below zero
/// counts as none, and a page without rows found none.
pub proof fn lemma_total_of_any_page(
    response: SearchResponse,
    context: SearchProviderContext,
    query: SearchQuery,
    rows: Seq<SearchRow>,
    facets: TextMap<Vec<FacetBucket>>,
    took_ms: u64,
)
    requires
        answers_search(response, context, query, rows, facets, took_ms),
    ensures
        rows.len() == 0 ==> response.total == 0,
        rows.len() > 0 && rows[rows.len() - 1].total_count >= 0 ==> response.total
            == rows[rows.len() - 1].total_count,
        rows.len() > 0 && rows[rows.len() - 1].total_count < 0 ==> response.total == 0,
{
}

proof fn lemma_kept_rows_filtered(rows: Seq<SearchRow>)
    ensures
        kept_rows(rows) == rows.filter(|row: SearchRow| row.meets_min_score),
    decreases rows.len(),
{
    reveal(Seq::filter);
    if rows.len() > 0 {
        lemma_kept_rows_filtered(rows.drop_last());
    }
}

/// The hits are the rows whose score is high enough, one by one and in their order: each
/// has the name and the score of its row, and the index that was searched. The best score is
/// that of the first hit.
pub proof fn lemma_hits_are_the_kept_rows(
    response: SearchResponse,
    context: SearchProviderContext,
    query: SearchQuery,
    rows: Seq<SearchRow>,
    facets: TextMap<Vec<FacetBucket>>,
    took_ms: u64,
)
    requires
        answers_search(response, context, query, rows, facets, took_ms),
    ensures
        ({
            let kept = rows.filter(|row: SearchRow| row.meets_min_score);
            &&& response.hits@.map_values(|hit: SearchHit| hit.document_id@) == kept.map_values(
                |row: SearchRow| row.document_id@,
            )
            &&& response.hits@.map_values(|hit: SearchHit| hit.score_bits) == kept.map_values(
                |row: SearchRow| row.score_bits,
            )
            &&& kept.len() > 0 ==> response.max_score_bits == Some(kept[0].score_bits)
            &&& kept.len() == 0 ==> response.max_score_bits is None
        }),
        forall|i: int|
            0 <= i < response.hits@.len() ==> (#[trigger] response.hits@[i]).index_key is Some
                && response.hits@[i].index_key->0@ == query.index_key@,
{
    lemma_kept_rows_filtered(rows);
    let kept = rows.filter(|row: SearchRow| row.meets_min_score);
    assert forall|i: int| 0 <= i < response.hits@.len() implies is_hit_of(
        #[trigger] response.hits@[i],
        kept[i],
        query,
    ) by {}
    assert(response.hits@.map_values(|hit: SearchHit| hit.document_id@) =~= kept.map_values(
        |row: SearchRow| row.document_id@,
    ));
    assert(response.hits@.map_values(|hit: SearchHit| hit.score_bits) =~= kept.map_values(
        |row: SearchRow| row.score_bits,
    ));
}

/// Where every score is high enough, each row is a hit.
pub proof fn lemma_every_row_is_a_hit(
    response: SearchResponse,
    context: SearchProviderContext,
    query: SearchQuery,
    rows: Seq<SearchRow>,
    facets: TextMap<Vec<FacetBucket>>,
    took_ms: u64,
)
    requires
        answers_search(response, context, query, rows, facets, took_ms),
        forall|i: int| 0 <= i < rows.len() ==> (#[trigger] rows[i]).meets_min_score,
    ensures
        response.hits@.len() == rows.len(),
        forall|i: int|
            0 <= i < rows.len() ==> (#[trigger] response.hits@[i]).document_id@
                == rows[i].document_id@ && response.hits@[i].score_bits == rows[i].score_bits,
{
    lemma_all_kept(rows);
}

proof fn lemma_all_kept(rows: Seq<SearchRow>)
    requires
        forall|i: int| 0 <= i < rows.len() ==> (#[trigger] rows[i]).meets_min_score,
    ensures
        kept_rows(rows) == rows,
    decreases rows.len(),
{
    if rows.len() > 0 {
        let shorter = rows.drop_last();
        assert forall|i: int| 0 <= i < shorter.len() implies (#[trigger] shorter[i]).meets_min_score by {
            assert(shorter[i] == rows[i]);
        }
        lemma_all_kept(shorter);
        assert(rows[rows.len() - 1].meets_min_score);
        assert(kept_rows(rows) =~= rows);
    }
}

/// What is asked along with a search is handed on: its facets, the time it took, and the
/// name of the request.
pub proof fn lemma_response_carries(
    response: SearchResponse,
    context: SearchProviderContext,
    query: SearchQuery,
    rows: Seq<SearchRow>,
    facets: TextMap<Vec<FacetBucket>>,
    took_ms: u64,
)
    requires
        answers_search(response, context, query, rows, facets, took_ms),
    ensures
        response.facets == facets,
        response.took_ms == took_ms,
        context.request_id is Some ==> response.request_id is Some && response.request_id->0@
            == context.request_id->0@,
        context.request_id is None ==> response.request_id is None,
{
}

/// A source is the payload of its row: with the title of the row, where the payload is an
/// object without one and the row has one; and nothing else is changed.
pub proof fn lemma_source_is_the_titled_payload(hit: SearchHit, row: SearchRow, query: SearchQuery)
    requires
        is_hit_of(hit, row, query),
    ensures
        row.title is Some && json(row.payload) is Object
            && !json(row.payload)->Object_0.contains_key("title"@) ==> json(hit.source)
            == Json::Object(
            json(row.payload)->Object_0.insert("title"@, Json::Text(row.title->0@)),
        ),
        row.title is None ==> json(hit.source) == json(row.payload),
        !(json(row.payload) is Object) ==> json(hit.source) == json(row.payload),
        json(row.payload) is Object && json(row.payload)->Object_0.contains_key("title"@)
            ==> json(hit.source) == json(row.payload),
{
}

/// The last of the fields of that name that has a highlight.
pub open spec fn is_last_highlighted(
    fields: Seq<String>,
    texts: Seq<Option<String>>,
    i: int,
) -> bool {
    &&& 0 <= i < fields.len()
    &&& i < texts.len()
    &&& texts[i] is Some
    &&& forall|k: int|
        i < k < fields.len() && k < texts.len() && (#[trigger] fields[k])@ == fields[i]@
            ==> texts[k] is None
}

/// The highlight of a field that can be embedded is the text that its column holds.
pub proof fn lemma_highlight_is_that_of_its_field(
    fields: Seq<String>,
    texts: Seq<Option<String>>,
    i: int,
)
    requires
        is_last_highlighted(fields, texts, i),
        safe_identifier(fields[i]@),
    ensures
        highlight_map(fields, texts).contains_key(fields[i]@),
        highlight_map(fields, texts)[fields[i]@] == seq![texts[i]->0@],
    decreases fields.len(),
{
    let last = fields.len() - 1;
    if i < last {
        let shorter = fields.drop_last();
        assert(shorter[i] == fields[i]);
        assert forall|k: int|
            i < k < shorter.len() && k < texts.len() && (#[trigger] shorter[k])@ == shorter[i]@ implies texts[k] is None by {
            assert(shorter[k] == fields[k]);
        }
        lemma_highlight_is_that_of_its_field(shorter, texts, i);
        if fields[last]@ == fields[i]@ && last < texts.len() {
            assert(texts[last] is None);
        }
    }
}

/// The highlights of a hit are those of its row.
pub proof fn lemma_hit_highlights(hit: SearchHit, row: SearchRow, query: SearchQuery, i: int)
    requires
        is_hit_of(hit, row, query),
        query.highlight is Some,
        is_last_highlighted(query.highlight->0.fields@, row.highlights@, i),
        safe_identifier(query.highlight->0.fields@[i]@),
    ensures
        hit.highlight@.contains_key(query.highlight->0.fields@[i]@),
        hit.highlight@[query.highlight->0.fields@[i]@]@.len() == 1,
        hit.highlight@[query.highlight->0.fields@[i]@]@[0]@ == row.highlights@[i]->0@,
{
    let fields = query.highlight->0.fields@;
    lemma_highlight_is_that_of_its_field(fields, row.highlights@, i);
    let name = fields[i]@;
    assert(fragment_lists(hit.highlight@).contains_key(name));
    assert(fragment_lists(hit.highlight@)[name] == seq![row.highlights@[i]->0@]);
    assert(fragment_lists(hit.highlight@)[name].len() == 1);
    assert(fragment_lists(hit.highlight@)[name][0] == row.highlights@[i]->0@);
}

/// A query without highlights gives hits without.
pub proof fn lemma_no_highlight_asked_none_given(hit: SearchHit, row: SearchRow, query: SearchQuery)
    requires
        is_hit_of(hit, row, query),
        query.highlight is None,
    ensures
        hit.highlight@ == Map::<Seq<char>, Vec<String>>::empty(),
{
    assert forall|name: Seq<char>| !hit.highlight@.contains_key(name) by {
        assert(!fragment_lists(hit.highlight@).contains_key(name));
    }
    assert(hit.highlight@ =~= Map::<Seq<char>, Vec<String>>::empty());
}

// ---------------------------------------------------------------------------
// Suggestions
// ---------------------------------------------------------------------------

/// The suggestions are the rows, one by one and in their order: their texts are the texts of
/// the rows and their scores the scores. None has a payload.
pub proof fn lemma_suggestions_are_the_rows(
    response: SearchSuggestionResponse,
    rows: Seq<SuggestionRow>,
    took_ms: u64,
)
    requires
        answers_suggestions(response, rows, took_ms),
    ensures
        response.suggestions@.map_values(|s: SearchSuggestion| s.text@) == rows.map_values(
            |row: SuggestionRow| row.text@,
        ),
        response.suggestions@.map_values(|s: SearchSuggestion| s.score_bits) == rows.map_values(
            |row: SuggestionRow| row.score_bits,
        ),
        forall|i: int|
            0 <= i < response.suggestions@.len() ==> (
            #[trigger] response.suggestions@[i]).payload is None,
        response.took_ms == took_ms,
{
    assert(response.suggestions@.map_values(|s: SearchSuggestion| s.text@) =~= rows.map_values(
        |row: SuggestionRow| row.text@,
    ));
    assert(response.suggestions@.map_values(|s: SearchSuggestion| s.score_bits) =~= rows.map_values(
        |row: SuggestionRow| row.score_bits,
    ));
}

/// Rows with different texts give suggestions with different texts.
pub proof fn lemma_different_rows_different_suggestions(
    response: SearchSuggestionResponse,
    rows: Seq<SuggestionRow>,
    took_ms: u64,
    i: int,
    j: int,
)
    requires
        answers_suggestions(response, rows, took_ms),
        0 <= i < rows.len(),
        0 <= j < rows.len(),
        rows[i].text@ != rows[j].text@,
    ensures
        response.suggestions@[i].text@ != response.suggestions@[j].text@,
{
}

// ---------------------------------------------------------------------------
// A semantic search
// ---------------------------------------------------------------------------

proof fn lemma_kept_semantic_rows_filtered(rows: Seq<SemanticSearchRow>)
    ensures
        kept_semantic_rows(rows) == rows.filter(|row: SemanticSearchRow| row.meets_min_score),
    decreases rows.len(),
{
    reveal(Seq::filter);
    if rows.len() > 0 {
        lemma_kept_semantic_rows_filtered(rows.drop_last());
    }
}

/// The hits of a semantic search are the rows whose score is high enough, one by one and in
/// their order.
pub proof fn lemma_semantic_hits_are_the_kept_rows(
    response: SemanticSearchResponse,
    rows: Seq<SemanticSearchRow>,
    took_ms: u64,
)
    requires
        answers_semantic(response, rows, took_ms),
    ensures
        ({
            let kept = rows.filter(|row: SemanticSearchRow| row.meets_min_score);
            &&& response.hits@.map_values(|hit: SemanticSearchHit| hit.document_id@)
                == kept.map_values(|row: SemanticSearchRow| row.document_id@)
            &&& response.hits@.map_values(|hit: SemanticSearchHit| hit.score_bits)
                == kept.map_values(|row: SemanticSearchRow| row.score_bits)
            &&& forall|i: int|
                0 <= i < kept.len() ==> {
                    let hit = #[trigger] response.hits@[i];
                    &&& kept[i].payload is None ==> json(hit.source) == Json::Null
                    &&& kept[i].payload is Some && kept[i].title is None ==> json(hit.source)
                        == json(kept[i].payload->0)
                    &&& kept[i].payload is Some && kept[i].title is Some ==> {
                        let payload = json(kept[i].payload->0);
                        if payload is Object && !payload->Object_0.contains_key("title"@) {
                            json(hit.source) == Json::Object(
                                payload->Object_0.insert("title"@, Json::Text(kept[i].title->0@)),
                            )
                        } else {
                            json(hit.source) == payload
                        }
                    }
                }
        }),
        response.took_ms == took_ms,
{
    lemma_kept_semantic_rows_filtered(rows);
    let kept = rows.filter(|row: SemanticSearchRow| row.meets_min_score);
    assert(response.hits@.map_values(|hit: SemanticSearchHit| hit.document_id@) =~= kept.map_values(
        |row: SemanticSearchRow| row.document_id@,
    ));
    assert(response.hits@.map_values(|hit: SemanticSearchHit| hit.score_bits) =~= kept.map_values(
        |row: SemanticSearchRow| row.score_bits,
    ));
}

/// A title is put into an object that has none, and changes nothing else: an object keeps
/// its own title and every other field, and what is no object stays as it is.
pub proof fn lemma_title_fills_a_gap(payload: Json, title: Option<Seq<char>>)
    ensures
        title is None ==> titled(payload, title) == payload,
        !(payload is Object) ==> titled(payload, title) == payload,
        payload is Object && payload->Object_0.contains_key("title"@) ==> titled(payload, title)
            == payload,
        payload is Object && !payload->Object_0.contains_key("title"@) && title is Some ==> titled(
            payload,
            title,
        ) == Json::Object(payload->Object_0.insert("title"@, Json::Text(title->0))),
{
}

/// The fields that are highlighted are those that the query names, and none where it names
/// none.
pub proof fn lemma_highlighted_fields_are_named(query: SearchQuery)
    ensures
        query.highlight is Some ==> highlighted_fields(query) == query.highlight->0.fields@,
        query.highlight is None ==> highlighted_fields(query).len() == 0,
{
}

} // verus!
