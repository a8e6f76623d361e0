//! From the rows that a search gives back to its response.
use vstd::prelude::*;

use crate::json::{add_missing_text, json, with_missing_text, Json};
use crate::search::{build_highlight_column, highlight_column};
use crate::spi::{
    backend_error, FacetBucket, SearchHit, SearchProviderContext, SearchProviderError, SearchQuery,
    SearchResponse,
};
use crate::text::{is_safe_identifier, optional_view, safe_identifier, views};
use crate::text_map::TextMap;

verus! {

/// A row that a search gives back. `highlights` holds the highlight of each field
/// that the query names, in their order, where the row has one;
/// `meets_min_score` says whether the score is at least what the query asks for.
#[derive(Debug)]
pub struct SearchRow {
    pub document_id: String,
    pub title: Option<String>,
    pub payload: serde_json::Value,
    pub score_bits: u64,
    pub meets_min_score: bool,
    pub total_count: i64,
    pub highlights: Vec<Option<String>>,
}

/// A payload with the title of the document, where it has none of its own.
pub open spec fn titled(payload: Json, title: Option<Seq<char>>) -> Json {
    match title {
        Some(t) => with_missing_text(payload, "title"@, t),
        None => payload,
    }
}

/// Merges the title of a document into its payload. A payload that has a title
/// keeps it, and one that is no object stays as it is.
pub fn merge_title(payload: serde_json::Value, title: Option<String>) -> (source: serde_json::Value)
    ensures
        json(source) == titled(json(payload), optional_view(title)),
{
    let mut source: serde_json::Value = payload;
    if let Some(text) = title {
        add_missing_text(&mut source, "title", text.as_str());
    }
    source
}

// ---------------------------------------------------------------------------
// Highlights
// ---------------------------------------------------------------------------

/// The highlights of a row: of every field that can be embedded and has one.
pub open spec fn highlight_map(fields: Seq<String>, texts: Seq<Option<String>>) -> Map<
    Seq<char>,
    Seq<Seq<char>>,
>
    decreases fields.len(),
{
    if fields.len() == 0 {
        Map::empty()
    } else {
        let others = highlight_map(fields.drop_last(), texts);
        let i = fields.len() - 1;
        if safe_identifier(fields[i]@) && i < texts.len() && texts[i] is Some {
            others.insert(fields[i]@, seq![texts[i]->Some_0@])
        } else {
            others
        }
    }
}

/// The fields that a query has highlighted.
pub open spec fn highlighted_fields(query: SearchQuery) -> Seq<String> {
    match query.highlight {
        Some(options) => options.fields@,
        None => Seq::empty(),
    }
}

/// The texts of each field.
pub open spec fn fragment_lists(highlight: Map<Seq<char>, Vec<String>>) -> Map<
    Seq<char>,
    Seq<Seq<char>>,
> {
    Map::new(
        |field: Seq<char>| highlight.contains_key(field),
        |field: Seq<char>| views(highlight[field]@),
    )
}

/// The columns that hold the highlights of a query: one for each field that it
/// names, `None` for a field that cannot be embedded.
pub fn highlight_columns(query: &SearchQuery) -> (columns: Vec<Option<String>>)
    ensures
        columns@.len() == highlighted_fields(*query).len(),
        forall|i: int|
            0 <= i < columns@.len() ==> optional_view(#[trigger] columns@[i]) == if safe_identifier(
                highlighted_fields(*query)[i]@,
            ) {
                Some(highlight_column(highlighted_fields(*query)[i]@))
            } else {
                None
            },
{
    let mut columns: Vec<Option<String>> = Vec::new();
    if let Some(options) = &query.highlight {
        let mut i: usize = 0;
        while i < options.fields.len()
            invariant
                i <= options.fields@.len(),
                columns@.len() == i,
                forall|k: int|
                    0 <= k < i ==> optional_view(#[trigger] columns@[k]) == if safe_identifier(
                        options.fields@[k]@,
                    ) {
                        Some(highlight_column(options.fields@[k]@))
                    } else {
                        None
                    },
            decreases options.fields.len() - i,
        {
            if is_safe_identifier(options.fields[i].as_str()) {
                columns.push(Some(build_highlight_column(options.fields[i].as_str())));
            } else {
                columns.push(None);
            }
            i += 1;
        }
    }
    columns
}

/// The highlights of a row.
fn collect_highlights(query: &SearchQuery, texts: &Vec<Option<String>>) -> (highlight: TextMap<
    Vec<String>,
>)
    ensures
        fragment_lists(highlight@) == highlight_map(highlighted_fields(*query), texts@),
{
    let mut highlight: TextMap<Vec<String>> = TextMap::new();
    assert(fragment_lists(highlight@) =~= Map::empty());
    if let Some(options) = &query.highlight {
        let fields: &Vec<String> = &options.fields;
        let mut i: usize = 0;
        assert(fields@.take(0).len() == 0);
        while i < fields.len()
            invariant
                i <= fields@.len(),
                fragment_lists(highlight@) == highlight_map(fields@.take(i as int), texts@),
            decreases fields.len() - i,
        {
            proof {
                assert(fields@.take(i + 1).drop_last() == fields@.take(i as int));
                assert(fields@.take(i + 1)[i as int] == fields@[i as int]);
            }
            if is_safe_identifier(fields[i].as_str()) && i < texts.len() {
                if let Some(text) = &texts[i] {
                    let mut fragments: Vec<String> = Vec::new();
                    fragments.push(text.clone());
                    let ghost before = highlight@;
                    let ghost list = fragments;
                    let name: String = fields[i].clone();
                    highlight.insert(name, fragments);
                    proof {
                        assert(views(list@) == seq![text@]);
                        assert(fragment_lists(highlight@) =~= fragment_lists(before).insert(
                            fields@[i as int]@,
                            seq![text@],
                        ));
                    }
                }
            }
            i += 1;
        }
        assert(fields@.take(i as int) == fields@);
    }
    highlight
}

// ---------------------------------------------------------------------------
// The response
// ---------------------------------------------------------------------------

/// The hit that a row of a query becomes.
pub open spec fn is_hit_of(hit: SearchHit, row: SearchRow, query: SearchQuery) -> bool {
    &&& hit.document_id@ == row.document_id@
    &&& hit.score_bits == row.score_bits
    &&& json(hit.source) == titled(json(row.payload), optional_view(row.title))
    &&& fragment_lists(hit.highlight@) == highlight_map(highlighted_fields(query), row.highlights@)
    &&& optional_view(hit.index_key) == Some(query.index_key@)
}

/// The rows whose score is high enough.
pub open spec fn kept_rows(rows: Seq<SearchRow>) -> Seq<SearchRow>
    decreases rows.len(),
{
    if rows.len() == 0 {
        Seq::empty()
    } else if rows.last().meets_min_score {
        kept_rows(rows.drop_last()).push(rows.last())
    } else {
        kept_rows(rows.drop_last())
    }
}

/// The number of documents that a search found on all its pages: each row holds
/// it, and the last one is taken at its word.
pub open spec fn total_found(rows: Seq<SearchRow>) -> int {
    if rows.len() == 0 || rows.last().total_count < 0 {
        0
    } else {
        rows.last().total_count as int
    }
}

/// The hit that a row of a query becomes.
fn build_hit(row: SearchRow, query: &SearchQuery) -> (hit: SearchHit)
    ensures
        is_hit_of(hit, row, *query),
{
    let highlight: TextMap<Vec<String>> = collect_highlights(query, &row.highlights);
    SearchHit {
        document_id: row.document_id,
        score_bits: row.score_bits,
        source: merge_title(row.payload, row.title),
        highlight,
        index_key: Some(query.index_key.clone()),
    }
}

/// The response holds the rows whose score is high enough, in their order, each as a hit.
/// The number found counts all rows.
pub open spec fn answers_search(
    response: SearchResponse,
    context: SearchProviderContext,
    query: SearchQuery,
    rows: Seq<SearchRow>,
    facets: TextMap<Vec<FacetBucket>>,
    took_ms: u64,
) -> bool {
    &&& response.total == total_found(rows)
    &&& response.hits@.len() == kept_rows(rows).len()
    &&& forall|i: int|
        0 <= i < response.hits@.len() ==> is_hit_of(
            #[trigger] response.hits@[i],
            kept_rows(rows)[i],
            query,
        )
    &&& response.facets == facets
    &&& response.took_ms == took_ms
    &&& response.max_score_bits == if kept_rows(rows).len() > 0 {
        Some(kept_rows(rows)[0].score_bits)
    } else {
        None
    }
    &&& optional_view(response.request_id) == optional_view(context.request_id)
}

/// The response to a search, by what came of its statement and of its facets. Where the
/// statement failed, the facets do not matter.
pub fn search_response(
    context: &SearchProviderContext,
    query: &SearchQuery,
    rows: Result<Vec<SearchRow>, String>,
    facets: Result<TextMap<Vec<FacetBucket>>, SearchProviderError>,
    took_ms: u64,
) -> (response: Result<SearchResponse, SearchProviderError>)
    ensures
        match response {
            Ok(r) => rows is Ok && facets is Ok && answers_search(
                r,
                *context,
                *query,
                rows->Ok_0@,
                facets->Ok_0,
                took_ms,
            ),
            Err(error) => match rows {
                Ok(_) => facets is Err && error == facets->Err_0,
                Err(message) => error == (SearchProviderError::Backend { message }),
            },
        },
        rows is Ok && facets is Ok ==> response is Ok,
        response is Ok && rows->Ok_0@.len() > 0 && rows->Ok_0@[0].total_count >= 0 && (forall|
            i: int,
        |
            0 <= i < rows->Ok_0@.len() ==> (#[trigger] rows->Ok_0@[i]).total_count
                == rows->Ok_0@[0].total_count) ==> response->Ok_0.total
            == rows->Ok_0@[0].total_count,
{
    let rows: Vec<SearchRow> = match rows {
        Ok(rows) => rows,
        Err(message) => {
            return Err(backend_error(message));
        },
    };
    let facets: TextMap<Vec<FacetBucket>> = match facets {
        Ok(facets) => facets,
        Err(error) => {
            return Err(error);
        },
    };
    let ghost all = rows@;
    let mut total: u64 = 0;
    let mut hits: Vec<SearchHit> = Vec::new();
    for row in it: rows
        invariant
            it.seq() == all,
            total == total_found(all.take(it.index() as int)),
            hits@.len() == kept_rows(all.take(it.index() as int)).len(),
            forall|i: int|
                0 <= i < hits@.len() ==> is_hit_of(
                    #[trigger] hits@[i],
                    kept_rows(all.take(it.index() as int))[i],
                    *query,
                ),
    {
        proof {
            assert(all.take(it.index() + 1).drop_last() == all.take(it.index() as int));
            assert(all.take(it.index() + 1).last() == row);
        }
        total = if row.total_count < 0 { 0 } else { row.total_count as u64 };
        if row.meets_min_score {
            hits.push(build_hit(row, query));
        }
    }
    assert(all.take(all.len() as int) == all);
    let max_score_bits: Option<u64> = if hits.len() > 0 { Some(hits[0].score_bits) } else { None };
    let request_id: Option<String> = match &context.request_id {
        Some(id) => Some(id.clone()),
        None => None,
    };
    Ok(SearchResponse { total, hits, facets, took_ms, max_score_bits, request_id })
}

proof fn lemma_kept_is_part(rows: Seq<SearchRow>, i: int)
    requires
        0 <= i < kept_rows(rows).len(),
    ensures
        kept_rows(rows).len() <= rows.len(),
        rows.contains(kept_rows(rows)[i]),
        kept_rows(rows)[i].meets_min_score,
    decreases rows.len(),
{
    let shorter = rows.drop_last();
    lemma_kept_no_longer(shorter);
    if i < kept_rows(shorter).len() {
        lemma_kept_is_part(shorter, i);
        let j = choose|j: int| 0 <= j < shorter.len() && shorter[j] == kept_rows(shorter)[i];
        assert(rows[j] == kept_rows(rows)[i]);
    } else {
        assert(rows[rows.len() - 1] == kept_rows(rows)[i]);
    }
}

proof fn lemma_kept_no_longer(rows: Seq<SearchRow>)
    ensures
        kept_rows(rows).len() <= rows.len(),
    decreases rows.len(),
{
    if rows.len() > 0 {
        lemma_kept_no_longer(rows.drop_last());
    }
}

/// Every hit comes from a row whose score is high enough, and there are no more
/// hits than rows.
pub proof fn lemma_hits_come_from_rows(rows: Seq<SearchRow>)
    ensures
        kept_rows(rows).len() <= rows.len(),
        forall|i: int|
            0 <= i < kept_rows(rows).len() ==> rows.contains(#[trigger] kept_rows(rows)[i])
                && kept_rows(rows)[i].meets_min_score,
{
    lemma_kept_no_longer(rows);
    assert forall|i: int| 0 <= i < kept_rows(rows).len() implies rows.contains(
        #[trigger] kept_rows(rows)[i],
    ) && kept_rows(rows)[i].meets_min_score by {
        lemma_kept_is_part(rows, i);
    }
}

/// Where the query asks for no least score, every row becomes a hit.
pub proof fn lemma_no_row_lost(rows: Seq<SearchRow>)
    requires
        forall|i: int| 0 <= i < rows.len() ==> (#[trigger] rows[i]).meets_min_score,
    ensures
        kept_rows(rows) == rows,
    decreases rows.len(),
{
    if rows.len() > 0 {
        let shorter = rows.drop_last();
        assert forall|i: int| 0 <= i < shorter.len() implies (#[trigger] shorter[i]).meets_min_score by {
            assert(shorter[i] == rows[i]);
        }
        lemma_no_row_lost(shorter);
        assert(rows[rows.len() - 1].meets_min_score);
        assert(shorter.push(rows.last()) == rows);
    }
}

/// Only fields that the query has highlighted, and that can be embedded, are
/// highlighted in a hit.
pub proof fn lemma_highlights_were_asked_for(
    fields: Seq<String>,
    texts: Seq<Option<String>>,
    field: Seq<char>,
)
    requires
        highlight_map(fields, texts).contains_key(field),
    ensures
        safe_identifier(field),
        exists|i: int| 0 <= i < fields.len() && (#[trigger] fields[i])@ == field,
    decreases fields.len(),
{
    let shorter = fields.drop_last();
    if highlight_map(shorter, texts).contains_key(field) {
        lemma_highlights_were_asked_for(shorter, texts, field);
        let i = choose|i: int| 0 <= i < shorter.len() && (#[trigger] shorter[i])@ == field;
        assert(fields[i]@ == field);
    } else {
        assert(fields[fields.len() - 1]@ == field);
    }
}

} // verus!
