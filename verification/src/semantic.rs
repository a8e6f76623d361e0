//! Semantic search and suggestions: the statements of the PostgreSQL provider and
//! their answers.
use vstd::prelude::*;
use vstd::string::StringExecFns;

use crate::json::{json, null, Json};
use crate::provider_sql::{SEMANTIC_SEARCH, SUGGEST};
use crate::response::{merge_title, titled};
use crate::search::page_limit;
use crate::spi::{backend_error, SearchProviderContext, SearchProviderError};
use crate::statement::{BindValue, Bound, Statement};
use crate::text::{join, joined, optional_view, views};

verus! {

// ---------------------------------------------------------------------------
// Suggestions
// ---------------------------------------------------------------------------

/// A request for suggestions that are similar to a text.
#[derive(Debug)]
pub struct SearchSuggestionQuery {
    pub index_key: String,
    pub prefix: String,
    pub page_size: u32,
}

/// A row of the answer to a request for suggestions. The score is given by the
/// bits of a double-precision number.
#[derive(Debug)]
pub struct SuggestionRow {
    pub text: String,
    pub score_bits: u64,
}

/// A suggestion.
#[derive(Debug)]
pub struct SearchSuggestion {
    pub text: String,
    pub score_bits: u64,
    pub payload: Option<serde_json::Value>,
}

/// The answer to a request for suggestions.
#[derive(Debug)]
pub struct SearchSuggestionResponse {
    pub suggestions: Vec<SearchSuggestion>,
    pub took_ms: u64,
}

/// The statement that finds suggestions.
pub fn suggest(context: &SearchProviderContext, query: &SearchSuggestionQuery) -> (statement:
    Statement)
    ensures
        statement.reads(
            SUGGEST@,
            seq![
                Bound::BigInt(context.tenant_id),
                Bound::BigInt(context.organization_id),
                Bound::Text(query.index_key@),
                Bound::Text(query.prefix@),
                Bound::BigInt(page_limit(query.page_size as int) as i64),
            ],
        ),
{
    let limit: u32 = if query.page_size < 1 { 1 } else { query.page_size };
    let binds: Vec<BindValue> = vec![
        BindValue::BigInt(context.tenant_id),
        BindValue::BigInt(context.organization_id),
        BindValue::Text(query.index_key.clone()),
        BindValue::Text(query.prefix.clone()),
        BindValue::BigInt(limit as i64),
    ];
    Statement { sql: SUGGEST.to_owned(), binds }
}

/// The answer holds every row, in its order, without a payload.
pub open spec fn answers_suggestions(
    response: SearchSuggestionResponse,
    rows: Seq<SuggestionRow>,
    took_ms: u64,
) -> bool {
    &&& response.took_ms == took_ms
    &&& response.suggestions@.len() == rows.len()
    &&& forall|i: int|
        0 <= i < rows.len() ==> (#[trigger] response.suggestions@[i]).text@ == rows[i].text@
            && response.suggestions@[i].score_bits == rows[i].score_bits
            && response.suggestions@[i].payload is None
}

/// The answer to a request for suggestions, by what came of its statement.
pub fn suggestion_response(rows: Result<Vec<SuggestionRow>, String>, took_ms: u64) -> (response: Result<
    SearchSuggestionResponse,
    SearchProviderError,
>)
    ensures
        match response {
            Ok(r) => rows is Ok && answers_suggestions(r, rows->Ok_0@, took_ms),
            Err(error) => rows is Err && error == (SearchProviderError::Backend {
                message: rows->Err_0,
            }),
        },
        rows is Ok ==> response is Ok,
        rows is Ok ==> response->Ok_0.suggestions@.map_values(|s: SearchSuggestion| s.text@)
            == rows->Ok_0@.map_values(|row: SuggestionRow| row.text@),
{
    let rows: Vec<SuggestionRow> = match rows {
        Ok(rows) => rows,
        Err(message) => {
            return Err(backend_error(message));
        },
    };
    let ghost all = rows@;
    let mut suggestions: Vec<SearchSuggestion> = Vec::new();
    for row in it: rows
        invariant
            it.seq() == all,
            suggestions@.len() == it.index(),
            forall|i: int|
                0 <= i < it.index() ==> (#[trigger] suggestions@[i]).text@ == all[i].text@
                    && suggestions@[i].score_bits == all[i].score_bits
                    && suggestions@[i].payload is None,
    {
        suggestions.push(
            SearchSuggestion { text: row.text, score_bits: row.score_bits, payload: None },
        );
    }
    assert(suggestions@.map_values(|s: SearchSuggestion| s.text@) =~= all.map_values(
        |row: SuggestionRow| row.text@,
    ));
    Ok(SearchSuggestionResponse { suggestions, took_ms })
}

// ---------------------------------------------------------------------------
// Semantic search
// ---------------------------------------------------------------------------

/// A request for the documents whose embedding is nearest to a vector. The vector
/// is given by the texts of its numbers.
#[derive(Debug)]
pub struct SemanticSearchQuery {
    pub index_key: String,
    pub query_embedding: Vec<String>,
    pub top_k: u32,
}

/// A row of the answer to a semantic search. The score is given by the bits of a
/// single-precision number; `meets_min_score` says whether it is at least what
/// the query asks for.
#[derive(Debug)]
pub struct SemanticSearchRow {
    pub document_id: String,
    pub score_bits: u32,
    pub meets_min_score: bool,
    pub payload: Option<serde_json::Value>,
    pub title: Option<String>,
}

/// A document that a semantic search found.
#[derive(Debug)]
pub struct SemanticSearchHit {
    pub document_id: String,
    pub score_bits: u32,
    pub source: serde_json::Value,
}

/// The answer to a semantic search.
#[derive(Debug)]
pub struct SemanticSearchResponse {
    pub hits: Vec<SemanticSearchHit>,
    pub took_ms: u64,
}

/// A vector as the database reads it: its numbers in brackets, with commas.
pub open spec fn vector_literal(elements: Seq<Seq<char>>) -> Seq<char> {
    "["@ + joined(elements, ","@) + "]"@
}

/// A vector as the database reads it, from the texts of its numbers.
pub fn format_vector_literal(elements: &Vec<String>) -> (literal: String)
    ensures
        literal@ == vector_literal(views(elements@)),
{
    let mut literal: String = String::from_str("[");
    literal.append(join(elements, ",").as_str());
    literal.append("]");
    literal
}

/// What is bound to the statement of a semantic search.
pub open spec fn semantic_binds(
    context: SearchProviderContext,
    query: SemanticSearchQuery,
) -> Seq<Bound> {
    seq![
        Bound::BigInt(context.tenant_id),
        Bound::BigInt(context.organization_id),
        Bound::Text(query.index_key@),
        Bound::Text(vector_literal(views(query.query_embedding@))),
        Bound::BigInt(page_limit(query.top_k as int) as i64),
    ]
}

/// The statement of a semantic search. A query without a vector has none: it is
/// answered with no hits.
pub fn plan_semantic_search(context: &SearchProviderContext, query: &SemanticSearchQuery) -> (plan:
    Option<Statement>)
    ensures
        match plan {
            Some(statement) => query.query_embedding@.len() > 0 && statement.reads(
                SEMANTIC_SEARCH@,
                semantic_binds(*context, *query),
            ),
            None => query.query_embedding@.len() == 0,
        },
{
    if query.query_embedding.len() == 0 {
        return None;
    }
    let top_k: u32 = if query.top_k < 1 { 1 } else { query.top_k };
    let binds: Vec<BindValue> = vec![
        BindValue::BigInt(context.tenant_id),
        BindValue::BigInt(context.organization_id),
        BindValue::Text(query.index_key.clone()),
        BindValue::Text(format_vector_literal(&query.query_embedding)),
        BindValue::BigInt(top_k as i64),
    ];
    Some(Statement { sql: SEMANTIC_SEARCH.to_owned(), binds })
}

/// What the payload holds; nothing, where there is none.
pub open spec fn payload_or_null(payload: Option<serde_json::Value>) -> Json {
    match payload {
        Some(value) => json(value),
        None => Json::Null,
    }
}

/// The hit that a row becomes.
pub open spec fn is_semantic_hit_of(hit: SemanticSearchHit, row: SemanticSearchRow) -> bool {
    &&& hit.document_id@ == row.document_id@
    &&& hit.score_bits == row.score_bits
    &&& json(hit.source) == titled(payload_or_null(row.payload), optional_view(row.title))
}

/// The rows whose score is high enough.
pub open spec fn kept_semantic_rows(rows: Seq<SemanticSearchRow>) -> Seq<SemanticSearchRow>
    decreases rows.len(),
{
    if rows.len() == 0 {
        Seq::empty()
    } else if rows.last().meets_min_score {
        kept_semantic_rows(rows.drop_last()).push(rows.last())
    } else {
        kept_semantic_rows(rows.drop_last())
    }
}

/// The answer holds the rows whose score is high enough, in their order.
pub open spec fn answers_semantic(
    response: SemanticSearchResponse,
    rows: Seq<SemanticSearchRow>,
    took_ms: u64,
) -> bool {
    &&& response.took_ms == took_ms
    &&& response.hits@.len() == kept_semantic_rows(rows).len()
    &&& forall|i: int|
        0 <= i < response.hits@.len() ==> is_semantic_hit_of(
            #[trigger] response.hits@[i],
            kept_semantic_rows(rows)[i],
        )
}

/// The answer to a semantic search, by what came of its statement. A search that has no
/// statement has no rows.
pub fn semantic_response(rows: Result<Vec<SemanticSearchRow>, String>, took_ms: u64) -> (response: Result<
    SemanticSearchResponse,
    SearchProviderError,
>)
    ensures
        match response {
            Ok(r) => rows is Ok && answers_semantic(r, rows->Ok_0@, took_ms),
            Err(error) => rows is Err && error == (SearchProviderError::Backend {
                message: rows->Err_0,
            }),
        },
{
    let rows: Vec<SemanticSearchRow> = match rows {
        Ok(rows) => rows,
        Err(message) => {
            return Err(backend_error(message));
        },
    };
    let ghost all = rows@;
    let mut hits: Vec<SemanticSearchHit> = Vec::new();
    for row in it: rows
        invariant
            it.seq() == all,
            hits@.len() == kept_semantic_rows(all.take(it.index() as int)).len(),
            forall|i: int|
                0 <= i < hits@.len() ==> is_semantic_hit_of(
                    #[trigger] hits@[i],
                    kept_semantic_rows(all.take(it.index() as int))[i],
                ),
    {
        proof {
            assert(all.take(it.index() + 1).drop_last() == all.take(it.index() as int));
            assert(all.take(it.index() + 1).last() == row);
        }
        if row.meets_min_score {
            let payload: serde_json::Value = match row.payload {
                Some(value) => value,
                None => null(),
            };
            hits.push(
                SemanticSearchHit {
                    document_id: row.document_id,
                    score_bits: row.score_bits,
                    source: merge_title(payload, row.title),
                },
            );
        }
    }
    assert(all.take(all.len() as int) == all);
    Ok(SemanticSearchResponse { hits, took_ms })
}

/// A document without a payload is found without a source: a title is merged into
/// objects only.
pub proof fn lemma_no_payload_no_title(title: Option<Seq<char>>)
    ensures
        titled(Json::Null, title) == Json::Null,
{
}

} // verus!
