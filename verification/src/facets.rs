//! Facets: how many documents have each value of a field, under the filters of a
//! query but whatever text it asks for.
use vstd::prelude::*;
use vstd::string::StringExecFns;

use crate::search::{
    filter_conditions, has_text, parameter_count, push_filter_conditions, push_values,
    scope_conditions, usable, value_binds, where_clause,
};
use crate::spi::{
    backend_error, FacetBucket, SearchFilter, SearchProviderContext, SearchProviderError, SearchQuery,
};
use crate::statement::{bounds, BindValue, Bound, Statement};
use crate::text::{is_safe_identifier, join, joined, safe_identifier, views};
use crate::text_map::TextMap;

verus! {

// ---------------------------------------------------------------------------
// The statement of a facet
// ---------------------------------------------------------------------------

/// The conditions of a search, with those on the text taken to hold. No parameter
/// stands for the text, so those of the filters start with the fourth.
pub open spec fn facet_conditions(query: SearchQuery) -> Seq<Seq<char>> {
    (if has_text(query) {
        scope_conditions().push("(true OR true OR true)"@)
    } else {
        scope_conditions()
    }) + filter_conditions(query.filters@, 4)
}

/// The conditions of the facets of a query, all of which a document has to meet.
pub open spec fn facet_where(query: SearchQuery) -> Seq<char> {
    joined(facet_conditions(query), " AND "@)
}

/// The text of the statement of a facet.
pub open spec fn facet_sql(field: Seq<char>, query: SearchQuery) -> Seq<char> {
    "SELECT payload_json->>'"@ + field
        + "' AS value, COUNT(*) AS count\n                   FROM search_document\n                   WHERE "@
        + facet_where(query) + "\n                   AND payload_json ? '"@ + field
        + "'\n                   AND payload_json->>'"@ + field
        + "' IS NOT NULL\n                   AND payload_json->>'"@ + field
        + "' != ''\n                   GROUP BY payload_json->>'"@ + field
        + "'\n                   ORDER BY count DESC\n                   LIMIT 50"@
}

/// The values of the filters that become conditions, one filter after the other.
pub open spec fn usable_binds(filters: Seq<SearchFilter>) -> Seq<Bound>
    decreases filters.len(),
{
    if filters.len() == 0 {
        Seq::empty()
    } else if usable(filters.last()) {
        usable_binds(filters.drop_last()) + value_binds(filters.last().values@)
    } else {
        usable_binds(filters.drop_last())
    }
}

/// What is bound to the statement of a facet.
pub open spec fn facet_binds(context: SearchProviderContext, query: SearchQuery) -> Seq<Bound> {
    seq![
        Bound::BigInt(context.tenant_id),
        Bound::BigInt(context.organization_id),
        Bound::Text(query.index_key@),
    ] + usable_binds(query.filters@)
}

/// The facet fields that can be embedded.
pub open spec fn facet_fields(facets: Seq<String>) -> Seq<Seq<char>>
    decreases facets.len(),
{
    if facets.len() == 0 {
        Seq::empty()
    } else if safe_identifier(facets.last()@) {
        facet_fields(facets.drop_last()).push(facets.last()@)
    } else {
        facet_fields(facets.drop_last())
    }
}

/// A facet field and the statement that counts its values.
#[derive(Debug)]
pub struct FacetRequest {
    pub field: String,
    pub statement: Statement,
}

/// The fields of the requests.
pub open spec fn request_fields(requests: Seq<FacetRequest>) -> Seq<Seq<char>> {
    Seq::new(requests.len(), |i: int| requests[i].field@)
}

/// The conditions of the facets of a query. Where it asks for no text, they are those of
/// the search.
fn build_facet_where(query: &SearchQuery, base_where: &str) -> (text: String)
    requires
        base_where@ == where_clause(*query),
        4 + parameter_count(query.filters@) <= usize::MAX,
    ensures
        text@ == facet_where(*query),
{
    if query.query_text.as_str().is_empty() {
        return base_where.to_owned();
    }
    let mut parts: Vec<String> = Vec::new();
    parts.push("tenant_id = $1".to_owned());
    parts.push("organization_id = $2".to_owned());
    parts.push("index_key = $3".to_owned());
    parts.push("deleted_at IS NULL".to_owned());
    parts.push("(true OR true OR true)".to_owned());
    assert(views(parts@) == scope_conditions().push("(true OR true OR true)"@));
    let _ = push_filter_conditions(&query.filters, 4, &mut parts);
    join(&parts, " AND ")
}

/// The text of the statement of a facet.
fn build_facet_sql(field: &str, query: &SearchQuery, where_text: &str) -> (sql: String)
    requires
        where_text@ == facet_where(*query),
    ensures
        sql@ == facet_sql(field@, *query),
{
    let mut sql: String = String::from_str("SELECT payload_json->>'");
    sql.append(field);
    sql.append(
        "' AS value, COUNT(*) AS count\n                   FROM search_document\n                   WHERE ",
    );
    sql.append(where_text);
    sql.append("\n                   AND payload_json ? '");
    sql.append(field);
    sql.append("'\n                   AND payload_json->>'");
    sql.append(field);
    sql.append("' IS NOT NULL\n                   AND payload_json->>'");
    sql.append(field);
    sql.append("' != ''\n                   GROUP BY payload_json->>'");
    sql.append(field);
    sql.append("'\n                   ORDER BY count DESC\n                   LIMIT 50");
    sql
}

/// Adds the values of the filters that become conditions to what is bound.
fn push_usable_binds(filters: &Vec<SearchFilter>, binds: &mut Vec<BindValue>)
    ensures
        bounds(final(binds)@) == bounds(old(binds)@) + usable_binds(filters@),
{
    let mut i: usize = 0;
    assert(bounds(binds@) == bounds(old(binds)@) + usable_binds(filters@.take(0)));
    while i < filters.len()
        invariant
            i <= filters@.len(),
            bounds(binds@) == bounds(old(binds)@) + usable_binds(filters@.take(i as int)),
        decreases filters.len() - i,
    {
        let ghost given = bounds(old(binds)@);
        proof {
            assert(filters@.take(i + 1).drop_last() == filters@.take(i as int));
            assert(filters@.take(i + 1).last() == filters@[i as int]);
        }
        if is_safe_identifier(filters[i].key.as_str()) {
            push_values(&filters[i].values, binds);
            assert(bounds(binds@) == given + usable_binds(filters@.take(i + 1)));
        }
        i += 1;
    }
    assert(filters@.take(i as int) == filters@);
}

/// The statements that count the facets of a query. `base_where` holds the
/// conditions of the search.
pub fn plan_facets(context: &SearchProviderContext, query: &SearchQuery, base_where: &str) -> (requests:
    Vec<FacetRequest>)
    requires
        base_where@ == where_clause(*query),
        4 + parameter_count(query.filters@) <= usize::MAX,
    ensures
        request_fields(requests@) == facet_fields(query.facets@),
        forall|i: int|
            0 <= i < requests@.len() ==> (#[trigger] requests@[i]).statement.reads(
                facet_sql(requests@[i].field@, *query),
                facet_binds(*context, *query),
            ),
{
    let where_text: String = build_facet_where(query, base_where);
    let mut requests: Vec<FacetRequest> = Vec::new();
    let mut i: usize = 0;
    assert(request_fields(requests@) == facet_fields(query.facets@.take(0)));
    while i < query.facets.len()
        invariant
            i <= query.facets@.len(),
            where_text@ == facet_where(*query),
            request_fields(requests@) == facet_fields(query.facets@.take(i as int)),
            forall|k: int|
                0 <= k < requests@.len() ==> (#[trigger] requests@[k]).statement.reads(
                    facet_sql(requests@[k].field@, *query),
                    facet_binds(*context, *query),
                ),
        decreases query.facets.len() - i,
    {
        proof {
            assert(query.facets@.take(i + 1).drop_last() == query.facets@.take(i as int));
            assert(query.facets@.take(i + 1).last() == query.facets@[i as int]);
        }
        let field: &String = &query.facets[i];
        if is_safe_identifier(field.as_str()) {
            let sql: String = build_facet_sql(field.as_str(), query, where_text.as_str());
            let mut binds: Vec<BindValue> = Vec::new();
            binds.push(BindValue::BigInt(context.tenant_id));
            binds.push(BindValue::BigInt(context.organization_id));
            binds.push(BindValue::Text(query.index_key.clone()));
            push_usable_binds(&query.filters, &mut binds);
            assert(bounds(binds@) == facet_binds(*context, *query));
            let ghost before = requests@;
            requests.push(FacetRequest { field: field.clone(), statement: Statement { sql, binds } });
            assert(request_fields(requests@) == request_fields(before).push(field@));
        }
        i += 1;
    }
    assert(query.facets@.take(i as int) == query.facets@);
    requests
}

// ---------------------------------------------------------------------------
// The answer
// ---------------------------------------------------------------------------

/// A row of the answer to a facet request.
#[derive(Debug)]
pub struct FacetRow {
    pub value: Option<String>,
    pub count: i64,
}

/// The buckets of a facet: the rows that have a value.
pub open spec fn facet_buckets(rows: Seq<FacetRow>) -> Seq<FacetBucket>
    decreases rows.len(),
{
    if rows.len() == 0 {
        Seq::empty()
    } else {
        match rows.last().value {
            Some(value) => facet_buckets(rows.drop_last()).push(
                FacetBucket { value, count: rows.last().count as u64 },
            ),
            None => facet_buckets(rows.drop_last()),
        }
    }
}

/// The buckets of every facet field. Where a field was asked for twice, the later
/// answer stands.
pub open spec fn facet_map(
    fields: Seq<Seq<char>>,
    answers: Seq<Result<Vec<FacetRow>, String>>,
) -> Map<Seq<char>, Seq<FacetBucket>>
    decreases answers.len(),
{
    if answers.len() == 0 {
        Map::empty()
    } else {
        let others = facet_map(fields, answers.drop_last());
        match answers.last() {
            Ok(rows) => others.insert(fields[answers.len() - 1], facet_buckets(rows@)),
            Err(_) => others,
        }
    }
}

/// Every statement was answered.
pub open spec fn all_answered(answers: Seq<Result<Vec<FacetRow>, String>>) -> bool {
    forall|i: int| 0 <= i < answers.len() ==> (#[trigger] answers[i]) is Ok
}

/// A statement failed with that message, and none before it did.
pub open spec fn is_first_unanswered(
    answers: Seq<Result<Vec<FacetRow>, String>>,
    message: Seq<char>,
) -> bool {
    exists|i: int|
        0 <= i < answers.len() && (#[trigger] answers[i]) is Err && answers[i]->Err_0@ == message
            && all_answered(answers.take(i))
}

/// The buckets of each field as a sequence.
pub open spec fn bucket_lists(facets: Map<Seq<char>, Vec<FacetBucket>>) -> Map<
    Seq<char>,
    Seq<FacetBucket>,
> {
    Map::new(|field: Seq<char>| facets.contains_key(field), |field: Seq<char>| facets[field]@)
}

/// The buckets of a facet.
pub fn collect_buckets(rows: Vec<FacetRow>) -> (buckets: Vec<FacetBucket>)
    ensures
        buckets@ == facet_buckets(rows@),
{
    let ghost all = rows@;
    let mut buckets: Vec<FacetBucket> = Vec::new();
    for row in it: rows
        invariant
            it.seq() == all,
            buckets@ == facet_buckets(all.take(it.index() as int)),
    {
        proof {
            assert(all.take(it.index() + 1).drop_last() == all.take(it.index() as int));
            assert(all.take(it.index() + 1).last() == row);
        }
        match row.value {
            Some(value) => {
                buckets.push(FacetBucket { value, count: row.count as u64 });
            },
            None => {},
        }
    }
    assert(all.take(all.len() as int) == all);
    buckets
}

/// The request to carry out next, by what came of those before it: each in turn, and none
/// after one that failed.
pub fn next_facet(requests: &Vec<FacetRequest>, answers: &Vec<Result<Vec<FacetRow>, String>>) -> (next:
    Option<usize>)
    ensures
        match next {
            Some(i) => i == answers@.len() && i < requests@.len() && all_answered(answers@),
            None => answers@.len() >= requests@.len() || !all_answered(answers@),
        },
{
    let mut i: usize = 0;
    while i < answers.len()
        invariant
            i <= answers@.len(),
            forall|k: int| 0 <= k < i ==> (#[trigger] answers@[k]) is Ok,
        decreases answers.len() - i,
    {
        if answers[i].is_err() {
            assert(answers@[i as int] is Err);
            return None;
        }
        i += 1;
    }
    if answers.len() < requests.len() {
        Some(answers.len())
    } else {
        None
    }
}

/// The buckets of every facet field, by what came of the requests, or the first failure.
pub fn collect_facets(
    requests: &Vec<FacetRequest>,
    answers: Vec<Result<Vec<FacetRow>, String>>,
) -> (facets: Result<TextMap<Vec<FacetBucket>>, SearchProviderError>)
    requires
        answers@.len() <= requests@.len(),
        all_answered(answers@) ==> answers@.len() == requests@.len(),
    ensures
        match facets {
            Ok(f) => all_answered(answers@) && bucket_lists(f@) == facet_map(
                request_fields(requests@),
                answers@,
            ),
            Err(error) => error is Backend && is_first_unanswered(
                answers@,
                error->Backend_message@,
            ),
        },
{
    let ghost all = answers@;
    let mut facets: TextMap<Vec<FacetBucket>> = TextMap::new();
    let mut i: usize = 0;
    assert(bucket_lists(facets@) =~= facet_map(request_fields(requests@), all.take(0)));
    for answer in it: answers
        invariant
            it.seq() == all,
            i == it.index(),
            all.len() <= requests.len(),
            forall|k: int| 0 <= k < i ==> (#[trigger] all[k]) is Ok,
            bucket_lists(facets@) == facet_map(request_fields(requests@), all.take(i as int)),
    {
        let ghost before = facets@;
        proof {
            assert(all.take(i + 1).drop_last() == all.take(i as int));
            assert(all.take(i + 1).last() == answer);
            assert(all[i as int] == answer);
        }
        let rows: Vec<FacetRow> = match answer {
            Ok(rows) => rows,
            Err(message) => {
                assert(all[i as int] is Err && all_answered(all.take(i as int)));
                return Err(backend_error(message));
            },
        };
        let buckets: Vec<FacetBucket> = collect_buckets(rows);
        let field: String = requests[i].field.clone();
        let ghost name = field@;
        let ghost list = buckets;
        facets.insert(field, buckets);
        assert(bucket_lists(facets@) =~= bucket_lists(before).insert(name, list@));
        i += 1;
    }
    assert(all.take(all.len() as int) == all);
    Ok(facets)
}

} // verus!
