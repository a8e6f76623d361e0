//! What holds of every facet statement: what it counts, and what is bound to it.
use vstd::prelude::*;

use crate::facets::{
    all_answered, bucket_lists, facet_binds, facet_buckets, facet_conditions, facet_fields,
    facet_map, facet_sql, facet_where, is_first_unanswered, request_fields, usable_binds,
    FacetRequest, FacetRow,
};
use crate::search::{
    conditions, filter_condition, filter_conditions, has_text, parameter_count, placeholders,
    scope_conditions, usable,
};
use crate::search_laws::{lemma_same_shape_conditions, same_filter_shape};
use crate::spi::{FacetBucket, SearchFilter, SearchProviderContext, SearchQuery};
use crate::statement::Bound;
use crate::text::{decimal, joined, lemma_joined_push, safe_identifier};

verus! {

/// A facet counts the documents that meet every condition of the search but those on
/// its text: its conditions are those of the search for no text under the same filters,
/// and, where the query asks for a text, one that always holds.
pub proof fn lemma_facets_ignore_text(query: SearchQuery, without_text: SearchQuery)
    requires
        without_text.filters@ == query.filters@,
        !has_text(without_text),
    ensures
        facet_conditions(query) == if has_text(query) {
            conditions(without_text).insert(4, "(true OR true OR true)"@)
        } else {
            conditions(without_text)
        },
{
    assert(facet_conditions(query) =~= if has_text(query) {
        conditions(without_text).insert(4, "(true OR true OR true)"@)
    } else {
        conditions(without_text)
    });
}

/// The document meets the conditions, by what each of them says of a document under the
/// values that are bound.
pub open spec fn meets<D>(
    holds: spec_fn(Seq<char>, Seq<Bound>, D) -> bool,
    conditions: Seq<Seq<char>>,
    binds: Seq<Bound>,
    document: D,
) -> bool {
    forall|i: int| 0 <= i < conditions.len() ==> holds(#[trigger] conditions[i], binds, document)
}

proof fn lemma_meets_parts<D>(
    query: SearchQuery,
    holds: spec_fn(Seq<char>, Seq<Bound>, D) -> bool,
    binds: Seq<Bound>,
    document: D,
)
    requires
        holds("(true OR true OR true)"@, binds, document),
    ensures
        meets(holds, facet_conditions(query), binds, document) == (meets(
            holds,
            scope_conditions(),
            binds,
            document,
        ) && meets(holds, filter_conditions(query.filters@, 4), binds, document)),
{
    let all = facet_conditions(query);
    let scope = scope_conditions();
    let filters = filter_conditions(query.filters@, 4);
    let first = all.len() - filters.len();
    if meets(holds, all, binds, document) {
        assert forall|i: int| 0 <= i < scope.len() implies holds(
            #[trigger] scope[i],
            binds,
            document,
        ) by {
            assert(all[i] == scope[i]);
        }
        assert forall|i: int| 0 <= i < filters.len() implies holds(
            #[trigger] filters[i],
            binds,
            document,
        ) by {
            assert(all[first + i] == filters[i]);
        }
    }
    if meets(holds, scope, binds, document) && meets(holds, filters, binds, document) {
        assert forall|i: int| 0 <= i < all.len() implies holds(
            #[trigger] all[i],
            binds,
            document,
        ) by {
            if i < scope.len() {
                assert(all[i] == scope[i]);
            } else if i >= first {
                assert(all[i] == filters[i - first]);
            }
        }
    }
}

/// The facets of a query count the same documents whatever text it asks for, or none: two
/// queries of the same index under the same filters have the same values bound, and a
/// document meets the conditions of the one where it meets those of the other. Of what the
/// conditions say, only that `(true OR true OR true)` always holds is used.
pub proof fn lemma_facets_count_alike<D>(
    context: SearchProviderContext,
    a: SearchQuery,
    b: SearchQuery,
    holds: spec_fn(Seq<char>, Seq<Bound>, D) -> bool,
    document: D,
)
    requires
        a.index_key@ == b.index_key@,
        a.filters@ == b.filters@,
        forall|binds: Seq<Bound>, d: D| #[trigger] holds("(true OR true OR true)"@, binds, d),
    ensures
        facet_binds(context, a) == facet_binds(context, b),
        meets(holds, facet_conditions(a), facet_binds(context, a), document) == meets(
            holds,
            facet_conditions(b),
            facet_binds(context, b),
            document,
        ),
{
    lemma_meets_parts(a, holds, facet_binds(context, a), document);
    lemma_meets_parts(b, holds, facet_binds(context, a), document);
}

proof fn lemma_usable_bind_count(filters: Seq<SearchFilter>)
    ensures
        usable_binds(filters).len() == parameter_count(filters),
    decreases filters.len(),
{
    if filters.len() > 0 {
        lemma_usable_bind_count(filters.drop_last());
    }
}

proof fn lemma_usable_bind_place(filters: Seq<SearchFilter>, i: int, j: int)
    requires
        0 <= i < filters.len(),
        usable(filters[i]),
        0 <= j < filters[i].values@.len(),
    ensures
        parameter_count(filters.take(i)) + j < usable_binds(filters).len(),
        usable_binds(filters)[parameter_count(filters.take(i)) + j] == Bound::Text(
            filters[i].values@[j]@,
        ),
    decreases filters.len(),
{
    let shorter = filters.drop_last();
    lemma_usable_bind_count(shorter);
    if i < shorter.len() {
        lemma_usable_bind_place(shorter, i, j);
        assert(shorter.take(i) == filters.take(i));
    } else {
        assert(filters.take(i) == shorter);
    }
}

/// A facet statement has as many parameters as values are bound to it: three for the
/// tenant, the organization and the index, and those of the filters.
pub proof fn lemma_facet_parameters_match_binds(context: SearchProviderContext, query: SearchQuery)
    ensures
        facet_binds(context, query).len() == 3 + parameter_count(query.filters@),
{
    lemma_usable_bind_count(query.filters@);
}

/// The parameters of the condition of a filter are bound to the values of that filter,
/// in their order. They are counted from the fourth.
pub proof fn lemma_facet_filter_values_bound(
    context: SearchProviderContext,
    query: SearchQuery,
    i: int,
    j: int,
)
    requires
        0 <= i < query.filters@.len(),
        usable(query.filters@[i]),
        0 <= j < query.filters@[i].values@.len(),
    ensures
        ({
            let parameter = 4 + parameter_count(query.filters@.take(i)) + j;
            &&& parameter <= facet_binds(context, query).len()
            &&& facet_binds(context, query)[parameter - 1] == Bound::Text(
                query.filters@[i].values@[j]@,
            )
        }),
{
    lemma_usable_bind_place(query.filters@, i, j);
}

/// Every facet is confined to the tenant, the organization and the index of its search:
/// they are the first three values bound.
pub proof fn lemma_facet_is_scoped(context: SearchProviderContext, query: SearchQuery)
    ensures
        facet_binds(context, query)[0] == Bound::BigInt(context.tenant_id),
        facet_binds(context, query)[1] == Bound::BigInt(context.organization_id),
        facet_binds(context, query)[2] == Bound::Text(query.index_key@),
{
}

/// The text of a facet statement does not depend on what is bound to it, nor on the text
/// that the query asks for, as long as both queries or neither ask for one.
pub proof fn lemma_facet_text_free_of_values(field: Seq<char>, a: SearchQuery, b: SearchQuery)
    requires
        has_text(a) == has_text(b),
        same_filter_shape(a.filters@, b.filters@),
    ensures
        facet_sql(field, a) == facet_sql(field, b),
{
    lemma_same_shape_conditions(a.filters@, b.filters@, 4);
}

// ---------------------------------------------------------------------------
// The conditions of a facet
// ---------------------------------------------------------------------------

/// The facets of a query without filters count all documents of its tenant, its organization
/// and its index that are not deleted.
pub proof fn lemma_facets_without_filters(query: SearchQuery)
    requires
        query.filters@.len() == 0,
    ensures
        query.query_text@.len() == 0 ==> facet_where(query)
            == "tenant_id = $1 AND organization_id = $2 AND index_key = $3 AND deleted_at IS NULL"@,
        query.query_text@.len() > 0 ==> facet_where(query)
            == "tenant_id = $1 AND organization_id = $2 AND index_key = $3 AND deleted_at IS NULL AND (true OR true OR true)"@,
{
    reveal_strlit("tenant_id = $1");
    reveal_strlit("organization_id = $2");
    reveal_strlit("index_key = $3");
    reveal_strlit("deleted_at IS NULL");
    reveal_strlit("(true OR true OR true)");
    reveal_strlit(" AND ");
    reveal_strlit(
        "tenant_id = $1 AND organization_id = $2 AND index_key = $3 AND deleted_at IS NULL",
    );
    reveal_strlit(
        "tenant_id = $1 AND organization_id = $2 AND index_key = $3 AND deleted_at IS NULL AND (true OR true OR true)",
    );
    let and = " AND "@;
    let scope = scope_conditions();
    reveal_with_fuel(joined, 5);
    assert(scope.drop_last().drop_last().drop_last() =~= seq![scope[0]]);
    assert(joined(scope, and) =~= scope[0] + and + scope[1] + and + scope[2] + and + scope[3]);
    assert(query.filters@ =~= Seq::empty());
    if query.query_text@.len() == 0 {
        assert(facet_conditions(query) =~= scope);
        assert(facet_where(query)
            =~= "tenant_id = $1 AND organization_id = $2 AND index_key = $3 AND deleted_at IS NULL"@);
    } else {
        assert(facet_conditions(query) =~= scope.push("(true OR true OR true)"@));
        lemma_joined_push(scope, "(true OR true OR true)"@, and);
        assert(facet_where(query)
            =~= "tenant_id = $1 AND organization_id = $2 AND index_key = $3 AND deleted_at IS NULL AND (true OR true OR true)"@);
    }
}

/// One more filter is one more condition of the facets, with a parameter for each of its
/// values, numbered on from those before; and its values are bound behind those before. A
/// filter whose key cannot be embedded, or that has no values, changes nothing.
pub proof fn lemma_facets_under_one_more_filter(
    context: SearchProviderContext,
    a: SearchQuery,
    b: SearchQuery,
    filter: SearchFilter,
)
    requires
        b.filters@ == a.filters@.push(filter),
        a.query_text@ == b.query_text@,
        a.index_key@ == b.index_key@,
    ensures
        safe_identifier(filter.key@) && filter.values@.len() > 0 ==> {
            let next = facet_binds(context, a).len() + 1;
            &&& facet_where(b) == facet_where(a) + " AND payload_json->>'"@ + filter.key@
                + "' IN ("@ + joined(
                Seq::new(filter.values@.len(), |i: int| "$"@ + decimal((next + i) as nat)),
                ", "@,
            ) + ")"@
            &&& facet_binds(context, b) == facet_binds(context, a) + filter.values@.map_values(
                |value: String| Bound::Text(value@),
            )
        },
        !safe_identifier(filter.key@) || filter.values@.len() == 0 ==> facet_where(b)
            == facet_where(a) && facet_binds(context, b) == facet_binds(context, a),
{
    let and = " AND "@;
    assert(b.filters@.drop_last() =~= a.filters@);
    assert(b.filters@.last() == filter);
    let before = facet_conditions(a);
    lemma_usable_bind_count(a.filters@);
    if usable(filter) {
        let next = facet_binds(context, a).len() + 1;
        assert(next == 4 + parameter_count(a.filters@));
        let condition = filter_condition(filter, next);
        assert(facet_conditions(b) =~= before.push(condition));
        lemma_joined_push(before, condition, and);
        reveal_strlit(" AND ");
        reveal_strlit("payload_json->>'");
        reveal_strlit(" AND payload_json->>'");
        assert(and + "payload_json->>'"@ =~= " AND payload_json->>'"@);
        let numbers = Seq::new(filter.values@.len(), |i: int| "$"@ + decimal((next + i) as nat));
        assert(placeholders(next, filter.values@.len()) =~= numbers);
        assert(facet_where(b) =~= facet_where(a) + (and + "payload_json->>'"@) + filter.key@
            + "' IN ("@ + joined(numbers, ", "@) + ")"@);
        assert(facet_binds(context, b) =~= facet_binds(context, a) + filter.values@.map_values(
            |value: String| Bound::Text(value@),
        ));
    } else {
        assert(facet_conditions(b) =~= before);
    }
}

/// Where a query has no filters, only its tenant, its organization and its index are bound.
pub proof fn lemma_facet_binds_without_filters(context: SearchProviderContext, query: SearchQuery)
    requires
        query.filters@.len() == 0,
    ensures
        facet_binds(context, query) == seq![
            Bound::BigInt(context.tenant_id),
            Bound::BigInt(context.organization_id),
            Bound::Text(query.index_key@),
        ],
{
    assert(query.filters@ =~= Seq::empty());
    assert(facet_binds(context, query) =~= seq![
        Bound::BigInt(context.tenant_id),
        Bound::BigInt(context.organization_id),
        Bound::Text(query.index_key@),
    ]);
}

/// A facet statement counts the values of its field among the documents that have one that is
/// not empty, and gives the fifty most frequent ones, the most frequent first.
pub proof fn lemma_facet_statement_text(field: Seq<char>, query: SearchQuery)
    ensures
        ("SELECT payload_json->>'"@ + field
            + "' AS value, COUNT(*) AS count\n                   FROM search_document\n                   WHERE "@
            + facet_where(query)).is_prefix_of(facet_sql(field, query)),
        ("\n                   AND payload_json ? '"@ + field
            + "'\n                   AND payload_json->>'"@ + field
            + "' IS NOT NULL\n                   AND payload_json->>'"@ + field
            + "' != ''\n                   GROUP BY payload_json->>'"@ + field
            + "'\n                   ORDER BY count DESC\n                   LIMIT 50"@).is_suffix_of(
            facet_sql(field, query),
        ),
        facet_sql(field, query).len() == ("SELECT payload_json->>'"@ + field
            + "' AS value, COUNT(*) AS count\n                   FROM search_document\n                   WHERE "@
            + facet_where(query)).len() + ("\n                   AND payload_json ? '"@ + field
            + "'\n                   AND payload_json->>'"@ + field
            + "' IS NOT NULL\n                   AND payload_json->>'"@ + field
            + "' != ''\n                   GROUP BY payload_json->>'"@ + field
            + "'\n                   ORDER BY count DESC\n                   LIMIT 50"@).len(),
{
    let start = "SELECT payload_json->>'"@ + field
        + "' AS value, COUNT(*) AS count\n                   FROM search_document\n                   WHERE "@
        + facet_where(query);
    let end = "\n                   AND payload_json ? '"@ + field
        + "'\n                   AND payload_json->>'"@ + field
        + "' IS NOT NULL\n                   AND payload_json->>'"@ + field
        + "' != ''\n                   GROUP BY payload_json->>'"@ + field
        + "'\n                   ORDER BY count DESC\n                   LIMIT 50"@;
    let whole = facet_sql(field, query);
    assert(whole =~= start + end);
    assert(whole.subrange(0, start.len() as int) =~= start);
    assert(whole.subrange(whole.len() - end.len(), whole.len() as int) =~= end);
}

// ---------------------------------------------------------------------------
// The fields
// ---------------------------------------------------------------------------

proof fn lemma_facet_fields(facets: Seq<String>)
    ensures
        facet_fields(facets) == facets.filter(|facet: String| safe_identifier(facet@)).map_values(
            |facet: String| facet@,
        ),
    decreases facets.len(),
{
    reveal(Seq::filter);
    let safe = |facet: String| safe_identifier(facet@);
    let text = |facet: String| facet@;
    if facets.len() > 0 {
        lemma_facet_fields(facets.drop_last());
    }
    assert(facet_fields(facets) =~= facets.filter(safe).map_values(text));
}

/// The facets that are counted are those that the query names and that can be embedded, one
/// by one and in their order.
pub proof fn lemma_each_facet_requested(requests: Seq<FacetRequest>, facets: Seq<String>)
    requires
        request_fields(requests) == facet_fields(facets),
    ensures
        requests.map_values(|request: FacetRequest| request.field@) == facets.filter(
            |facet: String| safe_identifier(facet@),
        ).map_values(|facet: String| facet@),
{
    lemma_facet_fields(facets);
    assert(requests.map_values(|request: FacetRequest| request.field@) =~= request_fields(requests));
}

// ---------------------------------------------------------------------------
// The answer
// ---------------------------------------------------------------------------

/// The buckets of a facet are the rows that have a value, one by one and in their order, each
/// with the value and the count of its row.
pub proof fn lemma_buckets_are_the_rows(rows: Seq<FacetRow>)
    ensures
        facet_buckets(rows).map_values(|bucket: FacetBucket| bucket.value@) == rows.filter(
            |row: FacetRow| row.value is Some,
        ).map_values(|row: FacetRow| row.value->0@),
        facet_buckets(rows).map_values(|bucket: FacetBucket| bucket.count) == rows.filter(
            |row: FacetRow| row.value is Some,
        ).map_values(|row: FacetRow| row.count as u64),
    decreases rows.len(),
{
    reveal(Seq::filter);
    let valued = |row: FacetRow| row.value is Some;
    let value_of = |bucket: FacetBucket| bucket.value@;
    let count_of = |bucket: FacetBucket| bucket.count;
    let row_value = |row: FacetRow| row.value->0@;
    let row_count = |row: FacetRow| row.count as u64;
    if rows.len() > 0 {
        lemma_buckets_are_the_rows(rows.drop_last());
        let before = facet_buckets(rows.drop_last());
        let kept = rows.drop_last().filter(valued);
        if rows.last().value is Some {
            let bucket = FacetBucket {
                value: rows.last().value->0,
                count: rows.last().count as u64,
            };
            assert(rows.filter(valued) == kept.push(rows.last()));
            assert(before.push(bucket).map_values(value_of) =~= before.map_values(value_of).push(
                value_of(bucket),
            ));
            assert(before.push(bucket).map_values(count_of) =~= before.map_values(count_of).push(
                count_of(bucket),
            ));
            assert(kept.push(rows.last()).map_values(row_value) =~= kept.map_values(
                row_value,
            ).push(row_value(rows.last())));
            assert(kept.push(rows.last()).map_values(row_count) =~= kept.map_values(
                row_count,
            ).push(row_count(rows.last())));
        }
    }
    assert(facet_buckets(rows).map_values(value_of) =~= rows.filter(valued).map_values(row_value));
    assert(facet_buckets(rows).map_values(count_of) =~= rows.filter(valued).map_values(row_count));
}

/// Where every row has a value, there is a bucket for each, with its value and its count.
pub proof fn lemma_every_row_is_a_bucket(rows: Seq<FacetRow>)
    requires
        forall|i: int|
            0 <= i < rows.len() ==> (#[trigger] rows[i]).value is Some && rows[i].count >= 0,
    ensures
        facet_buckets(rows).len() == rows.len(),
        forall|i: int|
            0 <= i < rows.len() ==> (#[trigger] facet_buckets(rows)[i]).value@
                == rows[i].value->0@ && facet_buckets(rows)[i].count == rows[i].count,
    decreases rows.len(),
{
    if rows.len() > 0 {
        let shorter = rows.drop_last();
        assert forall|i: int| 0 <= i < shorter.len() implies (#[trigger] shorter[i]).value is Some
            && shorter[i].count >= 0 by {
            assert(shorter[i] == rows[i]);
        }
        lemma_every_row_is_a_bucket(shorter);
        assert(rows[rows.len() - 1].value is Some);
    }
}

/// The place of the last request for a field.
pub open spec fn is_last_request(requests: Seq<FacetRequest>, i: int) -> bool {
    &&& 0 <= i < requests.len()
    &&& forall|k: int| i < k < requests.len() ==> (#[trigger] requests[k]).field@ != requests[i].field@
}

proof fn lemma_facet_map_entries(
    fields: Seq<Seq<char>>,
    answers: Seq<Result<Vec<FacetRow>, String>>,
    i: int,
)
    requires
        0 <= i < answers.len() <= fields.len(),
        all_answered(answers),
        forall|k: int| i < k < answers.len() ==> #[trigger] fields[k] != fields[i],
    ensures
        facet_map(fields, answers).contains_key(fields[i]),
        facet_map(fields, answers)[fields[i]] == facet_buckets(answers[i]->Ok_0@),
    decreases answers.len(),
{
    assert(answers[answers.len() - 1] is Ok);
    if i < answers.len() - 1 {
        let shorter = answers.drop_last();
        assert(all_answered(shorter)) by {
            assert forall|k: int| 0 <= k < shorter.len() implies (#[trigger] shorter[k]) is Ok by {
                assert(shorter[k] == answers[k]);
            }
        }
        lemma_facet_map_entries(fields, shorter, i);
        assert(fields[answers.len() - 1] != fields[i]);
    }
}

proof fn lemma_facet_map_names(
    fields: Seq<Seq<char>>,
    answers: Seq<Result<Vec<FacetRow>, String>>,
    name: Seq<char>,
)
    requires
        answers.len() <= fields.len(),
        facet_map(fields, answers).contains_key(name),
    ensures
        exists|i: int| 0 <= i < answers.len() && #[trigger] fields[i] == name,
    decreases answers.len(),
{
    if answers.len() > 0 {
        if answers.last() is Ok && fields[answers.len() - 1] == name {
        } else {
            lemma_facet_map_names(fields, answers.drop_last(), name);
        }
    }
}

/// Each facet that was requested is answered under its field, with the buckets of its own
/// answer. Where a field was requested more than once, the last answer stands.
pub proof fn lemma_each_facet_answered(
    facets: Map<Seq<char>, Vec<FacetBucket>>,
    requests: Seq<FacetRequest>,
    answers: Seq<Result<Vec<FacetRow>, String>>,
    i: int,
)
    requires
        answers.len() == requests.len(),
        all_answered(answers),
        bucket_lists(facets) == facet_map(request_fields(requests), answers),
        is_last_request(requests, i),
    ensures
        facets.contains_key(requests[i].field@),
        facets[requests[i].field@]@.map_values(|bucket: FacetBucket| bucket.value@)
            == answers[i]->Ok_0@.filter(|row: FacetRow| row.value is Some).map_values(
            |row: FacetRow| row.value->0@,
        ),
        facets[requests[i].field@]@.map_values(|bucket: FacetBucket| bucket.count)
            == answers[i]->Ok_0@.filter(|row: FacetRow| row.value is Some).map_values(
            |row: FacetRow| row.count as u64,
        ),
{
    let fields = request_fields(requests);
    assert forall|k: int| i < k < answers.len() implies #[trigger] fields[k] != fields[i] by {
        assert(requests[k].field@ != requests[i].field@);
    }
    lemma_facet_map_entries(fields, answers, i);
    let name = requests[i].field@;
    assert(fields[i] == name);
    assert(bucket_lists(facets).contains_key(name));
    assert(bucket_lists(facets)[name] == facets[name]@);
    lemma_buckets_are_the_rows(answers[i]->Ok_0@);
}

/// No field is answered that was not requested.
pub proof fn lemma_no_other_facet_answered(
    facets: Map<Seq<char>, Vec<FacetBucket>>,
    requests: Seq<FacetRequest>,
    answers: Seq<Result<Vec<FacetRow>, String>>,
    name: Seq<char>,
)
    requires
        answers.len() == requests.len(),
        bucket_lists(facets) == facet_map(request_fields(requests), answers),
        facets.contains_key(name),
    ensures
        exists|i: int| 0 <= i < requests.len() && (#[trigger] requests[i]).field@ == name,
{
    let fields = request_fields(requests);
    assert(bucket_lists(facets).contains_key(name));
    lemma_facet_map_names(fields, answers, name);
    let i = choose|i: int| 0 <= i < answers.len() && #[trigger] fields[i] == name;
    assert(requests[i].field@ == name);
}

/// The failure that is told is that of the first statement that was not answered.
pub proof fn lemma_first_failed_facet_is_told(
    answers: Seq<Result<Vec<FacetRow>, String>>,
    message: Seq<char>,
    i: int,
)
    requires
        is_first_unanswered(answers, message),
        0 <= i < answers.len(),
        answers[i] is Err,
        forall|k: int| 0 <= k < i ==> (#[trigger] answers[k]) is Ok,
    ensures
        message == answers[i]->Err_0@,
{
    let j = choose|j: int|
        0 <= j < answers.len() && (#[trigger] answers[j]) is Err && answers[j]->Err_0@ == message
            && all_answered(answers.take(j));
    if i < j {
        assert(answers.take(j)[i] is Ok);
    }
}

} // verus!
