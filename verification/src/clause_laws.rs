//! What holds of the pieces of every search statement: its order, its conditions, its page
//! and its highlights.
use vstd::prelude::*;

use crate::search::{
    at_least_one, closing_tag, conditions, filter_binds, filter_condition, headline, headlines,
    highlight_column, highlight_select, highlight_words, limit_parameter, opening_tag,
    order_clause, page_limit, page_offset, placeholders, query_fits, rank_column,
    scope_conditions, search_binds, search_sql, sort_part, sort_parts, text_condition, usable,
    where_clause,
};
use crate::spi::{
    HighlightOptions, SearchFilter, SearchProviderContext, SearchQuery, SortField,
};
use crate::statement::Bound;
use crate::text::{decimal, joined, lemma_joined_push, safe_identifier};

verus! {

// ---------------------------------------------------------------------------
// The order
// ---------------------------------------------------------------------------

/// How a field is sorted by.
pub open spec fn sorted_by(sort: SortField) -> Seq<char> {
    if sort.order is Asc {
        "payload_json->>'"@ + sort.field@ + "' ASC"@
    } else {
        "payload_json->>'"@ + sort.field@ + "' DESC"@
    }
}

/// The fields that a query sorts by and that can be embedded, in their order.
pub open spec fn safe_sorts(query: SearchQuery) -> Seq<SortField> {
    query.sort@.filter(|sort: SortField| safe_identifier(sort.field@))
}

proof fn lemma_sort_part(sort: SortField)
    ensures
        sort_part(sort) == sorted_by(sort),
{
    reveal_strlit("' ");
    reveal_strlit("ASC");
    reveal_strlit("DESC");
    reveal_strlit("' ASC");
    reveal_strlit("' DESC");
    assert(sort_part(sort) =~= sorted_by(sort));
}

proof fn lemma_sort_parts(sort: Seq<SortField>)
    ensures
        sort_parts(sort) == sort.filter(
            |s: SortField| safe_identifier(s.field@),
        ).map_values(|s: SortField| sorted_by(s)),
    decreases sort.len(),
{
    reveal(Seq::filter);
    let safe = |s: SortField| safe_identifier(s.field@);
    let by = |s: SortField| sorted_by(s);
    if sort.len() > 0 {
        lemma_sort_parts(sort.drop_last());
        lemma_sort_part(sort.last());
        assert(sort_parts(sort) =~= sort.filter(safe).map_values(by));
    } else {
        assert(sort_parts(sort) =~= sort.filter(safe).map_values(by));
    }
}

proof fn lemma_safe_sort_counts(sort: Seq<SortField>, k: int)
    requires
        0 <= k < sort.len(),
        safe_identifier(sort[k].field@),
    ensures
        sort_parts(sort).len() > 0,
    decreases sort.len(),
{
    if k < sort.len() - 1 {
        lemma_safe_sort_counts(sort.drop_last(), k);
    }
}

proof fn lemma_unsafe_sorts_skipped(sort: Seq<SortField>)
    requires
        forall|k: int| 0 <= k < sort.len() ==> !safe_identifier((#[trigger] sort[k]).field@),
    ensures
        sort_parts(sort).len() == 0,
    decreases sort.len(),
{
    if sort.len() > 0 {
        let shorter = sort.drop_last();
        assert forall|k: int| 0 <= k < shorter.len() implies !safe_identifier(
            (#[trigger] shorter[k]).field@,
        ) by {
            assert(shorter[k] == sort[k]);
        }
        lemma_unsafe_sorts_skipped(shorter);
        assert(!safe_identifier(sort[sort.len() - 1].field@));
    }
}

/// Where a query names a sort field that can be embedded, its results are ordered by all
/// such fields, each with its direction and in the order in which they are named. Whether
/// the query asks for a text does not matter.
pub proof fn lemma_named_fields_order(query: SearchQuery, k: int)
    requires
        0 <= k < query.sort@.len(),
        safe_identifier(query.sort@[k].field@),
    ensures
        safe_sorts(query).len() > 0,
        order_clause(query) == "ORDER BY "@ + joined(
            safe_sorts(query).map_values(|s: SortField| sorted_by(s)),
            ", "@,
        ),
{
    lemma_sort_parts(query.sort@);
    lemma_safe_sort_counts(query.sort@, k);
}

/// Two queries that name the same fields order alike, whatever texts they ask for.
pub proof fn lemma_order_free_of_text(a: SearchQuery, b: SearchQuery)
    requires
        a.sort@ == b.sort@,
        a.sort@.len() > 0,
    ensures
        order_clause(a) == order_clause(b),
{
}

/// A query that names no field orders by rank where it asks for a text, and else by the
/// last change. One that names only fields that cannot be embedded orders by the last change.
pub proof fn lemma_order_without_fields(query: SearchQuery)
    requires
        forall|k: int|
            0 <= k < query.sort@.len() ==> !safe_identifier((#[trigger] query.sort@[k]).field@),
    ensures
        query.sort@.len() == 0 && query.query_text@.len() > 0 ==> order_clause(query)
            == "ORDER BY rank DESC"@,
        query.sort@.len() > 0 || query.query_text@.len() == 0 ==> order_clause(query)
            == "ORDER BY updated_at DESC"@,
{
    lemma_unsafe_sorts_skipped(query.sort@);
}

/// Every search statement ends in its order and its page.
pub proof fn lemma_statement_ends_in_order_and_page(query: SearchQuery)
    ensures
        (order_clause(query) + "\n               LIMIT $"@ + decimal(limit_parameter(query))
            + " OFFSET $"@ + decimal(limit_parameter(query) + 1)).is_suffix_of(search_sql(query)),
{
    let end = order_clause(query) + "\n               LIMIT $"@ + decimal(limit_parameter(query))
        + " OFFSET $"@ + decimal(limit_parameter(query) + 1);
    let start = "SELECT document_id, title, payload_json,\n                      "@ + rank_column(
        query,
    ) + ",\n                      COUNT(*) OVER() AS total_count\n                      "@
        + highlight_select(query)
        + "\n               FROM search_document\n               WHERE "@ + where_clause(query)
        + "\n               "@;
    assert(search_sql(query) =~= start + end);
    assert(search_sql(query).subrange(
        search_sql(query).len() - end.len(),
        search_sql(query).len() as int,
    ) =~= end);
}

/// A search statement whose query names a sort field that can be embedded ends in the list
/// of those fields and its page.
pub proof fn lemma_statement_ordered_by_fields(query: SearchQuery, k: int)
    requires
        0 <= k < query.sort@.len(),
        safe_identifier(query.sort@[k].field@),
    ensures
        ("ORDER BY "@ + joined(safe_sorts(query).map_values(|s: SortField| sorted_by(s)), ", "@)
            + "\n               LIMIT $"@ + decimal(limit_parameter(query)) + " OFFSET $"@ + decimal(
            limit_parameter(query) + 1,
        )).is_suffix_of(search_sql(query)),
{
    lemma_named_fields_order(query, k);
    lemma_statement_ends_in_order_and_page(query);
}

/// A search statement starts with what it selects, from where, under its conditions. It ranks
/// by the text where the query asks for one, and counts what it finds on all pages.
pub proof fn lemma_statement_starts_with_selection(query: SearchQuery)
    ensures
        ("SELECT document_id, title, payload_json,\n                      "@ + (
        if query.query_text@.len() > 0 {
            "ts_rank(search_vector, websearch_to_tsquery('pg_catalog.english', $4)) AS rank"@
        } else {
            "0.0::float8 AS rank"@
        }) + ",\n                      COUNT(*) OVER() AS total_count\n                      "@
            + highlight_select(query)
            + "\n               FROM search_document\n               WHERE "@ + where_clause(query)
            + "\n               "@ + order_clause(query)).is_prefix_of(search_sql(query)),
        search_sql(query).skip(
            search_sql(query).len() - ("\n               LIMIT $"@ + decimal(limit_parameter(query))
                + " OFFSET $"@ + decimal(limit_parameter(query) + 1)).len(),
        ) == "\n               LIMIT $"@ + decimal(limit_parameter(query)) + " OFFSET $"@ + decimal(
            limit_parameter(query) + 1,
        ),
        search_sql(query).len() == ("SELECT document_id, title, payload_json,\n                      "@
            + (if query.query_text@.len() > 0 {
            "ts_rank(search_vector, websearch_to_tsquery('pg_catalog.english', $4)) AS rank"@
        } else {
            "0.0::float8 AS rank"@
        }) + ",\n                      COUNT(*) OVER() AS total_count\n                      "@
            + highlight_select(query)
            + "\n               FROM search_document\n               WHERE "@ + where_clause(query)
            + "\n               "@ + order_clause(query)).len() + ("\n               LIMIT $"@
            + decimal(limit_parameter(query)) + " OFFSET $"@ + decimal(
            limit_parameter(query) + 1,
        )).len(),
{
    let start = "SELECT document_id, title, payload_json,\n                      "@ + rank_column(
        query,
    ) + ",\n                      COUNT(*) OVER() AS total_count\n                      "@
        + highlight_select(query)
        + "\n               FROM search_document\n               WHERE "@ + where_clause(query)
        + "\n               "@ + order_clause(query);
    let end = "\n               LIMIT $"@ + decimal(limit_parameter(query)) + " OFFSET $"@
        + decimal(limit_parameter(query) + 1);
    assert(search_sql(query) =~= start + end);
    assert(search_sql(query).subrange(0, start.len() as int) =~= start);
    assert(search_sql(query).skip(search_sql(query).len() - end.len()) =~= end);
}

// ---------------------------------------------------------------------------
// The conditions
// ---------------------------------------------------------------------------

/// A search without filters is confined to the documents of its tenant, its organization and
/// its index that are not deleted, and to those that match its text where it asks for one.
pub proof fn lemma_conditions_without_filters(query: SearchQuery)
    requires
        query.filters@.len() == 0,
    ensures
        query.query_text@.len() == 0 ==> where_clause(query)
            == "tenant_id = $1 AND organization_id = $2 AND index_key = $3 AND deleted_at IS NULL"@,
        query.query_text@.len() > 0 ==> where_clause(query)
            == "tenant_id = $1 AND organization_id = $2 AND index_key = $3 AND deleted_at IS NULL"@
            + " AND (search_vector @@ websearch_to_tsquery('pg_catalog.english', $4) OR title % $4 OR body_text % $4)"@,
        limit_parameter(query) == if query.query_text@.len() == 0 {
            4nat
        } else {
            5nat
        },
{
    reveal_strlit("tenant_id = $1");
    reveal_strlit("organization_id = $2");
    reveal_strlit("index_key = $3");
    reveal_strlit("deleted_at IS NULL");
    reveal_strlit(" AND ");
    reveal_strlit(
        "tenant_id = $1 AND organization_id = $2 AND index_key = $3 AND deleted_at IS NULL",
    );
    let and = " AND "@;
    let scope = scope_conditions();
    let whole = "tenant_id = $1 AND organization_id = $2 AND index_key = $3 AND deleted_at IS NULL"@;
    reveal_with_fuel(joined, 5);
    assert(scope.drop_last().drop_last().drop_last() =~= seq![scope[0]]);
    assert(joined(scope, and) =~= scope[0] + and + scope[1] + and + scope[2] + and + scope[3]);
    assert(joined(scope, and) =~= whole);
    assert(query.filters@ =~= Seq::empty());
    if query.query_text@.len() == 0 {
        assert(conditions(query) =~= scope);
    } else {
        assert(conditions(query) =~= scope.push(text_condition(4)));
        lemma_joined_push(scope, text_condition(4), and);
        lemma_text_condition_of_four();
        reveal_strlit(
            "(search_vector @@ websearch_to_tsquery('pg_catalog.english', $4) OR title % $4 OR body_text % $4)",
        );
        reveal_strlit(
            " AND (search_vector @@ websearch_to_tsquery('pg_catalog.english', $4) OR title % $4 OR body_text % $4)",
        );
        assert(and
            + "(search_vector @@ websearch_to_tsquery('pg_catalog.english', $4) OR title % $4 OR body_text % $4)"@
            =~= " AND (search_vector @@ websearch_to_tsquery('pg_catalog.english', $4) OR title % $4 OR body_text % $4)"@);
        assert(where_clause(query) =~= whole + (and
            + "(search_vector @@ websearch_to_tsquery('pg_catalog.english', $4) OR title % $4 OR body_text % $4)"@));
    }
}

proof fn lemma_text_condition_of_four()
    ensures
        text_condition(4)
            == "(search_vector @@ websearch_to_tsquery('pg_catalog.english', $4) OR title % $4 OR body_text % $4)"@,
{
    reveal_strlit("(search_vector @@ websearch_to_tsquery('pg_catalog.english', $");
    reveal_strlit(") OR title % $");
    reveal_strlit(" OR body_text % $");
    reveal_strlit(")");
    reveal_strlit(
        "(search_vector @@ websearch_to_tsquery('pg_catalog.english', $4) OR title % $4 OR body_text % $4)",
    );
    reveal_with_fuel(decimal, 2);
    assert(decimal(4) =~= seq!['4']);
    assert(text_condition(4)
        =~= "(search_vector @@ websearch_to_tsquery('pg_catalog.english', $4) OR title % $4 OR body_text % $4)"@);
}

/// One more filter is one more condition, with a parameter for each of its values, numbered
/// on from those before. A filter whose key cannot be embedded, or that has no values,
/// leaves the conditions as they are.
pub proof fn lemma_one_more_filter(a: SearchQuery, b: SearchQuery, filter: SearchFilter)
    requires
        b.filters@ == a.filters@.push(filter),
        a.query_text@ == b.query_text@,
    ensures
        safe_identifier(filter.key@) && filter.values@.len() > 0 ==> {
            &&& where_clause(b) == where_clause(a) + " AND payload_json->>'"@ + filter.key@
                + "' IN ("@ + joined(
                Seq::new(
                    filter.values@.len(),
                    |i: int| "$"@ + decimal((limit_parameter(a) + i) as nat),
                ),
                ", "@,
            ) + ")"@
            &&& limit_parameter(b) == limit_parameter(a) + filter.values@.len()
        },
        !safe_identifier(filter.key@) || filter.values@.len() == 0 ==> where_clause(b)
            == where_clause(a) && limit_parameter(b) == limit_parameter(a),
{
    let and = " AND "@;
    assert(b.filters@.drop_last() =~= a.filters@);
    assert(b.filters@.last() == filter);
    let before = conditions(a);
    if usable(filter) {
        let condition = filter_condition(filter, limit_parameter(a));
        assert(conditions(b) =~= before.push(condition));
        lemma_joined_push(before, condition, and);
        reveal_strlit(" AND ");
        reveal_strlit("payload_json->>'");
        reveal_strlit(" AND payload_json->>'");
        assert(and + "payload_json->>'"@ =~= " AND payload_json->>'"@);
        let numbers = Seq::new(
            filter.values@.len(),
            |i: int| "$"@ + decimal((limit_parameter(a) + i) as nat),
        );
        assert(placeholders(limit_parameter(a), filter.values@.len()) =~= numbers);
        assert(where_clause(b) =~= where_clause(a) + (and + "payload_json->>'"@) + filter.key@
            + "' IN ("@ + joined(numbers, ", "@) + ")"@);
    } else {
        assert(conditions(b) =~= before);
    }
}

/// What is bound: the tenant, the organization and the index, then the text where there is
/// one, then the values of all filters in their order, and last the size of the page and
/// its offset.
pub proof fn lemma_binds_in_order(context: SearchProviderContext, query: SearchQuery)
    ensures
        ({
            let binds = search_binds(context, query);
            let values = filter_binds(query.filters@);
            let first: int = if query.query_text@.len() > 0 {
                4
            } else {
                3
            };
            &&& binds.len() == first + values.len() + 2
            &&& binds[0] == Bound::BigInt(context.tenant_id)
            &&& binds[1] == Bound::BigInt(context.organization_id)
            &&& binds[2] == Bound::Text(query.index_key@)
            &&& query.query_text@.len() > 0 ==> binds[3] == Bound::Text(query.query_text@)
            &&& binds.subrange(first, first + values.len()) == values
        }),
{
    let binds = search_binds(context, query);
    let values = filter_binds(query.filters@);
    let first: int = if query.query_text@.len() > 0 {
        4
    } else {
        3
    };
    assert(binds.subrange(first, first + values.len()) =~= values);
}

/// The values of one more filter are bound behind those before, in their order.
pub proof fn lemma_one_more_filter_bound(filters: Seq<SearchFilter>, filter: SearchFilter)
    ensures
        filter_binds(Seq::<SearchFilter>::empty()).len() == 0,
        filter_binds(filters.push(filter)) == filter_binds(filters) + filter.values@.map_values(
            |value: String| Bound::Text(value@),
        ),
{
    assert(filters.push(filter).drop_last() =~= filters);
    assert(filters.push(filter).last() == filter);
    assert(filter_binds(filters.push(filter)) =~= filter_binds(filters)
        + filter.values@.map_values(|value: String| Bound::Text(value@)));
}

// ---------------------------------------------------------------------------
// The page
// ---------------------------------------------------------------------------

/// A page has the size that the query asks for, and one that asks for none has one row. The
/// first page starts at the first row, and a page without a number is the first.
pub proof fn lemma_first_page(context: SearchProviderContext, query: SearchQuery)
    requires
        query.page <= 1,
    ensures
        ({
            let binds = search_binds(context, query);
            &&& binds[binds.len() - 1] == Bound::BigInt(0)
            &&& query.page_size >= 1 ==> binds[binds.len() - 2] == Bound::BigInt(
                query.page_size as i64,
            )
            &&& query.page_size == 0 ==> binds[binds.len() - 2] == Bound::BigInt(1)
        }),
{
    assert(page_offset(query.page as int, query.page_size as int) == 0) by (nonlinear_arith)
        requires
            page_offset(query.page as int, query.page_size as int) == 0 * at_least_one(
                query.page_size as int,
            ),
    ;
}

/// A page starts where the one before it ends, and is as large.
pub proof fn lemma_next_page(context: SearchProviderContext, a: SearchQuery, b: SearchQuery)
    requires
        1 <= a.page,
        b.page == a.page + 1,
        a.page_size == b.page_size,
        page_offset(b.page as int, b.page_size as int) <= u32::MAX,
    ensures
        ({
            let before = search_binds(context, a);
            let after = search_binds(context, b);
            let size = if a.page_size >= 1 {
                a.page_size as int
            } else {
                1
            };
            &&& after[after.len() - 2] == Bound::BigInt(size as i64)
            &&& before[before.len() - 2] == Bound::BigInt(size as i64)
            &&& before[before.len() - 1] is BigInt
            &&& after[after.len() - 1] is BigInt
            &&& after[after.len() - 1]->BigInt_0 == before[before.len() - 1]->BigInt_0 + size
        }),
{
    let size = page_limit(a.page_size as int);
    assert(page_offset(b.page as int, b.page_size as int) == page_offset(
        a.page as int,
        a.page_size as int,
    ) + size) by {
        assert((b.page - 1) * size == (a.page - 1) * size + size) by (nonlinear_arith)
            requires
                b.page == a.page + 1,
        ;
    }
    assert(page_offset(a.page as int, a.page_size as int) >= 0) by (nonlinear_arith)
        requires
            size >= 1,
            a.page >= 1,
            page_offset(a.page as int, a.page_size as int) == (a.page - 1) * size,
    ;
}

/// A query is planned wherever its page starts at a row that a number can name and its
/// parameters can be numbered.
pub proof fn lemma_query_is_planned(query: SearchQuery)
    requires
        query.page <= 1 || query.page_size <= 1 || (query.page - 1) * query.page_size <= u32::MAX,
        limit_parameter(query) < usize::MAX,
    ensures
        query_fits(query),
{
    let size = page_limit(query.page_size as int);
    if query.page <= 1 {
        assert(0 * size == 0) by (nonlinear_arith);
    } else if query.page_size <= 1 {
        assert((query.page - 1) * size == query.page - 1) by (nonlinear_arith)
            requires
                size == 1,
        ;
    }
}

// ---------------------------------------------------------------------------
// The highlights
// ---------------------------------------------------------------------------

/// One more field that can be embedded is one more highlight, in a column of its own; one
/// that cannot be embedded adds none.
pub proof fn lemma_one_more_highlight(options: HighlightOptions, fields: Seq<String>, field: String)
    ensures
        headlines(options, Seq::<String>::empty()).len() == 0,
        safe_identifier(field@) ==> headlines(options, fields.push(field)) == headlines(
            options,
            fields,
        ).push(headline(options, field@)),
        !safe_identifier(field@) ==> headlines(options, fields.push(field)) == headlines(
            options,
            fields,
        ),
{
    assert(fields.push(field).drop_last() =~= fields);
    assert(fields.push(field).last() == field);
}

/// The highlight of a field marks what matches the text, between the tags that were asked
/// for. Its column is named for the field.
pub proof fn lemma_highlight_text(options: HighlightOptions, field: Seq<char>)
    ensures
        ("ts_headline('pg_catalog.english', "@ + field
            + ", websearch_to_tsquery('pg_catalog.english', $4), 'StartSel="@).is_prefix_of(
            headline(options, field),
        ),
        ("') AS hl_"@ + field).is_suffix_of(headline(options, field)),
        highlight_column(field) == "hl_"@ + field,
        options.pre_tag is Some ==> opening_tag(options) == options.pre_tag->0@,
        options.pre_tag is None ==> opening_tag(options) == "<em>"@,
        options.post_tag is Some ==> closing_tag(options) == options.post_tag->0@,
        options.post_tag is None ==> closing_tag(options) == "</em>"@,
        options.fragment_size is Some ==> headline(options, field)
            == "ts_headline('pg_catalog.english', "@ + field
            + ", websearch_to_tsquery('pg_catalog.english', $4), 'StartSel="@ + opening_tag(options)
            + ", StopSel="@ + closing_tag(options) + ", MaxWords="@ + decimal(
            options.fragment_size->0 as nat,
        ) + "') AS hl_"@ + field,
        options.fragment_size is None ==> headline(options, field)
            == "ts_headline('pg_catalog.english', "@ + field
            + ", websearch_to_tsquery('pg_catalog.english', $4), 'StartSel="@ + opening_tag(options)
            + ", StopSel="@ + closing_tag(options) + ", MaxWords=100') AS hl_"@ + field,
{
    reveal_strlit("') AS ");
    reveal_strlit("hl_");
    reveal_strlit("') AS hl_");
    assert("') AS "@ + "hl_"@ =~= "') AS hl_"@);
    let start = "ts_headline('pg_catalog.english', "@ + field
        + ", websearch_to_tsquery('pg_catalog.english', $4), 'StartSel="@;
    let tags = opening_tag(options) + ", StopSel="@ + closing_tag(options);
    let words = decimal(highlight_words(options));
    let whole = headline(options, field);
    assert(whole =~= start + tags + ", MaxWords="@ + words + "') AS hl_"@ + field);
    assert(whole.subrange(0, start.len() as int) =~= start);
    let end = "') AS hl_"@ + field;
    assert(whole.subrange(whole.len() - end.len(), whole.len() as int) =~= end);
    if options.fragment_size is None {
        reveal_strlit(", MaxWords=");
        reveal_strlit(", MaxWords=100') AS hl_");
        reveal_with_fuel(decimal, 4);
        assert(decimal(100) =~= seq!['1', '0', '0']);
        assert(", MaxWords="@ + decimal(100) + "') AS hl_"@ =~= ", MaxWords=100') AS hl_"@);
        assert(whole =~= start + tags + (", MaxWords="@ + words + "') AS hl_"@) + field);
    }
}

/// The highlights are selected behind the other columns. A query that asks for none, or only
/// for those of fields that cannot be embedded, selects none.
pub proof fn lemma_highlights_selected(query: SearchQuery)
    ensures
        query.highlight is None ==> highlight_select(query) == ""@,
        query.highlight is Some ==> ({
            let columns = headlines(query.highlight->0, query.highlight->0.fields@);
            if columns.len() == 0 {
                highlight_select(query) == ""@
            } else {
                highlight_select(query) == ", "@ + joined(columns, ", "@)
            }
        }),
{
}

} // verus!
