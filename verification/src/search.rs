//! The full-text search of the PostgreSQL provider: from a query to the
//! statement that answers it, and from the rows to the response.
use vstd::prelude::*;
use vstd::string::StringExecFns;

use crate::spi::{HighlightOptions, SearchFilter, SearchProviderContext, SearchQuery, SortField, SortOrder};
use crate::statement::{bounds, BindValue, Bound, Statement};
use crate::text::{decimal, is_safe_identifier, join, joined, push_decimal, safe_identifier, views};

verus! {

// ---------------------------------------------------------------------------
// Pages
// ---------------------------------------------------------------------------

/// A number that is to be at least one.
pub open spec fn at_least_one(n: int) -> int {
    if n < 1 {
        1
    } else {
        n
    }
}

/// The rows of a page: as many as its size says, and at least one.
pub open spec fn page_limit(page_size: int) -> int {
    at_least_one(page_size)
}

/// The rows before a page. Pages are counted from one.
pub open spec fn page_offset(page: int, page_size: int) -> int {
    (at_least_one(page) - 1) * at_least_one(page_size)
}

/// Each page starts where the page before it ends.
pub proof fn lemma_pages_adjoin(page: int, page_size: int)
    requires
        page >= 1,
    ensures
        page_offset(1, page_size) == 0,
        page_offset(page + 1, page_size) == page_offset(page, page_size) + page_limit(page_size),
{
    let size = at_least_one(page_size);
    assert(page * size == (page - 1) * size + size) by (nonlinear_arith);
    assert(0 * size == 0);
}

// ---------------------------------------------------------------------------
// WHERE
// ---------------------------------------------------------------------------

/// Whether the query asks for a text.
pub open spec fn has_text(query: SearchQuery) -> bool {
    query.query_text@.len() > 0
}

/// Whether the filter becomes a condition: its key can be embedded, and there
/// is a value to compare with.
pub open spec fn usable(filter: SearchFilter) -> bool {
    safe_identifier(filter.key@) && filter.values@.len() > 0
}

/// The number of parameters that the conditions of the filters take.
pub open spec fn parameter_count(filters: Seq<SearchFilter>) -> nat
    decreases filters.len(),
{
    if filters.len() == 0 {
        0
    } else {
        parameter_count(filters.drop_last()) + if usable(filters.last()) {
            filters.last().values@.len()
        } else {
            0
        }
    }
}

/// A parameter of a statement.
pub open spec fn placeholder(n: nat) -> Seq<char> {
    "$"@ + decimal(n)
}

/// `count` parameters from the `first` on.
pub open spec fn placeholders(first: nat, count: nat) -> Seq<Seq<char>> {
    Seq::new(count, |i: int| placeholder((first + i) as nat))
}

/// The condition that the text of the query, parameter `n`, is found: by words,
/// or by similarity in the title or the body.
pub open spec fn text_condition(n: nat) -> Seq<char> {
    "(search_vector @@ websearch_to_tsquery('pg_catalog.english', $"@ + decimal(n)
        + ") OR title % $"@ + decimal(n) + " OR body_text % $"@ + decimal(n) + ")"@
}

/// The condition of a filter whose values are the parameters from the `first` on.
pub open spec fn filter_condition(filter: SearchFilter, first: nat) -> Seq<char> {
    "payload_json->>'"@ + filter.key@ + "' IN ("@ + joined(
        placeholders(first, filter.values@.len()),
        ", "@,
    ) + ")"@
}

/// The conditions of the usable filters, with parameters from the `first` on.
pub open spec fn filter_conditions(filters: Seq<SearchFilter>, first: nat) -> Seq<Seq<char>>
    decreases filters.len(),
{
    if filters.len() == 0 {
        Seq::empty()
    } else {
        let conditions = filter_conditions(filters.drop_last(), first);
        if usable(filters.last()) {
            conditions.push(
                filter_condition(filters.last(), first + parameter_count(filters.drop_last())),
            )
        } else {
            conditions
        }
    }
}

/// The conditions on every search: the tenant, the organization, the index, and
/// that the document is there.
pub open spec fn scope_conditions() -> Seq<Seq<char>> {
    seq![
        "tenant_id = $1"@,
        "organization_id = $2"@,
        "index_key = $3"@,
        "deleted_at IS NULL"@,
    ]
}

/// The first parameter of the filters.
pub open spec fn first_filter_parameter(query: SearchQuery) -> nat {
    if has_text(query) {
        5
    } else {
        4
    }
}

/// The conditions of a query.
pub open spec fn conditions(query: SearchQuery) -> Seq<Seq<char>> {
    (if has_text(query) {
        scope_conditions().push(text_condition(4))
    } else {
        scope_conditions()
    }) + filter_conditions(query.filters@, first_filter_parameter(query))
}

/// The conditions of a query, all of which a document has to meet.
pub open spec fn where_clause(query: SearchQuery) -> Seq<char> {
    joined(conditions(query), " AND "@)
}

/// The parameter of the page size. The one after it is that of the offset.
pub open spec fn limit_parameter(query: SearchQuery) -> nat {
    first_filter_parameter(query) + parameter_count(query.filters@)
}

/// The numbers that the statement of a query is built with fit their types: the
/// offset of the page, and the numbers of the parameters.
pub open spec fn query_fits(query: SearchQuery) -> bool {
    &&& page_offset(query.page as int, query.page_size as int) <= u32::MAX
    &&& limit_parameter(query) + 1 <= usize::MAX
}

/// Whether the numbers that the statement of a query is built with fit their types.
pub fn is_plannable(query: &SearchQuery) -> (plannable: bool)
    ensures
        plannable == query_fits(*query),
{
    let page: u32 = if query.page < 1 { 1 } else { query.page };
    let page_size: u32 = if query.page_size < 1 { 1 } else { query.page_size };
    assert(0 <= (page - 1) * page_size <= 0xffff_ffff * 0xffff_ffff) by (nonlinear_arith)
        requires
            1 <= page <= 0xffff_ffff,
            1 <= page_size <= 0xffff_ffff,
    ;
    if ((page - 1) as u64) * (page_size as u64) > u32::MAX as u64 {
        return false;
    }
    let mut last: usize = if query.query_text.as_str().is_empty() { 5 } else { 6 };
    let ghost first = last;
    assert(query.filters@.take(0) == Seq::<SearchFilter>::empty());
    let mut i: usize = 0;
    while i < query.filters.len()
        invariant
            i <= query.filters@.len(),
            last == first + parameter_count(query.filters@.take(i as int)),
            first == first_filter_parameter(*query) + 1,
        decreases query.filters.len() - i,
    {
        let filter: &SearchFilter = &query.filters[i];
        proof {
            assert(query.filters@.take(i + 1).drop_last() == query.filters@.take(i as int));
            assert(query.filters@.take(i + 1).last() == *filter);
            lemma_parameter_count_monotone(query.filters@, i + 1);
        }
        if is_safe_identifier(filter.key.as_str()) {
            if filter.values.len() > usize::MAX - last {
                return false;
            }
            last += filter.values.len();
        }
        i += 1;
    }
    assert(query.filters@.take(query.filters@.len() as int) == query.filters@);
    true
}

/// Puts a parameter behind `text`.
fn push_placeholder(text: &mut String, n: usize)
    ensures
        final(text)@ == old(text)@ + placeholder(n as nat),
{
    let ghost before = text@;
    text.append("$");
    push_decimal(text, n as u64);
    assert(text@ == before + placeholder(n as nat));
}

/// The parameters from `first` on, as many as `count`.
fn build_placeholders(first: usize, count: usize) -> (list: Vec<String>)
    requires
        first + count <= usize::MAX,
    ensures
        views(list@) == placeholders(first as nat, count as nat),
{
    let mut list: Vec<String> = Vec::new();
    let mut i: usize = 0;
    while i < count
        invariant
            i <= count,
            first + count <= usize::MAX,
            views(list@) == placeholders(first as nat, i as nat),
        decreases count - i,
    {
        let mut text: String = String::new();
        push_placeholder(&mut text, first + i);
        assert(text@ == placeholder((first + i) as nat));
        let ghost before = list@;
        list.push(text);
        assert(views(list@) == views(before).push(text@));
        assert(placeholders(first as nat, (i + 1) as nat) == placeholders(first as nat, i as nat).push(
            placeholder((first + i) as nat),
        ));
        i += 1;
    }
    list
}

/// The condition on the text of the query.
fn build_text_condition(n: usize) -> (text: String)
    ensures
        text@ == text_condition(n as nat),
{
    let mut text: String = String::from_str(
        "(search_vector @@ websearch_to_tsquery('pg_catalog.english', $",
    );
    push_decimal(&mut text, n as u64);
    text.append(") OR title % $");
    push_decimal(&mut text, n as u64);
    text.append(" OR body_text % $");
    push_decimal(&mut text, n as u64);
    text.append(")");
    text
}

/// The condition of a filter.
fn build_filter_condition(filter: &SearchFilter, first: usize) -> (text: String)
    requires
        first + filter.values@.len() <= usize::MAX,
    ensures
        text@ == filter_condition(*filter, first as nat),
{
    let list: Vec<String> = build_placeholders(first, filter.values.len());
    let mut text: String = String::from_str("payload_json->>'");
    text.append(filter.key.as_str());
    text.append("' IN (");
    text.append(join(&list, ", ").as_str());
    text.append(")");
    text
}

/// Fewer filters take no more parameters.
proof fn lemma_parameter_count_monotone(filters: Seq<SearchFilter>, i: int)
    requires
        0 <= i <= filters.len(),
    ensures
        parameter_count(filters.take(i)) <= parameter_count(filters),
    decreases filters.len() - i,
{
    if i == filters.len() {
        assert(filters.take(i) == filters);
    } else {
        lemma_parameter_count_monotone(filters, i + 1);
        assert(filters.take(i + 1).drop_last() == filters.take(i));
    }
}

/// Adds the conditions of the usable filters, and gives the parameter after them.
pub(crate) fn push_filter_conditions(filters: &Vec<SearchFilter>, first: usize, parts: &mut Vec<String>) -> (next:
    usize)
    requires
        first + parameter_count(filters@) <= usize::MAX,
    ensures
        views(final(parts)@) == views(old(parts)@) + filter_conditions(filters@, first as nat),
        next == first + parameter_count(filters@),
{
    let mut next: usize = first;
    let mut i: usize = 0;
    assert(views(parts@) == views(old(parts)@) + filter_conditions(filters@.take(0), first as nat));
    while i < filters.len()
        invariant
            i <= filters@.len(),
            first + parameter_count(filters@) <= usize::MAX,
            next == first + parameter_count(filters@.take(i as int)),
            views(parts@) == views(old(parts)@) + filter_conditions(
                filters@.take(i as int),
                first as nat,
            ),
        decreases filters.len() - i,
    {
        proof {
            lemma_parameter_count_monotone(filters@, i + 1);
            assert(filters@.take(i + 1).drop_last() == filters@.take(i as int));
            assert(filters@.take(i + 1).last() == filters@[i as int]);
        }
        if is_safe_identifier(filters[i].key.as_str()) && filters[i].values.len() > 0 {
            let condition: String = build_filter_condition(&filters[i], next);
            let ghost before = parts@;
            parts.push(condition);
            proof {
                assert(views(parts@) == views(before).push(condition@));
                assert(views(parts@) == views(old(parts)@) + filter_conditions(
                    filters@.take(i + 1),
                    first as nat,
                ));
            }
            next += filters[i].values.len();
        }
        i += 1;
    }
    assert(filters@.take(i as int) == filters@);
    next
}

/// The conditions of a query, and the parameter after theirs.
fn build_where(query: &SearchQuery) -> (built: (String, usize))
    requires
        limit_parameter(*query) + 1 <= usize::MAX,
    ensures
        built.0@ == where_clause(*query),
        built.1 == limit_parameter(*query),
{
    let mut parts: Vec<String> = Vec::new();
    parts.push("tenant_id = $1".to_owned());
    parts.push("organization_id = $2".to_owned());
    parts.push("index_key = $3".to_owned());
    parts.push("deleted_at IS NULL".to_owned());
    assert(views(parts@) == scope_conditions());
    let mut next: usize = 4;
    if !query.query_text.as_str().is_empty() {
        let ghost before = parts@;
        let condition: String = build_text_condition(4);
        parts.push(condition);
        assert(views(parts@) == views(before).push(condition@));
        next = 5;
    }
    let next: usize = push_filter_conditions(&query.filters, next, &mut parts);
    (join(&parts, " AND "), next)
}

// ---------------------------------------------------------------------------
// ORDER BY
// ---------------------------------------------------------------------------

/// A payload field to sort by, with its direction.
pub open spec fn sort_part(sort: SortField) -> Seq<char> {
    "payload_json->>'"@ + sort.field@ + "' "@ + match sort.order {
        SortOrder::Desc => "DESC"@,
        SortOrder::Asc => "ASC"@,
    }
}

/// The fields to sort by that can be embedded.
pub open spec fn sort_parts(sort: Seq<SortField>) -> Seq<Seq<char>>
    decreases sort.len(),
{
    if sort.len() == 0 {
        Seq::empty()
    } else if safe_identifier(sort.last().field@) {
        sort_parts(sort.drop_last()).push(sort_part(sort.last()))
    } else {
        sort_parts(sort.drop_last())
    }
}

/// The order of the documents: by the fields that the query names, else by rank
/// where it asks for a text, else the latest first.
pub open spec fn order_clause(query: SearchQuery) -> Seq<char> {
    if query.sort@.len() == 0 && has_text(query) {
        "ORDER BY rank DESC"@
    } else if sort_parts(query.sort@).len() == 0 {
        "ORDER BY updated_at DESC"@
    } else {
        "ORDER BY "@ + joined(sort_parts(query.sort@), ", "@)
    }
}

/// A payload field to sort by, with its direction.
fn build_sort_part(sort: &SortField) -> (text: String)
    ensures
        text@ == sort_part(*sort),
{
    let mut text: String = String::from_str("payload_json->>'");
    text.append(sort.field.as_str());
    text.append("' ");
    match sort.order {
        SortOrder::Desc => {
            text.append("DESC");
        },
        SortOrder::Asc => {
            text.append("ASC");
        },
    }
    text
}

/// The order of the documents.
fn build_order(query: &SearchQuery) -> (text: String)
    ensures
        text@ == order_clause(*query),
{
    if query.sort.len() == 0 && !query.query_text.as_str().is_empty() {
        return "ORDER BY rank DESC".to_owned();
    }
    let mut parts: Vec<String> = Vec::new();
    let mut i: usize = 0;
    assert(views(parts@) == sort_parts(query.sort@.take(0)));
    while i < query.sort.len()
        invariant
            i <= query.sort@.len(),
            views(parts@) == sort_parts(query.sort@.take(i as int)),
        decreases query.sort.len() - i,
    {
        proof {
            assert(query.sort@.take(i + 1).drop_last() == query.sort@.take(i as int));
            assert(query.sort@.take(i + 1).last() == query.sort@[i as int]);
        }
        if is_safe_identifier(query.sort[i].field.as_str()) {
            let part: String = build_sort_part(&query.sort[i]);
            let ghost before = parts@;
            parts.push(part);
            assert(views(parts@) == views(before).push(part@));
        }
        i += 1;
    }
    assert(query.sort@.take(i as int) == query.sort@);
    assert(views(parts@).len() == parts@.len());
    if parts.len() == 0 {
        "ORDER BY updated_at DESC".to_owned()
    } else {
        let mut text: String = String::from_str("ORDER BY ");
        text.append(join(&parts, ", ").as_str());
        text
    }
}

// ---------------------------------------------------------------------------
// Highlights
// ---------------------------------------------------------------------------

/// What opens a highlight.
pub open spec fn opening_tag(options: HighlightOptions) -> Seq<char> {
    match options.pre_tag {
        Some(tag) => tag@,
        None => "<em>"@,
    }
}

/// What closes a highlight.
pub open spec fn closing_tag(options: HighlightOptions) -> Seq<char> {
    match options.post_tag {
        Some(tag) => tag@,
        None => "</em>"@,
    }
}

/// The most words that a highlight holds.
pub open spec fn highlight_words(options: HighlightOptions) -> nat {
    match options.fragment_size {
        Some(n) => n as nat,
        None => 100,
    }
}

/// The column of the highlight of a field.
pub open spec fn highlight_column(field: Seq<char>) -> Seq<char> {
    "hl_"@ + field
}

/// The highlight of a field.
pub open spec fn headline(options: HighlightOptions, field: Seq<char>) -> Seq<char> {
    "ts_headline('pg_catalog.english', "@ + field
        + ", websearch_to_tsquery('pg_catalog.english', $4), 'StartSel="@ + opening_tag(options)
        + ", StopSel="@ + closing_tag(options) + ", MaxWords="@ + decimal(highlight_words(options))
        + "') AS "@ + highlight_column(field)
}

/// The highlights of the fields that can be embedded.
pub open spec fn headlines(options: HighlightOptions, fields: Seq<String>) -> Seq<Seq<char>>
    decreases fields.len(),
{
    if fields.len() == 0 {
        Seq::empty()
    } else if safe_identifier(fields.last()@) {
        headlines(options, fields.drop_last()).push(headline(options, fields.last()@))
    } else {
        headlines(options, fields.drop_last())
    }
}

/// The columns of the highlights, behind the other columns.
pub open spec fn highlight_select(query: SearchQuery) -> Seq<char> {
    match query.highlight {
        Some(options) => if headlines(options, options.fields@).len() == 0 {
            ""@
        } else {
            ", "@ + joined(headlines(options, options.fields@), ", "@)
        },
        None => ""@,
    }
}

/// The column of the highlight of a field.
pub(crate) fn build_highlight_column(field: &str) -> (text: String)
    ensures
        text@ == highlight_column(field@),
{
    let mut text: String = String::from_str("hl_");
    text.append(field);
    text
}

/// The highlight of a field.
fn build_headline(options: &HighlightOptions, field: &str) -> (text: String)
    ensures
        text@ == headline(*options, field@),
{
    let mut text: String = String::from_str("ts_headline('pg_catalog.english', ");
    text.append(field);
    text.append(", websearch_to_tsquery('pg_catalog.english', $4), 'StartSel=");
    match &options.pre_tag {
        Some(tag) => {
            text.append(tag.as_str());
        },
        None => {
            text.append("<em>");
        },
    }
    text.append(", StopSel=");
    match &options.post_tag {
        Some(tag) => {
            text.append(tag.as_str());
        },
        None => {
            text.append("</em>");
        },
    }
    text.append(", MaxWords=");
    let words: u32 = match options.fragment_size {
        Some(n) => n,
        None => 100,
    };
    push_decimal(&mut text, words as u64);
    text.append("') AS ");
    text.append(build_highlight_column(field).as_str());
    text
}

/// The columns of the highlights.
fn build_highlight_select(query: &SearchQuery) -> (text: String)
    ensures
        text@ == highlight_select(*query),
{
    match &query.highlight {
        None => "".to_owned(),
        Some(options) => {
            let mut parts: Vec<String> = Vec::new();
            let mut i: usize = 0;
            assert(views(parts@) == headlines(*options, options.fields@.take(0)));
            while i < options.fields.len()
                invariant
                    i <= options.fields@.len(),
                    views(parts@) == headlines(*options, options.fields@.take(i as int)),
                decreases options.fields.len() - i,
            {
                proof {
                    assert(options.fields@.take(i + 1).drop_last() == options.fields@.take(
                        i as int,
                    ));
                    assert(options.fields@.take(i + 1).last() == options.fields@[i as int]);
                }
                if is_safe_identifier(options.fields[i].as_str()) {
                    let part: String = build_headline(options, options.fields[i].as_str());
                    let ghost before = parts@;
                    parts.push(part);
                    assert(views(parts@) == views(before).push(part@));
                }
                i += 1;
            }
            assert(options.fields@.take(i as int) == options.fields@);
            assert(views(parts@).len() == parts@.len());
            if parts.len() == 0 {
                "".to_owned()
            } else {
                let mut text: String = String::from_str(", ");
                text.append(join(&parts, ", ").as_str());
                text
            }
        },
    }
}

// ---------------------------------------------------------------------------
// The statement
// ---------------------------------------------------------------------------

/// The rank of a document: how well it fits the text that the query asks for.
pub open spec fn rank_column(query: SearchQuery) -> Seq<char> {
    if has_text(query) {
        "ts_rank(search_vector, websearch_to_tsquery('pg_catalog.english', $4)) AS rank"@
    } else {
        "0.0::float8 AS rank"@
    }
}

/// The text of the statement of a query.
pub open spec fn search_sql(query: SearchQuery) -> Seq<char> {
    "SELECT document_id, title, payload_json,\n                      "@ + rank_column(query)
        + ",\n                      COUNT(*) OVER() AS total_count\n                      "@
        + highlight_select(query)
        + "\n               FROM search_document\n               WHERE "@ + where_clause(query)
        + "\n               "@ + order_clause(query) + "\n               LIMIT $"@ + decimal(
        limit_parameter(query),
    ) + " OFFSET $"@ + decimal(limit_parameter(query) + 1)
}

/// The values of the filters, one filter after the other. A filter that is not
/// usable has its values bound too.
pub open spec fn filter_binds(filters: Seq<SearchFilter>) -> Seq<Bound>
    decreases filters.len(),
{
    if filters.len() == 0 {
        Seq::empty()
    } else {
        filter_binds(filters.drop_last()) + value_binds(filters.last().values@)
    }
}

/// The values, each as a text.
pub open spec fn value_binds(values: Seq<String>) -> Seq<Bound> {
    Seq::new(values.len(), |i: int| Bound::Text(values[i]@))
}

/// What is bound to the statement of a query.
pub open spec fn search_binds(context: SearchProviderContext, query: SearchQuery) -> Seq<Bound> {
    seq![
        Bound::BigInt(context.tenant_id),
        Bound::BigInt(context.organization_id),
        Bound::Text(query.index_key@),
    ] + (if has_text(query) {
        seq![Bound::Text(query.query_text@)]
    } else {
        Seq::empty()
    }) + filter_binds(query.filters@) + seq![
        Bound::BigInt(page_limit(query.page_size as int) as i64),
        Bound::BigInt(page_offset(query.page as int, query.page_size as int) as i64),
    ]
}

/// The statement of a query, and the conditions in it.
#[derive(Debug)]
pub struct SearchPlan {
    pub statement: Statement,
    pub where_clause: String,
}

/// Adds the values, each as a text, to what is bound.
pub(crate) fn push_values(values: &Vec<String>, binds: &mut Vec<BindValue>)
    ensures
        bounds(final(binds)@) == bounds(old(binds)@) + value_binds(values@),
{
    let ghost given = bounds(binds@);
    let mut j: usize = 0;
    assert(given == given + value_binds(values@.take(0)));
    while j < values.len()
        invariant
            j <= values@.len(),
            bounds(binds@) == given + value_binds(values@.take(j as int)),
        decreases values.len() - j,
    {
        let ghost before = binds@;
        binds.push(BindValue::Text(values[j].clone()));
        proof {
            assert(bounds(binds@) == bounds(before).push(Bound::Text(values@[j as int]@)));
            assert(value_binds(values@.take(j + 1)) == value_binds(values@.take(j as int)).push(
                Bound::Text(values@[j as int]@),
            ));
            assert(given + value_binds(values@.take(j + 1)) == (given + value_binds(
                values@.take(j as int),
            )).push(Bound::Text(values@[j as int]@)));
        }
        j += 1;
    }
    assert(values@.take(j as int) == values@);
}

/// Adds the values of the filters to what is bound.
fn push_filter_binds(filters: &Vec<SearchFilter>, binds: &mut Vec<BindValue>)
    ensures
        bounds(final(binds)@) == bounds(old(binds)@) + filter_binds(filters@),
{
    let mut i: usize = 0;
    assert(bounds(binds@) == bounds(old(binds)@) + filter_binds(filters@.take(0)));
    while i < filters.len()
        invariant
            i <= filters@.len(),
            bounds(binds@) == bounds(old(binds)@) + filter_binds(filters@.take(i as int)),
        decreases filters.len() - i,
    {
        push_values(&filters[i].values, binds);
        proof {
            assert(filters@.take(i + 1).drop_last() == filters@.take(i as int));
            assert(filters@.take(i + 1).last() == filters@[i as int]);
            assert(bounds(binds@) == bounds(old(binds)@) + filter_binds(filters@.take(i + 1)));
        }
        i += 1;
    }
    assert(filters@.take(i as int) == filters@);
}

/// The text of the statement of a query.
fn build_search_sql(query: &SearchQuery, where_text: &str, next: usize) -> (sql: String)
    requires
        where_text@ == where_clause(*query),
        next == limit_parameter(*query),
        next + 1 <= usize::MAX,
    ensures
        sql@ == search_sql(*query),
{
    let mut sql: String = String::from_str(
        "SELECT document_id, title, payload_json,\n                      ",
    );
    if query.query_text.as_str().is_empty() {
        sql.append("0.0::float8 AS rank");
    } else {
        sql.append("ts_rank(search_vector, websearch_to_tsquery('pg_catalog.english', $4)) AS rank");
    }
    sql.append(",\n                      COUNT(*) OVER() AS total_count\n                      ");
    sql.append(build_highlight_select(query).as_str());
    sql.append("\n               FROM search_document\n               WHERE ");
    sql.append(where_text);
    sql.append("\n               ");
    sql.append(build_order(query).as_str());
    sql.append("\n               LIMIT $");
    push_decimal(&mut sql, next as u64);
    sql.append(" OFFSET $");
    push_decimal(&mut sql, (next + 1) as u64);
    sql
}

/// The statement that answers a query.
pub fn plan_search(context: &SearchProviderContext, query: &SearchQuery) -> (plan: SearchPlan)
    requires
        query_fits(*query),
    ensures
        plan.statement.reads(search_sql(*query), search_binds(*context, *query)),
        plan.where_clause@ == where_clause(*query),
{
    let (where_text, next): (String, usize) = build_where(query);
    let sql: String = build_search_sql(query, where_text.as_str(), next);
    let mut binds: Vec<BindValue> = Vec::new();
    binds.push(BindValue::BigInt(context.tenant_id));
    binds.push(BindValue::BigInt(context.organization_id));
    binds.push(BindValue::Text(query.index_key.clone()));
    if !query.query_text.as_str().is_empty() {
        binds.push(BindValue::Text(query.query_text.clone()));
    }
    let ghost head = seq![
        Bound::BigInt(context.tenant_id),
        Bound::BigInt(context.organization_id),
        Bound::Text(query.index_key@),
    ] + (if has_text(*query) {
        seq![Bound::Text(query.query_text@)]
    } else {
        Seq::empty()
    });
    assert(bounds(binds@) == head);
    push_filter_binds(&query.filters, &mut binds);
    let page: u32 = if query.page < 1 { 1 } else { query.page };
    let page_size: u32 = if query.page_size < 1 { 1 } else { query.page_size };
    let ghost before = binds@;
    let offset: u32 = (page - 1) * page_size;
    binds.push(BindValue::BigInt(page_size as i64));
    binds.push(BindValue::BigInt(offset as i64));
    assert(bounds(binds@) == bounds(before) + seq![
        Bound::BigInt(page_limit(query.page_size as int) as i64),
        Bound::BigInt(page_offset(query.page as int, query.page_size as int) as i64),
    ]);
    SearchPlan { statement: Statement { sql, binds }, where_clause: where_text }
}

} // verus!
