//! What holds of every search statement: its parameters and what is bound to
//! them, and what its text depends on.
use vstd::prelude::*;

use crate::search::{
    filter_binds, filter_conditions, first_filter_parameter, has_text, highlight_select,
    limit_parameter, order_clause, page_limit, page_offset, parameter_count, search_binds,
    search_sql, usable, where_clause,
};
use crate::spi::{SearchFilter, SearchProviderContext, SearchQuery};
use crate::statement::Bound;

verus! {

/// Every filter that has values becomes a condition.
pub open spec fn no_values_skipped(filters: Seq<SearchFilter>) -> bool {
    forall|i: int|
        0 <= i < filters.len() ==> usable(#[trigger] filters[i]) || filters[i].values@.len() == 0
}

proof fn lemma_filter_bind_count(filters: Seq<SearchFilter>)
    requires
        no_values_skipped(filters),
    ensures
        filter_binds(filters).len() == parameter_count(filters),
    decreases filters.len(),
{
    if filters.len() > 0 {
        let shorter = filters.drop_last();
        assert forall|i: int| 0 <= i < shorter.len() implies usable(#[trigger] shorter[i])
            || shorter[i].values@.len() == 0 by {
            assert(shorter[i] == filters[i]);
        }
        assert(usable(filters[filters.len() - 1]) || filters[filters.len() - 1].values@.len() == 0);
        lemma_filter_bind_count(shorter);
    }
}

proof fn lemma_filter_bind_place(filters: Seq<SearchFilter>, i: int, j: int)
    requires
        no_values_skipped(filters),
        0 <= i < filters.len(),
        0 <= j < filters[i].values@.len(),
    ensures
        parameter_count(filters.take(i)) + j < filter_binds(filters).len(),
        filter_binds(filters)[parameter_count(filters.take(i)) + j] == Bound::Text(
            filters[i].values@[j]@,
        ),
    decreases filters.len(),
{
    let shorter = filters.drop_last();
    assert forall|k: int| 0 <= k < shorter.len() implies usable(#[trigger] shorter[k])
        || shorter[k].values@.len() == 0 by {
        assert(shorter[k] == filters[k]);
    }
    lemma_filter_bind_count(shorter);
    if i < shorter.len() {
        lemma_filter_bind_place(shorter, i, j);
        assert(shorter.take(i) == filters.take(i));
    } else {
        assert(filters.take(i) == shorter);
    }
}

/// Where every filter with values becomes a condition, the statement has as many
/// parameters as values are bound to it, and the last two are the size of the
/// page and its offset.
pub proof fn lemma_parameters_match_binds(context: SearchProviderContext, query: SearchQuery)
    requires
        no_values_skipped(query.filters@),
    ensures
        search_binds(context, query).len() == limit_parameter(query) + 1,
        search_binds(context, query)[limit_parameter(query) - 1] == Bound::BigInt(
            page_limit(query.page_size as int) as i64,
        ),
        search_binds(context, query)[limit_parameter(query) as int] == Bound::BigInt(
            page_offset(query.page as int, query.page_size as int) as i64,
        ),
{
    lemma_filter_bind_count(query.filters@);
}

/// Where every filter with values becomes a condition, the parameters of the
/// condition of a filter are bound to the values of that filter, in their order.
pub proof fn lemma_filter_values_bound(
    context: SearchProviderContext,
    query: SearchQuery,
    i: int,
    j: int,
)
    requires
        no_values_skipped(query.filters@),
        0 <= i < query.filters@.len(),
        0 <= j < query.filters@[i].values@.len(),
    ensures
        ({
            let parameter = first_filter_parameter(query) + parameter_count(query.filters@.take(i))
                + j;
            &&& parameter < limit_parameter(query)
            &&& search_binds(context, query)[parameter - 1] == Bound::Text(
                query.filters@[i].values@[j]@,
            )
        }),
{
    lemma_filter_bind_place(query.filters@, i, j);
    lemma_filter_bind_count(query.filters@);
}

/// Every search is confined to its tenant, its organization and its index: they
/// are the first three values bound.
pub proof fn lemma_search_is_scoped(context: SearchProviderContext, query: SearchQuery)
    ensures
        search_binds(context, query)[0] == Bound::BigInt(context.tenant_id),
        search_binds(context, query)[1] == Bound::BigInt(context.organization_id),
        search_binds(context, query)[2] == Bound::Text(query.index_key@),
        has_text(query) ==> search_binds(context, query)[3] == Bound::Text(query.query_text@),
{
}

/// Two lists of filters with the same keys and as many values each.
pub open spec fn same_filter_shape(a: Seq<SearchFilter>, b: Seq<SearchFilter>) -> bool {
    &&& a.len() == b.len()
    &&& forall|i: int|
        #![trigger a[i]]
        #![trigger b[i]]
        0 <= i < a.len() ==> a[i].key@ == b[i].key@ && a[i].values@.len() == b[i].values@.len()
}

/// Filters of the same shape have the same conditions.
pub proof fn lemma_same_shape_conditions(a: Seq<SearchFilter>, b: Seq<SearchFilter>, first: nat)
    requires
        same_filter_shape(a, b),
    ensures
        filter_conditions(a, first) == filter_conditions(b, first),
        parameter_count(a) == parameter_count(b),
    decreases a.len(),
{
    if a.len() > 0 {
        let a1 = a.drop_last();
        let b1 = b.drop_last();
        assert(same_filter_shape(a1, b1)) by {
            assert forall|i: int|
                #![trigger a1[i]]
                #![trigger b1[i]]
                0 <= i < a1.len() implies a1[i].key@ == b1[i].key@ && a1[i].values@.len()
                == b1[i].values@.len() by {
                assert(a1[i] == a[i] && b1[i] == b[i]);
            }
        }
        lemma_same_shape_conditions(a1, b1, first);
        assert(a[a.len() - 1].key@ == b[b.len() - 1].key@);
    }
}

/// The text of a statement does not depend on what is bound to it: two queries
/// that differ only in the text they ask for, in the values of their filters, in
/// their index and in their page have the same statement text, as long as both
/// or neither ask for a text.
pub proof fn lemma_text_free_of_values(a: SearchQuery, b: SearchQuery)
    requires
        has_text(a) == has_text(b),
        same_filter_shape(a.filters@, b.filters@),
        a.sort@ == b.sort@,
        a.highlight == b.highlight,
    ensures
        search_sql(a) == search_sql(b),
        where_clause(a) == where_clause(b),
{
    lemma_same_shape_conditions(a.filters@, b.filters@, first_filter_parameter(a));
    assert(order_clause(a) == order_clause(b));
    assert(highlight_select(a) == highlight_select(b));
}

} // verus!
