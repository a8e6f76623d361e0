//! What a search provider is asked and what it answers.
use vstd::prelude::*;

use crate::text_map::TextMap;

verus! {

/// On whose behalf a request is made.
#[derive(Debug)]
pub struct SearchProviderContext {
    pub tenant_id: i64,
    pub organization_id: i64,
    pub user_id: Option<i64>,
    pub request_id: Option<String>,
}

/// The kinds of search provider.
#[derive(Debug, Clone, Copy, PartialEq, Eq, Structural)]
pub enum SearchProviderKind {
    Memory,
    Postgresql,
}

/// What a search provider can do.
#[derive(Debug, Clone, Copy, PartialEq, Eq, Structural)]
pub enum SearchProviderCapability {
    FullTextSearch,
    FuzzySearch,
    SemanticSearch,
    VectorSearch,
    FacetedSearch,
    Autocomplete,
    Highlighting,
    Ranking,
    Suggestions,
    Indexing,
    DocumentCrud,
}

/// The description of a provider to set up.
#[derive(Debug)]
pub struct SearchProviderConfig {
    pub kind: SearchProviderKind,
    pub id: String,
    pub priority: i32,
    pub enabled: bool,
    pub connection: serde_json::Value,
    pub options: serde_json::Value,
}

/// Why a provider could not do what it was asked.
#[derive(Debug, PartialEq, Eq)]
pub enum SearchProviderError {
    /// The search back end failed.
    Backend { message: String },
    /// A document or an index could not be written.
    Indexing { message: String },
    /// The provider is not set up properly.
    Configuration { message: String },
}

/// The error of a search that the database failed with that message.
pub fn backend_error(message: String) -> (error: SearchProviderError)
    ensures
        error == (SearchProviderError::Backend { message }),
{
    SearchProviderError::Backend { message }
}

/// The error of a write that the database failed with that message.
pub fn indexing_error(message: String) -> (error: SearchProviderError)
    ensures
        error == (SearchProviderError::Indexing { message }),
{
    SearchProviderError::Indexing { message }
}

/// A filter: the payload field `key` has one of `values`.
#[derive(Debug)]
pub struct SearchFilter {
    pub key: String,
    pub values: Vec<String>,
}

/// The direction of a sort.
#[derive(Debug, Clone, Copy, PartialEq, Eq, Structural)]
pub enum SortOrder {
    Asc,
    Desc,
}

/// A payload field to sort by.
#[derive(Debug)]
pub struct SortField {
    pub field: String,
    pub order: SortOrder,
}

/// Which fields to highlight, and how.
#[derive(Debug)]
pub struct HighlightOptions {
    pub fields: Vec<String>,
    pub pre_tag: Option<String>,
    pub post_tag: Option<String>,
    pub fragment_size: Option<u32>,
}

/// A search request. The filters are in the order in which they are applied.
#[derive(Debug)]
pub struct SearchQuery {
    pub index_key: String,
    pub query_text: String,
    pub filters: Vec<SearchFilter>,
    pub sort: Vec<SortField>,
    pub facets: Vec<String>,
    pub highlight: Option<HighlightOptions>,
    pub page: u32,
    pub page_size: u32,
}

/// A document that a search found. The score is given by the bits of a
/// double-precision number.
#[derive(Debug)]
pub struct SearchHit {
    pub document_id: String,
    pub score_bits: u64,
    pub source: serde_json::Value,
    pub highlight: TextMap<Vec<String>>,
    pub index_key: Option<String>,
}

/// A value of a facet field, and the number of documents that have it.
#[derive(Debug, PartialEq, Eq)]
pub struct FacetBucket {
    pub value: String,
    pub count: u64,
}

/// The answer to a search request.
#[derive(Debug)]
pub struct SearchResponse {
    pub total: u64,
    pub hits: Vec<SearchHit>,
    pub facets: TextMap<Vec<FacetBucket>>,
    pub took_ms: u64,
    pub max_score_bits: Option<u64>,
    pub request_id: Option<String>,
}

} // verus!
