//! What the search services work with: index jobs, documents, promotions.
use vstd::prelude::*;

use crate::clock::{rfc3339, Timestamp};
use crate::json::json;
use crate::text::{optional_view, same_text};
use crate::text_map::TextMap;

verus! {

// ---------------------------------------------------------------------------
// Indexes and jobs
// ---------------------------------------------------------------------------

/// A row of `search_index`.
#[derive(Debug)]
pub struct SearchIndexRow {
    pub id: i64,
    pub index_key: String,
    pub title: String,
    pub description: Option<String>,
    pub status: i32,
    pub config_json: serde_json::Value,
    pub created_at: Timestamp,
    pub updated_at: Timestamp,
}

/// How far an indexing job is.
#[derive(Debug, Clone, Copy, PartialEq, Eq, Structural)]
pub enum IndexJobStatus {
    Pending,
    Running,
    Completed,
    Failed,
}

/// An indexing job.
#[derive(Debug)]
pub struct IndexJob {
    pub job_id: String,
    pub index_key: String,
    pub status: IndexJobStatus,
    pub document_count: u64,
    pub success_count: u64,
    pub failure_count: u64,
    pub created_at: Timestamp,
    pub updated_at: Timestamp,
}

/// The number that stands for a job status in the database.
pub open spec fn job_status_code(status: IndexJobStatus) -> i32 {
    match status {
        IndexJobStatus::Pending => 0,
        IndexJobStatus::Running => 1,
        IndexJobStatus::Completed => 2,
        IndexJobStatus::Failed => 3,
    }
}

/// The job status that a number stands for. A number that stands for none is read
/// as `Pending`.
pub open spec fn job_status_of(code: i32) -> IndexJobStatus {
    if code == job_status_code(IndexJobStatus::Running) {
        IndexJobStatus::Running
    } else if code == job_status_code(IndexJobStatus::Completed) {
        IndexJobStatus::Completed
    } else if code == job_status_code(IndexJobStatus::Failed) {
        IndexJobStatus::Failed
    } else {
        IndexJobStatus::Pending
    }
}

/// The job status that a number stands for. A number that stands for none is read
/// as `Pending`.
pub fn job_status_from_i32(status: i32) -> (job_status: IndexJobStatus)
    ensures
        job_status == job_status_of(status),
{
    match status {
        1 => IndexJobStatus::Running,
        2 => IndexJobStatus::Completed,
        3 => IndexJobStatus::Failed,
        _ => IndexJobStatus::Pending,
    }
}

/// A status is read as it was written.
pub proof fn lemma_job_status_reads_back(status: IndexJobStatus)
    ensures
        job_status_of(job_status_code(status)) == status,
{
}

/// The job that an index stands for. No jobs are counted with an index: one that
/// is there is complete.
pub fn index_row_to_job(row: &SearchIndexRow) -> (job: IndexJob)
    ensures
        job.job_id@ == row.index_key@,
        job.index_key@ == row.index_key@,
        job.status == IndexJobStatus::Completed,
        job.document_count == 0,
        job.success_count == 0,
        job.failure_count == 0,
        job.created_at == row.created_at,
        job.updated_at == row.updated_at,
{
    IndexJob {
        job_id: row.index_key.clone(),
        index_key: row.index_key.clone(),
        status: IndexJobStatus::Completed,
        document_count: 0,
        success_count: 0,
        failure_count: 0,
        created_at: row.created_at,
        updated_at: row.updated_at,
    }
}

// ---------------------------------------------------------------------------
// Documents
// ---------------------------------------------------------------------------

/// A row of `search_document`.
#[derive(Debug)]
pub struct SearchDocumentRow {
    pub document_id: String,
    pub index_key: String,
    pub title: String,
    pub payload_json: serde_json::Value,
    pub status: i32,
    pub updated_at: Timestamp,
}

/// The summary of a document.
#[derive(Debug)]
pub struct DocumentSummary {
    pub document_id: String,
    pub index_key: String,
    pub title: String,
    pub payload_json: serde_json::Value,
    pub status: i32,
    pub updated_at: Option<String>,
}

/// The summary holds what the row holds, with the time as RFC 3339 text.
pub open spec fn summarizes(summary: DocumentSummary, row: SearchDocumentRow) -> bool {
    &&& summary.document_id@ == row.document_id@
    &&& summary.index_key@ == row.index_key@
    &&& summary.title@ == row.title@
    &&& json(summary.payload_json) == json(row.payload_json)
    &&& summary.status == row.status
    &&& optional_view(summary.updated_at) == Some(
        rfc3339(row.updated_at.spec_seconds(), row.updated_at.spec_nanos()),
    )
}

/// The summary of a document.
pub fn document_row_to_summary(row: &SearchDocumentRow) -> (summary: DocumentSummary)
    ensures
        summarizes(summary, *row),
{
    DocumentSummary {
        document_id: row.document_id.clone(),
        index_key: row.index_key.clone(),
        title: row.title.clone(),
        payload_json: row.payload_json.clone(),
        status: row.status,
        updated_at: Some(row.updated_at.to_rfc3339()),
    }
}

/// The summaries of the documents, in their order.
pub fn document_summaries(rows: &Vec<SearchDocumentRow>) -> (summaries: Vec<DocumentSummary>)
    ensures
        summaries@.len() == rows@.len(),
        forall|i: int| 0 <= i < rows@.len() ==> summarizes(#[trigger] summaries@[i], rows@[i]),
{
    let mut summaries: Vec<DocumentSummary> = Vec::new();
    let mut i: usize = 0;
    while i < rows.len()
        invariant
            i <= rows@.len(),
            summaries@.len() == i,
            forall|k: int| 0 <= k < i ==> summarizes(#[trigger] summaries@[k], rows@[k]),
        decreases rows.len() - i,
    {
        summaries.push(document_row_to_summary(&rows[i]));
        i += 1;
    }
    summaries
}

/// How many documents an index has, how many are active, and when one last changed.
#[derive(Debug)]
pub struct DocumentStatsRow {
    pub document_count: i64,
    pub active_document_count: i64,
    pub last_updated: Option<Timestamp>,
}

/// How many documents an index has, how many are active, and when one last changed.
#[derive(Debug)]
pub struct IndexStats {
    pub index_key: String,
    pub document_count: u64,
    pub active_document_count: u64,
    pub last_updated: Option<String>,
}

/// A number of rows. The database counts no fewer than none; a negative number would be
/// taken for one above the signed range.
pub open spec fn counted(count: i64) -> int {
    if count >= 0 {
        count as int
    } else {
        count + 0x1_0000_0000_0000_0000
    }
}

/// A number of rows.
pub fn row_count(count: i64) -> (n: u64)
    ensures
        n == counted(count),
{
    proof {
        assert(count < 0 ==> (count as u64) == count + 0x1_0000_0000_0000_0000) by (bit_vector);
    }
    #[verifier::truncate]
    (count as u64)
}

/// The statistics are those of the row, with the time as RFC 3339 text.
pub open spec fn is_stats_of(stats: IndexStats, index_key: Seq<char>, row: DocumentStatsRow) -> bool {
    &&& stats.index_key@ == index_key
    &&& stats.document_count == counted(row.document_count)
    &&& stats.active_document_count == counted(row.active_document_count)
    &&& optional_view(stats.last_updated) == match row.last_updated {
        Some(t) => Some(rfc3339(t.spec_seconds(), t.spec_nanos())),
        None => None,
    }
}

/// The statistics of an index.
pub fn index_stats(index_key: &str, row: &DocumentStatsRow) -> (stats: IndexStats)
    ensures
        is_stats_of(stats, index_key@, *row),
{
    IndexStats {
        index_key: index_key.to_owned(),
        document_count: row_count(row.document_count),
        active_document_count: row_count(row.active_document_count),
        last_updated: match &row.last_updated {
            Some(t) => Some(t.to_rfc3339()),
            None => None,
        },
    }
}

// ---------------------------------------------------------------------------
// Promotions
// ---------------------------------------------------------------------------

/// Where a promotion is shown.
#[derive(Debug, Clone, Copy, PartialEq, Eq, Structural)]
pub enum PromotionPlacement {
    Top,
    Inline,
    Banner,
    Sidebar,
}

/// A row of `search_promotion`.
#[derive(Debug)]
pub struct SearchPromotionRow {
    pub promotion_key: String,
    pub placement: String,
    pub index_key: String,
    pub rule_json: serde_json::Value,
    pub status: i32,
    pub active_from: Option<Timestamp>,
    pub active_until: Option<Timestamp>,
}

/// What a promotion is shown with. The filters are none.
#[derive(Debug)]
pub struct PromotionTarget {
    pub index_key: String,
    pub placement: PromotionPlacement,
    pub filters: TextMap<String>,
}

/// A promotion. `R` is the type of its rules.
#[derive(Debug)]
pub struct Promotion<R> {
    pub promotion_id: String,
    pub title: String,
    pub target: PromotionTarget,
    pub rules: Vec<R>,
    pub start_at: Option<Timestamp>,
    pub end_at: Option<Timestamp>,
    pub enabled: bool,
}

/// How a placement is written in the database.
pub open spec fn placement_text(placement: PromotionPlacement) -> Seq<char> {
    match placement {
        PromotionPlacement::Top => "top"@,
        PromotionPlacement::Inline => "inline"@,
        PromotionPlacement::Banner => "banner"@,
        PromotionPlacement::Sidebar => "sidebar"@,
    }
}

/// The placement that is written so, or `Top`.
pub open spec fn placement_of(text: Seq<char>) -> PromotionPlacement {
    if text == placement_text(PromotionPlacement::Inline) {
        PromotionPlacement::Inline
    } else if text == placement_text(PromotionPlacement::Banner) {
        PromotionPlacement::Banner
    } else if text == placement_text(PromotionPlacement::Sidebar) {
        PromotionPlacement::Sidebar
    } else {
        PromotionPlacement::Top
    }
}

/// How a placement is written in the database.
pub fn placement_to_str(placement: PromotionPlacement) -> (text: &'static str)
    ensures
        text@ == placement_text(placement),
{
    match placement {
        PromotionPlacement::Top => "top",
        PromotionPlacement::Inline => "inline",
        PromotionPlacement::Banner => "banner",
        PromotionPlacement::Sidebar => "sidebar",
    }
}

/// The placement that is written so. A text that is none is read as `Top`.
pub fn parse_placement(value: &str) -> (placement: PromotionPlacement)
    ensures
        placement == placement_of(value@),
{
    if same_text(value, "inline") {
        PromotionPlacement::Inline
    } else if same_text(value, "banner") {
        PromotionPlacement::Banner
    } else if same_text(value, "sidebar") {
        PromotionPlacement::Sidebar
    } else {
        PromotionPlacement::Top
    }
}

/// A placement is read as it was written.
pub proof fn lemma_placement_reads_back(placement: PromotionPlacement)
    ensures
        placement_of(placement_text(placement)) == placement,
{
    reveal_strlit("top");
    reveal_strlit("inline");
    reveal_strlit("banner");
    reveal_strlit("sidebar");
    assert("inline"@[0] == 'i');
    assert("banner"@[0] == 'b');
    assert("sidebar"@[0] == 's');
    assert("top"@[0] == 't');
}

/// The rules of a promotion: what its rules were read as, where they are an array
/// that could be read.
pub open spec fn promotion_rules<R>(row: SearchPromotionRow, read: Option<Vec<R>>) -> Seq<R> {
    match read {
        Some(rules) => if json(row.rule_json) is Array {
            rules@
        } else {
            seq![]
        },
        None => seq![],
    }
}

/// The promotion is the one that the row holds, with those rules.
pub open spec fn is_promotion_of<R>(
    promotion: Promotion<R>,
    row: SearchPromotionRow,
    read: Option<Vec<R>>,
) -> bool {
    &&& promotion.promotion_id@ == row.promotion_key@
    &&& promotion.title@ == row.promotion_key@
    &&& promotion.target.index_key@ == row.index_key@
    &&& promotion.target.placement == placement_of(row.placement@)
    &&& promotion.target.filters@ == Map::<Seq<char>, String>::empty()
    &&& promotion.rules@ == promotion_rules(row, read)
    &&& promotion.start_at == row.active_from
    &&& promotion.end_at == row.active_until
    &&& promotion.enabled == (row.status == 1)
}

/// The promotion that a row holds. Its key stands for the title. `read` is what its
/// rules were read as, where they could be read; rules that are no array are none.
pub fn promotion_row_to_domain<R>(row: &SearchPromotionRow, read: Option<Vec<R>>) -> (promotion:
    Promotion<R>)
    ensures
        is_promotion_of(promotion, *row, read),
        promotion.start_at == row.active_from,
        promotion.end_at == row.active_until,
{
    let rules: Vec<R> = if row.rule_json.is_array() {
        match read {
            Some(rules) => rules,
            None => Vec::new(),
        }
    } else {
        Vec::new()
    };
    Promotion {
        promotion_id: row.promotion_key.clone(),
        title: row.promotion_key.clone(),
        target: PromotionTarget {
            index_key: row.index_key.clone(),
            placement: parse_placement(row.placement.as_str()),
            filters: TextMap::new(),
        },
        rules,
        start_at: row.active_from,
        end_at: row.active_until,
        enabled: row.status == 1,
    }
}

// ---------------------------------------------------------------------------
// Laws
// ---------------------------------------------------------------------------

/// The period of a promotion is the one that its row holds, at both ends: a row with an end
/// gives a promotion with that end, and a row without one a promotion without.
pub proof fn lemma_promotion_keeps_its_period<R>(
    promotion: Promotion<R>,
    row: SearchPromotionRow,
    read: Option<Vec<R>>,
)
    requires
        is_promotion_of(promotion, row, read),
    ensures
        promotion.start_at == row.active_from,
        promotion.end_at == row.active_until,
        row.active_until is Some ==> promotion.end_at is Some && promotion.end_at->0
            == row.active_until->0,
        row.active_until is None ==> promotion.end_at is None,
        row.active_from is Some ==> promotion.start_at is Some && promotion.start_at->0
            == row.active_from->0,
        row.active_from is None ==> promotion.start_at is None,
{
}

/// A promotion is known by its key and shown under it, for the index of its row, without
/// filters. It is enabled where the status of the row is one, and only there.
pub proof fn lemma_promotion_is_that_of_its_row<R>(
    promotion: Promotion<R>,
    row: SearchPromotionRow,
    read: Option<Vec<R>>,
)
    requires
        is_promotion_of(promotion, row, read),
    ensures
        promotion.promotion_id@ == row.promotion_key@,
        promotion.title@ == row.promotion_key@,
        promotion.target.index_key@ == row.index_key@,
        forall|name: Seq<char>| !promotion.target.filters@.contains_key(name),
        promotion.enabled <==> row.status == 1,
        json(row.rule_json) is Array && read is Some ==> promotion.rules@ == read->0@,
        !(json(row.rule_json) is Array) || read is None ==> promotion.rules@.len() == 0,
        row.placement@ == "top"@ ==> promotion.target.placement is Top,
        row.placement@ == "inline"@ ==> promotion.target.placement is Inline,
        row.placement@ == "banner"@ ==> promotion.target.placement is Banner,
        row.placement@ == "sidebar"@ ==> promotion.target.placement is Sidebar,
        row.placement@ != "inline"@ && row.placement@ != "banner"@ && row.placement@ != "sidebar"@
            ==> promotion.target.placement is Top,
{
    lemma_placement_reads_back(PromotionPlacement::Top);
    lemma_placement_reads_back(PromotionPlacement::Inline);
    lemma_placement_reads_back(PromotionPlacement::Banner);
    lemma_placement_reads_back(PromotionPlacement::Sidebar);
}

/// Different placements are written differently.
pub proof fn lemma_placements_told_apart(a: PromotionPlacement, b: PromotionPlacement)
    ensures
        placement_text(a) == placement_text(b) <==> a == b,
        placement_text(PromotionPlacement::Top) == "top"@,
        placement_text(PromotionPlacement::Inline) == "inline"@,
        placement_text(PromotionPlacement::Banner) == "banner"@,
        placement_text(PromotionPlacement::Sidebar) == "sidebar"@,
{
    lemma_placement_reads_back(a);
    lemma_placement_reads_back(b);
}

/// A job is pending unless the number of its status is one that stands for another: a job
/// that runs has one, one that is complete has two, and one that failed has three.
pub proof fn lemma_job_status_numbers(code: i32)
    ensures
        job_status_of(code) is Running <==> code == 1,
        job_status_of(code) is Completed <==> code == 2,
        job_status_of(code) is Failed <==> code == 3,
        job_status_of(code) is Pending <==> code < 1 || code > 3,
        job_status_code(IndexJobStatus::Pending) == 0,
{
}

/// A count of rows is the number that the database gave; no number is taken for another.
pub proof fn lemma_count_kept(a: i64, b: i64)
    ensures
        a >= 0 ==> counted(a) == a,
        a < 0 ==> i64::MAX < counted(a) <= u64::MAX,
        counted(a) == counted(b) ==> a == b,
        a < b < 0 ==> counted(b) - counted(a) == b - a,
        counted(-1i64) == u64::MAX,
{
}

/// The statistics of an index are those of its row, each in its place.
pub proof fn lemma_stats_are_those_of_the_row(
    stats: IndexStats,
    index_key: Seq<char>,
    row: DocumentStatsRow,
)
    requires
        is_stats_of(stats, index_key, row),
    ensures
        stats.index_key@ == index_key,
        row.document_count >= 0 ==> stats.document_count == row.document_count,
        row.active_document_count >= 0 ==> stats.active_document_count == row.active_document_count,
        row.last_updated is None ==> stats.last_updated is None,
        row.last_updated is Some ==> stats.last_updated is Some && stats.last_updated->0@
            == rfc3339(row.last_updated->0.spec_seconds(), row.last_updated->0.spec_nanos()),
{
}

/// A summary holds what its row holds, each in its place, and the time of the last change.
pub proof fn lemma_summary_is_that_of_its_row(summary: DocumentSummary, row: SearchDocumentRow)
    requires
        summarizes(summary, row),
    ensures
        summary.document_id@ == row.document_id@,
        summary.index_key@ == row.index_key@,
        summary.title@ == row.title@,
        json(summary.payload_json) == json(row.payload_json),
        summary.status == row.status,
        summary.updated_at is Some,
        summary.updated_at->0@ == rfc3339(
            row.updated_at.spec_seconds(),
            row.updated_at.spec_nanos(),
        ),
{
}

} // verus!
