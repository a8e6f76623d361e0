//! What is read of what was written, counted and found, over what the statements do to the
//! tables.
use vstd::prelude::*;

use crate::adapter::{
    job_binds, job_status_binds, new_job_binds, similar_documents_binds, stored_document_binds,
    title_or_name,
};
use crate::clock::{rfc3339, Timestamp};
use crate::documents::{
    index_document_binds, keyword_text, stored_embedding, text_or_empty, with_drive_references,
    IndexDocument,
};
use crate::domain::{
    counted, is_stats_of, job_status_of, summarizes, DocumentStatsRow, DocumentSummary,
    IndexJobStatus, IndexStats, SearchDocumentRow,
};
use crate::json::{json, jsons, Json};
use crate::repository::{document_binds, index_binds};
use crate::spi::SearchProviderContext;
use crate::statement::Bound;
use crate::tables::{
    active_documents, after_document_delete, after_document_upsert, after_index_document,
    after_job_create, after_job_status, found_document, found_job_status, gives_count, gives_stats,
    is_of_given, is_own_event, is_present, is_use_of, job_rows_affected, present_documents, reads_document,
    users_in_common, users_of_given, DocumentName, StoredDocument, StoredEvent, StoredJob,
};
use crate::text::optional_view;

verus! {

/// The name of the row of a document.
pub open spec fn row_name(
    context: SearchProviderContext,
    index_key: Seq<char>,
    document_id: Seq<char>,
) -> DocumentName {
    DocumentName {
        tenant_id: context.tenant_id,
        organization_id: context.organization_id,
        index_key,
        document_id,
    }
}

// ---------------------------------------------------------------------------
// Documents of the search provider
// ---------------------------------------------------------------------------

/// The content of the row is that of the document.
pub open spec fn has_content_of(stored: StoredDocument, document: IndexDocument) -> bool {
    &&& stored.title == text_or_empty(document.title)
    &&& stored.body_text == Some(text_or_empty(document.content))
    &&& stored.keyword_text == keyword_text(document.tags@)
    &&& stored.payload == with_drive_references(
        json(document.source),
        optional_view(document.drive_space_id),
        optional_view(document.drive_node_id),
    )
    &&& stored.embedding == stored_embedding(jsons(document.embedding@))
}

/// Writing a document gives the row of its name the content of the document, and leaves
/// every other row as it is.
pub proof fn lemma_document_is_written(
    table: Map<DocumentName, StoredDocument>,
    context: SearchProviderContext,
    document: IndexDocument,
    uuid: Seq<char>,
    now: Timestamp,
)
    ensures
        ({
            let name = row_name(context, document.index_key@, document.document_id@);
            let after = after_index_document(
                table,
                index_document_binds(context, document, uuid),
                now,
            );
            &&& after.contains_key(name)
            &&& has_content_of(after[name], document)
            &&& !table.contains_key(name) ==> after[name].uuid == uuid && after[name].status == 1
                && after[name].version == 0 && !after[name].deleted
            &&& after.remove(name) == table.remove(name)
        }),
{
    let name = row_name(context, document.index_key@, document.document_id@);
    let after = after_index_document(table, index_document_binds(context, document, uuid), now);
    assert(after.remove(name) =~= table.remove(name));
}

/// A second write of a document of the same name replaces the first: there is still one row
/// of that name, with the content of the second alone, under the same uuid, and a version
/// higher. Every other row stays as it is.
pub proof fn lemma_second_write_replaces(
    table: Map<DocumentName, StoredDocument>,
    context: SearchProviderContext,
    first: IndexDocument,
    second: IndexDocument,
    first_uuid: Seq<char>,
    second_uuid: Seq<char>,
    first_time: Timestamp,
    second_time: Timestamp,
)
    requires
        first.index_key@ == second.index_key@,
        first.document_id@ == second.document_id@,
    ensures
        ({
            let name = row_name(context, second.index_key@, second.document_id@);
            let once = after_index_document(
                table,
                index_document_binds(context, first, first_uuid),
                first_time,
            );
            let twice = after_index_document(
                once,
                index_document_binds(context, second, second_uuid),
                second_time,
            );
            &&& twice.dom() == once.dom()
            &&& has_content_of(twice[name], second)
            &&& twice[name].uuid == once[name].uuid
            &&& twice[name].version == once[name].version + 1
            &&& twice.remove(name) == once.remove(name)
        }),
{
    let name = row_name(context, second.index_key@, second.document_id@);
    let once = after_index_document(
        table,
        index_document_binds(context, first, first_uuid),
        first_time,
    );
    let twice = after_index_document(
        once,
        index_document_binds(context, second, second_uuid),
        second_time,
    );
    lemma_document_is_written(table, context, first, first_uuid, first_time);
    lemma_document_is_written(once, context, second, second_uuid, second_time);
    assert(twice.dom() =~= once.dom());
}

// ---------------------------------------------------------------------------
// Documents of the repository
// ---------------------------------------------------------------------------

/// A document that was written is read back: its names, its title or else its name, its
/// payload, and that it is active. This holds unless a row of its name was marked as deleted
/// before, which stays marked.
pub proof fn lemma_written_document_is_read_back(
    table: Map<DocumentName, StoredDocument>,
    context: SearchProviderContext,
    document: IndexDocument,
    index_id: i64,
    id: i64,
    uuid: Seq<char>,
    now: Timestamp,
    row: SearchDocumentRow,
    summary: DocumentSummary,
)
    requires
        ({
            let name = row_name(context, document.index_key@, document.document_id@);
            let after = after_document_upsert(
                table,
                stored_document_binds(context, document, index_id, id, uuid),
                now,
            );
            &&& table.contains_key(name) ==> !table[name].deleted
            &&& reads_document(row, name, after[name])
            &&& summarizes(summary, row)
        }),
    ensures
        ({
            let name = row_name(context, document.index_key@, document.document_id@);
            let after = after_document_upsert(
                table,
                stored_document_binds(context, document, index_id, id, uuid),
                now,
            );
            &&& found_document(
                after,
                document_binds(
                    context.tenant_id,
                    context.organization_id,
                    document.index_key@,
                    document.document_id@,
                ),
            ) == Some(after[name])
            &&& after.remove(name) == table.remove(name)
        }),
        summary.document_id@ == document.document_id@,
        summary.index_key@ == document.index_key@,
        summary.title@ == title_or_name(document),
        json(summary.payload_json) == json(document.source),
        summary.status == 1,
        optional_view(summary.updated_at) == Some(rfc3339(now.spec_seconds(), now.spec_nanos())),
{
    let name = row_name(context, document.index_key@, document.document_id@);
    let after = after_document_upsert(
        table,
        stored_document_binds(context, document, index_id, id, uuid),
        now,
    );
    assert(after.remove(name) =~= table.remove(name));
}

/// A document that was deleted is not found, and no other row is changed.
pub proof fn lemma_deleted_document_is_gone(
    table: Map<DocumentName, StoredDocument>,
    context: SearchProviderContext,
    index_key: Seq<char>,
    document_id: Seq<char>,
    now: Timestamp,
)
    ensures
        ({
            let name = row_name(context, index_key, document_id);
            let key = document_binds(
                context.tenant_id,
                context.organization_id,
                index_key,
                document_id,
            );
            let after = after_document_delete(
                table,
                seq![Bound::OptionalBigInt(context.user_id)] + key,
                now,
            );
            &&& found_document(after, key) is None
            &&& after.remove(name) == table.remove(name)
        }),
{
    let name = row_name(context, index_key, document_id);
    let key = document_binds(context.tenant_id, context.organization_id, index_key, document_id);
    let binds = seq![Bound::OptionalBigInt(context.user_id)] + key;
    let after = after_document_delete(table, binds, now);
    assert(binds[1] == key[0] && binds[2] == key[1] && binds[3] == key[2] && binds[4] == key[3]);
    assert(after.remove(name) =~= table.remove(name));
}

// ---------------------------------------------------------------------------
// Jobs
// ---------------------------------------------------------------------------

/// A new job is read as pending.
pub proof fn lemma_new_job_is_pending(
    table: Map<Seq<char>, StoredJob>,
    context: SearchProviderContext,
    index_key: Seq<char>,
    job_type: Seq<char>,
    payload: Json,
    id: i64,
    uuid: Seq<char>,
)
    requires
        !table.contains_key(uuid),
    ensures
        found_job_status(
            after_job_create(
                table,
                new_job_binds(context, index_key, job_type, payload, id, uuid),
            ),
            job_binds(context, uuid),
        ) == Some(0i32),
        job_status_of(0) == IndexJobStatus::Pending,
{
}

/// The last status that was written to a job is the one that is read, and the jobs of other
/// names keep theirs. A job that is not there, or that belongs to another tenant or
/// organization, is not found and not changed.
pub proof fn lemma_job_status_is_read_back(
    table: Map<Seq<char>, StoredJob>,
    context: SearchProviderContext,
    uuid: Seq<char>,
    status: i32,
    started_at: Option<Timestamp>,
    finished_at: Option<Timestamp>,
    error_summary: Option<Seq<char>>,
)
    ensures
        ({
            let binds = job_status_binds(
                context,
                uuid,
                status,
                started_at,
                finished_at,
                error_summary,
            );
            let key = job_binds(context, uuid);
            let after = after_job_status(table, binds);
            &&& job_rows_affected(table, binds) > 0 <==> found_job_status(table, key) is Some
            &&& found_job_status(table, key) is Some ==> found_job_status(after, key) == Some(
                status,
            )
            &&& found_job_status(table, key) is None ==> after == table
            &&& after.remove(uuid) == table.remove(uuid)
        }),
{
    let binds = job_status_binds(context, uuid, status, started_at, finished_at, error_summary);
    let after = after_job_status(table, binds);
    assert(after.remove(uuid) =~= table.remove(uuid));
}

/// No job is found under a uuid that no job has.
pub proof fn lemma_unknown_job_is_not_found(
    table: Map<Seq<char>, StoredJob>,
    context: SearchProviderContext,
    uuid: Seq<char>,
)
    requires
        !table.contains_key(uuid),
    ensures
        found_job_status(table, job_binds(context, uuid)) is None,
{
}

/// Jobs of different organizations, tenants or names are different rows.
pub proof fn lemma_jobs_kept_apart(
    a: SearchProviderContext,
    b: SearchProviderContext,
    a_uuid: Seq<char>,
    b_uuid: Seq<char>,
)
    ensures
        job_binds(a, a_uuid) == job_binds(b, b_uuid) <==> a.tenant_id == b.tenant_id
            && a.organization_id == b.organization_id && a_uuid == b_uuid,
{
    let x = job_binds(a, a_uuid);
    let y = job_binds(b, b_uuid);
    if x == y {
        assert(x[0] == y[0] && x[1] == y[1] && x[2] == y[2]);
    }
}

// ---------------------------------------------------------------------------
// Statistics
// ---------------------------------------------------------------------------

/// The statistics of an index agree with the count of its documents on the same table. No
/// more documents are active than there are, and there is a latest change just where there
/// are documents: its time is that of a document, and no document changed later.
pub proof fn lemma_stats_agree_with_count(
    table: Map<DocumentName, StoredDocument>,
    context: SearchProviderContext,
    index_key: Seq<char>,
    count: i64,
    row: DocumentStatsRow,
    stats: IndexStats,
)
    requires
        table.dom().finite(),
        gives_count(
            count,
            table,
            index_binds(context.tenant_id, context.organization_id, index_key),
        ),
        gives_stats(
            row,
            table,
            index_binds(context.tenant_id, context.organization_id, index_key),
        ),
        is_stats_of(stats, index_key, row),
    ensures
        stats.index_key@ == index_key,
        stats.document_count == counted(count),
        stats.active_document_count == active_documents(
            table,
            index_binds(context.tenant_id, context.organization_id, index_key),
        ).len(),
        stats.active_document_count <= stats.document_count,
        stats.last_updated is None <==> stats.document_count == 0,
{
    let binds = index_binds(context.tenant_id, context.organization_id, index_key);
    let names = present_documents(table, binds);
    let active = active_documents(table, binds);
    assert(names.finite());
    vstd::set_lib::lemma_len_subset(active, names);
    if names.len() == 0 {
        assert(names =~= Set::empty());
    } else {
        let name = names.choose();
        assert(names.contains(name));
    }
}

/// An index without documents has zero counts and no latest change.
pub proof fn lemma_stats_of_empty_index(
    table: Map<DocumentName, StoredDocument>,
    context: SearchProviderContext,
    index_key: Seq<char>,
    row: DocumentStatsRow,
    stats: IndexStats,
)
    requires
        forall|document_id: Seq<char>|
            !is_present(table, #[trigger] row_name(context, index_key, document_id)),
        gives_stats(
            row,
            table,
            index_binds(context.tenant_id, context.organization_id, index_key),
        ),
        is_stats_of(stats, index_key, row),
    ensures
        stats.document_count == 0,
        stats.active_document_count == 0,
        stats.last_updated is None,
{
    let binds = index_binds(context.tenant_id, context.organization_id, index_key);
    let names = present_documents(table, binds);
    assert forall|name: DocumentName| !(#[trigger] names.contains(name)) by {
        if names.contains(name) {
            assert(name == row_name(context, index_key, name.document_id));
        }
    }
    assert(names =~= Set::empty());
    assert(active_documents(table, binds) =~= Set::empty());
}

// ---------------------------------------------------------------------------
// Similar documents
// ---------------------------------------------------------------------------

/// The events of the tenant and the organization.
pub open spec fn own_events(events: Set<StoredEvent>, binds: Seq<Bound>) -> Set<StoredEvent> {
    events.filter(|event: StoredEvent| is_own_event(event, binds))
}

proof fn lemma_only_own_events_count(
    events: Set<StoredEvent>,
    binds: Seq<Bound>,
    document_id: Seq<char>,
)
    ensures
        users_in_common(events, binds, document_id) == users_in_common(
            own_events(events, binds),
            binds,
            document_id,
        ),
{
    let own = own_events(events, binds);
    assert forall|event: StoredEvent| is_own_event(event, binds) implies #[trigger] own.contains(event)
        == events.contains(event) by {
    }
    assert(users_of_given(events, binds) =~= users_of_given(own, binds)) by {
        assert forall|user: i64|
            users_of_given(events, binds).contains(user) == users_of_given(own, binds).contains(
                user,
            ) by {
            if users_of_given(events, binds).contains(user) {
                let event = choose|event: StoredEvent| #[trigger]
                    events.contains(event) && is_own_event(event, binds)
                        && is_of_given(event, binds) && event.user_id == user;
                assert(own.contains(event));
            }
        }
    }
    assert forall|user: i64|
        users_in_common(events, binds, document_id).contains(user) == users_in_common(
            own,
            binds,
            document_id,
        ).contains(user) by {
        if users_in_common(events, binds, document_id).contains(user) {
            let event = choose|event: StoredEvent| #[trigger]
                events.contains(event) && is_own_event(event, binds) && is_use_of(
                    event,
                    binds,
                    document_id,
                ) && event.user_id == user;
            assert(own.contains(event));
        }
    }
    assert(users_in_common(events, binds, document_id) =~= users_in_common(
        own,
        binds,
        document_id,
    ));
}

/// Events of other tenants and organizations have no influence on which documents are found
/// to be similar, nor on their scores: two tables that agree on the events of the tenant and
/// the organization give every document the same users. The given documents themselves have
/// none, so they are not found.
pub proof fn lemma_similar_documents_are_isolated(
    a: Set<StoredEvent>,
    b: Set<StoredEvent>,
    context: SearchProviderContext,
    index_key: Seq<char>,
    document_ids: Seq<Seq<char>>,
    limit: u32,
    document_id: Seq<char>,
)
    requires
        own_events(a, similar_documents_binds(context, index_key, document_ids, limit))
            == own_events(b, similar_documents_binds(context, index_key, document_ids, limit)),
    ensures
        ({
            let binds = similar_documents_binds(context, index_key, document_ids, limit);
            &&& users_in_common(a, binds, document_id) == users_in_common(b, binds, document_id)
            &&& document_ids.contains(document_id) ==> users_in_common(a, binds, document_id)
                == Set::<i64>::empty()
        }),
{
    let binds = similar_documents_binds(context, index_key, document_ids, limit);
    lemma_only_own_events_count(a, binds, document_id);
    lemma_only_own_events_count(b, binds, document_id);
    if document_ids.contains(document_id) {
        assert(users_in_common(a, binds, document_id) =~= Set::<i64>::empty());
    }
}

} // verus!
