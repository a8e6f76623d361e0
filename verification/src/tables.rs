//! What the statements do to the tables, as SQL defines it: the columns that are read
//! back, and which rows are counted. The text of each statement stands in
//! [`crate::queries`] or [`crate::provider_sql`]. That the database does this is its own
//! part; nothing here shows it.
use vstd::prelude::*;

use crate::clock::Timestamp;
use crate::domain::{DocumentStatsRow, SearchDocumentRow};
use crate::json::{json, Json};
use crate::statement::Bound;

verus! {

// ---------------------------------------------------------------------------
// search_document
// ---------------------------------------------------------------------------

/// What names a row of `search_document`: no two rows have the same.
pub struct DocumentName {
    pub tenant_id: i64,
    pub organization_id: i64,
    pub index_key: Seq<char>,
    pub document_id: Seq<char>,
}

/// What a row of `search_document` holds beside its name.
pub struct StoredDocument {
    pub uuid: Seq<char>,
    pub title: Seq<char>,
    pub body_text: Option<Seq<char>>,
    pub keyword_text: Option<Seq<char>>,
    pub payload: Json,
    pub embedding: Json,
    pub status: i32,
    pub version: int,
    pub updated_at: Timestamp,
    pub deleted: bool,
}

/// The name of a row, by the values bound for its parts.
pub open spec fn document_name(
    tenant_id: Bound,
    organization_id: Bound,
    index_key: Bound,
    document_id: Bound,
) -> DocumentName {
    DocumentName {
        tenant_id: tenant_id->BigInt_0,
        organization_id: organization_id->BigInt_0,
        index_key: index_key->Text_0,
        document_id: document_id->Text_0,
    }
}

/// The table after [`crate::provider_sql::INDEX_DOCUMENT`]: a new row, active and of
/// version zero; or the row of that name with new content and a version more, and with
/// its other columns as they were.
pub open spec fn after_index_document(
    table: Map<DocumentName, StoredDocument>,
    binds: Seq<Bound>,
    now: Timestamp,
) -> Map<DocumentName, StoredDocument> {
    let name = document_name(binds[1], binds[2], binds[3], binds[4]);
    let known = table.contains_key(name);
    table.insert(
        name,
        StoredDocument {
            uuid: if known {
                table[name].uuid
            } else {
                binds[0]->Text_0
            },
            title: binds[5]->Text_0,
            body_text: Some(binds[6]->Text_0),
            keyword_text: binds[7]->OptionalText_0,
            payload: binds[8]->Json_0,
            embedding: binds[9]->Json_0,
            status: if known {
                table[name].status
            } else {
                1
            },
            version: if known {
                table[name].version + 1
            } else {
                0
            },
            updated_at: now,
            deleted: known && table[name].deleted,
        },
    )
}

/// The table after [`crate::queries::DOCUMENT_UPSERT`]: a new row of version zero; or the
/// row of that name with new content, a new status and a version more. A row that is marked
/// as deleted stays marked.
pub open spec fn after_document_upsert(
    table: Map<DocumentName, StoredDocument>,
    binds: Seq<Bound>,
    now: Timestamp,
) -> Map<DocumentName, StoredDocument> {
    let name = document_name(binds[2], binds[3], binds[5], binds[6]);
    let known = table.contains_key(name);
    table.insert(
        name,
        StoredDocument {
            uuid: if known {
                table[name].uuid
            } else {
                binds[1]->Text_0
            },
            title: binds[12]->Text_0,
            body_text: binds[13]->OptionalText_0,
            keyword_text: binds[14]->OptionalText_0,
            payload: binds[15]->Json_0,
            embedding: binds[17]->Json_0,
            status: binds[18]->Integer_0,
            version: if known {
                table[name].version + 1
            } else {
                0
            },
            updated_at: now,
            deleted: known && table[name].deleted,
        },
    )
}

/// A row of that name is there and is not marked as deleted.
pub open spec fn is_present(table: Map<DocumentName, StoredDocument>, name: DocumentName) -> bool {
    table.contains_key(name) && !table[name].deleted
}

/// The table after [`crate::queries::DOCUMENT_DELETE`]: the row of that name is marked,
/// where it is present.
pub open spec fn after_document_delete(
    table: Map<DocumentName, StoredDocument>,
    binds: Seq<Bound>,
    now: Timestamp,
) -> Map<DocumentName, StoredDocument> {
    let name = document_name(binds[1], binds[2], binds[3], binds[4]);
    if is_present(table, name) {
        table.insert(
            name,
            StoredDocument {
                deleted: true,
                version: table[name].version + 1,
                updated_at: now,
                ..table[name]
            },
        )
    } else {
        table
    }
}

/// The row that [`crate::queries::DOCUMENT_GET`] finds.
pub open spec fn found_document(table: Map<DocumentName, StoredDocument>, binds: Seq<Bound>) -> Option<
    StoredDocument,
> {
    let name = document_name(binds[0], binds[1], binds[2], binds[3]);
    if is_present(table, name) {
        Some(table[name])
    } else {
        None
    }
}

/// The row that is read is that one.
pub open spec fn reads_document(
    row: SearchDocumentRow,
    name: DocumentName,
    stored: StoredDocument,
) -> bool {
    &&& row.document_id@ == name.document_id
    &&& row.index_key@ == name.index_key
    &&& row.title@ == stored.title
    &&& json(row.payload_json) == stored.payload
    &&& row.status == stored.status
    &&& row.updated_at == stored.updated_at
}

/// The rows of an index, without those marked as deleted: what
/// [`crate::queries::DOCUMENT_COUNT`] and [`crate::queries::DOCUMENT_STATS`] count.
pub open spec fn present_documents(
    table: Map<DocumentName, StoredDocument>,
    binds: Seq<Bound>,
) -> Set<DocumentName> {
    table.dom().filter(
        |name: DocumentName|
            name.tenant_id == binds[0]->BigInt_0 && name.organization_id == binds[1]->BigInt_0
                && name.index_key == binds[2]->Text_0 && !table[name].deleted,
    )
}

/// Those of them that are active.
pub open spec fn active_documents(
    table: Map<DocumentName, StoredDocument>,
    binds: Seq<Bound>,
) -> Set<DocumentName> {
    present_documents(table, binds).filter(|name: DocumentName| table[name].status == 1)
}

/// Not after the other time.
pub open spec fn not_after(a: Timestamp, b: Timestamp) -> bool {
    a.spec_seconds() < b.spec_seconds() || (a.spec_seconds() == b.spec_seconds() && a.spec_nanos()
        <= b.spec_nanos())
}

/// The row that [`crate::queries::DOCUMENT_COUNT`] gives.
pub open spec fn gives_count(
    count: i64,
    table: Map<DocumentName, StoredDocument>,
    binds: Seq<Bound>,
) -> bool {
    count == present_documents(table, binds).len()
}

/// The row that [`crate::queries::DOCUMENT_STATS`] gives: two numbers, and the time of the
/// latest change, where there is one.
pub open spec fn gives_stats(
    row: DocumentStatsRow,
    table: Map<DocumentName, StoredDocument>,
    binds: Seq<Bound>,
) -> bool {
    let names = present_documents(table, binds);
    &&& row.document_count == names.len()
    &&& row.active_document_count == active_documents(table, binds).len()
    &&& match row.last_updated {
        Some(latest) => (exists|name: DocumentName|
            #[trigger] names.contains(name) && table[name].updated_at == latest) && forall|
            name: DocumentName,
        |
            #[trigger] names.contains(name) ==> not_after(table[name].updated_at, latest),
        None => forall|name: DocumentName| !(#[trigger] names.contains(name)),
    }
}

// ---------------------------------------------------------------------------
// search_index_job
// ---------------------------------------------------------------------------

/// What a row of `search_index_job` holds. Its uuid names it.
pub struct StoredJob {
    pub tenant_id: i64,
    pub organization_id: i64,
    pub status: i32,
}

/// The table after [`crate::queries::JOB_CREATE`]: a new row, pending. Its uuid is new.
pub open spec fn after_job_create(table: Map<Seq<char>, StoredJob>, binds: Seq<Bound>) -> Map<
    Seq<char>,
    StoredJob,
>
    recommends
        !table.contains_key(binds[1]->Text_0),
{
    table.insert(
        binds[1]->Text_0,
        StoredJob {
            tenant_id: binds[2]->BigInt_0,
            organization_id: binds[3]->BigInt_0,
            status: 0,
        },
    )
}

/// The job of that uuid is there, and belongs to that tenant and that organization.
pub open spec fn has_job(
    table: Map<Seq<char>, StoredJob>,
    tenant_id: Bound,
    organization_id: Bound,
    uuid: Bound,
) -> bool {
    &&& table.contains_key(uuid->Text_0)
    &&& table[uuid->Text_0].tenant_id == tenant_id->BigInt_0
    &&& table[uuid->Text_0].organization_id == organization_id->BigInt_0
}

/// The rows that [`crate::queries::JOB_UPDATE_STATUS`] affects.
pub open spec fn job_rows_affected(table: Map<Seq<char>, StoredJob>, binds: Seq<Bound>) -> u64 {
    if has_job(table, binds[5], binds[6], binds[4]) {
        1
    } else {
        0
    }
}

/// The table after [`crate::queries::JOB_UPDATE_STATUS`].
pub open spec fn after_job_status(table: Map<Seq<char>, StoredJob>, binds: Seq<Bound>) -> Map<
    Seq<char>,
    StoredJob,
> {
    if has_job(table, binds[5], binds[6], binds[4]) {
        let uuid = binds[4]->Text_0;
        table.insert(uuid, StoredJob { status: binds[0]->Integer_0, ..table[uuid] })
    } else {
        table
    }
}

/// The status of the row that [`crate::queries::JOB_GET`] finds.
pub open spec fn found_job_status(table: Map<Seq<char>, StoredJob>, binds: Seq<Bound>) -> Option<i32> {
    if has_job(table, binds[0], binds[1], binds[2]) {
        Some(table[binds[2]->Text_0].status)
    } else {
        None
    }
}

// ---------------------------------------------------------------------------
// search_user_event
// ---------------------------------------------------------------------------

/// A row of `search_user_event`.
pub struct StoredEvent {
    pub id: i64,
    pub tenant_id: i64,
    pub organization_id: i64,
    pub user_id: i64,
    pub event_type: Seq<char>,
    pub index_key: Option<Seq<char>>,
    pub document_id: Option<Seq<char>>,
}

/// The event belongs to the tenant and the organization that are bound.
pub open spec fn is_own_event(event: StoredEvent, binds: Seq<Bound>) -> bool {
    event.tenant_id == binds[0]->BigInt_0 && event.organization_id == binds[1]->BigInt_0
}

/// The event is one of the given documents.
pub open spec fn is_of_given(event: StoredEvent, binds: Seq<Bound>) -> bool {
    event.document_id is Some && binds[3]->TextArray_0.contains(event.document_id->0)
}

/// The users that the inner part of [`crate::queries::USER_EVENT_SIMILAR_DOCUMENTS`] finds:
/// those with an event of one of the given documents.
pub open spec fn users_of_given(events: Set<StoredEvent>, binds: Seq<Bound>) -> Set<i64> {
    Set::new(
        |user: i64|
            exists|event: StoredEvent| #[trigger]
                events.contains(event) && is_own_event(event, binds) && is_of_given(event, binds)
                    && event.user_id == user,
    )
}

/// The event is a view or a click of that document in the index that is bound.
pub open spec fn is_use_of(event: StoredEvent, binds: Seq<Bound>, document_id: Seq<char>) -> bool {
    &&& event.index_key == Some(binds[2]->Text_0)
    &&& event.document_id == Some(document_id)
    &&& event.event_type == "view"@ || event.event_type == "click"@
}

/// The users that [`crate::queries::USER_EVENT_SIMILAR_DOCUMENTS`] counts for a document:
/// none for the given documents; for another one those who used it and have an event of one
/// of the given documents. A document with such users is found, and their number is its
/// score.
pub open spec fn users_in_common(
    events: Set<StoredEvent>,
    binds: Seq<Bound>,
    document_id: Seq<char>,
) -> Set<i64> {
    Set::new(
        |user: i64|
            !binds[3]->TextArray_0.contains(document_id) && users_of_given(events, binds).contains(
                user,
            ) && exists|event: StoredEvent| #[trigger]
                events.contains(event) && is_own_event(event, binds) && is_use_of(
                    event,
                    binds,
                    document_id,
                ) && event.user_id == user,
    )
}

} // verus!
