//! Recommendations: from what users did to scored documents.
use vstd::prelude::*;

use crate::clock::{rfc3339, Timestamp};
use crate::json::{integer_value, json, object_value, text_value, Json};
use crate::text::{optional_view, signed_decimal};

verus! {

/// A score: a numerator over a denominator, which is positive.
#[derive(Debug, Clone, Copy, PartialEq, Eq, Structural)]
pub struct Score {
    pub numerator: i64,
    pub denominator: u64,
}

impl Score {
    /// Neither below zero nor above one.
    pub open spec fn in_unit_range(self) -> bool {
        self.denominator > 0 && 0 <= self.numerator <= self.denominator
    }

    /// Greater than the other score.
    pub open spec fn exceeds(self, other: Score) -> bool {
        self.numerator * other.denominator > other.numerator * self.denominator
    }
}

/// A document that is recommended.
#[derive(Debug)]
pub struct RecommendationItem {
    pub document_id: String,
    pub score: Score,
    pub source: serde_json::Value,
    pub reason: Option<String>,
}

/// What is recommended.
pub struct Recommended {
    pub document_id: Seq<char>,
    pub score: Score,
    pub source: Json,
    pub reason: Option<Seq<char>>,
}

impl View for RecommendationItem {
    type V = Recommended;

    open spec fn view(&self) -> Recommended {
        Recommended {
            document_id: self.document_id@,
            score: self.score,
            source: json(self.source),
            reason: optional_view(self.reason),
        }
    }
}

/// What is recommended, one by one.
pub open spec fn recommended(items: Seq<RecommendationItem>) -> Seq<Recommended> {
    Seq::new(items.len(), |i: int| items[i]@)
}

// ---------------------------------------------------------------------------
// What a user did last
// ---------------------------------------------------------------------------

/// What a user did, with which document where there is one, and when.
#[derive(Debug)]
pub struct UserEventRow {
    pub event_type: String,
    pub document_id: Option<String>,
    pub occurred_at: Timestamp,
}

/// What is told of an event: its type and its time.
pub open spec fn event_source(row: UserEventRow) -> Json {
    Json::Object(
        Map::<Seq<char>, Json>::empty().insert("event_type"@, Json::Text(row.event_type@)).insert(
            "occurred_at"@,
            Json::Text(rfc3339(row.occurred_at.spec_seconds(), row.occurred_at.spec_nanos())),
        ),
    )
}

/// The document of an event at a position, from zero. The score falls with the
/// position: one over its number, from one.
pub open spec fn recent_recommendation(row: UserEventRow, position: int) -> Recommended
    recommends
        row.document_id is Some,
{
    Recommended {
        document_id: row.document_id->0@,
        score: Score { numerator: 1, denominator: (position + 1) as u64 },
        source: event_source(row),
        reason: Some("recent_user_event"@),
    }
}

/// The documents of the events that have one, in the order of the events.
pub open spec fn recent_recommendations(rows: Seq<UserEventRow>) -> Seq<Recommended>
    decreases rows.len(),
{
    if rows.len() == 0 {
        seq![]
    } else {
        let before = recent_recommendations(rows.drop_last());
        if rows.last().document_id is Some {
            before.push(recent_recommendation(rows.last(), rows.len() - 1))
        } else {
            before
        }
    }
}

fn event_item(row: &UserEventRow, document_id: &String, position: usize) -> (item: RecommendationItem)
    requires
        row.document_id == Some(*document_id),
        position < usize::MAX,
    ensures
        item@ == recent_recommendation(*row, position as int),
{
    let mut source: serde_json::Map<String, serde_json::Value> = serde_json::Map::new();
    let _ = source.insert("event_type".to_owned(), text_value(row.event_type.clone()));
    let _ = source.insert("occurred_at".to_owned(), text_value(row.occurred_at.to_rfc3339()));
    RecommendationItem {
        document_id: document_id.clone(),
        score: Score { numerator: 1, denominator: position as u64 + 1 },
        source: object_value(source),
        reason: Some("recent_user_event".to_owned()),
    }
}

/// The documents of the events that have one, in the order of the events, which is
/// from the latest on. The later an event, the higher the score.
pub fn recent_items(rows: &Vec<UserEventRow>) -> (items: Vec<RecommendationItem>)
    ensures
        recommended(items@) == recent_recommendations(rows@),
{
    let mut items: Vec<RecommendationItem> = Vec::new();
    let mut i: usize = 0;
    assert(rows@.take(0) == Seq::<UserEventRow>::empty());
    while i < rows.len()
        invariant
            i <= rows@.len(),
            recommended(items@) == recent_recommendations(rows@.take(i as int)),
        decreases rows.len() - i,
    {
        let ghost before = items@;
        match &rows[i].document_id {
            Some(document_id) => {
                items.push(event_item(&rows[i], document_id, i));
                assert(recommended(items@) == recommended(before).push(items@.last()@));
            },
            None => {},
        }
        assert(rows@.take(i + 1).drop_last() == rows@.take(i as int));
        assert(rows@.take(i + 1).last() == rows@[i as int]);
        i += 1;
    }
    assert(rows@.take(rows@.len() as int) == rows@);
    items
}

// ---------------------------------------------------------------------------
// What many users did
// ---------------------------------------------------------------------------

/// A document and a count: how often it was viewed or clicked, or how many users
/// it has in common with others.
#[derive(Debug)]
pub struct DocumentCountRow {
    pub document_id: String,
    pub count: i64,
}

/// The count that the scores are measured by: the first one, and at least one.
pub open spec fn reference_count(rows: Seq<DocumentCountRow>) -> u64 {
    if rows.len() == 0 || rows[0].count < 1 {
        1
    } else {
        rows[0].count as u64
    }
}

/// The document of a row. Its score is its count over the reference count.
pub open spec fn counted_recommendation(
    row: DocumentCountRow,
    reference: u64,
    measure: Seq<char>,
    reason: Seq<char>,
) -> Recommended {
    Recommended {
        document_id: row.document_id@,
        score: Score { numerator: row.count, denominator: reference },
        source: Json::Object(
            Map::<Seq<char>, Json>::empty().insert(
                measure,
                Json::Number(signed_decimal(row.count as int)),
            ),
        ),
        reason: Some(reason),
    }
}

/// The documents of the rows, in their order.
pub open spec fn counted_recommendations(
    rows: Seq<DocumentCountRow>,
    measure: Seq<char>,
    reason: Seq<char>,
) -> Seq<Recommended> {
    Seq::new(
        rows.len(),
        |i: int| counted_recommendation(rows[i], reference_count(rows), measure, reason),
    )
}

fn counted_items(rows: &Vec<DocumentCountRow>, measure: &str, reason: &str) -> (items: Vec<
    RecommendationItem,
>)
    ensures
        recommended(items@) == counted_recommendations(rows@, measure@, reason@),
        items@.len() == rows@.len(),
        forall|i: int|
            0 <= i < rows@.len() ==> (#[trigger] items@[i]).document_id@ == rows@[i].document_id@,
{
    let reference: u64 = if rows.len() == 0 || rows[0].count < 1 {
        1
    } else {
        rows[0].count as u64
    };
    let mut items: Vec<RecommendationItem> = Vec::new();
    let mut i: usize = 0;
    while i < rows.len()
        invariant
            i <= rows@.len(),
            items@.len() == i,
            reference == reference_count(rows@),
            forall|k: int|
                0 <= k < i ==> (#[trigger] items@[k])@ == counted_recommendation(
                    rows@[k],
                    reference,
                    measure@,
                    reason@,
                ),
            forall|k: int|
                0 <= k < i ==> (#[trigger] items@[k]).document_id@ == rows@[k].document_id@,
        decreases rows.len() - i,
    {
        let row: &DocumentCountRow = &rows[i];
        let mut source: serde_json::Map<String, serde_json::Value> = serde_json::Map::new();
        let _ = source.insert(measure.to_owned(), integer_value(row.count));
        items.push(
            RecommendationItem {
                document_id: row.document_id.clone(),
                score: Score { numerator: row.count, denominator: reference },
                source: object_value(source),
                reason: Some(reason.to_owned()),
            },
        );
        i += 1;
    }
    assert(recommended(items@) == counted_recommendations(rows@, measure@, reason@));
    items
}

/// The documents that were viewed or clicked most, by how often they were.
pub fn trending_items(rows: &Vec<DocumentCountRow>) -> (items: Vec<RecommendationItem>)
    ensures
        recommended(items@) == counted_recommendations(rows@, "event_count"@, "trending"@),
        items@.len() == rows@.len(),
        forall|i: int|
            0 <= i < rows@.len() ==> (#[trigger] items@[i]).document_id@ == rows@[i].document_id@,
{
    counted_items(rows, "event_count", "trending")
}

/// The documents that have users in common with others, by how many they have.
pub fn similar_items(rows: &Vec<DocumentCountRow>) -> (items: Vec<RecommendationItem>)
    ensures
        recommended(items@) == counted_recommendations(
            rows@,
            "similarity_score"@,
            "collaborative_filtering"@,
        ),
        items@.len() == rows@.len(),
        forall|i: int|
            0 <= i < rows@.len() ==> (#[trigger] items@[i]).document_id@ == rows@[i].document_id@,
{
    counted_items(rows, "similarity_score", "collaborative_filtering")
}

// ---------------------------------------------------------------------------
// Laws
// ---------------------------------------------------------------------------

proof fn lemma_recent_denominators(rows: Seq<UserEventRow>)
    requires
        rows.len() <= u64::MAX,
    ensures
        forall|i: int|
            0 <= i < recent_recommendations(rows).len() ==> {
                let score = (#[trigger] recent_recommendations(rows)[i]).score;
                score.numerator == 1 && 1 <= score.denominator <= rows.len()
            },
        forall|i: int, j: int|
            0 <= i < j < recent_recommendations(rows).len() ==> (
            #[trigger] recent_recommendations(rows)[i]).score.denominator < (
            #[trigger] recent_recommendations(rows)[j]).score.denominator,
    decreases rows.len(),
{
    if rows.len() > 0 {
        lemma_recent_denominators(rows.drop_last());
    }
}

/// The scores of what a user did last are in the unit range, and those of later
/// events exceed those of earlier ones.
pub proof fn lemma_recent_scores_fall(rows: Seq<UserEventRow>)
    requires
        rows.len() <= u64::MAX,
    ensures
        forall|i: int|
            0 <= i < recent_recommendations(rows).len() ==> (#[trigger] recent_recommendations(
                rows,
            )[i]).score.in_unit_range(),
        forall|i: int, j: int|
            0 <= i < j < recent_recommendations(rows).len() ==> (
            #[trigger] recent_recommendations(rows)[i]).score.exceeds(
                (#[trigger] recent_recommendations(rows)[j]).score,
            ),
{
    lemma_recent_denominators(rows);
}

/// Every event with a document is recommended.
pub proof fn lemma_each_document_recommended(rows: Seq<UserEventRow>, i: int)
    requires
        0 <= i < rows.len(),
        rows[i].document_id is Some,
    ensures
        recent_recommendations(rows).contains(recent_recommendation(rows[i], i)),
    decreases rows.len(),
{
    let before = recent_recommendations(rows.drop_last());
    let wanted = recent_recommendation(rows[i], i);
    if i == rows.len() - 1 {
        assert(recent_recommendations(rows)[before.len() as int] == wanted);
    } else {
        lemma_each_document_recommended(rows.drop_last(), i);
        assert(rows.drop_last()[i] == rows[i]);
        let k = choose|k: int| 0 <= k < before.len() && before[k] == wanted;
        assert(recent_recommendations(rows)[k] == wanted);
    }
}

/// Whatever is recommended is the document of an event.
pub proof fn lemma_recommended_from_events(rows: Seq<UserEventRow>, k: int)
    requires
        0 <= k < recent_recommendations(rows).len(),
    ensures
        exists|i: int|
            0 <= i < rows.len() && (#[trigger] rows[i]).document_id is Some
                && recent_recommendations(rows)[k] == recent_recommendation(rows[i], i),
    decreases rows.len(),
{
    let before = recent_recommendations(rows.drop_last());
    if k < before.len() {
        lemma_recommended_from_events(rows.drop_last(), k);
        let i = choose|i: int|
            0 <= i < rows.len() - 1 && (#[trigger] rows.drop_last()[i]).document_id is Some
                && before[k] == recent_recommendation(rows.drop_last()[i], i);
        assert(rows[i] == rows.drop_last()[i]);
    } else {
        assert(rows[rows.len() - 1].document_id is Some);
    }
}

/// Where the counts are not negative and fall from row to row, as the database gives
/// them, the scores are in the unit range; and the first document scores one where it
/// was counted at all.
pub proof fn lemma_counted_scores_in_unit_range(
    rows: Seq<DocumentCountRow>,
    measure: Seq<char>,
    reason: Seq<char>,
)
    requires
        forall|i: int| 0 <= i < rows.len() ==> (#[trigger] rows[i]).count >= 0,
        forall|i: int, j: int|
            0 <= i < j < rows.len() ==> (#[trigger] rows[i]).count >= (#[trigger] rows[j]).count,
    ensures
        forall|i: int|
            0 <= i < rows.len() ==> (#[trigger] counted_recommendations(
                rows,
                measure,
                reason,
            )[i]).score.in_unit_range(),
        rows.len() > 0 && rows[0].count > 0 ==> {
            let score = counted_recommendations(rows, measure, reason)[0].score;
            score.numerator == score.denominator
        },
{
    assert forall|i: int| 0 <= i < rows.len() implies (#[trigger] counted_recommendations(
        rows,
        measure,
        reason,
    )[i]).score.in_unit_range() by {
        if i > 0 {
            assert(rows[0].count >= rows[i].count);
        }
        assert(rows[0].count >= 0);
    }
}

/// There is an item for each row, in the order of the rows, and it recommends the document
/// of its row: so each document that was counted is recommended. Its score is the count of
/// the row, measured by the count of the first row, or by one where that is less; its source
/// tells the count under the name of the measure, and nothing else.
pub proof fn lemma_each_counted_document_recommended(
    items: Seq<RecommendationItem>,
    rows: Seq<DocumentCountRow>,
    measure: Seq<char>,
    reason: Seq<char>,
)
    requires
        recommended(items) == counted_recommendations(rows, measure, reason),
    ensures
        items.len() == rows.len(),
        items.map_values(|item: RecommendationItem| item.document_id@) == rows.map_values(
            |row: DocumentCountRow| row.document_id@,
        ),
        forall|i: int|
            0 <= i < rows.len() ==> {
                let item = #[trigger] items[i];
                &&& item.document_id@ == rows[i].document_id@
                &&& item.score.numerator == rows[i].count
                &&& rows[0].count >= 1 ==> item.score.denominator == rows[0].count
                &&& rows[0].count < 1 ==> item.score.denominator == 1
                &&& item.reason is Some
                &&& item.reason->0@ == reason
                &&& json(item.source) is Object
                &&& json(item.source)->Object_0.dom() == set![measure]
                &&& json(item.source)->Object_0[measure] == Json::Number(
                    signed_decimal(rows[i].count as int),
                )
            },
{
    assert(recommended(items).len() == items.len());
    assert(counted_recommendations(rows, measure, reason).len() == rows.len());
    assert forall|i: int| 0 <= i < rows.len() implies {
        let item = #[trigger] items[i];
        &&& item.document_id@ == rows[i].document_id@
        &&& item.score.numerator == rows[i].count
        &&& rows[0].count >= 1 ==> item.score.denominator == rows[0].count
        &&& rows[0].count < 1 ==> item.score.denominator == 1
        &&& item.reason is Some
        &&& item.reason->0@ == reason
        &&& json(item.source) is Object
        &&& json(item.source)->Object_0.dom() == set![measure]
        &&& json(item.source)->Object_0[measure] == Json::Number(
            signed_decimal(rows[i].count as int),
        )
    } by {
        assert(recommended(items)[i] == items[i]@);
        assert(recommended(items)[i] == counted_recommendations(rows, measure, reason)[i]);
        assert(json(items[i].source)->Object_0.dom() =~= set![measure]);
    }
    assert(items.map_values(|item: RecommendationItem| item.document_id@) =~= rows.map_values(
        |row: DocumentCountRow| row.document_id@,
    ));
}

/// Two documents that were counted are recommended in the order of their rows, and the one
/// that was counted more often has the higher score.
pub proof fn lemma_higher_count_higher_score(
    items: Seq<RecommendationItem>,
    rows: Seq<DocumentCountRow>,
    measure: Seq<char>,
    reason: Seq<char>,
    i: int,
    j: int,
)
    requires
        recommended(items) == counted_recommendations(rows, measure, reason),
        0 <= i < rows.len(),
        0 <= j < rows.len(),
        rows[i].count > rows[j].count,
    ensures
        items[i].score.exceeds(items[j].score),
{
    lemma_each_counted_document_recommended(items, rows, measure, reason);
    let a = items[i];
    let b = items[j];
    assert(a.score.denominator == b.score.denominator && a.score.denominator >= 1);
    assert(a.score.numerator * b.score.denominator > b.score.numerator * a.score.denominator)
        by (nonlinear_arith)
        requires
            a.score.denominator == b.score.denominator,
            a.score.denominator >= 1,
            a.score.numerator > b.score.numerator,
    ;
}

/// The events that are with a document.
pub open spec fn events_with_document(rows: Seq<UserEventRow>) -> Seq<UserEventRow> {
    rows.filter(|row: UserEventRow| row.document_id is Some)
}

proof fn lemma_recent_documents(rows: Seq<UserEventRow>)
    ensures
        recent_recommendations(rows).map_values(|r: Recommended| r.document_id)
            == events_with_document(rows).map_values(|row: UserEventRow| row.document_id->0@),
        recent_recommendations(rows).map_values(|r: Recommended| r.source)
            == events_with_document(rows).map_values(
            |row: UserEventRow|
                Json::Object(
                    map![
                        "event_type"@ => Json::Text(row.event_type@),
                        "occurred_at"@ => Json::Text(
                            rfc3339(row.occurred_at.spec_seconds(), row.occurred_at.spec_nanos()),
                        ),
                    ],
                ),
        ),
    decreases rows.len(),
{
    reveal(Seq::filter);
    let document = |r: Recommended| r.document_id;
    let of_row = |row: UserEventRow| row.document_id->0@;
    let source = |r: Recommended| r.source;
    let of_event = |row: UserEventRow|
        Json::Object(
            map![
                "event_type"@ => Json::Text(row.event_type@),
                "occurred_at"@ => Json::Text(
                    rfc3339(row.occurred_at.spec_seconds(), row.occurred_at.spec_nanos()),
                ),
            ],
        );
    if rows.len() > 0 {
        let shorter = rows.drop_last();
        let row = rows.last();
        lemma_recent_documents(shorter);
        let before = recent_recommendations(shorter);
        let events = events_with_document(shorter);
        assert(before.map_values(document) =~= events.map_values(of_row));
        assert(before.map_values(source) =~= events.map_values(of_event));
        if row.document_id is Some {
            let item = recent_recommendation(row, rows.len() - 1);
            assert(events_with_document(rows) == events.push(row));
            assert(recent_recommendations(rows) == before.push(item));
            assert(before.push(item).map_values(document) =~= before.map_values(document).push(
                document(item),
            ));
            assert(events.push(row).map_values(of_row) =~= events.map_values(of_row).push(
                of_row(row),
            ));
            assert(before.push(item).map_values(source) =~= before.map_values(source).push(
                source(item),
            ));
            assert(events.push(row).map_values(of_event) =~= events.map_values(of_event).push(
                of_event(row),
            ));
            assert(source(item) == of_event(row));
        } else {
            assert(events_with_document(rows) == events);
            assert(recent_recommendations(rows) == before);
        }
    }
    assert(recent_recommendations(rows).map_values(document) =~= events_with_document(
        rows,
    ).map_values(of_row));
    assert(recent_recommendations(rows).map_values(source) =~= events_with_document(
        rows,
    ).map_values(of_event));
}

/// What is recommended of what a user did last are the documents of the events, one by one
/// and in their order, each with the type and the time of its event.
pub proof fn lemma_recent_items_are_the_events(
    items: Seq<RecommendationItem>,
    rows: Seq<UserEventRow>,
)
    requires
        recommended(items) == recent_recommendations(rows),
    ensures
        items.map_values(|item: RecommendationItem| item.document_id@) == events_with_document(
            rows,
        ).map_values(|row: UserEventRow| row.document_id->0@),
        items.map_values(|item: RecommendationItem| json(item.source)) == events_with_document(
            rows,
        ).map_values(
            |row: UserEventRow|
                Json::Object(
                    map![
                        "event_type"@ => Json::Text(row.event_type@),
                        "occurred_at"@ => Json::Text(
                            rfc3339(row.occurred_at.spec_seconds(), row.occurred_at.spec_nanos()),
                        ),
                    ],
                ),
        ),
        forall|i: int|
            0 <= i < items.len() ==> (#[trigger] items[i]).reason is Some && items[i].reason->0@
                == "recent_user_event"@,
{
    lemma_recent_documents(rows);
    let all = recent_recommendations(rows);
    assert(recommended(items).len() == items.len());
    assert forall|i: int| 0 <= i < items.len() implies (#[trigger] items[i])@ == all[i] by {
        assert(recommended(items)[i] == items[i]@);
    }
    assert forall|i: int| 0 <= i < items.len() implies (#[trigger] items[i]).reason is Some
        && items[i].reason->0@ == "recent_user_event"@ by {
        assert(items[i]@ == all[i]);
        lemma_recommended_from_events(rows, i);
    }
    assert(items.map_values(|item: RecommendationItem| item.document_id@) =~= all.map_values(
        |r: Recommended| r.document_id,
    ));
    assert(items.map_values(|item: RecommendationItem| json(item.source)) =~= all.map_values(
        |r: Recommended| r.source,
    ));
}

/// The document of the event at position `i` is recommended with the score one over `i + 1`:
/// the first with one, the second with a half.
pub proof fn lemma_recent_score_is_one_over_position(
    items: Seq<RecommendationItem>,
    rows: Seq<UserEventRow>,
    i: int,
)
    requires
        recommended(items) == recent_recommendations(rows),
        0 <= i < rows.len() <= u64::MAX,
        rows[i].document_id is Some,
    ensures
        exists|k: int|
            0 <= k < items.len() && (#[trigger] items[k]).document_id@ == rows[i].document_id->0@
                && items[k].score.numerator == 1 && items[k].score.denominator == i + 1,
        (forall|j: int| 0 <= j < rows.len() ==> (#[trigger] rows[j]).document_id is Some)
            ==> items.len() == rows.len() && items[i].document_id@ == rows[i].document_id->0@
            && items[i].score.numerator == 1 && items[i].score.denominator == i + 1,
{
    lemma_each_document_recommended(rows, i);
    let wanted = recent_recommendation(rows[i], i);
    let all = recent_recommendations(rows);
    let k = choose|k: int| 0 <= k < all.len() && all[k] == wanted;
    assert(recommended(items)[k] == items[k]@);
    assert(items[k].document_id@ == rows[i].document_id->0@);
    if forall|j: int| 0 <= j < rows.len() ==> (#[trigger] rows[j]).document_id is Some {
        lemma_all_events_recommended(rows, i);
        assert(recommended(items).len() == items.len());
        assert(recommended(items)[i] == items[i]@);
    }
}

proof fn lemma_all_events_recommended(rows: Seq<UserEventRow>, i: int)
    requires
        0 <= i < rows.len(),
        forall|j: int| 0 <= j < rows.len() ==> (#[trigger] rows[j]).document_id is Some,
    ensures
        recent_recommendations(rows).len() == rows.len(),
        recent_recommendations(rows)[i] == recent_recommendation(rows[i], i),
    decreases rows.len(),
{
    let shorter = rows.drop_last();
    assert forall|j: int| 0 <= j < shorter.len() implies (#[trigger] shorter[j]).document_id is Some by {
        assert(shorter[j] == rows[j]);
    }
    assert(rows[rows.len() - 1].document_id is Some);
    if shorter.len() > 0 {
        lemma_all_events_recommended(
            shorter,
            if i < shorter.len() {
                i
            } else {
                0
            },
        );
    } else {
        assert(recent_recommendations(shorter).len() == 0);
    }
}

} // verus!
