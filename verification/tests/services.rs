//! The repositories behind the services, and what the services get.
use sdkwork_search::adapter::{
    was_updated, CreatePromotionInput, DeletionStep, IndexPatch, SearchRepositoryAdapter,
    UpdatePromotionInput,
};
use sdkwork_search::clock::Timestamp;
use sdkwork_search::documents::IndexDocument;
use sdkwork_search::domain::{
    document_row_to_summary, document_summaries, index_row_to_job, index_stats,
    job_status_from_i32, parse_placement, placement_to_str, promotion_row_to_domain, row_count,
    DocumentStatsRow, IndexJobStatus, PromotionPlacement, SearchDocumentRow, SearchIndexRow,
    SearchPromotionRow,
};
use sdkwork_search::named::number_parameters;
use sdkwork_search::queries;
use sdkwork_search::recommendation::{
    recent_items, similar_items, trending_items, DocumentCountRow, UserEventRow,
};
use sdkwork_search::repository::{is_reachable_page, page_window};
use sdkwork_search::spi::SearchProviderContext;
use sdkwork_search::statement::{BindValue, Statement};

fn value(text: &str) -> serde_json::Value {
    serde_json::from_str(text).unwrap()
}

fn texts(list: &[&str]) -> Vec<String> {
    list.iter().map(|t| t.to_string()).collect()
}

fn context() -> SearchProviderContext {
    SearchProviderContext {
        tenant_id: 7,
        organization_id: 3,
        user_id: Some(11),
        request_id: Some("req-1".to_string()),
    }
}

fn stranger() -> SearchProviderContext {
    SearchProviderContext { tenant_id: 7, organization_id: 3, user_id: None, request_id: None }
}

fn adapter() -> SearchRepositoryAdapter<String> {
    SearchRepositoryAdapter::new("pool".to_string())
}

/// Every parameter of a statement has a value, and no value is left over.
fn check(statement: &Statement, sql: &str, expected: &[&str]) {
    assert_eq!(statement.sql, sql);
    assert_eq!(number_parameters(sql).names.len(), statement.binds.len());
    let shown: Vec<String> = statement.binds.iter().map(|b| format!("{b:?}")).collect();
    assert_eq!(shown, texts(expected));
}

fn row_id(statement: &Statement) -> i64 {
    match statement.binds[0] {
        BindValue::BigInt(id) => id,
        ref other => panic!("not a number: {other:?}"),
    }
}

fn row_uuid(statement: &Statement) -> String {
    match &statement.binds[1] {
        BindValue::Text(uuid) => uuid.clone(),
        other => panic!("not a text: {other:?}"),
    }
}

fn is_new_row(statement: &Statement) -> bool {
    let now = chrono::Utc::now().timestamp_millis();
    let id = row_id(statement);
    let uuid = uuid::Uuid::parse_str(&row_uuid(statement)).unwrap();
    now - 60_000 <= id && id <= now && uuid.get_version_num() == 4
}

fn moment(seconds: i64) -> Timestamp {
    Timestamp::new(seconds, 0).unwrap()
}

#[test]
fn every_repository_has_the_pool() {
    let adapter = adapter();
    assert_eq!(adapter.index_repo.pool, "pool");
    assert_eq!(adapter.document_repo.pool, "pool");
    assert_eq!(adapter.user_event_repo.pool, "pool");
    assert_eq!(adapter.promotion_repo.pool, "pool");
}

// Queries and events

#[test]
fn recent_queries_are_those_of_the_user() {
    check(
        &adapter().list_recent_queries(&context(), 5),
        queries::RECENT_QUERY_LIST,
        &["BigInt(7)", "BigInt(3)", "BigInt(11)", "BigInt(5)"],
    );
    check(
        &adapter().list_recent_queries(&stranger(), u32::MAX),
        queries::RECENT_QUERY_LIST,
        &["BigInt(7)", "BigInt(3)", "BigInt(0)", "BigInt(4294967295)"],
    );
}

#[test]
fn queries_are_written_down() {
    check(
        &adapter().record_query_audit_as(&context(), "hello", "kb", 9, "u".to_string()),
        queries::RECENT_QUERY_UPSERT,
        &[
            "BigInt(9)",
            "Text(\"u\")",
            "BigInt(7)",
            "BigInt(3)",
            "BigInt(11)",
            "Text(\"kb\")",
            "Text(\"hello\")",
            "Integer(0)",
        ],
    );
    assert!(is_new_row(&adapter().record_query_audit(&context(), "hello", "kb")));
}

#[test]
fn events_are_written_down() {
    check(
        &adapter().record_user_event_as(&context(), "click", &value("{}"), 9, "u".to_string()),
        queries::USER_EVENT_RECORD,
        &[
            "BigInt(9)",
            "Text(\"u\")",
            "BigInt(7)",
            "BigInt(3)",
            "BigInt(11)",
            "Text(\"click\")",
            "Text(\"app\")",
            "OptionalText(None)",
            "OptionalText(None)",
            "OptionalText(None)",
            "OptionalText(None)",
            "OptionalInteger(None)",
            "OptionalText(Some(\"req-1\"))",
            "Json(Object {})",
        ],
    );
    assert!(is_new_row(&adapter().record_user_event(&context(), "click", &value("{}"))));
}

// Documents

fn document(title: Option<&str>) -> IndexDocument {
    IndexDocument {
        index_key: "kb".to_string(),
        document_id: "doc-1".to_string(),
        title: title.map(|t| t.to_string()),
        content: Some("body".to_string()),
        tags: texts(&["x"]),
        source: value("{}"),
        embedding: vec![value("0.5")],
        drive_space_id: None,
        drive_node_id: None,
    }
}

fn index_row() -> SearchIndexRow {
    SearchIndexRow {
        id: 42,
        index_key: "kb".to_string(),
        title: "Knowledge".to_string(),
        description: Some("docs".to_string()),
        status: 1,
        config_json: value("{}"),
        created_at: moment(1),
        updated_at: moment(2),
    }
}

#[test]
fn documents_are_stored_with_their_index() {
    let statement = adapter()
        .upsert_document_as(
            &context(),
            &document(None),
            &Some(index_row()),
            9,
            "u".to_string(),
        )
        .unwrap();
    check(
        &statement,
        queries::DOCUMENT_UPSERT,
        &[
            "BigInt(9)",
            "Text(\"u\")",
            "BigInt(7)",
            "BigInt(3)",
            "BigInt(42)",
            "Text(\"kb\")",
            "Text(\"doc-1\")",
            "OptionalText(None)",
            "Text(\"global\")",
            "OptionalText(None)",
            "OptionalText(None)",
            "OptionalText(None)",
            "Text(\"doc-1\")",
            "OptionalText(Some(\"body\"))",
            "OptionalText(None)",
            "Json(Object {})",
            "Json(Array [])",
            "Json(Object {\"vector\": Array [Number(0.5)]})",
            "Integer(1)",
            "Integer(0)",
        ],
    );
    let titled = adapter()
        .upsert_document(&context(), &document(Some("T")), &Some(index_row()))
        .unwrap();
    assert!(is_new_row(&titled));
    assert_eq!(format!("{:?}", titled.binds[12]), "Text(\"T\")");
}

#[test]
fn documents_need_an_index() {
    assert_eq!(
        adapter().upsert_document(&context(), &document(None), &None).unwrap_err(),
        "index not found for index_key: kb"
    );
}

#[test]
fn documents_are_found_and_deleted() {
    let a = adapter();
    check(
        &a.get_document(&context(), "kb", "doc-1"),
        queries::DOCUMENT_GET,
        &["BigInt(7)", "BigInt(3)", "Text(\"kb\")", "Text(\"doc-1\")"],
    );
    check(
        &a.delete_document(&context(), "kb", "doc-1"),
        queries::DOCUMENT_DELETE,
        &[
            "OptionalBigInt(Some(11))",
            "BigInt(7)",
            "BigInt(3)",
            "Text(\"kb\")",
            "Text(\"doc-1\")",
        ],
    );
    check(
        &a.list_documents(&context(), "kb", 3, 20),
        queries::DOCUMENT_LIST,
        &["BigInt(7)", "BigInt(3)", "Text(\"kb\")", "BigInt(20)", "BigInt(40)"],
    );
    for (statement, sql) in [
        (a.count_documents(&context(), "kb"), queries::DOCUMENT_COUNT),
        (a.get_index_stats(&context(), "kb"), queries::DOCUMENT_STATS),
    ] {
        check(&statement, sql, &["BigInt(7)", "BigInt(3)", "Text(\"kb\")"]);
    }
}

fn deletion(outcomes: Vec<Result<u64, String>>) -> DeletionStep {
    adapter().bulk_delete_documents(&stranger(), "kb", &texts(&["a", "b", "c"]), &outcomes)
}

fn deleted(outcomes: Vec<Result<u64, String>>) -> Result<u64, String> {
    match deletion(outcomes) {
        DeletionStep::Done(deleted) => deleted,
        DeletionStep::Run(statement) => panic!("{statement:?} is tried"),
    }
}

#[test]
fn many_documents_are_deleted_one_by_one() {
    for (outcomes, document) in [(vec![], "Text(\"a\")"), (vec![Ok(1), Ok(0)], "Text(\"c\")")] {
        match deletion(outcomes) {
            DeletionStep::Run(statement) => check(
                &statement,
                queries::DOCUMENT_DELETE,
                &["OptionalBigInt(None)", "BigInt(7)", "BigInt(3)", "Text(\"kb\")", document],
            ),
            DeletionStep::Done(deleted) => panic!("done with {deleted:?}"),
        }
    }
}

#[test]
fn deletions_are_summed_up_to_a_failure() {
    assert_eq!(deleted(vec![Ok(1), Ok(0), Ok(1)]), Ok(2));
    assert_eq!(deleted(vec![Ok(1), Err("down".to_string())]), Err("down".to_string()));
    assert_eq!(
        deleted(vec![Err("down".to_string()), Ok(1), Err("later".to_string())]),
        Err("down".to_string())
    );
    match adapter().bulk_delete_documents(&context(), "kb", &vec![], &vec![]) {
        DeletionStep::Done(deleted) => assert_eq!(deleted, Ok(0)),
        DeletionStep::Run(statement) => panic!("{statement:?} is tried"),
    }
}

#[test]
fn summaries_keep_the_row() {
    let rows = vec![
        SearchDocumentRow {
            document_id: "a".to_string(),
            index_key: "kb".to_string(),
            title: "A".to_string(),
            payload_json: value(r#"{"x": 1}"#),
            status: 1,
            updated_at: moment(0),
        },
        SearchDocumentRow {
            document_id: "b".to_string(),
            index_key: "kb".to_string(),
            title: "B".to_string(),
            payload_json: value("null"),
            status: 0,
            updated_at: moment(1),
        },
    ];
    let summaries = document_summaries(&rows);
    assert_eq!(summaries.len(), 2);
    assert_eq!(summaries[1].document_id, "b");
    let summary = document_row_to_summary(&rows[0]);
    assert_eq!(summary.document_id, "a");
    assert_eq!(summary.index_key, "kb");
    assert_eq!(summary.title, "A");
    assert_eq!(summary.payload_json, value(r#"{"x": 1}"#));
    assert_eq!(summary.status, 1);
    assert_eq!(summary.updated_at, Some("1970-01-01T00:00:00+00:00".to_string()));
}

#[test]
fn statistics_keep_the_counts() {
    let stats = index_stats(
        "kb",
        &DocumentStatsRow {
            document_count: 5,
            active_document_count: 3,
            last_updated: Some(moment(0)),
        },
    );
    assert_eq!(stats.index_key, "kb");
    assert_eq!((stats.document_count, stats.active_document_count), (5, 3));
    assert_eq!(stats.last_updated, Some("1970-01-01T00:00:00+00:00".to_string()));
    let empty = index_stats(
        "kb",
        &DocumentStatsRow { document_count: 0, active_document_count: 0, last_updated: None },
    );
    assert_eq!(empty.last_updated, None);
    assert_eq!(row_count(i64::MAX), i64::MAX as u64);
    assert_eq!(row_count(-1), u64::MAX);
}

#[test]
fn pages_fit_or_not() {
    assert_eq!(page_window(0, 0), (1, 0));
    assert_eq!(page_window(3, 20), (20, 40));
    assert!(is_reachable_page(u32::MAX, 2_000_000_000));
    assert!(!is_reachable_page(u32::MAX, u32::MAX));
}

// Indexes and jobs

#[test]
fn indexes_are_found_and_written() {
    let a = adapter();
    check(
        &a.get_index(&context(), "kb"),
        queries::INDEX_GET_BY_KEY,
        &["BigInt(7)", "BigInt(3)", "Text(\"kb\")"],
    );
    check(&a.list_indexes(&context()), queries::INDEX_LIST_INDEXES, &["BigInt(7)", "BigInt(3)"]);
    check(
        &a.create_index_as(&context(), "kb", &value("{}"), 9, "u".to_string()),
        queries::INDEX_CREATE,
        &[
            "BigInt(9)",
            "Text(\"u\")",
            "BigInt(7)",
            "BigInt(3)",
            "Text(\"kb\")",
            "Text(\"kb\")",
            "OptionalText(None)",
            "Json(Object {})",
        ],
    );
    assert!(is_new_row(&a.create_index(&context(), "kb", &value("{}"))));
}

#[test]
fn absent_changes_keep_the_index() {
    let none = IndexPatch { title: None, description: None, status: None, config_json: None };
    assert!(adapter().update_index(&context(), &None, &none).is_none());
    check(
        &adapter().update_index(&context(), &Some(index_row()), &none).unwrap(),
        queries::INDEX_UPDATE,
        &[
            "Text(\"Knowledge\")",
            "OptionalText(Some(\"docs\"))",
            "Integer(1)",
            "Json(Object {})",
            "BigInt(42)",
            "BigInt(7)",
            "BigInt(3)",
        ],
    );
    let all = IndexPatch {
        title: Some("New".to_string()),
        description: Some("new".to_string()),
        status: Some(0),
        config_json: Some(value("[]")),
    };
    check(
        &adapter().update_index(&context(), &Some(index_row()), &all).unwrap(),
        queries::INDEX_UPDATE,
        &[
            "Text(\"New\")",
            "OptionalText(Some(\"new\"))",
            "Integer(0)",
            "Json(Array [])",
            "BigInt(42)",
            "BigInt(7)",
            "BigInt(3)",
        ],
    );
}

#[test]
fn jobs_are_written_found_and_changed() {
    let a = adapter();
    check(
        &a.create_index_job_as(&context(), "kb", "full", &value("{}"), 9, "u".to_string()),
        queries::JOB_CREATE,
        &[
            "BigInt(9)",
            "Text(\"u\")",
            "BigInt(7)",
            "BigInt(3)",
            "Text(\"kb\")",
            "Text(\"full\")",
            "Json(Object {})",
        ],
    );
    assert!(is_new_row(&a.create_index_job(&context(), "kb", "full", &value("{}"))));
    check(
        &a.get_index_job(&context(), "u"),
        queries::JOB_GET,
        &["BigInt(7)", "BigInt(3)", "Text(\"u\")"],
    );
    check(
        &a.update_index_job_status(&context(), "u", 2, Some(moment(5)), None, None),
        queries::JOB_UPDATE_STATUS,
        &[
            "Integer(2)",
            "OptionalMoment(Some(Timestamp { seconds: 5, nanos: 0 }))",
            "OptionalMoment(None)",
            "OptionalText(None)",
            "Text(\"u\")",
            "BigInt(7)",
            "BigInt(3)",
        ],
    );
    assert!(was_updated(1));
    assert!(!was_updated(0));
}

#[test]
fn jobs_of_another_organization_are_other_jobs() {
    let mut other = context();
    other.organization_id = 4;
    let own = adapter().get_index_job(&context(), "u");
    let foreign = adapter().get_index_job(&other, "u");
    assert_eq!(own.sql, foreign.sql);
    assert_ne!(format!("{:?}", own.binds), format!("{:?}", foreign.binds));
}

#[test]
fn job_statuses_are_numbers() {
    assert_eq!(job_status_from_i32(0), IndexJobStatus::Pending);
    assert_eq!(job_status_from_i32(1), IndexJobStatus::Running);
    assert_eq!(job_status_from_i32(2), IndexJobStatus::Completed);
    assert_eq!(job_status_from_i32(3), IndexJobStatus::Failed);
    for unknown in [4, -1, i32::MAX, i32::MIN] {
        assert_eq!(job_status_from_i32(unknown), IndexJobStatus::Pending);
    }
}

#[test]
fn an_index_is_a_complete_job() {
    let job = index_row_to_job(&index_row());
    assert_eq!(job.job_id, "kb");
    assert_eq!(job.index_key, "kb");
    assert_eq!(job.status, IndexJobStatus::Completed);
    assert_eq!((job.document_count, job.success_count, job.failure_count), (0, 0, 0));
    assert_eq!((job.created_at, job.updated_at), (moment(1), moment(2)));
}

// Recommendations

#[test]
fn recommendations_are_asked_for() {
    let a = adapter();
    check(
        &a.get_user_events(&context(), 5, 10),
        queries::USER_EVENT_LIST_BY_USER,
        &["BigInt(7)", "BigInt(3)", "BigInt(5)", "OptionalText(None)", "BigInt(10)"],
    );
    check(
        &a.get_trending(&context(), "kb", 10),
        queries::USER_EVENT_TRENDING,
        &["BigInt(7)", "BigInt(3)", "Text(\"kb\")", "BigInt(10)"],
    );
    check(
        &a.get_similar_documents(&context(), "kb", &texts(&["a", "b"]), 10),
        queries::USER_EVENT_SIMILAR_DOCUMENTS,
        &[
            "BigInt(7)",
            "BigInt(3)",
            "Text(\"kb\")",
            "TextArray([\"a\", \"b\"])",
            "BigInt(10)",
        ],
    );
}

fn event(document: Option<&str>, seconds: i64) -> UserEventRow {
    UserEventRow {
        event_type: "view".to_string(),
        document_id: document.map(|d| d.to_string()),
        occurred_at: moment(seconds),
    }
}

#[test]
fn later_events_score_higher() {
    let items = recent_items(&vec![event(Some("a"), 0), event(None, 1), event(Some("b"), 2)]);
    assert_eq!(items.len(), 2);
    assert_eq!(items[0].document_id, "a");
    assert_eq!((items[0].score.numerator, items[0].score.denominator), (1, 1));
    assert_eq!(items[1].document_id, "b");
    assert_eq!((items[1].score.numerator, items[1].score.denominator), (1, 3));
    assert_eq!(
        items[0].source,
        value(r#"{"event_type": "view", "occurred_at": "1970-01-01T00:00:00+00:00"}"#)
    );
    assert_eq!(items[0].reason, Some("recent_user_event".to_string()));
}

fn counted(document: &str, count: i64) -> DocumentCountRow {
    DocumentCountRow { document_id: document.to_string(), count }
}

#[test]
fn trends_are_measured_by_the_first() {
    let items = trending_items(&vec![counted("a", 8), counted("b", 2)]);
    let scores: Vec<(i64, u64)> =
        items.iter().map(|i| (i.score.numerator, i.score.denominator)).collect();
    assert_eq!(scores, vec![(8, 8), (2, 8)]);
    assert_eq!(items[1].source, value(r#"{"event_count": 2}"#));
    assert_eq!(items[1].reason, Some("trending".to_string()));
    assert!(trending_items(&vec![]).is_empty());
}

#[test]
fn similarity_is_measured_by_the_first() {
    let items = similar_items(&vec![counted("a", 0), counted("b", 0)]);
    assert_eq!((items[0].score.numerator, items[0].score.denominator), (0, 1));
    assert_eq!(items[0].source, value(r#"{"similarity_score": 0}"#));
    assert_eq!(items[0].reason, Some("collaborative_filtering".to_string()));
    let negative = similar_items(&vec![counted("a", -3)]);
    assert_eq!((negative[0].score.numerator, negative[0].score.denominator), (-3, 1));
    assert_eq!(negative[0].source, value(r#"{"similarity_score": -3}"#));
}

// Promotions

#[test]
fn placements_read_back() {
    for (placement, text) in [
        (PromotionPlacement::Top, "top"),
        (PromotionPlacement::Inline, "inline"),
        (PromotionPlacement::Banner, "banner"),
        (PromotionPlacement::Sidebar, "sidebar"),
    ] {
        assert_eq!(placement_to_str(placement), text);
        assert_eq!(parse_placement(text), placement);
    }
    for unknown in ["", "TOP", "Inline", "footer"] {
        assert_eq!(parse_placement(unknown), PromotionPlacement::Top);
    }
}

fn promotion_row(rules: &str, status: i32) -> SearchPromotionRow {
    SearchPromotionRow {
        promotion_key: "summer".to_string(),
        placement: "banner".to_string(),
        index_key: "kb".to_string(),
        rule_json: value(rules),
        status,
        active_from: Some(moment(1)),
        active_until: None,
    }
}

#[test]
fn promotions_keep_the_row() {
    let promotion = promotion_row_to_domain(&promotion_row("[1, 2]", 1), Some(vec![1, 2]));
    assert_eq!(promotion.promotion_id, "summer");
    assert_eq!(promotion.title, "summer");
    assert_eq!(promotion.target.index_key, "kb");
    assert_eq!(promotion.target.placement, PromotionPlacement::Banner);
    assert_eq!(promotion.target.filters.len(), 0);
    assert_eq!(promotion.rules, vec![1, 2]);
    assert_eq!(promotion.start_at, Some(moment(1)));
    assert_eq!(promotion.end_at, None);
    assert!(promotion.enabled);
}

#[test]
fn rules_that_are_no_array_are_none() {
    assert!(promotion_row_to_domain(&promotion_row("{}", 0), Some(vec![1])).rules.is_empty());
    let unread = promotion_row_to_domain::<i32>(&promotion_row("[1]", 2), None);
    assert!(unread.rules.is_empty());
    assert!(!unread.enabled);
}

#[test]
fn active_promotions_are_asked_for_by_time() {
    let a = adapter();
    check(
        &a.list_active_promotions_at(&context(), "kb", PromotionPlacement::Top, moment(5)),
        queries::PROMOTION_LIST_ACTIVE,
        &[
            "BigInt(7)",
            "BigInt(3)",
            "Text(\"kb\")",
            "Text(\"top\")",
            "Moment(Timestamp { seconds: 5, nanos: 0 })",
        ],
    );
    let before = chrono::Utc::now().timestamp();
    let statement = a.list_active_promotions(&context(), "kb", PromotionPlacement::Inline);
    let after = chrono::Utc::now().timestamp();
    match statement.binds[4] {
        BindValue::Moment(now) => {
            assert!(before <= now.seconds() && now.seconds() <= after);
        }
        ref other => panic!("not a time: {other:?}"),
    }
}

#[test]
fn deliveries_and_clicks_are_written_down() {
    let a = adapter();
    for (statement, event) in [
        (
            a.record_delivery_as(&context(), "summer", 5, 9, "u".to_string()),
            "Text(\"promotion_delivery\")",
        ),
        (
            a.record_click_as(&context(), "summer", 5, 9, "u".to_string()),
            "Text(\"promotion_click\")",
        ),
    ] {
        check(
            &statement,
            queries::PROMOTION_EVENT_INSERT,
            &[
                "BigInt(9)",
                "Text(\"u\")",
                "BigInt(7)",
                "BigInt(3)",
                "BigInt(5)",
                event,
                "Text(\"summer\")",
                "Json(Object {})",
            ],
        );
    }
    assert!(is_new_row(&a.record_delivery(&context(), "summer", 5)));
    assert!(is_new_row(&a.record_click(&context(), "summer", 5)));
}

#[test]
fn promotions_are_written() {
    let input = CreatePromotionInput {
        promotion_key: "summer".to_string(),
        placement: PromotionPlacement::Sidebar,
        index_key: "kb".to_string(),
        document_id: "doc-1".to_string(),
        priority: 10,
    };
    let a = adapter();
    for (rules, stored) in [
        (Some(value("[1]")), "Json(Array [Number(1)])"),
        (None, "Json(Array [])"),
    ] {
        check(
            &a.create_promotion_as(&context(), &input, &rules, 9, "u".to_string()),
            queries::PROMOTION_CREATE,
            &[
                "BigInt(9)",
                "Text(\"u\")",
                "BigInt(7)",
                "BigInt(3)",
                "Text(\"summer\")",
                "Text(\"sidebar\")",
                "Text(\"kb\")",
                "Text(\"doc-1\")",
                "Integer(10)",
                stored,
            ],
        );
    }
    assert!(is_new_row(&a.create_promotion(&context(), &input, &None)));
}

#[test]
fn promotions_are_changed() {
    let a = adapter();
    let none = UpdatePromotionInput {
        placement: None,
        document_id: None,
        priority: None,
        enabled: None,
        start_at: None,
        end_at: None,
    };
    check(
        &a.update_promotion(&context(), "summer", &none, &None),
        queries::PROMOTION_UPDATE,
        &[
            "OptionalText(None)",
            "OptionalText(None)",
            "OptionalInteger(None)",
            "OptionalJson(None)",
            "OptionalInteger(None)",
            "OptionalMoment(None)",
            "OptionalMoment(None)",
            "BigInt(7)",
            "BigInt(3)",
            "Text(\"summer\")",
        ],
    );
    let all = UpdatePromotionInput {
        placement: Some(PromotionPlacement::Inline),
        document_id: Some("d".to_string()),
        priority: Some(-1),
        enabled: Some(false),
        start_at: Some(moment(1)),
        end_at: Some(moment(2)),
    };
    check(
        &a.update_promotion(&context(), "summer", &all, &Some(None)),
        queries::PROMOTION_UPDATE,
        &[
            "OptionalText(Some(\"inline\"))",
            "OptionalText(Some(\"d\"))",
            "OptionalInteger(Some(-1))",
            "OptionalJson(Some(Array []))",
            "OptionalInteger(Some(0))",
            "OptionalMoment(Some(Timestamp { seconds: 1, nanos: 0 }))",
            "OptionalMoment(Some(Timestamp { seconds: 2, nanos: 0 }))",
            "BigInt(7)",
            "BigInt(3)",
            "Text(\"summer\")",
        ],
    );
}

#[test]
fn promotions_are_found_and_deleted() {
    let a = adapter();
    for (statement, sql) in [
        (a.get_promotion(&context(), "summer"), queries::PROMOTION_GET),
        (a.get_promotion_stats(&context(), "summer"), queries::PROMOTION_STATS),
    ] {
        check(&statement, sql, &["BigInt(7)", "BigInt(3)", "Text(\"summer\")"]);
    }
    check(
        &a.delete_promotion(&context(), "summer"),
        queries::PROMOTION_DELETE,
        &["OptionalBigInt(Some(11))", "BigInt(7)", "BigInt(3)", "Text(\"summer\")"],
    );
    check(
        &a.list_all_promotions(&context(), "kb", 2, 5),
        queries::PROMOTION_LIST_ALL,
        &["BigInt(7)", "BigInt(3)", "Text(\"kb\")", "BigInt(5)", "BigInt(5)"],
    );
}
