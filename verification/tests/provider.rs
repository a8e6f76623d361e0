//! The PostgreSQL provider: its statements and its answers.
use sdkwork_search::documents::{
    create_index, create_index_as, delete_document, drop_index, embedding_to_json, index_batch,
    index_document, index_document_as, update_document, write_outcome, DeleteDocument,
    IndexDocument, UpdateDocument,
};
use sdkwork_search::facets::{
    collect_buckets, collect_facets, next_facet, plan_facets, FacetRow,
};
use sdkwork_search::provider::{
    connection_url, ensure_extensions, factory, health, ExtensionStep, PostgresqlSearchProvider,
};
use sdkwork_search::provider_sql;
use sdkwork_search::response::{highlight_columns, search_response, SearchRow};
use sdkwork_search::search::{is_plannable, plan_search};
use sdkwork_search::semantic::{
    format_vector_literal, plan_semantic_search, semantic_response, suggest, suggestion_response,
    SearchSuggestionQuery, SemanticSearchQuery, SemanticSearchRow, SuggestionRow,
};
use sdkwork_search::spi::{
    HighlightOptions, SearchFilter, SearchProviderCapability, SearchProviderConfig,
    SearchProviderContext, SearchProviderError, SearchProviderKind, SearchQuery, SortField,
    SortOrder,
};
use sdkwork_search::statement::{BindValue, Statement};
use sdkwork_search::text_map::TextMap;

fn value(text: &str) -> serde_json::Value {
    serde_json::from_str(text).unwrap()
}

fn texts(list: &[&str]) -> Vec<String> {
    list.iter().map(|t| t.to_string()).collect()
}

fn context() -> SearchProviderContext {
    SearchProviderContext {
        tenant_id: 7,
        organization_id: 3,
        user_id: Some(11),
        request_id: Some("req-1".to_string()),
    }
}

fn query() -> SearchQuery {
    SearchQuery {
        index_key: "kb".to_string(),
        query_text: String::new(),
        filters: vec![],
        sort: vec![],
        facets: vec![],
        highlight: None,
        page: 1,
        page_size: 10,
    }
}

fn filter(key: &str, values: &[&str]) -> SearchFilter {
    SearchFilter { key: key.to_string(), values: texts(values) }
}

fn shown(binds: &[BindValue]) -> Vec<String> {
    binds.iter().map(|b| format!("{b:?}")).collect()
}

fn bound(statement: &Statement) -> Vec<String> {
    shown(&statement.binds)
}

fn is_uuid(text: &str) -> bool {
    uuid::Uuid::parse_str(text).map(|u| u.get_version_num() == 4).unwrap_or(false)
}

fn first_text(statement: &Statement) -> String {
    match &statement.binds[0] {
        BindValue::Text(text) => text.clone(),
        other => panic!("not a text: {other:?}"),
    }
}

// Search

#[test]
fn a_search_without_text_takes_the_latest() {
    let plan = plan_search(&context(), &query());
    assert_eq!(
        plan.where_clause,
        "tenant_id = $1 AND organization_id = $2 AND index_key = $3 AND deleted_at IS NULL"
    );
    assert_eq!(
        plan.statement.sql,
        "SELECT document_id, title, payload_json,
                      0.0::float8 AS rank,
                      COUNT(*) OVER() AS total_count
                      
               FROM search_document
               WHERE tenant_id = $1 AND organization_id = $2 AND index_key = $3 AND deleted_at IS NULL
               ORDER BY updated_at DESC
               LIMIT $4 OFFSET $5"
    );
    assert_eq!(
        bound(&plan.statement),
        texts(&["BigInt(7)", "BigInt(3)", "Text(\"kb\")", "BigInt(10)", "BigInt(0)"])
    );
}

#[test]
fn a_search_with_text_ranks() {
    let mut q = query();
    q.query_text = "hello".to_string();
    let plan = plan_search(&context(), &q);
    assert_eq!(
        plan.where_clause,
        "tenant_id = $1 AND organization_id = $2 AND index_key = $3 AND deleted_at IS NULL AND \
         (search_vector @@ websearch_to_tsquery('pg_catalog.english', $4) OR title % $4 OR \
         body_text % $4)"
    );
    assert!(plan.statement.sql.contains(
        "ts_rank(search_vector, websearch_to_tsquery('pg_catalog.english', $4)) AS rank"
    ));
    assert!(plan.statement.sql.contains("ORDER BY rank DESC"));
    assert!(plan.statement.sql.ends_with("LIMIT $5 OFFSET $6"));
    assert_eq!(
        bound(&plan.statement),
        texts(&[
            "BigInt(7)",
            "BigInt(3)",
            "Text(\"kb\")",
            "Text(\"hello\")",
            "BigInt(10)",
            "BigInt(0)"
        ])
    );
}

#[test]
fn filters_take_parameters_in_order() {
    let mut q = query();
    q.query_text = "hello".to_string();
    q.filters = vec![filter("kind", &["a", "b"]), filter("lang", &["en"])];
    let plan = plan_search(&context(), &q);
    assert!(plan
        .where_clause
        .ends_with("AND payload_json->>'kind' IN ($5, $6) AND payload_json->>'lang' IN ($7)"));
    assert!(plan.statement.sql.ends_with("LIMIT $8 OFFSET $9"));
    assert_eq!(plan.statement.binds.len(), 9);
    assert_eq!(
        bound(&plan.statement)[4..7],
        texts(&["Text(\"a\")", "Text(\"b\")", "Text(\"en\")"])[..]
    );
}

#[test]
fn filters_that_cannot_be_embedded_make_no_condition() {
    let mut q = query();
    q.filters = vec![filter("a'b", &[]), filter("kind", &[]), filter("lang", &["en"])];
    let plan = plan_search(&context(), &q);
    assert!(plan.where_clause.ends_with("deleted_at IS NULL AND payload_json->>'lang' IN ($4)"));
    assert!(!plan.statement.sql.contains("a'b"));
    assert_eq!(plan.statement.binds.len(), 6);
}

#[test]
fn values_never_enter_the_text() {
    let mut one = query();
    one.query_text = "x' OR 1=1 --".to_string();
    one.filters = vec![filter("kind", &["v1"])];
    let mut other = query();
    other.query_text = "y".to_string();
    other.filters = vec![filter("kind", &["v2'"])];
    assert_eq!(
        plan_search(&context(), &one).statement.sql,
        plan_search(&context(), &other).statement.sql
    );
}

#[test]
fn sorts_are_by_payload_fields() {
    let mut q = query();
    q.query_text = "hello".to_string();
    q.sort = vec![
        SortField { field: "year".to_string(), order: SortOrder::Desc },
        SortField { field: "a b".to_string(), order: SortOrder::Asc },
        SortField { field: "name".to_string(), order: SortOrder::Asc },
    ];
    let sql = plan_search(&context(), &q).statement.sql;
    assert!(sql.contains("ORDER BY payload_json->>'year' DESC, payload_json->>'name' ASC\n"));
    q.sort = vec![SortField { field: "a b".to_string(), order: SortOrder::Asc }];
    let sql = plan_search(&context(), &q).statement.sql;
    assert!(sql.contains("ORDER BY updated_at DESC\n"));
}

#[test]
fn highlights_are_selected() {
    let mut q = query();
    q.query_text = "hello".to_string();
    q.highlight = Some(HighlightOptions {
        fields: texts(&["title", "x y", "body_text"]),
        pre_tag: None,
        post_tag: Some("</b>".to_string()),
        fragment_size: None,
    });
    let sql = plan_search(&context(), &q).statement.sql;
    assert!(sql.contains(
        ", ts_headline('pg_catalog.english', title, websearch_to_tsquery('pg_catalog.english', \
         $4), 'StartSel=<em>, StopSel=</b>, MaxWords=100') AS hl_title, \
         ts_headline('pg_catalog.english', body_text, websearch_to_tsquery('pg_catalog.english', \
         $4), 'StartSel=<em>, StopSel=</b>, MaxWords=100') AS hl_body_text\n"
    ));
    assert_eq!(
        highlight_columns(&q),
        vec![Some("hl_title".to_string()), None, Some("hl_body_text".to_string())]
    );
}

#[test]
fn pages_are_counted_from_one() {
    for (page, page_size, limit, offset) in [
        (0, 0, "BigInt(1)", "BigInt(0)"),
        (1, 20, "BigInt(20)", "BigInt(0)"),
        (3, 20, "BigInt(20)", "BigInt(40)"),
        (u32::MAX, 1, "BigInt(1)", "BigInt(4294967294)"),
    ] {
        let mut q = query();
        q.page = page;
        q.page_size = page_size;
        assert!(is_plannable(&q));
        let statement = plan_search(&context(), &q).statement;
        assert_eq!(bound(&statement)[3..], texts(&[limit, offset])[..]);
    }
}

#[test]
fn pages_out_of_reach_are_not_plannable() {
    let mut q = query();
    q.page = u32::MAX;
    q.page_size = 2;
    assert!(!is_plannable(&q));
    q.page = 65537;
    q.page_size = 65536;
    assert!(!is_plannable(&q));
    q.page = 65536;
    assert!(is_plannable(&q));
    q.filters = vec![filter("kind", &["a", "b"]), filter("a-b", &["c"])];
    assert!(is_plannable(&q));
}

// Facets

#[test]
fn facets_ignore_the_text() {
    let mut q = query();
    q.query_text = "hello".to_string();
    q.facets = texts(&["kind", "x'y"]);
    let plan = plan_search(&context(), &q);
    let requests = plan_facets(&context(), &q, &plan.where_clause);
    assert_eq!(requests.len(), 1);
    assert_eq!(requests[0].field, "kind");
    assert_eq!(
        requests[0].statement.sql,
        "SELECT payload_json->>'kind' AS value, COUNT(*) AS count
                   FROM search_document
                   WHERE tenant_id = $1 AND organization_id = $2 AND index_key = $3 AND deleted_at IS NULL AND (true OR true OR true)
                   AND payload_json ? 'kind'
                   AND payload_json->>'kind' IS NOT NULL
                   AND payload_json->>'kind' != ''
                   GROUP BY payload_json->>'kind'
                   ORDER BY count DESC
                   LIMIT 50"
    );
    assert_eq!(
        bound(&requests[0].statement),
        texts(&["BigInt(7)", "BigInt(3)", "Text(\"kb\")"])
    );
}

#[test]
fn facets_are_counted_under_the_filters() {
    let mut q = query();
    q.query_text = "hello".to_string();
    q.filters = vec![filter("kind", &["a", "b"]), filter("x'y", &["no"]), filter("lang", &["en"])];
    q.facets = texts(&["year"]);
    let plan = plan_search(&context(), &q);
    assert!(plan.where_clause.ends_with("IN ($5, $6) AND payload_json->>'lang' IN ($7)"));
    let requests = plan_facets(&context(), &q, &plan.where_clause);
    assert_eq!(requests.len(), 1);
    assert!(requests[0].statement.sql.contains(
        "WHERE tenant_id = $1 AND organization_id = $2 AND index_key = $3 AND deleted_at IS NULL \
         AND (true OR true OR true) AND payload_json->>'kind' IN ($4, $5) AND \
         payload_json->>'lang' IN ($6)\n"
    ));
    assert_eq!(
        bound(&requests[0].statement),
        texts(&[
            "BigInt(7)",
            "BigInt(3)",
            "Text(\"kb\")",
            "Text(\"a\")",
            "Text(\"b\")",
            "Text(\"en\")"
        ])
    );
}

#[test]
fn facets_without_a_text_have_the_conditions_of_the_search() {
    let mut q = query();
    q.filters = vec![filter("kind", &["a"])];
    q.facets = texts(&["year"]);
    let plan = plan_search(&context(), &q);
    let requests = plan_facets(&context(), &q, &plan.where_clause);
    assert!(requests[0].statement.sql.contains(&plan.where_clause));
    assert_eq!(
        bound(&requests[0].statement),
        texts(&["BigInt(7)", "BigInt(3)", "Text(\"kb\")", "Text(\"a\")"])
    );
}

#[test]
fn buckets_leave_out_rows_without_a_value() {
    let buckets = collect_buckets(vec![
        FacetRow { value: Some("a".to_string()), count: 5 },
        FacetRow { value: None, count: 4 },
        FacetRow { value: Some("b".to_string()), count: 1 },
    ]);
    let pairs: Vec<(String, u64)> = buckets.into_iter().map(|b| (b.value, b.count)).collect();
    assert_eq!(pairs, vec![("a".to_string(), 5), ("b".to_string(), 1)]);
}

#[test]
fn facets_are_collected_by_field() {
    let mut q = query();
    q.facets = texts(&["kind", "lang"]);
    let plan = plan_search(&context(), &q);
    let requests = plan_facets(&context(), &q, &plan.where_clause);
    let facets = collect_facets(
        &requests,
        vec![Ok(vec![FacetRow { value: Some("a".to_string()), count: 2 }]), Ok(vec![])],
    )
    .unwrap();
    assert_eq!(facets.len(), 2);
    assert_eq!(facets.get("kind").unwrap()[0].count, 2);
    assert!(facets.get("lang").unwrap().is_empty());
}

// The response

fn row(id: &str, score: f64, total: i64) -> SearchRow {
    SearchRow {
        document_id: id.to_string(),
        title: Some("T".to_string()),
        payload: value("{}"),
        score_bits: score.to_bits(),
        meets_min_score: score >= 0.5,
        total_count: total,
        highlights: vec![],
    }
}

#[test]
fn low_scores_are_left_out_but_counted() {
    let response = search_response(
        &context(),
        &query(),
        Ok(vec![row("a", 0.9, 3), row("b", 0.1, 3), row("c", 0.7, 3)]),
        Ok(TextMap::new()),
        12,
    )
    .unwrap();
    let ids: Vec<&str> = response.hits.iter().map(|h| h.document_id.as_str()).collect();
    assert_eq!(ids, vec!["a", "c"]);
    assert_eq!(response.total, 3);
    assert_eq!(response.max_score_bits, Some(0.9f64.to_bits()));
    assert_eq!(response.took_ms, 12);
    assert_eq!(response.request_id, Some("req-1".to_string()));
    assert_eq!(response.hits[0].source, value(r#"{"title": "T"}"#));
    assert_eq!(response.hits[0].index_key, Some("kb".to_string()));
}

#[test]
fn no_rows_no_hits() {
    let response = search_response(&context(), &query(), Ok(vec![]), Ok(TextMap::new()), 0).unwrap();
    assert_eq!(response.total, 0);
    assert!(response.hits.is_empty());
    assert_eq!(response.max_score_bits, None);
    let rows = Ok(vec![row("a", 1.0, -4)]);
    let negative = search_response(&context(), &query(), rows, Ok(TextMap::new()), 0).unwrap();
    assert_eq!(negative.total, 0);
}

#[test]
fn highlights_are_kept_by_field() {
    let mut q = query();
    q.highlight = Some(HighlightOptions {
        fields: texts(&["title", "x y", "body_text"]),
        pre_tag: None,
        post_tag: None,
        fragment_size: Some(5),
    });
    let mut r = row("a", 1.0, 1);
    r.payload = value(r#"{"title": "own"}"#);
    r.highlights = vec![Some("<em>T</em>".to_string()), Some("no".to_string()), None];
    let response = search_response(&context(), &q, Ok(vec![r]), Ok(TextMap::new()), 0).unwrap();
    let hit = &response.hits[0];
    assert_eq!(hit.highlight.len(), 1);
    assert_eq!(hit.highlight.get("title"), Some(&texts(&["<em>T</em>"])));
    assert_eq!(hit.source, value(r#"{"title": "own"}"#));
}

// Suggestions and semantic search

#[test]
fn suggestions_are_asked_for_and_answered() {
    let statement = suggest(
        &context(),
        &SearchSuggestionQuery {
            index_key: "kb".to_string(),
            prefix: "he".to_string(),
            page_size: 0,
        },
    );
    assert_eq!(statement.sql, provider_sql::SUGGEST);
    assert_eq!(
        bound(&statement),
        texts(&["BigInt(7)", "BigInt(3)", "Text(\"kb\")", "Text(\"he\")", "BigInt(1)"])
    );
    let score = (0.5f32 as f64).to_bits();
    let response = suggestion_response(
        Ok(vec![SuggestionRow { text: "hello".to_string(), score_bits: score }]),
        4,
    )
    .unwrap();
    assert_eq!(response.took_ms, 4);
    assert_eq!(response.suggestions[0].text, "hello");
    assert_eq!(response.suggestions[0].score_bits, score);
    assert_eq!(response.suggestions[0].payload, None);
}

#[test]
fn vectors_are_written_in_brackets() {
    assert_eq!(format_vector_literal(&vec![]), "[]");
    let elements: Vec<String> = [0.1f32, 0.2, 3.0].iter().map(|f| f.to_string()).collect();
    assert_eq!(format_vector_literal(&elements), "[0.1,0.2,3]");
}

#[test]
fn semantic_searches_need_a_vector() {
    let mut q = SemanticSearchQuery {
        index_key: "kb".to_string(),
        query_embedding: vec![],
        top_k: 0,
    };
    assert!(plan_semantic_search(&context(), &q).is_none());
    q.query_embedding = texts(&["0.5", "1"]);
    let statement = plan_semantic_search(&context(), &q).unwrap();
    assert_eq!(statement.sql, provider_sql::SEMANTIC_SEARCH);
    assert_eq!(
        bound(&statement),
        texts(&["BigInt(7)", "BigInt(3)", "Text(\"kb\")", "Text(\"[0.5,1]\")", "BigInt(1)"])
    );
}

#[test]
fn semantic_hits_carry_their_source() {
    let response = semantic_response(
        Ok(vec![
            SemanticSearchRow {
                document_id: "a".to_string(),
                score_bits: 0.75f32.to_bits(),
                meets_min_score: true,
                payload: Some(value("{}")),
                title: Some("T".to_string()),
            },
            SemanticSearchRow {
                document_id: "b".to_string(),
                score_bits: 0.25f32.to_bits(),
                meets_min_score: false,
                payload: None,
                title: None,
            },
            SemanticSearchRow {
                document_id: "c".to_string(),
                score_bits: 0.5f32.to_bits(),
                meets_min_score: true,
                payload: None,
                title: Some("T".to_string()),
            },
        ]),
        9,
    )
    .unwrap();
    assert_eq!(response.took_ms, 9);
    assert_eq!(response.hits.len(), 2);
    assert_eq!(response.hits[0].source, value(r#"{"title": "T"}"#));
    assert_eq!(response.hits[0].score_bits, 0.75f32.to_bits());
    assert_eq!(response.hits[1].document_id, "c");
    assert_eq!(response.hits[1].source, serde_json::Value::Null);
}

// Documents

fn document() -> IndexDocument {
    IndexDocument {
        index_key: "kb".to_string(),
        document_id: "doc-1".to_string(),
        title: None,
        content: Some("body".to_string()),
        tags: texts(&["x", "y"]),
        source: value(r#"{"drive_node_id": "own"}"#),
        embedding: vec![value("0.5"), value("1.0")],
        drive_space_id: Some("space".to_string()),
        drive_node_id: Some("node".to_string()),
    }
}

#[test]
fn documents_are_written_with_their_references() {
    let statement = index_document_as(&context(), &document(), "u".to_string());
    assert_eq!(statement.sql, provider_sql::INDEX_DOCUMENT);
    assert_eq!(
        bound(&statement)[..8],
        texts(&[
            "Text(\"u\")",
            "BigInt(7)",
            "BigInt(3)",
            "Text(\"kb\")",
            "Text(\"doc-1\")",
            "Text(\"\")",
            "Text(\"body\")",
            "OptionalText(Some(\"x | y\"))"
        ])[..]
    );
    match (&statement.binds[8], &statement.binds[9]) {
        (BindValue::Json(payload), BindValue::Json(embedding)) => {
            assert_eq!(
                *payload,
                value(r#"{"drive_node_id": "own", "drive_space_id": "space"}"#)
            );
            assert_eq!(*embedding, value(r#"{"vector": [0.5, 1.0]}"#));
        }
        other => panic!("unexpected values: {other:?}"),
    }
}

#[test]
fn documents_without_tags_have_no_keywords() {
    let mut d = document();
    d.tags = vec![];
    d.source = value("[1]");
    let statement = index_document_as(&context(), &d, "u".to_string());
    assert_eq!(bound(&statement)[7], "OptionalText(None)");
    match &statement.binds[8] {
        BindValue::Json(payload) => assert_eq!(*payload, value("[1]")),
        other => panic!("unexpected value: {other:?}"),
    }
}

#[test]
fn new_documents_get_random_names() {
    let one = first_text(&index_document(&context(), &document()));
    let other = first_text(&index_document(&context(), &document()));
    assert!(is_uuid(&one) && is_uuid(&other));
    assert_ne!(one, other);
}

#[test]
fn embeddings_are_objects() {
    assert_eq!(embedding_to_json(&vec![]), value(r#"{"vector": []}"#));
}

#[test]
fn batches_count_what_was_written() {
    let mut second = document();
    second.document_id = "doc-2".to_string();
    let result = index_batch(
        &vec![document(), second, document()],
        vec![Ok(()), Err("full".to_string()), Ok(())],
    );
    assert_eq!(result.success_count, 2);
    assert_eq!(result.failure_count, 1);
    assert_eq!(result.errors.len(), 1);
    assert_eq!(result.errors[0].document_id, "doc-2");
    assert_eq!(result.errors[0].message, "full");
}

#[test]
fn updates_merge_or_replace() {
    let mut update = UpdateDocument {
        index_key: "kb".to_string(),
        document_id: "doc-1".to_string(),
        source: value("{}"),
        partial: true,
    };
    let merge = update_document(&context(), &update);
    assert_eq!(merge.sql, provider_sql::MERGE_DOCUMENT);
    update.partial = false;
    let replace = update_document(&context(), &update);
    assert_eq!(replace.sql, provider_sql::REPLACE_DOCUMENT);
    assert_eq!(
        bound(&replace),
        texts(&[
            "BigInt(7)",
            "BigInt(3)",
            "Text(\"kb\")",
            "Json(Object {})",
            "Text(\"doc-1\")"
        ])
    );
}

#[test]
fn documents_and_indexes_are_deleted() {
    let statement = delete_document(
        &context(),
        &DeleteDocument { index_key: "kb".to_string(), document_id: "doc-1".to_string() },
    );
    assert_eq!(statement.sql, provider_sql::DELETE_DOCUMENT);
    assert_eq!(
        bound(&statement),
        texts(&["BigInt(7)", "BigInt(3)", "Text(\"kb\")", "Text(\"doc-1\")"])
    );
    let statement = drop_index(&context(), "kb");
    assert_eq!(statement.sql, provider_sql::DROP_INDEX);
    assert_eq!(bound(&statement), texts(&["BigInt(7)", "BigInt(3)", "Text(\"kb\")"]));
}

#[test]
fn indexes_are_created() {
    let statement = create_index_as(&context(), "kb", &value("{}"), "u".to_string());
    assert_eq!(statement.sql, provider_sql::CREATE_INDEX);
    assert_eq!(
        bound(&statement),
        texts(&["Text(\"u\")", "BigInt(7)", "BigInt(3)", "Text(\"kb\")", "Json(Object {})"])
    );
    assert!(is_uuid(&first_text(&create_index(&context(), "kb", &value("{}")))));
}

// Failures

#[test]
fn failed_searches_are_backend_errors() {
    let down = || "down".to_string();
    let backend = SearchProviderError::Backend { message: down() };
    assert_eq!(suggestion_response(Err(down()), 1).unwrap_err(), backend);
    assert_eq!(semantic_response(Err(down()), 1).unwrap_err(), backend);
    let facets = || Err(SearchProviderError::Backend { message: "facets".to_string() });
    assert_eq!(
        search_response(&context(), &query(), Err(down()), facets(), 1).unwrap_err(),
        backend
    );
    assert_eq!(
        search_response(&context(), &query(), Ok(vec![]), facets(), 1).unwrap_err(),
        SearchProviderError::Backend { message: "facets".to_string() }
    );
}

#[test]
fn failed_writes_are_indexing_errors() {
    assert_eq!(write_outcome(Ok(())), Ok(()));
    assert_eq!(
        write_outcome(Err("full".to_string())),
        Err(SearchProviderError::Indexing { message: "full".to_string() })
    );
}

#[test]
fn facets_stop_at_the_first_failure() {
    let mut q = query();
    q.facets = texts(&["kind", "lang", "year"]);
    let plan = plan_search(&context(), &q);
    let requests = plan_facets(&context(), &q, &plan.where_clause);
    assert_eq!(next_facet(&requests, &vec![]), Some(0));
    assert_eq!(next_facet(&requests, &vec![Ok(vec![])]), Some(1));
    let failed = vec![Ok(vec![]), Err("down".to_string())];
    assert_eq!(next_facet(&requests, &failed), None);
    assert_eq!(
        collect_facets(&requests, failed).unwrap_err(),
        SearchProviderError::Backend { message: "down".to_string() }
    );
    assert_eq!(next_facet(&requests, &vec![Ok(vec![]), Ok(vec![]), Ok(vec![])]), None);
}

// The provider

fn config(connection: &str) -> SearchProviderConfig {
    SearchProviderConfig {
        kind: SearchProviderKind::Postgresql,
        id: "pg".to_string(),
        priority: 1,
        enabled: true,
        connection: value(connection),
        options: value("{}"),
    }
}

#[test]
fn providers_know_what_they_are() {
    let provider = PostgresqlSearchProvider::new("pg", 5u8);
    assert_eq!(provider.id(), "pg");
    assert_eq!(provider.kind(), SearchProviderKind::Postgresql);
    assert_eq!(provider.pool, 5);
    let capabilities = provider.capabilities();
    assert_eq!(capabilities.len(), 11);
    assert_eq!(capabilities[0], SearchProviderCapability::FullTextSearch);
    assert_eq!(capabilities[10], SearchProviderCapability::DocumentCrud);
}

fn extension_step(outcomes: Vec<Result<(), String>>) -> String {
    match ensure_extensions(&outcomes) {
        ExtensionStep::Run(sql) => sql.to_string(),
        ExtensionStep::Done(outcome) => format!("{outcome:?}"),
    }
}

#[test]
fn fuzzy_matching_is_set_up_first() {
    assert_eq!(extension_step(vec![]), "CREATE EXTENSION IF NOT EXISTS pg_trgm");
    assert_eq!(extension_step(vec![Ok(())]), "CREATE EXTENSION IF NOT EXISTS vector");
}

#[test]
fn vector_search_is_optional() {
    assert_eq!(extension_step(vec![Ok(()), Ok(())]), "Ok(())");
    assert_eq!(extension_step(vec![Ok(()), Err("no vector".to_string())]), "Ok(())");
}

#[test]
fn nothing_is_set_up_after_fuzzy_matching_failed() {
    let failed = vec![Err("no trigrams".to_string())];
    match ensure_extensions(&failed) {
        ExtensionStep::Done(outcome) => assert_eq!(
            outcome,
            Err(SearchProviderError::Backend { message: "no trigrams".to_string() })
        ),
        ExtensionStep::Run(sql) => panic!("{sql} is tried"),
    }
}

#[test]
fn health_is_the_answer_of_the_database() {
    let failed = || Err(SearchProviderError::Backend { message: "x".to_string() });
    assert_eq!(health(failed(), Ok(1)), Ok(true));
    assert_eq!(health(Ok(()), Ok(2)), Ok(false));
    assert_eq!(
        health(Ok(()), Err("down".to_string())),
        Err(SearchProviderError::Backend { message: "down".to_string() })
    );
}

#[test]
fn factories_need_an_address() {
    let missing = SearchProviderError::Configuration {
        message: "missing connection.url for postgresql provider".to_string(),
    };
    for connection in ["{}", "null", r#"{"url": 5}"#] {
        assert_eq!(connection_url(&config(connection)).unwrap_err(), missing);
        assert_eq!(factory(&config(connection), Ok(1u8)).unwrap_err(), missing);
    }
}

#[test]
fn factories_make_providers() {
    let named = config(r#"{"url": "postgres://db"}"#);
    assert_eq!(connection_url(&named), Ok("postgres://db".to_string()));
    let provider = factory(&named, Ok(9u8)).unwrap();
    assert_eq!((provider.id.as_str(), provider.pool), ("pg", 9));
    assert_eq!(
        factory::<u8>(&named, Err("bad url".to_string())).unwrap_err(),
        SearchProviderError::Configuration {
            message: "failed to create pg pool: bad url".to_string()
        }
    );
}
