//! The repositories: tables, parameters, errors.
use sdkwork_search::adapter::SearchRepositoryAdapter;
use sdkwork_search::error::{DatabaseFailure, RepositoryError};
use sdkwork_search::repository::{
    CreateIndexParams, CreatePromotionParams, RecordUserEventParams, SearchDocumentRepository,
    SearchIndexRepository, SearchPromotionRepository, SearchSuggestionRepository,
    SearchUserEventRepository, UpdateIndexParams, UpsertDocumentParams, UpsertRecentQueryParams,
};
use sdkwork_search::schema::{
    SEARCH_DOCUMENT_TABLE, SEARCH_INDEXING_MIGRATION_SQL, SEARCH_INDEX_JOB_TABLE,
    SEARCH_INDEX_TABLE, SEARCH_PROMOTION_TABLE, SEARCH_QUERY_SUGGESTION_TABLE,
    SEARCH_RECENT_QUERY_TABLE, SEARCH_USER_EVENT_TABLE,
};

fn value(text: &str) -> serde_json::Value {
    serde_json::from_str(text).unwrap()
}

#[test]
fn embeds_search_migration_sql() {
    assert!(!SEARCH_INDEXING_MIGRATION_SQL.is_empty());
    assert!(
        SEARCH_INDEXING_MIGRATION_SQL.contains("CREATE TABLE IF NOT EXISTS search_index"),
        "migration must create search_index",
    );
    assert!(
        SEARCH_INDEXING_MIGRATION_SQL.contains("CREATE TABLE IF NOT EXISTS search_document"),
        "migration must create search_document",
    );
    assert!(
        SEARCH_INDEXING_MIGRATION_SQL.contains("CREATE EXTENSION IF NOT EXISTS pg_trgm"),
        "migration must enable pg_trgm",
    );
}

#[test]
fn exposes_search_prefixed_table_constants() {
    for table in [
        SEARCH_INDEX_TABLE,
        SEARCH_DOCUMENT_TABLE,
        SEARCH_QUERY_SUGGESTION_TABLE,
        SEARCH_USER_EVENT_TABLE,
        SEARCH_RECENT_QUERY_TABLE,
    ] {
        assert!(
            table.starts_with("search_"),
            "table constant must be search-prefixed: {table}",
        );
    }
}

#[test]
fn every_table_is_created() {
    for table in [
        SEARCH_INDEX_TABLE,
        SEARCH_INDEX_JOB_TABLE,
        SEARCH_DOCUMENT_TABLE,
        SEARCH_QUERY_SUGGESTION_TABLE,
        SEARCH_USER_EVENT_TABLE,
        SEARCH_RECENT_QUERY_TABLE,
        SEARCH_PROMOTION_TABLE,
    ] {
        let create = format!("CREATE TABLE IF NOT EXISTS {table} (");
        assert!(SEARCH_INDEXING_MIGRATION_SQL.contains(&create), "{table} is not created");
    }
}

#[test]
fn suggestions_come_from_queries_by_default() {
    assert!(SEARCH_INDEXING_MIGRATION_SQL.contains("source TEXT NOT NULL DEFAULT 'query'"));
}

#[test]
fn repository_error_converts_from_sqlx_row_not_found() {
    let error = RepositoryError::from(sqlx::Error::RowNotFound);
    match error {
        RepositoryError::NotFound(_) => {}
        other => panic!("expected NotFound, got {other:?}"),
    }
}

#[test]
fn row_not_found_keeps_its_text() {
    assert_eq!(
        RepositoryError::from(sqlx::Error::RowNotFound),
        RepositoryError::NotFound(
            "no rows returned by a query that expected to return at least one row".to_string()
        ),
    );
}

#[test]
fn other_sqlx_errors_are_database_errors() {
    let error = RepositoryError::from(sqlx::Error::PoolClosed);
    assert_eq!(error, RepositoryError::Database(sqlx::Error::PoolClosed.to_string()));
}

#[test]
fn failures_become_errors_with_their_text() {
    assert_eq!(
        RepositoryError::from_failure(DatabaseFailure::RowNotFound("none".to_string())),
        RepositoryError::NotFound("none".to_string()),
    );
    assert_eq!(
        RepositoryError::from_failure(DatabaseFailure::Other("down".to_string())),
        RepositoryError::Database("down".to_string()),
    );
}

#[test]
fn repository_error_displays() {
    let error = RepositoryError::Conflict("duplicate index_key".into());
    let message = error.message();
    assert!(message.contains("repository conflict"));
    assert!(message.contains("duplicate index_key"));
}

#[test]
fn each_error_has_its_message() {
    assert_eq!(
        RepositoryError::NotFound("a".into()).message(),
        "repository record not found: a"
    );
    assert_eq!(RepositoryError::Conflict("b".into()).message(), "repository conflict: b");
    assert_eq!(
        RepositoryError::Database("c".into()).message(),
        "repository database error: c"
    );
}

#[test]
fn can_construct_index_params() {
    let create = CreateIndexParams {
        id: 1,
        tenant_id: 100_001,
        organization_id: 0,
        index_key: "knowledge_base".into(),
        title: "Knowledge Base".into(),
        description: Some("docs index".into()),
        config_json: value(r#"{"analyzer": "default"}"#),
    };
    assert_eq!(create.index_key, "knowledge_base");

    let update = UpdateIndexParams {
        id: create.id,
        tenant_id: create.tenant_id,
        title: create.title.clone(),
        description: None,
        status: 0,
        config_json: value("{}"),
    };
    assert_eq!(update.status, 0);
}

#[test]
fn can_construct_document_params() {
    let params = UpsertDocumentParams {
        id: 42,
        tenant_id: 100_001,
        organization_id: 0,
        index_id: 1,
        index_key: "knowledge_base".into(),
        document_id: "doc-1".into(),
        capability: Some("wiki".into()),
        scope: "global".into(),
        group_key: None,
        group_title: None,
        source_ref: None,
        title: "Title".into(),
        body_text: Some("body".into()),
        keyword_text: None,
        payload_json: value(r#"{"path": "/a/b"}"#),
        token_json: value("[]"),
        embedding_json: value(r#"{"vector": [0.1, 0.2]}"#),
        status: 1,
        data_scope: 0,
    };
    assert_eq!(params.document_id, "doc-1");
}

#[test]
fn can_construct_user_event_params() {
    let params = RecordUserEventParams {
        id: 7,
        tenant_id: 100_001,
        organization_id: 0,
        user_id: 1,
        event_type: "search".into(),
        surface: "app".into(),
        index_key: Some("knowledge_base".into()),
        document_id: None,
        placement: None,
        q: Some("hello".into()),
        result_position: Some(1),
        request_id: Some("req-1".into()),
        metadata_json: value("{}"),
    };
    assert_eq!(params.event_type, "search");
}

#[test]
fn repositories_are_nameable_without_pool() {
    // A pool needs a database. The types are reachable and nameable without one.
    fn _assert_types() {
        let _ = std::marker::PhantomData::<SearchIndexRepository<sqlx::PgPool>>;
        let _ = std::marker::PhantomData::<SearchDocumentRepository<sqlx::PgPool>>;
        let _ = std::marker::PhantomData::<SearchSuggestionRepository<sqlx::PgPool>>;
        let _ = std::marker::PhantomData::<SearchUserEventRepository<sqlx::PgPool>>;
        let _ = std::marker::PhantomData::<SearchPromotionRepository<sqlx::PgPool>>;
        let _ = std::marker::PhantomData::<SearchRepositoryAdapter<sqlx::PgPool>>;
    }
}

#[test]
fn can_construct_promotion_params() {
    let params = CreatePromotionParams {
        id: 100,
        tenant_id: 100_001,
        organization_id: 0,
        promotion_key: "summer_docs".into(),
        placement: "top".into(),
        index_key: "knowledge_base".into(),
        document_id: "doc-1".into(),
        priority: 10,
        rule_json: value("[]"),
    };
    assert_eq!(params.promotion_key, "summer_docs");
    assert_eq!(params.placement, "top");
}

#[test]
fn can_construct_upsert_recent_query_params() {
    let params = UpsertRecentQueryParams {
        id: 9,
        tenant_id: 100_001,
        organization_id: 0,
        user_id: 1,
        index_key: "knowledge_base",
        q: "hello",
        result_count: 5,
    };
    assert_eq!(params.q, "hello");
    assert_eq!(params.result_count, 5);
}
