//! The server: its configuration, its providers, and the upload of documents.
use sdkwork_search::config::{DatabaseConfig, DatabaseEngine, SearchApiServerConfig};
use sdkwork_search::registry::{build_provider_registry, wanted_address};
use sdkwork_search::spi::{SearchProviderConfig, SearchProviderContext, SearchProviderKind};
use sdkwork_search::upload::{
    parse_upload_form, upload_command, upload_command_as, upload_job, upload_reply, FieldEvent,
    FormField, ParsedUploadForm, Refusal, UploadDocumentRequest, UploaderActor, UploaderTarget,
};

fn value(text: &str) -> serde_json::Value {
    serde_json::from_str(text).unwrap()
}

fn database(engine: DatabaseEngine) -> Result<DatabaseConfig, String> {
    Ok(DatabaseConfig { engine, url: "postgres://db".to_string() })
}

// Configuration

#[test]
fn defaults_stand_in_for_what_is_not_set() {
    let config =
        SearchApiServerConfig::from_env(None, database(DatabaseEngine::Postgres), None).unwrap();
    assert_eq!(config.bind_addr, "0.0.0.0:8080");
    assert_eq!(config.database_url, "postgres://db");
    assert_eq!(config.upload_root_dir, "var/search-uploads");
    assert_eq!(config.provider_configs.len(), 1);
    let provider = &config.provider_configs[0];
    assert_eq!(provider.kind, SearchProviderKind::Memory);
    assert_eq!(provider.id, "memory-default");
    assert_eq!(provider.priority, 0);
    assert!(provider.enabled);
    assert_eq!(provider.connection, value("{}"));
    assert_eq!(provider.options, value("{}"));
}

#[test]
fn settings_are_taken() {
    let config = SearchApiServerConfig::from_env(
        Some("127.0.0.1:1".to_string()),
        database(DatabaseEngine::Postgres),
        Some("/data".to_string()),
    )
    .unwrap();
    assert_eq!(config.bind_addr, "127.0.0.1:1");
    assert_eq!(config.upload_root_dir, "/data");
}

#[test]
fn other_databases_are_refused() {
    assert_eq!(
        SearchApiServerConfig::from_env(None, database(DatabaseEngine::Other), None).unwrap_err(),
        "search standalone gateway authoritative persistence requires PostgreSQL"
    );
    assert_eq!(
        SearchApiServerConfig::from_env(None, Err("no url".to_string()), None).unwrap_err(),
        "invalid SDKWORK_DATABASE_* configuration: no url"
    );
}

// Providers

fn provider(kind: SearchProviderKind, id: &str, enabled: bool, connection: &str) -> SearchProviderConfig {
    SearchProviderConfig {
        kind,
        id: id.to_string(),
        priority: 0,
        enabled,
        connection: value(connection),
        options: value("{}"),
    }
}

#[test]
fn memory_is_always_there() {
    let registry = build_provider_registry::<u8>(&vec![], vec![]);
    assert_eq!(registry.memory, "memory-default");
    assert_eq!(registry.default_kind, SearchProviderKind::Memory);
    assert!(registry.postgresql.is_empty());
    assert_eq!(
        registry.factories,
        vec![SearchProviderKind::Memory, SearchProviderKind::Postgresql]
    );
}

#[test]
fn providers_that_cannot_be_made_are_left_out() {
    let url = r#"{"url": "postgres://db"}"#;
    let configs = vec![
        provider(SearchProviderKind::Postgresql, "a", true, url),
        provider(SearchProviderKind::Postgresql, "off", false, url),
        provider(SearchProviderKind::Memory, "m", true, url),
        provider(SearchProviderKind::Postgresql, "no address", true, "{}"),
        provider(SearchProviderKind::Postgresql, "no pool", true, url),
        provider(SearchProviderKind::Postgresql, "b", true, url),
    ];
    let addresses: Vec<bool> = configs.iter().map(|c| wanted_address(c).is_some()).collect();
    assert_eq!(addresses, vec![true, false, false, false, true, true]);
    assert_eq!(wanted_address(&configs[0]), Some("postgres://db".to_string()));
    let pools = vec![Ok(1u8), Ok(2), Ok(3), Ok(4), Err("bad".to_string()), Ok(6)];
    let registry = build_provider_registry(&configs, pools);
    let made: Vec<(&str, u8)> =
        registry.postgresql.iter().map(|p| (p.id.as_str(), p.pool)).collect();
    assert_eq!(made, vec![("a", 1), ("b", 6)]);
    assert_eq!(registry.default_kind, SearchProviderKind::Memory);
}

// The upload form

fn field(name: &str, bytes: &[u8]) -> FieldEvent {
    FieldEvent::Field(FormField {
        name: Some(name.to_string()),
        file_name: None,
        content_type: None,
        bytes: bytes.to_vec(),
    })
}

fn file(name: Option<&str>, content_type: Option<&str>, bytes: &[u8]) -> FieldEvent {
    FieldEvent::Field(FormField {
        name: Some("file".to_string()),
        file_name: name.map(|n| n.to_string()),
        content_type: content_type.map(|c| c.to_string()),
        bytes: bytes.to_vec(),
    })
}

#[test]
fn forms_are_read_field_by_field() {
    let form = parse_upload_form(vec![
        field("index_key", "k\u{e9}".as_bytes()),
        field("document_id", b"doc"),
        field("tenant_id", b"42"),
        field("organization_id", b"-7"),
        field("other", b"x"),
        file(Some("a.txt"), Some("text/plain"), b"hello"),
    ])
    .unwrap();
    assert_eq!(form.index_key, Some("k\u{e9}".to_string()));
    assert_eq!(form.document_id, Some("doc".to_string()));
    assert_eq!(form.tenant_id, Some(42));
    assert_eq!(form.organization_id, Some(-7));
    assert_eq!(form.file_name, Some("a.txt".to_string()));
    assert_eq!(form.content_type, Some("text/plain".to_string()));
    assert_eq!(form.bytes, Some(b"hello".to_vec()));
}

#[test]
fn the_last_field_of_a_name_counts() {
    let form = parse_upload_form(vec![
        field("index_key", b"a"),
        field("tenant_id", b"1"),
        file(Some("a"), Some("text/plain"), b"1"),
        field("index_key", b"b"),
        field("tenant_id", b"x"),
        file(None, None, b"2"),
    ])
    .unwrap();
    assert_eq!(form.index_key, Some("b".to_string()));
    assert_eq!(form.tenant_id, None);
    assert_eq!(form.file_name, None);
    assert_eq!(form.content_type, None);
    assert_eq!(form.bytes, Some(b"2".to_vec()));
}

#[test]
fn bytes_that_are_no_text_are_replaced() {
    let bytes = [b'a', 0xff, b'b'];
    let form = parse_upload_form(vec![field("index_key", &bytes)]).unwrap();
    assert_eq!(form.index_key, Some("a\u{fffd}b".to_string()));
}

#[test]
fn fields_without_a_name_say_nothing() {
    let form = parse_upload_form(vec![FieldEvent::Field(FormField {
        name: None,
        file_name: Some("x".to_string()),
        content_type: None,
        bytes: vec![1],
    })])
    .unwrap();
    assert!(form.index_key.is_none() && form.file_name.is_none() && form.bytes.is_none());
}

#[test]
fn unreadable_fields_stop_the_form() {
    assert_eq!(
        parse_upload_form(vec![
            field("index_key", b"a"),
            FieldEvent::FieldUnreadable("cut".to_string()),
            FieldEvent::BytesUnreadable("later".to_string()),
        ])
        .unwrap_err(),
        "read multipart field failed: cut"
    );
    assert_eq!(
        parse_upload_form(vec![FieldEvent::BytesUnreadable("cut".to_string())]).unwrap_err(),
        "read multipart bytes failed: cut"
    );
}

// The upload

fn full_form() -> Vec<FieldEvent> {
    vec![
        field("index_key", b"kb"),
        field("document_id", b"doc"),
        file(Some("a.bin"), None, b"12345"),
    ]
}

#[test]
fn complete_forms_become_jobs() {
    let job = upload_job(parse_upload_form(full_form())).unwrap();
    assert_eq!((job.context.tenant_id, job.context.organization_id), (0, 0));
    assert_eq!(job.context.user_id, None);
    assert_eq!(job.context.request_id, None);
    assert_eq!((job.index_key.as_str(), job.document_id.as_str()), ("kb", "doc"));
    assert_eq!(job.request.file_name, "a.bin");
    assert_eq!(job.request.content_type, "application/octet-stream");
    assert_eq!(job.request.bytes, b"12345".to_vec());
    assert_eq!(job.request.app_resource_type, "search_document");
    assert_eq!(job.request.app_resource_id, "doc");
}

#[test]
fn settings_of_the_form_are_taken() {
    let mut events = full_form();
    events.push(field("tenant_id", b"5"));
    events.push(field("organization_id", b"6"));
    events.push(file(Some("b.txt"), Some("text/plain"), b""));
    let job = upload_job(parse_upload_form(events)).unwrap();
    assert_eq!((job.context.tenant_id, job.context.organization_id), (5, 6));
    assert_eq!(job.request.content_type, "text/plain");
    assert!(job.request.bytes.is_empty());
}

fn refused(form: Result<ParsedUploadForm, String>) -> Refusal {
    upload_job(form).unwrap_err()
}

fn bad_request(message: &str) -> Refusal {
    Refusal { status: 400, message: message.to_string() }
}

#[test]
fn incomplete_forms_are_refused() {
    assert_eq!(
        refused(parse_upload_form(vec![])),
        bad_request("missing required field: index_key")
    );
    assert_eq!(
        refused(parse_upload_form(vec![field("index_key", b"kb")])),
        bad_request("missing required field: document_id")
    );
    assert_eq!(
        refused(parse_upload_form(vec![
            field("index_key", b"kb"),
            field("document_id", b"doc"),
        ])),
        bad_request("missing required field: file")
    );
    assert_eq!(
        refused(parse_upload_form(vec![
            field("index_key", b"kb"),
            field("document_id", b"doc"),
            file(None, None, b"1"),
        ])),
        bad_request("missing required field: file")
    );
    assert_eq!(
        refused(Err("read multipart field failed: cut".to_string())),
        bad_request("invalid upload form: read multipart field failed: cut")
    );
    let mut nameless = ParsedUploadForm::new();
    nameless.index_key = Some("kb".to_string());
    nameless.document_id = Some("doc".to_string());
    nameless.file_name = Some("a".to_string());
    assert_eq!(refused(Ok(nameless)), bad_request("missing required field: file"));
}

#[test]
fn uploads_are_answered() {
    let reply = upload_reply("doc".to_string(), "kb".to_string(), Ok(())).unwrap();
    assert_eq!((reply.document_id.as_str(), reply.index_key.as_str()), ("doc", "kb"));
    assert_eq!(
        upload_reply("doc".to_string(), "kb".to_string(), Err("full".to_string())).unwrap_err(),
        Refusal { status: 500, message: "ingest document failed: full".to_string() }
    );
}

fn context(tenant_id: i64, organization_id: i64) -> SearchProviderContext {
    SearchProviderContext { tenant_id, organization_id, user_id: None, request_id: None }
}

fn request() -> UploadDocumentRequest {
    UploadDocumentRequest {
        file_name: "a.bin".to_string(),
        content_type: "text/plain".to_string(),
        bytes: b"12345".to_vec(),
        app_resource_type: "search_document".to_string(),
        app_resource_id: "doc".to_string(),
    }
}

#[test]
fn upload_commands_describe_the_document() {
    let command = upload_command_as(
        &context(-5, 6),
        request(),
        "sdkwork-search",
        "f00d".to_string(),
        "id".to_string(),
        "task".to_string(),
        99,
    );
    let prepare = &command.prepare;
    assert_eq!(prepare.id, "id");
    assert_eq!(prepare.task_id, "task");
    assert_eq!(prepare.tenant_id, "-5");
    assert_eq!(prepare.organization_id, Some("6".to_string()));
    match &prepare.actor {
        UploaderActor::System { operator_id } => assert_eq!(operator_id, "sdkwork-search"),
    }
    assert_eq!(prepare.app_id, "sdkwork-search");
    assert_eq!(prepare.app_resource_type, "search_document");
    assert_eq!(prepare.app_resource_id, "doc");
    assert_eq!(prepare.scene, Some("search".to_string()));
    assert_eq!(prepare.source, None);
    assert_eq!(prepare.upload_profile_code, "document");
    assert_eq!(prepare.file_fingerprint, "f00d");
    assert_eq!(prepare.original_file_name, "a.bin");
    assert_eq!(prepare.content_type, "text/plain");
    assert_eq!(prepare.content_length, 5);
    assert_eq!(prepare.chunk_size_bytes, 5 * 1024 * 1024);
    match &prepare.target {
        UploaderTarget::AutoUploadSpace { parent_node_id } => assert_eq!(*parent_node_id, None),
    }
    assert_eq!(prepare.operator_id, "sdkwork-search");
    assert_eq!((prepare.now_epoch_ms, command.uploaded_at_epoch_ms), (99, 99));
    assert_eq!(command.body, b"12345".to_vec());
}

#[test]
fn organizations_are_positive() {
    for organization in [0, -1, i64::MIN] {
        let command = upload_command(
            &context(1, organization),
            request(),
            "app",
            "f".to_string(),
        );
        assert_eq!(command.prepare.organization_id, None);
    }
}

#[test]
fn new_uploads_get_random_names() {
    let command = upload_command(&context(1, 1), request(), "app", "f".to_string());
    assert_ne!(command.prepare.id, command.prepare.task_id);
    for name in [&command.prepare.id, &command.prepare.task_id] {
        assert_eq!(uuid::Uuid::parse_str(name).unwrap().get_version_num(), 4);
    }
    let now = chrono::Utc::now().timestamp_millis();
    assert!(now - 60_000 <= command.prepare.now_epoch_ms && command.prepare.now_epoch_ms <= now);
}
