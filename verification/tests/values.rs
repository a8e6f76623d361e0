//! Text, JSON, time and statements: the values that requests are made of.
use sdkwork_search::clock::{now_id, Timestamp};
use sdkwork_search::json::{add_missing_text, get_text_field};
use sdkwork_search::named::number_parameters;
use sdkwork_search::queries;
use sdkwork_search::text::{
    characters, is_safe_identifier, join, parse_i64, push_decimal, same_text, signed_numeral,
};
use sdkwork_search::text_map::TextMap;

fn value(text: &str) -> serde_json::Value {
    serde_json::from_str(text).unwrap()
}

fn texts(list: &[&str]) -> Vec<String> {
    list.iter().map(|t| t.to_string()).collect()
}

#[test]
fn safe_identifiers_are_letters_digits_and_underscores() {
    for good in ["a", "A_9", "drive_space_id", "_"] {
        assert!(is_safe_identifier(good), "{good}");
    }
    for bad in ["", "a-b", "a b", "a'b", "é", "a;", "a.b"] {
        assert!(!is_safe_identifier(bad), "{bad}");
    }
}

#[test]
fn same_text_compares_characters() {
    assert!(same_text("abc", "abc"));
    assert!(!same_text("abc", "abd"));
    assert!(!same_text("", "a"));
}

#[test]
fn characters_are_not_bytes() {
    assert_eq!(characters("aé€"), vec!['a', 'é', '€']);
}

#[test]
fn join_puts_separators_between() {
    assert_eq!(join(&texts(&[]), ", "), "");
    assert_eq!(join(&texts(&["a"]), ", "), "a");
    assert_eq!(join(&texts(&["a", "", "c"]), " | "), "a |  | c");
}

#[test]
fn numerals_read_back() {
    for n in [0, 7, 10, -1, 1234567890, i64::MAX, i64::MIN] {
        assert_eq!(signed_numeral(n), n.to_string());
        assert_eq!(parse_i64(&signed_numeral(n)), Some(n));
    }
}

#[test]
fn push_decimal_appends() {
    let mut text = "$".to_string();
    push_decimal(&mut text, 10);
    assert_eq!(text, "$10");
    let mut last = String::new();
    push_decimal(&mut last, u64::MAX);
    assert_eq!(last, "18446744073709551615");
}

#[test]
fn parse_agrees_with_the_standard_library() {
    for text in [
        "", "+", "-", "0", "-0", "+5", "007", "12a", " 1", "1 ", "1_000", "--1", "+-1",
        "9223372036854775807", "9223372036854775808", "-9223372036854775808",
        "-9223372036854775809", "99999999999999999999999999", "٣",
    ] {
        assert_eq!(parse_i64(text), text.parse::<i64>().ok(), "{text:?}");
    }
}

#[test]
fn text_map_keeps_the_last_value_of_a_key() {
    let mut map: TextMap<u32> = TextMap::new();
    assert_eq!(map.len(), 0);
    map.insert("a".to_string(), 1);
    map.insert("b".to_string(), 2);
    map.insert("a".to_string(), 3);
    assert_eq!(map.len(), 2);
    assert_eq!(map.get("a"), Some(&3));
    assert_eq!(map.get("b"), Some(&2));
    assert_eq!(map.get("c"), None);
    let mut entries = map.into_entries();
    entries.sort();
    assert_eq!(entries, vec![("a".to_string(), 3), ("b".to_string(), 2)]);
}

#[test]
fn missing_text_is_added_once() {
    let mut object = value(r#"{"other": 1}"#);
    add_missing_text(&mut object, "title", "first");
    add_missing_text(&mut object, "title", "second");
    assert_eq!(object, value(r#"{"other": 1, "title": "first"}"#));
}

#[test]
fn present_fields_stay_even_if_null() {
    let mut object = value(r#"{"title": null}"#);
    add_missing_text(&mut object, "title", "new");
    assert_eq!(object, value(r#"{"title": null}"#));
}

#[test]
fn values_that_are_no_objects_stay() {
    for text in ["null", "true", "3", "\"x\"", "[1]"] {
        let mut v = value(text);
        add_missing_text(&mut v, "title", "new");
        assert_eq!(v, value(text));
    }
}

#[test]
fn text_fields_are_read_from_objects() {
    assert_eq!(get_text_field(&value(r#"{"url": "x"}"#), "url"), Some("x".to_string()));
    assert_eq!(get_text_field(&value(r#"{"url": 1}"#), "url"), None);
    assert_eq!(get_text_field(&value(r#"{"uri": "x"}"#), "url"), None);
    assert_eq!(get_text_field(&value("[\"url\"]"), "url"), None);
    assert_eq!(get_text_field(&value("null"), "url"), None);
}

#[test]
fn timestamps_write_rfc3339() {
    assert_eq!(
        Timestamp::new(0, 0).unwrap().to_rfc3339(),
        "1970-01-01T00:00:00+00:00"
    );
    assert_eq!(
        Timestamp::new(1_700_000_000, 500_000_000).unwrap().to_rfc3339(),
        "2023-11-14T22:13:20.500+00:00"
    );
    let leap = Timestamp::new(59, 1_500_000_000).unwrap();
    assert_eq!(leap.to_rfc3339(), "1970-01-01T00:00:60.500+00:00");
    assert_eq!((leap.seconds(), leap.nanos()), (59, 1_500_000_000));
}

#[test]
fn timestamps_end_where_the_calendar_does() {
    let first = -8334601228800;
    let last = 8210266876799;
    for (seconds, nanos) in [
        (first, 0),
        (first - 1, 0),
        (last, 999_999_999),
        (last, 1_999_999_999),
        (last + 1, 0),
        (58, 1_000_000_000),
        (59, 2_000_000_000),
        (-1, 1_000_000_000),
        (-2, 1_000_000_000),
        (i64::MIN, 0),
        (i64::MAX, 0),
    ] {
        let theirs = chrono::DateTime::<chrono::Utc>::from_timestamp(seconds, nanos);
        let ours = Timestamp::new(seconds, nanos);
        assert_eq!(ours.is_some(), theirs.is_some(), "{seconds} {nanos}");
        if let (Some(ours), Some(theirs)) = (ours, theirs) {
            assert_eq!(ours.to_rfc3339(), theirs.to_rfc3339());
        }
    }
}

#[test]
fn ids_come_from_the_clock() {
    let before = chrono::Utc::now().timestamp_millis();
    let id = now_id();
    let moment = Timestamp::now();
    let after = chrono::Utc::now().timestamp_millis();
    assert!(before <= id && id <= after);
    let millis = moment.seconds() * 1000 + (moment.nanos() / 1_000_000) as i64;
    assert!(before <= millis && millis <= after);
}

#[test]
fn parameters_are_numbered_by_first_appearance() {
    let numbered = number_parameters("SELECT :b, :a WHERE x = :b AND y = ANY(:c::text[]) AND z::int = 1");
    assert_eq!(
        numbered.sql,
        "SELECT $1, $2 WHERE x = $1 AND y = ANY($3::text[]) AND z::int = 1"
    );
    assert_eq!(numbered.names, texts(&["b", "a", "c"]));
}

#[test]
fn statements_without_names_stay() {
    for sql in ["", "SELECT 1", "a::b", ":", ": x", "x:", "$1 :: y"] {
        let numbered = number_parameters(sql);
        assert_eq!(numbered.sql, sql);
        assert!(numbered.names.is_empty());
    }
}

#[test]
fn more_than_nine_parameters() {
    let sql = ":a :b :c :d :e :f :g :h :i :j :k :j";
    assert_eq!(number_parameters(sql).sql, "$1 $2 $3 $4 $5 $6 $7 $8 $9 $10 $11 $10");
}

fn all_queries() -> Vec<(&'static str, &'static str)> {
    vec![
        (queries::INDEX_LIST_INDEXES, "tenant_id organization_id"),
        (queries::INDEX_GET_BY_KEY, "tenant_id organization_id index_key"),
        (
            queries::INDEX_CREATE,
            "id uuid tenant_id organization_id index_key title description config_json",
        ),
        (
            queries::INDEX_UPDATE,
            "title description status config_json id tenant_id organization_id",
        ),
        (queries::INDEX_DELETE, "deleted_by id tenant_id organization_id"),
        (
            queries::JOB_CREATE,
            "id uuid tenant_id organization_id index_key job_type payload_json",
        ),
        (queries::JOB_GET, "tenant_id organization_id uuid"),
        (
            queries::JOB_UPDATE_STATUS,
            "status started_at finished_at error_summary uuid tenant_id organization_id",
        ),
        (queries::DOCUMENT_GET, "tenant_id organization_id index_key document_id"),
        (queries::DOCUMENT_LIST, "tenant_id organization_id index_key limit offset"),
        (
            queries::DOCUMENT_UPSERT,
            "id uuid tenant_id organization_id index_id index_key document_id capability scope \
             group_key group_title source_ref title body_text keyword_text payload_json \
             token_json embedding_json status data_scope",
        ),
        (
            queries::DOCUMENT_DELETE,
            "deleted_by tenant_id organization_id index_key document_id",
        ),
        (
            queries::DOCUMENT_FULLTEXT_SEARCH,
            "query tenant_id organization_id index_key limit offset",
        ),
        (
            queries::DOCUMENT_FUZZY_SEARCH,
            "query tenant_id organization_id index_key limit offset",
        ),
        (
            queries::DOCUMENT_SEMANTIC_SEARCH,
            "query_embedding tenant_id organization_id index_key limit offset",
        ),
        (queries::DOCUMENT_COUNT, "tenant_id organization_id index_key"),
        (queries::DOCUMENT_STATS, "tenant_id organization_id index_key"),
        (queries::SUGGESTION_LIST, "tenant_id organization_id index_key prefix limit"),
        (
            queries::SUGGESTION_UPSERT,
            "id uuid tenant_id organization_id index_key suggestion_text",
        ),
        (queries::SUGGESTION_INCREMENT_POPULARITY, "id tenant_id organization_id"),
        (
            queries::USER_EVENT_RECORD,
            "id uuid tenant_id organization_id user_id event_type surface index_key document_id \
             placement q result_position request_id metadata_json",
        ),
        (
            queries::RECENT_QUERY_UPSERT,
            "id uuid tenant_id organization_id user_id index_key q result_count",
        ),
        (queries::RECENT_QUERY_LIST, "tenant_id organization_id user_id limit"),
        (
            queries::USER_EVENT_LIST_BY_USER,
            "tenant_id organization_id user_id event_type limit",
        ),
        (queries::USER_EVENT_TRENDING, "tenant_id organization_id index_key limit"),
        (
            queries::USER_EVENT_SIMILAR_DOCUMENTS,
            "tenant_id organization_id index_key document_ids limit",
        ),
        (
            queries::PROMOTION_LIST_ACTIVE,
            "tenant_id organization_id index_key placement now",
        ),
        (
            queries::PROMOTION_CREATE,
            "id uuid tenant_id organization_id promotion_key placement index_key document_id \
             priority rule_json",
        ),
        (
            queries::PROMOTION_EVENT_INSERT,
            "id uuid tenant_id organization_id user_id event_type promotion_id metadata_json",
        ),
        (queries::PROMOTION_STATS, "tenant_id organization_id promotion_id"),
        (
            queries::PROMOTION_LIST_ALL,
            "tenant_id organization_id index_key limit offset",
        ),
        (queries::PROMOTION_GET, "tenant_id organization_id promotion_key"),
        (
            queries::PROMOTION_UPDATE,
            "placement document_id priority rule_json status active_from active_until tenant_id \
             organization_id promotion_key",
        ),
        (
            queries::PROMOTION_DELETE,
            "deleted_by tenant_id organization_id promotion_key",
        ),
    ]
}

#[test]
fn queries_bind_in_the_order_of_first_appearance() {
    for (sql, names) in all_queries() {
        let expected: Vec<String> = names.split_whitespace().map(|n| n.to_string()).collect();
        assert_eq!(number_parameters(sql).names, expected, "{sql}");
    }
}

#[test]
fn queries_are_confined_to_a_tenant() {
    for (sql, _) in all_queries() {
        let names = number_parameters(sql).names;
        for scope in ["tenant_id", "organization_id"] {
            assert!(
                sql.contains(&format!("{scope} = :{scope}")) || sql.starts_with("INSERT INTO "),
                "{sql}"
            );
            assert!(names.contains(&scope.to_string()), "{sql}");
        }
    }
}

#[test]
fn every_part_of_a_query_is_confined_to_a_tenant() {
    for (sql, _) in all_queries() {
        let parts = sql.matches(" WHERE ").count();
        for scope in ["tenant_id = :tenant_id", "organization_id = :organization_id"] {
            assert_eq!(sql.matches(scope).count(), parts, "{sql}");
        }
    }
}

#[test]
fn numbered_queries_have_no_names_left() {
    for (sql, _) in all_queries() {
        let numbered = number_parameters(sql);
        assert!(number_parameters(&numbered.sql).names.is_empty(), "{sql}");
        let last = format!("${}", numbered.names.len());
        assert!(numbered.sql.contains(&last), "{sql}");
    }
}
