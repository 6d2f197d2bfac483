use common::config::{Config, Settings, DEFAULT_ALLOWED_ORIGIN, DEFAULT_HOST_PORT};
use common::error::ServiceError;
use common::search::query::FuzzyQueryBuilder;
use common::search::wire::decimal_string;
use common::search::{insert_outcome, insert_payload, query_payload, results_body, QueryParser};
use common::templates::PageTemplate;
use serde_json::Value;

fn json(text: &str) -> Value {
    serde_json::from_str(text).unwrap()
}

fn settings() -> Settings {
    Settings {
        database_url: Some("postgres://db".to_owned()),
        toshi_url: Some(" localhost:7000 ".to_owned()),
        toshi_index: Some("bookmarks ".to_owned()),
        allowed_origin: None,
        host_port: Some("".to_owned()),
        jwt_secret: None,
    }
}

#[test]
fn decimal_notation() {
    assert_eq!(decimal_string(0), "0");
    assert_eq!(decimal_string(7), "7");
    assert_eq!(decimal_string(10), "10");
    assert_eq!(decimal_string(255), "255");
    assert_eq!(decimal_string(u64::MAX), "18446744073709551615");
}

#[test]
fn fuzzy_settings_reach_the_wire() {
    let q = FuzzyQueryBuilder::new()
        .with_field("body".to_owned())
        .with_term("qu\"ote".to_owned())
        .with_distance(2)
        .with_transposition(true)
        .build();
    let v: Value = serde_json::from_str(&q.to_json()).unwrap();
    assert_eq!(
        v,
        json(r#"{"fuzzy": {"body": {"value": "qu\"ote", "distance": 2, "transposition": true}}}"#)
    );
}

#[test]
fn query_payload_wraps_query_with_limit() {
    let q = QueryParser::new("tag:rust").parse();
    let v: Value = serde_json::from_str(&query_payload(&q)).unwrap();
    assert_eq!(
        v,
        json(
            r#"{"query": {"bool": {"must": [{"term": {"tag": "rust"}}], "must_not": [],
                "should": [], "minimum_should_match": null, "boost": null}},
                "limit": 25}"#
        )
    );
}

#[test]
fn insert_payload_commits_document() {
    let v: Value = serde_json::from_str(&insert_payload(r#"{"title": "t"}"#)).unwrap();
    assert_eq!(v, json(r#"{"options": {"commit": true}, "document": {"title": "t"}}"#));
}

#[test]
fn insert_outcome_needs_created() {
    assert!(insert_outcome(201).is_ok());
    assert!(matches!(insert_outcome(200), Err(ServiceError::InternalServerError)));
    assert!(matches!(insert_outcome(500), Err(ServiceError::InternalServerError)));
}

#[test]
fn empty_response_body_is_no_results() {
    assert!(results_body(&[]).is_none());
    assert_eq!(results_body(b"{}"), Some(&b"{}"[..]));
}

#[test]
fn service_error_texts() {
    assert_eq!(ServiceError::InternalServerError.message(), "Internal Server Error");
    assert_eq!(ServiceError::BadRequest("dup".to_owned()).message(), "BadRequest: dup");
    assert_eq!(ServiceError::Unauthorized.message(), "Unauthorized");
    assert_eq!(ServiceError::InternalServerError.status_code(), 500);
    assert_eq!(ServiceError::BadRequest(String::new()).status_code(), 400);
    assert_eq!(ServiceError::Unauthorized.status_code(), 401);
    assert_eq!(
        ServiceError::InternalServerError.response_body(),
        "\"Internal Server Error, Please try later\""
    );
    assert_eq!(ServiceError::BadRequest("a\"b".to_owned()).response_body(), "\"a\\\"b\"");
    assert_eq!(ServiceError::Unauthorized.response_body(), "\"Unauthorized\"");
}

#[test]
fn service_error_from_failures() {
    assert!(matches!(
        ServiceError::from_database_error(true, Some("key exists".to_owned()), "m".to_owned()),
        ServiceError::BadRequest(ref d) if d == "key exists"
    ));
    assert!(matches!(
        ServiceError::from_database_error(true, None, "m".to_owned()),
        ServiceError::BadRequest(ref d) if d == "m"
    ));
    assert!(matches!(
        ServiceError::from_database_error(false, Some("x".to_owned()), "m".to_owned()),
        ServiceError::InternalServerError
    ));
    assert!(matches!(ServiceError::from_password_error(true), ServiceError::Unauthorized));
    assert!(matches!(
        ServiceError::from_password_error(false),
        ServiceError::InternalServerError
    ));
}

#[test]
fn config_defaults_and_endpoints() {
    let c = Config::from_settings(settings(), vec![7u8; 32]).ok().unwrap();
    assert_eq!(c.database_url, "postgres://db");
    assert_eq!(c.allowed_origin, DEFAULT_ALLOWED_ORIGIN);
    assert_eq!(c.host_port, DEFAULT_HOST_PORT);
    assert_eq!(c.jwt_secret, vec![7u8; 32]);
    assert_eq!(c.insert_doc_endpoint(), "http://localhost:7000/bookmarks");
    assert_eq!(c.query_doc_endpoint(), "http://localhost:7000/bookmarks");
}

#[test]
fn config_takes_given_values() {
    let mut s = settings();
    s.allowed_origin = Some("https://example.org".to_owned());
    s.host_port = Some("9000".to_owned());
    s.jwt_secret = Some("key".to_owned());
    let c = Config::from_settings(s, vec![0u8; 32]).ok().unwrap();
    assert_eq!(c.allowed_origin, "https://example.org");
    assert_eq!(c.host_port, "9000");
    assert_eq!(c.jwt_secret, b"key".to_vec());
}

#[test]
fn config_names_the_missing_setting() {
    let mut s = settings();
    s.database_url = Some(String::new());
    assert_eq!(Config::from_settings(s, vec![]).err().unwrap(), "DATABASE_URL");
    let mut s = settings();
    s.toshi_url = None;
    assert_eq!(Config::from_settings(s, vec![]).err().unwrap(), "TOSHI_URL");
    let mut s = settings();
    s.toshi_index = None;
    assert_eq!(Config::from_settings(s, vec![]).err().unwrap(), "TOSHI_INDEX");
}

#[test]
fn page_template_constructors() {
    let p = PageTemplate::new(vec![1, 2]);
    assert_eq!(p.search_text(), "");
    assert_eq!(p.next_page(), None);
    let p = PageTemplate::new_with_query(vec![1], "rust".to_owned());
    assert_eq!(p.search_text(), "rust");
    assert_eq!(p.next_page(), None);
    let p = PageTemplate::new_with_next_page(Some(3), vec![5]);
    assert_eq!(p.search_text(), "");
    assert_eq!(p.next_page(), Some(3));
    assert_eq!(p.into_items(), vec![5]);
}
