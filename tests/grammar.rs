use common::search::lexer::{Lexer, Token};
use common::search::query::{BoolQueryBuilder, ExactQueryBuilder, PhraseQueryBuilder};
use common::search::QueryParser;
use serde_json::Value;

fn compile(raw: &str) -> Value {
    serde_json::from_str(&QueryParser::new(raw).parse().to_json()).unwrap()
}

fn json(text: &str) -> Value {
    serde_json::from_str(text).unwrap()
}

fn bool_query(must: &str, must_not: &str, should: &str) -> Value {
    json(&format!(
        r#"{{"bool": {{"must": [{}], "must_not": [{}], "should": [{}],
             "minimum_should_match": null, "boost": null}}}}"#,
        must, must_not, should
    ))
}

fn word_fanout(w: &str) -> String {
    format!(
        r#"{{"fuzzy": {{"title": {{"value": "{w}", "distance": 0, "transposition": false}}}}}},
           {{"fuzzy": {{"body": {{"value": "{w}", "distance": 0, "transposition": false}}}}}},
           {{"term": {{"tag": "{w}"}}}}"#,
        w = w
    )
}

fn exact_fanout(w: &str) -> String {
    format!(
        r#"{{"term": {{"body": "{w}"}}}}, {{"term": {{"title": "{w}"}}}}, {{"term": {{"tag": "{w}"}}}}"#,
        w = w
    )
}

#[test]
fn lexer_walks_tokens() {
    let mut lexer = Lexer::new("  not: tag:x 'a\"");
    assert_eq!(lexer.current(), Token::Inverse);
    assert_eq!(lexer.slice(), "not:");
    assert_eq!(lexer.advance(), Token::Inverse);
    assert_eq!(lexer.advance(), Token::Tag);
    assert_eq!(lexer.current(), Token::Word);
    assert_eq!(lexer.slice(), "x");
    assert_eq!(lexer.advance(), Token::Word);
    assert_eq!(lexer.advance(), Token::QuoteSingle);
    assert_eq!(lexer.slice(), "a");
    assert_eq!(lexer.advance(), Token::Word);
    assert_eq!(lexer.advance(), Token::QuoteDouble);
    assert_eq!(lexer.current(), Token::End);
    assert_eq!(lexer.advance(), Token::End);
    assert_eq!(lexer.advance(), Token::End);
    assert_eq!(lexer.current(), Token::End);
}

#[test]
fn lexer_words_stop_at_colon() {
    let mut lexer = Lexer::new("nothing foo:bar");
    assert_eq!(lexer.current(), Token::Word);
    assert_eq!(lexer.slice(), "nothing");
    lexer.advance();
    assert_eq!(lexer.slice(), "foo");
    lexer.advance();
    assert_eq!(lexer.current(), Token::Error);
}

#[test]
fn lexer_skips_unicode_white_space() {
    let mut lexer = Lexer::new("\u{3000}日本\u{a0}語\t");
    assert_eq!(lexer.current(), Token::Word);
    assert_eq!(lexer.slice(), "日本");
    lexer.advance();
    assert_eq!(lexer.slice(), "語");
    lexer.advance();
    assert_eq!(lexer.current(), Token::End);
}

#[test]
fn plain_word_fans_out() {
    assert_eq!(compile("rust"), bool_query("", "", &word_fanout("rust")));
}

#[test]
fn negated_word_is_exact() {
    assert_eq!(compile("not:rust"), bool_query("", &exact_fanout("rust"), ""));
}

#[test]
fn tag_filter_is_required() {
    assert_eq!(compile("tag:rust"), bool_query(r#"{"term": {"tag": "rust"}}"#, "", ""));
}

#[test]
fn negated_tag_filter_is_excluded() {
    assert_eq!(compile("not:tag:rust"), bool_query("", r#"{"term": {"tag": "rust"}}"#, ""));
}

#[test]
fn quoted_word_is_exact() {
    assert_eq!(compile("\"rust\""), bool_query("", "", &exact_fanout("rust")));
    assert_ne!(compile("\"rust\""), compile("rust"));
}

#[test]
fn quoted_phrase_matches_title_and_body() {
    assert_eq!(
        compile("'a b'"),
        bool_query(
            "",
            "",
            r#"{"phrase": {"title": {"terms": ["a", "b"]}}}, {"phrase": {"body": {"terms": ["a", "b"]}}}"#
        )
    );
}

#[test]
fn parsing_twice_gives_the_same_query() {
    let raw = "not:'x y' tag:z \"w\" v";
    assert_eq!(QueryParser::new(raw).parse(), QueryParser::new(raw).parse());
    assert_eq!(
        QueryParser::new(raw).parse().to_json(),
        QueryParser::new(raw).parse().to_json()
    );
    assert_ne!(QueryParser::new(raw).parse(), QueryParser::new("not:'x y' tag:z").parse());
    assert_ne!(QueryParser::new("\"v\"").parse(), QueryParser::new("v").parse());
}

#[test]
fn empty_quotes_add_nothing() {
    let q = QueryParser::new("\"\"").parse();
    assert!(q.is_empty());
    assert_eq!(compile("\"\"  hello"), compile("hello"));
    assert_eq!(compile("hello \"\""), compile("hello"));
    assert_eq!(compile("not:'' hello"), compile("hello"));
    assert_eq!(compile("tag:\"\" hello"), compile("hello"));
}

#[test]
fn empty_input_is_an_empty_query() {
    assert!(QueryParser::new("").parse().is_empty());
    assert!(QueryParser::new("   \t\n").parse().is_empty());
    assert!(!QueryParser::new("x").parse().is_empty());
}

#[test]
fn unterminated_quote_closes_at_end() {
    assert_eq!(
        compile("\"two words"),
        bool_query(
            "",
            "",
            r#"{"phrase": {"title": {"terms": ["two", "words"]}}}, {"phrase": {"body": {"terms": ["two", "words"]}}}"#
        )
    );
}

#[test]
fn mismatched_quote_stops_with_what_came_before() {
    assert_eq!(compile("hello 'abc\" world"), bool_query("", "", &word_fanout("hello")));
}

#[test]
fn error_token_stops_with_what_came_before() {
    assert_eq!(compile("hello foo:bar world"), compile("hello foo"));
    assert_eq!(compile(":hello"), bool_query("", "", ""));
}

#[test]
fn trailing_negation_and_doubled_negation_are_skipped() {
    assert_eq!(compile("hello not:"), compile("hello"));
    assert_eq!(compile("not:not:hello"), compile("hello"));
}

#[test]
fn tag_without_term_stops() {
    assert_eq!(compile("hello tag:"), compile("hello"));
    assert_eq!(compile("tag: hello"), bool_query(r#"{"term": {"tag": "hello"}}"#, "", ""));
}

#[test]
fn long_pathological_input_terminates() {
    let raw = "not:".repeat(5000) + &"'".repeat(5000) + &" \"\"".repeat(5000);
    let q = QueryParser::new(&raw).parse();
    assert!(q.is_empty());
}

#[test]
fn words_are_escaped_on_the_wire() {
    assert_eq!(compile("a\\b"), bool_query("", "", &word_fanout("a\\\\b")));
}

#[test]
fn builder_keeps_insertion_order_and_modifiers() {
    let q = BoolQueryBuilder::new()
        .must(ExactQueryBuilder::new().with_field("tag".to_owned()).with_term("a".to_owned()).build())
        .must(ExactQueryBuilder::new().with_field("tag".to_owned()).with_term("b".to_owned()).build())
        .should(
            PhraseQueryBuilder::new()
                .with_field("title".to_owned())
                .with_term("x".to_owned())
                .with_terms(vec!["y".to_owned(), "z".to_owned()])
                .build(),
        )
        .minimum_should_match(3)
        .build();
    assert!(!q.is_empty());
    let v: Value = serde_json::from_str(&q.to_json()).unwrap();
    assert_eq!(
        v,
        json(
            r#"{"bool": {"must": [{"term": {"tag": "a"}}, {"term": {"tag": "b"}}],
                "must_not": [],
                "should": [{"phrase": {"title": {"terms": ["x", "y", "z"]}}}],
                "minimum_should_match": 3, "boost": null}}"#
        )
    );
}
