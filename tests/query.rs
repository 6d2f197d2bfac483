use common::search::query::FuzzyQueryBuilder;
use serde_json::Value;

#[test]
fn test_ser_fuzzy() {
    let q = FuzzyQueryBuilder::new()
        .with_field("test_text".to_owned())
        .with_term("document".to_owned())
        .build();

    let s = q.to_json();
    let js_value: Value = serde_json::from_str(s.as_ref()).unwrap();

    let expected: Value = serde_json::from_str(
        r#"{
            "fuzzy": {
                "test_text": {
                    "value": "document",
                    "distance": 0,
                    "transposition": false
                }
            }
        }"#,
    )
    .unwrap();
    assert_eq!(js_value, expected);
}
