use ankiconnect::client::encode_request;
use ankiconnect::endpoints::{FindCards, Version};
use ankiconnect::json::{i64_to_decimal, u64_to_decimal, Json};
use ankiconnect::models::RequestBody;

#[test]
fn encode_request_with_params() {
    let request = FindCards::new("is:due".to_string());
    let text = encode_request(&request);
    assert_eq!(
        text,
        "{\"action\":\"findCards\",\"version\":6,\"params\":{\"query\":\"is:due\"}}"
    );
}

#[test]
fn encode_request_without_params_omits_the_key() {
    let request = Version;
    let text = encode_request(&request);
    assert_eq!(text, "{\"action\":\"version\",\"version\":6}");
    assert!(!text.contains("params"));
}

#[test]
fn params_presence_changes_the_serialized_length() {
    let with = RequestBody::with_params("a".to_string(), 6, Json::Null)
        .to_json()
        .to_text();
    let without = RequestBody::without_params("a".to_string(), 6).to_json().to_text();
    assert!(with.len() > without.len());
    assert_eq!(without, "{\"action\":\"a\",\"version\":6}");
    assert_eq!(with, "{\"action\":\"a\",\"version\":6,\"params\":null}");
}

#[test]
fn serialized_requests_parse_back_as_json() {
    let request = FindCards::new("deck:\"My Deck\" is:due".to_string());
    let text = encode_request(&request);
    let value: serde_json::Value = serde_json::from_str(&text).unwrap();
    assert_eq!(value["action"], serde_json::Value::String("findCards".to_string()));
    assert_eq!(value["version"], serde_json::Value::Number(6.into()));
    assert_eq!(
        value["params"]["query"],
        serde_json::Value::String("deck:\"My Deck\" is:due".to_string())
    );
}

#[test]
fn json_text_escapes_strings() {
    let value = Json::Text("a\"b\\c\nd\u{1}".to_string());
    assert_eq!(value.to_text(), "\"a\\\"b\\\\c\\nd\\u0001\"");
}

#[test]
fn json_text_nested_value() {
    let value = Json::Object(vec![
        ("xs".to_string(), Json::Array(vec![Json::Null, Json::Bool(false)])),
        ("n".to_string(), Json::Num("-12.5e3".to_string())),
    ]);
    assert_eq!(value.to_text(), "{\"xs\":[null,false],\"n\":-12.5e3}");
}

#[test]
fn json_text_agrees_with_a_reference_parser() {
    let value = Json::Object(vec![
        ("tab\there".to_string(), Json::Text("line\r\nbreak".to_string())),
        ("empty".to_string(), Json::Object(vec![])),
    ]);
    let parsed: serde_json::Value = serde_json::from_str(&value.to_text()).unwrap();
    assert_eq!(parsed["tab\there"], serde_json::Value::String("line\r\nbreak".to_string()));
    assert!(parsed["empty"].as_object().unwrap().is_empty());
}

#[test]
fn decimal_texts_are_exact() {
    assert_eq!(u64_to_decimal(0), "0");
    assert_eq!(u64_to_decimal(7), "7");
    assert_eq!(u64_to_decimal(1234567890), "1234567890");
    assert_eq!(u64_to_decimal(u64::MAX), "18446744073709551615");
    assert_eq!(i64_to_decimal(-5), "-5");
    assert_eq!(i64_to_decimal(42), "42");
    assert_eq!(i64_to_decimal(i64::MIN), "-9223372036854775808");
}
