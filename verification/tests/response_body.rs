use ankiconnect::error::{Error, StructuralError};
use ankiconnect::json::Json;
use ankiconnect::client::decode_response;
use ankiconnect::models::response_body::{decode, ResponseBody};

fn obj(pairs: Vec<(&str, Json)>) -> Json {
    Json::Object(pairs.into_iter().map(|(k, v)| (k.to_string(), v)).collect())
}

#[test]
#[should_panic]
fn deserialize_empty_response_body() {
    let response = obj(vec![]);
    decode(response).unwrap().into_result().unwrap();
}

#[test]
#[should_panic]
fn deserialize_missing_error_in_response_body() {
    let response = obj(vec![("result", Json::Num("123".to_string()))]);
    decode(response).unwrap().into_result().unwrap();
}

#[test]
#[should_panic]
fn deserialize_missing_result_in_response_body() {
    let response = obj(vec![("error", Json::Text("Made up error".to_string()))]);
    decode(response).unwrap().into_result().unwrap();
}

#[test]
#[should_panic]
fn deserialize_stray_key() {
    let response = obj(vec![
        ("error", Json::Text("Made up error".to_string())),
        ("result", Json::Null),
        ("stray", Json::Text("something".to_string())),
    ]);
    decode(response).unwrap().into_result().unwrap();
}

#[test]
fn deserialize_null_and_null_response_body() {
    let response = obj(vec![("error", Json::Null), ("result", Json::Null)]);
    let payload = decode(response).unwrap().into_result().unwrap();
    assert_eq!(payload, Json::Null);
}

#[test]
fn deserialize_error() {
    let response = obj(vec![
        ("error", Json::Text("Made up error".to_string())),
        ("result", Json::Null),
    ]);
    let error = decode(response).unwrap().into_result().unwrap_err();
    assert_eq!(error, "Made up error");
}

#[test]
fn deserialize_result() {
    let response = obj(vec![
        ("error", Json::Null),
        ("result", Json::Text("Made up result".to_string())),
    ]);
    let body = decode(response).unwrap().into_result().unwrap();
    assert_eq!(body, Json::Text("Made up result".to_string()));
}

#[test]
fn missing_error_is_reported_before_missing_result() {
    let result = decode(obj(vec![]));
    assert_eq!(result, Err(StructuralError::MissingField("error".to_string())));
}

#[test]
fn missing_result_with_error_present() {
    let result = decode(obj(vec![("error", Json::Null)]));
    assert_eq!(result, Err(StructuralError::MissingField("result".to_string())));
}

#[test]
fn stray_key_is_named() {
    let result = decode(obj(vec![
        ("error", Json::Null),
        ("result", Json::Null),
        ("stray", Json::Num("1".to_string())),
    ]));
    assert_eq!(result, Err(StructuralError::UnknownField("stray".to_string())));
}

#[test]
fn first_stray_key_wins() {
    let result = decode(obj(vec![
        ("surplus", Json::Null),
        ("error", Json::Null),
        ("stray", Json::Null),
    ]));
    assert_eq!(result, Err(StructuralError::UnknownField("surplus".to_string())));
}

#[test]
fn non_object_roots_are_rejected() {
    let array = Json::Array(vec![
        Json::Num("1".to_string()),
        Json::Num("2".to_string()),
        Json::Num("3".to_string()),
    ]);
    assert_eq!(decode(array), Err(StructuralError::NotAnObject));
    assert_eq!(
        decode(Json::Text("x".to_string())),
        Err(StructuralError::NotAnObject)
    );
    assert_eq!(decode(Json::Null), Err(StructuralError::NotAnObject));
}

#[test]
fn error_value_must_be_null_or_text() {
    let result = decode(obj(vec![
        ("error", Json::Num("5".to_string())),
        ("result", Json::Null),
    ]));
    assert_eq!(result, Err(StructuralError::InvalidErrorValue));
}

#[test]
fn key_order_does_not_matter() {
    let forward = decode(obj(vec![
        ("error", Json::Null),
        ("result", Json::Num("1".to_string())),
    ]));
    let backward = decode(obj(vec![
        ("result", Json::Num("1".to_string())),
        ("error", Json::Null),
    ]));
    assert_eq!(forward, backward);
    assert_eq!(forward, Ok(ResponseBody::Success(Json::Num("1".to_string()))));
}

#[test]
fn repeated_key_keeps_the_last_value() {
    let result = decode(obj(vec![
        ("error", Json::Null),
        ("error", Json::Text("late".to_string())),
        ("result", Json::Null),
    ]));
    assert_eq!(result, Ok(ResponseBody::Failure("late".to_string())));
}

#[test]
fn success_carries_payload_untouched() {
    let payload = Json::Array(vec![Json::Text("hello".to_string()), Json::Bool(true)]);
    let expected = Json::Array(vec![Json::Text("hello".to_string()), Json::Bool(true)]);
    let result = decode(obj(vec![("error", Json::Null), ("result", payload)]));
    assert_eq!(result, Ok(ResponseBody::Success(expected)));
}

#[test]
fn decode_response_success() {
    let body = decode_response("{\"error\":null,\"result\":5}").unwrap();
    assert_eq!(body, Json::Num("5".to_string()));
}

#[test]
fn decode_response_server_failure() {
    let err = decode_response("{\"error\":\"boom\",\"result\":null}").unwrap_err();
    assert_eq!(err, Error::Normal("boom".to_string()));
}

#[test]
fn decode_response_not_json() {
    let err = decode_response("not json at all").unwrap_err();
    assert!(matches!(err, Error::Parse(_)));
}

#[test]
fn decode_response_not_an_object() {
    let err = decode_response("[1,2,3]").unwrap_err();
    assert_eq!(err, Error::Envelope(StructuralError::NotAnObject));
}

#[test]
fn decode_response_string_payload() {
    let body = decode_response("{\"error\":null,\"result\":\"hello\"}").unwrap();
    assert_eq!(body, Json::Text("hello".to_string()));
    match body {
        Json::Text(s) => assert_eq!(s, "hello"),
        _ => panic!("expected a string payload"),
    }
}

#[test]
fn error_messages_name_the_kind() {
    assert_eq!(
        Error::Normal("boom".to_string()).message(),
        "got error response: boom"
    );
    assert_eq!(
        Error::Request("refused".to_string()).message(),
        "error making request: refused"
    );
    assert_eq!(
        Error::Envelope(StructuralError::UnknownField("stray".to_string())).message(),
        "error decoding response envelope: unknown field: stray"
    );
    assert_eq!(
        Error::Envelope(StructuralError::NotAnObject).message(),
        "error decoding response envelope: expected a JSON object"
    );
    assert_eq!(
        Error::Envelope(StructuralError::MissingField("error".to_string())).message(),
        "error decoding response envelope: missing field: error"
    );
    assert_eq!(
        Error::Envelope(StructuralError::InvalidErrorValue).message(),
        "error decoding response envelope: the error field must be null or a string"
    );
    assert_eq!(
        Error::Parse("bad".to_string()).message(),
        "error parsing response: bad"
    );
    assert_eq!(
        Error::Deserialize("bad".to_string()).message(),
        "error deserializing response: bad"
    );
}
