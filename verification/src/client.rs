//! The computing half of a client invocation: build the request
//! envelope's JSON text, and decode the response body's text into the
//! payload or an error.
//!
//! The HTTP transport itself lives outside this library; it hands the
//! response body in as text and takes the request body out as text.

use vstd::prelude::*;
use crate::endpoints::request::{Request, DEFAULT_API_VERSION};
use crate::error::{Error, ErrorView};
use crate::json::{json_text, json_view, Json, JsonView};
use crate::models::request_body::{request_json, RequestBody};
use crate::models::response_body::{decode, decode_view, ResponseBodyView};

verus! {

#[verifier::external_type_specification]
#[verifier::external_body]
pub struct ExValue(serde_json::Value);

/// What parsing a text as one JSON document yields: the document in the
/// library's representation, or nothing when the text is not JSON.  The
/// result is a function of the text alone.
pub uninterp spec fn json_parse(text: Seq<char>) -> Option<JsonView>;

/// Relies on serde_json's value model: the same document, moved into
/// the library's own representation, with a number carried as its
/// literal text.
#[verifier::external_body]
fn json_from_value(v: serde_json::Value) -> Json {
    match v {
        serde_json::Value::Null => Json::Null,
        serde_json::Value::Bool(b) => Json::Bool(b),
        serde_json::Value::Number(n) => Json::Num(n.to_string()),
        serde_json::Value::String(s) => Json::Text(s),
        serde_json::Value::Array(a) => Json::Array(a.into_iter().map(json_from_value).collect()),
        serde_json::Value::Object(o) => Json::Object(
            o.into_iter().map(|(k, v)| (k, json_from_value(v))).collect(),
        ),
    }
}

/// Relies on serde_json::from_str: the text parses as one JSON document
/// or fails, and which of the two — and the document itself — depends
/// on the text alone.
#[verifier::external_body]
fn parse_json(text: &str) -> (r: Result<Json, String>)
    ensures
        match r {
            Ok(j) => json_parse(text@) == Some(json_view(j)),
            Err(_) => json_parse(text@) is None,
        },
{
    match serde_json::from_str::<serde_json::Value>(text) {
        Ok(v) => Ok(json_from_value(v)),
        Err(e) => Err(e.to_string()),
    }
}

/// Decode a raw response body: parse the text as JSON, decode the
/// two-field envelope, and hand back the success payload — or the error
/// saying exactly what went wrong: text that is not JSON, an envelope
/// of the wrong shape, or a failure the server reported.
pub fn decode_response(text: &str) -> (r: Result<Json, Error>)
    ensures
        match json_parse(text@) {
            None => r matches Err(e) && e.deep_view() is Parse,
            Some(m) => match decode_view(m) {
                Err(se) => r matches Err(e) && e.deep_view() == ErrorView::Envelope(se),
                Ok(ResponseBodyView::Failure(msg)) => r matches Err(e) && e.deep_view()
                    == ErrorView::Normal(msg),
                Ok(ResponseBodyView::Success(payload)) => r matches Ok(j) && json_view(j)
                    == payload,
            },
        },
{
    let parsed = match parse_json(text) {
        Ok(j) => j,
        Err(m) => { return Err(Error::Parse(m)) },
    };
    let body = match decode(parsed) {
        Ok(b) => b,
        Err(se) => { return Err(Error::Envelope(se)) },
    };
    match body.into_result() {
        Ok(payload) => Ok(payload),
        Err(m) => Err(Error::Normal(m)),
    }
}

/// Build the request envelope for an action: its name, the default
/// protocol version, and its parameters when it has any.
pub fn build_request<R: Request>(request: &R) -> (b: RequestBody)
    ensures
        b.action@ == request.spec_action(),
        b.version == DEFAULT_API_VERSION,
        b.params.deep_view() == request.spec_params(),
{
    let action = String::from_str(request.get_action());
    let version = request.get_version();
    match request.get_params() {
        Some(params) => RequestBody::with_params(action, version, params),
        None => RequestBody::without_params(action, version),
    }
}

/// The JSON text of an action's request envelope.
pub fn encode_request<R: Request>(request: &R) -> (s: String)
    ensures
        s@ == json_text(
            request_json(request.spec_action(), DEFAULT_API_VERSION, request.spec_params()),
        ),
{
    build_request(request).to_json().to_text()
}

} // verus!
