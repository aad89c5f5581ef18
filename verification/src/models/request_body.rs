//! The request envelope: `{ "action": ..., "version": ..., "params": ... }`,
//! with the `params` key omitted entirely — not emitted as null — when no
//! parameters were supplied.

use vstd::prelude::*;
use crate::json::{
    decimal, digits_value, first_field_value, has_field, json_view, json_view_entries,
    lemma_decimal_value, lemma_json_view_entries, u64_to_decimal, Json, JsonView,
};

verus! {

/// The JSON object that a request envelope serializes to: the action
/// name, the protocol version as a number, and — only when parameters
/// were supplied — the parameters value under `params`.
pub open spec fn request_json(
    action: Seq<char>,
    version: u64,
    params: Option<JsonView>,
) -> JsonView {
    match params {
        Some(p) => JsonView::Object(
            seq![
                ("action"@, JsonView::Text(action)),
                ("version"@, JsonView::Num(decimal(version as nat))),
                ("params"@, p),
            ],
        ),
        None => JsonView::Object(
            seq![
                ("action"@, JsonView::Text(action)),
                ("version"@, JsonView::Num(decimal(version as nat))),
            ],
        ),
    }
}

/// A request envelope: an action name, a protocol version, and optional
/// parameters.
pub struct RequestBody {
    /// The action to invoke.
    pub action: String,
    /// The protocol version to claim.
    pub version: u64,
    /// The parameters to pass, or nothing for the `params` key to be
    /// omitted.
    pub params: Option<Json>,
}

impl RequestBody {
    /// The JSON object this envelope serializes to.
    pub open spec fn spec_json(&self) -> JsonView {
        request_json(self.action@, self.version, self.params.deep_view())
    }

    /// An envelope without parameters; its serialization has no `params`
    /// key.
    pub fn without_params(action: String, version: u64) -> (r: RequestBody)
        ensures
            r.action == action,
            r.version == version,
            r.params is None,
    {
        RequestBody { action, version, params: None }
    }

    /// An envelope carrying parameters.
    pub fn with_params(action: String, version: u64, params: Json) -> (r: RequestBody)
        ensures
            r.action == action,
            r.version == version,
            r.params == Some(params),
    {
        RequestBody { action, version, params: Some(params) }
    }

    /// Build the JSON object of this envelope.
    pub fn to_json(self) -> (r: Json)
        ensures
            json_view(r) == self.spec_json(),
    {
        let ghost params_view = self.params.deep_view();
        let mut fields: Vec<(String, Json)> = Vec::new();
        fields.push((String::from_str("action"), Json::Text(self.action)));
        fields.push((String::from_str("version"), Json::Num(u64_to_decimal(self.version))));
        match self.params {
            Some(p) => fields.push((String::from_str("params"), p)),
            None => {},
        }
        proof {
            lemma_json_view_entries(fields@);
            if params_view is Some {
                assert(json_view_entries(fields@) =~= seq![
                    ("action"@, JsonView::Text(self.action@)),
                    ("version"@, JsonView::Num(decimal(self.version as nat))),
                    ("params"@, params_view->0),
                ]);
            } else {
                assert(json_view_entries(fields@) =~= seq![
                    ("action"@, JsonView::Text(self.action@)),
                    ("version"@, JsonView::Num(decimal(self.version as nat))),
                ]);
            }
        }
        Json::Object(fields)
    }
}

/// Reading a built request envelope gives back what it was built from:
/// the action under `action`, the version's digits under `version`, the
/// parameters under `params` exactly when parameters were supplied — and
/// no `params` key at all when they were not.
pub proof fn lemma_request_round_trip(action: Seq<char>, version: u64, params: Option<JsonView>)
    ensures
        request_json(action, version, params) matches JsonView::Object(entries) && {
            &&& first_field_value(entries, "action"@) == Some(JsonView::Text(action))
            &&& first_field_value(entries, "version"@) == Some(
                JsonView::Num(decimal(version as nat)),
            )
            &&& digits_value(decimal(version as nat)) == version
            &&& (params matches Some(p) ==> first_field_value(entries, "params"@) == Some(p))
            &&& (params is None ==> !has_field(entries, "params"@))
        },
{
    lemma_decimal_value(version as nat);
    reveal_strlit("action");
    reveal_strlit("version");
    reveal_strlit("params");
    reveal_with_fuel(first_field_value, 4);
    assert("action"@.len() == 6);
    assert("version"@.len() == 7);
    assert("params"@.len() == 6);
    assert("action"@ != "version"@);
    assert("action"@[0] == 'a' && "params"@[0] == 'p');
    assert("action"@ != "params"@);
    assert("version"@ != "params"@);
    let entries = request_json(action, version, params)->Object_0;
    let action_pair = ("action"@, JsonView::Text(action));
    let version_pair = ("version"@, JsonView::Num(decimal(version as nat)));
    match params {
        Some(p) => {
            assert(entries =~= seq![action_pair, version_pair, ("params"@, p)]);
            assert(entries.drop_first() =~= seq![version_pair, ("params"@, p)]);
            assert(entries.drop_first().drop_first() =~= seq![("params"@, p)]);
            assert(first_field_value(entries, "action"@) == Some(JsonView::Text(action)));
            assert(first_field_value(entries, "version"@) == Some(version_pair.1));
            assert(first_field_value(entries, "params"@) == Some(p));
        },
        None => {
            assert(entries =~= seq![action_pair, version_pair]);
            assert(entries.drop_first() =~= seq![version_pair]);
            assert(first_field_value(entries, "action"@) == Some(JsonView::Text(action)));
            assert(first_field_value(entries, "version"@) == Some(version_pair.1));
            assert forall|i: int| 0 <= i < entries.len() implies entries[i].0 != "params"@ by {
                if i == 0 {
                    assert(entries[0].0 == "action"@);
                } else {
                    assert(entries[1].0 == "version"@);
                }
            }
            assert(!has_field(entries, "params"@));
        },
    }
}

} // verus!
