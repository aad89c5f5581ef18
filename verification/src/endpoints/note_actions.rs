//! Note actions.

use vstd::prelude::*;
use crate::endpoints::request::Request;
use crate::json::{u64_array_json, u64_array_view, Json, JsonView};

verus! {

/// Corresponds to the `addTags` action.
/// `notes` are note IDs; `tags` are the tags to add, separated by
/// spaces.
pub struct AddTags {
    pub notes: Vec<u64>,
    pub tags: String,
}

impl AddTags {
    pub fn new(notes: Vec<u64>, tags: String) -> (r: Self)
        ensures
            r.notes == notes,
            r.tags == tags,
    {
        Self { notes, tags }
    }
}

impl Request for AddTags {
    open spec fn spec_action(&self) -> Seq<char> {
        "addTags"@
    }

    open spec fn spec_params(&self) -> Option<JsonView> {
        Some(
            JsonView::Object(
                seq![("notes"@, u64_array_view(self.notes@)), ("tags"@, JsonView::Text(self.tags@))],
            ),
        )
    }

    fn get_action(&self) -> (r: &'static str) {
        "addTags"
    }

    fn get_params(&self) -> (r: Option<Json>) {
        Some(
            Json::object2(
                "notes",
                u64_array_json(&self.notes),
                "tags",
                Json::Text(self.tags.clone()),
            ),
        )
    }
}

/// Corresponds to the `removeTags` action.
/// `notes` are note IDs; `tags` are the tags to remove, separated by
/// spaces.
pub struct RemoveTags {
    pub notes: Vec<u64>,
    pub tags: String,
}

impl Request for RemoveTags {
    open spec fn spec_action(&self) -> Seq<char> {
        "removeTags"@
    }

    open spec fn spec_params(&self) -> Option<JsonView> {
        Some(
            JsonView::Object(
                seq![("notes"@, u64_array_view(self.notes@)), ("tags"@, JsonView::Text(self.tags@))],
            ),
        )
    }

    fn get_action(&self) -> (r: &'static str) {
        "removeTags"
    }

    fn get_params(&self) -> (r: Option<Json>) {
        Some(
            Json::object2(
                "notes",
                u64_array_json(&self.notes),
                "tags",
                Json::Text(self.tags.clone()),
            ),
        )
    }
}

/// Corresponds to the `findNotes` action.
/// Returns note IDs for notes that match the given query.
pub struct FindNotes {
    pub query: String,
}

impl Request for FindNotes {
    open spec fn spec_action(&self) -> Seq<char> {
        "findNotes"@
    }

    open spec fn spec_params(&self) -> Option<JsonView> {
        Some(JsonView::Object(seq![("query"@, JsonView::Text(self.query@))]))
    }

    fn get_action(&self) -> (r: &'static str) {
        "findNotes"
    }

    fn get_params(&self) -> (r: Option<Json>) {
        Some(Json::object1("query", Json::Text(self.query.clone())))
    }
}

} // verus!
