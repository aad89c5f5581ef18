//! Card actions.

use vstd::prelude::*;
use crate::endpoints::request::Request;
use crate::json::{u64_array_json, u64_array_view, Json, JsonView};

verus! {

/// Corresponds to the `getEaseFactors` action.
pub struct GetEaseFactors {
    pub cards: Vec<u64>,
}

impl GetEaseFactors {
    pub fn new(cards: Vec<u64>) -> (r: Self)
        ensures
            r.cards == cards,
    {
        Self { cards }
    }
}

impl Request for GetEaseFactors {
    open spec fn spec_action(&self) -> Seq<char> {
        "getEaseFactors"@
    }

    open spec fn spec_params(&self) -> Option<JsonView> {
        Some(JsonView::Object(seq![("cards"@, u64_array_view(self.cards@))]))
    }

    fn get_action(&self) -> (r: &'static str) {
        "getEaseFactors"
    }

    fn get_params(&self) -> (r: Option<Json>) {
        Some(Json::object1("cards", u64_array_json(&self.cards)))
    }
}

impl Default for GetEaseFactors {
    fn default() -> (r: Self)
        ensures
            r.cards@ == Seq::<u64>::empty(),
    {
        GetEaseFactors::new(Vec::new())
    }
}

/// Corresponds to the `areDue` action.
pub struct AreDue {
    pub cards: Vec<u64>,
}

impl AreDue {
    pub fn new(cards: Vec<u64>) -> (r: Self)
        ensures
            r.cards == cards,
    {
        Self { cards }
    }
}

impl Default for AreDue {
    fn default() -> (r: Self)
        ensures
            r.cards@ == Seq::<u64>::empty(),
    {
        Self::new(Vec::new())
    }
}

impl Request for AreDue {
    open spec fn spec_action(&self) -> Seq<char> {
        "areDue"@
    }

    open spec fn spec_params(&self) -> Option<JsonView> {
        Some(JsonView::Object(seq![("cards"@, u64_array_view(self.cards@))]))
    }

    fn get_action(&self) -> (r: &'static str) {
        "areDue"
    }

    fn get_params(&self) -> (r: Option<Json>) {
        Some(Json::object1("cards", u64_array_json(&self.cards)))
    }
}

/// Corresponds to the `findCards` action.
/// Returns card IDs for cards that match the given query.
pub struct FindCards {
    pub query: String,
}

impl FindCards {
    pub fn new(query: String) -> (r: FindCards)
        ensures
            r.query == query,
    {
        FindCards { query }
    }
}

impl Request for FindCards {
    open spec fn spec_action(&self) -> Seq<char> {
        "findCards"@
    }

    open spec fn spec_params(&self) -> Option<JsonView> {
        Some(JsonView::Object(seq![("query"@, JsonView::Text(self.query@))]))
    }

    fn get_action(&self) -> (r: &'static str) {
        "findCards"
    }

    fn get_params(&self) -> (r: Option<Json>) {
        Some(Json::object1("query", Json::Text(self.query.clone())))
    }
}

impl Default for FindCards {
    fn default() -> (r: Self)
        ensures
            r.query@ == Seq::<char>::empty(),
    {
        FindCards::new(String::new())
    }
}

/// Corresponds to the `cardsToNotes` action.
/// Returns all note IDs corresponding to the given card IDs.
/// The order of elements in the output array is unspecified.
pub struct CardsToNotes {
    pub cards: Vec<u64>,
}

impl CardsToNotes {
    pub fn new(cards: Vec<u64>) -> (r: Self)
        ensures
            r.cards == cards,
    {
        Self { cards }
    }
}

impl Request for CardsToNotes {
    open spec fn spec_action(&self) -> Seq<char> {
        "cardsToNotes"@
    }

    open spec fn spec_params(&self) -> Option<JsonView> {
        Some(JsonView::Object(seq![("cards"@, u64_array_view(self.cards@))]))
    }

    fn get_action(&self) -> (r: &'static str) {
        "cardsToNotes"
    }

    fn get_params(&self) -> (r: Option<Json>) {
        Some(Json::object1("cards", u64_array_json(&self.cards)))
    }
}

/// Corresponds to the `setDueDate` action.
pub struct SetDueDate {
    pub cards: Vec<u64>,
    pub days: String,
}

impl SetDueDate {
    pub fn new(cards: Vec<u64>, days: String) -> (r: Self)
        ensures
            r.cards == cards,
            r.days == days,
    {
        SetDueDate { cards, days }
    }
}

impl Request for SetDueDate {
    open spec fn spec_action(&self) -> Seq<char> {
        "setDueDate"@
    }

    open spec fn spec_params(&self) -> Option<JsonView> {
        Some(
            JsonView::Object(
                seq![("cards"@, u64_array_view(self.cards@)), ("days"@, JsonView::Text(self.days@))],
            ),
        )
    }

    fn get_action(&self) -> (r: &'static str) {
        "setDueDate"
    }

    fn get_params(&self) -> (r: Option<Json>) {
        Some(
            Json::object2(
                "cards",
                u64_array_json(&self.cards),
                "days",
                Json::Text(self.days.clone()),
            ),
        )
    }
}

} // verus!
