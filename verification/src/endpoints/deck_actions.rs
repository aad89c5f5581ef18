//! Deck actions.

use vstd::prelude::*;
use crate::endpoints::request::Request;
use crate::json::{
    text_array_json, text_array_view, u64_array_json, u64_array_view, Json, JsonView,
};

verus! {

/// Corresponds to the `deckNames` action.
#[derive(Default)]
pub struct DeckNames;

impl Request for DeckNames {
    open spec fn spec_action(&self) -> Seq<char> {
        "deckNames"@
    }

    fn get_action(&self) -> (r: &'static str) {
        "deckNames"
    }

    fn get_params(&self) -> (r: Option<Json>) {
        None
    }
}

/// Corresponds to the `deckNamesAndIds` action.
#[derive(Default)]
pub struct DeckNamesAndIds;

impl Request for DeckNamesAndIds {
    open spec fn spec_action(&self) -> Seq<char> {
        "deckNamesAndIds"@
    }

    fn get_action(&self) -> (r: &'static str) {
        "deckNamesAndIds"
    }

    fn get_params(&self) -> (r: Option<Json>) {
        None
    }
}

/// Corresponds to the `getDecks` action.
pub struct GetDecks {
    pub cards: Vec<u64>,
}

impl GetDecks {
    fn new(cards: Vec<u64>) -> (r: Self)
        ensures
            r.cards == cards,
    {
        Self { cards }
    }
}

impl Default for GetDecks {
    fn default() -> (r: Self)
        ensures
            r.cards@ == Seq::<u64>::empty(),
    {
        Self::new(Vec::new())
    }
}

impl Request for GetDecks {
    open spec fn spec_action(&self) -> Seq<char> {
        "getDecks"@
    }

    open spec fn spec_params(&self) -> Option<JsonView> {
        Some(JsonView::Object(seq![("cards"@, u64_array_view(self.cards@))]))
    }

    fn get_action(&self) -> (r: &'static str) {
        "getDecks"
    }

    fn get_params(&self) -> (r: Option<Json>) {
        Some(Json::object1("cards", u64_array_json(&self.cards)))
    }
}

/// Corresponds to the `createDeck` action.
pub struct CreateDeck {
    /// Name of deck.
    pub deck: String,
}

impl CreateDeck {
    pub fn new(deck: String) -> (r: Self)
        ensures
            r.deck == deck,
    {
        Self { deck }
    }
}

impl Request for CreateDeck {
    open spec fn spec_action(&self) -> Seq<char> {
        "createDeck"@
    }

    open spec fn spec_params(&self) -> Option<JsonView> {
        Some(JsonView::Object(seq![("deck"@, JsonView::Text(self.deck@))]))
    }

    fn get_action(&self) -> (r: &'static str) {
        "createDeck"
    }

    fn get_params(&self) -> (r: Option<Json>) {
        Some(Json::object1("deck", Json::Text(self.deck.clone())))
    }
}

/// Corresponds to the `changeDeck` action.
pub struct ChangeDeck {
    /// Card IDs to move.
    pub cards: Vec<u64>,
    /// Name of deck to move them to.
    pub deck: String,
}

impl ChangeDeck {
    pub fn new(cards: Vec<u64>, deck: String) -> (r: Self)
        ensures
            r.cards == cards,
            r.deck == deck,
    {
        Self { cards, deck }
    }
}

impl Request for ChangeDeck {
    open spec fn spec_action(&self) -> Seq<char> {
        "changeDeck"@
    }

    open spec fn spec_params(&self) -> Option<JsonView> {
        Some(
            JsonView::Object(
                seq![("cards"@, u64_array_view(self.cards@)), ("deck"@, JsonView::Text(self.deck@))],
            ),
        )
    }

    fn get_action(&self) -> (r: &'static str) {
        "changeDeck"
    }

    fn get_params(&self) -> (r: Option<Json>) {
        Some(
            Json::object2(
                "cards",
                u64_array_json(&self.cards),
                "deck",
                Json::Text(self.deck.clone()),
            ),
        )
    }
}

/// Corresponds to the `deleteDecks` action.
pub struct DeleteDecks {
    /// Names of decks.
    pub decks: Vec<String>,
}

impl DeleteDecks {
    pub fn new(decks: Vec<String>) -> (r: Self)
        ensures
            r.decks == decks,
    {
        Self { decks }
    }

    /// Delete a single deck.
    pub fn single(deck: String) -> (r: Self)
        ensures
            r.decks@.len() == 1,
            r.decks@[0] == deck,
    {
        let mut decks: Vec<String> = Vec::new();
        decks.push(deck);
        Self::new(decks)
    }
}

impl Request for DeleteDecks {
    open spec fn spec_action(&self) -> Seq<char> {
        "deleteDecks"@
    }

    open spec fn spec_params(&self) -> Option<JsonView> {
        Some(JsonView::Object(seq![("decks"@, text_array_view(self.decks.deep_view()))]))
    }

    fn get_action(&self) -> (r: &'static str) {
        "deleteDecks"
    }

    fn get_params(&self) -> (r: Option<Json>) {
        Some(Json::object1("decks", text_array_json(&self.decks)))
    }
}

/// Corresponds to the `getDeckStats` action.
pub struct GetDeckStats {
    /// Deck names.
    pub decks: Vec<String>,
}

impl GetDeckStats {
    pub fn new(decks: Vec<String>) -> (r: Self)
        ensures
            r.decks == decks,
    {
        Self { decks }
    }

    /// Statistics for a single deck.
    pub fn single(deck: String) -> (r: Self)
        ensures
            r.decks@.len() == 1,
            r.decks@[0] == deck,
    {
        let mut decks: Vec<String> = Vec::new();
        decks.push(deck);
        Self::new(decks)
    }
}

impl Default for GetDeckStats {
    fn default() -> (r: Self)
        ensures
            r.decks@ == Seq::<String>::empty(),
    {
        Self::new(Vec::new())
    }
}

impl Request for GetDeckStats {
    open spec fn spec_action(&self) -> Seq<char> {
        "getDeckStats"@
    }

    open spec fn spec_params(&self) -> Option<JsonView> {
        Some(JsonView::Object(seq![("decks"@, text_array_view(self.decks.deep_view()))]))
    }

    fn get_action(&self) -> (r: &'static str) {
        "getDeckStats"
    }

    fn get_params(&self) -> (r: Option<Json>) {
        Some(Json::object1("decks", text_array_json(&self.decks)))
    }
}

} // verus!
