//! Statistic actions.

use vstd::prelude::*;
use crate::endpoints::request::Request;
use crate::json::{
    decimal, decimal_int, json_view, json_view_seq, lemma_json_view_seq, u64_array_json,
    u64_array_view, u64_to_decimal, Json, JsonView,
};
use crate::models::card_review::{CardReview, CardReviewTuple};

verus! {

/// Corresponds to the `getNumCardsReviewedToday` action.
#[derive(Default)]
pub struct GetNumCardsReviewedToday;

impl Request for GetNumCardsReviewedToday {
    open spec fn spec_action(&self) -> Seq<char> {
        "getNumCardsReviewedToday"@
    }

    fn get_action(&self) -> (r: &'static str) {
        "getNumCardsReviewedToday"
    }

    fn get_params(&self) -> (r: Option<Json>) {
        None
    }
}

/// Corresponds to the `getNumCardsReviewedByDay` action.
#[derive(Default)]
pub struct GetNumCardsReviewedByDay;

impl Request for GetNumCardsReviewedByDay {
    open spec fn spec_action(&self) -> Seq<char> {
        "getNumCardsReviewedByDay"@
    }

    fn get_action(&self) -> (r: &'static str) {
        "getNumCardsReviewedByDay"
    }

    fn get_params(&self) -> (r: Option<Json>) {
        None
    }
}

/// Corresponds to the `getCollectionStatsHTML` action.
pub struct GetCollectionStatsHtml {
    /// Whether the whole collection should be covered; when unset no
    /// parameters are sent at all.
    pub whole_collection: Option<bool>,
}

impl GetCollectionStatsHtml {
    pub fn new(whole_collection: Option<bool>) -> (r: Self)
        ensures
            r.whole_collection == whole_collection,
    {
        Self { whole_collection }
    }
}

impl Default for GetCollectionStatsHtml {
    fn default() -> (r: Self)
        ensures
            r.whole_collection is None,
    {
        Self::new(None)
    }
}

impl Request for GetCollectionStatsHtml {
    open spec fn spec_action(&self) -> Seq<char> {
        "getCollectionStatsHTML"@
    }

    open spec fn spec_params(&self) -> Option<JsonView> {
        match self.whole_collection {
            Some(b) => Some(JsonView::Object(seq![("wholeCollection"@, JsonView::Bool(b))])),
            None => None,
        }
    }

    fn get_action(&self) -> (r: &'static str) {
        "getCollectionStatsHTML"
    }

    fn get_params(&self) -> (r: Option<Json>) {
        match &self.whole_collection {
            Some(b) => Some(Json::object1("wholeCollection", Json::Bool(*b))),
            None => None,
        }
    }
}

/// Corresponds to the `cardReviews` action.
pub struct CardReviews {
    pub deck: String,
    pub start_id: u64,
}

impl CardReviews {
    pub fn new(deck: String, start_id: u64) -> (r: Self)
        ensures
            r.deck == deck,
            r.start_id == start_id,
    {
        Self { deck, start_id }
    }
}

impl Request for CardReviews {
    open spec fn spec_action(&self) -> Seq<char> {
        "cardReviews"@
    }

    open spec fn spec_params(&self) -> Option<JsonView> {
        Some(
            JsonView::Object(
                seq![
                    ("deck"@, JsonView::Text(self.deck@)),
                    ("startID"@, JsonView::Num(decimal(self.start_id as nat))),
                ],
            ),
        )
    }

    fn get_action(&self) -> (r: &'static str) {
        "cardReviews"
    }

    fn get_params(&self) -> (r: Option<Json>) {
        Some(
            Json::object2(
                "deck",
                Json::Text(self.deck.clone()),
                "startID",
                Json::Num(u64_to_decimal(self.start_id)),
            ),
        )
    }
}

/// Corresponds to the `getReviewsOfCards` action.
pub struct GetReviewsOfCards {
    /// Card IDs.
    pub cards: Vec<u64>,
}

impl GetReviewsOfCards {
    pub fn new(cards: Vec<u64>) -> (r: GetReviewsOfCards)
        ensures
            r.cards == cards,
    {
        GetReviewsOfCards { cards }
    }
}

impl Request for GetReviewsOfCards {
    open spec fn spec_action(&self) -> Seq<char> {
        "getReviewsOfCards"@
    }

    open spec fn spec_params(&self) -> Option<JsonView> {
        Some(JsonView::Object(seq![("cards"@, u64_array_view(self.cards@))]))
    }

    fn get_action(&self) -> (r: &'static str) {
        "getReviewsOfCards"
    }

    fn get_params(&self) -> (r: Option<Json>) {
        Some(Json::object1("cards", u64_array_json(&self.cards)))
    }
}

/// Corresponds to the `getLatestReviewID` action.
pub struct GetLatestReviewId {
    pub deck: String,
}

impl GetLatestReviewId {
    pub fn new(deck: String) -> (r: Self)
        ensures
            r.deck == deck,
    {
        Self { deck }
    }
}

impl Request for GetLatestReviewId {
    open spec fn spec_action(&self) -> Seq<char> {
        "getLatestReviewID"@
    }

    open spec fn spec_params(&self) -> Option<JsonView> {
        Some(JsonView::Object(seq![("deck"@, JsonView::Text(self.deck@))]))
    }

    fn get_action(&self) -> (r: &'static str) {
        "getLatestReviewID"
    }

    fn get_params(&self) -> (r: Option<Json>) {
        Some(Json::object1("deck", Json::Text(self.deck.clone())))
    }
}

/// The JSON array a review tuple serializes to: its nine numbers in
/// order.
pub open spec fn review_tuple_json(t: CardReviewTuple) -> JsonView {
    JsonView::Array(
        seq![
            JsonView::Num(decimal_int(t.0 as int)),
            JsonView::Num(decimal_int(t.1 as int)),
            JsonView::Num(decimal_int(t.2 as int)),
            JsonView::Num(decimal(t.3 as nat)),
            JsonView::Num(decimal_int(t.4 as int)),
            JsonView::Num(decimal_int(t.5 as int)),
            JsonView::Num(decimal(t.6 as nat)),
            JsonView::Num(decimal(t.7 as nat)),
            JsonView::Num(decimal(t.8 as nat)),
        ],
    )
}

/// Corresponds to the `insertReviews` action.
pub struct InsertReviews {
    pub reviews: Vec<CardReviewTuple>,
}

impl InsertReviews {
    pub fn new(reviews: Vec<CardReviewTuple>) -> (r: Self)
        ensures
            r.reviews == reviews,
    {
        InsertReviews { reviews }
    }

    /// Collect the reviews into wire-format tuples.
    pub fn new_from(reviews: &Vec<CardReview>) -> (r: Self)
        ensures
            r.reviews@.len() == reviews@.len(),
            forall|k: int| 0 <= k < reviews@.len() ==> #[trigger] r.reviews@[k] == (
                reviews@[k].id,
                reviews@[k].card_id,
                reviews@[k].usn,
                reviews@[k].ease,
                reviews@[k].new_interval,
                reviews@[k].last_interval,
                reviews@[k].new_factor,
                reviews@[k].review_duration,
                reviews@[k].review_type,
            ),
    {
        let mut tuples: Vec<CardReviewTuple> = Vec::new();
        let mut i: usize = 0;
        while i < reviews.len()
            invariant
                i <= reviews.len(),
                tuples@.len() == i,
                forall|k: int| 0 <= k < i ==> #[trigger] tuples@[k] == (
                    reviews@[k].id,
                    reviews@[k].card_id,
                    reviews@[k].usn,
                    reviews@[k].ease,
                    reviews@[k].new_interval,
                    reviews@[k].last_interval,
                    reviews@[k].new_factor,
                    reviews@[k].review_duration,
                    reviews@[k].review_type,
                ),
            decreases reviews.len() - i,
        {
            tuples.push(reviews[i].as_tuple());
            i = i + 1;
        }
        InsertReviews { reviews: tuples }
    }
}

impl Default for InsertReviews {
    fn default() -> (r: Self)
        ensures
            r.reviews@ == Seq::<CardReviewTuple>::empty(),
    {
        Self { reviews: Vec::new() }
    }
}

impl Request for InsertReviews {
    open spec fn spec_action(&self) -> Seq<char> {
        "insertReviews"@
    }

    open spec fn spec_params(&self) -> Option<JsonView> {
        Some(
            JsonView::Object(
                seq![
                    (
                        "reviews"@,
                        JsonView::Array(
                            Seq::new(
                                self.reviews@.len(),
                                |i: int| review_tuple_json(self.reviews@[i]),
                            ),
                        ),
                    ),
                ],
            ),
        )
    }

    fn get_action(&self) -> (r: &'static str) {
        "insertReviews"
    }

    fn get_params(&self) -> (r: Option<Json>) {
        let mut elems: Vec<Json> = Vec::new();
        let mut i: usize = 0;
        while i < self.reviews.len()
            invariant
                i <= self.reviews.len(),
                elems@.len() == i,
                forall|k: int| 0 <= k < i ==> #[trigger] json_view(elems@[k])
                    == review_tuple_json(self.reviews@[k]),
            decreases self.reviews.len() - i,
        {
            let review = CardReview::from_tuple(&self.reviews[i]);
            elems.push(review.to_json());
            i = i + 1;
        }
        proof {
            lemma_json_view_seq(elems@);
            assert(json_view_seq(elems@) =~= Seq::new(
                self.reviews@.len(),
                |i: int| review_tuple_json(self.reviews@[i]),
            ));
        }
        Some(Json::object1("reviews", Json::Array(elems)))
    }
}

} // verus!
