//! A single review, or revlog entry.

use vstd::prelude::*;
use crate::json::{
    decimal, decimal_int, i64_to_decimal, json_view, json_view_seq, lemma_json_view_seq,
    u64_to_decimal, Json, JsonView,
};

verus! {

/// Represents a single review, or revlog entry.
/// Field names are based on the documentation for the `insertReviews`
/// action, which may differ from how the fields are named in the
/// server's database or backend code.
#[derive(Copy, Clone, Debug, PartialEq, Eq)]
pub struct CardReview {
    /// The review's ID is also the time it occurred in milliseconds
    /// from UNIX epoch.
    pub id: i64,
    pub card_id: i64,
    pub usn: i32,
    pub ease: u8,
    pub new_interval: i32,
    pub last_interval: i32,
    pub new_factor: u32,
    pub review_duration: u32,
    pub review_type: u8,
}

/// A review as the server reports it when the card is already known, so
/// without the card's ID.
#[derive(Copy, Clone, Debug, PartialEq, Eq)]
pub struct CardReviewWithoutCardId {
    pub id: i64,
    pub usn: i32,
    pub ease: u8,
    pub new_interval: i32,
    pub last_interval: i32,
    pub new_factor: u32,
    pub review_duration: u32,
    pub review_type: u8,
}

/// A review in the order the wire format lists the fields: id, card ID,
/// usn, ease, new interval, last interval, new factor, review duration,
/// review type.
pub type CardReviewTuple = (i64, i64, i32, u8, i32, i32, u32, u32, u8);

impl CardReviewWithoutCardId {
    /// The same review with the card's ID put back in.
    pub fn with_card_id(&self, card_id: i64) -> (r: CardReview)
        ensures
            r.id == self.id,
            r.card_id == card_id,
            r.usn == self.usn,
            r.ease == self.ease,
            r.new_interval == self.new_interval,
            r.last_interval == self.last_interval,
            r.new_factor == self.new_factor,
            r.review_duration == self.review_duration,
            r.review_type == self.review_type,
    {
        CardReview {
            id: self.id,
            card_id,
            usn: self.usn,
            ease: self.ease,
            new_interval: self.new_interval,
            last_interval: self.last_interval,
            new_factor: self.new_factor,
            review_duration: self.review_duration,
            review_type: self.review_type,
        }
    }
}

impl From<CardReview> for CardReviewWithoutCardId {
    /// The same review with the card's ID dropped.
    fn from(value: CardReview) -> (r: CardReviewWithoutCardId) {
        CardReviewWithoutCardId {
            id: value.id,
            usn: value.usn,
            ease: value.ease,
            new_interval: value.new_interval,
            last_interval: value.last_interval,
            new_factor: value.new_factor,
            review_duration: value.review_duration,
            review_type: value.review_type,
        }
    }
}

impl vstd::std_specs::convert::FromSpecImpl<CardReview> for CardReviewWithoutCardId {
    open spec fn obeys_from_spec() -> bool {
        true
    }

    open spec fn from_spec(value: CardReview) -> CardReviewWithoutCardId {
        CardReviewWithoutCardId {
            id: value.id,
            usn: value.usn,
            ease: value.ease,
            new_interval: value.new_interval,
            last_interval: value.last_interval,
            new_factor: value.new_factor,
            review_duration: value.review_duration,
            review_type: value.review_type,
        }
    }
}

impl CardReview {
    /// This review in the wire format's field order.
    pub fn as_tuple(&self) -> (r: CardReviewTuple)
        ensures
            r == (
                self.id,
                self.card_id,
                self.usn,
                self.ease,
                self.new_interval,
                self.last_interval,
                self.new_factor,
                self.review_duration,
                self.review_type,
            ),
    {
        (
            self.id,
            self.card_id,
            self.usn,
            self.ease,
            self.new_interval,
            self.last_interval,
            self.new_factor,
            self.review_duration,
            self.review_type,
        )
    }

    /// The review the given wire-format tuple describes.
    pub fn from_tuple(value: &CardReviewTuple) -> (r: Self)
        ensures
            r.id == value.0,
            r.card_id == value.1,
            r.usn == value.2,
            r.ease == value.3,
            r.new_interval == value.4,
            r.last_interval == value.5,
            r.new_factor == value.6,
            r.review_duration == value.7,
            r.review_type == value.8,
    {
        Self {
            id: value.0,
            card_id: value.1,
            usn: value.2,
            ease: value.3,
            new_interval: value.4,
            last_interval: value.5,
            new_factor: value.6,
            review_duration: value.7,
            review_type: value.8,
        }
    }

    /// The JSON array this review serializes to: its nine numbers in the
    /// wire format's field order.
    pub open spec fn spec_json(&self) -> JsonView {
        JsonView::Array(
            seq![
                JsonView::Num(decimal_int(self.id as int)),
                JsonView::Num(decimal_int(self.card_id as int)),
                JsonView::Num(decimal_int(self.usn as int)),
                JsonView::Num(decimal(self.ease as nat)),
                JsonView::Num(decimal_int(self.new_interval as int)),
                JsonView::Num(decimal_int(self.last_interval as int)),
                JsonView::Num(decimal(self.new_factor as nat)),
                JsonView::Num(decimal(self.review_duration as nat)),
                JsonView::Num(decimal(self.review_type as nat)),
            ],
        )
    }

    /// Build the JSON array of this review's numbers.
    pub fn to_json(&self) -> (r: Json)
        ensures
            json_view(r) == self.spec_json(),
    {
        let mut elems: Vec<Json> = Vec::new();
        elems.push(Json::Num(i64_to_decimal(self.id)));
        elems.push(Json::Num(i64_to_decimal(self.card_id)));
        elems.push(Json::Num(i64_to_decimal(self.usn as i64)));
        elems.push(Json::Num(u64_to_decimal(self.ease as u64)));
        elems.push(Json::Num(i64_to_decimal(self.new_interval as i64)));
        elems.push(Json::Num(i64_to_decimal(self.last_interval as i64)));
        elems.push(Json::Num(u64_to_decimal(self.new_factor as u64)));
        elems.push(Json::Num(u64_to_decimal(self.review_duration as u64)));
        elems.push(Json::Num(u64_to_decimal(self.review_type as u64)));
        proof {
            lemma_json_view_seq(elems@);
            assert(json_view_seq(elems@) =~= self.spec_json()->Array_0);
        }
        Json::Array(elems)
    }
}

} // verus!
