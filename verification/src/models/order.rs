//! Sort order for browser queries.

use vstd::prelude::*;
use crate::json::{json_view, Json, JsonView};

verus! {

/// The direction cards are ordered by in the card browser.
#[derive(Copy, Clone, Debug, PartialEq, Eq)]
pub enum Order {
    Ascending,
    Descending,
}

impl Order {
    /// The name the wire format uses for this order.
    pub open spec fn spec_str(&self) -> Seq<char> {
        match self {
            Order::Ascending => "ascending"@,
            Order::Descending => "descending"@,
        }
    }

    /// The name the wire format uses for this order.
    pub fn as_str(&self) -> (r: &'static str)
        ensures
            r@ == self.spec_str(),
    {
        match self {
            Order::Ascending => "ascending",
            Order::Descending => "descending",
        }
    }

    /// This order as a JSON value: its wire name as a string.
    pub fn to_json(&self) -> (r: Json)
        ensures
            json_view(r) == JsonView::Text(self.spec_str()),
    {
        Json::Text(String::from_str(self.as_str()))
    }
}

} // verus!
