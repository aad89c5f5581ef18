//! Options for the card browser dialog, as plain models.

use vstd::prelude::*;
use crate::json::{json_view, json_view_entries, lemma_json_view_entries, Json, JsonView};
use crate::models::browser_column::BrowserColumn;
use crate::models::order::Order;

verus! {

/// How the card browser should reorder its cards: an optional direction
/// and an optional column, each omitted from the wire format when
/// absent.
#[derive(Copy, Clone, Debug, PartialEq, Eq)]
pub struct GuiBrowseCardOrderOptions {
    pub order: Option<Order>,
    pub column: Option<BrowserColumn>,
}

/// The key/value pairs an order options value serializes to: `order`
/// and `columnId`, each present only when set.
pub open spec fn order_options_entries(
    order: Option<Order>,
    column: Option<BrowserColumn>,
) -> Seq<(Seq<char>, JsonView)> {
    (match order {
        Some(o) => seq![("order"@, JsonView::Text(o.spec_str()))],
        None => Seq::empty(),
    }) + (match column {
        Some(c) => seq![("columnId"@, JsonView::Text(c.spec_str()))],
        None => Seq::empty(),
    })
}

impl GuiBrowseCardOrderOptions {
    pub fn new() -> (r: Self)
        ensures
            r.order is None,
            r.column is None,
    {
        Self { order: None, column: None }
    }

    /// The JSON object these options serialize to.
    pub open spec fn spec_json(&self) -> JsonView {
        JsonView::Object(order_options_entries(self.order, self.column))
    }

    /// Build the JSON object of these options.
    pub fn to_json(&self) -> (r: Json)
        ensures
            json_view(r) == self.spec_json(),
    {
        let mut fields: Vec<(String, Json)> = Vec::new();
        match &self.order {
            Some(o) => fields.push((String::from_str("order"), o.to_json())),
            None => {},
        }
        match &self.column {
            Some(c) => fields.push((String::from_str("columnId"), c.to_json())),
            None => {},
        }
        proof {
            lemma_json_view_entries(fields@);
            assert(json_view_entries(fields@) =~= order_options_entries(
                self.order,
                self.column,
            ));
        }
        Json::Object(fields)
    }
}

impl Default for GuiBrowseCardOrderOptions {
    fn default() -> (r: Self)
        ensures
            r.order is None,
            r.column is None,
    {
        Self::new()
    }
}

/// Options for the card browser: an optional query and optional
/// reordering, each omitted from the wire format when absent.
#[derive(Clone, Debug, PartialEq, Eq)]
pub struct GuiBrowseOptions {
    pub query: Option<String>,
    pub reorder_cards: Option<GuiBrowseCardOrderOptions>,
}

/// The key/value pairs a browse options value serializes to: `query`
/// and `reorderCards`, each present only when set.
pub open spec fn browse_options_entries(
    query: Option<Seq<char>>,
    reorder_cards: Option<GuiBrowseCardOrderOptions>,
) -> Seq<(Seq<char>, JsonView)> {
    (match query {
        Some(q) => seq![("query"@, JsonView::Text(q))],
        None => Seq::empty(),
    }) + (match reorder_cards {
        Some(r) => seq![("reorderCards"@, r.spec_json())],
        None => Seq::empty(),
    })
}

impl GuiBrowseOptions {
    pub fn new() -> (r: Self)
        ensures
            r.query is None,
            r.reorder_cards is None,
    {
        Self { query: None, reorder_cards: None }
    }

    /// Create an options object with just a query and without any sort
    /// preferences.
    pub fn query(query: String) -> (r: Self)
        ensures
            r.query == Some(query),
            r.reorder_cards is None,
    {
        Self { query: Some(query), reorder_cards: None }
    }

    /// The JSON object these options serialize to.
    pub open spec fn spec_json(&self) -> JsonView {
        JsonView::Object(browse_options_entries(self.query.deep_view(), self.reorder_cards))
    }

    /// Build the JSON object of these options.
    pub fn to_json(&self) -> (r: Json)
        ensures
            json_view(r) == self.spec_json(),
    {
        let mut fields: Vec<(String, Json)> = Vec::new();
        match &self.query {
            Some(q) => fields.push((String::from_str("query"), Json::Text(q.clone()))),
            None => {},
        }
        match &self.reorder_cards {
            Some(r) => fields.push((String::from_str("reorderCards"), r.to_json())),
            None => {},
        }
        proof {
            lemma_json_view_entries(fields@);
            assert(json_view_entries(fields@) =~= browse_options_entries(
                self.query.deep_view(),
                self.reorder_cards,
            ));
        }
        Json::Object(fields)
    }
}

impl Default for GuiBrowseOptions {
    fn default() -> (r: Self)
        ensures
            r.query is None,
            r.reorder_cards is None,
    {
        Self::new()
    }
}

} // verus!
