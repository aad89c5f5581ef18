//! Graphical actions: dialogs and views of the running client.

use vstd::prelude::*;
use crate::endpoints::request::Request;
use crate::json::{
    decimal, json_view, json_view_entries, lemma_json_view_entries, u64_to_decimal, Json, JsonView,
};
use crate::models::browser_column::BrowserColumn;
use crate::models::order::Order;

verus! {

/// How the card browser should reorder its cards: an optional direction
/// and an optional column, each omitted from the wire format when
/// absent.
#[derive(Copy, Clone, Debug, PartialEq, Eq)]
pub struct GuiBrowseCardOrderOptions {
    pub order: Option<Order>,
    pub column: Option<BrowserColumn>,
}

/// The key/value pairs an order options value serializes to: `order`
/// and `columnId`, each present only when set.
pub open spec fn order_options_entries(
    order: Option<Order>,
    column: Option<BrowserColumn>,
) -> Seq<(Seq<char>, JsonView)> {
    (match order {
        Some(o) => seq![("order"@, JsonView::Text(o.spec_str()))],
        None => Seq::empty(),
    }) + (match column {
        Some(c) => seq![("columnId"@, JsonView::Text(c.spec_str()))],
        None => Seq::empty(),
    })
}

impl GuiBrowseCardOrderOptions {
    pub fn new() -> (r: Self)
        ensures
            r.order is None,
            r.column is None,
    {
        Self { order: None, column: None }
    }

    /// The JSON object these options serialize to.
    pub open spec fn spec_json(&self) -> JsonView {
        JsonView::Object(order_options_entries(self.order, self.column))
    }

    /// Build the JSON object of these options.
    pub fn to_json(&self) -> (r: Json)
        ensures
            json_view(r) == self.spec_json(),
    {
        let mut fields: Vec<(String, Json)> = Vec::new();
        match &self.order {
            Some(o) => fields.push((String::from_str("order"), o.to_json())),
            None => {},
        }
        match &self.column {
            Some(c) => fields.push((String::from_str("columnId"), c.to_json())),
            None => {},
        }
        proof {
            lemma_json_view_entries(fields@);
            assert(json_view_entries(fields@) =~= order_options_entries(
                self.order,
                self.column,
            ));
        }
        Json::Object(fields)
    }
}

impl Default for GuiBrowseCardOrderOptions {
    fn default() -> (r: Self)
        ensures
            r.order is None,
            r.column is None,
    {
        Self::new()
    }
}

/// Options for the card browser: an optional query and optional
/// reordering, each omitted from the wire format when absent.
#[derive(Clone, Debug, PartialEq, Eq)]
pub struct GuiBrowseOptions {
    pub query: Option<String>,
    pub reorder_cards: Option<GuiBrowseCardOrderOptions>,
}

/// The key/value pairs a browse options value serializes to: `query`
/// and `reorderCards`, each present only when set.
pub open spec fn browse_options_entries(
    query: Option<Seq<char>>,
    reorder_cards: Option<GuiBrowseCardOrderOptions>,
) -> Seq<(Seq<char>, JsonView)> {
    (match query {
        Some(q) => seq![("query"@, JsonView::Text(q))],
        None => Seq::empty(),
    }) + (match reorder_cards {
        Some(r) => seq![("reorderCards"@, r.spec_json())],
        None => Seq::empty(),
    })
}

impl GuiBrowseOptions {
    pub fn new() -> (r: Self)
        ensures
            r.query is None,
            r.reorder_cards is None,
    {
        Self { query: None, reorder_cards: None }
    }

    /// Create an options object with just a query and without any sort
    /// preferences.
    pub fn query(query: String) -> (r: Self)
        ensures
            r.query == Some(query),
            r.reorder_cards is None,
    {
        Self { query: Some(query), reorder_cards: None }
    }

    /// The same options with the query replaced.
    pub fn with_query(self, query: String) -> (r: Self)
        ensures
            r.query == Some(query),
            r.reorder_cards == self.reorder_cards,
    {
        Self { query: Some(query), ..self }
    }

    /// The JSON object these options serialize to.
    pub open spec fn spec_json(&self) -> JsonView {
        JsonView::Object(browse_options_entries(self.query.deep_view(), self.reorder_cards))
    }

    /// Build the JSON object of these options.
    pub fn to_json(&self) -> (r: Json)
        ensures
            json_view(r) == self.spec_json(),
    {
        let mut fields: Vec<(String, Json)> = Vec::new();
        match &self.query {
            Some(q) => fields.push((String::from_str("query"), Json::Text(q.clone()))),
            None => {},
        }
        match &self.reorder_cards {
            Some(r) => fields.push((String::from_str("reorderCards"), r.to_json())),
            None => {},
        }
        proof {
            lemma_json_view_entries(fields@);
            assert(json_view_entries(fields@) =~= browse_options_entries(
                self.query.deep_view(),
                self.reorder_cards,
            ));
        }
        Json::Object(fields)
    }
}

impl Default for GuiBrowseOptions {
    fn default() -> (r: Self)
        ensures
            r.query is None,
            r.reorder_cards is None,
    {
        Self::new()
    }
}

/// Corresponds to the `guiBrowse` action.
/// Returns card IDs that match the given query.
pub struct GuiBrowse {
    pub options: Option<GuiBrowseOptions>,
}

impl GuiBrowse {
    pub fn new(options: Option<GuiBrowseOptions>) -> (r: Self)
        ensures
            r.options == options,
    {
        Self { options }
    }

    pub fn builder() -> (r: GuiBrowseBuilder)
        ensures
            r.order is None,
            r.column is None,
            r.query is None,
    {
        GuiBrowseBuilder::new()
    }
}

impl Default for GuiBrowse {
    fn default() -> (r: Self)
        ensures
            r.options is None,
    {
        Self::new(None)
    }
}

impl Request for GuiBrowse {
    open spec fn spec_action(&self) -> Seq<char> {
        "guiBrowse"@
    }

    open spec fn spec_params(&self) -> Option<JsonView> {
        match self.options {
            Some(o) => Some(o.spec_json()),
            None => None,
        }
    }

    fn get_action(&self) -> (r: &'static str) {
        "guiBrowse"
    }

    fn get_params(&self) -> (r: Option<Json>) {
        match &self.options {
            Some(o) => Some(o.to_json()),
            None => None,
        }
    }
}

/// A builder for [`GuiBrowse`]: collect a query, an order and a column,
/// and build options that omit whatever was not set.
pub struct GuiBrowseBuilder {
    pub order: Option<Order>,
    pub column: Option<BrowserColumn>,
    pub query: Option<String>,
}

impl GuiBrowseBuilder {
    pub fn new() -> (r: Self)
        ensures
            r.order is None,
            r.column is None,
            r.query is None,
    {
        Self { order: None, column: None, query: None }
    }

    pub fn order(self, order: Order) -> (r: Self)
        ensures
            r.order == Some(order),
            r.column == self.column,
            r.query == self.query,
    {
        Self { order: Some(order), ..self }
    }

    pub fn ascending(self) -> (r: Self)
        ensures
            r.order == Some(Order::Ascending),
            r.column == self.column,
            r.query == self.query,
    {
        self.order(Order::Ascending)
    }

    pub fn descending(self) -> (r: Self)
        ensures
            r.order == Some(Order::Descending),
            r.column == self.column,
            r.query == self.query,
    {
        self.order(Order::Descending)
    }

    pub fn column(self, column: BrowserColumn) -> (r: Self)
        ensures
            r.column == Some(column),
            r.order == self.order,
            r.query == self.query,
    {
        Self { column: Some(column), ..self }
    }

    pub fn query(self, query: String) -> (r: Self)
        ensures
            r.query == Some(query),
            r.order == self.order,
            r.column == self.column,
    {
        Self { query: Some(query), ..self }
    }

    /// The options this builder stands for: no reordering object when
    /// neither an order nor a column was set, and no options at all when
    /// nothing was set.
    pub open spec fn spec_options(&self) -> Option<GuiBrowseOptions> {
        let reorder_cards = if self.order is None && self.column is None {
            None
        } else {
            Some(GuiBrowseCardOrderOptions { order: self.order, column: self.column })
        };
        if self.query is None && reorder_cards is None {
            None
        } else {
            Some(GuiBrowseOptions { query: self.query, reorder_cards })
        }
    }

    fn build_options(self) -> (r: Option<GuiBrowseOptions>)
        ensures
            r == self.spec_options(),
    {
        let order = self.order;
        let column = self.column;
        let query = self.query;

        let reorder_cards = {
            if order.is_none() && column.is_none() {
                None
            } else {
                Some(GuiBrowseCardOrderOptions { order, column })
            }
        };

        if query.is_none() && reorder_cards.is_none() {
            return None;
        }

        Some(GuiBrowseOptions { query, reorder_cards })
    }

    pub fn build(self) -> (r: GuiBrowse)
        ensures
            r.options == self.spec_options(),
    {
        GuiBrowse::new(self.build_options())
    }
}

impl Default for GuiBrowseBuilder {
    fn default() -> (r: Self)
        ensures
            r.order is None,
            r.column is None,
            r.query is None,
    {
        GuiBrowseBuilder::new()
    }
}

/// Corresponds to the `guiSelectCard` action.
/// Expects the Card Browser dialog to already be open.
/// Returns `true` if the Card Browser dialog is open.
pub struct GuiSelectCard {
    /// Card ID.
    pub card: u64,
}

impl Request for GuiSelectCard {
    open spec fn spec_action(&self) -> Seq<char> {
        "guiSelectCard"@
    }

    open spec fn spec_params(&self) -> Option<JsonView> {
        Some(JsonView::Object(seq![("card"@, JsonView::Num(decimal(self.card as nat)))]))
    }

    fn get_action(&self) -> (r: &'static str) {
        "guiSelectCard"
    }

    fn get_params(&self) -> (r: Option<Json>) {
        Some(Json::object1("card", Json::Num(u64_to_decimal(self.card))))
    }
}

/// Corresponds to the `guiUndo` action.
/// Returns `true` on success.
pub struct GuiUndo;

impl Request for GuiUndo {
    open spec fn spec_action(&self) -> Seq<char> {
        "guiUndo"@
    }

    fn get_action(&self) -> (r: &'static str) {
        "guiUndo"
    }

    fn get_params(&self) -> (r: Option<Json>) {
        None
    }
}

/// Corresponds to the `guiDeckOverview` action.
/// Opens the Deck Overview dialog for the given deck.
pub struct GuiDeckOverview {
    /// Name of deck.
    pub name: String,
}

impl Request for GuiDeckOverview {
    open spec fn spec_action(&self) -> Seq<char> {
        "guiDeckOverview"@
    }

    open spec fn spec_params(&self) -> Option<JsonView> {
        Some(JsonView::Object(seq![("name"@, JsonView::Text(self.name@))]))
    }

    fn get_action(&self) -> (r: &'static str) {
        "guiDeckOverview"
    }

    fn get_params(&self) -> (r: Option<Json>) {
        Some(Json::object1("name", Json::Text(self.name.clone())))
    }
}

/// Corresponds to the `guiDeckBrowser` action.
/// Opens the Deck Browser dialog.
pub struct GuiDeckBrowser;

impl Request for GuiDeckBrowser {
    open spec fn spec_action(&self) -> Seq<char> {
        "guiDeckBrowser"@
    }

    fn get_action(&self) -> (r: &'static str) {
        "guiDeckBrowser"
    }

    fn get_params(&self) -> (r: Option<Json>) {
        None
    }
}

/// Corresponds to the `guiDeckReview` action.
/// Starts reviewing the deck. Returns `true` on success.
pub struct GuiDeckReview {
    /// Name of deck.
    pub name: String,
}

impl Request for GuiDeckReview {
    open spec fn spec_action(&self) -> Seq<char> {
        "guiDeckReview"@
    }

    open spec fn spec_params(&self) -> Option<JsonView> {
        Some(JsonView::Object(seq![("name"@, JsonView::Text(self.name@))]))
    }

    fn get_action(&self) -> (r: &'static str) {
        "guiDeckReview"
    }

    fn get_params(&self) -> (r: Option<Json>) {
        Some(Json::object1("name", Json::Text(self.name.clone())))
    }
}

/// Corresponds to the `guiImportFile` action.
/// Opens the Import... dialog, for the given path if one is set.
pub struct GuiImportFile {
    pub path: Option<String>,
}

impl Request for GuiImportFile {
    open spec fn spec_action(&self) -> Seq<char> {
        "guiImportFile"@
    }

    open spec fn spec_params(&self) -> Option<JsonView> {
        match self.path.deep_view() {
            Some(p) => Some(JsonView::Object(seq![("path"@, JsonView::Text(p))])),
            None => None,
        }
    }

    fn get_action(&self) -> (r: &'static str) {
        "guiImportFile"
    }

    fn get_params(&self) -> (r: Option<Json>) {
        match &self.path {
            Some(p) => Some(Json::object1("path", Json::Text(p.clone()))),
            None => None,
        }
    }
}

/// Corresponds to the `guiExitAnki` action.
/// According to the API docs, the request returns immediately and does
/// not wait for the client to actually close.
pub struct GuiExitAnki;

impl Request for GuiExitAnki {
    open spec fn spec_action(&self) -> Seq<char> {
        "guiExitAnki"@
    }

    fn get_action(&self) -> (r: &'static str) {
        "guiExitAnki"
    }

    fn get_params(&self) -> (r: Option<Json>) {
        None
    }
}

/// Corresponds to the `guiCheckDatabase` action.
/// According to the API docs, it should always return `true`.
pub struct GuiCheckDatabase;

impl Request for GuiCheckDatabase {
    open spec fn spec_action(&self) -> Seq<char> {
        "guiCheckDatabase"@
    }

    fn get_action(&self) -> (r: &'static str) {
        "guiCheckDatabase"
    }

    fn get_params(&self) -> (r: Option<Json>) {
        None
    }
}

} // verus!
