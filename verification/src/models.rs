//! Data models shared by the endpoints: the request and response
//! envelopes, and the value types that parameters and results are made
//! of.

pub mod browser_column;
pub mod card_review;
pub mod deck_stats;
pub mod gui_browse_options;
pub mod media_source;
pub mod order;
pub mod request_body;
pub mod response_body;

pub use browser_column::BrowserColumn;
pub use card_review::CardReview;
pub use deck_stats::DeckStats;
pub use media_source::MediaSource;
pub use order::Order;
pub use request_body::RequestBody;
pub use response_body::ResponseBody;
