//! The catalog of actions the server exposes, one request type per
//! action, each implementing [`request::Request`].

pub mod request;

pub mod card_actions;
pub mod deck_actions;
pub mod gui_actions;
pub mod media_actions;
pub mod misc_actions;
pub mod model_actions;
pub mod note_actions;
pub mod statistic_actions;

pub use card_actions::{AreDue, CardsToNotes, FindCards, GetEaseFactors, SetDueDate};
pub use deck_actions::{
    ChangeDeck, CreateDeck, DeckNames, DeckNamesAndIds, DeleteDecks, GetDeckStats, GetDecks,
};
pub use gui_actions::{
    GuiBrowse, GuiBrowseBuilder, GuiBrowseCardOrderOptions, GuiBrowseOptions, GuiCheckDatabase,
    GuiDeckBrowser, GuiDeckOverview, GuiDeckReview, GuiExitAnki, GuiImportFile, GuiSelectCard,
    GuiUndo,
};
pub use media_actions::{
    DeleteMediaFile, GetMediaDirPath, GetMediaFilesNames, RetrieveMediaFile, StoreMediaFile,
};
pub use misc_actions::{GetActiveProfile, GetProfiles, Sync, Version};
pub use model_actions::{ModelNames, ModelNamesAndIds, ModelStyling, ModelStylingResponse};
pub use note_actions::{AddTags, FindNotes, RemoveTags};
pub use statistic_actions::{
    CardReviews, GetCollectionStatsHtml, GetLatestReviewId, GetNumCardsReviewedByDay,
    GetNumCardsReviewedToday, GetReviewsOfCards, InsertReviews,
};
