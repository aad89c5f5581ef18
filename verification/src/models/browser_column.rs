//! The columns of the card browser.

use vstd::prelude::*;
use crate::json::{json_view, Json, JsonView};

verus! {

/// A column of the card browser, with the serialization rules the
/// server's own browser table uses.
#[derive(Copy, Clone, Debug, PartialEq, Eq)]
pub enum BrowserColumn {
    Answer,
    CardMod,
    Cards,
    Deck,
    Due,
    Ease,
    Lapses,
    Interval,
    NoteCreation,
    NoteMod,
    Notetype,
    OriginalPosition,
    Question,
    Reps,
    SortField,
    Tags,
    Stability,
    Difficulty,
    Retrievability,
}

impl BrowserColumn {
    /// The name the wire format uses for this column.
    pub open spec fn spec_str(&self) -> Seq<char> {
        match self {
            BrowserColumn::Answer => "answer"@,
            BrowserColumn::CardMod => "cardMod"@,
            BrowserColumn::Cards => "template"@,
            BrowserColumn::Deck => "deck"@,
            BrowserColumn::Due => "cardDue"@,
            BrowserColumn::Ease => "cardEase"@,
            BrowserColumn::Lapses => "cardLapses"@,
            BrowserColumn::Interval => "cardIvl"@,
            BrowserColumn::NoteCreation => "noteCrt"@,
            BrowserColumn::NoteMod => "noteMod"@,
            BrowserColumn::Notetype => "note"@,
            BrowserColumn::OriginalPosition => "originalPosition"@,
            BrowserColumn::Question => "question"@,
            BrowserColumn::Reps => "cardReps"@,
            BrowserColumn::SortField => "noteFld"@,
            BrowserColumn::Tags => "noteTags"@,
            BrowserColumn::Stability => "stability"@,
            BrowserColumn::Difficulty => "difficulty"@,
            BrowserColumn::Retrievability => "retrievability"@,
        }
    }

    /// The name the wire format uses for this column.
    pub fn as_str(&self) -> (r: &'static str)
        ensures
            r@ == self.spec_str(),
    {
        match self {
            BrowserColumn::Answer => "answer",
            BrowserColumn::CardMod => "cardMod",
            BrowserColumn::Cards => "template",
            BrowserColumn::Deck => "deck",
            BrowserColumn::Due => "cardDue",
            BrowserColumn::Ease => "cardEase",
            BrowserColumn::Lapses => "cardLapses",
            BrowserColumn::Interval => "cardIvl",
            BrowserColumn::NoteCreation => "noteCrt",
            BrowserColumn::NoteMod => "noteMod",
            BrowserColumn::Notetype => "note",
            BrowserColumn::OriginalPosition => "originalPosition",
            BrowserColumn::Question => "question",
            BrowserColumn::Reps => "cardReps",
            BrowserColumn::SortField => "noteFld",
            BrowserColumn::Tags => "noteTags",
            BrowserColumn::Stability => "stability",
            BrowserColumn::Difficulty => "difficulty",
            BrowserColumn::Retrievability => "retrievability",
        }
    }

    /// This column as a JSON value: its wire name as a string.
    pub fn to_json(&self) -> (r: Json)
        ensures
            json_view(r) == JsonView::Text(self.spec_str()),
    {
        Json::Text(String::from_str(self.as_str()))
    }
}

} // verus!
