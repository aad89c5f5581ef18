//! Media actions.

use vstd::prelude::*;
use crate::endpoints::request::Request;
use crate::json::{json_view_entries, lemma_json_view_entries, Json, JsonView};
use crate::models::media_source::MediaSource;

verus! {

/// Corresponds to the `storeMediaFile` action.
pub struct StoreMediaFile {
    pub filename: String,
    pub source: MediaSource,
    /// Whether an existing file of the same name should be replaced;
    /// omitted from the wire format when unset.
    pub delete_existing: Option<bool>,
    /// Whether the server should skip its content-hash check; omitted
    /// from the wire format when unset.
    pub skip_hash: Option<bool>,
}

/// The key/value pairs a `storeMediaFile` request serializes to:
/// `filename` and `source` always, `deleteExisting` and `skipHash` only
/// when set.
pub open spec fn store_media_file_entries(
    filename: Seq<char>,
    source: Seq<char>,
    delete_existing: Option<bool>,
    skip_hash: Option<bool>,
) -> Seq<(Seq<char>, JsonView)> {
    seq![("filename"@, JsonView::Text(filename)), ("source"@, JsonView::Text(source))] + (
    match delete_existing {
        Some(b) => seq![("deleteExisting"@, JsonView::Bool(b))],
        None => Seq::empty(),
    }) + (match skip_hash {
        Some(b) => seq![("skipHash"@, JsonView::Bool(b))],
        None => Seq::empty(),
    })
}

impl Request for StoreMediaFile {
    open spec fn spec_action(&self) -> Seq<char> {
        "storeMediaFile"@
    }

    open spec fn spec_params(&self) -> Option<JsonView> {
        Some(
            JsonView::Object(
                store_media_file_entries(
                    self.filename@,
                    self.source.spec_str(),
                    self.delete_existing,
                    self.skip_hash,
                ),
            ),
        )
    }

    fn get_action(&self) -> (r: &'static str) {
        "storeMediaFile"
    }

    fn get_params(&self) -> (r: Option<Json>) {
        let mut fields: Vec<(String, Json)> = Vec::new();
        fields.push((String::from_str("filename"), Json::Text(self.filename.clone())));
        fields.push((String::from_str("source"), self.source.to_json()));
        match &self.delete_existing {
            Some(b) => fields.push((String::from_str("deleteExisting"), Json::Bool(*b))),
            None => {},
        }
        match &self.skip_hash {
            Some(b) => fields.push((String::from_str("skipHash"), Json::Bool(*b))),
            None => {},
        }
        proof {
            lemma_json_view_entries(fields@);
            assert(json_view_entries(fields@) =~= store_media_file_entries(
                self.filename@,
                self.source.spec_str(),
                self.delete_existing,
                self.skip_hash,
            ));
        }
        Some(Json::Object(fields))
    }
}

/// Corresponds to the `retrieveMediaFile` action.
pub struct RetrieveMediaFile {
    pub filename: String,
}

impl Request for RetrieveMediaFile {
    open spec fn spec_action(&self) -> Seq<char> {
        "retrieveMediaFile"@
    }

    open spec fn spec_params(&self) -> Option<JsonView> {
        Some(JsonView::Object(seq![("filename"@, JsonView::Text(self.filename@))]))
    }

    fn get_action(&self) -> (r: &'static str) {
        "retrieveMediaFile"
    }

    fn get_params(&self) -> (r: Option<Json>) {
        Some(Json::object1("filename", Json::Text(self.filename.clone())))
    }
}

/// Corresponds to the `getMediaFilesNames` action.
pub struct GetMediaFilesNames {
    /// The pattern file names must match.  The server errors on a
    /// request without one, so the all-matching pattern stands in by
    /// default.
    pub pattern: String,
}

impl GetMediaFilesNames {
    pub fn new(pattern: String) -> (r: Self)
        ensures
            r.pattern == pattern,
    {
        Self { pattern }
    }

    /// Every file name: the all-matching pattern.
    pub fn all() -> (r: Self)
        ensures
            r.pattern@ == "*"@,
    {
        Self::new(String::from_str("*"))
    }
}

impl Default for GetMediaFilesNames {
    fn default() -> (r: Self)
        ensures
            r.pattern@ == "*"@,
    {
        Self::all()
    }
}

impl Request for GetMediaFilesNames {
    open spec fn spec_action(&self) -> Seq<char> {
        "getMediaFilesNames"@
    }

    open spec fn spec_params(&self) -> Option<JsonView> {
        Some(JsonView::Object(seq![("pattern"@, JsonView::Text(self.pattern@))]))
    }

    fn get_action(&self) -> (r: &'static str) {
        "getMediaFilesNames"
    }

    fn get_params(&self) -> (r: Option<Json>) {
        Some(Json::object1("pattern", Json::Text(self.pattern.clone())))
    }
}

/// Corresponds to the `getMediaDirPath` action.
#[derive(Default)]
pub struct GetMediaDirPath;

impl Request for GetMediaDirPath {
    open spec fn spec_action(&self) -> Seq<char> {
        "getMediaDirPath"@
    }

    fn get_action(&self) -> (r: &'static str) {
        "getMediaDirPath"
    }

    fn get_params(&self) -> (r: Option<Json>) {
        None
    }
}

/// Corresponds to the `deleteMediaFile` action.
pub struct DeleteMediaFile {
    pub filename: String,
}

impl DeleteMediaFile {
    pub fn new(filename: String) -> (r: Self)
        ensures
            r.filename == filename,
    {
        Self { filename }
    }
}

impl Request for DeleteMediaFile {
    open spec fn spec_action(&self) -> Seq<char> {
        "deleteMediaFile"@
    }

    open spec fn spec_params(&self) -> Option<JsonView> {
        Some(JsonView::Object(seq![("filename"@, JsonView::Text(self.filename@))]))
    }

    fn get_action(&self) -> (r: &'static str) {
        "deleteMediaFile"
    }

    fn get_params(&self) -> (r: Option<Json>) {
        Some(Json::object1("filename", Json::Text(self.filename.clone())))
    }
}

} // verus!
