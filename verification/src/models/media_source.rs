//! Where the content of a stored media file comes from.

use vstd::prelude::*;
use crate::json::{json_view, Json, JsonView};

verus! {

/// The source of a media file: a base64-encoded string inline with the
/// request, an absolute path on the server's own filesystem, or a URL
/// the server should download the file from.
///
/// On the wire the source is the bare string, whichever kind it is: the
/// serialization is untagged.
#[derive(Debug, Clone, PartialEq, Eq)]
pub enum MediaSource {
    /// A base64-encoded string, inline with the request.
    Data(String),
    /// An absolute path to a file on the filesystem the server can see.
    Path(String),
    /// A URL the server should download the file from.
    Url(String),
}

impl MediaSource {
    /// The text this source serializes to.
    pub open spec fn spec_str(&self) -> Seq<char> {
        match self {
            MediaSource::Data(s) => s@,
            MediaSource::Path(s) => s@,
            MediaSource::Url(s) => s@,
        }
    }

    /// This source as a JSON value: the bare string.
    pub fn to_json(&self) -> (r: Json)
        ensures
            json_view(r) == JsonView::Text(self.spec_str()),
    {
        match self {
            MediaSource::Data(s) => Json::Text(s.clone()),
            MediaSource::Path(s) => Json::Text(s.clone()),
            MediaSource::Url(s) => Json::Text(s.clone()),
        }
    }
}

} // verus!
