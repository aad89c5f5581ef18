//! Note model (note type) actions.

use vstd::prelude::*;
use crate::endpoints::request::Request;
use crate::json::{Json, JsonView};

verus! {

/// Corresponds to the `modelNames` action.
#[derive(Default)]
pub struct ModelNames;

impl Request for ModelNames {
    open spec fn spec_action(&self) -> Seq<char> {
        "modelNames"@
    }

    fn get_action(&self) -> (r: &'static str) {
        "modelNames"
    }

    fn get_params(&self) -> (r: Option<Json>) {
        None
    }
}

/// Corresponds to the `modelNamesAndIds` action.
#[derive(Default)]
pub struct ModelNamesAndIds;

impl Request for ModelNamesAndIds {
    open spec fn spec_action(&self) -> Seq<char> {
        "modelNamesAndIds"@
    }

    fn get_action(&self) -> (r: &'static str) {
        "modelNamesAndIds"
    }

    fn get_params(&self) -> (r: Option<Json>) {
        None
    }
}

/// Corresponds to the `modelStyling` action.
pub struct ModelStyling {
    pub model_name: String,
}

impl ModelStyling {
    pub fn new(model_name: String) -> (r: Self)
        ensures
            r.model_name == model_name,
    {
        ModelStyling { model_name }
    }
}

/// The result of the `modelStyling` action: the CSS of the model.
#[derive(Debug, Clone, PartialEq, Eq)]
pub struct ModelStylingResponse {
    pub css: String,
}

impl Request for ModelStyling {
    open spec fn spec_action(&self) -> Seq<char> {
        "modelStyling"@
    }

    open spec fn spec_params(&self) -> Option<JsonView> {
        Some(JsonView::Object(seq![("modelName"@, JsonView::Text(self.model_name@))]))
    }

    fn get_action(&self) -> (r: &'static str) {
        "modelStyling"
    }

    fn get_params(&self) -> (r: Option<Json>) {
        Some(Json::object1("modelName", Json::Text(self.model_name.clone())))
    }
}

} // verus!
