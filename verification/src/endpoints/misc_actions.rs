//! Miscellaneous actions.

use vstd::prelude::*;
use crate::endpoints::request::Request;
use crate::json::Json;

verus! {

/// Corresponds to the `version` action.
/// Returns a number indicating the version of the API server.
#[derive(Default)]
pub struct Version;

impl Request for Version {
    open spec fn spec_action(&self) -> Seq<char> {
        "version"@
    }

    fn get_action(&self) -> (r: &'static str) {
        "version"
    }

    fn get_params(&self) -> (r: Option<Json>) {
        None
    }
}

/// Corresponds to the `sync` action.
/// Prompts the running client to sync with the remote service.
#[derive(Default)]
pub struct Sync;

impl Request for Sync {
    open spec fn spec_action(&self) -> Seq<char> {
        "sync"@
    }

    fn get_action(&self) -> (r: &'static str) {
        "sync"
    }

    fn get_params(&self) -> (r: Option<Json>) {
        None
    }
}

/// Corresponds to the `getProfiles` action.
/// Returns the names of the profiles in the client.
#[derive(Default)]
pub struct GetProfiles;

impl Request for GetProfiles {
    open spec fn spec_action(&self) -> Seq<char> {
        "getProfiles"@
    }

    fn get_action(&self) -> (r: &'static str) {
        "getProfiles"
    }

    fn get_params(&self) -> (r: Option<Json>) {
        None
    }
}

/// Corresponds to the `getActiveProfile` action.
pub struct GetActiveProfile;

impl Request for GetActiveProfile {
    open spec fn spec_action(&self) -> Seq<char> {
        "getActiveProfile"@
    }

    fn get_action(&self) -> (r: &'static str) {
        "getActiveProfile"
    }

    fn get_params(&self) -> (r: Option<Json>) {
        None
    }
}

} // verus!
