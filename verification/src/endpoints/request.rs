//! The contract every action's request type implements: an action name,
//! a protocol version, and optional parameters, each pinned to its
//! mathematical value by a spec member.

use vstd::prelude::*;
use crate::json::{Json, JsonView};

verus! {

/// The protocol version this library speaks.
pub const DEFAULT_API_VERSION: u64 = 6;

/// A request that can be invoked against the server.
pub trait Request {
    /// The action name, as the API spells it.
    spec fn spec_action(&self) -> Seq<char>;

    /// The parameters value that will stand under `params`, or nothing
    /// for the key to be omitted.
    open spec fn spec_params(&self) -> Option<JsonView> {
        None
    }

    /// The action that will be invoked, as defined in the API
    /// specification.
    fn get_action(&self) -> (r: &'static str)
        ensures
            r@ == self.spec_action(),
    ;

    /// The version to claim in the request envelope.
    fn get_version(&self) -> (r: u64)
        ensures
            r == DEFAULT_API_VERSION,
    {
        DEFAULT_API_VERSION
    }

    /// The parameters that should appear in the `params` field of the
    /// request; `None` omits the field entirely.
    fn get_params(&self) -> (r: Option<Json>)
        ensures
            r.deep_view() == self.spec_params(),
    ;
}

} // verus!
