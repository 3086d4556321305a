//! The interface of the provider of authentication headers.

use vstd::prelude::*;
use crate::table::StringTable;

verus! {

/// Produces the headers that prove the caller's session under a model version.
///
/// The library does not look into the headers: it asks for those of the version a
/// request is made under and puts them on the request.
pub trait AuthHeadersProvider {
    /// The headers to send with a request made under `model_version`.
    fn create_auth_headers(&self, model_version: u32) -> StringTable<String>;
}

} // verus!
