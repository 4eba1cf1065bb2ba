//! The externally supplied configuration: the application credentials used
//! for the client-credentials token exchange. Read-only to the pipeline;
//! loading and writing the persisted artifact happen outside this crate.

use vstd::prelude::*;

verus! {

/// Application credentials for the identity provider.
#[derive(Debug, Clone, PartialEq)]
pub struct Config {
    pub client_id: String,
    pub client_secret: String,
}

} // verus!
