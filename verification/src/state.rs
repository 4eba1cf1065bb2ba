//! Persisted credential state: the bearer token, its absolute expiry instant
//! (whole seconds), and a reserved pagination cursor.
//!
//! The pagination field is part of the persisted shape for compatibility but
//! is neither read nor written by any flow here; it carries no meaning.

use vstd::prelude::*;

verus! {

/// A saved pagination cursor. Reserved state: no flow in this crate consumes
/// or produces it, it is only carried through loads and saves.
#[derive(Debug, Clone, PartialEq)]
pub enum Pagination {
    Forwards(String),
    Backwards(String),
}

/// The credential store persisted across runs. `auth_timeout` is the absolute
/// instant, in whole seconds, at which `auth_token` stops being valid; when
/// `auth_token` is absent, `auth_timeout` is meaningless and the credential
/// counts as expired.
#[derive(Debug, Clone, PartialEq)]
pub struct State {
    pub auth_token: Option<String>,
    pub auth_timeout: Option<i64>,
    pub pagination: Option<Pagination>,
}

impl Default for State {
    /// The empty credential of a first run: no token, no expiry.
    fn default() -> (r: Self)
        ensures
            r.auth_token is None,
            r.auth_timeout is None,
            r.pagination is None,
    {
        Self { auth_token: None, auth_timeout: None, pagination: None }
    }
}

} // verus!
