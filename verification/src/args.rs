//! The command-line surface: which operation to run and where its artifacts
//! live. Parsing happens outside this crate; these are the plain values the
//! pipeline consumes. Paths are carried as strings.

use vstd::prelude::*;

verus! {

/// The parsed invocation: optional state and config file locations, and the
/// selected operation.
#[derive(Debug, Clone, PartialEq)]
pub struct Args {
    /// State file to resume from and save into.
    pub state: Option<String>,
    /// Config file to resume from or create.
    pub config: Option<String>,
    pub command: Commands,
}

/// The pipeline's separable operations: check the credential, fetch clip
/// metadata, derive download addresses, or download the media files.
#[derive(Debug, Clone, PartialEq)]
pub enum Commands {
    CheckAuth,
    ClipInfo { user: String, clips: Option<String> },
    DownloadLinks { user: Option<String>, clips: Option<String> },
    DownloadClips { user: Option<String>, clips: Option<String> },
}

} // verus!
