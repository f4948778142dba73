//! The state of a host that serves a folder.

use crate::ar::Folder;
use vstd::prelude::*;

verus! {

/// The files of the folder, and when they were last updated, in seconds since
/// 1970-01-01 00:00:00 UTC.
pub struct AppState {
    pub files: Folder,
    pub last_updated: i64,
}

impl AppState {
    /// A state without files.
    pub fn new() -> (r: AppState)
        ensures
            r.files@ == Map::<Seq<char>, (Seq<u8>, Seq<char>)>::empty(),
            r.last_updated == 0,
    {
        AppState { files: Folder::new(), last_updated: 0 }
    }
}

} // verus!
