use vstd::prelude::*;

verus! {

/// A download waiting in the host's download queue.
pub struct QueuedDownload {
    pub mod_id: String,
    pub url: String,
}

} // verus!
