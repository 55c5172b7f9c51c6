//! Progress of a transfer, as samples that an installer hands back while
//! the firmware is written.

use vstd::prelude::*;

verus! {

/// One sample of a transfer: the bytes transferred so far and, where it is
/// known, the size of the whole.
#[derive(Clone, Copy, Debug, PartialEq, Eq, Structural)]
pub struct ProgressEvent {
    pub transferred: u64,
    pub total: Option<u64>,
}

impl ProgressEvent {
    /// The sample says that everything has been transferred.
    pub open spec fn is_complete(self) -> bool {
        self.total == Some(self.transferred)
    }

    /// The sample that ends a transfer of `total` bytes.
    pub fn complete(total: u64) -> (event: ProgressEvent)
        ensures
            event == (ProgressEvent { transferred: total, total: Some(total) }),
            event.is_complete(),
    {
        ProgressEvent { transferred: total, total: Some(total) }
    }

    /// Whether the sample says that everything has been transferred.
    pub fn completes(&self) -> (done: bool)
        ensures
            done == self.is_complete(),
    {
        match self.total {
            Some(total) => total == self.transferred,
            None => false,
        }
    }
}

} // verus!
