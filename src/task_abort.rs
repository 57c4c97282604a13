//! Proof that cancellation of a background unit of work was requested.

use tokio::task::JoinHandle;
use vstd::prelude::*;

use crate::task::TaskId;

verus! {

/// Evidence that tokio was asked to abort the unit `task`. Only
/// `request_abort` makes one, and only after making that request.
#[derive(Debug, PartialEq, Eq)]
pub struct AbortRequested {
    task: TaskId,
}

impl View for AbortRequested {
    type V = u32;

    closed spec fn view(&self) -> u32 {
        self.task@
    }
}

impl AbortRequested {
    /// The unit whose cancellation was requested.
    pub fn task(&self) -> (r: TaskId)
        ensures
            r@ == self@,
    {
        self.task
    }
}

/// Relies on tokio's `JoinHandle::abort`: asks the runtime to cancel the
/// task behind `handle`; it returns at once and does not panic. The handle
/// is dropped afterwards, which leaves the request in place.
#[verifier::external_body]
pub(crate) fn request_abort(handle: JoinHandle<()>, id: TaskId) -> (r: AbortRequested)
    ensures
        r@ == id@,
{
    handle.abort();
    AbortRequested { task: id }
}

} // verus!
