//! The one-shot shutdown latch that the presentation side sets and the
//! acquisition loop reads.

use vstd::prelude::*;

verus! {

/// A shutdown latch: clear when made, set by a request, never cleared again.
#[derive(Debug, Clone, Copy, PartialEq, Eq, Structural)]
pub struct CancellationFlag {
    requested: bool,
}

impl View for CancellationFlag {
    type V = bool;

    /// Whether shutdown has been requested.
    closed spec fn view(&self) -> bool {
        self.requested
    }
}

impl CancellationFlag {
    /// The latch as it is after one more request.
    pub closed spec fn after_request(self) -> CancellationFlag {
        CancellationFlag { requested: true }
    }

    /// A clear latch.
    pub fn new() -> (flag: CancellationFlag)
        ensures
            !flag@,
    {
        CancellationFlag { requested: false }
    }

    /// Requests shutdown. The latch is set afterwards, whatever it was before.
    pub fn request(&mut self)
        ensures
            *final(self) == old(self).after_request(),
            final(self)@,
    {
        self.requested = true;
    }

    /// Whether shutdown has been requested.
    pub fn is_requested(&self) -> (requested: bool)
        ensures
            requested == self@,
    {
        self.requested
    }
}

impl Default for CancellationFlag {
    fn default() -> (flag: CancellationFlag)
        ensures
            !flag@,
    {
        CancellationFlag::new()
    }
}

/// A request sets the latch.
pub proof fn lemma_request_sets(flag: CancellationFlag)
    ensures
        flag.after_request()@,
{
}

/// Requesting shutdown again changes nothing: any number of requests leaves
/// the latch as one request does.
pub proof fn lemma_request_idempotent(flag: CancellationFlag)
    ensures
        flag.after_request().after_request() == flag.after_request(),
        flag@ ==> flag.after_request() == flag,
{
}

/// Two latches in the same state are the same latch: the state is all a
/// latch carries.
pub proof fn lemma_flag_is_its_state(a: CancellationFlag, b: CancellationFlag)
    ensures
        a@ == b@ <==> a == b,
{
}

} // verus!
