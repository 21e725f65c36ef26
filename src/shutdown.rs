//! The shutdown coordinator's latch: the termination signal is turned into
//! exactly one notification for the dispatcher, however often it arrives.
use vstd::prelude::*;

verus! {

pub struct ShutdownLatch {
    notified: bool,
}

impl ShutdownLatch {
    /// Whether the notification has been sent.
    pub closed spec fn is_notified(&self) -> bool {
        self.notified
    }

    pub fn new() -> (r: Self)
        ensures
            !r.is_notified(),
    {
        ShutdownLatch { notified: false }
    }

    /// Records one termination signal; true when the dispatcher is to be
    /// notified now, which is the case for the first signal only.
    pub fn signal(&mut self) -> (r: bool)
        ensures
            r == !old(self).is_notified(),
            final(self).is_notified(),
    {
        let first = !self.notified;
        self.notified = true;
        first
    }

    pub fn notified(&self) -> (r: bool)
        ensures
            r == self.is_notified(),
    {
        self.notified
    }
}

} // verus!
