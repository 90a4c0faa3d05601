//! Hands out network ports to the parts of a test run one after another, so
//! that clients and servers started side by side do not collide.
use vstd::prelude::*;

verus! {

/// The highest port handed out so far.
pub struct TestSettings {
    max_port: u32,
}

impl TestSettings {
    /// The highest port handed out so far.
    pub closed spec fn current(&self) -> u32 {
        self.max_port
    }

    /// Settings whose highest port handed out so far is `max_port`.
    pub fn new(max_port: u32) -> (r: TestSettings)
        ensures
            r.current() == max_port,
    {
        TestSettings { max_port }
    }

    /// Hands out the port after the highest one so far, which becomes the
    /// highest. Past the last port there is none to hand out.
    pub fn get_next_avail_port(&mut self) -> (r: u32)
        requires
            old(self).current() < u32::MAX,
        ensures
            r == old(self).current() + 1,
            final(self).current() == r,
    {
        self.max_port = self.max_port + 1;
        self.max_port
    }

    /// The highest port handed out so far.
    pub fn get_current_port(&self) -> (r: u32)
        ensures
            r == self.current(),
    {
        self.max_port
    }
}

} // verus!
