use vstd::prelude::*;

verus! {

/// A GPU fence with the counter of the work submitted against it. `F` is the
/// native fence and `H` the event that a wait blocks on.
pub struct Fence<F, H> {
    fence: F,
    value: u64,
    event: H,
}

impl<F, H> View for Fence<F, H> {
    /// The counter of submitted work.
    type V = u64;

    closed spec fn view(&self) -> u64 {
        self.value
    }
}

impl<F, H> Fence<F, H> {
    /// The native fence.
    pub closed spec fn spec_fence(&self) -> F {
        self.fence
    }

    /// The event that a wait blocks on.
    pub closed spec fn spec_event(&self) -> H {
        self.event
    }

    /// A fence whose counter starts at zero.
    pub fn new(fence: F, event: H) -> (r: Self)
        ensures
            r@ == 0,
            r.spec_fence() == fence,
            r.spec_event() == event,
    {
        Fence { fence, value: 0, event }
    }

    /// The native fence.
    pub fn fence(&self) -> (r: &F)
        ensures
            *r == self.spec_fence(),
    {
        &self.fence
    }

    /// The event that a wait blocks on.
    pub fn event(&self) -> (r: &H)
        ensures
            *r == self.spec_event(),
    {
        &self.event
    }

    /// The counter of submitted work.
    pub fn value(&self) -> (r: u64)
        ensures
            r == self@,
    {
        self.value
    }

    /// Counts one more submission.
    pub fn incr(&mut self)
        requires
            old(self)@ < u64::MAX,
        ensures
            final(self)@ == old(self)@ + 1,
            final(self).spec_fence() == old(self).spec_fence(),
            final(self).spec_event() == old(self).spec_event(),
    {
        self.value = self.value + 1;
    }

    /// Given the value the GPU has completed, the value to block for before
    /// all submitted work is done; `None` when it already is.
    pub fn wait_target(&self, completed: u64) -> (r: Option<u64>)
        ensures
            r == (if completed < self@ {
                Some(self@)
            } else {
                None
            }),
    {
        if completed < self.value {
            Some(self.value)
        } else {
            None
        }
    }
}

} // verus!
