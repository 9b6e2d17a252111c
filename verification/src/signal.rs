//! The termination coordinator: one shared boolean, "the session should
//! stop".
//!
//! Any holder may raise it; raising again changes nothing; and no
//! operation ever clears it, so within a session the flag is monotonic.
//! Every holder can test it cheaply without blocking. The surrounding
//! runtime mirrors one value of this type to all tasks of a session.

use vstd::prelude::*;

verus! {

/// The shared stop flag of one session.
#[derive(Clone, Copy, Debug, PartialEq, Eq, Structural)]
pub struct TerminationSignal {
    raised: bool,
}

impl TerminationSignal {
    /// Whether the signal has been raised.
    pub closed spec fn spec_raised(&self) -> bool {
        self.raised
    }

    /// A fresh, unraised signal.
    pub fn new() -> (r: TerminationSignal)
        ensures
            !r.spec_raised(),
    {
        TerminationSignal { raised: false }
    }

    /// Request the session to stop. Idempotent: raising an already raised
    /// signal leaves it exactly as it was, and nothing ever lowers it.
    pub fn raise(&mut self)
        ensures
            final(self).spec_raised(),
            old(self).spec_raised() ==> *final(self) == *old(self),
    {
        self.raised = true;
    }

    /// Test the flag without blocking or changing it.
    pub fn is_raised(&self) -> (r: bool)
        ensures
            r == self.spec_raised(),
    {
        self.raised
    }
}

} // verus!
