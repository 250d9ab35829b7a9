//! The simple spin-gate throttler.
//!
//! The simplified rate gate: at most one call per `delay_ns`
//! nanoseconds, with no burst capacity and no queuing fairness. The
//! caller spins (yielding) until [`Throttler::try_pass`] admits it;
//! the clock and the spinning live outside this module, which owns
//! only the decision.

use vstd::prelude::*;

verus! {

/// The mathematical state of a throttler: its delay and whether any
/// call has passed yet.
pub struct ThrottlerModel {
    pub delay_ns: int,
    pub primed: bool,
}

/// A gate admitting at most one call per `delay_ns` nanoseconds. The
/// very first call is always admitted; after that, a call is admitted
/// only once the full delay has elapsed since the previous one.
pub struct Throttler {
    delay_ns: u64,
    primed: bool,
}

impl View for Throttler {
    type V = ThrottlerModel;

    closed spec fn view(&self) -> ThrottlerModel {
        ThrottlerModel { delay_ns: self.delay_ns as int, primed: self.primed }
    }
}

impl Throttler {
    /// A fresh gate that has never granted a pass.
    pub fn new(delay_ns: u64) -> (r: Throttler)
        ensures
            r@.delay_ns == delay_ns,
            !r@.primed,
    {
        Throttler { delay_ns, primed: false }
    }

    /// One admission decision, `elapsed_ns` nanoseconds after the
    /// last admitted call: admitted exactly when no call was admitted
    /// yet or the full delay has elapsed. The caller's clock restarts
    /// from the moment of an admission.
    pub fn try_pass(&mut self, elapsed_ns: u64) -> (granted: bool)
        ensures
            granted == (!old(self)@.primed || elapsed_ns >= old(self)@.delay_ns),
            final(self)@.delay_ns == old(self)@.delay_ns,
            final(self)@.primed == (old(self)@.primed || granted),
    {
        if !self.primed || elapsed_ns >= self.delay_ns {
            self.primed = true;
            true
        } else {
            false
        }
    }
}

} // verus!
