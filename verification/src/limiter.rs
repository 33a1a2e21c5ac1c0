//! Counting admission gate that bounds the number of in-flight probes.

use vstd::prelude::*;

verus! {

/// Admission gate with a fixed capacity. At any moment the number of
/// outstanding slots never exceeds the capacity; the scheduler around the
/// engine suspends a probe task until `try_acquire` succeeds.
pub struct ConcurrencyLimiter {
    pub capacity: usize,
    pub in_flight: usize,
}

impl ConcurrencyLimiter {
    /// Well-formedness: outstanding probes never exceed the configured limit.
    pub open spec fn wf(&self) -> bool {
        self.in_flight <= self.capacity
    }

    pub fn new(capacity: usize) -> (r: ConcurrencyLimiter)
        requires
            capacity > 0,
        ensures
            r.wf(),
            r.capacity == capacity,
            r.in_flight == 0,
    {
        ConcurrencyLimiter { capacity, in_flight: 0 }
    }

    /// Takes a slot when one is free; reports whether admission succeeded.
    pub fn try_acquire(&mut self) -> (ok: bool)
        requires
            old(self).wf(),
        ensures
            final(self).wf(),
            final(self).capacity == old(self).capacity,
            ok == (old(self).in_flight < old(self).capacity),
            ok ==> final(self).in_flight == old(self).in_flight + 1,
            !ok ==> final(self).in_flight == old(self).in_flight,
    {
        if self.in_flight < self.capacity {
            self.in_flight = self.in_flight + 1;
            true
        } else {
            false
        }
    }

    /// Returns a slot taken by `try_acquire`.
    pub fn release(&mut self)
        requires
            old(self).wf(),
            old(self).in_flight > 0,
        ensures
            final(self).wf(),
            final(self).capacity == old(self).capacity,
            final(self).in_flight == old(self).in_flight - 1,
    {
        self.in_flight = self.in_flight - 1;
    }
}

} // verus!
