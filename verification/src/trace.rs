//! Traceroute: one probe per hop starting at TTL 1, incrementing until the
//! destination responds or the hop cap is reached. The session is strictly
//! sequential; the caller performs each probe and hands its outcome back.

use vstd::prelude::*;

verus! {

/// Outcome of one hop probe.
#[derive(Clone, Copy, PartialEq, Eq, Structural, Debug)]
pub enum HopOutcome {
    Responded { addr: u32, rtt_us: u64 },
    NoResponse,
}

/// One hop of the path: the probed TTL, and the responding address with its
/// round-trip time, or neither when the hop stayed silent.
#[derive(Clone, Copy, PartialEq, Eq, Structural, Debug)]
pub struct Hop {
    pub ttl: u8,
    pub addr: Option<u32>,
    pub rtt_us: Option<u64>,
}

/// Completed trace: an ordered hop sequence, terminated by a destination
/// response (`reached`) or by the hop cap (inconclusive, not an error).
#[derive(Clone, Debug)]
pub struct TraceResult {
    /// Destination address (IPv4 as `u32`).
    pub dest: u32,
    pub max_hops: u8,
    pub hops: Vec<Hop>,
    pub reached: bool,
}

/// Whether the outcome is a response from the destination itself.
pub open spec fn responds_dest(o: HopOutcome, dest: u32) -> bool {
    match o {
        HopOutcome::Responded { addr, rtt_us } => addr == dest,
        HopOutcome::NoResponse => false,
    }
}

/// The hop recorded for the probe at `ttl` with outcome `o`.
pub open spec fn hop_of(ttl: u8, o: HopOutcome) -> Hop {
    match o {
        HopOutcome::Responded { addr, rtt_us } => Hop {
            ttl,
            addr: Some(addr),
            rtt_us: Some(rtt_us),
        },
        HopOutcome::NoResponse => Hop { ttl, addr: None, rtt_us: None },
    }
}

/// A trace in progress. Hops are appended one at a time, in TTL order.
pub struct TraceSession {
    pub dest: u32,
    pub max_hops: u8,
    pub hops: Vec<Hop>,
    pub reached: bool,
}

impl TraceSession {
    /// Well-formedness: never more hops than the cap, hop `i` carries TTL
    /// `i + 1`, and the destination's response — if any — is exactly the
    /// last hop.
    pub open spec fn wf(&self) -> bool {
        &&& self.max_hops >= 1
        &&& self.hops@.len() <= self.max_hops
        &&& forall|i: int| 0 <= i < self.hops@.len() ==> #[trigger] self.hops@[i].ttl == i + 1
        &&& forall|i: int|
            0 <= i < self.hops@.len() - 1 ==> #[trigger] self.hops@[i].addr != Some(self.dest)
        &&& (self.reached <==> (self.hops@.len() > 0 && self.hops@.last().addr == Some(
            self.dest,
        )))
    }

    /// Whether the trace is complete: destination reached or hop cap hit.
    pub open spec fn done(&self) -> bool {
        self.reached || self.hops@.len() == self.max_hops
    }

    pub fn new(dest: u32, max_hops: u8) -> (r: TraceSession)
        requires
            max_hops >= 1,
        ensures
            r.wf(),
            r.dest == dest,
            r.max_hops == max_hops,
            r.hops@.len() == 0,
            !r.reached,
            !r.done(),
    {
        TraceSession { dest, max_hops, hops: Vec::new(), reached: false }
    }

    /// The TTL the next probe must carry.
    pub fn next_ttl(&self) -> (r: u8)
        requires
            self.wf(),
            !self.done(),
        ensures
            r == self.hops@.len() + 1,
    {
        (self.hops.len() + 1) as u8
    }

    /// Records the outcome of the probe at the current TTL; reports whether
    /// the trace is now complete.
    pub fn record_hop(&mut self, o: HopOutcome) -> (done: bool)
        requires
            old(self).wf(),
            !old(self).done(),
        ensures
            final(self).wf(),
            final(self).dest == old(self).dest,
            final(self).max_hops == old(self).max_hops,
            final(self).hops@ == old(self).hops@.push(
                hop_of((old(self).hops@.len() + 1) as u8, o),
            ),
            final(self).reached == responds_dest(o, old(self).dest),
            done == final(self).done(),
    {
        let ttl = (self.hops.len() + 1) as u8;
        let (hop, hit) = match o {
            HopOutcome::Responded { addr, rtt_us } => (
                Hop { ttl, addr: Some(addr), rtt_us: Some(rtt_us) },
                addr == self.dest,
            ),
            HopOutcome::NoResponse => (Hop { ttl, addr: None, rtt_us: None }, false),
        };
        self.hops.push(hop);
        self.reached = hit;
        hit || self.hops.len() == self.max_hops as usize
    }

    /// Seals the completed trace. The result has at most `max_hops` hops;
    /// when the destination responded it is exactly the last hop, and
    /// otherwise the sequence is exactly `max_hops` long.
    pub fn finish(self) -> (r: TraceResult)
        requires
            self.wf(),
            self.done(),
        ensures
            r.dest == self.dest,
            r.max_hops == self.max_hops,
            r.hops@ == self.hops@,
            r.reached == self.reached,
            r.hops@.len() <= r.max_hops,
            forall|i: int| 0 <= i < r.hops@.len() ==> #[trigger] r.hops@[i].ttl == i + 1,
            r.reached ==> r.hops@.len() > 0 && r.hops@.last().addr == Some(r.dest),
            r.reached ==> forall|i: int|
                0 <= i < r.hops@.len() - 1 ==> #[trigger] r.hops@[i].addr != Some(r.dest),
            !r.reached ==> r.hops@.len() == r.max_hops && forall|i: int|
                0 <= i < r.hops@.len() ==> #[trigger] r.hops@[i].addr != Some(r.dest),
    {
        proof {
            if !self.reached {
                assert(forall|i: int|
                    0 <= i < self.hops@.len() ==> #[trigger] self.hops@[i].addr != Some(
                        self.dest,
                    ));
            }
        }
        TraceResult {
            dest: self.dest,
            max_hops: self.max_hops,
            hops: self.hops,
            reached: self.reached,
        }
    }
}

} // verus!
