//! Port scanning: classification of per-port probe outcomes and aggregation
//! of the completed probes into a result sorted by port number.

use vstd::prelude::*;
use crate::config::{ScanTechnique, is_port_technique};

verus! {

broadcast use vstd::seq_lib::group_to_multiset_ensures;

/// Transport protocol of a probed port.
#[derive(Clone, Copy, PartialEq, Eq, Structural, Debug)]
pub enum Protocol {
    Tcp,
    Udp,
}

/// Verdict on one port.
#[derive(Clone, Copy, PartialEq, Eq, Structural, Debug)]
pub enum PortState {
    Open,
    Closed,
    Filtered,
}

/// What a port probe got back, when anything came back at all.
#[derive(Clone, Copy, PartialEq, Eq, Structural, Debug)]
pub enum PortReply {
    /// SYN-ACK segment (SYN scan).
    SynAck,
    /// RST segment (SYN scan).
    Rst,
    /// Completed handshake (connect scan).
    Accepted,
    /// Connection refused (connect scan).
    Refused,
    /// Any datagram back from the probed port (UDP scan).
    Payload,
}

/// Outcome of one port probe.
#[derive(Clone, Copy, PartialEq, Eq, Structural, Debug)]
pub enum PortProbeOutcome {
    Response(PortReply),
    TimedOut,
    Unreachable,
}

/// One entry of a port scan result.
#[derive(Clone, Debug)]
pub struct PortEntry {
    pub port: u16,
    pub protocol: Protocol,
    pub state: PortState,
    /// Detected service name, filled by the service-detection pass.
    pub service: Option<String>,
}

/// Result of a port scan: the target and one entry per configured port,
/// sorted ascending by port number.
#[derive(Clone, Debug)]
pub struct PortScanResult {
    /// Target address (IPv4 as `u32`).
    pub target: u32,
    pub entries: Vec<PortEntry>,
}

/// Protocol a technique probes over.
pub open spec fn protocol_of_spec(t: ScanTechnique) -> Protocol {
    match t {
        ScanTechnique::Udp => Protocol::Udp,
        _ => Protocol::Tcp,
    }
}

/// Port-state classification, per technique. SYN: SYN-ACK is open, RST is
/// closed, anything else is filtered. Connect: acceptance is open, refusal
/// is closed, anything else is filtered. UDP: any response is open, an ICMP
/// unreachable is closed, and silence — which is inherently ambiguous — is
/// classified filtered (the fixed policy of this engine).
pub open spec fn classify_port_spec(t: ScanTechnique, o: PortProbeOutcome) -> PortState
    recommends
        is_port_technique(t),
{
    match t {
        ScanTechnique::Syn => match o {
            PortProbeOutcome::Response(PortReply::SynAck) => PortState::Open,
            PortProbeOutcome::Response(PortReply::Rst) => PortState::Closed,
            _ => PortState::Filtered,
        },
        ScanTechnique::Connect => match o {
            PortProbeOutcome::Response(PortReply::Accepted) => PortState::Open,
            PortProbeOutcome::Response(PortReply::Refused) => PortState::Closed,
            _ => PortState::Filtered,
        },
        ScanTechnique::Udp => match o {
            PortProbeOutcome::Response(_) => PortState::Open,
            PortProbeOutcome::Unreachable => PortState::Closed,
            PortProbeOutcome::TimedOut => PortState::Filtered,
        },
        _ => PortState::Filtered,
    }
}

/// Classifies one probe outcome into a port state.
pub fn classify_port(t: ScanTechnique, o: &PortProbeOutcome) -> (r: PortState)
    requires
        is_port_technique(t),
    ensures
        r == classify_port_spec(t, *o),
{
    match t {
        ScanTechnique::Syn => match o {
            PortProbeOutcome::Response(PortReply::SynAck) => PortState::Open,
            PortProbeOutcome::Response(PortReply::Rst) => PortState::Closed,
            _ => PortState::Filtered,
        },
        ScanTechnique::Connect => match o {
            PortProbeOutcome::Response(PortReply::Accepted) => PortState::Open,
            PortProbeOutcome::Response(PortReply::Refused) => PortState::Closed,
            _ => PortState::Filtered,
        },
        ScanTechnique::Udp => match o {
            PortProbeOutcome::Response(_) => PortState::Open,
            PortProbeOutcome::Unreachable => PortState::Closed,
            PortProbeOutcome::TimedOut => PortState::Filtered,
        },
        _ => PortState::Filtered,
    }
}

/// Entries sorted ascending by port number.
pub open spec fn sorted_by_port(s: Seq<PortEntry>) -> bool {
    forall|i: int, j: int| 0 <= i <= j < s.len() ==> s[i].port <= s[j].port
}

/// The entry the scan owes for configured port `ports[i]` with outcome
/// `outcomes[i]`: the classified state, the technique's protocol, and no
/// service name yet.
pub open spec fn expected_port_entries(
    t: ScanTechnique,
    ports: Seq<u16>,
    outcomes: Seq<PortProbeOutcome>,
) -> Seq<PortEntry>
    recommends
        ports.len() == outcomes.len(),
{
    Seq::new(
        ports.len(),
        |i: int|
            PortEntry {
                port: ports[i],
                protocol: protocol_of_spec(t),
                state: classify_port_spec(t, outcomes[i]),
                service: None,
            },
    )
}

fn min_port_index(v: &Vec<PortEntry>) -> (r: usize)
    requires
        v@.len() > 0,
    ensures
        r < v@.len(),
        forall|j: int| 0 <= j < v@.len() ==> v@[r as int].port <= v@[j].port,
{
    let mut best: usize = 0;
    let mut i: usize = 1;
    while i < v.len()
        invariant
            best < v@.len(),
            i <= v@.len(),
            forall|j: int| 0 <= j < i ==> v@[best as int].port <= v@[j].port,
        decreases v@.len() - i,
    {
        if v[i].port < v[best].port {
            best = i;
        }
        i = i + 1;
    }
    best
}

/// Sorts entries ascending by port number; keeps exactly the same entries
/// (as a multiset).
pub fn sort_by_port(entries: Vec<PortEntry>) -> (r: Vec<PortEntry>)
    ensures
        sorted_by_port(r@),
        r@.to_multiset() == entries@.to_multiset(),
        r@.len() == entries@.len(),
{
    let ghost orig = entries@.to_multiset();
    let mut rest = entries;
    let mut out: Vec<PortEntry> = Vec::new();
    while rest.len() > 0
        invariant
            sorted_by_port(out@),
            out@.to_multiset().add(rest@.to_multiset()) == orig,
            out@.len() + rest@.len() == orig.len(),
            forall|i: int, j: int|
                0 <= i < out@.len() && 0 <= j < rest@.len() ==> out@[i].port <= rest@[j].port,
        decreases rest@.len(),
    {
        let m = min_port_index(&rest);
        let ghost rest_before = rest@;
        let e = rest.remove(m);
        proof {
            assert(rest_before.contains(e));
            assert(rest_before.to_multiset().count(e) > 0);
        }
        out.push(e);
        proof {
            assert(out@.to_multiset().add(rest@.to_multiset()) =~= orig);
        }
    }
    proof {
        assert(out@.to_multiset().add(rest@.to_multiset()) =~= out@.to_multiset());
        assert(out@.to_multiset() == orig);
    }
    out
}

/// Builds the completed result of a port scan over `ports` whose per-port
/// probe outcomes are `outcomes` (aligned by index, in whatever order the
/// concurrent probes completed). The result has exactly one entry per
/// configured port, sorted ascending by port number, each entry carrying
/// the classified state; service names are left unset for the later
/// service-detection pass.
pub fn port_scan_from_outcomes(
    target: u32,
    t: ScanTechnique,
    ports: &Vec<u16>,
    outcomes: &Vec<PortProbeOutcome>,
) -> (r: PortScanResult)
    requires
        is_port_technique(t),
        ports@.len() == outcomes@.len(),
    ensures
        r.target == target,
        r.entries@.len() == ports@.len(),
        sorted_by_port(r.entries@),
        r.entries@.to_multiset() == expected_port_entries(t, ports@, outcomes@).to_multiset(),
{
    let ghost expected = expected_port_entries(t, ports@, outcomes@);
    let mut built: Vec<PortEntry> = Vec::new();
    let proto = match t {
        ScanTechnique::Udp => Protocol::Udp,
        _ => Protocol::Tcp,
    };
    let mut i: usize = 0;
    while i < ports.len()
        invariant
            is_port_technique(t),
            ports@.len() == outcomes@.len(),
            i <= ports@.len(),
            proto == protocol_of_spec(t),
            expected == expected_port_entries(t, ports@, outcomes@),
            built@ =~= expected.subrange(0, i as int),
        decreases ports@.len() - i,
    {
        let state = classify_port(t, &outcomes[i]);
        built.push(PortEntry { port: ports[i], protocol: proto, state, service: None });
        proof {
            assert(built@ =~= expected.subrange(0, i + 1));
        }
        i = i + 1;
    }
    proof {
        assert(built@ =~= expected);
    }
    let entries = sort_by_port(built);
    PortScanResult { target, entries }
}

/// The ports of the entries classified open, in result order: the input of
/// the service-detection pass.
pub open spec fn open_ports_spec(s: Seq<PortEntry>) -> Seq<u16>
    decreases s.len(),
{
    if s.len() == 0 {
        Seq::empty()
    } else if s.last().state == PortState::Open {
        open_ports_spec(s.drop_last()).push(s.last().port)
    } else {
        open_ports_spec(s.drop_last())
    }
}

/// `e` with its service name set to `name`.
pub open spec fn with_service(e: PortEntry, name: String) -> PortEntry {
    PortEntry { port: e.port, protocol: e.protocol, state: e.state, service: Some(name) }
}

impl PortScanResult {
    /// Lists the ports classified open, in entry order.
    pub fn open_ports(&self) -> (r: Vec<u16>)
        ensures
            r@ == open_ports_spec(self.entries@),
    {
        let mut r: Vec<u16> = Vec::new();
        let mut i: usize = 0;
        while i < self.entries.len()
            invariant
                i <= self.entries@.len(),
                r@ == open_ports_spec(self.entries@.subrange(0, i as int)),
            decreases self.entries@.len() - i,
        {
            let e = &self.entries[i];
            if e.state == PortState::Open {
                r.push(e.port);
            }
            proof {
                assert(self.entries@.subrange(0, i + 1).drop_last() =~= self.entries@.subrange(
                    0,
                    i as int,
                ));
                assert(self.entries@.subrange(0, i + 1).last() == self.entries@[i as int]);
            }
            i = i + 1;
        }
        proof {
            assert(self.entries@.subrange(0, self.entries@.len() as int) =~= self.entries@);
        }
        r
    }

    /// Records a detected service name on every open entry for `port`;
    /// every other entry is left exactly as it was.
    pub fn set_service(&mut self, port: u16, name: String)
        ensures
            final(self).target == old(self).target,
            final(self).entries@.len() == old(self).entries@.len(),
            forall|i: int|
                0 <= i < old(self).entries@.len() ==> #[trigger] final(self).entries@[i] == (if old(
                    self,
                ).entries@[i].port == port && old(self).entries@[i].state == PortState::Open {
                    with_service(old(self).entries@[i], name)
                } else {
                    old(self).entries@[i]
                }),
    {
        let ghost orig = self.entries@;
        let ghost target0 = self.target;
        let mut i: usize = 0;
        while i < self.entries.len()
            invariant
                self.target == target0,
                i <= orig.len(),
                self.entries@.len() == orig.len(),
                forall|j: int|
                    i <= j < orig.len() ==> #[trigger] self.entries@[j] == orig[j],
                forall|j: int|
                    0 <= j < i ==> #[trigger] self.entries@[j] == (if orig[j].port == port
                        && orig[j].state == PortState::Open {
                        with_service(orig[j], name)
                    } else {
                        orig[j]
                    }),
            decreases orig.len() - i,
    {
            if self.entries[i].port == port && self.entries[i].state == PortState::Open {
                let updated = PortEntry {
                    port: self.entries[i].port,
                    protocol: self.entries[i].protocol,
                    state: self.entries[i].state,
                    service: Some(name.clone()),
                };
                self.entries.set(i, updated);
            }
            i = i + 1;
        }
    }
}

} // verus!
