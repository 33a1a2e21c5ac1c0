use scan_engine::ping::{compute_ping_stat, isqrt};
use scan_engine::trace::{HopOutcome, TraceSession};

#[test]
fn ping_four_probes_one_loss() {
    // count=4, one loss: sent 4, received 3, loss 25%; min/max/avg over the
    // three received round-trip times.
    let probes = vec![Some(1000u64), Some(2000), None, Some(3000)];
    let stat = compute_ping_stat(0x0A000001, probes);
    assert_eq!(stat.sent, 4);
    assert_eq!(stat.received, 3);
    assert_eq!(stat.loss_percentage, 25);
    assert_eq!(stat.min_rtt, 1000);
    assert_eq!(stat.max_rtt, 3000);
    assert_eq!(stat.avg_rtt, 2000);
    // variance = (1000^2 + 0 + 1000^2) / 3 = 666666; floor sqrt is 816.
    assert_eq!(stat.stddev_rtt, 816);
    assert_eq!(stat.probes.len(), 4);
    assert_eq!(stat.probes[2], None);
}

#[test]
fn ping_all_lost() {
    let probes = vec![None, None];
    let stat = compute_ping_stat(1, probes);
    assert_eq!(stat.sent, 2);
    assert_eq!(stat.received, 0);
    assert_eq!(stat.loss_percentage, 100);
    assert_eq!(stat.min_rtt, 0);
    assert_eq!(stat.max_rtt, 0);
    assert_eq!(stat.avg_rtt, 0);
    assert_eq!(stat.stddev_rtt, 0);
}

#[test]
fn ping_single_probe() {
    let stat = compute_ping_stat(1, vec![Some(500u64)]);
    assert_eq!(stat.sent, 1);
    assert_eq!(stat.received, 1);
    assert_eq!(stat.loss_percentage, 0);
    assert_eq!(stat.min_rtt, 500);
    assert_eq!(stat.max_rtt, 500);
    assert_eq!(stat.avg_rtt, 500);
    assert_eq!(stat.stddev_rtt, 0);
}

#[test]
fn isqrt_edges() {
    assert_eq!(isqrt(0), 0);
    assert_eq!(isqrt(1), 1);
    assert_eq!(isqrt(15), 3);
    assert_eq!(isqrt(16), 4);
    assert_eq!(isqrt(u64::MAX), 0xFFFF_FFFF);
}

#[test]
fn trace_reaches_destination_midway() {
    let dest = 0x08080808;
    let mut s = TraceSession::new(dest, 5);
    assert_eq!(s.next_ttl(), 1);
    let done = s.record_hop(HopOutcome::Responded { addr: 0x0A000001, rtt_us: 900 });
    assert!(!done);
    assert_eq!(s.next_ttl(), 2);
    let done = s.record_hop(HopOutcome::NoResponse);
    assert!(!done);
    assert_eq!(s.next_ttl(), 3);
    let done = s.record_hop(HopOutcome::Responded { addr: dest, rtt_us: 2500 });
    assert!(done);
    let r = s.finish();
    assert!(r.reached);
    assert_eq!(r.hops.len(), 3);
    assert_eq!(r.hops[0].ttl, 1);
    assert_eq!(r.hops[1].ttl, 2);
    assert_eq!(r.hops[1].addr, None);
    assert_eq!(r.hops[1].rtt_us, None);
    assert_eq!(r.hops[2].ttl, 3);
    assert_eq!(r.hops[2].addr, Some(dest));
}

#[test]
fn trace_hits_hop_cap_without_answer() {
    let mut s = TraceSession::new(0x08080808, 3);
    assert!(!s.record_hop(HopOutcome::NoResponse));
    assert!(!s.record_hop(HopOutcome::NoResponse));
    assert!(s.record_hop(HopOutcome::NoResponse));
    let r = s.finish();
    assert!(!r.reached);
    assert_eq!(r.hops.len(), 3);
    for h in &r.hops {
        assert_eq!(h.addr, None);
    }
}

#[test]
fn trace_destination_on_first_hop() {
    let mut s = TraceSession::new(7, 10);
    assert!(s.record_hop(HopOutcome::Responded { addr: 7, rtt_us: 100 }));
    let r = s.finish();
    assert!(r.reached);
    assert_eq!(r.hops.len(), 1);
    assert_eq!(r.hops[0].addr, Some(7));
}
