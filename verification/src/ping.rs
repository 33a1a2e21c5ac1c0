//! Ping statistics: exactly N echo probes are sent sequentially; each probe
//! yields a round-trip time or an explicit loss marker, and the aggregate is
//! computed at completion. Average and standard deviation are taken over the
//! received probes only; the loss percentage is counted against N.
//!
//! Round-trip times are microseconds held in `u64`; every statistic is
//! integer arithmetic (averages and percentages round down, the standard
//! deviation is the integer square root of the variance).

use vstd::prelude::*;
use vstd::arithmetic::div_mod::{lemma_div_is_ordered, lemma_div_multiples_vanish};

verus! {

/// A probe value small enough that the aggregates cannot overflow: below
/// 2^32 microseconds (over an hour), far beyond any per-probe timeout.
pub open spec fn rtt_bounded(o: Option<u64>) -> bool {
    match o {
        Some(v) => v < 0x1_0000_0000,
        None => true,
    }
}

/// How many probes got an answer.
pub open spec fn count_received(s: Seq<Option<u64>>) -> nat
    decreases s.len(),
{
    if s.len() == 0 {
        0
    } else {
        count_received(s.drop_last()) + (if s.last() is Some {
            1nat
        } else {
            0nat
        })
    }
}

/// Sum of the received round-trip times.
pub open spec fn sum_received(s: Seq<Option<u64>>) -> int
    decreases s.len(),
{
    if s.len() == 0 {
        0
    } else {
        sum_received(s.drop_last()) + (match s.last() {
            Some(v) => v as int,
            None => 0,
        })
    }
}

/// Minimum received round-trip time (`u64::MAX` when none was received).
pub open spec fn min_received(s: Seq<Option<u64>>) -> int
    decreases s.len(),
{
    if s.len() == 0 {
        0xFFFF_FFFF_FFFF_FFFF as int
    } else {
        match s.last() {
            Some(v) => if v < min_received(s.drop_last()) {
                v as int
            } else {
                min_received(s.drop_last())
            },
            None => min_received(s.drop_last()),
        }
    }
}

/// Maximum received round-trip time (0 when none was received).
pub open spec fn max_received(s: Seq<Option<u64>>) -> int
    decreases s.len(),
{
    if s.len() == 0 {
        0
    } else {
        match s.last() {
            Some(v) => if v > max_received(s.drop_last()) {
                v as int
            } else {
                max_received(s.drop_last())
            },
            None => max_received(s.drop_last()),
        }
    }
}

/// Sum of squared deviations of the received round-trip times from `avg`.
pub open spec fn sum_sq_diff(s: Seq<Option<u64>>, avg: int) -> int
    decreases s.len(),
{
    if s.len() == 0 {
        0
    } else {
        sum_sq_diff(s.drop_last(), avg) + (match s.last() {
            Some(v) => (v - avg) * (v - avg),
            None => 0,
        })
    }
}

/// Aggregated outcome of one ping run.
#[derive(Clone, Debug)]
pub struct PingStat {
    /// Target address (IPv4 as `u32`).
    pub target: u32,
    /// Per-probe outcomes in send order: a round-trip time, or `None` for a
    /// lost probe. Never shortened: a failure is an explicit entry.
    pub probes: Vec<Option<u64>>,
    pub sent: usize,
    pub received: usize,
    /// Percentage of probes lost, counted against the sent count (rounded
    /// down).
    pub loss_percentage: u64,
    pub min_rtt: u64,
    pub max_rtt: u64,
    pub avg_rtt: u64,
    /// Integer square root of the variance of the received probes.
    pub stddev_rtt: u64,
}

/// Floor of the square root: the greatest `r` with `r * r <= v`.
pub fn isqrt(v: u64) -> (r: u64)
    ensures
        r * r <= v,
        (r + 1) * (r + 1) > v,
{
    if v == 0 {
        return 0;
    }
    let mut lo: u64 = 0;
    let mut hi: u64 = 0x1_0000_0000;
    while hi - lo > 1
        invariant
            lo < hi,
            hi <= 0x1_0000_0000,
            lo * lo <= v,
            hi * hi > v,
        decreases hi - lo,
    {
        let mid = lo + (hi - lo) / 2;
        proof {
            assert((mid as int) * (mid as int) <= 0x1_0000_0000_0000_0000) by (nonlinear_arith)
                requires
                    mid <= 0x1_0000_0000,
            ;
        }
        let sq: u128 = (mid as u128) * (mid as u128);
        if sq <= v as u128 {
            lo = mid;
        } else {
            hi = mid;
        }
    }
    lo
}

/// Computes the aggregate statistics of a completed ping run from the
/// per-probe outcomes (a round-trip time, or `None` for a loss).
pub fn compute_ping_stat(target: u32, probes: Vec<Option<u64>>) -> (r: PingStat)
    requires
        probes@.len() >= 1,
        probes@.len() <= 0x1_0000_0000,
        forall|i: int| 0 <= i < probes@.len() ==> rtt_bounded(#[trigger] probes@[i]),
    ensures
        r.target == target,
        r.probes@ == probes@,
        r.sent == probes@.len(),
        r.received == count_received(probes@),
        r.received <= r.sent,
        r.loss_percentage == 100 * (probes@.len() - count_received(probes@)) / probes@.len() as int,
        count_received(probes@) > 0 ==> r.min_rtt == min_received(probes@),
        count_received(probes@) > 0 ==> r.max_rtt == max_received(probes@),
        count_received(probes@) > 0 ==> r.avg_rtt == sum_received(probes@) / count_received(
            probes@,
        ) as int,
        count_received(probes@) > 0 ==> r.stddev_rtt * r.stddev_rtt <= sum_sq_diff(
            probes@,
            r.avg_rtt as int,
        ) / count_received(probes@) as int,
        count_received(probes@) > 0 ==> (r.stddev_rtt + 1) * (r.stddev_rtt + 1) > sum_sq_diff(
            probes@,
            r.avg_rtt as int,
        ) / count_received(probes@) as int,
        count_received(probes@) == 0 ==> r.min_rtt == 0 && r.max_rtt == 0 && r.avg_rtt == 0
            && r.stddev_rtt == 0,
{
    let n = probes.len();
    let mut count: usize = 0;
    let mut sum: u64 = 0;
    let mut min: u64 = 0xFFFF_FFFF_FFFF_FFFF;
    let mut max: u64 = 0;
    let mut i: usize = 0;
    while i < n
        invariant
            n == probes@.len(),
            n <= 0x1_0000_0000,
            i <= n,
            forall|k: int| 0 <= k < probes@.len() ==> rtt_bounded(#[trigger] probes@[k]),
            count == count_received(probes@.subrange(0, i as int)),
            count <= i,
            sum == sum_received(probes@.subrange(0, i as int)),
            sum <= count * 0xFFFF_FFFF,
            min == min_received(probes@.subrange(0, i as int)),
            max == max_received(probes@.subrange(0, i as int)),
        decreases n - i,
    {
        proof {
            assert(probes@.subrange(0, i + 1).drop_last() =~= probes@.subrange(0, i as int));
            assert(probes@.subrange(0, i + 1).last() == probes@[i as int]);
        }
        match probes[i] {
            Some(v) => {
                count = count + 1;
                sum = sum + v;
                if v < min {
                    min = v;
                }
                if v > max {
                    max = v;
                }
            },
            None => {},
        }
        i = i + 1;
    }
    proof {
        assert(probes@.subrange(0, n as int) =~= probes@);
    }
    let loss_percentage: u64 = 100 * ((n - count) as u64) / (n as u64);
    if count == 0 {
        return PingStat {
            target,
            probes,
            sent: n,
            received: 0,
            loss_percentage,
            min_rtt: 0,
            max_rtt: 0,
            avg_rtt: 0,
            stddev_rtt: 0,
        };
    }
    proof {
        lemma_div_is_ordered(sum as int, count * 0xFFFF_FFFF, count as int);
        lemma_div_multiples_vanish(0xFFFF_FFFF, count as int);
        assert(count * 0xFFFF_FFFF == 0xFFFF_FFFF * count);
        assert(sum as int / count as int <= 0xFFFF_FFFF);
    }
    let avg: u64 = sum / (count as u64);
    let mut sqsum: u128 = 0;
    let mut j: usize = 0;
    while j < n
        invariant
            n == probes@.len(),
            n <= 0x1_0000_0000,
            j <= n,
            avg <= 0xFFFF_FFFF,
            forall|k: int| 0 <= k < probes@.len() ==> rtt_bounded(#[trigger] probes@[k]),
            sqsum == sum_sq_diff(probes@.subrange(0, j as int), avg as int),
            sqsum <= count_received(probes@.subrange(0, j as int)) * 0xFFFF_FFFE_0000_0001,
            count_received(probes@.subrange(0, j as int)) <= j,
        decreases n - j,
    {
        proof {
            assert(probes@.subrange(0, j + 1).drop_last() =~= probes@.subrange(0, j as int));
            assert(probes@.subrange(0, j + 1).last() == probes@[j as int]);
        }
        match probes[j] {
            Some(v) => {
                let diff: u64 = if v >= avg {
                    v - avg
                } else {
                    avg - v
                };
                proof {
                    assert(diff <= 0xFFFF_FFFF);
                    assert((diff as int) * (diff as int) <= 0xFFFF_FFFE_0000_0001)
                        by (nonlinear_arith)
                        requires
                            diff <= 0xFFFF_FFFF,
                    ;
                }
                let sq: u128 = (diff as u128) * (diff as u128);
                proof {
                    if v >= avg {
                        assert(sq == (v - avg) * (v - avg));
                    } else {
                        assert((avg - v) * (avg - v) == (v - avg) * (v - avg))
                            by (nonlinear_arith);
                        assert(sq == (v - avg) * (v - avg));
                    }
                }
                sqsum = sqsum + sq;
            },
            None => {},
        }
        j = j + 1;
    }
    proof {
        assert(probes@.subrange(0, n as int) =~= probes@);
        assert(count_received(probes@) == count);
        lemma_div_is_ordered(sqsum as int, count * 0xFFFF_FFFE_0000_0001, count as int);
        lemma_div_multiples_vanish(0xFFFF_FFFE_0000_0001, count as int);
        assert(count * 0xFFFF_FFFE_0000_0001 == 0xFFFF_FFFE_0000_0001 * count);
        assert(sqsum as int / count as int <= 0xFFFF_FFFE_0000_0001);
    }
    let variance: u64 = (sqsum / (count as u128)) as u64;
    let stddev = isqrt(variance);
    PingStat {
        target,
        probes,
        sent: n,
        received: count,
        loss_percentage,
        min_rtt: min,
        max_rtt: max,
        avg_rtt: avg,
        stddev_rtt: stddev,
    }
}

} // verus!
