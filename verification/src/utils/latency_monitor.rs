//! Sliding-window latency statistics. Latencies are measured in nanoseconds.

use std::collections::VecDeque;
use std::time::Instant;
use vstd::prelude::*;
use vstd::relations::{sorted_by, total_ordering};
use vstd::seq_lib::lemma_sorted_unique;

use crate::utils::clock::{instant_now, nanos_since};
use crate::utils::window::{keep_recent, RecentWindow};

verus! {

broadcast use vstd::std_specs::vecdeque::group_vec_dequeue_axioms, vstd::seq_lib::group_to_multiset_ensures;

/// Nanoseconds in one millisecond.
pub const NANOS_PER_MILLI: u128 = 1_000_000;

/// The longest duration std can hold, in nanoseconds: `u64::MAX` seconds
/// and 999,999,999 nanoseconds.
pub const MAX_DURATION_NANOS: u128 = 18_446_744_073_709_551_615_999_999_999;

/// Divisor of the mean: the sample count as a `u32`, as `as` truncates it.
pub open spec fn mean_divisor(n: nat) -> nat {
    n % 0x1_0000_0000
}

/// The order latencies are ranked by.
pub open spec fn latency_leq() -> spec_fn(u128, u128) -> bool {
    |a: u128, b: u128| a <= b
}

/// The samples in ascending order.
pub open spec fn sorted_latencies(samples: Seq<u128>) -> Seq<u128> {
    samples.sort_by(latency_leq())
}

/// Sum of the samples.
pub open spec fn sample_sum(samples: Seq<u128>) -> nat
    decreases samples.len(),
{
    if samples.len() == 0 {
        0
    } else {
        sample_sum(samples.drop_last()) + samples.last() as nat
    }
}

/// Index of the `pct` percentile among `n` sorted samples.
pub open spec fn percentile_index(n: nat, pct: nat) -> int {
    (n * pct / 100) as int
}

/// Summary of a window of latencies, each in nanoseconds.
#[derive(Debug, Clone, Copy, PartialEq, Eq, Structural)]
pub struct LatencyStats {
    pub count: usize,
    pub min: u128,
    pub max: u128,
    pub mean: u128,
    pub p50: u128,
    pub p95: u128,
    pub p99: u128,
}

/// The statistics of an empty window: all zero.
pub open spec fn empty_stats() -> LatencyStats {
    LatencyStats { count: 0, min: 0, max: 0, mean: 0, p50: 0, p95: 0, p99: 0 }
}

/// Whether the statistics of a window can be computed: it is empty, or its
/// total fits in a duration, its count as a `u32` is not 0, and 99 times
/// its count fits in a `usize` (otherwise the computation would fail).
pub open spec fn stats_defined(samples: Seq<u128>) -> bool {
    samples.len() == 0 || (sample_sum(samples) <= MAX_DURATION_NANOS && mean_divisor(samples.len())
        != 0 && samples.len() * 99 <= usize::MAX)
}

/// The statistics of a window of samples: count, extremes, the total
/// divided (rounding down) by the count taken as a `u32`, and the samples at
/// ranks n/2, 95n/100 and 99n/100 in ascending order.
pub open spec fn latency_stats(samples: Seq<u128>) -> LatencyStats {
    if samples.len() == 0 {
        empty_stats()
    } else {
        let sorted = sorted_latencies(samples);
        let n = samples.len();
        LatencyStats {
            count: n as usize,
            min: sorted[0],
            max: sorted[n - 1],
            mean: (sample_sum(samples) / mean_divisor(n)) as u128,
            p50: sorted[(n / 2) as int],
            p95: sorted[percentile_index(n, 95)],
            p99: sorted[percentile_index(n, 99)],
        }
    }
}

impl Default for LatencyStats {
    fn default() -> (stats: Self)
        ensures
            stats == empty_stats(),
    {
        LatencyStats { count: 0, min: 0, max: 0, mean: 0, p50: 0, p95: 0, p99: 0 }
    }
}

proof fn lemma_latency_leq_total()
    ensures
        total_ordering(latency_leq()),
{
}

/// Inserts each sample at its place in a growing sorted vector.
fn sorted_copy(samples: &VecDeque<u128>) -> (sorted: Vec<u128>)
    ensures
        sorted@ == sorted_latencies(samples@),
{
    let n = samples.len();
    let mut sorted: Vec<u128> = Vec::new();
    let mut i: usize = 0;
    while i < n
        invariant
            n == samples@.len(),
            i <= n,
            sorted_by(sorted@, latency_leq()),
            sorted@.to_multiset() =~= samples@.take(i as int).to_multiset(),
        decreases n - i,
    {
        let x = samples[i];
        let mut pos: usize = 0;
        while pos < sorted.len() && sorted[pos] <= x
            invariant
                pos <= sorted@.len(),
                forall|k: int| 0 <= k < pos ==> sorted@[k] <= x,
            decreases sorted@.len() - pos,
        {
            pos = pos + 1;
        }
        let ghost before = sorted@;
        proof {
            assert(forall|k: int| pos <= k < before.len() ==> x < before[k]) by {
                assert forall|k: int| pos <= k < before.len() implies x < before[k] by {
                    assert(latency_leq()(before[pos as int], before[k]));
                }
            }
        }
        sorted.insert(pos, x);
        proof {
            before.insert_ensures(pos as int, x);
            assert(sorted@.remove(pos as int) =~= before);
            assert(samples@.take(i + 1) =~= samples@.take(i as int).push(x));
            assert forall|a: int, b: int| 0 <= a < b < sorted@.len() implies
                #[trigger] latency_leq()(sorted@[a], sorted@[b]) by {
                if b < pos {
                    assert(latency_leq()(before[a], before[b]));
                } else if a > pos {
                    assert(latency_leq()(before[a - 1], before[b - 1]));
                } else if a < pos && b > pos {
                    assert(before[a] <= x);
                } else {
                }
            }
        }
        i = i + 1;
    }
    proof {
        assert(samples@.take(n as int) =~= samples@);
        lemma_latency_leq_total();
        samples@.lemma_sort_by_ensures(latency_leq());
        lemma_sorted_unique(sorted@, sorted_latencies(samples@), latency_leq());
    }
    sorted
}

proof fn lemma_prefix_sum_le(samples: Seq<u128>, i: int)
    requires
        0 <= i <= samples.len(),
    ensures
        sample_sum(samples.take(i)) <= sample_sum(samples),
    decreases samples.len(),
{
    if i < samples.len() {
        assert(samples.drop_last().take(i) =~= samples.take(i));
        lemma_prefix_sum_le(samples.drop_last(), i);
    } else {
        assert(samples.take(i) =~= samples);
    }
}

/// Total of the samples, when it fits in a duration.
fn sample_total(samples: &VecDeque<u128>) -> (total: u128)
    requires
        sample_sum(samples@) <= MAX_DURATION_NANOS,
    ensures
        total == sample_sum(samples@),
{
    let n = samples.len();
    let mut total: u128 = 0;
    let mut i: usize = 0;
    while i < n
        invariant
            n == samples@.len(),
            i <= n,
            total == sample_sum(samples@.take(i as int)),
            sample_sum(samples@) <= MAX_DURATION_NANOS,
        decreases n - i,
    {
        proof {
            assert(samples@.take(i + 1).drop_last() =~= samples@.take(i as int));
            lemma_prefix_sum_le(samples@, i + 1);
        }
        total = total + samples[i];
        i = i + 1;
    }
    proof {
        assert(samples@.take(n as int) =~= samples@);
    }
    total
}

/// Index of the `pct` percentile among `n` samples, computed without overflow.
fn rank_of(n: usize, pct: u128) -> (rank: usize)
    requires
        0 < n,
        pct < 100,
    ensures
        rank == percentile_index(n as nat, pct as nat),
        rank < n,
{
    proof {
        assert(n * pct <= 100 * (u64::MAX as int)) by (nonlinear_arith)
            requires
                n <= usize::MAX,
                pct < 100,
        ;
        assert((n * pct) / 100 < n) by (nonlinear_arith)
            requires
                0 < n,
                pct < 100,
        ;
    }
    let r = (n as u128 * pct) / 100;
    r as usize
}

/// Whether [`stats_defined`] holds of a window.
fn window_stats_defined(samples: &VecDeque<u128>) -> (defined: bool)
    ensures
        defined == stats_defined(samples@),
{
    let n = samples.len();
    if n == 0 {
        return true;
    }
    if (n as u128) % 0x1_0000_0000 == 0 || (n as u128) * 99 > usize::MAX as u128 {
        return false;
    }
    let mut total: u128 = 0;
    let mut i: usize = 0;
    while i < n
        invariant
            n == samples@.len(),
            i <= n,
            total == sample_sum(samples@.take(i as int)),
            total <= MAX_DURATION_NANOS,
        decreases n - i,
    {
        proof {
            assert(samples@.take(i + 1).drop_last() =~= samples@.take(i as int));
            lemma_prefix_sum_le(samples@, i + 1);
        }
        match total.checked_add(samples[i]) {
            Some(next) => {
                if next > MAX_DURATION_NANOS {
                    return false;
                }
                total = next;
            },
            None => {
                return false;
            },
        }
        i = i + 1;
    }
    proof {
        assert(samples@.take(n as int) =~= samples@);
    }
    true
}

/// Statistics of a window of samples, as [`latency_stats`] defines them.
fn calculate_stats(samples: &VecDeque<u128>) -> (stats: LatencyStats)
    requires
        stats_defined(samples@),
    ensures
        stats == latency_stats(samples@),
{
    if samples.len() == 0 {
        return LatencyStats::default();
    }
    let sorted = sorted_copy(samples);
    let n = sorted.len();
    proof {
        samples@.lemma_sort_by_ensures(latency_leq());
        assert(samples@.to_multiset().len() == sorted@.to_multiset().len());
        assert(n == samples@.len());
    }
    let total = sample_total(samples);
    let divisor = (n as u128) % 0x1_0000_0000;
    let mean = total / divisor;
    LatencyStats {
        count: n,
        min: sorted[0],
        max: sorted[n - 1],
        mean,
        p50: sorted[n / 2],
        p95: sorted[rank_of(n, 95)],
        p99: sorted[rank_of(n, 99)],
    }
}

proof fn lemma_sum_between(samples: Seq<u128>, low: u128, high: u128)
    requires
        forall|k: int| 0 <= k < samples.len() ==> low <= #[trigger] samples[k] <= high,
    ensures
        samples.len() * (low as nat) <= sample_sum(samples) <= samples.len() * (high as nat),
    decreases samples.len(),
{
    if samples.len() > 0 {
        let rest = samples.drop_last();
        assert forall|k: int| 0 <= k < rest.len() implies low <= #[trigger] rest[k] <= high by {
            assert(rest[k] == samples[k]);
        }
        lemma_sum_between(rest, low, high);
        assert(samples.len() * (low as nat) == rest.len() * (low as nat) + low) by (nonlinear_arith)
            requires
                samples.len() == rest.len() + 1,
        ;
        assert(samples.len() * (high as nat) == rest.len() * (high as nat) + high)
            by (nonlinear_arith)
            requires
                samples.len() == rest.len() + 1,
        ;
    }
}

/// The statistics of a non-empty window are consistent: the count is the
/// number of samples, `min` and `max` are recorded samples bounding every
/// sample, the percentiles are ordered `min <= p50 <= p95 <= p99 <= max`,
/// and, while the count fits in a `u32` (the mean's divisor), the mean lies
/// between `min` and `max`.
pub proof fn lemma_stats_ordered(samples: Seq<u128>)
    requires
        0 < samples.len() <= usize::MAX,
    ensures
        latency_stats(samples).count == samples.len(),
        samples.contains(latency_stats(samples).min),
        samples.contains(latency_stats(samples).max),
        forall|k: int|
            0 <= k < samples.len() ==> latency_stats(samples).min <= #[trigger] samples[k]
                <= latency_stats(samples).max,
        latency_stats(samples).min <= latency_stats(samples).p50,
        latency_stats(samples).p50 <= latency_stats(samples).p95,
        latency_stats(samples).p95 <= latency_stats(samples).p99,
        latency_stats(samples).p99 <= latency_stats(samples).max,
        samples.len() < 0x1_0000_0000 ==> latency_stats(samples).min <= latency_stats(samples).mean
            <= latency_stats(samples).max,
{
    let sorted = sorted_latencies(samples);
    let n = samples.len();
    lemma_latency_leq_total();
    samples.lemma_sort_by_ensures(latency_leq());
    assert(samples.to_multiset().len() == sorted.to_multiset().len());
    let leq = latency_leq();
    assert forall|a: int, b: int| 0 <= a <= b < n implies sorted[a] <= sorted[b] by {
        if a < b {
            assert(leq(sorted[a], sorted[b]));
        }
    }
    assert(n / 2 <= percentile_index(n, 95) <= percentile_index(n, 99) < n) by (nonlinear_arith)
        requires
            n > 0,
    ;
    assert forall|k: int| 0 <= k < n implies sorted[0] <= #[trigger] samples[k] <= sorted[n - 1] by {
        assert(samples.to_multiset().count(samples[k]) > 0);
        let j = choose|j: int| 0 <= j < n && sorted[j] == samples[k];
    }
    assert(sorted.to_multiset().count(sorted[0]) > 0);
    assert(sorted.to_multiset().count(sorted[n - 1]) > 0);
    lemma_sum_between(samples, sorted[0], sorted[n - 1]);
    let total = sample_sum(samples);
    assert(sorted[0] <= total / n <= sorted[n - 1]) by (nonlinear_arith)
        requires
            n * (sorted[0] as nat) <= total <= n * (sorted[n - 1] as nat),
            n > 0,
    ;
    if n < 0x1_0000_0000 {
        assert(mean_divisor(n) == n);
    }
}

/// Latency statistics expressed in whole milliseconds (rounded down).
#[derive(Debug, Clone, Copy, PartialEq, Eq, Structural)]
pub struct LatencyStatsMillis {
    pub count: usize,
    pub min_ms: u128,
    pub max_ms: u128,
    pub mean_ms: u128,
    pub p50_ms: u128,
    pub p95_ms: u128,
    pub p99_ms: u128,
}

impl LatencyStats {
    /// The same statistics in whole milliseconds, each rounded down.
    pub fn to_millis(&self) -> (millis: LatencyStatsMillis)
        ensures
            millis == (LatencyStatsMillis {
                count: self.count,
                min_ms: self.min / NANOS_PER_MILLI,
                max_ms: self.max / NANOS_PER_MILLI,
                mean_ms: self.mean / NANOS_PER_MILLI,
                p50_ms: self.p50 / NANOS_PER_MILLI,
                p95_ms: self.p95 / NANOS_PER_MILLI,
                p99_ms: self.p99 / NANOS_PER_MILLI,
            }),
    {
        LatencyStatsMillis {
            count: self.count,
            min_ms: self.min / NANOS_PER_MILLI,
            max_ms: self.max / NANOS_PER_MILLI,
            mean_ms: self.mean / NANOS_PER_MILLI,
            p50_ms: self.p50 / NANOS_PER_MILLI,
            p95_ms: self.p95 / NANOS_PER_MILLI,
            p99_ms: self.p99 / NANOS_PER_MILLI,
        }
    }
}

/// Statistics of the three monitored kinds of latency.
#[derive(Debug, Clone, Copy, PartialEq, Eq, Structural)]
pub struct AllLatencyStats {
    pub orderbook: LatencyStats,
    pub trades: LatencyStats,
    pub order_placement: LatencyStats,
}

/// The windows a monitor holds, oldest sample first, and their size limit.
pub struct LatencyWindows {
    pub orderbook: Seq<u128>,
    pub trades: Seq<u128>,
    pub order_placement: Seq<u128>,
    pub max_samples: nat,
}

/// Keeps the most recent `max_samples` latencies of each kind.
pub struct LatencyMonitor {
    orderbook_latencies: RecentWindow<u128>,
    trade_latencies: RecentWindow<u128>,
    order_placement_latencies: RecentWindow<u128>,
    max_samples: usize,
}

impl View for LatencyMonitor {
    type V = LatencyWindows;

    closed spec fn view(&self) -> LatencyWindows {
        LatencyWindows {
            orderbook: self.orderbook_latencies@,
            trades: self.trade_latencies@,
            order_placement: self.order_placement_latencies@,
            max_samples: self.max_samples as nat,
        }
    }
}

impl LatencyMonitor {
    #[verifier::type_invariant]
    closed spec fn inv(self) -> bool {
        &&& self.orderbook_latencies.limit() == self.max_samples
        &&& self.trade_latencies.limit() == self.max_samples
        &&& self.order_placement_latencies.limit() == self.max_samples
    }

    /// A monitor with empty windows of size `max_samples`.
    pub fn new(max_samples: usize) -> (monitor: Self)
        ensures
            monitor@.orderbook == Seq::<u128>::empty(),
            monitor@.trades == Seq::<u128>::empty(),
            monitor@.order_placement == Seq::<u128>::empty(),
            monitor@.max_samples == max_samples,
    {
        LatencyMonitor {
            orderbook_latencies: RecentWindow::new(max_samples),
            trade_latencies: RecentWindow::new(max_samples),
            order_placement_latencies: RecentWindow::new(max_samples),
            max_samples,
        }
    }

    /// Records an order book update latency (ns).
    pub fn record_orderbook_latency(&mut self, latency: u128)
        requires
            latency <= MAX_DURATION_NANOS,
        ensures
            final(self)@ == (LatencyWindows {
                orderbook: keep_recent(old(self)@.orderbook.push(latency), old(self)@.max_samples),
                ..old(self)@
            }),
    {
        proof {
            use_type_invariant(&*self);
        }
        let mut window = RecentWindow::new(self.max_samples);
        std::mem::swap(&mut window, &mut self.orderbook_latencies);
        window.push(latency);
        self.orderbook_latencies = window;
    }
    /// Records a trade processing latency (ns).
    pub fn record_trade_latency(&mut self, latency: u128)
        requires
            latency <= MAX_DURATION_NANOS,
        ensures
            final(self)@ == (LatencyWindows {
                trades: keep_recent(old(self)@.trades.push(latency), old(self)@.max_samples),
                ..old(self)@
            }),
    {
        proof {
            use_type_invariant(&*self);
        }
        let mut window = RecentWindow::new(self.max_samples);
        std::mem::swap(&mut window, &mut self.trade_latencies);
        window.push(latency);
        self.trade_latencies = window;
    }

    /// Records an order placement latency (ns).
    pub fn record_order_placement_latency(&mut self, latency: u128)
        requires
            latency <= MAX_DURATION_NANOS,
        ensures
            final(self)@ == (LatencyWindows {
                order_placement: keep_recent(
                    old(self)@.order_placement.push(latency),
                    old(self)@.max_samples,
                ),
                ..old(self)@
            }),
    {
        proof {
            use_type_invariant(&*self);
        }
        let mut window = RecentWindow::new(self.max_samples);
        std::mem::swap(&mut window, &mut self.order_placement_latencies);
        window.push(latency);
        self.order_placement_latencies = window;
    }

    /// Whether the order book statistics can be computed.
    pub fn orderbook_stats_defined(&self) -> (defined: bool)
        ensures
            defined == stats_defined(self@.orderbook),
    {
        window_stats_defined(self.orderbook_latencies.items())
    }

    /// Whether the trade statistics can be computed.
    pub fn trade_stats_defined(&self) -> (defined: bool)
        ensures
            defined == stats_defined(self@.trades),
    {
        window_stats_defined(self.trade_latencies.items())
    }

    /// Whether the order placement statistics can be computed.
    pub fn order_placement_stats_defined(&self) -> (defined: bool)
        ensures
            defined == stats_defined(self@.order_placement),
    {
        window_stats_defined(self.order_placement_latencies.items())
    }

    /// Statistics of the order book update latencies.
    pub fn get_orderbook_stats(&self) -> (stats: LatencyStats)
        requires
            stats_defined(self@.orderbook),
        ensures
            stats == latency_stats(self@.orderbook),
    {
        calculate_stats(self.orderbook_latencies.items())
    }

    /// Statistics of the trade processing latencies.
    pub fn get_trade_stats(&self) -> (stats: LatencyStats)
        requires
            stats_defined(self@.trades),
        ensures
            stats == latency_stats(self@.trades),
    {
        calculate_stats(self.trade_latencies.items())
    }

    /// Statistics of the order placement latencies.
    pub fn get_order_placement_stats(&self) -> (stats: LatencyStats)
        requires
            stats_defined(self@.order_placement),
        ensures
            stats == latency_stats(self@.order_placement),
    {
        calculate_stats(self.order_placement_latencies.items())
    }

    /// Statistics of all three windows.
    pub fn get_all_stats(&self) -> (stats: AllLatencyStats)
        requires
            stats_defined(self@.orderbook),
            stats_defined(self@.trades),
            stats_defined(self@.order_placement),
        ensures
            stats == (AllLatencyStats {
                orderbook: latency_stats(self@.orderbook),
                trades: latency_stats(self@.trades),
                order_placement: latency_stats(self@.order_placement),
            }),
    {
        AllLatencyStats {
            orderbook: self.get_orderbook_stats(),
            trades: self.get_trade_stats(),
            order_placement: self.get_order_placement_stats(),
        }
    }

    /// Whether the 99th percentile of every window is below `max_p99_ms` milliseconds.
    pub fn is_healthy(&self, max_p99_ms: u64) -> (healthy: bool)
        requires
            stats_defined(self@.orderbook),
            stats_defined(self@.trades),
            stats_defined(self@.order_placement),
        ensures
            healthy == (latency_stats(self@.orderbook).p99 < max_p99_ms * NANOS_PER_MILLI
                && latency_stats(self@.trades).p99 < max_p99_ms * NANOS_PER_MILLI
                && latency_stats(self@.order_placement).p99 < max_p99_ms * NANOS_PER_MILLI),
    {
        let limit = max_p99_ms as u128 * NANOS_PER_MILLI;
        let ob_stats = self.get_orderbook_stats();
        let trade_stats = self.get_trade_stats();
        let order_stats = self.get_order_placement_stats();
        ob_stats.p99 < limit && trade_stats.p99 < limit && order_stats.p99 < limit
    }
}

/// Measures the time since it was started.
pub struct LatencyTimer {
    start: Instant,
}

impl LatencyTimer {
    /// Starts a timer at the current monotonic time.
    pub fn start() -> Self {
        LatencyTimer { start: instant_now() }
    }

    /// Nanoseconds since the timer started.
    pub fn elapsed(&self) -> u128 {
        nanos_since(&self.start)
    }
}

} // verus!
