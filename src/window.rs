//! The bounded window of request samples and the statistics read from it.

use vstd::prelude::*;
use vstd::relations::{sorted_by, total_ordering};
use vstd::seq_lib::group_to_multiset_ensures;

verus! {

/// How many samples the window keeps.
pub const WINDOW_CAPACITY: usize = 1000;

/// How long a request counts toward the requests of the last minute, in milliseconds.
pub const MINUTE_MS: u64 = 60_000;

/// The order in which latencies are sorted.
pub open spec fn latency_leq() -> spec_fn(u64, u64) -> bool {
    |a: u64, b: u64| a <= b
}

proof fn lemma_latency_order()
    ensures
        total_ordering(latency_leq()),
{
}

/// The samples sorted in ascending order.
pub open spec fn sorted_latencies(s: Seq<u64>) -> Seq<u64> {
    s.sort_by(latency_leq())
}

/// The position read for percentile `p` of `n` sorted samples:
/// floor(p / 100 * (n - 1)), at most n - 1.
pub open spec fn percentile_index(p: u64, n: nat) -> int {
    let i = (p * (n - 1)) / 100;
    if i < n - 1 { i } else { n - 1 }
}

/// The percentile of the samples: 0 without samples, else the sample at the
/// percentile's position in sorted order.
pub open spec fn percentile_of(s: Seq<u64>, p: u64) -> u64 {
    if s.len() == 0 {
        0
    } else {
        sorted_latencies(s)[percentile_index(p, s.len())]
    }
}

/// The times of `s` that lie within the minute before `now`.
pub open spec fn within_minute(s: Seq<u64>, now: u64) -> Seq<u64>
    decreases s.len(),
{
    if s.len() == 0 {
        Seq::empty()
    } else if s.last() <= now && now - s.last() <= MINUTE_MS {
        within_minute(s.drop_last(), now).push(s.last())
    } else {
        within_minute(s.drop_last(), now)
    }
}

pub open spec fn sum_of(s: Seq<u64>) -> int
    decreases s.len(),
{
    if s.len() == 0 { 0 } else { sum_of(s.drop_last()) + s.last() }
}

pub open spec fn count_true(s: Seq<bool>) -> int
    decreases s.len(),
{
    if s.len() == 0 { 0 } else { count_true(s.drop_last()) + if s.last() { 1int } else { 0int } }
}

/// The last `WINDOW_CAPACITY` entries of `h`, or all of them.
pub open spec fn recent<T>(h: Seq<T>) -> Seq<T> {
    if h.len() <= WINDOW_CAPACITY { h } else { h.skip(h.len() - WINDOW_CAPACITY) }
}

proof fn lemma_sum_bound(s: Seq<u64>)
    ensures
        0 <= sum_of(s) <= s.len() * u64::MAX,
    decreases s.len(),
{
    if s.len() > 0 {
        lemma_sum_bound(s.drop_last());
    }
}

proof fn lemma_count_bound(s: Seq<bool>)
    ensures
        0 <= count_true(s) <= s.len(),
    decreases s.len(),
{
    if s.len() > 0 {
        lemma_count_bound(s.drop_last());
    }
}

/// Sorting a single sample gives that sample.
proof fn lemma_sort_single(s: Seq<u64>)
    requires
        s.len() == 1,
    ensures
        sorted_latencies(s) == s,
{
    broadcast use group_to_multiset_ensures;
    lemma_latency_order();
    s.lemma_sort_by_ensures(latency_leq());
    lemma_sorted_unique_len1(s);
    vstd::seq_lib::lemma_sorted_unique(s, s.sort_by(latency_leq()), latency_leq());
}

proof fn lemma_sorted_unique_len1(s: Seq<u64>)
    requires
        s.len() == 1,
    ensures
        sorted_by(s, latency_leq()),
{
}

/// Without samples every percentile is 0; with one sample every percentile
/// is that sample.
pub proof fn lemma_percentile_edges(s: Seq<u64>, p: u64)
    ensures
        s.len() == 0 ==> percentile_of(s, p) == 0,
        s.len() == 1 ==> percentile_of(s, p) == s[0],
{
    if s.len() == 1 {
        lemma_sort_single(s);
    }
}

fn sort_latencies(v: &Vec<u64>) -> (r: Vec<u64>)
    ensures
        r@ == sorted_latencies(v@),
{
    broadcast use group_to_multiset_ensures;
    let mut out: Vec<u64> = Vec::new();
    let mut i: usize = 0;
    while i < v.len()
        invariant
            i <= v@.len(),
            sorted_by(out@, latency_leq()),
            out@.to_multiset() == v@.take(i as int).to_multiset(),
        decreases v.len() - i,
    {
        let x = v[i];
        let mut p: usize = 0;
        while p < out.len() && out[p] <= x
            invariant
                p <= out@.len(),
                forall|k: int| 0 <= k < p ==> out@[k] <= x,
            decreases out.len() - p,
        {
            p = p + 1;
        }
        let ghost before = out@;
        out.insert(p, x);
        proof {
            assert(!(p < before.len() && before[p as int] <= x));
            assert forall|a: int, b: int| 0 <= a < b < out@.len() implies #[trigger] (latency_leq())(out@[a], out@[b]) by {
                if b < p as int {
                    assert(latency_leq()(before[a], before[b]));
                } else if b == p as int {
                    assert(out@[a] == before[a]);
                } else if a < p as int {
                    assert(latency_leq()(before[a], before[b - 1]));
                } else if a == p as int {
                    if b - 1 > p as int {
                        assert(latency_leq()(before[p as int], before[b - 1]));
                    }
                } else {
                    assert(latency_leq()(before[a - 1], before[b - 1]));
                }
            }
            vstd::seq_lib::to_multiset_insert(before, p as int, x);
            vstd::seq_lib::to_multiset_build(v@.take(i as int), x);
            assert(v@.take(i + 1) =~= v@.take(i as int).push(x));
        }
        i = i + 1;
    }
    proof {
        assert(v@.take(v@.len() as int) =~= v@);
        lemma_latency_order();
        v@.lemma_sort_by_ensures(latency_leq());
        vstd::seq_lib::lemma_sorted_unique(out@, v@.sort_by(latency_leq()), latency_leq());
    }
    out
}

/// The samples of completed requests: a window of the latest latencies and
/// error flags, at most `WINDOW_CAPACITY` of them (the oldest leave first),
/// and the times of the requests of the last minute.
pub struct RequestMetrics {
    response_times: Vec<u64>,
    errors: Vec<bool>,
    last_minute_requests: Vec<u64>,
    recorded_times: Ghost<Seq<u64>>,
    recorded_errors: Ghost<Seq<bool>>,
}

impl RequestMetrics {
    /// Every latency recorded so far, oldest first.
    pub closed spec fn recorded(&self) -> Seq<u64> {
        self.recorded_times@
    }

    /// Every error flag recorded so far, oldest first.
    pub closed spec fn recorded_errors(&self) -> Seq<bool> {
        self.recorded_errors@
    }

    /// The latencies in the window, oldest first.
    pub closed spec fn window(&self) -> Seq<u64> {
        self.response_times@
    }

    /// The error flags in the window, oldest first.
    pub closed spec fn window_errors(&self) -> Seq<bool> {
        self.errors@
    }

    /// The times of the requests counted in the last minute.
    pub closed spec fn minute(&self) -> Seq<u64> {
        self.last_minute_requests@
    }

    /// The window holds the latest samples recorded, at most its capacity.
    pub closed spec fn wf(&self) -> bool {
        &&& self.recorded_times@.len() == self.recorded_errors@.len()
        &&& self.response_times@ == recent(self.recorded_times@)
        &&& self.errors@ == recent(self.recorded_errors@)
    }

    pub fn new() -> (r: RequestMetrics)
        ensures
            r.wf(),
            r.recorded().len() == 0,
            r.window().len() == 0,
            r.minute().len() == 0,
    {
        RequestMetrics {
            response_times: Vec::new(),
            errors: Vec::new(),
            last_minute_requests: Vec::new(),
            recorded_times: Ghost(Seq::empty()),
            recorded_errors: Ghost(Seq::empty()),
        }
    }

    /// Records a completed request at `now` (milliseconds): its latency
    /// joins the window, evicting the oldest sample past capacity, and only
    /// the requests of the last minute stay counted.
    pub fn add_request(&mut self, response_time_ms: u64, is_error: bool, now: u64)
        requires
            old(self).wf(),
        ensures
            final(self).wf(),
            final(self).recorded() == old(self).recorded().push(response_time_ms),
            final(self).recorded_errors() == old(self).recorded_errors().push(is_error),
            final(self).minute() == within_minute(old(self).minute().push(now), now),
    {
        let ghost h = self.recorded_times@.push(response_time_ms);
        let ghost he = self.recorded_errors@.push(is_error);
        self.response_times.push(response_time_ms);
        self.errors.push(is_error);
        if self.response_times.len() > WINDOW_CAPACITY {
            self.response_times.remove(0);
            self.errors.remove(0);
        }
        proof {
            self.recorded_times = Ghost(h);
            self.recorded_errors = Ghost(he);
            assert(self.response_times@ =~= recent(h));
            assert(self.errors@ =~= recent(he));
        }
        self.last_minute_requests.push(now);
        let ghost all = self.last_minute_requests@;
        let mut kept: Vec<u64> = Vec::new();
        let mut i: usize = 0;
        while i < self.last_minute_requests.len()
            invariant
                self.last_minute_requests@ == all,
                i <= all.len(),
                kept@ == within_minute(all.take(i as int), now),
            decreases all.len() - i,
        {
            let t = self.last_minute_requests[i];
            proof {
                assert(all.take(i + 1).drop_last() =~= all.take(i as int));
                assert(all.take(i + 1).last() == t);
            }
            if t <= now && now - t <= MINUTE_MS {
                kept.push(t);
            }
            i = i + 1;
        }
        proof {
            assert(all.take(all.len() as int) =~= all);
        }
        self.last_minute_requests = kept;
    }

    /// The percentile `percentile` (0 to 100) of the window's latencies.
    pub fn calculate_percentile(&self, percentile: u64) -> (r: u64)
        requires
            self.wf(),
            percentile <= 100,
        ensures
            r == percentile_of(self.window(), percentile),
    {
        let n = self.response_times.len();
        if n == 0 {
            return 0;
        }
        let sorted = sort_latencies(&self.response_times);
        assert(n <= WINDOW_CAPACITY);
        let m: u64 = (n - 1) as u64;
        assert(percentile * m <= 100 * 1000) by (nonlinear_arith)
            requires
                percentile <= 100,
                m <= 1000,
        ;
        let raw: u64 = percentile * m / 100;
        let index: usize = if raw < (n - 1) as u64 { raw as usize } else { n - 1 };
        proof {
            broadcast use group_to_multiset_ensures;
            lemma_latency_order();
            self.response_times@.lemma_sort_by_ensures(latency_leq());
            assert(sorted@.to_multiset().len() == self.response_times@.to_multiset().len());
            assert(sorted@.len() == n);
        }
        sorted[index]
    }

    /// The mean latency of the window, rounded down; 0 without samples.
    pub fn average_response_time(&self) -> (r: u64)
        requires
            self.wf(),
        ensures
            self.window().len() == 0 ==> r == 0,
            self.window().len() > 0 ==> r == sum_of(self.window()) / (self.window().len() as int),
    {
        let n = self.response_times.len();
        if n == 0 {
            return 0;
        }
        let mut sum: u128 = 0;
        let mut i: usize = 0;
        while i < n
            invariant
                n == self.response_times@.len(),
                n <= WINDOW_CAPACITY,
                i <= n,
                sum == sum_of(self.response_times@.take(i as int)),
            decreases n - i,
        {
            proof {
                assert(self.response_times@.take(i + 1).drop_last() =~= self.response_times@.take(i as int));
                lemma_sum_bound(self.response_times@.take(i as int));
                assert(sum_of(self.response_times@.take(i as int)) <= 1000 * u64::MAX) by (nonlinear_arith)
                    requires
                        sum_of(self.response_times@.take(i as int)) <= i * u64::MAX,
                        i <= 1000,
                ;
            }
            sum = sum + self.response_times[i] as u128;
            i = i + 1;
        }
        proof {
            assert(self.response_times@.take(n as int) =~= self.response_times@);
            lemma_sum_bound(self.response_times@);
            assert(sum / (n as u128) <= u64::MAX) by (nonlinear_arith)
                requires
                    sum <= n * u64::MAX,
                    n > 0,
            ;
        }
        (sum / (n as u128)) as u64
    }

    /// How many requests completed in the last minute.
    pub fn requests_per_minute(&self) -> (r: usize)
        ensures
            r == self.minute().len(),
    {
        self.last_minute_requests.len()
    }

    /// How many samples of the window are errors.
    pub fn error_count(&self) -> (r: usize)
        requires
            self.wf(),
        ensures
            r == count_true(self.window_errors()),
            r <= self.window().len(),
    {
        let mut c: usize = 0;
        let mut i: usize = 0;
        while i < self.errors.len()
            invariant
                i <= self.errors@.len(),
                c == count_true(self.errors@.take(i as int)),
                c <= i,
            decreases self.errors.len() - i,
        {
            proof {
                assert(self.errors@.take(i + 1).drop_last() =~= self.errors@.take(i as int));
            }
            if self.errors[i] {
                c = c + 1;
            }
            i = i + 1;
        }
        proof {
            assert(self.errors@.take(i as int) =~= self.errors@);
        }
        c
    }

    /// The share of errors in the window in hundredths of a percent, rounded
    /// down; 0 without samples.
    pub fn error_rate_basis_points(&self) -> (r: u64)
        requires
            self.wf(),
        ensures
            self.window().len() == 0 ==> r == 0,
            self.window().len() > 0 ==> r == count_true(self.window_errors()) * 10000 / (self.window().len() as int),
    {
        let n = self.errors.len();
        if n == 0 {
            return 0;
        }
        let e = self.error_count();
        proof {
            lemma_count_bound(self.errors@);
        }
        assert(n <= WINDOW_CAPACITY);
        ((e as u64) * 10000) / (n as u64)
    }

    /// The number of samples in the window.
    pub fn len(&self) -> (r: usize)
        requires
            self.wf(),
        ensures
            r == self.window().len(),
            r <= WINDOW_CAPACITY,
    {
        self.response_times.len()
    }

    /// The sum of the window's latencies.
    pub fn total_latency(&self) -> (r: u128)
        requires
            self.wf(),
        ensures
            r == sum_of(self.window()),
            r <= self.window().len() * u64::MAX,
    {
        let n = self.response_times.len();
        let mut sum: u128 = 0;
        let mut i: usize = 0;
        while i < n
            invariant
                n == self.response_times@.len(),
                n <= WINDOW_CAPACITY,
                i <= n,
                sum == sum_of(self.response_times@.take(i as int)),
            decreases n - i,
        {
            proof {
                assert(self.response_times@.take(i + 1).drop_last() =~= self.response_times@.take(i as int));
                lemma_sum_bound(self.response_times@.take(i as int));
                assert(sum_of(self.response_times@.take(i as int)) <= 1000 * u64::MAX) by (nonlinear_arith)
                    requires
                        sum_of(self.response_times@.take(i as int)) <= i * u64::MAX,
                        i <= 1000,
                ;
            }
            sum = sum + self.response_times[i] as u128;
            i = i + 1;
        }
        proof {
            assert(self.response_times@.take(n as int) =~= self.response_times@);
            lemma_sum_bound(self.response_times@);
        }
        sum
    }
}

/// The window always holds the most recent samples: after N recordings it
/// holds min(N, capacity) of them, the last ones recorded, in order.
pub proof fn lemma_window_holds_most_recent(m: RequestMetrics)
    requires
        m.wf(),
    ensures
        m.window().len() == if m.recorded().len() < WINDOW_CAPACITY { m.recorded().len() } else { WINDOW_CAPACITY as nat },
        m.window() == m.recorded().skip(m.recorded().len() - m.window().len()),
{
    if m.recorded().len() <= WINDOW_CAPACITY {
        assert(m.recorded().skip(0) =~= m.recorded());
    }
}

} // verus!
