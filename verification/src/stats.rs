//! Summary statistics of a latency sample.
//!
//! A sample is a sequence of elapsed times in nanoseconds, collected in
//! call order. The statistics are read off the sample sorted ascending:
//! minimum, arithmetic mean (integer division), maximum, and the 99th
//! percentile, whose index is `floor(n * 99 / 100)` clamped to the valid
//! range.

use vstd::prelude::*;
use vstd::relations::{sorted_by, total_ordering};
use vstd::seq_lib::{group_to_multiset_ensures, lemma_sorted_unique};
use vstd::arithmetic::div_mod::{lemma_div_is_ordered, lemma_div_multiples_vanish};

verus! {

/// Ascending order on nanosecond values.
pub open spec fn nanos_leq() -> spec_fn(u64, u64) -> bool {
    |x: u64, y: u64| x <= y
}

/// The sample sorted ascending.
pub open spec fn sorted_nanos(s: Seq<u64>) -> Seq<u64> {
    s.sort_by(nanos_leq())
}

/// Total of a sample, as an unbounded integer.
pub open spec fn sum_nanos(s: Seq<u64>) -> int
    decreases s.len(),
{
    if s.len() == 0 {
        0
    } else {
        sum_nanos(s.drop_last()) + s.last()
    }
}

/// Index of the 99th-percentile entry of a sample of length `n`:
/// `floor(n * 99 / 100)`, clamped so that it never exceeds `n - 1`.
pub open spec fn p99_index(n: int) -> int {
    if 99 * n / 100 <= n - 1 {
        99 * n / 100
    } else {
        n - 1
    }
}

/// Minimum of a non-empty sample.
pub open spec fn min_of(s: Seq<u64>) -> u64
    recommends s.len() >= 1,
{
    sorted_nanos(s)[0]
}

/// Maximum of a non-empty sample.
pub open spec fn max_of(s: Seq<u64>) -> u64
    recommends s.len() >= 1,
{
    sorted_nanos(s)[s.len() - 1]
}

/// Arithmetic mean of a non-empty sample, rounded towards zero.
pub open spec fn mean_of(s: Seq<u64>) -> int
    recommends s.len() >= 1,
{
    sum_nanos(s) / (s.len() as int)
}

/// 99th percentile of a non-empty sample.
pub open spec fn p99_of(s: Seq<u64>) -> u64
    recommends s.len() >= 1,
{
    sorted_nanos(s)[p99_index(s.len() as int)]
}

/// The ascending order on `u64` is total.
pub proof fn lemma_nanos_leq_total()
    ensures
        total_ordering(nanos_leq()),
{
}

/// Sort a sample ascending. The result is exactly `sorted_nanos` of the input.
pub fn sort_nanos(v: &Vec<u64>) -> (r: Vec<u64>)
    ensures
        r@ == sorted_nanos(v@),
{
    broadcast use group_to_multiset_ensures;
    broadcast use vstd::seq_lib::to_multiset_insert;

    let mut out: Vec<u64> = Vec::new();
    let mut k: usize = 0;
    while k < v.len()
        invariant
            k <= v@.len(),
            out@.len() == k,
            out@.to_multiset() == v@.subrange(0, k as int).to_multiset(),
            sorted_by(out@, nanos_leq()),
        decreases v@.len() - k,
    {
        let x = v[k];
        let mut pos: usize = 0;
        while pos < out.len() && out[pos] <= x
            invariant
                pos <= out@.len(),
                forall|i: int| 0 <= i < pos ==> out@[i] <= x,
            decreases out@.len() - pos,
        {
            pos = pos + 1;
        }
        let ghost pre = out@;
        out.insert(pos, x);
        proof {
            let w = v@.subrange(0, k + 1 as int);
            assert(w.drop_last() =~= v@.subrange(0, k as int));
            assert(w =~= w.drop_last().push(x));
            vstd::seq_lib::to_multiset_build(w.drop_last(), x);
            assert(w.to_multiset() =~= w.drop_last().to_multiset().insert(x));
            vstd::seq_lib::to_multiset_insert(pre, pos as int, x);
            assert(out@.to_multiset() == pre.to_multiset().insert(x));
            assert forall|i: int, j: int| 0 <= i < j < out@.len()
                implies #[trigger] nanos_leq()(out@[i], out@[j]) by {
                if j < pos {
                    assert(nanos_leq()(pre[i], pre[j]));
                } else if i > pos {
                    assert(nanos_leq()(pre[i - 1], pre[j - 1]));
                } else if i == pos && j > pos {
                    // out[i] == x and pre[pos] > x bounds the tail
                    assert(nanos_leq()(pre[pos as int], pre[j - 1]) || j - 1 == pos);
                } else if j == pos {
                    assert(out@[i] == pre[i] && pre[i] <= x);
                } else {
                    // i < pos < j
                    assert(out@[i] == pre[i] && pre[i] <= x);
                    assert(nanos_leq()(pre[pos as int], pre[j - 1]) || j - 1 == pos);
                }
            }
        }
        k = k + 1;
    }
    proof {
        assert(v@.subrange(0, v@.len() as int) =~= v@);
        lemma_nanos_leq_total();
        v@.lemma_sort_by_ensures(nanos_leq());
        lemma_sorted_unique(out@, sorted_nanos(v@), nanos_leq());
        assert(out@ == sorted_nanos(v@));
    }
    out
}

/// A sample whose entries all lie in `[lo, hi]` has its total between
/// `len * lo` and `len * hi`.
pub proof fn lemma_sum_nanos_bounds(s: Seq<u64>, lo: u64, hi: u64)
    requires
        forall|i: int| 0 <= i < s.len() ==> lo <= #[trigger] s[i] && s[i] <= hi,
    ensures
        s.len() * lo <= sum_nanos(s),
        sum_nanos(s) <= s.len() * hi,
    decreases s.len(),
{
    if s.len() == 0 {
    } else {
        lemma_sum_nanos_bounds(s.drop_last(), lo, hi);
        assert((s.len() - 1) * lo + lo == s.len() * lo) by (nonlinear_arith);
        assert((s.len() - 1) * hi + hi == s.len() * hi) by (nonlinear_arith);
    }
}

/// Failure of the guarded statistics computation.
#[derive(Clone, Copy, Debug, PartialEq, Eq, Structural)]
pub enum StatsError {
    /// The sample holds no measurement, so no statistic is defined.
    EmptySample,
}

/// Sorting keeps the length of the sample.
pub proof fn lemma_sorted_nanos_len(s: Seq<u64>)
    ensures
        sorted_nanos(s).len() == s.len(),
{
    broadcast use group_to_multiset_ensures;

    lemma_nanos_leq_total();
    s.lemma_sort_by_ensures(nanos_leq());
    assert(s.len() == s.to_multiset().len());
    assert(sorted_nanos(s).len() == sorted_nanos(s).to_multiset().len());
}

/// Every entry of a non-empty sample lies between its minimum and its maximum.
pub proof fn lemma_sample_within_extremes(s: Seq<u64>)
    requires
        s.len() >= 1,
    ensures
        forall|i: int| 0 <= i < s.len() ==> min_of(s) <= #[trigger] s[i] && s[i] <= max_of(s),
    decreases s.len(),
{
    broadcast use group_to_multiset_ensures;

    lemma_nanos_leq_total();
    s.lemma_sort_by_ensures(nanos_leq());
    lemma_sorted_nanos_len(s);
    let t = sorted_nanos(s);
    assert forall|i: int| 0 <= i < s.len()
        implies min_of(s) <= #[trigger] s[i] && s[i] <= max_of(s) by {
        assert(s.contains(s[i]));
        assert(s.to_multiset().count(s[i]) > 0);
        assert(t.to_multiset().count(s[i]) > 0);
        assert(t.contains(s[i]));
        let j = choose|j: int| 0 <= j < t.len() && t[j] == s[i];
        if j > 0 {
            assert(nanos_leq()(t[0], t[j]));
        }
        if j < t.len() - 1 {
            assert(nanos_leq()(t[j], t[t.len() - 1]));
        }
    }
}

/// The mean of a non-empty sample lies between its minimum and its maximum,
/// the 99th-percentile index is `floor(n * 99 / 100)` clamped to `[0, n - 1]`,
/// and a sample of a single value has all four statistics equal to that value.
pub proof fn lemma_stats_ordered(s: Seq<u64>)
    requires
        s.len() >= 1,
    ensures
        min_of(s) <= mean_of(s),
        mean_of(s) <= max_of(s),
        min_of(s) <= p99_of(s),
        p99_of(s) <= max_of(s),
        0 <= p99_index(s.len() as int) < s.len(),
        s.len() == 1 ==> min_of(s) == mean_of(s) && max_of(s) == mean_of(s) && p99_of(s)
            == mean_of(s),
{
    let n = s.len() as int;
    lemma_nanos_leq_total();
    s.lemma_sort_by_ensures(nanos_leq());
    broadcast use group_to_multiset_ensures;

    let t = sorted_nanos(s);
    lemma_sorted_nanos_len(s);
    assert(t.len() == n);
    lemma_sample_within_extremes(s);
    lemma_sum_nanos_bounds(s, min_of(s), max_of(s));
    assert(n * min_of(s) <= sum_nanos(s) <= n * max_of(s));
    lemma_div_is_ordered(n * min_of(s), sum_nanos(s), n);
    lemma_div_is_ordered(sum_nanos(s), n * max_of(s), n);
    lemma_div_multiples_vanish(min_of(s) as int, n);
    lemma_div_multiples_vanish(max_of(s) as int, n);
    assert(99 * n / 100 >= 0) by (nonlinear_arith)
        requires n >= 1;
    let k = p99_index(n);
    assert(0 <= k < n);
    if k > 0 {
        assert(nanos_leq()(t[0], t[k]));
    }
    if k < n - 1 {
        assert(nanos_leq()(t[k], t[n - 1]));
    }
    if s.len() == 1 {
        lemma_sorted_unique(t, s, nanos_leq());
        assert(t == s);
        assert(s.drop_last().len() == 0);
        assert(sum_nanos(s.drop_last()) == 0);
        assert(sum_nanos(s) == s.last());
    }
}

/// Minimum, mean, maximum and 99th percentile of a non-empty latency
/// sample, in nanoseconds, in that order.
pub fn calculate_stats(latencies: &Vec<u64>) -> (r: (u64, u64, u64, u64))
    requires
        latencies@.len() >= 1,
    ensures
        r.0 == min_of(latencies@),
        r.1 == mean_of(latencies@),
        r.2 == max_of(latencies@),
        r.3 == p99_of(latencies@),
{
    let s = latencies;
    let sorted = sort_nanos(s);
    let n = s.len();
    let mut sum: u128 = 0;
    let mut k: usize = 0;
    proof {
        lemma_sorted_nanos_len(s@);
        lemma_sample_within_extremes(s@);
        lemma_stats_ordered(s@);
    }
    while k < n
        invariant
            n == s@.len(),
            k <= n,
            sum == sum_nanos(s@.subrange(0, k as int)),
            forall|i: int| 0 <= i < s@.len() ==> min_of(s@) <= #[trigger] s@[i] && s@[i] <= max_of(
                s@,
            ),
            sum <= k * max_of(s@),
        decreases n - k,
    {
        proof {
            let w = s@.subrange(0, k + 1 as int);
            assert(w.drop_last() =~= s@.subrange(0, k as int));
            assert((k + 1) * max_of(s@) == k * max_of(s@) + max_of(s@)) by (nonlinear_arith);
            assert(k * max_of(s@) <= (u64::MAX as int) * (u64::MAX as int)) by (nonlinear_arith)
                requires k <= u64::MAX as int && 0 <= max_of(s@) <= u64::MAX as int;
        }
        sum = sum + s[k] as u128;
        k = k + 1;
    }
    proof {
        assert(s@.subrange(0, n as int) =~= s@);
        lemma_sum_nanos_bounds(s@, min_of(s@), max_of(s@));
        lemma_div_is_ordered(sum_nanos(s@), n as int * max_of(s@), n as int);
        lemma_div_multiples_vanish(max_of(s@) as int, n as int);
    }
    let avg = (sum / (n as u128)) as u64;
    let idx = (((n as u128) * 99) / 100) as usize;
    proof {
        assert(99 * (n as int) / 100 < n) by (nonlinear_arith)
            requires n >= 1;
        assert((n as u128) * 99 / 100 == 99 * (n as int) / 100);
        assert(idx == p99_index(n as int));
    }
    let min = sorted[0];
    let max = sorted[n - 1];
    let p99 = sorted[idx];
    (min, avg, max, p99)
}

/// Guarded statistics: a non-empty sample yields `(min, mean, max, p99)`,
/// the empty sample yields `StatsError::EmptySample` instead of an
/// undefined value.
pub fn try_calculate_stats(latencies: &Vec<u64>) -> (r: Result<(u64, u64, u64, u64), StatsError>)
    ensures
        r is Ok <==> latencies@.len() >= 1,
        r is Err ==> r == Result::<(u64, u64, u64, u64), StatsError>::Err(
            StatsError::EmptySample,
        ),
        r is Ok ==> r->Ok_0.0 == min_of(latencies@) && r->Ok_0.1 == mean_of(latencies@)
            && r->Ok_0.2 == max_of(latencies@) && r->Ok_0.3 == p99_of(latencies@),
{
    if latencies.len() == 0 {
        Err(StatsError::EmptySample)
    } else {
        Ok(calculate_stats(latencies))
    }
}

} // verus!
