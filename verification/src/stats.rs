//! Summary statistics over a run's latency samples: the round-trip
//! benchmark sender reports the minimum, maximum, average, median and the
//! 95th and 99th percentiles of the per-request times, over the successful
//! requests only.

use vstd::prelude::*;
use vstd::relations::{sorted_by, total_ordering};
use vstd::seq_lib::group_to_multiset_ensures;
use vstd::arithmetic::div_mod::{lemma_multiply_divide_le, lemma_multiply_divide_lt};

verus! {

/// The ascending order on sample times.
pub open spec fn sample_leq() -> spec_fn(u64, u64) -> bool {
    |x: u64, y: u64| x <= y
}

/// The ascending order on samples is a total ordering.
pub proof fn lemma_sample_leq_total_ordering()
    ensures
        total_ordering(sample_leq()),
{
    let r = sample_leq();
    assert forall|x: u64, y: u64| #[trigger] r(x, y) || #[trigger] r(y, x) by {
        assert(x <= y || y <= x);
    }
}

/// The samples in ascending order.
pub open spec fn ascending(s: Seq<u64>) -> Seq<u64> {
    s.sort_by(sample_leq())
}

/// What holds of the ascending arrangement: same length, same samples with
/// the same multiplicities, ascending order.
pub proof fn lemma_ascending_ensures(s: Seq<u64>)
    ensures
        ascending(s).len() == s.len(),
        ascending(s).to_multiset() == s.to_multiset(),
        sorted_by(ascending(s), sample_leq()),
{
    lemma_sample_leq_total_ordering();
    s.lemma_sort_by_ensures(sample_leq());
    broadcast use group_to_multiset_ensures;

    assert(s.to_multiset().len() == ascending(s).to_multiset().len());
}

/// The sum of a sequence of sample times.
pub open spec fn sum(s: Seq<u64>) -> int
    decreases s.len(),
{
    if s.len() == 0 {
        0
    } else {
        s[0] + sum(s.drop_first())
    }
}

/// Appending one sample adds its value to the sum.
pub proof fn lemma_sum_push(s: Seq<u64>, x: u64)
    ensures
        sum(s.push(x)) == sum(s) + x,
    decreases s.len(),
{
    if s.len() == 0 {
        assert(s.push(x).drop_first() =~= s);
    } else {
        assert(s.push(x).drop_first() =~= s.drop_first().push(x));
        lemma_sum_push(s.drop_first(), x);
    }
}

/// The index at which the `p`-th percentile of `len` ascending samples
/// stands: the integer part of `len * p / 100`.
pub open spec fn percentile_index(len: nat, p: nat) -> int {
    (len * p / 100) as int
}

/// The summary the benchmark sender reports over the successful requests.
pub struct BenchmarkSummary {
    /// The smallest sample.
    pub min: u64,
    /// The largest sample.
    pub max: u64,
    /// The integer part of the mean sample.
    pub average: u64,
    /// The sample at the middle index of the ascending arrangement.
    pub median: u64,
    /// The sample at the 95th-percentile index of the ascending arrangement.
    pub p95: u64,
    /// The sample at the 99th-percentile index of the ascending arrangement.
    pub p99: u64,
}

/// Rearrange the samples into ascending order, by insertion into a sorted
/// copy.
pub fn sort_samples(v: &mut Vec<u64>)
    ensures
        final(v)@ == ascending(old(v)@),
        final(v)@.len() == old(v)@.len(),
{
    broadcast use group_to_multiset_ensures;

    let ghost orig = v@;
    let mut out: Vec<u64> = Vec::new();
    let mut i: usize = 0;
    while i < v.len()
        invariant
            v@ == orig,
            i <= orig.len(),
            sorted_by(out@, sample_leq()),
            out@.to_multiset() == orig.subrange(0, i as int).to_multiset(),
        decreases orig.len() - i,
    {
        let x = v[i];
        let ghost pre = out@;
        let mut j: usize = 0;
        while j < out.len() && out[j] <= x
            invariant
                out@ == pre,
                j <= pre.len(),
                forall|k: int| 0 <= k < j ==> pre[k] <= x,
            decreases pre.len() - j,
        {
            j = j + 1;
        }
        proof {
            assert forall|k: int| j <= k < pre.len() implies x < pre[k] by {
                assert(x < pre[j as int]);
                if j < k {
                    assert(sample_leq()(pre[j as int], pre[k]));
                }
            }
        }
        out.insert(j, x);
        proof {
            pre.insert_ensures(j as int, x);
            assert forall|p: int, q: int| 0 <= p < q < out@.len() implies sample_leq()(
                out@[p],
                out@[q],
            ) by {
                if q < j {
                    assert(sample_leq()(pre[p], pre[q]));
                } else if p < j && q == j {
                    assert(out@[p] == pre[p] && out@[q] == x);
                } else if p < j && q > j {
                    assert(out@[p] == pre[p] && out@[q] == pre[q - 1]);
                    assert(pre[p] <= x);
                    assert(x < pre[q - 1]);
                } else if p == j {
                    assert(out@[p] == x && out@[q] == pre[q - 1]);
                } else {
                    assert(out@[p] == pre[p - 1] && out@[q] == pre[q - 1]);
                    assert(sample_leq()(pre[p - 1], pre[q - 1]));
                }
            }
            assert(sorted_by(out@, sample_leq()));
            assert(out@ == pre.insert(j as int, x));
            vstd::seq_lib::to_multiset_insert(pre, j as int, x);
            assert(orig.subrange(0, i + 1) =~= orig.subrange(0, i as int).push(orig[i as int]));
            vstd::seq_lib::to_multiset_build(orig.subrange(0, i as int), orig[i as int]);
            assert(out@.to_multiset() == orig.subrange(0, i + 1).to_multiset());
        }
        i = i + 1;
    }
    proof {
        assert(orig.subrange(0, orig.len() as int) =~= orig);
        lemma_ascending_ensures(orig);
        lemma_sample_leq_total_ordering();
        vstd::seq_lib::lemma_sorted_unique(out@, ascending(orig), sample_leq());
    }
    *v = out;
}

/// Summarize a run's samples: nothing when there were no successful
/// requests, and otherwise the minimum, maximum, integer-mean, median and
/// the 95th and 99th percentiles, each read off the ascending arrangement
/// of the samples.
pub fn summarize(results: &Vec<u64>) -> (r: Option<BenchmarkSummary>)
    ensures
        (r is Some) <==> results@.len() > 0,
        r matches Some(b) ==> ({
            let s = ascending(results@);
            let n = results@.len() as int;
            &&& b.min == s[0]
            &&& b.max == s[n - 1]
            &&& b.average == sum(results@) / n
            &&& b.median == s[n / 2]
            &&& b.p95 == s[percentile_index(results@.len(), 95)]
            &&& b.p99 == s[percentile_index(results@.len(), 99)]
        }),
{
    let len = results.len();
    if len == 0 {
        return None;
    }
    let mut sorted: Vec<u64> = Vec::new();
    let mut i: usize = 0;
    while i < len
        invariant
            len == results@.len(),
            i <= len,
            sorted@ == results@.subrange(0, i as int),
        decreases len - i,
    {
        sorted.push(results[i]);
        proof {
            assert(sorted@ =~= results@.subrange(0, i + 1));
        }
        i = i + 1;
    }
    proof {
        assert(sorted@ =~= results@);
    }
    sort_samples(&mut sorted);

    let mut acc: u128 = 0;
    let mut k: usize = 0;
    while k < len
        invariant
            len == results@.len(),
            k <= len,
            acc == sum(results@.subrange(0, k as int)),
            acc <= k * (u64::MAX as int),
        decreases len - k,
    {
        proof {
            assert(results@.subrange(0, k + 1) =~= results@.subrange(0, k as int).push(
                results@[k as int],
            ));
            lemma_sum_push(results@.subrange(0, k as int), results@[k as int]);
        }
        acc = acc + results[k] as u128;
        k = k + 1;
    }
    proof {
        assert(results@.subrange(0, len as int) =~= results@);
        lemma_multiply_divide_le(acc as int, len as int, u64::MAX as int);
    }
    let average = (acc / (len as u128)) as u64;

    proof {
        assert((len as int) * 95 < (len as int) * 100);
        assert((len as int) * 99 < (len as int) * 100);
        lemma_multiply_divide_lt((len as int) * 95, 100, len as int);
        lemma_multiply_divide_lt((len as int) * 99, 100, len as int);
    }
    let idx95 = ((len as u128) * 95 / 100) as usize;
    let idx99 = ((len as u128) * 99 / 100) as usize;

    Some(
        BenchmarkSummary {
            min: sorted[0],
            max: sorted[len - 1],
            average,
            median: sorted[len / 2],
            p95: sorted[idx95],
            p99: sorted[idx99],
        },
    )
}

} // verus!
