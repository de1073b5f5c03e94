//! Fee estimation for dynamic-fee transactions: a priority fee from recent
//! reward samples, robust to short spikes, and a fee cap from the base fee.

use vstd::prelude::*;
use vstd::relations::{sorted_by, total_ordering};

verus! {

/// Base fees up to this bound (inclusive) are doubled.
pub const SURGE_TIER_LOW: u64 = 40_000_000_000;

/// Base fees up to this bound (inclusive) are raised by 60%.
pub const SURGE_TIER_MID: u64 = 100_000_000_000;

/// Base fees up to this bound (inclusive) are raised by 40%; above it, by 20%.
pub const SURGE_TIER_HIGH: u64 = 200_000_000_000;

/// The surged base fee: a tiered cushion on top of the latest base fee.
pub open spec fn surged_spec(base: int) -> int {
    if base <= SURGE_TIER_LOW {
        base * 2
    } else if base <= SURGE_TIER_MID {
        base * 16 / 10
    } else if base <= SURGE_TIER_HIGH {
        base * 14 / 10
    } else {
        base * 12 / 10
    }
}

/// Percentage change from `a` to `b`, rounded towards zero, for `0 < a <= b`.
pub open spec fn pct_change_spec(a: int, b: int) -> int {
    ((b - a) * 100) / a
}

/// A percentage jump at or above this value marks a fee spike.
pub const SPIKE_THRESHOLD_PERCENT: u128 = 200;

/// The order in which reward samples are sorted: ascending.
pub open spec fn fee_order() -> spec_fn(u64, u64) -> bool {
    |a: u64, b: u64| a <= b
}

/// The samples that carry a fee signal: a zero sample means no competing
/// transaction in that block.
pub open spec fn positive_samples(samples: Seq<u64>) -> Seq<u64> {
    samples.filter(|x: u64| x > 0)
}

/// The positive samples in ascending order.
pub open spec fn sorted_positive(samples: Seq<u64>) -> Seq<u64> {
    positive_samples(samples).sort_by(fee_order())
}

/// Percentage changes between each pair of adjacent values of `v`.
pub open spec fn changes_spec(v: Seq<u64>) -> Seq<int> {
    Seq::new((v.len() - 1) as nat, |i: int| pct_change_spec(v[i] as int, v[i + 1] as int))
}

/// Index of the first occurrence of the largest value of `c` (0 when `c` is empty).
pub open spec fn first_max_index(c: Seq<int>) -> int
    decreases c.len(),
{
    if c.len() <= 1 {
        0
    } else {
        let k = first_max_index(c.drop_last());
        if c.last() > c[k] {
            c.len() - 1
        } else {
            k
        }
    }
}

/// The median of `v[start..]`, taking the upper middle element of an even-length tail.
pub open spec fn median_from(v: Seq<u64>, start: int) -> u64 {
    v[start + (v.len() - start) / 2]
}

/// Whether the largest jump of sorted `v` is a spike: large enough, and in its upper half.
pub open spec fn has_spike(v: Seq<u64>) -> bool {
    let c = changes_spec(v);
    let k = first_max_index(c);
    c[k] >= SPIKE_THRESHOLD_PERCENT && k >= v.len() / 2
}

/// Priority fee recommended for the sorted positive samples `v`.
pub open spec fn priority_fee_of_sorted(v: Seq<u64>) -> u64 {
    if v.len() == 0 {
        0
    } else if v.len() == 1 {
        v[0]
    } else if has_spike(v) {
        median_from(v, first_max_index(changes_spec(v)))
    } else {
        median_from(v, 0)
    }
}

/// Priority fee recommended for a window of per-block reward samples.
pub open spec fn priority_fee_spec(samples: Seq<u64>) -> u64 {
    priority_fee_of_sorted(sorted_positive(samples))
}

proof fn lemma_first_max_index_bounds(c: Seq<int>)
    requires
        c.len() >= 1,
    ensures
        0 <= first_max_index(c) < c.len(),
    decreases c.len(),
{
    if c.len() > 1 {
        lemma_first_max_index_bounds(c.drop_last());
    }
}

/// `first_max_index` is the index of the first occurrence of the largest value.
pub proof fn lemma_first_max_index_is_first_max(c: Seq<int>, k: int)
    requires
        0 <= k < c.len(),
        forall|j: int| 0 <= j < c.len() ==> c[j] <= c[k],
        forall|j: int| 0 <= j < k ==> c[j] < c[k],
    ensures
        first_max_index(c) == k,
    decreases c.len(),
{
    if c.len() > 1 {
        let d = c.drop_last();
        lemma_first_max_index_bounds(d);
        if k < c.len() - 1 {
            lemma_first_max_index_is_first_max(d, k);
        } else {
            let k2 = first_max_index(d);
            assert(c[k2] < c[k]);
        }
    }
}

/// Spike detection: when the first occurrence of the largest jump between
/// sorted positive samples, at index `k`, reaches the threshold and lies in
/// the upper half, the fee is the median of the values from `k` on, not of
/// the whole window.
pub proof fn lemma_spike_takes_tail_median(samples: Seq<u64>, k: int)
    requires
        sorted_positive(samples).len() >= 2,
        0 <= k < sorted_positive(samples).len() - 1,
        k >= sorted_positive(samples).len() / 2,
        changes_spec(sorted_positive(samples))[k] >= SPIKE_THRESHOLD_PERCENT,
        forall|j: int|
            0 <= j < sorted_positive(samples).len() - 1 ==> changes_spec(sorted_positive(samples))[j]
                <= changes_spec(sorted_positive(samples))[k],
        forall|j: int|
            0 <= j < k ==> changes_spec(sorted_positive(samples))[j] < changes_spec(
                sorted_positive(samples),
            )[k],
    ensures
        priority_fee_spec(samples) == median_from(sorted_positive(samples), k),
{
    lemma_first_max_index_is_first_max(changes_spec(sorted_positive(samples)), k);
}

/// Relies on `slice::sort`: the slice comes back in ascending order with the same elements.
#[verifier::external_body]
fn sort_ascending(v: &mut Vec<u64>)
    ensures
        sorted_by(final(v)@, fee_order()),
        final(v)@.to_multiset() == old(v)@.to_multiset(),
{
    v.sort();
}

proof fn lemma_fee_order_total()
    ensures
        total_ordering(fee_order()),
{
}

/// Recommends a priority fee from per-block reward samples: zero samples are
/// dropped, and when the largest jump between sorted neighbours is a spike in
/// the upper half, only the values from the spike on are taken into account.
pub fn estimate_priority_fee(rewards: &Vec<u64>) -> (r: u64)
    ensures
        r == priority_fee_spec(rewards@),
{
    let mut fees: Vec<u64> = Vec::new();
    let mut i: usize = 0;
    while i < rewards.len()
        invariant
            i <= rewards.len(),
            fees@ == positive_samples(rewards@.take(i as int)),
            forall|k: int| 0 <= k < fees@.len() ==> fees@[k] > 0,
        decreases rewards.len() - i,
    {
        proof {
            reveal(Seq::filter);
            assert(rewards@.take(i + 1).drop_last() =~= rewards@.take(i as int));
        }
        if rewards[i] > 0 {
            fees.push(rewards[i]);
        }
        i += 1;
    }
    assert(rewards@.take(rewards.len() as int) =~= rewards@);
    let ghost filtered = fees@;
    proof {
        lemma_fee_order_total();
        filtered.lemma_sort_by_ensures(fee_order());
    }
    if fees.len() == 0 {
        proof {
            vstd::seq_lib::lemma_sorted_unique(filtered, sorted_positive(rewards@), fee_order());
        }
        return 0;
    }
    if fees.len() == 1 {
        proof {
            vstd::seq_lib::lemma_sorted_unique(filtered, sorted_positive(rewards@), fee_order());
        }
        return fees[0];
    }
    sort_ascending(&mut fees);
    proof {
        broadcast use vstd::seq_lib::group_to_multiset_ensures;

        assert(fees@.to_multiset().len() == filtered.to_multiset().len());
        assert(fees@.len() == filtered.len());
        vstd::seq_lib::lemma_sorted_unique(fees@, sorted_positive(rewards@), fee_order());
        assert forall|x: int, y: int| 0 <= x <= y < fees@.len() implies fees@[x] <= fees@[y] by {
            if x < y {
                assert(fee_order()(fees@[x], fees@[y]));
            }
        }
        assert forall|k: int| 0 <= k < fees@.len() implies fees@[k] > 0 by {
            assert(fees@.contains(fees@[k]));
            assert(filtered.contains(fees@[k]));
        }
    }
    let n = fees.len();
    let ghost cs = changes_spec(fees@);
    let mut best_idx: usize = 0;
    let mut best: u128 = percentage_change(fees[0], fees[1]);
    let mut j: usize = 1;
    while j < n - 1
        invariant
            n == fees@.len(),
            2 <= n,
            1 <= j <= n - 1,
            cs == changes_spec(fees@),
            forall|x: int, y: int| 0 <= x <= y < n ==> fees@[x] <= fees@[y],
            forall|k: int| 0 <= k < n ==> fees@[k] > 0,
            best_idx < j,
            best_idx == first_max_index(cs.take(j as int)),
            best == cs[best_idx as int],
        decreases n - 1 - j,
    {
        let c = percentage_change(fees[j], fees[j + 1]);
        assert(cs.take(j + 1).drop_last() =~= cs.take(j as int));
        if c > best {
            best = c;
            best_idx = j;
        }
        j += 1;
    }
    assert(cs.take(j as int) =~= cs);
    let start: usize = if best >= SPIKE_THRESHOLD_PERCENT && best_idx >= n / 2 {
        best_idx
    } else {
        0
    };
    fees[start + (n - start) / 2]
}

/// Applies the tiered surge multiplier to a base fee, in exact integer arithmetic.
pub fn base_fee_surged(base_fee_per_gas: u64) -> (r: u128)
    ensures
        r == surged_spec(base_fee_per_gas as int),
{
    let base = base_fee_per_gas as u128;
    if base_fee_per_gas <= SURGE_TIER_LOW {
        base * 2
    } else if base_fee_per_gas <= SURGE_TIER_MID {
        base * 16 / 10
    } else if base_fee_per_gas <= SURGE_TIER_HIGH {
        base * 14 / 10
    } else {
        base * 12 / 10
    }
}

/// Percentage change between two adjacent sorted fee values.
pub fn percentage_change(a: u64, b: u64) -> (r: u128)
    requires
        0 < a <= b,
    ensures
        r == pct_change_spec(a as int, b as int),
{
    let diff = (b - a) as u128;
    assert(diff * 100 <= u64::MAX as int * 100) by (nonlinear_arith)
        requires diff <= u64::MAX;
    diff * 100 / (a as u128)
}

/// A priority fee ("tip") and a fee cap for a dynamic-fee transaction.
#[derive(Clone, Copy, Debug, PartialEq, Eq, Structural)]
pub struct FeeRecommendation {
    pub max_priority_fee_per_gas: u64,
    pub max_fee_per_gas: u128,
}

/// Why no fee recommendation can be made.
#[derive(Clone, Copy, Debug, PartialEq, Eq, Structural)]
pub enum FeeError {
    /// The latest block carries no base fee: the dynamic-fee mechanism is not active.
    Eip1559NotActivated,
}

/// The fee cap: the surged base fee, plus the tip when the tip exceeds it.
pub open spec fn fee_cap_spec(priority: int, surged: int) -> int {
    if priority > surged {
        priority + surged
    } else {
        surged
    }
}

/// Recommends a priority fee and a fee cap from the latest base fee and the
/// recent reward samples.
pub fn premium_estimation(base_fee_per_gas: Option<u64>, rewards: &Vec<u64>) -> (r: Result<
    FeeRecommendation,
    FeeError,
>)
    ensures
        base_fee_per_gas is None ==> r == Err::<FeeRecommendation, FeeError>(
            FeeError::Eip1559NotActivated,
        ),
        base_fee_per_gas matches Some(base) ==> r matches Ok(rec) && rec.max_priority_fee_per_gas
            == priority_fee_spec(rewards@) && rec.max_fee_per_gas == fee_cap_spec(
            priority_fee_spec(rewards@) as int,
            surged_spec(base as int),
        ),
{
    let base = match base_fee_per_gas {
        Some(b) => b,
        None => {
            return Err(FeeError::Eip1559NotActivated);
        },
    };
    let priority = estimate_priority_fee(rewards);
    let surged = base_fee_surged(base);
    let cap = if priority as u128 > surged {
        priority as u128 + surged
    } else {
        surged
    };
    Ok(FeeRecommendation { max_priority_fee_per_gas: priority, max_fee_per_gas: cap })
}

} // verus!
