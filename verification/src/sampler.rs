//! Unbiased sampling of the transfer variance.
//!
//! A variance in `[0, v]` is drawn from 8-bit random values by rejection: with
//! `R = v + 1`, a draw at or above `256 - 256 % R` is thrown away, and the
//! first draw that is kept is reduced modulo `R`. At most ten draws are looked
//! at. The draws themselves come from the caller, who owns the secure random
//! source.

use vstd::prelude::*;

verus! {

/// How many draws the sampler looks at before it gives up.
pub const MAX_SAMPLING_ATTEMPTS: usize = 10;

/// Number of values in `[0, max_variance]`.
pub open spec fn range_size(max_variance: u8) -> int {
    max_variance + 1
}

/// The least draw that is rejected: the largest multiple of the range size
/// that is at most 256.
pub open spec fn threshold(max_variance: u8) -> int {
    256 - 256int % range_size(max_variance)
}

/// Whether a draw is kept.
pub open spec fn accepts(candidate: u128, max_variance: u8) -> bool {
    candidate < threshold(max_variance)
}

/// The variance that a kept draw stands for.
pub open spec fn reduced(candidate: u128, max_variance: u8) -> u8 {
    (candidate % (range_size(max_variance) as u128)) as u8
}

/// What one draw yields: its reduction if it is kept, nothing otherwise.
pub open spec fn draw_outcome(candidate: u128, max_variance: u8) -> Option<u8> {
    if accepts(candidate, max_variance) {
        Some(reduced(candidate, max_variance))
    } else {
        None
    }
}

/// The reduction of the first kept draw among `draws[start..limit]`.
pub open spec fn first_accepted(draws: Seq<u128>, max_variance: u8, start: int, limit: int) -> Option<u8>
    decreases limit - start,
{
    if start >= limit {
        None
    } else if accepts(draws[start], max_variance) {
        Some(reduced(draws[start], max_variance))
    } else {
        first_accepted(draws, max_variance, start + 1, limit)
    }
}

/// How many of the given draws the sampler may look at.
pub open spec fn attempts(draws: Seq<u128>) -> int {
    if draws.len() < MAX_SAMPLING_ATTEMPTS {
        draws.len() as int
    } else {
        MAX_SAMPLING_ATTEMPTS as int
    }
}

/// The sampled variance. With a maximum of 0 it is 0 and no draw is read.
/// Otherwise it is the reduction of the first kept draw among the first ten,
/// and `None` if there is none.
pub open spec fn sampled(draws: Seq<u128>, max_variance: u8) -> Option<u8> {
    if max_variance == 0 {
        Some(0u8)
    } else {
        first_accepted(draws, max_variance, 0, attempts(draws))
    }
}

/// The threshold lies in `[129, 256]` and is a multiple of the range size.
pub proof fn lemma_threshold_bounds(max_variance: u8)
    ensures
        128 < threshold(max_variance) <= 256,
        threshold(max_variance) == (256int / range_size(max_variance)) * range_size(max_variance),
        threshold(max_variance) % range_size(max_variance) == 0,
{
    let r: int = range_size(max_variance);
    assert(256int == r * (256int / r) + 256int % r) by {
        vstd::arithmetic::div_mod::lemma_fundamental_div_mod(256, r);
    }
    assert(r * (256int / r) == (256int / r) * r) by (nonlinear_arith);
    assert(((256int / r) * r) % r == 0) by {
        vstd::arithmetic::div_mod::lemma_mod_multiples_basic(256int / r, r);
    }
    assert(256int % r < r);
    if r > 128 {
        assert(256int / r == 1) by (nonlinear_arith)
            requires
                128 < r <= 256,
        ;
    }
}

/// The first rejected draw, for the given maximum variance.
pub fn rejection_threshold(max_variance: u8) -> (t: u128)
    ensures
        t == threshold(max_variance),
        128 < t <= 256,
{
    proof {
        lemma_threshold_bounds(max_variance);
    }
    let range: u128 = (max_variance as u128) + 1;
    256u128 - (256u128 % range)
}

/// Judges one draw: `Some(candidate % (max_variance + 1))` if the draw is
/// below the rejection threshold, `None` if it is not.
pub fn accept_draw(candidate: u128, max_variance: u8) -> (kept: Option<u8>)
    ensures
        kept == draw_outcome(candidate, max_variance),
        kept matches Some(roll) ==> roll <= max_variance,
{
    let range: u128 = (max_variance as u128) + 1;
    let limit: u128 = rejection_threshold(max_variance);
    if candidate < limit {
        let roll: u128 = candidate % range;
        Some(roll as u8)
    } else {
        None
    }
}

/// How many draws the sampler needs at most: none for a maximum variance of
/// zero, the whole retry budget otherwise.
pub open spec fn spec_draws_needed(max_variance: u8) -> int {
    if max_variance == 0 {
        0
    } else {
        MAX_SAMPLING_ATTEMPTS as int
    }
}

/// How many draws to make for the sampler: none for a maximum variance of
/// zero, the whole retry budget otherwise.
pub fn draws_needed(max_variance: u8) -> (n: usize)
    ensures
        n == spec_draws_needed(max_variance),
{
    if max_variance == 0 {
        0
    } else {
        MAX_SAMPLING_ATTEMPTS
    }
}

/// The sampler reads no draw beyond those that `draws_needed` counts: draws
/// that agree on that many places give the same sample.
pub proof fn lemma_sample_reads_only_needed_draws(
    first: Seq<u128>,
    second: Seq<u128>,
    max_variance: u8,
)
    requires
        first.len() >= spec_draws_needed(max_variance),
        second.len() >= spec_draws_needed(max_variance),
        forall|i: int| 0 <= i < spec_draws_needed(max_variance) ==> first[i] == second[i],
    ensures
        sampled(first, max_variance) == sampled(second, max_variance),
{
    if max_variance != 0 {
        lemma_first_accepted_agrees(first, second, max_variance, 0, MAX_SAMPLING_ATTEMPTS as int);
    }
}

/// The search gives the same result on draws that agree between `start` and
/// `limit`.
proof fn lemma_first_accepted_agrees(
    first: Seq<u128>,
    second: Seq<u128>,
    max_variance: u8,
    start: int,
    limit: int,
)
    requires
        0 <= start,
        forall|i: int| start <= i < limit ==> first[i] == second[i],
    ensures
        first_accepted(first, max_variance, start, limit) == first_accepted(
            second,
            max_variance,
            start,
            limit,
        ),
    decreases limit - start,
{
    if start < limit && !accepts(first[start], max_variance) {
        lemma_first_accepted_agrees(first, second, max_variance, start + 1, limit);
    }
}

/// Samples a variance in `[0, max_variance]` from the given draws.
///
/// Returns `Some(0)` without reading a draw when `max_variance` is 0.
/// Otherwise returns the reduction of the first kept draw among the first ten
/// of `draws`, and `None` when none of them is kept.
pub fn sample_variance(draws: &[u128], max_variance: u8) -> (roll: Option<u8>)
    ensures
        roll == sampled(draws@, max_variance),
        roll matches Some(r) ==> r <= max_variance,
        max_variance == 0 ==> roll == Some(0u8),
{
    if max_variance == 0 {
        return Some(0);
    }
    let limit: usize = if draws.len() < MAX_SAMPLING_ATTEMPTS {
        draws.len()
    } else {
        MAX_SAMPLING_ATTEMPTS
    };
    let mut i: usize = 0;
    while i < limit
        invariant
            i <= limit,
            limit == attempts(draws@),
            limit <= draws@.len(),
            first_accepted(draws@, max_variance, 0, limit as int) == first_accepted(
                draws@,
                max_variance,
                i as int,
                limit as int,
            ),
        decreases limit - i,
    {
        let kept: Option<u8> = accept_draw(draws[i], max_variance);
        if kept.is_some() {
            return kept;
        }
        i = i + 1;
    }
    None
}

/// Number of the draws `0, 1, .., n - 1` that are kept and yield `value`.
pub open spec fn kept_draws_yielding(max_variance: u8, value: u8, n: nat) -> nat
    decreases n,
{
    if n == 0 {
        0
    } else {
        kept_draws_yielding(max_variance, value, (n - 1) as nat) + if draw_outcome(
            (n - 1) as u128,
            max_variance,
        ) == Some(value) {
            1nat
        } else {
            0nat
        }
    }
}

/// Whether the block that `n` cuts short has already passed `value`: 1 if it
/// has, 0 if not.
spec fn partial_block(max_variance: u8, value: u8, n: nat) -> int {
    if n as int % range_size(max_variance) > value {
        1
    } else {
        0
    }
}

/// The count of `kept_draws_yielding` in closed form: below the threshold one
/// draw per full block and one more if the last, partial block has reached
/// the value; from the threshold on nothing is added.
proof fn lemma_kept_draws_count(max_variance: u8, value: u8, n: nat)
    requires
        value <= max_variance,
        n <= 256,
    ensures
        n <= threshold(max_variance) ==> kept_draws_yielding(max_variance, value, n) == n as int
            / range_size(max_variance) + partial_block(max_variance, value, n),
        n > threshold(max_variance) ==> kept_draws_yielding(max_variance, value, n) == 256int
            / range_size(max_variance),
    decreases n,
{
    let r: int = range_size(max_variance);
    let t: int = threshold(max_variance);
    let q: int = 256int / r;
    lemma_threshold_bounds(max_variance);
    if n == 0 {
        assert(0int / r == 0 && 0int % r == 0) by {
            vstd::arithmetic::div_mod::lemma_fundamental_div_mod_converse(0, r, 0, 0);
        }
    } else {
        let m: int = n - 1;
        lemma_kept_draws_count(max_variance, value, m as nat);
        assert(m == r * (m / r) + m % r && 0 <= m % r < r) by {
            vstd::arithmetic::div_mod::lemma_fundamental_div_mod(m, r);
            vstd::arithmetic::div_mod::lemma_mod_bound(m, r);
        }
        assert(r * (m / r) == (m / r) * r) by (nonlinear_arith);
        if m < t {
            assert(draw_outcome(m as u128, max_variance) == Some((m % r) as u8));
            if m % r < r - 1 {
                assert((m + 1) / r == m / r && (m + 1) % r == m % r + 1) by {
                    vstd::arithmetic::div_mod::lemma_fundamental_div_mod_converse(
                        m + 1,
                        r,
                        m / r,
                        m % r + 1,
                    );
                }
            } else {
                assert((m / r + 1) * r == (m / r) * r + r) by (nonlinear_arith);
                assert((m + 1) / r == m / r + 1 && (m + 1) % r == 0) by {
                    vstd::arithmetic::div_mod::lemma_fundamental_div_mod_converse(
                        m + 1,
                        r,
                        m / r + 1,
                        0,
                    );
                }
            }
        } else {
            assert(draw_outcome(m as u128, max_variance) is None);
            if m == t {
                assert(t / r == q && t % r == 0) by {
                    vstd::arithmetic::div_mod::lemma_fundamental_div_mod_converse(t, r, q, 0);
                }
            }
        }
    }
}

/// The sampler has no modulo bias: of the 256 values that an 8-bit draw can
/// take, exactly `256 / (max_variance + 1)` are kept and yield any given
/// value of `[0, max_variance]`. Every value is as likely as every other.
pub proof fn lemma_sampler_is_unbiased(max_variance: u8, value: u8)
    requires
        value <= max_variance,
    ensures
        kept_draws_yielding(max_variance, value, 256) == 256int / range_size(max_variance),
{
    lemma_kept_draws_count(max_variance, value, 256);
    lemma_threshold_bounds(max_variance);
    let r: int = range_size(max_variance);
    if threshold(max_variance) == 256 {
        assert(256int % r == 0);
    }
}

} // verus!
