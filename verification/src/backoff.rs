//! Exponential backoff with seeded jitter.
//!
//! The base delay for attempt `a` is `min(max_delay, min_delay * 2^a)`; each
//! sleep is drawn from the upper half of the interval `[0, base]`, so a
//! sample never exceeds the configured cap and samples grow with the attempt
//! count until the cap is reached.  The generator is seeded deterministically
//! (per peer, from the peer index), so retry schedules across peers are
//! decorrelated while staying reproducible.

use vstd::prelude::*;

verus! {

/// Relies on `rand::rngs::StdRng`: an opaque pseudo-random generator state.
#[verifier::external_type_specification]
#[verifier::external_body]
pub struct ExStdRng(rand::rngs::StdRng);

/// Relies on `rand::SeedableRng::seed_from_u64` for `StdRng`: builds a
/// generator whose state is a function of the seed alone.  Nothing is
/// assumed about the values it will produce.
#[verifier::external_body]
fn rng_from_seed(seed: u64) -> rand::rngs::StdRng {
    rand::SeedableRng::seed_from_u64(seed)
}

/// Relies on `rand::Rng::gen_range`: a sample from a non-empty inclusive
/// range lies inside that range (the call panics on an empty range, which
/// `lo <= hi` rules out).
#[verifier::external_body]
fn sample_range_u64(rng: &mut rand::rngs::StdRng, lo: u64, hi: u64) -> (sample: u64)
    requires
        lo <= hi,
    ensures
        lo <= sample <= hi,
{
    rand::Rng::gen_range(rng, lo..=hi)
}

/// `2^e`.
pub open spec fn pow2(e: nat) -> nat
    decreases e,
{
    if e == 0 {
        1
    } else {
        2 * pow2((e - 1) as nat)
    }
}

/// The deterministic part of the delay for the given attempt:
/// `min(max_delay, min_delay * 2^attempt)`.
pub open spec fn spec_base_delay(min_delay: nat, max_delay: nat, attempt: nat) -> nat {
    if min_delay * pow2(attempt) <= max_delay {
        min_delay * pow2(attempt)
    } else {
        max_delay
    }
}

/// The interval from which the jittered delay for an attempt is drawn:
/// the upper half `[base - base/2, base]` of `[0, base]`.
pub open spec fn spec_delay_in_range(
    min_delay: nat,
    max_delay: nat,
    attempt: nat,
    delay: nat,
) -> bool {
    let base = spec_base_delay(min_delay, max_delay, attempt);
    base - base / 2 <= delay <= base
}

pub proof fn lemma_pow2_monotone(e1: nat, e2: nat)
    requires
        e1 <= e2,
    ensures
        pow2(e1) <= pow2(e2),
    decreases e2,
{
    if e1 < e2 {
        lemma_pow2_monotone(e1, (e2 - 1) as nat);
    }
}

pub proof fn lemma_pow2_pos(e: nat)
    ensures
        pow2(e) >= 1,
    decreases e,
{
    if e > 0 {
        lemma_pow2_pos((e - 1) as nat);
    }
}

/// The base delay never exceeds the cap and never falls below the smaller
/// of the two configured bounds.
pub proof fn lemma_base_delay_bounds(min_delay: nat, max_delay: nat, attempt: nat)
    requires
        min_delay <= max_delay,
    ensures
        spec_base_delay(min_delay, max_delay, attempt) <= max_delay,
        spec_base_delay(min_delay, max_delay, attempt) >= min_delay,
{
    lemma_pow2_pos(attempt);
    assert(min_delay * pow2(attempt) >= min_delay * 1) by (nonlinear_arith)
        requires
            pow2(attempt) >= 1,
    ;
}

/// The base delay is monotonically non-decreasing in the attempt count.
pub proof fn lemma_base_delay_monotone(min_delay: nat, max_delay: nat, a1: nat, a2: nat)
    requires
        a1 <= a2,
    ensures
        spec_base_delay(min_delay, max_delay, a1) <= spec_base_delay(min_delay, max_delay, a2),
{
    lemma_pow2_monotone(a1, a2);
    assert(min_delay * pow2(a1) <= min_delay * pow2(a2)) by (nonlinear_arith)
        requires
            pow2(a1) <= pow2(a2),
    ;
}

/// Jittered delays are monotonically non-decreasing in the attempt count up
/// to the configured cap, and never exceed the cap: any sample drawn for a
/// later attempt whose base delay has not yet hit the cap is at least as
/// large as any sample drawn for an earlier attempt.
pub proof fn lemma_backoff_samples_monotone(
    min_delay: nat,
    max_delay: nat,
    a1: nat,
    a2: nat,
    d1: nat,
    d2: nat,
)
    requires
        min_delay <= max_delay,
        a1 < a2,
        min_delay * pow2(a2) <= max_delay,
        spec_delay_in_range(min_delay, max_delay, a1, d1),
        spec_delay_in_range(min_delay, max_delay, a2, d2),
    ensures
        d1 <= d2,
        d1 <= max_delay,
        d2 <= max_delay,
{
    let b1 = spec_base_delay(min_delay, max_delay, a1);
    let b2 = spec_base_delay(min_delay, max_delay, a2);
    lemma_base_delay_bounds(min_delay, max_delay, a1);
    lemma_base_delay_bounds(min_delay, max_delay, a2);
    assert(b2 == min_delay * pow2(a2));
    assert(pow2(a2) == 2 * pow2((a2 - 1) as nat));
    assert(min_delay * pow2(a2) == 2 * (min_delay * pow2((a2 - 1) as nat))) by (nonlinear_arith)
        requires
            pow2(a2) == 2 * pow2((a2 - 1) as nat),
    ;
    assert(b2 / 2 == min_delay * pow2((a2 - 1) as nat));
    lemma_base_delay_monotone(min_delay, max_delay, a1, (a2 - 1) as nat);
    assert(spec_base_delay(min_delay, max_delay, (a2 - 1) as nat) <= b2 / 2);
    assert(b1 <= b2 / 2);
    assert(d2 >= b2 - b2 / 2 >= b2 / 2);
}

/// Exponential backoff state for one peer: the configured bounds, the retry
/// budget, the attempt counter, and the seeded jitter generator.
pub struct ExponentialBackoff {
    /// Delay for the first retry, in milliseconds.
    pub min_delay_ms: u64,
    /// Cap on every delay, in milliseconds.
    pub max_delay_ms: u64,
    /// Number of retries allowed after the first attempt.
    pub max_retries: u32,
    /// Number of delays handed out so far.
    pub attempt: u64,
    /// Seeded jitter generator; opaque state.
    pub rng: rand::rngs::StdRng,
}

impl ExponentialBackoff {
    /// The configured bounds are ordered and the attempt counter has room
    /// to grow.
    pub open spec fn wf(self) -> bool {
        &&& self.min_delay_ms <= self.max_delay_ms
        &&& self.attempt < u64::MAX
    }

    /// Creates a backoff strategy with a deterministic jitter seed.
    pub fn new_with_seed(min_delay_ms: u64, max_delay_ms: u64, max_retries: u32, seed: u64) -> (b:
        ExponentialBackoff)
        requires
            min_delay_ms <= max_delay_ms,
        ensures
            b.wf(),
            b.min_delay_ms == min_delay_ms,
            b.max_delay_ms == max_delay_ms,
            b.max_retries == max_retries,
            b.attempt == 0,
    {
        ExponentialBackoff {
            min_delay_ms,
            max_delay_ms,
            max_retries,
            attempt: 0,
            rng: rng_from_seed(seed),
        }
    }

    /// Number of retries allowed after the first attempt.
    pub fn max_retries(&self) -> (n: u32)
        ensures
            n == self.max_retries,
    {
        self.max_retries
    }

    /// Computes `min(max_delay, min_delay * 2^attempt)`.
    pub fn base_delay_ms(min_delay_ms: u64, max_delay_ms: u64, attempt: u64) -> (base: u64)
        requires
            min_delay_ms <= max_delay_ms,
        ensures
            base == spec_base_delay(min_delay_ms as nat, max_delay_ms as nat, attempt as nat),
    {
        if min_delay_ms == 0 {
            return 0;
        }
        let mut d: u64 = min_delay_ms;
        let mut i: u64 = 0;
        assert(pow2(0) == 1);
        while i < attempt && d < max_delay_ms
            invariant
                min_delay_ms >= 1,
                min_delay_ms <= max_delay_ms,
                i <= attempt,
                d == spec_base_delay(min_delay_ms as nat, max_delay_ms as nat, i as nat),
            decreases attempt - i,
        {
            proof {
                lemma_pow2_pos(i as nat);
            }
            let doubled: u128 = (d as u128) * 2;
            assert(pow2((i + 1) as nat) == 2 * pow2(i as nat));
            assert((min_delay_ms as nat) * pow2((i + 1) as nat) == 2 * ((min_delay_ms as nat)
                * pow2(i as nat))) by (nonlinear_arith)
                requires
                    pow2((i + 1) as nat) == 2 * pow2(i as nat),
            ;
            if doubled >= max_delay_ms as u128 {
                d = max_delay_ms;
            } else {
                d = doubled as u64;
            }
            i = i + 1;
        }
        proof {
            if i < attempt {
                lemma_base_delay_monotone(
                    min_delay_ms as nat,
                    max_delay_ms as nat,
                    i as nat,
                    attempt as nat,
                );
                lemma_base_delay_bounds(min_delay_ms as nat, max_delay_ms as nat, attempt as nat);
            }
        }
        d
    }

    /// Draws the next jittered delay and advances the attempt counter.
    /// The sample lies in the upper half of `[0, base]` for the current
    /// attempt, so it never exceeds the configured cap.
    pub fn next_delay_ms(&mut self) -> (delay: u64)
        requires
            old(self).wf(),
        ensures
            final(self).wf() || final(self).attempt == u64::MAX,
            final(self).min_delay_ms == old(self).min_delay_ms,
            final(self).max_delay_ms == old(self).max_delay_ms,
            final(self).max_retries == old(self).max_retries,
            final(self).attempt == old(self).attempt + 1,
            spec_delay_in_range(
                old(self).min_delay_ms as nat,
                old(self).max_delay_ms as nat,
                old(self).attempt as nat,
                delay as nat,
            ),
            delay <= old(self).max_delay_ms,
    {
        let base = Self::base_delay_ms(self.min_delay_ms, self.max_delay_ms, self.attempt);
        let low = base - base / 2;
        let delay = sample_range_u64(&mut self.rng, low, base);
        self.attempt = self.attempt + 1;
        proof {
            lemma_base_delay_bounds(
                self.min_delay_ms as nat,
                self.max_delay_ms as nat,
                old(self).attempt as nat,
            );
        }
        delay
    }
}

} // verus!
