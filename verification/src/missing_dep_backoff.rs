//! Retry scheduling for validation dependencies that cannot be found.
//!
//! Validation holds an in-memory map of the dependencies needed by the ops that currently await
//! validation. A dependency that is not held locally has to be looked for: in the local databases,
//! and on the network. One that is merely late shows up within seconds. One that no living chain
//! holds never shows up, and looking for it at full price on every pass is a spin, not a workload.
//!
//! [`MissingDepRetry`] gives each missing dependency two independent schedules, each with its own
//! exponential backoff and each advanced only by its own failures:
//!
//! - the **local re-check** schedule, with a short cap, which bounds how long it can take to notice
//!   that the dependency has arrived by some other route;
//! - the **network fetch** schedule, with a long cap, since asking again for what has failed many
//!   times is the expensive, futile half.
//!
//! Both start due at once. After [`UNFETCHABLE_ATTEMPT_BUDGET`] failed network fetches a dependency
//! is reported as unfetchable. That is a reporting state, not a decision about the data: the
//! dependency keeps coming due at the capped intervals.

use crate::time::{Duration, Instant, NANOS_PER_SEC};
use vstd::arithmetic::power2::{lemma_pow2_strictly_increases, lemma_pow2_unfold, pow2};
use vstd::prelude::*;

verus! {

/// The longest a missing dependency goes without being looked for again in the local databases, in
/// seconds.
///
/// This bounds how stale the view of a dependency can be when it arrives by a route other than a
/// fetch, so it is deliberately short.
pub const MAX_LOCAL_RECHECK_SECS: u64 = 60;

/// The longest a missing dependency goes without being fetched again from the network, in seconds.
pub const MAX_NETWORK_RETRY_SECS: u64 = 3600;

/// The number of failed network fetches after which a dependency is reported as unfetchable.
pub const UNFETCHABLE_ATTEMPT_BUDGET: u32 = 12;

/// The base delay, in seconds, for a caller that has no configured retry delay to hand.
pub const DEFAULT_RETRY_BASE_SECS: u64 = 10;

/// Jitter samples are fixed-point numbers: this one stands for one.
///
/// A sample is expected to lie in `0 .. JITTER_ONE`. The resolution is that of a uniformly drawn
/// double-precision number.
pub const JITTER_ONE: i64 = 0x20_0000_0000_0000;

/// Jitter shortens or lengthens a delay by at most one part in this many.
pub const JITTER_DIVISOR: i64 = 4;

/// The longest delay of the local re-check schedule.
pub fn max_local_recheck_delay() -> (d: Duration)
    ensures
        d@ == MAX_LOCAL_RECHECK_SECS * NANOS_PER_SEC,
{
    Duration::from_secs(MAX_LOCAL_RECHECK_SECS)
}

/// The longest delay of the network fetch schedule.
pub fn max_network_retry_delay() -> (d: Duration)
    ensures
        d@ == MAX_NETWORK_RETRY_SECS * NANOS_PER_SEC,
{
    Duration::from_secs(MAX_NETWORK_RETRY_SECS)
}

/// The base delay for a caller that has no configured retry delay to hand.
pub fn default_retry_base() -> (d: Duration)
    ensures
        d@ == DEFAULT_RETRY_BASE_SECS * NANOS_PER_SEC,
{
    Duration::from_secs(DEFAULT_RETRY_BASE_SECS)
}

/// The smaller of two numbers.
pub open spec fn min_nat(a: nat, b: nat) -> nat {
    if a <= b {
        a
    } else {
        b
    }
}

/// The delay after the `attempts`-th failure: `base`, doubled once for every earlier failure and
/// cut off at `cap`.
pub open spec fn backoff(base: nat, attempts: nat, cap: nat) -> nat {
    if attempts == 0 {
        0
    } else {
        min_nat(base * pow2((attempts - 1) as nat), cap)
    }
}

/// A jitter sample, moved into the range from zero to [`JITTER_ONE`] if it lies outside.
pub open spec fn clamped(r: int) -> int {
    if r < 0 {
        0
    } else if r > JITTER_ONE {
        JITTER_ONE as int
    } else {
        r
    }
}

/// `delay` times `1 + (2 * r - 1) / JITTER_DIVISOR`, where `r` is the clamped sample as a fraction
/// of [`JITTER_ONE`], rounded to the nearest whole number.
pub open spec fn jittered(delay: nat, r: int) -> nat {
    let numerator = (JITTER_DIVISOR - 1) * JITTER_ONE + 2 * clamped(r);
    let denominator = JITTER_DIVISOR * JITTER_ONE;
    ((delay * numerator + denominator / 2) / denominator) as nat
}

/// Exponential backoff delay for the `attempts`-th failure, capped at `cap`.
///
/// `attempts` is 1-based: the delay after the first failure is `base`.
pub fn backoff_delay(base: Duration, attempts: u32, cap: Duration) -> (delay: Duration)
    ensures
        delay@ == backoff(base@, attempts as nat, cap@),
{
    if attempts == 0 {
        return Duration::zero();
    }
    let shift: u32 = attempts - 1;
    if shift >= 128 {
        // Every delay but none at all has long been cut off.
        proof {
            lemma_pow2_beyond_u128(base@, shift as nat);
        }
        return if base.nanos == 0 {
            Duration::zero()
        } else {
            cap
        };
    }
    let multiplier: u128 = 1u128 << shift;
    proof {
        lemma_shl_is_pow2(shift);
    }
    match base.checked_mul(multiplier) {
        Some(delay) => delay.min(cap),
        None => cap,
    }
}

proof fn lemma_shl_is_pow2(shift: u32)
    requires
        shift < 128,
    ensures
        1u128 << shift == pow2(shift as nat),
    decreases shift,
{
    if shift == 0 {
        assert(1u128 << 0u32 == 1) by (bit_vector);
        vstd::arithmetic::power2::lemma2_to64();
    } else {
        let less = (shift - 1) as u32;
        lemma_shl_is_pow2(less);
        lemma_pow2_unfold(shift as nat);
        assert(1u128 << shift == 2 * (1u128 << less)) by (bit_vector)
            requires
                0 < shift < 128,
                less == shift - 1,
        ;
    }
}

proof fn lemma_pow2_beyond_u128(base: nat, shift: nat)
    requires
        shift >= 128,
    ensures
        base == 0 ==> base * pow2(shift) == 0,
        base > 0 ==> base * pow2(shift) > u128::MAX,
{
    let p = pow2(shift);
    assert(p > u128::MAX) by {
        lemma_shl_is_pow2(127);
        assert(1u128 << 127u32 == 0x8000_0000_0000_0000_0000_0000_0000_0000) by (bit_vector);
        lemma_pow2_unfold(128);
        if shift > 128 {
            lemma_pow2_strictly_increases(128, shift);
        }
    }
    assert(base > 0 ==> base * p >= p) by (nonlinear_arith);
}

/// Shorten or lengthen a delay by a fraction that depends on the sample `r`, which is a multiple of
/// one part in [`JITTER_ONE`].
///
/// Half of [`JITTER_ONE`] leaves the delay unchanged. A sample out of range is clamped.
pub fn apply_jitter(delay: Duration, r: i64) -> (d: Duration)
    requires
        jittered(delay@, r as int) <= u128::MAX,
    ensures
        d@ == jittered(delay@, r as int),
{
    let sample: u128 = if r < 0 {
        0
    } else if r > JITTER_ONE {
        JITTER_ONE as u128
    } else {
        r as u128
    };
    let one: u128 = JITTER_ONE as u128;
    let numerator: u128 = (JITTER_DIVISOR as u128 - 1) * one + 2 * sample;
    let denominator: u128 = JITTER_DIVISOR as u128 * one;
    // Divide before multiplying, so that no intermediate result is longer than the final one.
    let whole: u128 = delay.nanos / denominator;
    let part: u128 = delay.nanos % denominator;
    proof {
        lemma_jitter_split(delay@, numerator as nat, denominator as nat);
        assert(part * numerator <= denominator * numerator) by (nonlinear_arith)
            requires
                part <= denominator,
        ;
    }
    let from_part: u128 = (part * numerator + denominator / 2) / denominator;
    Duration { nanos: whole * numerator + from_part }
}

proof fn lemma_jitter_split(delay: nat, numerator: nat, denominator: nat)
    requires
        denominator > 0,
    ensures
        (delay * numerator + denominator / 2) / denominator == (delay / denominator) * numerator + ((
        delay % denominator) * numerator + denominator / 2) / denominator,
{
    let whole = delay / denominator;
    let part = delay % denominator;
    let rest = part * numerator + denominator / 2;
    vstd::arithmetic::div_mod::lemma_fundamental_div_mod(delay as int, denominator as int);
    assert(delay * numerator + denominator / 2 == rest + (whole * numerator) * denominator)
        by (nonlinear_arith)
        requires
            delay == denominator * whole + part,
            rest == part * numerator + denominator / 2,
    ;
    vstd::arithmetic::div_mod::lemma_hoist_over_denominator(
        rest as int,
        (whole * numerator) as int,
        denominator,
    );
}

/// One uniformly distributed word of `rand::random::<u64>()`.
///
/// Nothing is claimed of the result: any word may come back, from call to call.
#[verifier::external_body]
fn random_word() -> (word: u64)
{
    rand::random::<u64>()
}

/// A uniformly distributed jitter sample.
///
/// The sample is made of the upper 53 bits of a random word, as a double-precision number drawn
/// from the half-open unit interval is.
pub fn random_jitter() -> (r: i64)
    ensures
        0 <= r < JITTER_ONE,
{
    jitter_from_word(random_word())
}

/// The jitter sample that a random word stands for: its upper 53 bits.
pub fn jitter_from_word(word: u64) -> (r: i64)
    ensures
        r == word / 0x800,
        0 <= r < JITTER_ONE,
{
    (word / 0x800) as i64
}

/// What a [`MissingDepRetry`] stands for. Instants are nanoseconds after the clock's origin.
pub struct RetryState {
    /// How many local searches have come back empty.
    pub local_misses: nat,
    /// How many network fetches have come back empty.
    pub network_misses: nat,
    /// When the local databases should be searched again.
    pub next_local_recheck: nat,
    /// When the network should be asked again.
    pub next_network_attempt: nat,
    /// Whether the transition to unfetchable has been reported.
    pub reported_unfetchable: bool,
}

/// A count of misses after one more miss. The counter sticks at its largest value.
pub open spec fn one_more(misses: nat) -> nat {
    min_nat(misses + 1, u32::MAX as nat)
}

impl RetryState {
    /// A dependency that was found to be missing at `now`: both schedules are due.
    pub open spec fn fresh(now: nat) -> RetryState {
        RetryState {
            local_misses: 0,
            network_misses: 0,
            next_local_recheck: now,
            next_network_attempt: now,
            reported_unfetchable: false,
        }
    }

    /// Whether the local databases should be searched at `now`.
    pub open spec fn due_for_local_recheck(self, now: nat) -> bool {
        now >= self.next_local_recheck
    }

    /// Whether the network should be asked at `now`.
    pub open spec fn due_for_network_fetch(self, now: nat) -> bool {
        now >= self.next_network_attempt
    }

    /// Whether so many network fetches have failed that the dependency counts as unfetchable.
    pub open spec fn unfetchable(self) -> bool {
        self.network_misses >= UNFETCHABLE_ATTEMPT_BUDGET
    }

    /// How long after one more local miss the local databases should be searched again: the jittered
    /// backoff, and never longer than the cap.
    pub open spec fn local_delay(self, base: nat, r: int) -> nat {
        let cap = (MAX_LOCAL_RECHECK_SECS * NANOS_PER_SEC) as nat;
        min_nat(jittered(backoff(base, one_more(self.local_misses), cap), r), cap)
    }

    /// How long after one more network miss the network should be asked again: the jittered backoff,
    /// and never longer than the cap.
    pub open spec fn network_delay(self, base: nat, r: int) -> nat {
        let cap = (MAX_NETWORK_RETRY_SECS * NANOS_PER_SEC) as nat;
        min_nat(jittered(backoff(base, one_more(self.network_misses), cap), r), cap)
    }

    /// The state after a local search at `now` came back empty.
    pub open spec fn after_local_miss(self, now: nat, base: nat, r: int) -> RetryState {
        RetryState {
            local_misses: one_more(self.local_misses),
            next_local_recheck: now + self.local_delay(base, r),
            ..self
        }
    }

    /// The state after a network fetch at `now` came back empty.
    pub open spec fn after_network_miss(self, now: nat, base: nat, r: int) -> RetryState {
        RetryState {
            network_misses: one_more(self.network_misses),
            next_network_attempt: now + self.network_delay(base, r),
            reported_unfetchable: self.reported_unfetchable || one_more(self.network_misses)
                >= UNFETCHABLE_ATTEMPT_BUDGET,
            ..self
        }
    }

    /// Whether one more network miss is the transition to unfetchable that has to be reported.
    pub open spec fn reports_network_miss(self) -> bool {
        !self.reported_unfetchable && one_more(self.network_misses) >= UNFETCHABLE_ATTEMPT_BUDGET
    }

    /// What holds of every retry schedule: the transition to unfetchable has been reported exactly
    /// if it has happened.
    pub open spec fn wf(self) -> bool {
        self.reported_unfetchable <==> self.unfetchable()
    }
}

/// The retry schedule for a single dependency that is not held locally.
#[derive(Clone, Debug)]
pub struct MissingDepRetry {
    /// How many local searches for this dependency have come back empty.
    local_misses: u32,
    /// How many network fetches for this dependency have come back empty.
    network_misses: u32,
    /// The earliest instant at which the local databases should be searched again.
    next_local_recheck: Instant,
    /// The earliest instant at which the network should be asked again.
    next_network_attempt: Instant,
    /// Whether the transition to unfetchable has already been reported.
    reported_unfetchable: bool,
}

impl View for MissingDepRetry {
    type V = RetryState;

    closed spec fn view(&self) -> RetryState {
        RetryState {
            local_misses: self.local_misses as nat,
            network_misses: self.network_misses as nat,
            next_local_recheck: self.next_local_recheck@,
            next_network_attempt: self.next_network_attempt@,
            reported_unfetchable: self.reported_unfetchable,
        }
    }
}

impl MissingDepRetry {
    /// A dependency that has just been found to be missing. Both schedules are due immediately.
    pub fn new(now: Instant) -> (retry: Self)
        ensures
            retry@ == RetryState::fresh(now@),
            retry@.wf(),
    {
        Self {
            local_misses: 0,
            network_misses: 0,
            next_local_recheck: now,
            next_network_attempt: now,
            reported_unfetchable: false,
        }
    }

    /// The number of local searches that came back empty.
    pub fn local_misses(&self) -> (n: u32)
        ensures
            n == self@.local_misses,
    {
        self.local_misses
    }

    /// The number of network fetches that came back empty.
    pub fn network_misses(&self) -> (n: u32)
        ensures
            n == self@.network_misses,
    {
        self.network_misses
    }

    /// Whether the local databases should be searched for this dependency now.
    pub fn due_for_local_recheck(&self, now: Instant) -> (due: bool)
        ensures
            due == self@.due_for_local_recheck(now@),
    {
        now.has_reached(self.next_local_recheck)
    }

    /// Whether the network should be asked for this dependency now.
    pub fn due_for_network_fetch(&self, now: Instant) -> (due: bool)
        ensures
            due == self@.due_for_network_fetch(now@),
    {
        now.has_reached(self.next_network_attempt)
    }

    /// Whether this dependency has failed often enough to be reported as unfetchable.
    ///
    /// Being unfetchable does not drop the dependency or resolve the ops that need it. It means
    /// that it is no longer looked for at full price, and that this can be said.
    pub fn is_unfetchable(&self) -> (unfetchable: bool)
        ensures
            unfetchable == self@.unfetchable(),
    {
        self.network_misses >= UNFETCHABLE_ATTEMPT_BUDGET
    }

    /// Record that a local search for this dependency came back empty, with random jitter.
    pub fn record_local_miss(&mut self, now: Instant, base: Duration)
        requires
            now@ + MAX_LOCAL_RECHECK_SECS * NANOS_PER_SEC <= Instant::latest(),
        ensures
            exists|r: int|
                0 <= r < JITTER_ONE && final(self)@ == #[trigger] old(self)@.after_local_miss(
                    now@,
                    base@,
                    r,
                ),
            old(self)@.wf() ==> final(self)@.wf(),
    {
        let r: i64 = random_jitter();
        self.record_local_miss_with_jitter(now, base, r);
    }

    /// [`Self::record_local_miss`] with the jitter sample given.
    pub fn record_local_miss_with_jitter(&mut self, now: Instant, base: Duration, r: i64)
        requires
            now@ + MAX_LOCAL_RECHECK_SECS * NANOS_PER_SEC <= Instant::latest(),
        ensures
            final(self)@ == old(self)@.after_local_miss(now@, base@, r as int),
            old(self)@.wf() ==> final(self)@.wf(),
    {
        let cap = max_local_recheck_delay();
        self.local_misses = self.local_misses.saturating_add(1);
        let delay = backoff_delay(base, self.local_misses, cap);
        proof {
            lemma_jitter_at_most_doubles(delay@, r as int);
        }
        self.next_local_recheck = now.after(apply_jitter(delay, r).min(cap));
    }

    /// Record that a network fetch for this dependency came back empty, with random jitter.
    ///
    /// Returns `true` if this failure is the transition into the unfetchable state, so that the
    /// caller can report it exactly once.
    pub fn record_network_miss(&mut self, now: Instant, base: Duration) -> (report: bool)
        requires
            now@ + MAX_NETWORK_RETRY_SECS * NANOS_PER_SEC <= Instant::latest(),
        ensures
            report == old(self)@.reports_network_miss(),
            exists|r: int|
                0 <= r < JITTER_ONE && final(self)@ == #[trigger] old(self)@.after_network_miss(
                    now@,
                    base@,
                    r,
                ),
            old(self)@.wf() ==> final(self)@.wf(),
    {
        let r: i64 = random_jitter();
        self.record_network_miss_with_jitter(now, base, r)
    }

    /// [`Self::record_network_miss`] with the jitter sample given.
    pub fn record_network_miss_with_jitter(&mut self, now: Instant, base: Duration, r: i64) -> (report:
        bool)
        requires
            now@ + MAX_NETWORK_RETRY_SECS * NANOS_PER_SEC <= Instant::latest(),
        ensures
            report == old(self)@.reports_network_miss(),
            final(self)@ == old(self)@.after_network_miss(now@, base@, r as int),
            old(self)@.wf() ==> final(self)@.wf(),
    {
        let cap = max_network_retry_delay();
        self.network_misses = self.network_misses.saturating_add(1);
        let delay = backoff_delay(base, self.network_misses, cap);
        proof {
            lemma_jitter_at_most_doubles(delay@, r as int);
        }
        self.next_network_attempt = now.after(apply_jitter(delay, r).min(cap));
        if self.is_unfetchable() && !self.reported_unfetchable {
            self.reported_unfetchable = true;
            true
        } else {
            false
        }
    }
}

proof fn lemma_jitter_at_most_doubles(delay: nat, r: int)
    ensures
        jittered(delay, r) <= 2 * delay,
{
    let denominator = JITTER_DIVISOR * JITTER_ONE;
    let numerator = (JITTER_DIVISOR - 1) * JITTER_ONE + 2 * clamped(r);
    assert(0 <= delay * numerator <= (2 * delay) * denominator) by (nonlinear_arith)
        requires
            0 <= numerator <= 2 * denominator,
    ;
    vstd::arithmetic::div_mod::lemma_div_is_ordered(
        delay * numerator + denominator / 2,
        (2 * delay) * denominator + denominator / 2,
        denominator,
    );
    vstd::arithmetic::div_mod::lemma_hoist_over_denominator(
        denominator / 2,
        (2 * delay) as int,
        denominator as nat,
    );
    vstd::arithmetic::div_mod::lemma_basic_div(denominator / 2, denominator);
}

/// A larger sample never gives a shorter delay.
pub proof fn lemma_jitter_monotone(delay: nat, r: int, s: int)
    requires
        r <= s,
    ensures
        jittered(delay, r) <= jittered(delay, s),
{
    let denominator = JITTER_DIVISOR * JITTER_ONE;
    let n1 = (JITTER_DIVISOR - 1) * JITTER_ONE + 2 * clamped(r);
    let n2 = (JITTER_DIVISOR - 1) * JITTER_ONE + 2 * clamped(s);
    assert(0 <= delay * n1 <= delay * n2) by (nonlinear_arith)
        requires
            0 <= n1 <= n2,
    ;
    vstd::arithmetic::div_mod::lemma_div_is_ordered(
        delay * n1 + denominator / 2,
        delay * n2 + denominator / 2,
        denominator,
    );
}

} // verus!
