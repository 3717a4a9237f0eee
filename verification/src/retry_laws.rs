//! What holds of retry schedules as a whole.

use crate::missing_dep_backoff::{
    backoff, clamped, jittered, lemma_jitter_monotone, min_nat, one_more, RetryState,
    JITTER_DIVISOR, JITTER_ONE, MAX_LOCAL_RECHECK_SECS, MAX_NETWORK_RETRY_SECS,
    UNFETCHABLE_ATTEMPT_BUDGET,
};
use crate::time::NANOS_PER_SEC;
use vstd::arithmetic::power2::{lemma_pow2_strictly_increases, lemma_pow2_unfold, pow2};
use vstd::prelude::*;

verus! {

/// The first failure is followed by the base delay, unless the cap is shorter.
pub proof fn law_first_delay_is_the_base(base: nat, cap: nat)
    ensures
        backoff(base, 1, cap) == min_nat(base, cap),
{
    vstd::arithmetic::power2::lemma2_to64();
    assert(base * pow2(0) == base) by (nonlinear_arith)
        requires
            pow2(0) == 1,
    ;
}

/// Each further failure doubles the delay, up to the cap.
pub proof fn law_backoff_doubles(base: nat, attempts: nat, cap: nat)
    requires
        1 <= attempts,
    ensures
        backoff(base, attempts + 1, cap) == min_nat(2 * backoff(base, attempts, cap), cap),
{
    lemma_pow2_unfold(attempts);
    let p = pow2((attempts - 1) as nat);
    assert(base * (2 * p) == 2 * (base * p)) by (nonlinear_arith);
}

/// No delay is longer than the cap, however many failures there were and whatever the base.
pub proof fn law_backoff_never_exceeds_the_cap(base: nat, attempts: nat, cap: nat)
    ensures
        backoff(base, attempts, cap) <= cap,
{
}

/// More failures never mean a shorter delay: a large count does not wrap around.
pub proof fn law_backoff_is_monotone(base: nat, fewer: nat, more: nat, cap: nat)
    requires
        fewer <= more,
    ensures
        backoff(base, fewer, cap) <= backoff(base, more, cap),
{
    if fewer > 0 {
        let a = (fewer - 1) as nat;
        let b = (more - 1) as nat;
        if a < b {
            lemma_pow2_strictly_increases(a, b);
        }
        let p = pow2(a);
        let q = pow2(b);
        assert(base * p <= base * q) by (nonlinear_arith)
            requires
                p <= q,
        ;
    }
}

/// Once the doubled base has reached the cap, the delay is the cap for good.
pub proof fn law_backoff_stays_at_the_cap(base: nat, reached: nat, attempts: nat, cap: nat)
    requires
        1 <= reached <= attempts,
        backoff(base, reached, cap) == cap,
    ensures
        backoff(base, attempts, cap) == cap,
{
    law_backoff_is_monotone(base, reached, attempts, cap);
}

/// However short the base, if there is one, enough failures lead to the cap.
pub proof fn law_backoff_reaches_the_cap(base: nat, attempts: nat, cap: nat)
    requires
        base > 0,
        attempts > 0,
        cap <= pow2((attempts - 1) as nat),
    ensures
        backoff(base, attempts, cap) == cap,
{
    let p = pow2((attempts - 1) as nat);
    assert(base * p >= p) by (nonlinear_arith)
        requires
            base > 0,
    ;
}

/// Half of one as a sample leaves a delay as it is.
pub proof fn law_middle_sample_leaves_the_delay_unchanged(delay: nat)
    ensures
        jittered(delay, JITTER_ONE / 2) == delay,
{
    let denominator = JITTER_DIVISOR * JITTER_ONE;
    let numerator = (JITTER_DIVISOR - 1) * JITTER_ONE + 2 * clamped(JITTER_ONE / 2);
    assert(numerator == denominator);
    vstd::arithmetic::div_mod::lemma_hoist_over_denominator(
        denominator / 2,
        delay as int,
        denominator as nat,
    );
    vstd::arithmetic::div_mod::lemma_basic_div(denominator / 2, denominator);
}

/// Whatever the sample, a delay is shortened or lengthened by at most one part in
/// [`JITTER_DIVISOR`], up to rounding to a whole nanosecond.
pub proof fn law_jitter_stays_within_the_fraction(delay: nat, r: int)
    ensures
        (JITTER_DIVISOR - 1) * delay - 2 <= JITTER_DIVISOR * jittered(delay, r) <= (JITTER_DIVISOR
            + 1) * delay + 2,
{
    let low = jittered(delay, 0);
    let high = jittered(delay, JITTER_ONE as int);
    if r < 0 {
        assert(jittered(delay, r) == low);
    } else {
        lemma_jitter_monotone(delay, 0, r);
    }
    if r > JITTER_ONE {
        assert(jittered(delay, r) == high);
    } else {
        lemma_jitter_monotone(delay, r, JITTER_ONE as int);
    }
    assert(0 <= 4 * high - (5 * delay - 2) <= 4) by {
        assert(delay * 45035996273704960 == 5 * delay * 9007199254740992) by (nonlinear_arith);
    }
    assert(0 <= 4 * low - (3 * delay - 2) <= 4) by {
        assert(delay * 27021597764222976 == 3 * delay * 9007199254740992) by (nonlinear_arith);
    }
    lemma_jitter_monotone(delay, 0, JITTER_ONE as int);
}

/// A sample out of range counts as the nearer end of the range.
pub proof fn law_jitter_clamps_its_sample(delay: nat, r: int)
    ensures
        r < 0 ==> jittered(delay, r) == jittered(delay, 0),
        r > JITTER_ONE ==> jittered(delay, r) == jittered(delay, JITTER_ONE as int),
{
}

/// A failed search of either kind.
pub enum Miss {
    /// A search of the local databases came back empty.
    Local {
        /// When it came back.
        now: nat,
        /// The base delay.
        base: nat,
        /// The jitter sample.
        r: int,
    },
    /// A network fetch came back empty.
    Network {
        /// When it came back.
        now: nat,
        /// The base delay.
        base: nat,
        /// The jitter sample.
        r: int,
    },
}

/// The state of a schedule after one miss.
pub open spec fn step(state: RetryState, miss: Miss) -> RetryState {
    match miss {
        Miss::Local { now, base, r } => state.after_local_miss(now, base, r),
        Miss::Network { now, base, r } => state.after_network_miss(now, base, r),
    }
}

/// The state of a schedule after a sequence of misses.
pub open spec fn run(state: RetryState, misses: Seq<Miss>) -> RetryState
    decreases misses.len(),
{
    if misses.len() == 0 {
        state
    } else {
        step(run(state, misses.drop_last()), misses.last())
    }
}

/// How many misses of a sequence are network misses.
pub open spec fn network_count(misses: Seq<Miss>) -> nat
    decreases misses.len(),
{
    if misses.len() == 0 {
        0
    } else {
        network_count(misses.drop_last()) + if misses.last() is Network {
            1nat
        } else {
            0
        }
    }
}

/// How many misses of a sequence are local misses.
pub open spec fn local_count(misses: Seq<Miss>) -> nat
    decreases misses.len(),
{
    if misses.len() == 0 {
        0
    } else {
        local_count(misses.drop_last()) + if misses.last() is Local {
            1nat
        } else {
            0
        }
    }
}

/// How many misses of a sequence are reported as the transition to unfetchable.
pub open spec fn report_count(state: RetryState, misses: Seq<Miss>) -> nat
    decreases misses.len(),
{
    if misses.len() == 0 {
        0
    } else {
        report_count(state, misses.drop_last()) + if misses.last() is Network && run(
            state,
            misses.drop_last(),
        ).reports_network_miss() {
            1nat
        } else {
            0
        }
    }
}

/// A dependency that has just been found to be missing is due on both schedules, and not
/// unfetchable.
pub proof fn law_fresh_is_due_at_once(now: nat)
    ensures
        RetryState::fresh(now).due_for_local_recheck(now),
        RetryState::fresh(now).due_for_network_fetch(now),
        !RetryState::fresh(now).unfetchable(),
        RetryState::fresh(now).wf(),
{
}

/// What is due stays due until the next miss of its kind.
pub proof fn law_due_stays_due(state: RetryState, now: nat, later: nat)
    requires
        now <= later,
    ensures
        state.due_for_local_recheck(now) ==> state.due_for_local_recheck(later),
        state.due_for_network_fetch(now) ==> state.due_for_network_fetch(later),
{
}

/// The two schedules advance independently: a miss of one kind leaves the other kind's count and
/// due time alone.
pub proof fn law_schedules_are_independent(state: RetryState, now: nat, base: nat, r: int)
    ensures
        ({
            let local = state.after_local_miss(now, base, r);
            &&& local.network_misses == state.network_misses
            &&& local.next_network_attempt == state.next_network_attempt
            &&& local.reported_unfetchable == state.reported_unfetchable
            &&& local.unfetchable() == state.unfetchable()
        }),
        ({
            let network = state.after_network_miss(now, base, r);
            &&& network.local_misses == state.local_misses
            &&& network.next_local_recheck == state.next_local_recheck
        }),
{
}

/// After any sequence of misses, each schedule has counted the misses of its own kind, as far as its
/// counter goes.
pub proof fn law_each_schedule_counts_its_own_misses(start: nat, misses: Seq<Miss>)
    ensures
        run(RetryState::fresh(start), misses).local_misses == min_nat(
            local_count(misses),
            u32::MAX as nat,
        ),
        run(RetryState::fresh(start), misses).network_misses == min_nat(
            network_count(misses),
            u32::MAX as nat,
        ),
        local_count(misses) + network_count(misses) == misses.len(),
    decreases misses.len(),
{
    if misses.len() > 0 {
        law_each_schedule_counts_its_own_misses(start, misses.drop_last());
    }
}

/// After any sequence of misses, the transition to unfetchable has been reported exactly once if
/// the network misses have used up the budget, and not at all otherwise; the dependency is
/// unfetchable in the first case only.
pub proof fn law_unfetchable_is_reported_exactly_once(start: nat, misses: Seq<Miss>)
    ensures
        run(RetryState::fresh(start), misses).wf(),
        run(RetryState::fresh(start), misses).network_misses == min_nat(
            network_count(misses),
            u32::MAX as nat,
        ),
        run(RetryState::fresh(start), misses).unfetchable() <==> network_count(misses)
            >= UNFETCHABLE_ATTEMPT_BUDGET,
        report_count(RetryState::fresh(start), misses) == if network_count(misses)
            >= UNFETCHABLE_ATTEMPT_BUDGET {
            1nat
        } else {
            0
        },
    decreases misses.len(),
{
    if misses.len() > 0 {
        law_unfetchable_is_reported_exactly_once(start, misses.drop_last());
    }
}

/// Local misses alone never make a dependency unfetchable, and are never reported.
pub proof fn law_local_misses_never_make_unfetchable(start: nat, misses: Seq<Miss>)
    requires
        forall|i: int| 0 <= i < misses.len() ==> #[trigger] misses[i] is Local,
    ensures
        !run(RetryState::fresh(start), misses).unfetchable(),
        report_count(RetryState::fresh(start), misses) == 0,
{
    law_unfetchable_is_reported_exactly_once(start, misses);
    lemma_no_network_misses(misses);
}

proof fn lemma_no_network_misses(misses: Seq<Miss>)
    requires
        forall|i: int| 0 <= i < misses.len() ==> #[trigger] misses[i] is Local,
    ensures
        network_count(misses) == 0,
    decreases misses.len(),
{
    if misses.len() > 0 {
        lemma_no_network_misses(misses.drop_last());
    }
}

/// However often a dependency was missed, and unfetchable or not, it comes due again: on each
/// schedule, no later than the cap after the last miss on that schedule, whatever the jitter.
pub proof fn law_a_missed_dependency_comes_due_again(state: RetryState, now: nat, base: nat, r: int)
    ensures
        state.after_local_miss(now, base, r).due_for_local_recheck(
            now + (MAX_LOCAL_RECHECK_SECS * NANOS_PER_SEC) as nat,
        ),
        state.after_network_miss(now, base, r).due_for_network_fetch(
            now + (MAX_NETWORK_RETRY_SECS * NANOS_PER_SEC) as nat,
        ),
{
}

/// A miss is never followed by an immediate retry on the same schedule, unless the base delay is
/// zero.
pub proof fn law_a_miss_defers_its_own_schedule(state: RetryState, now: nat, base: nat, r: int)
    requires
        base > 0,
    ensures
        !state.after_local_miss(now, base, r).due_for_local_recheck(now),
        !state.after_network_miss(now, base, r).due_for_network_fetch(now),
{
    let local_cap = (MAX_LOCAL_RECHECK_SECS * NANOS_PER_SEC) as nat;
    let network_cap = (MAX_NETWORK_RETRY_SECS * NANOS_PER_SEC) as nat;
    law_first_delay_is_the_base(base, local_cap);
    law_first_delay_is_the_base(base, network_cap);
    law_backoff_is_monotone(base, 1, one_more(state.local_misses), local_cap);
    law_backoff_is_monotone(base, 1, one_more(state.network_misses), network_cap);
    law_jitter_stays_within_the_fraction(
        backoff(base, one_more(state.local_misses), local_cap),
        r,
    );
    law_jitter_stays_within_the_fraction(
        backoff(base, one_more(state.network_misses), network_cap),
        r,
    );
}

} // verus!
