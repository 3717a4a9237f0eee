//! What the calls that schedule retries do, and how such calls relate.
//!
//! Each law speaks of calls by what was handed to them and what came back.

use crate::missing_dep_backoff::{
    apply_jitter, backoff_delay, default_retry_base, jitter_from_word, max_local_recheck_delay,
    max_network_retry_delay, random_jitter, MissingDepRetry,
};
use crate::time::{Duration, Instant};
use vstd::arithmetic::power2::{lemma_pow2_pos, lemma_pow2_unfold, pow2};
use vstd::prelude::*;

verus! {

/// Spans of seconds and milliseconds are as long as they say, and the caps and the default base are
/// a minute, an hour and ten seconds.
pub proof fn law_spans_are_as_long_as_they_say(
    n: u64,
    secs: Duration,
    millis: Duration,
    local_cap: Duration,
    network_cap: Duration,
    base: Duration,
    none: Duration,
)
    requires
        call_ensures(Duration::from_secs, (n,), secs),
        call_ensures(Duration::from_millis, (n,), millis),
        call_ensures(Duration::zero, (), none),
        call_ensures(max_local_recheck_delay, (), local_cap),
        call_ensures(max_network_retry_delay, (), network_cap),
        call_ensures(default_retry_base, (), base),
    ensures
        secs.nanos == n * 1_000_000_000,
        millis.nanos == n * 1_000_000,
        secs.nanos == 1000 * millis.nanos,
        none.nanos == 0,
        local_cap.nanos == 60_000_000_000,
        network_cap.nanos == 3_600_000_000_000,
        base.nanos == 10_000_000_000,
{
}

/// An instant is reached from itself on, and an instant that lies a span later exactly once the span
/// has passed.
pub proof fn law_instants_are_reached_in_order(
    now: Instant,
    delay: Duration,
    later: Instant,
    other: Instant,
    reached: bool,
)
    requires
        call_ensures(Instant::after, (now, delay), later),
        call_ensures(Instant::has_reached, (other, later), reached),
    ensures
        later.nanos == now.nanos + delay.nanos,
        reached <==> other.nanos - now.nanos >= delay.nanos,
{
}

/// The shorter of two spans is one of them and longer than neither; a multiple is given exactly if it
/// can be represented.
pub proof fn law_spans_are_compared_and_multiplied(
    a: Duration,
    b: Duration,
    shorter: Duration,
    factor: u128,
    product: Option<Duration>,
)
    requires
        call_ensures(Duration::min, (a, b), shorter),
        call_ensures(Duration::checked_mul, (a, factor), product),
    ensures
        shorter == a || shorter == b,
        shorter.nanos <= a.nanos,
        shorter.nanos <= b.nanos,
        product is Some <==> a.nanos * factor <= u128::MAX,
        product matches Some(d) ==> d.nanos == a.nanos * factor,
{
}

/// A delay is the base times a power of two whose exponent is the number of earlier failures, or the
/// cap, whichever is shorter; before the first failure there is none.
pub proof fn law_delays_grow_by_powers_of_two(
    base: Duration,
    attempts: u32,
    cap: Duration,
    delay: Duration,
)
    requires
        call_ensures(backoff_delay, (base, attempts, cap), delay),
    ensures
        attempts == 0 ==> delay.nanos == 0,
        attempts > 0 ==> {
            let doubled = base.nanos * pow2((attempts - 1) as nat);
            &&& delay.nanos <= cap.nanos
            &&& delay.nanos <= doubled
            &&& delay.nanos == cap.nanos || delay.nanos == doubled
        },
{
}

/// The first failure is followed by the base, and each further one by twice the delay before it, as
/// long as the cap allows that.
pub proof fn law_each_failure_doubles_the_delay(
    base: Duration,
    attempts: u32,
    cap: Duration,
    first: Duration,
    delay: Duration,
    next: Duration,
)
    requires
        0 < attempts < u32::MAX,
        call_ensures(backoff_delay, (base, 1u32, cap), first),
        call_ensures(backoff_delay, (base, attempts, cap), delay),
        call_ensures(backoff_delay, (base, (attempts + 1) as u32, cap), next),
    ensures
        first.nanos == if base.nanos <= cap.nanos {
            base.nanos
        } else {
            cap.nanos
        },
        next.nanos == if 2 * delay.nanos <= cap.nanos {
            2 * delay.nanos
        } else {
            cap.nanos as int
        },
        first.nanos <= delay.nanos <= next.nanos,
{
    let k = (attempts - 1) as nat;
    let p = pow2(k);
    vstd::arithmetic::power2::lemma2_to64();
    assert(base.nanos * pow2(0) == base.nanos) by (nonlinear_arith)
        requires
            pow2(0) == 1,
    ;
    lemma_pow2_unfold(attempts as nat);
    lemma_pow2_pos(k);
    assert(base.nanos * (2 * p) == 2 * (base.nanos * p)) by (nonlinear_arith);
    assert(base.nanos * p >= base.nanos) by (nonlinear_arith)
        requires
            p >= 1,
            base.nanos >= 0,
    ;
}

/// A jittered delay is the whole number of nanoseconds that is nearest to the delay times a factor,
/// and of two that are equally near the longer one. The factor grows evenly with the sample, from
/// three quarters at zero to five quarters at two to the 53rd; a sample out of this range counts as
/// the nearer end.
pub proof fn law_jitter_scales_evenly(delay: Duration, r: i64, jittered: Duration)
    requires
        call_ensures(apply_jitter, (delay, r), jittered),
    ensures
        ({
            let one = 9_007_199_254_740_992int;
            let sample = if r < 0 {
                0
            } else if r > one {
                one
            } else {
                r as int
            };
            let excess = jittered.nanos * (4 * one) - delay.nanos * (3 * one + 2 * sample);
            -2 * one < excess <= 2 * one
        }),
{
    let one = 9_007_199_254_740_992int;
    let sample = if r < 0 {
        0
    } else if r > one {
        one
    } else {
        r as int
    };
    let scaled = delay.nanos * (3 * one + 2 * sample);
    assert(jittered.nanos == (scaled + 2 * one) / (4 * one)) by {
        assert(scaled >= 0) by (nonlinear_arith)
            requires
                scaled == delay.nanos * (3 * one + 2 * sample),
                one > 0,
                sample >= 0,
                delay.nanos >= 0,
        ;
    }
    vstd::arithmetic::div_mod::lemma_fundamental_div_mod(scaled + 2 * one, 4 * one);
    assert(jittered.nanos * (4 * one) == (4 * one) * ((scaled + 2 * one) / (4 * one)))
        by (nonlinear_arith)
        requires
            jittered.nanos == (scaled + 2 * one) / (4 * one),
    ;
}

/// A random word is cut down to its upper 53 bits, whatever it is, and every sample that is drawn is
/// such a number.
pub proof fn law_samples_are_upper_bits(word: u64, r: i64, drawn: i64)
    requires
        call_ensures(jitter_from_word, (word,), r),
        call_ensures(random_jitter, (), drawn),
    ensures
        r * 2048 <= word < (r + 1) * 2048,
        0 <= drawn < 9_007_199_254_740_992,
{
}

/// A new schedule has counted nothing, is due from the moment of its creation on, on both sides, and
/// is not unfetchable.
pub proof fn law_new_schedules_are_due_at_once(
    now: Instant,
    retry: MissingDepRetry,
    other: Instant,
    local_due: bool,
    network_due: bool,
    local_misses: u32,
    network_misses: u32,
    unfetchable: bool,
)
    requires
        call_ensures(MissingDepRetry::new, (now,), retry),
        call_ensures(MissingDepRetry::due_for_local_recheck, (&retry, other), local_due),
        call_ensures(MissingDepRetry::due_for_network_fetch, (&retry, other), network_due),
        call_ensures(MissingDepRetry::local_misses, (&retry,), local_misses),
        call_ensures(MissingDepRetry::network_misses, (&retry,), network_misses),
        call_ensures(MissingDepRetry::is_unfetchable, (&retry,), unfetchable),
    ensures
        local_due <==> other.nanos >= now.nanos,
        network_due <==> other.nanos >= now.nanos,
        local_misses == 0,
        network_misses == 0,
        !unfetchable,
        !retry@.reported_unfetchable,
{
}

/// A schedule is due exactly from its next instant on, on each side by its own, and unfetchable
/// exactly from the twelfth network miss on.
pub proof fn law_schedules_are_read_as_they_stand(
    retry: MissingDepRetry,
    now: Instant,
    local_due: bool,
    network_due: bool,
    local_misses: u32,
    network_misses: u32,
    unfetchable: bool,
)
    requires
        call_ensures(MissingDepRetry::due_for_local_recheck, (&retry, now), local_due),
        call_ensures(MissingDepRetry::due_for_network_fetch, (&retry, now), network_due),
        call_ensures(MissingDepRetry::local_misses, (&retry,), local_misses),
        call_ensures(MissingDepRetry::network_misses, (&retry,), network_misses),
        call_ensures(MissingDepRetry::is_unfetchable, (&retry,), unfetchable),
    ensures
        local_due <==> now.nanos >= retry@.next_local_recheck,
        network_due <==> now.nanos >= retry@.next_network_attempt,
        local_misses == retry@.local_misses,
        network_misses == retry@.network_misses,
        unfetchable <==> network_misses >= 12,
{
}

/// A local miss counts one more local miss, up to what the counter holds, and puts the next search
/// off by the jittered delay for that count, or by a minute if that is shorter. It leaves the network
/// side alone.
pub proof fn law_a_local_miss_is_scheduled_by_local_misses_alone(
    retry: &mut MissingDepRetry,
    now: Instant,
    base: Duration,
    r: i64,
    misses: u32,
    cap: Duration,
    delay: Duration,
    jittered: Duration,
)
    requires
        call_ensures(MissingDepRetry::record_local_miss_with_jitter, (retry, now, base, r), ()),
        call_ensures(MissingDepRetry::local_misses, (&*final(retry),), misses),
        cap.nanos == 60_000_000_000,
        call_ensures(backoff_delay, (base, misses, cap), delay),
        call_ensures(apply_jitter, (delay, r), jittered),
    ensures
        misses == if old(retry)@.local_misses < u32::MAX {
            old(retry)@.local_misses + 1
        } else {
            u32::MAX as nat
        },
        final(retry)@.next_local_recheck == now.nanos + if jittered.nanos <= cap.nanos {
            jittered.nanos
        } else {
            cap.nanos
        },
        final(retry)@.network_misses == old(retry)@.network_misses,
        final(retry)@.next_network_attempt == old(retry)@.next_network_attempt,
        final(retry)@.reported_unfetchable == old(retry)@.reported_unfetchable,
{
}

/// A network miss counts one more network miss, up to what the counter holds, and puts the next fetch
/// off by the jittered delay for that count, or by an hour if that is shorter. It leaves the local
/// side alone. It is reported if it brings the count to twelve or more and none was reported before.
pub proof fn law_a_network_miss_is_scheduled_by_network_misses_alone(
    retry: &mut MissingDepRetry,
    now: Instant,
    base: Duration,
    r: i64,
    report: bool,
    misses: u32,
    cap: Duration,
    delay: Duration,
    jittered: Duration,
)
    requires
        call_ensures(
            MissingDepRetry::record_network_miss_with_jitter,
            (retry, now, base, r),
            report,
        ),
        call_ensures(MissingDepRetry::network_misses, (&*final(retry),), misses),
        cap.nanos == 3_600_000_000_000,
        call_ensures(backoff_delay, (base, misses, cap), delay),
        call_ensures(apply_jitter, (delay, r), jittered),
    ensures
        misses == if old(retry)@.network_misses < u32::MAX {
            old(retry)@.network_misses + 1
        } else {
            u32::MAX as nat
        },
        final(retry)@.next_network_attempt == now.nanos + if jittered.nanos <= cap.nanos {
            jittered.nanos
        } else {
            cap.nanos
        },
        final(retry)@.local_misses == old(retry)@.local_misses,
        final(retry)@.next_local_recheck == old(retry)@.next_local_recheck,
        report <==> misses >= 12 && !old(retry)@.reported_unfetchable,
        final(retry)@.reported_unfetchable <==> misses >= 12 || old(retry)@.reported_unfetchable,
{
}

/// Two schedules with as many misses on one side get the same delay there, whatever they have counted
/// on the other side and whenever they were due.
pub proof fn law_one_side_never_delays_the_other(
    one: &mut MissingDepRetry,
    other: &mut MissingDepRetry,
    third: &mut MissingDepRetry,
    fourth: &mut MissingDepRetry,
    now: Instant,
    base: Duration,
    r: i64,
    one_report: bool,
    other_report: bool,
)
    requires
        old(one)@.network_misses == old(other)@.network_misses,
        call_ensures(
            MissingDepRetry::record_network_miss_with_jitter,
            (one, now, base, r),
            one_report,
        ),
        call_ensures(
            MissingDepRetry::record_network_miss_with_jitter,
            (other, now, base, r),
            other_report,
        ),
        old(third)@.local_misses == old(fourth)@.local_misses,
        call_ensures(MissingDepRetry::record_local_miss_with_jitter, (third, now, base, r), ()),
        call_ensures(MissingDepRetry::record_local_miss_with_jitter, (fourth, now, base, r), ()),
    ensures
        final(one)@.next_network_attempt == final(other)@.next_network_attempt,
        final(one)@.network_misses == final(other)@.network_misses,
        final(third)@.next_local_recheck == final(fourth)@.next_local_recheck,
        final(third)@.local_misses == final(fourth)@.local_misses,
{
}

/// A miss with random jitter is a miss with some sample in range: whatever was drawn, it counts,
/// reports and leaves alone the same, and the delay lies within a quarter of the backoff and within
/// the cap.
pub proof fn law_random_jitter_changes_the_delay_only(
    local: &mut MissingDepRetry,
    network: &mut MissingDepRetry,
    now: Instant,
    base: Duration,
    report: bool,
    local_misses: u32,
    network_misses: u32,
    local_cap: Duration,
    network_cap: Duration,
    local_backoff: Duration,
    network_backoff: Duration,
)
    requires
        call_ensures(MissingDepRetry::record_local_miss, (local, now, base), ()),
        call_ensures(MissingDepRetry::record_network_miss, (network, now, base), report),
        call_ensures(MissingDepRetry::local_misses, (&*final(local),), local_misses),
        call_ensures(MissingDepRetry::network_misses, (&*final(network),), network_misses),
        local_cap.nanos == 60_000_000_000,
        network_cap.nanos == 3_600_000_000_000,
        call_ensures(backoff_delay, (base, local_misses, local_cap), local_backoff),
        call_ensures(backoff_delay, (base, network_misses, network_cap), network_backoff),
    ensures
        local_misses == if old(local)@.local_misses < u32::MAX {
            old(local)@.local_misses + 1
        } else {
            u32::MAX as nat
        },
        network_misses == if old(network)@.network_misses < u32::MAX {
            old(network)@.network_misses + 1
        } else {
            u32::MAX as nat
        },
        ({
            let wait = final(local)@.next_local_recheck - now.nanos;
            &&& 3 * local_backoff.nanos - 2 <= 4 * wait <= 5 * local_backoff.nanos + 2
            &&& wait <= local_cap.nanos
        }),
        ({
            let wait = final(network)@.next_network_attempt - now.nanos;
            &&& 3 * network_backoff.nanos - 2 <= 4 * wait <= 5 * network_backoff.nanos + 2
            &&& wait <= network_cap.nanos
        }),
        final(local)@.network_misses == old(local)@.network_misses,
        final(local)@.next_network_attempt == old(local)@.next_network_attempt,
        final(local)@.reported_unfetchable == old(local)@.reported_unfetchable,
        final(network)@.local_misses == old(network)@.local_misses,
        final(network)@.next_local_recheck == old(network)@.next_local_recheck,
        report <==> network_misses >= 12 && !old(network)@.reported_unfetchable,
        final(network)@.reported_unfetchable <==> network_misses >= 12
            || old(network)@.reported_unfetchable,
{
    let r = choose|r: int|
        0 <= r < 9_007_199_254_740_992 && final(local)@ == #[trigger] old(local)@.after_local_miss(
            now@,
            base@,
            r,
        );
    crate::retry_laws::law_jitter_stays_within_the_fraction(local_backoff@, r);
    let s = choose|s: int|
        0 <= s < 9_007_199_254_740_992 && final(network)@ == #[trigger] old(
            network,
        )@.after_network_miss(now@, base@, s);
    crate::retry_laws::law_jitter_stays_within_the_fraction(network_backoff@, s);
}

} // verus!
