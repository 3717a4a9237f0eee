use holochain::missing_dep_backoff::{
    apply_jitter, backoff_delay, default_retry_base, jitter_from_word, max_local_recheck_delay,
    max_network_retry_delay, random_jitter, MissingDepRetry, JITTER_ONE,
    UNFETCHABLE_ATTEMPT_BUDGET,
};
use holochain::time::{Duration, Instant};

const BASE: Duration = Duration { nanos: 10_000_000_000 };

/// Some point on the clock.
fn a_moment() -> Instant {
    Instant { nanos: 1_234_567_890_123 }
}

/// The jitter sample for a fraction.
fn sample(r: f64) -> i64 {
    (r * JITTER_ONE as f64) as i64
}

#[test]
fn backoff_doubles_from_the_base_delay() {
    assert_eq!(backoff_delay(BASE, 0, max_network_retry_delay()), Duration::zero());
    assert_eq!(backoff_delay(BASE, 1, max_network_retry_delay()), BASE);
    assert_eq!(
        backoff_delay(BASE, 2, max_network_retry_delay()),
        Duration::from_secs(20)
    );
    assert_eq!(
        backoff_delay(BASE, 3, max_network_retry_delay()),
        Duration::from_secs(40)
    );
    assert_eq!(
        backoff_delay(BASE, 4, max_network_retry_delay()),
        Duration::from_secs(80)
    );
}

#[test]
fn backoff_saturates_at_the_cap_and_never_overflows() {
    assert_eq!(
        backoff_delay(BASE, 20, max_network_retry_delay()),
        max_network_retry_delay()
    );
    // A very large miss count must not panic or wrap around to a short delay.
    assert_eq!(
        backoff_delay(BASE, u32::MAX, max_network_retry_delay()),
        max_network_retry_delay()
    );
    assert_eq!(
        backoff_delay(BASE, u32::MAX, max_local_recheck_delay()),
        max_local_recheck_delay()
    );
}

#[test]
fn backoff_doubles_until_it_reaches_the_cap() {
    let nanosecond = Duration { nanos: 1 };
    let cap = Duration::from_secs(3600);
    assert_eq!(backoff_delay(nanosecond, 31, cap), Duration { nanos: 1 << 30 });
    assert_eq!(backoff_delay(nanosecond, 32, cap), Duration { nanos: 1 << 31 });
    assert_eq!(
        backoff_delay(nanosecond, 33, cap),
        Duration { nanos: 4_294_967_296 }
    );
    assert_eq!(backoff_delay(nanosecond, 42, cap), Duration { nanos: 1 << 41 });
    for attempts in [43, 100, 127, 128, 129, 130, 1_000_000, u32::MAX] {
        assert_eq!(backoff_delay(nanosecond, attempts, cap), cap);
        assert_eq!(backoff_delay(Duration::zero(), attempts, cap), Duration::zero());
    }
    let longest = Duration { nanos: u128::MAX };
    assert_eq!(backoff_delay(nanosecond, 128, longest), Duration { nanos: 1 << 127 });
    assert_eq!(backoff_delay(nanosecond, 129, longest), longest);
}

#[test]
fn backoff_of_an_enormous_base_is_the_cap() {
    let enormous = Duration { nanos: u128::MAX };
    assert_eq!(backoff_delay(enormous, 1, BASE), BASE);
    assert_eq!(backoff_delay(enormous, 2, BASE), BASE);
    assert_eq!(enormous.checked_mul(2), None);
    assert_eq!(BASE.checked_mul(3), Some(Duration::from_secs(30)));
}

#[test]
fn the_budget_is_reached_after_about_three_hours() {
    let mut waited: u128 = 0;
    for attempt in 1..UNFETCHABLE_ATTEMPT_BUDGET {
        waited += backoff_delay(default_retry_base(), attempt, max_network_retry_delay()).nanos;
    }
    assert_eq!(Duration { nanos: waited }, Duration::from_secs(12_310));
}

#[test]
fn jitter_stays_within_the_declared_fraction() {
    let d = Duration::from_secs(100);
    assert_eq!(apply_jitter(d, sample(0.5)), d);
    assert_eq!(apply_jitter(d, sample(0.0)), Duration::from_secs(75));
    assert_eq!(apply_jitter(d, sample(1.0)), Duration::from_secs(125));
    // Out of range input is clamped rather than producing a wild delay.
    assert_eq!(apply_jitter(d, sample(5.0)), Duration::from_secs(125));
    assert_eq!(apply_jitter(d, sample(-5.0)), Duration::from_secs(75));
}

#[test]
fn jitter_agrees_with_floating_point() {
    for secs in [1u64, 7, 10, 60, 320, 3600] {
        for r in [0.0, 0.1, 0.25, 0.3, 0.5, 0.75, 0.9, 0.999] {
            let factor = 1.0 + 0.25 * (2.0 * r - 1.0);
            let expected = std::time::Duration::from_secs(secs).mul_f64(factor).as_nanos();
            let actual = apply_jitter(Duration::from_secs(secs), sample(r)).nanos;
            assert!(actual.abs_diff(expected) <= 1, "{secs} s with {r}");
        }
    }
}

#[test]
fn jitter_of_long_and_short_delays() {
    // Halfway between two nanoseconds is rounded up.
    assert_eq!(apply_jitter(Duration { nanos: 2 }, 0), Duration { nanos: 2 });
    assert_eq!(apply_jitter(Duration { nanos: 1 }, 0), Duration { nanos: 1 });
    assert_eq!(apply_jitter(Duration::zero(), JITTER_ONE), Duration::zero());
    let long = Duration { nanos: 1 << 120 };
    assert_eq!(apply_jitter(long, JITTER_ONE / 2), long);
    assert_eq!(apply_jitter(long, 0), Duration { nanos: 3 << 118 });
    assert_eq!(apply_jitter(long, JITTER_ONE), Duration { nanos: 5 << 118 });
}

#[test]
fn random_samples_are_in_range_and_vary() {
    let first = random_jitter();
    let mut varied = false;
    for _ in 0..100 {
        let r = random_jitter();
        assert!(0 <= r && r < JITTER_ONE);
        varied = varied || r != first;
    }
    assert!(varied);
    assert_eq!(jitter_from_word(0), 0);
    assert_eq!(jitter_from_word(2048), 1);
    assert_eq!(jitter_from_word(u64::MAX), JITTER_ONE - 1);
    assert_eq!(jitter_from_word(1 << 63), JITTER_ONE / 2);
}

#[test]
fn a_new_missing_dependency_is_due_immediately() {
    let now = a_moment();
    let retry = MissingDepRetry::new(now);

    // A dependency that is merely late must be looked for on the very first pass, locally and on
    // the network.
    assert!(retry.due_for_local_recheck(now));
    assert!(retry.due_for_network_fetch(now));
    assert!(!retry.is_unfetchable());
    assert_eq!(retry.local_misses(), 0);
    assert_eq!(retry.network_misses(), 0);
}

#[test]
fn the_two_schedules_advance_independently() {
    let now = a_moment();
    let mut retry = MissingDepRetry::new(now);

    retry.record_local_miss_with_jitter(now, BASE, sample(0.5));

    // A local miss must not defer the network fetch: on the first pass the local search fails and
    // the network is asked immediately afterwards.
    assert!(!retry.due_for_local_recheck(now));
    assert!(retry.due_for_network_fetch(now));

    retry.record_network_miss_with_jitter(now, BASE, sample(0.5));
    assert!(!retry.due_for_network_fetch(now));
    assert!(retry.due_for_network_fetch(now.after(BASE)));
}

#[test]
fn local_rechecks_cap_out_while_network_fetches_keep_climbing() {
    let now = a_moment();
    let mut retry = MissingDepRetry::new(now);

    for _ in 0..6 {
        retry.record_local_miss_with_jitter(now, BASE, sample(0.5));
        retry.record_network_miss_with_jitter(now, BASE, sample(0.5));
    }

    // Six misses -> raw delay 320s. The local schedule is capped to 60s, so a dependency that
    // arrives by gossip is still noticed within a minute, while the futile network fetch has backed
    // off to 320s.
    assert!(retry.due_for_local_recheck(now.after(max_local_recheck_delay())));
    assert!(!retry.due_for_network_fetch(now.after(max_local_recheck_delay())));
    assert!(retry.due_for_network_fetch(now.after(Duration::from_secs(320))));
    assert_eq!(retry.local_misses(), 6);
    assert_eq!(retry.network_misses(), 6);
}

#[test]
fn the_unfetchable_transition_is_reported_exactly_once() {
    let now = a_moment();
    let mut retry = MissingDepRetry::new(now);

    let mut transitions = 0;
    for _ in 0..(UNFETCHABLE_ATTEMPT_BUDGET + 5) {
        if retry.record_network_miss_with_jitter(now, BASE, sample(0.5)) {
            transitions += 1;
        }
    }

    assert_eq!(transitions, 1);
    assert!(retry.is_unfetchable());
}

#[test]
fn a_dependency_below_the_budget_is_not_unfetchable() {
    let now = a_moment();
    let mut retry = MissingDepRetry::new(now);

    for _ in 0..(UNFETCHABLE_ATTEMPT_BUDGET - 1) {
        assert!(!retry.record_network_miss_with_jitter(now, BASE, sample(0.5)));
        assert!(!retry.is_unfetchable());
    }

    // The budget-th failure is the transition.
    assert!(retry.record_network_miss_with_jitter(now, BASE, sample(0.5)));
    assert!(retry.is_unfetchable());
}

#[test]
fn local_misses_alone_never_declare_a_dependency_unfetchable() {
    let now = a_moment();
    let mut retry = MissingDepRetry::new(now);

    // Only the network can say "nobody has this". A dependency that has merely not been found in
    // the local databases must never be reported as unfetchable.
    for _ in 0..(UNFETCHABLE_ATTEMPT_BUDGET * 3) {
        retry.record_local_miss_with_jitter(now, BASE, sample(0.5));
    }

    assert!(!retry.is_unfetchable());
}

#[test]
fn an_unfetchable_dependency_is_still_swept_at_the_capped_intervals() {
    let now = a_moment();
    let mut retry = MissingDepRetry::new(now);

    for _ in 0..(UNFETCHABLE_ATTEMPT_BUDGET + 3) {
        retry.record_local_miss_with_jitter(now, BASE, sample(0.5));
        retry.record_network_miss_with_jitter(now, BASE, sample(0.5));
    }

    assert!(retry.is_unfetchable());
    // Never dropped, never abandoned: it comes due again at the caps.
    assert!(retry.due_for_local_recheck(now.after(max_local_recheck_delay())));
    assert!(retry.due_for_network_fetch(now.after(max_network_retry_delay())));
}

#[test]
fn random_jitter_stays_within_the_caps() {
    let now = a_moment();
    let mut retry = MissingDepRetry::new(now);
    let mut reports = 0;
    for _ in 0..40 {
        retry.record_local_miss(now, BASE);
        if retry.record_network_miss(now, BASE) {
            reports += 1;
        }
        assert!(!retry.due_for_local_recheck(now));
        assert!(!retry.due_for_network_fetch(now));
        assert!(retry.due_for_local_recheck(now.after(max_local_recheck_delay())));
        assert!(retry.due_for_network_fetch(now.after(max_network_retry_delay())));
    }
    assert_eq!(reports, 1);
    // At the caps, jitter takes off a quarter at most.
    assert!(!retry.due_for_local_recheck(now.after(Duration::from_secs(44))));
    assert!(!retry.due_for_network_fetch(now.after(Duration::from_secs(2699))));
}

#[test]
fn jitter_never_takes_a_delay_over_its_cap() {
    let now = a_moment();
    let mut retry = MissingDepRetry::new(now);
    for _ in 0..4 {
        retry.record_local_miss_with_jitter(now, BASE, sample(0.75));
    }
    for _ in 0..10 {
        retry.record_network_miss_with_jitter(now, BASE, sample(0.75));
    }
    let just_before = |d: Duration| Instant { nanos: now.after(d).nanos - 1 };
    assert!(!retry.due_for_local_recheck(just_before(max_local_recheck_delay())));
    assert!(retry.due_for_local_recheck(now.after(max_local_recheck_delay())));
    assert!(!retry.due_for_network_fetch(just_before(max_network_retry_delay())));
    assert!(retry.due_for_network_fetch(now.after(max_network_retry_delay())));

    // Below the cap, jitter lengthens a delay, up to the cap.
    let mut retry = MissingDepRetry::new(now);
    for _ in 0..3 {
        retry.record_local_miss_with_jitter(now, BASE, sample(0.75));
    }
    assert!(!retry.due_for_local_recheck(just_before(Duration::from_secs(45))));
    assert!(retry.due_for_local_recheck(now.after(Duration::from_secs(45))));
    // The other way round it still shortens the cap.
    for _ in 0..3 {
        retry.record_local_miss_with_jitter(now, BASE, sample(0.25));
    }
    assert!(!retry.due_for_local_recheck(just_before(Duration::from_millis(52_500))));
    assert!(retry.due_for_local_recheck(now.after(Duration::from_millis(52_500))));
}

#[test]
fn a_zero_base_is_due_again_at_once() {
    let now = a_moment();
    let mut retry = MissingDepRetry::new(now);
    retry.record_local_miss(now, Duration::zero());
    assert!(retry.due_for_local_recheck(now));
}

#[test]
fn more_failures_never_mean_a_shorter_delay() {
    let mut last = Duration::zero();
    for attempts in 0..100 {
        let delay = backoff_delay(BASE, attempts, max_network_retry_delay());
        assert!(last.nanos <= delay.nanos);
        assert!(delay.nanos <= max_network_retry_delay().nanos);
        last = delay;
    }
    assert_eq!(last, max_network_retry_delay());
    // A base that is longer than the cap is cut off from the first failure on.
    assert_eq!(backoff_delay(BASE, 1, Duration::from_secs(3)), Duration::from_secs(3));
}

#[test]
fn what_is_due_stays_due() {
    let now = a_moment();
    let mut retry = MissingDepRetry::new(now);
    retry.record_local_miss_with_jitter(now, BASE, sample(0.0));
    let due = now.after(Duration::from_millis(7_500));
    let just_before = Instant { nanos: due.nanos - 1 };
    assert!(!retry.due_for_local_recheck(just_before));
    assert!(retry.due_for_local_recheck(due));
    assert!(retry.due_for_local_recheck(due.after(Duration::from_secs(1_000_000))));
}
