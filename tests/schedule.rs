use ease_off::{Duration, EaseOffCore, Instant, Options, RetryAfterDeadline, UNIT_FACTOR};

const SECOND: u64 = 1_000_000_000;

fn doubling(jitter: u32) -> EaseOffCore {
    Options::new()
        .initial_delay(Duration::from_secs(1))
        .multiplier(2 * UNIT_FACTOR)
        .jitter(jitter)
        .max_delay(Duration::from_secs(60))
        .into_core()
}

fn at(nanos: u64) -> Instant {
    Instant::from_nanos(nanos)
}

#[test]
fn first_attempt_without_initial_jitter_is_immediate() {
    let core = doubling(250_000);
    for now in [0, 7, u64::MAX] {
        for deadline in [None, Some(at(0)), Some(at(5)), Some(at(u64::MAX))] {
            for draw in [0, 123_456, UNIT_FACTOR - 1] {
                assert_eq!(core.nth_retry_at(0, at(now), deadline, draw), Ok(None));
            }
        }
    }
}

#[test]
fn first_attempt_with_initial_jitter_waits() {
    let core = Options::new()
        .initial_delay(Duration::from_secs(1))
        .initial_jitter(500_000)
        .into_core();
    // factor 0.5 * 0.5 = 0.25: a quarter of a second comes off.
    let r = core.nth_retry_at(0, at(10), None, 500_000);
    assert_eq!(r, Ok(Some(at(10 + 750_000_000))));
}

#[test]
fn retries_double_without_jitter() {
    let core = doubling(0);
    let expected = [1, 2, 4, 8, 16, 32, 60, 60, 60];
    for (i, secs) in expected.iter().enumerate() {
        let n = (i + 1) as u32;
        assert_eq!(core.nth_retry_at(n, at(100), None, 999_999), Ok(Some(at(100 + secs * SECOND))));
    }
}

#[test]
fn retry_delay_is_capped_for_very_large_attempt_numbers() {
    let core = doubling(0);
    assert_eq!(core.nth_retry_at(u32::MAX, at(0), None, 0), Ok(Some(at(60 * SECOND))));
}

#[test]
fn jitter_stays_within_its_fraction() {
    let core = doubling(250_000);
    // n = 3: nominal delay 4 s; jitter at most a quarter of it.
    for draw in [0, 1, 400_000, 999_999] {
        let t = core.nth_retry_at(3, at(0), None, draw).unwrap().unwrap();
        assert!(t.as_nanos() <= 4 * SECOND);
        assert!(t.as_nanos() >= 3 * SECOND);
    }
    // draw 0.999999 with fraction 0.25: factor 0.249999, so 0.999996 s comes off.
    assert_eq!(core.nth_retry_at(3, at(0), None, 999_999), Ok(Some(at(3_000_004_000))));
    assert_eq!(core.nth_retry_at(3, at(0), None, 0), Ok(Some(at(4 * SECOND))));
}

#[test]
fn jitter_of_one_or_more_uses_the_whole_draw() {
    let core = doubling(3 * UNIT_FACTOR);
    // n = 1: delay 1 s, draw 0.3: 0.3 s comes off.
    assert_eq!(core.nth_retry_at(1, at(0), None, 300_000), Ok(Some(at(700_000_000))));
    // The largest draw leaves almost nothing, but never less than `now`.
    let t = core.nth_retry_at(1, at(5), None, UNIT_FACTOR - 1).unwrap().unwrap();
    assert_eq!(t, at(5 + 1_000));
}

#[test]
fn multiplier_below_one_shrinks_the_delay() {
    let core = Options::new()
        .initial_delay(Duration::from_secs(1))
        .multiplier(UNIT_FACTOR / 2)
        .jitter(0)
        .into_core();
    assert_eq!(core.nth_retry_at(3, at(0), None, 0), Ok(Some(at(250_000_000))));
}

#[test]
fn multiplier_of_one_keeps_the_delay() {
    let core = Options::new()
        .initial_delay(Duration::from_millis(300))
        .multiplier(UNIT_FACTOR)
        .jitter(0)
        .into_core();
    assert_eq!(core.nth_retry_at(1_000_000, at(0), None, 0), Ok(Some(at(300_000_000))));
}

#[test]
fn growth_saturates_at_the_largest_duration() {
    let core = Options::new()
        .initial_delay(Duration::max_value())
        .multiplier(4 * UNIT_FACTOR)
        .jitter(0)
        .max_delay(Duration::max_value())
        .into_core();
    assert_eq!(core.nth_retry_at(5, at(10), None, 0), Ok(Some(at(u64::MAX))));
}

#[test]
fn retry_after_deadline_is_rejected_not_clamped() {
    let core = doubling(0);
    let deadline = at(500_000_000);
    let r = core.nth_retry_at(1, at(0), Some(deadline), 0);
    assert_eq!(r, Err(RetryAfterDeadline { n: 1, retry_at: at(SECOND), deadline }));
    let e = r.unwrap_err();
    assert_eq!(e.overshoot(), Duration::from_millis(500));
}

#[test]
fn retry_exactly_at_deadline_is_accepted() {
    let core = doubling(0);
    let r = core.nth_retry_at(2, at(SECOND), Some(at(3 * SECOND)), 0);
    assert_eq!(r, Ok(Some(at(3 * SECOND))));
}

#[test]
fn deadline_judges_the_jittered_instant() {
    let core = doubling(UNIT_FACTOR);
    // Nominal instant 1 s is past the 0.6 s deadline, but a draw of 0.5 brings
    // the attempt to 0.5 s.
    assert_eq!(core.nth_retry_at(1, at(0), Some(at(600_000_000)), 500_000), Ok(Some(at(500_000_000))));
    assert!(core.nth_retry_at(1, at(0), Some(at(600_000_000)), 100_000).is_err());
}

#[test]
fn core_keeps_its_options() {
    let o = Options::new().jitter(1);
    assert_eq!(EaseOffCore::new(o).options(), o);
    assert_eq!(o.into_core().options().get_jitter(), 1);
}

#[test]
fn random_schedule_draws_within_the_delay() {
    let exact = doubling(0);
    assert_eq!(exact.nth_retry_at_random(2, at(5), None), Ok(Some(at(5 + 2 * SECOND))));
    assert_eq!(exact.nth_retry_at_random(0, at(5), Some(at(0))), Ok(None));
    let full = doubling(UNIT_FACTOR);
    let mut seen_early = false;
    for _ in 0..200 {
        let t = full.nth_retry_at_random(1, at(0), None).unwrap().unwrap();
        assert!(t.as_nanos() <= SECOND);
        if t.as_nanos() < SECOND {
            seen_early = true;
        }
    }
    assert!(seen_early);
    assert!(full.nth_retry_at_random(1, at(2 * SECOND), Some(at(SECOND))).is_err());
}
