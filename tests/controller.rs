use ease_off::{Duration, EaseOff, Error, Instant, Options, RetryableError, UNIT_FACTOR};

const SECOND: u64 = 1_000_000_000;

#[derive(Debug, Clone, PartialEq)]
struct Failure {
    code: u32,
    transient: bool,
}

impl RetryableError for Failure {
    fn spec_can_retry(&self) -> bool {
        self.transient
    }

    fn can_retry(&self) -> bool {
        self.transient
    }
}

fn transient(code: u32) -> Failure {
    Failure { code, transient: true }
}

fn fatal(code: u32) -> Failure {
    Failure { code, transient: false }
}

fn doubling() -> Options {
    Options::new()
        .initial_delay(Duration::from_secs(1))
        .multiplier(2 * UNIT_FACTOR)
        .jitter(0)
        .max_delay(Duration::from_secs(60))
}

#[test]
fn sequence_of_three_failures_then_success() {
    let mut clock = Instant::from_nanos(0);
    let mut ease_off: EaseOff<Failure> = doubling().start_unlimited(clock);
    let mut attempts: u32 = 0;
    let mut waits: Vec<u64> = Vec::new();
    let value = loop {
        match ease_off.next_retry_at(clock) {
            Ok(Some(t)) => {
                waits.push(t.as_nanos() - clock.as_nanos());
                clock = t;
            }
            Ok(None) => {}
            Err(_) => panic!("no deadline was set"),
        }
        attempts += 1;
        let outcome: Result<&str, Failure> =
            if attempts <= 3 { Err(transient(attempts)) } else { Ok("done") };
        let wrapped = ease_off.wrap_result(outcome.map_err(Error::MaybeRetryable));
        if let Some(v) = wrapped.or_retry().unwrap() {
            break v;
        }
    };
    assert_eq!(value, "done");
    assert_eq!(attempts, 4);
    assert_eq!(waits, vec![SECOND, 2 * SECOND, 4 * SECOND]);
    assert_eq!(clock, Instant::from_nanos(7 * SECOND));
}

#[test]
fn attempt_count_follows_failures_and_restarts_after_success() {
    let now = Instant::from_nanos(0);
    let mut ease_off: EaseOff<Failure> = doubling().start_unlimited(now);
    assert_eq!(ease_off.num_attempts(), 0);
    ease_off.next_retry_at(now).unwrap();
    let _ = ease_off.wrap_result::<()>(Err(Error::MaybeRetryable(transient(1)))).or_retry();
    ease_off.next_retry_at(now).unwrap();
    assert_eq!(ease_off.num_attempts(), 1);
    let _ = ease_off.wrap_result::<()>(Err(Error::MaybeRetryable(transient(2)))).or_retry();
    ease_off.next_retry_at(now).unwrap();
    assert_eq!(ease_off.num_attempts(), 2);
    assert_eq!(ease_off.wrap_result(Ok(5)).or_retry(), Ok(Some(5)));
    assert!(matches!(ease_off.next_retry_at(now), Ok(None)));
    assert_eq!(ease_off.num_attempts(), 0);
}

#[test]
fn zero_timeout_makes_first_attempt_then_times_out() {
    let start = Instant::from_nanos(1_000);
    let mut ease_off: EaseOff<Failure> = doubling().start_timeout(start, Duration::zero());
    assert_eq!(ease_off.deadline(), Some(start));
    assert!(matches!(ease_off.next_retry_at(start), Ok(None)));
    let classified = ease_off
        .wrap_result::<()>(Err(Error::MaybeRetryable(transient(9))))
        .or_retry();
    assert_eq!(classified, Ok(None));
    match ease_off.next_retry_at(start) {
        Err(Error::TimedOut(t)) => assert_eq!(t.last_error, transient(9)),
        other => panic!("expected a timeout, got {:?}", other),
    }
}

#[test]
fn zero_timeout_with_default_options() {
    let start = Instant::from_nanos(0);
    let mut ease_off: EaseOff<Failure> = EaseOff::start_timeout(start, Duration::zero());
    assert!(matches!(ease_off.next_retry_at(start), Ok(None)));
    let _ = ease_off.wrap_result::<()>(Err(Error::MaybeRetryable(transient(1)))).or_retry();
    let r = ease_off.next_retry_at(Instant::from_nanos(1));
    let wrapped = ease_off.wrap_result::<()>(r.map(|_| ()));
    assert_eq!(wrapped.or_retry(), Err(transient(1)));
}

#[test]
fn timeout_error_is_reported_once() {
    let start = Instant::from_nanos(0);
    let mut ease_off: EaseOff<Failure> = doubling().start_deadline(start, start);
    ease_off.next_retry_at(start).unwrap();
    let _ = ease_off.wrap_result::<()>(Err(Error::MaybeRetryable(transient(3)))).or_retry();
    let first = ease_off.next_retry_at(start);
    assert!(matches!(first, Err(Error::TimedOut(_))));
    // The stored error was moved out: the next request is a fresh first attempt.
    assert!(matches!(ease_off.next_retry_at(start), Ok(None)));
}

#[test]
fn success_clears_a_stale_error() {
    let start = Instant::from_nanos(0);
    let mut ease_off: EaseOff<Failure> = doubling().start_deadline(start, start);
    ease_off.next_retry_at(start).unwrap();
    let _ = ease_off.wrap_result::<()>(Err(Error::MaybeRetryable(transient(1)))).or_retry();
    assert_eq!(ease_off.wrap_result(Ok(1)).or_retry_if(|_| true), Ok(Some(1)));
    // Long past the deadline, yet no earlier error comes back as a timeout.
    assert!(matches!(ease_off.next_retry_at(Instant::from_nanos(100 * SECOND)), Ok(None)));
}

#[test]
fn fatal_and_timed_out_are_never_retried_by_or_retry() {
    let now = Instant::from_nanos(0);
    let mut ease_off: EaseOff<Failure> = doubling().start_unlimited(now);
    let r = ease_off.wrap_result::<()>(Err(Error::Fatal(transient(4)))).or_retry();
    assert_eq!(r, Err(transient(4)));

    let mut timed: EaseOff<Failure> = doubling().start_deadline(now, now);
    timed.next_retry_at(now).unwrap();
    let _ = timed.wrap_result::<()>(Err(Error::MaybeRetryable(transient(5)))).or_retry();
    let t = timed.next_retry_at(now);
    let r = timed.wrap_result::<()>(t.map(|_| ())).or_retry();
    assert_eq!(r, Err(transient(5)));
}

#[test]
fn on_timeout_can_make_a_timeout_retryable() {
    let now = Instant::from_nanos(0);
    let mut ease_off: EaseOff<Failure> = doubling().start_deadline(now, now);
    ease_off.next_retry_at(now).unwrap();
    let _ = ease_off.wrap_result::<()>(Err(Error::MaybeRetryable(transient(6)))).or_retry();
    let t = ease_off.next_retry_at(now);
    let r = ease_off
        .wrap_result::<()>(t.map(|_| ()))
        .on_timeout(|t| Error::MaybeRetryable(t.last_error))
        .or_retry();
    assert_eq!(r, Ok(None));
}

#[test]
fn maybe_retryable_follows_the_error() {
    let now = Instant::from_nanos(0);
    let mut ease_off: EaseOff<Failure> = doubling().start_unlimited(now);
    assert_eq!(ease_off.wrap_result::<()>(Err(Error::MaybeRetryable(transient(1)))).or_retry(), Ok(None));
    assert_eq!(ease_off.wrap_result::<()>(Err(Error::MaybeRetryable(fatal(2)))).or_retry(), Err(fatal(2)));
}

#[test]
fn or_retry_if_follows_the_predicate() {
    let now = Instant::from_nanos(0);
    let mut ease_off: EaseOff<Failure> = doubling().start_unlimited(now);
    let r = ease_off.wrap_result::<()>(Err(Error::Fatal(fatal(1)))).or_retry_if(|_| true);
    assert_eq!(r, Err(fatal(1)));
    let r = ease_off.wrap_result::<()>(Err(Error::MaybeRetryable(transient(2)))).or_retry_if(|_| false);
    assert_eq!(r, Err(transient(2)));
    let r = ease_off
        .wrap_result::<()>(Err(Error::MaybeRetryable(transient(3))))
        .or_retry_if(|e| e.inner().code == 3);
    assert_eq!(r, Ok(None));
}

#[test]
fn fatal_and_timed_out_are_never_retried_whatever_the_predicate() {
    let now = Instant::from_nanos(0);
    let mut ease_off: EaseOff<Failure> = doubling().start_deadline(now, now);
    ease_off.next_retry_at(now).unwrap();
    let r = ease_off.wrap_result::<()>(Err(Error::MaybeRetryable(transient(1)))).or_retry_if(|_| true);
    assert_eq!(r, Ok(None));
    let t = ease_off.next_retry_at(now);
    let mut asked = false;
    let r = ease_off.wrap_result::<()>(t.map(|_| ())).or_retry_if(|_| {
        asked = true;
        true
    });
    assert_eq!(r, Err(transient(1)));
    assert!(!asked);
    let r = ease_off.wrap_result::<()>(Err(Error::Fatal(transient(2)))).or_retry_if(|_| true);
    assert_eq!(r, Err(transient(2)));
    // Nothing was stored: the next request is a first attempt.
    assert!(matches!(ease_off.next_retry_at(now), Ok(None)));
}

#[test]
fn inspect_err_sees_errors_only() {
    let now = Instant::from_nanos(0);
    let mut ease_off: EaseOff<Failure> = doubling().start_unlimited(now);
    let mut seen: Vec<u32> = Vec::new();
    let r = ease_off
        .wrap_result::<u8>(Err(Error::Fatal(fatal(8))))
        .inspect_err(|e| seen.push(e.inner().code))
        .or_retry();
    assert_eq!(r, Err(fatal(8)));
    let r = ease_off.wrap_result(Ok(2u8)).inspect_err(|e| seen.push(e.inner().code)).or_retry();
    assert_eq!(r, Ok(Some(2)));
    assert_eq!(seen, vec![8]);
}

#[test]
fn deadline_elapsed_reports_a_timeout_with_the_made_error() {
    let now = Instant::from_nanos(0);
    let mut ease_off: EaseOff<Failure> = doubling().start_timeout(now, Duration::from_secs(5));
    ease_off.next_retry_at(now).unwrap();
    let _ = ease_off.wrap_result::<()>(Err(Error::MaybeRetryable(transient(1)))).or_retry();
    let r = ease_off
        .deadline_elapsed::<()>(|previous| Failure { code: previous.unwrap().code + 100, transient: false })
        .on_timeout(|t| Error::MaybeRetryable(t.last_error))
        .or_retry_if(|_| true);
    assert_eq!(r, Ok(None));
    let r = ease_off.deadline_elapsed::<()>(|_| fatal(7)).or_retry_if(|_| false);
    assert_eq!(r, Err(fatal(7)));
    let mut fresh: EaseOff<Failure> = doubling().start_unlimited(now);
    let r = fresh.deadline_elapsed::<()>(|previous| {
        assert!(previous.is_none());
        fatal(0)
    });
    assert!(matches!(r.result, Err(Error::TimedOut(_))));
}

#[test]
fn error_helpers() {
    let e: Error<u32> = Error::Fatal(3);
    assert_eq!(*e.inner(), 3);
    let mapped = e.map(|x| x * 2);
    assert!(matches!(mapped, Error::Fatal(6)));
    let kept = Error::MaybeRetryable(1u32).on_timeout(|_| Error::Fatal(0));
    assert!(matches!(kept, Error::MaybeRetryable(1)));
    assert_eq!(Error::MaybeRetryable(4u32).into_inner(), 4);
    assert!(Error::MaybeRetryable(transient(1)).can_retry());
    assert!(!Error::MaybeRetryable(fatal(1)).can_retry());
    assert!(!Error::Fatal(transient(1)).can_retry());
}

#[test]
fn timed_out_error_helpers() {
    let now = Instant::from_nanos(0);
    let mut ease_off: EaseOff<u32> = Options::new().start_deadline(now, now);
    ease_off.next_retry_at(now).unwrap();
    let _ = ease_off.wrap_result::<()>(Err(Error::MaybeRetryable(11))).or_retry_if(|_| true);
    let e = ease_off.next_retry_at(now).unwrap_err();
    assert_eq!(*e.inner(), 11);
    let mapped = e.map(|x| x + 1);
    assert!(matches!(&mapped, Error::TimedOut(t) if t.last_error == 12));
    let retagged = mapped.on_timeout(|t| Error::MaybeRetryable(t.last_error));
    assert!(matches!(retagged, Error::MaybeRetryable(12)));
}

#[test]
fn start_variants_set_the_deadline() {
    let now = Instant::from_nanos(50);
    let o = Options::new();
    assert_eq!(o.start_unlimited::<u8>(now).deadline(), None);
    assert_eq!(o.start_unlimited::<u8>(now).started_at(), now);
    assert_eq!(o.start_timeout::<u8>(now, Duration::from_nanos(10)).deadline(), Some(Instant::from_nanos(60)));
    assert_eq!(o.start_timeout::<u8>(now, Duration::max_value()).deadline(), None);
    assert_eq!(o.start_timeout_opt::<u8>(now, None).deadline(), None);
    assert_eq!(o.start_timeout_opt::<u8>(now, Some(Duration::from_nanos(1))).deadline(), Some(Instant::from_nanos(51)));
    assert_eq!(o.start_deadline::<u8>(now, Instant::from_nanos(3)).deadline(), Some(Instant::from_nanos(3)));
    assert_eq!(o.start_deadline_opt::<u8>(now, None).deadline(), None);
    assert_eq!(EaseOff::<u8>::start_unlimited(now).deadline(), None);
    assert_eq!(EaseOff::<u8>::start_timeout_opt(now, Some(Duration::zero())).deadline(), Some(now));
    assert_eq!(EaseOff::<u8>::start_deadline(now, now).deadline(), Some(now));
    assert_eq!(EaseOff::<u8>::start_deadline_opt(now, Some(now)).started_at(), now);
}

#[test]
fn random_jitter_stays_within_the_delay() {
    let now = Instant::from_nanos(SECOND);
    let o = doubling().jitter(UNIT_FACTOR);
    let mut seen_early = false;
    for _ in 0..200 {
        let mut ease_off: EaseOff<u8> = o.start_unlimited(now);
        ease_off.next_retry_at(now).unwrap();
        let _ = ease_off.wrap_result::<()>(Err(Error::MaybeRetryable(1))).or_retry_if(|_| true);
        let t = ease_off.next_retry_at(now).unwrap().unwrap();
        assert!(t.as_nanos() >= SECOND && t.as_nanos() <= 2 * SECOND);
        if t.as_nanos() < 2 * SECOND {
            seen_early = true;
        }
    }
    assert!(seen_early);
}

#[test]
fn drawn_jitter_is_applied_to_retries() {
    let now = Instant::from_nanos(0);
    let mut ease_off: EaseOff<u8> = doubling().jitter(UNIT_FACTOR / 2).start_unlimited(now);
    assert!(matches!(ease_off.next_retry_at_with(now, 999_999), Ok(None)));
    let _ = ease_off.wrap_result::<()>(Err(Error::MaybeRetryable(1))).or_retry_if(|_| true);
    // fraction 0.5, draw 0.5: a quarter of the 1 s delay comes off.
    assert_eq!(ease_off.next_retry_at_with(now, 500_000).unwrap(), Some(Instant::from_nanos(750_000_000)));
}
