//! An exponential backoff controller: it decides when a failed operation is
//! tried again, with randomized jitter, an optional deadline, and a deliberate
//! retry-or-fail decision for every error.
//!
//! The caller owns the loop. Each pass asks the controller when the next attempt
//! is due, waits until then, runs the operation, and classifies what came back.
use vstd::prelude::*;

pub mod schedule;
mod options;
pub mod time;

pub use options::{default_options, Options, OptionsView};
pub use schedule::{EaseOffCore, RetryAfterDeadline};
pub use time::{Duration, Instant, UNIT_FACTOR};

use schedule::{random_draw, jitter_amount, lemma_retry_within_jitter, nominal_delay, past_deadline, retry_instant, waits};

verus! {

/// `n + 1`, saturating at `u32::MAX`.
pub open spec fn saturating_next(n: nat) -> nat {
    if n < u32::MAX { n + 1 } else { u32::MAX as nat }
}

/// Exponential backoff controller for one retry sequence.
///
/// It counts the attempts, remembers the last retryable error, and holds the
/// deadline, if any. The first attempt is always made; the deadline only stops
/// retries.
pub struct EaseOff<E> {
    core: EaseOffCore,
    started_at: Instant,
    deadline: Option<Instant>,
    num_attempts: u32,
    last_error: Option<E>,
}

impl<E> EaseOff<E> {
    /// The options of the schedule.
    pub closed spec fn spec_options(&self) -> OptionsView {
        self.core@
    }

    pub closed spec fn spec_started_at(&self) -> Instant {
        self.started_at
    }

    pub closed spec fn spec_deadline(&self) -> Option<Instant> {
        self.deadline
    }

    pub closed spec fn spec_num_attempts(&self) -> nat {
        self.num_attempts as nat
    }

    /// The error of the last failed attempt, kept for a later timeout report.
    pub closed spec fn spec_last_error(&self) -> Option<E> {
        self.last_error
    }

    /// A controller with the given schedule, start and deadline, before any attempt.
    pub open spec fn is_fresh(&self, o: OptionsView, started_at: Instant, deadline: Option<Instant>) -> bool {
        &&& self.spec_options() == o
        &&& self.spec_started_at() == started_at
        &&& self.spec_deadline() == deadline
        &&& self.spec_num_attempts() == 0
        &&& self.spec_last_error() is None
    }

    /// `next` is this controller after asking when the next attempt is due, at the
    /// clock reading `now` and with the random draw `draw`, and `r` is the answer.
    ///
    /// Before a first attempt (no stored error) the count restarts at zero and the
    /// deadline is not consulted. After a failure the count goes up by one
    /// (saturating) and the retry is scheduled for that count; where it would fall
    /// after the deadline the stored error is moved out into a timeout.
    pub open spec fn next_retry_step(
        self,
        next: Self,
        now: Instant,
        draw: nat,
        r: Result<Option<Instant>, Error<E>>,
    ) -> bool {
        let o = self.spec_options();
        &&& next.spec_options() == o
        &&& next.spec_started_at() == self.spec_started_at()
        &&& next.spec_deadline() == self.spec_deadline()
        &&& if self.spec_last_error() is None {
            &&& next.spec_num_attempts() == 0
            &&& next.spec_last_error() is None
            &&& !waits(o, 0) ==> r == Ok::<Option<Instant>, Error<E>>(None)
            &&& waits(o, 0) ==> (r matches Ok(Some(t)) && t@ == retry_instant(o, 0, now@, draw))
        } else {
            let n = saturating_next(self.spec_num_attempts());
            let t = retry_instant(o, n, now@, draw);
            &&& next.spec_num_attempts() == n
            &&& if past_deadline(t, self.spec_deadline()) {
                &&& r == Err::<Option<Instant>, Error<E>>(
                    Error::TimedOut(TimeoutError { last_error: self.spec_last_error()->0 }),
                )
                &&& next.spec_last_error() is None
            } else {
                &&& (r matches Ok(Some(i)) && i@ == t)
                &&& next.spec_last_error() == self.spec_last_error()
            }
        }
    }

    pub(crate) fn fresh(core: EaseOffCore, started_at: Instant, deadline: Option<Instant>) -> (r: Self)
        ensures
            r.is_fresh(core@, started_at, deadline),
    {
        EaseOff { core, started_at, deadline, num_attempts: 0, last_error: None }
    }

    /// Backoff with the default options and no deadline.
    pub fn start_unlimited(now: Instant) -> (r: Self)
        ensures
            r.is_fresh(default_options(), now, None),
    {
        Options::new().start_unlimited(now)
    }

    /// Backoff with the default options, retrying until `timeout` after `now`.
    pub fn start_timeout(now: Instant, timeout: Duration) -> (r: Self)
        ensures
            r.is_fresh(default_options(), now, Instant::spec_checked_add(now, timeout)),
    {
        Options::new().start_timeout(now, timeout)
    }

    /// Backoff with the default options, retrying until `timeout` after `now`
    /// where there is one.
    pub fn start_timeout_opt(now: Instant, timeout: Option<Duration>) -> (r: Self)
        ensures
            r.is_fresh(
                default_options(),
                now,
                match timeout {
                    Some(t) => Instant::spec_checked_add(now, t),
                    None => None,
                },
            ),
    {
        Options::new().start_timeout_opt(now, timeout)
    }

    /// Backoff with the default options, retrying until `deadline`.
    pub fn start_deadline(now: Instant, deadline: Instant) -> (r: Self)
        ensures
            r.is_fresh(default_options(), now, Some(deadline)),
    {
        Options::new().start_deadline(now, deadline)
    }

    /// Backoff with the default options, retrying until `deadline` where there is one.
    pub fn start_deadline_opt(now: Instant, deadline: Option<Instant>) -> (r: Self)
        ensures
            r.is_fresh(default_options(), now, deadline),
    {
        Options::new().start_deadline_opt(now, deadline)
    }

    /// When this controller was started.
    pub fn started_at(&self) -> (r: Instant)
        ensures
            r == self.spec_started_at(),
    {
        self.started_at
    }

    /// The deadline, if any. A timeout is turned into a deadline when the
    /// controller starts, by adding it to [`Self::started_at`].
    pub fn deadline(&self) -> (r: Option<Instant>)
        ensures
            r == self.spec_deadline(),
    {
        self.deadline
    }

    /// The number of the retry most recently scheduled: it goes up by one each time
    /// a retry is scheduled after a failure, and starts again from zero with the
    /// first attempt after a success. Saturates at `u32::MAX`.
    pub fn num_attempts(&self) -> (r: u32)
        ensures
            r as nat == self.spec_num_attempts(),
    {
        self.num_attempts
    }

    /// When the next attempt is due, at the clock reading `now` and with the
    /// random draw `draw` (uniform in `[0, UNIT_FACTOR)`).
    ///
    /// `Ok(None)`: attempt at once. `Ok(Some(t))`: wait until `t`, then attempt.
    /// `Err`: the retry would fall after the deadline; the error holds the last
    /// failure.
    pub fn next_retry_at_with(&mut self, now: Instant, draw: u32) -> (r: Result<
        Option<Instant>,
        Error<E>,
    >)
        requires
            draw < UNIT_FACTOR,
        ensures
            old(self).next_retry_step(*final(self), now, draw as nat, r),
    {
        match self.last_error.take() {
            None => {
                self.num_attempts = 0;
                let first = self.core.nth_retry_at(0, now, None, draw);
                Ok(first.unwrap())
            }
            Some(e) => {
                self.num_attempts = self.num_attempts.saturating_add(1);
                match self.core.nth_retry_at(self.num_attempts, now, self.deadline, draw) {
                    Ok(at) => {
                        self.last_error = Some(e);
                        Ok(at)
                    }
                    // The stored error is moved out: it is reported once.
                    Err(_) => Err(Error::TimedOut(TimeoutError { last_error: e })),
                }
            }
        }
    }

    /// When the next attempt is due, at the clock reading `now`, with a fresh
    /// random draw. See [`Self::next_retry_at_with`].
    pub fn next_retry_at(&mut self, now: Instant) -> (r: Result<Option<Instant>, Error<E>>)
        ensures
            exists|draw: nat|
                draw < UNIT_FACTOR && #[trigger] old(self).next_retry_step(*final(self), now, draw, r),
    {
        let draw = random_draw(UNIT_FACTOR);
        self.next_retry_at_with(now, draw)
    }

    /// Wrap the outcome of an attempt for classification.
    pub fn wrap_result<T>(&mut self, result: Result<T, Error<E>>) -> (r: ResultWrapper<'_, T, E>)
        ensures
            r.result == result,
            *r.last_error == old(self).spec_last_error(),
            final(self).spec_options() == old(self).spec_options(),
            final(self).spec_started_at() == old(self).spec_started_at(),
            final(self).spec_deadline() == old(self).spec_deadline(),
            final(self).spec_num_attempts() == old(self).spec_num_attempts(),
            final(self).spec_last_error() == *final(r.last_error),
    {
        ResultWrapper { result, last_error: &mut self.last_error }
    }
}

/// With no stored error (a first attempt, or the first after a success) the next
/// attempt is always granted, whatever the deadline, and the count starts again
/// from zero: no earlier failure comes back as a timeout.
pub proof fn lemma_first_attempt_always_made<E>(
    c: EaseOff<E>,
    next: EaseOff<E>,
    now: Instant,
    draw: nat,
    r: Result<Option<Instant>, Error<E>>,
)
    requires
        c.spec_last_error() is None,
        c.next_retry_step(next, now, draw, r),
    ensures
        r is Ok,
        next.spec_num_attempts() == 0,
        next.spec_last_error() is None,
{
}

/// A controller started with a zero timeout makes its first attempt whatever the
/// clock says; where that attempt fails and the failure is stored as retryable,
/// the next request reports a timeout that holds the failure, and the stored error
/// is gone.
///
/// The one exception: the retry would be due at the very instant the controller
/// started, which needs the clock unchanged and jitter taking off the whole delay
/// (or the start being the latest instant).
pub proof fn lemma_zero_timeout<E>(
    o: OptionsView,
    start: Instant,
    timeout: Duration,
    c0: EaseOff<E>,
    now1: Instant,
    draw1: nat,
    c1: EaseOff<E>,
    r1: Result<Option<Instant>, Error<E>>,
    failure: E,
    c2: EaseOff<E>,
    now2: Instant,
    draw2: nat,
    c3: EaseOff<E>,
    r2: Result<Option<Instant>, Error<E>>,
)
    requires
        o.fits(),
        timeout@ == 0,
        c0.is_fresh(o, start, Instant::spec_checked_add(start, timeout)),
        c0.next_retry_step(c1, now1, draw1, r1),
        c2.spec_options() == c1.spec_options(),
        c2.spec_started_at() == c1.spec_started_at(),
        c2.spec_deadline() == c1.spec_deadline(),
        c2.spec_num_attempts() == c1.spec_num_attempts(),
        c2.spec_last_error() == Some(failure),
        now2@ >= start@,
        draw2 < UNIT_FACTOR,
        now2@ > start@ || (start@ < u64::MAX && jitter_amount(nominal_delay(o, 1), o.jitter, draw2)
            < nominal_delay(o, 1)),
        c2.next_retry_step(c3, now2, draw2, r2),
    ensures
        r1 is Ok,
        r2 == Err::<Option<Instant>, Error<E>>(Error::TimedOut(TimeoutError { last_error: failure })),
        c3.spec_last_error() is None,
{
    Instant::lemma_checked_add(start, timeout);
    lemma_retry_within_jitter(o, 1, now2, draw2, None);
    start.lemma_bounded();
    now2.lemma_bounded();
}

impl<E> EaseOff<E> {
    /// The deadline passed while an attempt was running: the attempt is abandoned
    /// and reported as a timeout, whose error `make_error` builds from the stored
    /// error of the previous attempt, if any (moved out of the controller).
    pub fn deadline_elapsed<T>(&mut self, make_error: impl FnOnce(Option<E>) -> E) -> (r: ResultWrapper<
        '_,
        T,
        E,
    >)
        requires
            make_error.requires((old(self).spec_last_error(),)),
        ensures
            r.result matches Err(Error::TimedOut(t)) && make_error.ensures(
                (old(self).spec_last_error(),),
                t.last_error,
            ),
            *r.last_error is None,
            final(self).spec_options() == old(self).spec_options(),
            final(self).spec_started_at() == old(self).spec_started_at(),
            final(self).spec_deadline() == old(self).spec_deadline(),
            final(self).spec_num_attempts() == old(self).spec_num_attempts(),
            final(self).spec_last_error() == *final(r.last_error),
    {
        let previous = self.last_error.take();
        let error = make_error(previous);
        self.wrap_result(Err(Error::TimedOut(TimeoutError { last_error: error })))
    }
}

/// Wrapper of an attempt's outcome, which must be classified with
/// [`ResultWrapper::or_retry`] or [`ResultWrapper::or_retry_if`].
///
/// A retryable error is stored in the [`EaseOff`], to be reported if the
/// deadline passes before the next attempt.
#[must_use]
pub struct ResultWrapper<'a, T, E: 'a> {
    /// The outcome of the attempt.
    pub result: Result<T, Error<E>>,
    /// Where the controller keeps the error of the last failed attempt.
    pub last_error: &'a mut Option<E>,
}

impl<'a, T, E: 'a> ResultWrapper<'a, T, E> {
    /// Turn a timeout, if that is the outcome, into another error with
    /// `on_timeout`; for example into [`Error::MaybeRetryable`], to retry after
    /// all. Any other outcome is kept.
    pub fn on_timeout(self, on_timeout: impl FnOnce(TimeoutError<E>) -> Error<E>) -> (r:
        ResultWrapper<'a, T, E>)
        requires
            self.result matches Err(Error::TimedOut(t)) ==> on_timeout.requires((t,)),
        ensures
            *r.last_error == *old(self.last_error),
            *final(r.last_error) == *final(self.last_error),
            self.result matches Err(Error::TimedOut(t)) ==> (r.result matches Err(e)
                && on_timeout.ensures((t,), e)),
            !(self.result matches Err(Error::TimedOut(_))) ==> r.result == self.result,
    {
        let result = match self.result {
            Ok(v) => Ok(v),
            Err(e) => Err(e.on_timeout(on_timeout)),
        };
        ResultWrapper { result, last_error: self.last_error }
    }

    /// Look at the error, if the attempt failed (it may be a timeout that holds
    /// the error of an earlier attempt). The outcome is kept.
    pub fn inspect_err(self, inspect_err: impl FnOnce(&Error<E>)) -> (r: Self)
        requires
            self.result matches Err(e) ==> inspect_err.requires((&e,)),
        ensures
            self.result matches Err(e) ==> inspect_err.ensures((&e,), ()),
            r.result == self.result,
            *r.last_error == *old(self.last_error),
            *final(r.last_error) == *final(self.last_error),
    {
        if let Err(e) = &self.result {
            inspect_err(e);
        }
        self
    }

    /// Classify the outcome, asking `can_retry` whether an error still to be
    /// classified may be retried.
    ///
    /// Success: `Ok(Some(value))`, and the stored error is cleared. An error still
    /// to be classified that `can_retry` accepts: `Ok(None)`, and its inner error is
    /// stored for the next pass. A fatal error, a timeout (unless
    /// [`Self::on_timeout`] re-tagged it first), or an error that `can_retry`
    /// rejects: `Err` with its inner error, which ends the sequence. `can_retry`
    /// is only asked about errors still to be classified.
    pub fn or_retry_if(self, can_retry: impl FnOnce(&Error<E>) -> bool) -> (r: Result<Option<T>, E>)
        requires
            self.result matches Err(e) ==> (e is MaybeRetryable ==> can_retry.requires((&e,))),
        ensures
            self.result matches Ok(v) ==> r == Ok::<Option<T>, E>(Some(v))
                && *final(self.last_error) is None,
            self.result matches Err(e) ==> (!(e is MaybeRetryable) ==> r == Err::<Option<T>, E>(
                e.spec_inner(),
            ) && *final(self.last_error) == *old(self.last_error)),
            self.result matches Err(e) ==> (e is MaybeRetryable ==> {
                ||| (can_retry.ensures((&e,), true) && r == Ok::<Option<T>, E>(None)
                    && *final(self.last_error) == Some(e.spec_inner()))
                ||| (can_retry.ensures((&e,), false) && r == Err::<Option<T>, E>(e.spec_inner())
                    && *final(self.last_error) == *old(self.last_error))
            }),
    {
        match self.result {
            Ok(success) => {
                *self.last_error = None;
                Ok(Some(success))
            }
            Err(Error::MaybeRetryable(e)) => {
                let e = Error::MaybeRetryable(e);
                if can_retry(&e) {
                    *self.last_error = Some(e.into_inner());
                    Ok(None)
                } else {
                    Err(e.into_inner())
                }
            }
            // Fatal errors and timeouts end the sequence, whatever `can_retry` says.
            Err(e) => Err(e.into_inner()),
        }
    }

    /// Classify the outcome with [`RetryableError`]: an error still to be
    /// classified is retried exactly where its own `can_retry` says so; fatal
    /// errors and timeouts never are. See [`Self::or_retry_if`].
    pub fn or_retry(self) -> (r: Result<Option<T>, E>)
        where
            E: RetryableError,
        ensures
            self.result matches Ok(v) ==> r == Ok::<Option<T>, E>(Some(v))
                && *final(self.last_error) is None,
            self.result matches Err(e) ==> (!(e is MaybeRetryable) ==> r == Err::<Option<T>, E>(
                e.spec_inner(),
            ) && *final(self.last_error) == *old(self.last_error)),
            self.result matches Err(Error::MaybeRetryable(e)) ==> (e.spec_can_retry() ==> r == Ok::<
                Option<T>,
                E,
            >(None) && *final(self.last_error) == Some(e)),
            self.result matches Err(Error::MaybeRetryable(e)) ==> (!e.spec_can_retry() ==> r == Err::<
                Option<T>,
                E,
            >(e) && *final(self.last_error) == *old(self.last_error)),
    {
        self.or_retry_if(|e: &Error<E>| -> (b: bool)
            ensures
                b == e.spec_can_retry(),
            { e.can_retry() })
    }
}

/// Errors that know whether they may be retried.
pub trait RetryableError {
    /// Whether the error may be retried.
    spec fn spec_can_retry(&self) -> bool;

    /// `true` if the error is not fatal.
    fn can_retry(&self) -> (r: bool)
        ensures
            r == self.spec_can_retry(),
    ;
}

/// An error of a retry sequence, tagged with how far it has been classified.
#[derive(Debug)]
pub enum Error<E> {
    /// Not classified yet: [`RetryableError::can_retry`] asks the inner error.
    MaybeRetryable(E),
    /// Known to be fatal: never retried by [`RetryableError::can_retry`].
    Fatal(E),
    /// The deadline has passed. It holds the error of the last attempt; never
    /// retried by [`RetryableError::can_retry`].
    TimedOut(TimeoutError<E>),
}

/// The deadline of a retry sequence has passed.
#[derive(Debug)]
#[non_exhaustive]
pub struct TimeoutError<E> {
    /// The error of the last failed attempt.
    pub last_error: E,
}

impl<E: RetryableError> RetryableError for Error<E> {
    /// An error still to be classified may be retried where the inner error may;
    /// a fatal error or a timeout never.
    open spec fn spec_can_retry(&self) -> bool {
        match self {
            Error::MaybeRetryable(e) => e.spec_can_retry(),
            Error::Fatal(_) => false,
            Error::TimedOut(_) => false,
        }
    }

    fn can_retry(&self) -> (r: bool) {
        match self {
            Error::MaybeRetryable(e) => e.can_retry(),
            Error::Fatal(_) => false,
            Error::TimedOut(_) => false,
        }
    }
}

impl<E> Error<E> {
    /// The error inside, whatever the tag.
    pub open spec fn spec_inner(self) -> E {
        match self {
            Error::TimedOut(t) => t.last_error,
            Error::MaybeRetryable(e) => e,
            Error::Fatal(e) => e,
        }
    }

    /// Turn a timeout, if this is one, into another error with `on_timeout`;
    /// any other error is kept.
    pub fn on_timeout(self, on_timeout: impl FnOnce(TimeoutError<E>) -> Self) -> (r: Self)
        requires
            self matches Error::TimedOut(t) ==> on_timeout.requires((t,)),
        ensures
            self matches Error::TimedOut(t) ==> on_timeout.ensures((t,), r),
            !(self is TimedOut) ==> r == self,
    {
        match self {
            Error::TimedOut(e) => on_timeout(e),
            other => other,
        }
    }

    /// Map the inner error with `map`, keeping the tag.
    pub fn map<E2>(self, map: impl FnOnce(E) -> E2) -> (r: Error<E2>)
        requires
            map.requires((self.spec_inner(),)),
        ensures
            map.ensures((self.spec_inner(),), r.spec_inner()),
            self is MaybeRetryable <==> r is MaybeRetryable,
            self is Fatal <==> r is Fatal,
            self is TimedOut <==> r is TimedOut,
    {
        match self {
            Error::TimedOut(e) => Error::TimedOut(TimeoutError { last_error: map(e.last_error) }),
            Error::MaybeRetryable(e) => Error::MaybeRetryable(map(e)),
            Error::Fatal(e) => Error::Fatal(map(e)),
        }
    }

    /// The error inside, whatever the tag.
    pub fn inner(&self) -> (r: &E)
        ensures
            *r == self.spec_inner(),
    {
        match self {
            Error::TimedOut(e) => &e.last_error,
            Error::MaybeRetryable(e) => e,
            Error::Fatal(e) => e,
        }
    }

    /// The error inside, whatever the tag.
    pub fn into_inner(self) -> (r: E)
        ensures
            r == self.spec_inner(),
    {
        match self {
            Error::TimedOut(e) => e.last_error,
            Error::MaybeRetryable(e) => e,
            Error::Fatal(e) => e,
        }
    }
}

} // verus!
