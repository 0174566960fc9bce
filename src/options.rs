//! Tunables of a backoff, built one field at a time.
use vstd::prelude::*;

use crate::schedule::EaseOffCore;
use crate::time::{Duration, Instant, UNIT_FACTOR};
use crate::EaseOff;

verus! {

/// What an [`Options`] holds: factors in units of `1 / UNIT_FACTOR`,
/// delays in nanoseconds.
pub struct OptionsView {
    pub multiplier: nat,
    pub jitter: nat,
    pub initial_jitter: nat,
    pub initial_delay: nat,
    pub max_delay: nat,
}

/// The default factor that each delay is multiplied by: `2.0`.
pub const DEFAULT_MULTIPLIER: u32 = 2_000_000;

/// The default jitter fraction of retries: `0.25`.
pub const DEFAULT_JITTER: u32 = 250_000;

/// The default delay of the first retry, in milliseconds.
pub const DEFAULT_INITIAL_DELAY_MILLIS: u64 = 150;

/// The default largest delay, in seconds (one minute).
pub const DEFAULT_MAX_DELAY_SECS: u64 = 60;

/// Configuration of [`EaseOff`] and [`EaseOffCore`].
///
/// Factors are fixed-point numbers with `UNIT_FACTOR` standing for `1.0`.
/// Every setter returns a new value and leaves the others as they were.
#[derive(Clone, Copy, Debug, PartialEq, Eq, Structural)]
pub struct Options {
    pub(crate) multiplier: u32,
    pub(crate) jitter: u32,
    pub(crate) initial_jitter: u32,
    pub(crate) initial_delay: Duration,
    pub(crate) max_delay: Duration,
}

impl View for Options {
    type V = OptionsView;

    closed spec fn view(&self) -> OptionsView {
        OptionsView {
            multiplier: self.multiplier as nat,
            jitter: self.jitter as nat,
            initial_jitter: self.initial_jitter as nat,
            initial_delay: self.initial_delay@,
            max_delay: self.max_delay@,
        }
    }
}

/// The default options: multiplier `2.0`, jitter `0.25`, no initial jitter,
/// a first delay of 150 ms and a largest delay of one minute.
pub open spec fn default_options() -> OptionsView {
    OptionsView {
        multiplier: DEFAULT_MULTIPLIER as nat,
        jitter: DEFAULT_JITTER as nat,
        initial_jitter: 0,
        initial_delay: (DEFAULT_INITIAL_DELAY_MILLIS * 1_000_000) as nat,
        max_delay: (DEFAULT_MAX_DELAY_SECS * 1_000_000_000) as nat,
    }
}

impl Options {
    /// The default options, which suit most applications.
    pub fn new() -> (r: Options)
        ensures
            r@ == default_options(),
    {
        Options {
            multiplier: DEFAULT_MULTIPLIER,
            jitter: DEFAULT_JITTER,
            initial_jitter: 0,
            initial_delay: Duration::from_millis(DEFAULT_INITIAL_DELAY_MILLIS),
            max_delay: Duration::from_secs(DEFAULT_MAX_DELAY_SECS),
        }
    }

    /// Set the factor that each delay is multiplied by, in units of `1 / UNIT_FACTOR`.
    ///
    /// Above `UNIT_FACTOR` the backoff grows exponentially; at `UNIT_FACTOR` it is
    /// constant before jitter; below it, it shrinks (not recommended).
    /// Growth saturates at [`Duration::max_value`] and is capped by the largest delay.
    pub fn multiplier(self, multiplier: u32) -> (r: Options)
        ensures
            r@ == (OptionsView { multiplier: multiplier as nat, ..self@ }),
    {
        Options { multiplier, ..self }
    }

    /// The factor that each delay is multiplied by.
    pub fn get_multiplier(&self) -> (r: u32)
        ensures
            r as nat == self@.multiplier,
    {
        self.multiplier
    }

    /// Set the largest fraction, in units of `1 / UNIT_FACTOR`, that jitter takes
    /// off the delay of a retry.
    ///
    /// The delay is multiplied by a random factor in `(1 - jitter, 1]`. At zero no
    /// jitter is applied; at `UNIT_FACTOR` or above the delay lies anywhere in
    /// `[0, delay]`, so the retry may come at once.
    pub fn jitter(self, jitter: u32) -> (r: Options)
        ensures
            r@ == (OptionsView { jitter: jitter as nat, ..self@ }),
    {
        Options { jitter, ..self }
    }

    /// The jitter fraction of retries.
    pub fn get_jitter(&self) -> (r: u32)
        ensures
            r as nat == self@.jitter,
    {
        self.jitter
    }

    /// Set the jitter fraction that delays the first attempt.
    ///
    /// Where it is above zero, the first attempt waits for the initial delay
    /// multiplied by a random factor in `(1 - initial_jitter, 1]`; at zero the first
    /// attempt comes at once. The multiplier is not applied before the first
    /// retryable failure.
    pub fn initial_jitter(self, initial_jitter: u32) -> (r: Options)
        ensures
            r@ == (OptionsView { initial_jitter: initial_jitter as nat, ..self@ }),
    {
        Options { initial_jitter, ..self }
    }

    /// The jitter fraction of the first attempt.
    pub fn get_initial_jitter(&self) -> (r: u32)
        ensures
            r as nat == self@.initial_jitter,
    {
        self.initial_jitter
    }

    /// Set the delay of the first retry.
    pub fn initial_delay(self, initial_delay: Duration) -> (r: Options)
        ensures
            r@ == (OptionsView { initial_delay: initial_delay@, ..self@ }),
    {
        Options { initial_delay, ..self }
    }

    /// The delay of the first retry.
    pub fn get_initial_delay(&self) -> (r: Duration)
        ensures
            r@ == self@.initial_delay,
    {
        self.initial_delay
    }

    /// Set the largest delay between two attempts.
    pub fn max_delay(self, max_delay: Duration) -> (r: Options)
        ensures
            r@ == (OptionsView { max_delay: max_delay@, ..self@ }),
    {
        Options { max_delay, ..self }
    }

    /// The largest delay between two attempts.
    pub fn get_max_delay(&self) -> (r: Duration)
        ensures
            r@ == self@.max_delay,
    {
        self.max_delay
    }

    /// The stateless schedule of these options.
    pub fn into_core(self) -> (r: EaseOffCore)
        ensures
            r@ == self@,
    {
        EaseOffCore::new(self)
    }
}

/// Starting a controller. The clock reading `now` becomes its start; the first
/// attempt is always made, however close the deadline.
impl Options {
    /// Backoff with no deadline: retries go on until success or a fatal error.
    pub fn start_unlimited<E>(&self, now: Instant) -> (r: EaseOff<E>)
        ensures
            r.is_fresh(self@, now, None),
    {
        self.start(now, None)
    }

    /// Backoff until `timeout` after `now`. Where that is past the latest instant
    /// there is no deadline.
    pub fn start_timeout<E>(&self, now: Instant, timeout: Duration) -> (r: EaseOff<E>)
        ensures
            r.is_fresh(self@, now, Instant::spec_checked_add(now, timeout)),
    {
        self.start(now, now.checked_add(timeout))
    }

    /// Backoff until `timeout` after `now` where there is a timeout, else with no
    /// deadline.
    pub fn start_timeout_opt<E>(&self, now: Instant, timeout: Option<Duration>) -> (r: EaseOff<E>)
        ensures
            r.is_fresh(
                self@,
                now,
                match timeout {
                    Some(t) => Instant::spec_checked_add(now, t),
                    None => None,
                },
            ),
    {
        let deadline = match timeout {
            Some(t) => now.checked_add(t),
            None => None,
        };
        self.start(now, deadline)
    }

    /// Backoff until `deadline`.
    pub fn start_deadline<E>(&self, now: Instant, deadline: Instant) -> (r: EaseOff<E>)
        ensures
            r.is_fresh(self@, now, Some(deadline)),
    {
        self.start(now, Some(deadline))
    }

    /// Backoff until `deadline` where there is one, else with no deadline.
    pub fn start_deadline_opt<E>(&self, now: Instant, deadline: Option<Instant>) -> (r: EaseOff<E>)
        ensures
            r.is_fresh(self@, now, deadline),
    {
        self.start(now, deadline)
    }

    fn start<E>(&self, started_at: Instant, deadline: Option<Instant>) -> (r: EaseOff<E>)
        ensures
            r.is_fresh(self@, started_at, deadline),
    {
        EaseOff::fresh(EaseOffCore::new(*self), started_at, deadline)
    }
}

impl Default for Options {
    fn default() -> (r: Options)
        ensures
            r@ == default_options(),
    {
        Options::new()
    }
}

/// Setting a field and reading it back gives the value that was set, and
/// leaves every other field as it was.
pub proof fn lemma_setters_round_trip(o: OptionsView, factor: nat, delay: nat)
    ensures
        (OptionsView { multiplier: factor, ..o }).multiplier == factor,
        (OptionsView { jitter: factor, ..o }).jitter == factor,
        (OptionsView { initial_jitter: factor, ..o }).initial_jitter == factor,
        (OptionsView { initial_delay: delay, ..o }).initial_delay == delay,
        (OptionsView { max_delay: delay, ..o }).max_delay == delay,
        (OptionsView { multiplier: o.multiplier, ..o }) == o,
        (OptionsView { jitter: o.jitter, ..o }) == o,
        (OptionsView { initial_jitter: o.initial_jitter, ..o }) == o,
        (OptionsView { initial_delay: o.initial_delay, ..o }) == o,
        (OptionsView { max_delay: o.max_delay, ..o }) == o,
{
}

} // verus!
