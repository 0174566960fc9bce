//! The stateless backoff schedule: when the `n`th attempt is due, without
//! error bookkeeping or waiting. One schedule can serve many operations at once.
use vstd::arithmetic::power::{lemma_pow_positive, pow};
use vstd::prelude::*;

use rand::Rng;

use crate::options::{Options, OptionsView};
use crate::time::{saturated, scale_nanos, Duration, Instant, UNIT_FACTOR};

verus! {

/// Relies on rand's `thread_rng` and `Rng::gen_range`: a uniform draw from
/// `0..bound`, which it never leaves (`gen_range` panics only on an empty range).
#[verifier::external_body]
pub(crate) fn random_draw(bound: u32) -> (r: u32)
    requires
        0 < bound,
    ensures
        r < bound,
{
    rand::thread_rng().gen_range(0..bound)
}

/// `d` scaled `k` times by `m / UNIT_FACTOR`, saturating at each step.
pub open spec fn grown(d: nat, m: nat, k: nat) -> nat
    decreases k,
{
    if k == 0 {
        d
    } else {
        grown(scale_nanos(d, m), m, (k - 1) as nat)
    }
}

/// The delay before attempt `n`, before jitter: the initial delay for the first
/// attempt, else the initial delay grown `n - 1` times, capped by the largest delay.
pub open spec fn nominal_delay(o: OptionsView, n: nat) -> nat {
    if n == 0 {
        o.initial_delay
    } else {
        let g = grown(o.initial_delay, o.multiplier, (n - 1) as nat);
        if g <= o.max_delay { g } else { o.max_delay }
    }
}

/// The jitter fraction in effect for attempt `n`.
pub open spec fn jitter_fraction(o: OptionsView, n: nat) -> nat {
    if n == 0 { o.initial_jitter } else { o.jitter }
}

/// The share of a delay that jitter takes off for the random draw `draw`
/// (a uniform value in `[0, UNIT_FACTOR)`): none at fraction zero, `fraction * draw`
/// below one, `draw` at one or above.
pub open spec fn jitter_factor(fraction: nat, draw: nat) -> nat {
    if fraction == 0 {
        0
    } else if fraction < UNIT_FACTOR {
        fraction * draw / (UNIT_FACTOR as nat)
    } else {
        draw
    }
}

/// How much jitter takes off `delay`.
pub open spec fn jitter_amount(delay: nat, fraction: nat, draw: nat) -> nat {
    scale_nanos(delay, jitter_factor(fraction, draw))
}

/// Whether attempt `n` waits at all: every retry does, the first attempt only
/// with an initial jitter.
pub open spec fn waits(o: OptionsView, n: nat) -> bool {
    n > 0 || o.initial_jitter > 0
}

/// The instant at which attempt `n` is due, for the clock reading `now` and the
/// random draw `draw`: the nominal delay less its jitter, after `now`.
pub open spec fn retry_instant(o: OptionsView, n: nat, now: nat, draw: nat) -> nat {
    let delay = nominal_delay(o, n);
    saturated(now + delay - jitter_amount(delay, jitter_fraction(o, n), draw))
}

/// Whether `t` lies strictly after the deadline, where there is one.
pub open spec fn past_deadline(t: nat, deadline: Option<Instant>) -> bool {
    deadline is Some && t > deadline->0@
}

/// `r` is the answer of the schedule `o` for attempt `n` at the clock reading
/// `now`, with the deadline `deadline` and the random draw `draw`: `Ok(None)`
/// where the attempt does not wait; else the instant at which it is due, or an
/// error where that instant is strictly after the deadline.
pub open spec fn schedules(
    o: OptionsView,
    n: u32,
    now: Instant,
    deadline: Option<Instant>,
    draw: nat,
    r: Result<Option<Instant>, RetryAfterDeadline>,
) -> bool {
    let t = retry_instant(o, n as nat, now@, draw);
    if !waits(o, n as nat) {
        r == Ok::<Option<Instant>, RetryAfterDeadline>(None)
    } else if past_deadline(t, deadline) {
        r matches Err(e) && e.n == n && e.deadline == deadline->0 && e.retry_at@ == t
    } else {
        r matches Ok(Some(i)) && i@ == t
    }
}

/// The stateless backoff schedule: options, and nothing that changes.
#[derive(Clone, Copy, Debug)]
pub struct EaseOffCore {
    options: Options,
}

impl View for EaseOffCore {
    type V = OptionsView;

    closed spec fn view(&self) -> OptionsView {
        self.options@
    }
}

/// The `n`th attempt would fall after the deadline: the error of
/// [`EaseOffCore::nth_retry_at`].
#[derive(Clone, Copy, Debug, PartialEq, Eq, Structural)]
pub struct RetryAfterDeadline {
    /// The `n` passed to `nth_retry_at()`.
    pub n: u32,
    /// The instant at which the `n`th attempt would be due.
    pub retry_at: Instant,
    /// The deadline that it falls after.
    pub deadline: Instant,
}

impl RetryAfterDeadline {
    /// How far after the deadline the attempt would be due.
    pub fn overshoot(&self) -> (r: Duration)
        ensures
            r@ == if self.retry_at@ >= self.deadline@ { self.retry_at@ - self.deadline@ } else { 0 },
    {
        match self.retry_at.checked_duration_since(self.deadline) {
            Some(d) => d,
            None => Duration::zero(),
        }
    }
}

proof fn lemma_scale_monotone(d: nat, m: nat)
    requires
        m >= UNIT_FACTOR,
        d <= u64::MAX,
    ensures
        scale_nanos(d, m) >= d,
{
    assert(d * m / (UNIT_FACTOR as nat) >= d) by (nonlinear_arith)
        requires
            m >= 1_000_000,
    ;
}

proof fn lemma_scale_shrinks(d: nat, f: nat)
    requires
        f <= UNIT_FACTOR,
        d <= u64::MAX,
    ensures
        scale_nanos(d, f) <= d,
{
    assert(d * f / (UNIT_FACTOR as nat) <= d) by (nonlinear_arith)
        requires
            f <= 1_000_000,
    ;
}

/// Growing from a point that scaling leaves unchanged stays there.
proof fn lemma_grown_fixed_point(d: nat, m: nat, k: nat)
    requires
        scale_nanos(d, m) == d,
    ensures
        grown(d, m, k) == d,
    decreases k,
{
    if k > 0 {
        lemma_grown_fixed_point(d, m, (k - 1) as nat);
    }
}

/// With a multiplier of at least one, growth never shrinks a delay.
proof fn lemma_grown_at_least(d: nat, m: nat, k: nat)
    requires
        m >= UNIT_FACTOR,
        d <= u64::MAX,
    ensures
        grown(d, m, k) >= d,
    decreases k,
{
    if k > 0 {
        lemma_scale_monotone(d, m);
        lemma_grown_at_least(scale_nanos(d, m), m, (k - 1) as nat);
    }
}

/// Jitter never takes off more than the delay.
proof fn lemma_jitter_within(delay: nat, fraction: nat, draw: nat)
    requires
        draw < UNIT_FACTOR,
        delay <= u64::MAX,
    ensures
        jitter_factor(fraction, draw) < UNIT_FACTOR,
        jitter_amount(delay, fraction, draw) <= delay,
{
    if 0 < fraction < UNIT_FACTOR {
        assert(fraction * draw / 1_000_000 < 1_000_000) by (nonlinear_arith)
            requires
                fraction < 1_000_000,
                draw < 1_000_000,
        ;
    }
    lemma_scale_shrinks(delay, jitter_factor(fraction, draw));
}

/// `initial` grown `k` times by `multiplier`, capped by `max`.
fn capped_growth(initial: Duration, multiplier: u32, max: Duration, k: u32) -> (r: Duration)
    ensures
        r@ == if grown(initial@, multiplier as nat, k as nat) <= max@ {
            grown(initial@, multiplier as nat, k as nat)
        } else {
            max@
        },
{
    let ghost target = grown(initial@, multiplier as nat, k as nat);
    let mut cur = initial;
    let mut left = k;
    // Once growth reaches a fixed point, or passes the cap while it cannot
    // shrink, the remaining steps change nothing.
    while left > 0 && !(multiplier >= UNIT_FACTOR && cur.as_nanos() >= max.as_nanos())
        invariant
            grown(cur@, multiplier as nat, left as nat) == target,
        decreases left,
    {
        let next = cur.saturating_mul_factor(multiplier);
        if next.as_nanos() == cur.as_nanos() {
            proof {
                lemma_grown_fixed_point(cur@, multiplier as nat, left as nat);
            }
            left = 0;
        } else {
            cur = next;
            left = left - 1;
        }
    }
    proof {
        if left > 0 {
            lemma_grown_at_least(cur@, multiplier as nat, left as nat);
        }
    }
    cur.min(max)
}

/// How much jitter takes off `base` for the fraction `jitter_factor` and the
/// random draw `draw`.
fn get_jitter(base: Duration, jitter_factor: u32, draw: u32) -> (r: Duration)
    requires
        draw < UNIT_FACTOR,
    ensures
        r@ == jitter_amount(base@, jitter_factor as nat, draw as nat),
        r@ <= base@,
{
    let factor: u32 = if jitter_factor == 0 {
        0
    } else if jitter_factor < UNIT_FACTOR {
        assert(jitter_factor * draw / 1_000_000 < 1_000_000) by (nonlinear_arith)
            requires
                jitter_factor < 1_000_000,
                draw < 1_000_000,
        ;
        ((jitter_factor as u64) * (draw as u64) / (UNIT_FACTOR as u64)) as u32
    } else {
        draw
    };
    proof {
        base.lemma_bounded();
        lemma_jitter_within(base@, jitter_factor as nat, draw as nat);
    }
    base.saturating_mul_factor(factor)
}

impl OptionsView {
    /// Every delay fits in a `u64` of nanoseconds, as it does in an [`Options`].
    pub open spec fn fits(self) -> bool {
        self.initial_delay <= u64::MAX && self.max_delay <= u64::MAX
    }
}

/// With a whole-number multiplier `k` (written `k * UNIT_FACTOR`), growing
/// `j` times is multiplying by `k` to the power `j`, saturating.
pub proof fn lemma_grown_whole_multiplier(d: nat, k: nat, j: nat)
    requires
        k >= 1,
        d <= u64::MAX,
    ensures
        grown(d, k * (UNIT_FACTOR as nat), j) == saturated(d * pow(k as int, j)),
    decreases j,
{
    let m: nat = k * (UNIT_FACTOR as nat);
    reveal(pow);
    if j == 0 {
        assert(pow(k as int, 0) == 1);
    } else {
        assert(d * m / (UNIT_FACTOR as nat) == d * k) by (nonlinear_arith)
            requires
                m == k * 1_000_000,
        ;
        let next = scale_nanos(d, m);
        lemma_grown_whole_multiplier(next, k, (j - 1) as nat);
        let p = pow(k as int, (j - 1) as nat);
        lemma_pow_positive(k as int, (j - 1) as nat);
        assert(pow(k as int, j) == k * p);
        if d * k <= u64::MAX {
            assert(d * (k * p) == (d * k) * p) by (nonlinear_arith);
        } else {
            assert((u64::MAX as nat) * p >= u64::MAX) by (nonlinear_arith)
                requires
                    p >= 1,
            ;
            assert(d * (k * p) >= d * k) by (nonlinear_arith)
                requires
                    p >= 1,
            ;
        }
    }
}

/// A retry (`n >= 1`) is due after its nominal delay (the initial delay grown
/// `n - 1` times by the multiplier, capped by the largest delay), less a jitter
/// between zero and the jitter fraction of that delay; never before `now`. With
/// no deadline, or one no earlier than the nominal instant, it is accepted.
pub proof fn lemma_retry_within_jitter(o: OptionsView, n: nat, now: Instant, draw: nat, deadline: Option<Instant>)
    requires
        o.fits(),
        n >= 1,
        draw < UNIT_FACTOR,
        deadline matches Some(d) ==> d@ >= now@ + nominal_delay(o, n),
    ensures
        ({
            let g = grown(o.initial_delay, o.multiplier, (n - 1) as nat);
            nominal_delay(o, n) == if g <= o.max_delay { g } else { o.max_delay }
        }),
        ({
            let delay = nominal_delay(o, n);
            let j = jitter_amount(delay, o.jitter, draw);
            &&& j <= delay
            &&& o.jitter < UNIT_FACTOR ==> j * UNIT_FACTOR <= o.jitter * delay
            &&& retry_instant(o, n, now@, draw) == saturated(now@ + delay - j)
            &&& retry_instant(o, n, now@, draw) >= now@
            &&& retry_instant(o, n, now@, draw) <= now@ + delay
            &&& now@ + delay <= u64::MAX ==> retry_instant(o, n, now@, draw) == now@ + delay - j
            &&& (now@ + delay <= u64::MAX && o.jitter < UNIT_FACTOR) ==> retry_instant(o, n, now@, draw)
                * UNIT_FACTOR + o.jitter * delay >= (now@ + delay) * UNIT_FACTOR
        }),
        !past_deadline(retry_instant(o, n, now@, draw), deadline),
{
    let delay = nominal_delay(o, n);
    let fraction = o.jitter;
    now.lemma_bounded();
    lemma_jitter_within(delay, fraction, draw);
    assert(delay <= u64::MAX);
    let j = jitter_amount(delay, fraction, draw);
    if 0 < fraction < UNIT_FACTOR {
        let f = fraction * draw / (UNIT_FACTOR as nat);
        assert(f <= fraction) by (nonlinear_arith)
            requires
                f == fraction * draw / 1_000_000,
                draw < 1_000_000,
        ;
        assert(delay * f / (UNIT_FACTOR as nat) <= delay) by (nonlinear_arith)
            requires
                f <= fraction < 1_000_000,
        ;
        assert((delay * f / (UNIT_FACTOR as nat)) * UNIT_FACTOR <= fraction * delay) by (nonlinear_arith)
            requires
                f <= fraction,
        ;
        assert(j == delay * f / (UNIT_FACTOR as nat));
    }
    assert(retry_instant(o, n, now@, draw) == saturated(now@ + delay - j));
    if fraction == 0 {
        assert(delay * 0 / (UNIT_FACTOR as nat) == 0) by (nonlinear_arith);
        assert(j == 0);
    }
    if now@ + delay <= u64::MAX && fraction < UNIT_FACTOR {
        let t = retry_instant(o, n, now@, draw);
        let total = now@ + delay;
        assert(t * UNIT_FACTOR + fraction * delay >= total * UNIT_FACTOR) by (nonlinear_arith)
            requires
                t == total - j,
                j * 1_000_000 <= fraction * delay,
        ;
    }
}

/// Without jitter, an attempt whose nominal instant (`now` plus its delay) falls
/// after the deadline is rejected, and the instant it reports is that nominal
/// instant (saturating at the latest instant), never one moved back to the
/// deadline. With jitter the deadline judges the jittered instant instead.
pub proof fn lemma_late_retry_rejected(o: OptionsView, n: nat, now: Instant, draw: nat, deadline: Instant)
    requires
        o.fits(),
        draw < UNIT_FACTOR,
        jitter_fraction(o, n) == 0,
        saturated(now@ + nominal_delay(o, n) as int) > deadline@,
    ensures
        retry_instant(o, n, now@, draw) == saturated(now@ + nominal_delay(o, n) as int),
        now@ + nominal_delay(o, n) <= u64::MAX ==> retry_instant(o, n, now@, draw) == now@ + nominal_delay(
            o,
            n,
        ),
        past_deadline(retry_instant(o, n, now@, draw), Some(deadline)),
{
    let delay = nominal_delay(o, n);
    assert(delay * 0 / (UNIT_FACTOR as nat) == 0) by (nonlinear_arith);
    assert(jitter_amount(delay, 0, draw) == 0);
}

/// The sequence of a doubling backoff without jitter (first delay one second,
/// multiplier two, largest delay one minute): the first attempt comes at once,
/// and the first three retries wait one, two and four seconds.
pub proof fn lemma_doubling_waits(o: OptionsView, now: Instant, draw: nat)
    requires
        o.initial_delay == 1_000_000_000,
        o.multiplier == 2 * UNIT_FACTOR,
        o.jitter == 0,
        o.initial_jitter == 0,
        o.max_delay == 60_000_000_000,
        now@ + 4_000_000_000 <= u64::MAX,
    ensures
        !waits(o, 0),
        retry_instant(o, 1, now@, draw) == now@ + 1_000_000_000,
        retry_instant(o, 2, now@, draw) == now@ + 2_000_000_000,
        retry_instant(o, 3, now@, draw) == now@ + 4_000_000_000,
{
    reveal(pow);
    lemma_grown_whole_multiplier(1_000_000_000, 2, 0);
    lemma_grown_whole_multiplier(1_000_000_000, 2, 1);
    lemma_grown_whole_multiplier(1_000_000_000, 2, 2);
    assert(pow(2, 1) == 2);
    assert(pow(2, 2) == 4);
    assert(scale_nanos(1_000_000_000, 0) == 0);
    assert(scale_nanos(2_000_000_000, 0) == 0);
    assert(scale_nanos(4_000_000_000, 0) == 0);
}

/// Without an initial jitter the first attempt never waits, whatever the clock
/// and the deadline.
pub proof fn lemma_first_attempt_at_once(o: OptionsView)
    requires
        o.initial_jitter == 0,
    ensures
        !waits(o, 0),
{
}

impl EaseOffCore {
    /// The schedule of the given options.
    pub fn new(options: Options) -> (r: EaseOffCore)
        ensures
            r@ == options@,
    {
        EaseOffCore { options }
    }

    /// The options of this schedule.
    pub fn options(&self) -> (r: Options)
        ensures
            r@ == self@,
    {
        self.options
    }

    /// [`Self::nth_retry_at`] with a fresh uniform random draw.
    pub fn nth_retry_at_random(&self, n: u32, now: Instant, deadline: Option<Instant>) -> (r: Result<
        Option<Instant>,
        RetryAfterDeadline,
    >)
        ensures
            exists|draw: nat| draw < UNIT_FACTOR && #[trigger] schedules(self@, n, now, deadline, draw, r),
    {
        let draw = random_draw(UNIT_FACTOR);
        self.nth_retry_at(n, now, deadline, draw)
    }

    /// The instant at which to make the `n`th attempt (the first is `n == 0`),
    /// for the clock reading `now` and a uniform random draw `draw` in
    /// `[0, UNIT_FACTOR)`.
    ///
    /// `Ok(None)` where `n == 0` and there is no initial jitter: attempt at once.
    /// `Err` where the instant falls strictly after `deadline`; jitter only ever
    /// moves an attempt earlier, so the deadline is a hard limit.
    pub fn nth_retry_at(&self, n: u32, now: Instant, deadline: Option<Instant>, draw: u32) -> (r:
        Result<Option<Instant>, RetryAfterDeadline>)
        requires
            draw < UNIT_FACTOR,
        ensures
            schedules(self@, n, now, deadline, draw as nat, r),
    {
        let o = &self.options;
        let initial_delay = o.get_initial_delay();
        let (delay, fraction) = if n == 0 {
            let initial_jitter = o.get_initial_jitter();
            if initial_jitter == 0 {
                return Ok(None);
            }
            (initial_delay, initial_jitter)
        } else {
            let grown = capped_growth(initial_delay, o.get_multiplier(), o.get_max_delay(), n - 1);
            (grown, o.get_jitter())
        };
        proof {
            delay.lemma_bounded();
            now.lemma_bounded();
        }
        let jitter = get_jitter(delay, fraction, draw);
        // Jitter is only ever subtracted, so that the deadline is a hard limit.
        let retry_at = now.saturating_add(delay.saturating_sub(jitter));
        match deadline {
            Some(d) => {
                if retry_at.is_after(&d) {
                    Err(RetryAfterDeadline { n, retry_at, deadline: d })
                } else {
                    Ok(Some(retry_at))
                }
            }
            None => Ok(Some(retry_at)),
        }
    }
}

} // verus!
