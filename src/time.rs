//! Durations and instants as whole nanoseconds, with saturating arithmetic.
use vstd::prelude::*;

verus! {

/// The fixed-point scale of every factor in this crate: a factor of `1.0`
/// is written `UNIT_FACTOR`, `0.25` is `UNIT_FACTOR / 4`.
pub const UNIT_FACTOR: u32 = 1_000_000;

/// `x`, or the largest `u64` where `x` is larger.
pub open spec fn saturated(x: int) -> nat {
    if x > u64::MAX { u64::MAX as nat } else if x < 0 { 0 } else { x as nat }
}

/// `d` scaled by `f / UNIT_FACTOR`, rounded down, saturating at the largest duration.
pub open spec fn scale_nanos(d: nat, f: nat) -> nat {
    saturated((d * f / (UNIT_FACTOR as nat)) as int)
}

fn saturating_times(x: u64, k: u64) -> (r: u64)
    requires
        k > 0,
    ensures
        r as nat == saturated(x * k),
{
    if x > u64::MAX / k {
        assert(x * k > u64::MAX) by (nonlinear_arith)
            requires
                x > u64::MAX / k,
                k > 0,
        ;
        u64::MAX
    } else {
        assert(x * k <= u64::MAX) by (nonlinear_arith)
            requires
                x <= u64::MAX / k,
                k > 0,
        ;
        x * k
    }
}

/// A span of time, in nanoseconds. The largest one is `u64::MAX` nanoseconds
/// (a little over 584 years); arithmetic saturates there.
#[derive(Clone, Copy, Debug, PartialEq, Eq, Structural, Hash, PartialOrd, Ord)]
pub struct Duration {
    nanos: u64,
}

impl View for Duration {
    type V = nat;

    closed spec fn view(&self) -> nat {
        self.nanos as nat
    }
}

impl Duration {
    pub fn zero() -> (r: Duration)
        ensures
            r@ == 0,
    {
        Duration { nanos: 0 }
    }

    /// The largest duration that can be represented.
    pub fn max_value() -> (r: Duration)
        ensures
            r@ == u64::MAX as nat,
    {
        Duration { nanos: u64::MAX }
    }

    pub fn from_nanos(nanos: u64) -> (r: Duration)
        ensures
            r@ == nanos as nat,
    {
        Duration { nanos }
    }


    /// Saturates at [`Duration::max_value`].
    pub fn from_millis(millis: u64) -> (r: Duration)
        ensures
            r@ == saturated(millis * 1_000_000),
    {
        Duration { nanos: saturating_times(millis, 1_000_000) }
    }

    /// Saturates at [`Duration::max_value`].
    pub fn from_secs(secs: u64) -> (r: Duration)
        ensures
            r@ == saturated(secs * 1_000_000_000),
    {
        Duration { nanos: saturating_times(secs, 1_000_000_000) }
    }

    pub fn as_nanos(&self) -> (r: u64)
        ensures
            r as nat == self@,
    {
        self.nanos
    }

    /// Every duration fits in a `u64` of nanoseconds.
    pub proof fn lemma_bounded(self)
        ensures
            self@ <= u64::MAX,
    {
    }


    /// The smaller of the two.
    pub fn min(self, other: Duration) -> (r: Duration)
        ensures
            r@ == if self@ <= other@ { self@ } else { other@ },
    {
        if self.nanos <= other.nanos { self } else { other }
    }

    /// `self - other`, or zero where `other` is the longer.
    pub fn saturating_sub(self, other: Duration) -> (r: Duration)
        ensures
            r@ == if self@ >= other@ { self@ - other@ } else { 0 },
    {
        Duration { nanos: self.nanos.saturating_sub(other.nanos) }
    }


    /// `self` multiplied by `factor / UNIT_FACTOR`, rounded down, saturating at
    /// [`Duration::max_value`].
    pub fn saturating_mul_factor(self, factor: u32) -> (r: Duration)
        ensures
            r@ == scale_nanos(self@, factor as nat),
    {
        let d = self.nanos as u128;
        let f = factor as u128;
        assert(d * f <= (u64::MAX as u128) * (u32::MAX as u128)) by (nonlinear_arith)
            requires
                d <= u64::MAX,
                f <= u32::MAX,
        ;
        let p = d * f / (UNIT_FACTOR as u128);
        if p > u64::MAX as u128 {
            Duration { nanos: u64::MAX }
        } else {
            Duration { nanos: p as u64 }
        }
    }
}

/// A point in time, as nanoseconds since an origin that the caller picks
/// (for a running process, usually the moment it started). The latest one is
/// `u64::MAX` nanoseconds after the origin; arithmetic saturates there.
#[derive(Clone, Copy, Debug, PartialEq, Eq, Structural, Hash, PartialOrd, Ord)]
pub struct Instant {
    nanos: u64,
}

impl View for Instant {
    type V = nat;

    closed spec fn view(&self) -> nat {
        self.nanos as nat
    }
}

impl Instant {
    pub fn from_nanos(nanos: u64) -> (r: Instant)
        ensures
            r@ == nanos as nat,
    {
        Instant { nanos }
    }

    /// Nanoseconds since the origin.
    pub fn as_nanos(&self) -> (r: u64)
        ensures
            r as nat == self@,
    {
        self.nanos
    }

    /// `t + d`, or `None` past the latest instant.
    pub closed spec fn spec_checked_add(t: Instant, d: Duration) -> Option<Instant> {
        if t.nanos + d@ <= u64::MAX {
            Some(Instant { nanos: (t.nanos + d@) as u64 })
        } else {
            None
        }
    }

    /// What [`Instant::spec_checked_add`] is, in nanoseconds.
    pub proof fn lemma_checked_add(t: Instant, d: Duration)
        ensures
            t@ + d@ <= u64::MAX ==> (Instant::spec_checked_add(t, d) matches Some(s) && s@ == t@ + d@),
            t@ + d@ > u64::MAX ==> Instant::spec_checked_add(t, d) is None,
    {
    }


    /// `self + d`, or `None` past the latest instant.
    pub fn checked_add(self, d: Duration) -> (r: Option<Instant>)
        ensures
            r == Instant::spec_checked_add(self, d),
            self@ + d@ <= u64::MAX ==> (r matches Some(t) && t@ == self@ + d@),
            self@ + d@ > u64::MAX ==> r is None,
    {
        let n = d.as_nanos();
        match self.nanos.checked_add(n) {
            Some(t) => Some(Instant { nanos: t }),
            None => None,
        }
    }

    /// `self + d`, saturating at the latest instant.
    pub fn saturating_add(self, d: Duration) -> (r: Instant)
        ensures
            r@ == saturated(self@ + d@ as int),
    {
        let n = d.as_nanos();
        Instant { nanos: self.nanos.saturating_add(n) }
    }

    /// Every instant fits in a `u64` of nanoseconds.
    pub proof fn lemma_bounded(self)
        ensures
            self@ <= u64::MAX,
    {
    }

    /// How long after `earlier` this instant is, or `None` where it is before it.
    pub fn checked_duration_since(self, earlier: Instant) -> (r: Option<Duration>)
        ensures
            self@ >= earlier@ ==> (r matches Some(d) && d@ == self@ - earlier@),
            self@ < earlier@ ==> r is None,
    {
        if self.nanos >= earlier.nanos {
            Some(Duration::from_nanos(self.nanos - earlier.nanos))
        } else {
            None
        }
    }

    /// Whether this instant is strictly after `other`.
    pub fn is_after(&self, other: &Instant) -> (r: bool)
        ensures
            r == (self@ > other@),
    {
        self.nanos > other.nanos
    }
}

} // verus!
