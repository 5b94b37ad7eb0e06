//! Non-negative spans of simulation or wall-clock time, counted in nanoseconds,
//! and the exact scaling of such a span by a rational factor.
use vstd::prelude::*;

verus! {

pub const NANOS_PER_SEC: u128 = 1_000_000_000;

pub const NANOS_PER_MILLI: u128 = 1_000_000;

/// The longest representable span: `u64::MAX` whole seconds and 999,999,999 nanoseconds.
pub const MAX_NANOS: u128 = 18_446_744_073_709_551_615 * 1_000_000_000 + 999_999_999;

/// A non-negative span of time with nanosecond resolution.
#[derive(Debug, Clone, Copy, PartialEq, Eq, Structural, Hash, PartialOrd, Ord)]
pub struct Duration {
    pub(crate) nanos: u128,
}

impl Duration {
    #[verifier::type_invariant]
    pub(crate) open spec fn fits(self) -> bool {
        self.nanos <= MAX_NANOS
    }

    /// The span in nanoseconds.
    pub open(crate) spec fn view(&self) -> nat {
        self.nanos as nat
    }

    /// The span of exactly `n` nanoseconds, for `n` no larger than `MAX_NANOS`.
    pub open(crate) spec fn of_nanos(n: nat) -> Duration {
        Duration { nanos: n as u128 }
    }

    pub fn zero() -> (r: Duration)
        ensures
            r@ == 0,
    {
        Duration { nanos: 0 }
    }

    /// `secs` seconds and `nanos` nanoseconds; nanoseconds past a whole second carry over.
    pub fn new(secs: u64, nanos: u32) -> (r: Duration)
        requires
            secs * NANOS_PER_SEC + nanos <= MAX_NANOS,
        ensures
            r@ == secs * NANOS_PER_SEC + nanos,
    {
        Duration { nanos: secs as u128 * NANOS_PER_SEC + nanos as u128 }
    }

    pub fn from_secs(secs: u64) -> (r: Duration)
        ensures
            r@ == secs * NANOS_PER_SEC,
    {
        Duration { nanos: secs as u128 * NANOS_PER_SEC }
    }

    pub fn from_millis(millis: u64) -> (r: Duration)
        ensures
            r@ == millis * NANOS_PER_MILLI,
    {
        Duration { nanos: millis as u128 * NANOS_PER_MILLI }
    }

    pub fn from_nanos(nanos: u128) -> (r: Duration)
        requires
            nanos <= MAX_NANOS,
        ensures
            r@ == nanos,
    {
        Duration { nanos }
    }

    pub fn as_nanos(&self) -> (r: u128)
        ensures
            r == self@,
            r <= MAX_NANOS,
    {
        proof {
            use_type_invariant(self);
        }
        self.nanos
    }

    /// Whole seconds of the span.
    pub fn as_secs(&self) -> (r: u64)
        ensures
            r == self@ / (NANOS_PER_SEC as nat),
    {
        proof {
            use_type_invariant(self);
        }
        (self.nanos / NANOS_PER_SEC) as u64
    }

    /// Nanoseconds past the last whole second.
    pub fn subsec_nanos(&self) -> (r: u32)
        ensures
            r == self@ % (NANOS_PER_SEC as nat),
    {
        (self.nanos % NANOS_PER_SEC) as u32
    }

    pub fn is_zero(&self) -> (r: bool)
        ensures
            r == (self@ == 0),
    {
        self.nanos == 0
    }

    /// The sum of two spans; the sum must be representable.
    pub fn plus(self, other: Duration) -> (r: Duration)
        requires
            self@ + other@ <= MAX_NANOS,
        ensures
            r@ == self@ + other@,
    {
        Duration { nanos: self.nanos + other.nanos }
    }

    /// The difference of two spans; a negative difference is the caller's error.
    pub fn minus(self, other: Duration) -> (r: Duration)
        requires
            other@ <= self@,
        ensures
            r@ == self@ - other@,
    {
        proof {
            use_type_invariant(&self);
        }
        Duration { nanos: self.nanos - other.nanos }
    }

    pub fn lt(&self, other: &Duration) -> (r: bool)
        ensures
            r == (self@ < other@),
    {
        self.nanos < other.nanos
    }

    pub fn min(self, other: Duration) -> (r: Duration)
        ensures
            r@ == if self@ <= other@ { self@ } else { other@ },
    {
        if self.nanos <= other.nanos {
            self
        } else {
            other
        }
    }
}

/// A signed rate `num / den` at which simulation time follows wall-clock time.
/// A positive rate runs the simulation forward, a negative one rewinds it, and
/// zero chooses no direction.
#[derive(Debug, Clone, Copy, PartialEq, Eq, Structural, Hash)]
pub struct TimeFactor {
    pub(crate) num: i32,
    pub(crate) den: u32,
}

impl TimeFactor {
    #[verifier::type_invariant]
    pub(crate) open spec fn well_formed(self) -> bool {
        self.den > 0 && self.num > i32::MIN
    }

    pub open(crate) spec fn num(self) -> int {
        self.num as int
    }

    pub open(crate) spec fn den(self) -> nat {
        self.den as nat
    }

    /// The magnitude of the rate's numerator.
    pub open(crate) spec fn abs_num(self) -> nat {
        if self.num < 0 {
            (-self.num) as nat
        } else {
            self.num as nat
        }
    }

    /// The rate `num / den`; `num` must have a representable magnitude.
    pub fn new(num: i32, den: u32) -> (r: TimeFactor)
        requires
            den > 0,
            num > i32::MIN,
        ensures
            r.num() == num,
            r.den() == den,
    {
        TimeFactor { num, den }
    }

    /// The whole-number rate `n`.
    pub fn whole(n: i32) -> (r: TimeFactor)
        requires
            n > i32::MIN,
        ensures
            r.num() == n,
            r.den() == 1,
    {
        TimeFactor { num: n, den: 1 }
    }

    pub fn numerator(&self) -> (r: i32)
        ensures
            r == self.num(),
            r > i32::MIN,
    {
        proof {
            use_type_invariant(self);
        }
        self.num
    }

    pub fn denominator(&self) -> (r: u32)
        ensures
            r == self.den(),
            r > 0,
    {
        proof {
            use_type_invariant(self);
        }
        self.den
    }

    /// Whether the rate runs the simulation forward.
    pub fn is_forward(&self) -> (r: bool)
        ensures
            r == (self.num() > 0),
    {
        self.num > 0
    }

    /// Whether the rate rewinds the simulation.
    pub fn is_backward(&self) -> (r: bool)
        ensures
            r == (self.num() < 0),
    {
        self.num < 0
    }

    /// The rate with its sign dropped.
    pub fn abs(&self) -> (r: TimeFactor)
        ensures
            r.num() == self.abs_num(),
            r.den() == self.den(),
    {
        proof {
            use_type_invariant(self);
        }
        if self.num < 0 {
            TimeFactor { num: -self.num, den: self.den }
        } else {
            *self
        }
    }
}

/// `n * num / den` rounded down: `n` nanoseconds scaled by a non-negative rate.
pub open spec fn scaled(n: nat, num: nat, den: nat) -> nat {
    (n * num / den) as nat
}

/// `n * num / den` nanoseconds, rounded down, as an integer that may exceed `MAX_NANOS`.
pub(crate) fn scaled_nanos(duration: Duration, factor: TimeFactor) -> (r: u128)
    requires
        factor.num() >= 0,
    ensures
        r == scaled(duration@, factor.num() as nat, factor.den()),
{
    proof {
        use_type_invariant(&duration);
        use_type_invariant(&factor);
    }
    let n = duration.as_nanos();
    let k = factor.numerator() as u128;
    let d = factor.denominator() as u128;
    assert(n * k <= MAX_NANOS * 2_147_483_647) by (nonlinear_arith)
        requires
            n <= MAX_NANOS,
            k <= 2_147_483_647,
    ;
    let p = n * k;
    assert(p / d <= p) by (nonlinear_arith)
        requires
            d > 0,
            p >= 0,
    ;
    p / d
}

/// Scales `duration` by a non-negative `factor`, exactly to the nanosecond
/// (rounding down): whole seconds and sub-second nanoseconds are scaled as one
/// count, so no precision is lost for long spans.
pub fn mul_dur_by_factor(duration: Duration, factor: TimeFactor) -> (r: Duration)
    requires
        factor.num() >= 0,
        scaled(duration@, factor.num() as nat, factor.den()) <= MAX_NANOS,
    ensures
        r@ == scaled(duration@, factor.num() as nat, factor.den()),
{
    Duration::from_nanos(scaled_nanos(duration, factor))
}

} // verus!
