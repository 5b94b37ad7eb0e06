//! The simulation clock: instants, directed time deltas, and the timekeeper that
//! turns wall-clock frame intervals into a budgeted, reversible flow of simulation time.
use vstd::prelude::*;

use crate::duration::{scaled, scaled_nanos, Duration, TimeFactor, MAX_NANOS};

verus! {

/// A point on the simulation timeline: the span since the simulation's epoch.
#[derive(Debug, Clone, Copy, PartialEq, Eq, Structural, Hash, PartialOrd, Ord)]
pub struct Instant(pub(crate) Duration);

/// A signed change of simulation time.
#[derive(Debug, Clone, Copy, PartialEq, Eq, Structural, Hash)]
pub enum DirectedTime {
    Future(Duration),
    Still,
    Past(Duration),
}

impl DirectedTime {
    /// How much time moved, whatever the direction.
    pub open spec fn magnitude(self) -> nat {
        match self {
            DirectedTime::Future(d) => d@,
            DirectedTime::Still => 0,
            DirectedTime::Past(d) => d@,
        }
    }

    /// The change as a signed number of nanoseconds.
    pub open spec fn signed(self) -> int {
        match self {
            DirectedTime::Future(d) => d@ as int,
            DirectedTime::Still => 0,
            DirectedTime::Past(d) => -(d@ as int),
        }
    }

    /// The directed time that leads from instant `from` to instant `to`.
    pub open spec fn between(from: nat, to: nat) -> DirectedTime {
        if from < to {
            DirectedTime::Future(Duration::of_nanos((to - from) as nat))
        } else if from == to {
            DirectedTime::Still
        } else {
            DirectedTime::Past(Duration::of_nanos((from - to) as nat))
        }
    }
}

impl Instant {
    /// Nanoseconds since the epoch.
    pub open(crate) spec fn view(&self) -> nat {
        self.0@
    }

    /// The instant `since` after the epoch.
    pub fn at(since: Duration) -> (r: Instant)
        ensures
            r@ == since@,
    {
        Instant(since)
    }

    pub fn since_epoch(&self) -> (r: Duration)
        ensures
            r@ == self@,
    {
        self.0
    }

    /// The directed time from `self` to `other`.
    pub fn compare_to(&self, other: Instant) -> (r: DirectedTime)
        ensures
            r == DirectedTime::between(self@, other@),
    {
        if self.0.lt(&other.0) {
            DirectedTime::Future(other.0.minus(self.0))
        } else if self.0.as_nanos() == other.0.as_nanos() {
            DirectedTime::Still
        } else {
            DirectedTime::Past(self.0.minus(other.0))
        }
    }

    /// The instant `d` later.
    pub fn plus(self, d: Duration) -> (r: Instant)
        requires
            self@ + d@ <= MAX_NANOS,
        ensures
            r@ == self@ + d@,
    {
        Instant(self.0.plus(d))
    }

    /// The instant `d` earlier, which must not precede the epoch.
    pub fn minus(self, d: Duration) -> (r: Instant)
        requires
            d@ <= self@,
        ensures
            r@ == self@ - d@,
    {
        Instant(self.0.minus(d))
    }
}

/// The state of a timekeeper, in nanoseconds.
pub struct ClockView {
    /// The last wall-clock frame interval.
    pub real_delta: nat,
    /// Simulation time owed but not yet applied.
    pub budget: nat,
    /// Simulation time since the epoch.
    pub elapsed: nat,
    /// The change of simulation time of the current tick.
    pub delta: DirectedTime,
    pub rate: TimeFactor,
}

impl ClockView {
    /// What every timekeeper's state satisfies: representable spans and a positive
    /// rate denominator.
    pub open spec fn valid(self) -> bool {
        &&& self.real_delta <= MAX_NANOS
        &&& self.budget <= MAX_NANOS
        &&& self.elapsed <= MAX_NANOS
        &&& self.delta.magnitude() <= MAX_NANOS
        &&& self.rate.den() > 0
    }

    /// Whether a tick moves the clock: some budget is owed and the rate chooses a direction.
    pub open spec fn moves(self) -> bool {
        self.budget > 0 && self.rate.num() != 0
    }

    /// The simulation time that a tick of `frame` wall-clock nanoseconds consumes when
    /// the clock moves: the scaled interval, but never more than the budget.
    pub open spec fn chunk(self, frame: nat) -> nat {
        let adjusted = scaled(frame, self.rate.abs_num(), self.rate.den());
        if adjusted <= self.budget {
            adjusted
        } else {
            self.budget
        }
    }

    /// Whether a tick of `frame` nanoseconds keeps the elapsed time representable and
    /// does not rewind it past the epoch.
    pub open spec fn advance_fits(self, frame: nat) -> bool {
        self.moves() ==> if self.rate.num() > 0 {
            self.elapsed + self.chunk(frame) <= MAX_NANOS
        } else {
            self.chunk(frame) <= self.elapsed
        }
    }

    /// The state after a tick of `frame` wall-clock nanoseconds.
    pub open spec fn advanced(self, frame: nat) -> ClockView {
        let c = self.chunk(frame);
        if !self.moves() {
            ClockView { real_delta: frame, delta: DirectedTime::Still, ..self }
        } else if self.rate.num() > 0 {
            ClockView {
                real_delta: frame,
                budget: (self.budget - c) as nat,
                elapsed: self.elapsed + c,
                delta: DirectedTime::Future(Duration::of_nanos(c)),
                rate: self.rate,
            }
        } else {
            ClockView {
                real_delta: frame,
                budget: (self.budget - c) as nat,
                elapsed: (self.elapsed - c) as nat,
                delta: DirectedTime::Past(Duration::of_nanos(c)),
                rate: self.rate,
            }
        }
    }

    /// The state with `extra` more simulation time owed.
    pub open spec fn with_budget(self, extra: nat) -> ClockView {
        ClockView { budget: self.budget + extra, ..self }
    }

    /// The state with another rate.
    pub open spec fn with_rate(self, rate: TimeFactor) -> ClockView {
        ClockView { rate, ..self }
    }
}

/// The simulation clock. Commands add simulation time to its budget; each tick
/// consumes part of the budget, scaled from the wall-clock frame interval by the
/// rate, and moves the elapsed time forward or backward by exactly that much.
pub struct Timekeeper {
    pub(crate) real_time_delta: Duration,
    pub(crate) remaining_sim_time: Duration,
    pub(crate) sim_delta: DirectedTime,
    pub(crate) sim_time_factor: TimeFactor,
    pub(crate) sim_elapsed_time: Duration,
}

impl Timekeeper {
    /// Every timekeeper's state is `valid`.
    pub fn check_valid(&self)
        ensures
            self@.valid(),
    {
        proof {
            use_type_invariant(&self.real_time_delta);
            use_type_invariant(&self.remaining_sim_time);
            use_type_invariant(&self.sim_elapsed_time);
            use_type_invariant(&self.sim_time_factor);
        }
        match self.sim_delta {
            DirectedTime::Future(d) => proof {
                use_type_invariant(&d);
            },
            DirectedTime::Still => {},
            DirectedTime::Past(d) => proof {
                use_type_invariant(&d);
            },
        }
    }

    pub open(crate) spec fn view(&self) -> ClockView {
        ClockView {
            real_delta: self.real_time_delta@,
            budget: self.remaining_sim_time@,
            elapsed: self.sim_elapsed_time@,
            delta: self.sim_delta,
            rate: self.sim_time_factor,
        }
    }

    /// A clock at the epoch, with nothing owed, standing still, at rate one.
    pub fn new() -> (r: Timekeeper)
        ensures
            r@.real_delta == 0,
            r@.budget == 0,
            r@.elapsed == 0,
            r@.delta == DirectedTime::Still,
            r@.rate.num() == 1,
            r@.rate.den() == 1,
    {
        Timekeeper {
            real_time_delta: Duration::zero(),
            remaining_sim_time: Duration::zero(),
            sim_delta: DirectedTime::Still,
            sim_time_factor: TimeFactor::whole(1),
            sim_elapsed_time: Duration::zero(),
        }
    }

    /// Whether `update_real_time(d_time)` may be called: the tick neither overflows
    /// the elapsed time nor rewinds it past the epoch.
    pub fn can_advance(&self, d_time: Duration) -> (r: bool)
        ensures
            r == self@.advance_fits(d_time@),
    {
        if self.remaining_sim_time.is_zero() || self.sim_time_factor.numerator() == 0 {
            return true;
        }
        let adjusted = scaled_nanos(d_time, self.sim_time_factor.abs());
        let budget = self.remaining_sim_time.as_nanos();
        let chunk = if adjusted <= budget {
            adjusted
        } else {
            budget
        };
        let elapsed = self.sim_elapsed_time.as_nanos();
        if self.sim_time_factor.is_forward() {
            chunk <= MAX_NANOS - elapsed
        } else {
            chunk <= elapsed
        }
    }

    /// One tick of `d_time` wall-clock time. With budget owed and a direction
    /// chosen, consumes `d_time` scaled by the rate's magnitude, clamped to the
    /// budget, and moves the elapsed time by it in the rate's direction; otherwise
    /// the clock stands still and keeps its budget.
    pub fn update_real_time(&mut self, d_time: Duration)
        requires
            old(self)@.advance_fits(d_time@),
        ensures
            final(self)@ == old(self)@.advanced(d_time@),
    {
        self.real_time_delta = d_time;
        if !self.remaining_sim_time.is_zero() && self.sim_time_factor.numerator() != 0 {
            let adjusted = scaled_nanos(d_time, self.sim_time_factor.abs());
            let budget = self.remaining_sim_time.as_nanos();
            let chunk = Duration::from_nanos(
                if adjusted <= budget {
                    adjusted
                } else {
                    budget
                },
            );
            self.remaining_sim_time = self.remaining_sim_time.minus(chunk);
            if self.sim_time_factor.is_forward() {
                self.sim_elapsed_time = self.sim_elapsed_time.plus(chunk);
                self.sim_delta = DirectedTime::Future(chunk);
            } else {
                self.sim_elapsed_time = self.sim_elapsed_time.minus(chunk);
                self.sim_delta = DirectedTime::Past(chunk);
            }
        } else {
            self.sim_delta = DirectedTime::Still;
        }
    }

    /// Owes `d_time` more simulation time.
    pub fn add_simulation_time(&mut self, d_time: Duration)
        requires
            old(self)@.budget + d_time@ <= MAX_NANOS,
        ensures
            final(self)@ == old(self)@.with_budget(d_time@),
    {
        self.remaining_sim_time = self.remaining_sim_time.plus(d_time);
    }

    /// Whether `add_simulation_time(d_time)` keeps the budget representable.
    pub fn can_add_simulation_time(&self, d_time: Duration) -> (r: bool)
        ensures
            r == (self@.budget + d_time@ <= MAX_NANOS),
    {
        d_time.as_nanos() <= MAX_NANOS - self.remaining_sim_time.as_nanos()
    }

    pub fn real_time_delta(&self) -> (r: Duration)
        ensures
            r@ == self@.real_delta,
    {
        self.real_time_delta
    }

    /// Simulation time still owed.
    pub fn remaining_simulation_time(&self) -> (r: Duration)
        ensures
            r@ == self@.budget,
    {
        self.remaining_sim_time
    }

    /// The change of simulation time of the current tick.
    pub fn delta(&self) -> (r: DirectedTime)
        ensures
            r == self@.delta,
    {
        self.sim_delta
    }

    pub fn set_time_factor(&mut self, factor: TimeFactor)
        ensures
            final(self)@ == old(self)@.with_rate(factor),
    {
        self.sim_time_factor = factor;
    }

    pub fn time_factor(&self) -> (r: TimeFactor)
        ensures
            r == self@.rate,
    {
        self.sim_time_factor
    }

    /// The current simulation instant.
    pub fn now(&self) -> (r: Instant)
        ensures
            r@ == self@.elapsed,
    {
        Instant(self.sim_elapsed_time)
    }
}

impl Default for Timekeeper {
    fn default() -> (r: Timekeeper)
        ensures
            r@.budget == 0,
            r@.elapsed == 0,
            r@.delta == DirectedTime::Still,
    {
        Timekeeper::new()
    }
}

} // verus!
