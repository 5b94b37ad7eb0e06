//! Where entities stand and how they start to move.
use vstd::prelude::*;

use crate::duration::Duration;
use crate::schedule::{window, window_fits, TimingData};
use crate::time::{DirectedTime, Timekeeper};

verus! {

/// A compass heading, or up, down, or none.
#[derive(Debug, Clone, Copy, PartialEq, Eq, Structural, Hash)]
pub enum Direction {
    N,
    NE,
    E,
    SE,
    S,
    SW,
    W,
    NW,
    U,
    D,
    Nowhere,
}

impl Direction {
    /// Whether the direction is one of the eight compass headings, which have an opposite.
    pub open spec fn has_inverse(self) -> bool {
        !(self is U || self is D || self is Nowhere)
    }

    /// The opposite compass heading.
    pub open spec fn inverse(self) -> Direction {
        match self {
            Direction::N => Direction::S,
            Direction::NE => Direction::SW,
            Direction::E => Direction::W,
            Direction::SE => Direction::NW,
            Direction::S => Direction::N,
            Direction::SW => Direction::NE,
            Direction::W => Direction::E,
            Direction::NW => Direction::SE,
            other => other,
        }
    }

    /// The opposite compass heading; only the eight headings have one.
    pub fn invert(self) -> (r: Direction)
        requires
            self.has_inverse(),
        ensures
            r == self.inverse(),
    {
        match self {
            Direction::N => Direction::S,
            Direction::NE => Direction::SW,
            Direction::E => Direction::W,
            Direction::SE => Direction::NW,
            Direction::S => Direction::N,
            Direction::SW => Direction::NE,
            Direction::W => Direction::E,
            Direction::NW => Direction::SE,
            other => other,
        }
    }

    /// Whether `invert` may be called.
    pub fn can_invert(self) -> (r: bool)
        ensures
            r == self.has_inverse(),
    {
        match self {
            Direction::U | Direction::D | Direction::Nowhere => false,
            _ => true,
        }
    }
}

impl Default for Direction {
    fn default() -> (r: Direction)
        ensures
            r == Direction::Nowhere,
    {
        Direction::Nowhere
    }
}

/// Where an entity stands on the grid, and which way it faces.
#[derive(Debug)]
pub struct Position {
    pub(crate) x: i32,
    pub(crate) y: i32,
    pub(crate) r: Direction,
}

impl Position {
    /// Column, row and facing.
    pub open(crate) spec fn view(&self) -> (i32, i32, Direction) {
        (self.x, self.y, self.r)
    }

    pub fn new(x: i32, y: i32, r: Direction) -> (p: Position)
        ensures
            p@ == (x, y, r),
    {
        Position { x, y, r }
    }

    pub fn x(&self) -> (v: i32)
        ensures
            v == self@.0,
    {
        self.x
    }

    pub fn y(&self) -> (v: i32)
        ensures
            v == self@.1,
    {
        self.y
    }

    pub fn r(&self) -> (v: Direction)
        ensures
            v == self@.2,
    {
        self.r
    }
}

/// A behaviour kind that records windows in its schedule.
pub trait Timed: Sized {
    /// Records a window of `duration` for `entity`, placed by the clock's direction.
    fn schedule(&self, entity: u32, time: &Timekeeper, timing_data: &mut TimingData<Self>, duration: Duration)
        requires
            window_fits(time@, duration@),
        ensures
            final(timing_data).recorded_from(old(timing_data), entity, window(time@, duration@)),
    {
        timing_data.schedule(entity, time, duration);
    }
}

/// The direction of a move requested in `requested`, as it is carried out while
/// the clock's delta is `delta`: a rewinding clock undoes moves, so it reverses them.
pub open spec fn oriented(requested: Direction, delta: DirectedTime) -> Direction {
    if delta is Past {
        requested.inverse()
    } else {
        requested
    }
}

/// An entity that can move, with the direction of its current move.
#[derive(Debug)]
pub struct Movable {
    pub(crate) direction: Direction,
}

impl Movable {
    /// The direction of the current move.
    pub open(crate) spec fn heading(&self) -> Direction {
        self.direction
    }

    pub fn new(direction: Direction) -> (m: Movable)
        ensures
            m.heading() == direction,
    {
        Movable { direction }
    }

    pub fn direction(&self) -> (d: Direction)
        ensures
            d == self.heading(),
    {
        self.direction
    }

    /// Starts a move of `duration` in `direction`, reversed while the clock
    /// rewinds, and records its window for `entity`.
    pub fn start_moving(
        &mut self,
        entity: u32,
        time: &Timekeeper,
        timing_data: &mut TimingData<Movable>,
        direction: Direction,
        duration: Duration,
    )
        requires
            window_fits(time@, duration@),
            time@.delta is Past ==> direction.has_inverse(),
        ensures
            final(self).heading() == oriented(direction, time@.delta),
            final(timing_data).recorded_from(old(timing_data), entity, window(time@, duration@)),
    {
        if let DirectedTime::Past(_) = time.delta() {
            self.direction = direction.invert();
        } else {
            self.direction = direction;
        }
        self.schedule(entity, time, timing_data, duration);
    }
}

impl Default for Movable {
    fn default() -> (m: Movable)
        ensures
            m.heading() == Direction::Nowhere,
    {
        Movable { direction: Direction::Nowhere }
    }
}

impl Timed for Movable {}

/// Marks an entity that walks.
#[derive(Debug, Clone, Copy, PartialEq, Eq, Structural, Hash)]
pub struct Legs;

} // verus!
