//! Laws that relate several operations of the clock.
use vstd::prelude::*;

use crate::duration::{scaled, TimeFactor, MAX_NANOS};
use crate::time::ClockView;

verus! {

/// One call on a clock: `add_simulation_time` or `update_real_time`, with its
/// argument in nanoseconds.
pub enum ClockOp {
    AddBudget(nat),
    Advance(nat),
}

/// The state after one call.
pub open spec fn apply(c: ClockView, op: ClockOp) -> ClockView {
    match op {
        ClockOp::AddBudget(d) => c.with_budget(d),
        ClockOp::Advance(d) => c.advanced(d),
    }
}

/// Whether the call's own precondition holds on `c`.
pub open spec fn allowed(c: ClockView, op: ClockOp) -> bool {
    match op {
        ClockOp::AddBudget(d) => d <= MAX_NANOS && c.budget + d <= MAX_NANOS,
        ClockOp::Advance(d) => d <= MAX_NANOS && c.advance_fits(d),
    }
}

/// The state after the calls `ops`, in order.
pub open spec fn run(c: ClockView, ops: Seq<ClockOp>) -> ClockView
    decreases ops.len(),
{
    if ops.len() == 0 {
        c
    } else {
        run(apply(c, ops[0]), ops.drop_first())
    }
}

/// Whether every call of `ops` meets its precondition when it is made.
pub open spec fn all_allowed(c: ClockView, ops: Seq<ClockOp>) -> bool
    decreases ops.len(),
{
    ops.len() == 0 || (allowed(c, ops[0]) && all_allowed(apply(c, ops[0]), ops.drop_first()))
}

/// The total budget that the calls `ops` add.
pub open spec fn added(ops: Seq<ClockOp>) -> nat
    decreases ops.len(),
{
    if ops.len() == 0 {
        0
    } else {
        let first: nat = match ops[0] {
            ClockOp::AddBudget(d) => d,
            ClockOp::Advance(_) => 0,
        };
        first + added(ops.drop_first())
    }
}

/// The total simulation time that the ticks among `ops` report as moved.
pub open spec fn consumed(c: ClockView, ops: Seq<ClockOp>) -> nat
    decreases ops.len(),
{
    if ops.len() == 0 {
        0
    } else {
        let next = apply(c, ops[0]);
        let first: nat = match ops[0] {
            ClockOp::AddBudget(_) => 0,
            ClockOp::Advance(_) => next.delta.magnitude(),
        };
        first + consumed(next, ops.drop_first())
    }
}

/// Scaling by a rate of one keeps a span, and scaling by zero empties it.
pub proof fn scale_by_one_and_by_zero(n: nat, den: nat)
    requires
        den > 0,
    ensures
        scaled(n, den, den) == n,
        scaled(n, 0, den) == 0,
{
    assert(n * den / den == n as int) by (nonlinear_arith)
        requires
            den > 0,
    ;
    assert(n * 0 / den == 0) by (nonlinear_arith)
        requires
            den > 0,
    ;
}

/// After any sequence of budget additions and ticks, the budget owed is the
/// budget at the start plus all that was added, less all the ticks consumed;
/// the ticks never consume more than was ever owed.
pub proof fn budget_conservation(c: ClockView, ops: Seq<ClockOp>)
    requires
        c.valid(),
        all_allowed(c, ops),
    ensures
        run(c, ops).budget + consumed(c, ops) == c.budget + added(ops),
        consumed(c, ops) <= c.budget + added(ops),
    decreases ops.len(),
{
    if ops.len() > 0 {
        let next = apply(c, ops[0]);
        budget_conservation(next, ops.drop_first());
        match ops[0] {
            ClockOp::AddBudget(_) => {},
            ClockOp::Advance(d) => {
                advance_never_overshoots(c, d);
                advance_keeps_valid(c, d);
            },
        }
    }
}

/// A single tick never moves the clock by more than the budget owed before it,
/// and takes exactly what it reports from the budget.
pub proof fn advance_never_overshoots(c: ClockView, frame: nat)
    requires
        c.valid(),
    ensures
        c.advanced(frame).delta.magnitude() <= c.budget,
        c.advanced(frame).budget + c.advanced(frame).delta.magnitude() == c.budget,
{
}

/// A tick that meets its precondition leaves a valid state.
pub proof fn advance_keeps_valid(c: ClockView, frame: nat)
    requires
        c.valid(),
        frame <= MAX_NANOS,
        c.advance_fits(frame),
    ensures
        c.advanced(frame).valid(),
{
}

/// A tick that meets its precondition moves the elapsed time by exactly the
/// directed time that it reports.
pub proof fn elapsed_follows_delta(c: ClockView, frame: nat)
    requires
        c.valid(),
        c.advance_fits(frame),
    ensures
        c.advanced(frame).elapsed == c.elapsed + c.advanced(frame).delta.signed(),
{
}

/// Running forward at rate one for a frame, then backward at rate minus one for
/// the same frame, brings the elapsed time back where it was, provided the
/// budget covers both ticks in full.
pub proof fn rewind_restores_elapsed(c: ClockView, frame: nat, backward: TimeFactor)
    requires
        c.valid(),
        c.rate.num() == c.rate.den(),
        backward.num() == -backward.den(),
        backward.den() > 0,
        2 * frame <= c.budget,
        c.elapsed + frame <= MAX_NANOS,
    ensures
        c.advanced(frame).with_rate(backward).advanced(frame).elapsed == c.elapsed,
        c.advanced(frame).with_rate(backward).advanced(frame).delta.signed() == -c.advanced(
            frame,
        ).delta.signed(),
{
    scale_by_one_and_by_zero(frame, c.rate.den());
    scale_by_one_and_by_zero(frame, backward.den());
}

} // verus!
