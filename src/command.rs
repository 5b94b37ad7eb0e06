//! Intents queued from outside the simulation, and the intake that turns them
//! into simulation-time budget and scheduled moves.
use vstd::prelude::*;

use std::collections::VecDeque;

use crate::duration::{Duration, MAX_NANOS, NANOS_PER_MILLI};
use crate::physics::{oriented, Direction, Movable};
use crate::schedule::{appended, listed, window, window_fits, TimingData};
use crate::time::{ClockView, DirectedTime, Timekeeper};

verus! {

broadcast use vstd::std_specs::vecdeque::group_vec_dequeue_axioms;

/// How long one move takes, in milliseconds of simulation time.
pub const MOVE_MILLIS: u64 = 250;

/// How long one move takes, in nanoseconds.
pub open spec fn move_nanos() -> nat {
    (MOVE_MILLIS * NANOS_PER_MILLI) as nat
}

/// An intent for the simulation.
#[derive(Debug, Clone, Copy, PartialEq, Eq, Structural, Hash)]
pub enum GameCommand {
    Move(Direction),
}

impl GameCommand {
    /// The direction that a move intent asks for.
    pub open spec fn direction(self) -> Direction {
        match self {
            GameCommand::Move(d) => d,
        }
    }
}

/// A first-in first-out queue of intents.
pub struct GameCommandQueue {
    pub(crate) queue: VecDeque<GameCommand>,
}

impl GameCommandQueue {
    /// The queued intents, oldest first.
    pub open(crate) spec fn view(&self) -> Seq<GameCommand> {
        self.queue@
    }

    pub fn new() -> (r: GameCommandQueue)
        ensures
            r@ == Seq::<GameCommand>::empty(),
    {
        GameCommandQueue { queue: VecDeque::new() }
    }

    /// Adds `command` at the back.
    pub fn queue(&mut self, command: GameCommand)
        ensures
            final(self)@ == old(self)@.push(command),
    {
        self.queue.push_back(command);
    }

    /// Takes the oldest intent, if any.
    pub fn pop(&mut self) -> (r: Option<GameCommand>)
        ensures
            old(self)@.len() == 0 ==> r is None && final(self)@ == old(self)@,
            old(self)@.len() > 0 ==> r == Some(old(self)@[0]) && final(self)@ == old(self)@.drop_first(),
    {
        self.queue.pop_front()
    }

    pub fn len(&self) -> (r: usize)
        ensures
            r == self@.len(),
    {
        self.queue.len()
    }

    /// The intent at `i`, counting from the oldest.
    pub fn get(&self, i: usize) -> (r: GameCommand)
        requires
            i < self@.len(),
        ensures
            r == self@[i as int],
    {
        self.queue[i]
    }
}

impl Default for GameCommandQueue {
    fn default() -> (r: GameCommandQueue)
        ensures
            r@ == Seq::<GameCommand>::empty(),
    {
        GameCommandQueue::new()
    }
}

/// `after` is `before` with `id` appended `n` times to the list at `key`.
pub open spec fn appended_times(
    before: Map<u128, Vec<u32>>,
    after: Map<u128, Vec<u32>>,
    key: u128,
    id: u32,
    n: nat,
) -> bool {
    &&& after.dom() == if n == 0 {
        before.dom()
    } else {
        before.dom().insert(key)
    }
    &&& forall|k: u128|
        #[trigger] listed(after, k) == if k == key {
            listed(before, k) + Seq::new(n, |_i: int| id)
        } else {
            listed(before, k)
        }
}

proof fn lemma_appended_none(m: Map<u128, Vec<u32>>, key: u128, id: u32)
    ensures
        appended_times(m, m, key, id, 0),
{
    assert forall|k: u128|
        #[trigger] listed(m, k) == if k == key {
            listed(m, k) + Seq::new(0, |_i: int| id)
        } else {
            listed(m, k)
        } by {
        assert(listed(m, k) + Seq::new(0, |_i: int| id) =~= listed(m, k));
    }
}

proof fn lemma_appended_again(
    before: Map<u128, Vec<u32>>,
    mid: Map<u128, Vec<u32>>,
    after: Map<u128, Vec<u32>>,
    key: u128,
    id: u32,
    n: nat,
)
    requires
        appended_times(before, mid, key, id, n),
        appended(mid, after, key, id),
    ensures
        appended_times(before, after, key, id, n + 1),
{
    assert(after.dom() =~= before.dom().insert(key));
    assert forall|k: u128|
        #[trigger] listed(after, k) == if k == key {
            listed(before, k) + Seq::new(n + 1, |_i: int| id)
        } else {
            listed(before, k)
        } by {
        if k == key {
            assert(listed(after, k) == listed(mid, k).push(id));
            assert((listed(before, k) + Seq::new(n, |_i: int| id)).push(id) =~= listed(before, k)
                + Seq::new(n + 1, |_i: int| id));
        } else {
            assert(listed(after, k) == listed(mid, k));
        }
    }
}

/// Whether the intake may drain `commands` on a clock in state `clock`: the added
/// budget stays representable, the move windows lie on the timeline, and while
/// the clock rewinds every requested direction has an opposite.
pub open spec fn intake_allowed(clock: ClockView, commands: Seq<GameCommand>) -> bool {
    &&& clock.budget + commands.len() * move_nanos() <= MAX_NANOS
    &&& commands.len() > 0 ==> window_fits(clock, move_nanos())
    &&& clock.delta is Past ==> forall|i: int|
        0 <= i < commands.len() ==> (#[trigger] commands[i]).direction().has_inverse()
}

/// The intake of the player's intents, run once per tick before the timing steps.
pub struct PlayerCommands;

impl PlayerCommands {
    /// Whether `run` may be called on this clock and queue (`intake_allowed`).
    pub fn can_run(&self, time: &Timekeeper, commands: &GameCommandQueue) -> (r: bool)
        ensures
            r == intake_allowed(time@, commands@),
    {
        time.check_valid();
        let n = commands.len();
        let step = Duration::from_millis(MOVE_MILLIS);
        let budget = time.remaining_simulation_time().as_nanos();
        if n as u128 > (MAX_NANOS - budget) / step.as_nanos() {
            proof {
                assert((n as int) * move_nanos() > MAX_NANOS - budget) by (nonlinear_arith)
                    requires
                        n as int > (MAX_NANOS - budget) / (move_nanos() as int),
                        move_nanos() > 0,
                ;
            }
            return false;
        }
        proof {
            assert((n as int) * move_nanos() <= MAX_NANOS - budget) by (nonlinear_arith)
                requires
                    n as int <= (MAX_NANOS - budget) / (move_nanos() as int),
                    move_nanos() > 0,
            ;
        }
        if n > 0 && !TimingData::<Movable>::can_schedule(time, step) {
            return false;
        }
        if let DirectedTime::Past(_) = time.delta() {
            let mut i: usize = 0;
            while i < n
                invariant
                    n == commands@.len(),
                    time@.delta is Past,
                    i <= n,
                    forall|j: int| 0 <= j < i ==> (#[trigger] commands@[j]).direction().has_inverse(),
                decreases n - i,
            {
                let GameCommand::Move(d) = commands.get(i);
                if !d.can_invert() {
                    proof {
                        assert(!commands@[i as int].direction().has_inverse());
                    }
                    return false;
                }
                i += 1;
            }
        }
        true
    }

    /// Drains `commands` in the order they were queued. Each move adds one move's
    /// worth of budget to the clock, turns `movable` toward its direction (reversed
    /// while the clock rewinds), and records one move window for `entity`.
    pub fn run(
        &mut self,
        time: &mut Timekeeper,
        commands: &mut GameCommandQueue,
        entity: u32,
        movable: &mut Movable,
        movable_timing: &mut TimingData<Movable>,
    )
        requires
            intake_allowed(old(time)@, old(commands)@),
        ensures
            final(commands)@ == Seq::<GameCommand>::empty(),
            final(time)@ == old(time)@.with_budget(old(commands)@.len() * move_nanos()),
            final(movable).heading() == if old(commands)@.len() == 0 {
                old(movable).heading()
            } else {
                oriented(old(commands)@.last().direction(), old(time)@.delta)
            },
            final(movable_timing).due() == old(movable_timing).due(),
            appended_times(
                old(movable_timing).starts(),
                final(movable_timing).starts(),
                window(old(time)@, move_nanos()).0 as u128,
                entity,
                old(commands)@.len(),
            ),
            appended_times(
                old(movable_timing).ends(),
                final(movable_timing).ends(),
                window(old(time)@, move_nanos()).1 as u128,
                entity,
                old(commands)@.len(),
            ),
    {
        let duration = Duration::from_millis(MOVE_MILLIS);
        let total = commands.len();
        let ghost all = commands@;
        let ghost w = window(time@, duration@);
        proof {
            lemma_appended_none(movable_timing.starts(), w.0 as u128, entity);
            lemma_appended_none(movable_timing.ends(), w.1 as u128, entity);
        }
        let mut done: usize = 0;
        while commands.len() > 0
            invariant
                done <= all.len(),
                all.len() == total,
                commands@ == all.subrange(done as int, all.len() as int),
                time@ == old(time)@.with_budget((done * move_nanos()) as nat),
                duration@ == move_nanos(),
                w == window(old(time)@, move_nanos()),
                intake_allowed(old(time)@, all),
                movable.heading() == if done == 0 {
                    old(movable).heading()
                } else {
                    oriented(all[done - 1].direction(), old(time)@.delta)
                },
                movable_timing.due() == old(movable_timing).due(),
                appended_times(old(movable_timing).starts(), movable_timing.starts(), w.0 as u128, entity, done as nat),
                appended_times(old(movable_timing).ends(), movable_timing.ends(), w.1 as u128, entity, done as nat),
            decreases commands@.len(),
        {
            let ghost before = commands@;
            let command = commands.pop();
            if let Some(GameCommand::Move(direction)) = command {
                proof {
                    assert((done + 1) * move_nanos() <= all.len() * move_nanos()) by (nonlinear_arith)
                        requires
                            done + 1 <= all.len(),
                    ;
                    assert((done + 1) * move_nanos() == done * move_nanos() + move_nanos()) by (nonlinear_arith);
                    assert(all[done as int] == before[0]);
                }
                time.add_simulation_time(duration);
                let ghost starts_before = movable_timing.starts();
                let ghost ends_before = movable_timing.ends();
                movable.start_moving(entity, time, movable_timing, direction, duration);
                proof {
                    lemma_appended_again(old(movable_timing).starts(), starts_before, movable_timing.starts(), w.0 as u128, entity, done as nat);
                    lemma_appended_again(old(movable_timing).ends(), ends_before, movable_timing.ends(), w.1 as u128, entity, done as nat);
                }
                done += 1;
            }
        }
        proof {
            assert(done == all.len());
        }
    }
}

} // verus!
