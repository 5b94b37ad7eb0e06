//! Key bindings: which command a key or button press stands for, given the
//! modifiers held with it.
use vstd::prelude::*;

use std::collections::HashMap;

use crate::command::GameCommand;
use crate::keymod::{popcount, KeyMod};
use crate::physics::Direction;

verus! {

broadcast use vstd::std_specs::hash::group_hash_axioms;

/// Virtual key codes of the keys that the default bindings use, numbered as the
/// windowing layer numbers its keys.
pub const KEY_A: u32 = 10;

pub const KEY_D: u32 = 13;

pub const KEY_Q: u32 = 26;

pub const KEY_S: u32 = 28;

pub const KEY_W: u32 = 32;

/// A key, by its virtual key code, or a mouse button, by number.
#[derive(Debug, Clone, Copy, PartialEq, Eq, Structural, Hash)]
pub enum Input {
    Key(u32),
    Mouse(u32),
}

/// A command for the application around the simulation.
#[derive(Debug, Clone, Copy, PartialEq, Eq, Structural, Hash)]
pub enum AppCommand {
    Exit,
    Pause,
}

/// What an input stands for.
#[derive(Debug, Clone, Copy, PartialEq, Eq, Structural, Hash)]
pub enum Command {
    App(AppCommand),
    Game(GameCommand),
}

/// The game command that `action` hands to the simulation; application commands
/// and the absence of a command hand it none.
pub fn game_command(action: Option<Command>) -> (r: Option<GameCommand>)
    ensures
        r == match action {
            Some(Command::Game(c)) => Some(c),
            _ => None::<GameCommand>,
        },
{
    match action {
        Some(Command::Game(command)) => Some(command),
        _ => None,
    }
}

/// The key under which the bindings of `input` are kept; distinct inputs have distinct keys.
pub open spec fn key_of(input: Input) -> u64 {
    match input {
        Input::Key(k) => k as u64,
        Input::Mouse(m) => (0x1_0000_0000 + m) as u64,
    }
}

fn input_key(input: Input) -> (r: u64)
    ensures
        r == key_of(input),
{
    match input {
        Input::Key(k) => k as u64,
        Input::Mouse(m) => 0x1_0000_0000 + m as u64,
    }
}

/// The index of the first element of `s` that satisfies `p`, or the length of `s`.
pub open spec fn first_index<A>(s: Seq<A>, p: spec_fn(A) -> bool) -> nat
    decreases s.len(),
{
    if s.len() == 0 {
        0
    } else if p(s[0]) {
        0
    } else {
        1 + first_index(s.drop_first(), p)
    }
}

proof fn lemma_first_index<A>(s: Seq<A>, p: spec_fn(A) -> bool, i: int)
    requires
        0 <= i <= s.len(),
        forall|j: int| 0 <= j < i ==> !p(#[trigger] s[j]),
        i < s.len() ==> p(s[i]),
    ensures
        first_index(s, p) == i,
    decreases s.len(),
{
    if i > 0 {
        assert forall|j: int| 0 <= j < i - 1 implies !p(#[trigger] s.drop_first()[j]) by {
            assert(s.drop_first()[j] == s[j + 1]);
        }
        lemma_first_index(s.drop_first(), p, i - 1);
    }
}

/// The index of the binding for exactly the modifiers `mods`, or the length of `list`.
pub open spec fn mods_index(list: Seq<(KeyMod, Command)>, mods: KeyMod) -> nat {
    first_index(list, for_mods(mods))
}

/// Whether a binding is for exactly `mods`.
pub open spec fn for_mods(mods: KeyMod) -> spec_fn((KeyMod, Command)) -> bool {
    |e: (KeyMod, Command)| e.0 == mods
}

/// Whether a binding has no more modifiers than `count`.
pub open spec fn not_more_than(count: int) -> spec_fn((KeyMod, Command)) -> bool {
    |e: (KeyMod, Command)| count >= popcount(e.0@)
}

/// Whether all modifiers of a binding are held in `pressed`.
pub open spec fn held_in(pressed: KeyMod) -> spec_fn((KeyMod, Command)) -> bool {
    |e: (KeyMod, Command)| pressed@ & e.0@ == e.0@
}

/// Where a binding with `count` modifiers goes: before the first binding with
/// no more modifiers than it, so that bindings with more modifiers come first.
pub open spec fn insert_index(list: Seq<(KeyMod, Command)>, count: int) -> nat {
    first_index(list, not_more_than(count))
}

/// The bindings of one input after binding `mods` to `action`: the command of an
/// existing binding for exactly `mods` is replaced; otherwise a new binding is
/// inserted at `insert_index`.
pub open spec fn rebind(list: Seq<(KeyMod, Command)>, mods: KeyMod, action: Command) -> Seq<
    (KeyMod, Command),
> {
    let i = mods_index(list, mods);
    if i < list.len() {
        list.update(i as int, (mods, action))
    } else {
        list.insert(insert_index(list, popcount(mods@)) as int, (mods, action))
    }
}

/// The index of the first binding whose modifiers are all held in `pressed`.
pub open spec fn match_index(list: Seq<(KeyMod, Command)>, pressed: KeyMod) -> nat {
    first_index(list, held_in(pressed))
}

/// The command of the first binding whose modifiers are all held, if any.
pub open spec fn resolution(list: Seq<(KeyMod, Command)>, pressed: KeyMod) -> Option<Command> {
    let i = match_index(list, pressed);
    if i < list.len() {
        Some(list[i as int].1)
    } else {
        None
    }
}

/// Whether `list` is ordered from most to fewest modifiers.
pub open spec fn most_modifiers_first(list: Seq<(KeyMod, Command)>) -> bool {
    forall|i: int, j: int|
        0 <= i < j < list.len() ==> popcount((#[trigger] list[i]).0@) >= popcount(
            (#[trigger] list[j]).0@,
        )
}

proof fn lemma_rebind_keeps_order(list: Seq<(KeyMod, Command)>, mods: KeyMod, action: Command)
    requires
        most_modifiers_first(list),
    ensures
        most_modifiers_first(rebind(list, mods, action)),
{
    let i = mods_index(list, mods);
    if i >= list.len() {
        let k = insert_index(list, popcount(mods@));
        lemma_first_index_bounds(list, not_more_than(popcount(mods@)));
        let r = rebind(list, mods, action);
        assert forall|a: int, b: int| 0 <= a < b < r.len() implies popcount(
            (#[trigger] r[a]).0@,
        ) >= popcount((#[trigger] r[b]).0@) by {
            if a < k && b == k {
                assert(!not_more_than(popcount(mods@))(list[a]));
            } else if a == k && b > k {
                if b - 1 > k {
                    assert(popcount(list[k as int].0@) >= popcount(list[b - 1].0@));
                }
            }
        }
    } else {
        lemma_first_index_bounds(list, for_mods(mods));
        let r = rebind(list, mods, action);
        assert forall|a: int, b: int| 0 <= a < b < r.len() implies popcount(
            (#[trigger] r[a]).0@,
        ) >= popcount((#[trigger] r[b]).0@) by {
            assert(list[i as int].0 == mods);
        }
    }
}

/// `first_index` is a position of `s`, no element before it satisfies `p`, and
/// the element there, if any, does.
proof fn lemma_first_index_bounds<A>(s: Seq<A>, p: spec_fn(A) -> bool)
    ensures
        first_index(s, p) <= s.len(),
        forall|j: int| 0 <= j < first_index(s, p) ==> !p(#[trigger] s[j]),
        first_index(s, p) < s.len() ==> p(s[first_index(s, p) as int]),
    decreases s.len(),
{
    if s.len() > 0 && !p(s[0]) {
        lemma_first_index_bounds(s.drop_first(), p);
        assert forall|j: int| 0 <= j < first_index(s, p) implies !p(#[trigger] s[j]) by {
            if j > 0 {
                assert(s[j] == s.drop_first()[j - 1]);
            }
        }
    }
}

/// The bindings of every input, each list ordered from most to fewest modifiers.
pub struct InputHandler {
    pub(crate) bindings: HashMap<u64, Vec<(KeyMod, Command)>>,
}

impl InputHandler {
    /// Every input's bindings are tried from most to fewest modifiers.
    pub open(crate) spec fn well_ordered(&self) -> bool {
        forall|input: Input| most_modifiers_first(#[trigger] self.bound(input))
    }

    /// The bindings of `input`, in the order they are tried.
    pub open(crate) spec fn bound(&self, input: Input) -> Seq<(KeyMod, Command)> {
        if self.bindings@.contains_key(key_of(input)) {
            self.bindings@[key_of(input)]@
        } else {
            Seq::empty()
        }
    }

    /// A handler with no bindings.
    pub fn new() -> (r: InputHandler)
        ensures
            forall|input: Input| #[trigger] r.bound(input) == Seq::<(KeyMod, Command)>::empty(),
            r.well_ordered(),
    {
        InputHandler { bindings: HashMap::new() }
    }

    /// Binds `input` with the modifiers `keymods` to `action` (see `rebind`).
    pub fn bind(&mut self, input: Input, keymods: KeyMod, action: Command)
        ensures
            forall|other: Input|
                #[trigger] final(self).bound(other) == if other == input {
                    rebind(old(self).bound(input), keymods, action)
                } else {
                    old(self).bound(other)
                },
            old(self).well_ordered() ==> final(self).well_ordered(),
    {
        let key = input_key(input);
        let mut list: Vec<(KeyMod, Command)> = match self.bindings.remove(&key) {
            Some(v) => v,
            None => Vec::new(),
        };
        let ghost before = list@;
        proof {
            assert(before =~= old(self).bound(input));
        }
        let mut i: usize = 0;
        while i < list.len() && list[i].0 != keymods
            invariant
                i <= list.len(),
                list@ == before,
                forall|j: int| 0 <= j < i ==> (#[trigger] list@[j]).0 != keymods,
            decreases list.len() - i,
        {
            i += 1;
        }
        proof {
            lemma_first_index(before, for_mods(keymods), i as int);
        }
        if i < list.len() {
            list.set(i, (keymods, action));
        } else {
            let count = keymods.count();
            let mut index: usize = 0;
            while index < list.len() && count < list[index].0.count()
                invariant
                    index <= list.len(),
                    list@ == before,
                    count == popcount(keymods@),
                    forall|j: int|
                        0 <= j < index ==> !(count >= popcount((#[trigger] list@[j]).0@)),
                decreases list.len() - index,
            {
                index += 1;
            }
            proof {
                lemma_first_index(before, not_more_than(popcount(keymods@)), index as int);
            }
            list.insert(index, (keymods, action));
        }
        self.bindings.insert(key, list);
        proof {
            assert forall|other: Input|
                #[trigger] self.bound(other) == if other == input {
                    rebind(old(self).bound(input), keymods, action)
                } else {
                    old(self).bound(other)
                } by {
                if other != input {
                    assert(key_of(other) != key_of(input));
                }
            }
            if old(self).well_ordered() {
                assert(most_modifiers_first(old(self).bound(input)));
                lemma_rebind_keeps_order(old(self).bound(input), keymods, action);
                assert forall|other: Input| most_modifiers_first(#[trigger] self.bound(other)) by {
                    if other != input {
                        assert(most_modifiers_first(old(self).bound(other)));
                    }
                }
            }
        }
    }

    /// The command that `input` stands for while `keymods` are held: that of its
    /// first binding whose modifiers are all held.
    pub fn resolve(&self, input: Input, keymods: KeyMod) -> (r: Option<Command>)
        ensures
            r == resolution(self.bound(input), keymods),
    {
        let key = input_key(input);
        match self.bindings.get(&key) {
            Some(list) => {
                let mut i: usize = 0;
                while i < list.len()
                    invariant
                        i <= list.len(),
                        list@ == self.bound(input),
                        forall|j: int|
                            0 <= j < i ==> !(keymods@ & (#[trigger] list@[j]).0@ == list@[j].0@),
                    decreases list.len() - i,
                {
                    if keymods.contains(list[i].0) {
                        proof {
                            lemma_first_index(list@, held_in(keymods), i as int);
                        }
                        return Some(list[i].1);
                    }
                    i += 1;
                }
                proof {
                    lemma_first_index(list@, held_in(keymods), i as int);
                }
                None
            },
            None => {
                proof {
                    assert(self.bound(input) =~= Seq::<(KeyMod, Command)>::empty());
                }
                None
            },
        }
    }
}

impl Default for InputHandler {
    /// Control-alt-Q exits; W, A, S and D move north, west, south and east.
    fn default() -> (r: InputHandler)
        ensures
            r.well_ordered(),
            r.bound(Input::Key(KEY_Q)).len() == 1,
            r.bound(Input::Key(KEY_Q))[0].0@ == 0b0000_0110,
            r.bound(Input::Key(KEY_Q))[0].1 == Command::App(AppCommand::Exit),
            forall|k: u32|
                #![trigger r.bound(Input::Key(k))]
                k == KEY_W || k == KEY_A || k == KEY_S || k == KEY_D ==> {
                    &&& r.bound(Input::Key(k)).len() == 1
                    &&& r.bound(Input::Key(k))[0].0@ == 0
                    &&& r.bound(Input::Key(k))[0].1 == Command::Game(
                        GameCommand::Move(
                            if k == KEY_W {
                                Direction::N
                            } else if k == KEY_A {
                                Direction::W
                            } else if k == KEY_S {
                                Direction::S
                            } else {
                                Direction::E
                            },
                        ),
                    )
                },
            forall|input: Input|
                #![trigger r.bound(input)]
                input != Input::Key(KEY_Q) && input != Input::Key(KEY_W) && input != Input::Key(KEY_A)
                    && input != Input::Key(KEY_S) && input != Input::Key(KEY_D) ==> r.bound(input).len()
                    == 0,
    {
        let mut handler = InputHandler::new();
        handler.bind(
            Input::Key(KEY_Q),
            KeyMod::ctrl().union(KeyMod::alt()),
            Command::App(AppCommand::Exit),
        );
        handler.bind(Input::Key(KEY_W), KeyMod::none(), Command::Game(GameCommand::Move(Direction::N)));
        handler.bind(Input::Key(KEY_A), KeyMod::none(), Command::Game(GameCommand::Move(Direction::W)));
        handler.bind(Input::Key(KEY_S), KeyMod::none(), Command::Game(GameCommand::Move(Direction::S)));
        handler.bind(Input::Key(KEY_D), KeyMod::none(), Command::Game(GameCommand::Move(Direction::E)));
        proof {
            assert forall|list: Seq<(KeyMod, Command)>, m: KeyMod, c: Command|
                list.len() == 0 implies #[trigger] rebind(list, m, c) =~= seq![(m, c)] by {}
            assert((2u8 | 4u8) == 6u8) by (bit_vector);
        }
        handler
    }
}

} // verus!
