//! Per-kind schedules: when each entity's behaviour window starts and ends, and
//! which entities of the kind are due in the current tick.
use vstd::prelude::*;

use specs::BitSet;
use std::collections::BTreeMap;
use std::marker::PhantomData;

use crate::duration::{Duration, MAX_NANOS};
use crate::time::{ClockView, DirectedTime, Instant, Timekeeper};

verus! {

broadcast use {vstd::std_specs::btree::group_btree_axioms, vstd::laws_cmp::group_laws_cmp};

/// The largest entity id plus one that a due set holds on every target.
pub const MAX_ENTITY_ID: u32 = 1_048_576;

#[verifier::external_type_specification]
#[verifier::external_body]
pub struct ExBitSet(BitSet);

/// The indices that a bit set holds.
pub uninterp spec fn bitset_contents(set: BitSet) -> Set<u32>;

/// Relies on hibitset's `BitSet::new` (re-exported by the specs crate): a new set is empty.
pub assume_specification[ BitSet::new ]() -> (r: BitSet)
    ensures
        bitset_contents(r) == Set::<u32>::empty(),
;

/// Relies on hibitset's `BitSet::add`: it sets the bit of `id` and returns whether
/// it was set already. It panics past its index limit, which is 2^20 on 32-bit
/// targets and 2^24 on 64-bit ones.
pub assume_specification[ BitSet::add ](set: &mut BitSet, id: u32) -> (r: bool)
    requires
        id < 1_048_576,
    ensures
        bitset_contents(*final(set)) == bitset_contents(*old(set)).insert(id),
        r == bitset_contents(*old(set)).contains(id),
;

/// Relies on hibitset's `BitSet::contains`: whether the bit of `id` is set.
pub assume_specification[ BitSet::contains ](set: &BitSet, id: u32) -> (r: bool)
    ensures
        r == bitset_contents(*set).contains(id),
;

/// Relies on hibitset's `BitSet::clear`: afterwards no bit is set.
pub assume_specification[ BitSet::clear ](set: &mut BitSet)
    ensures
        bitset_contents(*final(set)) == Set::<u32>::empty(),
;

/// The entities listed at instant `key`, in the order they were added.
pub open spec fn listed(m: Map<u128, Vec<u32>>, key: u128) -> Seq<u32> {
    if m.contains_key(key) {
        m[key]@
    } else {
        Seq::empty()
    }
}

/// The window of `duration` nanoseconds that an action recorded now occupies:
/// while the clock rewinds it ends now, otherwise it starts now.
pub open spec fn window(clock: ClockView, duration: nat) -> (nat, nat) {
    match clock.delta {
        DirectedTime::Past(_) => ((clock.elapsed - duration) as nat, clock.elapsed),
        _ => (clock.elapsed, clock.elapsed + duration),
    }
}

/// Whether the window of `duration` lies within the representable timeline.
pub open spec fn window_fits(clock: ClockView, duration: nat) -> bool {
    match clock.delta {
        DirectedTime::Past(_) => duration <= clock.elapsed,
        _ => clock.elapsed + duration <= MAX_NANOS,
    }
}

/// Appends `id` to the list at `key`.
fn append_at(map: &mut BTreeMap<u128, Vec<u32>>, key: u128, id: u32)
    ensures
        appended(old(map)@, final(map)@, key, id),
{
    let mut list = match map.remove(&key) {
        Some(v) => v,
        None => Vec::new(),
    };
    list.push(id);
    map.insert(key, list);
    proof {
        assert(map@.dom() =~= old(map)@.dom().insert(key));
        assert forall|k: u128|
            #[trigger] listed(map@, k) == if k == key {
                listed(old(map)@, k).push(id)
            } else {
                listed(old(map)@, k)
            } by {}
    }
}

/// `after` is `before` with `id` appended to the list at `key`.
pub open spec fn appended(before: Map<u128, Vec<u32>>, after: Map<u128, Vec<u32>>, key: u128, id: u32) -> bool {
    &&& after.dom() == before.dom().insert(key)
    &&& forall|k: u128|
        #[trigger] listed(after, k) == if k == key {
            listed(before, k).push(id)
        } else {
            listed(before, k)
        }
}

/// The schedule of one behaviour kind `T`.
pub struct TimingData<T> {
    pub(crate) phantom_data: PhantomData<T>,
    pub(crate) should_update: BitSet,
    pub(crate) starts: BTreeMap<u128, Vec<u32>>,
    pub(crate) ends: BTreeMap<u128, Vec<u32>>,
}

impl<T> TimingData<T> {
    /// The entities due in the current tick.
    pub open(crate) spec fn due(&self) -> Set<u32> {
        bitset_contents(self.should_update)
    }

    /// The instants at which some window starts, each with its entities.
    pub open(crate) spec fn starts(&self) -> Map<u128, Vec<u32>> {
        self.starts@
    }

    /// The instants at which some window ends, each with its entities.
    pub open(crate) spec fn ends(&self) -> Map<u128, Vec<u32>> {
        self.ends@
    }

    /// `self` is `before` with a window from `w.0` to `w.1` recorded for `entity`.
    pub open(crate) spec fn recorded_from(&self, before: &TimingData<T>, entity: u32, w: (nat, nat)) -> bool {
        &&& self.due() == before.due()
        &&& appended(before.starts(), self.starts(), w.0 as u128, entity)
        &&& appended(before.ends(), self.ends(), w.1 as u128, entity)
    }

    /// An empty schedule with nothing due.
    pub fn new() -> (r: TimingData<T>)
        ensures
            r.due() == Set::<u32>::empty(),
            r.starts() == Map::<u128, Vec<u32>>::empty(),
            r.ends() == Map::<u128, Vec<u32>>::empty(),
    {
        TimingData {
            phantom_data: PhantomData,
            should_update: BitSet::new(),
            starts: BTreeMap::new(),
            ends: BTreeMap::new(),
        }
    }

    /// Marks no entity due.
    pub fn clear_update_flags(&mut self)
        ensures
            final(self).due() == Set::<u32>::empty(),
            final(self).starts() == old(self).starts(),
            final(self).ends() == old(self).ends(),
    {
        self.should_update.clear();
    }

    /// Marks `entity` due.
    pub fn set_update_flag(&mut self, entity: u32)
        requires
            entity < MAX_ENTITY_ID,
        ensures
            final(self).due() == old(self).due().insert(entity),
            final(self).starts() == old(self).starts(),
            final(self).ends() == old(self).ends(),
    {
        self.should_update.add(entity);
    }

    /// Records a window of `duration` for `entity`, placed by the clock's current
    /// direction (see `window`), in the lists of its start and of its end instant.
    pub fn schedule(&mut self, entity: u32, time: &Timekeeper, duration: Duration)
        requires
            window_fits(time@, duration@),
        ensures
            final(self).recorded_from(old(self), entity, window(time@, duration@)),
    {
        time.check_valid();
        let now = time.now();
        let (start, end) = match time.delta() {
            DirectedTime::Past(_) => (now.minus(duration), now),
            _ => (now, now.plus(duration)),
        };
        append_at(&mut self.starts, start.since_epoch().as_nanos(), entity);
        append_at(&mut self.ends, end.since_epoch().as_nanos(), entity);
    }

    /// Whether `window_fits` holds, so that `schedule` may be called.
    pub fn can_schedule(time: &Timekeeper, duration: Duration) -> (r: bool)
        ensures
            r == window_fits(time@, duration@),
    {
        let elapsed = time.now().since_epoch().as_nanos();
        match time.delta() {
            DirectedTime::Past(_) => duration.as_nanos() <= elapsed,
            _ => duration.as_nanos() <= MAX_NANOS - elapsed,
        }
    }

    /// The set of entities due in the current tick.
    pub fn scheduled(&self) -> (r: &BitSet)
        ensures
            bitset_contents(*r) == self.due(),
    {
        &self.should_update
    }

    /// Whether `entity` is due in the current tick.
    pub fn is_due(&self, entity: u32) -> (r: bool)
        ensures
            r == self.due().contains(entity),
    {
        self.should_update.contains(entity)
    }

    /// The entities that start a window at `at`, in the order they were recorded.
    pub fn starting_at(&self, at: Instant) -> (r: Vec<u32>)
        ensures
            r@ == listed(self.starts(), at@ as u128),
    {
        match self.starts.get(&at.since_epoch().as_nanos()) {
            Some(v) => v.clone(),
            None => Vec::new(),
        }
    }

    /// The entities that end a window at `at`, in the order they were recorded.
    pub fn ending_at(&self, at: Instant) -> (r: Vec<u32>)
        ensures
            r@ == listed(self.ends(), at@ as u128),
    {
        match self.ends.get(&at.since_epoch().as_nanos()) {
            Some(v) => v.clone(),
            None => Vec::new(),
        }
    }
}

impl<T> Default for TimingData<T> {
    fn default() -> (r: TimingData<T>)
        ensures
            r.due() == Set::<u32>::empty(),
            r.starts() == Map::<u128, Vec<u32>>::empty(),
            r.ends() == Map::<u128, Vec<u32>>::empty(),
    {
        TimingData::new()
    }
}

/// The entities of `population` that are in `due`, in the order of `population`.
pub open spec fn due_among(population: Seq<u32>, due: Set<u32>) -> Seq<u32>
    decreases population.len(),
{
    if population.len() == 0 {
        Seq::empty()
    } else {
        let rest = due_among(population.drop_last(), due);
        if due.contains(population.last()) {
            rest.push(population.last())
        } else {
            rest
        }
    }
}

/// The due set that a tick with directed time `delta` gives a kind whose
/// entities are `population`: none while time stands still, all of them while
/// it moves in either direction.
pub open spec fn due_for(delta: DirectedTime, population: Seq<u32>) -> Set<u32> {
    match delta {
        DirectedTime::Still => Set::empty(),
        _ => population.to_set(),
    }
}

impl<T> TimingData<T> {
    /// The entities of `population` that are due, in the order of `population`.
    pub fn due_entities(&self, population: &Vec<u32>) -> (r: Vec<u32>)
        ensures
            r@ == due_among(population@, self.due()),
            population@.no_duplicates() ==> r@.no_duplicates(),
    {
        let mut r: Vec<u32> = Vec::new();
        let mut i: usize = 0;
        while i < population.len()
            invariant
                i <= population.len(),
                r@ == due_among(population@.subrange(0, i as int), self.due()),
                forall|k: int|
                    0 <= k < r.len() ==> exists|j: int|
                        0 <= j < i && population@[j] == #[trigger] r@[k],
                population@.no_duplicates() ==> r@.no_duplicates(),
            decreases population.len() - i,
        {
            let id = population[i];
            if self.should_update.contains(id) {
                let ghost before = r@;
                proof {
                    if population@.no_duplicates() {
                        assert forall|k: int| 0 <= k < before.len() implies before[k] != id by {
                            let j = choose|j: int| 0 <= j < i && population@[j] == #[trigger] before[k];
                            assert(population@[j] != population@[i as int]);
                        }
                    }
                }
                r.push(id);
                proof {
                    assert forall|k: int| 0 <= k < r.len() implies exists|j: int|
                        0 <= j < i + 1 && population@[j] == #[trigger] r@[k] by {
                        if k < before.len() {
                            let j = choose|j: int| 0 <= j < i && population@[j] == #[trigger] before[k];
                            assert(population@[j] == r@[k]);
                        } else {
                            assert(population@[i as int] == r@[k]);
                        }
                    }
                }
            }
            proof {
                assert(population@.subrange(0, i + 1).drop_last() =~= population@.subrange(
                    0,
                    i as int,
                ));
            }
            i += 1;
        }
        proof {
            assert(population@.subrange(0, population.len() as int) =~= population@);
        }
        r
    }
}

/// The step, run once per tick ahead of the kind's behaviours, that recomputes
/// the kind's due set from the clock.
pub struct TimingSystem<T> {
    pub(crate) phantom_data: PhantomData<T>,
}

impl<T> TimingSystem<T> {
    pub fn new() -> (r: TimingSystem<T>) {
        TimingSystem { phantom_data: PhantomData }
    }

    /// Replaces the due set of `timing_data` by `due_for` the clock's current
    /// delta; `population` lists the entities that carry the kind.
    pub fn run(&mut self, time: &Timekeeper, population: &Vec<u32>, timing_data: &mut TimingData<T>)
        requires
            forall|i: int| 0 <= i < population.len() ==> #[trigger] population[i] < MAX_ENTITY_ID,
        ensures
            final(timing_data).due() == due_for(time@.delta, population@),
            final(timing_data).starts() == old(timing_data).starts(),
            final(timing_data).ends() == old(timing_data).ends(),
    {
        timing_data.clear_update_flags();
        match time.delta() {
            DirectedTime::Still => {},
            _ => {
                let mut i: usize = 0;
                while i < population.len()
                    invariant
                        i <= population.len(),
                        forall|j: int| 0 <= j < population.len() ==> #[trigger] population[j] < MAX_ENTITY_ID,
                        timing_data.due() == population@.subrange(0, i as int).to_set(),
                        timing_data.starts() == old(timing_data).starts(),
                        timing_data.ends() == old(timing_data).ends(),
                    decreases population.len() - i,
                {
                    timing_data.set_update_flag(population[i]);
                    proof {
                        let done = population@.subrange(0, i as int);
                        assert(population@.subrange(0, i + 1) =~= done + seq![population[i as int]]);
                        Seq::<u32>::lemma_to_set_insert_commutes(done, population[i as int]);
                    }
                    i += 1;
                }
                proof {
                    assert(population@.subrange(0, population.len() as int) =~= population@);
                }
            },
        }
        proof {
            if time@.delta is Still {
                assert(timing_data.due() =~= Set::<u32>::empty());
            }
        }
    }
}

} // verus!
