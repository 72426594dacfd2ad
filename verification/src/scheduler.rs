//! The scheduling tables: which levels are contending, and which task sits at
//! which level.

use crate::laws::lemma_level_table_is_bounded;
use crate::state::{Prio, SchedulerState, MAX_PRIO, lemma_ceiling_characterized};
use crate::task_id::TaskId;
use std::collections::BTreeMap;
use vstd::prelude::*;
use vstd::std_specs::btree::increasing_seq;
use vstd::std_specs::cmp::OrdSpec;
use vstd::std_specs::iter::IteratorSpec;

verus! {

/// The shared scheduling state. Every operation is meant to run inside one
/// critical section; the scheduler itself never blocks or suspends.
pub struct PrioScheduler {
    prios: BTreeMap<Prio, u64>,
    tasks: BTreeMap<u64, Prio>,
    clamps: u64,
}

impl View for PrioScheduler {
    type V = SchedulerState;

    closed spec fn view(&self) -> SchedulerState {
        SchedulerState { active: self.prios@, tasks: self.tasks@, clamps: self.clamps }
    }
}

impl PrioScheduler {
    /// A scheduler with both tables empty.
    pub fn new() -> (sched: PrioScheduler)
        ensures
            sched@ == SchedulerState::empty(),
            sched@.wf(),
    {
        PrioScheduler { prios: BTreeMap::new(), tasks: BTreeMap::new(), clamps: 0 }
    }

    /// Marks task `id` as no longer active: its level loses one active count.
    /// A count of zero stays at zero and the clamp is recorded. Nothing
    /// changes if the task is not registered.
    pub fn park_task_prio(&mut self, id: TaskId)
        ensures
            final(self)@ == old(self)@.mark_inactive(id@),
            old(self)@.wf() ==> final(self)@.wf(),
    {
        let found: Option<Prio> = self.priority_of(id);
        if let Some(level) = found {
            self.lower(level);
        }
    }

    /// Marks task `id` as active again: its level gains one active count, and
    /// an entry that is absent is created at one. A count that has reached
    /// the top of `u64` stays there. Nothing changes if the task is not
    /// registered.
    pub fn unpark_task_prio(&mut self, id: TaskId)
        ensures
            final(self)@ == old(self)@.mark_active(id@),
            old(self)@.wf() ==> final(self)@.wf(),
    {
        let found: Option<Prio> = self.priority_of(id);
        if let Some(level) = found {
            self.raise(level);
        }
    }

    /// The most urgent level with a positive active count, if there is one.
    /// Entries whose count is zero are passed over.
    pub fn cur_prio(&self) -> (ceiling: Option<Prio>)
        ensures
            ceiling == self@.ceiling(),
            match ceiling {
                Some(level) => self@.is_ceiling(level),
                None => forall|q: Prio| !self@.contending(q),
            },
    {
        proof {
            lemma_ceiling_characterized(self@);
        }
        for entry in it: self.prios.iter()
            invariant
                it.seq() == self.prios.iter().remaining(),
                increasing_seq(it.seq().map_values(|kv: (&Prio, &u64)| *kv.0)),
                forall|i: int| 0 <= i < it.index() ==> *it.seq()[i].1 == 0,
        {
            if *entry.1 > 0 {
                proof {
                    let keys = it.seq().map_values(|kv: (&Prio, &u64)| *kv.0);
                    let at = it.index();
                    assert(it.seq()[at] == entry);
                    assert(self.prios@.contains_key(*it.seq()[at].0));
                    assert forall|q: Prio| q < *entry.0 implies !self@.contending(q) by {
                        if self.prios@.contains_key(q) {
                            let pair = (&q, &self.prios@[q]);
                            let j = choose|j: int| 0 <= j < it.seq().len() && it.seq()[j] == pair;
                            assert(it.seq().contains(pair));
                            assert(keys[j] == q);
                            assert(keys[at] == *entry.0);
                            if j > at {
                                assert(keys[at].cmp_spec(&keys[j]) is Less);
                            }
                        }
                    }
                    assert(self@.is_ceiling(*entry.0));
                }
                return Some(*entry.0);
            }
        }
        assert(forall|q: Prio| !self@.contending(q));
        None
    }

    /// Registers task `id` at level `prio` and counts it as active there. A
    /// count that has reached the top of `u64` stays there.
    pub fn insert(&mut self, prio: Prio, id: TaskId)
        ensures
            final(self)@ == old(self)@.register(prio, id@),
            old(self)@.wf() && prio <= MAX_PRIO ==> final(self)@.wf(),
    {
        self.raise(prio);
        self.tasks.insert(id.as_u64(), prio);
    }

    /// Moves task `id` from level `old_prio` to level `prio`: the old level
    /// loses one active count, the new level gains one, and the task table
    /// records the new level. An old count of zero stays at zero and the
    /// clamp is recorded; the old level keeps its entry even at zero.
    pub fn update(&mut self, old_prio: Prio, prio: Prio, id: TaskId)
        ensures
            final(self)@ == old(self)@.reprioritize(old_prio, prio, id@),
            old(self)@.wf() && prio <= MAX_PRIO ==> final(self)@.wf(),
    {
        self.lower(old_prio);
        self.raise(prio);
        self.tasks.insert(id.as_u64(), prio);
    }

    /// Removes task `id`. Its level loses one active count, with a clamp
    /// recorded where the count is zero already, and the level's entry is
    /// dropped once the count is zero. Removing a task that is not registered
    /// changes nothing.
    pub fn remove(&mut self, id: TaskId)
        ensures
            final(self)@ == old(self)@.deregister(id@),
            old(self)@.wf() ==> final(self)@.wf(),
    {
        let raw: u64 = id.as_u64();
        if let Some(level) = self.tasks.remove(&raw) {
            self.lower(level);
            if self.active_count(level) == 0 {
                self.prios.remove(&level);
            }
        }
        proof {
            let after = old(self)@.deregister(id@);
            assert(self@.active =~= after.active);
            assert(self@.tasks =~= after.tasks);
        }
    }

    /// The level at which task `id` is registered, if it is.
    pub fn priority_of(&self, id: TaskId) -> (level: Option<Prio>)
        ensures
            level == (if self@.tasks.contains_key(id@) {
                Some(self@.tasks[id@])
            } else {
                None
            }),
    {
        let raw: u64 = id.as_u64();
        match self.tasks.get(&raw) {
            Some(level) => Some(*level),
            None => None,
        }
    }

    /// The active count of `level`; zero where the level has no entry.
    pub fn active_count(&self, level: Prio) -> (count: u64)
        ensures
            count == self@.count(level),
    {
        match self.prios.get(&level) {
            Some(count) => *count,
            None => 0,
        }
    }

    /// How many levels have an entry in the level table. In a well-formed
    /// scheduler that is never more than the number of levels.
    pub fn level_count(&self) -> (n: usize)
        ensures
            n == self@.active.dom().len(),
            self@.wf() ==> n <= MAX_PRIO + 1,
    {
        proof {
            if self@.wf() {
                lemma_level_table_is_bounded(self@);
            }
        }
        self.prios.len()
    }

    /// How many tasks are registered.
    pub fn task_count(&self) -> (n: usize)
        ensures
            n == self@.tasks.dom().len(),
    {
        self.tasks.len()
    }

    /// How many times a decrement has found its count already at zero, in an
    /// entry or for want of one. The counter stops at the top of `u64`.
    pub fn clamp_events(&self) -> (n: u64)
        ensures
            n == self@.clamps,
    {
        self.clamps
    }

    /// Adds one to the count of `level`, creating the entry if it is absent.
    fn raise(&mut self, level: Prio)
        ensures
            final(self)@ == old(self)@.raised(level),
    {
        let count: u64 = self.active_count(level);
        self.prios.insert(level, count.saturating_add(1));
    }

    /// Takes one from the count of `level`. A count that is already zero, with
    /// or without an entry, stays as it is, and the clamp is recorded.
    fn lower(&mut self, level: Prio)
        ensures
            final(self)@ == old(self)@.lowered(level),
    {
        let count: u64 = self.active_count(level);
        if count > 0 {
            self.prios.insert(level, count - 1);
        } else {
            self.clamps = self.clamps.saturating_add(1);
        }
    }
}

} // verus!
