//! The mathematical model of the scheduling tables.
//!
//! Everything the executable scheduler promises is stated over
//! [`SchedulerState`]: two maps and a counter, with one spec function for each
//! operation.

use vstd::prelude::*;

verus! {

/// A priority level. Lower numbers are more urgent.
pub type Prio = u8;

/// The least urgent level. Levels range over `0..=MAX_PRIO`.
pub const MAX_PRIO: Prio = 31;

/// One more than `count`, stopping at the top of `u64`.
pub open spec fn bump(count: u64) -> u64 {
    if count < u64::MAX {
        (count + 1) as u64
    } else {
        count
    }
}

/// Whether a task at `level` may advance under `ceiling`: it may unless the
/// ceiling is strictly more urgent. Without a ceiling the least urgent level
/// stands in for it.
pub open spec fn passes(level: Prio, ceiling: Option<Prio>) -> bool {
    match ceiling {
        Some(c) => level <= c,
        None => level <= MAX_PRIO,
    }
}

/// What the scheduler holds at one instant.
pub struct SchedulerState {
    /// For each level that has an entry, how many of its tasks count as active.
    /// An entry may hold zero.
    pub active: Map<Prio, u64>,
    /// The level of every registered task, keyed by the task's identity.
    pub tasks: Map<u64, Prio>,
    /// How many times a decrement found its count already at zero, whether
    /// in an entry or for want of one.
    pub clamps: u64,
}

impl SchedulerState {
    /// The state with no entries at all.
    pub open spec fn empty() -> SchedulerState {
        SchedulerState { active: Map::empty(), tasks: Map::empty(), clamps: 0 }
    }

    /// Every level that occurs lies in `0..=MAX_PRIO`, and both tables are
    /// finite.
    pub open spec fn wf(self) -> bool {
        &&& self.active.dom().finite()
        &&& self.tasks.dom().finite()
        &&& forall|p: Prio| #[trigger] self.active.contains_key(p) ==> p <= MAX_PRIO
        &&& forall|t: u64| #[trigger] self.tasks.contains_key(t) ==> self.tasks[t] <= MAX_PRIO
    }

    /// The active count of `level`; zero where the level has no entry.
    pub open spec fn count(self, level: Prio) -> u64 {
        if self.active.contains_key(level) {
            self.active[level]
        } else {
            0
        }
    }

    /// Whether at least one task at `level` counts as active.
    pub open spec fn contending(self, level: Prio) -> bool {
        self.count(level) > 0
    }

    /// Whether `level` is the most urgent level that is contending.
    pub open spec fn is_ceiling(self, level: Prio) -> bool {
        &&& self.contending(level)
        &&& forall|q: Prio| q < level ==> !self.contending(q)
    }

    /// The most urgent contending level, if any level is contending.
    pub open spec fn ceiling(self) -> Option<Prio> {
        if exists|p: Prio| self.is_ceiling(p) {
            Some(choose|p: Prio| self.is_ceiling(p))
        } else {
            None
        }
    }

    /// Whether a task at `level` may advance: no strictly more urgent level is
    /// contending. With nothing contending at all, every level in range may
    /// advance.
    pub open spec fn admits(self, level: Prio) -> bool {
        passes(level, self.ceiling())
    }

    /// The count of `level` goes up by one; an absent entry is created at one.
    pub open spec fn raised(self, level: Prio) -> SchedulerState {
        SchedulerState { active: self.active.insert(level, bump(self.count(level))), ..self }
    }

    /// The count of `level` goes down by one. A count that is already zero,
    /// with or without an entry, stays as it is and the clamp counter records
    /// the event.
    pub open spec fn lowered(self, level: Prio) -> SchedulerState {
        if self.count(level) > 0 {
            SchedulerState {
                active: self.active.insert(level, (self.count(level) - 1) as u64),
                ..self
            }
        } else {
            SchedulerState { clamps: bump(self.clamps), ..self }
        }
    }

    /// The entry of `level` is dropped if its count is zero.
    pub open spec fn pruned(self, level: Prio) -> SchedulerState {
        if self.count(level) == 0 {
            SchedulerState { active: self.active.remove(level), ..self }
        } else {
            self
        }
    }

    /// Task `id` enters the task table at `level` and counts as active there.
    pub open spec fn register(self, level: Prio, id: u64) -> SchedulerState {
        SchedulerState { tasks: self.tasks.insert(id, level), ..self.raised(level) }
    }

    /// Task `id` leaves the task table. Its level loses one active count, and
    /// the level's entry goes away once that count is zero. Nothing changes if
    /// the task is not registered.
    pub open spec fn deregister(self, id: u64) -> SchedulerState {
        if self.tasks.contains_key(id) {
            let level = self.tasks[id];
            SchedulerState { tasks: self.tasks.remove(id), ..self.lowered(level).pruned(level) }
        } else {
            self
        }
    }

    /// The level of task `id` gains one active count, provided the task is
    /// registered; an absent entry is created at one.
    pub open spec fn mark_active(self, id: u64) -> SchedulerState {
        if self.tasks.contains_key(id) {
            self.raised(self.tasks[id])
        } else {
            self
        }
    }

    /// The level of task `id` loses one active count, provided the task is
    /// registered.
    pub open spec fn mark_inactive(self, id: u64) -> SchedulerState {
        if self.tasks.contains_key(id) {
            self.lowered(self.tasks[id])
        } else {
            self
        }
    }

    /// Task `id` moves from `old_level` to `new_level`: the old level loses one
    /// active count, the new level gains one, and the task table records the
    /// new level.
    pub open spec fn reprioritize(self, old_level: Prio, new_level: Prio, id: u64) -> SchedulerState {
        SchedulerState {
            tasks: self.tasks.insert(id, new_level),
            ..self.lowered(old_level).raised(new_level)
        }
    }
}

/// At most one level is the ceiling.
pub proof fn lemma_ceiling_unique(s: SchedulerState, p: Prio, q: Prio)
    requires
        s.is_ceiling(p),
        s.is_ceiling(q),
    ensures
        p == q,
{
}

/// If any level at or below `level` is contending, some level is the ceiling.
proof fn lemma_ceiling_below(s: SchedulerState, level: Prio)
    requires
        exists|q: Prio| q <= level && s.contending(q),
    ensures
        exists|p: Prio| p <= level && s.is_ceiling(p),
    decreases level,
{
    if exists|q: Prio| q < level && s.contending(q) {
        let q = choose|q: Prio| q < level && s.contending(q);
        assert(q <= (level - 1) as Prio && s.contending(q));
        lemma_ceiling_below(s, (level - 1) as Prio);
    } else {
        assert(s.is_ceiling(level));
    }
}

/// The ceiling is `Some(p)` exactly when `p` is the most urgent contending
/// level, and `None` exactly when no level is contending.
pub proof fn lemma_ceiling_characterized(s: SchedulerState)
    ensures
        forall|p: Prio| s.ceiling() == Some(p) <==> s.is_ceiling(p),
        s.ceiling() is None <==> forall|q: Prio| !s.contending(q),
{
    if exists|q: Prio| s.contending(q) {
        let q = choose|q: Prio| s.contending(q);
        assert(q <= q && s.contending(q));
        lemma_ceiling_below(s, q);
    }
    if exists|p: Prio| s.is_ceiling(p) {
        let c = choose|p: Prio| s.is_ceiling(p);
        assert forall|p: Prio| s.is_ceiling(p) implies s.ceiling() == Some(p) by {
            lemma_ceiling_unique(s, p, c);
        }
    }
}

} // verus!
