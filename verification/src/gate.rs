//! The priority gate: one asynchronous computation, the level it runs at, and
//! the bookkeeping that decides on every resumption whether it may advance.
//!
//! Such a gate never resumes the computation itself. The executor asks
//! [`PrioFuture::poll_enter`] whether to forward a resumption, resumes the
//! computation if so, and reports the outcome to [`PrioFuture::poll_exit`].

use crate::scheduler::PrioScheduler;
use crate::state::{passes, Prio, SchedulerState, MAX_PRIO};
use crate::task_id::{TaskId, TaskIdAllocator};
use core::future::Future;
use vstd::prelude::*;

verus! {

/// What a gate knows about itself, apart from the computation it wraps.
pub struct GateState {
    /// The level this gate currently runs at.
    pub level: Prio,
    /// The identity under which this gate registers.
    pub id: u64,
    /// Whether this gate has entered the scheduler's task table.
    pub registered: bool,
}

impl GateState {
    /// Its level lies in `0..=MAX_PRIO`.
    pub open spec fn wf(self) -> bool {
        self.level <= MAX_PRIO
    }

    /// The scheduler state after this gate has made sure it is registered:
    /// unchanged if it was registered already, with it registered otherwise.
    pub open spec fn entered(self, sched: SchedulerState) -> SchedulerState {
        if self.registered {
            sched
        } else {
            sched.register(self.level, self.id)
        }
    }

    /// The scheduler state after this gate has learnt how a forwarded
    /// resumption ended. A computation that completed counts as active again;
    /// one that suspended counts as inactive.
    pub open spec fn settled(self, sched: SchedulerState, completed: bool) -> SchedulerState {
        if completed {
            sched.mark_active(self.id)
        } else {
            sched.mark_inactive(self.id)
        }
    }

    /// The scheduler state after this gate has moved to `level`. A gate that is
    /// not registered yet leaves the scheduler alone.
    pub open spec fn moved(self, sched: SchedulerState, level: Prio) -> SchedulerState {
        if self.registered {
            sched.reprioritize(self.level, level, self.id)
        } else {
            sched
        }
    }

    /// The scheduler state after this gate is gone. A gate that never
    /// registered leaves the scheduler alone.
    pub open spec fn released(self, sched: SchedulerState) -> SchedulerState {
        if self.registered {
            sched.deregister(self.id)
        } else {
            sched
        }
    }
}

/// A computation of type `F` behind a priority gate.
pub struct PrioFuture<F> {
    inner: F,
    prio: Prio,
    id: TaskId,
    registered: bool,
}

impl<F> View for PrioFuture<F> {
    type V = GateState;

    closed spec fn view(&self) -> GateState {
        GateState { level: self.prio, id: self.id@, registered: self.registered }
    }
}

impl<F: Future> PrioFuture<F> {
    /// Puts `fut` behind a gate at level `prio`, under a fresh identity taken
    /// from `ids`. The new gate is not registered until its first resumption.
    pub fn new(fut: F, prio: Prio, ids: &mut TaskIdAllocator) -> (gate: PrioFuture<F>)
        requires
            prio <= MAX_PRIO,
        ensures
            gate@ == (GateState { level: prio, id: old(ids).next_raw(), registered: false }),
            gate.inner() == fut,
            final(ids).next_raw() == old(ids).following_raw(),
    {
        PrioFuture { inner: fut, prio, id: TaskId::new(ids), registered: false }
    }

    /// Moves this gate to level `prio`. A registered gate moves its active
    /// count along; a gate that has not registered yet only remembers the new
    /// level.
    pub fn set_prio(&mut self, sched: &mut PrioScheduler, prio: Prio)
        requires
            prio <= MAX_PRIO,
        ensures
            final(self)@ == (GateState { level: prio, ..old(self)@ }),
            final(self).inner() == old(self).inner(),
            final(sched)@ == old(self)@.moved(old(sched)@, prio),
            old(sched)@.wf() ==> final(sched)@.wf(),
    {
        let old_prio: Prio = self.prio;
        self.prio = prio;
        if self.registered {
            sched.update(old_prio, prio, self.id);
        }
    }

    /// Registers this gate with `sched` unless it is registered already.
    pub fn ensure_registered(&mut self, sched: &mut PrioScheduler)
        ensures
            final(self)@ == (GateState { registered: true, ..old(self)@ }),
            final(self).inner() == old(self).inner(),
            final(sched)@ == old(self)@.entered(old(sched)@),
            old(sched)@.wf() && old(self)@.wf() ==> final(sched)@.wf(),
    {
        if !self.registered {
            sched.insert(self.prio, self.id);
            self.registered = true;
        }
    }

    /// Whether a resumption is to be forwarded, given the ceiling that was
    /// just read: it is held back only if the ceiling is strictly more urgent
    /// than this gate's level.
    pub fn clears(&self, ceiling: Option<Prio>) -> (forward: bool)
        ensures
            forward == passes(self@.level, ceiling),
    {
        let highest: Prio = match ceiling {
            Some(level) => level,
            None => MAX_PRIO,
        };
        self.prio <= highest
    }

    /// The first half of a resumption. Registers this gate if this is its first
    /// resumption, then reads the ceiling. Returns `true` if the resumption is
    /// to be forwarded to the computation, `false` if it is held back
    /// because a strictly more urgent level is contending.
    pub fn poll_enter(&mut self, sched: &mut PrioScheduler) -> (forward: bool)
        ensures
            final(self)@ == (GateState { registered: true, ..old(self)@ }),
            final(self).inner() == old(self).inner(),
            final(sched)@ == old(self)@.entered(old(sched)@),
            forward == final(sched)@.admits(old(self)@.level),
            old(sched)@.wf() && old(self)@.wf() ==> final(sched)@.wf(),
    {
        self.ensure_registered(sched);
        let ceiling: Option<Prio> = sched.cur_prio();
        self.clears(ceiling)
    }

    /// The second half of a forwarded resumption. `completed` says whether
    /// the computation finished or suspended.
    pub fn poll_exit(&self, sched: &mut PrioScheduler, completed: bool)
        ensures
            final(sched)@ == self@.settled(old(sched)@, completed),
            old(sched)@.wf() ==> final(sched)@.wf(),
    {
        if completed {
            sched.unpark_task_prio(self.id);
        } else {
            sched.park_task_prio(self.id);
        }
    }
}

impl<F> PrioFuture<F> {
    /// The computation behind this gate.
    pub closed spec fn inner(&self) -> F {
        self.inner
    }

    /// Takes this gate out of the scheduler. To be called when it is
    /// destroyed, however far the computation got. Releasing a gate that never
    /// registered, or releasing twice, changes nothing in the scheduler.
    pub fn release(&mut self, sched: &mut PrioScheduler)
        ensures
            final(self)@ == (GateState { registered: false, ..old(self)@ }),
            final(self).inner() == old(self).inner(),
            final(sched)@ == old(self)@.released(old(sched)@),
            old(sched)@.wf() ==> final(sched)@.wf(),
    {
        if self.registered {
            sched.remove(self.id);
            self.registered = false;
        }
    }

    /// The level this gate currently runs at.
    pub fn prio(&self) -> (level: Prio)
        ensures
            level == self@.level,
    {
        self.prio
    }

    /// The identity under which this gate registers.
    pub fn id(&self) -> (id: TaskId)
        ensures
            id@ == self@.id,
    {
        self.id
    }

    /// Whether this gate has registered with a scheduler.
    pub fn is_registered(&self) -> (registered: bool)
        ensures
            registered == self@.registered,
    {
        self.registered
    }

    /// The computation behind this gate, for the executor to resume in place.
    /// Its level, identity and registration are untouched by whatever
    /// the executor does to the computation.
    pub fn inner_mut(&mut self) -> (inner: &mut F)
        ensures
            *inner == old(self).inner(),
            final(self).inner() == *final(inner),
            final(self)@ == old(self)@,
    {
        &mut self.inner
    }
}

} // verus!
