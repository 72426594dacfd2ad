//! One scheduler shared by many gates.
//!
//! [`SharedScheduler`] keeps a [`PrioScheduler`] behind a spin lock that
//! disables preemption and local interrupts while it is held. Every operation
//! takes the lock for one short critical section at a time and never holds it
//! across another acquisition, so a gate can be resumed from any execution
//! context.
//!
//! What another context does to the scheduler between two critical sections
//! is unknown here. The operations below therefore promise only what they do
//! to a gate they are handed; what they do to the scheduler is stated by the
//! operation of [`PrioFuture`] that each of them runs under the lock.

use crate::gate::{GateState, PrioFuture};
use crate::scheduler::PrioScheduler;
use crate::state::{Prio, SchedulerState, MAX_PRIO};
use core::future::Future;
use core::ops::DerefMut;
use kspin::{SpinNoIrq, SpinNoIrqGuard};
use vstd::prelude::*;

verus! {

/// The lock that `kspin::BaseSpinLock::new` returns when it is handed a
/// scheduler in state `sched`: unlocked, with that scheduler inside. It says
/// what a lock was built from, not what it holds later.
pub uninterp spec fn fresh_lock(sched: SchedulerState) -> SharedScheduler;

/// A scheduler behind a `kspin::SpinNoIrq` lock. The lock is opaque to the
/// verifier: nothing is assumed about the scheduler that comes out of it.
#[verifier::external_body]
pub struct SharedScheduler {
    lock: SpinNoIrq<PrioScheduler>,
}

/// Exclusive access to the scheduler, held from `SharedScheduler::lock` until
/// the value is dropped. It wraps `kspin::SpinNoIrqGuard`, whose drop releases
/// the lock.
#[verifier::external_body]
struct SchedulerGuard<'a> {
    guard: SpinNoIrqGuard<'a, PrioScheduler>,
}

impl SharedScheduler {
    /// A shared scheduler that starts out empty: a new, unlocked lock built
    /// around a scheduler with both tables empty and no clamp recorded.
    pub fn new() -> (shared: SharedScheduler)
        ensures
            shared == fresh_lock(SchedulerState::empty()),
    {
        SharedScheduler::wrap(PrioScheduler::new())
    }

    /// The most urgent contending level at the instant of the call: what
    /// [`PrioScheduler::cur_prio`] returns for the scheduler that the lock
    /// hands out. Which scheduler state that is depends on what every other
    /// context has done by then, so nothing is promised of the result here.
    pub fn cur_prio(&self) -> (ceiling: Option<Prio>) {
        let mut guard = self.lock();
        guard.sched_mut().cur_prio()
    }

    /// The first half of a resumption of `fut`: registers it on its first
    /// resumption, in one critical section, then reads the ceiling in another,
    /// and says whether the resumption is to be forwarded. A gate at the most
    /// urgent level is forwarded whatever the scheduler holds; for any other
    /// level the answer depends on what is contending when the ceiling is
    /// read.
    pub fn poll_enter<F: Future>(&self, fut: &mut PrioFuture<F>) -> (forward: bool)
        ensures
            final(fut)@ == (GateState { registered: true, ..old(fut)@ }),
            final(fut).inner() == old(fut).inner(),
            old(fut)@.level == 0 ==> forward,
    {
        if !fut.is_registered() {
            let mut guard = self.lock();
            fut.ensure_registered(guard.sched_mut());
        }
        let ceiling: Option<Prio> = self.cur_prio();
        fut.clears(ceiling)
    }

    /// The second half of a forwarded resumption of `fut`, in one critical
    /// section. `completed` says whether the computation finished or
    /// suspended.
    pub fn poll_exit<F: Future>(&self, fut: &PrioFuture<F>, completed: bool) {
        let mut guard = self.lock();
        fut.poll_exit(guard.sched_mut(), completed);
    }

    /// Moves `fut` to level `prio`, in one critical section.
    pub fn set_prio<F: Future>(&self, fut: &mut PrioFuture<F>, prio: Prio)
        requires
            prio <= MAX_PRIO,
        ensures
            final(fut)@ == (GateState { level: prio, ..old(fut)@ }),
            final(fut).inner() == old(fut).inner(),
    {
        let mut guard = self.lock();
        fut.set_prio(guard.sched_mut(), prio);
    }

    /// Takes `fut` out of the scheduler, in one critical section. A gate that
    /// never registered does not touch the lock.
    pub fn release<F>(&self, fut: &mut PrioFuture<F>)
        ensures
            final(fut)@ == (GateState { registered: false, ..old(fut)@ }),
            final(fut).inner() == old(fut).inner(),
    {
        if fut.is_registered() {
            let mut guard = self.lock();
            fut.release(guard.sched_mut());
        }
    }

    /// Gives up the lock and hands out the scheduler it protected, as the
    /// last critical section left it. Nothing is promised of its state here:
    /// it is whatever the operations on this lock have made of it.
    pub fn into_scheduler(self) -> (sched: PrioScheduler) {
        self.unwrap()
    }

    /// Calls `kspin::BaseSpinLock::new`, which stores `sched` in a new,
    /// unlocked lock and does nothing else. The result depends on `sched`
    /// alone, which is all the contract claims: it is the lock that
    /// [`fresh_lock`] names for the state of `sched`.
    #[verifier::external_body]
    fn wrap(sched: PrioScheduler) -> (shared: SharedScheduler)
        ensures
            shared == fresh_lock(sched@),
    {
        SharedScheduler { lock: SpinNoIrq::new(sched) }
    }

    /// Calls `kspin::BaseSpinLock::into_inner`, which consumes the lock and
    /// returns the data inside. Nothing is claimed of the result: other
    /// contexts may have changed the scheduler at any time before.
    #[verifier::external_body]
    fn unwrap(self) -> (sched: PrioScheduler) {
        self.lock.into_inner()
    }

    /// Calls `kspin::BaseSpinLock::lock`, which spins until the lock is free
    /// and returns a guard for the data. Nothing is claimed of the scheduler
    /// behind the guard.
    #[verifier::external_body]
    fn lock(&self) -> (guard: SchedulerGuard<'_>) {
        SchedulerGuard { guard: self.lock.lock() }
    }
}

impl<'a> SchedulerGuard<'a> {
    /// Calls `deref_mut` of `kspin::BaseSpinLockGuard`, which hands out the
    /// data the guard protects. Nothing is claimed of the scheduler it refers
    /// to.
    #[verifier::external_body]
    fn sched_mut(&mut self) -> (sched: &mut PrioScheduler) {
        self.guard.deref_mut()
    }
}

} // verus!
