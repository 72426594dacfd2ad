//! What holds of gates and the scheduler whatever the tasks do.
//!
//! Each proof function below states one law over the model in
//! [`crate::state`] and [`crate::gate`], the same spec functions in which the
//! executable operations state what they do.

use crate::gate::GateState;
use crate::state::{Prio, SchedulerState, MAX_PRIO, lemma_ceiling_characterized};
use vstd::prelude::*;
use vstd::relations::injective_on;
use vstd::set_lib::{lemma_int_range, lemma_len_subset, lemma_map_size, set_int_range};

verus! {

/// The state reached from `sched` by registering the tasks of `regs` in
/// order, each given as its level and its identity.
pub open spec fn after_registrations(sched: SchedulerState, regs: Seq<(Prio, u64)>) -> SchedulerState
    decreases regs.len(),
{
    if regs.len() == 0 {
        sched
    } else {
        after_registrations(sched, regs.drop_last()).register(regs.last().0, regs.last().1)
    }
}

/// Registering tasks never lowers the active count of any level, so a level
/// that is contending stays contending through any sequence of registrations.
pub proof fn lemma_registrations_keep_contention(
    sched: SchedulerState,
    regs: Seq<(Prio, u64)>,
    level: Prio,
)
    ensures
        after_registrations(sched, regs).count(level) >= sched.count(level),
        sched.contending(level) ==> after_registrations(sched, regs).contending(level),
    decreases regs.len(),
{
    if regs.len() > 0 {
        lemma_registrations_keep_contention(sched, regs.drop_last(), level);
    }
}

/// While some level is contending, a gate at a strictly less urgent level is
/// held back: after any sequence of further registrations its resumption is
/// not forwarded, whether or not this is the resumption on which it registers
/// itself.
pub proof fn lemma_less_urgent_gate_is_held(
    sched: SchedulerState,
    regs: Seq<(Prio, u64)>,
    gate: GateState,
    urgent: Prio,
)
    requires
        sched.contending(urgent),
        urgent < gate.level,
    ensures
        !gate.entered(after_registrations(sched, regs)).admits(gate.level),
{
    lemma_registrations_keep_contention(sched, regs, urgent);
    let after = gate.entered(after_registrations(sched, regs));
    assert(after.contending(urgent));
    lemma_ceiling_characterized(after);
}

/// If no level other than `only` is contending, a gate at `only` or at a more
/// urgent level is let through.
pub proof fn lemma_equal_or_more_urgent_gate_passes(
    sched: SchedulerState,
    gate: GateState,
    only: Prio,
)
    requires
        forall|q: Prio| sched.contending(q) ==> q == only,
        gate.level <= only,
        only <= MAX_PRIO,
    ensures
        gate.entered(sched).admits(gate.level),
{
    let after = gate.entered(sched);
    lemma_ceiling_characterized(after);
    if let Some(c) = after.ceiling() {
        assert(after.is_ceiling(c));
        assert(after.contending(c));
        assert(c == gate.level || sched.contending(c));
    }
}

/// Releasing a registered gate removes its entry from the task table and
/// leaves every other task alone. Its level loses exactly one active count,
/// and where that was the last one the level's entry is gone, so no positive
/// count is left behind. Every other level keeps its entry as it was.
pub proof fn lemma_release_cleans_up(sched: SchedulerState, gate: GateState)
    requires
        gate.registered,
        sched.tasks.contains_key(gate.id),
    ensures
        ({
            let after = gate.released(sched);
            let level = sched.tasks[gate.id];
            &&& after.tasks == sched.tasks.remove(gate.id)
            &&& !after.tasks.contains_key(gate.id)
            &&& sched.count(level) <= 1 ==> !after.active.contains_key(level)
            &&& sched.count(level) > 1 ==> after.count(level) == sched.count(level) - 1
            &&& forall|q: Prio|
                q != level ==> after.active.contains_key(q) == sched.active.contains_key(q)
                    && after.count(q) == sched.count(q)
        }),
{
}

/// A gate that registers, completes on that same resumption and is then
/// released leaves one active count behind at its level: registration and
/// completion each add one, release takes one back. The task table is as if
/// this gate had never been there, no other level is touched, and its level
/// keeps contending, so every strictly less urgent gate is held back from
/// then on.
pub proof fn lemma_completion_at_once_leaves_a_count(sched: SchedulerState, gate: GateState)
    requires
        !gate.registered,
        sched.count(gate.level) + 1 < u64::MAX,
    ensures
        ({
            let inside = GateState { registered: true, ..gate };
            let after = inside.released(inside.settled(gate.entered(sched), true));
            &&& after.tasks == sched.tasks.remove(gate.id)
            &&& after.count(gate.level) == sched.count(gate.level) + 1
            &&& after.contending(gate.level)
            &&& after.clamps == sched.clamps
            &&& forall|q: Prio|
                q != gate.level ==> after.active.contains_key(q) == sched.active.contains_key(q)
                    && after.count(q) == sched.count(q)
            &&& forall|q: Prio| gate.level < q ==> !after.admits(q)
        }),
{
    let inside = GateState { registered: true, ..gate };
    let after = inside.released(inside.settled(gate.entered(sched), true));
    assert(after.tasks =~= sched.tasks.remove(gate.id));
    assert(after.contending(gate.level));
    lemma_ceiling_characterized(after);
    let top = after.ceiling();
    assert(top is Some);
    assert(after.is_ceiling(top->0));
    assert(top->0 <= gate.level);
}

/// A gate that registers, suspends once, completes on its next resumption
/// and is then released leaves nothing behind: its level has the count it
/// had before, without an entry if that count is zero, and the task table is
/// as if this gate had never been there.
pub proof fn lemma_completion_after_suspension_leaves_nothing(
    sched: SchedulerState,
    gate: GateState,
)
    requires
        !gate.registered,
        sched.count(gate.level) < u64::MAX,
    ensures
        ({
            let inside = GateState { registered: true, ..gate };
            let suspended = inside.settled(gate.entered(sched), false);
            let after = inside.released(inside.settled(suspended, true));
            &&& after.tasks == sched.tasks.remove(gate.id)
            &&& after.count(gate.level) == sched.count(gate.level)
            &&& sched.count(gate.level) == 0 ==> !after.active.contains_key(gate.level)
            &&& after.clamps == sched.clamps
            &&& forall|q: Prio|
                q != gate.level ==> after.active.contains_key(q) == sched.active.contains_key(q)
                    && after.count(q) == sched.count(q)
        }),
{
    let inside = GateState { registered: true, ..gate };
    let suspended = inside.settled(gate.entered(sched), false);
    let after = inside.released(inside.settled(suspended, true));
    assert(after.tasks =~= sched.tasks.remove(gate.id));
}

/// Releasing a gate that never registered changes nothing, and so does
/// removing a task that is not in the task table. Removing a task twice is the
/// same as removing it once.
pub proof fn lemma_release_is_idempotent(sched: SchedulerState, gate: GateState, id: u64)
    ensures
        !gate.registered ==> gate.released(sched) == sched,
        !sched.tasks.contains_key(id) ==> sched.deregister(id) == sched,
        sched.deregister(id).deregister(id) == sched.deregister(id),
{
}

/// Moving a registered gate from a contending level to a different level
/// takes exactly one active count from the old level and gives exactly one to
/// the new level. Every other level keeps its count and the task table
/// records the new level. The ceiling read next reflects the move: it is at
/// least as urgent as the new level, it is the new level if that is more
/// urgent than all that was contending, and the old level only still counts
/// if it had more than one active task.
pub proof fn lemma_reprioritize_moves_one_count(sched: SchedulerState, gate: GateState, level: Prio)
    requires
        gate.registered,
        gate.level != level,
        sched.contending(gate.level),
        sched.count(level) < u64::MAX,
    ensures
        ({
            let after = gate.moved(sched, level);
            &&& after.count(gate.level) == sched.count(gate.level) - 1
            &&& after.count(level) == sched.count(level) + 1
            &&& forall|q: Prio| q != gate.level && q != level ==> after.count(q) == sched.count(q)
            &&& after.tasks == sched.tasks.insert(gate.id, level)
            &&& after.contending(gate.level) <==> sched.count(gate.level) > 1
            &&& after.ceiling() matches Some(c) && c <= level
            &&& (forall|q: Prio| sched.contending(q) ==> level < q) ==> after.ceiling() == Some(
                level,
            )
        }),
{
    let after = gate.moved(sched, level);
    lemma_ceiling_characterized(after);
    assert(after.contending(level));
    if forall|q: Prio| sched.contending(q) ==> level < q {
        assert forall|q: Prio| q < level implies !after.contending(q) by {
            assert(after.count(q) == sched.count(q));
            assert(!sched.contending(q));
        }
        assert(after.is_ceiling(level));
    }
}

/// The level table of a well-formed state has at most `MAX_PRIO + 1` entries.
pub proof fn lemma_level_table_is_bounded(sched: SchedulerState)
    requires
        sched.wf(),
    ensures
        sched.active.dom().len() <= MAX_PRIO + 1,
{
    let levels = sched.active.dom();
    let widen = |p: Prio| p as int;
    let wide = levels.map(widen);
    let all = set_int_range(0, MAX_PRIO + 1);
    assert(injective_on(widen, levels));
    lemma_map_size(levels, wide, widen);
    lemma_int_range(0, MAX_PRIO + 1);
    assert forall|i: int| wide.contains(i) implies all.contains(i) by {
        let p = choose|p: Prio| levels.contains(p) && widen(p) == i;
        assert(sched.active.contains_key(p));
    }
    lemma_len_subset(wide, all);
}

/// The empty state is well-formed, and every operation keeps a well-formed
/// state well-formed as long as the levels handed to it are in range. However
/// many tasks come and go, the level table therefore stays bounded.
pub proof fn lemma_operations_keep_well_formed(
    sched: SchedulerState,
    level: Prio,
    old_level: Prio,
    id: u64,
)
    requires
        sched.wf(),
        level <= MAX_PRIO,
    ensures
        SchedulerState::empty().wf(),
        sched.register(level, id).wf(),
        sched.deregister(id).wf(),
        sched.mark_active(id).wf(),
        sched.mark_inactive(id).wf(),
        sched.reprioritize(old_level, level, id).wf(),
{
}

} // verus!
