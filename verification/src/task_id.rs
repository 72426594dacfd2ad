//! Task identities and the counter that issues them.

use core::cmp::Ordering;
use vstd::prelude::*;
use vstd::std_specs::cmp::PartialOrdSpecImpl;

verus! {

/// The identity of one gated task. Identities are only ever used as lookup
/// keys; the number inside carries no other meaning.
#[derive(Clone, Copy, PartialEq, Eq, Ord, Structural, Debug)]
pub struct TaskId(u64);

impl View for TaskId {
    type V = u64;

    closed spec fn view(&self) -> u64 {
        self.0
    }
}

impl PartialOrd for TaskId {
    /// Identities are ordered by their numbers.
    fn partial_cmp(&self, other: &TaskId) -> (order: Option<Ordering>) {
        if self.0 < other.0 {
            Some(Ordering::Less)
        } else if self.0 == other.0 {
            Some(Ordering::Equal)
        } else {
            Some(Ordering::Greater)
        }
    }
}

impl PartialOrdSpecImpl for TaskId {
    open spec fn obeys_partial_cmp_spec() -> bool {
        true
    }

    open spec fn partial_cmp_spec(&self, other: &TaskId) -> Option<Ordering> {
        if self@ < other@ {
            Some(Ordering::Less)
        } else if self@ == other@ {
            Some(Ordering::Equal)
        } else {
            Some(Ordering::Greater)
        }
    }
}

impl TaskId {
    /// Takes the next identity from `ids`.
    pub fn new(ids: &mut TaskIdAllocator) -> (id: TaskId)
        ensures
            id@ == old(ids).next_raw(),
            final(ids).next_raw() == old(ids).following_raw(),
    {
        let raw: u64 = ids.next;
        ids.next = raw.wrapping_add(1);
        TaskId(raw)
    }

    /// The identity as a plain number.
    pub fn as_u64(&self) -> (raw: u64)
        ensures
            raw == self@,
    {
        self.0
    }
}

/// The source of task identities: a counter that starts at one and hands out
/// each number once, in increasing order.
pub struct TaskIdAllocator {
    next: u64,
}

impl TaskIdAllocator {
    /// The number that the next identity will carry.
    pub closed spec fn next_raw(&self) -> u64 {
        self.next
    }

    /// The number that the identity after the next one will carry. The counter
    /// wraps to zero once the full width of `u64` is used up.
    pub open spec fn following_raw(&self) -> int {
        if self.next_raw() == u64::MAX {
            0
        } else {
            self.next_raw() + 1
        }
    }

    /// Whether `id` is among the identities handed out so far, as long as the
    /// counter has not wrapped.
    pub open spec fn has_issued(&self, id: TaskId) -> bool {
        1 <= id@ < self.next_raw()
    }

    /// A fresh counter. The first identity it hands out is one.
    pub fn new() -> (ids: TaskIdAllocator)
        ensures
            ids.next_raw() == 1,
    {
        TaskIdAllocator { next: 1 }
    }

    /// A counter that resumes at `next`: the first identity it hands out
    /// carries that number, and every smaller one counts as handed out
    /// already.
    pub fn starting_at(next: u64) -> (ids: TaskIdAllocator)
        ensures
            ids.next_raw() == next,
    {
        TaskIdAllocator { next }
    }
}

/// Two identities that carry the same number are the same identity.
pub proof fn lemma_same_number_same_id(a: TaskId, b: TaskId)
    ensures
        a@ == b@ <==> a == b,
{
}

/// An identity taken from a counter that has not run out is strictly greater
/// than every identity the counter has handed out before, and counts as handed
/// out afterwards.
pub proof fn lemma_fresh_id_exceeds_issued(
    before: TaskIdAllocator,
    after: TaskIdAllocator,
    fresh: TaskId,
    earlier: TaskId,
)
    requires
        before.next_raw() < u64::MAX,
        fresh@ == before.next_raw(),
        after.next_raw() == before.following_raw(),
        before.has_issued(earlier),
    ensures
        earlier@ < fresh@,
        after.has_issued(earlier),
        before.next_raw() >= 1 ==> after.has_issued(fresh),
{
}

} // verus!
