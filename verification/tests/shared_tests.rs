use prio_gate::gate::PrioFuture;
use prio_gate::shared::SharedScheduler;
use prio_gate::task_id::TaskIdAllocator;
use std::future::ready;

#[test]
fn new_shared_scheduler_is_empty() {
    let shared = SharedScheduler::new();
    assert_eq!(shared.cur_prio(), None);
    let sched = shared.into_scheduler();
    assert_eq!(sched.level_count(), 0);
    assert_eq!(sched.task_count(), 0);
}

#[test]
fn shared_scheduler_keeps_what_was_registered() {
    let mut ids = TaskIdAllocator::new();
    let shared = SharedScheduler::new();
    let mut fut = PrioFuture::new(ready(()), 9, &mut ids);
    assert!(shared.poll_enter(&mut fut));
    assert!(fut.is_registered());
    assert_eq!(shared.cur_prio(), Some(9));
    // The lock is free again after every operation.
    assert_eq!(shared.cur_prio(), Some(9));
    let sched = shared.into_scheduler();
    assert_eq!(sched.priority_of(fut.id()), Some(9));
    assert_eq!(sched.active_count(9), 1);
    assert_eq!(sched.task_count(), 1);
}

#[test]
fn shared_two_gates_take_turns() {
    let mut ids = TaskIdAllocator::new();
    let shared = SharedScheduler::new();
    let mut x = PrioFuture::new(ready(()), 5, &mut ids);
    let mut y = PrioFuture::new(ready(()), 10, &mut ids);

    assert!(shared.poll_enter(&mut x));
    assert_eq!(shared.cur_prio(), Some(5));
    assert!(!shared.poll_enter(&mut y));
    assert!(y.is_registered());

    shared.poll_exit(&x, false);
    assert!(shared.poll_enter(&mut y));
    shared.poll_exit(&y, false);
    assert_eq!(shared.cur_prio(), None);

    shared.release(&mut x);
    assert!(!x.is_registered());
    assert!(shared.poll_enter(&mut y));
    shared.poll_exit(&y, true);
    assert_eq!(shared.cur_prio(), Some(10));
    shared.release(&mut y);

    let sched = shared.into_scheduler();
    assert_eq!(sched.level_count(), 0);
    assert_eq!(sched.task_count(), 0);
    assert_eq!(sched.cur_prio(), None);
}

#[test]
fn shared_release_of_unregistered_gate_is_a_no_op() {
    let mut ids = TaskIdAllocator::new();
    let shared = SharedScheduler::new();
    let mut other = PrioFuture::new(ready(()), 5, &mut ids);
    let mut never = PrioFuture::new(ready(()), 5, &mut ids);
    assert!(shared.poll_enter(&mut other));
    shared.release(&mut never);
    shared.release(&mut never);
    assert!(!never.is_registered());
    let sched = shared.into_scheduler();
    assert_eq!(sched.active_count(5), 1);
    assert_eq!(sched.priority_of(other.id()), Some(5));
    assert_eq!(sched.task_count(), 1);
}

#[test]
fn shared_set_prio_moves_the_count() {
    let mut ids = TaskIdAllocator::new();
    let shared = SharedScheduler::new();
    let mut a = PrioFuture::new(ready(()), 8, &mut ids);
    let mut b = PrioFuture::new(ready(()), 8, &mut ids);
    shared.set_prio(&mut b, 12);
    assert_eq!(b.prio(), 12);
    assert_eq!(shared.cur_prio(), None);
    assert!(shared.poll_enter(&mut a));
    assert!(!shared.poll_enter(&mut b));
    shared.set_prio(&mut b, 1);
    assert_eq!(shared.cur_prio(), Some(1));
    assert!(shared.poll_enter(&mut b));
    assert!(!shared.poll_enter(&mut a));
    let sched = shared.into_scheduler();
    assert_eq!(sched.active_count(8), 1);
    assert_eq!(sched.active_count(12), 0);
    assert_eq!(sched.active_count(1), 1);
    assert_eq!(sched.priority_of(b.id()), Some(1));
}

#[test]
fn shared_most_urgent_level_is_always_forwarded() {
    let mut ids = TaskIdAllocator::new();
    let shared = SharedScheduler::new();
    let mut a = PrioFuture::new(ready(()), 0, &mut ids);
    let mut b = PrioFuture::new(ready(()), 0, &mut ids);
    let mut c = PrioFuture::new(ready(()), 1, &mut ids);
    assert!(shared.poll_enter(&mut c));
    assert!(shared.poll_enter(&mut a));
    assert!(shared.poll_enter(&mut b));
    assert!(!shared.poll_enter(&mut c));
    shared.poll_exit(&a, false);
    assert!(shared.poll_enter(&mut a));
    assert!(shared.poll_enter(&mut b));
    shared.poll_exit(&b, true);
    assert!(shared.poll_enter(&mut a));
}
