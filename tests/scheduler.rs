use mork_task::schedule::Scheduler;
use mork_task::task::TaskContext;
use mork_task::MAX_THREAD_PIRO;

fn user_thread(addr: usize, prio: usize) -> Box<TaskContext> {
    let mut t = TaskContext::new_user_thread(addr);
    t.prio = prio;
    Box::new(t)
}

#[test]
fn new_scheduler_is_empty() {
    let mut s = Scheduler::new();
    assert_eq!(s.priority(), MAX_THREAD_PIRO);
    assert!(s.dequeue().is_none());
}

#[test]
fn dequeue_follows_priority_order() {
    let mut s = Scheduler::new();
    let prios = [7usize, 3, 0, 5, 3, 63];
    for (k, p) in prios.iter().enumerate() {
        s.enqueue_back(user_thread(0x1000 * (k + 1), *p));
    }
    let mut got = Vec::new();
    while let Some(t) = s.dequeue() {
        got.push(t.prio);
    }
    assert_eq!(got, vec![0, 3, 3, 5, 7, 63]);
}

#[test]
fn fifo_within_a_level() {
    let mut s = Scheduler::new();
    s.enqueue_back(user_thread(0x1000, 4));
    s.enqueue_back(user_thread(0x2000, 4));
    s.enqueue_back(user_thread(0x3000, 4));
    assert_eq!(s.dequeue().unwrap().addr, 0x1000);
    assert_eq!(s.dequeue().unwrap().addr, 0x2000);
    assert_eq!(s.dequeue().unwrap().addr, 0x3000);
    assert!(s.dequeue().is_none());
}

#[test]
fn front_insertion_overrides_fifo() {
    let mut s = Scheduler::new();
    s.enqueue_back(user_thread(0x1000, 9));
    s.enqueue_back(user_thread(0x2000, 9));
    s.enqueue_front(user_thread(0x3000, 9));
    assert_eq!(s.dequeue().unwrap().addr, 0x3000);
    assert_eq!(s.dequeue().unwrap().addr, 0x1000);
    assert_eq!(s.dequeue().unwrap().addr, 0x2000);
    assert!(s.dequeue().is_none());
}

#[test]
fn floor_tracks_lowest_nonempty_level() {
    let mut s = Scheduler::new();
    s.enqueue_back(user_thread(0x1000, 10));
    assert_eq!(s.priority(), 10);
    s.enqueue_front(user_thread(0x2000, 4));
    assert_eq!(s.priority(), 4);
    s.enqueue_back(user_thread(0x3000, 4));
    assert_eq!(s.priority(), 4);
    s.enqueue_back(user_thread(0x4000, 20));
    assert_eq!(s.priority(), 4);
    assert_eq!(s.dequeue().unwrap().addr, 0x2000);
    assert_eq!(s.priority(), 4);
    assert_eq!(s.dequeue().unwrap().addr, 0x3000);
    assert_eq!(s.priority(), 10);
    assert_eq!(s.dequeue().unwrap().addr, 0x1000);
    assert_eq!(s.priority(), 20);
    assert_eq!(s.dequeue().unwrap().addr, 0x4000);
    assert_eq!(s.priority(), MAX_THREAD_PIRO);
}

#[test]
fn enqueue_marks_thread_queued() {
    let mut s = Scheduler::new();
    let t = user_thread(0x1000, 1);
    assert!(!t.is_queued);
    s.enqueue_back(t);
    let t = s.dequeue().unwrap();
    assert!(t.is_queued);
    assert_eq!(t.prio, 1);
}

#[test]
fn dequeue_on_empty_is_idempotent() {
    let mut s = Scheduler::new();
    for _ in 0..5 {
        assert!(s.dequeue().is_none());
        assert_eq!(s.priority(), MAX_THREAD_PIRO);
    }
    s.enqueue_back(user_thread(0x1000, 2));
    assert_eq!(s.priority(), 2);
    assert_eq!(s.dequeue().unwrap().addr, 0x1000);
    assert!(s.dequeue().is_none());
    assert!(s.dequeue().is_none());
    assert_eq!(s.priority(), MAX_THREAD_PIRO);
}

#[test]
fn highest_and_lowest_levels() {
    let mut s = Scheduler::new();
    s.enqueue_back(user_thread(0x1000, MAX_THREAD_PIRO - 1));
    s.enqueue_back(user_thread(0x2000, 0));
    assert_eq!(s.priority(), 0);
    assert_eq!(s.dequeue().unwrap().prio, 0);
    assert_eq!(s.priority(), MAX_THREAD_PIRO - 1);
    assert_eq!(s.dequeue().unwrap().prio, MAX_THREAD_PIRO - 1);
    assert_eq!(s.priority(), MAX_THREAD_PIRO);
}

#[test]
fn end_to_end_scenario() {
    let idle = TaskContext::new_idle_thread(0x10_0000, 0x20_0000, 0x30_0000);
    assert_eq!(idle.prio, MAX_THREAD_PIRO);
    let mut s = Scheduler::new();
    s.enqueue_back(user_thread(0x1000, 5));
    s.enqueue_back(user_thread(0x2000, 2));
    s.enqueue_back(user_thread(0x3000, 2));
    assert_eq!(s.priority(), 2);
    let a = s.dequeue().unwrap();
    assert_eq!((a.addr, a.prio), (0x2000, 2));
    let b = s.dequeue().unwrap();
    assert_eq!((b.addr, b.prio), (0x3000, 2));
    let c = s.dequeue().unwrap();
    assert_eq!((c.addr, c.prio), (0x1000, 5));
    let next = match s.dequeue() {
        Some(t) => *t,
        None => idle,
    };
    assert_eq!(next.addr, 0x10_0000);
    assert_eq!(next.prio, MAX_THREAD_PIRO);
}

#[test]
fn fifo_within_a_level_with_interleaving() {
    let mut s = Scheduler::new();
    s.enqueue_back(user_thread(0x1000, 6));
    s.enqueue_back(user_thread(0x9000, 1));
    s.enqueue_back(user_thread(0x2000, 6));
    assert_eq!(s.dequeue().unwrap().addr, 0x9000);
    s.enqueue_back(user_thread(0xa000, 8));
    s.enqueue_back(user_thread(0x3000, 6));
    s.enqueue_back(user_thread(0xb000, 2));
    let order: Vec<usize> = std::iter::from_fn(|| s.dequeue().map(|t| t.addr)).collect();
    assert_eq!(order, vec![0xb000, 0x1000, 0x2000, 0x3000, 0xa000]);
}

#[test]
fn every_enqueued_thread_comes_out_once() {
    let mut s = Scheduler::new();
    for k in 0..20usize {
        s.enqueue_back(user_thread(0x1000 * (k + 1), (k * 7) % MAX_THREAD_PIRO));
    }
    let mut out: Vec<usize> = Vec::new();
    while let Some(t) = s.dequeue() {
        out.push(t.addr);
    }
    out.sort();
    let expected: Vec<usize> = (0..20usize).map(|k| 0x1000 * (k + 1)).collect();
    assert_eq!(out, expected);
}
