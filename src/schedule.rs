use vstd::prelude::*;

use std::collections::VecDeque;
use vstd::multiset::Multiset;

use crate::task::TaskContext;
use crate::MAX_THREAD_PIRO;

verus! {

/// Run queues, one per priority level, each listed from head to tail.
pub type Queues = Seq<Seq<TaskContext>>;

/// `f` is the lowest level whose queue is non-empty, or the number of levels
/// where every queue is empty.
pub open spec fn is_floor(qs: Queues, f: int) -> bool {
    &&& 0 <= f <= qs.len()
    &&& forall|j: int| 0 <= j < f ==> (#[trigger] qs[j]).len() == 0
    &&& f < qs.len() ==> qs[f].len() > 0
}

/// Every thread sits in the queue of its own priority, is marked queued and
/// starts on a page boundary.
pub open spec fn levels_ok(qs: Queues) -> bool {
    forall|i: int, j: int|
        0 <= i < qs.len() && 0 <= j < qs[i].len() ==> (#[trigger] qs[i][j]).prio == i
            && qs[i][j].is_queued && qs[i][j].wf()
}

/// The lowest non-empty level at or above `i`, or the number of levels.
pub open spec fn floor_from(qs: Queues, i: nat) -> int
    decreases qs.len() - i,
{
    if i >= qs.len() {
        qs.len() as int
    } else if qs[i as int].len() > 0 {
        i as int
    } else {
        floor_from(qs, i + 1)
    }
}

/// The lowest non-empty level, or the number of levels.
pub open spec fn floor_of(qs: Queues) -> int {
    floor_from(qs, 0)
}

/// `t` as it stands in a run queue.
pub open spec fn queued(t: TaskContext) -> TaskContext {
    TaskContext { is_queued: true, ..t }
}

/// The queues after `t` joins the tail of its level.
pub open spec fn push_back_model(qs: Queues, t: TaskContext) -> Queues {
    qs.update(t.prio as int, qs[t.prio as int].push(queued(t)))
}

/// The queues after `t` joins the head of its level.
pub open spec fn push_front_model(qs: Queues, t: TaskContext) -> Queues {
    qs.update(t.prio as int, seq![queued(t)] + qs[t.prio as int])
}

/// The thread that leaves the queues next, and the queues afterwards: the
/// head of the lowest non-empty level, or nothing where all are empty.
pub open spec fn pop_model(qs: Queues) -> (Option<TaskContext>, Queues) {
    let f = floor_of(qs);
    if f >= qs.len() {
        (None, qs)
    } else {
        (Some(qs[f][0]), qs.update(f, qs[f].drop_first()))
    }
}

proof fn lemma_floor_from(qs: Queues, f: int, i: nat)
    requires
        is_floor(qs, f),
        i <= f,
    ensures
        floor_from(qs, i) == f,
    decreases f - i,
{
    if i < f {
        assert(qs[i as int].len() == 0);
        lemma_floor_from(qs, f, i + 1);
    }
}

/// The floor is unique: any `f` meeting `is_floor` is `floor_of`.
pub proof fn lemma_floor_unique(qs: Queues, f: int)
    requires
        is_floor(qs, f),
    ensures
        floor_of(qs) == f,
{
    lemma_floor_from(qs, f, 0);
}

proof fn lemma_floor_from_props(qs: Queues, i: nat)
    requires
        i <= qs.len(),
    ensures
        i <= floor_from(qs, i) <= qs.len(),
        forall|j: int| i <= j < floor_from(qs, i) ==> (#[trigger] qs[j]).len() == 0,
        floor_from(qs, i) < qs.len() ==> qs[floor_from(qs, i)].len() > 0,
    decreases qs.len() - i,
{
    if i < qs.len() && qs[i as int].len() == 0 {
        lemma_floor_from_props(qs, i + 1);
    }
}

/// `floor_of` is the lowest non-empty level, or the number of levels.
pub proof fn lemma_floor_of_is_floor(qs: Queues)
    ensures
        is_floor(qs, floor_of(qs)),
{
    lemma_floor_from_props(qs, 0);
}

/// Two dequeues in a row, with no enqueue between them, hand out threads in
/// non-decreasing priority value: the first comes from a level at least as
/// urgent as the second.
pub proof fn lemma_dequeue_priority_order(qs: Queues)
    requires
        levels_ok(qs),
    ensures
        pop_model(qs).0 is Some && pop_model(pop_model(qs).1).0 is Some ==> pop_model(qs).0->0.prio
            <= pop_model(pop_model(qs).1).0->0.prio,
{
    let f = floor_of(qs);
    let qs2 = pop_model(qs).1;
    lemma_floor_of_is_floor(qs);
    lemma_floor_of_is_floor(qs2);
    let f2 = floor_of(qs2);
    if pop_model(qs).0 is Some && pop_model(qs2).0 is Some {
        assert(qs[f][0].prio == f);
        if f2 < f {
            assert(qs2[f2] == qs[f2]);
            assert(qs[f2].len() == 0);
        }
        assert(qs2[f2] == qs[f2] || qs2[f2] == qs[f].drop_first());
        assert(qs2[f2][0].prio == f2);
    }
}

/// A dequeue never hands out a thread before one queued ahead of it at the
/// same level: where `x = qs[p][i]` stands ahead of `y = qs[p][j]`, either `x`
/// is the thread handed out, or afterwards both are still at level `p` with
/// `x` still ahead of `y`.
pub proof fn lemma_dequeue_keeps_level_order(qs: Queues, p: int, i: int, j: int)
    requires
        0 <= p < qs.len(),
        0 <= i < j < qs[p].len(),
    ensures
        ({
            let (a, q1) = pop_model(qs);
            let k = if p == floor_of(qs) { 1int } else { 0int };
            &&& i < k ==> a == Some(qs[p][i])
            &&& i >= k ==> q1[p][i - k] == qs[p][i] && q1[p][j - k] == qs[p][j]
        }),
{
    lemma_floor_of_is_floor(qs);
}

/// An enqueue at the tail puts the thread behind every thread already at its
/// level and moves no queued thread.
pub proof fn lemma_enqueue_back_keeps_order(qs: Queues, t: TaskContext, p: int, i: int)
    requires
        t.prio < qs.len(),
        0 <= p < qs.len(),
        0 <= i < qs[p].len(),
    ensures
        push_back_model(qs, t)[p][i] == qs[p][i],
        push_back_model(qs, t)[t.prio as int].len() == qs[t.prio as int].len() + 1,
        push_back_model(qs, t)[t.prio as int].last() == queued(t),
{
}

/// An enqueue at the head puts the thread ahead of every thread already at
/// its level and keeps the order of the queued threads.
pub proof fn lemma_enqueue_front_keeps_order(qs: Queues, t: TaskContext, p: int, i: int)
    requires
        t.prio < qs.len(),
        0 <= p < qs.len(),
        0 <= i < qs[p].len(),
    ensures
        push_front_model(qs, t)[p][if p == t.prio { i + 1 } else { i }] == qs[p][i],
        push_front_model(qs, t)[t.prio as int][0] == queued(t),
{
}

/// The threads handed out by `n` dequeues in a row from `qs`, in order.
pub open spec fn drain(qs: Queues, n: nat) -> Seq<TaskContext>
    decreases n,
{
    if n == 0 {
        Seq::empty()
    } else {
        match pop_model(qs).0 {
            Some(t) => seq![t] + drain(pop_model(qs).1, (n - 1) as nat),
            None => Seq::empty(),
        }
    }
}

/// Whether a thread belongs to level `p`.
pub open spec fn at_level(p: int) -> spec_fn(TaskContext) -> bool {
    |t: TaskContext| t.prio == p
}

/// A dequeue keeps every remaining thread at its own level.
pub proof fn lemma_dequeue_keeps_levels(qs: Queues)
    requires
        levels_ok(qs),
    ensures
        levels_ok(pop_model(qs).1),
{
    lemma_floor_of_is_floor(qs);
    let f = floor_of(qs);
    let q1 = pop_model(qs).1;
    assert forall|i: int, j: int| 0 <= i < q1.len() && 0 <= j < q1[i].len() implies (#[trigger] q1[i][j]).prio == i
        && q1[i][j].is_queued && q1[i][j].wf() by {
        if i == f && f < qs.len() {
            assert(q1[i][j] == qs[i][j + 1]);
        }
    }
}

/// First in, first out within a level: the threads of level `p` that any
/// number of dequeues in a row hand out are the threads at the head of that
/// level's queue, in queue order.
pub proof fn lemma_fifo_per_level(qs: Queues, p: int, n: nat)
    requires
        levels_ok(qs),
        0 <= p < qs.len(),
    ensures
        ({
            let out = drain(qs, n).filter(at_level(p));
            out.len() <= qs[p].len() && out == qs[p].subrange(0, out.len() as int)
        }),
    decreases n,
{
    reveal(Seq::filter);
    let pred = at_level(p);
    if n == 0 || pop_model(qs).0 is None {
        assert(drain(qs, n).filter(pred) =~= Seq::<TaskContext>::empty());
        assert(qs[p].subrange(0, 0) =~= Seq::<TaskContext>::empty());
    } else {
        lemma_floor_of_is_floor(qs);
        lemma_dequeue_keeps_levels(qs);
        let f = floor_of(qs);
        let x = qs[f][0];
        let q1 = pop_model(qs).1;
        let rest = drain(q1, (n - 1) as nat);
        lemma_fifo_per_level(q1, p, (n - 1) as nat);
        assert(drain(qs, n) == seq![x] + rest);
        Seq::filter_distributes_over_add(seq![x], rest, pred);
        assert(seq![x].drop_last() =~= Seq::<TaskContext>::empty());
        assert(seq![x].drop_last().filter(pred) == seq![x].drop_last());
        assert(seq![x].last() == x);
        let out_rest = rest.filter(pred);
        let out = drain(qs, n).filter(pred);
        assert(x.prio == f);
        if f == p {
            assert(seq![x].filter(pred) == seq![x]);
            assert(q1[p] == qs[p].drop_first());
            assert(out =~= seq![x] + out_rest);
            assert(out =~= qs[p].subrange(0, out.len() as int));
        } else {
            assert(!pred(x));
            assert(seq![x].filter(pred) =~= Seq::<TaskContext>::empty());
            assert(q1[p] == qs[p]);
            assert(out =~= out_rest);
        }
    }
}

/// The threads held in the first `k` levels, counted with multiplicity.
pub open spec fn level_bag(qs: Queues, k: nat) -> Multiset<TaskContext>
    decreases k,
{
    if k == 0 || k > qs.len() {
        Multiset::empty()
    } else {
        level_bag(qs, (k - 1) as nat).add(qs[k - 1].to_multiset())
    }
}

/// All threads held in the queues, counted with multiplicity.
pub open spec fn contents(qs: Queues) -> Multiset<TaskContext> {
    level_bag(qs, qs.len())
}

/// The queues after `n` dequeues in a row.
pub open spec fn after(qs: Queues, n: nat) -> Queues
    decreases n,
{
    if n == 0 {
        qs
    } else {
        match pop_model(qs).0 {
            Some(_) => after(pop_model(qs).1, (n - 1) as nat),
            None => qs,
        }
    }
}

proof fn lemma_level_bag_pop(qs: Queues, f: int, k: nat)
    requires
        0 <= f < qs.len(),
        qs[f].len() > 0,
        k <= qs.len(),
    ensures
        ({
            let q1 = qs.update(f, qs[f].drop_first());
            level_bag(qs, k) == if f < k {
                level_bag(q1, k).insert(qs[f][0])
            } else {
                level_bag(q1, k)
            }
        }),
    decreases k,
{
    broadcast use vstd::multiset::group_multiset_axioms, vstd::multiset::group_multiset_properties, vstd::seq_lib::group_to_multiset_ensures;

    let q1 = qs.update(f, qs[f].drop_first());
    if k > 0 {
        lemma_level_bag_pop(qs, f, (k - 1) as nat);
        if f == k - 1 {
            assert(qs[f].remove(0) =~= qs[f].drop_first());
            assert(qs[f].contains(qs[f][0]));
            assert(qs[f].to_multiset().count(qs[f][0]) > 0);
            assert(qs[f].to_multiset().remove(qs[f][0]).insert(qs[f][0]) =~= qs[f].to_multiset());
            assert(level_bag(qs, k) =~= level_bag(q1, k).insert(qs[f][0]));
        } else {
            assert(q1[k - 1] == qs[k - 1]);
            if f < k {
                assert(level_bag(qs, k) =~= level_bag(q1, k).insert(qs[f][0]));
            }
        }
    }
}

proof fn lemma_level_bag_empty(qs: Queues, k: nat)
    requires
        k <= qs.len(),
        forall|j: int| 0 <= j < k ==> (#[trigger] qs[j]).len() == 0,
    ensures
        level_bag(qs, k) == Multiset::<TaskContext>::empty(),
    decreases k,
{
    broadcast use vstd::multiset::group_multiset_axioms, vstd::multiset::group_multiset_properties, vstd::seq_lib::group_to_multiset_ensures;

    if k > 0 {
        lemma_level_bag_empty(qs, (k - 1) as nat);
        assert(qs[k - 1].to_multiset().len() == 0);
        assert(qs[k - 1].to_multiset() =~= Multiset::<TaskContext>::empty());
        assert(level_bag(qs, k) =~= Multiset::<TaskContext>::empty());
    }
}

/// No thread is lost or handed out twice: the threads that `n` dequeues in
/// a row hand out, together with those still queued, are exactly the threads
/// queued before; and the dequeues find a thread as long as one is queued.
pub proof fn lemma_dequeue_hands_out_each_once(qs: Queues, n: nat)
    ensures
        contents(qs) == drain(qs, n).to_multiset().add(contents(after(qs, n))),
        drain(qs, n).len() == if n <= contents(qs).len() { n as int } else { contents(qs).len() as int },
    decreases n,
{
    broadcast use vstd::multiset::group_multiset_axioms, vstd::multiset::group_multiset_properties, vstd::seq_lib::group_to_multiset_ensures;

    lemma_floor_of_is_floor(qs);
    let f = floor_of(qs);
    if f >= qs.len() {
        lemma_level_bag_empty(qs, qs.len() as nat);
        assert(drain(qs, n) =~= Seq::<TaskContext>::empty());
        assert(drain(qs, n).to_multiset().len() == 0);
        assert(after(qs, n) == qs);
        assert(contents(qs) =~= drain(qs, n).to_multiset().add(contents(after(qs, n))));
    } else if n == 0 {
        assert(drain(qs, n) =~= Seq::<TaskContext>::empty());
        assert(drain(qs, n).to_multiset().len() == 0);
        assert(contents(qs) =~= drain(qs, n).to_multiset().add(contents(after(qs, n))));
    } else {
        let x = qs[f][0];
        let q1 = pop_model(qs).1;
        lemma_level_bag_pop(qs, f, qs.len() as nat);
        assert(contents(qs) == contents(q1).insert(x));
        lemma_dequeue_hands_out_each_once(q1, (n - 1) as nat);
        let rest = drain(q1, (n - 1) as nat);
        assert(drain(qs, n) == seq![x] + rest);
        vstd::seq_lib::lemma_multiset_commutative(seq![x], rest);
        assert(seq![x].to_multiset() =~= Multiset::singleton(x)) by {
            let e = Seq::<TaskContext>::empty();
            assert(seq![x] =~= e.push(x));
            assert(e.to_multiset().len() == 0);
            assert(e.to_multiset() =~= Multiset::<TaskContext>::empty());
        }
        assert(after(qs, n) == after(q1, (n - 1) as nat));
        assert(contents(qs) =~= drain(qs, n).to_multiset().add(contents(after(qs, n))));
    }
}

/// Threads that join one level at its tail in the order `t1`, `t2`, `t3`,
/// where no level of that urgency or more holds a thread, leave it by three
/// dequeues in the same order, and the queues are as before.
pub proof fn lemma_fifo_within_level(qs: Queues, t1: TaskContext, t2: TaskContext, t3: TaskContext)
    requires
        t1.prio < qs.len(),
        t2.prio == t1.prio,
        t3.prio == t1.prio,
        forall|j: int| 0 <= j <= t1.prio ==> (#[trigger] qs[j]).len() == 0,
    ensures
        ({
            let q = push_back_model(push_back_model(push_back_model(qs, t1), t2), t3);
            let (a, q1) = pop_model(q);
            let (b, q2) = pop_model(q1);
            let (c, q3) = pop_model(q2);
            a == Some(queued(t1)) && b == Some(queued(t2)) && c == Some(queued(t3)) && q3 == qs
        }),
{
    let p = t1.prio as int;
    let q = push_back_model(push_back_model(push_back_model(qs, t1), t2), t3);
    assert(q[p] =~= seq![queued(t1), queued(t2), queued(t3)]);
    lemma_floor_unique(q, p);
    let q1 = pop_model(q).1;
    assert(q1[p] =~= seq![queued(t2), queued(t3)]);
    lemma_floor_unique(q1, p);
    let q2 = pop_model(q1).1;
    assert(q2[p] =~= seq![queued(t3)]);
    lemma_floor_unique(q2, p);
    let q3 = pop_model(q2).1;
    assert(q3[p] =~= qs[p]);
    assert(q3 =~= qs);
}

/// Where `t1` and `t2` join a level at its tail and then `t3` at its head,
/// and no level of that urgency or more held a thread, three dequeues hand
/// out `t3`, `t1`, `t2`, and the queues are as before.
pub proof fn lemma_front_insertion_override(
    qs: Queues,
    t1: TaskContext,
    t2: TaskContext,
    t3: TaskContext,
)
    requires
        t1.prio < qs.len(),
        t2.prio == t1.prio,
        t3.prio == t1.prio,
        forall|j: int| 0 <= j <= t1.prio ==> (#[trigger] qs[j]).len() == 0,
    ensures
        ({
            let q = push_front_model(push_back_model(push_back_model(qs, t1), t2), t3);
            let (a, q1) = pop_model(q);
            let (b, q2) = pop_model(q1);
            let (c, q3) = pop_model(q2);
            a == Some(queued(t3)) && b == Some(queued(t1)) && c == Some(queued(t2)) && q3 == qs
        }),
{
    let p = t1.prio as int;
    let q = push_front_model(push_back_model(push_back_model(qs, t1), t2), t3);
    assert(q[p] =~= seq![queued(t3), queued(t1), queued(t2)]);
    lemma_floor_unique(q, p);
    let q1 = pop_model(q).1;
    assert(q1[p] =~= seq![queued(t1), queued(t2)]);
    lemma_floor_unique(q1, p);
    let q2 = pop_model(q1).1;
    assert(q2[p] =~= seq![queued(t2)]);
    lemma_floor_unique(q2, p);
    let q3 = pop_model(q2).1;
    assert(q3[p] =~= qs[p]);
    assert(q3 =~= qs);
}

/// On queues that are all empty a dequeue finds nothing and changes
/// nothing, however often it is repeated.
pub proof fn lemma_dequeue_empty_idempotent(qs: Queues)
    requires
        forall|j: int| 0 <= j < qs.len() ==> (#[trigger] qs[j]).len() == 0,
    ensures
        pop_model(qs) == (None::<TaskContext>, qs),
        pop_model(pop_model(qs).1) == pop_model(qs),
{
    lemma_floor_unique(qs, qs.len() as int);
}

/// Fixed-priority scheduler: one FIFO queue per level below
/// `MAX_THREAD_PIRO` and the lowest non-empty level cached as `priority`.
pub struct Scheduler {
    task_queues: Vec<VecDeque<TaskContext>>,
    priority: usize,
}

impl View for Scheduler {
    type V = Queues;

    closed spec fn view(&self) -> Queues {
        self.task_queues@.map_values(|q: VecDeque<TaskContext>| q@)
    }
}

impl Scheduler {
    /// The cached floor.
    pub closed spec fn spec_priority(&self) -> int {
        self.priority as int
    }

    /// One queue per level, every thread at its own level, and the cached
    /// floor equal to the true lowest non-empty level.
    pub open spec fn wf(&self) -> bool {
        &&& self@.len() == MAX_THREAD_PIRO
        &&& levels_ok(self@)
        &&& is_floor(self@, self.spec_priority())
    }

    /// A scheduler with every queue empty.
    pub fn new() -> (r: Self)
        ensures
            r.wf(),
            r@ == Seq::new(MAX_THREAD_PIRO as nat, |i: int| Seq::<TaskContext>::empty()),
    {
        let mut task_queues: Vec<VecDeque<TaskContext>> = Vec::new();
        while task_queues.len() < MAX_THREAD_PIRO
            invariant
                task_queues@.len() <= MAX_THREAD_PIRO,
                forall|i: int| 0 <= i < task_queues@.len() ==> (#[trigger] task_queues@[i])@.len() == 0,
            decreases MAX_THREAD_PIRO - task_queues@.len(),
        {
            task_queues.push(VecDeque::new());
        }
        let r = Scheduler { task_queues, priority: MAX_THREAD_PIRO };
        assert forall|i: int| 0 <= i < r@.len() implies r@[i] =~= Seq::<TaskContext>::empty() by {
            assert(task_queues@[i]@.len() == 0);
        }
        assert(r@ =~= Seq::new(MAX_THREAD_PIRO as nat, |i: int| Seq::<TaskContext>::empty()));
        r
    }

    /// The cached lowest non-empty level, `MAX_THREAD_PIRO` when all queues
    /// are empty.
    pub fn priority(&self) -> (r: usize)
        requires
            self.wf(),
        ensures
            r == floor_of(self@),
    {
        proof {
            lemma_floor_unique(self@, self.priority as int);
        }
        self.priority
    }

    /// Puts `task` at the head of the queue of its priority.
    pub fn enqueue_front(&mut self, task: Box<TaskContext>)
        requires
            old(self).wf(),
            task.wf(),
            task.prio < MAX_THREAD_PIRO,
        ensures
            final(self).wf(),
            final(self)@ == push_front_model(old(self)@, *task),
    {
        let ghost given = *task;
        let mut t = *task;
        t.is_queued = true;
        let p = t.prio;
        if p < self.priority {
            self.priority = p;
        }
        self.task_queues[p].push_front(t);
        proof {
            assert(t == queued(given));
            assert(self@ =~= push_front_model(old(self)@, given));
        }
    }

    /// Puts `task` at the tail of the queue of its priority.
    pub fn enqueue_back(&mut self, task: Box<TaskContext>)
        requires
            old(self).wf(),
            task.wf(),
            task.prio < MAX_THREAD_PIRO,
        ensures
            final(self).wf(),
            final(self)@ == push_back_model(old(self)@, *task),
    {
        let ghost given = *task;
        let mut t = *task;
        t.is_queued = true;
        let p = t.prio;
        if p < self.priority {
            self.priority = p;
        }
        self.task_queues[p].push_back(t);
        proof {
            assert(t == queued(given));
            assert(self@ =~= push_back_model(old(self)@, given));
        }
    }

    /// Takes the head of the lowest non-empty queue and moves the cached
    /// floor up past every queue left empty; `None` where all are empty.
    pub fn dequeue(&mut self) -> (r: Option<Box<TaskContext>>)
        requires
            old(self).wf(),
        ensures
            final(self).wf(),
            final(self)@ == pop_model(old(self)@).1,
            r is Some <==> exists|i: int| 0 <= i < old(self)@.len() && (#[trigger] old(self)@[i]).len() > 0,
            match r {
                Some(t) => pop_model(old(self)@).0 == Some(*t),
                None => pop_model(old(self)@).0 is None,
            },
    {
        proof {
            lemma_floor_unique(self@, self.priority as int);
        }
        if self.priority >= MAX_THREAD_PIRO {
            assert(forall|i: int| 0 <= i < old(self)@.len() ==> (#[trigger] old(self)@[i]).len() == 0);
            return None;
        }
        let p = self.priority;
        proof {
            assert(self.task_queues@[p as int]@ == self@[p as int]);
        }
        let task = match self.task_queues[p].pop_front() {
            Some(task) => task,
            None => return None,
        };
        let ghost popped = self@;
        proof {
            assert(popped =~= old(self)@.update(p as int, old(self)@[p as int].drop_first()));
        }
        let mut i: usize = task.prio;
        while i < MAX_THREAD_PIRO && self.task_queues[i].len() == 0
            invariant
                self@ == popped,
                self.task_queues@.len() == MAX_THREAD_PIRO,
                p <= i <= MAX_THREAD_PIRO,
                self.priority == i,
                forall|j: int| 0 <= j < i ==> (#[trigger] popped[j]).len() == 0,
            decreases MAX_THREAD_PIRO - i,
        {
            proof {
                assert(self.task_queues@[i as int]@ == self@[i as int]);
            }
            self.priority = self.priority + 1;
            i = i + 1;
        }
        proof {
            if i < MAX_THREAD_PIRO {
                assert(self.task_queues@[i as int]@ == self@[i as int]);
            }
        }
        Some(Box::new(task))
    }
}

} // verus!
