//! The IRQ wait table: for each IRQ line, a FIFO of parked task ids.
use vstd::prelude::*;

verus! {

/// One IRQ line's FIFO of parked tasks, front first.
pub struct IrqQueue {
    pub irq: usize,
    pub tasks: Vec<usize>,
}

/// Mapping from IRQ line to the FIFO of tasks parked on it.
pub struct IrqWait {
    queues: Vec<IrqQueue>,
    model: Ghost<Map<usize, Seq<usize>>>,
}

/// `t` sits in some queue of `m`.
pub open spec fn parked(m: Map<usize, Seq<usize>>, t: usize) -> bool {
    exists|k: usize, i: int|
        #![trigger m[k][i]]
        m.contains_key(k) && 0 <= i < m[k].len() && m[k][i] == t
}

/// Each task appears at most once across all queues of `m`.
pub open spec fn unique_tasks(m: Map<usize, Seq<usize>>) -> bool {
    forall|k1: usize, i: int, k2: usize, j: int|
        #![trigger m[k1][i], m[k2][j]]
        m.contains_key(k1) && m.contains_key(k2) && 0 <= i < m[k1].len() && 0 <= j
            < m[k2].len() && m[k1][i] == m[k2][j] ==> k1 == k2 && i == j
}

/// The table after `task` is appended to the queue of `key`; unchanged where
/// `key` has no queue.
pub open spec fn enqueue(m: Map<usize, Seq<usize>>, key: usize, task: usize) -> Map<
    usize,
    Seq<usize>,
> {
    if m.contains_key(key) {
        m.insert(key, m[key].push(task))
    } else {
        m
    }
}

/// The table after the front of the queue of `key` is taken off, and that
/// front; unchanged and absent where the queue is missing or empty.
pub open spec fn dequeue(m: Map<usize, Seq<usize>>, key: usize) -> (Map<usize, Seq<usize>>, Option<
    usize,
>) {
    if m.contains_key(key) && m[key].len() > 0 {
        (m.insert(key, m[key].drop_first()), Some(m[key][0]))
    } else {
        (m, None)
    }
}

impl IrqWait {
    /// The table as a map from IRQ line to its queue, front first.
    pub closed spec fn view(&self) -> Map<usize, Seq<usize>> {
        self.model@
    }

    /// The stored queues agree with the model, one queue per line, and no
    /// task is parked twice.
    pub closed spec fn wf(&self) -> bool {
        &&& forall|i: int|
            #![trigger self.queues@[i]]
            0 <= i < self.queues@.len() ==> self.model@.contains_key(self.queues@[i].irq)
                && self.model@[self.queues@[i].irq] == self.queues@[i].tasks@
        &&& forall|i: int, j: int|
            #![trigger self.queues@[i], self.queues@[j]]
            0 <= i < j < self.queues@.len() ==> self.queues@[i].irq != self.queues@[j].irq
        &&& forall|k: usize|
            #![trigger self.model@.contains_key(k)]
            self.model@.contains_key(k) ==> exists|i: int|
                #![trigger self.queues@[i]]
                0 <= i < self.queues@.len() && self.queues@[i].irq == k
        &&& unique_tasks(self.model@)
    }

    /// An empty table: no line has a queue yet.
    pub fn new() -> (r: Self)
        ensures
            r.wf(),
            r@ == Map::<usize, Seq<usize>>::empty(),
    {
        IrqWait { queues: Vec::new(), model: Ghost(Map::empty()) }
    }

    fn find(&self, irq: usize) -> (r: Option<usize>)
        requires
            self.wf(),
        ensures
            match r {
                Some(i) => i < self.queues@.len() && self.queues@[i as int].irq == irq,
                None => !self@.contains_key(irq),
            },
    {
        let mut i: usize = 0;
        while i < self.queues.len()
            invariant
                self.wf(),
                i <= self.queues@.len(),
                forall|j: int| 0 <= j < i ==> #[trigger] self.queues@[j].irq != irq,
            decreases self.queues@.len() - i,
        {
            if self.queues[i].irq == irq {
                return Some(i);
            }
            i = i + 1;
        }
        None
    }

    /// Whether `irq` has a queue.
    pub fn has_queue(&self, irq: usize) -> (r: bool)
        requires
            self.wf(),
        ensures
            r == self@.contains_key(irq),
    {
        self.find(irq).is_some()
    }

    /// Whether `task` is parked on any line.
    pub fn is_parked(&self, task: usize) -> (r: bool)
        requires
            self.wf(),
        ensures
            r == parked(self@, task),
    {
        let n = self.queues.len();
        let mut i: usize = 0;
        while i < n
            invariant
                self.wf(),
                n == self.queues@.len(),
                i <= n,
                forall|a: int, b: int|
                    0 <= a < i && 0 <= b < self.queues@[a].tasks@.len() ==> #[trigger] self.queues@[a].tasks@[b]
                        != task,
            decreases n - i,
        {
            let q = &self.queues[i];
            let m = q.tasks.len();
            let mut j: usize = 0;
            while j < m
                invariant
                    self.wf(),
                    n == self.queues@.len(),
                    i < n,
                    q.tasks@ == self.queues@[i as int].tasks@,
                    q.irq == self.queues@[i as int].irq,
                    m == q.tasks@.len(),
                    j <= m,
                    forall|a: int, b: int|
                        0 <= a < i && 0 <= b < self.queues@[a].tasks@.len() ==> #[trigger] self.queues@[a].tasks@[b]
                            != task,
                    forall|b: int| 0 <= b < j ==> #[trigger] q.tasks@[b] != task,
                decreases m - j,
            {
                if q.tasks[j] == task {
                    assert(self.queues@[i as int].tasks@[j as int] == task);
                    assert(self@[q.irq][j as int] == task);
                    return true;
                }
                j = j + 1;
            }
            assert forall|a: int, b: int|
                0 <= a < i + 1 && 0 <= b < self.queues@[a].tasks@.len() implies #[trigger] self.queues@[a].tasks@[b]
                != task by {
                if a == i {
                    assert(q.tasks@[b] != task);
                }
            }
            i = i + 1;
        }
        assert forall|k: usize, b: int|
            self@.contains_key(k) && 0 <= b < self@[k].len() implies #[trigger] self@[k][b]
            != task by {
            let a = choose|a: int|
                #![trigger self.queues@[a]]
                0 <= a < self.queues@.len() && self.queues@[a].irq == k;
            assert(self.queues@[a].tasks@[b] != task);
        }
        false
    }

    /// Ensures that `irq` has a queue; an existing queue is kept as it is.
    pub fn init_queue(&mut self, irq: usize)
        requires
            old(self).wf(),
        ensures
            final(self).wf(),
            final(self)@ == (if old(self)@.contains_key(irq) {
                old(self)@
            } else {
                old(self)@.insert(irq, Seq::<usize>::empty())
            }),
    {
        if self.find(irq).is_none() {
            let ghost old_m = self.model@;
            self.queues.push(IrqQueue { irq, tasks: Vec::new() });
            self.model = Ghost(old_m.insert(irq, Seq::empty()));
            let ghost m = self.model@;
            assert forall|k: usize| #[trigger] m.contains_key(k) implies exists|i: int|
                #![trigger self.queues@[i]]
                0 <= i < self.queues@.len() && self.queues@[i].irq == k by {
                if k != irq {
                    let i = choose|i: int|
                        #![trigger old(self).queues@[i]]
                        0 <= i < old(self).queues@.len() && old(self).queues@[i].irq == k;
                    assert(self.queues@[i] == old(self).queues@[i]);
                } else {
                    assert(self.queues@[self.queues@.len() - 1].irq == k);
                }
            }
            assert forall|k1: usize, i: int, k2: usize, j: int|
                #![trigger m[k1][i], m[k2][j]]
                m.contains_key(k1) && m.contains_key(k2) && 0 <= i < m[k1].len() && 0 <= j
                    < m[k2].len() && m[k1][i] == m[k2][j] implies k1 == k2 && i == j by {
                assert(k1 != irq && k2 != irq);
                assert(old_m[k1][i] == old_m[k2][j]);
            }
        }
    }

    /// Replaces the queue at position `i` by `q`, keeping the model in step.
    fn replace_queue(&mut self, i: usize, q: IrqQueue)
        requires
            old(self).wf(),
            i < old(self).queues@.len(),
            q.irq == old(self).queues@[i as int].irq,
            unique_tasks(old(self)@.insert(q.irq, q.tasks@)),
        ensures
            final(self).wf(),
            final(self)@ == old(self)@.insert(q.irq, q.tasks@),
    {
        let ghost old_q = self.queues@;
        let ghost k = q.irq;
        let _ = self.queues.remove(i);
        self.queues.insert(i, q);
        assert(self.queues@ =~= old_q.update(i as int, q));
        self.model = Ghost(self.model@.insert(k, q.tasks@));
        assert forall|j: int|
            #![trigger self.queues@[j]]
            0 <= j < self.queues@.len() implies self.model@.contains_key(self.queues@[j].irq)
                && self.model@[self.queues@[j].irq] == self.queues@[j].tasks@ by {
            if j != i {
                assert(old_q[j] == self.queues@[j]);
                assert(old_q[j].irq != k) by {
                    if j < i {
                        assert(old_q[j].irq != old_q[i as int].irq);
                    } else {
                        assert(old_q[i as int].irq != old_q[j].irq);
                    }
                }
            }
        }
        assert forall|kk: usize| #[trigger] self.model@.contains_key(kk) implies exists|j: int|
            #![trigger self.queues@[j]]
            0 <= j < self.queues@.len() && self.queues@[j].irq == kk by {
            let j = choose|j: int|
                #![trigger old_q[j]]
                0 <= j < old_q.len() && old_q[j].irq == kk;
            assert(self.queues@[j].irq == kk);
        }
    }

    /// Appends `task` to the queue of `key`; does nothing where `key` has no
    /// queue.
    pub fn add_irq_task(&mut self, key: usize, task: usize)
        requires
            old(self).wf(),
            !parked(old(self)@, task),
        ensures
            final(self).wf(),
            final(self)@ == enqueue(old(self)@, key, task),
    {
        match self.find(key) {
            Some(i) => {
                let mut tasks = self.queues[i].tasks.clone();
                tasks.push(task);
                let ghost m = self@;
                let ghost n = m.insert(key, tasks@);
                assert(tasks@ =~= m[key].push(task));
                assert forall|k1: usize, a: int, k2: usize, b: int|
                    #![trigger n[k1][a], n[k2][b]]
                    n.contains_key(k1) && n.contains_key(k2) && 0 <= a < n[k1].len() && 0 <= b
                        < n[k2].len() && n[k1][a] == n[k2][b] implies k1 == k2 && a == b by {
                    let last = m[key].len() as int;
                    if k1 == key && a == last {
                        if !(k2 == key && b == last) {
                            assert(m[k2][b] == task);
                        }
                    } else if k2 == key && b == last {
                        assert(m[k1][a] == task);
                    } else {
                        assert(m[k1][a] == n[k1][a]);
                        assert(m[k2][b] == n[k2][b]);
                    }
                }
                self.replace_queue(i, IrqQueue { irq: key, tasks });
            },
            None => {},
        }
    }

    /// Takes the front task off the queue of `key`; absent where the queue is
    /// missing or empty.
    pub fn fetch_irq_task(&mut self, key: usize) -> (r: Option<usize>)
        requires
            old(self).wf(),
        ensures
            final(self).wf(),
            (final(self)@, r) == dequeue(old(self)@, key),
    {
        match self.find(key) {
            Some(i) => {
                if self.queues[i].tasks.len() == 0 {
                    return None;
                }
                let mut tasks = self.queues[i].tasks.clone();
                let front = tasks.remove(0);
                let ghost m = self@;
                let ghost n = m.insert(key, tasks@);
                assert(tasks@ =~= m[key].drop_first());
                assert forall|k1: usize, a: int, k2: usize, b: int|
                    #![trigger n[k1][a], n[k2][b]]
                    n.contains_key(k1) && n.contains_key(k2) && 0 <= a < n[k1].len() && 0 <= b
                        < n[k2].len() && n[k1][a] == n[k2][b] implies k1 == k2 && a == b by {
                    let a0 = if k1 == key { a + 1 } else { a };
                    let b0 = if k2 == key { b + 1 } else { b };
                    assert(m[k1][a0] == n[k1][a]);
                    assert(m[k2][b0] == n[k2][b]);
                }
                self.replace_queue(i, IrqQueue { irq: key, tasks });
                Some(front)
            },
            None => None,
        }
    }
}

/// No task is ever parked twice, on one line or across lines.
pub proof fn lemma_each_task_parked_once(w: &IrqWait)
    requires
        w.wf(),
    ensures
        unique_tasks(w@),
{
}

} // verus!
