//! The scheduler's ready queue: a FIFO of runnable task ids.
use vstd::prelude::*;

verus! {

/// A FIFO of ready tasks, front first.
pub struct TaskManager {
    ready_queue: Vec<usize>,
}

impl TaskManager {
    /// The ready tasks, front first.
    pub closed spec fn view(&self) -> Seq<usize> {
        self.ready_queue@
    }

    /// An empty ready queue.
    pub fn new() -> (r: Self)
        ensures
            r@ == Seq::<usize>::empty(),
    {
        TaskManager { ready_queue: Vec::new() }
    }

    /// Puts `task` at the tail.
    pub fn add(&mut self, task: usize)
        ensures
            final(self)@ == old(self)@.push(task),
    {
        self.ready_queue.push(task);
    }

    /// Puts `task` at the front.
    pub fn add_front(&mut self, task: usize)
        ensures
            final(self)@ == seq![task] + old(self)@,
    {
        self.ready_queue.insert(0, task);
        assert(self.ready_queue@ =~= seq![task] + old(self)@);
    }

    /// Takes the front task; absent when nothing is ready.
    pub fn fetch(&mut self) -> (r: Option<usize>)
        ensures
            old(self)@.len() == 0 ==> r == None::<usize> && final(self)@ == old(self)@,
            old(self)@.len() > 0 ==> r == Some(old(self)@[0]) && final(self)@
                == old(self)@.drop_first(),
    {
        if self.ready_queue.len() == 0 {
            None
        } else {
            let t = self.ready_queue.remove(0);
            assert(self.ready_queue@ =~= old(self)@.drop_first());
            Some(t)
        }
    }

    /// Number of ready tasks.
    pub fn len(&self) -> (r: usize)
        ensures
            r == self@.len(),
    {
        self.ready_queue.len()
    }
}

} // verus!
