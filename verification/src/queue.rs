//! The ordered holding area for pending tasks: strict FIFO, mutated only
//! through `enqueue` at the tail and `take_next` at the head.

use vstd::prelude::*;

use crate::task::QueuedTask;

verus! {

/// An ordered sequence of queued tasks awaiting execution.
#[derive(Debug)]
pub struct TaskQueue {
    pub tasks: Vec<QueuedTask>,
}

impl TaskQueue {
    /// The pending tasks, head first.
    pub open spec fn pending(self) -> Seq<QueuedTask> {
        self.tasks@
    }

    /// An empty queue.
    pub fn new() -> (q: TaskQueue)
        ensures
            q.pending() == Seq::<QueuedTask>::empty(),
    {
        TaskQueue { tasks: Vec::new() }
    }

    /// Append a task to the tail.
    pub fn enqueue(&mut self, task: QueuedTask)
        ensures
            final(self).pending() == old(self).pending().push(task),
    {
        self.tasks.push(task);
    }

    /// Look at the head task without mutating the queue.
    pub fn peek_next(&self) -> (r: Option<&QueuedTask>)
        ensures
            match r {
                Some(task) => self.pending().len() > 0 && *task == self.pending()[0],
                None => self.pending().len() == 0,
            },
    {
        if self.tasks.len() == 0 {
            None
        } else {
            Some(&self.tasks[0])
        }
    }

    /// Remove and return the head task.
    pub fn take_next(&mut self) -> (r: Option<QueuedTask>)
        ensures
            old(self).pending().len() == 0 ==> {
                &&& r is None
                &&& final(self).pending() == old(self).pending()
            },
            old(self).pending().len() > 0 ==> {
                &&& r matches Some(task) && task == old(self).pending()[0]
                &&& final(self).pending() == old(self).pending().drop_first()
            },
    {
        if self.tasks.len() == 0 {
            None
        } else {
            let task = self.tasks.remove(0);
            proof {
                assert(self.pending() =~= old(self).pending().drop_first());
            }
            Some(task)
        }
    }

    /// How many tasks are pending.
    pub fn len(&self) -> (r: usize)
        ensures
            r == self.pending().len(),
    {
        self.tasks.len()
    }

    /// Check whether no task is pending.
    pub fn is_empty(&self) -> (r: bool)
        ensures
            r == (self.pending().len() == 0),
    {
        self.tasks.len() == 0
    }
}

} // verus!
