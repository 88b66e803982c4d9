//! Tasks that wait for the runtime, taken by priority.

use vstd::prelude::*;
use std::collections::VecDeque;

verus! {

/// The priority of a task.
#[derive(Debug, Clone, Copy, PartialEq, Eq, Structural)]
pub enum Priority {
    /// Whenever there is time.
    Low,
    /// As usual.
    Normal,
    /// Before the usual.
    High,
    /// Before everything.
    Critical,
}

impl Priority {
    /// The number of the priority, from 0 for Low to 3 for Critical.
    pub open spec fn spec_level(self) -> nat {
        match self {
            Priority::Low => 0,
            Priority::Normal => 1,
            Priority::High => 2,
            Priority::Critical => 3,
        }
    }

    /// The number of the priority.
    pub fn level(self) -> (n: usize)
        ensures
            n == self.spec_level(),
    {
        match self {
            Priority::Low => 0,
            Priority::Normal => 1,
            Priority::High => 2,
            Priority::Critical => 3,
        }
    }
}

/// A task.
pub struct Task {
    /// Its number.
    pub id: u64,
    /// Its priority.
    pub priority: Priority,
    /// What it carries.
    pub payload: Vec<u8>,
}

/// The tasks that wait, one queue for each priority.
pub struct Scheduler {
    low: VecDeque<Task>,
    normal: VecDeque<Task>,
    high: VecDeque<Task>,
    critical: VecDeque<Task>,
    concurrency_limit: usize,
    next_task_id: u64,
}

impl Scheduler {
    /// The tasks of a priority that wait, oldest first.
    pub closed spec fn waiting(&self, priority: Priority) -> Seq<Task> {
        match priority {
            Priority::Low => self.low@,
            Priority::Normal => self.normal@,
            Priority::High => self.high@,
            Priority::Critical => self.critical@,
        }
    }

    /// The number that the next task gets.
    pub closed spec fn next_id(&self) -> u64 {
        self.next_task_id
    }

    /// The number of tasks that wait.
    pub open spec fn pending(&self) -> nat {
        self.waiting(Priority::Low).len() + self.waiting(Priority::Normal).len() + self.waiting(
            Priority::High,
        ).len() + self.waiting(Priority::Critical).len()
    }

    /// The highest priority of which a task waits.
    pub open spec fn top(&self) -> Option<Priority> {
        if self.waiting(Priority::Critical).len() > 0 {
            Some(Priority::Critical)
        } else if self.waiting(Priority::High).len() > 0 {
            Some(Priority::High)
        } else if self.waiting(Priority::Normal).len() > 0 {
            Some(Priority::Normal)
        } else if self.waiting(Priority::Low).len() > 0 {
            Some(Priority::Low)
        } else {
            None
        }
    }

    /// The most tasks that are meant to run at a time.
    pub closed spec fn limit(&self) -> usize {
        self.concurrency_limit
    }

    /// A scheduler without tasks, for so many tasks at a time.
    pub fn new(max_concurrent: usize) -> (s: Self)
        ensures
            s.pending() == 0,
            s.next_id() == 0,
            s.limit() == max_concurrent,
    {
        Scheduler {
            low: VecDeque::new(),
            normal: VecDeque::new(),
            high: VecDeque::new(),
            critical: VecDeque::new(),
            concurrency_limit: max_concurrent,
            next_task_id: 0,
        }
    }

    /// Takes in a task, which waits behind the tasks of its priority, and
    /// returns its number. The numbers count up from zero and wrap
    /// around.
    pub fn submit(&mut self, priority: Priority, payload: Vec<u8>) -> (id: u64)
        ensures
            id == old(self).next_id(),
            final(self).limit() == old(self).limit(),
            final(self).next_id() == old(self).next_id().wrapping_add(1),
            final(self).waiting(priority).len() == old(self).waiting(priority).len() + 1,
            final(self).waiting(priority).drop_last() == old(self).waiting(priority),
            final(self).waiting(priority).last().id == id,
            final(self).waiting(priority).last().priority == priority,
            final(self).waiting(priority).last().payload == payload,
            forall|p: Priority| p != priority ==> final(self).waiting(p) == old(self).waiting(p),
    {
        let id = self.next_task_id;
        self.next_task_id = self.next_task_id.wrapping_add(1);
        let task = Task { id, priority, payload };
        match priority {
            Priority::Low => {
                self.low.push_back(task);
                assert(self.low@.drop_last() =~= old(self).low@);
            },
            Priority::Normal => {
                self.normal.push_back(task);
                assert(self.normal@.drop_last() =~= old(self).normal@);
            },
            Priority::High => {
                self.high.push_back(task);
                assert(self.high@.drop_last() =~= old(self).high@);
            },
            Priority::Critical => {
                self.critical.push_back(task);
                assert(self.critical@.drop_last() =~= old(self).critical@);
            },
        }
        id
    }

    /// Takes the task that is next: the oldest of the highest priority
    /// of which a task waits.
    pub fn next_task(&mut self) -> (r: Option<Task>)
        ensures
            final(self).next_id() == old(self).next_id(),
            final(self).limit() == old(self).limit(),
            match old(self).top() {
                Some(p) => {
                    &&& r == Some(old(self).waiting(p).first())
                    &&& final(self).waiting(p) == old(self).waiting(p).drop_first()
                    &&& forall|q: Priority| q != p ==> final(self).waiting(q) == old(self).waiting(q)
                },
                None => r is None && forall|q: Priority| final(self).waiting(q) == old(self).waiting(q),
            },
    {
        if self.critical.len() > 0 {
            let t = self.critical.pop_front();
            assert(self.critical@ =~= old(self).critical@.drop_first());
            return t;
        }
        if self.high.len() > 0 {
            let t = self.high.pop_front();
            assert(self.high@ =~= old(self).high@.drop_first());
            return t;
        }
        if self.normal.len() > 0 {
            let t = self.normal.pop_front();
            assert(self.normal@ =~= old(self).normal@.drop_first());
            return t;
        }
        if self.low.len() > 0 {
            let t = self.low.pop_front();
            assert(self.low@ =~= old(self).low@.drop_first());
            return t;
        }
        None
    }

    /// The most tasks that are meant to run at a time.
    pub fn concurrency_limit(&self) -> (n: usize)
        ensures
            n == self.limit(),
    {
        self.concurrency_limit
    }

    /// The number of tasks that wait, cut to the range of `usize`.
    pub fn pending_count(&self) -> (n: usize)
        ensures
            n == if self.pending() > usize::MAX {
                usize::MAX
            } else {
                self.pending() as usize
            },
    {
        let wide: u128 = self.low.len() as u128 + self.normal.len() as u128 + self.high.len() as u128
            + self.critical.len() as u128;
        if wide > usize::MAX as u128 {
            usize::MAX
        } else {
            wide as usize
        }
    }
}

} // verus!
