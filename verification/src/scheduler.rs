use std::collections::VecDeque;

use vstd::prelude::*;

use crate::types::{TaskPriority, TaskRequest, TaskType};

verus! {

pub const HIGH_PRIORITY_WEIGHT: u32 = 10;

pub const MEDIUM_PRIORITY_WEIGHT: u32 = 5;

pub const LOW_PRIORITY_WEIGHT: u32 = 1;

/// The weight a queued task of the given priority adds to queue pressure.
pub open spec fn weight_of(priority: TaskPriority) -> nat {
    match priority {
        TaskPriority::HIGH => 10,
        TaskPriority::MEDIUM => 5,
        TaskPriority::LOW => 1,
    }
}

/// The queue pressure of a sequence of queued tasks: the sum of their weights.
pub open spec fn pressure(tasks: Seq<TaskRequest>) -> nat
    decreases tasks.len(),
{
    if tasks.len() == 0 {
        0
    } else {
        pressure(tasks.drop_last()) + weight_of(tasks.last().priority)
    }
}

/// How many of the queued tasks are CV feature tasks.
pub open spec fn cv_count(tasks: Seq<TaskRequest>) -> nat
    decreases tasks.len(),
{
    if tasks.len() == 0 {
        0
    } else {
        cv_count(tasks.drop_last()) + if tasks.last().task_type == TaskType::CV_FEATURES {
            1nat
        } else {
            0nat
        }
    }
}

/// The weight of a priority in queue pressure: HIGH 10, MEDIUM 5, LOW 1.
pub fn priority_weight(priority: TaskPriority) -> (weight: u32)
    ensures
        weight == weight_of(priority),
{
    match priority {
        TaskPriority::HIGH => HIGH_PRIORITY_WEIGHT,
        TaskPriority::MEDIUM => MEDIUM_PRIORITY_WEIGHT,
        TaskPriority::LOW => LOW_PRIORITY_WEIGHT,
    }
}

/// A first-in first-out queue of deferred tasks.
#[derive(Debug)]
pub struct TaskScheduler {
    queue: VecDeque<TaskRequest>,
}

impl View for TaskScheduler {
    type V = Seq<TaskRequest>;

    closed spec fn view(&self) -> Seq<TaskRequest> {
        self.queue@
    }
}

proof fn lemma_take_succ(tasks: Seq<TaskRequest>, i: int)
    requires
        0 <= i < tasks.len(),
    ensures
        tasks.take(i + 1).drop_last() == tasks.take(i),
        tasks.take(i + 1).last() == tasks[i],
{
    assert(tasks.take(i + 1).drop_last() =~= tasks.take(i));
}

proof fn lemma_pressure_prefix(tasks: Seq<TaskRequest>, i: int)
    requires
        0 <= i <= tasks.len(),
    ensures
        pressure(tasks.take(i)) <= pressure(tasks),
    decreases tasks.len(),
{
    if i < tasks.len() {
        lemma_pressure_prefix(tasks.drop_last(), i);
        assert(tasks.drop_last().take(i) =~= tasks.take(i));
    } else {
        assert(tasks.take(i) =~= tasks);
    }
}

/// Whether a task is a CV feature task.
pub open spec fn is_cv_task(task: TaskRequest) -> bool {
    task.task_type == TaskType::CV_FEATURES
}

/// The CV count of a queue is the number of its CV feature tasks: the
/// length of the queue filtered to them. Change detections and VLM queries
/// never count.
pub proof fn lemma_cv_count_counts_cv_tasks(tasks: Seq<TaskRequest>)
    ensures
        cv_count(tasks) == tasks.filter(|t: TaskRequest| is_cv_task(t)).len(),
        cv_count(tasks) <= tasks.len(),
    decreases tasks.len(),
{
    let pred = |t: TaskRequest| is_cv_task(t);
    if tasks.len() > 0 {
        lemma_cv_count_counts_cv_tasks(tasks.drop_last());
        assert(tasks =~= tasks.drop_last().push(tasks.last()));
        tasks.drop_last().lemma_filter_push(tasks.last(), pred);
    } else {
        assert(tasks.filter(pred) =~= Seq::<TaskRequest>::empty()) by {
            reveal(Seq::filter);
        }
    }
}

/// Deferring a task raises the queue pressure by exactly its weight.
pub proof fn lemma_pressure_push(tasks: Seq<TaskRequest>, task: TaskRequest)
    ensures
        pressure(tasks.push(task)) == pressure(tasks) + weight_of(task.priority),
{
    assert(tasks.push(task).drop_last() =~= tasks);
}

/// Popping the front task lowers the queue pressure by exactly its weight.
pub proof fn lemma_pressure_pop_front(tasks: Seq<TaskRequest>)
    requires
        tasks.len() > 0,
    ensures
        pressure(tasks) == weight_of(tasks[0].priority) + pressure(tasks.drop_first()),
    decreases tasks.len(),
{
    if tasks.len() > 1 {
        lemma_pressure_pop_front(tasks.drop_last());
        assert(tasks.drop_last().drop_first() =~= tasks.drop_first().drop_last());
        assert(tasks.drop_first().last() == tasks.last());
        assert(tasks.drop_last()[0] == tasks[0]);
    } else {
        assert(tasks.drop_first() =~= Seq::<TaskRequest>::empty());
        assert(tasks.drop_last() =~= Seq::<TaskRequest>::empty());
    }
}

impl TaskScheduler {
    /// An empty scheduler.
    pub fn new() -> (scheduler: Self)
        ensures
            scheduler@ == Seq::<TaskRequest>::empty(),
    {
        TaskScheduler { queue: VecDeque::new() }
    }

    /// Puts `task` at the back of the queue.
    pub fn defer(&mut self, task: TaskRequest)
        ensures
            final(self)@ == old(self)@.push(task),
    {
        self.queue.push_back(task);
    }

    /// Takes the task at the front of the queue, if any.
    pub fn pop_next(&mut self) -> (task: Option<TaskRequest>)
        ensures
            old(self)@.len() == 0 ==> task is None && final(self)@ == old(self)@,
            old(self)@.len() > 0 ==> task == Some(old(self)@[0]) && final(self)@
                == old(self)@.drop_first(),
    {
        let task = self.queue.pop_front();
        proof {
            if old(self)@.len() > 0 {
                assert(old(self)@.drop_first() =~= old(self)@.subrange(1, old(self)@.len() as int));
            }
        }
        task
    }

    /// Whether no task is queued.
    pub fn is_empty(&self) -> (empty: bool)
        ensures
            empty == (self@.len() == 0),
    {
        self.queue.len() == 0
    }

    /// How many tasks are queued.
    pub fn len(&self) -> (count: usize)
        ensures
            count == self@.len(),
    {
        self.queue.len()
    }

    /// The sum of the priority weights of the queued tasks.
    pub fn queue_pressure(&self) -> (total: u32)
        requires
            pressure(self@) <= u32::MAX,
        ensures
            total == pressure(self@),
    {
        let n = self.queue.len();
        let mut total: u32 = 0;
        let mut i: usize = 0;
        while i < n
            invariant
                n == self@.len(),
                i <= n,
                total == pressure(self@.take(i as int)),
                pressure(self@) <= u32::MAX,
            decreases n - i,
        {
            proof {
                lemma_take_succ(self@, i as int);
                lemma_pressure_prefix(self@, i as int + 1);
            }
            total = total + priority_weight(self.queue[i].priority);
            i = i + 1;
        }
        proof {
            assert(self@.take(n as int) =~= self@);
        }
        total
    }

    /// The queue pressure when it fits a `u32`, None when it does not.
    pub fn checked_queue_pressure(&self) -> (total: Option<u32>)
        ensures
            pressure(self@) <= u32::MAX ==> total == Some(pressure(self@) as u32),
            pressure(self@) > u32::MAX ==> total is None,
    {
        let n = self.queue.len();
        let mut total: u32 = 0;
        let mut i: usize = 0;
        while i < n
            invariant
                n == self@.len(),
                i <= n,
                total == pressure(self@.take(i as int)),
            decreases n - i,
        {
            proof {
                lemma_take_succ(self@, i as int);
            }
            let weight = priority_weight(self.queue[i].priority);
            if total > u32::MAX - weight {
                proof {
                    lemma_pressure_prefix(self@, i as int + 1);
                }
                return None;
            }
            total = total + weight;
            i = i + 1;
        }
        proof {
            assert(self@.take(n as int) =~= self@);
        }
        Some(total)
    }

    /// Whether at least two CV feature tasks are queued.
    pub fn cv_burst_active(&self) -> (active: bool)
        ensures
            active == (cv_count(self@) >= 2),
            active == (self@.filter(|t: TaskRequest| is_cv_task(t)).len() >= 2),
    {
        proof {
            lemma_cv_count_counts_cv_tasks(self@);
        }
        let n = self.queue.len();
        let mut count: usize = 0;
        let mut i: usize = 0;
        while i < n
            invariant
                n == self@.len(),
                i <= n,
                count == cv_count(self@.take(i as int)),
                count <= i,
            decreases n - i,
        {
            proof {
                lemma_take_succ(self@, i as int);
            }
            if self.queue[i].task_type == TaskType::CV_FEATURES {
                count = count + 1;
            }
            i = i + 1;
        }
        proof {
            assert(self@.take(n as int) =~= self@);
        }
        count >= 2
    }
}

impl Default for TaskScheduler {
    fn default() -> (scheduler: Self)
        ensures
            scheduler@ == Seq::<TaskRequest>::empty(),
    {
        TaskScheduler::new()
    }
}

/// Deferring never lets a task overtake the ones already queued: on a
/// non-empty queue the next task to pop is unchanged, and the rest of the
/// queue after popping ends with the deferred task; on an empty queue the
/// deferred task is the next to pop.
pub proof fn lemma_defer_keeps_fifo_order(queued: Seq<TaskRequest>, task: TaskRequest)
    ensures
        queued.len() > 0 ==> queued.push(task)[0] == queued[0] && queued.push(task).drop_first()
            == queued.drop_first().push(task),
        queued.len() == 0 ==> queued.push(task)[0] == task && queued.push(task).drop_first()
            == queued,
{
    if queued.len() > 0 {
        assert(queued.push(task).drop_first() =~= queued.drop_first().push(task));
    } else {
        assert(queued.push(task).drop_first() =~= queued);
    }
}

} // verus!
