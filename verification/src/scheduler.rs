//! The recurring-task scheduler.
//!
//! Each detector is registered as a named unit of work with a fixed interval.
//! The scheduler decides *when* each unit is due; performing the work (and
//! any waiting) is the application's loop, which reports every outcome back
//! through [`Scheduler::record_tick`]. A unit's outcome never changes its
//! registration: a failing unit is simply due again one interval later, so a
//! transient failure in one detector cannot silence it — nor any other task.
//!
//! Two independent scheduler instances may coexist; each lives in its own
//! [`crate::slot::HandleSlot`] so the shutdown path can stop them without
//! contention.

use vstd::prelude::*;

verus! {

/// One registered recurring unit of work: a unique name, a fixed interval,
/// and the next instant (in seconds) at which the unit is due.
pub struct TaskDescriptor {
    pub name: String,
    pub interval_seconds: u64,
    pub next_due: u64,
}

pub struct Scheduler {
    pub tasks: Vec<TaskDescriptor>,
    pub running: bool,
}

impl Scheduler {
    /// Well-formed: every interval is at least one second and task names are
    /// pairwise distinct.
    pub open spec fn wf(self) -> bool {
        &&& forall|i: int|
            0 <= i < self.tasks@.len() ==> (#[trigger] self.tasks@[i]).interval_seconds >= 1
        &&& forall|i: int, j: int|
            0 <= i < j < self.tasks@.len() ==> (#[trigger] self.tasks@[i]).name@ != (
            #[trigger] self.tasks@[j]).name@
    }

    /// Some task is registered under this name.
    pub open spec fn spec_has_task(self, name: Seq<char>) -> bool {
        exists|i: int| 0 <= i < self.tasks@.len() && (#[trigger] self.tasks@[i]).name@ == name
    }

    /// Task `i` is due at instant `now`: the scheduler dispatches only while
    /// running, and a unit is due once its next-due instant has been reached.
    pub open spec fn task_due(self, i: int, now: u64) -> bool {
        &&& self.running
        &&& 0 <= i < self.tasks@.len()
        &&& self.tasks@[i].next_due <= now
    }

    /// A scheduler starts with no tasks, not yet dispatching.
    pub fn new() -> (s: Scheduler)
        ensures
            s.tasks@ == Seq::<TaskDescriptor>::empty(),
            !s.running,
            s.wf(),
    {
        Scheduler { tasks: Vec::new(), running: false }
    }

    /// Whether a task of this name is registered.
    pub fn has_task(&self, name: &String) -> (r: bool)
        ensures
            r == self.spec_has_task(name@),
    {
        let mut j: usize = 0;
        while j < self.tasks.len()
            invariant
                j <= self.tasks@.len(),
                forall|t: int| 0 <= t < j ==> (#[trigger] self.tasks@[t]).name@ != name@,
            decreases self.tasks@.len() - j,
        {
            if self.tasks[j].name == *name {
                return true;
            }
            j = j + 1;
        }
        false
    }

    /// Register a recurring unit under a unique name. A name already taken
    /// is refused and the scheduler is unchanged; otherwise the unit is
    /// appended, due immediately once the scheduler starts.
    pub fn register(&mut self, name: String, interval_seconds: u64) -> (added: bool)
        requires
            old(self).wf(),
            interval_seconds >= 1,
        ensures
            final(self).wf(),
            added == !old(self).spec_has_task(name@),
            added ==> final(self).tasks@ == old(self).tasks@.push(
                TaskDescriptor { name, interval_seconds, next_due: 0 },
            ),
            added ==> final(self).running == old(self).running,
            !added ==> *final(self) == *old(self),
    {
        if self.has_task(&name) {
            return false;
        }
        self.tasks.push(TaskDescriptor { name, interval_seconds, next_due: 0 });
        true
    }

    /// Begin dispatching: every registered unit becomes due one full
    /// interval after `now`.
    pub fn start(&mut self, now: u64)
        requires
            old(self).wf(),
            forall|i: int|
                0 <= i < old(self).tasks@.len() ==> now + (
                #[trigger] old(self).tasks@[i]).interval_seconds <= u64::MAX,
        ensures
            final(self).wf(),
            final(self).running,
            final(self).tasks@.len() == old(self).tasks@.len(),
            forall|i: int|
                0 <= i < old(self).tasks@.len() ==> (#[trigger] final(self).tasks@[i]).name == old(
                    self,
                ).tasks@[i].name && final(self).tasks@[i].interval_seconds == old(
                    self,
                ).tasks@[i].interval_seconds && final(self).tasks@[i].next_due == now + old(
                    self,
                ).tasks@[i].interval_seconds,
    {
        self.running = true;
        let ghost orig = self.tasks@;
        let mut i: usize = 0;
        while i < self.tasks.len()
            invariant
                i <= orig.len(),
                self.tasks@.len() == orig.len(),
                self.running,
                forall|t: int|
                    0 <= t < orig.len() ==> now + (#[trigger] orig[t]).interval_seconds
                        <= u64::MAX,
                forall|t: int| i <= t < orig.len() ==> #[trigger] self.tasks@[t] == orig[t],
                forall|t: int|
                    0 <= t < i ==> (#[trigger] self.tasks@[t]).name == orig[t].name
                        && self.tasks@[t].interval_seconds == orig[t].interval_seconds
                        && self.tasks@[t].next_due == now + orig[t].interval_seconds,
            decreases orig.len() - i,
        {
            let iv = self.tasks[i].interval_seconds;
            self.tasks[i].next_due = now + iv;
            i = i + 1;
        }
        proof {
            assert forall|i2: int, j2: int|
                0 <= i2 < j2 < self.tasks@.len() implies (#[trigger] self.tasks@[i2]).name@ != (
            #[trigger] self.tasks@[j2]).name@ by {
                assert(orig[i2].name@ != orig[j2].name@);
            }
        }
    }

    /// Halt dispatching: no unit is due while the scheduler is stopped.
    /// Registrations are kept.
    pub fn stop(&mut self)
        requires
            old(self).wf(),
        ensures
            final(self).wf(),
            !final(self).running,
            final(self).tasks@ == old(self).tasks@,
            forall|i: int, now: u64| !final(self).task_due(i, now),
    {
        self.running = false;
    }

    /// The indices of the units due at `now`, in ascending order: exactly
    /// those whose next-due instant has been reached, none while stopped.
    pub fn due_tasks(&self, now: u64) -> (due: Vec<usize>)
        ensures
            forall|k: int| 0 <= k < due@.len() ==> self.task_due(#[trigger] due@[k] as int, now),
            forall|i: int|
                0 <= i < self.tasks@.len() && self.task_due(i, now) ==> due@.contains(i as usize),
            forall|k1: int, k2: int| 0 <= k1 < k2 < due@.len() ==> due@[k1] < due@[k2],
    {
        let mut due: Vec<usize> = Vec::new();
        if !self.running {
            return due;
        }
        let mut i: usize = 0;
        while i < self.tasks.len()
            invariant
                self.running,
                i <= self.tasks@.len(),
                forall|k: int|
                    0 <= k < due@.len() ==> self.task_due(#[trigger] due@[k] as int, now),
                forall|t: int|
                    0 <= t < i && self.task_due(t, now) ==> due@.contains(t as usize),
                forall|k: int| 0 <= k < due@.len() ==> #[trigger] due@[k] < i,
                forall|k1: int, k2: int| 0 <= k1 < k2 < due@.len() ==> due@[k1] < due@[k2],
            decreases self.tasks@.len() - i,
        {
            let ghost prev = due@;
            let is_due = self.tasks[i].next_due <= now;
            if is_due {
                due.push(i);
            }
            proof {
                assert forall|t: int| 0 <= t < i + 1 && self.task_due(t, now) implies due@.contains(
                    t as usize,
                ) by {
                    if t < i {
                        assert(prev.contains(t as usize));
                        let k = choose|k: int| 0 <= k < prev.len() && prev[k] == t as usize;
                        assert(due@[k] == t as usize);
                    } else {
                        assert(is_due);
                        assert(due@[due@.len() - 1] == i as usize);
                    }
                }
            }
            i = i + 1;
        }
        due
    }

    /// Record the outcome of one dispatched tick. Success and failure are
    /// recorded the same way: the unit keeps its registration and becomes
    /// due again one interval after `now`. A failing unit is never
    /// unregistered; it is retried on its next scheduled tick.
    pub fn record_tick(&mut self, i: usize, now: u64, succeeded: bool)
        requires
            old(self).wf(),
            i < old(self).tasks@.len(),
            now + old(self).tasks@[i as int].interval_seconds <= u64::MAX,
        ensures
            final(self).wf(),
            final(self).running == old(self).running,
            final(self).tasks@ == record_tick_model(old(self).tasks@, i as int, now),
    {
        let iv = self.tasks[i].interval_seconds;
        self.tasks[i].next_due = now + iv;
        proof {
            assert(self.tasks@ =~= record_tick_model(old(self).tasks@, i as int, now));
            assert forall|i2: int, j2: int|
                0 <= i2 < j2 < self.tasks@.len() implies (#[trigger] self.tasks@[i2]).name@ != (
            #[trigger] self.tasks@[j2]).name@ by {
                assert(old(self).tasks@[i2].name@ != old(self).tasks@[j2].name@);
            }
        }
    }
}

/// The effect of recording a tick outcome for task `i` at instant `now` on
/// the task list. The outcome itself does not appear: success and failure
/// lead to the same state.
pub open spec fn record_tick_model(tasks: Seq<TaskDescriptor>, i: int, now: u64) -> Seq<
    TaskDescriptor,
> {
    tasks.update(
        i,
        TaskDescriptor {
            name: tasks[i].name,
            interval_seconds: tasks[i].interval_seconds,
            next_due: (now + tasks[i].interval_seconds) as u64,
        },
    )
}

/// Law of failure isolation: after any tick outcome of task `i` is recorded
/// — an error as much as a success — the task list keeps its length, task
/// `i` keeps its name and interval, every other task is untouched, and task
/// `i` is due again at every instant from one interval after `now` on.
pub proof fn lemma_failed_task_is_retried(tasks: Seq<TaskDescriptor>, i: int, now: u64, later: u64)
    requires
        0 <= i < tasks.len(),
        now + tasks[i].interval_seconds <= u64::MAX,
        later >= now + tasks[i].interval_seconds,
    ensures
        record_tick_model(tasks, i, now).len() == tasks.len(),
        record_tick_model(tasks, i, now)[i].name == tasks[i].name,
        record_tick_model(tasks, i, now)[i].interval_seconds == tasks[i].interval_seconds,
        record_tick_model(tasks, i, now)[i].next_due <= later,
        forall|j: int|
            0 <= j < tasks.len() && j != i ==> record_tick_model(tasks, i, now)[j] == tasks[j],
{
}

} // verus!
