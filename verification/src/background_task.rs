//! Background tasks: which of them run, and what is left of those that have finished.

use crate::ident::TaskId;
use crate::task_log::{BackgroundTaskLogs, LogLine};
use vstd::prelude::*;

verus! {

/// A task that runs.
#[derive(Debug, PartialEq, Eq)]
pub struct RunningTask {
    pub id: TaskId,
    pub name: String,
    /// Whether the task is shown once it has finished.
    pub display: bool,
}

/// What is left of a task that has finished: its name, its log, and how it ended.
#[derive(Debug, PartialEq, Eq)]
pub struct FinishedTask {
    pub name: String,
    pub logs: Vec<LogLine>,
    pub result: Result<(), String>,
}

/// Keeps the books of the background tasks.
#[derive(Debug)]
pub struct BackgroundTaskManager {
    pub running_tasks: Vec<RunningTask>,
    pub finished_tasks: Vec<FinishedTask>,
    pub task_logs: BackgroundTaskLogs,
    pub next_id: TaskId,
}

/// Where the task of the given number stands among the running tasks, if it runs.
pub open spec fn position_of(running: Seq<RunningTask>, id: TaskId) -> Option<int> {
    crate::db::model::first_where(running, |t: RunningTask| t.id == id)
}

impl BackgroundTaskManager {
    /// No tasks yet.
    pub fn new(task_logs: BackgroundTaskLogs) -> (r: BackgroundTaskManager)
        ensures
            r.running_tasks@.len() == 0,
            r.finished_tasks@.len() == 0,
            r.task_logs == task_logs,
            r.next_id == TaskId(0),
    {
        BackgroundTaskManager {
            running_tasks: Vec::new(),
            finished_tasks: Vec::new(),
            task_logs,
            next_id: TaskId(0),
        }
    }

    /// Books a task that is about to start, and returns the number under which it runs.
    /// Nothing is booked once all numbers are used up.
    pub fn spawn(&mut self, name: &str, display: bool) -> (r: Option<TaskId>)
        ensures
            final(self).finished_tasks == old(self).finished_tasks,
            final(self).task_logs == old(self).task_logs,
            match r {
                Some(id) => {
                    &&& id == old(self).next_id
                    &&& id.0 < usize::MAX
                    &&& final(self).next_id == TaskId((id.0 + 1) as usize)
                    &&& final(self).running_tasks@.len() == old(self).running_tasks@.len() + 1
                    &&& final(self).running_tasks@.last().id == id
                    &&& final(self).running_tasks@.last().name@ == name@
                    &&& final(self).running_tasks@.last().display == display
                    &&& final(self).running_tasks@.drop_last() == old(self).running_tasks@
                },
                None => old(self).next_id.0 == usize::MAX && final(self).running_tasks == old(self).running_tasks && final(self).next_id == old(self).next_id,
            },
    {
        if self.next_id.0 == usize::MAX {
            return None;
        }
        let id = self.next_id;
        self.next_id = TaskId(id.0 + 1);
        self.running_tasks.push(RunningTask { id, name: name.to_owned(), display });
        assert(final(self).running_tasks@.drop_last() =~= old(self).running_tasks@);
        Some(id)
    }

    /// Whether any task runs.
    pub fn any_running(&self) -> (r: bool)
        ensures
            r == (self.running_tasks@.len() > 0),
    {
        self.running_tasks.len() > 0
    }

    /// Books the end of a task. The task runs no longer; if it is one to be shown, what is
    /// left of it joins the finished tasks, with the log lines that were kept for it.
    /// Returns whether the task ran.
    pub fn finish(&mut self, id: TaskId, result: Result<(), String>) -> (ran: bool)
        ensures
            final(self).next_id == old(self).next_id,
            match position_of(old(self).running_tasks@, id) {
                Some(i) => {
                    &&& ran
                    &&& final(self).running_tasks@ == old(self).running_tasks@.remove(i)
                    &&& if old(self).running_tasks@[i].display {
                        &&& final(self).finished_tasks@.len() == old(self).finished_tasks@.len()
                            + 1
                        &&& final(self).finished_tasks@.drop_last() == old(self).finished_tasks@
                        &&& final(self).finished_tasks@.last().name == old(self).running_tasks@[i].name
                        &&& final(self).finished_tasks@.last().result == result
                        &&& final(self).finished_tasks@.last().logs@ == old(self).task_logs.of_task(
                            id,
                        )
                        &&& final(self).task_logs.of_task(id) == Seq::<LogLine>::empty()
                    } else {
                        &&& final(self).finished_tasks == old(self).finished_tasks
                        &&& final(self).task_logs == old(self).task_logs
                    }
                },
                None => !ran && final(self).running_tasks == old(self).running_tasks && final(self).finished_tasks == old(self).finished_tasks && final(self).task_logs == old(self).task_logs,
            },
    {
        let mut i: usize = 0;
        while i < self.running_tasks.len()
            invariant
                i <= self.running_tasks@.len(),
                *self == *old(self),
                forall|j: int| 0 <= j < i ==> self.running_tasks@[j].id != id,
            decreases self.running_tasks@.len() - i,
        {
            if self.running_tasks[i].id.0 == id.0 {
                proof {
                    crate::db::model::lemma_first_where_is(
                        self.running_tasks@,
                        |t: RunningTask| t.id == id,
                        i as int,
                    );
                }
                let task = self.running_tasks.remove(i);
                if task.display {
                    let logs = self.task_logs.extract_logs(id);
                    self.finished_tasks.push(FinishedTask { name: task.name, logs, result });
                    assert(final(self).finished_tasks@.drop_last() =~= old(self).finished_tasks@);
                }
                return true;
            }
            i += 1;
        }
        proof {
            crate::db::model::lemma_first_where_none(
                self.running_tasks@,
                |t: RunningTask| t.id == id,
            );
        }
        false
    }
}

/// How a background task stands.
#[derive(Debug, PartialEq, Eq)]
pub struct BackgroundTaskState {
    pub name: String,
    pub message: String,
    /// Thousandths of the whole.
    pub progress: u32,
    pub done: bool,
}

impl BackgroundTaskState {
    /// The task is over: all of the work is done.
    pub fn complete(&mut self)
        ensures
            final(self).progress == 1000,
            final(self).done,
            final(self).name == old(self).name,
            final(self).message == old(self).message,
    {
        self.progress = 1000;
        self.done = true;
    }
}

/// Whether any of the tasks is not done yet.
pub fn any_running(states: &Vec<BackgroundTaskState>) -> (r: bool)
    ensures
        r == exists|i: int| 0 <= i < states@.len() && !states@[i].done,
{
    let mut i: usize = 0;
    while i < states.len()
        invariant
            i <= states@.len(),
            forall|j: int| 0 <= j < i ==> states@[j].done,
        decreases states@.len() - i,
    {
        if !states[i].done {
            return true;
        }
        i += 1;
    }
    false
}

} // verus!
