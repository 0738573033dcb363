//! The log lines of background tasks, kept apart for each task until someone takes them.

use crate::ident::TaskId;
use std::collections::HashMap;
use vstd::prelude::*;

verus! {

broadcast use vstd::std_specs::hash::group_hash_axioms;

/// How grave a log line is, gravest first.
#[derive(Debug, Clone, Copy, PartialEq, Eq, Structural)]
pub enum LogLevel {
    Error,
    Warn,
    Info,
    Debug,
    Trace,
}

impl LogLevel {
    /// Whether lines of the level are kept: those of debugging and tracing are not.
    pub open spec fn is_kept(self) -> bool {
        self is Error || self is Warn || self is Info
    }

    /// Whether lines of the level are kept.
    pub fn kept(self) -> (r: bool)
        ensures
            r == self.is_kept(),
    {
        match self {
            LogLevel::Error | LogLevel::Warn | LogLevel::Info => true,
            _ => false,
        }
    }
}

/// One line of a task's log: its level and its message.
#[derive(Debug, PartialEq, Eq)]
pub struct LogLine {
    pub level: LogLevel,
    pub message: String,
}

/// The lines that each task has logged and nobody has taken yet.
#[derive(Debug)]
pub struct BackgroundTaskLogs {
    pub lines: HashMap<usize, Vec<LogLine>>,
}

impl BackgroundTaskLogs {
    /// The lines of a task, in the order in which they were logged; none for a task that
    /// has none.
    pub open spec fn of_task(&self, id: TaskId) -> Seq<LogLine> {
        if self.lines@.contains_key(id.0) {
            self.lines@[id.0]@
        } else {
            Seq::empty()
        }
    }

    /// Takes the lines of a task out of the log. The task has no lines afterwards; the
    /// lines of other tasks stay.
    pub fn extract_logs(&mut self, id: TaskId) -> (r: Vec<LogLine>)
        ensures
            r@ == old(self).of_task(id),
            final(self).of_task(id) == Seq::<LogLine>::empty(),
            forall|other: TaskId| other != id ==> final(self).of_task(other) == old(self).of_task(other),
    {
        match self.lines.remove(&id.0) {
            Some(lines) => lines,
            None => Vec::new(),
        }
    }

    /// Adds a line to the log of a task, behind the lines the task has already.
    pub fn push(&mut self, id: TaskId, line: LogLine)
        ensures
            final(self).of_task(id) == old(self).of_task(id).push(line),
            forall|other: TaskId| other != id ==> final(self).of_task(other) == old(self).of_task(other),
    {
        let mut lines = match self.lines.remove(&id.0) {
            Some(lines) => lines,
            None => Vec::new(),
        };
        lines.push(line);
        self.lines.insert(id.0, lines);
    }
}

/// Collects the log lines of background tasks.
#[derive(Debug)]
pub struct BackgroundTaskLogSubscriber {
    pub logs: BackgroundTaskLogs,
}

impl BackgroundTaskLogSubscriber {
    /// A subscriber that has collected nothing.
    pub fn new() -> (r: BackgroundTaskLogSubscriber)
        ensures
            forall|id: TaskId| r.logs.of_task(id) == Seq::<LogLine>::empty(),
    {
        BackgroundTaskLogSubscriber { logs: BackgroundTaskLogs { lines: HashMap::new() } }
    }

    /// What was collected.
    pub fn get_logs(&self) -> (r: &BackgroundTaskLogs)
        ensures
            *r == self.logs,
    {
        &self.logs
    }

    /// Takes in one event. It is kept if its level is kept, if it happened within a
    /// task, and if it has a message; then it becomes the last line of that task.
    pub fn on_event(&mut self, level: LogLevel, task: Option<TaskId>, message: Option<String>)
        ensures
            match (task, message) {
                (Some(id), Some(text)) if level.is_kept() => {
                    &&& final(self).logs.of_task(id) == old(self).logs.of_task(id).push(
                        LogLine { level, message: text },
                    )
                    &&& forall|other: TaskId|
                        other != id ==> final(self).logs.of_task(other) == old(self).logs.of_task(
                            other,
                        )
                },
                _ => final(self).logs == old(self).logs,
            },
    {
        if !level.kept() {
            return ;
        }
        match (task, message) {
            (Some(id), Some(text)) => {
                self.logs.push(id, LogLine { level, message: text });
            },
            _ => {},
        }
    }
}

/// Finds the number of the task among the fields of a span.
#[derive(Debug)]
pub struct GetIdVisitor {
    pub id: Option<TaskId>,
}

impl GetIdVisitor {
    /// A visitor that has found nothing.
    pub fn new() -> (r: GetIdVisitor)
        ensures
            r.id is None,
    {
        GetIdVisitor { id: None }
    }

    /// What was found.
    pub fn consume(self) -> (r: Option<TaskId>)
        ensures
            r == self.id,
    {
        self.id
    }

    /// Visits an unsigned field: the field `task_id` is the number of the task, cut to
    /// the width of the machine.
    pub fn record_u64(&mut self, field: &str, value: u64)
        ensures
            final(self).id == if field@ == "task_id"@ {
                Some(TaskId(value as usize))
            } else {
                old(self).id
            },
    {
        if crate::text::str_equal(field, "task_id") {
            self.id = Some(TaskId(#[verifier::truncate] (value as usize)));
        }
    }

    /// Visits a signed field, read as unsigned.
    pub fn record_i64(&mut self, field: &str, value: i64)
        ensures
            final(self).id == if field@ == "task_id"@ {
                Some(TaskId((value as u64) as usize))
            } else {
                old(self).id
            },
    {
        self.record_u64(field, #[verifier::truncate] (value as u64));
    }
}

/// Finds the message among the fields of an event.
#[derive(Debug)]
pub struct GetMsgVisitor {
    pub msg: Option<String>,
}

impl GetMsgVisitor {
    /// A visitor that has found nothing.
    pub fn new() -> (r: GetMsgVisitor)
        ensures
            r.msg is None,
    {
        GetMsgVisitor { msg: None }
    }

    /// What was found.
    pub fn consume(self) -> (r: Option<String>)
        ensures
            r == self.msg,
    {
        self.msg
    }

    /// Visits a text field: the field `message` is the message.
    pub fn record_str(&mut self, field: &str, value: &str)
        ensures
            if field@ == "message"@ {
                final(self).msg matches Some(text) && text@ == value@
            } else {
                final(self).msg == old(self).msg
            },
    {
        if crate::text::str_equal(field, "message") {
            self.msg = Some(value.to_owned());
        }
    }
}

} // verus!
