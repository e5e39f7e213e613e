//! What the reader hands to the processor, and what the processor makes of
//! it.

use crate::datatypes::{EventTime, TimeFormat};
use vstd::pervasive::unreached;
use vstd::prelude::*;

verus! {

/// What the processor is asked to do.
#[derive(PartialEq, Eq, Clone, Copy, Debug, Structural)]
pub enum TaskCmd {
    Process,
    ClearCache,
    Terminate,
}

/// A message from the reader to the processor: the data of a pull with the
/// number of the pull and the time at which it began, or a command.
pub struct TaskResult<T> {
    pub data: Option<T>,
    pub work_id: Option<usize>,
    pub t: EventTime,
    pub cmd: TaskCmd,
}

/// What the processor does with a message.
#[derive(PartialEq, Eq, Clone, Copy, Debug, Structural)]
pub enum WorkerAction {
    /// Makes events of the data of pull `work_id`.
    Decode { work_id: usize },
    /// Forgets what was written, and goes on.
    ClearCache,
    /// Ends.
    Terminate,
    /// Goes on to the next message.
    Skip,
}

/// The time of a message that carries no data.
pub open spec fn no_time() -> EventTime {
    EventTime { secs: 0, nanos: 0, monotonic: 0, time_format: TimeFormat::Omit }
}

impl<T> TaskResult<T> {
    /// Whether data comes with the number of its pull.
    pub open spec fn wf(&self) -> bool {
        self.data is Some ==> self.work_id is Some
    }

    /// The message with the data of pull `work_id`, which began at `t`.
    pub fn process(data: T, work_id: usize, t: EventTime) -> (r: Self)
        ensures
            r.wf(),
            r.data == Some(data),
            r.work_id == Some(work_id),
            r.t == t,
            r.cmd == TaskCmd::Process,
    {
        TaskResult { data: Some(data), work_id: Some(work_id), t, cmd: TaskCmd::Process }
    }

    /// The message that has the processor forget what was written.
    pub fn clear_cache() -> (r: Self)
        ensures
            r.wf(),
            r.data is None,
            r.work_id is None,
            r.t == no_time(),
            r.cmd == TaskCmd::ClearCache,
    {
        TaskResult {
            data: None,
            work_id: None,
            t: EventTime::new(TimeFormat::Omit, 0, 0, 0),
            cmd: TaskCmd::ClearCache,
        }
    }

    /// The message that ends the processor.
    pub fn terminate() -> (r: Self)
        ensures
            r.wf(),
            r.data is None,
            r.work_id is None,
            r.t == no_time(),
            r.cmd == TaskCmd::Terminate,
    {
        TaskResult {
            data: None,
            work_id: None,
            t: EventTime::new(TimeFormat::Omit, 0, 0, 0),
            cmd: TaskCmd::Terminate,
        }
    }

    /// What the processor does with this message. Data is decoded, whatever
    /// the command says; without data the command counts, and a command to
    /// process nothing is passed over.
    pub open spec fn action_spec(&self) -> WorkerAction {
        match self.data {
            Some(_) => WorkerAction::Decode { work_id: self.work_id->0 },
            None => match self.cmd {
                TaskCmd::ClearCache => WorkerAction::ClearCache,
                TaskCmd::Terminate => WorkerAction::Terminate,
                TaskCmd::Process => WorkerAction::Skip,
            },
        }
    }

    /// Decides what the processor does with this message.
    pub fn action(&self) -> (r: WorkerAction)
        requires
            self.wf(),
        ensures
            r == self.action_spec(),
    {
        match &self.data {
            Some(_) => match self.work_id {
                Some(i) => WorkerAction::Decode { work_id: i },
                None => unreached(),
            },
            None => match self.cmd {
                TaskCmd::ClearCache => WorkerAction::ClearCache,
                TaskCmd::Terminate => WorkerAction::Terminate,
                TaskCmd::Process => WorkerAction::Skip,
            },
        }
    }
}

} // verus!
