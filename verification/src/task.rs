//! Tasks: one unit of queued work and its lifecycle envelope.
//!
//! A task moves `Queued -> Working -> Done | Failed` and never leaves a
//! terminal state. A claimed task records who started it and when; a
//! finished task records when it ended and with what outcome.
use crate::job::{self, Job, JobView};
use crate::timestamp::NsTimestamp;
use crate::uuid_string::UuidString;
use crate::worker::{WorkerInfo, WorkerInfoView};
use vstd::prelude::*;

verus! {

/// Where a task stands in its lifecycle.
#[derive(Debug, Clone, Copy, PartialEq, Eq, Structural)]
pub enum TaskState {
    /// Waiting to be claimed; the only legal initial state.
    Queued,
    /// Claimed by a worker and running.
    Working,
    /// Finished successfully; terminal.
    Done,
    /// Finished with a failure; terminal.
    Failed,
}

impl Default for TaskState {
    /// A new task waits in the queue.
    fn default() -> (r: TaskState)
        ensures
            r == TaskState::Queued,
    {
        TaskState::Queued
    }
}

/// Whether one observation of a task's state may legally follow another.
/// Terminal states never change.
pub open spec fn state_can_follow(before: TaskState, after: TaskState) -> bool {
    match before {
        TaskState::Queued => true,
        TaskState::Working => after != TaskState::Queued,
        TaskState::Done => after == TaskState::Done,
        TaskState::Failed => after == TaskState::Failed,
    }
}

/// Once a task is done or failed, nothing may follow but that same state.
pub proof fn lemma_terminal_states_are_final(before: TaskState, after: TaskState)
    ensures
        before == TaskState::Done && state_can_follow(before, after) ==> after == TaskState::Done,
        before == TaskState::Failed && state_can_follow(before, after) ==> after
            == TaskState::Failed,
        state_can_follow(before, after) && after == TaskState::Queued ==> before
            == TaskState::Queued,
{
}

/// The typed outcome of running a task's job.
#[derive(Debug, Clone)]
pub enum TaskResult {
    Success(job::Success),
    Error(job::Error),
}

/// The mathematical value of a task outcome.
pub enum TaskResultView {
    Success(job::SuccessView),
    Error(job::ErrorView),
}

impl View for TaskResult {
    type V = TaskResultView;

    open spec fn view(&self) -> TaskResultView {
        match self {
            TaskResult::Success(s) => TaskResultView::Success(s@),
            TaskResult::Error(e) => TaskResultView::Error(e@),
        }
    }
}

/// One unit of work and its execution envelope. The identity is the UUID and
/// never changes; the other fields change exactly once per lifecycle step.
#[derive(Debug, Clone)]
pub struct Task {
    /// Stable identity of the task.
    pub uuid: UuidString,
    /// Human-readable name.
    pub name: String,
    /// Free-text comment, if any.
    pub comment: Option<String>,
    /// What the task does.
    pub job: Job,
    /// Where the task stands.
    pub state: TaskState,
    /// When the task was created.
    pub request_timestamp: NsTimestamp,
    /// When a worker started it; set at claim time.
    pub start_timestamp: Option<NsTimestamp>,
    /// Who started it; set at claim time.
    pub worker_info: Option<WorkerInfo>,
    /// When it ended; set at completion.
    pub finish_timestamp: Option<NsTimestamp>,
    /// The typed outcome; set at completion.
    pub result: Option<TaskResult>,
}

/// The mathematical value of a task.
pub struct TaskView {
    pub uuid: u128,
    pub name: Seq<char>,
    pub comment: Option<Seq<char>>,
    pub job: JobView,
    pub state: TaskState,
    pub request_timestamp: int,
    pub start_timestamp: Option<int>,
    pub worker_info: Option<WorkerInfoView>,
    pub finish_timestamp: Option<int>,
    pub result: Option<TaskResultView>,
}

impl View for Task {
    type V = TaskView;

    open spec fn view(&self) -> TaskView {
        TaskView {
            uuid: self.uuid@,
            name: self.name@,
            comment: match &self.comment {
                Some(c) => Some(c@),
                None => None,
            },
            job: self.job@,
            state: self.state,
            request_timestamp: self.request_timestamp@,
            start_timestamp: match &self.start_timestamp {
                Some(t) => Some(t@),
                None => None,
            },
            worker_info: match &self.worker_info {
                Some(w) => Some(w@),
                None => None,
            },
            finish_timestamp: match &self.finish_timestamp {
                Some(t) => Some(t@),
                None => None,
            },
            result: match &self.result {
                Some(r) => Some(r@),
                None => None,
            },
        }
    }
}

/// The envelope matches the state: a working task knows who started it and
/// when; a finished task also knows when it ended and with what outcome.
pub open spec fn envelope_consistent(t: TaskView) -> bool {
    &&& (t.state == TaskState::Working ==> t.start_timestamp is Some && t.worker_info is Some)
    &&& ((t.state == TaskState::Done || t.state == TaskState::Failed) ==> t.start_timestamp
        is Some && t.worker_info is Some && t.finish_timestamp is Some && t.result is Some)
}

impl Task {
    /// A fresh task around `job`: queued, with a new UUID, created now, and
    /// with the whole claim and completion envelope still empty.
    pub fn new(name: String, job: Job) -> (r: Task)
        ensures
            r@.name == name@,
            r@.job == job@,
            r@.comment is None,
            r@.state == TaskState::Queued,
            r@.start_timestamp is None,
            r@.worker_info is None,
            r@.finish_timestamp is None,
            r@.result is None,
            envelope_consistent(r@),
    {
        Task {
            uuid: UuidString::new_v4(),
            name,
            comment: None,
            job,
            state: TaskState::default(),
            request_timestamp: NsTimestamp::now(),
            start_timestamp: None,
            worker_info: None,
            finish_timestamp: None,
            result: None,
        }
    }

    /// The claim step of the dispatch protocol: the task becomes working,
    /// with `now` as its start and `worker` as its keeper. Only a queued
    /// task may be claimed, and only the claim fields change.
    pub fn mark_working(&mut self, now: NsTimestamp, worker: WorkerInfo)
        requires
            old(self).state == TaskState::Queued,
        ensures
            final(self)@ == (TaskView {
                state: TaskState::Working,
                start_timestamp: Some(now@),
                worker_info: Some(worker@),
                ..old(self)@
            }),
            state_can_follow(old(self)@.state, TaskState::Working),
            envelope_consistent(final(self)@),
    {
        self.state = TaskState::Working;
        self.start_timestamp = Some(now);
        self.worker_info = Some(worker);
    }

    /// The completion step of the dispatch protocol: done where the job
    /// executor succeeded, failed where it reported an error, and in either
    /// case finished at `now`. Nothing else changes, and the move from
    /// working to a terminal state is a legal one.
    pub fn finish(&mut self, outcome: Result<job::Success, job::Error>, now: NsTimestamp)
        requires
            old(self).state == TaskState::Working,
        ensures
            final(self)@ == (TaskView {
                state: match outcome {
                    Ok(_) => TaskState::Done,
                    Err(_) => TaskState::Failed,
                },
                finish_timestamp: Some(now@),
                result: Some(
                    match outcome {
                        Ok(s) => TaskResultView::Success(s@),
                        Err(e) => TaskResultView::Error(e@),
                    },
                ),
                ..old(self)@
            }),
            state_can_follow(old(self)@.state, final(self)@.state),
            envelope_consistent(old(self)@) ==> envelope_consistent(final(self)@),
    {
        match outcome {
            Ok(success) => {
                self.state = TaskState::Done;
                self.result = Some(TaskResult::Success(success));
            },
            Err(error) => {
                self.state = TaskState::Failed;
                self.result = Some(TaskResult::Error(error));
            },
        }
        self.finish_timestamp = Some(now);
    }
}

} // verus!

verus! {

impl TaskResult {
    /// An exact copy.
    pub fn duplicate(&self) -> (r: TaskResult)
        ensures
            r@ == self@,
    {
        match self {
            TaskResult::Success(s) => TaskResult::Success(s.duplicate()),
            TaskResult::Error(e) => TaskResult::Error(e.duplicate()),
        }
    }
}

impl Task {
    /// An exact copy.
    pub fn duplicate(&self) -> (r: Task)
        ensures
            r@ == self@,
    {
        Task {
            uuid: self.uuid,
            name: self.name.clone(),
            comment: match &self.comment {
                Some(c) => Some(c.clone()),
                None => None,
            },
            job: self.job.duplicate(),
            state: self.state,
            request_timestamp: self.request_timestamp,
            start_timestamp: self.start_timestamp,
            worker_info: match &self.worker_info {
                Some(w) => Some(w.duplicate()),
                None => None,
            },
            finish_timestamp: self.finish_timestamp,
            result: match &self.result {
                Some(r) => Some(r.duplicate()),
                None => None,
            },
        }
    }
}

} // verus!
