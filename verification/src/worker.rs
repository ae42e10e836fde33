//! Workers: the identity of a live worker process and the dispatch protocol
//! it follows to claim a task, run it with the queue lock released, and
//! commit the outcome.
use crate::config::Config;
use crate::job;
use crate::queue::{TaskNotFound, TaskQueueLock};
use crate::task::{Task, TaskResult, TaskState};
use crate::timestamp::NsTimestamp;
use crate::uuid_string::UuidString;
use vstd::prelude::*;

verus! {

/// The identity of a live worker: a human-readable name, its process id, the
/// moment the process was born, and the address its control-plane listener
/// answers on, in textual form.
#[derive(Debug, Clone)]
pub struct WorkerInfo {
    pub name: String,
    pub pid: u32,
    pub birth_timestamp: NsTimestamp,
    pub address: String,
}

/// The mathematical value of a worker identity.
pub struct WorkerInfoView {
    pub name: Seq<char>,
    pub pid: u32,
    pub birth_timestamp: int,
    pub address: Seq<char>,
}

impl View for WorkerInfo {
    type V = WorkerInfoView;

    open spec fn view(&self) -> WorkerInfoView {
        WorkerInfoView {
            name: self.name@,
            pid: self.pid,
            birth_timestamp: self.birth_timestamp@,
            address: self.address@,
        }
    }
}

/// Failure of one dispatch attempt.
#[derive(Debug)]
pub enum Error {
    /// The queue file could not be read under its lock.
    CannotReadQueue(crate::lockfile::Error),
    /// The queue lock could not be taken again for the commit.
    CannotReopenQueue(crate::lockfile::Error),
    /// The queue file could not be written.
    CannotWriteQueue(crate::lockfile::Error),
    /// The claimed task was gone again at commit time.
    CannotUpdateTask(TaskNotFound),
    /// The requested task is not in the queue.
    TaskNotFound(UuidString),
    /// No task is waiting in the queue.
    NoTopQueuedTask,
}

/// Failure to bring a worker up.
#[derive(Debug)]
pub enum WorkerCreateError {
    /// The configuration could not be read.
    ConfigError(crate::lockfile::Error),
    /// The control-plane listener could not be bound.
    TcpListenerBindError(String),
    /// The listener's local address could not be read.
    TcpListenerLocalAddrError(String),
}

/// A worker: its identity and the configuration it operates under. Binding
/// the control-plane listener and touching the queue file are the embedding
/// program's business; the claim and commit decisions are made here.
#[derive(Debug)]
pub struct Worker {
    info: WorkerInfo,
    config: Config,
}

impl Worker {
    /// This worker's identity, as a value.
    pub closed spec fn spec_info(&self) -> WorkerInfo {
        self.info
    }

    /// The configuration this worker operates under, as a value.
    pub closed spec fn spec_config(&self) -> Config {
        self.config
    }

    /// A worker from an identity and a configuration.
    pub fn new(info: WorkerInfo, config: Config) -> (r: Worker)
        ensures
            r.spec_info() == info,
            r.spec_config() == config,
    {
        Worker { info, config }
    }

    /// This worker's identity.
    pub fn worker_info(&self) -> (r: &WorkerInfo)
        ensures
            r == self.spec_info(),
    {
        &self.info
    }

    /// The configuration this worker operates under.
    pub fn config(&self) -> (r: &Config)
        ensures
            r == self.spec_config(),
    {
        &self.config
    }
}

} // verus!

verus! {

impl WorkerInfo {
    /// An exact copy.
    pub fn duplicate(&self) -> (r: WorkerInfo)
        ensures
            r@ == self@,
    {
        WorkerInfo {
            name: self.name.clone(),
            pid: self.pid,
            birth_timestamp: self.birth_timestamp,
            address: self.address.clone(),
        }
    }
}

} // verus!

verus! {

impl Worker {
    /// Claims the first queued task of `queue` for this worker at `now`:
    /// the claim protocol's durability point is the caller then writing the
    /// queue back while still holding the lock. Reports that there is no
    /// work exactly where nothing is queued.
    pub fn claim_top_task(&self, queue: &mut TaskQueueLock, now: NsTimestamp) -> (r: Result<
        Task,
        Error,
    >)
        ensures
            crate::queue::first_queued(old(queue)@) == old(queue)@.len() ==> (r matches Err(
                Error::NoTopQueuedTask,
            )) && final(queue)@ == old(queue)@,
            crate::queue::first_queued(old(queue)@) < old(queue)@.len() ==> match r {
                Ok(t) => {
                    let i = crate::queue::first_queued(old(queue)@);
                    &&& t@ == (crate::task::TaskView {
                        state: TaskState::Working,
                        start_timestamp: Some(now@),
                        worker_info: Some(self.spec_info()@),
                        ..old(queue)@[i]
                    })
                    &&& final(queue)@ == old(queue)@.update(i, t@)
                    &&& crate::task::envelope_consistent(t@)
                },
                Err(_) => false,
            },
            crate::queue::uuids_unique(old(queue)@) ==> crate::queue::uuids_unique(final(queue)@),
    {
        match queue.claim_top_task(now, self.info.duplicate()) {
            Some(task) => Ok(task),
            None => Err(Error::NoTopQueuedTask),
        }
    }

    /// Claims the task with this UUID, but only while it still waits in the
    /// queue: a working or finished task is never moved back. A missing
    /// UUID and a task that is no longer claimable are distinct outcomes.
    pub fn claim_task_by_uuid(
        &self,
        queue: &mut TaskQueueLock,
        task_uuid: UuidString,
        now: NsTimestamp,
    ) -> (r: Result<Task, Error>)
        ensures
            ({
                let i = crate::queue::find_uuid(old(queue)@, task_uuid@);
                match r {
                    Ok(t) => i < old(queue)@.len() && old(queue)@[i].state == TaskState::Queued
                        && t@ == (crate::task::TaskView {
                        state: TaskState::Working,
                        start_timestamp: Some(now@),
                        worker_info: Some(self.spec_info()@),
                        ..old(queue)@[i]
                    }) && final(queue)@ == old(queue)@.update(i, t@)
                        && crate::task::envelope_consistent(t@),
                    Err(Error::TaskNotFound(u)) => u@ == task_uuid@ && i == old(queue)@.len()
                        && final(queue)@ == old(queue)@,
                    Err(Error::NoTopQueuedTask) => i < old(queue)@.len() && old(queue)@[i].state
                        != TaskState::Queued && final(queue)@ == old(queue)@,
                    Err(_) => false,
                }
            }),
            crate::queue::uuids_unique(old(queue)@) ==> crate::queue::uuids_unique(final(queue)@),
    {
        match queue.claim_task_by_uuid(task_uuid, now, self.info.duplicate()) {
            Ok(task) => Ok(task),
            Err(crate::queue::ClaimError::NotFound) => Err(Error::TaskNotFound(task_uuid)),
            Err(crate::queue::ClaimError::NotQueued) => Err(Error::NoTopQueuedTask),
        }
    }

    /// Commits a finished task back into the reopened queue: the record
    /// with its UUID is replaced in place. The task having vanished between
    /// claim and commit is the distinct protocol failure the caller
    /// reports.
    pub fn commit_task(&self, queue: &mut TaskQueueLock, task: Task) -> (r: Result<(), Error>)
        ensures
            crate::queue::find_uuid(old(queue)@, task@.uuid) < old(queue)@.len() ==> r is Ok
                && final(queue)@ == old(queue)@.update(
                crate::queue::find_uuid(old(queue)@, task@.uuid),
                task@,
            ),
            crate::queue::find_uuid(old(queue)@, task@.uuid) == old(queue)@.len() ==> (r matches
                Err(Error::CannotUpdateTask(e)) && e.0@ == task@.uuid) && final(queue)@ == old(
                queue,
            )@,
            crate::queue::uuids_unique(old(queue)@) ==> crate::queue::uuids_unique(final(queue)@),
    {
        match queue.update_task(task) {
            Ok(()) => Ok(()),
            Err(e) => Err(Error::CannotUpdateTask(e)),
        }
    }
}

} // verus!
