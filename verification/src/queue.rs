//! The task queue: an ordered collection of tasks persisted as one record
//! per line in a shared file, guarded by the file lock.
//!
//! The in-memory operations are pure transformations; reading and writing
//! the file under its lock is the embedding program's business.
use crate::lockfile::LockfileHandle;
use crate::task::{Task, TaskState, TaskView};
use crate::timestamp::NsTimestamp;
use crate::worker::WorkerInfo;
use crate::uuid_string::UuidString;
use vstd::prelude::*;

verus! {

/// The position of the first queued task, or the length where none waits.
pub open spec fn first_queued_from(ts: Seq<TaskView>, i: int) -> int
    decreases ts.len() - i,
{
    if i < 0 || i >= ts.len() {
        ts.len() as int
    } else if ts[i].state == TaskState::Queued {
        i
    } else {
        first_queued_from(ts, i + 1)
    }
}

/// The position of the first queued task in the whole queue.
pub open spec fn first_queued(ts: Seq<TaskView>) -> int {
    first_queued_from(ts, 0)
}

/// What the first-queued position means: it is in range only where it names
/// a queued task, and nothing before it is queued.
pub proof fn lemma_first_queued(ts: Seq<TaskView>)
    ensures
        0 <= first_queued(ts) <= ts.len(),
        first_queued(ts) < ts.len() ==> ts[first_queued(ts)].state == TaskState::Queued,
        forall|k: int| 0 <= k < first_queued(ts) ==> ts[k].state != TaskState::Queued,
{
    lemma_first_queued_from(ts, 0);
}

proof fn lemma_first_queued_from(ts: Seq<TaskView>, i: int)
    requires
        0 <= i <= ts.len(),
    ensures
        i <= first_queued_from(ts, i) <= ts.len(),
        first_queued_from(ts, i) < ts.len() ==> ts[first_queued_from(ts, i)].state
            == TaskState::Queued,
        forall|k: int| i <= k < first_queued_from(ts, i) ==> ts[k].state != TaskState::Queued,
    decreases ts.len() - i,
{
    if i < ts.len() && ts[i].state != TaskState::Queued {
        lemma_first_queued_from(ts, i + 1);
    }
}

/// The position of the first task with this UUID, or the length where none
/// has it.
pub open spec fn find_uuid_from(ts: Seq<TaskView>, uuid: u128, i: int) -> int
    decreases ts.len() - i,
{
    if i < 0 || i >= ts.len() {
        ts.len() as int
    } else if ts[i].uuid == uuid {
        i
    } else {
        find_uuid_from(ts, uuid, i + 1)
    }
}

/// The position of the first task with this UUID in the whole queue.
pub open spec fn find_uuid(ts: Seq<TaskView>, uuid: u128) -> int {
    find_uuid_from(ts, uuid, 0)
}

/// What the found position means: it is in range only where it names a task
/// with the UUID, and nothing before it has the UUID.
pub proof fn lemma_find_uuid(ts: Seq<TaskView>, uuid: u128)
    ensures
        0 <= find_uuid(ts, uuid) <= ts.len(),
        find_uuid(ts, uuid) < ts.len() ==> ts[find_uuid(ts, uuid)].uuid == uuid,
        forall|k: int| 0 <= k < find_uuid(ts, uuid) ==> ts[k].uuid != uuid,
{
    lemma_find_uuid_from(ts, uuid, 0);
}

proof fn lemma_find_uuid_from(ts: Seq<TaskView>, uuid: u128, i: int)
    requires
        0 <= i <= ts.len(),
    ensures
        i <= find_uuid_from(ts, uuid, i) <= ts.len(),
        find_uuid_from(ts, uuid, i) < ts.len() ==> ts[find_uuid_from(ts, uuid, i)].uuid == uuid,
        forall|k: int| i <= k < find_uuid_from(ts, uuid, i) ==> ts[k].uuid != uuid,
    decreases ts.len() - i,
{
    if i < ts.len() && ts[i].uuid != uuid {
        lemma_find_uuid_from(ts, uuid, i + 1);
    }
}

/// No two tasks share a UUID.
pub open spec fn uuids_unique(ts: Seq<TaskView>) -> bool {
    forall|i: int, j: int| 0 <= i < j < ts.len() ==> ts[i].uuid != ts[j].uuid
}

/// Adding a task failed: one with the same UUID is already in the queue.
#[derive(Debug)]
pub struct TaskAlreadyExists(pub UuidString);

/// Updating a task failed: no task with this UUID is in the queue.
#[derive(Debug)]
pub struct TaskNotFound(pub UuidString);

/// The task queue, held together with the lock on its file. As long as every
/// participant mutates the file only while holding such a handle, no two
/// processes interleave their updates.
#[derive(Debug)]
pub struct TaskQueueLock {
    tasks: Vec<Task>,
    lockfile: LockfileHandle,
}

impl View for TaskQueueLock {
    type V = Seq<TaskView>;

    closed spec fn view(&self) -> Seq<TaskView> {
        self.tasks@.map_values(|t: Task| t@)
    }
}

impl TaskQueueLock {
    /// The lock handle guarding the queue file, as a value.
    pub closed spec fn spec_lockfile(&self) -> LockfileHandle {
        self.lockfile
    }

    /// A queue around tasks already read from the locked file.
    pub fn new(tasks: Vec<Task>, lockfile: LockfileHandle) -> (r: TaskQueueLock)
        ensures
            r@ == tasks@.map_values(|t: Task| t@),
            r.spec_lockfile() == lockfile,
    {
        TaskQueueLock { tasks, lockfile }
    }

    /// The lock handle guarding the queue file.
    pub fn lock_handle(&self) -> (r: &LockfileHandle)
        ensures
            r == self.spec_lockfile(),
    {
        &self.lockfile
    }

    /// The tasks, in stored order.
    pub fn tasks(&self) -> (r: &Vec<Task>)
        ensures
            r@.map_values(|t: Task| t@) == self@,
    {
        &self.tasks
    }

    /// The first task, by stored order, that still waits in the queue.
    pub fn top_queued_task(&self) -> (r: Option<&Task>)
        ensures
            match r {
                Some(t) => first_queued(self@) < self@.len() && t@ == self@[first_queued(self@)],
                None => first_queued(self@) == self@.len(),
            },
    {
        proof {
            lemma_first_queued(self@);
        }
        let n = self.tasks.len();
        let mut k: usize = 0;
        while k < n
            invariant
                n == self@.len(),
                k <= n,
                first_queued(self@) == first_queued_from(self@, k as int),
            decreases n - k,
        {
            if self.tasks[k].state == TaskState::Queued {
                return Some(&self.tasks[k]);
            }
            k = k + 1;
        }
        None
    }

    /// The first task with this UUID, where the queue has one.
    pub fn get_task(&self, task_uuid: UuidString) -> (r: Option<&Task>)
        ensures
            match r {
                Some(t) => find_uuid(self@, task_uuid@) < self@.len() && t@ == self@[find_uuid(
                    self@,
                    task_uuid@,
                )],
                None => find_uuid(self@, task_uuid@) == self@.len(),
            },
    {
        proof {
            lemma_find_uuid(self@, task_uuid@);
        }
        let n = self.tasks.len();
        let mut k: usize = 0;
        while k < n
            invariant
                n == self@.len(),
                k <= n,
                find_uuid(self@, task_uuid@) == find_uuid_from(self@, task_uuid@, k as int),
            decreases n - k,
        {
            if self.tasks[k].uuid.0 == task_uuid.0 {
                return Some(&self.tasks[k]);
            }
            k = k + 1;
        }
        None
    }

    /// Appends `task`, but only if no task with its UUID is in the queue;
    /// otherwise the queue is left unchanged and the clash is reported.
    /// Unique identities stay unique.
    pub fn add_task(&mut self, task: Task) -> (r: Result<(), TaskAlreadyExists>)
        ensures
            find_uuid(old(self)@, task@.uuid) == old(self)@.len() ==> r is Ok && final(self)@ == old(
                self,
            )@.push(task@),
            find_uuid(old(self)@, task@.uuid) < old(self)@.len() ==> (r matches Err(e) && e.0@
                == task@.uuid) && final(self)@ == old(self)@,
            uuids_unique(old(self)@) ==> uuids_unique(final(self)@),
    {
        proof {
            lemma_find_uuid(old(self)@, task@.uuid);
        }
        if self.get_task(task.uuid).is_none() {
            proof {
                let ts = old(self)@;
                let u = task@.uuid;
                if uuids_unique(ts) {
                    assert forall|i: int, j: int|
                        0 <= i < j < ts.push(task@).len() implies ts.push(task@)[i].uuid != ts.push(
                        task@,
                    )[j].uuid by {
                        if j < ts.len() {
                        } else {
                            assert(ts[i].uuid != u);
                        }
                    }
                }
            }
            self.tasks.push(task);
            assert(final(self)@ =~= old(self)@.push(task@));
            Ok(())
        } else {
            Err(TaskAlreadyExists(task.uuid))
        }
    }

    /// Replaces the first task carrying `task`'s UUID with `task`, in place;
    /// where none carries it, the queue is left unchanged and the miss is
    /// reported. Unique identities stay unique.
    pub fn update_task(&mut self, task: Task) -> (r: Result<(), TaskNotFound>)
        ensures
            find_uuid(old(self)@, task@.uuid) < old(self)@.len() ==> r is Ok && final(self)@ == old(
                self,
            )@.update(find_uuid(old(self)@, task@.uuid), task@),
            find_uuid(old(self)@, task@.uuid) == old(self)@.len() ==> (r matches Err(e) && e.0@
                == task@.uuid) && final(self)@ == old(self)@,
            uuids_unique(old(self)@) ==> uuids_unique(final(self)@),
    {
        proof {
            lemma_find_uuid(old(self)@, task@.uuid);
        }
        let ghost ts = old(self)@;
        let ghost u = task@.uuid;
        let n = self.tasks.len();
        let mut k: usize = 0;
        while k < n
            invariant
                ts == old(self)@,
                self@ == ts,
                self.tasks@.len() == n,
                n == ts.len(),
                k <= n,
                u == task@.uuid,
                find_uuid(ts, u) == find_uuid_from(ts, u, k as int),
            decreases n - k,
        {
            if self.tasks[k].uuid.0 == task.uuid.0 {
                let ghost i = k as int;
                proof {
                    assert(ts[i] == self.tasks@[i]@);
                    assert(ts[i].uuid == u);
                    assert(find_uuid_from(ts, u, i) == i);
                }
                self.tasks[k] = task;
                proof {
                    assert(self@ =~= ts.update(i, task@));
                    if uuids_unique(ts) {
                        let newts = ts.update(i, task@);
                        assert forall|a: int, b: int|
                            0 <= a < b < newts.len() implies newts[a].uuid != newts[b].uuid by {
                            assert(ts[i].uuid == u);
                            if a != i && b != i {
                                assert(newts[a] == ts[a] && newts[b] == ts[b]);
                            } else if a == i {
                                assert(newts[b] == ts[b]);
                            } else {
                                assert(newts[a] == ts[a]);
                            }
                        }
                    }
                }
                return Ok(());
            }
            k = k + 1;
        }
        Err(TaskNotFound(task.uuid))
    }

    /// Updates the task with `task`'s UUID where the queue has one, else
    /// appends `task`; never fails. Starting from unique identities, the
    /// UUID is afterwards carried by exactly one task: the queue stays
    /// unique and the UUID is present.
    pub fn add_or_update_task(&mut self, task: Task)
        ensures
            find_uuid(old(self)@, task@.uuid) < old(self)@.len() ==> final(self)@ == old(
                self,
            )@.update(find_uuid(old(self)@, task@.uuid), task@),
            find_uuid(old(self)@, task@.uuid) == old(self)@.len() ==> final(self)@ == old(
                self,
            )@.push(task@),
            uuids_unique(old(self)@) ==> uuids_unique(final(self)@),
            find_uuid(final(self)@, task@.uuid) < final(self)@.len(),
    {
        proof {
            lemma_find_uuid(old(self)@, task@.uuid);
        }
        let ghost u = task@.uuid;
        let present = self.get_task(task.uuid).is_some();
        if present {
            let r = self.update_task(task);
            proof {
                lemma_find_uuid(self@, u);
                let i = find_uuid(old(self)@, u);
                let newts = self@;
                assert(newts[i].uuid == u);
                if find_uuid(newts, u) >= newts.len() {
                    assert(newts[i].uuid != u);
                }
            }
        } else {
            let r = self.add_task(task);
            proof {
                lemma_find_uuid(self@, u);
                let newts = self@;
                let i = newts.len() - 1;
                assert(newts[i].uuid == u);
                if find_uuid(newts, u) >= newts.len() {
                    assert(newts[i].uuid != u);
                }
            }
        }
    }

    /// Releases the queue's identity for later reopening: the embedding
    /// program removes the marker file, which it gets back with the handle,
    /// and keeps only the main path.
    pub fn close(self) -> (r: (ClosedTaskQueue, LockfileHandle))
        ensures
            r.0@ == self.spec_lockfile().spec_main_file_path(),
            r.1 == self.spec_lockfile(),
    {
        let main = self.lockfile.main_file_path().to_owned();
        (ClosedTaskQueue { main_file_path: main }, self.lockfile)
    }
}

/// A queue whose lock has been released: only the path remains, so the
/// embedding program can acquire the lock and read the file again later.
#[derive(Debug)]
pub struct ClosedTaskQueue {
    main_file_path: String,
}

impl View for ClosedTaskQueue {
    type V = Seq<char>;

    closed spec fn view(&self) -> Seq<char> {
        self.main_file_path@
    }
}

impl ClosedTaskQueue {
    /// A closed queue remembering this path, for the embedding program's
    /// reopen step.
    pub fn from_path(main_file_path: String) -> (r: ClosedTaskQueue)
        ensures
            r@ == main_file_path@,
    {
        ClosedTaskQueue { main_file_path }
    }

    /// The queue file's path.
    pub fn main_file_path(&self) -> (r: &str)
        ensures
            r@ == self@,
    {
        self.main_file_path.as_str()
    }
}

} // verus!

verus! {

impl TaskQueueLock {
    /// The queue read from the locked file's text, or a fresh empty queue
    /// where the file did not exist; fails exactly where some line is not a
    /// canonical task record. The embedding program acquires the lock and
    /// reads the text; the parsing and the decision happen here.
    pub fn read_or_create_new_safe(text: Option<&str>, lockfile: LockfileHandle) -> (r: Result<
        TaskQueueLock,
        crate::lockfile::Error,
    >)
        ensures
            match r {
                Ok(q) => q.spec_lockfile() == lockfile && match text {
                    None => q@ == Seq::<TaskView>::empty(),
                    Some(t) => crate::record::sp_queue(t@, 0) == Some(q@),
                },
                Err(e) => text matches Some(t) && crate::record::sp_queue(t@, 0) is None
                    && e matches crate::lockfile::Error::FileExError(
                    crate::file_ex::Error::CannotDeserializeJSONLines(_),
                ),
            },
    {
        match text {
            None => {
                let tasks: Vec<Task> = Vec::new();
                assert(tasks@.map_values(|t: Task| t@) =~= Seq::<TaskView>::empty());
                Ok(TaskQueueLock::new(tasks, lockfile))
            },
            Some(t) => match crate::record::queue_from_text(t) {
                Some(tasks) => Ok(TaskQueueLock::new(tasks, lockfile)),
                None => Err(
                    crate::lockfile::Error::FileExError(
                        crate::file_ex::Error::CannotDeserializeJSONLines(
                            "a line of the queue file is not a canonical task record".to_owned(),
                        ),
                    ),
                ),
            },
        }
    }

    /// The queue file's full new contents: every task's record on its own
    /// line. The embedding program writes this text while it holds the lock.
    pub fn to_text(&self) -> (r: String)
        ensures
            r@ == crate::record::json_of_queue(self@),
    {
        crate::record::queue_to_text(&self.tasks)
    }

    /// Claims the first queued task for `worker` at `now`: it becomes
    /// working in place, and an exact copy is handed out for execution.
    /// Where nothing is queued, the queue is unchanged and nothing is
    /// handed out.
    pub fn claim_top_task(&mut self, now: NsTimestamp, worker: WorkerInfo) -> (r: Option<Task>)
        ensures
            first_queued(old(self)@) == old(self)@.len() ==> r is None && final(self)@ == old(
                self,
            )@,
            first_queued(old(self)@) < old(self)@.len() ==> match r {
                Some(t) => {
                    let i = first_queued(old(self)@);
                    &&& t@ == (TaskView {
                        state: TaskState::Working,
                        start_timestamp: Some(now@),
                        worker_info: Some(worker@),
                        ..old(self)@[i]
                    })
                    &&& final(self)@ == old(self)@.update(i, t@)
                    &&& crate::task::envelope_consistent(t@)
                    &&& crate::task::state_can_follow(old(self)@[i].state, t@.state)
                },
                None => false,
            },
            uuids_unique(old(self)@) ==> uuids_unique(final(self)@),
    {
        proof {
            lemma_first_queued(old(self)@);
        }
        let ghost ts = old(self)@;
        let n = self.tasks.len();
        let mut k: usize = 0;
        while k < n
            invariant
                ts == old(self)@,
                self@ == ts,
                self.tasks@.len() == n,
                n == ts.len(),
                k <= n,
                first_queued(ts) == first_queued_from(ts, k as int),
            decreases n - k,
        {
            if self.tasks[k].state == TaskState::Queued {
                let ghost i = k as int;
                proof {
                    assert(ts[i] == self.tasks@[i]@);
                    assert(first_queued_from(ts, i) == i);
                }
                let copy = {
                    let slot = &mut self.tasks[k];
                    slot.mark_working(now, worker);
                    slot.duplicate()
                };
                proof {
                    assert(self@ =~= ts.update(i, copy@));
                    if uuids_unique(ts) {
                        let newts = ts.update(i, copy@);
                        assert forall|a: int, b: int|
                            0 <= a < b < newts.len() implies newts[a].uuid != newts[b].uuid by {
                            assert(newts[a] == if a == i {
                                copy@
                            } else {
                                ts[a]
                            });
                            assert(newts[b] == if b == i {
                                copy@
                            } else {
                                ts[b]
                            });
                            assert(copy@.uuid == ts[i].uuid);
                        }
                    }
                }
                return Some(copy);
            }
            k = k + 1;
        }
        None
    }

    /// Claims the task with this UUID for `worker` at `now`, but only while
    /// it still waits in the queue: a task that is already working or
    /// finished is never moved back. Nothing changes unless the claim
    /// happens.
    pub fn claim_task_by_uuid(
        &mut self,
        task_uuid: UuidString,
        now: NsTimestamp,
        worker: WorkerInfo,
    ) -> (r: Result<Task, ClaimError>)
        ensures
            ({
                let i = find_uuid(old(self)@, task_uuid@);
                match r {
                    Ok(t) => i < old(self)@.len() && old(self)@[i].state == TaskState::Queued && t@
                        == (TaskView {
                        state: TaskState::Working,
                        start_timestamp: Some(now@),
                        worker_info: Some(worker@),
                        ..old(self)@[i]
                    }) && final(self)@ == old(self)@.update(i, t@)
                        && crate::task::envelope_consistent(t@),
                    Err(ClaimError::NotFound) => i == old(self)@.len() && final(self)@ == old(
                        self,
                    )@,
                    Err(ClaimError::NotQueued) => i < old(self)@.len() && old(self)@[i].state
                        != TaskState::Queued && final(self)@ == old(self)@,
                }
            }),
            uuids_unique(old(self)@) ==> uuids_unique(final(self)@),
    {
        proof {
            lemma_find_uuid(old(self)@, task_uuid@);
        }
        let ghost ts = old(self)@;
        let ghost u = task_uuid@;
        let n = self.tasks.len();
        let mut k: usize = 0;
        while k < n
            invariant
                ts == old(self)@,
                self@ == ts,
                self.tasks@.len() == n,
                n == ts.len(),
                k <= n,
                u == task_uuid@,
                find_uuid(ts, u) == find_uuid_from(ts, u, k as int),
            decreases n - k,
        {
            if self.tasks[k].uuid.0 == task_uuid.0 {
                let ghost i = k as int;
                proof {
                    assert(ts[i] == self.tasks@[i]@);
                    assert(find_uuid_from(ts, u, i) == i);
                }
                if self.tasks[k].state != TaskState::Queued {
                    return Err(ClaimError::NotQueued);
                }
                let copy = {
                    let slot = &mut self.tasks[k];
                    slot.mark_working(now, worker);
                    slot.duplicate()
                };
                proof {
                    assert(self@ =~= ts.update(i, copy@));
                    if uuids_unique(ts) {
                        let newts = ts.update(i, copy@);
                        assert forall|a: int, b: int|
                            0 <= a < b < newts.len() implies newts[a].uuid != newts[b].uuid by {
                            assert(newts[a] == if a == i {
                                copy@
                            } else {
                                ts[a]
                            });
                            assert(newts[b] == if b == i {
                                copy@
                            } else {
                                ts[b]
                            });
                            assert(copy@.uuid == ts[i].uuid);
                        }
                    }
                }
                return Ok(copy);
            }
            k = k + 1;
        }
        Err(ClaimError::NotFound)
    }
}

/// Why a targeted claim did not happen.
#[derive(Debug, Clone, Copy, PartialEq, Eq, Structural)]
pub enum ClaimError {
    /// No task with the UUID is in the queue.
    NotFound,
    /// The task is in the queue but no longer waits there.
    NotQueued,
}

/// No double claim: where exactly one task waits in a queue and a claim has
/// turned it to working in place, a second dispatcher looking for queued
/// work finds none.
pub proof fn lemma_no_double_claim(before: Seq<TaskView>, after: Seq<TaskView>, i: int, t: TaskView)
    requires
        0 <= i < before.len(),
        before[i].state == TaskState::Queued,
        forall|k: int|
            0 <= k < before.len() && k != i ==> (#[trigger] before[k].state) != TaskState::Queued,
        t.state == TaskState::Working,
        after == before.update(i, t),
    ensures
        first_queued(after) == after.len(),
{
    lemma_first_queued(after);
    if first_queued(after) < after.len() {
        assert(after[first_queued(after)].state == TaskState::Queued);
        assert(first_queued(after) != i);
        assert(after[first_queued(after)] == before[first_queued(after)]);
    }
}

} // verus!
