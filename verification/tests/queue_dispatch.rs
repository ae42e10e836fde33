use scoretracker_core::config::Config;
use scoretracker_core::job::{Error as JobError, Job, Success};
use scoretracker_core::lockfile::LockfileHandle;
use scoretracker_core::queue::TaskQueueLock;
use scoretracker_core::task::{Task, TaskResult, TaskState};
use scoretracker_core::timestamp::NsTimestamp;
use scoretracker_core::uuid_string::UuidString;
use scoretracker_core::worker::{Error as WorkerError, Worker, WorkerInfo};

fn handle(path: &str) -> LockfileHandle {
    LockfileHandle::new(path.to_string()).unwrap()
}

fn plain_task(uuid: u128, name: &str, job: Job) -> Task {
    Task {
        uuid: UuidString(uuid),
        name: name.to_string(),
        comment: None,
        job,
        state: TaskState::Queued,
        request_timestamp: NsTimestamp::from_nanos(42),
        start_timestamp: None,
        worker_info: None,
        finish_timestamp: None,
        result: None,
    }
}

fn test_worker() -> Worker {
    let info = WorkerInfo {
        name: "worker-one.scoretracker.local".to_string(),
        pid: 4242,
        birth_timestamp: NsTimestamp::from_nanos(1_000),
        address: "127.0.0.1:45000".to_string(),
    };
    let config = Config {
        domain_name: "domain.example.com".to_string(),
        shared_data_repo_path: "/srv/shared".to_string(),
        default_library_dir_path: "/srv/library".to_string(),
    };
    Worker::new(info, config)
}

#[test]
fn add_task_refuses_duplicate_uuid_and_keeps_queue_unchanged() {
    let mut q = TaskQueueLock::new(Vec::new(), handle("q.jsonl"));
    let t1 = plain_task(7, "one", Job::Sleep { time_nanos: 5 });
    let t2 = plain_task(7, "two", Job::Sleep { time_nanos: 6 });
    assert!(q.add_task(t1).is_ok());
    let before = q.to_text();
    let err = q.add_task(t2).unwrap_err();
    assert_eq!(err.0, UuidString(7));
    assert_eq!(q.to_text(), before);
}

#[test]
fn update_task_refuses_absent_uuid_and_keeps_queue_unchanged() {
    let mut q = TaskQueueLock::new(Vec::new(), handle("q.jsonl"));
    assert!(q
        .add_task(plain_task(1, "one", Job::Sleep { time_nanos: 5 }))
        .is_ok());
    let before = q.to_text();
    let err = q
        .update_task(plain_task(2, "ghost", Job::Sleep { time_nanos: 5 }))
        .unwrap_err();
    assert_eq!(err.0, UuidString(2));
    assert_eq!(q.to_text(), before);
}

#[test]
fn update_task_replaces_record_in_place() {
    let mut q = TaskQueueLock::new(Vec::new(), handle("q.jsonl"));
    assert!(q
        .add_task(plain_task(1, "first", Job::Sleep { time_nanos: 5 }))
        .is_ok());
    assert!(q
        .add_task(plain_task(2, "second", Job::Sleep { time_nanos: 6 }))
        .is_ok());
    let replacement = plain_task(1, "renamed", Job::Sleep { time_nanos: 5 });
    assert!(q.update_task(replacement).is_ok());
    assert_eq!(q.tasks().len(), 2);
    assert_eq!(q.get_task(UuidString(1)).unwrap().name, "renamed");
    assert_eq!(q.get_task(UuidString(2)).unwrap().name, "second");
}

#[test]
fn add_or_update_task_leaves_exactly_one_record_per_uuid() {
    let mut q = TaskQueueLock::new(Vec::new(), handle("q.jsonl"));
    q.add_or_update_task(plain_task(9, "first", Job::Sleep { time_nanos: 5 }));
    q.add_or_update_task(plain_task(9, "second", Job::Sleep { time_nanos: 6 }));
    assert_eq!(q.tasks().len(), 1);
    assert_eq!(q.get_task(UuidString(9)).unwrap().name, "second");
    q.add_or_update_task(plain_task(10, "other", Job::Sleep { time_nanos: 7 }));
    assert_eq!(q.tasks().len(), 2);
    let copies = q
        .tasks()
        .iter()
        .filter(|t| t.uuid == UuidString(9))
        .count();
    assert_eq!(copies, 1);
}

#[test]
fn top_queued_task_picks_first_by_stored_order() {
    let mut q = TaskQueueLock::new(Vec::new(), handle("q.jsonl"));
    let mut done = plain_task(1, "done", Job::Sleep { time_nanos: 1 });
    done.state = TaskState::Working;
    assert!(q.add_task(done).is_ok());
    assert!(q
        .add_task(plain_task(2, "second", Job::Sleep { time_nanos: 2 }))
        .is_ok());
    assert!(q
        .add_task(plain_task(3, "third", Job::Sleep { time_nanos: 3 }))
        .is_ok());
    assert_eq!(q.top_queued_task().unwrap().uuid, UuidString(2));
}

#[test]
fn empty_queue_reports_no_work_and_stays_empty() {
    // a missing queue file is an empty queue, not an error
    let q = TaskQueueLock::read_or_create_new_safe(None, handle("q.jsonl")).unwrap();
    assert!(q.top_queued_task().is_none());
    let worker = test_worker();
    let mut q = q;
    let outcome = worker.claim_top_task(&mut q, NsTimestamp::from_nanos(50));
    assert!(matches!(outcome, Err(WorkerError::NoTopQueuedTask)));
    assert_eq!(q.to_text(), "");
    let (closed, lock) = q.close();
    assert_eq!(closed.main_file_path(), "q.jsonl");
    assert_eq!(lock.lockfile_path(), "q.jsonl.lock");
}

#[test]
fn dispatch_claims_executes_and_commits_one_task() {
    // a queue with one queued sleep task
    let mut q = TaskQueueLock::new(Vec::new(), handle("q.jsonl"));
    assert!(q
        .add_task(plain_task(77, "nap", Job::Sleep { time_nanos: 10_000_000 }))
        .is_ok());
    let worker = test_worker();

    // claim: the task turns working in place, with start time and identity
    let mut claimed = worker
        .claim_top_task(&mut q, NsTimestamp::from_nanos(50))
        .unwrap();
    assert_eq!(claimed.uuid, UuidString(77));
    assert_eq!(claimed.state, TaskState::Working);
    assert_eq!(claimed.start_timestamp, Some(NsTimestamp::from_nanos(50)));
    assert_eq!(claimed.worker_info.as_ref().unwrap().pid, 4242);

    // a second dispatcher sees no queued work and cannot claim it again
    assert!(q.top_queued_task().is_none());
    let text_while_working = q.to_text();
    let mut second = TaskQueueLock::read_or_create_new_safe(
        Some(text_while_working.as_str()),
        handle("q.jsonl"),
    )
    .unwrap();
    let seen = second.get_task(UuidString(77)).unwrap();
    assert_eq!(seen.state, TaskState::Working);
    assert!(seen.worker_info.is_some());
    let other = test_worker();
    assert!(matches!(
        other.claim_top_task(&mut second, NsTimestamp::from_nanos(60)),
        Err(WorkerError::NoTopQueuedTask)
    ));

    // completion: done, with outcome and finish time, nothing else touched
    claimed.finish(Ok(Success::Void), NsTimestamp::from_nanos(90));
    assert_eq!(claimed.state, TaskState::Done);
    assert_eq!(claimed.finish_timestamp, Some(NsTimestamp::from_nanos(90)));
    assert!(matches!(claimed.result, Some(TaskResult::Success(Success::Void))));
    assert_eq!(claimed.name, "nap");
    assert_eq!(claimed.request_timestamp, NsTimestamp::from_nanos(42));
    assert_eq!(claimed.start_timestamp, Some(NsTimestamp::from_nanos(50)));

    // commit replaces the record under the reacquired lock
    assert!(worker.commit_task(&mut q, claimed).is_ok());
    let done = q.get_task(UuidString(77)).unwrap();
    assert_eq!(done.state, TaskState::Done);
    assert!(done.finish_timestamp.is_some());
}

#[test]
fn failed_job_is_recorded_as_data_not_as_protocol_failure() {
    let mut t = plain_task(5, "doomed", Job::DisplayMessage {
        message: "hello".to_string(),
    });
    t.state = TaskState::Working;
    t.start_timestamp = Some(NsTimestamp::from_nanos(10));
    t.worker_info = Some(WorkerInfo {
        name: "w".to_string(),
        pid: 1,
        birth_timestamp: NsTimestamp::from_nanos(0),
        address: "127.0.0.1:1".to_string(),
    });
    t.finish(
        Err(JobError::LibraryError("no library".to_string())),
        NsTimestamp::from_nanos(20),
    );
    assert_eq!(t.state, TaskState::Failed);
    assert!(matches!(t.result, Some(TaskResult::Error(JobError::LibraryError(_)))));
    assert_eq!(t.finish_timestamp, Some(NsTimestamp::from_nanos(20)));
}

#[test]
fn claim_by_uuid_distinguishes_missing_from_not_queued() {
    let mut q = TaskQueueLock::new(Vec::new(), handle("q.jsonl"));
    let mut working = plain_task(1, "busy", Job::Sleep { time_nanos: 1 });
    working.state = TaskState::Working;
    working.start_timestamp = Some(NsTimestamp::from_nanos(5));
    assert!(q.add_task(working).is_ok());
    assert!(q
        .add_task(plain_task(2, "waiting", Job::Sleep { time_nanos: 2 }))
        .is_ok());
    let worker = test_worker();
    assert!(matches!(
        worker.claim_task_by_uuid(&mut q, UuidString(9), NsTimestamp::from_nanos(50)),
        Err(WorkerError::TaskNotFound(UuidString(9)))
    ));
    assert!(matches!(
        worker.claim_task_by_uuid(&mut q, UuidString(1), NsTimestamp::from_nanos(50)),
        Err(WorkerError::NoTopQueuedTask)
    ));
    // the working task was not touched: still working, same start time
    assert_eq!(q.get_task(UuidString(1)).unwrap().state, TaskState::Working);
    assert_eq!(
        q.get_task(UuidString(1)).unwrap().start_timestamp,
        Some(NsTimestamp::from_nanos(5))
    );
    let claimed = worker
        .claim_task_by_uuid(&mut q, UuidString(2), NsTimestamp::from_nanos(50))
        .unwrap();
    assert_eq!(claimed.state, TaskState::Working);
}

#[test]
fn commit_reports_vanished_task_and_changes_nothing() {
    let mut q = TaskQueueLock::new(Vec::new(), handle("q.jsonl"));
    let worker = test_worker();
    let mut stray = plain_task(123, "stray", Job::Sleep { time_nanos: 1 });
    stray.state = TaskState::Working;
    stray.start_timestamp = Some(NsTimestamp::from_nanos(1));
    stray.finish(Ok(Success::Void), NsTimestamp::from_nanos(2));
    let r = worker.commit_task(&mut q, stray);
    assert!(matches!(r, Err(WorkerError::CannotUpdateTask(_))));
    assert_eq!(q.to_text(), "");
}
