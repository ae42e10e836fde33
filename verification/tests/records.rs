use scoretracker_core::job::{Error as JobError, Job, ProcessingType, Success};
use scoretracker_core::lockfile::LockfileHandle;
use scoretracker_core::queue::TaskQueueLock;
use scoretracker_core::record::queue_to_text;
use scoretracker_core::task::{Task, TaskResult, TaskState};
use scoretracker_core::timestamp::NsTimestamp;
use scoretracker_core::uuid_string::UuidString;
use scoretracker_core::worker::WorkerInfo;

fn handle(path: &str) -> LockfileHandle {
    LockfileHandle::new(path.to_string()).unwrap()
}

fn reread(tasks: Vec<Task>) -> (String, Vec<Task>) {
    let text = queue_to_text(&tasks);
    let parsed =
        TaskQueueLock::read_or_create_new_safe(Some(text.as_str()), handle("q.jsonl")).unwrap();
    let reparsed: Vec<Task> = parsed.tasks().iter().map(|t| t.duplicate()).collect();
    (text, reparsed)
}

#[test]
fn simple_record_has_the_documented_shape() {
    let task = Task {
        uuid: UuidString(1),
        name: "nap".to_string(),
        comment: None,
        job: Job::Sleep { time_nanos: 10000000 },
        state: TaskState::Queued,
        request_timestamp: NsTimestamp::from_nanos(42),
        start_timestamp: None,
        worker_info: None,
        finish_timestamp: None,
        result: None,
    };
    let text = queue_to_text(&vec![task]);
    let expected = "{\"uuid\":\"00000000-0000-0000-0000-000000000001\",\"name\":\"nap\",\"comment\":null,\"job\":{\"type\":\"sleep\",\"details\":{\"time_nanos\":10000000}},\"state\":\"queued\",\"request_timestamp\":42,\"start_timestamp\":null,\"worker_info\":null,\"finish_timestamp\":null,\"result\":null}\n";
    assert_eq!(text, expected);
}

#[test]
fn negative_timestamps_and_hex_uuids_are_written_exactly() {
    let task = Task {
        uuid: UuidString(0xdeadbeef_cafe_4321_8001_abcdef012345u128),
        name: "x".to_string(),
        comment: Some("note".to_string()),
        job: Job::DisplayMessage { message: "hi".to_string() },
        state: TaskState::Failed,
        request_timestamp: NsTimestamp::from_nanos(-12),
        start_timestamp: Some(NsTimestamp::from_nanos(-3)),
        worker_info: None,
        finish_timestamp: Some(NsTimestamp::from_nanos(0)),
        result: Some(TaskResult::Error(JobError::UnknownError)),
    };
    let text = queue_to_text(&vec![task]);
    assert!(text.contains("\"uuid\":\"deadbeef-cafe-4321-8001-abcdef012345\""));
    assert!(text.contains("\"request_timestamp\":-12"));
    assert!(text.contains("\"start_timestamp\":-3"));
    assert!(text.contains("\"finish_timestamp\":0"));
    assert!(text.contains("\"state\":\"failed\""));
    assert!(text.contains("{\"error\":{\"type\":\"UnknownError\"}}"));
}

#[test]
fn strings_are_escaped_like_json_wants() {
    let task = Task {
        uuid: UuidString(2),
        name: "a\"b\\c\nd".to_string(),
        comment: None,
        job: Job::DisplayMessage { message: "tab\there".to_string() },
        state: TaskState::Queued,
        request_timestamp: NsTimestamp::from_nanos(0),
        start_timestamp: None,
        worker_info: None,
        finish_timestamp: None,
        result: None,
    };
    let (text, back) = reread(vec![task]);
    assert!(text.contains("\"name\":\"a\\\"b\\\\c\\u000ad\""));
    assert_eq!(back.len(), 1);
    assert_eq!(back[0].name, "a\"b\\c\nd");
    match &back[0].job {
        Job::DisplayMessage { message } => assert_eq!(message, "tab\there"),
        other => panic!("wrong job came back: {:?}", other),
    }
}

#[test]
fn full_queue_survives_the_round_trip() {
    let worker = WorkerInfo {
        name: "worker \"quoted\"".to_string(),
        pid: 314,
        birth_timestamp: NsTimestamp::from_nanos(-999),
        address: "127.0.0.1:40000".to_string(),
    };
    let tasks = vec![
        Task {
            uuid: UuidString(u128::MAX),
            name: "cut it".to_string(),
            comment: Some("for the record".to_string()),
            job: Job::CutVideo {
                source_proof_uuid: UuidString(0xabc),
                source_path: "/videos/in.mkv".to_string(),
                cut_point_start_ms: Some(1500),
                cut_point_end_ms: None,
                destination_path: "/videos/out.mkv".to_string(),
            },
            state: TaskState::Done,
            request_timestamp: NsTimestamp::from_nanos(i128::MAX),
            start_timestamp: Some(NsTimestamp::from_nanos(i128::MIN)),
            worker_info: Some(worker.duplicate()),
            finish_timestamp: Some(NsTimestamp::from_nanos(77)),
            result: Some(TaskResult::Success(Success::CutVideo {
                cloth: UuidString(0xabc),
                fragment: UuidString(0xdef),
            })),
        },
        Task {
            uuid: UuidString(0),
            name: String::new(),
            comment: None,
            job: Job::ProcessVideo {
                source_proof_uuid: UuidString(7),
                source_path: "in.mp4".to_string(),
                processing_type: ProcessingType::CompressCrumpleVideo,
                destination_path: "out.mp4".to_string(),
            },
            state: TaskState::Working,
            request_timestamp: NsTimestamp::from_nanos(1),
            start_timestamp: Some(NsTimestamp::from_nanos(2)),
            worker_info: Some(worker),
            finish_timestamp: None,
            result: None,
        },
        Task {
            uuid: UuidString(3),
            name: "say and wait".to_string(),
            comment: None,
            job: Job::DisplayMessageAndSleep {
                message: "brace {for} [it]".to_string(),
                time_nanos: u64::MAX,
            },
            state: TaskState::Queued,
            request_timestamp: NsTimestamp::from_nanos(-1),
            start_timestamp: None,
            worker_info: None,
            finish_timestamp: None,
            result: None,
        },
    ];
    let (text, back) = reread(tasks);
    assert_eq!(back.len(), 3);
    // writing the parsed queue again yields the identical file
    assert_eq!(queue_to_text(&back), text);
    // spot checks across every envelope field
    assert_eq!(back[0].uuid, UuidString(u128::MAX));
    assert_eq!(back[0].request_timestamp, NsTimestamp::from_nanos(i128::MAX));
    assert_eq!(back[0].start_timestamp, Some(NsTimestamp::from_nanos(i128::MIN)));
    assert_eq!(back[0].comment.as_deref(), Some("for the record"));
    match &back[0].result {
        Some(TaskResult::Success(Success::CutVideo { cloth, fragment })) => {
            assert_eq!(*cloth, UuidString(0xabc));
            assert_eq!(*fragment, UuidString(0xdef));
        }
        other => panic!("wrong result came back: {:?}", other),
    }
    let w = back[1].worker_info.as_ref().unwrap();
    assert_eq!(w.name, "worker \"quoted\"");
    assert_eq!(w.pid, 314);
    assert_eq!(w.birth_timestamp, NsTimestamp::from_nanos(-999));
    assert_eq!(w.address, "127.0.0.1:40000");
    match &back[2].job {
        Job::DisplayMessageAndSleep { message, time_nanos } => {
            assert_eq!(message, "brace {for} [it]");
            assert_eq!(*time_nanos, u64::MAX);
        }
        other => panic!("wrong job came back: {:?}", other),
    }
}

#[test]
fn malformed_lines_fail_the_whole_read() {
    let bad = "{\"uuid\":\"not-a-uuid\"}\n";
    assert!(TaskQueueLock::read_or_create_new_safe(Some(bad), handle("q.jsonl")).is_err());
    let truncated = "{\"uuid\":\"00000000-0000-0000-0000-000000000001\",\"name\":\"nap\"";
    assert!(
        TaskQueueLock::read_or_create_new_safe(Some(truncated), handle("q.jsonl")).is_err()
    );
}

#[test]
fn empty_text_is_an_empty_queue() {
    let q = TaskQueueLock::read_or_create_new_safe(Some(""), handle("q.jsonl")).unwrap();
    assert_eq!(q.tasks().len(), 0);
    assert_eq!(q.to_text(), "");
}
