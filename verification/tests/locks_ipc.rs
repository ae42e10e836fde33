use scoretracker_core::file_ex;
use scoretracker_core::ipc::{
    frame_message, handle_message, read_frame_size, size_to_le_bytes, IncomingMessage,
    MessageAction, OutgoingMessage,
};
use scoretracker_core::lockfile::{
    generate_lockfile_contents, is_file_locked, wait_step, AttemptOutcome, Error, IoErrorKind,
    LockfileHandle, WaitEvent, WaitPhase,
};
use scoretracker_core::timestamp::NsTimestamp;
use scoretracker_core::worker::WorkerInfo;

#[test]
fn lockfile_path_appends_the_marker_suffix() {
    assert_eq!(
        LockfileHandle::lockfile_path_for("directory/subdir/test.txt").unwrap(),
        "directory/subdir/test.txt.lock"
    );
    assert_eq!(
        LockfileHandle::lockfile_path_for("queue.jsonl").unwrap(),
        "queue.jsonl.lock"
    );
    assert!(matches!(
        LockfileHandle::lockfile_path_for(""),
        Err(Error::NoParentPath(_))
    ));
    assert!(matches!(
        LockfileHandle::lockfile_path_for("some/dir/"),
        Err(Error::NoFilename(_))
    ));
    assert!(matches!(
        LockfileHandle::lockfile_path_for("a/.."),
        Err(Error::NoFilename(_))
    ));
    assert!(matches!(
        LockfileHandle::lockfile_path_for("."),
        Err(Error::NoFilename(_))
    ));
}

#[test]
fn only_an_existing_marker_counts_as_locked() {
    let locked: Result<(), Error> = Err(Error::CannotCreateLockfile(
        IoErrorKind::AlreadyExists,
        "exists".to_string(),
    ));
    assert!(is_file_locked(&locked));
    let other_create: Result<(), Error> = Err(Error::CannotCreateLockfile(
        IoErrorKind::Other,
        "disk full".to_string(),
    ));
    assert!(!is_file_locked(&other_create));
    let unrelated: Result<(), Error> =
        Err(Error::CannotWatchLockfile("gone".to_string()));
    assert!(!is_file_locked(&unrelated));
    let fine: Result<(), Error> = Ok(());
    assert!(!is_file_locked(&fine));
    let ex: Result<(), Error> = Err(Error::FileExError(file_ex::Error::file_not_found()));
    assert!(!is_file_locked(&ex));
}

#[test]
fn waiting_protocol_returns_only_after_an_acquiring_attempt() {
    // locked at first: arm the watch, check again, then wait
    let p = wait_step(
        WaitPhase::FirstAttempt,
        WaitEvent::Attempted(AttemptOutcome::AlreadyLocked),
    );
    assert!(matches!(p, WaitPhase::ArmingWatch));
    let p = wait_step(p, WaitEvent::Watched(None));
    assert!(matches!(p, WaitPhase::SecondAttempt));
    let p = wait_step(p, WaitEvent::Attempted(AttemptOutcome::AlreadyLocked));
    assert!(matches!(p, WaitPhase::Waiting));
    // an irrelevant notification re-arms the watch rather than retrying
    let p = wait_step(p, WaitEvent::Notified { relevant: false });
    assert!(matches!(p, WaitPhase::Rearming));
    let p = wait_step(p, WaitEvent::Watched(None));
    assert!(matches!(p, WaitPhase::Waiting));
    // a removal notification retries; a still-locked file means wait on
    let p = wait_step(p, WaitEvent::Notified { relevant: true });
    assert!(matches!(p, WaitPhase::RetryAttempt));
    let p = wait_step(p, WaitEvent::Attempted(AttemptOutcome::AlreadyLocked));
    assert!(matches!(p, WaitPhase::Rearming));
    let p = wait_step(p, WaitEvent::Watched(None));
    let p = wait_step(p, WaitEvent::Notified { relevant: true });
    // only the attempt that created the marker ends the wait
    let p = wait_step(p, WaitEvent::Attempted(AttemptOutcome::Acquired));
    assert!(matches!(p, WaitPhase::DoneAcquired));
}

#[test]
fn waiting_protocol_surfaces_watch_errors() {
    let p = wait_step(
        WaitPhase::ArmingWatch,
        WaitEvent::Watched(Some(Error::CannotWatchLockfile("gone".to_string()))),
    );
    assert!(matches!(p, WaitPhase::DoneError(Error::CannotWatchLockfile(_))));
}

#[test]
fn marker_contents_record_version_pid_and_worker() {
    let worker = WorkerInfo {
        name: "w1".to_string(),
        pid: 9,
        birth_timestamp: NsTimestamp::from_nanos(123),
        address: "127.0.0.1:8000".to_string(),
    };
    let text = generate_lockfile_contents(
        "0.1.0",
        77,
        NsTimestamp::from_nanos(456),
        "1970-01-01T00:00:00.000000456+00:00",
        Some((&worker, "1970-01-01T00:00:00.000000123+00:00")),
    );
    assert!(text.starts_with("# File locked by scoretracker."));
    assert!(text.contains("version: 0.1.0\n"));
    assert!(text.contains("pid: 77\n"));
    assert!(text.contains("lock_timestamp: 456\n"));
    assert!(text.contains("worker_name: w1\n"));
    assert!(text.contains("worker_birth_timestamp: 123\n"));
    assert!(text.contains("worker_address: 127.0.0.1:8000"));
    let bare = generate_lockfile_contents(
        "0.1.0",
        77,
        NsTimestamp::from_nanos(456),
        "t",
        None,
    );
    assert!(!bare.contains("worker_name"));
}

#[test]
fn incoming_messages_parse_exactly() {
    assert!(matches!(
        IncomingMessage::parse("{\"type\":\"who_are_you\"}"),
        Ok(IncomingMessage::WhoAreYou)
    ));
    assert!(matches!(
        IncomingMessage::parse("{\"type\":\"termination_request\"}"),
        Ok(IncomingMessage::TerminationRequest)
    ));
    assert!(IncomingMessage::parse("{\"type\":\"who_are_you\"}trailing").is_err());
    assert!(IncomingMessage::parse("").is_err());
    assert!(IncomingMessage::parse("{\"type\":\"shutdown\"}").is_err());
}

#[test]
fn who_are_you_round_trip_carries_name_and_pid() {
    let msg = IncomingMessage::parse("{\"type\":\"who_are_you\"}").unwrap();
    let action = handle_message(&msg, "worker-one.scoretracker.local", 4242);
    match action {
        MessageAction::Respond(out) => {
            let rendered = out.render();
            assert_eq!(
                rendered,
                "{\"type\":\"who_are_you_response\",\"name\":\"worker-one.scoretracker.local\",\"pid\":4242}"
            );
        }
        other => panic!("wrong action: {:?}", other),
    }
}

#[test]
fn termination_request_exits_with_the_documented_code() {
    let msg = IncomingMessage::parse("{\"type\":\"termination_request\"}").unwrap();
    let action = handle_message(&msg, "w", 1);
    assert!(matches!(action, MessageAction::Terminate(100)));
}

#[test]
fn frames_carry_a_little_endian_length_prefix() {
    let rendered = OutgoingMessage::WhoAreYouResponse {
        name: "n".to_string(),
        pid: 7,
    }
    .render();
    let frame = frame_message(rendered.as_str()).unwrap();
    let len = rendered.as_bytes().len();
    assert_eq!(frame.len(), 4 + len);
    assert_eq!(frame[0] as usize, len % 256);
    assert_eq!(frame[1], 0);
    assert_eq!(frame[2], 0);
    assert_eq!(frame[3], 0);
    assert_eq!(&frame[4..], rendered.as_bytes());

    // the receiver reads the same size back
    let header = frame[..4].to_vec();
    assert_eq!(read_frame_size(&header).unwrap() as usize, len);

    let wide = size_to_le_bytes(0x01020304);
    assert_eq!(wide, vec![0x04, 0x03, 0x02, 0x01]);
}

#[test]
fn oversized_frames_are_refused_in_both_directions() {
    let header = vec![0xff, 0xff, 0xff, 0xff];
    assert!(read_frame_size(&header).is_err());
    let exact = vec![0x00, 0x00, 0x10, 0x00]; // exactly one mebibyte
    assert_eq!(read_frame_size(&exact).unwrap(), 1048576);
    let over = vec![0x01, 0x00, 0x10, 0x00];
    assert!(read_frame_size(&over).is_err());
    let big = "x".repeat(1048577);
    assert!(frame_message(big.as_str()).is_err());
    let fits = "x".repeat(1048576);
    assert!(frame_message(fits.as_str()).is_ok());
}
