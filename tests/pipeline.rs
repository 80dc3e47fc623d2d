use redis_file_monitor::dispatch::{
    classify_exit, outcome_of, plan_dispatch, skipped_outcome, DispatchPlan, DispatchStatus,
    ProcessResult, Severity,
};
use redis_file_monitor::event::{
    accept, path_has_extension, recognized_extension_bytes, DataChange, EventKind, ModifyKind,
    WatchEvent,
};
use redis_file_monitor::monitor::{LoopAction, LoopInput, Monitor};
use redis_file_monitor::queue::{BoundedQueue, PopResult, PushError};
use redis_file_monitor::BRIDGE_CAPACITY;

fn content_event(path: &str) -> WatchEvent {
    WatchEvent {
        kind: EventKind::Modify(ModifyKind::Data(DataChange::Content)),
        paths: vec![path.as_bytes().to_vec()],
    }
}

fn event_of(kind: EventKind, path: &str) -> WatchEvent {
    WatchEvent { kind, paths: vec![path.as_bytes().to_vec()] }
}

#[test]
fn content_change_of_script_is_accepted() {
    let e = content_event("/watch/a.redis");
    assert_eq!(accept(&e), Some(b"/watch/a.redis".to_vec()));
}

#[test]
fn only_first_path_is_consulted() {
    let e = WatchEvent {
        kind: EventKind::Modify(ModifyKind::Data(DataChange::Content)),
        paths: vec![b"/w/a.txt".to_vec(), b"/w/b.redis".to_vec()],
    };
    assert_eq!(accept(&e), None);
    let e = WatchEvent {
        kind: EventKind::Modify(ModifyKind::Data(DataChange::Content)),
        paths: vec![b"/w/b.redis".to_vec(), b"/w/a.txt".to_vec()],
    };
    assert_eq!(accept(&e), Some(b"/w/b.redis".to_vec()));
}

#[test]
fn wrong_extension_is_dropped() {
    assert_eq!(accept(&content_event("/watch/c.txt")), None);
    assert_eq!(accept(&content_event("/watch/c.REDIS")), None);
    assert_eq!(accept(&content_event("/watch/c.redis.bak")), None);
    assert_eq!(accept(&content_event("/watch/credis")), None);
}

#[test]
fn hidden_file_has_no_extension() {
    assert_eq!(accept(&content_event("/watch/.redis")), None);
    assert_eq!(accept(&content_event(".redis")), None);
    assert_eq!(accept(&content_event("x.redis")), Some(b"x.redis".to_vec()));
}

#[test]
fn other_kinds_are_dropped() {
    let kinds = [
        EventKind::Create,
        EventKind::Remove,
        EventKind::Access,
        EventKind::Any,
        EventKind::Other,
        EventKind::Modify(ModifyKind::Metadata),
        EventKind::Modify(ModifyKind::Name),
        EventKind::Modify(ModifyKind::Any),
        EventKind::Modify(ModifyKind::Data(DataChange::Size)),
        EventKind::Modify(ModifyKind::Data(DataChange::Any)),
    ];
    for k in kinds {
        assert_eq!(accept(&event_of(k, "/watch/a.redis")), None);
    }
}

#[test]
fn event_without_paths_is_dropped() {
    let e = WatchEvent {
        kind: EventKind::Modify(ModifyKind::Data(DataChange::Content)),
        paths: vec![],
    };
    assert_eq!(accept(&e), None);
}

#[test]
fn extension_check_on_bytes() {
    let ext = recognized_extension_bytes();
    assert_eq!(ext, b"redis".to_vec());
    assert!(path_has_extension(&b"dir/a.redis".to_vec(), &ext));
    assert!(!path_has_extension(&b"dir/.redis".to_vec(), &ext));
    assert!(!path_has_extension(&b"redis".to_vec(), &ext));
    assert!(path_has_extension(&vec![0xff, b'.', b'r', b'e', b'd', b'i', b's'], &ext));
}

#[test]
fn script_with_content_is_run_with_its_bytes() {
    let bytes = b"SET foo bar\n".to_vec();
    match plan_dispatch(bytes.clone()) {
        DispatchPlan::Run { input } => assert_eq!(input, bytes),
        DispatchPlan::SkipEmpty => panic!("a non-empty file is run"),
    }
    let out = outcome_of(ProcessResult::Finished {
        code: Some(0),
        stdout: b"OK\n".to_vec(),
        stderr: vec![],
    });
    assert_eq!(out.status, DispatchStatus::Success);
    assert_eq!(out.stdout, b"OK\n".to_vec());
    assert_eq!(out.status.severity(), Severity::Info);
}

#[test]
fn empty_script_is_skipped() {
    assert!(matches!(plan_dispatch(vec![]), DispatchPlan::SkipEmpty));
    let out = skipped_outcome();
    assert_eq!(out.status, DispatchStatus::SkippedEmpty);
    assert!(!out.status.is_failure());
    assert_eq!(out.status.severity(), Severity::Warning);
}

#[test]
fn single_byte_file_is_run() {
    match plan_dispatch(vec![b'\n']) {
        DispatchPlan::Run { input } => assert_eq!(input, vec![b'\n']),
        DispatchPlan::SkipEmpty => panic!("a non-empty file is run"),
    }
}

#[test]
fn exit_codes_are_classified() {
    assert_eq!(classify_exit(Some(0)), DispatchStatus::Success);
    assert_eq!(classify_exit(Some(127)), DispatchStatus::ToolNotFound);
    assert_eq!(classify_exit(Some(1)), DispatchStatus::NonZeroExit(1));
    assert_eq!(classify_exit(Some(126)), DispatchStatus::NonZeroExit(126));
    assert_eq!(classify_exit(Some(128)), DispatchStatus::NonZeroExit(128));
    assert_eq!(classify_exit(Some(-1)), DispatchStatus::NonZeroExit(-1));
    assert_eq!(classify_exit(None), DispatchStatus::Terminated);
    assert!(DispatchStatus::ToolNotFound.is_failure());
    assert!(DispatchStatus::NonZeroExit(2).is_failure());
    assert_eq!(DispatchStatus::NonZeroExit(2).severity(), Severity::Error);
}

#[test]
fn failed_run_keeps_its_error_output() {
    let out = outcome_of(ProcessResult::Finished {
        code: Some(1),
        stdout: vec![],
        stderr: vec![0xff, b'E', b'R', b'R'],
    });
    assert_eq!(out.status, DispatchStatus::NonZeroExit(1));
    assert_eq!(out.stderr, vec![0xff, b'E', b'R', b'R']);
}

#[test]
fn missing_interpreter_cannot_be_spawned() {
    let out = outcome_of(ProcessResult::SpawnFailed);
    assert_eq!(out.status, DispatchStatus::SpawnError);
    assert!(out.status.is_failure());
    let via_shell = outcome_of(ProcessResult::Finished {
        code: Some(127),
        stdout: vec![],
        stderr: b"sh: 1: no-such-cli: not found\n".to_vec(),
    });
    assert_eq!(via_shell.status, DispatchStatus::ToolNotFound);
}

#[test]
fn bridge_holds_at_most_its_capacity() {
    let mut q: BoundedQueue<u32> = BoundedQueue::bridge();
    assert_eq!(q.capacity(), BRIDGE_CAPACITY);
    assert_eq!(BRIDGE_CAPACITY, 100);
    for i in 0..100u32 {
        assert!(q.try_push(i).is_ok());
    }
    assert_eq!(q.len(), 100);
    assert!(matches!(q.try_push(100), Err(PushError::Full(100))));
    assert_eq!(q.len(), 100);
    assert!(matches!(q.pop(), PopResult::Item(0)));
    assert!(q.try_push(100).is_ok());
    for i in 1..=100u32 {
        assert!(matches!(q.pop(), PopResult::Item(x) if x == i));
    }
    assert!(matches!(q.pop(), PopResult::Empty));
}

#[test]
fn closed_bridge_hands_out_nothing() {
    let mut q: BoundedQueue<u32> = BoundedQueue::new(2);
    assert!(q.try_push(1).is_ok());
    q.close();
    assert!(q.is_closed());
    assert!(matches!(q.pop(), PopResult::Closed));
    assert!(matches!(q.try_push(2), Err(PushError::Closed(2))));
    assert_eq!(q.len(), 1);
}

#[test]
fn loop_dispatches_accepted_events_only() {
    let mut m = Monitor::new();
    match m.step(LoopInput::Event(content_event("/w/a.redis"))) {
        LoopAction::Dispatch(p) => assert_eq!(p, b"/w/a.redis".to_vec()),
        other => panic!("expected a dispatch, got {:?}", other),
    }
    assert!(matches!(m.step(LoopInput::Event(content_event("/w/c.txt"))), LoopAction::Ignore));
    assert!(matches!(
        m.step(LoopInput::Event(event_of(EventKind::Create, "/w/a.redis"))),
        LoopAction::Ignore
    ));
    assert!(!m.is_stopped());
}

#[test]
fn interrupt_stops_dispatching_with_exit_zero() {
    let mut m = Monitor::new();
    m.record(DispatchStatus::NonZeroExit(1));
    m.record(DispatchStatus::Success);
    assert_eq!(m.dispatched(), 2);
    assert_eq!(m.failures(), 1);
    assert!(matches!(m.step(LoopInput::Interrupt), LoopAction::Stop));
    assert!(m.is_stopped());
    assert!(matches!(m.step(LoopInput::Event(content_event("/w/a.redis"))), LoopAction::Stop));
    assert_eq!(m.exit_code(), 0);
}

#[test]
fn closed_queue_stops_the_loop() {
    let mut m = Monitor::new();
    assert!(matches!(m.step(LoopInput::QueueClosed), LoopAction::Stop));
    assert!(m.is_stopped());
    assert_eq!(m.exit_code(), 0);
}
