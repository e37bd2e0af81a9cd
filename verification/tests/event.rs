use ralpher::event::{
    generate_run_id, run_id_at, Event, EventKind, EventLog, ValidatorStatus, ViolationSeverity,
};
use ralpher::task::TaskStatus;

#[test]
fn test_generate_run_id() {
    let id1 = generate_run_id();
    let id2 = generate_run_id();

    assert!(id1.starts_with("run-"));
    assert!(id2.starts_with("run-"));
    // IDs generated in quick succession should be the same or very close
    // (within same second)
}

#[test]
fn run_ids_hold_the_second() {
    assert_eq!(run_id_at(0), "run-0");
    assert_eq!(run_id_at(1700000000), "run-1700000000");
    assert_ne!(run_id_at(1), run_id_at(10));
    let secs: u64 = generate_run_id()["run-".len()..].parse().unwrap();
    assert!(secs > 1_600_000_000);
}

#[test]
fn events_carry_their_time() {
    let kind = EventKind::RunPaused { run_id: "run-1".to_string() };
    let event = Event::with_timestamp(kind.clone(), 1700000000000);
    assert_eq!(event.timestamp_ms, 1700000000000);
    assert_eq!(event.kind, kind);
    let event = Event::new(kind.clone());
    assert!(event.timestamp_ms > 1_600_000_000_000);
    assert_eq!(event.kind, kind);
    assert_eq!(event.clone().kind, kind);
}

#[test]
fn copies_of_events_say_the_same() {
    let run_id = "r".to_string();
    let kinds = vec![
        EventKind::RunStarted { run_id: run_id.clone(), git_mode: "branch".to_string(), task_count: 5 },
        EventKind::IterationStarted { run_id: run_id.clone(), iteration: 1, task_id: "t".to_string() },
        EventKind::AgentCompleted { run_id: run_id.clone(), iteration: 1, exit_code: Some(-1) },
        EventKind::ValidatorResult {
            run_id: run_id.clone(),
            iteration: 1,
            validator: "v".to_string(),
            status: ValidatorStatus::Skipped,
            message: Some("m".to_string()),
        },
        EventKind::PolicyViolation {
            run_id: run_id.clone(),
            iteration: 1,
            rule: "r".to_string(),
            severity: ViolationSeverity::Warning,
            details: "d".to_string(),
        },
        EventKind::TaskStatusChanged {
            run_id: run_id.clone(),
            task_id: "t".to_string(),
            old_status: TaskStatus::Todo,
            new_status: TaskStatus::Done,
        },
        EventKind::CheckpointCreated { run_id: run_id.clone(), iteration: 1, commit_sha: "abc".to_string() },
        EventKind::IterationCompleted { run_id: run_id.clone(), iteration: 1, success: true },
        EventKind::RunPaused { run_id: run_id.clone() },
        EventKind::RunResumed { run_id: run_id.clone() },
        EventKind::RunAborted { run_id: run_id.clone(), reason: "x".to_string() },
        EventKind::RunCompleted { run_id, total_iterations: 5, tasks_completed: 1 },
    ];
    for kind in &kinds {
        assert_eq!(*kind, kind.clone());
    }
}

#[test]
fn test_event_log_read_empty() {
    let events = EventLog::read_all(None);
    assert!(events.is_empty());
}

#[test]
fn emitted_lines_are_read_back() {
    let log = EventLog::open("/repo/.ralpher/events.ndjson");
    assert_eq!(log.path(), "/repo/.ralpher/events.ndjson");
    let mut content = String::new();
    content.push_str(&log.emit("{\"a\":1}"));
    content.push_str(&log.emit("   "));
    content.push_str(&log.emit("{\"b\":2}"));
    assert_eq!(content, "{\"a\":1}\n   \n{\"b\":2}\n");
    let lines = EventLog::read_all(Some(&content));
    assert_eq!(lines.len(), 2);
    assert_eq!((lines[0].number, lines[0].text.as_str()), (1, "{\"a\":1}"));
    assert_eq!((lines[1].number, lines[1].text.as_str()), (3, "{\"b\":2}"));
    assert_eq!(
        EventLog::parse_error(&lines[1]),
        "Failed to parse event on line 3: {\"b\":2}"
    );
    assert!(matches!(
        log.emit_now(EventKind::RunPaused { run_id: "r".to_string() }).kind,
        EventKind::RunPaused { .. }
    ));
}
