use ralpher::config::{Config, GitMode};
use ralpher::event::{Event, EventKind};
use ralpher::run::{IterationResult, MigrationDirection, Run, RunEngine, RunState};
use ralpher::task::{Task, TaskList, TaskStatus};
use ralpher::tui::{
    candidate_paths, detect_files, App, DetectedFiles, EditMode, EventChunk, EventLine, LogChunk,
    LogRead, LogSource, Refreshed, ReportEntry, SetupStep, TuiMode, ValidatorReport,
};
use ralpher::tui_input::{
    finish_setup, handle_edit_input, handle_normal_input, handle_setup_input, import_tasks,
    diff_read, iteration_done, migration_done, pause_failed, retry_turn, run_started, settle,
    take_turn, tasks_migrated, AfterIteration, EditAction, Key, KeyCode, LoopStep, NormalAction, Pending, SetupAction,
    StartOutcome,
};
use ralpher::workspace::parse_name_status;

const SECOND: u64 = 1_000_000_000;

fn app_with(run: Option<Run>, tasks: TaskList) -> App {
    App::new("/repo", run, tasks, Config::default(), 0)
}

fn empty_app() -> App {
    app_with(None, TaskList::new(vec![]))
}

fn run_in(state: RunState) -> Run {
    let mut run = Run::new("run-1".to_string(), GitMode::Branch);
    run.state = state;
    run
}

fn key(code: KeyCode) -> Key {
    Key { code, control: false }
}

fn ch(c: char) -> Key {
    key(KeyCode::Char(c))
}

fn task(id: &str) -> Task {
    Task {
        id: id.to_string(),
        title: format!("Title of {}", id),
        status: TaskStatus::Todo,
        acceptance: vec!["one".to_string(), "two".to_string()],
        validators: vec!["v".to_string()],
        notes: Some("note".to_string()),
    }
}

fn three_tasks() -> TaskList {
    let mut tasks = TaskList::new(vec![task("t1"), task("t2"), task("t3")]);
    tasks.path = Some("/repo/ralpher.prd.json".to_string());
    tasks
}

fn event_line(text: &str, event: Option<Event>) -> EventLine {
    EventLine { text: text.to_string(), event }
}

fn paused_event(timestamp_ms: u64) -> Event {
    Event::with_timestamp(EventKind::RunPaused { run_id: "run-1".to_string() }, timestamp_ms)
}

#[test]
fn test_app_new() {
    let tasks = TaskList::new(vec![]);
    let app = App::new("/repo", None, tasks, Config::default(), 0);

    assert!(app.run.is_none());
    assert!(app.events.is_empty());
    assert!(!app.should_quit);
    assert_eq!(app.log_source, LogSource::Agent);
    assert!(app.log_lines.is_empty());
    assert_eq!(app.log_scroll_offset, 0);
    assert!(!app.user_paused);
}

#[test]
fn test_format_duration() {
    assert_eq!(App::format_duration(0), "00:00:00");
    assert_eq!(App::format_duration(61), "00:01:01");
    assert_eq!(App::format_duration(3661), "01:01:01");
    assert_eq!(App::format_duration(360000), "100:00:00");
}

#[test]
fn test_read_new_events() {
    let mut app = empty_app();
    let started = Event::with_timestamp(
        EventKind::RunStarted {
            run_id: "run-1".to_string(),
            git_mode: "branch".to_string(),
            task_count: 2,
        },
        1000,
    );
    let iteration = Event::with_timestamp(
        EventKind::IterationStarted {
            run_id: "run-1".to_string(),
            iteration: 1,
            task_id: "task-1".to_string(),
        },
        1001,
    );
    app.read_new_events(EventChunk {
        lines: vec![event_line("{..}\n", Some(started)), event_line("{..}\n", Some(iteration))],
        bytes: 200,
        error: None,
    })
    .unwrap();

    assert_eq!(app.events.len(), 2);
    match &app.events[0].kind {
        EventKind::RunStarted { run_id, .. } => assert_eq!(run_id, "run-1"),
        _ => panic!("Expected RunStarted event"),
    }
    assert_eq!(app.event_file_pos, 200);
}

#[test]
fn test_incremental_event_reading() {
    let mut app = empty_app();
    let chunk = |at: u64| EventChunk {
        lines: vec![event_line("{..}\n", Some(paused_event(at)))],
        bytes: 100,
        error: None,
    };

    app.read_new_events(chunk(1000)).unwrap();
    assert_eq!(app.events.len(), 1);

    // Read incrementally
    app.read_new_events(chunk(1001)).unwrap();
    assert_eq!(app.events.len(), 2);
    assert_eq!(app.event_file_pos, 200);
}

#[test]
fn only_the_last_hundred_events_are_kept() {
    let mut app = empty_app();
    let mut lines: Vec<EventLine> = (0..150).map(|i| event_line("x", Some(paused_event(i)))).collect();
    lines.push(event_line("   \n", Some(paused_event(999))));
    lines.push(event_line("not an event\n", None));
    app.read_new_events(EventChunk { lines, bytes: 7, error: None }).unwrap();
    assert_eq!(app.events.len(), 100);
    assert_eq!(app.events[0].timestamp_ms, 50);
    assert_eq!(app.events[99].timestamp_ms, 149);
    let chunk = EventChunk {
        lines: vec![event_line("x", Some(paused_event(150)))],
        bytes: 1,
        error: Some("broken".to_string()),
    };
    assert_eq!(app.read_new_events(chunk), Err("broken".to_string()));
    assert_eq!(app.events.len(), 101);
    assert_eq!(app.event_file_pos, 8);
}

#[test]
fn test_toggle_log_source() {
    let mut app = empty_app();

    assert_eq!(app.log_source, LogSource::Agent);

    app.toggle_log_source();
    assert_eq!(app.log_source, LogSource::Validator);

    app.toggle_log_source();
    assert_eq!(app.log_source, LogSource::Agent);
}

#[test]
fn test_scroll_log() {
    let mut app = empty_app();

    // Add some log lines
    for i in 0..20 {
        app.log_lines.push(format!("Line {}", i));
    }

    assert_eq!(app.log_scroll_offset, 0);

    // Scroll up
    app.scroll_log_up(5);
    assert_eq!(app.log_scroll_offset, 5);

    // Scroll down
    app.scroll_log_down(3);
    assert_eq!(app.log_scroll_offset, 2);

    // Scroll to bottom
    app.scroll_log_to_bottom();
    assert_eq!(app.log_scroll_offset, 0);

    // Can't scroll past end
    app.scroll_log_up(100);
    assert_eq!(app.log_scroll_offset, 19); // max_scroll = 20 - 1

    // Can't scroll below 0
    app.scroll_log_down(100);
    assert_eq!(app.log_scroll_offset, 0);
}

#[test]
fn test_reload_agent_log() {
    // Create run state with iteration 1
    let mut run = Run::new("run-1".to_string(), GitMode::Branch);
    run.iteration = 1;

    let mut app = app_with(Some(run), TaskList::new(vec![]));

    app.reload_logs(LogRead::Agent(LogChunk {
        lines: vec![
            "=== ralpher agent execution ===\n".to_string(),
            "Line 1\n".to_string(),
            "Line 2\n".to_string(),
            "Line 3\n".to_string(),
        ],
        bytes: 53,
        error: None,
    }))
    .unwrap();

    assert_eq!(app.log_lines.len(), 4);
    assert!(app.log_lines[0].contains("ralpher agent execution"));
    assert_eq!(app.log_lines[1], "Line 1");
    assert_eq!(app.log_file_pos, 53);
}

#[test]
fn only_the_last_thousand_lines_are_kept() {
    let mut app = empty_app();
    let mut lines: Vec<String> = (0..1200).map(|i| format!("  {}  \n", i)).collect();
    lines.push("   \n".to_string());
    app.reload_logs(LogRead::Agent(LogChunk { lines, bytes: 10, error: None })).unwrap();
    assert_eq!(app.log_lines.len(), 1000);
    assert_eq!(app.log_lines[0], "  200");
    assert_eq!(app.log_lines[999], "  1199");
    assert!(app.reload_logs(LogRead::Missing).is_ok());
    assert_eq!(app.reload_logs(LogRead::Failed("gone".to_string())), Err("gone".to_string()));
    assert_eq!(app.log_lines.len(), 1000);
}

#[test]
fn test_reload_validator_log() {
    // Create run state with iteration 1
    let mut run = Run::new("run-1".to_string(), GitMode::Branch);
    run.iteration = 1;

    let mut app = app_with(Some(run), TaskList::new(vec![]));

    // Switch to validator log
    app.log_source = LogSource::Validator;
    app.reload_logs(LogRead::Validator(ValidatorReport {
        validators: vec![ReportEntry {
            command: "cargo test".to_string(),
            status: "pass".to_string(),
            exit_code: Some(0),
            output: Some("All tests passed".to_string()),
        }],
        all_passed: true,
    }))
    .unwrap();

    assert!(!app.log_lines.is_empty());
    assert!(app.log_lines[0].contains("Validation Results"));
    assert!(app.log_lines.iter().any(|l| l.contains("cargo test")));
    assert_eq!(
        app.log_lines,
        vec![
            "=== Validation Results (all_passed: true) ===",
            "",
            "[1] cargo test - PASS (exit: Some(0))",
            "    All tests passed",
            "",
        ]
    );
}

#[test]
fn validator_log_shows_every_validator() {
    let mut app = empty_app();
    app.reload_logs(LogRead::Validator(ValidatorReport {
        validators: vec![
            ReportEntry {
                command: "a".to_string(),
                status: "fail".to_string(),
                exit_code: Some(-2),
                output: Some("x\ny\n".to_string()),
            },
            ReportEntry {
                command: "b".to_string(),
                status: "\u{fc}bel".to_string(),
                exit_code: None,
                output: None,
            },
        ],
        all_passed: false,
    }))
    .unwrap();
    assert_eq!(
        app.log_lines,
        vec![
            "=== Validation Results (all_passed: false) ===",
            "",
            "[1] a - FAIL (exit: Some(-2))",
            "    x",
            "    y",
            "",
            "[2] b - \u{dc}BEL (exit: None)",
            "",
        ]
    );
}

#[test]
fn test_agent_log_path() {
    // No run - should return None
    let app = empty_app();
    assert!(app.agent_log_path().is_none());

    // Run with iteration 0 - should return None
    let run = Run::new("run-1".to_string(), GitMode::Branch);
    let app = app_with(Some(run), TaskList::new(vec![]));
    assert!(app.agent_log_path().is_none());

    // Run with iteration 1 - should return path
    let mut run = Run::new("run-1".to_string(), GitMode::Branch);
    run.iteration = 1;
    let app = app_with(Some(run), TaskList::new(vec![]));
    let path = app.agent_log_path().unwrap();
    assert!(path.ends_with(".ralpher/iterations/1/agent.log"));
    assert_eq!(path, "/repo/.ralpher/iterations/1/agent.log");
    assert_eq!(
        app.validator_log_path(),
        Some("/repo/.ralpher/iterations/1/validate.json".to_string())
    );
    assert_eq!(app.events_path(), "/repo/.ralpher/events.ndjson");
}

#[test]
fn test_toggle_clears_log_state() {
    let mut app = empty_app();

    // Add some state
    app.log_lines.push("test line".to_string());
    app.log_file_pos = 100;
    app.log_scroll_offset = 5;

    // Toggle should clear state
    app.toggle_log_source();

    assert!(app.log_lines.is_empty());
    assert_eq!(app.log_file_pos, 0);
    assert_eq!(app.log_scroll_offset, 0);
}

#[test]
fn test_run_state() {
    // No run - should return None
    let app = empty_app();
    assert!(app.run_state().is_none());

    // Running run
    let mut run = Run::new("run-1".to_string(), GitMode::Branch);
    run.state = RunState::Running;
    let app = app_with(Some(run), TaskList::new(vec![]));
    assert_eq!(app.run_state(), Some(RunState::Running));

    // Paused run
    let mut run = Run::new("run-2".to_string(), GitMode::Branch);
    run.state = RunState::Paused;
    let app = app_with(Some(run), TaskList::new(vec![]));
    assert_eq!(app.run_state(), Some(RunState::Paused));
}

#[test]
fn test_should_run_iteration() {
    let now = 100 * SECOND;

    // No run - should not run
    let app = empty_app();
    assert!(!app.should_run_iteration(now));

    // Paused by user - should not run even if Running
    let mut app = app_with(Some(run_in(RunState::Running)), TaskList::new(vec![]));
    app.user_paused = true;
    app.last_interaction = now - 10 * SECOND; // very idle
    assert!(!app.should_run_iteration(now));

    // Running, not paused, but not idle enough
    let mut app = app_with(Some(run_in(RunState::Running)), TaskList::new(vec![]));
    app.user_paused = false;
    app.last_interaction = now; // just interacted
    assert!(!app.should_run_iteration(now));

    // Running, not paused, idle enough
    let mut app = app_with(Some(run_in(RunState::Running)), TaskList::new(vec![]));
    app.user_paused = false;
    app.last_interaction = now - SECOND; // idle
    assert!(app.should_run_iteration(now));

    // Half a second is not yet more than half a second
    app.last_interaction = now - SECOND / 2;
    assert!(!app.should_run_iteration(now));
    app.touch(7);
    assert_eq!(app.last_interaction, 7);
    assert!(app.is_idle_for(2, 10));
    assert!(!app.is_idle_for(3, 10));
    assert!(!app.is_idle_for(0, 6));
}

#[test]
fn times_do_not_run_backwards() {
    let mut app = App::new("/repo", None, TaskList::default(), Config::new(), 50);
    assert_eq!(app.elapsed(80), 30);
    assert_eq!(app.elapsed(20), 0);
    assert_eq!(app.run_elapsed(9), None);
    app.run = Some(Run::new_at("r".to_string(), GitMode::Branch, 1000));
    assert_eq!(app.run_elapsed(4000), Some(3000));
    assert_eq!(app.run_elapsed(400), Some(0));
}

#[test]
fn refreshing_takes_in_each_part() {
    let mut app = empty_app();
    app.refresh(Refreshed::Run(Ok(Some(run_in(RunState::Paused)))));
    assert_eq!(app.run_state(), Some(RunState::Paused));
    app.refresh(Refreshed::Run(Err("a".to_string())));
    assert_eq!(app.last_error, Some("Failed to reload run: a".to_string()));
    app.refresh(Refreshed::Tasks(Ok(three_tasks())));
    assert_eq!(app.tasks.tasks.len(), 3);
    app.refresh(Refreshed::Tasks(Err("b".to_string())));
    assert_eq!(app.last_error, Some("Failed to reload tasks: b".to_string()));
    assert_eq!(app.tasks.tasks.len(), 3);
    app.refresh(Refreshed::Events(EventChunk {
        lines: vec![],
        bytes: 0,
        error: Some("c".to_string()),
    }));
    assert_eq!(app.last_error, Some("Failed to read events: c".to_string()));
    app.refresh(Refreshed::Logs(LogRead::Failed("d".to_string())));
    assert_eq!(app.last_error, Some("Failed to reload logs: d".to_string()));
}

#[test]
fn selection_stays_among_the_tasks() {
    let mut app = app_with(None, three_tasks());
    app.select_prev_task();
    assert_eq!(app.selected_task_index, 0);
    for _ in 0..5 {
        app.select_next_task();
    }
    assert_eq!(app.selected_task_index, 2);
    app.tasks.tasks.truncate(1);
    app.clamp_task_selection();
    assert_eq!(app.selected_task_index, 0);
    app.selected_task_index = 7;
    app.tasks.tasks.clear();
    app.clamp_task_selection();
    assert_eq!(app.selected_task_index, 0);
}

#[test]
fn new_tasks_are_added_and_selected() {
    let mut app = app_with(None, three_tasks());
    app.start_new_task();
    assert_eq!(app.edit_mode, EditMode::NewTask);
    assert_eq!(app.edit_buffer.id, "task-4");
    app.edit_buffer.title = "  Fresh ".to_string();
    app.edit_buffer.acceptance = " a \n\n b\n".to_string();
    app.edit_buffer.notes = "  ".to_string();
    assert!(app.confirm_task_edit());
    app.finish_task_edit();
    assert_eq!(app.edit_mode, EditMode::Inactive);
    assert_eq!(app.selected_task_index, 3);
    let added = &app.tasks.tasks[3];
    assert_eq!(added.title, "Fresh");
    assert_eq!(added.acceptance, vec!["a".to_string(), "b".to_string()]);
    assert_eq!(added.notes, None);
    assert_eq!(added.status, TaskStatus::Todo);
}

#[test]
fn unchanged_edits_change_nothing() {
    let mut app = app_with(None, three_tasks());
    app.selected_task_index = 1;
    app.start_edit_task();
    assert_eq!(app.edit_mode, EditMode::EditingTask("t2".to_string()));
    assert_eq!(app.edit_buffer.acceptance, "one\ntwo");
    assert!(app.confirm_task_edit());
    app.finish_task_edit();
    let edited = &app.tasks.tasks[1];
    assert_eq!(edited.title, "Title of t2");
    assert_eq!(edited.acceptance, vec!["one".to_string(), "two".to_string()]);
    assert_eq!(edited.notes, Some("note".to_string()));
    assert_eq!(edited.validators, vec!["v".to_string()]);
    assert_eq!(app.selected_task_index, 1);
    app.selected_task_index = 9;
    app.start_edit_task();
    assert_eq!(app.edit_mode, EditMode::Inactive);
    assert!(!app.confirm_task_edit());
}

#[test]
fn deletion_asks_first() {
    let mut app = app_with(None, three_tasks());
    app.selected_task_index = 2;
    app.request_delete_task();
    assert_eq!(app.edit_mode, EditMode::ConfirmDelete("t3".to_string()));
    app.cancel_edit();
    assert_eq!(app.edit_mode, EditMode::Inactive);
    assert!(!app.confirm_delete_task());
    app.request_delete_task();
    match handle_edit_input(&mut app, ch('y')) {
        EditAction::SaveDelete(tasks) => assert_eq!(tasks.tasks.len(), 2),
        _ => panic!("expected the tasks to be saved"),
    }
    app.finish_delete();
    assert_eq!(app.selected_task_index, 1);
    assert_eq!(app.edit_mode, EditMode::Inactive);
    app.request_delete_task();
    assert!(matches!(handle_edit_input(&mut app, ch('x')), EditAction::Nothing));
    assert!(matches!(handle_edit_input(&mut app, ch('N')), EditAction::Nothing));
    assert_eq!(app.edit_mode, EditMode::Inactive);
}

#[test]
fn editor_takes_keys() {
    let mut app = app_with(None, three_tasks());
    handle_normal_input(&mut app, &mut None, ch('n'), 0);
    for c in "Hi!".chars() {
        handle_edit_input(&mut app, ch(c));
    }
    handle_edit_input(&mut app, key(KeyCode::Backspace));
    assert_eq!(app.edit_buffer.title, "Hi");
    handle_edit_input(&mut app, key(KeyCode::Tab));
    handle_edit_input(&mut app, ch('a'));
    handle_edit_input(&mut app, key(KeyCode::Enter));
    handle_edit_input(&mut app, ch('b'));
    assert_eq!(app.edit_buffer.acceptance, "a\nb");
    handle_edit_input(&mut app, key(KeyCode::Tab));
    handle_edit_input(&mut app, ch('n'));
    handle_edit_input(&mut app, key(KeyCode::Enter));
    assert_eq!(app.edit_buffer.notes, "n\n");
    handle_edit_input(&mut app, key(KeyCode::Backspace));
    handle_edit_input(&mut app, key(KeyCode::Tab));
    assert_eq!(app.edit_buffer.focused_field, 0);
    handle_edit_input(&mut app, key(KeyCode::BackTab));
    assert_eq!(app.edit_buffer.focused_field, 2);
    handle_edit_input(&mut app, key(KeyCode::BackTab));
    assert_eq!(app.edit_buffer.focused_field, 1);
    let save = Key { code: KeyCode::Enter, control: true };
    match handle_edit_input(&mut app, save) {
        EditAction::SaveEdit(tasks) => {
            assert_eq!(tasks.tasks.len(), 4);
            assert_eq!(tasks.tasks[3].title, "Hi");
            assert_eq!(tasks.tasks[3].notes, Some("n".to_string()));
        }
        _ => panic!("expected the tasks to be saved"),
    }
    app.finish_task_edit();
    handle_normal_input(&mut app, &mut None, ch('n'), 0);
    assert!(matches!(handle_edit_input(&mut app, key(KeyCode::Enter)), EditAction::Nothing));
    assert_eq!(app.edit_mode, EditMode::NewTask);
    handle_edit_input(&mut app, key(KeyCode::Esc));
    assert_eq!(app.edit_mode, EditMode::Inactive);
    assert_eq!(app.edit_buffer.id, "");
}

fn setup_app() -> App {
    App::new_setup("/repo", DetectedFiles::default(), None, "agent --print", 0)
}

#[test]
fn wizard_begins_with_the_imported_tasks() {
    let detected = DetectedFiles { prd: Some("prd.md".to_string()), ..DetectedFiles::default() };
    let app = App::new_setup("/repo", detected, Some("US-1: One\nUS-2: Two\n"), "agent --print", 9);
    assert_eq!(app.mode, TuiMode::Setup);
    assert_eq!(app.setup.step, SetupStep::Welcome);
    assert_eq!(app.setup.agent_cmd, "agent --print");
    assert_eq!(app.setup.git_mode, GitMode::Branch);
    assert_eq!(app.setup.tasks.len(), 2);
    assert_eq!(app.start_time, 9);
    assert!(app.config.is_none());
}

#[test]
fn wizard_goes_through_its_steps() {
    let mut app = setup_app();
    handle_setup_input(&mut app, key(KeyCode::Enter));
    assert_eq!(app.setup.step, SetupStep::AgentConfig);
    handle_setup_input(&mut app, ch('s'));
    handle_setup_input(&mut app, key(KeyCode::Backspace));
    handle_setup_input(&mut app, ch(' '));
    assert_eq!(app.setup.agent_cmd, "agent --print ");
    handle_setup_input(&mut app, key(KeyCode::Enter));
    assert_eq!(app.setup.step, SetupStep::GitMode);
    handle_setup_input(&mut app, key(KeyCode::Tab));
    assert_eq!(app.setup.git_mode, GitMode::Trunk);
    handle_setup_input(&mut app, key(KeyCode::Enter));
    assert_eq!(app.setup.step, SetupStep::Archon);
    handle_setup_input(&mut app, ch(' '));
    assert!(app.setup.archon.enabled);
    handle_setup_input(&mut app, key(KeyCode::Tab));
    for c in "p 1".chars() {
        handle_setup_input(&mut app, ch(c));
    }
    assert_eq!(app.setup.archon_project_id_input, "p1");
    handle_setup_input(&mut app, key(KeyCode::Tab));
    handle_setup_input(&mut app, ch(' '));
    assert!(app.setup.archon.use_rag);
    handle_setup_input(&mut app, key(KeyCode::Enter));
    assert_eq!(app.setup.archon.project_id, Some("p1".to_string()));
    assert_eq!(app.setup.step, SetupStep::Tasks);
    handle_setup_input(&mut app, ch('n'));
    handle_setup_input(&mut app, ch('n'));
    assert_eq!(app.setup.tasks[1].id, "task-2");
    assert_eq!(app.setup.tasks[1].title, "Task 2");
    assert!(matches!(handle_setup_input(&mut app, ch('i')), SetupAction::Nothing));
    handle_setup_input(&mut app, key(KeyCode::Enter));
    assert_eq!(app.setup.step, SetupStep::Review);
    match handle_setup_input(&mut app, key(KeyCode::Enter)) {
        SetupAction::Save { config, tasks, tasks_path } => {
            assert_eq!(config.path, "/repo/ralpher.toml");
            assert_eq!(
                config.content,
                "git_mode = \"trunk\"\n\n[agent]\ntype = \"command\"\ncmd = [\"agent\", \"--print\"]\n\n[archon]\nenabled = true\nproject_id = \"p1\"\nuse_rag = true\n"
            );
            assert_eq!(tasks.tasks.len(), 2);
            assert_eq!(tasks_path, "/repo/ralpher.prd.json");
        }
        _ => panic!("expected the files to be saved"),
    }
    assert_eq!(app.mode, TuiMode::Setup);
    finish_setup(&mut app);
    assert_eq!(app.mode, TuiMode::Normal);
}

#[test]
fn wizard_goes_back() {
    let mut app = setup_app();
    app.setup.step = SetupStep::Review;
    for step in [
        SetupStep::Tasks,
        SetupStep::Archon,
        SetupStep::GitMode,
        SetupStep::AgentConfig,
        SetupStep::AgentConfig,
    ] {
        handle_setup_input(&mut app, key(KeyCode::Backspace));
        assert_eq!(app.setup.step, step);
    }
    assert_eq!(app.setup.agent_cmd, "agent --prin");
    app.setup.agent_cmd.clear();
    handle_setup_input(&mut app, key(KeyCode::Enter));
    assert_eq!(app.setup.step, SetupStep::AgentConfig);
    handle_setup_input(&mut app, key(KeyCode::Backspace));
    assert_eq!(app.setup.step, SetupStep::Welcome);
    handle_setup_input(&mut app, key(KeyCode::Backspace));
    assert_eq!(app.setup.step, SetupStep::Welcome);
    app.setup.step = SetupStep::Archon;
    app.setup.focused_field = 1;
    app.setup.archon_project_id_input = "ab".to_string();
    handle_setup_input(&mut app, key(KeyCode::Backspace));
    assert_eq!(app.setup.archon_project_id_input, "a");
    assert_eq!(app.setup.step, SetupStep::Archon);
}

#[test]
fn wizard_imports_and_clears() {
    let mut app = setup_app();
    app.setup.step = SetupStep::Tasks;
    app.setup.detected.prd = Some("docs/prd.md".to_string());
    match handle_setup_input(&mut app, ch('i')) {
        SetupAction::ImportPrd(path) => assert_eq!(path, "docs/prd.md"),
        _ => panic!("expected an import"),
    }
    import_tasks(&mut app, "### US-7: Seven\n");
    assert_eq!(app.setup.tasks[0].id, "us-7");
    handle_setup_input(&mut app, ch('c'));
    assert!(app.setup.tasks.is_empty());
    handle_setup_input(&mut app, key(KeyCode::Other));
    assert!(!app.should_quit);
    handle_setup_input(&mut app, ch('q'));
    assert!(app.should_quit);
    let mut app = setup_app();
    handle_setup_input(&mut app, key(KeyCode::Esc));
    assert!(app.should_quit);
}

fn engine_in(state: RunState) -> Option<RunEngine> {
    Some(RunEngine::load("/repo", run_in(state), Config::new(), three_tasks()))
}

#[test]
fn space_pauses_resumes_and_starts() {
    let mut app = app_with(Some(run_in(RunState::Running)), three_tasks());
    let mut engine = engine_in(RunState::Running);
    match handle_normal_input(&mut app, &mut engine, ch(' '), 0) {
        NormalAction::Perform(pending, effects) => {
            assert_eq!(pending, Pending::Pause);
            assert_eq!(effects.len(), 2);
        }
        _ => panic!("expected a pause"),
    }
    assert_eq!(engine.as_ref().unwrap().run().state, RunState::Paused);
    settle(&mut app, Pending::Pause, None);
    assert!(app.user_paused);
    assert!(matches!(
        handle_normal_input(&mut app, &mut engine, ch(' '), 0),
        NormalAction::Nothing
    ));
    assert_eq!(
        app.last_error,
        Some("Pause failed: Cannot pause: current state is Paused, expected Running".to_string())
    );
    app.run = Some(run_in(RunState::Paused));
    assert!(matches!(
        handle_normal_input(&mut app, &mut engine, ch(' '), 0),
        NormalAction::Perform(Pending::Resume, _)
    ));
    settle(&mut app, Pending::Resume, None);
    assert!(!app.user_paused);
    for run in [None, Some(run_in(RunState::Idle)), Some(run_in(RunState::Aborted))] {
        app.run = run;
        assert!(matches!(
            handle_normal_input(&mut app, &mut engine, ch(' '), 0),
            NormalAction::StartRun
        ));
    }
    app.run = Some(run_in(RunState::Running));
    assert!(matches!(handle_normal_input(&mut app, &mut None, ch(' '), 0), NormalAction::Nothing));
}

#[test]
fn failures_are_shown() {
    let mut app = empty_app();
    for (pending, text) in [
        (Pending::Pause, "Pause failed: x"),
        (Pending::Resume, "Resume failed: x"),
        (Pending::Abort, "Abort failed: x"),
        (Pending::Skip, "Skip failed: x"),
        (Pending::Retry, "Retry failed: x"),
    ] {
        settle(&mut app, pending, Some("x"));
        assert_eq!(app.last_error, Some(text.to_string()));
    }
    app.last_error = None;
    settle(&mut app, Pending::Quit, Some("x"));
    settle(&mut app, Pending::Abort, None);
    assert_eq!(app.last_error, None);
    run_started(&mut app, StartOutcome::NoEngine("a".to_string()));
    assert_eq!(app.last_error, Some("Failed to create engine: a".to_string()));
    run_started(&mut app, StartOutcome::NotStarted("b".to_string()));
    assert_eq!(app.last_error, Some("Start failed: b".to_string()));
    app.user_paused = true;
    run_started(&mut app, StartOutcome::Started);
    assert!(!app.user_paused);
    pause_failed(&mut app, "c");
    assert_eq!(app.last_error, Some("Pause failed: c".to_string()));
}

#[test]
fn quitting_pauses_a_running_run() {
    for quit in [ch('q'), Key { code: KeyCode::Char('c'), control: true }] {
        let mut app = app_with(Some(run_in(RunState::Running)), three_tasks());
        let mut engine = engine_in(RunState::Running);
        assert!(matches!(
            handle_normal_input(&mut app, &mut engine, quit, 0),
            NormalAction::Perform(Pending::Quit, _)
        ));
        assert!(app.should_quit);
        assert_eq!(engine.unwrap().run().state, RunState::Paused);
    }
    let mut app = empty_app();
    assert!(matches!(handle_normal_input(&mut app, &mut None, ch('c'), 0), NormalAction::Nothing));
    assert!(!app.should_quit);
    assert!(matches!(handle_normal_input(&mut app, &mut None, ch('q'), 0), NormalAction::Nothing));
    assert!(app.should_quit);
}

#[test]
fn aborting_and_skipping_need_an_active_run() {
    let mut app = app_with(Some(run_in(RunState::Paused)), three_tasks());
    let mut engine = engine_in(RunState::Paused);
    assert!(matches!(
        handle_normal_input(&mut app, &mut engine, ch('s'), 0),
        NormalAction::Perform(Pending::Skip, _)
    ));
    assert_eq!(
        engine.as_ref().unwrap().tasks().tasks[0].notes,
        Some("note".to_string())
    );
    assert!(matches!(
        handle_normal_input(&mut app, &mut engine, ch('a'), 77),
        NormalAction::Perform(Pending::Abort, _)
    ));
    assert_eq!(engine.as_ref().unwrap().run().ended_at, Some(77));
    assert!(matches!(
        handle_normal_input(&mut app, &mut engine, ch('a'), 78),
        NormalAction::Nothing
    ));
    assert_eq!(
        app.last_error,
        Some("Abort failed: Cannot abort: run is already in terminal state Aborted".to_string())
    );
    app.run = Some(run_in(RunState::Completed));
    app.last_error = None;
    for c in ['a', 's'] {
        assert!(matches!(
            handle_normal_input(&mut app, &mut engine, ch(c), 0),
            NormalAction::Nothing
        ));
    }
    assert_eq!(app.last_error, None);
}

#[test]
fn keys_move_through_tasks_and_log() {
    let mut app = app_with(None, three_tasks());
    let mut none = None;
    for i in 0..30 {
        app.log_lines.push(i.to_string());
    }
    let mut press = |app: &mut App, code: KeyCode| {
        handle_normal_input(app, &mut none, key(code), 0);
    };
    press(&mut app, KeyCode::Tab);
    assert_eq!(app.selected_task_index, 1);
    press(&mut app, KeyCode::BackTab);
    assert_eq!(app.selected_task_index, 0);
    press(&mut app, KeyCode::Up);
    press(&mut app, KeyCode::Char('k'));
    assert_eq!(app.log_scroll_offset, 2);
    press(&mut app, KeyCode::PageUp);
    assert_eq!(app.log_scroll_offset, 12);
    press(&mut app, KeyCode::Down);
    press(&mut app, KeyCode::Char('j'));
    assert_eq!(app.log_scroll_offset, 10);
    press(&mut app, KeyCode::PageDown);
    assert_eq!(app.log_scroll_offset, 0);
    press(&mut app, KeyCode::Home);
    assert_eq!(app.log_scroll_offset, 29);
    press(&mut app, KeyCode::End);
    assert_eq!(app.log_scroll_offset, 0);
    press(&mut app, KeyCode::Char('e'));
    assert_eq!(app.edit_mode, EditMode::EditingTask("t1".to_string()));
    app.cancel_edit();
    press(&mut app, KeyCode::Char('x'));
    assert_eq!(app.edit_mode, EditMode::ConfirmDelete("t1".to_string()));
    app.cancel_edit();
    assert!(matches!(handle_normal_input(&mut app, &mut None, ch('f'), 0), NormalAction::Refresh));
    assert!(matches!(
        handle_normal_input(&mut app, &mut None, ch('l'), 0),
        NormalAction::ReloadLogs
    ));
    assert_eq!(app.log_source, LogSource::Validator);
}

#[test]
fn diff_summary_is_opened_and_closed() {
    let mut app = app_with(None, three_tasks());
    assert!(matches!(
        handle_normal_input(&mut app, &mut None, ch('d'), 0),
        NormalAction::OpenDiff
    ));
    assert_eq!(app.edit_mode, EditMode::Inactive);
    assert_eq!(app.tasks.tasks.len(), 3);
    diff_read(&mut app, Err("no git".to_string()));
    assert_eq!(app.last_error, Some("Diff failed: no git".to_string()));
    assert!(app.diff.is_none());
    diff_read(&mut app, Ok(parse_name_status("D\told.rs\n", true)));
    assert_eq!(app.diff.as_ref().unwrap()[0].path, "old.rs");
    assert_eq!(app.diff.as_ref().unwrap()[0].change_type.letter(), 'D');
    handle_normal_input(&mut app, &mut None, key(KeyCode::Esc), 0);
    assert!(app.diff.is_none());
}

#[test]
fn retrying_iterates_at_once() {
    for state in [RunState::Running, RunState::Paused] {
        let mut app = app_with(Some(run_in(state)), three_tasks());
        let mut engine = engine_in(state);
        app.user_paused = true;
        let action = handle_normal_input(&mut app, &mut engine, ch('r'), 0);
        assert!(matches!(action, NormalAction::Perform(Pending::Retry, _)));
        assert_eq!(engine.as_ref().unwrap().run().state, RunState::Running);
        settle(&mut app, Pending::Retry, None);
        assert!(!app.user_paused);
        assert!(matches!(retry_turn(&mut app, &mut engine), LoopStep::Iterate));
    }
    let mut app = app_with(Some(run_in(RunState::Completed)), three_tasks());
    let mut engine = engine_in(RunState::Completed);
    assert!(matches!(
        handle_normal_input(&mut app, &mut engine, ch('r'), 0),
        NormalAction::Nothing
    ));
    app.run = Some(run_in(RunState::Paused));
    assert!(matches!(
        handle_normal_input(&mut app, &mut engine, ch('r'), 0),
        NormalAction::Nothing
    ));
    assert_eq!(
        app.last_error,
        Some("Retry failed: Cannot resume: current state is Completed, expected Paused".to_string())
    );
}

#[test]
fn new_ids_are_free() {
    let mut app = app_with(None, TaskList::new(vec![task("task-2")]));
    app.start_new_task();
    assert_eq!(app.edit_buffer.id, "task-1");
    app.tasks = TaskList::new(vec![task("task-1"), task("task-3")]);
    app.start_new_task();
    assert_eq!(app.edit_buffer.id, "task-2");
    app.tasks = TaskList::new(vec![]);
    app.start_new_task();
    assert_eq!(app.edit_buffer.id, "task-1");
    let mut app = setup_app();
    app.setup.step = SetupStep::Tasks;
    import_tasks(&mut app, "### User Story Task-2: Odd\n");
    assert_eq!(app.setup.tasks[0].id, "task-2");
    handle_setup_input(&mut app, ch('n'));
    assert_eq!(app.setup.tasks[1].id, "task-1");
    assert_eq!(app.setup.tasks[1].title, "Task 2");
}

#[test]
fn migration_needs_the_integration() {
    let mut app = empty_app();
    handle_normal_input(&mut app, &mut None, ch('m'), 0);
    assert_eq!(app.last_error, Some("Archon integration is not enabled".to_string()));
    app.config.as_mut().unwrap().archon.enabled = true;
    handle_normal_input(&mut app, &mut None, ch('m'), 0);
    assert_eq!(app.edit_mode, EditMode::MigrationMenu);
    assert!(matches!(handle_edit_input(&mut app, ch('x')), EditAction::Nothing));
    assert!(matches!(
        handle_edit_input(&mut app, ch('1')),
        EditAction::Migrate(MigrationDirection::LocalToArchon)
    ));
    assert_eq!(app.last_error, None);
    assert!(!migration_done(&mut app, MigrationDirection::LocalToArchon, Ok(0)));
    assert_eq!(app.last_error, Some("Migration to Archon completed".to_string()));
    assert_eq!(app.edit_mode, EditMode::Inactive);
    assert!(!migration_done(&mut app, MigrationDirection::ArchonToLocal, Ok(-3)));
    assert_eq!(app.last_error, Some("Migration failed with exit code -3".to_string()));
    assert!(!migration_done(&mut app, MigrationDirection::ArchonToLocal, Err("x".to_string())));
    assert_eq!(app.last_error, Some("Migration error: x".to_string()));
    assert!(migration_done(&mut app, MigrationDirection::ArchonToLocal, Ok(0)));
    tasks_migrated(&mut app, Err("y".to_string()));
    assert_eq!(app.last_error, Some("Task reload failed: y".to_string()));
    tasks_migrated(&mut app, Ok(three_tasks()));
    assert_eq!(app.last_error, Some("Migration from Archon completed".to_string()));
    assert_eq!(app.tasks.tasks.len(), 3);
    app.edit_mode = EditMode::MigrationMenu;
    assert!(matches!(
        handle_edit_input(&mut app, ch('a')),
        EditAction::Migrate(MigrationDirection::ArchonToLocal)
    ));
    handle_edit_input(&mut app, key(KeyCode::Esc));
    assert_eq!(app.edit_mode, EditMode::Inactive);
}

#[test]
fn iterations_run_up_to_the_limit() {
    let now = 100 * SECOND;
    let mut app = app_with(Some(run_in(RunState::Running)), three_tasks());
    let mut engine = engine_in(RunState::Running);
    assert!(matches!(take_turn(&mut app, &mut engine, now), LoopStep::Iterate));
    assert!(matches!(take_turn(&mut app, &mut engine, SECOND / 4), LoopStep::Wait));
    assert!(matches!(take_turn(&mut app, &mut None, now), LoopStep::Refresh));
    assert!(matches!(
        take_turn(&mut app, &mut engine_in(RunState::Completed), now),
        LoopStep::Refresh
    ));
    engine.as_mut().unwrap().run.iteration = 100;
    match take_turn(&mut app, &mut engine, now) {
        LoopStep::Pause(effects) => assert_eq!(effects.len(), 2),
        _ => panic!("expected a pause"),
    }
    assert!(app.user_paused);
    assert!(matches!(take_turn(&mut app, &mut engine, now), LoopStep::Wait));
    app.user_paused = false;
    assert!(matches!(take_turn(&mut app, &mut engine, now), LoopStep::Refresh));
    assert!(app.last_error.as_ref().unwrap().starts_with("Pause failed: Cannot pause"));
}

fn outcome(success: bool) -> Result<IterationResult, String> {
    Ok(IterationResult {
        success,
        agent_exit_code: Some(0),
        validators_passed: success,
        policy_passed: true,
        checkpoint_sha: None,
    })
}

#[test]
fn failed_iterations_pause_the_run() {
    let mut app = app_with(Some(run_in(RunState::Running)), three_tasks());
    app.log_lines.push("old".to_string());
    app.log_file_pos = 9;
    let mut engine = engine_in(RunState::Running).unwrap();
    assert!(matches!(iteration_done(&mut app, &mut engine, outcome(true)), AfterIteration::Nothing));
    assert!(app.log_lines.is_empty());
    assert_eq!(app.log_file_pos, 0);
    assert!(!app.user_paused);
    assert!(matches!(
        iteration_done(&mut app, &mut engine, outcome(false)),
        AfterIteration::Pause(_)
    ));
    assert!(app.user_paused);
    assert_eq!(engine.run().state, RunState::Paused);
    let mut engine = engine_in(RunState::Aborted).unwrap();
    app.user_paused = false;
    assert!(matches!(
        iteration_done(&mut app, &mut engine, outcome(false)),
        AfterIteration::Nothing
    ));
    assert!(!app.user_paused);
    let mut engine = engine_in(RunState::Running).unwrap();
    assert!(matches!(
        iteration_done(&mut app, &mut engine, Err("boom".to_string())),
        AfterIteration::TryPause(_)
    ));
    assert_eq!(app.last_error, Some("Iteration failed: boom".to_string()));
    assert!(app.user_paused);
}

#[test]
fn files_are_detected_in_order() {
    let paths = candidate_paths("/repo");
    assert_eq!(paths.len(), 13);
    assert_eq!(paths[0], "/repo/mission.md");
    assert_eq!(paths[12], "/repo/.git");
    let existing = vec![
        "/repo/docs/prd.md".to_string(),
        "/repo/PRD.md".to_string(),
        "/repo/TECH.md".to_string(),
        "/repo/.git".to_string(),
    ];
    let detected = detect_files("/repo", &existing);
    assert_eq!(detected.mission, None);
    assert_eq!(detected.prd, Some("/repo/docs/prd.md".to_string()));
    assert_eq!(detected.tech, Some("/repo/TECH.md".to_string()));
    assert_eq!(detected.task_file, None);
    assert!(detected.is_git_repo);
    let detected = detect_files("/repo", &vec!["/repo/ralpher.prd.json".to_string()]);
    assert_eq!(detected.task_file, Some("/repo/ralpher.prd.json".to_string()));
    assert!(!detected.is_git_repo);
}
