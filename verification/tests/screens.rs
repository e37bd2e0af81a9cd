use ralpher::config::{Config, GitMode};
use ralpher::prompt::{agent_log_tail, compose_prompt, request_agent, LogPart};
use ralpher::config::AgentConfig;
use ralpher::run::{Run, RunState};
use ralpher::screen::{Area, Color, Line, Panel, Style};
use ralpher::task::{Task, TaskList, TaskStatus};
use ralpher::tui::{App, DetectedFiles, EditMode, LogSource, SetupStep};
use ralpher::tui_view::{
    draw_detected_files, draw_footer, draw_header, draw_log_panel, draw_migration_menu_overlay,
    draw_migration_progress_overlay, draw_overlay, draw_setup_step, draw_setup_ui,
    draw_task_details, draw_task_editor_overlay, draw_task_list, status_style,
};
use ralpher::run::MigrationDirection;
use ralpher::workspace::parse_name_status;

fn text(line: &Line) -> String {
    line.spans.iter().map(|s| s.text.as_str()).collect()
}

fn texts(panel: &Panel) -> Vec<String> {
    panel.lines.iter().map(text).collect()
}

fn task(id: &str, status: TaskStatus) -> Task {
    Task {
        id: id.to_string(),
        title: format!("Do {}", id),
        status,
        acceptance: vec!["a".to_string(), "b".to_string()],
        validators: vec![],
        notes: None,
    }
}

fn app() -> App {
    let tasks = TaskList::new(vec![
        task("t1", TaskStatus::Done),
        task("t2", TaskStatus::InProgress),
        task("t3", TaskStatus::Blocked),
        task("t4", TaskStatus::Todo),
    ]);
    App::new("/repo", None, tasks, Config::new(), 0)
}

fn setup(step: SetupStep) -> App {
    let mut app = App::new_setup("/repo", DetectedFiles::default(), None, "agent --print", 0);
    app.setup.step = step;
    app
}

#[test]
fn wizard_screen_has_header_and_footer() {
    let app = setup(SetupStep::Archon);
    let screen = draw_setup_ui(&app);
    assert_eq!(text(&screen.header), " ralpher setup  - Step 4/6: Archon Integration");
    assert_eq!(screen.header.spans[0].style, Style::fg(Color::Cyan).bold());
    assert_eq!(screen.content.title, " Archon Integration ");
    assert_eq!(
        screen.footer,
        " Tab: Next  |  Space: Toggle  |  Enter: Continue  |  Backspace: Back  |  q: Quit "
    );
    assert_eq!(text(&screen.detected), " Detected: (no product files found)");
    let mut app = setup(SetupStep::Tasks);
    assert_eq!(
        draw_setup_ui(&app).footer,
        " n: New Task  |  Enter: Continue  |  Backspace: Back  |  q: Quit "
    );
    app.setup.detected.prd = Some("prd.md".to_string());
    assert!(draw_setup_ui(&app).footer.contains("i: Re-import"));
}

#[test]
fn first_screen_welcomes() {
    let panel = draw_setup_step(&setup(SetupStep::Welcome));
    assert_eq!(panel.title, " Welcome ");
    let lines = texts(&panel);
    assert_eq!(lines.len(), 12);
    assert_eq!(lines[1], "Welcome to ralpher!");
    assert_eq!(lines[11], "Press Enter to continue...");
    assert_eq!(panel.lines[1].spans[0].style, Style::fg(Color::Green).bold());
}

#[test]
fn command_screen_shows_the_input() {
    let mut app = setup(SetupStep::AgentConfig);
    app.setup.agent_cmd = "x".to_string();
    let lines = texts(&draw_setup_step(&app));
    assert_eq!(lines[3], "> x_");
    assert_eq!(&lines[5..], ["Examples:", "  agent --print", "  aider --message", "  codex run"]);
}

#[test]
fn mode_screen_marks_the_choice() {
    let mut app = setup(SetupStep::GitMode);
    let panel = draw_setup_step(&app);
    assert_eq!(panel.lines[3].spans[1].style, Style::fg(Color::Green).bold().reversed());
    assert_eq!(panel.lines[5].spans[1].style, Style::fg(Color::DarkGray));
    app.setup.git_mode = GitMode::Trunk;
    let panel = draw_setup_step(&app);
    assert_eq!(panel.lines[3].spans[1].style, Style::fg(Color::DarkGray));
    assert_eq!(panel.lines[5].spans[1].style, Style::fg(Color::Yellow).bold().reversed());
}

#[test]
fn archon_screen_shows_its_fields() {
    let mut app = setup(SetupStep::Archon);
    app.setup.archon.use_rag = true;
    let panel = draw_setup_step(&app);
    let lines = texts(&panel);
    assert_eq!(lines[6], "  [ ] Enable Archon");
    assert_eq!(lines[8], "  Project ID: (optional)");
    assert_eq!(lines[10], "  [x] Use Archon RAG for context");
    assert_eq!(panel.lines[6].spans[1].style, Style::fg(Color::Cyan).bold());
    app.setup.focused_field = 1;
    app.setup.archon_project_id_input = "p".to_string();
    assert_eq!(texts(&draw_setup_step(&app))[8], "  Project ID: p_");
    app.setup.focused_field = 2;
    assert_eq!(texts(&draw_setup_step(&app))[8], "  Project ID: p");
}

#[test]
fn tasks_screen_follows_what_was_found() {
    let mut app = setup(SetupStep::Tasks);
    assert_eq!(texts(&draw_setup_step(&app))[3], "  No PRD file detected and no tasks yet.");
    app.setup.detected.tech = Some("tech.md".to_string());
    let lines = texts(&draw_setup_step(&app));
    assert_eq!(lines[3], "  Product documents detected.");
    assert_eq!(lines[7], "  \u{2022} Press Enter to continue - AI will generate tasks from docs");
    app.setup.tasks = vec![task("t1", TaskStatus::Todo)];
    assert_eq!(texts(&draw_setup_step(&app))[3], "  1. Do t1");
    app.setup.detected.prd = Some("prd.md".to_string());
    let lines = texts(&draw_setup_step(&app));
    assert_eq!(lines[3], "  1 tasks imported from PRD:");
    assert_eq!(lines[5], "  1. Do t1 (2 criteria)");
    assert_eq!(lines[7], "You can edit tasks later from the TUI.");
    app.setup.tasks.clear();
    let lines = texts(&draw_setup_step(&app));
    assert_eq!(lines[3], "  PRD file detected but no user stories found.");
    assert_eq!(lines[7], "  \u{2022} Press Enter to continue - AI will generate tasks from PRD");
}

#[test]
fn review_screen_sums_up() {
    let mut app = setup(SetupStep::Review);
    let lines = texts(&draw_setup_step(&app));
    assert_eq!(
        &lines[3..7],
        [
            "  Agent command: agent --print",
            "  Git mode: branch (safe)",
            "  Archon: disabled",
            "  Tasks: 0 (none defined)",
        ]
    );
    app.setup.git_mode = GitMode::Trunk;
    app.setup.archon.enabled = true;
    app.setup.archon.use_rag = true;
    app.setup.archon_project_id_input = " p ".to_string();
    app.setup.detected.mission = Some("mission.md".to_string());
    let lines = texts(&draw_setup_step(&app));
    assert_eq!(lines[4], "  Git mode: trunk (direct commits)");
    assert_eq!(lines[5], "  Archon: enabled, project: p, RAG: on");
    assert_eq!(lines[6], "  Tasks: 0 (AI will generate from product docs)");
    app.setup.archon.project_id = Some("q".to_string());
    app.setup.archon.use_rag = false;
    app.setup.tasks = vec![task("t1", TaskStatus::Todo)];
    let lines = texts(&draw_setup_step(&app));
    assert_eq!(lines[5], "  Archon: enabled, project: q");
    assert_eq!(lines[6], "  Tasks: 1");
}

#[test]
fn detected_files_are_listed() {
    let mut app = setup(SetupStep::Welcome);
    app.setup.detected = DetectedFiles {
        mission: Some("m".to_string()),
        prd: Some("p".to_string()),
        tech: Some("t".to_string()),
        task_file: Some("f".to_string()),
        is_git_repo: true,
    };
    assert_eq!(
        text(&draw_detected_files(&app)),
        " Detected: git mission.md prd.md tech.md ralpher.prd.json "
    );
}

#[test]
fn header_tells_of_the_run() {
    let mut app = app();
    assert_eq!(
        text(&draw_header(&app, 0)),
        "Run: none  |  State: NO RUN  |  Iteration: 0  |  Elapsed: --:--:--"
    );
    let mut run = Run::new_at("run-9".to_string(), GitMode::Branch, 1000);
    run.iteration = 12;
    for (state, label, color) in [
        (RunState::Idle, "IDLE", Color::Gray),
        (RunState::Running, "RUNNING", Color::Green),
        (RunState::Paused, "PAUSED", Color::Yellow),
        (RunState::Completed, "COMPLETED", Color::Cyan),
        (RunState::Aborted, "ABORTED", Color::Red),
    ] {
        run.state = state;
        app.run = Some(run.clone());
        let line = draw_header(&app, 3_662_500);
        assert_eq!(
            text(&line),
            format!("Run: run-9  |  State: {}  |  Iteration: 12  |  Elapsed: 01:01:01", label)
        );
        assert_eq!(line.spans[3].style, Style::fg(color).bold());
    }
    run.state = RunState::Running;
    app.run = Some(run);
    app.user_paused = true;
    assert!(text(&draw_header(&app, 0)).contains("PAUSING"));
}

#[test]
fn list_marks_selected_and_running_tasks() {
    let mut app = app();
    app.selected_task_index = 3;
    let mut run = Run::new("r".to_string(), GitMode::Branch);
    run.current_task_id = Some("t2".to_string());
    app.run = Some(run);
    let panel = draw_task_list(&app);
    assert_eq!(panel.title, " Tasks (4) ");
    assert_eq!(texts(&panel), vec![" [x] Do t1", " [>] Do t2", " [!] Do t3", ">[ ] Do t4"]);
    assert_eq!(panel.lines[0].spans[1].style, Style::fg(Color::Green));
    assert_eq!(panel.lines[1].spans[2].style, Style::fg(Color::Yellow).bold().underlined());
    assert_eq!(panel.lines[2].spans[1].style, Style::fg(Color::Red));
    assert_eq!(panel.lines[3].spans[1].style, Style::fg(Color::Gray).reversed());
}

#[test]
fn details_are_those_of_the_selected_task() {
    let mut app = app();
    app.selected_task_index = 1;
    app.tasks.tasks[1].notes = Some("hm".to_string());
    let panel = draw_task_details(&app);
    assert_eq!(panel.title, " Current Task ");
    assert_eq!(
        texts(&panel),
        vec![
            "ID: t2",
            "Title: Do t2",
            "Status: InProgress",
            "",
            "Acceptance Criteria:",
            "  - a",
            "  - b",
            "",
            "Notes: hm",
        ]
    );
    assert_eq!(panel.lines[2].spans[1].style, status_style(TaskStatus::InProgress));
    app.tasks.tasks[1].acceptance.clear();
    app.tasks.tasks[1].notes = None;
    assert_eq!(draw_task_details(&app).lines.len(), 4);
    app.selected_task_index = 9;
    assert_eq!(texts(&draw_task_details(&app)), vec!["No current task"]);
    assert_eq!(status_style(TaskStatus::Blocked), Style::fg(Color::Red));
    assert_eq!(status_style(TaskStatus::Done), Style::fg(Color::Green));
    assert_eq!(status_style(TaskStatus::Todo), Style::fg(Color::Gray));
}

#[test]
fn log_shows_the_lines_in_sight() {
    let mut app = app();
    let panel = draw_log_panel(&app, 12);
    assert_eq!(panel.title, " Agent Log ");
    assert_eq!(texts(&panel), vec!["No log output yet"]);
    for i in 0..20 {
        app.log_lines.push(format!("l{}", i));
    }
    let lines = texts(&draw_log_panel(&app, 12));
    assert_eq!(lines.len(), 10);
    assert_eq!(lines[0], "l10");
    assert_eq!(lines[9], "l19");
    app.log_scroll_offset = 15;
    app.log_source = LogSource::Validator;
    let panel = draw_log_panel(&app, 12);
    assert_eq!(panel.title, " Validator Log (scroll: +15) ");
    assert_eq!(texts(&panel), vec!["l0", "l1", "l2", "l3", "l4"]);
    assert!(draw_log_panel(&app, 1).lines.is_empty());
}

#[test]
fn log_lines_are_colored_by_content() {
    let mut app = app();
    for (line, style) in [
        ("an error", Style::fg(Color::Red)),
        ("PASS with FAIL", Style::fg(Color::Red)),
        ("WARN: x", Style::fg(Color::Yellow)),
        ("success", Style::fg(Color::Green)),
        ("=== stdout ===", Style::fg(Color::Cyan).bold()),
        ("plain", Style::plain()),
    ] {
        app.log_lines = vec![line.to_string()];
        assert_eq!(draw_log_panel(&app, 5).lines[0].spans[0].style, style);
    }
}

#[test]
fn footer_follows_the_state() {
    let mut app = app();
    assert_eq!(
        text(&draw_footer(&app)),
        " q  Quit   \u{2423}  Start   n  New   e  Edit   x  Del   d  Diff   Tab  Nav   l  Validator "
    );
    let mut run = Run::new("r".to_string(), GitMode::Branch);
    run.state = RunState::Running;
    app.run = Some(run);
    app.log_source = LogSource::Validator;
    assert_eq!(
        text(&draw_footer(&app)),
        " q  Quit   \u{2423}  Pause   a  Abort   r  Retry   s  Skip   n  New   e  Edit   x  Del   d  Diff   Tab  Nav   l  Agent "
    );
    app.run.as_mut().unwrap().state = RunState::Paused;
    assert!(text(&draw_footer(&app)).contains(" Resume "));
    assert_eq!(draw_footer(&app).spans[0].style, Style::plain().reversed());
}

#[test]
fn editor_shows_its_fields() {
    let mut app = app();
    app.start_edit_task();
    app.edit_buffer.acceptance = "a\nb\n".to_string();
    let popup = draw_task_editor_overlay(&app, 100, 40);
    assert_eq!(popup.area, Area { x: 20, y: 11, width: 60, height: 18 });
    assert_eq!(popup.border, Color::Cyan);
    assert_eq!(popup.panel.title, " Edit Task ");
    assert_eq!(
        texts(&popup.panel),
        vec![
            "Title:",
            "  Do t1_",
            "",
            "Acceptance Criteria (one per line):",
            "  a",
            "  b",
            "  ",
            "",
            "Notes:",
            "  ",
            "",
            "Tab: Next field  |  Enter: Save  |  Esc: Cancel",
        ]
    );
    app.edit_buffer.focused_field = 1;
    let popup = draw_task_editor_overlay(&app, 10, 5);
    assert_eq!(popup.area, Area { x: 0, y: 0, width: 10, height: 5 });
    assert_eq!(texts(&popup.panel)[6], "  _");
    assert_eq!(popup.panel.lines[3].spans[0].style, Style::fg(Color::Cyan).bold());
}

#[test]
fn overlays_follow_the_edit_mode() {
    let mut app = app();
    assert!(draw_overlay(&app, 80, 24).is_none());
    app.diff = Some(vec![]);
    let popup = draw_overlay(&app, 80, 24).unwrap();
    assert_eq!(texts(&popup.panel), vec!["No changes", "", "Esc: Close"]);
    app.diff = Some(parse_name_status("M\ta.rs\nR90\tb.rs\tc.rs\nU\td.rs\n", true));
    let popup = draw_overlay(&app, 80, 24).unwrap();
    assert_eq!(popup.panel.title, " Diff Summary ");
    assert_eq!(popup.area, Area { x: 10, y: 3, width: 60, height: 18 });
    assert_eq!(
        texts(&popup.panel),
        vec!["M  a.rs", "R  b.rs -> c.rs", "U  d.rs", "", "Esc: Close"]
    );
    app.edit_mode = EditMode::NewTask;
    assert_eq!(draw_overlay(&app, 80, 24).unwrap().panel.title, " New Task ");
    app.edit_mode = EditMode::ConfirmDelete("t1".to_string());
    let popup = draw_overlay(&app, 80, 24).unwrap();
    assert_eq!(popup.panel.title, " Confirm Delete ");
    assert_eq!(texts(&popup.panel)[1], "Delete task 't1'?");
    assert_eq!(popup.area, Area { x: 15, y: 8, width: 50, height: 7 });
    assert_eq!(popup.border, Color::Red);
    app.edit_mode = EditMode::MigrationMenu;
    assert_eq!(draw_overlay(&app, 80, 24).unwrap().panel.lines.len(), 9);
    app.edit_mode = EditMode::MigrationInProgress(MigrationDirection::LocalToArchon);
    assert_eq!(texts(&draw_overlay(&app, 80, 24).unwrap().panel)[1], "Migration in progress...");
    assert_eq!(draw_migration_menu_overlay(80, 4).area.y, 0);
    assert_eq!(draw_migration_progress_overlay(30, 24).area.width, 30);
}

#[test]
fn prompt_tells_the_task() {
    let mut t = task("t1", TaskStatus::Todo);
    t.notes = Some("careful".to_string());
    let prompt = compose_prompt(&t, "GUIDE.md");
    assert!(prompt.starts_with(
        "# Current Task\n\n**Task ID:** t1\n**Title:** Do t1\n\n**Acceptance Criteria:**\n- a\n- b\n\n**Notes:** careful\n\n# Instructions\n\n1. Read GUIDE.md to understand project conventions.\n2. "
    ));
    assert!(prompt.contains("     \"task_id\": \"t1\",\n     \"new_status\": \"done\",\n"));
    assert!(prompt.ends_with("5. If blocked, set new_status to \"blocked\" and explain in notes.\n"));
    t.acceptance.clear();
    t.notes = None;
    assert!(compose_prompt(&t, "GUIDE.md").starts_with(
        "# Current Task\n\n**Task ID:** t1\n**Title:** Do t1\n\n# Instructions\n\n"
    ));
}

#[test]
fn agent_gets_the_prompt_behind_its_command() {
    let t = task("t1", TaskStatus::Todo);
    let agent = Some(AgentConfig {
        runner_type: "command".to_string(),
        cmd: vec!["sh".to_string(), "-x".to_string(), "a \"b\"".to_string()],
    });
    let request = request_agent(&agent, 7, &t, "GUIDE.md").unwrap();
    assert_eq!(request.program, "sh");
    assert_eq!(request.args.len(), 4);
    assert_eq!(&request.args[..3], ["-x", "a \"b\"", "-p"]);
    assert_eq!(request.args[3], compose_prompt(&t, "GUIDE.md"));
    assert_eq!(
        request.log_header,
        format!(
            "=== ralpher agent execution ===\nIteration: 7\nTask: t1 - Do t1\nCommand: [\"sh\", \"-x\", \"a \\\"b\\\"\"]\n\n=== Prompt ===\n{}\n\n",
            compose_prompt(&t, "GUIDE.md")
        )
    );
    assert_eq!(
        request_agent(&None, 1, &t, "GUIDE.md").unwrap_err().message(),
        "No agent configured in ralpher.toml. Add [agent] section with type and cmd."
    );
    let empty = Some(AgentConfig { runner_type: "command".to_string(), cmd: vec![] });
    assert_eq!(request_agent(&empty, 1, &t, "GUIDE.md").unwrap_err().message(), "Agent command is empty");
}

#[test]
fn agent_log_ends_with_the_exit_code() {
    let show = |out: bool, err: bool, code: i32| -> String {
        agent_log_tail(out, err, code)
            .iter()
            .map(|p| match p {
                LogPart::Text(s) => s.as_str(),
                LogPart::Stdout => "OUT",
                LogPart::Stderr => "ERR",
            })
            .collect()
    };
    assert_eq!(
        show(true, true, -1),
        "=== stdout ===\nOUT\n=== stderr ===\nERR\n=== exit code: -1 ===\n"
    );
    assert_eq!(show(false, false, 0), "=== exit code: 0 ===\n");
    assert_eq!(show(false, true, 2), "=== stderr ===\nERR\n=== exit code: 2 ===\n");
}
