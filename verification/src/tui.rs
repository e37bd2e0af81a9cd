//! The state of the terminal interface.
//!
//! Points in time are nanoseconds on a clock that never goes back, except where
//! Unix milliseconds are asked for.

use vstd::prelude::*;

use crate::config::{archon_off, ArchonConfig, ArchonView, Config, ConfigView, GitMode};
use crate::event::{Event, StampedView};
use crate::letters::uppercase;
use crate::number::{
    decimal, decimal_text, signed_decimal, signed_text, successor_text, two_digit_text, two_digits,
};
use crate::path::{join_path, joined};
use crate::prd_parser::{parse_prd_tasks, stories_of, tasks_of};
use crate::run::{MigrationDirection, Run, RunState, RunView};
use crate::search::{join, lines, lines_of};
use crate::task::{
    id_index, lemma_id_index, new_id, Task, TaskList, TaskListView, TaskStatus, TaskView, TASK_FILE_NAME,
};
use crate::text::{
    chars_of, has_content, lemma_views_push, opt_view, owned, same_text, string_of, trim, trim_end,
    trimmed, trimmed_end, trimmed_text, views,
};
use crate::workspace::{FileChange, FileChangeView};

verus! {

/// Log source selection for the log panel.
#[derive(Clone, Copy, Debug, PartialEq, Eq, Structural)]
pub enum LogSource {
    /// Show agent output logs.
    Agent,
    /// Show validator output logs.
    Validator,
}

impl Default for LogSource {
    fn default() -> (r: Self)
        ensures
            r == LogSource::Agent,
    {
        LogSource::Agent
    }
}

/// TUI operating mode.
#[derive(Clone, Copy, Debug, PartialEq, Eq, Structural)]
pub enum TuiMode {
    /// Normal operation mode with config loaded.
    Normal,
    /// Setup mode - no config found, guide user through setup.
    Setup,
}

impl Default for TuiMode {
    fn default() -> (r: Self)
        ensures
            r == TuiMode::Normal,
    {
        TuiMode::Normal
    }
}

/// Setup wizard step.
#[derive(Clone, Copy, Debug, PartialEq, Eq, Structural)]
pub enum SetupStep {
    /// Welcome screen showing detected files.
    Welcome,
    /// Configure the AI agent command.
    AgentConfig,
    /// Select git mode (branch/trunk).
    GitMode,
    /// Configure Archon MCP integration (optional).
    Archon,
    /// Import or create tasks.
    Tasks,
    /// Review and save configuration.
    Review,
}

impl Default for SetupStep {
    fn default() -> (r: Self)
        ensures
            r == SetupStep::Welcome,
    {
        SetupStep::Welcome
    }
}

/// Edit mode for task CRUD operations.
#[derive(Debug, PartialEq, Eq)]
pub enum EditMode {
    /// No editing in progress.
    Inactive,
    /// Creating a new task.
    NewTask,
    /// Editing the task with the given ID.
    EditingTask(String),
    /// Confirming the deletion of the task with the given ID.
    ConfirmDelete(String),
    /// Migration menu (selecting direction).
    MigrationMenu,
    /// Migration in progress.
    MigrationInProgress(MigrationDirection),
}

/// What an edit mode says.
#[verifier::ext_equal]
pub enum EditModeView {
    Inactive,
    NewTask,
    EditingTask(Seq<char>),
    ConfirmDelete(Seq<char>),
    MigrationMenu,
    MigrationInProgress(MigrationDirection),
}

impl View for EditMode {
    type V = EditModeView;

    open spec fn view(&self) -> EditModeView {
        match *self {
            EditMode::Inactive => EditModeView::Inactive,
            EditMode::NewTask => EditModeView::NewTask,
            EditMode::EditingTask(id) => EditModeView::EditingTask(id@),
            EditMode::ConfirmDelete(id) => EditModeView::ConfirmDelete(id@),
            EditMode::MigrationMenu => EditModeView::MigrationMenu,
            EditMode::MigrationInProgress(d) => EditModeView::MigrationInProgress(d),
        }
    }
}

impl Default for EditMode {
    fn default() -> (r: Self)
        ensures
            r == EditMode::Inactive,
    {
        EditMode::Inactive
    }
}

/// Detected product files in the directory.
#[derive(Debug)]
pub struct DetectedFiles {
    /// Mission file (mission.md or product/mission.md).
    pub mission: Option<String>,
    /// PRD file (prd.md or product/prd.md).
    pub prd: Option<String>,
    /// Tech file (tech.md or product/tech.md).
    pub tech: Option<String>,
    /// Existing ralpher.prd.json.
    pub task_file: Option<String>,
    /// Whether this is a git repository.
    pub is_git_repo: bool,
}

/// What detected files say.
#[verifier::ext_equal]
pub struct DetectedView {
    pub mission: Option<Seq<char>>,
    pub prd: Option<Seq<char>>,
    pub tech: Option<Seq<char>>,
    pub task_file: Option<Seq<char>>,
    pub is_git_repo: bool,
}

impl View for DetectedFiles {
    type V = DetectedView;

    open spec fn view(&self) -> DetectedView {
        DetectedView {
            mission: opt_view(self.mission),
            prd: opt_view(self.prd),
            tech: opt_view(self.tech),
            task_file: opt_view(self.task_file),
            is_git_repo: self.is_git_repo,
        }
    }
}

impl Default for DetectedFiles {
    fn default() -> (r: Self)
        ensures
            r@ == nothing_detected(),
    {
        DetectedFiles { mission: None, prd: None, tech: None, task_file: None, is_git_repo: false }
    }
}

/// No files at all.
pub open spec fn nothing_detected() -> DetectedView {
    DetectedView { mission: None, prd: None, tech: None, task_file: None, is_git_repo: false }
}

/// Task being edited (buffer for in-progress edits).
#[derive(Debug)]
pub struct TaskEditBuffer {
    /// Task ID (generated for new tasks, existing for edits).
    pub id: String,
    /// Task title.
    pub title: String,
    /// Acceptance criteria (one per line in editor).
    pub acceptance: String,
    /// Notes.
    pub notes: String,
    /// Which field is currently focused.
    pub focused_field: usize,
}

/// What an edit buffer holds.
#[verifier::ext_equal]
pub struct BufferView {
    pub id: Seq<char>,
    pub title: Seq<char>,
    pub acceptance: Seq<char>,
    pub notes: Seq<char>,
    pub focused_field: usize,
}

impl View for TaskEditBuffer {
    type V = BufferView;

    open spec fn view(&self) -> BufferView {
        BufferView {
            id: self.id@,
            title: self.title@,
            acceptance: self.acceptance@,
            notes: self.notes@,
            focused_field: self.focused_field,
        }
    }
}

/// An empty edit buffer.
pub open spec fn empty_buffer() -> BufferView {
    BufferView {
        id: Seq::empty(),
        title: Seq::empty(),
        acceptance: Seq::empty(),
        notes: Seq::empty(),
        focused_field: 0,
    }
}

impl Default for TaskEditBuffer {
    fn default() -> (r: Self)
        ensures
            r@ == empty_buffer(),
    {
        TaskEditBuffer {
            id: String::new(),
            title: String::new(),
            acceptance: String::new(),
            notes: String::new(),
            focused_field: 0,
        }
    }
}

/// Setup wizard state.
#[derive(Debug)]
pub struct SetupState {
    /// Current step in the wizard.
    pub step: SetupStep,
    /// Detected files in the directory.
    pub detected: DetectedFiles,
    /// Agent command that the wizard proposes.
    pub default_cmd: String,
    /// Agent command being configured.
    pub agent_cmd: String,
    /// Selected git mode.
    pub git_mode: GitMode,
    /// Archon MCP configuration.
    pub archon: ArchonConfig,
    /// Archon project ID input buffer.
    pub archon_project_id_input: String,
    /// Tasks being created/imported.
    pub tasks: Vec<Task>,
    /// Currently focused field in current step.
    pub focused_field: usize,
}

/// What the setup wizard holds.
#[verifier::ext_equal]
pub struct SetupView {
    pub step: SetupStep,
    pub detected: DetectedView,
    pub default_cmd: Seq<char>,
    pub agent_cmd: Seq<char>,
    pub git_mode: GitMode,
    pub archon: ArchonView,
    pub archon_project_id_input: Seq<char>,
    pub tasks: Seq<TaskView>,
    pub focused_field: usize,
}

impl View for SetupState {
    type V = SetupView;

    open spec fn view(&self) -> SetupView {
        SetupView {
            step: self.step,
            detected: self.detected@,
            default_cmd: self.default_cmd@,
            agent_cmd: self.agent_cmd@,
            git_mode: self.git_mode,
            archon: self.archon@,
            archon_project_id_input: self.archon_project_id_input@,
            tasks: views(self.tasks@),
            focused_field: self.focused_field,
        }
    }
}

/// The wizard before anything is known.
pub open spec fn empty_setup() -> SetupView {
    SetupView {
        step: SetupStep::Welcome,
        detected: nothing_detected(),
        default_cmd: Seq::empty(),
        agent_cmd: Seq::empty(),
        git_mode: GitMode::Branch,
        archon: archon_off(),
        archon_project_id_input: Seq::empty(),
        tasks: Seq::empty(),
        focused_field: 0,
    }
}

impl Default for SetupState {
    fn default() -> (r: Self)
        ensures
            r@ == empty_setup(),
    {
        let r = SetupState {
            step: SetupStep::Welcome,
            detected: DetectedFiles::default(),
            default_cmd: String::new(),
            agent_cmd: String::new(),
            git_mode: GitMode::Branch,
            archon: ArchonConfig::default(),
            archon_project_id_input: String::new(),
            tasks: Vec::new(),
            focused_field: 0,
        };
        assert(r@ =~= empty_setup());
        r
    }
}

/// TUI application state.
#[derive(Debug)]
pub struct App {
    /// Path to the repository root.
    pub repo_path: String,
    /// Loaded config (for checking archon settings without engine).
    pub config: Option<Config>,
    /// Current TUI operating mode.
    pub mode: TuiMode,
    /// Setup wizard state (only used in Setup mode).
    pub setup: SetupState,
    /// Current run state (loaded from run.json).
    pub run: Option<Run>,
    /// Task list (loaded from ralpher.prd.json).
    pub tasks: TaskList,
    /// Recent events from events.ndjson.
    pub events: Vec<Event>,
    /// File position for incremental event reading.
    pub event_file_pos: u64,
    /// Time when the TUI started (for elapsed time calculation).
    pub start_time: u64,
    /// Whether the TUI should quit.
    pub should_quit: bool,
    /// Last error message to display.
    pub last_error: Option<String>,
    /// Current log source (agent or validator).
    pub log_source: LogSource,
    /// Cached log lines for current log source.
    pub log_lines: Vec<String>,
    /// File position for incremental log reading.
    pub log_file_pos: u64,
    /// Scroll offset for log panel (0 = at bottom/most recent).
    pub log_scroll_offset: usize,
    /// Time of last user interaction (for auto-iteration when idle).
    pub last_interaction: u64,
    /// Whether iterations are paused by user.
    pub user_paused: bool,
    /// Currently selected task index in task list.
    pub selected_task_index: usize,
    /// Current edit mode for task CRUD.
    pub edit_mode: EditMode,
    /// Buffer for task being edited.
    pub edit_buffer: TaskEditBuffer,
    /// The changes of the last commit, while their summary is open.
    pub diff: Option<Vec<FileChange>>,
}

/// What the application holds.
#[verifier::ext_equal]
pub struct AppView {
    pub repo_path: Seq<char>,
    pub config: Option<ConfigView>,
    pub mode: TuiMode,
    pub setup: SetupView,
    pub run: Option<RunView>,
    pub tasks: TaskListView,
    pub events: Seq<StampedView>,
    pub event_file_pos: u64,
    pub start_time: u64,
    pub should_quit: bool,
    pub last_error: Option<Seq<char>>,
    pub log_source: LogSource,
    pub log_lines: Seq<Seq<char>>,
    pub log_file_pos: u64,
    pub log_scroll_offset: usize,
    pub last_interaction: u64,
    pub user_paused: bool,
    pub selected_task_index: usize,
    pub edit_mode: EditModeView,
    pub edit_buffer: BufferView,
    pub diff: Option<Seq<FileChangeView>>,
}

impl View for App {
    type V = AppView;

    open spec fn view(&self) -> AppView {
        AppView {
            repo_path: self.repo_path@,
            config: opt_view(self.config),
            mode: self.mode,
            setup: self.setup@,
            run: opt_view(self.run),
            tasks: self.tasks@,
            events: views(self.events@),
            event_file_pos: self.event_file_pos,
            start_time: self.start_time,
            should_quit: self.should_quit,
            last_error: opt_view(self.last_error),
            log_source: self.log_source,
            log_lines: views(self.log_lines@),
            log_file_pos: self.log_file_pos,
            log_scroll_offset: self.log_scroll_offset,
            last_interaction: self.last_interaction,
            user_paused: self.user_paused,
            selected_task_index: self.selected_task_index,
            edit_mode: self.edit_mode@,
            edit_buffer: self.edit_buffer@,
            diff: match self.diff {
                Some(changes) => Some(views(changes@)),
                None => None,
            },
        }
    }
}

/// The application at its start, at the given time.
pub open spec fn blank_app(repo_path: Seq<char>, now: u64) -> AppView {
    AppView {
        repo_path,
        config: None,
        mode: TuiMode::Normal,
        setup: empty_setup(),
        run: None,
        tasks: TaskListView { tasks: Seq::empty(), path: None },
        events: Seq::empty(),
        event_file_pos: 0,
        start_time: now,
        should_quit: false,
        last_error: None,
        log_source: LogSource::Agent,
        log_lines: Seq::empty(),
        log_file_pos: 0,
        log_scroll_offset: 0,
        last_interaction: now,
        user_paused: false,
        selected_task_index: 0,
        edit_mode: EditModeView::Inactive,
        edit_buffer: empty_buffer(),
        diff: None,
    }
}

/// The application at its start, in setup mode.
pub open spec fn setup_app(
    repo_path: Seq<char>,
    detected: DetectedView,
    prd: Option<Seq<char>>,
    default_cmd: Seq<char>,
    now: u64,
) -> AppView {
    AppView {
        mode: TuiMode::Setup,
        setup: SetupView {
            detected,
            default_cmd,
            agent_cmd: default_cmd,
            tasks: match prd {
                Some(content) => tasks_of(stories_of(content)),
                None => Seq::empty(),
            },
            ..empty_setup()
        },
        ..blank_app(repo_path, now)
    }
}

// ------------------------------------------------------------------------ time

/// The time from `since` to `now`, or none where `now` is earlier.
pub open spec fn elapsed_since(since: u64, now: u64) -> u64 {
    if now > since {
        (now - since) as u64
    } else {
        0
    }
}

/// How long a user must have been idle before an iteration runs: half a second.
pub const IDLE_BEFORE_ITERATION: u64 = 500_000_000;

/// Whether an iteration is to be run.
pub open spec fn wants_iteration(a: AppView, now: u64) -> bool {
    &&& !a.user_paused
    &&& a.run matches Some(run) && run.state == RunState::Running
    &&& elapsed_since(a.last_interaction, now) > IDLE_BEFORE_ITERATION
}

/// A number of seconds as HH:MM:SS.
pub open spec fn clock_text(secs: nat) -> Seq<char> {
    two_digits(secs / 3600) + ":"@ + two_digits(secs % 3600 / 60) + ":"@ + two_digits(secs % 60)
}

// -------------------------------------------------------------- reading of files

/// A line that was read from the event log, with the event that it holds, if
/// it can be read.
#[derive(Debug)]
pub struct EventLine {
    pub text: String,
    pub event: Option<Event>,
}

/// What was read from the event log beyond the known position.
#[derive(Debug)]
pub struct EventChunk {
    /// The lines, in order.
    pub lines: Vec<EventLine>,
    /// How many bytes they take.
    pub bytes: u64,
    /// Why reading ended early, if it did.
    pub error: Option<String>,
}

/// The events in the lines that hold more than whitespace.
pub open spec fn events_in(ls: Seq<EventLine>) -> Seq<StampedView>
    decreases ls.len(),
{
    if ls.len() == 0 {
        Seq::empty()
    } else {
        let front = events_in(ls.drop_last());
        match ls.last().event {
            Some(e) if trim(ls.last().text@).len() > 0 => front.push(e@),
            _ => front,
        }
    }
}

/// How many events are kept.
pub const EVENT_LIMIT: usize = 100;

/// How many log lines are kept.
pub const LOG_LIMIT: usize = 1000;

/// The last elements of `s`, at most `limit` of them.
pub open spec fn last_of<T>(s: Seq<T>, limit: int) -> Seq<T> {
    if s.len() > limit {
        s.skip(s.len() - limit)
    } else {
        s
    }
}

/// The application after reading events.
pub open spec fn with_events(a: AppView, chunk: EventChunk) -> AppView {
    let events = a.events + events_in(chunk.lines@);
    AppView {
        event_file_pos: (a.event_file_pos + chunk.bytes) as u64,
        events: if chunk.error is Some {
            events
        } else {
            last_of(events, EVENT_LIMIT as int)
        },
        ..a
    }
}

/// What was read from the agent's log beyond the known position.
#[derive(Debug)]
pub struct LogChunk {
    /// The lines, in order.
    pub lines: Vec<String>,
    /// How many bytes they take.
    pub bytes: u64,
    /// Why reading ended early, if it did.
    pub error: Option<String>,
}

/// The lines that hold more than whitespace, without trailing whitespace.
pub open spec fn log_text(ls: Seq<Seq<char>>) -> Seq<Seq<char>>
    decreases ls.len(),
{
    if ls.len() == 0 {
        Seq::empty()
    } else {
        let front = log_text(ls.drop_last());
        if trim_end(ls.last()).len() > 0 {
            front.push(trim_end(ls.last()))
        } else {
            front
        }
    }
}

/// The application after reading the agent's log.
pub open spec fn with_agent_log(a: AppView, chunk: LogChunk) -> AppView {
    let log = a.log_lines + log_text(views(chunk.lines@));
    AppView {
        log_file_pos: (a.log_file_pos + chunk.bytes) as u64,
        log_lines: if chunk.error is Some {
            log
        } else {
            last_of(log, LOG_LIMIT as int)
        },
        ..a
    }
}

/// One validator in a file of validation results.
#[derive(Debug)]
pub struct ReportEntry {
    pub command: String,
    pub status: String,
    pub exit_code: Option<i32>,
    pub output: Option<String>,
}

/// A file of validation results.
#[derive(Debug)]
pub struct ValidatorReport {
    pub validators: Vec<ReportEntry>,
    pub all_passed: bool,
}

/// A truth value in words.
pub open spec fn bool_text(b: bool) -> Seq<char> {
    if b {
        "true"@
    } else {
        "false"@
    }
}

/// An exit code as the log shows it.
pub open spec fn exit_text(code: Option<i32>) -> Seq<char> {
    match code {
        Some(c) => "Some("@ + signed_decimal(c as int) + ")"@,
        None => "None"@,
    }
}

/// Lines, each of them set off to the right.
pub open spec fn indented(ls: Seq<Seq<char>>) -> Seq<Seq<char>> {
    ls.map_values(|l: Seq<char>| "    "@ + l)
}

/// The log lines of the validator with the given number.
pub open spec fn entry_lines(number: nat, v: ReportEntry) -> Seq<Seq<char>> {
    seq![
        "["@ + decimal(number) + "] "@ + v.command@ + " - "@ + uppercase(v.status@) + " (exit: "@
            + exit_text(v.exit_code) + ")"@,
    ] + (match v.output {
        Some(o) => indented(lines(o@)),
        None => Seq::empty(),
    }) + seq![Seq::empty()]
}

/// The log lines of the validators, numbered from one.
pub open spec fn entries_lines(vs: Seq<ReportEntry>) -> Seq<Seq<char>>
    decreases vs.len(),
{
    if vs.len() == 0 {
        Seq::empty()
    } else {
        entries_lines(vs.drop_last()) + entry_lines(vs.len(), vs.last())
    }
}

/// The log lines of a file of validation results.
pub open spec fn report_lines(r: ValidatorReport) -> Seq<Seq<char>> {
    seq![
        "=== Validation Results (all_passed: "@ + bool_text(r.all_passed) + ") ==="@,
        Seq::empty(),
    ] + entries_lines(r.validators@)
}

/// What came of reading the current log.
#[derive(Debug)]
pub enum LogRead {
    /// There is no log.
    Missing,
    /// The agent's log.
    Agent(LogChunk),
    /// The validators' results.
    Validator(ValidatorReport),
    /// The log could not be opened or understood.
    Failed(String),
}

/// The application after reading the current log.
pub open spec fn with_log(a: AppView, read: LogRead) -> AppView {
    match read {
        LogRead::Missing => a,
        LogRead::Agent(chunk) => with_agent_log(a, chunk),
        LogRead::Validator(report) => AppView { log_lines: report_lines(report), ..a },
        LogRead::Failed(_) => a,
    }
}

/// Whether the file position after reading the current log can be noted.
pub open spec fn log_fits(a: AppView, read: LogRead) -> bool {
    read matches LogRead::Agent(chunk) ==> a.log_file_pos + chunk.bytes <= u64::MAX
}

/// Why reading the current log failed, if it did.
pub open spec fn log_error(read: LogRead) -> Option<Seq<char>> {
    match read {
        LogRead::Agent(chunk) => opt_view(chunk.error),
        LogRead::Failed(e) => Some(e@),
        _ => None,
    }
}

// --------------------------------------------------------------- the application

impl App {
    fn blank(repo_path: &str, now: u64) -> (r: Self)
        ensures
            r@ == blank_app(repo_path@, now),
    {
        let r = App {
            repo_path: owned(repo_path),
            config: None,
            mode: TuiMode::Normal,
            setup: SetupState::default(),
            run: None,
            tasks: TaskList::default(),
            events: Vec::new(),
            event_file_pos: 0,
            start_time: now,
            should_quit: false,
            last_error: None,
            log_source: LogSource::Agent,
            log_lines: Vec::new(),
            log_file_pos: 0,
            log_scroll_offset: 0,
            last_interaction: now,
            user_paused: false,
            selected_task_index: 0,
            edit_mode: EditMode::Inactive,
            edit_buffer: TaskEditBuffer::default(),
            diff: None,
        };
        assert(r@ =~= blank_app(repo_path@, now));
        r
    }

    /// Create a new TUI app in normal mode.
    pub fn new(repo_path: &str, run: Option<Run>, tasks: TaskList, config: Config, now: u64) -> (r:
        Self)
        ensures
            r@ == (AppView {
                config: Some(config@),
                run: opt_view(run),
                tasks: tasks@,
                ..blank_app(repo_path@, now)
            }),
    {
        let mut app = App::blank(repo_path, now);
        app.config = Some(config);
        app.run = run;
        app.tasks = tasks;
        app
    }

    /// Create a new TUI app in setup mode (no config found). The tasks are
    /// imported from the text of the PRD file, if there is one, and the given
    /// agent command is proposed.
    pub fn new_setup(
        repo_path: &str,
        detected: DetectedFiles,
        prd: Option<&str>,
        default_cmd: &str,
        now: u64,
    ) -> (r: Self)
        ensures
            r@ == setup_app(
                repo_path@,
                detected@,
                match prd {
                    Some(content) => Some(content@),
                    None => None,
                },
                default_cmd@,
                now,
            ),
    {
        let mut app = App::blank(repo_path, now);
        app.mode = TuiMode::Setup;
        app.setup.detected = detected;
        app.setup.default_cmd = owned(default_cmd);
        app.setup.agent_cmd = owned(default_cmd);
        match prd {
            Some(content) => {
                app.setup.tasks = parse_prd_tasks(content);
            },
            None => {},
        }
        app
    }

    /// Mark that user interacted (resets idle timer).
    pub fn touch(&mut self, now: u64)
        ensures
            *final(self) == (App { last_interaction: now, ..*old(self) }),
    {
        self.last_interaction = now;
    }

    /// Check if user has been idle for the given duration.
    pub fn is_idle_for(&self, duration: u64, now: u64) -> (r: bool)
        ensures
            r == (elapsed_since(self.last_interaction, now) > duration),
    {
        now > self.last_interaction && now - self.last_interaction > duration
    }

    /// Get the current run state.
    pub fn run_state(&self) -> (r: Option<RunState>)
        ensures
            r == match self.run {
                Some(run) => Some(run.state),
                None => None,
            },
    {
        match &self.run {
            Some(run) => Some(run.state),
            None => None,
        }
    }

    /// Path to the events file.
    pub fn events_path(&self) -> (r: String)
        ensures
            r@ == join_path(self.repo_path@, ".ralpher/events.ndjson"@),
    {
        joined(self.repo_path.as_str(), ".ralpher/events.ndjson")
    }

    /// Reload run state from what was read from disk.
    pub fn reload_run(&mut self, loaded: Result<Option<Run>, String>) -> (r: Result<(), String>)
        ensures
            match loaded {
                Ok(run) => r is Ok && *final(self) == (App { run, ..*old(self) }),
                Err(e) => r == Err::<(), String>(e) && *final(self) == *old(self),
            },
    {
        match loaded {
            Ok(run) => {
                self.run = run;
                Ok(())
            },
            Err(e) => Err(e),
        }
    }

    /// Reload tasks from what was read from disk.
    pub fn reload_tasks(&mut self, loaded: Result<TaskList, String>) -> (r: Result<(), String>)
        ensures
            match loaded {
                Ok(tasks) => r is Ok && *final(self) == (App { tasks, ..*old(self) }),
                Err(e) => r == Err::<(), String>(e) && *final(self) == *old(self),
            },
    {
        match loaded {
            Ok(tasks) => {
                self.tasks = tasks;
                Ok(())
            },
            Err(e) => Err(e),
        }
    }

    /// Take in new events from the events file (incremental).
    pub fn read_new_events(&mut self, chunk: EventChunk) -> (r: Result<(), String>)
        requires
            old(self).event_file_pos + chunk.bytes <= u64::MAX,
        ensures
            final(self)@ == with_events(old(self)@, chunk),
            match chunk.error {
                Some(e) => r == Err::<(), String>(e),
                None => r is Ok,
            },
    {
        let ghost before = self@.events;
        let n = chunk.lines.len();
        let ghost ls = chunk.lines@;
        self.event_file_pos = self.event_file_pos + chunk.bytes;
        let ghost base = *self;
        assert(ls.take(0) =~= Seq::<EventLine>::empty());
        assert(before + events_in(ls.take(0)) =~= before);
        for i in 0..n
            invariant
                n == chunk.lines@.len(),
                ls == chunk.lines@,
                views(self.events@) == before + events_in(ls.take(i as int)),
                *self == (App { events: self.events, ..base }),
        {
            broadcast use lemma_views_push;

            assert(ls.take(i + 1).drop_last() =~= ls.take(i as int));
            if has_content(chunk.lines[i].text.as_str()) {
                match &chunk.lines[i].event {
                    Some(e) => {
                        self.events.push(e.clone());
                        assert(views(self.events@) =~= before + events_in(ls.take(i + 1)));
                    },
                    None => {},
                }
            }
        }
        assert(ls.take(n as int) =~= ls);
        match chunk.error {
            Some(e) => Err(e),
            None => {
                if self.events.len() > EVENT_LIMIT {
                    let ghost all = self.events@;
                    let drop = self.events.len() - EVENT_LIMIT;
                    self.events = self.events.split_off(drop);
                    assert(views(self.events@) =~= views(all).skip(drop as int));
                }
                Ok(())
            },
        }
    }

    /// Get elapsed time since TUI started.
    pub fn elapsed(&self, now: u64) -> (r: u64)
        ensures
            r == elapsed_since(self.start_time, now),
    {
        if now > self.start_time {
            now - self.start_time
        } else {
            0
        }
    }

    /// Get the time since the run's start by the run record, both in Unix
    /// milliseconds.
    pub fn run_elapsed(&self, now_ms: u64) -> (r: Option<u64>)
        ensures
            r == match self.run {
                Some(run) => Some(elapsed_since(run.started_at, now_ms)),
                None => None,
            },
    {
        match &self.run {
            Some(run) => if now_ms > run.started_at {
                Some(now_ms - run.started_at)
            } else {
                Some(0)
            },
            None => None,
        }
    }

    /// Format a number of seconds as HH:MM:SS.
    pub fn format_duration(secs: u64) -> (r: String)
        ensures
            r@ == clock_text(secs as nat),
    {
        two_digit_text(secs / 3600).concat(":").concat(
            two_digit_text((secs % 3600) / 60).as_str(),
        ).concat(":").concat(two_digit_text(secs % 60).as_str())
    }

    /// Toggle between agent and validator log sources. What is shown of the
    /// other log is forgotten; the log is to be reloaded at once.
    pub fn toggle_log_source(&mut self)
        ensures
            final(self)@ == toggled(old(self)@),
    {
        self.log_source = match self.log_source {
            LogSource::Agent => LogSource::Validator,
            LogSource::Validator => LogSource::Agent,
        };
        self.log_lines = Vec::new();
        self.log_file_pos = 0;
        self.log_scroll_offset = 0;
        assert(self@ =~= toggled(old(self)@));
    }

    fn iteration_file(&self, name: &str) -> (r: Option<String>)
        ensures
            opt_view(r) == iteration_file_path(self@, name@),
    {
        match &self.run {
            Some(run) => if run.iteration == 0 {
                None
            } else {
                let dir = joined(self.repo_path.as_str(), ".ralpher/iterations");
                let number = decimal_text(run.iteration as u64);
                Some(joined(joined(dir.as_str(), number.as_str()).as_str(), name))
            },
            None => None,
        }
    }

    /// Get the path to the current agent log file.
    pub fn agent_log_path(&self) -> (r: Option<String>)
        ensures
            opt_view(r) == iteration_file_path(self@, "agent.log"@),
    {
        self.iteration_file("agent.log")
    }

    /// Get the path to the current validator results file.
    pub fn validator_log_path(&self) -> (r: Option<String>)
        ensures
            opt_view(r) == iteration_file_path(self@, "validate.json"@),
    {
        self.iteration_file("validate.json")
    }

    /// Take in the current iteration's log, as it was read.
    pub fn reload_logs(&mut self, read: LogRead) -> (r: Result<(), String>)
        requires
            log_fits(old(self)@, read),
        ensures
            final(self)@ == with_log(old(self)@, read),
            match log_error(read) {
                Some(e) => r matches Err(x) && x@ == e,
                None => r is Ok,
            },
    {
        match read {
            LogRead::Missing => Ok(()),
            LogRead::Agent(chunk) => self.reload_agent_log(chunk),
            LogRead::Validator(report) => {
                self.reload_validator_log(&report);
                Ok(())
            },
            LogRead::Failed(e) => Err(e),
        }
    }

    /// Reload agent log incrementally.
    fn reload_agent_log(&mut self, chunk: LogChunk) -> (r: Result<(), String>)
        requires
            old(self).log_file_pos + chunk.bytes <= u64::MAX,
        ensures
            final(self)@ == with_agent_log(old(self)@, chunk),
            match chunk.error {
                Some(e) => r == Err::<(), String>(e),
                None => r is Ok,
            },
    {
        let ghost before = self@.log_lines;
        let n = chunk.lines.len();
        let ghost ls = views(chunk.lines@);
        self.log_file_pos = self.log_file_pos + chunk.bytes;
        let ghost base = *self;
        assert(ls.take(0) =~= Seq::<Seq<char>>::empty());
        assert(before + log_text(ls.take(0)) =~= before);
        for i in 0..n
            invariant
                n == chunk.lines@.len(),
                ls == views(chunk.lines@),
                views(self.log_lines@) == before + log_text(ls.take(i as int)),
                *self == (App { log_lines: self.log_lines, ..base }),
        {
            broadcast use lemma_views_push;

            assert(ls.take(i + 1).drop_last() =~= ls.take(i as int));
            assert(ls[i as int] == chunk.lines@[i as int]@);
            let line = trimmed_end(&chars_of(chunk.lines[i].as_str()));
            if line.len() > 0 {
                self.log_lines.push(string_of(&line));
                assert(views(self.log_lines@) =~= before + log_text(ls.take(i + 1)));
            }
        }
        assert(ls.take(n as int) =~= ls);
        match chunk.error {
            Some(e) => Err(e),
            None => {
                if self.log_lines.len() > LOG_LIMIT {
                    let ghost all = self.log_lines@;
                    let drop = self.log_lines.len() - LOG_LIMIT;
                    self.log_lines = self.log_lines.split_off(drop);
                    assert(views(self.log_lines@) =~= views(all).skip(drop as int));
                }
                Ok(())
            },
        }
    }

    /// Reload validator log (validation results as log lines).
    fn reload_validator_log(&mut self, report: &ValidatorReport)
        ensures
            final(self)@ == (AppView { log_lines: report_lines(*report), ..old(self)@ }),
    {
        let flag = if report.all_passed {
            "true"
        } else {
            "false"
        };
        let mut out: Vec<String> = vec![
            owned("=== Validation Results (all_passed: ").concat(flag).concat(") ==="),
            String::new(),
        ];
        let ghost head = views(out@);
        assert(head =~= seq![
            "=== Validation Results (all_passed: "@ + bool_text(report.all_passed) + ") ==="@,
            Seq::empty(),
        ]);
        let n = report.validators.len();
        let ghost vs = report.validators@;
        assert(vs.take(0) =~= Seq::<ReportEntry>::empty());
        assert(head + entries_lines(vs.take(0)) =~= head);
        for i in 0..n
            invariant
                n == report.validators@.len(),
                vs == report.validators@,
                views(out@) == head + entries_lines(vs.take(i as int)),
        {
            assert(vs.take(i + 1).drop_last() =~= vs.take(i as int));
            push_entry(&mut out, i, &report.validators[i]);
            assert(views(out@) =~= head + entries_lines(vs.take(i + 1)));
        }
        assert(vs.take(n as int) =~= vs);
        self.log_lines = out;
    }

    /// Scroll up in the log panel (view older lines).
    pub fn scroll_log_up(&mut self, amount: usize)
        ensures
            *final(self) == (App {
                log_scroll_offset: scrolled_up(
                    old(self).log_scroll_offset,
                    amount,
                    old(self).log_lines@.len(),
                ),
                ..*old(self)
            }),
    {
        let n = self.log_lines.len();
        let max_scroll = if n > 0 {
            n - 1
        } else {
            0
        };
        let offset = self.log_scroll_offset;
        self.log_scroll_offset = if offset >= max_scroll || amount >= max_scroll - offset {
            max_scroll
        } else {
            offset + amount
        };
    }

    /// Scroll down in the log panel (view newer lines).
    pub fn scroll_log_down(&mut self, amount: usize)
        ensures
            *final(self) == (App {
                log_scroll_offset: if old(self).log_scroll_offset > amount {
                    (old(self).log_scroll_offset - amount) as usize
                } else {
                    0
                },
                ..*old(self)
            }),
    {
        self.log_scroll_offset = if self.log_scroll_offset > amount {
            self.log_scroll_offset - amount
        } else {
            0
        };
    }

    /// Reset scroll to bottom (most recent).
    pub fn scroll_log_to_bottom(&mut self)
        ensures
            *final(self) == (App { log_scroll_offset: 0, ..*old(self) }),
    {
        self.log_scroll_offset = 0;
    }

    /// Check if we should run an iteration (running, not paused by user, idle).
    pub fn should_run_iteration(&self, now: u64) -> (r: bool)
        ensures
            r == wants_iteration(self@, now),
    {
        let running = match self.run_state() {
            Some(state) => state == RunState::Running,
            None => false,
        };
        !self.user_paused && running && self.is_idle_for(IDLE_BEFORE_ITERATION, now)
    }

    /// Clamp selected task index to valid range.
    pub fn clamp_task_selection(&mut self)
        ensures
            *final(self) == (App {
                selected_task_index: clamped(
                    old(self).selected_task_index,
                    old(self).tasks.tasks@.len(),
                ),
                ..*old(self)
            }),
    {
        let n = self.tasks.tasks.len();
        if n == 0 {
            self.selected_task_index = 0;
        } else if self.selected_task_index > n - 1 {
            self.selected_task_index = n - 1;
        }
    }

    /// Move task selection up.
    pub fn select_prev_task(&mut self)
        ensures
            *final(self) == (App {
                selected_task_index: if old(self).selected_task_index > 0 {
                    (old(self).selected_task_index - 1) as usize
                } else {
                    0
                },
                ..*old(self)
            }),
    {
        if self.selected_task_index > 0 {
            self.selected_task_index = self.selected_task_index - 1;
        }
    }

    /// Move task selection down.
    pub fn select_next_task(&mut self)
        ensures
            *final(self) == (App {
                selected_task_index: if old(self).selected_task_index + 1
                    < old(self).tasks.tasks@.len() {
                    (old(self).selected_task_index + 1) as usize
                } else {
                    old(self).selected_task_index
                },
                ..*old(self)
            }),
    {
        let n = self.tasks.tasks.len();
        if n > 0 && self.selected_task_index < n - 1 {
            self.selected_task_index = self.selected_task_index + 1;
        }
    }

    /// Start editing a new task.
    pub fn start_new_task(&mut self)
        ensures
            final(self)@ == editing_new(old(self)@),
            forall|i: int|
                0 <= i < old(self)@.tasks.tasks.len() ==> (#[trigger] old(self)@.tasks.tasks[i]).id
                    != final(self)@.edit_buffer.id,
    {
        let id = self.tasks.free_id();
        self.edit_buffer = TaskEditBuffer {
            id,
            title: String::new(),
            acceptance: String::new(),
            notes: String::new(),
            focused_field: 0,
        };
        self.edit_mode = EditMode::NewTask;
        assert(self@ =~= editing_new(old(self)@));
    }

    /// Start editing the selected task.
    pub fn start_edit_task(&mut self)
        ensures
            final(self)@ == editing_selected(old(self)@),
    {
        let i = self.selected_task_index;
        if i < self.tasks.tasks.len() {
            assert(self@.tasks.tasks[i as int] == self.tasks.tasks@[i as int]@);
            let task = &self.tasks.tasks[i];
            let notes = match &task.notes {
                Some(n) => n.clone(),
                None => String::new(),
            };
            let id = task.id.clone();
            let buffer = TaskEditBuffer {
                id: task.id.clone(),
                title: task.title.clone(),
                acceptance: join_lines(&task.acceptance),
                notes,
                focused_field: 0,
            };
            self.edit_buffer = buffer;
            self.edit_mode = EditMode::EditingTask(id);
            assert(self@ =~= editing_selected(old(self)@));
        }
    }

    /// Apply the task edit. Tells whether the tasks are to be saved; once they
    /// are, `finish_task_edit` ends the edit.
    pub fn confirm_task_edit(&mut self) -> (r: bool)
        ensures
            final(self)@ == edit_applied(old(self)@),
            r == (old(self).edit_mode is NewTask || old(self).edit_mode is EditingTask),
    {
        let acceptance = content_lines(self.edit_buffer.acceptance.as_str());
        let notes = content_of(self.edit_buffer.notes.as_str());
        let title = trimmed_text(self.edit_buffer.title.as_str());
        match &self.edit_mode {
            EditMode::NewTask => {
                broadcast use lemma_views_push;

                let id = self.edit_buffer.id.clone();
                let task = Task {
                    id,
                    title,
                    status: TaskStatus::Todo,
                    acceptance,
                    validators: Vec::new(),
                    notes,
                };
                assert(task@ =~= new_task(old(self)@.edit_buffer));
                self.tasks.tasks.push(task);
                assert(self@ =~= edit_applied(old(self)@));
                true
            },
            EditMode::EditingTask(id) => {
                let id = id.clone();
                proof {
                    lemma_id_index(self@.tasks.tasks, id@, 0);
                }
                let ghost found = id_index(self@.tasks.tasks, id@, 0);
                let ghost before = self@;
                match self.tasks.get_mut(id.as_str()) {
                    Some(task) => {
                        task.title = title;
                        task.acceptance = acceptance;
                        task.notes = notes;
                        assert(self@.tasks.tasks =~= before.tasks.tasks.update(
                            found->0,
                            edited_task(before.tasks.tasks[found->0], before.edit_buffer),
                        ));
                    },
                    None => {},
                }
                true
            },
            _ => false,
        }
    }

    /// Ends a task edit whose result was saved, or that changed nothing. A new
    /// task becomes the selected one.
    pub fn finish_task_edit(&mut self)
        ensures
            final(self)@ == edit_finished(old(self)@),
    {
        let n = self.tasks.tasks.len();
        let is_new = matches!(self.edit_mode, EditMode::NewTask);
        if is_new && n > 0 {
            self.selected_task_index = n - 1;
        }
        self.edit_mode = EditMode::Inactive;
    }

    /// Cancel current edit.
    pub fn cancel_edit(&mut self)
        ensures
            final(self)@ == edit_cancelled(old(self)@),
    {
        self.edit_mode = EditMode::Inactive;
        self.edit_buffer = TaskEditBuffer::default();
    }

    /// Request task deletion (shows confirmation).
    pub fn request_delete_task(&mut self)
        ensures
            final(self)@ == delete_requested(old(self)@),
    {
        let i = self.selected_task_index;
        if i < self.tasks.tasks.len() {
            assert(self@.tasks.tasks[i as int] == self.tasks.tasks@[i as int]@);
            let id = self.tasks.tasks[i].id.clone();
            self.edit_mode = EditMode::ConfirmDelete(id);
        }
    }

    /// Delete the task whose deletion was requested. Tells whether the tasks are
    /// to be saved; once they are, `finish_delete` ends the deletion.
    pub fn confirm_delete_task(&mut self) -> (r: bool)
        ensures
            final(self)@ == delete_applied(old(self)@),
            r == (old(self).edit_mode is ConfirmDelete),
    {
        let id = match &self.edit_mode {
            EditMode::ConfirmDelete(id) => id.clone(),
            _ => {
                return false;
            },
        };
        let mut kept: Vec<Task> = Vec::new();
        let n = self.tasks.tasks.len();
        let ghost ts = self@.tasks.tasks;
        assert(ts.take(0) =~= Seq::<TaskView>::empty());
        for i in 0..n
            invariant
                n == self.tasks.tasks@.len(),
                ts == views(self.tasks.tasks@),
                views(kept@) == without_id(ts.take(i as int), id@),
        {
            broadcast use lemma_views_push;

            assert(ts.take(i + 1).drop_last() =~= ts.take(i as int));
            assert(ts[i as int] == self.tasks.tasks@[i as int]@);
            if !same_text(self.tasks.tasks[i].id.as_str(), id.as_str()) {
                kept.push(self.tasks.tasks[i].clone());
            }
        }
        assert(ts.take(n as int) =~= ts);
        self.tasks.tasks = kept;
        assert(self@ =~= delete_applied(old(self)@));
        true
    }

    /// Ends a deletion: the selection stays among the tasks.
    pub fn finish_delete(&mut self)
        ensures
            final(self)@ == delete_finished(old(self)@),
    {
        if matches!(self.edit_mode, EditMode::ConfirmDelete(_)) {
            self.clamp_task_selection();
        }
        self.edit_mode = EditMode::Inactive;
    }
}

/// A part of the state as it was read again.
#[derive(Debug)]
pub enum Refreshed {
    Run(Result<Option<Run>, String>),
    Tasks(Result<TaskList, String>),
    Events(EventChunk),
    Logs(LogRead),
}

/// Whether the file positions after taking in what was read can be noted.
pub open spec fn refresh_fits(a: AppView, part: Refreshed) -> bool {
    match part {
        Refreshed::Events(chunk) => a.event_file_pos + chunk.bytes <= u64::MAX,
        Refreshed::Logs(read) => log_fits(a, read),
        _ => true,
    }
}

/// The application with an error to show, where there is one.
pub open spec fn with_error(a: AppView, prefix: Seq<char>, error: Option<Seq<char>>) -> AppView {
    match error {
        Some(e) => AppView { last_error: Some(prefix + e), ..a },
        None => a,
    }
}

/// The application after taking in what was read.
pub open spec fn refreshed(a: AppView, part: Refreshed) -> AppView {
    match part {
        Refreshed::Run(Ok(run)) => AppView { run: opt_view(run), ..a },
        Refreshed::Run(Err(e)) => with_error(a, "Failed to reload run: "@, Some(e@)),
        Refreshed::Tasks(Ok(tasks)) => AppView { tasks: tasks@, ..a },
        Refreshed::Tasks(Err(e)) => with_error(a, "Failed to reload tasks: "@, Some(e@)),
        Refreshed::Events(chunk) => with_error(
            with_events(a, chunk),
            "Failed to read events: "@,
            opt_view(chunk.error),
        ),
        Refreshed::Logs(read) => with_error(
            with_log(a, read),
            "Failed to reload logs: "@,
            log_error(read),
        ),
    }
}

impl App {
    /// Shows a failure.
    pub fn show_error(&mut self, prefix: &str, error: &str)
        ensures
            final(self)@ == with_error(old(self)@, prefix@, Some(error@)),
    {
        self.last_error = Some(owned(prefix).concat(error));
    }

    /// Refresh a part of the state from disk. A full refresh takes in the run,
    /// the tasks, the events and the logs, in this order.
    pub fn refresh(&mut self, part: Refreshed)
        requires
            refresh_fits(old(self)@, part),
        ensures
            final(self)@ == refreshed(old(self)@, part),
    {
        match part {
            Refreshed::Run(loaded) => {
                match self.reload_run(loaded) {
                    Ok(_) => {},
                    Err(e) => self.show_error("Failed to reload run: ", e.as_str()),
                }
            },
            Refreshed::Tasks(loaded) => {
                match self.reload_tasks(loaded) {
                    Ok(_) => {},
                    Err(e) => self.show_error("Failed to reload tasks: ", e.as_str()),
                }
            },
            Refreshed::Events(chunk) => {
                match self.read_new_events(chunk) {
                    Ok(_) => {},
                    Err(e) => self.show_error("Failed to read events: ", e.as_str()),
                }
            },
            Refreshed::Logs(read) => {
                match self.reload_logs(read) {
                    Ok(_) => {},
                    Err(e) => self.show_error("Failed to reload logs: ", e.as_str()),
                }
            },
        }
    }
}

// ------------------------------------------------------- what the methods come to

/// The application after a change of the log source.
pub open spec fn toggled(a: AppView) -> AppView {
    AppView {
        log_source: match a.log_source {
            LogSource::Agent => LogSource::Validator,
            LogSource::Validator => LogSource::Agent,
        },
        log_lines: Seq::empty(),
        log_file_pos: 0,
        log_scroll_offset: 0,
        ..a
    }
}

/// The path of a file of the current iteration, where there is one.
pub open spec fn iteration_file_path(a: AppView, name: Seq<char>) -> Option<Seq<char>> {
    match a.run {
        Some(run) => if run.iteration == 0 {
            None
        } else {
            Some(
                join_path(
                    join_path(
                        join_path(a.repo_path, ".ralpher/iterations"@),
                        decimal(run.iteration as nat),
                    ),
                    name,
                ),
            )
        },
        None => None,
    }
}

/// The scroll offset after scrolling up among so many lines: the first line
/// stays in sight.
pub open spec fn scrolled_up(offset: usize, amount: usize, count: nat) -> usize {
    let limit = if count > 0 {
        (count - 1) as int
    } else {
        0
    };
    if offset + amount < limit {
        (offset + amount) as usize
    } else {
        limit as usize
    }
}

/// An index moved to the nearest one of a list of the given length.
pub open spec fn clamped(index: usize, count: nat) -> usize {
    if count == 0 {
        0
    } else if index > count - 1 {
        (count - 1) as usize
    } else {
        index
    }
}

/// The application at the beginning of a new task.
pub open spec fn editing_new(a: AppView) -> AppView {
    AppView {
        edit_buffer: BufferView { id: new_id(a.tasks.tasks), ..empty_buffer() },
        edit_mode: EditModeView::NewTask,
        ..a
    }
}

/// The contents of an editor for the given task.
pub open spec fn buffer_of(task: TaskView) -> BufferView {
    BufferView {
        id: task.id,
        title: task.title,
        acceptance: join(task.acceptance, "\n"@),
        notes: match task.notes {
            Some(n) => n,
            None => Seq::empty(),
        },
        focused_field: 0,
    }
}

/// The application at the beginning of an edit of the selected task.
pub open spec fn editing_selected(a: AppView) -> AppView {
    if a.selected_task_index < a.tasks.tasks.len() {
        let task = a.tasks.tasks[a.selected_task_index as int];
        AppView {
            edit_buffer: buffer_of(task),
            edit_mode: EditModeView::EditingTask(task.id),
            ..a
        }
    } else {
        a
    }
}

/// The trimmed lines that are not empty.
pub open spec fn filled_lines(ls: Seq<Seq<char>>) -> Seq<Seq<char>>
    decreases ls.len(),
{
    if ls.len() == 0 {
        Seq::empty()
    } else {
        let front = filled_lines(ls.drop_last());
        if trim(ls.last()).len() > 0 {
            front.push(trim(ls.last()))
        } else {
            front
        }
    }
}

/// The trimmed text, where it is not empty.
pub open spec fn filled(s: Seq<char>) -> Option<Seq<char>> {
    if trim(s).len() > 0 {
        Some(trim(s))
    } else {
        None
    }
}

/// The new task that an editor holds.
pub open spec fn new_task(buffer: BufferView) -> TaskView {
    TaskView {
        id: buffer.id,
        title: trim(buffer.title),
        status: TaskStatus::Todo,
        acceptance: filled_lines(lines(buffer.acceptance)),
        validators: Seq::empty(),
        notes: filled(buffer.notes),
    }
}

/// A task after an edit.
pub open spec fn edited_task(task: TaskView, buffer: BufferView) -> TaskView {
    TaskView {
        title: trim(buffer.title),
        acceptance: filled_lines(lines(buffer.acceptance)),
        notes: filled(buffer.notes),
        ..task
    }
}

/// The application with an edit applied to its tasks.
pub open spec fn edit_applied(a: AppView) -> AppView {
    match a.edit_mode {
        EditModeView::NewTask => AppView {
            tasks: TaskListView {
                tasks: a.tasks.tasks.push(new_task(a.edit_buffer)),
                ..a.tasks
            },
            ..a
        },
        EditModeView::EditingTask(id) => match id_index(a.tasks.tasks, id, 0) {
            Some(i) => AppView {
                tasks: TaskListView {
                    tasks: a.tasks.tasks.update(i, edited_task(a.tasks.tasks[i], a.edit_buffer)),
                    ..a.tasks
                },
                ..a
            },
            None => a,
        },
        _ => a,
    }
}

/// The application at the end of an edit.
pub open spec fn edit_finished(a: AppView) -> AppView {
    AppView {
        selected_task_index: if a.edit_mode is NewTask && a.tasks.tasks.len() > 0 {
            (a.tasks.tasks.len() - 1) as usize
        } else {
            a.selected_task_index
        },
        edit_mode: EditModeView::Inactive,
        ..a
    }
}

/// The application after an edit was cancelled.
pub open spec fn edit_cancelled(a: AppView) -> AppView {
    AppView { edit_mode: EditModeView::Inactive, edit_buffer: empty_buffer(), ..a }
}

/// The application after the deletion of the selected task was requested.
pub open spec fn delete_requested(a: AppView) -> AppView {
    if a.selected_task_index < a.tasks.tasks.len() {
        AppView {
            edit_mode: EditModeView::ConfirmDelete(
                a.tasks.tasks[a.selected_task_index as int].id,
            ),
            ..a
        }
    } else {
        a
    }
}

/// The tasks with other identifiers.
pub open spec fn without_id(ts: Seq<TaskView>, id: Seq<char>) -> Seq<TaskView>
    decreases ts.len(),
{
    if ts.len() == 0 {
        Seq::empty()
    } else {
        let front = without_id(ts.drop_last(), id);
        if ts.last().id != id {
            front.push(ts.last())
        } else {
            front
        }
    }
}

/// The application with the requested deletion applied to its tasks.
pub open spec fn delete_applied(a: AppView) -> AppView {
    match a.edit_mode {
        EditModeView::ConfirmDelete(id) => AppView {
            tasks: TaskListView { tasks: without_id(a.tasks.tasks, id), ..a.tasks },
            ..a
        },
        _ => a,
    }
}

/// The application at the end of a deletion.
pub open spec fn delete_finished(a: AppView) -> AppView {
    AppView {
        selected_task_index: if a.edit_mode is ConfirmDelete {
            clamped(a.selected_task_index, a.tasks.tasks.len())
        } else {
            a.selected_task_index
        },
        edit_mode: EditModeView::Inactive,
        ..a
    }
}

// --------------------------------------------------------------------- helpers

fn exit_code_text(code: Option<i32>) -> (r: String)
    ensures
        r@ == exit_text(code),
{
    match code {
        Some(c) => owned("Some(").concat(signed_text(c as i64).as_str()).concat(")"),
        None => owned("None"),
    }
}

/// Appends the log lines of the validator at the given index.
fn push_entry(out: &mut Vec<String>, i: usize, v: &ReportEntry)
    ensures
        views(final(out)@) == views(old(out)@) + entry_lines((i + 1) as nat, *v),
{
    broadcast use lemma_views_push;

    let ghost before = views(out@);
    let title = owned("[").concat(successor_text(i).as_str()).concat("] ").concat(
        v.command.as_str(),
    ).concat(" - ").concat(v.status.as_str().to_uppercase().as_str()).concat(" (exit: ").concat(
        exit_code_text(v.exit_code).as_str(),
    ).concat(")");
    let ghost head = seq![title@];
    out.push(title);
    assert(views(out@) =~= before + head);
    let ghost mut body: Seq<Seq<char>> = Seq::empty();
    match &v.output {
        Some(output) => {
            let ls = lines_of(&chars_of(output.as_str()));
            let n = ls.len();
            let ghost expected = indented(lines(output@));
            for k in 0..n
                invariant
                    n == ls@.len(),
                    views(ls@) == lines(output@),
                    expected == indented(lines(output@)),
                    views(out@) == before + head + expected.take(k as int),
            {
                broadcast use lemma_views_push;

                assert(views(ls@)[k as int] == ls@[k as int]@);
                out.push(owned("    ").concat(string_of(&ls[k]).as_str()));
                assert(expected.take(k + 1) =~= expected.take(k as int).push(expected[k as int]));
                assert(views(out@) =~= before + head + expected.take(k + 1));
            }
            assert(expected.take(n as int) =~= expected);
            proof {
                body = expected;
            }
        },
        None => {},
    }
    assert(views(out@) =~= before + head + body);
    out.push(String::new());
    assert(views(out@) =~= before + entry_lines((i + 1) as nat, *v));
}

/// The strings one after the other, one to a line.
fn join_lines(parts: &Vec<String>) -> (r: String)
    ensures
        r@ == join(views(parts@), "\n"@),
{
    let n = parts.len();
    let mut out = String::new();
    let ghost pv = views(parts@);
    assert(pv.take(0) =~= Seq::<Seq<char>>::empty());
    assert(out@ =~= Seq::<char>::empty());
    for i in 0..n
        invariant
            n == parts@.len(),
            pv == views(parts@),
            out@ == join(pv.take(i as int), "\n"@),
    {
        assert(pv.take(i + 1).drop_last() =~= pv.take(i as int));
        assert(pv[i as int] == parts@[i as int]@);
        if i > 0 {
            out.append("\n");
        }
        out.append(parts[i].as_str());
        if i == 0 {
            assert(out@ =~= parts@[0]@);
        }
    }
    assert(pv.take(n as int) =~= pv);
    out
}

/// The trimmed lines of a text that are not empty.
fn content_lines(text: &str) -> (r: Vec<String>)
    ensures
        views(r@) == filled_lines(lines(text@)),
{
    let ls = lines_of(&chars_of(text));
    let n = ls.len();
    let mut out: Vec<String> = Vec::new();
    let ghost lv = lines(text@);
    for i in 0..n
        invariant
            n == ls@.len(),
            lv == views(ls@),
            views(out@) == filled_lines(lv.take(i as int)),
    {
        broadcast use lemma_views_push;

        assert(lv.take(i + 1).drop_last() =~= lv.take(i as int));
        assert(lv[i as int] == ls@[i as int]@);
        let line = trimmed(&ls[i]);
        if line.len() > 0 {
            out.push(string_of(&line));
        }
    }
    assert(lv.take(n as int) =~= lv);
    out
}

/// The trimmed text, where it is not empty.
fn content_of(text: &str) -> (r: Option<String>)
    ensures
        opt_view(r) == filled(text@),
{
    let t = trimmed(&chars_of(text));
    if t.len() > 0 {
        Some(string_of(&t))
    } else {
        None
    }
}

// ------------------------------------------------------------- detecting files

/// Where the mission is looked for, in order.
pub open spec fn mission_names() -> Seq<Seq<char>> {
    seq!["mission.md"@, "product/mission.md"@, "docs/mission.md"@]
}

/// Where the PRD is looked for, in order.
pub open spec fn prd_names() -> Seq<Seq<char>> {
    seq!["prd.md"@, "product/prd.md"@, "docs/prd.md"@, "PRD.md"@]
}

/// Where the technical notes are looked for, in order.
pub open spec fn tech_names() -> Seq<Seq<char>> {
    seq!["tech.md"@, "product/tech.md"@, "docs/tech.md"@, "TECH.md"@]
}

/// The paths at which product files are looked for.
pub fn candidate_paths(dir: &str) -> (r: Vec<String>)
    ensures
        views(r@) == (mission_names() + prd_names() + tech_names() + seq![
            TASK_FILE_NAME@,
            ".git"@,
        ]).map_values(|name: Seq<char>| join_path(dir@, name)),
{
    let r = vec![
        joined(dir, "mission.md"),
        joined(dir, "product/mission.md"),
        joined(dir, "docs/mission.md"),
        joined(dir, "prd.md"),
        joined(dir, "product/prd.md"),
        joined(dir, "docs/prd.md"),
        joined(dir, "PRD.md"),
        joined(dir, "tech.md"),
        joined(dir, "product/tech.md"),
        joined(dir, "docs/tech.md"),
        joined(dir, "TECH.md"),
        joined(dir, TASK_FILE_NAME),
        joined(dir, ".git"),
    ];
    assert(views(r@) =~= (mission_names() + prd_names() + tech_names() + seq![
        TASK_FILE_NAME@,
        ".git"@,
    ]).map_values(|name: Seq<char>| join_path(dir@, name)));
    r
}

/// The first of the names, from `from` on, whose path in the directory exists.
pub open spec fn first_existing(
    dir: Seq<char>,
    names: Seq<Seq<char>>,
    existing: Seq<Seq<char>>,
    from: int,
) -> Option<Seq<char>>
    decreases names.len() - from,
{
    if from < 0 || from >= names.len() {
        None
    } else if existing.contains(join_path(dir, names[from])) {
        Some(join_path(dir, names[from]))
    } else {
        first_existing(dir, names, existing, from + 1)
    }
}

/// What is detected in a directory, given the paths that exist.
pub open spec fn detected_in(dir: Seq<char>, existing: Seq<Seq<char>>) -> DetectedView {
    DetectedView {
        mission: first_existing(dir, mission_names(), existing, 0),
        prd: first_existing(dir, prd_names(), existing, 0),
        tech: first_existing(dir, tech_names(), existing, 0),
        task_file: first_existing(dir, seq![TASK_FILE_NAME@], existing, 0),
        is_git_repo: existing.contains(join_path(dir, ".git"@)),
    }
}

fn is_among(path: &str, existing: &Vec<String>) -> (r: bool)
    ensures
        r == views(existing@).contains(path@),
{
    let n = existing.len();
    for i in 0..n
        invariant
            n == existing@.len(),
            forall|k: int| 0 <= k < i ==> #[trigger] views(existing@)[k] != path@,
    {
        assert(views(existing@)[i as int] == existing@[i as int]@);
        if same_text(existing[i].as_str(), path) {
            assert(views(existing@).contains(path@));
            return true;
        }
    }
    false
}

fn find_existing(dir: &str, names: &Vec<String>, existing: &Vec<String>) -> (r: Option<String>)
    ensures
        opt_view(r) == first_existing(dir@, views(names@), views(existing@), 0),
{
    let n = names.len();
    let mut i: usize = 0;
    while i < n
        invariant
            n == names@.len(),
            i <= n,
            first_existing(dir@, views(names@), views(existing@), 0) == first_existing(
                dir@,
                views(names@),
                views(existing@),
                i as int,
            ),
        decreases n - i,
    {
        assert(views(names@)[i as int] == names@[i as int]@);
        let path = joined(dir, names[i].as_str());
        if is_among(path.as_str(), existing) {
            return Some(path);
        }
        i += 1;
    }
    None
}

/// Detect product files in the given directory, given which of the candidate
/// paths exist.
pub fn detect_files(dir: &str, existing: &Vec<String>) -> (r: DetectedFiles)
    ensures
        r@ == detected_in(dir@, views(existing@)),
{
    let missions = vec![
        owned("mission.md"),
        owned("product/mission.md"),
        owned("docs/mission.md"),
    ];
    let prds = vec![owned("prd.md"), owned("product/prd.md"), owned("docs/prd.md"), owned("PRD.md")];
    let techs = vec![
        owned("tech.md"),
        owned("product/tech.md"),
        owned("docs/tech.md"),
        owned("TECH.md"),
    ];
    let task_files = vec![owned(TASK_FILE_NAME)];
    assert(views(missions@) =~= mission_names());
    assert(views(prds@) =~= prd_names());
    assert(views(techs@) =~= tech_names());
    assert(views(task_files@) =~= seq![TASK_FILE_NAME@]);
    DetectedFiles {
        mission: find_existing(dir, &missions, existing),
        prd: find_existing(dir, &prds, existing),
        tech: find_existing(dir, &techs, existing),
        task_file: find_existing(dir, &task_files, existing),
        is_git_repo: is_among(joined(dir, ".git").as_str(), existing),
    }
}

} // verus!
