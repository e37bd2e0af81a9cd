//! What the keys of the terminal interface do, and when it runs iterations.

use vstd::prelude::*;

use crate::config::{
    config_text, setup_config, shell_split, ArchonView, Config, ConfigView, FileText, GitMode,
    CONFIG_FILE_NAME,
};
use crate::number::{decimal, signed_decimal, signed_text, successor_text};
use crate::path::{join_path, joined};
use crate::prd_parser::{parse_prd_tasks, stories_of, tasks_of};
use crate::run::{
    aborted, paused, resumed, run_message, skipped, terminal, Effect, EffectView, EngineView,
    IterationResult, MigrationDirection, RunEngine, RunState,
};
use crate::task::{
    find_free_id, new_id, Task, TaskList, TaskListView, TaskStatus, TaskView, TASK_FILE_NAME,
};
use crate::text::{has_content, lemma_views_push, opt_view, owned, trim, trimmed_text, views};
use crate::tui::{
    delete_applied, delete_requested, edit_applied, edit_cancelled, edit_finished, editing_new,
    editing_selected, scrolled_up, toggled, wants_iteration, with_error, App, AppView, BufferView,
    EditMode, EditModeView, SetupStep, SetupView, TuiMode,
};
use crate::workspace::FileChange;

verus! {

/// A key.
#[derive(Clone, Copy, Debug, PartialEq, Eq, Structural)]
pub enum KeyCode {
    Char(char),
    Enter,
    Esc,
    Backspace,
    Tab,
    BackTab,
    Up,
    Down,
    PageUp,
    PageDown,
    Home,
    End,
    /// Any other key.
    Other,
}

/// A key press.
#[derive(Clone, Copy, Debug, PartialEq, Eq, Structural)]
pub struct Key {
    pub code: KeyCode,
    /// Whether the control key is held.
    pub control: bool,
}

// ------------------------------------------------------------- the setup wizard

/// What a key in the setup wizard asks for.
#[derive(Debug)]
pub enum SetupAction {
    Nothing,
    /// Import the tasks from the PRD file at this path.
    ImportPrd(String),
    /// Write the configuration and the tasks, then finish the setup.
    Save { config: FileText, tasks: TaskList, tasks_path: String },
}

/// What such a request says.
#[verifier::ext_equal]
pub enum SetupActionView {
    Nothing,
    ImportPrd(Seq<char>),
    Save {
        config_path: Seq<char>,
        config_text: Seq<char>,
        tasks: TaskListView,
        tasks_path: Seq<char>,
    },
}

impl View for SetupAction {
    type V = SetupActionView;

    open spec fn view(&self) -> SetupActionView {
        match *self {
            SetupAction::Nothing => SetupActionView::Nothing,
            SetupAction::ImportPrd(p) => SetupActionView::ImportPrd(p@),
            SetupAction::Save { config, tasks, tasks_path } => SetupActionView::Save {
                config_path: config.path@,
                config_text: config.content@,
                tasks: tasks@,
                tasks_path: tasks_path@,
            },
        }
    }
}

/// The application with the wizard in another state.
pub open spec fn with_setup(a: AppView, setup: SetupView) -> AppView {
    AppView { setup, ..a }
}

/// The configuration that the wizard's answers make.
pub open spec fn wizard_config(s: SetupView) -> ConfigView {
    ConfigView {
        archon: s.archon,
        ..setup_config(s.agent_cmd, shell_split(s.agent_cmd), s.git_mode)
    }
}

/// The files that the wizard leaves.
pub open spec fn wizard_files(a: AppView) -> SetupActionView {
    SetupActionView::Save {
        config_path: join_path(a.repo_path, CONFIG_FILE_NAME@),
        config_text: config_text(wizard_config(a.setup)),
        tasks: TaskListView { tasks: a.setup.tasks, path: None },
        tasks_path: join_path(a.repo_path, TASK_FILE_NAME@),
    }
}

/// The Archon settings with the project that was typed in, if the integration
/// is on and one was.
pub open spec fn with_project(s: SetupView) -> ArchonView {
    if s.archon.enabled && trim(s.archon_project_id_input).len() > 0 {
        ArchonView { project_id: Some(trim(s.archon_project_id_input)), ..s.archon }
    } else {
        s.archon
    }
}

/// Enter: on to the next step.
pub open spec fn setup_enter(s: SetupView) -> SetupView {
    match s.step {
        SetupStep::Welcome => SetupView { step: SetupStep::AgentConfig, ..s },
        SetupStep::AgentConfig => if trim(s.agent_cmd).len() > 0 {
            SetupView { step: SetupStep::GitMode, ..s }
        } else {
            s
        },
        SetupStep::GitMode => SetupView { step: SetupStep::Archon, ..s },
        SetupStep::Archon => SetupView { step: SetupStep::Tasks, archon: with_project(s), ..s },
        SetupStep::Tasks => SetupView { step: SetupStep::Review, ..s },
        SetupStep::Review => s,
    }
}

/// Backspace: takes back a character of the focused text, or goes back a step.
pub open spec fn setup_backspace(s: SetupView) -> SetupView {
    match s.step {
        SetupStep::Welcome => s,
        SetupStep::AgentConfig => if s.agent_cmd.len() > 0 {
            SetupView { agent_cmd: s.agent_cmd.drop_last(), ..s }
        } else {
            SetupView { step: SetupStep::Welcome, ..s }
        },
        SetupStep::GitMode => SetupView { step: SetupStep::AgentConfig, ..s },
        SetupStep::Archon => if s.focused_field == 1 && s.archon_project_id_input.len() > 0 {
            SetupView { archon_project_id_input: s.archon_project_id_input.drop_last(), ..s }
        } else {
            SetupView { step: SetupStep::GitMode, focused_field: 0, ..s }
        },
        SetupStep::Tasks => SetupView { step: SetupStep::Archon, ..s },
        SetupStep::Review => SetupView { step: SetupStep::Tasks, ..s },
    }
}

/// The next of three fields.
pub open spec fn next_field(field: usize) -> usize {
    ((field + 1) % 3) as usize
}

/// The other git mode.
pub open spec fn other_mode(mode: GitMode) -> GitMode {
    match mode {
        GitMode::Branch => GitMode::Trunk,
        GitMode::Trunk => GitMode::Branch,
    }
}

/// Tab: changes the git mode, or the focus.
pub open spec fn setup_tab(s: SetupView) -> SetupView {
    match s.step {
        SetupStep::GitMode => SetupView { git_mode: other_mode(s.git_mode), ..s },
        SetupStep::Archon => SetupView { focused_field: next_field(s.focused_field), ..s },
        _ => s,
    }
}

/// The task that the wizard adds to the given ones.
pub open spec fn added_task(tasks: Seq<TaskView>) -> TaskView {
    TaskView {
        id: new_id(tasks),
        title: "Task "@ + decimal(tasks.len() + 1),
        status: TaskStatus::Todo,
        acceptance: Seq::empty(),
        validators: Seq::empty(),
        notes: None,
    }
}

/// A character: switches what is focused, edits the tasks, or is typed in.
pub open spec fn setup_char(s: SetupView, c: char) -> SetupView {
    match s.step {
        SetupStep::AgentConfig => SetupView { agent_cmd: s.agent_cmd.push(c), ..s },
        SetupStep::Archon => if c == ' ' {
            if s.focused_field == 0 {
                SetupView { archon: ArchonView { enabled: !s.archon.enabled, ..s.archon }, ..s }
            } else if s.focused_field == 2 {
                SetupView { archon: ArchonView { use_rag: !s.archon.use_rag, ..s.archon }, ..s }
            } else {
                s
            }
        } else if s.focused_field == 1 {
            SetupView { archon_project_id_input: s.archon_project_id_input.push(c), ..s }
        } else {
            s
        },
        SetupStep::Tasks => if c == 'n' {
            SetupView { tasks: s.tasks.push(added_task(s.tasks)), ..s }
        } else if c == 'c' {
            SetupView { tasks: Seq::empty(), ..s }
        } else {
            s
        },
        _ => s,
    }
}

/// What a key in the setup wizard does.
pub open spec fn setup_key(a: AppView, key: Key) -> (AppView, SetupActionView) {
    let s = a.setup;
    match key.code {
        KeyCode::Esc => (AppView { should_quit: true, ..a }, SetupActionView::Nothing),
        KeyCode::Enter => (
            with_setup(a, setup_enter(s)),
            if s.step == SetupStep::Review {
                wizard_files(a)
            } else {
                SetupActionView::Nothing
            },
        ),
        KeyCode::Backspace => (with_setup(a, setup_backspace(s)), SetupActionView::Nothing),
        KeyCode::Tab => (with_setup(a, setup_tab(s)), SetupActionView::Nothing),
        KeyCode::Char(c) => if c == 'q' {
            (AppView { should_quit: true, ..a }, SetupActionView::Nothing)
        } else {
            (
                with_setup(a, setup_char(s, c)),
                match s.detected.prd {
                    Some(path) if c == 'i' && s.step == SetupStep::Tasks =>
                    SetupActionView::ImportPrd(path),
                    _ => SetupActionView::Nothing,
                },
            )
        },
        _ => (a, SetupActionView::Nothing),
    }
}

fn setup_on_enter(app: &mut App) -> (r: SetupAction)
    ensures
        final(app)@ == with_setup(old(app)@, setup_enter(old(app)@.setup)),
        r@ == (if old(app)@.setup.step == SetupStep::Review {
            wizard_files(old(app)@)
        } else {
            SetupActionView::Nothing
        }),
{
    match app.setup.step {
        SetupStep::Welcome => {
            app.setup.step = SetupStep::AgentConfig;
        },
        SetupStep::AgentConfig => {
            if has_content(app.setup.agent_cmd.as_str()) {
                app.setup.step = SetupStep::GitMode;
            }
        },
        SetupStep::GitMode => {
            app.setup.step = SetupStep::Archon;
        },
        SetupStep::Archon => {
            if app.setup.archon.enabled && has_content(
                app.setup.archon_project_id_input.as_str(),
            ) {
                let id = trimmed_text(app.setup.archon_project_id_input.as_str());
                app.setup.archon.project_id = Some(id);
            }
            app.setup.step = SetupStep::Tasks;
        },
        SetupStep::Tasks => {
            app.setup.step = SetupStep::Review;
        },
        SetupStep::Review => {
            let mut config = Config::from_setup(app.setup.agent_cmd.as_str(), app.setup.git_mode);
            config.archon = app.setup.archon.clone();
            let file = config.save(app.repo_path.as_str());
            let tasks = TaskList::new(crate::task::clone_tasks(&app.setup.tasks));
            return SetupAction::Save {
                config: file,
                tasks,
                tasks_path: joined(app.repo_path.as_str(), TASK_FILE_NAME),
            };
        },
    }
    SetupAction::Nothing
}

fn setup_on_backspace(app: &mut App)
    ensures
        final(app)@ == with_setup(old(app)@, setup_backspace(old(app)@.setup)),
{
    match app.setup.step {
        SetupStep::Welcome => {},
        SetupStep::AgentConfig => {
            if app.setup.agent_cmd.as_str().unicode_len() > 0 {
                let _ = app.setup.agent_cmd.pop();
            } else {
                app.setup.step = SetupStep::Welcome;
            }
        },
        SetupStep::GitMode => {
            app.setup.step = SetupStep::AgentConfig;
        },
        SetupStep::Archon => {
            if app.setup.focused_field == 1
                && app.setup.archon_project_id_input.as_str().unicode_len() > 0 {
                let _ = app.setup.archon_project_id_input.pop();
            } else {
                app.setup.focused_field = 0;
                app.setup.step = SetupStep::GitMode;
            }
        },
        SetupStep::Tasks => {
            app.setup.step = SetupStep::Archon;
        },
        SetupStep::Review => {
            app.setup.step = SetupStep::Tasks;
        },
    }
}

fn following_field(field: usize) -> (r: usize)
    ensures
        r == next_field(field),
{
    (field % 3 + 1) % 3
}

fn setup_on_tab(app: &mut App)
    ensures
        final(app)@ == with_setup(old(app)@, setup_tab(old(app)@.setup)),
{
    match app.setup.step {
        SetupStep::GitMode => {
            app.setup.git_mode = match app.setup.git_mode {
                GitMode::Branch => GitMode::Trunk,
                GitMode::Trunk => GitMode::Branch,
            };
        },
        SetupStep::Archon => {
            app.setup.focused_field = following_field(app.setup.focused_field);
        },
        _ => {},
    }
}

fn numbered_task(tasks: &Vec<Task>) -> (r: Task)
    ensures
        r@ == added_task(views(tasks@)),
{
    let r = Task {
        id: find_free_id(tasks),
        title: owned("Task ").concat(successor_text(tasks.len()).as_str()),
        status: TaskStatus::Todo,
        acceptance: Vec::new(),
        validators: Vec::new(),
        notes: None,
    };
    assert(r@ =~= added_task(views(tasks@)));
    r
}

fn setup_on_char(app: &mut App, c: char)
    ensures
        final(app)@ == with_setup(old(app)@, setup_char(old(app)@.setup, c)),
{
    match app.setup.step {
        SetupStep::AgentConfig => {
            app.setup.agent_cmd.push(c);
        },
        SetupStep::Archon => {
            if c == ' ' {
                if app.setup.focused_field == 0 {
                    app.setup.archon.enabled = !app.setup.archon.enabled;
                } else if app.setup.focused_field == 2 {
                    app.setup.archon.use_rag = !app.setup.archon.use_rag;
                }
            } else if app.setup.focused_field == 1 {
                app.setup.archon_project_id_input.push(c);
            }
        },
        SetupStep::Tasks => {
            broadcast use lemma_views_push;

            if c == 'n' {
                let task = numbered_task(&app.setup.tasks);
                app.setup.tasks.push(task);
            } else if c == 'c' {
                app.setup.tasks = Vec::new();
                assert(views(app.setup.tasks@) =~= Seq::empty());
            }
        },
        _ => {},
    }
}

/// Handle input in setup mode.
pub fn handle_setup_input(app: &mut App, key: Key) -> (r: SetupAction)
    ensures
        (final(app)@, r@) == setup_key(old(app)@, key),
{
    match key.code {
        KeyCode::Esc => {
            app.should_quit = true;
            SetupAction::Nothing
        },
        KeyCode::Enter => setup_on_enter(app),
        KeyCode::Backspace => {
            setup_on_backspace(app);
            SetupAction::Nothing
        },
        KeyCode::Tab => {
            setup_on_tab(app);
            SetupAction::Nothing
        },
        KeyCode::Char(c) => {
            if c == 'q' {
                app.should_quit = true;
                return SetupAction::Nothing;
            }
            let in_tasks = app.setup.step == SetupStep::Tasks;
            setup_on_char(app, c);
            if c == 'i' && in_tasks {
                match &app.setup.detected.prd {
                    Some(path) => {
                        return SetupAction::ImportPrd(path.clone());
                    },
                    None => {},
                }
            }
            SetupAction::Nothing
        },
        _ => SetupAction::Nothing,
    }
}

/// Replaces the wizard's tasks by those in the text of a PRD file.
pub fn import_tasks(app: &mut App, content: &str)
    ensures
        final(app)@ == with_setup(
            old(app)@,
            SetupView { tasks: tasks_of(stories_of(content@)), ..old(app)@.setup },
        ),
{
    app.setup.tasks = parse_prd_tasks(content);
}

/// Leaves the wizard once its files are written.
pub fn finish_setup(app: &mut App)
    ensures
        final(app)@ == (AppView { mode: TuiMode::Normal, ..old(app)@ }),
{
    app.mode = TuiMode::Normal;
}

// -------------------------------------------------------------- the normal mode

/// What is left to do once effects were performed, or failed.
#[derive(Clone, Copy, Debug, PartialEq, Eq, Structural)]
pub enum Pending {
    Quit,
    Pause,
    Resume,
    Abort,
    Skip,
    /// Run an iteration again: once settled, the next turn is taken at once.
    Retry,
}

/// What a key in normal mode asks for.
#[derive(Debug)]
pub enum NormalAction {
    Nothing,
    /// Refresh all state.
    Refresh,
    /// Reload the log.
    ReloadLogs,
    /// Make an engine for a new run and start it.
    StartRun,
    /// Read the changes of the last commit and open their summary.
    OpenDiff,
    /// Perform the effects, then see to what is pending.
    Perform(Pending, Vec<Effect>),
}

/// What such a request says.
#[verifier::ext_equal]
pub enum NormalActionView {
    Nothing,
    Refresh,
    ReloadLogs,
    StartRun,
    OpenDiff,
    Perform(Pending, Seq<EffectView>),
}

impl View for NormalAction {
    type V = NormalActionView;

    open spec fn view(&self) -> NormalActionView {
        match *self {
            NormalAction::Nothing => NormalActionView::Nothing,
            NormalAction::Refresh => NormalActionView::Refresh,
            NormalAction::ReloadLogs => NormalActionView::ReloadLogs,
            NormalAction::StartRun => NormalActionView::StartRun,
            NormalAction::OpenDiff => NormalActionView::OpenDiff,
            NormalAction::Perform(p, effects) => NormalActionView::Perform(p, views(effects@)),
        }
    }
}

/// What a key in normal mode comes to: the application, the engine, and what is
/// asked for.
#[verifier::ext_equal]
pub struct NormalStep {
    pub app: AppView,
    pub engine: Option<EngineView>,
    pub action: NormalActionView,
}

pub open spec fn plain_step(app: AppView, engine: Option<EngineView>) -> NormalStep {
    NormalStep { app, engine, action: NormalActionView::Nothing }
}

/// The state of the run that the application shows.
pub open spec fn shown_state(a: AppView) -> Option<RunState> {
    match a.run {
        Some(run) => Some(run.state),
        None => None,
    }
}

/// Whether the run that is shown is running or paused.
pub open spec fn is_active(a: AppView) -> bool {
    shown_state(a) == Some(RunState::Running) || shown_state(a) == Some(RunState::Paused)
}

/// Quitting: a run that is running is paused.
pub open spec fn quit_step(a: AppView, engine: Option<EngineView>) -> NormalStep {
    let app = AppView { should_quit: true, ..a };
    match engine {
        Some(e) => match paused(e) {
            Ok((next, effects)) => NormalStep {
                app,
                engine: Some(next),
                action: NormalActionView::Perform(Pending::Quit, effects),
            },
            Err(_) => plain_step(app, engine),
        },
        None => plain_step(app, engine),
    }
}

/// An operation of the engine that a key asks for.
pub open spec fn operation_step(
    a: AppView,
    engine: EngineView,
    pending: Pending,
    prefix: Seq<char>,
    outcome: Result<(EngineView, Seq<EffectView>), crate::run::RunErrorView>,
) -> NormalStep {
    match outcome {
        Ok((next, effects)) => NormalStep {
            app: a,
            engine: Some(next),
            action: NormalActionView::Perform(pending, effects),
        },
        Err(e) => plain_step(with_error(a, prefix, Some(run_message(e))), Some(engine)),
    }
}

/// Space: pauses or resumes the run, or starts one.
pub open spec fn space_step(a: AppView, engine: Option<EngineView>) -> NormalStep {
    match shown_state(a) {
        Some(RunState::Running) => match engine {
            Some(e) => operation_step(a, e, Pending::Pause, "Pause failed: "@, paused(e)),
            None => plain_step(a, engine),
        },
        Some(RunState::Paused) => match engine {
            Some(e) => operation_step(a, e, Pending::Resume, "Resume failed: "@, resumed(e)),
            None => plain_step(a, engine),
        },
        _ => NormalStep { app: a, engine, action: NormalActionView::StartRun },
    }
}

/// `a`: aborts the run.
pub open spec fn abort_step(a: AppView, engine: Option<EngineView>, now: u64) -> NormalStep {
    match engine {
        Some(e) if is_active(a) => operation_step(
            a,
            e,
            Pending::Abort,
            "Abort failed: "@,
            aborted(e, "User requested abort via TUI"@, now),
        ),
        _ => plain_step(a, engine),
    }
}

/// `s`: skips the current task.
pub open spec fn skip_step(a: AppView, engine: Option<EngineView>) -> NormalStep {
    match engine {
        Some(e) if is_active(a) => match skipped(e, "User skipped via TUI"@) {
            Some((next, _, effects)) => NormalStep {
                app: a,
                engine: Some(next),
                action: NormalActionView::Perform(Pending::Skip, effects),
            },
            None => plain_step(a, engine),
        },
        _ => plain_step(a, engine),
    }
}

/// `r`: runs an iteration again. A paused run is resumed for it.
pub open spec fn retry_step(a: AppView, engine: Option<EngineView>) -> NormalStep {
    match engine {
        Some(e) if is_active(a) => if e.run.state == RunState::Running {
            NormalStep {
                app: a,
                engine,
                action: NormalActionView::Perform(Pending::Retry, Seq::empty()),
            }
        } else {
            operation_step(a, e, Pending::Retry, "Retry failed: "@, resumed(e))
        },
        _ => plain_step(a, engine),
    }
}

/// `m`: opens the migration menu where the integration is on.
pub open spec fn migration_menu(a: AppView) -> AppView {
    if a.config matches Some(config) && config.archon.enabled {
        AppView { edit_mode: EditModeView::MigrationMenu, ..a }
    } else {
        AppView { last_error: Some("Archon integration is not enabled"@), ..a }
    }
}

/// Scrolling by so many lines to older ones.
pub open spec fn scroll_up(a: AppView, amount: usize) -> AppView {
    AppView {
        log_scroll_offset: scrolled_up(a.log_scroll_offset, amount, a.log_lines.len()),
        ..a
    }
}

/// Scrolling by so many lines to newer ones.
pub open spec fn scroll_down(a: AppView, amount: usize) -> AppView {
    AppView {
        log_scroll_offset: if a.log_scroll_offset > amount {
            (a.log_scroll_offset - amount) as usize
        } else {
            0
        },
        ..a
    }
}

/// Scrolling to the oldest line.
pub open spec fn scroll_home(a: AppView) -> AppView {
    AppView {
        log_scroll_offset: if a.log_lines.len() > 0 {
            (a.log_lines.len() - 1) as usize
        } else {
            0
        },
        ..a
    }
}

/// The next task selected, where there is one.
pub open spec fn select_next(a: AppView) -> AppView {
    AppView {
        selected_task_index: if a.selected_task_index + 1 < a.tasks.tasks.len() {
            (a.selected_task_index + 1) as usize
        } else {
            a.selected_task_index
        },
        ..a
    }
}

/// The previous task selected, where there is one.
pub open spec fn select_prev(a: AppView) -> AppView {
    AppView {
        selected_task_index: if a.selected_task_index > 0 {
            (a.selected_task_index - 1) as usize
        } else {
            0
        },
        ..a
    }
}

/// What a character does in normal mode.
pub open spec fn char_step(
    a: AppView,
    engine: Option<EngineView>,
    c: char,
    control: bool,
    now: u64,
) -> NormalStep {
    match c {
        'q' => quit_step(a, engine),
        ' ' => space_step(a, engine),
        'a' => abort_step(a, engine, now),
        's' => skip_step(a, engine),
        'r' => retry_step(a, engine),
        'd' => NormalStep { app: a, engine, action: NormalActionView::OpenDiff },
        'f' => NormalStep { app: a, engine, action: NormalActionView::Refresh },
        'l' => NormalStep { app: toggled(a), engine, action: NormalActionView::ReloadLogs },
        'n' => plain_step(editing_new(a), engine),
        'e' => plain_step(editing_selected(a), engine),
        'x' => plain_step(delete_requested(a), engine),
        'm' => plain_step(migration_menu(a), engine),
        'k' => plain_step(scroll_up(a, 1), engine),
        'j' => plain_step(scroll_down(a, 1), engine),
        'c' => if control {
            quit_step(a, engine)
        } else {
            plain_step(a, engine)
        },
        _ => plain_step(a, engine),
    }
}

/// What a key does in normal mode.
pub open spec fn normal_key(
    a: AppView,
    engine: Option<EngineView>,
    key: Key,
    now: u64,
) -> NormalStep {
    match key.code {
        KeyCode::Char(c) => char_step(a, engine, c, key.control, now),
        KeyCode::Tab => plain_step(select_next(a), engine),
        KeyCode::BackTab => plain_step(select_prev(a), engine),
        KeyCode::Up => plain_step(scroll_up(a, 1), engine),
        KeyCode::Down => plain_step(scroll_down(a, 1), engine),
        KeyCode::PageUp => plain_step(scroll_up(a, 10), engine),
        KeyCode::PageDown => plain_step(scroll_down(a, 10), engine),
        KeyCode::Home => plain_step(scroll_home(a), engine),
        KeyCode::End => plain_step(AppView { log_scroll_offset: 0, ..a }, engine),
        KeyCode::Esc => plain_step(AppView { diff: None, ..a }, engine),
        _ => plain_step(a, engine),
    }
}

/// Whether the outcome of a key is the given one.
pub open spec fn came_to(
    r: NormalAction,
    app: App,
    engine: Option<RunEngine>,
    step: NormalStep,
) -> bool {
    r@ == step.action && app@ == step.app && opt_view(engine) == step.engine
}

/// Whether an engine, where there is one, is in order.
pub open spec fn engine_wf(engine: Option<RunEngine>) -> bool {
    match engine {
        Some(e) => e.wf(),
        None => true,
    }
}

fn quit(app: &mut App, engine: &mut Option<RunEngine>) -> (r: NormalAction)
    ensures
        engine_wf(*old(engine)) ==> engine_wf(*final(engine)),
        came_to(r, *final(app), *final(engine), quit_step(old(app)@, opt_view(*old(engine)))),
{
    app.should_quit = true;
    match engine {
        Some(e) => match e.pause() {
            Ok(effects) => NormalAction::Perform(Pending::Quit, effects),
            Err(_) => NormalAction::Nothing,
        },
        None => NormalAction::Nothing,
    }
}

fn on_space(app: &mut App, engine: &mut Option<RunEngine>) -> (r: NormalAction)
    ensures
        engine_wf(*old(engine)) ==> engine_wf(*final(engine)),
        came_to(r, *final(app), *final(engine), space_step(old(app)@, opt_view(*old(engine)))),
{
    match app.run_state() {
        Some(RunState::Running) => match engine {
            Some(e) => match e.pause() {
                Ok(effects) => NormalAction::Perform(Pending::Pause, effects),
                Err(error) => {
                    app.show_error("Pause failed: ", error.message().as_str());
                    NormalAction::Nothing
                },
            },
            None => NormalAction::Nothing,
        },
        Some(RunState::Paused) => match engine {
            Some(e) => match e.resume() {
                Ok(effects) => NormalAction::Perform(Pending::Resume, effects),
                Err(error) => {
                    app.show_error("Resume failed: ", error.message().as_str());
                    NormalAction::Nothing
                },
            },
            None => NormalAction::Nothing,
        },
        _ => NormalAction::StartRun,
    }
}

fn shows_active_run(app: &App) -> (r: bool)
    ensures
        r == is_active(app@),
{
    match app.run_state() {
        Some(RunState::Running) => true,
        Some(RunState::Paused) => true,
        _ => false,
    }
}

fn on_abort(app: &mut App, engine: &mut Option<RunEngine>, now: u64) -> (r: NormalAction)
    ensures
        engine_wf(*old(engine)) ==> engine_wf(*final(engine)),
        came_to(r, *final(app), *final(engine), abort_step(old(app)@, opt_view(*old(engine)), now)),
{
    if !shows_active_run(app) {
        return NormalAction::Nothing;
    }
    match engine {
        Some(e) => match e.abort_at("User requested abort via TUI", now) {
            Ok(effects) => NormalAction::Perform(Pending::Abort, effects),
            Err(error) => {
                app.show_error("Abort failed: ", error.message().as_str());
                NormalAction::Nothing
            },
        },
        None => NormalAction::Nothing,
    }
}

fn on_skip(app: &mut App, engine: &mut Option<RunEngine>) -> (r: NormalAction)
    ensures
        engine_wf(*old(engine)) ==> engine_wf(*final(engine)),
        came_to(r, *final(app), *final(engine), skip_step(old(app)@, opt_view(*old(engine)))),
{
    if !shows_active_run(app) {
        return NormalAction::Nothing;
    }
    match engine {
        Some(e) => match e.skip_task("User skipped via TUI") {
            Some((_, effects)) => NormalAction::Perform(Pending::Skip, effects),
            None => NormalAction::Nothing,
        },
        None => NormalAction::Nothing,
    }
}

fn on_retry(app: &mut App, engine: &mut Option<RunEngine>) -> (r: NormalAction)
    ensures
        engine_wf(*old(engine)) ==> engine_wf(*final(engine)),
        came_to(r, *final(app), *final(engine), retry_step(old(app)@, opt_view(*old(engine)))),
{
    if !shows_active_run(app) {
        return NormalAction::Nothing;
    }
    match engine {
        Some(e) => {
            if e.run.state == RunState::Running {
                let effects: Vec<Effect> = Vec::new();
                assert(views(effects@) =~= Seq::empty());
                return NormalAction::Perform(Pending::Retry, effects);
            }
            match e.resume() {
                Ok(effects) => NormalAction::Perform(Pending::Retry, effects),
                Err(error) => {
                    app.show_error("Retry failed: ", error.message().as_str());
                    NormalAction::Nothing
                },
            }
        },
        None => NormalAction::Nothing,
    }
}

fn open_migration_menu(app: &mut App)
    ensures
        final(app)@ == migration_menu(old(app)@),
{
    let enabled = match &app.config {
        Some(config) => config.archon.enabled,
        None => false,
    };
    if enabled {
        app.edit_mode = EditMode::MigrationMenu;
    } else {
        app.last_error = Some(owned("Archon integration is not enabled"));
    }
}

fn on_char(
    app: &mut App,
    engine: &mut Option<RunEngine>,
    c: char,
    control: bool,
    now: u64,
) -> (r: NormalAction)
    ensures
        engine_wf(*old(engine)) ==> engine_wf(*final(engine)),
        came_to(
            r,
            *final(app),
            *final(engine),
            char_step(old(app)@, opt_view(*old(engine)), c, control, now),
        ),
{
    match c {
        'q' => quit(app, engine),
        ' ' => on_space(app, engine),
        'a' => on_abort(app, engine, now),
        's' => on_skip(app, engine),
        'r' => on_retry(app, engine),
        'd' => NormalAction::OpenDiff,
        'f' => NormalAction::Refresh,
        'l' => {
            app.toggle_log_source();
            NormalAction::ReloadLogs
        },
        'n' => {
            app.start_new_task();
            NormalAction::Nothing
        },
        'e' => {
            app.start_edit_task();
            NormalAction::Nothing
        },
        'x' => {
            app.request_delete_task();
            NormalAction::Nothing
        },
        'm' => {
            open_migration_menu(app);
            NormalAction::Nothing
        },
        'k' => {
            app.scroll_log_up(1);
            NormalAction::Nothing
        },
        'j' => {
            app.scroll_log_down(1);
            NormalAction::Nothing
        },
        'c' => if control {
            quit(app, engine)
        } else {
            NormalAction::Nothing
        },
        _ => NormalAction::Nothing,
    }
}

/// Handle input in normal mode (not editing), at the given time (Unix ms).
pub fn handle_normal_input(
    app: &mut App,
    engine: &mut Option<RunEngine>,
    key: Key,
    now: u64,
) -> (r: NormalAction)
    ensures
        engine_wf(*old(engine)) ==> engine_wf(*final(engine)),
        came_to(
            r,
            *final(app),
            *final(engine),
            normal_key(old(app)@, opt_view(*old(engine)), key, now),
        ),
{
    match key.code {
        KeyCode::Char(c) => {
            return on_char(app, engine, c, key.control, now);
        },
        KeyCode::Tab => app.select_next_task(),
        KeyCode::BackTab => app.select_prev_task(),
        KeyCode::Up => app.scroll_log_up(1),
        KeyCode::Down => app.scroll_log_down(1),
        KeyCode::PageUp => app.scroll_log_up(10),
        KeyCode::PageDown => app.scroll_log_down(10),
        KeyCode::Home => {
            let n = app.log_lines.len();
            app.log_scroll_offset = if n > 0 {
                n - 1
            } else {
                0
            };
        },
        KeyCode::End => app.scroll_log_to_bottom(),
        KeyCode::Esc => {
            app.diff = None;
        },
        _ => {},
    }
    NormalAction::Nothing
}

/// The application after the effects of a key were performed, or failed.
pub open spec fn settled(a: AppView, pending: Pending, error: Option<Seq<char>>) -> AppView {
    match pending {
        Pending::Quit => a,
        Pending::Pause => match error {
            Some(_) => with_error(a, "Pause failed: "@, error),
            None => AppView { user_paused: true, ..a },
        },
        Pending::Resume => match error {
            Some(_) => with_error(a, "Resume failed: "@, error),
            None => AppView { user_paused: false, ..a },
        },
        Pending::Abort => with_error(a, "Abort failed: "@, error),
        Pending::Skip => with_error(a, "Skip failed: "@, error),
        Pending::Retry => match error {
            Some(_) => with_error(a, "Retry failed: "@, error),
            None => AppView { user_paused: false, ..a },
        },
    }
}

/// Sees to what is pending once effects were performed, or failed.
pub fn settle(app: &mut App, pending: Pending, error: Option<&str>)
    ensures
        final(app)@ == settled(
            old(app)@,
            pending,
            match error {
                Some(e) => Some(e@),
                None => None,
            },
        ),
{
    match pending {
        Pending::Quit => {},
        Pending::Pause => match error {
            Some(e) => app.show_error("Pause failed: ", e),
            None => {
                app.user_paused = true;
            },
        },
        Pending::Resume => match error {
            Some(e) => app.show_error("Resume failed: ", e),
            None => {
                app.user_paused = false;
            },
        },
        Pending::Abort => match error {
            Some(e) => app.show_error("Abort failed: ", e),
            None => {},
        },
        Pending::Skip => match error {
            Some(e) => app.show_error("Skip failed: ", e),
            None => {},
        },
        Pending::Retry => match error {
            Some(e) => app.show_error("Retry failed: ", e),
            None => {
                app.user_paused = false;
            },
        },
    }
}

/// Opens the summary of the changes that were read, or shows why they could not
/// be.
pub fn diff_read(app: &mut App, changes: Result<Vec<FileChange>, String>)
    ensures
        final(app)@ == match changes {
            Ok(list) => AppView { diff: Some(views(list@)), ..old(app)@ },
            Err(e) => with_error(old(app)@, "Diff failed: "@, Some(e@)),
        },
{
    match changes {
        Ok(list) => {
            app.diff = Some(list);
        },
        Err(e) => app.show_error("Diff failed: ", e.as_str()),
    }
}

/// What came of making and starting a new run.
#[derive(Debug)]
pub enum StartOutcome {
    /// No engine could be made.
    NoEngine(String),
    /// The run could not be started.
    NotStarted(String),
    Started,
}

/// Takes note of what came of starting a new run.
pub fn run_started(app: &mut App, outcome: StartOutcome)
    ensures
        final(app)@ == match outcome {
            StartOutcome::NoEngine(e) => with_error(
                old(app)@,
                "Failed to create engine: "@,
                Some(e@),
            ),
            StartOutcome::NotStarted(e) => with_error(old(app)@, "Start failed: "@, Some(e@)),
            StartOutcome::Started => AppView { user_paused: false, ..old(app)@ },
        },
{
    match outcome {
        StartOutcome::NoEngine(e) => app.show_error("Failed to create engine: ", e.as_str()),
        StartOutcome::NotStarted(e) => app.show_error("Start failed: ", e.as_str()),
        StartOutcome::Started => {
            app.user_paused = false;
        },
    }
}

// ---------------------------------------------------------------- the edit mode

/// What a key in edit mode asks for.
#[derive(Debug)]
pub enum EditAction {
    Nothing,
    /// Migrate the tasks, then see to the outcome.
    Migrate(MigrationDirection),
    /// Save the tasks, then finish the edit.
    SaveEdit(TaskList),
    /// Save the tasks, then finish the deletion.
    SaveDelete(TaskList),
}

/// What such a request says.
#[verifier::ext_equal]
pub enum EditActionView {
    Nothing,
    Migrate(MigrationDirection),
    SaveEdit(TaskListView),
    SaveDelete(TaskListView),
}

impl View for EditAction {
    type V = EditActionView;

    open spec fn view(&self) -> EditActionView {
        match *self {
            EditAction::Nothing => EditActionView::Nothing,
            EditAction::Migrate(d) => EditActionView::Migrate(d),
            EditAction::SaveEdit(t) => EditActionView::SaveEdit(t@),
            EditAction::SaveDelete(t) => EditActionView::SaveDelete(t@),
        }
    }
}

/// What a key does in the migration menu.
pub open spec fn menu_key(a: AppView, key: Key) -> (AppView, EditActionView) {
    let cleared = AppView { last_error: None, ..a };
    let closed = AppView { edit_mode: EditModeView::Inactive, ..a };
    match key.code {
        KeyCode::Char(c) => if c == '1' || c == 'l' {
            (cleared, EditActionView::Migrate(MigrationDirection::LocalToArchon))
        } else if c == '2' || c == 'a' {
            (cleared, EditActionView::Migrate(MigrationDirection::ArchonToLocal))
        } else if c == 'q' {
            (closed, EditActionView::Nothing)
        } else {
            (a, EditActionView::Nothing)
        },
        KeyCode::Esc => (closed, EditActionView::Nothing),
        _ => (a, EditActionView::Nothing),
    }
}

/// What a key does when a deletion is to be confirmed.
pub open spec fn confirm_key(a: AppView, key: Key) -> (AppView, EditActionView) {
    match key.code {
        KeyCode::Char(c) => if c == 'y' || c == 'Y' {
            (delete_applied(a), EditActionView::SaveDelete(delete_applied(a).tasks))
        } else if c == 'n' || c == 'N' {
            (edit_cancelled(a), EditActionView::Nothing)
        } else {
            (a, EditActionView::Nothing)
        },
        KeyCode::Esc => (edit_cancelled(a), EditActionView::Nothing),
        _ => (a, EditActionView::Nothing),
    }
}

/// The edit confirmed, where the title is not empty.
pub open spec fn confirmed(a: AppView) -> (AppView, EditActionView) {
    if trim(a.edit_buffer.title).len() == 0 {
        (a, EditActionView::Nothing)
    } else if a.edit_mode is NewTask || a.edit_mode is EditingTask {
        (edit_applied(a), EditActionView::SaveEdit(edit_applied(a).tasks))
    } else {
        (edit_finished(a), EditActionView::Nothing)
    }
}

/// The buffer with a character typed into the focused field.
pub open spec fn typed(b: BufferView, c: char) -> BufferView {
    if b.focused_field == 0 {
        BufferView { title: b.title.push(c), ..b }
    } else if b.focused_field == 1 {
        BufferView { acceptance: b.acceptance.push(c), ..b }
    } else if b.focused_field == 2 {
        BufferView { notes: b.notes.push(c), ..b }
    } else {
        b
    }
}

/// A text without its last character, where it has one.
pub open spec fn shortened(s: Seq<char>) -> Seq<char> {
    if s.len() > 0 {
        s.drop_last()
    } else {
        s
    }
}

/// The buffer with a character taken back from the focused field.
pub open spec fn erased(b: BufferView) -> BufferView {
    if b.focused_field == 0 {
        BufferView { title: shortened(b.title), ..b }
    } else if b.focused_field == 1 {
        BufferView { acceptance: shortened(b.acceptance), ..b }
    } else if b.focused_field == 2 {
        BufferView { notes: shortened(b.notes), ..b }
    } else {
        b
    }
}

/// The application with another buffer.
pub open spec fn with_buffer(a: AppView, edit_buffer: BufferView) -> AppView {
    AppView { edit_buffer, ..a }
}

/// What a key does in the task editor.
pub open spec fn editor_key(a: AppView, key: Key) -> (AppView, EditActionView) {
    let b = a.edit_buffer;
    match key.code {
        KeyCode::Esc => (edit_cancelled(a), EditActionView::Nothing),
        KeyCode::Tab => (
            with_buffer(a, BufferView { focused_field: next_field(b.focused_field), ..b }),
            EditActionView::Nothing,
        ),
        KeyCode::BackTab => (
            with_buffer(
                a,
                BufferView {
                    focused_field: if b.focused_field == 0 {
                        2
                    } else {
                        (b.focused_field - 1) as usize
                    },
                    ..b
                },
            ),
            EditActionView::Nothing,
        ),
        KeyCode::Enter => if key.control || b.focused_field == 0 {
            confirmed(a)
        } else {
            (with_buffer(a, typed(b, '\n')), EditActionView::Nothing)
        },
        KeyCode::Char(c) => (with_buffer(a, typed(b, c)), EditActionView::Nothing),
        KeyCode::Backspace => (with_buffer(a, erased(b)), EditActionView::Nothing),
        _ => (a, EditActionView::Nothing),
    }
}

/// What a key does in edit mode.
pub open spec fn edit_key(a: AppView, key: Key) -> (AppView, EditActionView) {
    match a.edit_mode {
        EditModeView::MigrationMenu => menu_key(a, key),
        EditModeView::ConfirmDelete(_) => confirm_key(a, key),
        _ => editor_key(a, key),
    }
}

fn on_menu_key(app: &mut App, key: Key) -> (r: EditAction)
    ensures
        (final(app)@, r@) == menu_key(old(app)@, key),
{
    match key.code {
        KeyCode::Char('1') | KeyCode::Char('l') => {
            app.last_error = None;
            EditAction::Migrate(MigrationDirection::LocalToArchon)
        },
        KeyCode::Char('2') | KeyCode::Char('a') => {
            app.last_error = None;
            EditAction::Migrate(MigrationDirection::ArchonToLocal)
        },
        KeyCode::Esc | KeyCode::Char('q') => {
            app.edit_mode = EditMode::Inactive;
            EditAction::Nothing
        },
        _ => EditAction::Nothing,
    }
}

fn on_confirm_key(app: &mut App, key: Key) -> (r: EditAction)
    requires
        old(app).edit_mode is ConfirmDelete,
    ensures
        (final(app)@, r@) == confirm_key(old(app)@, key),
{
    match key.code {
        KeyCode::Char('y') | KeyCode::Char('Y') => {
            let _ = app.confirm_delete_task();
            EditAction::SaveDelete(app.tasks.clone())
        },
        KeyCode::Char('n') | KeyCode::Char('N') | KeyCode::Esc => {
            app.cancel_edit();
            EditAction::Nothing
        },
        _ => EditAction::Nothing,
    }
}

fn confirm(app: &mut App) -> (r: EditAction)
    ensures
        (final(app)@, r@) == confirmed(old(app)@),
{
    if !has_content(app.edit_buffer.title.as_str()) {
        return EditAction::Nothing;
    }
    if app.confirm_task_edit() {
        EditAction::SaveEdit(app.tasks.clone())
    } else {
        app.finish_task_edit();
        EditAction::Nothing
    }
}

fn type_char(app: &mut App, c: char)
    ensures
        final(app)@ == with_buffer(old(app)@, typed(old(app)@.edit_buffer, c)),
{
    match app.edit_buffer.focused_field {
        0 => app.edit_buffer.title.push(c),
        1 => app.edit_buffer.acceptance.push(c),
        2 => app.edit_buffer.notes.push(c),
        _ => {},
    }
}

fn erase_char(app: &mut App)
    ensures
        final(app)@ == with_buffer(old(app)@, erased(old(app)@.edit_buffer)),
{
    match app.edit_buffer.focused_field {
        0 => {
            let _ = app.edit_buffer.title.pop();
        },
        1 => {
            let _ = app.edit_buffer.acceptance.pop();
        },
        2 => {
            let _ = app.edit_buffer.notes.pop();
        },
        _ => {},
    }
}

fn on_editor_key(app: &mut App, key: Key) -> (r: EditAction)
    ensures
        (final(app)@, r@) == editor_key(old(app)@, key),
{
    match key.code {
        KeyCode::Esc => app.cancel_edit(),
        KeyCode::Tab => {
            app.edit_buffer.focused_field = following_field(app.edit_buffer.focused_field);
        },
        KeyCode::BackTab => {
            app.edit_buffer.focused_field = if app.edit_buffer.focused_field == 0 {
                2
            } else {
                app.edit_buffer.focused_field - 1
            };
        },
        KeyCode::Enter => {
            if key.control || app.edit_buffer.focused_field == 0 {
                return confirm(app);
            }
            type_char(app, '\n');
        },
        KeyCode::Char(c) => type_char(app, c),
        KeyCode::Backspace => erase_char(app),
        _ => {},
    }
    EditAction::Nothing
}

/// Handle input in edit mode (editing a task).
pub fn handle_edit_input(app: &mut App, key: Key) -> (r: EditAction)
    ensures
        (final(app)@, r@) == edit_key(old(app)@, key),
{
    match &app.edit_mode {
        EditMode::MigrationMenu => on_menu_key(app, key),
        EditMode::ConfirmDelete(_) => on_confirm_key(app, key),
        _ => on_editor_key(app, key),
    }
}

/// Whether the tasks are to be reloaded after a migration.
pub open spec fn migration_reloads(
    direction: MigrationDirection,
    outcome: Result<i32, String>,
) -> bool {
    match outcome {
        Ok(code) => direction == MigrationDirection::ArchonToLocal && code == 0,
        Err(_) => false,
    }
}

/// What is said of a migration.
pub open spec fn migration_text(outcome: Result<i32, String>) -> Seq<char> {
    match outcome {
        Ok(code) => if code == 0 {
            "Migration to Archon completed"@
        } else {
            "Migration failed with exit code "@ + signed_decimal(code as int)
        },
        Err(e) => "Migration error: "@ + e@,
    }
}

/// Sees to the outcome of a migration. Tells whether the tasks are to be
/// reloaded, with which `tasks_migrated` goes on.
pub fn migration_done(
    app: &mut App,
    direction: MigrationDirection,
    outcome: Result<i32, String>,
) -> (r: bool)
    ensures
        r == migration_reloads(direction, outcome),
        final(app)@ == (AppView {
            edit_mode: EditModeView::Inactive,
            last_error: if r {
                old(app)@.last_error
            } else {
                Some(migration_text(outcome))
            },
            ..old(app)@
        }),
{
    app.edit_mode = EditMode::Inactive;
    match outcome {
        Ok(code) => {
            if code != 0 {
                app.last_error = Some(
                    owned("Migration failed with exit code ").concat(
                        signed_text(code as i64).as_str(),
                    ),
                );
                false
            } else if direction == MigrationDirection::ArchonToLocal {
                true
            } else {
                app.last_error = Some(owned("Migration to Archon completed"));
                false
            }
        },
        Err(e) => {
            app.last_error = Some(owned("Migration error: ").concat(e.as_str()));
            false
        },
    }
}

/// Takes in the tasks after a migration from Archon.
pub fn tasks_migrated(app: &mut App, loaded: Result<TaskList, String>)
    ensures
        final(app)@ == match loaded {
            Ok(tasks) => AppView {
                tasks: tasks@,
                last_error: Some("Migration from Archon completed"@),
                ..old(app)@
            },
            Err(e) => with_error(old(app)@, "Task reload failed: "@, Some(e@)),
        },
{
    match app.reload_tasks(loaded) {
        Ok(_) => {
            app.last_error = Some(owned("Migration from Archon completed"));
        },
        Err(e) => app.show_error("Task reload failed: ", e.as_str()),
    }
}

// -------------------------------------------------------------------- iterations

/// What the interface does between two key presses.
#[derive(Debug)]
pub enum LoopStep {
    /// Wait for the next key or tick.
    Wait,
    /// Refresh all state.
    Refresh,
    /// Perform the effects of a pause, then refresh all state.
    Pause(Vec<Effect>),
    /// Run an iteration, see to its outcome, then refresh all state.
    Iterate,
}

/// What such a step says.
#[verifier::ext_equal]
pub enum LoopStepView {
    Wait,
    Refresh,
    Pause(Seq<EffectView>),
    Iterate,
}

impl View for LoopStep {
    type V = LoopStepView;

    open spec fn view(&self) -> LoopStepView {
        match *self {
            LoopStep::Wait => LoopStepView::Wait,
            LoopStep::Refresh => LoopStepView::Refresh,
            LoopStep::Pause(effects) => LoopStepView::Pause(views(effects@)),
            LoopStep::Iterate => LoopStepView::Iterate,
        }
    }
}

/// The turn of a run that is to be iterated: it is iterated up to the limit, at
/// which it is paused.
pub open spec fn iteration_turn(a: AppView, engine: Option<EngineView>) -> (
    AppView,
    Option<EngineView>,
    LoopStepView,
) {
    match engine {
        None => (a, engine, LoopStepView::Refresh),
        Some(e) => if terminal(e.run.state) {
            (a, engine, LoopStepView::Refresh)
        } else if e.run.iteration >= e.config.max_iterations {
            let stopped = AppView { user_paused: true, ..a };
            match paused(e) {
                Ok((next, effects)) => (stopped, Some(next), LoopStepView::Pause(effects)),
                Err(x) => (
                    with_error(stopped, "Pause failed: "@, Some(run_message(x))),
                    engine,
                    LoopStepView::Refresh,
                ),
            }
        } else {
            (a, engine, LoopStepView::Iterate)
        },
    }
}

/// What the interface does between two key presses: iterations run while the
/// run is running and the user idle.
pub open spec fn loop_turn(a: AppView, engine: Option<EngineView>, now: u64) -> (
    AppView,
    Option<EngineView>,
    LoopStepView,
) {
    if !wants_iteration(a, now) {
        (a, engine, LoopStepView::Wait)
    } else {
        iteration_turn(a, engine)
    }
}

/// Decides what the interface does between two key presses.
pub fn take_turn(app: &mut App, engine: &mut Option<RunEngine>, now: u64) -> (r: LoopStep)
    ensures
        engine_wf(*old(engine)) ==> engine_wf(*final(engine)),
        (final(app)@, opt_view(*final(engine)), r@) == loop_turn(
            old(app)@,
            opt_view(*old(engine)),
            now,
        ),
{
    if !app.should_run_iteration(now) {
        return LoopStep::Wait;
    }
    retry_turn(app, engine)
}

/// Decides what the interface does when an iteration is asked for, without
/// waiting until the user is idle.
pub fn retry_turn(app: &mut App, engine: &mut Option<RunEngine>) -> (r: LoopStep)
    ensures
        engine_wf(*old(engine)) ==> engine_wf(*final(engine)),
        (final(app)@, opt_view(*final(engine)), r@) == iteration_turn(
            old(app)@,
            opt_view(*old(engine)),
        ),
{
    match engine {
        None => LoopStep::Refresh,
        Some(e) => {
            if e.is_finished() {
                LoopStep::Refresh
            } else if e.run.iteration >= e.config.max_iterations {
                app.user_paused = true;
                match e.pause() {
                    Ok(effects) => LoopStep::Pause(effects),
                    Err(error) => {
                        app.show_error("Pause failed: ", error.message().as_str());
                        LoopStep::Refresh
                    },
                }
            } else {
                LoopStep::Iterate
            }
        },
    }
}

/// Whether the effects of a pause are to be performed after an iteration, and
/// whether their failure is to be shown.
#[derive(Debug)]
pub enum AfterIteration {
    Nothing,
    /// Perform the effects and show a failure.
    Pause(Vec<Effect>),
    /// Perform the effects as far as they go.
    TryPause(Vec<Effect>),
}

/// What that says.
#[verifier::ext_equal]
pub enum AfterIterationView {
    Nothing,
    Pause(Seq<EffectView>),
    TryPause(Seq<EffectView>),
}

impl View for AfterIteration {
    type V = AfterIterationView;

    open spec fn view(&self) -> AfterIterationView {
        match *self {
            AfterIteration::Nothing => AfterIterationView::Nothing,
            AfterIteration::Pause(effects) => AfterIterationView::Pause(views(effects@)),
            AfterIteration::TryPause(effects) => AfterIterationView::TryPause(views(effects@)),
        }
    }
}

/// What follows an iteration: one that did not succeed pauses the run. The log
/// of the next one is read from its beginning.
pub open spec fn iteration_followed(
    a: AppView,
    e: EngineView,
    success: Result<bool, Seq<char>>,
) -> (AppView, EngineView, AfterIterationView) {
    match success {
        Ok(ok) => {
            let fresh = AppView { log_file_pos: 0, log_lines: Seq::empty(), ..a };
            match paused(e) {
                Ok((next, effects)) if !ok => (
                    AppView { user_paused: true, ..fresh },
                    next,
                    AfterIterationView::Pause(effects),
                ),
                _ => (fresh, e, AfterIterationView::Nothing),
            }
        },
        Err(error) => {
            let stopped = AppView {
                user_paused: true,
                ..with_error(a, "Iteration failed: "@, Some(error))
            };
            match paused(e) {
                Ok((next, effects)) => (stopped, next, AfterIterationView::TryPause(effects)),
                Err(_) => (stopped, e, AfterIterationView::Nothing),
            }
        },
    }
}

/// Sees to the outcome of an iteration.
pub fn iteration_done(
    app: &mut App,
    engine: &mut RunEngine,
    outcome: Result<IterationResult, String>,
) -> (r: AfterIteration)
    ensures
        old(engine).wf() ==> final(engine).wf(),
        (final(app)@, final(engine)@, r@) == iteration_followed(
            old(app)@,
            old(engine)@,
            match outcome {
                Ok(result) => Ok(result.success),
                Err(e) => Err(e@),
            },
        ),
{
    match outcome {
        Ok(result) => {
            app.log_file_pos = 0;
            app.log_lines = Vec::new();
            assert(views(app.log_lines@) =~= Seq::empty());
            if !result.success {
                match engine.pause() {
                    Ok(effects) => {
                        app.user_paused = true;
                        AfterIteration::Pause(effects)
                    },
                    Err(_) => AfterIteration::Nothing,
                }
            } else {
                AfterIteration::Nothing
            }
        },
        Err(error) => {
            app.show_error("Iteration failed: ", error.as_str());
            app.user_paused = true;
            match engine.pause() {
                Ok(effects) => AfterIteration::TryPause(effects),
                Err(_) => AfterIteration::Nothing,
            }
        },
    }
}

/// Shows that the effects of a pause failed.
pub fn pause_failed(app: &mut App, error: &str)
    ensures
        final(app)@ == with_error(old(app)@, "Pause failed: "@, Some(error@)),
{
    app.show_error("Pause failed: ", error);
}

} // verus!
