//! A run and the engine that takes it from state to state.
//!
//! The engine changes its own state and names the effects that are to follow:
//! events to log, files to write. They are performed in order, and the first
//! that fails ends the operation.

use vstd::prelude::*;

use crate::config::{mode_name, Config, ConfigView, GitMode};
use crate::event::{generate_run_id, now_ms, run_id, EventKind, EventView, RunId, ValidatorStatus};
use crate::number::{decimal, decimal_text};
use crate::path::{join_path, joined};
use crate::policy::{PolicyEngine, PolicyView};
use crate::task::{
    all_done, id_index, lemma_id_index, status_count, Task, TaskList, TaskListView, TaskStatus,
    TaskView,
};
use crate::text::{clone_opt_string, lemma_views_push, opt_view, owned, trim, views};
use crate::workspace::{
    branch_name, checkpoint_message, output_of, reply_error, GitCommand, GitCommandView, GitReply,
    GitStep, WorkspaceError, WorkspaceErrorView, WorkspaceManager,
};

verus! {

/// Directory of the run's files.
pub const RALPHER_DIR: &'static str = ".ralpher";

/// File that holds the run.
pub const RUN_FILE: &'static str = "run.json";

/// File that holds the events.
pub const EVENTS_FILE: &'static str = "events.ndjson";

/// Directory of the iterations' files.
pub const ITERATIONS_DIR: &'static str = "iterations";

/// File with the agent's output.
pub const AGENT_LOG_FILE: &'static str = "agent.log";

/// File in which the agent reports progress.
pub const TASK_UPDATE_FILE: &'static str = "task_update.json";

/// File with the validators' results.
pub const VALIDATE_FILE: &'static str = "validate.json";

/// Task update written by the agent to report progress.
#[derive(Debug)]
pub struct TaskUpdate {
    /// ID of the task being updated.
    pub task_id: String,
    /// New status for the task.
    pub new_status: TaskStatus,
    /// Optional notes about the update.
    pub notes: Option<String>,
    /// Optional evidence (paths changed, commands run).
    pub evidence: Option<Vec<String>>,
}

/// What a task update says.
#[verifier::ext_equal]
pub struct TaskUpdateView {
    pub task_id: Seq<char>,
    pub new_status: TaskStatus,
    pub notes: Option<Seq<char>>,
    pub evidence: Option<Seq<Seq<char>>>,
}

impl View for TaskUpdate {
    type V = TaskUpdateView;

    open spec fn view(&self) -> TaskUpdateView {
        TaskUpdateView {
            task_id: self.task_id@,
            new_status: self.new_status,
            notes: opt_view(self.notes),
            evidence: match self.evidence {
                Some(e) => Some(views(e@)),
                None => None,
            },
        }
    }
}

/// Result of running a single validator command.
#[derive(Debug)]
pub struct SingleValidatorResult {
    /// The validator command that was run.
    pub command: String,
    /// Status of the validator (pass/fail/skipped).
    pub status: ValidatorStatus,
    /// Exit code from the command.
    pub exit_code: Option<i32>,
    /// Captured stdout + stderr output (truncated if large).
    pub output: Option<String>,
}

/// What a validator's result says.
#[verifier::ext_equal]
pub struct ValidatorView {
    pub command: Seq<char>,
    pub status: ValidatorStatus,
    pub exit_code: Option<i32>,
    pub output: Option<Seq<char>>,
}

impl View for SingleValidatorResult {
    type V = ValidatorView;

    open spec fn view(&self) -> ValidatorView {
        ValidatorView {
            command: self.command@,
            status: self.status,
            exit_code: self.exit_code,
            output: opt_view(self.output),
        }
    }
}

impl Clone for SingleValidatorResult {
    fn clone(&self) -> (r: Self)
        ensures
            r@ == self@,
    {
        SingleValidatorResult {
            command: self.command.clone(),
            status: self.status,
            exit_code: self.exit_code,
            output: clone_opt_string(&self.output),
        }
    }
}

/// A copy of validators' results.
pub fn clone_results(v: &Vec<SingleValidatorResult>) -> (r: Vec<SingleValidatorResult>)
    ensures
        views(r@) == views(v@),
{
    let mut out: Vec<SingleValidatorResult> = Vec::new();
    let n = v.len();
    for i in 0..n
        invariant
            n == v@.len(),
            views(out@) == views(v@).take(i as int),
    {
        broadcast use lemma_views_push;

        out.push(v[i].clone());
    }
    out
}

/// Results of running all validators for an iteration.
#[derive(Debug)]
pub struct ValidationResults {
    /// Results for each validator.
    pub validators: Vec<SingleValidatorResult>,
    /// Whether all validators passed.
    pub all_passed: bool,
}

/// What the results of all validators say.
#[verifier::ext_equal]
pub struct ValidationView {
    pub validators: Seq<ValidatorView>,
    pub all_passed: bool,
}

impl View for ValidationResults {
    type V = ValidationView;

    open spec fn view(&self) -> ValidationView {
        ValidationView { validators: views(self.validators@), all_passed: self.all_passed }
    }
}

impl Clone for ValidationResults {
    fn clone(&self) -> (r: Self)
        ensures
            r@ == self@,
    {
        ValidationResults {
            validators: clone_results(&self.validators),
            all_passed: self.all_passed,
        }
    }
}

/// State of a ralpher run.
#[derive(Clone, Copy, Debug, PartialEq, Eq, Structural)]
pub enum RunState {
    /// Run has not started yet.
    Idle,
    /// Run is actively executing iterations.
    Running,
    /// Run is paused by user request.
    Paused,
    /// Run completed successfully (all tasks done).
    Completed,
    /// Run was aborted by user or error.
    Aborted,
}

impl Default for RunState {
    fn default() -> (r: Self)
        ensures
            r == RunState::Idle,
    {
        RunState::Idle
    }
}

/// Whether a run in this state has ended.
pub open spec fn terminal(state: RunState) -> bool {
    state == RunState::Completed || state == RunState::Aborted
}

/// Whether a run in this state can be taken up.
pub open spec fn resumable(state: RunState) -> bool {
    state == RunState::Paused || state == RunState::Idle
}

/// The name of a state in messages.
pub open spec fn state_name(state: RunState) -> Seq<char> {
    match state {
        RunState::Idle => "Idle"@,
        RunState::Running => "Running"@,
        RunState::Paused => "Paused"@,
        RunState::Completed => "Completed"@,
        RunState::Aborted => "Aborted"@,
    }
}

impl RunState {
    /// Check if the run is in a terminal state.
    pub fn is_terminal(&self) -> (r: bool)
        ensures
            r == terminal(*self),
    {
        matches!(self, RunState::Completed | RunState::Aborted)
    }

    /// Check if the run can be resumed.
    pub fn can_resume(&self) -> (r: bool)
        ensures
            r == resumable(*self),
    {
        matches!(self, RunState::Paused | RunState::Idle)
    }

    /// The name of the state in messages.
    pub fn name(&self) -> (r: &'static str)
        ensures
            r@ == state_name(*self),
    {
        match self {
            RunState::Idle => "Idle",
            RunState::Running => "Running",
            RunState::Paused => "Paused",
            RunState::Completed => "Completed",
            RunState::Aborted => "Aborted",
        }
    }
}

/// A run that has ended cannot be taken up again.
pub proof fn law_terminal_is_final(state: RunState)
    ensures
        !(terminal(state) && resumable(state)),
        terminal(state) || resumable(state) || state == RunState::Running,
{
}

/// Persisted run metadata and state.
#[derive(Debug)]
pub struct Run {
    /// Unique identifier for this run.
    pub run_id: RunId,
    /// Current state of the run.
    pub state: RunState,
    /// Git mode used for this run.
    pub git_mode: GitMode,
    /// Current iteration number (1-indexed).
    pub iteration: u32,
    /// ID of the current task being worked on.
    pub current_task_id: Option<String>,
    /// Timestamp when the run started (Unix ms).
    pub started_at: u64,
    /// Timestamp when the run ended (Unix ms), if terminal.
    pub ended_at: Option<u64>,
    /// Original branch before creating run branch (branch mode only).
    pub original_branch: Option<String>,
    /// The branch created for this run (branch mode only).
    pub run_branch: Option<String>,
    /// Last checkpoint commit SHA.
    pub last_checkpoint: Option<String>,
}

/// What a run says.
#[verifier::ext_equal]
pub struct RunView {
    pub run_id: Seq<char>,
    pub state: RunState,
    pub git_mode: GitMode,
    pub iteration: u32,
    pub current_task_id: Option<Seq<char>>,
    pub started_at: u64,
    pub ended_at: Option<u64>,
    pub original_branch: Option<Seq<char>>,
    pub run_branch: Option<Seq<char>>,
    pub last_checkpoint: Option<Seq<char>>,
}

impl View for Run {
    type V = RunView;

    open spec fn view(&self) -> RunView {
        RunView {
            run_id: self.run_id@,
            state: self.state,
            git_mode: self.git_mode,
            iteration: self.iteration,
            current_task_id: opt_view(self.current_task_id),
            started_at: self.started_at,
            ended_at: self.ended_at,
            original_branch: opt_view(self.original_branch),
            run_branch: opt_view(self.run_branch),
            last_checkpoint: opt_view(self.last_checkpoint),
        }
    }
}

impl Clone for Run {
    fn clone(&self) -> (r: Self)
        ensures
            r@ == self@,
    {
        Run {
            run_id: self.run_id.clone(),
            state: self.state,
            git_mode: self.git_mode,
            iteration: self.iteration,
            current_task_id: clone_opt_string(&self.current_task_id),
            started_at: self.started_at,
            ended_at: self.ended_at,
            original_branch: clone_opt_string(&self.original_branch),
            run_branch: clone_opt_string(&self.run_branch),
            last_checkpoint: clone_opt_string(&self.last_checkpoint),
        }
    }
}

/// A run that is made at the given time and has not started.
pub open spec fn fresh_run(run_id: Seq<char>, git_mode: GitMode, now: u64) -> RunView {
    RunView {
        run_id,
        state: RunState::Idle,
        git_mode,
        iteration: 0,
        current_task_id: None,
        started_at: now,
        ended_at: None,
        original_branch: None,
        run_branch: None,
        last_checkpoint: None,
    }
}

impl Run {
    /// Create a new run with the given ID and git mode.
    pub fn new(run_id: RunId, git_mode: GitMode) -> (r: Self)
        ensures
            r@ == fresh_run(run_id@, git_mode, r.started_at),
    {
        Run::new_at(run_id, git_mode, now_ms())
    }

    /// Create a new run at the given time (Unix ms).
    pub fn new_at(run_id: RunId, git_mode: GitMode, now: u64) -> (r: Self)
        ensures
            r@ == fresh_run(run_id@, git_mode, now),
    {
        Run {
            run_id,
            state: RunState::Idle,
            git_mode,
            iteration: 0,
            current_task_id: None,
            started_at: now,
            ended_at: None,
            original_branch: None,
            run_branch: None,
            last_checkpoint: None,
        }
    }
}

/// Result of a single iteration.
#[derive(Debug)]
pub struct IterationResult {
    /// Whether the iteration succeeded (agent ran, validators passed, policy passed).
    pub success: bool,
    /// Exit code from the agent command.
    pub agent_exit_code: Option<i32>,
    /// Whether validators passed.
    pub validators_passed: bool,
    /// Whether policy checks passed.
    pub policy_passed: bool,
    /// Commit SHA if a checkpoint was created.
    pub checkpoint_sha: Option<String>,
}

/// What the result of an iteration says.
#[verifier::ext_equal]
pub struct IterationResultView {
    pub success: bool,
    pub agent_exit_code: Option<i32>,
    pub validators_passed: bool,
    pub policy_passed: bool,
    pub checkpoint_sha: Option<Seq<char>>,
}

impl View for IterationResult {
    type V = IterationResultView;

    open spec fn view(&self) -> IterationResultView {
        IterationResultView {
            success: self.success,
            agent_exit_code: self.agent_exit_code,
            validators_passed: self.validators_passed,
            policy_passed: self.policy_passed,
            checkpoint_sha: opt_view(self.checkpoint_sha),
        }
    }
}

impl Clone for IterationResult {
    fn clone(&self) -> (r: Self)
        ensures
            r@ == self@,
    {
        IterationResult {
            success: self.success,
            agent_exit_code: self.agent_exit_code,
            validators_passed: self.validators_passed,
            policy_passed: self.policy_passed,
            checkpoint_sha: clone_opt_string(&self.checkpoint_sha),
        }
    }
}

/// Which way tasks move between the task file and Archon.
#[derive(Clone, Copy, Debug, PartialEq, Eq, Structural)]
pub enum MigrationDirection {
    LocalToArchon,
    ArchonToLocal,
}

// --------------------------------------------------------------------- effects

/// Something that is to be done outside the engine.
#[derive(Debug)]
pub enum Effect {
    /// Append an event to the log.
    Emit(EventKind),
    /// Write the run to its file.
    SaveRun(Run),
    /// Write the tasks to their file.
    SaveTasks(TaskList),
    /// Write an iteration's validation results to their file.
    WriteValidation { iteration: u32, results: ValidationResults },
}

/// What an effect says.
#[verifier::ext_equal]
pub enum EffectView {
    Emit(EventView),
    SaveRun(RunView),
    SaveTasks(TaskListView),
    WriteValidation { iteration: u32, results: ValidationView },
}

impl View for Effect {
    type V = EffectView;

    open spec fn view(&self) -> EffectView {
        match *self {
            Effect::Emit(e) => EffectView::Emit(e@),
            Effect::SaveRun(run) => EffectView::SaveRun(run@),
            Effect::SaveTasks(tasks) => EffectView::SaveTasks(tasks@),
            Effect::WriteValidation { iteration, results } => EffectView::WriteValidation {
                iteration,
                results: results@,
            },
        }
    }
}

/// Why an operation of the engine failed.
#[derive(Debug)]
pub enum RunError {
    /// A run can be started only from the idle state.
    CannotStart(RunState),
    /// A run is not started over uncommitted changes.
    DirtyTree,
    /// Iterations are for running runs.
    CannotIterate(RunState),
    /// No task is open, and some are blocked.
    OnlyBlocked,
    /// Only a running run can be paused.
    CannotPause(RunState),
    /// Only a paused run can be resumed.
    CannotResume(RunState),
    /// A run that has ended cannot be aborted.
    CannotAbort(RunState),
    /// There is no task with the given identifier.
    TaskNotFound,
    /// No agent is configured.
    NoAgent,
    /// The agent's command has no words.
    EmptyCommand,
    /// A git operation failed.
    Workspace(WorkspaceError),
    /// An effect could not be performed.
    Outside(String),
    /// A reply came that the step had not asked for.
    UnexpectedReply,
}

/// What an engine error says.
#[verifier::ext_equal]
pub enum RunErrorView {
    CannotStart(RunState),
    DirtyTree,
    CannotIterate(RunState),
    OnlyBlocked,
    CannotPause(RunState),
    CannotResume(RunState),
    CannotAbort(RunState),
    TaskNotFound,
    NoAgent,
    EmptyCommand,
    Workspace(WorkspaceErrorView),
    Outside(Seq<char>),
    UnexpectedReply,
}

impl View for RunError {
    type V = RunErrorView;

    open spec fn view(&self) -> RunErrorView {
        match *self {
            RunError::CannotStart(s) => RunErrorView::CannotStart(s),
            RunError::DirtyTree => RunErrorView::DirtyTree,
            RunError::CannotIterate(s) => RunErrorView::CannotIterate(s),
            RunError::OnlyBlocked => RunErrorView::OnlyBlocked,
            RunError::CannotPause(s) => RunErrorView::CannotPause(s),
            RunError::CannotResume(s) => RunErrorView::CannotResume(s),
            RunError::CannotAbort(s) => RunErrorView::CannotAbort(s),
            RunError::TaskNotFound => RunErrorView::TaskNotFound,
            RunError::NoAgent => RunErrorView::NoAgent,
            RunError::EmptyCommand => RunErrorView::EmptyCommand,
            RunError::Workspace(e) => RunErrorView::Workspace(e@),
            RunError::Outside(m) => RunErrorView::Outside(m@),
            RunError::UnexpectedReply => RunErrorView::UnexpectedReply,
        }
    }
}

/// The message of an engine error.
pub open spec fn run_message(e: RunErrorView) -> Seq<char> {
    match e {
        RunErrorView::CannotStart(s) => "Cannot start run: current state is "@ + state_name(s)
            + ", expected Idle"@,
        RunErrorView::DirtyTree =>
        "Working tree has uncommitted changes. Commit or stash them before starting a run."@,
        RunErrorView::CannotIterate(s) => "Cannot run iteration: current state is "@ + state_name(
            s,
        ) + ", expected Running"@,
        RunErrorView::OnlyBlocked =>
        "Cannot run iteration: the tasks that are not done are blocked"@,
        RunErrorView::CannotPause(s) => "Cannot pause: current state is "@ + state_name(s)
            + ", expected Running"@,
        RunErrorView::CannotResume(s) => "Cannot resume: current state is "@ + state_name(s)
            + ", expected Paused"@,
        RunErrorView::CannotAbort(s) => "Cannot abort: run is already in terminal state "@
            + state_name(s),
        RunErrorView::TaskNotFound => "Task not found"@,
        RunErrorView::NoAgent =>
        "No agent configured in ralpher.toml. Add [agent] section with type and cmd."@,
        RunErrorView::EmptyCommand => "Agent command is empty"@,
        RunErrorView::Workspace(w) => crate::workspace::workspace_message(w),
        RunErrorView::Outside(m) => m,
        RunErrorView::UnexpectedReply => "Unexpected reply"@,
    }
}

impl RunError {
    /// The message of the error.
    pub fn message(&self) -> (r: String)
        ensures
            r@ == run_message(self@),
    {
        match self {
            RunError::CannotStart(s) => owned("Cannot start run: current state is ").concat(
                s.name(),
            ).concat(", expected Idle"),
            RunError::DirtyTree => owned(
                "Working tree has uncommitted changes. Commit or stash them before starting a run.",
            ),
            RunError::CannotIterate(s) => owned("Cannot run iteration: current state is ").concat(
                s.name(),
            ).concat(", expected Running"),
            RunError::OnlyBlocked => owned(
                "Cannot run iteration: the tasks that are not done are blocked",
            ),
            RunError::CannotPause(s) => owned("Cannot pause: current state is ").concat(
                s.name(),
            ).concat(", expected Running"),
            RunError::CannotResume(s) => owned("Cannot resume: current state is ").concat(
                s.name(),
            ).concat(", expected Paused"),
            RunError::CannotAbort(s) => owned(
                "Cannot abort: run is already in terminal state ",
            ).concat(s.name()),
            RunError::TaskNotFound => owned("Task not found"),
            RunError::NoAgent => owned(
                "No agent configured in ralpher.toml. Add [agent] section with type and cmd.",
            ),
            RunError::EmptyCommand => owned("Agent command is empty"),
            RunError::Workspace(w) => w.message(),
            RunError::Outside(m) => m.clone(),
            RunError::UnexpectedReply => owned("Unexpected reply"),
        }
    }
}

// ------------------------------------------------------------------ the engine

/// The run engine orchestrates task execution.
#[derive(Debug)]
pub struct RunEngine {
    /// Path to the repository root.
    pub repo_path: String,
    /// The current run state.
    pub run: Run,
    /// Configuration loaded from ralpher.toml.
    pub config: Config,
    /// Task list from ralpher.prd.json.
    pub tasks: TaskList,
    /// Workspace manager for git operations.
    pub workspace: WorkspaceManager,
    /// Policy engine for diff checking.
    pub policy_engine: PolicyEngine,
}

/// What an engine holds.
#[verifier::ext_equal]
pub struct EngineView {
    pub repo_path: Seq<char>,
    pub run: RunView,
    pub config: ConfigView,
    pub tasks: TaskListView,
    pub workspace_branch: Option<Seq<char>>,
    pub policy: PolicyView,
}

impl View for RunEngine {
    type V = EngineView;

    open spec fn view(&self) -> EngineView {
        EngineView {
            repo_path: self.repo_path@,
            run: self.run@,
            config: self.config@,
            tasks: self.tasks@,
            workspace_branch: opt_view(self.workspace.run_branch),
            policy: self.policy_engine.config@,
        }
    }
}

impl RunEngine {
    /// The workspace and the policy engine are those of the engine's own
    /// repository and configuration.
    pub open spec fn wf(&self) -> bool {
        &&& self.workspace.repo_path@ == self.repo_path@
        &&& self.workspace.git_mode == self.config.git_mode
        &&& self.policy_engine.config@ == self.config.policy@
    }
}

/// The engine of a run that is taken up with the given tasks.
pub open spec fn engine_of(
    repo_path: Seq<char>,
    run: RunView,
    config: ConfigView,
    tasks: TaskListView,
) -> EngineView {
    EngineView { repo_path, run, config, tasks, workspace_branch: None, policy: config.policy }
}

/// The path of the file with the given name in the run's directory.
pub open spec fn ralpher_path(repo_path: Seq<char>, name: Seq<char>) -> Seq<char> {
    join_path(join_path(repo_path, RALPHER_DIR@), name)
}

/// The directory of an iteration's files.
pub open spec fn iteration_path(repo_path: Seq<char>, iteration: u32) -> Seq<char> {
    join_path(ralpher_path(repo_path, ITERATIONS_DIR@), decimal(iteration as nat))
}

// ------------------------------------------------------- the engine's operations

/// The event that announces the start of a run.
pub open spec fn started_event(e: EngineView) -> EventView {
    EventView::RunStarted {
        run_id: e.run.run_id,
        git_mode: mode_name(e.config.git_mode),
        task_count: e.tasks.tasks.len(),
    }
}

/// The engine with its run in the given state.
pub open spec fn with_state(e: EngineView, state: RunState) -> EngineView {
    EngineView { run: RunView { state, ..e.run }, ..e }
}

/// The engine with its run ended in the given state at the given time.
pub open spec fn ended(e: EngineView, state: RunState, now: u64) -> EngineView {
    EngineView { run: RunView { state, ended_at: Some(now), ..e.run }, ..e }
}

/// An event, followed by the saving of the run.
pub open spec fn log_and_save(event: EventView, run: RunView) -> Seq<EffectView> {
    seq![EffectView::Emit(event), EffectView::SaveRun(run)]
}

/// What completing a run does: the effects that follow it.
pub open spec fn completion(e: EngineView) -> Seq<EffectView> {
    log_and_save(
        EventView::RunCompleted {
            run_id: e.run.run_id,
            total_iterations: e.run.iteration,
            tasks_completed: status_count(e.tasks.tasks, TaskStatus::Done),
        },
        e.run,
    )
}

/// What aborting a run does: the effects that follow it.
pub open spec fn abortion(e: EngineView, reason: Seq<char>) -> Seq<EffectView> {
    log_and_save(EventView::RunAborted { run_id: e.run.run_id, reason }, e.run)
}

/// What pausing a run gives.
pub open spec fn paused(e: EngineView) -> Result<(EngineView, Seq<EffectView>), RunErrorView> {
    if e.run.state != RunState::Running {
        Err(RunErrorView::CannotPause(e.run.state))
    } else {
        let next = with_state(e, RunState::Paused);
        Ok((next, log_and_save(EventView::RunPaused { run_id: e.run.run_id }, next.run)))
    }
}

/// What resuming a run gives.
pub open spec fn resumed(e: EngineView) -> Result<(EngineView, Seq<EffectView>), RunErrorView> {
    if e.run.state != RunState::Paused {
        Err(RunErrorView::CannotResume(e.run.state))
    } else {
        let next = with_state(e, RunState::Running);
        Ok((next, log_and_save(EventView::RunResumed { run_id: e.run.run_id }, next.run)))
    }
}

/// What aborting a run gives.
pub open spec fn aborted(e: EngineView, reason: Seq<char>, now: u64) -> Result<
    (EngineView, Seq<EffectView>),
    RunErrorView,
> {
    if terminal(e.run.state) {
        Err(RunErrorView::CannotAbort(e.run.state))
    } else {
        let next = ended(e, RunState::Aborted, now);
        Ok((next, abortion(next, reason)))
    }
}

/// The tasks with the status of the task at `i` replaced.
pub open spec fn with_status(tasks: TaskListView, i: int, status: TaskStatus) -> TaskListView {
    TaskListView {
        tasks: tasks.tasks.update(i, TaskView { status, ..tasks.tasks[i] }),
        ..tasks
    }
}

/// The event that announces a task's new status.
pub open spec fn status_event(
    e: EngineView,
    task_id: Seq<char>,
    old_status: TaskStatus,
    new_status: TaskStatus,
) -> EventView {
    EventView::TaskStatusChanged { run_id: e.run.run_id, task_id, old_status, new_status }
}

/// Whether an operation's outcome is the given one.
pub open spec fn gives(
    r: Result<Vec<Effect>, RunError>,
    before: EngineView,
    after: EngineView,
    outcome: Result<(EngineView, Seq<EffectView>), RunErrorView>,
) -> bool {
    match outcome {
        Ok((engine, effects)) => r matches Ok(v) && views(v@) == effects && after == engine,
        Err(error) => r matches Err(e) && e@ == error && after == before,
    }
}

/// The first step of starting a run that is not owed, or what it comes to.
#[verifier::ext_equal]
pub enum StartView {
    Git(GitCommandView),
    Failed(RunErrorView),
    Started(Seq<EffectView>),
}

/// How starting a run goes on after the given replies: the tree must be clean;
/// in branch mode the current branch is noted and the run's branch created.
pub open spec fn start_step(e: EngineView, replies: Seq<GitReply>) -> (EngineView, StartView) {
    let branching = e.config.git_mode == GitMode::Branch;
    let noted = EngineView {
        run: RunView { original_branch: Some(trim(output_of(replies[1]))), ..e.run },
        ..e
    };
    let branch = branch_name(e.run.run_id);
    let ready = if branching {
        EngineView {
            run: RunView { run_branch: Some(branch), ..noted.run },
            workspace_branch: Some(branch),
            ..noted
        }
    } else {
        e
    };
    if e.run.state != RunState::Idle {
        (e, StartView::Failed(RunErrorView::CannotStart(e.run.state)))
    } else if replies.len() == 0 {
        (e, StartView::Git(GitCommandView::Status))
    } else if reply_error(GitCommandView::Status, replies[0]) is Some {
        (
            e,
            StartView::Failed(
                RunErrorView::Workspace(reply_error(GitCommandView::Status, replies[0])->0),
            ),
        )
    } else if trim(output_of(replies[0])).len() > 0 {
        (e, StartView::Failed(RunErrorView::DirtyTree))
    } else if branching && replies.len() == 1 {
        (e, StartView::Git(GitCommandView::CurrentBranch))
    } else if branching && reply_error(GitCommandView::CurrentBranch, replies[1]) is Some {
        (
            e,
            StartView::Failed(
                RunErrorView::Workspace(reply_error(GitCommandView::CurrentBranch, replies[1])->0),
            ),
        )
    } else if branching && replies.len() == 2 {
        (noted, StartView::Git(GitCommandView::CheckoutNew(branch)))
    } else if branching && !created(replies[2]) {
        (noted, StartView::Failed(RunErrorView::Workspace(not_created(branch, replies[2]))))
    } else {
        let running = with_state(ready, RunState::Running);
        (running, StartView::Started(log_and_save(started_event(running), running.run)))
    }
}

/// Whether the reply says that the branch was created.
pub open spec fn created(reply: GitReply) -> bool {
    reply matches GitReply::Ran { success, .. } && success
}

/// The error for a branch that was not created.
pub open spec fn not_created(branch: Seq<char>, reply: GitReply) -> WorkspaceErrorView {
    match reply {
        GitReply::NotRun => WorkspaceErrorView::NotRun { command: "checkout"@ },
        GitReply::Ran { success, stdout, stderr } => WorkspaceErrorView::BranchNotCreated {
            branch,
            stderr: stderr@,
        },
    }
}

/// The next step of starting a run: a git command to run, or the outcome.
#[derive(Debug)]
pub enum StartStep {
    Git(GitCommand),
    Done(Result<Vec<Effect>, RunError>),
}

impl View for StartStep {
    type V = StartView;

    open spec fn view(&self) -> StartView {
        match *self {
            StartStep::Git(c) => StartView::Git(c@),
            StartStep::Done(Ok(effects)) => StartView::Started(views(effects@)),
            StartStep::Done(Err(e)) => StartView::Failed(e@),
        }
    }
}

fn two_effects(event: EventKind, run: Run) -> (r: Vec<Effect>)
    ensures
        views(r@) == log_and_save(event@, run@),
{
    let r = vec![Effect::Emit(event), Effect::SaveRun(run)];
    assert(views(r@) =~= log_and_save(event@, run@));
    r
}

impl RunEngine {
    /// Create a new run engine for a fresh run.
    pub fn new(repo_path: &str, config: Config, tasks: TaskList) -> (r: Self)
        ensures
            r.wf(),
            exists|secs: u64, now: u64|
                r@ == engine_of(
                    repo_path@,
                    #[trigger] fresh_run(run_id(secs as nat), config.git_mode, now),
                    config@,
                    tasks@,
                ),
    {
        let id = generate_run_id();
        let ghost secs = choose|secs: u64| id@ == #[trigger] run_id(secs as nat);
        let run = Run::new(id, config.git_mode);
        let ghost witness = fresh_run(run_id(secs as nat), config.git_mode, run.started_at);
        let r = RunEngine::load(repo_path, run, config, tasks);
        assert(r@ == engine_of(repo_path@, witness, config@, tasks@));
        r
    }

    /// Take up a run that was loaded from disk.
    pub fn load(repo_path: &str, run: Run, config: Config, tasks: TaskList) -> (r: Self)
        ensures
            r.wf(),
            r@ == engine_of(repo_path@, run@, config@, tasks@),
            r.run == run,
            r.config == config,
            r.tasks == tasks,
    {
        let workspace = WorkspaceManager::new(repo_path, config.git_mode);
        let policy_engine = PolicyEngine::new(config.policy.clone());
        RunEngine { repo_path: owned(repo_path), run, config, tasks, workspace, policy_engine }
    }

    /// Get the current run state.
    pub fn run(&self) -> (r: &Run)
        ensures
            *r == self.run,
    {
        &self.run
    }

    /// Get the task list.
    pub fn tasks(&self) -> (r: &TaskList)
        ensures
            *r == self.tasks,
    {
        &self.tasks
    }

    /// Get a mutable reference to the task list.
    pub fn tasks_mut(&mut self) -> (r: &mut TaskList)
        ensures
            *r == old(self).tasks,
            *final(self) == (RunEngine { tasks: *final(r), ..*old(self) }),
    {
        &mut self.tasks
    }

    /// Get the workspace manager.
    pub fn workspace(&self) -> (r: &WorkspaceManager)
        ensures
            *r == self.workspace,
    {
        &self.workspace
    }

    /// Get the repo path.
    pub fn repo_path(&self) -> (r: &str)
        ensures
            r@ == self.repo_path@,
    {
        self.repo_path.as_str()
    }

    /// Get the config.
    pub fn config(&self) -> (r: &Config)
        ensures
            *r == self.config,
    {
        &self.config
    }

    /// Check if the run is in a terminal state.
    pub fn is_finished(&self) -> (r: bool)
        ensures
            r == terminal(self.run.state),
    {
        self.run.state.is_terminal()
    }

    /// Get the events file path.
    pub fn events_path(&self) -> (r: String)
        ensures
            r@ == ralpher_path(self.repo_path@, EVENTS_FILE@),
    {
        joined(joined(self.repo_path.as_str(), RALPHER_DIR).as_str(), EVENTS_FILE)
    }

    /// Get the path to the iteration directory for a given iteration number.
    pub fn iteration_dir(&self, iteration: u32) -> (r: String)
        ensures
            r@ == iteration_path(self.repo_path@, iteration),
    {
        let base = joined(self.repo_path.as_str(), RALPHER_DIR);
        joined(joined(base.as_str(), ITERATIONS_DIR).as_str(), decimal_text(iteration as u64).as_str())
    }

    /// Get the path to the task_update.json file.
    pub fn task_update_path(&self) -> (r: String)
        ensures
            r@ == ralpher_path(self.repo_path@, TASK_UPDATE_FILE@),
    {
        joined(joined(self.repo_path.as_str(), RALPHER_DIR).as_str(), TASK_UPDATE_FILE)
    }

    /// Initialize and start the run, given the replies to the git commands that
    /// were issued so far.
    /// Sets up the workspace (creates branch in branch mode) and emits RunStarted.
    pub fn start(&mut self, replies: &Vec<GitReply>) -> (r: StartStep)
        requires
            old(self).wf(),
        ensures
            final(self).wf(),
            (final(self)@, r@) == start_step(old(self)@, replies@),
    {
        if self.run.state != RunState::Idle {
            return StartStep::Done(Err(RunError::CannotStart(self.run.state)));
        }
        match self.workspace.is_dirty(replies) {
            GitStep::Run(c) => {
                return StartStep::Git(c);
            },
            GitStep::Done(Err(e)) => {
                return StartStep::Done(Err(RunError::Workspace(e)));
            },
            GitStep::Done(Ok(dirty)) => {
                if dirty {
                    return StartStep::Done(Err(RunError::DirtyTree));
                }
            },
        }
        if self.config.git_mode == GitMode::Branch {
            if replies.len() == 1 {
                return StartStep::Git(GitCommand::CurrentBranch);
            }
            match self.workspace.current_branch(&only(replies, 1)) {
                GitStep::Run(c) => {
                    return StartStep::Git(c);
                },
                GitStep::Done(Err(e)) => {
                    return StartStep::Done(Err(RunError::Workspace(e)));
                },
                GitStep::Done(Ok(branch)) => {
                    self.run.original_branch = Some(branch);
                },
            }
            let mut workspace = WorkspaceManager::new(
                self.repo_path.as_str(),
                self.config.git_mode,
            );
            let rest = if replies.len() == 2 {
                Vec::new()
            } else {
                only(replies, 2)
            };
            match workspace.create_branch(self.run.run_id.as_str(), &rest) {
                GitStep::Run(c) => {
                    return StartStep::Git(c);
                },
                GitStep::Done(Err(e)) => {
                    return StartStep::Done(Err(RunError::Workspace(e)));
                },
                GitStep::Done(Ok(_)) => {},
            }
            self.run.run_branch = clone_opt_string(&workspace.run_branch);
            self.workspace = workspace;
        }
        self.run.state = RunState::Running;
        let event = EventKind::RunStarted {
            run_id: self.run.run_id.clone(),
            git_mode: owned(self.config.git_mode.name()),
            task_count: self.tasks.tasks.len(),
        };
        StartStep::Done(Ok(two_effects(event, self.run.clone())))
    }

    /// Pause the run.
    pub fn pause(&mut self) -> (r: Result<Vec<Effect>, RunError>)
        ensures
            old(self).wf() ==> final(self).wf(),
            gives(r, old(self)@, final(self)@, paused(old(self)@)),
    {
        if self.run.state != RunState::Running {
            return Err(RunError::CannotPause(self.run.state));
        }
        self.run.state = RunState::Paused;
        Ok(two_effects(EventKind::RunPaused { run_id: self.run.run_id.clone() }, self.run.clone()))
    }

    /// Resume a paused run.
    pub fn resume(&mut self) -> (r: Result<Vec<Effect>, RunError>)
        ensures
            old(self).wf() ==> final(self).wf(),
            gives(r, old(self)@, final(self)@, resumed(old(self)@)),
    {
        if self.run.state != RunState::Paused {
            return Err(RunError::CannotResume(self.run.state));
        }
        self.run.state = RunState::Running;
        Ok(two_effects(EventKind::RunResumed { run_id: self.run.run_id.clone() }, self.run.clone()))
    }

    /// Abort the run.
    pub fn abort(&mut self, reason: &str) -> (r: Result<Vec<Effect>, RunError>)
        ensures
            old(self).wf() ==> final(self).wf(),
            exists|now: u64|
                gives(r, old(self)@, final(self)@, #[trigger] aborted(old(self)@, reason@, now)),
    {
        let now = now_ms();
        let r = self.abort_at(reason, now);
        assert(gives(r, old(self)@, self@, aborted(old(self)@, reason@, now)));
        r
    }

    /// Abort the run at the given time (Unix ms).
    pub fn abort_at(&mut self, reason: &str, now: u64) -> (r: Result<Vec<Effect>, RunError>)
        ensures
            old(self).wf() ==> final(self).wf(),
            gives(r, old(self)@, final(self)@, aborted(old(self)@, reason@, now)),
    {
        if self.run.state.is_terminal() {
            return Err(RunError::CannotAbort(self.run.state));
        }
        self.run.state = RunState::Aborted;
        self.run.ended_at = Some(now);
        let event = EventKind::RunAborted {
            run_id: self.run.run_id.clone(),
            reason: owned(reason),
        };
        Ok(two_effects(event, self.run.clone()))
    }

    /// Mark the run as completed at the given time (Unix ms).
    pub fn complete(&mut self, now: u64) -> (r: Vec<Effect>)
        ensures
            old(self).wf() ==> final(self).wf(),
            final(self)@ == ended(old(self)@, RunState::Completed, now),
            views(r@) == completion(final(self)@),
    {
        self.run.state = RunState::Completed;
        self.run.ended_at = Some(now);
        let event = EventKind::RunCompleted {
            run_id: self.run.run_id.clone(),
            total_iterations: self.run.iteration,
            tasks_completed: self.tasks.count_by_status(TaskStatus::Done),
        };
        two_effects(event, self.run.clone())
    }

    /// Sets the status of the first task with the given identifier, and tells
    /// the status it had.
    pub fn set_status(&mut self, task_id: &str, status: TaskStatus) -> (r: Option<TaskStatus>)
        ensures
            old(self).wf() ==> final(self).wf(),
            match id_index(old(self)@.tasks.tasks, task_id@, 0) {
                Some(i) => r == Some(old(self)@.tasks.tasks[i].status) && final(self)@ == (
                EngineView { tasks: with_status(old(self)@.tasks, i, status), ..old(self)@ }),
                None => r is None && final(self)@ == old(self)@,
            },
    {
        proof {
            lemma_id_index(self@.tasks.tasks, task_id@, 0);
        }
        let ghost found = id_index(self@.tasks.tasks, task_id@, 0);
        match self.tasks.get_mut(task_id) {
            Some(t) => {
                let old_status = t.status;
                t.status = status;
                assert(views(self.tasks.tasks@) =~= with_status(
                    old(self)@.tasks,
                    found->0,
                    status,
                ).tasks);
                Some(old_status)
            },
            None => None,
        }
    }

    /// Update a task's status and emit an event. What is left to do once that
    /// is logged and saved is up to `finish_task_update`.
    pub fn update_task_status(&mut self, task_id: &str, new_status: TaskStatus) -> (r: Result<
        Vec<Effect>,
        RunError,
    >)
        ensures
            old(self).wf() ==> final(self).wf(),
            gives(
                r,
                old(self)@,
                final(self)@,
                status_updated(old(self)@, task_id@, new_status),
            ),
    {
        match self.set_status(task_id, new_status) {
            Some(old_status) => {
                let event = EventKind::TaskStatusChanged {
                    run_id: self.run.run_id.clone(),
                    task_id: owned(task_id),
                    old_status,
                    new_status,
                };
                let r = vec![Effect::Emit(event), Effect::SaveTasks(self.tasks.clone())];
                assert(views(r@) =~= seq![
                    EffectView::Emit(event@),
                    EffectView::SaveTasks(self.tasks@),
                ]);
                Ok(r)
            },
            None => Err(RunError::TaskNotFound),
        }
    }

    /// Completes a running run at the given time if all tasks are done. Whoever
    /// sets the status of a task by hand vouches for it: neither validators nor
    /// policy are consulted here.
    pub fn finish_task_update(&mut self, now: u64) -> (r: Vec<Effect>)
        ensures
            old(self).wf() ==> final(self).wf(),
            (final(self)@, views(r@)) == update_finished(old(self)@, now),
    {
        if self.tasks.is_complete() && self.run.state == RunState::Running {
            self.complete(now)
        } else {
            let effects: Vec<Effect> = Vec::new();
            assert(views(effects@) =~= Seq::empty());
            effects
        }
    }

    /// Create a checkpoint commit for the current iteration, given the replies
    /// to the git commands that were issued so far.
    pub fn checkpoint(&mut self, task_id: &str, task_title: &str, replies: &Vec<GitReply>) -> (r:
        CheckpointStep)
        ensures
            old(self).wf() ==> final(self).wf(),
            (final(self)@, r@) == checkpoint_on(old(self)@, task_id@, task_title@, replies@),
    {
        match self.workspace.checkpoint(self.run.iteration, task_id, task_title, replies) {
            GitStep::Run(command) => CheckpointStep::Git(command),
            GitStep::Done(Err(error)) => CheckpointStep::Failed(RunError::Workspace(error)),
            GitStep::Done(Ok(sha)) => {
                let effects = self.record_checkpoint(sha.as_str());
                CheckpointStep::Created(sha, effects)
            },
        }
    }

    /// Notes a checkpoint commit of the current iteration.
    pub fn record_checkpoint(&mut self, sha: &str) -> (r: Vec<Effect>)
        ensures
            old(self).wf() ==> final(self).wf(),
            final(self)@ == checkpointed(old(self)@, sha@),
            views(r@) == checkpoint_effects(final(self)@, sha@),
    {
        self.run.last_checkpoint = Some(owned(sha));
        let event = EventKind::CheckpointCreated {
            run_id: self.run.run_id.clone(),
            iteration: self.run.iteration,
            commit_sha: owned(sha),
        };
        two_effects(event, self.run.clone())
    }

    /// Skips the current task: it is marked as blocked, with the reason as its
    /// note where it has none, and the run has no current task any more. Tells which task was
    /// skipped, if there was one.
    pub fn skip_task(&mut self, reason: &str) -> (r: Option<(String, Vec<Effect>)>)
        ensures
            old(self).wf() ==> final(self).wf(),
            match skipped(old(self)@, reason@) {
                Some((engine, id, effects)) => r matches Some(p) && p.0@ == id && views(p.1@)
                    == effects && final(self)@ == engine,
                None => r is None && final(self)@ == old(self)@,
            },
    {
        proof {
            crate::task::lemma_status_index(self@.tasks.tasks, TaskStatus::InProgress, 0);
            crate::task::lemma_status_index(self@.tasks.tasks, TaskStatus::Todo, 0);
        }
        let ghost before = self@;
        let i = match self.tasks.current_task_index() {
            Some(i) => i,
            None => {
                return None;
            },
        };
        assert(self@.tasks.tasks[i as int] == self.tasks.tasks@[i as int]@);
        let id = self.tasks.tasks[i].id.clone();
        let old_status = self.tasks.tasks[i].status;
        let task = &mut self.tasks.tasks[i];
        task.status = TaskStatus::Blocked;
        if task.notes.is_none() {
            task.notes = Some(owned(reason));
        }
        self.run.current_task_id = None;
        let event = EventKind::TaskStatusChanged {
            run_id: self.run.run_id.clone(),
            task_id: id.clone(),
            old_status,
            new_status: TaskStatus::Blocked,
        };
        let effects = vec![
            Effect::SaveTasks(self.tasks.clone()),
            Effect::Emit(event),
            Effect::SaveRun(self.run.clone()),
        ];
        proof {
            let (engine, _, expected) = skipped(before, reason@)->0;
            assert(self@.tasks.tasks =~= engine.tasks.tasks);
            assert(views(effects@) =~= expected);
        }
        Some((id, effects))
    }
}

/// The reply at index `i`, by itself.
fn only(replies: &Vec<GitReply>, i: usize) -> (r: Vec<GitReply>)
    requires
        i < replies@.len(),
    ensures
        r@.len() == 1,
        same_reply(r@[0], replies@[i as int]),
{
    vec![copy_reply(&replies[i])]
}

/// Whether two replies say the same.
pub open spec fn same_reply(a: GitReply, b: GitReply) -> bool {
    match (a, b) {
        (GitReply::NotRun, GitReply::NotRun) => true,
        (
            GitReply::Ran { success: s, stdout: o, stderr: e },
            GitReply::Ran { success: s2, stdout: o2, stderr: e2 },
        ) => s == s2 && o@ == o2@ && e@ == e2@,
        _ => false,
    }
}

fn copy_reply(reply: &GitReply) -> (r: GitReply)
    ensures
        same_reply(r, *reply),
{
    match reply {
        GitReply::NotRun => GitReply::NotRun,
        GitReply::Ran { success, stdout, stderr } => GitReply::Ran {
            success: *success,
            stdout: stdout.clone(),
            stderr: stderr.clone(),
        },
    }
}

/// What updating the status of a task gives.
pub open spec fn status_updated(e: EngineView, task_id: Seq<char>, new_status: TaskStatus) -> Result<
    (EngineView, Seq<EffectView>),
    RunErrorView,
> {
    match id_index(e.tasks.tasks, task_id, 0) {
        Some(i) => {
            let tasks = with_status(e.tasks, i, new_status);
            Ok(
                (
                    EngineView { tasks, ..e },
                    seq![
                        EffectView::Emit(
                            status_event(e, task_id, e.tasks.tasks[i].status, new_status),
                        ),
                        EffectView::SaveTasks(tasks),
                    ],
                ),
            )
        },
        None => Err(RunErrorView::TaskNotFound),
    }
}

/// The next step of a checkpoint: a git command to run, or the outcome.
#[derive(Debug)]
pub enum CheckpointStep {
    Git(GitCommand),
    Failed(RunError),
    /// The commit was made, with this SHA; the effects are to follow.
    Created(String, Vec<Effect>),
}

/// What the next step of a checkpoint says.
#[verifier::ext_equal]
pub enum CheckpointView {
    Git(GitCommandView),
    Failed(RunErrorView),
    Created(Seq<char>, Seq<EffectView>),
}

impl View for CheckpointStep {
    type V = CheckpointView;

    open spec fn view(&self) -> CheckpointView {
        match *self {
            CheckpointStep::Git(c) => CheckpointView::Git(c@),
            CheckpointStep::Failed(e) => CheckpointView::Failed(e@),
            CheckpointStep::Created(sha, effects) => CheckpointView::Created(
                sha@,
                views(effects@),
            ),
        }
    }
}

/// The failure of a checkpoint for what git replied to a command.
pub open spec fn checkpoint_failed(e: EngineView, command: GitCommandView, reply: GitReply) -> (
    EngineView,
    CheckpointView,
) {
    (e, CheckpointView::Failed(RunErrorView::Workspace(reply_error(command, reply)->0)))
}

/// How a checkpoint goes on after the given replies: all changes are staged,
/// and where there are any, committed. The run notes the commit once it is made.
pub open spec fn checkpoint_on(
    e: EngineView,
    task_id: Seq<char>,
    task_title: Seq<char>,
    replies: Seq<GitReply>,
) -> (EngineView, CheckpointView) {
    let commit = GitCommandView::Commit(
        checkpoint_message(e.run.iteration, task_id, task_title),
    );
    if replies.len() == 0 {
        (e, CheckpointView::Git(GitCommandView::AddAll))
    } else if reply_error(GitCommandView::AddAll, replies[0]) is Some {
        checkpoint_failed(e, GitCommandView::AddAll, replies[0])
    } else if replies.len() == 1 {
        (e, CheckpointView::Git(GitCommandView::Status))
    } else if reply_error(GitCommandView::Status, replies[1]) is Some {
        checkpoint_failed(e, GitCommandView::Status, replies[1])
    } else if trim(output_of(replies[1])).len() == 0 {
        (
            e,
            CheckpointView::Failed(RunErrorView::Workspace(WorkspaceErrorView::NothingToCommit)),
        )
    } else if replies.len() == 2 {
        (e, CheckpointView::Git(commit))
    } else if reply_error(commit, replies[2]) is Some {
        checkpoint_failed(e, commit, replies[2])
    } else if replies.len() == 3 {
        (e, CheckpointView::Git(GitCommandView::HeadSha))
    } else if reply_error(GitCommandView::HeadSha, replies[3]) is Some {
        checkpoint_failed(e, GitCommandView::HeadSha, replies[3])
    } else {
        let sha = trim(output_of(replies[3]));
        let next = checkpointed(e, sha);
        (next, CheckpointView::Created(sha, checkpoint_effects(next, sha)))
    }
}

/// The engine after a checkpoint commit.
pub open spec fn checkpointed(e: EngineView, sha: Seq<char>) -> EngineView {
    EngineView { run: RunView { last_checkpoint: Some(sha), ..e.run }, ..e }
}

/// The effects that follow a checkpoint commit.
pub open spec fn checkpoint_effects(e: EngineView, sha: Seq<char>) -> Seq<EffectView> {
    log_and_save(
        EventView::CheckpointCreated {
            run_id: e.run.run_id,
            iteration: e.run.iteration,
            commit_sha: sha,
        },
        e.run,
    )
}

/// What is left to do once the status of a task was set: a running run whose
/// tasks are all done is completed.
pub open spec fn update_finished(e: EngineView, now: u64) -> (EngineView, Seq<EffectView>) {
    if all_done(e.tasks.tasks) && e.run.state == RunState::Running {
        let next = ended(e, RunState::Completed, now);
        (next, completion(next))
    } else {
        (e, Seq::empty())
    }
}

/// The notes of a task that is skipped: its own, or else the reason.
pub open spec fn kept_notes(notes: Option<Seq<char>>, reason: Seq<char>) -> Option<Seq<char>> {
    match notes {
        Some(n) => Some(n),
        None => Some(reason),
    }
}

/// What skipping the current task gives: the engine, the task's identifier and
/// the effects that follow.
pub open spec fn skipped(e: EngineView, reason: Seq<char>) -> Option<
    (EngineView, Seq<char>, Seq<EffectView>),
> {
    match crate::task::current_index(e.tasks.tasks) {
        Some(i) => {
            let task = e.tasks.tasks[i];
            let tasks = TaskListView {
                tasks: e.tasks.tasks.update(
                    i,
                    TaskView {
                        status: TaskStatus::Blocked,
                        notes: kept_notes(task.notes, reason),
                        ..task
                    },
                ),
                ..e.tasks
            };
            let run = RunView { current_task_id: None, ..e.run };
            Some(
                (
                    EngineView { tasks, run, ..e },
                    task.id,
                    seq![
                        EffectView::SaveTasks(tasks),
                        EffectView::Emit(
                            status_event(e, task.id, task.status, TaskStatus::Blocked),
                        ),
                        EffectView::SaveRun(run),
                    ],
                ),
            )
        },
        None => None,
    }
}

// ------------------------------------------------------------------------ laws

/// Whether a run has a time of end exactly where it has ended.
pub open spec fn timed(run: RunView) -> bool {
    terminal(run.state) <==> run.ended_at is Some
}

/// A fresh run has not ended, and whatever is done to a run, it has a time of
/// end exactly where it has ended.
pub proof fn law_ended_runs_are_timed(
    e: EngineView,
    run_id: Seq<char>,
    mode: GitMode,
    replies: Seq<GitReply>,
    reason: Seq<char>,
    now: u64,
)
    ensures
        timed(fresh_run(run_id, mode, now)),
        timed(e.run) ==> {
            &&& timed(start_step(e, replies).0.run)
            &&& paused(e) matches Ok(p) ==> timed(p.0.run)
            &&& resumed(e) matches Ok(p) ==> timed(p.0.run)
            &&& aborted(e, reason, now) matches Ok(p) ==> timed(p.0.run)
            &&& skipped(e, reason) matches Some(p) ==> timed(p.0.run)
            &&& timed(ended(e, RunState::Completed, now).run)
        },
{
}

/// Pausing, resuming, aborting and skipping are recorded in the event log, each
/// under the run's identifier.
pub proof fn law_actions_are_recorded(e: EngineView, reason: Seq<char>, now: u64)
    ensures
        paused(e) matches Ok(p) ==> p.1.contains(
            EffectView::Emit(EventView::RunPaused { run_id: e.run.run_id }),
        ),
        resumed(e) matches Ok(p) ==> p.1.contains(
            EffectView::Emit(EventView::RunResumed { run_id: e.run.run_id }),
        ),
        aborted(e, reason, now) matches Ok(p) ==> p.1.contains(
            EffectView::Emit(EventView::RunAborted { run_id: e.run.run_id, reason }),
        ),
        skipped(e, reason) matches Some(p) ==> exists|old_status: TaskStatus|
            p.2.contains(
                EffectView::Emit(#[trigger] status_event(e, p.1, old_status, TaskStatus::Blocked)),
            ),
{
    if paused(e) is Ok {
        assert(paused(e)->Ok_0.1[0] is Emit);
    }
    if resumed(e) is Ok {
        assert(resumed(e)->Ok_0.1[0] is Emit);
    }
    if aborted(e, reason, now) is Ok {
        assert(aborted(e, reason, now)->Ok_0.1[0] is Emit);
    }
    match skipped(e, reason) {
        Some((_, id, effects)) => {
            let i = crate::task::current_index(e.tasks.tasks)->0;
            let old_status = e.tasks.tasks[i].status;
            assert(effects[1] == EffectView::Emit(
                status_event(e, id, old_status, TaskStatus::Blocked),
            ));
        },
        None => {},
    }
}

/// Setting the status of a task completes a run exactly where the run is running
/// and all tasks are done, and never otherwise changes its state.
pub proof fn law_update_completes_done_runs(e: EngineView, now: u64)
    ensures
        ({
            let next = update_finished(e, now).0;
            &&& e.run.state != RunState::Completed ==> (next.run.state == RunState::Completed
                <==> all_done(e.tasks.tasks) && e.run.state == RunState::Running)
            &&& next.run.state == RunState::Completed || next == e
            &&& terminal(e.run.state) ==> next == e
        }),
{
}

/// A skipped task is blocked, and the next one to work on is another.
pub proof fn law_skipped_task_is_left(e: EngineView, reason: Seq<char>)
    ensures
        match skipped(e, reason) {
            Some(p) => {
                let i = crate::task::current_index(e.tasks.tasks)->0;
                &&& p.0.tasks.tasks[i].status == TaskStatus::Blocked
                &&& p.0.tasks.tasks[i].notes == kept_notes(e.tasks.tasks[i].notes, reason)
                &&& p.0.run.current_task_id is None
                &&& crate::task::current_index(p.0.tasks.tasks) != Some(i)
                &&& forall|k: int|
                    0 <= k < e.tasks.tasks.len() && k != i ==> #[trigger] p.0.tasks.tasks[k]
                        == e.tasks.tasks[k]
            },
            None => crate::task::current_index(e.tasks.tasks) is None,
        },
{
    crate::task::law_current_task_is_open(e.tasks.tasks);
    match skipped(e, reason) {
        Some(p) => {
            crate::task::law_current_task_is_open(p.0.tasks.tasks);
        },
        None => {},
    }
}

/// Pausing a running run and resuming it gives the run back as it was.
pub proof fn law_pause_then_resume(e: EngineView)
    requires
        e.run.state == RunState::Running,
    ensures
        paused(e) is Ok,
        resumed(paused(e)->Ok_0.0) is Ok,
        resumed(paused(e)->Ok_0.0)->Ok_0.0 == e,
{
}

/// A run that has ended can be neither started, paused, resumed nor aborted.
pub proof fn law_ended_runs_stay_ended(
    e: EngineView,
    replies: Seq<GitReply>,
    reason: Seq<char>,
    now: u64,
)
    requires
        terminal(e.run.state),
    ensures
        start_step(e, replies) == (
            e,
            StartView::Failed(RunErrorView::CannotStart(e.run.state)),
        ),
        paused(e) is Err,
        resumed(e) is Err,
        aborted(e, reason, now) is Err,
{
}

/// A run starts only over a clean tree, and in branch mode only on the branch
/// that was made for it.
pub proof fn law_start_needs_clean_tree(e: EngineView, replies: Seq<GitReply>)
    requires
        start_step(e, replies).1 is Started,
    ensures
        e.run.state == RunState::Idle,
        replies.len() > 0,
        reply_error(GitCommandView::Status, replies[0]) is None,
        trim(output_of(replies[0])).len() == 0,
        start_step(e, replies).0.run.state == RunState::Running,
        e.config.git_mode == GitMode::Branch ==> start_step(e, replies).0.run.run_branch == Some(
            branch_name(e.run.run_id),
        ) && start_step(e, replies).0.run.original_branch is Some,
        e.config.git_mode == GitMode::Trunk ==> start_step(e, replies).0.run.run_branch
            == e.run.run_branch,
{
}

/// In trunk mode no branch is asked for or created.
pub proof fn law_trunk_mode_has_no_branch(e: EngineView, replies: Seq<GitReply>)
    requires
        e.config.git_mode == GitMode::Trunk,
    ensures
        !(start_step(e, replies).1 matches StartView::Git(c) && c !is Status),
        start_step(e, replies).0.workspace_branch == e.workspace_branch,
{
}

/// An aborted run has its time of end and is saved as it then is.
pub proof fn law_abort_ends_run(e: EngineView, reason: Seq<char>, now: u64)
    requires
        !terminal(e.run.state),
    ensures
        aborted(e, reason, now) matches Ok(p) && p.0.run.state == RunState::Aborted
            && p.0.run.ended_at == Some(now) && p.1.last() == EffectView::SaveRun(p.0.run),
{
}

/// Whatever pauses, resumes or aborts a run saves the run that it leaves.
pub proof fn law_saved_run_is_current(e: EngineView, reason: Seq<char>, now: u64)
    ensures
        paused(e) matches Ok(p) ==> p.1.last() == EffectView::SaveRun(p.0.run),
        resumed(e) matches Ok(p) ==> p.1.last() == EffectView::SaveRun(p.0.run),
        aborted(e, reason, now) matches Ok(p) ==> p.1.last() == EffectView::SaveRun(p.0.run),
{
}

// --------------------------------------------------------- what the operations do

/// Pausing is for running runs, resuming for paused ones, and aborting for those
/// that have not ended. Each changes the state, is logged and saves the run; what
/// is not allowed is an error that names the state.
pub proof fn law_operations_change_the_state(e: EngineView, reason: Seq<char>, now: u64)
    ensures
        e.run.state == RunState::Running ==> paused(e) == Ok::<_, RunErrorView>(
            (
                EngineView { run: RunView { state: RunState::Paused, ..e.run }, ..e },
                seq![
                    EffectView::Emit(EventView::RunPaused { run_id: e.run.run_id }),
                    EffectView::SaveRun(RunView { state: RunState::Paused, ..e.run }),
                ],
            ),
        ),
        e.run.state != RunState::Running ==> paused(e) == Err::<(EngineView, Seq<EffectView>), _>(
            RunErrorView::CannotPause(e.run.state),
        ),
        e.run.state == RunState::Paused ==> resumed(e) == Ok::<_, RunErrorView>(
            (
                EngineView { run: RunView { state: RunState::Running, ..e.run }, ..e },
                seq![
                    EffectView::Emit(EventView::RunResumed { run_id: e.run.run_id }),
                    EffectView::SaveRun(RunView { state: RunState::Running, ..e.run }),
                ],
            ),
        ),
        e.run.state != RunState::Paused ==> resumed(e) == Err::<(EngineView, Seq<EffectView>), _>(
            RunErrorView::CannotResume(e.run.state),
        ),
        e.run.state != RunState::Completed && e.run.state != RunState::Aborted ==> aborted(
            e,
            reason,
            now,
        ) == Ok::<_, RunErrorView>(
            (
                EngineView {
                    run: RunView { state: RunState::Aborted, ended_at: Some(now), ..e.run },
                    ..e
                },
                seq![
                    EffectView::Emit(EventView::RunAborted { run_id: e.run.run_id, reason }),
                    EffectView::SaveRun(
                        RunView { state: RunState::Aborted, ended_at: Some(now), ..e.run },
                    ),
                ],
            ),
        ),
        e.run.state == RunState::Completed || e.run.state == RunState::Aborted ==> aborted(
            e,
            reason,
            now,
        ) == Err::<(EngineView, Seq<EffectView>), _>(RunErrorView::CannotAbort(e.run.state)),
{
}

/// Whether git ran and reported success, and what it wrote.
pub open spec fn wrote(reply: GitReply, text: Seq<char>) -> bool {
    reply matches GitReply::Ran { success, stdout, .. } && success && stdout@ == text
}

/// An idle run on a clean tree starts on a branch of its own: git is asked for
/// the tree, for the current branch, and to create the new one. The run notes
/// both branches, runs, and that is logged and saved.
pub proof fn law_run_starts_on_its_branch(
    e: EngineView,
    replies: Seq<GitReply>,
    tree: Seq<char>,
    branch: Seq<char>,
    out: Seq<char>,
)
    requires
        e.run.state == RunState::Idle,
        e.config.git_mode == GitMode::Branch,
        replies.len() == 3,
        wrote(replies[0], tree),
        trim(tree).len() == 0,
        wrote(replies[1], branch),
        wrote(replies[2], out),
    ensures
        start_step(e, replies.take(0)) == (e, StartView::Git(GitCommandView::Status)),
        start_step(e, replies.take(1)) == (e, StartView::Git(GitCommandView::CurrentBranch)),
        start_step(e, replies.take(2)).1 == StartView::Git(
            GitCommandView::CheckoutNew("ralpher/"@ + e.run.run_id),
        ),
        ({
            let run = RunView {
                state: RunState::Running,
                original_branch: Some(trim(branch)),
                run_branch: Some("ralpher/"@ + e.run.run_id),
                ..e.run
            };
            start_step(e, replies) == (
                EngineView {
                    run,
                    workspace_branch: Some("ralpher/"@ + e.run.run_id),
                    ..e
                },
                StartView::Started(
                    seq![
                        EffectView::Emit(
                            EventView::RunStarted {
                                run_id: e.run.run_id,
                                git_mode: "branch"@,
                                task_count: e.tasks.tasks.len(),
                            },
                        ),
                        EffectView::SaveRun(run),
                    ],
                ),
            )
        }),
{
}

/// In trunk mode an idle run on a clean tree starts where it is.
pub proof fn law_run_starts_on_trunk(e: EngineView, replies: Seq<GitReply>, tree: Seq<char>)
    requires
        e.run.state == RunState::Idle,
        e.config.git_mode == GitMode::Trunk,
        replies.len() == 1,
        wrote(replies[0], tree),
        trim(tree).len() == 0,
    ensures
        start_step(e, Seq::empty()) == (e, StartView::Git(GitCommandView::Status)),
        ({
            let run = RunView { state: RunState::Running, ..e.run };
            start_step(e, replies) == (
                EngineView { run, ..e },
                StartView::Started(
                    seq![
                        EffectView::Emit(
                            EventView::RunStarted {
                                run_id: e.run.run_id,
                                git_mode: "trunk"@,
                                task_count: e.tasks.tasks.len(),
                            },
                        ),
                        EffectView::SaveRun(run),
                    ],
                ),
            )
        }),
{
}

/// A run that is not idle is not started, nor one over a tree with changes, and
/// nothing changes then.
pub proof fn law_start_is_refused(e: EngineView, replies: Seq<GitReply>, tree: Seq<char>)
    ensures
        e.run.state != RunState::Idle ==> start_step(e, replies) == (
            e,
            StartView::Failed(RunErrorView::CannotStart(e.run.state)),
        ),
        e.run.state == RunState::Idle && replies.len() > 0 && wrote(replies[0], tree) && trim(
            tree,
        ).len() > 0 ==> start_step(e, replies) == (e, StartView::Failed(RunErrorView::DirtyTree)),
        e.run.state == RunState::Idle && replies.len() > 0 && !(replies[0] matches GitReply::Ran {
            success,
            ..
        } && success) ==> start_step(e, replies).0 == e && start_step(e, replies).1 is Failed,
{
}

/// A checkpoint stages everything, looks whether there is anything to commit,
/// commits it under a message that names iteration and task, and asks for the
/// commit, which the run notes.
pub proof fn law_checkpoint_goes_in_order(
    e: EngineView,
    id: Seq<char>,
    title: Seq<char>,
    replies: Seq<GitReply>,
    tree: Seq<char>,
    sha: Seq<char>,
)
    requires
        replies.len() == 4,
        forall|k: int| 0 <= k < 4 ==> (#[trigger] replies[k] matches GitReply::Ran { success, .. }
            && success),
        wrote(replies[1], tree),
        wrote(replies[3], sha),
    ensures
        checkpoint_on(e, id, title, replies.take(0)) == (
            e,
            CheckpointView::Git(GitCommandView::AddAll),
        ),
        checkpoint_on(e, id, title, replies.take(1)) == (
            e,
            CheckpointView::Git(GitCommandView::Status),
        ),
        trim(tree).len() == 0 ==> checkpoint_on(e, id, title, replies.take(2)).0 == e
            && checkpoint_on(e, id, title, replies.take(2)).1 is Failed,
        trim(tree).len() > 0 ==> checkpoint_on(e, id, title, replies.take(2)) == (
            e,
            CheckpointView::Git(
                GitCommandView::Commit(
                    "ralpher: it"@ + decimal(e.run.iteration as nat) + " task "@ + id + " - "@
                        + title,
                ),
            ),
        ) && checkpoint_on(e, id, title, replies.take(3)) == (
            e,
            CheckpointView::Git(GitCommandView::HeadSha),
        ) && checkpoint_on(e, id, title, replies).0 == (EngineView {
            run: RunView { last_checkpoint: Some(trim(sha)), ..e.run },
            ..e
        }),
{
    assert(replies[0] is Ran && replies[2] is Ran);
    assert(replies.take(1)[0] == replies[0]);
    assert(replies.take(2)[0] == replies[0] && replies.take(2)[1] == replies[1]);
    assert(replies.take(3)[0] == replies[0] && replies.take(3)[1] == replies[1]
        && replies.take(3)[2] == replies[2]);
}

/// Setting the status of a task changes that task's status and nothing else. It
/// is logged, and the list saved. An unknown task is an error.
pub proof fn law_status_is_set(e: EngineView, id: Seq<char>, status: TaskStatus, i: int)
    requires
        0 <= i < e.tasks.tasks.len(),
        e.tasks.tasks[i].id == id,
        forall|k: int| 0 <= k < i ==> (#[trigger] e.tasks.tasks[k]).id != id,
    ensures
        ({
            let task = e.tasks.tasks[i];
            let tasks = TaskListView {
                tasks: e.tasks.tasks.update(i, TaskView { status, ..task }),
                ..e.tasks
            };
            status_updated(e, id, status) == Ok::<_, RunErrorView>(
                (
                    EngineView { tasks, ..e },
                    seq![
                        EffectView::Emit(
                            EventView::TaskStatusChanged {
                                run_id: e.run.run_id,
                                task_id: id,
                                old_status: task.status,
                                new_status: status,
                            },
                        ),
                        EffectView::SaveTasks(tasks),
                    ],
                ),
            )
        }),
{
    crate::task::lemma_id_index(e.tasks.tasks, id, 0);
}

/// Skipping saves the list and the run, and logs the change of status. What the
/// task says is kept, but that the reason is noted where it has no notes.
pub proof fn law_skip_is_recorded(e: EngineView, reason: Seq<char>, i: int)
    requires
        crate::task::current_index(e.tasks.tasks) == Some(i),
    ensures
        skipped(e, reason) matches Some(p) && {
            let before = e.tasks.tasks[i];
            let after = p.0.tasks.tasks[i];
            &&& p.1 == before.id
            &&& after.id == before.id && after.title == before.title && after.acceptance
                == before.acceptance && after.validators == before.validators
            &&& before.notes is Some ==> after.notes == before.notes
            &&& before.notes is None ==> after.notes == Some(reason)
            &&& p.0 == (EngineView {
                tasks: p.0.tasks,
                run: RunView { current_task_id: None, ..e.run },
                ..e
            })
            &&& p.2 == seq![
                EffectView::SaveTasks(p.0.tasks),
                EffectView::Emit(
                    EventView::TaskStatusChanged {
                        run_id: e.run.run_id,
                        task_id: before.id,
                        old_status: before.status,
                        new_status: TaskStatus::Blocked,
                    },
                ),
                EffectView::SaveRun(p.0.run),
            ]
        },
{
    crate::task::law_current_task_is_open(e.tasks.tasks);
}

/// A fresh run is idle, at its beginning, and has neither branches nor commits.
pub proof fn law_fresh_run_is_idle(id: Seq<char>, mode: GitMode, now: u64)
    ensures
        ({
            let run = fresh_run(id, mode, now);
            &&& run.run_id == id && run.git_mode == mode && run.started_at == now
            &&& run.state == RunState::Idle && run.iteration == 0
            &&& run.current_task_id is None && run.ended_at is None
            &&& run.original_branch is None && run.run_branch is None && run.last_checkpoint is None
        }),
{
}

/// An engine takes up a run with its tasks and configuration, whose policy it
/// applies, and has no branch yet.
pub proof fn law_engine_is_taken_up(
    repo_path: Seq<char>,
    run: RunView,
    config: ConfigView,
    tasks: TaskListView,
)
    ensures
        ({
            let e = engine_of(repo_path, run, config, tasks);
            &&& e.repo_path == repo_path && e.run == run && e.config == config && e.tasks == tasks
            &&& e.policy == config.policy
            &&& e.workspace_branch is None
        }),
{
}

/// The files of a run lie in its directory, and those of an iteration in one of
/// their own.
pub proof fn law_files_of_a_run(repo_path: Seq<char>, name: Seq<char>, iteration: u32)
    ensures
        ralpher_path(repo_path, name) == join_path(join_path(repo_path, ".ralpher"@), name),
        iteration_path(repo_path, iteration) == join_path(
            join_path(join_path(repo_path, ".ralpher"@), "iterations"@),
            decimal(iteration as nat),
        ),
{
}

} // verus!
