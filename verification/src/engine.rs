//! The operations of the command line on a run.
//!
//! Each takes what was loaded from disk and says what is to be done, or why
//! nothing can be done.

use vstd::prelude::*;

use crate::config::{Config, ConfigView};
use crate::event::{run_id, ValidatorStatus};
use crate::run::{
    engine_of, fresh_run, paused, resumed, skipped, state_name, terminal, Effect, EngineView, Run,
    RunEngine, RunState, RunView, ValidationResults, ValidatorView,
};
use crate::task::{status_count, TaskList, TaskListView, TaskStatus};
use crate::text::{opt_view, owned, views};

verus! {

/// Why an operation of the command line failed.
#[derive(Debug)]
pub enum EngineError {
    /// There is no run to iterate.
    NoRun,
    /// The run to iterate is completed.
    RunCompleted,
    /// The run to iterate was aborted.
    RunAborted,
    /// A run is in progress where a new one was asked for.
    InProgress { run_id: String, state: RunState },
    /// There is no run to pause.
    NothingToPause,
    /// The run to pause is not running.
    NotRunning(RunState),
    /// There is no run to resume.
    NothingToResume,
    /// The run to resume is not paused.
    NotPaused(RunState),
    /// There is no configuration in the current directory.
    NoConfig,
    /// There is no run to abort.
    NothingToAbort,
    /// There is no run whose task could be skipped.
    NothingToSkip,
    /// Some validators failed.
    ValidatorsFailed,
    /// The run whose files are to be removed has not ended.
    StillActive { run_id: String, state: RunState },
}

/// What such an error says.
#[verifier::ext_equal]
pub enum EngineErrorView {
    NoRun,
    RunCompleted,
    RunAborted,
    InProgress { run_id: Seq<char>, state: RunState },
    NothingToPause,
    NotRunning(RunState),
    NothingToResume,
    NotPaused(RunState),
    NoConfig,
    NothingToAbort,
    NothingToSkip,
    ValidatorsFailed,
    StillActive { run_id: Seq<char>, state: RunState },
}

impl View for EngineError {
    type V = EngineErrorView;

    open spec fn view(&self) -> EngineErrorView {
        match *self {
            EngineError::NoRun => EngineErrorView::NoRun,
            EngineError::RunCompleted => EngineErrorView::RunCompleted,
            EngineError::RunAborted => EngineErrorView::RunAborted,
            EngineError::InProgress { run_id, state } => EngineErrorView::InProgress {
                run_id: run_id@,
                state,
            },
            EngineError::NothingToPause => EngineErrorView::NothingToPause,
            EngineError::NotRunning(s) => EngineErrorView::NotRunning(s),
            EngineError::NothingToResume => EngineErrorView::NothingToResume,
            EngineError::NotPaused(s) => EngineErrorView::NotPaused(s),
            EngineError::NoConfig => EngineErrorView::NoConfig,
            EngineError::NothingToAbort => EngineErrorView::NothingToAbort,
            EngineError::NothingToSkip => EngineErrorView::NothingToSkip,
            EngineError::ValidatorsFailed => EngineErrorView::ValidatorsFailed,
            EngineError::StillActive { run_id, state } => EngineErrorView::StillActive {
                run_id: run_id@,
                state,
            },
        }
    }
}

/// The message of such an error.
pub open spec fn engine_message(e: EngineErrorView) -> Seq<char> {
    match e {
        EngineErrorView::NoRun => "No active run found. Use --start to begin a new run."@,
        EngineErrorView::RunCompleted =>
        "Run is already completed. Use --clean then --start for a new run."@,
        EngineErrorView::RunAborted =>
        "Run was aborted. Use --clean then --start for a new run."@,
        EngineErrorView::InProgress { run_id, state } => "Run "@ + run_id
            + " is already in progress (state: "@ + state_name(state) + "). Use --abort first."@,
        EngineErrorView::NothingToPause => "No active run to pause."@,
        EngineErrorView::NotRunning(s) => "Cannot pause: run is "@ + state_name(s)
            + ", not Running."@,
        EngineErrorView::NothingToResume => "No active run to resume."@,
        EngineErrorView::NotPaused(s) => "Cannot resume: run is "@ + state_name(s)
            + ", not Paused."@,
        EngineErrorView::NoConfig => "No ralpher.toml found in current directory."@,
        EngineErrorView::NothingToAbort => "No active run to abort."@,
        EngineErrorView::NothingToSkip => "No active run found."@,
        EngineErrorView::ValidatorsFailed => "Some validators failed"@,
        EngineErrorView::StillActive { run_id, state } => "Run "@ + run_id
            + " is still active (state: "@ + state_name(state) + "). Use --abort first."@,
    }
}

impl EngineError {
    /// The message of the error.
    pub fn message(&self) -> (r: String)
        ensures
            r@ == engine_message(self@),
    {
        match self {
            EngineError::NoRun => owned("No active run found. Use --start to begin a new run."),
            EngineError::RunCompleted => owned(
                "Run is already completed. Use --clean then --start for a new run.",
            ),
            EngineError::RunAborted => owned(
                "Run was aborted. Use --clean then --start for a new run.",
            ),
            EngineError::InProgress { run_id, state } => owned("Run ").concat(
                run_id.as_str(),
            ).concat(" is already in progress (state: ").concat(state.name()).concat(
                "). Use --abort first.",
            ),
            EngineError::NothingToPause => owned("No active run to pause."),
            EngineError::NotRunning(s) => owned("Cannot pause: run is ").concat(s.name()).concat(
                ", not Running.",
            ),
            EngineError::NothingToResume => owned("No active run to resume."),
            EngineError::NotPaused(s) => owned("Cannot resume: run is ").concat(s.name()).concat(
                ", not Paused.",
            ),
            EngineError::NoConfig => owned("No ralpher.toml found in current directory."),
            EngineError::NothingToAbort => owned("No active run to abort."),
            EngineError::NothingToSkip => owned("No active run found."),
            EngineError::ValidatorsFailed => owned("Some validators failed"),
            EngineError::StillActive { run_id, state } => owned("Run ").concat(
                run_id.as_str(),
            ).concat(" is still active (state: ").concat(state.name()).concat(
                "). Use --abort first.",
            ),
        }
    }
}

// ------------------------------------------------------------------ iterations

/// What a run needs before it can be iterated.
#[derive(Clone, Copy, Debug, PartialEq, Eq, Structural)]
pub enum Preparation {
    /// It is to be started.
    Start,
    /// It is to be resumed.
    Resume,
    /// It is running.
    Nothing,
}

/// What a run needs before it can be iterated, or why it cannot be.
pub open spec fn preparation(run: Option<RunView>) -> Result<Preparation, EngineErrorView> {
    match run {
        None => Err(EngineErrorView::NoRun),
        Some(r) => match r.state {
            RunState::Completed => Err(EngineErrorView::RunCompleted),
            RunState::Aborted => Err(EngineErrorView::RunAborted),
            RunState::Paused => Ok(Preparation::Resume),
            RunState::Idle => Ok(Preparation::Start),
            RunState::Running => Ok(Preparation::Nothing),
        },
    }
}

/// Run a single iteration: tells what the run needs before it can be iterated.
pub fn run_iteration(run: Option<&Run>) -> (r: Result<Preparation, EngineError>)
    ensures
        ({
            let v = match run {
                Some(x) => Some(x@),
                None => None,
            };
            match preparation(v) {
                Ok(p) => r == Ok::<Preparation, EngineError>(p),
                Err(error) => r matches Err(e) && e@ == error,
            }
        }),
{
    match run {
        None => Err(EngineError::NoRun),
        Some(r) => match r.state {
            RunState::Completed => Err(EngineError::RunCompleted),
            RunState::Aborted => Err(EngineError::RunAborted),
            RunState::Paused => Ok(Preparation::Resume),
            RunState::Idle => Ok(Preparation::Start),
            RunState::Running => Ok(Preparation::Nothing),
        },
    }
}

/// A run can be iterated exactly where it has not ended.
pub proof fn law_iterable_iff_not_ended(run: RunView)
    ensures
        preparation(Some(run)) is Ok <==> !terminal(run.state),
{
}

// ------------------------------------------------------------------ operations

/// The engine of a new run in the given directory, whose identifier tells a time.
pub open spec fn is_fresh_engine(
    engine: EngineView,
    repo_path: Seq<char>,
    config: ConfigView,
    tasks: TaskListView,
) -> bool {
    exists|secs: u64, now: u64|
        engine == engine_of(
            repo_path,
            #[trigger] fresh_run(run_id(secs as nat), config.git_mode, now),
            config,
            tasks,
        )
}

/// The view of a run that is lent, where there is one.
pub open spec fn run_view(run: Option<&Run>) -> Option<RunView> {
    match run {
        Some(x) => Some(x@),
        None => None,
    }
}

/// Why a new run cannot be started beside the given one, if it cannot.
pub open spec fn start_refusal(existing: Option<RunView>) -> Option<EngineErrorView> {
    match existing {
        Some(run) if !terminal(run.state) => Some(
            EngineErrorView::InProgress { run_id: run.run_id, state: run.state },
        ),
        _ => None,
    }
}

/// Whether there is a run to abort.
pub open spec fn abort_outcome(has_config: bool, run: Option<RunView>) -> Result<
    bool,
    EngineErrorView,
> {
    if !has_config {
        Err(EngineErrorView::NoConfig)
    } else {
        match run {
            None => Err(EngineErrorView::NothingToAbort),
            Some(x) => Ok(!terminal(x.state)),
        }
    }
}

/// Whether the run's directory is to be removed.
pub open spec fn clean_outcome(has_dir: bool, run: Option<RunView>) -> Result<
    bool,
    EngineErrorView,
> {
    if !has_dir {
        Ok(false)
    } else {
        match run {
            Some(x) if !terminal(x.state) => Err(
                EngineErrorView::StillActive { run_id: x.run_id, state: x.state },
            ),
            _ => Ok(true),
        }
    }
}

/// A run that has not ended stands in the way of a new one and of cleaning up,
/// and can be aborted. One that has ended does not, and is left alone.
pub proof fn law_only_ended_runs_make_way(run: RunView)
    ensures
        ({
            let over = run.state == RunState::Completed || run.state == RunState::Aborted;
            &&& start_refusal(None) is None
            &&& over <==> start_refusal(Some(run)) is None
            &&& !over ==> start_refusal(Some(run)) == Some(
                EngineErrorView::InProgress { run_id: run.run_id, state: run.state },
            )
            &&& clean_outcome(true, None) == Ok::<bool, EngineErrorView>(true)
            &&& over ==> clean_outcome(true, Some(run)) == Ok::<bool, EngineErrorView>(true)
            &&& !over ==> clean_outcome(true, Some(run)) == Err::<bool, EngineErrorView>(
                EngineErrorView::StillActive { run_id: run.run_id, state: run.state },
            )
            &&& clean_outcome(false, Some(run)) == Ok::<bool, EngineErrorView>(false)
            &&& abort_outcome(true, Some(run)) == Ok::<bool, EngineErrorView>(!over)
            &&& abort_outcome(true, None) == Err::<bool, EngineErrorView>(
                EngineErrorView::NothingToAbort,
            )
            &&& abort_outcome(false, Some(run)) == Err::<bool, EngineErrorView>(
                EngineErrorView::NoConfig,
            )
        }),
{
}

/// Before an iteration an idle run is started, a paused one resumed and a
/// running one left alone. One that has ended, or none at all, is an error.
pub proof fn law_runs_are_prepared(run: RunView)
    ensures
        run.state == RunState::Idle ==> preparation(Some(run)) == Ok::<_, EngineErrorView>(
            Preparation::Start,
        ),
        run.state == RunState::Paused ==> preparation(Some(run)) == Ok::<_, EngineErrorView>(
            Preparation::Resume,
        ),
        run.state == RunState::Running ==> preparation(Some(run)) == Ok::<_, EngineErrorView>(
            Preparation::Nothing,
        ),
        run.state == RunState::Completed ==> preparation(Some(run)) == Err::<Preparation, _>(
            EngineErrorView::RunCompleted,
        ),
        run.state == RunState::Aborted ==> preparation(Some(run)) == Err::<Preparation, _>(
            EngineErrorView::RunAborted,
        ),
        preparation(None) == Err::<Preparation, _>(EngineErrorView::NoRun),
{
}

/// One more result counts for its status and for no other.
pub proof fn law_results_are_counted(
    results: Seq<ValidatorView>,
    result: ValidatorView,
    status: ValidatorStatus,
)
    ensures
        result.status == status ==> result_count(results.push(result), status) == result_count(
            results,
            status,
        ) + 1,
        result.status != status ==> result_count(results.push(result), status) == result_count(
            results,
            status,
        ),
        result_count(Seq::empty(), status) == 0,
{
    assert(results.push(result).drop_last() =~= results);
}

/// Start a new run. Fails if one exists and is active. The engine that is given
/// back is yet to be started.
pub fn start_run(repo_path: &str, config: Config, tasks: TaskList, existing: Option<&Run>) -> (r:
    Result<RunEngine, EngineError>)
    ensures
        match start_refusal(run_view(existing)) {
            Some(error) => r matches Err(e) && e@ == error,
            None => r matches Ok(engine) && engine.wf() && is_fresh_engine(
                engine@,
                repo_path@,
                config@,
                tasks@,
            ),
        },
{
    match existing {
        Some(run) => {
            if !run.state.is_terminal() {
                return Err(
                    EngineError::InProgress { run_id: run.run_id.clone(), state: run.state },
                );
            }
        },
        None => {},
    }
    Ok(create_engine(repo_path, config, tasks))
}

/// Pause the current run.
pub fn pause_run(engine: Option<RunEngine>) -> (r: Result<(RunEngine, Vec<Effect>), EngineError>)
    ensures
        match engine {
            None => r matches Err(e) && e@ == EngineErrorView::NothingToPause,
            Some(eng) => match paused(eng@) {
                Ok((next, effects)) => r matches Ok(p) && p.0@ == next && views(p.1@) == effects
                    && (eng.wf() ==> p.0.wf()),
                Err(_) => r matches Err(e) && e@ == EngineErrorView::NotRunning(eng.run.state),
            },
        },
{
    match engine {
        None => Err(EngineError::NothingToPause),
        Some(e) => {
            let mut engine = e;
            let state = engine.run.state;
            match engine.pause() {
                Ok(effects) => Ok((engine, effects)),
                Err(_) => Err(EngineError::NotRunning(state)),
            }
        },
    }
}

/// Resume a paused run.
pub fn resume_run(engine: Option<RunEngine>) -> (r: Result<(RunEngine, Vec<Effect>), EngineError>)
    ensures
        match engine {
            None => r matches Err(e) && e@ == EngineErrorView::NothingToResume,
            Some(eng) => match resumed(eng@) {
                Ok((next, effects)) => r matches Ok(p) && p.0@ == next && views(p.1@) == effects
                    && (eng.wf() ==> p.0.wf()),
                Err(_) => r matches Err(e) && e@ == EngineErrorView::NotPaused(eng.run.state),
            },
        },
{
    match engine {
        None => Err(EngineError::NothingToResume),
        Some(e) => {
            let mut engine = e;
            let state = engine.run.state;
            match engine.resume() {
                Ok(effects) => Ok((engine, effects)),
                Err(_) => Err(EngineError::NotPaused(state)),
            }
        },
    }
}

/// Abort the current run: tells whether there is anything to abort. A run that
/// has ended is left alone.
pub fn abort_run(has_config: bool, run: Option<&Run>) -> (r: Result<bool, EngineError>)
    ensures
        match abort_outcome(has_config, run_view(run)) {
            Ok(aborts) => r == Ok::<bool, EngineError>(aborts),
            Err(error) => r matches Err(e) && e@ == error,
        },
{
    if !has_config {
        return Err(EngineError::NoConfig);
    }
    match run {
        None => Err(EngineError::NothingToAbort),
        Some(x) => Ok(!x.state.is_terminal()),
    }
}

/// Skip the current task by marking it as blocked.
/// Returns the task ID that was skipped, or None if no current task.
pub fn skip_task(engine: Option<RunEngine>, reason: &str) -> (r: Result<
    (RunEngine, Option<(String, Vec<Effect>)>),
    EngineError,
>)
    ensures
        match engine {
            None => r matches Err(e) && e@ == EngineErrorView::NothingToSkip,
            Some(eng) => match skipped(eng@, reason@) {
                Some((next, id, effects)) => r matches Ok((e2, Some(p))) && e2@ == next && p.0@
                    == id && views(p.1@) == effects && (eng.wf() ==> e2.wf()),
                None => r matches Ok((e2, None)) && e2@ == eng@ && (eng.wf() ==> e2.wf()),
            },
        },
{
    match engine {
        None => Err(EngineError::NothingToSkip),
        Some(e) => {
            let mut engine = e;
            let skipped_task = engine.skip_task(reason);
            Ok((engine, skipped_task))
        },
    }
}

/// Run status returned by `get_status`.
#[derive(Debug)]
pub struct RunStatus {
    /// Whether a run exists.
    pub has_run: bool,
    /// The run state (if a run exists).
    pub run: Option<Run>,
    /// Task list status.
    pub tasks: Option<TaskList>,
    /// Count of done tasks.
    pub done_count: usize,
    /// Count of in-progress tasks.
    pub in_progress_count: usize,
    /// Count of todo tasks.
    pub todo_count: usize,
    /// Count of blocked tasks.
    pub blocked_count: usize,
    /// Total task count.
    pub total_count: usize,
}

/// How many tasks have the given status, where there are tasks.
pub open spec fn count_in(tasks: Option<TaskListView>, status: TaskStatus) -> nat {
    match tasks {
        Some(t) => status_count(t.tasks, status),
        None => 0,
    }
}

/// Get run status (no TUI, just data). Without a configuration there is
/// nothing to tell.
pub fn get_status(has_config: bool, run: Option<Run>, tasks: Option<TaskList>) -> (r: RunStatus)
    ensures
        ({
            let shown_run = if has_config {
                opt_view(run)
            } else {
                None
            };
            let shown_tasks = if has_config {
                opt_view(tasks)
            } else {
                None
            };
            &&& r.has_run == (shown_run is Some)
            &&& opt_view(r.run) == shown_run
            &&& opt_view(r.tasks) == shown_tasks
            &&& r.done_count == count_in(shown_tasks, TaskStatus::Done)
            &&& r.in_progress_count == count_in(shown_tasks, TaskStatus::InProgress)
            &&& r.todo_count == count_in(shown_tasks, TaskStatus::Todo)
            &&& r.blocked_count == count_in(shown_tasks, TaskStatus::Blocked)
            &&& r.total_count == match shown_tasks {
                Some(t) => t.tasks.len(),
                None => 0,
            }
        }),
{
    let mut status = RunStatus {
        has_run: false,
        run: None,
        tasks: None,
        done_count: 0,
        in_progress_count: 0,
        todo_count: 0,
        blocked_count: 0,
        total_count: 0,
    };
    if !has_config {
        return status;
    }
    status.has_run = run.is_some();
    status.run = run;
    match &tasks {
        Some(t) => {
            status.done_count = t.count_by_status(TaskStatus::Done);
            status.in_progress_count = t.count_by_status(TaskStatus::InProgress);
            status.todo_count = t.count_by_status(TaskStatus::Todo);
            status.blocked_count = t.count_by_status(TaskStatus::Blocked);
            status.total_count = t.tasks.len();
        },
        None => {},
    }
    status.tasks = tasks;
    status
}

/// How many results have the given status.
pub open spec fn result_count(results: Seq<ValidatorView>, status: ValidatorStatus) -> nat
    decreases results.len(),
{
    if results.len() == 0 {
        0
    } else {
        result_count(results.drop_last(), status) + if results.last().status == status {
            1nat
        } else {
            0nat
        }
    }
}

/// How many validators ended with the given status.
pub fn count_results(results: &ValidationResults, status: ValidatorStatus) -> (r: usize)
    ensures
        r == result_count(results@.validators, status),
{
    let n = results.validators.len();
    let mut count: usize = 0;
    let ghost rs = results@.validators;
    for i in 0..n
        invariant
            n == results.validators@.len(),
            rs == results@.validators,
            count == result_count(rs.take(i as int), status),
            count <= i,
    {
        assert(rs.take(i + 1).drop_last() =~= rs.take(i as int));
        assert(rs[i as int] == results.validators@[i as int]@);
        if results.validators[i].status == status {
            count += 1;
        }
    }
    assert(rs.take(n as int) =~= rs);
    count
}

/// Run validators only: their results are an error unless all passed.
pub fn run_validators(results: ValidationResults) -> (r: Result<ValidationResults, EngineError>)
    ensures
        if results.all_passed {
            r == Ok::<ValidationResults, EngineError>(results)
        } else {
            r matches Err(e) && e@ == EngineErrorView::ValidatorsFailed
        },
{
    if results.all_passed {
        Ok(results)
    } else {
        Err(EngineError::ValidatorsFailed)
    }
}

/// Clean .ralpher/ artifacts: tells whether the directory is to be removed. A
/// run that has not ended keeps it.
pub fn clean_artifacts(has_dir: bool, run: Option<&Run>) -> (r: Result<bool, EngineError>)
    ensures
        match clean_outcome(has_dir, run_view(run)) {
            Ok(cleans) => r == Ok::<bool, EngineError>(cleans),
            Err(error) => r matches Err(e) && e@ == error,
        },
{
    if !has_dir {
        return Ok(false);
    }
    match run {
        Some(x) => {
            if !x.state.is_terminal() {
                return Err(EngineError::StillActive { run_id: x.run_id.clone(), state: x.state });
            }
        },
        None => {},
    }
    Ok(true)
}

/// The engine of the current run, if one exists.
pub fn load_engine(repo_path: &str, run: Option<Run>, config: Config, tasks: TaskList) -> (r:
    Option<RunEngine>)
    ensures
        match run {
            Some(x) => r matches Some(engine) && engine.wf() && engine@ == engine_of(
                repo_path@,
                x@,
                config@,
                tasks@,
            ),
            None => r is None,
        },
{
    match run {
        Some(x) => Some(RunEngine::load(repo_path, x, config, tasks)),
        None => None,
    }
}

/// Create a new RunEngine (without starting it).
pub fn create_engine(repo_path: &str, config: Config, tasks: TaskList) -> (r: RunEngine)
    ensures
        r.wf(),
        is_fresh_engine(r@, repo_path@, config@, tasks@),
{
    RunEngine::new(repo_path, config, tasks)
}

} // verus!
