//! One iteration of a run: the agent works on a task, validators and policy
//! judge the outcome, and a checkpoint keeps it.
//!
//! An iteration alternates work outside the engine with decisions. Each step
//! takes the reply to what was asked for last and names what is to be done
//! next.

use vstd::prelude::*;

use crate::event::{EventKind, EventView, ValidatorStatus};
use crate::policy::{violations_of, PolicyCheckResult, ViolationAction, ViolationView};
use crate::porcelain::{parse_porcelain, status_changes};
use crate::prompt::{agent_request, request_agent, AgentRequest, AgentRequestView};
use crate::run::{
    aborted, checkpoint_on, clone_results, completion, ended, status_event, terminal,
    with_status, CheckpointStep, CheckpointView, Effect, EffectView, EngineView, IterationResult,
    IterationResultView, RunEngine, RunError, RunErrorView, RunState, RunView,
    SingleValidatorResult, TaskUpdate, TaskUpdateView, ValidationResults, ValidationView,
    ValidatorView,
};
use crate::search::lines;
use crate::task::{
    all_done, current_index, id_index, lemma_id_index, Task, TaskListView, TaskStatus, TaskView,
};
use crate::text::{
    clone_opt_string, clone_strings, lemma_views_push, opt_view, owned, trim, views,
};
use crate::validation::{
    all_pass, judge, lemma_all_pass_push, validator_result, ValidatorRun, ValidatorRunView,
};
use crate::workspace::{output_of, reply_error, GitCommand, GitCommandView, GitReply, GitStep};

verus! {

/// What an iteration waits for.
#[derive(Clone, Copy, Debug, PartialEq, Eq, Structural)]
pub enum Phase {
    /// The start of the iteration is being logged.
    Started,
    /// The task's being in progress is being saved and logged.
    Marked,
    /// The agent is at work.
    Agent,
    /// The agent's exit is being logged.
    AgentLogged,
    /// The agent's report is being read.
    Update,
    /// The report's effect on its task is being saved and logged.
    Updated,
    /// A validator is at work.
    Validating,
    /// A validator's result is being logged.
    ValidatorLogged,
    /// The validators' results are being saved.
    Validated,
    /// Git is being asked for the changes.
    Policy,
    /// Violations of the policy are being logged.
    Violations,
    /// The changes are being discarded.
    Resetting,
    /// The abort of the run is being logged and saved.
    Handled,
    /// Git is being asked whether there is anything to commit.
    Dirty,
    /// All changes are being staged.
    Staging,
    /// A checkpoint is being created.
    Committing,
    /// The checkpoint is being logged and saved.
    Recorded,
    /// The end of the iteration is being logged.
    Ended,
    /// The completion of the run is being logged and saved.
    Completing,
    /// The run is being saved.
    Saving,
    /// The iteration is over.
    Finished,
}

/// An iteration under way.
#[derive(Debug)]
pub struct Iteration {
    /// What the iteration waits for.
    pub phase: Phase,
    /// The task as it was when the iteration began.
    pub task: Task,
    /// The file in which the project tells agents its conventions.
    pub guide: String,
    /// Whether no agent is run, since all tasks are done: what they left is
    /// validated and held against the policy before the run is completed.
    pub closing: bool,
    /// The agent's exit code.
    pub agent_exit_code: Option<i32>,
    /// The validators to run.
    pub validators: Vec<String>,
    /// The results of those that have run.
    pub results: Vec<SingleValidatorResult>,
    /// Whether all of them passed.
    pub validators_passed: bool,
    /// Whether the policy was kept.
    pub policy_passed: bool,
    /// Whether the changes may be committed.
    pub should_checkpoint: bool,
    /// The replies to the git operation under way.
    pub replies: Vec<GitReply>,
    /// The checkpoint's commit.
    pub checkpoint_sha: Option<String>,
}

/// What an iteration holds.
#[verifier::ext_equal]
pub struct IterationView {
    pub phase: Phase,
    pub task: TaskView,
    pub guide: Seq<char>,
    pub closing: bool,
    pub agent_exit_code: Option<i32>,
    pub validators: Seq<Seq<char>>,
    pub results: Seq<ValidatorView>,
    pub policy_passed: bool,
    pub should_checkpoint: bool,
    pub replies: Seq<GitReply>,
    pub checkpoint_sha: Option<Seq<char>>,
}

impl View for Iteration {
    type V = IterationView;

    open spec fn view(&self) -> IterationView {
        IterationView {
            phase: self.phase,
            task: self.task@,
            guide: self.guide@,
            closing: self.closing,
            agent_exit_code: self.agent_exit_code,
            validators: views(self.validators@),
            results: views(self.results@),
            policy_passed: self.policy_passed,
            should_checkpoint: self.should_checkpoint,
            replies: self.replies@,
            checkpoint_sha: opt_view(self.checkpoint_sha),
        }
    }
}

impl Iteration {
    /// The note on whether all validators passed is true.
    pub open spec fn wf(&self) -> bool {
        self.validators_passed == all_pass(views(self.results@))
    }
}

/// What is to be done next.
#[derive(Debug)]
pub enum Action {
    /// Perform the effects in order, up to the first that fails.
    Perform(Vec<Effect>),
    /// Run the agent.
    RunAgent(AgentRequest),
    /// Read the report that the agent may have left.
    ReadTaskUpdate,
    /// Run a validator.
    RunValidator(String),
    /// Run a git command.
    Git(GitCommand),
    /// Nothing: the iteration is over.
    Finish(IterationResult),
}

/// What an action says.
#[verifier::ext_equal]
pub enum ActionView {
    Perform(Seq<EffectView>),
    RunAgent(AgentRequestView),
    ReadTaskUpdate,
    RunValidator(Seq<char>),
    Git(GitCommandView),
    Finish(IterationResultView),
}

impl View for Action {
    type V = ActionView;

    open spec fn view(&self) -> ActionView {
        match *self {
            Action::Perform(effects) => ActionView::Perform(views(effects@)),
            Action::RunAgent(q) => ActionView::RunAgent(q@),
            Action::ReadTaskUpdate => ActionView::ReadTaskUpdate,
            Action::RunValidator(c) => ActionView::RunValidator(c@),
            Action::Git(c) => ActionView::Git(c@),
            Action::Finish(r) => ActionView::Finish(r@),
        }
    }
}

/// What came of an action.
#[derive(Debug)]
pub enum Reply {
    /// The effects were performed.
    Done,
    /// An effect failed, for the given reason.
    Failed(String),
    /// The agent ended with an exit code, or could not be run.
    Agent(Option<i32>),
    /// The agent's report, if there is one that can be read.
    Update(Option<TaskUpdate>),
    /// How the validator ended.
    Validator(ValidatorRun),
    /// How the git command ended.
    Git(GitReply),
}

/// What a reply says.
#[verifier::ext_equal]
pub enum ReplyView {
    Done,
    Failed(Seq<char>),
    Agent(Option<i32>),
    Update(Option<TaskUpdateView>),
    Validator(ValidatorRunView),
    Git(GitReply),
}

impl View for Reply {
    type V = ReplyView;

    open spec fn view(&self) -> ReplyView {
        match *self {
            Reply::Done => ReplyView::Done,
            Reply::Failed(m) => ReplyView::Failed(m@),
            Reply::Agent(c) => ReplyView::Agent(c),
            Reply::Update(u) => ReplyView::Update(opt_view(u)),
            Reply::Validator(v) => ReplyView::Validator(v@),
            Reply::Git(g) => ReplyView::Git(g),
        }
    }
}

/// A step: the engine and the iteration after it, and what is to be done next
/// or why the iteration failed.
#[verifier::ext_equal]
pub struct StepView {
    pub engine: EngineView,
    pub it: IterationView,
    pub action: Result<ActionView, RunErrorView>,
}

// ------------------------------------------------------------------- the steps

/// On to the next phase, with the given action.
pub open spec fn go(e: EngineView, it: IterationView, phase: Phase, action: ActionView) -> StepView {
    StepView { engine: e, it: IterationView { phase, ..it }, action: Ok(action) }
}

/// The failure of the iteration.
pub open spec fn fail(e: EngineView, it: IterationView, error: RunErrorView) -> StepView {
    StepView { engine: e, it, action: Err(error) }
}

/// Whether the validators passed and the changes may stay.
pub open spec fn approved(it: IterationView) -> bool {
    all_pass(it.results) && (it.policy_passed || it.should_checkpoint)
}

/// Whether the iteration counts as a success.
pub open spec fn succeeded(it: IterationView) -> bool {
    (it.closing || it.agent_exit_code == Some(0i32)) && approved(it)
}

/// Marks the task as in progress if it was to do.
#[verifier::opaque]
pub open spec fn mark_step(e: EngineView, it: IterationView) -> StepView {
    match id_index(e.tasks.tasks, it.task.id, 0) {
        Some(i) if it.task.status == TaskStatus::Todo => {
            let tasks = with_status(e.tasks, i, TaskStatus::InProgress);
            go(
                EngineView { tasks, ..e },
                it,
                Phase::Marked,
                ActionView::Perform(
                    seq![
                        EffectView::SaveTasks(tasks),
                        EffectView::Emit(
                            status_event(
                                e,
                                it.task.id,
                                e.tasks.tasks[i].status,
                                TaskStatus::InProgress,
                            ),
                        ),
                    ],
                ),
            )
        },
        _ => go(e, it, Phase::Marked, ActionView::Perform(Seq::empty())),
    }
}

/// Notes the agent's exit code.
#[verifier::opaque]
pub open spec fn agent_step(e: EngineView, it: IterationView, code: i32) -> StepView {
    go(
        e,
        IterationView { agent_exit_code: Some(code), ..it },
        Phase::AgentLogged,
        ActionView::Perform(
            seq![
                EffectView::Emit(
                    EventView::AgentCompleted {
                        run_id: e.run.run_id,
                        iteration: e.run.iteration,
                        exit_code: Some(code),
                    },
                ),
            ],
        ),
    )
}

/// Runs the agent. One that is not configured counts as one that failed.
#[verifier::opaque]
pub open spec fn run_step(e: EngineView, it: IterationView) -> StepView {
    match agent_request(e.config.agent, e.run.iteration, it.task, it.guide) {
        Ok(q) => go(e, it, Phase::Agent, ActionView::RunAgent(q)),
        Err(_) => agent_step(e, it, -1i32),
    }
}

/// A task after the agent's report.
pub open spec fn reported(task: TaskView, update: TaskUpdateView) -> TaskView {
    TaskView {
        status: update.new_status,
        notes: match update.notes {
            Some(n) => Some(n),
            None => task.notes,
        },
        ..task
    }
}

/// Applies the agent's report to the task that it names.
#[verifier::opaque]
pub open spec fn update_step(
    e: EngineView,
    it: IterationView,
    update: Option<TaskUpdateView>,
) -> StepView {
    let nothing = go(e, it, Phase::Updated, ActionView::Perform(Seq::empty()));
    match update {
        Some(u) => match id_index(e.tasks.tasks, u.task_id, 0) {
            Some(i) => {
                let task = e.tasks.tasks[i];
                let tasks = TaskListView {
                    tasks: e.tasks.tasks.update(i, reported(task, u)),
                    ..e.tasks
                };
                go(
                    EngineView { tasks, ..e },
                    it,
                    Phase::Updated,
                    ActionView::Perform(
                        seq![
                            EffectView::SaveTasks(tasks),
                            EffectView::Emit(
                                status_event(e, u.task_id, task.status, u.new_status),
                            ),
                        ],
                    ),
                )
            },
            None => nothing,
        },
        None => nothing,
    }
}

/// The validators of a task: its own, or else the configured ones.
pub open spec fn validators_of(task: TaskView, configured: Seq<Seq<char>>) -> Seq<Seq<char>> {
    if task.validators.len() > 0 {
        task.validators
    } else {
        configured
    }
}

/// Runs the next validator, saves the results after the last, or goes on to the
/// policy where there are none.
#[verifier::opaque]
pub open spec fn validator_step(e: EngineView, it: IterationView) -> StepView {
    if it.results.len() < it.validators.len() {
        go(
            e,
            it,
            Phase::Validating,
            ActionView::RunValidator(it.validators[it.results.len() as int]),
        )
    } else if it.validators.len() == 0 {
        go(e, it, Phase::Policy, ActionView::Git(GitCommandView::Status))
    } else {
        go(
            e,
            it,
            Phase::Validated,
            ActionView::Perform(
                seq![
                    EffectView::WriteValidation {
                        iteration: e.run.iteration,
                        results: ValidationView {
                            validators: it.results,
                            all_passed: all_pass(it.results),
                        },
                    },
                ],
            ),
        )
    }
}

/// Notes how a validator ended.
#[verifier::opaque]
pub open spec fn judge_step(e: EngineView, it: IterationView, run: ValidatorRunView) -> StepView {
    if it.results.len() < it.validators.len() {
        let result = validator_result(it.validators[it.results.len() as int], run);
        go(
            e,
            IterationView { results: it.results.push(result), ..it },
            Phase::ValidatorLogged,
            ActionView::Perform(
                seq![
                    EffectView::Emit(
                        EventView::ValidatorResult {
                            run_id: e.run.run_id,
                            iteration: e.run.iteration,
                            validator: result.command,
                            status: result.status,
                            message: result.output,
                        },
                    ),
                ],
            ),
        )
    } else {
        fail(e, it, RunErrorView::UnexpectedReply)
    }
}

/// The event that announces a violation.
pub open spec fn violation_effect(e: EngineView, v: ViolationView) -> EffectView {
    EffectView::Emit(
        EventView::PolicyViolation {
            run_id: e.run.run_id,
            iteration: e.run.iteration,
            rule: v.rule,
            severity: v.severity,
            details: v.details,
        },
    )
}

/// Checks the changes against the policy.
#[verifier::opaque]
pub open spec fn policy_step(e: EngineView, it: IterationView, reply: GitReply) -> StepView {
    match reply_error(GitCommandView::Status, reply) {
        Some(error) => fail(e, it, RunErrorView::Workspace(error)),
        None => {
            let vs = violations_of(e.policy, status_changes(lines(output_of(reply))));
            go(
                e,
                IterationView { policy_passed: vs.len() == 0, ..it },
                Phase::Violations,
                ActionView::Perform(vs.map_values(|v: ViolationView| violation_effect(e, v))),
            )
        },
    }
}

/// Ends the iteration proper. One without an agent is not logged as such.
#[verifier::opaque]
pub open spec fn end_step(e: EngineView, it: IterationView) -> StepView {
    go(
        e,
        it,
        Phase::Ended,
        ActionView::Perform(
            if it.closing {
                Seq::empty()
            } else {
                seq![
                    EffectView::Emit(
                        EventView::IterationCompleted {
                            run_id: e.run.run_id,
                            iteration: e.run.iteration,
                            success: succeeded(it),
                        },
                    ),
                ]
            },
        ),
    )
}

/// Goes on to the checkpoint if the agent's iteration succeeded and its changes
/// may be committed.
#[verifier::opaque]
pub open spec fn judged_step(e: EngineView, it: IterationView) -> StepView {
    if succeeded(it) && it.should_checkpoint && !it.closing {
        go(e, it, Phase::Dirty, ActionView::Git(GitCommandView::Status))
    } else {
        end_step(e, it)
    }
}

/// The reason with which a run is aborted for a violation.
pub open spec fn abort_reason() -> Seq<char> {
    "Policy violation detected"@
}

/// Handles violations of the policy as it says.
#[verifier::opaque]
pub open spec fn handle_step(e: EngineView, it: IterationView, now: u64) -> StepView {
    let kept = IterationView { should_checkpoint: true, ..it };
    let dropped = IterationView { should_checkpoint: false, ..it };
    if it.policy_passed {
        judged_step(e, kept)
    } else {
        match e.policy.on_violation {
            ViolationAction::Abort => match aborted(e, abort_reason(), now) {
                Ok((next, effects)) => go(
                    next,
                    dropped,
                    Phase::Handled,
                    ActionView::Perform(effects),
                ),
                Err(error) => fail(e, dropped, error),
            },
            ViolationAction::Reset => go(
                e,
                IterationView { replies: Seq::empty(), ..dropped },
                Phase::Resetting,
                ActionView::Git(GitCommandView::ResetHard),
            ),
            ViolationAction::Keep => judged_step(e, kept),
        }
    }
}

/// Goes on discarding the changes.
#[verifier::opaque]
pub open spec fn reset_on(e: EngineView, it: IterationView) -> StepView {
    if reply_error(GitCommandView::ResetHard, it.replies[0]) is Some {
        fail(
            e,
            it,
            RunErrorView::Workspace(reply_error(GitCommandView::ResetHard, it.replies[0])->0),
        )
    } else if it.replies.len() == 1 {
        go(e, it, Phase::Resetting, ActionView::Git(GitCommandView::Clean))
    } else if reply_error(GitCommandView::Clean, it.replies[1]) is Some {
        fail(
            e,
            it,
            RunErrorView::Workspace(reply_error(GitCommandView::Clean, it.replies[1])->0),
        )
    } else {
        judged_step(e, it)
    }
}

/// Stages the changes if there are any.
#[verifier::opaque]
pub open spec fn dirty_step(e: EngineView, it: IterationView, reply: GitReply) -> StepView {
    if reply_error(GitCommandView::Status, reply) is None && trim(output_of(reply)).len() > 0 {
        go(e, it, Phase::Staging, ActionView::Git(GitCommandView::AddAll))
    } else {
        end_step(e, it)
    }
}

/// Begins the checkpoint.
#[verifier::opaque]
pub open spec fn staged_step(e: EngineView, it: IterationView) -> StepView {
    go(
        e,
        IterationView { replies: Seq::empty(), ..it },
        Phase::Committing,
        ActionView::Git(GitCommandView::AddAll),
    )
}

/// Goes on with the checkpoint. One that fails is left out.
#[verifier::opaque]
pub open spec fn commit_on(e: EngineView, it: IterationView) -> StepView {
    let (next, turn) = checkpoint_on(e, it.task.id, it.task.title, it.replies);
    match turn {
        CheckpointView::Git(command) => go(
            next,
            it,
            Phase::Committing,
            ActionView::Git(command),
        ),
        CheckpointView::Failed(_) => end_step(next, it),
        CheckpointView::Created(sha, effects) => go(
            next,
            IterationView { checkpoint_sha: Some(sha), ..it },
            Phase::Recorded,
            ActionView::Perform(effects),
        ),
    }
}

/// Saves the run.
#[verifier::opaque]
pub open spec fn save_step(e: EngineView, it: IterationView) -> StepView {
    go(e, it, Phase::Saving, ActionView::Perform(seq![EffectView::SaveRun(e.run)]))
}

/// Completes the run if all tasks are done, the validators passed and the changes
/// may stay. A run that has ended stays as it is.
#[verifier::opaque]
pub open spec fn close_step(e: EngineView, it: IterationView, now: u64) -> StepView {
    if all_done(e.tasks.tasks) && !terminal(e.run.state) && approved(it) {
        let next = ended(e, RunState::Completed, now);
        go(next, it, Phase::Completing, ActionView::Perform(completion(next)))
    } else {
        save_step(e, it)
    }
}

/// The result of the iteration.
pub open spec fn result_of(it: IterationView) -> IterationResultView {
    IterationResultView {
        success: succeeded(it),
        agent_exit_code: it.agent_exit_code,
        validators_passed: all_pass(it.results),
        policy_passed: it.policy_passed,
        checkpoint_sha: it.checkpoint_sha,
    }
}

/// The step that follows when the effects of a phase were performed.
#[verifier::opaque]
pub open spec fn done_step(e: EngineView, it: IterationView, now: u64) -> StepView {
    match it.phase {
        Phase::Started => mark_step(e, it),
        Phase::Marked => run_step(e, it),
        Phase::AgentLogged => go(e, it, Phase::Update, ActionView::ReadTaskUpdate),
        Phase::Updated => validator_step(
            e,
            IterationView {
                validators: validators_of(it.task, e.config.validators),
                results: Seq::empty(),
                ..it
            },
        ),
        Phase::ValidatorLogged => validator_step(e, it),
        Phase::Validated => go(e, it, Phase::Policy, ActionView::Git(GitCommandView::Status)),
        Phase::Violations => handle_step(e, it, now),
        Phase::Handled => judged_step(e, it),
        Phase::Recorded => end_step(e, it),
        Phase::Ended => close_step(e, it, now),
        Phase::Completing => save_step(e, it),
        Phase::Saving => go(e, it, Phase::Finished, ActionView::Finish(result_of(it))),
        _ => fail(e, it, RunErrorView::UnexpectedReply),
    }
}

/// Whether the phase waits for effects to be performed.
pub open spec fn awaits_effects(phase: Phase) -> bool {
    !(phase == Phase::Agent || phase == Phase::Update || phase == Phase::Validating || phase
        == Phase::Policy || phase == Phase::Resetting || phase == Phase::Dirty || phase
        == Phase::Staging || phase == Phase::Committing || phase == Phase::Finished)
}

/// The step that follows when an effect of a phase failed. A checkpoint that
/// cannot be recorded is left out; any other failure ends the iteration.
#[verifier::opaque]
pub open spec fn failed_step(e: EngineView, it: IterationView, reason: Seq<char>) -> StepView {
    if it.phase == Phase::Recorded {
        end_step(e, IterationView { checkpoint_sha: None, ..it })
    } else if awaits_effects(it.phase) {
        fail(e, it, RunErrorView::Outside(reason))
    } else {
        fail(e, it, RunErrorView::UnexpectedReply)
    }
}

/// The step that follows a reply from git.
#[verifier::opaque]
pub open spec fn git_step(e: EngineView, it: IterationView, reply: GitReply) -> StepView {
    let longer = IterationView { replies: it.replies.push(reply), ..it };
    match it.phase {
        Phase::Policy => policy_step(e, it, reply),
        Phase::Resetting => reset_on(e, longer),
        Phase::Dirty => dirty_step(e, it, reply),
        Phase::Staging => staged_step(e, it),
        Phase::Committing => commit_on(e, longer),
        _ => fail(e, it, RunErrorView::UnexpectedReply),
    }
}

/// The step that follows a reply.
pub open spec fn step(e: EngineView, it: IterationView, reply: ReplyView, now: u64) -> StepView {
    match reply {
        ReplyView::Done => done_step(e, it, now),
        ReplyView::Failed(reason) => failed_step(e, it, reason),
        ReplyView::Agent(code) => if it.phase == Phase::Agent {
            agent_step(
                e,
                it,
                match code {
                    Some(c) => c,
                    None => -1i32,
                },
            )
        } else {
            fail(e, it, RunErrorView::UnexpectedReply)
        },
        ReplyView::Update(update) => if it.phase == Phase::Update {
            update_step(e, it, update)
        } else {
            fail(e, it, RunErrorView::UnexpectedReply)
        },
        ReplyView::Validator(run) => if it.phase == Phase::Validating {
            judge_step(e, it, run)
        } else {
            fail(e, it, RunErrorView::UnexpectedReply)
        },
        ReplyView::Git(g) => git_step(e, it, g),
    }
}

// --------------------------------------------------------------- the beginning

/// An iteration on the given task that has just begun.
pub open spec fn opened(task: TaskView, guide: Seq<char>) -> IterationView {
    IterationView {
        phase: Phase::Started,
        task,
        guide,
        closing: false,
        agent_exit_code: None,
        validators: Seq::empty(),
        results: Seq::empty(),
        policy_passed: false,
        should_checkpoint: false,
        replies: Seq::empty(),
        checkpoint_sha: None,
    }
}

/// The validators of all tasks: the configured ones, and those of each task.
pub open spec fn all_validators(
    ts: Seq<TaskView>,
    configured: Seq<Seq<char>>,
) -> Seq<Seq<char>>
    decreases ts.len(),
{
    if ts.len() == 0 {
        configured
    } else {
        all_validators(ts.drop_last(), configured) + ts.last().validators
    }
}

/// What stands in place of a task where all are done: the validators of all.
pub open spec fn closing_task(e: EngineView) -> TaskView {
    TaskView {
        id: Seq::empty(),
        title: Seq::empty(),
        status: TaskStatus::Done,
        acceptance: Seq::empty(),
        validators: all_validators(e.tasks.tasks, e.config.validators),
        notes: None,
    }
}

/// An iteration that has just begun where all tasks are done. It begins behind
/// the agent's work, with the validators.
pub open spec fn closing(e: EngineView, guide: Seq<char>) -> IterationView {
    IterationView { phase: Phase::Updated, closing: true, ..opened(closing_task(e), guide) }
}

/// The engine after the beginning of an iteration on the given task.
pub open spec fn counted(e: EngineView, task: TaskView) -> EngineView {
    EngineView {
        run: RunView {
            iteration: (e.run.iteration + 1) as u32,
            current_task_id: Some(task.id),
            ..e.run
        },
        ..e
    }
}

/// Whether an iteration that opens can be counted.
pub open spec fn can_count(e: EngineView) -> bool {
    e.run.state == RunState::Running && current_index(e.tasks.tasks) is Some ==> e.run.iteration
        < u32::MAX
}

/// What the beginning of an iteration gives: the engine, the iteration and the
/// effects that come first. Where all tasks are done, nothing is counted, and
/// the run is completed at the end if the validators pass and the changes may
/// stay.
pub open spec fn begin(e: EngineView, guide: Seq<char>) -> Result<
    (EngineView, IterationView, Seq<EffectView>),
    RunErrorView,
> {
    if e.run.state != RunState::Running {
        Err(RunErrorView::CannotIterate(e.run.state))
    } else {
        match current_index(e.tasks.tasks) {
            None => if all_done(e.tasks.tasks) {
                Ok((e, closing(e, guide), Seq::empty()))
            } else {
                Err(RunErrorView::OnlyBlocked)
            },
            Some(i) => {
                let task = e.tasks.tasks[i];
                let next = counted(e, task);
                Ok(
                    (
                        next,
                        opened(task, guide),
                        seq![
                            EffectView::Emit(
                                EventView::IterationStarted {
                                    run_id: next.run.run_id,
                                    iteration: next.run.iteration,
                                    task_id: task.id,
                                },
                            ),
                        ],
                    ),
                )
            },
        }
    }
}

// ------------------------------------------------------------------- execution

fn one(effect: Effect) -> (r: Vec<Effect>)
    ensures
        views(r@) == seq![effect@],
{
    let r = vec![effect];
    assert(views(r@) =~= seq![effect@]);
    r
}

fn two(first: Effect, second: Effect) -> (r: Vec<Effect>)
    ensures
        views(r@) == seq![first@, second@],
{
    let r = vec![first, second];
    assert(views(r@) =~= seq![first@, second@]);
    r
}

fn none() -> (r: Vec<Effect>)
    ensures
        views(r@) == Seq::<EffectView>::empty(),
{
    let r: Vec<Effect> = Vec::new();
    assert(views(r@) =~= Seq::<EffectView>::empty());
    r
}

/// Whether the outcome of a step is the given one.
pub open spec fn took(
    r: Result<Action, RunError>,
    engine: EngineView,
    it: IterationView,
    expected: StepView,
) -> bool {
    &&& engine == expected.engine
    &&& it == expected.it
    &&& match expected.action {
        Ok(action) => r matches Ok(a) && a@ == action,
        Err(error) => r matches Err(e) && e@ == error,
    }
}

impl Iteration {
    /// Tells whether the iteration counts as a success.
    pub fn success(&self) -> (r: bool)
        requires
            self.wf(),
        ensures
            r == succeeded(self@),
    {
        let exited = match self.agent_exit_code {
            Some(code) => code == 0,
            None => false,
        };
        (self.closing || exited) && self.is_approved()
    }

    fn is_approved(&self) -> (r: bool)
        requires
            self.wf(),
        ensures
            r == approved(self@),
    {
        self.validators_passed && (self.policy_passed || self.should_checkpoint)
    }

    fn begun(phase: Phase, task: Task, guide: &str, closing: bool) -> (r: Self)
        ensures
            r.wf(),
            r@ == (IterationView { phase, closing, ..opened(task@, guide@) }),
    {
        let r = Iteration {
            phase,
            task,
            guide: owned(guide),
            closing,
            agent_exit_code: None,
            validators: Vec::new(),
            results: Vec::new(),
            validators_passed: true,
            policy_passed: false,
            should_checkpoint: false,
            replies: Vec::new(),
            checkpoint_sha: None,
        };
        assert(r@ =~= (IterationView { phase, closing, ..opened(task@, guide@) }));
        r
    }
}

impl RunEngine {
    /// Begin a single iteration of the run loop. The guide is the file in which
    /// the project tells agents its conventions. Where all tasks are done, the
    /// iteration runs no agent and sees to it that the run can be completed.
    pub fn next_iteration(&mut self, guide: &str) -> (r: Result<(Iteration, Vec<Effect>), RunError>)
        requires
            old(self).wf(),
            can_count(old(self)@),
        ensures
            final(self).wf(),
            match begin(old(self)@, guide@) {
                Ok((engine, it, effects)) => r matches Ok(p) && p.0.wf() && p.0@ == it && views(
                    p.1@,
                ) == effects && final(self)@ == engine,
                Err(error) => r matches Err(e) && e@ == error && final(self)@ == old(self)@,
            },
    {
        if self.run.state != RunState::Running {
            return Err(RunError::CannotIterate(self.run.state));
        }
        proof {
            crate::task::law_current_task_is_open(self@.tasks.tasks);
        }
        let task = match self.tasks.current_task_index() {
            None => {
                if !self.tasks.is_complete() {
                    return Err(RunError::OnlyBlocked);
                }
                let it = Iteration::begun(Phase::Updated, self.task_for_closing(), guide, true);
                return Ok((it, none()));
            },
            Some(i) => {
                assert(self@.tasks.tasks[i as int] == self.tasks.tasks@[i as int]@);
                self.tasks.tasks[i].clone()
            },
        };
        self.run.iteration = self.run.iteration + 1;
        self.run.current_task_id = Some(task.id.clone());
        let effects = one(
            Effect::Emit(
                EventKind::IterationStarted {
                    run_id: self.run.run_id.clone(),
                    iteration: self.run.iteration,
                    task_id: task.id.clone(),
                },
            ),
        );
        Ok((Iteration::begun(Phase::Started, task, guide, false), effects))
    }

    fn task_for_closing(&self) -> (r: Task)
        ensures
            r@ == closing_task(self@),
    {
        let mut validators = clone_strings(&self.config.validators);
        let n = self.tasks.tasks.len();
        let ghost ts = self@.tasks.tasks;
        assert(ts.take(0).len() == 0);
        for i in 0..n
            invariant
                n == self.tasks.tasks@.len(),
                ts == self@.tasks.tasks,
                views(validators@) == all_validators(
                    ts.take(i as int),
                    self@.config.validators,
                ),
        {
            assert(ts.take(i + 1).drop_last() =~= ts.take(i as int));
            assert(ts[i as int] == self.tasks.tasks@[i as int]@);
            let mut own = clone_strings(&self.tasks.tasks[i].validators);
            let ghost before = validators@;
            let ghost added = own@;
            validators.append(&mut own);
            assert(views(validators@) =~= views(before) + views(added));
        }
        assert(ts.take(n as int) =~= ts);
        let r = Task {
            id: String::new(),
            title: String::new(),
            status: TaskStatus::Done,
            acceptance: Vec::new(),
            validators,
            notes: None,
        };
        assert(r@ =~= closing_task(self@));
        r
    }

    fn mark(&mut self, it: &mut Iteration) -> (r: Result<Action, RunError>)
        requires
            old(self).wf(),
            old(it).wf(),
        ensures
            final(self).wf(),
            final(it).wf(),
            took(r, final(self)@, final(it)@, mark_step(old(self)@, old(it)@)),
    {
        proof {
            reveal(mark_step);
        }
        it.phase = Phase::Marked;
        if it.task.status != TaskStatus::Todo {
            return Ok(Action::Perform(none()));
        }
        match self.set_status(it.task.id.as_str(), TaskStatus::InProgress) {
            Some(old_status) => {
                let event = EventKind::TaskStatusChanged {
                    run_id: self.run.run_id.clone(),
                    task_id: it.task.id.clone(),
                    old_status,
                    new_status: TaskStatus::InProgress,
                };
                Ok(Action::Perform(two(Effect::SaveTasks(self.tasks.clone()), Effect::Emit(event))))
            },
            None => Ok(Action::Perform(none())),
        }
    }

    fn note_agent(&mut self, it: &mut Iteration, code: i32) -> (r: Result<Action, RunError>)
        requires
            old(self).wf(),
            old(it).wf(),
        ensures
            final(self).wf(),
            final(it).wf(),
            took(r, final(self)@, final(it)@, agent_step(old(self)@, old(it)@, code)),
    {
        proof {
            reveal(agent_step);
        }
        it.phase = Phase::AgentLogged;
        it.agent_exit_code = Some(code);
        let event = EventKind::AgentCompleted {
            run_id: self.run.run_id.clone(),
            iteration: self.run.iteration,
            exit_code: Some(code),
        };
        Ok(Action::Perform(one(Effect::Emit(event))))
    }

    /// Execute the configured agent command with composed prompt.
    fn execute_agent(&mut self, it: &mut Iteration) -> (r: Result<Action, RunError>)
        requires
            old(self).wf(),
            old(it).wf(),
        ensures
            final(self).wf(),
            final(it).wf(),
            took(r, final(self)@, final(it)@, run_step(old(self)@, old(it)@)),
    {
        proof {
            reveal(run_step);
        }
        match request_agent(&self.config.agent, self.run.iteration, &it.task, it.guide.as_str()) {
            Ok(request) => {
                it.phase = Phase::Agent;
                Ok(Action::RunAgent(request))
            },
            Err(_) => self.note_agent(it, -1),
        }
    }

    fn apply_update(&mut self, it: &mut Iteration, update: Option<TaskUpdate>) -> (r: Result<
        Action,
        RunError,
    >)
        requires
            old(self).wf(),
            old(it).wf(),
        ensures
            final(self).wf(),
            final(it).wf(),
            took(r, final(self)@, final(it)@, update_step(old(self)@, old(it)@, opt_view(update))),
    {
        proof {
            reveal(update_step);
        }
        it.phase = Phase::Updated;
        let u = match update {
            Some(u) => u,
            None => {
                return Ok(Action::Perform(none()));
            },
        };
        proof {
            lemma_id_index(self@.tasks.tasks, u.task_id@, 0);
        }
        let ghost found = id_index(self@.tasks.tasks, u.task_id@, 0);
        let ghost uv = u@;
        match self.tasks.get_mut(u.task_id.as_str()) {
            Some(t) => {
                let old_status = t.status;
                t.status = u.new_status;
                match u.notes {
                    Some(notes) => {
                        t.notes = Some(notes);
                    },
                    None => {},
                }
                assert(views(self.tasks.tasks@) =~= old(self)@.tasks.tasks.update(
                    found->0,
                    reported(old(self)@.tasks.tasks[found->0], uv),
                ));
                let event = EventKind::TaskStatusChanged {
                    run_id: self.run.run_id.clone(),
                    task_id: u.task_id,
                    old_status,
                    new_status: u.new_status,
                };
                Ok(Action::Perform(two(Effect::SaveTasks(self.tasks.clone()), Effect::Emit(event))))
            },
            None => Ok(Action::Perform(none())),
        }
    }

    fn next_validator(&mut self, it: &mut Iteration) -> (r: Result<Action, RunError>)
        requires
            old(self).wf(),
            old(it).wf(),
        ensures
            final(self).wf(),
            final(it).wf(),
            took(r, final(self)@, final(it)@, validator_step(old(self)@, old(it)@)),
    {
        proof {
            reveal(validator_step);
        }
        let i = it.results.len();
        if i < it.validators.len() {
            it.phase = Phase::Validating;
            assert(it@.validators[i as int] == it.validators@[i as int]@);
            Ok(Action::RunValidator(it.validators[i].clone()))
        } else if it.validators.len() == 0 {
            it.phase = Phase::Policy;
            Ok(Action::Git(GitCommand::Status))
        } else {
            it.phase = Phase::Validated;
            let validation = ValidationResults {
                validators: clone_results(&it.results),
                all_passed: it.validators_passed,
            };
            Ok(
                Action::Perform(
                    one(
                        Effect::WriteValidation {
                            iteration: self.run.iteration,
                            results: validation,
                        },
                    ),
                ),
            )
        }
    }

    /// Execute all configured validators of a task, beginning with the first.
    fn execute_validators(&mut self, it: &mut Iteration) -> (r: Result<Action, RunError>)
        requires
            old(self).wf(),
            old(it).wf(),
        ensures
            final(self).wf(),
            final(it).wf(),
            took(
                r,
                final(self)@,
                final(it)@,
                validator_step(
                    old(self)@,
                    IterationView {
                        validators: validators_of(old(it)@.task, old(self)@.config.validators),
                        results: Seq::empty(),
                        ..old(it)@
                    },
                ),
            ),
    {
        it.validators = if it.task.validators.len() > 0 {
            clone_strings(&it.task.validators)
        } else {
            clone_strings(&self.config.validators)
        };
        it.results = Vec::new();
        it.validators_passed = true;
        assert(it@ =~= IterationView {
            validators: validators_of(old(it)@.task, old(self)@.config.validators),
            results: Seq::empty(),
            ..old(it)@
        });
        self.next_validator(it)
    }

    fn note_validator(&mut self, it: &mut Iteration, run: ValidatorRun) -> (r: Result<
        Action,
        RunError,
    >)
        requires
            old(self).wf(),
            old(it).wf(),
        ensures
            final(self).wf(),
            final(it).wf(),
            took(r, final(self)@, final(it)@, judge_step(old(self)@, old(it)@, run@)),
    {
        proof {
            reveal(judge_step);
        }
        broadcast use lemma_views_push;

        let i = it.results.len();
        if i >= it.validators.len() {
            return Err(RunError::UnexpectedReply);
        }
        assert(it@.validators[i as int] == it.validators@[i as int]@);
        let result = judge(it.validators[i].as_str(), &run);
        proof {
            lemma_all_pass_push(it@.results, result@);
        }
        let event = EventKind::ValidatorResult {
            run_id: self.run.run_id.clone(),
            iteration: self.run.iteration,
            validator: result.command.clone(),
            status: result.status,
            message: clone_opt_string(&result.output),
        };
        it.phase = Phase::ValidatorLogged;
        if result.status != ValidatorStatus::Pass {
            it.validators_passed = false;
        }
        it.results.push(result);
        Ok(Action::Perform(one(Effect::Emit(event))))
    }

    /// The events that announce violations.
    fn violation_events(&self, result: &PolicyCheckResult) -> (r: Vec<Effect>)
        ensures
            views(r@) == views(result.violations@).map_values(
                |v: ViolationView| violation_effect(self@, v),
            ),
    {
        let mut effects: Vec<Effect> = Vec::new();
        let n = result.violations.len();
        let ghost f = |v: ViolationView| violation_effect(self@, v);
        let ghost vs = views(result.violations@);
        for i in 0..n
            invariant
                n == result.violations@.len(),
                vs == views(result.violations@),
                f == (|v: ViolationView| violation_effect(self@, v)),
                views(effects@) == vs.map_values(f).take(i as int),
        {
            broadcast use lemma_views_push;

            assert(vs[i as int] == result.violations@[i as int]@);
            let v = &result.violations[i];
            effects.push(
                Effect::Emit(
                    EventKind::PolicyViolation {
                        run_id: self.run.run_id.clone(),
                        iteration: self.run.iteration,
                        rule: v.rule.clone(),
                        severity: v.severity,
                        details: v.details.clone(),
                    },
                ),
            );
            assert(effects@.last()@ == f(vs[i as int]));
        }
        effects
    }

    /// Check policy against current working tree changes, as git reports them.
    fn check_policy(&mut self, it: &mut Iteration, reply: GitReply) -> (r: Result<Action, RunError>)
        requires
            old(self).wf(),
            old(it).wf(),
        ensures
            final(self).wf(),
            final(it).wf(),
            took(r, final(self)@, final(it)@, policy_step(old(self)@, old(it)@, reply)),
    {
        proof {
            reveal(policy_step);
        }
        let output = match crate::workspace::read_reply(&GitCommand::Status, &reply) {
            Ok(output) => output,
            Err(error) => {
                return Err(RunError::Workspace(error));
            },
        };
        let changes = parse_porcelain(output);
        let result = self.policy_engine.check(changes.as_slice());
        it.phase = Phase::Violations;
        it.policy_passed = result.is_clean();
        Ok(Action::Perform(self.violation_events(&result)))
    }

    fn end_iteration(&mut self, it: &mut Iteration) -> (r: Result<Action, RunError>)
        requires
            old(self).wf(),
            old(it).wf(),
        ensures
            final(self).wf(),
            final(it).wf(),
            took(r, final(self)@, final(it)@, end_step(old(self)@, old(it)@)),
    {
        proof {
            reveal(end_step);
        }
        let success = it.success();
        it.phase = Phase::Ended;
        if it.closing {
            return Ok(Action::Perform(none()));
        }
        let event = EventKind::IterationCompleted {
            run_id: self.run.run_id.clone(),
            iteration: self.run.iteration,
            success,
        };
        Ok(Action::Perform(one(Effect::Emit(event))))
    }

    fn after_policy(&mut self, it: &mut Iteration) -> (r: Result<Action, RunError>)
        requires
            old(self).wf(),
            old(it).wf(),
        ensures
            final(self).wf(),
            final(it).wf(),
            took(r, final(self)@, final(it)@, judged_step(old(self)@, old(it)@)),
    {
        proof {
            reveal(judged_step);
        }
        if it.success() && it.should_checkpoint && !it.closing {
            it.phase = Phase::Dirty;
            Ok(Action::Git(GitCommand::Status))
        } else {
            self.end_iteration(it)
        }
    }

    fn handle_violations(&mut self, it: &mut Iteration, now: u64) -> (r: Result<Action, RunError>)
        requires
            old(self).wf(),
            old(it).wf(),
        ensures
            final(self).wf(),
            final(it).wf(),
            took(r, final(self)@, final(it)@, handle_step(old(self)@, old(it)@, now)),
    {
        proof {
            reveal(handle_step);
        }
        if it.policy_passed {
            it.should_checkpoint = true;
            return self.after_policy(it);
        }
        match self.policy_engine.violation_action() {
            ViolationAction::Abort => {
                it.should_checkpoint = false;
                match self.abort_at("Policy violation detected", now) {
                    Ok(effects) => {
                        it.phase = Phase::Handled;
                        Ok(Action::Perform(effects))
                    },
                    Err(error) => Err(error),
                }
            },
            ViolationAction::Reset => {
                it.should_checkpoint = false;
                it.replies = Vec::new();
                it.phase = Phase::Resetting;
                assert(it@.replies =~= Seq::empty());
                Ok(Action::Git(GitCommand::ResetHard))
            },
            ViolationAction::Keep => {
                it.should_checkpoint = true;
                self.after_policy(it)
            },
        }
    }

    fn go_on_resetting(&mut self, it: &mut Iteration, reply: GitReply) -> (r: Result<
        Action,
        RunError,
    >)
        requires
            old(self).wf(),
            old(it).wf(),
            old(it).phase == Phase::Resetting,
        ensures
            final(self).wf(),
            final(it).wf(),
            took(
                r,
                final(self)@,
                final(it)@,
                reset_on(
                    old(self)@,
                    IterationView { replies: old(it)@.replies.push(reply), ..old(it)@ },
                ),
            ),
    {
        proof {
            reveal(reset_on);
        }
        it.replies.push(reply);
        match self.workspace.reset_hard(&it.replies) {
            GitStep::Run(command) => Ok(Action::Git(command)),
            GitStep::Done(Err(error)) => Err(RunError::Workspace(error)),
            GitStep::Done(Ok(_)) => self.after_policy(it),
        }
    }

    fn see_if_dirty(&mut self, it: &mut Iteration, reply: GitReply) -> (r: Result<Action, RunError>)
        requires
            old(self).wf(),
            old(it).wf(),
        ensures
            final(self).wf(),
            final(it).wf(),
            took(r, final(self)@, final(it)@, dirty_step(old(self)@, old(it)@, reply)),
    {
        proof {
            reveal(dirty_step);
        }
        let replies = vec![reply];
        match self.workspace.is_dirty(&replies) {
            GitStep::Done(Ok(true)) => {
                it.phase = Phase::Staging;
                Ok(Action::Git(GitCommand::AddAll))
            },
            _ => self.end_iteration(it),
        }
    }

    fn go_on_committing(&mut self, it: &mut Iteration, reply: GitReply) -> (r: Result<Action, RunError>)
        requires
            old(self).wf(),
            old(it).wf(),
            old(it).phase == Phase::Committing,
        ensures
            final(self).wf(),
            final(it).wf(),
            took(
                r,
                final(self)@,
                final(it)@,
                commit_on(
                    old(self)@,
                    IterationView { replies: old(it)@.replies.push(reply), ..old(it)@ },
                ),
            ),
    {
        proof {
            reveal(commit_on);
        }
        it.replies.push(reply);
        match self.checkpoint(it.task.id.as_str(), it.task.title.as_str(), &it.replies) {
            CheckpointStep::Git(command) => Ok(Action::Git(command)),
            CheckpointStep::Failed(_) => self.end_iteration(it),
            CheckpointStep::Created(sha, effects) => {
                it.checkpoint_sha = Some(sha);
                it.phase = Phase::Recorded;
                Ok(Action::Perform(effects))
            },
        }
    }

    fn save(&mut self, it: &mut Iteration) -> (r: Result<Action, RunError>)
        requires
            old(self).wf(),
            old(it).wf(),
        ensures
            final(self).wf(),
            final(it).wf(),
            took(r, final(self)@, final(it)@, save_step(old(self)@, old(it)@)),
    {
        proof {
            reveal(save_step);
        }
        it.phase = Phase::Saving;
        Ok(Action::Perform(one(Effect::SaveRun(self.run.clone()))))
    }

    fn close(&mut self, it: &mut Iteration, now: u64) -> (r: Result<Action, RunError>)
        requires
            old(self).wf(),
            old(it).wf(),
        ensures
            final(self).wf(),
            final(it).wf(),
            took(r, final(self)@, final(it)@, close_step(old(self)@, old(it)@, now)),
    {
        proof {
            reveal(close_step);
        }
        if self.tasks.is_complete() && !self.run.state.is_terminal() && it.is_approved() {
            let effects = self.complete(now);
            it.phase = Phase::Completing;
            Ok(Action::Perform(effects))
        } else {
            self.save(it)
        }
    }

    fn on_done(&mut self, it: &mut Iteration, now: u64) -> (r: Result<Action, RunError>)
        requires
            old(self).wf(),
            old(it).wf(),
        ensures
            final(self).wf(),
            final(it).wf(),
            took(r, final(self)@, final(it)@, done_step(old(self)@, old(it)@, now)),
    {
        proof {
            reveal(done_step);
        }
        match it.phase {
            Phase::Started => self.mark(it),
            Phase::Marked => self.execute_agent(it),
            Phase::AgentLogged => {
                it.phase = Phase::Update;
                Ok(Action::ReadTaskUpdate)
            },
            Phase::Updated => self.execute_validators(it),
            Phase::ValidatorLogged => self.next_validator(it),
            Phase::Validated => {
                it.phase = Phase::Policy;
                Ok(Action::Git(GitCommand::Status))
            },
            Phase::Violations => self.handle_violations(it, now),
            Phase::Handled => self.after_policy(it),
            Phase::Recorded => self.end_iteration(it),
            Phase::Ended => self.close(it, now),
            Phase::Completing => self.save(it),
            Phase::Saving => {
                let result = IterationResult {
                    success: it.success(),
                    agent_exit_code: it.agent_exit_code,
                    validators_passed: it.validators_passed,
                    policy_passed: it.policy_passed,
                    checkpoint_sha: clone_opt_string(&it.checkpoint_sha),
                };
                it.phase = Phase::Finished;
                Ok(Action::Finish(result))
            },
            _ => Err(RunError::UnexpectedReply),
        }
    }

    fn on_failed(&mut self, it: &mut Iteration, reason: String) -> (r: Result<Action, RunError>)
        requires
            old(self).wf(),
            old(it).wf(),
        ensures
            final(self).wf(),
            final(it).wf(),
            took(r, final(self)@, final(it)@, failed_step(old(self)@, old(it)@, reason@)),
    {
        proof {
            reveal(failed_step);
        }
        match it.phase {
            Phase::Recorded => {
                it.checkpoint_sha = None;
                self.end_iteration(it)
            },
            Phase::Agent
            | Phase::Update
            | Phase::Validating
            | Phase::Policy
            | Phase::Resetting
            | Phase::Dirty
            | Phase::Staging
            | Phase::Committing
            | Phase::Finished => Err(RunError::UnexpectedReply),
            _ => Err(RunError::Outside(reason)),
        }
    }

    fn on_git(&mut self, it: &mut Iteration, reply: GitReply) -> (r: Result<Action, RunError>)
        requires
            old(self).wf(),
            old(it).wf(),
        ensures
            final(self).wf(),
            final(it).wf(),
            took(r, final(self)@, final(it)@, git_step(old(self)@, old(it)@, reply)),
    {
        proof {
            reveal(git_step);
            reveal(staged_step);
        }
        match it.phase {
            Phase::Policy => self.check_policy(it, reply),
            Phase::Resetting => self.go_on_resetting(it, reply),
            Phase::Dirty => self.see_if_dirty(it, reply),
            Phase::Staging => {
                it.replies = Vec::new();
                it.phase = Phase::Committing;
                assert(it@.replies =~= Seq::empty());
                Ok(Action::Git(GitCommand::AddAll))
            },
            Phase::Committing => self.go_on_committing(it, reply),
            _ => Err(RunError::UnexpectedReply),
        }
    }

    /// Takes the iteration one step further, given what came of the last
    /// action and the time (Unix ms).
    pub fn advance(&mut self, it: &mut Iteration, reply: Reply, now: u64) -> (r: Result<
        Action,
        RunError,
    >)
        requires
            old(self).wf(),
            old(it).wf(),
        ensures
            final(self).wf(),
            final(it).wf(),
            took(r, final(self)@, final(it)@, step(old(self)@, old(it)@, reply@, now)),
    {
        match reply {
            Reply::Done => self.on_done(it, now),
            Reply::Failed(reason) => self.on_failed(it, reason),
            Reply::Agent(code) => {
                if it.phase != Phase::Agent {
                    return Err(RunError::UnexpectedReply);
                }
                match code {
                    Some(c) => self.note_agent(it, c),
                    None => self.note_agent(it, -1),
                }
            },
            Reply::Update(update) => {
                if it.phase != Phase::Update {
                    return Err(RunError::UnexpectedReply);
                }
                self.apply_update(it, update)
            },
            Reply::Validator(run) => {
                if it.phase != Phase::Validating {
                    return Err(RunError::UnexpectedReply);
                }
                self.note_validator(it, run)
            },
            Reply::Git(reply) => self.on_git(it, reply),
        }
    }
}

} // verus!
