//! What holds of every iteration, whatever the replies.

use vstd::prelude::*;

use crate::iteration::{
    agent_step, all_validators, begin, close_step, commit_on, dirty_step, done_step, end_step, failed_step,
    git_step, handle_step, judge_step, judged_step, mark_step, policy_step, reset_on, result_of,
    run_step, save_step, staged_step, step, succeeded, update_step, validator_step, validators_of,
    ActionView, IterationView, Phase, ReplyView, StepView,
};
use crate::event::{EventView, ValidatorStatus};
use crate::policy::{law_clean_iff_each_clean, violation_of, violations_of, ViolationAction};
use crate::porcelain::status_changes;
use crate::prompt::prompt_of;
use crate::run::{
    checkpoint_on, terminal, timed, CheckpointView, EffectView, EngineView, RunErrorView, RunState, RunView, TaskUpdateView,
};
use crate::search::lines;
use crate::task::{
    all_done, current_index, law_complete_iff_all_counted, law_current_task_exists,
    law_current_task_is_open, lemma_id_index, TaskStatus,
    TaskView,
};
use crate::text::trim;
use crate::validation::{all_pass, ValidatorRunView};
use crate::workspace::{checkpoint_message, output_of, GitCommandView, GitReply};

verus! {

/// Whether the agent's work is still to be judged by the policy.
pub open spec fn unjudged(phase: Phase) -> bool {
    stages_left(phase) > 8
}

/// Whether a commit is being made or was just made.
pub open spec fn committing(phase: Phase) -> bool {
    3 < stages_left(phase) < 8
}

/// Whether all of the task's validators ran and passed, and the policy was kept
/// or says to keep changes that violate it.
pub open spec fn held(e: EngineView, it: IterationView) -> bool {
    &&& it.validators == validators_of(it.task, e.config.validators)
    &&& it.results.len() == it.validators.len()
    &&& all_pass(it.results)
    &&& it.policy_passed || e.policy.on_violation == ViolationAction::Keep
}

/// Whether the iteration has earned a commit: the agent exited with code 0, and
/// validators and policy hold.
pub open spec fn earned(e: EngineView, it: IterationView) -> bool {
    it.agent_exit_code == Some(0i32) && held(e, it)
}

/// What holds once the validators have run.
pub open spec fn validated(e: EngineView, it: IterationView) -> bool {
    &&& it.should_checkpoint ==> it.policy_passed || e.policy.on_violation == ViolationAction::Keep
    &&& it.validators == validators_of(it.task, e.config.validators)
    &&& it.results.len() == it.validators.len()
    &&& it.checkpoint_sha is Some ==> earned(e, it) && succeeded(it)
}

/// What holds between the steps of every iteration.
pub open spec fn consistent(e: EngineView, it: IterationView) -> bool {
    &&& unjudged(it.phase) ==> !it.should_checkpoint
    &&& stages_left(it.phase) > 4 ==> it.checkpoint_sha is None
    &&& it.phase == Phase::Validating || it.phase == Phase::ValidatorLogged ==> it.validators
        == validators_of(it.task, e.config.validators) && it.results.len() <= it.validators.len()
    &&& stages_left(it.phase) < 12 ==> validated(e, it)
    &&& committing(it.phase) ==> earned(e, it) && it.should_checkpoint
}

// ------------------------------------------------------------------ termination

/// How many stages lie before the end.
pub open spec fn stages_left(phase: Phase) -> nat {
    match phase {
        Phase::Started => 18,
        Phase::Marked => 17,
        Phase::Agent => 16,
        Phase::AgentLogged => 15,
        Phase::Update => 14,
        Phase::Updated => 13,
        Phase::Validating => 12,
        Phase::ValidatorLogged => 12,
        Phase::Validated => 11,
        Phase::Policy => 10,
        Phase::Violations => 9,
        Phase::Resetting => 8,
        Phase::Handled => 8,
        Phase::Dirty => 7,
        Phase::Staging => 6,
        Phase::Committing => 5,
        Phase::Recorded => 4,
        Phase::Ended => 3,
        Phase::Completing => 2,
        Phase::Saving => 1,
        Phase::Finished => 0,
    }
}

/// How many steps the present stage may still take.
pub open spec fn steps_left(it: IterationView) -> int {
    match it.phase {
        Phase::Validating => 2 * (it.validators.len() - it.results.len()),
        Phase::ValidatorLogged => 2 * (it.validators.len() - it.results.len()) + 1,
        Phase::Resetting => 4 - it.replies.len(),
        Phase::Committing => 4 - it.replies.len(),
        _ => 0,
    }
}

/// Whether the second state is nearer the end than the first.
pub open spec fn nearer(it: IterationView, next: IterationView) -> bool {
    ||| stages_left(next.phase) < stages_left(it.phase)
    ||| stages_left(next.phase) == stages_left(it.phase) && 0 <= steps_left(next) < steps_left(it)
}

// --------------------------------------------------------------- one step's laws

/// Whether two states of the engine are of one run under one configuration.
pub open spec fn same_run(e: EngineView, next: EngineView) -> bool {
    &&& next.run.run_id == e.run.run_id
    &&& next.run.git_mode == e.run.git_mode
    &&& next.run.iteration == e.run.iteration
    &&& next.run.started_at == e.run.started_at
    &&& next.run.original_branch == e.run.original_branch
    &&& next.run.run_branch == e.run.run_branch
    &&& next.run.current_task_id == e.run.current_task_id
    &&& next.config == e.config
    &&& next.policy == e.policy
    &&& next.repo_path == e.repo_path
    &&& next.tasks.path == e.tasks.path
    &&& next.tasks.tasks.len() == e.tasks.tasks.len()
}

/// What a step from the given state keeps.
pub open spec fn sound(e: EngineView, it: IterationView, s: StepView) -> bool {
    &&& consistent(s.engine, s.it)
    &&& same_run(e, s.engine)
    &&& s.it.task == it.task
    &&& s.action is Ok ==> nearer(it, s.it)
    &&& s.action matches Ok(ActionView::Git(GitCommandView::Commit(m))) ==> earned(s.engine, s.it)
        && m == checkpoint_message(e.run.iteration, it.task.id, it.task.title)
    &&& s.action matches Ok(ActionView::Finish(r)) ==> r == result_of(s.it) && it.phase
        == Phase::Saving && s.engine == e && s.it == (IterationView {
        phase: Phase::Finished,
        ..it
    })
    &&& terminal(e.run.state) ==> s.engine.run.state == e.run.state
    &&& s.action is Ok && s.it.phase == Phase::Saving ==> s.action == Ok::<_, RunErrorView>(
        ActionView::Perform(seq![EffectView::SaveRun(s.engine.run)]),
    )
    &&& timed(e.run) ==> timed(s.engine.run)
    &&& s.engine.run.state == RunState::Completed ==> e.run.state == RunState::Completed
        || (all_done(e.tasks.tasks) && held(e, it))
}

proof fn lemma_mark(e: EngineView, it: IterationView)
    requires
        consistent(e, it),
        it.phase == Phase::Started,
    ensures
        sound(e, it, mark_step(e, it)),
{
    reveal(mark_step);
    lemma_id_index(e.tasks.tasks, it.task.id, 0);
}

proof fn lemma_agent(e: EngineView, it: IterationView, code: i32)
    requires
        consistent(e, it),
        it.phase == Phase::Marked || it.phase == Phase::Agent,
    ensures
        sound(e, it, agent_step(e, it, code)),
{
    reveal(agent_step);
}

proof fn lemma_run(e: EngineView, it: IterationView)
    requires
        consistent(e, it),
        it.phase == Phase::Marked,
    ensures
        sound(e, it, run_step(e, it)),
{
    reveal(run_step);
    lemma_agent(e, it, -1i32);
}

proof fn lemma_update(e: EngineView, it: IterationView, update: Option<TaskUpdateView>)
    requires
        consistent(e, it),
        it.phase == Phase::Update,
    ensures
        sound(e, it, update_step(e, it, update)),
{
    reveal(update_step);
    match update {
        Some(u) => {
            lemma_id_index(e.tasks.tasks, u.task_id, 0);
        },
        None => {},
    }
}

proof fn lemma_validator(e: EngineView, it: IterationView, from: IterationView)
    requires
        it.validators == validators_of(it.task, e.config.validators),
        it.results.len() <= it.validators.len(),
        !it.should_checkpoint,
        it.checkpoint_sha is None,
        it.task == from.task,
        it == from && it.phase == Phase::ValidatorLogged || from.phase == Phase::Updated,
    ensures
        sound(e, from, validator_step(e, it)),
{
    reveal(validator_step);
}

proof fn lemma_judge(e: EngineView, it: IterationView, run: ValidatorRunView)
    requires
        consistent(e, it),
        it.phase == Phase::Validating,
    ensures
        sound(e, it, judge_step(e, it, run)),
{
    reveal(judge_step);
}

proof fn lemma_policy(e: EngineView, it: IterationView, reply: GitReply)
    requires
        consistent(e, it),
        it.phase == Phase::Policy,
    ensures
        sound(e, it, policy_step(e, it, reply)),
{
    reveal(policy_step);
}

/// Whether `it` is the state `from` with what a step notes in it.
spec fn noted(it: IterationView, from: IterationView) -> bool {
    it.task == from.task && stages_left(it.phase) == stages_left(from.phase)
}

proof fn lemma_end(e: EngineView, it: IterationView, from: IterationView)
    requires
        validated(e, it),
        noted(it, from),
        stages_left(from.phase) > 3,
    ensures
        sound(e, from, end_step(e, it)),
{
    reveal(end_step);
}

proof fn lemma_judged(e: EngineView, it: IterationView, from: IterationView)
    requires
        validated(e, it),
        it.checkpoint_sha is None,
        noted(it, from),
        stages_left(from.phase) == 8 || from.phase == Phase::Violations,
    ensures
        sound(e, from, judged_step(e, it)),
{
    reveal(judged_step);
    lemma_end(e, it, from);
}

proof fn lemma_handle(e: EngineView, it: IterationView, now: u64)
    requires
        consistent(e, it),
        it.phase == Phase::Violations,
    ensures
        sound(e, it, handle_step(e, it, now)),
{
    reveal(handle_step);
    let kept = IterationView { should_checkpoint: true, ..it };
    if it.policy_passed || e.policy.on_violation == ViolationAction::Keep {
        lemma_judged(e, kept, it);
    }
}

proof fn lemma_reset(e: EngineView, it: IterationView, reply: GitReply)
    requires
        consistent(e, it),
        it.phase == Phase::Resetting,
    ensures
        sound(e, it, reset_on(e, IterationView { replies: it.replies.push(reply), ..it })),
{
    reveal(reset_on);
    let longer = IterationView { replies: it.replies.push(reply), ..it };
    lemma_judged(e, longer, it);
}

proof fn lemma_dirty(e: EngineView, it: IterationView, reply: GitReply)
    requires
        consistent(e, it),
        it.phase == Phase::Dirty,
    ensures
        sound(e, it, dirty_step(e, it, reply)),
{
    reveal(dirty_step);
    lemma_end(e, it, it);
}

proof fn lemma_staged(e: EngineView, it: IterationView)
    requires
        consistent(e, it),
        it.phase == Phase::Staging,
    ensures
        sound(e, it, staged_step(e, it)),
{
    reveal(staged_step);
}

proof fn lemma_commit(e: EngineView, it: IterationView, reply: GitReply)
    requires
        consistent(e, it),
        it.phase == Phase::Committing,
    ensures
        sound(e, it, commit_on(e, IterationView { replies: it.replies.push(reply), ..it })),
{
    reveal(commit_on);
    let longer = IterationView { replies: it.replies.push(reply), ..it };
    lemma_end(e, longer, it);
}

proof fn lemma_save(e: EngineView, it: IterationView)
    requires
        consistent(e, it),
        it.phase == Phase::Ended || it.phase == Phase::Completing,
    ensures
        sound(e, it, save_step(e, it)),
{
    reveal(save_step);
}

proof fn lemma_close(e: EngineView, it: IterationView, now: u64)
    requires
        consistent(e, it),
        it.phase == Phase::Ended,
    ensures
        sound(e, it, close_step(e, it, now)),
{
    reveal(close_step);
    lemma_save(e, it);
}

proof fn lemma_done(e: EngineView, it: IterationView, now: u64)
    requires
        consistent(e, it),
    ensures
        sound(e, it, done_step(e, it, now)),
{
    reveal(done_step);
    match it.phase {
        Phase::Started => lemma_mark(e, it),
        Phase::Marked => lemma_run(e, it),
        Phase::Updated => {
            let chosen = IterationView {
                validators: validators_of(it.task, e.config.validators),
                results: Seq::empty(),
                ..it
            };
            lemma_validator(e, chosen, it);
        },
        Phase::ValidatorLogged => lemma_validator(e, it, it),
        Phase::Violations => lemma_handle(e, it, now),
        Phase::Handled => lemma_judged(e, it, it),
        Phase::Recorded => lemma_end(e, it, it),
        Phase::Ended => lemma_close(e, it, now),
        Phase::Completing => lemma_save(e, it),
        _ => {},
    }
}

proof fn lemma_failed(e: EngineView, it: IterationView, reason: Seq<char>)
    requires
        consistent(e, it),
    ensures
        sound(e, it, failed_step(e, it, reason)),
{
    reveal(failed_step);
    if it.phase == Phase::Recorded {
        lemma_end(e, IterationView { checkpoint_sha: None, ..it }, it);
    }
}

proof fn lemma_git(e: EngineView, it: IterationView, reply: GitReply)
    requires
        consistent(e, it),
    ensures
        sound(e, it, git_step(e, it, reply)),
{
    reveal(git_step);
    match it.phase {
        Phase::Policy => lemma_policy(e, it, reply),
        Phase::Resetting => lemma_reset(e, it, reply),
        Phase::Dirty => lemma_dirty(e, it, reply),
        Phase::Staging => lemma_staged(e, it),
        Phase::Committing => lemma_commit(e, it, reply),
        _ => {},
    }
}

/// Every step from a consistent state is sound.
proof fn lemma_step(e: EngineView, it: IterationView, reply: ReplyView, now: u64)
    requires
        consistent(e, it),
    ensures
        sound(e, it, step(e, it, reply, now)),
{
    match reply {
        ReplyView::Done => lemma_done(e, it, now),
        ReplyView::Failed(reason) => lemma_failed(e, it, reason),
        ReplyView::Agent(code) => {
            if it.phase == Phase::Agent {
                match code {
                    Some(c) => lemma_agent(e, it, c),
                    None => lemma_agent(e, it, -1i32),
                }
            }
        },
        ReplyView::Update(update) => {
            if it.phase == Phase::Update {
                lemma_update(e, it, update);
            }
        },
        ReplyView::Validator(run) => {
            if it.phase == Phase::Validating {
                lemma_judge(e, it, run);
            }
        },
        ReplyView::Git(g) => lemma_git(e, it, g),
    }
}

// ------------------------------------------------------------------------ laws

/// An iteration begins consistent, and every step keeps it so.
pub proof fn law_stays_consistent(
    e: EngineView,
    guide: Seq<char>,
    it: IterationView,
    reply: ReplyView,
    now: u64,
)
    ensures
        begin(e, guide) matches Ok(p) ==> consistent(p.0, p.1),
        consistent(e, it) ==> consistent(
            step(e, it, reply, now).engine,
            step(e, it, reply, now).it,
        ),
{
    if consistent(e, it) {
        lemma_step(e, it, reply, now);
    }
}

/// An iteration ends: with every step that does not fail, a stage is left
/// behind, or a step of the present stage, of which there are finitely many.
pub proof fn law_iteration_ends(e: EngineView, it: IterationView, reply: ReplyView, now: u64)
    requires
        consistent(e, it),
    ensures
        step(e, it, reply, now).action is Ok ==> nearer(it, step(e, it, reply, now).it),
{
    lemma_step(e, it, reply, now);
}

/// A commit is made only where it was earned, and with the message that names
/// the iteration and its task.
pub proof fn law_commit_is_earned(e: EngineView, it: IterationView, reply: ReplyView, now: u64)
    requires
        consistent(e, it),
    ensures
        step(e, it, reply, now).action matches Ok(ActionView::Git(GitCommandView::Commit(m)))
            ==> earned(step(e, it, reply, now).engine, step(e, it, reply, now).it) && m
            == checkpoint_message(e.run.iteration, it.task.id, it.task.title),
{
    lemma_step(e, it, reply, now);
}

/// The result says that an iteration succeeded only where it has earned a
/// commit, or where it ran no agent and validators and policy hold. It tells of
/// a checkpoint only where it succeeded.
pub proof fn law_success_is_earned(e: EngineView, it: IterationView, reply: ReplyView, now: u64)
    requires
        consistent(e, it),
    ensures
        step(e, it, reply, now).action matches Ok(ActionView::Finish(r)) ==> (r.success ==> held(e, it)
            && (it.closing || earned(e, it))) && (r.checkpoint_sha is Some ==> r.success),
{
    lemma_step(e, it, reply, now);
}

/// A validator that fails keeps the iteration from succeeding and from being
/// committed.
pub proof fn law_failed_validator_blocks(
    e: EngineView,
    it: IterationView,
    reply: ReplyView,
    now: u64,
)
    requires
        consistent(e, it),
        stages_left(it.phase) < 12,
        !all_pass(it.results),
    ensures
        !(step(e, it, reply, now).action matches Ok(ActionView::Git(GitCommandView::Commit(_)))),
        step(e, it, reply, now).action matches Ok(ActionView::Finish(r)) ==> !r.success
            && r.checkpoint_sha is None,
        !all_pass(step(e, it, reply, now).it.results),
{
    lemma_step(e, it, reply, now);
    reveal(done_step);
    reveal(failed_step);
    reveal(git_step);
    reveal(policy_step);
    reveal(handle_step);
    reveal(judged_step);
    reveal(end_step);
    reveal(reset_on);
    reveal(dirty_step);
    reveal(staged_step);
    reveal(commit_on);
    reveal(close_step);
    reveal(save_step);
}

/// Under a policy that aborts, a violation aborts the run, and the iteration is
/// no success.
pub proof fn law_violation_aborts(e: EngineView, it: IterationView, now: u64)
    requires
        it.phase == Phase::Violations,
        !it.policy_passed,
        e.policy.on_violation == ViolationAction::Abort,
        !terminal(e.run.state),
    ensures
        step(e, it, ReplyView::Done, now).engine.run.state == RunState::Aborted,
        step(e, it, ReplyView::Done, now).engine.run.ended_at == Some(now),
        !succeeded(step(e, it, ReplyView::Done, now).it),
{
    reveal(done_step);
    reveal(handle_step);
}

/// Under a policy that resets, a violation discards the changes and leaves the
/// run as it is, and the iteration is no success.
pub proof fn law_violation_resets(e: EngineView, it: IterationView, now: u64)
    requires
        it.phase == Phase::Violations,
        !it.policy_passed,
        e.policy.on_violation == ViolationAction::Reset,
    ensures
        step(e, it, ReplyView::Done, now).engine == e,
        step(e, it, ReplyView::Done, now).action == Ok::<_, RunErrorView>(
            ActionView::Git(GitCommandView::ResetHard),
        ),
        !succeeded(step(e, it, ReplyView::Done, now).it),
{
    reveal(done_step);
    reveal(handle_step);
}

/// A step changes neither the run's identity nor the configuration, and counts
/// no iteration: that is done once, at the beginning.
pub proof fn law_identity_is_kept(e: EngineView, it: IterationView, reply: ReplyView, now: u64)
    requires
        consistent(e, it),
    ensures
        same_run(e, step(e, it, reply, now).engine),
        step(e, it, reply, now).it.task == it.task,
{
    lemma_step(e, it, reply, now);
}

/// An iteration counts one more, on the task that is to be worked on.
pub proof fn law_iteration_is_counted(e: EngineView, guide: Seq<char>)
    requires
        e.run.state == RunState::Running,
        e.run.iteration < u32::MAX,
        current_index(e.tasks.tasks) is Some,
    ensures
        begin(e, guide) matches Ok(p) && p.0.run.iteration == e.run.iteration + 1
            && p.0.run.current_task_id == Some(e.tasks.tasks[current_index(e.tasks.tasks)->0].id)
            && !p.1.closing,
{
}

/// An iteration begins exactly where the run is running and some task is open,
/// or all are done.
pub proof fn law_only_running_runs_iterate(e: EngineView, guide: Seq<char>)
    ensures
        begin(e, guide) is Ok <==> e.run.state == RunState::Running && (current_index(
            e.tasks.tasks,
        ) is Some || all_done(e.tasks.tasks)),
{
}

/// The beginning of an iteration never ends a run. Where all tasks are done it
/// leaves the engine as it is, and the validators of all tasks are to be run.
pub proof fn law_beginning_completes_nothing(e: EngineView, guide: Seq<char>)
    ensures
        begin(e, guide) matches Ok(p) ==> p.0.run.state == e.run.state && (p.1.closing <==> all_done(
            e.tasks.tasks,
        )) && (p.1.closing ==> p.0 == e && validators_of(p.1.task, e.config.validators)
            == all_validators(e.tasks.tasks, e.config.validators)),
{
    law_current_task_exists(e.tasks.tasks);
    lemma_configured_run(e.tasks.tasks, e.config.validators);
}

proof fn lemma_configured_run(ts: Seq<TaskView>, configured: Seq<Seq<char>>)
    ensures
        all_validators(ts, configured).len() == 0 ==> all_validators(ts, configured) == configured,
    decreases ts.len(),
{
    if ts.len() > 0 {
        lemma_configured_run(ts.drop_last(), configured);
        if all_validators(ts, configured).len() == 0 {
            assert(all_validators(ts, configured) =~= all_validators(ts.drop_last(), configured));
        }
    }
}

/// Among the validators of all tasks are the configured ones and those of each
/// task.
pub proof fn law_all_validators_run(ts: Seq<TaskView>, configured: Seq<Seq<char>>)
    ensures
        forall|k: int|
            0 <= k < configured.len() ==> all_validators(ts, configured).contains(
                #[trigger] configured[k],
            ),
        forall|i: int, k: int|
            0 <= i < ts.len() && 0 <= k < ts[i].validators.len() ==> all_validators(
                ts,
                configured,
            ).contains(#[trigger] ts[i].validators[k]),
    decreases ts.len(),
{
    let all = all_validators(ts, configured);
    if ts.len() == 0 {
        assert forall|k: int| 0 <= k < configured.len() implies all.contains(
            #[trigger] configured[k],
        ) by {
            assert(all[k] == configured[k]);
        }
    } else {
        let front = all_validators(ts.drop_last(), configured);
        law_all_validators_run(ts.drop_last(), configured);
        assert forall|x: Seq<char>| #[trigger] front.contains(x) implies all.contains(x) by {
            let j = choose|j: int| 0 <= j < front.len() && front[j] == x;
            assert(all[j] == x);
        }
        assert forall|i: int, k: int|
            0 <= i < ts.len() && 0 <= k < ts[i].validators.len() implies all.contains(
            #[trigger] ts[i].validators[k],
        ) by {
            if i < ts.len() - 1 {
                assert(ts.drop_last()[i] == ts[i]);
                assert(front.contains(ts.drop_last()[i].validators[k]));
            } else {
                assert(all[front.len() + k] == ts[i].validators[k]);
            }
        }
    }
}

/// A run with a blocked task is not completed at the beginning of an iteration,
/// nor by any step of one.
pub proof fn law_blocked_task_keeps_run_open(
    e: EngineView,
    guide: Seq<char>,
    it: IterationView,
    reply: ReplyView,
    now: u64,
    i: int,
)
    requires
        consistent(e, it),
        e.run.state != RunState::Completed,
        0 <= i < e.tasks.tasks.len(),
        e.tasks.tasks[i].status == TaskStatus::Blocked,
    ensures
        begin(e, guide) matches Ok(p) ==> p.0.run.state != RunState::Completed,
        step(e, it, reply, now).engine.run.state != RunState::Completed,
{
    lemma_step(e, it, reply, now);
    assert(!all_done(e.tasks.tasks));
}

/// A step completes a run only where all tasks are done, the iteration's
/// validators ran and passed, and the policy was kept or says to keep changes
/// that violate it.
pub proof fn law_completion_is_earned(
    e: EngineView,
    it: IterationView,
    reply: ReplyView,
    now: u64,
)
    requires
        consistent(e, it),
        e.run.state != RunState::Completed,
    ensures
        step(e, it, reply, now).engine.run.state == RunState::Completed ==> all_done(
            e.tasks.tasks,
        ) && held(e, it),
{
    lemma_step(e, it, reply, now);
}

/// An iteration that ends with all tasks done, all validators passed and the
/// policy kept completes a run that has not ended, whatever the agent's exit
/// code.
pub proof fn law_done_run_is_completed(e: EngineView, it: IterationView, now: u64)
    requires
        it.phase == Phase::Ended,
        all_done(e.tasks.tasks),
        all_pass(it.results),
        it.policy_passed,
        !terminal(e.run.state),
    ensures
        step(e, it, ReplyView::Done, now).engine.run.state == RunState::Completed,
        step(e, it, ReplyView::Done, now).engine.run.ended_at == Some(now),
{
    reveal(done_step);
    reveal(close_step);
}

/// Through a whole iteration, a run has a time of end exactly where it has
/// ended.
pub proof fn law_iterated_runs_are_timed(
    e: EngineView,
    guide: Seq<char>,
    it: IterationView,
    reply: ReplyView,
    now: u64,
)
    requires
        consistent(e, it),
        timed(e.run),
    ensures
        begin(e, guide) matches Ok(p) ==> timed(p.0.run),
        timed(step(e, it, reply, now).engine.run),
{
    lemma_step(e, it, reply, now);
}

/// A run that has ended stays as it ended: one that was aborted stays aborted.
pub proof fn law_ended_stays_ended(e: EngineView, it: IterationView, reply: ReplyView, now: u64)
    requires
        consistent(e, it),
        terminal(e.run.state),
    ensures
        step(e, it, reply, now).engine.run.state == e.run.state,
{
    lemma_step(e, it, reply, now);
}

/// The run that an iteration leaves is the run that was saved last: whatever
/// leads to the saving phase saves the engine's run, and the end changes
/// nothing any more.
pub proof fn law_saved_before_finish(e: EngineView, it: IterationView, reply: ReplyView, now: u64)
    requires
        consistent(e, it),
    ensures
        ({
            let s = step(e, it, reply, now);
            &&& s.action is Ok && s.it.phase == Phase::Saving ==> s.action == Ok::<_, RunErrorView>(
                ActionView::Perform(seq![EffectView::SaveRun(s.engine.run)]),
            )
            &&& s.action matches Ok(ActionView::Finish(_)) ==> it.phase == Phase::Saving
                && s.engine == e
        }),
{
    lemma_step(e, it, reply, now);
}

// ------------------------------------------------------- what the phases do

/// Whether `i` is the first place of a task with the given identifier.
pub open spec fn is_first_with_id(ts: Seq<TaskView>, id: Seq<char>, i: int) -> bool {
    &&& 0 <= i < ts.len()
    &&& ts[i].id == id
    &&& forall|k: int| 0 <= k < i ==> (#[trigger] ts[k]).id != id
}

/// Whether two tasks differ in nothing but status and notes.
pub open spec fn same_work(a: TaskView, b: TaskView) -> bool {
    a.id == b.id && a.title == b.title && a.acceptance == b.acceptance && a.validators
        == b.validators
}

/// Whether the engines differ in nothing but the tasks, and these in no other
/// task than that at `i`.
pub open spec fn only_task_differs(a: EngineView, b: EngineView, i: int) -> bool {
    &&& a.repo_path == b.repo_path
    &&& a.run == b.run
    &&& a.config == b.config
    &&& a.policy == b.policy
    &&& a.workspace_branch == b.workspace_branch
    &&& a.tasks.path == b.tasks.path
    &&& a.tasks.tasks.len() == b.tasks.tasks.len()
    &&& forall|k: int|
        0 <= k < a.tasks.tasks.len() && k != i ==> #[trigger] a.tasks.tasks[k] == b.tasks.tasks[k]
}

/// The agent's report is believed, whatever it says: the first task that it
/// names gets the status that it gives, and its notes where it has some. No
/// other task and nothing else changes. The new list is saved before the change
/// of status is logged.
pub proof fn law_report_is_applied(
    e: EngineView,
    it: IterationView,
    u: TaskUpdateView,
    i: int,
    now: u64,
)
    requires
        it.phase == Phase::Update,
        is_first_with_id(e.tasks.tasks, u.task_id, i),
    ensures
        ({
            let s = step(e, it, ReplyView::Update(Some(u)), now);
            let before = e.tasks.tasks[i];
            let after = s.engine.tasks.tasks[i];
            &&& after.status == u.new_status
            &&& u.notes is Some ==> after.notes == u.notes
            &&& u.notes is None ==> after.notes == before.notes
            &&& same_work(before, after)
            &&& only_task_differs(e, s.engine, i)
            &&& s.it == (IterationView { phase: Phase::Updated, ..it })
            &&& s.action == Ok::<_, RunErrorView>(
                ActionView::Perform(
                    seq![
                        EffectView::SaveTasks(s.engine.tasks),
                        EffectView::Emit(
                            EventView::TaskStatusChanged {
                                run_id: e.run.run_id,
                                task_id: u.task_id,
                                old_status: before.status,
                                new_status: u.new_status,
                            },
                        ),
                    ],
                ),
            )
        }),
{
    reveal(update_step);
    lemma_id_index(e.tasks.tasks, u.task_id, 0);
}

/// A task that the agent reports as blocked or done is not the one to work on
/// next.
pub proof fn law_reported_task_is_left(
    e: EngineView,
    it: IterationView,
    u: TaskUpdateView,
    i: int,
    now: u64,
)
    requires
        it.phase == Phase::Update,
        is_first_with_id(e.tasks.tasks, u.task_id, i),
        u.new_status == TaskStatus::Blocked || u.new_status == TaskStatus::Done,
    ensures
        current_index(step(e, it, ReplyView::Update(Some(u)), now).engine.tasks.tasks) != Some(i),
{
    law_report_is_applied(e, it, u, i, now);
    law_current_task_is_open(
        step(e, it, ReplyView::Update(Some(u)), now).engine.tasks.tasks,
    );
}

/// Without a report, or with one that names no task, nothing changes and nothing
/// is saved or logged.
pub proof fn law_no_report_changes_nothing(
    e: EngineView,
    it: IterationView,
    update: Option<TaskUpdateView>,
    now: u64,
)
    requires
        it.phase == Phase::Update,
        update matches Some(u) ==> forall|k: int|
            0 <= k < e.tasks.tasks.len() ==> (#[trigger] e.tasks.tasks[k]).id != u.task_id,
    ensures
        ({
            let s = step(e, it, ReplyView::Update(update), now);
            &&& s.engine == e
            &&& s.it == (IterationView { phase: Phase::Updated, ..it })
            &&& s.action == Ok::<_, RunErrorView>(ActionView::Perform(Seq::empty()))
        }),
{
    reveal(update_step);
    match update {
        Some(u) => lemma_id_index(e.tasks.tasks, u.task_id, 0),
        None => {},
    }
}

/// A task that was to do is in progress before the agent starts, which is saved
/// and logged. A task in another state is left as it is.
pub proof fn law_task_is_marked(e: EngineView, it: IterationView, i: int, now: u64)
    requires
        it.phase == Phase::Started,
        is_first_with_id(e.tasks.tasks, it.task.id, i),
    ensures
        ({
            let s = step(e, it, ReplyView::Done, now);
            let before = e.tasks.tasks[i];
            let after = s.engine.tasks.tasks[i];
            &&& s.it == (IterationView { phase: Phase::Marked, ..it })
            &&& only_task_differs(e, s.engine, i)
            &&& it.task.status == TaskStatus::Todo ==> after.status == TaskStatus::InProgress
                && after.notes == before.notes && same_work(before, after)
            &&& it.task.status == TaskStatus::Todo ==> s.action == Ok::<_, RunErrorView>(
                ActionView::Perform(
                    seq![
                        EffectView::SaveTasks(s.engine.tasks),
                        EffectView::Emit(
                            EventView::TaskStatusChanged {
                                run_id: e.run.run_id,
                                task_id: it.task.id,
                                old_status: before.status,
                                new_status: TaskStatus::InProgress,
                            },
                        ),
                    ],
                ),
            )
            &&& it.task.status != TaskStatus::Todo ==> s.engine == e && s.action == Ok::<
                _,
                RunErrorView,
            >(ActionView::Perform(Seq::empty()))
        }),
{
    reveal(done_step);
    reveal(mark_step);
    lemma_id_index(e.tasks.tasks, it.task.id, 0);
}

/// The agent is run by its configured command, with `-p` and the prompt behind
/// the command's own arguments. Without a command it counts as having exited
/// with -1.
pub proof fn law_agent_is_run(e: EngineView, it: IterationView, now: u64)
    requires
        it.phase == Phase::Marked,
    ensures
        ({
            let s = step(e, it, ReplyView::Done, now);
            let cmd = e.config.agent->0.cmd;
            let has_agent = e.config.agent is Some && cmd.len() > 0;
            &&& s.engine == e
            &&& has_agent ==> s.it == (IterationView { phase: Phase::Agent, ..it })
            &&& has_agent ==> (s.action matches Ok(ActionView::RunAgent(q)) && q.program == cmd[0]
                && q.args.len() == cmd.len() + 1 && (forall|k: int|
                1 <= k < cmd.len() ==> q.args[k - 1] == #[trigger] cmd[k]) && q.args[q.args.len()
                - 2] == "-p"@ && q.args.last() == prompt_of(it.task, it.guide))
            &&& !has_agent ==> s.it.phase == Phase::AgentLogged && s.it.agent_exit_code == Some(
                -1i32,
            )
        }),
{
    reveal(done_step);
    reveal(run_step);
    reveal(agent_step);
}

/// The agent's exit code is noted and logged as it is, and as -1 where there is
/// none.
pub proof fn law_exit_code_is_noted(e: EngineView, it: IterationView, code: Option<i32>, now: u64)
    requires
        it.phase == Phase::Agent,
    ensures
        ({
            let s = step(e, it, ReplyView::Agent(code), now);
            let noted = if code is Some {
                code->0
            } else {
                -1i32
            };
            &&& s.engine == e
            &&& s.it == (IterationView {
                phase: Phase::AgentLogged,
                agent_exit_code: Some(noted),
                ..it
            })
            &&& s.action == Ok::<_, RunErrorView>(
                ActionView::Perform(
                    seq![
                        EffectView::Emit(
                            EventView::AgentCompleted {
                                run_id: e.run.run_id,
                                iteration: e.run.iteration,
                                exit_code: Some(noted),
                            },
                        ),
                    ],
                ),
            )
        }),
{
    reveal(agent_step);
}

/// The validators that are run are the task's own where it has some, and else
/// the configured ones. They begin with the first, and without any the policy is
/// next.
pub proof fn law_own_validators_come_first(e: EngineView, it: IterationView, now: u64)
    requires
        it.phase == Phase::Updated,
    ensures
        ({
            let s = step(e, it, ReplyView::Done, now);
            let own = it.task.validators;
            let all = e.config.validators;
            &&& s.engine == e
            &&& s.it.results.len() == 0
            &&& own.len() > 0 ==> s.it.validators == own
            &&& own.len() == 0 ==> s.it.validators == all
            &&& own.len() > 0 ==> s.action == Ok::<_, RunErrorView>(
                ActionView::RunValidator(own[0]),
            )
            &&& own.len() == 0 && all.len() > 0 ==> s.action == Ok::<_, RunErrorView>(
                ActionView::RunValidator(all[0]),
            )
            &&& own.len() == 0 && all.len() == 0 ==> s.action == Ok::<_, RunErrorView>(
                ActionView::Git(GitCommandView::Status),
            )
        }),
{
    reveal(done_step);
    reveal(validator_step);
}

/// A validator passes exactly where its command ran and exited with 0. Its
/// result is logged, and stands behind those of the validators before it.
pub proof fn law_validator_is_judged(
    e: EngineView,
    it: IterationView,
    run: ValidatorRunView,
    now: u64,
)
    requires
        it.phase == Phase::Validating,
        it.results.len() < it.validators.len(),
    ensures
        ({
            let s = step(e, it, ReplyView::Validator(run), now);
            let n = it.results.len() as int;
            let r = s.it.results[n];
            &&& s.engine == e
            &&& s.it == (IterationView {
                phase: Phase::ValidatorLogged,
                results: it.results.push(r),
                ..it
            })
            &&& r.command == it.validators[n]
            &&& r.status == ValidatorStatus::Pass || r.status == ValidatorStatus::Fail
            &&& r.status == ValidatorStatus::Pass <==> (run matches ValidatorRunView::Ran {
                exit_code,
                ..
            } && exit_code == Some(0i32))
            &&& run matches ValidatorRunView::Ran { exit_code, .. } ==> r.exit_code == exit_code
            &&& run matches ValidatorRunView::NotRun(m) ==> r.exit_code is None && r.output == Some(
                m,
            )
            &&& s.action == Ok::<_, RunErrorView>(
                ActionView::Perform(
                    seq![
                        EffectView::Emit(
                            EventView::ValidatorResult {
                                run_id: e.run.run_id,
                                iteration: e.run.iteration,
                                validator: it.validators[n],
                                status: r.status,
                                message: r.output,
                            },
                        ),
                    ],
                ),
            )
        }),
{
    reveal(judge_step);
}

/// After a validator comes the next. After the last, all results are saved, with
/// a note on whether every one of them is a pass.
pub proof fn law_validators_run_in_order(e: EngineView, it: IterationView, now: u64)
    requires
        it.phase == Phase::ValidatorLogged,
        0 < it.results.len() <= it.validators.len(),
    ensures
        ({
            let s = step(e, it, ReplyView::Done, now);
            let n = it.results.len() as int;
            &&& s.engine == e
            &&& n < it.validators.len() ==> s.action == Ok::<_, RunErrorView>(
                ActionView::RunValidator(it.validators[n]),
            ) && s.it == (IterationView { phase: Phase::Validating, ..it })
            &&& n == it.validators.len() ==> s.it == (IterationView {
                phase: Phase::Validated,
                ..it
            }) && (s.action matches Ok(ActionView::Perform(effects)) && effects.len() == 1 && (
            effects[0] matches EffectView::WriteValidation { iteration, results } && iteration
                == e.run.iteration && results.validators == it.results && (results.all_passed
                <==> forall|k: int|
                0 <= k < n ==> (#[trigger] it.results[k]).status == ValidatorStatus::Pass)))
        }),
{
    reveal(done_step);
    reveal(validator_step);
}

/// The policy is kept exactly where no change that git reports violates it, and
/// every violation is logged.
pub proof fn law_policy_is_checked(e: EngineView, it: IterationView, out: String, err: String, now: u64)
    requires
        it.phase == Phase::Policy,
    ensures
        ({
            let reply = GitReply::Ran { success: true, stdout: out, stderr: err };
            let s = step(e, it, ReplyView::Git(reply), now);
            let changes = status_changes(lines(out@));
            &&& s.engine == e
            &&& s.it == (IterationView {
                phase: Phase::Violations,
                policy_passed: s.it.policy_passed,
                ..it
            })
            &&& s.it.policy_passed <==> forall|k: int|
                0 <= k < changes.len() ==> violation_of(e.policy, #[trigger] changes[k]) is None
            &&& s.action matches Ok(ActionView::Perform(effects)) && effects.len()
                == violations_of(e.policy, changes).len() && (s.it.policy_passed <==> effects.len()
                == 0) && forall|k: int|
                0 <= k < effects.len() ==> (#[trigger] effects[k] matches EffectView::Emit(
                    EventView::PolicyViolation { run_id, iteration, rule, severity, details },
                ) && run_id == e.run.run_id && iteration == e.run.iteration && rule
                    == violations_of(e.policy, changes)[k].rule && severity == violations_of(
                    e.policy,
                    changes,
                )[k].severity && details == violations_of(e.policy, changes)[k].details)
        }),
{
    reveal(git_step);
    reveal(policy_step);
    law_clean_iff_each_clean(e.policy, status_changes(lines(out@)));
}

/// Changes are committed in four commands: staging, a check, the commit and the
/// question for its identifier. The identifier is noted in the run and in the
/// iteration, logged, and the run saved.
pub proof fn law_checkpoint_is_recorded(
    e: EngineView,
    it: IterationView,
    out: String,
    err: String,
    now: u64,
)
    requires
        it.phase == Phase::Committing,
        it.replies.len() == 3,
        forall|k: int| 0 <= k < 3 ==> (#[trigger] it.replies[k] matches GitReply::Ran {
            success,
            ..
        } && success),
        trim(output_of(it.replies[1])).len() > 0,
    ensures
        ({
            let reply = GitReply::Ran { success: true, stdout: out, stderr: err };
            let s = step(e, it, ReplyView::Git(reply), now);
            let sha = trim(out@);
            &&& s.it.phase == Phase::Recorded
            &&& s.it.checkpoint_sha == Some(sha)
            &&& s.engine == (EngineView {
                run: RunView { last_checkpoint: Some(sha), ..e.run },
                ..e
            })
            &&& s.action == Ok::<_, RunErrorView>(
                ActionView::Perform(
                    seq![
                        EffectView::Emit(
                            EventView::CheckpointCreated {
                                run_id: e.run.run_id,
                                iteration: e.run.iteration,
                                commit_sha: sha,
                            },
                        ),
                        EffectView::SaveRun(s.engine.run),
                    ],
                ),
            )
        }),
{
    reveal(git_step);
    reveal(commit_on);
}

/// An iteration that succeeded and whose changes may stay is committed where git
/// reports anything, and nothing is committed where it reports nothing.
pub proof fn law_changes_are_committed(
    e: EngineView,
    it: IterationView,
    out: String,
    err: String,
    now: u64,
)
    requires
        it.phase == Phase::Dirty,
    ensures
        ({
            let reply = GitReply::Ran { success: true, stdout: out, stderr: err };
            let s = step(e, it, ReplyView::Git(reply), now);
            &&& s.engine == e
            &&& trim(out@).len() > 0 ==> s.it == (IterationView { phase: Phase::Staging, ..it })
                && s.action == Ok::<_, RunErrorView>(ActionView::Git(GitCommandView::AddAll))
            &&& trim(out@).len() == 0 ==> s.it == (IterationView { phase: Phase::Ended, ..it })
        }),
{
    reveal(git_step);
    reveal(dirty_step);
    reveal(end_step);
}

/// With the policy kept, an agent that exited with 0 and passed validators, git
/// is asked for changes to commit. Else the iteration is closed without a commit.
pub proof fn law_clean_success_is_checkpointed(e: EngineView, it: IterationView, now: u64)
    requires
        it.phase == Phase::Violations,
        it.policy_passed,
        !it.closing,
    ensures
        ({
            let s = step(e, it, ReplyView::Done, now);
            let passed = it.agent_exit_code == Some(0i32) && forall|k: int|
                0 <= k < it.results.len() ==> (#[trigger] it.results[k]).status
                    == ValidatorStatus::Pass;
            &&& s.engine == e
            &&& passed ==> s.it.phase == Phase::Dirty && s.it.should_checkpoint && s.action == Ok::<
                _,
                RunErrorView,
            >(ActionView::Git(GitCommandView::Status))
            &&& !passed ==> s.it.phase == Phase::Ended && s.action == Ok::<_, RunErrorView>(
                ActionView::Perform(
                    seq![
                        EffectView::Emit(
                            EventView::IterationCompleted {
                                run_id: e.run.run_id,
                                iteration: e.run.iteration,
                                success: false,
                            },
                        ),
                    ],
                ),
            )
        }),
{
    reveal(done_step);
    reveal(handle_step);
    reveal(judged_step);
    reveal(end_step);
}

/// Under a policy that keeps violating changes, a violation makes no difference
/// to what follows but for the note that there was one.
pub proof fn law_kept_violation_is_no_obstacle(e: EngineView, it: IterationView, now: u64)
    requires
        it.phase == Phase::Violations,
        !it.policy_passed,
        e.policy.on_violation == ViolationAction::Keep,
    ensures
        ({
            let s = step(e, it, ReplyView::Done, now);
            let clean = IterationView { policy_passed: true, ..it };
            let t = step(e, clean, ReplyView::Done, now);
            &&& s.engine == t.engine
            &&& s.action == t.action
            &&& s.it == (IterationView { policy_passed: false, ..t.it })
        }),
{
    reveal(done_step);
    reveal(handle_step);
    reveal(judged_step);
    reveal(end_step);
}

/// The result tells what the iteration noted, and counts as a success exactly
/// where the agent, if one was run, exited with 0, every validator passed, and
/// the policy was kept or its violation tolerated.
pub proof fn law_result_tells_what_happened(e: EngineView, it: IterationView, now: u64)
    requires
        it.phase == Phase::Saving,
    ensures
        step(e, it, ReplyView::Done, now).action matches Ok(ActionView::Finish(r)) && {
            let passed = forall|k: int|
                0 <= k < it.results.len() ==> (#[trigger] it.results[k]).status
                    == ValidatorStatus::Pass;
            &&& r.agent_exit_code == it.agent_exit_code
            &&& r.checkpoint_sha == it.checkpoint_sha
            &&& r.policy_passed == it.policy_passed
            &&& r.validators_passed == passed
            &&& r.success == ((it.closing || it.agent_exit_code == Some(0i32)) && passed && (
            it.policy_passed || it.should_checkpoint))
        },
{
    reveal(done_step);
}

/// A failure to perform what an iteration asks for ends it with that failure,
/// but for a checkpoint that cannot be recorded, which is left out.
pub proof fn law_failure_is_reported(e: EngineView, it: IterationView, reason: Seq<char>, now: u64)
    ensures
        ({
            let s = step(e, it, ReplyView::Failed(reason), now);
            &&& s.engine == e
            &&& it.phase == Phase::Recorded ==> s.it.checkpoint_sha is None && s.it.phase
                == Phase::Ended && s.action is Ok
            &&& it.phase == Phase::Started || it.phase == Phase::Marked || it.phase
                == Phase::AgentLogged || it.phase == Phase::Updated || it.phase
                == Phase::ValidatorLogged || it.phase == Phase::Validated || it.phase
                == Phase::Violations || it.phase == Phase::Handled || it.phase == Phase::Ended
                || it.phase == Phase::Completing || it.phase == Phase::Saving ==> s.action == Err::<
                ActionView,
                _,
            >(RunErrorView::Outside(reason)) && s.it == it
        }),
{
    reveal(failed_step);
    reveal(end_step);
}

/// Completing a run leaves its tasks alone, notes the time, logs how many
/// iterations were run and how many tasks are done, and saves the run.
pub proof fn law_completion_is_logged(e: EngineView, it: IterationView, now: u64)
    requires
        it.phase == Phase::Ended,
        all_done(e.tasks.tasks),
        all_pass(it.results),
        it.policy_passed,
        !terminal(e.run.state),
    ensures
        ({
            let s = step(e, it, ReplyView::Done, now);
            &&& s.engine == (EngineView {
                run: RunView { state: RunState::Completed, ended_at: Some(now), ..e.run },
                ..e
            })
            &&& s.action == Ok::<_, RunErrorView>(
                ActionView::Perform(
                    seq![
                        EffectView::Emit(
                            EventView::RunCompleted {
                                run_id: e.run.run_id,
                                total_iterations: e.run.iteration,
                                tasks_completed: e.tasks.tasks.len(),
                            },
                        ),
                        EffectView::SaveRun(s.engine.run),
                    ],
                ),
            )
        }),
{
    reveal(done_step);
    reveal(close_step);
    law_complete_iff_all_counted(e.tasks.tasks);
}

/// The beginning of an iteration is logged, with its number and its task, and
/// changes nothing in the run but these two.
pub proof fn law_beginning_is_logged(e: EngineView, guide: Seq<char>, i: int)
    requires
        e.run.state == RunState::Running,
        e.run.iteration < u32::MAX,
        current_index(e.tasks.tasks) == Some(i),
    ensures
        begin(e, guide) matches Ok(p) && {
            let task = e.tasks.tasks[i];
            &&& p.0 == (EngineView {
                run: RunView {
                    iteration: (e.run.iteration + 1) as u32,
                    current_task_id: Some(task.id),
                    ..e.run
                },
                ..e
            })
            &&& p.1.task == task
            &&& p.1.guide == guide
            &&& p.1.phase == Phase::Started
            &&& p.1.agent_exit_code is None
            &&& p.2 == seq![
                EffectView::Emit(
                    EventView::IterationStarted {
                        run_id: e.run.run_id,
                        iteration: (e.run.iteration + 1) as u32,
                        task_id: task.id,
                    },
                ),
            ]
        },
{
}

/// What follows once the effects of a phase were performed: the report is read
/// after the agent, the changes after the validators, and the run saved at the
/// end.
pub proof fn law_phases_follow_each_other(e: EngineView, it: IterationView, now: u64)
    ensures
        ({
            let s = step(e, it, ReplyView::Done, now);
            &&& it.phase == Phase::AgentLogged ==> s.engine == e && s.it == (IterationView {
                phase: Phase::Update,
                ..it
            }) && s.action == Ok::<_, RunErrorView>(ActionView::ReadTaskUpdate)
            &&& it.phase == Phase::Validated ==> s.engine == e && s.it == (IterationView {
                phase: Phase::Policy,
                ..it
            }) && s.action == Ok::<_, RunErrorView>(ActionView::Git(GitCommandView::Status))
            &&& it.phase == Phase::Completing || (it.phase == Phase::Ended && (terminal(
                e.run.state,
            ) || !all_done(e.tasks.tasks))) ==> s.engine == e && s.it == (IterationView {
                phase: Phase::Saving,
                ..it
            }) && s.action == Ok::<_, RunErrorView>(
                ActionView::Perform(seq![EffectView::SaveRun(e.run)]),
            )
        }),
{
    reveal(done_step);
    reveal(close_step);
    reveal(save_step);
}

/// A violation under a policy that aborts is logged with its reason, and the run
/// saved as aborted.
pub proof fn law_abort_for_violation_is_logged(e: EngineView, it: IterationView, now: u64)
    requires
        it.phase == Phase::Violations,
        !it.policy_passed,
        e.policy.on_violation == ViolationAction::Abort,
        !terminal(e.run.state),
    ensures
        ({
            let s = step(e, it, ReplyView::Done, now);
            let run = RunView { state: RunState::Aborted, ended_at: Some(now), ..e.run };
            &&& s.engine == (EngineView { run, ..e })
            &&& s.it == (IterationView { phase: Phase::Handled, should_checkpoint: false, ..it })
            &&& s.action == Ok::<_, RunErrorView>(
                ActionView::Perform(
                    seq![
                        EffectView::Emit(
                            EventView::RunAborted {
                                run_id: e.run.run_id,
                                reason: "Policy violation detected"@,
                            },
                        ),
                        EffectView::SaveRun(run),
                    ],
                ),
            )
        }),
{
    reveal(done_step);
    reveal(handle_step);
}

/// Under a policy that resets, what git tracks is restored first and what it does
/// not track removed next. Nothing of it is committed.
pub proof fn law_reset_restores_and_cleans(
    e: EngineView,
    it: IterationView,
    reply: GitReply,
    now: u64,
)
    requires
        it.phase == Phase::Resetting,
        it.replies.len() <= 1,
        !it.policy_passed,
        !it.should_checkpoint,
        reply matches GitReply::Ran { success, .. } && success,
        it.replies.len() == 1 ==> (it.replies[0] matches GitReply::Ran { success, .. } && success),
    ensures
        ({
            let s = step(e, it, ReplyView::Git(reply), now);
            &&& s.engine == e
            &&& it.replies.len() == 0 ==> s.it.phase == Phase::Resetting && s.action == Ok::<
                _,
                RunErrorView,
            >(ActionView::Git(GitCommandView::Clean))
            &&& it.replies.len() == 1 ==> s.it.phase == Phase::Ended
        }),
{
    reveal(git_step);
    reveal(reset_on);
    reveal(judged_step);
    reveal(end_step);
}

/// Where git fails while changes are read or discarded, the iteration fails with
/// it. Where it fails at a checkpoint, the checkpoint is left out.
pub proof fn law_git_failures(e: EngineView, it: IterationView, reply: GitReply, now: u64)
    requires
        !(reply matches GitReply::Ran { success, .. } && success),
    ensures
        ({
            let s = step(e, it, ReplyView::Git(reply), now);
            &&& it.phase == Phase::Policy ==> s.engine == e && s.it == it && s.action is Err
            &&& it.phase == Phase::Resetting && it.replies.len() == 0 ==> s.engine == e
                && s.action is Err
            &&& it.phase == Phase::Dirty ==> s.engine == e && s.it == (IterationView {
                phase: Phase::Ended,
                ..it
            })
            &&& it.phase == Phase::Committing && it.replies.len() == 0 ==> s.engine == e
                && s.it.phase == Phase::Ended && s.it.checkpoint_sha == it.checkpoint_sha
            &&& it.phase == Phase::Staging ==> s.engine == e && s.it.phase == Phase::Committing
        }),
{
    reveal(git_step);
    reveal(policy_step);
    reveal(reset_on);
    reveal(dirty_step);
    reveal(staged_step);
    reveal(commit_on);
    reveal(end_step);
}

/// After staging the checkpoint begins, with its first command.
pub proof fn law_staging_leads_to_checkpoint(
    e: EngineView,
    it: IterationView,
    reply: GitReply,
    now: u64,
)
    requires
        it.phase == Phase::Staging,
    ensures
        ({
            let s = step(e, it, ReplyView::Git(reply), now);
            &&& s.engine == e
            &&& s.it == (IterationView { phase: Phase::Committing, replies: Seq::empty(), ..it })
            &&& s.action == Ok::<_, RunErrorView>(ActionView::Git(GitCommandView::AddAll))
        }),
{
    reveal(git_step);
    reveal(staged_step);
}

/// The checkpoint of an iteration is one for its task, with the replies so far.
pub proof fn law_iteration_commits_its_task(
    e: EngineView,
    it: IterationView,
    reply: GitReply,
    now: u64,
)
    requires
        it.phase == Phase::Committing,
    ensures
        ({
            let s = step(e, it, ReplyView::Git(reply), now);
            let c = checkpoint_on(e, it.task.id, it.task.title, it.replies.push(reply));
            &&& s.engine == c.0
            &&& s.it.replies == it.replies.push(reply)
            &&& c.1 matches CheckpointView::Git(command) ==> s.it.phase == Phase::Committing
                && s.action == Ok::<_, RunErrorView>(ActionView::Git(command))
            &&& c.1 is Failed ==> s.it.phase == Phase::Ended && s.it.checkpoint_sha
                == it.checkpoint_sha
            &&& c.1 matches CheckpointView::Created(sha, effects) ==> s.it.phase == Phase::Recorded
                && s.it.checkpoint_sha == Some(sha) && s.action == Ok::<_, RunErrorView>(
                ActionView::Perform(effects),
            )
        }),
{
    reveal(git_step);
    reveal(commit_on);
    reveal(end_step);
}

/// A reply that was not asked for changes nothing and is an error.
pub proof fn law_unexpected_replies_are_refused(
    e: EngineView,
    it: IterationView,
    code: Option<i32>,
    update: Option<TaskUpdateView>,
    run: ValidatorRunView,
    now: u64,
)
    ensures
        ({
            let refused = |s: StepView|
                s.engine == e && s.it == it && s.action == Err::<ActionView, _>(
                    RunErrorView::UnexpectedReply,
                );
            &&& it.phase != Phase::Agent ==> refused(step(e, it, ReplyView::Agent(code), now))
            &&& it.phase != Phase::Update ==> refused(step(e, it, ReplyView::Update(update), now))
            &&& it.phase != Phase::Validating ==> refused(
                step(e, it, ReplyView::Validator(run), now),
            )
        }),
{
}

/// The validators of all tasks are the configured ones and then those of each
/// task, in order.
pub proof fn law_validators_of_all_tasks(
    ts: Seq<TaskView>,
    t: TaskView,
    configured: Seq<Seq<char>>,
)
    ensures
        all_validators(Seq::empty(), configured) == configured,
        all_validators(ts.push(t), configured) == all_validators(ts, configured) + t.validators,
{
    assert(ts.push(t).drop_last() =~= ts);
}

} // verus!
