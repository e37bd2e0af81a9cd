use ralpher::config::{AgentConfig, Config, GitMode};
use ralpher::event::{EventKind, ValidatorStatus};
use ralpher::iteration::{Action, Phase, Reply};
use ralpher::policy::{PolicyConfig, ViolationAction};
use ralpher::run::{
    Effect, IterationResult, Run, RunEngine, RunError, RunState, StartStep, TaskUpdate,
    ValidationResults,
};
use ralpher::task::{Task, TaskList, TaskStatus};
use ralpher::validation::{run_validators_standalone, ValidatorRun};
use ralpher::workspace::{GitCommand, GitReply};

const NOW: u64 = 1_700_000_000_000;

/// A repository and its surroundings, as far as a run sees them.
struct World {
    branch: String,
    status: String,
    agent_status: String,
    agent_exit: Option<i32>,
    update: Option<TaskUpdate>,
    events: Vec<EventKind>,
    saved_run: Option<Run>,
    saved_tasks: Option<TaskList>,
    validation: Option<ValidationResults>,
    commits: Vec<String>,
    prompts: Vec<String>,
    refuse: Option<&'static str>,
}

impl World {
    fn new() -> Self {
        World {
            branch: "main".to_string(),
            status: String::new(),
            agent_status: String::new(),
            agent_exit: Some(0),
            update: None,
            events: vec![],
            saved_run: None,
            saved_tasks: None,
            validation: None,
            commits: vec![],
            prompts: vec![],
            refuse: None,
        }
    }

    fn git(&mut self, command: &GitCommand) -> GitReply {
        let stdout = match command {
            GitCommand::Status => self.status.clone(),
            GitCommand::CurrentBranch => format!("{}\n", self.branch),
            GitCommand::HeadSha => format!("sha{:04}\n", self.commits.len()),
            GitCommand::CheckoutNew(branch) => {
                self.branch = branch.clone();
                String::new()
            }
            GitCommand::Commit(message) => {
                self.commits.push(message.clone());
                self.status.clear();
                String::new()
            }
            GitCommand::ResetHard => {
                self.status.clear();
                String::new()
            }
            _ => String::new(),
        };
        if self.refuse == Some("git") {
            return GitReply::Ran { success: false, stdout, stderr: "refused".to_string() };
        }
        GitReply::Ran { success: true, stdout, stderr: String::new() }
    }

    fn perform(&mut self, effects: Vec<Effect>) -> Result<(), String> {
        for effect in effects {
            match effect {
                Effect::Emit(kind) => {
                    if self.refuse == Some("checkpoint")
                        && matches!(kind, EventKind::CheckpointCreated { .. })
                    {
                        return Err("refused".to_string());
                    }
                    self.events.push(kind)
                }
                Effect::SaveRun(run) => self.saved_run = Some(run),
                Effect::SaveTasks(tasks) => {
                    if self.refuse == Some("tasks") {
                        return Err("refused".to_string());
                    }
                    self.status = format!(" M ralpher.prd.json\n{}", self.status);
                    self.saved_tasks = Some(tasks)
                }
                Effect::WriteValidation { results, .. } => self.validation = Some(results),
            }
        }
        Ok(())
    }

    fn start(&mut self, engine: &mut RunEngine) -> Result<(), RunError> {
        let mut replies = vec![];
        loop {
            match engine.start(&replies) {
                StartStep::Git(command) => replies.push(self.git(&command)),
                StartStep::Done(Ok(effects)) => {
                    self.perform(effects).unwrap();
                    return Ok(());
                }
                StartStep::Done(Err(e)) => return Err(e),
            }
        }
    }

    fn validate(&mut self, command: &str) -> ValidatorRun {
        if let Some(text) = command.strip_prefix("echo ") {
            return ValidatorRun::Ran {
                exit_code: Some(0),
                stdout: format!("{}\n", text),
                stderr: String::new(),
            };
        }
        let exit_code = if command == "true" { 0 } else { 1 };
        ValidatorRun::Ran {
            exit_code: Some(exit_code),
            stdout: String::new(),
            stderr: String::new(),
        }
    }

    fn iterate(&mut self, engine: &mut RunEngine) -> Result<IterationResult, RunError> {
        let (mut it, effects) = engine.next_iteration("GUIDE.md")?;
        let mut action = Action::Perform(effects);
        loop {
            let reply = match action {
                Action::Perform(effects) => match self.perform(effects) {
                    Ok(()) => Reply::Done,
                    Err(e) => Reply::Failed(e),
                },
                Action::RunAgent(request) => {
                    self.prompts.push(request.args[request.args.len() - 1].clone());
                    self.status.push_str(&self.agent_status);
                    Reply::Agent(self.agent_exit)
                }
                Action::ReadTaskUpdate => Reply::Update(self.update.take()),
                Action::RunValidator(command) => Reply::Validator(self.validate(&command)),
                Action::Git(command) => Reply::Git(self.git(&command)),
                Action::Finish(result) => return Ok(result),
            };
            action = engine.advance(&mut it, reply, NOW)?;
        }
    }

    fn has_event(&self, test: fn(&EventKind) -> bool) -> bool {
        self.events.iter().any(test)
    }
}

fn task(id: &str, title: &str) -> Task {
    Task {
        id: id.to_string(),
        title: title.to_string(),
        status: TaskStatus::Todo,
        acceptance: vec![],
        validators: vec![],
        notes: None,
    }
}

fn two_tasks() -> TaskList {
    let mut tasks = TaskList::new(vec![task("task-1", "First task"), task("task-2", "Second task")]);
    tasks.path = Some("/repo/ralpher.prd.json".to_string());
    tasks
}

fn test_config() -> Config {
    let mut config = Config::new();
    config.agent = Some(AgentConfig {
        runner_type: "command".to_string(),
        cmd: vec!["true".to_string()],
    });
    config.policy = PolicyConfig::permissive();
    config
}

fn started(world: &mut World, config: Config, tasks: TaskList) -> RunEngine {
    let mut engine = RunEngine::new("/repo", config, tasks);
    world.start(&mut engine).unwrap();
    engine
}

#[test]
fn test_run_state_is_terminal() {
    assert!(!RunState::Idle.is_terminal());
    assert!(!RunState::Running.is_terminal());
    assert!(!RunState::Paused.is_terminal());
    assert!(RunState::Completed.is_terminal());
    assert!(RunState::Aborted.is_terminal());
}

#[test]
fn test_run_state_can_resume() {
    assert!(RunState::Idle.can_resume());
    assert!(!RunState::Running.can_resume());
    assert!(RunState::Paused.can_resume());
    assert!(!RunState::Completed.can_resume());
    assert!(!RunState::Aborted.can_resume());
}

#[test]
fn test_run_new() {
    let run = Run::new("run-123".to_string(), GitMode::Branch);

    assert_eq!(run.run_id, "run-123");
    assert_eq!(run.state, RunState::Idle);
    assert_eq!(run.git_mode, GitMode::Branch);
    assert_eq!(run.iteration, 0);
    assert!(run.current_task_id.is_none());
    assert!(run.started_at > 0);
}

#[test]
fn test_engine_new() {
    let engine = RunEngine::new("/repo", test_config(), two_tasks());

    assert_eq!(engine.run().state, RunState::Idle);
    assert_eq!(engine.run().iteration, 0);
    assert_eq!(engine.tasks().tasks.len(), 2);
}

#[test]
fn test_engine_start_branch_mode() {
    let mut world = World::new();
    let engine = started(&mut world, test_config(), two_tasks());

    assert_eq!(engine.run().state, RunState::Running);
    assert!(engine.run().run_branch.is_some());
    assert!(engine.run().original_branch.is_some());

    // Verify we're on the run branch
    assert!(world.branch.starts_with("ralpher/run-"));
    assert_eq!(engine.run().original_branch, Some("main".to_string()));
    assert_eq!(engine.run().run_branch, Some(world.branch.clone()));
    assert_eq!(engine.workspace().run_branch(), Some(world.branch.as_str()));
    assert_eq!(world.saved_run.unwrap().state, RunState::Running);
}

#[test]
fn test_engine_start_trunk_mode() {
    let mut world = World::new();
    let mut config = test_config();
    config.git_mode = GitMode::Trunk;
    config.agent = None;
    let engine = started(&mut world, config, two_tasks());

    assert_eq!(engine.run().state, RunState::Running);
    assert!(engine.run().run_branch.is_none());
    assert_eq!(world.branch, "main");
    match &world.events[0] {
        EventKind::RunStarted { run_id, git_mode, task_count } => {
            assert_eq!(run_id, &engine.run().run_id);
            assert_eq!(git_mode, "trunk");
            assert_eq!(*task_count, 2);
        }
        _ => panic!("Expected RunStarted event"),
    }
}

#[test]
fn test_engine_start_dirty_fails() {
    let mut world = World::new();

    // Make the repo dirty
    world.status = "?? dirty.txt\n".to_string();

    let mut engine = RunEngine::new("/repo", test_config(), two_tasks());
    let result = world.start(&mut engine);

    assert!(result.is_err());
    assert!(
        result
            .unwrap_err()
            .message()
            .contains("uncommitted changes")
    );
    assert_eq!(engine.run().state, RunState::Idle);
}

#[test]
fn test_engine_pause_resume() {
    let mut world = World::new();
    let mut engine = started(&mut world, test_config(), two_tasks());
    assert_eq!(engine.run().state, RunState::Running);

    world.perform(engine.pause().unwrap()).unwrap();
    assert_eq!(engine.run().state, RunState::Paused);
    assert_eq!(world.saved_run.as_ref().unwrap().state, RunState::Paused);

    world.perform(engine.resume().unwrap()).unwrap();
    assert_eq!(engine.run().state, RunState::Running);
    assert_eq!(world.saved_run.as_ref().unwrap().state, RunState::Running);
}

#[test]
fn test_engine_abort() {
    let mut world = World::new();
    let mut engine = started(&mut world, test_config(), two_tasks());

    world.perform(engine.abort("user requested").unwrap()).unwrap();

    assert_eq!(engine.run().state, RunState::Aborted);
    assert!(engine.run().ended_at.is_some());
    assert!(engine.is_finished());
    match world.events.last().unwrap() {
        EventKind::RunAborted { reason, .. } => assert_eq!(reason, "user requested"),
        _ => panic!("Expected RunAborted event"),
    }
}

#[test]
fn test_engine_iteration() {
    let mut world = World::new();
    let mut engine = started(&mut world, test_config(), two_tasks());

    let result = world.iterate(&mut engine).unwrap();

    assert!(result.success);
    assert_eq!(engine.run().iteration, 1);
    assert_eq!(engine.run().current_task_id, Some("task-1".to_string()));
    assert_eq!(engine.tasks().tasks[0].status, TaskStatus::InProgress);
    assert!(world.prompts[0].contains("**Task ID:** task-1\n**Title:** First task\n"));
}

#[test]
fn test_engine_events_emitted() {
    let mut world = World::new();
    let mut engine = started(&mut world, test_config(), two_tasks());
    world.iterate(&mut engine).unwrap();

    // Should have: RunStarted, IterationStarted, TaskStatusChanged, AgentCompleted, IterationCompleted
    assert!(world.events.len() >= 4);

    // First event should be RunStarted
    match &world.events[0] {
        EventKind::RunStarted { run_id, .. } => {
            assert_eq!(run_id, &engine.run().run_id);
        }
        _ => panic!("Expected RunStarted event"),
    }
    assert!(matches!(world.events[1], EventKind::IterationStarted { iteration: 1, .. }));
    assert!(matches!(
        world.events[2],
        EventKind::TaskStatusChanged {
            old_status: TaskStatus::Todo,
            new_status: TaskStatus::InProgress,
            ..
        }
    ));
    assert!(matches!(world.events[3], EventKind::AgentCompleted { exit_code: Some(0), .. }));
    assert!(matches!(
        world.events.last().unwrap(),
        EventKind::IterationCompleted { success: true, .. }
    ));
}

#[test]
fn test_engine_load_existing() {
    let mut world = World::new();

    // Create and start a run
    let mut engine = started(&mut world, test_config(), two_tasks());
    world.iterate(&mut engine).unwrap();
    world.perform(engine.pause().unwrap()).unwrap();

    // Load it back
    let engine = RunEngine::load("/repo", world.saved_run.unwrap(), test_config(), two_tasks());

    assert_eq!(engine.run().state, RunState::Paused);
    assert_eq!(engine.run().iteration, 1);
    assert_eq!(engine.repo_path(), "/repo");
    assert_eq!(engine.config().git_mode, GitMode::Branch);
    assert_eq!(engine.events_path(), "/repo/.ralpher/events.ndjson");
    assert_eq!(engine.iteration_dir(12), "/repo/.ralpher/iterations/12");
    assert_eq!(engine.task_update_path(), "/repo/.ralpher/task_update.json");
}

#[test]
fn test_checkpoint_after_successful_iteration() {
    let mut world = World::new();
    world.agent_status = "?? output.txt\n".to_string();
    let mut tasks = TaskList::new(vec![task("task-1", "First task")]);
    tasks.path = Some("/repo/ralpher.prd.json".to_string());
    let mut engine = started(&mut world, test_config(), tasks);

    let result = world.iterate(&mut engine).unwrap();

    // Should succeed and create checkpoint
    assert!(result.success);
    assert!(result.policy_passed);
    assert!(result.checkpoint_sha.is_some());

    // run.last_checkpoint should be updated
    assert!(engine.run().last_checkpoint.is_some());
    assert_eq!(engine.run().last_checkpoint, result.checkpoint_sha.clone());

    // Verify CheckpointCreated event was emitted
    let checkpoint_events: Vec<_> = world
        .events
        .iter()
        .filter(|e| matches!(e, EventKind::CheckpointCreated { .. }))
        .collect();
    assert_eq!(checkpoint_events.len(), 1);

    // Verify the event has correct data
    match checkpoint_events[0] {
        EventKind::CheckpointCreated { run_id, iteration, commit_sha } => {
            assert_eq!(run_id, &engine.run().run_id);
            assert_eq!(*iteration, 1);
            assert_eq!(commit_sha, result.checkpoint_sha.as_ref().unwrap());
        }
        _ => panic!("Expected CheckpointCreated event"),
    }

    // Verify commit message format
    assert_eq!(world.commits, vec!["ralpher: it1 task task-1 - First task"]);
    assert!(world.status.is_empty());
}

#[test]
fn test_checkpoint_includes_task_status_changes() {
    let mut world = World::new();
    let mut engine = started(&mut world, test_config(), two_tasks());

    let result = world.iterate(&mut engine).unwrap();

    // Should succeed - the task status change to in_progress modifies ralpher.prd.json
    assert!(result.success);
    // Since task status changed (from todo to in_progress), there should be a checkpoint
    assert!(result.checkpoint_sha.is_some());
    assert!(engine.run().last_checkpoint.is_some());
}

fn run_all(validators: &[String]) -> ValidationResults {
    let mut world = World::new();
    let runs: Vec<ValidatorRun> = validators.iter().map(|v| world.validate(v)).collect();
    run_validators_standalone(validators, &runs)
}

#[test]
fn test_run_validators_standalone_pass() {
    let validators = vec!["true".to_string(), "echo hello".to_string()];

    let results = run_all(&validators);

    assert!(results.all_passed);
    assert_eq!(results.validators.len(), 2);
    assert_eq!(results.validators[0].status, ValidatorStatus::Pass);
    assert_eq!(results.validators[1].status, ValidatorStatus::Pass);
}

#[test]
fn test_run_validators_standalone_fail() {
    let validators = vec!["false".to_string()];

    let results = run_all(&validators);

    assert!(!results.all_passed);
    assert_eq!(results.validators.len(), 1);
    assert_eq!(results.validators[0].status, ValidatorStatus::Fail);
    assert_eq!(results.validators[0].exit_code, Some(1));
}

#[test]
fn test_run_validators_standalone_empty() {
    let validators: Vec<String> = vec![];

    let results = run_all(&validators);

    assert!(results.all_passed);
    assert!(results.validators.is_empty());
}

#[test]
fn test_run_validators_standalone_captures_output() {
    let validators = vec!["echo test_output".to_string()];

    let results = run_all(&validators);

    assert!(results.all_passed);
    assert_eq!(results.validators.len(), 1);
    assert!(
        results.validators[0]
            .output
            .as_ref()
            .unwrap()
            .contains("test_output")
    );
}

#[test]
fn validator_outputs_are_joined_and_cut() {
    let command = vec!["v".to_string()];
    let run = |stdout: &str, stderr: &str, exit_code: Option<i32>| ValidatorRun::Ran {
        exit_code,
        stdout: stdout.to_string(),
        stderr: stderr.to_string(),
    };
    let judge =
        |run: ValidatorRun| run_validators_standalone(&command, &[run]).validators[0].clone();
    assert_eq!(judge(run("a", "b", None)).output, Some("a\nb".to_string()));
    assert_eq!(judge(run("a", "b", None)).status, ValidatorStatus::Fail);
    assert_eq!(judge(run("", "b", Some(0))).output, Some("b".to_string()));
    assert_eq!(judge(run("", "", Some(0))).output, Some(String::new()));
    let whole = "x".repeat(10240);
    assert_eq!(judge(run(&whole, "", Some(0))).output, Some(whole.clone()));
    let long = format!("y{}", whole);
    assert_eq!(
        judge(run(&long, "", Some(0))).output,
        Some(format!("...[truncated]...\n{}", whole))
    );
    let result = judge(ValidatorRun::NotRun("no shell".to_string()));
    assert_eq!(result.status, ValidatorStatus::Fail);
    assert_eq!(result.exit_code, None);
    assert_eq!(result.output, Some("no shell".to_string()));
    let split = format!("\u{e4}{}", "x".repeat(10239));
    assert_eq!(
        judge(run(&split, "", Some(0))).output,
        Some(format!("...[truncated]...\n{}", "x".repeat(10239)))
    );
    let wide = "\u{20ac}".repeat(5000);
    assert_eq!(
        judge(run(&wide, "", Some(1))).output,
        Some(format!("...[truncated]...\n{}", "\u{20ac}".repeat(3413)))
    );
}

#[test]
fn test_validators_block_checkpoint_on_fail() {
    let mut world = World::new();
    let mut tasks = TaskList::new(vec![task("task-1", "First task")]);
    tasks.path = Some("/repo/ralpher.prd.json".to_string());

    // Config with a failing validator
    let mut config = test_config();
    config.validators = vec!["false".to_string()]; // Always fails

    let mut engine = started(&mut world, config, tasks);

    let result = world.iterate(&mut engine).unwrap();

    // Iteration should fail because validator failed
    assert!(!result.success);
    assert!(!result.validators_passed);
    // No checkpoint should be created
    assert!(result.checkpoint_sha.is_none());
    assert!(world.commits.is_empty());
    assert!(!world.validation.unwrap().all_passed);
}

#[test]
fn test_policy_violation_blocks_checkpoint() {
    let mut world = World::new();

    // Create config with strict policy (deny deletes/renames)
    let mut config = test_config();
    config.policy = PolicyConfig::new(); // Default denies deletes/renames

    let mut engine = started(&mut world, config, two_tasks());

    // Delete a file to trigger policy violation
    world.agent_status = " D README.md\n".to_string();

    let result = world.iterate(&mut engine).unwrap();

    // Should fail because of policy violation (and abort)
    assert!(!result.success);
    assert!(!result.policy_passed);
    assert!(result.checkpoint_sha.is_none());
    // Run should be aborted
    assert_eq!(engine.run().state, RunState::Aborted);
    assert_eq!(engine.run().ended_at, Some(NOW));
    assert!(world.has_event(|e| matches!(e, EventKind::PolicyViolation { .. })));
    assert!(world.has_event(|e| matches!(e, EventKind::RunAborted { .. })));
    assert_eq!(world.saved_run.as_ref().unwrap().state, RunState::Aborted);
    assert!(matches!(world.iterate(&mut engine), Err(RunError::CannotIterate(RunState::Aborted))));
}

#[test]
fn test_policy_reset_action_discards_changes() {
    let mut world = World::new();

    // Create config with policy that resets on violation
    let mut config = test_config();
    config.policy = PolicyConfig::new();
    config.policy.on_violation = ViolationAction::Reset;

    let mut engine = started(&mut world, config, two_tasks());

    // Delete a file to trigger policy violation
    world.agent_status = " D README.md\n".to_string();

    let result = world.iterate(&mut engine).unwrap();

    // File should be restored after reset
    assert!(world.status.is_empty());
    assert!(!result.success);
    assert!(world.commits.is_empty());
    assert_eq!(engine.run().state, RunState::Running);
}

#[test]
fn test_policy_keep_action_allows_violation() {
    let mut world = World::new();

    // Create config with policy that keeps changes on violation
    let mut config = test_config();
    config.policy = PolicyConfig::new();
    config.policy.on_violation = ViolationAction::Keep;

    let mut engine = started(&mut world, config, two_tasks());

    // Delete a file to trigger policy violation
    world.agent_status = " D README.md\n".to_string();

    let result = world.iterate(&mut engine).unwrap();

    // Policy failed but iteration continues with action=keep
    assert!(!result.policy_passed);
    // Success should still be true with keep action
    assert!(result.success);
    // Run should not be aborted
    assert_eq!(engine.run().state, RunState::Running);
    assert_eq!(world.commits.len(), 1);
}

#[test]
fn test_policy_allow_paths() {
    let mut world = World::new();

    // Create config that allows deletions in test/ directory
    let mut config = test_config();
    config.policy = PolicyConfig::new();
    config.policy.allow_paths = vec!["test/**".to_string()];

    let mut engine = started(&mut world, config, two_tasks());

    // Delete the test file (should be allowed by policy)
    world.agent_status = " D test/fixture.txt\n".to_string();

    let result = world.iterate(&mut engine).unwrap();

    // Should pass because deletion is in allowed path
    assert!(result.policy_passed);
    assert!(result.success);
}

#[test]
fn report_of_the_agent_updates_its_task() {
    let mut world = World::new();
    let mut engine = started(&mut world, test_config(), two_tasks());
    world.update = Some(TaskUpdate {
        task_id: "task-1".to_string(),
        new_status: TaskStatus::Done,
        notes: Some("did it".to_string()),
        evidence: None,
    });
    assert!(world.iterate(&mut engine).unwrap().success);
    assert_eq!(engine.tasks().tasks[0].status, TaskStatus::Done);
    assert_eq!(engine.tasks().tasks[0].notes, Some("did it".to_string()));
    assert_eq!(engine.run().state, RunState::Running);
    world.update = Some(TaskUpdate {
        task_id: "task-2".to_string(),
        new_status: TaskStatus::Done,
        notes: None,
        evidence: None,
    });
    assert!(world.iterate(&mut engine).unwrap().success);
    assert_eq!(engine.run().iteration, 2);
    assert_eq!(engine.run().state, RunState::Completed);
    assert_eq!(engine.run().ended_at, Some(NOW));
    assert!(matches!(
        world.events.last().unwrap(),
        EventKind::RunCompleted { total_iterations: 2, tasks_completed: 2, .. }
    ));
    assert_eq!(world.saved_run.unwrap().state, RunState::Completed);
}

#[test]
fn report_on_an_unknown_task_changes_nothing() {
    let mut world = World::new();
    let mut engine = started(&mut world, test_config(), two_tasks());
    world.update = Some(TaskUpdate {
        task_id: "other".to_string(),
        new_status: TaskStatus::Done,
        notes: None,
        evidence: None,
    });
    world.iterate(&mut engine).unwrap();
    assert!(engine.tasks().tasks.iter().all(|t| t.status != TaskStatus::Done));
}

#[test]
fn run_whose_tasks_are_done_is_completed() {
    let mut world = World::new();
    let mut tasks = two_tasks();
    tasks.tasks[0].status = TaskStatus::Done;
    tasks.tasks[1].status = TaskStatus::Done;
    let mut engine = started(&mut world, test_config(), tasks);
    let result = world.iterate(&mut engine).unwrap();
    assert!(result.success);
    assert_eq!(result.agent_exit_code, None);
    assert_eq!(engine.run().iteration, 0);
    assert_eq!(engine.run().state, RunState::Completed);
    assert!(matches!(
        world.events.last().unwrap(),
        EventKind::RunCompleted { tasks_completed: 2, .. }
    ));
}

#[test]
fn blocked_tasks_keep_a_run_open() {
    let mut world = World::new();
    let mut tasks = two_tasks();
    tasks.tasks[0].status = TaskStatus::Done;
    tasks.tasks[1].status = TaskStatus::Blocked;
    let mut engine = started(&mut world, test_config(), tasks);
    assert_eq!(
        world.iterate(&mut engine).unwrap_err().message(),
        "Cannot run iteration: the tasks that are not done are blocked"
    );
    assert_eq!(engine.run().state, RunState::Running);
    assert_eq!(engine.run().iteration, 0);
    world.perform(engine.pause().unwrap()).unwrap();
    world.perform(engine.resume().unwrap()).unwrap();
    engine.tasks_mut().tasks[1].status = TaskStatus::Todo;
    assert!(world.iterate(&mut engine).unwrap().success);
}

fn one_task() -> TaskList {
    let mut tasks = TaskList::new(vec![task("task-1", "First task")]);
    tasks.path = Some("/repo/ralpher.prd.json".to_string());
    tasks
}

fn done_report() -> TaskUpdate {
    TaskUpdate {
        task_id: "task-1".to_string(),
        new_status: TaskStatus::Done,
        notes: None,
        evidence: None,
    }
}

#[test]
fn completion_needs_the_validators() {
    let mut world = World::new();
    let mut config = test_config();
    config.validators = vec!["false".to_string()];
    let mut engine = started(&mut world, config, one_task());
    world.update = Some(done_report());
    let result = world.iterate(&mut engine).unwrap();
    assert!(!result.validators_passed);
    assert!(engine.tasks().is_complete());
    assert_eq!(engine.run().state, RunState::Running);
    let result = world.iterate(&mut engine).unwrap();
    assert!(!result.success);
    assert!(!result.validators_passed);
    assert_eq!(result.agent_exit_code, None);
    assert_eq!(engine.run().state, RunState::Running);
    assert_eq!(engine.run().iteration, 1);
    assert_eq!(world.prompts.len(), 1);
    assert!(!world.has_event(|e| matches!(e, EventKind::RunCompleted { .. })));
    engine.config.validators = vec!["true".to_string()];
    let result = world.iterate(&mut engine).unwrap();
    assert!(result.success);
    assert_eq!(engine.run().state, RunState::Completed);
    assert_eq!(engine.run().ended_at, Some(NOW));
    assert_eq!(world.saved_run.unwrap().state, RunState::Completed);
}

#[test]
fn completion_needs_the_validators_of_every_task() {
    let mut world = World::new();
    let mut tasks = two_tasks();
    tasks.tasks[0].status = TaskStatus::Done;
    tasks.tasks[0].validators = vec!["false".to_string()];
    tasks.tasks[1].status = TaskStatus::Done;
    let mut config = test_config();
    config.validators = vec!["true".to_string()];
    let mut engine = started(&mut world, config, tasks);
    assert!(!world.iterate(&mut engine).unwrap().success);
    let judged = world
        .events
        .iter()
        .filter(|e| matches!(e, EventKind::ValidatorResult { iteration: 0, .. }))
        .count();
    assert_eq!(judged, 2);
    assert_eq!(engine.run().state, RunState::Running);
    engine.tasks_mut().tasks[0].validators.clear();
    assert!(world.iterate(&mut engine).unwrap().success);
    assert_eq!(engine.run().state, RunState::Completed);
}

#[test]
fn completion_needs_the_policy() {
    let mut world = World::new();
    let mut tasks = one_task();
    tasks.tasks[0].status = TaskStatus::Done;
    let mut config = test_config();
    config.policy = PolicyConfig::new();
    let mut engine = started(&mut world, config, tasks);
    world.status = " D README.md\n".to_string();
    let result = world.iterate(&mut engine).unwrap();
    assert!(!result.success);
    assert!(!result.policy_passed);
    assert_eq!(engine.run().state, RunState::Aborted);
    assert!(world.commits.is_empty());
}

#[test]
fn completion_does_not_need_the_exit_code() {
    let mut world = World::new();
    let mut engine = started(&mut world, test_config(), one_task());
    world.update = Some(done_report());
    world.agent_exit = Some(1);
    let result = world.iterate(&mut engine).unwrap();
    assert!(!result.success);
    assert_eq!(result.checkpoint_sha, None);
    assert_eq!(engine.run().state, RunState::Completed);
}

#[test]
fn aborted_run_stays_aborted() {
    let mut world = World::new();
    let mut config = test_config();
    config.policy = PolicyConfig::new();
    let mut engine = started(&mut world, config, one_task());
    world.update = Some(done_report());
    world.agent_status = " D README.md\n".to_string();
    let result = world.iterate(&mut engine).unwrap();
    assert!(!result.policy_passed);
    assert!(!result.success);
    assert!(engine.tasks().is_complete());
    assert_eq!(engine.run().state, RunState::Aborted);
    assert_eq!(world.saved_run.as_ref().unwrap().state, RunState::Aborted);
    assert!(!world.has_event(|e| matches!(e, EventKind::RunCompleted { .. })));
}

#[test]
fn missing_agent_counts_as_failure() {
    let mut world = World::new();
    let mut config = test_config();
    config.agent = None;
    let mut engine = started(&mut world, config, two_tasks());
    let result = world.iterate(&mut engine).unwrap();
    assert_eq!(result.agent_exit_code, Some(-1));
    assert!(!result.success);
    assert!(result.validators_passed);
    assert!(world.prompts.is_empty());
    let mut config = test_config();
    config.agent.as_mut().unwrap().cmd.clear();
    let mut world = World::new();
    let mut engine = started(&mut world, config, two_tasks());
    assert_eq!(world.iterate(&mut engine).unwrap().agent_exit_code, Some(-1));
}

#[test]
fn failing_agent_keeps_changes_uncommitted() {
    let mut world = World::new();
    world.agent_exit = Some(3);
    let mut engine = started(&mut world, test_config(), two_tasks());
    let result = world.iterate(&mut engine).unwrap();
    assert_eq!(result.agent_exit_code, Some(3));
    assert!(!result.success);
    assert!(world.commits.is_empty());
    world.agent_exit = None;
    assert_eq!(world.iterate(&mut engine).unwrap().agent_exit_code, Some(-1));
}

#[test]
fn validators_of_the_task_come_before_the_configured() {
    let mut world = World::new();
    let mut config = test_config();
    config.validators = vec!["false".to_string()];
    let mut tasks = two_tasks();
    tasks.tasks[0].validators = vec!["true".to_string(), "echo hi".to_string()];
    let mut engine = started(&mut world, config, tasks);
    let result = world.iterate(&mut engine).unwrap();
    assert!(result.success);
    let validation = world.validation.as_ref().unwrap();
    assert!(validation.all_passed);
    assert_eq!(validation.validators.len(), 2);
    assert_eq!(validation.validators[1].output, Some("hi\n".to_string()));
    let count = world
        .events
        .iter()
        .filter(|e| matches!(e, EventKind::ValidatorResult { status: ValidatorStatus::Pass, .. }))
        .count();
    assert_eq!(count, 2);
}

#[test]
fn failed_effects_end_the_iteration() {
    let mut world = World::new();
    let mut engine = started(&mut world, test_config(), two_tasks());
    world.refuse = Some("tasks");
    match world.iterate(&mut engine) {
        Err(e) => assert_eq!(e.message(), "refused"),
        Ok(_) => panic!("expected a failure"),
    }
    assert_eq!(engine.run().iteration, 1);
}

#[test]
fn checkpoint_that_cannot_be_recorded_is_left_out() {
    let mut world = World::new();
    let mut engine = started(&mut world, test_config(), two_tasks());
    world.refuse = Some("checkpoint");
    let result = world.iterate(&mut engine).unwrap();
    assert!(result.success);
    assert_eq!(result.checkpoint_sha, None);
    assert_eq!(engine.run().last_checkpoint, Some("sha0001".to_string()));
}

#[test]
fn failing_git_ends_the_policy_check() {
    let mut world = World::new();
    let mut engine = started(&mut world, test_config(), two_tasks());
    world.refuse = Some("git");
    match world.iterate(&mut engine) {
        Err(e) => assert_eq!(e.message(), "git status failed: refused"),
        Ok(_) => panic!("expected a failure"),
    }
}

#[test]
fn replies_that_were_not_asked_for_are_refused() {
    let mut world = World::new();
    let mut engine = started(&mut world, test_config(), two_tasks());
    let (mut it, _) = engine.next_iteration("GUIDE.md").unwrap();
    assert_eq!(it.phase, Phase::Started);
    for reply in [
        Reply::Agent(Some(0)),
        Reply::Update(None),
        Reply::Validator(ValidatorRun::NotRun(String::new())),
        Reply::Git(GitReply::NotRun),
    ] {
        let outcome = engine.advance(&mut it, reply, NOW);
        assert!(matches!(outcome, Err(RunError::UnexpectedReply)));
        assert_eq!(it.phase, Phase::Started);
    }
    assert!(!it.success());
}

#[test]
fn states_are_guarded() {
    let mut engine = RunEngine::new("/repo", test_config(), two_tasks());
    assert_eq!(
        engine.pause().unwrap_err().message(),
        "Cannot pause: current state is Idle, expected Running"
    );
    assert_eq!(
        engine.resume().unwrap_err().message(),
        "Cannot resume: current state is Idle, expected Paused"
    );
    match engine.next_iteration("GUIDE.md") {
        Err(e) => {
            assert_eq!(e.message(), "Cannot run iteration: current state is Idle, expected Running")
        }
        Ok(_) => panic!("expected a failure"),
    }
    engine.abort_at("x", 5).unwrap();
    assert_eq!(
        engine.abort("y").unwrap_err().message(),
        "Cannot abort: run is already in terminal state Aborted"
    );
    match engine.start(&vec![]) {
        StartStep::Done(Err(e)) => {
            assert_eq!(e.message(), "Cannot start run: current state is Aborted, expected Idle")
        }
        _ => panic!("expected a failure"),
    }
    assert_eq!(engine.run().ended_at, Some(5));
}

#[test]
fn messages_of_the_other_errors() {
    assert_eq!(RunError::TaskNotFound.message(), "Task not found");
    assert_eq!(
        RunError::NoAgent.message(),
        "No agent configured in ralpher.toml. Add [agent] section with type and cmd."
    );
    assert_eq!(RunError::EmptyCommand.message(), "Agent command is empty");
}

#[test]
fn status_updates_complete_the_run() {
    let mut world = World::new();
    let mut engine = started(&mut world, test_config(), two_tasks());
    assert!(matches!(
        engine.update_task_status("nope", TaskStatus::Done),
        Err(RunError::TaskNotFound)
    ));
    world.perform(engine.update_task_status("task-1", TaskStatus::Done).unwrap()).unwrap();
    assert!(engine.finish_task_update(9).is_empty());
    world.perform(engine.update_task_status("task-2", TaskStatus::Done).unwrap()).unwrap();
    let effects = engine.finish_task_update(9);
    assert_eq!(effects.len(), 2);
    assert_eq!(engine.run().state, RunState::Completed);
    assert_eq!(engine.run().ended_at, Some(9));
    assert_eq!(world.saved_tasks.unwrap().tasks[1].status, TaskStatus::Done);
}

#[test]
fn skipped_task_is_blocked() {
    let mut world = World::new();
    let mut engine = started(&mut world, test_config(), two_tasks());
    world.iterate(&mut engine).unwrap();
    let (id, effects) = engine.skip_task("later").unwrap();
    world.perform(effects).unwrap();
    assert_eq!(id, "task-1");
    assert_eq!(engine.tasks().tasks[0].status, TaskStatus::Blocked);
    assert_eq!(engine.tasks().tasks[0].notes, Some("later".to_string()));
    assert_eq!(engine.run().current_task_id, None);
    world.iterate(&mut engine).unwrap();
    assert_eq!(engine.run().current_task_id, Some("task-2".to_string()));
    engine.tasks_mut().tasks[1].notes = Some("kept".to_string());
    engine.skip_task("too").unwrap();
    assert_eq!(engine.tasks().tasks[1].notes, Some("kept".to_string()));
    assert!(engine.skip_task("none left").is_none());
    engine.tasks_mut().tasks.clear();
    assert!(engine.tasks().tasks.is_empty());
}

#[test]
fn fresh_runs_hold_the_given_time() {
    let run = Run::new_at("run-5".to_string(), GitMode::Trunk, 5000);
    assert_eq!(run.started_at, 5000);
    assert!(run.ended_at.is_none());
    let copy = run.clone();
    assert_eq!(copy.run_id, "run-5");
    assert_eq!(copy.git_mode, GitMode::Trunk);
}
