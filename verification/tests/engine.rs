use ralpher::config::{Config, GitMode};
use ralpher::engine::{
    abort_run, clean_artifacts, count_results, create_engine, get_status, load_engine, pause_run,
    resume_run, run_iteration, run_validators, skip_task, start_run, Preparation,
};
use ralpher::event::ValidatorStatus;
use ralpher::run::{Run, RunEngine, RunState, StartStep, ValidationResults};
use ralpher::task::{Task, TaskList, TaskStatus};
use ralpher::validation::{run_validators_standalone, ValidatorRun};
use ralpher::workspace::{GitCommand, GitReply};

fn one_task() -> TaskList {
    TaskList::new(vec![Task {
        id: "t1".to_string(),
        title: "Task 1".to_string(),
        status: TaskStatus::Todo,
        acceptance: vec![],
        validators: vec![],
        notes: None,
    }])
}

fn start(engine: &mut RunEngine) {
    let mut replies = vec![];
    loop {
        match engine.start(&replies) {
            StartStep::Git(command) => {
                let stdout = match command {
                    GitCommand::CurrentBranch => "main\n".to_string(),
                    _ => String::new(),
                };
                replies.push(GitReply::Ran { success: true, stdout, stderr: String::new() });
            }
            StartStep::Done(outcome) => {
                outcome.unwrap();
                return;
            }
        }
    }
}

fn run_in(state: RunState) -> Run {
    let mut run = Run::new("run-1".to_string(), GitMode::Branch);
    run.state = state;
    run
}

#[test]
fn test_get_status_no_config() {
    let status = get_status(false, None, None);
    assert!(!status.has_run);
    assert!(status.run.is_none());
}

#[test]
fn test_get_status_with_config_no_run() {
    let status = get_status(true, None, Some(one_task()));
    assert!(!status.has_run);
    assert!(status.run.is_none());
    assert_eq!(status.total_count, 1);
    assert_eq!(status.todo_count, 1);
}

#[test]
fn test_start_run() {
    let mut engine = start_run("/repo", Config::new(), one_task(), None).unwrap();
    start(&mut engine);
    assert_eq!(engine.run().state, RunState::Running);
    assert!(engine.run().run_branch.is_some());
}

#[test]
fn test_start_run_fails_if_active() {
    let mut engine = start_run("/repo", Config::new(), one_task(), None).unwrap();
    start(&mut engine);
    let result = start_run("/repo", Config::new(), one_task(), Some(engine.run()));
    assert!(result.is_err());
    assert!(
        result
            .unwrap_err()
            .message()
            .contains("already in progress")
    );
}

#[test]
fn test_abort_run() {
    let mut engine = start_run("/repo", Config::new(), one_task(), None).unwrap();
    start(&mut engine);
    assert!(abort_run(true, Some(engine.run())).unwrap());
    engine.abort("test abort").unwrap();
    let status = get_status(true, Some(engine.run().clone()), Some(one_task()));
    assert_eq!(status.run.unwrap().state, RunState::Aborted);
}

#[test]
fn test_clean_artifacts() {
    let mut engine = start_run("/repo", Config::new(), one_task(), None).unwrap();
    start(&mut engine);
    engine.abort("test").unwrap();
    assert!(clean_artifacts(true, Some(engine.run())).unwrap());
}

#[test]
fn test_clean_artifacts_fails_if_active() {
    let mut engine = start_run("/repo", Config::new(), one_task(), None).unwrap();
    start(&mut engine);
    let result = clean_artifacts(true, Some(engine.run()));
    assert!(result.is_err());
    assert!(result.unwrap_err().message().contains("still active"));
}

#[test]
fn status_counts_the_tasks() {
    let mut tasks = one_task();
    for status in [TaskStatus::Done, TaskStatus::Blocked, TaskStatus::InProgress, TaskStatus::Done] {
        let mut task = tasks.tasks[0].clone();
        task.status = status;
        tasks.tasks.push(task);
    }
    let status = get_status(true, Some(run_in(RunState::Paused)), Some(tasks.clone()));
    assert!(status.has_run);
    assert_eq!(
        (status.done_count, status.in_progress_count, status.todo_count, status.blocked_count),
        (2, 1, 1, 1)
    );
    assert_eq!(status.total_count, 5);
    let status = get_status(false, Some(run_in(RunState::Paused)), Some(tasks));
    assert!(!status.has_run);
    assert!(status.tasks.is_none());
    assert_eq!(status.total_count, 0);
}

#[test]
fn iterations_need_a_run_that_has_not_ended() {
    assert_eq!(
        run_iteration(None).unwrap_err().message(),
        "No active run found. Use --start to begin a new run."
    );
    assert_eq!(
        run_iteration(Some(&run_in(RunState::Completed))).unwrap_err().message(),
        "Run is already completed. Use --clean then --start for a new run."
    );
    assert_eq!(
        run_iteration(Some(&run_in(RunState::Aborted))).unwrap_err().message(),
        "Run was aborted. Use --clean then --start for a new run."
    );
    assert_eq!(run_iteration(Some(&run_in(RunState::Idle))).unwrap(), Preparation::Start);
    assert_eq!(run_iteration(Some(&run_in(RunState::Paused))).unwrap(), Preparation::Resume);
    assert_eq!(run_iteration(Some(&run_in(RunState::Running))).unwrap(), Preparation::Nothing);
}

#[test]
fn ended_runs_do_not_block_a_new_one() {
    assert!(start_run("/repo", Config::new(), one_task(), Some(&run_in(RunState::Aborted))).is_ok());
    let error = start_run("/repo", Config::new(), one_task(), Some(&run_in(RunState::Paused)));
    assert_eq!(
        error.unwrap_err().message(),
        "Run run-1 is already in progress (state: Paused). Use --abort first."
    );
}

#[test]
fn pausing_and_resuming_need_the_right_state() {
    assert_eq!(pause_run(None).unwrap_err().message(), "No active run to pause.");
    assert_eq!(resume_run(None).unwrap_err().message(), "No active run to resume.");
    let engine = load_engine("/repo", Some(run_in(RunState::Running)), Config::new(), one_task());
    let (engine, effects) = pause_run(engine).unwrap();
    assert_eq!(effects.len(), 2);
    assert_eq!(engine.run().state, RunState::Paused);
    let (engine, _) = resume_run(Some(engine)).unwrap();
    assert_eq!(engine.run().state, RunState::Running);
    assert_eq!(
        resume_run(Some(engine)).unwrap_err().message(),
        "Cannot resume: run is Running, not Paused."
    );
    let engine = load_engine("/repo", Some(run_in(RunState::Idle)), Config::new(), one_task());
    assert_eq!(
        pause_run(engine).unwrap_err().message(),
        "Cannot pause: run is Idle, not Running."
    );
    assert!(load_engine("/repo", None, Config::new(), one_task()).is_none());
}

#[test]
fn aborting_needs_a_run() {
    assert_eq!(
        abort_run(false, None).unwrap_err().message(),
        "No ralpher.toml found in current directory."
    );
    assert_eq!(abort_run(true, None).unwrap_err().message(), "No active run to abort.");
    assert!(!abort_run(true, Some(&run_in(RunState::Completed))).unwrap());
}

#[test]
fn skipping_takes_the_current_task() {
    assert_eq!(skip_task(None, "x").unwrap_err().message(), "No active run found.");
    let engine = create_engine("/repo", Config::new(), one_task());
    let (engine, skipped) = skip_task(Some(engine), "x").unwrap();
    assert_eq!(skipped.unwrap().0, "t1");
    assert_eq!(engine.tasks().tasks[0].status, TaskStatus::Blocked);
    let (_, skipped) = skip_task(Some(engine), "x").unwrap();
    assert!(skipped.is_none());
}

#[test]
fn cleaning_needs_something_to_clean() {
    assert!(!clean_artifacts(false, Some(&run_in(RunState::Running))).unwrap());
    assert!(clean_artifacts(true, None).unwrap());
    assert_eq!(
        clean_artifacts(true, Some(&run_in(RunState::Idle))).unwrap_err().message(),
        "Run run-1 is still active (state: Idle). Use --abort first."
    );
}

fn results(codes: &[i32]) -> ValidationResults {
    let commands: Vec<String> = codes.iter().map(|c| format!("exit {}", c)).collect();
    let runs: Vec<ValidatorRun> = codes
        .iter()
        .map(|c| ValidatorRun::Ran {
            exit_code: Some(*c),
            stdout: String::new(),
            stderr: String::new(),
        })
        .collect();
    run_validators_standalone(&commands, &runs)
}

#[test]
fn failed_validators_are_an_error() {
    assert!(run_validators(results(&[0, 0])).is_ok());
    assert!(run_validators(results(&[])).is_ok());
    let mixed = results(&[0, 1, 2, 0, 0]);
    assert_eq!(count_results(&mixed, ValidatorStatus::Pass), 3);
    assert_eq!(count_results(&mixed, ValidatorStatus::Fail), 2);
    assert_eq!(count_results(&mixed, ValidatorStatus::Skipped), 0);
    assert_eq!(run_validators(mixed).unwrap_err().message(), "Some validators failed");
}
