use ralpher::config::GitMode;
use ralpher::porcelain::parse_porcelain;
use ralpher::workspace::{
    parse_name_status, ChangeType, GitCommand, GitReply, GitStep, WorkspaceError, WorkspaceManager,
};

fn ok(stdout: &str) -> GitReply {
    GitReply::Ran { success: true, stdout: stdout.to_string(), stderr: String::new() }
}

fn failed(stderr: &str) -> GitReply {
    GitReply::Ran { success: false, stdout: String::new(), stderr: stderr.to_string() }
}

fn command<T>(step: GitStep<T>) -> Vec<String> {
    match step {
        GitStep::Run(command) => command.args(),
        GitStep::Done(_) => panic!("expected a command"),
    }
}

fn done<T>(step: GitStep<T>) -> Result<T, WorkspaceError> {
    match step {
        GitStep::Run(_) => panic!("expected an outcome"),
        GitStep::Done(outcome) => outcome,
    }
}

#[test]
fn test_change_type_from_char() {
    assert_eq!(ChangeType::from_char('A'), ChangeType::Added);
    assert_eq!(ChangeType::from_char('M'), ChangeType::Modified);
    assert_eq!(ChangeType::from_char('D'), ChangeType::Deleted);
    assert_eq!(ChangeType::from_char('R'), ChangeType::Renamed);
    assert_eq!(ChangeType::from_char('C'), ChangeType::Copied);
    assert_eq!(ChangeType::from_char('X'), ChangeType::Unknown('X'));
}

#[test]
fn test_is_git_repo() {
    assert_eq!(GitCommand::GitDir.args(), vec!["rev-parse", "--git-dir"]);
    assert!(WorkspaceManager::is_git_repo(&ok(".git\n")));
    assert!(!WorkspaceManager::is_git_repo(&failed("fatal: not a git repository")));
    assert!(!WorkspaceManager::is_git_repo(&GitReply::NotRun));
}

#[test]
fn test_is_dirty_clean() {
    let ws = WorkspaceManager::new("/repo", GitMode::Branch);

    assert_eq!(command(ws.is_dirty(&vec![])), vec!["status", "--porcelain"]);
    assert!(!done(ws.is_dirty(&vec![ok("\n")])).unwrap());
}

#[test]
fn test_is_dirty_with_changes() {
    let ws = WorkspaceManager::new("/repo", GitMode::Branch);

    assert!(done(ws.is_dirty(&vec![ok("?? new_file.txt\n")])).unwrap());
}

#[test]
fn test_current_branch() {
    let ws = WorkspaceManager::new("/repo", GitMode::Branch);

    assert_eq!(command(ws.current_branch(&vec![])), vec!["rev-parse", "--abbrev-ref", "HEAD"]);
    assert_eq!(done(ws.current_branch(&vec![ok("main\n")])).unwrap(), "main");
}

#[test]
fn test_head_sha() {
    let ws = WorkspaceManager::new("/repo", GitMode::Branch);

    assert_eq!(command(ws.head_sha(&vec![])), vec!["rev-parse", "--short", "HEAD"]);
    let sha = done(ws.head_sha(&vec![ok("0a1b2c3\n")])).unwrap();
    // Short SHA should be 7+ characters
    assert!(sha.len() >= 7);
    assert_eq!(sha, "0a1b2c3");
}

#[test]
fn test_create_branch() {
    let mut ws = WorkspaceManager::new("/repo", GitMode::Branch);

    assert_eq!(
        command(ws.create_branch("run-123", &vec![])),
        vec!["checkout", "-b", "ralpher/run-123"]
    );
    assert_eq!(ws.run_branch(), None);
    done(ws.create_branch("run-123", &vec![ok("")])).unwrap();

    assert_eq!(ws.run_branch(), Some("ralpher/run-123"));
}

#[test]
fn test_create_branch_trunk_mode_fails() {
    let mut ws = WorkspaceManager::new("/repo", GitMode::Trunk);

    let result = done(ws.create_branch("run-123", &vec![]));
    assert!(result.is_err());
    assert!(
        result
            .unwrap_err()
            .message()
            .contains("git_mode is not Branch")
    );
}

#[test]
fn branch_that_exists_is_not_created() {
    let mut ws = WorkspaceManager::new("/repo", GitMode::Branch);
    let error = done(ws.create_branch("run-1", &vec![failed("exists")])).unwrap_err();
    assert_eq!(error.message(), "Failed to create branch ralpher/run-1: exists");
    let error = done(ws.create_branch("run-1", &vec![GitReply::NotRun])).unwrap_err();
    assert_eq!(error.message(), "Failed to run git checkout");
    assert_eq!(ws.run_branch(), None);
    assert_eq!(ws.repo_path(), "/repo");
    assert_eq!(ws.git_mode(), GitMode::Branch);
}

#[test]
fn test_checkpoint() {
    let ws = WorkspaceManager::new("/repo", GitMode::Branch);
    let step = |replies: &Vec<GitReply>| ws.checkpoint(1, "task-1", "First task", replies);
    let mut replies = vec![];

    assert_eq!(command(step(&replies)), vec!["add", "-A"]);
    replies.push(ok(""));
    assert_eq!(command(step(&replies)), vec!["status", "--porcelain"]);
    replies.push(ok("A  task_output.txt\n"));

    // Verify commit message
    assert_eq!(
        command(step(&replies)),
        vec!["commit", "-m", "ralpher: it1 task task-1 - First task"]
    );
    replies.push(ok("[main 0a1b2c3]"));
    assert_eq!(command(step(&replies)), vec!["rev-parse", "--short", "HEAD"]);
    replies.push(ok("0a1b2c3\n"));

    let sha = done(step(&replies)).unwrap();
    assert!(!sha.is_empty());
    assert_eq!(sha, "0a1b2c3");
}

#[test]
fn test_checkpoint_no_changes() {
    let ws = WorkspaceManager::new("/repo", GitMode::Branch);

    let result = done(ws.checkpoint(1, "task-1", "First task", &vec![ok(""), ok("")]));
    assert!(result.is_err());
    assert!(
        result
            .unwrap_err()
            .message()
            .contains("No changes to commit")
    );
}

#[test]
fn failed_commands_end_a_checkpoint() {
    let ws = WorkspaceManager::new("/repo", GitMode::Branch);
    let outcome = |replies: Vec<GitReply>| {
        done(ws.checkpoint(1, "t", "T", &replies)).unwrap_err().message()
    };
    assert_eq!(outcome(vec![failed("a")]), "git add failed: a");
    assert_eq!(outcome(vec![ok(""), failed("b")]), "git status failed: b");
    assert_eq!(outcome(vec![ok(""), ok("M x"), failed("c")]), "git commit failed: c");
    assert_eq!(
        outcome(vec![ok(""), ok("M x"), ok(""), failed("d")]),
        "git rev-parse failed: d"
    );
    assert_eq!(outcome(vec![GitReply::NotRun]), "Failed to run git add");
}

#[test]
fn test_diff_name_status() {
    let ws = WorkspaceManager::new("/repo", GitMode::Branch);

    assert_eq!(
        command(ws.diff_name_status(Some("0a1b2c3"), &vec![])),
        vec!["diff", "--name-status", "0a1b2c3", "HEAD"]
    );
    assert_eq!(
        command(ws.diff_name_status(None, &vec![])),
        vec!["diff", "--name-status", "HEAD~1", "HEAD"]
    );
    let replies = vec![ok("M\tREADME.md\nA\tnew_file.txt\n")];
    let changes = done(ws.diff_name_status(Some("0a1b2c3"), &replies)).unwrap();

    assert_eq!(changes.len(), 2);

    let new_file = changes.iter().find(|c| c.path == "new_file.txt").unwrap();
    assert_eq!(new_file.change_type, ChangeType::Added);

    let readme = changes.iter().find(|c| c.path == "README.md").unwrap();
    assert_eq!(readme.change_type, ChangeType::Modified);
}

#[test]
fn test_unstaged_changes() {
    let ws = WorkspaceManager::new("/repo", GitMode::Branch);

    assert_eq!(command(ws.unstaged_changes(&vec![])), vec!["diff", "--name-status"]);
    let changes = done(ws.unstaged_changes(&vec![ok("M\tREADME.md\n")])).unwrap();

    assert_eq!(changes.len(), 1);
    assert_eq!(changes[0].path, "README.md");
    assert_eq!(changes[0].change_type, ChangeType::Modified);
}

#[test]
fn test_reset_hard() {
    let ws = WorkspaceManager::new("/repo", GitMode::Branch);

    assert_eq!(command(ws.reset_hard(&vec![])), vec!["reset", "--hard", "HEAD"]);
    assert_eq!(command(ws.reset_hard(&vec![ok("")])), vec!["clean", "-fd"]);
    assert!(done(ws.reset_hard(&vec![ok(""), ok("")])).is_ok());
    let error = done(ws.reset_hard(&vec![ok(""), failed("x")])).unwrap_err();
    assert_eq!(error.message(), "git clean failed: x");
}

#[test]
fn renames_name_both_paths() {
    let changes = parse_name_status("R100\told.rs\tnew.rs\n\nC75\ta\tb\nR\n\tx\nD\tgone\n", true);
    assert_eq!(changes.len(), 5);
    assert_eq!(changes[0].change_type, ChangeType::Renamed);
    assert_eq!(changes[0].path, "new.rs");
    assert_eq!(changes[0].old_path, Some("old.rs".to_string()));
    assert_eq!(changes[1].change_type, ChangeType::Copied);
    assert_eq!(changes[2].path, "");
    assert_eq!(changes[2].old_path, None);
    assert_eq!(changes[3].change_type, ChangeType::Unknown('?'));
    assert_eq!(changes[3].path, "x");
    assert_eq!(changes[4].change_type, ChangeType::Deleted);
    let changes = parse_name_status("R100\told.rs\tnew.rs\n", false);
    assert_eq!(changes[0].path, "old.rs");
    assert_eq!(changes[0].old_path, None);
}

#[test]
fn porcelain_lines_become_changes() {
    let output = " M src/a.rs\nD  b\n D c\nMD d\nR  old -> new\n?? fresh\nA  e\nUU f\n?? .ralpher/run.json\nxy\n";
    let changes = parse_porcelain(output);
    let seen: Vec<(ChangeType, &str)> =
        changes.iter().map(|c| (c.change_type, c.path.as_str())).collect();
    assert_eq!(
        seen,
        vec![
            (ChangeType::Modified, "src/a.rs"),
            (ChangeType::Deleted, "b"),
            (ChangeType::Deleted, "c"),
            (ChangeType::Deleted, "d"),
            (ChangeType::Renamed, "new"),
            (ChangeType::Added, "fresh"),
            (ChangeType::Added, "e"),
            (ChangeType::Modified, "f"),
        ]
    );
    assert_eq!(changes[4].old_path, Some("old".to_string()));
}

#[test]
fn porcelain_lines_are_cut_between_characters() {
    let paths = |output: &str| -> Vec<String> {
        parse_porcelain(output).into_iter().map(|c| c.path).collect()
    };
    assert!(paths("").is_empty());
    assert_eq!(paths("?? \u{e4}\n"), vec!["\u{e4}"]);
    assert_eq!(paths("?\u{e4} x\n"), vec!["x"]);
    assert_eq!(paths("\u{20ac}x\n"), vec!["x"]);
    assert_eq!(paths("\u{e4} x\n"), vec!["x"]);
    assert!(paths("a\n\u{e4}\n").is_empty());
}
