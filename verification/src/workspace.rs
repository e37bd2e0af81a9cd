//! Git operations of a run: which commands they issue and what they make of
//! the replies.
//!
//! An operation is a function from the replies received so far to its next
//! step: a command to run, or its outcome.

use vstd::prelude::*;

use crate::config::GitMode;
use crate::number::{decimal, decimal_text};
use crate::search::{lines, lines_of, parts_of, split};
use crate::text::{
    chars_of, lemma_views_push, opt_view, owned, string_of, trim, trimmed, trimmed_text, views,
};

verus! {

/// File change type from git diff --name-status.
#[derive(Clone, Copy, Debug, PartialEq, Eq, Structural)]
pub enum ChangeType {
    Added,
    Modified,
    Deleted,
    Renamed,
    Copied,
    Unknown(char),
}

/// The change type that a status letter stands for.
pub open spec fn change_type(c: char) -> ChangeType {
    match c {
        'A' => ChangeType::Added,
        'M' => ChangeType::Modified,
        'D' => ChangeType::Deleted,
        'R' => ChangeType::Renamed,
        'C' => ChangeType::Copied,
        other => ChangeType::Unknown(other),
    }
}

impl ChangeType {
    /// The change type that a status letter stands for.
    pub fn from_char(c: char) -> (r: Self)
        ensures
            r == change_type(c),
    {
        match c {
            'A' => ChangeType::Added,
            'M' => ChangeType::Modified,
            'D' => ChangeType::Deleted,
            'R' => ChangeType::Renamed,
            'C' => ChangeType::Copied,
            other => ChangeType::Unknown(other),
        }
    }

    /// The status letter of the change type.
    pub fn letter(&self) -> (r: char)
        ensures
            r == change_letter(*self),
    {
        match self {
            ChangeType::Added => 'A',
            ChangeType::Modified => 'M',
            ChangeType::Deleted => 'D',
            ChangeType::Renamed => 'R',
            ChangeType::Copied => 'C',
            ChangeType::Unknown(c) => *c,
        }
    }
}

/// The status letter of a change type.
pub open spec fn change_letter(t: ChangeType) -> char {
    match t {
        ChangeType::Added => 'A',
        ChangeType::Modified => 'M',
        ChangeType::Deleted => 'D',
        ChangeType::Renamed => 'R',
        ChangeType::Copied => 'C',
        ChangeType::Unknown(c) => c,
    }
}

/// A status letter stands for the change type that it is read as.
pub proof fn law_letter_is_read_back(c: char)
    ensures
        change_letter(change_type(c)) == c,
{
}

/// A file change from git diff --name-status.
#[derive(Debug)]
pub struct FileChange {
    pub change_type: ChangeType,
    pub path: String,
    /// For renames/copies, the original path.
    pub old_path: Option<String>,
}

/// What a file change says.
#[verifier::ext_equal]
pub struct FileChangeView {
    pub change_type: ChangeType,
    pub path: Seq<char>,
    pub old_path: Option<Seq<char>>,
}

impl View for FileChange {
    type V = FileChangeView;

    open spec fn view(&self) -> FileChangeView {
        FileChangeView {
            change_type: self.change_type,
            path: self.path@,
            old_path: opt_view(self.old_path),
        }
    }
}

impl Clone for FileChange {
    fn clone(&self) -> (r: Self)
        ensures
            r@ == self@,
    {
        FileChange {
            change_type: self.change_type,
            path: self.path.clone(),
            old_path: crate::text::clone_opt_string(&self.old_path),
        }
    }
}

// ------------------------------------------------------------ commands, replies

/// A git command that an operation issues.
#[derive(Debug)]
pub enum GitCommand {
    Status,
    CurrentBranch,
    HeadSha,
    CheckoutNew(String),
    AddAll,
    Commit(String),
    DiffSince(String),
    DiffUnstaged,
    ResetHard,
    Clean,
    GitDir,
}

/// What a git command says.
#[verifier::ext_equal]
pub enum GitCommandView {
    Status,
    CurrentBranch,
    HeadSha,
    CheckoutNew(Seq<char>),
    AddAll,
    Commit(Seq<char>),
    DiffSince(Seq<char>),
    DiffUnstaged,
    ResetHard,
    Clean,
    GitDir,
}

impl View for GitCommand {
    type V = GitCommandView;

    open spec fn view(&self) -> GitCommandView {
        match *self {
            GitCommand::Status => GitCommandView::Status,
            GitCommand::CurrentBranch => GitCommandView::CurrentBranch,
            GitCommand::HeadSha => GitCommandView::HeadSha,
            GitCommand::CheckoutNew(b) => GitCommandView::CheckoutNew(b@),
            GitCommand::AddAll => GitCommandView::AddAll,
            GitCommand::Commit(m) => GitCommandView::Commit(m@),
            GitCommand::DiffSince(b) => GitCommandView::DiffSince(b@),
            GitCommand::DiffUnstaged => GitCommandView::DiffUnstaged,
            GitCommand::ResetHard => GitCommandView::ResetHard,
            GitCommand::Clean => GitCommandView::Clean,
            GitCommand::GitDir => GitCommandView::GitDir,
        }
    }
}

/// The arguments with which git is run.
pub open spec fn git_args(c: GitCommandView) -> Seq<Seq<char>> {
    match c {
        GitCommandView::Status => seq!["status"@, "--porcelain"@],
        GitCommandView::CurrentBranch => seq!["rev-parse"@, "--abbrev-ref"@, "HEAD"@],
        GitCommandView::HeadSha => seq!["rev-parse"@, "--short"@, "HEAD"@],
        GitCommandView::CheckoutNew(b) => seq!["checkout"@, "-b"@, b],
        GitCommandView::AddAll => seq!["add"@, "-A"@],
        GitCommandView::Commit(m) => seq!["commit"@, "-m"@, m],
        GitCommandView::DiffSince(b) => seq!["diff"@, "--name-status"@, b, "HEAD"@],
        GitCommandView::DiffUnstaged => seq!["diff"@, "--name-status"@],
        GitCommandView::ResetHard => seq!["reset"@, "--hard"@, "HEAD"@],
        GitCommandView::Clean => seq!["clean"@, "-fd"@],
        GitCommandView::GitDir => seq!["rev-parse"@, "--git-dir"@],
    }
}

/// The first of a command's arguments, under which errors name it.
pub open spec fn git_name(c: GitCommandView) -> Seq<char> {
    git_args(c)[0]
}

fn args2(a: &str, b: &str) -> (r: Vec<String>)
    ensures
        views(r@) == seq![a@, b@],
{
    let r = vec![owned(a), owned(b)];
    assert(views(r@) =~= seq![a@, b@]);
    r
}

fn args3(a: &str, b: &str, c: &str) -> (r: Vec<String>)
    ensures
        views(r@) == seq![a@, b@, c@],
{
    let r = vec![owned(a), owned(b), owned(c)];
    assert(views(r@) =~= seq![a@, b@, c@]);
    r
}

fn args4(a: &str, b: &str, c: &str, d: &str) -> (r: Vec<String>)
    ensures
        views(r@) == seq![a@, b@, c@, d@],
{
    let r = vec![owned(a), owned(b), owned(c), owned(d)];
    assert(views(r@) =~= seq![a@, b@, c@, d@]);
    r
}

impl GitCommand {
    /// The arguments with which git is run.
    pub fn args(&self) -> (r: Vec<String>)
        ensures
            views(r@) == git_args(self@),
    {
        match self {
            GitCommand::Status => args2("status", "--porcelain"),
            GitCommand::CurrentBranch => args3("rev-parse", "--abbrev-ref", "HEAD"),
            GitCommand::HeadSha => args3("rev-parse", "--short", "HEAD"),
            GitCommand::CheckoutNew(b) => args3("checkout", "-b", b.as_str()),
            GitCommand::AddAll => args2("add", "-A"),
            GitCommand::Commit(m) => args3("commit", "-m", m.as_str()),
            GitCommand::DiffSince(b) => args4("diff", "--name-status", b.as_str(), "HEAD"),
            GitCommand::DiffUnstaged => args2("diff", "--name-status"),
            GitCommand::ResetHard => args3("reset", "--hard", "HEAD"),
            GitCommand::Clean => args2("clean", "-fd"),
            GitCommand::GitDir => args2("rev-parse", "--git-dir"),
        }
    }

    /// The first of the arguments, under which errors name the command.
    pub fn name(&self) -> (r: String)
        ensures
            r@ == git_name(self@),
    {
        let args = self.args();
        assert(views(args@).len() > 0);
        assert(views(args@)[0] == args@[0]@);
        args[0].clone()
    }
}

/// How a git command ended.
#[derive(Debug)]
pub enum GitReply {
    /// The program could not be run.
    NotRun,
    /// It ran, with what it wrote and whether it reported success.
    Ran { success: bool, stdout: String, stderr: String },
}

/// Why a workspace operation failed.
#[derive(Debug)]
pub enum WorkspaceError {
    /// Git could not be run for the named command.
    NotRun { command: String },
    /// The named command failed.
    Failed { command: String, stderr: String },
    /// A run branch was asked for outside branch mode.
    NotBranchMode,
    /// The run branch could not be created.
    BranchNotCreated { branch: String, stderr: String },
    /// A checkpoint was asked for with nothing to commit.
    NothingToCommit,
}

/// What a workspace error says.
#[verifier::ext_equal]
pub enum WorkspaceErrorView {
    NotRun { command: Seq<char> },
    Failed { command: Seq<char>, stderr: Seq<char> },
    NotBranchMode,
    BranchNotCreated { branch: Seq<char>, stderr: Seq<char> },
    NothingToCommit,
}

impl View for WorkspaceError {
    type V = WorkspaceErrorView;

    open spec fn view(&self) -> WorkspaceErrorView {
        match *self {
            WorkspaceError::NotRun { command } => WorkspaceErrorView::NotRun { command: command@ },
            WorkspaceError::Failed { command, stderr } => WorkspaceErrorView::Failed {
                command: command@,
                stderr: stderr@,
            },
            WorkspaceError::NotBranchMode => WorkspaceErrorView::NotBranchMode,
            WorkspaceError::BranchNotCreated { branch, stderr } =>
            WorkspaceErrorView::BranchNotCreated { branch: branch@, stderr: stderr@ },
            WorkspaceError::NothingToCommit => WorkspaceErrorView::NothingToCommit,
        }
    }
}

/// The message of a workspace error.
pub open spec fn workspace_message(e: WorkspaceErrorView) -> Seq<char> {
    match e {
        WorkspaceErrorView::NotRun { command } => "Failed to run git "@ + command,
        WorkspaceErrorView::Failed { command, stderr } => "git "@ + command + " failed: "@ + stderr,
        WorkspaceErrorView::NotBranchMode => "create_branch called but git_mode is not Branch"@,
        WorkspaceErrorView::BranchNotCreated { branch, stderr } => "Failed to create branch "@
            + branch + ": "@ + stderr,
        WorkspaceErrorView::NothingToCommit => "No changes to commit"@,
    }
}

impl WorkspaceError {
    /// The message of the error.
    pub fn message(&self) -> (r: String)
        ensures
            r@ == workspace_message(self@),
    {
        match self {
            WorkspaceError::NotRun { command } => owned("Failed to run git ").concat(
                command.as_str(),
            ),
            WorkspaceError::Failed { command, stderr } => owned("git ").concat(
                command.as_str(),
            ).concat(" failed: ").concat(stderr.as_str()),
            WorkspaceError::NotBranchMode => owned(
                "create_branch called but git_mode is not Branch",
            ),
            WorkspaceError::BranchNotCreated { branch, stderr } => owned(
                "Failed to create branch ",
            ).concat(branch.as_str()).concat(": ").concat(stderr.as_str()),
            WorkspaceError::NothingToCommit => owned("No changes to commit"),
        }
    }
}

/// The next step of an operation: a command to run, or the outcome.
pub enum GitStep<T> {
    Run(GitCommand),
    Done(Result<T, WorkspaceError>),
}

impl<T> GitStep<T> {
    /// Whether the step runs the given command.
    pub open spec fn runs(&self, c: GitCommandView) -> bool {
        match *self {
            GitStep::Run(k) => k@ == c,
            GitStep::Done(_) => false,
        }
    }

    /// Whether the step ends the operation with the given error.
    pub open spec fn fails(&self, e: WorkspaceErrorView) -> bool {
        match *self {
            GitStep::Done(Err(k)) => k@ == e,
            _ => false,
        }
    }

    /// Whether the step ends the operation with the given result.
    pub open spec fn succeeds(&self, value: T) -> bool {
        match *self {
            GitStep::Done(Ok(v)) => v == value,
            _ => false,
        }
    }
}

/// The error that a reply to a command stands for, where it is not a success.
pub open spec fn reply_error(c: GitCommandView, reply: GitReply) -> Option<WorkspaceErrorView> {
    match reply {
        GitReply::NotRun => Some(WorkspaceErrorView::NotRun { command: git_name(c) }),
        GitReply::Ran { success, stdout, stderr } => if success {
            None
        } else {
            Some(WorkspaceErrorView::Failed { command: git_name(c), stderr: stderr@ })
        },
    }
}

/// What a command wrote.
pub open spec fn output_of(reply: GitReply) -> Seq<char> {
    match reply {
        GitReply::NotRun => Seq::empty(),
        GitReply::Ran { success, stdout, stderr } => stdout@,
    }
}

/// What a command wrote, or the error that its reply stands for.
pub fn read_reply<'a>(command: &GitCommand, reply: &'a GitReply) -> (r: Result<
    &'a str,
    WorkspaceError,
>)
    ensures
        match r {
            Ok(s) => reply_error(command@, *reply) is None && s@ == output_of(*reply),
            Err(e) => reply_error(command@, *reply) == Some(e@),
        },
{
    match reply {
        GitReply::NotRun => Err(WorkspaceError::NotRun { command: command.name() }),
        GitReply::Ran { success, stdout, stderr } => if *success {
            Ok(stdout.as_str())
        } else {
            Err(WorkspaceError::Failed { command: command.name(), stderr: stderr.clone() })
        },
    }
}

// --------------------------------------------------------- reading git's output

/// The part at index `i`, or nothing where there is none.
pub open spec fn part_or_empty(parts: Seq<Seq<char>>, i: int) -> Seq<char> {
    if 0 <= i < parts.len() {
        parts[i]
    } else {
        Seq::empty()
    }
}

/// The change that a line of `--name-status` output stands for. With
/// `with_sources`, renames and copies name their old path before the new one.
pub open spec fn change_of_line(line: Seq<char>, with_sources: bool) -> FileChangeView {
    let parts = split(line, '\t');
    let kind = change_type(
        if parts[0].len() > 0 {
            parts[0][0]
        } else {
            '?'
        },
    );
    if with_sources && (kind == ChangeType::Renamed || kind == ChangeType::Copied) {
        FileChangeView {
            change_type: kind,
            path: part_or_empty(parts, 2),
            old_path: if parts.len() > 1 {
                Some(parts[1])
            } else {
                None
            },
        }
    } else {
        FileChangeView { change_type: kind, path: part_or_empty(parts, 1), old_path: None }
    }
}

/// The changes that lines of `--name-status` output stand for; empty lines
/// stand for none.
pub open spec fn changes_of_lines(ls: Seq<Seq<char>>, with_sources: bool) -> Seq<FileChangeView>
    decreases ls.len(),
{
    if ls.len() == 0 {
        Seq::empty()
    } else {
        let front = changes_of_lines(ls.drop_last(), with_sources);
        if ls.last().len() == 0 {
            front
        } else {
            front.push(change_of_line(ls.last(), with_sources))
        }
    }
}

fn part_text(parts: &Vec<Vec<char>>, i: usize) -> (r: String)
    ensures
        r@ == part_or_empty(views(parts@), i as int),
{
    if i < parts.len() {
        assert(views(parts@)[i as int] == parts@[i as int]@);
        string_of(&parts[i])
    } else {
        String::new()
    }
}

fn read_change(line: &Vec<char>, with_sources: bool) -> (r: FileChange)
    ensures
        r@ == change_of_line(line@, with_sources),
{
    let parts = parts_of(line, '\t');
    proof {
        crate::search::lemma_split_len(line@, '\t');
    }
    assert(views(parts@)[0] == parts@[0]@);
    let letter = if parts[0].len() > 0 {
        parts[0][0]
    } else {
        '?'
    };
    let kind = ChangeType::from_char(letter);
    if with_sources && (kind == ChangeType::Renamed || kind == ChangeType::Copied) {
        // Format: R100\told_path\tnew_path
        let old_path = if parts.len() > 1 {
            Some(part_text(&parts, 1))
        } else {
            None
        };
        FileChange { change_type: kind, path: part_text(&parts, 2), old_path }
    } else {
        FileChange { change_type: kind, path: part_text(&parts, 1), old_path: None }
    }
}

/// Reads the output of `git diff --name-status`.
pub fn parse_name_status(output: &str, with_sources: bool) -> (r: Vec<FileChange>)
    ensures
        views(r@) == changes_of_lines(lines(output@), with_sources),
{
    let ls = lines_of(&chars_of(output));
    let n = ls.len();
    let mut changes: Vec<FileChange> = Vec::new();
    let ghost lv = lines(output@);
    for i in 0..n
        invariant
            n == ls@.len(),
            lv == views(ls@),
            views(changes@) == changes_of_lines(lv.take(i as int), with_sources),
    {
        broadcast use lemma_views_push;

        assert(lv.take(i + 1).drop_last() =~= lv.take(i as int));
        assert(lv[i as int] == ls@[i as int]@);
        if ls[i].len() > 0 {
            changes.push(read_change(&ls[i], with_sources));
        }
    }
    assert(lv.take(n as int) =~= lv);
    changes
}

// ---------------------------------------------------------------- the workspace

/// The branch of a run.
pub open spec fn branch_name(run_id: Seq<char>) -> Seq<char> {
    "ralpher/"@ + run_id
}

/// The message of a checkpoint commit.
pub open spec fn checkpoint_message(
    iteration: u32,
    task_id: Seq<char>,
    task_title: Seq<char>,
) -> Seq<char> {
    "ralpher: it"@ + decimal(iteration as nat) + " task "@ + task_id + " - "@ + task_title
}

/// Manages git workspace operations for a ralpher run.
#[derive(Debug)]
pub struct WorkspaceManager {
    /// Path to the repository root.
    pub repo_path: String,
    /// Git mode (branch or trunk).
    pub git_mode: GitMode,
    /// The branch created for this run (if in branch mode).
    pub run_branch: Option<String>,
}

impl WorkspaceManager {
    /// Create a new workspace manager.
    pub fn new(repo_path: &str, git_mode: GitMode) -> (r: Self)
        ensures
            r.repo_path@ == repo_path@,
            r.git_mode == git_mode,
            r.run_branch is None,
    {
        WorkspaceManager { repo_path: owned(repo_path), git_mode, run_branch: None }
    }

    /// Get the repository path.
    pub fn repo_path(&self) -> (r: &str)
        ensures
            r@ == self.repo_path@,
    {
        self.repo_path.as_str()
    }

    /// Get the git mode.
    pub fn git_mode(&self) -> (r: GitMode)
        ensures
            r == self.git_mode,
    {
        self.git_mode
    }

    /// Get the run branch name (if in branch mode and initialized).
    pub fn run_branch(&self) -> (r: Option<&str>)
        ensures
            match r {
                Some(s) => opt_view(self.run_branch) == Some(s@),
                None => self.run_branch is None,
            },
    {
        match &self.run_branch {
            Some(s) => Some(s.as_str()),
            None => None,
        }
    }

    /// Check if the working tree has uncommitted changes.
    pub fn is_dirty(&self, replies: &Vec<GitReply>) -> (r: GitStep<bool>)
        ensures
            replies@.len() == 0 ==> r.runs(GitCommandView::Status),
            replies@.len() > 0 ==> match reply_error(GitCommandView::Status, replies@[0]) {
                Some(e) => r.fails(e),
                None => r.succeeds(trim(output_of(replies@[0])).len() > 0),
            },
    {
        if replies.len() == 0 {
            return GitStep::Run(GitCommand::Status);
        }
        match read_reply(&GitCommand::Status, &replies[0]) {
            Err(e) => GitStep::Done(Err(e)),
            Ok(out) => GitStep::Done(Ok(trimmed(&chars_of(out)).len() > 0)),
        }
    }

    fn read_line(command: GitCommand, replies: &Vec<GitReply>) -> (r: GitStep<String>)
        ensures
            replies@.len() == 0 ==> r.runs(command@),
            replies@.len() > 0 ==> match reply_error(command@, replies@[0]) {
                Some(e) => r.fails(e),
                None => r matches GitStep::Done(Ok(s)) && s@ == trim(output_of(replies@[0])),
            },
    {
        if replies.len() == 0 {
            return GitStep::Run(command);
        }
        match read_reply(&command, &replies[0]) {
            Err(e) => GitStep::Done(Err(e)),
            Ok(out) => GitStep::Done(Ok(trimmed_text(out))),
        }
    }

    /// Get the current branch name.
    pub fn current_branch(&self, replies: &Vec<GitReply>) -> (r: GitStep<String>)
        ensures
            replies@.len() == 0 ==> r.runs(GitCommandView::CurrentBranch),
            replies@.len() > 0 ==> match reply_error(GitCommandView::CurrentBranch, replies@[0]) {
                Some(e) => r.fails(e),
                None => r matches GitStep::Done(Ok(s)) && s@ == trim(output_of(replies@[0])),
            },
    {
        WorkspaceManager::read_line(GitCommand::CurrentBranch, replies)
    }

    /// Get the current HEAD commit SHA (short form).
    pub fn head_sha(&self, replies: &Vec<GitReply>) -> (r: GitStep<String>)
        ensures
            replies@.len() == 0 ==> r.runs(GitCommandView::HeadSha),
            replies@.len() > 0 ==> match reply_error(GitCommandView::HeadSha, replies@[0]) {
                Some(e) => r.fails(e),
                None => r matches GitStep::Done(Ok(s)) && s@ == trim(output_of(replies@[0])),
            },
    {
        WorkspaceManager::read_line(GitCommand::HeadSha, replies)
    }

    /// Create and switch to a run branch. Only applicable in branch mode.
    /// Branch name format: `ralpher/<run_id>`
    pub fn create_branch(&mut self, run_id: &str, replies: &Vec<GitReply>) -> (r: GitStep<()>)
        ensures
            final(self).repo_path == old(self).repo_path,
            final(self).git_mode == old(self).git_mode,
            old(self).git_mode != GitMode::Branch ==> r.fails(WorkspaceErrorView::NotBranchMode),
            old(self).git_mode == GitMode::Branch && replies@.len() == 0 ==> r.runs(
                GitCommandView::CheckoutNew(branch_name(run_id@)),
            ),
            old(self).git_mode == GitMode::Branch && replies@.len() > 0 ==> match replies@[0] {
                GitReply::NotRun => r.fails(WorkspaceErrorView::NotRun { command: "checkout"@ }),
                GitReply::Ran { success, stdout, stderr } => if success {
                    r.succeeds(()) && opt_view(final(self).run_branch) == Some(branch_name(run_id@))
                } else {
                    r.fails(
                        WorkspaceErrorView::BranchNotCreated {
                            branch: branch_name(run_id@),
                            stderr: stderr@,
                        },
                    )
                },
            },
            !(r matches GitStep::Done(Ok(_))) ==> final(self).run_branch == old(self).run_branch,
    {
        if self.git_mode != GitMode::Branch {
            return GitStep::Done(Err(WorkspaceError::NotBranchMode));
        }
        let branch = owned("ralpher/").concat(run_id);
        if replies.len() == 0 {
            return GitStep::Run(GitCommand::CheckoutNew(branch));
        }
        match &replies[0] {
            GitReply::NotRun => GitStep::Done(
                Err(WorkspaceError::NotRun { command: owned("checkout") }),
            ),
            GitReply::Ran { success, stdout, stderr } => {
                if *success {
                    self.run_branch = Some(branch);
                    GitStep::Done(Ok(()))
                } else {
                    GitStep::Done(
                        Err(WorkspaceError::BranchNotCreated { branch, stderr: stderr.clone() }),
                    )
                }
            },
        }
    }

    /// Create a checkpoint commit with a standardized message format.
    /// Message format: `ralpher: it<iteration> task <task_id> - <task_title>`
    ///
    /// Stages all changes, makes sure that there is something to commit,
    /// commits, and asks for the new commit's SHA.
    pub fn checkpoint(
        &self,
        iteration: u32,
        task_id: &str,
        task_title: &str,
        replies: &Vec<GitReply>,
    ) -> (r: GitStep<String>)
        ensures
            checkpoint_step(
                checkpoint_message(iteration, task_id@, task_title@),
                replies@,
                r,
            ),
    {
        if replies.len() == 0 {
            return GitStep::Run(GitCommand::AddAll);
        }
        match read_reply(&GitCommand::AddAll, &replies[0]) {
            Err(e) => {
                return GitStep::Done(Err(e));
            },
            Ok(_) => {},
        }
        if replies.len() == 1 {
            return GitStep::Run(GitCommand::Status);
        }
        match read_reply(&GitCommand::Status, &replies[1]) {
            Err(e) => {
                return GitStep::Done(Err(e));
            },
            Ok(out) => {
                if trimmed(&chars_of(out)).len() == 0 {
                    return GitStep::Done(Err(WorkspaceError::NothingToCommit));
                }
            },
        }
        let message = owned("ralpher: it").concat(decimal_text(iteration as u64).as_str()).concat(
            " task ",
        ).concat(task_id).concat(" - ").concat(task_title);
        let commit = GitCommand::Commit(message);
        if replies.len() == 2 {
            return GitStep::Run(commit);
        }
        match read_reply(&commit, &replies[2]) {
            Err(e) => {
                return GitStep::Done(Err(e));
            },
            Ok(_) => {},
        }
        if replies.len() == 3 {
            return GitStep::Run(GitCommand::HeadSha);
        }
        match read_reply(&GitCommand::HeadSha, &replies[3]) {
            Err(e) => GitStep::Done(Err(e)),
            Ok(out) => GitStep::Done(Ok(trimmed_text(out))),
        }
    }

    /// Get the diff --name-status since a given commit (or HEAD~1 if none).
    pub fn diff_name_status(&self, since: Option<&str>, replies: &Vec<GitReply>) -> (r: GitStep<
        Vec<FileChange>,
    >)
        ensures
            ({
                let base = match since {
                    Some(s) => s@,
                    None => "HEAD~1"@,
                };
                changes_step(GitCommandView::DiffSince(base), true, replies@, r)
            }),
    {
        let base = match since {
            Some(s) => owned(s),
            None => owned("HEAD~1"),
        };
        WorkspaceManager::read_changes(GitCommand::DiffSince(base), true, replies)
    }

    /// Get unstaged changes (working tree vs index).
    pub fn unstaged_changes(&self, replies: &Vec<GitReply>) -> (r: GitStep<Vec<FileChange>>)
        ensures
            changes_step(GitCommandView::DiffUnstaged, false, replies@, r),
    {
        WorkspaceManager::read_changes(GitCommand::DiffUnstaged, false, replies)
    }

    fn read_changes(command: GitCommand, with_sources: bool, replies: &Vec<GitReply>) -> (r:
        GitStep<Vec<FileChange>>)
        ensures
            changes_step(command@, with_sources, replies@, r),
    {
        if replies.len() == 0 {
            return GitStep::Run(command);
        }
        match read_reply(&command, &replies[0]) {
            Err(e) => GitStep::Done(Err(e)),
            Ok(out) => GitStep::Done(Ok(parse_name_status(out, with_sources))),
        }
    }

    /// Reset the working tree to HEAD, discarding all changes, untracked files
    /// included.
    pub fn reset_hard(&self, replies: &Vec<GitReply>) -> (r: GitStep<()>)
        ensures
            reset_step(replies@, r),
    {
        if replies.len() == 0 {
            return GitStep::Run(GitCommand::ResetHard);
        }
        match read_reply(&GitCommand::ResetHard, &replies[0]) {
            Err(e) => {
                return GitStep::Done(Err(e));
            },
            Ok(_) => {},
        }
        if replies.len() == 1 {
            return GitStep::Run(GitCommand::Clean);
        }
        match read_reply(&GitCommand::Clean, &replies[1]) {
            Err(e) => GitStep::Done(Err(e)),
            Ok(_) => GitStep::Done(Ok(())),
        }
    }

    /// Check if we're in a git repository, by the reply to `GitCommand::GitDir`.
    pub fn is_git_repo(reply: &GitReply) -> (r: bool)
        ensures
            r == (*reply matches GitReply::Ran { success, .. } && success),
    {
        match reply {
            GitReply::NotRun => false,
            GitReply::Ran { success, stdout, stderr } => *success,
        }
    }
}

/// The steps of a checkpoint: stage, see whether anything is to be committed,
/// commit, read the new SHA. The first command that fails ends it.
pub open spec fn checkpoint_step(
    message: Seq<char>,
    replies: Seq<GitReply>,
    r: GitStep<String>,
) -> bool {
    if replies.len() == 0 {
        r.runs(GitCommandView::AddAll)
    } else if reply_error(GitCommandView::AddAll, replies[0]) is Some {
        r.fails(reply_error(GitCommandView::AddAll, replies[0])->0)
    } else if replies.len() == 1 {
        r.runs(GitCommandView::Status)
    } else if reply_error(GitCommandView::Status, replies[1]) is Some {
        r.fails(reply_error(GitCommandView::Status, replies[1])->0)
    } else if trim(output_of(replies[1])).len() == 0 {
        r.fails(WorkspaceErrorView::NothingToCommit)
    } else if replies.len() == 2 {
        r.runs(GitCommandView::Commit(message))
    } else if reply_error(GitCommandView::Commit(message), replies[2]) is Some {
        r.fails(reply_error(GitCommandView::Commit(message), replies[2])->0)
    } else if replies.len() == 3 {
        r.runs(GitCommandView::HeadSha)
    } else if reply_error(GitCommandView::HeadSha, replies[3]) is Some {
        r.fails(reply_error(GitCommandView::HeadSha, replies[3])->0)
    } else {
        r matches GitStep::Done(Ok(s)) && s@ == trim(output_of(replies[3]))
    }
}

/// The steps of a diff: run the command, read its output.
pub open spec fn changes_step(
    command: GitCommandView,
    with_sources: bool,
    replies: Seq<GitReply>,
    r: GitStep<Vec<FileChange>>,
) -> bool {
    if replies.len() == 0 {
        r.runs(command)
    } else if reply_error(command, replies[0]) is Some {
        r.fails(reply_error(command, replies[0])->0)
    } else {
        r matches GitStep::Done(Ok(v)) && views(v@) == changes_of_lines(
            lines(output_of(replies[0])),
            with_sources,
        )
    }
}

/// The steps of a reset: reset, then clean.
pub open spec fn reset_step(replies: Seq<GitReply>, r: GitStep<()>) -> bool {
    if replies.len() == 0 {
        r.runs(GitCommandView::ResetHard)
    } else if reply_error(GitCommandView::ResetHard, replies[0]) is Some {
        r.fails(reply_error(GitCommandView::ResetHard, replies[0])->0)
    } else if replies.len() == 1 {
        r.runs(GitCommandView::Clean)
    } else if reply_error(GitCommandView::Clean, replies[1]) is Some {
        r.fails(reply_error(GitCommandView::Clean, replies[1])->0)
    } else {
        r.succeeds(())
    }
}

/// A checkpoint commits only after everything was staged and something was
/// found to commit.
pub proof fn law_no_empty_commit(message: Seq<char>, replies: Seq<GitReply>, r: GitStep<String>)
    requires
        checkpoint_step(message, replies, r),
        r matches GitStep::Run(c) && c@ is Commit || r matches GitStep::Done(Ok(_)),
    ensures
        replies.len() >= 2,
        reply_error(GitCommandView::AddAll, replies[0]) is None,
        reply_error(GitCommandView::Status, replies[1]) is None,
        trim(output_of(replies[1])).len() > 0,
{
}

// ------------------------------------------------------ what git's replies mean

/// A command has failed exactly where git could not be run or says so, and the
/// error names the command and what git wrote.
pub proof fn law_replies_are_read(c: GitCommandView, reply: GitReply)
    ensures
        reply_error(c, reply) is None <==> (reply matches GitReply::Ran { success, .. } && success),
        reply matches GitReply::Ran { success, stdout, stderr } ==> output_of(reply) == stdout@,
        reply matches GitReply::Ran { success, stdout, stderr } ==> (!success ==> reply_error(
            c,
            reply,
        ) == Some(WorkspaceErrorView::Failed { command: git_args(c)[0], stderr: stderr@ })),
        reply is NotRun ==> reply_error(c, reply) == Some(
            WorkspaceErrorView::NotRun { command: git_args(c)[0] },
        ),
{
}

/// A line of a letter, a tab and a path tells the change of that path.
pub proof fn law_diff_line_gives_path(letter: char, path: Seq<char>, with_sources: bool)
    requires
        letter != '\t',
        !path.contains('\t'),
        !(with_sources && (letter == 'R' || letter == 'C')),
    ensures
        ({
            let change = change_of_line(seq![letter, '\t'] + path, with_sources);
            &&& change.path == path
            &&& change.old_path is None
            &&& letter == 'A' <==> change.change_type == ChangeType::Added
            &&& letter == 'M' <==> change.change_type == ChangeType::Modified
            &&& letter == 'D' <==> change.change_type == ChangeType::Deleted
            &&& letter == 'R' <==> change.change_type == ChangeType::Renamed
            &&& letter == 'C' <==> change.change_type == ChangeType::Copied
        }),
{
    let s = seq![letter];
    let line = seq![letter, '\t'] + path;
    assert(line =~= s + seq!['\t'] + path);
    crate::search::lemma_split_append(s, '\t', path);
    assert forall|k: int| 0 <= k < s.len() implies #[trigger] s[k] != '\t' by {}
    crate::search::lemma_split_whole(s, '\t');
    assert(split(line, '\t') =~= seq![s, path]);
}

/// A line of a rename or a copy tells both paths, the former first.
pub proof fn law_rename_line_gives_both_paths(
    status: Seq<char>,
    old: Seq<char>,
    new: Seq<char>,
)
    requires
        status.len() > 0,
        status[0] == 'R' || status[0] == 'C',
        !status.contains('\t'),
        !old.contains('\t'),
        !new.contains('\t'),
    ensures
        ({
            let change = change_of_line(status + seq!['\t'] + old + seq!['\t'] + new, true);
            &&& change.path == new
            &&& change.old_path == Some(old)
            &&& status[0] == 'R' <==> change.change_type == ChangeType::Renamed
            &&& status[0] == 'C' <==> change.change_type == ChangeType::Copied
        }),
{
    let line = status + seq!['\t'] + old + seq!['\t'] + new;
    crate::search::lemma_split_append(status + seq!['\t'] + old, '\t', new);
    crate::search::lemma_split_append(status, '\t', old);
    assert forall|k: int| 0 <= k < status.len() implies #[trigger] status[k] != '\t' by {
        if status[k] == '\t' {
            assert(status.contains('\t'));
        }
    }
    crate::search::lemma_split_whole(status, '\t');
    assert(split(line, '\t') =~= seq![status, old, new]);
}

/// Each line but an empty one tells one change, in order.
pub proof fn law_diff_lines_give_changes(
    ls: Seq<Seq<char>>,
    line: Seq<char>,
    with_sources: bool,
)
    ensures
        line.len() > 0 ==> changes_of_lines(ls.push(line), with_sources) == changes_of_lines(
            ls,
            with_sources,
        ).push(change_of_line(line, with_sources)),
        line.len() == 0 ==> changes_of_lines(ls.push(line), with_sources) == changes_of_lines(
            ls,
            with_sources,
        ),
        changes_of_lines(Seq::empty(), with_sources).len() == 0,
{
    assert(ls.push(line).drop_last() =~= ls);
}

/// What git is asked to do: the tree is read, staged, committed and restored by
/// these commands and no others.
pub proof fn law_git_commands(text: Seq<char>)
    ensures
        git_args(GitCommandView::Status) == seq!["status"@, "--porcelain"@],
        git_args(GitCommandView::AddAll) == seq!["add"@, "-A"@],
        git_args(GitCommandView::Commit(text)) == seq!["commit"@, "-m"@, text],
        git_args(GitCommandView::CheckoutNew(text)) == seq!["checkout"@, "-b"@, text],
        git_args(GitCommandView::HeadSha) == seq!["rev-parse"@, "--short"@, "HEAD"@],
        git_args(GitCommandView::CurrentBranch) == seq!["rev-parse"@, "--abbrev-ref"@, "HEAD"@],
        git_args(GitCommandView::ResetHard) == seq!["reset"@, "--hard"@, "HEAD"@],
        git_args(GitCommandView::Clean) == seq!["clean"@, "-fd"@],
        git_args(GitCommandView::DiffSince(text)) == seq!["diff"@, "--name-status"@, text, "HEAD"@],
        git_args(GitCommandView::DiffUnstaged) == seq!["diff"@, "--name-status"@],
        git_args(GitCommandView::GitDir) == seq!["rev-parse"@, "--git-dir"@],
{
}

/// Runs have branches of their own, and their checkpoints tell them apart.
pub proof fn law_names_tell_apart(
    a: Seq<char>,
    b: Seq<char>,
    task: Seq<char>,
    title: Seq<char>,
    iteration: u32,
)
    ensures
        branch_name(a) == branch_name(b) ==> a == b,
        branch_name(a).take(8) == "ralpher/"@,
        checkpoint_message(iteration, task, title) == "ralpher: it"@ + decimal(iteration as nat)
            + " task "@ + task + " - "@ + title,
{
    reveal_strlit("ralpher/");
    assert(branch_name(a).skip(8) =~= a);
    assert(branch_name(b).skip(8) =~= b);
    assert(branch_name(a).take(8) =~= "ralpher/"@);
}

} // verus!
