//! Events of a run, with the time at which they occurred.

use vstd::prelude::*;

use crate::number::{decimal, decimal_text, law_decimal_injective};
use crate::search::{lemma_split_append, lemma_split_whole, lines, lines_of, split};
use crate::task::TaskStatus;
use crate::text::{
    chars_of, clone_opt_string, lemma_views_push, opt_view, owned, string_of, trim, trimmed, views,
};

verus! {

/// Unique identifier for a run.
pub type RunId = String;

/// Reads the system clock: the milliseconds that have passed since the Unix
/// epoch, through `std::time::SystemTime::now`. Nothing is claimed of the
/// value, which depends on the machine and the moment of the call.
#[verifier::external_body]
pub(crate) fn now_ms() -> (r: u64) {
    let elapsed = std::time::SystemTime::now().duration_since(std::time::UNIX_EPOCH);
    elapsed.unwrap_or_default().as_millis() as u64
}

/// The identifier of a run that starts `secs` seconds after the Unix epoch.
pub open spec fn run_id(secs: nat) -> Seq<char> {
    "run-"@ + decimal(secs)
}

/// The identifier of a run that starts `secs` seconds after the Unix epoch.
pub fn run_id_at(secs: u64) -> (r: RunId)
    ensures
        r@ == run_id(secs as nat),
{
    let mut s = owned("run-");
    let d = decimal_text(secs);
    s.append(d.as_str());
    s
}

/// Generate a new run ID based on timestamp.
pub fn generate_run_id() -> (r: RunId)
    ensures
        exists|secs: u64| r@ == run_id(secs as nat),
{
    let secs = now_ms() / 1000;
    let r = run_id_at(secs);
    assert(r@ == run_id(secs as nat));
    r
}

/// Runs that start in different seconds have different identifiers.
pub proof fn law_run_ids_differ(a: nat, b: nat)
    requires
        a != b,
    ensures
        run_id(a) != run_id(b),
{
    if run_id(a) == run_id(b) {
        let k = "run-"@.len() as int;
        assert(run_id(a).skip(k) =~= decimal(a));
        assert(run_id(b).skip(k) =~= decimal(b));
        law_decimal_injective(a, b);
    }
}

/// Validator result status.
#[derive(Clone, Copy, Debug, PartialEq, Eq, Structural)]
pub enum ValidatorStatus {
    Pass,
    Fail,
    Skipped,
}

/// Policy violation severity.
#[derive(Clone, Copy, Debug, PartialEq, Eq, Structural)]
pub enum ViolationSeverity {
    Warning,
    Error,
}

/// Events that occur during a ralpher run.
#[derive(Debug, PartialEq)]
pub enum EventKind {
    /// A new run has started.
    RunStarted { run_id: RunId, git_mode: String, task_count: usize },
    /// An iteration has begun.
    IterationStarted { run_id: RunId, iteration: u32, task_id: String },
    /// Agent execution completed.
    AgentCompleted { run_id: RunId, iteration: u32, exit_code: Option<i32> },
    /// A validator has run.
    ValidatorResult {
        run_id: RunId,
        iteration: u32,
        validator: String,
        status: ValidatorStatus,
        message: Option<String>,
    },
    /// A policy violation was detected.
    PolicyViolation {
        run_id: RunId,
        iteration: u32,
        rule: String,
        severity: ViolationSeverity,
        details: String,
    },
    /// Task status has changed.
    TaskStatusChanged {
        run_id: RunId,
        task_id: String,
        old_status: TaskStatus,
        new_status: TaskStatus,
    },
    /// A checkpoint commit was created.
    CheckpointCreated { run_id: RunId, iteration: u32, commit_sha: String },
    /// An iteration has completed.
    IterationCompleted { run_id: RunId, iteration: u32, success: bool },
    /// User requested a pause.
    RunPaused { run_id: RunId },
    /// Run resumed from pause.
    RunResumed { run_id: RunId },
    /// Run was aborted.
    RunAborted { run_id: RunId, reason: String },
    /// Run completed successfully.
    RunCompleted { run_id: RunId, total_iterations: u32, tasks_completed: usize },
}

/// What an event says.
#[verifier::ext_equal]
pub enum EventView {
    RunStarted { run_id: Seq<char>, git_mode: Seq<char>, task_count: nat },
    IterationStarted { run_id: Seq<char>, iteration: u32, task_id: Seq<char> },
    AgentCompleted { run_id: Seq<char>, iteration: u32, exit_code: Option<i32> },
    ValidatorResult {
        run_id: Seq<char>,
        iteration: u32,
        validator: Seq<char>,
        status: ValidatorStatus,
        message: Option<Seq<char>>,
    },
    PolicyViolation {
        run_id: Seq<char>,
        iteration: u32,
        rule: Seq<char>,
        severity: ViolationSeverity,
        details: Seq<char>,
    },
    TaskStatusChanged {
        run_id: Seq<char>,
        task_id: Seq<char>,
        old_status: TaskStatus,
        new_status: TaskStatus,
    },
    CheckpointCreated { run_id: Seq<char>, iteration: u32, commit_sha: Seq<char> },
    IterationCompleted { run_id: Seq<char>, iteration: u32, success: bool },
    RunPaused { run_id: Seq<char> },
    RunResumed { run_id: Seq<char> },
    RunAborted { run_id: Seq<char>, reason: Seq<char> },
    RunCompleted { run_id: Seq<char>, total_iterations: u32, tasks_completed: nat },
}

impl View for EventKind {
    type V = EventView;

    open spec fn view(&self) -> EventView {
        match *self {
            EventKind::RunStarted { run_id, git_mode, task_count } => EventView::RunStarted {
                run_id: run_id@,
                git_mode: git_mode@,
                task_count: task_count as nat,
            },
            EventKind::IterationStarted { run_id, iteration, task_id } =>
            EventView::IterationStarted { run_id: run_id@, iteration, task_id: task_id@ },
            EventKind::AgentCompleted { run_id, iteration, exit_code } =>
            EventView::AgentCompleted { run_id: run_id@, iteration, exit_code },
            EventKind::ValidatorResult { run_id, iteration, validator, status, message } =>
            EventView::ValidatorResult {
                run_id: run_id@,
                iteration,
                validator: validator@,
                status,
                message: opt_view(message),
            },
            EventKind::PolicyViolation { run_id, iteration, rule, severity, details } =>
            EventView::PolicyViolation {
                run_id: run_id@,
                iteration,
                rule: rule@,
                severity,
                details: details@,
            },
            EventKind::TaskStatusChanged { run_id, task_id, old_status, new_status } =>
            EventView::TaskStatusChanged {
                run_id: run_id@,
                task_id: task_id@,
                old_status,
                new_status,
            },
            EventKind::CheckpointCreated { run_id, iteration, commit_sha } =>
            EventView::CheckpointCreated { run_id: run_id@, iteration, commit_sha: commit_sha@ },
            EventKind::IterationCompleted { run_id, iteration, success } =>
            EventView::IterationCompleted { run_id: run_id@, iteration, success },
            EventKind::RunPaused { run_id } => EventView::RunPaused { run_id: run_id@ },
            EventKind::RunResumed { run_id } => EventView::RunResumed { run_id: run_id@ },
            EventKind::RunAborted { run_id, reason } => EventView::RunAborted {
                run_id: run_id@,
                reason: reason@,
            },
            EventKind::RunCompleted { run_id, total_iterations, tasks_completed } =>
            EventView::RunCompleted {
                run_id: run_id@,
                total_iterations,
                tasks_completed: tasks_completed as nat,
            },
        }
    }
}

impl Clone for EventKind {
    fn clone(&self) -> (r: Self)
        ensures
            r@ == self@,
    {
        match self {
            EventKind::RunStarted { run_id, git_mode, task_count } => EventKind::RunStarted {
                run_id: run_id.clone(),
                git_mode: git_mode.clone(),
                task_count: *task_count,
            },
            EventKind::IterationStarted { run_id, iteration, task_id } =>
            EventKind::IterationStarted {
                run_id: run_id.clone(),
                iteration: *iteration,
                task_id: task_id.clone(),
            },
            EventKind::AgentCompleted { run_id, iteration, exit_code } =>
            EventKind::AgentCompleted {
                run_id: run_id.clone(),
                iteration: *iteration,
                exit_code: *exit_code,
            },
            EventKind::ValidatorResult { run_id, iteration, validator, status, message } =>
            EventKind::ValidatorResult {
                run_id: run_id.clone(),
                iteration: *iteration,
                validator: validator.clone(),
                status: *status,
                message: clone_opt_string(message),
            },
            EventKind::PolicyViolation { run_id, iteration, rule, severity, details } =>
            EventKind::PolicyViolation {
                run_id: run_id.clone(),
                iteration: *iteration,
                rule: rule.clone(),
                severity: *severity,
                details: details.clone(),
            },
            EventKind::TaskStatusChanged { run_id, task_id, old_status, new_status } =>
            EventKind::TaskStatusChanged {
                run_id: run_id.clone(),
                task_id: task_id.clone(),
                old_status: *old_status,
                new_status: *new_status,
            },
            EventKind::CheckpointCreated { run_id, iteration, commit_sha } =>
            EventKind::CheckpointCreated {
                run_id: run_id.clone(),
                iteration: *iteration,
                commit_sha: commit_sha.clone(),
            },
            EventKind::IterationCompleted { run_id, iteration, success } =>
            EventKind::IterationCompleted {
                run_id: run_id.clone(),
                iteration: *iteration,
                success: *success,
            },
            EventKind::RunPaused { run_id } => EventKind::RunPaused { run_id: run_id.clone() },
            EventKind::RunResumed { run_id } => EventKind::RunResumed { run_id: run_id.clone() },
            EventKind::RunAborted { run_id, reason } => EventKind::RunAborted {
                run_id: run_id.clone(),
                reason: reason.clone(),
            },
            EventKind::RunCompleted { run_id, total_iterations, tasks_completed } =>
            EventKind::RunCompleted {
                run_id: run_id.clone(),
                total_iterations: *total_iterations,
                tasks_completed: *tasks_completed,
            },
        }
    }
}

/// A timestamped event.
#[derive(Debug)]
pub struct Event {
    /// Unix timestamp in milliseconds.
    pub timestamp_ms: u64,
    /// The event data.
    pub kind: EventKind,
}

/// What a timestamped event says.
#[verifier::ext_equal]
pub struct StampedView {
    pub timestamp_ms: u64,
    pub kind: EventView,
}

impl View for Event {
    type V = StampedView;

    open spec fn view(&self) -> StampedView {
        StampedView { timestamp_ms: self.timestamp_ms, kind: self.kind@ }
    }
}

impl Clone for Event {
    fn clone(&self) -> (r: Self)
        ensures
            r@ == self@,
    {
        Event { timestamp_ms: self.timestamp_ms, kind: self.kind.clone() }
    }
}

impl Event {
    /// Create a new event with the current timestamp.
    pub fn new(kind: EventKind) -> (r: Self)
        ensures
            r.kind == kind,
    {
        Event::with_timestamp(kind, now_ms())
    }

    /// Create an event with a specific timestamp.
    pub fn with_timestamp(kind: EventKind, timestamp_ms: u64) -> (r: Self)
        ensures
            r.kind == kind,
            r.timestamp_ms == timestamp_ms,
    {
        Event { timestamp_ms, kind }
    }
}

// --------------------------------------------------------------- the event log

/// A line of the event log that holds an event, with its number in the file.
#[derive(Debug)]
pub struct LogLine {
    pub number: usize,
    pub text: String,
}

/// What such a line says.
#[verifier::ext_equal]
pub struct LogLineView {
    pub number: nat,
    pub text: Seq<char>,
}

impl View for LogLine {
    type V = LogLineView;

    open spec fn view(&self) -> LogLineView {
        LogLineView { number: self.number as nat, text: self.text@ }
    }
}

/// The lines that hold more than whitespace, numbered from one.
pub open spec fn filled_log_lines(ls: Seq<Seq<char>>) -> Seq<LogLineView>
    decreases ls.len(),
{
    if ls.len() == 0 {
        Seq::empty()
    } else {
        let front = filled_log_lines(ls.drop_last());
        if trim(ls.last()).len() > 0 {
            front.push(LogLineView { number: ls.len(), text: ls.last() })
        } else {
            front
        }
    }
}

/// Whether a text consists of whole lines.
pub open spec fn is_whole_lines(s: Seq<char>) -> bool {
    s.len() == 0 || s.last() == '\n'
}

/// A record as it stands in the event log.
pub open spec fn framed(record: Seq<char>) -> Seq<char> {
    record + "\n"@
}

/// What is emitted to the event log is read back from it, as its last line.
pub proof fn law_emitted_is_read_back(log: Seq<char>, record: Seq<char>)
    requires
        is_whole_lines(log),
        !record.contains('\n'),
        record.len() > 0,
        record.last() != '\r',
        trim(record).len() > 0,
    ensures
        is_whole_lines(log + framed(record)),
        filled_log_lines(lines(log + framed(record))) == filled_log_lines(lines(log)).push(
            LogLineView { number: (lines(log).len() + 1) as nat, text: record },
        ),
{
    reveal_strlit("\n");
    assert("\n"@ =~= seq!['\n']);
    lemma_lines_append(log, record);
    let after = lines(log + framed(record));
    assert(after.drop_last() =~= lines(log));
}

proof fn lemma_lines_append(log: Seq<char>, record: Seq<char>)
    requires
        is_whole_lines(log),
        !record.contains('\n'),
        record.len() > 0,
        record.last() != '\r',
    ensures
        lines(log + (record + seq!['\n'])) == lines(log).push(record),
{
    let e = Seq::<char>::empty();
    let whole = log + (record + seq!['\n']);
    if log.len() == 0 {
        assert forall|k: int| 0 <= k < record.len() implies #[trigger] record[k] != '\n' by {
            if record[k] == '\n' {
                assert(record.contains('\n'));
            }
        }
        lemma_split_whole(record, '\n');
        lemma_split_append(record, '\n', e);
        assert(whole =~= record + seq!['\n'] + e);
        assert(log =~= e);
        assert(split(e, '\n') =~= seq![e]);
        assert(lines(log) =~= Seq::<Seq<char>>::empty());
        assert(split(whole, '\n') =~= seq![record, e]);
        assert(lines(whole) =~= seq![record]);
        assert(lines(log).push(record) =~= seq![record]);
    } else {
        let front = log.drop_last();
        assert(log =~= front + seq!['\n'] + e);
        lemma_split_append(front, '\n', e);
        lemma_split_append(front, '\n', record);
        lemma_split_append(front + seq!['\n'] + record, '\n', e);
        assert(whole =~= front + seq!['\n'] + record + seq!['\n'] + e);
        let parts = split(front, '\n');
        assert(split(log, '\n') == parts.push(e));
        assert(split(whole, '\n') == parts.push(record).push(e));
        assert(lines(whole) =~= lines(log).push(record));
    }
}

/// Append-only event log, one event to a line.
#[derive(Debug)]
pub struct EventLog {
    pub path: String,
}

impl EventLog {
    /// The event log at the given path.
    pub fn open(path: &str) -> (r: Self)
        ensures
            r.path@ == path@,
    {
        EventLog { path: owned(path) }
    }

    /// What is appended to the log for an event that was serialized.
    pub fn emit(&self, record: &str) -> (r: String)
        ensures
            r@ == framed(record@),
    {
        owned(record).concat("\n")
    }

    /// The event of a kind, with automatic timestamping.
    pub fn emit_now(&self, kind: EventKind) -> (r: Event)
        ensures
            r.kind == kind,
    {
        Event::new(kind)
    }

    /// The lines of the log that hold events. A log that does not exist holds
    /// none.
    pub fn read_all(content: Option<&str>) -> (r: Vec<LogLine>)
        ensures
            views(r@) == match content {
                Some(text) => filled_log_lines(lines(text@)),
                None => Seq::empty(),
            },
    {
        let mut out: Vec<LogLine> = Vec::new();
        assert(views(out@) =~= Seq::<LogLineView>::empty());
        let text = match content {
            Some(text) => text,
            None => {
                return out;
            },
        };
        let ls = lines_of(&chars_of(text));
        let n = ls.len();
        let ghost lv = lines(text@);
        for i in 0..n
            invariant
                n == ls@.len(),
                lv == views(ls@),
                views(out@) == filled_log_lines(lv.take(i as int)),
        {
            broadcast use lemma_views_push;

            assert(lv.take(i + 1).drop_last() =~= lv.take(i as int));
            assert(lv[i as int] == ls@[i as int]@);
            if trimmed(&ls[i]).len() > 0 {
                out.push(LogLine { number: i + 1, text: string_of(&ls[i]) });
            }
        }
        assert(lv.take(n as int) =~= lv);
        out
    }

    /// The message for a line that holds no event.
    pub fn parse_error(line: &LogLine) -> (r: String)
        ensures
            r@ == "Failed to parse event on line "@ + decimal(line.number as nat) + ": "@
                + line.text@,
    {
        owned("Failed to parse event on line ").concat(
            decimal_text(line.number as u64).as_str(),
        ).concat(": ").concat(line.text.as_str())
    }

    /// Get the path to the event log file.
    pub fn path(&self) -> (r: &str)
        ensures
            r@ == self.path@,
    {
        self.path.as_str()
    }
}

/// A line of the log is read unless it is blank, and keeps its number among all
/// lines.
pub proof fn law_log_lines_are_numbered(ls: Seq<Seq<char>>, line: Seq<char>)
    ensures
        trim(line).len() > 0 ==> filled_log_lines(ls.push(line)) == filled_log_lines(ls).push(
            LogLineView { number: ls.len() + 1, text: line },
        ),
        trim(line).len() == 0 ==> filled_log_lines(ls.push(line)) == filled_log_lines(ls),
        filled_log_lines(Seq::empty()).len() == 0,
{
    assert(ls.push(line).drop_last() =~= ls);
}

/// A run is named by the second of its start.
pub proof fn law_run_id_tells_time(secs: nat)
    ensures
        run_id(secs) == "run-"@ + decimal(secs),
        run_id(secs).take(4) == "run-"@,
{
    reveal_strlit("run-");
    assert(run_id(secs).take(4) =~= "run-"@);
}

} // verus!
