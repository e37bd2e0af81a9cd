//! What the agent is told and how its execution is logged.

use vstd::prelude::*;

use crate::config::{AgentConfig, AgentView};
use crate::number::{decimal, decimal_text, signed_decimal, signed_text};
use crate::run::{RunError, RunErrorView};
use crate::search::{contains, ends_with, starts_with};
use crate::task::{Task, TaskView};
use crate::text::{lemma_views_push, opt_view, owned, views};

verus! {

/// The list of acceptance criteria, one to a line.
pub open spec fn criteria_lines(criteria: Seq<Seq<char>>) -> Seq<char>
    decreases criteria.len(),
{
    if criteria.len() == 0 {
        "**Acceptance Criteria:**\n"@
    } else {
        criteria_lines(criteria.drop_last()) + "- "@ + criteria.last() + "\n"@
    }
}

/// The section with the acceptance criteria, where there are any.
pub open spec fn criteria_section(criteria: Seq<Seq<char>>) -> Seq<char> {
    if criteria.len() == 0 {
        Seq::empty()
    } else {
        criteria_lines(criteria) + "\n"@
    }
}

/// The section with the notes, where there are any.
pub open spec fn notes_section(notes: Option<Seq<char>>) -> Seq<char> {
    match notes {
        Some(n) => "**Notes:** "@ + n + "\n\n"@,
        None => Seq::empty(),
    }
}

/// The instructions, in which the agent is asked to read the file with the
/// project's conventions and to report on the given task.
pub open spec fn instructions(task_id: Seq<char>, guide: Seq<char>) -> Seq<char> {
    "# Instructions\n\n"@ + "1. Read "@ + guide + " to understand project conventions.\n"@
        + "2. Implement the task above following the acceptance criteria.\n"@
        + "3. Run all checks: `cargo fmt && cargo check && cargo clippy -- -D warnings && cargo test`\n"@
        + "4. When the task is complete, write a file `.ralpher/task_update.json` with:\n"@
        + "   ```json\n"@ + "   {\n"@ + "     \"task_id\": \""@ + task_id + "\",\n"@
        + "     \"new_status\": \"done\",\n"@
        + "     \"notes\": \"Brief description of what was done\"\n"@ + "   }\n"@ + "   ```\n"@
        + "5. If blocked, set new_status to \"blocked\" and explain in notes.\n"@
}

/// The prompt for a task.
pub open spec fn prompt_of(task: TaskView, guide: Seq<char>) -> Seq<char> {
    "# Current Task\n\n"@ + "**Task ID:** "@ + task.id + "\n**Title:** "@ + task.title + "\n\n"@
        + criteria_section(task.acceptance) + notes_section(task.notes) + instructions(
        task.id,
        guide,
    )
}

fn criteria_text(criteria: &Vec<String>) -> (r: String)
    ensures
        r@ == criteria_section(views(criteria@)),
{
    let n = criteria.len();
    if n == 0 {
        return String::new();
    }
    let mut out = owned("**Acceptance Criteria:**\n");
    let ghost cv = views(criteria@);
    assert(cv.take(0).len() == 0);
    for i in 0..n
        invariant
            n == criteria@.len(),
            cv == views(criteria@),
            out@ == criteria_lines(cv.take(i as int)),
    {
        assert(cv.take(i + 1).drop_last() =~= cv.take(i as int));
        assert(cv[i as int] == criteria@[i as int]@);
        out.append("- ");
        out.append(criteria[i].as_str());
        out.append("\n");
    }
    assert(cv.take(n as int) =~= cv);
    out.concat("\n")
}

fn instructions_text(task_id: &str, guide: &str) -> (r: String)
    ensures
        r@ == instructions(task_id@, guide@),
{
    owned("# Instructions\n\n").concat("1. Read ").concat(guide).concat(
        " to understand project conventions.\n",
    ).concat("2. Implement the task above following the acceptance criteria.\n").concat(
        "3. Run all checks: `cargo fmt && cargo check && cargo clippy -- -D warnings && cargo test`\n",
    ).concat(
        "4. When the task is complete, write a file `.ralpher/task_update.json` with:\n",
    ).concat("   ```json\n").concat("   {\n").concat("     \"task_id\": \"").concat(task_id).concat(
        "\",\n",
    ).concat("     \"new_status\": \"done\",\n").concat(
        "     \"notes\": \"Brief description of what was done\"\n",
    ).concat("   }\n").concat("   ```\n").concat(
        "5. If blocked, set new_status to \"blocked\" and explain in notes.\n",
    )
}

/// Compose the prompt for the agent with task context. The guide is the file in
/// which the project tells agents its conventions.
pub fn compose_prompt(task: &Task, guide: &str) -> (r: String)
    ensures
        r@ == prompt_of(task@, guide@),
{
    let notes = match &task.notes {
        Some(n) => owned("**Notes:** ").concat(n.as_str()).concat("\n\n"),
        None => String::new(),
    };
    owned("# Current Task\n\n").concat("**Task ID:** ").concat(task.id.as_str()).concat(
        "\n**Title:** ",
    ).concat(task.title.as_str()).concat("\n\n").concat(
        criteria_text(&task.acceptance).as_str(),
    ).concat(notes.as_str()).concat(instructions_text(task.id.as_str(), guide).as_str())
}

// ------------------------------------------------------------------- execution

/// A list of words as Rust's `Debug` writes it.
pub uninterp spec fn debug_words(words: Seq<Seq<char>>) -> Seq<char>;

/// Formats a list of words with `{:?}`. What std writes for it depends on the
/// words alone; how it quotes and escapes them is not stated.
#[verifier::external_body]
fn debug_text(words: &Vec<String>) -> (r: String)
    ensures
        r@ == debug_words(views(words@)),
{
    format!("{:?}", words)
}

/// How the agent is to be run, and what is logged first.
#[derive(Debug)]
pub struct AgentRequest {
    /// The program to run.
    pub program: String,
    /// Its arguments, of which the last is the prompt.
    pub args: Vec<String>,
    /// The beginning of the log.
    pub log_header: String,
}

/// What a request says.
#[verifier::ext_equal]
pub struct AgentRequestView {
    pub program: Seq<char>,
    pub args: Seq<Seq<char>>,
    pub log_header: Seq<char>,
}

impl View for AgentRequest {
    type V = AgentRequestView;

    open spec fn view(&self) -> AgentRequestView {
        AgentRequestView {
            program: self.program@,
            args: views(self.args@),
            log_header: self.log_header@,
        }
    }
}

/// The beginning of the log of an iteration.
pub open spec fn log_header(
    iteration: u32,
    task: TaskView,
    guide: Seq<char>,
    cmd: Seq<char>,
) -> Seq<char> {
    "=== ralpher agent execution ===\nIteration: "@ + decimal(iteration as nat) + "\nTask: "@
        + task.id + " - "@ + task.title + "\nCommand: "@ + cmd + "\n\n=== Prompt ===\n"@
        + prompt_of(task, guide) + "\n\n"@
}

/// How the agent is to be run for a task: the configured command, with the
/// prompt behind `-p`.
pub open spec fn agent_request(
    agent: Option<AgentView>,
    iteration: u32,
    task: TaskView,
    guide: Seq<char>,
) -> Result<AgentRequestView, RunErrorView> {
    match agent {
        None => Err(RunErrorView::NoAgent),
        Some(a) => if a.cmd.len() == 0 {
            Err(RunErrorView::EmptyCommand)
        } else {
            Ok(
                AgentRequestView {
                    program: a.cmd[0],
                    args: a.cmd.skip(1) + seq!["-p"@, prompt_of(task, guide)],
                    log_header: log_header(iteration, task, guide, debug_words(a.cmd)),
                },
            )
        },
    }
}

/// How the agent is to be run for a task.
pub fn request_agent(
    agent: &Option<AgentConfig>,
    iteration: u32,
    task: &Task,
    guide: &str,
) -> (r: Result<AgentRequest, RunError>)
    ensures
        match r {
            Ok(q) => agent_request(opt_view(*agent), iteration, task@, guide@) == Ok::<
                AgentRequestView,
                RunErrorView,
            >(q@),
            Err(e) => agent_request(opt_view(*agent), iteration, task@, guide@) == Err::<
                AgentRequestView,
                RunErrorView,
            >(e@),
        },
{
    let a = match agent {
        Some(a) => a,
        None => {
            return Err(RunError::NoAgent);
        },
    };
    let n = a.cmd.len();
    if n == 0 {
        return Err(RunError::EmptyCommand);
    }
    let header = request_header(iteration, task, guide, &a.cmd);
    let mut args: Vec<String> = Vec::new();
    let ghost cv = views(a.cmd@);
    for i in 1..n
        invariant
            n == a.cmd@.len(),
            n >= 1,
            cv == views(a.cmd@),
            views(args@) == cv.subrange(1, i as int),
    {
        broadcast use lemma_views_push;

        assert(cv[i as int] == a.cmd@[i as int]@);
        args.push(a.cmd[i].clone());
        assert(views(args@) =~= cv.subrange(1, i + 1));
    }
    let prompt = compose_prompt(task, guide);
    proof {
        lemma_views_push(args@, prompt);
    }
    args.push(owned("-p"));
    args.push(prompt);
    assert(views(args@) =~= cv.skip(1) + seq!["-p"@, prompt_of(task@, guide@)]);
    assert(cv[0] == a.cmd@[0]@);
    Ok(AgentRequest { program: a.cmd[0].clone(), args, log_header: header })
}

fn request_header(iteration: u32, task: &Task, guide: &str, cmd: &Vec<String>) -> (r: String)
    ensures
        r@ == log_header(iteration, task@, guide@, debug_words(views(cmd@))),
{
    owned("=== ralpher agent execution ===\nIteration: ").concat(
        decimal_text(iteration as u64).as_str(),
    ).concat("\nTask: ").concat(task.id.as_str()).concat(" - ").concat(task.title.as_str()).concat(
        "\nCommand: ",
    ).concat(debug_text(cmd).as_str()).concat("\n\n=== Prompt ===\n").concat(
        compose_prompt(task, guide).as_str(),
    ).concat("\n\n")
}

/// A piece of the agent's log: a text, or what the agent wrote.
#[derive(Debug)]
pub enum LogPart {
    Text(String),
    Stdout,
    Stderr,
}

/// What a piece of the agent's log says.
#[verifier::ext_equal]
pub enum LogPartView {
    Text(Seq<char>),
    Stdout,
    Stderr,
}

impl View for LogPart {
    type V = LogPartView;

    open spec fn view(&self) -> LogPartView {
        match *self {
            LogPart::Text(s) => LogPartView::Text(s@),
            LogPart::Stdout => LogPartView::Stdout,
            LogPart::Stderr => LogPartView::Stderr,
        }
    }
}

/// A section of the log with one of the agent's outputs.
pub open spec fn log_section(title: Seq<char>, part: LogPartView) -> Seq<LogPartView> {
    seq![LogPartView::Text(title), part, LogPartView::Text("\n"@)]
}

/// The rest of the log: the outputs that are not empty, and the exit code.
pub open spec fn log_tail(has_stdout: bool, has_stderr: bool, exit_code: i32) -> Seq<LogPartView> {
    (if has_stdout {
        log_section("=== stdout ===\n"@, LogPartView::Stdout)
    } else {
        Seq::empty()
    }) + (if has_stderr {
        log_section("=== stderr ===\n"@, LogPartView::Stderr)
    } else {
        Seq::empty()
    }) + seq![
        LogPartView::Text("=== exit code: "@ + signed_decimal(exit_code as int) + " ===\n"@),
    ]
}

fn push_section(parts: &mut Vec<LogPart>, title: &str, part: LogPart)
    ensures
        views(final(parts)@) == views(old(parts)@) + log_section(title@, part@),
{
    broadcast use lemma_views_push;

    parts.push(LogPart::Text(owned(title)));
    parts.push(part);
    parts.push(LogPart::Text(owned("\n")));
    assert(views(parts@) =~= views(old(parts)@) + log_section(title@, part@));
}

/// The rest of the agent's log once it has ended.
pub fn agent_log_tail(has_stdout: bool, has_stderr: bool, exit_code: i32) -> (r: Vec<LogPart>)
    ensures
        views(r@) == log_tail(has_stdout, has_stderr, exit_code),
{
    broadcast use lemma_views_push;

    let mut parts: Vec<LogPart> = Vec::new();
    if has_stdout {
        push_section(&mut parts, "=== stdout ===\n", LogPart::Stdout);
    }
    if has_stderr {
        push_section(&mut parts, "=== stderr ===\n", LogPart::Stderr);
    }
    let code = owned("=== exit code: ").concat(signed_text(exit_code as i64).as_str()).concat(
        " ===\n",
    );
    parts.push(LogPart::Text(code));
    assert(views(parts@) =~= log_tail(has_stdout, has_stderr, exit_code));
    parts
}

// ------------------------------------------------------- what the agent is told

/// The prompt begins with the task's identifier and title.
pub proof fn law_prompt_begins_with_task(task: TaskView, guide: Seq<char>)
    ensures
        ({
            let head = "# Current Task\n\n"@ + "**Task ID:** "@ + task.id + "\n**Title:** "@
                + task.title + "\n\n"@;
            starts_with(prompt_of(task, guide), head)
        }),
{
    let head = "# Current Task\n\n"@ + "**Task ID:** "@ + task.id + "\n**Title:** "@ + task.title
        + "\n\n"@;
    assert(prompt_of(task, guide).subrange(0, head.len() as int) =~= head);
}

/// The prompt ends with the instructions: to read the guide, to do the task, to
/// run the checks, and to report on the task under its identifier.
pub proof fn law_prompt_ends_with_instructions(task: TaskView, guide: Seq<char>)
    ensures
        ends_with(
            prompt_of(task, guide),
            "# Instructions\n\n"@ + "1. Read "@ + guide
                + " to understand project conventions.\n"@
                + "2. Implement the task above following the acceptance criteria.\n"@
                + "3. Run all checks: `cargo fmt && cargo check && cargo clippy -- -D warnings && cargo test`\n"@
                + "4. When the task is complete, write a file `.ralpher/task_update.json` with:\n"@
                + "   ```json\n"@ + "   {\n"@ + "     \"task_id\": \""@ + task.id + "\",\n"@
                + "     \"new_status\": \"done\",\n"@
                + "     \"notes\": \"Brief description of what was done\"\n"@ + "   }\n"@
                + "   ```\n"@
                + "5. If blocked, set new_status to \"blocked\" and explain in notes.\n"@,
        ),
{
    let p = prompt_of(task, guide);
    let tail = instructions(task.id, guide);
    assert(p.subrange(p.len() - tail.len(), p.len() as int) =~= tail);
}

/// Between the two stand the criteria, each on a line behind a dash and in order,
/// and the notes, where there are any.
pub proof fn law_prompt_lists_criteria(criteria: Seq<Seq<char>>, c: Seq<char>, notes: Seq<char>)
    ensures
        criteria_section(Seq::empty()).len() == 0,
        criteria_section(seq![c]) == "**Acceptance Criteria:**\n"@ + "- "@ + c + "\n"@ + "\n"@,
        criteria.len() > 0 ==> criteria_section(criteria.push(c)) == criteria_section(
            criteria,
        ).drop_last() + "- "@ + c + "\n"@ + "\n"@,
        notes_section(None).len() == 0,
        notes_section(Some(notes)) == "**Notes:** "@ + notes + "\n\n"@,
{
    reveal_strlit("\n");
    assert(seq![c].drop_last() =~= Seq::<Seq<char>>::empty());
    assert(criteria.push(c).drop_last() =~= criteria);
    assert(criteria_lines(seq![c]) == criteria_lines(Seq::empty()) + "- "@ + c + "\n"@);
    if criteria.len() > 0 {
        assert(criteria_section(criteria).drop_last() =~= criteria_lines(criteria));
    }
}

/// The prompt is made of these parts and nothing else.
pub proof fn law_prompt_has_four_parts(task: TaskView, guide: Seq<char>)
    ensures
        prompt_of(task, guide).len() == ("# Current Task\n\n"@ + "**Task ID:** "@ + task.id
            + "\n**Title:** "@ + task.title + "\n\n"@).len() + criteria_section(
            task.acceptance,
        ).len() + notes_section(task.notes).len() + instructions(task.id, guide).len(),
        contains(prompt_of(task, guide), criteria_section(task.acceptance) + notes_section(task.notes)),
{
    let head = "# Current Task\n\n"@ + "**Task ID:** "@ + task.id + "\n**Title:** "@ + task.title
        + "\n\n"@;
    let body = criteria_section(task.acceptance) + notes_section(task.notes);
    let p = prompt_of(task, guide);
    let n = head.len() as int;
    assert(p.subrange(n, n + body.len()) =~= body);
    assert(crate::search::occurs_at(p, body, n));
}

/// The agent's log begins with the iteration, the task, the command and the
/// prompt, and ends with what the agent wrote and its exit code.
pub proof fn law_agent_log(
    iteration: u32,
    task: TaskView,
    guide: Seq<char>,
    cmd: Seq<char>,
    has_stdout: bool,
    has_stderr: bool,
    code: i32,
)
    ensures
        log_header(iteration, task, guide, cmd)
            == "=== ralpher agent execution ===\nIteration: "@ + decimal(iteration as nat)
            + "\nTask: "@ + task.id + " - "@ + task.title + "\nCommand: "@ + cmd
            + "\n\n=== Prompt ===\n"@ + prompt_of(task, guide) + "\n\n"@,
        log_tail(has_stdout, has_stderr, code).contains(LogPartView::Stdout) <==> has_stdout,
        log_tail(has_stdout, has_stderr, code).contains(LogPartView::Stderr) <==> has_stderr,
        log_tail(has_stdout, has_stderr, code).last() == LogPartView::Text(
            "=== exit code: "@ + signed_decimal(code as int) + " ===\n"@,
        ),
{
    let tail = log_tail(has_stdout, has_stderr, code);
    if has_stdout {
        assert(tail[1] == LogPartView::Stdout);
    }
    if has_stderr {
        let i = if has_stdout {
            4int
        } else {
            1int
        };
        assert(tail[i] == LogPartView::Stderr);
    }
}

/// Without an agent, or with one that has no command, nothing can be run.
pub proof fn law_agent_needs_a_command(
    agent: Option<AgentView>,
    iteration: u32,
    task: TaskView,
    guide: Seq<char>,
)
    ensures
        agent is None ==> agent_request(agent, iteration, task, guide) == Err::<
            AgentRequestView,
            _,
        >(RunErrorView::NoAgent),
        agent is Some && agent->0.cmd.len() == 0 ==> agent_request(agent, iteration, task, guide)
            == Err::<AgentRequestView, _>(RunErrorView::EmptyCommand),
        agent is Some && agent->0.cmd.len() > 0 ==> (agent_request(
            agent,
            iteration,
            task,
            guide,
        ) matches Ok(q) && q.log_header == log_header(
            iteration,
            task,
            guide,
            debug_words(agent->0.cmd),
        )),
{
}

} // verus!
