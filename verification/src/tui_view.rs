//! What the terminal interface shows.

use vstd::prelude::*;

use crate::config::GitMode;
use crate::number::{decimal, decimal_text};
use crate::run::RunState;
use crate::screen::{
    at_most, bold, centered, fg, line, plain, reversed, shorter, span, text_line, underlined, Area,
    Color, Line, Panel, PanelView, Popup, PopupView, Span, SpanView, Style,
};
use crate::search::{begins, contains, ends_with, ends, holds, lines, lines_of, starts_with};
use crate::task::{Task, TaskStatus, TaskView};
use crate::text::{
    chars_of, has_content, lemma_views_push, opt_view, owned, same_text, string_of, trim,
    trimmed_text, views,
};
use crate::tui::{
    clock_text, elapsed_since, App, AppView, DetectedView, EditMode, EditModeView, LogSource,
    SetupStep, SetupView,
};
use crate::tui_input::{is_active, shown_state};
use crate::workspace::{change_letter, FileChange, FileChangeView};

verus! {

// --------------------------------------------------------------- the setup wizard

/// The name of a step.
pub open spec fn step_name(step: SetupStep) -> Seq<char> {
    match step {
        SetupStep::Welcome => "Welcome"@,
        SetupStep::AgentConfig => "Agent Configuration"@,
        SetupStep::GitMode => "Git Mode"@,
        SetupStep::Archon => "Archon Integration"@,
        SetupStep::Tasks => "Tasks"@,
        SetupStep::Review => "Review & Save"@,
    }
}

/// The number of a step.
pub open spec fn step_number(step: SetupStep) -> nat {
    match step {
        SetupStep::Welcome => 1,
        SetupStep::AgentConfig => 2,
        SetupStep::GitMode => 3,
        SetupStep::Archon => 4,
        SetupStep::Tasks => 5,
        SetupStep::Review => 6,
    }
}

/// The header of the wizard.
pub open spec fn setup_header(step: SetupStep) -> Seq<SpanView> {
    seq![
        span(" ralpher setup "@, bold(fg(Color::Cyan))),
        span(" - "@, plain()),
        span(
            "Step "@ + decimal(step_number(step)) + "/6: "@ + step_name(step),
            fg(Color::Yellow),
        ),
    ]
}

/// The footer of the wizard.
pub open spec fn setup_footer(step: SetupStep, has_prd: bool) -> Seq<char> {
    match step {
        SetupStep::Welcome => " Enter: Continue  |  q: Quit "@,
        SetupStep::AgentConfig => " Enter: Continue  |  Backspace: Back  |  q: Quit "@,
        SetupStep::GitMode =>
        " Tab: Toggle  |  Enter: Continue  |  Backspace: Back  |  q: Quit "@,
        SetupStep::Archon =>
        " Tab: Next  |  Space: Toggle  |  Enter: Continue  |  Backspace: Back  |  q: Quit "@,
        SetupStep::Tasks => if has_prd {
            " n: New  |  i: Re-import  |  c: Clear  |  Enter: Continue  |  Backspace: Back  |  q: Quit "@
        } else {
            " n: New Task  |  Enter: Continue  |  Backspace: Back  |  q: Quit "@
        },
        SetupStep::Review => " Enter: Save & Start  |  Backspace: Back  |  q: Quit "@,
    }
}

/// The first screen.
pub open spec fn welcome_lines() -> Seq<Seq<SpanView>> {
    seq![
        text_line(""@),
        line("Welcome to ralpher!"@, bold(fg(Color::Green))),
        text_line(""@),
        text_line("No ralpher.toml configuration found in this directory."@),
        text_line("This wizard will help you set up ralpher for your project."@),
        text_line(""@),
        text_line("ralpher will:"@),
        text_line("  - Run an AI agent in iterative loops"@),
        text_line("  - Track task completion"@),
        text_line("  - Checkpoint progress via git"@),
        text_line(""@),
        line("Press Enter to continue..."@, fg(Color::Yellow)),
    ]
}

/// The screen for the agent's command.
pub open spec fn agent_lines(cmd: Seq<char>, default_cmd: Seq<char>) -> Seq<Seq<SpanView>> {
    seq![
        text_line(""@),
        text_line("Enter the command to run your AI agent:"@),
        text_line(""@),
        line("> "@ + cmd + "_"@, fg(Color::Cyan)),
        text_line(""@),
        line("Examples:"@, fg(Color::DarkGray)),
        line("  "@ + default_cmd, fg(Color::DarkGray)),
        line("  aider --message"@, fg(Color::DarkGray)),
        line("  codex run"@, fg(Color::DarkGray)),
    ]
}

/// The style of a choice.
pub open spec fn choice_style(chosen: bool, color: Color) -> Style {
    if chosen {
        reversed(bold(fg(color)))
    } else {
        fg(Color::DarkGray)
    }
}

/// The screen for the git mode.
pub open spec fn git_mode_lines(mode: GitMode) -> Seq<Seq<SpanView>> {
    seq![
        text_line(""@),
        text_line("Select git mode for checkpointing:"@),
        text_line(""@),
        seq![
            span("  "@, plain()),
            span(" Branch "@, choice_style(mode == GitMode::Branch, Color::Green)),
            span("  Create a dedicated branch for the run (safe default)"@, plain()),
        ],
        text_line(""@),
        seq![
            span("  "@, plain()),
            span(" Trunk  "@, choice_style(mode == GitMode::Trunk, Color::Yellow)),
            span("  Operate directly on current branch (commits directly)"@, plain()),
        ],
        text_line(""@),
        line("Press Tab to toggle selection"@, fg(Color::Yellow)),
    ]
}

/// The style of a field.
pub open spec fn field_style(focused: bool) -> Style {
    if focused {
        bold(fg(Color::Cyan))
    } else {
        plain()
    }
}

/// A box that is ticked or not.
pub open spec fn checkbox(ticked: bool) -> Seq<char> {
    if ticked {
        "[x]"@
    } else {
        "[ ]"@
    }
}

/// The project as its field shows it.
pub open spec fn project_text(input: Seq<char>, focused: bool) -> Seq<char> {
    if focused {
        input + "_"@
    } else if input.len() == 0 {
        "(optional)"@
    } else {
        input
    }
}

/// The screen for the Archon integration.
pub open spec fn archon_lines(s: SetupView) -> Seq<Seq<SpanView>> {
    let f = s.focused_field;
    seq![
        text_line(""@),
        text_line("Configure Archon MCP integration (optional):"@),
        text_line(""@),
        line(
            "Archon is an MCP server for knowledge management and task tracking."@,
            fg(Color::DarkGray),
        ),
        line(
            "If enabled, ralpher will instruct the AI to use Archon for RAG queries."@,
            fg(Color::DarkGray),
        ),
        text_line(""@),
        seq![
            span("  "@, plain()),
            span(checkbox(s.archon.enabled) + " Enable Archon"@, field_style(f == 0)),
        ],
        text_line(""@),
        seq![
            span("  "@, plain()),
            span("Project ID: "@, field_style(f == 1)),
            span(project_text(s.archon_project_id_input, f == 1), field_style(f == 1)),
        ],
        text_line(""@),
        seq![
            span("  "@, plain()),
            span(checkbox(s.archon.use_rag) + " Use Archon RAG for context"@, field_style(f == 2)),
        ],
        text_line(""@),
        line("Tab: Next field  |  Space: Toggle  |  Enter: Continue"@, fg(Color::Yellow)),
    ]
}

/// Whether any product document was detected.
pub open spec fn has_docs(d: DetectedView) -> bool {
    d.prd is Some || d.mission is Some || d.tech is Some
}

/// What follows the title of an imported task: how many criteria it has.
pub open spec fn criteria_suffix(count: nat) -> Seq<char> {
    if count > 0 {
        " ("@ + decimal(count) + " criteria)"@
    } else {
        Seq::empty()
    }
}

/// The imported tasks, numbered from one.
pub open spec fn imported_lines(ts: Seq<TaskView>) -> Seq<Seq<SpanView>>
    decreases ts.len(),
{
    if ts.len() == 0 {
        Seq::empty()
    } else {
        let t = ts.last();
        imported_lines(ts.drop_last()).push(
            seq![
                span("  "@ + decimal(ts.len()) + ". "@, fg(Color::Cyan)),
                span(t.title, plain()),
                span(criteria_suffix(t.acceptance.len()), fg(Color::DarkGray)),
            ],
        )
    }
}

/// The tasks that were added by hand, numbered from one.
pub open spec fn numbered_lines(ts: Seq<TaskView>) -> Seq<Seq<SpanView>>
    decreases ts.len(),
{
    if ts.len() == 0 {
        Seq::empty()
    } else {
        numbered_lines(ts.drop_last()).push(
            text_line("  "@ + decimal(ts.len()) + ". "@ + ts.last().title),
        )
    }
}

/// What can be done where there are documents but no tasks.
pub open spec fn options_lines(intro: Seq<SpanView>, source: Seq<char>) -> Seq<Seq<SpanView>> {
    seq![
        intro,
        text_line(""@),
        line("  Options:"@, fg(Color::Cyan)),
        line("  \u{2022} Press 'n' to add tasks manually"@, fg(Color::DarkGray)),
        line(
            "  \u{2022} Press Enter to continue - AI will generate tasks from "@ + source,
            fg(Color::DarkGray),
        ),
    ]
}

/// The middle of the screen for the tasks.
pub open spec fn task_choice_lines(s: SetupView) -> Seq<Seq<SpanView>> {
    if s.detected.prd is Some {
        if s.tasks.len() == 0 {
            options_lines(
                line("  PRD file detected but no user stories found."@, fg(Color::Yellow)),
                "PRD"@,
            )
        } else {
            seq![
                line("  "@ + decimal(s.tasks.len()) + " tasks imported from PRD:"@, fg(Color::Green)),
                text_line(""@),
            ] + imported_lines(s.tasks)
        }
    } else if s.tasks.len() == 0 {
        if has_docs(s.detected) {
            options_lines(line("  Product documents detected."@, fg(Color::Green)), "docs"@)
        } else {
            seq![
                line("  No PRD file detected and no tasks yet."@, fg(Color::DarkGray)),
                line(
                    "  Press 'n' to add tasks manually, or continue without tasks."@,
                    fg(Color::DarkGray),
                ),
            ]
        }
    } else {
        numbered_lines(s.tasks)
    }
}

/// The screen for the tasks.
pub open spec fn tasks_lines(s: SetupView) -> Seq<Seq<SpanView>> {
    seq![text_line(""@), text_line("Tasks to complete:"@), text_line(""@)] + task_choice_lines(s)
        + seq![
        text_line(""@),
        line("You can edit tasks later from the TUI."@, fg(Color::DarkGray)),
    ]
}

/// The git mode in the summary.
pub open spec fn mode_summary(mode: GitMode) -> Seq<char> {
    match mode {
        GitMode::Branch => "branch (safe)"@,
        GitMode::Trunk => "trunk (direct commits)"@,
    }
}

/// The Archon integration in the summary.
pub open spec fn archon_summary(s: SetupView) -> Seq<char> {
    if !s.archon.enabled {
        "disabled"@
    } else {
        "enabled"@ + (match s.archon.project_id {
            Some(id) => ", project: "@ + id,
            None => if trim(s.archon_project_id_input).len() > 0 {
                ", project: "@ + trim(s.archon_project_id_input)
            } else {
                Seq::empty()
            },
        }) + (if s.archon.use_rag {
            ", RAG: on"@
        } else {
            Seq::empty()
        })
    }
}

/// The tasks in the summary.
pub open spec fn tasks_summary(s: SetupView) -> Seq<char> {
    if s.tasks.len() > 0 {
        decimal(s.tasks.len())
    } else if has_docs(s.detected) {
        "0 (AI will generate from product docs)"@
    } else {
        "0 (none defined)"@
    }
}

/// The last screen.
pub open spec fn review_lines(s: SetupView) -> Seq<Seq<SpanView>> {
    seq![
        text_line(""@),
        line("Configuration Summary:"@, bold(plain())),
        text_line(""@),
        text_line("  Agent command: "@ + s.agent_cmd),
        text_line("  Git mode: "@ + mode_summary(s.git_mode)),
        text_line("  Archon: "@ + archon_summary(s)),
        text_line("  Tasks: "@ + tasks_summary(s)),
        text_line(""@),
        text_line("Files to be created:"@),
        line("  - ralpher.toml"@, fg(Color::Green)),
        line("  - ralpher.prd.json"@, fg(Color::Green)),
        text_line(""@),
        line("Press Enter to save and start ralpher..."@, fg(Color::Yellow)),
    ]
}

/// The contents of a step of the wizard.
pub open spec fn setup_panel(s: SetupView) -> PanelView {
    match s.step {
        SetupStep::Welcome => PanelView { title: " Welcome "@, lines: welcome_lines() },
        SetupStep::AgentConfig => PanelView {
            title: " Agent Command "@,
            lines: agent_lines(s.agent_cmd, s.default_cmd),
        },
        SetupStep::GitMode => PanelView { title: " Git Mode "@, lines: git_mode_lines(s.git_mode) },
        SetupStep::Archon => PanelView { title: " Archon Integration "@, lines: archon_lines(s) },
        SetupStep::Tasks => PanelView { title: " Tasks "@, lines: tasks_lines(s) },
        SetupStep::Review => PanelView { title: " Review "@, lines: review_lines(s) },
    }
}

/// A span, where it is to be shown.
pub open spec fn span_if(shown: bool, text: Seq<char>, color: Color) -> Seq<SpanView> {
    if shown {
        seq![span(text, fg(color))]
    } else {
        Seq::empty()
    }
}

/// The files that were detected.
pub open spec fn detected_spans(d: DetectedView) -> Seq<SpanView> {
    span_if(d.is_git_repo, "git "@, Color::Green) + span_if(
        d.mission is Some,
        "mission.md "@,
        Color::Cyan,
    ) + span_if(d.prd is Some, "prd.md "@, Color::Cyan) + span_if(
        d.tech is Some,
        "tech.md "@,
        Color::Cyan,
    ) + span_if(d.task_file is Some, "ralpher.prd.json "@, Color::Yellow)
}

/// The line about the files that were detected.
pub open spec fn detected_line(d: DetectedView) -> Seq<SpanView> {
    seq![span(" Detected: "@, plain())] + (if detected_spans(d).len() == 0 {
        seq![span("(no product files found)"@, fg(Color::DarkGray))]
    } else {
        detected_spans(d)
    })
}

/// What the wizard shows.
#[derive(Debug)]
pub struct SetupScreen {
    pub header: Line,
    pub content: Panel,
    pub detected: Line,
    pub footer: String,
}

fn name_of_step(step: SetupStep) -> (r: &'static str)
    ensures
        r@ == step_name(step),
{
    match step {
        SetupStep::Welcome => "Welcome",
        SetupStep::AgentConfig => "Agent Configuration",
        SetupStep::GitMode => "Git Mode",
        SetupStep::Archon => "Archon Integration",
        SetupStep::Tasks => "Tasks",
        SetupStep::Review => "Review & Save",
    }
}

fn number_of_step(step: SetupStep) -> (r: u64)
    ensures
        r == step_number(step),
{
    match step {
        SetupStep::Welcome => 1,
        SetupStep::AgentConfig => 2,
        SetupStep::GitMode => 3,
        SetupStep::Archon => 4,
        SetupStep::Tasks => 5,
        SetupStep::Review => 6,
    }
}

fn footer_of_step(step: SetupStep, has_prd: bool) -> (r: &'static str)
    ensures
        r@ == setup_footer(step, has_prd),
{
    match step {
        SetupStep::Welcome => " Enter: Continue  |  q: Quit ",
        SetupStep::AgentConfig => " Enter: Continue  |  Backspace: Back  |  q: Quit ",
        SetupStep::GitMode => " Tab: Toggle  |  Enter: Continue  |  Backspace: Back  |  q: Quit ",
        SetupStep::Archon => {
            " Tab: Next  |  Space: Toggle  |  Enter: Continue  |  Backspace: Back  |  q: Quit "
        },
        SetupStep::Tasks => if has_prd {
            " n: New  |  i: Re-import  |  c: Clear  |  Enter: Continue  |  Backspace: Back  |  q: Quit "
        } else {
            " n: New Task  |  Enter: Continue  |  Backspace: Back  |  q: Quit "
        },
        SetupStep::Review => " Enter: Save & Start  |  Backspace: Back  |  q: Quit ",
    }
}

/// Draw the setup wizard UI.
pub fn draw_setup_ui(app: &App) -> (r: SetupScreen)
    ensures
        r.header@ == setup_header(app.setup.step),
        r.content@ == setup_panel(app@.setup),
        r.detected@ == detected_line(app@.setup.detected),
        r.footer@ == setup_footer(app.setup.step, app.setup.detected.prd is Some),
{
    let step = app.setup.step;
    let title = owned("Step ").concat(decimal_text(number_of_step(step)).as_str()).concat(
        "/6: ",
    ).concat(name_of_step(step));
    SetupScreen {
        header: Line::three(
            Span::styled(" ralpher setup ", Style::fg(Color::Cyan).bold()),
            Span::raw(" - "),
            Span::styled(title.as_str(), Style::fg(Color::Yellow)),
        ),
        content: draw_setup_step(app),
        detected: draw_detected_files(app),
        footer: owned(footer_of_step(step, app.setup.detected.prd.is_some())),
    }
}

fn draw_welcome() -> (r: Vec<Line>)
    ensures
        views(r@) == welcome_lines(),
{
    let r = vec![
        Line::raw(""),
        Line::styled("Welcome to ralpher!", Style::fg(Color::Green).bold()),
        Line::raw(""),
        Line::raw("No ralpher.toml configuration found in this directory."),
        Line::raw("This wizard will help you set up ralpher for your project."),
        Line::raw(""),
        Line::raw("ralpher will:"),
        Line::raw("  - Run an AI agent in iterative loops"),
        Line::raw("  - Track task completion"),
        Line::raw("  - Checkpoint progress via git"),
        Line::raw(""),
        Line::styled("Press Enter to continue...", Style::fg(Color::Yellow)),
    ];
    assert(views(r@) =~= welcome_lines());
    r
}

fn draw_agent_config(cmd: &str, default_cmd: &str) -> (r: Vec<Line>)
    ensures
        views(r@) == agent_lines(cmd@, default_cmd@),
{
    let gray = Style::fg(Color::DarkGray);
    let r = vec![
        Line::raw(""),
        Line::raw("Enter the command to run your AI agent:"),
        Line::raw(""),
        Line::styled(owned("> ").concat(cmd).concat("_").as_str(), Style::fg(Color::Cyan)),
        Line::raw(""),
        Line::styled("Examples:", gray),
        Line::styled(owned("  ").concat(default_cmd).as_str(), gray),
        Line::styled("  aider --message", gray),
        Line::styled("  codex run", gray),
    ];
    assert(views(r@) =~= agent_lines(cmd@, default_cmd@));
    r
}

fn style_of_choice(chosen: bool, color: Color) -> (r: Style)
    ensures
        r == choice_style(chosen, color),
{
    if chosen {
        Style::fg(color).bold().reversed()
    } else {
        Style::fg(Color::DarkGray)
    }
}

fn draw_git_mode(mode: GitMode) -> (r: Vec<Line>)
    ensures
        views(r@) == git_mode_lines(mode),
{
    let r = vec![
        Line::raw(""),
        Line::raw("Select git mode for checkpointing:"),
        Line::raw(""),
        Line::three(
            Span::raw("  "),
            Span::styled(" Branch ", style_of_choice(mode == GitMode::Branch, Color::Green)),
            Span::raw("  Create a dedicated branch for the run (safe default)"),
        ),
        Line::raw(""),
        Line::three(
            Span::raw("  "),
            Span::styled(" Trunk  ", style_of_choice(mode == GitMode::Trunk, Color::Yellow)),
            Span::raw("  Operate directly on current branch (commits directly)"),
        ),
        Line::raw(""),
        Line::styled("Press Tab to toggle selection", Style::fg(Color::Yellow)),
    ];
    assert(views(r@) =~= git_mode_lines(mode));
    r
}

fn style_of_field(focused: bool) -> (r: Style)
    ensures
        r == field_style(focused),
{
    if focused {
        Style::fg(Color::Cyan).bold()
    } else {
        Style::plain()
    }
}

fn box_text(ticked: bool) -> (r: &'static str)
    ensures
        r@ == checkbox(ticked),
{
    if ticked {
        "[x]"
    } else {
        "[ ]"
    }
}

fn shown_project(input: &str, focused: bool) -> (r: String)
    ensures
        r@ == project_text(input@, focused),
{
    if focused {
        owned(input).concat("_")
    } else if input.unicode_len() == 0 {
        owned("(optional)")
    } else {
        owned(input)
    }
}

fn draw_archon(app: &App) -> (r: Vec<Line>)
    ensures
        views(r@) == archon_lines(app@.setup),
{
    let f = app.setup.focused_field;
    let gray = Style::fg(Color::DarkGray);
    let enabled = owned(box_text(app.setup.archon.enabled)).concat(" Enable Archon");
    let rag = owned(box_text(app.setup.archon.use_rag)).concat(" Use Archon RAG for context");
    let project = shown_project(app.setup.archon_project_id_input.as_str(), f == 1);
    let r = vec![
        Line::raw(""),
        Line::raw("Configure Archon MCP integration (optional):"),
        Line::raw(""),
        Line::styled("Archon is an MCP server for knowledge management and task tracking.", gray),
        Line::styled(
            "If enabled, ralpher will instruct the AI to use Archon for RAG queries.",
            gray,
        ),
        Line::raw(""),
        Line::two(Span::raw("  "), Span::styled(enabled.as_str(), style_of_field(f == 0))),
        Line::raw(""),
        Line::three(
            Span::raw("  "),
            Span::styled("Project ID: ", style_of_field(f == 1)),
            Span::styled(project.as_str(), style_of_field(f == 1)),
        ),
        Line::raw(""),
        Line::two(Span::raw("  "), Span::styled(rag.as_str(), style_of_field(f == 2))),
        Line::raw(""),
        Line::styled(
            "Tab: Next field  |  Space: Toggle  |  Enter: Continue",
            Style::fg(Color::Yellow),
        ),
    ];
    assert(views(r@) =~= archon_lines(app@.setup));
    r
}

fn detected_docs(app: &App) -> (r: bool)
    ensures
        r == has_docs(app@.setup.detected),
{
    app.setup.detected.prd.is_some() || app.setup.detected.mission.is_some()
        || app.setup.detected.tech.is_some()
}

fn suffix_text(count: usize) -> (r: String)
    ensures
        r@ == criteria_suffix(count as nat),
{
    if count > 0 {
        owned(" (").concat(decimal_text(count as u64).as_str()).concat(" criteria)")
    } else {
        String::new()
    }
}

fn push_imported(out: &mut Vec<Line>, tasks: &Vec<Task>)
    ensures
        views(final(out)@) == views(old(out)@) + imported_lines(views(tasks@)),
{
    let n = tasks.len();
    let ghost ts = views(tasks@);
    let ghost before = views(out@);
    assert(ts.take(0) =~= Seq::<TaskView>::empty());
    assert(before + imported_lines(ts.take(0)) =~= before);
    for i in 0..n
        invariant
            n == tasks@.len(),
            ts == views(tasks@),
            views(out@) == before + imported_lines(ts.take(i as int)),
    {
        broadcast use lemma_views_push;

        assert(ts.take(i + 1).drop_last() =~= ts.take(i as int));
        assert(ts[i as int] == tasks@[i as int]@);
        let number = owned("  ").concat(decimal_text(i as u64 + 1).as_str()).concat(". ");
        out.push(
            Line::three(
                Span::styled(number.as_str(), Style::fg(Color::Cyan)),
                Span::raw(tasks[i].title.as_str()),
                Span::styled(
                    suffix_text(tasks[i].acceptance.len()).as_str(),
                    Style::fg(Color::DarkGray),
                ),
            ),
        );
        assert(views(out@) =~= before + imported_lines(ts.take(i + 1)));
    }
    assert(ts.take(n as int) =~= ts);
}

fn push_numbered(out: &mut Vec<Line>, tasks: &Vec<Task>)
    ensures
        views(final(out)@) == views(old(out)@) + numbered_lines(views(tasks@)),
{
    let n = tasks.len();
    let ghost ts = views(tasks@);
    let ghost before = views(out@);
    assert(ts.take(0) =~= Seq::<TaskView>::empty());
    assert(before + numbered_lines(ts.take(0)) =~= before);
    for i in 0..n
        invariant
            n == tasks@.len(),
            ts == views(tasks@),
            views(out@) == before + numbered_lines(ts.take(i as int)),
    {
        broadcast use lemma_views_push;

        assert(ts.take(i + 1).drop_last() =~= ts.take(i as int));
        assert(ts[i as int] == tasks@[i as int]@);
        let text = owned("  ").concat(decimal_text(i as u64 + 1).as_str()).concat(". ").concat(
            tasks[i].title.as_str(),
        );
        out.push(Line::raw(text.as_str()));
        assert(views(out@) =~= before + numbered_lines(ts.take(i + 1)));
    }
    assert(ts.take(n as int) =~= ts);
}

fn push_options(out: &mut Vec<Line>, intro: Line, source: &str)
    ensures
        views(final(out)@) == views(old(out)@) + options_lines(intro@, source@),
{
    broadcast use lemma_views_push;

    let gray = Style::fg(Color::DarkGray);
    let generate = owned(
        "  \u{2022} Press Enter to continue - AI will generate tasks from ",
    ).concat(source);
    out.push(intro);
    out.push(Line::raw(""));
    out.push(Line::styled("  Options:", Style::fg(Color::Cyan)));
    out.push(Line::styled("  \u{2022} Press 'n' to add tasks manually", gray));
    out.push(Line::styled(generate.as_str(), gray));
    assert(views(out@) =~= views(old(out)@) + options_lines(intro@, source@));
}

fn push_task_choice(out: &mut Vec<Line>, app: &App)
    ensures
        views(final(out)@) == views(old(out)@) + task_choice_lines(app@.setup),
{
    broadcast use lemma_views_push;

    let ghost before = views(out@);
    let n = app.setup.tasks.len();
    let gray = Style::fg(Color::DarkGray);
    if app.setup.detected.prd.is_some() {
        if n == 0 {
            let intro = Line::styled(
                "  PRD file detected but no user stories found.",
                Style::fg(Color::Yellow),
            );
            push_options(out, intro, "PRD");
        } else {
            let text = owned("  ").concat(decimal_text(n as u64).as_str()).concat(
                " tasks imported from PRD:",
            );
            out.push(Line::styled(text.as_str(), Style::fg(Color::Green)));
            out.push(Line::raw(""));
            push_imported(out, &app.setup.tasks);
            assert(views(out@) =~= before + task_choice_lines(app@.setup));
        }
    } else if n == 0 {
        if detected_docs(app) {
            let intro = Line::styled("  Product documents detected.", Style::fg(Color::Green));
            push_options(out, intro, "docs");
        } else {
            out.push(Line::styled("  No PRD file detected and no tasks yet.", gray));
            out.push(
                Line::styled(
                    "  Press 'n' to add tasks manually, or continue without tasks.",
                    gray,
                ),
            );
            assert(views(out@) =~= before + task_choice_lines(app@.setup));
        }
    } else {
        push_numbered(out, &app.setup.tasks);
    }
}

fn draw_tasks(app: &App) -> (r: Vec<Line>)
    ensures
        views(r@) == tasks_lines(app@.setup),
{
    broadcast use lemma_views_push;

    let mut out = vec![Line::raw(""), Line::raw("Tasks to complete:"), Line::raw("")];
    let ghost head = views(out@);
    assert(head =~= seq![text_line(""@), text_line("Tasks to complete:"@), text_line(""@)]);
    push_task_choice(&mut out, app);
    out.push(Line::raw(""));
    out.push(Line::styled("You can edit tasks later from the TUI.", Style::fg(Color::DarkGray)));
    assert(views(out@) =~= tasks_lines(app@.setup));
    out
}

fn summarize_archon(app: &App) -> (r: String)
    ensures
        r@ == archon_summary(app@.setup),
{
    if !app.setup.archon.enabled {
        return owned("disabled");
    }
    let project = match &app.setup.archon.project_id {
        Some(id) => owned(", project: ").concat(id.as_str()),
        None => if has_content(app.setup.archon_project_id_input.as_str()) {
            owned(", project: ").concat(
                trimmed_text(app.setup.archon_project_id_input.as_str()).as_str(),
            )
        } else {
            String::new()
        },
    };
    let rag = if app.setup.archon.use_rag {
        owned(", RAG: on")
    } else {
        String::new()
    };
    owned("enabled").concat(project.as_str()).concat(rag.as_str())
}

fn summarize_tasks(app: &App) -> (r: String)
    ensures
        r@ == tasks_summary(app@.setup),
{
    let n = app.setup.tasks.len();
    if n > 0 {
        decimal_text(n as u64)
    } else if detected_docs(app) {
        owned("0 (AI will generate from product docs)")
    } else {
        owned("0 (none defined)")
    }
}

fn draw_review(app: &App) -> (r: Vec<Line>)
    ensures
        views(r@) == review_lines(app@.setup),
{
    let mode = match app.setup.git_mode {
        GitMode::Branch => "branch (safe)",
        GitMode::Trunk => "trunk (direct commits)",
    };
    let archon = summarize_archon(app);
    let tasks = summarize_tasks(app);
    let r = vec![
        Line::raw(""),
        Line::styled("Configuration Summary:", Style::plain().bold()),
        Line::raw(""),
        Line::raw(owned("  Agent command: ").concat(app.setup.agent_cmd.as_str()).as_str()),
        Line::raw(owned("  Git mode: ").concat(mode).as_str()),
        Line::raw(owned("  Archon: ").concat(archon.as_str()).as_str()),
        Line::raw(owned("  Tasks: ").concat(tasks.as_str()).as_str()),
        Line::raw(""),
        Line::raw("Files to be created:"),
        Line::styled("  - ralpher.toml", Style::fg(Color::Green)),
        Line::styled("  - ralpher.prd.json", Style::fg(Color::Green)),
        Line::raw(""),
        Line::styled("Press Enter to save and start ralpher...", Style::fg(Color::Yellow)),
    ];
    assert(views(r@) =~= review_lines(app@.setup));
    r
}

/// Draw the current setup step content.
pub fn draw_setup_step(app: &App) -> (r: Panel)
    ensures
        r@ == setup_panel(app@.setup),
{
    match app.setup.step {
        SetupStep::Welcome => Panel { title: owned(" Welcome "), lines: draw_welcome() },
        SetupStep::AgentConfig => Panel {
            title: owned(" Agent Command "),
            lines: draw_agent_config(
                app.setup.agent_cmd.as_str(),
                app.setup.default_cmd.as_str(),
            ),
        },
        SetupStep::GitMode => Panel {
            title: owned(" Git Mode "),
            lines: draw_git_mode(app.setup.git_mode),
        },
        SetupStep::Archon => Panel {
            title: owned(" Archon Integration "),
            lines: draw_archon(app),
        },
        SetupStep::Tasks => Panel { title: owned(" Tasks "), lines: draw_tasks(app) },
        SetupStep::Review => Panel { title: owned(" Review "), lines: draw_review(app) },
    }
}

fn push_if(out: &mut Vec<Span>, shown: bool, text: &str, color: Color)
    ensures
        views(final(out)@) == views(old(out)@) + span_if(shown, text@, color),
{
    broadcast use lemma_views_push;

    if shown {
        out.push(Span::styled(text, Style::fg(color)));
        assert(views(out@) =~= views(old(out)@) + span_if(shown, text@, color));
    } else {
        assert(views(out@) =~= views(old(out)@) + span_if(shown, text@, color));
    }
}

/// Draw detected files panel.
pub fn draw_detected_files(app: &App) -> (r: Line)
    ensures
        r@ == detected_line(app@.setup.detected),
{
    broadcast use lemma_views_push;

    let d = &app.setup.detected;
    let mut spans = vec![Span::raw(" Detected: ")];
    let ghost head = views(spans@);
    assert(head =~= seq![span(" Detected: "@, plain())]);
    push_if(&mut spans, d.is_git_repo, "git ", Color::Green);
    push_if(&mut spans, d.mission.is_some(), "mission.md ", Color::Cyan);
    push_if(&mut spans, d.prd.is_some(), "prd.md ", Color::Cyan);
    push_if(&mut spans, d.tech.is_some(), "tech.md ", Color::Cyan);
    push_if(&mut spans, d.task_file.is_some(), "ralpher.prd.json ", Color::Yellow);
    assert(views(spans@) =~= head + detected_spans(app@.setup.detected));
    if spans.len() == 1 {
        spans.push(Span::styled("(no product files found)", Style::fg(Color::DarkGray)));
    }
    assert(views(spans@) =~= detected_line(app@.setup.detected));
    Line { spans }
}

// --------------------------------------------------------------- the main screen

/// The state of the run, with its color.
pub open spec fn state_label(a: AppView) -> (Seq<char>, Color) {
    match shown_state(a) {
        Some(RunState::Running) => if a.user_paused {
            ("PAUSING"@, Color::Yellow)
        } else {
            ("RUNNING"@, Color::Green)
        },
        Some(RunState::Paused) => ("PAUSED"@, Color::Yellow),
        Some(RunState::Completed) => ("COMPLETED"@, Color::Cyan),
        Some(RunState::Aborted) => ("ABORTED"@, Color::Red),
        Some(RunState::Idle) => ("IDLE"@, Color::Gray),
        None => ("NO RUN"@, Color::DarkGray),
    }
}

/// The header, at the given time (Unix ms).
pub open spec fn header_line(a: AppView, now_ms: u64) -> Seq<SpanView> {
    let (state, color) = state_label(a);
    seq![
        span("Run: "@, plain()),
        span(
            match a.run {
                Some(run) => run.run_id,
                None => "none"@,
            },
            fg(Color::Cyan),
        ),
        span("  |  State: "@, plain()),
        span(state, bold(fg(color))),
        span("  |  Iteration: "@, plain()),
        span(
            decimal(
                match a.run {
                    Some(run) => run.iteration as nat,
                    None => 0,
                },
            ),
            fg(Color::Yellow),
        ),
        span("  |  Elapsed: "@, plain()),
        span(
            match a.run {
                Some(run) => clock_text(
                    (elapsed_since(run.started_at, now_ms) / 1000) as nat,
                ),
                None => "--:--:--"@,
            },
            fg(Color::Magenta),
        ),
    ]
}

fn label_of_state(app: &App) -> (r: (&'static str, Color))
    ensures
        (r.0@, r.1) == state_label(app@),
{
    match app.run_state() {
        Some(RunState::Running) => if app.user_paused {
            ("PAUSING", Color::Yellow)
        } else {
            ("RUNNING", Color::Green)
        },
        Some(RunState::Paused) => ("PAUSED", Color::Yellow),
        Some(RunState::Completed) => ("COMPLETED", Color::Cyan),
        Some(RunState::Aborted) => ("ABORTED", Color::Red),
        Some(RunState::Idle) => ("IDLE", Color::Gray),
        None => ("NO RUN", Color::DarkGray),
    }
}

/// Draw the header with run state, iteration, elapsed time.
pub fn draw_header(app: &App, now_ms: u64) -> (r: Line)
    ensures
        r@ == header_line(app@, now_ms),
{
    let (state, color) = label_of_state(app);
    let elapsed = match app.run_elapsed(now_ms) {
        Some(ms) => App::format_duration(ms / 1000),
        None => owned("--:--:--"),
    };
    let (run_id, iteration) = match &app.run {
        Some(run) => (run.run_id.clone(), decimal_text(run.iteration as u64)),
        None => (owned("none"), decimal_text(0)),
    };
    let spans = vec![
        Span::raw("Run: "),
        Span::styled(run_id.as_str(), Style::fg(Color::Cyan)),
        Span::raw("  |  State: "),
        Span::styled(state, Style::fg(color).bold()),
        Span::raw("  |  Iteration: "),
        Span::styled(iteration.as_str(), Style::fg(Color::Yellow)),
        Span::raw("  |  Elapsed: "),
        Span::styled(elapsed.as_str(), Style::fg(Color::Magenta)),
    ];
    assert(views(spans@) =~= header_line(app@, now_ms));
    Line { spans }
}

/// The mark and the style of a task in the list.
pub open spec fn task_mark(status: TaskStatus) -> (Seq<char>, Style) {
    match status {
        TaskStatus::Done => ("[x]"@, fg(Color::Green)),
        TaskStatus::InProgress => ("[>]"@, bold(fg(Color::Yellow))),
        TaskStatus::Blocked => ("[!]"@, fg(Color::Red)),
        TaskStatus::Todo => ("[ ]"@, fg(Color::Gray)),
    }
}

/// Whether the run is at work on the task.
pub open spec fn is_running_task(a: AppView, task: TaskView) -> bool {
    match a.run {
        Some(run) => run.current_task_id == Some(task.id),
        None => false,
    }
}

/// The line of the task at the given index in the list.
pub open spec fn list_line(a: AppView, i: int) -> Seq<SpanView> {
    let task = a.tasks.tasks[i];
    let (mark, base) = task_mark(task.status);
    let selected = i == a.selected_task_index;
    let style = if selected {
        reversed(base)
    } else if is_running_task(a, task) {
        underlined(base)
    } else {
        base
    };
    seq![
        span(
            if selected {
                ">"@
            } else {
                " "@
            },
            fg(Color::Cyan),
        ),
        span(mark + " "@, style),
        span(task.title, style),
    ]
}

/// The list of tasks.
pub open spec fn list_panel(a: AppView) -> PanelView {
    PanelView {
        title: " Tasks ("@ + decimal(a.tasks.tasks.len()) + ") "@,
        lines: Seq::new(a.tasks.tasks.len(), |i: int| list_line(a, i)),
    }
}

fn mark_of_task(status: TaskStatus) -> (r: (&'static str, Style))
    ensures
        (r.0@, r.1) == task_mark(status),
{
    match status {
        TaskStatus::Done => ("[x]", Style::fg(Color::Green)),
        TaskStatus::InProgress => ("[>]", Style::fg(Color::Yellow).bold()),
        TaskStatus::Blocked => ("[!]", Style::fg(Color::Red)),
        TaskStatus::Todo => ("[ ]", Style::fg(Color::Gray)),
    }
}

fn runs_task(app: &App, id: &str) -> (r: bool)
    ensures
        r == match app@.run {
            Some(run) => run.current_task_id == Some(id@),
            None => false,
        },
{
    match &app.run {
        Some(run) => match &run.current_task_id {
            Some(current) => same_text(current.as_str(), id),
            None => false,
        },
        None => false,
    }
}

fn draw_list_line(app: &App, i: usize) -> (r: Line)
    requires
        i < app.tasks.tasks@.len(),
    ensures
        r@ == list_line(app@, i as int),
{
    assert(app@.tasks.tasks[i as int] == app.tasks.tasks@[i as int]@);
    let task = &app.tasks.tasks[i];
    let (mark, base) = mark_of_task(task.status);
    let selected = i == app.selected_task_index;
    let style = if selected {
        base.reversed()
    } else if runs_task(app, task.id.as_str()) {
        base.underlined()
    } else {
        base
    };
    let marker = if selected {
        ">"
    } else {
        " "
    };
    Line::three(
        Span::styled(marker, Style::fg(Color::Cyan)),
        Span::styled(owned(mark).concat(" ").as_str(), style),
        Span::styled(task.title.as_str(), style),
    )
}

/// Draw the task list.
pub fn draw_task_list(app: &App) -> (r: Panel)
    ensures
        r@ == list_panel(app@),
{
    let n = app.tasks.tasks.len();
    let mut out: Vec<Line> = Vec::new();
    for i in 0..n
        invariant
            n == app.tasks.tasks@.len(),
            views(out@) == list_panel(app@).lines.take(i as int),
    {
        broadcast use lemma_views_push;

        out.push(draw_list_line(app, i));
    }
    Panel {
        title: owned(" Tasks (").concat(decimal_text(n as u64).as_str()).concat(") "),
        lines: out,
    }
}

/// The color of a task status.
pub open spec fn status_color(status: TaskStatus) -> Color {
    match status {
        TaskStatus::Done => Color::Green,
        TaskStatus::InProgress => Color::Yellow,
        TaskStatus::Blocked => Color::Red,
        TaskStatus::Todo => Color::Gray,
    }
}

/// The name of a task status.
pub open spec fn status_name(status: TaskStatus) -> Seq<char> {
    match status {
        TaskStatus::Todo => "Todo"@,
        TaskStatus::InProgress => "InProgress"@,
        TaskStatus::Done => "Done"@,
        TaskStatus::Blocked => "Blocked"@,
    }
}

/// Get style for a task status.
pub fn status_style(status: TaskStatus) -> (r: Style)
    ensures
        r == fg(status_color(status)),
{
    match status {
        TaskStatus::Done => Style::fg(Color::Green),
        TaskStatus::InProgress => Style::fg(Color::Yellow),
        TaskStatus::Blocked => Style::fg(Color::Red),
        TaskStatus::Todo => Style::fg(Color::Gray),
    }
}

fn name_of_status(status: TaskStatus) -> (r: &'static str)
    ensures
        r@ == status_name(status),
{
    match status {
        TaskStatus::Todo => "Todo",
        TaskStatus::InProgress => "InProgress",
        TaskStatus::Done => "Done",
        TaskStatus::Blocked => "Blocked",
    }
}

/// The criteria among the details of a task.
pub open spec fn criteria_details(criteria: Seq<Seq<char>>) -> Seq<Seq<SpanView>> {
    if criteria.len() == 0 {
        Seq::empty()
    } else {
        seq![line("Acceptance Criteria:"@, bold(plain()))] + criteria.map_values(
            |c: Seq<char>| text_line("  - "@ + c),
        ) + seq![text_line(""@)]
    }
}

/// The details of a task.
pub open spec fn task_details(t: TaskView) -> Seq<Seq<SpanView>> {
    seq![
        seq![span("ID: "@, bold(plain())), span(t.id, plain())],
        seq![span("Title: "@, bold(plain())), span(t.title, plain())],
        seq![
            span("Status: "@, bold(plain())),
            span(status_name(t.status), fg(status_color(t.status))),
        ],
        text_line(""@),
    ] + criteria_details(t.acceptance) + (match t.notes {
        Some(n) => seq![seq![span("Notes: "@, bold(plain())), span(n, plain())]],
        None => Seq::empty(),
    })
}

/// The details of the selected task.
pub open spec fn details_panel(a: AppView) -> PanelView {
    PanelView {
        title: " Current Task "@,
        lines: if a.selected_task_index < a.tasks.tasks.len() {
            task_details(a.tasks.tasks[a.selected_task_index as int])
        } else {
            seq![line("No current task"@, fg(Color::DarkGray))]
        },
    }
}

fn push_criteria(out: &mut Vec<Line>, criteria: &Vec<String>)
    ensures
        views(final(out)@) == views(old(out)@) + criteria_details(views(criteria@)),
{
    broadcast use lemma_views_push;

    let n = criteria.len();
    let ghost before = views(out@);
    let ghost cv = views(criteria@);
    if n == 0 {
        assert(views(out@) =~= before + criteria_details(cv));
        return ;
    }
    let head = Line::styled("Acceptance Criteria:", Style::plain().bold());
    let ghost top = seq![head@];
    out.push(head);
    assert(views(out@) =~= before + top);
    let ghost items = cv.map_values(|c: Seq<char>| text_line("  - "@ + c));
    assert(before + top + items.take(0) =~= before + top);
    for i in 0..n
        invariant
            n == criteria@.len(),
            cv == views(criteria@),
            items == cv.map_values(|c: Seq<char>| text_line("  - "@ + c)),
            views(out@) == before + top + items.take(i as int),
    {
        broadcast use lemma_views_push;

        assert(cv[i as int] == criteria@[i as int]@);
        out.push(Line::raw(owned("  - ").concat(criteria[i].as_str()).as_str()));
        assert(items.take(i + 1) =~= items.take(i as int).push(items[i as int]));
        assert(views(out@) =~= before + top + items.take(i + 1));
    }
    assert(items.take(n as int) =~= items);
    out.push(Line::raw(""));
    assert(views(out@) =~= before + criteria_details(cv));
}

fn draw_details_of(task: &Task) -> (r: Vec<Line>)
    ensures
        views(r@) == task_details(task@),
{
    broadcast use lemma_views_push;

    let b = Style::plain().bold();
    let mut out = vec![
        Line::two(Span::styled("ID: ", b), Span::raw(task.id.as_str())),
        Line::two(Span::styled("Title: ", b), Span::raw(task.title.as_str())),
        Line::two(
            Span::styled("Status: ", b),
            Span::styled(name_of_status(task.status), status_style(task.status)),
        ),
        Line::raw(""),
    ];
    let ghost head = views(out@);
    assert(head =~= seq![
        seq![span("ID: "@, bold(plain())), span(task@.id, plain())],
        seq![span("Title: "@, bold(plain())), span(task@.title, plain())],
        seq![
            span("Status: "@, bold(plain())),
            span(status_name(task.status), fg(status_color(task.status))),
        ],
        text_line(""@),
    ]);
    push_criteria(&mut out, &task.acceptance);
    match &task.notes {
        Some(notes) => {
            out.push(Line::two(Span::styled("Notes: ", b), Span::raw(notes.as_str())));
        },
        None => {},
    }
    assert(views(out@) =~= task_details(task@));
    out
}

/// Draw the current task details.
pub fn draw_task_details(app: &App) -> (r: Panel)
    ensures
        r@ == details_panel(app@),
{
    let i = app.selected_task_index;
    let lines = if i < app.tasks.tasks.len() {
        assert(app@.tasks.tasks[i as int] == app.tasks.tasks@[i as int]@);
        draw_details_of(&app.tasks.tasks[i])
    } else {
        let none = vec![Line::styled("No current task", Style::fg(Color::DarkGray))];
        assert(views(none@) =~= seq![line("No current task"@, fg(Color::DarkGray))]);
        none
    };
    Panel { title: owned(" Current Task "), lines }
}

/// The style of a log line, by what it holds.
pub open spec fn log_style(s: Seq<char>) -> Style {
    if contains(s, "error"@) || contains(s, "ERROR"@) || contains(s, "FAIL"@) {
        fg(Color::Red)
    } else if contains(s, "warning"@) || contains(s, "WARN"@) {
        fg(Color::Yellow)
    } else if contains(s, "PASS"@) || contains(s, "success"@) {
        fg(Color::Green)
    } else if starts_with(s, "==="@) {
        bold(fg(Color::Cyan))
    } else {
        plain()
    }
}

/// `a - b`, or nothing where `b` is larger.
pub open spec fn less(a: int, b: int) -> int {
    if a > b {
        a - b
    } else {
        0
    }
}

/// The log lines in sight: those up to the scroll offset, as many as fit.
pub open spec fn lines_in_sight(a: AppView, height: u16) -> Seq<Seq<char>> {
    let end = less(a.log_lines.len() as int, a.log_scroll_offset as int);
    a.log_lines.subrange(less(end, less(height as int, 2)), end)
}

/// The title of the log.
pub open spec fn log_title(a: AppView) -> Seq<char> {
    " "@ + (match a.log_source {
        LogSource::Agent => "Agent"@,
        LogSource::Validator => "Validator"@,
    }) + " Log"@ + (if a.log_scroll_offset > 0 {
        " (scroll: +"@ + decimal(a.log_scroll_offset as nat) + ")"@
    } else {
        Seq::empty()
    }) + " "@
}

/// The log, in a panel of the given height.
pub open spec fn log_panel(a: AppView, height: u16) -> PanelView {
    PanelView {
        title: log_title(a),
        lines: if a.log_lines.len() == 0 {
            seq![line("No log output yet"@, fg(Color::DarkGray))]
        } else {
            lines_in_sight(a, height).map_values(|s: Seq<char>| line(s, log_style(s)))
        },
    }
}

fn style_of_log(text: &str) -> (r: Style)
    ensures
        r == log_style(text@),
{
    let s = chars_of(text);
    if holds(&s, &chars_of("error")) || holds(&s, &chars_of("ERROR")) || holds(
        &s,
        &chars_of("FAIL"),
    ) {
        Style::fg(Color::Red)
    } else if holds(&s, &chars_of("warning")) || holds(&s, &chars_of("WARN")) {
        Style::fg(Color::Yellow)
    } else if holds(&s, &chars_of("PASS")) || holds(&s, &chars_of("success")) {
        Style::fg(Color::Green)
    } else if begins(&s, &chars_of("===")) {
        Style::fg(Color::Cyan).bold()
    } else {
        Style::plain()
    }
}

fn rest(a: usize, b: usize) -> (r: usize)
    ensures
        r == less(a as int, b as int),
{
    if a > b {
        a - b
    } else {
        0
    }
}

fn title_of_log(app: &App) -> (r: String)
    ensures
        r@ == log_title(app@),
{
    let source = match app.log_source {
        LogSource::Agent => "Agent",
        LogSource::Validator => "Validator",
    };
    let scroll = if app.log_scroll_offset > 0 {
        owned(" (scroll: +").concat(decimal_text(app.log_scroll_offset as u64).as_str()).concat(")")
    } else {
        String::new()
    };
    owned(" ").concat(source).concat(" Log").concat(scroll.as_str()).concat(" ")
}

/// Draw the log panel with agent or validator output, in the given height.
pub fn draw_log_panel(app: &App, height: u16) -> (r: Panel)
    ensures
        r@ == log_panel(app@, height),
{
    let total = app.log_lines.len();
    let title = title_of_log(app);
    if total == 0 {
        let none = vec![Line::styled("No log output yet", Style::fg(Color::DarkGray))];
        assert(views(none@) =~= seq![line("No log output yet"@, fg(Color::DarkGray))]);
        return Panel { title, lines: none };
    }
    let end = rest(total, app.log_scroll_offset);
    let start = rest(end, rest(height as usize, 2));
    let mut out: Vec<Line> = Vec::new();
    let ghost lv = views(app.log_lines@);
    let ghost expected = lv.subrange(start as int, end as int).map_values(
        |s: Seq<char>| line(s, log_style(s)),
    );
    for i in start..end
        invariant
            start <= end <= app.log_lines@.len(),
            lv == views(app.log_lines@),
            expected == lv.subrange(start as int, end as int).map_values(
                |s: Seq<char>| line(s, log_style(s)),
            ),
            views(out@) == expected.take(i - start),
    {
        broadcast use lemma_views_push;

        assert(lv[i as int] == app.log_lines@[i as int]@);
        let text = app.log_lines[i].as_str();
        out.push(Line::styled(text, style_of_log(text)));
        assert(expected.take(i - start + 1) =~= expected.take(i - start).push(
            expected[i - start],
        ));
    }
    assert(expected.take(end - start) =~= expected);
    Panel { title, lines: out }
}

/// A key and what it does.
pub open spec fn hint(key: Seq<char>, action: Seq<char>) -> Seq<SpanView> {
    seq![span(key, reversed(plain())), span(action, plain())]
}

/// What Space does.
pub open spec fn space_hint(state: Option<RunState>) -> Seq<char> {
    match state {
        Some(RunState::Running) => " Pause  "@,
        Some(RunState::Paused) => " Resume  "@,
        _ => " Start  "@,
    }
}

/// The footer: the keys that work, by the state of the run.
pub open spec fn footer_line(a: AppView) -> Seq<SpanView> {
    hint(" q "@, " Quit  "@) + hint(" \u{2423} "@, space_hint(shown_state(a))) + (if is_active(a) {
        hint(" a "@, " Abort  "@) + hint(" r "@, " Retry  "@) + hint(" s "@, " Skip  "@)
    } else {
        Seq::empty()
    }) + hint(" n "@, " New  "@) + hint(" e "@, " Edit  "@) + hint(" x "@, " Del  "@) + hint(
        " d "@,
        " Diff  "@,
    ) + hint(" Tab "@, " Nav  "@) + hint(
        " l "@,
        " "@ + (match a.log_source {
            LogSource::Agent => "Validator"@,
            LogSource::Validator => "Agent"@,
        }) + " "@,
    )
}

fn push_hint(out: &mut Vec<Span>, key: &str, action: &str)
    ensures
        views(final(out)@) == views(old(out)@) + hint(key@, action@),
{
    broadcast use lemma_views_push;

    out.push(Span::styled(key, Style::plain().reversed()));
    out.push(Span::raw(action));
    assert(views(out@) =~= views(old(out)@) + hint(key@, action@));
}

/// Draw the footer with keybindings.
pub fn draw_footer(app: &App) -> (r: Line)
    ensures
        r@ == footer_line(app@),
{
    let mut spans: Vec<Span> = Vec::new();
    assert(views(spans@) =~= Seq::<SpanView>::empty());
    push_hint(&mut spans, " q ", " Quit  ");
    let state = app.run_state();
    let space = match state {
        Some(RunState::Running) => " Pause  ",
        Some(RunState::Paused) => " Resume  ",
        _ => " Start  ",
    };
    push_hint(&mut spans, " \u{2423} ", space);
    match state {
        Some(RunState::Running) | Some(RunState::Paused) => {
            push_hint(&mut spans, " a ", " Abort  ");
            push_hint(&mut spans, " r ", " Retry  ");
            push_hint(&mut spans, " s ", " Skip  ");
        },
        _ => {},
    }
    push_hint(&mut spans, " n ", " New  ");
    push_hint(&mut spans, " e ", " Edit  ");
    push_hint(&mut spans, " x ", " Del  ");
    push_hint(&mut spans, " d ", " Diff  ");
    push_hint(&mut spans, " Tab ", " Nav  ");
    let other = match app.log_source {
        LogSource::Agent => "Validator",
        LogSource::Validator => "Agent",
    };
    push_hint(&mut spans, " l ", owned(" ").concat(other).concat(" ").as_str());
    assert(views(spans@) =~= footer_line(app@));
    Line { spans }
}

// ------------------------------------------------------------------ the overlays

/// A text with the cursor behind it, where its field is focused.
pub open spec fn with_cursor(text: Seq<char>, focused: bool) -> Seq<char> {
    if focused {
        text + "_"@
    } else {
        text
    }
}

/// A text of several lines in the editor, with an empty line where the next one
/// would begin.
pub open spec fn field_lines(text: Seq<char>, style: Style) -> Seq<Seq<SpanView>> {
    lines(text).map_values(|l: Seq<char>| line("  "@ + l, style)) + (if text.len() == 0
        || ends_with(text, "\n"@) {
        seq![line("  "@, style)]
    } else {
        Seq::empty()
    })
}

/// The lines of the task editor.
pub open spec fn editor_lines(a: AppView) -> Seq<Seq<SpanView>> {
    let b = a.edit_buffer;
    let f = b.focused_field;
    seq![
        line("Title:"@, field_style(f == 0)),
        line("  "@ + with_cursor(b.title, f == 0), field_style(f == 0)),
        text_line(""@),
        line("Acceptance Criteria (one per line):"@, field_style(f == 1)),
    ] + field_lines(with_cursor(b.acceptance, f == 1), field_style(f == 1)) + seq![
        text_line(""@),
        line("Notes:"@, field_style(f == 2)),
    ] + field_lines(with_cursor(b.notes, f == 2), field_style(f == 2)) + seq![
        text_line(""@),
        line("Tab: Next field  |  Enter: Save  |  Esc: Cancel"@, fg(Color::DarkGray)),
    ]
}

/// The task editor, on a screen of the given size.
pub open spec fn editor_popup(a: AppView, width: u16, height: u16) -> PopupView {
    PopupView {
        area: centered(width, height, at_most(width, 60), at_most(height, 18)),
        border: Color::Cyan,
        panel: PanelView {
            title: match a.edit_mode {
                EditModeView::NewTask => " New Task "@,
                EditModeView::EditingTask(_) => " Edit Task "@,
                _ => " Task "@,
            },
            lines: editor_lines(a),
        },
    }
}

/// The question whether a task is to be deleted.
pub open spec fn delete_popup(task_id: Seq<char>, width: u16, height: u16) -> PopupView {
    PopupView {
        area: centered(width, height, at_most(width, 50), 7),
        border: Color::Red,
        panel: PanelView {
            title: " Confirm Delete "@,
            lines: seq![
                text_line(""@),
                text_line("Delete task '"@ + task_id + "'?"@),
                text_line(""@),
                line("y: Yes, delete  |  n: No, cancel"@, fg(Color::Yellow)),
            ],
        },
    }
}

/// A change in the summary of a diff: its status letter and its path, behind the
/// former path where there is one.
pub open spec fn change_text(c: FileChangeView) -> Seq<char> {
    seq![change_letter(c.change_type)] + "  "@ + (match c.old_path {
        Some(old) => old + " -> "@,
        None => Seq::empty(),
    }) + c.path
}

/// The lines of the summary of a diff.
pub open spec fn diff_lines(changes: Seq<FileChangeView>) -> Seq<Seq<SpanView>> {
    changes.map_values(|c: FileChangeView| text_line(change_text(c))) + (if changes.len() == 0 {
        seq![text_line("No changes"@)]
    } else {
        Seq::empty()
    }) + seq![text_line(""@), line("Esc: Close"@, fg(Color::DarkGray))]
}

/// The summary of a diff.
pub open spec fn diff_popup(changes: Seq<FileChangeView>, width: u16, height: u16) -> PopupView {
    PopupView {
        area: centered(width, height, at_most(width, 60), at_most(height, 18)),
        border: Color::Cyan,
        panel: PanelView { title: " Diff Summary "@, lines: diff_lines(changes) },
    }
}

/// The migration menu.
pub open spec fn menu_popup(width: u16, height: u16) -> PopupView {
    PopupView {
        area: centered(width, height, at_most(width, 55), 12),
        border: Color::Yellow,
        panel: PanelView {
            title: " Archon Migration "@,
            lines: seq![
                text_line(""@),
                text_line("Archon Task Migration"@),
                text_line(""@),
                line("  1 / l : Push local tasks to Archon"@, fg(Color::Cyan)),
                text_line(""@),
                line("  2 / a : Pull tasks from Archon to local"@, fg(Color::Cyan)),
                text_line(""@),
                text_line(""@),
                line("Esc / q : Cancel"@, fg(Color::DarkGray)),
            ],
        },
    }
}

/// The note that a migration is under way.
pub open spec fn progress_popup(width: u16, height: u16) -> PopupView {
    PopupView {
        area: centered(width, height, at_most(width, 40), 5),
        border: Color::Yellow,
        panel: PanelView {
            title: " Migrating "@,
            lines: seq![
                text_line(""@),
                line("Migration in progress..."@, fg(Color::Yellow)),
            ],
        },
    }
}

/// What lies over the main screen.
pub open spec fn overlay_of(a: AppView, width: u16, height: u16) -> Option<PopupView> {
    match a.edit_mode {
        EditModeView::Inactive => match a.diff {
            Some(changes) => Some(diff_popup(changes, width, height)),
            None => None,
        },
        EditModeView::NewTask => Some(editor_popup(a, width, height)),
        EditModeView::EditingTask(_) => Some(editor_popup(a, width, height)),
        EditModeView::ConfirmDelete(id) => Some(delete_popup(id, width, height)),
        EditModeView::MigrationMenu => Some(menu_popup(width, height)),
        EditModeView::MigrationInProgress(_) => Some(progress_popup(width, height)),
    }
}

fn text_of_change(change: &FileChange) -> (r: String)
    ensures
        r@ == change_text(change@),
{
    let mut text = String::new();
    text.push(change.change_type.letter());
    text.append("  ");
    match &change.old_path {
        Some(old) => {
            text.append(old.as_str());
            text.append(" -> ");
        },
        None => {},
    }
    text.append(change.path.as_str());
    assert(text@ =~= change_text(change@));
    text
}

fn cursored(text: &str, focused: bool) -> (r: String)
    ensures
        r@ == with_cursor(text@, focused),
{
    if focused {
        owned(text).concat("_")
    } else {
        owned(text)
    }
}

fn push_field(out: &mut Vec<Line>, text: &str, style: Style)
    ensures
        views(final(out)@) == views(old(out)@) + field_lines(text@, style),
{
    broadcast use lemma_views_push;

    let v = chars_of(text);
    let ls = lines_of(&v);
    let n = ls.len();
    let ghost before = views(out@);
    let ghost lv = lines(text@);
    let ghost body = lv.map_values(|l: Seq<char>| line("  "@ + l, style));
    assert(before + body.take(0) =~= before);
    for i in 0..n
        invariant
            n == ls@.len(),
            lv == views(ls@),
            body == lv.map_values(|l: Seq<char>| line("  "@ + l, style)),
            views(out@) == before + body.take(i as int),
    {
        broadcast use lemma_views_push;

        assert(lv[i as int] == ls@[i as int]@);
        out.push(Line::styled(owned("  ").concat(string_of(&ls[i]).as_str()).as_str(), style));
        assert(body.take(i + 1) =~= body.take(i as int).push(body[i as int]));
        assert(views(out@) =~= before + body.take(i + 1));
    }
    assert(body.take(n as int) =~= body);
    if v.len() == 0 || ends(&v, &chars_of("\n")) {
        out.push(Line::styled("  ", style));
    }
    assert(views(out@) =~= before + field_lines(text@, style));
}

fn draw_editor_lines(app: &App) -> (r: Vec<Line>)
    ensures
        views(r@) == editor_lines(app@),
{
    broadcast use lemma_views_push;

    let f = app.edit_buffer.focused_field;
    let s0 = style_of_field(f == 0);
    let s1 = style_of_field(f == 1);
    let s2 = style_of_field(f == 2);
    let title = cursored(app.edit_buffer.title.as_str(), f == 0);
    let acceptance = cursored(app.edit_buffer.acceptance.as_str(), f == 1);
    let notes = cursored(app.edit_buffer.notes.as_str(), f == 2);
    let mut out = vec![
        Line::styled("Title:", s0),
        Line::styled(owned("  ").concat(title.as_str()).as_str(), s0),
        Line::raw(""),
        Line::styled("Acceptance Criteria (one per line):", s1),
    ];
    let ghost head = views(out@);
    assert(head =~= seq![
        line("Title:"@, s0),
        line("  "@ + title@, s0),
        text_line(""@),
        line("Acceptance Criteria (one per line):"@, s1),
    ]);
    push_field(&mut out, acceptance.as_str(), s1);
    out.push(Line::raw(""));
    out.push(Line::styled("Notes:", s2));
    let ghost middle = seq![text_line(""@), line("Notes:"@, s2)];
    assert(views(out@) =~= head + field_lines(acceptance@, s1) + middle);
    push_field(&mut out, notes.as_str(), s2);
    out.push(Line::raw(""));
    out.push(
        Line::styled(
            "Tab: Next field  |  Enter: Save  |  Esc: Cancel",
            Style::fg(Color::DarkGray),
        ),
    );
    assert(views(out@) =~= head + field_lines(acceptance@, s1) + middle + field_lines(notes@, s2)
        + seq![
        text_line(""@),
        line("Tab: Next field  |  Enter: Save  |  Esc: Cancel"@, fg(Color::DarkGray)),
    ]);
    out
}

/// Draw task editor overlay, on a screen of the given size.
pub fn draw_task_editor_overlay(app: &App, width: u16, height: u16) -> (r: Popup)
    ensures
        r@ == editor_popup(app@, width, height),
{
    let title = match &app.edit_mode {
        EditMode::NewTask => " New Task ",
        EditMode::EditingTask(_) => " Edit Task ",
        _ => " Task ",
    };
    Popup {
        area: Area::centered(width, height, shorter(width, 60), shorter(height, 18)),
        border: Color::Cyan,
        panel: Panel { title: owned(title), lines: draw_editor_lines(app) },
    }
}

/// Draw delete confirmation overlay, on a screen of the given size.
pub fn draw_delete_confirm_overlay(task_id: &str, width: u16, height: u16) -> (r: Popup)
    ensures
        r@ == delete_popup(task_id@, width, height),
{
    let question = owned("Delete task '").concat(task_id).concat("'?");
    let lines = vec![
        Line::raw(""),
        Line::raw(question.as_str()),
        Line::raw(""),
        Line::styled("y: Yes, delete  |  n: No, cancel", Style::fg(Color::Yellow)),
    ];
    assert(views(lines@) =~= delete_popup(task_id@, width, height).panel.lines);
    Popup {
        area: Area::centered(width, height, shorter(width, 50), 7),
        border: Color::Red,
        panel: Panel { title: owned(" Confirm Delete "), lines },
    }
}

/// Draw migration menu overlay, on a screen of the given size.
pub fn draw_migration_menu_overlay(width: u16, height: u16) -> (r: Popup)
    ensures
        r@ == menu_popup(width, height),
{
    let lines = vec![
        Line::raw(""),
        Line::raw("Archon Task Migration"),
        Line::raw(""),
        Line::styled("  1 / l : Push local tasks to Archon", Style::fg(Color::Cyan)),
        Line::raw(""),
        Line::styled("  2 / a : Pull tasks from Archon to local", Style::fg(Color::Cyan)),
        Line::raw(""),
        Line::raw(""),
        Line::styled("Esc / q : Cancel", Style::fg(Color::DarkGray)),
    ];
    assert(views(lines@) =~= menu_popup(width, height).panel.lines);
    Popup {
        area: Area::centered(width, height, shorter(width, 55), 12),
        border: Color::Yellow,
        panel: Panel { title: owned(" Archon Migration "), lines },
    }
}

/// Draw migration progress overlay, on a screen of the given size.
pub fn draw_migration_progress_overlay(width: u16, height: u16) -> (r: Popup)
    ensures
        r@ == progress_popup(width, height),
{
    let lines = vec![
        Line::raw(""),
        Line::styled("Migration in progress...", Style::fg(Color::Yellow)),
    ];
    assert(views(lines@) =~= progress_popup(width, height).panel.lines);
    Popup {
        area: Area::centered(width, height, shorter(width, 40), 5),
        border: Color::Yellow,
        panel: Panel { title: owned(" Migrating "), lines },
    }
}

/// Draw the summary of a diff, on a screen of the given size.
pub fn draw_diff_overlay(changes: &Vec<FileChange>, width: u16, height: u16) -> (r: Popup)
    ensures
        r@ == diff_popup(views(changes@), width, height),
{
    broadcast use lemma_views_push;

    let n = changes.len();
    let mut out: Vec<Line> = Vec::new();
    let ghost cv = views(changes@);
    let ghost body = cv.map_values(|c: FileChangeView| text_line(change_text(c)));
    assert(views(out@) =~= body.take(0));
    for i in 0..n
        invariant
            n == changes@.len(),
            cv == views(changes@),
            body == cv.map_values(|c: FileChangeView| text_line(change_text(c))),
            views(out@) == body.take(i as int),
    {
        broadcast use lemma_views_push;

        assert(cv[i as int] == changes@[i as int]@);
        out.push(Line::raw(text_of_change(&changes[i]).as_str()));
        assert(body.take(i + 1) =~= body.take(i as int).push(body[i as int]));
    }
    assert(body.take(n as int) =~= body);
    if n == 0 {
        out.push(Line::raw("No changes"));
    }
    out.push(Line::raw(""));
    out.push(Line::styled("Esc: Close", Style::fg(Color::DarkGray)));
    assert(views(out@) =~= diff_lines(cv));
    Popup {
        area: Area::centered(width, height, shorter(width, 60), shorter(height, 18)),
        border: Color::Cyan,
        panel: Panel { title: owned(" Diff Summary "), lines: out },
    }
}

/// Draw what lies over the main screen, if anything does.
pub fn draw_overlay(app: &App, width: u16, height: u16) -> (r: Option<Popup>)
    ensures
        opt_view(r) == overlay_of(app@, width, height),
{
    match &app.edit_mode {
        EditMode::Inactive => match &app.diff {
            Some(changes) => Some(draw_diff_overlay(changes, width, height)),
            None => None,
        },
        EditMode::NewTask => Some(draw_task_editor_overlay(app, width, height)),
        EditMode::EditingTask(_) => Some(draw_task_editor_overlay(app, width, height)),
        EditMode::ConfirmDelete(id) => Some(
            draw_delete_confirm_overlay(id.as_str(), width, height),
        ),
        EditMode::MigrationMenu => Some(draw_migration_menu_overlay(width, height)),
        EditMode::MigrationInProgress(_) => Some(draw_migration_progress_overlay(width, height)),
    }
}

/// Aborting, retrying and skipping are offered exactly while a run is running or
/// paused.
pub proof fn law_hints_follow_state(a: AppView)
    ensures
        footer_line(a).contains(span(" a "@, reversed(plain()))) <==> is_active(a),
        footer_line(a).contains(span(" r "@, reversed(plain()))) <==> is_active(a),
        footer_line(a).contains(span(" s "@, reversed(plain()))) <==> is_active(a),
{
    reveal_strlit(" q ");
    reveal_strlit(" \u{2423} ");
    reveal_strlit(" a ");
    reveal_strlit(" s ");
    reveal_strlit(" n ");
    reveal_strlit(" e ");
    reveal_strlit(" d ");
    reveal_strlit(" r ");
    reveal_strlit(" x ");
    reveal_strlit(" Tab ");
    reveal_strlit(" l ");
    let line = footer_line(a);
    if is_active(a) {
        assert(line[4] == span(" a "@, reversed(plain())));
        assert(line[6] == span(" r "@, reversed(plain())));
        assert(line[8] == span(" s "@, reversed(plain())));
    } else {
        assert forall|i: int| 0 <= i < line.len() implies #[trigger] line[i] != span(
            " a "@,
            reversed(plain()),
        ) && line[i] != span(" r "@, reversed(plain())) && line[i] != span(
            " s "@,
            reversed(plain()),
        ) by {
            if i % 2 == 0 {
                assert(line[i].text.len() == 3 ==> line[i].text[1] != 'a' && line[i].text[1] != 'r'
                    && line[i].text[1] != 's');
                assert(" a "@[1] == 'a');
                assert(" r "@[1] == 'r');
                assert(" s "@[1] == 's');
            } else {
                assert(!line[i].style.reversed);
            }
        }
    }
}

/// No more log lines are shown than fit into the panel beside its borders.
pub proof fn law_log_fits_panel(a: AppView, height: u16)
    requires
        a.log_lines.len() > 0,
    ensures
        log_panel(a, height).lines.len() <= less(height as int, 2),
{
}

} // verus!
