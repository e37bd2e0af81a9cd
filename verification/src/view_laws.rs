//! What the screens show.

use vstd::prelude::*;

use crate::config::GitMode;
use crate::number::{decimal, two_digits};
use crate::run::RunState;
use crate::screen::{fg, Color};
use crate::search::{contains, lines};
use crate::task::{TaskStatus, TaskView};
use crate::tui::{clock_text, AppView, DetectedView, EditModeView, LogSource, SetupStep, SetupView};
use crate::tui_view::{
    details_panel, detected_line, detected_spans, editor_lines, footer_line, header_line, imported_lines,
    lines_in_sight, list_panel, log_panel, log_style, numbered_lines, overlay_of, review_lines,
    setup_header, setup_panel, task_details,
};

verus! {

// --------------------------------------------------------------------- the tasks

/// The list shows every task on a line of its own, in order: a mark for its
/// status, and its title. The selected one is pointed at.
pub proof fn law_list_shows_each_task(a: AppView, i: int)
    requires
        0 <= i < a.tasks.tasks.len(),
    ensures
        ({
            let shown = list_panel(a).lines;
            let task = a.tasks.tasks[i];
            let mark = if task.status == TaskStatus::Done {
                "[x]"@
            } else if task.status == TaskStatus::InProgress {
                "[>]"@
            } else if task.status == TaskStatus::Blocked {
                "[!]"@
            } else {
                "[ ]"@
            };
            &&& shown.len() == a.tasks.tasks.len()
            &&& shown[i].len() == 3
            &&& shown[i][0].text == (if i == a.selected_task_index {
                ">"@
            } else {
                " "@
            })
            &&& shown[i][1].text == mark + " "@
            &&& shown[i][2].text == task.title
            &&& shown[i][2].style.reversed <==> i == a.selected_task_index
            &&& shown[i][1].style == shown[i][2].style
            &&& list_panel(a).title == " Tasks ("@ + decimal(a.tasks.tasks.len()) + ") "@
        }),
{
}

/// The details of the selected task tell its identifier, title, status, each of
/// its criteria in order, and its notes, where there are any.
pub proof fn law_details_tell_the_task(a: AppView)
    requires
        a.selected_task_index < a.tasks.tasks.len(),
    ensures
        ({
            let task = a.tasks.tasks[a.selected_task_index as int];
            let shown = details_panel(a).lines;
            let n = task.acceptance.len() as int;
            let extra: int = if n > 0 {
                n + 2
            } else {
                0
            };
            &&& shown[0][0].text == "ID: "@ && shown[0][1].text == task.id
            &&& shown[1][0].text == "Title: "@ && shown[1][1].text == task.title
            &&& shown[2][0].text == "Status: "@
            &&& task.status == TaskStatus::Todo ==> shown[2][1].text == "Todo"@
            &&& task.status == TaskStatus::InProgress ==> shown[2][1].text == "InProgress"@
            &&& task.status == TaskStatus::Done ==> shown[2][1].text == "Done"@
            &&& task.status == TaskStatus::Blocked ==> shown[2][1].text == "Blocked"@
            &&& n > 0 ==> shown[4][0].text == "Acceptance Criteria:"@
            &&& forall|k: int|
                0 <= k < n ==> (#[trigger] shown[5 + k])[0].text == "  - "@ + task.acceptance[k]
            &&& task.notes is None ==> shown.len() == 4 + extra
            &&& task.notes is Some ==> shown.len() == 5 + extra && shown.last()[0].text
                == "Notes: "@ && shown.last()[1].text == task.notes->0
        }),
{
    let task = a.tasks.tasks[a.selected_task_index as int];
    let shown = details_panel(a).lines;
    assert(shown == task_details(task));
    assert forall|k: int| 0 <= k < task.acceptance.len() implies (#[trigger] shown[5 + k])[0].text
        == "  - "@ + task.acceptance[k] by {}
}

/// Without a selected task the details say so.
pub proof fn law_no_details_without_task(a: AppView)
    requires
        a.selected_task_index >= a.tasks.tasks.len(),
    ensures
        details_panel(a).lines.len() == 1,
        details_panel(a).lines[0][0].text == "No current task"@,
{
}

// --------------------------------------------------------------------- the header

/// The header tells the run, its state, the iteration and the time since its
/// start.
pub proof fn law_header_tells_the_run(a: AppView, now_ms: u64)
    requires
        a.run is Some,
    ensures
        ({
            let run = a.run->0;
            let h = header_line(a, now_ms);
            let elapsed: int = if now_ms > run.started_at {
                now_ms - run.started_at
            } else {
                0
            };
            &&& h.len() == 8
            &&& h[1].text == run.run_id
            &&& h[5].text == decimal(run.iteration as nat)
            &&& h[7].text == clock_text((elapsed / 1000) as nat)
            &&& run.state == RunState::Running && !a.user_paused ==> h[3].text == "RUNNING"@
            &&& run.state == RunState::Running && a.user_paused ==> h[3].text == "PAUSING"@
            &&& run.state == RunState::Paused ==> h[3].text == "PAUSED"@
            &&& run.state == RunState::Completed ==> h[3].text == "COMPLETED"@
            &&& run.state == RunState::Aborted ==> h[3].text == "ABORTED"@
            &&& run.state == RunState::Idle ==> h[3].text == "IDLE"@
        }),
{
}

/// Without a run the header says so.
pub proof fn law_header_without_run(a: AppView, now_ms: u64)
    requires
        a.run is None,
    ensures
        header_line(a, now_ms)[1].text == "none"@,
        header_line(a, now_ms)[3].text == "NO RUN"@,
        header_line(a, now_ms)[5].text == decimal(0),
        header_line(a, now_ms)[7].text == "--:--:--"@,
{
}

// ------------------------------------------------------------------------ the log

/// The log shows the last lines that fit, or, scrolled up by so many lines, those
/// before them, in order.
pub proof fn law_log_shows_last_lines(a: AppView, height: u16)
    requires
        a.log_scroll_offset <= a.log_lines.len(),
        height >= 2,
    ensures
        ({
            let end = a.log_lines.len() - a.log_scroll_offset;
            let room = height - 2;
            let start = if end > room {
                end - room
            } else {
                0
            };
            let shown = lines_in_sight(a, height);
            &&& shown.len() == end - start
            &&& forall|k: int|
                0 <= k < shown.len() ==> #[trigger] shown[k] == a.log_lines[start + k]
        }),
{
}

/// Every line in sight is shown as it is.
pub proof fn law_log_lines_are_shown(a: AppView, height: u16)
    ensures
        a.log_lines.len() > 0 ==> log_panel(a, height).lines.len() == lines_in_sight(
            a,
            height,
        ).len() && forall|k: int|
            0 <= k < lines_in_sight(a, height).len() ==> (#[trigger] log_panel(
                a,
                height,
            ).lines[k])[0].text == lines_in_sight(a, height)[k],
        a.log_lines.len() == 0 ==> log_panel(a, height).lines.len() == 1 && log_panel(
            a,
            height,
        ).lines[0][0].text == "No log output yet"@,
{
}

/// Errors are red, warnings yellow where there is no error, and successes green
/// where there is neither.
pub proof fn law_log_colors(s: Seq<char>)
    ensures
        ({
            let bad = contains(s, "error"@) || contains(s, "ERROR"@) || contains(s, "FAIL"@);
            let odd = contains(s, "warning"@) || contains(s, "WARN"@);
            let good = contains(s, "PASS"@) || contains(s, "success"@);
            &&& bad <==> log_style(s) == fg(Color::Red)
            &&& !bad && odd <==> log_style(s) == fg(Color::Yellow)
            &&& !bad && !odd && good <==> log_style(s) == fg(Color::Green)
        }),
{
}

// --------------------------------------------------------------------- the footer

/// The footer tells what Space does, and which log `l` shows.
pub proof fn law_footer_tells_keys(a: AppView)
    ensures
        ({
            let f = footer_line(a);
            let state = if a.run is Some {
                Some(a.run->0.state)
            } else {
                None
            };
            &&& f[0].text == " q "@ && f[1].text == " Quit  "@
            &&& f[2].text == " \u{2423} "@
            &&& state == Some(RunState::Running) ==> f[3].text == " Pause  "@
            &&& state == Some(RunState::Paused) ==> f[3].text == " Resume  "@
            &&& state != Some(RunState::Running) && state != Some(RunState::Paused) ==> f[3].text
                == " Start  "@
            &&& f[f.len() - 2].text == " l "@
            &&& a.log_source == LogSource::Agent ==> f.last().text == " "@ + "Validator"@ + " "@
            &&& a.log_source == LogSource::Validator ==> f.last().text == " "@ + "Agent"@ + " "@
        }),
{
}

// ------------------------------------------------------------------- the overlays

/// What lies over the screen is the editor, the question, the menu, the progress
/// of a migration or the summary of a diff, whichever is open, and else nothing.
pub proof fn law_overlay_is_what_is_open(a: AppView, width: u16, height: u16)
    ensures
        ({
            let o = overlay_of(a, width, height);
            &&& a.edit_mode is Inactive && a.diff is None <==> o is None
            &&& a.edit_mode is NewTask ==> o->0.panel.title == " New Task "@
            &&& a.edit_mode is EditingTask ==> o->0.panel.title == " Edit Task "@
            &&& a.edit_mode matches EditModeView::ConfirmDelete(id) ==> o->0.panel.title
                == " Confirm Delete "@ && o->0.panel.lines[1][0].text == "Delete task '"@ + id
                + "'?"@
            &&& a.edit_mode is MigrationMenu ==> o->0.panel.title == " Archon Migration "@
            &&& a.edit_mode is MigrationInProgress ==> o->0.panel.title == " Migrating "@
            &&& a.edit_mode is Inactive && a.diff is Some ==> o->0.panel.title
                == " Diff Summary "@
        }),
{
}

/// The summary of a diff has a line for each change, in order, with its letter
/// and its path.
pub proof fn law_diff_shows_each_change(a: AppView, width: u16, height: u16, k: int)
    requires
        a.edit_mode is Inactive,
        a.diff is Some,
        0 <= k < a.diff->0.len(),
    ensures
        ({
            let shown = overlay_of(a, width, height)->0.panel.lines;
            let change = a.diff->0[k];
            let letter = crate::workspace::change_letter(change.change_type);
            &&& shown.len() == a.diff->0.len() + 2
            &&& change.old_path is None ==> shown[k][0].text == seq![letter] + "  "@ + change.path
            &&& change.old_path is Some ==> shown[k][0].text == seq![letter] + "  "@ + (
            change.old_path->0 + " -> "@) + change.path
        }),
{
    let change = a.diff->0[k];
    let letter = crate::workspace::change_letter(change.change_type);
    assert(seq![letter] + "  "@ + Seq::empty() + change.path =~= seq![letter] + "  "@
        + change.path);
}

/// The editor shows what its fields hold, with the cursor in the focused one.
pub proof fn law_editor_shows_fields(a: AppView)
    ensures
        ({
            let b = a.edit_buffer;
            let shown = editor_lines(a);
            &&& shown[0][0].text == "Title:"@
            &&& b.focused_field == 0 ==> shown[1][0].text == "  "@ + (b.title + "_"@)
            &&& b.focused_field != 0 ==> shown[1][0].text == "  "@ + b.title
            &&& b.focused_field != 1 ==> forall|k: int|
                0 <= k < lines(b.acceptance).len() ==> (#[trigger] shown[4 + k])[0].text == "  "@
                    + lines(b.acceptance)[k]
        }),
{
}

// --------------------------------------------------------------------- the wizard

/// The wizard tells at which of its six steps it is.
pub proof fn law_wizard_tells_step(step: SetupStep)
    ensures
        ({
            let h = setup_header(step)[2].text;
            &&& step == SetupStep::Welcome ==> h == "Step "@ + decimal(1) + "/6: "@ + "Welcome"@
            &&& step == SetupStep::AgentConfig ==> h == "Step "@ + decimal(2) + "/6: "@
                + "Agent Configuration"@
            &&& step == SetupStep::GitMode ==> h == "Step "@ + decimal(3) + "/6: "@ + "Git Mode"@
            &&& step == SetupStep::Archon ==> h == "Step "@ + decimal(4) + "/6: "@
                + "Archon Integration"@
            &&& step == SetupStep::Tasks ==> h == "Step "@ + decimal(5) + "/6: "@ + "Tasks"@
            &&& step == SetupStep::Review ==> h == "Step "@ + decimal(6) + "/6: "@
                + "Review & Save"@
        }),
{
}

/// The command is shown as it is typed, with the cursor behind it.
pub proof fn law_wizard_shows_command(s: SetupView)
    requires
        s.step == SetupStep::AgentConfig,
    ensures
        setup_panel(s).lines[3][0].text == "> "@ + s.agent_cmd + "_"@,
        setup_panel(s).lines[6][0].text == "  "@ + s.default_cmd,
{
}

/// The chosen git mode is the one that stands out.
pub proof fn law_wizard_shows_mode(s: SetupView)
    requires
        s.step == SetupStep::GitMode,
    ensures
        ({
            let shown = setup_panel(s).lines;
            &&& shown[3][1].text == " Branch "@ && shown[5][1].text == " Trunk  "@
            &&& shown[3][1].style.reversed <==> s.git_mode == GitMode::Branch
            &&& shown[5][1].style.reversed <==> s.git_mode == GitMode::Trunk
        }),
{
}

/// The boxes are ticked as the settings say.
pub proof fn law_wizard_shows_settings(s: SetupView)
    requires
        s.step == SetupStep::Archon,
    ensures
        ({
            let shown = setup_panel(s).lines;
            &&& s.archon.enabled ==> shown[6][1].text == "[x]"@ + " Enable Archon"@
            &&& !s.archon.enabled ==> shown[6][1].text == "[ ]"@ + " Enable Archon"@
            &&& s.archon.use_rag ==> shown[10][1].text == "[x]"@ + " Use Archon RAG for context"@
            &&& !s.archon.use_rag ==> shown[10][1].text == "[ ]"@ + " Use Archon RAG for context"@
            &&& s.focused_field == 1 ==> shown[8][2].text == s.archon_project_id_input + "_"@
        }),
{
}

/// The tasks are listed in order, each with its number and title.
pub proof fn law_wizard_lists_tasks(ts: Seq<TaskView>, t: TaskView)
    ensures
        imported_lines(ts.push(t)).len() == imported_lines(ts).len() + 1,
        imported_lines(ts.push(t)).drop_last() == imported_lines(ts),
        imported_lines(ts.push(t)).last()[0].text == "  "@ + decimal(ts.len() + 1) + ". "@,
        imported_lines(ts.push(t)).last()[1].text == t.title,
        t.acceptance.len() > 0 ==> imported_lines(ts.push(t)).last()[2].text == " ("@ + decimal(
            t.acceptance.len(),
        ) + " criteria)"@,
        numbered_lines(ts.push(t)).drop_last() == numbered_lines(ts),
        numbered_lines(ts.push(t)).last()[0].text == "  "@ + decimal(ts.len() + 1) + ". "@
            + t.title,
{
    assert(ts.push(t).drop_last() =~= ts);
    assert(imported_lines(ts.push(t)).drop_last() =~= imported_lines(ts));
    assert(numbered_lines(ts.push(t)).drop_last() =~= numbered_lines(ts));
}

/// The summary tells what will be saved.
pub proof fn law_wizard_sums_up(s: SetupView)
    ensures
        ({
            let shown = review_lines(s);
            &&& shown[3][0].text == "  Agent command: "@ + s.agent_cmd
            &&& s.git_mode == GitMode::Branch ==> shown[4][0].text == "  Git mode: "@
                + "branch (safe)"@
            &&& s.git_mode == GitMode::Trunk ==> shown[4][0].text == "  Git mode: "@
                + "trunk (direct commits)"@
            &&& !s.archon.enabled ==> shown[5][0].text == "  Archon: "@ + "disabled"@
            &&& s.tasks.len() > 0 ==> shown[6][0].text == "  Tasks: "@ + decimal(s.tasks.len())
        }),
{
}

/// The files that were detected are named, in a fixed order, and no others.
pub proof fn law_detected_files_are_named(d: DetectedView)
    ensures
        ({
            let s = detected_spans(d);
            let count = |b: bool|
                if b {
                    1int
                } else {
                    0int
                };
            &&& s.len() == count(d.is_git_repo) + count(d.mission is Some) + count(d.prd is Some)
                + count(d.tech is Some) + count(d.task_file is Some)
            &&& d.is_git_repo ==> s[0].text == "git "@
            &&& d.mission is Some ==> s[count(d.is_git_repo)].text == "mission.md "@
            &&& d.prd is Some ==> s[count(d.is_git_repo) + count(d.mission is Some)].text
                == "prd.md "@
            &&& d.task_file is Some ==> s.last().text == "ralpher.prd.json "@
            &&& detected_line(d).len() == 1 + (if s.len() == 0 {
                1
            } else {
                s.len() as int
            })
        }),
{
}

/// A time is shown as hours, minutes and seconds, of two digits each at least.
pub proof fn law_clock_shows_time(hours: nat, minutes: nat, seconds: nat)
    requires
        minutes < 60,
        seconds < 60,
    ensures
        clock_text(3600 * hours + 60 * minutes + seconds) == two_digits(hours) + ":"@ + two_digits(
            minutes,
        ) + ":"@ + two_digits(seconds),
{
    let secs = 3600 * hours + 60 * minutes + seconds;
    assert(secs / 3600 == hours) by (nonlinear_arith)
        requires
            secs == 3600 * hours + 60 * minutes + seconds,
            minutes < 60,
            seconds < 60,
    ;
    assert(secs % 3600 == 60 * minutes + seconds) by (nonlinear_arith)
        requires
            secs == 3600 * hours + 60 * minutes + seconds,
            minutes < 60,
            seconds < 60,
    ;
    assert((60 * minutes + seconds) / 60 == minutes);
    assert(secs % 60 == seconds) by (nonlinear_arith)
        requires
            secs == 3600 * hours + 60 * minutes + seconds,
            seconds < 60,
    ;
}

} // verus!
