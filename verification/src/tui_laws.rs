//! What holds of the terminal interface, whatever keys are pressed.

use vstd::prelude::*;

use crate::iteration_laws::is_first_with_id;
use crate::letters::uppercase;
use crate::number::{decimal, two_digits};
use crate::path::join_path;
use crate::run::{EngineView, Run, RunState};
use crate::search::{join, lemma_split_append, lines, split, without_cr};
use crate::task::{
    id_index, law_new_id_is_free, lemma_id_index, TaskList, TaskStatus, TaskView,
};
use crate::text::{opt_view, trim, trim_end, views};
use crate::tui::{
    clock_text, delete_applied, delete_finished, delete_requested, detected_in, edit_applied,
    edit_cancelled, edit_finished, editing_new, editing_selected, entries_lines, events_in,
    exit_text, filled_lines, first_existing, iteration_file_path, log_text, refreshed,
    report_lines, toggled, wants_iteration, with_agent_log, with_events, without_id, AppView,
    BufferView, EditModeView, EventChunk, EventLine, LogChunk, LogRead, Refreshed, ReportEntry,
    SetupStep, SetupView, ValidatorReport, EVENT_LIMIT, LOG_LIMIT,
};
use crate::tui_input::{
    added_task, erased, iteration_followed, iteration_turn, loop_turn, next_field, normal_key, quit_step,
    scroll_down, scroll_up, settled, setup_backspace, setup_enter, shown_state, typed, with_project,
    Key, KeyCode, LoopStepView, NormalActionView, NormalStep, Pending,
};

verus! {

/// Whether the selection is one of the tasks, or the first place where there is
/// none.
pub open spec fn selection_in_range(a: AppView) -> bool {
    a.selected_task_index == 0 || a.selected_task_index < a.tasks.tasks.len()
}

/// Whether the scroll offset leaves a line in sight.
pub open spec fn scroll_in_range(a: AppView) -> bool {
    a.log_scroll_offset == 0 || a.log_scroll_offset < a.log_lines.len()
}

/// Whatever key is pressed in normal mode, the selection stays among the tasks
/// and the log in sight, and neither the tasks nor the events change.
pub proof fn law_normal_keys_keep_range(
    a: AppView,
    engine: Option<EngineView>,
    key: Key,
    now: u64,
)
    requires
        selection_in_range(a),
        scroll_in_range(a),
    ensures
        selection_in_range(normal_key(a, engine, key, now).app),
        scroll_in_range(normal_key(a, engine, key, now).app),
        normal_key(a, engine, key, now).app.tasks == a.tasks,
        normal_key(a, engine, key, now).app.events == a.events,
{
}

/// `d` asks for the summary of the diff and changes nothing.
pub proof fn law_diff_key_changes_nothing(
    a: AppView,
    engine: Option<EngineView>,
    control: bool,
    now: u64,
)
    ensures
        normal_key(a, engine, Key { code: KeyCode::Char('d'), control }, now) == (NormalStep {
            app: a,
            engine,
            action: NormalActionView::OpenDiff,
        }),
{
}

/// `r` leads to an iteration at once, be the run running or paused, as long as
/// the limit is not reached.
pub proof fn law_retry_iterates(a: AppView, e: EngineView, control: bool, now: u64)
    requires
        shown_state(a) == Some(e.run.state),
        e.run.state == RunState::Running || e.run.state == RunState::Paused,
        e.run.iteration < e.config.max_iterations,
    ensures
        ({
            let s = normal_key(a, Some(e), Key { code: KeyCode::Char('r'), control }, now);
            let next = settled(s.app, Pending::Retry, None);
            &&& s.action matches NormalActionView::Perform(Pending::Retry, _)
            &&& s.engine matches Some(x) && x.run.state == RunState::Running
            &&& !next.user_paused
            &&& iteration_turn(next, s.engine) == (next, s.engine, LoopStepView::Iterate)
        }),
{
}

/// A new task has an identifier that no task has, in the wizard as in the
/// editor.
pub proof fn law_new_tasks_have_new_ids(a: AppView)
    ensures
        forall|i: int|
            0 <= i < a.tasks.tasks.len() ==> (#[trigger] a.tasks.tasks[i]).id != editing_new(
                a,
            ).edit_buffer.id,
        forall|i: int|
            0 <= i < a.setup.tasks.len() ==> (#[trigger] a.setup.tasks[i]).id != added_task(
                a.setup.tasks,
            ).id,
{
    law_new_id_is_free(a.tasks.tasks);
    law_new_id_is_free(a.setup.tasks);
}

/// A new task is selected once it is saved, an edited one leaves the selection
/// as it is.
pub proof fn law_edit_keeps_range(a: AppView)
    requires
        selection_in_range(a),
    ensures
        selection_in_range(edit_finished(edit_applied(a))),
        a.edit_mode is NewTask ==> edit_finished(edit_applied(a)).selected_task_index
            == a.tasks.tasks.len() as usize,
{
    match a.edit_mode {
        EditModeView::EditingTask(id) => {
            lemma_id_index(a.tasks.tasks, id, 0);
        },
        _ => {},
    }
}

/// A deletion removes the tasks with the identifier that was to be deleted and
/// no others, and leaves the selection among the tasks.
pub proof fn law_delete_removes_task(a: AppView, id: Seq<char>)
    requires
        a.edit_mode == EditModeView::ConfirmDelete(id),
    ensures
        selection_in_range(delete_finished(delete_applied(a))),
        forall|t: TaskView| #[trigger]
            delete_applied(a).tasks.tasks.contains(t) <==> a.tasks.tasks.contains(t) && t.id != id,
{
    lemma_without_id(a.tasks.tasks, id);
}

proof fn lemma_without_id(ts: Seq<TaskView>, id: Seq<char>)
    ensures
        forall|t: TaskView| #[trigger]
            without_id(ts, id).contains(t) <==> ts.contains(t) && t.id != id,
    decreases ts.len(),
{
    if ts.len() > 0 {
        let front = ts.drop_last();
        lemma_without_id(front, id);
        let kept = without_id(front, id);
        assert forall|t: TaskView| #[trigger]
            without_id(ts, id).contains(t) <==> ts.contains(t) && t.id != id by {
            assert(ts =~= front.push(ts.last()));
            lemma_push_contains(front, ts.last(), t);
            lemma_push_contains(kept, ts.last(), t);
            assert(kept.contains(t) <==> front.contains(t) && t.id != id);
        }
    } else {
        assert forall|t: TaskView| #[trigger]
            without_id(ts, id).contains(t) <==> ts.contains(t) && t.id != id by {}
    }
}

proof fn lemma_push_contains<T>(s: Seq<T>, x: T, t: T)
    ensures
        s.push(x).contains(t) <==> s.contains(t) || t == x,
{
    if s.contains(t) {
        let i = choose|i: int| 0 <= i < s.len() && s[i] == t;
        assert(s.push(x)[i] == t);
    }
    assert(s.push(x)[s.len() as int] == x);
    if s.push(x).contains(t) && t != x {
        let i = choose|i: int| 0 <= i < s.push(x).len() && s.push(x)[i] == t;
        assert(s[i] == t);
    }
}

/// Changing the log source twice comes back to the first.
pub proof fn law_toggle_twice(a: AppView)
    ensures
        toggled(toggled(a)).log_source == a.log_source,
        toggled(a).log_source != a.log_source,
{
}

/// Scrolling up and down by the same amount comes back to where it began, as
/// long as the top is not reached.
pub proof fn law_scroll_up_then_down(a: AppView, amount: usize)
    requires
        a.log_scroll_offset + amount < a.log_lines.len(),
        a.log_lines.len() <= usize::MAX,
    ensures
        scroll_down(scroll_up(a, amount), amount) == a,
{
}

/// No more events are kept than the limit allows, and the last that were read
/// are among them.
pub proof fn law_events_are_bounded(a: AppView, chunk: EventChunk)
    requires
        chunk.error is None,
    ensures
        with_events(a, chunk).events.len() <= EVENT_LIMIT,
{
}

/// No more lines of the agent's log are kept than the limit allows.
pub proof fn law_log_is_bounded(a: AppView, chunk: LogChunk)
    requires
        chunk.error is None,
    ensures
        with_agent_log(a, chunk).log_lines.len() <= LOG_LIMIT,
{
}

/// In the wizard, Backspace undoes Enter but for the project, which stays noted,
/// and the focus, which goes back to the first field.
pub proof fn law_backspace_undoes_enter(s: SetupView)
    requires
        s.step == SetupStep::AgentConfig && trim(s.agent_cmd).len() > 0 || s.step
            == SetupStep::GitMode && s.focused_field != 1 || s.step == SetupStep::Archon || s.step
            == SetupStep::Tasks,
    ensures
        setup_backspace(setup_enter(s)) == (SetupView {
            archon: if s.step == SetupStep::Archon {
                with_project(s)
            } else {
                s.archon
            },
            focused_field: if s.step == SetupStep::GitMode {
                0
            } else {
                s.focused_field
            },
            ..s
        }),
{
}

/// In the editor, Backspace takes back the character that was typed last.
pub proof fn law_backspace_undoes_typing(b: BufferView, c: char)
    ensures
        erased(typed(b, c)) == b,
{
    assert(b.title.push(c).drop_last() =~= b.title);
    assert(b.acceptance.push(c).drop_last() =~= b.acceptance);
    assert(b.notes.push(c).drop_last() =~= b.notes);
}

/// Three times Tab comes back to the first field.
pub proof fn law_tab_cycles(field: usize)
    requires
        field < 3,
    ensures
        next_field(next_field(next_field(field))) == field,
{
}

/// Quitting leaves no run running.
pub proof fn law_quit_pauses(a: AppView, engine: Option<EngineView>)
    ensures
        quit_step(a, engine).app.should_quit,
        quit_step(a, engine).engine matches Some(e) ==> e.run.state != RunState::Running,
{
}

/// While the user has paused, no iteration runs.
pub proof fn law_no_iteration_while_paused(a: AppView, engine: Option<EngineView>, now: u64)
    requires
        a.user_paused,
    ensures
        loop_turn(a, engine, now) == (a, engine, LoopStepView::Wait),
{
}

/// No iteration runs beyond the configured number of them, nor of a run that
/// has ended.
pub proof fn law_iterations_are_limited(a: AppView, engine: Option<EngineView>, now: u64)
    ensures
        loop_turn(a, engine, now).2 is Iterate ==> (engine matches Some(e) && e.run.iteration
            < e.config.max_iterations && !crate::run::terminal(e.run.state)),
{
}

/// An iteration of a running run that does not succeed pauses it, and no other
/// follows.
pub proof fn law_failure_pauses(
    a: AppView,
    e: EngineView,
    success: Result<bool, Seq<char>>,
    now: u64,
)
    requires
        e.run.state == RunState::Running,
        success != Ok::<bool, Seq<char>>(true),
    ensures
        iteration_followed(a, e, success).1.run.state == RunState::Paused,
        iteration_followed(a, e, success).0.user_paused,
        !wants_iteration(iteration_followed(a, e, success).0, now),
{
}

/// A time of less than a hundred hours is shown in eight characters.
pub proof fn law_clock_width(secs: nat)
    requires
        secs < 360000,
    ensures
        clock_text(secs).len() == 8,
{
    reveal_strlit(":");
    lemma_two_digits_width(secs / 3600);
    lemma_two_digits_width(secs % 3600 / 60);
    lemma_two_digits_width(secs % 60);
}

proof fn lemma_two_digits_width(n: nat)
    requires
        n < 100,
    ensures
        two_digits(n).len() == 2,
{
    reveal_with_fuel(decimal, 2);
}

// ------------------------------------------------------------- editing round trip

/// Whether a text is a line of its own: trimmed, not empty, and without line
/// breaks.
pub open spec fn is_line(s: Seq<char>) -> bool {
    s.len() > 0 && trim(s) == s && !s.contains('\n')
}

/// Whether the editor can show a task in full: its title and notes are trimmed
/// and its criteria are lines.
pub open spec fn is_editable(t: TaskView) -> bool {
    &&& trim(t.title) == t.title
    &&& forall|i: int| 0 <= i < t.acceptance.len() ==> is_line(#[trigger] t.acceptance[i])
    &&& t.notes matches Some(n) ==> n.len() > 0 && trim(n) == n
}

/// An edit that is opened and saved as it is leaves the tasks as they were.
pub proof fn law_unchanged_edit_changes_nothing(a: AppView)
    requires
        a.selected_task_index < a.tasks.tasks.len(),
        is_editable(a.tasks.tasks[a.selected_task_index as int]),
        id_index(a.tasks.tasks, a.tasks.tasks[a.selected_task_index as int].id, 0) == Some(
            a.selected_task_index as int,
        ),
    ensures
        edit_applied(editing_selected(a)).tasks == a.tasks,
{
    let i = a.selected_task_index as int;
    let t = a.tasks.tasks[i];
    reveal_strlit("\n");
    assert("\n"@ =~= seq!['\n']);
    lemma_lines_of_join(t.acceptance);
    lemma_filled_lines(t.acceptance);
    assert(trim(Seq::<char>::empty()) =~= Seq::<char>::empty());
    assert(a.tasks.tasks.update(i, t) =~= a.tasks.tasks);
}

proof fn lemma_filled_lines(ls: Seq<Seq<char>>)
    requires
        forall|i: int| 0 <= i < ls.len() ==> is_line(#[trigger] ls[i]),
    ensures
        filled_lines(ls) == ls,
    decreases ls.len(),
{
    if ls.len() > 0 {
        let front = ls.drop_last();
        assert forall|i: int| 0 <= i < front.len() implies is_line(#[trigger] front[i]) by {
            assert(front[i] == ls[i]);
        }
        lemma_filled_lines(front);
        assert(is_line(ls[ls.len() - 1]));
        assert(front.push(ls.last()) =~= ls);
    } else {
        assert(filled_lines(ls) =~= ls);
    }
}

proof fn lemma_split_of_join(parts: Seq<Seq<char>>)
    requires
        parts.len() > 0,
        forall|i: int| 0 <= i < parts.len() ==> is_line(#[trigger] parts[i]),
    ensures
        split(join(parts, seq!['\n']), '\n') == parts,
    decreases parts.len(),
{
    if parts.len() == 1 {
        let s = parts[0];
        assert(is_line(s));
        assert forall|k: int| 0 <= k < s.len() implies #[trigger] s[k] != '\n' by {
            if s[k] == '\n' {
                assert(s.contains('\n'));
            }
        }
        crate::search::lemma_split_whole(s, '\n');
        assert(seq![s] =~= parts);
    } else {
        let front = parts.drop_last();
        assert forall|i: int| 0 <= i < front.len() implies is_line(#[trigger] front[i]) by {
            assert(front[i] == parts[i]);
        }
        lemma_split_of_join(front);
        assert(is_line(parts[parts.len() - 1]));
        lemma_split_append(join(front, seq!['\n']), '\n', parts.last());
        assert(front.push(parts.last()) =~= parts);
    }
}

proof fn lemma_no_carriage_return(s: Seq<char>)
    requires
        is_line(s),
    ensures
        without_cr(s) == s,
{
    if s.last() == '\r' {
        lemma_trim_last(s);
    }
}

proof fn lemma_trim_last(s: Seq<char>)
    requires
        s.len() > 0,
        crate::text::is_space(s.last()),
    ensures
        trim(s) != s,
{
    crate::text::lemma_trim_shorter(s);
}

proof fn lemma_lines_of_join(parts: Seq<Seq<char>>)
    requires
        forall|i: int| 0 <= i < parts.len() ==> is_line(#[trigger] parts[i]),
    ensures
        lines(join(parts, seq!['\n'])) == parts,
{
    let s = join(parts, seq!['\n']);
    if parts.len() == 0 {
        assert(s =~= Seq::<char>::empty());
        assert(split(s, '\n') =~= seq![Seq::<char>::empty()]);
        assert(lines(s) =~= parts);
    } else {
        lemma_split_of_join(parts);
        assert(is_line(parts[parts.len() - 1]));
        assert forall|i: int| 0 <= i < parts.len() implies #[trigger] lines(s)[i] == parts[i] by {
            assert(is_line(parts[i]));
            lemma_no_carriage_return(parts[i]);
        }
        assert(lines(s) =~= parts);
    }
}

// ------------------------------------------------------------ what an edit does

/// Whether the applications differ in nothing but the list of tasks, and that
/// not in its path.
pub open spec fn only_tasks_differ(a: AppView, b: AppView) -> bool {
    &&& b == (AppView { tasks: b.tasks, ..a })
    &&& b.tasks.path == a.tasks.path
}

/// What the editor holds is what the task says once the edit is applied: the
/// title, the criteria and the notes, trimmed. Its identifier, status and
/// validators stay, and so does every other task.
pub proof fn law_edit_is_taken_over(a: AppView, id: Seq<char>, i: int)
    requires
        a.edit_mode == EditModeView::EditingTask(id),
        is_first_with_id(a.tasks.tasks, id, i),
    ensures
        ({
            let b = edit_applied(a);
            let before = a.tasks.tasks[i];
            let after = b.tasks.tasks[i];
            &&& only_tasks_differ(a, b)
            &&& b.tasks.tasks.len() == a.tasks.tasks.len()
            &&& after.id == before.id
            &&& after.status == before.status
            &&& after.validators == before.validators
            &&& after.title == trim(a.edit_buffer.title)
            &&& after.acceptance == filled_lines(lines(a.edit_buffer.acceptance))
            &&& trim(a.edit_buffer.notes).len() > 0 ==> after.notes == Some(
                trim(a.edit_buffer.notes),
            )
            &&& trim(a.edit_buffer.notes).len() == 0 ==> after.notes is None
            &&& forall|k: int|
                0 <= k < a.tasks.tasks.len() && k != i ==> #[trigger] b.tasks.tasks[k]
                    == a.tasks.tasks[k]
        }),
{
    lemma_id_index(a.tasks.tasks, id, 0);
}

/// A new task is put behind the others. It is to do, has no validators, and
/// otherwise says what the editor holds.
pub proof fn law_new_task_is_added(a: AppView)
    requires
        a.edit_mode is NewTask,
    ensures
        ({
            let b = edit_applied(a);
            let n = a.tasks.tasks.len() as int;
            let task = b.tasks.tasks[n];
            &&& only_tasks_differ(a, b)
            &&& b.tasks.tasks.len() == n + 1
            &&& b.tasks.tasks.take(n) == a.tasks.tasks
            &&& task.id == a.edit_buffer.id
            &&& task.title == trim(a.edit_buffer.title)
            &&& task.status == TaskStatus::Todo
            &&& task.acceptance == filled_lines(lines(a.edit_buffer.acceptance))
            &&& task.validators.len() == 0
            &&& trim(a.edit_buffer.notes).len() > 0 ==> task.notes == Some(
                trim(a.edit_buffer.notes),
            )
            &&& trim(a.edit_buffer.notes).len() == 0 ==> task.notes is None
        }),
{
    assert(edit_applied(a).tasks.tasks.take(a.tasks.tasks.len() as int) =~= a.tasks.tasks);
}

/// The criteria of an edited task are the lines of the text, trimmed: a line
/// with content gives one, one without gives none, in order.
pub proof fn law_lines_become_criteria(a: Seq<Seq<char>>, line: Seq<char>, b: Seq<Seq<char>>)
    ensures
        filled_lines(a + b) == filled_lines(a) + filled_lines(b),
        trim(line).len() > 0 ==> filled_lines(seq![line]) == seq![trim(line)],
        trim(line).len() == 0 ==> filled_lines(seq![line]).len() == 0,
    decreases b.len(),
{
    assert(seq![line].drop_last() =~= Seq::<Seq<char>>::empty());
    assert(filled_lines(Seq::<Seq<char>>::empty()) =~= Seq::<Seq<char>>::empty());
    assert(trim(line).len() > 0 ==> filled_lines(seq![line]) =~= seq![trim(line)]);
    if b.len() == 0 {
        assert(a + b =~= a);
        assert(filled_lines(a) + filled_lines(b) =~= filled_lines(a));
    } else {
        law_lines_become_criteria(a, line, b.drop_last());
        assert((a + b).drop_last() =~= a + b.drop_last());
        assert((a + b).last() == b.last());
        assert(filled_lines(a + b) =~= filled_lines(a) + filled_lines(b));
    }
}

/// The editor of a task opens with what the task says, on its title, and changes
/// nothing else. Its criteria stand one to a line.
pub proof fn law_editor_opens_with_task(a: AppView)
    requires
        a.selected_task_index < a.tasks.tasks.len(),
    ensures
        ({
            let b = editing_selected(a);
            let task = a.tasks.tasks[a.selected_task_index as int];
            &&& b == (AppView { edit_buffer: b.edit_buffer, edit_mode: b.edit_mode, ..a })
            &&& b.edit_mode == EditModeView::EditingTask(task.id)
            &&& b.edit_buffer.id == task.id
            &&& b.edit_buffer.title == task.title
            &&& b.edit_buffer.focused_field == 0
            &&& task.notes matches Some(n) ==> b.edit_buffer.notes == n
            &&& task.notes is None ==> b.edit_buffer.notes.len() == 0
            &&& (forall|i: int|
                0 <= i < task.acceptance.len() ==> is_line(#[trigger] task.acceptance[i]))
                ==> lines(b.edit_buffer.acceptance) == task.acceptance
        }),
{
    let task = a.tasks.tasks[a.selected_task_index as int];
    reveal_strlit("\n");
    assert("\n"@ =~= seq!['\n']);
    if forall|i: int| 0 <= i < task.acceptance.len() ==> is_line(#[trigger] task.acceptance[i]) {
        lemma_lines_of_join(task.acceptance);
    }
}

/// The editor of a new task is empty but for the identifier, on its title.
pub proof fn law_editor_opens_empty(a: AppView)
    ensures
        ({
            let b = editing_new(a);
            &&& b == (AppView { edit_buffer: b.edit_buffer, edit_mode: EditModeView::NewTask, ..a })
            &&& b.edit_buffer.title.len() == 0
            &&& b.edit_buffer.acceptance.len() == 0
            &&& b.edit_buffer.notes.len() == 0
            &&& b.edit_buffer.focused_field == 0
        }),
{
}

/// Cancelling an edit leaves everything as it was but the editor, which is
/// closed and emptied.
pub proof fn law_cancelled_edit_changes_nothing(a: AppView)
    ensures
        ({
            let b = edit_cancelled(a);
            &&& b == (AppView {
                edit_buffer: b.edit_buffer,
                edit_mode: EditModeView::Inactive,
                ..a
            })
            &&& b.edit_buffer.title.len() == 0 && b.edit_buffer.notes.len() == 0
        }),
{
}

/// A deletion is asked for by the identifier of the selected task, and changes
/// nothing yet.
pub proof fn law_delete_asks_first(a: AppView)
    ensures
        a.selected_task_index < a.tasks.tasks.len() ==> delete_requested(a) == (AppView {
            edit_mode: EditModeView::ConfirmDelete(
                a.tasks.tasks[a.selected_task_index as int].id,
            ),
            ..a
        }),
        a.selected_task_index >= a.tasks.tasks.len() ==> delete_requested(a) == a,
{
}

/// A deletion leaves the other tasks in their order, and changes nothing else.
pub proof fn law_delete_keeps_order(
    a: AppView,
    id: Seq<char>,
    x: Seq<TaskView>,
    y: Seq<TaskView>,
)
    requires
        a.edit_mode == EditModeView::ConfirmDelete(id),
        a.tasks.tasks == x + y,
    ensures
        only_tasks_differ(a, delete_applied(a)),
        delete_applied(a).tasks.tasks == without_id(x, id) + without_id(y, id),
        forall|t: TaskView|
            #[trigger] without_id(seq![t], id) == (if t.id == id {
                Seq::empty()
            } else {
                seq![t]
            }),
{
    lemma_without_concat(x, y, id);
    assert forall|t: TaskView|
        #[trigger] without_id(seq![t], id) == (if t.id == id {
            Seq::empty()
        } else {
            seq![t]
        }) by {
        assert(seq![t].drop_last() =~= Seq::<TaskView>::empty());
        assert(without_id(Seq::<TaskView>::empty(), id) =~= Seq::<TaskView>::empty());
        assert(without_id(seq![t], id) =~= (if t.id == id {
            Seq::empty()
        } else {
            seq![t]
        }));
    }
}

proof fn lemma_without_concat(x: Seq<TaskView>, y: Seq<TaskView>, id: Seq<char>)
    ensures
        without_id(x + y, id) == without_id(x, id) + without_id(y, id),
    decreases y.len(),
{
    if y.len() == 0 {
        assert(x + y =~= x);
        assert(without_id(x, id) + without_id(y, id) =~= without_id(x, id));
    } else {
        lemma_without_concat(x, y.drop_last(), id);
        assert((x + y).drop_last() =~= x + y.drop_last());
        assert((x + y).last() == y.last());
        assert(without_id(x + y, id) =~= without_id(x, id) + without_id(y, id));
    }
}

// ----------------------------------------------------------- what is read of files

/// Reading events puts the readable ones behind those that are known, in order,
/// and notes how far was read. The oldest are dropped beyond the limit.
pub proof fn law_events_are_kept_in_order(a: AppView, chunk: EventChunk)
    requires
        a.event_file_pos + chunk.bytes <= u64::MAX,
    ensures
        ({
            let b = with_events(a, chunk);
            let all = a.events + events_in(chunk.lines@);
            &&& b == (AppView { events: b.events, event_file_pos: b.event_file_pos, ..a })
            &&& b.event_file_pos == a.event_file_pos + chunk.bytes
            &&& all.len() <= 100 || chunk.error is Some ==> b.events == all
            &&& all.len() > 100 && chunk.error is None ==> b.events.len() == 100 && b.events
                == all.skip(all.len() - 100)
        }),
{
}

/// A line of the event log gives its event, unless it is blank or cannot be
/// read, and lines give theirs in order.
pub proof fn law_lines_give_events(a: Seq<EventLine>, line: EventLine, b: Seq<EventLine>)
    ensures
        events_in(a + b) == events_in(a) + events_in(b),
        line.event is Some && trim(line.text@).len() > 0 ==> events_in(seq![line]) == seq![
            line.event->0@,
        ],
        line.event is None || trim(line.text@).len() == 0 ==> events_in(seq![line]).len() == 0,
    decreases b.len(),
{
    assert(seq![line].drop_last() =~= Seq::<EventLine>::empty());
    assert(seq![line].last() == line);
    assert(events_in(Seq::<EventLine>::empty()).len() == 0);
    if line.event is Some && trim(line.text@).len() > 0 {
        assert(events_in(seq![line]) =~= seq![line.event->0@]);
    }
    if b.len() == 0 {
        assert(a + b =~= a);
        assert(events_in(a) + events_in(b) =~= events_in(a));
    } else {
        law_lines_give_events(a, line, b.drop_last());
        assert((a + b).drop_last() =~= a + b.drop_last());
        assert((a + b).last() == b.last());
        assert(events_in(a + b) =~= events_in(a) + events_in(b));
    }
}

/// Reading the agent's log puts the lines with content behind those that are
/// known, in order, and notes how far was read. The oldest are dropped beyond
/// the limit.
pub proof fn law_log_is_kept_in_order(a: AppView, chunk: LogChunk)
    requires
        a.log_file_pos + chunk.bytes <= u64::MAX,
    ensures
        ({
            let b = with_agent_log(a, chunk);
            let all = a.log_lines + log_text(views(chunk.lines@));
            &&& b == (AppView { log_lines: b.log_lines, log_file_pos: b.log_file_pos, ..a })
            &&& b.log_file_pos == a.log_file_pos + chunk.bytes
            &&& all.len() <= 1000 || chunk.error is Some ==> b.log_lines == all
            &&& all.len() > 1000 && chunk.error is None ==> b.log_lines.len() == 1000
                && b.log_lines == all.skip(all.len() - 1000)
        }),
{
}

/// A line of the agent's log is shown without the whitespace at its end, and not
/// at all where nothing else is in it.
pub proof fn law_log_lines_are_trimmed(a: Seq<Seq<char>>, line: Seq<char>, b: Seq<Seq<char>>)
    ensures
        log_text(a + b) == log_text(a) + log_text(b),
        trim_end(line).len() > 0 ==> log_text(seq![line]) == seq![trim_end(line)],
        trim_end(line).len() == 0 ==> log_text(seq![line]).len() == 0,
    decreases b.len(),
{
    assert(seq![line].drop_last() =~= Seq::<Seq<char>>::empty());
    assert(log_text(Seq::<Seq<char>>::empty()).len() == 0);
    if trim_end(line).len() > 0 {
        assert(log_text(seq![line]) =~= seq![trim_end(line)]);
    }
    if b.len() == 0 {
        assert(a + b =~= a);
        assert(log_text(a) + log_text(b) =~= log_text(a));
    } else {
        law_log_lines_are_trimmed(a, line, b.drop_last());
        assert((a + b).drop_last() =~= a + b.drop_last());
        assert((a + b).last() == b.last());
        assert(log_text(a + b) =~= log_text(a) + log_text(b));
    }
}

/// The log of the validators shows for each of them, in order, a line with its
/// number, command, status and exit code, its output set off to the right, and
/// an empty line.
pub proof fn law_report_shows_each_validator(vs: Seq<ReportEntry>, v: ReportEntry)
    ensures
        ({
            let more = entries_lines(vs.push(v));
            let known = entries_lines(vs);
            let output = if v.output is Some {
                lines(v.output->0@)
            } else {
                Seq::empty()
            };
            &&& more.len() == known.len() + output.len() + 2
            &&& more.take(known.len() as int) == known
            &&& more[known.len() as int] == "["@ + decimal(vs.len() + 1) + "] "@ + v.command@
                + " - "@ + uppercase(v.status@) + " (exit: "@ + exit_text(v.exit_code) + ")"@
            &&& forall|k: int|
                0 <= k < output.len() ==> #[trigger] more[known.len() + 1 + k] == "    "@
                    + output[k]
            &&& more.last().len() == 0
        }),
{
    assert(vs.push(v).drop_last() =~= vs);
    assert(entries_lines(vs.push(v)).take(entries_lines(vs).len() as int) =~= entries_lines(vs));
}

/// The log of the validators begins with whether all of them passed.
pub proof fn law_report_tells_the_verdict(r: ValidatorReport)
    ensures
        report_lines(r).skip(2) == entries_lines(r.validators@),
        report_lines(r).len() >= 2,
        r.all_passed ==> report_lines(r)[0] == "=== Validation Results (all_passed: "@ + "true"@
            + ") ==="@,
        !r.all_passed ==> report_lines(r)[0] == "=== Validation Results (all_passed: "@ + "false"@
            + ") ==="@,
{
    assert(report_lines(r).skip(2) =~= entries_lines(r.validators@));
}

/// What was read again takes the place of what was known, and a failure is shown
/// and changes nothing else.
pub proof fn law_refresh_takes_over(
    a: AppView,
    run: Option<Run>,
    tasks: TaskList,
    error: String,
)
    ensures
        refreshed(a, Refreshed::Run(Ok(run))) == (AppView { run: opt_view(run), ..a }),
        refreshed(a, Refreshed::Tasks(Ok(tasks))) == (AppView { tasks: tasks@, ..a }),
        refreshed(a, Refreshed::Run(Err(error))) == (AppView {
            last_error: Some("Failed to reload run: "@ + error@),
            ..a
        }),
        refreshed(a, Refreshed::Tasks(Err(error))) == (AppView {
            last_error: Some("Failed to reload tasks: "@ + error@),
            ..a
        }),
        refreshed(a, Refreshed::Logs(LogRead::Missing)) == a,
        refreshed(a, Refreshed::Logs(LogRead::Failed(error))) == (AppView {
            last_error: Some("Failed to reload logs: "@ + error@),
            ..a
        }),
{
}

/// The files that are looked for are those of the current iteration, and there
/// are none before the first.
pub proof fn law_files_of_the_current_iteration(a: AppView, name: Seq<char>)
    ensures
        a.run is None || a.run->0.iteration == 0 ==> iteration_file_path(a, name) is None,
        a.run is Some && a.run->0.iteration > 0 ==> iteration_file_path(a, name) == Some(
            join_path(
                join_path(
                    join_path(a.repo_path, ".ralpher/iterations"@),
                    decimal(a.run->0.iteration as nat),
                ),
                name,
            ),
        ),
{
}

// ----------------------------------------------------------------- detecting files

/// What is detected is the first of the names, in their order, that exists.
pub proof fn law_first_existing_file_is_detected(
    dir: Seq<char>,
    names: Seq<Seq<char>>,
    existing: Seq<Seq<char>>,
    i: int,
)
    requires
        0 <= i < names.len(),
        existing.contains(join_path(dir, names[i])),
        forall|k: int| 0 <= k < i ==> !existing.contains(join_path(dir, #[trigger] names[k])),
    ensures
        first_existing(dir, names, existing, 0) == Some(join_path(dir, names[i])),
{
    lemma_first_existing(dir, names, existing, 0, i);
}

proof fn lemma_first_existing(
    dir: Seq<char>,
    names: Seq<Seq<char>>,
    existing: Seq<Seq<char>>,
    from: int,
    i: int,
)
    requires
        0 <= from <= i < names.len(),
        existing.contains(join_path(dir, names[i])),
        forall|k: int| 0 <= k < i ==> !existing.contains(join_path(dir, #[trigger] names[k])),
    ensures
        first_existing(dir, names, existing, from) == Some(join_path(dir, names[i])),
    decreases i - from,
{
    if from < i {
        lemma_first_existing(dir, names, existing, from + 1, i);
    }
}

/// Nothing is detected that does not exist.
pub proof fn law_nothing_missing_is_detected(
    dir: Seq<char>,
    names: Seq<Seq<char>>,
    existing: Seq<Seq<char>>,
    from: int,
)
    requires
        0 <= from,
        forall|k: int| 0 <= k < names.len() ==> !existing.contains(
            join_path(dir, #[trigger] names[k]),
        ),
    ensures
        first_existing(dir, names, existing, from) is None,
    decreases names.len() - from,
{
    if from < names.len() {
        law_nothing_missing_is_detected(dir, names, existing, from + 1);
    }
}

/// Each product file is looked for in the directory itself first, and then in
/// its product and docs directories.
pub proof fn law_product_files_are_found(
    dir: Seq<char>,
    existing: Seq<Seq<char>>,
)
    ensures
        ({
            let d = detected_in(dir, existing);
            let at = |name: Seq<char>| join_path(dir, name);
            &&& existing.contains(at("mission.md"@)) ==> d.mission == Some(at("mission.md"@))
            &&& existing.contains(at("prd.md"@)) ==> d.prd == Some(at("prd.md"@))
            &&& existing.contains(at("tech.md"@)) ==> d.tech == Some(at("tech.md"@))
            &&& existing.contains(at("ralpher.prd.json"@)) <==> d.task_file == Some(
                at("ralpher.prd.json"@),
            )
            &&& !existing.contains(at("mission.md"@)) && existing.contains(
                at("product/mission.md"@),
            ) ==> d.mission == Some(at("product/mission.md"@))
            &&& !existing.contains(at("prd.md"@)) && existing.contains(at("product/prd.md"@))
                ==> d.prd == Some(at("product/prd.md"@))
            &&& !existing.contains(at("tech.md"@)) && existing.contains(at("product/tech.md"@))
                ==> d.tech == Some(at("product/tech.md"@))
            &&& d.is_git_repo <==> existing.contains(at(".git"@))
        }),
{
    reveal_with_fuel(first_existing, 3);
}

/// A log that was read takes the place of what was shown or is put behind it, as
/// its source has it.
pub proof fn law_log_follows_source(a: AppView, chunk: LogChunk, report: ValidatorReport)
    ensures
        refreshed(a, Refreshed::Logs(LogRead::Validator(report))) == (AppView {
            log_lines: report_lines(report),
            ..a
        }),
        chunk.error is None ==> refreshed(a, Refreshed::Logs(LogRead::Agent(chunk)))
            == with_agent_log(a, chunk),
{
}

/// The end of an edit or a deletion closes the editor and changes nothing else
/// but the selection.
pub proof fn law_editor_is_closed(a: AppView)
    ensures
        ({
            let e = edit_finished(a);
            let d = delete_finished(a);
            &&& e == (AppView {
                edit_mode: EditModeView::Inactive,
                selected_task_index: e.selected_task_index,
                ..a
            })
            &&& d == (AppView {
                edit_mode: EditModeView::Inactive,
                selected_task_index: d.selected_task_index,
                ..a
            })
            &&& a.edit_mode is EditingTask ==> e.selected_task_index == a.selected_task_index
            &&& a.selected_task_index < a.tasks.tasks.len() ==> d.selected_task_index
                == a.selected_task_index
            &&& a.edit_mode is ConfirmDelete && a.tasks.tasks.len() > 0 && a.selected_task_index
                >= a.tasks.tasks.len() ==> d.selected_task_index == (a.tasks.tasks.len()
                - 1) as usize
        }),
{
}

} // verus!
