//! What the keys of the terminal interface do.

use vstd::prelude::*;

use crate::config::{config_text, shell_split, GitMode};
use crate::event::EventView;
use crate::number::{decimal, signed_decimal};
use crate::path::join_path;
use crate::policy::default_policy;
use crate::run::{EffectView, EngineView, MigrationDirection, RunState, RunView};
use crate::task::{current_index, law_current_task_is_open, TaskStatus, TaskView};
use crate::text::trim;
use crate::tui::{AppView, BufferView, EditModeView, LogSource, SetupStep, SetupView};
use crate::tui_input::{
    edit_key, iteration_followed, iteration_turn, loop_turn, migration_reloads, migration_text,
    normal_key, settled, setup_key, wizard_config, AfterIterationView, EditActionView, Key, KeyCode, LoopStepView,
    NormalActionView, Pending, SetupActionView,
};
use crate::tui_laws::only_tasks_differ;

verus! {

/// A character key.
pub open spec fn char_key(c: char) -> Key {
    Key { code: KeyCode::Char(c), control: false }
}

/// Another key.
pub open spec fn plain_key(code: KeyCode) -> Key {
    Key { code, control: false }
}

/// Whether the application shows the run of the engine.
pub open spec fn shows(a: AppView, e: EngineView) -> bool {
    a.run matches Some(run) && run.state == e.run.state
}

/// The engine in another state of its run.
pub open spec fn in_state(e: EngineView, state: RunState) -> EngineView {
    EngineView { run: RunView { state, ..e.run }, ..e }
}

// ------------------------------------------------------------------- normal mode

/// Space pauses a running run, resumes a paused one, which is logged and saved,
/// and otherwise starts a run.
pub proof fn law_space_pauses_and_resumes(a: AppView, e: EngineView, now: u64)
    requires
        shows(a, e),
    ensures
        ({
            let s = normal_key(a, Some(e), char_key(' '), now);
            let paused = in_state(e, RunState::Paused);
            let running = in_state(e, RunState::Running);
            &&& s.app == a
            &&& e.run.state == RunState::Running ==> s.engine == Some(paused) && s.action
                == NormalActionView::Perform(
                Pending::Pause,
                seq![
                    EffectView::Emit(EventView::RunPaused { run_id: e.run.run_id }),
                    EffectView::SaveRun(paused.run),
                ],
            )
            &&& e.run.state == RunState::Paused ==> s.engine == Some(running) && s.action
                == NormalActionView::Perform(
                Pending::Resume,
                seq![
                    EffectView::Emit(EventView::RunResumed { run_id: e.run.run_id }),
                    EffectView::SaveRun(running.run),
                ],
            )
            &&& e.run.state != RunState::Running && e.run.state != RunState::Paused ==> s.engine
                == Some(e) && s.action == NormalActionView::StartRun
        }),
{
}

/// Without a run, Space starts one.
pub proof fn law_space_starts(a: AppView, engine: Option<EngineView>, now: u64)
    requires
        a.run is None,
    ensures
        ({
            let s = normal_key(a, engine, char_key(' '), now);
            s.app == a && s.engine == engine && s.action == NormalActionView::StartRun
        }),
{
}

/// `a` aborts a run that is running or paused, which is logged with the reason
/// and saved with the time. Another run is left alone.
pub proof fn law_a_aborts(a: AppView, e: EngineView, now: u64)
    requires
        shows(a, e),
    ensures
        ({
            let s = normal_key(a, Some(e), char_key('a'), now);
            let active = e.run.state == RunState::Running || e.run.state == RunState::Paused;
            let next = EngineView {
                run: RunView { state: RunState::Aborted, ended_at: Some(now), ..e.run },
                ..e
            };
            &&& s.app == a
            &&& active ==> s.engine == Some(next) && s.action == NormalActionView::Perform(
                Pending::Abort,
                seq![
                    EffectView::Emit(
                        EventView::RunAborted {
                            run_id: e.run.run_id,
                            reason: "User requested abort via TUI"@,
                        },
                    ),
                    EffectView::SaveRun(next.run),
                ],
            )
            &&& !active ==> s.engine == Some(e) && s.action == NormalActionView::Nothing
        }),
{
}

/// `s` blocks the current task of a run that is running or paused.
pub proof fn law_s_skips(a: AppView, e: EngineView, i: int, now: u64)
    requires
        shows(a, e),
        e.run.state == RunState::Running || e.run.state == RunState::Paused,
        current_index(e.tasks.tasks) == Some(i),
    ensures
        ({
            let s = normal_key(a, Some(e), char_key('s'), now);
            &&& s.app == a
            &&& s.action is Perform
            &&& s.engine matches Some(next) && next.tasks.tasks.len() == e.tasks.tasks.len()
                && next.tasks.tasks[i].status == TaskStatus::Blocked && next.tasks.tasks[i].id
                == e.tasks.tasks[i].id && next.tasks.tasks[i].title == e.tasks.tasks[i].title
                && next.run.state == e.run.state && next.run.current_task_id is None && forall|
                k: int,
            |
                0 <= k < e.tasks.tasks.len() && k != i ==> #[trigger] next.tasks.tasks[k]
                    == e.tasks.tasks[k]
        }),
{
    law_current_task_is_open(e.tasks.tasks);
}

/// `q`, and `c` with Control, quit. A running run is paused for that.
pub proof fn law_q_quits(a: AppView, e: EngineView, now: u64)
    ensures
        ({
            let s = normal_key(a, Some(e), char_key('q'), now);
            let c = normal_key(a, Some(e), Key { code: KeyCode::Char('c'), control: true }, now);
            &&& s == c
            &&& s.app == (AppView { should_quit: true, ..a })
            &&& e.run.state == RunState::Running ==> s.engine == Some(in_state(e, RunState::Paused))
                && s.action is Perform
            &&& e.run.state != RunState::Running ==> s.engine == Some(e) && s.action
                == NormalActionView::Nothing
            &&& normal_key(a, Some(e), char_key('c'), now).app == a
        }),
{
}

/// `l` shows the other log, from its beginning.
pub proof fn law_l_toggles_log(a: AppView, engine: Option<EngineView>, now: u64)
    ensures
        ({
            let s = normal_key(a, engine, char_key('l'), now);
            &&& s.engine == engine
            &&& s.action == NormalActionView::ReloadLogs
            &&& s.app == (AppView {
                log_source: s.app.log_source,
                log_lines: Seq::empty(),
                log_file_pos: 0,
                log_scroll_offset: 0,
                ..a
            })
            &&& a.log_source == LogSource::Agent <==> s.app.log_source == LogSource::Validator
        }),
{
}

/// `n` opens the editor for a new task, `e` for the selected one, and `x` asks
/// whether the selected one is to be deleted.
pub proof fn law_task_keys(a: AppView, engine: Option<EngineView>, now: u64)
    ensures
        ({
            let n = normal_key(a, engine, char_key('n'), now);
            let e = normal_key(a, engine, char_key('e'), now);
            let x = normal_key(a, engine, char_key('x'), now);
            let i = a.selected_task_index as int;
            &&& n.app.edit_mode is NewTask
            &&& i < a.tasks.tasks.len() ==> e.app.edit_mode == EditModeView::EditingTask(
                a.tasks.tasks[i].id,
            ) && e.app.edit_buffer.title == a.tasks.tasks[i].title
            &&& i < a.tasks.tasks.len() ==> x.app == (AppView {
                edit_mode: EditModeView::ConfirmDelete(a.tasks.tasks[i].id),
                ..a
            })
            &&& i >= a.tasks.tasks.len() ==> e.app == a && x.app == a
            &&& n.app.tasks == a.tasks && e.app.tasks == a.tasks && x.app.tasks == a.tasks
            &&& n.engine == engine && e.engine == engine && x.engine == engine
        }),
{
}

/// `m` opens the migration menu where the integration is on, and says that it is
/// off where it is.
pub proof fn law_m_opens_menu(a: AppView, engine: Option<EngineView>, now: u64)
    ensures
        ({
            let s = normal_key(a, engine, char_key('m'), now);
            let on = a.config is Some && a.config->0.archon.enabled;
            &&& on ==> s.app == (AppView { edit_mode: EditModeView::MigrationMenu, ..a })
            &&& !on ==> s.app == (AppView {
                last_error: Some("Archon integration is not enabled"@),
                ..a
            })
        }),
{
}

/// Tab goes to the next task and the key back to the one before, as far as there
/// are any.
pub proof fn law_tab_selects(a: AppView, engine: Option<EngineView>, now: u64)
    requires
        a.tasks.tasks.len() <= usize::MAX,
    ensures
        ({
            let next = normal_key(a, engine, plain_key(KeyCode::Tab), now).app;
            let back = normal_key(a, engine, plain_key(KeyCode::BackTab), now).app;
            let i = a.selected_task_index as int;
            &&& next == (AppView { selected_task_index: next.selected_task_index, ..a })
            &&& back == (AppView { selected_task_index: back.selected_task_index, ..a })
            &&& i + 1 < a.tasks.tasks.len() ==> next.selected_task_index == i + 1
            &&& i + 1 >= a.tasks.tasks.len() ==> next.selected_task_index == i
            &&& i > 0 ==> back.selected_task_index == i - 1
            &&& i == 0 ==> back.selected_task_index == 0
        }),
{
}

/// The arrows scroll by a line and the page keys by ten, up to the first line and
/// down to the last. Home and End go there at once.
pub proof fn law_keys_scroll(a: AppView, engine: Option<EngineView>, now: u64)
    requires
        a.log_lines.len() <= usize::MAX,
        a.log_scroll_offset < a.log_lines.len(),
    ensures
        ({
            let press = |code: KeyCode| normal_key(a, engine, plain_key(code), now).app;
            let offset = |code: KeyCode| press(code).log_scroll_offset as int;
            let at = a.log_scroll_offset as int;
            let top = a.log_lines.len() - 1;
            &&& offset(KeyCode::Up) == (if at + 1 < top {
                at + 1
            } else {
                top
            })
            &&& offset(KeyCode::PageUp) == (if at + 10 < top {
                at + 10
            } else {
                top
            })
            &&& offset(KeyCode::Down) == (if at > 1 {
                at - 1
            } else {
                0
            })
            &&& offset(KeyCode::PageDown) == (if at > 10 {
                at - 10
            } else {
                0
            })
            &&& offset(KeyCode::Home) == top
            &&& offset(KeyCode::End) == 0
            &&& normal_key(a, engine, char_key('k'), now).app == press(KeyCode::Up)
            &&& normal_key(a, engine, char_key('j'), now).app == press(KeyCode::Down)
            &&& press(KeyCode::Up) == (AppView {
                log_scroll_offset: press(KeyCode::Up).log_scroll_offset,
                ..a
            })
        }),
{
}

/// Esc closes the summary of the diff, and nothing else.
pub proof fn law_esc_closes_diff(a: AppView, engine: Option<EngineView>, now: u64)
    ensures
        normal_key(a, engine, plain_key(KeyCode::Esc), now).app == (AppView { diff: None, ..a }),
        normal_key(a, engine, char_key('f'), now).app == a,
        normal_key(a, engine, char_key('f'), now).action == NormalActionView::Refresh,
{
}

/// An operation that was carried out pauses or lets iterations run again, and one
/// that failed is shown and changes nothing else.
pub proof fn law_operations_are_settled(a: AppView, error: Seq<char>)
    ensures
        settled(a, Pending::Pause, None) == (AppView { user_paused: true, ..a }),
        settled(a, Pending::Resume, None) == (AppView { user_paused: false, ..a }),
        settled(a, Pending::Abort, None) == a,
        settled(a, Pending::Skip, None) == a,
        settled(a, Pending::Quit, None) == a,
        settled(a, Pending::Quit, Some(error)) == a,
        settled(a, Pending::Pause, Some(error)) == (AppView {
            last_error: Some("Pause failed: "@ + error),
            ..a
        }),
        settled(a, Pending::Resume, Some(error)) == (AppView {
            last_error: Some("Resume failed: "@ + error),
            ..a
        }),
        settled(a, Pending::Abort, Some(error)) == (AppView {
            last_error: Some("Abort failed: "@ + error),
            ..a
        }),
        settled(a, Pending::Skip, Some(error)) == (AppView {
            last_error: Some("Skip failed: "@ + error),
            ..a
        }),
        settled(a, Pending::Retry, Some(error)) == (AppView {
            last_error: Some("Retry failed: "@ + error),
            ..a
        }),
{
}

// --------------------------------------------------------------------- iterations

/// A run is iterated exactly where it is shown as running, the user neither
/// paused it nor pressed a key within the last half second, and the limit is not
/// reached.
pub proof fn law_idle_runs_are_iterated(a: AppView, e: EngineView, now: u64)
    requires
        shows(a, e),
    ensures
        loop_turn(a, Some(e), now).2 is Iterate <==> e.run.state == RunState::Running
            && !a.user_paused && now > a.last_interaction && now - a.last_interaction
            > 500_000_000 && e.run.iteration < e.config.max_iterations,
{
}

/// At the limit a running run is paused, and the user has to go on.
pub proof fn law_limit_pauses(a: AppView, e: EngineView)
    requires
        e.run.state == RunState::Running,
        e.run.iteration >= e.config.max_iterations,
    ensures
        iteration_turn(a, Some(e)).0 == (AppView { user_paused: true, ..a }),
        iteration_turn(a, Some(e)).1 == Some(in_state(e, RunState::Paused)),
        iteration_turn(a, Some(e)).2 == LoopStepView::Pause(
            seq![
                EffectView::Emit(EventView::RunPaused { run_id: e.run.run_id }),
                EffectView::SaveRun(in_state(e, RunState::Paused).run),
            ],
        ),
{
}

/// After an iteration that succeeded, the log of the next one is read from its
/// beginning, and nothing else changes.
pub proof fn law_success_goes_on(a: AppView, e: EngineView)
    ensures
        iteration_followed(a, e, Ok(true)) == (
            AppView { log_file_pos: 0, log_lines: Seq::empty(), ..a },
            e,
            AfterIterationView::Nothing,
        ),
{
}

/// An iteration that could not be carried out is shown, and the user has to go
/// on.
pub proof fn law_failed_iteration_is_shown(a: AppView, e: EngineView, error: Seq<char>)
    ensures
        iteration_followed(a, e, Err(error)).0 == (AppView {
            last_error: Some("Iteration failed: "@ + error),
            user_paused: true,
            ..a
        }),
        e.run.state == RunState::Running ==> iteration_followed(a, e, Err(error)).1 == in_state(
            e,
            RunState::Paused,
        ),
{
}

// ----------------------------------------------------------------------- edit mode

/// Whether a task is being edited.
pub open spec fn is_editing(a: AppView) -> bool {
    a.edit_mode is NewTask || a.edit_mode is EditingTask
}

/// What is typed goes to the focused field, and Backspace takes its last
/// character. Nothing else changes.
pub proof fn law_typing_fills_the_field(a: AppView, c: char)
    requires
        is_editing(a),
    ensures
        ({
            let b = a.edit_buffer;
            let t = edit_key(a, char_key(c)).0;
            let k = edit_key(a, plain_key(KeyCode::Backspace)).0;
            &&& t == (AppView { edit_buffer: t.edit_buffer, ..a })
            &&& k == (AppView { edit_buffer: k.edit_buffer, ..a })
            &&& b.focused_field == 0 ==> t.edit_buffer == (BufferView { title: b.title.push(c), ..b })
            &&& b.focused_field == 1 ==> t.edit_buffer == (BufferView {
                acceptance: b.acceptance.push(c),
                ..b
            })
            &&& b.focused_field == 2 ==> t.edit_buffer == (BufferView { notes: b.notes.push(c), ..b })
            &&& b.focused_field == 0 && b.title.len() > 0 ==> k.edit_buffer == (BufferView {
                title: b.title.drop_last(),
                ..b
            })
            &&& b.focused_field == 1 && b.acceptance.len() > 0 ==> k.edit_buffer == (BufferView {
                acceptance: b.acceptance.drop_last(),
                ..b
            })
            &&& b.focused_field == 2 && b.notes.len() > 0 ==> k.edit_buffer == (BufferView {
                notes: b.notes.drop_last(),
                ..b
            })
        }),
{
}

/// Tab goes from field to field, and the key back goes the other way round.
pub proof fn law_tab_moves_focus(a: AppView)
    requires
        is_editing(a),
        a.edit_buffer.focused_field < 3,
    ensures
        ({
            let f = a.edit_buffer.focused_field as int;
            let t = edit_key(a, plain_key(KeyCode::Tab)).0.edit_buffer;
            let b = edit_key(a, plain_key(KeyCode::BackTab)).0.edit_buffer;
            &&& t == (BufferView { focused_field: t.focused_field, ..a.edit_buffer })
            &&& b == (BufferView { focused_field: b.focused_field, ..a.edit_buffer })
            &&& t.focused_field == (if f == 2 {
                0
            } else {
                f + 1
            })
            &&& b.focused_field == (if f == 0 {
                2
            } else {
                f - 1
            })
        }),
{
}

/// Enter saves the task from the title, and with Control from anywhere. A task
/// without a title is not saved. In the other fields Enter begins a new line.
pub proof fn law_enter_saves(a: AppView, control: bool)
    requires
        is_editing(a),
        a.edit_buffer.focused_field < 3,
    ensures
        ({
            let s = edit_key(a, Key { code: KeyCode::Enter, control });
            let b = a.edit_buffer;
            let saves = control || b.focused_field == 0;
            &&& saves && trim(b.title).len() > 0 ==> (s.1 matches EditActionView::SaveEdit(tasks)
                && tasks == s.0.tasks) && only_tasks_differ(a, s.0)
            &&& saves && trim(b.title).len() == 0 ==> s == (a, EditActionView::Nothing)
            &&& !saves ==> s.1 == EditActionView::Nothing
            &&& !saves && b.focused_field == 1 ==> s.0 == (AppView {
                edit_buffer: BufferView { acceptance: b.acceptance.push('\n'), ..b },
                ..a
            })
            &&& !saves && b.focused_field == 2 ==> s.0 == (AppView {
                edit_buffer: BufferView { notes: b.notes.push('\n'), ..b },
                ..a
            })
        }),
{
}

/// Esc closes the editor and drops what it holds.
pub proof fn law_esc_cancels_edit(a: AppView)
    requires
        is_editing(a) || a.edit_mode is ConfirmDelete,
    ensures
        ({
            let s = edit_key(a, plain_key(KeyCode::Esc));
            &&& s.1 == EditActionView::Nothing
            &&& s.0 == (AppView {
                edit_mode: EditModeView::Inactive,
                edit_buffer: s.0.edit_buffer,
                ..a
            })
            &&& s.0.edit_buffer.title.len() == 0
        }),
{
}

/// A deletion is carried out on `y` alone; `n` drops it, and any other character
/// is ignored.
pub proof fn law_delete_needs_y(a: AppView, id: Seq<char>, c: char)
    requires
        a.edit_mode == EditModeView::ConfirmDelete(id),
    ensures
        ({
            let s = edit_key(a, char_key(c));
            &&& c == 'y' || c == 'Y' <==> s.1 is SaveDelete
            &&& s.1 matches EditActionView::SaveDelete(tasks) ==> tasks == s.0.tasks
                && only_tasks_differ(a, s.0)
            &&& c != 'y' && c != 'Y' ==> s.0.tasks == a.tasks && s.1 == EditActionView::Nothing
            &&& c == 'n' || c == 'N' ==> s.0.edit_mode is Inactive
            &&& c != 'y' && c != 'Y' && c != 'n' && c != 'N' ==> s.0 == a
        }),
{
}

/// The migration menu starts a migration in the chosen direction, or is closed.
pub proof fn law_menu_migrates(a: AppView, c: char)
    requires
        a.edit_mode is MigrationMenu,
    ensures
        ({
            let s = edit_key(a, char_key(c));
            &&& c == '1' || c == 'l' <==> s.1 == EditActionView::Migrate(
                MigrationDirection::LocalToArchon,
            )
            &&& c == '2' || c == 'a' <==> s.1 == EditActionView::Migrate(
                MigrationDirection::ArchonToLocal,
            )
            &&& c == 'q' ==> s.0 == (AppView { edit_mode: EditModeView::Inactive, ..a })
            &&& s.0.tasks == a.tasks
        }),
{
}

// ---------------------------------------------------------------------- the wizard

/// Whether the key leads on to another step and changes nothing else but the
/// answer of the step that is left.
pub open spec fn leads_to(a: AppView, next: AppView, step: SetupStep) -> bool {
    next == (AppView {
        setup: SetupView { step, archon: next.setup.archon, ..a.setup },
        ..a
    })
}

/// Enter goes through the wizard step by step. A command is asked for until there
/// is one.
pub proof fn law_wizard_goes_on(a: AppView)
    ensures
        ({
            let s = setup_key(a, plain_key(KeyCode::Enter));
            let w = a.setup;
            &&& w.step == SetupStep::Welcome ==> leads_to(a, s.0, SetupStep::AgentConfig)
            &&& w.step == SetupStep::AgentConfig && trim(w.agent_cmd).len() > 0 ==> leads_to(
                a,
                s.0,
                SetupStep::GitMode,
            )
            &&& w.step == SetupStep::AgentConfig && trim(w.agent_cmd).len() == 0 ==> s.0 == a
            &&& w.step == SetupStep::GitMode ==> leads_to(a, s.0, SetupStep::Archon)
            &&& w.step == SetupStep::Archon ==> leads_to(a, s.0, SetupStep::Tasks)
            &&& w.step == SetupStep::Tasks ==> leads_to(a, s.0, SetupStep::Review)
            &&& w.step == SetupStep::Review ==> s.0 == a
            &&& w.step != SetupStep::Archon ==> s.0.setup.archon == w.archon
            &&& s.1 is Save <==> w.step == SetupStep::Review
            &&& w.step != SetupStep::Review ==> s.1 == SetupActionView::Nothing
        }),
{
}

/// The project that was typed in is noted, trimmed, where the integration is on.
pub proof fn law_wizard_notes_project(a: AppView)
    requires
        a.setup.step == SetupStep::Archon,
    ensures
        ({
            let before = a.setup.archon;
            let after = setup_key(a, plain_key(KeyCode::Enter)).0.setup.archon;
            let typed = trim(a.setup.archon_project_id_input);
            &&& after.enabled == before.enabled && after.use_rag == before.use_rag
            &&& before.enabled && typed.len() > 0 ==> after.project_id == Some(typed)
            &&& !before.enabled || typed.len() == 0 ==> after.project_id == before.project_id
        }),
{
}

/// What the wizard saves is what was answered: the command, the git mode and the
/// integration in the configuration, with defaults for the rest, and the tasks.
pub proof fn law_wizard_saves_answers(a: AppView)
    requires
        a.setup.step == SetupStep::Review,
    ensures
        ({
            let w = a.setup;
            let c = wizard_config(w);
            &&& c.git_mode == w.git_mode
            &&& c.archon == w.archon
            &&& c.validators.len() == 0
            &&& c.policy == default_policy()
            &&& c.max_iterations == 100
            &&& c.agent matches Some(agent) && agent.runner_type == "command"@ && (shell_split(
                w.agent_cmd,
            ) matches Some(words) ==> agent.cmd == words) && (shell_split(w.agent_cmd) is None
                ==> agent.cmd == seq![w.agent_cmd])
            &&& setup_key(a, plain_key(KeyCode::Enter)).1 matches SetupActionView::Save {
                config_path,
                config_text: text,
                tasks,
                tasks_path,
            } && config_path == join_path(a.repo_path, "ralpher.toml"@) && text == config_text(c)
                && tasks.tasks == w.tasks && tasks_path == join_path(
                a.repo_path,
                "ralpher.prd.json"@,
            )
        }),
{
}

/// Characters are typed into the command and into the project, switch what is
/// focused, and add or clear tasks.
pub proof fn law_wizard_takes_characters(a: AppView, c: char)
    requires
        c != 'q',
    ensures
        ({
            let s = setup_key(a, char_key(c)).0;
            let w = a.setup;
            &&& s == (AppView { setup: s.setup, ..a })
            &&& s.setup.step == w.step
            &&& w.step == SetupStep::AgentConfig ==> s.setup == (SetupView {
                agent_cmd: w.agent_cmd.push(c),
                ..w
            })
            &&& w.step == SetupStep::Archon && w.focused_field == 0 && c == ' '
                ==> s.setup.archon.enabled != w.archon.enabled && s.setup.archon.use_rag
                == w.archon.use_rag
            &&& w.step == SetupStep::Archon && w.focused_field == 2 && c == ' '
                ==> s.setup.archon.use_rag != w.archon.use_rag && s.setup.archon.enabled
                == w.archon.enabled
            &&& w.step == SetupStep::Archon && w.focused_field == 1 && c != ' ' ==> s.setup == (
            SetupView { archon_project_id_input: w.archon_project_id_input.push(c), ..w })
            &&& w.step == SetupStep::Tasks && c == 'c' ==> s.setup == (SetupView {
                tasks: Seq::empty(),
                ..w
            })
            &&& w.step == SetupStep::Tasks && c == 'n' ==> s.setup.tasks.len() == w.tasks.len() + 1
                && s.setup.tasks.take(w.tasks.len() as int) == w.tasks && is_fresh_task(
                s.setup.tasks.last(),
                w.tasks.len() + 1,
            )
            &&& w.step == SetupStep::Tasks && c != 'c' && c != 'n' ==> s.setup == w
            &&& w.step == SetupStep::Welcome || w.step == SetupStep::GitMode || w.step
                == SetupStep::Review ==> s.setup == w
        }),
{
    let s = setup_key(a, char_key(c)).0;
    if a.setup.step == SetupStep::Tasks && c == 'n' {
        assert(s.setup.tasks.take(a.setup.tasks.len() as int) =~= a.setup.tasks);
    }
}

/// Whether a task is one that the wizard adds as the one with the given number.
pub open spec fn is_fresh_task(t: TaskView, number: nat) -> bool {
    &&& t.title == "Task "@ + decimal(number)
    &&& t.status == TaskStatus::Todo
    &&& t.acceptance.len() == 0
    &&& t.validators.len() == 0
    &&& t.notes is None
}

/// Tab changes the git mode where that is asked for, and the field where there
/// are several.
pub proof fn law_wizard_tab(a: AppView)
    ensures
        ({
            let s = setup_key(a, plain_key(KeyCode::Tab)).0;
            let w = a.setup;
            &&& w.step == SetupStep::GitMode ==> s == (AppView {
                setup: SetupView {
                    git_mode: if w.git_mode == GitMode::Branch {
                        GitMode::Trunk
                    } else {
                        GitMode::Branch
                    },
                    ..w
                },
                ..a
            })
            &&& w.step == SetupStep::Archon && w.focused_field < 2 ==> s.setup == (SetupView {
                focused_field: (w.focused_field + 1) as usize,
                ..w
            })
            &&& w.step == SetupStep::Archon && w.focused_field == 2 ==> s.setup == (SetupView {
                focused_field: 0,
                ..w
            })
            &&& w.step != SetupStep::GitMode && w.step != SetupStep::Archon ==> s == a
        }),
{
}

/// `q` and Esc leave the wizard, and nothing is saved.
pub proof fn law_wizard_is_left(a: AppView)
    ensures
        setup_key(a, char_key('q')) == (
            AppView { should_quit: true, ..a },
            SetupActionView::Nothing,
        ),
        setup_key(a, plain_key(KeyCode::Esc)) == (
            AppView { should_quit: true, ..a },
            SetupActionView::Nothing,
        ),
{
}

/// `i` reads the tasks of the PRD again, where there is one.
pub proof fn law_wizard_imports(a: AppView)
    requires
        a.setup.step == SetupStep::Tasks,
    ensures
        setup_key(a, char_key('i')).0 == a,
        a.setup.detected.prd matches Some(path) ==> setup_key(a, char_key('i')).1
            == SetupActionView::ImportPrd(path),
        a.setup.detected.prd is None ==> setup_key(a, char_key('i')).1 == SetupActionView::Nothing,
{
}

/// Tasks are read again after a migration from the service that succeeded, and
/// any other outcome is told.
pub proof fn law_migrations_are_told(direction: MigrationDirection, code: i32, error: String)
    ensures
        migration_reloads(direction, Ok(code)) <==> direction == MigrationDirection::ArchonToLocal
            && code == 0,
        !migration_reloads(direction, Err(error)),
        migration_text(Err(error)) == "Migration error: "@ + error@,
        migration_text(Ok(0)) == "Migration to Archon completed"@,
        code != 0 ==> migration_text(Ok(code)) == "Migration failed with exit code "@
            + signed_decimal(code as int),
{
}

} // verus!
