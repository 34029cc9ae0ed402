//! What keys and the mouse wheel do.

use vstd::prelude::*;

use crate::text::{chars_of, string_of};
use crate::time::Timestamp;
use crate::tui::actions::{
    actions_on_task, after_outcomes, agent_actions, apply_outcomes, contextual_actions, menu_moved,
    move_overlay_selection, notice, run_selected, selected_action, selected_outcomes, task_actions,
    Menu, Notice, QuickActionId, QuickActionState,
};
use crate::tui::state::{
    active_text, cycled_focus, cycled_task_filter, former_field, messages_at_head,
    messages_at_tail, model_fields, moved_selection, moved_task_selection, next_field,
    opened_message_form, opened_task_form, opt_view, scrolled_messages, scrolled_stream,
    selected_stream, shifted, stepped_detail_tab, stepped_stream, submitted_message_form,
    submitted_task_form, task_selected, token_rows, top, with_active_text, with_visible_view,
    workspace_selected, AgentDetailTab, App, AppModel, CreateTaskForm, Focus, MessageForm,
    OrchestratorMessageForm, PaneCursor, PendingLifecycle, PendingTaskAction, TaskForm,
    WaitingLifecycle, WaitingTaskAction,
};
use crate::tui::stream::StreamView;
use crate::tui::tasks::{short_id, short_task_id};

verus! {

/// The keys that mean something.
#[derive(Debug, Clone, Copy, PartialEq, Eq, Structural)]
pub enum KeyCode {
    Up,
    Down,
    Left,
    Right,
    Enter,
    Esc,
    Tab,
    BackTab,
    Backspace,
    Delete,
    Home,
    End,
    PageUp,
    PageDown,
    Char(char),
    Other,
}

/// The keys held down beside another.
#[derive(Debug, Clone, Copy, PartialEq, Eq, Structural)]
pub struct KeyModifiers {
    pub control: bool,
    pub alt: bool,
}

/// Whether a key went down, is held, or went up.
#[derive(Debug, Clone, Copy, PartialEq, Eq, Structural)]
pub enum KeyEventKind {
    Press,
    Repeat,
    Release,
}

/// Something that happened to a key.
#[derive(Debug, Clone, Copy, PartialEq, Eq, Structural)]
pub struct KeyEvent {
    pub code: KeyCode,
    pub modifiers: KeyModifiers,
    pub kind: KeyEventKind,
}

impl KeyModifiers {
    /// No other key.
    #[verifier::allow_in_spec]
    pub fn none() -> KeyModifiers
        returns
            (KeyModifiers { control: false, alt: false }),
    {
        KeyModifiers { control: false, alt: false }
    }

    /// The control key.
    #[verifier::allow_in_spec]
    pub fn control() -> KeyModifiers
        returns
            (KeyModifiers { control: true, alt: false }),
    {
        KeyModifiers { control: true, alt: false }
    }
}

impl KeyEvent {
    /// A key that went down.
    #[verifier::allow_in_spec]
    pub fn new(code: KeyCode, modifiers: KeyModifiers) -> KeyEvent
        returns
            (KeyEvent { code, modifiers, kind: KeyEventKind::Press }),
    {
        KeyEvent { code, modifiers, kind: KeyEventKind::Press }
    }
}

/// The time: milliseconds of a clock that only goes forward, and the time of
/// day.
#[derive(Debug, Clone, Copy)]
pub struct Now {
    pub ticks: u64,
    pub utc: Timestamp,
}

/// A key that moves up.
#[verifier::allow_in_spec]
pub fn is_up(code: KeyCode) -> bool
    returns
        code == KeyCode::Up || code == KeyCode::Char('k'),
{
    code == KeyCode::Up || code == KeyCode::Char('k')
}

/// A key that moves down.
#[verifier::allow_in_spec]
pub fn is_down(code: KeyCode) -> bool
    returns
        code == KeyCode::Down || code == KeyCode::Char('j'),
{
    code == KeyCode::Down || code == KeyCode::Char('j')
}

/// A key that moves to the top.
#[verifier::allow_in_spec]
pub fn is_home(code: KeyCode) -> bool
    returns
        code == KeyCode::Home || code == KeyCode::Char('g'),
{
    code == KeyCode::Home || code == KeyCode::Char('g')
}

/// A key that moves to the end.
#[verifier::allow_in_spec]
pub fn is_end(code: KeyCode) -> bool
    returns
        code == KeyCode::End || code == KeyCode::Char('G'),
{
    code == KeyCode::End || code == KeyCode::Char('G')
}

/// How far a scrolling key goes, where it is one: one line, or ten for a page.
pub open spec fn scroll_step(code: KeyCode) -> Option<int> {
    if is_up(code) {
        Some(-1)
    } else if is_down(code) {
        Some(1)
    } else if code == KeyCode::PageUp {
        Some(-10)
    } else if code == KeyCode::PageDown {
        Some(10)
    } else {
        None
    }
}

/// How far a scrolling key goes, where it is one.
pub fn scroll_delta(code: KeyCode) -> (r: Option<i32>)
    ensures
        match r {
            Some(d) => scroll_step(code) == Some(d as int),
            None => scroll_step(code) is None,
        },
{
    if is_up(code) {
        Some(-1)
    } else if is_down(code) {
        Some(1)
    } else if code == KeyCode::PageUp {
        Some(-10)
    } else if code == KeyCode::PageDown {
        Some(10)
    } else {
        None
    }
}

/// What an editing key makes of a text: one character less, nothing, or one
/// character more. Another key leaves it alone.
pub open spec fn edited(text: Seq<char>, event: KeyEvent) -> Option<Seq<char>> {
    match event.code {
        KeyCode::Backspace => Some(if text.len() > 0 { text.drop_last() } else { text }),
        KeyCode::Delete => Some(Seq::empty()),
        KeyCode::Char(c) => if c == 'u' && event.modifiers.control {
            Some(Seq::empty())
        } else if !event.modifiers.control && !event.modifiers.alt {
            Some(text.push(c))
        } else {
            None
        },
        _ => None,
    }
}

/// What an editing key makes of a text.
pub fn edit(text: &str, event: KeyEvent) -> (r: Option<String>)
    ensures
        opt_view(r) == edited(text@, event),
{
    match event.code {
        KeyCode::Backspace => {
            let v = chars_of(text);
            if v.len() > 0 {
                let r = string_of(&v, 0, v.len() - 1);
                proof {
                    assert(r@ =~= text@.drop_last());
                }
                Some(r)
            } else {
                Some(text.to_owned())
            }
        },
        KeyCode::Delete => Some(String::new()),
        KeyCode::Char(c) => if c == 'u' && event.modifiers.control {
            Some(String::new())
        } else if !event.modifiers.control && !event.modifiers.alt {
            let mut r = text.to_owned();
            r.push(c);
            Some(r)
        } else {
            None
        },
        _ => None,
    }
}

/// The form for a new task after a key that stays within it.
pub open spec fn task_form_after_key(form: TaskForm, event: KeyEvent) -> TaskForm {
    if event.code == KeyCode::Tab || event.code == KeyCode::Down {
        TaskForm { field: next_field(form.field), ..form }
    } else if event.code == KeyCode::BackTab || event.code == KeyCode::Up {
        TaskForm { field: former_field(form.field), ..form }
    } else {
        match edited(active_text(form), event) {
            Some(text) => with_active_text(form, text),
            None => form,
        }
    }
}

/// The form for a new task after a key that stays within it.
fn key_in_task_form(form: &mut CreateTaskForm, event: KeyEvent)
    ensures
        final(form)@ == task_form_after_key(old(form)@, event),
{
    if event.code == KeyCode::Tab || event.code == KeyCode::Down {
        form.next();
    } else if event.code == KeyCode::BackTab || event.code == KeyCode::Up {
        form.back();
    } else {
        let changed = edit(form.active_value().as_str(), event);
        match changed {
            Some(text) => {
                form.set_active_value(text);
            },
            None => {},
        }
    }
}

/// The state after a key in the form for a new task. While the form waits for an
/// answer, keys do nothing.
#[verifier::opaque]
pub open spec fn after_task_form_key(s: AppModel, event: KeyEvent) -> AppModel {
    match s.create_task_form {
        None => s,
        Some(form) => if form.submitting {
            s
        } else if event.code == KeyCode::Esc {
            AppModel { create_task_form: None, ..s }
        } else if event.code == KeyCode::Enter {
            submitted_task_form(s)
        } else {
            AppModel { create_task_form: Some(task_form_after_key(form, event)), ..s }
        },
    }
}

/// A key in the form for a new task.
pub fn handle_create_task_form_key(app: &mut App, event: KeyEvent)
    ensures
        final(app)@ == after_task_form_key(old(app)@, event),
{
    proof {
        reveal(after_task_form_key);
        model_fields(*app);
    }
    let submitting = match &app.create_task_form {
        None => {
            return ;
        },
        Some(form) => form.submitting,
    };
    if submitting {
        return ;
    }
    if event.code == KeyCode::Esc {
        app.cancel_create_task_form();
    } else if event.code == KeyCode::Enter {
        app.submit_create_task_form();
    } else {
        match app.take_task_form() {
            Some(form) => {
                let mut form = form;
                key_in_task_form(&mut form, event);
                app.put_task_form(Some(form));
            },
            None => {},
        }
    }
}

/// The form for a message after a key that stays within it.
pub open spec fn message_form_after_key(form: MessageForm, event: KeyEvent) -> MessageForm {
    match edited(form.message, event) {
        Some(message) => MessageForm { message, error: None, ..form },
        None => form,
    }
}

/// The form for a message after a key that stays within it.
fn key_in_message_form(form: &mut OrchestratorMessageForm, event: KeyEvent)
    ensures
        final(form)@ == message_form_after_key(old(form)@, event),
{
    let changed = edit(form.message.as_str(), event);
    match changed {
        Some(message) => {
            form.message = message;
            form.error = None;
        },
        None => {},
    }
}

/// The state after a key in the form for a message. While the form waits for an
/// answer, keys do nothing.
#[verifier::opaque]
pub open spec fn after_message_form_key(s: AppModel, event: KeyEvent) -> AppModel {
    match s.orchestrator_message_form {
        None => s,
        Some(form) => if form.submitting {
            s
        } else if event.code == KeyCode::Esc {
            AppModel { orchestrator_message_form: None, ..s }
        } else if event.code == KeyCode::Enter {
            submitted_message_form(s)
        } else {
            AppModel { orchestrator_message_form: Some(message_form_after_key(form, event)), ..s }
        },
    }
}

/// A key in the form for a message.
pub fn handle_orchestrator_message_form_key(app: &mut App, event: KeyEvent)
    ensures
        final(app)@ == after_message_form_key(old(app)@, event),
{
    proof {
        reveal(after_message_form_key);
        model_fields(*app);
    }
    let submitting = match &app.orchestrator_message_form {
        None => {
            return ;
        },
        Some(form) => form.submitting,
    };
    if submitting {
        return ;
    }
    if event.code == KeyCode::Esc {
        app.cancel_orchestrator_message_form();
    } else if event.code == KeyCode::Enter {
        app.submit_orchestrator_message_form();
    } else {
        match app.take_message_form() {
            Some(form) => {
                let mut form = form;
                key_in_message_form(&mut form, event);
                app.put_message_form(Some(form));
            },
            None => {},
        }
    }
}

/// The selected agent has a session.
pub open spec fn selected_has_session(s: AppModel) -> bool {
    s.selected_entry < s.agent_entries.len()
        && s.agent_entries[s.selected_entry as int].session_index is Some
}

/// The state with the menu for the selected agent, or with a word that none is
/// selected.
#[verifier::opaque]
pub open spec fn opened_agent_menu(s: AppModel, now: u64) -> AppModel {
    match workspace_selected(s) {
        None => AppModel { quick_notice: Some(notice("No workspace selected"@, true, now)), ..s },
        Some(workspace) => AppModel {
            quick_notice: None,
            quick_actions: Menu {
                open: true,
                actions: agent_actions(selected_has_session(s)),
                selected: 0,
                confirm: false,
                target_workspace: workspace,
                target_task_id: Seq::empty(),
                target_task_version: 0,
            },
            ..s
        },
    }
}

/// Opens the menu for the selected agent.
pub fn open_overlay(app: &mut App, now: u64)
    ensures
        final(app)@ == opened_agent_menu(old(app)@, now),
{
    proof {
        reveal(opened_agent_menu);
        model_fields(*app);
    }
    let workspace = match app.selected_workspace() {
        None => {
            app.put_notice(Some(Notice::new("No workspace selected".to_owned(), true, now)));
            return ;
        },
        Some(workspace) => workspace.to_owned(),
    };
    let has_session = app.selected_entry < app.agent_entries.len()
        && app.agent_entries[app.selected_entry].session_index.is_some();
    app.put_notice(None);
    app.put_menu(
        QuickActionState {
            open: true,
            actions: contextual_actions(has_session),
            selected: 0,
            confirm: false,
            target_workspace: workspace,
            target_task_id: String::new(),
            target_task_version: 0,
        },
    );
}

/// The state with the menu for the selected task, or with a word why there is
/// none.
#[verifier::opaque]
pub open spec fn opened_task_menu(s: AppModel, now: Now) -> AppModel {
    match task_selected(s, now.utc) {
        None => AppModel { quick_notice: Some(notice("No task selected"@, true, now.ticks)), ..s },
        Some(task) => {
            let actions = actions_on_task(task.status, task.assignee@);
            if actions.len() == 0 {
                AppModel {
                    quick_notice: Some(
                        notice(
                            "No remediation actions for task "@ + short_id(task.id@),
                            true,
                            now.ticks,
                        ),
                    ),
                    ..s
                }
            } else {
                AppModel {
                    quick_notice: None,
                    quick_actions: Menu {
                        open: true,
                        actions,
                        selected: 0,
                        confirm: false,
                        target_workspace: Seq::empty(),
                        target_task_id: task.id@,
                        target_task_version: task.version,
                    },
                    ..s
                }
            }
        },
    }
}

/// Opens the menu for the selected task.
pub fn open_task_overlay(app: &mut App, now: Now)
    ensures
        final(app)@ == opened_task_menu(old(app)@, now),
{
    proof {
        reveal(opened_task_menu);
    }
    let (actions, id, version) = match app.selected_task(now.utc) {
        None => {
            app.put_notice(Some(Notice::new("No task selected".to_owned(), true, now.ticks)));
            return ;
        },
        Some(task) => (task_actions(task), task.id.clone(), task.version),
    };
    if actions.len() == 0 {
        app.put_notice(
            Some(
                Notice::new(
                    "No remediation actions for task ".to_owned().concat(
                        short_task_id(id.as_str()).as_str(),
                    ),
                    true,
                    now.ticks,
                ),
            ),
        );
        return ;
    }
    app.put_menu(
        QuickActionState {
            open: true,
            actions,
            selected: 0,
            confirm: false,
            target_workspace: String::new(),
            target_task_id: id,
            target_task_version: version,
        },
    );
    app.put_notice(None);
}

/// The state after an action on a task was chosen: a question first where one is
/// due, then the action waits to be carried out.
#[verifier::opaque]
pub open spec fn after_task_action(s: AppModel, id: QuickActionId, now: u64) -> AppModel {
    if id.requires_confirmation() && !s.quick_actions.confirm {
        AppModel { quick_actions: Menu { confirm: true, ..s.quick_actions }, ..s }
    } else if s.quick_actions.target_task_id.len() == 0 {
        AppModel { quick_actions: Menu { open: false, ..s.quick_actions }, ..s }
    } else {
        AppModel {
            pending_task_action: Some(
                WaitingTaskAction {
                    action: id,
                    task_id: s.quick_actions.target_task_id,
                    expected_version: s.quick_actions.target_task_version,
                },
            ),
            quick_actions: Menu { open: false, confirm: false, ..s.quick_actions },
            quick_notice: Some(
                notice(
                    id.label()@ + " requested for "@ + short_id(s.quick_actions.target_task_id),
                    false,
                    now,
                ),
            ),
            ..s
        }
    }
}

/// Puts the question before an action.
fn ask(app: &mut App)
    ensures
        final(app)@ == (AppModel {
            quick_actions: Menu { confirm: true, ..old(app)@.quick_actions },
            ..old(app)@
        }),
{
    let mut menu = app.take_menu();
    menu.confirm = true;
    app.put_menu(menu);
}

/// Hides the menu, and takes a question back where `answered` says so.
fn hide_menu(app: &mut App, answered: bool)
    ensures
        final(app)@ == (AppModel {
            quick_actions: Menu {
                open: false,
                confirm: old(app)@.quick_actions.confirm && !answered,
                ..old(app)@.quick_actions
            },
            ..old(app)@
        }),
{
    let mut menu = app.take_menu();
    menu.open = false;
    if answered {
        menu.confirm = false;
    }
    app.put_menu(menu);
}

/// Chooses an action on a task.
#[verifier::rlimit(50)]
#[verifier::spinoff_prover]
fn choose_task_action(app: &mut App, id: QuickActionId, now: u64)
    ensures
        final(app)@ == after_task_action(old(app)@, id, now),
{
    proof {
        reveal(after_task_action);
        model_fields(*app);
    }
    if id.requires_confirmation() && !app.quick_actions.confirm {
        ask(app);
        return ;
    }
    let task_id = app.quick_actions.target_task_id.clone();
    let expected_version = app.quick_actions.target_task_version;
    if task_id.as_str().is_empty() {
        hide_menu(app, false);
        return ;
    }
    let text = id.label().to_owned().concat(" requested for ").concat(
        short_task_id(task_id.as_str()).as_str(),
    );
    app.put_pending_task_action(PendingTaskAction { action: id, task_id, expected_version });
    hide_menu(app, true);
    app.put_notice(Some(Notice::new(text, false, now)));
}

/// The state after a restart or stop was chosen: a question first, then it waits
/// to be carried out where the configuration is known.
#[verifier::opaque]
pub open spec fn after_lifecycle_action(
    s: AppModel,
    id: QuickActionId,
    target: Seq<char>,
    now: u64,
) -> AppModel {
    if !s.quick_actions.confirm {
        AppModel { quick_actions: Menu { confirm: true, ..s.quick_actions }, ..s }
    } else {
        AppModel {
            pending_lifecycle: Some(WaitingLifecycle { action: id, workspace: target }),
            quick_notice: Some(notice(id.label()@ + " requested for "@ + target, false, now)),
            quick_actions: Menu { open: false, confirm: false, ..s.quick_actions },
            ..s
        }
    }
}

/// Chooses a restart or stop.
fn choose_lifecycle_action(app: &mut App, id: QuickActionId, target: String, now: u64)
    ensures
        final(app)@ == after_lifecycle_action(old(app)@, id, target@, now),
{
    proof {
        reveal(after_lifecycle_action);
        model_fields(*app);
    }
    if !app.quick_actions.confirm {
        ask(app);
        return ;
    }
    let text = id.label().to_owned().concat(" requested for ").concat(target.as_str());
    app.put_pending_lifecycle(PendingLifecycle { action: id, workspace: target });
    app.put_notice(Some(Notice::new(text, false, now)));
    hide_menu(app, true);
}

/// The state after the selected action was chosen.
#[verifier::opaque]
pub open spec fn after_activation(s: AppModel, now: u64) -> AppModel {
    match selected_action(s.quick_actions) {
        None => s,
        Some(action) => if action.id.is_task_action() {
            after_task_action(s, action.id, now)
        } else {
            match workspace_selected(s) {
                None => AppModel { quick_actions: Menu { open: false, ..s.quick_actions }, ..s },
                Some(target) => if action.id == QuickActionId::Restart || action.id
                    == QuickActionId::Stop {
                    after_lifecycle_action(s, action.id, target, now)
                } else {
                    after_outcomes(s, selected_outcomes(s.quick_actions, target), now)
                },
            }
        },
    }
}

/// Chooses the selected action.
pub fn activate_overlay(app: &mut App, now: u64)
    ensures
        final(app)@ == after_activation(old(app)@, now),
{
    proof {
        reveal(after_activation);
        model_fields(*app);
    }
    let action = match app.quick_actions.current() {
        None => {
            return ;
        },
        Some(action) => action,
    };
    if action.id.is_task_action() {
        choose_task_action(app, action.id, now);
        return ;
    }
    let target = match app.selected_workspace() {
        None => {
            hide_menu(app, false);
            return ;
        },
        Some(target) => target.to_owned(),
    };
    if action.id == QuickActionId::Restart || action.id == QuickActionId::Stop {
        choose_lifecycle_action(app, action.id, target, now);
        return ;
    }
    let all = run_selected(&app.quick_actions, target.as_str());
    apply_outcomes(app, all, now);
}

/// The state after a key in the menu.
#[verifier::opaque]
pub open spec fn after_menu_key(s: AppModel, event: KeyEvent, now: u64) -> AppModel {
    if event.code == KeyCode::Esc {
        AppModel {
            quick_actions: Menu { open: false, confirm: false, selected: 0, ..s.quick_actions },
            ..s
        }
    } else if is_up(event.code) {
        AppModel { quick_actions: menu_moved(s.quick_actions, -1), ..s }
    } else if is_down(event.code) {
        AppModel { quick_actions: menu_moved(s.quick_actions, 1), ..s }
    } else if event.code == KeyCode::Enter {
        after_activation(s, now)
    } else {
        s
    }
}

/// A key in the menu.
pub fn handle_overlay_key(app: &mut App, event: KeyEvent, now: u64)
    ensures
        final(app)@ == after_menu_key(old(app)@, event, now),
{
    proof {
        reveal(after_menu_key);
    }
    if event.code == KeyCode::Esc {
        let mut menu = app.take_menu();
        menu.open = false;
        menu.confirm = false;
        menu.selected = 0;
        app.put_menu(menu);
    } else if is_up(event.code) {
        let mut menu = app.take_menu();
        move_overlay_selection(&mut menu, -1);
        app.put_menu(menu);
    } else if is_down(event.code) {
        let mut menu = app.take_menu();
        move_overlay_selection(&mut menu, 1);
        app.put_menu(menu);
    } else if event.code == KeyCode::Enter {
        activate_overlay(app, now);
    }
}

/// The state after a bracket key: another tab of the agent's detail where that
/// has the focus, else another view.
#[verifier::opaque]
pub open spec fn after_bracket(s: AppModel, delta: int, now: Timestamp) -> AppModel {
    if s.focus == Focus::Detail && s.stream == StreamView::Agents {
        stepped_detail_tab(s, delta)
    } else {
        stepped_stream(s, delta, now)
    }
}

/// A bracket key.
pub fn handle_bracket_tab(app: &mut App, delta: i32, now: Timestamp)
    ensures
        final(app)@ == after_bracket(old(app)@, delta as int, now),
{
    proof {
        reveal(after_bracket);
        model_fields(*app);
    }
    if app.focus == Focus::Detail && app.stream == StreamView::Agents {
        app.step_agent_detail_tab(delta);
    } else {
        app.step_stream(delta, now);
    }
}

/// The state after a key in the list of agents.
#[verifier::opaque]
pub open spec fn after_agents_key(s: AppModel, code: KeyCode, now: u64) -> AppModel {
    if is_up(code) {
        moved_selection(s, -1)
    } else if is_down(code) {
        moved_selection(s, 1)
    } else if code == KeyCode::Enter {
        opened_agent_menu(s, now)
    } else {
        s
    }
}

fn key_in_agents(app: &mut App, code: KeyCode, now: u64)
    ensures
        final(app)@ == after_agents_key(old(app)@, code, now),
{
    proof {
        reveal(after_agents_key);
    }
    if is_up(code) {
        app.move_selection(-1);
    } else if is_down(code) {
        app.move_selection(1);
    } else if code == KeyCode::Enter {
        open_overlay(app, now);
    }
}

/// The state after a key in the list of tasks.
#[verifier::opaque]
pub open spec fn after_tasks_key(s: AppModel, code: KeyCode, now: Now) -> AppModel {
    if code == KeyCode::Char('n') {
        opened_task_form(s)
    } else if is_up(code) {
        moved_task_selection(s, -1, now.utc)
    } else if is_down(code) {
        moved_task_selection(s, 1, now.utc)
    } else if code == KeyCode::Enter {
        opened_task_menu(s, now)
    } else {
        s
    }
}

fn key_in_tasks(app: &mut App, code: KeyCode, now: Now)
    ensures
        final(app)@ == after_tasks_key(old(app)@, code, now),
{
    proof {
        reveal(after_tasks_key);
    }
    if code == KeyCode::Char('n') {
        app.open_create_task_form();
    } else if is_up(code) {
        app.move_task_selection(-1, now.utc);
    } else if is_down(code) {
        app.move_task_selection(1, now.utc);
    } else if code == KeyCode::Enter {
        open_task_overlay(app, now);
    }
}

/// The state after a key in the list of messages.
#[verifier::opaque]
pub open spec fn after_messages_key(s: AppModel, code: KeyCode) -> AppModel {
    match scroll_step(code) {
        Some(delta) => scrolled_messages(s, delta),
        None => if is_home(code) {
            messages_at_head(s)
        } else if is_end(code) {
            messages_at_tail(s)
        } else {
            s
        },
    }
}

fn key_in_messages(app: &mut App, code: KeyCode)
    ensures
        final(app)@ == after_messages_key(old(app)@, code),
{
    proof {
        reveal(after_messages_key);
    }
    match scroll_delta(code) {
        Some(delta) => app.scroll_messages(delta),
        None => if is_home(code) {
            app.messages_to_head();
        } else if is_end(code) {
            app.messages_to_tail();
        },
    }
}

/// The state after a key in the list of usage.
#[verifier::opaque]
pub open spec fn after_tokens_key(s: AppModel, code: KeyCode) -> AppModel {
    match scroll_step(code) {
        Some(delta) => AppModel { tokens_cursor: shifted(s.tokens_cursor, delta), ..s },
        None => if is_home(code) {
            AppModel { tokens_cursor: top(), ..s }
        } else if is_end(code) {
            AppModel { tokens_cursor: PaneCursor { index: token_rows(s) as usize }, ..s }
        } else {
            s
        },
    }
}

fn key_in_tokens(app: &mut App, code: KeyCode)
    ensures
        final(app)@ == after_tokens_key(old(app)@, code),
{
    proof {
        reveal(after_tokens_key);
    }
    match scroll_delta(code) {
        Some(delta) => app.scroll_tokens(delta),
        None => if is_home(code) {
            app.tokens_to_head();
        } else if is_end(code) {
            app.tokens_to_tail();
        },
    }
}

/// The state after a key in the mirrored terminal.
#[verifier::opaque]
pub open spec fn after_stream_key(s: AppModel, code: KeyCode) -> AppModel {
    match scroll_step(code) {
        Some(delta) => scrolled_stream(s, delta),
        None => if is_home(code) {
            AppModel { stream_cursor: top(), stream_follow_tail: false, ..s }
        } else if is_end(code) {
            AppModel { stream_cursor: top(), stream_follow_tail: true, ..s }
        } else {
            s
        },
    }
}

fn key_in_stream(app: &mut App, code: KeyCode)
    ensures
        final(app)@ == after_stream_key(old(app)@, code),
{
    proof {
        reveal(after_stream_key);
    }
    match scroll_delta(code) {
        Some(delta) => app.scroll_stream(delta),
        None => if is_home(code) {
            app.stream_to_head();
        } else if is_end(code) {
            app.stream_to_tail();
        },
    }
}

/// The state after a key in the list of the active tab.
#[verifier::opaque]
pub open spec fn after_list_key(s: AppModel, code: KeyCode, now: Now) -> AppModel {
    match s.stream {
        StreamView::Agents => after_agents_key(s, code, now.ticks),
        StreamView::Tasks => after_tasks_key(s, code, now),
        StreamView::Messages => after_messages_key(s, code),
        StreamView::Tokens => after_tokens_key(s, code),
        StreamView::Stream => after_stream_key(s, code),
    }
}

/// A key in the list of the active tab.
pub fn handle_list_key(app: &mut App, event: KeyEvent, now: Now)
    ensures
        final(app)@ == after_list_key(old(app)@, event.code, now),
{
    proof {
        reveal(after_list_key);
        model_fields(*app);
    }
    match app.stream {
        StreamView::Agents => key_in_agents(app, event.code, now.ticks),
        StreamView::Tasks => key_in_tasks(app, event.code, now),
        StreamView::Messages => key_in_messages(app, event.code),
        StreamView::Tokens => key_in_tokens(app, event.code),
        StreamView::Stream => key_in_stream(app, event.code),
    }
}

/// The state with the detail scrolled.
pub open spec fn scrolled_detail(s: AppModel, delta: int) -> AppModel {
    AppModel { detail_scroll: shifted(s.detail_scroll, delta), ..s }
}

/// A detail whose end is followed: the messages and the activity of an agent.
pub open spec fn is_timeline_tab(tab: AgentDetailTab) -> bool {
    tab == AgentDetailTab::Messages || tab == AgentDetailTab::Activity
}

/// The state after a key in a detail whose end is followed. Going up stops
/// following it.
#[verifier::opaque]
pub open spec fn after_timeline_key(s: AppModel, code: KeyCode) -> AppModel {
    match scroll_step(code) {
        Some(delta) => AppModel {
            agent_detail_follow_tail: s.agent_detail_follow_tail && delta > 0,
            ..scrolled_detail(s, delta)
        },
        None => if is_home(code) {
            AppModel { agent_detail_follow_tail: false, detail_scroll: top(), ..s }
        } else if is_end(code) {
            AppModel { agent_detail_follow_tail: true, ..s }
        } else if code == KeyCode::Esc {
            AppModel { focus: Focus::List, ..s }
        } else {
            s
        },
    }
}

fn key_in_timeline(app: &mut App, code: KeyCode)
    ensures
        final(app)@ == after_timeline_key(old(app)@, code),
{
    proof {
        reveal(after_timeline_key);
    }
    match scroll_delta(code) {
        Some(delta) => {
            app.scroll_detail(delta);
            if delta < 0 {
                app.put_detail_follow(false);
            }
        },
        None => if is_home(code) {
            app.put_detail_follow(false);
            app.put_detail_scroll(0);
        } else if is_end(code) {
            app.put_detail_follow(true);
        } else if code == KeyCode::Esc {
            app.put_focus(Focus::List);
        },
    }
}

/// The state after a key in any other detail.
#[verifier::opaque]
pub open spec fn after_plain_detail_key(s: AppModel, code: KeyCode) -> AppModel {
    match scroll_step(code) {
        Some(delta) => scrolled_detail(s, delta),
        None => if is_home(code) {
            AppModel { detail_scroll: top(), ..s }
        } else if code == KeyCode::Esc {
            AppModel { focus: Focus::List, ..s }
        } else {
            s
        },
    }
}

fn key_in_plain_detail(app: &mut App, code: KeyCode)
    ensures
        final(app)@ == after_plain_detail_key(old(app)@, code),
{
    proof {
        reveal(after_plain_detail_key);
    }
    match scroll_delta(code) {
        Some(delta) => app.scroll_detail(delta),
        None => if is_home(code) {
            app.put_detail_scroll(0);
        } else if code == KeyCode::Esc {
            app.put_focus(Focus::List);
        },
    }
}

/// The state after a key in the detail.
#[verifier::opaque]
pub open spec fn after_detail_key(s: AppModel, code: KeyCode) -> AppModel {
    if s.stream == StreamView::Agents && code == KeyCode::Char('h') {
        stepped_detail_tab(s, -1)
    } else if s.stream == StreamView::Agents && code == KeyCode::Char('l') {
        stepped_detail_tab(s, 1)
    } else if s.stream == StreamView::Agents && is_timeline_tab(s.agent_detail_tab) {
        after_timeline_key(s, code)
    } else {
        after_plain_detail_key(s, code)
    }
}

/// A key in the detail.
pub fn handle_detail_key(app: &mut App, event: KeyEvent)
    ensures
        final(app)@ == after_detail_key(old(app)@, event.code),
{
    proof {
        reveal(after_detail_key);
        model_fields(*app);
    }
    let agents = app.stream == StreamView::Agents;
    let timeline = app.agent_detail_tab == AgentDetailTab::Messages || app.agent_detail_tab
        == AgentDetailTab::Activity;
    if agents && event.code == KeyCode::Char('h') {
        app.step_agent_detail_tab(-1);
    } else if agents && event.code == KeyCode::Char('l') {
        app.step_agent_detail_tab(1);
    } else if agents && timeline {
        key_in_timeline(app, event.code);
    } else {
        key_in_plain_detail(app, event.code);
    }
}

/// The tab that a digit stands for.
pub open spec fn tab_of_digit(code: KeyCode) -> Option<int> {
    if code == KeyCode::Char('1') {
        Some(0)
    } else if code == KeyCode::Char('2') {
        Some(1)
    } else if code == KeyCode::Char('3') {
        Some(2)
    } else if code == KeyCode::Char('4') {
        Some(3)
    } else if code == KeyCode::Char('5') {
        Some(4)
    } else {
        None
    }
}

fn digit_tab(code: KeyCode) -> (r: Option<usize>)
    ensures
        match r {
            Some(i) => tab_of_digit(code) == Some(i as int),
            None => tab_of_digit(code) is None,
        },
{
    if code == KeyCode::Char('1') {
        Some(0)
    } else if code == KeyCode::Char('2') {
        Some(1)
    } else if code == KeyCode::Char('3') {
        Some(2)
    } else if code == KeyCode::Char('4') {
        Some(3)
    } else if code == KeyCode::Char('5') {
        Some(4)
    } else {
        None
    }
}

/// The state after a key that means the same everywhere, where the key is one.
#[verifier::opaque]
pub open spec fn after_global_key(s: AppModel, code: KeyCode, now: Now) -> Option<AppModel> {
    if code == KeyCode::Char('?') {
        Some(AppModel { help_open: true, ..s })
    } else if code == KeyCode::Tab {
        Some(cycled_focus(s, 1))
    } else if code == KeyCode::BackTab {
        Some(cycled_focus(s, -1))
    } else if code == KeyCode::Char('[') {
        Some(after_bracket(s, -1, now.utc))
    } else if code == KeyCode::Char(']') {
        Some(after_bracket(s, 1, now.utc))
    } else if tab_of_digit(code) is Some {
        Some(selected_stream(s, tab_of_digit(code)->0))
    } else if code == KeyCode::Char('f') {
        Some(cycled_task_filter(s, now.utc))
    } else if code == KeyCode::Char('m') {
        Some(opened_message_form(s))
    } else if code == KeyCode::Char('r') {
        Some(
            AppModel {
                force_refresh: true,
                quick_notice: Some(notice("refresh requested"@, false, now.ticks)),
                ..s
            },
        )
    } else {
        None
    }
}

/// A key that means the same everywhere; tells whether the key is one.
fn handle_global_key(app: &mut App, code: KeyCode, now: Now) -> (done: bool)
    ensures
        done == (after_global_key(old(app)@, code, now) is Some),
        done ==> Some(final(app)@) == after_global_key(old(app)@, code, now),
        !done ==> final(app)@ == old(app)@,
{
    proof {
        reveal(after_global_key);
    }
    if code == KeyCode::Char('?') {
        app.put_help(true);
        return true;
    }
    if code == KeyCode::Tab {
        app.cycle_focus(1);
        return true;
    }
    if code == KeyCode::BackTab {
        app.cycle_focus(-1);
        return true;
    }
    if code == KeyCode::Char('[') {
        handle_bracket_tab(app, -1, now.utc);
        return true;
    }
    if code == KeyCode::Char(']') {
        handle_bracket_tab(app, 1, now.utc);
        return true;
    }
    if let Some(idx) = digit_tab(code) {
        app.select_stream(idx);
        return true;
    }
    if code == KeyCode::Char('f') {
        app.cycle_task_filter(now.utc);
        return true;
    }
    if code == KeyCode::Char('m') {
        app.open_orchestrator_message_form();
        return true;
    }
    if code == KeyCode::Char('r') {
        app.put_force_refresh();
        app.put_notice(Some(Notice::new("refresh requested".to_owned(), false, now.ticks)));
        return true;
    }
    false
}

/// The state after a key where neither a form nor the help nor the menu is open.
#[verifier::opaque]
pub open spec fn after_body_key(s: AppModel, code: KeyCode, now: Now) -> AppModel {
    let t = with_visible_view(s);
    match after_global_key(t, code, now) {
        Some(u) => u,
        None => match t.focus {
            Focus::List => after_list_key(t, code, now),
            Focus::Detail => after_detail_key(t, code),
        },
    }
}

fn handle_body_key(app: &mut App, event: KeyEvent, now: Now)
    ensures
        final(app)@ == after_body_key(old(app)@, event.code, now),
{
    proof {
        reveal(after_body_key);
    }
    app.ensure_stream_view_visible();
    if handle_global_key(app, event.code, now) {
        return ;
    }
    proof {
        model_fields(*app);
    }
    match app.focus {
        Focus::List => handle_list_key(app, event, now),
        Focus::Detail => handle_detail_key(app, event),
    }
}

/// The state after something happened to a key.
///
/// A key that goes up does nothing. Control and `c` end the view at any time,
/// `q` ends it outside of the forms, where it is a letter. An open form, the
/// help and the menu take the keys, in this order.
pub open spec fn after_key(s: AppModel, event: KeyEvent, now: Now) -> AppModel {
    if event.kind == KeyEventKind::Release {
        s
    } else if event.code == KeyCode::Char('c') && event.modifiers.control {
        AppModel { quit: true, ..s }
    } else if s.orchestrator_message_form is Some {
        after_message_form_key(s, event)
    } else if s.create_task_form is Some {
        after_task_form_key(s, event)
    } else if event.code == KeyCode::Char('q') {
        AppModel { quit: true, ..s }
    } else if s.help_open {
        if event.code == KeyCode::Char('?') || event.code == KeyCode::Esc {
            AppModel { help_open: false, ..s }
        } else {
            s
        }
    } else if s.quick_actions.open {
        after_menu_key(s, event, now.ticks)
    } else {
        after_body_key(s, event.code, now)
    }
}

/// Handles something that happened to a key.
pub fn handle_key(app: &mut App, event: KeyEvent, now: Now)
    ensures
        final(app)@ == after_key(old(app)@, event, now),
{
    proof {
        model_fields(*app);
    }
    if event.kind == KeyEventKind::Release {
        return ;
    }
    if event.code == KeyCode::Char('c') && event.modifiers.control {
        app.put_quit();
        return ;
    }
    if app.orchestrator_message_form.is_some() {
        handle_orchestrator_message_form_key(app, event);
        return ;
    }
    if app.create_task_form.is_some() {
        handle_create_task_form_key(app, event);
        return ;
    }
    if event.code == KeyCode::Char('q') {
        app.put_quit();
        return ;
    }
    if app.help_open {
        if event.code == KeyCode::Char('?') || event.code == KeyCode::Esc {
            app.put_help(false);
        }
        return ;
    }
    if app.quick_actions.open {
        handle_overlay_key(app, event, now.ticks);
        return ;
    }
    handle_body_key(app, event, now);
}

/// The state after the mouse wheel turned: up for -1, down for 1. The menu and
/// the help keep what lies below them in place.
#[verifier::opaque]
pub open spec fn after_scroll(s: AppModel, direction: int, now: Timestamp) -> AppModel {
    if s.quick_actions.open || s.help_open {
        s
    } else {
        let t = with_visible_view(s);
        match t.focus {
            Focus::List => match t.stream {
                StreamView::Agents => moved_selection(t, direction),
                StreamView::Tasks => moved_task_selection(t, direction, now),
                StreamView::Messages => scrolled_messages(t, direction),
                StreamView::Tokens => AppModel {
                    tokens_cursor: shifted(t.tokens_cursor, direction),
                    ..t
                },
                StreamView::Stream => scrolled_stream(t, direction),
            },
            Focus::Detail => scrolled_detail(t, direction),
        }
    }
}

/// Handles a turn of the mouse wheel.
pub fn handle_scroll(app: &mut App, direction: i32, now: Timestamp)
    ensures
        final(app)@ == after_scroll(old(app)@, direction as int, now),
{
    proof {
        reveal(after_scroll);
        model_fields(*app);
    }
    if app.quick_actions.open || app.help_open {
        return ;
    }
    app.ensure_stream_view_visible();
    proof {
        model_fields(*app);
    }
    match app.focus {
        Focus::List => match app.stream {
            StreamView::Agents => app.move_selection(direction),
            StreamView::Tasks => app.move_task_selection(direction, now),
            StreamView::Messages => app.scroll_messages(direction),
            StreamView::Tokens => app.scroll_tokens(direction),
            StreamView::Stream => app.scroll_stream(direction),
        },
        Focus::Detail => app.scroll_detail(direction),
    }
}

} // verus!
