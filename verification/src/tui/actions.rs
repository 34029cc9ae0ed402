//! The menu of actions on an agent or a task.
//!
//! What an action does to the view is worked out here; what it does to the
//! outside (a key sent to tmux, a session stopped) is left to the caller, who
//! hands the outcome back.

use vstd::prelude::*;

use crate::proto::types::{Task, TaskStatus};
use crate::tui::state::{App, AppModel};
use crate::tui::stream::StreamView;
use crate::tui::tasks::is_open;

verus! {

/// How long a notice is shown, in milliseconds.
pub const NOTICE_TTL: u64 = 3000;

/// The actions.
#[derive(Debug, Clone, Copy, PartialEq, Eq, Structural)]
pub enum QuickActionId {
    StreamTmux,
    ShowTasks,
    ShowMessages,
    Interrupt,
    Restart,
    Stop,
    TaskWake,
    TaskInterrupt,
    TaskRetry,
    TaskCancel,
}

/// The question before an action that cannot be taken back.
pub open spec fn confirm_text(id: QuickActionId, target: Seq<char>) -> Seq<char> {
    match id {
        QuickActionId::Restart => "confirm restart "@ + target + "?"@,
        QuickActionId::Stop => "confirm stop "@ + target + "?"@,
        QuickActionId::TaskCancel => "confirm cancel task "@ + target + "?"@,
        _ => Seq::empty(),
    }
}

impl QuickActionId {
    /// The name of the action in the menu.
    #[verifier::allow_in_spec]
    pub fn label(self) -> &'static str
        returns
            (match self {
                QuickActionId::StreamTmux => "Stream tmux",
                QuickActionId::ShowTasks => "Open tasks",
                QuickActionId::ShowMessages => "Open messages",
                QuickActionId::Interrupt => "Interrupt",
                QuickActionId::Restart => "Restart",
                QuickActionId::Stop => "Stop",
                QuickActionId::TaskWake => "Wake task",
                QuickActionId::TaskInterrupt => "Interrupt assignee",
                QuickActionId::TaskRetry => "Retry task",
                QuickActionId::TaskCancel => "Cancel task",
            }),
    {
        match self {
            QuickActionId::StreamTmux => "Stream tmux",
            QuickActionId::ShowTasks => "Open tasks",
            QuickActionId::ShowMessages => "Open messages",
            QuickActionId::Interrupt => "Interrupt",
            QuickActionId::Restart => "Restart",
            QuickActionId::Stop => "Stop",
            QuickActionId::TaskWake => "Wake task",
            QuickActionId::TaskInterrupt => "Interrupt assignee",
            QuickActionId::TaskRetry => "Retry task",
            QuickActionId::TaskCancel => "Cancel task",
        }
    }

    /// Whether the action is only carried out after a question.
    #[verifier::allow_in_spec]
    pub fn requires_confirmation(self) -> bool
        returns
            self == QuickActionId::Restart || self == QuickActionId::Stop || self
                == QuickActionId::TaskCancel,
    {
        self == QuickActionId::Restart || self == QuickActionId::Stop || self
            == QuickActionId::TaskCancel
    }

    /// The question before the action; empty where none is asked.
    pub fn confirm_prompt(self, target: &str) -> (r: String)
        ensures
            r@ == confirm_text(self, target@),
    {
        match self {
            QuickActionId::Restart => "confirm restart ".to_owned().concat(target).concat("?"),
            QuickActionId::Stop => "confirm stop ".to_owned().concat(target).concat("?"),
            QuickActionId::TaskCancel => "confirm cancel task ".to_owned().concat(target).concat("?"),
            _ => String::new(),
        }
    }

    /// Whether the action is about a task.
    #[verifier::allow_in_spec]
    pub fn is_task_action(self) -> bool
        returns
            self == QuickActionId::TaskWake || self == QuickActionId::TaskInterrupt || self
                == QuickActionId::TaskRetry || self == QuickActionId::TaskCancel,
    {
        self == QuickActionId::TaskWake || self == QuickActionId::TaskInterrupt || self
            == QuickActionId::TaskRetry || self == QuickActionId::TaskCancel
    }
}

/// A question is asked exactly before the actions that require confirmation.
pub proof fn question_iff_confirmation(id: QuickActionId, target: Seq<char>)
    ensures
        id.requires_confirmation() <==> confirm_text(id, target).len() > 0,
{
    reveal_strlit("confirm restart ");
    reveal_strlit("confirm stop ");
    reveal_strlit("confirm cancel task ");
}

/// An entry of the menu.
#[derive(Debug, Clone, Copy, PartialEq, Eq, Structural)]
pub struct QuickAction {
    pub id: QuickActionId,
}

/// The actions on an agent; three of them need a session.
pub open spec fn agent_actions(has_session: bool) -> Seq<QuickAction> {
    if has_session {
        seq![
            QuickAction { id: QuickActionId::StreamTmux },
            QuickAction { id: QuickActionId::ShowTasks },
            QuickAction { id: QuickActionId::ShowMessages },
            QuickAction { id: QuickActionId::Interrupt },
            QuickAction { id: QuickActionId::Restart },
            QuickAction { id: QuickActionId::Stop },
        ]
    } else {
        seq![
            QuickAction { id: QuickActionId::ShowTasks },
            QuickAction { id: QuickActionId::ShowMessages },
            QuickAction { id: QuickActionId::Restart },
        ]
    }
}

/// The actions on an agent that has a session.
pub fn default_actions() -> (r: Vec<QuickAction>)
    ensures
        r@ == agent_actions(true),
{
    contextual_actions(true)
}

/// The actions on an agent.
pub fn contextual_actions(has_session: bool) -> (r: Vec<QuickAction>)
    ensures
        r@ == agent_actions(has_session),
{
    let mut r: Vec<QuickAction> = Vec::new();
    if has_session {
        r.push(QuickAction { id: QuickActionId::StreamTmux });
    }
    r.push(QuickAction { id: QuickActionId::ShowTasks });
    r.push(QuickAction { id: QuickActionId::ShowMessages });
    if has_session {
        r.push(QuickAction { id: QuickActionId::Interrupt });
    }
    r.push(QuickAction { id: QuickActionId::Restart });
    if has_session {
        r.push(QuickAction { id: QuickActionId::Stop });
    }
    proof {
        assert(r@ =~= agent_actions(has_session));
    }
    r
}

/// The actions on a task: none once it has ended; its assignee can only be
/// interrupted where it has one.
pub open spec fn actions_on_task(status: TaskStatus, assignee: Seq<char>) -> Seq<QuickAction> {
    if !is_open(status) {
        Seq::empty()
    } else if assignee.len() > 0 {
        seq![
            QuickAction { id: QuickActionId::TaskWake },
            QuickAction { id: QuickActionId::TaskInterrupt },
            QuickAction { id: QuickActionId::TaskRetry },
            QuickAction { id: QuickActionId::TaskCancel },
        ]
    } else {
        seq![
            QuickAction { id: QuickActionId::TaskWake },
            QuickAction { id: QuickActionId::TaskRetry },
            QuickAction { id: QuickActionId::TaskCancel },
        ]
    }
}

/// The actions on a task.
pub fn task_actions(task: &Task) -> (r: Vec<QuickAction>)
    ensures
        r@ == actions_on_task(task.status, task.assignee@),
{
    let mut r: Vec<QuickAction> = Vec::new();
    if task.status != TaskStatus::Pending && task.status != TaskStatus::InProgress && task.status
        != TaskStatus::Blocked {
        return r;
    }
    r.push(QuickAction { id: QuickActionId::TaskWake });
    if !task.assignee.as_str().is_empty() {
        r.push(QuickAction { id: QuickActionId::TaskInterrupt });
    }
    r.push(QuickAction { id: QuickActionId::TaskRetry });
    r.push(QuickAction { id: QuickActionId::TaskCancel });
    proof {
        assert(r@ =~= actions_on_task(task.status, task.assignee@));
    }
    r
}

/// The menu: its actions, the selected one, whether a question stands, and what
/// the actions are about.
#[derive(Debug, Clone, Default)]
pub struct QuickActionState {
    pub open: bool,
    pub actions: Vec<QuickAction>,
    pub selected: usize,
    pub confirm: bool,
    pub target_workspace: String,
    pub target_task_id: String,
    pub target_task_version: i64,
}

/// The menu as a value.
pub struct Menu {
    pub open: bool,
    pub actions: Seq<QuickAction>,
    pub selected: usize,
    pub confirm: bool,
    pub target_workspace: Seq<char>,
    pub target_task_id: Seq<char>,
    pub target_task_version: i64,
}

impl View for QuickActionState {
    type V = Menu;

    open spec fn view(&self) -> Menu {
        Menu {
            open: self.open,
            actions: self.actions@,
            selected: self.selected,
            confirm: self.confirm,
            target_workspace: self.target_workspace@,
            target_task_id: self.target_task_id@,
            target_task_version: self.target_task_version,
        }
    }
}

/// A closed menu without actions.
pub open spec fn no_menu() -> Menu {
    Menu {
        open: false,
        actions: Seq::empty(),
        selected: 0,
        confirm: false,
        target_workspace: Seq::empty(),
        target_task_id: Seq::empty(),
        target_task_version: 0,
    }
}

/// The selected action.
pub open spec fn selected_action(menu: Menu) -> Option<QuickAction> {
    if menu.selected < menu.actions.len() {
        Some(menu.actions[menu.selected as int])
    } else {
        None
    }
}

impl QuickActionState {
    /// A closed menu without actions.
    pub fn new() -> (r: QuickActionState)
        ensures
            r@ == no_menu(),
    {
        QuickActionState {
            open: false,
            actions: Vec::new(),
            selected: 0,
            confirm: false,
            target_workspace: String::new(),
            target_task_id: String::new(),
            target_task_version: 0,
        }
    }

    /// The menu closed, without a target.
    pub fn closed(self) -> (r: QuickActionState)
        ensures
            r@ == closed_menu(self@),
    {
        QuickActionState {
            open: false,
            actions: self.actions,
            selected: 0,
            confirm: false,
            target_workspace: String::new(),
            target_task_id: String::new(),
            target_task_version: 0,
        }
    }

    /// The selected action.
    pub fn current(&self) -> (r: Option<QuickAction>)
        ensures
            r == selected_action(self@),
    {
        if self.selected < self.actions.len() {
            Some(self.actions[self.selected])
        } else {
            None
        }
    }
}

/// What an action leads to.
#[derive(Debug, Clone, PartialEq, Eq)]
pub enum ActionOutcome {
    /// A question has to be answered first.
    NeedsConfirm,
    /// Something is said to the user.
    Notice { text: String, error: bool },
    /// The body shows another view.
    ChangeStream(StreamView),
    /// The terminal of a workspace is mirrored.
    StartStreaming(String),
    /// A workspace is to be interrupted; what came of it goes into
    /// [`interrupt_outcomes`].
    Interrupt(String),
    /// The menu closes.
    Close,
}

/// What an action leads to, as a value.
pub enum Outcome {
    NeedsConfirm,
    Notice { text: Seq<char>, error: bool },
    ChangeStream(StreamView),
    StartStreaming(Seq<char>),
    Interrupt(Seq<char>),
    Close,
}

impl View for ActionOutcome {
    type V = Outcome;

    open spec fn view(&self) -> Outcome {
        match *self {
            ActionOutcome::NeedsConfirm => Outcome::NeedsConfirm,
            ActionOutcome::Notice { text, error } => Outcome::Notice { text: text@, error },
            ActionOutcome::ChangeStream(view) => Outcome::ChangeStream(view),
            ActionOutcome::StartStreaming(workspace) => Outcome::StartStreaming(workspace@),
            ActionOutcome::Interrupt(workspace) => Outcome::Interrupt(workspace@),
            ActionOutcome::Close => Outcome::Close,
        }
    }
}

/// What actions lead to, as values.
pub open spec fn outcomes(v: Seq<ActionOutcome>) -> Seq<Outcome> {
    v.map_values(|o: ActionOutcome| o@)
}

/// What the selected action leads to on the workspace `target`.
///
/// A session is restarted or stopped elsewhere, where the configuration is
/// known; an action on a task only closes the menu here.
pub open spec fn selected_outcomes(menu: Menu, target: Seq<char>) -> Seq<Outcome> {
    match selected_action(menu) {
        None => seq![Outcome::Close],
        Some(action) => if action.id.requires_confirmation() && !menu.confirm {
            seq![Outcome::NeedsConfirm]
        } else {
            match action.id {
                QuickActionId::StreamTmux => seq![
                    Outcome::ChangeStream(StreamView::Stream),
                    Outcome::StartStreaming(target),
                    Outcome::Close,
                ],
                QuickActionId::ShowTasks => seq![
                    Outcome::ChangeStream(StreamView::Tasks),
                    Outcome::Close,
                ],
                QuickActionId::ShowMessages => seq![
                    Outcome::ChangeStream(StreamView::Messages),
                    Outcome::Close,
                ],
                QuickActionId::Interrupt => seq![Outcome::Interrupt(target)],
                QuickActionId::Restart => seq![needs_context(action.id)],
                QuickActionId::Stop => seq![needs_context(action.id)],
                QuickActionId::TaskWake => seq![Outcome::Close],
                QuickActionId::TaskInterrupt => seq![Outcome::Close],
                QuickActionId::TaskRetry => seq![Outcome::Close],
                QuickActionId::TaskCancel => seq![Outcome::Close],
            }
        },
    }
}

/// That a session cannot be restarted or stopped without the configuration.
pub open spec fn needs_context(id: QuickActionId) -> Outcome {
    Outcome::Notice {
        text: "Lifecycle ("@ + id.label()@ + ") needs --config context"@,
        error: true,
    }
}

/// What the selected action leads to on the workspace `target`.
pub fn run_selected(state: &QuickActionState, target: &str) -> (r: Vec<ActionOutcome>)
    ensures
        outcomes(r@) == selected_outcomes(state@, target@),
{
    let action = match state.current() {
        None => {
            let r = vec![ActionOutcome::Close];
            proof {
                assert(outcomes(r@) =~= selected_outcomes(state@, target@));
            }
            return r;
        },
        Some(action) => action,
    };
    let r = if action.id.requires_confirmation() && !state.confirm {
        vec![ActionOutcome::NeedsConfirm]
    } else {
        match action.id {
            QuickActionId::StreamTmux => vec![
                ActionOutcome::ChangeStream(StreamView::Stream),
                ActionOutcome::StartStreaming(target.to_owned()),
                ActionOutcome::Close,
            ],
            QuickActionId::ShowTasks => vec![
                ActionOutcome::ChangeStream(StreamView::Tasks),
                ActionOutcome::Close,
            ],
            QuickActionId::ShowMessages => vec![
                ActionOutcome::ChangeStream(StreamView::Messages),
                ActionOutcome::Close,
            ],
            QuickActionId::Interrupt => vec![ActionOutcome::Interrupt(target.to_owned())],
            QuickActionId::Restart | QuickActionId::Stop => vec![
                ActionOutcome::Notice {
                    text: "Lifecycle (".to_owned().concat(action.id.label()).concat(
                        ") needs --config context",
                    ),
                    error: true,
                },
            ],
            QuickActionId::TaskWake
            | QuickActionId::TaskInterrupt
            | QuickActionId::TaskRetry
            | QuickActionId::TaskCancel => vec![ActionOutcome::Close],
        }
    };
    proof {
        assert(outcomes(r@) =~= selected_outcomes(state@, target@));
    }
    r
}

/// What an interruption that was tried leads to.
pub fn interrupt_outcomes(target: &str, result: Result<(), String>) -> (r: Vec<ActionOutcome>)
    ensures
        outcomes(r@) == match result {
            Ok(_) => seq![
                Outcome::Notice { text: "Interrupted "@ + target@, error: false },
                Outcome::Close,
            ],
            Err(e) => seq![Outcome::Notice { text: e@, error: true }],
        },
{
    match result {
        Ok(_) => {
            let r = vec![
                ActionOutcome::Notice { text: "Interrupted ".to_owned().concat(target), error: false },
                ActionOutcome::Close,
            ];
            proof {
                assert(outcomes(r@) =~= seq![
                    Outcome::Notice { text: "Interrupted "@ + target@, error: false },
                    Outcome::Close,
                ]);
            }
            r
        },
        Err(e) => {
            let r = vec![ActionOutcome::Notice { text: e, error: true }];
            proof {
                assert(outcomes(r@) =~= seq![Outcome::Notice { text: e@, error: true }]);
            }
            r
        },
    }
}

/// What a restart or stop that was tried leads to; `result` is the name of the
/// session, or why it failed. No other action is a matter of a session.
pub open spec fn tried_lifecycle(id: QuickActionId, result: Result<Seq<char>, Seq<char>>) -> Seq<
    Outcome,
> {
    if id != QuickActionId::Restart && id != QuickActionId::Stop {
        seq![Outcome::Close]
    } else {
        match result {
            Ok(name) => seq![
                Outcome::Notice {
                    text: if id == QuickActionId::Restart {
                        "Restart requested for "@ + name
                    } else {
                        "Stopped "@ + name
                    },
                    error: false,
                },
                Outcome::Close,
            ],
            Err(e) => seq![Outcome::Notice { text: e, error: true }],
        }
    }
}

/// The text of a name or an error.
pub open spec fn result_text(result: Result<String, String>) -> Result<Seq<char>, Seq<char>> {
    match result {
        Ok(name) => Ok(name@),
        Err(e) => Err(e@),
    }
}

/// What a restart or stop that was tried leads to.
pub fn apply_lifecycle(action: QuickActionId, result: Result<String, String>) -> (r: Vec<
    ActionOutcome,
>)
    ensures
        outcomes(r@) == tried_lifecycle(action, result_text(result)),
{
    let ghost told = result_text(result);
    let r = if action != QuickActionId::Restart && action != QuickActionId::Stop {
        vec![ActionOutcome::Close]
    } else {
        match result {
            Ok(name) => {
                let text = if action == QuickActionId::Restart {
                    "Restart requested for ".to_owned().concat(name.as_str())
                } else {
                    "Stopped ".to_owned().concat(name.as_str())
                };
                vec![ActionOutcome::Notice { text, error: false }, ActionOutcome::Close]
            },
            Err(e) => vec![ActionOutcome::Notice { text: e, error: true }],
        }
    };
    proof {
        assert(outcomes(r@) =~= tried_lifecycle(action, told));
    }
    r
}

/// `index` moved by `delta` and kept between 0 and `max`.
pub open spec fn moved(index: int, delta: int, max: int) -> int {
    if index + delta > max {
        max
    } else if index + delta < 0 {
        0
    } else {
        index + delta
    }
}

/// Moves an index and keeps it between 0 and `max`.
pub fn move_index(index: usize, delta: i32, max: usize) -> (r: usize)
    ensures
        r == moved(index as int, delta as int, max as int),
        r <= max,
{
    let target: i128 = index as i128 + delta as i128;
    if target > max as i128 {
        max
    } else if target < 0 {
        0
    } else {
        target as usize
    }
}

/// The menu with the selection moved, which takes a question back.
pub open spec fn menu_moved(menu: Menu, delta: int) -> Menu {
    if menu.actions.len() == 0 {
        Menu { selected: 0, ..menu }
    } else {
        Menu {
            selected: moved(menu.selected as int, delta, menu.actions.len() - 1) as usize,
            confirm: false,
            ..menu
        }
    }
}

/// Moves the selection within the menu.
pub fn move_overlay_selection(state: &mut QuickActionState, delta: i32)
    ensures
        final(state)@ == menu_moved(old(state)@, delta as int),
{
    if state.actions.len() == 0 {
        state.selected = 0;
        return ;
    }
    state.selected = move_index(state.selected, delta, state.actions.len() - 1);
    state.confirm = false;
}

/// Something said to the user for a while.
#[derive(Debug, Clone)]
pub struct Notice {
    pub text: String,
    pub error: bool,
    pub expires_at: u64,
}

/// A notice as a value.
pub struct NoticeModel {
    pub text: Seq<char>,
    pub error: bool,
    pub expires_at: u64,
}

impl View for Notice {
    type V = NoticeModel;

    open spec fn view(&self) -> NoticeModel {
        NoticeModel { text: self.text@, error: self.error, expires_at: self.expires_at }
    }
}

/// A notice of the time `now`. Where the clock ends before the notice does, the
/// notice ends with it.
pub open spec fn notice(text: Seq<char>, error: bool, now: u64) -> NoticeModel {
    NoticeModel {
        text,
        error,
        expires_at: if now + NOTICE_TTL > u64::MAX {
            u64::MAX
        } else {
            (now + NOTICE_TTL) as u64
        },
    }
}

impl Notice {
    /// A notice of the time `now`.
    pub fn new(text: String, error: bool, now: u64) -> (r: Notice)
        ensures
            r@ == notice(text@, error, now),
    {
        let expires_at = if now > u64::MAX - NOTICE_TTL {
            u64::MAX
        } else {
            now + NOTICE_TTL
        };
        Notice { text, error, expires_at }
    }
}

/// The menu closed, without a target.
pub open spec fn closed_menu(menu: Menu) -> Menu {
    Menu {
        open: false,
        confirm: false,
        selected: 0,
        target_workspace: Seq::empty(),
        target_task_id: Seq::empty(),
        target_task_version: 0,
        ..menu
    }
}

/// The state after one outcome. A mirrored terminal stays mirrored when the body
/// shows another view.
#[verifier::opaque]
pub open spec fn after_outcome(s: AppModel, outcome: Outcome, now: u64) -> AppModel {
    match outcome {
        Outcome::NeedsConfirm => s,
        Outcome::Notice { text, error } => AppModel {
            quick_notice: Some(notice(text, error, now)),
            ..s
        },
        Outcome::ChangeStream(view) => AppModel { stream: view, ..s },
        Outcome::StartStreaming(workspace) => AppModel { streamed_workspace: Some(workspace), ..s },
        Outcome::Interrupt(workspace) => AppModel { pending_interrupt: Some(workspace), ..s },
        Outcome::Close => AppModel { quick_actions: closed_menu(s.quick_actions), ..s },
    }
}

/// The state after several outcomes, before a question is put.
pub open spec fn after_each(s: AppModel, all: Seq<Outcome>, now: u64) -> AppModel
    decreases all.len(),
{
    if all.len() == 0 {
        s
    } else {
        after_outcome(after_each(s, all.drop_last(), now), all.last(), now)
    }
}

/// One of the outcomes asks for a question.
pub open spec fn asks(all: Seq<Outcome>) -> bool {
    all.contains(Outcome::NeedsConfirm)
}

/// The state after the outcomes of an action; a question is put last.
pub open spec fn after_outcomes(s: AppModel, all: Seq<Outcome>, now: u64) -> AppModel {
    let t = after_each(s, all, now);
    if asks(all) {
        AppModel { quick_actions: Menu { confirm: true, ..t.quick_actions }, ..t }
    } else {
        t
    }
}

/// Lets one outcome take effect.
fn apply_outcome(app: &mut App, outcome: &ActionOutcome, now: u64)
    ensures
        final(app)@ == after_outcome(old(app)@, outcome@, now),
{
    proof {
        reveal(after_outcome);
    }
    match outcome {
        ActionOutcome::NeedsConfirm => {},
        ActionOutcome::Notice { text, error } => {
            app.put_notice(Some(Notice::new(text.clone(), *error, now)));
        },
        ActionOutcome::ChangeStream(view) => {
            app.put_stream(*view);
        },
        ActionOutcome::StartStreaming(workspace) => {
            app.put_streamed(workspace.clone());
        },
        ActionOutcome::Interrupt(workspace) => {
            app.put_pending_interrupt(workspace.clone());
        },
        ActionOutcome::Close => {
            let menu = app.take_menu();
            app.put_menu(menu.closed());
        },
    }
}

/// Lets the outcomes of an action take effect.
pub fn apply_outcomes(app: &mut App, all: Vec<ActionOutcome>, now: u64)
    ensures
        final(app)@ == after_outcomes(old(app)@, outcomes(all@), now),
{
    let ghost start = app@;
    let ghost told = outcomes(all@);
    let mut need_confirm = false;
    let mut i: usize = 0;
    proof {
        assert(told.take(0) =~= Seq::empty());
    }
    while i < all.len()
        invariant
            i <= all@.len(),
            told == outcomes(all@),
            app@ == after_each(start, told.take(i as int), now),
            need_confirm == asks(told.take(i as int)),
        decreases all@.len() - i,
    {
        proof {
            assert(told.take(i + 1).drop_last() =~= told.take(i as int));
            assert(told.take(i + 1) =~= told.take(i as int).push(told[i as int]));
            assert(told.take(i + 1).last() == all@[i as int]@);
            if told[i as int] == Outcome::NeedsConfirm {
                assert(told.take(i + 1)[i as int] == Outcome::NeedsConfirm);
            }
        }
        match &all[i] {
            ActionOutcome::NeedsConfirm => {
                need_confirm = true;
            },
            _ => {},
        }
        apply_outcome(app, &all[i], now);
        i = i + 1;
    }
    proof {
        assert(told.take(told.len() as int) =~= told);
    }
    if need_confirm {
        let mut menu = app.take_menu();
        menu.confirm = true;
        app.put_menu(menu);
    }
}

/// Showing another view never ends the mirroring of a terminal.
pub proof fn changing_view_keeps_mirror(s: AppModel, view: StreamView, now: u64)
    ensures
        after_outcomes(s, seq![Outcome::ChangeStream(view)], now).streamed_workspace
            == s.streamed_workspace,
        after_outcomes(s, seq![Outcome::ChangeStream(view)], now).stream == view,
{
    reveal(after_outcome);
    let all = seq![Outcome::ChangeStream(view)];
    assert(all.drop_last() =~= Seq::empty());
    assert(after_each(s, Seq::empty(), now) == s);
}

} // verus!
