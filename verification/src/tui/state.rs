//! The state of the view.
//!
//! [`App`] holds it; [`AppModel`] is the same state as a value, over which every
//! operation is described as a step from one state to the next.

use vstd::prelude::*;

use crate::config::{tree_depth, ProjectNode};
use crate::keyed::TextMap;
use crate::proto::types::{HistoryEntry, Task, WorkspaceInfo};
use crate::proto::usage::WorkspaceTrend;
use crate::text::{trim, trimmed};
use crate::time::Timestamp;
use crate::tmux::sessions::SessionInfo;
use crate::tui::actions::{
    move_index, moved, no_menu, Menu, Notice, NoticeModel, QuickActionId, QuickActionState,
};
use crate::tui::captures::CaptureCache;
use crate::tui::sidebar::{build_entries, entry_rows, rows, AgentEntry, Row};
use crate::tui::stream::{tab_index, tab_views, StreamView};
use crate::tui::tasks::{filter_tasks, referred, shown_tasks, SnapshotRead, TaskFilterMode};
use crate::tui::tokens::opt_text;

verus! {

/// Which half of the body the keyboard works on.
#[derive(Debug, Clone, Copy, PartialEq, Eq, Structural)]
pub enum Focus {
    /// The list of the active tab.
    List,
    /// The detail of what is selected in the list.
    Detail,
}

impl Focus {
    /// The name of the half.
    #[verifier::allow_in_spec]
    pub fn label(self) -> &'static str
        returns
            (match self {
                Focus::List => "list",
                Focus::Detail => "detail",
            }),
    {
        match self {
            Focus::List => "list",
            Focus::Detail => "detail",
        }
    }

    /// The other half.
    #[verifier::allow_in_spec]
    pub fn other(self) -> Focus
        returns
            (match self {
                Focus::List => Focus::Detail,
                Focus::Detail => Focus::List,
            }),
    {
        match self {
            Focus::List => Focus::Detail,
            Focus::Detail => Focus::List,
        }
    }
}

/// The tabs of the detail of an agent.
#[derive(Debug, Clone, Copy, PartialEq, Eq, Structural)]
pub enum AgentDetailTab {
    Overview,
    Tasks,
    Messages,
    Instructions,
    Activity,
}

/// The tabs of the detail of an agent, in order.
pub open spec fn detail_tabs() -> Seq<AgentDetailTab> {
    seq![
        AgentDetailTab::Overview,
        AgentDetailTab::Tasks,
        AgentDetailTab::Messages,
        AgentDetailTab::Instructions,
        AgentDetailTab::Activity,
    ]
}

impl AgentDetailTab {
    /// The tabs in order.
    pub fn all() -> (r: Vec<AgentDetailTab>)
        ensures
            r@ == detail_tabs(),
    {
        let r = vec![
            AgentDetailTab::Overview,
            AgentDetailTab::Tasks,
            AgentDetailTab::Messages,
            AgentDetailTab::Instructions,
            AgentDetailTab::Activity,
        ];
        proof {
            assert(r@ =~= detail_tabs());
        }
        r
    }

    /// The place of the tab.
    #[verifier::allow_in_spec]
    pub fn index(self) -> usize
        returns
            (match self {
                AgentDetailTab::Overview => 0usize,
                AgentDetailTab::Tasks => 1usize,
                AgentDetailTab::Messages => 2usize,
                AgentDetailTab::Instructions => 3usize,
                AgentDetailTab::Activity => 4usize,
            }),
    {
        match self {
            AgentDetailTab::Overview => 0,
            AgentDetailTab::Tasks => 1,
            AgentDetailTab::Messages => 2,
            AgentDetailTab::Instructions => 3,
            AgentDetailTab::Activity => 4,
        }
    }

    /// The label of the tab.
    #[verifier::allow_in_spec]
    pub fn label(self) -> &'static str
        returns
            (match self {
                AgentDetailTab::Overview => "overview",
                AgentDetailTab::Tasks => "tasks",
                AgentDetailTab::Messages => "messages",
                AgentDetailTab::Instructions => "instructions",
                AgentDetailTab::Activity => "activity",
            }),
    {
        match self {
            AgentDetailTab::Overview => "overview",
            AgentDetailTab::Tasks => "tasks",
            AgentDetailTab::Messages => "messages",
            AgentDetailTab::Instructions => "instructions",
            AgentDetailTab::Activity => "activity",
        }
    }

    /// The label of the tab on a narrow pane.
    #[verifier::allow_in_spec]
    pub fn short_label(self) -> &'static str
        returns
            (match self {
                AgentDetailTab::Overview => "over",
                AgentDetailTab::Tasks => "tasks",
                AgentDetailTab::Messages => "msgs",
                AgentDetailTab::Instructions => "instr",
                AgentDetailTab::Activity => "act",
            }),
    {
        match self {
            AgentDetailTab::Overview => "over",
            AgentDetailTab::Tasks => "tasks",
            AgentDetailTab::Messages => "msgs",
            AgentDetailTab::Instructions => "instr",
            AgentDetailTab::Activity => "act",
        }
    }
}

/// A place in a list or a scrolled text. How far down it may go is only known
/// when the pane is drawn.
#[derive(Debug, Clone, Copy, PartialEq, Eq, Structural)]
pub struct PaneCursor {
    pub index: usize,
}

impl Default for PaneCursor {
    fn default() -> (r: Self)
        ensures
            r.index == 0,
    {
        PaneCursor { index: 0 }
    }
}

/// A cursor moved by `delta`, not above the top.
pub open spec fn shifted(c: PaneCursor, delta: int) -> PaneCursor {
    PaneCursor { index: moved(c.index as int, delta, usize::MAX as int) as usize }
}

/// A cursor not below `ceiling`.
pub open spec fn clamped(c: PaneCursor, ceiling: usize) -> PaneCursor {
    if c.index > ceiling {
        PaneCursor { index: ceiling }
    } else {
        c
    }
}

impl PaneCursor {
    /// Moves the cursor; it stops at the top.
    pub fn shift(&mut self, delta: i32)
        ensures
            *final(self) == shifted(*old(self), delta as int),
    {
        self.index = move_index(self.index, delta, usize::MAX);
    }

    /// Moves the cursor to the top.
    pub fn reset(&mut self)
        ensures
            final(self).index == 0,
    {
        self.index = 0;
    }

    /// Moves the cursor to `idx`.
    pub fn jump_to(&mut self, idx: usize)
        ensures
            final(self).index == idx,
    {
        self.index = idx;
    }

    /// Moves the cursor up to `ceiling` where it is below.
    pub fn clamp(&mut self, ceiling: usize)
        ensures
            *final(self) == clamped(*old(self), ceiling),
    {
        if self.index > ceiling {
            self.index = ceiling;
        }
    }
}

/// A restart or stop that waits to be carried out.
#[derive(Debug, Clone)]
pub struct PendingLifecycle {
    pub action: QuickActionId,
    pub workspace: String,
}

/// A restart or stop that waits, as a value.
pub struct WaitingLifecycle {
    pub action: QuickActionId,
    pub workspace: Seq<char>,
}

impl View for PendingLifecycle {
    type V = WaitingLifecycle;

    open spec fn view(&self) -> WaitingLifecycle {
        WaitingLifecycle { action: self.action, workspace: self.workspace@ }
    }
}

/// An action on a task that waits to be carried out.
#[derive(Debug, Clone)]
pub struct PendingTaskAction {
    pub action: QuickActionId,
    pub task_id: String,
    pub expected_version: i64,
}

/// An action on a task that waits, as a value.
pub struct WaitingTaskAction {
    pub action: QuickActionId,
    pub task_id: Seq<char>,
    pub expected_version: i64,
}

impl View for PendingTaskAction {
    type V = WaitingTaskAction;

    open spec fn view(&self) -> WaitingTaskAction {
        WaitingTaskAction {
            action: self.action,
            task_id: self.task_id@,
            expected_version: self.expected_version,
        }
    }
}

/// The fields of the form for a new task.
#[derive(Debug, Clone, Copy, PartialEq, Eq, Structural)]
pub enum CreateTaskField {
    Assignee,
    Title,
    Description,
}

/// The form for a new task.
#[derive(Debug, Clone)]
pub struct CreateTaskForm {
    pub assignee: String,
    pub title: String,
    pub description: String,
    pub field: CreateTaskField,
    pub error: Option<String>,
    pub submitting: bool,
}

/// The form for a new task as a value.
pub struct TaskForm {
    pub assignee: Seq<char>,
    pub title: Seq<char>,
    pub description: Seq<char>,
    pub field: CreateTaskField,
    pub error: Option<Seq<char>>,
    pub submitting: bool,
}

impl View for CreateTaskForm {
    type V = TaskForm;

    open spec fn view(&self) -> TaskForm {
        TaskForm {
            assignee: self.assignee@,
            title: self.title@,
            description: self.description@,
            field: self.field,
            error: opt_text(self.error),
            submitting: self.submitting,
        }
    }
}

/// The field after `field`, and from the last back to the first.
pub open spec fn next_field(field: CreateTaskField) -> CreateTaskField {
    match field {
        CreateTaskField::Assignee => CreateTaskField::Title,
        CreateTaskField::Title => CreateTaskField::Description,
        CreateTaskField::Description => CreateTaskField::Assignee,
    }
}

/// The field before `field`, and from the first back to the last.
pub open spec fn former_field(field: CreateTaskField) -> CreateTaskField {
    match field {
        CreateTaskField::Assignee => CreateTaskField::Description,
        CreateTaskField::Title => CreateTaskField::Assignee,
        CreateTaskField::Description => CreateTaskField::Title,
    }
}

/// What stands in the active field.
pub open spec fn active_text(form: TaskForm) -> Seq<char> {
    match form.field {
        CreateTaskField::Assignee => form.assignee,
        CreateTaskField::Title => form.title,
        CreateTaskField::Description => form.description,
    }
}

/// The form with other text in the active field, which takes an error back.
pub open spec fn with_active_text(form: TaskForm, text: Seq<char>) -> TaskForm {
    match form.field {
        CreateTaskField::Assignee => TaskForm { assignee: text, error: None, ..form },
        CreateTaskField::Title => TaskForm { title: text, error: None, ..form },
        CreateTaskField::Description => TaskForm { description: text, error: None, ..form },
    }
}

impl CreateTaskForm {
    /// Moves to the next field.
    pub fn next(&mut self)
        ensures
            final(self)@ == (TaskForm { field: next_field(old(self)@.field), ..old(self)@ }),
    {
        self.field = match self.field {
            CreateTaskField::Assignee => CreateTaskField::Title,
            CreateTaskField::Title => CreateTaskField::Description,
            CreateTaskField::Description => CreateTaskField::Assignee,
        };
    }

    /// Moves to the field before.
    pub fn back(&mut self)
        ensures
            final(self)@ == (TaskForm { field: former_field(old(self)@.field), ..old(self)@ }),
    {
        self.field = match self.field {
            CreateTaskField::Assignee => CreateTaskField::Description,
            CreateTaskField::Title => CreateTaskField::Assignee,
            CreateTaskField::Description => CreateTaskField::Title,
        };
    }

    /// Hands the form in, and gives the task that it asks for.
    pub fn hand_in(&mut self) -> (r: Option<PendingTaskCreate>)
        ensures
            final(self)@ == handed_in_task_form(old(self)@),
            opt_view(r) == task_of_form(old(self)@),
    {
        let title = trimmed(self.title.as_str());
        let assignee = trimmed(self.assignee.as_str());
        if title.as_str().is_empty() {
            self.error = Some("title is required".to_owned());
            None
        } else if assignee.as_str().is_empty() {
            self.error = Some("assignee is required".to_owned());
            None
        } else {
            self.error = None;
            self.submitting = true;
            let description = trimmed(self.description.as_str());
            Some(PendingTaskCreate { draft: TaskDraft { assignee, title, description } })
        }
    }

    /// What stands in the active field.
    pub fn active_value(&self) -> (r: &String)
        ensures
            r@ == active_text(self@),
    {
        match self.field {
            CreateTaskField::Assignee => &self.assignee,
            CreateTaskField::Title => &self.title,
            CreateTaskField::Description => &self.description,
        }
    }

    /// Replaces what stands in the active field.
    pub fn set_active_value(&mut self, text: String)
        ensures
            final(self)@ == with_active_text(old(self)@, text@),
    {
        match self.field {
            CreateTaskField::Assignee => {
                self.assignee = text;
            },
            CreateTaskField::Title => {
                self.title = text;
            },
            CreateTaskField::Description => {
                self.description = text;
            },
        }
        self.error = None;
    }
}

/// A new task that waits to be created.
#[derive(Debug, Clone)]
pub struct TaskDraft {
    pub assignee: String,
    pub title: String,
    pub description: String,
}

/// A new task that waits to be created.
#[derive(Debug, Clone)]
pub struct PendingTaskCreate {
    pub draft: TaskDraft,
}

/// A new task that waits, as a value.
pub struct WaitingTask {
    pub assignee: Seq<char>,
    pub title: Seq<char>,
    pub description: Seq<char>,
}

impl View for PendingTaskCreate {
    type V = WaitingTask;

    open spec fn view(&self) -> WaitingTask {
        WaitingTask {
            assignee: self.draft.assignee@,
            title: self.draft.title@,
            description: self.draft.description@,
        }
    }
}

/// The form for a message to the orchestrator.
#[derive(Debug, Clone)]
pub struct OrchestratorMessageForm {
    pub message: String,
    pub error: Option<String>,
    pub submitting: bool,
}

/// The form for a message as a value.
pub struct MessageForm {
    pub message: Seq<char>,
    pub error: Option<Seq<char>>,
    pub submitting: bool,
}

impl View for OrchestratorMessageForm {
    type V = MessageForm;

    open spec fn view(&self) -> MessageForm {
        MessageForm {
            message: self.message@,
            error: opt_text(self.error),
            submitting: self.submitting,
        }
    }
}

/// A message that waits to be sent to the orchestrator.
#[derive(Debug, Clone)]
pub struct PendingOrchestratorMessage {
    pub message: String,
}

/// Where the data of the view comes from.
#[derive(Debug, Clone, Copy, PartialEq, Eq, Structural)]
pub enum RefreshNoticeSource {
    Tmux,
    Daemon,
    Usage,
}

/// That data could not be had.
#[derive(Debug, Clone)]
pub struct RefreshNotice {
    pub source: RefreshNoticeSource,
    pub text: String,
}

/// That data could not be had, as a value.
pub struct SourceNotice {
    pub source: RefreshNoticeSource,
    pub text: Seq<char>,
}

impl View for RefreshNotice {
    type V = SourceNotice;

    open spec fn view(&self) -> SourceNotice {
        SourceNotice { source: self.source, text: self.text@ }
    }
}

/// The state of the view. Times are milliseconds of a clock that only goes
/// forward.
#[derive(Debug)]
pub struct App {
    pub sessions: Vec<SessionInfo>,
    pub workspace_infos: TextMap<WorkspaceInfo>,
    pub tree: Option<ProjectNode>,
    pub reconfigure_enabled: bool,
    pub desired: TextMap<bool>,
    pub agent_entries: Vec<AgentEntry>,
    pub selected_entry: usize,
    pub focus: Focus,
    pub agent_detail_tab: AgentDetailTab,
    pub agent_detail_follow_tail: bool,
    pub stream: StreamView,
    pub messages: Vec<HistoryEntry>,
    pub messages_cursor: PaneCursor,
    pub messages_follow_tail: bool,
    pub messages_snapshot_error: Option<String>,
    pub tasks: Vec<Task>,
    pub task_snapshot_error: Option<String>,
    pub task_cursor: PaneCursor,
    pub task_filter: TaskFilterMode,
    pub tokens_cursor: PaneCursor,
    pub stream_cursor: PaneCursor,
    pub stream_follow_tail: bool,
    pub detail_scroll: PaneCursor,
    pub quick_actions: QuickActionState,
    pub quick_notice: Option<Notice>,
    pub help_open: bool,
    pub pending_lifecycle: Option<PendingLifecycle>,
    pub pending_interrupt: Option<String>,
    pub pending_task_action: Option<PendingTaskAction>,
    pub create_task_form: Option<CreateTaskForm>,
    pub pending_task_create: Option<PendingTaskCreate>,
    pub orchestrator_message_form: Option<OrchestratorMessageForm>,
    pub pending_orchestrator_message: Option<PendingOrchestratorMessage>,
    pub captures: CaptureCache,
    pub usage_trends: TextMap<WorkspaceTrend>,
    pub last_usage_refresh: Option<u64>,
    pub workspace_dirs: TextMap<String>,
    pub streamed_workspace: Option<String>,
    pub last_refresh: Option<u64>,
    pub force_refresh: bool,
    pub daemon_running: bool,
    pub notice: Option<RefreshNotice>,
    pub quit: bool,
}

/// The state of the view as a value.
pub struct AppModel {
    pub sessions: Seq<SessionInfo>,
    pub workspace_infos: TextMap<WorkspaceInfo>,
    pub tree: Option<ProjectNode>,
    pub reconfigure_enabled: bool,
    pub desired: TextMap<bool>,
    pub agent_entries: Seq<Row>,
    pub selected_entry: usize,
    pub focus: Focus,
    pub agent_detail_tab: AgentDetailTab,
    pub agent_detail_follow_tail: bool,
    pub stream: StreamView,
    pub messages: Seq<HistoryEntry>,
    pub messages_cursor: PaneCursor,
    pub messages_follow_tail: bool,
    pub messages_snapshot_error: Option<Seq<char>>,
    pub tasks: Seq<Task>,
    pub task_snapshot_error: Option<Seq<char>>,
    pub task_cursor: PaneCursor,
    pub task_filter: TaskFilterMode,
    pub tokens_cursor: PaneCursor,
    pub stream_cursor: PaneCursor,
    pub stream_follow_tail: bool,
    pub detail_scroll: PaneCursor,
    pub quick_actions: Menu,
    pub quick_notice: Option<NoticeModel>,
    pub help_open: bool,
    pub pending_lifecycle: Option<WaitingLifecycle>,
    pub pending_interrupt: Option<Seq<char>>,
    pub pending_task_action: Option<WaitingTaskAction>,
    pub create_task_form: Option<TaskForm>,
    pub pending_task_create: Option<WaitingTask>,
    pub orchestrator_message_form: Option<MessageForm>,
    pub pending_orchestrator_message: Option<Seq<char>>,
    pub captures: CaptureCache,
    pub usage_trends: TextMap<WorkspaceTrend>,
    pub last_usage_refresh: Option<u64>,
    pub workspace_dirs: TextMap<String>,
    pub streamed_workspace: Option<Seq<char>>,
    pub last_refresh: Option<u64>,
    pub force_refresh: bool,
    pub daemon_running: bool,
    pub notice: Option<SourceNotice>,
    pub quit: bool,
}

/// The value of something optional.
pub open spec fn opt_view<T: View>(v: Option<T>) -> Option<T::V> {
    match v {
        Some(t) => Some(t@),
        None => None,
    }
}

/// The state as a value.
#[verifier::opaque]
pub open spec fn model_of(app: App) -> AppModel {
    AppModel {
        sessions: app.sessions@,
        workspace_infos: app.workspace_infos,
        tree: app.tree,
        reconfigure_enabled: app.reconfigure_enabled,
        desired: app.desired,
        agent_entries: rows(app.agent_entries@),
        selected_entry: app.selected_entry,
        focus: app.focus,
        agent_detail_tab: app.agent_detail_tab,
        agent_detail_follow_tail: app.agent_detail_follow_tail,
        stream: app.stream,
        messages: app.messages@,
        messages_cursor: app.messages_cursor,
        messages_follow_tail: app.messages_follow_tail,
        messages_snapshot_error: opt_text(app.messages_snapshot_error),
        tasks: app.tasks@,
        task_snapshot_error: opt_text(app.task_snapshot_error),
        task_cursor: app.task_cursor,
        task_filter: app.task_filter,
        tokens_cursor: app.tokens_cursor,
        stream_cursor: app.stream_cursor,
        stream_follow_tail: app.stream_follow_tail,
        detail_scroll: app.detail_scroll,
        quick_actions: app.quick_actions@,
        quick_notice: opt_view(app.quick_notice),
        help_open: app.help_open,
        pending_lifecycle: opt_view(app.pending_lifecycle),
        pending_interrupt: opt_text(app.pending_interrupt),
        pending_task_action: opt_view(app.pending_task_action),
        create_task_form: opt_view(app.create_task_form),
        pending_task_create: opt_view(app.pending_task_create),
        orchestrator_message_form: opt_view(app.orchestrator_message_form),
        pending_orchestrator_message: match app.pending_orchestrator_message {
            Some(m) => Some(m.message@),
            None => None,
        },
        captures: app.captures,
        usage_trends: app.usage_trends,
        last_usage_refresh: app.last_usage_refresh,
        workspace_dirs: app.workspace_dirs,
        streamed_workspace: opt_text(app.streamed_workspace),
        last_refresh: app.last_refresh,
        force_refresh: app.force_refresh,
        daemon_running: app.daemon_running,
        notice: opt_view(app.notice),
        quit: app.quit,
    }
}

impl View for App {
    type V = AppModel;

    open spec fn view(&self) -> AppModel {
        model_of(*self)
    }
}

impl AppModel {
    /// The maps are in order, and the tree can be numbered by depth.
    pub open spec fn wf(&self) -> bool {
        &&& self.workspace_infos.wf()
        &&& self.desired.wf()
        &&& self.usage_trends.wf()
        &&& self.workspace_dirs.wf()
        &&& self.captures.entries.wf()
        &&& self.tree matches Some(node) ==> tree_depth(node) <= usize::MAX
    }
}

/// Where the parts of the state stand in its value.
pub proof fn model_fields(app: App)
    ensures
        app@.stream == app.stream,
        app@.focus == app.focus,
        app@.help_open == app.help_open,
        app@.agent_detail_tab == app.agent_detail_tab,
        app@.agent_detail_follow_tail == app.agent_detail_follow_tail,
        app@.quick_actions == app.quick_actions@,
        app@.create_task_form == opt_view(app.create_task_form),
        app@.orchestrator_message_form == opt_view(app.orchestrator_message_form),
        app@.streamed_workspace == opt_text(app.streamed_workspace),
        app@.selected_entry == app.selected_entry,
        app@.agent_entries == rows(app.agent_entries@),
        app@.task_cursor == app.task_cursor,
        app@.task_filter == app.task_filter,
        app@.tasks == app.tasks@,
        app@.messages == app.messages@,
        app@.messages_cursor == app.messages_cursor,
        app@.detail_scroll == app.detail_scroll,
        app@.stream_cursor == app.stream_cursor,
        app@.stream_follow_tail == app.stream_follow_tail,
        app@.tokens_cursor == app.tokens_cursor,
        app@.sessions == app.sessions@,
        app@.workspace_infos == app.workspace_infos,
        app@.tree == app.tree,
        app@.captures == app.captures,
        app@.usage_trends == app.usage_trends,
        app@.workspace_dirs == app.workspace_dirs,
        app@.daemon_running == app.daemon_running,
        app@.last_usage_refresh == app.last_usage_refresh,
        app@.last_refresh == app.last_refresh,
        app@.force_refresh == app.force_refresh,
        app@.messages_snapshot_error == opt_text(app.messages_snapshot_error),
        app@.task_snapshot_error == opt_text(app.task_snapshot_error),
        app@.quick_notice == opt_view(app.quick_notice),
        app@.notice == opt_view(app.notice),
{
    reveal(model_of);
}

/// The cursor on the last row of a list of `n` rows.
pub open spec fn last_row(n: int) -> PaneCursor {
    PaneCursor { index: (n - 1) as usize }
}

/// The top of a list.
pub open spec fn top() -> PaneCursor {
    PaneCursor { index: 0 }
}

/// The views that have a tab.
pub open spec fn app_tabs(s: AppModel) -> Seq<StreamView> {
    tab_views(s.streamed_workspace is Some)
}

/// The state with a view that has a tab.
pub open spec fn with_visible_view(s: AppModel) -> AppModel {
    if s.stream == StreamView::Stream && s.streamed_workspace is None {
        AppModel { stream: StreamView::Agents, detail_scroll: top(), ..s }
    } else {
        s
    }
}

/// The place `delta` places on from `index` among `n`, going round.
pub open spec fn round(index: int, delta: int, n: int) -> int {
    (index + delta) % n
}

/// The place among the tabs of the view that is shown; a view without a tab
/// counts as the first.
pub open spec fn tab_place(s: AppModel) -> int {
    if s.stream == StreamView::Stream && s.streamed_workspace is None {
        0
    } else {
        tab_index(s.stream) as int
    }
}

/// The tasks that are listed.
pub open spec fn app_tasks(s: AppModel, now: Timestamp) -> Seq<Task> {
    shown_tasks(s.tasks, s.task_filter, now)
}

/// The state with the cursor within the list of tasks.
pub open spec fn with_task_cursor_in_list(s: AppModel, now: Timestamp) -> AppModel {
    let n = app_tasks(s, now).len();
    AppModel {
        task_cursor: if n == 0 { top() } else { clamped(s.task_cursor, (n - 1) as usize) },
        ..s
    }
}

/// The state with the view `delta` tabs on.
pub open spec fn stepped_stream(s: AppModel, delta: int, now: Timestamp) -> AppModel {
    let tabs = app_tabs(s);
    with_task_cursor_in_list(
        AppModel {
            stream: tabs[round(tab_place(s), delta, tabs.len() as int)],
            detail_scroll: top(),
            ..s
        },
        now,
    )
}

/// The state with the detail tab `delta` tabs on.
pub open spec fn stepped_detail_tab(s: AppModel, delta: int) -> AppModel {
    AppModel {
        agent_detail_tab: detail_tabs()[round(s.agent_detail_tab.index() as int, delta, 5)],
        agent_detail_follow_tail: true,
        detail_scroll: top(),
        ..s
    }
}

/// The state with the focus `delta` halves on.
pub open spec fn cycled_focus(s: AppModel, delta: int) -> AppModel {
    AppModel { focus: if delta % 2 == 0 { s.focus } else { s.focus.other() }, ..s }
}

/// The state with the view of tab `idx`, where there is one.
pub open spec fn selected_stream(s: AppModel, idx: int) -> AppModel {
    if 0 <= idx < app_tabs(s).len() {
        AppModel { stream: app_tabs(s)[idx], detail_scroll: top(), ..s }
    } else {
        s
    }
}

/// The state with the selection in the list of tasks moved.
pub open spec fn moved_task_selection(s: AppModel, delta: int, now: Timestamp) -> AppModel {
    let n = app_tasks(s, now).len();
    AppModel {
        task_cursor: if n == 0 {
            top()
        } else {
            clamped(shifted(s.task_cursor, delta), (n - 1) as usize)
        },
        ..s
    }
}

/// The state with the next filter.
pub open spec fn cycled_task_filter(s: AppModel, now: Timestamp) -> AppModel {
    with_task_cursor_in_list(AppModel { task_filter: s.task_filter.next(), ..s }, now)
}

/// The state with the selection in the list of messages moved. The newest
/// message is followed exactly when it is selected.
pub open spec fn scrolled_messages(s: AppModel, delta: int) -> AppModel {
    let n = s.messages.len();
    if n == 0 {
        AppModel { messages_cursor: top(), messages_follow_tail: true, ..s }
    } else {
        let index = moved(s.messages_cursor.index as int, delta, n - 1) as usize;
        AppModel {
            messages_cursor: PaneCursor { index },
            messages_follow_tail: index == n - 1,
            ..s
        }
    }
}

/// The state with the newest message selected and followed.
pub open spec fn messages_at_tail(s: AppModel) -> AppModel {
    AppModel {
        messages_follow_tail: true,
        messages_cursor: if s.messages.len() == 0 { top() } else { last_row(s.messages.len() as int) },
        ..s
    }
}

/// The state with the oldest message selected.
pub open spec fn messages_at_head(s: AppModel) -> AppModel {
    AppModel { messages_follow_tail: false, messages_cursor: top(), ..s }
}

/// The state with the cursor within the list of messages: on the newest where it
/// is followed, else where it was.
pub open spec fn with_message_cursor_in_list(s: AppModel) -> AppModel {
    let n = s.messages.len();
    if n == 0 {
        AppModel { messages_cursor: top(), messages_follow_tail: true, ..s }
    } else if s.messages_follow_tail {
        AppModel { messages_cursor: last_row(n as int), ..s }
    } else {
        AppModel { messages_cursor: clamped(s.messages_cursor, (n - 1) as usize), ..s }
    }
}

/// A workspace whose usage is listed.
pub open spec fn has_usage(t: WorkspaceTrend) -> bool {
    t.available && t.total.sum() > 0
}

/// How many of the first `n` workspaces have usage.
pub open spec fn usage_rows(trends: Seq<WorkspaceTrend>, n: int) -> int
    decreases n,
{
    if n <= 0 {
        0
    } else {
        usage_rows(trends, n - 1) + if has_usage(trends[n - 1]) { 1int } else { 0 }
    }
}

/// The number of rows of the list of usage.
pub open spec fn token_rows(s: AppModel) -> int {
    usage_rows(s.usage_trends.values@, s.usage_trends.values@.len() as int)
}

/// The state with the mirrored terminal scrolled. Scrolling back stops
/// following its end.
pub open spec fn scrolled_stream(s: AppModel, delta: int) -> AppModel {
    AppModel {
        stream_cursor: shifted(s.stream_cursor, delta),
        stream_follow_tail: s.stream_follow_tail && delta >= 0,
        ..s
    }
}

/// The rows that can be selected, of the first `n`.
pub open spec fn agent_places(all: Seq<Row>, n: int) -> Seq<usize>
    decreases n,
{
    if n <= 0 {
        Seq::empty()
    } else if all[n - 1].group {
        agent_places(all, n - 1)
    } else {
        agent_places(all, n - 1).push((n - 1) as usize)
    }
}

/// The rows that can be selected: all but the headings.
pub open spec fn selectable(all: Seq<Row>) -> Seq<usize> {
    agent_places(all, all.len() as int)
}

/// Where `x` first stands in `v`; 0 where it does not.
pub open spec fn place_in(v: Seq<usize>, x: usize) -> int
    decreases v.len(),
{
    if v.len() == 0 {
        0
    } else if v.drop_last().contains(x) {
        place_in(v.drop_last(), x)
    } else if v.last() == x {
        v.len() - 1
    } else {
        0
    }
}

/// The state with a selection that exists.
pub open spec fn with_selectable_entry(s: AppModel) -> AppModel {
    let v = selectable(s.agent_entries);
    if v.len() == 0 {
        AppModel { selected_entry: 0, ..s }
    } else if !v.contains(s.selected_entry) {
        AppModel { selected_entry: v[0], ..s }
    } else {
        s
    }
}

/// The state with the rows of agents built anew.
pub open spec fn rebuilt_agents(s: AppModel) -> AppModel {
    with_selectable_entry(
        AppModel {
            agent_entries: entry_rows(s.sessions, s.tree, s.reconfigure_enabled, s.desired),
            ..s
        },
    )
}

/// The state with the selection in the list of agents moved.
pub open spec fn moved_selection(s: AppModel, delta: int) -> AppModel {
    let v = selectable(s.agent_entries);
    if v.len() == 0 {
        AppModel { selected_entry: 0, ..s }
    } else {
        AppModel {
            selected_entry: v[moved(place_in(v, s.selected_entry), delta, v.len() - 1)],
            ..s
        }
    }
}

/// The workspace that is selected; none on a heading or in an empty list.
pub open spec fn workspace_selected(s: AppModel) -> Option<Seq<char>> {
    if s.selected_entry < s.agent_entries.len() && !s.agent_entries[s.selected_entry as int].group {
        Some(s.agent_entries[s.selected_entry as int].workspace)
    } else {
        None
    }
}

/// The task that is selected.
pub open spec fn task_selected(s: AppModel, now: Timestamp) -> Option<Task> {
    let v = app_tasks(s, now);
    if s.task_cursor.index < v.len() {
        Some(v[s.task_cursor.index as int])
    } else {
        None
    }
}

/// The state with a form for a new task, for the first workspace that is
/// configured.
pub open spec fn opened_task_form(s: AppModel) -> AppModel {
    AppModel {
        create_task_form: Some(
            TaskForm {
                assignee: if s.workspace_dirs.keys@.len() > 0 {
                    s.workspace_dirs.keys@[0]@
                } else {
                    Seq::empty()
                },
                title: Seq::empty(),
                description: Seq::empty(),
                field: CreateTaskField::Title,
                error: None,
                submitting: false,
            },
        ),
        ..s
    }
}

/// What is missing in the form for a new task.
pub open spec fn missing_in_task_form(form: TaskForm) -> Option<Seq<char>> {
    if trim(form.title).len() == 0 {
        Some("title is required"@)
    } else if trim(form.assignee).len() == 0 {
        Some("assignee is required"@)
    } else {
        None
    }
}

/// The form after it was handed in: with an error, or waiting for an answer.
pub open spec fn handed_in_task_form(form: TaskForm) -> TaskForm {
    match missing_in_task_form(form) {
        Some(error) => TaskForm { error: Some(error), ..form },
        None => TaskForm { error: None, submitting: true, ..form },
    }
}

/// The task that the form asks for, where nothing is missing.
pub open spec fn task_of_form(form: TaskForm) -> Option<WaitingTask> {
    match missing_in_task_form(form) {
        Some(_) => None,
        None => Some(
            WaitingTask {
                assignee: trim(form.assignee),
                title: trim(form.title),
                description: trim(form.description),
            },
        ),
    }
}

/// The state after the form for a new task was handed in.
pub open spec fn submitted_task_form(s: AppModel) -> AppModel {
    match s.create_task_form {
        None => s,
        Some(form) => AppModel {
            create_task_form: Some(handed_in_task_form(form)),
            pending_task_create: match task_of_form(form) {
                Some(task) => Some(task),
                None => s.pending_task_create,
            },
            ..s
        },
    }
}

/// The state with a form for a message.
pub open spec fn opened_message_form(s: AppModel) -> AppModel {
    AppModel {
        orchestrator_message_form: Some(
            MessageForm { message: Seq::empty(), error: None, submitting: false },
        ),
        ..s
    }
}

/// The state after the form for a message was handed in.
pub open spec fn submitted_message_form(s: AppModel) -> AppModel {
    match s.orchestrator_message_form {
        None => s,
        Some(form) => if trim(form.message).len() == 0 {
            AppModel {
                orchestrator_message_form: Some(
                    MessageForm { error: Some("message is required"@), ..form },
                ),
                ..s
            }
        } else {
            AppModel {
                orchestrator_message_form: Some(
                    MessageForm { error: None, submitting: true, ..form },
                ),
                pending_orchestrator_message: Some(trim(form.message)),
                ..s
            }
        },
    }
}

/// The state in which the view starts.
pub open spec fn is_fresh(s: AppModel) -> bool {
    &&& s.wf()
    &&& s.sessions.len() == 0
    &&& s.workspace_infos.keys@.len() == 0
    &&& s.tree is None
    &&& !s.reconfigure_enabled
    &&& s.desired.keys@.len() == 0
    &&& s.agent_entries.len() == 0
    &&& s.selected_entry == 0
    &&& s.focus == Focus::List
    &&& s.agent_detail_tab == AgentDetailTab::Overview
    &&& s.agent_detail_follow_tail
    &&& s.stream == StreamView::Agents
    &&& s.messages.len() == 0
    &&& s.messages_cursor == top()
    &&& s.messages_follow_tail
    &&& s.messages_snapshot_error is None
    &&& s.tasks.len() == 0
    &&& s.task_snapshot_error is None
    &&& s.task_cursor == top()
    &&& s.task_filter == TaskFilterMode::Active
    &&& s.tokens_cursor == top()
    &&& s.stream_cursor == top()
    &&& s.stream_follow_tail
    &&& s.detail_scroll == top()
    &&& s.quick_actions == no_menu()
    &&& s.quick_notice is None
    &&& !s.help_open
    &&& s.pending_lifecycle is None
    &&& s.pending_interrupt is None
    &&& s.pending_task_action is None
    &&& s.create_task_form is None
    &&& s.pending_task_create is None
    &&& s.orchestrator_message_form is None
    &&& s.pending_orchestrator_message is None
    &&& s.captures.entries.keys@.len() == 0
    &&& s.captures.cursor == 0
    &&& s.usage_trends.keys@.len() == 0
    &&& s.last_usage_refresh is None
    &&& s.workspace_dirs.keys@.len() == 0
    &&& s.streamed_workspace is None
    &&& s.last_refresh is None
    &&& !s.force_refresh
    &&& !s.daemon_running
    &&& s.notice is None
    &&& !s.quit
}

/// `index + delta` taken round `n` places.
fn step_round(index: usize, delta: i32, n: usize) -> (r: usize)
    requires
        0 < n <= 100,
        index < n,
    ensures
        r == round(index as int, delta as int, n as int),
        r < n,
{
    let m: i64 = n as i64;
    let t: i64 = index as i64 + delta as i64;
    if t >= 0 {
        (t % m) as usize
    } else {
        let k: i64 = (-(t + 1)) % m;
        proof {
            let q: int = (-(t + 1)) / (m as int);
            assert(-(t + 1) == m * q + k) by {
                vstd::arithmetic::div_mod::lemma_fundamental_div_mod(-(t + 1), m as int);
            }
            let r: int = m - 1 - k;
            assert(t == m * (-q - 1) + r) by (nonlinear_arith)
                requires
                    -(t + 1) == m * q + k,
                    r == m - 1 - k,
            ;
            vstd::arithmetic::div_mod::lemma_fundamental_div_mod_converse(
                t as int,
                m as int,
                -q - 1,
                r,
            );
        }
        (m - 1 - k) as usize
    }
}

/// The rows that can be selected: all but the headings.
pub fn selectable_entry_positions(entries: &Vec<AgentEntry>) -> (r: Vec<usize>)
    ensures
        r@ == selectable(rows(entries@)),
        forall|i: int| 0 <= i < r@.len() ==> #[trigger] r@[i] < entries@.len(),
{
    let n = entries.len();
    let mut out: Vec<usize> = Vec::new();
    let mut i: usize = 0;
    while i < n
        invariant
            i <= n == entries@.len(),
            out@ == agent_places(rows(entries@), i as int),
            forall|k: int| 0 <= k < out@.len() ==> #[trigger] out@[k] < i,
        decreases n - i,
    {
        if !entries[i].group {
            out.push(i);
        }
        i = i + 1;
    }
    out
}

/// Where `x` first stands in `v`; 0 where it does not.
fn find_place(v: &Vec<usize>, x: usize) -> (r: usize)
    ensures
        r == place_in(v@, x),
        v@.len() > 0 ==> r < v@.len(),
{
    let mut i: usize = 0;
    while i < v.len()
        invariant
            i <= v@.len(),
            forall|j: int| 0 <= j < i ==> v@[j] != x,
        decreases v@.len() - i,
    {
        if v[i] == x {
            proof {
                first_place(v@, x, i as int);
            }
            return i;
        }
        i = i + 1;
    }
    proof {
        assert(!v@.contains(x));
        if v@.len() > 0 && v@.drop_last().contains(x) {
            let j = choose|j: int| 0 <= j < v@.drop_last().len() && v@.drop_last()[j] == x;
            assert(v@[j] == x);
        }
    }
    0
}

proof fn first_place(v: Seq<usize>, x: usize, i: int)
    requires
        0 <= i < v.len(),
        v[i] == x,
        forall|j: int| 0 <= j < i ==> v[j] != x,
    ensures
        place_in(v, x) == i,
    decreases v.len(),
{
    let front = v.drop_last();
    if i < front.len() {
        assert(front[i] == x);
        first_place(front, x, i);
    } else if front.contains(x) {
        let j = choose|j: int| 0 <= j < front.len() && front[j] == x;
        assert(v[j] == x);
    }
}

impl App {
    /// The state in which the view starts.
    pub fn new() -> (r: App)
        ensures
            is_fresh(r@),
    {
        proof {
            reveal(model_of);
        }
        App {
            sessions: Vec::new(),
            workspace_infos: TextMap::new(),
            tree: None,
            reconfigure_enabled: false,
            desired: TextMap::new(),
            agent_entries: Vec::new(),
            selected_entry: 0,
            focus: Focus::List,
            agent_detail_tab: AgentDetailTab::Overview,
            agent_detail_follow_tail: true,
            stream: StreamView::Agents,
            messages: Vec::new(),
            messages_cursor: PaneCursor { index: 0 },
            messages_follow_tail: true,
            messages_snapshot_error: None,
            tasks: Vec::new(),
            task_snapshot_error: None,
            task_cursor: PaneCursor { index: 0 },
            task_filter: TaskFilterMode::Active,
            tokens_cursor: PaneCursor { index: 0 },
            stream_cursor: PaneCursor { index: 0 },
            stream_follow_tail: true,
            detail_scroll: PaneCursor { index: 0 },
            quick_actions: QuickActionState::new(),
            quick_notice: None,
            help_open: false,
            pending_lifecycle: None,
            pending_interrupt: None,
            pending_task_action: None,
            create_task_form: None,
            pending_task_create: None,
            orchestrator_message_form: None,
            pending_orchestrator_message: None,
            captures: CaptureCache::default(),
            usage_trends: TextMap::new(),
            last_usage_refresh: None,
            workspace_dirs: TextMap::new(),
            streamed_workspace: None,
            last_refresh: None,
            force_refresh: false,
            daemon_running: false,
            notice: None,
            quit: false,
        }
    }

    /// The views that have a tab.
    pub fn stream_tab_views(&self) -> (r: Vec<StreamView>)
        ensures
            r@ == app_tabs(self@),
    {
        proof {
            reveal(model_of);
        }
        StreamView::tabs(self.streamed_workspace.is_some())
    }

    /// Leaves a view that has no tab.
    pub fn ensure_stream_view_visible(&mut self)
        ensures
            final(self)@ == with_visible_view(old(self)@),
    {
        proof {
            reveal(model_of);
        }
        if self.stream == StreamView::Stream && self.streamed_workspace.is_none() {
            self.stream = StreamView::Agents;
            self.detail_scroll = PaneCursor { index: 0 };
        }
    }

    /// Moves `delta` tabs on, going round.
    pub fn step_stream(&mut self, delta: i32, now: Timestamp)
        ensures
            final(self)@ == stepped_stream(old(self)@, delta as int, now),
    {
        proof {
            reveal(model_of);
        }
        let tabs = self.stream_tab_views();
        let here = if self.stream == StreamView::Stream && self.streamed_workspace.is_none() {
            0
        } else {
            tab_index(self.stream)
        };
        let next = step_round(here, delta, tabs.len());
        self.stream = tabs[next];
        self.detail_scroll = PaneCursor { index: 0 };
        self.clamp_task_selection(now);
    }

    /// Moves `delta` tabs on in the detail of an agent, going round.
    pub fn step_agent_detail_tab(&mut self, delta: i32)
        ensures
            final(self)@ == stepped_detail_tab(old(self)@, delta as int),
    {
        proof {
            reveal(model_of);
        }
        let tabs = AgentDetailTab::all();
        let next = step_round(self.agent_detail_tab.index(), delta, tabs.len());
        self.agent_detail_tab = tabs[next];
        self.agent_detail_follow_tail = true;
        self.detail_scroll = PaneCursor { index: 0 };
    }

    /// Moves the focus `delta` halves on, going round.
    pub fn cycle_focus(&mut self, delta: i32)
        ensures
            final(self)@ == cycled_focus(old(self)@, delta as int),
    {
        proof {
            reveal(model_of);
        }
        if step_round(0, delta, 2) != 0 {
            self.focus = self.focus.other();
        }
    }

    /// Shows the view of tab `idx`; without such a tab nothing changes.
    pub fn select_stream(&mut self, idx: usize)
        ensures
            final(self)@ == selected_stream(old(self)@, idx as int),
    {
        proof {
            reveal(model_of);
        }
        let tabs = self.stream_tab_views();
        if idx < tabs.len() {
            self.stream = tabs[idx];
            self.detail_scroll = PaneCursor { index: 0 };
        }
    }

    /// The tasks that are listed.
    pub fn filtered_tasks(&self, now: Timestamp) -> (r: Vec<&Task>)
        ensures
            referred(r@) == app_tasks(self@, now),
            r@.len() == app_tasks(self@, now).len(),
    {
        proof {
            reveal(model_of);
        }
        filter_tasks(&self.tasks, self.task_filter, now)
    }

    /// The task that is selected.
    pub fn selected_task(&self, now: Timestamp) -> (r: Option<&Task>)
        ensures
            match r {
                Some(t) => task_selected(self@, now) == Some(*t),
                None => task_selected(self@, now) is None,
            },
    {
        proof {
            reveal(model_of);
        }
        let v = self.filtered_tasks(now);
        if self.task_cursor.index < v.len() {
            proof {
                assert(referred(v@)[self.task_cursor.index as int] == *v@[self.task_cursor.index as int]);
            }
            Some(v[self.task_cursor.index])
        } else {
            None
        }
    }

    /// Moves the selection in the list of tasks.
    pub fn move_task_selection(&mut self, delta: i32, now: Timestamp)
        ensures
            final(self)@ == moved_task_selection(old(self)@, delta as int, now),
    {
        proof {
            reveal(model_of);
        }
        let n = self.filtered_tasks(now).len();
        if n == 0 {
            self.task_cursor = PaneCursor { index: 0 };
            return ;
        }
        let mut cursor = self.task_cursor;
        cursor.shift(delta);
        cursor.clamp(n - 1);
        self.task_cursor = cursor;
    }

    /// Turns to the next filter.
    pub fn cycle_task_filter(&mut self, now: Timestamp)
        ensures
            final(self)@ == cycled_task_filter(old(self)@, now),
    {
        proof {
            reveal(model_of);
        }
        self.task_filter = self.task_filter.next();
        self.clamp_task_selection(now);
    }

    /// Brings the selection back into the list of tasks.
    pub fn clamp_task_selection(&mut self, now: Timestamp)
        ensures
            final(self)@ == with_task_cursor_in_list(old(self)@, now),
    {
        proof {
            reveal(model_of);
        }
        let n = self.filtered_tasks(now).len();
        if n == 0 {
            self.task_cursor = PaneCursor { index: 0 };
            return ;
        }
        let mut cursor = self.task_cursor;
        cursor.clamp(n - 1);
        self.task_cursor = cursor;
    }

    /// Moves the selection in the list of messages.
    pub fn scroll_messages(&mut self, delta: i32)
        ensures
            final(self)@ == scrolled_messages(old(self)@, delta as int),
    {
        proof {
            reveal(model_of);
        }
        let n = self.messages.len();
        if n == 0 {
            self.messages_cursor = PaneCursor { index: 0 };
            self.messages_follow_tail = true;
            return ;
        }
        let next = move_index(self.messages_cursor.index, delta, n - 1);
        self.messages_cursor = PaneCursor { index: next };
        self.messages_follow_tail = next == n - 1;
    }

    /// Selects the newest message and follows it.
    pub fn messages_to_tail(&mut self)
        ensures
            final(self)@ == messages_at_tail(old(self)@),
    {
        proof {
            reveal(model_of);
        }
        self.messages_follow_tail = true;
        let n = self.messages.len();
        self.messages_cursor = PaneCursor { index: if n == 0 { 0 } else { n - 1 } };
    }

    /// Selects the oldest message.
    pub fn messages_to_head(&mut self)
        ensures
            final(self)@ == messages_at_head(old(self)@),
    {
        proof {
            reveal(model_of);
        }
        self.messages_follow_tail = false;
        self.messages_cursor = PaneCursor { index: 0 };
    }

    /// Brings the selection back into the list of messages.
    pub fn reconcile_message_cursor(&mut self)
        ensures
            final(self)@ == with_message_cursor_in_list(old(self)@),
    {
        proof {
            reveal(model_of);
        }
        let n = self.messages.len();
        if n == 0 {
            self.messages_cursor = PaneCursor { index: 0 };
            self.messages_follow_tail = true;
            return ;
        }
        if self.messages_follow_tail {
            self.messages_cursor = PaneCursor { index: n - 1 };
        } else {
            let mut cursor = self.messages_cursor;
            cursor.clamp(n - 1);
            self.messages_cursor = cursor;
        }
    }

    /// Moves the selection in the list of usage.
    pub fn scroll_tokens(&mut self, delta: i32)
        ensures
            final(self)@ == (AppModel {
                tokens_cursor: shifted(old(self)@.tokens_cursor, delta as int),
                ..old(self)@
            }),
    {
        proof {
            reveal(model_of);
        }
        let mut cursor = self.tokens_cursor;
        cursor.shift(delta);
        self.tokens_cursor = cursor;
    }

    /// Selects the first row of the list of usage.
    pub fn tokens_to_head(&mut self)
        ensures
            final(self)@ == (AppModel { tokens_cursor: top(), ..old(self)@ }),
    {
        proof {
            reveal(model_of);
        }
        self.tokens_cursor = PaneCursor { index: 0 };
    }

    /// Moves behind the last row of the list of usage; drawing stops at the last.
    pub fn tokens_to_tail(&mut self)
        ensures
            final(self)@ == (AppModel {
                tokens_cursor: PaneCursor { index: token_rows(old(self)@) as usize },
                ..old(self)@
            }),
            final(self)@.tokens_cursor.index == token_rows(old(self)@),
    {
        proof {
            reveal(model_of);
        }
        let n = self.token_row_count();
        self.tokens_cursor = PaneCursor { index: n };
    }

    /// The number of rows of the list of usage.
    pub fn token_row_count(&self) -> (r: usize)
        ensures
            r == token_rows(self@),
            r <= self.usage_trends.values@.len(),
    {
        proof {
            reveal(model_of);
        }
        let n = self.usage_trends.values.len();
        let mut count: usize = 0;
        let mut i: usize = 0;
        while i < n
            invariant
                i <= n == self.usage_trends.values@.len(),
                count <= i,
                count == usage_rows(self.usage_trends.values@, i as int),
            decreases n - i,
        {
            let t = &self.usage_trends.values[i];
            if t.available && t.total.total() > 0 {
                count = count + 1;
            }
            i = i + 1;
        }
        count
    }

    /// Scrolls the mirrored terminal.
    pub fn scroll_stream(&mut self, delta: i32)
        ensures
            final(self)@ == scrolled_stream(old(self)@, delta as int),
    {
        proof {
            reveal(model_of);
        }
        if delta < 0 {
            self.stream_follow_tail = false;
        }
        let mut cursor = self.stream_cursor;
        cursor.shift(delta);
        self.stream_cursor = cursor;
    }

    /// Scrolls the mirrored terminal to its top.
    pub fn stream_to_head(&mut self)
        ensures
            final(self)@ == (AppModel {
                stream_cursor: top(),
                stream_follow_tail: false,
                ..old(self)@
            }),
    {
        proof {
            reveal(model_of);
        }
        self.stream_follow_tail = false;
        self.stream_cursor = PaneCursor { index: 0 };
    }

    /// Follows the end of the mirrored terminal; drawing finds the place.
    pub fn stream_to_tail(&mut self)
        ensures
            final(self)@ == (AppModel {
                stream_cursor: top(),
                stream_follow_tail: true,
                ..old(self)@
            }),
    {
        proof {
            reveal(model_of);
        }
        self.stream_follow_tail = true;
        self.stream_cursor = PaneCursor { index: 0 };
    }

    /// Replaces the rows of agents.
    fn put_entries(&mut self, entries: Vec<AgentEntry>)
        ensures
            final(self)@ == (AppModel { agent_entries: rows(entries@), ..old(self)@ }),
            final(self).agent_entries == entries,
            final(self).selected_entry == old(self).selected_entry,
    {
        proof {
            reveal(model_of);
        }
        self.agent_entries = entries;
    }

    /// Selects a row of the list of agents.
    fn put_selected(&mut self, i: usize)
        ensures
            final(self)@ == (AppModel { selected_entry: i, ..old(self)@ }),
    {
        proof {
            reveal(model_of);
        }
        self.selected_entry = i;
    }

    /// The rows of agents, as the sessions and the tree give them.
    fn fresh_entries(&self) -> (r: Vec<AgentEntry>)
        requires
            self@.wf(),
        ensures
            rows(r@) == entry_rows(
                self@.sessions,
                self@.tree,
                self@.reconfigure_enabled,
                self@.desired,
            ),
    {
        proof {
            reveal(model_of);
        }
        build_entries(&self.sessions, &self.tree, self.reconfigure_enabled, &self.desired)
    }

    /// Selects a row that exists.
    fn select_existing(&mut self)
        ensures
            final(self)@ == with_selectable_entry(old(self)@),
    {
        let v = selectable_entry_positions(&self.agent_entries);
        let selected = self.selected_entry;
        assert(v@ == selectable(self@.agent_entries) && selected == self@.selected_entry) by {
            reveal(model_of);
        }
        if v.len() == 0 {
            self.put_selected(0);
            return ;
        }
        let at = find_place(&v, selected);
        if v[at] != selected {
            proof {
                if v@.contains(selected) {
                    place_holds(v@, selected);
                }
            }
            self.put_selected(v[0]);
        }
    }

    /// Builds the rows of agents anew from the sessions and the tree.
    pub fn rebuild_agents(&mut self)
        requires
            old(self)@.wf(),
        ensures
            final(self)@ == rebuilt_agents(old(self)@),
    {
        let entries = self.fresh_entries();
        self.put_entries(entries);
        self.select_existing();
    }

    /// Moves the selection in the list of agents, past the headings.
    pub fn move_selection(&mut self, delta: i32)
        ensures
            final(self)@ == moved_selection(old(self)@, delta as int),
    {
        proof {
            reveal(model_of);
        }
        let v = selectable_entry_positions(&self.agent_entries);
        if v.len() == 0 {
            self.selected_entry = 0;
            return ;
        }
        let here = find_place(&v, self.selected_entry);
        let next = move_index(here, delta, v.len() - 1);
        self.selected_entry = v[next];
    }

    /// The workspace that is selected.
    pub fn selected_workspace(&self) -> (r: Option<&str>)
        ensures
            match r {
                Some(w) => workspace_selected(self@) == Some(w@),
                None => workspace_selected(self@) is None,
            },
    {
        proof {
            reveal(model_of);
        }
        if self.selected_entry < self.agent_entries.len()
            && !self.agent_entries[self.selected_entry].group {
            proof {
                assert(self@.agent_entries[self.selected_entry as int]
                    == self.agent_entries@[self.selected_entry as int]@);
            }
            Some(self.agent_entries[self.selected_entry].workspace.as_str())
        } else {
            None
        }
    }

    /// Drops the notice when its time is over.
    pub fn expire_notice(&mut self, now: u64)
        ensures
            final(self)@ == match old(self)@.quick_notice {
                Some(n) => if now >= n.expires_at {
                    AppModel { quick_notice: None, ..old(self)@ }
                } else {
                    old(self)@
                },
                None => old(self)@,
            },
    {
        proof {
            reveal(model_of);
        }
        let over = match &self.quick_notice {
            Some(n) => now >= n.expires_at,
            None => false,
        };
        if over {
            self.quick_notice = None;
        }
    }

    /// Says that data could not be had.
    pub fn set_refresh_notice(&mut self, source: RefreshNoticeSource, text: String)
        ensures
            final(self)@ == (AppModel {
                notice: Some(SourceNotice { source, text: text@ }),
                ..old(self)@
            }),
    {
        proof {
            reveal(model_of);
        }
        self.notice = Some(RefreshNotice { source, text });
    }

    /// Takes back what was said of the source; what was said of another stays.
    pub fn clear_refresh_notice(&mut self, source: RefreshNoticeSource)
        ensures
            final(self)@ == match old(self)@.notice {
                Some(n) => if n.source == source {
                    AppModel { notice: None, ..old(self)@ }
                } else {
                    old(self)@
                },
                None => old(self)@,
            },
    {
        proof {
            reveal(model_of);
        }
        let same_source = match &self.notice {
            Some(n) => n.source == source,
            None => false,
        };
        if same_source {
            self.notice = None;
        }
    }

    /// Opens the form for a new task.
    pub fn open_create_task_form(&mut self)
        ensures
            final(self)@ == opened_task_form(old(self)@),
    {
        proof {
            reveal(model_of);
        }
        let assignee = if self.workspace_dirs.keys.len() > 0 {
            self.workspace_dirs.keys[0].clone()
        } else {
            String::new()
        };
        self.create_task_form = Some(
            CreateTaskForm {
                assignee,
                title: String::new(),
                description: String::new(),
                field: CreateTaskField::Title,
                error: None,
                submitting: false,
            },
        );
    }

    /// Drops the form for a new task.
    pub fn cancel_create_task_form(&mut self)
        ensures
            final(self)@ == (AppModel { create_task_form: None, ..old(self)@ }),
    {
        proof {
            reveal(model_of);
        }
        self.create_task_form = None;
    }

    /// Replaces the form for a new task.
    pub fn put_task_form(&mut self, form: Option<CreateTaskForm>)
        ensures
            final(self)@ == (AppModel { create_task_form: opt_view(form), ..old(self)@ }),
    {
        proof {
            reveal(model_of);
        }
        self.create_task_form = form;
    }

    /// Takes the form for a new task out of the state.
    pub fn take_task_form(&mut self) -> (r: Option<CreateTaskForm>)
        ensures
            opt_view(r) == old(self)@.create_task_form,
            final(self)@ == (AppModel { create_task_form: None, ..old(self)@ }),
    {
        proof {
            reveal(model_of);
        }
        self.create_task_form.take()
    }

    /// Lets a new task wait to be created.
    fn put_pending_task(&mut self, pending: PendingTaskCreate)
        ensures
            final(self)@ == (AppModel { pending_task_create: Some(pending@), ..old(self)@ }),
    {
        proof {
            reveal(model_of);
        }
        self.pending_task_create = Some(pending);
    }

    /// Hands in the form for a new task: what is missing is said, else the task
    /// waits to be created.
    pub fn submit_create_task_form(&mut self)
        ensures
            final(self)@ == submitted_task_form(old(self)@),
    {
        let mut form = match self.take_task_form() {
            Some(form) => form,
            None => {
                return ;
            },
        };
        let pending = form.hand_in();
        match pending {
            Some(pending) => {
                self.put_pending_task(pending);
            },
            None => {},
        }
        self.put_task_form(Some(form));
    }

    /// Opens the form for a message to the orchestrator.
    pub fn open_orchestrator_message_form(&mut self)
        ensures
            final(self)@ == opened_message_form(old(self)@),
    {
        proof {
            reveal(model_of);
        }
        self.orchestrator_message_form = Some(
            OrchestratorMessageForm { message: String::new(), error: None, submitting: false },
        );
    }

    /// Drops the form for a message.
    pub fn cancel_orchestrator_message_form(&mut self)
        ensures
            final(self)@ == (AppModel { orchestrator_message_form: None, ..old(self)@ }),
    {
        proof {
            reveal(model_of);
        }
        self.orchestrator_message_form = None;
    }

    /// Replaces the form for a message.
    pub fn put_message_form(&mut self, form: Option<OrchestratorMessageForm>)
        ensures
            final(self)@ == (AppModel { orchestrator_message_form: opt_view(form), ..old(self)@ }),
    {
        proof {
            reveal(model_of);
        }
        self.orchestrator_message_form = form;
    }

    /// Takes the form for a message out of the state.
    pub fn take_message_form(&mut self) -> (r: Option<OrchestratorMessageForm>)
        ensures
            opt_view(r) == old(self)@.orchestrator_message_form,
            final(self)@ == (AppModel { orchestrator_message_form: None, ..old(self)@ }),
    {
        proof {
            reveal(model_of);
        }
        self.orchestrator_message_form.take()
    }

    /// Lets a message wait to be sent.
    fn put_pending_message(&mut self, message: String)
        ensures
            final(self)@ == (AppModel {
                pending_orchestrator_message: Some(message@),
                ..old(self)@
            }),
    {
        proof {
            reveal(model_of);
        }
        self.pending_orchestrator_message = Some(PendingOrchestratorMessage { message });
    }

    /// Hands in the form for a message: an empty one is refused, else it waits to
    /// be sent.
    pub fn submit_orchestrator_message_form(&mut self)
        ensures
            final(self)@ == submitted_message_form(old(self)@),
    {
        let mut form = match self.take_message_form() {
            Some(form) => form,
            None => {
                return ;
            },
        };
        let message = trimmed(form.message.as_str());
        if message.as_str().is_empty() {
            form.error = Some("message is required".to_owned());
        } else {
            form.error = None;
            form.submitting = true;
            self.put_pending_message(message);
        }
        self.put_message_form(Some(form));
    }

    /// Replaces the messages.
    fn put_messages(&mut self, messages: Vec<HistoryEntry>)
        ensures
            final(self)@ == (AppModel {
                messages: messages@,
                messages_snapshot_error: None,
                ..old(self)@
            }),
    {
        proof {
            reveal(model_of);
        }
        self.messages = messages;
        self.messages_snapshot_error = None;
    }

    /// Says why the messages cannot be read.
    fn put_messages_error(&mut self, e: String)
        ensures
            final(self)@ == (AppModel { messages_snapshot_error: Some(e@), ..old(self)@ }),
    {
        proof {
            reveal(model_of);
        }
        self.messages_snapshot_error = Some(e);
    }

    /// Takes in what reading the message history gave. What was read last stays
    /// where it cannot be read now.
    pub fn take_messages(&mut self, read: SnapshotRead<Vec<HistoryEntry>>)
        ensures
            final(self)@ == with_message_cursor_in_list(with_messages(old(self)@, read)),
    {
        match read {
            SnapshotRead::Loaded(v) => {
                self.put_messages(v);
            },
            SnapshotRead::Missing => {
                self.put_messages(Vec::new());
            },
            SnapshotRead::Error(e) => {
                self.put_messages_error(e);
            },
        }
        self.reconcile_message_cursor();
    }

    /// Replaces the tasks.
    fn put_tasks(&mut self, tasks: Vec<Task>)
        ensures
            final(self)@ == (AppModel { tasks: tasks@, task_snapshot_error: None, ..old(self)@ }),
    {
        proof {
            reveal(model_of);
        }
        self.tasks = tasks;
        self.task_snapshot_error = None;
    }

    /// Says why the tasks cannot be read.
    fn put_tasks_error(&mut self, e: String)
        ensures
            final(self)@ == (AppModel { task_snapshot_error: Some(e@), ..old(self)@ }),
    {
        proof {
            reveal(model_of);
        }
        self.task_snapshot_error = Some(e);
    }

    /// Takes in what reading the tasks gave. What was read last stays where they
    /// cannot be read now.
    pub fn take_tasks(&mut self, read: SnapshotRead<Vec<Task>>, now: Timestamp)
        ensures
            final(self)@ == with_task_cursor_in_list(with_tasks(old(self)@, read), now),
    {
        match read {
            SnapshotRead::Loaded(v) => {
                self.put_tasks(v);
            },
            SnapshotRead::Missing => {
                self.put_tasks(Vec::new());
            },
            SnapshotRead::Error(e) => {
                self.put_tasks_error(e);
            },
        }
        self.clamp_task_selection(now);
    }

    /// Says something to the user for a while.
    pub fn put_notice(&mut self, notice: Option<Notice>)
        ensures
            final(self)@ == (AppModel { quick_notice: opt_view(notice), ..old(self)@ }),
    {
        proof {
            reveal(model_of);
        }
        self.quick_notice = notice;
    }

    /// Shows a view.
    pub fn put_stream(&mut self, view: StreamView)
        ensures
            final(self)@ == (AppModel { stream: view, ..old(self)@ }),
    {
        proof {
            reveal(model_of);
        }
        self.stream = view;
    }

    /// Mirrors the terminal of a workspace.
    pub fn put_streamed(&mut self, workspace: String)
        ensures
            final(self)@ == (AppModel { streamed_workspace: Some(workspace@), ..old(self)@ }),
    {
        proof {
            reveal(model_of);
        }
        self.streamed_workspace = Some(workspace);
    }

    /// Lets an interruption wait to be carried out.
    pub fn put_pending_interrupt(&mut self, workspace: String)
        ensures
            final(self)@ == (AppModel { pending_interrupt: Some(workspace@), ..old(self)@ }),
    {
        proof {
            reveal(model_of);
        }
        self.pending_interrupt = Some(workspace);
    }

    /// Lets a restart or stop wait to be carried out.
    pub fn put_pending_lifecycle(&mut self, pending: PendingLifecycle)
        ensures
            final(self)@ == (AppModel { pending_lifecycle: Some(pending@), ..old(self)@ }),
    {
        proof {
            reveal(model_of);
        }
        self.pending_lifecycle = Some(pending);
    }

    /// Lets an action on a task wait to be carried out.
    pub fn put_pending_task_action(&mut self, pending: PendingTaskAction)
        ensures
            final(self)@ == (AppModel { pending_task_action: Some(pending@), ..old(self)@ }),
    {
        proof {
            reveal(model_of);
        }
        self.pending_task_action = Some(pending);
    }

    /// Replaces the menu.
    pub fn put_menu(&mut self, menu: QuickActionState)
        ensures
            final(self)@ == (AppModel { quick_actions: menu@, ..old(self)@ }),
    {
        proof {
            reveal(model_of);
        }
        self.quick_actions = menu;
    }

    /// Takes the menu out of the state, where a closed one without actions stays
    /// behind.
    pub fn take_menu(&mut self) -> (r: QuickActionState)
        ensures
            r@ == old(self)@.quick_actions,
            final(self)@ == (AppModel { quick_actions: no_menu(), ..old(self)@ }),
    {
        proof {
            reveal(model_of);
        }
        let mut menu = QuickActionState::new();
        std::mem::swap(&mut menu, &mut self.quick_actions);
        menu
    }

    /// Opens or closes the help.
    pub fn put_help(&mut self, open: bool)
        ensures
            final(self)@ == (AppModel { help_open: open, ..old(self)@ }),
    {
        proof {
            reveal(model_of);
        }
        self.help_open = open;
    }

    /// Ends the view.
    pub fn put_quit(&mut self)
        ensures
            final(self)@ == (AppModel { quit: true, ..old(self)@ }),
    {
        proof {
            reveal(model_of);
        }
        self.quit = true;
    }

    /// Asks for fresh data.
    pub fn put_force_refresh(&mut self)
        ensures
            final(self)@ == (AppModel { force_refresh: true, ..old(self)@ }),
    {
        proof {
            reveal(model_of);
        }
        self.force_refresh = true;
    }

    /// Moves the focus.
    pub fn put_focus(&mut self, focus: Focus)
        ensures
            final(self)@ == (AppModel { focus, ..old(self)@ }),
    {
        proof {
            reveal(model_of);
        }
        self.focus = focus;
    }

    /// Scrolls the detail.
    pub fn scroll_detail(&mut self, delta: i32)
        ensures
            final(self)@ == (AppModel {
                detail_scroll: shifted(old(self)@.detail_scroll, delta as int),
                ..old(self)@
            }),
    {
        proof {
            reveal(model_of);
        }
        let mut cursor = self.detail_scroll;
        cursor.shift(delta);
        self.detail_scroll = cursor;
    }

    /// Scrolls the detail to a place.
    pub fn put_detail_scroll(&mut self, index: usize)
        ensures
            final(self)@ == (AppModel { detail_scroll: PaneCursor { index }, ..old(self)@ }),
    {
        proof {
            reveal(model_of);
        }
        self.detail_scroll = PaneCursor { index };
    }

    /// Scrolls the mirrored terminal to a place, and follows its end or not.
    pub fn put_stream_place(&mut self, index: usize, follow: bool)
        ensures
            final(self)@ == (AppModel {
                stream_cursor: PaneCursor { index },
                stream_follow_tail: follow,
                ..old(self)@
            }),
    {
        proof {
            reveal(model_of);
        }
        self.stream_cursor = PaneCursor { index };
        self.stream_follow_tail = follow;
    }

    /// Follows the end of the detail, or stops following it.
    pub fn put_detail_follow(&mut self, follow: bool)
        ensures
            final(self)@ == (AppModel { agent_detail_follow_tail: follow, ..old(self)@ }),
    {
        proof {
            reveal(model_of);
        }
        self.agent_detail_follow_tail = follow;
    }
}

/// The state with the messages read; what was read last stays where they cannot
/// be read now.
pub open spec fn with_messages(s: AppModel, read: SnapshotRead<Vec<HistoryEntry>>) -> AppModel {
    match read {
        SnapshotRead::Loaded(v) => AppModel {
            messages: v@,
            messages_snapshot_error: None,
            ..s
        },
        SnapshotRead::Missing => AppModel {
            messages: Seq::empty(),
            messages_snapshot_error: None,
            ..s
        },
        SnapshotRead::Error(e) => AppModel { messages_snapshot_error: Some(e@), ..s },
    }
}

/// The state with the tasks read; what was read last stays where they cannot be
/// read now.
pub open spec fn with_tasks(s: AppModel, read: SnapshotRead<Vec<Task>>) -> AppModel {
    match read {
        SnapshotRead::Loaded(v) => AppModel { tasks: v@, task_snapshot_error: None, ..s },
        SnapshotRead::Missing => AppModel {
            tasks: Seq::empty(),
            task_snapshot_error: None,
            ..s
        },
        SnapshotRead::Error(e) => AppModel { task_snapshot_error: Some(e@), ..s },
    }
}

proof fn place_holds(v: Seq<usize>, x: usize)
    requires
        v.contains(x),
    ensures
        0 <= place_in(v, x) < v.len(),
        v[place_in(v, x)] == x,
    decreases v.len(),
{
    let front = v.drop_last();
    if front.contains(x) {
        place_holds(front, x);
    } else {
        let j = choose|j: int| 0 <= j < v.len() && v[j] == x;
        if j < v.len() - 1 {
            assert(front[j] == x);
        }
    }
}

} // verus!
