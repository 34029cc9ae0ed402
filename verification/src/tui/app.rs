//! What the loop around the view decides: when data is asked for anew, what is
//! made of the answers, and what pending actions ask of the daemon.

use vstd::prelude::*;

use crate::config::{
    config_orchestrator_name, forest_names, has_orchestrator, has_workspace, orchestrator_of,
    root_orchestrator_visible, tree_depth, tree_names, ProjectNode,
};
use crate::keyed::{lacks_first, last_keyed, one_item_less, TextMap};
use crate::proto::responses::InterveneTaskResponse;
use crate::proto::types::{Task, WorkspaceInfo};
use crate::proto::usage::WorkspaceTrend;
use crate::time::Timestamp;
use crate::tmux::sessions::{tmux_problem, SessionInfo, TmuxError};
use crate::tui::actions::{notice, Notice, QuickActionId};
use crate::tui::captures::elapsed;
use crate::tui::state::{
    model_fields, model_of, workspace_selected, App, AppModel, MessageForm, PendingTaskAction,
    RefreshNoticeSource, SourceNotice, TaskForm,
};
use crate::tui::tasks::{short_id, short_task_id, status_label, task_status_label};
use crate::tui::tokens::opt_text;

verus! {

/// How often data is asked for, in milliseconds.
pub const REFRESH_INTERVAL: u64 = 250;

/// How long a key is waited for, in milliseconds.
pub const POLL_INTERVAL: u64 = 50;

/// How often token usage is asked for, in milliseconds: reading the transcripts
/// takes the daemon longer than the rest.
pub const USAGE_REFRESH_INTERVAL: u64 = 5000;

/// The stretch of time that token usage is asked for, in minutes.
pub const USAGE_WINDOW_MINUTES: i64 = 1440;

/// The parts in which token usage is asked for, in minutes.
pub const USAGE_BUCKET_MINUTES: i64 = 5;

/// How many messages are kept.
pub const MESSAGE_HISTORY_BUFFER: usize = 500;

/// What the view is started with.
#[derive(Debug, Clone)]
pub struct RunOptions {
    pub socket_path: String,
}

/// What ends the view before its time.
#[derive(Debug, Clone)]
pub enum RunError {
    Terminal(String),
    Render(String),
    Input(String),
    Tmux(TmuxError),
}

/// What ends the view before its time, in words.
pub open spec fn run_problem(e: RunError) -> Seq<char> {
    match e {
        RunError::Terminal(text) => "terminal setup: "@ + text@,
        RunError::Render(text) => "render: "@ + text@,
        RunError::Input(text) => "input: "@ + text@,
        RunError::Tmux(e) => "tmux: "@ + tmux_problem(e),
    }
}

impl RunError {
    /// What ends the view before its time, in words.
    pub fn text(&self) -> (r: String)
        ensures
            r@ == run_problem(*self),
    {
        match self {
            RunError::Terminal(text) => "terminal setup: ".to_owned().concat(text.as_str()),
            RunError::Render(text) => "render: ".to_owned().concat(text.as_str()),
            RunError::Input(text) => "input: ".to_owned().concat(text.as_str()),
            RunError::Tmux(e) => "tmux: ".to_owned().concat(e.text().as_str()),
        }
    }
}

/// Something that was last done at `last` is due again.
pub open spec fn is_due(last: Option<u64>, now: u64, interval: u64) -> bool {
    match last {
        Some(t) => elapsed(now, t) >= interval,
        None => true,
    }
}

/// Whether something that was last done at `last` is due again.
pub fn due(last: Option<u64>, now: u64, interval: u64) -> (r: bool)
    ensures
        r == is_due(last, now, interval),
{
    match last {
        Some(t) => if now > t {
            now - t >= interval
        } else {
            0 >= interval
        },
        None => true,
    }
}

/// What an action on a task asks of the daemon.
#[derive(Debug, Clone)]
pub enum TaskRequest {
    Intervene {
        task_id: String,
        action: &'static str,
        note: &'static str,
        expected_version: Option<i64>,
    },
    Cancel { task_id: String, reason: &'static str, expected_version: Option<i64> },
    Ignored,
}

/// What an action on a task asks of the daemon, as a value.
pub enum AskedOfDaemon {
    Intervene {
        task_id: Seq<char>,
        action: Seq<char>,
        note: Seq<char>,
        expected_version: Option<i64>,
    },
    Cancel { task_id: Seq<char>, reason: Seq<char>, expected_version: Option<i64> },
    Ignored,
}

impl View for TaskRequest {
    type V = AskedOfDaemon;

    open spec fn view(&self) -> AskedOfDaemon {
        match *self {
            TaskRequest::Intervene { task_id, action, note, expected_version } => {
                AskedOfDaemon::Intervene {
                    task_id: task_id@,
                    action: action@,
                    note: note@,
                    expected_version,
                }
            },
            TaskRequest::Cancel { task_id, reason, expected_version } => AskedOfDaemon::Cancel {
                task_id: task_id@,
                reason: reason@,
                expected_version,
            },
            TaskRequest::Ignored => AskedOfDaemon::Ignored,
        }
    }
}

/// The name under which the daemon knows an intervention.
pub open spec fn intervention(action: QuickActionId) -> Option<Seq<char>> {
    match action {
        QuickActionId::TaskWake => Some("wake"@),
        QuickActionId::TaskInterrupt => Some("interrupt"@),
        QuickActionId::TaskRetry => Some("retry"@),
        _ => None,
    }
}

/// What an action on a task asks of the daemon. A version that is not positive
/// is not held against the task's.
pub open spec fn asked_of_daemon(pending: PendingTaskAction) -> AskedOfDaemon {
    let expected_version = if pending.expected_version > 0 {
        Some(pending.expected_version)
    } else {
        None
    };
    match intervention(pending.action) {
        Some(action) => AskedOfDaemon::Intervene {
            task_id: pending.task_id@,
            action,
            note: "requested from ax watch tasks tab"@,
            expected_version,
        },
        None => if pending.action == QuickActionId::TaskCancel {
            AskedOfDaemon::Cancel {
                task_id: pending.task_id@,
                reason: "cancelled from ax watch tasks tab"@,
                expected_version,
            }
        } else {
            AskedOfDaemon::Ignored
        },
    }
}

/// What a pending action on a task asks of the daemon.
pub fn run_pending_task_action(pending: &PendingTaskAction) -> (r: TaskRequest)
    ensures
        r@ == asked_of_daemon(*pending),
{
    let expected_version = if pending.expected_version > 0 {
        Some(pending.expected_version)
    } else {
        None
    };
    let task_id = pending.task_id.clone();
    let note = "requested from ax watch tasks tab";
    match pending.action {
        QuickActionId::TaskWake => TaskRequest::Intervene {
            task_id,
            action: "wake",
            note,
            expected_version,
        },
        QuickActionId::TaskInterrupt => TaskRequest::Intervene {
            task_id,
            action: "interrupt",
            note,
            expected_version,
        },
        QuickActionId::TaskRetry => TaskRequest::Intervene {
            task_id,
            action: "retry",
            note,
            expected_version,
        },
        QuickActionId::TaskCancel => TaskRequest::Cancel {
            task_id,
            reason: "cancelled from ax watch tasks tab",
            expected_version,
        },
        _ => TaskRequest::Ignored,
    }
}

/// What an intervention did.
pub open spec fn intervention_text(response: InterveneTaskResponse) -> Seq<char> {
    let text = response.action@ + " task "@ + short_id(response.task.id@) + " · "@
        + response.status@;
    if response.message_id@.len() > 0 {
        text + " · message queued"@
    } else {
        text
    }
}

/// What an intervention did, in words.
pub fn format_intervention_notice(response: &InterveneTaskResponse) -> (r: String)
    ensures
        r@ == intervention_text(*response),
{
    let mut text = response.action.clone().concat(" task ").concat(
        short_task_id(response.task.id.as_str()).as_str(),
    ).concat(" · ").concat(response.status.as_str());
    if !response.message_id.as_str().is_empty() {
        text.append(" · message queued");
    }
    text
}

/// That a task was cancelled, in words.
pub fn format_cancel_notice(task: &Task, now: Timestamp) -> (r: String)
    ensures
        r@ == "cancelled task "@ + short_id(task.id@) + " · "@ + status_label(*task, now),
{
    "cancelled task ".to_owned().concat(short_task_id(task.id.as_str()).as_str()).concat(
        " · ",
    ).concat(task_status_label(task, now).as_str())
}

/// What a map gives for a key after `true` was entered for the keys that are
/// `named`.
pub open spec fn entered(m: TextMap<bool>, named: bool, k: Seq<char>) -> Option<bool> {
    if named {
        Some(true)
    } else {
        m.lookup(k)
    }
}

/// The names that a tree gives, entered with `true`.
pub fn walk_desired(node: &ProjectNode, out: &mut TextMap<bool>)
    requires
        old(out).wf(),
    ensures
        final(out).wf(),
        forall|k: Seq<char>|
            #[trigger] final(out).lookup(k) == entered(*old(out), tree_names(*node, k), k),
    decreases *node,
{
    let ghost pre = *out;
    if root_orchestrator_visible(node) {
        put_name(out, config_orchestrator_name(node.prefix.as_str()));
    }
    let ghost head = *out;
    let mut i: usize = 0;
    while i < node.workspaces.len()
        invariant
            i <= node.workspaces@.len(),
            out.wf(),
            forall|k: Seq<char>|
                #[trigger] out.lookup(k) == entered(
                    head,
                    has_workspace(node.workspaces@.take(i as int), k),
                    k,
                ),
        decreases node.workspaces@.len() - i,
    {
        let ghost before = *out;
        put_name(out, node.workspaces[i].merged_name.clone());
        proof {
            let part = node.workspaces@.take(i + 1);
            let former = node.workspaces@.take(i as int);
            let name = node.workspaces@[i as int].merged_name@;
            assert(part[i as int].merged_name@ == name);
            assert forall|k: Seq<char>| #[trigger] out.lookup(k) == entered(
                head,
                has_workspace(part, k),
                k,
            ) by {
                if has_workspace(former, k) {
                    let j = choose|j: int|
                        0 <= j < former.len() && (#[trigger] former[j]).merged_name@ == k;
                    assert(part[j].merged_name@ == k);
                }
                if has_workspace(part, k) && k != name {
                    let j = choose|j: int|
                        0 <= j < part.len() && (#[trigger] part[j]).merged_name@ == k;
                    assert(former[j].merged_name@ == k);
                }
                assert(before.lookup(k) == entered(head, has_workspace(former, k), k));
            }
        }
        i = i + 1;
    }
    let ghost own = *out;
    proof {
        assert(node.workspaces@.take(node.workspaces@.len() as int) =~= node.workspaces@);
    }
    let mut c: usize = 0;
    while c < node.children.len()
        invariant
            c <= node.children@.len(),
            out.wf(),
            forall|k: Seq<char>|
                #[trigger] out.lookup(k) == entered(
                    own,
                    forest_names(node.children@.take(c as int), k),
                    k,
                ),
        decreases node.children@.len() - c,
    {
        let ghost before = *out;
        walk_desired(&node.children[c], out);
        proof {
            assert(node.children@.take(c + 1).drop_last() =~= node.children@.take(c as int));
            assert forall|k: Seq<char>| #[trigger] out.lookup(k) == entered(
                own,
                forest_names(node.children@.take(c + 1), k),
                k,
            ) by {
                assert(before.lookup(k) == entered(
                    own,
                    forest_names(node.children@.take(c as int), k),
                    k,
                ));
            }
        }
        c = c + 1;
    }
    proof {
        assert(node.children@.take(node.children@.len() as int) =~= node.children@);
        assert forall|k: Seq<char>| #[trigger] out.lookup(k) == entered(
            pre,
            tree_names(*node, k),
            k,
        ) by {
            assert(own.lookup(k) == entered(head, has_workspace(node.workspaces@, k), k));
            assert(head.lookup(k) == entered(
                pre,
                has_orchestrator(*node) && k == orchestrator_of(node.prefix@),
                k,
            ));
        }
    }
}

/// Enters a name with `true`.
fn put_name(out: &mut TextMap<bool>, name: String)
    requires
        old(out).wf(),
    ensures
        final(out).wf(),
        forall|k: Seq<char>| #[trigger] final(out).lookup(k) == entered(*old(out), k == name@, k),
{
    out.insert(name, true);
}

/// The agents that the configuration asks for: all that the tree names, where
/// teams can be reconfigured, else none.
pub fn build_desired_set(tree: &ProjectNode, reconfigure_enabled: bool) -> (r: TextMap<bool>)
    ensures
        r.wf(),
        forall|k: Seq<char>|
            #[trigger] r.lookup(k) == if reconfigure_enabled && tree_names(*tree, k) {
                Some(true)
            } else {
                None
            },
{
    let mut out: TextMap<bool> = TextMap::new();
    if reconfigure_enabled {
        walk_desired(tree, &mut out);
    }
    out
}

/// The last of the workspaces with the name.
pub open spec fn last_info(v: Seq<WorkspaceInfo>, name: Seq<char>) -> Option<WorkspaceInfo> {
    last_keyed(v, |item: WorkspaceInfo| item.name@, name)
}

/// The workspaces by name; of several with one name the last.
pub fn infos_by_name(v: Vec<WorkspaceInfo>) -> (r: TextMap<WorkspaceInfo>)
    ensures
        r.wf(),
        forall|k: Seq<char>| #[trigger] r.lookup(k) == last_info(v@, k),
{
    let ghost key = |item: WorkspaceInfo| item.name@;
    let ghost all = v@;
    let mut out: TextMap<WorkspaceInfo> = TextMap::new();
    let mut v = v;
    let mut n: usize = v.len();
    proof {
        assert(all.take(n as int) =~= all);
    }
    while n > 0
        invariant
            n == v@.len(),
            n <= all.len(),
            v@ == all.take(n as int),
            key == (|item: WorkspaceInfo| item.name@),
            out.wf(),
            lacks_first(out, all, key, n as int),
        decreases n,
    {
        let ghost pre = out;
        let ws = v.pop().unwrap();
        proof {
            assert(all.take(n as int).drop_last() =~= all.take(n - 1));
            assert(ws == all[n - 1]);
        }
        if !out.contains_key(ws.name.as_str()) {
            out.insert(ws.name.clone(), ws);
        }
        proof {
            one_item_less(pre, out, all, key, n as int);
        }
        n = n - 1;
    }
    proof {
        assert forall|k: Seq<char>| #[trigger] out.lookup(k) == last_info(all, k) by {
            assert(last_keyed(all.take(0), key, k) is None);
        }
    }
    out
}

/// The last of the trends of the workspace.
pub open spec fn last_trend(v: Seq<WorkspaceTrend>, workspace: Seq<char>) -> Option<WorkspaceTrend> {
    last_keyed(v, |item: WorkspaceTrend| item.workspace@, workspace)
}

/// The trends by workspace; of several of one workspace the last.
pub fn trends_by_workspace(v: Vec<WorkspaceTrend>) -> (r: TextMap<WorkspaceTrend>)
    ensures
        r.wf(),
        forall|k: Seq<char>| #[trigger] r.lookup(k) == last_trend(v@, k),
{
    let ghost key = |item: WorkspaceTrend| item.workspace@;
    let ghost all = v@;
    let mut out: TextMap<WorkspaceTrend> = TextMap::new();
    let mut v = v;
    let mut n: usize = v.len();
    proof {
        assert(all.take(n as int) =~= all);
    }
    while n > 0
        invariant
            n == v@.len(),
            n <= all.len(),
            v@ == all.take(n as int),
            key == (|item: WorkspaceTrend| item.workspace@),
            out.wf(),
            lacks_first(out, all, key, n as int),
        decreases n,
    {
        let ghost pre = out;
        let trend = v.pop().unwrap();
        proof {
            assert(all.take(n as int).drop_last() =~= all.take(n - 1));
            assert(trend == all[n - 1]);
        }
        if !out.contains_key(trend.workspace.as_str()) {
            out.insert(trend.workspace.clone(), trend);
        }
        proof {
            one_item_less(pre, out, all, key, n as int);
        }
        n = n - 1;
    }
    proof {
        assert forall|k: Seq<char>| #[trigger] out.lookup(k) == last_trend(all, k) by {
            assert(last_keyed(all.take(0), key, k) is None);
        }
    }
    out
}

/// A workspace and the directory that it runs in.
#[derive(Debug, Clone)]
pub struct UsageBinding {
    pub workspace: String,
    pub cwd: String,
}

/// The configuration as it was found.
#[derive(Debug)]
pub struct ConfigRead {
    pub tree: Option<ProjectNode>,
    pub reconfigure_enabled: bool,
    pub workspace_dirs: TextMap<String>,
}

/// The state with what is said of a source taken back.
pub open spec fn without_notice_of(s: AppModel, source: RefreshNoticeSource) -> AppModel {
    match s.notice {
        Some(n) => if n.source == source {
            AppModel { notice: None, ..s }
        } else {
            s
        },
        None => s,
    }
}

/// The state after a new task was created, or was not. Where it was not, the form
/// stays and says why.
pub open spec fn after_task_created(
    s: AppModel,
    result: Result<Seq<char>, Seq<char>>,
    now: u64,
) -> AppModel {
    match result {
        Ok(id) => AppModel {
            create_task_form: None,
            quick_notice: Some(notice("created task "@ + short_id(id), false, now)),
            ..s
        },
        Err(e) => AppModel {
            create_task_form: match s.create_task_form {
                Some(form) => Some(TaskForm { error: Some(e), submitting: false, ..form }),
                None => None,
            },
            ..s
        },
    }
}

/// The state after a message was sent to the orchestrator, or was not. Where it
/// was not, the form stays and says why.
pub open spec fn after_message_sent(s: AppModel, problem: Option<Seq<char>>, now: u64) -> AppModel {
    match problem {
        None => AppModel {
            orchestrator_message_form: None,
            quick_notice: Some(notice("message sent to orchestrator"@, false, now)),
            ..s
        },
        Some(e) => AppModel {
            orchestrator_message_form: match s.orchestrator_message_form {
                Some(form) => Some(MessageForm { error: Some(e), submitting: false, ..form }),
                None => None,
            },
            ..s
        },
    }
}

impl App {
    /// Takes in the sessions that tmux has; where tmux does not answer, those
    /// known stay and the failure is said.
    pub fn take_sessions(&mut self, answer: Result<Vec<SessionInfo>, String>)
        ensures
            final(self)@ == match answer {
                Ok(v) => without_notice_of(
                    AppModel { sessions: v@, ..old(self)@ },
                    RefreshNoticeSource::Tmux,
                ),
                Err(e) => AppModel {
                    notice: Some(
                        SourceNotice {
                            source: RefreshNoticeSource::Tmux,
                            text: "tmux list-sessions: "@ + e@,
                        },
                    ),
                    ..old(self)@
                },
            },
    {
        match answer {
            Ok(v) => {
                self.put_sessions(v);
                self.clear_refresh_notice(RefreshNoticeSource::Tmux);
            },
            Err(e) => self.set_refresh_notice(
                RefreshNoticeSource::Tmux,
                "tmux list-sessions: ".to_owned().concat(e.as_str()),
            ),
        }
    }

    fn put_sessions(&mut self, v: Vec<SessionInfo>)
        ensures
            final(self)@ == (AppModel { sessions: v@, ..old(self)@ }),
    {
        proof {
            reveal(model_of);
        }
        self.sessions = v;
    }

    fn put_infos(&mut self, infos: TextMap<WorkspaceInfo>)
        ensures
            final(self)@ == (AppModel { workspace_infos: infos, ..old(self)@ }),
    {
        proof {
            reveal(model_of);
        }
        self.workspace_infos = infos;
    }

    fn put_daemon_running(&mut self, running: bool)
        ensures
            final(self)@ == (AppModel { daemon_running: running, ..old(self)@ }),
    {
        proof {
            reveal(model_of);
        }
        self.daemon_running = running;
    }

    /// Takes in the workspaces that the daemon knows. Without a connection none
    /// is known; where the daemon fails, those known stay and the failure is
    /// said.
    pub fn take_workspaces(&mut self, answer: Option<Result<Vec<WorkspaceInfo>, String>>)
        ensures
            ({
                let infos = final(self)@.workspace_infos;
                match answer {
                    None => {
                        &&& infos.wf() && infos.keys@.len() == 0
                        &&& final(self)@ == (AppModel {
                            daemon_running: false,
                            workspace_infos: infos,
                            ..old(self)@
                        })
                    },
                    Some(Ok(v)) => {
                        &&& infos.wf()
                        &&& forall|k: Seq<char>| #[trigger] infos.lookup(k) == last_info(v@, k)
                        &&& final(self)@ == without_notice_of(
                            AppModel { daemon_running: true, workspace_infos: infos, ..old(self)@ },
                            RefreshNoticeSource::Daemon,
                        )
                    },
                    Some(Err(e)) => final(self)@ == (AppModel {
                        daemon_running: true,
                        notice: Some(
                            SourceNotice {
                                source: RefreshNoticeSource::Daemon,
                                text: "daemon: "@ + e@,
                            },
                        ),
                        ..old(self)@
                    }),
                }
            }),
    {
        match answer {
            None => {
                self.put_daemon_running(false);
                self.put_infos(TextMap::new());
            },
            Some(Ok(v)) => {
                self.put_daemon_running(true);
                self.put_infos(infos_by_name(v));
                self.clear_refresh_notice(RefreshNoticeSource::Daemon);
            },
            Some(Err(e)) => {
                self.put_daemon_running(true);
                self.set_refresh_notice(
                    RefreshNoticeSource::Daemon,
                    "daemon: ".to_owned().concat(e.as_str()),
                );
            },
        }
    }

    /// Takes in the configuration; without one nothing is configured.
    pub fn take_config(&mut self, read: Option<ConfigRead>)
        requires
            old(self)@.wf(),
            read matches Some(c) ==> c.workspace_dirs.wf() && (c.tree matches Some(node)
                ==> tree_depth(node) <= usize::MAX),
        ensures
            ({
                let s = final(self)@;
                &&& s.wf()
                &&& s == (AppModel {
                    tree: s.tree,
                    desired: s.desired,
                    reconfigure_enabled: s.reconfigure_enabled,
                    workspace_dirs: s.workspace_dirs,
                    ..old(self)@
                })
                &&& match read {
                    Some(c) => {
                        &&& s.tree == c.tree
                        &&& s.reconfigure_enabled == c.reconfigure_enabled
                        &&& s.workspace_dirs == c.workspace_dirs
                        &&& forall|k: Seq<char>|
                            #[trigger] s.desired.lookup(k) == if c.reconfigure_enabled && (
                            c.tree matches Some(node) && tree_names(node, k)) {
                                Some(true)
                            } else {
                                None
                            }
                    },
                    None => {
                        &&& s.tree is None
                        &&& !s.reconfigure_enabled
                        &&& s.workspace_dirs.keys@.len() == 0
                        &&& s.desired.keys@.len() == 0
                    },
                }
            }),
    {
        proof {
            reveal(model_of);
        }
        match read {
            Some(c) => {
                let desired = match &c.tree {
                    Some(tree) => build_desired_set(tree, c.reconfigure_enabled),
                    None => TextMap::new(),
                };
                self.desired = desired;
                self.reconfigure_enabled = c.reconfigure_enabled;
                self.workspace_dirs = c.workspace_dirs;
                self.tree = c.tree;
            },
            None => {
                self.tree = None;
                self.desired = TextMap::new();
                self.reconfigure_enabled = false;
                self.workspace_dirs = TextMap::new();
            },
        }
    }

    /// The workspaces whose usage is asked for now; nothing where the daemon does
    /// not run, nothing is configured or it was asked a short while ago.
    pub fn usage_request(&self, now: u64) -> (r: Option<Vec<UsageBinding>>)
        requires
            self@.wf(),
        ensures
            match r {
                Some(v) => {
                    &&& self@.daemon_running && self@.workspace_dirs.keys@.len() > 0
                    &&& is_due(self@.last_usage_refresh, now, USAGE_REFRESH_INTERVAL)
                    &&& v@.len() == self@.workspace_dirs.keys@.len()
                    &&& forall|i: int|
                        0 <= i < v@.len() ==> (#[trigger] v@[i]).workspace@
                            == self@.workspace_dirs.keys@[i]@ && v@[i].cwd@
                            == self@.workspace_dirs.values@[i]@
                },
                None => !self@.daemon_running || self@.workspace_dirs.keys@.len() == 0 || !is_due(
                    self@.last_usage_refresh,
                    now,
                    USAGE_REFRESH_INTERVAL,
                ),
            },
    {
        proof {
            model_fields(*self);
        }
        if !self.daemon_running || self.workspace_dirs.is_empty() {
            return None;
        }
        if !due(self.last_usage_refresh, now, USAGE_REFRESH_INTERVAL) {
            return None;
        }
        let mut v: Vec<UsageBinding> = Vec::new();
        let mut i: usize = 0;
        while i < self.workspace_dirs.keys.len()
            invariant
                i <= self.workspace_dirs.keys@.len(),
                self.workspace_dirs.wf(),
                v@.len() == i,
                forall|j: int|
                    0 <= j < i ==> (#[trigger] v@[j]).workspace@ == self.workspace_dirs.keys@[j]@
                        && v@[j].cwd@ == self.workspace_dirs.values@[j]@,
            decreases self.workspace_dirs.keys@.len() - i,
        {
            v.push(
                UsageBinding {
                    workspace: self.workspace_dirs.keys[i].clone(),
                    cwd: self.workspace_dirs.values[i].clone(),
                },
            );
            i = i + 1;
        }
        Some(v)
    }

    /// Takes in the usage; where the daemon fails, what is known stays and the
    /// failure is said.
    pub fn take_usage(&mut self, answer: Result<Vec<WorkspaceTrend>, String>, now: u64)
        ensures
            match answer {
                Ok(v) => {
                    let trends = final(self)@.usage_trends;
                    &&& trends.wf()
                    &&& forall|k: Seq<char>| #[trigger] trends.lookup(k) == last_trend(v@, k)
                    &&& final(self)@ == without_notice_of(
                        AppModel {
                            usage_trends: trends,
                            last_usage_refresh: Some(now),
                            ..old(self)@
                        },
                        RefreshNoticeSource::Usage,
                    )
                },
                Err(e) => final(self)@ == (AppModel {
                    notice: Some(
                        SourceNotice {
                            source: RefreshNoticeSource::Usage,
                            text: "usage_trends: "@ + e@,
                        },
                    ),
                    ..old(self)@
                }),
            },
    {
        match answer {
            Ok(v) => {
                self.put_trends(trends_by_workspace(v), now);
                self.clear_refresh_notice(RefreshNoticeSource::Usage);
            },
            Err(e) => self.set_refresh_notice(
                RefreshNoticeSource::Usage,
                "usage_trends: ".to_owned().concat(e.as_str()),
            ),
        }
    }

    fn put_trends(&mut self, trends: TextMap<WorkspaceTrend>, now: u64)
        ensures
            final(self)@ == (AppModel {
                usage_trends: trends,
                last_usage_refresh: Some(now),
                ..old(self)@
            }),
    {
        proof {
            reveal(model_of);
        }
        self.usage_trends = trends;
        self.last_usage_refresh = Some(now);
    }

    /// The workspace whose terminal is captured at once: the mirrored one, else
    /// the selected one.
    pub fn capture_focus(&self) -> (r: Option<String>)
        ensures
            opt_text(r) == match self@.streamed_workspace {
                Some(w) => Some(w),
                None => workspace_selected(self@),
            },
    {
        proof {
            model_fields(*self);
        }
        match &self.streamed_workspace {
            Some(w) => Some(w.clone()),
            None => match self.selected_workspace() {
                Some(w) => Some(w.to_owned()),
                None => None,
            },
        }
    }

    /// Whether data is asked for now.
    pub fn refresh_due(&self, now: u64) -> (r: bool)
        ensures
            r == (self@.force_refresh || is_due(self@.last_refresh, now, REFRESH_INTERVAL)),
    {
        proof {
            model_fields(*self);
        }
        self.force_refresh || due(self.last_refresh, now, REFRESH_INTERVAL)
    }

    /// Notes that data was asked for.
    pub fn refreshed(&mut self, now: u64)
        ensures
            final(self)@ == (AppModel {
                last_refresh: Some(now),
                force_refresh: false,
                ..old(self)@
            }),
    {
        proof {
            reveal(model_of);
        }
        self.last_refresh = Some(now);
        self.force_refresh = false;
    }

    /// Says what came of an action on a task.
    pub fn finish_task_action(&mut self, result: Result<String, String>, now: u64)
        ensures
            final(self)@ == (AppModel {
                quick_notice: Some(
                    match result {
                        Ok(text) => notice(text@, false, now),
                        Err(e) => notice("task action failed: "@ + e@, true, now),
                    },
                ),
                ..old(self)@
            }),
    {
        match result {
            Ok(text) => self.put_notice(Some(Notice::new(text, false, now))),
            Err(e) => self.put_notice(
                Some(
                    Notice::new(
                        "task action failed: ".to_owned().concat(e.as_str()),
                        true,
                        now,
                    ),
                ),
            ),
        }
    }

    /// Says what came of a new task: its identifier, or why there is none.
    pub fn finish_task_create(&mut self, result: Result<String, String>, now: u64)
        ensures
            final(self)@ == after_task_created(
                old(self)@,
                match result {
                    Ok(id) => Ok(id@),
                    Err(e) => Err(e@),
                },
                now,
            ),
    {
        match result {
            Ok(id) => {
                self.cancel_create_task_form();
                let text = "created task ".to_owned().concat(short_task_id(id.as_str()).as_str());
                self.put_notice(Some(Notice::new(text, false, now)));
            },
            Err(e) => {
                let form = self.take_task_form();
                if let Some(mut form) = form {
                    form.error = Some(e);
                    form.submitting = false;
                    self.put_task_form(Some(form));
                }
            },
        }
    }

    /// Says what came of a message to the orchestrator; `problem` is why it was
    /// not sent.
    pub fn finish_orchestrator_message(&mut self, problem: Option<String>, now: u64)
        ensures
            final(self)@ == after_message_sent(old(self)@, opt_text(problem), now),
    {
        match problem {
            None => {
                self.cancel_orchestrator_message_form();
                let text = "message sent to orchestrator".to_owned();
                self.put_notice(Some(Notice::new(text, false, now)));
            },
            Some(e) => {
                let form = self.take_message_form();
                if let Some(mut form) = form {
                    form.error = Some(e);
                    form.submitting = false;
                    self.put_message_form(Some(form));
                }
            },
        }
    }
}

} // verus!
