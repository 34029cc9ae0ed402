//! The entities that requests and responses speak of.

use vstd::prelude::*;

use crate::keyed::TextMap;
use crate::time::Timestamp;

verus! {

/// The configuration key of the experimental team reconfiguration tools.
pub const EXPERIMENTAL_MCP_TEAM_RECONFIGURE_FLAG_KEY: &'static str = "experimental_mcp_team_reconfigure";

/// Whether an agent is connected.
#[derive(Debug, Clone, Copy, PartialEq, Eq, Structural)]
pub enum AgentStatus {
    Online,
    Offline,
    Disconnected,
}

/// A registered workspace.
#[derive(Debug, Clone)]
pub struct WorkspaceInfo {
    pub name: String,
    pub dir: String,
    pub description: String,
    pub status: AgentStatus,
    pub status_text: String,
    pub git_status: Option<WorkspaceGitStatus>,
    pub connected_at: Option<Timestamp>,
    pub last_activity_at: Option<Timestamp>,
    pub active_task_count: i64,
    pub current_task_id: Option<String>,
}

/// The state of the repository that a workspace lies in.
#[derive(Debug, Clone, Default)]
pub struct WorkspaceGitStatus {
    pub state: String,
    pub modified: i64,
    pub added: i64,
    pub deleted: i64,
    pub untracked: i64,
    pub files_changed: i64,
    pub insertions: i64,
    pub deletions: i64,
    pub message: String,
}

/// How a tool call ended.
#[derive(Debug, Clone, Copy, PartialEq, Eq, Structural)]
pub enum McpToolActivityStatus {
    Succeeded,
    Failed,
}

impl Default for McpToolActivityStatus {
    fn default() -> (r: Self)
        ensures
            r == McpToolActivityStatus::Succeeded,
    {
        McpToolActivityStatus::Succeeded
    }
}

/// One row of the message history that the daemon keeps.
#[derive(Debug, Clone)]
pub struct HistoryEntry {
    pub timestamp: Timestamp,
    pub from: String,
    pub to: String,
    pub content: String,
    pub task_id: String,
}

/// A message between workspaces.
#[derive(Debug, Clone)]
pub struct Message {
    pub id: String,
    pub from: String,
    pub to: String,
    pub content: String,
    pub task_id: String,
    pub created_at: Timestamp,
}

/// What is asked of a session.
#[derive(Debug, Clone, Copy, PartialEq, Eq, Structural)]
pub enum LifecycleAction {
    Start,
    Stop,
    Restart,
}

/// What kind of session is asked.
#[derive(Debug, Clone, Copy, PartialEq, Eq, Structural)]
pub enum LifecycleTargetKind {
    Workspace,
    Orchestrator,
}

/// The session that is asked.
#[derive(Debug, Clone)]
pub struct LifecycleTarget {
    pub name: String,
    pub kind: LifecycleTargetKind,
    pub managed_session: bool,
}

/// What a team change is about.
#[derive(Debug, Clone, Copy, PartialEq, Eq, Structural)]
pub enum TeamEntryKind {
    Workspace,
    Child,
    RootOrchestrator,
}

/// What a team change does.
#[derive(Debug, Clone, Copy, PartialEq, Eq, Structural)]
pub enum TeamChangeOp {
    Add,
    Remove,
    Enable,
    Disable,
}

/// How far a reconciliation goes.
#[derive(Debug, Clone, Copy, PartialEq, Eq, Structural)]
pub enum TeamReconcileMode {
    ArtifactsOnly,
    StartMissing,
}

/// A workspace that a team change adds.
#[derive(Debug, Clone)]
pub struct TeamWorkspaceSpec {
    pub dir: String,
    pub description: String,
    pub shell: String,
    pub runtime: String,
    pub codex_model_reasoning_effort: String,
    pub agent: String,
    pub instructions: String,
    pub env: TextMap<String>,
}

/// A child project that a team change adds.
#[derive(Debug, Clone)]
pub struct TeamChildSpec {
    pub dir: String,
    pub prefix: String,
}

/// One change of a team.
#[derive(Debug, Clone)]
pub struct TeamReconfigureChange {
    pub op: TeamChangeOp,
    pub kind: TeamEntryKind,
    pub name: String,
    pub workspace: Option<TeamWorkspaceSpec>,
    pub child: Option<TeamChildSpec>,
}

/// The changes that lie over a team's base configuration.
#[derive(Debug, Clone, Default)]
pub struct TeamOverlay {
    pub disable_root_orchestrator: Option<bool>,
    pub added_workspaces: TextMap<TeamWorkspaceSpec>,
    pub removed_workspaces: TextMap<bool>,
    pub disabled_workspaces: TextMap<bool>,
    pub added_children: TextMap<TeamChildSpec>,
    pub removed_children: TextMap<bool>,
    pub disabled_children: TextMap<bool>,
}

/// What a team's configuration asks for.
#[derive(Debug, Clone)]
pub struct TeamConfiguredState {
    pub root_orchestrator_enabled: bool,
    pub workspaces: Vec<String>,
    pub children: Vec<String>,
    pub orchestrators: Vec<String>,
}

/// One step of a reconciliation.
#[derive(Debug, Clone)]
pub struct TeamReconfigureAction {
    pub action: String,
    pub kind: TeamEntryKind,
    pub name: String,
    pub dir: String,
    pub detail: String,
}

/// How an applied plan went.
#[derive(Debug, Clone)]
pub struct TeamApplyReport {
    pub started_at: Timestamp,
    pub finished_at: Option<Timestamp>,
    pub success: bool,
    pub error: String,
    pub reconcile_mode: Option<TeamReconcileMode>,
    pub actions: Vec<TeamReconfigureAction>,
}

/// The state of a team.
#[derive(Debug, Clone)]
pub struct TeamReconfigureState {
    pub team_id: String,
    pub base_config_path: String,
    pub effective_config_path: String,
    pub feature_enabled: bool,
    pub revision: i64,
    pub overlay: TeamOverlay,
    pub desired: TeamConfiguredState,
    pub last_apply: Option<TeamApplyReport>,
}

/// A planned set of changes.
#[derive(Debug, Clone)]
pub struct TeamReconfigurePlan {
    pub state: TeamReconfigureState,
    pub expected_revision: i64,
    pub changes: Vec<TeamReconfigureChange>,
    pub actions: Vec<TeamReconfigureAction>,
    pub warnings: Vec<String>,
}

/// The right to apply a plan.
#[derive(Debug, Clone)]
pub struct TeamApplyTicket {
    pub token: String,
    pub plan: TeamReconfigurePlan,
    pub reconcile_mode: TeamReconcileMode,
}

/// Where a task stands.
#[derive(Debug, Clone, Copy, PartialEq, Eq, Structural)]
pub enum TaskStatus {
    Pending,
    InProgress,
    Blocked,
    Completed,
    Failed,
    Cancelled,
}

/// Whether a task starts with a fresh context.
#[derive(Debug, Clone, Copy, PartialEq, Eq, Structural)]
pub enum TaskStartMode {
    Default,
    Fresh,
}

/// How the children of a task follow each other.
#[derive(Debug, Clone, Copy, PartialEq, Eq, Structural)]
pub enum TaskWorkflowMode {
    Parallel,
    Serial,
}

/// How urgent a task is.
#[derive(Debug, Clone, Copy, PartialEq, Eq, Structural)]
pub enum TaskPriority {
    Low,
    Normal,
    High,
    Urgent,
}

/// Where a task stands among its siblings.
#[derive(Debug, Clone, Copy, PartialEq, Eq, Structural)]
pub enum TaskSequenceState {
    WaitingTurn,
    Ready,
    Released,
    NotApplicable,
}

/// A unit of work that one workspace gave to another.
#[derive(Debug, Clone)]
pub struct Task {
    pub id: String,
    pub title: String,
    pub description: String,
    pub assignee: String,
    pub created_by: String,
    pub parent_task_id: String,
    pub child_task_ids: Vec<String>,
    pub version: i64,
    pub status: TaskStatus,
    pub start_mode: TaskStartMode,
    pub workflow_mode: Option<TaskWorkflowMode>,
    pub priority: Option<TaskPriority>,
    pub stale_after_seconds: i64,
    pub dispatch_message: String,
    pub dispatch_config_path: String,
    pub dispatch_count: i64,
    pub attempt_count: i64,
    pub last_dispatch_at: Option<Timestamp>,
    pub last_attempt_at: Option<Timestamp>,
    pub next_retry_at: Option<Timestamp>,
    pub claimed_at: Option<Timestamp>,
    pub claimed_by: String,
    pub claim_source: String,
    pub result: String,
    pub logs: Vec<TaskLog>,
    pub rollup: Option<TaskRollup>,
    pub sequence: Option<TaskSequenceInfo>,
    pub stale_info: Option<TaskStaleInfo>,
    pub removed_at: Option<Timestamp>,
    pub removed_by: String,
    pub remove_reason: String,
    pub created_at: Timestamp,
    pub updated_at: Timestamp,
}

/// One line of a task's log.
#[derive(Debug, Clone)]
pub struct TaskLog {
    pub timestamp: Timestamp,
    pub workspace: String,
    pub message: String,
}

/// Counts over the children of a task.
#[derive(Debug, Clone)]
pub struct TaskRollup {
    pub total_children: i64,
    pub pending_children: i64,
    pub in_progress_children: i64,
    pub blocked_children: i64,
    pub completed_children: i64,
    pub failed_children: i64,
    pub cancelled_children: i64,
    pub terminal_children: i64,
    pub active_children: i64,
    pub last_child_update_at: Option<Timestamp>,
    pub all_children_terminal: bool,
    pub needs_parent_reconciliation: bool,
    pub summary: String,
}

/// The place of a task among its siblings.
#[derive(Debug, Clone)]
pub struct TaskSequenceInfo {
    pub mode: Option<TaskWorkflowMode>,
    pub state: Option<TaskSequenceState>,
    pub position: i64,
    pub waiting_on_task_id: String,
}

/// What the daemon knows of a task without progress.
#[derive(Debug, Clone)]
pub struct TaskStaleInfo {
    pub is_stale: bool,
    pub reason: String,
    pub recommended_action: String,
    pub last_progress_at: Timestamp,
    pub age_seconds: i64,
    pub pending_messages: i64,
    pub last_message_at: Option<Timestamp>,
    pub wake_pending: bool,
    pub wake_attempts: i64,
    pub next_wake_retry_at: Option<Timestamp>,
    pub claim_state: String,
    pub claim_state_note: String,
    pub runnable: bool,
    pub runnable_reason: String,
    pub recovery_eligible: bool,
    pub state_divergence: bool,
    pub state_divergence_note: String,
}

/// A remembered fact.
#[derive(Debug, Clone)]
pub struct Memory {
    pub id: String,
    pub scope: String,
    pub kind: String,
    pub subject: String,
    pub content: String,
    pub tags: Vec<String>,
    pub created_by: String,
    pub supersedes: Vec<String>,
    pub superseded_by: String,
    pub superseded_at: Option<Timestamp>,
    pub created_at: Timestamp,
    pub updated_at: Timestamp,
}

/// An overlay that changes nothing.
pub open spec fn overlay_is_empty(o: TeamOverlay) -> bool {
    &&& o.disable_root_orchestrator is None
    &&& o.added_workspaces.keys@.len() == 0
    &&& o.removed_workspaces.keys@.len() == 0
    &&& o.disabled_workspaces.keys@.len() == 0
    &&& o.added_children.keys@.len() == 0
    &&& o.removed_children.keys@.len() == 0
    &&& o.disabled_children.keys@.len() == 0
}

/// Whether an overlay changes nothing, so that it need not be written out.
pub fn team_overlay_is_empty(o: &TeamOverlay) -> (r: bool)
    ensures
        r == overlay_is_empty(*o),
{
    o.disable_root_orchestrator.is_none() && o.added_workspaces.is_empty()
        && o.removed_workspaces.is_empty() && o.disabled_workspaces.is_empty()
        && o.added_children.is_empty() && o.removed_children.is_empty()
        && o.disabled_children.is_empty()
}

} // verus!
