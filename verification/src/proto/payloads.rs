//! What requests carry.

use vstd::prelude::*;

use crate::proto::types::{
    LifecycleAction, McpToolActivityStatus, TaskStatus, TeamReconcileMode, TeamReconfigureAction,
    TeamReconfigureChange,
};

verus! {

/// Registers a workspace.
#[derive(Debug, Clone, Default)]
pub struct RegisterPayload {
    pub workspace: String,
    pub dir: String,
    pub description: String,
    pub config_path: String,
    pub idle_timeout_seconds: i64,
}

/// Sends a message to one workspace.
#[derive(Debug, Clone, Default)]
pub struct SendMessagePayload {
    pub to: String,
    pub message: String,
    pub config_path: String,
}

/// Sends a message to every workspace.
#[derive(Debug, Clone, Default)]
pub struct BroadcastPayload {
    pub message: String,
    pub config_path: String,
}

/// Reads pending messages.
#[derive(Debug, Clone, Default)]
pub struct ReadMessagesPayload {
    pub limit: i64,
    pub from: String,
}

/// Sets the status text of the caller.
#[derive(Debug, Clone, Default)]
pub struct SetStatusPayload {
    pub status: String,
}

/// Records one tool call.
#[derive(Debug, Clone, Default)]
pub struct RecordMcpToolActivityPayload {
    pub tool: String,
    pub task_id: String,
    pub status: McpToolActivityStatus,
    pub error_kind: String,
    pub duration_ms: i64,
}

/// Controls a session by its configuration.
#[derive(Debug, Clone)]
pub struct ControlLifecyclePayload {
    pub config_path: String,
    pub name: String,
    pub action: LifecycleAction,
}

/// Controls the session of an agent.
#[derive(Debug, Clone)]
pub struct AgentLifecyclePayload {
    pub config_path: String,
    pub name: String,
    pub action: LifecycleAction,
}

/// Sets a shared value.
#[derive(Debug, Clone, Default)]
pub struct SetSharedPayload {
    pub key: String,
    pub value: String,
}

/// Reads a shared value.
#[derive(Debug, Clone, Default)]
pub struct GetSharedPayload {
    pub key: String,
}

/// Remembers a fact.
#[derive(Debug, Clone, Default)]
pub struct RememberMemoryPayload {
    pub scope: String,
    pub kind: String,
    pub subject: String,
    pub content: String,
    pub tags: Vec<String>,
    pub supersedes: Vec<String>,
}

/// Recalls facts.
#[derive(Debug, Clone, Default)]
pub struct RecallMemoriesPayload {
    pub scopes: Vec<String>,
    pub kind: String,
    pub tags: Vec<String>,
    pub include_superseded: bool,
    pub limit: i64,
}

/// A workspace and the directory of its transcripts.
#[derive(Debug, Clone, Default)]
pub struct UsageTrendWorkspace {
    pub workspace: String,
    pub cwd: String,
}

/// Asks for token usage.
#[derive(Debug, Clone, Default)]
pub struct UsageTrendsPayload {
    pub workspaces: Vec<UsageTrendWorkspace>,
    pub since_minutes: i64,
    pub bucket_minutes: i64,
}

/// Creates a task.
#[derive(Debug, Clone, Default)]
pub struct CreateTaskPayload {
    pub title: String,
    pub description: String,
    pub assignee: String,
    pub parent_task_id: String,
    pub start_mode: String,
    pub workflow_mode: String,
    pub priority: String,
    pub stale_after_seconds: i64,
}

/// Creates a task and hands it out.
#[derive(Debug, Clone, Default)]
pub struct StartTaskPayload {
    pub title: String,
    pub description: String,
    pub message: String,
    pub assignee: String,
    pub parent_task_id: String,
    pub start_mode: String,
    pub workflow_mode: String,
    pub priority: String,
    pub stale_after_seconds: i64,
}

/// Changes a task.
#[derive(Debug, Clone, Default)]
pub struct UpdateTaskPayload {
    pub id: String,
    pub status: Option<TaskStatus>,
    pub result: Option<String>,
    pub log: Option<String>,
    pub confirm: Option<bool>,
}

/// Reads a task.
#[derive(Debug, Clone, Default)]
pub struct GetTaskPayload {
    pub id: String,
}

/// Lists tasks.
#[derive(Debug, Clone, Default)]
pub struct ListTasksPayload {
    pub assignee: String,
    pub created_by: String,
    pub status: Option<TaskStatus>,
}

/// Cancels a task.
#[derive(Debug, Clone, Default)]
pub struct CancelTaskPayload {
    pub id: String,
    pub reason: String,
    pub expected_version: Option<i64>,
}

/// Removes a task.
#[derive(Debug, Clone, Default)]
pub struct RemoveTaskPayload {
    pub id: String,
    pub reason: String,
    pub expected_version: Option<i64>,
}

/// Intervenes in a task.
#[derive(Debug, Clone, Default)]
pub struct InterveneTaskPayload {
    pub id: String,
    pub action: String,
    pub note: String,
    pub expected_version: Option<i64>,
}

/// Reads the state of a team.
#[derive(Debug, Clone, Default)]
pub struct GetTeamStatePayload {
    pub config_path: String,
}

/// Plans or applies a team change.
#[derive(Debug, Clone, Default)]
pub struct TeamReconfigurePayload {
    pub config_path: String,
    pub expected_revision: Option<i64>,
    pub changes: Vec<TeamReconfigureChange>,
    pub reconcile_mode: Option<TeamReconcileMode>,
}

/// Reports how a team change went.
#[derive(Debug, Clone, Default)]
pub struct FinishTeamReconfigurePayload {
    pub token: String,
    pub success: bool,
    pub error: String,
    pub actions: Vec<TeamReconfigureAction>,
}

} // verus!
