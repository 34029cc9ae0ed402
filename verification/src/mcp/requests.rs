//! What the tools are called with.

use vstd::prelude::*;

use crate::keyed::TextMap;

verus! {

/// A value to be shared under a key.
#[derive(Debug, Clone)]
pub struct SetSharedValueRequest {
    pub key: String,
    pub value: String,
}

/// The key of a shared value.
#[derive(Debug, Clone)]
pub struct GetSharedValueRequest {
    pub key: String,
}

/// What the caller is doing.
#[derive(Debug, Clone)]
pub struct SetStatusRequest {
    pub status: String,
}

/// How many memories are recalled where the caller does not say.
#[verifier::allow_in_spec]
pub fn default_memory_limit() -> i64
    returns
        10i64,
{
    10
}

/// Something to be remembered.
#[derive(Debug, Clone)]
pub struct RememberMemoryRequest {
    pub content: String,
    /// `workspace` where it is not given.
    pub scope: Option<String>,
    pub kind: Option<String>,
    pub subject: Option<String>,
    pub tags: Vec<String>,
    /// Memories that this one takes the place of.
    pub supersedes_ids: Vec<String>,
}

/// Something to be remembered in place of earlier memories.
#[derive(Debug, Clone)]
pub struct SupersedeMemoryRequest {
    pub content: String,
    pub supersedes_ids: Vec<String>,
    pub scope: Option<String>,
    pub kind: Option<String>,
    pub subject: Option<String>,
    pub tags: Vec<String>,
}

/// Which memories are wanted.
#[derive(Debug, Clone)]
pub struct MemoryQueryRequest {
    /// Everyone's, the project's and the workspace's where none is given.
    pub scopes: Vec<String>,
    pub kind: Option<String>,
    pub tags: Vec<String>,
    pub include_superseded: bool,
    pub limit: i64,
}

/// A message to a workspace.
#[derive(Debug, Clone)]
pub struct SendMessageRequest {
    pub to: String,
    pub message: String,
}

/// Which messages are wanted.
#[derive(Debug, Clone)]
pub struct ReadMessagesRequest {
    /// Ten where it is not given.
    pub limit: Option<i64>,
    pub from: Option<String>,
}

/// A message to all other workspaces.
#[derive(Debug, Clone)]
pub struct BroadcastRequest {
    pub message: String,
}

/// A task to be recorded.
#[derive(Debug, Clone)]
pub struct CreateTaskRequest {
    pub title: String,
    pub description: Option<String>,
    pub assignee: String,
    pub parent_task_id: Option<String>,
    /// `default` or `fresh`.
    pub start_mode: Option<String>,
    /// `parallel` or `serial`.
    pub workflow_mode: Option<String>,
    /// `low`, `normal`, `high` or `urgent`.
    pub priority: Option<String>,
    pub stale_after_seconds: Option<i64>,
}

/// A task to be recorded and handed out.
#[derive(Debug, Clone)]
pub struct StartTaskRequest {
    pub title: String,
    pub message: String,
    pub description: Option<String>,
    pub assignee: String,
    pub parent_task_id: Option<String>,
    pub start_mode: Option<String>,
    pub workflow_mode: Option<String>,
    pub priority: Option<String>,
    pub stale_after_seconds: Option<i64>,
}

/// What has become of a task.
#[derive(Debug, Clone)]
pub struct UpdateTaskRequest {
    pub id: String,
    pub status: Option<String>,
    pub result: Option<String>,
    pub log: Option<String>,
    pub confirm: Option<bool>,
}

/// That a task is done, and what is left over.
#[derive(Debug, Clone)]
pub struct ReportTaskCompletionRequest {
    pub id: String,
    pub summary: String,
    pub dirty_files: Vec<String>,
    pub residual_scope: Option<String>,
}

/// That a task failed, and why.
#[derive(Debug, Clone)]
pub struct ReportTaskFailedRequest {
    pub id: String,
    pub reason: String,
}

/// That a task is blocked, why, and who could help.
#[derive(Debug, Clone)]
pub struct ReportTaskBlockedRequest {
    pub id: String,
    pub reason: String,
    pub needs_help_from: Option<String>,
}

/// How far a task has come.
#[derive(Debug, Clone)]
pub struct ReportTaskProgressRequest {
    pub id: String,
    pub note: String,
}

/// Which task is wanted.
#[derive(Debug, Clone)]
pub struct TaskIdRequest {
    pub id: String,
}

/// Which tasks are wanted.
#[derive(Debug, Clone)]
pub struct ListTasksRequest {
    pub assignee: Option<String>,
    pub created_by: Option<String>,
    pub status: Option<String>,
}

/// Which tasks of a workspace are wanted.
#[derive(Debug, Clone)]
pub struct ListWorkspaceTasksRequest {
    pub workspace: String,
    /// `assigned`, `created` or `both`.
    pub view: Option<String>,
    pub status: Option<String>,
}

/// A task that is to be cancelled or removed.
#[derive(Debug, Clone)]
pub struct ControlTaskRequest {
    pub id: String,
    pub reason: Option<String>,
    pub expected_version: Option<i64>,
}

/// How a stuck task is to be brought on.
#[derive(Debug, Clone)]
pub struct InterveneTaskRequest {
    pub id: String,
    /// `wake`, `interrupt` or `retry`.
    pub action: String,
    pub note: Option<String>,
    pub expected_version: Option<i64>,
}

/// Which agents are wanted.
#[derive(Debug, Clone)]
pub struct ListAgentsRequest {
    pub query: Option<String>,
    pub active_only: bool,
}

/// An agent that is to be started, stopped or restarted.
#[derive(Debug, Clone)]
pub struct AgentNameRequest {
    pub name: String,
}

/// An agent that is to be interrupted.
#[derive(Debug, Clone)]
pub struct InterruptAgentRequest {
    pub name: String,
}

/// Keys for the terminal of a workspace.
#[derive(Debug, Clone)]
pub struct SendKeysRequest {
    pub workspace: String,
    pub keys: Vec<String>,
}

/// An agent that is asked how it is doing.
#[derive(Debug, Clone)]
pub struct InspectAgentRequest {
    pub name: String,
    pub question: Option<String>,
    /// In seconds.
    pub timeout: Option<i64>,
}

/// A message to a workspace that is to be answered.
#[derive(Debug, Clone)]
pub struct RequestMessageRequest {
    pub to: String,
    pub message: String,
    /// In seconds.
    pub timeout: Option<i64>,
}

/// Which usage is wanted.
#[derive(Debug, Clone)]
pub struct UsageTrendsRequest {
    pub workspace: Option<String>,
    pub since_minutes: Option<i64>,
    pub bucket_minutes: Option<i64>,
}

/// The project that a team is to be planned for.
#[derive(Debug, Clone)]
pub struct PlanInitialTeamRequest {
    pub project_dir: Option<String>,
}

/// The project whose team is to be planned anew.
#[derive(Debug, Clone)]
pub struct PlanTeamReconfigureRequest {
    pub project_dir: Option<String>,
}

/// Changes to the team.
#[derive(Debug, Clone)]
pub struct TeamReconfigureRequest {
    pub expected_revision: Option<i64>,
    pub changes: Vec<TeamReconfigureChangeInput>,
    /// `artifacts_only` or `start_missing`.
    pub reconcile_mode: Option<String>,
}

/// One change to the team.
#[derive(Debug, Clone)]
pub struct TeamReconfigureChangeInput {
    /// `add`, `remove`, `enable` or `disable`.
    pub op: String,
    /// `workspace`, `child` or `root_orchestrator`.
    pub kind: String,
    pub name: Option<String>,
    pub workspace: Option<TeamWorkspaceSpecInput>,
    pub child: Option<TeamChildSpecInput>,
}

/// A workspace to be added.
#[derive(Debug, Clone)]
pub struct TeamWorkspaceSpecInput {
    pub dir: String,
    pub description: Option<String>,
    pub shell: Option<String>,
    pub runtime: Option<String>,
    pub codex_model_reasoning_effort: Option<String>,
    pub agent: Option<String>,
    pub instructions: Option<String>,
    pub env: Option<TextMap<String>>,
}

/// A project to be added below this one.
#[derive(Debug, Clone)]
pub struct TeamChildSpecInput {
    pub dir: String,
    pub prefix: Option<String>,
}

} // verus!
