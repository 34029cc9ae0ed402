//! What responses carry.

use vstd::prelude::*;

use crate::keyed::TextMap;
use crate::proto::types::{
    LifecycleAction, LifecycleTarget, Memory, Message, Task, TeamApplyTicket, TeamReconfigurePlan,
    TeamReconfigureState, WorkspaceInfo,
};
use crate::proto::usage::WorkspaceTrend;

verus! {

/// A bare status word.
#[derive(Debug, Clone, Default)]
pub struct StatusResponse {
    pub status: String,
}

/// How a message went out. The identifier is empty when a duplicate was held back.
#[derive(Debug, Clone, Default)]
pub struct SendMessageResponse {
    pub message_id: String,
    pub status: String,
}

/// Who got a broadcast.
#[derive(Debug, Clone, Default)]
pub struct BroadcastResponse {
    pub recipients: Vec<String>,
    pub count: i64,
}

/// The messages read.
#[derive(Debug, Clone, Default)]
pub struct ReadMessagesResponse {
    pub messages: Vec<Message>,
}

/// The registered workspaces.
#[derive(Debug, Clone, Default)]
pub struct ListWorkspacesResponse {
    pub workspaces: Vec<WorkspaceInfo>,
}

/// What became of a controlled session.
#[derive(Debug, Clone)]
pub struct ControlLifecycleResponse {
    pub target: LifecycleTarget,
    pub action: LifecycleAction,
    pub running: bool,
}

/// What became of an agent's session.
#[derive(Debug, Clone)]
pub struct AgentLifecycleResponse {
    pub name: String,
    pub action: String,
    pub target_kind: String,
    pub managed_session: bool,
    pub exact_match: bool,
    pub status: String,
    pub session_exists_before: bool,
    pub session_exists_after: bool,
}

/// A shared value.
#[derive(Debug, Clone, Default)]
pub struct GetSharedResponse {
    pub key: String,
    pub value: String,
    pub found: bool,
}

/// All shared values.
#[derive(Debug, Clone, Default)]
pub struct ListSharedResponse {
    pub values: TextMap<String>,
}

/// The remembered fact.
#[derive(Debug, Clone)]
pub struct MemoryResponse {
    pub memory: Memory,
}

/// The recalled facts.
#[derive(Debug, Clone, Default)]
pub struct RecallMemoriesResponse {
    pub memories: Vec<Memory>,
}

/// Token usage per workspace.
#[derive(Debug, Clone, Default)]
pub struct UsageTrendsResponse {
    pub trends: Vec<WorkspaceTrend>,
}

/// The task concerned.
#[derive(Debug, Clone)]
pub struct TaskResponse {
    pub task: Task,
}

/// How a task was handed out.
#[derive(Debug, Clone, Default)]
pub struct TaskDispatch {
    pub message_id: String,
    pub status: String,
}

/// A new task and how it was handed out.
#[derive(Debug, Clone)]
pub struct StartTaskResponse {
    pub task: Task,
    pub dispatch: TaskDispatch,
}

/// The tasks listed.
#[derive(Debug, Clone, Default)]
pub struct ListTasksResponse {
    pub tasks: Vec<Task>,
}

/// What an intervention did.
#[derive(Debug, Clone)]
pub struct InterveneTaskResponse {
    pub task: Task,
    pub action: String,
    pub status: String,
    pub message_id: String,
}

/// The state of a team.
#[derive(Debug, Clone)]
pub struct TeamStateResponse {
    pub state: TeamReconfigureState,
}

/// A planned team change.
#[derive(Debug, Clone)]
pub struct TeamPlanResponse {
    pub plan: TeamReconfigurePlan,
}

/// The right to apply a team change.
#[derive(Debug, Clone)]
pub struct TeamApplyResponse {
    pub ticket: TeamApplyTicket,
}

} // verus!
