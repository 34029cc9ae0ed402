//! The envelope around every request and response.

use vstd::prelude::*;

verus! {

/// The kinds of envelope.
#[derive(Debug, Clone, Copy, PartialEq, Eq, Structural)]
pub enum MessageType {
    Register,
    Unregister,
    SendMessage,
    Broadcast,
    ReadMessages,
    ListWorkspaces,
    SetStatus,
    RecordMcpToolActivity,
    ControlLifecycle,
    AgentLifecycle,
    SetShared,
    GetShared,
    ListShared,
    RememberMemory,
    RecallMemories,
    UsageTrends,
    CreateTask,
    StartTask,
    UpdateTask,
    GetTask,
    ListTasks,
    CancelTask,
    RemoveTask,
    InterveneTask,
    GetTeamState,
    DryRunTeam,
    ApplyTeam,
    FinishTeam,
    PushMessage,
    Response,
    Error,
}

impl MessageType {
    /// The name of the kind.
    #[verifier::allow_in_spec]
    pub fn name(self) -> &'static str
        returns
            (match self {
                MessageType::Register => "Register",
                MessageType::Unregister => "Unregister",
                MessageType::SendMessage => "SendMessage",
                MessageType::Broadcast => "Broadcast",
                MessageType::ReadMessages => "ReadMessages",
                MessageType::ListWorkspaces => "ListWorkspaces",
                MessageType::SetStatus => "SetStatus",
                MessageType::RecordMcpToolActivity => "RecordMcpToolActivity",
                MessageType::ControlLifecycle => "ControlLifecycle",
                MessageType::AgentLifecycle => "AgentLifecycle",
                MessageType::SetShared => "SetShared",
                MessageType::GetShared => "GetShared",
                MessageType::ListShared => "ListShared",
                MessageType::RememberMemory => "RememberMemory",
                MessageType::RecallMemories => "RecallMemories",
                MessageType::UsageTrends => "UsageTrends",
                MessageType::CreateTask => "CreateTask",
                MessageType::StartTask => "StartTask",
                MessageType::UpdateTask => "UpdateTask",
                MessageType::GetTask => "GetTask",
                MessageType::ListTasks => "ListTasks",
                MessageType::CancelTask => "CancelTask",
                MessageType::RemoveTask => "RemoveTask",
                MessageType::InterveneTask => "InterveneTask",
                MessageType::GetTeamState => "GetTeamState",
                MessageType::DryRunTeam => "DryRunTeam",
                MessageType::ApplyTeam => "ApplyTeam",
                MessageType::FinishTeam => "FinishTeam",
                MessageType::PushMessage => "PushMessage",
                MessageType::Response => "Response",
                MessageType::Error => "Error",
            }),
    {
        match self {
            MessageType::Register => "Register",
            MessageType::Unregister => "Unregister",
            MessageType::SendMessage => "SendMessage",
            MessageType::Broadcast => "Broadcast",
            MessageType::ReadMessages => "ReadMessages",
            MessageType::ListWorkspaces => "ListWorkspaces",
            MessageType::SetStatus => "SetStatus",
            MessageType::RecordMcpToolActivity => "RecordMcpToolActivity",
            MessageType::ControlLifecycle => "ControlLifecycle",
            MessageType::AgentLifecycle => "AgentLifecycle",
            MessageType::SetShared => "SetShared",
            MessageType::GetShared => "GetShared",
            MessageType::ListShared => "ListShared",
            MessageType::RememberMemory => "RememberMemory",
            MessageType::RecallMemories => "RecallMemories",
            MessageType::UsageTrends => "UsageTrends",
            MessageType::CreateTask => "CreateTask",
            MessageType::StartTask => "StartTask",
            MessageType::UpdateTask => "UpdateTask",
            MessageType::GetTask => "GetTask",
            MessageType::ListTasks => "ListTasks",
            MessageType::CancelTask => "CancelTask",
            MessageType::RemoveTask => "RemoveTask",
            MessageType::InterveneTask => "InterveneTask",
            MessageType::GetTeamState => "GetTeamState",
            MessageType::DryRunTeam => "DryRunTeam",
            MessageType::ApplyTeam => "ApplyTeam",
            MessageType::FinishTeam => "FinishTeam",
            MessageType::PushMessage => "PushMessage",
            MessageType::Response => "Response",
            MessageType::Error => "Error",
        }
    }
}

/// An error of the JSON reader.
#[verifier::external_type_specification]
#[verifier::external_body]
pub struct ExJsonError(serde_json::Error);

/// The JSON value that a text holds, without the white space around it, or
/// nothing where the text is not one JSON value.
pub uninterp spec fn json_value_text(text: Seq<char>) -> Option<Seq<char>>;

/// Checks that a text is one JSON value and gives the value's own text.
///
/// Calls `serde_json::value::RawValue::from_string`. Claimed: whether the text
/// is a JSON value, and the text of that value, depend on the text alone.
#[verifier::external_body]
fn check_json(text: String) -> (r: Result<String, serde_json::Error>)
    ensures
        match r {
            Ok(v) => json_value_text(text@) == Some(v@),
            Err(_) => json_value_text(text@) is None,
        },
{
    let raw = serde_json::value::RawValue::from_string(text)?;
    Ok(raw.get().to_owned())
}

/// A request, a response or a pushed message on its way through the socket.
///
/// The payload is kept as JSON text, so that an envelope can be routed without
/// reading it.
#[derive(Debug, Clone)]
pub struct Envelope {
    pub id: String,
    pub kind: MessageType,
    pub payload: String,
}

impl Envelope {
    /// An envelope around the JSON text `payload`.
    pub fn new(id: String, kind: MessageType, payload: String) -> (r: Result<Envelope, serde_json::Error>)
        ensures
            match r {
                Ok(e) => e.id == id && e.kind == kind && json_value_text(payload@) == Some(e.payload@),
                Err(_) => json_value_text(payload@) is None,
            },
    {
        match check_json(payload) {
            Ok(text) => Ok(Envelope { id, kind, payload: text }),
            Err(e) => Err(e),
        }
    }
}

/// What the daemon writes for a request that went well.
#[derive(Debug, Clone)]
pub struct ResponsePayload {
    pub success: bool,
    pub data: String,
}

/// What the daemon writes for a request that failed.
#[derive(Debug, Clone)]
pub struct ErrorPayload {
    pub message: String,
}

} // verus!
