//! The tools: shared values, status, memories and messages.

use vstd::prelude::*;

use crate::mcp::client::DaemonClient;
use crate::mcp::errors::{about, internal, invalid, or_empty, quoted, text_or_empty, Refusal, ToolError};
use crate::mcp::memory_scope::{
    problem_text, resolve, resolve_many, resolved, resolved_all, FoundConfig,
};
use crate::mcp::requests::{
    BroadcastRequest, GetSharedValueRequest, MemoryQueryRequest, ReadMessagesRequest,
    RememberMemoryRequest, SendMessageRequest, SetSharedValueRequest, SetStatusRequest,
    SupersedeMemoryRequest,
};
use crate::mcp::telemetry::{TelemetryEvent, TelemetrySink};
use crate::proto::payloads::{
    BroadcastPayload, GetSharedPayload, ReadMessagesPayload, RecallMemoriesPayload,
    RememberMemoryPayload, SendMessagePayload, SetSharedPayload, SetStatusPayload,
};
use crate::proto::types::Message;
use crate::text::{count_of, decimal, join, join_all, texts};
use crate::time::{clock_text, Timestamp};

verus! {

broadcast use vstd::string::group_string_axioms;

/// The tools of a workspace.
#[derive(Debug, Clone)]
pub struct Server {
    pub daemon: DaemonClient,
    pub config_path: Option<String>,
    pub telemetry: Option<TelemetrySink>,
}

/// What an agent is told of its tools.
pub open spec fn server_instructions(workspace: Seq<char>) -> Seq<char> {
    "You are the "@ + quoted(workspace)
        + " workspace agent in an ax multi-agent environment. Use these tools to coordinate with other workspace agents. Call list_agents to inspect configured agents from the active ax config, call list_workspaces to see who is currently active, and read_messages periodically to check for incoming messages from other agents."@
}

/// The scope of a memory: that of the workspace where none is given.
pub open spec fn wanted_scope(scope: Option<String>) -> Seq<char> {
    match scope {
        Some(s) => s@,
        None => "workspace"@,
    }
}

/// What the daemon is asked to remember.
pub struct Remembered {
    pub scope: Seq<char>,
    pub kind: Seq<char>,
    pub subject: Seq<char>,
    pub content: Seq<char>,
    pub tags: Seq<Seq<char>>,
    pub supersedes: Seq<Seq<char>>,
}

/// What the daemon is asked to remember.
pub open spec fn remembered(p: RememberMemoryPayload) -> Remembered {
    Remembered {
        scope: p.scope@,
        kind: p.kind@,
        subject: p.subject@,
        content: p.content@,
        tags: texts(p.tags@),
        supersedes: texts(p.supersedes@),
    }
}

/// What the daemon is asked to remember, or why it is not asked.
pub open spec fn remembered_view(r: Result<RememberMemoryPayload, ToolError>) -> Result<
    Remembered,
    Refusal,
> {
    match r {
        Ok(p) => Ok(remembered(p)),
        Err(e) => Err(e@),
    }
}

/// What is to be remembered in a scope, or what is wrong with the scope.
pub open spec fn memory_wanted(
    workspace: Seq<char>,
    config: FoundConfig,
    scope: Option<String>,
    wanted: Remembered,
) -> Result<Remembered, Refusal> {
    match resolved(wanted_scope(scope), workspace, config) {
        Ok(s) => Ok(Remembered { scope: s, ..wanted }),
        Err(p) => Err(invalid(problem_text(p))),
    }
}

/// Which memories the daemon is asked for.
pub struct Recalled {
    pub scopes: Seq<Seq<char>>,
    pub kind: Seq<char>,
    pub tags: Seq<Seq<char>>,
    pub include_superseded: bool,
    pub limit: i64,
}

/// Which memories the daemon is asked for, or why it is not asked.
pub open spec fn recalled_view(r: Result<RecallMemoriesPayload, ToolError>) -> Result<
    Recalled,
    Refusal,
> {
    match r {
        Ok(p) => Ok(
            Recalled {
                scopes: texts(p.scopes@),
                kind: p.kind@,
                tags: texts(p.tags@),
                include_superseded: p.include_superseded,
                limit: p.limit,
            },
        ),
        Err(e) => Err(e@),
    }
}

/// Which memories a query asks for, or what is wrong with it.
pub open spec fn memories_wanted(
    workspace: Seq<char>,
    config: FoundConfig,
    req: MemoryQueryRequest,
) -> Result<Recalled, Refusal> {
    match resolved_all(texts(req.scopes@), workspace, config) {
        Ok(scopes) => Ok(
            Recalled {
                scopes,
                kind: or_empty(req.kind),
                tags: texts(req.tags@),
                include_superseded: req.include_superseded,
                limit: req.limit,
            },
        ),
        Err(p) => Err(invalid(problem_text(p))),
    }
}

impl Server {
    /// The tools of the workspace that a connection belongs to.
    pub fn new(daemon: DaemonClient) -> (r: Server)
        ensures
            r == (Server { daemon, config_path: None, telemetry: None }),
    {
        Server { daemon, config_path: None, telemetry: None }
    }

    /// Records calls in a file.
    pub fn with_telemetry(self, sink: TelemetrySink) -> (r: Server)
        ensures
            r == (Server { telemetry: Some(sink), ..self }),
    {
        let mut r = self;
        r.telemetry = Some(sink);
        r
    }

    /// Says which configuration the workspace works with.
    pub fn with_config_path(self, path: String) -> (r: Server)
        ensures
            r == (Server { config_path: Some(path), ..self }),
    {
        let mut r = self;
        r.config_path = Some(path);
        r
    }

    /// The connection to the daemon.
    pub fn daemon(&self) -> (r: &DaemonClient)
        ensures
            *r == self.daemon,
    {
        &self.daemon
    }

    /// The configuration that the workspace works with.
    pub fn config_path(&self) -> (r: Option<&str>)
        ensures
            match r {
                Some(p) => self.config_path matches Some(q) && p@ == q@,
                None => self.config_path is None,
            },
    {
        match &self.config_path {
            Some(p) => Some(p.as_str()),
            None => None,
        }
    }

    /// The configuration as it is passed on to the daemon.
    pub open spec fn dispatch_path(&self) -> Seq<char> {
        or_empty(self.config_path)
    }

    /// The configuration as it is passed on to the daemon.
    fn effective_config(&self) -> (r: String)
        ensures
            r@ == self.dispatch_path(),
    {
        match &self.config_path {
            Some(p) => p.clone(),
            None => String::new(),
        }
    }

    /// The configuration that tools start from: the one that was given, else the
    /// one that was found.
    pub open spec fn base_config(&self, found: Option<Seq<char>>) -> Result<Seq<char>, Refusal> {
        match self.config_path {
            Some(p) => Ok(p@),
            None => match found {
                Some(p) => Ok(p),
                None => Err(internal("ax config file not found"@)),
            },
        }
    }

    /// The configuration that tools start from.
    pub fn resolve_base_config_path(&self, found: Option<&str>) -> (r: Result<String, ToolError>)
        ensures
            text_view(r) == self.base_config(
                match found {
                    Some(p) => Some(p@),
                    None => None,
                },
            ),
    {
        match &self.config_path {
            Some(p) => Ok(p.clone()),
            None => match found {
                Some(p) => Ok(p.to_owned()),
                None => Err(ToolError::internal_error("ax config file not found".to_owned())),
            },
        }
    }

    /// What an agent is told of its tools.
    pub fn instructions(&self) -> (r: String)
        ensures
            r@ == server_instructions(self.daemon.workspace@),
    {
        about(
            "You are the ",
            self.daemon.workspace.as_str(),
            " workspace agent in an ax multi-agent environment. Use these tools to coordinate with other workspace agents. Call list_agents to inspect configured agents from the active ax config, call list_workspaces to see who is currently active, and read_messages periodically to check for incoming messages from other agents.",
        )
    }

    /// What the file is told of a call, where calls are recorded.
    pub fn record_tool_call(
        &self,
        ts: Timestamp,
        tool: &str,
        ok: bool,
        duration_ms: u64,
        err_kind: &str,
    ) -> (r: Option<TelemetryEvent>)
        ensures
            (r is Some) == (self.telemetry is Some),
            r matches Some(e) ==> {
                &&& e.ts == ts
                &&& e.workspace@ == self.daemon.workspace@
                &&& e.tool@ == tool@
                &&& e.ok == ok
                &&& e.duration_ms == duration_ms
                &&& e.err_kind@ == err_kind@
            },
    {
        if self.telemetry.is_none() {
            return None;
        }
        Some(
            TelemetryEvent {
                ts,
                workspace: self.daemon.workspace.clone(),
                tool: tool.to_owned(),
                ok,
                duration_ms,
                err_kind: err_kind.to_owned(),
            },
        )
    }

    /// Shares a value under a key.
    pub fn set_shared_value(&self, req: SetSharedValueRequest) -> (r: SetSharedPayload)
        ensures
            r.key == req.key,
            r.value == req.value,
    {
        SetSharedPayload { key: req.key, value: req.value }
    }

    /// Looks a shared value up.
    pub fn get_shared_value(&self, req: GetSharedValueRequest) -> (r: GetSharedPayload)
        ensures
            r.key == req.key,
    {
        GetSharedPayload { key: req.key }
    }

    /// Says what the workspace is doing.
    pub fn set_status(&self, req: SetStatusRequest) -> (r: SetStatusPayload)
        ensures
            r.status == req.status,
    {
        SetStatusPayload { status: req.status }
    }

    /// Remembers something.
    pub fn remember_memory(&self, req: RememberMemoryRequest, config: &FoundConfig) -> (r: Result<
        RememberMemoryPayload,
        ToolError,
    >)
        ensures
            remembered_view(r) == memory_wanted(
                self.daemon.workspace@,
                *config,
                req.scope,
                Remembered {
                    scope: Seq::empty(),
                    kind: or_empty(req.kind),
                    subject: or_empty(req.subject),
                    content: req.content@,
                    tags: texts(req.tags@),
                    supersedes: texts(req.supersedes_ids@),
                },
            ),
    {
        let scope = match &req.scope {
            Some(s) => resolve(s.as_str(), self.daemon.workspace.as_str(), config),
            None => resolve("workspace", self.daemon.workspace.as_str(), config),
        };
        match scope {
            Err(e) => Err(ToolError::invalid_params(e.text())),
            Ok(scope) => Ok(
                RememberMemoryPayload {
                    scope,
                    kind: text_or_empty(req.kind),
                    subject: text_or_empty(req.subject),
                    content: req.content,
                    tags: req.tags,
                    supersedes: req.supersedes_ids,
                },
            ),
        }
    }

    /// Remembers something in place of earlier memories, of which there has to be
    /// one.
    pub fn supersede_memory(&self, req: SupersedeMemoryRequest, config: &FoundConfig) -> (r: Result<
        RememberMemoryPayload,
        ToolError,
    >)
        ensures
            remembered_view(r) == if req.supersedes_ids@.len() == 0 {
                Err(invalid("supersedes_ids must contain at least one memory ID"@))
            } else {
                memory_wanted(
                    self.daemon.workspace@,
                    *config,
                    req.scope,
                    Remembered {
                        scope: Seq::empty(),
                        kind: or_empty(req.kind),
                        subject: or_empty(req.subject),
                        content: req.content@,
                        tags: texts(req.tags@),
                        supersedes: texts(req.supersedes_ids@),
                    },
                )
            },
    {
        if req.supersedes_ids.len() == 0 {
            return Err(
                ToolError::invalid_params_str("supersedes_ids must contain at least one memory ID"),
            );
        }
        self.remember_memory(
            RememberMemoryRequest {
                content: req.content,
                scope: req.scope,
                kind: req.kind,
                subject: req.subject,
                tags: req.tags,
                supersedes_ids: req.supersedes_ids,
            },
            config,
        )
    }

    /// Asks for memories.
    fn memory_query(&self, req: MemoryQueryRequest, config: &FoundConfig) -> (r: Result<
        RecallMemoriesPayload,
        ToolError,
    >)
        ensures
            recalled_view(r) == memories_wanted(self.daemon.workspace@, *config, req),
    {
        match resolve_many(&req.scopes, self.daemon.workspace.as_str(), config) {
            Err(e) => Err(ToolError::invalid_params(e.text())),
            Ok(scopes) => Ok(
                RecallMemoriesPayload {
                    scopes,
                    kind: text_or_empty(req.kind),
                    tags: req.tags,
                    include_superseded: req.include_superseded,
                    limit: req.limit,
                },
            ),
        }
    }

    /// Recalls memories.
    pub fn recall_memories(&self, req: MemoryQueryRequest, config: &FoundConfig) -> (r: Result<
        RecallMemoriesPayload,
        ToolError,
    >)
        ensures
            recalled_view(r) == memories_wanted(self.daemon.workspace@, *config, req),
    {
        self.memory_query(req, config)
    }

    /// Lists memories.
    pub fn list_memories(&self, req: MemoryQueryRequest, config: &FoundConfig) -> (r: Result<
        RecallMemoriesPayload,
        ToolError,
    >)
        ensures
            recalled_view(r) == memories_wanted(self.daemon.workspace@, *config, req),
    {
        self.memory_query(req, config)
    }

    /// Sends a message to a workspace.
    pub fn send_message(&self, req: &SendMessageRequest) -> (r: SendMessagePayload)
        ensures
            r.to@ == req.to@,
            r.message@ == req.message@,
            r.config_path@ == self.dispatch_path(),
    {
        SendMessagePayload {
            to: req.to.clone(),
            message: req.message.clone(),
            config_path: self.effective_config(),
        }
    }

    /// Sends a message to all other workspaces.
    pub fn broadcast_message(&self, req: BroadcastRequest) -> (r: BroadcastPayload)
        ensures
            r.message == req.message,
            r.config_path@ == self.dispatch_path(),
    {
        BroadcastPayload { message: req.message, config_path: self.effective_config() }
    }

    /// Reads the messages to the workspace, ten where no number is given.
    pub fn read_messages(&self, req: ReadMessagesRequest) -> (r: ReadMessagesPayload)
        ensures
            r.limit == match req.limit {
                Some(n) => n,
                None => 10,
            },
            r.from@ == or_empty(req.from),
    {
        ReadMessagesPayload {
            limit: match req.limit {
                Some(n) => n,
                None => 10,
            },
            from: text_or_empty(req.from),
        }
    }
}

/// A text, or why there is none.
pub open spec fn text_view(r: Result<String, ToolError>) -> Result<Seq<char>, Refusal> {
    match r {
        Ok(s) => Ok(s@),
        Err(e) => Err(e@),
    }
}

/// What is said of a message that was sent.
pub fn message_sent(to: &str, message_id: &str) -> (r: String)
    ensures
        r@ == "Message sent to "@ + quoted(to@) + " (id: "@ + message_id@ + ")"@,
{
    about("Message sent to ", to, " (id: ").concat(message_id).concat(")")
}

/// What is said of a message to all.
pub open spec fn broadcast_text(recipients: Seq<Seq<char>>) -> Seq<char> {
    if recipients.len() == 0 {
        "No other workspaces to broadcast to."@
    } else {
        "Broadcast sent to "@ + decimal(recipients.len()) + " workspace(s): "@ + join(
            recipients,
            ", "@,
        )
    }
}

/// What is said of a message to all.
pub fn broadcast_sent(recipients: &Vec<String>) -> (r: String)
    ensures
        r@ == broadcast_text(texts(recipients@)),
{
    if recipients.len() == 0 {
        return "No other workspaces to broadcast to.".to_owned();
    }
    "Broadcast sent to ".to_owned().concat(count_of(recipients.len()).as_str()).concat(
        " workspace(s): ",
    ).concat(join_all(recipients, ", ").as_str())
}

/// One message as it is read out.
pub open spec fn message_read(m: Message) -> Seq<char> {
    "From: "@ + m.from@ + "\nTime: "@ + clock_text(m.created_at.unix_secs() as int) + "\n"@
        + m.content@ + "\n\n---\n\n"@
}

/// Messages as they are read out, one after the other.
pub open spec fn each_message_read(messages: Seq<Message>) -> Seq<char>
    decreases messages.len(),
{
    if messages.len() == 0 {
        Seq::empty()
    } else {
        each_message_read(messages.drop_last()) + message_read(messages.last())
    }
}

/// Messages as they are read out.
pub open spec fn messages_read(messages: Seq<Message>) -> Seq<char> {
    if messages.len() == 0 {
        "No pending messages."@
    } else {
        decimal(messages.len()) + " message(s):\n\n"@ + each_message_read(messages)
    }
}

/// Messages as they are read out.
pub fn read_out_messages(messages: &Vec<Message>) -> (r: String)
    ensures
        r@ == messages_read(messages@),
{
    if messages.len() == 0 {
        return "No pending messages.".to_owned();
    }
    let mut said = String::new();
    let mut i: usize = 0;
    while i < messages.len()
        invariant
            i <= messages@.len(),
            said@ == each_message_read(messages@.take(i as int)),
        decreases messages@.len() - i,
    {
        let m = &messages[i];
        let one = "From: ".to_owned().concat(m.from.as_str()).concat("\nTime: ").concat(
            m.created_at.clock().as_str(),
        ).concat("\n").concat(m.content.as_str()).concat("\n\n---\n\n");
        proof {
            assert(messages@.take(i + 1).drop_last() =~= messages@.take(i as int));
        }
        said.append(one.as_str());
        i = i + 1;
    }
    proof {
        assert(messages@.take(messages@.len() as int) =~= messages@);
    }
    count_of(messages.len()).concat(" message(s):\n\n").concat(said.as_str())
}

} // verus!
