//! What the watcher asks of the daemon, one question at a time.

use vstd::prelude::*;

use crate::proto::envelope::MessageType;
use crate::proto::payloads::{
    CancelTaskPayload, CreateTaskPayload, InterveneTaskPayload, RegisterPayload,
    SendMessagePayload, UsageTrendWorkspace, UsageTrendsPayload,
};
use crate::text::{decimal, decimal_of, same};

verus! {

broadcast use vstd::string::group_string_axioms;

/// How long an answer is waited for, in milliseconds.
pub const REQUEST_TIMEOUT: u64 = 5000;

/// The name under which the watcher registers.
pub const WATCHER: &'static str = "_watch";

/// Why the daemon gave no answer.
#[derive(Debug, Clone)]
pub enum DaemonClientError {
    Connect { path: String, source: String },
    Io(String),
    Encode(String),
    Decode(String),
    Daemon(String),
    Closed,
}

/// Why the daemon gave no answer, in words.
pub open spec fn why(e: DaemonClientError) -> Seq<char> {
    match e {
        DaemonClientError::Connect { path, source } => "connect "@ + path@ + ": "@ + source@,
        DaemonClientError::Io(text) => "io: "@ + text@,
        DaemonClientError::Encode(text) => "encode envelope: "@ + text@,
        DaemonClientError::Decode(text) => "decode response: "@ + text@,
        DaemonClientError::Daemon(text) => "daemon error: "@ + text@,
        DaemonClientError::Closed => "connection closed before response arrived"@,
    }
}

impl DaemonClientError {
    /// Why the daemon gave no answer, in words.
    pub fn text(&self) -> (r: String)
        ensures
            r@ == why(*self),
    {
        match self {
            DaemonClientError::Connect { path, source } => "connect ".to_owned().concat(
                path.as_str(),
            ).concat(": ").concat(source.as_str()),
            DaemonClientError::Io(text) => "io: ".to_owned().concat(text.as_str()),
            DaemonClientError::Encode(text) => "encode envelope: ".to_owned().concat(
                text.as_str(),
            ),
            DaemonClientError::Decode(text) => "decode response: ".to_owned().concat(
                text.as_str(),
            ),
            DaemonClientError::Daemon(text) => "daemon error: ".to_owned().concat(text.as_str()),
            DaemonClientError::Closed => "connection closed before response arrived".to_owned(),
        }
    }
}

/// What to do with an envelope that came in.
#[derive(Debug, Clone)]
pub enum Reply {
    /// It answers something else.
    Skip,
    /// It holds the answer.
    Data,
    /// It holds the reason why there is no answer.
    Failure,
    /// It is no answer.
    Unexpected(DaemonClientError),
}

/// Who asks the daemon: the number of the next question.
#[derive(Debug, Clone)]
pub struct Client {
    pub next_id: u64,
}

/// The identifier of a question.
pub open spec fn question_id(n: u64) -> Seq<char> {
    "watch-"@ + decimal(n as nat)
}

impl Client {
    /// Someone who has not asked anything yet.
    pub fn new() -> (r: Client)
        ensures
            r.next_id == 1,
    {
        Client { next_id: 1 }
    }

    /// The identifier of the next question; each is used once.
    pub fn next_request(&mut self) -> (r: String)
        requires
            old(self).next_id < u64::MAX,
        ensures
            r@ == question_id(old(self).next_id),
            final(self).next_id == old(self).next_id + 1,
    {
        let id = "watch-".to_owned().concat(decimal_of(self.next_id as u128).as_str());
        self.next_id = self.next_id + 1;
        id
    }

    /// Says what to do with an envelope that came in while `id` is waited for.
    pub fn sort_reply(id: &str, envelope_id: &str, kind: MessageType) -> (r: Reply)
        ensures
            envelope_id@ != id@ ==> r is Skip,
            envelope_id@ == id@ ==> match kind {
                MessageType::Response => r is Data,
                MessageType::Error => r is Failure,
                _ => r matches Reply::Unexpected(e) && why(e)
                    == "daemon error: "@ + ("unexpected envelope "@ + kind.name()@),
            },
    {
        if !same(envelope_id, id) {
            return Reply::Skip;
        }
        match kind {
            MessageType::Response => Reply::Data,
            MessageType::Error => Reply::Failure,
            _ => Reply::Unexpected(
                DaemonClientError::Daemon(
                    "unexpected envelope ".to_owned().concat(kind.name()),
                ),
            ),
        }
    }

    /// Registers with the daemon.
    pub fn register(workspace: &str, dir: &str) -> (r: RegisterPayload)
        ensures
            r.workspace@ == workspace@,
            r.dir@ == dir@,
            r.description@.len() == 0,
            r.config_path@.len() == 0,
            r.idle_timeout_seconds == 0,
    {
        RegisterPayload {
            workspace: workspace.to_owned(),
            dir: dir.to_owned(),
            description: String::new(),
            config_path: String::new(),
            idle_timeout_seconds: 0,
        }
    }

    /// Asks for the token usage of workspaces, each with its directory.
    pub fn usage_trends(
        bindings: &Vec<(String, String)>,
        since_minutes: i64,
        bucket_minutes: i64,
    ) -> (r: UsageTrendsPayload)
        ensures
            r.workspaces@.len() == bindings@.len(),
            forall|i: int|
                0 <= i < bindings@.len() ==> (#[trigger] r.workspaces@[i]).workspace@
                    == bindings@[i].0@ && r.workspaces@[i].cwd@ == bindings@[i].1@,
            r.since_minutes == since_minutes,
            r.bucket_minutes == bucket_minutes,
    {
        let mut workspaces: Vec<UsageTrendWorkspace> = Vec::new();
        let mut i: usize = 0;
        while i < bindings.len()
            invariant
                i <= bindings@.len(),
                workspaces@.len() == i,
                forall|j: int|
                    0 <= j < i ==> (#[trigger] workspaces@[j]).workspace@ == bindings@[j].0@
                        && workspaces@[j].cwd@ == bindings@[j].1@,
            decreases bindings@.len() - i,
        {
            workspaces.push(
                UsageTrendWorkspace {
                    workspace: bindings[i].0.clone(),
                    cwd: bindings[i].1.clone(),
                },
            );
            i = i + 1;
        }
        UsageTrendsPayload { workspaces, since_minutes, bucket_minutes }
    }

    /// Cancels a task.
    pub fn cancel_task(id: &str, reason: &str, expected_version: Option<i64>) -> (r:
        CancelTaskPayload)
        ensures
            r.id@ == id@,
            r.reason@ == reason@,
            r.expected_version == expected_version,
    {
        CancelTaskPayload { id: id.to_owned(), reason: reason.to_owned(), expected_version }
    }

    /// Records a task, with everything else left to the daemon.
    pub fn create_task(title: &str, description: &str, assignee: &str) -> (r: CreateTaskPayload)
        ensures
            r.title@ == title@,
            r.description@ == description@,
            r.assignee@ == assignee@,
            r.parent_task_id@.len() == 0,
            r.start_mode@.len() == 0,
            r.workflow_mode@.len() == 0,
            r.priority@.len() == 0,
            r.stale_after_seconds == 0,
    {
        CreateTaskPayload {
            title: title.to_owned(),
            description: description.to_owned(),
            assignee: assignee.to_owned(),
            parent_task_id: String::new(),
            start_mode: String::new(),
            workflow_mode: String::new(),
            priority: String::new(),
            stale_after_seconds: 0,
        }
    }

    /// Sends a message.
    pub fn send_message(to: &str, message: &str, config_path: Option<&str>) -> (r:
        SendMessagePayload)
        ensures
            r.to@ == to@,
            r.message@ == message@,
            r.config_path@ == match config_path {
                Some(path) => path@,
                None => Seq::empty(),
            },
    {
        SendMessagePayload {
            to: to.to_owned(),
            message: message.to_owned(),
            config_path: match config_path {
                Some(path) => path.to_owned(),
                None => String::new(),
            },
        }
    }

    /// Brings a stuck task on.
    pub fn intervene_task(id: &str, action: &str, note: &str, expected_version: Option<i64>) -> (r:
        InterveneTaskPayload)
        ensures
            r.id@ == id@,
            r.action@ == action@,
            r.note@ == note@,
            r.expected_version == expected_version,
    {
        InterveneTaskPayload {
            id: id.to_owned(),
            action: action.to_owned(),
            note: note.to_owned(),
            expected_version,
        }
    }
}

} // verus!
