//! The tools that send a message and wait for the reply.

use vstd::prelude::*;

use crate::keyed::TextMap;
use crate::mcp::agents::{find_registered, registered, AgentsConfig, ConfiguredAgent};
use crate::mcp::errors::{about, invalid, quoted, Refusal, ToolError};
use crate::mcp::requests::{InspectAgentRequest, RequestMessageRequest};
use crate::mcp::server::Server;
use crate::proto::payloads::{ReadMessagesPayload, SendMessagePayload};
use crate::proto::types::{Message, WorkspaceInfo};
use crate::text::{number, number_of, trim, trimmed};
use crate::time::calendar_text;

verus! {

broadcast use vstd::string::group_string_axioms;

/// What an agent is asked where no question is given.
pub const DEFAULT_INSPECT_QUESTION: &'static str =
    "현재 운영 상태를 간단히 요약해줘. 담당 역할, 최근 작업, 대기 중인 이슈, 핵심 지표나 리스크가 있으면 함께 알려줘. 포트폴리오 개발팀을 맡고 있다면 담당 서비스나 기능, 최근 변경사항, 남은 개발 과제, 배포 또는 운영 리스크를 짧게 포함해줘.";

/// How many messages are read at a time.
pub const REPLY_LIMIT: i64 = 10;

/// How long a waiting tool sleeps between two looks, in milliseconds.
pub const REPLY_PAUSE: u64 = 3000;

/// How many seconds a tool waits: two minutes where nothing is said, and a second
/// at least.
pub open spec fn patience(timeout: Option<i64>) -> i64 {
    let wanted: i64 = match timeout {
        Some(t) => t,
        None => 120,
    };
    if wanted < 1 {
        1
    } else {
        wanted
    }
}

/// How many seconds a tool waits.
pub fn reply_timeout(timeout: Option<i64>) -> (r: i64)
    ensures
        r == patience(timeout),
{
    let wanted: i64 = match timeout {
        Some(t) => t,
        None => 120,
    };
    if wanted < 1 {
        1
    } else {
        wanted
    }
}

/// A question with the request to answer it.
pub open spec fn question_to_answer(question: Seq<char>, caller: Seq<char>) -> Seq<char> {
    question + "\n\n[ax] 작업 완료 후 반드시 send_message(to=\""@ + caller
        + "\") 로 결과를 보내주세요."@
}

/// A message with the request to answer it.
pub open spec fn message_to_answer(message: Seq<char>, caller: Seq<char>) -> Seq<char> {
    message + "\n\n[ax/request] 이 메시지는 동기 요청입니다. `"@ + caller
        + "`가 당신의 응답을 기다리고 있습니다. 작업이 끝나면 즉시 `send_message(to=\""@ + caller
        + "\")`로 결과를 회신하세요. 하위 워크스페이스에 위임할 때는 `request`가 아닌 `send_message`를 병렬로 사용한 뒤 `read_messages`로 수집하세요."@
}

/// A message that is sent for the sake of its reply.
#[derive(Debug, Clone)]
pub struct Inquiry {
    pub message: SendMessagePayload,
    pub timeout: i64,
}

/// A message that is sent for the sake of its reply, as a value.
pub struct Asked {
    pub to: Seq<char>,
    pub message: Seq<char>,
    pub config_path: Seq<char>,
    pub timeout: i64,
}

impl View for Inquiry {
    type V = Asked;

    open spec fn view(&self) -> Asked {
        Asked {
            to: self.message.to@,
            message: self.message.message@,
            config_path: self.message.config_path@,
            timeout: self.timeout,
        }
    }
}

/// What comes of the wish to ask an agent how it is doing.
#[derive(Debug, Clone)]
pub enum Inspection {
    /// The agent is asked.
    Ask { inquiry: Inquiry, question: String, description: String },
    /// The agent cannot be asked.
    Absent(String),
}

/// What comes of the wish to ask an agent how it is doing, as a value.
pub enum Inspected {
    Ask { asked: Asked, question: Seq<char>, description: Seq<char> },
    Absent(Seq<char>),
}

impl View for Inspection {
    type V = Inspected;

    open spec fn view(&self) -> Inspected {
        match *self {
            Inspection::Ask { inquiry, question, description } => Inspected::Ask {
                asked: inquiry@,
                question: question@,
                description: description@,
            },
            Inspection::Absent(why) => Inspected::Absent(why@),
        }
    }
}

/// What comes of a wish, or why it is refused.
pub open spec fn inspection_view(r: Result<Inspection, ToolError>) -> Result<Inspected, Refusal> {
    match r {
        Ok(i) => Ok(i@),
        Err(e) => Err(e@),
    }
}

/// The question that is put to an agent.
pub open spec fn question_of(question: Option<String>) -> Seq<char> {
    match question {
        Some(q) => if trim(q@).len() > 0 {
            trim(q@)
        } else {
            DEFAULT_INSPECT_QUESTION@
        },
        None => DEFAULT_INSPECT_QUESTION@,
    }
}

/// What comes of the wish to ask an agent how it is doing: it has to be
/// configured, and it has to be registered.
pub open spec fn inspected(
    req: InspectAgentRequest,
    workspaces: TextMap<ConfiguredAgent>,
    config_path: Seq<char>,
    active: Seq<WorkspaceInfo>,
    caller: Seq<char>,
) -> Result<Inspected, Refusal> {
    match workspaces.lookup(req.name@) {
        None => Err(
            invalid("Agent "@ + quoted(req.name@) + " is not defined in "@ + config_path),
        ),
        Some(ws) => if registered(active, req.name@) is None {
            Ok(
                Inspected::Absent(
                    "Agent "@ + quoted(req.name@) + " is not currently registered"@,
                ),
            )
        } else {
            Ok(
                Inspected::Ask {
                    asked: Asked {
                        to: req.name@,
                        message: question_to_answer(question_of(req.question), caller),
                        config_path,
                        timeout: patience(req.timeout),
                    },
                    question: question_of(req.question),
                    description: ws.description@,
                },
            )
        },
    }
}

/// What is said when a message could not be sent.
pub fn send_failed(error: &str) -> (r: String)
    ensures
        r@ == "Failed to send message: "@ + error@,
{
    "Failed to send message: ".to_owned().concat(error)
}

/// What is said when the daemon held a question back.
pub fn inspection_suppressed(name: &str) -> (r: String)
    ensures
        r@ == "Inspection request to "@ + quoted(name@)
            + " was suppressed as a duplicate no-op/status update."@,
{
    about(
        "Inspection request to ",
        name,
        " was suppressed as a duplicate no-op/status update.",
    )
}

/// What is said when the daemon held a message back.
pub fn request_suppressed(to: &str) -> (r: String)
    ensures
        r@ == "Request to "@ + quoted(to@)
            + " was suppressed as a duplicate no-op/status update"@,
{
    about("Request to ", to, " was suppressed as a duplicate no-op/status update")
}

/// What is known of someone who did not reply in time.
pub open spec fn absence_hint(target: Option<WorkspaceInfo>) -> Seq<char> {
    match target {
        None => "; target is not currently registered"@,
        Some(ws) => match ws.last_activity_at {
            Some(ts) => "; target last active at "@ + calendar_text(
                ts.unix_secs(),
                ts.sub_nanos(),
                "%+"@,
            ),
            None => "; target has no recorded activity"@,
        },
    }
}

/// What is said when a message was not answered in time.
pub fn request_timed_out(timeout: &str, to: &str, active: &Vec<WorkspaceInfo>) -> (r: String)
    ensures
        r@ == timeout@ + absence_hint(registered(active@, to@)),
{
    let hint = match find_registered(active, to) {
        None => "; target is not currently registered".to_owned(),
        Some(ws) => match ws.last_activity_at {
            Some(ts) => "; target last active at ".to_owned().concat(ts.rfc3339().as_str()),
            None => "; target has no recorded activity".to_owned(),
        },
    };
    timeout.to_owned().concat(hint.as_str())
}

/// Whether a message went out: the daemon gives it an identifier then, and none
/// where it holds the message back.
pub fn went_out(message_id: &str) -> (r: bool)
    ensures
        r == (message_id@.len() > 0),
{
    !message_id.is_empty()
}

/// The contents of messages, a line end after each.
pub open spec fn contents(messages: Seq<Message>) -> Seq<char>
    decreases messages.len(),
{
    if messages.len() == 0 {
        Seq::empty()
    } else {
        contents(messages.drop_last()) + messages.last().content@ + "\n"@
    }
}

/// What a waiting tool does next.
#[derive(Debug, Clone)]
pub enum WaitStep {
    /// Looks for messages.
    Read(ReadMessagesPayload),
    /// Sleeps for so many milliseconds.
    Sleep(u64),
    /// Has its reply.
    Answered(String),
    /// Gives up because it is too late.
    GaveUp(String),
    /// Gives up because messages cannot be read.
    Failed(String),
}

/// What a waiting tool does next, as a value.
pub enum NextStep {
    Read { limit: i64, from: Seq<char> },
    Sleep(u64),
    Answered(Seq<char>),
    GaveUp(Seq<char>),
    Failed(Seq<char>),
}

impl View for WaitStep {
    type V = NextStep;

    open spec fn view(&self) -> NextStep {
        match *self {
            WaitStep::Read(p) => NextStep::Read { limit: p.limit, from: p.from@ },
            WaitStep::Sleep(ms) => NextStep::Sleep(ms),
            WaitStep::Answered(text) => NextStep::Answered(text@),
            WaitStep::GaveUp(why) => NextStep::GaveUp(why@),
            WaitStep::Failed(why) => NextStep::Failed(why@),
        }
    }
}

/// A tool that waits for a reply. Times are in milliseconds.
#[derive(Debug, Clone)]
pub struct ReplyWait {
    pub from: String,
    pub timeout: i64,
    pub deadline: u64,
}

/// When a tool that starts to wait gives up.
pub open spec fn gives_up_at(now: u64, timeout: i64) -> int {
    now + 1000 * (if timeout < 1 {
        1
    } else {
        timeout as int
    })
}

impl ReplyWait {
    /// Starts to wait.
    pub fn start(from: &str, timeout: i64, now: u64) -> (r: ReplyWait)
        requires
            gives_up_at(now, timeout) <= u64::MAX,
        ensures
            r.from@ == from@,
            r.timeout == timeout,
            r.deadline == gives_up_at(now, timeout),
    {
        let secs: u64 = if timeout < 1 {
            1
        } else {
            timeout as u64
        };
        ReplyWait { from: from.to_owned(), timeout, deadline: now + 1000 * secs }
    }

    /// What comes before each look: the deadline.
    pub open spec fn before_look(&self, now: u64) -> NextStep {
        if now >= self.deadline {
            NextStep::GaveUp(
                "Timeout: no reply from "@ + quoted(self.from@) + " within "@ + number(
                    self.timeout as int,
                ) + "s"@,
            )
        } else {
            NextStep::Read { limit: REPLY_LIMIT, from: self.from@ }
        }
    }

    /// Looks for a reply, unless it is too late.
    pub fn look(&self, now: u64) -> (r: WaitStep)
        ensures
            r@ == self.before_look(now),
    {
        if now >= self.deadline {
            WaitStep::GaveUp(
                about("Timeout: no reply from ", self.from.as_str(), " within ").concat(
                    number_of(self.timeout as i128).as_str(),
                ).concat("s"),
            )
        } else {
            WaitStep::Read(ReadMessagesPayload { limit: REPLY_LIMIT, from: self.from.clone() })
        }
    }

    /// What comes of a look: messages are the reply.
    pub open spec fn after_look(&self, messages: Seq<Message>) -> NextStep {
        if messages.len() == 0 {
            NextStep::Sleep(REPLY_PAUSE)
        } else {
            NextStep::Answered(trim(contents(messages)))
        }
    }

    /// Takes what was found.
    pub fn found(&self, messages: &Vec<Message>) -> (r: WaitStep)
        ensures
            r@ == self.after_look(messages@),
    {
        if messages.len() == 0 {
            return WaitStep::Sleep(REPLY_PAUSE);
        }
        let mut out = String::new();
        let mut i: usize = 0;
        while i < messages.len()
            invariant
                i <= messages@.len(),
                out@ == contents(messages@.take(i as int)),
            decreases messages@.len() - i,
        {
            proof {
                assert(messages@.take(i + 1).drop_last() =~= messages@.take(i as int));
            }
            out.append(messages[i].content.as_str());
            out.append("\n");
            i = i + 1;
        }
        proof {
            assert(messages@.take(messages@.len() as int) =~= messages@);
        }
        WaitStep::Answered(trimmed(out.as_str()))
    }

    /// Gives up because the messages could not be read.
    pub fn unreadable(&self, error: &str) -> (r: WaitStep)
        ensures
            r@ == NextStep::Failed("read_messages: "@ + error@),
    {
        WaitStep::Failed("read_messages: ".to_owned().concat(error))
    }
}

/// Whoever waits looks at least once, however short the patience.
pub proof fn waiting_starts_with_a_look(wait: ReplyWait, now: u64, timeout: i64)
    requires
        wait.deadline == gives_up_at(now, timeout),
    ensures
        wait.before_look(now) == (NextStep::Read { limit: REPLY_LIMIT, from: wait.from@ }),
{
}

/// Once it is too late it stays too late.
pub proof fn late_stays_late(wait: ReplyWait, now: u64, later: u64)
    requires
        now <= later,
    ensures
        wait.before_look(now) is GaveUp ==> wait.before_look(later) == wait.before_look(now),
{
}

impl Server {
    /// Asks an agent how it is doing.
    pub fn inspect_agent(
        &self,
        req: &InspectAgentRequest,
        cfg: &AgentsConfig,
        config_path: &str,
        active: &Vec<WorkspaceInfo>,
    ) -> (r: Result<Inspection, ToolError>)
        requires
            cfg.workspaces.wf(),
        ensures
            inspection_view(r) == inspected(
                *req,
                cfg.workspaces,
                config_path@,
                active@,
                self.daemon.workspace@,
            ),
    {
        let name = req.name.as_str();
        let ws = match cfg.workspaces.get(name) {
            Some(ws) => ws,
            None => {
                return Err(
                    ToolError::invalid_params(
                        about("Agent ", name, " is not defined in ").concat(config_path),
                    ),
                );
            },
        };
        if find_registered(active, name).is_none() {
            return Ok(Inspection::Absent(about("Agent ", name, " is not currently registered")));
        }
        let mut question = DEFAULT_INSPECT_QUESTION.to_owned();
        if let Some(q) = &req.question {
            let text = trimmed(q.as_str());
            if !text.as_str().is_empty() {
                question = text;
            }
        }
        let message = question.clone().concat(
            "\n\n[ax] 작업 완료 후 반드시 send_message(to=\"",
        ).concat(self.daemon.workspace.as_str()).concat("\") 로 결과를 보내주세요.");
        Ok(
            Inspection::Ask {
                inquiry: Inquiry {
                    message: SendMessagePayload {
                        to: req.name.clone(),
                        message,
                        config_path: config_path.to_owned(),
                    },
                    timeout: reply_timeout(req.timeout),
                },
                question,
                description: ws.description.clone(),
            },
        )
    }

    /// Sends a message and waits for the reply.
    pub fn request_message(&self, req: &RequestMessageRequest, config_path: &str) -> (r: Inquiry)
        ensures
            r@ == (Asked {
                to: req.to@,
                message: message_to_answer(req.message@, self.daemon.workspace@),
                config_path: config_path@,
                timeout: patience(req.timeout),
            }),
    {
        let caller = self.daemon.workspace.as_str();
        let message = req.message.clone().concat(
            "\n\n[ax/request] 이 메시지는 동기 요청입니다. `",
        ).concat(caller).concat(
            "`가 당신의 응답을 기다리고 있습니다. 작업이 끝나면 즉시 `send_message(to=\"",
        ).concat(caller).concat(
            "\")`로 결과를 회신하세요. 하위 워크스페이스에 위임할 때는 `request`가 아닌 `send_message`를 병렬로 사용한 뒤 `read_messages`로 수집하세요.",
        );
        Inquiry {
            message: SendMessagePayload {
                to: req.to.clone(),
                message,
                config_path: config_path.to_owned(),
            },
            timeout: reply_timeout(req.timeout),
        }
    }
}

} // verus!
