//! What is recorded of each tool that was called: which it was, how it went and
//! how long it took, but never what it was called with.

use vstd::prelude::*;

use crate::proto::payloads::RecordMcpToolActivityPayload;
use crate::proto::types::McpToolActivityStatus;
use crate::text::{
    chars_of, join, join_all, number, number_of, one_line, string_of, texts, to_one_line, trim,
    trimmed,
};
use crate::time::Timestamp;

verus! {

broadcast use vstd::string::group_string_axioms;

/// One call of a tool.
#[derive(Debug, Clone)]
pub struct TelemetryEvent {
    pub ts: Timestamp,
    pub workspace: String,
    pub tool: String,
    pub ok: bool,
    pub duration_ms: u64,
    /// What went wrong; empty where nothing did.
    pub err_kind: String,
}

/// The file that calls are recorded in.
#[derive(Debug, Clone)]
pub struct TelemetrySink {
    path: String,
}

impl TelemetrySink {
    /// Where the file lies.
    pub closed spec fn place(&self) -> Seq<char> {
        self.path@
    }

    /// Records go into the file at `path`.
    pub fn new(path: String) -> (r: TelemetrySink)
        ensures
            r.place() == path@,
    {
        TelemetrySink { path }
    }

    /// Where the file lies.
    pub fn path(&self) -> (r: &str)
        ensures
            r@ == self.place(),
    {
        self.path.as_str()
    }
}

/// The codes by which a call is refused.
#[derive(Debug, Clone, Copy, PartialEq, Eq, Structural)]
pub enum McpErrorCode {
    ResourceNotFound,
    InvalidRequest,
    MethodNotFound,
    InvalidParams,
    InternalError,
    ParseError,
    UrlElicitationRequired,
    Other(i32),
}

/// The name of a code.
pub open spec fn code_name(code: McpErrorCode) -> Seq<char> {
    match code {
        McpErrorCode::ResourceNotFound => "RESOURCE_NOT_FOUND"@,
        McpErrorCode::InvalidRequest => "INVALID_REQUEST"@,
        McpErrorCode::MethodNotFound => "METHOD_NOT_FOUND"@,
        McpErrorCode::InvalidParams => "INVALID_PARAMS"@,
        McpErrorCode::InternalError => "INTERNAL_ERROR"@,
        McpErrorCode::ParseError => "PARSE_ERROR"@,
        McpErrorCode::UrlElicitationRequired => "URL_ELICITATION_REQUIRED"@,
        McpErrorCode::Other(n) => "ERROR_CODE_"@ + number(n as int),
    }
}

/// The name of a code.
pub fn mcp_error_kind(code: McpErrorCode) -> (r: String)
    ensures
        r@ == code_name(code),
{
    match code {
        McpErrorCode::ResourceNotFound => "RESOURCE_NOT_FOUND".to_owned(),
        McpErrorCode::InvalidRequest => "INVALID_REQUEST".to_owned(),
        McpErrorCode::MethodNotFound => "METHOD_NOT_FOUND".to_owned(),
        McpErrorCode::InvalidParams => "INVALID_PARAMS".to_owned(),
        McpErrorCode::InternalError => "INTERNAL_ERROR".to_owned(),
        McpErrorCode::ParseError => "PARSE_ERROR".to_owned(),
        McpErrorCode::UrlElicitationRequired => "URL_ELICITATION_REQUIRED".to_owned(),
        McpErrorCode::Other(n) => "ERROR_CODE_".to_owned().concat(number_of(n as i128).as_str()),
    }
}

/// How many characters of a field are passed on.
pub const MCP_ACTIVITY_FIELD_LIMIT: usize = 240;

/// A field on one line and not too long.
pub open spec fn activity_field(raw: Seq<char>) -> Seq<char> {
    let line = one_line(trim(raw));
    if line.len() <= 240 {
        line
    } else {
        line.take(240) + "..."@
    }
}

/// A field on one line and not too long.
pub fn sanitize_mcp_activity_field(raw: &str) -> (r: String)
    ensures
        r@ == activity_field(raw@),
{
    let line = to_one_line(trimmed(raw).as_str());
    let v = chars_of(line.as_str());
    if v.len() <= MCP_ACTIVITY_FIELD_LIMIT {
        return line;
    }
    let start = string_of(&v, 0, MCP_ACTIVITY_FIELD_LIMIT);
    proof {
        assert(start@ =~= line@.take(240));
    }
    start.concat("...")
}

/// What a tool came to.
#[derive(Debug, Clone)]
pub enum ToolOutcome {
    /// It did what it was asked.
    Done,
    /// It ran and says that it could not do what it was asked, in these texts.
    Failed(Vec<String>),
    /// It was not run.
    Refused { code: McpErrorCode, message: String },
}

/// What a tool that failed says.
pub open spec fn failure_text(said: Seq<Seq<char>>) -> Seq<char> {
    let text = join(said, "\n"@);
    if trim(text).len() == 0 {
        "tool returned isError=true"@
    } else {
        text
    }
}

/// What a tool that failed says.
pub fn call_tool_result_error_text(said: &Vec<String>) -> (r: String)
    ensures
        r@ == failure_text(texts(said@)),
{
    let text = join_all(said, "\n");
    if trimmed(text.as_str()).as_str().is_empty() {
        "tool returned isError=true".to_owned()
    } else {
        text
    }
}

/// What is recorded of an outcome: whether it went well, what the file says of
/// what went wrong, and what the daemon is told of it.
pub struct Recorded {
    pub ok: bool,
    pub told_file: Seq<char>,
    pub told_daemon: Seq<char>,
}

/// What is recorded of an outcome. The daemon only learns of which kind an error
/// was.
pub open spec fn recorded(outcome: ToolOutcome) -> Recorded {
    match outcome {
        ToolOutcome::Done => Recorded {
            ok: true,
            told_file: Seq::empty(),
            told_daemon: Seq::empty(),
        },
        ToolOutcome::Failed(said) => Recorded {
            ok: false,
            told_file: failure_text(texts(said@)),
            told_daemon: "TOOL_ERROR"@,
        },
        ToolOutcome::Refused { code, message } => Recorded {
            ok: false,
            told_file: message@,
            told_daemon: code_name(code),
        },
    }
}

/// What is recorded of an outcome.
pub fn call_tool(outcome: &ToolOutcome) -> (r: (bool, String, String))
    ensures
        r.0 == recorded(*outcome).ok,
        r.1@ == recorded(*outcome).told_file,
        r.2@ == recorded(*outcome).told_daemon,
{
    match outcome {
        ToolOutcome::Done => (true, String::new(), String::new()),
        ToolOutcome::Failed(said) => (
            false,
            call_tool_result_error_text(said),
            "TOOL_ERROR".to_owned(),
        ),
        ToolOutcome::Refused { code, message } => (false, message.clone(), mcp_error_kind(*code)),
    }
}

/// What the daemon is told of a call.
pub fn activity_payload(tool: &str, ok: bool, duration_ms: u64, err_kind: &str) -> (r:
    RecordMcpToolActivityPayload)
    ensures
        r.tool@ == activity_field(tool@),
        r.task_id@.len() == 0,
        r.status == if ok {
            McpToolActivityStatus::Succeeded
        } else {
            McpToolActivityStatus::Failed
        },
        r.error_kind@ == if ok { Seq::empty() } else { activity_field(err_kind@) },
        r.duration_ms == if duration_ms <= i64::MAX { duration_ms as int } else { i64::MAX as int },
{
    RecordMcpToolActivityPayload {
        tool: sanitize_mcp_activity_field(tool),
        task_id: String::new(),
        status: if ok {
            McpToolActivityStatus::Succeeded
        } else {
            McpToolActivityStatus::Failed
        },
        error_kind: if ok {
            String::new()
        } else {
            sanitize_mcp_activity_field(err_kind)
        },
        duration_ms: if duration_ms <= i64::MAX as u64 {
            duration_ms as i64
        } else {
            i64::MAX
        },
    }
}

/// What is passed on of a field is never long, and always on one line.
pub proof fn activity_field_is_short(raw: Seq<char>)
    ensures
        activity_field(raw).len() <= 243,
        forall|i: int|
            0 <= i < activity_field(raw).len() ==> #[trigger] activity_field(raw)[i] != '\n'
                && activity_field(raw)[i] != '\r',
{
    reveal_strlit("...");
}

} // verus!
