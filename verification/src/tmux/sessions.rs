//! How tmux sessions are named.

use vstd::prelude::*;

use crate::text::{quote, quoted, replace, replace_char};

verus! {

broadcast use {vstd::seq_lib::group_seq_properties, vstd::string::group_string_axioms};

/// What the name of every session begins with.
pub const SESSION_PREFIX: &'static str = "ax-";

/// A tmux session that belongs to a workspace.
#[derive(Debug, Clone)]
pub struct SessionInfo {
    pub name: String,
    pub workspace: String,
    pub attached: bool,
    pub windows: usize,
}

/// What can go wrong with tmux.
#[derive(Debug, Clone)]
pub enum TmuxError {
    Command { op: String, message: String },
    SessionNotFound { workspace: String },
    Parse(String),
    Io(String),
}

/// What went wrong with tmux, in words.
pub open spec fn tmux_problem(e: TmuxError) -> Seq<char> {
    match e {
        TmuxError::Command { op, message } => "tmux "@ + op@ + ": "@ + message@,
        TmuxError::SessionNotFound { workspace } => "tmux session for workspace "@ + quoted(
            workspace@,
        ) + " not found"@,
        TmuxError::Parse(text) => "parse tmux output: "@ + text@,
        TmuxError::Io(text) => "tmux exec: "@ + text@,
    }
}

impl TmuxError {
    /// What went wrong with tmux, in words.
    pub fn text(&self) -> (r: String)
        ensures
            r@ == tmux_problem(*self),
    {
        match self {
            TmuxError::Command { op, message } => "tmux ".to_owned().concat(op.as_str()).concat(
                ": ",
            ).concat(message.as_str()),
            TmuxError::SessionNotFound { workspace } => "tmux session for workspace ".to_owned().concat(
                quote(workspace.as_str()).as_str(),
            ).concat(" not found"),
            TmuxError::Parse(text) => "parse tmux output: ".to_owned().concat(text.as_str()),
            TmuxError::Io(text) => "tmux exec: ".to_owned().concat(text.as_str()),
        }
    }
}

/// A workspace name as part of a session name: dots become underscores.
pub open spec fn encoded(workspace: Seq<char>) -> Seq<char> {
    replace(workspace, |c: char| c == '.', '_')
}

/// Underscores become dots.
pub open spec fn decoded(name: Seq<char>) -> Seq<char> {
    replace(name, |c: char| c == '_', '.')
}

/// The name of the tmux session of `workspace`.
pub fn session_name(workspace: &str) -> (r: String)
    ensures
        r@ == SESSION_PREFIX@ + encoded(workspace@),
{
    SESSION_PREFIX.to_owned().concat(encode_workspace_name(workspace).as_str())
}

/// Replaces `.` by `_`, so that the name of a session is one token for tmux.
pub fn encode_workspace_name(workspace: &str) -> (r: String)
    ensures
        r@ == encoded(workspace@),
{
    replace_char(workspace, '.', '_')
}

/// Replaces `_` by `.`.
pub fn decode_workspace_name(name: &str) -> (r: String)
    ensures
        r@ == decoded(name@),
{
    replace_char(name, '_', '.')
}

/// What tmux is asked for to bring a session to the terminal: within tmux the
/// client changes over to it.
#[verifier::allow_in_spec]
pub fn attach_op(inside_tmux: bool) -> &'static str
    returns
        (if inside_tmux {
            "switch-client"
        } else {
            "attach-session"
        }),
{
    if inside_tmux {
        "switch-client"
    } else {
        "attach-session"
    }
}

/// What came of it, from how tmux ended.
pub fn attach_outcome(inside_tmux: bool, success: bool, status: &str) -> (r: Result<(), TmuxError>)
    ensures
        if success {
            r is Ok
        } else {
            r matches Err(TmuxError::Command { op, message }) && op@ == attach_op(inside_tmux)@
                && message@ == "exit status "@ + status@
        },
{
    if success {
        return Ok(());
    }
    Err(
        TmuxError::Command {
            op: attach_op(inside_tmux).to_owned(),
            message: "exit status ".to_owned().concat(status),
        },
    )
}

/// A workspace name without underscores comes back from its encoded form.
pub proof fn decode_undoes_encode(workspace: Seq<char>)
    requires
        !workspace.contains('_'),
    ensures
        decoded(encoded(workspace)) == workspace,
{
    assert forall|i: int| 0 <= i < workspace.len() implies decoded(encoded(workspace))[i]
        == workspace[i] by {
        assert(workspace.contains(workspace[i]));
    }
    assert(decoded(encoded(workspace)) =~= workspace);
}

/// An encoded name holds no dot.
pub proof fn encoded_name_has_no_dot(workspace: Seq<char>)
    ensures
        !encoded(workspace).contains('.'),
{
}

} // verus!
