//! What a tool says when it cannot do what it is asked.

use vstd::prelude::*;

use crate::text::quote;
pub use crate::text::quoted;

verus! {

broadcast use vstd::string::group_string_axioms;

/// Who is at fault.
#[derive(Debug, Clone, Copy, PartialEq, Eq, Structural)]
pub enum ErrorKind {
    /// The caller asked for something that makes no sense.
    InvalidParams,
    /// Something else went wrong.
    Internal,
}

/// Why a tool could not do what it was asked.
#[derive(Debug, Clone)]
pub struct ToolError {
    pub kind: ErrorKind,
    pub message: String,
}

/// Why a tool could not do what it was asked, as a value.
pub struct Refusal {
    pub kind: ErrorKind,
    pub message: Seq<char>,
}

impl View for ToolError {
    type V = Refusal;

    open spec fn view(&self) -> Refusal {
        Refusal { kind: self.kind, message: self.message@ }
    }
}

/// The caller is at fault.
pub open spec fn invalid(message: Seq<char>) -> Refusal {
    Refusal { kind: ErrorKind::InvalidParams, message }
}

/// Something else is at fault.
pub open spec fn internal(message: Seq<char>) -> Refusal {
    Refusal { kind: ErrorKind::Internal, message }
}

impl ToolError {
    /// The caller is at fault.
    pub fn invalid_params(message: String) -> (r: ToolError)
        ensures
            r@ == invalid(message@),
    {
        ToolError { kind: ErrorKind::InvalidParams, message }
    }

    /// The caller is at fault.
    pub fn invalid_params_str(message: &str) -> (r: ToolError)
        ensures
            r@ == invalid(message@),
    {
        ToolError { kind: ErrorKind::InvalidParams, message: message.to_owned() }
    }

    /// Something else is at fault.
    pub fn internal_error(message: String) -> (r: ToolError)
        ensures
            r@ == internal(message@),
    {
        ToolError { kind: ErrorKind::Internal, message }
    }
}

/// A sentence around a quoted text.
pub fn sentence(before: &str, quoted_text: &str, after: &str) -> (r: String)
    ensures
        r@ == before@ + quoted_text@ + after@,
{
    before.to_owned().concat(quoted_text).concat(after)
}

/// A sentence around a text that is put between quotation marks.
pub fn about(before: &str, text: &str, after: &str) -> (r: String)
    ensures
        r@ == before@ + quoted(text@) + after@,
{
    sentence(before, quote(text).as_str(), after)
}

/// The text of an optional field; nothing counts as empty.
pub open spec fn or_empty(text: Option<String>) -> Seq<char> {
    match text {
        Some(t) => t@,
        None => Seq::empty(),
    }
}

/// The text of an optional field; nothing counts as empty.
pub fn text_or_empty(text: Option<String>) -> (r: String)
    ensures
        r@ == or_empty(text),
{
    match text {
        Some(t) => t,
        None => String::new(),
    }
}

} // verus!
