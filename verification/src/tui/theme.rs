//! What the styles of the view mean.
//!
//! Colour is a secondary cue: whatever a colour says is also said by text,
//! bold or dim type, or a reversed selection. A style is always made with its
//! colour; [`for_terminal`] takes the colour away where the terminal is to show
//! none.

use vstd::prelude::*;

use crate::proto::types::{AgentStatus, TaskPriority, TaskStatus};
use crate::text::{same, trim, trimmed};

verus! {

/// The colours in use.
#[derive(Debug, Clone, Copy, PartialEq, Eq, Structural)]
pub enum Color {
    Cyan,
    Green,
    Yellow,
    Red,
    Gray,
    White,
    LightBlue,
    LightMagenta,
    LightYellow,
    LightCyan,
}

/// How a stretch of text is shown.
#[derive(Debug, Clone, Copy, PartialEq, Eq, Structural)]
pub struct Style {
    pub fg: Option<Color>,
    pub bold: bool,
    pub dim: bool,
    pub reversed: bool,
}

/// How good or bad something is.
#[derive(Debug, Clone, Copy, PartialEq, Eq, Structural)]
pub enum Severity {
    Success,
    Warning,
    Danger,
}

/// Whether colours are shown, given which of the two switches against them are
/// set.
#[verifier::allow_in_spec]
pub fn colors_enabled_for(no_color: bool, ax_tui_no_color: bool) -> bool
    returns
        !no_color && !ax_tui_no_color,
{
    !no_color && !ax_tui_no_color
}

/// The style as the terminal shows it.
#[verifier::allow_in_spec]
pub fn for_terminal(style: Style, colors: bool) -> Style
    returns
        (if colors { style } else { (Style { fg: None, ..style }) }),
{
    if colors {
        style
    } else {
        Style { fg: None, ..style }
    }
}

/// Taking the colour away leaves every other cue.
pub proof fn other_cues_survive_without_color(style: Style)
    ensures
        for_terminal(style, false).bold == style.bold,
        for_terminal(style, false).dim == style.dim,
        for_terminal(style, false).reversed == style.reversed,
        for_terminal(style, false).fg is None,
        for_terminal(style, true) == style,
{
}

/// Ordinary text.
#[verifier::allow_in_spec]
pub fn plain() -> Style
    returns
        (Style { fg: None, bold: false, dim: false, reversed: false }),
{
    Style { fg: None, bold: false, dim: false, reversed: false }
}

/// Ordinary text in a colour.
#[verifier::allow_in_spec]
pub fn colored(color: Color) -> Style
    returns
        (Style { fg: Some(color), bold: false, dim: false, reversed: false }),
{
    Style { fg: Some(color), bold: false, dim: false, reversed: false }
}

/// The style in bold type.
#[verifier::allow_in_spec]
pub fn bold(style: Style) -> Style
    returns
        (Style { bold: true, ..style }),
{
    Style { bold: true, ..style }
}

/// The style in dim type.
#[verifier::allow_in_spec]
pub fn dim(style: Style) -> Style
    returns
        (Style { dim: true, ..style }),
{
    Style { dim: true, ..style }
}

/// Text that stands out.
#[verifier::allow_in_spec]
pub fn strong() -> Style
    returns
        bold(plain()),
{
    bold(plain())
}

/// Text of second rank.
#[verifier::allow_in_spec]
pub fn muted() -> Style
    returns
        colored(Color::Gray),
{
    colored(Color::Gray)
}

/// Something that is out of use.
#[verifier::allow_in_spec]
pub fn disabled() -> Style
    returns
        dim(colored(Color::Gray)),
{
    dim(colored(Color::Gray))
}

/// The head of a column.
#[verifier::allow_in_spec]
pub fn column_header() -> Style
    returns
        bold(colored(Color::Gray)),
{
    bold(colored(Color::Gray))
}

/// The name of a detail.
#[verifier::allow_in_spec]
pub fn meta_label() -> Style
    returns
        dim(colored(Color::Gray)),
{
    dim(colored(Color::Gray))
}

/// Something that is in focus.
#[verifier::allow_in_spec]
pub fn accent() -> Style
    returns
        colored(Color::Cyan),
{
    colored(Color::Cyan)
}

/// Something that is in focus and stands out.
#[verifier::allow_in_spec]
pub fn accent_bold() -> Style
    returns
        bold(accent()),
{
    bold(accent())
}

/// An agent at work.
#[verifier::allow_in_spec]
pub fn running() -> Style
    returns
        accent_bold(),
{
    accent_bold()
}

/// An agent that waits.
#[verifier::allow_in_spec]
pub fn idle() -> Style
    returns
        colored(Color::LightCyan),
{
    colored(Color::LightCyan)
}

/// Tokens sent.
#[verifier::allow_in_spec]
pub fn traffic_up() -> Style
    returns
        colored(Color::LightBlue),
{
    colored(Color::LightBlue)
}

/// Tokens received.
#[verifier::allow_in_spec]
pub fn traffic_down() -> Style
    returns
        colored(Color::LightMagenta),
{
    colored(Color::LightMagenta)
}

/// Money spent.
#[verifier::allow_in_spec]
pub fn cost() -> Style
    returns
        colored(Color::LightYellow),
{
    colored(Color::LightYellow)
}

/// A piece of information.
#[verifier::allow_in_spec]
pub fn info() -> Style
    returns
        colored(Color::LightCyan),
{
    colored(Color::LightCyan)
}

/// Who sent something.
#[verifier::allow_in_spec]
pub fn sender() -> Style
    returns
        bold(colored(Color::LightBlue)),
{
    bold(colored(Color::LightBlue))
}

/// When something happened.
#[verifier::allow_in_spec]
pub fn timestamp() -> Style
    returns
        muted(),
{
    muted()
}

/// Which task something is about.
#[verifier::allow_in_spec]
pub fn task_id() -> Style
    returns
        colored(Color::LightMagenta),
{
    colored(Color::LightMagenta)
}

/// Who is to do something.
#[verifier::allow_in_spec]
pub fn assignee() -> Style
    returns
        colored(Color::LightBlue),
{
    colored(Color::LightBlue)
}

/// The label of the active tab.
#[verifier::allow_in_spec]
pub fn active_label(focused: bool) -> Style
    returns
        (if focused {
        accent_bold()
    } else {
        bold(colored(Color::White))
    }),
{
    if focused {
        accent_bold()
    } else {
        bold(colored(Color::White))
    }
}

/// The selected row.
#[verifier::allow_in_spec]
pub fn selection(focused: bool) -> Style
    returns
        (if focused {
        Style { reversed: true, ..colored(Color::Cyan) }
    } else {
        Style { reversed: true, ..plain() }
    }),
{
    if focused {
        Style { reversed: true, ..colored(Color::Cyan) }
    } else {
        Style { reversed: true, ..plain() }
    }
}

/// The border of a pane.
#[verifier::allow_in_spec]
pub fn focus_border(focused: bool) -> Style
    returns
        (if focused {
        accent()
    } else {
        plain()
    }),
{
    if focused {
        accent()
    } else {
        plain()
    }
}

/// How good or bad something is.
#[verifier::allow_in_spec]
pub fn severity(kind: Severity) -> Style
    returns
        (match kind {
        Severity::Success => colored(Color::Green),
        Severity::Warning => colored(Color::Yellow),
        Severity::Danger => colored(Color::Red),
    }),
{
    match kind {
        Severity::Success => colored(Color::Green),
        Severity::Warning => colored(Color::Yellow),
        Severity::Danger => colored(Color::Red),
    }
}

/// How good or bad something is, standing out.
#[verifier::allow_in_spec]
pub fn severity_bold(kind: Severity) -> Style
    returns
        (bold(severity(kind))),
{
    bold(severity(kind))
}

/// A notice about an action.
#[verifier::allow_in_spec]
pub fn notice(error: bool) -> Style
    returns
        (if error {
        severity(Severity::Danger)
    } else {
        severity(Severity::Success)
    }),
{
    if error {
        severity(Severity::Danger)
    } else {
        severity(Severity::Success)
    }
}

/// Whether an agent is connected.
#[verifier::allow_in_spec]
pub fn agent_status(status: AgentStatus) -> Style
    returns
        (match status {
        AgentStatus::Online => severity(Severity::Success),
        AgentStatus::Offline => disabled(),
        AgentStatus::Disconnected => severity(Severity::Warning),
    }),
{
    match status {
        AgentStatus::Online => severity(Severity::Success),
        AgentStatus::Offline => disabled(),
        AgentStatus::Disconnected => severity(Severity::Warning),
    }
}

/// A workspace or project at some depth of the tree.
#[verifier::allow_in_spec]
pub fn workspace(depth: usize) -> Style
    returns
        (if depth == 0 {
        accent_bold()
    } else {
        colored(Color::LightBlue)
    }),
{
    if depth == 0 {
        accent_bold()
    } else {
        colored(Color::LightBlue)
    }
}

/// How urgent a task is.
#[verifier::allow_in_spec]
pub fn priority(priority: Option<TaskPriority>) -> Style
    returns
        (match priority {
        Some(TaskPriority::Urgent) => severity_bold(Severity::Danger),
        Some(TaskPriority::High) => severity_bold(Severity::Warning),
        Some(TaskPriority::Low) => muted(),
        Some(TaskPriority::Normal) => plain(),
        None => plain(),
    }),
{
    match priority {
        Some(TaskPriority::Urgent) => severity_bold(Severity::Danger),
        Some(TaskPriority::High) => severity_bold(Severity::Warning),
        Some(TaskPriority::Low) => muted(),
        Some(TaskPriority::Normal) => plain(),
        None => plain(),
    }
}

/// Where a task stands.
#[verifier::allow_in_spec]
pub fn task_status(status: TaskStatus, stale: bool) -> Style
    returns
        (if stale && (status == TaskStatus::Pending || status == TaskStatus::InProgress) {
        severity_bold(Severity::Warning)
    } else {
        match status {
            TaskStatus::Pending => plain(),
            TaskStatus::InProgress => accent_bold(),
            TaskStatus::Blocked => severity_bold(Severity::Warning),
            TaskStatus::Completed => severity(Severity::Success),
            TaskStatus::Failed => severity_bold(Severity::Danger),
            TaskStatus::Cancelled => muted(),
        }
    }),
{
    if stale && (status == TaskStatus::Pending || status == TaskStatus::InProgress) {
        severity_bold(Severity::Warning)
    } else {
        match status {
            TaskStatus::Pending => plain(),
            TaskStatus::InProgress => accent_bold(),
            TaskStatus::Blocked => severity_bold(Severity::Warning),
            TaskStatus::Completed => severity(Severity::Success),
            TaskStatus::Failed => severity_bold(Severity::Danger),
            TaskStatus::Cancelled => muted(),
        }
    }
}

/// The title of a task.
#[verifier::allow_in_spec]
pub fn task_title(status: TaskStatus) -> Style
    returns
        (match status {
        TaskStatus::Completed => muted(),
        TaskStatus::Cancelled => muted(),
        TaskStatus::Failed => severity(Severity::Danger),
        TaskStatus::Pending => plain(),
        TaskStatus::InProgress => plain(),
        TaskStatus::Blocked => plain(),
    }),
{
    match status {
        TaskStatus::Completed => muted(),
        TaskStatus::Cancelled => muted(),
        TaskStatus::Failed => severity(Severity::Danger),
        TaskStatus::Pending => plain(),
        TaskStatus::InProgress => plain(),
        TaskStatus::Blocked => plain(),
    }
}

/// The style for the state of a repository.
pub open spec fn git_state_style(state: Seq<char>) -> Style {
    let s = trim(state);
    if s == "clean"@ {
        severity(Severity::Success)
    } else if s == "dirty"@ {
        severity(Severity::Warning)
    } else if s == "error"@ {
        severity_bold(Severity::Danger)
    } else if s == "inaccessible"@ {
        severity(Severity::Warning)
    } else if s == "non_git"@ {
        muted()
    } else {
        plain()
    }
}

/// The style for the state of a repository.
pub fn git_state(state: &str) -> (r: Style)
    ensures
        r == git_state_style(state@),
{
    let s = trimmed(state);
    if same(s.as_str(), "clean") {
        severity(Severity::Success)
    } else if same(s.as_str(), "dirty") {
        severity(Severity::Warning)
    } else if same(s.as_str(), "error") {
        severity_bold(Severity::Danger)
    } else if same(s.as_str(), "inaccessible") {
        severity(Severity::Warning)
    } else if same(s.as_str(), "non_git") {
        muted()
    } else {
        plain()
    }
}

} // verus!
