//! Which key names tmux knows.

use vstd::prelude::*;

use crate::text::same;

verus! {

/// A key as `tmux send-keys` takes it.
#[derive(Debug, Clone, PartialEq, Eq)]
pub enum ResolvedKey {
    /// A key that tmux knows by this name.
    Special(&'static str),
    /// Text that is typed as it stands.
    Literal(String),
}

/// The name by which tmux knows a key, where it is a named key.
pub open spec fn named_key(key: Seq<char>) -> Option<Seq<char>> {
    if key == "Enter"@ || key == "Return"@ {
        Some("Enter"@)
    } else if key == "Escape"@ || key == "Esc"@ {
        Some("Escape"@)
    } else if key == "Tab"@ {
        Some("Tab"@)
    } else if key == "Space"@ {
        Some("Space"@)
    } else if key == "BSpace"@ || key == "Backspace"@ {
        Some("BSpace"@)
    } else if key == "Delete"@ || key == "DC"@ {
        Some("DC"@)
    } else if key == "Up"@ {
        Some("Up"@)
    } else if key == "Down"@ {
        Some("Down"@)
    } else if key == "Left"@ {
        Some("Left"@)
    } else if key == "Right"@ {
        Some("Right"@)
    } else if key == "Home"@ {
        Some("Home"@)
    } else if key == "End"@ {
        Some("End"@)
    } else if key == "PageUp"@ || key == "PPage"@ {
        Some("PPage"@)
    } else if key == "PageDown"@ || key == "NPage"@ {
        Some("NPage"@)
    } else if key == "Ctrl-C"@ || key == "C-c"@ {
        Some("C-c"@)
    } else if key == "Ctrl-D"@ || key == "C-d"@ {
        Some("C-d"@)
    } else if key == "Ctrl-U"@ || key == "C-u"@ {
        Some("C-u"@)
    } else if key == "Ctrl-L"@ || key == "C-l"@ {
        Some("C-l"@)
    } else if key == "Ctrl-A"@ || key == "C-a"@ {
        Some("C-a"@)
    } else if key == "Ctrl-Z"@ || key == "C-z"@ {
        Some("C-z"@)
    } else if key == "Ctrl-R"@ || key == "C-r"@ {
        Some("C-r"@)
    } else if key == "Ctrl-W"@ || key == "C-w"@ {
        Some("C-w"@)
    } else if key == "Ctrl-K"@ || key == "C-k"@ {
        Some("C-k"@)
    } else if key == "Ctrl-E"@ || key == "C-e"@ {
        Some("C-e"@)
    } else if key == "Ctrl-B"@ || key == "C-b"@ {
        Some("C-b"@)
    } else if key == "Ctrl-F"@ || key == "C-f"@ {
        Some("C-f"@)
    } else if key == "Ctrl-P"@ || key == "C-p"@ {
        Some("C-p"@)
    } else if key == "Ctrl-N"@ || key == "C-n"@ {
        Some("C-n"@)
    } else {
        None
    }
}

/// Resolves a key: a named key gives the name that tmux knows, anything else
/// is text to be typed.
pub fn resolve_key_token(key: &str) -> (r: ResolvedKey)
    ensures
        match named_key(key@) {
            Some(name) => r matches ResolvedKey::Special(s) && s@ == name,
            None => r matches ResolvedKey::Literal(s) && s@ == key@,
        },
{
    if same(key, "Enter") || same(key, "Return") {
        ResolvedKey::Special("Enter")
    } else if same(key, "Escape") || same(key, "Esc") {
        ResolvedKey::Special("Escape")
    } else if same(key, "Tab") {
        ResolvedKey::Special("Tab")
    } else if same(key, "Space") {
        ResolvedKey::Special("Space")
    } else if same(key, "BSpace") || same(key, "Backspace") {
        ResolvedKey::Special("BSpace")
    } else if same(key, "Delete") || same(key, "DC") {
        ResolvedKey::Special("DC")
    } else if same(key, "Up") {
        ResolvedKey::Special("Up")
    } else if same(key, "Down") {
        ResolvedKey::Special("Down")
    } else if same(key, "Left") {
        ResolvedKey::Special("Left")
    } else if same(key, "Right") {
        ResolvedKey::Special("Right")
    } else if same(key, "Home") {
        ResolvedKey::Special("Home")
    } else if same(key, "End") {
        ResolvedKey::Special("End")
    } else if same(key, "PageUp") || same(key, "PPage") {
        ResolvedKey::Special("PPage")
    } else if same(key, "PageDown") || same(key, "NPage") {
        ResolvedKey::Special("NPage")
    } else if same(key, "Ctrl-C") || same(key, "C-c") {
        ResolvedKey::Special("C-c")
    } else if same(key, "Ctrl-D") || same(key, "C-d") {
        ResolvedKey::Special("C-d")
    } else if same(key, "Ctrl-U") || same(key, "C-u") {
        ResolvedKey::Special("C-u")
    } else if same(key, "Ctrl-L") || same(key, "C-l") {
        ResolvedKey::Special("C-l")
    } else if same(key, "Ctrl-A") || same(key, "C-a") {
        ResolvedKey::Special("C-a")
    } else if same(key, "Ctrl-Z") || same(key, "C-z") {
        ResolvedKey::Special("C-z")
    } else if same(key, "Ctrl-R") || same(key, "C-r") {
        ResolvedKey::Special("C-r")
    } else if same(key, "Ctrl-W") || same(key, "C-w") {
        ResolvedKey::Special("C-w")
    } else if same(key, "Ctrl-K") || same(key, "C-k") {
        ResolvedKey::Special("C-k")
    } else if same(key, "Ctrl-E") || same(key, "C-e") {
        ResolvedKey::Special("C-e")
    } else if same(key, "Ctrl-B") || same(key, "C-b") {
        ResolvedKey::Special("C-b")
    } else if same(key, "Ctrl-F") || same(key, "C-f") {
        ResolvedKey::Special("C-f")
    } else if same(key, "Ctrl-P") || same(key, "C-p") {
        ResolvedKey::Special("C-p")
    } else if same(key, "Ctrl-N") || same(key, "C-n") {
        ResolvedKey::Special("C-n")
    } else {
        ResolvedKey::Literal(key.to_owned())
    }
}

} // verus!
