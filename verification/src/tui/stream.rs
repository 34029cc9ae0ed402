//! The views that the body can show, and the message history behind one of
//! them.

use vstd::prelude::*;

use crate::proto::types::HistoryEntry;
use crate::text::{count_of, decimal, lines, lines_of, texts};

verus! {

broadcast use {vstd::seq_lib::group_seq_properties, vstd::string::group_string_axioms};

/// The file that holds the message history.
pub const HISTORY_FILE_NAME: &'static str = "message_history.jsonl";

/// The view that the body shows. Every view has a list above and a detail below.
#[derive(Debug, Clone, Copy, PartialEq, Eq, Structural)]
pub enum StreamView {
    Agents,
    Messages,
    Tasks,
    Tokens,
    Stream,
}

/// The views in the order of their tabs; the last only where a terminal is
/// mirrored.
pub open spec fn tab_views(stream_pinned: bool) -> Seq<StreamView> {
    if stream_pinned {
        seq![
            StreamView::Agents,
            StreamView::Messages,
            StreamView::Tasks,
            StreamView::Tokens,
            StreamView::Stream,
        ]
    } else {
        seq![StreamView::Agents, StreamView::Messages, StreamView::Tasks, StreamView::Tokens]
    }
}

/// The place of a view among the tabs.
#[verifier::allow_in_spec]
pub fn tab_index(view: StreamView) -> usize
    returns
        (match view {
            StreamView::Agents => 0usize,
            StreamView::Messages => 1usize,
            StreamView::Tasks => 2usize,
            StreamView::Tokens => 3usize,
            StreamView::Stream => 4usize,
        }),
{
    match view {
        StreamView::Agents => 0,
        StreamView::Messages => 1,
        StreamView::Tasks => 2,
        StreamView::Tokens => 3,
        StreamView::Stream => 4,
    }
}

impl StreamView {
    /// The label of the view's tab.
    #[verifier::allow_in_spec]
    pub fn tab_label(self) -> &'static str
        returns
            (match self {
                StreamView::Agents => "agents",
                StreamView::Messages => "messages",
                StreamView::Tasks => "tasks",
                StreamView::Tokens => "tokens",
                StreamView::Stream => "stream",
            }),
    {
        match self {
            StreamView::Agents => "agents",
            StreamView::Messages => "messages",
            StreamView::Tasks => "tasks",
            StreamView::Tokens => "tokens",
            StreamView::Stream => "stream",
        }
    }

    /// The views in the order of their tabs.
    pub fn tabs(stream_pinned: bool) -> (r: Vec<StreamView>)
        ensures
            r@ == tab_views(stream_pinned),
    {
        let mut r: Vec<StreamView> = vec![
            StreamView::Agents,
            StreamView::Messages,
            StreamView::Tasks,
            StreamView::Tokens,
        ];
        if stream_pinned {
            r.push(StreamView::Stream);
        }
        proof {
            assert(r@ =~= tab_views(stream_pinned));
        }
        r
    }
}

/// A tab stands where its index says.
pub proof fn tab_index_finds_tab(view: StreamView, stream_pinned: bool)
    requires
        stream_pinned || view != StreamView::Stream,
    ensures
        tab_views(stream_pinned)[tab_index(view) as int] == view,
        tab_index(view) < tab_views(stream_pinned).len(),
{
}

/// A line of the history file and its number.
#[derive(Debug, Clone)]
pub struct HistoryLine {
    pub number: usize,
    pub text: String,
}

/// The number and text of each of the first `n` lines that is not empty,
/// counted from one.
pub open spec fn numbered_lines(all: Seq<Seq<char>>, n: int) -> Seq<(int, Seq<char>)>
    decreases n,
{
    if n <= 0 {
        Seq::empty()
    } else {
        let front = numbered_lines(all, n - 1);
        if all[n - 1].len() > 0 {
            front.push((n, all[n - 1]))
        } else {
            front
        }
    }
}

/// The number and text of each line.
pub open spec fn numbered(v: Seq<HistoryLine>) -> Seq<(int, Seq<char>)> {
    v.map_values(|l: HistoryLine| (l.number as int, l.text@))
}

/// The lines of the history file that hold an entry, with their numbers.
pub fn history_lines(data: &str) -> (r: Vec<HistoryLine>)
    ensures
        numbered(r@) == numbered_lines(lines(data@), lines(data@).len() as int),
{
    let all = lines_of(data);
    let n = all.len();
    let mut out: Vec<HistoryLine> = Vec::new();
    let mut i: usize = 0;
    proof {
        assert(numbered(out@) =~= Seq::empty());
    }
    while i < n
        invariant
            i <= n == all@.len(),
            texts(all@) == lines(data@),
            numbered(out@) == numbered_lines(lines(data@), i as int),
        decreases n - i,
    {
        proof {
            assert(lines(data@)[i as int] == all@[i as int]@);
        }
        if !all[i].as_str().is_empty() {
            let line = HistoryLine { number: i + 1, text: all[i].clone() };
            proof {
                assert(numbered(out@.push(line)) =~= numbered(out@).push((i + 1, all@[i as int]@)));
            }
            out.push(line);
        }
        i = i + 1;
    }
    out
}

/// What is said where a line of the history file cannot be read.
pub fn history_parse_error(path: &str, number: usize, error: &str) -> (r: String)
    ensures
        r@ == "history snapshot parse "@ + path@ + " line "@ + decimal(number as nat) + ": "@
            + error@,
{
    "history snapshot parse ".to_owned().concat(path).concat(" line ").concat(
        count_of(number).as_str(),
    ).concat(": ").concat(error)
}

/// The newest `max` entries.
pub open spec fn newest<T>(entries: Seq<T>, max: int) -> Seq<T> {
    if entries.len() > max {
        entries.skip(entries.len() - max)
    } else {
        entries
    }
}

/// Keeps the newest `max_entries` entries.
pub fn keep_newest(entries: Vec<HistoryEntry>, max_entries: usize) -> (r: Vec<HistoryEntry>)
    ensures
        r@ == newest(entries@, max_entries as int),
{
    let mut entries = entries;
    if entries.len() > max_entries {
        let ghost pre = entries@;
        let tail = entries.split_off(entries.len() - max_entries);
        proof {
            assert(tail@ =~= newest(pre, max_entries as int));
        }
        tail
    } else {
        entries
    }
}

} // verus!
