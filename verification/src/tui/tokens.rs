//! Token counts that agents show in their terminals.
//!
//! An agent's status line reads like `↑ 12.3k tokens ↓ 45.6k tokens · $0.42`,
//! and its closing line like `Done (16 tool uses · 93.9k tokens · 59s)`.

use vstd::prelude::*;

use crate::text::{lines, lines_of, texts};

verus! {

broadcast use {vstd::seq_lib::group_seq_properties, vstd::string::group_string_axioms};

/// How many lines at the end of a capture are looked at.
pub const TOKEN_SCAN_WINDOW: usize = 30;

/// Tokens sent.
pub const TOKEN_UP: &'static str = "↑\\s*([\\d.]+[kKmM]?)\\s*tokens";

/// Tokens received.
pub const TOKEN_DOWN: &'static str = "↓\\s*([\\d.]+[kKmM]?)\\s*tokens";

/// Any count of tokens.
pub const TOKEN_ANY: &'static str = "([\\d.]+[kKmM]?)\\s*tokens";

/// Money spent.
pub const COST: &'static str = "\\$[\\d.]+";

/// The mark of a closing line.
pub const CLAUDE_DONE: &'static str = "\\bDone \\(";

/// What the first group matched in each match of `pattern` in `line`, from left
/// to right.
pub uninterp spec fn group_matches(pattern: Seq<char>, line: Seq<char>) -> Seq<Seq<char>>;

/// What `pattern` matched first in `line`.
pub uninterp spec fn first_match(pattern: Seq<char>, line: Seq<char>) -> Option<Seq<char>>;

/// What the first group of a pattern matched, in each of its matches in a line.
///
/// Calls `regex::Regex::new` and `regex::Regex::captures_iter`. Claimed: the
/// three patterns, whose only group takes part in every match, compile, and the
/// matches depend on the pattern and the line alone.
#[verifier::external_body]
fn find_groups(pattern: &str, line: &str) -> (r: Vec<String>)
    requires
        pattern@ == TOKEN_UP@ || pattern@ == TOKEN_DOWN@ || pattern@ == TOKEN_ANY@,
    ensures
        texts(r@) == group_matches(pattern@, line@),
{
    let re = regex::Regex::new(pattern).unwrap();
    re.captures_iter(line).map(|c| c[1].to_owned()).collect()
}

/// What a pattern matched first in a line.
///
/// Calls `regex::Regex::new` and `regex::Regex::find`. Claimed: the two patterns
/// compile, and the match depends on the pattern and the line alone.
#[verifier::external_body]
fn find_first(pattern: &str, line: &str) -> (r: Option<String>)
    requires
        pattern@ == COST@ || pattern@ == CLAUDE_DONE@,
    ensures
        match r {
            Some(s) => first_match(pattern@, line@) == Some(s@),
            None => first_match(pattern@, line@) is None,
        },
{
    let re = regex::Regex::new(pattern).unwrap();
    re.find(line).map(|m| m.as_str().to_owned())
}

/// What one agent shows. A count that was not found is empty, which is not the
/// same as zero.
#[derive(Debug, Clone, PartialEq, Eq, Default)]
pub struct AgentTokens {
    pub workspace: String,
    pub up: String,
    pub down: String,
    pub total: String,
    pub cost: String,
}

/// What one agent shows, as text.
pub struct TokensShown {
    pub workspace: Seq<char>,
    pub up: Seq<char>,
    pub down: Seq<char>,
    pub total: Seq<char>,
    pub cost: Seq<char>,
}

impl View for AgentTokens {
    type V = TokensShown;

    open spec fn view(&self) -> TokensShown {
        TokensShown {
            workspace: self.workspace@,
            up: self.up@,
            down: self.down@,
            total: self.total@,
            cost: self.cost@,
        }
    }
}

/// Nothing was found.
pub open spec fn found_nothing(t: TokensShown) -> bool {
    t.up.len() == 0 && t.down.len() == 0 && t.total.len() == 0 && t.cost.len() == 0
}

impl AgentTokens {
    /// Whether nothing was found.
    pub fn is_empty(&self) -> (r: bool)
        ensures
            r == found_nothing(self@),
    {
        self.up.as_str().is_empty() && self.down.as_str().is_empty() && self.total.as_str().is_empty()
            && self.cost.as_str().is_empty()
    }
}

/// What was found in one line.
#[derive(Debug, Clone)]
pub struct LineMarks {
    pub up: Option<String>,
    pub down: Option<String>,
    pub cost: Option<String>,
    pub done_total: Option<String>,
}

/// What was found in one line, as text.
pub struct Marks {
    pub up: Option<Seq<char>>,
    pub down: Option<Seq<char>>,
    pub cost: Option<Seq<char>>,
    pub done_total: Option<Seq<char>>,
}

/// The text of an optional string.
pub open spec fn opt_text(s: Option<String>) -> Option<Seq<char>> {
    match s {
        Some(s) => Some(s@),
        None => None,
    }
}

impl View for LineMarks {
    type V = Marks;

    open spec fn view(&self) -> Marks {
        Marks {
            up: opt_text(self.up),
            down: opt_text(self.down),
            cost: opt_text(self.cost),
            done_total: opt_text(self.done_total),
        }
    }
}

/// What was found in each line.
pub open spec fn all_marks(v: Seq<LineMarks>) -> Seq<Marks> {
    v.map_values(|m: LineMarks| m@)
}

/// The last value that is there, or nothing.
pub open spec fn latest(values: Seq<Option<Seq<char>>>) -> Seq<char>
    decreases values.len(),
{
    if values.len() == 0 {
        Seq::empty()
    } else {
        match values.last() {
            Some(v) => v,
            None => latest(values.drop_last()),
        }
    }
}

/// Tokens sent, line by line.
pub open spec fn ups(marks: Seq<Marks>) -> Seq<Option<Seq<char>>> {
    marks.map_values(|m: Marks| m.up)
}

/// Tokens received, line by line.
pub open spec fn downs(marks: Seq<Marks>) -> Seq<Option<Seq<char>>> {
    marks.map_values(|m: Marks| m.down)
}

/// Money spent, line by line.
pub open spec fn costs(marks: Seq<Marks>) -> Seq<Option<Seq<char>>> {
    marks.map_values(|m: Marks| m.cost)
}

/// Closing totals, line by line.
pub open spec fn done_totals(marks: Seq<Marks>) -> Seq<Option<Seq<char>>> {
    marks.map_values(|m: Marks| m.done_total)
}

/// What the lines show: of each count the last one; a closing total only where no
/// count by direction was found.
pub open spec fn tokens_in(workspace: Seq<char>, marks: Seq<Marks>) -> TokensShown {
    TokensShown {
        workspace,
        up: latest(ups(marks)),
        down: latest(downs(marks)),
        cost: latest(costs(marks)),
        total: if latest(ups(marks)).len() == 0 && latest(downs(marks)).len() == 0 {
            latest(done_totals(marks))
        } else {
            Seq::empty()
        },
    }
}

proof fn latest_of_next(values: Seq<Option<Seq<char>>>, i: int)
    requires
        0 <= i < values.len(),
    ensures
        latest(values.take(i + 1)) == match values[i] {
            Some(v) => v,
            None => latest(values.take(i)),
        },
{
    assert(values.take(i + 1).drop_last() =~= values.take(i));
}

/// Puts together what was found in the lines of a capture.
pub fn collect_tokens(workspace: &str, marks: &Vec<LineMarks>) -> (r: AgentTokens)
    ensures
        r@ == tokens_in(workspace@, all_marks(marks@)),
{
    let mut up = String::new();
    let mut down = String::new();
    let mut cost = String::new();
    let mut total = String::new();
    let ghost all = all_marks(marks@);
    let mut i: usize = 0;
    while i < marks.len()
        invariant
            i <= marks@.len(),
            all == all_marks(marks@),
            up@ == latest(ups(all).take(i as int)),
            down@ == latest(downs(all).take(i as int)),
            cost@ == latest(costs(all).take(i as int)),
            total@ == latest(done_totals(all).take(i as int)),
        decreases marks@.len() - i,
    {
        let m = &marks[i];
        proof {
            latest_of_next(ups(all), i as int);
            latest_of_next(downs(all), i as int);
            latest_of_next(costs(all), i as int);
            latest_of_next(done_totals(all), i as int);
        }
        if let Some(s) = &m.up {
            up = s.clone();
        }
        if let Some(s) = &m.down {
            down = s.clone();
        }
        if let Some(s) = &m.cost {
            cost = s.clone();
        }
        if let Some(s) = &m.done_total {
            total = s.clone();
        }
        i = i + 1;
    }
    proof {
        assert(ups(all).take(all.len() as int) =~= ups(all));
        assert(downs(all).take(all.len() as int) =~= downs(all));
        assert(costs(all).take(all.len() as int) =~= costs(all));
        assert(done_totals(all).take(all.len() as int) =~= done_totals(all));
    }
    if !up.as_str().is_empty() || !down.as_str().is_empty() {
        total = String::new();
    }
    AgentTokens { workspace: workspace.to_owned(), up, down, total, cost }
}

/// The total of a closing line is the last count in it; another line has none.
pub open spec fn total_of_done_line(is_done: bool, counts: Seq<Seq<char>>) -> Option<Seq<char>> {
    if is_done && counts.len() > 0 {
        Some(counts.last())
    } else {
        None
    }
}

/// The total of a line, given whether it is a closing line and the counts in it.
pub fn done_line_total(is_done: bool, counts: &Vec<String>) -> (r: Option<String>)
    ensures
        opt_text(r) == total_of_done_line(is_done, texts(counts@)),
{
    if is_done && counts.len() > 0 {
        Some(counts[counts.len() - 1].clone())
    } else {
        None
    }
}

/// The total that a closing line shows.
pub open spec fn done_total(line: Seq<char>) -> Option<Seq<char>> {
    total_of_done_line(
        first_match(CLAUDE_DONE@, line) is Some,
        group_matches(TOKEN_ANY@, line),
    )
}

/// The total that a closing line shows; nothing where the line is none.
pub fn extract_done_line_total(line: &str) -> (r: Option<String>)
    ensures
        opt_text(r) == done_total(line@),
{
    let is_done = find_first(CLAUDE_DONE, line).is_some();
    let counts = find_groups(TOKEN_ANY, line);
    done_line_total(is_done, &counts)
}

/// The first of some texts.
pub open spec fn first_text(v: Seq<Seq<char>>) -> Option<Seq<char>> {
    if v.len() > 0 {
        Some(v[0])
    } else {
        None
    }
}

fn first_of(v: &Vec<String>) -> (r: Option<String>)
    ensures
        opt_text(r) == first_text(texts(v@)),
{
    if v.len() > 0 {
        Some(v[0].clone())
    } else {
        None
    }
}

/// What a line shows.
pub open spec fn marks_in(line: Seq<char>) -> Marks {
    Marks {
        up: first_text(group_matches(TOKEN_UP@, line)),
        down: first_text(group_matches(TOKEN_DOWN@, line)),
        cost: first_match(COST@, line),
        done_total: done_total(line),
    }
}

/// What a line shows.
pub fn read_marks(line: &str) -> (r: LineMarks)
    ensures
        r@ == marks_in(line@),
{
    LineMarks {
        up: first_of(&find_groups(TOKEN_UP, line)),
        down: first_of(&find_groups(TOKEN_DOWN, line)),
        cost: find_first(COST, line),
        done_total: extract_done_line_total(line),
    }
}

/// The last lines of a capture, as many as are looked at.
pub open spec fn scanned_lines(capture: Seq<char>) -> Seq<Seq<char>> {
    let all = lines(capture);
    if all.len() > TOKEN_SCAN_WINDOW {
        all.skip(all.len() - TOKEN_SCAN_WINDOW)
    } else {
        all
    }
}

/// The counts that an agent shows in the capture of its terminal.
pub open spec fn tokens_shown(workspace: Seq<char>, capture: Seq<char>) -> TokensShown {
    tokens_in(workspace, scanned_lines(capture).map_values(|l: Seq<char>| marks_in(l)))
}

/// The counts that an agent shows in the capture of its terminal.
pub fn parse_agent_tokens(workspace: &str, capture: &str) -> (r: AgentTokens)
    ensures
        r@ == tokens_shown(workspace@, capture@),
{
    let all = lines_of(capture);
    let start: usize = if all.len() > TOKEN_SCAN_WINDOW {
        all.len() - TOKEN_SCAN_WINDOW
    } else {
        0
    };
    let mut marks: Vec<LineMarks> = Vec::new();
    let ghost scanned = scanned_lines(capture@);
    let mut i: usize = start;
    proof {
        assert(scanned =~= texts(all@).skip(start as int));
        assert(all_marks(marks@) =~= scanned.take(0).map_values(|l: Seq<char>| marks_in(l)));
    }
    while i < all.len()
        invariant
            start <= i <= all@.len(),
            scanned == texts(all@).skip(start as int),
            all_marks(marks@) == scanned.take(i - start).map_values(|l: Seq<char>| marks_in(l)),
        decreases all@.len() - i,
    {
        let m = read_marks(all[i].as_str());
        proof {
            assert(scanned[i - start] == all@[i as int]@);
            assert(scanned.take(i + 1 - start).map_values(|l: Seq<char>| marks_in(l))
                =~= scanned.take(i - start).map_values(|l: Seq<char>| marks_in(l)).push(
                marks_in(scanned[i - start]),
            ));
            assert(all_marks(marks@.push(m)) =~= all_marks(marks@).push(m@));
        }
        marks.push(m);
        i = i + 1;
    }
    proof {
        assert(scanned.take(scanned.len() as int) =~= scanned);
    }
    collect_tokens(workspace, &marks)
}

} // verus!
