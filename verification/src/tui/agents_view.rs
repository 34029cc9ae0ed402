//! The list of agents as it is drawn.

use vstd::prelude::*;

use crate::keyed::TextMap;
use crate::proto::types::{AgentStatus, WorkspaceGitStatus, WorkspaceInfo};
use crate::proto::usage::WorkspaceTrend;
use crate::text::{number, number_of, repeat, repeat_char, same, trim, trimmed};
use crate::tui::cells::{
    column, gap, push_gap, push_gap_with, push_padded_span, push_padded_split_span, split_column,
};
use crate::tui::detail_view::{capture_of, capture_text};
use crate::tui::layout::{less, most};
use crate::tui::lines::{Line, SpanView};
use crate::tui::sidebar::{rows, AgentEntry, Row};
use crate::tui::state::{has_usage, model_fields, App, AppModel, Focus};
use crate::tui::tasks::referred;
use crate::tui::theme::{
    agent_status, bold, column_header, cost, disabled, git_state, git_state_style, idle, info,
    muted, plain, running, selection, severity, traffic_down, traffic_up, workspace, Severity,
    Style,
};
use crate::tui::tokens::{
    found_nothing, parse_agent_tokens, tokens_shown, AgentTokens, TokensShown,
};

verus! {

broadcast use vstd::string::group_string_axioms;

/// The widths of the columns of the list of agents.
#[derive(Debug, Clone, Copy, PartialEq, Eq, Structural)]
pub struct AgentColumns {
    pub name: usize,
    pub state: usize,
    pub up: usize,
    pub down: usize,
    pub cost: usize,
    pub info: usize,
}

impl AgentColumns {
    /// The columns of a pane. All but the last have fixed widths, smaller ones
    /// under 104 characters; the last takes what is left, at least 12.
    pub open spec fn of_width(width: int) -> AgentColumns {
        let narrow = width < 104;
        let name: int = if narrow { 34 } else { 44 };
        let state: int = if narrow { 8 } else { 11 };
        let up: int = if narrow { 5 } else { 7 };
        let cost: int = if narrow { 6 } else { 8 };
        let fixed = name + state + up + up + cost + 5;
        AgentColumns {
            name: name as usize,
            state: state as usize,
            up: up as usize,
            down: up as usize,
            cost: cost as usize,
            info: most(less(width, fixed), 12) as usize,
        }
    }

    /// The columns of a pane.
    pub fn fit(width: u16) -> (r: AgentColumns)
        ensures
            r == AgentColumns::of_width(width as int),
    {
        let narrow = width < 104;
        let name: usize = if narrow { 34 } else { 44 };
        let state: usize = if narrow { 8 } else { 11 };
        let up: usize = if narrow { 5 } else { 7 };
        let cost: usize = if narrow { 6 } else { 8 };
        let fixed: usize = name + state + up + up + cost + 5;
        let wide: usize = width as usize;
        let left: usize = if wide > fixed { wide - fixed } else { 0 };
        let info: usize = if left > 12 { left } else { 12 };
        AgentColumns { name, state, up, down: up, cost, info }
    }
}

/// The head of the list of agents.
pub open spec fn agents_head(cols: AgentColumns) -> Seq<SpanView> {
    Seq::<SpanView>::empty().push(column("NAME"@, cols.name as int, column_header())).push(
        gap(plain()),
    ).push(column("STATE"@, cols.state as int, column_header())).push(gap(plain())).push(
        column("UP"@, cols.up as int, traffic_up()),
    ).push(gap(plain())).push(column("DOWN"@, cols.down as int, traffic_down())).push(
        gap(plain()),
    ).push(column("COST"@, cols.cost as int, cost())).push(gap(plain())).push(
        column("INFO"@, cols.info as int, column_header()),
    )
}

/// The head of the list of agents.
pub fn agents_header(cols: &AgentColumns) -> (r: Line)
    ensures
        r@ == agents_head(*cols),
{
    let mut line = Line::new();
    push_padded_span(&mut line, "NAME", cols.name, column_header());
    push_gap(&mut line);
    push_padded_span(&mut line, "STATE", cols.state, column_header());
    push_gap(&mut line);
    push_padded_span(&mut line, "UP", cols.up, traffic_up());
    push_gap(&mut line);
    push_padded_span(&mut line, "DOWN", cols.down, traffic_down());
    push_gap(&mut line);
    push_padded_span(&mut line, "COST", cols.cost, cost());
    push_gap(&mut line);
    push_padded_span(&mut line, "INFO", cols.info, column_header());
    line
}

/// The name of a connection state.
#[verifier::allow_in_spec]
pub fn agent_status_str(status: AgentStatus) -> &'static str
    returns
        (match status {
            AgentStatus::Online => "online",
            AgentStatus::Offline => "offline",
            AgentStatus::Disconnected => "disconnected",
        }),
{
    match status {
        AgentStatus::Online => "online",
        AgentStatus::Offline => "offline",
        AgentStatus::Disconnected => "disconnected",
    }
}

/// Files that are changed, added or deleted.
pub open spec fn changed_files(git: WorkspaceGitStatus) -> int {
    git.modified + git.added + git.deleted
}

fn count_changed(git: &WorkspaceGitStatus) -> (r: i128)
    ensures
        r == changed_files(*git),
{
    git.modified as i128 + git.added as i128 + git.deleted as i128
}

/// The state of a repository: as told, or as the counts show it.
pub open spec fn git_state_text(git: WorkspaceGitStatus) -> Seq<char> {
    if trim(git.state@).len() > 0 {
        trim(git.state@)
    } else if changed_files(git) + git.untracked > 0 {
        "dirty"@
    } else {
        "clean"@
    }
}

/// The state of a repository.
pub fn normalized_git_state(git: &WorkspaceGitStatus) -> (r: String)
    ensures
        r@ == git_state_text(*git),
{
    let state = trimmed(git.state.as_str());
    if !state.as_str().is_empty() {
        return state;
    }
    if count_changed(git) + git.untracked as i128 > 0 {
        "dirty".to_owned()
    } else {
        "clean".to_owned()
    }
}

/// The state of a repository in a few characters.
pub open spec fn git_inline(git: WorkspaceGitStatus, wide: bool) -> Seq<char> {
    let state = git_state_text(git);
    if state == "non_git"@ {
        "non-git"@
    } else if state == "inaccessible"@ {
        "no access"@
    } else if state == "error"@ {
        "git err"@
    } else if state == "clean"@ && changed_files(git) == 0 && git.untracked == 0 {
        "clean"@
    } else if wide {
        "changed:"@ + number(changed_files(git)) + " ?"@ + number(git.untracked as int)
    } else {
        "~"@ + number(changed_files(git)) + " ?"@ + number(git.untracked as int)
    }
}

/// The state of a repository in a few characters.
pub fn format_git_status_inline(git: &WorkspaceGitStatus, wide: bool) -> (r: String)
    ensures
        r@ == git_inline(*git, wide),
{
    let state = normalized_git_state(git);
    if same(state.as_str(), "non_git") {
        return "non-git".to_owned();
    }
    if same(state.as_str(), "inaccessible") {
        return "no access".to_owned();
    }
    if same(state.as_str(), "error") {
        return "git err".to_owned();
    }
    let changed = count_changed(git);
    if same(state.as_str(), "clean") && changed == 0 && git.untracked == 0 {
        return "clean".to_owned();
    }
    let head = if wide { "changed:" } else { "~" };
    head.to_owned().concat(number_of(changed).as_str()).concat(" ?").concat(
        number_of(git.untracked as i128).as_str(),
    )
}

/// A prefix with the message of a repository, where it has one.
pub open spec fn with_git_message(prefix: Seq<char>, git: WorkspaceGitStatus) -> Seq<char> {
    if trim(git.message@).len() == 0 {
        prefix
    } else {
        prefix + ": "@ + trim(git.message@)
    }
}

/// A prefix with the message of a repository.
pub fn git_message(prefix: &str, git: &WorkspaceGitStatus) -> (r: String)
    ensures
        r@ == with_git_message(prefix@, *git),
{
    let message = trimmed(git.message.as_str());
    if message.as_str().is_empty() {
        prefix.to_owned()
    } else {
        prefix.to_owned().concat(": ").concat(message.as_str())
    }
}

/// The state of a repository with all counts; what changed in lines only where
/// something did.
pub open spec fn git_detail(git: WorkspaceGitStatus) -> Seq<char> {
    let state = git_state_text(git);
    if state == "non_git"@ {
        with_git_message("non-git"@, git)
    } else if state == "inaccessible"@ {
        with_git_message("inaccessible"@, git)
    } else if state == "error"@ {
        with_git_message("error"@, git)
    } else {
        let counts = state + " · modified "@ + number(git.modified as int) + " · added "@ + number(
            git.added as int,
        ) + " · deleted "@ + number(git.deleted as int) + " · untracked "@ + number(
            git.untracked as int,
        );
        if git.files_changed > 0 || git.insertions > 0 || git.deletions > 0 {
            counts + " · diff "@ + number(git.files_changed as int) + " files +"@ + number(
                git.insertions as int,
            ) + " -"@ + number(git.deletions as int)
        } else {
            counts
        }
    }
}

/// The state of a repository with all counts.
pub fn format_git_status_detail(git: &WorkspaceGitStatus) -> (r: String)
    ensures
        r@ == git_detail(*git),
{
    let state = normalized_git_state(git);
    if same(state.as_str(), "non_git") {
        return git_message("non-git", git);
    }
    if same(state.as_str(), "inaccessible") {
        return git_message("inaccessible", git);
    }
    if same(state.as_str(), "error") {
        return git_message("error", git);
    }
    let mut out = state.concat(" · modified ").concat(
        number_of(git.modified as i128).as_str(),
    ).concat(" · added ").concat(number_of(git.added as i128).as_str()).concat(
        " · deleted ",
    ).concat(number_of(git.deleted as i128).as_str()).concat(" · untracked ").concat(
        number_of(git.untracked as i128).as_str(),
    );
    if git.files_changed > 0 || git.insertions > 0 || git.deletions > 0 {
        out = out.concat(" · diff ").concat(number_of(git.files_changed as i128).as_str()).concat(
            " files +",
        ).concat(number_of(git.insertions as i128).as_str()).concat(" -").concat(
            number_of(git.deletions as i128).as_str(),
        );
    }
    out
}

/// Two repositories are in the same state.
pub open spec fn git_equal(a: WorkspaceGitStatus, b: WorkspaceGitStatus) -> bool {
    &&& a.state@ == b.state@
    &&& a.modified == b.modified
    &&& a.added == b.added
    &&& a.deleted == b.deleted
    &&& a.untracked == b.untracked
    &&& a.files_changed == b.files_changed
    &&& a.insertions == b.insertions
    &&& a.deletions == b.deletions
    &&& a.message@ == b.message@
}

fn same_git(a: &WorkspaceGitStatus, b: &WorkspaceGitStatus) -> (r: bool)
    ensures
        r == git_equal(*a, *b),
{
    a.state == b.state && a.modified == b.modified && a.added == b.added && a.deleted == b.deleted
        && a.untracked == b.untracked && a.files_changed == b.files_changed && a.insertions
        == b.insertions && a.deletions == b.deletions && a.message == b.message
}

/// The state of the repository that a workspace lies in.
pub open spec fn git_of(infos: TextMap<WorkspaceInfo>, workspace: Seq<char>) -> Option<
    WorkspaceGitStatus,
> {
    match infos.lookup(workspace) {
        Some(i) => i.git_status,
        None => None,
    }
}

/// The states of the repositories of the agents that stand directly under a
/// heading of level `level`, among the rows from `i` on. The next heading that is
/// not deeper ends them.
pub open spec fn child_statuses(
    all: Seq<Row>,
    infos: TextMap<WorkspaceInfo>,
    level: int,
    i: int,
) -> Seq<WorkspaceGitStatus>
    decreases all.len() - i,
{
    if i < 0 || i >= all.len() {
        Seq::empty()
    } else if all[i].group && all[i].level <= level {
        Seq::empty()
    } else if !all[i].group && all[i].level < level {
        Seq::empty()
    } else {
        let rest = child_statuses(all, infos, level, i + 1);
        if all[i].group || all[i].level > level + 1 {
            rest
        } else {
            match git_of(infos, all[i].workspace) {
                Some(git) => Seq::empty().push(git) + rest,
                None => rest,
            }
        }
    }
}

/// The states of the repositories of the agents that stand directly under a
/// heading.
#[verifier::loop_isolation(false)]
fn collect_statuses<'a>(
    entries: &Vec<AgentEntry>,
    infos: &'a TextMap<WorkspaceInfo>,
    level: usize,
    from: usize,
) -> (r: Vec<&'a WorkspaceGitStatus>)
    requires
        infos.wf(),
    ensures
        referred(r@) == child_statuses(rows(entries@), *infos, level as int, from as int),
{
    let mut out: Vec<&WorkspaceGitStatus> = Vec::new();
    let ghost all = rows(entries@);
    let ghost whole = child_statuses(all, *infos, level as int, from as int);
    let mut i: usize = from;
    proof {
        assert(referred(out@) + whole =~= whole);
    }
    while i < entries.len()
        invariant
            infos.wf(),
            all == rows(entries@),
            referred(out@) + child_statuses(all, *infos, level as int, i as int) == whole,
        decreases entries@.len() - i,
    {
        let child = &entries[i];
        proof {
            assert(all[i as int] == child@);
        }
        if child.group && child.level <= level {
            proof {
                assert(referred(out@) + Seq::empty() =~= referred(out@));
            }
            return out;
        }
        if !child.group && child.level < level {
            proof {
                assert(referred(out@) + Seq::empty() =~= referred(out@));
            }
            return out;
        }
        if !child.group && child.level - level <= 1 {
            match infos.get(child.workspace.as_str()) {
                Some(info) => match &info.git_status {
                    Some(git) => {
                        proof {
                            let rest = child_statuses(all, *infos, level as int, i + 1);
                            assert(referred(out@.push(git)) =~= referred(out@).push(*git));
                            assert(referred(out@) + (Seq::empty().push(*git) + rest) =~= referred(
                                out@,
                            ).push(*git) + rest);
                        }
                        out.push(git);
                    },
                    None => {},
                },
                None => {},
            }
        }
        i = i + 1;
    }
    proof {
        assert(referred(out@) + Seq::empty() =~= referred(out@));
    }
    out
}

/// All states are the same.
pub open spec fn all_equal(statuses: Seq<WorkspaceGitStatus>) -> bool {
    forall|i: int| 0 <= i < statuses.len() ==> git_equal(statuses[0], #[trigger] statuses[i])
}

/// What a heading says of the repositories of the agents directly under it:
/// their state where they share it, or that they differ.
pub open spec fn git_summary(s: AppModel, idx: int, wide: bool) -> Option<(Seq<char>, Style)> {
    if idx < 0 || idx >= s.agent_entries.len() || !s.agent_entries[idx].group {
        None
    } else {
        let statuses = child_statuses(
            s.agent_entries,
            s.workspace_infos,
            s.agent_entries[idx].level,
            idx + 1,
        );
        if statuses.len() == 0 {
            None
        } else if all_equal(statuses) {
            Some(
                (git_inline(statuses[0], wide), git_state_style(git_state_text(statuses[0]))),
            )
        } else {
            Some(("mixed"@, severity(Severity::Warning)))
        }
    }
}

/// The text and the style of something.
pub open spec fn styled_view(r: Option<(String, Style)>) -> Option<(Seq<char>, Style)> {
    match r {
        Some((text, style)) => Some((text@, style)),
        None => None,
    }
}

/// What a heading says of the repositories of the agents directly under it.
#[verifier::loop_isolation(false)]
pub fn group_git_summary(idx: usize, app: &App, wide: bool) -> (r: Option<(String, Style)>)
    requires
        app@.wf(),
    ensures
        styled_view(r) == git_summary(app@, idx as int, wide),
{
    proof {
        model_fields(*app);
    }
    if idx >= app.agent_entries.len() {
        return None;
    }
    let heading = &app.agent_entries[idx];
    proof {
        assert(app@.agent_entries[idx as int] == heading@);
    }
    if !heading.group {
        return None;
    }
    let statuses = collect_statuses(
        &app.agent_entries,
        &app.workspace_infos,
        heading.level,
        idx + 1,
    );
    let ghost told = referred(statuses@);
    if statuses.len() == 0 {
        return None;
    }
    proof {
        assert(told[0] == *statuses@[0]);
    }
    let mut i: usize = 1;
    while i < statuses.len()
        invariant
            1 <= i <= statuses@.len(),
            told == referred(statuses@),
            forall|j: int| 0 <= j < i ==> git_equal(told[0], #[trigger] told[j]),
        decreases statuses@.len() - i,
    {
        proof {
            assert(told[i as int] == *statuses@[i as int]);
            assert(told[0] == *statuses@[0]);
        }
        if !same_git(statuses[0], statuses[i]) {
            return Some(("mixed".to_owned(), severity(Severity::Warning)));
        }
        i = i + 1;
    }
    let git = statuses[0];
    let state = normalized_git_state(git);
    Some((format_git_status_inline(git, wide), git_state(state.as_str())))
}

/// Two spaces for each level.
pub open spec fn indent(level: int) -> Seq<char> {
    repeat(' ', 2 * level)
}

fn indent_text(level: usize) -> (r: String)
    ensures
        r@ == indent(level as int),
{
    let r = repeat_char(' ', level).concat(repeat_char(' ', level).as_str());
    proof {
        assert(r@ =~= indent(level as int));
    }
    r
}

/// The row of a heading.
pub open spec fn heading_line(s: AppModel, idx: int, row: Row, cols: AgentColumns) -> Seq<SpanView> {
    let label = indent(row.level) + row.label;
    let label_style = bold(workspace(row.level as usize));
    let first = match git_summary(s, idx, cols.name >= 44) {
        Some((summary, style)) => split_column(
            label,
            " git "@ + summary,
            cols.name as int,
            label_style,
            style,
        ),
        None => Seq::<SpanView>::empty().push(column(label, cols.name as int, label_style)),
    };
    first.push(gap(plain())).push(column(""@, cols.state as int, muted())).push(gap(plain())).push(
        column(""@, cols.up as int, muted()),
    ).push(gap(plain())).push(column(""@, cols.down as int, muted())).push(gap(plain())).push(
        column(""@, cols.cost as int, muted()),
    ).push(gap(plain())).push(column(""@, cols.info as int, muted()))
}

/// The row of a heading.
pub fn agent_group_row(idx: usize, entry: &AgentEntry, app: &App, cols: &AgentColumns) -> (r: Line)
    requires
        app@.wf(),
    ensures
        r@ == heading_line(app@, idx as int, entry@, *cols),
{
    let label = indent_text(entry.level).concat(entry.label.as_str());
    let label_style = bold(workspace(entry.level));
    let mut line = Line::new();
    match group_git_summary(idx, app, cols.name >= 44) {
        Some((summary, style)) => {
            let suffix = " git ".to_owned().concat(summary.as_str());
            push_padded_split_span(
                &mut line,
                label.as_str(),
                suffix.as_str(),
                cols.name,
                label_style,
                style,
            );
            proof {
                assert(line@ =~= split_column(
                    label@,
                    suffix@,
                    cols.name as int,
                    label_style,
                    style,
                ));
            }
        },
        None => {
            push_padded_span(&mut line, label.as_str(), cols.name, label_style);
        },
    }
    push_gap(&mut line);
    push_padded_span(&mut line, "", cols.state, muted());
    push_gap(&mut line);
    push_padded_span(&mut line, "", cols.up, muted());
    push_gap(&mut line);
    push_padded_span(&mut line, "", cols.down, muted());
    push_gap(&mut line);
    push_padded_span(&mut line, "", cols.cost, muted());
    push_gap(&mut line);
    push_padded_span(&mut line, "", cols.info, muted());
    line
}

/// What an agent's row shows of tokens and money.
#[derive(Debug, Clone)]
pub struct MetricCells {
    pub up: String,
    pub down: String,
    pub cost: String,
}

/// Where an agent's row has its counts from.
#[derive(Debug, Clone)]
pub enum MetricSource {
    /// The agent shows them at this moment.
    Live { up: String, down: String, cost: String },
    /// The daemon has added them up.
    Trend { input: i64, output: i64, total: i128 },
    /// There are none.
    Absent,
}

/// Where an agent's row has its counts from, as a value.
pub enum SourceView {
    Live { up: Seq<char>, down: Seq<char>, cost: Seq<char> },
    Trend { input: int, output: int, total: int },
    Absent,
}

impl View for MetricSource {
    type V = SourceView;

    open spec fn view(&self) -> SourceView {
        match *self {
            MetricSource::Live { up, down, cost } => SourceView::Live {
                up: up@,
                down: down@,
                cost: cost@,
            },
            MetricSource::Trend { input, output, total } => SourceView::Trend {
                input: input as int,
                output: output as int,
                total: total as int,
            },
            MetricSource::Absent => SourceView::Absent,
        }
    }
}

/// The counts come from what the agent shows, else from what the daemon has
/// added up, where that is something.
pub open spec fn source_of(live: TokensShown, trend: Option<WorkspaceTrend>) -> SourceView {
    if !found_nothing(live) {
        SourceView::Live {
            up: live.up,
            down: live.down,
            cost: if live.cost.len() == 0 {
                "-"@
            } else {
                live.cost
            },
        }
    } else if trend is Some && has_usage(trend->0) {
        SourceView::Trend {
            input: trend->0.total.input as int,
            output: trend->0.total.output as int,
            total: trend->0.total.cache_read + trend->0.total.cache_creation
                + trend->0.total.input,
        }
    } else {
        SourceView::Absent
    }
}

/// Where an agent's row has its counts from.
pub fn metric_source(live: &AgentTokens, trend: Option<&WorkspaceTrend>) -> (r: MetricSource)
    ensures
        r@ == source_of(
            live@,
            match trend {
                Some(t) => Some(*t),
                None => None,
            },
        ),
{
    if !live.is_empty() {
        let cost = if live.cost.as_str().is_empty() {
            "-".to_owned()
        } else {
            live.cost.clone()
        };
        return MetricSource::Live { up: live.up.clone(), down: live.down.clone(), cost };
    }
    match trend {
        Some(t) => if t.available && t.total.total() > 0 {
            MetricSource::Trend {
                input: t.total.input,
                output: t.total.output,
                total: t.total.cache_read as i128 + t.total.cache_creation as i128
                    + t.total.input as i128,
            }
        } else {
            MetricSource::Absent
        },
        None => MetricSource::Absent,
    }
}

/// Where the row of a workspace has its counts from: the last capture of its
/// terminal, else the usage that the daemon knows of it.
pub open spec fn row_source(s: AppModel, workspace: Seq<char>) -> SourceView {
    source_of(
        tokens_shown(workspace, capture_of(s, workspace)),
        s.usage_trends.lookup(workspace),
    )
}

/// Where each row has its counts from.
pub open spec fn sources_of(v: Seq<MetricSource>) -> Seq<SourceView> {
    v.map_values(|m: MetricSource| m@)
}

/// Where each row of the list of agents has its counts from.
pub fn metric_sources(app: &App) -> (r: Vec<MetricSource>)
    requires
        app@.wf(),
    ensures
        sources_of(r@) == app@.agent_entries.map_values(|row: Row| row_source(app@, row.workspace)),
{
    proof {
        model_fields(*app);
    }
    let ghost told = app@.agent_entries;
    let ghost source = |row: Row| row_source(app@, row.workspace);
    let mut out: Vec<MetricSource> = Vec::new();
    proof {
        assert(sources_of(out@) =~= told.take(0).map_values(source));
    }
    let mut i: usize = 0;
    while i < app.agent_entries.len()
        invariant
            i <= app.agent_entries@.len(),
            app@.wf(),
            told == app@.agent_entries,
            told == rows(app.agent_entries@),
            app@.usage_trends == app.usage_trends,
            source == (|row: Row| row_source(app@, row.workspace)),
            sources_of(out@) == told.take(i as int).map_values(source),
        decreases app.agent_entries@.len() - i,
    {
        let name = app.agent_entries[i].workspace.as_str();
        let live = parse_agent_tokens(name, capture_text(app, name));
        let found = metric_source(&live, app.usage_trends.get(name));
        proof {
            assert(told[i as int] == app.agent_entries@[i as int]@);
            assert(told.take(i + 1) =~= told.take(i as int).push(told[i as int]));
            assert(found@ == source(told[i as int]));
            assert(sources_of(out@.push(found)) =~= sources_of(out@).push(found@));
            assert(told.take(i + 1).map_values(source) =~= told.take(i as int).map_values(
                source,
            ).push(source(told[i as int])));
        }
        out.push(found);
        i = i + 1;
    }
    proof {
        assert(told.take(told.len() as int) =~= told);
    }
    out
}

/// A count with an arrow, or a dash where there is no count.
pub fn token_cell(raw: &str, arrow: char, formatted: &str) -> (r: String)
    ensures
        r@ == cell_with_arrow(raw@, arrow, formatted@),
{
    if raw.is_empty() {
        return "-".to_owned();
    }
    let mut r = String::new();
    r.push(arrow);
    r.append(formatted);
    proof {
        assert(r@ =~= seq![arrow] + formatted@);
    }
    r
}

/// A count with an arrow, or a dash where there is no count.
pub open spec fn cell_with_arrow(raw: Seq<char>, arrow: char, formatted: Seq<char>) -> Seq<char> {
    if raw.len() == 0 {
        "-"@
    } else {
        seq![arrow] + formatted
    }
}

/// What an agent's row shows of tokens and money, as text.
pub struct CellsView {
    pub up: Seq<char>,
    pub down: Seq<char>,
    pub cost: Seq<char>,
}

impl View for MetricCells {
    type V = CellsView;

    open spec fn view(&self) -> CellsView {
        CellsView { up: self.up@, down: self.down@, cost: self.cost@ }
    }
}

/// What a row shows of counts that are written `up`, `down` and `total`: arrows
/// before what was sent and received, then the money, or the total where it is
/// not known; dashes where nothing is known.
pub open spec fn cells_of(
    source: SourceView,
    up: Seq<char>,
    down: Seq<char>,
    total: Seq<char>,
) -> CellsView {
    match source {
        SourceView::Live { up: sent, down: received, cost } => CellsView {
            up: cell_with_arrow(sent, '↑', up),
            down: cell_with_arrow(received, '↓', down),
            cost,
        },
        SourceView::Trend { .. } => CellsView {
            up: "↑"@ + up,
            down: "↓"@ + down,
            cost: "Σ"@ + total,
        },
        SourceView::Absent => CellsView { up: "-"@, down: "-"@, cost: "-"@ },
    }
}

/// What a row shows of counts that are written `up`, `down` and `total`.
pub fn metric_cells(source: &MetricSource, up: &str, down: &str, total: &str) -> (r: MetricCells)
    ensures
        r@ == cells_of(source@, up@, down@, total@),
{
    match source {
        MetricSource::Live { up: sent, down: received, cost } => MetricCells {
            up: token_cell(sent.as_str(), '↑', up),
            down: token_cell(received.as_str(), '↓', down),
            cost: cost.clone(),
        },
        MetricSource::Trend { .. } => MetricCells {
            up: "↑".to_owned().concat(up),
            down: "↓".to_owned().concat(down),
            cost: "Σ".to_owned().concat(total),
        },
        MetricSource::Absent => MetricCells {
            up: "-".to_owned(),
            down: "-".to_owned(),
            cost: "-".to_owned(),
        },
    }
}

/// The style of a count; a dash is of second rank.
pub open spec fn count_style(raw: Seq<char>, style: Style) -> Style {
    if trim(raw) == "-"@ {
        muted()
    } else {
        style
    }
}

/// The style of a count.
pub fn metric_style(raw: &str, style: Style) -> (r: Style)
    ensures
        r == count_style(raw@, style),
{
    if same(trimmed(raw).as_str(), "-") {
        muted()
    } else {
        style
    }
}

/// What an agent does: at work, idle, or, without a session, how it is
/// connected.
pub open spec fn state_text(s: AppModel, row: Row, spinner: Seq<char>, now: u64) -> Seq<char> {
    if row.session_index is Some {
        if s.captures.recently_active(row.workspace, now) {
            spinner + " running"@
        } else {
            "idle"@
        }
    } else {
        match s.workspace_infos.lookup(row.workspace) {
            Some(i) => agent_status_str(i.status)@,
            None => "offline"@,
        }
    }
}

/// The style of what an agent does.
pub open spec fn state_style(s: AppModel, row: Row, now: u64) -> Style {
    if row.session_index is Some {
        if s.captures.recently_active(row.workspace, now) {
            running()
        } else {
            idle()
        }
    } else {
        match s.workspace_infos.lookup(row.workspace) {
            Some(i) => agent_status(i.status),
            None => disabled(),
        }
    }
}

/// What is said of an agent: how it differs from the configuration, else what it
/// says itself.
pub open spec fn info_text(s: AppModel, row: Row) -> Seq<char> {
    if row.reconcile.len() > 0 {
        row.reconcile
    } else {
        match s.workspace_infos.lookup(row.workspace) {
            Some(i) => i.status_text@,
            None => Seq::empty(),
        }
    }
}

/// The style of what is said of an agent.
pub open spec fn info_style(s: AppModel, row: Row) -> Style {
    if info_text(s, row).len() == 0 {
        muted()
    } else if row.reconcile.len() == 0 {
        info()
    } else {
        severity(Severity::Warning)
    }
}

/// The name column of an agent: the mark of the selection, the place in the
/// tree, whether there is a session, the label.
pub open spec fn name_text(selected: bool, row: Row) -> Seq<char> {
    (if selected { "▸"@ } else { " "@ }) + " "@ + indent(row.level) + (if row.session_index is Some {
        "●"@
    } else {
        "○"@
    }) + " "@ + row.label
}

/// The style of the name of an agent.
pub open spec fn name_style(row: Row) -> Style {
    if row.session_index is Some {
        workspace(row.level as usize)
    } else {
        disabled()
    }
}

/// `style`, or the style of the selected row.
pub open spec fn unless_selected(selected: Option<Style>, style: Style) -> Style {
    match selected {
        Some(s) => s,
        None => style,
    }
}

/// The row of an agent.
pub open spec fn agent_line(
    s: AppModel,
    idx: int,
    row: Row,
    cols: AgentColumns,
    spinner: Seq<char>,
    up: Seq<char>,
    down: Seq<char>,
    money: Seq<char>,
    now: u64,
) -> Seq<SpanView> {
    let is_selected = idx == s.selected_entry;
    let sel = if is_selected { Some(selection(s.focus == Focus::List)) } else { None };
    let between = gap(unless_selected(sel, plain()));
    Seq::<SpanView>::empty().push(
        column(name_text(is_selected, row), cols.name as int, unless_selected(sel, name_style(row))),
    ).push(between).push(
        column(
            state_text(s, row, spinner, now),
            cols.state as int,
            unless_selected(sel, state_style(s, row, now)),
        ),
    ).push(between).push(
        column(up, cols.up as int, unless_selected(sel, count_style(up, traffic_up()))),
    ).push(between).push(
        column(down, cols.down as int, unless_selected(sel, count_style(down, traffic_down()))),
    ).push(between).push(
        column(money, cols.cost as int, unless_selected(sel, count_style(money, cost()))),
    ).push(between).push(
        column(info_text(s, row), cols.info as int, unless_selected(sel, info_style(s, row))),
    )
}

fn pick(selected: Option<Style>, style: Style) -> (r: Style)
    ensures
        r == unless_selected(selected, style),
{
    match selected {
        Some(s) => s,
        None => style,
    }
}

/// What an agent does, and its style.
fn agent_state(app: &App, entry: &AgentEntry, spinner: &str, now: u64) -> (r: (String, Style))
    requires
        app@.wf(),
    ensures
        r.0@ == state_text(app@, entry@, spinner@, now),
        r.1 == state_style(app@, entry@, now),
{
    proof {
        model_fields(*app);
    }
    if entry.session_index.is_some() {
        if app.captures.is_recently_active(entry.workspace.as_str(), now) {
            (spinner.to_owned().concat(" running"), running())
        } else {
            ("idle".to_owned(), idle())
        }
    } else {
        match app.workspace_infos.get(entry.workspace.as_str()) {
            Some(i) => (agent_status_str(i.status).to_owned(), agent_status(i.status)),
            None => ("offline".to_owned(), disabled()),
        }
    }
}

/// What is said of an agent, and its style.
fn agent_info(app: &App, entry: &AgentEntry) -> (r: (String, Style))
    requires
        app@.wf(),
    ensures
        r.0@ == info_text(app@, entry@),
        r.1 == info_style(app@, entry@),
{
    proof {
        model_fields(*app);
    }
    let plain_row = entry.reconcile.as_str().is_empty();
    let text = if !plain_row {
        entry.reconcile.clone()
    } else {
        match app.workspace_infos.get(entry.workspace.as_str()) {
            Some(i) => i.status_text.clone(),
            None => String::new(),
        }
    };
    let style = if text.as_str().is_empty() {
        muted()
    } else if plain_row {
        info()
    } else {
        severity(Severity::Warning)
    };
    (text, style)
}

/// The row of an agent or of a heading.
pub fn agent_row(
    idx: usize,
    entry: &AgentEntry,
    app: &App,
    cols: &AgentColumns,
    spinner: &str,
    cells: &MetricCells,
    now: u64,
) -> (r: Line)
    requires
        app@.wf(),
    ensures
        r@ == if entry.group {
            heading_line(app@, idx as int, entry@, *cols)
        } else {
            agent_line(
                app@,
                idx as int,
                entry@,
                *cols,
                spinner@,
                cells.up@,
                cells.down@,
                cells.cost@,
                now,
            )
        },
{
    if entry.group {
        return agent_group_row(idx, entry, app, cols);
    }
    proof {
        model_fields(*app);
    }
    let live = entry.session_index.is_some();
    let is_selected = idx == app.selected_entry;
    let sel = if is_selected {
        Some(selection(app.focus == Focus::List))
    } else {
        None
    };
    let cursor = if is_selected { "▸" } else { " " };
    let marker = if live { "●" } else { "○" };
    let name = cursor.to_owned().concat(" ").concat(indent_text(entry.level).as_str()).concat(
        marker,
    ).concat(" ").concat(entry.label.as_str());
    let name_look = if live {
        workspace(entry.level)
    } else {
        disabled()
    };
    let (state, state_look) = agent_state(app, entry, spinner, now);
    let (said, said_look) = agent_info(app, entry);
    let gap_style = pick(sel, plain());
    let up_style = pick(sel, metric_style(cells.up.as_str(), traffic_up()));
    let down_style = pick(sel, metric_style(cells.down.as_str(), traffic_down()));
    let cost_style = pick(sel, metric_style(cells.cost.as_str(), cost()));
    let mut line = Line::new();
    push_padded_span(&mut line, name.as_str(), cols.name, pick(sel, name_look));
    push_gap_with(&mut line, gap_style);
    push_padded_span(&mut line, state.as_str(), cols.state, pick(sel, state_look));
    push_gap_with(&mut line, gap_style);
    push_padded_span(&mut line, cells.up.as_str(), cols.up, up_style);
    push_gap_with(&mut line, gap_style);
    push_padded_span(&mut line, cells.down.as_str(), cols.down, down_style);
    push_gap_with(&mut line, gap_style);
    push_padded_span(&mut line, cells.cost.as_str(), cols.cost, cost_style);
    push_gap_with(&mut line, gap_style);
    push_padded_span(&mut line, said.as_str(), cols.info, pick(sel, said_look));
    line
}

} // verus!
