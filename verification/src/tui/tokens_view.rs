//! Token usage as it is drawn.

use vstd::prelude::*;

use crate::order::{sort_stably, sorted, stable_sort_is_sorted, Ranked, Rule};
use crate::proto::usage::{AgentTrend, UsageBucket, WorkspaceTrend};
use crate::text::{
    before, before_is_an_order, count_of, decimal, is_before, number, number_of, pad, padded,
    strip_prefixes, without_prefixes,
};
use crate::time::{calendar_text, Timestamp};
use crate::tui::layout::{
    add16, compute_viewport, further, least, less, sub16, viewport, Rect, Viewport,
};
use crate::tui::lines::{line_if, one, two, Line, Page, SpanView};
use crate::tui::pane::no_viewport;
use crate::tui::state::{has_usage, model_fields, App, AppModel, Focus};
use crate::tui::tasks::{clipped, referred, sorted_references, truncate};
use crate::tui::theme::{accent, muted, plain, selection, severity, strong, Severity, Style};

verus! {

broadcast use vstd::string::group_string_axioms;

/// Usage is listed by the names of the workspaces.
impl Rule for WorkspaceTrend {
    open spec fn goes_before(&self, other: &Self) -> bool {
        before(self.workspace@, other.workspace@)
    }

    proof fn rule_is_strict_weak_order() {
        before_is_an_order();
        assert forall|a: Self, b: Self, c: Self|
            #![trigger a.goes_before(&c), a.goes_before(&b)]
            a.goes_before(&c) implies a.goes_before(&b) || b.goes_before(&c) by {
            assert(before(a.workspace@, b.workspace@) || before(b.workspace@, a.workspace@)
                || a.workspace@ == b.workspace@);
        }
    }
}

impl Ranked for WorkspaceTrend {
    fn is_ahead_of(&self, other: &Self) -> bool {
        is_before(self.workspace.as_str(), other.workspace.as_str())
    }
}

/// The workspaces with usage, as they come.
pub open spec fn used(trends: Seq<WorkspaceTrend>) -> Seq<WorkspaceTrend>
    decreases trends.len(),
{
    if trends.len() == 0 {
        Seq::empty()
    } else if has_usage(trends.last()) {
        used(trends.drop_last()).push(trends.last())
    } else {
        used(trends.drop_last())
    }
}

/// The rows of the list of usage: the workspaces with usage, by name.
pub open spec fn usage_listed(s: AppModel) -> Seq<WorkspaceTrend> {
    sorted(used(s.usage_trends.values@))
}

/// The rows of the list of usage.
pub fn usage_rows_of<'a>(app: &'a App) -> (r: Vec<&'a WorkspaceTrend>)
    ensures
        referred(r@) == usage_listed(app@),
        r@.len() == usage_listed(app@).len(),
{
    proof {
        model_fields(*app);
    }
    let trends = &app.usage_trends.values;
    let mut out: Vec<&WorkspaceTrend> = Vec::new();
    let mut i: usize = 0;
    proof {
        assert(referred(out@) =~= used(trends@.take(0)));
    }
    while i < trends.len()
        invariant
            i <= trends@.len(),
            referred(out@) == used(trends@.take(i as int)),
        decreases trends@.len() - i,
    {
        let t = &trends[i];
        proof {
            assert(trends@.take(i + 1).drop_last() =~= trends@.take(i as int));
            assert(referred(out@.push(t)) =~= referred(out@).push(*t));
        }
        if t.available && t.total.total() > 0 {
            out.push(t);
        }
        i = i + 1;
    }
    let ghost unsorted = out@;
    sort_stably(&mut out);
    proof {
        assert(trends@.take(trends@.len() as int) =~= trends@);
        sorted_references(out@, unsorted);
        stable_sort_is_sorted(referred(out@), referred(unsorted));
    }
    out
}

/// The name of a model without that of its vendor.
pub open spec fn model_name(model: Seq<char>) -> Seq<char> {
    without_prefixes(without_prefixes(model, "anthropic/"@), "openai/"@)
}

/// The name of a model without that of its vendor.
pub fn short_model(model: &str) -> (r: String)
    ensures
        r@ == model_name(model@),
{
    strip_prefixes(strip_prefixes(model, "anthropic/").as_str(), "openai/")
}

/// How long ago something happened; after a day, the day.
pub open spec fn last_seen(now: Timestamp, ts: Timestamp) -> Seq<char> {
    let secs = now.seconds_from(ts);
    if secs < 0 {
        "just now"@
    } else if secs < 60 {
        number(secs) + "s ago"@
    } else if secs < 3600 {
        number(secs / 60) + "m ago"@
    } else if secs < 86400 {
        number(secs / 3600) + "h ago"@
    } else {
        calendar_text(ts.unix_secs(), ts.sub_nanos(), "%Y-%m-%d"@)
    }
}

/// How long ago something happened; after a day, the day.
pub fn format_last_activity(now: Timestamp, ts: Timestamp) -> (r: String)
    ensures
        r@ == last_seen(now, ts),
{
    let secs = now.seconds_since(&ts);
    if secs < 0 {
        return "just now".to_owned();
    }
    if secs < 60 {
        return number_of(secs as i128).concat("s ago");
    }
    if secs < 3600 {
        return number_of((secs / 60) as i128).concat("m ago");
    }
    if secs < 86400 {
        return number_of((secs / 3600) as i128).concat("h ago");
    }
    ts.date()
}

/// The first count that is not zero.
pub open spec fn first_count(series: Seq<u64>) -> Option<u64>
    decreases series.len(),
{
    if series.len() == 0 {
        None
    } else if series[0] > 0 {
        Some(series[0])
    } else {
        first_count(series.drop_first())
    }
}

/// The last count that is not zero.
pub open spec fn last_count(series: Seq<u64>) -> Option<u64>
    decreases series.len(),
{
    if series.len() == 0 {
        None
    } else if series.last() > 0 {
        Some(series.last())
    } else {
        last_count(series.drop_last())
    }
}

/// The style of a series of counts: a warning where it has grown.
pub open spec fn trend_style(series: Seq<u64>) -> Style {
    match (first_count(series), last_count(series)) {
        (Some(first), Some(last)) => if last > first {
            severity(Severity::Warning)
        } else if last < first {
            severity(Severity::Success)
        } else {
            accent()
        },
        _ => muted(),
    }
}

/// The style of a series of counts.
pub fn token_trend_style(series: &Vec<u64>) -> (r: Style)
    ensures
        r == trend_style(series@),
{
    let n = series.len();
    let mut i: usize = 0;
    proof {
        assert(series@.skip(0) =~= series@);
    }
    while i < n && series[i] == 0
        invariant
            i <= n == series@.len(),
            first_count(series@) == first_count(series@.skip(i as int)),
        decreases n - i,
    {
        proof {
            assert(series@.skip(i as int).drop_first() =~= series@.skip(i + 1));
        }
        i = i + 1;
    }
    if i == n {
        return muted();
    }
    let mut j: usize = n;
    proof {
        assert(series@.take(n as int) =~= series@);
        assert(first_count(series@) == Some(series@[i as int]));
    }
    while j > i + 1 && series[j - 1] == 0
        invariant
            i < j <= n,
            n == series@.len(),
            last_count(series@) == last_count(series@.take(j as int)),
        decreases j,
    {
        proof {
            assert(series@.take(j as int).drop_last() =~= series@.take(j - 1));
        }
        j = j - 1;
    }
    let first = series[i];
    let last = series[j - 1];
    proof {
        assert(series@.take(j as int).last() == last);
        assert(last_count(series@) == Some(last));
    }
    if last > first {
        severity(Severity::Warning)
    } else if last < first {
        severity(Severity::Success)
    } else {
        accent()
    }
}

/// What a stretch of time counts for in a series: all tokens, but nothing below
/// zero or beyond what can be drawn.
pub open spec fn bucket_count(b: UsageBucket) -> u64 {
    if b.totals.sum() < 0 {
        0
    } else if b.totals.sum() > u64::MAX {
        u64::MAX
    } else {
        b.totals.sum() as u64
    }
}

/// The series of a workspace.
pub fn trend_series(trend: &WorkspaceTrend) -> (r: Vec<u64>)
    ensures
        r@ == trend.buckets@.map_values(|b: UsageBucket| bucket_count(b)),
{
    let mut out: Vec<u64> = Vec::new();
    let mut i: usize = 0;
    while i < trend.buckets.len()
        invariant
            i <= trend.buckets@.len(),
            out@ =~= trend.buckets@.take(i as int).map_values(|b: UsageBucket| bucket_count(b)),
        decreases trend.buckets@.len() - i,
    {
        let total = trend.buckets[i].totals.total();
        let count: u64 = if total < 0 {
            0
        } else if total > u64::MAX as i128 {
            u64::MAX
        } else {
            total as u64
        };
        out.push(count);
        i = i + 1;
    }
    proof {
        assert(trend.buckets@.take(trend.buckets@.len() as int) =~= trend.buckets@);
    }
    out
}

/// The turns within stretches of time, summed up in 64 bits.
pub open spec fn bucket_turns(start: i64, buckets: Seq<UsageBucket>) -> i64
    decreases buckets.len(),
{
    if buckets.len() == 0 {
        start
    } else {
        bucket_turns(start, buckets.drop_last()).wrapping_add(buckets.last().turns)
    }
}

/// The turns of all agents, summed up in 64 bits.
pub open spec fn agent_turns(agents: Seq<AgentTrend>) -> i64
    decreases agents.len(),
{
    if agents.len() == 0 {
        0
    } else {
        bucket_turns(agent_turns(agents.drop_last()), agents.last().buckets@)
    }
}

fn count_turns(agents: &Vec<AgentTrend>) -> (r: i64)
    ensures
        r == agent_turns(agents@),
{
    let mut sum: i64 = 0;
    let mut i: usize = 0;
    while i < agents.len()
        invariant
            i <= agents@.len(),
            sum == agent_turns(agents@.take(i as int)),
        decreases agents@.len() - i,
    {
        let buckets = &agents[i].buckets;
        let ghost start = sum;
        let mut j: usize = 0;
        while j < buckets.len()
            invariant
                j <= buckets@.len(),
                sum == bucket_turns(start, buckets@.take(j as int)),
            decreases buckets@.len() - j,
        {
            proof {
                assert(buckets@.take(j + 1).drop_last() =~= buckets@.take(j as int));
            }
            sum = sum.wrapping_add(buckets[j].turns);
            j = j + 1;
        }
        proof {
            assert(buckets@.take(buckets@.len() as int) =~= buckets@);
            assert(agents@.take(i + 1).drop_last() =~= agents@.take(i as int));
        }
        i = i + 1;
    }
    proof {
        assert(agents@.take(agents@.len() as int) =~= agents@);
    }
    sum
}

/// The turns as they are shown.
pub open spec fn turns_text(agents: Seq<AgentTrend>) -> Seq<char> {
    if agent_turns(agents) > 0 {
        number(agent_turns(agents) as int)
    } else {
        "-"@
    }
}

/// The model of the first agent that names one.
pub open spec fn first_model(agents: Seq<AgentTrend>) -> Seq<char>
    decreases agents.len(),
{
    if agents.len() == 0 {
        "-"@
    } else if agents[0].latest_model@.len() > 0 {
        agents[0].latest_model@
    } else {
        first_model(agents.drop_first())
    }
}

/// The model that a workspace used last.
pub open spec fn model_of_trend(trend: WorkspaceTrend) -> Seq<char> {
    if trend.latest_model@.len() > 0 {
        trend.latest_model@
    } else {
        first_model(trend.agents@)
    }
}

fn latest_model(trend: &WorkspaceTrend) -> (r: String)
    ensures
        r@ == model_of_trend(*trend),
{
    if !trend.latest_model.as_str().is_empty() {
        return trend.latest_model.clone();
    }
    let agents = &trend.agents;
    let mut i: usize = 0;
    proof {
        assert(agents@.skip(0) =~= agents@);
    }
    while i < agents.len()
        invariant
            i <= agents@.len(),
            trend.latest_model@.len() == 0,
            agents@ == trend.agents@,
            first_model(agents@) == first_model(agents@.skip(i as int)),
        decreases agents@.len() - i,
    {
        if !agents[i].latest_model.as_str().is_empty() {
            return agents[i].latest_model.clone();
        }
        proof {
            assert(agents@.skip(i as int).drop_first() =~= agents@.skip(i + 1));
        }
        i = i + 1;
    }
    "-".to_owned()
}

/// The counts of one workspace as they are shown.
#[derive(Debug, Clone)]
pub struct TokenCells {
    pub input: String,
    pub output: String,
    pub cache: String,
    pub cache_read: String,
    pub cache_creation: String,
    pub total: String,
}

/// The counts of one workspace.
#[derive(Debug, Clone, Copy, PartialEq, Eq, Structural)]
pub struct TokenCounts {
    pub input: i64,
    pub output: i64,
    pub cache: i128,
    pub cache_read: i64,
    pub cache_creation: i64,
    pub total: i128,
}

/// The counts that the row of a workspace shows.
pub fn token_counts(trend: &WorkspaceTrend) -> (r: TokenCounts)
    ensures
        r.input == trend.total.input,
        r.output == trend.total.output,
        r.cache == trend.total.cache_read + trend.total.cache_creation,
        r.cache_read == trend.total.cache_read,
        r.cache_creation == trend.total.cache_creation,
        r.total == trend.total.sum(),
{
    TokenCounts {
        input: trend.total.input,
        output: trend.total.output,
        cache: trend.total.cache_read as i128 + trend.total.cache_creation as i128,
        cache_read: trend.total.cache_read,
        cache_creation: trend.total.cache_creation,
        total: trend.total.total(),
    }
}

/// The text of the row of a workspace.
pub open spec fn token_row_text(
    trend: WorkspaceTrend,
    cells: TokenCells,
    narrow: bool,
    now: Timestamp,
) -> Seq<char> {
    let last = match trend.last_activity {
        Some(ts) => last_seen(now, ts),
        None => "-"@,
    };
    if narrow {
        " "@ + pad(clipped(trend.workspace@, 24), 24) + " "@ + pad(cells.total@, 9) + " "@ + pad(
            last,
            12,
        )
    } else {
        " "@ + pad(clipped(trend.workspace@, 24), 24) + " "@ + pad(
            clipped(model_name(model_of_trend(trend)), 14),
            14,
        ) + " "@ + pad(cells.input@, 9) + " "@ + pad(cells.output@, 9) + " "@ + pad(cells.cache@, 9)
            + " "@ + pad(turns_text(trend.agents@), 7) + " "@ + pad(last, 12)
    }
}

/// The text of the row of a workspace.
fn text_of_row(trend: &WorkspaceTrend, cells: &TokenCells, narrow: bool, now: Timestamp) -> (r:
    String)
    ensures
        r@ == token_row_text(*trend, *cells, narrow, now),
{
    let last = match &trend.last_activity {
        Some(ts) => format_last_activity(now, *ts),
        None => "-".to_owned(),
    };
    let name = padded(truncate(trend.workspace.as_str(), 24).as_str(), 24);
    if narrow {
        " ".to_owned().concat(name.as_str()).concat(" ").concat(
            padded(cells.total.as_str(), 9).as_str(),
        ).concat(" ").concat(padded(last.as_str(), 12).as_str())
    } else {
        let model = truncate(short_model(latest_model(trend).as_str()).as_str(), 14);
        let turns = count_turns(&trend.agents);
        let turns_shown = if turns > 0 {
            number_of(turns as i128)
        } else {
            "-".to_owned()
        };
        " ".to_owned().concat(name.as_str()).concat(" ").concat(
            padded(model.as_str(), 14).as_str(),
        ).concat(" ").concat(padded(cells.input.as_str(), 9).as_str()).concat(" ").concat(
            padded(cells.output.as_str(), 9).as_str(),
        ).concat(" ").concat(padded(cells.cache.as_str(), 9).as_str()).concat(" ").concat(
            padded(turns_shown.as_str(), 7).as_str(),
        ).concat(" ").concat(padded(last.as_str(), 12).as_str())
    }
}

/// The largest total of the workspaces.
pub open spec fn largest_total(rows: Seq<WorkspaceTrend>) -> int
    decreases rows.len(),
{
    if rows.len() == 0 {
        0
    } else if rows.last().total.sum() > largest_total(rows.drop_last()) {
        rows.last().total.sum()
    } else {
        largest_total(rows.drop_last())
    }
}

fn most_used(rows: &Vec<&WorkspaceTrend>) -> (r: i128)
    ensures
        r == largest_total(referred(rows@)),
        0 <= r <= 4 * i64::MAX,
{
    let ghost all = referred(rows@);
    let mut largest: i128 = 0;
    let mut i: usize = 0;
    while i < rows.len()
        invariant
            i <= rows@.len(),
            all == referred(rows@),
            largest == largest_total(all.take(i as int)),
            0 <= largest <= 4 * i64::MAX,
        decreases rows@.len() - i,
    {
        let total = rows[i].total.total();
        proof {
            assert(all.take(i + 1).drop_last() =~= all.take(i as int));
            assert(all.take(i + 1).last() == *rows@[i as int]);
        }
        if total > largest {
            largest = total;
        }
        i = i + 1;
    }
    proof {
        assert(all.take(all.len() as int) =~= all);
    }
    largest
}

/// The style of the row of a workspace: a warning from four fifths of the
/// largest total on.
pub open spec fn token_row_style(
    trend: WorkspaceTrend,
    largest: int,
    selected: bool,
    focused: bool,
) -> Style {
    if selected {
        selection(focused)
    } else if largest > 0 && 5 * trend.total.sum() >= 4 * largest {
        severity(Severity::Warning)
    } else {
        plain()
    }
}

/// Why no usage is listed.
pub open spec fn no_usage_hint(s: AppModel) -> Seq<char> {
    if !s.daemon_running {
        "  (daemon offline — start it with `ax up`)"@
    } else if s.workspace_dirs.keys@.len() == 0 {
        "  (no workspaces in config — add one to .ax/config.yaml)"@
    } else if s.last_usage_refresh is None {
        "  (collecting usage…)"@
    } else {
        "  (no token usage recorded yet — run an agent to produce a transcript)"@
    }
}

fn hint_without_usage(app: &App) -> (r: &'static str)
    ensures
        r@ == no_usage_hint(app@),
{
    proof {
        model_fields(*app);
    }
    if !app.daemon_running {
        "  (daemon offline — start it with `ax up`)"
    } else if app.workspace_dirs.keys.len() == 0 {
        "  (no workspaces in config — add one to .ax/config.yaml)"
    } else if app.last_usage_refresh.is_none() {
        "  (collecting usage…)"
    } else {
        "  (no token usage recorded yet — run an agent to produce a transcript)"
    }
}

/// What stands above the list of usage.
#[verifier::allow_in_spec]
pub fn usage_caption(narrow: bool) -> &'static str
    returns
        (if narrow {
            " last 24h · compact token usage"
        } else {
            " last 24h · ▁▂▃▄▅▆▇ = rolling usage per 5-min bucket"
        }),
{
    if narrow {
        " last 24h · compact token usage"
    } else {
        " last 24h · ▁▂▃▄▅▆▇ = rolling usage per 5-min bucket"
    }
}

/// The names of the columns of the list of usage.
pub open spec fn usage_columns(narrow: bool) -> Seq<char> {
    if narrow {
        " "@ + pad("WORKSPACE"@, 24) + " "@ + pad("TOTAL"@, 9) + " "@ + pad("LAST"@, 12)
            + "  TREND"@
    } else {
        " "@ + pad("WORKSPACE"@, 24) + " "@ + pad("MODEL"@, 14) + " "@ + pad("INPUT"@, 9) + " "@
            + pad("OUTPUT"@, 9) + " "@ + pad("CACHE"@, 9) + " "@ + pad("TURNS"@, 7) + " "@ + pad(
            "LAST"@,
            12,
        ) + "  TREND"@
    }
}

fn column_names(narrow: bool) -> (r: String)
    ensures
        r@ == usage_columns(narrow),
{
    if narrow {
        " ".to_owned().concat(padded("WORKSPACE", 24).as_str()).concat(" ").concat(
            padded("TOTAL", 9).as_str(),
        ).concat(" ").concat(padded("LAST", 12).as_str()).concat("  TREND")
    } else {
        " ".to_owned().concat(padded("WORKSPACE", 24).as_str()).concat(" ").concat(
            padded("MODEL", 14).as_str(),
        ).concat(" ").concat(padded("INPUT", 9).as_str()).concat(" ").concat(
            padded("OUTPUT", 9).as_str(),
        ).concat(" ").concat(padded("CACHE", 9).as_str()).concat(" ").concat(
            padded("TURNS", 7).as_str(),
        ).concat(" ").concat(padded("LAST", 12).as_str()).concat("  TREND")
    }
}

/// The row of a workspace: text, and a series to be drawn beside it.
#[derive(Debug, Clone)]
pub struct TokenRow {
    pub line: Line,
    pub series: Vec<u64>,
    pub style: Style,
}

/// What the row of a workspace shows.
pub struct TokenRowView {
    pub line: Seq<SpanView>,
    pub series: Seq<u64>,
    pub style: Style,
}

impl View for TokenRow {
    type V = TokenRowView;

    open spec fn view(&self) -> TokenRowView {
        TokenRowView { line: self.line@, series: self.series@, style: self.style }
    }
}

impl TokenRow {
    /// The series has nothing to draw: no count in it is above zero.
    pub fn is_flat(&self) -> (r: bool)
        ensures
            r == (first_count(self.series@) is None),
    {
        let n = self.series.len();
        let mut i: usize = 0;
        proof {
            assert(self.series@.skip(0) =~= self.series@);
        }
        while i < n
            invariant
                i <= n == self.series@.len(),
                first_count(self.series@) == first_count(self.series@.skip(i as int)),
            decreases n - i,
        {
            if self.series[i] > 0 {
                return false;
            }
            proof {
                assert(self.series@.skip(i as int).drop_first() =~= self.series@.skip(i + 1));
            }
            i = i + 1;
        }
        true
    }
}

/// The row of a workspace.
pub open spec fn token_row(
    trend: WorkspaceTrend,
    cells: TokenCells,
    largest: int,
    narrow: bool,
    width: int,
    selected: bool,
    focused: bool,
    now: Timestamp,
) -> TokenRowView {
    let series = trend.buckets@.map_values(|b: UsageBucket| bucket_count(b));
    TokenRowView {
        line: one(
            clipped(token_row_text(trend, cells, narrow, now), width),
            token_row_style(trend, largest, selected, focused),
        ),
        series,
        style: trend_style(series),
    }
}

fn row_of(
    trend: &WorkspaceTrend,
    cells: &TokenCells,
    largest: i128,
    narrow: bool,
    width: usize,
    selected: bool,
    focused: bool,
    now: Timestamp,
) -> (r: TokenRow)
    requires
        0 <= largest <= 4 * i64::MAX,
    ensures
        r@ == token_row(
            *trend,
            *cells,
            largest as int,
            narrow,
            width as int,
            selected,
            focused,
            now,
        ),
{
    let style = if selected {
        selection(focused)
    } else if largest > 0 && 5 * trend.total.total() >= 4 * largest {
        severity(Severity::Warning)
    } else {
        plain()
    };
    let text = text_of_row(trend, cells, narrow, now);
    let series = trend_series(trend);
    let look = token_trend_style(&series);
    TokenRow { line: Line::one(truncate(text.as_str(), width), style), series, style: look }
}

/// What the list of usage shows, and where.
#[derive(Debug, Clone)]
pub struct TokensPane {
    pub head: Page,
    pub head_area: Rect,
    pub rows: Vec<TokenRow>,
    pub text_area: Rect,
    pub series_area: Rect,
    pub list_area: Rect,
    pub viewport: Viewport,
}

/// What the list of usage shows, and where.
pub struct TokensPaneView {
    pub head: Seq<Seq<SpanView>>,
    pub head_area: Rect,
    pub rows: Seq<TokenRowView>,
    pub text_area: Rect,
    pub series_area: Rect,
    pub list_area: Rect,
    pub viewport: Viewport,
}

/// What rows show.
pub open spec fn token_row_views(rows: Seq<TokenRow>) -> Seq<TokenRowView> {
    rows.map_values(|r: TokenRow| r@)
}

impl View for TokensPane {
    type V = TokensPaneView;

    open spec fn view(&self) -> TokensPaneView {
        TokensPaneView {
            head: self.head@,
            head_area: self.head_area,
            rows: token_row_views(self.rows@),
            text_area: self.text_area,
            series_area: self.series_area,
            list_area: self.list_area,
            viewport: self.viewport,
        }
    }
}

/// A list of usage without rows.
pub open spec fn only_head(head: Seq<Seq<SpanView>>, area: Rect) -> TokensPaneView {
    let nothing = Rect { height: 0, ..area };
    TokensPaneView {
        head,
        head_area: area,
        rows: Seq::empty(),
        text_area: nothing,
        series_area: nothing,
        list_area: nothing,
        viewport: no_viewport(),
    }
}

fn pane_of_head(head: Page, area: Rect) -> (r: TokensPane)
    ensures
        r@ == only_head(head@, area),
{
    let nothing = Rect { x: area.x, y: area.y, width: area.width, height: 0 };
    let r = TokensPane {
        head,
        head_area: area,
        rows: Vec::new(),
        text_area: nothing,
        series_area: nothing,
        list_area: nothing,
        viewport: no_viewport(),
    };
    proof {
        assert(token_row_views(r.rows@) =~= Seq::empty());
    }
    r
}

/// The list of usage. The counts of the listed workspaces are given as `cells`,
/// in the order of the list.
pub open spec fn tokens_shown(
    s: AppModel,
    area: Rect,
    cells: Seq<TokenCells>,
    now: Timestamp,
) -> TokensPaneView {
    let rows = usage_listed(s);
    let n = rows.len() as int;
    let narrow = area.width < 96;
    let caption = one(usage_caption(narrow)@, muted());
    if n == 0 {
        only_head(
            Seq::<Seq<SpanView>>::empty().push(one(no_usage_hint(s), muted())),
            area,
        )
    } else if area.height <= 2 {
        only_head(Seq::<Seq<SpanView>>::empty().push(caption), area)
    } else {
        let list = Rect {
            y: further(area.y as int, 2) as u16,
            height: (area.height - 2) as u16,
            ..area
        };
        let selected = least(s.tokens_cursor.index as int, n - 1);
        let v = viewport(n, selected, list.height as int);
        let content = v.beside_scrollbar(list);
        let width = least(if narrow { 48 } else { 94 }, less(content.width as int, 12));
        TokensPaneView {
            head: Seq::<Seq<SpanView>>::empty().push(caption).push(
                one(usage_columns(narrow), muted()),
            ),
            head_area: Rect { height: 2, ..area },
            rows: Seq::new(
                v.visible as nat,
                |i: int|
                    token_row(
                        rows[v.start + i],
                        cells[v.start + i],
                        largest_total(rows),
                        narrow,
                        width,
                        v.start + i == selected,
                        s.focus == Focus::List,
                        now,
                    ),
            ),
            text_area: Rect { width: width as u16, ..content },
            series_area: Rect {
                x: further(content.x as int, width) as u16,
                width: (content.width - width) as u16,
                ..content
            },
            list_area: list,
            viewport: v,
        }
    }
}

/// The list of usage.
#[verifier::loop_isolation(false)]
pub fn draw_tokens(app: &App, area: Rect, cells: &Vec<TokenCells>, now: Timestamp) -> (r: TokensPane)
    requires
        cells@.len() == usage_listed(app@).len(),
    ensures
        r@ == tokens_shown(app@, area, cells@, now),
{
    proof {
        model_fields(*app);
    }
    let trends = usage_rows_of(app);
    let ghost listed = usage_listed(app@);
    let n = trends.len();
    let narrow = area.width < 96;
    let mut head = Page::new();
    if n == 0 {
        head.push_str(hint_without_usage(app), muted());
        return pane_of_head(head, area);
    }
    head.push_str(usage_caption(narrow), muted());
    if area.height <= 2 {
        return pane_of_head(head, area);
    }
    head.push_one(column_names(narrow), muted());
    let list = Rect {
        x: area.x,
        y: add16(area.y, 2),
        width: area.width,
        height: area.height - 2,
    };
    let selected = if app.tokens_cursor.index < n - 1 {
        app.tokens_cursor.index
    } else {
        n - 1
    };
    let v = compute_viewport(n, selected, list.height as usize);
    let content = v.content_area(list);
    let wanted: u16 = if narrow {
        48
    } else {
        94
    };
    let room = sub16(content.width, 12);
    let width = if wanted < room {
        wanted
    } else {
        room
    };
    let largest = most_used(&trends);
    let focused = app.focus == Focus::List;
    let ghost row_at = |i: int|
        token_row(
            listed[v.start + i],
            cells@[v.start + i],
            largest_total(listed),
            narrow,
            width as int,
            v.start + i == selected,
            app@.focus == Focus::List,
            now,
        );
    let mut rows: Vec<TokenRow> = Vec::new();
    let mut i: usize = v.start;
    proof {
        assert(token_row_views(rows@) =~= Seq::new(0, row_at));
    }
    while i < v.end
        invariant
            v.start <= i <= v.end <= n,
            token_row_views(rows@) == Seq::new((i - v.start) as nat, row_at),
        decreases v.end - i,
    {
        let trend = trends[i];
        proof {
            assert(referred(trends@)[i as int] == *trends@[i as int]);
        }
        let row = row_of(
            trend,
            &cells[i],
            largest,
            narrow,
            width as usize,
            i == selected,
            focused,
            now,
        );
        let ghost pre = rows@;
        rows.push(row);
        proof {
            assert(row@ == row_at(i - v.start));
            assert(token_row_views(rows@) =~= token_row_views(pre).push(row@));
            assert(token_row_views(rows@) =~= Seq::new((i + 1 - v.start) as nat, row_at));
        }
        i = i + 1;
    }
    TokensPane {
        head,
        head_area: Rect { x: area.x, y: area.y, width: area.width, height: 2 },
        rows,
        text_area: Rect { x: content.x, y: content.y, width, height: content.height },
        series_area: Rect {
            x: add16(content.x, width),
            y: content.y,
            width: content.width - width,
            height: content.height,
        },
        list_area: list,
        viewport: v,
    }
}

/// The detail of a workspace with usage.
pub open spec fn trend_detail(trend: WorkspaceTrend, cells: TokenCells, now: Timestamp) -> Seq<
    Seq<SpanView>,
> {
    (Seq::<Seq<SpanView>>::empty().push(
        two("workspace  "@, muted(), trend.workspace@, strong()),
    ) + line_if(
        trend.latest_model@.len() > 0,
        two("model      "@, muted(), model_name(trend.latest_model@), plain()),
    )).push(two("input      "@, muted(), cells.input@, plain())).push(
        two("output     "@, muted(), cells.output@, plain()),
    ).push(two("cache read "@, muted(), cells.cache_read@, plain())).push(
        two("cache creat"@, muted(), cells.cache_creation@, plain()),
    ) + (match trend.last_activity {
        Some(ts) => Seq::<Seq<SpanView>>::empty().push(
            two("last active"@, muted(), last_seen(now, ts), plain()),
        ),
        None => Seq::empty(),
    }) + Seq::<Seq<SpanView>>::empty().push(
        two(
            "buckets    "@,
            muted(),
            decimal(trend.buckets@.len()) + " × "@ + number(trend.bucket_minutes as int)
                + "m window"@,
            plain(),
        ),
    )
}

fn detail_of_trend(trend: &WorkspaceTrend, cells: &TokenCells, now: Timestamp) -> (r: Page)
    ensures
        r@ == trend_detail(*trend, *cells, now),
{
    let mut page = Page::new();
    page.push_two("workspace  ", muted(), trend.workspace.clone(), strong());
    page.push_if(
        !trend.latest_model.as_str().is_empty(),
        Line::two(
            "model      ".to_owned(),
            muted(),
            short_model(trend.latest_model.as_str()),
            plain(),
        ),
    );
    page.push_two("input      ", muted(), cells.input.clone(), plain());
    page.push_two("output     ", muted(), cells.output.clone(), plain());
    page.push_two("cache read ", muted(), cells.cache_read.clone(), plain());
    page.push_two("cache creat", muted(), cells.cache_creation.clone(), plain());
    let mut seen = Page::new();
    if let Some(ts) = &trend.last_activity {
        seen.push_two("last active", muted(), format_last_activity(now, *ts), plain());
    }
    page.append(seen);
    let mut span_of_time = Page::new();
    span_of_time.push_two(
        "buckets    ",
        muted(),
        count_of(trend.buckets.len()).concat(" × ").concat(
            number_of(trend.bucket_minutes as i128).as_str(),
        ).concat("m window"),
        plain(),
    );
    page.append(span_of_time);
    page
}

/// The detail half of the body while usage is listed.
pub open spec fn tokens_detail_shown(s: AppModel, cells: Seq<TokenCells>, now: Timestamp) -> Seq<
    Seq<SpanView>,
> {
    let rows = usage_listed(s);
    let at = least(s.tokens_cursor.index as int, rows.len() - 1);
    if rows.len() == 0 {
        Seq::<Seq<SpanView>>::empty().push(one("  (no token activity yet)"@, muted()))
    } else {
        trend_detail(rows[at], cells[at], now)
    }
}

/// The detail half of the body while usage is listed.
pub fn draw_tokens_detail(app: &App, cells: &Vec<TokenCells>, now: Timestamp) -> (r: Page)
    requires
        cells@.len() == usage_listed(app@).len(),
    ensures
        r@ == tokens_detail_shown(app@, cells@, now),
{
    proof {
        model_fields(*app);
    }
    let rows = usage_rows_of(app);
    let n = rows.len();
    if n == 0 {
        let mut page = Page::new();
        page.push_str("  (no token activity yet)", muted());
        return page;
    }
    let at = if app.tokens_cursor.index < n - 1 {
        app.tokens_cursor.index
    } else {
        n - 1
    };
    proof {
        assert(referred(rows@)[at as int] == *rows@[at as int]);
    }
    detail_of_trend(rows[at], &cells[at], now)
}

} // verus!
