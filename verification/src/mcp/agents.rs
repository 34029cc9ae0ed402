//! The tools that deal with agents: which there are, how they are doing, what
//! they use and how they are steered.

use vstd::prelude::*;

use crate::keyed::TextMap;
use crate::mcp::errors::{about, internal, invalid, quoted, ToolError};
use crate::mcp::requests::{
    AgentNameRequest, InterruptAgentRequest, ListAgentsRequest, SendKeysRequest,
    UsageTrendsRequest,
};
use crate::mcp::server::{text_view, Server};
use crate::order::{sort_stably, sorted, sorted_images, Ranked, Rule};
use crate::proto::payloads::{AgentLifecyclePayload, UsageTrendWorkspace, UsageTrendsPayload};
use crate::proto::types::{AgentStatus, LifecycleAction, WorkspaceInfo};
use crate::text::{
    before, before_is_an_order, begins, contains, count_of, decimal, has, is_before, is_one_of,
    join, join_all, join_range, lower, same, texts, to_lower, trim, trimmed, words, words_of,
};
use crate::time::calendar_text;

verus! {

broadcast use vstd::string::group_string_axioms;

/// A workspace as the configuration describes it.
#[derive(Debug, Clone)]
pub struct ConfiguredAgent {
    pub dir: String,
    pub description: String,
    /// The command that runs instead of a runtime; `none` for no command.
    pub agent: String,
    pub runtime: String,
    /// The proper name of the runtime, where it is a known one.
    pub known_runtime: Option<String>,
    /// The file that the runtime reads its instructions from.
    pub instruction_file: Option<String>,
    pub instructions: String,
}

/// The configuration of a project.
#[derive(Debug, Clone)]
pub struct AgentsConfig {
    pub project: String,
    pub workspaces: TextMap<ConfiguredAgent>,
}

/// What is known of an agent.
#[derive(Debug, Clone)]
pub struct AgentInfo {
    pub name: String,
    pub dir: String,
    pub description: Option<String>,
    pub runtime: Option<String>,
    pub launch_mode: &'static str,
    pub command: Option<String>,
    pub active: bool,
    pub state: &'static str,
    pub status: Option<&'static str>,
    pub status_text: Option<String>,
    pub connected_at: Option<String>,
    pub instruction_file: Option<String>,
    pub instructions_preview: Option<String>,
}

/// What is known of an agent, as a value.
pub struct AgentFacts {
    pub name: Seq<char>,
    pub dir: Seq<char>,
    pub description: Option<Seq<char>>,
    pub runtime: Option<Seq<char>>,
    pub launch_mode: Seq<char>,
    pub command: Option<Seq<char>>,
    pub active: bool,
    pub state: Seq<char>,
    pub status: Option<Seq<char>>,
    pub status_text: Option<Seq<char>>,
    pub connected_at: Option<Seq<char>>,
    pub instruction_file: Option<Seq<char>>,
    pub instructions_preview: Option<Seq<char>>,
}

/// The text of an optional string.
pub open spec fn opt_text(s: Option<String>) -> Option<Seq<char>> {
    match s {
        Some(t) => Some(t@),
        None => None,
    }
}

/// The text of an optional literal.
pub open spec fn opt_str(s: Option<&str>) -> Option<Seq<char>> {
    match s {
        Some(t) => Some(t@),
        None => None,
    }
}

impl View for AgentInfo {
    type V = AgentFacts;

    open spec fn view(&self) -> AgentFacts {
        AgentFacts {
            name: self.name@,
            dir: self.dir@,
            description: opt_text(self.description),
            runtime: opt_text(self.runtime),
            launch_mode: self.launch_mode@,
            command: opt_text(self.command),
            active: self.active,
            state: self.state@,
            status: opt_str(self.status),
            status_text: opt_text(self.status_text),
            connected_at: opt_text(self.connected_at),
            instruction_file: opt_text(self.instruction_file),
            instructions_preview: opt_text(self.instructions_preview),
        }
    }
}

/// What is known of agents.
pub open spec fn facts_of(agents: Seq<AgentInfo>) -> Seq<AgentFacts> {
    agents.map_values(|a: AgentInfo| a@)
}

/// What is known of a registered workspace: what was said of it last.
pub open spec fn registered(active: Seq<WorkspaceInfo>, name: Seq<char>) -> Option<WorkspaceInfo>
    decreases active.len(),
{
    if active.len() == 0 {
        None
    } else if active.last().name@ == name {
        Some(active.last())
    } else {
        registered(active.drop_last(), name)
    }
}

/// What is known of a registered workspace.
pub fn find_registered<'a>(active: &'a Vec<WorkspaceInfo>, name: &str) -> (r: Option<
    &'a WorkspaceInfo,
>)
    ensures
        match r {
            Some(ws) => registered(active@, name@) == Some(*ws),
            None => registered(active@, name@) is None,
        },
{
    let mut i: usize = active.len();
    proof {
        assert(active@.take(active@.len() as int) =~= active@);
    }
    while i > 0
        invariant
            i <= active@.len(),
            registered(active@, name@) == registered(active@.take(i as int), name@),
        decreases i,
    {
        proof {
            assert(active@.take(i as int).drop_last() =~= active@.take(i - 1));
            assert(active@.take(i as int).last() == active@[i - 1]);
        }
        if same(active[i - 1].name.as_str(), name) {
            return Some(&active[i - 1]);
        }
        i = i - 1;
    }
    None
}

/// The first words of instructions.
pub open spec fn preview_of(instructions: Seq<char>) -> Seq<char> {
    let all = words(trim(instructions));
    join(
        if all.len() > 24 {
            all.take(24)
        } else {
            all
        },
        " "@,
    )
}

/// The first words of instructions.
pub fn instruction_preview(instructions: &str) -> (r: String)
    ensures
        r@ == preview_of(instructions@),
{
    let text = trimmed(instructions);
    let all = words_of(text.as_str());
    let n: usize = if all.len() > 24 {
        24
    } else {
        all.len()
    };
    proof {
        assert(texts(all@).len() == all@.len());
        assert(texts(all@.subrange(0, n as int)) =~= if all@.len() > 24 {
            texts(all@).take(24)
        } else {
            texts(all@)
        });
    }
    join_range(&all, 0, n, " ")
}

/// The word for how the daemon sees an agent.
#[verifier::allow_in_spec]
pub fn status_name(status: AgentStatus) -> &'static str
    returns
        (match status {
            AgentStatus::Online => "online",
            AgentStatus::Offline => "offline",
            AgentStatus::Disconnected => "disconnected",
        }),
{
    match status {
        AgentStatus::Online => "online",
        AgentStatus::Offline => "offline",
        AgentStatus::Disconnected => "disconnected",
    }
}

/// A text, unless it is empty.
pub open spec fn if_any(text: Seq<char>) -> Option<Seq<char>> {
    if text.len() == 0 {
        None
    } else {
        Some(text)
    }
}

fn text_if_any(text: String) -> (r: Option<String>)
    ensures
        opt_text(r) == if_any(text@),
{
    if text.as_str().is_empty() {
        None
    } else {
        Some(text)
    }
}

/// An agent runs nothing, a command, or a runtime.
pub open spec fn runs_nothing(ws: ConfiguredAgent) -> bool {
    ws.agent@ == "none"@
}

/// An agent runs a command of its own.
pub open spec fn runs_command(ws: ConfiguredAgent) -> bool {
    !runs_nothing(ws) && trim(ws.agent@).len() > 0
}

/// An agent runs a runtime.
pub open spec fn runs_runtime(ws: ConfiguredAgent) -> bool {
    !runs_nothing(ws) && trim(ws.agent@).len() == 0
}

/// What is known of an agent: what is configured, and what the daemon says of it
/// where it is registered.
pub open spec fn agent_facts(
    name: Seq<char>,
    ws: ConfiguredAgent,
    active: Option<WorkspaceInfo>,
    idle: bool,
) -> AgentFacts {
    AgentFacts {
        name,
        dir: ws.dir@,
        description: if_any(ws.description@),
        runtime: if runs_runtime(ws) {
            Some(
                match ws.known_runtime {
                    Some(known) => known@,
                    None => ws.runtime@,
                },
            )
        } else {
            None
        },
        launch_mode: if runs_nothing(ws) {
            "manual"@
        } else if runs_command(ws) {
            "custom"@
        } else {
            "runtime"@
        },
        command: if runs_command(ws) {
            Some(ws.agent@)
        } else {
            None
        },
        active: active is Some,
        state: if active is None {
            "offline"@
        } else if idle {
            "idle"@
        } else {
            "running"@
        },
        status: match active {
            Some(a) => Some(status_name(a.status)@),
            None => None,
        },
        status_text: match active {
            Some(a) => if_any(a.status_text@),
            None => None,
        },
        connected_at: match active {
            Some(a) => match a.connected_at {
                Some(ts) => Some(calendar_text(ts.unix_secs(), ts.sub_nanos(), "%+"@)),
                None => None,
            },
            None => None,
        },
        instruction_file: if runs_runtime(ws) {
            opt_text(ws.instruction_file)
        } else {
            None
        },
        instructions_preview: if_any(preview_of(ws.instructions@)),
    }
}

fn clone_opt(s: &Option<String>) -> (r: Option<String>)
    ensures
        opt_text(r) == opt_text(*s),
{
    match s {
        Some(t) => Some(t.clone()),
        None => None,
    }
}

/// What is known of an agent.
pub fn agent_info(name: &str, ws: &ConfiguredAgent, active: Option<&WorkspaceInfo>, idle: bool) -> (r:
    AgentInfo)
    ensures
        r@ == agent_facts(
            name@,
            *ws,
            match active {
                Some(a) => Some(*a),
                None => None,
            },
            idle,
        ),
        active is None ==> r.state@ == "offline"@ && !r.active,
        active is Some && idle ==> r.state@ == "idle"@ && r.active,
        active is Some && !idle ==> r.state@ == "running"@ && r.active,
{
    let nothing = same(ws.agent.as_str(), "none");
    let command = !nothing && !trimmed(ws.agent.as_str()).as_str().is_empty();
    let runtime = !nothing && !command;
    AgentInfo {
        name: name.to_owned(),
        dir: ws.dir.clone(),
        description: text_if_any(ws.description.clone()),
        runtime: if runtime {
            match &ws.known_runtime {
                Some(known) => Some(known.clone()),
                None => Some(ws.runtime.clone()),
            }
        } else {
            None
        },
        launch_mode: if nothing {
            "manual"
        } else if command {
            "custom"
        } else {
            "runtime"
        },
        command: if command {
            Some(ws.agent.clone())
        } else {
            None
        },
        active: active.is_some(),
        state: if active.is_none() {
            "offline"
        } else if idle {
            "idle"
        } else {
            "running"
        },
        status: match active {
            Some(a) => Some(status_name(a.status)),
            None => None,
        },
        status_text: match active {
            Some(a) => text_if_any(a.status_text.clone()),
            None => None,
        },
        connected_at: match active {
            Some(a) => match a.connected_at {
                Some(ts) => Some(ts.rfc3339()),
                None => None,
            },
            None => None,
        },
        instruction_file: if runtime {
            clone_opt(&ws.instruction_file)
        } else {
            None
        },
        instructions_preview: text_if_any(instruction_preview(ws.instructions.as_str())),
    }
}

/// A text, in lower case, has the query within it.
pub open spec fn mentions(text: Seq<char>, query: Seq<char>) -> bool {
    contains(lower(text), query)
}

/// A text, where there is one, has the query within it.
pub open spec fn may_mention(text: Option<Seq<char>>, query: Seq<char>) -> bool {
    text matches Some(t) && mentions(t, query)
}

/// An agent answers to a query: its name, its description, its runtime, its
/// command or the start of its instructions has the query within it.
pub open spec fn answers_query(a: AgentFacts, query: Seq<char>) -> bool {
    ||| mentions(a.name, query)
    ||| may_mention(a.description, query)
    ||| may_mention(a.runtime, query)
    ||| may_mention(a.command, query)
    ||| may_mention(a.instructions_preview, query)
}

fn text_mentions(text: &str, query: &str) -> (r: bool)
    ensures
        r == mentions(text@, query@),
{
    has(to_lower(text).as_str(), query)
}

fn opt_mentions(text: &Option<String>, query: &str) -> (r: bool)
    ensures
        r == may_mention(opt_text(*text), query@),
{
    match text {
        Some(t) => text_mentions(t.as_str(), query),
        None => false,
    }
}

/// Whether an agent answers to a query.
pub fn matches_agent_query(a: &AgentInfo, query: &str) -> (r: bool)
    ensures
        r == answers_query(a@, query@),
{
    text_mentions(a.name.as_str(), query) || opt_mentions(&a.description, query) || opt_mentions(
        &a.runtime,
        query,
    ) || opt_mentions(&a.command, query) || opt_mentions(&a.instructions_preview, query)
}

/// Which agents are wanted.
pub struct AgentsWanted {
    pub active_only: bool,
    pub query: Seq<char>,
}

/// Which agents a request wants.
pub open spec fn agents_wanted(req: ListAgentsRequest) -> AgentsWanted {
    AgentsWanted {
        active_only: req.active_only,
        query: match req.query {
            Some(q) => lower(trim(q@)),
            None => Seq::empty(),
        },
    }
}

/// An agent is wanted.
pub open spec fn is_wanted(a: AgentFacts, w: AgentsWanted) -> bool {
    (w.active_only ==> a.active) && (w.query.len() > 0 ==> answers_query(a, w.query))
}

/// What is known of the agent at a place of the configuration.
pub open spec fn facts_at(
    workspaces: TextMap<ConfiguredAgent>,
    active: Seq<WorkspaceInfo>,
    idle: Seq<Seq<char>>,
    i: int,
) -> AgentFacts {
    let name = workspaces.keys@[i]@;
    agent_facts(name, workspaces.values@[i], registered(active, name), idle.contains(name))
}

/// What is known of those agents that are wanted, among the first of the
/// configuration, by name.
pub open spec fn wanted_agents(
    workspaces: TextMap<ConfiguredAgent>,
    active: Seq<WorkspaceInfo>,
    idle: Seq<Seq<char>>,
    w: AgentsWanted,
    n: int,
) -> Seq<AgentFacts>
    decreases n,
{
    if n <= 0 {
        Seq::empty()
    } else {
        let earlier = wanted_agents(workspaces, active, idle, w, n - 1);
        let a = facts_at(workspaces, active, idle, n - 1);
        if is_wanted(a, w) {
            earlier.push(a)
        } else {
            earlier
        }
    }
}

/// The agents of a project.
#[derive(Debug, Clone)]
pub struct AgentListing {
    pub project: String,
    pub config_path: String,
    pub agent_count: usize,
    pub active_count: usize,
    pub agents: Vec<AgentInfo>,
}

/// Agents are listed by name, each at most once.
pub proof fn agents_go_by_name(
    workspaces: TextMap<ConfiguredAgent>,
    active: Seq<WorkspaceInfo>,
    idle: Seq<Seq<char>>,
    w: AgentsWanted,
    n: int,
)
    requires
        workspaces.wf(),
        0 <= n <= workspaces.keys@.len(),
    ensures
        forall|i: int, j: int|
            0 <= i < j < wanted_agents(workspaces, active, idle, w, n).len() ==> before(
                (#[trigger] wanted_agents(workspaces, active, idle, w, n)[i]).name,
                (#[trigger] wanted_agents(workspaces, active, idle, w, n)[j]).name,
            ),
        forall|i: int|
            0 <= i < wanted_agents(workspaces, active, idle, w, n).len() ==> exists|k: int|
                0 <= k < n && (#[trigger] wanted_agents(workspaces, active, idle, w, n)[i]).name
                    == #[trigger] workspaces.keys@[k]@,
    decreases n,
{
    if n > 0 {
        agents_go_by_name(workspaces, active, idle, w, n - 1);
        let earlier = wanted_agents(workspaces, active, idle, w, n - 1);
        let now = wanted_agents(workspaces, active, idle, w, n);
        assert forall|i: int| 0 <= i < now.len() implies exists|k: int|
            0 <= k < n && (#[trigger] now[i]).name == #[trigger] workspaces.keys@[k]@ by {
            if i < earlier.len() {
                assert(now[i] == earlier[i]);
                let k = choose|k: int|
                    0 <= k < n - 1 && earlier[i].name == #[trigger] workspaces.keys@[k]@;
                assert(now[i].name == workspaces.keys@[k]@);
            } else {
                assert(now[i].name == workspaces.keys@[n - 1]@);
            }
        }
        assert forall|i: int, j: int| 0 <= i < j < now.len() implies before(
            (#[trigger] now[i]).name,
            (#[trigger] now[j]).name,
        ) by {
            assert(now[i] == earlier[i]);
            if j < earlier.len() {
                assert(now[j] == earlier[j]);
            } else {
                let k = choose|k: int|
                    0 <= k < n - 1 && earlier[i].name == #[trigger] workspaces.keys@[k]@;
                assert(now[j].name == workspaces.keys@[n - 1]@);
            }
        }
    }
}

/// Where the usage of a workspace is looked for.
pub struct TrendSource {
    pub workspace: Seq<char>,
    pub cwd: Seq<char>,
}

impl View for UsageTrendWorkspace {
    type V = TrendSource;

    open spec fn view(&self) -> TrendSource {
        TrendSource { workspace: self.workspace@, cwd: self.cwd@ }
    }
}

/// Where usage is looked for.
pub open spec fn sources_of(v: Seq<UsageTrendWorkspace>) -> Seq<TrendSource> {
    v.map_values(|w: UsageTrendWorkspace| w@)
}

/// Workspaces go by name.
impl Rule for TrendSource {
    open spec fn goes_before(&self, other: &Self) -> bool {
        before(self.workspace, other.workspace)
    }

    proof fn rule_is_strict_weak_order() {
        before_is_an_order();
        assert forall|a: Self, b: Self, c: Self|
            #![trigger a.goes_before(&c), a.goes_before(&b)]
            a.goes_before(&c) implies a.goes_before(&b) || b.goes_before(&c) by {
            assert(before(a.workspace, b.workspace) || before(b.workspace, a.workspace)
                || a.workspace == b.workspace);
        }
    }
}

/// Workspaces go by name.
impl Rule for UsageTrendWorkspace {
    open spec fn goes_before(&self, other: &Self) -> bool {
        before(self.workspace@, other.workspace@)
    }

    proof fn rule_is_strict_weak_order() {
        before_is_an_order();
        assert forall|a: Self, b: Self, c: Self|
            #![trigger a.goes_before(&c), a.goes_before(&b)]
            a.goes_before(&c) implies a.goes_before(&b) || b.goes_before(&c) by {
            assert(before(a.workspace@, b.workspace@) || before(b.workspace@, a.workspace@)
                || a.workspace@ == b.workspace@);
        }
    }
}

impl Ranked for UsageTrendWorkspace {
    fn is_ahead_of(&self, other: &Self) -> bool {
        is_before(self.workspace.as_str(), other.workspace.as_str())
    }
}

/// The names of workspaces.
pub open spec fn names_of(active: Seq<WorkspaceInfo>) -> Seq<Seq<char>> {
    active.map_values(|w: WorkspaceInfo| w.name@)
}

/// Where usage is looked for, in the order of the registry: each name counts
/// where it stands first, and a workspace without a directory is left out.
pub open spec fn each_source(active: Seq<WorkspaceInfo>) -> Seq<TrendSource>
    decreases active.len(),
{
    if active.len() == 0 {
        Seq::empty()
    } else {
        let earlier = active.drop_last();
        let last = active.last();
        if names_of(earlier).contains(last.name@) || trim(last.dir@).len() == 0 {
            each_source(earlier)
        } else {
            each_source(earlier).push(TrendSource { workspace: last.name@, cwd: trim(last.dir@) })
        }
    }
}

/// Where the usage of one workspace is looked for, by the registry.
pub open spec fn named_source(active: Seq<WorkspaceInfo>, name: Seq<char>) -> Option<TrendSource> {
    match registered(active, name) {
        Some(ws) => if trim(ws.dir@).len() > 0 {
            Some(TrendSource { workspace: name, cwd: trim(ws.dir@) })
        } else {
            None
        },
        None => None,
    }
}

/// Where usage is to be looked for, as far as the registry says.
#[derive(Debug, Clone)]
pub enum UsageSources {
    /// The registry says where.
    Known(Vec<UsageTrendWorkspace>),
    /// The configuration has to be asked for the one workspace that is wanted.
    AskConfig,
}

/// Where usage is to be looked for: for one workspace where a name is given, for
/// all of the registry where none is.
pub fn build_usage_trend_requests(active: &Vec<WorkspaceInfo>, workspace_name: &str) -> (r:
    UsageSources)
    ensures
        workspace_name@.len() == 0 ==> (r matches UsageSources::Known(v) && sources_of(v@)
            == sorted(each_source(active@))),
        workspace_name@.len() > 0 ==> match named_source(active@, workspace_name@) {
            Some(source) => r matches UsageSources::Known(v) && sources_of(v@) == seq![source],
            None => r is AskConfig,
        },
{
    if !workspace_name.is_empty() {
        if let Some(ws) = find_registered(active, workspace_name) {
            let cwd = trimmed(ws.dir.as_str());
            if !cwd.as_str().is_empty() {
                let mut v: Vec<UsageTrendWorkspace> = Vec::new();
                v.push(UsageTrendWorkspace { workspace: workspace_name.to_owned(), cwd });
                proof {
                    assert(sources_of(v@) =~= seq![named_source(active@, workspace_name@)->0]);
                }
                return UsageSources::Known(v);
            }
        }
        return UsageSources::AskConfig;
    }
    let mut out: Vec<UsageTrendWorkspace> = Vec::new();
    let mut seen: Vec<String> = Vec::new();
    let mut i: usize = 0;
    proof {
        assert(sources_of(out@) =~= each_source(active@.take(0)));
        assert(texts(seen@) =~= names_of(active@.take(0)));
    }
    while i < active.len()
        invariant
            i <= active@.len(),
            sources_of(out@) == each_source(active@.take(i as int)),
            texts(seen@) == names_of(active@.take(i as int)),
        decreases active@.len() - i,
    {
        let name = active[i].name.as_str();
        let cwd = trimmed(active[i].dir.as_str());
        proof {
            let now = active@.take(i + 1);
            assert(now.drop_last() =~= active@.take(i as int));
            assert(now.last() == active@[i as int]);
            assert(names_of(now) =~= names_of(now.drop_last()).push(name@));
        }
        if !is_one_of(name, &seen) && !cwd.as_str().is_empty() {
            let ghost pre = out@;
            out.push(UsageTrendWorkspace { workspace: name.to_owned(), cwd });
            proof {
                assert(sources_of(out@) =~= sources_of(pre).push(out@.last()@));
            }
        }
        let ghost before_push = seen@;
        seen.push(name.to_owned());
        proof {
            assert(texts(seen@) =~= texts(before_push).push(name@));
        }
        i = i + 1;
    }
    let ghost unsorted = out@;
    sort_stably(&mut out);
    proof {
        assert(active@.take(active@.len() as int) =~= active@);
        let f = |w: UsageTrendWorkspace| w@;
        assert forall|a: UsageTrendWorkspace, b: UsageTrendWorkspace|
            #![trigger f(a).goes_before(&f(b))]
            #![trigger a.goes_before(&b)]
            a.goes_before(&b) == f(a).goes_before(&f(b)) by {}
        sorted_images(out@, unsorted, f);
    }
    UsageSources::Known(out)
}

/// Where the usage of one workspace is looked for, by the configuration.
pub fn usage_requests_from_config(workspace_name: &str, cfg: &AgentsConfig, config_path: &str) -> (r:
    Result<Vec<UsageTrendWorkspace>, String>)
    requires
        cfg.workspaces.wf(),
    ensures
        match cfg.workspaces.lookup(workspace_name@) {
            Some(ws) => if trim(ws.dir@).len() > 0 {
                r matches Ok(v) && sources_of(v@) == seq![
                    TrendSource { workspace: workspace_name@, cwd: trim(ws.dir@) },
                ]
            } else {
                r matches Err(e) && e@ == "workspace "@ + quoted(workspace_name@)
                    + " not found in active registry or "@ + config_path@
            },
            None => r matches Err(e) && e@ == "workspace "@ + quoted(workspace_name@)
                + " not found in active registry or "@ + config_path@,
        },
{
    if let Some(ws) = cfg.workspaces.get(workspace_name) {
        let cwd = trimmed(ws.dir.as_str());
        if !cwd.as_str().is_empty() {
            let mut v: Vec<UsageTrendWorkspace> = Vec::new();
            v.push(UsageTrendWorkspace { workspace: workspace_name.to_owned(), cwd });
            proof {
                assert(sources_of(v@) =~= seq![
                    TrendSource { workspace: workspace_name@, cwd: trim(ws.dir@) },
                ]);
            }
            return Ok(v);
        }
    }
    Err(about("workspace ", workspace_name, " not found in active registry or ").concat(config_path))
}

/// Which usage is wanted.
#[derive(Debug, Clone)]
pub struct UsageQuery {
    pub workspace: String,
    pub since_minutes: i64,
    pub bucket_minutes: i64,
}

impl UsageQuery {
    /// What the daemon is asked.
    pub fn payload(&self, workspaces: Vec<UsageTrendWorkspace>) -> (r: UsageTrendsPayload)
        ensures
            r.workspaces == workspaces,
            r.since_minutes == self.since_minutes,
            r.bucket_minutes == self.bucket_minutes,
    {
        UsageTrendsPayload {
            workspaces,
            since_minutes: self.since_minutes,
            bucket_minutes: self.bucket_minutes,
        }
    }
}

/// A number of minutes, where a positive one is given.
pub open spec fn minutes_or(minutes: Option<i64>, default: i64) -> i64 {
    match minutes {
        Some(m) => if m > 0 {
            m
        } else {
            default
        },
        None => default,
    }
}

fn positive_or(minutes: Option<i64>, default: i64) -> (r: i64)
    ensures
        r == minutes_or(minutes, default),
{
    match minutes {
        Some(m) => if m > 0 {
            m
        } else {
            default
        },
        None => default,
    }
}

/// The project that a tool works on: the one that is named, which has to be an
/// absolute path; the one that the configuration belongs to; or the one that the
/// server runs in.
pub fn resolve_project_dir(project_dir: Option<&str>, config_root: Option<&str>, current: &str) -> (r:
    Result<String, String>)
    ensures
        match project_dir {
            Some(raw) => if raw@.len() > 0 && raw@[0] == '/' {
                r matches Ok(p) && p@ == raw@
            } else {
                r matches Err(e) && e@ == "project_dir must be absolute, got "@ + quoted(raw@)
            },
            None => r matches Ok(p) && p@ == match config_root {
                Some(root) => root@,
                None => current@,
            },
        },
{
    if let Some(raw) = project_dir {
        proof {
            reveal_strlit("/");
            reveal_strlit("");
            assert("/"@.len() == 1);
            if raw@.len() > 0 && raw@[0] == '/' {
                assert(raw@.take(1) =~= "/"@);
            } else if raw@.len() > 0 {
                assert(raw@.take(1)[0] == raw@[0]);
            }
        }
        if !begins(raw, "/") {
            let e = about("project_dir must be absolute, got ", raw, "");
            proof {
                assert(e@ =~= "project_dir must be absolute, got "@ + quoted(raw@));
            }
            return Err(e);
        }
        return Ok(raw.to_owned());
    }
    match config_root {
        Some(root) => Ok(root.to_owned()),
        None => Ok(current.to_owned()),
    }
}

/// What is said of a workspace that has no session.
pub fn not_running(name: &str) -> (r: ToolError)
    ensures
        r@ == internal("Workspace "@ + quoted(name@) + " is not running"@),
{
    ToolError::internal_error(about("Workspace ", name, " is not running"))
}

/// What is said when an interrupt could not be sent.
pub fn interrupt_failed(name: &str, error: &str) -> (r: ToolError)
    ensures
        r@ == internal("Failed to interrupt "@ + quoted(name@) + ": "@ + error@),
{
    ToolError::internal_error(about("Failed to interrupt ", name, ": ").concat(error))
}

/// What is said when an interrupt was sent.
pub fn interrupt_sent(name: &str) -> (r: String)
    ensures
        r@ == "Interrupt sent to "@ + quoted(name@),
{
    proof {
        reveal_strlit("");
    }
    let r = about("Interrupt sent to ", name, "");
    proof {
        assert(r@ =~= "Interrupt sent to "@ + quoted(name@));
    }
    r
}

/// What is said when keys could not be sent.
pub fn keys_failed(workspace: &str, error: &str) -> (r: ToolError)
    ensures
        r@ == internal("Failed to send keys to "@ + quoted(workspace@) + ": "@ + error@),
{
    ToolError::internal_error(about("Failed to send keys to ", workspace, ": ").concat(error))
}

/// What is said when keys were sent.
pub fn keys_sent(workspace: &str, keys: &Vec<String>) -> (r: String)
    ensures
        r@ == "Sent "@ + decimal(keys@.len()) + " key(s) to "@ + quoted(workspace@) + ": "@ + join(
            texts(keys@),
            " "@,
        ),
{
    let before = "Sent ".to_owned().concat(count_of(keys.len()).as_str()).concat(" key(s) to ");
    about(before.as_str(), workspace, ": ").concat(join_all(keys, " ").as_str())
}

impl Server {
    /// The agents of a project that are wanted. `idle` names those of the
    /// registered ones that wait for input.
    pub fn list_agents(
        &self,
        req: &ListAgentsRequest,
        cfg: &AgentsConfig,
        config_path: &str,
        active: &Vec<WorkspaceInfo>,
        idle: &Vec<String>,
    ) -> (r: AgentListing)
        requires
            cfg.workspaces.wf(),
        ensures
            r.project@ == cfg.project@,
            r.config_path@ == config_path@,
            facts_of(r.agents@) == wanted_agents(
                cfg.workspaces,
                active@,
                texts(idle@),
                agents_wanted(*req),
                cfg.workspaces.keys@.len() as int,
            ),
            r.agent_count == r.agents@.len(),
            r.active_count == active@.len(),
    {
        let query = match &req.query {
            Some(q) => to_lower(trimmed(q.as_str()).as_str()),
            None => String::new(),
        };
        let ghost w = agents_wanted(*req);
        let names = &cfg.workspaces.keys;
        let mut agents: Vec<AgentInfo> = Vec::new();
        let mut i: usize = 0;
        proof {
            assert(query@ =~= w.query);
            assert(facts_of(agents@) =~= Seq::empty());
        }
        while i < names.len()
            invariant
                i <= names@.len(),
                names == cfg.workspaces.keys,
                cfg.workspaces.wf(),
                w == agents_wanted(*req),
                query@ == w.query,
                facts_of(agents@) == wanted_agents(
                    cfg.workspaces,
                    active@,
                    texts(idle@),
                    w,
                    i as int,
                ),
            decreases names@.len() - i,
        {
            let name = names[i].as_str();
            let entry = find_registered(active, name);
            let info = agent_info(name, &cfg.workspaces.values[i], entry, is_one_of(name, idle));
            proof {
                assert(info@ == facts_at(cfg.workspaces, active@, texts(idle@), i as int));
            }
            if !(req.active_only && !info.active) && (query.as_str().is_empty()
                || matches_agent_query(&info, query.as_str())) {
                let ghost pre = agents@;
                agents.push(info);
                proof {
                    assert(facts_of(agents@) =~= facts_of(pre).push(info@));
                }
            }
            i = i + 1;
        }
        AgentListing {
            project: cfg.project.clone(),
            config_path: config_path.to_owned(),
            agent_count: agents.len(),
            active_count: active.len(),
            agents,
        }
    }

    /// Starts, stops or restarts an agent.
    pub fn agent_lifecycle(&self, name: String, action: LifecycleAction, config_path: &str) -> (r:
        AgentLifecyclePayload)
        ensures
            r.config_path@ == config_path@,
            r.name == name,
            r.action == action,
    {
        AgentLifecyclePayload { config_path: config_path.to_owned(), name, action }
    }

    /// Starts an agent.
    pub fn start_agent(&self, req: AgentNameRequest, config_path: &str) -> (r:
        AgentLifecyclePayload)
        ensures
            r.config_path@ == config_path@,
            r.name == req.name,
            r.action == LifecycleAction::Start,
    {
        self.agent_lifecycle(req.name, LifecycleAction::Start, config_path)
    }

    /// Stops an agent.
    pub fn stop_agent(&self, req: AgentNameRequest, config_path: &str) -> (r:
        AgentLifecyclePayload)
        ensures
            r.config_path@ == config_path@,
            r.name == req.name,
            r.action == LifecycleAction::Stop,
    {
        self.agent_lifecycle(req.name, LifecycleAction::Stop, config_path)
    }

    /// Restarts an agent.
    pub fn restart_agent(&self, req: AgentNameRequest, config_path: &str) -> (r:
        AgentLifecyclePayload)
        ensures
            r.config_path@ == config_path@,
            r.name == req.name,
            r.action == LifecycleAction::Restart,
    {
        self.agent_lifecycle(req.name, LifecycleAction::Restart, config_path)
    }

    /// The workspace that an interrupt goes to.
    pub fn interrupt_agent(&self, req: &InterruptAgentRequest) -> (r: Result<String, ToolError>)
        ensures
            text_view(r) == if trim(req.name@).len() == 0 {
                Err(invalid("name is required"@))
            } else {
                Ok(trim(req.name@))
            },
    {
        let name = trimmed(req.name.as_str());
        if name.as_str().is_empty() {
            return Err(ToolError::invalid_params_str("name is required"));
        }
        Ok(name)
    }

    /// The workspace that keys go to.
    pub fn send_keys(&self, req: &SendKeysRequest) -> (r: Result<String, ToolError>)
        ensures
            text_view(r) == if trim(req.workspace@).len() == 0 {
                Err(invalid("workspace is required"@))
            } else if req.keys@.len() == 0 {
                Err(invalid("keys must contain at least one entry"@))
            } else {
                Ok(trim(req.workspace@))
            },
    {
        let workspace = trimmed(req.workspace.as_str());
        if workspace.as_str().is_empty() {
            return Err(ToolError::invalid_params_str("workspace is required"));
        }
        if req.keys.len() == 0 {
            return Err(ToolError::invalid_params_str("keys must contain at least one entry"));
        }
        Ok(workspace)
    }

    /// Which usage is wanted: by default that of the last three hours, in steps
    /// of five minutes.
    pub fn get_usage_trends(&self, req: &UsageTrendsRequest) -> (r: UsageQuery)
        ensures
            r.workspace@ == match req.workspace {
                Some(ws) => trim(ws@),
                None => Seq::empty(),
            },
            r.since_minutes == minutes_or(req.since_minutes, 180),
            r.bucket_minutes == minutes_or(req.bucket_minutes, 5),
    {
        UsageQuery {
            workspace: match &req.workspace {
                Some(ws) => trimmed(ws.as_str()),
                None => String::new(),
            },
            since_minutes: positive_or(req.since_minutes, 180),
            bucket_minutes: positive_or(req.bucket_minutes, 5),
        }
    }

    /// The configuration that the tools go by: the one that the daemon has put
    /// together, where it does so, and the base otherwise. `state` is what the
    /// daemon said, if it answered: whether it does so, and where it put it.
    pub fn resolve_tool_config_path(&self, base: String, state: Option<(bool, &str)>) -> (r: String)
        ensures
            r@ == match state {
                Some((enabled, effective)) => if enabled && trim(effective@).len() > 0 {
                    effective@
                } else {
                    base@
                },
                None => base@,
            },
    {
        if let Some((enabled, effective)) = state {
            if enabled && !trimmed(effective).as_str().is_empty() {
                return effective.to_owned();
            }
        }
        base
    }
}

} // verus!
