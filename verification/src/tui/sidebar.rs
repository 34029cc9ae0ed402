//! The rows of the list of agents: the sessions that run, placed in the tree of
//! projects.

use vstd::prelude::*;

use crate::config::{
    config_orchestrator_name, forest_depth, has_orchestrator, is_in_tree, orchestrator_of,
    root_orchestrator_visible, shown_name, tree_depth, tree_depth_in_forest, tree_names,
    ProjectNode, WorkspaceRef,
};
use crate::keyed::TextMap;
use crate::text::{before, before_is_an_order, chars_of, same, split, split_text, texts, texts_push};
use crate::tmux::sessions::SessionInfo;

verus! {

broadcast use {vstd::seq_lib::group_seq_properties, vstd::string::group_string_axioms};

/// One row: a heading, or an agent with the session that it runs in.
#[derive(Debug, Clone, PartialEq, Eq)]
pub struct AgentEntry {
    pub label: String,
    pub workspace: String,
    pub session_index: Option<usize>,
    pub level: usize,
    pub group: bool,
    pub reconcile: String,
}

/// What a row shows.
pub struct Row {
    pub label: Seq<char>,
    pub workspace: Seq<char>,
    pub session_index: Option<usize>,
    pub level: int,
    pub group: bool,
    pub reconcile: Seq<char>,
}

impl View for AgentEntry {
    type V = Row;

    open spec fn view(&self) -> Row {
        Row {
            label: self.label@,
            workspace: self.workspace@,
            session_index: self.session_index,
            level: self.level as int,
            group: self.group,
            reconcile: self.reconcile@,
        }
    }
}

/// What rows show.
pub open spec fn rows(entries: Seq<AgentEntry>) -> Seq<Row> {
    entries.map_values(|e: AgentEntry| e@)
}

/// A heading.
pub open spec fn heading(label: Seq<char>, level: int) -> Row {
    Row {
        label,
        workspace: Seq::empty(),
        session_index: None,
        level,
        group: true,
        reconcile: Seq::empty(),
    }
}

/// An agent.
pub open spec fn agent(
    label: Seq<char>,
    workspace: Seq<char>,
    session_index: Option<usize>,
    level: int,
    reconcile: Seq<char>,
) -> Row {
    Row { label, workspace, session_index, level, group: false, reconcile }
}

impl AgentEntry {
    /// A heading.
    pub fn group(label: String, level: usize) -> (r: AgentEntry)
        ensures
            r@ == heading(label@, level as int),
    {
        AgentEntry {
            label,
            workspace: String::new(),
            session_index: None,
            level,
            group: true,
            reconcile: String::new(),
        }
    }

    /// An agent.
    pub fn leaf(
        label: String,
        workspace: String,
        session_index: Option<usize>,
        level: usize,
        reconcile: String,
    ) -> (r: AgentEntry)
        ensures
            r@ == agent(label@, workspace@, session_index, level as int, reconcile@),
    {
        AgentEntry { label, workspace, session_index, level, group: false, reconcile }
    }
}

/// Adds a row.
fn add_row(entries: &mut Vec<AgentEntry>, row: AgentEntry)
    ensures
        rows(final(entries)@) == rows(old(entries)@).push(row@),
{
    let ghost pre = entries@;
    entries.push(row);
    proof {
        assert(rows(entries@) =~= rows(pre).push(row@));
    }
}

/// The last session of the workspace.
pub open spec fn session_of(sessions: Seq<SessionInfo>, workspace: Seq<char>) -> Option<usize>
    decreases sessions.len(),
{
    if sessions.len() == 0 {
        None
    } else if sessions.last().workspace@ == workspace {
        Some((sessions.len() - 1) as usize)
    } else {
        session_of(sessions.drop_last(), workspace)
    }
}

/// The last session of the workspace.
pub fn find_session(sessions: &Vec<SessionInfo>, workspace: &str) -> (r: Option<usize>)
    ensures
        r == session_of(sessions@, workspace@),
        r matches Some(i) ==> i < sessions@.len(),
{
    let mut n: usize = sessions.len();
    proof {
        assert(sessions@.take(n as int) =~= sessions@);
    }
    while n > 0
        invariant
            n <= sessions@.len(),
            session_of(sessions@, workspace@) == session_of(sessions@.take(n as int), workspace@),
        decreases n,
    {
        proof {
            assert(sessions@.take(n as int).drop_last() =~= sessions@.take(n - 1));
        }
        if same(sessions[n - 1].workspace.as_str(), workspace) {
            return Some(n - 1);
        }
        n = n - 1;
    }
    None
}

/// How an agent differs from the configuration: it is asked for and does not
/// run, or it runs and is not asked for. Names with an underscore in front are
/// the program's own, and without a set of agents asked for nothing is said.
pub open spec fn reconcile_state(
    name: Seq<char>,
    desired: TextMap<bool>,
    has_session: bool,
    has_agent: bool,
) -> Seq<char> {
    if desired.keys@.len() == 0 {
        Seq::empty()
    } else if desired.has(name) && !(has_session || has_agent) {
        "desired"@
    } else if !desired.has(name) && (has_session || has_agent) && !(name.len() > 0 && name[0]
        == '_') {
        "runtime-only"@
    } else {
        Seq::empty()
    }
}

/// How an agent differs from the configuration.
pub fn reconfigure_sidebar_state(
    name: &str,
    desired: &TextMap<bool>,
    has_session: bool,
    has_agent: bool,
) -> (r: String)
    requires
        desired.wf(),
    ensures
        r@ == reconcile_state(name@, *desired, has_session, has_agent),
{
    if desired.is_empty() {
        return String::new();
    }
    let wanted = desired.contains_key(name);
    let live = has_session || has_agent;
    let v = chars_of(name);
    let own = v.len() > 0 && v[0] == '_';
    if wanted && !live {
        "desired".to_owned()
    } else if !wanted && live && !own {
        "runtime-only".to_owned()
    } else {
        String::new()
    }
}

/// The heading over agents that the tree does not name.
#[verifier::allow_in_spec]
pub fn runtime_only_group_label(enabled: bool) -> &'static str
    returns
        (if enabled {
            "▾ runtime-only (not in config tree)"
        } else {
            "▾ unregistered (not in config tree)"
        }),
{
    if enabled {
        "▾ runtime-only (not in config tree)"
    } else {
        "▾ unregistered (not in config tree)"
    }
}

/// The row of a project's orchestrator. The orchestrator of the root project is
/// started by hand, so that it is not missed where it does not run.
pub open spec fn orchestrator_row(
    node: ProjectNode,
    level: int,
    sessions: Seq<SessionInfo>,
    desired: TextMap<bool>,
) -> Row {
    let name = orchestrator_of(node.prefix@);
    let session = session_of(sessions, name);
    let reconcile = if session is Some {
        reconcile_state(name, desired, true, false)
    } else if node.prefix@.len() == 0 {
        Seq::empty()
    } else {
        reconcile_state(name, desired, false, false)
    };
    agent("◆ orchestrator"@, name, session, level + 1, reconcile)
}

/// The row of a workspace.
pub open spec fn workspace_row(
    ws: WorkspaceRef,
    level: int,
    sessions: Seq<SessionInfo>,
    desired: TextMap<bool>,
) -> Row {
    let session = session_of(sessions, ws.merged_name@);
    agent(
        ws.name@,
        ws.merged_name@,
        session,
        level + 1,
        reconcile_state(ws.merged_name@, desired, session is Some, false),
    )
}

/// The rows of a project before those of its children: a heading, the
/// orchestrator, the workspaces.
pub open spec fn own_rows(
    node: ProjectNode,
    level: int,
    sessions: Seq<SessionInfo>,
    desired: TextMap<bool>,
) -> Seq<Row> {
    let head = Seq::empty().push(heading("▾ "@ + shown_name(node), level));
    let with_orchestrator = if has_orchestrator(node) {
        head.push(orchestrator_row(node, level, sessions, desired))
    } else {
        head
    };
    with_orchestrator + node.workspaces@.map_values(
        |ws: WorkspaceRef| workspace_row(ws, level, sessions, desired),
    )
}

/// The rows of a project and, one level deeper, of its children.
pub open spec fn project_rows(
    node: ProjectNode,
    level: int,
    sessions: Seq<SessionInfo>,
    desired: TextMap<bool>,
) -> Seq<Row>
    decreases node,
{
    own_rows(node, level, sessions, desired) + forest_rows(
        node.children@,
        level + 1,
        sessions,
        desired,
    )
}

/// The rows of several projects.
pub open spec fn forest_rows(
    nodes: Seq<ProjectNode>,
    level: int,
    sessions: Seq<SessionInfo>,
    desired: TextMap<bool>,
) -> Seq<Row>
    decreases nodes,
{
    if nodes.len() == 0 {
        Seq::empty()
    } else {
        forest_rows(nodes.drop_last(), level, sessions, desired) + project_rows(
            nodes.last(),
            level,
            sessions,
            desired,
        )
    }
}

/// Adds the rows of a project and of its children.
pub fn append_project(
    node: &ProjectNode,
    level: usize,
    sessions: &Vec<SessionInfo>,
    entries: &mut Vec<AgentEntry>,
    desired: &TextMap<bool>,
)
    requires
        desired.wf(),
        level + tree_depth(*node) <= usize::MAX,
    ensures
        rows(final(entries)@) == rows(old(entries)@) + project_rows(
            *node,
            level as int,
            sessions@,
            *desired,
        ),
    decreases *node,
{
    let ghost pre = rows(entries@);
    add_row(
        entries,
        AgentEntry::group("▾ ".to_owned().concat(node.display_name().as_str()), level),
    );
    if root_orchestrator_visible(node) {
        let name = config_orchestrator_name(node.prefix.as_str());
        let session = find_session(sessions, name.as_str());
        let reconcile = if session.is_some() {
            reconfigure_sidebar_state(name.as_str(), desired, true, false)
        } else if node.prefix.as_str().is_empty() {
            String::new()
        } else {
            reconfigure_sidebar_state(name.as_str(), desired, false, false)
        };
        add_row(
            entries,
            AgentEntry::leaf("◆ orchestrator".to_owned(), name, session, level + 1, reconcile),
        );
    }
    let ghost shown = |ws: WorkspaceRef| workspace_row(ws, level as int, sessions@, *desired);
    let ghost head = rows(entries@);
    let mut i: usize = 0;
    proof {
        assert(head + node.workspaces@.take(0).map_values(shown) =~= head);
    }
    while i < node.workspaces.len()
        invariant
            i <= node.workspaces@.len(),
            desired.wf(),
            level < usize::MAX,
            shown == (|ws: WorkspaceRef| workspace_row(ws, level as int, sessions@, *desired)),
            rows(entries@) == head + node.workspaces@.take(i as int).map_values(shown),
        decreases node.workspaces@.len() - i,
    {
        let ws = &node.workspaces[i];
        let session = find_session(sessions, ws.merged_name.as_str());
        let reconcile = reconfigure_sidebar_state(
            ws.merged_name.as_str(),
            desired,
            session.is_some(),
            false,
        );
        proof {
            assert(head + node.workspaces@.take(i + 1).map_values(shown) =~= (head
                + node.workspaces@.take(i as int).map_values(shown)).push(shown(*ws)));
        }
        add_row(
            entries,
            AgentEntry::leaf(ws.name.clone(), ws.merged_name.clone(), session, level + 1, reconcile),
        );
        i = i + 1;
    }
    let ghost own = own_rows(*node, level as int, sessions@, *desired);
    proof {
        assert(node.workspaces@.take(node.workspaces@.len() as int) =~= node.workspaces@);
        assert(rows(entries@) =~= pre + own);
        assert(pre + own + forest_rows(
            node.children@.take(0),
            level + 1,
            sessions@,
            *desired,
        ) =~= pre + own);
    }
    let mut k: usize = 0;
    while k < node.children.len()
        invariant
            k <= node.children@.len(),
            desired.wf(),
            level + 1 + forest_depth(node.children@) <= usize::MAX,
            rows(entries@) == pre + own + forest_rows(
                node.children@.take(k as int),
                level + 1,
                sessions@,
                *desired,
            ),
        decreases node.children@.len() - k,
    {
        let child = &node.children[k];
        proof {
            tree_depth_in_forest(node.children@, k as int);
            assert(node.children@.take(k + 1).drop_last() =~= node.children@.take(k as int));
        }
        append_project(child, level + 1, sessions, entries, desired);
        proof {
            let front = forest_rows(
                node.children@.take(k as int),
                level + 1,
                sessions@,
                *desired,
            );
            let next = project_rows(*child, level + 1, sessions@, *desired);
            assert(pre + own + front + next =~= pre + own + (front + next));
        }
        k = k + 1;
    }
    proof {
        assert(node.children@.take(node.children@.len() as int) =~= node.children@);
        assert(rows(entries@) =~= pre + project_rows(*node, level as int, sessions@, *desired));
    }
}

/// The sessions, by index, whose workspace the tree does not name, of the first
/// `n`.
pub open spec fn strays(sessions: Seq<SessionInfo>, root: ProjectNode, n: int) -> Seq<usize>
    decreases n,
{
    if n <= 0 {
        Seq::empty()
    } else {
        let front = strays(sessions, root, n - 1);
        if !tree_names(root, sessions[n - 1].workspace@) {
            front.push((n - 1) as usize)
        } else {
            front
        }
    }
}

/// The row of a session that the tree does not name.
pub open spec fn stray_row(sessions: Seq<SessionInfo>, i: usize, desired: TextMap<bool>) -> Row {
    let name = sessions[i as int].workspace@;
    agent(name, name, Some(i), 1, reconcile_state(name, desired, true, false))
}

/// The rows for a tree: the projects, then under a heading of their own the
/// sessions that the tree does not name.
pub open spec fn tree_rows(
    root: ProjectNode,
    sessions: Seq<SessionInfo>,
    reconfigure_enabled: bool,
    desired: TextMap<bool>,
) -> Seq<Row> {
    let projects = project_rows(root, 0, sessions, desired);
    let rest = strays(sessions, root, sessions.len() as int);
    if rest.len() == 0 {
        projects
    } else {
        projects.push(heading(runtime_only_group_label(reconfigure_enabled)@, 0))
            + rest.map_values(|i: usize| stray_row(sessions, i, desired))
    }
}

/// The rows for a tree.
pub fn build_from_tree(
    root: &ProjectNode,
    sessions: &Vec<SessionInfo>,
    reconfigure_enabled: bool,
    desired: &TextMap<bool>,
) -> (r: Vec<AgentEntry>)
    requires
        desired.wf(),
        tree_depth(*root) <= usize::MAX,
    ensures
        rows(r@) == tree_rows(*root, sessions@, reconfigure_enabled, *desired),
{
    let mut entries: Vec<AgentEntry> = Vec::new();
    proof {
        assert(rows(entries@) =~= Seq::empty());
    }
    append_project(root, 0, sessions, &mut entries, desired);
    let ghost projects = project_rows(*root, 0, sessions@, *desired);
    proof {
        assert(rows(entries@) =~= projects);
    }
    let mut rest: Vec<usize> = Vec::new();
    let n = sessions.len();
    let mut i: usize = 0;
    while i < n
        invariant
            i <= n == sessions@.len(),
            rest@ == strays(sessions@, *root, i as int),
            forall|j: int| 0 <= j < rest@.len() ==> #[trigger] rest@[j] < n,
        decreases n - i,
    {
        if !is_in_tree(root, sessions[i].workspace.as_str()) {
            rest.push(i);
        }
        i = i + 1;
    }
    if rest.len() > 0 {
        add_row(
            &mut entries,
            AgentEntry::group(runtime_only_group_label(reconfigure_enabled).to_owned(), 0),
        );
        let ghost head = rows(entries@);
        let ghost shown = |i: usize| stray_row(sessions@, i, *desired);
        proof {
            assert(head + rest@.take(0).map_values(shown) =~= head);
        }
        let mut k: usize = 0;
        while k < rest.len()
            invariant
                k <= rest@.len(),
                desired.wf(),
                n == sessions@.len(),
                forall|j: int| 0 <= j < rest@.len() ==> #[trigger] rest@[j] < n,
                shown == (|i: usize| stray_row(sessions@, i, *desired)),
                rows(entries@) == head + rest@.take(k as int).map_values(shown),
            decreases rest@.len() - k,
        {
            let idx = rest[k];
            let name = &sessions[idx].workspace;
            let reconcile = reconfigure_sidebar_state(name.as_str(), desired, true, false);
            proof {
                assert(head + rest@.take(k + 1).map_values(shown) =~= (head + rest@.take(
                    k as int,
                ).map_values(shown)).push(shown(idx)));
            }
            add_row(
                &mut entries,
                AgentEntry::leaf(name.clone(), name.clone(), Some(idx), 1, reconcile),
            );
            k = k + 1;
        }
        proof {
            assert(rest@.take(rest@.len() as int) =~= rest@);
        }
    }
    entries
}

/// The parts of a workspace's name: between its dots, or, without dots, between
/// its underscores.
pub open spec fn path_parts(workspace: Seq<char>) -> Seq<Seq<char>> {
    if workspace.contains('.') {
        split(workspace, '.')
    } else if workspace.contains('_') {
        split(workspace, '_')
    } else {
        Seq::empty().push(workspace)
    }
}

/// The parts of a workspace's name.
pub fn split_workspace_path(workspace: &str) -> (r: Vec<String>)
    ensures
        texts(r@) == path_parts(workspace@),
        r@.len() > 0,
{
    let v = chars_of(workspace);
    let mut dotted = false;
    let mut underscored = false;
    let mut i: usize = 0;
    while i < v.len()
        invariant
            i <= v@.len(),
            dotted == v@.take(i as int).contains('.'),
            underscored == v@.take(i as int).contains('_'),
        decreases v@.len() - i,
    {
        proof {
            assert(v@.take(i + 1) =~= v@.take(i as int).push(v@[i as int]));
        }
        if v[i] == '.' {
            proof {
                assert(v@.take(i + 1)[i as int] == '.');
            }
            dotted = true;
        }
        if v[i] == '_' {
            proof {
                assert(v@.take(i + 1)[i as int] == '_');
            }
            underscored = true;
        }
        i = i + 1;
    }
    proof {
        assert(v@.take(v@.len() as int) =~= v@);
    }
    if dotted {
        split_text(workspace, '.')
    } else if underscored {
        split_text(workspace, '_')
    } else {
        let mut r: Vec<String> = Vec::new();
        let s = workspace.to_owned();
        proof {
            texts_push(r@, s);
            assert(texts(Seq::<String>::empty()) =~= Seq::empty());
        }
        r.push(s);
        r
    }
}

/// The parts of the name of a session's workspace.
#[derive(Debug, Clone)]
pub struct NamePath {
    pub parts: Vec<String>,
    pub session: usize,
}

/// The parts of a name, as text.
pub struct Path {
    pub parts: Seq<Seq<char>>,
    pub session: usize,
}

impl View for NamePath {
    type V = Path;

    open spec fn view(&self) -> Path {
        Path { parts: texts(self.parts@), session: self.session }
    }
}

/// The parts of names, as text.
pub open spec fn paths(v: Seq<NamePath>) -> Seq<Path> {
    v.map_values(|p: NamePath| p@)
}

/// Texts in strictly ascending order.
pub open spec fn ascending(keys: Seq<Seq<char>>) -> bool {
    forall|i: int, j: int| 0 <= i < j < keys.len() ==> before(#[trigger] keys[i], #[trigger] keys[j])
}

/// One of the names begins with the part.
pub open spec fn begins_one(all: Seq<Path>, part: Seq<char>) -> bool {
    exists|i: int| 0 <= i < all.len() && (#[trigger] all[i]).parts[0] == part
}

/// `keys` are the first parts of the names, each once, in ascending order.
pub open spec fn are_first_parts(keys: Seq<Seq<char>>, all: Seq<Path>) -> bool {
    ascending(keys) && forall|part: Seq<char>| #[trigger] keys.contains(part) <==> begins_one(all, part)
}

/// The first parts of the names, each once, in ascending order.
pub open spec fn first_parts(all: Seq<Path>) -> Seq<Seq<char>> {
    choose|keys: Seq<Seq<char>>| are_first_parts(keys, all)
}

/// What follows `part` in the names that begin with it and go on.
pub open spec fn deeper(all: Seq<Path>, part: Seq<char>) -> Seq<Path>
    decreases all.len(),
{
    if all.len() == 0 {
        Seq::empty()
    } else {
        let front = deeper(all.drop_last(), part);
        let last = all.last();
        if last.parts[0] == part && last.parts.len() > 1 {
            front.push(Path { parts: last.parts.drop_first(), session: last.session })
        } else {
            front
        }
    }
}

/// The last session whose name is `part`.
pub open spec fn session_at(all: Seq<Path>, part: Seq<char>) -> Option<usize>
    decreases all.len(),
{
    if all.len() == 0 {
        None
    } else if all.last().parts[0] == part && all.last().parts.len() == 1 {
        Some(all.last().session)
    } else {
        session_at(all.drop_last(), part)
    }
}

/// The rows for names, `height` parts deep at most: for each first part in
/// ascending order a heading where names go on below it, the session of that
/// very name, and the rows of the names below.
pub open spec fn name_rows(all: Seq<Path>, height: nat, level: int) -> Seq<Row>
    decreases height, 1nat, 0nat,
{
    if height == 0 {
        Seq::empty()
    } else {
        part_rows(all, first_parts(all), height, level)
    }
}

/// The rows for the names that begin with one of `keys`.
pub open spec fn part_rows(all: Seq<Path>, keys: Seq<Seq<char>>, height: nat, level: int) -> Seq<
    Row,
>
    decreases height, 0nat, keys.len(),
{
    if keys.len() == 0 || height == 0 {
        Seq::empty()
    } else {
        let part = keys.last();
        let below = deeper(all, part);
        let head = if below.len() > 0 {
            Seq::empty().push(heading("▾ "@ + part, level))
        } else {
            Seq::empty()
        };
        let own = match session_at(all, part) {
            Some(i) => Seq::empty().push(agent(part, part, Some(i), level, Seq::empty())),
            None => Seq::empty(),
        };
        part_rows(all, keys.drop_last(), height, level) + head + own + name_rows(
            below,
            (height - 1) as nat,
            level + 1,
        )
    }
}

proof fn ascending_is_unique(a: Seq<Seq<char>>, b: Seq<Seq<char>>)
    requires
        ascending(a),
        ascending(b),
        forall|x: Seq<char>| #[trigger] a.contains(x) <==> b.contains(x),
    ensures
        a == b,
    decreases a.len(),
{
    before_is_an_order();
    if a.len() == 0 {
        if b.len() > 0 {
            assert(b.contains(b[0]));
            assert(a.contains(b[0]));
        }
        assert(a =~= b);
    } else {
        assert(a.contains(a.last()));
        assert(b.contains(a.last()));
        let j = choose|j: int| 0 <= j < b.len() && b[j] == a.last();
        assert(b.contains(b.last()));
        assert(a.contains(b.last()));
        let i = choose|i: int| 0 <= i < a.len() && a[i] == b.last();
        if j < b.len() - 1 {
            assert(before(b[j], b[b.len() - 1]));
            if i < a.len() - 1 {
                assert(before(a[i], a[a.len() - 1]));
                assert(before(a.last(), a.last()));
            }
        }
        assert(a.last() == b.last());
        let (x, y) = (a.drop_last(), b.drop_last());
        assert forall|t: Seq<char>| #[trigger] x.contains(t) <==> y.contains(t) by {
            if x.contains(t) {
                let k = choose|k: int| 0 <= k < x.len() && x[k] == t;
                assert(a[k] == t);
                assert(before(a[k], a[a.len() - 1]));
                assert(a.contains(t));
                assert(b.contains(t));
                let m = choose|m: int| 0 <= m < b.len() && b[m] == t;
                assert(m != b.len() - 1);
                assert(y[m] == t);
            }
            if y.contains(t) {
                let k = choose|k: int| 0 <= k < y.len() && y[k] == t;
                assert(b[k] == t);
                assert(before(b[k], b[b.len() - 1]));
                assert(b.contains(t));
                assert(a.contains(t));
                let m = choose|m: int| 0 <= m < a.len() && a[m] == t;
                assert(m != a.len() - 1);
                assert(x[m] == t);
            }
        }
        assert forall|p: int, q: int| 0 <= p < q < x.len() implies before(
            #[trigger] x[p],
            #[trigger] x[q],
        ) by {
            assert(before(a[p], a[q]));
        }
        assert forall|p: int, q: int| 0 <= p < q < y.len() implies before(
            #[trigger] y[p],
            #[trigger] y[q],
        ) by {
            assert(before(b[p], b[q]));
        }
        ascending_is_unique(x, y);
        assert(a =~= x.push(a.last()));
        assert(b =~= y.push(b.last()));
    }
}

/// The first parts of the names, each once, in ascending order.
fn collect_first_parts(all: &Vec<NamePath>) -> (r: Vec<String>)
    requires
        forall|i: int| 0 <= i < all@.len() ==> (#[trigger] all@[i]).parts@.len() > 0,
    ensures
        texts(r@) == first_parts(paths(all@)),
        are_first_parts(texts(r@), paths(all@)),
{
    let mut seen: TextMap<bool> = TextMap::new();
    let mut i: usize = 0;
    while i < all.len()
        invariant
            i <= all@.len(),
            seen.wf(),
            forall|k: int| 0 <= k < all@.len() ==> (#[trigger] all@[k]).parts@.len() > 0,
            forall|part: Seq<char>|
                #[trigger] seen.has(part) <==> begins_one(paths(all@).take(i as int), part),
        decreases all@.len() - i,
    {
        let part = all[i].parts[0].clone();
        let ghost pre = seen;
        let ghost text = part@;
        seen.insert(part, true);
        proof {
            let now = paths(all@).take(i + 1);
            let then = paths(all@).take(i as int);
            assert(now[i as int].parts[0] == text);
            assert forall|p: Seq<char>| #[trigger] seen.has(p) <==> begins_one(now, p) by {
                if p != text {
                    assert(seen.lookup(p) == pre.lookup(p));
                    assert(seen.has(p) == pre.has(p));
                    if begins_one(now, p) {
                        let k = choose|k: int| 0 <= k < now.len() && (#[trigger] now[k]).parts[0] == p;
                        assert(k < i);
                        assert(then[k].parts[0] == p);
                    }
                    if begins_one(then, p) {
                        let k = choose|k: int| 0 <= k < then.len() && (#[trigger] then[k]).parts[0] == p;
                        assert(now[k].parts[0] == p);
                    }
                } else {
                    assert(begins_one(now, p));
                }
            }
        }
        i = i + 1;
    }
    let r = seen.keys;
    proof {
        let every = paths(all@);
        assert(every.take(every.len() as int) =~= every);
        let keys = texts(r@);
        assert forall|part: Seq<char>| #[trigger] keys.contains(part) <==> begins_one(every, part) by {
            if keys.contains(part) {
                let k = choose|k: int| 0 <= k < keys.len() && keys[k] == part;
                assert(seen.at(k, part));
                assert(seen.has(part));
            }
            if begins_one(every, part) {
                assert(seen.has(part));
                let k = seen.place(part);
                assert(seen.at(k, part));
                assert(keys[k] == part);
            }
        }
        assert forall|a: int, b: int| 0 <= a < b < keys.len() implies before(
            #[trigger] keys[a],
            #[trigger] keys[b],
        ) by {
            assert(before(seen.keys@[a]@, seen.keys@[b]@));
        }
        assert(are_first_parts(keys, every));
        ascending_is_unique(keys, first_parts(every));
    }
    r
}

/// What follows a part in the names that begin with it, and the session of that
/// very name.
fn descend(all: &Vec<NamePath>, part: &str) -> (r: (Vec<NamePath>, Option<usize>))
    requires
        forall|i: int| 0 <= i < all@.len() ==> (#[trigger] all@[i]).parts@.len() > 0,
    ensures
        paths(r.0@) == deeper(paths(all@), part@),
        r.1 == session_at(paths(all@), part@),
        forall|k: int|
            0 <= k < r.0@.len() ==> (#[trigger] r.0@[k]).parts@.len() > 0 && exists|i: int|
                0 <= i < all@.len() && r.0@[k].parts@.len() < (#[trigger] all@[i]).parts@.len(),
{
    let mut below: Vec<NamePath> = Vec::new();
    let mut session: Option<usize> = None;
    let mut i: usize = 0;
    proof {
        assert(paths(below@) =~= deeper(paths(all@).take(0), part@));
    }
    while i < all.len()
        invariant
            i <= all@.len(),
            forall|k: int| 0 <= k < all@.len() ==> (#[trigger] all@[k]).parts@.len() > 0,
            paths(below@) == deeper(paths(all@).take(i as int), part@),
            session == session_at(paths(all@).take(i as int), part@),
            forall|k: int|
                0 <= k < below@.len() ==> (#[trigger] below@[k]).parts@.len() > 0 && exists|j: int|
                    0 <= j < all@.len() && below@[k].parts@.len() < (
                    #[trigger] all@[j]).parts@.len(),
        decreases all@.len() - i,
    {
        let p = &all[i];
        proof {
            assert(paths(all@).take(i + 1).drop_last() =~= paths(all@).take(i as int));
            assert(paths(all@).take(i + 1).last() == p@);
        }
        if same(p.parts[0].as_str(), part) {
            if p.parts.len() > 1 {
                let mut rest: Vec<String> = Vec::new();
                let mut k: usize = 1;
                proof {
                    assert(texts(rest@) =~= texts(p.parts@).subrange(1, 1));
                }
                while k < p.parts.len()
                    invariant
                        1 <= k <= p.parts@.len(),
                        rest@.len() == k - 1,
                        texts(rest@) == texts(p.parts@).subrange(1, k as int),
                    decreases p.parts@.len() - k,
                {
                    let s = p.parts[k].clone();
                    proof {
                        texts_push(rest@, s);
                        assert(texts(p.parts@).subrange(1, k + 1) =~= texts(p.parts@).subrange(
                            1,
                            k as int,
                        ).push(p.parts@[k as int]@));
                    }
                    rest.push(s);
                    k = k + 1;
                }
                let tail = NamePath { parts: rest, session: p.session };
                proof {
                    assert(texts(p.parts@).subrange(1, p.parts@.len() as int) =~= texts(
                        p.parts@,
                    ).drop_first());
                    assert(paths(below@.push(tail)) =~= paths(below@).push(tail@));
                    assert(tail.parts@.len() < all@[i as int].parts@.len());
                }
                below.push(tail);
            } else {
                session = Some(p.session);
            }
        }
        i = i + 1;
    }
    proof {
        assert(paths(all@).take(all@.len() as int) =~= paths(all@));
    }
    (below, session)
}

/// Adds the rows for names.
pub fn walk_fallback(all: &Vec<NamePath>, height: usize, level: usize, entries: &mut Vec<AgentEntry>)
    requires
        forall|i: int| 0 <= i < all@.len() ==> 0 < (#[trigger] all@[i]).parts@.len() <= height,
        level + height <= usize::MAX,
    ensures
        rows(final(entries)@) == rows(old(entries)@) + name_rows(
            paths(all@),
            height as nat,
            level as int,
        ),
    decreases height,
{
    let ghost pre = rows(entries@);
    if height == 0 {
        proof {
            assert(pre + Seq::empty() =~= pre);
        }
        return ;
    }
    let keys = collect_first_parts(all);
    let ghost every = paths(all@);
    let ghost parts = texts(keys@);
    let mut i: usize = 0;
    proof {
        assert(pre + part_rows(every, parts.take(0), height as nat, level as int) =~= pre);
    }
    while i < keys.len()
        invariant
            i <= keys@.len(),
            height > 0,
            level + height <= usize::MAX,
            forall|k: int| 0 <= k < all@.len() ==> 0 < (#[trigger] all@[k]).parts@.len() <= height,
            every == paths(all@),
            parts == texts(keys@),
            rows(entries@) == pre + part_rows(
                every,
                parts.take(i as int),
                height as nat,
                level as int,
            ),
        decreases keys@.len() - i,
    {
        let part = &keys[i];
        let (below, session) = descend(all, part.as_str());
        proof {
            assert(parts.take(i + 1).drop_last() =~= parts.take(i as int));
            assert(parts.take(i + 1).last() == part@);
            assert forall|k: int| 0 <= k < below@.len() implies 0 < (
            #[trigger] below@[k]).parts@.len() <= height - 1 by {
                let j = choose|j: int|
                    0 <= j < all@.len() && below@[k].parts@.len() < (#[trigger] all@[j]).parts@.len();
                assert(all@[j].parts@.len() <= height);
            }
        }
        let ghost start = rows(entries@);
        let ghost head = if below@.len() > 0 {
            Seq::empty().push(heading("▾ "@ + part@, level as int))
        } else {
            Seq::empty()
        };
        if below.len() > 0 {
            add_row(entries, AgentEntry::group("▾ ".to_owned().concat(part.as_str()), level));
        }
        proof {
            assert(rows(entries@) =~= start + head);
        }
        let ghost own = match session {
            Some(s) => Seq::empty().push(agent(part@, part@, Some(s), level as int, Seq::empty())),
            None => Seq::empty(),
        };
        if let Some(s) = session {
            add_row(
                entries,
                AgentEntry::leaf(part.clone(), part.clone(), Some(s), level, String::new()),
            );
        }
        proof {
            assert(rows(entries@) =~= start + head + own);
        }
        walk_fallback(&below, height - 1, level + 1, entries);
        proof {
            let front = part_rows(every, parts.take(i as int), height as nat, level as int);
            let rest = name_rows(paths(below@), (height - 1) as nat, level + 1);
            assert(pre + front + head + own + rest =~= pre + (front + head + own + rest));
            assert(paths(below@).len() == below@.len());
        }
        i = i + 1;
    }
    proof {
        assert(parts.take(parts.len() as int) =~= parts);
    }
}

/// The parts of the names of the sessions' workspaces.
pub open spec fn session_paths(sessions: Seq<SessionInfo>) -> Seq<Path> {
    Seq::new(
        sessions.len(),
        |i: int| Path { parts: path_parts(sessions[i].workspace@), session: i as usize },
    )
}

/// The number of parts of the longest of the first `n` names.
pub open spec fn longest(all: Seq<Path>, n: int) -> nat
    decreases n,
{
    if n <= 0 {
        0
    } else if all[n - 1].parts.len() > longest(all, n - 1) {
        all[n - 1].parts.len()
    } else {
        longest(all, n - 1)
    }
}

/// The rows without a tree: the names of the workspaces, split into their parts.
pub open spec fn fallback_rows(sessions: Seq<SessionInfo>) -> Seq<Row> {
    let all = session_paths(sessions);
    name_rows(all, longest(all, all.len() as int), 0)
}

/// The rows without a tree.
pub fn build_fallback(sessions: &Vec<SessionInfo>) -> (r: Vec<AgentEntry>)
    ensures
        rows(r@) == fallback_rows(sessions@),
{
    let n = sessions.len();
    let mut all: Vec<NamePath> = Vec::new();
    let mut height: usize = 0;
    let ghost every = session_paths(sessions@);
    let mut i: usize = 0;
    while i < n
        invariant
            i <= n == sessions@.len(),
            every == session_paths(sessions@),
            paths(all@) =~= every.take(i as int),
            height == longest(every, i as int),
            all@.len() == i,
            forall|k: int| 0 <= k < i ==> 0 < (#[trigger] all@[k]).parts@.len() <= height,
        decreases n - i,
    {
        let parts = split_workspace_path(sessions[i].workspace.as_str());
        proof {
            assert(every[i as int].parts == texts(parts@));
            assert(texts(parts@).len() == parts@.len());
        }
        if parts.len() > height {
            height = parts.len();
        }
        let p = NamePath { parts, session: i };
        proof {
            assert(paths(all@.push(p)) =~= paths(all@).push(p@));
            assert(every.take(i + 1) =~= every.take(i as int).push(every[i as int]));
        }
        all.push(p);
        i = i + 1;
    }
    let mut entries: Vec<AgentEntry> = Vec::new();
    proof {
        assert(every.take(n as int) =~= every);
        assert(rows(entries@) =~= Seq::empty());
    }
    walk_fallback(&all, height, 0, &mut entries);
    proof {
        assert(rows(entries@) =~= fallback_rows(sessions@));
    }
    entries
}

/// The rows of the list of agents.
pub open spec fn entry_rows(
    sessions: Seq<SessionInfo>,
    tree: Option<ProjectNode>,
    reconfigure_enabled: bool,
    desired: TextMap<bool>,
) -> Seq<Row> {
    match tree {
        Some(node) => tree_rows(node, sessions, reconfigure_enabled, desired),
        None => fallback_rows(sessions),
    }
}

/// The rows of the list of agents: placed in the tree of projects where there is
/// one, else by the parts of their names.
pub fn build_entries(
    sessions: &Vec<SessionInfo>,
    tree: &Option<ProjectNode>,
    reconfigure_enabled: bool,
    desired: &TextMap<bool>,
) -> (r: Vec<AgentEntry>)
    requires
        desired.wf(),
        tree matches Some(node) ==> tree_depth(*node) <= usize::MAX,
    ensures
        rows(r@) == entry_rows(sessions@, *tree, reconfigure_enabled, *desired),
{
    match tree {
        Some(node) => build_from_tree(node, sessions, reconfigure_enabled, desired),
        None => build_fallback(sessions),
    }
}

/// Without a tree, names stand in ascending order of their first parts, each part
/// once, whatever order the sessions have.
pub proof fn names_stand_in_order(
    all: Seq<Path>,
    keys: Seq<Seq<char>>,
    height: nat,
    level: int,
)
    requires
        height > 0,
        forall|i: int, j: int|
            0 <= i < j < keys.len() ==> before(#[trigger] keys[i], #[trigger] keys[j]),
        forall|part: Seq<char>| #[trigger]
            keys.contains(part) <==> exists|i: int|
                0 <= i < all.len() && (#[trigger] all[i]).parts[0] == part,
    ensures
        name_rows(all, height, level) == part_rows(all, keys, height, level),
{
    assert forall|part: Seq<char>| #[trigger] keys.contains(part) <==> begins_one(all, part) by {}
    assert(are_first_parts(keys, all));
    ascending_is_unique(keys, first_parts(all));
}

} // verus!
