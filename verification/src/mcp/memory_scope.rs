//! Where memories are kept: for everyone, for a project, for a workspace or for a
//! task.

use vstd::prelude::*;

use crate::config::{config_orchestrator_name, orchestrator_of, ProjectNode, WorkspaceRef};
use crate::mcp::errors::{about, quoted};
use crate::text::{
    begins, char_count, chars_of, is_one_of, is_trim, is_white, lower, same, string_of, texts,
    to_lower, trim, trim_is_trim, trim_keeps, trimmed,
};

verus! {

broadcast use vstd::string::group_string_axioms;

/// The scope of what everyone shares.
pub const GLOBAL_SCOPE: &'static str = "global";

/// Why a scope could not be made out.
#[derive(Debug, Clone)]
pub enum ScopeError {
    Invalid(String),
    ConfigNotFound,
    LoadTree { path: String, source: String },
    WorkspaceNotInTree { workspace: String, path: String },
}

/// Why a scope could not be made out, as a value.
pub enum ScopeProblem {
    Invalid(Seq<char>),
    ConfigNotFound,
    LoadTree { path: Seq<char>, source: Seq<char> },
    WorkspaceNotInTree { workspace: Seq<char>, path: Seq<char> },
}

impl View for ScopeError {
    type V = ScopeProblem;

    open spec fn view(&self) -> ScopeProblem {
        match *self {
            ScopeError::Invalid(raw) => ScopeProblem::Invalid(raw@),
            ScopeError::ConfigNotFound => ScopeProblem::ConfigNotFound,
            ScopeError::LoadTree { path, source } => ScopeProblem::LoadTree {
                path: path@,
                source: source@,
            },
            ScopeError::WorkspaceNotInTree { workspace, path } => {
                ScopeProblem::WorkspaceNotInTree { workspace: workspace@, path: path@ }
            },
        }
    }
}

/// What is said of a scope that could not be made out.
pub open spec fn problem_text(p: ScopeProblem) -> Seq<char> {
    match p {
        ScopeProblem::Invalid(raw) => "invalid memory scope "@ + quoted(raw)
            + "; use `workspace`, `project`, `global`, or an explicit selector"@,
        ScopeProblem::ConfigNotFound => "config file not found when resolving project scope"@,
        ScopeProblem::LoadTree { path, source } => "load config tree "@ + path + ": "@ + source,
        ScopeProblem::WorkspaceNotInTree { workspace, path } => "workspace "@ + quoted(workspace)
            + " not found in config tree "@ + path,
    }
}

impl ScopeError {
    /// What is said of a scope that could not be made out.
    pub fn text(&self) -> (r: String)
        ensures
            r@ == problem_text(self@),
    {
        match self {
            ScopeError::Invalid(raw) => about(
                "invalid memory scope ",
                raw.as_str(),
                "; use `workspace`, `project`, `global`, or an explicit selector",
            ),
            ScopeError::ConfigNotFound => {
                "config file not found when resolving project scope".to_owned()
            },
            ScopeError::LoadTree { path, source } => "load config tree ".to_owned().concat(
                path.as_str(),
            ).concat(": ").concat(source.as_str()),
            ScopeError::WorkspaceNotInTree { workspace, path } => about(
                "workspace ",
                workspace.as_str(),
                " not found in config tree ",
            ).concat(path.as_str()),
        }
    }
}

/// The scope of a workspace.
pub open spec fn scope_of_workspace(workspace: Seq<char>) -> Seq<char> {
    "workspace:"@ + trim(workspace)
}

/// The scope of a workspace.
pub fn workspace_scope(workspace: &str) -> (r: String)
    ensures
        r@ == scope_of_workspace(workspace@),
{
    "workspace:".to_owned().concat(trimmed(workspace).as_str())
}

/// The scope of a project.
pub open spec fn scope_of_project(prefix: Seq<char>) -> Seq<char> {
    if trim(prefix).len() == 0 {
        "project:root"@
    } else {
        "project:"@ + trim(prefix)
    }
}

/// The scope of a project.
pub fn project_scope(prefix: &str) -> (r: String)
    ensures
        r@ == scope_of_project(prefix@),
{
    let name = trimmed(prefix);
    if name.as_str().is_empty() {
        "project:root".to_owned()
    } else {
        "project:".to_owned().concat(name.as_str())
    }
}

/// `raw` means `word`, in capitals or not.
pub open spec fn means(raw: Seq<char>, word: Seq<char>) -> bool {
    lower(raw) == word
}

/// What stands behind `prefix` in `s`, which begins with it but for capitals.
pub open spec fn behind(s: Seq<char>, prefix: Seq<char>) -> Seq<char> {
    trim(s.skip(prefix.len() as int))
}

fn rest_behind(s: &str, prefix: &str) -> (r: String)
    requires
        prefix@.is_prefix_of(lower(s@)),
    ensures
        r@ == behind(s@, prefix@),
{
    let v = chars_of(s);
    let n = char_count(prefix);
    let rest = string_of(&v, n, v.len());
    proof {
        assert(rest@ =~= s@.skip(prefix@.len() as int));
    }
    trimmed(rest.as_str())
}

/// A scope as it is stored: without white space around it and with the part
/// before the colon in small letters. A project without a name is the root; a
/// workspace or a task without one is no scope.
pub open spec fn normal_scope(raw: Seq<char>) -> Seq<char> {
    let s = trim(raw);
    if s.len() == 0 {
        Seq::empty()
    } else if means(s, "global"@) {
        "global"@
    } else if "project:"@.is_prefix_of(lower(s)) {
        "project:"@ + (if behind(s, "project:"@).len() == 0 {
            "root"@
        } else {
            behind(s, "project:"@)
        })
    } else if "workspace:"@.is_prefix_of(lower(s)) {
        if behind(s, "workspace:"@).len() == 0 {
            Seq::empty()
        } else {
            "workspace:"@ + behind(s, "workspace:"@)
        }
    } else if "task:"@.is_prefix_of(lower(s)) {
        if behind(s, "task:"@).len() == 0 {
            Seq::empty()
        } else {
            "task:"@ + behind(s, "task:"@)
        }
    } else {
        s
    }
}

/// A scope as it is stored.
pub fn normalize_scope(raw: &str) -> (r: String)
    ensures
        r@ == normal_scope(raw@),
{
    let s = trimmed(raw);
    if s.as_str().is_empty() {
        return String::new();
    }
    let low = to_lower(s.as_str());
    if same(low.as_str(), "global") {
        return "global".to_owned();
    }
    if begins(low.as_str(), "project:") {
        let value = rest_behind(s.as_str(), "project:");
        return if value.as_str().is_empty() {
            "project:".to_owned().concat("root")
        } else {
            "project:".to_owned().concat(value.as_str())
        };
    }
    if begins(low.as_str(), "workspace:") {
        let value = rest_behind(s.as_str(), "workspace:");
        return if value.as_str().is_empty() {
            String::new()
        } else {
            "workspace:".to_owned().concat(value.as_str())
        };
    }
    if begins(low.as_str(), "task:") {
        let value = rest_behind(s.as_str(), "task:");
        return if value.as_str().is_empty() {
            String::new()
        } else {
            "task:".to_owned().concat(value.as_str())
        };
    }
    s
}

/// The configuration as it was found.
#[derive(Debug)]
pub enum FoundConfig {
    Missing,
    Unreadable { path: String, error: String },
    Loaded { path: String, tree: ProjectNode },
}

/// The prefix of the project that a workspace or an orchestrator belongs to.
pub open spec fn prefix_in_tree(node: ProjectNode, target: Seq<char>) -> Option<Seq<char>>
    decreases node,
{
    if orchestrator_of(node.prefix@) == target || names(node.workspaces@, target) {
        Some(node.prefix@)
    } else {
        prefix_in_forest(node.children@, target)
    }
}

/// One of the workspaces has the merged name.
pub open spec fn names(workspaces: Seq<WorkspaceRef>, target: Seq<char>) -> bool {
    exists|i: int| 0 <= i < workspaces.len() && (#[trigger] workspaces[i]).merged_name@ == target
}

/// The prefix that the first of the projects that knows the name gives.
pub open spec fn prefix_in_forest(nodes: Seq<ProjectNode>, target: Seq<char>) -> Option<Seq<char>>
    decreases nodes,
{
    if nodes.len() == 0 {
        None
    } else {
        match prefix_in_forest(nodes.drop_last(), target) {
            Some(p) => Some(p),
            None => prefix_in_tree(nodes.last(), target),
        }
    }
}

proof fn found_in_part(nodes: Seq<ProjectNode>, n: int, target: Seq<char>)
    requires
        0 <= n <= nodes.len(),
        prefix_in_forest(nodes.take(n), target) is Some,
    ensures
        prefix_in_forest(nodes, target) == prefix_in_forest(nodes.take(n), target),
    decreases nodes.len() - n,
{
    if n < nodes.len() {
        assert(nodes.take(n + 1).drop_last() =~= nodes.take(n));
        found_in_part(nodes, n + 1, target);
    } else {
        assert(nodes.take(n) =~= nodes);
    }
}

/// The text of an optional string.
pub open spec fn opt(s: Option<String>) -> Option<Seq<char>> {
    match s {
        Some(t) => Some(t@),
        None => None,
    }
}

/// The prefix of the project that a workspace or an orchestrator belongs to.
pub fn find_project_prefix(node: &ProjectNode, target: &str) -> (r: Option<String>)
    ensures
        opt(r) == prefix_in_tree(*node, target@),
    decreases *node,
{
    let orchestrator = config_orchestrator_name(node.prefix.as_str());
    if same(orchestrator.as_str(), target) {
        return Some(node.prefix.clone());
    }
    let mut i: usize = 0;
    while i < node.workspaces.len()
        invariant
            i <= node.workspaces@.len(),
            forall|j: int| 0 <= j < i ==> (#[trigger] node.workspaces@[j]).merged_name@ != target@,
        decreases node.workspaces@.len() - i,
    {
        if same(node.workspaces[i].merged_name.as_str(), target) {
            return Some(node.prefix.clone());
        }
        i = i + 1;
    }
    let mut k: usize = 0;
    while k < node.children.len()
        invariant
            k <= node.children@.len(),
            prefix_in_forest(node.children@.take(k as int), target@) is None,
            prefix_in_tree(*node, target@) == prefix_in_forest(node.children@, target@),
        decreases node.children@.len() - k,
    {
        proof {
            assert(node.children@.take(k + 1).drop_last() =~= node.children@.take(k as int));
        }
        let found = find_project_prefix(&node.children[k], target);
        if found.is_some() {
            proof {
                found_in_part(node.children@, k + 1, target@);
            }
            return found;
        }
        k = k + 1;
    }
    proof {
        assert(node.children@.take(node.children@.len() as int) =~= node.children@);
    }
    None
}

/// The scope of the project of a workspace.
pub open spec fn project_resolved(workspace: Seq<char>, config: FoundConfig) -> Result<
    Seq<char>,
    ScopeProblem,
> {
    match config {
        FoundConfig::Missing => Err(ScopeProblem::ConfigNotFound),
        FoundConfig::Unreadable { path, error } => Err(
            ScopeProblem::LoadTree { path: path@, source: error@ },
        ),
        FoundConfig::Loaded { path, tree } => match prefix_in_tree(tree, workspace) {
            Some(prefix) => Ok(scope_of_project(prefix)),
            None => Err(ScopeProblem::WorkspaceNotInTree { workspace, path: path@ }),
        },
    }
}

/// The value of a result over strings.
pub open spec fn resolved_view(r: Result<String, ScopeError>) -> Result<Seq<char>, ScopeProblem> {
    match r {
        Ok(s) => Ok(s@),
        Err(e) => Err(e@),
    }
}

/// The scope of the project of a workspace.
pub fn resolve_project(workspace: &str, config: &FoundConfig) -> (r: Result<String, ScopeError>)
    ensures
        resolved_view(r) == project_resolved(workspace@, *config),
{
    match config {
        FoundConfig::Missing => Err(ScopeError::ConfigNotFound),
        FoundConfig::Unreadable { path, error } => Err(
            ScopeError::LoadTree { path: path.clone(), source: error.clone() },
        ),
        FoundConfig::Loaded { path, tree } => match find_project_prefix(tree, workspace) {
            Some(prefix) => Ok(project_scope(prefix.as_str())),
            None => Err(
                ScopeError::WorkspaceNotInTree {
                    workspace: workspace.to_owned(),
                    path: path.clone(),
                },
            ),
        },
    }
}

/// A scope that names a kind and a value, or everyone.
pub open spec fn is_scope(s: Seq<char>) -> bool {
    s == "global"@ || "project:"@.is_prefix_of(s) || "workspace:"@.is_prefix_of(s)
        || "task:"@.is_prefix_of(s)
}

/// The scope that a selector means for a workspace.
pub open spec fn resolved(raw: Seq<char>, workspace: Seq<char>, config: FoundConfig) -> Result<
    Seq<char>,
    ScopeProblem,
> {
    let s = trim(raw);
    if s.len() == 0 || means(s, "workspace"@) {
        Ok(scope_of_workspace(workspace))
    } else if means(s, "global"@) {
        Ok("global"@)
    } else if means(s, "project"@) {
        project_resolved(workspace, config)
    } else if is_scope(normal_scope(s)) {
        Ok(normal_scope(s))
    } else {
        Err(ScopeProblem::Invalid(raw))
    }
}

/// The configuration has to be read to make out what a selector means.
pub fn needs_config(raw: &str) -> (r: bool)
    ensures
        r == means(trim(raw@), "project"@),
{
    same(to_lower(trimmed(raw).as_str()).as_str(), "project")
}

/// The scope that a selector means for a workspace.
pub fn resolve(raw: &str, workspace: &str, config: &FoundConfig) -> (r: Result<String, ScopeError>)
    ensures
        resolved_view(r) == resolved(raw@, workspace@, *config),
{
    let s = trimmed(raw);
    let low = to_lower(s.as_str());
    if s.as_str().is_empty() || same(low.as_str(), "workspace") {
        return Ok(workspace_scope(workspace));
    }
    if same(low.as_str(), "global") {
        return Ok("global".to_owned());
    }
    if same(low.as_str(), "project") {
        return resolve_project(workspace, config);
    }
    let scope = normalize_scope(s.as_str());
    let known = same(scope.as_str(), "global") || begins(scope.as_str(), "project:") || begins(
        scope.as_str(),
        "workspace:",
    ) || begins(scope.as_str(), "task:");
    if known {
        return Ok(scope);
    }
    Err(ScopeError::Invalid(raw.to_owned()))
}

/// The selectors that are looked at where none is given.
pub open spec fn default_selectors() -> Seq<Seq<char>> {
    seq!["global"@, "project"@, "workspace"@]
}

/// What the first `n` selectors mean, each scope once, in the order in which they
/// first come; or what is wrong with the first of them that is wrong.
pub open spec fn resolved_first(
    selectors: Seq<Seq<char>>,
    n: int,
    workspace: Seq<char>,
    config: FoundConfig,
) -> Result<Seq<Seq<char>>, ScopeProblem>
    decreases n,
{
    if n <= 0 {
        Ok(Seq::empty())
    } else {
        match resolved_first(selectors, n - 1, workspace, config) {
            Err(e) => Err(e),
            Ok(found) => match resolved(selectors[n - 1], workspace, config) {
                Err(e) => Err(e),
                Ok(scope) => if found.contains(scope) {
                    Ok(found)
                } else {
                    Ok(found.push(scope))
                },
            },
        }
    }
}

/// What the selectors mean; without selectors, what everyone, the project and
/// the workspace share.
pub open spec fn resolved_all(scopes: Seq<Seq<char>>, workspace: Seq<char>, config: FoundConfig) -> Result<
    Seq<Seq<char>>,
    ScopeProblem,
> {
    let selectors = if scopes.len() == 0 {
        default_selectors()
    } else {
        scopes
    };
    resolved_first(selectors, selectors.len() as int, workspace, config)
}

/// The value of a result over lists of strings.
pub open spec fn resolved_list_view(r: Result<Vec<String>, ScopeError>) -> Result<
    Seq<Seq<char>>,
    ScopeProblem,
> {
    match r {
        Ok(v) => Ok(texts(v@)),
        Err(e) => Err(e@),
    }
}

proof fn first_error_stays(
    selectors: Seq<Seq<char>>,
    n: int,
    m: int,
    workspace: Seq<char>,
    config: FoundConfig,
)
    requires
        0 <= n <= m,
        resolved_first(selectors, n, workspace, config) is Err,
    ensures
        resolved_first(selectors, m, workspace, config) == resolved_first(
            selectors,
            n,
            workspace,
            config,
        ),
    decreases m - n,
{
    if n < m {
        first_error_stays(selectors, n, m - 1, workspace, config);
    }
}

/// What the selectors mean.
pub fn resolve_many(scopes: &Vec<String>, workspace: &str, config: &FoundConfig) -> (r: Result<
    Vec<String>,
    ScopeError,
>)
    ensures
        resolved_list_view(r) == resolved_all(texts(scopes@), workspace@, *config),
{
    if scopes.len() == 0 {
        let defaults = vec!["global".to_owned(), "project".to_owned(), "workspace".to_owned()];
        proof {
            assert(texts(defaults@) =~= default_selectors());
        }
        return resolve_each(&defaults, workspace, config);
    }
    resolve_each(scopes, workspace, config)
}

fn resolve_each(selectors: &Vec<String>, workspace: &str, config: &FoundConfig) -> (r: Result<
    Vec<String>,
    ScopeError,
>)
    ensures
        resolved_list_view(r) == resolved_first(
            texts(selectors@),
            selectors@.len() as int,
            workspace@,
            *config,
        ),
{
    let ghost all = texts(selectors@);
    let mut out: Vec<String> = Vec::new();
    let mut i: usize = 0;
    proof {
        assert(texts(out@) =~= Seq::empty());
    }
    while i < selectors.len()
        invariant
            i <= selectors@.len(),
            all == texts(selectors@),
            resolved_first(all, i as int, workspace@, *config) == Ok::<_, ScopeProblem>(texts(out@)),
        decreases selectors@.len() - i,
    {
        proof {
            assert(all[i as int] == selectors@[i as int]@);
        }
        match resolve(selectors[i].as_str(), workspace, config) {
            Err(e) => {
                proof {
                    first_error_stays(all, i + 1, selectors@.len() as int, workspace@, *config);
                }
                return Err(e);
            },
            Ok(scope) => {
                let known = is_one_of(scope.as_str(), &out);
                if !known {
                    let ghost pre = out@;
                    out.push(scope);
                    proof {
                        assert(texts(out@) =~= texts(pre).push(scope@));
                    }
                }
            },
        }
        i = i + 1;
    }
    Ok(out)
}

/// No scope is listed twice, and each means something to the memory store.
pub proof fn scopes_are_distinct(
    selectors: Seq<Seq<char>>,
    n: int,
    workspace: Seq<char>,
    config: FoundConfig,
)
    requires
        0 <= n <= selectors.len(),
    ensures
        resolved_first(selectors, n, workspace, config) matches Ok(found) ==> found.no_duplicates()
            && (forall|i: int| 0 <= i < found.len() ==> is_scope(#[trigger] found[i])),
    decreases n,
{
    if n > 0 {
        scopes_are_distinct(selectors, n - 1, workspace, config);
        scope_is_known(selectors[n - 1], workspace, config);
    }
}

/// What a selector means is always a scope that the memory store knows.
pub proof fn scope_is_known(raw: Seq<char>, workspace: Seq<char>, config: FoundConfig)
    ensures
        resolved(raw, workspace, config) matches Ok(scope) ==> is_scope(scope),
{
    reveal_strlit("project:root");
    reveal_strlit("project:");
    reveal_strlit("workspace:");
    assert("project:"@ =~= "project:root"@.take("project:"@.len() as int));
    assert forall|a: Seq<char>, b: Seq<char>| a.is_prefix_of(#[trigger] (a + b)) by {
        assert((a + b).take(a.len() as int) =~= a);
    }
}

proof fn labelled_scope_is_stable(prefix: Seq<char>, value: Seq<char>)
    requires
        prefix.len() > 0,
        lower(prefix) == prefix,
        !is_white(prefix[0]),
        value.len() > 0,
        is_trim(value),
    ensures
        trim(prefix + value) == prefix + value,
        prefix.is_prefix_of(lower(prefix + value)),
        behind(prefix + value, prefix) == value,
{
    let s = prefix + value;
    assert(s[0] == prefix[0]);
    assert(s.last() == value.last());
    trim_keeps(s);
    trim_keeps(value);
    assert(s.skip(prefix.len() as int) =~= value);
    assert forall|i: int| 0 <= i < prefix.len() implies #[trigger] lower(s)[i] == prefix[i] by {
        assert(lower(prefix)[i] == lower(s)[i]);
    }
    assert(lower(s).take(prefix.len() as int) =~= prefix);
}

/// A scope that was normalised stays as it is when it is normalised once more.
pub proof fn normal_scope_is_stable(raw: Seq<char>)
    ensures
        normal_scope(normal_scope(raw)) == normal_scope(raw),
{
    let s = trim(raw);
    trim_is_trim(raw);
    trim_keeps(s);
    reveal_strlit("global");
    reveal_strlit("project:");
    reveal_strlit("workspace:");
    reveal_strlit("task:");
    reveal_strlit("root");
    assert(lower("global"@) =~= "global"@);
    assert(lower("project:"@) =~= "project:"@);
    assert(lower("workspace:"@) =~= "workspace:"@);
    assert(lower("task:"@) =~= "task:"@);
    trim_keeps("global"@);
    trim_keeps(Seq::<char>::empty());
    if s.len() > 0 && !means(s, "global"@) {
        if "project:"@.is_prefix_of(lower(s)) {
            let value = if behind(s, "project:"@).len() == 0 {
                "root"@
            } else {
                behind(s, "project:"@)
            };
            trim_is_trim(s.skip("project:"@.len() as int));
            labelled_scope_is_stable("project:"@, value);
            assert(lower("project:"@ + value)[0] == 'p');
            assert("global"@[0] == 'g');
        } else if "workspace:"@.is_prefix_of(lower(s)) {
            let value = behind(s, "workspace:"@);
            trim_is_trim(s.skip("workspace:"@.len() as int));
            if value.len() > 0 {
                labelled_scope_is_stable("workspace:"@, value);
                let t = lower("workspace:"@ + value);
                assert(t[0] == 'w');
                assert("global"@[0] == 'g');
                assert(!"project:"@.is_prefix_of(t)) by {
                    if "project:"@.is_prefix_of(t) {
                        assert(t.take("project:"@.len() as int)[0] == t[0]);
                    }
                }
            }
        } else if "task:"@.is_prefix_of(lower(s)) {
            let value = behind(s, "task:"@);
            trim_is_trim(s.skip("task:"@.len() as int));
            if value.len() > 0 {
                labelled_scope_is_stable("task:"@, value);
                let t = lower("task:"@ + value);
                assert(t[0] == 't');
                assert("global"@[0] == 'g');
                assert(!"project:"@.is_prefix_of(t)) by {
                    if "project:"@.is_prefix_of(t) {
                        assert(t.take("project:"@.len() as int)[0] == t[0]);
                    }
                }
                assert(!"workspace:"@.is_prefix_of(t)) by {
                    if "workspace:"@.is_prefix_of(t) {
                        assert(t.take("workspace:"@.len() as int)[0] == t[0]);
                    }
                }
            }
        }
    }
}

} // verus!
