//! The tree of projects that the configuration describes.

use vstd::prelude::*;

use crate::text::same;

verus! {

broadcast use {vstd::seq_lib::group_seq_properties, vstd::string::group_string_axioms};

/// A workspace of a project.
#[derive(Debug, Clone)]
pub struct WorkspaceRef {
    pub name: String,
    pub merged_name: String,
    pub runtime: String,
    pub description: String,
    pub instructions: String,
}

/// A project with its workspaces and child projects.
#[derive(Debug)]
pub struct ProjectNode {
    pub name: String,
    pub alias: String,
    pub prefix: String,
    pub dir: String,
    pub orchestrator_runtime: String,
    pub disable_root_orchestrator: bool,
    pub workspaces: Vec<WorkspaceRef>,
    pub children: Vec<ProjectNode>,
}

/// The larger of two sizes.
pub open spec fn max_nat(a: nat, b: nat) -> nat {
    if a > b { a } else { b }
}

/// The number of projects on the longest way down from `node`.
pub open spec fn tree_depth(node: ProjectNode) -> nat
    decreases node,
{
    1 + forest_depth(node.children@)
}

/// The number of projects on the longest way down from one of `nodes`.
pub open spec fn forest_depth(nodes: Seq<ProjectNode>) -> nat
    decreases nodes,
{
    if nodes.len() == 0 {
        0
    } else {
        max_nat(forest_depth(nodes.drop_last()), tree_depth(nodes.last()))
    }
}

/// No tree of a forest is deeper than the forest.
pub proof fn tree_depth_in_forest(nodes: Seq<ProjectNode>, i: int)
    requires
        0 <= i < nodes.len(),
    ensures
        tree_depth(nodes[i]) <= forest_depth(nodes),
    decreases nodes.len(),
{
    if i < nodes.len() - 1 {
        tree_depth_in_forest(nodes.drop_last(), i);
    }
}

/// The name by which a project is shown: its alias, where it has one.
pub open spec fn shown_name(node: ProjectNode) -> Seq<char> {
    if node.alias@.len() > 0 {
        node.alias@
    } else {
        node.name@
    }
}

impl ProjectNode {
    /// The name by which the project is shown.
    pub fn display_name(&self) -> (r: String)
        ensures
            r@ == shown_name(*self),
    {
        if !self.alias.as_str().is_empty() {
            self.alias.clone()
        } else {
            self.name.clone()
        }
    }
}

/// The name of the orchestrator of a project.
pub open spec fn orchestrator_of(prefix: Seq<char>) -> Seq<char> {
    if prefix.len() == 0 {
        "orchestrator"@
    } else {
        prefix + ".orchestrator"@
    }
}

/// The name of the orchestrator of a project.
pub fn config_orchestrator_name(prefix: &str) -> (r: String)
    ensures
        r@ == orchestrator_of(prefix@),
{
    if prefix.is_empty() {
        "orchestrator".to_owned()
    } else {
        prefix.to_owned().concat(".orchestrator")
    }
}

/// A project has an orchestrator, unless it is the root and the configuration
/// turned that one off.
pub open spec fn has_orchestrator(node: ProjectNode) -> bool {
    !(node.prefix@.len() == 0 && node.disable_root_orchestrator)
}

/// Whether a project has an orchestrator.
pub fn root_orchestrator_visible(node: &ProjectNode) -> (r: bool)
    ensures
        r == has_orchestrator(*node),
{
    !(node.prefix.as_str().is_empty() && node.disable_root_orchestrator)
}

/// One of the workspaces has the merged name.
pub open spec fn has_workspace(workspaces: Seq<WorkspaceRef>, name: Seq<char>) -> bool {
    exists|i: int| 0 <= i < workspaces.len() && (#[trigger] workspaces[i]).merged_name@ == name
}

/// The tree names a workspace or an orchestrator `name`.
pub open spec fn tree_names(node: ProjectNode, name: Seq<char>) -> bool
    decreases node,
{
    ||| has_orchestrator(node) && name == orchestrator_of(node.prefix@)
    ||| has_workspace(node.workspaces@, name)
    ||| forest_names(node.children@, name)
}

/// One of the trees names a workspace or an orchestrator `name`.
pub open spec fn forest_names(nodes: Seq<ProjectNode>, name: Seq<char>) -> bool
    decreases nodes,
{
    nodes.len() > 0 && (forest_names(nodes.drop_last(), name) || tree_names(nodes.last(), name))
}

/// Whether the tree names a workspace or an orchestrator `name`.
pub fn is_in_tree(node: &ProjectNode, name: &str) -> (r: bool)
    ensures
        r == tree_names(*node, name@),
    decreases *node,
{
    if root_orchestrator_visible(node) {
        let orchestrator = config_orchestrator_name(node.prefix.as_str());
        if same(name, orchestrator.as_str()) {
            return true;
        }
    }
    let mut i: usize = 0;
    while i < node.workspaces.len()
        invariant
            i <= node.workspaces@.len(),
            forall|j: int| 0 <= j < i ==> (#[trigger] node.workspaces@[j]).merged_name@ != name@,
        decreases node.workspaces@.len() - i,
    {
        if same(node.workspaces[i].merged_name.as_str(), name) {
            return true;
        }
        i = i + 1;
    }
    let mut k: usize = 0;
    while k < node.children.len()
        invariant
            k <= node.children@.len(),
            !forest_names(node.children@.take(k as int), name@),
        decreases node.children@.len() - k,
    {
        proof {
            assert(node.children@.take(k + 1).drop_last() =~= node.children@.take(k as int));
        }
        if is_in_tree(&node.children[k], name) {
            proof {
                named_in_part(node.children@, k + 1, name@);
            }
            return true;
        }
        k = k + 1;
    }
    proof {
        assert(node.children@.take(node.children@.len() as int) =~= node.children@);
    }
    false
}

proof fn named_in_part(nodes: Seq<ProjectNode>, n: int, name: Seq<char>)
    requires
        0 <= n <= nodes.len(),
        forest_names(nodes.take(n), name),
    ensures
        forest_names(nodes, name),
    decreases nodes.len() - n,
{
    if n < nodes.len() {
        assert(nodes.take(n + 1).drop_last() =~= nodes.take(n));
        named_in_part(nodes, n + 1, name);
    } else {
        assert(nodes.take(n) =~= nodes);
    }
}

} // verus!
