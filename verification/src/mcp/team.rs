//! The tools that change the team.

use vstd::prelude::*;

use crate::config::ProjectNode;
use crate::keyed::TextMap;
use crate::mcp::errors::{
    about, internal, invalid, or_empty, quoted, text_or_empty, Refusal, ToolError,
};
use crate::mcp::requests::{
    TeamChildSpecInput, TeamReconfigureChangeInput, TeamReconfigureRequest, TeamWorkspaceSpecInput,
};
use crate::mcp::server::Server;
use crate::proto::payloads::{
    FinishTeamReconfigurePayload, GetTeamStatePayload, TeamReconfigurePayload,
};
use crate::proto::types::{
    TeamApplyTicket, TeamChangeOp, TeamChildSpec, TeamEntryKind, TeamReconcileMode,
    TeamReconfigureAction, TeamReconfigureChange, TeamWorkspaceSpec,
};
use crate::text::{join, join_all, same, texts, trim, trimmed};

verus! {

broadcast use vstd::string::group_string_axioms;

/// A way to carry a change out, where one is named.
pub open spec fn mode_named(raw: Seq<char>) -> Result<Option<TeamReconcileMode>, Seq<char>> {
    if raw.len() == 0 {
        Ok(None)
    } else if raw == "artifacts_only"@ {
        Ok(Some(TeamReconcileMode::ArtifactsOnly))
    } else if raw == "start_missing"@ {
        Ok(Some(TeamReconcileMode::StartMissing))
    } else {
        Err(
            "invalid reconcile_mode "@ + quoted(raw)
                + " (must be artifacts_only or start_missing)"@,
        )
    }
}

/// A way to carry a change out, as a value.
pub open spec fn mode_view(r: Result<Option<TeamReconcileMode>, String>) -> Result<
    Option<TeamReconcileMode>,
    Seq<char>,
> {
    match r {
        Ok(m) => Ok(m),
        Err(e) => Err(e@),
    }
}

/// A text without white space around it; none counts as empty.
pub open spec fn trim_or_empty(raw: Option<String>) -> Seq<char> {
    match raw {
        Some(t) => trim(t@),
        None => Seq::empty(),
    }
}

/// A way to carry a change out, where one is named.
pub fn parse_reconcile_mode(raw: Option<&str>) -> (r: Result<Option<TeamReconcileMode>, String>)
    ensures
        mode_view(r) == mode_named(
            match raw {
                Some(t) => trim(t@),
                None => Seq::empty(),
            },
        ),
{
    let text = match raw {
        Some(t) => trimmed(t),
        None => String::new(),
    };
    let v = text.as_str();
    if v.is_empty() {
        Ok(None)
    } else if same(v, "artifacts_only") {
        Ok(Some(TeamReconcileMode::ArtifactsOnly))
    } else if same(v, "start_missing") {
        Ok(Some(TeamReconcileMode::StartMissing))
    } else {
        Err(
            about("invalid reconcile_mode ", v, " (must be artifacts_only or start_missing)"),
        )
    }
}

/// What a change does.
pub open spec fn op_named(raw: Seq<char>) -> Option<TeamChangeOp> {
    if raw == "add"@ {
        Some(TeamChangeOp::Add)
    } else if raw == "remove"@ {
        Some(TeamChangeOp::Remove)
    } else if raw == "enable"@ {
        Some(TeamChangeOp::Enable)
    } else if raw == "disable"@ {
        Some(TeamChangeOp::Disable)
    } else {
        None
    }
}

fn parse_op(raw: &str) -> (r: Option<TeamChangeOp>)
    ensures
        r == op_named(raw@),
{
    if same(raw, "add") {
        Some(TeamChangeOp::Add)
    } else if same(raw, "remove") {
        Some(TeamChangeOp::Remove)
    } else if same(raw, "enable") {
        Some(TeamChangeOp::Enable)
    } else if same(raw, "disable") {
        Some(TeamChangeOp::Disable)
    } else {
        None
    }
}

/// What a change is about.
pub open spec fn kind_named(raw: Seq<char>) -> Option<TeamEntryKind> {
    if raw == "workspace"@ {
        Some(TeamEntryKind::Workspace)
    } else if raw == "child"@ {
        Some(TeamEntryKind::Child)
    } else if raw == "root_orchestrator"@ {
        Some(TeamEntryKind::RootOrchestrator)
    } else {
        None
    }
}

fn parse_kind(raw: &str) -> (r: Option<TeamEntryKind>)
    ensures
        r == kind_named(raw@),
{
    if same(raw, "workspace") {
        Some(TeamEntryKind::Workspace)
    } else if same(raw, "child") {
        Some(TeamEntryKind::Child)
    } else if same(raw, "root_orchestrator") {
        Some(TeamEntryKind::RootOrchestrator)
    } else {
        None
    }
}

/// The map holds what was given, or nothing where nothing was given.
pub open spec fn env_carried(env: TextMap<String>, given: Option<TextMap<String>>) -> bool {
    match given {
        Some(g) => env == g,
        None => env.keys@.len() == 0 && env.values@.len() == 0,
    }
}

/// A workspace to be added says what was asked for.
pub open spec fn spec_carried(spec: TeamWorkspaceSpec, input: TeamWorkspaceSpecInput) -> bool {
    &&& spec.dir == input.dir
    &&& spec.description@ == or_empty(input.description)
    &&& spec.shell@ == or_empty(input.shell)
    &&& spec.runtime@ == or_empty(input.runtime)
    &&& spec.codex_model_reasoning_effort@ == or_empty(input.codex_model_reasoning_effort)
    &&& spec.agent@ == or_empty(input.agent)
    &&& spec.instructions@ == or_empty(input.instructions)
    &&& env_carried(spec.env, input.env)
}

impl TeamWorkspaceSpecInput {
    /// The workspace to be added.
    pub fn into_spec(self) -> (r: TeamWorkspaceSpec)
        ensures
            spec_carried(r, self),
    {
        TeamWorkspaceSpec {
            dir: self.dir,
            description: text_or_empty(self.description),
            shell: text_or_empty(self.shell),
            runtime: text_or_empty(self.runtime),
            codex_model_reasoning_effort: text_or_empty(self.codex_model_reasoning_effort),
            agent: text_or_empty(self.agent),
            instructions: text_or_empty(self.instructions),
            env: match self.env {
                Some(env) => env,
                None => TextMap::new(),
            },
        }
    }
}

/// A project to be added says what was asked for.
pub open spec fn child_carried(spec: TeamChildSpec, input: TeamChildSpecInput) -> bool {
    spec.dir == input.dir && spec.prefix@ == or_empty(input.prefix)
}

impl TeamChildSpecInput {
    /// The project to be added.
    pub fn into_spec(self) -> (r: TeamChildSpec)
        ensures
            child_carried(r, self),
    {
        TeamChildSpec { dir: self.dir, prefix: text_or_empty(self.prefix) }
    }
}

/// What is wrong with a change, if anything is.
pub open spec fn change_problem(input: TeamReconfigureChangeInput) -> Option<Seq<char>> {
    if op_named(trim(input.op@)) is None {
        Some("invalid change op "@ + quoted(trim(input.op@)))
    } else if kind_named(trim(input.kind@)) is None {
        Some("invalid change kind "@ + quoted(trim(input.kind@)))
    } else {
        None
    }
}

/// A change says what was asked for.
pub open spec fn change_carried(
    change: TeamReconfigureChange,
    input: TeamReconfigureChangeInput,
) -> bool {
    &&& Some(change.op) == op_named(trim(input.op@))
    &&& Some(change.kind) == kind_named(trim(input.kind@))
    &&& change.name@ == or_empty(input.name)
    &&& match input.workspace {
        Some(ws) => change.workspace matches Some(spec) && spec_carried(spec, ws),
        None => change.workspace is None,
    }
    &&& match input.child {
        Some(child) => change.child matches Some(spec) && child_carried(spec, child),
        None => change.child is None,
    }
}

fn quoted_at_end(before: &str, text: &str) -> (r: String)
    ensures
        r@ == before@ + quoted(text@),
{
    proof {
        reveal_strlit("");
    }
    let r = about(before, text, "");
    proof {
        assert(r@ =~= before@ + quoted(text@));
    }
    r
}

/// A change as it is asked for.
pub fn convert_change(input: TeamReconfigureChangeInput) -> (r: Result<
    TeamReconfigureChange,
    String,
>)
    ensures
        match change_problem(input) {
            Some(problem) => r matches Err(e) && e@ == problem,
            None => r matches Ok(change) && change_carried(change, input),
        },
        r matches Ok(change) ==> match change.op {
            TeamChangeOp::Add => trim(input.op@) == "add"@,
            TeamChangeOp::Remove => trim(input.op@) == "remove"@,
            TeamChangeOp::Enable => trim(input.op@) == "enable"@,
            TeamChangeOp::Disable => trim(input.op@) == "disable"@,
        },
        r matches Ok(change) ==> match change.kind {
            TeamEntryKind::Workspace => trim(input.kind@) == "workspace"@,
            TeamEntryKind::Child => trim(input.kind@) == "child"@,
            TeamEntryKind::RootOrchestrator => trim(input.kind@) == "root_orchestrator"@,
        },
{
    let op_text = trimmed(input.op.as_str());
    let op = match parse_op(op_text.as_str()) {
        Some(op) => op,
        None => return Err(quoted_at_end("invalid change op ", op_text.as_str())),
    };
    let kind_text = trimmed(input.kind.as_str());
    let kind = match parse_kind(kind_text.as_str()) {
        Some(kind) => kind,
        None => return Err(quoted_at_end("invalid change kind ", kind_text.as_str())),
    };
    Ok(
        TeamReconfigureChange {
            op,
            kind,
            name: text_or_empty(input.name),
            workspace: match input.workspace {
                Some(ws) => Some(ws.into_spec()),
                None => None,
            },
            child: match input.child {
                Some(child) => Some(child.into_spec()),
                None => None,
            },
        },
    )
}

/// What is wrong with changes, if anything is; the first that is wrong counts.
pub open spec fn changes_problem(inputs: Seq<TeamReconfigureChangeInput>) -> Option<Seq<char>>
    decreases inputs.len(),
{
    if inputs.len() == 0 {
        None
    } else {
        match change_problem(inputs[0]) {
            Some(problem) => Some(problem),
            None => changes_problem(inputs.skip(1)),
        }
    }
}

/// Each change says what was asked for.
pub open spec fn changes_carried(
    changes: Seq<TeamReconfigureChange>,
    inputs: Seq<TeamReconfigureChangeInput>,
) -> bool {
    changes.len() == inputs.len() && forall|i: int|
        0 <= i < inputs.len() ==> change_carried(#[trigger] changes[i], inputs[i])
}

/// Changes as they are asked for.
#[verifier::loop_isolation(false)]
pub fn convert_changes(inputs: Vec<TeamReconfigureChangeInput>) -> (r: Result<
    Vec<TeamReconfigureChange>,
    String,
>)
    ensures
        match changes_problem(inputs@) {
            Some(problem) => r matches Err(e) && e@ == problem,
            None => r matches Ok(changes) && changes_carried(changes@, inputs@),
        },
{
    let ghost all = inputs@;
    let mut rest = inputs;
    let mut out: Vec<TeamReconfigureChange> = Vec::new();
    proof {
        assert(all.skip(0) =~= all);
    }
    while rest.len() > 0
        invariant
            rest@.len() + out@.len() == all.len(),
            rest@ == all.skip(out@.len() as int),
            changes_problem(all) == changes_problem(rest@),
            forall|i: int| 0 <= i < out@.len() ==> change_carried(#[trigger] out@[i], all[i]),
        decreases rest@.len(),
    {
        let ghost before = rest@;
        let ghost done = out@.len() as int;
        let input = rest.remove(0);
        proof {
            assert(input == all[done]);
            assert(rest@ =~= before.skip(1));
            assert(before.skip(1) =~= all.skip(done + 1));
        }
        match convert_change(input) {
            Ok(change) => out.push(change),
            Err(e) => return Err(e),
        }
    }
    Ok(out)
}

/// What the daemon is told of a change of the team.
pub open spec fn change_told(
    p: TeamReconfigurePayload,
    req: TeamReconfigureRequest,
    config_path: Seq<char>,
    mode: Option<TeamReconcileMode>,
) -> bool {
    &&& p.config_path@ == config_path
    &&& p.expected_revision == req.expected_revision
    &&& changes_carried(p.changes@, req.changes@)
    &&& p.reconcile_mode == mode
}

/// Why a plan for the team is refused, if it is.
pub open spec fn plan_problem(
    req: TeamReconfigureRequest,
    config: Result<Seq<char>, Refusal>,
) -> Option<Refusal> {
    if req.changes@.len() == 0 {
        Some(invalid("changes must contain at least one entry"@))
    } else if config is Err {
        Some(config->Err_0)
    } else {
        match changes_problem(req.changes@) {
            Some(problem) => Some(invalid(problem)),
            None => None,
        }
    }
}

/// Why a change of the team is refused, if it is.
pub open spec fn apply_problem(
    req: TeamReconfigureRequest,
    config: Result<Seq<char>, Refusal>,
) -> Option<Refusal> {
    if req.changes@.len() == 0 {
        Some(invalid("changes must contain at least one entry"@))
    } else if mode_named(trim_or_empty(req.reconcile_mode)) is Err {
        Some(invalid(mode_named(trim_or_empty(req.reconcile_mode))->Err_0))
    } else {
        plan_problem(req, config)
    }
}

/// How a change of the team is carried out: without starting anything, unless it
/// says so.
pub open spec fn apply_mode(req: TeamReconfigureRequest) -> TeamReconcileMode {
    match mode_named(trim_or_empty(req.reconcile_mode)) {
        Ok(Some(mode)) => mode,
        _ => TeamReconcileMode::ArtifactsOnly,
    }
}

/// The configuration that a change is carried out by: the one that was put
/// together, else the base.
pub open spec fn path_applied(ticket: TeamApplyTicket) -> Option<Seq<char>> {
    let effective = trim(ticket.plan.state.effective_config_path@);
    let base = trim(ticket.plan.state.base_config_path@);
    if effective.len() > 0 {
        Some(effective)
    } else if base.len() > 0 {
        Some(base)
    } else {
        None
    }
}

/// The configuration that a change is carried out by.
pub fn reconcile_path(ticket: &TeamApplyTicket) -> (r: Result<String, String>)
    ensures
        match path_applied(*ticket) {
            Some(path) => r matches Ok(p) && p@ == path,
            None => r matches Err(e) && e@
                == "team apply ticket is missing an effective config path"@,
        },
{
    let effective = trimmed(ticket.plan.state.effective_config_path.as_str());
    let base = trimmed(ticket.plan.state.base_config_path.as_str());
    if !effective.as_str().is_empty() {
        Ok(effective)
    } else if !base.as_str().is_empty() {
        Ok(base)
    } else {
        Err("team apply ticket is missing an effective config path".to_owned())
    }
}

/// How far the reconciler may go.
#[derive(Debug, Clone, Copy, PartialEq, Eq, Structural)]
pub struct ReconcileLimits {
    pub daemon_running: bool,
    pub allow_disruptive_changes: bool,
}

/// How far the reconciler may go: only where missing sessions are to be started
/// may it touch what runs.
#[verifier::allow_in_spec]
pub fn reconcile_limits(mode: TeamReconcileMode) -> ReconcileLimits
    returns
        (ReconcileLimits {
            daemon_running: mode == TeamReconcileMode::StartMissing,
            allow_disruptive_changes: mode == TeamReconcileMode::StartMissing,
        }),
{
    let start = match mode {
        TeamReconcileMode::StartMissing => true,
        TeamReconcileMode::ArtifactsOnly => false,
    };
    ReconcileLimits { daemon_running: start, allow_disruptive_changes: start }
}

/// Whether a project is to run without its root orchestrator.
#[verifier::allow_in_spec]
pub fn tree_disables_root(tree: &ProjectNode) -> bool
    returns
        tree.disable_root_orchestrator,
{
    tree.disable_root_orchestrator
}

/// Something that the reconciler did.
#[derive(Debug, Clone)]
pub struct ReconcileAction {
    pub kind: String,
    pub name: String,
    pub operation: String,
    pub details: String,
}

/// What the reconciler did.
#[derive(Debug, Clone)]
pub struct ReconcileReport {
    pub actions: Vec<ReconcileAction>,
    pub root_manual_restart_required: bool,
    pub root_manual_restart_reasons: Vec<String>,
}

/// What something that the reconciler did was done to.
pub open spec fn action_kind(value: Seq<char>) -> Option<TeamEntryKind> {
    if trim(value) == "workspace"@ {
        Some(TeamEntryKind::Workspace)
    } else if trim(value) == "orchestrator"@ {
        Some(TeamEntryKind::RootOrchestrator)
    } else {
        None
    }
}

/// What something that the reconciler did was done to.
pub fn reconcile_action_kind(value: &str) -> (r: Option<TeamEntryKind>)
    ensures
        r == action_kind(value@),
{
    let text = trimmed(value);
    if same(text.as_str(), "workspace") {
        Some(TeamEntryKind::Workspace)
    } else if same(text.as_str(), "orchestrator") {
        Some(TeamEntryKind::RootOrchestrator)
    } else {
        None
    }
}

/// Something that was done to the team, as a value.
pub struct TeamDeed {
    pub action: Seq<char>,
    pub kind: TeamEntryKind,
    pub name: Seq<char>,
    pub dir: Seq<char>,
    pub detail: Seq<char>,
}

impl View for TeamReconfigureAction {
    type V = TeamDeed;

    open spec fn view(&self) -> TeamDeed {
        TeamDeed {
            action: self.action@,
            kind: self.kind,
            name: self.name@,
            dir: self.dir@,
            detail: self.detail@,
        }
    }
}

/// What was done to the team.
pub open spec fn deeds_of(actions: Seq<TeamReconfigureAction>) -> Seq<TeamDeed> {
    actions.map_values(|a: TeamReconfigureAction| a@)
}

/// What was done to the team, from what the reconciler did to workspaces and
/// orchestrators.
pub open spec fn deeds_reported(actions: Seq<ReconcileAction>) -> Seq<TeamDeed>
    decreases actions.len(),
{
    if actions.len() == 0 {
        Seq::empty()
    } else {
        let earlier = deeds_reported(actions.drop_last());
        let last = actions.last();
        match action_kind(last.kind@) {
            Some(kind) => earlier.push(
                TeamDeed {
                    action: last.operation@,
                    kind,
                    name: last.name@,
                    dir: Seq::empty(),
                    detail: last.details@,
                },
            ),
            None => earlier,
        }
    }
}

/// What was done to the team; at the end stands what has to be done by hand.
pub open spec fn team_deeds(report: ReconcileReport) -> Seq<TeamDeed> {
    let done = deeds_reported(report.actions@);
    if report.root_manual_restart_required {
        done.push(
            TeamDeed {
                action: "manual_restart_required"@,
                kind: TeamEntryKind::RootOrchestrator,
                name: "orchestrator"@,
                dir: Seq::empty(),
                detail: join(texts(report.root_manual_restart_reasons@), "; "@),
            },
        )
    } else {
        done
    }
}

/// What was done to the team.
pub fn team_actions_from_reconcile_report(report: &ReconcileReport) -> (r: Vec<
    TeamReconfigureAction,
>)
    ensures
        deeds_of(r@) == team_deeds(*report),
{
    let all = &report.actions;
    let mut out: Vec<TeamReconfigureAction> = Vec::new();
    let mut i: usize = 0;
    proof {
        assert(deeds_of(out@) =~= deeds_reported(all@.take(0)));
    }
    while i < all.len()
        invariant
            i <= all@.len(),
            deeds_of(out@) == deeds_reported(all@.take(i as int)),
        decreases all@.len() - i,
    {
        let a = &all[i];
        proof {
            assert(all@.take(i + 1).drop_last() =~= all@.take(i as int));
            assert(all@.take(i + 1).last() == *a);
        }
        if let Some(kind) = reconcile_action_kind(a.kind.as_str()) {
            let ghost pre = out@;
            out.push(
                TeamReconfigureAction {
                    action: a.operation.clone(),
                    kind,
                    name: a.name.clone(),
                    dir: String::new(),
                    detail: a.details.clone(),
                },
            );
            proof {
                assert(deeds_of(out@) =~= deeds_of(pre).push(out@.last()@));
                assert(out@.last()@.dir =~= Seq::empty());
            }
        }
        i = i + 1;
    }
    proof {
        assert(all@.take(all@.len() as int) =~= all@);
    }
    if report.root_manual_restart_required {
        let ghost pre = out@;
        out.push(
            TeamReconfigureAction {
                action: "manual_restart_required".to_owned(),
                kind: TeamEntryKind::RootOrchestrator,
                name: "orchestrator".to_owned(),
                dir: String::new(),
                detail: join_all(&report.root_manual_restart_reasons, "; "),
            },
        );
        proof {
            assert(deeds_of(out@) =~= deeds_of(pre).push(out@.last()@));
            assert(out@.last()@.dir =~= Seq::empty());
        }
    }
    out
}

/// What the daemon is told when a change was carried out, or was not.
pub fn finish_team(ticket: &TeamApplyTicket, outcome: &Result<ReconcileReport, String>) -> (r:
    FinishTeamReconfigurePayload)
    ensures
        r.token@ == ticket.token@,
        r.success == (*outcome is Ok),
        match *outcome {
            Ok(report) => r.error@.len() == 0 && deeds_of(r.actions@) == team_deeds(report),
            Err(why) => r.error@ == why@ && r.actions@.len() == 0,
        },
{
    match outcome {
        Ok(report) => FinishTeamReconfigurePayload {
            token: ticket.token.clone(),
            success: true,
            error: String::new(),
            actions: team_actions_from_reconcile_report(report),
        },
        Err(why) => FinishTeamReconfigurePayload {
            token: ticket.token.clone(),
            success: false,
            error: why.clone(),
            actions: Vec::new(),
        },
    }
}

/// What is said when a change could not be carried out. `unfinished` is why the
/// daemon could not be told so, if it could not.
pub open spec fn reconcile_failure(
    token: Seq<char>,
    why: Seq<char>,
    unfinished: Option<Seq<char>>,
) -> Refusal {
    let failed = "Team reconfiguration "@ + quoted(token) + " failed during reconcile: "@ + why;
    internal(
        match unfinished {
            None => failed,
            Some(error) => failed + " (finalize error: "@ + error + ")"@,
        },
    )
}

/// What is said when a change could not be carried out.
pub fn reconcile_failed(token: &str, why: &str, unfinished: Option<&str>) -> (r: ToolError)
    ensures
        r@ == reconcile_failure(token@, why@, text_found(unfinished)),
{
    let text = about("Team reconfiguration ", token, " failed during reconcile: ").concat(why);
    match unfinished {
        None => ToolError::internal_error(text),
        Some(error) => ToolError::internal_error(
            text.concat(" (finalize error: ").concat(error).concat(")"),
        ),
    }
}

/// What is said when a change was carried out and the daemon could not be told so.
pub open spec fn finalize_failure(token: Seq<char>, error: Seq<char>) -> Refusal {
    internal("Failed to finalize team reconfiguration "@ + quoted(token) + ": "@ + error)
}

/// What is said when a change was carried out and the daemon could not be told so.
pub fn finalize_failed(token: &str, error: &str) -> (r: ToolError)
    ensures
        r@ == finalize_failure(token@, error@),
{
    ToolError::internal_error(
        about("Failed to finalize team reconfiguration ", token, ": ").concat(error),
    )
}

/// What a change of the team comes to. It succeeds where it was carried out and
/// the daemon was told so; `unfinished` is why the daemon could not be told, if it
/// could not.
pub fn team_outcome(
    ticket: &TeamApplyTicket,
    reconciled: &Result<ReconcileReport, String>,
    unfinished: Option<&str>,
) -> (r: Result<(), ToolError>)
    ensures
        r is Ok <==> (*reconciled is Ok && unfinished is None),
        match (*reconciled, text_found(unfinished)) {
            (Err(why), error) => r matches Err(e) && e@ == reconcile_failure(
                ticket.token@,
                why@,
                error,
            ),
            (Ok(_), Some(error)) => r matches Err(e) && e@ == finalize_failure(
                ticket.token@,
                error,
            ),
            (Ok(_), None) => r is Ok,
        },
{
    match reconciled {
        Err(why) => Err(reconcile_failed(ticket.token.as_str(), why.as_str(), unfinished)),
        Ok(_) => match unfinished {
            Some(error) => Err(finalize_failed(ticket.token.as_str(), error)),
            None => Ok(()),
        },
    }
}

/// An optional text.
pub open spec fn text_found(found: Option<&str>) -> Option<Seq<char>> {
    match found {
        Some(p) => Some(p@),
        None => None,
    }
}

impl Server {
    /// Reads the state of the team.
    pub fn get_team_state(&self, found: Option<&str>) -> (r: Result<GetTeamStatePayload, ToolError>)
        ensures
            match self.base_config(text_found(found)) {
                Ok(path) => r matches Ok(p) && p.config_path@ == path,
                Err(refusal) => r matches Err(e) && e@ == refusal,
            },
    {
        match self.resolve_base_config_path(found) {
            Ok(config_path) => Ok(GetTeamStatePayload { config_path }),
            Err(e) => Err(e),
        }
    }

    /// Plans a change of the team.
    pub fn dry_run_team_reconfigure(&self, req: TeamReconfigureRequest, found: Option<&str>) -> (r:
        Result<TeamReconfigurePayload, ToolError>)
        ensures
            match plan_problem(req, self.base_config(text_found(found))) {
                Some(refusal) => r matches Err(e) && e@ == refusal,
                None => r matches Ok(p) && change_told(
                    p,
                    req,
                    self.base_config(text_found(found))->Ok_0,
                    None,
                ),
            },
    {
        if req.changes.len() == 0 {
            return Err(ToolError::invalid_params_str("changes must contain at least one entry"));
        }
        let config_path = match self.resolve_base_config_path(found) {
            Ok(p) => p,
            Err(e) => return Err(e),
        };
        match convert_changes(req.changes) {
            Err(e) => Err(ToolError::invalid_params(e)),
            Ok(changes) => Ok(
                TeamReconfigurePayload {
                    config_path,
                    expected_revision: req.expected_revision,
                    changes,
                    reconcile_mode: None,
                },
            ),
        }
    }

    /// Changes the team.
    pub fn apply_team_reconfigure(&self, req: TeamReconfigureRequest, found: Option<&str>) -> (r:
        Result<TeamReconfigurePayload, ToolError>)
        ensures
            match apply_problem(req, self.base_config(text_found(found))) {
                Some(refusal) => r matches Err(e) && e@ == refusal,
                None => r matches Ok(p) && change_told(
                    p,
                    req,
                    self.base_config(text_found(found))->Ok_0,
                    Some(apply_mode(req)),
                ),
            },
    {
        if req.changes.len() == 0 {
            return Err(ToolError::invalid_params_str("changes must contain at least one entry"));
        }
        let raw: Option<&str> = match &req.reconcile_mode {
            Some(t) => Some(t.as_str()),
            None => None,
        };
        let mode = match parse_reconcile_mode(raw) {
            Err(e) => return Err(ToolError::invalid_params(e)),
            Ok(Some(mode)) => mode,
            Ok(None) => TeamReconcileMode::ArtifactsOnly,
        };
        let config_path = match self.resolve_base_config_path(found) {
            Ok(p) => p,
            Err(e) => return Err(e),
        };
        match convert_changes(req.changes) {
            Err(e) => Err(ToolError::invalid_params(e)),
            Ok(changes) => Ok(
                TeamReconfigurePayload {
                    config_path,
                    expected_revision: req.expected_revision,
                    changes,
                    reconcile_mode: Some(mode),
                },
            ),
        }
    }
}

/// Whatever would be applied can be planned first, with the same refusals but
/// for the way it is carried out.
pub proof fn applicable_is_plannable(
    req: TeamReconfigureRequest,
    config: Result<Seq<char>, Refusal>,
)
    ensures
        apply_problem(req, config) is None ==> plan_problem(req, config) is None,
{
}

} // verus!
