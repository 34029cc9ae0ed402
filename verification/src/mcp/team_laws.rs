//! What holds of every change of the team.

use vstd::prelude::*;

use crate::mcp::errors::{invalid, quoted, ErrorKind, Refusal};
use crate::mcp::requests::{
    TeamChildSpecInput, TeamReconfigureChangeInput, TeamReconfigureRequest, TeamWorkspaceSpecInput,
};
use crate::mcp::team::{
    action_kind, apply_mode, apply_problem, change_carried, change_problem, change_told,
    changes_problem, child_carried, deeds_reported, finalize_failure, mode_named, op_named,
    path_applied, plan_problem, reconcile_failure, reconcile_limits, spec_carried, team_deeds,
    ReconcileAction, ReconcileReport,
};
use crate::proto::payloads::TeamReconfigurePayload;
use crate::proto::types::{
    TeamApplyTicket, TeamChangeOp, TeamChildSpec, TeamEntryKind, TeamReconcileMode,
    TeamReconfigureChange, TeamWorkspaceSpec,
};
use crate::text::{join, texts, trim};

verus! {

/// The words for what a change does differ from each other.
proof fn ops_differ()
    ensures
        "add"@ != "remove"@,
        "add"@ != "enable"@,
        "add"@ != "disable"@,
        "remove"@ != "enable"@,
        "remove"@ != "disable"@,
        "enable"@ != "disable"@,
{
    reveal_strlit("add");
    reveal_strlit("remove");
    reveal_strlit("enable");
    reveal_strlit("disable");
    assert("add"@.len() == 3 && "remove"@.len() == 6 && "enable"@.len() == 6 && "disable"@.len()
        == 7);
    assert("remove"@[0] == 'r' && "enable"@[0] == 'e');
}

/// The words for what a change is about differ from each other.
proof fn kinds_differ()
    ensures
        "workspace"@ != "child"@,
        "workspace"@ != "root_orchestrator"@,
        "child"@ != "root_orchestrator"@,
{
    reveal_strlit("workspace");
    reveal_strlit("child");
    reveal_strlit("root_orchestrator");
    assert("workspace"@.len() == 9 && "child"@.len() == 5 && "root_orchestrator"@.len() == 17);
}

/// A change does what its word says: the one that is to enable enables, the one
/// that is to disable disables, and so for the other two.
pub proof fn change_does_what_it_is_called(
    change: TeamReconfigureChange,
    input: TeamReconfigureChangeInput,
)
    requires
        change_carried(change, input),
    ensures
        change.op == TeamChangeOp::Add <==> trim(input.op@) == "add"@,
        change.op == TeamChangeOp::Remove <==> trim(input.op@) == "remove"@,
        change.op == TeamChangeOp::Enable <==> trim(input.op@) == "enable"@,
        change.op == TeamChangeOp::Disable <==> trim(input.op@) == "disable"@,
{
    ops_differ();
}

/// A change is about what its word says.
pub proof fn change_is_about_what_it_names(
    change: TeamReconfigureChange,
    input: TeamReconfigureChangeInput,
)
    requires
        change_carried(change, input),
    ensures
        change.kind == TeamEntryKind::Workspace <==> trim(input.kind@) == "workspace"@,
        change.kind == TeamEntryKind::Child <==> trim(input.kind@) == "child"@,
        change.kind == TeamEntryKind::RootOrchestrator <==> trim(input.kind@)
            == "root_orchestrator"@,
        change.name@ == if input.name is Some {
            input.name->0@
        } else {
            Seq::empty()
        },
        change.workspace is Some <==> input.workspace is Some,
        change.workspace is Some ==> change.workspace->0.dir@ == input.workspace->0.dir@,
        change.child is Some <==> input.child is Some,
        change.child is Some ==> change.child->0.dir@ == input.child->0.dir@,
{
    kinds_differ();
}

/// A change can be made out exactly where both words are known.
pub proof fn known_words_are_accepted(input: TeamReconfigureChangeInput)
    ensures
        change_problem(input) is None <==> (trim(input.op@) == "add"@ || trim(input.op@)
            == "remove"@ || trim(input.op@) == "enable"@ || trim(input.op@) == "disable"@) && (trim(
            input.kind@,
        ) == "workspace"@ || trim(input.kind@) == "child"@ || trim(input.kind@)
            == "root_orchestrator"@),
{
}

/// Of several changes that cannot be made out the first is the one that is told;
/// where each can be made out, nothing is wrong.
pub proof fn first_bad_change_is_told(inputs: Seq<TeamReconfigureChangeInput>)
    ensures
        changes_problem(inputs) is None <==> forall|i: int|
            0 <= i < inputs.len() ==> change_problem(#[trigger] inputs[i]) is None,
        changes_problem(inputs) is Some ==> exists|i: int|
            0 <= i < inputs.len() && change_problem(#[trigger] inputs[i]) == changes_problem(inputs)
                && forall|j: int| 0 <= j < i ==> change_problem(#[trigger] inputs[j]) is None,
    decreases inputs.len(),
{
    if inputs.len() > 0 {
        let rest = inputs.skip(1);
        first_bad_change_is_told(rest);
        assert forall|i: int| 0 <= i < rest.len() implies #[trigger] rest[i] == inputs[i + 1] by {}
        if change_problem(inputs[0]) is None {
            if changes_problem(rest) is Some {
                let i = choose|i: int|
                    0 <= i < rest.len() && change_problem(#[trigger] rest[i]) == changes_problem(
                        rest,
                    ) && forall|j: int| 0 <= j < i ==> change_problem(#[trigger] rest[j]) is None;
                assert(change_problem(inputs[i + 1]) == changes_problem(inputs));
                assert forall|j: int| 0 <= j < i + 1 implies change_problem(
                    #[trigger] inputs[j],
                ) is None by {
                    if j > 0 {
                        assert(rest[j - 1] == inputs[j]);
                    }
                }
            } else {
                assert forall|j: int| 0 <= j < inputs.len() implies change_problem(
                    #[trigger] inputs[j],
                ) is None by {
                    if j > 0 {
                        assert(rest[j - 1] == inputs[j]);
                    }
                }
            }
        } else {
            assert(change_problem(inputs[0]) == changes_problem(inputs));
        }
    }
}

/// A way to carry a change out is known by its name and by no other; nothing said
/// is no way, and anything else is refused.
pub proof fn modes_go_by_name(raw: Seq<char>)
    ensures
        mode_named(raw) == Ok::<Option<TeamReconcileMode>, Seq<char>>(
            Some(TeamReconcileMode::ArtifactsOnly),
        ) <==> raw == "artifacts_only"@,
        mode_named(raw) == Ok::<Option<TeamReconcileMode>, Seq<char>>(
            Some(TeamReconcileMode::StartMissing),
        ) <==> raw == "start_missing"@,
        mode_named(raw) == Ok::<Option<TeamReconcileMode>, Seq<char>>(None) <==> raw.len() == 0,
        mode_named(raw) is Err <==> raw.len() > 0 && raw != "artifacts_only"@ && raw
            != "start_missing"@,
{
    reveal_strlit("artifacts_only");
    reveal_strlit("start_missing");
    assert("artifacts_only"@.len() == 14 && "start_missing"@.len() == 13);
}

/// A change of the team starts something only where the request says so, and only
/// then may the reconciler disrupt what runs.
pub proof fn nothing_starts_unasked(req: TeamReconfigureRequest)
    ensures
        apply_mode(req) == TeamReconcileMode::StartMissing <==> req.reconcile_mode is Some && trim(
            req.reconcile_mode->0@,
        ) == "start_missing"@,
        apply_mode(req) != TeamReconcileMode::StartMissing ==> apply_mode(req)
            == TeamReconcileMode::ArtifactsOnly,
        reconcile_limits(TeamReconcileMode::StartMissing).daemon_running,
        reconcile_limits(TeamReconcileMode::StartMissing).allow_disruptive_changes,
        !reconcile_limits(TeamReconcileMode::ArtifactsOnly).daemon_running,
        !reconcile_limits(TeamReconcileMode::ArtifactsOnly).allow_disruptive_changes,
{
    reveal_strlit("artifacts_only");
    reveal_strlit("start_missing");
    assert("artifacts_only"@.len() == 14 && "start_missing"@.len() == 13);
    assert(Seq::<char>::empty().len() == 0);
}

/// A plan is made exactly where there is a change, a configuration, and each
/// change can be made out; a change of the team needs a known way as well.
pub proof fn plans_are_refused_for_cause(
    req: TeamReconfigureRequest,
    config: Result<Seq<char>, Refusal>,
)
    ensures
        plan_problem(req, config) is None <==> req.changes@.len() > 0 && config is Ok
            && forall|i: int|
            0 <= i < req.changes@.len() ==> change_problem(#[trigger] req.changes@[i]) is None,
        apply_problem(req, config) is None <==> plan_problem(req, config) is None && (
        req.reconcile_mode is None || trim(req.reconcile_mode->0@).len() == 0 || trim(
            req.reconcile_mode->0@,
        ) == "artifacts_only"@ || trim(req.reconcile_mode->0@) == "start_missing"@),
        req.changes@.len() > 0 && config is Err ==> plan_problem(req, config) == Some(
            config->Err_0,
        ),
        req.changes@.len() == 0 ==> plan_problem(req, config) is Some && plan_problem(
            req,
            config,
        )->0.kind == ErrorKind::InvalidParams,
{
    first_bad_change_is_told(req.changes@);
    if req.reconcile_mode is Some {
        modes_go_by_name(trim(req.reconcile_mode->0@));
    } else {
        assert(Seq::<char>::empty().len() == 0);
    }
}

/// A change is carried out by the configuration that was put together, where it
/// names one, else by the base, where that names one, and else not at all.
pub proof fn effective_path_comes_first(ticket: TeamApplyTicket)
    ensures
        ({
            let effective = trim(ticket.plan.state.effective_config_path@);
            let base = trim(ticket.plan.state.base_config_path@);
            &&& path_applied(ticket) is None <==> effective.len() == 0 && base.len() == 0
            &&& effective.len() > 0 ==> path_applied(ticket) == Some(effective)
            &&& effective.len() == 0 && base.len() > 0 ==> path_applied(ticket) == Some(base)
        }),
{
}

/// Only what was done to workspaces and orchestrators is reported, each under its
/// own kind.
pub proof fn deeds_go_by_kind(value: Seq<char>)
    ensures
        action_kind(value) == Some(TeamEntryKind::Workspace) <==> trim(value) == "workspace"@,
        action_kind(value) == Some(TeamEntryKind::RootOrchestrator) <==> trim(value)
            == "orchestrator"@,
        action_kind(value) != Some(TeamEntryKind::Child),
        action_kind(value) is None <==> trim(value) != "workspace"@ && trim(value)
            != "orchestrator"@,
{
    reveal_strlit("workspace");
    reveal_strlit("orchestrator");
    assert("workspace"@.len() == 9 && "orchestrator"@.len() == 12);
}

/// One deed more at the end of what the reconciler did stands at the end of the
/// report, as it was, or does not stand there at all; what came before stays.
pub proof fn one_more_deed_is_told_last(actions: Seq<ReconcileAction>, action: ReconcileAction)
    ensures
        trim(action.kind@) == "workspace"@ || trim(action.kind@) == "orchestrator"@
            ==> deeds_reported(actions.push(action)).len() == deeds_reported(actions).len() + 1
            && deeds_reported(actions.push(action)).drop_last() == deeds_reported(actions) && ({
            let told = deeds_reported(actions.push(action)).last();
            &&& told.action == action.operation@
            &&& told.name == action.name@
            &&& told.detail == action.details@
            &&& told.dir.len() == 0
            &&& told.kind == TeamEntryKind::Workspace <==> trim(action.kind@) == "workspace"@
        }),
        trim(action.kind@) != "workspace"@ && trim(action.kind@) != "orchestrator"@
            ==> deeds_reported(actions.push(action)) == deeds_reported(actions),
        deeds_reported(Seq::empty()).len() == 0,
{
    deeds_go_by_kind(action.kind@);
    assert(actions.push(action).drop_last() =~= actions);
    assert(actions.push(action).last() == action);
    let all = deeds_reported(actions.push(action));
    if action_kind(action.kind@) is Some {
        assert(all.drop_last() =~= deeds_reported(actions));
    }
}

/// That the root has to be restarted by hand is told exactly where it has to be,
/// as the last thing, with the reasons; what was done is told before it, unchanged.
pub proof fn restart_by_hand_is_told_last(report: ReconcileReport)
    ensures
        !report.root_manual_restart_required ==> team_deeds(report) == deeds_reported(
            report.actions@,
        ),
        report.root_manual_restart_required ==> team_deeds(report).len() == deeds_reported(
            report.actions@,
        ).len() + 1 && team_deeds(report).drop_last() == deeds_reported(report.actions@) && ({
            let told = team_deeds(report).last();
            &&& told.action == "manual_restart_required"@
            &&& told.kind == TeamEntryKind::RootOrchestrator
            &&& told.name == "orchestrator"@
            &&& told.detail == join(texts(report.root_manual_restart_reasons@), "; "@)
        }),
{
    if report.root_manual_restart_required {
        assert(team_deeds(report).drop_last() =~= deeds_reported(report.actions@));
    }
}

/// Neither failure is the caller's, and a change that failed and could not be
/// finished says everything that one says that only failed, and why after it.
pub proof fn failures_are_not_the_callers(token: Seq<char>, why: Seq<char>, error: Seq<char>)
    ensures
        reconcile_failure(token, why, None).kind == ErrorKind::Internal,
        reconcile_failure(token, why, Some(error)).kind == ErrorKind::Internal,
        finalize_failure(token, error).kind == ErrorKind::Internal,
        reconcile_failure(token, why, None).message.is_prefix_of(
            reconcile_failure(token, why, Some(error)).message,
        ),
        reconcile_failure(token, why, Some(error)).message.len() > reconcile_failure(
            token,
            why,
            None,
        ).message.len() + error.len(),
        why.is_suffix_of(reconcile_failure(token, why, None).message),
        error.is_suffix_of(finalize_failure(token, error).message),
{
    reveal_strlit(" (finalize error: ");
    assert(" (finalize error: "@.len() == 18);
    let short = reconcile_failure(token, why, None).message;
    let long = reconcile_failure(token, why, Some(error)).message;
    assert(long =~= short + (" (finalize error: "@ + error + ")"@));
    assert(short =~= long.subrange(0, short.len() as int));
    assert(why =~= short.subrange(short.len() - why.len(), short.len() as int));
    let last = finalize_failure(token, error).message;
    assert(error =~= last.subrange(last.len() - error.len(), last.len() as int));
}

/// A workspace to be added has each of its properties from the property of the
/// same name, and nothing where that was not given.
pub proof fn workspace_keeps_its_properties(
    spec: TeamWorkspaceSpec,
    input: TeamWorkspaceSpecInput,
)
    requires
        spec_carried(spec, input),
    ensures
        spec.dir@ == input.dir@,
        input.description is Some ==> spec.description@ == input.description->0@,
        input.description is None ==> spec.description@.len() == 0,
        input.shell is Some ==> spec.shell@ == input.shell->0@,
        input.shell is None ==> spec.shell@.len() == 0,
        input.runtime is Some ==> spec.runtime@ == input.runtime->0@,
        input.runtime is None ==> spec.runtime@.len() == 0,
        input.codex_model_reasoning_effort is Some ==> spec.codex_model_reasoning_effort@
            == input.codex_model_reasoning_effort->0@,
        input.codex_model_reasoning_effort is None ==> spec.codex_model_reasoning_effort@.len()
            == 0,
        input.agent is Some ==> spec.agent@ == input.agent->0@,
        input.agent is None ==> spec.agent@.len() == 0,
        input.instructions is Some ==> spec.instructions@ == input.instructions->0@,
        input.instructions is None ==> spec.instructions@.len() == 0,
        input.env is Some ==> spec.env == input.env->0,
        input.env is None ==> spec.env.keys@.len() == 0,
{
}

/// A project to be added has its directory and its prefix as they were given.
pub proof fn project_keeps_its_properties(spec: TeamChildSpec, input: TeamChildSpecInput)
    requires
        child_carried(spec, input),
    ensures
        spec.dir@ == input.dir@,
        input.prefix is Some ==> spec.prefix@ == input.prefix->0@,
        input.prefix is None ==> spec.prefix@.len() == 0,
{
}

/// The daemon is told of every change that was asked for, in order, for the
/// configuration and the revision that were meant.
pub proof fn every_change_is_told(
    p: TeamReconfigurePayload,
    req: TeamReconfigureRequest,
    config_path: Seq<char>,
    mode: Option<TeamReconcileMode>,
    i: int,
)
    requires
        change_told(p, req, config_path, mode),
    ensures
        p.config_path@ == config_path,
        p.expected_revision == req.expected_revision,
        p.reconcile_mode == mode,
        p.changes@.len() == req.changes@.len(),
        0 <= i < req.changes@.len() ==> {
            let change = p.changes@[i];
            let input = req.changes@[i];
            &&& change.op == TeamChangeOp::Enable <==> trim(input.op@) == "enable"@
            &&& change.op == TeamChangeOp::Disable <==> trim(input.op@) == "disable"@
            &&& change.op == TeamChangeOp::Add <==> trim(input.op@) == "add"@
            &&& change.op == TeamChangeOp::Remove <==> trim(input.op@) == "remove"@
        },
{
    if 0 <= i < req.changes@.len() {
        change_does_what_it_is_called(p.changes@[i], req.changes@[i]);
    }
}

/// What is refused is told: a change by its word, a way by its name, and a request
/// without changes as such.
pub proof fn refused_changes_are_named(
    input: TeamReconfigureChangeInput,
    raw: Seq<char>,
    req: TeamReconfigureRequest,
    config: Result<Seq<char>, Refusal>,
)
    ensures
        op_named(trim(input.op@)) is None ==> change_problem(input) == Some(
            "invalid change op "@ + quoted(trim(input.op@)),
        ),
        op_named(trim(input.op@)) is Some && change_problem(input) is Some ==> change_problem(input)
            == Some("invalid change kind "@ + quoted(trim(input.kind@))),
        mode_named(raw) is Err ==> mode_named(raw)->Err_0 == "invalid reconcile_mode "@ + quoted(raw)
            + " (must be artifacts_only or start_missing)"@,
        req.changes@.len() == 0 ==> plan_problem(req, config) == Some(
            invalid("changes must contain at least one entry"@),
        ) && apply_problem(req, config) == plan_problem(req, config),
{
}

} // verus!
