//! Which way each command goes, and what comes next.
use vstd::prelude::*;
use crate::agent::build_laws::{has_build, has_ended};
use crate::agent::builds::{begun_submission, current_build, got_build, submit_outcome};
use crate::agent::commands::{
    awaits, handled, opened, resumed, resuming_saves, saves, CommandContextModel, CommandStepModel,
    ProvisionReplyModel, SaveReplyModel, StepEventModel, TeardownReplyModel, WelcomeReplyModel,
};
use crate::agent::lifecycle_laws::only_runtime_changes;
use crate::agent::policy::normalized_build;
use crate::agent::provision::{
    begun_provision, cleaned_up, provision_answer, provisioned, rollback_answer, rolled_back,
};
use crate::agent::provision_laws::is_refusal;
use crate::agent::query_laws::{is_theirs, on_the_list};
use crate::agent::queries::{list_answer, listed_runtimes, runtime_answer};
use crate::agent::service::{concluded, kept_answer, queued, AgentControlServiceModel};
use crate::agent::state::AgentControlStateModel;
use crate::agent::teardown::{
    begun_teardown, begun_welcome, failed_teardown, teardown_answer, welcome_answer,
};
use crate::agent::types::{
    AgentControlCmdEnvelopeModel, AgentControlCommandModel, CommandOutcomeModel, ProviderKind,
    RuntimeLifecyclePhase,
};
use crate::json::parsed_json;

verus! {

/// Whether a command is one that is looked at: in the schema that is spoken, and without
/// an answer that is kept under its key.
pub open spec fn is_looked_at(
    service: AgentControlServiceModel,
    requester: Seq<char>,
    cmd: AgentControlCmdEnvelopeModel,
) -> bool {
    cmd.schema == "agent.control.cmd.v1"@ && !service.state.idempotency.contains_key(
        (requester, cmd.idempotency_key),
    )
}

/// Every request begins with a status that says it is queued.
pub proof fn request_is_queued_first(request_id: Seq<char>)
    ensures
        queued(request_id).len() == 1,
        queued(request_id)[0].schema == "agent.control.status.v1"@,
        queued(request_id)[0].request_id == request_id,
        queued(request_id)[0].phase == RuntimeLifecyclePhase::Queued,
        queued(request_id)[0].message == Some("request queued"@),
        queued(request_id)[0].runtime_id is None,
        queued(request_id)[0].provider is None,
{
}

/// A command in another schema is refused; one whose answer is kept under its key, for
/// its requester, gets that answer, under its own request; nothing is done for either.
/// Every other command is looked at.
pub proof fn command_is_looked_at_once(
    service: AgentControlServiceModel,
    requester: Seq<char>,
    cmd: AgentControlCmdEnvelopeModel,
    context: CommandContextModel,
)
    ensures
        ({
            let (after, step) = handled(service, requester, cmd, context);
            let key = (requester, cmd.idempotency_key);
            let spoken = cmd.schema == "agent.control.cmd.v1"@;
            let kept = service.state.idempotency[key];
            &&& is_looked_at(service, requester, cmd) <==> !(step is Settled)
            &&& step is Settled ==> after == service && step->Settled_0.statuses[0] == queued(
                cmd.request_id,
            )[0]
            &&& !spoken ==> is_refusal(step->Settled_0, cmd.request_id, "invalid_schema"@)
                && step->Settled_0.error->0.detail == Some("got "@ + cmd.schema)
            &&& spoken && service.state.idempotency.contains_key(key) && kept is Result
                ==> step->Settled_0.error is None && step->Settled_0.result is Some
                && step->Settled_0.result->0.request_id == cmd.request_id
                && step->Settled_0.result->0.runtime == kept->Result_runtime
                && step->Settled_0.result->0.payload == kept->Result_payload
                && step->Settled_0.statuses.len() == 2 && step->Settled_0.statuses[1].message
                == Some("idempotent replay"@)
        }),
{
}

/// An answer is kept for its repetitions where a command that changes something went
/// through; answers to those that only ask, and refusals, are not.
pub proof fn only_changes_are_kept(
    service: AgentControlServiceModel,
    requester: Seq<char>,
    cmd: AgentControlCmdEnvelopeModel,
    outcome: CommandOutcomeModel,
)
    ensures
        ({
            let changes = cmd.command is Provision || cmd.command is ProcessWelcome
                || cmd.command is Teardown || cmd.command is SubmitBuild
                || cmd.command is CancelBuild;
            let kept = kept_answer(cmd, outcome);
            &&& kept is Some <==> changes && outcome.result is Some
            &&& kept is Some ==> kept->0 is Result && kept->0->Result_runtime
                == outcome.result->0.runtime && kept->0->Result_payload
                == outcome.result->0.payload && kept->0->Result_runtime_id
                == outcome.result->0.runtime.runtime_id
            &&& kept is None ==> concluded(service, requester, cmd, outcome) == service
        }),
{
}

/// A command that asks about runtimes is answered at once, and changes nothing.
pub proof fn questions_are_answered_at_once(
    service: AgentControlServiceModel,
    requester: Seq<char>,
    cmd: AgentControlCmdEnvelopeModel,
    context: CommandContextModel,
)
    requires
        is_looked_at(service, requester, cmd),
    ensures
        ({
            let (after, step) = handled(service, requester, cmd, context);
            let statuses = queued(cmd.request_id);
            &&& cmd.command matches AgentControlCommandModel::GetRuntime { runtime_id } ==> after
                == service && step == CommandStepModel::Done(
                runtime_answer(service, requester, cmd.request_id, runtime_id, statuses),
            )
            &&& cmd.command matches AgentControlCommandModel::ListRuntimes(list) ==> after
                == service && step == CommandStepModel::Done(
                list_answer(cmd.request_id, statuses, listed_runtimes(service, requester, list)),
            )
            &&& cmd.command is GetCapabilities ==> after == service && step is Done && (
            !on_the_list(service.provision_policy, requester) ==> is_refusal(
                step->Done_0,
                cmd.request_id,
                "provision_unauthorized"@,
            )) && (on_the_list(service.provision_policy, requester) ==> step->Done_0.result is Some
                && step->Done_0.result->0.payload.get_text("operation"@) == Some(
                "get_capabilities"@,
            ))
            &&& cmd.command is ResolveDistribution ==> after == service && step is Done
        }),
{
    reveal_strlit("operation");
    reveal_strlit("providers");
    reveal_strlit("limits");
    reveal_strlit("policy_flags");
    assert("operation"@.len() == 9 && "operation"@[0] == 'o');
    assert("providers"@.len() == 9 && "providers"@[0] == 'p');
    assert("limits"@.len() == 6 && "policy_flags"@.len() == 12);
}

/// A command that needs a provider or the disk goes on with what it needs: a
/// provisioning with the profile of the provider that it names, and the workload that it
/// names read as JSON; a welcome with its runtime; a teardown and a submission with what
/// is to be written to disk.
pub proof fn commands_go_on_with_what_they_need(
    service: AgentControlServiceModel,
    requester: Seq<char>,
    cmd: AgentControlCmdEnvelopeModel,
    context: CommandContextModel,
)
    requires
        is_looked_at(service, requester, cmd),
    ensures
        ({
            let (after, step) = handled(service, requester, cmd, context);
            let id = cmd.request_id;
            let statuses = queued(id);
            &&& cmd.command matches AgentControlCommandModel::Provision(provision) ==> ({
                let begun = begun_provision(
                    service,
                    requester,
                    id,
                    provision,
                    match provision.advanced_workload_json {
                        Some(text) => Some(parsed_json(text)),
                        None => None,
                    },
                    statuses,
                    match provision.provider {
                        ProviderKind::Fly => context.fly,
                        ProviderKind::Microvm => context.microvm,
                    },
                    context.now,
                );
                &&& begun is Ok ==> step == CommandStepModel::Provision(begun->Ok_0)
                &&& begun is Err ==> step == CommandStepModel::Done(begun->Err_0)
                &&& after.state.runtimes == service.state.runtimes
            })
            &&& cmd.command matches AgentControlCommandModel::ProcessWelcome { runtime_id } ==> ({
                let begun = begun_welcome(service, requester, id, runtime_id, statuses);
                &&& after == service
                &&& begun is Ok ==> step == CommandStepModel::Welcome(begun->Ok_0)
                &&& begun is Err ==> step == CommandStepModel::Done(begun->Err_0)
            })
            &&& cmd.command matches AgentControlCommandModel::Teardown { runtime_id } ==> ({
                let (torn, begun) = begun_teardown(
                    service,
                    requester,
                    id,
                    runtime_id,
                    statuses,
                    context.now,
                );
                &&& after == torn
                &&& begun is Ok ==> step == CommandStepModel::SaveTeardown(begun->Ok_0)
                &&& begun is Err ==> step == CommandStepModel::Done(begun->Err_0)
            })
            &&& cmd.command matches AgentControlCommandModel::SubmitBuild(submit) ==> ({
                let (taken, begun) = begun_submission(
                    service,
                    requester,
                    id,
                    submit,
                    statuses,
                    context.build_id,
                    context.now,
                );
                &&& after == taken
                &&& begun is Accepted ==> step == CommandStepModel::SaveSubmission(
                    begun->Accepted_0,
                )
                &&& begun is Refused ==> step == CommandStepModel::Done(begun->Refused_0)
            })
            &&& cmd.command matches AgentControlCommandModel::GetBuild { build_id } ==> (
                after,
                step,
            ) == ({
                let (asked, answer) = got_build(
                    service,
                    requester,
                    id,
                    build_id,
                    statuses,
                    context.now,
                );
                (asked, CommandStepModel::Done(answer))
            })
            &&& cmd.command is CancelBuild ==> step is Done
        }),
{
}

/// What a provider made is to be written to disk, or torn down again, or is refused;
/// nothing is answered before it was written.
pub proof fn provisioning_goes_on(
    service: AgentControlServiceModel,
    step: CommandStepModel,
    event: StepEventModel,
    at: u64,
)
    ensures
        ({
            let (after, next) = resumed(service, step, event, at);
            &&& (step matches CommandStepModel::Provision(job)
                && event matches StepEventModel::Provisioned { runtime_id, reply, ttl_secs })
                ==> ({
                let job = step->Provision_0;
                let (made, taken) = provisioned(
                    service,
                    job,
                    event->runtime_id,
                    match event->Provisioned_reply {
                        ProvisionReplyModel::Made(made) => Ok(made),
                        ProvisionReplyModel::Failed(error) => Err(error),
                    },
                    at,
                    event->ttl_secs,
                );
                &&& after == made
                &&& taken is Refused ==> next == CommandStepModel::Done(taken->Refused_0)
                &&& taken is Cleanup ==> next == CommandStepModel::CleanUp(taken->Cleanup_0)
                &&& taken is Admitted ==> next == CommandStepModel::SaveRuntime(taken->Admitted_0)
            })
            &&& step is SaveRuntime && event is Saved && event->Saved_0 is Saved ==> after
                == service && next == CommandStepModel::Done(
                provision_answer(step->SaveRuntime_0.job, step->SaveRuntime_0.runtime),
            )
            &&& step is SaveRuntime && event is Saved && event->Saved_0 is Failed ==> after
                == rolled_back(service, step->SaveRuntime_0) && next is SaveRollback
                && next->SaveRollback_0.error == event->Saved_0->Failed_0
                && next->SaveRollback_0.taken == step->SaveRuntime_0
            &&& step is SaveRollback && event is Saved ==> after == service
                && next is TearDownRollback && next->TearDownRollback_0.taken
                == step->SaveRollback_0.taken && next->TearDownRollback_0.error
                == step->SaveRollback_0.error && next->TearDownRollback_0.rollback_error
                == match event->Saved_0 {
                SaveReplyModel::Saved => None,
                SaveReplyModel::Failed(e) => Some(e),
            }
            &&& step is TearDownRollback && event is TornDown ==> after == service && next
                == CommandStepModel::Done(
                rollback_answer(
                    step->TearDownRollback_0.taken.job,
                    step->TearDownRollback_0.error,
                    match event->TornDown_0 {
                        TeardownReplyModel::Done(payload) => Ok(payload),
                        TeardownReplyModel::Failed(failure) => Err(failure.full),
                    },
                    step->TearDownRollback_0.rollback_error,
                ),
            )
            &&& step is CleanUp && event is TornDown ==> after == service && next
                == CommandStepModel::Done(
                cleaned_up(
                    step->CleanUp_0,
                    match event->TornDown_0 {
                        TeardownReplyModel::Done(payload) => Ok(payload),
                        TeardownReplyModel::Failed(failure) => Err(failure.full),
                    },
                ),
            )
        }),
{
}

/// A teardown asks the provider whether or not its beginning could be written to disk,
/// which is told in the end; what the provider did is written before it is answered.
pub proof fn teardown_goes_on(
    service: AgentControlServiceModel,
    step: CommandStepModel,
    event: StepEventModel,
    at: u64,
)
    ensures
        ({
            let (after, next) = resumed(service, step, event, at);
            let failure_of = |reply: SaveReplyModel|
                match reply {
                    SaveReplyModel::Saved => None::<Seq<char>>,
                    SaveReplyModel::Failed(e) => Some(e),
                };
            &&& step is SaveTeardown && event is Saved ==> after == service && next is TearDown
                && next->TearDown_0.job == step->SaveTeardown_0
                && next->TearDown_0.transition_error == failure_of(event->Saved_0)
            &&& step is TearDown && event is TornDown && event->TornDown_0 is Failed ==> ({
                let (failed, answer) = failed_teardown(
                    service,
                    step->TearDown_0.job,
                    event->TornDown_0->Failed_0,
                );
                after == failed && next == CommandStepModel::Done(answer)
            })
            &&& step is TearDown && event is TornDown && event->TornDown_0 is Done
                ==> next is SaveTornDown && next->SaveTornDown_0.payload
                == event->TornDown_0->Done_0 && next->SaveTornDown_0.transition_error
                == step->TearDown_0.transition_error && only_runtime_changes(
                service,
                after,
                step->TearDown_0.job.runtime.descriptor.runtime_id,
            ) && after.state.runtimes[step->TearDown_0.job.runtime.descriptor.runtime_id]
                == next->SaveTornDown_0.job.runtime && next->SaveTornDown_0.job.runtime.descriptor
                == step->TearDown_0.job.runtime.descriptor
                && next->SaveTornDown_0.job.runtime.teardown_retry == crate::agent::teardown::retry_after(
                step->TearDown_0.job.previous_attempts,
                Ok(event->TornDown_0->Done_0),
                step->TearDown_0.job.begun_at,
            ) && next->SaveTornDown_0.job.request_id == step->TearDown_0.job.request_id
                && next->SaveTornDown_0.job.statuses == step->TearDown_0.job.statuses
            &&& step is SaveTornDown && event is Saved ==> after == service && next
                == CommandStepModel::Done(
                teardown_answer(
                    step->SaveTornDown_0.job,
                    step->SaveTornDown_0.payload,
                    step->SaveTornDown_0.transition_error,
                    failure_of(event->Saved_0),
                ),
            )
            &&& step is Welcome && event is Welcomed ==> after == service && next
                == CommandStepModel::Done(
                welcome_answer(
                    step->Welcome_0,
                    match event->Welcomed_0 {
                        WelcomeReplyModel::Processed(payload) => Ok(payload),
                        WelcomeReplyModel::Failed(error) => Err(error),
                    },
                ),
            )
        }),
{
}

/// A submission that was written is handed to the build service, and one that was not is
/// taken back.
pub proof fn submission_goes_on(
    service: AgentControlServiceModel,
    step: CommandStepModel,
    event: StepEventModel,
    at: u64,
)
    requires
        step is SaveSubmission,
        event is Saved,
    ensures
        ({
            let (after, next) = resumed(service, step, event, at);
            let job = step->SaveSubmission_0;
            &&& next is Done
            &&& event->Saved_0 is Saved ==> (after, next->Done_0)
                == crate::agent::builds::concluded_submission(
                service,
                job,
                submit_outcome(job.request, job.build.created_at),
                at,
            )
            &&& event->Saved_0 is Failed ==> (after, next->Done_0)
                == crate::agent::builds::unpersisted_submission(
                service,
                job,
                event->Saved_0->Failed_0,
                at,
            )
        }),
{
}

/// A service begins with the runtimes, builds and artifacts that were read, none more
/// and none less, and with its audit log.
pub proof fn service_begins_with_what_was_read(
    state: AgentControlStateModel,
    max: usize,
    now: u64,
    ttl_secs: u64,
)
    ensures
        ({
            let begun = opened(state, max, now, ttl_secs);
            &&& begun.runtimes.dom() == state.runtimes.dom()
            &&& begun.builds.dom() == state.builds.dom()
            &&& begun.artifacts.dom() == state.artifacts.dom()
            &&& begun.audit_log == state.audit_log
            &&& forall|id: Seq<char>| #[trigger]
                state.runtimes.contains_key(id) ==> begun.runtimes[id]
                    == crate::agent::state::with_lease(state.runtimes[id], now, ttl_secs)
            &&& forall|id: Seq<char>| #[trigger]
                state.builds.contains_key(id) ==> begun.builds[id]
                    == crate::agent::state::with_build_times(state.builds[id], now)
            &&& forall|id: Seq<char>| #[trigger]
                state.artifacts.contains_key(id) ==> begun.artifacts[id]
                    == crate::agent::state::with_artifact_times(state.artifacts[id], now, 21600)
        }),
{
    crate::agent::state_laws::forgetting_answers_changes_nothing_else(state, max as nat);
    let begun = opened(state, max, now, ttl_secs);
    assert(begun.runtimes.dom() =~= state.runtimes.dom());
    assert(begun.builds.dom() =~= state.builds.dom());
    assert(begun.artifacts.dom() =~= state.artifacts.dom());
}

/// A refusal that is kept is told again under the new request, with its code, hint and
/// detail.
pub proof fn kept_refusal_is_told_again(
    service: AgentControlServiceModel,
    requester: Seq<char>,
    cmd: AgentControlCmdEnvelopeModel,
    context: CommandContextModel,
)
    requires
        cmd.schema == "agent.control.cmd.v1"@,
        service.state.idempotency.contains_key((requester, cmd.idempotency_key)),
        service.state.idempotency[(requester, cmd.idempotency_key)] is Error,
    ensures
        ({
            let kept = service.state.idempotency[(requester, cmd.idempotency_key)];
            let step = handled(service, requester, cmd, context).1;
            &&& step is Settled
            &&& is_refusal(step->Settled_0, cmd.request_id, kept->code)
            &&& step->Settled_0.error->0.hint == kept->hint
            &&& step->Settled_0.error->0.detail == kept->detail
        }),
{
}

/// Whether a requester is on the list and a build is theirs that is now another than it
/// was.
pub open spec fn own_build_moved(
    service: AgentControlServiceModel,
    requester: Seq<char>,
    build_id: Seq<char>,
    now: u64,
) -> bool {
    &&& has_build(service, requester, build_id)
    &&& current_build(service, build_id, now)->0 != service.state.builds[build_id]
}

/// What is to be written to disk after a command was handled is exactly what changed: a
/// build that moved on, a runtime on its way out, a submission, a build that was
/// canceled. Where nothing is to be written, nothing changed.
pub proof fn what_changed_is_saved(
    service: AgentControlServiceModel,
    requester: Seq<char>,
    cmd: AgentControlCmdEnvelopeModel,
    context: CommandContextModel,
)
    requires
        forall|id: Seq<char>| #[trigger]
            service.state.builds.contains_key(id) ==> service.state.builds[id].build_id == id,
    ensures
        !saves(service, requester, cmd, context) ==> handled(
            service,
            requester,
            cmd,
            context,
        ).0 == service,
        !is_looked_at(service, requester, cmd) ==> !saves(service, requester, cmd, context),
        is_looked_at(service, requester, cmd) ==> (saves(service, requester, cmd, context)
            <==> match cmd.command {
            AgentControlCommandModel::GetBuild { build_id } => own_build_moved(
                service,
                requester,
                build_id,
                context.now,
            ),
            AgentControlCommandModel::CancelBuild { build_id } => has_build(
                service,
                requester,
                build_id,
            ) && !has_ended(service.state.builds[build_id]),
            AgentControlCommandModel::Teardown { runtime_id } =>
                service.state.runtimes.contains_key(runtime_id) && is_theirs(
                service,
                requester,
                service.state.runtimes[runtime_id],
            ),
            AgentControlCommandModel::SubmitBuild(submit) => on_the_list(
                service.provision_policy,
                requester,
            ) && normalized_build(
                submit,
                service.build_policy,
                service.v2_flags.advanced_workload_enabled,
            ) is Ok,
            AgentControlCommandModel::Provision(provision) => provision.build_id is Some
                && provision.artifact_ref is None && (provision.advanced_workload_json is Some
                ==> service.v2_flags.advanced_workload_enabled && parsed_json(
                provision.advanced_workload_json->0,
            ) is Ok) && own_build_moved(
                service,
                requester,
                provision.build_id->0,
                context.now,
            ),
            _ => false,
        }),
{
}

/// Going on with a command is to be written to disk where a runtime was taken up or let
/// go of again, a provider was asked to tear one down, or a submission came to its
/// answer; where it is not, nothing changed.
pub proof fn what_changed_later_is_saved(
    service: AgentControlServiceModel,
    step: CommandStepModel,
    event: StepEventModel,
    at: u64,
)
    requires
        awaits(step, event),
    ensures
        ({
            let (after, next) = resumed(service, step, event, at);
            &&& !resuming_saves(service, step, event, at) ==> after == service
            &&& resuming_saves(service, step, event, at) <==> (step is Provision
                && next is SaveRuntime) || (step is SaveRuntime && next is SaveRollback)
                || step is TearDown || step is SaveSubmission
        }),
{
}

} // verus!
