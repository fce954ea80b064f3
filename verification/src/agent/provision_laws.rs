//! What provisioning a runtime comes to: who gets one, what is written down of it, and
//! what is told.
use vstd::prelude::*;
use crate::agent::metadata::{
    artifact_metadata, leased_metadata, workload_metadata, RuntimeProfileModel,
};
use crate::agent::builds::current_build;
use crate::agent::policy::{artifact_complaint, artifact_kind};
use crate::agent::provision::{
    admitted_runtime, begun_provision, cleaned_up, provision_answer, provisioned, rollback_answer,
    rolled_back, CleanupJobModel, ProvisionJobModel, TakenJobModel,
};
use crate::agent::query_laws::{on_the_list, shows};
use crate::agent::service::AgentControlServiceModel;
use crate::agent::types::{
    AgentControlStatusEnvelopeModel, BuildKind, CommandOutcomeModel, ProviderKind,
    ProvisionCommandModel, ProvisionedRuntimeModel, RuntimeLifecyclePhase, RuntimeRecordModel,
    TeardownRetryMetadataModel,
};
use crate::json::{written_json, JsonModel};

verus! {

/// Whether an outcome is a refusal with a code, of a request.
pub open spec fn is_refusal(
    outcome: CommandOutcomeModel,
    request_id: Seq<char>,
    code: Seq<char>,
) -> bool {
    &&& outcome.result is None
    &&& outcome.error is Some
    &&& outcome.error->0.schema == "agent.control.error.v1"@
    &&& outcome.error->0.request_id == request_id
    &&& outcome.error->0.code == code
}

/// Whether a number is a sum, or the largest there is where that is too large.
pub open spec fn is_capped_sum(n: u64, a: u64, b: u64) -> bool {
    n as int == if a + b <= u64::MAX {
        a + b
    } else {
        u64::MAX as int
    }
}

/// Whether nothing of a service but its runtimes, artifacts and audit log is another.
pub open spec fn rest_stays(a: AgentControlServiceModel, b: AgentControlServiceModel) -> bool {
    &&& a.state.builds == b.state.builds
    &&& a.state.idempotency == b.state.idempotency
    &&& a.state.idempotency_order == b.state.idempotency_order
    &&& a.provision_policy == b.provision_policy
    &&& a.v2_flags == b.v2_flags
    &&& a.build_policy == b.build_policy
    &&& a.idempotency_max_entries == b.idempotency_max_entries
}

/// Who is not on the list gets no runtime, and is told so; the last status says that it
/// failed.
pub proof fn stranger_gets_no_runtime(
    service: AgentControlServiceModel,
    requester: Seq<char>,
    request_id: Seq<char>,
    provision: ProvisionCommandModel,
    workload: Option<Result<JsonModel, Seq<char>>>,
    statuses: Seq<AgentControlStatusEnvelopeModel>,
    profile: RuntimeProfileModel,
    now: u64,
)
    requires
        !on_the_list(service.provision_policy, requester),
    ensures
        ({
            let begun = begun_provision(
                service,
                requester,
                request_id,
                provision,
                workload,
                statuses,
                profile,
                now,
            );
            &&& begun is Err
            &&& is_refusal(begun->Err_0, request_id, "provision_unauthorized"@)
            &&& begun->Err_0.statuses.last().phase == RuntimeLifecyclePhase::Failed
            &&& begun->Err_0.statuses.drop_last() == statuses
        }),
{
    let begun = begun_provision(
        service,
        requester,
        request_id,
        provision,
        workload,
        statuses,
        profile,
        now,
    );
    assert(begun->Err_0.statuses.drop_last() =~= statuses);
}

/// A workload of one's own is taken only where that is switched on, and where it is JSON.
pub proof fn workload_has_to_be_allowed_and_read(
    service: AgentControlServiceModel,
    requester: Seq<char>,
    request_id: Seq<char>,
    provision: ProvisionCommandModel,
    read: Result<JsonModel, Seq<char>>,
    statuses: Seq<AgentControlStatusEnvelopeModel>,
    profile: RuntimeProfileModel,
    now: u64,
)
    requires
        on_the_list(service.provision_policy, requester),
    ensures
        ({
            let begun = begun_provision(
                service,
                requester,
                request_id,
                provision,
                Some(read),
                statuses,
                profile,
                now,
            );
            let enabled = service.v2_flags.advanced_workload_enabled;
            &&& !enabled ==> begun is Err && is_refusal(
                begun->Err_0,
                request_id,
                "v2_advanced_workload_disabled"@,
            )
            &&& enabled && read is Err ==> begun is Err && is_refusal(
                begun->Err_0,
                request_id,
                "advanced_workload_invalid_json"@,
            ) && begun->Err_0.error->0.detail == Some(read->Err_0)
            &&& begun is Ok ==> enabled && read is Ok && begun->Ok_0.workload == Some(read->Ok_0)
        }),
{
}

/// A provisioning that names both a build and an artifact is refused, and so is one that
/// names a build of somebody else, or one that is not there.
pub proof fn artifact_has_to_be_clear_and_own(
    service: AgentControlServiceModel,
    requester: Seq<char>,
    request_id: Seq<char>,
    provision: ProvisionCommandModel,
    statuses: Seq<AgentControlStatusEnvelopeModel>,
    profile: RuntimeProfileModel,
    now: u64,
)
    requires
        on_the_list(service.provision_policy, requester),
        provision.build_id is Some,
    ensures
        ({
            let begun = begun_provision(
                service,
                requester,
                request_id,
                provision,
                None,
                statuses,
                profile,
                now,
            );
            let id = provision.build_id->0;
            &&& provision.artifact_ref is Some ==> begun is Err && is_refusal(
                begun->Err_0,
                request_id,
                "provision_artifact_ambiguous"@,
            )
            &&& provision.artifact_ref is None && !(service.state.builds.contains_key(id)
                && service.state.builds[id].owner_pubkey_hex == requester) ==> begun is Err
                && is_refusal(begun->Err_0, request_id, "build_not_found"@)
                && begun->Err_0.error->0.detail == Some(id)
        }),
{
}

/// What is taken up is taken up as it was asked for: by this requester, under this
/// request, with nothing of the command changed but the artifact that a build it names
/// left behind; and the class that was asked for is the one that this server offers. The
/// last status says that provisioning begins.
pub proof fn job_is_what_was_asked_for(
    service: AgentControlServiceModel,
    requester: Seq<char>,
    request_id: Seq<char>,
    provision: ProvisionCommandModel,
    workload: Option<Result<JsonModel, Seq<char>>>,
    statuses: Seq<AgentControlStatusEnvelopeModel>,
    profile: RuntimeProfileModel,
    now: u64,
)
    requires
        begun_provision(
            service,
            requester,
            request_id,
            provision,
            workload,
            statuses,
            profile,
            now,
        ) is Ok,
    ensures
        ({
            let job = begun_provision(
                service,
                requester,
                request_id,
                provision,
                workload,
                statuses,
                profile,
                now,
            )->Ok_0;
            &&& on_the_list(service.provision_policy, requester)
            &&& job.requester == requester
            &&& job.request_id == request_id
            &&& job.provision.provider == provision.provider
            &&& job.provision.protocol == provision.protocol
            &&& job.provision.name == provision.name
            &&& job.provision.runtime_class == provision.runtime_class
            &&& job.provision.relay_urls == provision.relay_urls
            &&& job.provision.keep == provision.keep
            &&& job.provision.bot_secret_key_hex == provision.bot_secret_key_hex
            &&& job.provision.build_id == provision.build_id
            &&& job.provision.microvm == provision.microvm
            &&& provision.build_id is None ==> job.provision.artifact_ref == provision.artifact_ref
            &&& provision.build_id is Some ==> provision.artifact_ref is None
                && job.provision.artifact_ref is Some
            &&& workload is None ==> job.workload is None
            &&& provision.runtime_class is Some && profile.runtime_class is Some
                ==> provision.runtime_class == profile.runtime_class
            &&& provision.runtime_class is Some && profile.runtime_class is None
                ==> provision.runtime_class == Some(
                match provision.provider {
                    ProviderKind::Fly => "fly"@,
                    ProviderKind::Microvm => "microvm"@,
                },
            )
            &&& job.statuses.len() == statuses.len() + 1
            &&& job.statuses.last().phase == RuntimeLifecyclePhase::Provisioning
            &&& job.statuses.last().request_id == request_id
            &&& job.statuses.last().provider == Some(provision.provider)
            &&& job.statuses.last().message == Some("provisioning runtime"@)
            &&& job.statuses.drop_last() == statuses
        }),
{
    let job = begun_provision(
        service,
        requester,
        request_id,
        provision,
        workload,
        statuses,
        profile,
        now,
    )->Ok_0;
    assert(job.statuses.drop_last() =~= statuses);
}

/// Without a build, an artifact or a workload of one's own, everybody on the list is
/// taken up who asks for no class, or for the one that this server offers; who asks for
/// another is told both.
pub proof fn plain_provisioning_is_taken_up(
    service: AgentControlServiceModel,
    requester: Seq<char>,
    request_id: Seq<char>,
    provision: ProvisionCommandModel,
    statuses: Seq<AgentControlStatusEnvelopeModel>,
    profile: RuntimeProfileModel,
    now: u64,
)
    requires
        on_the_list(service.provision_policy, requester),
        provision.build_id is None,
        provision.artifact_ref is None,
        profile.runtime_class is Some,
    ensures
        ({
            let begun = begun_provision(
                service,
                requester,
                request_id,
                provision,
                None,
                statuses,
                profile,
                now,
            );
            let fits = provision.runtime_class is None || provision.runtime_class
                == profile.runtime_class;
            &&& fits ==> begun is Ok
            &&& !fits ==> begun is Err && is_refusal(
                begun->Err_0,
                request_id,
                "runtime_class_unavailable"@,
            ) && begun->Err_0.error->0.detail == Some(
                "requested="@ + provision.runtime_class->0 + ", available="@
                    + profile.runtime_class->0,
            )
        }),
{
}

/// Where a provider made nothing, nothing is written down, and its failure is told.
pub proof fn failed_provider_leaves_nothing(
    service: AgentControlServiceModel,
    job: ProvisionJobModel,
    runtime_id: Seq<char>,
    error: Seq<char>,
    created_at: u64,
    ttl_secs: u64,
)
    ensures
        ({
            let (after, step) = provisioned(
                service,
                job,
                runtime_id,
                Err(error),
                created_at,
                ttl_secs,
            );
            &&& after == service
            &&& step is Refused
            &&& is_refusal(step->Refused_0, job.request_id, "provision_failed"@)
            &&& step->Refused_0.error->0.detail == Some(error)
            &&& step->Refused_0.statuses.len() == job.statuses.len() + 1
            &&& step->Refused_0.statuses.last().phase == RuntimeLifecyclePhase::Failed
            &&& step->Refused_0.statuses.last().runtime_id == Some(runtime_id)
        }),
{
}

/// A runtime that does not speak the protocol that was asked for, or is not of the
/// class, is not written down: it is to be torn down, and why is told. Every other is
/// written down.
pub proof fn only_what_fits_is_written_down(
    service: AgentControlServiceModel,
    job: ProvisionJobModel,
    runtime_id: Seq<char>,
    made: ProvisionedRuntimeModel,
    created_at: u64,
    ttl_secs: u64,
)
    ensures
        ({
            let (after, step) = provisioned(
                service,
                job,
                runtime_id,
                Ok(made),
                created_at,
                ttl_secs,
            );
            let speaks = made.protocol_compatibility.contains(job.provision.protocol);
            let of_class = job.provision.runtime_class is None || made.runtime_class
                == job.provision.runtime_class;
            &&& speaks && of_class <==> step is Admitted
            &&& !(speaks && of_class) ==> step is Cleanup && after == service
                && step->Cleanup_0.runtime.descriptor.runtime_id == runtime_id
                && step->Cleanup_0.runtime.provider_handle == made.provider_handle
                && step->Cleanup_0.request_id == job.request_id
            &&& !speaks ==> step->Cleanup_0.complaint.code == "unsupported_protocol"@
            &&& speaks && !of_class ==> step->Cleanup_0.complaint.code
                == "runtime_class_unavailable"@
        }),
{
}

/// A runtime that fits is written down under its id as its provider made it: for its
/// requester, ready, with a lease from now on and nothing to retry. No other runtime is
/// touched.
pub proof fn runtime_is_written_down(
    service: AgentControlServiceModel,
    job: ProvisionJobModel,
    runtime_id: Seq<char>,
    made: ProvisionedRuntimeModel,
    created_at: u64,
    ttl_secs: u64,
)
    requires
        provisioned(service, job, runtime_id, Ok(made), created_at, ttl_secs).1 is Admitted,
    ensures
        ({
            let (after, step) = provisioned(
                service,
                job,
                runtime_id,
                Ok(made),
                created_at,
                ttl_secs,
            );
            let runtime = after.state.runtimes[runtime_id];
            &&& after.state.runtimes.contains_key(runtime_id)
            &&& step->Admitted_0.runtime == runtime
            &&& step->Admitted_0.job == job
            &&& runtime.owner_pubkey_hex == job.requester
            &&& runtime.descriptor.runtime_id == runtime_id
            &&& runtime.descriptor.provider == job.provision.provider
            &&& runtime.descriptor.lifecycle_phase == RuntimeLifecyclePhase::Ready
            &&& runtime.descriptor.runtime_class == made.runtime_class
            &&& runtime.descriptor.region == made.region
            &&& runtime.descriptor.capacity == made.capacity
            &&& runtime.descriptor.policy_constraints == made.policy_constraints
            &&& runtime.descriptor.protocol_compatibility == made.protocol_compatibility
            &&& runtime.descriptor.bot_pubkey == made.bot_pubkey
            &&& runtime.provider_handle == made.provider_handle
            &&& runtime.created_at == created_at
            &&& is_capped_sum(runtime.expires_at, created_at, ttl_secs)
            &&& runtime.teardown_retry is None
            &&& job.provision.artifact_ref is None && job.workload is None
                ==> runtime.descriptor.metadata == made.metadata
            &&& forall|id: Seq<char>|
                id != runtime_id ==> (#[trigger] after.state.runtimes.contains_key(id)
                    <==> service.state.runtimes.contains_key(id))
            &&& forall|id: Seq<char>|
                id != runtime_id && #[trigger] service.state.runtimes.contains_key(id)
                    ==> after.state.runtimes[id] == service.state.runtimes[id]
            &&& rest_stays(after, service)
        }),
{
}

/// The metadata of a runtime name the artifact it runs and the build that left it, and
/// hold the workload that was asked for.
pub proof fn metadata_name_the_artifact(
    service: AgentControlServiceModel,
    job: ProvisionJobModel,
    runtime_id: Seq<char>,
    made: ProvisionedRuntimeModel,
    created_at: u64,
    ttl_secs: u64,
)
    requires
        provisioned(service, job, runtime_id, Ok(made), created_at, ttl_secs).1 is Admitted,
    ensures
        ({
            let after = provisioned(service, job, runtime_id, Ok(made), created_at, ttl_secs).0;
            let metadata = after.state.runtimes[runtime_id].descriptor.metadata;
            &&& job.provision.artifact_ref is Some ==> metadata.get_text("artifact_ref"@)
                == job.provision.artifact_ref
            &&& job.provision.artifact_ref is Some && job.provision.build_id is Some
                ==> metadata.get_text("build_id"@) == job.provision.build_id
            &&& job.workload is Some ==> metadata.get("advanced_workload"@) == job.workload
        }),
{
    lemma_metadata_keys();
}

proof fn lemma_metadata_keys()
    ensures
        "artifact_ref"@.len() == 12,
        "build_id"@.len() == 8,
        "advanced_workload"@.len() == 17,
        "provider_metadata"@.len() == 17,
        "advanced_workload"@ != "provider_metadata"@,
        "created_at"@.len() == 10,
        "expires_at"@.len() == 10,
        "created_at"@ != "expires_at"@,
        "teardown_retry"@.len() == 14,
        "attempt_count"@.len() == 13,
        "next_retry_at"@.len() == 13,
        "attempt_count"@ != "next_retry_at"@,
        "last_attempt_at"@.len() == 15,
        "last_error"@.len() == 10,
{
    reveal_strlit("artifact_ref");
    reveal_strlit("build_id");
    reveal_strlit("advanced_workload");
    reveal_strlit("provider_metadata");
    reveal_strlit("created_at");
    reveal_strlit("expires_at");
    reveal_strlit("teardown_retry");
    reveal_strlit("attempt_count");
    reveal_strlit("next_retry_at");
    reveal_strlit("last_attempt_at");
    reveal_strlit("last_error");
    assert("advanced_workload"@[0] == 'a');
    assert("provider_metadata"@[0] == 'p');
    assert("created_at"@[0] == 'c');
    assert("expires_at"@[0] == 'e');
    assert("attempt_count"@[0] == 'a');
    assert("next_retry_at"@[0] == 'n');
}

/// Whether a JSON object has the entries of another but for some keys.
pub open spec fn agrees_but_for(a: JsonModel, b: JsonModel, keys: Set<Seq<char>>) -> bool {
    forall|key: Seq<char>| !keys.contains(key) ==> #[trigger] a.get(key) == b.get(key)
}

/// Metadata that are an object keep their entries when an artifact, a workload or a
/// lease is marked in them; what is no object stands under a key of its own.
pub proof fn marking_keeps_other_metadata(
    existing: JsonModel,
    build_id: Option<Seq<char>>,
    artifact_ref: Seq<char>,
    workload: JsonModel,
    created_at: u64,
    expires_at: u64,
    retry: Option<TeardownRetryMetadataModel>,
)
    ensures
        ({
            let with_artifact = artifact_metadata(existing, build_id, artifact_ref);
            let with_workload = workload_metadata(existing, workload);
            let with_lease = leased_metadata(existing, created_at, expires_at, retry);
            &&& with_artifact.get_text("artifact_ref"@) == Some(artifact_ref)
            &&& build_id is Some ==> with_artifact.get_text("build_id"@) == build_id
            &&& with_workload.get("advanced_workload"@) == Some(workload)
            &&& with_lease.get_uint("created_at"@) == Some(created_at)
            &&& with_lease.get_uint("expires_at"@) == Some(expires_at)
            &&& retry is None ==> with_lease.get("teardown_retry"@) is None
            &&& retry is Some ==> with_lease.get("teardown_retry"@) is Some
            &&& existing is Object ==> agrees_but_for(
                with_artifact,
                existing,
                set!["artifact_ref"@, "build_id"@],
            ) && agrees_but_for(with_workload, existing, set!["advanced_workload"@])
                && agrees_but_for(
                with_lease,
                existing,
                set!["created_at"@, "expires_at"@, "teardown_retry"@],
            )
            &&& existing is Object && build_id is None ==> with_artifact.get("build_id"@)
                == existing.get("build_id"@)
            &&& !(existing is Object) && !(existing is Null) ==> with_artifact.get(
                "provider_metadata"@,
            ) == Some(existing) && with_workload.get("provider_metadata"@) == Some(existing)
                && with_lease.get("provider_metadata"@) == Some(existing)
        }),
{
    lemma_metadata_keys();
}

/// What is to be retried is told in full: how often it was tried, what went wrong, when
/// it was tried last and when it is tried next.
pub proof fn retry_is_told_in_full(
    existing: JsonModel,
    created_at: u64,
    expires_at: u64,
    retry: TeardownRetryMetadataModel,
)
    ensures
        ({
            let told = leased_metadata(existing, created_at, expires_at, Some(retry)).get(
                "teardown_retry"@,
            )->0;
            &&& told.get_uint("attempt_count"@) == Some(retry.attempt_count as u64)
            &&& told.get("last_error"@) == Some(JsonModel::optional_text(retry.last_error))
            &&& told.get("next_retry_at"@) == Some(JsonModel::optional_uint(retry.next_retry_at))
            &&& told.get("last_attempt_at"@) == Some(
                JsonModel::optional_uint(retry.last_attempt_at),
            )
        }),
{
    lemma_metadata_keys();
}

/// The artifact that a runtime runs was used last when the runtime was made, and does
/// not end before then; one that was not known is written down for the requester. No
/// other artifact is touched.
pub proof fn artifact_is_marked_as_used(
    service: AgentControlServiceModel,
    job: ProvisionJobModel,
    runtime: RuntimeRecordModel,
    artifact_ref: Seq<char>,
)
    requires
        job.provision.artifact_ref == Some(artifact_ref),
    ensures
        ({
            let before = service.state.artifacts;
            let after = admitted_runtime(service, job, runtime).state.artifacts;
            let now = runtime.created_at;
            &&& after.contains_key(artifact_ref)
            &&& after[artifact_ref].last_used_at == now
            &&& after[artifact_ref].expires_at >= now
            &&& before.contains_key(artifact_ref) ==> after[artifact_ref].artifact_ref
                == before[artifact_ref].artifact_ref && after[artifact_ref].build_kind
                == before[artifact_ref].build_kind && after[artifact_ref].owner_pubkey_hex
                == before[artifact_ref].owner_pubkey_hex && after[artifact_ref].created_at
                == before[artifact_ref].created_at && after[artifact_ref].source_build_id
                == before[artifact_ref].source_build_id
            &&& before.contains_key(artifact_ref) && before[artifact_ref].expires_at >= now
                ==> after[artifact_ref].expires_at == before[artifact_ref].expires_at
            &&& (before.contains_key(artifact_ref) ==> before[artifact_ref].expires_at < now)
                ==> is_capped_sum(
                after[artifact_ref].expires_at,
                now,
                service.build_policy.artifact_ttl_secs,
            )
            &&& !before.contains_key(artifact_ref) ==> after[artifact_ref].artifact_ref
                == artifact_ref && after[artifact_ref].owner_pubkey_hex == job.requester
                && after[artifact_ref].created_at == now && after[artifact_ref].source_build_id
                == job.provision.build_id && after[artifact_ref].build_kind
                == match job.provision.provider {
                ProviderKind::Fly => BuildKind::Oci,
                ProviderKind::Microvm => BuildKind::Nix,
            }
            &&& forall|other: Seq<char>|
                other != artifact_ref ==> (#[trigger] after.contains_key(other)
                    <==> before.contains_key(other))
            &&& forall|other: Seq<char>|
                other != artifact_ref && #[trigger] before.contains_key(other) ==> after[other]
                    == before[other]
        }),
{
}

/// Without an artifact no artifact is touched.
pub proof fn no_artifact_touches_none(
    service: AgentControlServiceModel,
    job: ProvisionJobModel,
    runtime: RuntimeRecordModel,
)
    requires
        job.provision.artifact_ref is None,
    ensures
        admitted_runtime(service, job, runtime).state.artifacts == service.state.artifacts,
{
}

/// The last line of the audit log tells that a runtime was provisioned, for whom and
/// when.
pub proof fn provisioning_is_audited(
    service: AgentControlServiceModel,
    job: ProvisionJobModel,
    runtime: RuntimeRecordModel,
)
    requires
        service.build_policy.max_audit_entries > 0,
    ensures
        ({
            let log = admitted_runtime(service, job, runtime).state.audit_log;
            &&& log.len() > 0
            &&& log.last().ts == runtime.created_at
            &&& log.last().actor_pubkey_hex == job.requester
            &&& log.last().action == "provision"@
            &&& log.last().outcome == "ok"@
            &&& log.last().detail.get_text("runtime_id"@) == Some(runtime.descriptor.runtime_id)
        }),
{
    reveal_strlit("runtime_id");
    reveal_strlit("provider");
    reveal_strlit("artifact_ref");
    reveal_strlit("build_id");
    assert("runtime_id"@.len() == 10);
    assert("provider"@.len() == 8);
    assert("artifact_ref"@.len() == 12);
    assert("build_id"@.len() == 8);
}

/// Giving a runtime up forgets it, and puts its artifact back to what it was before.
pub proof fn giving_up_restores(service: AgentControlServiceModel, taken: TakenJobModel)
    ensures
        ({
            let after = rolled_back(service, taken);
            let id = taken.runtime.descriptor.runtime_id;
            &&& !after.state.runtimes.contains_key(id)
            &&& forall|other: Seq<char>|
                other != id ==> (#[trigger] after.state.runtimes.contains_key(other)
                    <==> service.state.runtimes.contains_key(other))
            &&& forall|other: Seq<char>|
                other != id && #[trigger] service.state.runtimes.contains_key(other)
                    ==> after.state.runtimes[other] == service.state.runtimes[other]
            &&& taken.job.provision.artifact_ref matches Some(artifact_ref) ==> (
            taken.previous_artifact is Some <==> after.state.artifacts.contains_key(
                artifact_ref,
            )) && (taken.previous_artifact is Some ==> after.state.artifacts[artifact_ref]
                == taken.previous_artifact->0)
            &&& after.state.audit_log == service.state.audit_log
            &&& rest_stays(after, service)
        }),
{
}

/// Who got a runtime is told which one, and when its lease began and ends; the last
/// status says that it is ready.
pub proof fn provisioning_is_answered(job: ProvisionJobModel, runtime: RuntimeRecordModel)
    ensures
        ({
            let answer = provision_answer(job, runtime);
            let payload = answer.result->0.payload;
            &&& answer.error is None
            &&& answer.result is Some
            &&& answer.result->0.schema == "agent.control.result.v1"@
            &&& answer.result->0.request_id == job.request_id
            &&& shows(answer.result->0.runtime, runtime)
            &&& payload.get_text("operation"@) == Some("provision"@)
            &&& payload.get("build_id"@) == Some(JsonModel::optional_text(job.provision.build_id))
            &&& payload.get("artifact_ref"@) == Some(
                JsonModel::optional_text(job.provision.artifact_ref),
            )
            &&& payload.get_uint("created_at"@) == Some(runtime.created_at)
            &&& payload.get_uint("expires_at"@) == Some(runtime.expires_at)
            &&& answer.statuses.len() == job.statuses.len() + 1
            &&& answer.statuses.last().phase == RuntimeLifecyclePhase::Ready
            &&& answer.statuses.last().runtime_id == Some(runtime.descriptor.runtime_id)
            &&& answer.statuses.last().request_id == job.request_id
        }),
{
    lemma_metadata_keys();
    crate::agent::query_laws::descriptor_shows_the_runtime(runtime);
    reveal_strlit("operation");
    assert("operation"@.len() == 9);
}

/// Where what was made does not fit, its requester is told why, and what became of it.
pub proof fn misfit_is_told(job: CleanupJobModel, torn_down: Result<JsonModel, Seq<char>>)
    requires
        job.complaint.detail is Some,
    ensures
        ({
            let answer = cleaned_up(job, torn_down);
            &&& is_refusal(answer, job.request_id, job.complaint.code)
            &&& answer.statuses == job.statuses
            &&& answer.error->0.hint == Some(job.complaint.hint)
            &&& answer.error->0.detail == Some(
                job.complaint.detail->0 + "; "@ + match torn_down {
                    Ok(payload) => "provider cleanup attempted: "@ + written_json(payload),
                    Err(error) => "provider cleanup failed: "@ + error,
                },
            )
        }),
{
    reveal_strlit("provider ");
    reveal_strlit("cleanup");
    reveal_strlit(" attempted: ");
    reveal_strlit(" failed: ");
    reveal_strlit("provider cleanup attempted: ");
    reveal_strlit("provider cleanup failed: ");
    assert("provider "@ + "cleanup"@ + " attempted: "@ =~= "provider cleanup attempted: "@);
    assert("provider "@ + "cleanup"@ + " failed: "@ =~= "provider cleanup failed: "@);
}

/// Where a runtime could not be written to disk, its requester is told that, what became
/// of it, and whether undoing it was written.
pub proof fn rollback_is_told(
    job: ProvisionJobModel,
    error: Seq<char>,
    torn_down: Result<JsonModel, Seq<char>>,
)
    ensures
        ({
            let answer = rollback_answer(job, error, torn_down, None);
            &&& is_refusal(answer, job.request_id, "state_persist_failed"@)
            &&& answer.statuses == job.statuses
            &&& answer.error->0.detail == Some(
                error + "; "@ + match torn_down {
                    Ok(payload) => "provider rollback attempted: "@ + written_json(payload),
                    Err(e) => "provider rollback failed: "@ + e,
                },
            )
            &&& forall|second: Seq<char>|
                (#[trigger] rollback_answer(job, error, torn_down, Some(second))).error->0.detail
                    == Some(
                    answer.error->0.detail->0 + "; rollback state persist failed: "@ + second,
                )
        }),
{
    reveal_strlit("provider ");
    reveal_strlit("rollback");
    reveal_strlit(" attempted: ");
    reveal_strlit(" failed: ");
    reveal_strlit("provider rollback attempted: ");
    reveal_strlit("provider rollback failed: ");
    assert("provider "@ + "rollback"@ + " attempted: "@ =~= "provider rollback attempted: "@);
    assert("provider "@ + "rollback"@ + " failed: "@ =~= "provider rollback failed: "@);
}

/// A runtime runs what a build left behind only where the build is the requester's own,
/// succeeded and left something behind that its provider can run; what is amiss is told.
pub proof fn build_has_to_have_succeeded(
    service: AgentControlServiceModel,
    requester: Seq<char>,
    request_id: Seq<char>,
    provision: ProvisionCommandModel,
    statuses: Seq<AgentControlStatusEnvelopeModel>,
    profile: RuntimeProfileModel,
    now: u64,
    build_id: Seq<char>,
)
    requires
        on_the_list(service.provision_policy, requester),
        provision.build_id == Some(build_id),
        provision.artifact_ref is None,
        service.state.builds.contains_key(build_id),
        service.state.builds[build_id].build_id == build_id,
        service.state.builds[build_id].owner_pubkey_hex == requester,
    ensures
        ({
            let begun = begun_provision(
                service,
                requester,
                request_id,
                provision,
                None,
                statuses,
                profile,
                now,
            );
            let build = current_build(service, build_id, now)->0;
            &&& !(build.phase is Succeeded) ==> begun is Err && is_refusal(
                begun->Err_0,
                request_id,
                "build_not_ready"@,
            )
            &&& build.phase is Succeeded && build.artifact_ref is None ==> begun is Err
                && is_refusal(begun->Err_0, request_id, "build_artifact_missing"@)
            &&& begun is Ok ==> build.phase is Succeeded && build.artifact_ref is Some
                && begun->Ok_0.provision.artifact_ref == build.artifact_ref
        }),
{
}

/// An artifact has to be of the kind that its provider runs and must not be able to
/// change: images at Fly, closures in virtual machines. Everything else is refused.
pub proof fn artifact_has_to_fit_its_provider(
    service: AgentControlServiceModel,
    requester: Seq<char>,
    request_id: Seq<char>,
    provision: ProvisionCommandModel,
    statuses: Seq<AgentControlStatusEnvelopeModel>,
    profile: RuntimeProfileModel,
    now: u64,
)
    requires
        on_the_list(service.provision_policy, requester),
        provision.build_id is None,
        provision.artifact_ref is Some,
        provision.runtime_class is None,
    ensures
        ({
            let begun = begun_provision(
                service,
                requester,
                request_id,
                provision,
                None,
                statuses,
                profile,
                now,
            );
            let kind = match provision.provider {
                ProviderKind::Fly => BuildKind::Oci,
                ProviderKind::Microvm => BuildKind::Nix,
            };
            let name = provision.artifact_ref->0;
            let fixed = artifact_complaint(kind, name) is None;
            let fits = artifact_kind(name) == Some(kind);
            &&& begun is Ok <==> fixed && fits
            &&& !fixed ==> is_refusal(begun->Err_0, request_id, "artifact_ref_invalid"@)
            &&& fixed && !fits ==> is_refusal(
                begun->Err_0,
                request_id,
                "artifact_kind_incompatible"@,
            )
        }),
{
}

} // verus!
