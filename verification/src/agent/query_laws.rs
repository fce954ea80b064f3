//! What a requester is shown of the runtimes there are.
use vstd::prelude::*;
use crate::agent::metadata::{descriptor_of, RuntimeProfileModel};
use crate::agent::policy::ProvisionPolicyModel;
use crate::agent::queries::{
    capabilities_json, found_runtimes, is_found, list_answer, list_shows_only_visible,
    listed_runtimes, runtime_answer,
};
use crate::agent::service::AgentControlServiceModel;
use crate::agent::types::{
    AgentControlStatusEnvelopeModel, ListRuntimesCommandModel, ProviderKind, RuntimeDescriptor,
    RuntimeDescriptorModel, RuntimeLifecyclePhase, RuntimeRecordModel,
};
use crate::collections::listing_of;
use crate::json::JsonModel;
use crate::sorting::{sorted, sorted_is_ordered, Ranked};
use crate::text::text_before;

verus! {

/// Whether a requester is one who may have runtimes provisioned.
pub open spec fn on_the_list(policy: ProvisionPolicyModel, requester: Seq<char>) -> bool {
    policy is AllowAll || (policy is Allowlist && policy->Allowlist_0.contains(requester))
}

/// Whether a requester owns a runtime, or may have what nobody owns.
pub open spec fn is_theirs(
    service: AgentControlServiceModel,
    requester: Seq<char>,
    runtime: RuntimeRecordModel,
) -> bool {
    ||| runtime.owner_pubkey_hex.len() > 0 && runtime.owner_pubkey_hex == requester
    ||| runtime.owner_pubkey_hex.len() == 0 && on_the_list(service.provision_policy, requester)
}

/// Whether a descriptor shows a runtime as it is written down, but for its metadata,
/// which tell of the lease as well.
pub open spec fn shows(descriptor: RuntimeDescriptorModel, runtime: RuntimeRecordModel) -> bool {
    &&& descriptor.runtime_id == runtime.descriptor.runtime_id
    &&& descriptor.provider == runtime.descriptor.provider
    &&& descriptor.lifecycle_phase == runtime.descriptor.lifecycle_phase
    &&& descriptor.runtime_class == runtime.descriptor.runtime_class
    &&& descriptor.region == runtime.descriptor.region
    &&& descriptor.capacity == runtime.descriptor.capacity
    &&& descriptor.policy_constraints == runtime.descriptor.policy_constraints
    &&& descriptor.protocol_compatibility == runtime.descriptor.protocol_compatibility
    &&& descriptor.bot_pubkey == runtime.descriptor.bot_pubkey
}

/// A runtime is shown as it is written down, and its metadata tell when it was made and
/// when it ends.
pub proof fn descriptor_shows_the_runtime(runtime: RuntimeRecordModel)
    ensures
        shows(descriptor_of(runtime), runtime),
        descriptor_of(runtime).metadata.get_uint("created_at"@) == Some(runtime.created_at),
        descriptor_of(runtime).metadata.get_uint("expires_at"@) == Some(runtime.expires_at),
{
    reveal_strlit("created_at");
    reveal_strlit("expires_at");
    reveal_strlit("teardown_retry");
    reveal_strlit("provider_metadata");
    assert("created_at"@[0] == 'c');
    assert("expires_at"@[0] == 'e');
    assert("teardown_retry"@[0] == 't');
}

/// Every runtime that is listed is one that the requester may see, and is what was asked
/// for: of the provider, in the phase, of the class, and speaking the protocol that the
/// list names, where it names one.
pub proof fn listed_runtimes_are_as_asked(
    service: AgentControlServiceModel,
    requester: Seq<char>,
    list: ListRuntimesCommandModel,
    i: int,
)
    requires
        service.state.runtimes.dom().finite(),
        0 <= i < listed_runtimes(service, requester, list).len(),
    ensures
        ({
            let shown = listed_runtimes(service, requester, list)[i];
            &&& list.provider is Some ==> shown.provider == list.provider->0
            &&& list.lifecycle_phase is Some ==> shown.lifecycle_phase == list.lifecycle_phase->0
            &&& list.runtime_class is Some ==> shown.runtime_class == list.runtime_class
            &&& list.protocol is Some ==> shown.protocol_compatibility.contains(list.protocol->0)
            &&& exists|id: Seq<char>| #[trigger]
                service.state.runtimes.contains_key(id) && shows(
                    shown,
                    service.state.runtimes[id],
                ) && is_theirs(service, requester, service.state.runtimes[id])
        }),
{
    list_shows_only_visible(service, requester, list, i);
    let id = choose|id: Seq<char>| #[trigger]
        crate::agent::service::runtime_visible(service, requester, id) && listed_runtimes(
            service,
            requester,
            list,
        )[i] == descriptor_of(service.state.runtimes[id]) && crate::agent::queries::is_wanted(
            list,
            descriptor_of(service.state.runtimes[id]),
        );
    descriptor_shows_the_runtime(service.state.runtimes[id]);
    assert(service.state.runtimes.contains_key(id));
}

/// Where there is no limit, every runtime is listed that the requester may see and that
/// is what was asked for.
pub proof fn what_is_asked_for_is_listed(
    service: AgentControlServiceModel,
    requester: Seq<char>,
    list: ListRuntimesCommandModel,
    id: Seq<char>,
)
    requires
        service.state.runtimes.dom().finite(),
        list.limit is None,
        service.state.runtimes.contains_key(id),
        is_theirs(service, requester, service.state.runtimes[id]),
        ({
            let descriptor = service.state.runtimes[id].descriptor;
            &&& list.provider is Some ==> descriptor.provider == list.provider->0
            &&& list.lifecycle_phase is Some ==> descriptor.lifecycle_phase
                == list.lifecycle_phase->0
            &&& list.runtime_class is Some ==> descriptor.runtime_class == list.runtime_class
            &&& list.protocol is Some ==> descriptor.protocol_compatibility.contains(
                list.protocol->0,
            )
        }),
    ensures
        exists|i: int|
            0 <= i < listed_runtimes(service, requester, list).len() && shows(
                #[trigger] listed_runtimes(service, requester, list)[i],
                service.state.runtimes[id],
            ),
{
    let ids = listing_of::<String>(service.state.runtimes.dom());
    crate::collections::lemma_listing_exists::<String>(service.state.runtimes.dom());
    let wanted = is_found(service, requester, list);
    let kept = ids.filter(wanted);
    let found = found_runtimes(service, requester, list, ids);
    let all = sorted::<RuntimeDescriptor>(found);
    let shown = descriptor_of(service.state.runtimes[id]);
    descriptor_shows_the_runtime(service.state.runtimes[id]);
    assert(ids.contains(id));
    let at = choose|at: int| 0 <= at < ids.len() && ids[at] == id;
    assert(wanted(id));
    ids.lemma_filter_contains(wanted, at);
    assert(kept.contains(id));
    let k = choose|k: int| 0 <= k < kept.len() && kept[k] == id;
    assert(found[k] == shown);
    sorted_is_ordered::<RuntimeDescriptor>(found);
    broadcast use vstd::seq_lib::group_to_multiset_ensures;

    assert(found.contains(shown));
    assert(found.to_multiset().contains(shown));
    assert(all.to_multiset().contains(shown));
    assert(all.contains(shown));
    let i = choose|i: int| 0 <= i < all.len() && all[i] == shown;
    assert(listed_runtimes(service, requester, list)[i] == shown);
}

/// Runtimes are listed by their ids, and a limit takes no more than the first of those
/// that are listed without one.
pub proof fn list_is_ordered_and_limited(
    service: AgentControlServiceModel,
    requester: Seq<char>,
    list: ListRuntimesCommandModel,
    limit: usize,
    i: int,
    j: int,
)
    requires
        list.limit is None,
    ensures
        ({
            let all = listed_runtimes(service, requester, list);
            let some = listed_runtimes(
                service,
                requester,
                ListRuntimesCommandModel { limit: Some(limit), ..list },
            );
            &&& 0 <= i < j < all.len() ==> !text_before(all[j].runtime_id, all[i].runtime_id)
            &&& some.len() == if limit < all.len() {
                limit as nat
            } else {
                all.len()
            }
            &&& 0 <= i < some.len() ==> some[i] == all[i]
        }),
{
    let ids = listing_of::<String>(service.state.runtimes.dom());
    let found = found_runtimes(service, requester, list, ids);
    let limited = ListRuntimesCommandModel { limit: Some(limit), ..list };
    assert(is_found(service, requester, list) =~= is_found(service, requester, limited));
    assert(found_runtimes(service, requester, limited, ids) == found);
    sorted_is_ordered::<RuntimeDescriptor>(found);
    let all = sorted::<RuntimeDescriptor>(found);
    if 0 <= i < j < all.len() {
        assert(!RuntimeDescriptor::ahead(all[j], all[i]));
    }
}

/// The answer to a list tells how many runtimes there are and shows each of them, in
/// order; its runtime is the first of them, or a summary where there is none.
pub proof fn list_answer_tells_all(
    request_id: Seq<char>,
    statuses: Seq<AgentControlStatusEnvelopeModel>,
    listed: Seq<RuntimeDescriptorModel>,
)
    requires
        listed.len() <= u64::MAX,
    ensures
        ({
            let answer = list_answer(request_id, statuses, listed);
            let payload = answer.result->0.payload;
            &&& answer.statuses == statuses
            &&& answer.error is None
            &&& answer.result is Some
            &&& answer.result->0.schema == "agent.control.result.v1"@
            &&& answer.result->0.request_id == request_id
            &&& listed.len() > 0 ==> answer.result->0.runtime == listed[0]
            &&& listed.len() == 0 ==> answer.result->0.runtime.runtime_id
                == "runtime-list-summary"@
            &&& payload.get_text("operation"@) == Some("list_runtimes"@)
            &&& payload.get_uint("count"@) == Some(listed.len() as u64)
            &&& payload.get("runtimes"@) is Some
            &&& payload.get("runtimes"@)->0 is Array
            &&& payload.get("runtimes"@)->0->Array_0.len() == listed.len()
        }),
{
    reveal_strlit("operation");
    reveal_strlit("count");
    reveal_strlit("runtimes");
    assert("operation"@[0] == 'o');
    assert("count"@[0] == 'c');
    assert("runtimes"@[0] == 'r');
}

/// A runtime is shown to those whose it is, and is not there for anybody else.
pub proof fn runtime_is_shown_to_its_own(
    service: AgentControlServiceModel,
    requester: Seq<char>,
    request_id: Seq<char>,
    runtime_id: Seq<char>,
    statuses: Seq<AgentControlStatusEnvelopeModel>,
)
    ensures
        ({
            let answer = runtime_answer(service, requester, request_id, runtime_id, statuses);
            let seen = service.state.runtimes.contains_key(runtime_id) && is_theirs(
                service,
                requester,
                service.state.runtimes[runtime_id],
            );
            &&& answer.statuses == statuses
            &&& seen ==> answer.error is None && answer.result is Some
                && answer.result->0.request_id == request_id && shows(
                answer.result->0.runtime,
                service.state.runtimes[runtime_id],
            ) && answer.result->0.payload.get_text("operation"@) == Some("get_runtime"@)
            &&& !seen ==> answer.result is None && answer.error is Some
                && answer.error->0.request_id == request_id && answer.error->0.code
                == "runtime_not_found"@ && answer.error->0.detail == Some(runtime_id)
        }),
{
    if service.state.runtimes.contains_key(runtime_id) {
        descriptor_shows_the_runtime(service.state.runtimes[runtime_id]);
    }
}

/// The capabilities tell the limits of builds and of leases as they are set, and whether
/// advanced workloads are switched on.
pub proof fn capabilities_tell_the_settings(
    service: AgentControlServiceModel,
    fly: RuntimeProfileModel,
    microvm: RuntimeProfileModel,
    ttl_secs: u64,
)
    ensures
        ({
            let told = capabilities_json(service, fly, microvm, ttl_secs);
            let limits = told.get("limits"@)->0;
            let flags = told.get("policy_flags"@)->0;
            let providers = told.get("providers"@)->0->Array_0;
            &&& told.get_text("operation"@) == Some("get_capabilities"@)
            &&& limits.get_uint("ttl_sec_min"@) == Some(60u64)
            &&& limits.get_uint("ttl_sec_default"@) == Some(ttl_secs)
            &&& limits.get_uint("build_max_active"@) == Some(
                service.build_policy.max_active_builds as u64,
            )
            &&& limits.get_uint("build_max_submissions_per_hour"@) == Some(
                service.build_policy.max_submissions_per_hour as u64,
            )
            &&& limits.get_uint("build_max_context_bytes"@) == Some(
                service.build_policy.max_context_bytes,
            )
            &&& flags.get_bool("distribution_enabled"@) == Some(true)
            &&& flags.get_bool("build_enabled"@) == Some(true)
            &&& flags.get_bool("advanced_workload_enabled"@) == Some(
                service.v2_flags.advanced_workload_enabled,
            )
            &&& providers.len() == 2
            &&& providers[0].get_text("provider"@) == Some("fly"@)
            &&& providers[1].get_text("provider"@) == Some("microvm"@)
            &&& providers[0].get("runtime_class"@) == Some(
                JsonModel::optional_text(fly.runtime_class),
            )
            &&& providers[1].get("runtime_class"@) == Some(
                JsonModel::optional_text(microvm.runtime_class),
            )
            &&& providers[0].get("region"@) == Some(JsonModel::optional_text(fly.region))
            &&& providers[1].get("region"@) == Some(JsonModel::optional_text(microvm.region))
        }),
{
    reveal_strlit("operation");
    reveal_strlit("providers");
    reveal_strlit("limits");
    reveal_strlit("policy_flags");
    reveal_strlit("ttl_sec_min");
    reveal_strlit("ttl_sec_default");
    reveal_strlit("build_max_active");
    reveal_strlit("build_max_submissions_per_hour");
    reveal_strlit("build_max_context_bytes");
    reveal_strlit("distribution_enabled");
    reveal_strlit("build_enabled");
    reveal_strlit("advanced_workload_enabled");
    reveal_strlit("provider");
    reveal_strlit("runtime_class");
    reveal_strlit("region");
    reveal_strlit("workload_kinds");
    reveal_strlit("build_support");
    assert("provider"@.len() == 8);
    assert("runtime_class"@.len() == 13);
    assert("region"@.len() == 6);
    assert("workload_kinds"@.len() == 14);
    assert("build_support"@.len() == 13 && "build_support"@[0] == 'b');
    assert("runtime_class"@[0] == 'r');
    assert("operation"@.len() == 9 && "operation"@[0] == 'o');
    assert("providers"@.len() == 9 && "providers"@[0] == 'p');
    assert("limits"@.len() == 6);
    assert("policy_flags"@.len() == 12);
    assert("ttl_sec_min"@.len() == 11);
    assert("ttl_sec_default"@.len() == 15);
    assert("build_max_active"@.len() == 16);
    assert("build_max_submissions_per_hour"@.len() == 30);
    assert("build_max_context_bytes"@.len() == 23);
    assert("distribution_enabled"@.len() == 20);
    assert("build_enabled"@.len() == 13);
    assert("advanced_workload_enabled"@.len() == 25);
}

/// Each runtime of a list is told in full, in its place.
pub proof fn listed_runtime_is_told_in_full(
    request_id: Seq<char>,
    statuses: Seq<AgentControlStatusEnvelopeModel>,
    listed: Seq<RuntimeDescriptorModel>,
    i: int,
)
    requires
        0 <= i < listed.len(),
    ensures
        ({
            let payload = list_answer(request_id, statuses, listed).result->0.payload;
            let told = payload.get("runtimes"@)->0->Array_0[i];
            let d = listed[i];
            &&& told.get_text("runtime_id"@) == Some(d.runtime_id)
            &&& told.get_text("provider"@) == Some(
                match d.provider {
                    ProviderKind::Fly => "fly"@,
                    ProviderKind::Microvm => "microvm"@,
                },
            )
            &&& told.get_text("lifecycle_phase"@) == Some(
                match d.lifecycle_phase {
                    RuntimeLifecyclePhase::Queued => "queued"@,
                    RuntimeLifecyclePhase::Provisioning => "provisioning"@,
                    RuntimeLifecyclePhase::Ready => "ready"@,
                    RuntimeLifecyclePhase::Failed => "failed"@,
                    RuntimeLifecyclePhase::Teardown => "teardown"@,
                },
            )
            &&& told.get("runtime_class"@) == Some(JsonModel::optional_text(d.runtime_class))
            &&& told.get("region"@) == Some(JsonModel::optional_text(d.region))
            &&& told.get("capacity"@) == Some(d.capacity)
            &&& told.get("policy_constraints"@) == Some(d.policy_constraints)
            &&& told.get("bot_pubkey"@) == Some(JsonModel::optional_text(d.bot_pubkey))
            &&& told.get("metadata"@) == Some(d.metadata)
            &&& told.get("protocol_compatibility"@) is Some
            &&& told.get("protocol_compatibility"@)->0 is Array
            &&& told.get("protocol_compatibility"@)->0->Array_0.len()
                == d.protocol_compatibility.len()
        }),
{
    reveal_strlit("operation");
    reveal_strlit("count");
    reveal_strlit("runtimes");
    assert("operation"@[0] == 'o');
    assert("count"@[0] == 'c');
    assert("runtimes"@[0] == 'r');
    reveal_strlit("runtime_id");
    reveal_strlit("provider");
    reveal_strlit("lifecycle_phase");
    reveal_strlit("runtime_class");
    reveal_strlit("region");
    reveal_strlit("capacity");
    reveal_strlit("policy_constraints");
    reveal_strlit("protocol_compatibility");
    reveal_strlit("bot_pubkey");
    reveal_strlit("metadata");
    assert("runtime_id"@.len() == 10 && "runtime_id"@[0] == 'r');
    assert("bot_pubkey"@.len() == 10 && "bot_pubkey"@[0] == 'b');
    assert("provider"@.len() == 8 && "provider"@[0] == 'p');
    assert("capacity"@.len() == 8 && "capacity"@[0] == 'c');
    assert("metadata"@.len() == 8 && "metadata"@[0] == 'm');
    assert("lifecycle_phase"@.len() == 15);
    assert("runtime_class"@.len() == 13);
    assert("region"@.len() == 6);
    assert("policy_constraints"@.len() == 18);
    assert("protocol_compatibility"@.len() == 22);
}

} // verus!
