//! What the control service tells without changing anything: runtimes, and what it
//! can do.
use vstd::prelude::*;
use crate::agent::metadata::{descriptor_of, RuntimeProfile, RuntimeProfileModel};
use crate::agent::policy::{allows, same_optional_text};
use crate::agent::provision::speaks;
use crate::agent::service::{
    may_access, refuse_runtime, refuse_unauthorized, runtime_not_found, runtime_visible,
    unauthorized, AgentControlService, AgentControlServiceModel,
};
use crate::agent::types::{
    answered, default_list_summary_descriptor, descriptor_json, json_of_descriptor, provider_name,
    provider_text, summary_descriptor, AgentControlStatusEnvelope, AgentControlStatusEnvelopeModel,
    CommandOutcome, CommandOutcomeModel, ListRuntimesCommand, ListRuntimesCommandModel,
    ProviderKind, RuntimeDescriptor, RuntimeDescriptorModel,
};
use crate::collections::{lemma_listing_of, listing_of, Key, Relation, Replicate};
use crate::json::{json_array, json_bool, json_object, json_text, json_uint, Json, JsonModel};
use crate::sorting::{put_in_order, sorted, Ranked};
use crate::text::{
    lemma_text_before_irreflexive, lemma_text_before_total, lemma_text_before_transitive,
    text_before,
};

verus! {

impl Ranked for RuntimeDescriptor {
    /// By id.
    open spec fn ahead(a: RuntimeDescriptorModel, b: RuntimeDescriptorModel) -> bool {
        text_before(a.runtime_id, b.runtime_id)
    }

    proof fn lemma_asymmetric(a: RuntimeDescriptorModel, b: RuntimeDescriptorModel) {
        if Self::ahead(b, a) {
            lemma_text_before_transitive(a.runtime_id, b.runtime_id, a.runtime_id);
            lemma_text_before_irreflexive(a.runtime_id);
        }
    }

    proof fn lemma_not_ahead_transitive(
        a: RuntimeDescriptorModel,
        b: RuntimeDescriptorModel,
        c: RuntimeDescriptorModel,
    ) {
        if Self::ahead(c, a) && a.runtime_id != b.runtime_id {
            lemma_text_before_total(a.runtime_id, b.runtime_id);
            lemma_text_before_transitive(c.runtime_id, a.runtime_id, b.runtime_id);
        }
    }

    fn is_ahead(&self, other: &Self) -> (before: bool) {
        self.runtime_id.relate(&other.runtime_id) == Relation::Before
    }
}

/// Whether a runtime is one of those that are asked for.
pub open spec fn is_wanted(list: ListRuntimesCommandModel, descriptor: RuntimeDescriptorModel) -> bool {
    &&& list.provider matches Some(provider) ==> descriptor.provider == provider
    &&& list.protocol matches Some(protocol) ==> descriptor.protocol_compatibility.contains(protocol)
    &&& list.lifecycle_phase matches Some(phase) ==> descriptor.lifecycle_phase == phase
    &&& list.runtime_class is Some ==> descriptor.runtime_class == list.runtime_class
}

/// Whether a runtime is one of those that are asked for.
fn wants(list: &ListRuntimesCommand, descriptor: &RuntimeDescriptor) -> (wanted: bool)
    ensures
        wanted == is_wanted(list@, descriptor@),
{
    if let Some(provider) = list.provider {
        if descriptor.provider != provider {
            return false;
        }
    }
    if let Some(protocol) = list.protocol {
        if !speaks(&descriptor.protocol_compatibility, protocol) {
            return false;
        }
    }
    if let Some(phase) = list.lifecycle_phase {
        if descriptor.lifecycle_phase != phase {
            return false;
        }
    }
    if list.runtime_class.is_some() {
        return same_optional_text(&descriptor.runtime_class, &list.runtime_class);
    }
    true
}

/// The runtimes that a requester may see and asks for, in the order of their ids,
/// no more than the limit.
pub open spec fn listed_runtimes(
    service: AgentControlServiceModel,
    requester: Seq<char>,
    list: ListRuntimesCommandModel,
) -> Seq<RuntimeDescriptorModel> {
    let found = found_runtimes(
        service,
        requester,
        list,
        listing_of::<String>(service.state.runtimes.dom()),
    );
    let all = sorted::<RuntimeDescriptor>(found);
    match list.limit {
        Some(limit) if limit < all.len() => all.take(limit as int),
        _ => all,
    }
}

/// Whether a requester may see a runtime and asks for it.
pub open spec fn is_found(
    service: AgentControlServiceModel,
    requester: Seq<char>,
    list: ListRuntimesCommandModel,
) -> spec_fn(Seq<char>) -> bool {
    |id: Seq<char>|
        may_access(service.provision_policy, requester, service.state.runtimes[id]) && is_wanted(
            list,
            descriptor_of(service.state.runtimes[id]),
        )
}

/// Those runtimes of a list that a requester may see and asks for.
pub open spec fn found_runtimes(
    service: AgentControlServiceModel,
    requester: Seq<char>,
    list: ListRuntimesCommandModel,
    ids: Seq<Seq<char>>,
) -> Seq<RuntimeDescriptorModel> {
    ids.filter(is_found(service, requester, list)).map_values(
        |id: Seq<char>| descriptor_of(service.state.runtimes[id]),
    )
}

/// Runtimes as JSON.
pub open spec fn descriptors_json(descriptors: Seq<RuntimeDescriptorModel>) -> JsonModel {
    JsonModel::Array(descriptors.map_values(|d: RuntimeDescriptorModel| descriptor_json(d)))
}

/// Runtimes as JSON.
fn json_of_descriptors(descriptors: &Vec<RuntimeDescriptor>) -> (json: Json)
    ensures
        json@ == descriptors_json(descriptors.deep_view()),
{
    let ghost all = descriptors.deep_view();
    let mut items: Vec<Json> = Vec::new();
    let mut i: usize = 0;
    while i < descriptors.len()
        invariant
            i <= descriptors.len(),
            all == descriptors.deep_view(),
            items.len() == i,
            forall|j: int| 0 <= j < i ==> #[trigger] items@[j].deep_view() == descriptor_json(all[j]),
        decreases descriptors.len() - i,
    {
        items.push(json_of_descriptor(&descriptors[i]));
        i += 1;
    }
    proof {
        assert(items.deep_view() =~= all.map_values(
            |d: RuntimeDescriptorModel| descriptor_json(d),
        ));
    }
    json_array(items)
}

/// The answer to who asks about one runtime.
pub open spec fn runtime_answer(
    service: AgentControlServiceModel,
    requester: Seq<char>,
    request_id: Seq<char>,
    runtime_id: Seq<char>,
    statuses: Seq<AgentControlStatusEnvelopeModel>,
) -> CommandOutcomeModel {
    if runtime_visible(service, requester, runtime_id) {
        answered(
            statuses,
            request_id,
            descriptor_of(service.state.runtimes[runtime_id]),
            JsonModel::empty().with("operation"@, JsonModel::Text("get_runtime"@)),
        )
    } else {
        runtime_not_found(statuses, request_id, runtime_id)
    }
}

/// The answer to who asks for a list of runtimes.
pub open spec fn list_answer(
    request_id: Seq<char>,
    statuses: Seq<AgentControlStatusEnvelopeModel>,
    listed: Seq<RuntimeDescriptorModel>,
) -> CommandOutcomeModel {
    answered(
        statuses,
        request_id,
        if listed.len() > 0 {
            listed[0]
        } else {
            summary_descriptor()
        },
        JsonModel::empty().with("operation"@, JsonModel::Text("list_runtimes"@)).with(
            "count"@,
            JsonModel::UInt(listed.len() as u64),
        ).with("runtimes"@, descriptors_json(listed)),
    )
}

/// Texts as JSON.
pub open spec fn texts_json(texts: Seq<Seq<char>>) -> JsonModel {
    JsonModel::Array(texts.map_values(|t: Seq<char>| JsonModel::Text(t)))
}

/// What a provider can do, as JSON.
pub open spec fn provider_json(
    provider: ProviderKind,
    profile: RuntimeProfileModel,
    workload_kind: Seq<char>,
) -> JsonModel {
    JsonModel::empty().with("provider"@, JsonModel::Text(provider_text(provider))).with(
        "runtime_class"@,
        JsonModel::optional_text(profile.runtime_class),
    ).with("region"@, JsonModel::optional_text(profile.region)).with(
        "workload_kinds"@,
        texts_json(seq![workload_kind]),
    ).with("build_support"@, texts_json(seq!["prebuilt_artifact"@, "build_ref"@]))
}

/// What the service can do, as JSON.
pub open spec fn capabilities_json(
    service: AgentControlServiceModel,
    fly: RuntimeProfileModel,
    microvm: RuntimeProfileModel,
    ttl_secs: u64,
) -> JsonModel {
    JsonModel::empty().with("operation"@, JsonModel::Text("get_capabilities"@)).with(
        "providers"@,
        JsonModel::Array(
            seq![
                provider_json(ProviderKind::Fly, fly, "oci"@),
                provider_json(ProviderKind::Microvm, microvm, "nix"@),
            ],
        ),
    ).with(
        "limits"@,
        JsonModel::empty().with("ttl_sec_min"@, JsonModel::UInt(60)).with(
            "ttl_sec_default"@,
            JsonModel::UInt(ttl_secs),
        ).with(
            "build_max_active"@,
            JsonModel::UInt(service.build_policy.max_active_builds as u64),
        ).with(
            "build_max_submissions_per_hour"@,
            JsonModel::UInt(service.build_policy.max_submissions_per_hour as u64),
        ).with(
            "build_max_context_bytes"@,
            JsonModel::UInt(service.build_policy.max_context_bytes),
        ),
    ).with(
        "policy_flags"@,
        JsonModel::empty().with("distribution_enabled"@, JsonModel::Bool(true)).with(
            "build_enabled"@,
            JsonModel::Bool(true),
        ).with(
            "advanced_workload_enabled"@,
            JsonModel::Bool(service.v2_flags.advanced_workload_enabled),
        ),
    )
}

/// One text as JSON.
fn json_of_one(text: &str) -> (json: Json)
    ensures
        json@ == texts_json(seq![text@]),
{
    let mut items: Vec<Json> = Vec::new();
    items.push(json_text(text));
    proof {
        assert(items.deep_view() =~= seq![text@].map_values(|t: Seq<char>| JsonModel::Text(t)));
    }
    json_array(items)
}

/// Two texts as JSON.
fn json_of_two(first: &str, second: &str) -> (json: Json)
    ensures
        json@ == texts_json(seq![first@, second@]),
{
    let mut items: Vec<Json> = Vec::new();
    items.push(json_text(first));
    items.push(json_text(second));
    proof {
        assert(items.deep_view() =~= seq![first@, second@].map_values(
            |t: Seq<char>| JsonModel::Text(t),
        ));
    }
    json_array(items)
}

/// What a provider can do, as JSON.
fn json_of_provider(provider: ProviderKind, profile: &RuntimeProfile, workload_kind: &str) -> (json:
    Json)
    ensures
        json@ == provider_json(provider, profile@, workload_kind@),
{
    json_object().with("provider", json_text(provider_name(provider).as_str())).with(
        "runtime_class",
        Json::optional_text(&profile.runtime_class),
    ).with("region", Json::optional_text(&profile.region)).with(
        "workload_kinds",
        json_of_one(workload_kind),
    ).with("build_support", json_of_two("prebuilt_artifact", "build_ref"))
}

impl AgentControlService {
    /// Answers who asks about one runtime.
    pub fn handle_get_runtime(
        &self,
        requester_pubkey_hex: &str,
        request_id: String,
        runtime_id: &String,
        statuses: Vec<AgentControlStatusEnvelope>,
    ) -> (outcome: CommandOutcome)
        ensures
            outcome@ == runtime_answer(
                self@,
                requester_pubkey_hex@,
                request_id@,
                runtime_id@,
                statuses.deep_view(),
            ),
    {
        match self.visible_runtime(requester_pubkey_hex, runtime_id) {
            Some(runtime) => CommandOutcome::result(
                statuses,
                request_id,
                runtime.descriptor_with_lease(),
                json_object().with("operation", json_text("get_runtime")),
            ),
            None => refuse_runtime(statuses, request_id, runtime_id.clone()),
        }
    }

    /// The runtimes that a requester may see and asks for.
    pub fn list_runtimes(&self, requester_pubkey_hex: &str, list: &ListRuntimesCommand) -> (listed:
        Vec<RuntimeDescriptor>)
        ensures
            listed.deep_view() == listed_runtimes(self@, requester_pubkey_hex@, list@),
    {
        let n: usize = self.state.runtimes.len();
        let ghost keys = self.state.runtimes.listing();
        let ghost me = requester_pubkey_hex@;
        let ghost wanted = is_found(self@, me, list@);
        let ghost shown = |id: Seq<char>| descriptor_of(self@.state.runtimes[id]);
        let mut listed: Vec<RuntimeDescriptor> = Vec::new();
        let mut i: usize = 0;
        proof {
            reveal(Seq::filter);
            lemma_listing_of::<String>(keys, self@.state.runtimes.dom());
            assert(found_runtimes(self@, me, list@, keys.take(0)) =~= Seq::empty());
            assert(listed.deep_view() =~= sorted::<RuntimeDescriptor>(
                found_runtimes(self@, me, list@, keys.take(0)),
            ));
        }
        while i < n
            invariant
                i <= n == keys.len(),
                keys == self.state.runtimes.listing(),
                me == requester_pubkey_hex@,
                wanted == is_found(self@, me, list@),
                shown == (|id: Seq<char>| descriptor_of(self@.state.runtimes[id])),
                listed.deep_view() == sorted::<RuntimeDescriptor>(
                    found_runtimes(self@, me, list@, keys.take(i as int)),
                ),
            decreases n - i,
        {
            let ghost id = keys[i as int];
            let ghost before = keys.take(i as int);
            let ghost found = found_runtimes(self@, me, list@, before);
            proof {
                assert(keys.take(i + 1) =~= before.push(id));
                before.lemma_filter_push(id, wanted);
            }
            let runtime = self.state.runtimes.value_at(i);
            let descriptor = runtime.descriptor_with_lease();
            let ghost model = descriptor@;
            proof {
                assert(model == shown(id));
            }
            if self.can_access_runtime(requester_pubkey_hex, runtime) && wants(list, &descriptor) {
                put_in_order(&mut listed, descriptor);
                proof {
                    assert(wanted(id));
                    assert(found_runtimes(self@, me, list@, keys.take(i + 1)) =~= found.push(model));
                    assert(found.push(model).drop_last() =~= found);
                }
            } else {
                proof {
                    assert(!wanted(id));
                }
            }
            i += 1;
        }
        proof {
            assert(keys.take(i as int) =~= keys);
        }
        if let Some(limit) = list.limit {
            if limit < listed.len() {
                let ghost all = listed.deep_view();
                listed.truncate(limit);
                proof {
                    assert(listed.deep_view() =~= all.take(limit as int));
                }
            }
        }
        listed
    }

    /// Answers who asks for a list of runtimes.
    pub fn handle_list_runtimes(
        &self,
        requester_pubkey_hex: &str,
        request_id: String,
        list: &ListRuntimesCommand,
        statuses: Vec<AgentControlStatusEnvelope>,
    ) -> (outcome: CommandOutcome)
        ensures
            outcome@ == list_answer(
                request_id@,
                statuses.deep_view(),
                listed_runtimes(self@, requester_pubkey_hex@, list@),
            ),
    {
        let listed = self.list_runtimes(requester_pubkey_hex, list);
        let summary = if listed.len() > 0 {
            listed[0].replicate()
        } else {
            default_list_summary_descriptor()
        };
        CommandOutcome::result(
            statuses,
            request_id,
            summary,
            json_object().with("operation", json_text("list_runtimes")).with(
                "count",
                json_uint(listed.len() as u64),
            ).with("runtimes", json_of_descriptors(&listed)),
        )
    }

    /// Answers who asks what the service can do.
    pub fn handle_get_capabilities(
        &self,
        requester_pubkey_hex: &str,
        request_id: String,
        statuses: Vec<AgentControlStatusEnvelope>,
        fly: &RuntimeProfile,
        microvm: &RuntimeProfile,
        ttl_secs: u64,
    ) -> (outcome: CommandOutcome)
        ensures
            outcome@ == if allows(self@.provision_policy, requester_pubkey_hex@) {
                answered(
                    statuses.deep_view(),
                    request_id@,
                    summary_descriptor(),
                    capabilities_json(self@, fly@, microvm@, ttl_secs),
                )
            } else {
                unauthorized(statuses.deep_view(), request_id@, requester_pubkey_hex@)
            },
    {
        if !self.provision_policy.is_allowed(requester_pubkey_hex) {
            return refuse_unauthorized(statuses, request_id, requester_pubkey_hex);
        }
        let mut providers: Vec<Json> = Vec::new();
        providers.push(json_of_provider(ProviderKind::Fly, fly, "oci"));
        providers.push(json_of_provider(ProviderKind::Microvm, microvm, "nix"));
        proof {
            assert(providers.deep_view() =~= seq![
                provider_json(ProviderKind::Fly, fly@, "oci"@),
                provider_json(ProviderKind::Microvm, microvm@, "nix"@),
            ]);
        }
        let limits = json_object().with("ttl_sec_min", json_uint(60)).with(
            "ttl_sec_default",
            json_uint(ttl_secs),
        ).with("build_max_active", json_uint(self.build_policy.max_active_builds as u64)).with(
            "build_max_submissions_per_hour",
            json_uint(self.build_policy.max_submissions_per_hour as u64),
        ).with("build_max_context_bytes", json_uint(self.build_policy.max_context_bytes));
        let flags = json_object().with("distribution_enabled", json_bool(true)).with(
            "build_enabled",
            json_bool(true),
        ).with("advanced_workload_enabled", json_bool(self.v2_flags.advanced_workload_enabled));
        CommandOutcome::result(
            statuses,
            request_id,
            default_list_summary_descriptor(),
            json_object().with("operation", json_text("get_capabilities")).with(
                "providers",
                json_array(providers),
            ).with("limits", limits).with("policy_flags", flags),
        )
    }
}

/// A list of runtimes holds only what the requester may see.
pub proof fn list_shows_only_visible(
    service: AgentControlServiceModel,
    requester: Seq<char>,
    list: ListRuntimesCommandModel,
    i: int,
)
    requires
        service.state.runtimes.dom().finite(),
        0 <= i < listed_runtimes(service, requester, list).len(),
    ensures
        exists|id: Seq<char>| #[trigger]
            runtime_visible(service, requester, id) && listed_runtimes(service, requester, list)[i]
                == descriptor_of(service.state.runtimes[id]) && is_wanted(
                list,
                descriptor_of(service.state.runtimes[id]),
            ),
{
    let ids = listing_of::<String>(service.state.runtimes.dom());
    crate::collections::lemma_listing_exists::<String>(service.state.runtimes.dom());
    let wanted = is_found(service, requester, list);
    let kept = ids.filter(wanted);
    let found = found_runtimes(service, requester, list, ids);
    let all = sorted::<RuntimeDescriptor>(found);
    let shown = listed_runtimes(service, requester, list)[i];
    crate::sorting::sorted_is_ordered::<RuntimeDescriptor>(found);
    broadcast use vstd::seq_lib::group_to_multiset_ensures;

    assert(all.contains(shown)) by {
        assert(all[i] == shown);
    }
    assert(all.to_multiset().contains(shown));
    assert(found.to_multiset().contains(shown));
    assert(found.contains(shown));
    let k = choose|k: int| 0 <= k < found.len() && found[k] == shown;
    let id = kept[k];
    ids.lemma_filter_pred(wanted, k);
    ids.lemma_filter_contains_rev(wanted, id);
    assert(kept.contains(id));
    assert(runtime_visible(service, requester, id));
}

} // verus!
