//! What a distribution resolves to.
use vstd::prelude::*;
use crate::agent::distribution::{
    by_ref, default_manifests, distribution_answer, first_stray, manifests_in, resolved_preset,
    DistributionDefaultsModel, DistributionManifestModel, DistributionPresetModel,
};
use crate::agent::policy::artifact_complaint;
use crate::agent::policy_laws::said;
use crate::agent::provision_laws::is_refusal;
use crate::agent::query_laws::on_the_list;
use crate::agent::service::AgentControlServiceModel;
use crate::agent::types::{
    AgentControlStatusEnvelopeModel, BuildKind, ProviderKind, ResolveDistributionCommandModel,
};
use crate::collections::listing_of;
use crate::json::JsonModel;
use crate::text::trimmed;

verus! {

proof fn lemma_preset_names()
    ensures
        "small"@ != "medium"@,
        "small"@.len() == 5,
        "medium"@.len() == 6,
{
    reveal_strlit("small");
    reveal_strlit("medium");
    assert("small"@.len() == 5);
    assert("medium"@.len() == 6);
}

/// The presets that are built in: a small one at Fly and a medium one in a virtual
/// machine, which lives twice as long; each is of the class, in the region and with the
/// artifact that its provider has by default, and only some of it may be overridden.
pub proof fn built_in_presets(defaults: DistributionDefaultsModel)
    ensures
        ({
            let manifests = default_manifests(defaults);
            let manifest = manifests["agent.default"@];
            let small = manifest.presets["small"@];
            let medium = manifest.presets["medium"@];
            &&& forall|name: Seq<char>| #[trigger]
                manifests.contains_key(name) <==> name == "agent.default"@
            &&& manifest.distribution_ref == "agent.default"@
            &&& manifest.allowed_override_keys.len() == 0
            &&& forall|name: Seq<char>| #[trigger]
                manifest.presets.contains_key(name) <==> name == "small"@ || name == "medium"@
            &&& small.provider == ProviderKind::Fly
            &&& small.runtime_class == defaults.fly.runtime_class
            &&& small.region_hint == defaults.fly.region
            &&& small.ttl_sec == defaults.ttl_secs
            &&& small.build_kind == Some(BuildKind::Oci)
            &&& small.artifact_ref == defaults.fly_artifact_ref
            &&& small.allowed_override_keys == seq!["ttl_sec"@, "region_hint"@, "artifact_ref"@]
            &&& medium.provider == ProviderKind::Microvm
            &&& medium.runtime_class == defaults.microvm.runtime_class
            &&& medium.region_hint == defaults.microvm.region
            &&& 2 * defaults.ttl_secs <= u64::MAX ==> medium.ttl_sec == 2 * defaults.ttl_secs
            &&& 2 * defaults.ttl_secs > u64::MAX ==> medium.ttl_sec == u64::MAX
            &&& medium.build_kind == Some(BuildKind::Nix)
            &&& medium.artifact_ref == defaults.microvm_artifact_ref
            &&& medium.allowed_override_keys == seq![
                "ttl_sec"@,
                "region_hint"@,
                "runtime_class"@,
                "artifact_ref"@,
            ]
        }),
{
    lemma_preset_names();
}

/// Distributions that are set take the place of those that are built in; of two with the
/// same name the later counts.
pub proof fn distributions_that_are_set_count(
    manifests: Seq<DistributionManifestModel>,
    defaults: DistributionDefaultsModel,
    i: int,
)
    ensures
        manifests_in(None, defaults) == default_manifests(defaults),
        manifests_in(Some(Seq::empty()), defaults) == default_manifests(defaults),
        0 <= i < manifests.len() && (forall|j: int|
            i < j < manifests.len() ==> (#[trigger] manifests[j]).distribution_ref
                != manifests[i].distribution_ref) ==> manifests_in(
            Some(manifests),
            defaults,
        ).contains_key(manifests[i].distribution_ref) && manifests_in(
            Some(manifests),
            defaults,
        )[manifests[i].distribution_ref] == manifests[i],
{
    if 0 <= i < manifests.len() && (forall|j: int|
        i < j < manifests.len() ==> (#[trigger] manifests[j]).distribution_ref
            != manifests[i].distribution_ref) {
        lemma_by_ref(manifests, i);
    }
}

proof fn lemma_by_ref(manifests: Seq<DistributionManifestModel>, i: int)
    requires
        0 <= i < manifests.len(),
        forall|j: int|
            i < j < manifests.len() ==> (#[trigger] manifests[j]).distribution_ref
                != manifests[i].distribution_ref,
    ensures
        by_ref(manifests).contains_key(manifests[i].distribution_ref),
        by_ref(manifests)[manifests[i].distribution_ref] == manifests[i],
    decreases manifests.len(),
{
    if i < manifests.len() - 1 {
        let rest = manifests.drop_last();
        assert forall|j: int| i < j < rest.len() implies (#[trigger] rest[j]).distribution_ref
            != rest[i].distribution_ref by {
            assert(manifests[j].distribution_ref != manifests[i].distribution_ref);
        }
        lemma_by_ref(rest, i);
        assert(manifests[manifests.len() - 1].distribution_ref != manifests[i].distribution_ref);
    }
}

/// A preset that is not overridden resolves to what it says, with a lease of a minute at
/// least.
pub proof fn preset_resolves_to_itself(preset: DistributionPresetModel, allowed: Set<Seq<char>>)
    ensures
        ({
            let resolved = resolved_preset(preset, allowed, None);
            &&& resolved is Ok
            &&& resolved->Ok_0.runtime_class == preset.runtime_class
            &&& resolved->Ok_0.region_hint == preset.region_hint
            &&& resolved->Ok_0.artifact_ref == preset.artifact_ref
            &&& preset.ttl_sec >= 60 ==> resolved->Ok_0.ttl_sec == preset.ttl_sec
            &&& preset.ttl_sec < 60 ==> resolved->Ok_0.ttl_sec == 60
            &&& resolved->Ok_0.overrides is Object
            &&& forall|key: Seq<char>| (#[trigger] resolved->Ok_0.overrides.get(key)) is None
        }),
{
}

proof fn lemma_stray(keys: Seq<Seq<char>>, allowed: Set<Seq<char>>)
    ensures
        match first_stray(keys, allowed) {
            None => forall|i: int| 0 <= i < keys.len() ==> allowed.contains(#[trigger] keys[i]),
            Some(key) => keys.contains(key) && !allowed.contains(key),
        },
    decreases keys.len(),
{
    if keys.len() > 0 {
        let rest = keys.skip(1);
        lemma_stray(rest, allowed);
        if allowed.contains(keys[0]) {
            match first_stray(rest, allowed) {
                None => {
                    assert forall|i: int| 0 <= i < keys.len() implies allowed.contains(
                        #[trigger] keys[i],
                    ) by {
                        if i > 0 {
                            assert(rest[i - 1] == keys[i]);
                        }
                    }
                },
                Some(key) => {
                    let i = choose|i: int| 0 <= i < rest.len() && rest[i] == key;
                    assert(keys[i + 1] == key);
                },
            }
        } else {
            assert(keys[0] == first_stray(keys, allowed)->0);
        }
    }
}

/// Overrides have to be JSON, an object, and hold nothing but keys that are allowed; what
/// is wrong is told, and a key that is not allowed is named.
pub proof fn overrides_have_to_be_allowed(
    preset: DistributionPresetModel,
    allowed: Set<Seq<char>>,
    error: Seq<char>,
    json: JsonModel,
)
    requires
        json is Object ==> json->Object_0.dom().finite(),
    ensures
        ({
            let unread = resolved_preset(preset, allowed, Some(Err(error)));
            let read = resolved_preset(preset, allowed, Some(Ok(json)));
            let stray = json is Object && exists|key: Seq<char>| #[trigger]
                json->Object_0.contains_key(key) && !allowed.contains(key);
            &&& unread is Err
            &&& unread->Err_0.code == "distribution_overrides_invalid_json"@
            &&& unread->Err_0.detail == Some(error)
            &&& !(json is Object) ==> read is Err && read->Err_0.code
                == "distribution_overrides_invalid_shape"@
            &&& stray ==> read is Err && read->Err_0.code == "distribution_override_not_allowed"@
                && read->Err_0.detail is Some && json->Object_0.contains_key(read->Err_0.detail->0)
                && !allowed.contains(read->Err_0.detail->0)
            &&& read is Ok ==> json is Object && forall|key: Seq<char>| #[trigger]
                json->Object_0.contains_key(key) ==> allowed.contains(key)
        }),
{
    if let JsonModel::Object(entries) = json {
        let keys = listing_of::<String>(entries.dom());
        crate::collections::lemma_listing_exists::<String>(entries.dom());
        lemma_stray(keys, allowed);
        assert forall|key: Seq<char>| #[trigger] entries.contains_key(key) implies keys.contains(
            key,
        ) by {}
        if first_stray(keys, allowed) is None {
            assert forall|key: Seq<char>| #[trigger] entries.contains_key(
                key,
            ) implies allowed.contains(key) by {
                let i = choose|i: int| 0 <= i < keys.len() && keys[i] == key;
                assert(allowed.contains(keys[i]));
            }
        }
    }
}

/// What overrides name is taken in place of what the preset says, where it is a text
/// that is not blank, or a number for the lease, of which a minute is the least;
/// everything else is as the preset says. An artifact that can change is refused.
pub proof fn overrides_take_the_place_of_the_preset(
    preset: DistributionPresetModel,
    allowed: Set<Seq<char>>,
    json: JsonModel,
)
    requires
        json is Object,
        json->Object_0.dom().finite(),
        forall|key: Seq<char>| #[trigger] json->Object_0.contains_key(key) ==> allowed.contains(key),
    ensures
        ({
            let read = resolved_preset(preset, allowed, Some(Ok(json)));
            let artifact = json.get_text("artifact_ref"@);
            let bad = said(artifact) && preset.build_kind is Some && artifact_complaint(
                preset.build_kind->0,
                trimmed(artifact->0),
            ) is Some;
            let took = |key: Seq<char>, own: Option<Seq<char>>|
                if said(json.get_text(key)) {
                    Some(trimmed(json.get_text(key)->0))
                } else {
                    own
                };
            let ttl = if json.get_uint("ttl_sec"@) is Some {
                json.get_uint("ttl_sec"@)->0
            } else {
                preset.ttl_sec
            };
            &&& bad ==> read is Err && read->Err_0.code == "distribution_artifact_invalid"@
            &&& !bad ==> read is Ok && read->Ok_0.runtime_class == took(
                "runtime_class"@,
                preset.runtime_class,
            ) && read->Ok_0.region_hint == took("region_hint"@, preset.region_hint)
                && read->Ok_0.artifact_ref == took("artifact_ref"@, preset.artifact_ref)
                && read->Ok_0.ttl_sec == if ttl < 60 {
                60
            } else {
                ttl
            }
        }),
{
    let entries = json->Object_0;
    let keys = listing_of::<String>(entries.dom());
    crate::collections::lemma_listing_exists::<String>(entries.dom());
    lemma_stray(keys, allowed);
    if first_stray(keys, allowed) is Some {
        let key = first_stray(keys, allowed)->0;
        assert(entries.contains_key(key));
    }
}

/// A distribution is resolved for those on the list, where it and its preset are there;
/// what is allowed to be overridden is what the distribution and the preset allow. What
/// is told is the provider of the preset and what the preset resolves to.
pub proof fn distribution_is_resolved(
    service: AgentControlServiceModel,
    manifests: Map<Seq<char>, DistributionManifestModel>,
    requester: Seq<char>,
    request_id: Seq<char>,
    resolve: ResolveDistributionCommandModel,
    overrides: Option<Result<JsonModel, Seq<char>>>,
    statuses: Seq<AgentControlStatusEnvelopeModel>,
)
    ensures
        ({
            let answer = distribution_answer(
                service,
                manifests,
                requester,
                request_id,
                resolve,
                overrides,
                statuses,
            );
            let listed = on_the_list(service.provision_policy, requester);
            let known = manifests.contains_key(resolve.distribution_ref);
            let manifest = manifests[resolve.distribution_ref];
            let there = manifest.presets.contains_key(resolve.preset);
            let preset = manifest.presets[resolve.preset];
            let read = resolved_preset(
                preset,
                manifest.allowed_override_keys.to_set().union(
                    preset.allowed_override_keys.to_set(),
                ),
                overrides,
            );
            let told = answer.result->0.payload;
            let plan = told.get("resolved_provision"@)->0;
            &&& answer.statuses == statuses
            &&& !listed ==> is_refusal(answer, request_id, "provision_unauthorized"@)
            &&& listed && !known ==> is_refusal(answer, request_id, "distribution_not_found"@)
                && answer.error->0.detail == Some(resolve.distribution_ref)
            &&& listed && known && !there ==> is_refusal(
                answer,
                request_id,
                "distribution_preset_not_found"@,
            ) && answer.error->0.detail == Some(resolve.preset)
            &&& listed && known && there && read is Err ==> is_refusal(
                answer,
                request_id,
                read->Err_0.code,
            ) && answer.error->0.detail == read->Err_0.detail
            &&& listed && known && there && read is Ok ==> answer.error is None
                && answer.result is Some && answer.result->0.request_id == request_id
                && answer.result->0.runtime.provider == preset.provider
                && answer.result->0.runtime.runtime_class == read->Ok_0.runtime_class
                && answer.result->0.runtime.region == read->Ok_0.region_hint && told.get_text(
                "operation"@,
            ) == Some("resolve_distribution"@) && told.get_text("distribution_ref"@) == Some(
                manifest.distribution_ref,
            ) && told.get_text("preset"@) == Some(resolve.preset) && plan.get_text("provider"@)
                == Some(
                match preset.provider {
                    ProviderKind::Fly => "fly"@,
                    ProviderKind::Microvm => "microvm"@,
                },
            ) && plan.get_text("protocol"@) == Some("acp"@) && plan.get("runtime_class"@) == Some(
                JsonModel::optional_text(read->Ok_0.runtime_class),
            ) && plan.get_uint("requested_ttl_sec"@) == Some(read->Ok_0.ttl_sec) && plan.get(
                "region_hint"@,
            ) == Some(JsonModel::optional_text(read->Ok_0.region_hint)) && plan.get(
                "artifact_ref"@,
            ) == Some(JsonModel::optional_text(read->Ok_0.artifact_ref)) && plan.get(
                "build_kind"@,
            ) == Some(
                match preset.build_kind {
                    Some(BuildKind::Oci) => JsonModel::Text("oci"@),
                    Some(BuildKind::Nix) => JsonModel::Text("nix"@),
                    None => JsonModel::Null,
                },
            )
        }),
{
    reveal_strlit("operation");
    reveal_strlit("distribution_ref");
    reveal_strlit("preset");
    reveal_strlit("resolved_provision");
    reveal_strlit("policy");
    reveal_strlit("provider");
    reveal_strlit("protocol");
    reveal_strlit("runtime_class");
    reveal_strlit("requested_ttl_sec");
    reveal_strlit("region_hint");
    reveal_strlit("build_kind");
    reveal_strlit("artifact_ref");
    assert("operation"@.len() == 9);
    assert("distribution_ref"@.len() == 16);
    assert("preset"@.len() == 6 && "policy"@.len() == 6);
    assert("preset"@[1] == 'r' && "policy"@[1] == 'o');
    assert("resolved_provision"@.len() == 18);
    assert("provider"@.len() == 8 && "protocol"@.len() == 8);
    assert("provider"@[3] == 'v' && "protocol"@[3] == 't');
    assert("runtime_class"@.len() == 13);
    assert("requested_ttl_sec"@.len() == 17);
    assert("region_hint"@.len() == 11);
    assert("build_kind"@.len() == 10);
    assert("artifact_ref"@.len() == 12);
}

/// What was overridden is noted, as it counts, and nothing else is.
pub proof fn overrides_are_noted(
    preset: DistributionPresetModel,
    allowed: Set<Seq<char>>,
    json: JsonModel,
)
    requires
        resolved_preset(preset, allowed, Some(Ok(json))) is Ok,
    ensures
        ({
            let resolved = resolved_preset(preset, allowed, Some(Ok(json)))->Ok_0;
            let notes = resolved.overrides;
            &&& json.get_uint("ttl_sec"@) is Some ==> notes.get_uint("ttl_sec"@) == Some(
                resolved.ttl_sec,
            )
            &&& json.get_uint("ttl_sec"@) is None ==> notes.get("ttl_sec"@) is None
            &&& said(json.get_text("region_hint"@)) ==> notes.get_text("region_hint"@)
                == resolved.region_hint
            &&& !said(json.get_text("region_hint"@)) ==> notes.get("region_hint"@) is None
            &&& said(json.get_text("runtime_class"@)) ==> notes.get_text("runtime_class"@)
                == resolved.runtime_class
            &&& !said(json.get_text("runtime_class"@)) ==> notes.get("runtime_class"@) is None
            &&& said(json.get_text("artifact_ref"@)) ==> notes.get_text("artifact_ref"@)
                == resolved.artifact_ref
            &&& !said(json.get_text("artifact_ref"@)) ==> notes.get("artifact_ref"@) is None
        }),
{
    reveal_strlit("ttl_sec");
    reveal_strlit("region_hint");
    reveal_strlit("runtime_class");
    reveal_strlit("artifact_ref");
    assert("ttl_sec"@.len() == 7);
    assert("region_hint"@.len() == 11);
    assert("runtime_class"@.len() == 13);
    assert("artifact_ref"@.len() == 12);
}

} // verus!
