//! Distributions: named presets for runtimes, and what one comes to with the
//! overrides that a requester asks for.
use vstd::prelude::*;
use crate::agent::metadata::{RuntimeProfile, RuntimeProfileModel};
use crate::agent::policy::{
    allows, artifact_complaint, ensure_immutable_artifact_ref, filled, filled_text, larger,
    larger_of,
};
use crate::agent::provision::{complained, Complaint, ComplaintModel};
use crate::agent::service::{
    refuse_unauthorized, unauthorized, AgentControlService, AgentControlServiceModel,
};
use crate::agent::types::{
    answered, build_kind_name, build_kind_text, default_list_summary_descriptor, protocol_name,
    protocol_text, provider_name, provider_text, summary_descriptor, AgentControlStatusEnvelope,
    AgentControlStatusEnvelopeModel, BuildKind, CommandOutcome, CommandOutcomeModel, ProtocolKind,
    ProviderKind, ResolveDistributionCommand, ResolveDistributionCommandModel,
    RuntimeDescriptorModel,
};
use crate::collections::{
    lemma_listing_of, lemma_push_to_set, listing_of, OrdMap, OrdSet, Replicate,
};
use crate::json::{
    json_bool, json_null, json_object, json_text, json_uint, parse_json, parsed_json, Json,
    JsonModel,
};

verus! {

/// The shortest lease.
pub const MIN_TTL_SECS: u64 = 60;

/// A preset: what a runtime is like, and what of it may be overridden.
#[derive(Debug, PartialEq, Eq)]
pub struct DistributionPreset {
    pub provider: ProviderKind,
    pub runtime_class: Option<String>,
    pub ttl_sec: u64,
    pub region_hint: Option<String>,
    pub build_kind: Option<BuildKind>,
    pub artifact_ref: Option<String>,
    pub allowed_override_keys: Vec<String>,
}

/// What a [`DistributionPreset`] holds.
#[verifier::ext_equal]
pub struct DistributionPresetModel {
    pub provider: ProviderKind,
    pub runtime_class: Option<Seq<char>>,
    pub ttl_sec: u64,
    pub region_hint: Option<Seq<char>>,
    pub build_kind: Option<BuildKind>,
    pub artifact_ref: Option<Seq<char>>,
    pub allowed_override_keys: Seq<Seq<char>>,
}

impl DeepView for DistributionPreset {
    type V = DistributionPresetModel;

    open spec fn deep_view(&self) -> DistributionPresetModel {
        DistributionPresetModel {
            provider: self.provider.deep_view(),
            runtime_class: self.runtime_class.deep_view(),
            ttl_sec: self.ttl_sec.deep_view(),
            region_hint: self.region_hint.deep_view(),
            build_kind: self.build_kind.deep_view(),
            artifact_ref: self.artifact_ref.deep_view(),
            allowed_override_keys: self.allowed_override_keys.deep_view(),
        }
    }
}

impl View for DistributionPreset {
    type V = DistributionPresetModel;

    open spec fn view(&self) -> DistributionPresetModel {
        self.deep_view()
    }
}

impl Replicate for DistributionPreset {
    fn replicate(&self) -> (copy: Self) {
        DistributionPreset {
            provider: self.provider.replicate(),
            runtime_class: self.runtime_class.replicate(),
            ttl_sec: self.ttl_sec.replicate(),
            region_hint: self.region_hint.replicate(),
            build_kind: self.build_kind.replicate(),
            artifact_ref: self.artifact_ref.replicate(),
            allowed_override_keys: self.allowed_override_keys.replicate(),
        }
    }
}

impl Clone for DistributionPreset {
    fn clone(&self) -> (copy: Self)
        ensures
            copy@ == self@,
    {
        self.replicate()
    }
}

/// A distribution: its presets by name, and what of each may be overridden.
#[derive(Debug, PartialEq, Eq)]
pub struct DistributionManifest {
    pub distribution_ref: String,
    pub description: Option<String>,
    pub presets: OrdMap<String, DistributionPreset>,
    pub allowed_override_keys: Vec<String>,
}

/// What a [`DistributionManifest`] holds.
#[verifier::ext_equal]
pub struct DistributionManifestModel {
    pub distribution_ref: Seq<char>,
    pub description: Option<Seq<char>>,
    pub presets: Map<Seq<char>, DistributionPresetModel>,
    pub allowed_override_keys: Seq<Seq<char>>,
}

impl DeepView for DistributionManifest {
    type V = DistributionManifestModel;

    open spec fn deep_view(&self) -> DistributionManifestModel {
        DistributionManifestModel {
            distribution_ref: self.distribution_ref.deep_view(),
            description: self.description.deep_view(),
            presets: self.presets.deep_view(),
            allowed_override_keys: self.allowed_override_keys.deep_view(),
        }
    }
}

impl View for DistributionManifest {
    type V = DistributionManifestModel;

    open spec fn view(&self) -> DistributionManifestModel {
        self.deep_view()
    }
}

impl Replicate for DistributionManifest {
    fn replicate(&self) -> (copy: Self) {
        DistributionManifest {
            distribution_ref: self.distribution_ref.replicate(),
            description: self.description.replicate(),
            presets: self.presets.replicate(),
            allowed_override_keys: self.allowed_override_keys.replicate(),
        }
    }
}

impl Clone for DistributionManifest {
    fn clone(&self) -> (copy: Self)
        ensures
            copy@ == self@,
    {
        self.replicate()
    }
}

/// What the presets that are always there are made of.
#[derive(Debug, PartialEq, Eq)]
pub struct DistributionDefaults {
    pub fly: RuntimeProfile,
    pub microvm: RuntimeProfile,
    pub ttl_secs: u64,
    pub fly_artifact_ref: Option<String>,
    pub microvm_artifact_ref: Option<String>,
}

/// What a [`DistributionDefaults`] holds.
#[verifier::ext_equal]
pub struct DistributionDefaultsModel {
    pub fly: RuntimeProfileModel,
    pub microvm: RuntimeProfileModel,
    pub ttl_secs: u64,
    pub fly_artifact_ref: Option<Seq<char>>,
    pub microvm_artifact_ref: Option<Seq<char>>,
}

impl DeepView for DistributionDefaults {
    type V = DistributionDefaultsModel;

    open spec fn deep_view(&self) -> DistributionDefaultsModel {
        DistributionDefaultsModel {
            fly: self.fly.deep_view(),
            microvm: self.microvm.deep_view(),
            ttl_secs: self.ttl_secs.deep_view(),
            fly_artifact_ref: self.fly_artifact_ref.deep_view(),
            microvm_artifact_ref: self.microvm_artifact_ref.deep_view(),
        }
    }
}

impl View for DistributionDefaults {
    type V = DistributionDefaultsModel;

    open spec fn view(&self) -> DistributionDefaultsModel {
        self.deep_view()
    }
}

impl Replicate for DistributionDefaults {
    fn replicate(&self) -> (copy: Self) {
        DistributionDefaults {
            fly: self.fly.replicate(),
            microvm: self.microvm.replicate(),
            ttl_secs: self.ttl_secs.replicate(),
            fly_artifact_ref: self.fly_artifact_ref.replicate(),
            microvm_artifact_ref: self.microvm_artifact_ref.replicate(),
        }
    }
}

impl Clone for DistributionDefaults {
    fn clone(&self) -> (copy: Self)
        ensures
            copy@ == self@,
    {
        self.replicate()
    }
}

/// Twice a number, or the largest there is.
pub open spec fn twice(n: u64) -> u64 {
    if 2 * n > u64::MAX {
        u64::MAX
    } else {
        (2 * n) as u64
    }
}

/// The preset for a runtime at Fly.
pub open spec fn small_preset(defaults: DistributionDefaultsModel) -> DistributionPresetModel {
    DistributionPresetModel {
        provider: ProviderKind::Fly,
        runtime_class: defaults.fly.runtime_class,
        ttl_sec: defaults.ttl_secs,
        region_hint: defaults.fly.region,
        build_kind: Some(BuildKind::Oci),
        artifact_ref: defaults.fly_artifact_ref,
        allowed_override_keys: seq!["ttl_sec"@, "region_hint"@, "artifact_ref"@],
    }
}

/// The preset for a runtime in a virtual machine.
pub open spec fn medium_preset(defaults: DistributionDefaultsModel) -> DistributionPresetModel {
    DistributionPresetModel {
        provider: ProviderKind::Microvm,
        runtime_class: defaults.microvm.runtime_class,
        ttl_sec: twice(defaults.ttl_secs),
        region_hint: defaults.microvm.region,
        build_kind: Some(BuildKind::Nix),
        artifact_ref: defaults.microvm_artifact_ref,
        allowed_override_keys: seq!["ttl_sec"@, "region_hint"@, "runtime_class"@, "artifact_ref"@],
    }
}

/// The distributions that are there where none were set.
pub open spec fn default_manifests(defaults: DistributionDefaultsModel) -> Map<
    Seq<char>,
    DistributionManifestModel,
> {
    Map::empty().insert(
        "agent.default"@,
        DistributionManifestModel {
            distribution_ref: "agent.default"@,
            description: Some("Built-in distribution presets"@),
            presets: Map::empty().insert("small"@, small_preset(defaults)).insert(
                "medium"@,
                medium_preset(defaults),
            ),
            allowed_override_keys: Seq::empty(),
        },
    )
}

/// Distributions by their names; of two with one name the later counts.
pub open spec fn by_ref(manifests: Seq<DistributionManifestModel>) -> Map<
    Seq<char>,
    DistributionManifestModel,
>
    decreases manifests.len(),
{
    if manifests.len() == 0 {
        Map::empty()
    } else {
        by_ref(manifests.drop_last()).insert(manifests.last().distribution_ref, manifests.last())
    }
}

/// The distributions that were set, or those that are always there.
pub open spec fn manifests_in(
    set: Option<Seq<DistributionManifestModel>>,
    defaults: DistributionDefaultsModel,
) -> Map<Seq<char>, DistributionManifestModel> {
    match set {
        Some(manifests) if manifests.len() > 0 => by_ref(manifests),
        _ => default_manifests(defaults),
    }
}

/// The distributions that are there where none were set.
pub fn default_distribution_manifests(defaults: &DistributionDefaults) -> (manifests: OrdMap<
    String,
    DistributionManifest,
>)
    ensures
        manifests@ == default_manifests(defaults@),
{
    let mut small_keys: Vec<String> = Vec::new();
    small_keys.push("ttl_sec".to_owned());
    small_keys.push("region_hint".to_owned());
    small_keys.push("artifact_ref".to_owned());
    let mut medium_keys: Vec<String> = Vec::new();
    medium_keys.push("ttl_sec".to_owned());
    medium_keys.push("region_hint".to_owned());
    medium_keys.push("runtime_class".to_owned());
    medium_keys.push("artifact_ref".to_owned());
    proof {
        assert(small_keys.deep_view() =~= seq!["ttl_sec"@, "region_hint"@, "artifact_ref"@]);
        assert(medium_keys.deep_view()
            =~= seq!["ttl_sec"@, "region_hint"@, "runtime_class"@, "artifact_ref"@]);
    }
    let mut presets: OrdMap<String, DistributionPreset> = OrdMap::new();
    presets.insert(
        "small".to_owned(),
        DistributionPreset {
            provider: ProviderKind::Fly,
            runtime_class: defaults.fly.runtime_class.replicate(),
            ttl_sec: defaults.ttl_secs,
            region_hint: defaults.fly.region.replicate(),
            build_kind: Some(BuildKind::Oci),
            artifact_ref: defaults.fly_artifact_ref.replicate(),
            allowed_override_keys: small_keys,
        },
    );
    let doubled: u64 = if defaults.ttl_secs > u64::MAX / 2 {
        u64::MAX
    } else {
        2 * defaults.ttl_secs
    };
    presets.insert(
        "medium".to_owned(),
        DistributionPreset {
            provider: ProviderKind::Microvm,
            runtime_class: defaults.microvm.runtime_class.replicate(),
            ttl_sec: doubled,
            region_hint: defaults.microvm.region.replicate(),
            build_kind: Some(BuildKind::Nix),
            artifact_ref: defaults.microvm_artifact_ref.replicate(),
            allowed_override_keys: medium_keys,
        },
    );
    let no_keys: Vec<String> = Vec::new();
    proof {
        assert(no_keys.deep_view() =~= Seq::empty());
    }
    let mut manifests: OrdMap<String, DistributionManifest> = OrdMap::new();
    manifests.insert(
        "agent.default".to_owned(),
        DistributionManifest {
            distribution_ref: "agent.default".to_owned(),
            description: Some("Built-in distribution presets".to_owned()),
            presets,
            allowed_override_keys: no_keys,
        },
    );
    manifests
}

/// The distributions that were set, or those that are always there.
pub fn load_distribution_manifests(
    set: Option<Vec<DistributionManifest>>,
    defaults: &DistributionDefaults,
) -> (manifests: OrdMap<String, DistributionManifest>)
    ensures
        manifests@ == manifests_in(set.deep_view(), defaults@),
{
    let set = match set {
        Some(set) => set,
        None => {
            return default_distribution_manifests(defaults);
        },
    };
    if set.len() == 0 {
        return default_distribution_manifests(defaults);
    }
    let ghost all = set.deep_view();
    let mut manifests: OrdMap<String, DistributionManifest> = OrdMap::new();
    let mut i: usize = 0;
    while i < set.len()
        invariant
            i <= set.len() == all.len(),
            all == set.deep_view(),
            manifests@ == by_ref(all.take(i as int)),
        decreases set.len() - i,
    {
        proof {
            assert(all.take(i + 1).drop_last() =~= all.take(i as int));
            assert(all.take(i + 1).last() == set[i as int]@);
        }
        let manifest = set[i].replicate();
        manifests.insert(manifest.distribution_ref.clone(), manifest);
        i += 1;
    }
    proof {
        assert(all.take(i as int) =~= all);
    }
    manifests
}

/// What a preset comes to.
#[derive(Debug, PartialEq, Eq)]
pub struct ResolvedPreset {
    pub runtime_class: Option<String>,
    pub ttl_sec: u64,
    pub region_hint: Option<String>,
    pub artifact_ref: Option<String>,
    pub overrides: Json,
}

/// What a [`ResolvedPreset`] holds.
#[verifier::ext_equal]
pub struct ResolvedPresetModel {
    pub runtime_class: Option<Seq<char>>,
    pub ttl_sec: u64,
    pub region_hint: Option<Seq<char>>,
    pub artifact_ref: Option<Seq<char>>,
    pub overrides: JsonModel,
}

impl DeepView for ResolvedPreset {
    type V = ResolvedPresetModel;

    open spec fn deep_view(&self) -> ResolvedPresetModel {
        ResolvedPresetModel {
            runtime_class: self.runtime_class.deep_view(),
            ttl_sec: self.ttl_sec.deep_view(),
            region_hint: self.region_hint.deep_view(),
            artifact_ref: self.artifact_ref.deep_view(),
            overrides: self.overrides.deep_view(),
        }
    }
}

impl View for ResolvedPreset {
    type V = ResolvedPresetModel;

    open spec fn view(&self) -> ResolvedPresetModel {
        self.deep_view()
    }
}

impl Replicate for ResolvedPreset {
    fn replicate(&self) -> (copy: Self) {
        ResolvedPreset {
            runtime_class: self.runtime_class.replicate(),
            ttl_sec: self.ttl_sec.replicate(),
            region_hint: self.region_hint.replicate(),
            artifact_ref: self.artifact_ref.replicate(),
            overrides: self.overrides.replicate(),
        }
    }
}

impl Clone for ResolvedPreset {
    fn clone(&self) -> (copy: Self)
        ensures
            copy@ == self@,
    {
        self.replicate()
    }
}

/// The first of the keys that may not be overridden.
pub open spec fn first_stray(keys: Seq<Seq<char>>, allowed: Set<Seq<char>>) -> Option<Seq<char>>
    decreases keys.len(),
{
    if keys.len() == 0 {
        None
    } else if !allowed.contains(keys[0]) {
        Some(keys[0])
    } else {
        first_stray(keys.skip(1), allowed)
    }
}

/// An entry that overrides a text: one that holds more than white space.
pub open spec fn override_text(overrides: JsonModel, key: Seq<char>) -> Option<Seq<char>> {
    filled(overrides.get_text(key))
}

/// What is wrong with an artifact that overrides a preset's: it can change.
pub open spec fn override_complaint(preset: DistributionPresetModel, overrides: JsonModel) -> Option<
    ComplaintModel,
> {
    match (override_text(overrides, "artifact_ref"@), preset.build_kind) {
        (Some(artifact_ref), Some(kind)) => match artifact_complaint(kind, artifact_ref) {
            Some(complaint) => Some(
                ComplaintModel {
                    code: "distribution_artifact_invalid"@,
                    hint: "artifact_ref must be immutable"@,
                    detail: Some(complaint),
                },
            ),
            None => None,
        },
        _ => None,
    }
}

/// A preset without overrides.
pub open spec fn plain_preset(preset: DistributionPresetModel) -> ResolvedPresetModel {
    ResolvedPresetModel {
        runtime_class: preset.runtime_class,
        ttl_sec: larger(preset.ttl_sec as int, MIN_TTL_SECS as int) as u64,
        region_hint: preset.region_hint,
        artifact_ref: preset.artifact_ref,
        overrides: JsonModel::empty(),
    }
}

/// A note of a text that was overridden, where one was.
pub open spec fn noted(notes: JsonModel, key: Seq<char>, value: Option<Seq<char>>) -> JsonModel {
    match value {
        Some(text) => notes.with(key, JsonModel::Text(text)),
        None => notes,
    }
}

/// A text, or the one that stands in for it.
pub open spec fn or_text(first: Option<Seq<char>>, second: Option<Seq<char>>) -> Option<Seq<char>> {
    if first is Some {
        first
    } else {
        second
    }
}

/// A preset with overrides that are allowed.
pub open spec fn overridden(preset: DistributionPresetModel, overrides: JsonModel) -> ResolvedPresetModel {
    let plain = plain_preset(preset);
    let ttl = overrides.get_uint("ttl_sec"@);
    let region = override_text(overrides, "region_hint"@);
    let class = override_text(overrides, "runtime_class"@);
    let artifact = override_text(overrides, "artifact_ref"@);
    let ttl_sec = match ttl {
        Some(secs) => larger(secs as int, MIN_TTL_SECS as int) as u64,
        None => plain.ttl_sec,
    };
    let ttl_note = if ttl is Some {
        JsonModel::empty().with("ttl_sec"@, JsonModel::UInt(ttl_sec))
    } else {
        JsonModel::empty()
    };
    ResolvedPresetModel {
        runtime_class: or_text(class, plain.runtime_class),
        ttl_sec,
        region_hint: or_text(region, plain.region_hint),
        artifact_ref: or_text(artifact, plain.artifact_ref),
        overrides: noted(
            noted(noted(ttl_note, "region_hint"@, region), "runtime_class"@, class),
            "artifact_ref"@,
            artifact,
        ),
    }
}

/// What a preset comes to with overrides, where there are any: they have to be a
/// JSON object, each of its keys allowed, and an artifact among them one that
/// cannot change.
pub open spec fn resolved_preset(
    preset: DistributionPresetModel,
    allowed: Set<Seq<char>>,
    overrides: Option<Result<JsonModel, Seq<char>>>,
) -> Result<ResolvedPresetModel, ComplaintModel> {
    match overrides {
        None => Ok(plain_preset(preset)),
        Some(Err(error)) => Err(
            ComplaintModel {
                code: "distribution_overrides_invalid_json"@,
                hint: "overrides_json must be valid JSON"@,
                detail: Some(error),
            },
        ),
        Some(Ok(json)) => match json {
            JsonModel::Object(entries) => match first_stray(
                listing_of::<String>(entries.dom()),
                allowed,
            ) {
                Some(key) => Err(
                    ComplaintModel {
                        code: "distribution_override_not_allowed"@,
                        hint: "override key is not allowed by distribution policy"@,
                        detail: Some(key),
                    },
                ),
                None => match override_complaint(preset, json) {
                    Some(complaint) => Err(complaint),
                    None => Ok(overridden(preset, json)),
                },
            },
            _ => Err(
                ComplaintModel {
                    code: "distribution_overrides_invalid_shape"@,
                    hint: "overrides_json must decode to a JSON object"@,
                    detail: None,
                },
            ),
        },
    }
}

/// The kind of build, as JSON.
pub open spec fn kind_json(kind: Option<BuildKind>) -> JsonModel {
    match kind {
        Some(k) => JsonModel::Text(build_kind_text(k)),
        None => JsonModel::Null,
    }
}

/// The descriptor of what a preset comes to.
pub open spec fn resolved_descriptor(
    distribution_ref: Seq<char>,
    preset_name: Seq<char>,
    preset: DistributionPresetModel,
    resolved: ResolvedPresetModel,
) -> RuntimeDescriptorModel {
    RuntimeDescriptorModel {
        provider: preset.provider,
        runtime_class: resolved.runtime_class,
        region: resolved.region_hint,
        protocol_compatibility: seq![ProtocolKind::Acp],
        metadata: JsonModel::empty().with(
            "resolved_distribution"@,
            JsonModel::empty().with("distribution_ref"@, JsonModel::Text(distribution_ref)).with(
                "preset"@,
                JsonModel::Text(preset_name),
            ).with("provider"@, JsonModel::Text(provider_text(preset.provider))).with(
                "runtime_class"@,
                JsonModel::optional_text(resolved.runtime_class),
            ).with("ttl_sec"@, JsonModel::UInt(resolved.ttl_sec)).with(
                "region_hint"@,
                JsonModel::optional_text(resolved.region_hint),
            ).with("build_kind"@, kind_json(preset.build_kind)).with(
                "artifact_ref"@,
                JsonModel::optional_text(resolved.artifact_ref),
            ).with("overrides"@, resolved.overrides),
        ),
        ..summary_descriptor()
    }
}

/// The payload that tells what a preset comes to.
pub open spec fn resolved_payload(
    distribution_ref: Seq<char>,
    preset_name: Seq<char>,
    preset: DistributionPresetModel,
    resolved: ResolvedPresetModel,
    advanced_workload_enabled: bool,
) -> JsonModel {
    JsonModel::empty().with("operation"@, JsonModel::Text("resolve_distribution"@)).with(
        "distribution_ref"@,
        JsonModel::Text(distribution_ref),
    ).with("preset"@, JsonModel::Text(preset_name)).with(
        "resolved_provision"@,
        JsonModel::empty().with("provider"@, JsonModel::Text(provider_text(preset.provider))).with(
            "protocol"@,
            JsonModel::Text(protocol_text(ProtocolKind::Acp)),
        ).with("runtime_class"@, JsonModel::optional_text(resolved.runtime_class)).with(
            "requested_ttl_sec"@,
            JsonModel::UInt(resolved.ttl_sec),
        ).with("region_hint"@, JsonModel::optional_text(resolved.region_hint)).with(
            "build_kind"@,
            kind_json(preset.build_kind),
        ).with("artifact_ref"@, JsonModel::optional_text(resolved.artifact_ref)),
    ).with(
        "policy"@,
        JsonModel::empty().with("build_enabled"@, JsonModel::Bool(true)).with(
            "advanced_workload_enabled"@,
            JsonModel::Bool(advanced_workload_enabled),
        ),
    )
}

/// The answer to who asks what a preset comes to.
pub open spec fn distribution_answer(
    service: AgentControlServiceModel,
    manifests: Map<Seq<char>, DistributionManifestModel>,
    requester: Seq<char>,
    request_id: Seq<char>,
    resolve: ResolveDistributionCommandModel,
    overrides: Option<Result<JsonModel, Seq<char>>>,
    statuses: Seq<AgentControlStatusEnvelopeModel>,
) -> CommandOutcomeModel {
    if !allows(service.provision_policy, requester) {
        unauthorized(statuses, request_id, requester)
    } else if !manifests.contains_key(resolve.distribution_ref) {
        complained(
            statuses,
            request_id,
            ComplaintModel {
                code: "distribution_not_found"@,
                hint: "distribution_ref is unknown on this server"@,
                detail: Some(resolve.distribution_ref),
            },
        )
    } else if !manifests[resolve.distribution_ref].presets.contains_key(resolve.preset) {
        complained(
            statuses,
            request_id,
            ComplaintModel {
                code: "distribution_preset_not_found"@,
                hint: "preset is not available for this distribution"@,
                detail: Some(resolve.preset),
            },
        )
    } else {
        let manifest = manifests[resolve.distribution_ref];
        let preset = manifest.presets[resolve.preset];
        let allowed = manifest.allowed_override_keys.to_set().union(
            preset.allowed_override_keys.to_set(),
        );
        match resolved_preset(preset, allowed, overrides) {
            Err(complaint) => complained(statuses, request_id, complaint),
            Ok(resolved) => answered(
                statuses,
                request_id,
                resolved_descriptor(
                    manifest.distribution_ref,
                    resolve.preset,
                    preset,
                    resolved,
                ),
                resolved_payload(
                    manifest.distribution_ref,
                    resolve.preset,
                    preset,
                    resolved,
                    service.v2_flags.advanced_workload_enabled,
                ),
            ),
        }
    }
}

/// The overrides that a command asks for, read.
pub open spec fn overrides_of(resolve: ResolveDistributionCommandModel) -> Option<
    Result<JsonModel, Seq<char>>,
> {
    match resolve.overrides_json {
        Some(text) => Some(parsed_json(text)),
        None => None,
    }
}

/// A result that may complain, as a model.
pub open spec fn resolution(result: Result<ResolvedPreset, Complaint>) -> Result<
    ResolvedPresetModel,
    ComplaintModel,
> {
    match result {
        Ok(resolved) => Ok(resolved@),
        Err(complaint) => Err(complaint@),
    }
}

/// The first of the keys that may not be overridden.
fn find_stray(keys: &Vec<String>, allowed: &OrdSet<String>) -> (stray: Option<String>)
    ensures
        stray.deep_view() == first_stray(keys.deep_view(), allowed@),
{
    let ghost all = keys.deep_view();
    let mut i: usize = 0;
    proof {
        assert(all.skip(0) =~= all);
    }
    while i < keys.len()
        invariant
            i <= keys.len() == all.len(),
            all == keys.deep_view(),
            first_stray(all, allowed@) == first_stray(all.skip(i as int), allowed@),
        decreases keys.len() - i,
    {
        proof {
            assert(all.skip(i as int)[0] == keys[i as int]@);
            assert(all.skip(i as int).skip(1) =~= all.skip(i + 1));
        }
        if !allowed.contains(&keys[i]) {
            return Some(keys[i].clone());
        }
        i += 1;
    }
    None
}

/// A note of a text that was overridden, where one was.
fn note_text(notes: Json, key: &str, value: &Option<String>) -> (json: Json)
    requires
        notes@ is Object,
    ensures
        json@ == noted(notes@, key@, value.deep_view()),
        json@ is Object,
{
    match value {
        Some(text) => notes.with(key, json_text(text.as_str())),
        None => notes,
    }
}

/// A text, or the one that stands in for it.
fn either_text(first: Option<String>, second: Option<String>) -> (text: Option<String>)
    ensures
        text.deep_view() == or_text(first.deep_view(), second.deep_view()),
{
    if first.is_some() {
        first
    } else {
        second
    }
}

/// A preset with overrides that are allowed.
fn override_preset(preset: &DistributionPreset, overrides: &Json) -> (resolved: ResolvedPreset)
    ensures
        resolved@ == overridden(preset@, overrides@),
{
    let ttl = overrides.get_uint("ttl_sec");
    let region = filled_text(&overrides.get_text("region_hint"));
    let class = filled_text(&overrides.get_text("runtime_class"));
    let artifact = filled_text(&overrides.get_text("artifact_ref"));
    let mut ttl_sec: u64 = larger_of(preset.ttl_sec, MIN_TTL_SECS);
    let mut notes = json_object();
    if let Some(secs) = ttl {
        ttl_sec = larger_of(secs, MIN_TTL_SECS);
        notes = notes.with("ttl_sec", json_uint(ttl_sec));
    }
    let notes = note_text(
        note_text(note_text(notes, "region_hint", &region), "runtime_class", &class),
        "artifact_ref",
        &artifact,
    );
    ResolvedPreset {
        runtime_class: either_text(class, preset.runtime_class.replicate()),
        ttl_sec,
        region_hint: either_text(region, preset.region_hint.replicate()),
        artifact_ref: either_text(artifact, preset.artifact_ref.replicate()),
        overrides: notes,
    }
}

/// What a preset comes to with overrides, where there are any.
pub fn resolve_preset(
    preset: &DistributionPreset,
    allowed: &OrdSet<String>,
    overrides: Option<Result<Json, String>>,
) -> (result: Result<ResolvedPreset, Complaint>)
    ensures
        resolution(result) == resolved_preset(
            preset@,
            allowed@,
            crate::agent::provision::read_outcome(overrides),
        ),
{
    let overrides = match overrides {
        None => {
            return Ok(
                ResolvedPreset {
                    runtime_class: preset.runtime_class.replicate(),
                    ttl_sec: larger_of(preset.ttl_sec, MIN_TTL_SECS),
                    region_hint: preset.region_hint.replicate(),
                    artifact_ref: preset.artifact_ref.replicate(),
                    overrides: json_object(),
                },
            );
        },
        Some(Err(error)) => {
            return Err(
                Complaint::about(
                    "distribution_overrides_invalid_json",
                    "overrides_json must be valid JSON",
                    Some(error),
                ),
            );
        },
        Some(Ok(json)) => json,
    };
    let keys = match overrides.keys() {
        Some(keys) => keys,
        None => {
            return Err(
                Complaint::about(
                    "distribution_overrides_invalid_shape",
                    "overrides_json must decode to a JSON object",
                    None,
                ),
            );
        },
    };
    proof {
        lemma_listing_of::<String>(keys.deep_view(), overrides@->Object_0.dom());
    }
    if let Some(key) = find_stray(&keys, allowed) {
        return Err(
            Complaint::about(
                "distribution_override_not_allowed",
                "override key is not allowed by distribution policy",
                Some(key),
            ),
        );
    }
    if let Some(artifact_ref) = filled_text(&overrides.get_text("artifact_ref")) {
        if let Some(kind) = preset.build_kind {
            if let Err(error) = ensure_immutable_artifact_ref(kind, artifact_ref.as_str()) {
                return Err(
                    Complaint::about(
                        "distribution_artifact_invalid",
                        "artifact_ref must be immutable",
                        Some(error),
                    ),
                );
            }
        }
    }
    Ok(override_preset(preset, &overrides))
}

/// The kind of build, as JSON.
fn json_of_kind(kind: Option<BuildKind>) -> (json: Json)
    ensures
        json@ == kind_json(kind),
{
    match kind {
        Some(kind) => json_text(build_kind_name(kind).as_str()),
        None => json_null(),
    }
}

/// The keys that may be overridden, of the distribution and of the preset.
fn allowed_keys(manifest: &DistributionManifest, preset: &DistributionPreset) -> (allowed: OrdSet<
    String,
>)
    ensures
        allowed@ == manifest@.allowed_override_keys.to_set().union(
            preset@.allowed_override_keys.to_set(),
        ),
{
    let mut allowed = OrdSet::from_vec(manifest.allowed_override_keys.replicate());
    let ghost own = preset.allowed_override_keys.deep_view();
    let ghost first = allowed@;
    let mut i: usize = 0;
    proof {
        assert(own.take(0).to_set() =~= Set::empty());
        assert(allowed@ =~= first.union(own.take(0).to_set()));
    }
    while i < preset.allowed_override_keys.len()
        invariant
            i <= preset.allowed_override_keys.len() == own.len(),
            own == preset.allowed_override_keys.deep_view(),
            allowed@ == first.union(own.take(i as int).to_set()),
        decreases preset.allowed_override_keys.len() - i,
    {
        proof {
            assert(own.take(i + 1) =~= own.take(i as int).push(own[i as int]));
            lemma_push_to_set(own.take(i as int), own[i as int]);
            assert(first.union(own.take(i + 1).to_set()) =~= first.union(
                own.take(i as int).to_set(),
            ).insert(own[i as int]));
        }
        allowed.insert(preset.allowed_override_keys[i].clone());
        i += 1;
    }
    proof {
        assert(own.take(i as int) =~= own);
    }
    allowed
}

impl AgentControlService {
    /// Answers who asks what a preset comes to, where the overrides were read as
    /// `overrides` says.
    pub fn resolve_distribution_with(
        &self,
        manifests: &OrdMap<String, DistributionManifest>,
        requester_pubkey_hex: &str,
        request_id: String,
        resolve: &ResolveDistributionCommand,
        overrides: Option<Result<Json, String>>,
        statuses: Vec<AgentControlStatusEnvelope>,
    ) -> (outcome: CommandOutcome)
        ensures
            outcome@ == distribution_answer(
                self@,
                manifests@,
                requester_pubkey_hex@,
                request_id@,
                resolve@,
                crate::agent::provision::read_outcome(overrides),
                statuses.deep_view(),
            ),
    {
        if !self.provision_policy.is_allowed(requester_pubkey_hex) {
            return refuse_unauthorized(statuses, request_id, requester_pubkey_hex);
        }
        let manifest = match manifests.get(&resolve.distribution_ref) {
            Some(manifest) => manifest,
            None => {
                return Complaint::about(
                    "distribution_not_found",
                    "distribution_ref is unknown on this server",
                    Some(resolve.distribution_ref.clone()),
                ).refuse(statuses, request_id);
            },
        };
        let preset = match manifest.presets.get(&resolve.preset) {
            Some(preset) => preset,
            None => {
                return Complaint::about(
                    "distribution_preset_not_found",
                    "preset is not available for this distribution",
                    Some(resolve.preset.clone()),
                ).refuse(statuses, request_id);
            },
        };
        let allowed = allowed_keys(manifest, preset);
        let resolved = match resolve_preset(preset, &allowed, overrides) {
            Ok(resolved) => resolved,
            Err(complaint) => {
                return complaint.refuse(statuses, request_id);
            },
        };
        let provider = provider_name(preset.provider);
        let metadata = json_object().with(
            "resolved_distribution",
            json_object().with(
                "distribution_ref",
                json_text(manifest.distribution_ref.as_str()),
            ).with("preset", json_text(resolve.preset.as_str())).with(
                "provider",
                json_text(provider.as_str()),
            ).with("runtime_class", Json::optional_text(&resolved.runtime_class)).with(
                "ttl_sec",
                json_uint(resolved.ttl_sec),
            ).with("region_hint", Json::optional_text(&resolved.region_hint)).with(
                "build_kind",
                json_of_kind(preset.build_kind),
            ).with("artifact_ref", Json::optional_text(&resolved.artifact_ref)).with(
                "overrides",
                resolved.overrides.replicate(),
            ),
        );
        let payload = json_object().with("operation", json_text("resolve_distribution")).with(
            "distribution_ref",
            json_text(manifest.distribution_ref.as_str()),
        ).with("preset", json_text(resolve.preset.as_str())).with(
            "resolved_provision",
            json_object().with("provider", json_text(provider.as_str())).with(
                "protocol",
                json_text(protocol_name(ProtocolKind::Acp).as_str()),
            ).with("runtime_class", Json::optional_text(&resolved.runtime_class)).with(
                "requested_ttl_sec",
                json_uint(resolved.ttl_sec),
            ).with("region_hint", Json::optional_text(&resolved.region_hint)).with(
                "build_kind",
                json_of_kind(preset.build_kind),
            ).with("artifact_ref", Json::optional_text(&resolved.artifact_ref)),
        ).with(
            "policy",
            json_object().with("build_enabled", json_bool(true)).with(
                "advanced_workload_enabled",
                json_bool(self.v2_flags.advanced_workload_enabled),
            ),
        );
        let mut protocols: Vec<ProtocolKind> = Vec::new();
        protocols.push(ProtocolKind::Acp);
        proof {
            assert(protocols.deep_view() =~= seq![ProtocolKind::Acp]);
        }
        let mut descriptor = default_list_summary_descriptor();
        descriptor.provider = preset.provider;
        descriptor.runtime_class = resolved.runtime_class;
        descriptor.region = resolved.region_hint;
        descriptor.protocol_compatibility = protocols;
        descriptor.metadata = metadata;
        CommandOutcome::result(statuses, request_id, descriptor, payload)
    }

    /// Answers who asks what a preset comes to.
    pub fn handle_resolve_distribution(
        &self,
        manifests: &OrdMap<String, DistributionManifest>,
        requester_pubkey_hex: &str,
        request_id: String,
        resolve: &ResolveDistributionCommand,
        statuses: Vec<AgentControlStatusEnvelope>,
    ) -> (outcome: CommandOutcome)
        ensures
            outcome@ == distribution_answer(
                self@,
                manifests@,
                requester_pubkey_hex@,
                request_id@,
                resolve@,
                overrides_of(resolve@),
                statuses.deep_view(),
            ),
    {
        let overrides = match &resolve.overrides_json {
            Some(text) => Some(parse_json(text.as_str())),
            None => None,
        };
        self.resolve_distribution_with(
            manifests,
            requester_pubkey_hex,
            request_id,
            resolve,
            overrides,
            statuses,
        )
    }
}

/// What a preset comes to never has a lease shorter than the shortest.
pub proof fn resolved_lease_is_long_enough(
    preset: DistributionPresetModel,
    allowed: Set<Seq<char>>,
    overrides: Option<Result<JsonModel, Seq<char>>>,
)
    requires
        resolved_preset(preset, allowed, overrides) is Ok,
    ensures
        resolved_preset(preset, allowed, overrides)->Ok_0.ttl_sec >= MIN_TTL_SECS,
{
}

/// What may not be overridden is not: where the key is not allowed, either the
/// overrides are refused or the preset's own value stays.
pub proof fn only_allowed_keys_override(
    preset: DistributionPresetModel,
    allowed: Set<Seq<char>>,
    overrides: Option<Result<JsonModel, Seq<char>>>,
)
    requires
        overrides matches Some(Ok(JsonModel::Object(entries))) ==> entries.dom().finite(),
        resolved_preset(preset, allowed, overrides) is Ok,
    ensures
        ({
            let resolved = resolved_preset(preset, allowed, overrides)->Ok_0;
            let plain = plain_preset(preset);
            &&& !allowed.contains("ttl_sec"@) ==> resolved.ttl_sec == plain.ttl_sec
            &&& !allowed.contains("region_hint"@) ==> resolved.region_hint == plain.region_hint
            &&& !allowed.contains("runtime_class"@) ==> resolved.runtime_class
                == plain.runtime_class
            &&& !allowed.contains("artifact_ref"@) ==> resolved.artifact_ref == plain.artifact_ref
        }),
{
    match overrides {
        Some(Ok(JsonModel::Object(entries))) => {
            let keys = listing_of::<String>(entries.dom());
            crate::collections::lemma_listing_exists::<String>(entries.dom());
            lemma_no_stray(keys, allowed);
            assert forall|key: Seq<char>| #[trigger] entries.contains_key(key) implies
                allowed.contains(key) by {
                assert(keys.contains(key));
            }
        },
        _ => {},
    }
}

proof fn lemma_no_stray(keys: Seq<Seq<char>>, allowed: Set<Seq<char>>)
    requires
        first_stray(keys, allowed) is None,
    ensures
        forall|key: Seq<char>| #[trigger] keys.contains(key) ==> allowed.contains(key),
    decreases keys.len(),
{
    if keys.len() > 0 {
        lemma_no_stray(keys.skip(1), allowed);
        assert forall|key: Seq<char>| #[trigger] keys.contains(key) implies allowed.contains(
            key,
        ) by {
            let i = choose|i: int| 0 <= i < keys.len() && keys[i] == key;
            if i > 0 {
                assert(keys.skip(1)[i - 1] == key);
                assert(keys.skip(1).contains(key));
            }
        }
    }
}

} // verus!
