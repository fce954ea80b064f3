//! Provisioning: what is checked before a provider is asked for a runtime, and
//! what becomes of what the provider gave.
use vstd::prelude::*;
use crate::agent::builds::{
    current_build, own_build, progress_made, progressed, service_audited,
};
use crate::agent::metadata::{
    artifact_metadata, descriptor_of, with_advanced_workload_metadata, with_artifact_metadata,
    workload_metadata, RuntimeProfile, RuntimeProfileModel,
};
use crate::agent::policy::{
    add_capped, allows, artifact_complaint, artifact_kind, capped_sum, ensure_immutable_artifact_ref,
    parse_artifact_kind, text_outcome,
};
use crate::agent::service::{
    refuse_unauthorized, step_or_answer, unauthorized, AgentControlService,
    AgentControlServiceModel,
};
use crate::agent::state::AgentControlStateModel;
use crate::agent::types::{
    answered, build_kind_for, build_kind_name, build_kind_text, build_phase_debug,
    build_phase_debug_text, default_build_kind_for_provider, protocol_name, protocol_text,
    provider_name, provider_text, push_status, refused, status, AgentControlStatusEnvelope,
    AgentControlStatusEnvelopeModel, ArtifactRecord, ArtifactRecordModel, BuildPhase,
    CommandOutcome, CommandOutcomeModel, ProtocolKind, ProviderKind, ProvisionCommand,
    ProvisionCommandModel, ProvisionedRuntime, ProvisionedRuntimeModel, RuntimeDescriptor,
    RuntimeDescriptorModel, RuntimeLifecyclePhase, RuntimeRecord, RuntimeRecordModel,
};
use crate::collections::Replicate;
use crate::json::{
    json_null, json_object, json_text, json_uint, parse_json, parsed_json, write_json,
    written_json, Json, JsonModel,
};
use crate::text::same_text;

verus! {

/// Why a request is refused.
#[derive(Debug, PartialEq, Eq)]
pub struct Complaint {
    pub code: String,
    pub hint: String,
    pub detail: Option<String>,
}

/// What a [`Complaint`] holds.
#[verifier::ext_equal]
pub struct ComplaintModel {
    pub code: Seq<char>,
    pub hint: Seq<char>,
    pub detail: Option<Seq<char>>,
}

impl DeepView for Complaint {
    type V = ComplaintModel;

    open spec fn deep_view(&self) -> ComplaintModel {
        ComplaintModel {
            code: self.code.deep_view(),
            hint: self.hint.deep_view(),
            detail: self.detail.deep_view(),
        }
    }
}

impl View for Complaint {
    type V = ComplaintModel;

    open spec fn view(&self) -> ComplaintModel {
        self.deep_view()
    }
}

impl Replicate for Complaint {
    fn replicate(&self) -> (copy: Self) {
        Complaint {
            code: self.code.replicate(),
            hint: self.hint.replicate(),
            detail: self.detail.replicate(),
        }
    }
}

impl Clone for Complaint {
    fn clone(&self) -> (copy: Self)
        ensures
            copy@ == self@,
    {
        self.replicate()
    }
}

/// The refusal that a complaint stands for.
pub open spec fn complained(
    statuses: Seq<AgentControlStatusEnvelopeModel>,
    request_id: Seq<char>,
    complaint: ComplaintModel,
) -> CommandOutcomeModel {
    refused(statuses, request_id, complaint.code, Some(complaint.hint), complaint.detail)
}

impl Complaint {
    /// A complaint.
    pub fn about(code: &str, hint: &str, detail: Option<String>) -> (complaint: Complaint)
        ensures
            complaint@ == (ComplaintModel {
                code: code@,
                hint: hint@,
                detail: detail.deep_view(),
            }),
    {
        Complaint { code: code.to_owned(), hint: hint.to_owned(), detail }
    }

    /// The refusal that this complaint stands for.
    pub fn refuse(self, statuses: Vec<AgentControlStatusEnvelope>, request_id: String) -> (outcome:
        CommandOutcome)
        ensures
            outcome@ == complained(statuses.deep_view(), request_id@, self@),
    {
        CommandOutcome::error(
            statuses,
            request_id,
            self.code.as_str(),
            Some(self.hint),
            self.detail,
        )
    }
}

/// What is wrong with the workload that is asked for: it is switched off, or no
/// JSON.
pub open spec fn workload_complaint(
    enabled: bool,
    workload: Option<Result<JsonModel, Seq<char>>>,
) -> Option<ComplaintModel> {
    match workload {
        None => None,
        Some(read) => if !enabled {
            Some(
                ComplaintModel {
                    code: "v2_advanced_workload_disabled"@,
                    hint:
                        "set PIKA_AGENT_CONTROL_V2_ADVANCED_WORKLOAD_ENABLED=1 to enable advanced workloads"@,
                    detail: None,
                },
            )
        } else {
            match read {
                Ok(_) => None,
                Err(error) => Some(
                    ComplaintModel {
                        code: "advanced_workload_invalid_json"@,
                        hint: "advanced_workload_json must be valid JSON"@,
                        detail: Some(error),
                    },
                ),
            }
        },
    }
}

/// The complaint about a build that is not there, or not the requester's.
pub open spec fn unknown_build(build_id: Seq<char>) -> ComplaintModel {
    ComplaintModel {
        code: "build_not_found"@,
        hint: "build id is unknown to this server"@,
        detail: Some(build_id),
    }
}

/// The artifact of the build that is asked for, once the build service was asked:
/// it has to be the requester's, to have succeeded and to have left one behind.
pub open spec fn artifact_of_build(
    service: AgentControlServiceModel,
    requester: Seq<char>,
    build_id: Seq<char>,
    now: u64,
) -> Result<Seq<char>, ComplaintModel> {
    match own_build(service, requester, build_id) {
        None => Err(unknown_build(build_id)),
        Some(own) => match current_build(service, own.build_id, now) {
            None => Err(unknown_build(build_id)),
            Some(build) => if build.phase != BuildPhase::Succeeded {
                Err(
                    ComplaintModel {
                        code: "build_not_ready"@,
                        hint: "wait for build to succeed before provisioning"@,
                        detail: Some("phase="@ + build_phase_debug_text(build.phase)),
                    },
                )
            } else {
                match build.artifact_ref {
                    Some(artifact_ref) => Ok(artifact_ref),
                    None => Err(
                        ComplaintModel {
                            code: "build_artifact_missing"@,
                            hint: "build did not produce an artifact"@,
                            detail: Some(build.build_id),
                        },
                    ),
                }
            },
        },
    }
}

/// What is wrong with the artifact that is asked for: it can change, or is not of
/// the kind that the provider runs.
pub open spec fn artifact_refusal(provider: ProviderKind, artifact_ref: Seq<char>) -> Option<
    ComplaintModel,
> {
    let kind = build_kind_for(provider);
    match artifact_complaint(kind, artifact_ref) {
        Some(complaint) => Some(
            ComplaintModel {
                code: "artifact_ref_invalid"@,
                hint: "artifact_ref must be immutable and compatible with provider"@,
                detail: Some(complaint),
            },
        ),
        None => if artifact_kind(artifact_ref) != Some(kind) {
            Some(
                ComplaintModel {
                    code: "artifact_kind_incompatible"@,
                    hint: "artifact_ref type is incompatible with provider"@,
                    detail: Some(
                        "provider="@ + provider_text(provider) + ", expected_kind="@
                            + build_kind_text(kind) + ", artifact_ref="@ + artifact_ref,
                    ),
                },
            )
        } else {
            None
        },
    }
}

/// The artifact that a runtime is asked to run, where one is.
pub open spec fn chosen_artifact(
    service: AgentControlServiceModel,
    requester: Seq<char>,
    provision: ProvisionCommandModel,
    now: u64,
) -> Result<Option<Seq<char>>, ComplaintModel> {
    let named = match provision.build_id {
        Some(build_id) => if provision.artifact_ref is Some {
            Err(
                ComplaintModel {
                    code: "provision_artifact_ambiguous"@,
                    hint: "set either build_id or artifact_ref, not both"@,
                    detail: None,
                },
            )
        } else {
            match artifact_of_build(service, requester, build_id, now) {
                Ok(artifact_ref) => Ok(Some(artifact_ref)),
                Err(complaint) => Err(complaint),
            }
        },
        None => Ok(provision.artifact_ref),
    };
    match named {
        Ok(Some(artifact_ref)) => match artifact_refusal(provision.provider, artifact_ref) {
            Some(complaint) => Err(complaint),
            None => Ok(Some(artifact_ref)),
        },
        other => other,
    }
}

/// The service after the build that is asked for, where one is and may be asked
/// about, moved on.
pub open spec fn after_choice(
    service: AgentControlServiceModel,
    requester: Seq<char>,
    provision: ProvisionCommandModel,
    workload: Option<Result<JsonModel, Seq<char>>>,
    now: u64,
) -> AgentControlServiceModel {
    if !allows(service.provision_policy, requester) || workload_complaint(
        service.v2_flags.advanced_workload_enabled,
        workload,
    ) is Some || provision.build_id is None || provision.artifact_ref is Some {
        service
    } else {
        match own_build(service, requester, provision.build_id->0) {
            Some(own) => progressed(service, own.build_id, now),
            None => service,
        }
    }
}

/// Whether choosing an artifact changes a build: a build is chosen, and asking the
/// build service about it changes it.
pub open spec fn choice_made_progress(
    service: AgentControlServiceModel,
    requester: Seq<char>,
    provision: ProvisionCommandModel,
    workload: Option<Result<JsonModel, Seq<char>>>,
    now: u64,
) -> bool {
    &&& allows(service.provision_policy, requester)
    &&& workload_complaint(service.v2_flags.advanced_workload_enabled, workload) is None
    &&& provision.build_id is Some
    &&& provision.artifact_ref is None
    &&& match own_build(service, requester, provision.build_id->0) {
        Some(own) => progress_made(service, own.build_id, now),
        None => false,
    }
}

/// A status that says that provisioning begins.
pub open spec fn provisioning(
    request_id: Seq<char>,
    provision: ProvisionCommandModel,
    build_id: Option<Seq<char>>,
) -> AgentControlStatusEnvelopeModel {
    status(
        request_id,
        RuntimeLifecyclePhase::Provisioning,
        None,
        Some(provision.provider),
        "provisioning runtime"@,
        JsonModel::empty().with("provider"@, JsonModel::Text(provider_text(provision.provider))).with(
            "protocol"@,
            JsonModel::Text(protocol_text(provision.protocol)),
        ).with("build_id"@, JsonModel::optional_text(build_id)).with(
            "artifact_ref"@,
            JsonModel::optional_text(provision.artifact_ref),
        ),
    )
}

/// The class of runtimes that this server offers.
pub open spec fn offered_class(profile: RuntimeProfileModel, provider: ProviderKind) -> Seq<char> {
    match profile.runtime_class {
        Some(class) => class,
        None => provider_text(provider),
    }
}

/// A status that says that the class that was asked for is not there.
pub open spec fn class_missing(
    request_id: Seq<char>,
    runtime_id: Option<Seq<char>>,
    provider: ProviderKind,
    requested: Seq<char>,
    available: Seq<char>,
) -> AgentControlStatusEnvelopeModel {
    status(
        request_id,
        RuntimeLifecyclePhase::Failed,
        runtime_id,
        Some(provider),
        "requested runtime class is not available on this server"@,
        JsonModel::empty().with("requested_runtime_class"@, JsonModel::Text(requested)).with(
            "available_runtime_class"@,
            JsonModel::Text(available),
        ),
    )
}

/// A runtime that a provider is to be asked for.
#[derive(Debug, PartialEq, Eq)]
pub struct ProvisionJob {
    pub requester: String,
    pub request_id: String,
    pub statuses: Vec<AgentControlStatusEnvelope>,
    pub provision: ProvisionCommand,
    pub workload: Option<Json>,
}

/// What a [`ProvisionJob`] holds.
#[verifier::ext_equal]
pub struct ProvisionJobModel {
    pub requester: Seq<char>,
    pub request_id: Seq<char>,
    pub statuses: Seq<AgentControlStatusEnvelopeModel>,
    pub provision: ProvisionCommandModel,
    pub workload: Option<JsonModel>,
}

impl DeepView for ProvisionJob {
    type V = ProvisionJobModel;

    open spec fn deep_view(&self) -> ProvisionJobModel {
        ProvisionJobModel {
            requester: self.requester.deep_view(),
            request_id: self.request_id.deep_view(),
            statuses: self.statuses.deep_view(),
            provision: self.provision.deep_view(),
            workload: self.workload.deep_view(),
        }
    }
}

impl View for ProvisionJob {
    type V = ProvisionJobModel;

    open spec fn view(&self) -> ProvisionJobModel {
        self.deep_view()
    }
}

impl Replicate for ProvisionJob {
    fn replicate(&self) -> (copy: Self) {
        ProvisionJob {
            requester: self.requester.replicate(),
            request_id: self.request_id.replicate(),
            statuses: self.statuses.replicate(),
            provision: self.provision.replicate(),
            workload: self.workload.replicate(),
        }
    }
}

impl Clone for ProvisionJob {
    fn clone(&self) -> (copy: Self)
        ensures
            copy@ == self@,
    {
        self.replicate()
    }
}

/// What taking up a provisioning comes to: a job for the provider, or a refusal.
pub open spec fn begun_provision(
    service: AgentControlServiceModel,
    requester: Seq<char>,
    request_id: Seq<char>,
    provision: ProvisionCommandModel,
    workload: Option<Result<JsonModel, Seq<char>>>,
    statuses: Seq<AgentControlStatusEnvelopeModel>,
    profile: RuntimeProfileModel,
    now: u64,
) -> Result<ProvisionJobModel, CommandOutcomeModel> {
    if !allows(service.provision_policy, requester) {
        Err(
            unauthorized(
                statuses.push(
                    status(
                        request_id,
                        RuntimeLifecyclePhase::Failed,
                        None,
                        Some(provision.provider),
                        "requester is not allowed to provision runtimes"@,
                        JsonModel::Null,
                    ),
                ),
                request_id,
                requester,
            ),
        )
    } else {
        match workload_complaint(service.v2_flags.advanced_workload_enabled, workload) {
            Some(complaint) => Err(complained(statuses, request_id, complaint)),
            None => match chosen_artifact(service, requester, provision, now) {
                Err(complaint) => Err(complained(statuses, request_id, complaint)),
                Ok(artifact_ref) => {
                    let effective = ProvisionCommandModel { artifact_ref, ..provision };
                    let begun = statuses.push(
                        provisioning(request_id, effective, provision.build_id),
                    );
                    let offered = offered_class(profile, provision.provider);
                    match provision.runtime_class {
                        Some(requested) if requested != offered => Err(
                            refused(
                                begun.push(
                                    class_missing(
                                        request_id,
                                        None,
                                        provision.provider,
                                        requested,
                                        offered,
                                    ),
                                ),
                                request_id,
                                "runtime_class_unavailable"@,
                                Some(
                                    "route this command to a server that advertises the requested class"@,
                                ),
                                Some("requested="@ + requested + ", available="@ + offered),
                            ),
                        ),
                        _ => Ok(
                            ProvisionJobModel {
                                requester,
                                request_id,
                                statuses: begun,
                                provision: effective,
                                workload: match workload {
                                    Some(Ok(json)) => Some(json),
                                    _ => None,
                                },
                            },
                        ),
                    }
                },
            },
        }
    }
}

/// What was read of a workload, as a model.
pub open spec fn read_outcome(workload: Option<Result<Json, String>>) -> Option<
    Result<JsonModel, Seq<char>>,
> {
    match workload {
        Some(read) => Some(text_outcome(read)),
        None => None,
    }
}

/// The workload that a command asks for, read.
pub open spec fn workload_of(provision: ProvisionCommandModel) -> Option<
    Result<JsonModel, Seq<char>>,
> {
    match provision.advanced_workload_json {
        Some(text) => Some(parsed_json(text)),
        None => None,
    }
}

impl AgentControlService {
    /// The artifact of the build that is asked for.
    fn artifact_of_build(&mut self, requester_pubkey_hex: &str, build_id: &String, now: u64) -> (found:
        (Result<String, Complaint>, bool))
        ensures
            match found.0 {
                Ok(artifact_ref) => artifact_of_build(
                    old(self)@,
                    requester_pubkey_hex@,
                    build_id@,
                    now,
                ) == Ok::<Seq<char>, ComplaintModel>(artifact_ref@),
                Err(complaint) => artifact_of_build(
                    old(self)@,
                    requester_pubkey_hex@,
                    build_id@,
                    now,
                ) == Err::<Seq<char>, ComplaintModel>(complaint@),
            },
            found.1 == match own_build(old(self)@, requester_pubkey_hex@, build_id@) {
                Some(own) => progress_made(old(self)@, own.build_id, now),
                None => false,
            },
            !found.1 ==> final(self)@ == old(self)@,
            final(self)@ == match own_build(old(self)@, requester_pubkey_hex@, build_id@) {
                Some(own) => progressed(old(self)@, own.build_id, now),
                None => old(self)@,
            },
    {
        let own_id = match self.state.builds.get(build_id) {
            Some(build) => {
                if !same_text(build.owner_pubkey_hex.as_str(), requester_pubkey_hex) {
                    return (Err(refuse_unknown_build(build_id.as_str())), false);
                }
                build.build_id.clone()
            },
            None => {
                return (Err(refuse_unknown_build(build_id.as_str())), false);
            },
        };
        let (found, changed) = self.refresh_build_progress(&own_id, now);
        let build = match found {
            Some(build) => build,
            None => {
                return (Err(refuse_unknown_build(build_id.as_str())), changed);
            },
        };
        if build.phase != BuildPhase::Succeeded {
            let complaint = Complaint::about(
                "build_not_ready",
                "wait for build to succeed before provisioning",
                Some("phase=".to_owned().concat(build_phase_debug(build.phase).as_str())),
            );
            return (Err(complaint), changed);
        }
        match build.artifact_ref {
            Some(artifact_ref) => (Ok(artifact_ref), changed),
            None => (
                Err(
                    Complaint::about(
                        "build_artifact_missing",
                        "build did not produce an artifact",
                        Some(build.build_id),
                    ),
                ),
                changed,
            ),
        }
    }

    /// Takes up a provisioning whose workload, where there is one, was read as
    /// `workload` says. Says also whether anything changed.
    pub fn begin_provision_with(
        &mut self,
        requester_pubkey_hex: &str,
        request_id: String,
        provision: &ProvisionCommand,
        workload: Option<Result<Json, String>>,
        statuses: Vec<AgentControlStatusEnvelope>,
        profile: &RuntimeProfile,
        now: u64,
    ) -> (begun: (Result<ProvisionJob, CommandOutcome>, bool))
        ensures
            step_or_answer(begun.0) == begun_provision(
                old(self)@,
                requester_pubkey_hex@,
                request_id@,
                provision@,
                read_outcome(workload),
                statuses.deep_view(),
                profile@,
                now,
            ),
            begun.1 == choice_made_progress(
                old(self)@,
                requester_pubkey_hex@,
                provision@,
                read_outcome(workload),
                now,
            ),
            !begun.1 ==> final(self)@ == old(self)@,
            final(self)@ == after_choice(
                old(self)@,
                requester_pubkey_hex@,
                provision@,
                read_outcome(workload),
                now,
            ),
    {
        let mut statuses = statuses;
        if !self.provision_policy.is_allowed(requester_pubkey_hex) {
            push_status(
                &mut statuses,
                AgentControlStatusEnvelope::v1(
                    request_id.as_str(),
                    RuntimeLifecyclePhase::Failed,
                    None,
                    Some(provision.provider),
                    "requester is not allowed to provision runtimes",
                    json_null(),
                ),
            );
            return (Err(refuse_unauthorized(statuses, request_id, requester_pubkey_hex)), false);
        }
        let workload = match workload {
            None => None,
            Some(read) => {
                if !self.v2_flags.advanced_workload_enabled {
                    let complaint = Complaint::about(
                        "v2_advanced_workload_disabled",
                        "set PIKA_AGENT_CONTROL_V2_ADVANCED_WORKLOAD_ENABLED=1 to enable advanced workloads",
                        None,
                    );
                    return (Err(complaint.refuse(statuses, request_id)), false);
                }
                match read {
                    Ok(json) => Some(json),
                    Err(error) => {
                        let complaint = Complaint::about(
                            "advanced_workload_invalid_json",
                            "advanced_workload_json must be valid JSON",
                            Some(error),
                        );
                        return (Err(complaint.refuse(statuses, request_id)), false);
                    },
                }
            },
        };
        let mut effective = provision.replicate();
        let mut changed = false;
        if let Some(build_id) = &provision.build_id {
            if provision.artifact_ref.is_some() {
                let complaint = Complaint::about(
                    "provision_artifact_ambiguous",
                    "set either build_id or artifact_ref, not both",
                    None,
                );
                return (Err(complaint.refuse(statuses, request_id)), false);
            }
            let (found, moved) = self.artifact_of_build(requester_pubkey_hex, build_id, now);
            changed = moved;
            match found {
                Ok(artifact_ref) => {
                    effective.artifact_ref = Some(artifact_ref);
                },
                Err(complaint) => {
                    return (Err(complaint.refuse(statuses, request_id)), changed);
                },
            }
        }
        if let Some(artifact_ref) = &effective.artifact_ref {
            if let Some(complaint) = refuse_artifact(provision.provider, artifact_ref.as_str()) {
                return (Err(complaint.refuse(statuses, request_id)), changed);
            }
        }
        push_status(
            &mut statuses,
            AgentControlStatusEnvelope::v1(
                request_id.as_str(),
                RuntimeLifecyclePhase::Provisioning,
                None,
                Some(effective.provider),
                "provisioning runtime",
                json_object().with(
                    "provider",
                    json_text(provider_name(effective.provider).as_str()),
                ).with("protocol", json_text(protocol_name(effective.protocol).as_str())).with(
                    "build_id",
                    Json::optional_text(&effective.build_id),
                ).with("artifact_ref", Json::optional_text(&effective.artifact_ref)),
            ),
        );
        if let Some(requested) = &effective.runtime_class {
            let offered = match &profile.runtime_class {
                Some(class) => class.clone(),
                None => provider_name(effective.provider),
            };
            if !same_text(requested.as_str(), offered.as_str()) {
                push_status(
                    &mut statuses,
                    missing_class(
                        request_id.as_str(),
                        None,
                        effective.provider,
                        requested.as_str(),
                        offered.as_str(),
                    ),
                );
                let refusal = CommandOutcome::error(
                    statuses,
                    request_id,
                    "runtime_class_unavailable",
                    Some(
                        "route this command to a server that advertises the requested class".to_owned(),
                    ),
                    Some(
                        "requested=".to_owned().concat(requested.as_str()).concat(
                            ", available=",
                        ).concat(offered.as_str()),
                    ),
                );
                return (Err(refusal), changed);
            }
        }
        let job = ProvisionJob {
            requester: requester_pubkey_hex.to_owned(),
            request_id,
            statuses,
            provision: effective,
            workload,
        };
        (Ok(job), changed)
    }

    /// Takes up a provisioning. Says also whether anything changed.
    pub fn begin_provision(
        &mut self,
        requester_pubkey_hex: &str,
        request_id: String,
        provision: &ProvisionCommand,
        statuses: Vec<AgentControlStatusEnvelope>,
        profile: &RuntimeProfile,
        now: u64,
    ) -> (begun: (Result<ProvisionJob, CommandOutcome>, bool))
        ensures
            step_or_answer(begun.0) == begun_provision(
                old(self)@,
                requester_pubkey_hex@,
                request_id@,
                provision@,
                workload_of(provision@),
                statuses.deep_view(),
                profile@,
                now,
            ),
            begun.1 == choice_made_progress(
                old(self)@,
                requester_pubkey_hex@,
                provision@,
                workload_of(provision@),
                now,
            ),
            !begun.1 ==> final(self)@ == old(self)@,
            final(self)@ == after_choice(
                old(self)@,
                requester_pubkey_hex@,
                provision@,
                workload_of(provision@),
                now,
            ),
    {
        let workload = match &provision.advanced_workload_json {
            Some(text) => Some(parse_json(text.as_str())),
            None => None,
        };
        self.begin_provision_with(
            requester_pubkey_hex,
            request_id,
            provision,
            workload,
            statuses,
            profile,
            now,
        )
    }
}

/// The complaint about a build that is not there, or not the requester's.
fn refuse_unknown_build(build_id: &str) -> (complaint: Complaint)
    ensures
        complaint@ == unknown_build(build_id@),
{
    Complaint::about(
        "build_not_found",
        "build id is unknown to this server",
        Some(build_id.to_owned()),
    )
}

/// What is wrong with the artifact that is asked for.
pub fn refuse_artifact(provider: ProviderKind, artifact_ref: &str) -> (complaint: Option<Complaint>)
    ensures
        complaint.deep_view() == artifact_refusal(provider, artifact_ref@),
{
    let kind = default_build_kind_for_provider(provider);
    if let Err(error) = ensure_immutable_artifact_ref(kind, artifact_ref) {
        return Some(
            Complaint::about(
                "artifact_ref_invalid",
                "artifact_ref must be immutable and compatible with provider",
                Some(error),
            ),
        );
    }
    if parse_artifact_kind(artifact_ref) != Some(kind) {
        return Some(
            Complaint::about(
                "artifact_kind_incompatible",
                "artifact_ref type is incompatible with provider",
                Some(
                    "provider=".to_owned().concat(provider_name(provider).as_str()).concat(
                        ", expected_kind=",
                    ).concat(build_kind_name(kind).as_str()).concat(", artifact_ref=").concat(
                        artifact_ref,
                    ),
                ),
            ),
        );
    }
    None
}

/// A status that says that the class that was asked for is not there.
fn missing_class(
    request_id: &str,
    runtime_id: Option<String>,
    provider: ProviderKind,
    requested: &str,
    available: &str,
) -> (envelope: AgentControlStatusEnvelope)
    ensures
        envelope@ == class_missing(
            request_id@,
            runtime_id.deep_view(),
            provider,
            requested@,
            available@,
        ),
{
    AgentControlStatusEnvelope::v1(
        request_id,
        RuntimeLifecyclePhase::Failed,
        runtime_id,
        Some(provider),
        "requested runtime class is not available on this server",
        json_object().with("requested_runtime_class", json_text(requested)).with(
            "available_runtime_class",
            json_text(available),
        ),
    )
}

/// A runtime as it is recorded when its provider has made it.
pub open spec fn provisioned_record(
    job: ProvisionJobModel,
    runtime_id: Seq<char>,
    made: ProvisionedRuntimeModel,
    created_at: u64,
    ttl_secs: u64,
) -> RuntimeRecordModel {
    let marked = match job.provision.artifact_ref {
        Some(artifact_ref) => artifact_metadata(
            made.metadata,
            job.provision.build_id,
            artifact_ref,
        ),
        None => made.metadata,
    };
    RuntimeRecordModel {
        owner_pubkey_hex: job.requester,
        descriptor: RuntimeDescriptorModel {
            runtime_id,
            provider: job.provision.provider,
            lifecycle_phase: RuntimeLifecyclePhase::Ready,
            runtime_class: made.runtime_class,
            region: made.region,
            capacity: made.capacity,
            policy_constraints: made.policy_constraints,
            protocol_compatibility: made.protocol_compatibility,
            bot_pubkey: made.bot_pubkey,
            metadata: match job.workload {
                Some(workload) => workload_metadata(marked, workload),
                None => marked,
            },
        },
        provider_handle: made.provider_handle,
        created_at,
        expires_at: capped_sum(created_at, ttl_secs),
        teardown_retry: None,
    }
}

/// Protocols as they are shown in a complaint.
pub open spec fn shown_protocols(protocols: Seq<ProtocolKind>) -> Seq<char> {
    "["@ + listed_protocols(protocols) + "]"@
}

/// Protocols with commas between them.
pub open spec fn listed_protocols(protocols: Seq<ProtocolKind>) -> Seq<char>
    decreases protocols.len(),
{
    if protocols.len() == 0 {
        Seq::empty()
    } else if protocols.len() == 1 {
        "Acp"@
    } else {
        listed_protocols(protocols.drop_last()) + ", "@ + "Acp"@
    }
}

/// Protocols as they are shown in a complaint.
pub fn show_protocols(protocols: &Vec<ProtocolKind>) -> (text: String)
    ensures
        text@ == shown_protocols(protocols.deep_view()),
{
    let ghost all = protocols.deep_view();
    let mut text = "".to_owned();
    let mut i: usize = 0;
    proof {
        reveal_strlit("");
        assert(text@ =~= listed_protocols(all.take(0)));
    }
    while i < protocols.len()
        invariant
            i <= protocols.len() == all.len(),
            text@ == listed_protocols(all.take(i as int)),
        decreases protocols.len() - i,
    {
        proof {
            assert(all.take(i + 1).drop_last() =~= all.take(i as int));
        }
        if i == 0 {
            text = "Acp".to_owned();
        } else {
            text = text.concat(", ").concat("Acp");
        }
        i += 1;
    }
    proof {
        assert(all.take(i as int) =~= all);
    }
    "[".to_owned().concat(text.as_str()).concat("]")
}

/// What is wrong with a runtime that a provider made: it does not speak the
/// protocol, or is not of the class, that was asked for. The status that says so,
/// the code and hint of the refusal, and the beginning of its detail.
pub open spec fn misfit(job: ProvisionJobModel, runtime: RuntimeRecordModel) -> Option<
    (AgentControlStatusEnvelopeModel, ComplaintModel),
> {
    let provision = job.provision;
    if !runtime.descriptor.protocol_compatibility.contains(provision.protocol) {
        Some(
            (
                status(
                    job.request_id,
                    RuntimeLifecyclePhase::Failed,
                    Some(runtime.descriptor.runtime_id),
                    Some(provision.provider),
                    "requested protocol is not supported by runtime"@,
                    JsonModel::empty().with(
                        "requested_protocol"@,
                        JsonModel::Text(protocol_text(provision.protocol)),
                    ),
                ),
                ComplaintModel {
                    code: "unsupported_protocol"@,
                    hint: "choose a compatible runtime protocol"@,
                    detail: Some(
                        "requested="@ + protocol_text(provision.protocol) + ", compatibility="@
                            + shown_protocols(runtime.descriptor.protocol_compatibility),
                    ),
                },
            ),
        )
    } else if provision.runtime_class is Some && runtime.descriptor.runtime_class
        != provision.runtime_class {
        let requested = provision.runtime_class->0;
        let available = match runtime.descriptor.runtime_class {
            Some(class) => class,
            None => "unknown"@,
        };
        Some(
            (
                class_missing(
                    job.request_id,
                    Some(runtime.descriptor.runtime_id),
                    provision.provider,
                    requested,
                    available,
                ),
                ComplaintModel {
                    code: "runtime_class_unavailable"@,
                    hint: "route this command to a server that advertises the requested class"@,
                    detail: Some("requested="@ + requested + ", available="@ + available),
                },
            ),
        )
    } else {
        None
    }
}

/// An artifact after a runtime was made that runs it.
pub open spec fn used_artifact(
    service: AgentControlServiceModel,
    job: ProvisionJobModel,
    artifact_ref: Seq<char>,
    created_at: u64,
) -> ArtifactRecordModel {
    let expires_at = capped_sum(created_at, service.build_policy.artifact_ttl_secs);
    let known = if service.state.artifacts.contains_key(artifact_ref) {
        service.state.artifacts[artifact_ref]
    } else {
        ArtifactRecordModel {
            artifact_ref,
            build_kind: build_kind_for(job.provision.provider),
            owner_pubkey_hex: job.requester,
            created_at,
            last_used_at: created_at,
            expires_at,
            source_build_id: job.provision.build_id,
        }
    };
    ArtifactRecordModel {
        last_used_at: created_at,
        expires_at: if known.expires_at < created_at {
            expires_at
        } else {
            known.expires_at
        },
        ..known
    }
}

/// The service with a runtime that was made.
pub open spec fn admitted_runtime(
    service: AgentControlServiceModel,
    job: ProvisionJobModel,
    runtime: RuntimeRecordModel,
) -> AgentControlServiceModel {
    let created_at = runtime.created_at;
    let id = runtime.descriptor.runtime_id;
    service_audited(
        AgentControlServiceModel {
            state: AgentControlStateModel {
                runtimes: service.state.runtimes.insert(id, runtime),
                artifacts: match job.provision.artifact_ref {
                    Some(artifact_ref) => service.state.artifacts.insert(
                        artifact_ref,
                        used_artifact(service, job, artifact_ref, created_at),
                    ),
                    None => service.state.artifacts,
                },
                ..service.state
            },
            ..service
        },
        created_at,
        job.requester,
        "provision"@,
        "ok"@,
        JsonModel::empty().with("runtime_id"@, JsonModel::Text(id)).with(
            "provider"@,
            JsonModel::Text(provider_text(job.provision.provider)),
        ).with("artifact_ref"@, JsonModel::optional_text(job.provision.artifact_ref)).with(
            "build_id"@,
            JsonModel::optional_text(job.provision.build_id),
        ),
    )
}

/// A runtime that a provider made and that does not fit: it is to be torn down.
#[derive(Debug, PartialEq, Eq)]
pub struct CleanupJob {
    pub request_id: String,
    pub statuses: Vec<AgentControlStatusEnvelope>,
    pub complaint: Complaint,
    pub runtime: RuntimeRecord,
}

/// What a [`CleanupJob`] holds.
#[verifier::ext_equal]
pub struct CleanupJobModel {
    pub request_id: Seq<char>,
    pub statuses: Seq<AgentControlStatusEnvelopeModel>,
    pub complaint: ComplaintModel,
    pub runtime: RuntimeRecordModel,
}

impl DeepView for CleanupJob {
    type V = CleanupJobModel;

    open spec fn deep_view(&self) -> CleanupJobModel {
        CleanupJobModel {
            request_id: self.request_id.deep_view(),
            statuses: self.statuses.deep_view(),
            complaint: self.complaint.deep_view(),
            runtime: self.runtime.deep_view(),
        }
    }
}

impl View for CleanupJob {
    type V = CleanupJobModel;

    open spec fn view(&self) -> CleanupJobModel {
        self.deep_view()
    }
}

impl Replicate for CleanupJob {
    fn replicate(&self) -> (copy: Self) {
        CleanupJob {
            request_id: self.request_id.replicate(),
            statuses: self.statuses.replicate(),
            complaint: self.complaint.replicate(),
            runtime: self.runtime.replicate(),
        }
    }
}

impl Clone for CleanupJob {
    fn clone(&self) -> (copy: Self)
        ensures
            copy@ == self@,
    {
        self.replicate()
    }
}

/// A runtime that was taken over, and is to be written to disk; with the artifact
/// that it runs as that was before.
#[derive(Debug, PartialEq, Eq)]
pub struct TakenJob {
    pub job: ProvisionJob,
    pub runtime: RuntimeRecord,
    pub previous_artifact: Option<ArtifactRecord>,
}

/// What a [`TakenJob`] holds.
#[verifier::ext_equal]
pub struct TakenJobModel {
    pub job: ProvisionJobModel,
    pub runtime: RuntimeRecordModel,
    pub previous_artifact: Option<ArtifactRecordModel>,
}

impl DeepView for TakenJob {
    type V = TakenJobModel;

    open spec fn deep_view(&self) -> TakenJobModel {
        TakenJobModel {
            job: self.job.deep_view(),
            runtime: self.runtime.deep_view(),
            previous_artifact: self.previous_artifact.deep_view(),
        }
    }
}

impl View for TakenJob {
    type V = TakenJobModel;

    open spec fn view(&self) -> TakenJobModel {
        self.deep_view()
    }
}

impl Replicate for TakenJob {
    fn replicate(&self) -> (copy: Self) {
        TakenJob {
            job: self.job.replicate(),
            runtime: self.runtime.replicate(),
            previous_artifact: self.previous_artifact.replicate(),
        }
    }
}

impl Clone for TakenJob {
    fn clone(&self) -> (copy: Self)
        ensures
            copy@ == self@,
    {
        self.replicate()
    }
}

/// What becomes of what a provider did.
#[derive(Debug, PartialEq, Eq)]
pub enum ProvisionStep {
    Refused(CommandOutcome),
    Cleanup(CleanupJob),
    Admitted(TakenJob),
}

/// What a [`ProvisionStep`] holds.
#[verifier::ext_equal]
pub enum ProvisionStepModel {
    Refused(CommandOutcomeModel),
    Cleanup(CleanupJobModel),
    Admitted(TakenJobModel),
}

impl DeepView for ProvisionStep {
    type V = ProvisionStepModel;

    open spec fn deep_view(&self) -> ProvisionStepModel {
        match self {
            ProvisionStep::Refused(a) => ProvisionStepModel::Refused(a.deep_view()),
            ProvisionStep::Cleanup(a) => ProvisionStepModel::Cleanup(a.deep_view()),
            ProvisionStep::Admitted(a) => ProvisionStepModel::Admitted(a.deep_view()),
        }
    }
}

impl View for ProvisionStep {
    type V = ProvisionStepModel;

    open spec fn view(&self) -> ProvisionStepModel {
        self.deep_view()
    }
}

impl Replicate for ProvisionStep {
    fn replicate(&self) -> (copy: Self) {
        match self {
            ProvisionStep::Refused(a) => ProvisionStep::Refused(a.replicate()),
            ProvisionStep::Cleanup(a) => ProvisionStep::Cleanup(a.replicate()),
            ProvisionStep::Admitted(a) => ProvisionStep::Admitted(a.replicate()),
        }
    }
}

impl Clone for ProvisionStep {
    fn clone(&self) -> (copy: Self)
        ensures
            copy@ == self@,
    {
        self.replicate()
    }
}

/// What becomes of what a provider did: nothing was made, what was made does not
/// fit, or it is taken over.
pub open spec fn provisioned(
    service: AgentControlServiceModel,
    job: ProvisionJobModel,
    runtime_id: Seq<char>,
    made: Result<ProvisionedRuntimeModel, Seq<char>>,
    created_at: u64,
    ttl_secs: u64,
) -> (AgentControlServiceModel, ProvisionStepModel) {
    match made {
        Err(error) => (
            service,
            ProvisionStepModel::Refused(
                refused(
                    job.statuses.push(
                        status(
                            job.request_id,
                            RuntimeLifecyclePhase::Failed,
                            Some(runtime_id),
                            Some(job.provision.provider),
                            "provisioning failed"@,
                            JsonModel::Null,
                        ),
                    ),
                    job.request_id,
                    "provision_failed"@,
                    Some("check provider credentials/config and retry"@),
                    Some(error),
                ),
            ),
        ),
        Ok(made) => {
            let runtime = provisioned_record(job, runtime_id, made, created_at, ttl_secs);
            match misfit(job, runtime) {
                Some((envelope, complaint)) => (
                    service,
                    ProvisionStepModel::Cleanup(
                        CleanupJobModel {
                            request_id: job.request_id,
                            statuses: job.statuses.push(envelope),
                            complaint,
                            runtime,
                        },
                    ),
                ),
                None => (
                    admitted_runtime(service, job, runtime),
                    ProvisionStepModel::Admitted(
                        TakenJobModel {
                            job,
                            runtime,
                            previous_artifact: match job.provision.artifact_ref {
                                Some(artifact_ref) if service.state.artifacts.contains_key(
                                    artifact_ref,
                                ) => Some(service.state.artifacts[artifact_ref]),
                                _ => None,
                            },
                        },
                    ),
                ),
            }
        },
    }
}

/// What a teardown came to, in words.
pub open spec fn teardown_note(what: Seq<char>, torn_down: Result<JsonModel, Seq<char>>) -> Seq<char> {
    match torn_down {
        Ok(payload) => "provider "@ + what + " attempted: "@ + written_json(payload),
        Err(error) => "provider "@ + what + " failed: "@ + error,
    }
}

/// The answer where what a provider made does not fit, once it was torn down.
pub open spec fn cleaned_up(job: CleanupJobModel, torn_down: Result<JsonModel, Seq<char>>) -> CommandOutcomeModel {
    refused(
        job.statuses,
        job.request_id,
        job.complaint.code,
        Some(job.complaint.hint),
        match job.complaint.detail {
            Some(detail) => Some(detail + "; "@ + teardown_note("cleanup"@, torn_down)),
            None => Some(teardown_note("cleanup"@, torn_down)),
        },
    )
}

/// The answer where a runtime was written to disk.
pub open spec fn provision_answer(job: ProvisionJobModel, runtime: RuntimeRecordModel) -> CommandOutcomeModel {
    let id = runtime.descriptor.runtime_id;
    answered(
        job.statuses.push(
            status(
                job.request_id,
                RuntimeLifecyclePhase::Ready,
                Some(id),
                Some(job.provision.provider),
                "runtime ready"@,
                JsonModel::empty().with("runtime_id"@, JsonModel::Text(id)).with(
                    "provider"@,
                    JsonModel::Text(provider_text(job.provision.provider)),
                ).with("build_id"@, JsonModel::optional_text(job.provision.build_id)).with(
                    "artifact_ref"@,
                    JsonModel::optional_text(job.provision.artifact_ref),
                ).with("created_at"@, JsonModel::UInt(runtime.created_at)).with(
                    "expires_at"@,
                    JsonModel::UInt(runtime.expires_at),
                ),
            ),
        ),
        job.request_id,
        descriptor_of(runtime),
        JsonModel::empty().with("operation"@, JsonModel::Text("provision"@)).with(
            "build_id"@,
            JsonModel::optional_text(job.provision.build_id),
        ).with("artifact_ref"@, JsonModel::optional_text(job.provision.artifact_ref)).with(
            "created_at"@,
            JsonModel::UInt(runtime.created_at),
        ).with("expires_at"@, JsonModel::UInt(runtime.expires_at)),
    )
}

/// The service after a runtime that could not be written to disk was given up:
/// it is forgotten, and its artifact is as it was before.
pub open spec fn rolled_back(service: AgentControlServiceModel, taken: TakenJobModel) -> AgentControlServiceModel {
    AgentControlServiceModel {
        state: AgentControlStateModel {
            runtimes: service.state.runtimes.remove(taken.runtime.descriptor.runtime_id),
            artifacts: match (taken.job.provision.artifact_ref, taken.previous_artifact) {
                (Some(artifact_ref), Some(previous)) => service.state.artifacts.insert(
                    artifact_ref,
                    previous,
                ),
                (Some(artifact_ref), None) => service.state.artifacts.remove(artifact_ref),
                (None, _) => service.state.artifacts,
            },
            ..service.state
        },
        ..service
    }
}

/// The answer where a runtime could not be written to disk, once it was given up
/// and torn down.
pub open spec fn rollback_answer(
    job: ProvisionJobModel,
    error: Seq<char>,
    torn_down: Result<JsonModel, Seq<char>>,
    rollback_error: Option<Seq<char>>,
) -> CommandOutcomeModel {
    let detail = error + "; "@ + teardown_note("rollback"@, torn_down);
    refused(
        job.statuses,
        job.request_id,
        "state_persist_failed"@,
        Some("runtime provisioning was rolled back due to server state persistence failure"@),
        match rollback_error {
            Some(e) => Some(detail + "; rollback state persist failed: "@ + e),
            None => Some(detail),
        },
    )
}

/// What a teardown came to, in words.
fn note_teardown(what: &str, torn_down: &Result<Json, String>) -> (text: String)
    ensures
        text@ == teardown_note(what@, text_outcome(*torn_down)),
{
    match torn_down {
        Ok(payload) => "provider ".to_owned().concat(what).concat(" attempted: ").concat(
            write_json(payload).as_str(),
        ),
        Err(error) => "provider ".to_owned().concat(what).concat(" failed: ").concat(
            error.as_str(),
        ),
    }
}

/// Whether one of the protocols is the one that was asked for.
pub fn speaks(protocols: &Vec<ProtocolKind>, protocol: ProtocolKind) -> (found: bool)
    ensures
        found == protocols.deep_view().contains(protocol),
{
    let ghost all = protocols.deep_view();
    let mut i: usize = 0;
    while i < protocols.len()
        invariant
            i <= protocols.len() == all.len(),
            all == protocols.deep_view(),
            forall|j: int| 0 <= j < i ==> all[j] != protocol,
        decreases protocols.len() - i,
    {
        if protocols[i] == protocol {
            proof {
                assert(all[i as int] == protocol);
            }
            return true;
        }
        i += 1;
    }
    false
}

/// What is wrong with a runtime that a provider made.
fn find_misfit(job: &ProvisionJob, runtime: &RuntimeRecord) -> (found: Option<
    (AgentControlStatusEnvelope, Complaint),
>)
    ensures
        match found {
            Some((envelope, complaint)) => misfit(job@, runtime@) == Some(
                (envelope@, complaint@),
            ),
            None => misfit(job@, runtime@) is None,
        },
{
    let descriptor = &runtime.descriptor;
    if !speaks(&descriptor.protocol_compatibility, job.provision.protocol) {
        let envelope = AgentControlStatusEnvelope::v1(
            job.request_id.as_str(),
            RuntimeLifecyclePhase::Failed,
            Some(descriptor.runtime_id.clone()),
            Some(job.provision.provider),
            "requested protocol is not supported by runtime",
            json_object().with(
                "requested_protocol",
                json_text(protocol_name(job.provision.protocol).as_str()),
            ),
        );
        let complaint = Complaint::about(
            "unsupported_protocol",
            "choose a compatible runtime protocol",
            Some(
                "requested=".to_owned().concat(
                    protocol_name(job.provision.protocol).as_str(),
                ).concat(", compatibility=").concat(
                    show_protocols(&descriptor.protocol_compatibility).as_str(),
                ),
            ),
        );
        return Some((envelope, complaint));
    }
    if let Some(requested) = &job.provision.runtime_class {
        if !crate::agent::policy::same_optional_text(
            &descriptor.runtime_class,
            &job.provision.runtime_class,
        ) {
            let available = match &descriptor.runtime_class {
                Some(class) => class.clone(),
                None => "unknown".to_owned(),
            };
            let envelope = missing_class(
                job.request_id.as_str(),
                Some(descriptor.runtime_id.clone()),
                job.provision.provider,
                requested.as_str(),
                available.as_str(),
            );
            let complaint = Complaint::about(
                "runtime_class_unavailable",
                "route this command to a server that advertises the requested class",
                Some(
                    "requested=".to_owned().concat(requested.as_str()).concat(
                        ", available=",
                    ).concat(available.as_str()),
                ),
            );
            return Some((envelope, complaint));
        }
    }
    None
}

/// A runtime as it is recorded when its provider has made it.
fn record_of(
    job: &ProvisionJob,
    runtime_id: String,
    made: ProvisionedRuntime,
    created_at: u64,
    ttl_secs: u64,
) -> (runtime: RuntimeRecord)
    ensures
        runtime@ == provisioned_record(job@, runtime_id@, made@, created_at, ttl_secs),
{
    let marked = match &job.provision.artifact_ref {
        Some(artifact_ref) => with_artifact_metadata(
            made.metadata,
            &job.provision.build_id,
            artifact_ref.as_str(),
        ),
        None => made.metadata,
    };
    let metadata = match &job.workload {
        Some(workload) => with_advanced_workload_metadata(marked, workload.replicate()),
        None => marked,
    };
    RuntimeRecord {
        owner_pubkey_hex: job.requester.clone(),
        descriptor: RuntimeDescriptor {
            runtime_id,
            provider: job.provision.provider,
            lifecycle_phase: RuntimeLifecyclePhase::Ready,
            runtime_class: made.runtime_class,
            region: made.region,
            capacity: made.capacity,
            policy_constraints: made.policy_constraints,
            protocol_compatibility: made.protocol_compatibility,
            bot_pubkey: made.bot_pubkey,
            metadata,
        },
        provider_handle: made.provider_handle,
        created_at,
        expires_at: add_capped(created_at, ttl_secs),
        teardown_retry: None,
    }
}

impl AgentControlService {
    /// Takes over a runtime that was made.
    fn admit_runtime(&mut self, job: &ProvisionJob, runtime: &RuntimeRecord) -> (previous: Option<
        ArtifactRecord,
    >)
        ensures
            final(self)@ == admitted_runtime(old(self)@, job@, runtime@),
            previous.deep_view() == match job@.provision.artifact_ref {
                Some(artifact_ref) if old(self)@.state.artifacts.contains_key(
                    artifact_ref,
                ) => Some(old(self)@.state.artifacts[artifact_ref]),
                _ => None,
            },
    {
        let created_at: u64 = runtime.created_at;
        self.state.runtimes.insert(runtime.descriptor.runtime_id.clone(), runtime.replicate());
        let mut previous: Option<ArtifactRecord> = None;
        if let Some(artifact_ref) = &job.provision.artifact_ref {
            let expires_at: u64 = add_capped(created_at, self.build_policy.artifact_ttl_secs);
            let mut artifact = match self.state.artifacts.get(artifact_ref) {
                Some(known) => {
                    previous = Some(known.replicate());
                    known.replicate()
                },
                None => ArtifactRecord {
                    artifact_ref: artifact_ref.clone(),
                    build_kind: default_build_kind_for_provider(job.provision.provider),
                    owner_pubkey_hex: job.requester.clone(),
                    created_at,
                    last_used_at: created_at,
                    expires_at,
                    source_build_id: job.provision.build_id.replicate(),
                },
            };
            artifact.last_used_at = created_at;
            if artifact.expires_at < created_at {
                artifact.expires_at = expires_at;
            }
            self.state.artifacts.insert(artifact_ref.clone(), artifact);
        }
        self.audit(
            created_at,
            job.requester.as_str(),
            "provision",
            "ok",
            json_object().with(
                "runtime_id",
                json_text(runtime.descriptor.runtime_id.as_str()),
            ).with("provider", json_text(provider_name(job.provision.provider).as_str())).with(
                "artifact_ref",
                Json::optional_text(&job.provision.artifact_ref),
            ).with("build_id", Json::optional_text(&job.provision.build_id)),
        );
        previous
    }

    /// Goes on with a provisioning once the provider was asked.
    pub fn provider_provisioned(
        &mut self,
        job: ProvisionJob,
        runtime_id: String,
        made: Result<ProvisionedRuntime, String>,
        created_at: u64,
        ttl_secs: u64,
    ) -> (step: ProvisionStep)
        ensures
            (final(self)@, step@) == provisioned(
                old(self)@,
                job@,
                runtime_id@,
                text_outcome(made),
                created_at,
                ttl_secs,
            ),
    {
        let made = match made {
            Ok(made) => made,
            Err(error) => {
                let mut statuses = job.statuses;
                push_status(
                    &mut statuses,
                    AgentControlStatusEnvelope::v1(
                        job.request_id.as_str(),
                        RuntimeLifecyclePhase::Failed,
                        Some(runtime_id),
                        Some(job.provision.provider),
                        "provisioning failed",
                        json_null(),
                    ),
                );
                return ProvisionStep::Refused(
                    CommandOutcome::error(
                        statuses,
                        job.request_id,
                        "provision_failed",
                        Some("check provider credentials/config and retry".to_owned()),
                        Some(error),
                    ),
                );
            },
        };
        let runtime = record_of(&job, runtime_id, made, created_at, ttl_secs);
        if let Some((envelope, complaint)) = find_misfit(&job, &runtime) {
            let mut statuses = job.statuses;
            push_status(&mut statuses, envelope);
            return ProvisionStep::Cleanup(
                CleanupJob { request_id: job.request_id, statuses, complaint, runtime },
            );
        }
        let previous_artifact = self.admit_runtime(&job, &runtime);
        ProvisionStep::Admitted(TakenJob { job, runtime, previous_artifact })
    }

    /// Gives up a runtime that could not be written to disk.
    pub fn roll_back_provision(&mut self, taken: &TakenJob)
        ensures
            final(self)@ == rolled_back(old(self)@, taken@),
    {
        self.state.runtimes.take(&taken.runtime.descriptor.runtime_id);
        if let Some(artifact_ref) = &taken.job.provision.artifact_ref {
            match &taken.previous_artifact {
                Some(previous) => {
                    self.state.artifacts.insert(artifact_ref.clone(), previous.replicate());
                },
                None => {
                    self.state.artifacts.take(artifact_ref);
                },
            }
        }
    }
}

/// The answer where what a provider made does not fit, once it was torn down.
pub fn conclude_cleanup(job: CleanupJob, torn_down: &Result<Json, String>) -> (outcome: CommandOutcome)
    ensures
        outcome@ == cleaned_up(job@, text_outcome(*torn_down)),
{
    let note = note_teardown("cleanup", torn_down);
    let detail = match job.complaint.detail {
        Some(detail) => detail.concat("; ").concat(note.as_str()),
        None => note,
    };
    CommandOutcome::error(
        job.statuses,
        job.request_id,
        job.complaint.code.as_str(),
        Some(job.complaint.hint),
        Some(detail),
    )
}

/// The answer where a runtime was written to disk.
pub fn conclude_provision(taken: TakenJob) -> (outcome: CommandOutcome)
    ensures
        outcome@ == provision_answer(taken@.job, taken@.runtime),
{
    let job = taken.job;
    let runtime = taken.runtime;
    let mut statuses = job.statuses;
    push_status(
        &mut statuses,
        AgentControlStatusEnvelope::v1(
            job.request_id.as_str(),
            RuntimeLifecyclePhase::Ready,
            Some(runtime.descriptor.runtime_id.clone()),
            Some(job.provision.provider),
            "runtime ready",
            json_object().with(
                "runtime_id",
                json_text(runtime.descriptor.runtime_id.as_str()),
            ).with("provider", json_text(provider_name(job.provision.provider).as_str())).with(
                "build_id",
                Json::optional_text(&job.provision.build_id),
            ).with("artifact_ref", Json::optional_text(&job.provision.artifact_ref)).with(
                "created_at",
                json_uint(runtime.created_at),
            ).with("expires_at", json_uint(runtime.expires_at)),
        ),
    );
    CommandOutcome::result(
        statuses,
        job.request_id,
        runtime.descriptor_with_lease(),
        json_object().with("operation", json_text("provision")).with(
            "build_id",
            Json::optional_text(&job.provision.build_id),
        ).with("artifact_ref", Json::optional_text(&job.provision.artifact_ref)).with(
            "created_at",
            json_uint(runtime.created_at),
        ).with("expires_at", json_uint(runtime.expires_at)),
    )
}

/// The answer where a runtime could not be written to disk.
pub fn conclude_rollback(
    taken: TakenJob,
    error: &str,
    torn_down: &Result<Json, String>,
    rollback_error: &Option<String>,
) -> (outcome: CommandOutcome)
    ensures
        outcome@ == rollback_answer(
            taken@.job,
            error@,
            text_outcome(*torn_down),
            rollback_error.deep_view(),
        ),
{
    let mut detail = error.to_owned().concat("; ").concat(
        note_teardown("rollback", torn_down).as_str(),
    );
    if let Some(rollback_error) = rollback_error {
        detail = detail.concat("; rollback state persist failed: ").concat(
            rollback_error.as_str(),
        );
    }
    CommandOutcome::error(
        taken.job.statuses,
        taken.job.request_id,
        "state_persist_failed",
        Some(
            "runtime provisioning was rolled back due to server state persistence failure".to_owned(),
        ),
        Some(detail),
    )
}

/// A provisioning that is refused before a provider is asked leaves every runtime
/// and every artifact but that of its build as they were.
pub proof fn beginning_provision_keeps_runtimes(
    service: AgentControlServiceModel,
    requester: Seq<char>,
    provision: ProvisionCommandModel,
    workload: Option<Result<JsonModel, Seq<char>>>,
    now: u64,
)
    ensures
        after_choice(service, requester, provision, workload, now).state.runtimes
            == service.state.runtimes,
        provision.build_id is None ==> after_choice(service, requester, provision, workload, now)
            == service,
{
}

/// Giving up a runtime undoes taking it over: but for the audit log everything is
/// as it was before, where the runtime's id was new.
pub proof fn rolling_back_undoes_admitting(
    service: AgentControlServiceModel,
    job: ProvisionJobModel,
    runtime_id: Seq<char>,
    made: ProvisionedRuntimeModel,
    created_at: u64,
    ttl_secs: u64,
)
    requires
        !service.state.runtimes.contains_key(runtime_id),
        provisioned(service, job, runtime_id, Ok(made), created_at, ttl_secs).1 is Admitted,
    ensures
        ({
            let (after, step) = provisioned(
                service,
                job,
                runtime_id,
                Ok(made),
                created_at,
                ttl_secs,
            );
            let back = rolled_back(after, step->Admitted_0);
            &&& back.state.runtimes == service.state.runtimes
            &&& back.state.artifacts == service.state.artifacts
            &&& back.state.builds == service.state.builds
            &&& back.state.idempotency == service.state.idempotency
            &&& back.state.idempotency_order == service.state.idempotency_order
        }),
{
    let (after, step) = provisioned(service, job, runtime_id, Ok(made), created_at, ttl_secs);
    let back = rolled_back(after, step->Admitted_0);
    assert(back.state.runtimes =~= service.state.runtimes);
    assert(back.state.artifacts =~= service.state.artifacts);
}

/// A runtime that is taken over speaks the protocol and is of the class that were
/// asked for, belongs to the requester and is ready.
pub proof fn admitted_runtime_fits(
    service: AgentControlServiceModel,
    job: ProvisionJobModel,
    runtime_id: Seq<char>,
    made: Result<ProvisionedRuntimeModel, Seq<char>>,
    created_at: u64,
    ttl_secs: u64,
)
    requires
        provisioned(service, job, runtime_id, made, created_at, ttl_secs).1 is Admitted,
    ensures
        ({
            let after = provisioned(service, job, runtime_id, made, created_at, ttl_secs).0;
            let runtime = after.state.runtimes[runtime_id];
            &&& after.state.runtimes.contains_key(runtime_id)
            &&& runtime.owner_pubkey_hex == job.requester
            &&& runtime.descriptor.lifecycle_phase == RuntimeLifecyclePhase::Ready
            &&& runtime.descriptor.protocol_compatibility.contains(job.provision.protocol)
            &&& job.provision.runtime_class is Some ==> runtime.descriptor.runtime_class
                == job.provision.runtime_class
        }),
{
}

} // verus!
