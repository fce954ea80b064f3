//! Builds: how the build service takes them on and works on them, and how the
//! control service answers those who ask about them.
use vstd::prelude::*;
use vstd::utf8::encode_utf8;
use crate::agent::policy::{
    add_capped, admitted, allows, any_rule_matches, artifact_complaint, capped_difference,
    capped_sum, clamped, ensure_immutable_artifact_ref, hash_hex, normalize_submit_build_command,
    normalized_build, parse_source_ref, same_optional_text, sha256_hex, source_in, subtract_capped,
    BuildSubmitRequest, BuildSubmitRequestModel, text_outcome, ParsedSourceRef,
    ParsedSourceRefModel, SourceAllowRule, SourceAllowRuleModel,
};
use crate::agent::service::{
    refuse_unauthorized, step_or_answer, unauthorized, AgentControlService, AgentControlServiceModel,
};
use crate::agent::state::{audit_event, audited, AgentControlStateModel};
use crate::agent::types::{
    answered, build_json, build_kind_name, build_kind_text, build_phase_name, build_phase_text,
    default_list_summary_descriptor, json_of_build, phase_is_terminal, refused, summary_descriptor,
    AgentControlStatusEnvelope, AgentControlStatusEnvelopeModel, ArtifactRecord,
    ArtifactRecordModel, BuildKind, BuildPhase, BuildRecord, BuildRecordModel, CommandOutcome,
    CommandOutcomeModel, SubmitBuildCommand, SubmitBuildCommandModel,
};
use crate::collections::{lemma_listing_of, listing_of, Replicate};
use crate::json::{json_bool, json_object, json_text, json_uint, Json, JsonModel};
use crate::text::{decimal, decimal_text, same_text};

verus! {

/// How the build service takes on a build.
#[derive(Debug, PartialEq, Eq)]
pub enum BuildSubmitOutcome {
    ImmediateSuccess { artifact_ref: String },
    Pending { next_phase: BuildPhase, ready_at: u64 },
}

/// What a [`BuildSubmitOutcome`] holds.
#[verifier::ext_equal]
pub enum BuildSubmitOutcomeModel {
    ImmediateSuccess { artifact_ref: Seq<char> },
    Pending { next_phase: BuildPhase, ready_at: u64 },
}

impl DeepView for BuildSubmitOutcome {
    type V = BuildSubmitOutcomeModel;

    open spec fn deep_view(&self) -> BuildSubmitOutcomeModel {
        match self {
            BuildSubmitOutcome::ImmediateSuccess {
                artifact_ref,
            } => BuildSubmitOutcomeModel::ImmediateSuccess {
                artifact_ref: artifact_ref.deep_view(),
            },
            BuildSubmitOutcome::Pending {
                next_phase,
                ready_at,
            } => BuildSubmitOutcomeModel::Pending {
                next_phase: next_phase.deep_view(),
                ready_at: ready_at.deep_view(),
            },
        }
    }
}

impl View for BuildSubmitOutcome {
    type V = BuildSubmitOutcomeModel;

    open spec fn view(&self) -> BuildSubmitOutcomeModel {
        self.deep_view()
    }
}

impl Replicate for BuildSubmitOutcome {
    fn replicate(&self) -> (copy: Self) {
        match self {
            BuildSubmitOutcome::ImmediateSuccess {
                artifact_ref,
            } => BuildSubmitOutcome::ImmediateSuccess {
                artifact_ref: artifact_ref.replicate(),
            },
            BuildSubmitOutcome::Pending { next_phase, ready_at } => BuildSubmitOutcome::Pending {
                next_phase: next_phase.replicate(),
                ready_at: ready_at.replicate(),
            },
        }
    }
}

impl Clone for BuildSubmitOutcome {
    fn clone(&self) -> (copy: Self)
        ensures
            copy@ == self@,
    {
        self.replicate()
    }
}

/// How a build goes on.
#[derive(Debug, PartialEq, Eq)]
pub struct BuildPollOutcome {
    pub phase: BuildPhase,
    pub artifact_ref: Option<String>,
    pub error_code: Option<String>,
    pub error_detail: Option<String>,
}

/// What a [`BuildPollOutcome`] holds.
#[verifier::ext_equal]
pub struct BuildPollOutcomeModel {
    pub phase: BuildPhase,
    pub artifact_ref: Option<Seq<char>>,
    pub error_code: Option<Seq<char>>,
    pub error_detail: Option<Seq<char>>,
}

impl DeepView for BuildPollOutcome {
    type V = BuildPollOutcomeModel;

    open spec fn deep_view(&self) -> BuildPollOutcomeModel {
        BuildPollOutcomeModel {
            phase: self.phase.deep_view(),
            artifact_ref: self.artifact_ref.deep_view(),
            error_code: self.error_code.deep_view(),
            error_detail: self.error_detail.deep_view(),
        }
    }
}

impl View for BuildPollOutcome {
    type V = BuildPollOutcomeModel;

    open spec fn view(&self) -> BuildPollOutcomeModel {
        self.deep_view()
    }
}

impl Replicate for BuildPollOutcome {
    fn replicate(&self) -> (copy: Self) {
        BuildPollOutcome {
            phase: self.phase.replicate(),
            artifact_ref: self.artifact_ref.replicate(),
            error_code: self.error_code.replicate(),
            error_detail: self.error_detail.replicate(),
        }
    }
}

impl Clone for BuildPollOutcome {
    fn clone(&self) -> (copy: Self)
        ensures
            copy@ == self@,
    {
        self.replicate()
    }
}

/// How the build service takes on a build: an artifact that is there and cannot
/// change is done at once; a source is fetched, and the build is ready after half
/// its time, two seconds at least and ninety at most.
pub open spec fn submit_outcome(request: BuildSubmitRequestModel, now: u64) -> Result<
    BuildSubmitOutcomeModel,
    Seq<char>,
> {
    match request.artifact_ref {
        Some(artifact_ref) => match artifact_complaint(request.build_kind, artifact_ref) {
            Some(complaint) => Err(complaint),
            None => Ok(BuildSubmitOutcomeModel::ImmediateSuccess { artifact_ref }),
        },
        None => Ok(
            BuildSubmitOutcomeModel::Pending {
                next_phase: BuildPhase::FetchingSource,
                ready_at: capped_sum(now, clamped((request.timeout_sec / 2) as u64, 2, 90)),
            },
        ),
    }
}

/// The build service.
#[derive(Clone, Copy, Debug, PartialEq, Eq)]
pub struct DefaultBuildService;

impl DefaultBuildService {
    /// How the build service takes on a build.
    pub fn submit(&self, request: &BuildSubmitRequest, now: u64) -> (result: Result<
        BuildSubmitOutcome,
        String,
    >)
        ensures
            text_outcome(result) == submit_outcome(request@, now),
    {
        match &request.artifact_ref {
            Some(artifact_ref) => {
                if let Err(complaint) = ensure_immutable_artifact_ref(
                    request.build_kind,
                    artifact_ref.as_str(),
                ) {
                    return Err(complaint);
                }
                Ok(BuildSubmitOutcome::ImmediateSuccess { artifact_ref: artifact_ref.clone() })
            },
            None => {
                let half: u64 = request.timeout_sec / 2;
                let wait: u64 = if half < 2 {
                    2
                } else if half > 90 {
                    90
                } else {
                    half
                };
                Ok(
                    BuildSubmitOutcome::Pending {
                        next_phase: BuildPhase::FetchingSource,
                        ready_at: add_capped(now, wait),
                    },
                )
            },
        }
    }
}

/// A build that failed.
pub open spec fn failed_poll(code: Seq<char>, detail: Seq<char>) -> BuildPollOutcomeModel {
    BuildPollOutcomeModel {
        phase: BuildPhase::Failed,
        artifact_ref: None,
        error_code: Some(code),
        error_detail: Some(detail),
    }
}

/// The artifact with a digest.
pub open spec fn artifact_with_digest(kind: BuildKind, digest: Seq<char>) -> Seq<char> {
    match kind {
        BuildKind::Oci => "oci://builder-cache/pika-agent@sha256:"@ + digest,
        BuildKind::Nix => "nix://closure/"@ + digest,
    }
}

/// The artifact with a digest.
pub fn artifact_for_digest(kind: BuildKind, digest: &str) -> (artifact_ref: String)
    ensures
        artifact_ref@ == artifact_with_digest(kind, digest@),
{
    match kind {
        BuildKind::Oci => "oci://builder-cache/pika-agent@sha256:".to_owned().concat(digest),
        BuildKind::Nix => "nix://closure/".to_owned().concat(digest),
    }
}

/// How a build goes on, where `source` is where its source leads and `digest` that
/// of what it makes. One that came to its end, or that has no source, does not go
/// on. One that is past its deadline fails, and so does one whose source is none
/// or not admitted. One that is not ready is fetched and then built; one that is
/// ready has made its artifact.
pub open spec fn poll_with(
    build: BuildRecordModel,
    source: Result<ParsedSourceRefModel, Seq<char>>,
    digest: Seq<char>,
    now: u64,
    rules: Seq<SourceAllowRuleModel>,
) -> Option<BuildPollOutcomeModel> {
    let ready_at = match build.ready_at {
        Some(at) => at,
        None => build.deadline_at,
    };
    if phase_is_terminal(build.phase) {
        None
    } else if now >= build.deadline_at {
        Some(failed_poll("build_timeout"@, "build exceeded timeout"@))
    } else {
        match build.source_ref {
            None => None,
            Some(source_ref) => match source {
                Err(complaint) => Some(failed_poll("build_source_invalid"@, complaint)),
                Ok(source) => if !admitted(rules, source) {
                    Some(
                        failed_poll(
                            "build_source_not_allowed"@,
                            "source_ref is outside allowlist: "@ + source_ref,
                        ),
                    )
                } else if now < ready_at {
                    if build.phase == BuildPhase::FetchingSource {
                        Some(
                            BuildPollOutcomeModel {
                                phase: BuildPhase::Building,
                                artifact_ref: None,
                                error_code: None,
                                error_detail: None,
                            },
                        )
                    } else {
                        None
                    }
                } else {
                    Some(
                        BuildPollOutcomeModel {
                            phase: BuildPhase::Succeeded,
                            artifact_ref: Some(artifact_with_digest(build.build_kind, digest)),
                            error_code: None,
                            error_detail: None,
                        },
                    )
                },
            },
        }
    }
}

/// The digest of what a build from a source makes.
pub open spec fn build_digest(kind: BuildKind, source_ref: Seq<char>) -> Seq<char> {
    sha256_hex(encode_utf8(build_kind_text(kind) + ":"@ + source_ref))
}

/// How a build goes on.
pub open spec fn poll_outcome(
    build: BuildRecordModel,
    now: u64,
    rules: Seq<SourceAllowRuleModel>,
) -> Option<BuildPollOutcomeModel> {
    match build.source_ref {
        Some(source_ref) => poll_with(
            build,
            source_in(source_ref),
            build_digest(build.build_kind, source_ref),
            now,
            rules,
        ),
        None => poll_with(build, Err(Seq::empty()), Seq::empty(), now, rules),
    }
}

/// A build that failed.
fn fail_poll(code: &str, detail: &str) -> (outcome: BuildPollOutcome)
    ensures
        outcome@ == failed_poll(code@, detail@),
{
    BuildPollOutcome {
        phase: BuildPhase::Failed,
        artifact_ref: None,
        error_code: Some(code.to_owned()),
        error_detail: Some(detail.to_owned()),
    }
}

impl DefaultBuildService {
    /// How a build goes on, where `source` is where its source leads and `digest`
    /// that of what it makes.
    pub fn poll_with_source(
        &self,
        build: &BuildRecord,
        source: Result<ParsedSourceRef, String>,
        digest: &str,
        now: u64,
        allowed_source_rules: &Vec<SourceAllowRule>,
    ) -> (outcome: Option<BuildPollOutcome>)
        ensures
            outcome.deep_view() == poll_with(
                build@,
                text_outcome(source),
                digest@,
                now,
                allowed_source_rules.deep_view(),
            ),
    {
        if build.phase.is_terminal() {
            return None;
        }
        if now >= build.deadline_at {
            return Some(fail_poll("build_timeout", "build exceeded timeout"));
        }
        let source_ref = match &build.source_ref {
            Some(source_ref) => source_ref,
            None => {
                return None;
            },
        };
        let source = match source {
            Ok(source) => source,
            Err(complaint) => {
                return Some(fail_poll("build_source_invalid", complaint.as_str()));
            },
        };
        if !any_rule_matches(allowed_source_rules, &source) {
            return Some(
                fail_poll(
                    "build_source_not_allowed",
                    "source_ref is outside allowlist: ".to_owned().concat(
                        source_ref.as_str(),
                    ).as_str(),
                ),
            );
        }
        let ready_at: u64 = match build.ready_at {
            Some(at) => at,
            None => build.deadline_at,
        };
        if now < ready_at {
            if build.phase == BuildPhase::FetchingSource {
                return Some(
                    BuildPollOutcome {
                        phase: BuildPhase::Building,
                        artifact_ref: None,
                        error_code: None,
                        error_detail: None,
                    },
                );
            }
            return None;
        }
        Some(
            BuildPollOutcome {
                phase: BuildPhase::Succeeded,
                artifact_ref: Some(artifact_for_digest(build.build_kind, digest)),
                error_code: None,
                error_detail: None,
            },
        )
    }

    /// How a build goes on.
    pub fn poll(
        &self,
        build: &BuildRecord,
        now: u64,
        allowed_source_rules: &Vec<SourceAllowRule>,
    ) -> (outcome: Option<BuildPollOutcome>)
        ensures
            outcome.deep_view() == poll_outcome(build@, now, allowed_source_rules.deep_view()),
    {
        match &build.source_ref {
            Some(source_ref) => {
                let named = build_kind_name(build.build_kind).concat(":").concat(
                    source_ref.as_str(),
                );
                let digest = hash_hex(named.as_str().as_bytes());
                let source = parse_source_ref(source_ref.as_str());
                self.poll_with_source(build, source, digest.as_str(), now, allowed_source_rules)
            },
            None => {
                let none = String::new();
                proof {
                    assert(none@ =~= Seq::<char>::empty());
                }
                self.poll_with_source(
                    build,
                    Err(none.clone()),
                    none.as_str(),
                    now,
                    allowed_source_rules,
                )
            },
        }
    }
}

/// A build as the build service says it goes on.
pub open spec fn told(build: BuildRecordModel, outcome: Option<BuildPollOutcomeModel>) -> BuildRecordModel {
    match outcome {
        None => build,
        Some(o) => BuildRecordModel {
            phase: o.phase,
            artifact_ref: if o.artifact_ref is Some {
                o.artifact_ref
            } else {
                build.artifact_ref
            },
            error_code: o.error_code,
            error_detail: o.error_detail,
            ..build
        },
    }
}

/// A build that fails where it is past its deadline and has not come to its end.
pub open spec fn timed(build: BuildRecordModel, now: u64) -> BuildRecordModel {
    if now >= build.deadline_at && !phase_is_terminal(build.phase) {
        BuildRecordModel {
            phase: BuildPhase::Failed,
            error_code: Some("build_timeout"@),
            error_detail: Some("build exceeded timeout"@),
            ..build
        }
    } else {
        build
    }
}

/// Whether asking about a build changes it: the build service says something new,
/// or its time is over.
pub open spec fn moves_on(
    build: BuildRecordModel,
    outcome: Option<BuildPollOutcomeModel>,
    now: u64,
) -> bool {
    let after = told(build, outcome);
    after != build || (now >= build.deadline_at && !phase_is_terminal(after.phase))
}

/// A build after it was asked about: as the build service says, or timed out; one
/// that changed is stamped with the time.
pub open spec fn refreshed(
    build: BuildRecordModel,
    outcome: Option<BuildPollOutcomeModel>,
    now: u64,
) -> BuildRecordModel {
    if moves_on(build, outcome, now) {
        BuildRecordModel { updated_at: now, ..timed(told(build, outcome), now) }
    } else {
        build
    }
}

/// The artifact that a build leaves behind, where it succeeded with one.
pub open spec fn made_artifact(build: BuildRecordModel, now: u64, ttl_secs: u64) -> Option<
    ArtifactRecordModel,
> {
    if build.phase == BuildPhase::Succeeded && build.artifact_ref is Some {
        Some(
            ArtifactRecordModel {
                artifact_ref: build.artifact_ref->0,
                build_kind: build.build_kind,
                owner_pubkey_hex: build.owner_pubkey_hex,
                created_at: now,
                last_used_at: now,
                expires_at: capped_sum(now, ttl_secs),
                source_build_id: Some(build.build_id),
            },
        )
    } else {
        None
    }
}

/// The state with an artifact, where there is one.
pub open spec fn with_artifact(
    state: AgentControlStateModel,
    artifact: Option<ArtifactRecordModel>,
) -> AgentControlStateModel {
    match artifact {
        Some(a) => AgentControlStateModel {
            artifacts: state.artifacts.insert(a.artifact_ref, a),
            ..state
        },
        None => state,
    }
}

/// The state after a build was asked about.
pub open spec fn refreshed_state(
    state: AgentControlStateModel,
    build_id: Seq<char>,
    outcome: Option<BuildPollOutcomeModel>,
    now: u64,
    ttl_secs: u64,
) -> AgentControlStateModel {
    if !state.builds.contains_key(build_id) {
        state
    } else {
        let before = state.builds[build_id];
        let after = refreshed(before, outcome, now);
        if !moves_on(before, outcome, now) {
            state
        } else {
            with_artifact(
                AgentControlStateModel {
                    builds: state.builds.insert(after.build_id, after),
                    ..state
                },
                made_artifact(after, now, ttl_secs),
            )
        }
    }
}

/// The artifact that a build leaves behind.
fn artifact_of(build: &BuildRecord, now: u64, ttl_secs: u64) -> (artifact: Option<ArtifactRecord>)
    ensures
        artifact.deep_view() == made_artifact(build@, now, ttl_secs),
{
    if build.phase == BuildPhase::Succeeded {
        if let Some(artifact_ref) = &build.artifact_ref {
            return Some(
                ArtifactRecord {
                    artifact_ref: artifact_ref.clone(),
                    build_kind: build.build_kind,
                    owner_pubkey_hex: build.owner_pubkey_hex.clone(),
                    created_at: now,
                    last_used_at: now,
                    expires_at: add_capped(now, ttl_secs),
                    source_build_id: Some(build.build_id.clone()),
                },
            );
        }
    }
    None
}

/// The build that a requester asks for, where it is there and the requester's.
pub open spec fn own_build(
    service: AgentControlServiceModel,
    requester: Seq<char>,
    build_id: Seq<char>,
) -> Option<BuildRecordModel> {
    if service.state.builds.contains_key(build_id)
        && service.state.builds[build_id].owner_pubkey_hex == requester {
        Some(service.state.builds[build_id])
    } else {
        None
    }
}

/// The refusal of a build that is not there, or not the requester's.
pub open spec fn build_not_found(
    statuses: Seq<AgentControlStatusEnvelopeModel>,
    request_id: Seq<char>,
    build_id: Seq<char>,
) -> CommandOutcomeModel {
    refused(
        statuses,
        request_id,
        "build_not_found"@,
        Some("build id is unknown to this server"@),
        Some(build_id),
    )
}

/// The refusal of a build that is not there, or not the requester's.
pub fn refuse_build(
    statuses: Vec<AgentControlStatusEnvelope>,
    request_id: String,
    build_id: String,
) -> (outcome: CommandOutcome)
    ensures
        outcome@ == build_not_found(statuses.deep_view(), request_id@, build_id@),
{
    CommandOutcome::error(
        statuses,
        request_id,
        "build_not_found",
        Some("build id is unknown to this server".to_owned()),
        Some(build_id),
    )
}

/// The builds of a state that have not come to their end.
pub open spec fn active_builds(state: AgentControlStateModel) -> nat {
    listing_of::<String>(state.builds.dom()).filter(
        |id: Seq<char>| !phase_is_terminal(state.builds[id].phase),
    ).len()
}

/// The builds that a requester submitted in the last hour.
pub open spec fn recent_builds(state: AgentControlStateModel, requester: Seq<char>, now: u64) -> nat {
    listing_of::<String>(state.builds.dom()).filter(
        |id: Seq<char>|
            state.builds[id].owner_pubkey_hex == requester && state.builds[id].created_at
                >= capped_difference(now, 3600),
    ).len()
}

/// A build as it is first recorded.
pub open spec fn queued_build(
    build_id: Seq<char>,
    requester: Seq<char>,
    request: BuildSubmitRequestModel,
    now: u64,
) -> BuildRecordModel {
    BuildRecordModel {
        build_id,
        owner_pubkey_hex: requester,
        build_kind: request.build_kind,
        phase: BuildPhase::Queued,
        source_ref: request.source_ref,
        artifact_ref: request.artifact_ref,
        created_at: now,
        updated_at: now,
        deadline_at: capped_sum(now, request.timeout_sec),
        ready_at: None,
        context_bytes: request.context_bytes,
        timeout_sec: request.timeout_sec,
        error_code: None,
        error_detail: None,
        canceled_at: None,
    }
}

/// A build that was accepted and is to be handed to the build service.
#[derive(Debug, PartialEq, Eq)]
pub struct SubmitJob {
    pub requester: String,
    pub request_id: String,
    pub statuses: Vec<AgentControlStatusEnvelope>,
    pub request: BuildSubmitRequest,
    pub build: BuildRecord,
}

/// What a [`SubmitJob`] holds.
#[verifier::ext_equal]
pub struct SubmitJobModel {
    pub requester: Seq<char>,
    pub request_id: Seq<char>,
    pub statuses: Seq<AgentControlStatusEnvelopeModel>,
    pub request: BuildSubmitRequestModel,
    pub build: BuildRecordModel,
}

impl DeepView for SubmitJob {
    type V = SubmitJobModel;

    open spec fn deep_view(&self) -> SubmitJobModel {
        SubmitJobModel {
            requester: self.requester.deep_view(),
            request_id: self.request_id.deep_view(),
            statuses: self.statuses.deep_view(),
            request: self.request.deep_view(),
            build: self.build.deep_view(),
        }
    }
}

impl View for SubmitJob {
    type V = SubmitJobModel;

    open spec fn view(&self) -> SubmitJobModel {
        self.deep_view()
    }
}

impl Replicate for SubmitJob {
    fn replicate(&self) -> (copy: Self) {
        SubmitJob {
            requester: self.requester.replicate(),
            request_id: self.request_id.replicate(),
            statuses: self.statuses.replicate(),
            request: self.request.replicate(),
            build: self.build.replicate(),
        }
    }
}

impl Clone for SubmitJob {
    fn clone(&self) -> (copy: Self)
        ensures
            copy@ == self@,
    {
        self.replicate()
    }
}

/// What becomes of a submission: it is refused, or is to be written to disk and
/// handed on.
#[derive(Debug, PartialEq, Eq)]
pub enum SubmitStep {
    Refused(CommandOutcome),
    Accepted(SubmitJob),
}

/// What a [`SubmitStep`] holds.
#[verifier::ext_equal]
pub enum SubmitStepModel {
    Refused(CommandOutcomeModel),
    Accepted(SubmitJobModel),
}

impl DeepView for SubmitStep {
    type V = SubmitStepModel;

    open spec fn deep_view(&self) -> SubmitStepModel {
        match self {
            SubmitStep::Refused(a) => SubmitStepModel::Refused(a.deep_view()),
            SubmitStep::Accepted(a) => SubmitStepModel::Accepted(a.deep_view()),
        }
    }
}

impl View for SubmitStep {
    type V = SubmitStepModel;

    open spec fn view(&self) -> SubmitStepModel {
        self.deep_view()
    }
}

impl Replicate for SubmitStep {
    fn replicate(&self) -> (copy: Self) {
        match self {
            SubmitStep::Refused(a) => SubmitStep::Refused(a.replicate()),
            SubmitStep::Accepted(a) => SubmitStep::Accepted(a.replicate()),
        }
    }
}

impl Clone for SubmitStep {
    fn clone(&self) -> (copy: Self)
        ensures
            copy@ == self@,
    {
        self.replicate()
    }
}

/// The service with one more line in its audit log.
pub open spec fn service_audited(
    service: AgentControlServiceModel,
    now: u64,
    actor: Seq<char>,
    action: Seq<char>,
    outcome: Seq<char>,
    detail: JsonModel,
) -> AgentControlServiceModel {
    AgentControlServiceModel {
        state: audited(
            service.state,
            audit_event(now, actor, action, outcome, detail),
            service.build_policy.max_audit_entries as nat,
        ),
        ..service
    }
}

/// A count as JSON and as text.
pub open spec fn count_json(n: nat) -> JsonModel {
    JsonModel::UInt(n as u64)
}

/// Whether a submission leaves a trace: the requester may submit, and what they
/// submit makes sense.
pub open spec fn submission_recorded(
    service: AgentControlServiceModel,
    requester: Seq<char>,
    submit: SubmitBuildCommandModel,
) -> bool {
    allows(service.provision_policy, requester) && normalized_build(
        submit,
        service.build_policy,
        service.v2_flags.advanced_workload_enabled,
    ) is Ok
}

/// What taking up a submission comes to: the service afterwards, and the step.
pub open spec fn begun_submission(
    service: AgentControlServiceModel,
    requester: Seq<char>,
    request_id: Seq<char>,
    submit: SubmitBuildCommandModel,
    statuses: Seq<AgentControlStatusEnvelopeModel>,
    build_id: Seq<char>,
    now: u64,
) -> (AgentControlServiceModel, SubmitStepModel) {
    let policy = service.build_policy;
    if !allows(service.provision_policy, requester) {
        (service, SubmitStepModel::Refused(unauthorized(statuses, request_id, requester)))
    } else {
        match normalized_build(submit, policy, service.v2_flags.advanced_workload_enabled) {
            Err(r) => (
                service,
                SubmitStepModel::Refused(
                    refused(statuses, request_id, r.code, Some(r.hint), Some(r.detail)),
                ),
            ),
            Ok(request) => {
                let active = active_builds(service.state);
                let recent = recent_builds(service.state, requester, now);
                if active >= policy.max_active_builds {
                    (
                        service_audited(
                            service,
                            now,
                            requester,
                            "submit_build"@,
                            "denied_quota_active"@,
                            JsonModel::empty().with(
                                "max_active_builds"@,
                                count_json(policy.max_active_builds as nat),
                            ).with("active_builds"@, count_json(active)),
                        ),
                        SubmitStepModel::Refused(
                            refused(
                                statuses,
                                request_id,
                                "build_quota_exceeded"@,
                                Some("too many active builds on this server"@),
                                Some(
                                    "active_builds="@ + decimal_text(active)
                                        + ", max_active_builds="@ + decimal_text(
                                        policy.max_active_builds as nat,
                                    ),
                                ),
                            ),
                        ),
                    )
                } else if recent >= policy.max_submissions_per_hour {
                    (
                        service_audited(
                            service,
                            now,
                            requester,
                            "submit_build"@,
                            "denied_rate_limit"@,
                            JsonModel::empty().with(
                                "max_submissions_per_hour"@,
                                count_json(policy.max_submissions_per_hour as nat),
                            ).with("recent_submissions"@, count_json(recent)),
                        ),
                        SubmitStepModel::Refused(
                            refused(
                                statuses,
                                request_id,
                                "build_rate_limited"@,
                                Some("build submission quota exceeded for this requester"@),
                                Some(
                                    "recent_submissions="@ + decimal_text(recent)
                                        + ", max_submissions_per_hour="@ + decimal_text(
                                        policy.max_submissions_per_hour as nat,
                                    ),
                                ),
                            ),
                        ),
                    )
                } else {
                    let build = queued_build(build_id, requester, request, now);
                    (
                        service_audited(
                            AgentControlServiceModel {
                                state: AgentControlStateModel {
                                    builds: service.state.builds.insert(build_id, build),
                                    ..service.state
                                },
                                ..service
                            },
                            now,
                            requester,
                            "submit_build"@,
                            "accepted"@,
                            JsonModel::empty().with("build_id"@, JsonModel::Text(build_id)).with(
                                "build_kind"@,
                                JsonModel::Text(build_kind_text(build.build_kind)),
                            ).with("source_ref"@, JsonModel::optional_text(build.source_ref)).with(
                                "artifact_ref"@,
                                JsonModel::optional_text(build.artifact_ref),
                            ),
                        ),
                        SubmitStepModel::Accepted(
                            SubmitJobModel { requester, request_id, statuses, request, build },
                        ),
                    )
                }
            },
        }
    }
}

/// What a submission comes to that could not be written to disk: it is taken back.
pub open spec fn unpersisted_submission(
    service: AgentControlServiceModel,
    job: SubmitJobModel,
    error: Seq<char>,
    now: u64,
) -> (AgentControlServiceModel, CommandOutcomeModel) {
    (
        service_audited(
            AgentControlServiceModel {
                state: AgentControlStateModel {
                    builds: service.state.builds.remove(job.build.build_id),
                    ..service.state
                },
                ..service
            },
            now,
            job.requester,
            "submit_build"@,
            "state_persist_failed"@,
            JsonModel::empty().with("build_id"@, JsonModel::Text(job.build.build_id)).with(
                "error"@,
                JsonModel::Text(error),
            ),
        ),
        refused(
            job.statuses,
            job.request_id,
            "state_persist_failed"@,
            Some("failed to persist build submission"@),
            Some(error),
        ),
    )
}

/// A build as the build service took it on.
pub open spec fn submitted_build(
    build: BuildRecordModel,
    outcome: Result<BuildSubmitOutcomeModel, Seq<char>>,
    now: u64,
) -> BuildRecordModel {
    match outcome {
        Ok(BuildSubmitOutcomeModel::ImmediateSuccess { artifact_ref }) => BuildRecordModel {
            phase: BuildPhase::Succeeded,
            updated_at: now,
            artifact_ref: Some(artifact_ref),
            ..build
        },
        Ok(BuildSubmitOutcomeModel::Pending { next_phase, ready_at }) => BuildRecordModel {
            phase: next_phase,
            updated_at: now,
            ready_at: Some(ready_at),
            ..build
        },
        Err(error) => BuildRecordModel {
            phase: BuildPhase::Failed,
            updated_at: now,
            error_code: Some("build_submit_failed"@),
            error_detail: Some(error),
            ..build
        },
    }
}

/// What a submission comes to once the build service has answered; `at` is when
/// that is written to the audit log.
pub open spec fn concluded_submission(
    service: AgentControlServiceModel,
    job: SubmitJobModel,
    outcome: Result<BuildSubmitOutcomeModel, Seq<char>>,
    at: u64,
) -> (AgentControlServiceModel, CommandOutcomeModel) {
    let now = job.build.created_at;
    let build = submitted_build(job.build, outcome, now);
    let artifact = match outcome {
        Ok(BuildSubmitOutcomeModel::ImmediateSuccess { .. }) => Some(
            ArtifactRecordModel {
                artifact_ref: build.artifact_ref->0,
                build_kind: build.build_kind,
                owner_pubkey_hex: job.requester,
                created_at: now,
                last_used_at: now,
                expires_at: capped_sum(now, service.build_policy.artifact_ttl_secs),
                source_build_id: Some(build.build_id),
            },
        ),
        _ => None,
    };
    let failed = build.phase == BuildPhase::Failed;
    (
        service_audited(
            AgentControlServiceModel {
                state: with_artifact(
                    AgentControlStateModel {
                        builds: service.state.builds.insert(build.build_id, build),
                        ..service.state
                    },
                    artifact,
                ),
                ..service
            },
            at,
            job.requester,
            "submit_build"@,
            if failed {
                "failed"@
            } else {
                "ok"@
            },
            JsonModel::empty().with("build_id"@, JsonModel::Text(build.build_id)).with(
                "phase"@,
                JsonModel::Text(build_phase_text(build.phase)),
            ).with("artifact_ref"@, JsonModel::optional_text(build.artifact_ref)),
        ),
        if failed {
            refused(
                job.statuses,
                job.request_id,
                match build.error_code {
                    Some(code) => code,
                    None => "build_submit_failed"@,
                },
                Some("build submission was rejected"@),
                build.error_detail,
            )
        } else {
            answered(
                job.statuses,
                job.request_id,
                summary_descriptor(),
                JsonModel::empty().with("operation"@, JsonModel::Text("submit_build"@)).with(
                    "build"@,
                    build_json(build),
                ),
            )
        },
    )
}

/// A build that a requester asks about.
#[derive(Debug, PartialEq, Eq)]
pub struct BuildJob {
    pub requester: String,
    pub request_id: String,
    pub statuses: Vec<AgentControlStatusEnvelope>,
    pub build: BuildRecord,
}

/// What a [`BuildJob`] holds.
#[verifier::ext_equal]
pub struct BuildJobModel {
    pub requester: Seq<char>,
    pub request_id: Seq<char>,
    pub statuses: Seq<AgentControlStatusEnvelopeModel>,
    pub build: BuildRecordModel,
}

impl DeepView for BuildJob {
    type V = BuildJobModel;

    open spec fn deep_view(&self) -> BuildJobModel {
        BuildJobModel {
            requester: self.requester.deep_view(),
            request_id: self.request_id.deep_view(),
            statuses: self.statuses.deep_view(),
            build: self.build.deep_view(),
        }
    }
}

impl View for BuildJob {
    type V = BuildJobModel;

    open spec fn view(&self) -> BuildJobModel {
        self.deep_view()
    }
}

impl Replicate for BuildJob {
    fn replicate(&self) -> (copy: Self) {
        BuildJob {
            requester: self.requester.replicate(),
            request_id: self.request_id.replicate(),
            statuses: self.statuses.replicate(),
            build: self.build.replicate(),
        }
    }
}

impl Clone for BuildJob {
    fn clone(&self) -> (copy: Self)
        ensures
            copy@ == self@,
    {
        self.replicate()
    }
}

/// What asking about a build comes to at first: the build, or a refusal.
pub open spec fn begun_get_build(
    service: AgentControlServiceModel,
    requester: Seq<char>,
    request_id: Seq<char>,
    build_id: Seq<char>,
    statuses: Seq<AgentControlStatusEnvelopeModel>,
) -> Result<BuildJobModel, CommandOutcomeModel> {
    if !allows(service.provision_policy, requester) {
        Err(unauthorized(statuses, request_id, requester))
    } else {
        match own_build(service, requester, build_id) {
            Some(build) => Ok(BuildJobModel { requester, request_id, statuses, build }),
            None => Err(build_not_found(statuses, request_id, build_id)),
        }
    }
}

/// The state after a build moved on as the build service says.
pub open spec fn progressed(
    service: AgentControlServiceModel,
    build_id: Seq<char>,
    now: u64,
) -> AgentControlServiceModel {
    AgentControlServiceModel {
        state: refreshed_state(
            service.state,
            build_id,
            poll_outcome(
                service.state.builds[build_id],
                now,
                service.build_policy.allowed_source_rules,
            ),
            now,
            service.build_policy.artifact_ttl_secs,
        ),
        ..service
    }
}

/// Whether asking the build service about a build changes it.
pub open spec fn progress_made(
    service: AgentControlServiceModel,
    build_id: Seq<char>,
    now: u64,
) -> bool {
    service.state.builds.contains_key(build_id) && moves_on(
        service.state.builds[build_id],
        poll_outcome(
            service.state.builds[build_id],
            now,
            service.build_policy.allowed_source_rules,
        ),
        now,
    )
}

/// A build as it stands after the build service was asked.
pub open spec fn current_build(
    service: AgentControlServiceModel,
    build_id: Seq<char>,
    now: u64,
) -> Option<BuildRecordModel> {
    if service.state.builds.contains_key(build_id) {
        let build = service.state.builds[build_id];
        Some(
            refreshed(
                build,
                poll_outcome(build, now, service.build_policy.allowed_source_rules),
                now,
            ),
        )
    } else {
        None
    }
}

/// Whether asking about a build changes it: the requester may ask, the build is
/// theirs, and it moved on.
pub open spec fn got_build_progress(
    service: AgentControlServiceModel,
    requester: Seq<char>,
    build_id: Seq<char>,
    now: u64,
) -> bool {
    allows(service.provision_policy, requester) && match own_build(service, requester, build_id) {
        Some(own) => progress_made(service, own.build_id, now),
        None => false,
    }
}

/// What asking about a build comes to: the service afterwards, and the answer.
pub open spec fn got_build(
    service: AgentControlServiceModel,
    requester: Seq<char>,
    request_id: Seq<char>,
    build_id: Seq<char>,
    statuses: Seq<AgentControlStatusEnvelopeModel>,
    now: u64,
) -> (AgentControlServiceModel, CommandOutcomeModel) {
    match begun_get_build(service, requester, request_id, build_id, statuses) {
        Err(outcome) => (service, outcome),
        Ok(job) => (
            progressed(service, job.build.build_id, now),
            match current_build(service, job.build.build_id, now) {
                Some(build) if build.owner_pubkey_hex == requester => answered(
                    statuses,
                    request_id,
                    summary_descriptor(),
                    JsonModel::empty().with("operation"@, JsonModel::Text("get_build"@)).with(
                        "build"@,
                        build_json(build),
                    ),
                ),
                _ => build_not_found(statuses, request_id, build_id),
            },
        ),
    }
}

/// The answer to the cancellation of a build.
pub open spec fn cancel_answer(
    statuses: Seq<AgentControlStatusEnvelopeModel>,
    request_id: Seq<char>,
    build: BuildRecordModel,
    already_terminal: bool,
) -> CommandOutcomeModel {
    answered(
        statuses,
        request_id,
        summary_descriptor(),
        JsonModel::empty().with("operation"@, JsonModel::Text("cancel_build"@)).with(
            "build"@,
            build_json(build),
        ).with("already_terminal"@, JsonModel::Bool(already_terminal)),
    )
}

/// What cancelling a build comes to at first: the build to be cancelled, or an
/// answer. A build that has come to its end is answered as it is.
pub open spec fn begun_cancellation(
    service: AgentControlServiceModel,
    requester: Seq<char>,
    request_id: Seq<char>,
    build_id: Seq<char>,
    statuses: Seq<AgentControlStatusEnvelopeModel>,
) -> Result<BuildJobModel, CommandOutcomeModel> {
    match begun_get_build(service, requester, request_id, build_id, statuses) {
        Err(outcome) => Err(outcome),
        Ok(job) => if phase_is_terminal(job.build.phase) {
            Err(cancel_answer(statuses, request_id, job.build, true))
        } else {
            Ok(job)
        },
    }
}

/// A build that was cancelled.
pub open spec fn canceled_build(build: BuildRecordModel, now: u64) -> BuildRecordModel {
    BuildRecordModel {
        phase: BuildPhase::Canceled,
        updated_at: now,
        canceled_at: Some(now),
        error_code: Some("build_canceled"@),
        error_detail: Some("build canceled by requester"@),
        ..build
    }
}

/// What cancelling a build comes to once the build service has answered.
pub open spec fn concluded_cancellation(
    service: AgentControlServiceModel,
    job: BuildJobModel,
    result: Result<(), Seq<char>>,
    now: u64,
) -> (AgentControlServiceModel, CommandOutcomeModel) {
    match result {
        Err(error) => (
            service,
            refused(
                job.statuses,
                job.request_id,
                "build_cancel_failed"@,
                Some("build service failed to cancel build"@),
                Some(error),
            ),
        ),
        Ok(()) => {
            let build = canceled_build(job.build, now);
            (
                service_audited(
                    AgentControlServiceModel {
                        state: AgentControlStateModel {
                            builds: service.state.builds.insert(build.build_id, build),
                            ..service.state
                        },
                        ..service
                    },
                    now,
                    job.requester,
                    "cancel_build"@,
                    "ok"@,
                    JsonModel::empty().with("build_id"@, JsonModel::Text(build.build_id)),
                ),
                cancel_answer(job.statuses, job.request_id, build, false),
            )
        },
    }
}

impl DefaultBuildService {
    /// Whether a build can be cancelled: any can.
    pub fn cancel(&self, _build: &BuildRecord, _now: u64) -> (result: Result<(), String>)
        ensures
            result == Ok::<(), String>(()),
    {
        Ok(())
    }
}

/// The answer to the cancellation of a build.
fn answer_cancel(
    statuses: Vec<AgentControlStatusEnvelope>,
    request_id: String,
    build: &BuildRecord,
    already_terminal: bool,
) -> (answer: CommandOutcome)
    ensures
        answer@ == cancel_answer(statuses.deep_view(), request_id@, build@, already_terminal),
{
    CommandOutcome::result(
        statuses,
        request_id,
        default_list_summary_descriptor(),
        json_object().with("operation", json_text("cancel_build")).with(
            "build",
            json_of_build(build),
        ).with("already_terminal", json_bool(already_terminal)),
    )
}

/// The service after several builds were asked about, one after the other.
pub open spec fn all_progressed(
    service: AgentControlServiceModel,
    build_ids: Seq<Seq<char>>,
    now: u64,
) -> AgentControlServiceModel
    decreases build_ids.len(),
{
    if build_ids.len() == 0 {
        service
    } else {
        progressed(all_progressed(service, build_ids.drop_last(), now), build_ids.last(), now)
    }
}

impl AgentControlService {
    /// Takes over how a build goes on, as the build service says; gives the build,
    /// and whether anything changed.
    pub fn refresh_build(
        &mut self,
        build_id: &String,
        outcome: Option<BuildPollOutcome>,
        now: u64,
    ) -> (found: (Option<BuildRecord>, bool))
        ensures
            found.0.deep_view() == if old(self)@.state.builds.contains_key(build_id@) {
                Some(
                    refreshed(
                        old(self)@.state.builds[build_id@],
                        outcome.deep_view(),
                        now,
                    ),
                )
            } else {
                None
            },
            found.1 == (old(self)@.state.builds.contains_key(build_id@) && moves_on(
                old(self)@.state.builds[build_id@],
                outcome.deep_view(),
                now,
            )),
            final(self)@ == (AgentControlServiceModel {
                state: refreshed_state(
                    old(self)@.state,
                    build_id@,
                    outcome.deep_view(),
                    now,
                    old(self)@.build_policy.artifact_ttl_secs,
                ),
                ..old(self)@
            }),
    {
        let mut build = match self.state.builds.get(build_id) {
            Some(build) => build.replicate(),
            None => {
                return (None, false);
            },
        };
        let ghost before = build@;
        let ghost told_model = outcome.deep_view();
        let mut changed = false;
        if let Some(outcome) = outcome {
            if build.phase != outcome.phase {
                build.phase = outcome.phase;
                changed = true;
            }
            if outcome.artifact_ref.is_some() && !same_optional_text(
                &build.artifact_ref,
                &outcome.artifact_ref,
            ) {
                build.artifact_ref = outcome.artifact_ref;
                changed = true;
            }
            if !same_optional_text(&build.error_code, &outcome.error_code) {
                build.error_code = outcome.error_code;
                changed = true;
            }
            if !same_optional_text(&build.error_detail, &outcome.error_detail) {
                build.error_detail = outcome.error_detail;
                changed = true;
            }
        }
        proof {
            assert(build@ == told(before, told_model));
            assert(changed == (build@ != before));
        }
        if now >= build.deadline_at && !build.phase.is_terminal() {
            build.phase = BuildPhase::Failed;
            build.error_code = Some("build_timeout".to_owned());
            build.error_detail = Some("build exceeded timeout".to_owned());
            changed = true;
        }
        proof {
            assert(build@ == timed(told(before, told_model), now));
            assert(changed == moves_on(before, told_model, now));
        }
        if !changed {
            return (Some(build), false);
        }
        build.updated_at = now;
        proof {
            assert(build@ == refreshed(before, told_model, now));
        }
        let artifact = artifact_of(&build, now, self.build_policy.artifact_ttl_secs);
        self.state.builds.insert(build.build_id.clone(), build.replicate());
        if let Some(artifact) = artifact {
            self.state.artifacts.insert(artifact.artifact_ref.clone(), artifact);
        }
        (Some(build), true)
    }

    /// Asks the build service how a build goes on, and takes it over; gives the
    /// build, and whether anything changed.
    pub fn refresh_build_progress(&mut self, build_id: &String, now: u64) -> (found: (
        Option<BuildRecord>,
        bool,
    ))
        ensures
            found.0.deep_view() == current_build(old(self)@, build_id@, now),
            found.1 == progress_made(old(self)@, build_id@, now),
            !found.1 ==> final(self)@ == old(self)@,
            final(self)@ == progressed(old(self)@, build_id@, now),
    {
        let outcome = match self.state.builds.get(build_id) {
            Some(build) => DefaultBuildService.poll(
                build,
                now,
                &self.build_policy.allowed_source_rules,
            ),
            None => None,
        };
        self.refresh_build(build_id, outcome, now)
    }

    /// Writes one more line to the audit log.
    pub fn audit(&mut self, now: u64, actor: &str, action: &str, outcome: &str, detail: Json)
        ensures
            final(self)@ == service_audited(
                old(self)@,
                now,
                actor@,
                action@,
                outcome@,
                detail@,
            ),
    {
        self.state.push_audit_event(
            now,
            actor,
            action,
            outcome,
            detail,
            self.build_policy.max_audit_entries,
        );
    }

    /// The builds that a requester submitted in the last hour.
    pub fn recent_submissions(&self, requester_pubkey_hex: &str, now: u64) -> (count: usize)
        ensures
            count == recent_builds(self@.state, requester_pubkey_hex@, now),
    {
        let n: usize = self.state.builds.len();
        let since: u64 = subtract_capped(now, 3600);
        let ghost keys = self.state.builds.listing();
        let ghost recent = |id: Seq<char>|
            self@.state.builds[id].owner_pubkey_hex == requester_pubkey_hex@
                && self@.state.builds[id].created_at >= capped_difference(now, 3600);
        let mut count: usize = 0;
        let mut i: usize = 0;
        proof {
            reveal(Seq::filter);
            lemma_listing_of::<String>(keys, self@.state.builds.dom());
            assert(keys.take(0).filter(recent) =~= Seq::empty());
        }
        while i < n
            invariant
                i <= n == keys.len(),
                keys == self.state.builds.listing(),
                since == capped_difference(now, 3600),
                recent == (|id: Seq<char>|
                    self@.state.builds[id].owner_pubkey_hex == requester_pubkey_hex@
                        && self@.state.builds[id].created_at >= capped_difference(now, 3600)),
                count == keys.take(i as int).filter(recent).len(),
                count <= i,
            decreases n - i,
        {
            proof {
                assert(keys.take(i + 1) =~= keys.take(i as int).push(keys[i as int]));
                keys.take(i as int).lemma_filter_push(keys[i as int], recent);
            }
            let build = self.state.builds.value_at(i);
            if same_text(build.owner_pubkey_hex.as_str(), requester_pubkey_hex) && build.created_at
                >= since {
                count += 1;
            }
            i += 1;
        }
        proof {
            assert(keys.take(i as int) =~= keys);
        }
        count
    }

    /// Takes up a submission. The build has the given id and was submitted `now`.
    /// Says also whether anything is to be written down of it.
    pub fn begin_submit_build(
        &mut self,
        requester_pubkey_hex: &str,
        request_id: String,
        submit_build: &SubmitBuildCommand,
        statuses: Vec<AgentControlStatusEnvelope>,
        build_id: String,
        now: u64,
    ) -> (begun: (SubmitStep, bool))
        ensures
            (final(self)@, begun.0@) == begun_submission(
                old(self)@,
                requester_pubkey_hex@,
                request_id@,
                submit_build@,
                statuses.deep_view(),
                build_id@,
                now,
            ),
            begun.1 == submission_recorded(old(self)@, requester_pubkey_hex@, submit_build@),
            !begun.1 ==> final(self)@ == old(self)@,
    {
        if !self.provision_policy.is_allowed(requester_pubkey_hex) {
            return (
                SubmitStep::Refused(
                    refuse_unauthorized(statuses, request_id, requester_pubkey_hex),
                ),
                false,
            );
        }
        let request = match normalize_submit_build_command(
            submit_build,
            &self.build_policy,
            self.v2_flags.advanced_workload_enabled,
        ) {
            Ok(request) => request,
            Err(rejection) => {
                let refusal = CommandOutcome::error(
                    statuses,
                    request_id,
                    rejection.code.as_str(),
                    Some(rejection.hint),
                    Some(rejection.detail),
                );
                return (SubmitStep::Refused(refusal), false);
            },
        };
        let active: usize = self.state.pending_builds().len();
        let most_active: usize = self.build_policy.max_active_builds;
        if active >= most_active {
            self.audit(
                now,
                requester_pubkey_hex,
                "submit_build",
                "denied_quota_active",
                json_object().with("max_active_builds", json_uint(most_active as u64)).with(
                    "active_builds",
                    json_uint(active as u64),
                ),
            );
            let refusal = CommandOutcome::error(
                statuses,
                request_id,
                "build_quota_exceeded",
                Some("too many active builds on this server".to_owned()),
                Some(
                    "active_builds=".to_owned().concat(decimal(active as u64).as_str()).concat(
                        ", max_active_builds=",
                    ).concat(decimal(most_active as u64).as_str()),
                ),
            );
            return (SubmitStep::Refused(refusal), true);
        }
        let recent: usize = self.recent_submissions(requester_pubkey_hex, now);
        let most_recent: usize = self.build_policy.max_submissions_per_hour;
        if recent >= most_recent {
            self.audit(
                now,
                requester_pubkey_hex,
                "submit_build",
                "denied_rate_limit",
                json_object().with("max_submissions_per_hour", json_uint(most_recent as u64)).with(
                    "recent_submissions",
                    json_uint(recent as u64),
                ),
            );
            let refusal = CommandOutcome::error(
                statuses,
                request_id,
                "build_rate_limited",
                Some("build submission quota exceeded for this requester".to_owned()),
                Some(
                    "recent_submissions=".to_owned().concat(
                        decimal(recent as u64).as_str(),
                    ).concat(", max_submissions_per_hour=").concat(
                        decimal(most_recent as u64).as_str(),
                    ),
                ),
            );
            return (SubmitStep::Refused(refusal), true);
        }
        let build = BuildRecord {
            build_id: build_id.clone(),
            owner_pubkey_hex: requester_pubkey_hex.to_owned(),
            build_kind: request.build_kind,
            phase: BuildPhase::Queued,
            source_ref: request.source_ref.replicate(),
            artifact_ref: request.artifact_ref.replicate(),
            created_at: now,
            updated_at: now,
            deadline_at: add_capped(now, request.timeout_sec),
            ready_at: None,
            context_bytes: request.context_bytes,
            timeout_sec: request.timeout_sec,
            error_code: None,
            error_detail: None,
            canceled_at: None,
        };
        self.state.builds.insert(build_id.clone(), build.replicate());
        self.audit(
            now,
            requester_pubkey_hex,
            "submit_build",
            "accepted",
            json_object().with("build_id", json_text(build_id.as_str())).with(
                "build_kind",
                json_text(build_kind_name(build.build_kind).as_str()),
            ).with("source_ref", Json::optional_text(&build.source_ref)).with(
                "artifact_ref",
                Json::optional_text(&build.artifact_ref),
            ),
        );
        let job = SubmitJob {
            requester: requester_pubkey_hex.to_owned(),
            request_id,
            statuses,
            request,
            build,
        };
        (SubmitStep::Accepted(job), true)
    }

    /// Takes a submission back that could not be written to disk.
    pub fn submit_build_not_persisted(&mut self, job: SubmitJob, error: &str, now: u64) -> (outcome:
        CommandOutcome)
        ensures
            (final(self)@, outcome@) == unpersisted_submission(old(self)@, job@, error@, now),
    {
        self.state.builds.take(&job.build.build_id);
        self.audit(
            now,
            job.requester.as_str(),
            "submit_build",
            "state_persist_failed",
            json_object().with("build_id", json_text(job.build.build_id.as_str())).with(
                "error",
                json_text(error),
            ),
        );
        CommandOutcome::error(
            job.statuses,
            job.request_id,
            "state_persist_failed",
            Some("failed to persist build submission".to_owned()),
            Some(error.to_owned()),
        )
    }

    /// Answers a submission once the build service has.
    pub fn conclude_submit_build(
        &mut self,
        job: SubmitJob,
        submitted: Result<BuildSubmitOutcome, String>,
        at: u64,
    ) -> (outcome: CommandOutcome)
        ensures
            (final(self)@, outcome@) == concluded_submission(
                old(self)@,
                job@,
                text_outcome(submitted),
                at,
            ),
    {
        let now: u64 = job.build.created_at;
        let mut build = job.build.replicate();
        build.updated_at = now;
        match submitted {
            Ok(BuildSubmitOutcome::ImmediateSuccess { artifact_ref }) => {
                build.phase = BuildPhase::Succeeded;
                build.artifact_ref = Some(artifact_ref.clone());
                let artifact = ArtifactRecord {
                    artifact_ref: artifact_ref.clone(),
                    build_kind: build.build_kind,
                    owner_pubkey_hex: job.requester.clone(),
                    created_at: now,
                    last_used_at: now,
                    expires_at: add_capped(now, self.build_policy.artifact_ttl_secs),
                    source_build_id: Some(build.build_id.clone()),
                };
                self.state.artifacts.insert(artifact_ref, artifact);
            },
            Ok(BuildSubmitOutcome::Pending { next_phase, ready_at }) => {
                build.phase = next_phase;
                build.ready_at = Some(ready_at);
            },
            Err(error) => {
                build.phase = BuildPhase::Failed;
                build.error_code = Some("build_submit_failed".to_owned());
                build.error_detail = Some(error);
            },
        }
        self.state.builds.insert(build.build_id.clone(), build.replicate());
        let failed = build.phase == BuildPhase::Failed;
        self.audit(
            at,
            job.requester.as_str(),
            "submit_build",
            if failed {
                "failed"
            } else {
                "ok"
            },
            json_object().with("build_id", json_text(build.build_id.as_str())).with(
                "phase",
                json_text(build_phase_name(build.phase).as_str()),
            ).with("artifact_ref", Json::optional_text(&build.artifact_ref)),
        );
        if failed {
            let code = match &build.error_code {
                Some(code) => code.clone(),
                None => "build_submit_failed".to_owned(),
            };
            return CommandOutcome::error(
                job.statuses,
                job.request_id,
                code.as_str(),
                Some("build submission was rejected".to_owned()),
                build.error_detail,
            );
        }
        CommandOutcome::result(
            job.statuses,
            job.request_id,
            default_list_summary_descriptor(),
            json_object().with("operation", json_text("submit_build")).with(
                "build",
                json_of_build(&build),
            ),
        )
    }

    /// Hands a submission that was written to disk to the build service, and
    /// answers it.
    pub fn submit_build_persisted(&mut self, job: SubmitJob, at: u64) -> (outcome: CommandOutcome)
        ensures
            (final(self)@, outcome@) == concluded_submission(
                old(self)@,
                job@,
                submit_outcome(job@.request, job@.build.created_at),
                at,
            ),
    {
        let submitted = DefaultBuildService.submit(&job.request, job.build.created_at);
        self.conclude_submit_build(job, submitted, at)
    }

    /// The build that a requester asks about, or a refusal.
    fn begin_get_build(
        &self,
        requester_pubkey_hex: &str,
        request_id: String,
        build_id: &String,
        statuses: Vec<AgentControlStatusEnvelope>,
    ) -> (begun: Result<BuildJob, CommandOutcome>)
        ensures
            step_or_answer(begun) == begun_get_build(
                self@,
                requester_pubkey_hex@,
                request_id@,
                build_id@,
                statuses.deep_view(),
            ),
    {
        if !self.provision_policy.is_allowed(requester_pubkey_hex) {
            return Err(refuse_unauthorized(statuses, request_id, requester_pubkey_hex));
        }
        match self.state.builds.get(build_id) {
            Some(build) => {
                if same_text(build.owner_pubkey_hex.as_str(), requester_pubkey_hex) {
                    return Ok(
                        BuildJob {
                            requester: requester_pubkey_hex.to_owned(),
                            request_id,
                            statuses,
                            build: build.replicate(),
                        },
                    );
                }
            },
            None => {},
        }
        Err(refuse_build(statuses, request_id, build_id.clone()))
    }

    /// Answers who asks about a build; says also whether anything changed.
    pub fn handle_get_build(
        &mut self,
        requester_pubkey_hex: &str,
        request_id: String,
        build_id: &String,
        statuses: Vec<AgentControlStatusEnvelope>,
        now: u64,
    ) -> (answer: (CommandOutcome, bool))
        ensures
            (final(self)@, answer.0@) == got_build(
                old(self)@,
                requester_pubkey_hex@,
                request_id@,
                build_id@,
                statuses.deep_view(),
                now,
            ),
            answer.1 == got_build_progress(
                old(self)@,
                requester_pubkey_hex@,
                build_id@,
                now,
            ),
            !answer.1 ==> final(self)@ == old(self)@,
    {
        let job = match self.begin_get_build(requester_pubkey_hex, request_id, build_id, statuses) {
            Ok(job) => job,
            Err(refusal) => {
                return (refusal, false);
            },
        };
        let (found, changed) = self.refresh_build_progress(&job.build.build_id, now);
        if let Some(build) = found {
            if same_text(build.owner_pubkey_hex.as_str(), requester_pubkey_hex) {
                return (
                    CommandOutcome::result(
                        job.statuses,
                        job.request_id,
                        default_list_summary_descriptor(),
                        json_object().with("operation", json_text("get_build")).with(
                            "build",
                            json_of_build(&build),
                        ),
                    ),
                    changed,
                );
            }
        }
        (refuse_build(job.statuses, job.request_id, build_id.clone()), changed)
    }

    /// Takes up the cancellation of a build.
    pub fn begin_cancel_build(
        &self,
        requester_pubkey_hex: &str,
        request_id: String,
        build_id: &String,
        statuses: Vec<AgentControlStatusEnvelope>,
    ) -> (begun: Result<BuildJob, CommandOutcome>)
        ensures
            step_or_answer(begun) == begun_cancellation(
                self@,
                requester_pubkey_hex@,
                request_id@,
                build_id@,
                statuses.deep_view(),
            ),
    {
        let job = match self.begin_get_build(requester_pubkey_hex, request_id, build_id, statuses) {
            Ok(job) => job,
            Err(refusal) => {
                return Err(refusal);
            },
        };
        if job.build.phase.is_terminal() {
            return Err(answer_cancel(job.statuses, job.request_id, &job.build, true));
        }
        Ok(job)
    }

    /// Answers the cancellation of a build once the build service has.
    pub fn conclude_cancel_build(&mut self, job: BuildJob, canceled: Result<(), String>, now: u64) -> (answer:
        CommandOutcome)
        ensures
            (final(self)@, answer@) == concluded_cancellation(
                old(self)@,
                job@,
                text_outcome(canceled),
                now,
            ),
    {
        if let Err(error) = canceled {
            return CommandOutcome::error(
                job.statuses,
                job.request_id,
                "build_cancel_failed",
                Some("build service failed to cancel build".to_owned()),
                Some(error),
            );
        }
        let mut build = job.build;
        build.phase = BuildPhase::Canceled;
        build.updated_at = now;
        build.canceled_at = Some(now);
        build.error_code = Some("build_canceled".to_owned());
        build.error_detail = Some("build canceled by requester".to_owned());
        self.state.builds.insert(build.build_id.clone(), build.replicate());
        self.audit(
            now,
            job.requester.as_str(),
            "cancel_build",
            "ok",
            json_object().with("build_id", json_text(build.build_id.as_str())),
        );
        answer_cancel(job.statuses, job.request_id, &build, false)
    }

    /// Cancels a build; says also whether anything changed.
    pub fn handle_cancel_build(
        &mut self,
        requester_pubkey_hex: &str,
        request_id: String,
        build_id: &String,
        statuses: Vec<AgentControlStatusEnvelope>,
        now: u64,
    ) -> (answer: (CommandOutcome, bool))
        ensures
            match begun_cancellation(
                old(self)@,
                requester_pubkey_hex@,
                request_id@,
                build_id@,
                statuses.deep_view(),
            ) {
                Ok(job) => answer.1 && (final(self)@, answer.0@) == concluded_cancellation(
                    old(self)@,
                    job,
                    Ok(()),
                    now,
                ),
                Err(refusal) => !answer.1 && final(self)@ == old(self)@ && answer.0@ == refusal,
            },
    {
        match self.begin_cancel_build(requester_pubkey_hex, request_id, build_id, statuses) {
            Err(refusal) => (refusal, false),
            Ok(job) => {
                let canceled = DefaultBuildService.cancel(&job.build, now);
                (self.conclude_cancel_build(job, canceled, now), true)
            },
        }
    }

    /// Asks about every build that has not come to its end; says how many there
    /// were.
    pub fn reconcile_pending_builds_at(&mut self, now: u64) -> (count: usize)
        ensures
            count == active_builds(old(self)@.state),
            final(self)@ == all_progressed(
                old(self)@,
                listing_of::<String>(old(self)@.state.builds.dom()).filter(
                    |id: Seq<char>| !phase_is_terminal(old(self)@.state.builds[id].phase),
                ),
                now,
            ),
    {
        let ids = self.state.pending_builds();
        let ghost models = ids.deep_view();
        let mut i: usize = 0;
        proof {
            assert(models.take(0) =~= Seq::empty());
        }
        while i < ids.len()
            invariant
                i <= ids.len() == models.len(),
                models == ids.deep_view(),
                self@ == all_progressed(old(self)@, models.take(i as int), now),
            decreases ids.len() - i,
        {
            self.refresh_build_progress(&ids[i], now);
            proof {
                assert(models.take(i + 1).drop_last() =~= models.take(i as int));
                assert(models.take(i + 1).last() == ids[i as int]@);
            }
            i += 1;
        }
        proof {
            assert(models.take(i as int) =~= models);
        }
        ids.len()
    }
}

/// A build that has come to its end stays as it is, however often it is asked
/// about.
pub proof fn finished_build_stays(
    build: BuildRecordModel,
    rules: Seq<SourceAllowRuleModel>,
    now: u64,
)
    requires
        phase_is_terminal(build.phase),
    ensures
        refreshed(build, poll_outcome(build, now, rules), now) == build,
{
}

/// A build comes to its end when its time is over, and before that succeeds only
/// if its source is admitted and it is ready.
pub proof fn build_ends_in_time(
    build: BuildRecordModel,
    rules: Seq<SourceAllowRuleModel>,
    now: u64,
)
    requires
        !phase_is_terminal(build.phase),
    ensures
        ({
            let after = refreshed(build, poll_outcome(build, now, rules), now);
            &&& now >= build.deadline_at ==> after.phase == BuildPhase::Failed && after.error_code
                == Some("build_timeout"@)
            &&& after.phase == BuildPhase::Succeeded ==> now < build.deadline_at
                && build.source_ref is Some && source_in(build.source_ref->0) is Ok && admitted(
                rules,
                source_in(build.source_ref->0)->Ok_0,
            ) && (build.ready_at matches Some(at) ==> now >= at)
        }),
{
}

/// Somebody else's build is answered like one that is not there, and asking about
/// it changes nothing.
pub proof fn foreign_build_is_invisible(
    service: AgentControlServiceModel,
    requester: Seq<char>,
    request_id: Seq<char>,
    build_id: Seq<char>,
    statuses: Seq<AgentControlStatusEnvelopeModel>,
    now: u64,
)
    requires
        allows(service.provision_policy, requester),
        service.state.builds.contains_key(build_id),
        service.state.builds[build_id].owner_pubkey_hex != requester,
    ensures
        got_build(service, requester, request_id, build_id, statuses, now) == (
            service,
            build_not_found(statuses, request_id, build_id),
        ),
        begun_cancellation(service, requester, request_id, build_id, statuses) == Err::<
            BuildJobModel,
            CommandOutcomeModel,
        >(build_not_found(statuses, request_id, build_id)),
{
}

/// A submission is accepted only while there are fewer active builds than the
/// server takes and fewer recent submissions than the requester may make; one
/// that is refused adds no build.
pub proof fn quotas_hold(
    service: AgentControlServiceModel,
    requester: Seq<char>,
    request_id: Seq<char>,
    submit: SubmitBuildCommandModel,
    statuses: Seq<AgentControlStatusEnvelopeModel>,
    build_id: Seq<char>,
    now: u64,
)
    ensures
        ({
            let (after, step) = begun_submission(
                service,
                requester,
                request_id,
                submit,
                statuses,
                build_id,
                now,
            );
            &&& step is Accepted ==> active_builds(service.state)
                < service.build_policy.max_active_builds && recent_builds(
                service.state,
                requester,
                now,
            ) < service.build_policy.max_submissions_per_hour
            &&& step is Refused ==> after.state.builds == service.state.builds
                && after.state.artifacts == service.state.artifacts
        }),
{
}

/// A submission that could not be written to disk leaves no build behind.
pub proof fn unpersisted_submission_is_undone(
    service: AgentControlServiceModel,
    requester: Seq<char>,
    request_id: Seq<char>,
    submit: SubmitBuildCommandModel,
    statuses: Seq<AgentControlStatusEnvelopeModel>,
    build_id: Seq<char>,
    error: Seq<char>,
    now: u64,
)
    requires
        !service.state.builds.contains_key(build_id),
        begun_submission(
            service,
            requester,
            request_id,
            submit,
            statuses,
            build_id,
            now,
        ).1 is Accepted,
    ensures
        ({
            let (after, step) = begun_submission(
                service,
                requester,
                request_id,
                submit,
                statuses,
                build_id,
                now,
            );
            let undone = unpersisted_submission(after, step->Accepted_0, error, now).0;
            &&& undone.state.builds == service.state.builds
            &&& undone.state.artifacts == service.state.artifacts
            &&& undone.state.runtimes == service.state.runtimes
        }),
{
    let (after, step) = begun_submission(
        service,
        requester,
        request_id,
        submit,
        statuses,
        build_id,
        now,
    );
    let undone = unpersisted_submission(after, step->Accepted_0, error, now).0;
    assert(undone.state.builds =~= service.state.builds);
}

} // verus!
