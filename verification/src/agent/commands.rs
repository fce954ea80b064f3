//! How a command is handled: at once where that can be done, and otherwise as a
//! job that a provider, or the disk, is needed for.
use vstd::prelude::*;
use crate::agent::builds::{
    begun_cancellation, begun_submission, concluded_cancellation, concluded_submission, got_build,
    got_build_progress, submission_recorded, submit_outcome, unpersisted_submission, SubmitJob, SubmitJobModel, SubmitStep, SubmitStepModel,
};
use crate::agent::distribution::{
    distribution_answer, overrides_of, DistributionManifest, DistributionManifestModel,
};
use crate::agent::metadata::{RuntimeProfile, RuntimeProfileModel};
use crate::agent::policy::{
    allows, text_outcome, BuildPolicy, ProvisionPolicy, V2RolloutFlags,
    DEFAULT_BUILD_ARTIFACT_TTL_SECS,
};
use crate::agent::provision::{
    after_choice, begun_provision, choice_made_progress, cleaned_up, conclude_cleanup, conclude_provision,
    conclude_rollback, misfit, provision_answer, provisioned, provisioned_record, rollback_answer,
    rolled_back, workload_of, CleanupJob, CleanupJobModel, ProvisionJob, ProvisionJobModel,
    ProvisionStep, ProvisionStepModel, TakenJob, TakenJobModel,
};
use crate::agent::queries::{capabilities_json, list_answer, listed_runtimes, runtime_answer};
use crate::agent::service::{
    immediate_outcome, queued, runtime_visible, unauthorized, AgentControlService, AgentControlServiceModel,
};
use crate::agent::state::{
    artifact_gaps, build_gaps, lease_gaps, total, truncated, with_artifact_times, with_build_times,
    with_lease, AgentControlState, AgentControlStateModel,
};
use crate::agent::teardown::{
    begun_teardown, begun_welcome, conclude_process_welcome, conclude_teardown, failed_teardown,
    retry_after, teardown_answer, welcome_answer, with_runtime, RuntimeJob, RuntimeJobModel,
    TeardownJob, TeardownJobModel,
};
use crate::agent::types::{
    answered, summary_descriptor, AgentControlCmdEnvelope, AgentControlCmdEnvelopeModel,
    AgentControlCommand, AgentControlCommandModel, ArtifactRecordModel, BuildRecordModel,
    CommandOutcome, CommandOutcomeModel, Failure, FailureModel, ProviderKind, ProvisionedRuntime,
    ProvisionedRuntimeModel, RuntimeRecordModel,
};
use crate::collections::{listing_of, OrdMap, Replicate};
use crate::json::{Json, JsonModel};

verus! {

/// What a command is handled with: the time, what the providers offer, the length
/// of a lease, the distributions, and an id for a build, should one be submitted.
#[derive(Debug, PartialEq, Eq)]
pub struct CommandContext {
    pub now: u64,
    pub fly: RuntimeProfile,
    pub microvm: RuntimeProfile,
    pub ttl_secs: u64,
    pub manifests: OrdMap<String, DistributionManifest>,
    pub build_id: String,
}

/// What a [`CommandContext`] holds.
#[verifier::ext_equal]
pub struct CommandContextModel {
    pub now: u64,
    pub fly: RuntimeProfileModel,
    pub microvm: RuntimeProfileModel,
    pub ttl_secs: u64,
    pub manifests: Map<Seq<char>, DistributionManifestModel>,
    pub build_id: Seq<char>,
}

impl DeepView for CommandContext {
    type V = CommandContextModel;

    open spec fn deep_view(&self) -> CommandContextModel {
        CommandContextModel {
            now: self.now.deep_view(),
            fly: self.fly.deep_view(),
            microvm: self.microvm.deep_view(),
            ttl_secs: self.ttl_secs.deep_view(),
            manifests: self.manifests.deep_view(),
            build_id: self.build_id.deep_view(),
        }
    }
}

impl View for CommandContext {
    type V = CommandContextModel;

    open spec fn view(&self) -> CommandContextModel {
        self.deep_view()
    }
}

impl Replicate for CommandContext {
    fn replicate(&self) -> (copy: Self) {
        CommandContext {
            now: self.now.replicate(),
            fly: self.fly.replicate(),
            microvm: self.microvm.replicate(),
            ttl_secs: self.ttl_secs.replicate(),
            manifests: self.manifests.replicate(),
            build_id: self.build_id.replicate(),
        }
    }
}

impl Clone for CommandContext {
    fn clone(&self) -> (copy: Self)
        ensures
            copy@ == self@,
    {
        self.replicate()
    }
}

/// What a provider did that was asked for a runtime.
#[derive(Debug, PartialEq, Eq)]
pub enum ProvisionReply {
    Made(ProvisionedRuntime),
    Failed(String),
}

/// What a [`ProvisionReply`] holds.
#[verifier::ext_equal]
pub enum ProvisionReplyModel {
    Made(ProvisionedRuntimeModel),
    Failed(Seq<char>),
}

impl DeepView for ProvisionReply {
    type V = ProvisionReplyModel;

    open spec fn deep_view(&self) -> ProvisionReplyModel {
        match self {
            ProvisionReply::Made(a) => ProvisionReplyModel::Made(a.deep_view()),
            ProvisionReply::Failed(a) => ProvisionReplyModel::Failed(a.deep_view()),
        }
    }
}

impl View for ProvisionReply {
    type V = ProvisionReplyModel;

    open spec fn view(&self) -> ProvisionReplyModel {
        self.deep_view()
    }
}

impl Replicate for ProvisionReply {
    fn replicate(&self) -> (copy: Self) {
        match self {
            ProvisionReply::Made(a) => ProvisionReply::Made(a.replicate()),
            ProvisionReply::Failed(a) => ProvisionReply::Failed(a.replicate()),
        }
    }
}

impl Clone for ProvisionReply {
    fn clone(&self) -> (copy: Self)
        ensures
            copy@ == self@,
    {
        self.replicate()
    }
}

/// What a provider did that was asked to tear a runtime down.
#[derive(Debug, PartialEq, Eq)]
pub enum TeardownReply {
    Done(Json),
    Failed(Failure),
}

/// What a [`TeardownReply`] holds.
#[verifier::ext_equal]
pub enum TeardownReplyModel {
    Done(JsonModel),
    Failed(FailureModel),
}

impl DeepView for TeardownReply {
    type V = TeardownReplyModel;

    open spec fn deep_view(&self) -> TeardownReplyModel {
        match self {
            TeardownReply::Done(a) => TeardownReplyModel::Done(a.deep_view()),
            TeardownReply::Failed(a) => TeardownReplyModel::Failed(a.deep_view()),
        }
    }
}

impl View for TeardownReply {
    type V = TeardownReplyModel;

    open spec fn view(&self) -> TeardownReplyModel {
        self.deep_view()
    }
}

impl Replicate for TeardownReply {
    fn replicate(&self) -> (copy: Self) {
        match self {
            TeardownReply::Done(a) => TeardownReply::Done(a.replicate()),
            TeardownReply::Failed(a) => TeardownReply::Failed(a.replicate()),
        }
    }
}

impl Clone for TeardownReply {
    fn clone(&self) -> (copy: Self)
        ensures
            copy@ == self@,
    {
        self.replicate()
    }
}

/// What a provider did that was handed a welcome.
#[derive(Debug, PartialEq, Eq)]
pub enum WelcomeReply {
    Processed(Json),
    Failed(String),
}

/// What a [`WelcomeReply`] holds.
#[verifier::ext_equal]
pub enum WelcomeReplyModel {
    Processed(JsonModel),
    Failed(Seq<char>),
}

impl DeepView for WelcomeReply {
    type V = WelcomeReplyModel;

    open spec fn deep_view(&self) -> WelcomeReplyModel {
        match self {
            WelcomeReply::Processed(a) => WelcomeReplyModel::Processed(a.deep_view()),
            WelcomeReply::Failed(a) => WelcomeReplyModel::Failed(a.deep_view()),
        }
    }
}

impl View for WelcomeReply {
    type V = WelcomeReplyModel;

    open spec fn view(&self) -> WelcomeReplyModel {
        self.deep_view()
    }
}

impl Replicate for WelcomeReply {
    fn replicate(&self) -> (copy: Self) {
        match self {
            WelcomeReply::Processed(a) => WelcomeReply::Processed(a.replicate()),
            WelcomeReply::Failed(a) => WelcomeReply::Failed(a.replicate()),
        }
    }
}

impl Clone for WelcomeReply {
    fn clone(&self) -> (copy: Self)
        ensures
            copy@ == self@,
    {
        self.replicate()
    }
}

/// Whether the state was written to disk.
#[derive(Debug, PartialEq, Eq)]
pub enum SaveReply {
    Saved,
    Failed(String),
}

/// What a [`SaveReply`] holds.
#[verifier::ext_equal]
pub enum SaveReplyModel {
    Saved,
    Failed(Seq<char>),
}

impl DeepView for SaveReply {
    type V = SaveReplyModel;

    open spec fn deep_view(&self) -> SaveReplyModel {
        match self {
            SaveReply::Saved => SaveReplyModel::Saved,
            SaveReply::Failed(a) => SaveReplyModel::Failed(a.deep_view()),
        }
    }
}

impl View for SaveReply {
    type V = SaveReplyModel;

    open spec fn view(&self) -> SaveReplyModel {
        self.deep_view()
    }
}

impl Replicate for SaveReply {
    fn replicate(&self) -> (copy: Self) {
        match self {
            SaveReply::Saved => SaveReply::Saved,
            SaveReply::Failed(a) => SaveReply::Failed(a.replicate()),
        }
    }
}

impl Clone for SaveReply {
    fn clone(&self) -> (copy: Self)
        ensures
            copy@ == self@,
    {
        self.replicate()
    }
}

/// A runtime that could not be written to disk and was given up.
#[derive(Debug, PartialEq, Eq)]
pub struct RollbackJob {
    pub taken: TakenJob,
    pub error: String,
    pub rollback_error: Option<String>,
}

/// What a [`RollbackJob`] holds.
#[verifier::ext_equal]
pub struct RollbackJobModel {
    pub taken: TakenJobModel,
    pub error: Seq<char>,
    pub rollback_error: Option<Seq<char>>,
}

impl DeepView for RollbackJob {
    type V = RollbackJobModel;

    open spec fn deep_view(&self) -> RollbackJobModel {
        RollbackJobModel {
            taken: self.taken.deep_view(),
            error: self.error.deep_view(),
            rollback_error: self.rollback_error.deep_view(),
        }
    }
}

impl View for RollbackJob {
    type V = RollbackJobModel;

    open spec fn view(&self) -> RollbackJobModel {
        self.deep_view()
    }
}

impl Replicate for RollbackJob {
    fn replicate(&self) -> (copy: Self) {
        RollbackJob {
            taken: self.taken.replicate(),
            error: self.error.replicate(),
            rollback_error: self.rollback_error.replicate(),
        }
    }
}

impl Clone for RollbackJob {
    fn clone(&self) -> (copy: Self)
        ensures
            copy@ == self@,
    {
        self.replicate()
    }
}

/// A runtime that is torn down, or was; with what went wrong in writing to disk that
/// it is.
#[derive(Debug, PartialEq, Eq)]
pub struct TornDownJob {
    pub job: TeardownJob,
    pub payload: Json,
    pub transition_error: Option<String>,
}

/// What a [`TornDownJob`] holds.
#[verifier::ext_equal]
pub struct TornDownJobModel {
    pub job: TeardownJobModel,
    pub payload: JsonModel,
    pub transition_error: Option<Seq<char>>,
}

impl DeepView for TornDownJob {
    type V = TornDownJobModel;

    open spec fn deep_view(&self) -> TornDownJobModel {
        TornDownJobModel {
            job: self.job.deep_view(),
            payload: self.payload.deep_view(),
            transition_error: self.transition_error.deep_view(),
        }
    }
}

impl View for TornDownJob {
    type V = TornDownJobModel;

    open spec fn view(&self) -> TornDownJobModel {
        self.deep_view()
    }
}

impl Replicate for TornDownJob {
    fn replicate(&self) -> (copy: Self) {
        TornDownJob {
            job: self.job.replicate(),
            payload: self.payload.replicate(),
            transition_error: self.transition_error.replicate(),
        }
    }
}

impl Clone for TornDownJob {
    fn clone(&self) -> (copy: Self)
        ensures
            copy@ == self@,
    {
        self.replicate()
    }
}

/// A runtime that its provider is to tear down.
#[derive(Debug, PartialEq, Eq)]
pub struct TearingDownJob {
    pub job: TeardownJob,
    pub transition_error: Option<String>,
}

/// What a [`TearingDownJob`] holds.
#[verifier::ext_equal]
pub struct TearingDownJobModel {
    pub job: TeardownJobModel,
    pub transition_error: Option<Seq<char>>,
}

impl DeepView for TearingDownJob {
    type V = TearingDownJobModel;

    open spec fn deep_view(&self) -> TearingDownJobModel {
        TearingDownJobModel {
            job: self.job.deep_view(),
            transition_error: self.transition_error.deep_view(),
        }
    }
}

impl View for TearingDownJob {
    type V = TearingDownJobModel;

    open spec fn view(&self) -> TearingDownJobModel {
        self.deep_view()
    }
}

impl Replicate for TearingDownJob {
    fn replicate(&self) -> (copy: Self) {
        TearingDownJob {
            job: self.job.replicate(),
            transition_error: self.transition_error.replicate(),
        }
    }
}

impl Clone for TearingDownJob {
    fn clone(&self) -> (copy: Self)
        ensures
            copy@ == self@,
    {
        self.replicate()
    }
}

/// What is to be done next about a command. Where the state is to be saved, it is to
/// be written to disk.
#[derive(Debug, PartialEq, Eq)]
pub enum CommandStep {
    /// It was answered before it was looked at: nothing is kept of the answer.
    Settled(CommandOutcome),
    /// It is answered.
    Done(CommandOutcome),
    /// A provider is to be asked for a runtime.
    Provision(ProvisionJob),
    /// A provider is to tear down what does not fit.
    CleanUp(CleanupJob),
    /// The state with a new runtime is to be saved.
    SaveRuntime(TakenJob),
    /// The state without the runtime that was given up is to be saved.
    SaveRollback(RollbackJob),
    /// A provider is to tear down the runtime that was given up.
    TearDownRollback(RollbackJob),
    /// A provider is to be handed a welcome.
    Welcome(RuntimeJob),
    /// The state with a runtime on its way out is to be saved.
    SaveTeardown(TeardownJob),
    /// A provider is to tear a runtime down.
    TearDown(TearingDownJob),
    /// The state with a runtime that was torn down is to be saved.
    SaveTornDown(TornDownJob),
    /// The state with a new build is to be saved.
    SaveSubmission(SubmitJob),
}

/// What a [`CommandStep`] holds.
#[verifier::ext_equal]
pub enum CommandStepModel {
    Settled(CommandOutcomeModel),
    Done(CommandOutcomeModel),
    Provision(ProvisionJobModel),
    CleanUp(CleanupJobModel),
    SaveRuntime(TakenJobModel),
    SaveRollback(RollbackJobModel),
    TearDownRollback(RollbackJobModel),
    Welcome(RuntimeJobModel),
    SaveTeardown(TeardownJobModel),
    TearDown(TearingDownJobModel),
    SaveTornDown(TornDownJobModel),
    SaveSubmission(SubmitJobModel),
}

impl DeepView for CommandStep {
    type V = CommandStepModel;

    open spec fn deep_view(&self) -> CommandStepModel {
        match self {
            CommandStep::Settled(a) => CommandStepModel::Settled(a.deep_view()),
            CommandStep::Done(a) => CommandStepModel::Done(a.deep_view()),
            CommandStep::Provision(a) => CommandStepModel::Provision(a.deep_view()),
            CommandStep::CleanUp(a) => CommandStepModel::CleanUp(a.deep_view()),
            CommandStep::SaveRuntime(a) => CommandStepModel::SaveRuntime(a.deep_view()),
            CommandStep::SaveRollback(a) => CommandStepModel::SaveRollback(a.deep_view()),
            CommandStep::TearDownRollback(a) => CommandStepModel::TearDownRollback(a.deep_view()),
            CommandStep::Welcome(a) => CommandStepModel::Welcome(a.deep_view()),
            CommandStep::SaveTeardown(a) => CommandStepModel::SaveTeardown(a.deep_view()),
            CommandStep::TearDown(a) => CommandStepModel::TearDown(a.deep_view()),
            CommandStep::SaveTornDown(a) => CommandStepModel::SaveTornDown(a.deep_view()),
            CommandStep::SaveSubmission(a) => CommandStepModel::SaveSubmission(a.deep_view()),
        }
    }
}

impl View for CommandStep {
    type V = CommandStepModel;

    open spec fn view(&self) -> CommandStepModel {
        self.deep_view()
    }
}

impl Replicate for CommandStep {
    fn replicate(&self) -> (copy: Self) {
        match self {
            CommandStep::Settled(a) => CommandStep::Settled(a.replicate()),
            CommandStep::Done(a) => CommandStep::Done(a.replicate()),
            CommandStep::Provision(a) => CommandStep::Provision(a.replicate()),
            CommandStep::CleanUp(a) => CommandStep::CleanUp(a.replicate()),
            CommandStep::SaveRuntime(a) => CommandStep::SaveRuntime(a.replicate()),
            CommandStep::SaveRollback(a) => CommandStep::SaveRollback(a.replicate()),
            CommandStep::TearDownRollback(a) => CommandStep::TearDownRollback(a.replicate()),
            CommandStep::Welcome(a) => CommandStep::Welcome(a.replicate()),
            CommandStep::SaveTeardown(a) => CommandStep::SaveTeardown(a.replicate()),
            CommandStep::TearDown(a) => CommandStep::TearDown(a.replicate()),
            CommandStep::SaveTornDown(a) => CommandStep::SaveTornDown(a.replicate()),
            CommandStep::SaveSubmission(a) => CommandStep::SaveSubmission(a.replicate()),
        }
    }
}

impl Clone for CommandStep {
    fn clone(&self) -> (copy: Self)
        ensures
            copy@ == self@,
    {
        self.replicate()
    }
}

/// What was done about a command.
#[derive(Debug, PartialEq, Eq)]
pub enum StepEvent {
    Provisioned { runtime_id: String, reply: ProvisionReply, ttl_secs: u64 },
    TornDown(TeardownReply),
    Welcomed(WelcomeReply),
    Saved(SaveReply),
}

/// What a [`StepEvent`] holds.
#[verifier::ext_equal]
pub enum StepEventModel {
    Provisioned { runtime_id: Seq<char>, reply: ProvisionReplyModel, ttl_secs: u64 },
    TornDown(TeardownReplyModel),
    Welcomed(WelcomeReplyModel),
    Saved(SaveReplyModel),
}

impl DeepView for StepEvent {
    type V = StepEventModel;

    open spec fn deep_view(&self) -> StepEventModel {
        match self {
            StepEvent::Provisioned { runtime_id, reply, ttl_secs } => StepEventModel::Provisioned {
                runtime_id: runtime_id.deep_view(),
                reply: reply.deep_view(),
                ttl_secs: ttl_secs.deep_view(),
            },
            StepEvent::TornDown(a) => StepEventModel::TornDown(a.deep_view()),
            StepEvent::Welcomed(a) => StepEventModel::Welcomed(a.deep_view()),
            StepEvent::Saved(a) => StepEventModel::Saved(a.deep_view()),
        }
    }
}

impl View for StepEvent {
    type V = StepEventModel;

    open spec fn view(&self) -> StepEventModel {
        self.deep_view()
    }
}

impl Replicate for StepEvent {
    fn replicate(&self) -> (copy: Self) {
        match self {
            StepEvent::Provisioned { runtime_id, reply, ttl_secs } => StepEvent::Provisioned {
                runtime_id: runtime_id.replicate(),
                reply: reply.replicate(),
                ttl_secs: ttl_secs.replicate(),
            },
            StepEvent::TornDown(a) => StepEvent::TornDown(a.replicate()),
            StepEvent::Welcomed(a) => StepEvent::Welcomed(a.replicate()),
            StepEvent::Saved(a) => StepEvent::Saved(a.replicate()),
        }
    }
}

impl Clone for StepEvent {
    fn clone(&self) -> (copy: Self)
        ensures
            copy@ == self@,
    {
        self.replicate()
    }
}

/// What a provider offers.
pub open spec fn profile_of(context: CommandContextModel, provider: ProviderKind) -> RuntimeProfileModel {
    match provider {
        ProviderKind::Fly => context.fly,
        ProviderKind::Microvm => context.microvm,
    }
}

/// The step for what was begun.
pub open spec fn provision_step(begun: Result<ProvisionJobModel, CommandOutcomeModel>) -> CommandStepModel {
    match begun {
        Ok(job) => CommandStepModel::Provision(job),
        Err(outcome) => CommandStepModel::Done(outcome),
    }
}

/// The step for what was begun.
pub open spec fn welcome_step(begun: Result<RuntimeJobModel, CommandOutcomeModel>) -> CommandStepModel {
    match begun {
        Ok(job) => CommandStepModel::Welcome(job),
        Err(outcome) => CommandStepModel::Done(outcome),
    }
}

/// The step for what was begun.
pub open spec fn teardown_step(begun: Result<TeardownJobModel, CommandOutcomeModel>) -> CommandStepModel {
    match begun {
        Ok(job) => CommandStepModel::SaveTeardown(job),
        Err(outcome) => CommandStepModel::Done(outcome),
    }
}

/// The step for what was begun.
pub open spec fn submit_step(begun: SubmitStepModel) -> CommandStepModel {
    match begun {
        SubmitStepModel::Accepted(job) => CommandStepModel::SaveSubmission(job),
        SubmitStepModel::Refused(outcome) => CommandStepModel::Done(outcome),
    }
}

/// What handling a command that is looked at comes to: the service afterwards, and
/// the step.
pub open spec fn dispatched(
    service: AgentControlServiceModel,
    requester: Seq<char>,
    cmd: AgentControlCmdEnvelopeModel,
    context: CommandContextModel,
) -> (AgentControlServiceModel, CommandStepModel) {
    let id = cmd.request_id;
    let statuses = queued(id);
    match cmd.command {
        AgentControlCommandModel::Provision(provision) => (
            after_choice(service, requester, provision, workload_of(provision), context.now),
            provision_step(
                begun_provision(
                    service,
                    requester,
                    id,
                    provision,
                    workload_of(provision),
                    statuses,
                    profile_of(context, provision.provider),
                    context.now,
                ),
            ),
        ),
        AgentControlCommandModel::ProcessWelcome { runtime_id } => (
            service,
            welcome_step(begun_welcome(service, requester, id, runtime_id, statuses)),
        ),
        AgentControlCommandModel::Teardown { runtime_id } => {
            let (after, begun) = begun_teardown(
                service,
                requester,
                id,
                runtime_id,
                statuses,
                context.now,
            );
            (after, teardown_step(begun))
        },
        AgentControlCommandModel::GetRuntime { runtime_id } => (
            service,
            CommandStepModel::Done(runtime_answer(service, requester, id, runtime_id, statuses)),
        ),
        AgentControlCommandModel::ListRuntimes(list) => (
            service,
            CommandStepModel::Done(
                list_answer(id, statuses, listed_runtimes(service, requester, list)),
            ),
        ),
        AgentControlCommandModel::GetCapabilities => (
            service,
            CommandStepModel::Done(
                if allows(service.provision_policy, requester) {
                    answered(
                        statuses,
                        id,
                        summary_descriptor(),
                        capabilities_json(service, context.fly, context.microvm, context.ttl_secs),
                    )
                } else {
                    unauthorized(statuses, id, requester)
                },
            ),
        ),
        AgentControlCommandModel::ResolveDistribution(resolve) => (
            service,
            CommandStepModel::Done(
                distribution_answer(
                    service,
                    context.manifests,
                    requester,
                    id,
                    resolve,
                    overrides_of(resolve),
                    statuses,
                ),
            ),
        ),
        AgentControlCommandModel::SubmitBuild(submit) => {
            let (after, begun) = begun_submission(
                service,
                requester,
                id,
                submit,
                statuses,
                context.build_id,
                context.now,
            );
            (after, submit_step(begun))
        },
        AgentControlCommandModel::GetBuild { build_id } => {
            let (after, outcome) = got_build(
                service,
                requester,
                id,
                build_id,
                statuses,
                context.now,
            );
            (after, CommandStepModel::Done(outcome))
        },
        AgentControlCommandModel::CancelBuild { build_id } => match begun_cancellation(
            service,
            requester,
            id,
            build_id,
            statuses,
        ) {
            Ok(job) => {
                let (after, outcome) = concluded_cancellation(service, job, Ok(()), context.now);
                (after, CommandStepModel::Done(outcome))
            },
            Err(outcome) => (service, CommandStepModel::Done(outcome)),
        },
    }
}

/// What handling a command comes to: one that can be answered before it is looked
/// at is.
pub open spec fn handled(
    service: AgentControlServiceModel,
    requester: Seq<char>,
    cmd: AgentControlCmdEnvelopeModel,
    context: CommandContextModel,
) -> (AgentControlServiceModel, CommandStepModel) {
    match immediate_outcome(service, requester, cmd) {
        Some(outcome) => (service, CommandStepModel::Settled(outcome)),
        None => dispatched(service, requester, cmd, context),
    }
}

/// Whether handling a command leaves something to write to disk: a build moved on, a
/// teardown was taken up, a submission was recorded, or a build was canceled.
pub open spec fn saves(
    service: AgentControlServiceModel,
    requester: Seq<char>,
    cmd: AgentControlCmdEnvelopeModel,
    context: CommandContextModel,
) -> bool {
    immediate_outcome(service, requester, cmd) is None && match cmd.command {
        AgentControlCommandModel::Provision(provision) => choice_made_progress(
            service,
            requester,
            provision,
            workload_of(provision),
            context.now,
        ),
        AgentControlCommandModel::Teardown { runtime_id } => runtime_visible(
            service,
            requester,
            runtime_id,
        ),
        AgentControlCommandModel::SubmitBuild(submit) => submission_recorded(
            service,
            requester,
            submit,
        ),
        AgentControlCommandModel::GetBuild { build_id } => got_build_progress(
            service,
            requester,
            build_id,
            context.now,
        ),
        AgentControlCommandModel::CancelBuild { build_id } => begun_cancellation(
            service,
            requester,
            cmd.request_id,
            build_id,
            queued(cmd.request_id),
        ) is Ok,
        _ => false,
    }
}

/// The state as a service begins with it: no more answers than are kept, and no
/// gaps in the times of runtimes, builds and artifacts.
pub open spec fn opened(
    state: AgentControlStateModel,
    idempotency_max_entries: usize,
    now: u64,
    ttl_secs: u64,
) -> AgentControlStateModel {
    let kept = truncated(state, idempotency_max_entries as nat);
    AgentControlStateModel {
        runtimes: kept.runtimes.map_values(|r: RuntimeRecordModel| with_lease(r, now, ttl_secs)),
        builds: kept.builds.map_values(|b: BuildRecordModel| with_build_times(b, now)),
        artifacts: kept.artifacts.map_values(
            |a: ArtifactRecordModel| with_artifact_times(a, now, DEFAULT_BUILD_ARTIFACT_TTL_SECS),
        ),
        ..kept
    }
}

impl AgentControlService {
    /// A service that begins with a state that was read from disk. Says also how
    /// many gaps in the times of runtimes, and of builds and artifacts, were
    /// filled.
    pub fn open(
        state: AgentControlState,
        provision_policy: ProvisionPolicy,
        v2_flags: V2RolloutFlags,
        build_policy: BuildPolicy,
        idempotency_max_entries: usize,
        now: u64,
        ttl_secs: u64,
    ) -> (started: (Self, usize, usize))
        requires
            2 * state@.runtimes.dom().len() <= usize::MAX,
            3 * state@.builds.dom().len() + 2 * state@.artifacts.dom().len() <= usize::MAX,
        ensures
            started.0@ == (AgentControlServiceModel {
                state: opened(state@, idempotency_max_entries, now, ttl_secs),
                provision_policy: provision_policy@,
                v2_flags: v2_flags@,
                build_policy: build_policy@,
                idempotency_max_entries,
            }),
            started.1 == total(
                state@.runtimes,
                listing_of::<String>(state@.runtimes.dom()),
                |r: RuntimeRecordModel| lease_gaps(r, now),
            ),
            started.2 == total(
                state@.builds,
                listing_of::<String>(state@.builds.dom()),
                |b: BuildRecordModel| build_gaps(b),
            ) + total(
                state@.artifacts,
                listing_of::<String>(state@.artifacts.dom()),
                |a: ArtifactRecordModel| artifact_gaps(a),
            ),
    {
        let mut state = state;
        let ghost begun = state@;
        state.truncate_idempotency(idempotency_max_entries);
        proof {
            lemma_truncated_keeps_records(begun, idempotency_max_entries as nat);
        }
        let leases: usize = state.ensure_runtime_lease_fields(now, ttl_secs);
        let builds: usize = state.ensure_v2_build_fields(now, DEFAULT_BUILD_ARTIFACT_TTL_SECS);
        let service = AgentControlService {
            state,
            provision_policy,
            v2_flags,
            build_policy,
            idempotency_max_entries,
        };
        (service, leases, builds)
    }

    /// Handles a command as far as that can be done without a provider or the
    /// disk. Says also whether there is something to write to disk.
    pub fn handle_command(
        &mut self,
        requester_pubkey_hex: &str,
        cmd: &AgentControlCmdEnvelope,
        context: &CommandContext,
    ) -> (handled: (CommandStep, bool))
        ensures
            (final(self)@, handled.0@) == self::handled(
                old(self)@,
                requester_pubkey_hex@,
                cmd@,
                context@,
            ),
            handled.1 == saves(old(self)@, requester_pubkey_hex@, cmd@, context@),
            !handled.1 ==> final(self)@ == old(self)@,
    {
        let statuses = match self.begin_command(requester_pubkey_hex, cmd) {
            Ok(statuses) => statuses,
            Err(outcome) => {
                return (CommandStep::Settled(outcome), false);
            },
        };
        let id = cmd.request_id.clone();
        match &cmd.command {
            AgentControlCommand::Provision(provision) => {
                let profile = match provision.provider {
                    ProviderKind::Fly => &context.fly,
                    ProviderKind::Microvm => &context.microvm,
                };
                let (begun, changed) = self.begin_provision(
                    requester_pubkey_hex,
                    id,
                    provision,
                    statuses,
                    profile,
                    context.now,
                );
                match begun {
                    Ok(job) => (CommandStep::Provision(job), changed),
                    Err(outcome) => (CommandStep::Done(outcome), changed),
                }
            },
            AgentControlCommand::ProcessWelcome { runtime_id } => {
                match self.begin_process_welcome(requester_pubkey_hex, id, runtime_id, statuses) {
                    Ok(job) => (CommandStep::Welcome(job), false),
                    Err(outcome) => (CommandStep::Done(outcome), false),
                }
            },
            AgentControlCommand::Teardown { runtime_id } => {
                match self.begin_teardown(
                    requester_pubkey_hex,
                    id,
                    runtime_id,
                    statuses,
                    context.now,
                ) {
                    Ok(job) => (CommandStep::SaveTeardown(job), true),
                    Err(outcome) => (CommandStep::Done(outcome), false),
                }
            },
            AgentControlCommand::GetRuntime { runtime_id } => (
                CommandStep::Done(
                    self.handle_get_runtime(requester_pubkey_hex, id, runtime_id, statuses),
                ),
                false,
            ),
            AgentControlCommand::ListRuntimes(list) => (
                CommandStep::Done(
                    self.handle_list_runtimes(requester_pubkey_hex, id, list, statuses),
                ),
                false,
            ),
            AgentControlCommand::GetCapabilities => (
                CommandStep::Done(
                    self.handle_get_capabilities(
                        requester_pubkey_hex,
                        id,
                        statuses,
                        &context.fly,
                        &context.microvm,
                        context.ttl_secs,
                    ),
                ),
                false,
            ),
            AgentControlCommand::ResolveDistribution(resolve) => (
                CommandStep::Done(
                    self.handle_resolve_distribution(
                        &context.manifests,
                        requester_pubkey_hex,
                        id,
                        resolve,
                        statuses,
                    ),
                ),
                false,
            ),
            AgentControlCommand::SubmitBuild(submit) => {
                let (begun, recorded) = self.begin_submit_build(
                    requester_pubkey_hex,
                    id,
                    submit,
                    statuses,
                    context.build_id.clone(),
                    context.now,
                );
                match begun {
                    SubmitStep::Accepted(job) => (CommandStep::SaveSubmission(job), recorded),
                    SubmitStep::Refused(outcome) => (CommandStep::Done(outcome), recorded),
                }
            },
            AgentControlCommand::GetBuild { build_id } => {
                let (outcome, changed) = self.handle_get_build(
                    requester_pubkey_hex,
                    id,
                    build_id,
                    statuses,
                    context.now,
                );
                (CommandStep::Done(outcome), changed)
            },
            AgentControlCommand::CancelBuild { build_id } => {
                let (outcome, changed) = self.handle_cancel_build(
                    requester_pubkey_hex,
                    id,
                    build_id,
                    statuses,
                    context.now,
                );
                (CommandStep::Done(outcome), changed)
            },
        }
    }
}

/// What a provider made, or why it made nothing.
pub open spec fn made_by(reply: ProvisionReplyModel) -> Result<ProvisionedRuntimeModel, Seq<char>> {
    match reply {
        ProvisionReplyModel::Made(made) => Ok(made),
        ProvisionReplyModel::Failed(error) => Err(error),
    }
}

/// What a provider tells of a teardown, or why it failed.
pub open spec fn torn_down_by(reply: TeardownReplyModel) -> Result<JsonModel, Seq<char>> {
    match reply {
        TeardownReplyModel::Done(payload) => Ok(payload),
        TeardownReplyModel::Failed(failure) => Err(failure.full),
    }
}

/// What a provider tells of a welcome, or why it failed.
pub open spec fn processed_by(reply: WelcomeReplyModel) -> Result<JsonModel, Seq<char>> {
    match reply {
        WelcomeReplyModel::Processed(payload) => Ok(payload),
        WelcomeReplyModel::Failed(error) => Err(error),
    }
}

/// What went wrong in writing to disk, where something did.
pub open spec fn save_error(reply: SaveReplyModel) -> Option<Seq<char>> {
    match reply {
        SaveReplyModel::Saved => None,
        SaveReplyModel::Failed(error) => Some(error),
    }
}

/// Whether an event is what a step waits for.
pub open spec fn awaits(step: CommandStepModel, event: StepEventModel) -> bool {
    match step {
        CommandStepModel::Settled(_) | CommandStepModel::Done(_) => false,
        CommandStepModel::Provision(_) => event is Provisioned,
        CommandStepModel::Welcome(_) => event is Welcomed,
        CommandStepModel::CleanUp(_)
        | CommandStepModel::TearDownRollback(_)
        | CommandStepModel::TearDown(_) => event is TornDown,
        CommandStepModel::SaveRuntime(_)
        | CommandStepModel::SaveRollback(_)
        | CommandStepModel::SaveTeardown(_)
        | CommandStepModel::SaveTornDown(_)
        | CommandStepModel::SaveSubmission(_) => event is Saved,
    }
}

/// The step for what became of what a provider did.
pub open spec fn after_provider(step: ProvisionStepModel) -> CommandStepModel {
    match step {
        ProvisionStepModel::Refused(outcome) => CommandStepModel::Done(outcome),
        ProvisionStepModel::Cleanup(job) => CommandStepModel::CleanUp(job),
        ProvisionStepModel::Admitted(taken) => CommandStepModel::SaveRuntime(taken),
    }
}

/// A runtime whose provider has torn it down, with the retry that is left.
pub open spec fn torn_down_job(job: TeardownJobModel, payload: JsonModel) -> TeardownJobModel {
    TeardownJobModel {
        runtime: RuntimeRecordModel {
            teardown_retry: retry_after(job.previous_attempts, Ok(payload), job.begun_at),
            ..job.runtime
        },
        ..job
    }
}

/// What going on with a command comes to, once what its step waits for happened at
/// some time: the service afterwards, and the next step.
pub open spec fn resumed(
    service: AgentControlServiceModel,
    step: CommandStepModel,
    event: StepEventModel,
    at: u64,
) -> (AgentControlServiceModel, CommandStepModel) {
    match (step, event) {
        (
            CommandStepModel::Provision(job),
            StepEventModel::Provisioned { runtime_id, reply, ttl_secs },
        ) => {
            let (after, next) = provisioned(
                service,
                job,
                runtime_id,
                made_by(reply),
                at,
                ttl_secs,
            );
            (after, after_provider(next))
        },
        (CommandStepModel::CleanUp(job), StepEventModel::TornDown(reply)) => (
            service,
            CommandStepModel::Done(cleaned_up(job, torn_down_by(reply))),
        ),
        (CommandStepModel::SaveRuntime(taken), StepEventModel::Saved(reply)) => match reply {
            SaveReplyModel::Saved => (
                service,
                CommandStepModel::Done(provision_answer(taken.job, taken.runtime)),
            ),
            SaveReplyModel::Failed(error) => (
                rolled_back(service, taken),
                CommandStepModel::SaveRollback(
                    RollbackJobModel { taken, error, rollback_error: None },
                ),
            ),
        },
        (CommandStepModel::SaveRollback(job), StepEventModel::Saved(reply)) => (
            service,
            CommandStepModel::TearDownRollback(
                RollbackJobModel { rollback_error: save_error(reply), ..job },
            ),
        ),
        (CommandStepModel::TearDownRollback(job), StepEventModel::TornDown(reply)) => (
            service,
            CommandStepModel::Done(
                rollback_answer(
                    job.taken.job,
                    job.error,
                    torn_down_by(reply),
                    job.rollback_error,
                ),
            ),
        ),
        (CommandStepModel::Welcome(job), StepEventModel::Welcomed(reply)) => (
            service,
            CommandStepModel::Done(welcome_answer(job, processed_by(reply))),
        ),
        (CommandStepModel::SaveTeardown(job), StepEventModel::Saved(reply)) => (
            service,
            CommandStepModel::TearDown(
                TearingDownJobModel { job, transition_error: save_error(reply) },
            ),
        ),
        (CommandStepModel::TearDown(tearing), StepEventModel::TornDown(reply)) => match reply {
            TeardownReplyModel::Failed(failure) => {
                let (after, outcome) = failed_teardown(service, tearing.job, failure);
                (after, CommandStepModel::Done(outcome))
            },
            TeardownReplyModel::Done(payload) => {
                let job = torn_down_job(tearing.job, payload);
                (
                    with_runtime(service, job.runtime),
                    CommandStepModel::SaveTornDown(
                        TornDownJobModel {
                            job,
                            payload,
                            transition_error: tearing.transition_error,
                        },
                    ),
                )
            },
        },
        (CommandStepModel::SaveTornDown(torn), StepEventModel::Saved(reply)) => (
            service,
            CommandStepModel::Done(
                teardown_answer(
                    torn.job,
                    torn.payload,
                    torn.transition_error,
                    save_error(reply),
                ),
            ),
        ),
        (CommandStepModel::SaveSubmission(job), StepEventModel::Saved(reply)) => {
            let (after, outcome) = match reply {
                SaveReplyModel::Saved => concluded_submission(
                    service,
                    job,
                    submit_outcome(job.request, job.build.created_at),
                    at,
                ),
                SaveReplyModel::Failed(error) => unpersisted_submission(service, job, error, at),
            };
            (after, CommandStepModel::Done(outcome))
        },
        _ => (service, step),
    }
}

/// Whether going on with a command leaves something to write to disk: a runtime was
/// taken up or let go of again, a provider was done with a teardown or failed at it,
/// or a submission came to an answer.
pub open spec fn resuming_saves(
    service: AgentControlServiceModel,
    step: CommandStepModel,
    event: StepEventModel,
    at: u64,
) -> bool {
    match step {
        CommandStepModel::Provision(_) => resumed(service, step, event, at).1 is SaveRuntime,
        CommandStepModel::SaveRuntime(_) => event matches StepEventModel::Saved(reply)
            && reply is Failed,
        CommandStepModel::TearDown(_) | CommandStepModel::SaveSubmission(_) => true,
        _ => false,
    }
}

/// What a provider tells of a teardown, or why it failed.
fn torn_down_result(reply: TeardownReply) -> (result: Result<Json, String>)
    ensures
        text_outcome(result) == torn_down_by(reply@),
{
    match reply {
        TeardownReply::Done(payload) => Ok(payload),
        TeardownReply::Failed(failure) => Err(failure.full),
    }
}

/// What went wrong in writing to disk, where something did.
fn error_in(reply: SaveReply) -> (error: Option<String>)
    ensures
        error.deep_view() == save_error(reply@),
{
    match reply {
        SaveReply::Saved => None,
        SaveReply::Failed(error) => Some(error),
    }
}

impl AgentControlService {
    /// Goes on with a command, once what its step waits for happened. Says also
    /// whether there is something to write to disk.
    pub fn resume_command(&mut self, step: CommandStep, event: StepEvent, at: u64) -> (resumed: (
        CommandStep,
        bool,
    ))
        requires
            awaits(step@, event@),
        ensures
            (final(self)@, resumed.0@) == self::resumed(old(self)@, step@, event@, at),
            resumed.1 == resuming_saves(old(self)@, step@, event@, at),
            !resumed.1 ==> final(self)@ == old(self)@,
    {
        match (step, event) {
            (
                CommandStep::Provision(job),
                StepEvent::Provisioned { runtime_id, reply, ttl_secs },
            ) => {
                let made = match reply {
                    ProvisionReply::Made(made) => Ok(made),
                    ProvisionReply::Failed(error) => Err(error),
                };
                match self.provider_provisioned(job, runtime_id, made, at, ttl_secs) {
                    ProvisionStep::Refused(outcome) => (CommandStep::Done(outcome), false),
                    ProvisionStep::Cleanup(job) => (CommandStep::CleanUp(job), false),
                    ProvisionStep::Admitted(taken) => (CommandStep::SaveRuntime(taken), true),
                }
            },
            (CommandStep::CleanUp(job), StepEvent::TornDown(reply)) => {
                let torn_down = torn_down_result(reply);
                (CommandStep::Done(conclude_cleanup(job, &torn_down)), false)
            },
            (CommandStep::SaveRuntime(taken), StepEvent::Saved(reply)) => match reply {
                SaveReply::Saved => (CommandStep::Done(conclude_provision(taken)), false),
                SaveReply::Failed(error) => {
                    self.roll_back_provision(&taken);
                    (
                        CommandStep::SaveRollback(
                            RollbackJob { taken, error, rollback_error: None },
                        ),
                        true,
                    )
                },
            },
            (CommandStep::SaveRollback(job), StepEvent::Saved(reply)) => {
                let mut job = job;
                job.rollback_error = error_in(reply);
                (CommandStep::TearDownRollback(job), false)
            },
            (CommandStep::TearDownRollback(job), StepEvent::TornDown(reply)) => {
                let torn_down = torn_down_result(reply);
                (
                    CommandStep::Done(
                        conclude_rollback(
                            job.taken,
                            job.error.as_str(),
                            &torn_down,
                            &job.rollback_error,
                        ),
                    ),
                    false,
                )
            },
            (CommandStep::Welcome(job), StepEvent::Welcomed(reply)) => {
                let processed = match reply {
                    WelcomeReply::Processed(payload) => Ok(payload),
                    WelcomeReply::Failed(error) => Err(error),
                };
                (CommandStep::Done(conclude_process_welcome(job, processed)), false)
            },
            (CommandStep::SaveTeardown(job), StepEvent::Saved(reply)) => (
                CommandStep::TearDown(
                    TearingDownJob { job, transition_error: error_in(reply) },
                ),
                false,
            ),
            (CommandStep::TearDown(tearing), StepEvent::TornDown(reply)) => match reply {
                TeardownReply::Failed(failure) => (
                    CommandStep::Done(self.teardown_failed(tearing.job, failure)),
                    true,
                ),
                TeardownReply::Done(payload) => {
                    let job = self.teardown_done(tearing.job, &payload);
                    (
                        CommandStep::SaveTornDown(
                            TornDownJob {
                                job,
                                payload,
                                transition_error: tearing.transition_error,
                            },
                        ),
                        true,
                    )
                },
            },
            (CommandStep::SaveTornDown(torn), StepEvent::Saved(reply)) => (
                CommandStep::Done(
                    conclude_teardown(
                        torn.job,
                        torn.payload,
                        &torn.transition_error,
                        &error_in(reply),
                    ),
                ),
                false,
            ),
            (CommandStep::SaveSubmission(job), StepEvent::Saved(reply)) => match reply {
                SaveReply::Saved => (
                    CommandStep::Done(self.submit_build_persisted(job, at)),
                    true,
                ),
                SaveReply::Failed(error) => (
                    CommandStep::Done(
                        self.submit_build_not_persisted(job, error.as_str(), at),
                    ),
                    true,
                ),
            },
            (step, _) => (step, false),
        }
    }
}

/// How many more events a step can wait for at most.
pub open spec fn steps_left(step: CommandStepModel) -> nat {
    match step {
        CommandStepModel::Settled(_) | CommandStepModel::Done(_) => 0,
        CommandStepModel::Provision(_) => 4,
        CommandStepModel::SaveRuntime(_) => 3,
        CommandStepModel::SaveRollback(_) => 2,
        CommandStepModel::TearDownRollback(_) => 1,
        CommandStepModel::CleanUp(_) => 1,
        CommandStepModel::Welcome(_) => 1,
        CommandStepModel::SaveTeardown(_) => 3,
        CommandStepModel::TearDown(_) => 2,
        CommandStepModel::SaveTornDown(_) => 1,
        CommandStepModel::SaveSubmission(_) => 1,
    }
}

/// Every command is answered: each event brings its answer nearer.
pub proof fn command_comes_to_an_end(
    service: AgentControlServiceModel,
    step: CommandStepModel,
    event: StepEventModel,
    at: u64,
)
    requires
        awaits(step, event),
    ensures
        steps_left(resumed(service, step, event, at).1) < steps_left(step),
{
}

/// An answer is either a result or an error, never both and never neither.
pub proof fn answer_is_result_or_error(
    service: AgentControlServiceModel,
    step: CommandStepModel,
    event: StepEventModel,
    at: u64,
)
    requires
        awaits(step, event),
        resumed(service, step, event, at).1 is Done,
    ensures
        resumed(service, step, event, at).1->Done_0.result is Some <==> resumed(
            service,
            step,
            event,
            at,
        ).1->Done_0.error is None,
{
}

/// A runtime that cannot be written to disk is not there afterwards, whatever
/// the disk and the provider do then, and its requester is told.
pub proof fn unsaved_runtime_is_gone(
    service: AgentControlServiceModel,
    job: ProvisionJobModel,
    runtime_id: Seq<char>,
    made: ProvisionedRuntimeModel,
    ttl_secs: u64,
    error: Seq<char>,
    second: SaveReplyModel,
    torn_down: TeardownReplyModel,
    at: u64,
)
    requires
        !service.state.runtimes.contains_key(runtime_id),
        misfit(job, provisioned_record(job, runtime_id, made, at, ttl_secs)) is None,
    ensures
        ({
            let (s1, step1) = resumed(
                service,
                CommandStepModel::Provision(job),
                StepEventModel::Provisioned {
                    runtime_id,
                    reply: ProvisionReplyModel::Made(made),
                    ttl_secs,
                },
                at,
            );
            let (s2, step2) = resumed(
                s1,
                step1,
                StepEventModel::Saved(SaveReplyModel::Failed(error)),
                at,
            );
            let (s3, step3) = resumed(s2, step2, StepEventModel::Saved(second), at);
            let (s4, step4) = resumed(s3, step3, StepEventModel::TornDown(torn_down), at);
            &&& s1.state.runtimes.contains_key(runtime_id)
            &&& s4.state.runtimes == service.state.runtimes
            &&& s4.state.artifacts == service.state.artifacts
            &&& step4 is Done
            &&& step4->Done_0.result is None
            &&& step4->Done_0.error->0.code == "state_persist_failed"@
        }),
{
    crate::agent::provision::rolling_back_undoes_admitting(
        service,
        job,
        runtime_id,
        made,
        at,
        ttl_secs,
    );
}

proof fn lemma_truncated_keeps_records(state: AgentControlStateModel, max: nat)
    ensures
        truncated(state, max).runtimes == state.runtimes,
        truncated(state, max).builds == state.builds,
        truncated(state, max).artifacts == state.artifacts,
        truncated(state, max).audit_log == state.audit_log,
    decreases state.idempotency_order.len(),
{
    if state.idempotency_order.len() > max {
        let key = state.idempotency_order[0];
        lemma_truncated_keeps_records(
            AgentControlStateModel {
                idempotency: state.idempotency.remove(key),
                idempotency_order: state.idempotency_order.skip(1),
                ..state
            },
            max,
        );
    }
}

/// A command that only asks changes nothing, but that a build that is asked about
/// may move on.
pub proof fn asking_changes_nothing(
    service: AgentControlServiceModel,
    requester: Seq<char>,
    cmd: AgentControlCmdEnvelopeModel,
    context: CommandContextModel,
)
    requires
        cmd.command is GetRuntime || cmd.command is ListRuntimes || cmd.command is GetCapabilities
            || cmd.command is ResolveDistribution || cmd.command is ProcessWelcome,
    ensures
        handled(service, requester, cmd, context).0 == service,
{
}

/// A requester who may not have runtimes provisioned is refused everything but
/// what concerns runtimes that are theirs, and changes nothing by asking for it.
pub proof fn stranger_is_refused(
    service: AgentControlServiceModel,
    requester: Seq<char>,
    cmd: AgentControlCmdEnvelopeModel,
    context: CommandContextModel,
)
    requires
        !allows(service.provision_policy, requester),
        immediate_outcome(service, requester, cmd) is None,
        cmd.command is Provision || cmd.command is GetCapabilities
            || cmd.command is ResolveDistribution || cmd.command is SubmitBuild
            || cmd.command is GetBuild || cmd.command is CancelBuild,
    ensures
        handled(service, requester, cmd, context).0 == service,
        handled(service, requester, cmd, context).1 is Done,
        handled(service, requester, cmd, context).1->Done_0.result is None,
        handled(service, requester, cmd, context).1->Done_0.error is Some,
        handled(service, requester, cmd, context).1->Done_0.error->0.code
            == "provision_unauthorized"@,
{
}

} // verus!
