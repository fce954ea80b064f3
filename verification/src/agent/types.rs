//! The vocabulary of the agent control plane: commands, what they are answered
//! with, and the records that the server keeps.
use vstd::prelude::*;
use crate::collections::Replicate;
use crate::json::{json_array, json_null, json_object, json_text, json_uint, Json, JsonModel};

verus! {

pub const CMD_SCHEMA_V1: &'static str = "agent.control.cmd.v1";

pub const STATUS_SCHEMA_V1: &'static str = "agent.control.status.v1";

pub const RESULT_SCHEMA_V1: &'static str = "agent.control.result.v1";

pub const ERROR_SCHEMA_V1: &'static str = "agent.control.error.v1";

/// Where runtimes run.
#[derive(Clone, Copy, Debug, PartialEq, Eq, Structural)]
pub enum ProviderKind {
    Fly,
    Microvm,
}

impl DeepView for ProviderKind {
    type V = ProviderKind;

    open spec fn deep_view(&self) -> ProviderKind {
        *self
    }
}

impl Replicate for ProviderKind {
    fn replicate(&self) -> (copy: Self) {
        *self
    }
}

/// How a runtime is talked to.
#[derive(Clone, Copy, Debug, PartialEq, Eq, Structural)]
pub enum ProtocolKind {
    Acp,
}

impl DeepView for ProtocolKind {
    type V = ProtocolKind;

    open spec fn deep_view(&self) -> ProtocolKind {
        *self
    }
}

impl Replicate for ProtocolKind {
    fn replicate(&self) -> (copy: Self) {
        *self
    }
}

/// What a build makes.
#[derive(Clone, Copy, Debug, PartialEq, Eq, Structural)]
pub enum BuildKind {
    Oci,
    Nix,
}

impl DeepView for BuildKind {
    type V = BuildKind;

    open spec fn deep_view(&self) -> BuildKind {
        *self
    }
}

impl Replicate for BuildKind {
    fn replicate(&self) -> (copy: Self) {
        *self
    }
}

/// Where a runtime stands.
#[derive(Clone, Copy, Debug, PartialEq, Eq, Structural)]
pub enum RuntimeLifecyclePhase {
    Queued,
    Provisioning,
    Ready,
    Failed,
    Teardown,
}

impl DeepView for RuntimeLifecyclePhase {
    type V = RuntimeLifecyclePhase;

    open spec fn deep_view(&self) -> RuntimeLifecyclePhase {
        *self
    }
}

impl Replicate for RuntimeLifecyclePhase {
    fn replicate(&self) -> (copy: Self) {
        *self
    }
}

/// Where a build stands.
#[derive(Clone, Copy, Debug, PartialEq, Eq, Structural)]
pub enum BuildPhase {
    Queued,
    Validating,
    FetchingSource,
    Building,
    PublishingArtifact,
    Succeeded,
    Failed,
    Canceled,
}

impl DeepView for BuildPhase {
    type V = BuildPhase;

    open spec fn deep_view(&self) -> BuildPhase {
        *self
    }
}

impl Replicate for BuildPhase {
    fn replicate(&self) -> (copy: Self) {
        *self
    }
}

/// A runtime as its owner sees it.
#[derive(Debug, PartialEq, Eq)]
pub struct RuntimeDescriptor {
    pub runtime_id: String,
    pub provider: ProviderKind,
    pub lifecycle_phase: RuntimeLifecyclePhase,
    pub runtime_class: Option<String>,
    pub region: Option<String>,
    pub capacity: Json,
    pub policy_constraints: Json,
    pub protocol_compatibility: Vec<ProtocolKind>,
    pub bot_pubkey: Option<String>,
    pub metadata: Json,
}

/// What a [`RuntimeDescriptor`] holds.
#[verifier::ext_equal]
pub struct RuntimeDescriptorModel {
    pub runtime_id: Seq<char>,
    pub provider: ProviderKind,
    pub lifecycle_phase: RuntimeLifecyclePhase,
    pub runtime_class: Option<Seq<char>>,
    pub region: Option<Seq<char>>,
    pub capacity: JsonModel,
    pub policy_constraints: JsonModel,
    pub protocol_compatibility: Seq<ProtocolKind>,
    pub bot_pubkey: Option<Seq<char>>,
    pub metadata: JsonModel,
}

impl DeepView for RuntimeDescriptor {
    type V = RuntimeDescriptorModel;

    open spec fn deep_view(&self) -> RuntimeDescriptorModel {
        RuntimeDescriptorModel {
            runtime_id: self.runtime_id.deep_view(),
            provider: self.provider.deep_view(),
            lifecycle_phase: self.lifecycle_phase.deep_view(),
            runtime_class: self.runtime_class.deep_view(),
            region: self.region.deep_view(),
            capacity: self.capacity.deep_view(),
            policy_constraints: self.policy_constraints.deep_view(),
            protocol_compatibility: self.protocol_compatibility.deep_view(),
            bot_pubkey: self.bot_pubkey.deep_view(),
            metadata: self.metadata.deep_view(),
        }
    }
}

impl View for RuntimeDescriptor {
    type V = RuntimeDescriptorModel;

    open spec fn view(&self) -> RuntimeDescriptorModel {
        self.deep_view()
    }
}

impl Replicate for RuntimeDescriptor {
    fn replicate(&self) -> (copy: Self) {
        RuntimeDescriptor {
            runtime_id: self.runtime_id.replicate(),
            provider: self.provider.replicate(),
            lifecycle_phase: self.lifecycle_phase.replicate(),
            runtime_class: self.runtime_class.replicate(),
            region: self.region.replicate(),
            capacity: self.capacity.replicate(),
            policy_constraints: self.policy_constraints.replicate(),
            protocol_compatibility: self.protocol_compatibility.replicate(),
            bot_pubkey: self.bot_pubkey.replicate(),
            metadata: self.metadata.replicate(),
        }
    }
}

impl Clone for RuntimeDescriptor {
    fn clone(&self) -> (copy: Self)
        ensures
            copy@ == self@,
    {
        self.replicate()
    }
}

/// A step on the way to an answer.
#[derive(Debug, PartialEq, Eq)]
pub struct AgentControlStatusEnvelope {
    pub schema: String,
    pub request_id: String,
    pub phase: RuntimeLifecyclePhase,
    pub runtime_id: Option<String>,
    pub provider: Option<ProviderKind>,
    pub message: Option<String>,
    pub payload: Json,
}

/// What a [`AgentControlStatusEnvelope`] holds.
#[verifier::ext_equal]
pub struct AgentControlStatusEnvelopeModel {
    pub schema: Seq<char>,
    pub request_id: Seq<char>,
    pub phase: RuntimeLifecyclePhase,
    pub runtime_id: Option<Seq<char>>,
    pub provider: Option<ProviderKind>,
    pub message: Option<Seq<char>>,
    pub payload: JsonModel,
}

impl DeepView for AgentControlStatusEnvelope {
    type V = AgentControlStatusEnvelopeModel;

    open spec fn deep_view(&self) -> AgentControlStatusEnvelopeModel {
        AgentControlStatusEnvelopeModel {
            schema: self.schema.deep_view(),
            request_id: self.request_id.deep_view(),
            phase: self.phase.deep_view(),
            runtime_id: self.runtime_id.deep_view(),
            provider: self.provider.deep_view(),
            message: self.message.deep_view(),
            payload: self.payload.deep_view(),
        }
    }
}

impl View for AgentControlStatusEnvelope {
    type V = AgentControlStatusEnvelopeModel;

    open spec fn view(&self) -> AgentControlStatusEnvelopeModel {
        self.deep_view()
    }
}

impl Replicate for AgentControlStatusEnvelope {
    fn replicate(&self) -> (copy: Self) {
        AgentControlStatusEnvelope {
            schema: self.schema.replicate(),
            request_id: self.request_id.replicate(),
            phase: self.phase.replicate(),
            runtime_id: self.runtime_id.replicate(),
            provider: self.provider.replicate(),
            message: self.message.replicate(),
            payload: self.payload.replicate(),
        }
    }
}

impl Clone for AgentControlStatusEnvelope {
    fn clone(&self) -> (copy: Self)
        ensures
            copy@ == self@,
    {
        self.replicate()
    }
}

/// The answer to a command that went through.
#[derive(Debug, PartialEq, Eq)]
pub struct AgentControlResultEnvelope {
    pub schema: String,
    pub request_id: String,
    pub runtime: RuntimeDescriptor,
    pub payload: Json,
}

/// What a [`AgentControlResultEnvelope`] holds.
#[verifier::ext_equal]
pub struct AgentControlResultEnvelopeModel {
    pub schema: Seq<char>,
    pub request_id: Seq<char>,
    pub runtime: RuntimeDescriptorModel,
    pub payload: JsonModel,
}

impl DeepView for AgentControlResultEnvelope {
    type V = AgentControlResultEnvelopeModel;

    open spec fn deep_view(&self) -> AgentControlResultEnvelopeModel {
        AgentControlResultEnvelopeModel {
            schema: self.schema.deep_view(),
            request_id: self.request_id.deep_view(),
            runtime: self.runtime.deep_view(),
            payload: self.payload.deep_view(),
        }
    }
}

impl View for AgentControlResultEnvelope {
    type V = AgentControlResultEnvelopeModel;

    open spec fn view(&self) -> AgentControlResultEnvelopeModel {
        self.deep_view()
    }
}

impl Replicate for AgentControlResultEnvelope {
    fn replicate(&self) -> (copy: Self) {
        AgentControlResultEnvelope {
            schema: self.schema.replicate(),
            request_id: self.request_id.replicate(),
            runtime: self.runtime.replicate(),
            payload: self.payload.replicate(),
        }
    }
}

impl Clone for AgentControlResultEnvelope {
    fn clone(&self) -> (copy: Self)
        ensures
            copy@ == self@,
    {
        self.replicate()
    }
}

/// The answer to a command that did not go through.
#[derive(Debug, PartialEq, Eq)]
pub struct AgentControlErrorEnvelope {
    pub schema: String,
    pub request_id: String,
    pub code: String,
    pub hint: Option<String>,
    pub detail: Option<String>,
}

/// What a [`AgentControlErrorEnvelope`] holds.
#[verifier::ext_equal]
pub struct AgentControlErrorEnvelopeModel {
    pub schema: Seq<char>,
    pub request_id: Seq<char>,
    pub code: Seq<char>,
    pub hint: Option<Seq<char>>,
    pub detail: Option<Seq<char>>,
}

impl DeepView for AgentControlErrorEnvelope {
    type V = AgentControlErrorEnvelopeModel;

    open spec fn deep_view(&self) -> AgentControlErrorEnvelopeModel {
        AgentControlErrorEnvelopeModel {
            schema: self.schema.deep_view(),
            request_id: self.request_id.deep_view(),
            code: self.code.deep_view(),
            hint: self.hint.deep_view(),
            detail: self.detail.deep_view(),
        }
    }
}

impl View for AgentControlErrorEnvelope {
    type V = AgentControlErrorEnvelopeModel;

    open spec fn view(&self) -> AgentControlErrorEnvelopeModel {
        self.deep_view()
    }
}

impl Replicate for AgentControlErrorEnvelope {
    fn replicate(&self) -> (copy: Self) {
        AgentControlErrorEnvelope {
            schema: self.schema.replicate(),
            request_id: self.request_id.replicate(),
            code: self.code.replicate(),
            hint: self.hint.replicate(),
            detail: self.detail.replicate(),
        }
    }
}

impl Clone for AgentControlErrorEnvelope {
    fn clone(&self) -> (copy: Self)
        ensures
            copy@ == self@,
    {
        self.replicate()
    }
}

/// All that is sent back for a command.
#[derive(Debug, PartialEq, Eq)]
pub struct CommandOutcome {
    pub statuses: Vec<AgentControlStatusEnvelope>,
    pub result: Option<AgentControlResultEnvelope>,
    pub error: Option<AgentControlErrorEnvelope>,
}

/// What a [`CommandOutcome`] holds.
#[verifier::ext_equal]
pub struct CommandOutcomeModel {
    pub statuses: Seq<AgentControlStatusEnvelopeModel>,
    pub result: Option<AgentControlResultEnvelopeModel>,
    pub error: Option<AgentControlErrorEnvelopeModel>,
}

impl DeepView for CommandOutcome {
    type V = CommandOutcomeModel;

    open spec fn deep_view(&self) -> CommandOutcomeModel {
        CommandOutcomeModel {
            statuses: self.statuses.deep_view(),
            result: self.result.deep_view(),
            error: self.error.deep_view(),
        }
    }
}

impl View for CommandOutcome {
    type V = CommandOutcomeModel;

    open spec fn view(&self) -> CommandOutcomeModel {
        self.deep_view()
    }
}

impl Replicate for CommandOutcome {
    fn replicate(&self) -> (copy: Self) {
        CommandOutcome {
            statuses: self.statuses.replicate(),
            result: self.result.replicate(),
            error: self.error.replicate(),
        }
    }
}

impl Clone for CommandOutcome {
    fn clone(&self) -> (copy: Self)
        ensures
            copy@ == self@,
    {
        self.replicate()
    }
}

/// Asks for a runtime.
#[derive(Debug, PartialEq, Eq)]
pub struct ProvisionCommand {
    pub provider: ProviderKind,
    pub protocol: ProtocolKind,
    pub name: Option<String>,
    pub runtime_class: Option<String>,
    pub relay_urls: Vec<String>,
    pub keep: bool,
    pub bot_secret_key_hex: Option<String>,
    pub build_id: Option<String>,
    pub artifact_ref: Option<String>,
    pub advanced_workload_json: Option<String>,
    /// How a virtual machine is to be, for the spawner to make sense of.
    pub microvm: Option<Json>,
}

/// What a [`ProvisionCommand`] holds.
#[verifier::ext_equal]
pub struct ProvisionCommandModel {
    pub provider: ProviderKind,
    pub protocol: ProtocolKind,
    pub name: Option<Seq<char>>,
    pub runtime_class: Option<Seq<char>>,
    pub relay_urls: Seq<Seq<char>>,
    pub keep: bool,
    pub bot_secret_key_hex: Option<Seq<char>>,
    pub build_id: Option<Seq<char>>,
    pub artifact_ref: Option<Seq<char>>,
    pub advanced_workload_json: Option<Seq<char>>,
    pub microvm: Option<JsonModel>,
}

impl DeepView for ProvisionCommand {
    type V = ProvisionCommandModel;

    open spec fn deep_view(&self) -> ProvisionCommandModel {
        ProvisionCommandModel {
            provider: self.provider.deep_view(),
            protocol: self.protocol.deep_view(),
            name: self.name.deep_view(),
            runtime_class: self.runtime_class.deep_view(),
            relay_urls: self.relay_urls.deep_view(),
            keep: self.keep.deep_view(),
            bot_secret_key_hex: self.bot_secret_key_hex.deep_view(),
            build_id: self.build_id.deep_view(),
            artifact_ref: self.artifact_ref.deep_view(),
            advanced_workload_json: self.advanced_workload_json.deep_view(),
            microvm: self.microvm.deep_view(),
        }
    }
}

impl View for ProvisionCommand {
    type V = ProvisionCommandModel;

    open spec fn view(&self) -> ProvisionCommandModel {
        self.deep_view()
    }
}

impl Replicate for ProvisionCommand {
    fn replicate(&self) -> (copy: Self) {
        ProvisionCommand {
            provider: self.provider.replicate(),
            protocol: self.protocol.replicate(),
            name: self.name.replicate(),
            runtime_class: self.runtime_class.replicate(),
            relay_urls: self.relay_urls.replicate(),
            keep: self.keep.replicate(),
            bot_secret_key_hex: self.bot_secret_key_hex.replicate(),
            build_id: self.build_id.replicate(),
            artifact_ref: self.artifact_ref.replicate(),
            advanced_workload_json: self.advanced_workload_json.replicate(),
            microvm: self.microvm.replicate(),
        }
    }
}

impl Clone for ProvisionCommand {
    fn clone(&self) -> (copy: Self)
        ensures
            copy@ == self@,
    {
        self.replicate()
    }
}

/// Asks for the runtimes of the requester.
#[derive(Debug, PartialEq, Eq)]
pub struct ListRuntimesCommand {
    pub provider: Option<ProviderKind>,
    pub protocol: Option<ProtocolKind>,
    pub lifecycle_phase: Option<RuntimeLifecyclePhase>,
    pub runtime_class: Option<String>,
    pub limit: Option<usize>,
}

/// What a [`ListRuntimesCommand`] holds.
#[verifier::ext_equal]
pub struct ListRuntimesCommandModel {
    pub provider: Option<ProviderKind>,
    pub protocol: Option<ProtocolKind>,
    pub lifecycle_phase: Option<RuntimeLifecyclePhase>,
    pub runtime_class: Option<Seq<char>>,
    pub limit: Option<usize>,
}

impl DeepView for ListRuntimesCommand {
    type V = ListRuntimesCommandModel;

    open spec fn deep_view(&self) -> ListRuntimesCommandModel {
        ListRuntimesCommandModel {
            provider: self.provider.deep_view(),
            protocol: self.protocol.deep_view(),
            lifecycle_phase: self.lifecycle_phase.deep_view(),
            runtime_class: self.runtime_class.deep_view(),
            limit: self.limit.deep_view(),
        }
    }
}

impl View for ListRuntimesCommand {
    type V = ListRuntimesCommandModel;

    open spec fn view(&self) -> ListRuntimesCommandModel {
        self.deep_view()
    }
}

impl Replicate for ListRuntimesCommand {
    fn replicate(&self) -> (copy: Self) {
        ListRuntimesCommand {
            provider: self.provider.replicate(),
            protocol: self.protocol.replicate(),
            lifecycle_phase: self.lifecycle_phase.replicate(),
            runtime_class: self.runtime_class.replicate(),
            limit: self.limit.replicate(),
        }
    }
}

impl Clone for ListRuntimesCommand {
    fn clone(&self) -> (copy: Self)
        ensures
            copy@ == self@,
    {
        self.replicate()
    }
}

/// Asks what a preset comes to.
#[derive(Debug, PartialEq, Eq)]
pub struct ResolveDistributionCommand {
    pub distribution_ref: String,
    pub preset: String,
    pub overrides_json: Option<String>,
}

/// What a [`ResolveDistributionCommand`] holds.
#[verifier::ext_equal]
pub struct ResolveDistributionCommandModel {
    pub distribution_ref: Seq<char>,
    pub preset: Seq<char>,
    pub overrides_json: Option<Seq<char>>,
}

impl DeepView for ResolveDistributionCommand {
    type V = ResolveDistributionCommandModel;

    open spec fn deep_view(&self) -> ResolveDistributionCommandModel {
        ResolveDistributionCommandModel {
            distribution_ref: self.distribution_ref.deep_view(),
            preset: self.preset.deep_view(),
            overrides_json: self.overrides_json.deep_view(),
        }
    }
}

impl View for ResolveDistributionCommand {
    type V = ResolveDistributionCommandModel;

    open spec fn view(&self) -> ResolveDistributionCommandModel {
        self.deep_view()
    }
}

impl Replicate for ResolveDistributionCommand {
    fn replicate(&self) -> (copy: Self) {
        ResolveDistributionCommand {
            distribution_ref: self.distribution_ref.replicate(),
            preset: self.preset.replicate(),
            overrides_json: self.overrides_json.replicate(),
        }
    }
}

impl Clone for ResolveDistributionCommand {
    fn clone(&self) -> (copy: Self)
        ensures
            copy@ == self@,
    {
        self.replicate()
    }
}

/// Asks for a build.
#[derive(Debug, PartialEq, Eq)]
pub struct SubmitBuildCommand {
    pub build_kind: BuildKind,
    pub source_ref: Option<String>,
    pub artifact_ref: Option<String>,
    pub timeout_sec: Option<u64>,
    pub context_bytes: Option<u64>,
}

/// What a [`SubmitBuildCommand`] holds.
#[verifier::ext_equal]
pub struct SubmitBuildCommandModel {
    pub build_kind: BuildKind,
    pub source_ref: Option<Seq<char>>,
    pub artifact_ref: Option<Seq<char>>,
    pub timeout_sec: Option<u64>,
    pub context_bytes: Option<u64>,
}

impl DeepView for SubmitBuildCommand {
    type V = SubmitBuildCommandModel;

    open spec fn deep_view(&self) -> SubmitBuildCommandModel {
        SubmitBuildCommandModel {
            build_kind: self.build_kind.deep_view(),
            source_ref: self.source_ref.deep_view(),
            artifact_ref: self.artifact_ref.deep_view(),
            timeout_sec: self.timeout_sec.deep_view(),
            context_bytes: self.context_bytes.deep_view(),
        }
    }
}

impl View for SubmitBuildCommand {
    type V = SubmitBuildCommandModel;

    open spec fn view(&self) -> SubmitBuildCommandModel {
        self.deep_view()
    }
}

impl Replicate for SubmitBuildCommand {
    fn replicate(&self) -> (copy: Self) {
        SubmitBuildCommand {
            build_kind: self.build_kind.replicate(),
            source_ref: self.source_ref.replicate(),
            artifact_ref: self.artifact_ref.replicate(),
            timeout_sec: self.timeout_sec.replicate(),
            context_bytes: self.context_bytes.replicate(),
        }
    }
}

impl Clone for SubmitBuildCommand {
    fn clone(&self) -> (copy: Self)
        ensures
            copy@ == self@,
    {
        self.replicate()
    }
}

/// What a requester asks for.
#[derive(Debug, PartialEq, Eq)]
pub enum AgentControlCommand {
    Provision(ProvisionCommand),
    ProcessWelcome { runtime_id: String },
    Teardown { runtime_id: String },
    GetRuntime { runtime_id: String },
    ListRuntimes(ListRuntimesCommand),
    GetCapabilities,
    ResolveDistribution(ResolveDistributionCommand),
    SubmitBuild(SubmitBuildCommand),
    GetBuild { build_id: String },
    CancelBuild { build_id: String },
}

/// What a [`AgentControlCommand`] holds.
#[verifier::ext_equal]
pub enum AgentControlCommandModel {
    Provision(ProvisionCommandModel),
    ProcessWelcome { runtime_id: Seq<char> },
    Teardown { runtime_id: Seq<char> },
    GetRuntime { runtime_id: Seq<char> },
    ListRuntimes(ListRuntimesCommandModel),
    GetCapabilities,
    ResolveDistribution(ResolveDistributionCommandModel),
    SubmitBuild(SubmitBuildCommandModel),
    GetBuild { build_id: Seq<char> },
    CancelBuild { build_id: Seq<char> },
}

impl DeepView for AgentControlCommand {
    type V = AgentControlCommandModel;

    open spec fn deep_view(&self) -> AgentControlCommandModel {
        match self {
            AgentControlCommand::Provision(a) => AgentControlCommandModel::Provision(a.deep_view()),
            AgentControlCommand::ProcessWelcome {
                runtime_id,
            } => AgentControlCommandModel::ProcessWelcome {
                runtime_id: runtime_id.deep_view(),
            },
            AgentControlCommand::Teardown { runtime_id } => AgentControlCommandModel::Teardown {
                runtime_id: runtime_id.deep_view(),
            },
            AgentControlCommand::GetRuntime { runtime_id } => AgentControlCommandModel::GetRuntime {
                runtime_id: runtime_id.deep_view(),
            },
            AgentControlCommand::ListRuntimes(a) => {
                AgentControlCommandModel::ListRuntimes(a.deep_view())
            },
            AgentControlCommand::GetCapabilities => AgentControlCommandModel::GetCapabilities,
            AgentControlCommand::ResolveDistribution(a) => {
                AgentControlCommandModel::ResolveDistribution(a.deep_view())
            },
            AgentControlCommand::SubmitBuild(a) => {
                AgentControlCommandModel::SubmitBuild(a.deep_view())
            },
            AgentControlCommand::GetBuild { build_id } => AgentControlCommandModel::GetBuild {
                build_id: build_id.deep_view(),
            },
            AgentControlCommand::CancelBuild { build_id } => AgentControlCommandModel::CancelBuild {
                build_id: build_id.deep_view(),
            },
        }
    }
}

impl View for AgentControlCommand {
    type V = AgentControlCommandModel;

    open spec fn view(&self) -> AgentControlCommandModel {
        self.deep_view()
    }
}

impl Replicate for AgentControlCommand {
    fn replicate(&self) -> (copy: Self) {
        match self {
            AgentControlCommand::Provision(a) => AgentControlCommand::Provision(a.replicate()),
            AgentControlCommand::ProcessWelcome {
                runtime_id,
            } => AgentControlCommand::ProcessWelcome {
                runtime_id: runtime_id.replicate(),
            },
            AgentControlCommand::Teardown { runtime_id } => AgentControlCommand::Teardown {
                runtime_id: runtime_id.replicate(),
            },
            AgentControlCommand::GetRuntime { runtime_id } => AgentControlCommand::GetRuntime {
                runtime_id: runtime_id.replicate(),
            },
            AgentControlCommand::ListRuntimes(a) => {
                AgentControlCommand::ListRuntimes(a.replicate())
            },
            AgentControlCommand::GetCapabilities => AgentControlCommand::GetCapabilities,
            AgentControlCommand::ResolveDistribution(a) => {
                AgentControlCommand::ResolveDistribution(a.replicate())
            },
            AgentControlCommand::SubmitBuild(a) => AgentControlCommand::SubmitBuild(a.replicate()),
            AgentControlCommand::GetBuild { build_id } => AgentControlCommand::GetBuild {
                build_id: build_id.replicate(),
            },
            AgentControlCommand::CancelBuild { build_id } => AgentControlCommand::CancelBuild {
                build_id: build_id.replicate(),
            },
        }
    }
}

impl Clone for AgentControlCommand {
    fn clone(&self) -> (copy: Self)
        ensures
            copy@ == self@,
    {
        self.replicate()
    }
}

/// A command with its origin.
#[derive(Debug, PartialEq, Eq)]
pub struct AgentControlCmdEnvelope {
    pub schema: String,
    pub request_id: String,
    pub idempotency_key: String,
    pub command: AgentControlCommand,
}

/// What a [`AgentControlCmdEnvelope`] holds.
#[verifier::ext_equal]
pub struct AgentControlCmdEnvelopeModel {
    pub schema: Seq<char>,
    pub request_id: Seq<char>,
    pub idempotency_key: Seq<char>,
    pub command: AgentControlCommandModel,
}

impl DeepView for AgentControlCmdEnvelope {
    type V = AgentControlCmdEnvelopeModel;

    open spec fn deep_view(&self) -> AgentControlCmdEnvelopeModel {
        AgentControlCmdEnvelopeModel {
            schema: self.schema.deep_view(),
            request_id: self.request_id.deep_view(),
            idempotency_key: self.idempotency_key.deep_view(),
            command: self.command.deep_view(),
        }
    }
}

impl View for AgentControlCmdEnvelope {
    type V = AgentControlCmdEnvelopeModel;

    open spec fn view(&self) -> AgentControlCmdEnvelopeModel {
        self.deep_view()
    }
}

impl Replicate for AgentControlCmdEnvelope {
    fn replicate(&self) -> (copy: Self) {
        AgentControlCmdEnvelope {
            schema: self.schema.replicate(),
            request_id: self.request_id.replicate(),
            idempotency_key: self.idempotency_key.replicate(),
            command: self.command.replicate(),
        }
    }
}

impl Clone for AgentControlCmdEnvelope {
    fn clone(&self) -> (copy: Self)
        ensures
            copy@ == self@,
    {
        self.replicate()
    }
}

/// What the provider knows a runtime by.
#[derive(Debug, PartialEq, Eq)]
pub enum ProviderHandle {
    Fly { machine_id: String, volume_id: String, app_name: String },
    Microvm { vm_id: String, spawner_url: String, keep: bool },
}

/// What a [`ProviderHandle`] holds.
#[verifier::ext_equal]
pub enum ProviderHandleModel {
    Fly { machine_id: Seq<char>, volume_id: Seq<char>, app_name: Seq<char> },
    Microvm { vm_id: Seq<char>, spawner_url: Seq<char>, keep: bool },
}

impl DeepView for ProviderHandle {
    type V = ProviderHandleModel;

    open spec fn deep_view(&self) -> ProviderHandleModel {
        match self {
            ProviderHandle::Fly { machine_id, volume_id, app_name } => ProviderHandleModel::Fly {
                machine_id: machine_id.deep_view(),
                volume_id: volume_id.deep_view(),
                app_name: app_name.deep_view(),
            },
            ProviderHandle::Microvm { vm_id, spawner_url, keep } => ProviderHandleModel::Microvm {
                vm_id: vm_id.deep_view(),
                spawner_url: spawner_url.deep_view(),
                keep: keep.deep_view(),
            },
        }
    }
}

impl View for ProviderHandle {
    type V = ProviderHandleModel;

    open spec fn view(&self) -> ProviderHandleModel {
        self.deep_view()
    }
}

impl Replicate for ProviderHandle {
    fn replicate(&self) -> (copy: Self) {
        match self {
            ProviderHandle::Fly { machine_id, volume_id, app_name } => ProviderHandle::Fly {
                machine_id: machine_id.replicate(),
                volume_id: volume_id.replicate(),
                app_name: app_name.replicate(),
            },
            ProviderHandle::Microvm { vm_id, spawner_url, keep } => ProviderHandle::Microvm {
                vm_id: vm_id.replicate(),
                spawner_url: spawner_url.replicate(),
                keep: keep.replicate(),
            },
        }
    }
}

impl Clone for ProviderHandle {
    fn clone(&self) -> (copy: Self)
        ensures
            copy@ == self@,
    {
        self.replicate()
    }
}

/// A teardown that is to be tried again.
#[derive(Debug, PartialEq, Eq)]
pub struct TeardownRetryMetadata {
    pub attempt_count: u32,
    pub last_error: Option<String>,
    pub next_retry_at: Option<u64>,
    pub last_attempt_at: Option<u64>,
}

/// What a [`TeardownRetryMetadata`] holds.
#[verifier::ext_equal]
pub struct TeardownRetryMetadataModel {
    pub attempt_count: u32,
    pub last_error: Option<Seq<char>>,
    pub next_retry_at: Option<u64>,
    pub last_attempt_at: Option<u64>,
}

impl DeepView for TeardownRetryMetadata {
    type V = TeardownRetryMetadataModel;

    open spec fn deep_view(&self) -> TeardownRetryMetadataModel {
        TeardownRetryMetadataModel {
            attempt_count: self.attempt_count.deep_view(),
            last_error: self.last_error.deep_view(),
            next_retry_at: self.next_retry_at.deep_view(),
            last_attempt_at: self.last_attempt_at.deep_view(),
        }
    }
}

impl View for TeardownRetryMetadata {
    type V = TeardownRetryMetadataModel;

    open spec fn view(&self) -> TeardownRetryMetadataModel {
        self.deep_view()
    }
}

impl Replicate for TeardownRetryMetadata {
    fn replicate(&self) -> (copy: Self) {
        TeardownRetryMetadata {
            attempt_count: self.attempt_count.replicate(),
            last_error: self.last_error.replicate(),
            next_retry_at: self.next_retry_at.replicate(),
            last_attempt_at: self.last_attempt_at.replicate(),
        }
    }
}

impl Clone for TeardownRetryMetadata {
    fn clone(&self) -> (copy: Self)
        ensures
            copy@ == self@,
    {
        self.replicate()
    }
}

/// A runtime as the server keeps it.
#[derive(Debug, PartialEq, Eq)]
pub struct RuntimeRecord {
    pub owner_pubkey_hex: String,
    pub descriptor: RuntimeDescriptor,
    pub provider_handle: ProviderHandle,
    pub created_at: u64,
    pub expires_at: u64,
    pub teardown_retry: Option<TeardownRetryMetadata>,
}

/// What a [`RuntimeRecord`] holds.
#[verifier::ext_equal]
pub struct RuntimeRecordModel {
    pub owner_pubkey_hex: Seq<char>,
    pub descriptor: RuntimeDescriptorModel,
    pub provider_handle: ProviderHandleModel,
    pub created_at: u64,
    pub expires_at: u64,
    pub teardown_retry: Option<TeardownRetryMetadataModel>,
}

impl DeepView for RuntimeRecord {
    type V = RuntimeRecordModel;

    open spec fn deep_view(&self) -> RuntimeRecordModel {
        RuntimeRecordModel {
            owner_pubkey_hex: self.owner_pubkey_hex.deep_view(),
            descriptor: self.descriptor.deep_view(),
            provider_handle: self.provider_handle.deep_view(),
            created_at: self.created_at.deep_view(),
            expires_at: self.expires_at.deep_view(),
            teardown_retry: self.teardown_retry.deep_view(),
        }
    }
}

impl View for RuntimeRecord {
    type V = RuntimeRecordModel;

    open spec fn view(&self) -> RuntimeRecordModel {
        self.deep_view()
    }
}

impl Replicate for RuntimeRecord {
    fn replicate(&self) -> (copy: Self) {
        RuntimeRecord {
            owner_pubkey_hex: self.owner_pubkey_hex.replicate(),
            descriptor: self.descriptor.replicate(),
            provider_handle: self.provider_handle.replicate(),
            created_at: self.created_at.replicate(),
            expires_at: self.expires_at.replicate(),
            teardown_retry: self.teardown_retry.replicate(),
        }
    }
}

impl Clone for RuntimeRecord {
    fn clone(&self) -> (copy: Self)
        ensures
            copy@ == self@,
    {
        self.replicate()
    }
}

/// A build as the server keeps it.
#[derive(Debug, PartialEq, Eq)]
pub struct BuildRecord {
    pub build_id: String,
    pub owner_pubkey_hex: String,
    pub build_kind: BuildKind,
    pub phase: BuildPhase,
    pub source_ref: Option<String>,
    pub artifact_ref: Option<String>,
    pub created_at: u64,
    pub updated_at: u64,
    pub deadline_at: u64,
    pub ready_at: Option<u64>,
    pub context_bytes: u64,
    pub timeout_sec: u64,
    pub error_code: Option<String>,
    pub error_detail: Option<String>,
    pub canceled_at: Option<u64>,
}

/// What a [`BuildRecord`] holds.
#[verifier::ext_equal]
pub struct BuildRecordModel {
    pub build_id: Seq<char>,
    pub owner_pubkey_hex: Seq<char>,
    pub build_kind: BuildKind,
    pub phase: BuildPhase,
    pub source_ref: Option<Seq<char>>,
    pub artifact_ref: Option<Seq<char>>,
    pub created_at: u64,
    pub updated_at: u64,
    pub deadline_at: u64,
    pub ready_at: Option<u64>,
    pub context_bytes: u64,
    pub timeout_sec: u64,
    pub error_code: Option<Seq<char>>,
    pub error_detail: Option<Seq<char>>,
    pub canceled_at: Option<u64>,
}

impl DeepView for BuildRecord {
    type V = BuildRecordModel;

    open spec fn deep_view(&self) -> BuildRecordModel {
        BuildRecordModel {
            build_id: self.build_id.deep_view(),
            owner_pubkey_hex: self.owner_pubkey_hex.deep_view(),
            build_kind: self.build_kind.deep_view(),
            phase: self.phase.deep_view(),
            source_ref: self.source_ref.deep_view(),
            artifact_ref: self.artifact_ref.deep_view(),
            created_at: self.created_at.deep_view(),
            updated_at: self.updated_at.deep_view(),
            deadline_at: self.deadline_at.deep_view(),
            ready_at: self.ready_at.deep_view(),
            context_bytes: self.context_bytes.deep_view(),
            timeout_sec: self.timeout_sec.deep_view(),
            error_code: self.error_code.deep_view(),
            error_detail: self.error_detail.deep_view(),
            canceled_at: self.canceled_at.deep_view(),
        }
    }
}

impl View for BuildRecord {
    type V = BuildRecordModel;

    open spec fn view(&self) -> BuildRecordModel {
        self.deep_view()
    }
}

impl Replicate for BuildRecord {
    fn replicate(&self) -> (copy: Self) {
        BuildRecord {
            build_id: self.build_id.replicate(),
            owner_pubkey_hex: self.owner_pubkey_hex.replicate(),
            build_kind: self.build_kind.replicate(),
            phase: self.phase.replicate(),
            source_ref: self.source_ref.replicate(),
            artifact_ref: self.artifact_ref.replicate(),
            created_at: self.created_at.replicate(),
            updated_at: self.updated_at.replicate(),
            deadline_at: self.deadline_at.replicate(),
            ready_at: self.ready_at.replicate(),
            context_bytes: self.context_bytes.replicate(),
            timeout_sec: self.timeout_sec.replicate(),
            error_code: self.error_code.replicate(),
            error_detail: self.error_detail.replicate(),
            canceled_at: self.canceled_at.replicate(),
        }
    }
}

impl Clone for BuildRecord {
    fn clone(&self) -> (copy: Self)
        ensures
            copy@ == self@,
    {
        self.replicate()
    }
}

/// What a build made, or what a requester brought.
#[derive(Debug, PartialEq, Eq)]
pub struct ArtifactRecord {
    pub artifact_ref: String,
    pub build_kind: BuildKind,
    pub owner_pubkey_hex: String,
    pub created_at: u64,
    pub last_used_at: u64,
    pub expires_at: u64,
    pub source_build_id: Option<String>,
}

/// What a [`ArtifactRecord`] holds.
#[verifier::ext_equal]
pub struct ArtifactRecordModel {
    pub artifact_ref: Seq<char>,
    pub build_kind: BuildKind,
    pub owner_pubkey_hex: Seq<char>,
    pub created_at: u64,
    pub last_used_at: u64,
    pub expires_at: u64,
    pub source_build_id: Option<Seq<char>>,
}

impl DeepView for ArtifactRecord {
    type V = ArtifactRecordModel;

    open spec fn deep_view(&self) -> ArtifactRecordModel {
        ArtifactRecordModel {
            artifact_ref: self.artifact_ref.deep_view(),
            build_kind: self.build_kind.deep_view(),
            owner_pubkey_hex: self.owner_pubkey_hex.deep_view(),
            created_at: self.created_at.deep_view(),
            last_used_at: self.last_used_at.deep_view(),
            expires_at: self.expires_at.deep_view(),
            source_build_id: self.source_build_id.deep_view(),
        }
    }
}

impl View for ArtifactRecord {
    type V = ArtifactRecordModel;

    open spec fn view(&self) -> ArtifactRecordModel {
        self.deep_view()
    }
}

impl Replicate for ArtifactRecord {
    fn replicate(&self) -> (copy: Self) {
        ArtifactRecord {
            artifact_ref: self.artifact_ref.replicate(),
            build_kind: self.build_kind.replicate(),
            owner_pubkey_hex: self.owner_pubkey_hex.replicate(),
            created_at: self.created_at.replicate(),
            last_used_at: self.last_used_at.replicate(),
            expires_at: self.expires_at.replicate(),
            source_build_id: self.source_build_id.replicate(),
        }
    }
}

impl Clone for ArtifactRecord {
    fn clone(&self) -> (copy: Self)
        ensures
            copy@ == self@,
    {
        self.replicate()
    }
}

/// A line of the audit log.
#[derive(Debug, PartialEq, Eq)]
pub struct AuditEvent {
    pub ts: u64,
    pub actor_pubkey_hex: String,
    pub action: String,
    pub outcome: String,
    pub detail: Json,
}

/// What a [`AuditEvent`] holds.
#[verifier::ext_equal]
pub struct AuditEventModel {
    pub ts: u64,
    pub actor_pubkey_hex: Seq<char>,
    pub action: Seq<char>,
    pub outcome: Seq<char>,
    pub detail: JsonModel,
}

impl DeepView for AuditEvent {
    type V = AuditEventModel;

    open spec fn deep_view(&self) -> AuditEventModel {
        AuditEventModel {
            ts: self.ts.deep_view(),
            actor_pubkey_hex: self.actor_pubkey_hex.deep_view(),
            action: self.action.deep_view(),
            outcome: self.outcome.deep_view(),
            detail: self.detail.deep_view(),
        }
    }
}

impl View for AuditEvent {
    type V = AuditEventModel;

    open spec fn view(&self) -> AuditEventModel {
        self.deep_view()
    }
}

impl Replicate for AuditEvent {
    fn replicate(&self) -> (copy: Self) {
        AuditEvent {
            ts: self.ts.replicate(),
            actor_pubkey_hex: self.actor_pubkey_hex.replicate(),
            action: self.action.replicate(),
            outcome: self.outcome.replicate(),
            detail: self.detail.replicate(),
        }
    }
}

impl Clone for AuditEvent {
    fn clone(&self) -> (copy: Self)
        ensures
            copy@ == self@,
    {
        self.replicate()
    }
}

/// The answer to a command, kept for its repetitions.
#[allow(inconsistent_fields)]
#[derive(Debug, PartialEq, Eq)]
pub enum CachedTerminal {
    Result {
        provider: ProviderKind,
        runtime_id: String,
        runtime: RuntimeDescriptor,
        payload: Json,
    },
    Error {
        provider: Option<ProviderKind>,
        code: String,
        hint: Option<String>,
        detail: Option<String>,
    },
}

/// What a [`CachedTerminal`] holds.
#[allow(inconsistent_fields)]
#[verifier::ext_equal]
pub enum CachedTerminalModel {
    Result {
        provider: ProviderKind,
        runtime_id: Seq<char>,
        runtime: RuntimeDescriptorModel,
        payload: JsonModel,
    },
    Error {
        provider: Option<ProviderKind>,
        code: Seq<char>,
        hint: Option<Seq<char>>,
        detail: Option<Seq<char>>,
    },
}

impl DeepView for CachedTerminal {
    type V = CachedTerminalModel;

    open spec fn deep_view(&self) -> CachedTerminalModel {
        match self {
            CachedTerminal::Result {
                provider,
                runtime_id,
                runtime,
                payload,
            } => CachedTerminalModel::Result {
                provider: provider.deep_view(),
                runtime_id: runtime_id.deep_view(),
                runtime: runtime.deep_view(),
                payload: payload.deep_view(),
            },
            CachedTerminal::Error { provider, code, hint, detail } => CachedTerminalModel::Error {
                provider: provider.deep_view(),
                code: code.deep_view(),
                hint: hint.deep_view(),
                detail: detail.deep_view(),
            },
        }
    }
}

impl View for CachedTerminal {
    type V = CachedTerminalModel;

    open spec fn view(&self) -> CachedTerminalModel {
        self.deep_view()
    }
}

impl Replicate for CachedTerminal {
    fn replicate(&self) -> (copy: Self) {
        match self {
            CachedTerminal::Result {
                provider,
                runtime_id,
                runtime,
                payload,
            } => CachedTerminal::Result {
                provider: provider.replicate(),
                runtime_id: runtime_id.replicate(),
                runtime: runtime.replicate(),
                payload: payload.replicate(),
            },
            CachedTerminal::Error { provider, code, hint, detail } => CachedTerminal::Error {
                provider: provider.replicate(),
                code: code.replicate(),
                hint: hint.replicate(),
                detail: detail.replicate(),
            },
        }
    }
}

impl Clone for CachedTerminal {
    fn clone(&self) -> (copy: Self)
        ensures
            copy@ == self@,
    {
        self.replicate()
    }
}

/// What a provider gives back for a new runtime.
#[derive(Debug, PartialEq, Eq)]
pub struct ProvisionedRuntime {
    pub provider_handle: ProviderHandle,
    pub bot_pubkey: Option<String>,
    pub metadata: Json,
    pub runtime_class: Option<String>,
    pub region: Option<String>,
    pub capacity: Json,
    pub policy_constraints: Json,
    pub protocol_compatibility: Vec<ProtocolKind>,
}

/// What a [`ProvisionedRuntime`] holds.
#[verifier::ext_equal]
pub struct ProvisionedRuntimeModel {
    pub provider_handle: ProviderHandleModel,
    pub bot_pubkey: Option<Seq<char>>,
    pub metadata: JsonModel,
    pub runtime_class: Option<Seq<char>>,
    pub region: Option<Seq<char>>,
    pub capacity: JsonModel,
    pub policy_constraints: JsonModel,
    pub protocol_compatibility: Seq<ProtocolKind>,
}

impl DeepView for ProvisionedRuntime {
    type V = ProvisionedRuntimeModel;

    open spec fn deep_view(&self) -> ProvisionedRuntimeModel {
        ProvisionedRuntimeModel {
            provider_handle: self.provider_handle.deep_view(),
            bot_pubkey: self.bot_pubkey.deep_view(),
            metadata: self.metadata.deep_view(),
            runtime_class: self.runtime_class.deep_view(),
            region: self.region.deep_view(),
            capacity: self.capacity.deep_view(),
            policy_constraints: self.policy_constraints.deep_view(),
            protocol_compatibility: self.protocol_compatibility.deep_view(),
        }
    }
}

impl View for ProvisionedRuntime {
    type V = ProvisionedRuntimeModel;

    open spec fn view(&self) -> ProvisionedRuntimeModel {
        self.deep_view()
    }
}

impl Replicate for ProvisionedRuntime {
    fn replicate(&self) -> (copy: Self) {
        ProvisionedRuntime {
            provider_handle: self.provider_handle.replicate(),
            bot_pubkey: self.bot_pubkey.replicate(),
            metadata: self.metadata.replicate(),
            runtime_class: self.runtime_class.replicate(),
            region: self.region.replicate(),
            capacity: self.capacity.replicate(),
            policy_constraints: self.policy_constraints.replicate(),
            protocol_compatibility: self.protocol_compatibility.replicate(),
        }
    }
}

impl Clone for ProvisionedRuntime {
    fn clone(&self) -> (copy: Self)
        ensures
            copy@ == self@,
    {
        self.replicate()
    }
}

/// A failure of a provider or of a build service, in few words and in all.
#[derive(Debug, PartialEq, Eq)]
pub struct Failure {
    pub brief: String,
    pub full: String,
}

/// What a [`Failure`] holds.
#[verifier::ext_equal]
pub struct FailureModel {
    pub brief: Seq<char>,
    pub full: Seq<char>,
}

impl DeepView for Failure {
    type V = FailureModel;

    open spec fn deep_view(&self) -> FailureModel {
        FailureModel {
            brief: self.brief.deep_view(),
            full: self.full.deep_view(),
        }
    }
}

impl View for Failure {
    type V = FailureModel;

    open spec fn view(&self) -> FailureModel {
        self.deep_view()
    }
}

impl Replicate for Failure {
    fn replicate(&self) -> (copy: Self) {
        Failure {
            brief: self.brief.replicate(),
            full: self.full.replicate(),
        }
    }
}

impl Clone for Failure {
    fn clone(&self) -> (copy: Self)
        ensures
            copy@ == self@,
    {
        self.replicate()
    }
}

/// The name of a provider.
pub open spec fn provider_text(value: ProviderKind) -> Seq<char> {
    match value {
        ProviderKind::Fly => "fly"@,
        ProviderKind::Microvm => "microvm"@,
    }
}

/// The name of a provider.
pub fn provider_name(value: ProviderKind) -> (name: String)
    ensures
        name@ == provider_text(value),
{
    match value {
        ProviderKind::Fly => "fly".to_owned(),
        ProviderKind::Microvm => "microvm".to_owned(),
    }
}

/// The name of a protocol.
pub open spec fn protocol_text(value: ProtocolKind) -> Seq<char> {
    match value {
        ProtocolKind::Acp => "acp"@,
    }
}

/// The name of a protocol.
pub fn protocol_name(value: ProtocolKind) -> (name: String)
    ensures
        name@ == protocol_text(value),
{
    match value {
        ProtocolKind::Acp => "acp".to_owned(),
    }
}

/// The name of a kind of build.
pub open spec fn build_kind_text(value: BuildKind) -> Seq<char> {
    match value {
        BuildKind::Oci => "oci"@,
        BuildKind::Nix => "nix"@,
    }
}

/// The name of a kind of build.
pub fn build_kind_name(value: BuildKind) -> (name: String)
    ensures
        name@ == build_kind_text(value),
{
    match value {
        BuildKind::Oci => "oci".to_owned(),
        BuildKind::Nix => "nix".to_owned(),
    }
}

/// The name of a phase of a runtime.
pub open spec fn lifecycle_text(value: RuntimeLifecyclePhase) -> Seq<char> {
    match value {
        RuntimeLifecyclePhase::Queued => "queued"@,
        RuntimeLifecyclePhase::Provisioning => "provisioning"@,
        RuntimeLifecyclePhase::Ready => "ready"@,
        RuntimeLifecyclePhase::Failed => "failed"@,
        RuntimeLifecyclePhase::Teardown => "teardown"@,
    }
}

/// The name of a phase of a runtime.
pub fn lifecycle_name(value: RuntimeLifecyclePhase) -> (name: String)
    ensures
        name@ == lifecycle_text(value),
{
    match value {
        RuntimeLifecyclePhase::Queued => "queued".to_owned(),
        RuntimeLifecyclePhase::Provisioning => "provisioning".to_owned(),
        RuntimeLifecyclePhase::Ready => "ready".to_owned(),
        RuntimeLifecyclePhase::Failed => "failed".to_owned(),
        RuntimeLifecyclePhase::Teardown => "teardown".to_owned(),
    }
}

/// The name of a phase of a build.
pub open spec fn build_phase_text(value: BuildPhase) -> Seq<char> {
    match value {
        BuildPhase::Queued => "queued"@,
        BuildPhase::Validating => "validating"@,
        BuildPhase::FetchingSource => "fetching_source"@,
        BuildPhase::Building => "building"@,
        BuildPhase::PublishingArtifact => "publishing_artifact"@,
        BuildPhase::Succeeded => "succeeded"@,
        BuildPhase::Failed => "failed"@,
        BuildPhase::Canceled => "canceled"@,
    }
}

/// The name of a phase of a build.
pub fn build_phase_name(value: BuildPhase) -> (name: String)
    ensures
        name@ == build_phase_text(value),
{
    match value {
        BuildPhase::Queued => "queued".to_owned(),
        BuildPhase::Validating => "validating".to_owned(),
        BuildPhase::FetchingSource => "fetching_source".to_owned(),
        BuildPhase::Building => "building".to_owned(),
        BuildPhase::PublishingArtifact => "publishing_artifact".to_owned(),
        BuildPhase::Succeeded => "succeeded".to_owned(),
        BuildPhase::Failed => "failed".to_owned(),
        BuildPhase::Canceled => "canceled".to_owned(),
    }
}

/// The name of a phase of a build, for those who look closely.
pub open spec fn build_phase_debug_text(value: BuildPhase) -> Seq<char> {
    match value {
        BuildPhase::Queued => "Queued"@,
        BuildPhase::Validating => "Validating"@,
        BuildPhase::FetchingSource => "FetchingSource"@,
        BuildPhase::Building => "Building"@,
        BuildPhase::PublishingArtifact => "PublishingArtifact"@,
        BuildPhase::Succeeded => "Succeeded"@,
        BuildPhase::Failed => "Failed"@,
        BuildPhase::Canceled => "Canceled"@,
    }
}

/// The name of a phase of a build, for those who look closely.
pub fn build_phase_debug(value: BuildPhase) -> (name: String)
    ensures
        name@ == build_phase_debug_text(value),
{
    match value {
        BuildPhase::Queued => "Queued".to_owned(),
        BuildPhase::Validating => "Validating".to_owned(),
        BuildPhase::FetchingSource => "FetchingSource".to_owned(),
        BuildPhase::Building => "Building".to_owned(),
        BuildPhase::PublishingArtifact => "PublishingArtifact".to_owned(),
        BuildPhase::Succeeded => "Succeeded".to_owned(),
        BuildPhase::Failed => "Failed".to_owned(),
        BuildPhase::Canceled => "Canceled".to_owned(),
    }
}

/// Which kind of build a provider runs.
pub open spec fn build_kind_for(provider: ProviderKind) -> BuildKind {
    match provider {
        ProviderKind::Fly => BuildKind::Oci,
        ProviderKind::Microvm => BuildKind::Nix,
    }
}

/// Which kind of build a provider runs.
pub fn default_build_kind_for_provider(provider: ProviderKind) -> (kind: BuildKind)
    ensures
        kind == build_kind_for(provider),
{
    match provider {
        ProviderKind::Fly => BuildKind::Oci,
        ProviderKind::Microvm => BuildKind::Nix,
    }
}

/// Whether a build has come to its end.
pub open spec fn phase_is_terminal(phase: BuildPhase) -> bool {
    phase == BuildPhase::Succeeded || phase == BuildPhase::Failed || phase == BuildPhase::Canceled
}

impl BuildPhase {
    /// Whether a build in this phase has come to its end.
    pub fn is_terminal(self) -> (terminal: bool)
        ensures
            terminal == phase_is_terminal(self),
    {
        matches!(self, BuildPhase::Succeeded | BuildPhase::Failed | BuildPhase::Canceled)
    }
}

/// A status.
pub open spec fn status(
    request_id: Seq<char>,
    phase: RuntimeLifecyclePhase,
    runtime_id: Option<Seq<char>>,
    provider: Option<ProviderKind>,
    message: Seq<char>,
    payload: JsonModel,
) -> AgentControlStatusEnvelopeModel {
    AgentControlStatusEnvelopeModel {
        schema: STATUS_SCHEMA_V1@,
        request_id,
        phase,
        runtime_id,
        provider,
        message: Some(message),
        payload,
    }
}

impl AgentControlStatusEnvelope {
    /// A status.
    pub fn v1(
        request_id: &str,
        phase: RuntimeLifecyclePhase,
        runtime_id: Option<String>,
        provider: Option<ProviderKind>,
        message: &str,
        payload: Json,
    ) -> (envelope: Self)
        ensures
            envelope@ == status(
                request_id@,
                phase,
                runtime_id.deep_view(),
                provider.deep_view(),
                message@,
                payload@,
            ),
    {
        AgentControlStatusEnvelope {
            schema: STATUS_SCHEMA_V1.to_owned(),
            request_id: request_id.to_owned(),
            phase,
            runtime_id,
            provider,
            message: Some(message.to_owned()),
            payload,
        }
    }
}

/// The outcome of a command that went through.
pub open spec fn answered(
    statuses: Seq<AgentControlStatusEnvelopeModel>,
    request_id: Seq<char>,
    runtime: RuntimeDescriptorModel,
    payload: JsonModel,
) -> CommandOutcomeModel {
    CommandOutcomeModel {
        statuses,
        result: Some(
            AgentControlResultEnvelopeModel {
                schema: RESULT_SCHEMA_V1@,
                request_id,
                runtime,
                payload,
            },
        ),
        error: None,
    }
}

/// The outcome of a command that did not go through.
pub open spec fn refused(
    statuses: Seq<AgentControlStatusEnvelopeModel>,
    request_id: Seq<char>,
    code: Seq<char>,
    hint: Option<Seq<char>>,
    detail: Option<Seq<char>>,
) -> CommandOutcomeModel {
    CommandOutcomeModel {
        statuses,
        result: None,
        error: Some(
            AgentControlErrorEnvelopeModel {
                schema: ERROR_SCHEMA_V1@,
                request_id,
                code,
                hint,
                detail,
            },
        ),
    }
}

impl CommandOutcome {
    /// The outcome of a command that went through.
    pub fn result(
        statuses: Vec<AgentControlStatusEnvelope>,
        request_id: String,
        runtime: RuntimeDescriptor,
        payload: Json,
    ) -> (outcome: Self)
        ensures
            outcome@ == answered(statuses.deep_view(), request_id@, runtime@, payload@),
    {
        CommandOutcome {
            statuses,
            result: Some(
                AgentControlResultEnvelope {
                    schema: RESULT_SCHEMA_V1.to_owned(),
                    request_id,
                    runtime,
                    payload,
                },
            ),
            error: None,
        }
    }

    /// The outcome of a command that did not go through.
    pub fn error(
        statuses: Vec<AgentControlStatusEnvelope>,
        request_id: String,
        code: &str,
        hint: Option<String>,
        detail: Option<String>,
    ) -> (outcome: Self)
        ensures
            outcome@ == refused(
                statuses.deep_view(),
                request_id@,
                code@,
                hint.deep_view(),
                detail.deep_view(),
            ),
    {
        CommandOutcome {
            statuses,
            result: None,
            error: Some(
                AgentControlErrorEnvelope {
                    schema: ERROR_SCHEMA_V1.to_owned(),
                    request_id,
                    code: code.to_owned(),
                    hint,
                    detail,
                },
            ),
        }
    }
}

/// Adds a status to those that are sent.
pub fn push_status(
    statuses: &mut Vec<AgentControlStatusEnvelope>,
    envelope: AgentControlStatusEnvelope,
)
    ensures
        final(statuses).deep_view() == old(statuses).deep_view().push(envelope@),
{
    let ghost before = statuses.deep_view();
    let ghost added = envelope@;
    statuses.push(envelope);
    proof {
        assert(statuses.deep_view() =~= before.push(added));
    }
}

/// The descriptor that stands in an answer about no runtime in particular.
pub open spec fn summary_descriptor() -> RuntimeDescriptorModel {
    RuntimeDescriptorModel {
        runtime_id: "runtime-list-summary"@,
        provider: ProviderKind::Fly,
        lifecycle_phase: RuntimeLifecyclePhase::Ready,
        runtime_class: None,
        region: None,
        capacity: JsonModel::Null,
        policy_constraints: JsonModel::Null,
        protocol_compatibility: Seq::empty(),
        bot_pubkey: None,
        metadata: JsonModel::empty().with("summary"@, JsonModel::Bool(true)),
    }
}

/// The descriptor that stands in an answer about no runtime in particular.
pub fn default_list_summary_descriptor() -> (descriptor: RuntimeDescriptor)
    ensures
        descriptor@ == summary_descriptor(),
{
    let descriptor = RuntimeDescriptor {
        runtime_id: "runtime-list-summary".to_owned(),
        provider: ProviderKind::Fly,
        lifecycle_phase: RuntimeLifecyclePhase::Ready,
        runtime_class: None,
        region: None,
        capacity: json_null(),
        policy_constraints: json_null(),
        protocol_compatibility: Vec::new(),
        bot_pubkey: None,
        metadata: json_object().with("summary", crate::json::json_bool(true)),
    };
    proof {
        assert(descriptor@.protocol_compatibility =~= Seq::empty());
    }
    descriptor
}

/// The names of protocols, as JSON.
pub open spec fn protocols_json(protocols: Seq<ProtocolKind>) -> JsonModel {
    JsonModel::Array(protocols.map_values(|p: ProtocolKind| JsonModel::Text(protocol_text(p))))
}

/// The names of protocols, as JSON.
fn json_of_protocols(protocols: &Vec<ProtocolKind>) -> (json: Json)
    ensures
        json@ == protocols_json(protocols.deep_view()),
{
    let ghost all = protocols.deep_view();
    let ghost f = |p: ProtocolKind| JsonModel::Text(protocol_text(p));
    let mut items: Vec<Json> = Vec::new();
    let mut i: usize = 0;
    while i < protocols.len()
        invariant
            i <= protocols.len(),
            all == protocols.deep_view(),
            f == (|p: ProtocolKind| JsonModel::Text(protocol_text(p))),
            items.len() == i,
            forall|j: int| 0 <= j < i ==> #[trigger] items@[j].deep_view() == f(all[j]),
        decreases protocols.len() - i,
    {
        items.push(json_text(protocol_name(protocols[i]).as_str()));
        i += 1;
    }
    proof {
        assert(items.deep_view() =~= all.map_values(f));
    }
    json_array(items)
}

/// A runtime as JSON.
pub open spec fn descriptor_json(descriptor: RuntimeDescriptorModel) -> JsonModel {
    JsonModel::empty().with("runtime_id"@, JsonModel::Text(descriptor.runtime_id)).with(
        "provider"@,
        JsonModel::Text(provider_text(descriptor.provider)),
    ).with("lifecycle_phase"@, JsonModel::Text(lifecycle_text(descriptor.lifecycle_phase))).with(
        "runtime_class"@,
        JsonModel::optional_text(descriptor.runtime_class),
    ).with("region"@, JsonModel::optional_text(descriptor.region)).with(
        "capacity"@,
        descriptor.capacity,
    ).with("policy_constraints"@, descriptor.policy_constraints).with(
        "protocol_compatibility"@,
        protocols_json(descriptor.protocol_compatibility),
    ).with("bot_pubkey"@, JsonModel::optional_text(descriptor.bot_pubkey)).with(
        "metadata"@,
        descriptor.metadata,
    )
}

/// A runtime as JSON.
pub fn json_of_descriptor(descriptor: &RuntimeDescriptor) -> (json: Json)
    ensures
        json@ == descriptor_json(descriptor@),
{
    json_object().with("runtime_id", json_text(descriptor.runtime_id.as_str())).with(
        "provider",
        json_text(provider_name(descriptor.provider).as_str()),
    ).with(
        "lifecycle_phase",
        json_text(lifecycle_name(descriptor.lifecycle_phase).as_str()),
    ).with("runtime_class", Json::optional_text(&descriptor.runtime_class)).with(
        "region",
        Json::optional_text(&descriptor.region),
    ).with("capacity", descriptor.capacity.replicate()).with(
        "policy_constraints",
        descriptor.policy_constraints.replicate(),
    ).with(
        "protocol_compatibility",
        json_of_protocols(&descriptor.protocol_compatibility),
    ).with("bot_pubkey", Json::optional_text(&descriptor.bot_pubkey)).with(
        "metadata",
        descriptor.metadata.replicate(),
    )
}

/// A build as JSON.
pub open spec fn build_json(build: BuildRecordModel) -> JsonModel {
    JsonModel::empty().with("build_id"@, JsonModel::Text(build.build_id)).with(
        "owner_pubkey_hex"@,
        JsonModel::Text(build.owner_pubkey_hex),
    ).with("build_kind"@, JsonModel::Text(build_kind_text(build.build_kind))).with(
        "phase"@,
        JsonModel::Text(build_phase_text(build.phase)),
    ).with("source_ref"@, JsonModel::optional_text(build.source_ref)).with(
        "artifact_ref"@,
        JsonModel::optional_text(build.artifact_ref),
    ).with("created_at"@, JsonModel::UInt(build.created_at)).with(
        "updated_at"@,
        JsonModel::UInt(build.updated_at),
    ).with("deadline_at"@, JsonModel::UInt(build.deadline_at)).with(
        "ready_at"@,
        JsonModel::optional_uint(build.ready_at),
    ).with("context_bytes"@, JsonModel::UInt(build.context_bytes)).with(
        "timeout_sec"@,
        JsonModel::UInt(build.timeout_sec),
    ).with("error_code"@, JsonModel::optional_text(build.error_code)).with(
        "error_detail"@,
        JsonModel::optional_text(build.error_detail),
    ).with("canceled_at"@, JsonModel::optional_uint(build.canceled_at))
}

/// A build as JSON.
pub fn json_of_build(build: &BuildRecord) -> (json: Json)
    ensures
        json@ == build_json(build@),
{
    json_object().with("build_id", json_text(build.build_id.as_str())).with(
        "owner_pubkey_hex",
        json_text(build.owner_pubkey_hex.as_str()),
    ).with("build_kind", json_text(build_kind_name(build.build_kind).as_str())).with(
        "phase",
        json_text(build_phase_name(build.phase).as_str()),
    ).with("source_ref", Json::optional_text(&build.source_ref)).with(
        "artifact_ref",
        Json::optional_text(&build.artifact_ref),
    ).with("created_at", json_uint(build.created_at)).with(
        "updated_at",
        json_uint(build.updated_at),
    ).with("deadline_at", json_uint(build.deadline_at)).with(
        "ready_at",
        Json::optional_uint(build.ready_at),
    ).with("context_bytes", json_uint(build.context_bytes)).with(
        "timeout_sec",
        json_uint(build.timeout_sec),
    ).with("error_code", Json::optional_text(&build.error_code)).with(
        "error_detail",
        Json::optional_text(&build.error_detail),
    ).with("canceled_at", Json::optional_uint(build.canceled_at))
}

} // verus!
