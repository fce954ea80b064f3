//! The control service: its policies and its state, and how a command is taken up
//! and answered.
use vstd::prelude::*;
use crate::agent::policy::{
    allows, BuildPolicy, BuildPolicyModel, ProvisionPolicy, ProvisionPolicyModel, V2RolloutFlags,
    V2RolloutFlagsModel,
};
use crate::agent::state::{
    remembered, AgentControlState, AgentControlStateModel,
};
use crate::agent::types::{
    push_status, refused, status, answered, AgentControlCmdEnvelope, AgentControlCmdEnvelopeModel,
    AgentControlCommand, AgentControlCommandModel, AgentControlStatusEnvelope,
    AgentControlStatusEnvelopeModel, CachedTerminal, CachedTerminalModel, CommandOutcome,
    CommandOutcomeModel, ProviderKind, RuntimeLifecyclePhase, RuntimeRecord, RuntimeRecordModel,
    CMD_SCHEMA_V1, ERROR_SCHEMA_V1, RESULT_SCHEMA_V1, STATUS_SCHEMA_V1,
};
use crate::collections::Replicate;
use crate::json::{json_null, JsonModel};
use crate::text::same_text;

verus! {

/// The control service.
#[derive(Debug, PartialEq, Eq)]
pub struct AgentControlService {
    pub state: AgentControlState,
    pub provision_policy: ProvisionPolicy,
    pub v2_flags: V2RolloutFlags,
    pub build_policy: BuildPolicy,
    pub idempotency_max_entries: usize,
}

/// What a [`AgentControlService`] holds.
#[verifier::ext_equal]
pub struct AgentControlServiceModel {
    pub state: AgentControlStateModel,
    pub provision_policy: ProvisionPolicyModel,
    pub v2_flags: V2RolloutFlagsModel,
    pub build_policy: BuildPolicyModel,
    pub idempotency_max_entries: usize,
}

impl DeepView for AgentControlService {
    type V = AgentControlServiceModel;

    open spec fn deep_view(&self) -> AgentControlServiceModel {
        AgentControlServiceModel {
            state: self.state.deep_view(),
            provision_policy: self.provision_policy.deep_view(),
            v2_flags: self.v2_flags.deep_view(),
            build_policy: self.build_policy.deep_view(),
            idempotency_max_entries: self.idempotency_max_entries.deep_view(),
        }
    }
}

impl View for AgentControlService {
    type V = AgentControlServiceModel;

    open spec fn view(&self) -> AgentControlServiceModel {
        self.deep_view()
    }
}

impl Replicate for AgentControlService {
    fn replicate(&self) -> (copy: Self) {
        AgentControlService {
            state: self.state.replicate(),
            provision_policy: self.provision_policy.replicate(),
            v2_flags: self.v2_flags.replicate(),
            build_policy: self.build_policy.replicate(),
            idempotency_max_entries: self.idempotency_max_entries.replicate(),
        }
    }
}

impl Clone for AgentControlService {
    fn clone(&self) -> (copy: Self)
        ensures
            copy@ == self@,
    {
        self.replicate()
    }
}

/// Whether the schemas that the service speaks are those it was written for.
pub fn control_schema_healthcheck() -> (result: Result<(), String>)
    ensures
        result is Ok,
{
    if !same_text(CMD_SCHEMA_V1, "agent.control.cmd.v1") {
        return Err("unexpected command schema".to_owned());
    }
    if !same_text(STATUS_SCHEMA_V1, "agent.control.status.v1") {
        return Err("unexpected status schema".to_owned());
    }
    if !same_text(RESULT_SCHEMA_V1, "agent.control.result.v1") {
        return Err("unexpected result schema".to_owned());
    }
    if !same_text(ERROR_SCHEMA_V1, "agent.control.error.v1") {
        return Err("unexpected error schema".to_owned());
    }
    Ok(())
}

/// A step to go on with, or an answer, as a model.
pub open spec fn step_or_answer<T: DeepView>(result: Result<T, CommandOutcome>) -> Result<
    T::V,
    CommandOutcomeModel,
> {
    match result {
        Ok(step) => Ok(step.deep_view()),
        Err(answer) => Err(answer@),
    }
}

/// Whether a requester may see and manage a runtime: its owner may; one without
/// an owner belongs to all who may have runtimes provisioned.
pub open spec fn may_access(
    policy: ProvisionPolicyModel,
    requester: Seq<char>,
    runtime: RuntimeRecordModel,
) -> bool {
    if runtime.owner_pubkey_hex.len() == 0 {
        allows(policy, requester)
    } else {
        runtime.owner_pubkey_hex == requester
    }
}

/// The refusal of a requester who may not have runtimes provisioned.
pub open spec fn unauthorized(
    statuses: Seq<AgentControlStatusEnvelopeModel>,
    request_id: Seq<char>,
    requester: Seq<char>,
) -> CommandOutcomeModel {
    refused(
        statuses,
        request_id,
        "provision_unauthorized"@,
        Some("set PIKA_AGENT_CONTROL_PROVISION_ALLOWLIST to include this requester pubkey"@),
        Some("requester_pubkey="@ + requester),
    )
}

/// The refusal of a requester who may not have runtimes provisioned.
pub fn refuse_unauthorized(
    statuses: Vec<AgentControlStatusEnvelope>,
    request_id: String,
    requester: &str,
) -> (outcome: CommandOutcome)
    ensures
        outcome@ == unauthorized(statuses.deep_view(), request_id@, requester@),
{
    CommandOutcome::error(
        statuses,
        request_id,
        "provision_unauthorized",
        Some(
            "set PIKA_AGENT_CONTROL_PROVISION_ALLOWLIST to include this requester pubkey".to_owned(),
        ),
        Some("requester_pubkey=".to_owned().concat(requester)),
    )
}

/// The refusal of a runtime that is not there, or not for this requester.
pub open spec fn runtime_not_found(
    statuses: Seq<AgentControlStatusEnvelopeModel>,
    request_id: Seq<char>,
    runtime_id: Seq<char>,
) -> CommandOutcomeModel {
    refused(
        statuses,
        request_id,
        "runtime_not_found"@,
        Some("runtime id is unknown to this server"@),
        Some(runtime_id),
    )
}

/// The refusal of a runtime that is not there, or not for this requester.
pub fn refuse_runtime(
    statuses: Vec<AgentControlStatusEnvelope>,
    request_id: String,
    runtime_id: String,
) -> (outcome: CommandOutcome)
    ensures
        outcome@ == runtime_not_found(statuses.deep_view(), request_id@, runtime_id@),
{
    CommandOutcome::error(
        statuses,
        request_id,
        "runtime_not_found",
        Some("runtime id is unknown to this server".to_owned()),
        Some(runtime_id),
    )
}

/// Whether a runtime is there for a requester.
pub open spec fn runtime_visible(
    service: AgentControlServiceModel,
    requester: Seq<char>,
    runtime_id: Seq<char>,
) -> bool {
    service.state.runtimes.contains_key(runtime_id) && may_access(
        service.provision_policy,
        requester,
        service.state.runtimes[runtime_id],
    )
}

/// Whether the answer to a command is kept for its repetitions: those that change
/// something.
pub open spec fn is_cached(command: AgentControlCommandModel) -> bool {
    ||| command is Provision
    ||| command is ProcessWelcome
    ||| command is Teardown
    ||| command is SubmitBuild
    ||| command is CancelBuild
}

/// Whether the answer to a command is kept for its repetitions.
pub fn should_cache_success_result(command: &AgentControlCommand) -> (cached: bool)
    ensures
        cached == is_cached(command@),
{
    match command {
        AgentControlCommand::Provision(_) => true,
        AgentControlCommand::ProcessWelcome { .. } => true,
        AgentControlCommand::Teardown { .. } => true,
        AgentControlCommand::SubmitBuild(_) => true,
        AgentControlCommand::CancelBuild { .. } => true,
        _ => false,
    }
}

/// The provider that a kept answer is about.
pub open spec fn terminal_provider(terminal: CachedTerminalModel) -> Option<ProviderKind> {
    match terminal {
        CachedTerminalModel::Result { provider, .. } => Some(provider),
        CachedTerminalModel::Error { provider, .. } => provider,
    }
}

/// The runtime that a kept answer is about.
pub open spec fn terminal_runtime_id(terminal: CachedTerminalModel) -> Option<Seq<char>> {
    match terminal {
        CachedTerminalModel::Result { runtime_id, .. } => Some(runtime_id),
        CachedTerminalModel::Error { .. } => None,
    }
}

/// The outcome that a kept answer stands for, for another request.
pub open spec fn terminal_outcome(
    terminal: CachedTerminalModel,
    statuses: Seq<AgentControlStatusEnvelopeModel>,
    request_id: Seq<char>,
) -> CommandOutcomeModel {
    match terminal {
        CachedTerminalModel::Result { runtime, payload, .. } => answered(
            statuses,
            request_id,
            runtime,
            payload,
        ),
        CachedTerminalModel::Error { code, hint, detail, .. } => refused(
            statuses,
            request_id,
            code,
            hint,
            detail,
        ),
    }
}

impl CachedTerminal {
    /// The provider that this answer is about.
    pub fn provider(&self) -> (provider: Option<ProviderKind>)
        ensures
            provider == terminal_provider(self@),
    {
        match self {
            CachedTerminal::Result { provider, .. } => Some(*provider),
            CachedTerminal::Error { provider, .. } => *provider,
        }
    }

    /// The runtime that this answer is about.
    pub fn runtime_id(&self) -> (id: Option<String>)
        ensures
            id.deep_view() == terminal_runtime_id(self@),
    {
        match self {
            CachedTerminal::Result { runtime_id, .. } => Some(runtime_id.clone()),
            CachedTerminal::Error { .. } => None,
        }
    }

    /// The outcome that this answer stands for, for another request.
    pub fn to_outcome(&self, statuses: Vec<AgentControlStatusEnvelope>, request_id: String) -> (outcome:
        CommandOutcome)
        ensures
            outcome@ == terminal_outcome(self@, statuses.deep_view(), request_id@),
    {
        match self {
            CachedTerminal::Result { runtime, payload, .. } => CommandOutcome::result(
                statuses,
                request_id,
                runtime.replicate(),
                payload.replicate(),
            ),
            CachedTerminal::Error { code, hint, detail, .. } => CommandOutcome::error(
                statuses,
                request_id,
                code.as_str(),
                hint.replicate(),
                detail.replicate(),
            ),
        }
    }
}

/// The status that every request begins with.
pub open spec fn queued(request_id: Seq<char>) -> Seq<AgentControlStatusEnvelopeModel> {
    seq![
        status(
            request_id,
            RuntimeLifecyclePhase::Queued,
            None,
            None,
            "request queued"@,
            JsonModel::Null,
        ),
    ]
}

/// The status of an answer that was kept.
pub open spec fn replayed(request_id: Seq<char>, terminal: CachedTerminalModel) -> AgentControlStatusEnvelopeModel {
    status(
        request_id,
        RuntimeLifecyclePhase::Ready,
        terminal_runtime_id(terminal),
        terminal_provider(terminal),
        "idempotent replay"@,
        JsonModel::Null,
    )
}

/// The answer that a command gets before it is looked at: a schema that is not
/// spoken is refused, and a command that was answered before gets that answer.
pub open spec fn immediate_outcome(
    service: AgentControlServiceModel,
    requester: Seq<char>,
    cmd: AgentControlCmdEnvelopeModel,
) -> Option<CommandOutcomeModel> {
    let key = (requester, cmd.idempotency_key);
    if cmd.schema != CMD_SCHEMA_V1@ {
        Some(
            refused(
                queued(cmd.request_id),
                cmd.request_id,
                "invalid_schema"@,
                Some("expected "@ + CMD_SCHEMA_V1@),
                Some("got "@ + cmd.schema),
            ),
        )
    } else if service.state.idempotency.contains_key(key) {
        let terminal = service.state.idempotency[key];
        Some(
            terminal_outcome(
                terminal,
                queued(cmd.request_id).push(replayed(cmd.request_id, terminal)),
                cmd.request_id,
            ),
        )
    } else {
        None
    }
}

/// The answer that is kept of an outcome, where one is.
pub open spec fn kept_answer(
    cmd: AgentControlCmdEnvelopeModel,
    outcome: CommandOutcomeModel,
) -> Option<CachedTerminalModel> {
    match outcome.result {
        Some(result) if is_cached(cmd.command) => Some(
            CachedTerminalModel::Result {
                provider: result.runtime.provider,
                runtime_id: result.runtime.runtime_id,
                runtime: result.runtime,
                payload: result.payload,
            },
        ),
        _ => None,
    }
}

/// The service after a command was answered: an answer that went through is kept
/// where the command changes something.
pub open spec fn concluded(
    service: AgentControlServiceModel,
    requester: Seq<char>,
    cmd: AgentControlCmdEnvelopeModel,
    outcome: CommandOutcomeModel,
) -> AgentControlServiceModel {
    match kept_answer(cmd, outcome) {
        Some(terminal) => AgentControlServiceModel {
            state: remembered(
                service.state,
                (requester, cmd.idempotency_key),
                terminal,
                service.idempotency_max_entries as nat,
            ),
            ..service
        },
        None => service,
    }
}

impl AgentControlService {
    /// Whether a requester may see and manage a runtime.
    pub fn can_access_runtime(&self, requester_pubkey_hex: &str, runtime: &RuntimeRecord) -> (allowed:
        bool)
        ensures
            allowed == may_access(self@.provision_policy, requester_pubkey_hex@, runtime@),
    {
        if runtime.owner_pubkey_hex.as_str().is_empty() {
            return self.provision_policy.is_allowed(requester_pubkey_hex);
        }
        same_text(runtime.owner_pubkey_hex.as_str(), requester_pubkey_hex)
    }

    /// A runtime that is there for a requester.
    pub fn visible_runtime(&self, requester_pubkey_hex: &str, runtime_id: &String) -> (runtime: Option<
        RuntimeRecord,
    >)
        ensures
            match runtime {
                Some(runtime) => runtime_visible(self@, requester_pubkey_hex@, runtime_id@)
                    && runtime@ == self@.state.runtimes[runtime_id@],
                None => !runtime_visible(self@, requester_pubkey_hex@, runtime_id@),
            },
    {
        match self.state.runtimes.get(runtime_id) {
            None => None,
            Some(runtime) => {
                if self.can_access_runtime(requester_pubkey_hex, runtime) {
                    Some(runtime.replicate())
                } else {
                    None
                }
            },
        }
    }

    /// Takes up a command: answers it where that can be done at once, and
    /// otherwise gives the statuses to go on with.
    pub fn begin_command(&self, requester_pubkey_hex: &str, cmd: &AgentControlCmdEnvelope) -> (begun:
        Result<Vec<AgentControlStatusEnvelope>, CommandOutcome>)
        ensures
            match immediate_outcome(self@, requester_pubkey_hex@, cmd@) {
                Some(outcome) => begun is Err && begun->Err_0@ == outcome,
                None => begun is Ok && begun->Ok_0.deep_view() == queued(cmd@.request_id),
            },
    {
        let mut statuses: Vec<AgentControlStatusEnvelope> = Vec::new();
        proof {
            assert(statuses.deep_view() =~= Seq::empty());
        }
        push_status(
            &mut statuses,
            AgentControlStatusEnvelope::v1(
                cmd.request_id.as_str(),
                RuntimeLifecyclePhase::Queued,
                None,
                None,
                "request queued",
                json_null(),
            ),
        );
        proof {
            assert(statuses.deep_view() =~= queued(cmd@.request_id));
        }
        if !same_text(cmd.schema.as_str(), CMD_SCHEMA_V1) {
            return Err(
                CommandOutcome::error(
                    statuses,
                    cmd.request_id.clone(),
                    "invalid_schema",
                    Some("expected ".to_owned().concat(CMD_SCHEMA_V1)),
                    Some("got ".to_owned().concat(cmd.schema.as_str())),
                ),
            );
        }
        let key = (requester_pubkey_hex.to_owned(), cmd.idempotency_key.clone());
        match self.state.idempotency.get(&key) {
            None => Ok(statuses),
            Some(terminal) => {
                push_status(
                    &mut statuses,
                    AgentControlStatusEnvelope::v1(
                        cmd.request_id.as_str(),
                        RuntimeLifecyclePhase::Ready,
                        terminal.runtime_id(),
                        terminal.provider(),
                        "idempotent replay",
                        json_null(),
                    ),
                );
                Err(terminal.to_outcome(statuses, cmd.request_id.clone()))
            },
        }
    }

    /// Keeps the answer to a command, where it is one that is kept; says whether
    /// it was.
    pub fn conclude_command(
        &mut self,
        requester_pubkey_hex: &str,
        cmd: &AgentControlCmdEnvelope,
        outcome: &CommandOutcome,
    ) -> (kept: bool)
        ensures
            kept == (kept_answer(cmd@, outcome@) is Some),
            final(self)@ == concluded(old(self)@, requester_pubkey_hex@, cmd@, outcome@),
    {
        if !should_cache_success_result(&cmd.command) {
            return false;
        }
        match &outcome.result {
            None => false,
            Some(result) => {
                let terminal = CachedTerminal::Result {
                    provider: result.runtime.provider,
                    runtime_id: result.runtime.runtime_id.clone(),
                    runtime: result.runtime.replicate(),
                    payload: result.payload.replicate(),
                };
                let key = (requester_pubkey_hex.to_owned(), cmd.idempotency_key.clone());
                self.state.insert_idempotency(key, terminal, self.idempotency_max_entries);
                true
            },
        }
    }
}

/// Somebody else's runtime is not there: neither its owner's name nor its
/// existence shows.
pub proof fn foreign_runtime_is_invisible(
    service: AgentControlServiceModel,
    requester: Seq<char>,
    runtime_id: Seq<char>,
)
    requires
        service.state.runtimes.contains_key(runtime_id),
        service.state.runtimes[runtime_id].owner_pubkey_hex.len() > 0,
        service.state.runtimes[runtime_id].owner_pubkey_hex != requester,
    ensures
        !runtime_visible(service, requester, runtime_id),
{
}

} // verus!
