use std::cell::Cell;
use std::rc::Rc;

use rapture_core::agent::commands::{
    CommandContext, CommandStep, ProvisionReply, SaveReply, StepEvent, TeardownReply, WelcomeReply,
};
use rapture_core::agent::distribution::{load_distribution_manifests, DistributionDefaults};
use rapture_core::agent::ids::{new_build_id, new_runtime_id};
use rapture_core::agent::keys::KeyPair;
use rapture_core::agent::metadata::{
    env_json_for_provider, env_string_for_provider, provider_setting_name, runtime_profile,
    ProfileSettings, RuntimeProfile,
};
use rapture_core::agent::migration::{
    migrate_legacy_protocol_values, migrate_read_state, read_state,
};
use rapture_core::agent::policy::{
    load_build_policy, BuildPolicy, BuildSettings, ProvisionPolicy, SourceAllowRule,
    V2RolloutFlags, DEFAULT_IDEMPOTENCY_MAX_ENTRIES,
};
use rapture_core::agent::providers::{plan_new_fly_machine, plan_vm, process_welcome};
use rapture_core::agent::reaper::ReapStep;
use rapture_core::agent::service::AgentControlService;
use rapture_core::agent::state::{AgentControlState, PersistedControlState};
use rapture_core::agent::types::{
    provider_name, AgentControlCmdEnvelope, AgentControlCommand, ArtifactRecord, BuildKind,
    BuildPhase, BuildRecord, CommandOutcome, Failure, ListRuntimesCommand, ProtocolKind,
    ProviderHandle, ProviderKind, ProvisionCommand, ProvisionedRuntime,
    ResolveDistributionCommand, RuntimeDescriptor, RuntimeLifecyclePhase, RuntimeRecord,
    SubmitBuildCommand, CMD_SCHEMA_V1,
};
use rapture_core::collections::{OrdMap, OrdSet};
use rapture_core::json::Json;

const NOW: u64 = 1_700_000_000;
const TTL: u64 = 3600;

fn json(text: &str) -> Json {
    Json { value: serde_json::from_str(text).expect("json") }
}

fn calls() -> Rc<Cell<usize>> {
    Rc::new(Cell::new(0))
}

fn count(calls: &Rc<Cell<usize>>) {
    calls.set(calls.get() + 1);
}

fn fresh_key() -> String {
    format!("{:032x}{:032x}", rand::random::<u128>(), rand::random::<u128>())
}

fn no_settings() -> ProfileSettings {
    ProfileSettings {
        runtime_class: None,
        runtime_class_for_all: None,
        region: None,
        region_for_all: None,
        capacity_json: None,
        capacity_json_for_all: None,
        policy_json: None,
        policy_json_for_all: None,
    }
}

fn fly_profile() -> RuntimeProfile {
    runtime_profile(ProviderKind::Fly, &no_settings())
}

fn mock_provisioned_runtime(runtime_id: &str) -> ProvisionedRuntime {
    ProvisionedRuntime {
        provider_handle: ProviderHandle::Fly {
            machine_id: "machine-1".to_string(),
            volume_id: "volume-1".to_string(),
            app_name: "app".to_string(),
        },
        bot_pubkey: Some("ab".repeat(32)),
        metadata: json(&format!(r#"{{"runtime_id": "{runtime_id}", "mock": true}}"#)),
        runtime_class: Some("mock".to_string()),
        region: Some("local".to_string()),
        capacity: json(r#"{"slots": 1}"#),
        policy_constraints: json(r#"{"allow_keep": true}"#),
        protocol_compatibility: vec![ProtocolKind::Acp],
    }
}

trait Adapter {
    fn provision(&self, runtime_id: &str) -> Result<ProvisionedRuntime, String>;

    fn teardown(&self) -> Result<Json, String>;
}

struct MockAdapter {
    calls: Rc<Cell<usize>>,
}

impl Adapter for MockAdapter {
    fn provision(&self, runtime_id: &str) -> Result<ProvisionedRuntime, String> {
        count(&self.calls);
        Ok(mock_provisioned_runtime(runtime_id))
    }

    fn teardown(&self) -> Result<Json, String> {
        Ok(json(r#"{"ok": true}"#))
    }
}

struct CountingFailingAdapter {
    calls: Rc<Cell<usize>>,
}

impl Adapter for CountingFailingAdapter {
    fn provision(&self, _runtime_id: &str) -> Result<ProvisionedRuntime, String> {
        count(&self.calls);
        Err("simulated provision failure".to_string())
    }

    fn teardown(&self) -> Result<Json, String> {
        Ok(json(r#"{"ok": true}"#))
    }
}

struct ValidationMismatchAdapter {
    provision_calls: Rc<Cell<usize>>,
    teardown_calls: Rc<Cell<usize>>,
    runtime_class: Option<String>,
    protocol_compatibility: Vec<ProtocolKind>,
}

impl Adapter for ValidationMismatchAdapter {
    fn provision(&self, runtime_id: &str) -> Result<ProvisionedRuntime, String> {
        count(&self.provision_calls);
        let mut provisioned = mock_provisioned_runtime(runtime_id);
        provisioned.runtime_class = self.runtime_class.clone();
        provisioned.protocol_compatibility = self.protocol_compatibility.clone();
        Ok(provisioned)
    }

    fn teardown(&self) -> Result<Json, String> {
        count(&self.teardown_calls);
        Ok(json(r#"{"cleanup": true}"#))
    }
}

enum TeardownBehavior {
    Payload(Json),
    Error(&'static str),
}

struct TeardownContractAdapter {
    teardown_calls: Rc<Cell<usize>>,
    behavior: TeardownBehavior,
}

impl Adapter for TeardownContractAdapter {
    fn provision(&self, runtime_id: &str) -> Result<ProvisionedRuntime, String> {
        Ok(mock_provisioned_runtime(runtime_id))
    }

    fn teardown(&self) -> Result<Json, String> {
        count(&self.teardown_calls);
        match &self.behavior {
            TeardownBehavior::Payload(payload) => Ok(payload.clone()),
            TeardownBehavior::Error(msg) => Err(msg.to_string()),
        }
    }
}

/// A service with its providers and its disk.
struct Server {
    service: AgentControlService,
    adapter: Rc<dyn Adapter>,
    now: u64,
    disk_fails: bool,
    disk: Option<PersistedControlState>,
}

impl Server {
    fn from_parts(
        state: AgentControlState,
        adapter: Rc<dyn Adapter>,
        provision_policy: ProvisionPolicy,
        idempotency_max_entries: usize,
        v2_flags: V2RolloutFlags,
        build_policy: BuildPolicy,
    ) -> Server {
        let (service, _, _) = AgentControlService::open(
            state,
            provision_policy,
            v2_flags,
            build_policy,
            idempotency_max_entries,
            NOW,
            TTL,
        );
        Server { service, adapter, now: NOW, disk_fails: false, disk: None }
    }

    fn with_adapters(adapter: Rc<dyn Adapter>) -> Server {
        Server::with_adapters_and_policy(
            adapter,
            ProvisionPolicy::AllowAll,
            DEFAULT_IDEMPOTENCY_MAX_ENTRIES,
        )
    }

    fn with_adapters_and_policy(
        adapter: Rc<dyn Adapter>,
        provision_policy: ProvisionPolicy,
        idempotency_max_entries: usize,
    ) -> Server {
        Server::with_adapters_policy_and_flags(
            adapter,
            provision_policy,
            idempotency_max_entries,
            V2RolloutFlags { advanced_workload_enabled: false },
        )
    }

    fn with_adapters_policy_and_flags(
        adapter: Rc<dyn Adapter>,
        provision_policy: ProvisionPolicy,
        idempotency_max_entries: usize,
        v2_flags: V2RolloutFlags,
    ) -> Server {
        Server::with_adapters_policy_flags_and_build_policy(
            adapter,
            provision_policy,
            idempotency_max_entries,
            v2_flags,
            default_build_policy(),
        )
    }

    fn with_adapters_policy_flags_and_build_policy(
        adapter: Rc<dyn Adapter>,
        provision_policy: ProvisionPolicy,
        idempotency_max_entries: usize,
        v2_flags: V2RolloutFlags,
        build_policy: BuildPolicy,
    ) -> Server {
        Server::from_parts(
            AgentControlState::default(),
            adapter,
            provision_policy,
            idempotency_max_entries,
            v2_flags,
            build_policy,
        )
    }

    fn state(&self) -> &AgentControlState {
        &self.service.state
    }

    fn state_mut(&mut self) -> &mut AgentControlState {
        &mut self.service.state
    }

    fn save(&mut self) -> SaveReply {
        if self.disk_fails {
            return SaveReply::Failed("disk is full".to_string());
        }
        self.disk = Some(self.service.state.to_persisted());
        SaveReply::Saved
    }

    fn torn_down(&self) -> TeardownReply {
        match self.adapter.teardown() {
            Ok(payload) => TeardownReply::Done(payload),
            Err(error) => TeardownReply::Failed(Failure { brief: error.clone(), full: error }),
        }
    }

    fn handle_command(&mut self, requester: &str, cmd: AgentControlCmdEnvelope) -> CommandOutcome {
        let defaults = DistributionDefaults {
            fly: fly_profile(),
            microvm: runtime_profile(ProviderKind::Microvm, &no_settings()),
            ttl_secs: TTL,
            fly_artifact_ref: None,
            microvm_artifact_ref: None,
        };
        let context = CommandContext {
            now: self.now,
            fly: defaults.fly.clone(),
            microvm: defaults.microvm.clone(),
            ttl_secs: TTL,
            manifests: load_distribution_manifests(None, &defaults),
            build_id: new_build_id(),
        };
        let before = self.service.clone();
        let (mut step, changed) = self.service.handle_command(requester, &cmd, &context);
        if !changed {
            assert_eq!(before, self.service);
        }
        loop {
            let event = match &step {
                CommandStep::Settled(outcome) => return outcome.clone(),
                CommandStep::Done(outcome) => {
                    self.service.conclude_command(requester, &cmd, outcome);
                    return outcome.clone();
                }
                CommandStep::Provision(job) => {
                    let runtime_id = new_runtime_id(job.provision.provider);
                    let reply = match self.adapter.provision(&runtime_id) {
                        Ok(made) => ProvisionReply::Made(made),
                        Err(error) => ProvisionReply::Failed(error),
                    };
                    StepEvent::Provisioned { runtime_id, reply, ttl_secs: TTL }
                }
                CommandStep::CleanUp(_)
                | CommandStep::TearDownRollback(_)
                | CommandStep::TearDown(_) => StepEvent::TornDown(self.torn_down()),
                CommandStep::Welcome(job) => StepEvent::Welcomed(WelcomeReply::Processed(
                    process_welcome(job.runtime.descriptor.provider),
                )),
                CommandStep::SaveRuntime(_)
                | CommandStep::SaveRollback(_)
                | CommandStep::SaveTeardown(_)
                | CommandStep::SaveTornDown(_)
                | CommandStep::SaveSubmission(_) => StepEvent::Saved(self.save()),
            };
            step = self.service.resume_command(step, event, self.now).0;
        }
    }

    fn reap_expired_runtimes_at(&mut self, now: u64) -> usize {
        let (mut sweep, mut step) = self.service.begin_sweep(now);
        loop {
            let event = match &step {
                ReapStep::Rest => {
                    self.save();
                    return sweep.due.len();
                }
                ReapStep::Save(_) => StepEvent::Saved(self.save()),
                ReapStep::TearDown(_) => StepEvent::TornDown(self.torn_down()),
            };
            (sweep, step) = self.service.resume_sweep(sweep, step, event);
        }
    }

    fn garbage_collect_artifacts_at(&mut self, now: u64) -> usize {
        let max_audit_entries = self.service.build_policy.max_audit_entries;
        self.service.state.garbage_collect_artifacts_at(now, max_audit_entries)
    }

    fn change_runtime(&mut self, runtime_id: &String, change: impl Fn(&mut RuntimeRecord)) {
        let mut runtime = self.service.state.runtimes.take(runtime_id).expect("runtime exists");
        change(&mut runtime);
        self.service.state.runtimes.insert(runtime_id.clone(), runtime);
    }
}

fn default_build_policy() -> BuildPolicy {
    load_build_policy(&BuildSettings {
        allowed_source_prefixes: String::new(),
        max_active: None,
        max_submissions_per_hour: None,
        max_context_bytes: None,
        default_timeout_secs: None,
        max_timeout_secs: None,
        artifact_ttl_secs: None,
        audit_max_entries: None,
    })
}

fn test_build_policy(allowed_source_prefixes: Vec<&str>) -> BuildPolicy {
    BuildPolicy {
        max_active_builds: 8,
        max_submissions_per_hour: 30,
        max_context_bytes: 1024 * 1024,
        default_timeout_secs: 120,
        max_timeout_secs: 1200,
        artifact_ttl_secs: 300,
        max_audit_entries: 128,
        allowed_source_rules: allowed_source_prefixes
            .into_iter()
            .filter_map(|entry| SourceAllowRule::parse(entry).ok())
            .collect(),
    }
}

fn request_with(
    request_id: &str,
    idempotency_key: &str,
    command: AgentControlCommand,
) -> AgentControlCmdEnvelope {
    AgentControlCmdEnvelope {
        schema: CMD_SCHEMA_V1.to_string(),
        request_id: request_id.to_string(),
        idempotency_key: idempotency_key.to_string(),
        command,
    }
}

fn request(command: AgentControlCommand) -> AgentControlCmdEnvelope {
    request_with("req-1", "idem-1", command)
}

fn plain_provision(provider: ProviderKind) -> ProvisionCommand {
    ProvisionCommand {
        provider,
        protocol: ProtocolKind::Acp,
        name: None,
        runtime_class: None,
        relay_urls: vec![],
        keep: false,
        bot_secret_key_hex: None,
        build_id: None,
        artifact_ref: None,
        advanced_workload_json: None,
        microvm: None,
    }
}

fn list_all() -> ListRuntimesCommand {
    ListRuntimesCommand {
        provider: None,
        protocol: None,
        lifecycle_phase: None,
        runtime_class: None,
        limit: None,
    }
}

fn provision_runtime_for_tests(
    service: &mut Server,
    requester: &str,
    request_id: &str,
    idempotency_key: &str,
) -> String {
    let out = service.handle_command(
        requester,
        request_with(
            request_id,
            idempotency_key,
            AgentControlCommand::Provision(plain_provision(ProviderKind::Fly)),
        ),
    );
    out.result.expect("provision should succeed").runtime.runtime_id
}

fn stored_runtime(runtime_id: &str, owner: &str, created_at: u64, expires_at: u64) -> RuntimeRecord {
    RuntimeRecord {
        owner_pubkey_hex: owner.to_string(),
        descriptor: RuntimeDescriptor {
            runtime_id: runtime_id.to_string(),
            provider: ProviderKind::Fly,
            lifecycle_phase: RuntimeLifecyclePhase::Ready,
            runtime_class: Some("fly".to_string()),
            region: Some("local".to_string()),
            capacity: json(r#"{"slots": 1}"#),
            policy_constraints: json("null"),
            protocol_compatibility: vec![ProtocolKind::Acp],
            bot_pubkey: Some("ab".repeat(32)),
            metadata: json("null"),
        },
        provider_handle: ProviderHandle::Fly {
            machine_id: "machine-1".to_string(),
            volume_id: "volume-1".to_string(),
            app_name: "app".to_string(),
        },
        created_at,
        expires_at,
        teardown_retry: None,
    }
}

fn deleted_payload() -> TeardownBehavior {
    TeardownBehavior::Payload(json(
        r#"{"teardown": "deleted", "machine_status": "deleted", "volume_status": "deleted", "retryable": false}"#,
    ))
}

#[test]
fn idempotency_replay_does_not_reprovision() {
    let calls = calls();
    let adapter = std::rc::Rc::new(MockAdapter {
        calls: calls.clone(),
    });
    let mut service = Server::with_adapters(adapter.clone());
    let requester = fresh_key();

    let first = service.handle_command(
            &requester,
            request(AgentControlCommand::Provision(plain_provision(ProviderKind::Fly))),
        );
    assert!(first.result.is_some());
    assert_eq!(calls.get(), 1);

    let replay = service.handle_command(
            &requester,
            request(AgentControlCommand::Provision(plain_provision(ProviderKind::Fly))),
        );
    assert!(replay.result.is_some());
    assert_eq!(calls.get(), 1);
    assert!(replay
        .statuses
        .iter()
        .any(|status| status.message.as_deref() == Some("idempotent replay")));
}

#[test]
fn get_runtime_returns_not_found_before_provision() {
    let calls = calls();
    let adapter = std::rc::Rc::new(MockAdapter {
        calls: calls.clone(),
    });
    let mut service = Server::with_adapters(adapter.clone());
    let requester = fresh_key();
    let out = service.handle_command(
            &requester,
            request(AgentControlCommand::GetRuntime {
                runtime_id: "does-not-exist".to_string(),
            }),
        );
    assert!(out.result.is_none());
    let err = out.error.expect("expected not found error");
    assert_eq!(err.code, "runtime_not_found");
}

#[test]
fn list_runtimes_supports_filters() {
    let calls = calls();
    let adapter = std::rc::Rc::new(MockAdapter {
        calls: calls.clone(),
    });
    let mut service = Server::with_adapters(adapter.clone());
    let requester = fresh_key();

    for (req_id, idem, provider) in [
        ("req-1", "idem-1", ProviderKind::Fly),
        ("req-2", "idem-2", ProviderKind::Microvm),
    ] {
        let out = service.handle_command(
                &requester,
                request_with(
                    req_id,
                    idem,
                    AgentControlCommand::Provision(plain_provision(provider)),
                ),
            );
        assert!(out.result.is_some());
    }

    let out = service.handle_command(
            &requester,
            request_with(
                "req-list",
                "idem-list",
                AgentControlCommand::ListRuntimes(ListRuntimesCommand {
                    provider: Some(ProviderKind::Microvm),
                    protocol: Some(ProtocolKind::Acp),
                    lifecycle_phase: Some(RuntimeLifecyclePhase::Ready),
                    runtime_class: Some("mock".to_string()),
                    limit: Some(10),
                }),
            ),
        );
    let result = out.result.expect("list result");
    let runtimes = result
        .payload.value.get("runtimes")
        .and_then(serde_json::Value::as_array)
        .cloned()
        .expect("runtimes array");
    assert_eq!(runtimes.len(), 1);
    let provider = runtimes[0]
        .get("provider")
        .and_then(serde_json::Value::as_str)
        .unwrap_or("");
    assert_eq!(provider, "microvm");
}

#[test]
fn runtime_class_mismatch_fails_before_provision() {
    let calls = calls();
    let adapter = std::rc::Rc::new(MockAdapter {
        calls: calls.clone(),
    });
    let mut service = Server::with_adapters(adapter.clone());
    let requester = fresh_key();

    let out = service.handle_command(
            &requester,
            request(AgentControlCommand::Provision(ProvisionCommand {
                provider: ProviderKind::Fly,
                protocol: ProtocolKind::Acp,
                name: None,
                runtime_class: Some("not-fly".to_string()),
                relay_urls: vec![],
                keep: false,
                bot_secret_key_hex: None,
                build_id: None,
                artifact_ref: None,
                advanced_workload_json: None,
                microvm: None,
            })),
        );
    assert!(out.result.is_none());
    let err = out.error.expect("runtime class mismatch");
    assert_eq!(err.code, "runtime_class_unavailable");
    assert_eq!(calls.get(), 0);
}

#[test]
fn post_provision_protocol_validation_triggers_cleanup() {
    let provision_calls = calls();
    let teardown_calls = calls();
    let adapter = std::rc::Rc::new(ValidationMismatchAdapter {
        provision_calls: provision_calls.clone(),
        teardown_calls: teardown_calls.clone(),
        runtime_class: fly_profile().runtime_class,
        protocol_compatibility: vec![],
    });
    let mut service = Server::with_adapters(adapter.clone());
    let requester = fresh_key();

    let out = service.handle_command(
            &requester,
            request(AgentControlCommand::Provision(plain_provision(ProviderKind::Fly))),
        );
    assert!(out.result.is_none());
    let err = out.error.expect("protocol mismatch error");
    assert_eq!(err.code, "unsupported_protocol");
    assert_eq!(provision_calls.get(), 1);
    assert_eq!(teardown_calls.get(), 1);
    let state = service.state();
    assert!(state.runtimes.is_empty());
}

#[test]
fn post_provision_runtime_class_validation_triggers_cleanup() {
    let provision_calls = calls();
    let teardown_calls = calls();
    let requested_class = fly_profile()
        .runtime_class
        .unwrap_or_else(|| "fly".to_string());
    let adapter = std::rc::Rc::new(ValidationMismatchAdapter {
        provision_calls: provision_calls.clone(),
        teardown_calls: teardown_calls.clone(),
        runtime_class: Some(format!("{requested_class}-actual")),
        protocol_compatibility: vec![ProtocolKind::Acp],
    });
    let mut service = Server::with_adapters(adapter.clone());
    let requester = fresh_key();

    let out = service.handle_command(
            &requester,
            request(AgentControlCommand::Provision(ProvisionCommand {
                provider: ProviderKind::Fly,
                protocol: ProtocolKind::Acp,
                name: None,
                runtime_class: Some(requested_class),
                relay_urls: vec![],
                keep: false,
                bot_secret_key_hex: None,
                build_id: None,
                artifact_ref: None,
                advanced_workload_json: None,
                microvm: None,
            })),
        );
    assert!(out.result.is_none());
    let err = out.error.expect("runtime class mismatch error");
    assert_eq!(err.code, "runtime_class_unavailable");
    assert_eq!(provision_calls.get(), 1);
    assert_eq!(teardown_calls.get(), 1);
    let state = service.state();
    assert!(state.runtimes.is_empty());
}

#[test]
fn get_runtime_is_scoped_to_owner() {
    let calls = calls();
    let adapter = std::rc::Rc::new(MockAdapter {
        calls: calls.clone(),
    });
    let mut service = Server::with_adapters(adapter.clone());
    let owner = fresh_key();
    let other = fresh_key();

    let provision = service.handle_command(
            &owner,
            request(AgentControlCommand::Provision(plain_provision(ProviderKind::Fly))),
        );
    let runtime_id = provision
        .result
        .expect("provision result")
        .runtime
        .runtime_id;

    let out = service.handle_command(
            &other,
            request_with(
                "req-2",
                "idem-2",
                AgentControlCommand::GetRuntime { runtime_id },
            ),
        );
    assert!(out.result.is_none());
    let err = out.error.expect("owner scoping error");
    assert_eq!(err.code, "runtime_not_found");
}

#[test]
fn list_runtimes_is_scoped_to_owner() {
    let calls = calls();
    let adapter = std::rc::Rc::new(MockAdapter {
        calls: calls.clone(),
    });
    let mut service = Server::with_adapters(adapter.clone());
    let owner = fresh_key();
    let other = fresh_key();

    let out = service.handle_command(
            &owner,
            request_with(
                "req-1",
                "idem-1",
                AgentControlCommand::Provision(plain_provision(ProviderKind::Fly)),
            ),
        );
    assert!(out.result.is_some());

    let out = service.handle_command(
            &other,
            request_with(
                "req-list",
                "idem-list",
                AgentControlCommand::ListRuntimes(list_all()),
            ),
        );
    let result = out.result.expect("list result");
    let count = result
        .payload.value.get("count")
        .and_then(serde_json::Value::as_u64)
        .unwrap_or(0);
    assert_eq!(count, 0);
}

#[test]
fn idempotent_error_outcomes_are_not_cached() {
    let calls = calls();
    let adapter = std::rc::Rc::new(CountingFailingAdapter {
        calls: calls.clone(),
    });
    let mut service = Server::with_adapters(adapter.clone());
    let requester = fresh_key();
    let cmd = request(AgentControlCommand::Provision(plain_provision(ProviderKind::Fly)));

    let first = service.handle_command(&requester, cmd.clone());
    assert!(first.error.is_some());
    assert_eq!(calls.get(), 1);

    let replay = service.handle_command(&requester, cmd);
    assert!(replay.error.is_some());
    assert_eq!(calls.get(), 2);
    assert!(!replay
        .statuses
        .iter()
        .any(|status| status.message.as_deref() == Some("idempotent replay")));
}

#[test]
fn provision_is_denied_when_policy_disallows_requester() {
    let calls = calls();
    let adapter = std::rc::Rc::new(MockAdapter {
        calls: calls.clone(),
    });
    let allowed = fresh_key();
    let denied = fresh_key();
    let mut service = Server::with_adapters_and_policy(
        adapter.clone(),
        ProvisionPolicy::Allowlist(OrdSet::from_vec(vec![allowed.clone()])),
        DEFAULT_IDEMPOTENCY_MAX_ENTRIES,
    );

    let out = service.handle_command(
            &denied,
            request(AgentControlCommand::Provision(plain_provision(ProviderKind::Fly))),
        );
    assert!(out.result.is_none());
    let err = out.error.expect("provision should be unauthorized");
    assert_eq!(err.code, "provision_unauthorized");
    assert_eq!(calls.get(), 0);
    let state = service.state();
    assert!(state.idempotency.is_empty());
}

#[test]
fn idempotency_cache_is_bounded() {
    let calls = calls();
    let adapter = std::rc::Rc::new(MockAdapter {
        calls: calls.clone(),
    });
    let mut service = Server::with_adapters_and_policy(
        adapter.clone(),
        ProvisionPolicy::AllowAll,
        2,
    );
    let requester = fresh_key();

    for i in 0..3 {
        let req_id = format!("req-{i}");
        let idem = format!("idem-{i}");
        let out = service.handle_command(
                &requester,
                request_with(
                    &req_id,
                    &idem,
                    AgentControlCommand::Provision(plain_provision(ProviderKind::Fly)),
                ),
            );
        assert!(out.result.is_some());
    }

    let state = service.state();
    assert_eq!(state.idempotency.len(), 2);
    assert_eq!(state.idempotency_order.len(), 2);
    assert!(!state
        .idempotency
        .contains_key(&(requester.clone(), "idem-0".to_string())));
}

#[test]
fn legacy_ownerless_runtime_is_accessible_to_allowlisted_requesters() {
    let calls = calls();
    let adapter = std::rc::Rc::new(MockAdapter {
        calls: calls.clone(),
    });
    let allowed = fresh_key();
    let denied = fresh_key();
    let mut service = Server::with_adapters_and_policy(
        adapter.clone(),
        ProvisionPolicy::Allowlist(OrdSet::from_vec(vec![allowed.clone()])),
        DEFAULT_IDEMPOTENCY_MAX_ENTRIES,
    );
    let runtime_id = "runtime-legacy-access".to_string();
    {
        let state = service.state_mut();
        state.runtimes.insert(
            runtime_id.clone(),
            RuntimeRecord {
                owner_pubkey_hex: String::new(),
                descriptor: RuntimeDescriptor {
                    runtime_id: runtime_id.clone(),
                    provider: ProviderKind::Fly,
                    lifecycle_phase: RuntimeLifecyclePhase::Ready,
                    runtime_class: Some("fly".to_string()),
                    region: Some("local".to_string()),
                    capacity: json(r#"{"slots": 1}"#),
                    policy_constraints: json("null"),
                    protocol_compatibility: vec![ProtocolKind::Acp],
                    bot_pubkey: Some("ab".repeat(32)),
                    metadata: json("null"),
                },
                provider_handle: ProviderHandle::Fly {
                    machine_id: "machine-1".to_string(),
                    volume_id: "volume-1".to_string(),
                    app_name: "app".to_string(),
                },
                created_at: NOW,
                expires_at: NOW + 3600,
                teardown_retry: None,
            },
        );
    }

    let allowed_get = service.handle_command(
            &allowed,
            request_with(
                "req-allowed",
                "idem-allowed",
                AgentControlCommand::GetRuntime {
                    runtime_id: runtime_id.clone(),
                },
            ),
        );
    assert!(allowed_get.result.is_some());

    let denied_get = service.handle_command(
            &denied,
            request_with(
                "req-denied",
                "idem-denied",
                AgentControlCommand::GetRuntime { runtime_id },
            ),
        );
    assert!(denied_get.result.is_none());
    assert_eq!(
        denied_get.error.expect("denied should fail").code,
        "runtime_not_found"
    );
}

#[test]
fn provider_name_returns_expected_strings() {
    assert_eq!(provider_name(ProviderKind::Fly), "fly");
    assert_eq!(provider_name(ProviderKind::Microvm), "microvm");
}

#[test]
fn different_idempotency_key_triggers_new_provision() {
    let calls = calls();
    let adapter = std::rc::Rc::new(MockAdapter {
        calls: calls.clone(),
    });
    let mut service = Server::with_adapters(adapter.clone());
    let requester = fresh_key();

    let first = service.handle_command(
            &requester,
            request_with(
                "req-a",
                "idem-a",
                AgentControlCommand::Provision(plain_provision(ProviderKind::Fly)),
            ),
        );
    assert!(first.result.is_some());
    assert_eq!(calls.get(), 1);

    let second = service.handle_command(
            &requester,
            request_with(
                "req-b",
                "idem-b",
                AgentControlCommand::Provision(plain_provision(ProviderKind::Fly)),
            ),
        );
    assert!(second.result.is_some());
    assert_eq!(calls.get(), 2);
}

#[test]
fn provision_failure_normalizes_error_code() {
    let calls = calls();
    let adapter = std::rc::Rc::new(CountingFailingAdapter {
        calls: calls.clone(),
    });
    let mut service = Server::with_adapters(adapter.clone());
    let requester = fresh_key();

    let out = service.handle_command(
            &requester,
            request(AgentControlCommand::Provision(plain_provision(ProviderKind::Fly))),
        );
    assert!(out.result.is_none());
    let err = out.error.expect("expected provision_failed error");
    assert_eq!(err.code, "provision_failed");
    assert!(err.hint.is_some());
    assert!(
        err.detail
            .as_deref()
            .unwrap()
            .contains("simulated provision failure"),
        "raw error should be wrapped in detail field"
    );
    assert!(out
        .statuses
        .iter()
        .any(|s| s.phase == RuntimeLifecyclePhase::Failed));
}

#[test]
fn all_error_codes_are_consistent_strings() {
    let calls = calls();
    let adapter = std::rc::Rc::new(MockAdapter {
        calls: calls.clone(),
    });
    let mut service = Server::with_adapters(adapter.clone());
    let requester = fresh_key();

    let not_found = service.handle_command(
            &requester,
            request_with(
                "req-nf",
                "idem-nf",
                AgentControlCommand::GetRuntime {
                    runtime_id: "nonexistent".to_string(),
                },
            ),
        );
    let teardown_nf = service.handle_command(
            &requester,
            request_with(
                "req-td",
                "idem-td",
                AgentControlCommand::Teardown {
                    runtime_id: "nonexistent".to_string(),
                },
            ),
        );

    let nf_err = not_found.error.expect("get should fail");
    let td_err = teardown_nf.error.expect("teardown should fail");
    assert_eq!(nf_err.code, "runtime_not_found");
    assert_eq!(td_err.code, "runtime_not_found");
}

#[test]
fn descriptor_fields_flow_through_provision_result() {
    let calls = calls();
    let adapter = std::rc::Rc::new(MockAdapter {
        calls: calls.clone(),
    });
    let mut service = Server::with_adapters(adapter.clone());
    let requester = fresh_key();

    let out = service.handle_command(
            &requester,
            request(AgentControlCommand::Provision(plain_provision(ProviderKind::Fly))),
        );

    let result = out.result.expect("provision should succeed");
    let rt = &result.runtime;
    assert_eq!(rt.provider, ProviderKind::Fly);
    assert_eq!(rt.lifecycle_phase, RuntimeLifecyclePhase::Ready);
    assert_eq!(rt.runtime_class, Some("mock".to_string()));
    assert_eq!(rt.region, Some("local".to_string()));
    assert_eq!(rt.capacity, json(r#"{"slots": 1}"#));
    assert_eq!(rt.policy_constraints, json(r#"{"allow_keep": true}"#));
    assert_eq!(rt.protocol_compatibility, vec![ProtocolKind::Acp]);
    assert_eq!(rt.bot_pubkey, Some("ab".repeat(32)));
    assert!(!rt.metadata.value.is_null());
}

#[test]
fn get_runtime_returns_full_descriptor_after_provision() {
    let calls = calls();
    let adapter = std::rc::Rc::new(MockAdapter {
        calls: calls.clone(),
    });
    let mut service = Server::with_adapters(adapter.clone());
    let requester = fresh_key();

    let provision_out = service.handle_command(
            &requester,
            request(AgentControlCommand::Provision(plain_provision(ProviderKind::Fly))),
        );
    let provisioned_rt = provision_out
        .result
        .expect("provision should succeed")
        .runtime;
    let runtime_id = provisioned_rt.runtime_id.clone();

    let get_out = service.handle_command(
            &requester,
            request_with(
                "req-get",
                "idem-get",
                AgentControlCommand::GetRuntime {
                    runtime_id: runtime_id.clone(),
                },
            ),
        );
    let get_rt = get_out.result.expect("get should succeed").runtime;
    assert_eq!(get_rt.runtime_id, runtime_id);
    assert_eq!(get_rt.provider, provisioned_rt.provider);
    assert_eq!(get_rt.runtime_class, provisioned_rt.runtime_class);
    assert_eq!(get_rt.region, provisioned_rt.region);
    assert_eq!(get_rt.bot_pubkey, provisioned_rt.bot_pubkey);
    assert_eq!(
        get_rt.protocol_compatibility,
        provisioned_rt.protocol_compatibility
    );
}

#[test]
fn teardown_transitions_lifecycle_phase() {
    let calls = calls();
    let adapter = std::rc::Rc::new(MockAdapter {
        calls: calls.clone(),
    });
    let mut service = Server::with_adapters(adapter.clone());
    let requester = fresh_key();

    let provision_out = service.handle_command(
            &requester,
            request(AgentControlCommand::Provision(plain_provision(ProviderKind::Fly))),
        );
    let runtime_id = provision_out.result.expect("provision").runtime.runtime_id;

    let teardown_out = service.handle_command(
            &requester,
            request_with(
                "req-td",
                "idem-td",
                AgentControlCommand::Teardown {
                    runtime_id: runtime_id.clone(),
                },
            ),
        );
    let td_rt = teardown_out
        .result
        .expect("teardown should succeed")
        .runtime;
    assert_eq!(td_rt.runtime_id, runtime_id);
    assert_eq!(td_rt.lifecycle_phase, RuntimeLifecyclePhase::Teardown);

    let get_after = service.handle_command(
            &requester,
            request_with(
                "req-get2",
                "idem-get2",
                AgentControlCommand::GetRuntime {
                    runtime_id: runtime_id.clone(),
                },
            ),
        );
    let get_rt = get_after.result.expect("get after teardown").runtime;
    assert_eq!(get_rt.lifecycle_phase, RuntimeLifecyclePhase::Teardown);
}

#[test]
fn teardown_contract_deleted_payload_returns_success() {
    let teardown_calls = calls();
    let adapter = std::rc::Rc::new(TeardownContractAdapter {
        teardown_calls: teardown_calls.clone(),
        behavior: TeardownBehavior::Payload(json(r#"{ "teardown": "deleted", "machine_status": "deleted", "volume_status": "deleted", "retryable": false }"#)),
    });
    let mut service = Server::with_adapters(adapter.clone());
    let requester = fresh_key();
    let runtime_id =
        provision_runtime_for_tests(&mut service, &requester, "req-provision", "idem-provision");

    let out = service.handle_command(
            &requester,
            request_with(
                "req-teardown",
                "idem-teardown",
                AgentControlCommand::Teardown { runtime_id },
            ),
        );
    let result = out.result.expect("teardown should return success");
    assert_eq!(
        result.payload.value.get("teardown").and_then(serde_json::Value::as_str),
        Some("deleted")
    );
    assert_eq!(teardown_calls.get(), 1);
}

#[test]
fn teardown_contract_already_gone_payload_returns_success() {
    let teardown_calls = calls();
    let adapter = std::rc::Rc::new(TeardownContractAdapter {
        teardown_calls: teardown_calls.clone(),
        behavior: TeardownBehavior::Payload(json(r#"{ "teardown": "already_gone", "machine_status": "already_gone", "volume_status": "already_gone", "retryable": false }"#)),
    });
    let mut service = Server::with_adapters(adapter.clone());
    let requester = fresh_key();
    let runtime_id =
        provision_runtime_for_tests(&mut service, &requester, "req-provision", "idem-provision");

    let out = service.handle_command(
            &requester,
            request_with(
                "req-teardown",
                "idem-teardown",
                AgentControlCommand::Teardown { runtime_id },
            ),
        );
    let result = out.result.expect("teardown should return success");
    assert_eq!(
        result.payload.value.get("teardown").and_then(serde_json::Value::as_str),
        Some("already_gone")
    );
    assert_eq!(teardown_calls.get(), 1);
}

#[test]
fn teardown_contract_partial_conflict_schedules_retry() {
    let teardown_calls = calls();
    let adapter = std::rc::Rc::new(TeardownContractAdapter {
        teardown_calls: teardown_calls.clone(),
        behavior: TeardownBehavior::Payload(json(r#"{ "teardown": "partial", "machine_status": "deleted", "volume_status": "conflict", "retryable": true }"#)),
    });
    let mut service = Server::with_adapters(adapter.clone());
    let requester = fresh_key();
    let runtime_id =
        provision_runtime_for_tests(&mut service, &requester, "req-provision", "idem-provision");

    let out = service.handle_command(
            &requester,
            request_with(
                "req-teardown",
                "idem-teardown",
                AgentControlCommand::Teardown {
                    runtime_id: runtime_id.clone(),
                },
            ),
        );
    let result = out.result.expect("partial teardown should return result");
    assert_eq!(
        result.payload.value.get("teardown").and_then(serde_json::Value::as_str),
        Some("partial")
    );
    let state = service.state();
    let retry = state
        .runtimes
        .get(&runtime_id)
        .and_then(|runtime| runtime.teardown_retry.as_ref())
        .expect("retry metadata should be stored");
    assert_eq!(retry.attempt_count, 1);
    assert!(retry.next_retry_at.is_some());
    assert_eq!(teardown_calls.get(), 1);
}

#[test]
fn teardown_contract_failed_payload_returns_error() {
    let teardown_calls = calls();
    let adapter = std::rc::Rc::new(TeardownContractAdapter {
        teardown_calls: teardown_calls.clone(),
        behavior: TeardownBehavior::Payload(json(r#"{ "teardown": "failed", "machine_status": "failed", "volume_status": "failed", "retryable": true }"#)),
    });
    let mut service = Server::with_adapters(adapter.clone());
    let requester = fresh_key();
    let runtime_id =
        provision_runtime_for_tests(&mut service, &requester, "req-provision", "idem-provision");

    let out = service.handle_command(
            &requester,
            request_with(
                "req-teardown",
                "idem-teardown",
                AgentControlCommand::Teardown {
                    runtime_id: runtime_id.clone(),
                },
            ),
        );
    assert!(out.result.is_none());
    let err = out.error.expect("failed teardown should return error");
    assert_eq!(err.code, "teardown_failed");
    let state = service.state();
    let retry = state
        .runtimes
        .get(&runtime_id)
        .and_then(|runtime| runtime.teardown_retry.as_ref())
        .expect("retry metadata should be stored");
    assert_eq!(retry.attempt_count, 1);
    assert!(retry.next_retry_at.is_some());
    assert_eq!(teardown_calls.get(), 1);
}

#[test]
fn v2_submit_build_is_available_without_phase_gates() {
    let calls = calls();
    let adapter = std::rc::Rc::new(MockAdapter {
        calls: calls.clone(),
    });
    let mut service = Server::with_adapters_policy_and_flags(
        adapter.clone(),
        ProvisionPolicy::AllowAll,
        DEFAULT_IDEMPOTENCY_MAX_ENTRIES,
        V2RolloutFlags {
            advanced_workload_enabled: false,
        },
    );
    let requester = fresh_key();
    let out = service.handle_command(
            &requester,
            request_with(
                "req-build-submit",
                "idem-build-submit",
                AgentControlCommand::SubmitBuild(SubmitBuildCommand {
                    build_kind: BuildKind::Oci,
                    source_ref: None,
                    artifact_ref: Some(
                        "oci://registry.example/pika@sha256:deadbeef".to_string(),
                    ),
                    timeout_sec: Some(120),
                    context_bytes: Some(64),
                }),
            ),
        );
    assert!(out.result.is_some());
}

#[test]
fn v2_get_build_is_available_without_phase_gates() {
    let calls = calls();
    let adapter = std::rc::Rc::new(MockAdapter {
        calls: calls.clone(),
    });
    let mut service = Server::with_adapters_policy_flags_and_build_policy(
        adapter.clone(),
        ProvisionPolicy::AllowAll,
        DEFAULT_IDEMPOTENCY_MAX_ENTRIES,
        V2RolloutFlags {
            advanced_workload_enabled: false,
        },
        test_build_policy(vec![]),
    );
    let requester = fresh_key();

    let submit = service.handle_command(
            &requester,
            request_with(
                "req-build-submit-get",
                "idem-build-submit-get",
                AgentControlCommand::SubmitBuild(SubmitBuildCommand {
                    build_kind: BuildKind::Oci,
                    source_ref: None,
                    artifact_ref: Some("oci://registry.example/pika@sha256:abc123".to_string()),
                    timeout_sec: Some(120),
                    context_bytes: Some(64),
                }),
            ),
        );
    let build_id = submit
        .result
        .expect("submit build should succeed")
        .payload.value.get("build")
        .and_then(|build| build.get("build_id"))
        .and_then(serde_json::Value::as_str)
        .expect("build id")
        .to_string();

    let get = service.handle_command(
            &requester,
            request_with(
                "req-build-get-no-flags",
                "idem-build-get-no-flags",
                AgentControlCommand::GetBuild { build_id },
            ),
        );
    assert!(get.result.is_some());
}

#[test]
fn v2_cancel_build_is_available_without_phase_gates() {
    let calls = calls();
    let adapter = std::rc::Rc::new(MockAdapter {
        calls: calls.clone(),
    });
    let mut service = Server::with_adapters_policy_flags_and_build_policy(
        adapter.clone(),
        ProvisionPolicy::AllowAll,
        DEFAULT_IDEMPOTENCY_MAX_ENTRIES,
        V2RolloutFlags {
            advanced_workload_enabled: true,
        },
        test_build_policy(vec!["git+https://github.com/"]),
    );
    let requester = fresh_key();

    let submit = service.handle_command(
            &requester,
            request_with(
                "req-build-submit-cancel",
                "idem-build-submit-cancel",
                AgentControlCommand::SubmitBuild(SubmitBuildCommand {
                    build_kind: BuildKind::Oci,
                    source_ref: Some("git+https://github.com/example/repo".to_string()),
                    artifact_ref: None,
                    timeout_sec: Some(120),
                    context_bytes: Some(64),
                }),
            ),
        );
    let build_id = submit
        .result
        .expect("submit build should succeed")
        .payload.value.get("build")
        .and_then(|build| build.get("build_id"))
        .and_then(serde_json::Value::as_str)
        .expect("build id")
        .to_string();

    let canceled = service.handle_command(
            &requester,
            request_with(
                "req-build-cancel-no-flags",
                "idem-build-cancel-no-flags",
                AgentControlCommand::CancelBuild { build_id },
            ),
        );
    assert!(canceled.result.is_some());
}

#[test]
fn v2_submit_build_and_get_build_succeeds_for_immutable_artifact() {
    let calls = calls();
    let adapter = std::rc::Rc::new(MockAdapter {
        calls: calls.clone(),
    });
    let mut service = Server::with_adapters_policy_flags_and_build_policy(
        adapter.clone(),
        ProvisionPolicy::AllowAll,
        DEFAULT_IDEMPOTENCY_MAX_ENTRIES,
        V2RolloutFlags {
            advanced_workload_enabled: false,
        },
        test_build_policy(vec![]),
    );
    let requester = fresh_key();
    let submit = service.handle_command(
            &requester,
            request_with(
                "req-build-submit",
                "idem-build-submit",
                AgentControlCommand::SubmitBuild(SubmitBuildCommand {
                    build_kind: BuildKind::Oci,
                    source_ref: None,
                    artifact_ref: Some(
                        "oci://registry.example/pika@sha256:001122334455".to_string(),
                    ),
                    timeout_sec: Some(120),
                    context_bytes: Some(64),
                }),
            ),
        );
    let submit_result = submit.result.expect("submit build should succeed");
    let build = submit_result
        .payload.value.get("build")
        .and_then(serde_json::Value::as_object)
        .expect("build payload");
    assert_eq!(
        build.get("phase").and_then(serde_json::Value::as_str),
        Some("succeeded")
    );
    let build_id = build
        .get("build_id")
        .and_then(serde_json::Value::as_str)
        .expect("build id")
        .to_string();

    let get = service.handle_command(
            &requester,
            request_with(
                "req-build-get",
                "idem-build-get",
                AgentControlCommand::GetBuild { build_id },
            ),
        );
    let get_result = get.result.expect("get build should succeed");
    assert_eq!(
        get_result
            .payload.value.get("build")
            .and_then(|build| build.get("phase"))
            .and_then(serde_json::Value::as_str),
        Some("succeeded")
    );
}

#[test]
fn v2_submit_build_source_requires_advanced_mode_and_allowlist() {
    let calls = calls();
    let adapter = std::rc::Rc::new(MockAdapter {
        calls: calls.clone(),
    });
    let requester = fresh_key();

    let mut service_no_advanced = Server::with_adapters_policy_flags_and_build_policy(
        adapter.clone(),
        ProvisionPolicy::AllowAll,
        DEFAULT_IDEMPOTENCY_MAX_ENTRIES,
        V2RolloutFlags {
            advanced_workload_enabled: false,
        },
        test_build_policy(vec!["git+https://github.com/"]),
    );
    let out = service_no_advanced.handle_command(
            &requester,
            request_with(
                "req-build-src-1",
                "idem-build-src-1",
                AgentControlCommand::SubmitBuild(SubmitBuildCommand {
                    build_kind: BuildKind::Oci,
                    source_ref: Some("git+https://github.com/example/repo".to_string()),
                    artifact_ref: None,
                    timeout_sec: Some(120),
                    context_bytes: Some(64),
                }),
            ),
        );
    assert!(out.result.is_none());
    assert_eq!(
        out.error.expect("advanced disabled").code,
        "v2_advanced_workload_disabled"
    );

    let mut service_no_prefixes = Server::with_adapters_policy_flags_and_build_policy(
        adapter.clone(),
        ProvisionPolicy::AllowAll,
        DEFAULT_IDEMPOTENCY_MAX_ENTRIES,
        V2RolloutFlags {
            advanced_workload_enabled: true,
        },
        test_build_policy(vec![]),
    );
    let out = service_no_prefixes.handle_command(
            &requester,
            request_with(
                "req-build-src-2",
                "idem-build-src-2",
                AgentControlCommand::SubmitBuild(SubmitBuildCommand {
                    build_kind: BuildKind::Oci,
                    source_ref: Some("git+https://github.com/example/repo".to_string()),
                    artifact_ref: None,
                    timeout_sec: Some(120),
                    context_bytes: Some(64),
                }),
            ),
        );
    assert!(out.result.is_none());
    assert_eq!(
        out.error.expect("source prefixes missing").code,
        "build_source_disabled"
    );
}

#[test]
fn v2_submit_build_source_allowlist_rejects_prefix_confusion() {
    let calls = calls();
    let adapter = std::rc::Rc::new(MockAdapter {
        calls: calls.clone(),
    });
    let mut service = Server::with_adapters_policy_flags_and_build_policy(
        adapter.clone(),
        ProvisionPolicy::AllowAll,
        DEFAULT_IDEMPOTENCY_MAX_ENTRIES,
        V2RolloutFlags {
            advanced_workload_enabled: true,
        },
        test_build_policy(vec!["git+https://github.com/acme/repo"]),
    );
    let requester = fresh_key();

    for blocked in [
        "git+https://github.com.evil.com/acme/repo",
        "git+https://github.com/acme/repo-evil",
        "git+https://github.com/acme/repo/../evil",
    ] {
        let out = service.handle_command(
                &requester,
                request_with(
                    "req-build-prefix-confusion",
                    "idem-build-prefix-confusion",
                    AgentControlCommand::SubmitBuild(SubmitBuildCommand {
                        build_kind: BuildKind::Oci,
                        source_ref: Some(blocked.to_string()),
                        artifact_ref: None,
                        timeout_sec: Some(120),
                        context_bytes: Some(64),
                    }),
                ),
            );
        assert!(out.result.is_none(), "{blocked} should be blocked");
        assert_eq!(
            out.error.expect("blocked source ref").code,
            "build_source_not_allowed"
        );
    }

    let allowed = service.handle_command(
            &requester,
            request_with(
                "req-build-prefix-allowed",
                "idem-build-prefix-allowed",
                AgentControlCommand::SubmitBuild(SubmitBuildCommand {
                    build_kind: BuildKind::Oci,
                    source_ref: Some("git+https://github.com/acme/repo/subdir".to_string()),
                    artifact_ref: None,
                    timeout_sec: Some(120),
                    context_bytes: Some(64),
                }),
            ),
        );
    assert!(allowed.result.is_some());
}

#[test]
fn v2_build_submission_rate_limit_enforced() {
    let calls = calls();
    let adapter = std::rc::Rc::new(MockAdapter {
        calls: calls.clone(),
    });
    let mut policy = test_build_policy(vec![]);
    policy.max_submissions_per_hour = 1;
    let mut service = Server::with_adapters_policy_flags_and_build_policy(
        adapter.clone(),
        ProvisionPolicy::AllowAll,
        DEFAULT_IDEMPOTENCY_MAX_ENTRIES,
        V2RolloutFlags {
            advanced_workload_enabled: false,
        },
        policy,
    );
    let requester = fresh_key();

    let first = service.handle_command(
            &requester,
            request_with(
                "req-build-1",
                "idem-build-1",
                AgentControlCommand::SubmitBuild(SubmitBuildCommand {
                    build_kind: BuildKind::Oci,
                    source_ref: None,
                    artifact_ref: Some("oci://r/p@sha256:1111".to_string()),
                    timeout_sec: Some(120),
                    context_bytes: Some(64),
                }),
            ),
        );
    assert!(first.result.is_some());

    let second = service.handle_command(
            &requester,
            request_with(
                "req-build-2",
                "idem-build-2",
                AgentControlCommand::SubmitBuild(SubmitBuildCommand {
                    build_kind: BuildKind::Oci,
                    source_ref: None,
                    artifact_ref: Some("oci://r/p@sha256:2222".to_string()),
                    timeout_sec: Some(120),
                    context_bytes: Some(64),
                }),
            ),
        );
    assert!(second.result.is_none());
    assert_eq!(
        second.error.expect("second submit should rate limit").code,
        "build_rate_limited"
    );
}

#[test]
fn v2_cancel_build_transitions_pending_build() {
    let calls = calls();
    let adapter = std::rc::Rc::new(MockAdapter {
        calls: calls.clone(),
    });
    let mut service = Server::with_adapters_policy_flags_and_build_policy(
        adapter.clone(),
        ProvisionPolicy::AllowAll,
        DEFAULT_IDEMPOTENCY_MAX_ENTRIES,
        V2RolloutFlags {
            advanced_workload_enabled: true,
        },
        test_build_policy(vec!["git+https://github.com/"]),
    );
    let requester = fresh_key();

    let submit = service.handle_command(
            &requester,
            request_with(
                "req-build-pending",
                "idem-build-pending",
                AgentControlCommand::SubmitBuild(SubmitBuildCommand {
                    build_kind: BuildKind::Oci,
                    source_ref: Some("git+https://github.com/example/repo".to_string()),
                    artifact_ref: None,
                    timeout_sec: Some(300),
                    context_bytes: Some(64),
                }),
            ),
        );
    let submit_result = submit.result.expect("pending build submit should succeed");
    let build_id = submit_result
        .payload.value.get("build")
        .and_then(|build| build.get("build_id"))
        .and_then(serde_json::Value::as_str)
        .expect("build id")
        .to_string();

    let canceled = service.handle_command(
            &requester,
            request_with(
                "req-build-cancel",
                "idem-build-cancel",
                AgentControlCommand::CancelBuild { build_id },
            ),
        );
    let result = canceled.result.expect("cancel should succeed");
    assert_eq!(
        result
            .payload.value.get("build")
            .and_then(|build| build.get("phase"))
            .and_then(serde_json::Value::as_str),
        Some("canceled")
    );
}

#[test]
fn v2_provision_with_build_id_attaches_artifact_metadata() {
    let calls = calls();
    let adapter = std::rc::Rc::new(MockAdapter {
        calls: calls.clone(),
    });
    let mut service = Server::with_adapters_policy_flags_and_build_policy(
        adapter.clone(),
        ProvisionPolicy::AllowAll,
        DEFAULT_IDEMPOTENCY_MAX_ENTRIES,
        V2RolloutFlags {
            advanced_workload_enabled: false,
        },
        test_build_policy(vec![]),
    );
    let requester = fresh_key();

    let submit = service.handle_command(
            &requester,
            request_with(
                "req-build-submit",
                "idem-build-submit",
                AgentControlCommand::SubmitBuild(SubmitBuildCommand {
                    build_kind: BuildKind::Oci,
                    source_ref: None,
                    artifact_ref: Some("oci://r/p@sha256:123456".to_string()),
                    timeout_sec: Some(120),
                    context_bytes: Some(64),
                }),
            ),
        );
    let build_id = submit
        .result
        .expect("build submit")
        .payload.value.get("build")
        .and_then(|build| build.get("build_id"))
        .and_then(serde_json::Value::as_str)
        .expect("build id")
        .to_string();

    let provision = service.handle_command(
            &requester,
            request_with(
                "req-provision-build",
                "idem-provision-build",
                AgentControlCommand::Provision(ProvisionCommand {
                    provider: ProviderKind::Fly,
                    protocol: ProtocolKind::Acp,
                    name: None,
                    runtime_class: None,
                    relay_urls: vec![],
                    keep: false,
                    bot_secret_key_hex: None,
                    build_id: Some(build_id),
                    artifact_ref: None,
                    advanced_workload_json: None,
                    microvm: None,
                }),
            ),
        );
    let runtime = provision.result.expect("provision should succeed").runtime;
    assert_eq!(
        runtime
            .metadata
            .value
            .get("artifact_ref")
            .and_then(serde_json::Value::as_str)
            .unwrap_or(""),
        "oci://r/p@sha256:123456"
    );
    assert!(runtime.metadata.value.get("build_id").is_some());
}

#[test]
fn unauthorized_get_build_does_not_mutate_build_state() {
    let calls = calls();
    let adapter = std::rc::Rc::new(MockAdapter {
        calls: calls.clone(),
    });
    let now = 1_700_200_000u64;
    let mut service = Server::with_adapters_policy_flags_and_build_policy(
        adapter.clone(),
        ProvisionPolicy::AllowAll,
        DEFAULT_IDEMPOTENCY_MAX_ENTRIES,
        V2RolloutFlags {
            advanced_workload_enabled: true,
        },
        test_build_policy(vec!["git+https://github.com/acme/repo"]),
    );
    let owner = fresh_key();
    let unauthorized = fresh_key();
    let build_id = "build-owner-only".to_string();
    {
        let state = service.state_mut();
        state.builds.insert(
            build_id.clone(),
            BuildRecord {
                build_id: build_id.clone(),
                owner_pubkey_hex: owner.clone(),
                build_kind: BuildKind::Oci,
                phase: BuildPhase::FetchingSource,
                source_ref: Some("git+https://github.com/acme/repo".to_string()),
                artifact_ref: None,
                created_at: now.saturating_sub(120),
                updated_at: now.saturating_sub(120),
                deadline_at: now.saturating_add(600),
                ready_at: Some(now.saturating_sub(1)),
                context_bytes: 64,
                timeout_sec: 300,
                error_code: None,
                error_detail: None,
                canceled_at: None,
            },
        );
    }

    let out = service.handle_command(
            &unauthorized,
            request_with(
                "req-unauthorized-get-build",
                "idem-unauthorized-get-build",
                AgentControlCommand::GetBuild {
                    build_id: build_id.clone(),
                },
            ),
        );
    assert!(out.result.is_none());
    assert_eq!(out.error.expect("unauthorized get").code, "build_not_found");

    let state = service.state();
    let build = state.builds.get(&build_id).expect("build exists");
    assert_eq!(build.phase, BuildPhase::FetchingSource);
    assert_eq!(build.artifact_ref, None);
    assert_eq!(build.updated_at, now.saturating_sub(120));
}

#[test]
fn unauthorized_provision_build_id_does_not_mutate_build_state() {
    let calls = calls();
    let adapter = std::rc::Rc::new(MockAdapter {
        calls: calls.clone(),
    });
    let now = 1_700_200_100u64;
    let mut service = Server::with_adapters_policy_flags_and_build_policy(
        adapter.clone(),
        ProvisionPolicy::AllowAll,
        DEFAULT_IDEMPOTENCY_MAX_ENTRIES,
        V2RolloutFlags {
            advanced_workload_enabled: true,
        },
        test_build_policy(vec!["git+https://github.com/acme/repo"]),
    );
    let owner = fresh_key();
    let unauthorized = fresh_key();
    let build_id = "build-provision-owner-only".to_string();
    {
        let state = service.state_mut();
        state.builds.insert(
            build_id.clone(),
            BuildRecord {
                build_id: build_id.clone(),
                owner_pubkey_hex: owner.clone(),
                build_kind: BuildKind::Oci,
                phase: BuildPhase::FetchingSource,
                source_ref: Some("git+https://github.com/acme/repo".to_string()),
                artifact_ref: None,
                created_at: now.saturating_sub(120),
                updated_at: now.saturating_sub(120),
                deadline_at: now.saturating_add(600),
                ready_at: Some(now.saturating_sub(1)),
                context_bytes: 64,
                timeout_sec: 300,
                error_code: None,
                error_detail: None,
                canceled_at: None,
            },
        );
    }

    let out = service.handle_command(
            &unauthorized,
            request_with(
                "req-unauthorized-provision-build",
                "idem-unauthorized-provision-build",
                AgentControlCommand::Provision(ProvisionCommand {
                    provider: ProviderKind::Fly,
                    protocol: ProtocolKind::Acp,
                    name: None,
                    runtime_class: None,
                    relay_urls: vec![],
                    keep: false,
                    bot_secret_key_hex: None,
                    build_id: Some(build_id.clone()),
                    artifact_ref: None,
                    advanced_workload_json: None,
                    microvm: None,
                }),
            ),
        );
    assert!(out.result.is_none());
    assert_eq!(
        out.error.expect("unauthorized provision").code,
        "build_not_found"
    );

    let state = service.state();
    let build = state.builds.get(&build_id).expect("build exists");
    assert_eq!(build.phase, BuildPhase::FetchingSource);
    assert_eq!(build.artifact_ref, None);
    assert_eq!(build.updated_at, now.saturating_sub(120));
}

#[test]
fn artifact_gc_removes_only_unreferenced_expired_entries() {
    let calls = calls();
    let adapter = std::rc::Rc::new(MockAdapter {
        calls: calls.clone(),
    });
    let mut service = Server::with_adapters_policy_flags_and_build_policy(
        adapter.clone(),
        ProvisionPolicy::AllowAll,
        DEFAULT_IDEMPOTENCY_MAX_ENTRIES,
        V2RolloutFlags {
            advanced_workload_enabled: false,
        },
        test_build_policy(vec![]),
    );
    let now = 1_700_100_000u64;
    {
        let state = service.state_mut();
        state.artifacts.insert(
            "oci://unused@sha256:1".to_string(),
            ArtifactRecord {
                artifact_ref: "oci://unused@sha256:1".to_string(),
                build_kind: BuildKind::Oci,
                owner_pubkey_hex: "owner".to_string(),
                created_at: now.saturating_sub(500),
                last_used_at: now.saturating_sub(500),
                expires_at: now.saturating_sub(1),
                source_build_id: None,
            },
        );
        state.artifacts.insert(
            "oci://used@sha256:2".to_string(),
            ArtifactRecord {
                artifact_ref: "oci://used@sha256:2".to_string(),
                build_kind: BuildKind::Oci,
                owner_pubkey_hex: "owner".to_string(),
                created_at: now.saturating_sub(500),
                last_used_at: now.saturating_sub(500),
                expires_at: now.saturating_sub(1),
                source_build_id: None,
            },
        );
        state.runtimes.insert(
            "runtime-used-artifact".to_string(),
            RuntimeRecord {
                owner_pubkey_hex: "owner".to_string(),
                descriptor: RuntimeDescriptor {
                    runtime_id: "runtime-used-artifact".to_string(),
                    provider: ProviderKind::Fly,
                    lifecycle_phase: RuntimeLifecyclePhase::Ready,
                    runtime_class: Some("mock".to_string()),
                    region: Some("local".to_string()),
                    capacity: json("null"),
                    policy_constraints: json("null"),
                    protocol_compatibility: vec![ProtocolKind::Acp],
                    bot_pubkey: Some("ab".repeat(32)),
                    metadata: json(r#"{ "artifact_ref": "oci://used@sha256:2" }"#),
                },
                provider_handle: ProviderHandle::Fly {
                    machine_id: "machine-1".to_string(),
                    volume_id: "volume-1".to_string(),
                    app_name: "app".to_string(),
                },
                created_at: now.saturating_sub(100),
                expires_at: now.saturating_add(100),
                teardown_retry: None,
            },
        );
    }
    let removed = service.garbage_collect_artifacts_at(now);
    assert_eq!(removed, 1);
    let state = service.state();
    assert!(!state.artifacts.contains_key(&"oci://unused@sha256:1".to_string()));
    assert!(state.artifacts.contains_key(&"oci://used@sha256:2".to_string()));
}

#[test]
fn v2_get_capabilities_is_available_without_phase_gates() {
    let calls = calls();
    let adapter = std::rc::Rc::new(MockAdapter {
        calls: calls.clone(),
    });
    let mut service = Server::with_adapters_policy_and_flags(
        adapter.clone(),
        ProvisionPolicy::AllowAll,
        DEFAULT_IDEMPOTENCY_MAX_ENTRIES,
        V2RolloutFlags {
            advanced_workload_enabled: false,
        },
    );
    let requester = fresh_key();
    let out = service.handle_command(
            &requester,
            request_with(
                "req-capabilities",
                "idem-capabilities",
                AgentControlCommand::GetCapabilities,
            ),
        );
    assert!(out.result.is_some());
}

#[test]
fn v2_get_capabilities_returns_provider_payload() {
    let calls = calls();
    let adapter = std::rc::Rc::new(MockAdapter {
        calls: calls.clone(),
    });
    let mut service = Server::with_adapters_policy_and_flags(
        adapter.clone(),
        ProvisionPolicy::AllowAll,
        DEFAULT_IDEMPOTENCY_MAX_ENTRIES,
        V2RolloutFlags {
            advanced_workload_enabled: false,
        },
    );
    let requester = fresh_key();
    let out = service.handle_command(
            &requester,
            request_with(
                "req-capabilities",
                "idem-capabilities",
                AgentControlCommand::GetCapabilities,
            ),
        );
    let result = out.result.expect("capabilities should succeed");
    let providers = result
        .payload.value.get("providers")
        .and_then(serde_json::Value::as_array)
        .expect("providers array");
    assert_eq!(providers.len(), 2);
}

#[test]
fn v2_get_capabilities_requires_provision_allowlist() {
    let calls = calls();
    let adapter = std::rc::Rc::new(MockAdapter {
        calls: calls.clone(),
    });
    let allowed = fresh_key();
    let denied = fresh_key();
    let mut service = Server::with_adapters_policy_and_flags(
        adapter.clone(),
        ProvisionPolicy::Allowlist(OrdSet::from_vec(vec![allowed.clone()])),
        DEFAULT_IDEMPOTENCY_MAX_ENTRIES,
        V2RolloutFlags {
            advanced_workload_enabled: false,
        },
    );

    let out = service.handle_command(
            &denied,
            request_with(
                "req-capabilities",
                "idem-capabilities",
                AgentControlCommand::GetCapabilities,
            ),
        );
    assert!(out.result.is_none());
    let err = out.error.expect("capabilities should enforce allowlist");
    assert_eq!(err.code, "provision_unauthorized");
}

#[test]
fn v2_resolve_distribution_is_available_without_phase_gates() {
    let calls = calls();
    let adapter = std::rc::Rc::new(MockAdapter {
        calls: calls.clone(),
    });
    let mut service = Server::with_adapters_policy_and_flags(
        adapter.clone(),
        ProvisionPolicy::AllowAll,
        DEFAULT_IDEMPOTENCY_MAX_ENTRIES,
        V2RolloutFlags {
            advanced_workload_enabled: false,
        },
    );
    let requester = fresh_key();
    let out = service.handle_command(
            &requester,
            request_with(
                "req-resolve",
                "idem-resolve",
                AgentControlCommand::ResolveDistribution(ResolveDistributionCommand {
                    distribution_ref: "agent.default".to_string(),
                    preset: "small".to_string(),
                    overrides_json: None,
                }),
            ),
        );
    assert!(out.result.is_some());
}

#[test]
fn v2_resolve_distribution_returns_resolved_provision() {
    let calls = calls();
    let adapter = std::rc::Rc::new(MockAdapter {
        calls: calls.clone(),
    });
    let mut service = Server::with_adapters_policy_and_flags(
        adapter.clone(),
        ProvisionPolicy::AllowAll,
        DEFAULT_IDEMPOTENCY_MAX_ENTRIES,
        V2RolloutFlags {
            advanced_workload_enabled: false,
        },
    );
    let requester = fresh_key();
    let out = service.handle_command(
            &requester,
            request_with(
                "req-resolve",
                "idem-resolve",
                AgentControlCommand::ResolveDistribution(ResolveDistributionCommand {
                    distribution_ref: "agent.default".to_string(),
                    preset: "small".to_string(),
                    overrides_json: Some("{\"ttl_sec\":120}".to_string()),
                }),
            ),
        );
    let result = out.result.expect("distribution resolve should succeed");
    assert_eq!(
        result
            .payload.value.get("resolved_provision")
            .and_then(|provision| provision.get("requested_ttl_sec"))
            .and_then(serde_json::Value::as_u64),
        Some(120)
    );
}

#[test]
fn v2_resolve_distribution_rejects_disallowed_override() {
    let calls = calls();
    let adapter = std::rc::Rc::new(MockAdapter {
        calls: calls.clone(),
    });
    let mut service = Server::with_adapters_policy_and_flags(
        adapter.clone(),
        ProvisionPolicy::AllowAll,
        DEFAULT_IDEMPOTENCY_MAX_ENTRIES,
        V2RolloutFlags {
            advanced_workload_enabled: false,
        },
    );
    let requester = fresh_key();
    let out = service.handle_command(
            &requester,
            request_with(
                "req-resolve",
                "idem-resolve",
                AgentControlCommand::ResolveDistribution(ResolveDistributionCommand {
                    distribution_ref: "agent.default".to_string(),
                    preset: "small".to_string(),
                    overrides_json: Some("{\"runtime_class\":\"forbidden\"}".to_string()),
                }),
            ),
        );
    assert!(out.result.is_none());
    let err = out.error.expect("disallowed override should fail");
    assert_eq!(err.code, "distribution_override_not_allowed");
}

#[test]
fn v2_resolve_distribution_requires_provision_allowlist() {
    let calls = calls();
    let adapter = std::rc::Rc::new(MockAdapter {
        calls: calls.clone(),
    });
    let allowed = fresh_key();
    let denied = fresh_key();
    let mut service = Server::with_adapters_policy_and_flags(
        adapter.clone(),
        ProvisionPolicy::Allowlist(OrdSet::from_vec(vec![allowed.clone()])),
        DEFAULT_IDEMPOTENCY_MAX_ENTRIES,
        V2RolloutFlags {
            advanced_workload_enabled: false,
        },
    );
    let out = service.handle_command(
            &denied,
            request_with(
                "req-resolve",
                "idem-resolve",
                AgentControlCommand::ResolveDistribution(ResolveDistributionCommand {
                    distribution_ref: "agent.default".to_string(),
                    preset: "small".to_string(),
                    overrides_json: None,
                }),
            ),
        );
    assert!(out.result.is_none());
    let err = out.error.expect("resolve should enforce allowlist");
    assert_eq!(err.code, "provision_unauthorized");
}

#[test]
fn teardown_persist_failure_keeps_runtime_in_teardown_phase() {
    let calls = calls();
    let adapter = Rc::new(MockAdapter { calls: calls.clone() });
    let mut service = Server::with_adapters(adapter);
    service.disk_fails = true;
    let owner = fresh_key();
    let runtime_id = "runtime-teardown-persist".to_string();
    service.state_mut().runtimes.insert(
        runtime_id.clone(),
        stored_runtime(&runtime_id, &owner, NOW, NOW + TTL),
    );

    let out = service.handle_command(
        &owner,
        request(AgentControlCommand::Teardown { runtime_id: runtime_id.clone() }),
    );
    let result = out.result.expect("teardown should still return result");
    assert_eq!(result.runtime.lifecycle_phase, RuntimeLifecyclePhase::Teardown);
    assert_eq!(result.payload.get_text("state_persist").as_deref(), Some("failed"));
    assert_eq!(result.payload.get_text("transition_state_persist").as_deref(), Some("failed"));
    assert_eq!(
        result.payload.get_text("state_persist_error").as_deref(),
        Some("disk is full")
    );
    assert_eq!(
        service
            .state()
            .runtimes
            .get(&runtime_id)
            .expect("runtime remains in state")
            .descriptor
            .lifecycle_phase,
        RuntimeLifecyclePhase::Teardown
    );
}

#[test]
fn loads_legacy_runtime_state_with_pi_protocol_value() {
    let (migrated, count) = migrate_legacy_protocol_values(json(
        r#"{"runtimes": {"runtime-legacy-pi-protocol": {"owner_pubkey_hex": "owner",
            "descriptor": {"runtime_id": "runtime-legacy-pi-protocol",
            "protocol_compatibility": ["pi"]}}}}"#,
    ));
    assert_eq!(count, 1);
    assert_eq!(
        migrated.value["runtimes"]["runtime-legacy-pi-protocol"]["descriptor"]
            ["protocol_compatibility"],
        json(r#"["acp"]"#).value
    );
}

#[test]
fn migration_covers_every_shape() {
    let (migrated, count) = migrate_legacy_protocol_values(json(
        r#"{"other": 1, "runtimes": {
            "a": {"descriptor": {"protocol_compatibility": ["Pi", "acp", "ACP", "other", 7]}},
            "b": {"descriptor": {"protocol": "PI"}},
            "c": {"descriptor": {"protocol": "acp"}},
            "d": {"descriptor": {"protocol": "smtp"}},
            "e": {"descriptor": 5},
            "f": 6}}"#,
    ));
    assert_eq!(count, 3);
    assert_eq!(
        migrated,
        json(
            r#"{"other": 1, "runtimes": {
            "a": {"descriptor": {"protocol_compatibility": ["acp", "acp", "acp", "other", 7]}},
            "b": {"descriptor": {"protocol": "PI", "protocol_compatibility": ["acp"]}},
            "c": {"descriptor": {"protocol": "acp", "protocol_compatibility": ["acp"]}},
            "d": {"descriptor": {"protocol": "smtp"}},
            "e": {"descriptor": 5},
            "f": 6}}"#
        )
    );
    assert_eq!(migrate_legacy_protocol_values(migrated.clone()), (migrated, 0));
    assert_eq!(migrate_legacy_protocol_values(json("[1]")), (json("[1]"), 0));
}

#[test]
fn runtime_profile_defaults_to_provider_name_as_runtime_class() {
    let fly_profile = runtime_profile(ProviderKind::Fly, &no_settings());
    assert_eq!(fly_profile.runtime_class, Some("fly".to_string()));
    assert_eq!(fly_profile.region, None);
    assert_eq!(fly_profile.capacity, json("null"));
    assert_eq!(fly_profile.policy_constraints, json("null"));

    let microvm_profile = runtime_profile(ProviderKind::Microvm, &no_settings());
    assert_eq!(microvm_profile.runtime_class, Some("microvm".to_string()));
}

#[test]
fn env_string_for_provider_prefers_provider_specific_key() {
    assert_eq!(provider_setting_name(ProviderKind::Fly, "TEST_ENV_STR"), "TEST_ENV_STR_FLY");
    let result = env_string_for_provider(
        &Some("fly-specific".to_string()),
        &Some("generic".to_string()),
    );
    assert_eq!(result, Some("fly-specific".to_string()));
}

#[test]
fn env_string_for_provider_falls_back_to_generic_key() {
    assert_eq!(
        provider_setting_name(ProviderKind::Microvm, "TEST_ENV_FALLBACK"),
        "TEST_ENV_FALLBACK_MICROVM"
    );
    let result = env_string_for_provider(&None, &Some("generic-value".to_string()));
    assert_eq!(result, Some("generic-value".to_string()));
}

#[test]
fn env_string_for_provider_returns_none_when_unset() {
    assert_eq!(env_string_for_provider(&None, &None), None);
    assert_eq!(env_string_for_provider(&Some("  ".to_string()), &Some("x".to_string())), None);
}

#[test]
fn env_json_for_provider_parses_valid_json() {
    let result = env_json_for_provider(&None, &Some(r#"{"slots": 4}"#.to_string()));
    assert_eq!(result, json(r#"{"slots": 4}"#));
}

#[test]
fn env_json_for_provider_wraps_invalid_json() {
    let result = env_json_for_provider(&None, &Some("not-json".to_string()));
    assert_eq!(result, json(r#"{"raw": "not-json"}"#));
}

#[test]
fn env_json_for_provider_returns_null_when_unset() {
    assert_eq!(env_json_for_provider(&None, &None), json("null"));
}

#[test]
fn reaper_expires_runtime_and_runs_teardown() {
    let now = 1_700_000_000u64;
    let teardown_calls = calls();
    let adapter = Rc::new(TeardownContractAdapter {
        teardown_calls: teardown_calls.clone(),
        behavior: deleted_payload(),
    });
    let mut service = Server::with_adapters(adapter);
    let requester = fresh_key();
    let runtime_id =
        provision_runtime_for_tests(&mut service, &requester, "req-provision", "idem-provision");

    service.change_runtime(&runtime_id, |runtime| {
        runtime.expires_at = now.saturating_sub(1);
        runtime.descriptor.lifecycle_phase = RuntimeLifecyclePhase::Ready;
    });
    assert_eq!(service.reap_expired_runtimes_at(now), 1);
    assert_eq!(teardown_calls.get(), 1);
    let runtime = service.state().runtimes.get(&runtime_id).expect("runtime still present");
    assert_eq!(runtime.descriptor.lifecycle_phase, RuntimeLifecyclePhase::Teardown);
    assert!(runtime.teardown_retry.is_none());
    assert_eq!(service.reap_expired_runtimes_at(now + 1_000_000), 0);
}

#[test]
fn reaper_schedules_retry_when_teardown_errors() {
    let now = 1_700_000_010u64;
    let teardown_calls = calls();
    let adapter = Rc::new(TeardownContractAdapter {
        teardown_calls: teardown_calls.clone(),
        behavior: TeardownBehavior::Error("simulated provider outage"),
    });
    let mut service = Server::with_adapters(adapter);
    let requester = fresh_key();
    let runtime_id =
        provision_runtime_for_tests(&mut service, &requester, "req-provision", "idem-provision");

    service.change_runtime(&runtime_id, |runtime| runtime.expires_at = now.saturating_sub(1));
    service.reap_expired_runtimes_at(now);
    assert_eq!(teardown_calls.get(), 1);
    let retry = service
        .state()
        .runtimes
        .get(&runtime_id)
        .and_then(|runtime| runtime.teardown_retry.as_ref())
        .expect("retry metadata should be set");
    assert_eq!(retry.attempt_count, 1);
    assert_eq!(retry.next_retry_at, Some(now.saturating_add(5)));
}

#[test]
fn reaper_transition_persist_failure_marks_runtime_retryable() {
    let now = 1_700_000_020u64;
    let teardown_calls = calls();
    let adapter = Rc::new(TeardownContractAdapter {
        teardown_calls: teardown_calls.clone(),
        behavior: deleted_payload(),
    });
    let mut service = Server::with_adapters(adapter);
    service.disk_fails = true;
    let owner = fresh_key();
    let runtime_id = "runtime-reaper-persist-failure".to_string();
    service.state_mut().runtimes.insert(
        runtime_id.clone(),
        stored_runtime(&runtime_id, &owner, now.saturating_sub(120), now.saturating_sub(1)),
    );

    service.reap_expired_runtimes_at(now);
    assert_eq!(teardown_calls.get(), 0);

    let runtime = service.state().runtimes.get(&runtime_id).expect("runtime exists");
    assert_eq!(runtime.descriptor.lifecycle_phase, RuntimeLifecyclePhase::Teardown);
    let retry = runtime
        .teardown_retry
        .as_ref()
        .expect("persist failure should schedule retry metadata");
    assert_eq!(retry.next_retry_at, Some(now));
    assert_eq!(
        retry.last_error.as_deref(),
        Some("persist teardown transition failed: disk is full")
    );
    assert_eq!(retry.attempt_count, 0);
}

#[test]
fn reaper_restart_resumes_pending_retry() {
    let now = 1_700_000_050u64;
    let failing_calls = calls();
    let failing_adapter = Rc::new(TeardownContractAdapter {
        teardown_calls: failing_calls.clone(),
        behavior: TeardownBehavior::Error("transient teardown error"),
    });
    let mut service_a = Server::with_adapters(failing_adapter);
    let requester = fresh_key();
    let runtime_id =
        provision_runtime_for_tests(&mut service_a, &requester, "req-provision", "idem-provision");
    service_a.change_runtime(&runtime_id, |runtime| runtime.expires_at = now.saturating_sub(1));
    service_a.reap_expired_runtimes_at(now);
    assert_eq!(failing_calls.get(), 1);

    let succeeding_calls = calls();
    let succeeding_adapter = Rc::new(TeardownContractAdapter {
        teardown_calls: succeeding_calls.clone(),
        behavior: deleted_payload(),
    });
    let persisted = service_a.disk.take().expect("state was saved");
    let mut service_b = Server::from_parts(
        AgentControlState::from_persisted(persisted),
        succeeding_adapter,
        ProvisionPolicy::AllowAll,
        DEFAULT_IDEMPOTENCY_MAX_ENTRIES,
        V2RolloutFlags { advanced_workload_enabled: false },
        default_build_policy(),
    );
    let retry_at = service_b
        .state()
        .runtimes
        .get(&runtime_id)
        .and_then(|runtime| runtime.teardown_retry.as_ref())
        .and_then(|retry| retry.next_retry_at)
        .expect("persisted retry metadata");
    service_b.reap_expired_runtimes_at(retry_at);
    assert_eq!(succeeding_calls.get(), 1);
    let runtime = service_b.state().runtimes.get(&runtime_id).expect("runtime exists");
    assert!(runtime.teardown_retry.is_none());
}

fn advanced() -> V2RolloutFlags {
    V2RolloutFlags { advanced_workload_enabled: true }
}

fn error_code(out: &CommandOutcome) -> &str {
    out.error.as_ref().expect("an error").code.as_str()
}

fn provision_with(change: impl Fn(&mut ProvisionCommand)) -> AgentControlCommand {
    let mut provision = plain_provision(ProviderKind::Fly);
    change(&mut provision);
    AgentControlCommand::Provision(provision)
}

#[test]
fn every_refusal_of_a_provisioning() {
    let adapter = Rc::new(MockAdapter { calls: calls() });
    let me = fresh_key();
    let mut service = Server::with_adapters(adapter.clone());
    let ask = |service: &mut Server, change: &dyn Fn(&mut ProvisionCommand)| {
        service.handle_command(&me, request(provision_with(change)))
    };
    let out = ask(&mut service, &|p| p.advanced_workload_json = Some("{}".to_string()));
    assert_eq!(error_code(&out), "v2_advanced_workload_disabled");
    let mut service = Server::with_adapters_policy_and_flags(
        adapter,
        ProvisionPolicy::AllowAll,
        DEFAULT_IDEMPOTENCY_MAX_ENTRIES,
        advanced(),
    );
    let out = ask(&mut service, &|p| p.advanced_workload_json = Some("{".to_string()));
    assert_eq!(error_code(&out), "advanced_workload_invalid_json");
    let out = ask(&mut service, &|p| {
        p.build_id = Some("b".to_string());
        p.artifact_ref = Some("a".to_string());
    });
    assert_eq!(error_code(&out), "provision_artifact_ambiguous");
    let out = ask(&mut service, &|p| p.build_id = Some("b".to_string()));
    assert_eq!(error_code(&out), "build_not_found");
    let out = ask(&mut service, &|p| p.artifact_ref = Some("x:latest".to_string()));
    assert_eq!(error_code(&out), "artifact_ref_invalid");
    let out = ask(&mut service, &|p| {
        p.provider = ProviderKind::Microvm;
        p.artifact_ref = Some("nix://closure/x@sha256:1".to_string());
    });
    assert_eq!(error_code(&out), "artifact_kind_incompatible");
    let out = ask(&mut service, &|p| {
        p.advanced_workload_json = Some(r#"{"cpus": 2}"#.to_string())
    });
    let metadata = out.result.expect("provisioned").runtime.metadata;
    assert_eq!(metadata.get("advanced_workload"), Some(json(r#"{"cpus": 2}"#)));
}

fn stored_build(owner: &str, phase: BuildPhase) -> BuildRecord {
    BuildRecord {
        build_id: "build-1".to_string(),
        owner_pubkey_hex: owner.to_string(),
        build_kind: BuildKind::Oci,
        phase,
        source_ref: Some("git+https://github.com/acme/repo".to_string()),
        artifact_ref: None,
        created_at: NOW,
        updated_at: NOW,
        deadline_at: NOW + 100,
        ready_at: Some(NOW + 50),
        context_bytes: 0,
        timeout_sec: 100,
        error_code: None,
        error_detail: None,
        canceled_at: None,
    }
}

fn source_server() -> Server {
    Server::with_adapters_policy_flags_and_build_policy(
        Rc::new(MockAdapter { calls: calls() }),
        ProvisionPolicy::AllowAll,
        DEFAULT_IDEMPOTENCY_MAX_ENTRIES,
        advanced(),
        test_build_policy(vec!["git+https://github.com/"]),
    )
}

#[test]
fn builds_are_waited_for() {
    let me = fresh_key();
    let mut service = source_server();
    service
        .state_mut()
        .builds
        .insert("build-1".to_string(), stored_build(&me, BuildPhase::FetchingSource));
    let get = || {
        request_with(
            "r",
            "i",
            AgentControlCommand::GetBuild { build_id: "build-1".to_string() },
        )
    };
    let provision = || {
        request_with("p", "p", provision_with(|p| p.build_id = Some("build-1".to_string())))
    };
    let out = service.handle_command(&me, provision());
    assert_eq!(error_code(&out), "build_not_ready");
    assert_eq!(out.error.expect("error").detail.as_deref(), Some("phase=Building"));
    service.now = NOW + 50;
    let out = service.handle_command(&me, get());
    let build = out.result.expect("build").payload.get("build").expect("build");
    assert_eq!(build.get_text("phase").as_deref(), Some("succeeded"));
    assert_eq!(build.get_uint("updated_at"), Some(NOW + 50));
    assert_eq!(service.state().artifacts.len(), 1);
    service.now = NOW + 1000;
    let again = service.handle_command(&me, get());
    assert_eq!(again.result.expect("build").payload.get("build"), Some(build));
    assert!(service.handle_command(&me, provision()).result.is_some());

    let mut gone = stored_build(&me, BuildPhase::Succeeded);
    gone.source_ref = None;
    service.state_mut().builds.insert("build-1".to_string(), gone);
    let out = service.handle_command(
        &me,
        request_with("p2", "p2", provision_with(|p| p.build_id = Some("build-1".to_string()))),
    );
    assert_eq!(error_code(&out), "build_artifact_missing");
}

#[test]
fn pending_builds_are_reconciled() {
    let me = fresh_key();
    let mut service = source_server();
    service
        .state_mut()
        .builds
        .insert("build-1".to_string(), stored_build(&me, BuildPhase::Building));
    assert_eq!(service.service.reconcile_pending_builds_at(NOW + 10), 1);
    assert_eq!(service.service.reconcile_pending_builds_at(NOW + 100), 1);
    let build = service.state().builds.get(&"build-1".to_string()).expect("build").clone();
    assert_eq!(build.phase, BuildPhase::Failed);
    assert_eq!(build.error_code.as_deref(), Some("build_timeout"));
    assert_eq!(service.service.reconcile_pending_builds_at(NOW + 200), 0);
}

fn submit_artifact(i: usize) -> AgentControlCmdEnvelope {
    request_with(
        &format!("req-{i}"),
        &format!("idem-{i}"),
        AgentControlCommand::SubmitBuild(SubmitBuildCommand {
            build_kind: BuildKind::Oci,
            source_ref: Some(format!("git+https://github.com/acme/{i}")),
            artifact_ref: None,
            timeout_sec: Some(120),
            context_bytes: None,
        }),
    )
}

#[test]
fn active_builds_are_limited() {
    let me = fresh_key();
    let mut service = source_server();
    service.service.build_policy.max_active_builds = 2;
    for i in 0..2 {
        assert!(service.handle_command(&me, submit_artifact(i)).result.is_some());
    }
    let out = service.handle_command(&me, submit_artifact(2));
    assert_eq!(error_code(&out), "build_quota_exceeded");
    assert_eq!(
        out.error.expect("error").detail.as_deref(),
        Some("active_builds=2, max_active_builds=2")
    );
    let last = service.state().audit_log.last().expect("audit").clone();
    assert_eq!(last.outcome, "denied_quota_active");
    assert_eq!(service.state().builds.len(), 2);
}

#[test]
fn submissions_that_are_not_saved_are_taken_back() {
    let me = fresh_key();
    let mut service = source_server();
    service.disk_fails = true;
    let out = service.handle_command(&me, submit_artifact(0));
    assert_eq!(error_code(&out), "state_persist_failed");
    assert_eq!(service.state().builds.len(), 0);
    let outcomes: Vec<String> =
        service.state().audit_log.iter().map(|e| e.outcome.clone()).collect();
    assert_eq!(outcomes, vec!["accepted".to_string(), "state_persist_failed".to_string()]);
}

#[test]
fn runtimes_that_are_not_saved_are_given_up() {
    let me = fresh_key();
    let mut service = Server::with_adapters(Rc::new(MockAdapter { calls: calls() }));
    service.disk_fails = true;
    let artifact = "oci://x@sha256:1".to_string();
    let out = service.handle_command(
        &me,
        request(provision_with(|p| p.artifact_ref = Some("oci://x@sha256:1".to_string()))),
    );
    assert_eq!(error_code(&out), "state_persist_failed");
    assert_eq!(
        out.error.expect("error").detail.as_deref(),
        Some(
            "disk is full; provider rollback attempted: {\"ok\":true}; rollback state persist failed: disk is full"
        )
    );
    assert!(service.state().runtimes.is_empty());
    assert!(!service.state().artifacts.contains_key(&artifact));
    service.disk_fails = false;
    assert!(service
        .handle_command(
            &me,
            request(provision_with(|p| p.artifact_ref = Some("oci://x@sha256:1".to_string()))),
        )
        .result
        .is_some());
    assert!(service.state().artifacts.contains_key(&artifact));
}

#[test]
fn canceling_twice_is_answered() {
    let me = fresh_key();
    let mut service = source_server();
    service
        .state_mut()
        .builds
        .insert("build-1".to_string(), stored_build(&me, BuildPhase::Building));
    let cancel = |i: &str, id: &str| {
        request_with(i, i, AgentControlCommand::CancelBuild { build_id: id.to_string() })
    };
    let first = service.handle_command(&me, cancel("a", "build-1")).result.expect("canceled");
    assert_eq!(first.payload.get_bool("already_terminal"), Some(false));
    let second = service.handle_command(&me, cancel("b", "build-1")).result.expect("canceled");
    assert_eq!(second.payload.get_bool("already_terminal"), Some(true));
    assert_eq!(second.payload.get("build"), first.payload.get("build"));
    let out = service.handle_command(&me, cancel("c", "build-9"));
    assert_eq!(error_code(&out), "build_not_found");
    let out = service.handle_command(&fresh_key(), cancel("d", "build-1"));
    assert_eq!(error_code(&out), "build_not_found");
}

#[test]
fn welcomes_and_failed_teardowns_are_answered() {
    let me = fresh_key();
    let mut service = Server::with_adapters(Rc::new(TeardownContractAdapter {
        teardown_calls: calls(),
        behavior: TeardownBehavior::Error("outage"),
    }));
    let runtime_id = provision_runtime_for_tests(&mut service, &me, "req-1", "idem-1");
    let out = service.handle_command(
        &me,
        request_with(
            "w",
            "w",
            AgentControlCommand::ProcessWelcome { runtime_id: runtime_id.clone() },
        ),
    );
    assert_eq!(out.result.expect("welcome").payload.get_bool("processed"), Some(false));
    let out = service.handle_command(
        &me,
        request_with("t", "t", AgentControlCommand::Teardown { runtime_id: runtime_id.clone() }),
    );
    assert_eq!(error_code(&out), "teardown_failed");
    assert_eq!(
        out.error.expect("error").detail,
        Some(format!("outage; next_retry_at={}", NOW + 5))
    );
    let runtime = service.state().runtimes.get(&runtime_id).expect("runtime");
    assert_eq!(runtime.descriptor.lifecycle_phase, RuntimeLifecyclePhase::Teardown);
    let out = service.handle_command(
        &me,
        request_with(
            "x",
            "x",
            AgentControlCommand::ProcessWelcome { runtime_id: "nope".to_string() },
        ),
    );
    assert_eq!(error_code(&out), "runtime_not_found");
}

#[test]
fn schemas_that_are_not_spoken_are_refused() {
    let mut service = Server::with_adapters(Rc::new(MockAdapter { calls: calls() }));
    let mut cmd = request(AgentControlCommand::GetCapabilities);
    cmd.schema = "agent.control.cmd.v9".to_string();
    let out = service.handle_command(&fresh_key(), cmd);
    assert_eq!(error_code(&out), "invalid_schema");
    let error = out.error.expect("error");
    assert_eq!(error.hint.as_deref(), Some("expected agent.control.cmd.v1"));
    assert_eq!(error.detail.as_deref(), Some("got agent.control.cmd.v9"));
}

#[test]
fn lists_are_ordered_and_limited() {
    let me = fresh_key();
    let mut service = Server::with_adapters(Rc::new(MockAdapter { calls: calls() }));
    for id in ["c", "a", "b"] {
        service
            .state_mut()
            .runtimes
            .insert(format!("key-{id}"), stored_runtime(id, &me, NOW, NOW + TTL));
    }
    let mut list = list_all();
    list.limit = Some(2);
    let out = service.handle_command(&me, request(AgentControlCommand::ListRuntimes(list)));
    let result = out.result.expect("list");
    assert_eq!(result.runtime.runtime_id, "a");
    assert_eq!(result.payload.get_uint("count"), Some(2));
    assert_eq!(result.payload.value["runtimes"][1]["runtime_id"], "b");
    assert_eq!(result.payload.value["runtimes"][0]["metadata"]["expires_at"], NOW + TTL);
}

#[test]
fn every_refusal_of_a_distribution() {
    let me = fresh_key();
    let mut service = Server::with_adapters(Rc::new(MockAdapter { calls: calls() }));
    let mut ask = |distribution: &str, preset: &str, overrides: Option<&str>| {
        service.handle_command(
            &me,
            request(AgentControlCommand::ResolveDistribution(ResolveDistributionCommand {
                distribution_ref: distribution.to_string(),
                preset: preset.to_string(),
                overrides_json: overrides.map(str::to_string),
            })),
        )
    };
    assert_eq!(error_code(&ask("nope", "small", None)), "distribution_not_found");
    assert_eq!(
        error_code(&ask("agent.default", "huge", None)),
        "distribution_preset_not_found"
    );
    assert_eq!(
        error_code(&ask("agent.default", "small", Some("{"))),
        "distribution_overrides_invalid_json"
    );
    assert_eq!(
        error_code(&ask("agent.default", "small", Some("[]"))),
        "distribution_overrides_invalid_shape"
    );
    assert_eq!(
        error_code(&ask("agent.default", "small", Some(r#"{"artifact_ref":"x:latest"}"#))),
        "distribution_artifact_invalid"
    );
    let out = ask(
        "agent.default",
        "medium",
        Some(r#"{"ttl_sec":5,"region_hint":" eu ","runtime_class":" ","artifact_ref":"nix://closure/x"}"#),
    );
    let result = out.result.expect("resolved");
    assert_eq!(result.runtime.provider, ProviderKind::Microvm);
    assert_eq!(result.runtime.region.as_deref(), Some("eu"));
    assert_eq!(
        result.runtime.metadata.value["resolved_distribution"]["overrides"],
        json(r#"{"ttl_sec":60,"region_hint":"eu","artifact_ref":"nix://closure/x"}"#).value
    );
    let plain = ask("agent.default", "medium", None).result.expect("resolved");
    assert_eq!(
        plain.payload.value["resolved_provision"]["requested_ttl_sec"],
        2 * TTL
    );
    assert_eq!(plain.payload.value["resolved_provision"]["runtime_class"], "microvm");
}

#[test]
fn capabilities_are_told() {
    let mut service = Server::with_adapters(Rc::new(MockAdapter { calls: calls() }));
    let out = service.handle_command(&fresh_key(), request(AgentControlCommand::GetCapabilities));
    let payload = out.result.expect("capabilities").payload;
    assert_eq!(
        payload,
        json(
            r#"{"operation":"get_capabilities","providers":[
                {"provider":"fly","runtime_class":"fly","region":null,"workload_kinds":["oci"],
                 "build_support":["prebuilt_artifact","build_ref"]},
                {"provider":"microvm","runtime_class":"microvm","region":null,"workload_kinds":["nix"],
                 "build_support":["prebuilt_artifact","build_ref"]}],
                "limits":{"ttl_sec_min":60,"ttl_sec_default":3600,"build_max_active":8,
                 "build_max_submissions_per_hour":30,"build_max_context_bytes":52428800},
                "policy_flags":{"distribution_enabled":true,"build_enabled":true,
                 "advanced_workload_enabled":false}}"#
        )
    );
}

#[test]
fn state_survives_the_disk() {
    let me = fresh_key();
    let mut service = Server::with_adapters(Rc::new(MockAdapter { calls: calls() }));
    provision_runtime_for_tests(&mut service, &me, "req-1", "idem-1");
    provision_runtime_for_tests(&mut service, &me, "req-2", "idem-2");
    let state = service.state().clone();
    assert_eq!(state.idempotency.len(), 2);
    assert_eq!(AgentControlState::from_persisted(state.to_persisted()), state);
}

#[test]
fn gaps_in_times_are_filled() {
    let mut state = AgentControlState::default();
    let mut build = stored_build("o", BuildPhase::Building);
    build.updated_at = 0;
    build.timeout_sec = 0;
    state.builds.insert("build-1".to_string(), build);
    state.runtimes.insert("r".to_string(), stored_runtime("r", "o", 0, 0));
    let (service, leases, builds) = AgentControlService::open(
        state,
        ProvisionPolicy::DenyAll,
        advanced(),
        default_build_policy(),
        16,
        NOW,
        TTL,
    );
    assert_eq!((leases, builds), (2, 2));
    let runtime = service.state.runtimes.get(&"r".to_string()).expect("runtime");
    assert_eq!((runtime.created_at, runtime.expires_at), (NOW, NOW + TTL));
    let build = service.state.builds.get(&"build-1".to_string()).expect("build");
    assert_eq!(build.timeout_sec, 1200);
    assert_eq!(build.updated_at, NOW);
}

#[test]
fn answers_are_replayed_while_there_is_room_for_them() {
    let calls = calls();
    let adapter = Rc::new(MockAdapter { calls: calls.clone() });
    let mut service =
        Server::with_adapters_and_policy(adapter.clone(), ProvisionPolicy::AllowAll, 3);
    let requester = fresh_key();
    let provision = AgentControlCommand::Provision(plain_provision(ProviderKind::Fly));
    let first = service
        .handle_command(&requester, request_with("req-0", "idem-0", provision.clone()))
        .result
        .expect("provisioned");
    for other in ["idem-1", "idem-2"] {
        provision_runtime_for_tests(&mut service, &requester, other, other);
        let before = service.state().clone();
        let teardown = AgentControlCommand::Teardown { runtime_id: "whatever".to_string() };
        let again = service
            .handle_command(&requester, request_with("req-again", "idem-0", teardown));
        assert_eq!(service.state(), &before);
        let replay = again.result.expect("replayed");
        assert_eq!(replay.request_id, "req-again");
        assert_eq!(replay.runtime, first.runtime);
        assert_eq!(replay.payload, first.payload);
        assert_eq!(again.statuses.len(), 2);
        assert_eq!(again.statuses[1].message.as_deref(), Some("idempotent replay"));
    }
    assert_eq!(calls.get(), 3);
    provision_runtime_for_tests(&mut service, &requester, "req-3", "idem-3");
    let again = service.handle_command(&requester, request_with("req-4", "idem-0", provision));
    assert_eq!(calls.get(), 5);
    assert_ne!(again.result.expect("provisioned anew").runtime, first.runtime);
}

#[test]
fn handling_tells_whether_there_is_something_to_save() {
    let adapter = Rc::new(MockAdapter { calls: calls() });
    let mut service = Server::with_adapters(adapter);
    let requester = fresh_key();
    let runtime_id = provision_runtime_for_tests(&mut service, &requester, "req-0", "idem-0");
    let context = CommandContext {
        now: service.now,
        fly: fly_profile(),
        microvm: fly_profile(),
        ttl_secs: TTL,
        manifests: OrdMap::new(),
        build_id: new_build_id(),
    };
    let submit = |context_bytes: u64| {
        AgentControlCommand::SubmitBuild(SubmitBuildCommand {
            build_kind: BuildKind::Oci,
            source_ref: None,
            artifact_ref: Some("oci://registry.example/pika@sha256:deadbeef".to_string()),
            timeout_sec: Some(120),
            context_bytes: Some(context_bytes),
        })
    };
    let cases = [
        (AgentControlCommand::GetRuntime { runtime_id: runtime_id.clone() }, false),
        (AgentControlCommand::ListRuntimes(list_all()), false),
        (AgentControlCommand::GetCapabilities, false),
        (AgentControlCommand::Provision(plain_provision(ProviderKind::Fly)), false),
        (AgentControlCommand::GetBuild { build_id: "none".to_string() }, false),
        (AgentControlCommand::CancelBuild { build_id: "none".to_string() }, false),
        (submit(u64::MAX), false),
        (submit(64), true),
        (AgentControlCommand::Teardown { runtime_id: "none".to_string() }, false),
        (AgentControlCommand::Teardown { runtime_id }, true),
    ];
    for (command, saves) in cases {
        let before = service.service.clone();
        let cmd = request_with("req-1", "idem-1", command);
        let (_, told) = service.service.handle_command(&requester, &cmd, &context);
        assert_eq!(told, saves);
        assert_eq!(service.service != before, saves);
    }
}

#[test]
fn microvm_parameters_reach_the_spawner() {
    let keys = KeyPair { secret_hex: "5c".repeat(32), public_hex: "ab".repeat(32) };
    let mut command = plain_provision(ProviderKind::Microvm);
    let relays = vec!["wss://default.example".to_string()];
    let plan = plan_vm(&command, "owner", relays.clone(), keys.clone());
    assert_eq!(plan.params, None);
    assert_eq!(plan.relay_urls, relays);
    command.microvm = Some(json(r#"{"cpu": 2}"#));
    command.keep = true;
    command.relay_urls = vec!["wss://own.example".to_string()];
    let plan = plan_vm(&command, "owner", relays, keys.clone());
    assert_eq!(plan.params, Some(json(r#"{"cpu": 2}"#)));
    assert!(plan.keep);
    assert_eq!(plan.owner_pubkey_hex, "owner");
    assert_eq!(plan.relay_urls, vec!["wss://own.example".to_string()]);
    assert_eq!(plan.keys, keys);
}

#[test]
fn new_machines_are_told_apart() {
    let plan = || {
        plan_new_fly_machine(
            &plain_provision(ProviderKind::Fly),
            "secret".to_string(),
            "key".to_string(),
            None,
            None,
        )
    };
    let one = plan();
    let suffix = one.volume_name.strip_prefix("agent_").expect("prefix").to_string();
    assert_eq!(suffix.len(), 8);
    assert_eq!(one.machine_name, format!("agent-{suffix}"));
    assert_ne!(plan().volume_name, one.volume_name);
}

#[test]
fn states_are_read_and_brought_up_to_date() {
    assert_eq!(read_state(" \n\t"), None);
    let (state, count) = read_state(
        r#"{"runtimes": {"r": {"descriptor": {"protocol_compatibility": ["pi", "acp"]}}}}"#,
    )
    .expect("something")
    .expect("state");
    assert_eq!(count, 1);
    assert_eq!(
        state,
        json(r#"{"runtimes": {"r": {"descriptor": {"protocol_compatibility": ["acp", "acp"]}}}}"#)
    );
    assert!(read_state("{").expect("something").is_err());
    assert_eq!(migrate_read_state(Err("bad".to_string())), Err("bad".to_string()));
    assert_eq!(migrate_read_state(Ok(json("[1]"))), Ok((json("[1]"), 0)));
}
