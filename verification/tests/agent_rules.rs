use rapture_core::agent::builds::{artifact_for_digest, DefaultBuildService};
use rapture_core::agent::metadata::{extract_request_id, teardown_backoff_secs};
use rapture_core::agent::policy::{
    control_cmd_lookback_secs, env_bool, ensure_immutable_artifact_ref, idempotency_max_entries,
    load_build_policy, load_provision_policy, normalize_submit_build_command,
    normalize_with_source, parse_artifact_kind, parse_source_ref, policy_from_keys,
    reaper_interval_secs, runtime_ttl_secs, BuildPolicy, BuildSettings, ParsedSourceRef,
    ProvisionPolicy, SourceAllowRule,
};
use rapture_core::agent::providers::{
    chosen_relays, fly_handle, fly_runtime, fly_teardown_payload, microvm_deleted,
    microvm_runtime, plan_fly_machine, plan_microvm_teardown, process_welcome, MicrovmTeardown,
};
use rapture_core::agent::fly::{
    DeleteMachineOutcome, DeleteVolumeOutcome, FlyApiError, StopMachineOutcome,
};
use rapture_core::agent::metadata::RuntimeProfile;
use rapture_core::agent::types::{
    BuildKind, BuildPhase, BuildRecord, ProtocolKind, ProviderHandle, ProviderKind,
    ProvisionCommand, SubmitBuildCommand,
};
use rapture_core::json::Json;

fn some(text: &str) -> Option<String> {
    Some(text.to_string())
}

fn json(text: &str) -> Json {
    Json { value: serde_json::from_str(text).expect("json") }
}

#[test]
fn settings_are_read() {
    assert_eq!(env_bool(&some(" yes ")), Some(true));
    assert_eq!(env_bool(&some("FALSE")), Some(false));
    assert_eq!(env_bool(&some("maybe")), None);
    assert_eq!(env_bool(&None), None);
    assert_eq!(control_cmd_lookback_secs(&None), 600);
    assert_eq!(control_cmd_lookback_secs(&some("0")), 0);
    assert_eq!(runtime_ttl_secs(&some("5")), 60);
    assert_eq!(runtime_ttl_secs(&some("x")), 3600);
    assert_eq!(reaper_interval_secs(&some("1")), 5);
    assert_eq!(reaper_interval_secs(&None), 30);
    assert_eq!(idempotency_max_entries(&some("1")), 256);
    assert_eq!(idempotency_max_entries(&None), 8192);
}

#[test]
fn provision_policy_lists_keys() {
    let key = "79be667ef9dcbbac55a06295ce870b07029bfcdb2dce28d959f2815b16f81798";
    let npub = "npub10xlxvlhemja6c4dqv22uapctqupfhlxm9h8z3k2e72q4k9hcz7vqpkge6d";
    assert_eq!(load_provision_policy(Some(true), "junk"), Ok(ProvisionPolicy::AllowAll));
    assert_eq!(load_provision_policy(None, " , "), Ok(ProvisionPolicy::DenyAll));
    let policy = load_provision_policy(Some(false), npub).expect("policy");
    assert!(policy.is_allowed(key));
    assert!(!policy.is_allowed(npub));
    assert_eq!(
        load_provision_policy(None, &format!("{key},nope")),
        Err("parse provision allowlist pubkey: nope".to_string())
    );
    let entries = vec!["a".to_string(), "b".to_string()];
    let policy = policy_from_keys(None, &entries, &vec![some("k1"), some("k2")]).expect("policy");
    assert!(policy.is_allowed("k1") && policy.is_allowed("k2") && !policy.is_allowed("k3"));
    assert_eq!(
        policy_from_keys(None, &entries, &vec![None, None]),
        Err("parse provision allowlist pubkey: a".to_string())
    );
}

#[test]
fn sources_are_parsed() {
    assert_eq!(
        parse_source_ref(" git+https://GitHub.com/acme/./repo/x/../y "),
        Ok(ParsedSourceRef {
            source_prefix: some("git"),
            scheme: "https".to_string(),
            host: "github.com".to_string(),
            port: Some(443),
            path_segments: vec!["acme".to_string(), "repo".to_string(), "y".to_string()],
        })
    );
    assert_eq!(parse_source_ref("  "), Err("source ref must be non-empty".to_string()));
    assert!(parse_source_ref("not a url").unwrap_err().starts_with("parse source url"));
    assert_eq!(
        parse_source_ref("ssh://host/x"),
        Err("source url scheme must be http or https".to_string())
    );
}

#[test]
fn rules_admit_what_is_below_them() {
    let rule = SourceAllowRule::parse("git+https://github.com/acme/repo").expect("rule");
    let admits = |source: &str| rule.matches(&parse_source_ref(source).expect("source"));
    assert!(admits("git+https://github.com/acme/repo"));
    assert!(admits("git+https://github.com/acme/repo/sub"));
    assert!(!admits("git+https://github.com/acme/repo-evil"));
    assert!(!admits("https://github.com/acme/repo"));
    assert!(!admits("git+http://github.com/acme/repo"));
    assert!(!admits("git+https://github.com:444/acme/repo"));
}

#[test]
fn artifacts_have_to_be_immutable() {
    assert_eq!(ensure_immutable_artifact_ref(BuildKind::Oci, "x@sha256:1"), Ok(()));
    assert!(ensure_immutable_artifact_ref(BuildKind::Oci, "x:latest").is_err());
    assert!(ensure_immutable_artifact_ref(BuildKind::Oci, " ").is_err());
    assert_eq!(ensure_immutable_artifact_ref(BuildKind::Nix, "nix://closure/x"), Ok(()));
    assert!(ensure_immutable_artifact_ref(BuildKind::Nix, "closure/x").is_err());
    assert_eq!(parse_artifact_kind("oci://x"), Some(BuildKind::Oci));
    assert_eq!(parse_artifact_kind("nix:x"), Some(BuildKind::Nix));
    assert_eq!(parse_artifact_kind("x"), None);
    assert_eq!(
        artifact_for_digest(BuildKind::Oci, "abc"),
        "oci://builder-cache/pika-agent@sha256:abc"
    );
    assert_eq!(artifact_for_digest(BuildKind::Nix, "abc"), "nix://closure/abc");
}

fn policy(rules: &str) -> BuildPolicy {
    load_build_policy(&BuildSettings {
        allowed_source_prefixes: rules.to_string(),
        max_active: None,
        max_submissions_per_hour: None,
        max_context_bytes: None,
        default_timeout_secs: None,
        max_timeout_secs: None,
        artifact_ttl_secs: None,
        audit_max_entries: None,
    })
}

fn submit(source_ref: Option<&str>, artifact_ref: Option<&str>) -> SubmitBuildCommand {
    SubmitBuildCommand {
        build_kind: BuildKind::Oci,
        source_ref: source_ref.map(str::to_string),
        artifact_ref: artifact_ref.map(str::to_string),
        timeout_sec: None,
        context_bytes: None,
    }
}

#[test]
fn every_rejection_of_a_build() {
    let open = policy("git+https://github.com/, junk");
    assert_eq!(open.allowed_source_rules.len(), 1);
    let code = |command: &SubmitBuildCommand, policy: &BuildPolicy, advanced: bool| {
        normalize_submit_build_command(command, policy, advanced).expect_err("rejection").code
    };
    assert_eq!(code(&submit(None, None), &open, true), "build_request_invalid");
    assert_eq!(code(&submit(Some("a"), Some("b")), &open, true), "build_request_invalid");
    let mut large = submit(None, Some("x@sha256:1"));
    large.context_bytes = Some(u64::MAX);
    assert_eq!(code(&large, &open, true), "build_context_too_large");
    let source = submit(Some("git+https://github.com/a"), None);
    assert_eq!(code(&source, &open, false), "v2_advanced_workload_disabled");
    assert_eq!(code(&source, &policy(""), true), "build_source_disabled");
    assert_eq!(code(&submit(Some("nope"), None), &open, true), "build_source_invalid");
    assert_eq!(
        code(&submit(Some("git+https://gitlab.com/a"), None), &open, true),
        "build_source_not_allowed"
    );
    assert_eq!(code(&submit(None, Some("x:latest")), &open, true), "artifact_ref_invalid");
    let request = normalize_submit_build_command(&source, &open, true).expect("request");
    assert_eq!(request.timeout_sec, 1200);
    assert_eq!(request.context_bytes, 0);
    let mut quick = source.clone();
    quick.timeout_sec = Some(1);
    assert_eq!(
        normalize_submit_build_command(&quick, &open, true).expect("request").timeout_sec,
        60
    );
    let elsewhere = parse_source_ref("git+https://gitlab.com/a");
    assert_eq!(
        normalize_with_source(&source, elsewhere, &open, true).expect_err("rejection").code,
        "build_source_not_allowed"
    );
}

#[test]
fn builds_go_on() {
    let rules = policy("git+https://github.com/").allowed_source_rules;
    let build = BuildRecord {
        build_id: "b".to_string(),
        owner_pubkey_hex: "o".to_string(),
        build_kind: BuildKind::Oci,
        phase: BuildPhase::FetchingSource,
        source_ref: some("git+https://github.com/acme/repo"),
        artifact_ref: None,
        created_at: 100,
        updated_at: 100,
        deadline_at: 200,
        ready_at: Some(150),
        context_bytes: 0,
        timeout_sec: 100,
        error_code: None,
        error_detail: None,
        canceled_at: None,
    };
    let poll = |build: &BuildRecord, now: u64| DefaultBuildService.poll(build, now, &rules);
    assert_eq!(poll(&build, 120).expect("building").phase, BuildPhase::Building);
    let done = poll(&build, 150).expect("done");
    assert_eq!(done.phase, BuildPhase::Succeeded);
    let artifact = done.artifact_ref.expect("artifact");
    let digest = artifact
        .strip_prefix("oci://builder-cache/pika-agent@sha256:")
        .expect("artifact of the builder");
    assert_eq!(digest, rapture_core::voice_media::participant_label_hex(
        "oci:git+https://github.com/acme/repo"
    ));
    let late = poll(&build, 200).expect("late");
    assert_eq!(late.error_code.as_deref(), Some("build_timeout"));
    let mut other = build.clone();
    other.phase = BuildPhase::Building;
    assert_eq!(poll(&other, 120), None);
    other.source_ref = some("git+https://gitlab.com/x");
    assert_eq!(
        poll(&other, 120).expect("failed").error_code.as_deref(),
        Some("build_source_not_allowed")
    );
    other.source_ref = some("x");
    assert_eq!(
        poll(&other, 120).expect("failed").error_code.as_deref(),
        Some("build_source_invalid")
    );
    other.source_ref = None;
    assert_eq!(poll(&other, 120), None);
    other.phase = BuildPhase::Canceled;
    assert_eq!(poll(&other, 500), None);
    assert_eq!(
        DefaultBuildService
            .poll_with_source(
                &build,
                parse_source_ref("git+https://github.com/x"),
                "d",
                160,
                &rules
            )
            .expect("done")
            .artifact_ref
            .as_deref(),
        Some("oci://builder-cache/pika-agent@sha256:d")
    );
}

#[test]
fn waits_grow() {
    let waits: Vec<u64> = (0..13).map(teardown_backoff_secs).collect();
    assert_eq!(waits, vec![5, 5, 10, 20, 40, 80, 160, 320, 640, 1280, 1800, 1800, 1800]);
    assert_eq!(teardown_backoff_secs(u32::MAX), 1800);
}

#[test]
fn request_ids_are_found() {
    assert_eq!(extract_request_id(r#"{"request_id":"r"}"#), some("r"));
    assert_eq!(extract_request_id(r#"{"request_id":7}"#), None);
    assert_eq!(extract_request_id("{"), None);
}

fn profile() -> RuntimeProfile {
    RuntimeProfile {
        runtime_class: some("fly"),
        region: None,
        capacity: json("null"),
        policy_constraints: json("{}"),
    }
}

fn provision() -> ProvisionCommand {
    ProvisionCommand {
        provider: ProviderKind::Fly,
        protocol: ProtocolKind::Acp,
        name: None,
        runtime_class: None,
        relay_urls: vec![],
        keep: false,
        bot_secret_key_hex: None,
        build_id: None,
        artifact_ref: some("oci://x@sha256:1"),
        advanced_workload_json: None,
        microvm: None,
    }
}

#[test]
fn machines_are_planned() {
    let mut command = provision();
    let plan = plan_fly_machine(
        &command,
        0xab,
        "secret".to_string(),
        "key".to_string(),
        some("openai"),
        some("  "),
    );
    assert_eq!(plan.volume_name, "agent_000000ab");
    assert_eq!(plan.machine_name, "agent-000000ab");
    assert_eq!(plan.image_override.as_deref(), Some("oci://x@sha256:1"));
    assert_eq!(plan.env.len(), 4);
    assert_eq!(plan.env.get(&"OPENAI_API_KEY".to_string()), Some(&"openai".to_string()));
    assert_eq!(plan.env.get(&"NOSTR_SECRET_KEY".to_string()), Some(&"secret".to_string()));
    command.name = some("named");
    command.artifact_ref = some("nix://closure/x");
    let plan =
        plan_fly_machine(&command, 1, "s".to_string(), "k".to_string(), None, some("model"));
    assert_eq!(plan.machine_name, "named");
    assert_eq!(plan.image_override, None);
    assert_eq!(plan.env.get(&"PI_MODEL".to_string()), Some(&"model".to_string()));
}

#[test]
fn providers_tell_what_they_made() {
    let made = fly_runtime(
        "m".to_string(),
        "v".to_string(),
        "app".to_string(),
        "bot".to_string(),
        &profile(),
    );
    assert_eq!(
        made.metadata,
        json(r#"{"machine_id":"m","volume_id":"v","app_name":"app","runtime_class":"fly","region":null}"#)
    );
    assert_eq!(made.protocol_compatibility, vec![ProtocolKind::Acp]);
    assert_eq!(
        fly_handle(&made.provider_handle),
        Ok(("m".to_string(), "v".to_string(), "app".to_string()))
    );
    assert!(plan_microvm_teardown(&made.provider_handle).is_err());
    let vm = microvm_runtime(
        "vm".to_string(),
        "10.0.0.1".to_string(),
        "http://s".to_string(),
        false,
        "bot".to_string(),
        &profile(),
    );
    assert_eq!(vm.metadata.get_text("vm_ip").as_deref(), Some("10.0.0.1"));
    assert_eq!(
        fly_handle(&vm.provider_handle),
        Err("fly adapter received non-fly runtime handle".to_string())
    );
    assert!(matches!(
        plan_microvm_teardown(&vm.provider_handle),
        Ok(MicrovmTeardown::Delete { .. })
    ));
    let kept = ProviderHandle::Microvm {
        vm_id: "vm".to_string(),
        spawner_url: "http://s".to_string(),
        keep: true,
    };
    assert_eq!(
        plan_microvm_teardown(&kept),
        Ok(MicrovmTeardown::Skip(json(
            r#"{"teardown":"skipped","vm_id":"vm","spawner_url":"http://s","reason":"--keep policy"}"#
        )))
    );
    assert_eq!(
        microvm_deleted("vm", "http://s"),
        json(r#"{"teardown":"deleted","vm_id":"vm","spawner_url":"http://s"}"#)
    );
    assert_eq!(process_welcome(ProviderKind::Fly).get_bool("processed"), Some(false));
    assert_eq!(
        chosen_relays(&vec![], vec!["d".to_string()]),
        vec!["d".to_string()]
    );
    assert_eq!(
        chosen_relays(&vec!["a".to_string()], vec!["d".to_string()]),
        vec!["a".to_string()]
    );
}

#[test]
fn fly_teardowns_are_summed_up() {
    let error = || FlyApiError::provider("delete_machine", 503, "outage".to_string());
    let fatal = || FlyApiError::provider("delete_volume", 401, "denied".to_string());
    let state = |machine: Result<DeleteMachineOutcome, FlyApiError>,
                 volume: Result<DeleteVolumeOutcome, FlyApiError>| {
        let payload =
            fly_teardown_payload("m", "v", "a", &Ok(StopMachineOutcome::Stopped), &machine, &volume);
        (
            payload.get_text("teardown").expect("teardown"),
            payload.get_bool("retryable").expect("retryable"),
        )
    };
    assert_eq!(state(Ok(DeleteMachineOutcome::Deleted), Ok(DeleteVolumeOutcome::Deleted)), ("deleted".to_string(), false));
    assert_eq!(state(Ok(DeleteMachineOutcome::AlreadyGone), Ok(DeleteVolumeOutcome::Deleted)), ("deleted".to_string(), false));
    assert_eq!(
        state(Ok(DeleteMachineOutcome::AlreadyGone), Ok(DeleteVolumeOutcome::AlreadyGone)),
        ("already_gone".to_string(), false)
    );
    assert_eq!(state(Ok(DeleteMachineOutcome::Deleted), Ok(DeleteVolumeOutcome::Conflict)), ("partial".to_string(), true));
    assert_eq!(state(Err(error()), Ok(DeleteVolumeOutcome::Deleted)), ("failed".to_string(), true));
    assert_eq!(state(Ok(DeleteMachineOutcome::Deleted), Err(fatal())), ("failed".to_string(), false));
    let stop = FlyApiError::transport("stop_machine", "lost".to_string());
    let payload =
        fly_teardown_payload("m", "v", "a", &Err(stop), &Err(error()), &Err(fatal()));
    assert_eq!(
        payload,
        json(
            r#"{"teardown":"failed","machine_id":"m","volume_id":"v","app_name":"a",
                "machine_status":"failed","volume_status":"failed","retryable":true,"error":[
                {"step":"stop_machine","detail":"stop_machine failed: transport detail=lost","status_code":null,"retryable":true},
                {"step":"delete_machine","detail":"delete_machine failed: status=503 detail=outage","status_code":503,"retryable":true},
                {"step":"delete_volume","detail":"delete_volume failed: status=401 detail=denied","status_code":401,"retryable":false}]}"#
        )
    );
}
