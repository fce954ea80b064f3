use rapture_core::agent::fly::{
    accept_reply, delete_machine_outcome, delete_volume_outcome, optional_non_empty_env,
    required_non_empty_env, stop_machine_outcome, DeleteMachineOutcome, DeleteVolumeOutcome,
    FlyApiError, FlyClient, FlySettings, HttpMethod, HttpReply, HttpRequest, StopMachineOutcome,
};
use rapture_core::collections::OrdMap;

fn test_client() -> FlyClient {
    FlyClient {
        api_token: "fly-token".to_string(),
        app_name: "pika-test".to_string(),
        api_base_url: "http://127.0.0.1:9".to_string(),
        region: "iad".to_string(),
        image: "registry.fly.io/pika-bot:test".to_string(),
    }
}

fn reply(status: u16, body: &str) -> HttpReply {
    HttpReply { status, body: body.to_string() }
}

fn path(request: &HttpRequest) -> &str {
    request.url.strip_prefix("http://127.0.0.1:9").expect("base url")
}

#[test]
fn create_volume_contract_request_shape() {
    let req = test_client().create_volume("state-volume");
    assert_eq!(req.method, HttpMethod::Post);
    assert_eq!(path(&req), "/v1/apps/pika-test/volumes");
    assert_eq!(req.bearer_token, "fly-token");

    let json = req.body.expect("body").value;
    assert_eq!(json["name"], "state-volume");
    assert_eq!(json["region"], "iad");
    assert_eq!(json["size_gb"], 1);
    assert_eq!(
        accept_reply("create volume", reply(200, r#"{"id":"vol-123"}"#)),
        Ok(r#"{"id":"vol-123"}"#.to_string())
    );
}

#[test]
fn create_machine_contract_request_shape() {
    let mut env = OrdMap::new();
    env.insert("PIKA_OWNER_PUBKEY".to_string(), "pubkey123".to_string());
    let req = test_client().create_machine("bot-machine", "vol-123", &env, &None);
    assert_eq!(req.method, HttpMethod::Post);
    assert_eq!(path(&req), "/v1/apps/pika-test/machines");
    assert_eq!(req.bearer_token, "fly-token");

    let json = req.body.expect("body").value;
    assert_eq!(json["name"], "bot-machine");
    assert_eq!(json["region"], "iad");
    assert_eq!(json["config"]["image"], "registry.fly.io/pika-bot:test");
    assert_eq!(json["config"]["guest"]["cpu_kind"], "shared");
    assert_eq!(json["config"]["guest"]["cpus"], 1);
    assert_eq!(json["config"]["guest"]["memory_mb"], 256);
    assert_eq!(json["config"]["mounts"][0]["volume"], "vol-123");
    assert_eq!(json["config"]["mounts"][0]["path"], "/app/state");
    assert_eq!(json["config"]["env"]["PIKA_OWNER_PUBKEY"], "pubkey123");
}

#[test]
fn create_machine_uses_image_override_when_provided() {
    let req = test_client().create_machine(
        "bot-machine",
        "vol-123",
        &OrdMap::new(),
        &Some("registry.example.com/pika@sha256:abcd".to_string()),
    );
    let json = req.body.expect("body").value;
    assert_eq!(json["config"]["image"], "registry.example.com/pika@sha256:abcd");

    let req = test_client().create_machine(
        "bot-machine",
        "vol-123",
        &OrdMap::new(),
        &Some("  ".to_string()),
    );
    let json = req.body.expect("body").value;
    assert_eq!(json["config"]["image"], "registry.fly.io/pika-bot:test");
}

#[test]
fn get_machine_contract_request_shape() {
    let req = test_client().get_machine("machine-xyz");
    assert_eq!(req.method, HttpMethod::Get);
    assert_eq!(path(&req), "/v1/apps/pika-test/machines/machine-xyz");
    assert_eq!(req.bearer_token, "fly-token");
    assert!(req.body.is_none());
}

#[test]
fn stop_machine_contract_request_shape() {
    assert_eq!(stop_machine_outcome(reply(200, "{}")), Ok(StopMachineOutcome::Stopped));
    let req = test_client().stop_machine("machine-xyz");
    assert_eq!(req.method, HttpMethod::Post);
    assert_eq!(path(&req), "/v1/apps/pika-test/machines/machine-xyz/stop");
    assert_eq!(req.bearer_token, "fly-token");

    let json = req.body.expect("body").value;
    assert_eq!(json["signal"], "SIGTERM");
    assert_eq!(json["timeout"], "10s");
}

#[test]
fn stop_machine_404_is_already_gone() {
    assert_eq!(
        stop_machine_outcome(reply(404, "machine missing")),
        Ok(StopMachineOutcome::AlreadyGone)
    );
}

#[test]
fn delete_machine_contract_request_shape() {
    assert_eq!(delete_machine_outcome(reply(200, "{}")), Ok(DeleteMachineOutcome::Deleted));
    let req = test_client().delete_machine("machine-xyz");
    assert_eq!(req.method, HttpMethod::Delete);
    assert_eq!(path(&req), "/v1/apps/pika-test/machines/machine-xyz?force=true");
    assert_eq!(req.bearer_token, "fly-token");
    assert!(req.body.is_none());
}

#[test]
fn delete_machine_404_is_already_gone() {
    assert_eq!(
        delete_machine_outcome(reply(404, "missing")),
        Ok(DeleteMachineOutcome::AlreadyGone)
    );
}

#[test]
fn delete_volume_contract_request_shape() {
    assert_eq!(delete_volume_outcome(reply(200, "{}")), Ok(DeleteVolumeOutcome::Deleted));
    let req = test_client().delete_volume("vol-123");
    assert_eq!(req.method, HttpMethod::Delete);
    assert_eq!(path(&req), "/v1/apps/pika-test/volumes/vol-123");
    assert_eq!(req.bearer_token, "fly-token");
}

#[test]
fn delete_volume_404_is_already_gone() {
    assert_eq!(
        delete_volume_outcome(reply(404, "missing")),
        Ok(DeleteVolumeOutcome::AlreadyGone)
    );
}

#[test]
fn delete_volume_409_is_conflict() {
    assert_eq!(
        delete_volume_outcome(reply(409, "volume in use")),
        Ok(DeleteVolumeOutcome::Conflict)
    );
}

#[test]
fn delete_volume_422_is_conflict() {
    assert_eq!(
        delete_volume_outcome(reply(422, "attached")),
        Ok(DeleteVolumeOutcome::Conflict)
    );
}

#[test]
fn create_volume_surfaces_error_body() {
    let msg = accept_reply("create volume", reply(500, "no quota"))
        .expect_err("expected create_volume failure");
    assert_eq!(msg, "failed to create volume: 500 Internal Server Error no quota");
}

#[test]
fn create_machine_surfaces_error_body() {
    let msg = accept_reply("create machine", reply(422, "invalid config"))
        .expect_err("expected create_machine failure");
    assert!(msg.contains("failed to create machine"));
    assert!(msg.contains("422 Unprocessable Entity"));
    assert!(msg.contains("invalid config"));
}

#[test]
fn get_machine_surfaces_error_body() {
    let msg = accept_reply("get machine", reply(404, "machine not found"))
        .expect_err("expected get_machine failure");
    assert!(msg.contains("failed to get machine"));
    assert!(msg.contains("404 Not Found"));
    assert!(msg.contains("machine not found"));
}

#[test]
fn delete_machine_surfaces_status_code_and_retryability() {
    let err = delete_machine_outcome(reply(503, "fly outage"))
        .expect_err("expected delete_machine failure");
    assert_eq!(err.status_code(), Some(503));
    assert!(err.is_retryable());
    assert!(err.to_string().contains("delete_machine failed"));
    assert_eq!(err.to_string(), "delete_machine failed: status=503 detail=fly outage");
}

#[test]
fn failures_are_retryable_or_not() {
    for status in [408, 409, 422, 425, 429, 500, 599] {
        assert!(FlyApiError::provider("op", status, String::new()).is_retryable());
    }
    for status in [400, 401, 404, 410, 428] {
        assert!(!FlyApiError::provider("op", status, String::new()).is_retryable());
    }
    let lost = FlyApiError::transport("stop_machine", "timed out".to_string());
    assert!(lost.is_retryable());
    assert_eq!(lost.status_code(), None);
    assert_eq!(lost.to_string(), "stop_machine failed: transport detail=timed out");
    assert!(stop_machine_outcome(reply(500, "")).is_err());
    assert!(delete_volume_outcome(reply(500, "")).is_err());
}

#[test]
fn slashes_at_the_end_of_the_address_do_not_matter() {
    let mut client = test_client();
    client.api_base_url = "https://api.example//".to_string();
    assert_eq!(client.base_url(), "https://api.example/v1/apps/pika-test");
    client.api_base_url = "https://api.example".to_string();
    assert_eq!(client.base_url(), "https://api.example/v1/apps/pika-test");
}

#[test]
fn client_is_made_of_settings() {
    let mut settings = FlySettings {
        api_token: Some(" token ".to_string()),
        app_name: None,
        api_base_url: None,
        region: Some("".to_string()),
        image: None,
    };
    let client = FlyClient::from_settings(&settings).expect("client");
    assert_eq!(client.api_token, "token");
    assert_eq!(client.app_name(), "pika-bot");
    assert_eq!(client.api_base_url, "https://api.machines.dev");
    assert_eq!(client.region, "iad");
    assert_eq!(client.image, "registry.fly.io/pika-bot:latest");

    let err = FlyClient::with_app_name(&settings, "  ").expect_err("no app name");
    assert_eq!(err.brief, "fly app name must be non-empty");
    settings.api_token = None;
    let err = FlyClient::from_settings(&settings).expect_err("no token");
    assert_eq!(err.brief, "FLY_API_TOKEN must be set (for example in .env)");
    assert_eq!(
        err.full,
        "FLY_API_TOKEN must be set (for example in .env): FLY_API_TOKEN must be set: environment variable not found"
    );
    settings.api_token = Some(" ".to_string());
    let err = FlyClient::from_settings(&settings).expect_err("blank token");
    assert_eq!(
        err.full,
        "FLY_API_TOKEN must be set (for example in .env): FLY_API_TOKEN must be non-empty"
    );
    assert_eq!(required_non_empty_env("K", &Some(" v ".to_string())).expect("value"), "v");
    assert_eq!(optional_non_empty_env(&Some(" v ".to_string()), "d"), "v");
    assert_eq!(optional_non_empty_env(&None, "d"), "d");
}
