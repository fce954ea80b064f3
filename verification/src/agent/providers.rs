//! What is asked of the providers, and what they did: runtimes at Fly and in
//! virtual machines.
use vstd::prelude::*;
use crate::agent::fly::{
    failure_text, worth_retrying, DeleteMachineOutcome, DeleteVolumeOutcome, FlyApiError,
    FlyApiErrorModel, StopMachineOutcome, api_outcome,
};
use crate::agent::ids::random_number;
use crate::agent::keys::{KeyPair, KeyPairModel};
use crate::agent::metadata::{RuntimeProfile, RuntimeProfileModel};
use crate::agent::policy::{artifact_kind, parse_artifact_kind};
use crate::agent::types::{
    BuildKind, ProtocolKind, ProviderHandle, ProviderHandleModel, ProviderKind, ProvisionCommand,
    ProvisionCommandModel, ProvisionedRuntime, ProvisionedRuntimeModel,
};
use crate::collections::{OrdMap, Replicate};
use crate::json::{
    json_array, json_bool, json_object, json_text, json_uint, Json, JsonModel,
};
use crate::text::{hex, hex_text, trim, trimmed};

verus! {

/// What a machine at Fly is to be.
#[derive(Debug, PartialEq, Eq)]
pub struct FlyPlan {
    pub volume_name: String,
    pub machine_name: String,
    pub env: OrdMap<String, String>,
    pub image_override: Option<String>,
}

/// What a [`FlyPlan`] holds.
#[verifier::ext_equal]
pub struct FlyPlanModel {
    pub volume_name: Seq<char>,
    pub machine_name: Seq<char>,
    pub env: Map<Seq<char>, Seq<char>>,
    pub image_override: Option<Seq<char>>,
}

impl DeepView for FlyPlan {
    type V = FlyPlanModel;

    open spec fn deep_view(&self) -> FlyPlanModel {
        FlyPlanModel {
            volume_name: self.volume_name.deep_view(),
            machine_name: self.machine_name.deep_view(),
            env: self.env.deep_view(),
            image_override: self.image_override.deep_view(),
        }
    }
}

impl View for FlyPlan {
    type V = FlyPlanModel;

    open spec fn view(&self) -> FlyPlanModel {
        self.deep_view()
    }
}

impl Replicate for FlyPlan {
    fn replicate(&self) -> (copy: Self) {
        FlyPlan {
            volume_name: self.volume_name.replicate(),
            machine_name: self.machine_name.replicate(),
            env: self.env.replicate(),
            image_override: self.image_override.replicate(),
        }
    }
}

impl Clone for FlyPlan {
    fn clone(&self) -> (copy: Self)
        ensures
            copy@ == self@,
    {
        self.replicate()
    }
}

/// The settings that a machine starts with.
pub open spec fn machine_env(
    bot_secret_hex: Seq<char>,
    anthropic_key: Seq<char>,
    openai_key: Option<Seq<char>>,
    pi_model: Option<Seq<char>>,
) -> Map<Seq<char>, Seq<char>> {
    let always = Map::empty().insert("STATE_DIR"@, "/app/state"@).insert(
        "NOSTR_SECRET_KEY"@,
        bot_secret_hex,
    ).insert("ANTHROPIC_API_KEY"@, anthropic_key);
    let with_key = match openai_key {
        Some(key) => always.insert("OPENAI_API_KEY"@, key),
        None => always,
    };
    match pi_model {
        Some(model) if trimmed(model).len() > 0 => with_key.insert("PI_MODEL"@, model),
        _ => with_key,
    }
}

/// What a machine is to be, with a number that tells it from others.
pub open spec fn fly_plan(
    provision: ProvisionCommandModel,
    suffix: u32,
    bot_secret_hex: Seq<char>,
    anthropic_key: Seq<char>,
    openai_key: Option<Seq<char>>,
    pi_model: Option<Seq<char>>,
) -> FlyPlanModel {
    let digits = hex_text(suffix as nat, 8);
    FlyPlanModel {
        volume_name: "agent_"@ + digits,
        machine_name: match provision.name {
            Some(name) => name,
            None => "agent-"@ + digits,
        },
        env: machine_env(bot_secret_hex, anthropic_key, openai_key, pi_model),
        image_override: match provision.artifact_ref {
            Some(artifact_ref) if artifact_kind(artifact_ref) == Some(BuildKind::Oci) => Some(
                artifact_ref,
            ),
            _ => None,
        },
    }
}

/// What a machine is to be.
pub fn plan_fly_machine(
    provision: &ProvisionCommand,
    suffix: u32,
    bot_secret_hex: String,
    anthropic_key: String,
    openai_key: Option<String>,
    pi_model: Option<String>,
) -> (plan: FlyPlan)
    ensures
        plan@ == fly_plan(
            provision@,
            suffix,
            bot_secret_hex@,
            anthropic_key@,
            openai_key.deep_view(),
            pi_model.deep_view(),
        ),
{
    let digits = hex(suffix as u64, 8);
    let mut env: OrdMap<String, String> = OrdMap::new();
    env.insert("STATE_DIR".to_owned(), "/app/state".to_owned());
    env.insert("NOSTR_SECRET_KEY".to_owned(), bot_secret_hex);
    env.insert("ANTHROPIC_API_KEY".to_owned(), anthropic_key);
    if let Some(key) = openai_key {
        env.insert("OPENAI_API_KEY".to_owned(), key);
    }
    if let Some(model) = pi_model {
        if !trim(model.as_str()).as_str().is_empty() {
            env.insert("PI_MODEL".to_owned(), model);
        }
    }
    let mut image_override: Option<String> = None;
    if let Some(artifact_ref) = &provision.artifact_ref {
        if parse_artifact_kind(artifact_ref.as_str()) == Some(BuildKind::Oci) {
            image_override = Some(artifact_ref.clone());
        }
    }
    let machine_name = match &provision.name {
        Some(name) => name.clone(),
        None => "agent-".to_owned().concat(digits.as_str()),
    };
    FlyPlan {
        volume_name: "agent_".to_owned().concat(digits.as_str()),
        machine_name,
        env,
        image_override,
    }
}

/// What a new machine is to be, with a number that is left to chance to tell it from
/// others.
pub fn plan_new_fly_machine(
    provision: &ProvisionCommand,
    bot_secret_hex: String,
    anthropic_key: String,
    openai_key: Option<String>,
    pi_model: Option<String>,
) -> (plan: FlyPlan)
    ensures
        exists|suffix: u32|
            plan@ == #[trigger] fly_plan(
                provision@,
                suffix,
                bot_secret_hex@,
                anthropic_key@,
                openai_key.deep_view(),
                pi_model.deep_view(),
            ),
{
    let suffix: u32 = random_number();
    plan_fly_machine(provision, suffix, bot_secret_hex, anthropic_key, openai_key, pi_model)
}

/// A runtime as its provider made it.
pub open spec fn made_runtime(
    provider_handle: ProviderHandleModel,
    bot_pubkey: Seq<char>,
    ids: JsonModel,
    profile: RuntimeProfileModel,
) -> ProvisionedRuntimeModel {
    ProvisionedRuntimeModel {
        provider_handle,
        bot_pubkey: Some(bot_pubkey),
        metadata: ids.with("runtime_class"@, JsonModel::optional_text(profile.runtime_class)).with(
            "region"@,
            JsonModel::optional_text(profile.region),
        ),
        runtime_class: profile.runtime_class,
        region: profile.region,
        capacity: profile.capacity,
        policy_constraints: profile.policy_constraints,
        protocol_compatibility: seq![ProtocolKind::Acp],
    }
}

/// A runtime as its provider made it.
fn make_runtime(
    provider_handle: ProviderHandle,
    bot_pubkey: String,
    ids: Json,
    profile: &RuntimeProfile,
) -> (made: ProvisionedRuntime)
    requires
        ids@ is Object,
    ensures
        made@ == made_runtime(provider_handle@, bot_pubkey@, ids@, profile@),
{
    let mut protocols: Vec<ProtocolKind> = Vec::new();
    protocols.push(ProtocolKind::Acp);
    proof {
        assert(protocols.deep_view() =~= seq![ProtocolKind::Acp]);
    }
    ProvisionedRuntime {
        provider_handle,
        bot_pubkey: Some(bot_pubkey),
        metadata: ids.with("runtime_class", Json::optional_text(&profile.runtime_class)).with(
            "region",
            Json::optional_text(&profile.region),
        ),
        runtime_class: profile.runtime_class.replicate(),
        region: profile.region.replicate(),
        capacity: profile.capacity.replicate(),
        policy_constraints: profile.policy_constraints.replicate(),
        protocol_compatibility: protocols,
    }
}

/// A machine at Fly that was made.
pub fn fly_runtime(
    machine_id: String,
    volume_id: String,
    app_name: String,
    bot_pubkey: String,
    profile: &RuntimeProfile,
) -> (made: ProvisionedRuntime)
    ensures
        made@ == made_runtime(
            ProviderHandleModel::Fly {
                machine_id: machine_id@,
                volume_id: volume_id@,
                app_name: app_name@,
            },
            bot_pubkey@,
            JsonModel::empty().with("machine_id"@, JsonModel::Text(machine_id@)).with(
                "volume_id"@,
                JsonModel::Text(volume_id@),
            ).with("app_name"@, JsonModel::Text(app_name@)),
            profile@,
        ),
{
    let ids = json_object().with("machine_id", json_text(machine_id.as_str())).with(
        "volume_id",
        json_text(volume_id.as_str()),
    ).with("app_name", json_text(app_name.as_str()));
    make_runtime(
        ProviderHandle::Fly { machine_id, volume_id, app_name },
        bot_pubkey,
        ids,
        profile,
    )
}

/// A virtual machine that was made.
pub fn microvm_runtime(
    vm_id: String,
    vm_ip: String,
    spawner_url: String,
    keep: bool,
    bot_pubkey: String,
    profile: &RuntimeProfile,
) -> (made: ProvisionedRuntime)
    ensures
        made@ == made_runtime(
            ProviderHandleModel::Microvm { vm_id: vm_id@, spawner_url: spawner_url@, keep },
            bot_pubkey@,
            JsonModel::empty().with("vm_id"@, JsonModel::Text(vm_id@)).with(
                "vm_ip"@,
                JsonModel::Text(vm_ip@),
            ).with("spawner_url"@, JsonModel::Text(spawner_url@)).with(
                "keep"@,
                JsonModel::Bool(keep),
            ),
            profile@,
        ),
{
    let ids = json_object().with("vm_id", json_text(vm_id.as_str())).with(
        "vm_ip",
        json_text(vm_ip.as_str()),
    ).with("spawner_url", json_text(spawner_url.as_str())).with("keep", json_bool(keep));
    make_runtime(ProviderHandle::Microvm { vm_id, spawner_url, keep }, bot_pubkey, ids, profile)
}

/// What a provider does with a welcome: nothing, and why.
pub open spec fn welcome_payload(provider: ProviderKind) -> JsonModel {
    JsonModel::empty().with("processed"@, JsonModel::Bool(false)).with(
        "reason"@,
        JsonModel::Text(
            match provider {
                ProviderKind::Fly => "fly runtime does not require explicit welcome hook"@,
                ProviderKind::Microvm => "microvm runtime receives welcome through relay flow"@,
            },
        ),
    )
}

/// What a provider does with a welcome.
pub fn process_welcome(provider: ProviderKind) -> (payload: Json)
    ensures
        payload@ == welcome_payload(provider),
{
    let reason = match provider {
        ProviderKind::Fly => "fly runtime does not require explicit welcome hook",
        ProviderKind::Microvm => "microvm runtime receives welcome through relay flow",
    };
    json_object().with("processed", json_bool(false)).with("reason", json_text(reason))
}

/// An error of one step of a teardown, as JSON.
pub open spec fn step_error(step: Seq<char>, error: FlyApiErrorModel) -> JsonModel {
    JsonModel::empty().with("step"@, JsonModel::Text(step)).with(
        "detail"@,
        JsonModel::Text(failure_text(error)),
    ).with(
        "status_code"@,
        match error.status_code {
            Some(status) => JsonModel::UInt(status as u64),
            None => JsonModel::Null,
        },
    ).with("retryable"@, JsonModel::Bool(worth_retrying(error.status_code)))
}

/// The error of a step, where it had one.
pub open spec fn error_of<T>(step: Seq<char>, result: Result<T, FlyApiErrorModel>) -> Seq<JsonModel> {
    match result {
        Ok(_) => Seq::empty(),
        Err(error) => seq![step_error(step, error)],
    }
}

/// What became of a machine.
pub open spec fn machine_status(machine: Result<DeleteMachineOutcome, FlyApiErrorModel>) -> Seq<char> {
    match machine {
        Ok(DeleteMachineOutcome::Deleted) => "deleted"@,
        Ok(DeleteMachineOutcome::AlreadyGone) => "already_gone"@,
        Err(_) => "failed"@,
    }
}

/// What became of a volume.
pub open spec fn volume_status(volume: Result<DeleteVolumeOutcome, FlyApiErrorModel>) -> Seq<char> {
    match volume {
        Ok(DeleteVolumeOutcome::Deleted) => "deleted"@,
        Ok(DeleteVolumeOutcome::AlreadyGone) => "already_gone"@,
        Ok(DeleteVolumeOutcome::Conflict) => "conflict"@,
        Err(_) => "failed"@,
    }
}

/// How a teardown at Fly ended: nothing was there any more, it failed, a volume
/// could not yet be deleted, or all is gone.
pub open spec fn fly_teardown_state(
    machine: Result<DeleteMachineOutcome, FlyApiErrorModel>,
    volume: Result<DeleteVolumeOutcome, FlyApiErrorModel>,
) -> Seq<char> {
    if machine == Ok::<DeleteMachineOutcome, FlyApiErrorModel>(DeleteMachineOutcome::AlreadyGone)
        && volume == Ok::<DeleteVolumeOutcome, FlyApiErrorModel>(DeleteVolumeOutcome::AlreadyGone) {
        "already_gone"@
    } else if machine is Err || volume is Err {
        "failed"@
    } else if volume == Ok::<DeleteVolumeOutcome, FlyApiErrorModel>(DeleteVolumeOutcome::Conflict) {
        "partial"@
    } else {
        "deleted"@
    }
}

/// Whether a teardown at Fly is worth trying again: the volume was in use, or a
/// step failed in a way that may pass.
pub open spec fn fly_teardown_retryable(
    machine: Result<DeleteMachineOutcome, FlyApiErrorModel>,
    volume: Result<DeleteVolumeOutcome, FlyApiErrorModel>,
) -> bool {
    if machine is Err || volume is Err {
        ||| machine matches Err(error) && worth_retrying(error.status_code)
        ||| volume matches Err(error) && worth_retrying(error.status_code)
        ||| volume == Ok::<DeleteVolumeOutcome, FlyApiErrorModel>(DeleteVolumeOutcome::Conflict)
    } else {
        volume == Ok::<DeleteVolumeOutcome, FlyApiErrorModel>(DeleteVolumeOutcome::Conflict)
    }
}

/// What a teardown at Fly came to, as JSON.
pub open spec fn fly_teardown_json(
    machine_id: Seq<char>,
    volume_id: Seq<char>,
    app_name: Seq<char>,
    stop: Result<StopMachineOutcome, FlyApiErrorModel>,
    machine: Result<DeleteMachineOutcome, FlyApiErrorModel>,
    volume: Result<DeleteVolumeOutcome, FlyApiErrorModel>,
) -> JsonModel {
    let errors = error_of("stop_machine"@, stop) + error_of("delete_machine"@, machine) + error_of(
        "delete_volume"@,
        volume,
    );
    let payload = JsonModel::empty().with(
        "teardown"@,
        JsonModel::Text(fly_teardown_state(machine, volume)),
    ).with("machine_id"@, JsonModel::Text(machine_id)).with(
        "volume_id"@,
        JsonModel::Text(volume_id),
    ).with("app_name"@, JsonModel::Text(app_name)).with(
        "machine_status"@,
        JsonModel::Text(machine_status(machine)),
    ).with("volume_status"@, JsonModel::Text(volume_status(volume))).with(
        "retryable"@,
        JsonModel::Bool(fly_teardown_retryable(machine, volume)),
    );
    if errors.len() > 0 {
        payload.with("error"@, JsonModel::Array(errors))
    } else {
        payload
    }
}

/// An error of one step of a teardown, as JSON.
fn json_of_step_error(step: &str, error: &FlyApiError) -> (json: Json)
    ensures
        json@ == step_error(step@, error@),
{
    let status = match error.status_code() {
        Some(status) => json_uint(status as u64),
        None => crate::json::json_null(),
    };
    json_object().with("step", json_text(step)).with(
        "detail",
        json_text(error.to_string().as_str()),
    ).with("status_code", status).with("retryable", json_bool(error.is_retryable()))
}

/// What a teardown at Fly came to.
pub fn fly_teardown_payload(
    machine_id: &str,
    volume_id: &str,
    app_name: &str,
    stop: &Result<StopMachineOutcome, FlyApiError>,
    machine: &Result<DeleteMachineOutcome, FlyApiError>,
    volume: &Result<DeleteVolumeOutcome, FlyApiError>,
) -> (payload: Json)
    ensures
        payload@ == fly_teardown_json(
            machine_id@,
            volume_id@,
            app_name@,
            api_outcome(*stop),
            api_outcome(*machine),
            api_outcome(*volume),
        ),
{
    let ghost stop_model = api_outcome(*stop);
    let ghost machine_model = api_outcome(*machine);
    let ghost volume_model = api_outcome(*volume);
    let mut errors: Vec<Json> = Vec::new();
    if let Err(error) = stop {
        errors.push(json_of_step_error("stop_machine", error));
    }
    proof {
        assert(errors.deep_view() =~= error_of("stop_machine"@, stop_model));
    }
    let mut machine_failed = false;
    let mut machine_gone = false;
    let mut machine_retryable = false;
    let machine_status = match machine {
        Ok(DeleteMachineOutcome::Deleted) => "deleted",
        Ok(DeleteMachineOutcome::AlreadyGone) => {
            machine_gone = true;
            "already_gone"
        },
        Err(error) => {
            errors.push(json_of_step_error("delete_machine", error));
            machine_failed = true;
            machine_retryable = error.is_retryable();
            "failed"
        },
    };
    proof {
        assert(errors.deep_view() =~= error_of("stop_machine"@, stop_model) + error_of(
            "delete_machine"@,
            machine_model,
        ));
    }
    let mut volume_failed = false;
    let mut volume_gone = false;
    let mut volume_conflict = false;
    let mut volume_retryable = false;
    let volume_status = match volume {
        Ok(DeleteVolumeOutcome::Deleted) => "deleted",
        Ok(DeleteVolumeOutcome::AlreadyGone) => {
            volume_gone = true;
            "already_gone"
        },
        Ok(DeleteVolumeOutcome::Conflict) => {
            volume_conflict = true;
            volume_retryable = true;
            "conflict"
        },
        Err(error) => {
            errors.push(json_of_step_error("delete_volume", error));
            volume_failed = true;
            volume_retryable = error.is_retryable();
            "failed"
        },
    };
    proof {
        assert(errors.deep_view() =~= error_of("stop_machine"@, stop_model) + error_of(
            "delete_machine"@,
            machine_model,
        ) + error_of("delete_volume"@, volume_model));
    }
    let mut retryable = false;
    let teardown = if machine_gone && volume_gone {
        "already_gone"
    } else if machine_failed || volume_failed {
        retryable = machine_retryable || volume_retryable;
        "failed"
    } else if volume_conflict {
        retryable = true;
        "partial"
    } else {
        "deleted"
    };
    let payload = json_object().with("teardown", json_text(teardown)).with(
        "machine_id",
        json_text(machine_id),
    ).with("volume_id", json_text(volume_id)).with("app_name", json_text(app_name)).with(
        "machine_status",
        json_text(machine_status),
    ).with("volume_status", json_text(volume_status)).with("retryable", json_bool(retryable));
    if errors.len() > 0 {
        payload.with("error", json_array(errors))
    } else {
        payload
    }
}

/// What is to be torn down at Fly, or a complaint.
pub fn fly_handle(handle: &ProviderHandle) -> (ids: Result<(String, String, String), String>)
    ensures
        match (ids, handle@) {
            (Ok(ids), ProviderHandleModel::Fly { machine_id, volume_id, app_name }) => ids.0@
                == machine_id && ids.1@ == volume_id && ids.2@ == app_name,
            (Err(error), ProviderHandleModel::Microvm { .. }) => error@
                == "fly adapter received non-fly runtime handle"@,
            _ => false,
        },
{
    match handle {
        ProviderHandle::Fly { machine_id, volume_id, app_name } => Ok(
            (machine_id.clone(), volume_id.clone(), app_name.clone()),
        ),
        ProviderHandle::Microvm { .. } => Err(
            "fly adapter received non-fly runtime handle".to_owned(),
        ),
    }
}

/// What is to be done to tear a virtual machine down: nothing, where it is to be
/// kept.
#[derive(Debug, PartialEq, Eq)]
pub enum MicrovmTeardown {
    Skip(Json),
    Delete { vm_id: String, spawner_url: String },
}

/// What a teardown of a virtual machine that is kept comes to.
pub open spec fn kept_vm_json(vm_id: Seq<char>, spawner_url: Seq<char>) -> JsonModel {
    JsonModel::empty().with("teardown"@, JsonModel::Text("skipped"@)).with(
        "vm_id"@,
        JsonModel::Text(vm_id),
    ).with("spawner_url"@, JsonModel::Text(spawner_url)).with(
        "reason"@,
        JsonModel::Text("--keep policy"@),
    )
}

/// What is to be done to tear a virtual machine down, or a complaint.
pub fn plan_microvm_teardown(handle: &ProviderHandle) -> (plan: Result<MicrovmTeardown, String>)
    ensures
        match (plan, handle@) {
            (
                Ok(MicrovmTeardown::Skip(payload)),
                ProviderHandleModel::Microvm { vm_id, spawner_url, keep },
            ) => keep && payload@ == kept_vm_json(vm_id, spawner_url),
            (
                Ok(MicrovmTeardown::Delete { vm_id: id, spawner_url: url }),
                ProviderHandleModel::Microvm { vm_id, spawner_url, keep },
            ) => !keep && id@ == vm_id && url@ == spawner_url,
            (Err(error), ProviderHandleModel::Fly { .. }) => error@
                == "microvm adapter received non-microvm runtime handle"@,
            _ => false,
        },
{
    match handle {
        ProviderHandle::Microvm { vm_id, spawner_url, keep } => {
            if *keep {
                Ok(
                    MicrovmTeardown::Skip(
                        json_object().with("teardown", json_text("skipped")).with(
                            "vm_id",
                            json_text(vm_id.as_str()),
                        ).with("spawner_url", json_text(spawner_url.as_str())).with(
                            "reason",
                            json_text("--keep policy"),
                        ),
                    ),
                )
            } else {
                Ok(
                    MicrovmTeardown::Delete {
                        vm_id: vm_id.clone(),
                        spawner_url: spawner_url.clone(),
                    },
                )
            }
        },
        ProviderHandle::Fly { .. } => Err(
            "microvm adapter received non-microvm runtime handle".to_owned(),
        ),
    }
}

/// What the teardown of a virtual machine that was deleted came to.
pub fn microvm_deleted(vm_id: &str, spawner_url: &str) -> (payload: Json)
    ensures
        payload@ == JsonModel::empty().with("teardown"@, JsonModel::Text("deleted"@)).with(
            "vm_id"@,
            JsonModel::Text(vm_id@),
        ).with("spawner_url"@, JsonModel::Text(spawner_url@)),
{
    json_object().with("teardown", json_text("deleted")).with("vm_id", json_text(vm_id)).with(
        "spawner_url",
        json_text(spawner_url),
    )
}

/// The relays of a virtual machine: those that are asked for, or those that are
/// always there.
pub fn chosen_relays(asked: &Vec<String>, default: Vec<String>) -> (relays: Vec<String>)
    ensures
        relays.deep_view() == if asked.len() == 0 {
            default.deep_view()
        } else {
            asked.deep_view()
        },
{
    if asked.len() == 0 {
        default
    } else {
        asked.replicate()
    }
}

/// A teardown at Fly in which nothing failed and nothing was in use is not tried
/// again; one in which the volume was in use is.
pub proof fn clean_teardown_is_not_retried(
    machine_id: Seq<char>,
    volume_id: Seq<char>,
    app_name: Seq<char>,
    stop: Result<StopMachineOutcome, FlyApiErrorModel>,
    machine: Result<DeleteMachineOutcome, FlyApiErrorModel>,
    volume: Result<DeleteVolumeOutcome, FlyApiErrorModel>,
)
    requires
        machine is Ok,
        volume is Ok,
    ensures
        crate::agent::metadata::teardown_needs_retry(
            fly_teardown_json(machine_id, volume_id, app_name, stop, machine, volume),
        ) == (volume->Ok_0 == DeleteVolumeOutcome::Conflict),
{
    reveal_strlit("teardown");
    reveal_strlit("machine_id");
    reveal_strlit("volume_id");
    reveal_strlit("app_name");
    reveal_strlit("machine_status");
    reveal_strlit("volume_status");
    reveal_strlit("retryable");
    reveal_strlit("error");
    reveal_strlit("partial");
    reveal_strlit("failed");
    reveal_strlit("deleted");
    reveal_strlit("already_gone");
    assert("teardown"@[0] != "machine_id"@[0] && "teardown"@[0] != "volume_id"@[0]
        && "teardown"@[0] != "app_name"@[0] && "teardown"@[0] != "retryable"@[0]
        && "teardown"@[0] != "error"@[0]);
    assert("teardown"@[0] != "machine_status"@[0] && "teardown"@[0] != "volume_status"@[0]);
    assert("retryable"@.len() != "error"@.len());
    assert("partial"@[0] != "deleted"@[0] && "partial"@[0] != "already_gone"@[0]);
    assert("failed"@[0] != "deleted"@[0] && "failed"@[0] != "already_gone"@[0]);
    assert("failed"@[0] != "partial"@[0]);
}

/// What a spawner is asked for.
#[derive(Debug, PartialEq, Eq)]
pub struct VmPlan {
    /// How the machine is to be, where that is asked for.
    pub params: Option<Json>,
    pub keep: bool,
    pub owner_pubkey_hex: String,
    pub relay_urls: Vec<String>,
    /// The keys of the bot in it.
    pub keys: KeyPair,
}

/// What a [`VmPlan`] holds.
#[verifier::ext_equal]
pub struct VmPlanModel {
    pub params: Option<JsonModel>,
    pub keep: bool,
    pub owner_pubkey_hex: Seq<char>,
    pub relay_urls: Seq<Seq<char>>,
    pub keys: KeyPairModel,
}

impl DeepView for VmPlan {
    type V = VmPlanModel;

    open spec fn deep_view(&self) -> VmPlanModel {
        VmPlanModel {
            params: self.params.deep_view(),
            keep: self.keep.deep_view(),
            owner_pubkey_hex: self.owner_pubkey_hex.deep_view(),
            relay_urls: self.relay_urls.deep_view(),
            keys: self.keys.deep_view(),
        }
    }
}

impl View for VmPlan {
    type V = VmPlanModel;

    open spec fn view(&self) -> VmPlanModel {
        self.deep_view()
    }
}

impl Replicate for VmPlan {
    fn replicate(&self) -> (copy: Self) {
        VmPlan {
            params: self.params.replicate(),
            keep: self.keep.replicate(),
            owner_pubkey_hex: self.owner_pubkey_hex.replicate(),
            relay_urls: self.relay_urls.replicate(),
            keys: self.keys.replicate(),
        }
    }
}

impl Clone for VmPlan {
    fn clone(&self) -> (copy: Self)
        ensures
            copy@ == self@,
    {
        self.replicate()
    }
}

/// What a spawner is asked for.
pub open spec fn vm_plan(
    provision: ProvisionCommandModel,
    owner: Seq<char>,
    default_relays: Seq<Seq<char>>,
    keys: KeyPairModel,
) -> VmPlanModel {
    VmPlanModel {
        params: provision.microvm,
        keep: provision.keep,
        owner_pubkey_hex: owner,
        relay_urls: if provision.relay_urls.len() == 0 {
            default_relays
        } else {
            provision.relay_urls
        },
        keys,
    }
}

/// What a spawner is asked for.
pub fn plan_vm(
    provision: &ProvisionCommand,
    owner_pubkey_hex: &str,
    default_relays: Vec<String>,
    keys: KeyPair,
) -> (plan: VmPlan)
    ensures
        plan@ == vm_plan(
            provision@,
            owner_pubkey_hex@,
            default_relays.deep_view(),
            keys@,
        ),
{
    VmPlan {
        params: provision.microvm.replicate(),
        keep: provision.keep,
        owner_pubkey_hex: owner_pubkey_hex.to_owned(),
        relay_urls: chosen_relays(&provision.relay_urls, default_relays),
        keys,
    }
}

} // verus!
