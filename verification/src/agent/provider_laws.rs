//! What providers are asked for, and what is made of their replies.
use vstd::prelude::*;
use crate::agent::fly::{
    accepted_body, client_for, delete_machine_meaning, delete_volume_meaning, failure_text,
    machine_json, request_of, required_setting, status_text, stop_meaning, without_slashes,
    worth_retrying, DeleteMachineOutcome, DeleteVolumeOutcome, FlyApiErrorModel, FlyClientModel,
    FlySettingsModel, HttpMethod, HttpReplyModel, StopMachineOutcome,
};
use crate::agent::ids::id_text;
use crate::agent::keys::KeyPairModel;
use crate::agent::metadata::{provider_setting, setting_for, setting_json, RuntimeProfileModel};
use crate::agent::policy_laws::said;
use crate::agent::providers::{
    fly_plan, fly_teardown_json, kept_vm_json, made_runtime, vm_plan, welcome_payload,
};
use crate::agent::types::{
    BuildKind, ProtocolKind, ProviderHandleModel, ProviderKind, ProvisionCommandModel,
};
use crate::json::JsonModel;
use crate::text::{decimal_text, hex_text, trimmed, upper_text};

verus! {

/// What is worth trying again: what never got a reply, what the server says it was too
/// busy or too early for, conflicts, and failures of the server itself.
pub proof fn some_failures_are_worth_retrying(status: u16)
    ensures
        worth_retrying(None),
        status >= 500 ==> worth_retrying(Some(status)),
        worth_retrying(Some(408)) && worth_retrying(Some(409)) && worth_retrying(Some(422))
            && worth_retrying(Some(425)) && worth_retrying(Some(429)),
        status < 500 && status != 408 && status != 409 && status != 422 && status != 425 && status
            != 429 ==> !worth_retrying(Some(status)),
{
}

/// A reply in the two hundreds means that it was done, one of "not found" that there was
/// nothing left to do, and, for a volume, a conflict that it is still in use; every other
/// is a failure, told with its status and what it says.
pub proof fn replies_mean_what_their_status_says(reply: HttpReplyModel)
    ensures
        ({
            let good = 200 <= reply.status <= 299;
            let stop = stop_meaning(reply);
            let machine = delete_machine_meaning(reply);
            let volume = delete_volume_meaning(reply);
            let in_use = reply.status == 409 || reply.status == 422;
            &&& good ==> stop == Ok::<_, FlyApiErrorModel>(StopMachineOutcome::Stopped) && machine
                == Ok::<_, FlyApiErrorModel>(DeleteMachineOutcome::Deleted) && volume == Ok::<
                _,
                FlyApiErrorModel,
            >(DeleteVolumeOutcome::Deleted)
            &&& reply.status == 404 ==> stop == Ok::<_, FlyApiErrorModel>(
                StopMachineOutcome::AlreadyGone,
            ) && machine == Ok::<_, FlyApiErrorModel>(DeleteMachineOutcome::AlreadyGone) && volume
                == Ok::<_, FlyApiErrorModel>(DeleteVolumeOutcome::AlreadyGone)
            &&& in_use ==> volume == Ok::<_, FlyApiErrorModel>(DeleteVolumeOutcome::Conflict)
            &&& !good && reply.status != 404 ==> stop is Err && machine is Err
                && stop->Err_0.status_code == Some(reply.status) && stop->Err_0.detail
                == reply.body && stop->Err_0.operation == "stop_machine"@
                && machine->Err_0.status_code == Some(reply.status) && machine->Err_0.detail
                == reply.body && machine->Err_0.operation == "delete_machine"@
            &&& !good && reply.status != 404 && !in_use ==> volume is Err
                && volume->Err_0.status_code == Some(reply.status) && volume->Err_0.detail
                == reply.body && volume->Err_0.operation == "delete_volume"@
        }),
{
}

/// What a reply says counts where it is in the two hundreds; otherwise it is told what
/// failed, with the status and what the reply says.
pub proof fn body_counts_where_all_went_well(what: Seq<char>, reply: HttpReplyModel)
    ensures
        200 <= reply.status <= 299 ==> accepted_body(what, reply) == Ok::<Seq<char>, Seq<char>>(
            reply.body,
        ),
        !(200 <= reply.status <= 299) ==> accepted_body(what, reply) == Err::<
            Seq<char>,
            Seq<char>,
        >("failed to "@ + what + ": "@ + status_text(reply.status) + " "@ + reply.body),
{
}

/// A client has a token and the name of an app, both without white space around them;
/// where the rest is left open or blank it has the defaults. Without a token or a name
/// there is none.
pub proof fn client_has_its_settings(settings: FlySettingsModel, app_name: Seq<char>)
    ensures
        ({
            let client = client_for(settings, app_name);
            let or_else = |raw: Option<Seq<char>>, default: Seq<char>|
                if said(raw) {
                    trimmed(raw->0)
                } else {
                    default
                };
            &&& client is Ok <==> said(settings.api_token) && trimmed(app_name).len() > 0
            &&& !said(settings.api_token) ==> client->Err_0.brief
                == "FLY_API_TOKEN must be set (for example in .env)"@
            &&& said(settings.api_token) && client is Err ==> client->Err_0.brief
                == "fly app name must be non-empty"@
            &&& client is Ok ==> client->Ok_0.api_token == trimmed(settings.api_token->0)
                && client->Ok_0.app_name == trimmed(app_name) && client->Ok_0.api_base_url
                == or_else(settings.api_base_url, "https://api.machines.dev"@)
                && client->Ok_0.region == or_else(settings.region, "iad"@) && client->Ok_0.image
                == or_else(settings.image, "registry.fly.io/pika-bot:latest"@)
        }),
{
}

/// A setting that has to be there is told where it is not, and where it is blank.
pub proof fn missing_setting_is_told(key: Seq<char>, text: Seq<char>)
    ensures
        required_setting(key, None) is Err,
        required_setting(key, None)->Err_0.brief == key + " must be set"@,
        trimmed(text).len() == 0 ==> required_setting(key, Some(text)) is Err && required_setting(
            key,
            Some(text),
        )->Err_0.brief == key + " must be non-empty"@,
        trimmed(text).len() > 0 ==> required_setting(key, Some(text)) is Ok && required_setting(
            key,
            Some(text),
        )->Ok_0 == trimmed(text),
{
}

/// A request goes to the app of the client, with its token.
pub proof fn request_goes_to_the_app(
    client: FlyClientModel,
    method: HttpMethod,
    path: Seq<char>,
    body: Option<JsonModel>,
)
    ensures
        ({
            let request = request_of(client, method, path, body);
            &&& request.method == method
            &&& request.bearer_token == client.api_token
            &&& request.body == body
            &&& request.url == without_slashes(client.api_base_url) + "/v1/apps/"@
                + client.app_name + path
            &&& client.api_base_url.len() > 0 && client.api_base_url.last() != '/' ==> request.url
                == client.api_base_url + "/v1/apps/"@ + client.app_name + path
        }),
{
}

proof fn lemma_machine_keys()
    ensures
        "name"@.len() == 4,
        "region"@.len() == 6,
        "config"@.len() == 6,
        "region"@ != "config"@,
        "image"@.len() == 5,
        "env"@.len() == 3,
        "guest"@.len() == 5,
        "image"@ != "guest"@,
        "mounts"@.len() == 6,
        "cpu_kind"@.len() == 8,
        "cpus"@.len() == 4,
        "memory_mb"@.len() == 9,
        "volume"@.len() == 6,
        "path"@.len() == 4,
{
    reveal_strlit("name");
    reveal_strlit("region");
    reveal_strlit("config");
    reveal_strlit("image");
    reveal_strlit("env");
    reveal_strlit("guest");
    reveal_strlit("mounts");
    reveal_strlit("cpu_kind");
    reveal_strlit("cpus");
    reveal_strlit("memory_mb");
    reveal_strlit("volume");
    reveal_strlit("path");
    assert("region"@[0] == 'r' && "config"@[0] == 'c');
    assert("image"@[0] == 'i' && "guest"@[0] == 'g');
}

/// A machine is asked for by its name, in the region of the client, with the image that
/// was asked for or else the client's, the environment that was planned, one shared
/// processor, a quarter of a gigabyte, and its volume for its state.
pub proof fn machine_is_asked_for_in_full(
    client: FlyClientModel,
    name: Seq<char>,
    volume_id: Seq<char>,
    env: Map<Seq<char>, Seq<char>>,
    image: Option<Seq<char>>,
    variable: Seq<char>,
)
    ensures
        ({
            let asked = machine_json(client, name, volume_id, env, image);
            let config = asked.get("config"@)->0;
            let guest = config.get("guest"@)->0;
            let mounts = config.get("mounts"@)->0->Array_0;
            &&& asked.get_text("name"@) == Some(name)
            &&& asked.get_text("region"@) == Some(client.region)
            &&& config.get_text("image"@) == Some(
                if said(image) {
                    trimmed(image->0)
                } else {
                    client.image
                },
            )
            &&& guest.get_text("cpu_kind"@) == Some("shared"@)
            &&& guest.get_uint("cpus"@) == Some(1u64)
            &&& guest.get_uint("memory_mb"@) == Some(256u64)
            &&& mounts.len() == 1
            &&& mounts[0].get_text("volume"@) == Some(volume_id)
            &&& mounts[0].get_text("path"@) == Some("/app/state"@)
            &&& env.contains_key(variable) ==> config.get("env"@)->0.get_text(variable) == Some(
                env[variable],
            )
            &&& !env.contains_key(variable) ==> config.get("env"@)->0.get(variable) is None
        }),
{
    lemma_machine_keys();
}

/// A machine is planned under the name that was asked for, or one with its number; its
/// volume has the number; its environment holds the bot's secret key and the keys that
/// are there; and its image is the artifact that was asked for, where that is an image.
pub proof fn machine_is_planned(
    provision: ProvisionCommandModel,
    suffix: u32,
    secret: Seq<char>,
    anthropic_key: Seq<char>,
    openai_key: Option<Seq<char>>,
    pi_model: Option<Seq<char>>,
)
    ensures
        ({
            let plan = fly_plan(
                provision,
                suffix,
                secret,
                anthropic_key,
                openai_key,
                pi_model,
            );
            let digits = hex_text(suffix as nat, 8);
            let image = provision.artifact_ref is Some && crate::agent::policy::artifact_kind(
                provision.artifact_ref->0,
            ) == Some(BuildKind::Oci);
            let env = plan.env;
            &&& plan.volume_name == "agent_"@ + digits
            &&& provision.name is Some ==> plan.machine_name == provision.name->0
            &&& provision.name is None ==> plan.machine_name == "agent-"@ + digits
            &&& image ==> plan.image_override == provision.artifact_ref
            &&& !image ==> plan.image_override is None
            &&& env.contains_key("STATE_DIR"@) && env["STATE_DIR"@] == "/app/state"@
            &&& env.contains_key("NOSTR_SECRET_KEY"@) && env["NOSTR_SECRET_KEY"@] == secret
            &&& env.contains_key("ANTHROPIC_API_KEY"@) && env["ANTHROPIC_API_KEY"@]
                == anthropic_key
            &&& env.contains_key("OPENAI_API_KEY"@) <==> openai_key is Some
            &&& openai_key is Some ==> env["OPENAI_API_KEY"@] == openai_key->0
            &&& env.contains_key("PI_MODEL"@) <==> said(pi_model)
            &&& said(pi_model) ==> env["PI_MODEL"@] == pi_model->0
        }),
{
    reveal_strlit("STATE_DIR");
    reveal_strlit("NOSTR_SECRET_KEY");
    reveal_strlit("ANTHROPIC_API_KEY");
    reveal_strlit("OPENAI_API_KEY");
    reveal_strlit("PI_MODEL");
    assert("STATE_DIR"@.len() == 9);
    assert("NOSTR_SECRET_KEY"@.len() == 16);
    assert("ANTHROPIC_API_KEY"@.len() == 17);
    assert("OPENAI_API_KEY"@.len() == 14);
    assert("PI_MODEL"@.len() == 8);
}

/// A runtime that was made has the class, the region, the capacity and the constraints
/// of its provider's profile, speaks the one protocol, and tells its class and region.
pub proof fn runtime_is_made_by_its_profile(
    handle: ProviderHandleModel,
    bot_pubkey: Seq<char>,
    ids: JsonModel,
    profile: RuntimeProfileModel,
)
    requires
        ids is Object,
    ensures
        ({
            let made = made_runtime(handle, bot_pubkey, ids, profile);
            &&& made.provider_handle == handle
            &&& made.bot_pubkey == Some(bot_pubkey)
            &&& made.runtime_class == profile.runtime_class
            &&& made.region == profile.region
            &&& made.capacity == profile.capacity
            &&& made.policy_constraints == profile.policy_constraints
            &&& made.protocol_compatibility == seq![ProtocolKind::Acp]
            &&& made.metadata.get("runtime_class"@) == Some(
                JsonModel::optional_text(profile.runtime_class),
            )
            &&& made.metadata.get("region"@) == Some(JsonModel::optional_text(profile.region))
            &&& forall|key: Seq<char>|
                key != "runtime_class"@ && key != "region"@ ==> #[trigger] made.metadata.get(key)
                    == ids.get(key)
        }),
{
    reveal_strlit("runtime_class");
    reveal_strlit("region");
    assert("runtime_class"@.len() == 13 && "region"@.len() == 6);
}

/// A spawner is asked for what the command says, for its owner, with the relays that it
/// names, or the usual ones where it names none.
pub proof fn machine_is_spawned_as_asked(
    provision: ProvisionCommandModel,
    owner: Seq<char>,
    default_relays: Seq<Seq<char>>,
    keys: KeyPairModel,
)
    ensures
        ({
            let plan = vm_plan(provision, owner, default_relays, keys);
            &&& plan.params == provision.microvm
            &&& plan.keep == provision.keep
            &&& plan.owner_pubkey_hex == owner
            &&& plan.keys == keys
            &&& provision.relay_urls.len() > 0 ==> plan.relay_urls == provision.relay_urls
            &&& provision.relay_urls.len() == 0 ==> plan.relay_urls == default_relays
        }),
{
}

proof fn lemma_teardown_keys()
    ensures
        "teardown"@.len() == 8,
        "machine_id"@.len() == 10,
        "volume_id"@.len() == 9,
        "app_name"@.len() == 8,
        "teardown"@ != "app_name"@,
        "machine_status"@.len() == 14,
        "volume_status"@.len() == 13,
        "retryable"@.len() == 9,
        "volume_id"@ != "retryable"@,
        "error"@.len() == 5,
        "vm_id"@.len() == 5,
        "spawner_url"@.len() == 11,
        "reason"@.len() == 6,
{
    reveal_strlit("teardown");
    reveal_strlit("machine_id");
    reveal_strlit("volume_id");
    reveal_strlit("app_name");
    reveal_strlit("machine_status");
    reveal_strlit("volume_status");
    reveal_strlit("retryable");
    reveal_strlit("error");
    reveal_strlit("vm_id");
    reveal_strlit("spawner_url");
    reveal_strlit("reason");
    assert("teardown"@[0] == 't' && "app_name"@[0] == 'a');
    assert("volume_id"@[0] == 'v' && "retryable"@[0] == 'r');
}

/// A teardown at Fly is told by what became of the machine and of its volume: gone
/// already where both were, failed where either failed, in part where the volume is
/// still in use, and deleted otherwise. It can be retried where the volume is in use, or
/// where a failure of either is worth it. Each failure is told, in order.
pub proof fn fly_teardown_is_told(
    machine_id: Seq<char>,
    volume_id: Seq<char>,
    app_name: Seq<char>,
    stop: Result<StopMachineOutcome, FlyApiErrorModel>,
    machine: Result<DeleteMachineOutcome, FlyApiErrorModel>,
    volume: Result<DeleteVolumeOutcome, FlyApiErrorModel>,
)
    ensures
        ({
            let told = fly_teardown_json(machine_id, volume_id, app_name, stop, machine, volume);
            let gone = machine is Ok && machine->Ok_0 is AlreadyGone && volume is Ok
                && volume->Ok_0 is AlreadyGone;
            let failed = machine is Err || volume is Err;
            let in_use = volume is Ok && volume->Ok_0 is Conflict;
            let failures = (if stop is Err {
                1int
            } else {
                0
            }) + (if machine is Err {
                1int
            } else {
                0
            }) + (if volume is Err {
                1int
            } else {
                0
            });
            &&& told.get_text("machine_id"@) == Some(machine_id)
            &&& told.get_text("volume_id"@) == Some(volume_id)
            &&& told.get_text("app_name"@) == Some(app_name)
            &&& gone ==> told.get_text("teardown"@) == Some("already_gone"@)
            &&& failed ==> told.get_text("teardown"@) == Some("failed"@)
            &&& !failed && in_use ==> told.get_text("teardown"@) == Some("partial"@)
            &&& !gone && !failed && !in_use ==> told.get_text("teardown"@) == Some("deleted"@)
            &&& told.get_bool("retryable"@) == Some(
                in_use || (machine is Err && worth_retrying(machine->Err_0.status_code)) || (
                volume is Err && worth_retrying(volume->Err_0.status_code)),
            )
            &&& machine is Err ==> told.get_text("machine_status"@) == Some("failed"@)
            &&& machine is Ok && machine->Ok_0 is Deleted ==> told.get_text("machine_status"@)
                == Some("deleted"@)
            &&& machine is Ok && machine->Ok_0 is AlreadyGone ==> told.get_text(
                "machine_status"@,
            ) == Some("already_gone"@)
            &&& volume is Err ==> told.get_text("volume_status"@) == Some("failed"@)
            &&& volume is Ok && volume->Ok_0 is Deleted ==> told.get_text("volume_status"@) == Some(
                "deleted"@,
            )
            &&& volume is Ok && volume->Ok_0 is AlreadyGone ==> told.get_text("volume_status"@)
                == Some("already_gone"@)
            &&& in_use ==> told.get_text("volume_status"@) == Some("conflict"@)
            &&& failures == 0 <==> told.get("error"@) is None
            &&& failures > 0 ==> told.get("error"@)->0 is Array && told.get(
                "error"@,
            )->0->Array_0.len() == failures
            &&& stop is Err ==> told.get("error"@)->0->Array_0[0].get_text("step"@) == Some(
                "stop_machine"@,
            ) && told.get("error"@)->0->Array_0[0].get_text("detail"@) == Some(
                failure_text(stop->Err_0),
            )
            &&& volume is Err ==> told.get("error"@)->0->Array_0.last().get_text("step"@) == Some(
                "delete_volume"@,
            )
        }),
{
    lemma_teardown_keys();
    reveal_strlit("step");
    reveal_strlit("detail");
    reveal_strlit("status_code");
    assert("step"@.len() == 4 && "detail"@.len() == 6 && "status_code"@.len() == 11);
}

/// A failure is told with its operation, its status where there was one, and its detail.
pub proof fn failure_is_told(error: FlyApiErrorModel)
    ensures
        error.status_code is Some ==> failure_text(error) == error.operation + " failed: status="@
            + decimal_text(error.status_code->0 as nat) + " detail="@ + error.detail,
        error.status_code is None ==> failure_text(error) == error.operation
            + " failed: transport detail="@ + error.detail,
{
}

/// A virtual machine that is kept is told as skipped, with why.
pub proof fn kept_machine_is_told(vm_id: Seq<char>, spawner_url: Seq<char>)
    ensures
        kept_vm_json(vm_id, spawner_url).get_text("teardown"@) == Some("skipped"@),
        kept_vm_json(vm_id, spawner_url).get_text("vm_id"@) == Some(vm_id),
        kept_vm_json(vm_id, spawner_url).get_text("spawner_url"@) == Some(spawner_url),
        kept_vm_json(vm_id, spawner_url).get_text("reason"@) == Some("--keep policy"@),
{
    lemma_teardown_keys();
}

/// No provider processes a welcome, and each tells why.
pub proof fn welcome_is_not_processed(provider: ProviderKind)
    ensures
        welcome_payload(provider).get_bool("processed"@) == Some(false),
        welcome_payload(provider).get_text("reason"@) is Some,
        welcome_payload(ProviderKind::Fly).get_text("reason"@) == Some(
            "fly runtime does not require explicit welcome hook"@,
        ),
        welcome_payload(ProviderKind::Microvm).get_text("reason"@) == Some(
            "microvm runtime receives welcome through relay flow"@,
        ),
{
    reveal_strlit("processed");
    reveal_strlit("reason");
    assert("processed"@.len() == 9 && "reason"@.len() == 6);
}

/// A setting for one provider counts before the one for all, and goes by the name of
/// both with the provider in large letters; what is no JSON is kept as a text.
pub proof fn provider_settings_come_first(
    own: Option<Seq<char>>,
    for_all: Option<Seq<char>>,
    key: Seq<char>,
    text: Seq<char>,
    parsed: Result<JsonModel, Seq<char>>,
)
    ensures
        own is Some ==> setting_for(own, for_all) == own,
        own is None ==> setting_for(own, for_all) == for_all,
        provider_setting(key, ProviderKind::Fly) == key + "_"@ + upper_text("fly"@),
        provider_setting(key, ProviderKind::Microvm) == key + "_"@ + upper_text("microvm"@),
        setting_json(None, parsed) == JsonModel::Null,
        trimmed(text).len() == 0 ==> setting_json(Some(text), parsed) == JsonModel::Null,
        trimmed(text).len() > 0 && parsed is Ok ==> setting_json(Some(text), parsed)
            == parsed->Ok_0,
        trimmed(text).len() > 0 && parsed is Err ==> setting_json(Some(text), parsed).get_text(
            "raw"@,
        ) == Some(text),
{
}

/// An id is what it is of, a hyphen, and sixteen hexadecimal digits; two of the same kind
/// are the same only where their numbers are.
pub proof fn ids_tell_numbers_apart(of: Seq<char>, high: u32, low: u32, high2: u32, low2: u32)
    ensures
        id_text(of, high, low).len() == of.len() + 17,
        id_text(of, high, low).take(of.len() as int) == of,
        id_text(of, high, low)[of.len() as int] == '-',
        id_text(of, high, low) == id_text(of, high2, low2) ==> high == high2 && low == low2,
{
    reveal_strlit("-");
    crate::text_laws::hexadecimal_is_worth_its_number(high as nat, 8);
    crate::text_laws::hexadecimal_is_worth_its_number(low as nat, 8);
    crate::text_laws::hexadecimal_is_worth_its_number(high2 as nat, 8);
    crate::text_laws::hexadecimal_is_worth_its_number(low2 as nat, 8);
    let a = id_text(of, high, low);
    let b = id_text(of, high2, low2);
    let n = of.len() as int;
    assert(a.take(n) =~= of);
    assert(a.subrange(n + 1, n + 9) =~= hex_text(high as nat, 8));
    assert(b.subrange(n + 1, n + 9) =~= hex_text(high2 as nat, 8));
    assert(a.subrange(n + 9, n + 17) =~= hex_text(low as nat, 8));
    assert(b.subrange(n + 9, n + 17) =~= hex_text(low2 as nat, 8));
    reveal_with_fuel(crate::text_laws::power, 9);
    if a == b {
        assert(high as nat % 4294967296 == high);
        assert(high2 as nat % 4294967296 == high2);
        assert(low as nat % 4294967296 == low);
        assert(low2 as nat % 4294967296 == low2);
    }
}

} // verus!
