//! What is written beside a runtime: its lease, its artifact, its workload, and
//! what a teardown came to.
use vstd::prelude::*;
use crate::agent::policy::{add_capped, capped_sum, filled, filled_text};
use crate::agent::types::{
    provider_name, provider_text, ProviderKind, RuntimeDescriptor, RuntimeDescriptorModel,
    RuntimeLifecyclePhase, RuntimeRecord, RuntimeRecordModel, TeardownRetryMetadata,
    TeardownRetryMetadataModel,
};
use crate::collections::Replicate;
use crate::json::{
    json_null, json_object, json_text, json_uint, parse_json, parsed_json, Json, JsonModel,
};
use crate::text::{same_text, to_upper, trim, trimmed, upper_text};

verus! {

pub const MAX_RETRY_DELAY_SECS: u64 = 1800;

/// Metadata as an object: one stays as it is, nothing becomes an empty one, and
/// anything else becomes an entry of one.
pub open spec fn as_object(existing: JsonModel) -> JsonModel {
    match existing {
        JsonModel::Object(_) => existing,
        JsonModel::Null => JsonModel::empty(),
        other => JsonModel::empty().with("provider_metadata"@, other),
    }
}

/// Metadata as an object.
fn into_object(existing: Json) -> (json: Json)
    ensures
        json@ == as_object(existing@),
        json@ is Object,
{
    if existing.is_object() {
        existing
    } else if existing.is_null() {
        json_object()
    } else {
        json_object().with("provider_metadata", existing)
    }
}

/// A teardown that is to be tried again, as JSON.
pub open spec fn retry_json(retry: TeardownRetryMetadataModel) -> JsonModel {
    JsonModel::empty().with("attempt_count"@, JsonModel::UInt(retry.attempt_count as u64)).with(
        "last_error"@,
        JsonModel::optional_text(retry.last_error),
    ).with("next_retry_at"@, JsonModel::optional_uint(retry.next_retry_at)).with(
        "last_attempt_at"@,
        JsonModel::optional_uint(retry.last_attempt_at),
    )
}

/// A teardown that is to be tried again, as JSON.
fn json_of_retry(retry: &TeardownRetryMetadata) -> (json: Json)
    ensures
        json@ == retry_json(retry@),
{
    json_object().with("attempt_count", json_uint(retry.attempt_count as u64)).with(
        "last_error",
        Json::optional_text(&retry.last_error),
    ).with("next_retry_at", Json::optional_uint(retry.next_retry_at)).with(
        "last_attempt_at",
        Json::optional_uint(retry.last_attempt_at),
    )
}

/// Metadata with the lease: when the runtime was made, when it expires, and
/// whether its teardown is to be tried again.
pub open spec fn leased_metadata(
    existing: JsonModel,
    created_at: u64,
    expires_at: u64,
    teardown_retry: Option<TeardownRetryMetadataModel>,
) -> JsonModel {
    let stamped = as_object(existing).with("created_at"@, JsonModel::UInt(created_at)).with(
        "expires_at"@,
        JsonModel::UInt(expires_at),
    );
    match teardown_retry {
        Some(retry) => stamped.with("teardown_retry"@, retry_json(retry)),
        None => stamped.without("teardown_retry"@),
    }
}

/// Metadata with the lease.
pub fn with_lease_metadata(
    existing: Json,
    created_at: u64,
    expires_at: u64,
    teardown_retry: &Option<TeardownRetryMetadata>,
) -> (json: Json)
    ensures
        json@ == leased_metadata(existing@, created_at, expires_at, teardown_retry.deep_view()),
{
    let stamped = into_object(existing).with("created_at", json_uint(created_at)).with(
        "expires_at",
        json_uint(expires_at),
    );
    match teardown_retry {
        Some(retry) => stamped.with("teardown_retry", json_of_retry(retry)),
        None => stamped.without("teardown_retry"),
    }
}

/// Metadata with the artifact that a runtime runs, and the build it came from.
pub open spec fn artifact_metadata(
    existing: JsonModel,
    build_id: Option<Seq<char>>,
    artifact_ref: Seq<char>,
) -> JsonModel {
    let marked = as_object(existing).with("artifact_ref"@, JsonModel::Text(artifact_ref));
    match build_id {
        Some(id) => marked.with("build_id"@, JsonModel::Text(id)),
        None => marked,
    }
}

/// Metadata with the artifact that a runtime runs, and the build it came from.
pub fn with_artifact_metadata(existing: Json, build_id: &Option<String>, artifact_ref: &str) -> (json:
    Json)
    ensures
        json@ == artifact_metadata(existing@, build_id.deep_view(), artifact_ref@),
{
    let marked = into_object(existing).with("artifact_ref", json_text(artifact_ref));
    match build_id {
        Some(id) => marked.with("build_id", json_text(id.as_str())),
        None => marked,
    }
}

/// Metadata with the workload that was asked for.
pub open spec fn workload_metadata(existing: JsonModel, advanced: JsonModel) -> JsonModel {
    as_object(existing).with("advanced_workload"@, advanced)
}

/// Metadata with the workload that was asked for.
pub fn with_advanced_workload_metadata(existing: Json, advanced: Json) -> (json: Json)
    ensures
        json@ == workload_metadata(existing@, advanced@),
{
    into_object(existing).with("advanced_workload", advanced)
}

/// A runtime as its owner sees it, with its lease.
pub open spec fn descriptor_of(runtime: RuntimeRecordModel) -> RuntimeDescriptorModel {
    RuntimeDescriptorModel {
        metadata: leased_metadata(
            runtime.descriptor.metadata,
            runtime.created_at,
            runtime.expires_at,
            runtime.teardown_retry,
        ),
        ..runtime.descriptor
    }
}

impl RuntimeRecord {
    /// The runtime as its owner sees it, with its lease.
    pub fn descriptor_with_lease(&self) -> (descriptor: RuntimeDescriptor)
        ensures
            descriptor@ == descriptor_of(self@),
    {
        let mut descriptor = self.descriptor.replicate();
        descriptor.metadata = with_lease_metadata(
            self.descriptor.metadata.replicate(),
            self.created_at,
            self.expires_at,
            &self.teardown_retry,
        );
        descriptor
    }
}

/// The lease does not touch what the artifact of a runtime is.
pub proof fn lease_keeps_artifact(
    existing: JsonModel,
    created_at: u64,
    expires_at: u64,
    teardown_retry: Option<TeardownRetryMetadataModel>,
)
    requires
        existing is Object,
    ensures
        leased_metadata(existing, created_at, expires_at, teardown_retry).get("artifact_ref"@)
            == existing.get("artifact_ref"@),
        leased_metadata(existing, created_at, expires_at, teardown_retry).get_uint("created_at"@)
            == Some(created_at),
        leased_metadata(existing, created_at, expires_at, teardown_retry).get_uint("expires_at"@)
            == Some(expires_at),
{
    reveal_strlit("artifact_ref");
    reveal_strlit("created_at");
    reveal_strlit("expires_at");
    reveal_strlit("teardown_retry");
    assert("artifact_ref"@.len() == 12 && "created_at"@.len() == 10 && "expires_at"@.len() == 10
        && "teardown_retry"@.len() == 14);
    assert("created_at"@[0] == 'c' && "expires_at"@[0] == 'e');
}

/// How a teardown ended, as its payload says.
pub open spec fn teardown_state(payload: JsonModel) -> Option<Seq<char>> {
    payload.get_text("teardown"@)
}

/// Whether a teardown that ended so can be tried again, as its payload says.
pub open spec fn teardown_retryable(payload: JsonModel) -> bool {
    payload.get_bool("retryable"@) == Some(true)
}

/// Whether a teardown is to be tried again: it went wrong, wholly or in part, and
/// can be tried again.
pub open spec fn teardown_needs_retry(payload: JsonModel) -> bool {
    (teardown_state(payload) == Some("partial"@) || teardown_state(payload) == Some("failed"@))
        && teardown_retryable(payload)
}

/// How a teardown ended, as its payload says.
pub fn teardown_payload_state(payload: &Json) -> (state: Option<String>)
    ensures
        state.deep_view() == teardown_state(payload@),
{
    payload.get_text("teardown")
}

/// Whether a teardown can be tried again, as its payload says.
pub fn teardown_payload_retryable(payload: &Json) -> (retryable: bool)
    ensures
        retryable == teardown_retryable(payload@),
{
    match payload.get_bool("retryable") {
        Some(retryable) => retryable,
        None => false,
    }
}

/// Whether a teardown is to be tried again.
pub fn teardown_payload_requires_retry(payload: &Json) -> (retry: bool)
    ensures
        retry == teardown_needs_retry(payload@),
{
    match teardown_payload_state(payload) {
        Some(state) => (same_text(state.as_str(), "partial") || same_text(
            state.as_str(),
            "failed",
        )) && teardown_payload_retryable(payload),
        None => false,
    }
}

/// Whether a teardown failed.
pub fn teardown_payload_is_failed(payload: &Json) -> (failed: bool)
    ensures
        failed == (teardown_state(payload@) == Some("failed"@)),
{
    match teardown_payload_state(payload) {
        Some(state) => same_text(state.as_str(), "failed"),
        None => false,
    }
}

/// Two to the power of `n`.
pub open spec fn doubled(n: nat) -> nat
    decreases n,
{
    if n == 0 {
        1
    } else {
        2 * doubled((n - 1) as nat)
    }
}

/// How long to wait before a teardown is tried again: five seconds after the
/// first attempt, twice as long after each further one, half an hour at most.
pub open spec fn backoff(attempt_count: u32) -> u64 {
    let steps = if attempt_count == 0 {
        0nat
    } else if attempt_count > 11 {
        10nat
    } else {
        (attempt_count - 1) as nat
    };
    if 5 * doubled(steps) > MAX_RETRY_DELAY_SECS {
        MAX_RETRY_DELAY_SECS
    } else {
        (5 * doubled(steps)) as u64
    }
}

/// How long to wait before a teardown is tried again.
pub fn teardown_backoff_secs(attempt_count: u32) -> (secs: u64)
    ensures
        secs == backoff(attempt_count),
{
    let steps: u32 = if attempt_count == 0 {
        0
    } else if attempt_count > 11 {
        10
    } else {
        attempt_count - 1
    };
    let mut secs: u64 = 5;
    let mut i: u32 = 0;
    while i < steps
        invariant
            i <= steps <= 10,
            secs == 5 * doubled(i as nat),
            secs <= 5 * 1024,
            i == 0 ==> secs == 5,
            i == 1 ==> secs == 10,
            i == 2 ==> secs == 20,
            i == 3 ==> secs == 40,
            i == 4 ==> secs == 80,
            i == 5 ==> secs == 160,
            i == 6 ==> secs == 320,
            i == 7 ==> secs == 640,
            i == 8 ==> secs == 1280,
            i == 9 ==> secs == 2560,
            i == 10 ==> secs == 5120,
        decreases steps - i,
    {
        secs = secs * 2;
        i += 1;
    }
    if secs > MAX_RETRY_DELAY_SECS {
        MAX_RETRY_DELAY_SECS
    } else {
        secs
    }
}

proof fn lemma_doubled_grows(a: nat, b: nat)
    requires
        a <= b,
    ensures
        1 <= doubled(a) <= doubled(b),
    decreases b,
{
    if a < b {
        lemma_doubled_grows(a, (b - 1) as nat);
    } else if a > 0 {
        lemma_doubled_grows((a - 1) as nat, (b - 1) as nat);
    }
}

/// The wait never shrinks from one attempt to the next, is five seconds at least
/// and half an hour at most.
pub proof fn backoff_never_shrinks(attempt: u32, later: u32)
    requires
        attempt <= later,
    ensures
        5 <= backoff(attempt) <= backoff(later) <= MAX_RETRY_DELAY_SECS,
{
    let steps = |n: u32|
        if n == 0 {
            0nat
        } else if n > 11 {
            10nat
        } else {
            (n - 1) as nat
        };
    lemma_doubled_grows(steps(attempt), steps(later));
    lemma_doubled_grows(0, steps(attempt));
}

/// Whether a runtime is due: its lease has run out and it was not torn down, or
/// its teardown is to be tried again by now.
pub open spec fn is_due(runtime: RuntimeRecordModel, now: u64) -> bool {
    ||| runtime.expires_at > 0 && runtime.expires_at <= now && runtime.descriptor.lifecycle_phase
        != RuntimeLifecyclePhase::Teardown
    ||| runtime.teardown_retry matches Some(retry) && retry.next_retry_at matches Some(at) && at
        <= now
}

/// Whether a runtime is due.
pub fn runtime_due_for_reaper(runtime: &RuntimeRecord, now: u64) -> (due: bool)
    ensures
        due == is_due(runtime@, now),
{
    let retry_due = match &runtime.teardown_retry {
        Some(retry) => match retry.next_retry_at {
            Some(at) => at <= now,
            None => false,
        },
        None => false,
    };
    let expired = runtime.expires_at > 0 && runtime.expires_at <= now
        && runtime.descriptor.lifecycle_phase != RuntimeLifecyclePhase::Teardown;
    expired || retry_due
}

/// The teardown that is to be tried again after a failed attempt.
pub open spec fn next_retry(previous_attempts: u32, error: Seq<char>, now: u64) -> TeardownRetryMetadataModel {
    let attempt_count = if previous_attempts < u32::MAX {
        (previous_attempts + 1) as u32
    } else {
        previous_attempts
    };
    TeardownRetryMetadataModel {
        attempt_count,
        last_error: Some(error),
        next_retry_at: Some(capped_sum(now, backoff(attempt_count))),
        last_attempt_at: Some(now),
    }
}

/// The teardown that is to be tried again after a failed attempt.
pub fn schedule_retry(previous_attempts: u32, error: String, now: u64) -> (retry: TeardownRetryMetadata)
    ensures
        retry@ == next_retry(previous_attempts, error@, now),
{
    let attempt_count: u32 = if previous_attempts < u32::MAX {
        previous_attempts + 1
    } else {
        previous_attempts
    };
    TeardownRetryMetadata {
        attempt_count,
        last_error: Some(error),
        next_retry_at: Some(add_capped(now, teardown_backoff_secs(attempt_count))),
        last_attempt_at: Some(now),
    }
}

/// The error that is kept of a teardown whose payload asks for another try.
pub open spec fn payload_error(payload: JsonModel) -> Seq<char> {
    let state = match teardown_state(payload) {
        Some(text) => text,
        None => "unknown"@,
    };
    "provider returned teardown="@ + state + " retryable=true"@
}

/// The error that is kept of a teardown whose payload asks for another try.
pub fn payload_error_text(payload: &Json) -> (text: String)
    ensures
        text@ == payload_error(payload@),
{
    let state = match teardown_payload_state(payload) {
        Some(text) => text,
        None => "unknown".to_owned(),
    };
    "provider returned teardown=".to_owned().concat(state.as_str()).concat(" retryable=true")
}

/// The id of a request whose command could not be decoded, where its JSON has one.
pub open spec fn request_id_in(parsed: Result<JsonModel, Seq<char>>) -> Option<Seq<char>> {
    match parsed {
        Ok(json) => json.get_text("request_id"@),
        Err(_) => None,
    }
}

/// The id of a request, where the JSON that was read has one.
pub fn request_id_of(parsed: &Result<Json, String>) -> (id: Option<String>)
    ensures
        match parsed {
            Ok(json) => id.deep_view() == json@.get_text("request_id"@),
            Err(_) => id is None,
        },
{
    match parsed {
        Ok(json) => json.get_text("request_id"),
        Err(_) => None,
    }
}

/// The id of a request whose command could not be decoded, where its JSON has one.
pub fn extract_request_id(content: &str) -> (id: Option<String>)
    ensures
        id.deep_view() == request_id_in(parsed_json(content@)),
{
    request_id_of(&parse_json(content))
}

/// What a provider offers here.
#[derive(Debug, PartialEq, Eq)]
pub struct RuntimeProfile {
    pub runtime_class: Option<String>,
    pub region: Option<String>,
    pub capacity: Json,
    pub policy_constraints: Json,
}

/// What a [`RuntimeProfile`] holds.
#[verifier::ext_equal]
pub struct RuntimeProfileModel {
    pub runtime_class: Option<Seq<char>>,
    pub region: Option<Seq<char>>,
    pub capacity: JsonModel,
    pub policy_constraints: JsonModel,
}

impl DeepView for RuntimeProfile {
    type V = RuntimeProfileModel;

    open spec fn deep_view(&self) -> RuntimeProfileModel {
        RuntimeProfileModel {
            runtime_class: self.runtime_class.deep_view(),
            region: self.region.deep_view(),
            capacity: self.capacity.deep_view(),
            policy_constraints: self.policy_constraints.deep_view(),
        }
    }
}

impl View for RuntimeProfile {
    type V = RuntimeProfileModel;

    open spec fn view(&self) -> RuntimeProfileModel {
        self.deep_view()
    }
}

impl Replicate for RuntimeProfile {
    fn replicate(&self) -> (copy: Self) {
        RuntimeProfile {
            runtime_class: self.runtime_class.replicate(),
            region: self.region.replicate(),
            capacity: self.capacity.replicate(),
            policy_constraints: self.policy_constraints.replicate(),
        }
    }
}

impl Clone for RuntimeProfile {
    fn clone(&self) -> (copy: Self)
        ensures
            copy@ == self@,
    {
        self.replicate()
    }
}

/// The settings of a provider, as they were found: each for this provider, and
/// for all.
#[derive(Debug, PartialEq, Eq)]
pub struct ProfileSettings {
    pub runtime_class: Option<String>,
    pub runtime_class_for_all: Option<String>,
    pub region: Option<String>,
    pub region_for_all: Option<String>,
    pub capacity_json: Option<String>,
    pub capacity_json_for_all: Option<String>,
    pub policy_json: Option<String>,
    pub policy_json_for_all: Option<String>,
}

/// What a [`ProfileSettings`] holds.
#[verifier::ext_equal]
pub struct ProfileSettingsModel {
    pub runtime_class: Option<Seq<char>>,
    pub runtime_class_for_all: Option<Seq<char>>,
    pub region: Option<Seq<char>>,
    pub region_for_all: Option<Seq<char>>,
    pub capacity_json: Option<Seq<char>>,
    pub capacity_json_for_all: Option<Seq<char>>,
    pub policy_json: Option<Seq<char>>,
    pub policy_json_for_all: Option<Seq<char>>,
}

impl DeepView for ProfileSettings {
    type V = ProfileSettingsModel;

    open spec fn deep_view(&self) -> ProfileSettingsModel {
        ProfileSettingsModel {
            runtime_class: self.runtime_class.deep_view(),
            runtime_class_for_all: self.runtime_class_for_all.deep_view(),
            region: self.region.deep_view(),
            region_for_all: self.region_for_all.deep_view(),
            capacity_json: self.capacity_json.deep_view(),
            capacity_json_for_all: self.capacity_json_for_all.deep_view(),
            policy_json: self.policy_json.deep_view(),
            policy_json_for_all: self.policy_json_for_all.deep_view(),
        }
    }
}

impl View for ProfileSettings {
    type V = ProfileSettingsModel;

    open spec fn view(&self) -> ProfileSettingsModel {
        self.deep_view()
    }
}

impl Replicate for ProfileSettings {
    fn replicate(&self) -> (copy: Self) {
        ProfileSettings {
            runtime_class: self.runtime_class.replicate(),
            runtime_class_for_all: self.runtime_class_for_all.replicate(),
            region: self.region.replicate(),
            region_for_all: self.region_for_all.replicate(),
            capacity_json: self.capacity_json.replicate(),
            capacity_json_for_all: self.capacity_json_for_all.replicate(),
            policy_json: self.policy_json.replicate(),
            policy_json_for_all: self.policy_json_for_all.replicate(),
        }
    }
}

impl Clone for ProfileSettings {
    fn clone(&self) -> (copy: Self)
        ensures
            copy@ == self@,
    {
        self.replicate()
    }
}

/// The name of a setting for one provider.
pub open spec fn provider_setting(key: Seq<char>, provider: ProviderKind) -> Seq<char> {
    key + "_"@ + upper_text(provider_text(provider))
}

/// The name of a setting for one provider.
pub fn provider_setting_name(provider: ProviderKind, key: &str) -> (name: String)
    ensures
        name@ == provider_setting(key@, provider),
{
    key.to_owned().concat("_").concat(to_upper(provider_name(provider).as_str()).as_str())
}

/// The setting for this provider where there is one, otherwise the one for all.
pub open spec fn setting_for(own: Option<Seq<char>>, for_all: Option<Seq<char>>) -> Option<Seq<char>> {
    match own {
        Some(text) => Some(text),
        None => for_all,
    }
}

/// A text from the setting for this provider or for all; a blank one is none.
pub fn env_string_for_provider(own: &Option<String>, for_all: &Option<String>) -> (text: Option<String>)
    ensures
        text.deep_view() == filled(setting_for(own.deep_view(), for_all.deep_view())),
{
    match own {
        Some(_) => filled_text(own),
        None => filled_text(for_all),
    }
}

/// JSON from a setting, given what was read in it: a blank setting is null, and
/// one that is no JSON stands as it is under `raw`.
pub open spec fn setting_json(
    raw: Option<Seq<char>>,
    parsed: Result<JsonModel, Seq<char>>,
) -> JsonModel {
    match raw {
        Some(text) if trimmed(text).len() > 0 => match parsed {
            Ok(json) => json,
            Err(_) => JsonModel::empty().with("raw"@, JsonModel::Text(text)),
        },
        _ => JsonModel::Null,
    }
}

/// JSON from the setting for this provider or for all.
pub fn env_json_for_provider(own: &Option<String>, for_all: &Option<String>) -> (json: Json)
    ensures
        ({
            let raw = setting_for(own.deep_view(), for_all.deep_view());
            json@ == setting_json(
                raw,
                match raw {
                    Some(text) => parsed_json(text),
                    None => Ok(JsonModel::Null),
                },
            )
        }),
{
    let raw = match own {
        Some(text) => Some(text.clone()),
        None => for_all.replicate(),
    };
    match raw {
        None => json_null(),
        Some(text) => {
            if trim(text.as_str()).as_str().is_empty() {
                json_null()
            } else {
                match parse_json(text.as_str()) {
                    Ok(json) => json,
                    Err(_) => json_object().with("raw", json_text(text.as_str())),
                }
            }
        },
    }
}

/// What a provider offers here; without a setting its class is its name.
pub fn runtime_profile(provider: ProviderKind, settings: &ProfileSettings) -> (profile: RuntimeProfile)
    ensures
        profile@.runtime_class == Some(
            match filled(setting_for(settings@.runtime_class, settings@.runtime_class_for_all)) {
                Some(class) => class,
                None => provider_text(provider),
            },
        ),
        profile@.region == filled(setting_for(settings@.region, settings@.region_for_all)),
        ({
            let raw = setting_for(settings@.capacity_json, settings@.capacity_json_for_all);
            profile@.capacity == setting_json(
                raw,
                match raw {
                    Some(text) => parsed_json(text),
                    None => Ok(JsonModel::Null),
                },
            )
        }),
        ({
            let raw = setting_for(settings@.policy_json, settings@.policy_json_for_all);
            profile@.policy_constraints == setting_json(
                raw,
                match raw {
                    Some(text) => parsed_json(text),
                    None => Ok(JsonModel::Null),
                },
            )
        }),
{
    let runtime_class = match env_string_for_provider(
        &settings.runtime_class,
        &settings.runtime_class_for_all,
    ) {
        Some(class) => class,
        None => provider_name(provider),
    };
    RuntimeProfile {
        runtime_class: Some(runtime_class),
        region: env_string_for_provider(&settings.region, &settings.region_for_all),
        capacity: env_json_for_provider(&settings.capacity_json, &settings.capacity_json_for_all),
        policy_constraints: env_json_for_provider(
            &settings.policy_json,
            &settings.policy_json_for_all,
        ),
    }
}

} // verus!
