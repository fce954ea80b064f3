//! The Fly machines API: the requests that are sent, and what the replies mean.
use vstd::prelude::*;
use crate::agent::policy::{filled, filled_text, text_outcome};
use crate::agent::types::{Failure, FailureModel};
use crate::collections::{OrdMap, Replicate};
use crate::json::{json_array, json_object, json_text, json_uint, Json, JsonModel};
use crate::text::{decimal, decimal_text, letters, text_of, trim, trimmed};

verus! {

pub const DEFAULT_FLY_API_BASE_URL: &'static str = "https://api.machines.dev";

/// How a request is sent.
#[derive(Clone, Copy, Debug, PartialEq, Eq, Structural)]
pub enum HttpMethod {
    Get,
    Post,
    Delete,
}

impl DeepView for HttpMethod {
    type V = HttpMethod;

    open spec fn deep_view(&self) -> HttpMethod {
        *self
    }
}

impl Replicate for HttpMethod {
    fn replicate(&self) -> (copy: Self) {
        *self
    }
}

/// A request: its token goes with it as a bearer token, its body, where it has one,
/// as JSON.
#[derive(Debug, PartialEq, Eq)]
pub struct HttpRequest {
    pub method: HttpMethod,
    pub url: String,
    pub bearer_token: String,
    pub body: Option<Json>,
}

/// What a [`HttpRequest`] holds.
#[verifier::ext_equal]
pub struct HttpRequestModel {
    pub method: HttpMethod,
    pub url: Seq<char>,
    pub bearer_token: Seq<char>,
    pub body: Option<JsonModel>,
}

impl DeepView for HttpRequest {
    type V = HttpRequestModel;

    open spec fn deep_view(&self) -> HttpRequestModel {
        HttpRequestModel {
            method: self.method.deep_view(),
            url: self.url.deep_view(),
            bearer_token: self.bearer_token.deep_view(),
            body: self.body.deep_view(),
        }
    }
}

impl View for HttpRequest {
    type V = HttpRequestModel;

    open spec fn view(&self) -> HttpRequestModel {
        self.deep_view()
    }
}

impl Replicate for HttpRequest {
    fn replicate(&self) -> (copy: Self) {
        HttpRequest {
            method: self.method.replicate(),
            url: self.url.replicate(),
            bearer_token: self.bearer_token.replicate(),
            body: self.body.replicate(),
        }
    }
}

impl Clone for HttpRequest {
    fn clone(&self) -> (copy: Self)
        ensures
            copy@ == self@,
    {
        self.replicate()
    }
}

/// A reply: its status and its body.
#[derive(Debug, PartialEq, Eq)]
pub struct HttpReply {
    pub status: u16,
    pub body: String,
}

/// What a [`HttpReply`] holds.
#[verifier::ext_equal]
pub struct HttpReplyModel {
    pub status: u16,
    pub body: Seq<char>,
}

impl DeepView for HttpReply {
    type V = HttpReplyModel;

    open spec fn deep_view(&self) -> HttpReplyModel {
        HttpReplyModel {
            status: self.status.deep_view(),
            body: self.body.deep_view(),
        }
    }
}

impl View for HttpReply {
    type V = HttpReplyModel;

    open spec fn view(&self) -> HttpReplyModel {
        self.deep_view()
    }
}

impl Replicate for HttpReply {
    fn replicate(&self) -> (copy: Self) {
        HttpReply {
            status: self.status.replicate(),
            body: self.body.replicate(),
        }
    }
}

impl Clone for HttpReply {
    fn clone(&self) -> (copy: Self)
        ensures
            copy@ == self@,
    {
        self.replicate()
    }
}

/// A volume.
#[derive(Debug, PartialEq, Eq)]
pub struct Volume {
    pub id: String,
}

/// What a [`Volume`] holds.
#[verifier::ext_equal]
pub struct VolumeModel {
    pub id: Seq<char>,
}

impl DeepView for Volume {
    type V = VolumeModel;

    open spec fn deep_view(&self) -> VolumeModel {
        VolumeModel {
            id: self.id.deep_view(),
        }
    }
}

impl View for Volume {
    type V = VolumeModel;

    open spec fn view(&self) -> VolumeModel {
        self.deep_view()
    }
}

impl Replicate for Volume {
    fn replicate(&self) -> (copy: Self) {
        Volume {
            id: self.id.replicate(),
        }
    }
}

impl Clone for Volume {
    fn clone(&self) -> (copy: Self)
        ensures
            copy@ == self@,
    {
        self.replicate()
    }
}

/// A machine.
#[derive(Debug, PartialEq, Eq)]
pub struct Machine {
    pub id: String,
    pub state: String,
}

/// What a [`Machine`] holds.
#[verifier::ext_equal]
pub struct MachineModel {
    pub id: Seq<char>,
    pub state: Seq<char>,
}

impl DeepView for Machine {
    type V = MachineModel;

    open spec fn deep_view(&self) -> MachineModel {
        MachineModel {
            id: self.id.deep_view(),
            state: self.state.deep_view(),
        }
    }
}

impl View for Machine {
    type V = MachineModel;

    open spec fn view(&self) -> MachineModel {
        self.deep_view()
    }
}

impl Replicate for Machine {
    fn replicate(&self) -> (copy: Self) {
        Machine {
            id: self.id.replicate(),
            state: self.state.replicate(),
        }
    }
}

impl Clone for Machine {
    fn clone(&self) -> (copy: Self)
        ensures
            copy@ == self@,
    {
        self.replicate()
    }
}

/// What stopping a machine came to.
#[derive(Clone, Copy, Debug, PartialEq, Eq, Structural)]
pub enum StopMachineOutcome {
    Stopped,
    AlreadyGone,
}

impl DeepView for StopMachineOutcome {
    type V = StopMachineOutcome;

    open spec fn deep_view(&self) -> StopMachineOutcome {
        *self
    }
}

impl Replicate for StopMachineOutcome {
    fn replicate(&self) -> (copy: Self) {
        *self
    }
}

/// What deleting a machine came to.
#[derive(Clone, Copy, Debug, PartialEq, Eq, Structural)]
pub enum DeleteMachineOutcome {
    Deleted,
    AlreadyGone,
}

impl DeepView for DeleteMachineOutcome {
    type V = DeleteMachineOutcome;

    open spec fn deep_view(&self) -> DeleteMachineOutcome {
        *self
    }
}

impl Replicate for DeleteMachineOutcome {
    fn replicate(&self) -> (copy: Self) {
        *self
    }
}

/// What deleting a volume came to.
#[derive(Clone, Copy, Debug, PartialEq, Eq, Structural)]
pub enum DeleteVolumeOutcome {
    Deleted,
    AlreadyGone,
    Conflict,
}

impl DeepView for DeleteVolumeOutcome {
    type V = DeleteVolumeOutcome;

    open spec fn deep_view(&self) -> DeleteVolumeOutcome {
        *self
    }
}

impl Replicate for DeleteVolumeOutcome {
    fn replicate(&self) -> (copy: Self) {
        *self
    }
}

/// A request that failed: without a status where no reply came.
#[derive(Debug, PartialEq, Eq)]
pub struct FlyApiError {
    pub operation: String,
    pub status_code: Option<u16>,
    pub detail: String,
}

/// What a [`FlyApiError`] holds.
#[verifier::ext_equal]
pub struct FlyApiErrorModel {
    pub operation: Seq<char>,
    pub status_code: Option<u16>,
    pub detail: Seq<char>,
}

impl DeepView for FlyApiError {
    type V = FlyApiErrorModel;

    open spec fn deep_view(&self) -> FlyApiErrorModel {
        FlyApiErrorModel {
            operation: self.operation.deep_view(),
            status_code: self.status_code.deep_view(),
            detail: self.detail.deep_view(),
        }
    }
}

impl View for FlyApiError {
    type V = FlyApiErrorModel;

    open spec fn view(&self) -> FlyApiErrorModel {
        self.deep_view()
    }
}

impl Replicate for FlyApiError {
    fn replicate(&self) -> (copy: Self) {
        FlyApiError {
            operation: self.operation.replicate(),
            status_code: self.status_code.replicate(),
            detail: self.detail.replicate(),
        }
    }
}

impl Clone for FlyApiError {
    fn clone(&self) -> (copy: Self)
        ensures
            copy@ == self@,
    {
        self.replicate()
    }
}

/// Who speaks to the API, and for which app.
#[derive(Debug, PartialEq, Eq)]
pub struct FlyClient {
    pub api_token: String,
    pub app_name: String,
    pub api_base_url: String,
    pub region: String,
    pub image: String,
}

/// What a [`FlyClient`] holds.
#[verifier::ext_equal]
pub struct FlyClientModel {
    pub api_token: Seq<char>,
    pub app_name: Seq<char>,
    pub api_base_url: Seq<char>,
    pub region: Seq<char>,
    pub image: Seq<char>,
}

impl DeepView for FlyClient {
    type V = FlyClientModel;

    open spec fn deep_view(&self) -> FlyClientModel {
        FlyClientModel {
            api_token: self.api_token.deep_view(),
            app_name: self.app_name.deep_view(),
            api_base_url: self.api_base_url.deep_view(),
            region: self.region.deep_view(),
            image: self.image.deep_view(),
        }
    }
}

impl View for FlyClient {
    type V = FlyClientModel;

    open spec fn view(&self) -> FlyClientModel {
        self.deep_view()
    }
}

impl Replicate for FlyClient {
    fn replicate(&self) -> (copy: Self) {
        FlyClient {
            api_token: self.api_token.replicate(),
            app_name: self.app_name.replicate(),
            api_base_url: self.api_base_url.replicate(),
            region: self.region.replicate(),
            image: self.image.replicate(),
        }
    }
}

impl Clone for FlyClient {
    fn clone(&self) -> (copy: Self)
        ensures
            copy@ == self@,
    {
        self.replicate()
    }
}

/// The settings that a client is made of, as they were found.
#[derive(Debug, PartialEq, Eq)]
pub struct FlySettings {
    pub api_token: Option<String>,
    pub app_name: Option<String>,
    pub api_base_url: Option<String>,
    pub region: Option<String>,
    pub image: Option<String>,
}

/// What a [`FlySettings`] holds.
#[verifier::ext_equal]
pub struct FlySettingsModel {
    pub api_token: Option<Seq<char>>,
    pub app_name: Option<Seq<char>>,
    pub api_base_url: Option<Seq<char>>,
    pub region: Option<Seq<char>>,
    pub image: Option<Seq<char>>,
}

impl DeepView for FlySettings {
    type V = FlySettingsModel;

    open spec fn deep_view(&self) -> FlySettingsModel {
        FlySettingsModel {
            api_token: self.api_token.deep_view(),
            app_name: self.app_name.deep_view(),
            api_base_url: self.api_base_url.deep_view(),
            region: self.region.deep_view(),
            image: self.image.deep_view(),
        }
    }
}

impl View for FlySettings {
    type V = FlySettingsModel;

    open spec fn view(&self) -> FlySettingsModel {
        self.deep_view()
    }
}

impl Replicate for FlySettings {
    fn replicate(&self) -> (copy: Self) {
        FlySettings {
            api_token: self.api_token.replicate(),
            app_name: self.app_name.replicate(),
            api_base_url: self.api_base_url.replicate(),
            region: self.region.replicate(),
            image: self.image.replicate(),
        }
    }
}

impl Clone for FlySettings {
    fn clone(&self) -> (copy: Self)
        ensures
            copy@ == self@,
    {
        self.replicate()
    }
}

/// `StatusCode`'s `Display`: the number of a status and its name.
pub uninterp spec fn status_text(status: u16) -> Seq<char>;

/// `reqwest::StatusCode::from_u16` and `Display`. Claimed: the text is a function
/// of the number; numbers that are no status are left out.
#[verifier::external_body]
fn show_status(status: u16) -> (text: String)
    requires
        100 <= status < 1000,
    ensures
        text@ == status_text(status),
{
    reqwest::StatusCode::from_u16(status).map(|code| code.to_string()).unwrap_or_default()
}

/// Whether a status says that all went well.
pub open spec fn is_success(status: u16) -> bool {
    200 <= status < 300
}

/// Whether a request that failed so is worth trying again.
pub open spec fn worth_retrying(status_code: Option<u16>) -> bool {
    match status_code {
        None => true,
        Some(s) => s == 408 || s == 409 || s == 422 || s == 425 || s == 429 || s >= 500,
    }
}

/// A failure in words.
pub open spec fn failure_text(error: FlyApiErrorModel) -> Seq<char> {
    match error.status_code {
        Some(s) => error.operation + " failed: status="@ + decimal_text(s as nat) + " detail="@
            + error.detail,
        None => error.operation + " failed: transport detail="@ + error.detail,
    }
}

impl FlyApiError {
    /// A request to which no reply came.
    pub fn transport(operation: &str, detail: String) -> (error: Self)
        ensures
            error@ == (FlyApiErrorModel {
                operation: operation@,
                status_code: None,
                detail: detail@,
            }),
    {
        FlyApiError { operation: operation.to_owned(), status_code: None, detail }
    }

    /// A request that the reply refuses.
    pub fn provider(operation: &str, status: u16, detail: String) -> (error: Self)
        ensures
            error@ == (FlyApiErrorModel {
                operation: operation@,
                status_code: Some(status),
                detail: detail@,
            }),
    {
        FlyApiError { operation: operation.to_owned(), status_code: Some(status), detail }
    }

    /// The status of the reply, where one came.
    pub fn status_code(&self) -> (status: Option<u16>)
        ensures
            status == self@.status_code,
    {
        self.status_code
    }

    /// Whether the request is worth trying again.
    pub fn is_retryable(&self) -> (retryable: bool)
        ensures
            retryable == worth_retrying(self@.status_code),
    {
        match self.status_code {
            None => true,
            Some(s) => s == 408 || s == 409 || s == 422 || s == 425 || s == 429 || s >= 500,
        }
    }

    /// The failure in words.
    pub fn to_string(&self) -> (text: String)
        ensures
            text@ == failure_text(self@),
    {
        match self.status_code {
            Some(s) => self.operation.clone().concat(" failed: status=").concat(
                decimal(s as u64).as_str(),
            ).concat(" detail=").concat(self.detail.as_str()),
            None => self.operation.clone().concat(" failed: transport detail=").concat(
                self.detail.as_str(),
            ),
        }
    }
}

/// A setting, or what stands in for one that is missing or blank.
pub open spec fn setting_text(raw: Option<Seq<char>>, default: Seq<char>) -> Seq<char> {
    match filled(raw) {
        Some(text) => text,
        None => default,
    }
}

/// A setting, or what stands in for one that is missing or blank.
pub fn optional_non_empty_env(raw: &Option<String>, default: &str) -> (text: String)
    ensures
        text@ == setting_text(raw.deep_view(), default@),
{
    match filled_text(raw) {
        Some(text) => text,
        None => default.to_owned(),
    }
}

/// A failure that is told the same in brief and in full.
pub open spec fn plain_failure(text: Seq<char>) -> FailureModel {
    FailureModel { brief: text, full: text }
}

/// A setting that has to be there and may not be blank.
pub open spec fn required_setting(key: Seq<char>, raw: Option<Seq<char>>) -> Result<
    Seq<char>,
    FailureModel,
> {
    match raw {
        None => Err(
            FailureModel {
                brief: key + " must be set"@,
                full: key + " must be set"@ + ": environment variable not found"@,
            },
        ),
        Some(text) => if trimmed(text).len() == 0 {
            Err(plain_failure(key + " must be non-empty"@))
        } else {
            Ok(trimmed(text))
        },
    }
}

/// A result that may fail, as a model.
pub open spec fn or_failure<T: DeepView>(result: Result<T, Failure>) -> Result<
    T::V,
    FailureModel,
> {
    match result {
        Ok(value) => Ok(value.deep_view()),
        Err(failure) => Err(failure@),
    }
}

/// A setting that has to be there and may not be blank.
pub fn required_non_empty_env(key: &str, raw: &Option<String>) -> (result: Result<String, Failure>)
    ensures
        or_failure(result) == required_setting(key@, raw.deep_view()),
{
    match raw {
        None => {
            let brief = key.to_owned().concat(" must be set");
            let full = brief.clone().concat(": environment variable not found");
            Err(Failure { brief, full })
        },
        Some(text) => {
            let text = trim(text.as_str());
            if text.as_str().is_empty() {
                let complaint = key.to_owned().concat(" must be non-empty");
                Err(Failure { brief: complaint.clone(), full: complaint })
            } else {
                Ok(text)
            }
        },
    }
}

/// The client for an app, where there is a token and the app has a name.
pub open spec fn client_for(settings: FlySettingsModel, app_name: Seq<char>) -> Result<
    FlyClientModel,
    FailureModel,
> {
    match required_setting("FLY_API_TOKEN"@, settings.api_token) {
        Err(failure) => Err(
            FailureModel {
                brief: "FLY_API_TOKEN must be set (for example in .env)"@,
                full: "FLY_API_TOKEN must be set (for example in .env)"@ + ": "@ + failure.full,
            },
        ),
        Ok(api_token) => if trimmed(app_name).len() == 0 {
            Err(plain_failure("fly app name must be non-empty"@))
        } else {
            Ok(
                FlyClientModel {
                    api_token,
                    app_name: trimmed(app_name),
                    api_base_url: setting_text(
                        settings.api_base_url,
                        DEFAULT_FLY_API_BASE_URL@,
                    ),
                    region: setting_text(settings.region, "iad"@),
                    image: setting_text(settings.image, "registry.fly.io/pika-bot:latest"@),
                },
            )
        },
    }
}

/// A text without slashes at its end.
pub open spec fn without_slashes(text: Seq<char>) -> Seq<char>
    decreases text.len(),
{
    if text.len() > 0 && text.last() == '/' {
        without_slashes(text.drop_last())
    } else {
        text
    }
}

/// A text without slashes at its end.
fn cut_slashes(text: &str) -> (out: String)
    ensures
        out@ == without_slashes(text@),
{
    let chars = letters(text);
    let mut n: usize = chars.len();
    proof {
        assert(chars@.take(n as int) =~= chars@);
    }
    while n > 0 && chars[n - 1] == '/'
        invariant
            n <= chars.len(),
            without_slashes(chars@.take(n as int)) == without_slashes(text@),
        decreases n,
    {
        proof {
            assert(chars@.take(n as int).drop_last() =~= chars@.take(n - 1));
            assert(chars@.take(n as int).last() == chars@[n - 1]);
        }
        n -= 1;
    }
    proof {
        if n > 0 {
            assert(chars@.take(n as int).last() == chars@[n - 1]);
        }
        assert(chars@.take(n as int) =~= chars@.subrange(0, n as int));
    }
    text_of(&chars, 0, n)
}

/// Where the API has what belongs to the client's app.
pub open spec fn app_url(client: FlyClientModel) -> Seq<char> {
    without_slashes(client.api_base_url) + "/v1/apps/"@ + client.app_name
}

/// A request of a client.
pub open spec fn request_of(
    client: FlyClientModel,
    method: HttpMethod,
    path: Seq<char>,
    body: Option<JsonModel>,
) -> HttpRequestModel {
    HttpRequestModel {
        method,
        url: app_url(client) + path,
        bearer_token: client.api_token,
        body,
    }
}

/// The image that a machine runs: the one that is asked for, or the client's.
pub open spec fn image_of(client: FlyClientModel, image_override: Option<Seq<char>>) -> Seq<char> {
    match filled(image_override) {
        Some(image) => image,
        None => client.image,
    }
}

/// Settings as JSON: each name with its value.
pub open spec fn env_json(env: Map<Seq<char>, Seq<char>>) -> JsonModel {
    JsonModel::Object(env.map_values(|value: Seq<char>| JsonModel::Text(value)))
}

/// What a new machine is to be, as JSON.
pub open spec fn machine_json(
    client: FlyClientModel,
    name: Seq<char>,
    volume_id: Seq<char>,
    env: Map<Seq<char>, Seq<char>>,
    image_override: Option<Seq<char>>,
) -> JsonModel {
    JsonModel::empty().with("name"@, JsonModel::Text(name)).with(
        "region"@,
        JsonModel::Text(client.region),
    ).with(
        "config"@,
        JsonModel::empty().with("image"@, JsonModel::Text(image_of(client, image_override))).with(
            "env"@,
            env_json(env),
        ).with(
            "guest"@,
            JsonModel::empty().with("cpu_kind"@, JsonModel::Text("shared"@)).with(
                "cpus"@,
                JsonModel::UInt(1),
            ).with("memory_mb"@, JsonModel::UInt(256)),
        ).with(
            "mounts"@,
            JsonModel::Array(
                seq![
                    JsonModel::empty().with("volume"@, JsonModel::Text(volume_id)).with(
                        "path"@,
                        JsonModel::Text("/app/state"@),
                    ),
                ],
            ),
        ),
    )
}

/// Settings as JSON.
fn json_of_env(env: &OrdMap<String, String>) -> (json: Json)
    ensures
        json@ == env_json(env@),
{
    let n: usize = env.len();
    let ghost keys = env.listing();
    let mut json = json_object();
    let mut i: usize = 0;
    let ghost mut entries: Map<Seq<char>, JsonModel> = Map::empty();
    while i < n
        invariant
            i <= n == keys.len(),
            keys == env.listing(),
            crate::collections::lists::<String>(keys, env@.dom()),
            keys.no_duplicates(),
            json@ == JsonModel::Object(entries),
            forall|k: Seq<char>| #[trigger]
                entries.contains_key(k) <==> keys.take(i as int).contains(k),
            forall|k: Seq<char>| #[trigger]
                entries.contains_key(k) ==> env@.contains_key(k) && entries[k] == JsonModel::Text(
                    env@[k],
                ),
        decreases n - i,
    {
        let ghost key = keys[i as int];
        proof {
            assert(keys.take(i + 1) =~= keys.take(i as int).push(key));
            assert forall|k: Seq<char>| #[trigger]
                keys.take(i + 1).contains(k) <==> keys.take(i as int).contains(k) || k == key by {
                if keys.take(i as int).contains(k) {
                    let j = choose|j: int| 0 <= j < i && keys.take(i as int)[j] == k;
                    assert(keys.take(i + 1)[j] == k);
                }
                if k == key {
                    assert(keys.take(i + 1)[i as int] == k);
                }
            }
        }
        json = json.with(env.key_at(i).as_str(), json_text(env.value_at(i).as_str()));
        proof {
            entries = entries.insert(key, JsonModel::Text(env@[key]));
        }
        i += 1;
    }
    proof {
        assert(keys.take(i as int) =~= keys);
        assert(entries =~= env@.map_values(|value: Seq<char>| JsonModel::Text(value)));
    }
    json
}

impl FlyClient {
    /// The client for an app.
    pub fn with_app_name(settings: &FlySettings, app_name: &str) -> (result: Result<Self, Failure>)
        ensures
            or_failure(result) == client_for(settings@, app_name@),
    {
        let api_token = match required_non_empty_env("FLY_API_TOKEN", &settings.api_token) {
            Ok(token) => token,
            Err(failure) => {
                let brief = "FLY_API_TOKEN must be set (for example in .env)".to_owned();
                let full = brief.clone().concat(": ").concat(failure.full.as_str());
                return Err(Failure { brief, full });
            },
        };
        let app_name = trim(app_name);
        if app_name.as_str().is_empty() {
            let complaint = "fly app name must be non-empty".to_owned();
            return Err(Failure { brief: complaint.clone(), full: complaint });
        }
        Ok(
            FlyClient {
                api_token,
                app_name,
                api_base_url: optional_non_empty_env(
                    &settings.api_base_url,
                    DEFAULT_FLY_API_BASE_URL,
                ),
                region: optional_non_empty_env(&settings.region, "iad"),
                image: optional_non_empty_env(&settings.image, "registry.fly.io/pika-bot:latest"),
            },
        )
    }

    /// The client for the app that the settings name.
    pub fn from_settings(settings: &FlySettings) -> (result: Result<Self, Failure>)
        ensures
            or_failure(result) == client_for(
                settings@,
                setting_text(settings@.app_name, "pika-bot"@),
            ),
    {
        let app_name = optional_non_empty_env(&settings.app_name, "pika-bot");
        FlyClient::with_app_name(settings, app_name.as_str())
    }

    /// The app.
    pub fn app_name(&self) -> (name: &str)
        ensures
            name@ == self@.app_name,
    {
        self.app_name.as_str()
    }

    /// Where the API has what belongs to the app.
    pub fn base_url(&self) -> (url: String)
        ensures
            url@ == app_url(self@),
    {
        cut_slashes(self.api_base_url.as_str()).concat("/v1/apps/").concat(self.app_name.as_str())
    }

    /// A request.
    fn request(&self, method: HttpMethod, path: &str, body: Option<Json>) -> (request: HttpRequest)
        ensures
            request@ == request_of(self@, method, path@, body.deep_view()),
    {
        HttpRequest {
            method,
            url: self.base_url().concat(path),
            bearer_token: self.api_token.clone(),
            body,
        }
    }

    /// Asks for a volume of one gigabyte.
    pub fn create_volume(&self, name: &str) -> (request: HttpRequest)
        ensures
            request@ == request_of(
                self@,
                HttpMethod::Post,
                "/volumes"@,
                Some(
                    JsonModel::empty().with("name"@, JsonModel::Text(name@)).with(
                        "region"@,
                        JsonModel::Text(self@.region),
                    ).with("size_gb"@, JsonModel::UInt(1)),
                ),
            ),
    {
        let body = json_object().with("name", json_text(name)).with(
            "region",
            json_text(self.region.as_str()),
        ).with("size_gb", json_uint(1));
        self.request(HttpMethod::Post, "/volumes", Some(body))
    }

    /// Asks for a machine with a volume.
    pub fn create_machine(
        &self,
        name: &str,
        volume_id: &str,
        env: &OrdMap<String, String>,
        image_override: &Option<String>,
    ) -> (request: HttpRequest)
        ensures
            request@ == request_of(
                self@,
                HttpMethod::Post,
                "/machines"@,
                Some(
                    machine_json(self@, name@, volume_id@, env@, image_override.deep_view()),
                ),
            ),
    {
        let image = match filled_text(image_override) {
            Some(image) => image,
            None => self.image.clone(),
        };
        let mut mounts: Vec<Json> = Vec::new();
        mounts.push(
            json_object().with("volume", json_text(volume_id)).with(
                "path",
                json_text("/app/state"),
            ),
        );
        proof {
            assert(mounts.deep_view() =~= seq![
                JsonModel::empty().with("volume"@, JsonModel::Text(volume_id@)).with(
                    "path"@,
                    JsonModel::Text("/app/state"@),
                ),
            ]);
        }
        let guest = json_object().with("cpu_kind", json_text("shared")).with(
            "cpus",
            json_uint(1),
        ).with("memory_mb", json_uint(256));
        let config = json_object().with("image", json_text(image.as_str())).with(
            "env",
            json_of_env(env),
        ).with("guest", guest).with("mounts", json_array(mounts));
        let body = json_object().with("name", json_text(name)).with(
            "region",
            json_text(self.region.as_str()),
        ).with("config", config);
        self.request(HttpMethod::Post, "/machines", Some(body))
    }

    /// Asks about a machine.
    pub fn get_machine(&self, machine_id: &str) -> (request: HttpRequest)
        ensures
            request@ == request_of(self@, HttpMethod::Get, "/machines/"@ + machine_id@, None),
    {
        self.request(HttpMethod::Get, "/machines/".to_owned().concat(machine_id).as_str(), None)
    }

    /// Asks a machine to stop, with ten seconds to do so.
    pub fn stop_machine(&self, machine_id: &str) -> (request: HttpRequest)
        ensures
            request@ == request_of(
                self@,
                HttpMethod::Post,
                "/machines/"@ + machine_id@ + "/stop"@,
                Some(
                    JsonModel::empty().with("signal"@, JsonModel::Text("SIGTERM"@)).with(
                        "timeout"@,
                        JsonModel::Text("10s"@),
                    ),
                ),
            ),
    {
        let body = json_object().with("signal", json_text("SIGTERM")).with(
            "timeout",
            json_text("10s"),
        );
        self.request(
            HttpMethod::Post,
            "/machines/".to_owned().concat(machine_id).concat("/stop").as_str(),
            Some(body),
        )
    }

    /// Asks that a machine be deleted, whatever it does.
    pub fn delete_machine(&self, machine_id: &str) -> (request: HttpRequest)
        ensures
            request@ == request_of(
                self@,
                HttpMethod::Delete,
                "/machines/"@ + machine_id@ + "?force=true"@,
                None,
            ),
    {
        self.request(
            HttpMethod::Delete,
            "/machines/".to_owned().concat(machine_id).concat("?force=true").as_str(),
            None,
        )
    }

    /// Asks that a volume be deleted.
    pub fn delete_volume(&self, volume_id: &str) -> (request: HttpRequest)
        ensures
            request@ == request_of(self@, HttpMethod::Delete, "/volumes/"@ + volume_id@, None),
    {
        self.request(HttpMethod::Delete, "/volumes/".to_owned().concat(volume_id).as_str(), None)
    }
}

/// The body of a reply that all went well with, or a complaint.
pub open spec fn accepted_body(what: Seq<char>, reply: HttpReplyModel) -> Result<
    Seq<char>,
    Seq<char>,
> {
    if is_success(reply.status) {
        Ok(reply.body)
    } else {
        Err("failed to "@ + what + ": "@ + status_text(reply.status) + " "@ + reply.body)
    }
}

/// The body of a reply that all went well with, or a complaint; `what` says what
/// was asked for, such as "create volume".
pub fn accept_reply(what: &str, reply: HttpReply) -> (result: Result<String, String>)
    requires
        100 <= reply.status < 1000,
    ensures
        text_outcome(result) == accepted_body(what@, reply@),
{
    if reply.status >= 200 && reply.status < 300 {
        return Ok(reply.body);
    }
    Err(
        "failed to ".to_owned().concat(what).concat(": ").concat(
            show_status(reply.status).as_str(),
        ).concat(" ").concat(reply.body.as_str()),
    )
}

/// What a reply to stopping a machine means.
pub open spec fn stop_meaning(reply: HttpReplyModel) -> Result<StopMachineOutcome, FlyApiErrorModel> {
    if is_success(reply.status) {
        Ok(StopMachineOutcome::Stopped)
    } else if reply.status == 404 {
        Ok(StopMachineOutcome::AlreadyGone)
    } else {
        Err(
            FlyApiErrorModel {
                operation: "stop_machine"@,
                status_code: Some(reply.status),
                detail: reply.body,
            },
        )
    }
}

/// What a reply to deleting a machine means.
pub open spec fn delete_machine_meaning(reply: HttpReplyModel) -> Result<
    DeleteMachineOutcome,
    FlyApiErrorModel,
> {
    if is_success(reply.status) {
        Ok(DeleteMachineOutcome::Deleted)
    } else if reply.status == 404 {
        Ok(DeleteMachineOutcome::AlreadyGone)
    } else {
        Err(
            FlyApiErrorModel {
                operation: "delete_machine"@,
                status_code: Some(reply.status),
                detail: reply.body,
            },
        )
    }
}

/// What a reply to deleting a volume means: one that is in use conflicts.
pub open spec fn delete_volume_meaning(reply: HttpReplyModel) -> Result<
    DeleteVolumeOutcome,
    FlyApiErrorModel,
> {
    if is_success(reply.status) {
        Ok(DeleteVolumeOutcome::Deleted)
    } else if reply.status == 404 {
        Ok(DeleteVolumeOutcome::AlreadyGone)
    } else if reply.status == 409 || reply.status == 422 {
        Ok(DeleteVolumeOutcome::Conflict)
    } else {
        Err(
            FlyApiErrorModel {
                operation: "delete_volume"@,
                status_code: Some(reply.status),
                detail: reply.body,
            },
        )
    }
}

/// A result of the API, as a model.
pub open spec fn api_outcome<T: DeepView>(result: Result<T, FlyApiError>) -> Result<
    T::V,
    FlyApiErrorModel,
> {
    match result {
        Ok(value) => Ok(value.deep_view()),
        Err(error) => Err(error@),
    }
}

/// What a reply to stopping a machine means.
pub fn stop_machine_outcome(reply: HttpReply) -> (result: Result<StopMachineOutcome, FlyApiError>)
    ensures
        api_outcome(result) == stop_meaning(reply@),
{
    if reply.status >= 200 && reply.status < 300 {
        return Ok(StopMachineOutcome::Stopped);
    }
    if reply.status == 404 {
        return Ok(StopMachineOutcome::AlreadyGone);
    }
    Err(FlyApiError::provider("stop_machine", reply.status, reply.body))
}

/// What a reply to deleting a machine means.
pub fn delete_machine_outcome(reply: HttpReply) -> (result: Result<DeleteMachineOutcome, FlyApiError>)
    ensures
        api_outcome(result) == delete_machine_meaning(reply@),
{
    if reply.status >= 200 && reply.status < 300 {
        return Ok(DeleteMachineOutcome::Deleted);
    }
    if reply.status == 404 {
        return Ok(DeleteMachineOutcome::AlreadyGone);
    }
    Err(FlyApiError::provider("delete_machine", reply.status, reply.body))
}

/// What a reply to deleting a volume means.
pub fn delete_volume_outcome(reply: HttpReply) -> (result: Result<DeleteVolumeOutcome, FlyApiError>)
    ensures
        api_outcome(result) == delete_volume_meaning(reply@),
{
    if reply.status >= 200 && reply.status < 300 {
        return Ok(DeleteVolumeOutcome::Deleted);
    }
    if reply.status == 404 {
        return Ok(DeleteVolumeOutcome::AlreadyGone);
    }
    if reply.status == 409 || reply.status == 422 {
        return Ok(DeleteVolumeOutcome::Conflict);
    }
    Err(FlyApiError::provider("delete_volume", reply.status, reply.body))
}

/// The address of an app does not depend on slashes at the end of the API's.
pub proof fn slashes_do_not_matter(client: FlyClientModel)
    ensures
        app_url(
            FlyClientModel { api_base_url: client.api_base_url + "/"@, ..client },
        ) == app_url(client),
{
    reveal_strlit("/");
    let longer = client.api_base_url + "/"@;
    assert(longer.drop_last() =~= client.api_base_url);
    assert(longer.last() == '/');
}

} // verus!
