//! What is done with a runtime once it is there: welcomes are handed to it, and it
//! is torn down, when its owner says so or when its lease is over.
use vstd::prelude::*;
use crate::agent::metadata::{
    descriptor_of, is_due, next_retry, payload_error, payload_error_text, schedule_retry,
    teardown_needs_retry, teardown_payload_is_failed, teardown_payload_requires_retry,
    teardown_state,
};
use crate::agent::policy::{capped_sum, text_outcome};
use crate::agent::service::{
    refuse_runtime, runtime_not_found, runtime_visible, step_or_answer, AgentControlService,
    AgentControlServiceModel,
};
use crate::agent::state::AgentControlStateModel;
use crate::agent::types::{
    answered, push_status, refused, status, AgentControlStatusEnvelope,
    AgentControlStatusEnvelopeModel, CommandOutcome, CommandOutcomeModel, Failure, FailureModel,
    RuntimeLifecyclePhase, RuntimeRecord, RuntimeRecordModel, TeardownRetryMetadata,
    TeardownRetryMetadataModel,
};
use crate::collections::Replicate;
use crate::json::{
    json_null, json_object, json_text, json_uint, write_json, written_json, Json, JsonModel,
};
use crate::text::{decimal, decimal_text};

verus! {

/// A status about a runtime, without a payload.
pub open spec fn runtime_status(
    request_id: Seq<char>,
    phase: RuntimeLifecyclePhase,
    runtime: RuntimeRecordModel,
    message: Seq<char>,
    payload: JsonModel,
) -> AgentControlStatusEnvelopeModel {
    status(
        request_id,
        phase,
        Some(runtime.descriptor.runtime_id),
        Some(runtime.descriptor.provider),
        message,
        payload,
    )
}

/// Adds a status about a runtime.
fn push_runtime_status(
    statuses: &mut Vec<AgentControlStatusEnvelope>,
    request_id: &str,
    phase: RuntimeLifecyclePhase,
    runtime: &RuntimeRecord,
    message: &str,
    payload: Json,
)
    ensures
        final(statuses).deep_view() == old(statuses).deep_view().push(
            runtime_status(request_id@, phase, runtime@, message@, payload@),
        ),
{
    push_status(
        statuses,
        AgentControlStatusEnvelope::v1(
            request_id,
            phase,
            Some(runtime.descriptor.runtime_id.clone()),
            Some(runtime.descriptor.provider),
            message,
            payload,
        ),
    );
}

/// A runtime that its provider is to do something with.
#[derive(Debug, PartialEq, Eq)]
pub struct RuntimeJob {
    pub request_id: String,
    pub statuses: Vec<AgentControlStatusEnvelope>,
    pub runtime: RuntimeRecord,
}

/// What a [`RuntimeJob`] holds.
#[verifier::ext_equal]
pub struct RuntimeJobModel {
    pub request_id: Seq<char>,
    pub statuses: Seq<AgentControlStatusEnvelopeModel>,
    pub runtime: RuntimeRecordModel,
}

impl DeepView for RuntimeJob {
    type V = RuntimeJobModel;

    open spec fn deep_view(&self) -> RuntimeJobModel {
        RuntimeJobModel {
            request_id: self.request_id.deep_view(),
            statuses: self.statuses.deep_view(),
            runtime: self.runtime.deep_view(),
        }
    }
}

impl View for RuntimeJob {
    type V = RuntimeJobModel;

    open spec fn view(&self) -> RuntimeJobModel {
        self.deep_view()
    }
}

impl Replicate for RuntimeJob {
    fn replicate(&self) -> (copy: Self) {
        RuntimeJob {
            request_id: self.request_id.replicate(),
            statuses: self.statuses.replicate(),
            runtime: self.runtime.replicate(),
        }
    }
}

impl Clone for RuntimeJob {
    fn clone(&self) -> (copy: Self)
        ensures
            copy@ == self@,
    {
        self.replicate()
    }
}

/// What taking up a welcome comes to: a job for the provider, or a refusal.
pub open spec fn begun_welcome(
    service: AgentControlServiceModel,
    requester: Seq<char>,
    request_id: Seq<char>,
    runtime_id: Seq<char>,
    statuses: Seq<AgentControlStatusEnvelopeModel>,
) -> Result<RuntimeJobModel, CommandOutcomeModel> {
    if !runtime_visible(service, requester, runtime_id) {
        Err(runtime_not_found(statuses, request_id, runtime_id))
    } else {
        let runtime = service.state.runtimes[runtime_id];
        Ok(
            RuntimeJobModel {
                request_id,
                statuses: statuses.push(
                    runtime_status(
                        request_id,
                        RuntimeLifecyclePhase::Provisioning,
                        runtime,
                        "processing welcome"@,
                        JsonModel::Null,
                    ),
                ),
                runtime,
            },
        )
    }
}

/// The answer to a welcome once the provider has had it.
pub open spec fn welcome_answer(job: RuntimeJobModel, processed: Result<JsonModel, Seq<char>>) -> CommandOutcomeModel {
    match processed {
        Ok(payload) => answered(
            job.statuses.push(
                runtime_status(
                    job.request_id,
                    RuntimeLifecyclePhase::Ready,
                    job.runtime,
                    "welcome processed"@,
                    JsonModel::Null,
                ),
            ),
            job.request_id,
            descriptor_of(job.runtime),
            payload,
        ),
        Err(error) => refused(
            job.statuses.push(
                runtime_status(
                    job.request_id,
                    RuntimeLifecyclePhase::Failed,
                    job.runtime,
                    "process_welcome failed"@,
                    JsonModel::Null,
                ),
            ),
            job.request_id,
            "process_welcome_failed"@,
            Some("check provider runtime state and welcome payload"@),
            Some("provider process_welcome call failed: "@ + error),
        ),
    }
}

/// How often a runtime's teardown was tried before.
pub open spec fn attempts_of(runtime: RuntimeRecordModel) -> u32 {
    match runtime.teardown_retry {
        Some(retry) => retry.attempt_count,
        None => 0,
    }
}

/// How often a runtime's teardown was tried before.
fn count_attempts(runtime: &RuntimeRecord) -> (count: u32)
    ensures
        count == attempts_of(runtime@),
{
    match &runtime.teardown_retry {
        Some(retry) => retry.attempt_count,
        None => 0,
    }
}

/// A runtime that is being torn down.
pub open spec fn in_teardown(
    runtime: RuntimeRecordModel,
    teardown_retry: Option<TeardownRetryMetadataModel>,
) -> RuntimeRecordModel {
    RuntimeRecordModel {
        descriptor: crate::agent::types::RuntimeDescriptorModel {
            lifecycle_phase: RuntimeLifecyclePhase::Teardown,
            ..runtime.descriptor
        },
        teardown_retry,
        ..runtime
    }
}

/// The service with a runtime as it now is.
pub open spec fn with_runtime(service: AgentControlServiceModel, runtime: RuntimeRecordModel) -> AgentControlServiceModel {
    AgentControlServiceModel {
        state: AgentControlStateModel {
            runtimes: service.state.runtimes.insert(runtime.descriptor.runtime_id, runtime),
            ..service.state
        },
        ..service
    }
}

/// The retry that a teardown leaves behind.
pub open spec fn retry_after(
    previous_attempts: u32,
    torn_down: Result<JsonModel, Seq<char>>,
    now: u64,
) -> Option<TeardownRetryMetadataModel> {
    match torn_down {
        Err(error) => Some(next_retry(previous_attempts, error, now)),
        Ok(payload) => if teardown_needs_retry(payload) {
            Some(next_retry(previous_attempts, payload_error(payload), now))
        } else {
            None
        },
    }
}

/// The retry that a teardown leaves behind.
fn plan_retry(previous_attempts: u32, torn_down: &Result<Json, String>, now: u64) -> (retry: Option<
    TeardownRetryMetadata,
>)
    ensures
        retry.deep_view() == retry_after(previous_attempts, text_outcome(*torn_down), now),
{
    match torn_down {
        Err(error) => Some(schedule_retry(previous_attempts, error.clone(), now)),
        Ok(payload) => {
            if teardown_payload_requires_retry(payload) {
                Some(schedule_retry(previous_attempts, payload_error_text(payload), now))
            } else {
                None
            }
        },
    }
}

/// A runtime that its provider is to tear down.
#[derive(Debug, PartialEq, Eq)]
pub struct TeardownJob {
    pub request_id: String,
    pub statuses: Vec<AgentControlStatusEnvelope>,
    pub runtime: RuntimeRecord,
    pub previous_attempts: u32,
    pub begun_at: u64,
}

/// What a [`TeardownJob`] holds.
#[verifier::ext_equal]
pub struct TeardownJobModel {
    pub request_id: Seq<char>,
    pub statuses: Seq<AgentControlStatusEnvelopeModel>,
    pub runtime: RuntimeRecordModel,
    pub previous_attempts: u32,
    pub begun_at: u64,
}

impl DeepView for TeardownJob {
    type V = TeardownJobModel;

    open spec fn deep_view(&self) -> TeardownJobModel {
        TeardownJobModel {
            request_id: self.request_id.deep_view(),
            statuses: self.statuses.deep_view(),
            runtime: self.runtime.deep_view(),
            previous_attempts: self.previous_attempts.deep_view(),
            begun_at: self.begun_at.deep_view(),
        }
    }
}

impl View for TeardownJob {
    type V = TeardownJobModel;

    open spec fn view(&self) -> TeardownJobModel {
        self.deep_view()
    }
}

impl Replicate for TeardownJob {
    fn replicate(&self) -> (copy: Self) {
        TeardownJob {
            request_id: self.request_id.replicate(),
            statuses: self.statuses.replicate(),
            runtime: self.runtime.replicate(),
            previous_attempts: self.previous_attempts.replicate(),
            begun_at: self.begun_at.replicate(),
        }
    }
}

impl Clone for TeardownJob {
    fn clone(&self) -> (copy: Self)
        ensures
            copy@ == self@,
    {
        self.replicate()
    }
}

/// What taking up a teardown comes to: the runtime is on its way out, and the
/// provider is to be asked; or a refusal.
pub open spec fn begun_teardown(
    service: AgentControlServiceModel,
    requester: Seq<char>,
    request_id: Seq<char>,
    runtime_id: Seq<char>,
    statuses: Seq<AgentControlStatusEnvelopeModel>,
    now: u64,
) -> (AgentControlServiceModel, Result<TeardownJobModel, CommandOutcomeModel>) {
    if !runtime_visible(service, requester, runtime_id) {
        (service, Err(runtime_not_found(statuses, request_id, runtime_id)))
    } else {
        let before = service.state.runtimes[runtime_id];
        let runtime = in_teardown(before, None);
        (
            with_runtime(service, runtime),
            Ok(
                TeardownJobModel {
                    request_id,
                    statuses: statuses.push(
                        runtime_status(
                            request_id,
                            RuntimeLifecyclePhase::Teardown,
                            before,
                            "teardown in progress"@,
                            JsonModel::Null,
                        ),
                    ),
                    runtime,
                    previous_attempts: attempts_of(before),
                    begun_at: now,
                },
            ),
        )
    }
}

/// What a teardown comes to that the provider could not do: it is tried again
/// later.
pub open spec fn failed_teardown(
    service: AgentControlServiceModel,
    job: TeardownJobModel,
    failure: FailureModel,
) -> (AgentControlServiceModel, CommandOutcomeModel) {
    let retry = next_retry(job.previous_attempts, failure.full, job.begun_at);
    let runtime = RuntimeRecordModel { teardown_retry: Some(retry), ..job.runtime };
    (
        with_runtime(service, runtime),
        refused(
            job.statuses.push(
                runtime_status(
                    job.request_id,
                    RuntimeLifecyclePhase::Failed,
                    runtime,
                    "teardown failed; retry scheduled"@,
                    JsonModel::empty().with(
                        "next_retry_at"@,
                        JsonModel::optional_uint(retry.next_retry_at),
                    ).with("attempt_count"@, JsonModel::UInt(retry.attempt_count as u64)),
                ),
            ),
            job.request_id,
            "teardown_failed"@,
            Some("manual cleanup may be required"@),
            Some(
                failure.brief + "; next_retry_at="@ + decimal_text(
                    match retry.next_retry_at {
                        Some(at) => at as nat,
                        None => 0,
                    },
                ),
            ),
        ),
    )
}

/// A payload with a note that writing to disk failed.
pub open spec fn with_failure_note(
    payload: JsonModel,
    key: Seq<char>,
    error_key: Seq<char>,
    error: Option<Seq<char>>,
) -> JsonModel {
    match error {
        None => payload,
        Some(e) => {
            let object = match payload {
                JsonModel::Object(_) => payload,
                other => JsonModel::empty().with("provider_payload"@, other),
            };
            object.with(key, JsonModel::Text("failed"@)).with(error_key, JsonModel::Text(e))
        },
    }
}

/// The answer to a teardown that the provider has done, with what went wrong in
/// writing to disk before and after it.
pub open spec fn teardown_answer(
    job: TeardownJobModel,
    payload: JsonModel,
    transition_error: Option<Seq<char>>,
    persist_error: Option<Seq<char>>,
) -> CommandOutcomeModel {
    let statuses = if persist_error is Some {
        job.statuses.push(
            runtime_status(
                job.request_id,
                RuntimeLifecyclePhase::Teardown,
                job.runtime,
                "teardown completed but state persistence failed"@,
                JsonModel::Null,
            ),
        )
    } else {
        job.statuses
    };
    let noted = with_failure_note(
        with_failure_note(
            payload,
            "transition_state_persist"@,
            "transition_state_persist_error"@,
            transition_error,
        ),
        "state_persist"@,
        "state_persist_error"@,
        persist_error,
    );
    if teardown_state(noted) == Some("failed"@) {
        refused(
            statuses,
            job.request_id,
            "teardown_failed"@,
            Some("manual cleanup may be required"@),
            Some(written_json(noted)),
        )
    } else {
        answered(statuses, job.request_id, descriptor_of(job.runtime), noted)
    }
}

/// A payload with a note that writing to disk failed.
fn note_failure(payload: Json, key: &str, error_key: &str, error: &Option<String>) -> (json: Json)
    ensures
        json@ == with_failure_note(payload@, key@, error_key@, error.deep_view()),
{
    match error {
        None => payload,
        Some(error) => {
            let object = if payload.is_object() {
                payload
            } else {
                json_object().with("provider_payload", payload)
            };
            object.with(key, json_text("failed")).with(error_key, json_text(error.as_str()))
        },
    }
}

/// A runtime that is due and that its provider is to tear down.
#[derive(Debug, PartialEq, Eq)]
pub struct ReapJob {
    pub runtime: RuntimeRecord,
    pub previous_attempts: u32,
}

/// What a [`ReapJob`] holds.
#[verifier::ext_equal]
pub struct ReapJobModel {
    pub runtime: RuntimeRecordModel,
    pub previous_attempts: u32,
}

impl DeepView for ReapJob {
    type V = ReapJobModel;

    open spec fn deep_view(&self) -> ReapJobModel {
        ReapJobModel {
            runtime: self.runtime.deep_view(),
            previous_attempts: self.previous_attempts.deep_view(),
        }
    }
}

impl View for ReapJob {
    type V = ReapJobModel;

    open spec fn view(&self) -> ReapJobModel {
        self.deep_view()
    }
}

impl Replicate for ReapJob {
    fn replicate(&self) -> (copy: Self) {
        ReapJob {
            runtime: self.runtime.replicate(),
            previous_attempts: self.previous_attempts.replicate(),
        }
    }
}

impl Clone for ReapJob {
    fn clone(&self) -> (copy: Self)
        ensures
            copy@ == self@,
    {
        self.replicate()
    }
}

/// The service after a runtime that is due was taken up: it is on its way out.
pub open spec fn begun_reap(service: AgentControlServiceModel, runtime_id: Seq<char>) -> (
    AgentControlServiceModel,
    Option<ReapJobModel>,
) {
    if service.state.runtimes.contains_key(runtime_id) {
        let before = service.state.runtimes[runtime_id];
        let runtime = in_teardown(before, before.teardown_retry);
        (
            with_runtime(service, runtime),
            Some(ReapJobModel { runtime, previous_attempts: attempts_of(before) }),
        )
    } else {
        (service, None)
    }
}

/// The runtime where its way out could not be written to disk: it is due at once,
/// and this does not count as an attempt.
pub open spec fn unpersisted_reap(job: ReapJobModel, error: Seq<char>, now: u64) -> RuntimeRecordModel {
    RuntimeRecordModel {
        teardown_retry: Some(
            TeardownRetryMetadataModel {
                attempt_count: job.previous_attempts,
                last_error: Some("persist teardown transition failed: "@ + error),
                next_retry_at: Some(now),
                last_attempt_at: None,
            },
        ),
        ..job.runtime
    }
}

/// The runtime once its provider was asked to tear it down.
pub open spec fn reaped(job: ReapJobModel, torn_down: Result<JsonModel, Seq<char>>, now: u64) -> RuntimeRecordModel {
    RuntimeRecordModel {
        teardown_retry: retry_after(job.previous_attempts, torn_down, now),
        ..job.runtime
    }
}

impl AgentControlService {
    /// Takes up a welcome.
    pub fn begin_process_welcome(
        &self,
        requester_pubkey_hex: &str,
        request_id: String,
        runtime_id: &String,
        statuses: Vec<AgentControlStatusEnvelope>,
    ) -> (begun: Result<RuntimeJob, CommandOutcome>)
        ensures
            step_or_answer(begun) == begun_welcome(
                self@,
                requester_pubkey_hex@,
                request_id@,
                runtime_id@,
                statuses.deep_view(),
            ),
    {
        let runtime = match self.visible_runtime(requester_pubkey_hex, runtime_id) {
            Some(runtime) => runtime,
            None => {
                return Err(refuse_runtime(statuses, request_id, runtime_id.clone()));
            },
        };
        let mut statuses = statuses;
        push_runtime_status(
            &mut statuses,
            request_id.as_str(),
            RuntimeLifecyclePhase::Provisioning,
            &runtime,
            "processing welcome",
            json_null(),
        );
        Ok(RuntimeJob { request_id, statuses, runtime })
    }

    /// Takes up a teardown that was asked for `now`.
    pub fn begin_teardown(
        &mut self,
        requester_pubkey_hex: &str,
        request_id: String,
        runtime_id: &String,
        statuses: Vec<AgentControlStatusEnvelope>,
        now: u64,
    ) -> (begun: Result<TeardownJob, CommandOutcome>)
        ensures
            (final(self)@, step_or_answer(begun)) == begun_teardown(
                old(self)@,
                requester_pubkey_hex@,
                request_id@,
                runtime_id@,
                statuses.deep_view(),
                now,
            ),
    {
        let mut runtime = match self.visible_runtime(requester_pubkey_hex, runtime_id) {
            Some(runtime) => runtime,
            None => {
                return Err(refuse_runtime(statuses, request_id, runtime_id.clone()));
            },
        };
        let mut statuses = statuses;
        push_runtime_status(
            &mut statuses,
            request_id.as_str(),
            RuntimeLifecyclePhase::Teardown,
            &runtime,
            "teardown in progress",
            json_null(),
        );
        let previous_attempts: u32 = count_attempts(&runtime);
        runtime.descriptor.lifecycle_phase = RuntimeLifecyclePhase::Teardown;
        runtime.teardown_retry = None;
        self.put_runtime(&runtime);
        Ok(TeardownJob { request_id, statuses, runtime, previous_attempts, begun_at: now })
    }

    /// Keeps a runtime as it now is.
    fn put_runtime(&mut self, runtime: &RuntimeRecord)
        ensures
            final(self)@ == with_runtime(old(self)@, runtime@),
    {
        self.state.runtimes.insert(runtime.descriptor.runtime_id.clone(), runtime.replicate());
    }

    /// Answers a teardown that the provider could not do.
    pub fn teardown_failed(&mut self, job: TeardownJob, failure: Failure) -> (outcome: CommandOutcome)
        ensures
            (final(self)@, outcome@) == failed_teardown(old(self)@, job@, failure@),
    {
        let mut statuses = job.statuses;
        let mut runtime = job.runtime;
        let retry = schedule_retry(job.previous_attempts, failure.full, job.begun_at);
        let next_retry_at = retry.next_retry_at;
        let attempt_count: u32 = retry.attempt_count;
        runtime.teardown_retry = Some(retry);
        self.put_runtime(&runtime);
        push_runtime_status(
            &mut statuses,
            job.request_id.as_str(),
            RuntimeLifecyclePhase::Failed,
            &runtime,
            "teardown failed; retry scheduled",
            json_object().with("next_retry_at", Json::optional_uint(next_retry_at)).with(
                "attempt_count",
                json_uint(attempt_count as u64),
            ),
        );
        let at: u64 = match next_retry_at {
            Some(at) => at,
            None => 0,
        };
        CommandOutcome::error(
            statuses,
            job.request_id,
            "teardown_failed",
            Some("manual cleanup may be required".to_owned()),
            Some(failure.brief.concat("; next_retry_at=").concat(decimal(at).as_str())),
        )
    }

    /// Takes over what the provider's teardown came to.
    pub fn teardown_done(&mut self, job: TeardownJob, payload: &Json) -> (done: TeardownJob)
        ensures
            done@ == (TeardownJobModel {
                runtime: RuntimeRecordModel {
                    teardown_retry: retry_after(
                        job@.previous_attempts,
                        Ok(payload@),
                        job@.begun_at,
                    ),
                    ..job@.runtime
                },
                ..job@
            }),
            final(self)@ == with_runtime(old(self)@, done@.runtime),
    {
        let mut job = job;
        job.runtime.teardown_retry = plan_retry(
            job.previous_attempts,
            &Ok(payload.replicate()),
            job.begun_at,
        );
        self.put_runtime(&job.runtime);
        job
    }

    /// Takes up a runtime that is due.
    pub fn begin_reap(&mut self, runtime_id: &String) -> (job: Option<ReapJob>)
        ensures
            (final(self)@, job.deep_view()) == begun_reap(old(self)@, runtime_id@),
    {
        let mut runtime = match self.state.runtimes.get(runtime_id) {
            Some(runtime) => runtime.replicate(),
            None => {
                return None;
            },
        };
        let previous_attempts: u32 = count_attempts(&runtime);
        runtime.descriptor.lifecycle_phase = RuntimeLifecyclePhase::Teardown;
        self.put_runtime(&runtime);
        Some(ReapJob { runtime, previous_attempts })
    }

    /// Puts a runtime off whose way out could not be written to disk.
    pub fn reap_not_persisted(&mut self, job: ReapJob, error: &str, now: u64)
        ensures
            final(self)@ == with_runtime(old(self)@, unpersisted_reap(job@, error@, now)),
    {
        let mut runtime = job.runtime;
        runtime.teardown_retry = Some(
            TeardownRetryMetadata {
                attempt_count: job.previous_attempts,
                last_error: Some("persist teardown transition failed: ".to_owned().concat(error)),
                next_retry_at: Some(now),
                last_attempt_at: None,
            },
        );
        self.put_runtime(&runtime);
    }

    /// Takes over what the provider's teardown of a runtime that was due came to.
    pub fn reap_finished(&mut self, job: ReapJob, torn_down: &Result<Json, String>, now: u64)
        ensures
            final(self)@ == with_runtime(
                old(self)@,
                reaped(job@, text_outcome(*torn_down), now),
            ),
    {
        let mut runtime = job.runtime;
        runtime.teardown_retry = plan_retry(job.previous_attempts, torn_down, now);
        self.put_runtime(&runtime);
    }
}

/// Answers a welcome once the provider has had it.
pub fn conclude_process_welcome(job: RuntimeJob, processed: Result<Json, String>) -> (outcome:
    CommandOutcome)
    ensures
        outcome@ == welcome_answer(job@, text_outcome(processed)),
{
    let mut statuses = job.statuses;
    match processed {
        Ok(payload) => {
            push_runtime_status(
                &mut statuses,
                job.request_id.as_str(),
                RuntimeLifecyclePhase::Ready,
                &job.runtime,
                "welcome processed",
                json_null(),
            );
            CommandOutcome::result(
                statuses,
                job.request_id,
                job.runtime.descriptor_with_lease(),
                payload,
            )
        },
        Err(error) => {
            push_runtime_status(
                &mut statuses,
                job.request_id.as_str(),
                RuntimeLifecyclePhase::Failed,
                &job.runtime,
                "process_welcome failed",
                json_null(),
            );
            CommandOutcome::error(
                statuses,
                job.request_id,
                "process_welcome_failed",
                Some("check provider runtime state and welcome payload".to_owned()),
                Some(
                    "provider process_welcome call failed: ".to_owned().concat(error.as_str()),
                ),
            )
        },
    }
}

/// Answers a teardown that the provider has done.
pub fn conclude_teardown(
    job: TeardownJob,
    payload: Json,
    transition_error: &Option<String>,
    persist_error: &Option<String>,
) -> (outcome: CommandOutcome)
    ensures
        outcome@ == teardown_answer(
            job@,
            payload@,
            transition_error.deep_view(),
            persist_error.deep_view(),
        ),
{
    let mut statuses = job.statuses;
    if persist_error.is_some() {
        push_runtime_status(
            &mut statuses,
            job.request_id.as_str(),
            RuntimeLifecyclePhase::Teardown,
            &job.runtime,
            "teardown completed but state persistence failed",
            json_null(),
        );
    }
    let noted = note_failure(
        note_failure(
            payload,
            "transition_state_persist",
            "transition_state_persist_error",
            transition_error,
        ),
        "state_persist",
        "state_persist_error",
        persist_error,
    );
    if teardown_payload_is_failed(&noted) {
        return CommandOutcome::error(
            statuses,
            job.request_id,
            "teardown_failed",
            Some("manual cleanup may be required".to_owned()),
            Some(write_json(&noted)),
        );
    }
    CommandOutcome::result(
        statuses,
        job.request_id,
        job.runtime.descriptor_with_lease(),
        noted,
    )
}

/// A runtime whose teardown went through, or failed for good, is never due again.
pub proof fn torn_down_runtime_rests(
    job: ReapJobModel,
    payload: JsonModel,
    now: u64,
    later: u64,
)
    requires
        job.runtime.descriptor.lifecycle_phase == RuntimeLifecyclePhase::Teardown,
        !teardown_needs_retry(payload),
    ensures
        !is_due(reaped(job, Ok(payload), now), later),
{
}

/// A runtime whose teardown failed is due again when its wait is over, and not
/// before.
pub proof fn failed_teardown_is_retried(
    job: ReapJobModel,
    error: Seq<char>,
    now: u64,
    later: u64,
)
    requires
        job.runtime.descriptor.lifecycle_phase == RuntimeLifecyclePhase::Teardown,
    ensures
        ({
            let attempt = if job.previous_attempts < u32::MAX {
                (job.previous_attempts + 1) as u32
            } else {
                u32::MAX
            };
            is_due(reaped(job, Err(error), now), later) <==> later >= capped_sum(
                now,
                crate::agent::metadata::backoff(attempt),
            )
        }),
{
}

/// A runtime whose way out could not be written to disk is due again at once, and
/// the failure does not count as an attempt.
pub proof fn unpersisted_teardown_is_due(job: ReapJobModel, error: Seq<char>, now: u64)
    ensures
        is_due(unpersisted_reap(job, error, now), now),
        attempts_of(unpersisted_reap(job, error, now)) == job.previous_attempts,
{
}

/// From the moment a teardown is taken up the runtime is on its way out, whatever
/// the provider then does, and no other runtime is touched.
pub proof fn teardown_leaves_others(
    service: AgentControlServiceModel,
    requester: Seq<char>,
    request_id: Seq<char>,
    runtime_id: Seq<char>,
    statuses: Seq<AgentControlStatusEnvelopeModel>,
    now: u64,
    failure: FailureModel,
    other: Seq<char>,
)
    requires
        runtime_visible(service, requester, runtime_id),
        service.state.runtimes[runtime_id].descriptor.runtime_id == runtime_id,
        other != runtime_id,
    ensures
        ({
            let (begun, job) = begun_teardown(
                service,
                requester,
                request_id,
                runtime_id,
                statuses,
                now,
            );
            let failed = failed_teardown(begun, job->Ok_0, failure).0;
            &&& begun.state.runtimes[runtime_id].descriptor.lifecycle_phase
                == RuntimeLifecyclePhase::Teardown
            &&& failed.state.runtimes[runtime_id].descriptor.lifecycle_phase
                == RuntimeLifecyclePhase::Teardown
            &&& service.state.runtimes.contains_key(other)
                <==> failed.state.runtimes.contains_key(other)
            &&& service.state.runtimes.contains_key(other) ==> failed.state.runtimes[other]
                == service.state.runtimes[other]
        }),
{
}

} // verus!
