//! How runtimes end: by their lease, by a command, and by trying again.
use vstd::prelude::*;
use crate::agent::metadata::{backoff, doubled, is_due, next_retry};
use crate::agent::provision_laws::{is_capped_sum, is_refusal};
use crate::agent::query_laws::{is_theirs, shows};
use crate::agent::commands::{SaveReplyModel, StepEventModel, TeardownReplyModel};
use crate::agent::reaper::{due_ids, next_due, next_reap, sweep_resumed, ReapStepModel, SweepModel};
use crate::agent::service::AgentControlServiceModel;
use crate::agent::teardown::{
    begun_reap, begun_teardown, begun_welcome, failed_teardown, reaped, retry_after,
    teardown_answer, unpersisted_reap, welcome_answer, with_runtime, ReapJobModel, RuntimeJobModel,
    TeardownJobModel,
};
use crate::agent::types::{
    AgentControlStatusEnvelopeModel, FailureModel, RuntimeLifecyclePhase, RuntimeRecordModel,
};
use crate::collections::listing_of;
use crate::json::{written_json, JsonModel};
use crate::text::decimal_text;

verus! {

/// Whether a runtime is what it was but for its phase and what is to be retried.
pub open spec fn same_runtime(a: RuntimeRecordModel, b: RuntimeRecordModel) -> bool {
    &&& a.owner_pubkey_hex == b.owner_pubkey_hex
    &&& a.provider_handle == b.provider_handle
    &&& a.created_at == b.created_at
    &&& a.expires_at == b.expires_at
    &&& a.descriptor.runtime_id == b.descriptor.runtime_id
    &&& a.descriptor.provider == b.descriptor.provider
    &&& a.descriptor.runtime_class == b.descriptor.runtime_class
    &&& a.descriptor.region == b.descriptor.region
    &&& a.descriptor.capacity == b.descriptor.capacity
    &&& a.descriptor.policy_constraints == b.descriptor.policy_constraints
    &&& a.descriptor.protocol_compatibility == b.descriptor.protocol_compatibility
    &&& a.descriptor.bot_pubkey == b.descriptor.bot_pubkey
    &&& a.descriptor.metadata == b.descriptor.metadata
}

/// Whether nothing of a service is another but one of its runtimes.
pub open spec fn only_runtime_changes(
    before: AgentControlServiceModel,
    after: AgentControlServiceModel,
    runtime_id: Seq<char>,
) -> bool {
    &&& after.state.runtimes.contains_key(runtime_id)
    &&& forall|id: Seq<char>|
        id != runtime_id ==> (#[trigger] after.state.runtimes.contains_key(id)
            <==> before.state.runtimes.contains_key(id))
    &&& forall|id: Seq<char>|
        id != runtime_id && #[trigger] before.state.runtimes.contains_key(id)
            ==> after.state.runtimes[id] == before.state.runtimes[id]
    &&& after.state.builds == before.state.builds
    &&& after.state.artifacts == before.state.artifacts
    &&& after.state.audit_log == before.state.audit_log
    &&& after.state.idempotency == before.state.idempotency
    &&& after.state.idempotency_order == before.state.idempotency_order
    &&& after.provision_policy == before.provision_policy
    &&& after.v2_flags == before.v2_flags
    &&& after.build_policy == before.build_policy
    &&& after.idempotency_max_entries == before.idempotency_max_entries
}

/// Whether a runtime is there, filed under its own id, for a requester.
pub open spec fn has_runtime(
    service: AgentControlServiceModel,
    requester: Seq<char>,
    runtime_id: Seq<char>,
) -> bool {
    &&& service.state.runtimes.contains_key(runtime_id)
    &&& service.state.runtimes[runtime_id].descriptor.runtime_id == runtime_id
    &&& is_theirs(service, requester, service.state.runtimes[runtime_id])
}

/// Whether a runtime is not there, or not for a requester.
pub open spec fn has_no_runtime(
    service: AgentControlServiceModel,
    requester: Seq<char>,
    runtime_id: Seq<char>,
) -> bool {
    service.state.runtimes.contains_key(runtime_id) ==> !is_theirs(
        service,
        requester,
        service.state.runtimes[runtime_id],
    )
}

/// A runtime that is to be torn down is on its way out, and what was to be retried is
/// forgotten but for its count; who asks for a runtime that is not theirs changes
/// nothing and is told that it is not there.
pub proof fn teardown_begins(
    service: AgentControlServiceModel,
    requester: Seq<char>,
    request_id: Seq<char>,
    runtime_id: Seq<char>,
    statuses: Seq<AgentControlStatusEnvelopeModel>,
    now: u64,
)
    ensures
        ({
            let (after, begun) = begun_teardown(
                service,
                requester,
                request_id,
                runtime_id,
                statuses,
                now,
            );
            let was = service.state.runtimes[runtime_id];
            &&& has_no_runtime(service, requester, runtime_id) ==> after == service && begun is Err
                && is_refusal(begun->Err_0, request_id, "runtime_not_found"@)
            &&& has_runtime(service, requester, runtime_id) ==> begun is Ok
                && only_runtime_changes(service, after, runtime_id) && ({
                let runtime = after.state.runtimes[runtime_id];
                let job = begun->Ok_0;
                &&& same_runtime(runtime, was)
                &&& runtime.descriptor.lifecycle_phase == RuntimeLifecyclePhase::Teardown
                &&& runtime.teardown_retry is None
                &&& job.runtime == runtime
                &&& job.request_id == request_id
                &&& job.begun_at == now
                &&& was.teardown_retry is None ==> job.previous_attempts == 0
                &&& was.teardown_retry is Some ==> job.previous_attempts
                    == was.teardown_retry->0.attempt_count
                &&& job.statuses.len() == statuses.len() + 1
                &&& job.statuses.last().phase == RuntimeLifecyclePhase::Teardown
                &&& job.statuses.last().runtime_id == Some(runtime_id)
            })
        }),
{
}

/// The wait before a teardown is tried again doubles with each attempt, from five
/// seconds up to half an hour.
pub proof fn wait_doubles(attempt: u32)
    ensures
        backoff(0) == 5,
        backoff(1) == 5,
        1 <= attempt < 9 ==> backoff((attempt + 1) as u32) == 2 * backoff(attempt),
        attempt >= 10 ==> backoff(attempt) == 1800,
        backoff(9) == 1280,
        5 <= backoff(attempt) <= 1800,
{
    reveal_with_fuel(doubled, 12);
    if attempt > 0 {
        lemma_doubled_positive(
            if attempt > 11 {
                10
            } else {
                (attempt - 1) as nat
            },
        );
    }
}

proof fn lemma_doubled_positive(n: nat)
    ensures
        doubled(n) >= 1,
    decreases n,
{
    if n > 0 {
        lemma_doubled_positive((n - 1) as nat);
    }
}

/// What is retried is counted once more, with what went wrong, when it was tried, and
/// when it is tried next: after the wait that goes with the count.
pub proof fn retry_is_counted(previous: u32, error: Seq<char>, now: u64)
    ensures
        ({
            let retry = next_retry(previous, error, now);
            &&& previous < u32::MAX ==> retry.attempt_count == previous + 1
            &&& previous == u32::MAX ==> retry.attempt_count == previous
            &&& retry.last_error == Some(error)
            &&& retry.last_attempt_at == Some(now)
            &&& retry.next_retry_at is Some
            &&& is_capped_sum(retry.next_retry_at->0, now, backoff(retry.attempt_count))
        }),
{
}

/// A teardown is retried where it failed, or where what the provider tells is that it
/// failed in whole or in part and can be retried; and in no other case.
pub proof fn only_failures_are_retried(
    previous: u32,
    payload: JsonModel,
    error: Seq<char>,
    now: u64,
)
    ensures
        retry_after(previous, Err(error), now) is Some,
        retry_after(previous, Err(error), now)->0.last_error == Some(error),
        retry_after(previous, Ok(payload), now) is Some <==> (payload.get_text("teardown"@) == Some(
            "partial"@,
        ) || payload.get_text("teardown"@) == Some("failed"@)) && payload.get_bool("retryable"@)
            == Some(true),
{
}

/// A teardown that failed leaves the runtime on its way out, to be tried again; why, and
/// when, is told.
pub proof fn failed_teardown_is_told(
    service: AgentControlServiceModel,
    job: TeardownJobModel,
    failure: FailureModel,
)
    ensures
        ({
            let (after, outcome) = failed_teardown(service, job, failure);
            let id = job.runtime.descriptor.runtime_id;
            let runtime = after.state.runtimes[id];
            let retry = runtime.teardown_retry->0;
            &&& only_runtime_changes(service, after, id)
            &&& same_runtime(runtime, job.runtime)
            &&& runtime.descriptor.lifecycle_phase == job.runtime.descriptor.lifecycle_phase
            &&& runtime.teardown_retry is Some
            &&& retry.last_error == Some(failure.full)
            &&& retry.last_attempt_at == Some(job.begun_at)
            &&& retry.next_retry_at is Some
            &&& job.previous_attempts < u32::MAX ==> retry.attempt_count == job.previous_attempts
                + 1
            &&& is_capped_sum(
                retry.next_retry_at->0,
                job.begun_at,
                backoff(retry.attempt_count),
            )
            &&& is_refusal(outcome, job.request_id, "teardown_failed"@)
            &&& outcome.error->0.detail == Some(
                failure.brief + "; next_retry_at="@ + decimal_text(retry.next_retry_at->0 as nat),
            )
            &&& outcome.statuses.len() == job.statuses.len() + 1
            &&& outcome.statuses.last().phase == RuntimeLifecyclePhase::Failed
        }),
{
}

proof fn lemma_teardown_keys()
    ensures
        "transition_state_persist"@.len() == 24,
        "transition_state_persist_error"@.len() == 30,
        "state_persist"@.len() == 13,
        "state_persist_error"@.len() == 19,
        "provider_payload"@.len() == 16,
        "teardown"@.len() == 8,
{
    reveal_strlit("transition_state_persist");
    reveal_strlit("transition_state_persist_error");
    reveal_strlit("state_persist");
    reveal_strlit("state_persist_error");
    reveal_strlit("provider_payload");
    reveal_strlit("teardown");
}

/// A teardown is answered with what the provider tells, and with what could not be
/// written to disk; where the provider tells that it failed, it is refused.
pub proof fn teardown_is_answered(
    job: TeardownJobModel,
    payload: JsonModel,
    transition_error: Option<Seq<char>>,
    persist_error: Option<Seq<char>>,
)
    requires
        payload is Object,
    ensures
        ({
            let answer = teardown_answer(job, payload, transition_error, persist_error);
            let failed = payload.get_text("teardown"@) == Some("failed"@);
            &&& failed ==> is_refusal(answer, job.request_id, "teardown_failed"@)
            &&& failed && transition_error is None && persist_error is None
                ==> answer.error->0.detail == Some(written_json(payload))
            &&& !failed ==> answer.error is None && answer.result is Some && shows(
                answer.result->0.runtime,
                job.runtime,
            ) && answer.result->0.request_id == job.request_id
            &&& !failed && transition_error is None && persist_error is None
                ==> answer.result->0.payload == payload && answer.statuses == job.statuses
            &&& !failed && transition_error is Some
                ==> answer.result->0.payload.get_text("transition_state_persist"@) == Some(
                "failed"@,
            ) && answer.result->0.payload.get_text("transition_state_persist_error"@)
                == transition_error
            &&& !failed && persist_error is Some ==> answer.result->0.payload.get_text(
                "state_persist"@,
            ) == Some("failed"@) && answer.result->0.payload.get_text("state_persist_error"@)
                == persist_error
            &&& persist_error is Some ==> answer.statuses.len() == job.statuses.len() + 1
        }),
{
    lemma_teardown_keys();
    crate::agent::query_laws::descriptor_shows_the_runtime(job.runtime);
}

/// What could not be written to disk is told also where the provider tells no object.
pub proof fn teardown_of_odd_payload_is_answered(
    job: TeardownJobModel,
    payload: JsonModel,
    error: Seq<char>,
)
    requires
        !(payload is Object),
    ensures
        teardown_answer(job, payload, None, None).result is Some,
        teardown_answer(job, payload, None, None).result->0.payload == payload,
        teardown_answer(job, payload, Some(error), None).result is Some,
        teardown_answer(job, payload, Some(error), None).result->0.payload.get(
            "provider_payload"@,
        ) == Some(payload),
{
    lemma_teardown_keys();
}

/// A runtime is due when its lease is over and it is not on its way out, or when what is
/// to be retried is to be tried by now; one without a lease never is for that.
pub proof fn due_is_past_lease_or_retry(runtime: RuntimeRecordModel, now: u64)
    ensures
        is_due(runtime, now) <==> (runtime.expires_at != 0 && now >= runtime.expires_at
            && runtime.descriptor.lifecycle_phase != RuntimeLifecyclePhase::Teardown) || (
        runtime.teardown_retry is Some && runtime.teardown_retry->0.next_retry_at is Some && now
            >= runtime.teardown_retry->0.next_retry_at->0),
{
}

/// A sweep takes up exactly the runtimes that are due.
pub proof fn sweep_takes_up_the_due(
    service: AgentControlServiceModel,
    now: u64,
    id: Seq<char>,
)
    requires
        service.state.runtimes.dom().finite(),
    ensures
        due_ids(service, now).contains(id) <==> service.state.runtimes.contains_key(id) && is_due(
            service.state.runtimes[id],
            now,
        ),
{
    let ids = listing_of::<String>(service.state.runtimes.dom());
    crate::collections::lemma_listing_exists::<String>(service.state.runtimes.dom());
    let due = |id: Seq<char>| is_due(service.state.runtimes[id], now);
    let kept = ids.filter(due);
    assert(due_ids(service, now) =~= kept);
    if kept.contains(id) {
        ids.lemma_filter_contains_rev(due, id);
        let k = choose|k: int| 0 <= k < kept.len() && kept[k] == id;
        ids.lemma_filter_pred(due, k);
        assert(ids.contains(id));
    }
    if service.state.runtimes.contains_key(id) && is_due(service.state.runtimes[id], now) {
        assert(ids.contains(id));
        let at = choose|at: int| 0 <= at < ids.len() && ids[at] == id;
        assert(due(ids[at]));
        ids.lemma_filter_contains(due, at);
    }
}

/// A runtime that a sweep takes up is on its way out; what is to be retried stays until
/// its provider was asked.
pub proof fn sweep_begins_a_teardown(service: AgentControlServiceModel, runtime_id: Seq<char>)
    requires
        service.state.runtimes.contains_key(runtime_id),
        service.state.runtimes[runtime_id].descriptor.runtime_id == runtime_id,
    ensures
        ({
            let (after, begun) = begun_reap(service, runtime_id);
            let was = service.state.runtimes[runtime_id];
            let runtime = after.state.runtimes[runtime_id];
            &&& begun is Some
            &&& begun->0.runtime == runtime
            &&& only_runtime_changes(service, after, runtime_id)
            &&& same_runtime(runtime, was)
            &&& runtime.descriptor.lifecycle_phase == RuntimeLifecyclePhase::Teardown
            &&& runtime.teardown_retry == was.teardown_retry
            &&& was.teardown_retry is None ==> begun->0.previous_attempts == 0
            &&& was.teardown_retry is Some ==> begun->0.previous_attempts
                == was.teardown_retry->0.attempt_count
        }),
{
}

/// What a sweep makes of a runtime changes nothing of it but what is to be retried:
/// nothing where its teardown went through, once more where it failed, and at once where
/// its way out could not be written to disk.
pub proof fn sweep_ends_a_teardown(
    job: ReapJobModel,
    payload: JsonModel,
    error: Seq<char>,
    now: u64,
)
    ensures
        ({
            let done = reaped(job, Ok(payload), now);
            let failed = reaped(job, Err(error), now);
            let unsaved = unpersisted_reap(job, error, now);
            &&& same_runtime(done, job.runtime)
            &&& same_runtime(failed, job.runtime)
            &&& same_runtime(unsaved, job.runtime)
            &&& done.descriptor.lifecycle_phase == job.runtime.descriptor.lifecycle_phase
            &&& failed.descriptor.lifecycle_phase == job.runtime.descriptor.lifecycle_phase
            &&& unsaved.descriptor.lifecycle_phase == job.runtime.descriptor.lifecycle_phase
            &&& payload.get_text("teardown"@) == Some("deleted"@) ==> done.teardown_retry is None
            &&& failed.teardown_retry is Some
            &&& failed.teardown_retry->0.last_error == Some(error)
            &&& job.previous_attempts < u32::MAX ==> failed.teardown_retry->0.attempt_count
                == job.previous_attempts + 1
            &&& unsaved.teardown_retry is Some
            &&& unsaved.teardown_retry->0.attempt_count == job.previous_attempts
            &&& unsaved.teardown_retry->0.next_retry_at == Some(now)
            &&& unsaved.teardown_retry->0.last_attempt_at is None
            &&& unsaved.teardown_retry->0.last_error == Some(
                "persist teardown transition failed: "@ + error,
            )
        }),
{
    reveal_strlit("deleted");
    reveal_strlit("partial");
    reveal_strlit("failed");
    assert("deleted"@[0] == 'd');
    assert("partial"@[0] == 'p');
    assert("failed"@.len() == 6 && "deleted"@.len() == 7);
}

/// A welcome is handed to the runtime of the one who asks, and to no other; what its
/// provider tells is the answer, and a failure is told as one.
pub proof fn welcome_is_handed_on(
    service: AgentControlServiceModel,
    requester: Seq<char>,
    request_id: Seq<char>,
    runtime_id: Seq<char>,
    statuses: Seq<AgentControlStatusEnvelopeModel>,
)
    ensures
        ({
            let begun = begun_welcome(service, requester, request_id, runtime_id, statuses);
            &&& has_no_runtime(service, requester, runtime_id) ==> begun is Err && is_refusal(
                begun->Err_0,
                request_id,
                "runtime_not_found"@,
            )
            &&& has_runtime(service, requester, runtime_id) ==> begun is Ok
                && begun->Ok_0.runtime == service.state.runtimes[runtime_id]
                && begun->Ok_0.request_id == request_id && begun->Ok_0.statuses.len()
                == statuses.len() + 1
        }),
{
}

/// What a provider tells of a welcome is the answer, and a failure is told as one.
pub proof fn welcome_is_answered(job: RuntimeJobModel, payload: JsonModel, error: Seq<char>)
    ensures
        ({
            let answer = welcome_answer(job, Ok(payload));
            let failed = welcome_answer(job, Err(error));
            &&& answer.error is None
            &&& answer.result is Some
            &&& answer.result->0.payload == payload
            &&& answer.result->0.request_id == job.request_id
            &&& shows(answer.result->0.runtime, job.runtime)
            &&& answer.statuses.last().phase == RuntimeLifecyclePhase::Ready
            &&& is_refusal(failed, job.request_id, "process_welcome_failed"@)
            &&& failed.error->0.detail == Some("provider process_welcome call failed: "@ + error)
            &&& failed.statuses.last().phase == RuntimeLifecyclePhase::Failed
        }),
{
    crate::agent::query_laws::descriptor_shows_the_runtime(job.runtime);
}

/// A sweep takes up the first runtime from its place on that is still there, and rests
/// where none is.
pub proof fn sweep_takes_up_the_next(service: AgentControlServiceModel, sweep: SweepModel, at: int)
    requires
        sweep.next <= at < sweep.due.len(),
        sweep.due.len() < usize::MAX,
        service.state.runtimes.contains_key(sweep.due[at]),
        forall|j: int|
            sweep.next <= j < at ==> !service.state.runtimes.contains_key(#[trigger] sweep.due[j]),
    ensures
        ({
            let (after, next, step) = next_reap(service, sweep);
            let begun = begun_reap(service, sweep.due[at]);
            &&& after == begun.0
            &&& step == ReapStepModel::Save(begun.1->0)
            &&& next.next == at + 1
            &&& next.due == sweep.due
            &&& next.now == sweep.now
        }),
{
    lemma_next_place(service, sweep.due, sweep.next as nat, at);
}

proof fn lemma_next_place(
    service: AgentControlServiceModel,
    due: Seq<Seq<char>>,
    from: nat,
    at: int,
)
    requires
        from <= at < due.len(),
        service.state.runtimes.contains_key(due[at]),
        forall|j: int|
            from <= j < at ==> !service.state.runtimes.contains_key(#[trigger] due[j]),
    ensures
        next_due(service, due, from) == at,
    decreases due.len() - from,
{
    if from < at {
        assert(!service.state.runtimes.contains_key(due[from as int]));
        lemma_next_place(service, due, from + 1, at);
    }
}

/// A sweep tears a runtime down once its way out was written to disk; what its provider
/// did, or that it could not be written, is noted of that runtime before the next is
/// taken up.
pub proof fn sweep_goes_on(
    service: AgentControlServiceModel,
    sweep: SweepModel,
    job: ReapJobModel,
    payload: JsonModel,
    failure: FailureModel,
    error: Seq<char>,
)
    ensures
        sweep_resumed(
            service,
            sweep,
            ReapStepModel::Save(job),
            StepEventModel::Saved(SaveReplyModel::Saved),
        ) == (service, sweep, ReapStepModel::TearDown(job)),
        ({
            let noted = with_runtime(service, unpersisted_reap(job, error, sweep.now));
            sweep_resumed(
                service,
                sweep,
                ReapStepModel::Save(job),
                StepEventModel::Saved(SaveReplyModel::Failed(error)),
            ) == next_reap(noted, sweep)
        }),
        ({
            let noted = with_runtime(service, reaped(job, Ok(payload), sweep.now));
            sweep_resumed(
                service,
                sweep,
                ReapStepModel::TearDown(job),
                StepEventModel::TornDown(TeardownReplyModel::Done(payload)),
            ) == next_reap(noted, sweep)
        }),
        ({
            let noted = with_runtime(service, reaped(job, Err(failure.full), sweep.now));
            sweep_resumed(
                service,
                sweep,
                ReapStepModel::TearDown(job),
                StepEventModel::TornDown(TeardownReplyModel::Failed(failure)),
            ) == next_reap(noted, sweep)
        }),
        only_runtime_changes(
            service,
            with_runtime(service, job.runtime),
            job.runtime.descriptor.runtime_id,
        ),
        with_runtime(
            service,
            job.runtime,
        ).state.runtimes[job.runtime.descriptor.runtime_id] == job.runtime,
{
}

} // verus!
