//! What is kept, forgotten, filled in and swept away.
use vstd::prelude::*;
use crate::agent::provision_laws::is_capped_sum;
use crate::agent::state::{
    artifact_gaps, audited, build_gaps, kept_artifacts, lease_gaps, remembered, with_artifact_times,
    with_build_times, with_lease, AgentControlStateModel,
};
use crate::agent::types::{
    ArtifactRecordModel, AuditEventModel, BuildRecordModel, CachedTerminalModel,
    RuntimeLifecyclePhase, RuntimeRecordModel,
};

verus! {

/// An artifact is swept away exactly when its lease is over and no runtime runs it that
/// is not on its way out; those that stay, stay as they are.
pub proof fn sweeping_keeps_what_is_used_or_leased(
    state: AgentControlStateModel,
    now: u64,
    artifact_ref: Seq<char>,
)
    ensures
        kept_artifacts(state, now).contains_key(artifact_ref) <==> state.artifacts.contains_key(
            artifact_ref,
        ) && (state.artifacts[artifact_ref].expires_at > now || exists|id: Seq<char>| #[trigger]
            state.runtimes.contains_key(id) && state.runtimes[id].descriptor.lifecycle_phase
                != RuntimeLifecyclePhase::Teardown
                && state.runtimes[id].descriptor.metadata.get_text("artifact_ref"@) == Some(
                artifact_ref,
            )),
        kept_artifacts(state, now).contains_key(artifact_ref) ==> kept_artifacts(
            state,
            now,
        )[artifact_ref] == state.artifacts[artifact_ref],
{
}

/// The audit log keeps its last lines, as many as it may hold, with the new one at the
/// end; nothing else changes.
pub proof fn audit_log_keeps_its_last_lines(
    state: AgentControlStateModel,
    event: AuditEventModel,
    max: nat,
    i: int,
)
    ensures
        ({
            let after = audited(state, event, max);
            let n = state.audit_log.len() + 1;
            &&& after.audit_log.len() == if n < max {
                n
            } else {
                max
            }
            &&& max > 0 ==> after.audit_log.last() == event
            &&& 0 < i < after.audit_log.len() ==> after.audit_log[after.audit_log.len() - 1 - i]
                == state.audit_log[state.audit_log.len() - i]
            &&& after.runtimes == state.runtimes
            &&& after.builds == state.builds
            &&& after.artifacts == state.artifacts
            &&& after.idempotency == state.idempotency
            &&& after.idempotency_order == state.idempotency_order
        }),
{
}

/// A runtime without times is filled in: it was made now, and lives as long as a lease
/// is from then on; one that has its times keeps them, and nothing else of it changes.
/// What was filled in is counted.
pub proof fn lease_is_filled_in(runtime: RuntimeRecordModel, now: u64, ttl_secs: u64)
    ensures
        ({
            let filled = with_lease(runtime, now, ttl_secs);
            let bad = runtime.expires_at == 0 || runtime.expires_at < filled.created_at;
            &&& runtime.created_at == 0 ==> filled.created_at == now
            &&& runtime.created_at != 0 ==> filled.created_at == runtime.created_at
            &&& bad ==> is_capped_sum(filled.expires_at, filled.created_at, ttl_secs)
            &&& !bad ==> filled.expires_at == runtime.expires_at
            &&& filled.owner_pubkey_hex == runtime.owner_pubkey_hex
            &&& filled.descriptor == runtime.descriptor
            &&& filled.provider_handle == runtime.provider_handle
            &&& filled.teardown_retry == runtime.teardown_retry
            &&& runtime.created_at != 0 && !bad ==> lease_gaps(runtime, now) == 0
            &&& runtime.created_at == 0 && !bad ==> lease_gaps(runtime, now) == 1
            &&& runtime.created_at != 0 && bad ==> lease_gaps(runtime, now) == 1
            &&& runtime.created_at == 0 && bad ==> lease_gaps(runtime, now) == 2
        }),
{
}

/// The later of two times.
pub open spec fn later(a: u64, b: u64) -> u64 {
    if a > b {
        a
    } else {
        b
    }
}

/// A build without times is filled in, from its making or from now, whichever is later;
/// what it has stays. What was filled in is counted.
pub proof fn build_times_are_filled_in(build: BuildRecordModel, now: u64)
    ensures
        ({
            let filled = with_build_times(build, now);
            let from = later(build.created_at, now);
            &&& build.updated_at == 0 ==> filled.updated_at == from
            &&& build.updated_at != 0 ==> filled.updated_at == build.updated_at
            &&& build.timeout_sec == 0 ==> filled.timeout_sec == 1200
            &&& build.timeout_sec != 0 ==> filled.timeout_sec == build.timeout_sec
            &&& build.deadline_at == 0 ==> is_capped_sum(
                filled.deadline_at,
                from,
                later(filled.timeout_sec, 60),
            )
            &&& build.deadline_at != 0 ==> filled.deadline_at == build.deadline_at
            &&& filled.build_id == build.build_id
            &&& filled.owner_pubkey_hex == build.owner_pubkey_hex
            &&& filled.build_kind == build.build_kind
            &&& filled.phase == build.phase
            &&& filled.source_ref == build.source_ref
            &&& filled.artifact_ref == build.artifact_ref
            &&& filled.created_at == build.created_at
            &&& filled.ready_at == build.ready_at
            &&& filled.context_bytes == build.context_bytes
            &&& filled.error_code == build.error_code
            &&& filled.error_detail == build.error_detail
            &&& filled.canceled_at == build.canceled_at
            &&& build_gaps(build) == (if build.updated_at == 0 {
                1int
            } else {
                0
            }) + (if build.timeout_sec == 0 {
                1int
            } else {
                0
            }) + (if build.deadline_at == 0 {
                1int
            } else {
                0
            })
        }),
{
}

/// An artifact without times is filled in, from its making or from now, whichever is
/// later; what it has stays. What was filled in is counted.
pub proof fn artifact_times_are_filled_in(artifact: ArtifactRecordModel, now: u64, ttl_secs: u64)
    ensures
        ({
            let filled = with_artifact_times(artifact, now, ttl_secs);
            let from = later(artifact.created_at, now);
            &&& artifact.last_used_at == 0 ==> filled.last_used_at == from
            &&& artifact.last_used_at != 0 ==> filled.last_used_at == artifact.last_used_at
            &&& artifact.expires_at == 0 ==> is_capped_sum(
                filled.expires_at,
                from,
                later(ttl_secs, 60),
            )
            &&& artifact.expires_at != 0 ==> filled.expires_at == artifact.expires_at
            &&& filled.artifact_ref == artifact.artifact_ref
            &&& filled.build_kind == artifact.build_kind
            &&& filled.owner_pubkey_hex == artifact.owner_pubkey_hex
            &&& filled.created_at == artifact.created_at
            &&& filled.source_build_id == artifact.source_build_id
            &&& artifact_gaps(artifact) == (if artifact.last_used_at == 0 {
                1int
            } else {
                0
            }) + (if artifact.expires_at == 0 {
                1int
            } else {
                0
            })
        }),
{
}

/// Keeping an answer changes nothing but the answers that are kept.
pub proof fn keeping_an_answer_changes_nothing_else(
    state: AgentControlStateModel,
    key: (Seq<char>, Seq<char>),
    terminal: CachedTerminalModel,
    max: nat,
)
    ensures
        remembered(state, key, terminal, max).runtimes == state.runtimes,
        remembered(state, key, terminal, max).builds == state.builds,
        remembered(state, key, terminal, max).artifacts == state.artifacts,
        remembered(state, key, terminal, max).audit_log == state.audit_log,
{
    let others = if state.idempotency.contains_key(key) {
        state.idempotency_order.filter(crate::agent::state::other_than(key))
    } else {
        state.idempotency_order
    };
    forgetting_answers_changes_nothing_else(
        AgentControlStateModel {
            idempotency: state.idempotency.insert(key, terminal),
            idempotency_order: others.push(key),
            ..state
        },
        max,
    );
}

/// Forgetting answers changes nothing but the answers that are kept.
pub proof fn forgetting_answers_changes_nothing_else(state: AgentControlStateModel, max: nat)
    ensures
        crate::agent::state::truncated(state, max).runtimes == state.runtimes,
        crate::agent::state::truncated(state, max).builds == state.builds,
        crate::agent::state::truncated(state, max).artifacts == state.artifacts,
        crate::agent::state::truncated(state, max).audit_log == state.audit_log,
    decreases state.idempotency_order.len(),
{
    if state.idempotency_order.len() > max {
        forgetting_answers_changes_nothing_else(
            AgentControlStateModel {
                idempotency: state.idempotency.remove(state.idempotency_order[0]),
                idempotency_order: state.idempotency_order.drop_first(),
                ..state
            },
            max,
        );
    }
}

} // verus!
