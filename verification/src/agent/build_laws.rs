//! How builds are taken in, go on and end.
use vstd::prelude::*;
use crate::agent::builds::{
    active_builds, all_progressed, begun_cancellation, begun_submission, concluded_cancellation,
    concluded_submission, current_build, got_build, progressed, recent_builds, submit_outcome,
    unpersisted_submission, BuildJobModel, BuildSubmitOutcomeModel, SubmitJobModel,
};
use crate::agent::policy::{admitted, normalized_build, source_in, BuildSubmitRequestModel};
use crate::agent::provision_laws::{is_capped_sum, is_refusal};
use crate::agent::query_laws::on_the_list;
use crate::agent::service::AgentControlServiceModel;
use crate::agent::types::{
    build_json, AgentControlStatusEnvelopeModel, ArtifactRecordModel, BuildKind, BuildPhase,
    BuildRecordModel, SubmitBuildCommandModel,
};
use crate::collections::listing_of;
use crate::json::JsonModel;

verus! {

/// Whether a build has come to its end.
pub open spec fn has_ended(build: BuildRecordModel) -> bool {
    build.phase is Succeeded || build.phase is Failed || build.phase is Canceled
}

/// Whether two builds agree in all that never changes.
pub open spec fn same_build(a: BuildRecordModel, b: BuildRecordModel) -> bool {
    &&& a.build_id == b.build_id
    &&& a.owner_pubkey_hex == b.owner_pubkey_hex
    &&& a.build_kind == b.build_kind
    &&& a.source_ref == b.source_ref
    &&& a.created_at == b.created_at
    &&& a.deadline_at == b.deadline_at
    &&& a.context_bytes == b.context_bytes
    &&& a.timeout_sec == b.timeout_sec
}

/// Whether a service is what it was but for its builds, artifacts and audit log.
pub open spec fn service_stays(a: AgentControlServiceModel, b: AgentControlServiceModel) -> bool {
    &&& a.state.runtimes == b.state.runtimes
    &&& a.state.idempotency == b.state.idempotency
    &&& a.state.idempotency_order == b.state.idempotency_order
    &&& a.provision_policy == b.provision_policy
    &&& a.v2_flags == b.v2_flags
    &&& a.build_policy == b.build_policy
    &&& a.idempotency_max_entries == b.idempotency_max_entries
}

/// Whether no build but one is another.
pub open spec fn other_builds_stay(
    before: Map<Seq<char>, BuildRecordModel>,
    after: Map<Seq<char>, BuildRecordModel>,
    build_id: Seq<char>,
) -> bool {
    &&& forall|id: Seq<char>|
        id != build_id ==> (#[trigger] after.contains_key(id) <==> before.contains_key(id))
    &&& forall|id: Seq<char>|
        id != build_id && #[trigger] before.contains_key(id) ==> after[id] == before[id]
}

/// A build as it is asked about: one that ended stays; one whose time is over failed for
/// that; one from a source fails where the source cannot be read or is not allowed, goes
/// from fetching to building before it is ready, and succeeds from then on with an
/// artifact of its kind; every other stays.
pub proof fn build_goes_on(service: AgentControlServiceModel, build_id: Seq<char>, now: u64)
    requires
        service.state.builds.contains_key(build_id),
    ensures
        ({
            let was = service.state.builds[build_id];
            let is = current_build(service, build_id, now)->0;
            let in_time = !has_ended(was) && now < was.deadline_at;
            let source = source_in(was.source_ref->0);
            let rules = service.build_policy.allowed_source_rules;
            let ready_at = if was.ready_at is Some {
                was.ready_at->0
            } else {
                was.deadline_at
            };
            let good = was.source_ref is Some && source is Ok && admitted(rules, source->Ok_0);
            &&& current_build(service, build_id, now) is Some
            &&& same_build(is, was)
            &&& is.ready_at == was.ready_at
            &&& is.canceled_at == was.canceled_at
            &&& has_ended(was) ==> is == was
            &&& !has_ended(was) && now >= was.deadline_at ==> is.phase is Failed && is.error_code
                == Some("build_timeout"@) && is.updated_at == now
            &&& in_time && was.source_ref is None ==> is == was
            &&& in_time && was.source_ref is Some && source is Err ==> is.phase is Failed
                && is.error_code == Some("build_source_invalid"@) && is.error_detail == Some(
                source->Err_0,
            ) && is.updated_at == now
            &&& in_time && was.source_ref is Some && source is Ok && !admitted(
                rules,
                source->Ok_0,
            ) ==> is.phase is Failed && is.error_code == Some("build_source_not_allowed"@)
                && is.updated_at == now
            &&& in_time && good && now < ready_at && was.phase is FetchingSource
                ==> is.phase is Building && is.artifact_ref == was.artifact_ref && is.updated_at
                == now
            &&& in_time && good && now < ready_at && !(was.phase is FetchingSource) ==> is == was
            &&& in_time && good && now >= ready_at ==> is.phase is Succeeded && is.artifact_ref
                is Some && is.error_code is None && is.error_detail is None && is.updated_at == now
        }),
{
}

/// The artifact of a build from a source is named by its kind and by a digest of what it
/// was built from.
pub proof fn artifact_is_named_by_its_kind(
    service: AgentControlServiceModel,
    build_id: Seq<char>,
    now: u64,
)
    requires
        service.state.builds.contains_key(build_id),
        !has_ended(service.state.builds[build_id]),
        now < service.state.builds[build_id].deadline_at,
        current_build(service, build_id, now)->0.phase is Succeeded,
    ensures
        ({
            let was = service.state.builds[build_id];
            let name = current_build(service, build_id, now)->0.artifact_ref->0;
            let digest = crate::agent::policy::sha256_hex(
                vstd::utf8::encode_utf8(
                    (match was.build_kind {
                        BuildKind::Oci => "oci:"@,
                        BuildKind::Nix => "nix:"@,
                    }) + was.source_ref->0,
                ),
            );
            name == match was.build_kind {
                BuildKind::Oci => "oci://builder-cache/pika-agent@sha256:"@ + digest,
                BuildKind::Nix => "nix://closure/"@ + digest,
            }
        }),
{
    reveal_strlit("oci");
    reveal_strlit("nix");
    reveal_strlit(":");
    reveal_strlit("oci:");
    reveal_strlit("nix:");
    assert("oci"@ + ":"@ =~= "oci:"@);
    assert("nix"@ + ":"@ =~= "nix:"@);
}

/// Asking about a build changes no other build and nothing else of a service, but that
/// the artifact of one that succeeds by it is written down, for its owner and with a
/// lease from then on.
pub proof fn asking_writes_the_build_down(
    service: AgentControlServiceModel,
    build_id: Seq<char>,
    now: u64,
)
    requires
        service.state.builds.contains_key(build_id),
        service.state.builds[build_id].build_id == build_id,
    ensures
        ({
            let was = service.state.builds[build_id];
            let is = current_build(service, build_id, now)->0;
            let after = progressed(service, build_id, now);
            &&& after.state.builds.contains_key(build_id)
            &&& after.state.builds[build_id] == is
            &&& other_builds_stay(service.state.builds, after.state.builds, build_id)
            &&& after.state.audit_log == service.state.audit_log
            &&& service_stays(after, service)
            &&& is == was || !(is.phase is Succeeded) ==> after.state.artifacts
                == service.state.artifacts
            &&& is != was && is.phase is Succeeded && is.artifact_ref is Some ==> artifact_is_new(
                service.state.artifacts,
                after.state.artifacts,
                is,
                is.artifact_ref->0,
                now,
                service.build_policy.artifact_ttl_secs,
            )
        }),
{
}

/// Whether the artifact of a build is written down, and no other is touched.
pub open spec fn artifact_is_new(
    before: Map<Seq<char>, ArtifactRecordModel>,
    after: Map<Seq<char>, ArtifactRecordModel>,
    build: BuildRecordModel,
    artifact_ref: Seq<char>,
    now: u64,
    ttl_secs: u64,
) -> bool {
    &&& after.contains_key(artifact_ref)
    &&& after[artifact_ref].artifact_ref == artifact_ref
    &&& after[artifact_ref].build_kind == build.build_kind
    &&& after[artifact_ref].owner_pubkey_hex == build.owner_pubkey_hex
    &&& after[artifact_ref].created_at == now
    &&& after[artifact_ref].last_used_at == now
    &&& is_capped_sum(after[artifact_ref].expires_at, now, ttl_secs)
    &&& after[artifact_ref].source_build_id == Some(build.build_id)
    &&& forall|other: Seq<char>|
        other != artifact_ref ==> (#[trigger] after.contains_key(other) <==> before.contains_key(
            other,
        ))
    &&& forall|other: Seq<char>|
        other != artifact_ref && #[trigger] before.contains_key(other) ==> after[other]
            == before[other]
}

/// The builds that have not ended are counted, and so are those that somebody submitted
/// in the last hour.
pub proof fn builds_are_counted(
    service: AgentControlServiceModel,
    requester: Seq<char>,
    now: u64,
)
    requires
        service.state.builds.dom().finite(),
    ensures
        active_builds(service.state) == service.state.builds.dom().filter(
            |id: Seq<char>| !has_ended(service.state.builds[id]),
        ).len(),
        recent_builds(service.state, requester, now) == service.state.builds.dom().filter(
            |id: Seq<char>|
                service.state.builds[id].owner_pubkey_hex == requester
                    && service.state.builds[id].created_at + 3600 >= now,
        ).len(),
{
    let builds = service.state.builds;
    let ids = listing_of::<String>(builds.dom());
    let active = |id: Seq<char>| !has_ended(builds[id]);
    let counted = |id: Seq<char>| !crate::agent::types::phase_is_terminal(builds[id].phase);
    let recent = |id: Seq<char>|
        builds[id].owner_pubkey_hex == requester && builds[id].created_at + 3600 >= now;
    let listed = |id: Seq<char>|
        builds[id].owner_pubkey_hex == requester && builds[id].created_at
            >= crate::agent::policy::capped_difference(now, 3600);
    assert(active =~= counted);
    assert forall|id: Seq<char>| #[trigger] recent(id) == listed(id) by {}
    assert(recent =~= listed);
    lemma_count(builds.dom(), active);
    lemma_count(builds.dom(), recent);
}

proof fn lemma_count(keys: Set<Seq<char>>, keep: spec_fn(Seq<char>) -> bool)
    requires
        keys.finite(),
    ensures
        listing_of::<String>(keys).filter(keep).len() == keys.filter(keep).len(),
{
    let ids = listing_of::<String>(keys);
    crate::collections::lemma_listing_exists::<String>(keys);
    crate::collections::lemma_increasing_no_duplicates::<String>(ids);
    let kept = ids.filter(keep);
    crate::agent::state::lemma_filter_no_duplicates(ids, keep);
    assert forall|id: Seq<char>| kept.to_set().contains(id) <==> keys.filter(keep).contains(id) by {
        if kept.contains(id) {
            ids.lemma_filter_contains_rev(keep, id);
            let k = choose|k: int| 0 <= k < kept.len() && kept[k] == id;
            ids.lemma_filter_pred(keep, k);
            assert(ids.contains(id));
        }
        if keys.contains(id) && keep(id) {
            assert(ids.contains(id));
            let at = choose|at: int| 0 <= at < ids.len() && ids[at] == id;
            ids.lemma_filter_contains(keep, at);
        }
    }
    assert(kept.to_set() =~= keys.filter(keep));
    kept.unique_seq_to_set();
}

/// A submission is taken in where its requester is on the list, it makes sense, and
/// neither quota is used up; otherwise nothing is built, and why is told.
pub proof fn submission_is_taken_in_within_quotas(
    service: AgentControlServiceModel,
    requester: Seq<char>,
    request_id: Seq<char>,
    submit: SubmitBuildCommandModel,
    statuses: Seq<AgentControlStatusEnvelopeModel>,
    build_id: Seq<char>,
    now: u64,
)
    ensures
        ({
            let (after, step) = begun_submission(
                service,
                requester,
                request_id,
                submit,
                statuses,
                build_id,
                now,
            );
            let read = normalized_build(
                submit,
                service.build_policy,
                service.v2_flags.advanced_workload_enabled,
            );
            let listed = on_the_list(service.provision_policy, requester);
            let full = active_builds(service.state) >= service.build_policy.max_active_builds;
            let often = recent_builds(service.state, requester, now)
                >= service.build_policy.max_submissions_per_hour;
            &&& step is Accepted <==> listed && read is Ok && !full && !often
            &&& !listed ==> after == service && is_refusal(
                step->Refused_0,
                request_id,
                "provision_unauthorized"@,
            )
            &&& listed && read is Err ==> after == service && is_refusal(
                step->Refused_0,
                request_id,
                read->Err_0.code,
            ) && step->Refused_0.error->0.hint == Some(read->Err_0.hint)
                && step->Refused_0.error->0.detail == Some(read->Err_0.detail)
            &&& listed && read is Ok && full ==> is_refusal(
                step->Refused_0,
                request_id,
                "build_quota_exceeded"@,
            )
            &&& listed && read is Ok && !full && often ==> is_refusal(
                step->Refused_0,
                request_id,
                "build_rate_limited"@,
            )
            &&& step is Refused ==> after.state.builds == service.state.builds
            &&& after.state.artifacts == service.state.artifacts
            &&& service_stays(after, service)
        }),
{
}

/// A build that is taken in is queued for its requester as it was asked for, from now on
/// and until its timeout; no other build is touched, and the audit log tells of it last.
pub proof fn build_is_queued_as_asked(
    service: AgentControlServiceModel,
    requester: Seq<char>,
    request_id: Seq<char>,
    submit: SubmitBuildCommandModel,
    statuses: Seq<AgentControlStatusEnvelopeModel>,
    build_id: Seq<char>,
    now: u64,
)
    requires
        begun_submission(
            service,
            requester,
            request_id,
            submit,
            statuses,
            build_id,
            now,
        ).1 is Accepted,
    ensures
        ({
            let (after, step) = begun_submission(
                service,
                requester,
                request_id,
                submit,
                statuses,
                build_id,
                now,
            );
            let request = normalized_build(
                submit,
                service.build_policy,
                service.v2_flags.advanced_workload_enabled,
            )->Ok_0;
            let build = after.state.builds[build_id];
            let job = step->Accepted_0;
            &&& after.state.builds.contains_key(build_id)
            &&& other_builds_stay(service.state.builds, after.state.builds, build_id)
            &&& job.build == build
            &&& job.request == request
            &&& job.requester == requester
            &&& job.request_id == request_id
            &&& job.statuses == statuses
            &&& build.build_id == build_id
            &&& build.owner_pubkey_hex == requester
            &&& build.build_kind == request.build_kind
            &&& build.phase is Queued
            &&& build.source_ref == request.source_ref
            &&& build.artifact_ref == request.artifact_ref
            &&& build.created_at == now
            &&& build.updated_at == now
            &&& is_capped_sum(build.deadline_at, now, request.timeout_sec)
            &&& build.timeout_sec == request.timeout_sec
            &&& build.context_bytes == request.context_bytes
            &&& build.ready_at is None
            &&& build.error_code is None
            &&& build.error_detail is None
            &&& build.canceled_at is None
            &&& service.build_policy.max_audit_entries > 0 ==> after.state.audit_log.last().outcome
                == "accepted"@ && after.state.audit_log.last().actor_pubkey_hex == requester
                && after.state.audit_log.last().action == "submit_build"@
                && after.state.audit_log.last().ts == now
        }),
{
}

/// A build whose artifact is there already succeeds at once, if the artifact cannot
/// change; one from a source is fetched first, and is ready after half its timeout, but
/// not before two seconds and not after ninety.
pub proof fn build_service_takes_a_build(request: BuildSubmitRequestModel, now: u64)
    ensures
        request.artifact_ref is Some ==> (submit_outcome(request, now) is Ok ==> submit_outcome(
            request,
            now,
        )->Ok_0 == (BuildSubmitOutcomeModel::ImmediateSuccess {
            artifact_ref: request.artifact_ref->0,
        })),
        request.artifact_ref is None ==> submit_outcome(request, now) is Ok && submit_outcome(
            request,
            now,
        )->Ok_0 is Pending && submit_outcome(request, now)->Ok_0->next_phase is FetchingSource
            && is_capped_sum(
            submit_outcome(request, now)->Ok_0->ready_at,
            now,
            if request.timeout_sec < 4 {
                2u64
            } else if request.timeout_sec > 180 {
                90
            } else {
                (request.timeout_sec / 2) as u64
            },
        ),
{
}

/// What the build service made of a submission is written down, and answered: a build
/// that succeeded with its artifact, one that goes on, or one that failed.
pub proof fn submission_is_concluded(
    service: AgentControlServiceModel,
    job: SubmitJobModel,
    outcome: Result<BuildSubmitOutcomeModel, Seq<char>>,
    at: u64,
)
    ensures
        ({
            let (after, answer) = concluded_submission(service, job, outcome, at);
            let id = job.build.build_id;
            let build = after.state.builds[id];
            let now = job.build.created_at;
            &&& after.state.builds.contains_key(id)
            &&& other_builds_stay(service.state.builds, after.state.builds, id)
            &&& same_build(build, job.build)
            &&& build.updated_at == now
            &&& service_stays(after, service)
            &&& answer.statuses == job.statuses
            &&& outcome matches Ok(BuildSubmitOutcomeModel::ImmediateSuccess { artifact_ref })
                ==> build.phase is Succeeded && build.artifact_ref == Some(artifact_ref)
                && after.state.artifacts.contains_key(artifact_ref)
                && after.state.artifacts[artifact_ref].owner_pubkey_hex == job.requester
                && after.state.artifacts[artifact_ref].created_at == now
                && after.state.artifacts[artifact_ref].source_build_id == Some(id)
                && is_capped_sum(
                after.state.artifacts[artifact_ref].expires_at,
                now,
                service.build_policy.artifact_ttl_secs,
            )
            &&& outcome matches Ok(BuildSubmitOutcomeModel::Pending { next_phase, ready_at })
                ==> build.phase == next_phase && build.ready_at == Some(ready_at)
                && build.artifact_ref == job.build.artifact_ref && after.state.artifacts
                == service.state.artifacts
            &&& outcome is Err ==> build.phase is Failed && build.error_code == Some(
                "build_submit_failed"@,
            ) && build.error_detail == Some(outcome->Err_0) && after.state.artifacts
                == service.state.artifacts && is_refusal(
                answer,
                job.request_id,
                "build_submit_failed"@,
            ) && answer.error->0.detail == Some(outcome->Err_0)
            &&& outcome is Ok && !(build.phase is Failed) ==> answer.error is None && answer.result
                is Some && answer.result->0.request_id == job.request_id
                && answer.result->0.payload.get_text("operation"@) == Some("submit_build"@)
                && answer.result->0.payload.get("build"@) == Some(build_json(build))
            &&& service.build_policy.max_audit_entries > 0 ==> after.state.audit_log.last().ts == at
                && after.state.audit_log.last().actor_pubkey_hex == job.requester
                && after.state.audit_log.last().outcome == if build.phase is Failed {
                "failed"@
            } else {
                "ok"@
            }
        }),
{
    reveal_strlit("operation");
    reveal_strlit("build");
    assert("operation"@.len() == 9 && "build"@.len() == 5);
}

/// A submission that could not be written to disk leaves no build behind, and is
/// refused with what went wrong.
pub proof fn unsaved_submission_is_undone(
    service: AgentControlServiceModel,
    job: SubmitJobModel,
    error: Seq<char>,
    now: u64,
)
    ensures
        ({
            let (after, answer) = unpersisted_submission(service, job, error, now);
            &&& !after.state.builds.contains_key(job.build.build_id)
            &&& other_builds_stay(service.state.builds, after.state.builds, job.build.build_id)
            &&& after.state.artifacts == service.state.artifacts
            &&& service_stays(after, service)
            &&& is_refusal(answer, job.request_id, "state_persist_failed"@)
            &&& answer.error->0.detail == Some(error)
        }),
{
}

/// Whether a build is there, filed under its own id, for a requester who is on the list.
pub open spec fn has_build(
    service: AgentControlServiceModel,
    requester: Seq<char>,
    build_id: Seq<char>,
) -> bool {
    &&& on_the_list(service.provision_policy, requester)
    &&& service.state.builds.contains_key(build_id)
    &&& service.state.builds[build_id].build_id == build_id
    &&& service.state.builds[build_id].owner_pubkey_hex == requester
}

/// Whether a build is not there, or not the requester's.
pub open spec fn has_no_build(
    service: AgentControlServiceModel,
    requester: Seq<char>,
    build_id: Seq<char>,
) -> bool {
    service.state.builds.contains_key(build_id)
        ==> service.state.builds[build_id].owner_pubkey_hex != requester
}

/// Who asks about a build of theirs is told how it stands now; nobody else is told
/// anything of it.
pub proof fn build_is_shown_to_its_owner(
    service: AgentControlServiceModel,
    requester: Seq<char>,
    request_id: Seq<char>,
    build_id: Seq<char>,
    statuses: Seq<AgentControlStatusEnvelopeModel>,
    now: u64,
)
    ensures
        ({
            let (after, answer) = got_build(
                service,
                requester,
                request_id,
                build_id,
                statuses,
                now,
            );
            &&& answer.statuses == statuses
            &&& !on_the_list(service.provision_policy, requester) ==> after == service
                && is_refusal(answer, request_id, "provision_unauthorized"@)
            &&& on_the_list(service.provision_policy, requester) && has_no_build(
                service,
                requester,
                build_id,
            ) ==> after == service && is_refusal(answer, request_id, "build_not_found"@)
                && answer.error->0.detail == Some(build_id)
            &&& has_build(service, requester, build_id) ==> answer.error is None
                && answer.result is Some && answer.result->0.request_id == request_id
                && answer.result->0.payload.get_text("operation"@) == Some("get_build"@)
                && answer.result->0.payload.get("build"@) == Some(
                build_json(current_build(service, build_id, now)->0),
            ) && after.state.builds[build_id] == current_build(service, build_id, now)->0
        }),
{
    reveal_strlit("operation");
    reveal_strlit("build");
    assert("operation"@.len() == 9 && "build"@.len() == 5);
}

/// A build is canceled for its owner where it has not ended: it says so from now on, and
/// no other build is touched. One that ended is told as it is.
pub proof fn build_is_canceled_for_its_owner(
    service: AgentControlServiceModel,
    requester: Seq<char>,
    request_id: Seq<char>,
    build_id: Seq<char>,
    statuses: Seq<AgentControlStatusEnvelopeModel>,
    now: u64,
)
    ensures
        ({
            let begun = begun_cancellation(service, requester, request_id, build_id, statuses);
            let was = service.state.builds[build_id];
            let (after, answer) = concluded_cancellation(service, begun->Ok_0, Ok(()), now);
            let build = after.state.builds[build_id];
            &&& !on_the_list(service.provision_policy, requester) ==> begun is Err && is_refusal(
                begun->Err_0,
                request_id,
                "provision_unauthorized"@,
            )
            &&& on_the_list(service.provision_policy, requester) && has_no_build(
                service,
                requester,
                build_id,
            ) ==> begun is Err && is_refusal(begun->Err_0, request_id, "build_not_found"@)
            &&& has_build(service, requester, build_id) && has_ended(was) ==> begun is Err
                && begun->Err_0.error is None && begun->Err_0.result is Some
                && begun->Err_0.result->0.payload.get_bool("already_terminal"@) == Some(true)
                && begun->Err_0.result->0.payload.get("build"@) == Some(build_json(was))
            &&& has_build(service, requester, build_id) && !has_ended(was) ==> begun is Ok
                && begun->Ok_0.build == was && begun->Ok_0.requester == requester && same_build(
                build,
                was,
            ) && build.phase is Canceled && build.canceled_at == Some(now) && build.updated_at
                == now && build.error_code == Some("build_canceled"@) && build.artifact_ref
                == was.artifact_ref && build.ready_at == was.ready_at && other_builds_stay(
                service.state.builds,
                after.state.builds,
                build_id,
            ) && after.state.artifacts == service.state.artifacts && service_stays(after, service)
                && answer.error is None && answer.result is Some
                && answer.result->0.request_id == request_id
                && answer.result->0.payload.get_text("operation"@) == Some("cancel_build"@)
                && answer.result->0.payload.get_bool("already_terminal"@) == Some(false)
                && answer.result->0.payload.get("build"@) == Some(build_json(build))
        }),
{
    reveal_strlit("operation");
    reveal_strlit("build");
    reveal_strlit("already_terminal");
    assert("operation"@.len() == 9 && "build"@.len() == 5 && "already_terminal"@.len() == 16);
}

/// Where the build service fails to cancel a build, nothing changes, and that is told.
pub proof fn failed_cancellation_changes_nothing(
    service: AgentControlServiceModel,
    job: BuildJobModel,
    error: Seq<char>,
    now: u64,
)
    ensures
        concluded_cancellation(service, job, Err(error), now).0 == service,
        is_refusal(
            concluded_cancellation(service, job, Err(error), now).1,
            job.request_id,
            "build_cancel_failed"@,
        ),
        concluded_cancellation(service, job, Err(error), now).1.error->0.detail == Some(error),
{
}

/// A build is told with everything that is written down of it.
pub proof fn build_is_told_in_full(build: BuildRecordModel)
    ensures
        ({
            let told = build_json(build);
            &&& told.get_text("build_id"@) == Some(build.build_id)
            &&& told.get_text("owner_pubkey_hex"@) == Some(build.owner_pubkey_hex)
            &&& told.get_text("build_kind"@) == Some(
                match build.build_kind {
                    BuildKind::Oci => "oci"@,
                    BuildKind::Nix => "nix"@,
                },
            )
            &&& told.get_text("phase"@) == Some(
                match build.phase {
                    BuildPhase::Queued => "queued"@,
                    BuildPhase::Validating => "validating"@,
                    BuildPhase::FetchingSource => "fetching_source"@,
                    BuildPhase::Building => "building"@,
                    BuildPhase::PublishingArtifact => "publishing_artifact"@,
                    BuildPhase::Succeeded => "succeeded"@,
                    BuildPhase::Failed => "failed"@,
                    BuildPhase::Canceled => "canceled"@,
                },
            )
            &&& told.get("source_ref"@) == Some(JsonModel::optional_text(build.source_ref))
            &&& told.get("artifact_ref"@) == Some(JsonModel::optional_text(build.artifact_ref))
            &&& told.get_uint("created_at"@) == Some(build.created_at)
            &&& told.get_uint("updated_at"@) == Some(build.updated_at)
            &&& told.get_uint("deadline_at"@) == Some(build.deadline_at)
            &&& told.get("ready_at"@) == Some(JsonModel::optional_uint(build.ready_at))
            &&& told.get_uint("context_bytes"@) == Some(build.context_bytes)
            &&& told.get_uint("timeout_sec"@) == Some(build.timeout_sec)
            &&& told.get("error_code"@) == Some(JsonModel::optional_text(build.error_code))
            &&& told.get("error_detail"@) == Some(JsonModel::optional_text(build.error_detail))
            &&& told.get("canceled_at"@) == Some(JsonModel::optional_uint(build.canceled_at))
        }),
{
    reveal_strlit("build_id");
    reveal_strlit("owner_pubkey_hex");
    reveal_strlit("build_kind");
    reveal_strlit("phase");
    reveal_strlit("source_ref");
    reveal_strlit("artifact_ref");
    reveal_strlit("created_at");
    reveal_strlit("updated_at");
    reveal_strlit("deadline_at");
    reveal_strlit("ready_at");
    reveal_strlit("context_bytes");
    reveal_strlit("timeout_sec");
    reveal_strlit("error_code");
    reveal_strlit("error_detail");
    reveal_strlit("canceled_at");
    assert("build_id"@.len() == 8 && "build_id"@[0] == 'b');
    assert("ready_at"@.len() == 8 && "ready_at"@[0] == 'r');
    assert("owner_pubkey_hex"@.len() == 16);
    assert("phase"@.len() == 5);
    assert("build_kind"@.len() == 10 && "build_kind"@[0] == 'b');
    assert("source_ref"@.len() == 10 && "source_ref"@[0] == 's');
    assert("created_at"@.len() == 10 && "created_at"@[0] == 'c');
    assert("updated_at"@.len() == 10 && "updated_at"@[0] == 'u');
    assert("error_code"@.len() == 10 && "error_code"@[0] == 'e');
    assert("artifact_ref"@.len() == 12 && "artifact_ref"@[0] == 'a');
    assert("error_detail"@.len() == 12 && "error_detail"@[0] == 'e');
    assert("deadline_at"@.len() == 11 && "deadline_at"@[0] == 'd');
    assert("timeout_sec"@.len() == 11 && "timeout_sec"@[0] == 't');
    assert("canceled_at"@.len() == 11 && "canceled_at"@[0] == 'c');
    assert("context_bytes"@.len() == 13);
}

/// Asking about several builds asks about each of them, and about no other.
pub proof fn each_build_is_asked_about(
    service: AgentControlServiceModel,
    ids: Seq<Seq<char>>,
    now: u64,
    id: Seq<char>,
)
    requires
        ids.no_duplicates(),
        forall|other: Seq<char>| #[trigger]
            service.state.builds.contains_key(other) ==> service.state.builds[other].build_id
                == other,
        service.state.builds.contains_key(id),
    ensures
        ({
            let after = all_progressed(service, ids, now);
            &&& after.state.builds.dom() == service.state.builds.dom()
            &&& ids.contains(id) ==> after.state.builds[id] == current_build(service, id, now)->0
            &&& !ids.contains(id) ==> after.state.builds[id] == service.state.builds[id]
            &&& after.build_policy == service.build_policy
        }),
    decreases ids.len(),
{
    if ids.len() > 0 {
        let rest = ids.drop_last();
        let last = ids.last();
        let before = all_progressed(service, rest, now);
        assert forall|i: int, j: int| 0 <= i < j < rest.len() implies rest[i] != rest[j] by {
            assert(ids[i] != ids[j]);
        }
        each_build_is_asked_about(service, rest, now, id);
        if rest.contains(last) {
            let i = choose|i: int| 0 <= i < rest.len() && rest[i] == last;
            assert(ids[i] != ids[ids.len() - 1]);
        }
        if service.state.builds.contains_key(last) {
            each_build_is_asked_about(service, rest, now, last);
            asking_writes_the_build_down(before, last, now);
            assert(before.state.builds[last] == service.state.builds[last]);
        }
        if ids.contains(id) && id != last {
            let i = choose|i: int| 0 <= i < ids.len() && ids[i] == id;
            assert(rest[i] == id);
        }
        if rest.contains(id) {
            let i = choose|i: int| 0 <= i < rest.len() && rest[i] == id;
            assert(ids[i] == id);
        }
        assert(ids.contains(last)) by {
            assert(ids[ids.len() - 1] == last);
        }
        let after = all_progressed(service, ids, now);
        assert(after.state.builds.dom() =~= service.state.builds.dom());
    }
}

} // verus!
