//! What the smaller tools come to: mirrors, jobs, workspaces and the labels of peers.
use vstd::prelude::*;
use vstd::utf8::encode_utf8;
use crate::ci::{jobs_named, status_word, GuestCommandModel, RunStatus, JOB_TIMEOUT_SECS};
use crate::crypto::sha256;
use crate::mirror::{
    mirror_of, no_pass, pass_record, pass_result, ForgeRepoModel, MirrorFailureModel,
    MirrorJobModel, MirrorOutcomeModel, MirrorSyncRunInputModel, MIRROR_HISTORY_LIMIT,
};
use crate::text_laws::hex_value;
use crate::voice_media::{hex_of, participant_label};
use crate::workspace::{
    first_root, found_root, resolved_root, CliErrorModel, DirectoryModel, FoundDirectoryModel,
    RequestedRootModel,
};

verus! {

/// A repository has a mirror where it names a remote for it, and the mirror is of that
/// repository; without a repository or a remote there is no pass.
pub proof fn mirror_is_of_its_repository(repo: ForgeRepoModel)
    ensures
        mirror_of(None) is None,
        mirror_of(Some(repo)) is Some <==> repo.mirror_remote is Some,
        repo.mirror_remote is Some ==> ({
            let job = mirror_of(Some(repo))->0;
            &&& job.repo == repo.repo
            &&& job.canonical_git_dir == repo.canonical_git_dir
            &&& job.default_branch == repo.default_branch
            &&& job.remote_name == repo.mirror_remote->0
        }),
        !no_pass().attempted,
        no_pass().status is None,
        no_pass().lagging_ref_count is None,
        MIRROR_HISTORY_LIMIT == 12,
{
}

/// Whether a record is of a job and of what set it off.
pub open spec fn is_record_of(
    record: MirrorSyncRunInputModel,
    job: MirrorJobModel,
    trigger: Seq<char>,
) -> bool {
    &&& record.repo == job.repo
    &&& record.canonical_git_dir == job.canonical_git_dir
    &&& record.default_branch == job.default_branch
    &&& record.trigger_source == trigger
}

/// A pass that went through is recorded as a success, with what it found and how many
/// references it synced and left behind; one that failed as failed, with its error and
/// what could still be found.
pub proof fn pass_is_recorded_as_it_went(
    job: MirrorJobModel,
    trigger: Seq<char>,
    outcome: MirrorOutcomeModel,
    failure: MirrorFailureModel,
)
    ensures
        ({
            let good = pass_record(job, trigger, Ok(outcome));
            let bad = pass_record(job, trigger, Err(failure));
            let found = failure.inspected->0;
            &&& is_record_of(good, job, trigger)
            &&& good.status == "success"@
            &&& good.remote_name == outcome.remote_name
            &&& good.local_default_head == outcome.local_default_head
            &&& good.remote_default_head == outcome.remote_default_head
            &&& good.lagging_ref_count == Some(outcome.lagging_ref_count)
            &&& good.synced_ref_count == Some(outcome.synced_ref_count)
            &&& good.error_text is None
            &&& is_record_of(bad, job, trigger)
            &&& bad.status == "failed"@
            &&& bad.remote_name == job.remote_name
            &&& bad.error_text == Some(failure.error)
            &&& failure.inspected is None ==> bad.local_default_head is None
                && bad.remote_default_head is None && bad.lagging_ref_count is None
                && bad.synced_ref_count is None
            &&& failure.inspected is Some ==> bad.local_default_head == found.local_default_head
                && bad.remote_default_head == found.remote_default_head && bad.lagging_ref_count
                == Some(found.lagging_ref_count) && bad.synced_ref_count == Some(
                found.synced_ref_count,
            )
        }),
{
}

/// What is told of a pass is that it took place, and the status and the number of
/// references left behind of its record.
pub proof fn pass_is_told_as_recorded(record: MirrorSyncRunInputModel)
    ensures
        pass_result(record).attempted,
        pass_result(record).status == Some(record.status),
        pass_result(record).lagging_ref_count == record.lagging_ref_count,
{
}

proof fn lemma_job_names()
    ensures
        "beachhead"@.len() == 9,
        "agent-control-plane-unit"@.len() == 24,
        "agent-microvm-tests"@.len() == 19,
        "server-agent-api-tests"@.len() == 22,
        "core-agent-nip98-test"@.len() == 21,
        "agent-contracts-smoke"@.len() == 21,
        "core-agent-nip98-test"@ != "agent-contracts-smoke"@,
{
    reveal_strlit("beachhead");
    reveal_strlit("agent-control-plane-unit");
    reveal_strlit("agent-microvm-tests");
    reveal_strlit("server-agent-api-tests");
    reveal_strlit("core-agent-nip98-test");
    reveal_strlit("agent-contracts-smoke");
    assert("core-agent-nip98-test"@[0] == 'c');
    assert("agent-contracts-smoke"@[0] == 'a');
}

/// Every job goes by its name, takes half an hour at most, and runs what it is there
/// for; the smoke test runs the four others of the agents, one after the other.
pub proof fn jobs_run_what_they_are_named_for(name: Seq<char>, i: int)
    ensures
        JOB_TIMEOUT_SECS == 1800,
        jobs_named(name) is Ok && 0 <= i < jobs_named(name)->Ok_0.len()
            ==> jobs_named(name)->Ok_0[i].timeout_secs == 1800,
        jobs_named(name) is Ok && name != "agent-contracts-smoke"@ ==> jobs_named(
            name,
        )->Ok_0.len() == 1 && jobs_named(name)->Ok_0[0].id == name,
        jobs_named(name) is Err ==> jobs_named(name)->Err_0 == "unknown job `"@ + name + "`"@,
        jobs_named("beachhead"@)->Ok_0[0].guest_command == (GuestCommandModel::ExactCargoTest {
            package: "pika-agent-control-plane"@,
            test_name: "tests::command_envelope_round_trips"@,
        }),
        jobs_named("agent-control-plane-unit"@)->Ok_0[0].guest_command == (
        GuestCommandModel::PackageUnitTests { package: "pika-agent-control-plane"@ }),
        jobs_named("agent-microvm-tests"@)->Ok_0[0].guest_command == (
        GuestCommandModel::PackageTests { package: "pika-agent-microvm"@ }),
        jobs_named("server-agent-api-tests"@)->Ok_0[0].guest_command == (
        GuestCommandModel::FilteredCargoTests {
            package: "pika-server"@,
            filter: "agent_api::tests"@,
        }),
        jobs_named("core-agent-nip98-test"@)->Ok_0[0].guest_command == (
        GuestCommandModel::ExactCargoTest {
            package: "pika_core"@,
            test_name:
                "core::agent::tests::run_agent_flow_signs_requests_with_nip98_authorization"@,
        }),
        jobs_named("agent-contracts-smoke"@)->Ok_0 == jobs_named(
            "agent-control-plane-unit"@,
        )->Ok_0 + jobs_named("agent-microvm-tests"@)->Ok_0 + jobs_named(
            "server-agent-api-tests"@,
        )->Ok_0 + jobs_named("core-agent-nip98-test"@)->Ok_0,
{
    lemma_job_names();
    assert(jobs_named("agent-contracts-smoke"@)->Ok_0 =~= jobs_named(
        "agent-control-plane-unit"@,
    )->Ok_0 + jobs_named("agent-microvm-tests"@)->Ok_0 + jobs_named(
        "server-agent-api-tests"@,
    )->Ok_0 + jobs_named("core-agent-nip98-test"@)->Ok_0);
}

/// A run is running, passed or failed, each by its own word.
pub proof fn runs_go_by_their_words()
    ensures
        status_word(RunStatus::Running) == "running"@,
        status_word(RunStatus::Passed) == "passed"@,
        status_word(RunStatus::Failed) == "failed"@,
{
}

/// The root that is found is the nearest directory with a manifest; where there is none,
/// that is told, and where the directories could not be told, why.
pub proof fn nearest_manifest_is_the_root(directories: Seq<DirectoryModel>, error: Seq<char>)
    ensures
        (forall|i: int| 0 <= i < directories.len() ==> !(#[trigger] directories[i]).has_manifest)
            ==> found_root(Ok(directories)) is Err && found_root(Ok(directories))->Err_0 is User,
        forall|i: int|
            0 <= i < directories.len() && (#[trigger] directories[i]).has_manifest && (forall|
                j: int,
            |
                0 <= j < i ==> !(#[trigger] directories[j]).has_manifest) ==> found_root(
                Ok(directories),
            ) == Ok::<Seq<char>, CliErrorModel>(directories[i].path),
        found_root(Err(error)) == Err::<Seq<char>, CliErrorModel>(
            CliErrorModel::Operational("failed to resolve cwd: "@ + error),
        ),
{
    lemma_first_root(directories);
}

proof fn lemma_first_root(directories: Seq<DirectoryModel>)
    ensures
        (forall|i: int| 0 <= i < directories.len() ==> !(#[trigger] directories[i]).has_manifest)
            ==> first_root(directories) is None,
        forall|i: int|
            0 <= i < directories.len() && (#[trigger] directories[i]).has_manifest && (forall|
                j: int,
            |
                0 <= j < i ==> !(#[trigger] directories[j]).has_manifest) ==> first_root(
                directories,
            ) == Some(directories[i].path),
    decreases directories.len(),
{
    if directories.len() > 0 && !directories[0].has_manifest {
        let rest = directories.skip(1);
        lemma_first_root(rest);
        if forall|i: int| 0 <= i < directories.len() ==> !(#[trigger] directories[i]).has_manifest {
            assert forall|i: int| 0 <= i < rest.len() implies !(#[trigger] rest[i]).has_manifest by {
                assert(!directories[i + 1].has_manifest);
            }
        }
        assert forall|i: int|
            0 <= i < directories.len() && (#[trigger] directories[i]).has_manifest && (forall|
                j: int,
            |
                0 <= j < i ==> !(#[trigger] directories[j]).has_manifest) implies first_root(
            directories,
        ) == Some(directories[i].path) by {
            assert(rest[i - 1] == directories[i]);
            assert forall|j: int| 0 <= j < i - 1 implies !(#[trigger] rest[j]).has_manifest by {
                assert(!directories[j + 1].has_manifest);
            }
        }
    }
}

/// A root that is asked for counts where it is there and has a manifest, whatever the
/// directories around are; otherwise what is wrong with it is told. Without one the
/// nearest is looked for.
pub proof fn requested_root_counts(
    requested: RequestedRootModel,
    directories: Result<Seq<DirectoryModel>, Seq<char>>,
)
    ensures
        resolved_root(None, directories) == found_root(directories),
        requested.found matches FoundDirectoryModel::Found(d) ==> (d.has_manifest
            ==> resolved_root(Some(requested), directories) == Ok::<Seq<char>, CliErrorModel>(
            d.path,
        )) && (!d.has_manifest ==> resolved_root(Some(requested), directories) == Err::<
            Seq<char>,
            CliErrorModel,
        >(CliErrorModel::User("--root '"@ + d.path + "' does not contain rmp.toml"@))),
        requested.found matches FoundDirectoryModel::Missing(error) ==> resolved_root(
            Some(requested),
            directories,
        ) == Err::<Seq<char>, CliErrorModel>(
            CliErrorModel::User(
                "failed to resolve --root path '"@ + requested.candidate + "': "@ + error,
            ),
        ),
{
}

/// Bytes are told in two hexadecimal digits each, in order.
pub proof fn bytes_are_told_in_digits(bytes: Seq<u8>, i: int)
    requires
        0 <= i < bytes.len(),
    ensures
        hex_of(bytes).len() == 2 * bytes.len(),
        hex_value(hex_of(bytes).subrange(2 * i, 2 * i + 2)) == bytes[i],
    decreases bytes.len(),
{
    let rest = bytes.drop_last();
    let last = crate::text::hex_text(bytes.last() as nat, 2);
    crate::text_laws::hexadecimal_is_worth_its_number(bytes.last() as nat, 2);
    reveal_with_fuel(crate::text_laws::power, 3);
    lemma_digits_length(rest);
    let all = hex_of(bytes);
    if i < rest.len() {
        bytes_are_told_in_digits(rest, i);
        assert(all.subrange(2 * i, 2 * i + 2) =~= hex_of(rest).subrange(2 * i, 2 * i + 2));
    } else {
        assert(all.subrange(2 * i, 2 * i + 2) =~= last);
        assert(bytes.last() as nat % 256 == bytes.last());
    }
}

proof fn lemma_digits_length(bytes: Seq<u8>)
    ensures
        hex_of(bytes).len() == 2 * bytes.len(),
    decreases bytes.len(),
{
    if bytes.len() > 0 {
        lemma_digits_length(bytes.drop_last());
        crate::text_laws::hexadecimal_is_worth_its_number(bytes.last() as nat, 2);
    }
}

/// The label of a peer is the digest of its public key in hexadecimal digits.
pub proof fn label_is_the_digest(pubkey: Seq<char>, i: int)
    requires
        0 <= i < sha256(encode_utf8(pubkey)).len(),
    ensures
        participant_label(pubkey).len() == 2 * sha256(encode_utf8(pubkey)).len(),
        hex_value(participant_label(pubkey).subrange(2 * i, 2 * i + 2)) == sha256(
            encode_utf8(pubkey),
        )[i],
{
    bytes_are_told_in_digits(sha256(encode_utf8(pubkey)), i);
}

} // verus!
