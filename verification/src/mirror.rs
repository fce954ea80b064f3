//! The mirror of a repository: whether there is one, and what a pass over it comes
//! to.
use vstd::prelude::*;
use crate::agent::keys::{fail_in, failure_in};
use crate::agent::types::Failure;
use crate::collections::Replicate;

verus! {

/// How many passes are shown.
pub const MIRROR_HISTORY_LIMIT: usize = 12;

/// A repository, and the remote that it is mirrored to, where it is.
#[derive(Debug, PartialEq, Eq)]
pub struct ForgeRepo {
    pub repo: String,
    pub canonical_git_dir: String,
    pub default_branch: String,
    pub mirror_remote: Option<String>,
}

/// What a [`ForgeRepo`] holds.
#[verifier::ext_equal]
pub struct ForgeRepoModel {
    pub repo: Seq<char>,
    pub canonical_git_dir: Seq<char>,
    pub default_branch: Seq<char>,
    pub mirror_remote: Option<Seq<char>>,
}

impl DeepView for ForgeRepo {
    type V = ForgeRepoModel;

    open spec fn deep_view(&self) -> ForgeRepoModel {
        ForgeRepoModel {
            repo: self.repo.deep_view(),
            canonical_git_dir: self.canonical_git_dir.deep_view(),
            default_branch: self.default_branch.deep_view(),
            mirror_remote: self.mirror_remote.deep_view(),
        }
    }
}

impl View for ForgeRepo {
    type V = ForgeRepoModel;

    open spec fn view(&self) -> ForgeRepoModel {
        self.deep_view()
    }
}

impl Replicate for ForgeRepo {
    fn replicate(&self) -> (copy: Self) {
        ForgeRepo {
            repo: self.repo.replicate(),
            canonical_git_dir: self.canonical_git_dir.replicate(),
            default_branch: self.default_branch.replicate(),
            mirror_remote: self.mirror_remote.replicate(),
        }
    }
}

impl Clone for ForgeRepo {
    fn clone(&self) -> (copy: Self)
        ensures
            copy@ == self@,
    {
        self.replicate()
    }
}

/// A repository that is mirrored, and the remote that it is mirrored to.
#[derive(Debug, PartialEq, Eq)]
pub struct MirrorJob {
    pub repo: String,
    pub canonical_git_dir: String,
    pub default_branch: String,
    pub remote_name: String,
}

/// What a [`MirrorJob`] holds.
#[verifier::ext_equal]
pub struct MirrorJobModel {
    pub repo: Seq<char>,
    pub canonical_git_dir: Seq<char>,
    pub default_branch: Seq<char>,
    pub remote_name: Seq<char>,
}

impl DeepView for MirrorJob {
    type V = MirrorJobModel;

    open spec fn deep_view(&self) -> MirrorJobModel {
        MirrorJobModel {
            repo: self.repo.deep_view(),
            canonical_git_dir: self.canonical_git_dir.deep_view(),
            default_branch: self.default_branch.deep_view(),
            remote_name: self.remote_name.deep_view(),
        }
    }
}

impl View for MirrorJob {
    type V = MirrorJobModel;

    open spec fn view(&self) -> MirrorJobModel {
        self.deep_view()
    }
}

impl Replicate for MirrorJob {
    fn replicate(&self) -> (copy: Self) {
        MirrorJob {
            repo: self.repo.replicate(),
            canonical_git_dir: self.canonical_git_dir.replicate(),
            default_branch: self.default_branch.replicate(),
            remote_name: self.remote_name.replicate(),
        }
    }
}

impl Clone for MirrorJob {
    fn clone(&self) -> (copy: Self)
        ensures
            copy@ == self@,
    {
        self.replicate()
    }
}

/// What a pass found and did.
#[derive(Debug, PartialEq, Eq)]
pub struct MirrorOutcome {
    pub remote_name: String,
    pub local_default_head: Option<String>,
    pub remote_default_head: Option<String>,
    pub lagging_ref_count: i64,
    pub synced_ref_count: i64,
}

/// What a [`MirrorOutcome`] holds.
#[verifier::ext_equal]
pub struct MirrorOutcomeModel {
    pub remote_name: Seq<char>,
    pub local_default_head: Option<Seq<char>>,
    pub remote_default_head: Option<Seq<char>>,
    pub lagging_ref_count: i64,
    pub synced_ref_count: i64,
}

impl DeepView for MirrorOutcome {
    type V = MirrorOutcomeModel;

    open spec fn deep_view(&self) -> MirrorOutcomeModel {
        MirrorOutcomeModel {
            remote_name: self.remote_name.deep_view(),
            local_default_head: self.local_default_head.deep_view(),
            remote_default_head: self.remote_default_head.deep_view(),
            lagging_ref_count: self.lagging_ref_count.deep_view(),
            synced_ref_count: self.synced_ref_count.deep_view(),
        }
    }
}

impl View for MirrorOutcome {
    type V = MirrorOutcomeModel;

    open spec fn view(&self) -> MirrorOutcomeModel {
        self.deep_view()
    }
}

impl Replicate for MirrorOutcome {
    fn replicate(&self) -> (copy: Self) {
        MirrorOutcome {
            remote_name: self.remote_name.replicate(),
            local_default_head: self.local_default_head.replicate(),
            remote_default_head: self.remote_default_head.replicate(),
            lagging_ref_count: self.lagging_ref_count.replicate(),
            synced_ref_count: self.synced_ref_count.replicate(),
        }
    }
}

impl Clone for MirrorOutcome {
    fn clone(&self) -> (copy: Self)
        ensures
            copy@ == self@,
    {
        self.replicate()
    }
}

/// Why a pass failed, and what could still be found.
#[derive(Debug, PartialEq, Eq)]
pub struct MirrorFailure {
    pub error: String,
    pub inspected: Option<MirrorOutcome>,
}

/// What a [`MirrorFailure`] holds.
#[verifier::ext_equal]
pub struct MirrorFailureModel {
    pub error: Seq<char>,
    pub inspected: Option<MirrorOutcomeModel>,
}

impl DeepView for MirrorFailure {
    type V = MirrorFailureModel;

    open spec fn deep_view(&self) -> MirrorFailureModel {
        MirrorFailureModel {
            error: self.error.deep_view(),
            inspected: self.inspected.deep_view(),
        }
    }
}

impl View for MirrorFailure {
    type V = MirrorFailureModel;

    open spec fn view(&self) -> MirrorFailureModel {
        self.deep_view()
    }
}

impl Replicate for MirrorFailure {
    fn replicate(&self) -> (copy: Self) {
        MirrorFailure {
            error: self.error.replicate(),
            inspected: self.inspected.replicate(),
        }
    }
}

impl Clone for MirrorFailure {
    fn clone(&self) -> (copy: Self)
        ensures
            copy@ == self@,
    {
        self.replicate()
    }
}

/// A pass as it is recorded.
#[derive(Debug, PartialEq, Eq)]
pub struct MirrorSyncRunInput {
    pub repo: String,
    pub canonical_git_dir: String,
    pub default_branch: String,
    pub remote_name: String,
    pub trigger_source: String,
    pub status: String,
    pub local_default_head: Option<String>,
    pub remote_default_head: Option<String>,
    pub lagging_ref_count: Option<i64>,
    pub synced_ref_count: Option<i64>,
    pub error_text: Option<String>,
}

/// What a [`MirrorSyncRunInput`] holds.
#[verifier::ext_equal]
pub struct MirrorSyncRunInputModel {
    pub repo: Seq<char>,
    pub canonical_git_dir: Seq<char>,
    pub default_branch: Seq<char>,
    pub remote_name: Seq<char>,
    pub trigger_source: Seq<char>,
    pub status: Seq<char>,
    pub local_default_head: Option<Seq<char>>,
    pub remote_default_head: Option<Seq<char>>,
    pub lagging_ref_count: Option<i64>,
    pub synced_ref_count: Option<i64>,
    pub error_text: Option<Seq<char>>,
}

impl DeepView for MirrorSyncRunInput {
    type V = MirrorSyncRunInputModel;

    open spec fn deep_view(&self) -> MirrorSyncRunInputModel {
        MirrorSyncRunInputModel {
            repo: self.repo.deep_view(),
            canonical_git_dir: self.canonical_git_dir.deep_view(),
            default_branch: self.default_branch.deep_view(),
            remote_name: self.remote_name.deep_view(),
            trigger_source: self.trigger_source.deep_view(),
            status: self.status.deep_view(),
            local_default_head: self.local_default_head.deep_view(),
            remote_default_head: self.remote_default_head.deep_view(),
            lagging_ref_count: self.lagging_ref_count.deep_view(),
            synced_ref_count: self.synced_ref_count.deep_view(),
            error_text: self.error_text.deep_view(),
        }
    }
}

impl View for MirrorSyncRunInput {
    type V = MirrorSyncRunInputModel;

    open spec fn view(&self) -> MirrorSyncRunInputModel {
        self.deep_view()
    }
}

impl Replicate for MirrorSyncRunInput {
    fn replicate(&self) -> (copy: Self) {
        MirrorSyncRunInput {
            repo: self.repo.replicate(),
            canonical_git_dir: self.canonical_git_dir.replicate(),
            default_branch: self.default_branch.replicate(),
            remote_name: self.remote_name.replicate(),
            trigger_source: self.trigger_source.replicate(),
            status: self.status.replicate(),
            local_default_head: self.local_default_head.replicate(),
            remote_default_head: self.remote_default_head.replicate(),
            lagging_ref_count: self.lagging_ref_count.replicate(),
            synced_ref_count: self.synced_ref_count.replicate(),
            error_text: self.error_text.replicate(),
        }
    }
}

impl Clone for MirrorSyncRunInput {
    fn clone(&self) -> (copy: Self)
        ensures
            copy@ == self@,
    {
        self.replicate()
    }
}

/// What a pass came to.
#[derive(Debug, PartialEq, Eq)]
pub struct MirrorPassResult {
    pub attempted: bool,
    pub status: Option<String>,
    pub lagging_ref_count: Option<i64>,
}

/// What a [`MirrorPassResult`] holds.
#[verifier::ext_equal]
pub struct MirrorPassResultModel {
    pub attempted: bool,
    pub status: Option<Seq<char>>,
    pub lagging_ref_count: Option<i64>,
}

impl DeepView for MirrorPassResult {
    type V = MirrorPassResultModel;

    open spec fn deep_view(&self) -> MirrorPassResultModel {
        MirrorPassResultModel {
            attempted: self.attempted.deep_view(),
            status: self.status.deep_view(),
            lagging_ref_count: self.lagging_ref_count.deep_view(),
        }
    }
}

impl View for MirrorPassResult {
    type V = MirrorPassResultModel;

    open spec fn view(&self) -> MirrorPassResultModel {
        self.deep_view()
    }
}

impl Replicate for MirrorPassResult {
    fn replicate(&self) -> (copy: Self) {
        MirrorPassResult {
            attempted: self.attempted.replicate(),
            status: self.status.replicate(),
            lagging_ref_count: self.lagging_ref_count.replicate(),
        }
    }
}

impl Clone for MirrorPassResult {
    fn clone(&self) -> (copy: Self)
        ensures
            copy@ == self@,
    {
        self.replicate()
    }
}

/// What is looked up to tell how a mirror stands.
#[derive(Debug, PartialEq, Eq)]
pub struct MirrorQuery {
    pub repo: String,
    pub remote_name: String,
    pub history_limit: usize,
}

/// What a [`MirrorQuery`] holds.
#[verifier::ext_equal]
pub struct MirrorQueryModel {
    pub repo: Seq<char>,
    pub remote_name: Seq<char>,
    pub history_limit: usize,
}

impl DeepView for MirrorQuery {
    type V = MirrorQueryModel;

    open spec fn deep_view(&self) -> MirrorQueryModel {
        MirrorQueryModel {
            repo: self.repo.deep_view(),
            remote_name: self.remote_name.deep_view(),
            history_limit: self.history_limit.deep_view(),
        }
    }
}

impl View for MirrorQuery {
    type V = MirrorQueryModel;

    open spec fn view(&self) -> MirrorQueryModel {
        self.deep_view()
    }
}

impl Replicate for MirrorQuery {
    fn replicate(&self) -> (copy: Self) {
        MirrorQuery {
            repo: self.repo.replicate(),
            remote_name: self.remote_name.replicate(),
            history_limit: self.history_limit.replicate(),
        }
    }
}

impl Clone for MirrorQuery {
    fn clone(&self) -> (copy: Self)
        ensures
            copy@ == self@,
    {
        self.replicate()
    }
}

/// A pass that did not take place.
pub open spec fn no_pass() -> MirrorPassResultModel {
    MirrorPassResultModel { attempted: false, status: None, lagging_ref_count: None }
}

impl Default for MirrorPassResult {
    /// A pass that did not take place.
    fn default() -> (result: Self)
        ensures
            result@ == no_pass(),
    {
        MirrorPassResult { attempted: false, status: None, lagging_ref_count: None }
    }
}

/// The mirror of a repository, where there is one.
pub open spec fn mirror_of(forge_repo: Option<ForgeRepoModel>) -> Option<MirrorJobModel> {
    match forge_repo {
        Some(repo) => match repo.mirror_remote {
            Some(remote_name) => Some(
                MirrorJobModel {
                    repo: repo.repo,
                    canonical_git_dir: repo.canonical_git_dir,
                    default_branch: repo.default_branch,
                    remote_name,
                },
            ),
            None => None,
        },
        None => None,
    }
}

/// The mirror of a repository, where there is one.
pub fn begin_mirror_pass(forge_repo: Option<ForgeRepo>) -> (job: Option<MirrorJob>)
    ensures
        job.deep_view() == mirror_of(forge_repo.deep_view()),
{
    match forge_repo {
        Some(repo) => match repo.mirror_remote {
            Some(remote_name) => Some(
                MirrorJob {
                    repo: repo.repo,
                    canonical_git_dir: repo.canonical_git_dir,
                    default_branch: repo.default_branch,
                    remote_name,
                },
            ),
            None => None,
        },
        None => None,
    }
}

/// What is recorded of a pass.
pub open spec fn pass_record(
    job: MirrorJobModel,
    trigger_source: Seq<char>,
    synced: Result<MirrorOutcomeModel, MirrorFailureModel>,
) -> MirrorSyncRunInputModel {
    match synced {
        Ok(outcome) => MirrorSyncRunInputModel {
            repo: job.repo,
            canonical_git_dir: job.canonical_git_dir,
            default_branch: job.default_branch,
            remote_name: outcome.remote_name,
            trigger_source,
            status: "success"@,
            local_default_head: outcome.local_default_head,
            remote_default_head: outcome.remote_default_head,
            lagging_ref_count: Some(outcome.lagging_ref_count),
            synced_ref_count: Some(outcome.synced_ref_count),
            error_text: None,
        },
        Err(failure) => MirrorSyncRunInputModel {
            repo: job.repo,
            canonical_git_dir: job.canonical_git_dir,
            default_branch: job.default_branch,
            remote_name: job.remote_name,
            trigger_source,
            status: "failed"@,
            local_default_head: match failure.inspected {
                Some(state) => state.local_default_head,
                None => None,
            },
            remote_default_head: match failure.inspected {
                Some(state) => state.remote_default_head,
                None => None,
            },
            lagging_ref_count: match failure.inspected {
                Some(state) => Some(state.lagging_ref_count),
                None => None,
            },
            synced_ref_count: match failure.inspected {
                Some(state) => Some(state.synced_ref_count),
                None => None,
            },
            error_text: Some(failure.error),
        },
    }
}

/// What a pass came to.
pub open spec fn pass_result(record: MirrorSyncRunInputModel) -> MirrorPassResultModel {
    MirrorPassResultModel {
        attempted: true,
        status: Some(record.status),
        lagging_ref_count: record.lagging_ref_count,
    }
}

/// A pass, as a model.
pub open spec fn synced_model(synced: Result<MirrorOutcome, MirrorFailure>) -> Result<
    MirrorOutcomeModel,
    MirrorFailureModel,
> {
    match synced {
        Ok(outcome) => Ok(outcome@),
        Err(failure) => Err(failure@),
    }
}

/// What is recorded of a pass, and what it came to.
pub fn run_mirror_pass(
    job: &MirrorJob,
    trigger_source: &str,
    synced: Result<MirrorOutcome, MirrorFailure>,
) -> (pass: (MirrorSyncRunInput, MirrorPassResult))
    ensures
        pass.0@ == pass_record(job@, trigger_source@, synced_model(synced)),
        pass.1@ == pass_result(pass.0@),
{
    let record = match synced {
        Ok(outcome) => MirrorSyncRunInput {
            repo: job.repo.clone(),
            canonical_git_dir: job.canonical_git_dir.clone(),
            default_branch: job.default_branch.clone(),
            remote_name: outcome.remote_name,
            trigger_source: trigger_source.to_owned(),
            status: "success".to_owned(),
            local_default_head: outcome.local_default_head,
            remote_default_head: outcome.remote_default_head,
            lagging_ref_count: Some(outcome.lagging_ref_count),
            synced_ref_count: Some(outcome.synced_ref_count),
            error_text: None,
        },
        Err(failure) => {
            let mut record = MirrorSyncRunInput {
                repo: job.repo.clone(),
                canonical_git_dir: job.canonical_git_dir.clone(),
                default_branch: job.default_branch.clone(),
                remote_name: job.remote_name.clone(),
                trigger_source: trigger_source.to_owned(),
                status: "failed".to_owned(),
                local_default_head: None,
                remote_default_head: None,
                lagging_ref_count: None,
                synced_ref_count: None,
                error_text: Some(failure.error),
            };
            if let Some(state) = failure.inspected {
                record.local_default_head = state.local_default_head;
                record.remote_default_head = state.remote_default_head;
                record.lagging_ref_count = Some(state.lagging_ref_count);
                record.synced_ref_count = Some(state.synced_ref_count);
            }
            record
        },
    };
    let result = MirrorPassResult {
        attempted: true,
        status: Some(record.status.clone()),
        lagging_ref_count: record.lagging_ref_count,
    };
    (record, result)
}

/// What is looked up to tell how the mirror of a repository stands, where there is
/// one.
pub fn get_mirror_status(forge_repo: Option<ForgeRepo>) -> (query: Option<MirrorQuery>)
    ensures
        query.deep_view() == match mirror_of(forge_repo.deep_view()) {
            Some(job) => Some(
                MirrorQueryModel {
                    repo: job.repo,
                    remote_name: job.remote_name,
                    history_limit: MIRROR_HISTORY_LIMIT,
                },
            ),
            None => None,
        },
{
    match begin_mirror_pass(forge_repo) {
        Some(job) => Some(
            MirrorQuery {
                repo: job.repo,
                remote_name: job.remote_name,
                history_limit: MIRROR_HISTORY_LIMIT,
            },
        ),
        None => None,
    }
}

/// What a store told of how the mirror stands: nothing more is looked up where it told
/// nothing.
pub fn take_mirror_status<S>(status: Result<Option<S>, String>) -> (taken: Result<
    Option<S>,
    Failure,
>)
    ensures
        match status {
            Ok(status) => taken == Ok::<Option<S>, Failure>(status),
            Err(cause) => taken is Err && taken->Err_0@ == failure_in(
                "load mirror status"@,
                cause@,
            ),
        },
{
    match status {
        Ok(status) => Ok(status),
        Err(cause) => Err(fail_in("load mirror status", cause.as_str())),
    }
}

/// How the mirror stands, with what a store told of the last passes.
pub fn take_mirror_history<S, R>(status: S, history: Result<Vec<R>, String>) -> (taken: Result<
    (S, Vec<R>),
    Failure,
>)
    ensures
        match history {
            Ok(history) => taken == Ok::<(S, Vec<R>), Failure>((status, history)),
            Err(cause) => taken is Err && taken->Err_0@ == failure_in(
                "load mirror history"@,
                cause@,
            ),
        },
{
    match history {
        Ok(history) => Ok((status, history)),
        Err(cause) => Err(fail_in("load mirror history", cause.as_str())),
    }
}

/// How the mirror stands, from what a store told: nothing where it told of no status,
/// whatever it told of the last passes; and the failure to tell of the status first.
pub fn mirror_status_from<S, R>(
    status: Result<Option<S>, String>,
    history: Result<Vec<R>, String>,
) -> (answer: Result<Option<(S, Vec<R>)>, Failure>)
    ensures
        match (status, history) {
            (Err(cause), _) => answer is Err && answer->Err_0@ == failure_in(
                "load mirror status"@,
                cause@,
            ),
            (Ok(None), _) => answer == Ok::<Option<(S, Vec<R>)>, Failure>(None),
            (Ok(Some(status)), Err(cause)) => answer is Err && answer->Err_0@ == failure_in(
                "load mirror history"@,
                cause@,
            ),
            (Ok(Some(status)), Ok(history)) => answer == Ok::<Option<(S, Vec<R>)>, Failure>(
                Some((status, history)),
            ),
        },
{
    match take_mirror_status(status) {
        Err(failure) => Err(failure),
        Ok(None) => Ok(None),
        Ok(Some(status)) => match take_mirror_history(status, history) {
            Err(failure) => Err(failure),
            Ok(answer) => Ok(Some(answer)),
        },
    }
}

/// A pass that took place says so, and says the same as what is recorded of it.
pub proof fn pass_tells_what_is_recorded(
    job: MirrorJobModel,
    trigger_source: Seq<char>,
    synced: Result<MirrorOutcomeModel, MirrorFailureModel>,
)
    ensures
        ({
            let record = pass_record(job, trigger_source, synced);
            &&& pass_result(record).attempted
            &&& pass_result(record).status == Some(record.status)
            &&& record.status == if synced is Ok {
                "success"@
            } else {
                "failed"@
            }
            &&& record.error_text is Some <==> synced is Err
        }),
{
}

} // verus!
