use rapture_core::agent::types::Failure;
use rapture_core::mirror::{
    begin_mirror_pass, get_mirror_status, mirror_status_from, run_mirror_pass,
    take_mirror_history, take_mirror_status, ForgeRepo, MirrorFailure, MirrorOutcome,
    MirrorPassResult,
};

fn forge(mirror_remote: Option<&str>) -> ForgeRepo {
    ForgeRepo {
        repo: "sledtools/pika".to_string(),
        canonical_git_dir: "/srv/canonical.git".to_string(),
        default_branch: "master".to_string(),
        mirror_remote: mirror_remote.map(str::to_string),
    }
}

fn found(lagging: i64, synced: i64) -> MirrorOutcome {
    MirrorOutcome {
        remote_name: "github".to_string(),
        local_default_head: Some("aaa".to_string()),
        remote_default_head: Some("bbb".to_string()),
        lagging_ref_count: lagging,
        synced_ref_count: synced,
    }
}

#[test]
fn mirror_pass_records_success_and_zero_lag() {
    let job = begin_mirror_pass(Some(forge(Some("github")))).expect("mirror");
    let (record, result) = run_mirror_pass(&job, "background", Ok(found(0, 1)));
    assert!(result.attempted);
    assert_eq!(result.status.as_deref(), Some("success"));
    assert_eq!(result.lagging_ref_count, Some(0));
    assert_eq!(record.status, "success");
    assert_eq!(record.repo, "sledtools/pika");
    assert_eq!(record.remote_name, "github");
    assert_eq!(record.trigger_source, "background");
    assert_eq!(record.synced_ref_count, Some(1));
    assert_eq!(record.error_text, None);
}

#[test]
fn mirror_pass_records_failure_for_bad_remote() {
    let job = begin_mirror_pass(Some(forge(Some("github")))).expect("mirror");
    let failure = MirrorFailure {
        error: "mirror remote github is not configured".to_string(),
        inspected: None,
    };
    let (attempt, result) = run_mirror_pass(&job, "manual", Err(failure));
    assert!(result.attempted);
    assert_eq!(result.status.as_deref(), Some("failed"));
    assert_eq!(result.lagging_ref_count, None);
    assert_eq!(attempt.status, "failed");
    assert!(attempt.error_text.unwrap_or_default().contains("mirror remote"));
    assert_eq!(attempt.local_default_head, None);
}

#[test]
fn failed_pass_keeps_what_could_be_inspected() {
    let job = begin_mirror_pass(Some(forge(Some("github")))).expect("mirror");
    let failure = MirrorFailure { error: "push refused".to_string(), inspected: Some(found(3, 4)) };
    let (record, result) = run_mirror_pass(&job, "manual", Err(failure));
    assert_eq!(record.local_default_head.as_deref(), Some("aaa"));
    assert_eq!(record.remote_default_head.as_deref(), Some("bbb"));
    assert_eq!(record.lagging_ref_count, Some(3));
    assert_eq!(record.synced_ref_count, Some(4));
    assert_eq!(result.lagging_ref_count, Some(3));
}

#[test]
fn without_a_mirror_nothing_is_attempted() {
    assert!(begin_mirror_pass(None).is_none());
    assert!(begin_mirror_pass(Some(forge(None))).is_none());
    assert!(get_mirror_status(Some(forge(None))).is_none());
    let query = get_mirror_status(Some(forge(Some("github")))).expect("query");
    assert_eq!(query.repo, "sledtools/pika");
    assert_eq!(query.remote_name, "github");
    assert_eq!(query.history_limit, 12);
    let none = MirrorPassResult::default();
    assert!(!none.attempted);
    assert_eq!(none.status, None);
    assert_eq!(none.lagging_ref_count, None);
}

#[test]
fn mirror_status_is_told_as_the_store_tells_it() {
    type Told = Result<Option<(u32, Vec<u8>)>, Failure>;
    let status = |status: Result<Option<u32>, &str>, history: Result<Vec<u8>, &str>| -> Told {
        mirror_status_from(status.map_err(str::to_string), history.map_err(str::to_string))
    };
    assert_eq!(status(Ok(Some(7)), Ok(vec![1, 2])), Ok(Some((7, vec![1, 2]))));
    assert_eq!(status(Ok(None), Ok(vec![1])), Ok(None));
    assert_eq!(status(Ok(None), Err("gone")), Ok(None));
    let failure = status(Err("locked"), Err("gone")).expect_err("no status");
    assert_eq!(failure.brief, "load mirror status");
    assert_eq!(failure.full, "load mirror status: locked");
    let failure = status(Ok(Some(7)), Err("gone")).expect_err("no history");
    assert_eq!(failure.full, "load mirror history: gone");
    assert_eq!(take_mirror_status::<u32>(Ok(None)), Ok(None));
    assert_eq!(take_mirror_history(7u32, Ok(vec![1u8])), Ok((7, vec![1])));
}
