use rapture_core::agent::ids::{id_from, new_build_id, new_runtime_id};
use rapture_core::agent::keys::KeyPair;
use rapture_core::agent::listener::{
    accept_relays, parse_relay_urls, plan_listener, plan_listener_with, refuse_unreadable,
    refuse_unreadable_for, ListenerSettings, SeenEvents,
};
use rapture_core::agent::service::control_schema_healthcheck;
use rapture_core::agent::types::ProviderKind;
use rapture_core::ci::{
    exit_code, job_line, map_log_kind, run_line, run_spec, status_name, GuestCommand, JobRecord,
    LogKind, LogKindArg, RunRecord, RunStatus,
};
use rapture_core::profile::{
    prepare_profile_image, Event, Message, MyProfileState, PickedImage, ProfileAction, State,
};
use rapture_core::voice_media::{
    audio_frame, audio_track_for_participant, bytes_to_hex, default_broadcast_base,
    participant_label_hex, VoiceMediaError,
};

fn settings() -> ListenerSettings {
    ListenerSettings {
        enabled: None,
        secret: None,
        shared_secret: None,
        relays: None,
        shared_relays: None,
    }
}

#[test]
fn schemas_are_healthy() {
    assert_eq!(control_schema_healthcheck(), Ok(()));
}

#[test]
fn listener_runs_with_a_secret_and_relays() {
    let keys = KeyPair { secret_hex: "5c".repeat(32), public_hex: "ab".repeat(32) };
    assert_eq!(plan_listener(&settings()), Ok(None));
    let mut s = settings();
    s.enabled = Some("1".to_string());
    let failure = plan_listener(&s).expect_err("no secret");
    assert!(failure.brief.contains("no secret key found"));
    assert_eq!(failure.brief, failure.full);
    s.shared_secret = Some(format!(" {} ", "5c".repeat(32)));
    let failure = plan_listener(&s).expect_err("no relays");
    assert!(failure.brief.contains("no relays are configured"));
    s.relays = Some("wss://a.example, ,wss://b.example/".to_string());
    let plan = plan_listener(&s).expect("plan").expect("enabled");
    assert_eq!(plan.keys.secret_hex, "5c".repeat(32));
    assert_eq!(
        plan.relay_urls,
        vec!["wss://a.example".to_string(), "wss://b.example/".to_string()]
    );
    let read = vec![Ok("one".to_string()), Ok("two".to_string())];
    let plan = plan_listener_with(&s, Some(Ok(keys.clone())), &read).expect("plan").expect("on");
    assert_eq!(plan.keys, keys);
    assert_eq!(plan.relay_urls, vec!["one".to_string(), "two".to_string()]);
    s.enabled = Some("off".to_string());
    assert_eq!(plan_listener(&s), Ok(None));
    s.enabled = None;
    assert!(plan_listener(&s).expect("plan").is_some());
}

#[test]
fn listener_looks_at_its_secret_before_its_relays() {
    let mut s = settings();
    s.secret = Some("no key".to_string());
    let failure = plan_listener(&s).expect_err("bad secret");
    assert_eq!(failure.brief, "parse agent control nostr secret key");
    assert_eq!(failure.full, "parse agent control nostr secret key: Invalid secret key");
    s.relays = Some("http://a.example".to_string());
    assert_eq!(plan_listener(&s).expect_err("bad secret"), failure);
    s.secret = Some("5c".repeat(32));
    let failure = plan_listener(&s).expect_err("bad relay");
    assert_eq!(failure.brief, "parse relay url http://a.example");
    assert!(failure.full.starts_with("parse relay url http://a.example: "));
    s.enabled = Some("0".to_string());
    assert_eq!(plan_listener(&s), Ok(None));
}

#[test]
fn first_bad_relay_is_told() {
    let urls = vec!["wss://a.example".to_string(), "b".to_string(), "c".to_string()];
    let read = vec![Ok("a".to_string()), Err("bad b".to_string()), Err("bad c".to_string())];
    let failure = accept_relays(&urls, &read).expect_err("bad relay");
    assert_eq!(failure.full, "parse relay url b: bad b");
    assert_eq!(parse_relay_urls(&urls).expect_err("bad relay").brief, "parse relay url b");
    assert_eq!(
        parse_relay_urls(&vec!["wss://A.example".to_string()]),
        Ok(vec!["wss://a.example".to_string()])
    );
}

#[test]
fn seen_commands_are_remembered_within_the_window() {
    let mut seen = SeenEvents::new();
    assert!(seen.first_sight("first".to_string()));
    assert!(!seen.first_sight("first".to_string()));
    for i in 0..8191 {
        assert!(seen.first_sight(format!("e{i}")));
    }
    assert!(!seen.first_sight("first".to_string()));
    assert!(seen.first_sight("one more".to_string()));
    assert!(seen.first_sight("first".to_string()));
}

#[test]
fn unreadable_commands_are_answered() {
    let envelope = refuse_unreadable(r#"{"request_id": "r-7"}"#, "bad".to_string());
    assert_eq!(envelope.schema, "agent.control.error.v1");
    assert_eq!(envelope.request_id, "r-7");
    assert_eq!(envelope.code, "invalid_command_json");
    assert_eq!(envelope.detail.as_deref(), Some("bad"));
    assert_eq!(refuse_unreadable("nonsense", "bad".to_string()).request_id, "unknown-request");
    assert_eq!(refuse_unreadable_for(None, "bad".to_string()).request_id, "unknown-request");
}

#[test]
fn ids_tell_what_they_are_of() {
    assert_eq!(id_from("build", 0xdead_beef, 0x12), "build-deadbeef00000012");
    let build = new_build_id();
    assert!(build.starts_with("build-"));
    assert_eq!(build.len(), "build-".len() + 16);
    assert_ne!(build, new_build_id());
    assert!(new_runtime_id(ProviderKind::Microvm).starts_with("microvm-"));
    assert!(new_runtime_id(ProviderKind::Fly).starts_with("fly-"));
}

#[test]
fn jobs_go_by_their_names() {
    let beachhead = run_spec("beachhead").expect("beachhead");
    assert_eq!(beachhead.len(), 1);
    assert_eq!(beachhead[0].timeout_secs, 1800);
    assert_eq!(
        beachhead[0].guest_command,
        GuestCommand::ExactCargoTest {
            package: "pika-agent-control-plane".to_string(),
            test_name: "tests::command_envelope_round_trips".to_string(),
        }
    );
    let mut one_by_one = vec![];
    for name in [
        "agent-control-plane-unit",
        "agent-microvm-tests",
        "server-agent-api-tests",
        "core-agent-nip98-test",
    ] {
        one_by_one.extend(run_spec(name).expect("job"));
    }
    assert_eq!(run_spec("agent-contracts-smoke").expect("smoke"), one_by_one);
    assert_eq!(run_spec("nope"), Err("unknown job `nope`".to_string()));
}

#[test]
fn runs_are_told_in_lines() {
    let job = JobRecord { id: "j".to_string(), status: RunStatus::Passed, message: None };
    assert_eq!(job_line("run-1", &job), "run-1 j passed");
    let mut run = RunRecord {
        run_id: "run-1".to_string(),
        status: RunStatus::Failed,
        jobs: vec![job],
        created_at: "today".to_string(),
    };
    assert_eq!(run_line(&run), "run-1\tfailed\tj\ttoday");
    run.jobs = vec![];
    assert_eq!(run_line(&run), "run-1\tfailed\t-\ttoday");
    assert_eq!(status_name(RunStatus::Running), "running");
    assert_eq!(exit_code(RunStatus::Failed), 1);
    assert_eq!(exit_code(RunStatus::Passed), 0);
    assert_eq!(map_log_kind(LogKindArg::Guest), LogKind::Guest);
    assert_eq!(map_log_kind(LogKindArg::Host), LogKind::Host);
    assert_eq!(map_log_kind(LogKindArg::Both), LogKind::Both);
}

#[test]
fn voice_media_has_names() {
    assert_eq!(default_broadcast_base("g", "c", "s"), "rapture/voice/g/c/s");
    assert_eq!(bytes_to_hex(&vec![0x00, 0x0f, 0xa5, 0xff]), "000fa5ff");
    assert_eq!(
        participant_label_hex("abc"),
        "ba7816bf8f01cfea414140de5dae2223b00361a396177a9cb410ff61f20015ad"
    );
    let track = audio_track_for_participant(Ok("base/label".to_string()), "audio0".to_string())
        .expect("track");
    assert_eq!(track.broadcast_path, "base/label");
    assert_eq!(track.track_name, "audio0");
    let error = audio_track_for_participant(Err("empty".to_string()), "audio0".to_string())
        .expect_err("no path");
    assert_eq!(error, VoiceMediaError::Path("empty".to_string()));
    assert_eq!(error.to_string(), "invalid path: empty");
    assert_eq!(
        VoiceMediaError::Session("closed".to_string()).to_string(),
        "media session error: closed"
    );
    let frame = audio_frame(7, 20_000, vec![1, 2]);
    assert_eq!((frame.seq, frame.timestamp_us, frame.keyframe), (7, 20_000, true));
    assert_eq!(frame.payload, vec![1, 2]);
}

#[test]
fn profile_pane_saves_and_uploads() {
    let profile = MyProfileState {
        name: "Ann".to_string(),
        about: "hi".to_string(),
        picture_url: None,
    };
    let mut state = State::new(&profile);
    assert_eq!(state.display_name(), "Ann");
    state.update(Message::NameChanged(String::new()));
    assert_eq!(state.display_name(), "Me");
    state.update(Message::AboutChanged("hello".to_string()));
    assert!(state.update(Message::PickProfileImage).pick_image);
    assert!(!state.update(Message::ProfileImagePicked(None)).pick_image);
    assert!(state.pending_image.is_none());
    assert!(state.take_deferred_upload().is_none());

    state.update(Message::ProfileImagePicked(Some(PickedImage {
        path: "/home/a/me.PNG".to_string(),
        extension: "PNG".to_string(),
        data: b"Man".to_vec(),
    })));
    assert_eq!(
        state.effective_picture(&Some("https://x".to_string())).as_deref(),
        Some("file:///home/a/me.PNG")
    );
    assert!(state.take_deferred_upload().is_none());
    let saved = state.update(Message::Save);
    assert_eq!(
        saved.event,
        Some(Event::AppAction(ProfileAction::SaveMyProfile {
            name: String::new(),
            about: "hello".to_string(),
        }))
    );
    assert!(state.uploading);
    let shown = state.view_pane("npub1x", "1.2", &None);
    assert_eq!(shown.avatar_label, "Uploading\u{2026}");
    assert!(!shown.can_pick && !shown.can_save);
    assert_eq!(shown.version, "Version 1.2");
    assert_eq!(
        state.take_deferred_upload(),
        Some(ProfileAction::UploadMyProfileImage {
            image_base64: "TWFu".to_string(),
            mime_type: "image/png".to_string(),
        })
    );
    assert_eq!(state.take_deferred_upload(), None);
    state.sync_profile(&profile);
    assert!(state.uploading);
    assert_eq!(state.name, "Ann");
    let mut stored = profile.clone();
    stored.picture_url = Some("https://x".to_string());
    state.sync_profile(&stored);
    assert!(!state.uploading);
    let shown = state.view_pane("npub1x", "1.2", &stored.picture_url);
    assert_eq!(shown.avatar_label, "Change photo");
    assert!(shown.can_pick && shown.can_save && !shown.confirm_logout);
    assert_eq!(shown.picture.as_deref(), Some("https://x"));
    assert_eq!(shown.display_name, "Ann");
    assert_eq!(state.effective_picture(&stored.picture_url).as_deref(), Some("https://x"));
}

#[test]
fn profile_pane_asks_before_logging_out() {
    let profile = MyProfileState {
        name: String::new(),
        about: String::new(),
        picture_url: None,
    };
    let mut state = State::new(&profile);
    assert_eq!(state.update(Message::LogoutClicked).event, None);
    assert!(state.confirm_logout);
    assert_eq!(state.update(Message::LogoutCancelled).event, None);
    assert!(!state.confirm_logout);
    assert_eq!(state.update(Message::LogoutConfirmed).event, Some(Event::Logout));
    assert_eq!(state.update(Message::CopyNpub).event, Some(Event::CopyNpub));
    assert_eq!(state.update(Message::CopyAppVersion).event, Some(Event::CopyAppVersion));
}

#[test]
fn pictures_have_kinds() {
    for (ext, mime) in [
        ("png", "image/png"),
        ("jpg", "image/jpeg"),
        ("JPEG", "image/jpeg"),
        ("webp", "image/webp"),
        ("Gif", "image/gif"),
        ("bmp", "image/jpeg"),
        ("", "image/jpeg"),
    ] {
        assert_eq!(prepare_profile_image(ext, &vec![]).mime_type, mime);
    }
    assert_eq!(prepare_profile_image("png", &vec![0xff, 0xfe]).image_base64, "//4=");
}
