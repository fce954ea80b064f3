use rapture_core::app_core::{next_message_id, next_op_id, next_voice_session_id, Fresh};
use rapture_core::control::{ControlEnvelope, ControlState};
use rapture_core::storage::{load_ops, load_state, LogEntry};
use rapture_core::{AppAction, AppCore, AppState, AppStep, AppUpdate, ChannelKind};

/// The application with a log in memory.
struct App {
    core: AppCore,
    shown: AppState,
    log: Vec<ControlEnvelope>,
    log_fails: bool,
    updates: Vec<AppUpdate>,
    clock_ms: i64,
}

impl App {
    fn new() -> App {
        App::restarted(vec![])
    }

    fn restarted(log: Vec<ControlEnvelope>) -> App {
        let entries = || -> Vec<LogEntry> {
            log.iter()
                .enumerate()
                .map(|(i, op)| LogEntry { line: i + 1, op: op.clone() })
                .collect()
        };
        let state = load_state(ControlState::default(), entries()).map_err(|e| e.message());
        let (core, shown) = AppCore::start(state, Ok(load_ops(entries())));
        let updates = vec![AppUpdate::FullState(shown.clone())];
        App { core, shown, log, log_fails: false, updates, clock_ms: 1_000 }
    }

    fn state(&self) -> &AppState {
        &self.shown
    }

    fn append(&mut self, op: &ControlEnvelope) -> Result<(), String> {
        if self.log_fails {
            return Err("no space left".to_string());
        }
        self.log.push(op.clone());
        Ok(())
    }

    fn dispatch(&mut self, action: AppAction) {
        self.clock_ms += 2;
        let fresh = Fresh {
            op_id: next_op_id(),
            ts_ms: self.clock_ms,
            later_op_id: next_op_id(),
            later_ts_ms: self.clock_ms + 1,
            message_id: next_message_id(),
            session_id: next_voice_session_id(),
        };
        let mut step = self.core.begin_with(action, fresh);
        loop {
            step = match step {
                AppStep::Show(state) => {
                    self.updates.push(AppUpdate::FullState(state.clone()));
                    self.shown = state;
                    return;
                }
                AppStep::AppendOp(op) => {
                    let result = self.append(&op);
                    self.core.appended(op, result)
                }
                AppStep::WriteSnapshot => AppStep::Show(self.core.snapshot_written(Ok(()))),
            };
        }
    }
}

#[test]
fn create_guild_and_channel_updates_state_and_rev() {
    let mut app = App::new();
    app.dispatch(AppAction::CreateGuild {
        guild_id: "g-1".to_string(),
        name: "Guild One".to_string(),
        actor_pubkey: "alice".to_string(),
    });

    assert!(
        app.state().guilds.len() == 1,
        "guild created"
    );

    app.dispatch(AppAction::CreateChannel {
        guild_id: "g-1".to_string(),
        channel_id: "c-1".to_string(),
        name: "general".to_string(),
        kind: ChannelKind::Text,
        actor_pubkey: "alice".to_string(),
    });

    assert!(
        app.state()
            .guilds
            .iter()
            .find(|g| g.guild_id == "g-1")
            .map(|g| g.channel_count == 1)
            .unwrap_or(false),
        "channel created"
    );

    let s = app.state();
    assert!(s.rev >= 2);
    assert_eq!(s.guilds.len(), 1);
    assert_eq!(s.guilds[0].member_count, 1);
    assert_eq!(s.guilds[0].channel_count, 1);

    assert!(
        app.updates.len() >= 3,
        "updates emitted"
    );

    let mut prev = 0_u64;
    for u in app.updates.iter() {
        let rev = match u {
            AppUpdate::FullState(s) => s.rev,
        };
        assert!(rev >= prev);
        prev = rev;
    }
}

#[test]
fn replay_restores_guild_and_channel_from_disk() {
    let mut app1 = App::new();
    app1.dispatch(AppAction::CreateGuild {
        guild_id: "g-1".to_string(),
        name: "Guild One".to_string(),
        actor_pubkey: "alice".to_string(),
    });
    assert!(
        app1.state().guilds.len() == 1,
        "guild created"
    );

    app1.dispatch(AppAction::CreateChannel {
        guild_id: "g-1".to_string(),
        channel_id: "c-1".to_string(),
        name: "general".to_string(),
        kind: ChannelKind::Text,
        actor_pubkey: "alice".to_string(),
    });
    assert!(
        app1.state()
            .guilds
            .first()
            .map(|g| g.channel_count)
            .unwrap_or(0)
            == 1,
        "channel created"
    );

    let app2 = App::restarted(app1.log.clone());
    assert!(
        app2.state()
            .guilds
            .first()
            .map(|g| g.channel_count)
            .unwrap_or(0)
            == 1,
        "restored state"
    );

    let s2 = app2.state();
    assert_eq!(s2.guilds.len(), 1);
    assert_eq!(s2.guilds[0].guild_id, "g-1");
    assert_eq!(s2.guilds[0].channel_count, 1);
}

#[test]
fn denied_actions_surface_error_without_mutating_state() {
    let mut app = App::new();

    app.dispatch(AppAction::CreateGuild {
        guild_id: "g-1".to_string(),
        name: "Guild One".to_string(),
        actor_pubkey: "alice".to_string(),
    });
    assert!(
        app.state().guilds.len() == 1,
        "guild created"
    );

    app.dispatch(AppAction::InviteMember {
        guild_id: "g-1".to_string(),
        member_pubkey: "carol".to_string(),
        actor_pubkey: "alice".to_string(),
    });
    assert!(
        app.state()
            .guilds
            .iter()
            .find(|g| g.guild_id == "g-1")
            .map(|g| g.member_count == 2)
            .unwrap_or(false),
        "carol invited"
    );

    let rev_before_denied_channel = app.state().rev;
    app.dispatch(AppAction::CreateChannel {
        guild_id: "g-1".to_string(),
        channel_id: "c-denied".to_string(),
        name: "denied".to_string(),
        kind: ChannelKind::Text,
        actor_pubkey: "bob".to_string(),
    });
    assert!(
        app.state().rev > rev_before_denied_channel,
        "denied channel attempt processed"
    );

    let s1 = app.state();
    assert_eq!(s1.guilds[0].channel_count, 0);
    assert!(s1
        .toast
        .as_deref()
        .unwrap_or("")
        .contains("permission denied"));

    let rev_before_denied_kick = app.state().rev;
    app.dispatch(AppAction::KickMember {
        guild_id: "g-1".to_string(),
        member_pubkey: "carol".to_string(),
        actor_pubkey: "bob".to_string(),
    });
    assert!(
        app.state().rev > rev_before_denied_kick,
        "denied kick attempt processed"
    );

    let s2 = app.state();
    assert_eq!(s2.guilds[0].member_count, 2);
    assert!(s2
        .toast
        .as_deref()
        .unwrap_or("")
        .contains("permission denied"));
}

#[test]
fn append_failure_does_not_commit_in_memory_state() {
    let mut app = App::new();
    app.log_fails = true;
    let rev_before = app.state().rev;
    app.dispatch(AppAction::CreateGuild {
        guild_id: "g-1".to_string(),
        name: "Guild One".to_string(),
        actor_pubkey: "alice".to_string(),
    });

    assert!(
        app.state().rev > rev_before,
        "append failure processed"
    );

    let state = app.state();
    assert!(state.guilds.is_empty());
    assert!(state
        .toast
        .as_deref()
        .unwrap_or("")
        .contains("failed to append op"));
}

#[test]
fn startup_log_replay_is_sorted_by_timestamp_then_op_id() {
    let ops = vec![
        ControlEnvelope::channel_create(
            "op-3".to_string(),
            3,
            "g-1".to_string(),
            "alice".to_string(),
            "c-1".to_string(),
            "general".to_string(),
            ChannelKind::Text,
        ),
        ControlEnvelope::guild_create(
            "op-1".to_string(),
            1,
            "g-1".to_string(),
            "alice".to_string(),
            "Guild One".to_string(),
        ),
        ControlEnvelope::member_add(
            "op-2".to_string(),
            2,
            "g-1".to_string(),
            "alice".to_string(),
            "bob".to_string(),
        ),
    ];

    let app = App::restarted(ops);
    assert!(
        app.state()
                .guilds
                .first()
                .map(|g| g.channel_count == 1 && g.member_count == 2)
                .unwrap_or(false),
        "sorted replay restored state"
    );
}

#[test]
fn timeline_send_edit_react_delete_round_trip() {
    let mut app = App::new();

    app.dispatch(AppAction::CreateGuild {
        guild_id: "g-1".to_string(),
        name: "Guild One".to_string(),
        actor_pubkey: "alice".to_string(),
    });
    app.dispatch(AppAction::CreateChannel {
        guild_id: "g-1".to_string(),
        channel_id: "c-1".to_string(),
        name: "general".to_string(),
        kind: ChannelKind::Text,
        actor_pubkey: "alice".to_string(),
    });
    assert!(
        app.state()
            .guilds
            .iter()
            .find(|g| g.guild_id == "g-1")
            .map(|g| g.channel_count == 1)
            .unwrap_or(false),
        "channel ready"
    );

    app.dispatch(AppAction::SendMessage {
        guild_id: "g-1".to_string(),
        channel_id: "c-1".to_string(),
        actor_pubkey: "alice".to_string(),
        content: "hello".to_string(),
    });
    assert!(
        app.state().timeline.len() == 1,
        "message sent"
    );

    let sent = app.state().timeline[0].clone();
    assert_eq!(sent.author, "alice");
    assert_eq!(sent.content, "hello");
    assert!(!sent.edited);
    assert!(!sent.deleted);
    let message_id = sent.message_id.clone();

    app.dispatch(AppAction::EditMessage {
        guild_id: "g-1".to_string(),
        channel_id: "c-1".to_string(),
        actor_pubkey: "alice".to_string(),
        message_id: message_id.clone(),
        content: "hello edited".to_string(),
    });
    assert!(
        app.state()
            .timeline
            .first()
            .map(|m| m.edited && m.content == "hello edited")
            .unwrap_or(false),
        "message edited"
    );

    app.dispatch(AppAction::PutReaction {
        guild_id: "g-1".to_string(),
        channel_id: "c-1".to_string(),
        actor_pubkey: "alice".to_string(),
        message_id: message_id.clone(),
        emoji: ":+1:".to_string(),
    });
    assert!(
        app.state()
            .timeline
            .first()
            .map(|m| {
                m.reactions
                    .iter()
                    .any(|r| r.emoji == ":+1:" && r.actors.contains(&"alice".to_string()))
            })
            .unwrap_or(false),
        "reaction added"
    );

    app.dispatch(AppAction::RemoveReaction {
        guild_id: "g-1".to_string(),
        channel_id: "c-1".to_string(),
        actor_pubkey: "alice".to_string(),
        message_id: message_id.clone(),
        emoji: ":+1:".to_string(),
    });
    assert!(
        app.state()
            .timeline
            .first()
            .map(|m| m.reactions.iter().all(|r| r.emoji != ":+1:"))
            .unwrap_or(false),
        "reaction removed"
    );

    app.dispatch(AppAction::DeleteMessage {
        guild_id: "g-1".to_string(),
        channel_id: "c-1".to_string(),
        actor_pubkey: "alice".to_string(),
        message_id,
    });
    assert!(
        app.state()
            .timeline
            .first()
            .map(|m| m.deleted && m.content == "[deleted]")
            .unwrap_or(false),
        "message deleted"
    );
}

#[test]
fn timeline_permissions_are_enforced() {
    let mut app = App::new();

    app.dispatch(AppAction::CreateGuild {
        guild_id: "g-1".to_string(),
        name: "Guild One".to_string(),
        actor_pubkey: "alice".to_string(),
    });
    app.dispatch(AppAction::CreateChannel {
        guild_id: "g-1".to_string(),
        channel_id: "c-1".to_string(),
        name: "general".to_string(),
        kind: ChannelKind::Text,
        actor_pubkey: "alice".to_string(),
    });
    assert!(
        app.state()
            .guilds
            .iter()
            .find(|g| g.guild_id == "g-1")
            .map(|g| g.channel_count == 1)
            .unwrap_or(false),
        "channel ready"
    );

    let rev_before_denied_send = app.state().rev;
    app.dispatch(AppAction::SendMessage {
        guild_id: "g-1".to_string(),
        channel_id: "c-1".to_string(),
        actor_pubkey: "bob".to_string(),
        content: "hello from bob".to_string(),
    });
    assert!(
        app.state().rev > rev_before_denied_send,
        "denied send processed"
    );
    let denied = app.state();
    assert!(denied.timeline.is_empty());
    assert!(denied
        .toast
        .as_deref()
        .unwrap_or("")
        .contains("permission denied"));

    app.dispatch(AppAction::InviteMember {
        guild_id: "g-1".to_string(),
        member_pubkey: "bob".to_string(),
        actor_pubkey: "alice".to_string(),
    });
    assert!(
        app.state()
            .guilds
            .iter()
            .find(|g| g.guild_id == "g-1")
            .map(|g| g.member_count == 2)
            .unwrap_or(false),
        "bob invited"
    );

    app.dispatch(AppAction::SendMessage {
        guild_id: "g-1".to_string(),
        channel_id: "c-1".to_string(),
        actor_pubkey: "bob".to_string(),
        content: "hello from bob".to_string(),
    });
    assert!(
        app.state()
            .timeline
            .first()
            .map(|m| m.author == "bob")
            .unwrap_or(false),
        "bob send succeeds"
    );

    let message_id = app.state().timeline[0].message_id.clone();
    let rev_before_denied_edit = app.state().rev;
    app.dispatch(AppAction::EditMessage {
        guild_id: "g-1".to_string(),
        channel_id: "c-1".to_string(),
        actor_pubkey: "alice".to_string(),
        message_id,
        content: "owner edit".to_string(),
    });
    assert!(
        app.state().rev > rev_before_denied_edit,
        "owner edit processed"
    );
    assert_eq!(app.state().timeline[0].content, "owner edit");
}

#[test]
fn voice_join_mute_leave_updates_state() {
    let mut app = App::new();

    app.dispatch(AppAction::CreateGuild {
        guild_id: "g-1".to_string(),
        name: "Guild One".to_string(),
        actor_pubkey: "alice".to_string(),
    });
    app.dispatch(AppAction::CreateChannel {
        guild_id: "g-1".to_string(),
        channel_id: "v-1".to_string(),
        name: "voice".to_string(),
        kind: ChannelKind::Voice,
        actor_pubkey: "alice".to_string(),
    });
    assert!(
        app.state()
            .guilds
            .iter()
            .find(|g| g.guild_id == "g-1")
            .map(|g| g.channel_count == 1)
            .unwrap_or(false),
        "voice channel ready"
    );

    app.dispatch(AppAction::SelectChannel {
        guild_id: "g-1".to_string(),
        channel_id: "v-1".to_string(),
    });
    app.dispatch(AppAction::JoinVoice {
        guild_id: "g-1".to_string(),
        channel_id: "v-1".to_string(),
        actor_pubkey: "alice".to_string(),
    });
    assert!(
        app.state()
            .voice_room
            .as_ref()
            .map(|r| {
                r.active_session_id.is_some()
                    && r.participants.iter().any(|p| p.pubkey == "alice")
            })
            .unwrap_or(false),
        "alice joined voice"
    );

    app.dispatch(AppAction::SetVoiceMuted {
        guild_id: "g-1".to_string(),
        channel_id: "v-1".to_string(),
        actor_pubkey: "alice".to_string(),
        muted: true,
    });
    assert!(
        app.state()
            .voice_room
            .as_ref()
            .and_then(|r| r.participants.iter().find(|p| p.pubkey == "alice"))
            .map(|p| p.muted)
            .unwrap_or(false),
        "alice muted"
    );

    app.dispatch(AppAction::SetVoiceSpeaking {
        guild_id: "g-1".to_string(),
        channel_id: "v-1".to_string(),
        actor_pubkey: "alice".to_string(),
        speaking: true,
    });
    assert!(
        app.state()
            .voice_room
            .as_ref()
            .and_then(|r| r.participants.iter().find(|p| p.pubkey == "alice"))
            .map(|p| p.speaking)
            .unwrap_or(false),
        "alice speaking"
    );

    app.dispatch(AppAction::LeaveVoice {
        guild_id: "g-1".to_string(),
        channel_id: "v-1".to_string(),
        actor_pubkey: "alice".to_string(),
    });
    assert!(
        app.state()
            .voice_room
            .as_ref()
            .map(|r| r.active_session_id.is_none() && r.participants.is_empty())
            .unwrap_or(false),
        "alice left voice"
    );
}

#[test]
fn voice_permission_denial_surfaces_toast() {
    let mut app = App::new();

    app.dispatch(AppAction::CreateGuild {
        guild_id: "g-1".to_string(),
        name: "Guild One".to_string(),
        actor_pubkey: "alice".to_string(),
    });
    app.dispatch(AppAction::CreateChannel {
        guild_id: "g-1".to_string(),
        channel_id: "v-1".to_string(),
        name: "voice".to_string(),
        kind: ChannelKind::Voice,
        actor_pubkey: "alice".to_string(),
    });
    app.dispatch(AppAction::InviteMember {
        guild_id: "g-1".to_string(),
        member_pubkey: "bob".to_string(),
        actor_pubkey: "alice".to_string(),
    });
    assert!(
        app.state()
            .guilds
            .iter()
            .find(|g| g.guild_id == "g-1")
            .map(|g| g.member_count == 2)
            .unwrap_or(false),
        "bob invited"
    );

    app.dispatch(AppAction::SelectChannel {
        guild_id: "g-1".to_string(),
        channel_id: "v-1".to_string(),
    });
    let rev_before_denied_join = app.state().rev;
    app.dispatch(AppAction::JoinVoice {
        guild_id: "g-1".to_string(),
        channel_id: "v-1".to_string(),
        actor_pubkey: "bob".to_string(),
    });
    assert!(
        app.state().rev > rev_before_denied_join,
        "denied join processed"
    );
    let denied = app.state();
    assert!(denied
        .toast
        .as_deref()
        .unwrap_or("")
        .contains("permission denied"));
    assert!(denied
        .voice_room
        .as_ref()
        .map(|r| r.participants.is_empty())
        .unwrap_or(true));
}

#[test]
fn ffi_app_bootstrap_and_set_name() {
    let mut app = App::new();
    assert_eq!(app.state().rev, 0);
    assert_eq!(app.state().greeting, "Rapture ready");

    app.dispatch(AppAction::SetName { name: "Rapture".to_string() });

    assert_eq!(app.state().rev, 1);
    assert_eq!(app.state().greeting, "Rapture ready, Rapture");
}

#[test]
fn live_apply_uses_deterministic_replay_order() {
    let mut app = App::new();
    let guild = ControlEnvelope::guild_create(
        "op-1".to_string(),
        1,
        "g-1".to_string(),
        "alice".to_string(),
        "Guild One".to_string(),
    );
    let channel = ControlEnvelope::channel_create(
        "op-2".to_string(),
        2,
        "g-1".to_string(),
        "alice".to_string(),
        "c-1".to_string(),
        "general".to_string(),
        ChannelKind::Text,
    );
    let newer_policy = ControlEnvelope::channel_permissions_set(
        "op-4".to_string(),
        4,
        "g-1".to_string(),
        "alice".to_string(),
        "c-1".to_string(),
        vec![],
        vec![],
        vec!["bob".to_string()],
        vec![],
    );
    let older_policy = ControlEnvelope::channel_permissions_set(
        "op-3".to_string(),
        3,
        "g-1".to_string(),
        "alice".to_string(),
        "c-1".to_string(),
        vec![],
        vec![],
        vec![],
        vec!["bob".to_string()],
    );
    for op in [guild, channel, newer_policy, older_policy] {
        assert_eq!(app.core.appended(op, Ok(())), AppStep::WriteSnapshot);
        assert_eq!(app.core.snapshot_written(Ok(())).toast, None);
    }

    let guild = app.core.control.guilds.get(&"g-1".to_string()).expect("guild exists");
    let channel = guild.channels.get(&"c-1".to_string()).expect("channel exists");
    assert!(channel.policy.allow_users.contains(&"bob".to_string()));
    assert!(!channel.policy.deny_users.contains(&"bob".to_string()));
}

#[test]
fn failed_snapshot_is_shown() {
    let mut app = App::new();
    let op = ControlEnvelope::guild_create(
        "op-1".to_string(),
        1,
        "g-1".to_string(),
        "alice".to_string(),
        "Guild One".to_string(),
    );
    assert_eq!(app.core.appended(op, Ok(())), AppStep::WriteSnapshot);
    let shown = app.core.snapshot_written(Err("disk is full".to_string()));
    assert_eq!(
        shown.toast.as_deref(),
        Some("failed to write snapshot (log append succeeded): disk is full")
    );
    assert_eq!(shown.guilds.len(), 1);
}

#[test]
fn selection_follows_what_exists() {
    let mut app = App::new();
    app.dispatch(AppAction::SelectGuild { guild_id: "g-none".to_string() });
    assert_eq!(app.state().selected_guild_id, None);
    app.dispatch(AppAction::CreateGuild {
        guild_id: "g-1".to_string(),
        name: "Guild One".to_string(),
        actor_pubkey: "alice".to_string(),
    });
    assert_eq!(app.state().selected_guild_id.as_deref(), Some("g-1"));
    assert_eq!(app.state().selected_channel_id, None);
    app.dispatch(AppAction::CreateChannel {
        guild_id: "g-1".to_string(),
        channel_id: "c-1".to_string(),
        name: "general".to_string(),
        kind: ChannelKind::Text,
        actor_pubkey: "alice".to_string(),
    });
    assert_eq!(app.state().selected_channel_id.as_deref(), Some("c-1"));
}

#[test]
fn operations_get_ids_and_times_of_their_own() {
    let mut app = App::new();
    let mut ids = vec![];
    for guild in ["g-1", "g-2"] {
        let step = app.core.begin(AppAction::CreateGuild {
            guild_id: guild.to_string(),
            name: "Guild".to_string(),
            actor_pubkey: "alice".to_string(),
        });
        let AppStep::AppendOp(op) = step else { panic!("an operation is to be appended") };
        assert!(op.op_id.starts_with("local-op-"));
        assert_eq!(op.op_id.len(), "local-op-".len() + 36);
        assert!(op.ts_ms > 1_600_000_000_000);
        ids.push(op.op_id.clone());
        assert_eq!(app.core.appended(op, Ok(())), AppStep::WriteSnapshot);
        app.core.snapshot_written(Ok(()));
    }
    assert_ne!(ids[0], ids[1]);
    assert!(next_message_id().starts_with("msg-"));
    assert!(next_voice_session_id().starts_with("sess-"));
}
