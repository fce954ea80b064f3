use std::cell::RefCell;

use rapture_core::channel_groups::ChannelGroupDirectory;
use rapture_core::chat::{
    ChatApplyOutcome, ChatBody, ChatEnvelope, ChatError, ChatState, EpochKeyLookup,
};
use rapture_core::control::{
    ApplyOutcome, ControlBody, ControlEnvelope, ControlError, ControlState,
};
use rapture_core::crypto::{is_openable, is_sealable};
use rapture_core::permissions::{has_permission, permission_bits, Permission};
use rapture_core::replay::sort_log;
use rapture_core::sim::{LocalRelay, SimError};
use rapture_core::voice::{VoiceEnvelope, VoiceError, VoicePermissionLookup, VoiceState};
use rapture_core::ChannelKind;

fn text(s: &str) -> String {
    s.to_string()
}

fn guild(id: &str, ts: i64) -> ControlEnvelope {
    ControlEnvelope::guild_create(format!("op-{id}"), ts, text(id), text("alice"), text("Guild"))
}

fn channel(op: &str, ts: i64, guild_id: &str, id: &str) -> ControlEnvelope {
    ControlEnvelope::channel_create(
        text(op),
        ts,
        text(guild_id),
        text("alice"),
        text(id),
        text("general"),
        ChannelKind::Text,
    )
}

fn add(op: &str, ts: i64, member: &str) -> ControlEnvelope {
    ControlEnvelope::member_add(text(op), ts, text("g-1"), text("alice"), text(member))
}

fn base() -> ControlState {
    let mut state = ControlState::default();
    for op in [guild("g-1", 1), channel("op-c", 2, "g-1", "c-1"), add("op-b", 3, "bob")] {
        assert_eq!(state.apply(op), Ok(ApplyOutcome::Applied));
    }
    state
}

#[test]
fn every_refusal_of_a_control_operation() {
    let state = base();
    let refusals = [
        (guild("g-1", 9), ControlError::GuildExists(text("g-1"))),
        (channel("x", 9, "g-2", "c-1"), ControlError::GuildNotFound(text("g-2"))),
        (
            channel("x", 9, "g-1", "c-1"),
            ControlError::ChannelExists { guild_id: text("g-1"), channel_id: text("c-1") },
        ),
        (
            ControlEnvelope::channel_member_remove(
                text("x"),
                9,
                text("g-1"),
                text("alice"),
                text("c-9"),
                text("bob"),
            ),
            ControlError::ChannelNotFound { guild_id: text("g-1"), channel_id: text("c-9") },
        ),
        (
            ControlEnvelope::member_roles_set(
                text("x"),
                9,
                text("g-1"),
                text("alice"),
                text("bob"),
                vec![text("role-9")],
            ),
            ControlError::RoleNotFound { guild_id: text("g-1"), role_id: text("role-9") },
        ),
        (
            ControlEnvelope::member_remove(
                text("x"),
                9,
                text("g-1"),
                text("alice"),
                text("nobody"),
            ),
            ControlError::MemberNotFound { guild_id: text("g-1"), member: text("nobody") },
        ),
    ];
    for (op, error) in refusals {
        let mut copy = state.clone();
        let mut op = op;
        op.op_id = text("op-new");
        assert_eq!(copy.apply(op), Err(error));
        assert_eq!(copy, state);
    }
    let mut copy = state.clone();
    let mut op = add("op-new", 9, "carol");
    op.actor = text("bob");
    let error = copy.apply(op).expect_err("bob may not add members");
    assert!(matches!(error, ControlError::PermissionDenied { .. }));
    assert!(error.message().starts_with("permission denied: actor bob lacks "));
    let mut op = add("op-new", 9, "carol");
    op.schema = text("other");
    assert_eq!(copy.apply(op), Err(ControlError::UnknownSchema(text("other"))));
    assert_eq!(copy, state);
}

#[test]
fn bans_and_guilds_are_kept_apart() {
    let mut state = base();
    state.apply(guild("g-2", 4)).expect("second guild");
    let other = state.guilds.get(&text("g-2")).expect("g-2").clone();
    state
        .apply(ControlEnvelope::member_ban(
            text("op-ban"),
            5,
            text("g-1"),
            text("alice"),
            text("bob"),
        ))
        .expect("ban");
    assert_eq!(
        state.apply(add("op-again", 6, "bob")),
        Err(ControlError::MemberBanned { guild_id: text("g-1"), member: text("bob") })
    );
    assert_eq!(state.guilds.get(&text("g-2")), Some(&other));
    let guild = state.guilds.get(&text("g-1")).expect("g-1");
    for permission in [Permission::ViewChannel, Permission::SendMessage, Permission::ConnectVoice] {
        assert!(!has_permission(guild, "bob", Some("c-1"), permission));
        assert!(!has_permission(guild, "stranger", Some("c-1"), permission));
        assert!(has_permission(guild, "alice", Some("c-1"), permission));
    }
}

#[test]
fn a_log_can_be_replayed_in_stretches_and_in_any_order() {
    let ops = vec![
        guild("g-1", 1),
        channel("op-c", 2, "g-1", "c-1"),
        add("op-b", 3, "bob"),
        add("op-a", 3, "carol"),
    ];
    let whole = ControlState::replay_sorted(&ops).expect("replay");
    let sorted = sort_log(&ops);
    assert_eq!(sorted[2].op_id, "op-a");
    for cut in 0..=sorted.len() {
        let mut state = ControlState::default();
        state.apply_all(sorted[..cut].to_vec()).expect("first stretch");
        state.apply_all(sorted[cut..].to_vec()).expect("second stretch");
        assert_eq!(state, whole);
    }
    let mut backwards = ops.clone();
    backwards.reverse();
    assert_eq!(ControlState::replay_sorted(&backwards), Ok(whole));
}

#[test]
fn permissions_add_up() {
    assert_eq!(permission_bits(&[]), 0);
    assert_eq!(permission_bits(&[1, 4, 4]), 5);
}

struct OneKey(Option<[u8; 32]>);

impl EpochKeyLookup for OneKey {
    fn epoch_key(&self, _guild_id: &str, _channel_id: &str, _epoch: u64) -> Option<[u8; 32]> {
        self.0
    }
}

fn sent(op: &str, id: &str, content: &str, key: [u8; 32]) -> ChatEnvelope {
    ChatEnvelope::message_send(
        text(op),
        1,
        text("g-1"),
        text("c-1"),
        text("alice"),
        text(id),
        content,
        3,
        key,
    )
    .expect("envelope")
}

#[test]
fn a_message_is_read_with_its_key_only() {
    let key = [9u8; 32];
    let op = sent("op-1", "m-1", "héllo", key);
    let mut state = ChatState::default();
    assert_eq!(
        state.apply(op.clone(), &OneKey(None)),
        Err(ChatError::MissingEpochKey {
            guild_id: text("g-1"),
            channel_id: text("c-1"),
            epoch: 3,
        })
    );
    assert_eq!(
        state.apply(op.clone(), &OneKey(Some([8u8; 32]))),
        Err(ChatError::DecryptFailed)
    );
    assert!(state.timeline("g-1", "c-1").is_empty());
    assert_eq!(
        state.apply(op.clone(), &OneKey(Some(key))),
        Ok(ChatApplyOutcome::Applied)
    );
    assert_eq!(state.timeline("g-1", "c-1")[0].content, "héllo");
    let before = state.clone();
    assert_eq!(state.apply(op, &OneKey(Some(key))), Ok(ChatApplyOutcome::Duplicate));
    assert_eq!(state, before);
    assert!(state.timeline("g-1", "c-2").is_empty());
}

#[test]
fn every_refusal_of_a_chat_operation() {
    let key = OneKey(Some([9u8; 32]));
    let mut state = ChatState::default();
    let mut op = sent("op-1", "m-1", "hello", [9u8; 32]);
    op.schema = text("other");
    assert_eq!(state.apply(op, &key), Err(ChatError::UnknownSchema(text("other"))));
    let broken = |nonce: &str, cipher: &str| {
        let mut op = sent("op-2", "m-1", "hello", [9u8; 32]);
        op.body = ChatBody::MessageSend {
            message_id: text("m-1"),
            epoch: 3,
            nonce_b64: text(nonce),
            ciphertext_b64: text(cipher),
        };
        op
    };
    assert_eq!(state.apply(broken("!", "AAAA"), &key), Err(ChatError::InvalidNonce));
    assert_eq!(state.apply(broken("AAAA", "AAAA"), &key), Err(ChatError::InvalidNonce));
    assert_eq!(
        state.apply(broken("AAAAAAAAAAAAAAAA", "!"), &key),
        Err(ChatError::InvalidCiphertext)
    );
    assert_eq!(
        state.apply(broken("AAAAAAAAAAAAAAAA", "AAAA"), &key),
        Err(ChatError::DecryptFailed)
    );
    let gone = ChatEnvelope::message_delete(
        text("op-3"),
        2,
        text("g-1"),
        text("c-1"),
        text("alice"),
        text("m-9"),
    );
    assert_eq!(
        state.apply(gone, &key),
        Err(ChatError::MessageNotFound(text("m-9")))
    );
    assert_eq!(ChatError::MessageNotFound(text("m-9")).message(), "message not found: m-9");
}

#[test]
fn reactions_are_put_once_and_taken_back() {
    let key = OneKey(Some([9u8; 32]));
    let mut state = ChatState::default();
    state.apply(sent("op-1", "m-1", "hello", [9u8; 32]), &key).expect("send");
    let plain = state.timeline("g-1", "c-1");
    let put = |op: &str| {
        ChatEnvelope::reaction_put(
            text(op),
            2,
            text("g-1"),
            text("c-1"),
            text("bob"),
            text("m-1"),
            text(":+1:"),
        )
    };
    state.apply(put("op-2"), &key).expect("react");
    let once = state.timeline("g-1", "c-1");
    state.apply(put("op-3"), &key).expect("react again");
    assert_eq!(state.timeline("g-1", "c-1"), once);
    let back = ChatEnvelope::reaction_remove(
        text("op-4"),
        3,
        text("g-1"),
        text("c-1"),
        text("bob"),
        text("m-1"),
        text(":+1:"),
    );
    state.apply(back, &key).expect("take back");
    assert_eq!(state.timeline("g-1", "c-1"), plain);
}

#[test]
fn what_was_read_decides_what_is_shown() {
    let mut state = ChatState::default();
    let op = sent("op-1", "m-1", "hello", [9u8; 32]);
    assert_eq!(op.read(Some([9u8; 32])), Ok(text("hello")));
    assert_eq!(state.apply_read(op, Ok(text("other"))), Ok(ChatApplyOutcome::Applied));
    assert_eq!(state.timeline("g-1", "c-1")[0].content, "other");
}

struct Everyone;

impl VoicePermissionLookup for Everyone {
    fn has_permission(&self, _: &str, _: &str, actor: &str, _: Permission) -> bool {
        actor != "mallory"
    }
}

fn joined() -> VoiceState {
    let mut voice = VoiceState::default();
    voice
        .apply(
            VoiceEnvelope::session_start(
                text("v-1"),
                1,
                text("g-1"),
                text("c-1"),
                text("alice"),
                text("sess-1"),
                text("moq://x"),
            ),
            &Everyone,
        )
        .expect("start");
    voice
}

#[test]
fn leaving_a_voice_channel_undoes_joining_it() {
    let mut voice = joined();
    let before = voice.room("g-1", "c-1").cloned();
    let join = |op: &str, session: &str, actor: &str| {
        VoiceEnvelope::participant_join(
            text(op),
            2,
            text("g-1"),
            text("c-1"),
            text(actor),
            text(session),
        )
    };
    let leave = |op: &str, actor: &str| {
        VoiceEnvelope::participant_leave(
            text(op),
            3,
            text("g-1"),
            text("c-1"),
            text(actor),
            text("sess-1"),
        )
    };
    voice.apply(join("v-2", "sess-1", "bob"), &Everyone).expect("join");
    assert_ne!(voice.room("g-1", "c-1").cloned(), before);
    voice.apply(leave("v-3", "bob"), &Everyone).expect("leave");
    assert_eq!(voice.room("g-1", "c-1").cloned(), before);
    assert!(matches!(
        voice.apply(join("v-4", "sess-9", "bob"), &Everyone),
        Err(VoiceError::SessionMismatch { .. })
    ));
    let track = VoiceEnvelope::track_advertise(
        text("v-5"),
        4,
        text("g-1"),
        text("c-1"),
        text("bob"),
        text("sess-1"),
        text("audio"),
        text("opus"),
    );
    assert_eq!(
        voice.apply(track, &Everyone),
        Err(VoiceError::ParticipantNotInRoom(text("bob")))
    );
    let mut op = join("v-6", "sess-1", "bob");
    op.schema = text("other");
    assert_eq!(voice.apply(op, &Everyone), Err(VoiceError::UnknownSchema(text("other"))));
    assert!(voice.room("g-1", "c-2").is_none());
}

#[test]
fn a_session_that_differs_is_quoted() {
    let error = VoiceError::SessionMismatch {
        expected: Some(text("a\"b")),
        actual: text("c"),
    };
    assert!(error.message().contains("Some(\"a\\\"b\")"));
}

#[test]
fn groups_settle() {
    let state = base();
    let mut groups = ChannelGroupDirectory::default();
    assert_eq!(groups.ensure_from_control(&state), 1);
    let before = groups.clone();
    assert_eq!(groups.ensure_from_control(&state), 0);
    assert_eq!(groups, before);
    assert_eq!(groups.channel_refs(), vec![(text("g-1"), text("c-1"))]);
}

#[test]
fn only_members_can_send() {
    let mut relay = LocalRelay::default();
    relay.register_client("alice");
    for op in [guild("g-1", 1), channel("op-c", 2, "g-1", "c-1")] {
        relay.apply_control(op).expect("control");
    }
    assert!(matches!(
        relay.send_message("g-1", "c-1", "mallory", "m-1", "hi"),
        Err(SimError::ActorNotMember { .. })
    ));
    assert!(matches!(
        relay.send_message("g-1", "c-9", "alice", "m-1", "hi"),
        Err(SimError::GroupNotFound { .. })
    ));
    assert!(matches!(
        relay.apply_control(guild("g-1", 1).with_op("other")),
        Err(SimError::Control(ControlError::GuildExists(_)))
    ));
    relay.send_message("g-1", "c-1", "alice", "m-1", "hi").expect("send");
    assert_eq!(relay.timeline("alice", "g-1", "c-1")[0].content, "hi");
    assert!(relay.timeline("nobody", "g-1", "c-1").is_empty());
    assert_eq!(relay.decrypt_failures("nobody"), None);
}

trait WithOp {
    fn with_op(self, op_id: &str) -> Self;
}

impl WithOp for ControlEnvelope {
    fn with_op(mut self, op_id: &str) -> Self {
        self.op_id = op_id.to_string();
        self
    }
}

#[test]
fn bodies_tell_operations_apart() {
    assert!(matches!(guild("g-1", 1).body, ControlBody::GuildCreate { .. }));
}

#[test]
fn sealing_ends_where_the_keystream_does() {
    assert!(is_sealable(0));
    assert!(is_sealable(274_877_906_816));
    assert!(!is_sealable(274_877_906_817));
    assert!(!is_sealable(usize::MAX));
    assert!(is_openable(0));
    assert!(is_openable(274_877_906_832));
    assert!(!is_openable(274_877_906_833));
}

/// A lookup that tells what it was asked for.
struct Asked {
    key: [u8; 32],
    questions: RefCell<Vec<(String, String, u64)>>,
}

impl EpochKeyLookup for Asked {
    fn epoch_key(&self, guild_id: &str, channel_id: &str, epoch: u64) -> Option<[u8; 32]> {
        self.questions.borrow_mut().push((text(guild_id), text(channel_id), epoch));
        Some(self.key)
    }
}

fn edited(op: &str, id: &str, content: &str, key: [u8; 32]) -> ChatEnvelope {
    ChatEnvelope::message_edit(
        text(op),
        1,
        text("g-1"),
        text("c-1"),
        text("alice"),
        text(id),
        content,
        4,
        key,
    )
    .expect("envelope")
}

fn on_message(op: &str, id: &str, body: impl Fn(String) -> ChatBody) -> ChatEnvelope {
    ChatEnvelope {
        schema: text("rapture.chat.v1"),
        guild_id: text("g-1"),
        channel_id: text("c-1"),
        actor: text("bob"),
        op_id: text(op),
        ts_ms: 1,
        body: body(text(id)),
    }
}

#[test]
fn keys_are_asked_for_new_texts_only() {
    let key = [9u8; 32];
    let keys = Asked { key, questions: RefCell::new(vec![]) };
    let mut state = ChatState::default();
    let send = sent("op-1", "m-1", "hello", key);
    let mut foreign = sent("op-2", "m-2", "hello", key);
    foreign.schema = text("other");
    assert!(state.apply(foreign, &keys).is_err());
    assert!(keys.questions.borrow().is_empty());
    assert_eq!(state.apply(send.clone(), &keys), Ok(ChatApplyOutcome::Applied));
    assert_eq!(*keys.questions.borrow(), vec![(text("g-1"), text("c-1"), 3)]);
    assert_eq!(state.apply(send, &keys), Ok(ChatApplyOutcome::Duplicate));
    assert_eq!(
        state.apply(edited("op-3", "m-9", "new", key), &keys),
        Err(ChatError::MessageNotFound(text("m-9")))
    );
    assert_eq!(keys.questions.borrow().len(), 2);
    assert_eq!(keys.questions.borrow()[1], (text("g-1"), text("c-1"), 4));

    let emoji = text("+1");
    let put = |message_id| ChatBody::ReactionPut { message_id, emoji: emoji.clone() };
    let take = |message_id| ChatBody::ReactionRemove { message_id, emoji: emoji.clone() };
    let delete = |message_id| ChatBody::MessageDelete { message_id };
    for (id, found) in [("m-1", true), ("m-9", false)] {
        for (n, op) in [
            on_message(&format!("put-{id}"), id, put),
            on_message(&format!("take-{id}"), id, take),
            on_message(&format!("delete-{id}"), id, delete),
        ]
        .into_iter()
        .enumerate()
        {
            let result = state.apply(op, &keys);
            if found {
                assert_eq!(result, Ok(ChatApplyOutcome::Applied), "{n}");
            } else {
                assert_eq!(result, Err(ChatError::MessageNotFound(text(id))), "{n}");
            }
        }
    }
    assert_eq!(keys.questions.borrow().len(), 2);
}

#[test]
fn timelines_list_what_was_sent_in_the_order_of_its_coming() {
    let key = [9u8; 32];
    let keys = OneKey(Some(key));
    let mut state = ChatState::default();
    let mut late = sent("op-1", "m-1", "one", key);
    late.ts_ms = 50;
    let mut early = sent("op-2", "m-2", "two", key);
    early.ts_ms = 10;
    let same_id = sent("op-3", "m-1", "three", key);
    let lost = sent("op-4", "m-4", "four", [8u8; 32]);
    assert!(state.apply(late.clone(), &keys).is_ok());
    assert!(state.apply(edited("op-5", "m-1", "one again", key), &keys).is_ok());
    assert!(state.apply(early, &keys).is_ok());
    assert_eq!(state.apply(lost, &keys), Err(ChatError::DecryptFailed));
    let delete = |message_id| ChatBody::MessageDelete { message_id };
    assert!(state.apply(on_message("op-6", "m-1", delete), &keys).is_ok());
    assert!(state.apply(same_id, &keys).is_ok());
    assert_eq!(state.apply(late, &keys), Ok(ChatApplyOutcome::Duplicate));
    let listed: Vec<(String, String, i64)> = state
        .timeline("g-1", "c-1")
        .into_iter()
        .map(|message| (message.message_id, message.author, message.ts_ms))
        .collect();
    assert_eq!(
        listed,
        vec![
            (text("m-1"), text("alice"), 50),
            (text("m-2"), text("alice"), 10),
            (text("m-1"), text("alice"), 1),
        ]
    );
    assert!(state.timeline("g-1", "c-2").is_empty());
}

#[test]
fn operations_before_a_refused_one_stay_applied() {
    let good = [guild("g-1", 1), channel("op-c", 2, "g-1", "c-1")];
    let mut before = ControlState::default();
    before.apply_all(good.to_vec()).expect("applied");
    let mut refused = guild("g-1", 3);
    refused.op_id = text("op-again");
    let mut log = good.to_vec();
    log.push(refused);
    log.push(add("op-b", 4, "bob"));
    let mut state = ControlState::default();
    assert_eq!(state.apply_all(log), Err(ControlError::GuildExists(text("g-1"))));
    assert_eq!(state, before);
}
