//! What a user does with messages: who may do it, and what comes of it.
//!
//! Each action gives back what to tell the user, nothing where it went through.
use vstd::prelude::*;
use crate::channel_groups::{ChannelGroupDirectory, ChannelGroupStateModel};
use crate::chat::{
    chat_result, chat_state, deleted, edited, epoch_of, find_message_idx, first_at, has_message,
    lemma_first_is_one, sealable, timeline_of, with_message, ChannelTimelineModel, ChatApplyOutcome,
    ChatBodyModel, ChatEnvelope, ChatEnvelopeModel, ChatError, ChatErrorModel, ChatState,
    ChatStateModel, TimelineMessageModel, CHAT_SCHEMA_V1,
};
use crate::collections::ChannelKey;
use crate::control::{ControlState, ControlStateModel};
use crate::keyring::{key_in, ring_of, with_key, Keyring, KeyringModel};
use crate::permissions::{has_permission, permission_name, permission_text, permitted, Permission};
use crate::text::{same_text, trim, trimmed};

verus! {

/// A channel by both its names.
pub open spec fn channel_path(guild_id: Seq<char>, channel_id: Seq<char>) -> Seq<char> {
    guild_id + "/"@ + channel_id
}

/// A channel by both its names.
pub fn channel_path_text(guild_id: &str, channel_id: &str) -> (path: String)
    ensures
        path@ == channel_path(guild_id@, channel_id@),
{
    guild_id.to_owned().concat("/").concat(channel_id)
}

/// Why an actor may not do something in a channel, where that is so.
pub open spec fn channel_refusal(
    control: ControlStateModel,
    guild_id: Seq<char>,
    channel_id: Seq<char>,
    actor: Seq<char>,
    permission: Permission,
) -> Option<Seq<char>> {
    if !control.guilds.contains_key(guild_id) {
        Some("guild not found: "@ + guild_id)
    } else if !control.guilds[guild_id].channels.contains_key(channel_id) {
        Some("channel not found: "@ + channel_path(guild_id, channel_id))
    } else if permitted(control.guilds[guild_id], actor, Some(channel_id), permission) {
        None
    } else {
        Some(
            "permission denied: actor "@ + actor + " lacks "@ + permission_name(permission)
                + " for "@ + channel_path(guild_id, channel_id),
        )
    }
}

/// A result that is a refusal in words, where there is one.
pub open spec fn refusal_of(result: Result<(), String>) -> Option<Seq<char>> {
    match result {
        Ok(()) => None,
        Err(text) => Some(text@),
    }
}

/// Refuses an actor who may not do something in a channel.
pub fn require_channel_permission(
    control_state: &ControlState,
    guild_id: &str,
    channel_id: &str,
    actor: &str,
    permission: Permission,
) -> (result: Result<(), String>)
    ensures
        refusal_of(result) == channel_refusal(
            control_state@,
            guild_id@,
            channel_id@,
            actor@,
            permission,
        ),
{
    let guild = match control_state.guilds.get(&guild_id.to_owned()) {
        Some(guild) => guild,
        None => {
            return Err("guild not found: ".to_owned().concat(guild_id));
        },
    };
    let path = channel_path_text(guild_id, channel_id);
    if !guild.channels.contains_key(&channel_id.to_owned()) {
        return Err("channel not found: ".to_owned().concat(path.as_str()));
    }
    if has_permission(guild, actor, Some(channel_id), permission) {
        return Ok(());
    }
    Err(
        "permission denied: actor ".to_owned().concat(actor).concat(" lacks ").concat(
            permission_text(permission).as_str(),
        ).concat(" for ").concat(path.as_str()),
    )
}

/// Why an actor may not change a message of `author`, where that is so.
pub open spec fn author_refusal(
    control: ControlStateModel,
    guild_id: Seq<char>,
    channel_id: Seq<char>,
    actor: Seq<char>,
    author: Seq<char>,
) -> Option<Seq<char>> {
    if actor == author {
        None
    } else {
        channel_refusal(control, guild_id, channel_id, actor, Permission::ManageMessages)
    }
}

/// Refuses an actor who is neither the author nor may manage messages.
pub fn require_manage_or_author(
    control_state: &ControlState,
    guild_id: &str,
    channel_id: &str,
    actor: &str,
    author: &str,
) -> (result: Result<(), String>)
    ensures
        refusal_of(result) == author_refusal(
            control_state@,
            guild_id@,
            channel_id@,
            actor@,
            author@,
        ),
{
    if same_text(actor, author) {
        return Ok(());
    }
    require_channel_permission(
        control_state,
        guild_id,
        channel_id,
        actor,
        Permission::ManageMessages,
    )
}

/// What the user is told of an operation that was offered to the chat state.
pub open spec fn chat_toast(result: Result<ChatApplyOutcome, ChatErrorModel>) -> Option<Seq<char>> {
    match result {
        Ok(_) => None,
        Err(error) => Some("chat op failed: "@ + ChatError::words(error)),
    }
}

/// Turns what became of a chat operation into what the user is told.
fn tell_chat(result: Result<ChatApplyOutcome, ChatError>) -> (toast: Option<String>)
    ensures
        toast.deep_view() == chat_toast(crate::collections::outcome(result)),
{
    match result {
        Ok(_) => None,
        Err(error) => Some("chat op failed: ".to_owned().concat(error.message().as_str())),
    }
}

/// Applies a chat operation with the keys that are at hand.
pub fn apply_chat_envelope(
    chat_state: &mut ChatState,
    epoch_keys: &Keyring,
    envelope: ChatEnvelope,
) -> (toast: Option<String>)
    ensures
        ({
            let key = key_in(
                epoch_keys@,
                (envelope@.guild_id, envelope@.channel_id),
                epoch_of(envelope@.body),
            );
            &&& toast.deep_view() == chat_toast(chat_result(old(chat_state)@, envelope@, key))
            &&& final(chat_state)@ == crate::chat::chat_state(old(chat_state)@, envelope@, key)
        }),
{
    tell_chat(chat_state.apply(envelope, epoch_keys))
}

/// The chat state with other messages in one channel and one more operation
/// recorded.
pub open spec fn with_timeline(
    chat: ChatStateModel,
    channel: (Seq<char>, Seq<char>),
    messages: Seq<TimelineMessageModel>,
    op_id: Seq<char>,
) -> ChatStateModel {
    ChatStateModel {
        channels: chat.channels.insert(channel, ChannelTimelineModel { messages }),
        seen_op_ids: chat.seen_op_ids.insert(op_id),
    }
}

/// Why a message cannot be sent, where that is so: it is empty, the actor may not
/// send there, or the channel has no key.
pub open spec fn send_refusal(
    control: ControlStateModel,
    groups: Map<(Seq<char>, Seq<char>), ChannelGroupStateModel>,
    guild_id: Seq<char>,
    channel_id: Seq<char>,
    actor: Seq<char>,
    text: Seq<char>,
) -> Option<Seq<char>> {
    if text.len() == 0 {
        Some("message cannot be empty"@)
    } else {
        match channel_refusal(control, guild_id, channel_id, actor, Permission::SendMessage) {
            Some(refusal) => Some(refusal),
            None => key_refusal(groups, guild_id, channel_id),
        }
    }
}

/// That a channel has no key, where that is so.
pub open spec fn key_refusal(
    groups: Map<(Seq<char>, Seq<char>), ChannelGroupStateModel>,
    guild_id: Seq<char>,
    channel_id: Seq<char>,
) -> Option<Seq<char>> {
    if groups.contains_key((guild_id, channel_id)) {
        None
    } else {
        Some(
            "channel key not found: "@ + channel_path(guild_id, channel_id)
                + "; create channel first"@,
        )
    }
}

/// A message that was just sent.
pub open spec fn new_message(
    message_id: Seq<char>,
    author: Seq<char>,
    text: Seq<char>,
    ts_ms: i64,
) -> TimelineMessageModel {
    TimelineMessageModel {
        message_id,
        author,
        content: text,
        edited: false,
        deleted: false,
        reactions: Map::empty(),
        ts_ms,
    }
}

/// The keys at hand with the present one of a channel.
pub open spec fn key_noted(
    keys: KeyringModel,
    channel: (Seq<char>, Seq<char>),
    group: ChannelGroupStateModel,
) -> KeyringModel {
    with_key(keys, channel, group.epoch, group.key, true)
}

/// What an action on messages comes to: what the user is told, the chat state
/// and the keys at hand.
#[verifier::ext_equal]
pub struct ChatOutcome {
    pub toast: Option<Seq<char>>,
    pub chat: ChatStateModel,
    pub keys: KeyringModel,
}

/// Who does something where, and as which operation.
#[verifier::ext_equal]
pub struct ChatOrigin {
    pub guild_id: Seq<char>,
    pub channel_id: Seq<char>,
    pub actor: Seq<char>,
    pub op_id: Seq<char>,
    pub ts_ms: i64,
}

/// What sending a message comes to.
pub open spec fn send_outcome(
    control: ControlStateModel,
    groups: Map<(Seq<char>, Seq<char>), ChannelGroupStateModel>,
    chat: ChatStateModel,
    keys: KeyringModel,
    origin: ChatOrigin,
    message_id: Seq<char>,
    content: Seq<char>,
) -> ChatOutcome {
    let text = trimmed(content);
    let channel = (origin.guild_id, origin.channel_id);
    match send_refusal(control, groups, origin.guild_id, origin.channel_id, origin.actor, text) {
        Some(refusal) => ChatOutcome { toast: Some(refusal), chat, keys },
        None => if !sealable(text) {
            ChatOutcome {
                toast: Some("failed to build message: "@ + "decryption failed"@),
                chat,
                keys: key_noted(keys, channel, groups[channel]),
            }
        } else {
            ChatOutcome {
                toast: None,
                chat: if chat.seen_op_ids.contains(origin.op_id) {
                    chat
                } else {
                    with_timeline(
                        chat,
                        channel,
                        timeline_of(chat, channel).push(
                            new_message(message_id, origin.actor, text, origin.ts_ms),
                        ),
                        origin.op_id,
                    )
                },
                keys: key_noted(keys, channel, groups[channel]),
            }
        },
    }
}

/// The present epoch and key of a channel, noted among the keys at hand.
fn note_key(
    channel_groups: &ChannelGroupDirectory,
    epoch_keys: &mut Keyring,
    guild_id: &str,
    channel_id: &str,
) -> (result: Result<(u64, [u8; 32]), String>)
    ensures
        match result {
            Ok((epoch, key)) => {
                &&& channel_groups@.contains_key((guild_id@, channel_id@))
                &&& epoch == channel_groups@[(guild_id@, channel_id@)].epoch
                &&& key.deep_view() == channel_groups@[(guild_id@, channel_id@)].key
                &&& final(epoch_keys)@ == key_noted(
                    old(epoch_keys)@,
                    (guild_id@, channel_id@),
                    channel_groups@[(guild_id@, channel_id@)],
                )
            },
            Err(text) => {
                &&& key_refusal(channel_groups@, guild_id@, channel_id@) == Some(text@)
                &&& final(epoch_keys)@ == old(epoch_keys)@
            },
        },
{
    match channel_groups.current_epoch_key(guild_id, channel_id) {
        Some((epoch, key)) => {
            epoch_keys.take_key(&ChannelKey::new(guild_id, channel_id), epoch, key, true);
            Ok((epoch, key))
        },
        None => Err(
            "channel key not found: ".to_owned().concat(
                channel_path_text(guild_id, channel_id).as_str(),
            ).concat("; create channel first"),
        ),
    }
}

/// Sends a message to a channel, sealed under its present key. It is given a
/// fresh operation id, message id and the time.
pub fn send_message(
    control_state: &ControlState,
    chat_state: &mut ChatState,
    channel_groups: &ChannelGroupDirectory,
    epoch_keys: &mut Keyring,
    guild_id: String,
    channel_id: String,
    actor_pubkey: String,
    content: String,
    op_id: String,
    ts_ms: i64,
    message_id: String,
) -> (toast: Option<String>)
    ensures
        (ChatOutcome {
            toast: toast.deep_view(),
            chat: final(chat_state)@,
            keys: final(epoch_keys)@,
        }) == send_outcome(
            control_state@,
            channel_groups@,
            old(chat_state)@,
            old(epoch_keys)@,
            ChatOrigin {
                guild_id: guild_id@,
                channel_id: channel_id@,
                actor: actor_pubkey@,
                op_id: op_id@,
                ts_ms,
            },
            message_id@,
            content@,
        ),
{
    let content = trim(content.as_str());
    if content.as_str().is_empty() {
        return Some("message cannot be empty".to_owned());
    }
    if let Err(refusal) = require_channel_permission(
        control_state,
        guild_id.as_str(),
        channel_id.as_str(),
        actor_pubkey.as_str(),
        Permission::SendMessage,
    ) {
        return Some(refusal);
    }
    let (epoch, key) = match note_key(
        channel_groups,
        epoch_keys,
        guild_id.as_str(),
        channel_id.as_str(),
    ) {
        Ok(current) => current,
        Err(refusal) => {
            return Some(refusal);
        },
    };
    proof {
        assert(key.deep_view() =~= key@);
    }
    let envelope = match ChatEnvelope::message_send(
        op_id,
        ts_ms,
        guild_id,
        channel_id,
        actor_pubkey,
        message_id,
        content.as_str(),
        epoch,
        key,
    ) {
        Ok(envelope) => envelope,
        Err(error) => {
            return Some("failed to build message: ".to_owned().concat(error.message().as_str()));
        },
    };
    proof {
        assert(ring_of(epoch_keys@, (guild_id@, channel_id@)).contains_key(epoch));
    }
    apply_chat_envelope(chat_state, epoch_keys, envelope)
}

/// Why a message cannot be changed by an actor, where that is so: the actor may
/// not see the channel, the message is not there, or the actor neither wrote it
/// nor may manage messages.
pub open spec fn change_refusal(
    control: ControlStateModel,
    chat: ChatStateModel,
    guild_id: Seq<char>,
    channel_id: Seq<char>,
    actor: Seq<char>,
    message_id: Seq<char>,
) -> Option<Seq<char>> {
    let messages = timeline_of(chat, (guild_id, channel_id));
    match channel_refusal(control, guild_id, channel_id, actor, Permission::ViewChannel) {
        Some(refusal) => Some(refusal),
        None => if !has_message(messages, message_id) {
            Some("message not found: "@ + message_id)
        } else {
            let i = choose|i: int| first_at(messages, message_id, i);
            author_refusal(control, guild_id, channel_id, actor, messages[i].author)
        },
    }
}

/// Refuses an actor who may not change a message.
fn require_change(
    control_state: &ControlState,
    chat_state: &ChatState,
    guild_id: &str,
    channel_id: &str,
    actor: &str,
    message_id: &str,
) -> (result: Result<(), String>)
    ensures
        refusal_of(result) == change_refusal(
            control_state@,
            chat_state@,
            guild_id@,
            channel_id@,
            actor@,
            message_id@,
        ),
{
    if let Err(refusal) = require_channel_permission(
        control_state,
        guild_id,
        channel_id,
        actor,
        Permission::ViewChannel,
    ) {
        return Err(refusal);
    }
    let messages = chat_state.timeline(guild_id, channel_id);
    let slice = messages.as_slice();
    proof {
        assert(slice.deep_view() =~= messages.deep_view());
    }
    match find_message_idx(slice, message_id) {
        None => Err("message not found: ".to_owned().concat(message_id)),
        Some(i) => {
            proof {
                lemma_first_is_one(messages.deep_view(), message_id@, i as int);
            }
            require_manage_or_author(
                control_state,
                guild_id,
                channel_id,
                actor,
                messages[i].author.as_str(),
            )
        },
    }
}

/// The chat state after an operation that changed one message, unless it was
/// applied before.
pub open spec fn with_changed_message(
    chat: ChatStateModel,
    channel: (Seq<char>, Seq<char>),
    message_id: Seq<char>,
    op_id: Seq<char>,
    change: spec_fn(TimelineMessageModel) -> TimelineMessageModel,
) -> ChatStateModel {
    if chat.seen_op_ids.contains(op_id) {
        chat
    } else {
        with_timeline(
            chat,
            channel,
            with_message(timeline_of(chat, channel), message_id, change)->Ok_0,
            op_id,
        )
    }
}

/// What editing a message comes to.
pub open spec fn edit_outcome(
    control: ControlStateModel,
    groups: Map<(Seq<char>, Seq<char>), ChannelGroupStateModel>,
    chat: ChatStateModel,
    keys: KeyringModel,
    origin: ChatOrigin,
    message_id: Seq<char>,
    content: Seq<char>,
) -> ChatOutcome {
    let text = trimmed(content);
    let channel = (origin.guild_id, origin.channel_id);
    let refusal = if text.len() == 0 {
        Some("edited message cannot be empty"@)
    } else {
        match change_refusal(
            control,
            chat,
            origin.guild_id,
            origin.channel_id,
            origin.actor,
            message_id,
        ) {
            Some(refusal) => Some(refusal),
            None => key_refusal(groups, origin.guild_id, origin.channel_id),
        }
    };
    if refusal is Some {
        ChatOutcome { toast: refusal, chat, keys }
    } else if !sealable(text) {
        ChatOutcome {
            toast: Some("failed to build edit: "@ + "decryption failed"@),
            chat,
            keys: key_noted(keys, channel, groups[channel]),
        }
    } else {
        ChatOutcome {
            toast: None,
            chat: with_changed_message(
                chat,
                channel,
                message_id,
                origin.op_id,
                |m: TimelineMessageModel| edited(m, text),
            ),
            keys: key_noted(keys, channel, groups[channel]),
        }
    }
}

/// What deleting a message comes to.
pub open spec fn delete_outcome(
    control: ControlStateModel,
    chat: ChatStateModel,
    keys: KeyringModel,
    origin: ChatOrigin,
    message_id: Seq<char>,
) -> ChatOutcome {
    match change_refusal(
        control,
        chat,
        origin.guild_id,
        origin.channel_id,
        origin.actor,
        message_id,
    ) {
        Some(refusal) => ChatOutcome { toast: Some(refusal), chat, keys },
        None => ChatOutcome {
            toast: None,
            chat: with_changed_message(
                chat,
                (origin.guild_id, origin.channel_id),
                message_id,
                origin.op_id,
                |m: TimelineMessageModel| deleted(m),
            ),
            keys,
        },
    }
}

/// The operation of an origin with a body.
pub open spec fn chat_op(origin: ChatOrigin, body: ChatBodyModel) -> ChatEnvelopeModel {
    ChatEnvelopeModel {
        schema: CHAT_SCHEMA_V1@,
        guild_id: origin.guild_id,
        channel_id: origin.channel_id,
        actor: origin.actor,
        op_id: origin.op_id,
        ts_ms: origin.ts_ms,
        body,
    }
}

/// What putting or taking back a reaction comes to: the actor must be permitted
/// to send messages; the message must be there.
pub open spec fn reaction_outcome(
    control: ControlStateModel,
    chat: ChatStateModel,
    keys: KeyringModel,
    op: ChatEnvelopeModel,
) -> ChatOutcome {
    match channel_refusal(
        control,
        op.guild_id,
        op.channel_id,
        op.actor,
        Permission::SendMessage,
    ) {
        Some(refusal) => ChatOutcome { toast: Some(refusal), chat, keys },
        None => ChatOutcome {
            toast: chat_toast(chat_result(chat, op, None)),
            chat: chat_state(chat, op, None),
            keys,
        },
    }
}

/// Gives a message another text, sealed under the channel's present key.
pub fn edit_message(
    control_state: &ControlState,
    chat_state: &mut ChatState,
    channel_groups: &ChannelGroupDirectory,
    epoch_keys: &mut Keyring,
    guild_id: String,
    channel_id: String,
    actor_pubkey: String,
    message_id: String,
    content: String,
    op_id: String,
    ts_ms: i64,
) -> (toast: Option<String>)
    ensures
        (ChatOutcome {
            toast: toast.deep_view(),
            chat: final(chat_state)@,
            keys: final(epoch_keys)@,
        }) == edit_outcome(
            control_state@,
            channel_groups@,
            old(chat_state)@,
            old(epoch_keys)@,
            ChatOrigin {
                guild_id: guild_id@,
                channel_id: channel_id@,
                actor: actor_pubkey@,
                op_id: op_id@,
                ts_ms,
            },
            message_id@,
            content@,
        ),
{
    let content = trim(content.as_str());
    if content.as_str().is_empty() {
        return Some("edited message cannot be empty".to_owned());
    }
    if let Err(refusal) = require_change(
        control_state,
        chat_state,
        guild_id.as_str(),
        channel_id.as_str(),
        actor_pubkey.as_str(),
        message_id.as_str(),
    ) {
        return Some(refusal);
    }
    let (epoch, key) = match note_key(
        channel_groups,
        epoch_keys,
        guild_id.as_str(),
        channel_id.as_str(),
    ) {
        Ok(current) => current,
        Err(refusal) => {
            return Some(refusal);
        },
    };
    proof {
        assert(key.deep_view() =~= key@);
    }
    let envelope = match ChatEnvelope::message_edit(
        op_id,
        ts_ms,
        guild_id,
        channel_id,
        actor_pubkey,
        message_id,
        content.as_str(),
        epoch,
        key,
    ) {
        Ok(envelope) => envelope,
        Err(error) => {
            return Some("failed to build edit: ".to_owned().concat(error.message().as_str()));
        },
    };
    proof {
        assert(ring_of(epoch_keys@, (guild_id@, channel_id@)).contains_key(epoch));
        let messages = timeline_of(chat_state@, (guild_id@, channel_id@));
        assert(has_message(messages, message_id@));
    }
    apply_chat_envelope(chat_state, epoch_keys, envelope)
}

/// Deletes a message.
pub fn delete_message(
    control_state: &ControlState,
    chat_state: &mut ChatState,
    guild_id: String,
    channel_id: String,
    actor_pubkey: String,
    message_id: String,
    op_id: String,
    ts_ms: i64,
) -> (toast: Option<String>)
    ensures
        forall|keys: KeyringModel| (ChatOutcome {
            toast: toast.deep_view(),
            chat: final(chat_state)@,
            keys,
        }) == #[trigger] delete_outcome(
            control_state@,
            old(chat_state)@,
            keys,
            ChatOrigin {
                guild_id: guild_id@,
                channel_id: channel_id@,
                actor: actor_pubkey@,
                op_id: op_id@,
                ts_ms,
            },
            message_id@,
        ),
{
    if let Err(refusal) = require_change(
        control_state,
        chat_state,
        guild_id.as_str(),
        channel_id.as_str(),
        actor_pubkey.as_str(),
        message_id.as_str(),
    ) {
        return Some(refusal);
    }
    proof {
        let messages = timeline_of(chat_state@, (guild_id@, channel_id@));
        assert(has_message(messages, message_id@));
    }
    let envelope = ChatEnvelope::message_delete(
        op_id,
        ts_ms,
        guild_id,
        channel_id,
        actor_pubkey,
        message_id,
    );
    tell_chat(chat_state.apply_with_key(envelope, None))
}

/// Carries out a reaction, where its actor may send messages.
fn react(control_state: &ControlState, chat_state: &mut ChatState, envelope: ChatEnvelope) -> (toast:
    Option<String>)
    ensures
        forall|keys: KeyringModel| (ChatOutcome {
            toast: toast.deep_view(),
            chat: final(chat_state)@,
            keys,
        }) == #[trigger] reaction_outcome(control_state@, old(chat_state)@, keys, envelope@),
{
    if let Err(refusal) = require_channel_permission(
        control_state,
        envelope.guild_id.as_str(),
        envelope.channel_id.as_str(),
        envelope.actor.as_str(),
        Permission::SendMessage,
    ) {
        return Some(refusal);
    }
    tell_chat(chat_state.apply_with_key(envelope, None))
}

/// Reacts to a message.
pub fn put_reaction(
    control_state: &ControlState,
    chat_state: &mut ChatState,
    guild_id: String,
    channel_id: String,
    actor_pubkey: String,
    message_id: String,
    emoji: String,
    op_id: String,
    ts_ms: i64,
) -> (toast: Option<String>)
    ensures
        forall|keys: KeyringModel| (ChatOutcome {
            toast: toast.deep_view(),
            chat: final(chat_state)@,
            keys,
        }) == #[trigger] reaction_outcome(
            control_state@,
            old(chat_state)@,
            keys,
            chat_op(
                ChatOrigin {
                    guild_id: guild_id@,
                    channel_id: channel_id@,
                    actor: actor_pubkey@,
                    op_id: op_id@,
                    ts_ms,
                },
                ChatBodyModel::ReactionPut { message_id: message_id@, emoji: emoji@ },
            ),
        ),
{
    let envelope = ChatEnvelope::reaction_put(
        op_id,
        ts_ms,
        guild_id,
        channel_id,
        actor_pubkey,
        message_id,
        emoji,
    );
    react(control_state, chat_state, envelope)
}

/// Takes a reaction back.
pub fn remove_reaction(
    control_state: &ControlState,
    chat_state: &mut ChatState,
    guild_id: String,
    channel_id: String,
    actor_pubkey: String,
    message_id: String,
    emoji: String,
    op_id: String,
    ts_ms: i64,
) -> (toast: Option<String>)
    ensures
        forall|keys: KeyringModel| (ChatOutcome {
            toast: toast.deep_view(),
            chat: final(chat_state)@,
            keys,
        }) == #[trigger] reaction_outcome(
            control_state@,
            old(chat_state)@,
            keys,
            chat_op(
                ChatOrigin {
                    guild_id: guild_id@,
                    channel_id: channel_id@,
                    actor: actor_pubkey@,
                    op_id: op_id@,
                    ts_ms,
                },
                ChatBodyModel::ReactionRemove { message_id: message_id@, emoji: emoji@ },
            ),
        ),
{
    let envelope = ChatEnvelope::reaction_remove(
        op_id,
        ts_ms,
        guild_id,
        channel_id,
        actor_pubkey,
        message_id,
        emoji,
    );
    react(control_state, chat_state, envelope)
}

} // verus!
