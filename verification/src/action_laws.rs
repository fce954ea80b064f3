//! What somebody's actions on messages and in voice rooms come to, and when they are
//! refused.
use vstd::prelude::*;
use crate::channel_groups::ChannelGroupStateModel;
use crate::chat::{chat_result, chat_state, sealable, timeline_of, ChatBodyModel, ChatStateModel};
use crate::chat_laws::{lemma_place, others_stay, stands_at, stands_nowhere};
use crate::control::ControlStateModel;
use crate::keyring::{key_in, with_key, KeyringModel};
use crate::messaging::{
    channel_refusal, chat_op, delete_outcome, edit_outcome, reaction_outcome, send_outcome,
    ChatOrigin, ChatOutcome,
};
use crate::permissions::{permission_name, permitted, Permission};
use crate::text::trimmed;
use crate::voice::{
    voice_result, voice_state, VoiceBodyModel, VoiceEnvelopeModel, VoiceParticipantModel,
    VoiceStateModel,
};
use crate::voice_actions::{
    control_may, control_permits, join_outcome, leave_outcome, presence_outcome, voice_op,
    voice_refusal, VoiceOrigin,
};
use crate::ChannelKind;

verus! {

/// Whether a channel is there and an actor has a permission in it.
pub open spec fn may_in(
    control: ControlStateModel,
    origin: ChatOrigin,
    permission: Permission,
) -> bool {
    &&& control.guilds.contains_key(origin.guild_id)
    &&& control.guilds[origin.guild_id].channels.contains_key(origin.channel_id)
    &&& permitted(
        control.guilds[origin.guild_id],
        origin.actor,
        Some(origin.channel_id),
        permission,
    )
}

/// Whether an action on messages changed nothing and told why.
pub open spec fn nothing_done(
    outcome: ChatOutcome,
    chat: ChatStateModel,
    keys: KeyringModel,
) -> bool {
    outcome.toast is Some && outcome.chat == chat && outcome.keys == keys
}

/// A channel is open to an actor where it and its guild are there and the actor has the
/// permission in that channel; what is missing first is told.
pub proof fn channel_is_open_to_the_permitted(
    control: ControlStateModel,
    guild_id: Seq<char>,
    channel_id: Seq<char>,
    actor: Seq<char>,
    permission: Permission,
)
    ensures
        ({
            let refusal = channel_refusal(control, guild_id, channel_id, actor, permission);
            let guild = control.guilds[guild_id];
            let known = control.guilds.contains_key(guild_id);
            let there = known && guild.channels.contains_key(channel_id);
            &&& !known ==> refusal == Some("guild not found: "@ + guild_id)
            &&& known && !there ==> refusal == Some(
                "channel not found: "@ + (guild_id + "/"@ + channel_id),
            )
            &&& there && !permitted(guild, actor, Some(channel_id), permission) ==> refusal == Some(
                "permission denied: actor "@ + actor + " lacks "@ + permission_name(permission)
                    + " for "@ + (guild_id + "/"@ + channel_id),
            )
            &&& there && permitted(guild, actor, Some(channel_id), permission) ==> refusal is None
        }),
{
}

/// A message is sent by who may send in the channel, where it is not blank and there is
/// a key; it is read by its sender as they wrote it, without white space around it, and
/// is the last of its channel. Otherwise nothing is done and why is told.
pub proof fn sending_adds_a_message(
    control: ControlStateModel,
    groups: Map<(Seq<char>, Seq<char>), ChannelGroupStateModel>,
    chat: ChatStateModel,
    keys: KeyringModel,
    origin: ChatOrigin,
    message_id: Seq<char>,
    content: Seq<char>,
)
    ensures
        ({
            let outcome = send_outcome(control, groups, chat, keys, origin, message_id, content);
            let channel = (origin.guild_id, origin.channel_id);
            let text = trimmed(content);
            let may = may_in(control, origin, Permission::SendMessage);
            let before = timeline_of(chat, channel);
            let after = timeline_of(outcome.chat, channel);
            let good = text.len() > 0 && may && groups.contains_key(channel);
            &&& text.len() == 0 ==> outcome.toast == Some("message cannot be empty"@)
            &&& !good ==> nothing_done(outcome, chat, keys)
            &&& good && sealable(text) && !chat.seen_op_ids.contains(origin.op_id)
                ==> outcome.toast is None && after.len() == before.len() + 1 && (forall|i: int|
                0 <= i < before.len() ==> #[trigger] after[i] == before[i])
                && after.last().message_id == message_id && after.last().author == origin.actor
                && after.last().content == text && after.last().ts_ms == origin.ts_ms
                && !after.last().edited && !after.last().deleted && (forall|e: Seq<char>|
                !#[trigger] after.last().reactions.contains_key(e))
            &&& good && !sealable(text) ==> outcome.toast is Some && outcome.chat == chat
            &&& good && chat.seen_op_ids.contains(origin.op_id) ==> outcome.chat == chat
            &&& good ==> key_in(outcome.keys, channel, groups[channel].epoch) == Some(
                groups[channel].key,
            )
        }),
{
}

/// A message is edited by its author, or by who may manage messages, where the channel
/// is open to them, the message is there, the new text is not blank and there is a key;
/// only its text and the mark of an edited one change. Otherwise nothing is done and why
/// is told.
pub proof fn editing_takes_author_or_manager(
    control: ControlStateModel,
    groups: Map<(Seq<char>, Seq<char>), ChannelGroupStateModel>,
    chat: ChatStateModel,
    keys: KeyringModel,
    origin: ChatOrigin,
    message_id: Seq<char>,
    content: Seq<char>,
    at: int,
)
    ensures
        ({
            let outcome = edit_outcome(control, groups, chat, keys, origin, message_id, content);
            let channel = (origin.guild_id, origin.channel_id);
            let text = trimmed(content);
            let views = may_in(control, origin, Permission::ViewChannel);
            let was = chat.channels[channel].messages[at];
            let is = outcome.chat.channels[channel].messages[at];
            let may = was.author == origin.actor || may_in(
                control,
                origin,
                Permission::ManageMessages,
            );
            &&& text.len() == 0 ==> nothing_done(outcome, chat, keys)
            &&& !views ==> nothing_done(outcome, chat, keys)
            &&& stands_nowhere(chat, channel, message_id) ==> nothing_done(outcome, chat, keys)
            &&& stands_at(chat, channel, message_id, at) && !may ==> nothing_done(
                outcome,
                chat,
                keys,
            )
            &&& !groups.contains_key(channel) ==> nothing_done(outcome, chat, keys)
            &&& text.len() > 0 && views && stands_at(chat, channel, message_id, at) && may
                && groups.contains_key(channel) && sealable(text) && !chat.seen_op_ids.contains(
                origin.op_id,
            ) ==> outcome.toast is None && others_stay(chat, outcome.chat, channel, at)
                && is.content == text && is.edited && is.deleted == was.deleted && is.reactions
                == was.reactions
        }),
{
    let channel = (origin.guild_id, origin.channel_id);
    lemma_place(chat, channel, message_id, at);
}

/// A message is deleted by its author, or by who may manage messages, where the channel
/// is open to them and the message is there. Otherwise nothing is done and why is told.
pub proof fn deleting_takes_author_or_manager(
    control: ControlStateModel,
    chat: ChatStateModel,
    keys: KeyringModel,
    origin: ChatOrigin,
    message_id: Seq<char>,
    at: int,
)
    ensures
        ({
            let outcome = delete_outcome(control, chat, keys, origin, message_id);
            let channel = (origin.guild_id, origin.channel_id);
            let views = may_in(control, origin, Permission::ViewChannel);
            let was = chat.channels[channel].messages[at];
            let is = outcome.chat.channels[channel].messages[at];
            let may = was.author == origin.actor || may_in(
                control,
                origin,
                Permission::ManageMessages,
            );
            &&& outcome.keys == keys
            &&& !views ==> nothing_done(outcome, chat, keys)
            &&& stands_nowhere(chat, channel, message_id) ==> nothing_done(outcome, chat, keys)
            &&& stands_at(chat, channel, message_id, at) && !may ==> nothing_done(
                outcome,
                chat,
                keys,
            )
            &&& views && stands_at(chat, channel, message_id, at) && may
                && !chat.seen_op_ids.contains(origin.op_id) ==> outcome.toast is None
                && others_stay(chat, outcome.chat, channel, at) && is.content == "[deleted]"@
                && is.deleted && is.edited == was.edited && (forall|e: Seq<char>|
                !#[trigger] is.reactions.contains_key(e))
        }),
{
    let channel = (origin.guild_id, origin.channel_id);
    lemma_place(chat, channel, message_id, at);
}

/// A reaction is put or taken back by who may send in the channel; it is the reaction of
/// who acts, and what it comes to is what its operation comes to.
pub proof fn reacting_takes_the_right_to_send(
    control: ControlStateModel,
    chat: ChatStateModel,
    keys: KeyringModel,
    origin: ChatOrigin,
    body: ChatBodyModel,
)
    ensures
        ({
            let op = chat_op(origin, body);
            let outcome = reaction_outcome(control, chat, keys, op);
            &&& op.schema == "rapture.chat.v1"@
            &&& op.guild_id == origin.guild_id
            &&& op.channel_id == origin.channel_id
            &&& op.actor == origin.actor
            &&& op.op_id == origin.op_id
            &&& op.ts_ms == origin.ts_ms
            &&& op.body == body
            &&& outcome.keys == keys
            &&& !may_in(control, origin, Permission::SendMessage) ==> nothing_done(
                outcome,
                chat,
                keys,
            )
            &&& may_in(control, origin, Permission::SendMessage) ==> outcome.chat == chat_state(
                chat,
                op,
                None,
            ) && (outcome.toast is None <==> chat_result(chat, op, None) is Ok)
        }),
{
}

/// A key that is taken in is found under its channel and epoch, in any case where it is
/// new, and otherwise where there was none; no other key changes.
pub proof fn key_is_found_where_it_was_put(
    keyring: KeyringModel,
    channel: (Seq<char>, Seq<char>),
    epoch: u64,
    key: Seq<u8>,
    renewed: bool,
    other: (Seq<char>, Seq<char>),
    other_epoch: u64,
)
    ensures
        ({
            let after = with_key(keyring, channel, epoch, key, renewed);
            let was = key_in(keyring, channel, epoch);
            &&& renewed || was is None ==> key_in(after, channel, epoch) == Some(key)
            &&& !renewed && was is Some ==> key_in(after, channel, epoch) == was
            &&& (other, other_epoch) != (channel, epoch) ==> key_in(after, other, other_epoch)
                == key_in(keyring, other, other_epoch)
            &&& key_in(keyring, channel, epoch) is Some <==> keyring.rings.contains_key(channel)
                && keyring.rings[channel].contains_key(epoch)
            &&& key_in(keyring, channel, epoch) is Some ==> key_in(keyring, channel, epoch)->0
                == keyring.rings[channel][epoch]
        }),
{
}

/// A channel is one for voices where it is there and of that kind; what it is otherwise
/// is told.
pub proof fn voice_takes_a_voice_channel(
    control: ControlStateModel,
    guild_id: Seq<char>,
    channel_id: Seq<char>,
)
    ensures
        ({
            let refusal = voice_refusal(control, guild_id, channel_id);
            let known = control.guilds.contains_key(guild_id);
            let there = known && control.guilds[guild_id].channels.contains_key(channel_id);
            &&& refusal is None <==> there && control.guilds[guild_id].channels[channel_id].kind
                == ChannelKind::Voice
            &&& !known ==> refusal == Some("guild not found: "@ + guild_id)
            &&& known && !there ==> refusal == Some(
                "channel not found: "@ + (guild_id + "/"@ + channel_id),
            )
        }),
{
}

/// What the control state permits in voice rooms is what its guilds permit in their
/// channels.
pub proof fn voice_goes_by_channel_permissions(
    control: ControlStateModel,
    op: VoiceEnvelopeModel,
    permission: Permission,
)
    ensures
        control_may(control, op)(permission) <==> control.guilds.contains_key(op.guild_id)
            && permitted(
            control.guilds[op.guild_id],
            op.actor,
            Some(op.channel_id),
            permission,
        ),
        control_permits(control, op.guild_id, op.channel_id, op.actor, permission)
            <==> control_may(control, op)(permission),
{
}

/// Whether an operation was applied to a voice state, by who is permitted.
pub open spec fn goes_through(
    control: ControlStateModel,
    voice: VoiceStateModel,
    op: VoiceEnvelopeModel,
) -> bool {
    voice_result(voice, op, control_may(control, op)) is Ok
}

/// Who joins joins the session that runs; where none does, one is started first, at an
/// address made of the channel and the session, and then joined. What is refused is
/// told.
pub proof fn joining_starts_a_session_where_none_runs(
    control: ControlStateModel,
    voice: VoiceStateModel,
    start: VoiceOrigin,
    join: VoiceOrigin,
    new_session: Seq<char>,
)
    ensures
        ({
            let outcome = join_outcome(control, voice, start, join, new_session);
            let channel = (join.guild_id, join.channel_id);
            let open = voice_refusal(control, join.guild_id, join.channel_id) is None;
            let runs = voice.rooms.contains_key(channel)
                && voice.rooms[channel].active_session_id is Some;
            let session = voice.rooms[channel].active_session_id->0;
            let joining = voice_op(join, VoiceBodyModel::ParticipantJoin { session_id: session });
            let starting = voice_op(
                start,
                VoiceBodyModel::SessionStart {
                    session_id: new_session,
                    moq_url: "moq://local-relay/room/"@ + join.guild_id + "/"@ + join.channel_id
                        + "/"@ + new_session,
                },
            );
            let between = voice_state(voice, starting, control_may(control, starting));
            let later = voice_op(
                join,
                VoiceBodyModel::ParticipantJoin { session_id: new_session },
            );
            &&& !open ==> outcome.toast is Some && outcome.voice == voice
            &&& open && runs ==> outcome.voice == voice_state(
                voice,
                joining,
                control_may(control, joining),
            ) && (outcome.toast is None <==> goes_through(control, voice, joining))
            &&& open && !runs && !goes_through(control, voice, starting) ==> outcome.toast is Some
                && outcome.voice == between
            &&& open && !runs && goes_through(control, voice, starting) ==> outcome.voice
                == voice_state(between, later, control_may(control, later)) && (
            outcome.toast is None <==> goes_through(control, between, later))
        }),
{
}

/// Whether an actor is in a session of a voice channel that runs.
pub open spec fn is_present(
    control: ControlStateModel,
    voice: VoiceStateModel,
    origin: VoiceOrigin,
) -> bool {
    let channel = (origin.guild_id, origin.channel_id);
    &&& voice_refusal(control, origin.guild_id, origin.channel_id) is None
    &&& voice.rooms.contains_key(channel)
    &&& voice.rooms[channel].active_session_id is Some
    &&& voice.rooms[channel].participants.contains_key(origin.actor)
}

/// Who leaves leaves the session they are in; where nobody is left in it, it is ended.
/// Who is in none is told, and nothing changes.
pub proof fn leaving_ends_an_empty_session(
    control: ControlStateModel,
    voice: VoiceStateModel,
    leave: VoiceOrigin,
    end: VoiceOrigin,
)
    ensures
        ({
            let outcome = leave_outcome(control, voice, leave, end);
            let channel = (leave.guild_id, leave.channel_id);
            let session = voice.rooms[channel].active_session_id->0;
            let leaving = voice_op(leave, VoiceBodyModel::ParticipantLeave { session_id: session });
            let ending = voice_op(end, VoiceBodyModel::SessionEnd { session_id: session });
            let between = voice_state(voice, leaving, control_may(control, leaving));
            let left = between.rooms[channel];
            let empty = left.participants == Map::<Seq<char>, VoiceParticipantModel>::empty()
                && left.active_session_id is Some;
            let there = is_present(control, voice, leave);
            &&& !there ==> outcome.toast is Some && outcome.voice == voice
            &&& there && !goes_through(control, voice, leaving) ==> outcome.toast is Some
                && outcome.voice == between
            &&& there && goes_through(control, voice, leaving) && !empty ==> outcome.toast is None
                && outcome.voice == between
            &&& there && goes_through(control, voice, leaving) && empty ==> outcome.voice
                == voice_state(between, ending, control_may(control, ending))
        }),
{
}

/// Who sets their own state sets it as the change says, of how it stands, in the session
/// they are in. Who is in none is told, and nothing changes.
pub proof fn presence_is_set_from_how_it_stands(
    control: ControlStateModel,
    voice: VoiceStateModel,
    origin: VoiceOrigin,
    change: spec_fn(VoiceParticipantModel) -> VoiceParticipantModel,
)
    ensures
        ({
            let outcome = presence_outcome(control, voice, origin, change);
            let channel = (origin.guild_id, origin.channel_id);
            let room = voice.rooms[channel];
            let me = change(room.participants[origin.actor]);
            let op = voice_op(
                origin,
                VoiceBodyModel::ParticipantState {
                    session_id: room.active_session_id->0,
                    target_pubkey: origin.actor,
                    muted: me.muted,
                    speaking: me.speaking,
                    hand_raised: me.hand_raised,
                },
            );
            let there = is_present(control, voice, origin);
            &&& !there ==> outcome.toast is Some && outcome.voice == voice
            &&& there ==> outcome.voice == voice_state(voice, op, control_may(control, op)) && (
            outcome.toast is None <==> goes_through(control, voice, op))
        }),
{
}

/// An operation in a voice room is of who acts, where and as which operation they act.
pub proof fn voice_operation_is_of_its_origin(origin: VoiceOrigin, body: VoiceBodyModel)
    ensures
        voice_op(origin, body).schema == "rapture.voice.v1"@,
        voice_op(origin, body).guild_id == origin.guild_id,
        voice_op(origin, body).channel_id == origin.channel_id,
        voice_op(origin, body).actor == origin.actor,
        voice_op(origin, body).op_id == origin.op_id,
        voice_op(origin, body).ts_ms == origin.ts_ms,
        voice_op(origin, body).body == body,
{
}

} // verus!
