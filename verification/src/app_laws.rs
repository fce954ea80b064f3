//! What the application does with an action, and what it shows.
use vstd::prelude::*;
use crate::action_laws::is_present;
use crate::app::{
    channel_list, guild_list, message_summary, normal_channel, normal_guild, reaction_list,
    room_summary, shown_timeline, ChannelSummary, GuildSummary, TimelineMessageSummary,
};
use crate::app_core::{
    begun_with, control_op, done_core, followed_through, keys_of, known_prefix, local_outcome,
    op_refusal, reached, shown, start_control, start_ops, start_toast, started, sync_toast,
    AppActionModel, AppCoreModel, AppStepModel, FreshModel,
};
use crate::channel_groups::ChannelGroupStateModel;
use crate::chat::{timeline_of, ChatBodyModel, ChatStateModel, TimelineMessageModel};
use crate::collections::{listing_of, ChannelKey};
use crate::control::{
    no_guilds, ControlBodyModel, ControlEnvelopeModel, ControlStateModel, GuildStateModel,
};
use crate::keyring::{key_in, KeyringModel};
use crate::messaging::{
    chat_op, delete_outcome, edit_outcome, reaction_outcome, send_outcome, ChatOrigin,
};
use crate::permissions::Permission;
use crate::reconcile::desired_members;
use crate::replay::{log_order, replay_from};
use crate::sorting::{sorted, sorted_is_ordered, Ranked};
use crate::text::{text_before, trimmed};
use crate::voice::VoiceRoomStateModel;
use crate::voice_actions::{control_permits, join_outcome, leave_outcome, VoiceOrigin};

verus! {

/// Whether an operation is one on a guild, by an actor, with a body, at a time, under an
/// id.
pub open spec fn is_op(
    op: Option<ControlEnvelopeModel>,
    op_id: Seq<char>,
    ts_ms: i64,
    guild_id: Seq<char>,
    actor: Seq<char>,
    body: ControlBodyModel,
) -> bool {
    &&& op is Some
    &&& op->0.schema == "rapture.control.v1"@
    &&& op->0.op_id == op_id
    &&& op->0.ts_ms == ts_ms
    &&& op->0.guild_id == guild_id
    &&& op->0.actor == actor
    &&& op->0.body == body
}

/// Each action on a guild is the operation of its kind, on that guild, by who acts; no
/// other action is one.
pub proof fn actions_on_guilds_are_operations(
    action: AppActionModel,
    op_id: Seq<char>,
    ts_ms: i64,
)
    ensures
        ({
            let op = control_op(action, op_id, ts_ms);
            &&& match action {
                AppActionModel::CreateGuild { guild_id, name, actor_pubkey } => is_op(
                    op,
                    op_id,
                    ts_ms,
                    guild_id,
                    actor_pubkey,
                    ControlBodyModel::GuildCreate { name },
                ),
                AppActionModel::CreateChannel {
                    guild_id,
                    channel_id,
                    name,
                    kind,
                    actor_pubkey,
                } => is_op(
                    op,
                    op_id,
                    ts_ms,
                    guild_id,
                    actor_pubkey,
                    ControlBodyModel::ChannelCreate { channel_id, name, kind },
                ),
                AppActionModel::InviteMember { guild_id, member_pubkey, actor_pubkey } => is_op(
                    op,
                    op_id,
                    ts_ms,
                    guild_id,
                    actor_pubkey,
                    ControlBodyModel::MemberAdd { member_pubkey },
                ),
                AppActionModel::KickMember { guild_id, member_pubkey, actor_pubkey } => is_op(
                    op,
                    op_id,
                    ts_ms,
                    guild_id,
                    actor_pubkey,
                    ControlBodyModel::MemberRemove { member_pubkey },
                ),
                AppActionModel::BanMember { guild_id, member_pubkey, actor_pubkey } => is_op(
                    op,
                    op_id,
                    ts_ms,
                    guild_id,
                    actor_pubkey,
                    ControlBodyModel::MemberBan { member_pubkey },
                ),
                AppActionModel::SetMemberRoles {
                    guild_id,
                    member_pubkey,
                    role_ids,
                    actor_pubkey,
                } => is_op(
                    op,
                    op_id,
                    ts_ms,
                    guild_id,
                    actor_pubkey,
                    ControlBodyModel::MemberRolesSet { member_pubkey, role_ids },
                ),
                AppActionModel::SetChannelPermissions {
                    guild_id,
                    channel_id,
                    allow_roles,
                    deny_roles,
                    allow_users,
                    deny_users,
                    actor_pubkey,
                } => is_op(
                    op,
                    op_id,
                    ts_ms,
                    guild_id,
                    actor_pubkey,
                    ControlBodyModel::ChannelPermissionsSet {
                        channel_id,
                        allow_roles,
                        deny_roles,
                        allow_users,
                        deny_users,
                    },
                ),
                AppActionModel::RemoveMemberFromChannel {
                    guild_id,
                    channel_id,
                    member_pubkey,
                    actor_pubkey,
                } => is_op(
                    op,
                    op_id,
                    ts_ms,
                    guild_id,
                    actor_pubkey,
                    ControlBodyModel::ChannelMemberRemove { channel_id, member_pubkey },
                ),
                _ => op is None,
            }
        }),
{
}

/// An operation is taken into the log where its id is new there and the log with it can
/// be replayed; otherwise why not is told.
pub proof fn operation_fits_into_the_log(
    ops: Seq<ControlEnvelopeModel>,
    op: ControlEnvelopeModel,
)
    ensures
        ({
            let known = exists|i: int| 0 <= i < ops.len() && (#[trigger] ops[i]).op_id == op.op_id;
            let replayed = replay_from(no_guilds(), log_order(ops.push(op)));
            &&& op_refusal(ops, op) is None <==> !known && replayed is Ok
            &&& known ==> op_refusal(ops, op) == Some("duplicate op ignored"@)
            &&& !known && replayed is Err ==> op_refusal(ops, op) == Some(
                crate::control::ControlError::words(replayed->Err_0),
            )
        }),
{
}

/// Whether two states of the application agree in what comes from the log.
pub open spec fn same_log(a: AppCoreModel, b: AppCoreModel) -> bool {
    &&& a.control == b.control
    &&& a.control_ops == b.control_ops
    &&& a.groups == b.groups
    &&& a.rev == b.rev
}

/// No action that is no operation on a guild touches the log or what comes from it.
pub proof fn local_actions_leave_the_log(
    core: AppCoreModel,
    action: AppActionModel,
    fresh: FreshModel,
)
    ensures
        same_log(local_outcome(core, action, fresh).core, core),
{
}

/// A name is greeted by, without white space around it; a blank one by the usual words.
/// A selection is what was selected, and a guild is selected without a channel. Neither
/// touches messages or voice rooms, and none of them tells anything.
pub proof fn naming_and_selecting(
    core: AppCoreModel,
    fresh: FreshModel,
    name: Seq<char>,
    guild: Seq<char>,
    channel: Seq<char>,
)
    ensures
        ({
            let named = local_outcome(core, AppActionModel::SetName { name }, fresh);
            let picked = local_outcome(
                core,
                AppActionModel::SelectGuild { guild_id: guild },
                fresh,
            );
            let opened = local_outcome(
                core,
                AppActionModel::SelectChannel { guild_id: guild, channel_id: channel },
                fresh,
            );
            &&& trimmed(name).len() > 0 ==> named.core.greeting == "Rapture ready, "@ + trimmed(
                name,
            )
            &&& trimmed(name).len() == 0 ==> named.core.greeting == "Rapture ready"@
            &&& named.core.selected_guild_id == core.selected_guild_id
            &&& named.core.selected_channel_id == core.selected_channel_id
            &&& picked.core.selected_guild_id == Some(guild)
            &&& picked.core.selected_channel_id is None
            &&& picked.core.greeting == core.greeting
            &&& opened.core.selected_guild_id == Some(guild)
            &&& opened.core.selected_channel_id == Some(channel)
            &&& opened.core.greeting == core.greeting
            &&& named.core.chat == core.chat && named.core.voice == core.voice
                && named.core.epoch_keys == core.epoch_keys
            &&& picked.core.chat == core.chat && picked.core.voice == core.voice
                && picked.core.epoch_keys == core.epoch_keys
            &&& opened.core.chat == core.chat && opened.core.voice == core.voice
                && opened.core.epoch_keys == core.epoch_keys
            &&& named.toast is None && picked.toast is None && opened.toast is None
        }),
{
}

/// Where somebody acts, and as which operation.
pub open spec fn chat_place(
    guild_id: Seq<char>,
    channel_id: Seq<char>,
    actor: Seq<char>,
    fresh: FreshModel,
) -> ChatOrigin {
    ChatOrigin { guild_id, channel_id, actor, op_id: fresh.op_id, ts_ms: fresh.ts_ms }
}

/// Actions on messages come to what sending, editing, deleting and reacting come to, with
/// the guilds, groups, messages and keys there are, in the name of who acts; nothing but
/// messages and keys changes, and what they tell is told.
pub proof fn actions_on_messages(core: AppCoreModel, action: AppActionModel, fresh: FreshModel)
    ensures
        ({
            let done = local_outcome(core, action, fresh);
            let same = |chat: ChatStateModel, keys: KeyringModel, toast: Option<Seq<char>>|
                done.core.chat == chat && done.core.epoch_keys == keys && done.toast == toast
                    && done.core.voice == core.voice && done.core.greeting == core.greeting
                    && done.core.selected_guild_id == core.selected_guild_id
                    && done.core.selected_channel_id == core.selected_channel_id;
            &&& action matches AppActionModel::SendMessage {
                guild_id,
                channel_id,
                actor_pubkey,
                content,
            } ==> ({
                let sent = send_outcome(
                    core.control,
                    core.groups,
                    core.chat,
                    core.epoch_keys,
                    chat_place(guild_id, channel_id, actor_pubkey, fresh),
                    fresh.message_id,
                    content,
                );
                same(sent.chat, sent.keys, sent.toast)
            })
            &&& action matches AppActionModel::EditMessage {
                guild_id,
                channel_id,
                actor_pubkey,
                message_id,
                content,
            } ==> ({
                let edited = edit_outcome(
                    core.control,
                    core.groups,
                    core.chat,
                    core.epoch_keys,
                    chat_place(guild_id, channel_id, actor_pubkey, fresh),
                    message_id,
                    content,
                );
                same(edited.chat, edited.keys, edited.toast)
            })
            &&& action matches AppActionModel::DeleteMessage {
                guild_id,
                channel_id,
                actor_pubkey,
                message_id,
            } ==> ({
                let gone = delete_outcome(
                    core.control,
                    core.chat,
                    core.epoch_keys,
                    chat_place(guild_id, channel_id, actor_pubkey, fresh),
                    message_id,
                );
                same(gone.chat, gone.keys, gone.toast)
            })
            &&& action matches AppActionModel::PutReaction {
                guild_id,
                channel_id,
                actor_pubkey,
                message_id,
                emoji,
            } ==> ({
                let put = reaction_outcome(
                    core.control,
                    core.chat,
                    core.epoch_keys,
                    chat_op(
                        chat_place(guild_id, channel_id, actor_pubkey, fresh),
                        ChatBodyModel::ReactionPut { message_id, emoji },
                    ),
                );
                same(put.chat, put.keys, put.toast)
            })
            &&& action matches AppActionModel::RemoveReaction {
                guild_id,
                channel_id,
                actor_pubkey,
                message_id,
                emoji,
            } ==> ({
                let taken = reaction_outcome(
                    core.control,
                    core.chat,
                    core.epoch_keys,
                    chat_op(
                        chat_place(guild_id, channel_id, actor_pubkey, fresh),
                        ChatBodyModel::ReactionRemove { message_id, emoji },
                    ),
                );
                same(taken.chat, taken.keys, taken.toast)
            })
        }),
{
}

/// Where somebody acts in a voice room, and as which operation.
pub open spec fn voice_place(
    guild_id: Seq<char>,
    channel_id: Seq<char>,
    actor: Seq<char>,
    op_id: Seq<char>,
    ts_ms: i64,
) -> VoiceOrigin {
    VoiceOrigin { guild_id, channel_id, actor, op_id, ts_ms }
}

/// Joining and leaving a voice room come to what they come to with the guilds and rooms
/// there are, in the name of who acts; nothing but voice rooms changes.
pub proof fn joining_and_leaving(
    core: AppCoreModel,
    guild_id: Seq<char>,
    channel_id: Seq<char>,
    actor_pubkey: Seq<char>,
    fresh: FreshModel,
)
    ensures
        ({
            let first = voice_place(guild_id, channel_id, actor_pubkey, fresh.op_id, fresh.ts_ms);
            let second = voice_place(
                guild_id,
                channel_id,
                actor_pubkey,
                fresh.later_op_id,
                fresh.later_ts_ms,
            );
            let joined = local_outcome(
                core,
                AppActionModel::JoinVoice { guild_id, channel_id, actor_pubkey },
                fresh,
            );
            let left = local_outcome(
                core,
                AppActionModel::LeaveVoice { guild_id, channel_id, actor_pubkey },
                fresh,
            );
            let join = join_outcome(core.control, core.voice, first, second, fresh.session_id);
            let leave = leave_outcome(core.control, core.voice, first, second);
            &&& joined.core.voice == join.voice && joined.toast == join.toast
            &&& left.core.voice == leave.voice && left.toast == leave.toast
            &&& joined.core.chat == core.chat && left.core.chat == core.chat
            &&& joined.core.epoch_keys == core.epoch_keys && left.core.epoch_keys
                == core.epoch_keys
        }),
{
}

/// Who mutes themselves or speaks changes that alone of how they stand in the room: the
/// rest of them, and everybody else, stays. To speak takes the permission.
pub proof fn muting_and_speaking(
    core: AppCoreModel,
    guild_id: Seq<char>,
    channel_id: Seq<char>,
    actor_pubkey: Seq<char>,
    fresh: FreshModel,
    on: bool,
)
    requires
        is_present(
            core.control,
            core.voice,
            voice_place(guild_id, channel_id, actor_pubkey, fresh.op_id, fresh.ts_ms),
        ),
        !core.voice.seen_op_ids.contains(fresh.op_id),
        control_permits(core.control, guild_id, channel_id, actor_pubkey, Permission::SpeakVoice),
    ensures
        ({
            let channel = (guild_id, channel_id);
            let was = core.voice.rooms[channel].participants[actor_pubkey];
            let muted = local_outcome(
                core,
                AppActionModel::SetVoiceMuted { guild_id, channel_id, actor_pubkey, muted: on },
                fresh,
            );
            let spoke = local_outcome(
                core,
                AppActionModel::SetVoiceSpeaking {
                    guild_id,
                    channel_id,
                    actor_pubkey,
                    speaking: on,
                },
                fresh,
            );
            let a = muted.core.voice.rooms[channel].participants;
            let b = spoke.core.voice.rooms[channel].participants;
            &&& muted.toast is None && spoke.toast is None
            &&& a.contains_key(actor_pubkey) && a[actor_pubkey].muted == on
                && a[actor_pubkey].speaking == was.speaking && a[actor_pubkey].hand_raised
                == was.hand_raised
            &&& b.contains_key(actor_pubkey) && b[actor_pubkey].speaking == on
                && b[actor_pubkey].muted == was.muted && b[actor_pubkey].hand_raised
                == was.hand_raised
            &&& forall|p: Seq<char>|
                p != actor_pubkey && #[trigger] core.voice.rooms[channel].participants.contains_key(
                    p,
                ) ==> a[p] == core.voice.rooms[channel].participants[p] && b[p]
                    == core.voice.rooms[channel].participants[p]
            &&& muted.core.chat == core.chat && spoke.core.chat == core.chat
        }),
{
}

/// An action that is done counts one revision on, and leaves a selection that is there;
/// nothing else changes with that.
pub proof fn doing_counts_a_revision(core: AppCoreModel)
    requires
        core.rev < u64::MAX,
    ensures
        ({
            let done = done_core(core);
            &&& done.rev == core.rev + 1
            &&& done.control == core.control
            &&& done.control_ops == core.control_ops
            &&& done.chat == core.chat
            &&& done.voice == core.voice
            &&& done.groups == core.groups
            &&& done.epoch_keys == core.epoch_keys
            &&& done.greeting == core.greeting
            &&& done.selected_guild_id == normal_guild(core.control, core.selected_guild_id)
            &&& done.selected_channel_id == normal_channel(
                core.control,
                core.selected_guild_id,
                core.selected_channel_id,
            )
        }),
{
}

/// A selection stays where it is there; a guild that is not there gives way to the first
/// of the list, and so does a channel.
pub proof fn selection_stays_where_it_is_there(
    control: ControlStateModel,
    guild: Seq<char>,
    channel: Seq<char>,
)
    requires
        control.guilds.dom().finite(),
        control.guilds.contains_key(guild),
    ensures
        normal_guild(control, Some(guild)) == Some(guild),
        control.guilds[guild].channels.contains_key(channel) ==> normal_channel(
            control,
            Some(guild),
            Some(channel),
        ) == Some(channel),
        !control.guilds[guild].channels.contains_key(channel) && channel_list(
            control.guilds[guild],
        ).len() > 0 && control.guilds[guild].channels.dom().len() > 0 ==> normal_channel(
            control,
            Some(guild),
            Some(channel),
        ) == Some(channel_list(control.guilds[guild])[0].channel_id),
        guild_list(control).len() > 0 && control.guilds.dom().len() > 0 ==> normal_guild(
            control,
            None,
        ) == Some(guild_list(control)[0].guild_id),
{
}

/// What is shown is what there is: the revision, the greeting, the guilds, the selection,
/// the messages and the room of the channel that is selected, and what is to be told.
pub proof fn shown_is_what_there_is(core: AppCoreModel, toast: Option<Seq<char>>)
    ensures
        ({
            let state = shown(core, toast);
            &&& state.rev == core.rev
            &&& state.greeting == core.greeting
            &&& state.guilds == guild_list(core.control)
            &&& state.selected_guild_id == core.selected_guild_id
            &&& state.selected_channel_id == core.selected_channel_id
            &&& state.toast == toast
            &&& core.selected_guild_id is None || core.selected_channel_id is None
                ==> state.timeline.len() == 0 && state.voice_room is None
            &&& core.selected_guild_id is Some && core.selected_channel_id is Some ==> ({
                let channel = (core.selected_guild_id->0, core.selected_channel_id->0);
                &&& state.timeline.len() == timeline_of(core.chat, channel).len()
                &&& state.voice_room is Some <==> core.voice.rooms.contains_key(channel)
                &&& state.voice_room is Some ==> state.voice_room->0 == room_summary(
                    core.voice.rooms[channel],
                )
            })
        }),
{
    if core.selected_guild_id is Some && core.selected_channel_id is Some {
        let messages = timeline_of(
            core.chat,
            (core.selected_guild_id->0, core.selected_channel_id->0),
        );
        sorted_is_ordered::<TimelineMessageSummary>(
            messages.map_values(|m: TimelineMessageModel| message_summary(m)),
        );
    }
}

/// The messages of a channel are shown by time, and at the same time by id, each as often
/// as it is there.
pub proof fn messages_are_shown_by_time(
    chat: ChatStateModel,
    guild: Seq<char>,
    channel: Seq<char>,
    i: int,
    j: int,
)
    ensures
        ({
            let listed = shown_timeline(chat, Some(guild), Some(channel));
            let messages = timeline_of(chat, (guild, channel));
            &&& listed.len() == messages.len()
            &&& listed.to_multiset() == messages.map_values(
                |m: TimelineMessageModel| message_summary(m),
            ).to_multiset()
            &&& 0 <= i < j < listed.len() ==> listed[i].ts_ms <= listed[j].ts_ms && (
            listed[i].ts_ms == listed[j].ts_ms ==> !text_before(
                listed[j].message_id,
                listed[i].message_id,
            ))
        }),
{
    let messages = timeline_of(chat, (guild, channel)).map_values(
        |m: TimelineMessageModel| message_summary(m),
    );
    sorted_is_ordered::<TimelineMessageSummary>(messages);
    let listed = sorted::<TimelineMessageSummary>(messages);
    if 0 <= i < j < listed.len() {
        assert(!TimelineMessageSummary::ahead(listed[j], listed[i]));
    }
}

/// A message is shown with its id, author, text, marks and time, and with each emoji that
/// was used and exactly those who used it.
pub proof fn message_is_shown_in_full(message: TimelineMessageModel, i: int, user: Seq<char>)
    requires
        message.reactions.dom().finite(),
        forall|e: Seq<char>| #[trigger]
            message.reactions.contains_key(e) ==> message.reactions[e].finite(),
    ensures
        ({
            let summary = message_summary(message);
            &&& summary.message_id == message.message_id
            &&& summary.author == message.author
            &&& summary.content == message.content
            &&& summary.edited == message.edited
            &&& summary.deleted == message.deleted
            &&& summary.ts_ms == message.ts_ms
            &&& summary.reactions.len() == message.reactions.dom().len()
            &&& 0 <= i < summary.reactions.len() ==> message.reactions.contains_key(
                summary.reactions[i].emoji,
            ) && (summary.reactions[i].actors.contains(user)
                <==> message.reactions[summary.reactions[i].emoji].contains(user))
        }),
{
    let emojis = listing_of::<String>(message.reactions.dom());
    crate::collections::lemma_listing_exists::<String>(message.reactions.dom());
    crate::collections::lemma_increasing_no_duplicates::<String>(emojis);
    emojis.unique_seq_to_set();
    assert(emojis.to_set() =~= message.reactions.dom());
    let list = reaction_list(message);
    if 0 <= i < list.len() {
        assert(emojis.contains(emojis[i]));
        assert(message.reactions.contains_key(emojis[i]));
        crate::collections::lemma_listing_exists::<String>(message.reactions[emojis[i]]);
    }
}

/// A room is shown with its session, its address, the number of its tracks, and exactly
/// those who are in it, each as they stand.
pub proof fn room_is_shown_in_full(room: VoiceRoomStateModel, i: int)
    requires
        room.participants.dom().finite(),
        room.tracks.len() <= u32::MAX,
    ensures
        ({
            let summary = room_summary(room);
            &&& summary.active_session_id == room.active_session_id
            &&& summary.moq_url == room.moq_url
            &&& summary.track_count == room.tracks.len()
            &&& summary.participants.len() == room.participants.dom().len()
            &&& 0 <= i < summary.participants.len() ==> ({
                let p = summary.participants[i];
                &&& room.participants.contains_key(p.pubkey)
                &&& p.muted == room.participants[p.pubkey].muted
                &&& p.speaking == room.participants[p.pubkey].speaking
                &&& p.hand_raised == room.participants[p.pubkey].hand_raised
            })
        }),
{
    let keys = listing_of::<String>(room.participants.dom());
    crate::collections::lemma_listing_exists::<String>(room.participants.dom());
    crate::collections::lemma_increasing_no_duplicates::<String>(keys);
    keys.unique_seq_to_set();
    assert(keys.to_set() =~= room.participants.dom());
    if 0 <= i < keys.len() {
        assert(keys.contains(keys[i]));
    }
}

/// The channels of a guild are shown by name, and of the same name by id; each is shown
/// with its id, name and kind, and none is left out.
pub proof fn channels_are_shown_by_name(guild: GuildStateModel, i: int, j: int, id: Seq<char>)
    requires
        guild.channels.dom().finite(),
    ensures
        ({
            let listed = channel_list(guild);
            &&& listed.len() == guild.channels.dom().len()
            &&& 0 <= i < j < listed.len() ==> !text_before(listed[j].name, listed[i].name) && (
            listed[i].name == listed[j].name ==> !text_before(
                listed[j].channel_id,
                listed[i].channel_id,
            ))
            &&& guild.channels.contains_key(id) ==> exists|k: int|
                0 <= k < listed.len() && (#[trigger] listed[k]).channel_id
                    == guild.channels[id].channel_id && listed[k].name == guild.channels[id].name
                    && listed[k].kind == guild.channels[id].kind
        }),
{
    let ids = listing_of::<String>(guild.channels.dom());
    crate::collections::lemma_listing_exists::<String>(guild.channels.dom());
    crate::collections::lemma_increasing_no_duplicates::<String>(ids);
    ids.unique_seq_to_set();
    assert(ids.to_set() =~= guild.channels.dom());
    let all = ids.map_values(|id: Seq<char>| crate::app::channel_summary(guild.channels[id]));
    sorted_is_ordered::<ChannelSummary>(all);
    let listed = channel_list(guild);
    if 0 <= i < j < listed.len() {
        assert(!ChannelSummary::ahead(listed[j], listed[i]));
        crate::text::lemma_text_before_irreflexive(listed[i].name);
    }
    if guild.channels.contains_key(id) {
        broadcast use vstd::seq_lib::group_to_multiset_ensures;

        assert(ids.contains(id));
        let at = choose|at: int| 0 <= at < ids.len() && ids[at] == id;
        let summary = crate::app::channel_summary(guild.channels[id]);
        assert(all[at] == summary);
        assert(all.contains(summary));
        assert(listed.to_multiset().contains(summary));
        assert(listed.contains(summary));
        let k = choose|k: int| 0 <= k < listed.len() && listed[k] == summary;
        assert(listed[k].channel_id == guild.channels[id].channel_id);
    }
}

/// The guilds are shown by name, and of the same name by id; each is shown with its id,
/// its name, its channels, and how many channels and members it has, and none is left
/// out.
pub proof fn guilds_are_shown_by_name(control: ControlStateModel, i: int, j: int, id: Seq<char>)
    requires
        control.guilds.dom().finite(),
    ensures
        ({
            let listed = guild_list(control);
            let guild = control.guilds[id];
            &&& listed.len() == control.guilds.dom().len()
            &&& 0 <= i < j < listed.len() ==> !text_before(listed[j].name, listed[i].name) && (
            listed[i].name == listed[j].name ==> !text_before(
                listed[j].guild_id,
                listed[i].guild_id,
            ))
            &&& control.guilds.contains_key(id) ==> exists|k: int|
                0 <= k < listed.len() && (#[trigger] listed[k]).guild_id == guild.guild_id
                    && listed[k].name == guild.name && listed[k].channels == channel_list(guild)
                    && (guild.channels.dom().len() <= u32::MAX ==> listed[k].channel_count
                    == guild.channels.dom().len()) && (guild.members.len() <= u32::MAX
                    ==> listed[k].member_count == guild.members.len())
        }),
{
    let ids = listing_of::<String>(control.guilds.dom());
    crate::collections::lemma_listing_exists::<String>(control.guilds.dom());
    crate::collections::lemma_increasing_no_duplicates::<String>(ids);
    ids.unique_seq_to_set();
    assert(ids.to_set() =~= control.guilds.dom());
    let all = ids.map_values(|id: Seq<char>| crate::app::guild_summary(control.guilds[id]));
    sorted_is_ordered::<GuildSummary>(all);
    let listed = guild_list(control);
    if 0 <= i < j < listed.len() {
        assert(!GuildSummary::ahead(listed[j], listed[i]));
        crate::text::lemma_text_before_irreflexive(listed[i].name);
    }
    if control.guilds.contains_key(id) {
        broadcast use vstd::seq_lib::group_to_multiset_ensures;

        assert(ids.contains(id));
        let at = choose|at: int| 0 <= at < ids.len() && ids[at] == id;
        let summary = crate::app::guild_summary(control.guilds[id]);
        assert(all[at] == summary);
        assert(all.contains(summary));
        assert(listed.to_multiset().contains(summary));
        assert(listed.contains(summary));
        let k = choose|k: int| 0 <= k < listed.len() && listed[k] == summary;
        assert(listed[k].guild_id == control.guilds[id].guild_id);
    }
}

/// The application starts from its log where it can be replayed, and otherwise from the
/// state on disk, or from nothing; what could not be read is told.
pub proof fn start_goes_by_the_log(
    state: Result<ControlStateModel, Seq<char>>,
    ops: Result<Seq<ControlEnvelopeModel>, Seq<char>>,
)
    ensures
        ({
            let log = ops->Ok_0;
            let replayed = replay_from(no_guilds(), log_order(log));
            let by_log = ops is Ok && log.len() > 0 && replayed is Ok;
            &&& by_log ==> start_control(state, ops) == replayed->Ok_0 && start_ops(ops) == log
            &&& !by_log && state is Ok ==> start_control(state, ops) == state->Ok_0
            &&& !by_log && state is Err ==> start_control(state, ops) == no_guilds()
            &&& !by_log ==> start_ops(ops).len() == 0
            &&& ops is Err ==> start_toast(state, ops) == Some(
                "failed to load control log: "@ + ops->Err_0,
            )
            &&& ops is Ok && log.len() > 0 && replayed is Err ==> start_toast(state, ops) == Some(
                "failed to replay control log: "@ + crate::control::ControlError::words(
                    replayed->Err_0,
                ),
            )
            &&& ops is Ok && (log.len() == 0 || replayed is Ok) && state is Err ==> start_toast(
                state,
                ops,
            ) == Some("failed to load control state: "@ + state->Err_0)
            &&& ops is Ok && (log.len() == 0 || replayed is Ok) && state is Ok ==> start_toast(
                state,
                ops,
            ) is None
        }),
{
}

/// Groups that follow the guilds have the members who are wanted in their channels, keep
/// their epoch and key where that is no change, and open the next epoch where it is one;
/// no group comes or goes with that.
pub proof fn groups_follow_the_guilds(
    control: ControlStateModel,
    before: Map<(Seq<char>, Seq<char>), ChannelGroupStateModel>,
    after: Map<(Seq<char>, Seq<char>), ChannelGroupStateModel>,
    keys_before: KeyringModel,
    keys_after: KeyringModel,
    channels: Seq<(Seq<char>, Seq<char>)>,
    channel: (Seq<char>, Seq<char>),
)
    requires
        followed_through(control, before, after, keys_before, keys_after, channels),
    ensures
        after.contains_key(channel) <==> before.contains_key(channel),
        after.contains_key(channel) && channels.contains(channel) ==> ({
            let wanted = desired_members(control, channel.0, channel.1)->Ok_0;
            &&& after[channel].members == wanted
            &&& before[channel].members == wanted ==> after[channel].epoch == before[channel].epoch
                && after[channel].key == before[channel].key
            &&& before[channel].members != wanted && before[channel].epoch < u64::MAX
                ==> after[channel].epoch == before[channel].epoch + 1
        }),
        after.contains_key(channel) && !channels.contains(channel) ==> after[channel]
            == before[channel],
        channels.contains(channel) ==> key_in(keys_after, channel, after[channel].epoch) == Some(
            after[channel].key,
        ),
{
    assert(after.dom().contains(channel) <==> before.dom().contains(channel));
    if channels.contains(channel) {
        lemma_keys_taken_in(keys_before, after, channels, channel);
    }
}

proof fn lemma_keys_taken_in(
    keys: KeyringModel,
    groups: Map<(Seq<char>, Seq<char>), ChannelGroupStateModel>,
    channels: Seq<(Seq<char>, Seq<char>)>,
    channel: (Seq<char>, Seq<char>),
)
    requires
        channels.contains(channel),
    ensures
        key_in(keys_of(keys, groups, channels), channel, groups[channel].epoch) == Some(
            groups[channel].key,
        ),
    decreases channels.len(),
{
    let rest = channels.drop_last();
    if channels.last() != channel {
        let i = choose|i: int| 0 <= i < channels.len() && channels[i] == channel;
        assert(rest[i] == channel);
        lemma_keys_taken_in(keys, groups, rest, channel);
    }
}

/// An action is taken up: one on guilds that fits into the log is to be appended to it,
/// with nothing changed yet; one that does not fit is told; every other is done, and what
/// came of it is shown.
pub proof fn action_is_taken_up(
    before: AppCoreModel,
    action: AppActionModel,
    fresh: FreshModel,
    after: AppCoreModel,
    step: AppStepModel,
)
    requires
        begun_with(before, action, fresh, after, step),
    ensures
        ({
            let op = control_op(action, fresh.op_id, fresh.ts_ms);
            let refusal = op_refusal(before.control_ops, op->0);
            let done = local_outcome(before, action, fresh);
            &&& op is Some && refusal is None ==> after == before && step == AppStepModel::AppendOp(
                op->0,
            )
            &&& op is Some && refusal is Some ==> after == done_core(before) && step is Show
                && step->Show_0.toast == refusal
            &&& op is None ==> after == done_core(done.core) && step is Show && step->Show_0
                == shown(after, done.toast)
        }),
{
}

/// The application starts with what its log or its disk gives, nothing said and nobody
/// talking, the first guild and channel selected, the usual greeting, and one revision
/// for each operation that was applied.
pub proof fn application_starts_afresh(
    core: AppCoreModel,
    toast: Option<Seq<char>>,
    state: Result<ControlStateModel, Seq<char>>,
    ops: Result<Seq<ControlEnvelopeModel>, Seq<char>>,
    added: Map<(Seq<char>, Seq<char>), ChannelGroupStateModel>,
    channel: (Seq<char>, Seq<char>),
)
    requires
        started(core, toast, state, ops, added),
    ensures
        core.control == start_control(state, ops),
        core.control_ops == start_ops(ops),
        timeline_of(core.chat, channel).len() == 0,
        !core.voice.rooms.contains_key(channel),
        core.selected_guild_id == normal_guild(core.control, None),
        core.selected_channel_id == normal_channel(core.control, None, None),
        core.greeting == "Rapture ready"@,
        core.rev == core.control.seen_op_ids.len(),
        start_toast(state, ops) is Some ==> toast is Some,
{
}

/// Where every channel that has a group is still there, every group follows, and nothing
/// is told; otherwise those before the first that is not there follow, and that is told.
pub proof fn groups_follow_up_to_the_first_that_is_gone(
    control: ControlStateModel,
    groups: Map<(Seq<char>, Seq<char>), ChannelGroupStateModel>,
    channel: (Seq<char>, Seq<char>),
)
    requires
        groups.dom().finite(),
        forall|c: (Seq<char>, Seq<char>)| #[trigger]
            groups.contains_key(c) ==> desired_members(control, c.0, c.1) is Ok,
    ensures
        groups.contains_key(channel) <==> reached(control, groups).contains(channel),
        sync_toast(control, groups) is None,
{
    let channels = listing_of::<ChannelKey>(groups.dom());
    crate::collections::lemma_listing_exists::<ChannelKey>(groups.dom());
    assert forall|i: int| 0 <= i < channels.len() implies desired_members(
        control,
        (#[trigger] channels[i]).0,
        channels[i].1,
    ) is Ok by {
        assert(channels.contains(channels[i]));
        assert(groups.contains_key(channels[i]));
    }
    lemma_all_known(control, channels);
    assert(channels.take(channels.len() as int) =~= channels);
}

proof fn lemma_all_known(control: ControlStateModel, channels: Seq<(Seq<char>, Seq<char>)>)
    requires
        forall|i: int|
            0 <= i < channels.len() ==> desired_members(
                control,
                (#[trigger] channels[i]).0,
                channels[i].1,
            ) is Ok,
    ensures
        known_prefix(control, channels) == channels.len(),
    decreases channels.len(),
{
    if channels.len() > 0 {
        let rest = channels.drop_first();
        assert(desired_members(control, channels[0].0, channels[0].1) is Ok);
        assert forall|i: int| 0 <= i < rest.len() implies desired_members(
            control,
            (#[trigger] rest[i]).0,
            rest[i].1,
        ) is Ok by {
            assert(rest[i] == channels[i + 1]);
        }
        lemma_all_known(control, rest);
    }
}

} // verus!
