//! What a user does in voice rooms.
//!
//! Each action gives back what to tell the user, nothing where it went through.
use vstd::prelude::*;
use crate::collections::Replicate;
use crate::control::{ControlState, ControlStateModel};
use crate::messaging::{channel_path, channel_path_text, refusal_of};
use crate::permissions::{has_permission, permitted, Permission};
use crate::voice::{
    may_of, voice_result, VoiceBodyModel, VoiceEnvelope, VoiceEnvelopeModel, VoiceError,
    VoiceParticipantModel, VoicePermissionLookup, VoiceState, VoiceStateModel, VOICE_SCHEMA_V1,
};
use crate::ChannelKind;

verus! {

/// The permissions that the control state gives.
pub struct ControlVoicePermissions<'a> {
    pub control: &'a ControlState,
}

/// Whether the control state gives an actor a permission in a channel.
pub open spec fn control_permits(
    control: ControlStateModel,
    guild_id: Seq<char>,
    channel_id: Seq<char>,
    actor: Seq<char>,
    permission: Permission,
) -> bool {
    control.guilds.contains_key(guild_id) && permitted(
        control.guilds[guild_id],
        actor,
        Some(channel_id),
        permission,
    )
}

impl<'a> VoicePermissionLookup for ControlVoicePermissions<'a> {
    open spec fn permits(
        &self,
        guild_id: Seq<char>,
        channel_id: Seq<char>,
        actor: Seq<char>,
        permission: Permission,
    ) -> bool {
        control_permits(self.control@, guild_id, channel_id, actor, permission)
    }

    fn has_permission(
        &self,
        guild_id: &str,
        channel_id: &str,
        actor: &str,
        permission: Permission,
    ) -> (allowed: bool) {
        match self.control.guilds.get(&guild_id.to_owned()) {
            Some(guild) => has_permission(guild, actor, Some(channel_id), permission),
            None => false,
        }
    }
}

/// The name of a kind of channel.
pub open spec fn kind_name(kind: ChannelKind) -> Seq<char> {
    match kind {
        ChannelKind::Text => "Text"@,
        ChannelKind::Voice => "Voice"@,
        ChannelKind::Private => "Private"@,
        ChannelKind::Thread => "Thread"@,
    }
}

/// The name of a kind of channel.
fn kind_text(kind: ChannelKind) -> (name: String)
    ensures
        name@ == kind_name(kind),
{
    match kind {
        ChannelKind::Text => "Text".to_owned(),
        ChannelKind::Voice => "Voice".to_owned(),
        ChannelKind::Private => "Private".to_owned(),
        ChannelKind::Thread => "Thread".to_owned(),
    }
}

/// Why a channel is no voice channel, where that is so.
pub open spec fn voice_refusal(
    control: ControlStateModel,
    guild_id: Seq<char>,
    channel_id: Seq<char>,
) -> Option<Seq<char>> {
    if !control.guilds.contains_key(guild_id) {
        Some("guild not found: "@ + guild_id)
    } else if !control.guilds[guild_id].channels.contains_key(channel_id) {
        Some("channel not found: "@ + channel_path(guild_id, channel_id))
    } else {
        let kind = control.guilds[guild_id].channels[channel_id].kind;
        if kind == ChannelKind::Voice {
            None
        } else {
            Some(
                "channel is not voice: "@ + channel_path(guild_id, channel_id) + " ("@ + kind_name(
                    kind,
                ) + ")"@,
            )
        }
    }
}

/// Refuses a channel that is no voice channel.
pub fn require_voice_channel(
    control_state: &ControlState,
    guild_id: &str,
    channel_id: &str,
) -> (result: Result<(), String>)
    ensures
        refusal_of(result) == voice_refusal(control_state@, guild_id@, channel_id@),
{
    let guild = match control_state.guilds.get(&guild_id.to_owned()) {
        Some(guild) => guild,
        None => {
            return Err("guild not found: ".to_owned().concat(guild_id));
        },
    };
    let path = channel_path_text(guild_id, channel_id);
    match guild.channels.get(&channel_id.to_owned()) {
        None => Err("channel not found: ".to_owned().concat(path.as_str())),
        Some(channel) => {
            if channel.kind == ChannelKind::Voice {
                Ok(())
            } else {
                Err(
                    "channel is not voice: ".to_owned().concat(path.as_str()).concat(" (").concat(
                        kind_text(channel.kind).as_str(),
                    ).concat(")"),
                )
            }
        },
    }
}

/// The address of a session on the local relay.
pub open spec fn moq_url(
    guild_id: Seq<char>,
    channel_id: Seq<char>,
    session_id: Seq<char>,
) -> Seq<char> {
    "moq://local-relay/room/"@ + guild_id + "/"@ + channel_id + "/"@ + session_id
}

/// The address of a session on the local relay.
pub fn default_voice_moq_url(guild_id: &str, channel_id: &str, session_id: &str) -> (url: String)
    ensures
        url@ == moq_url(guild_id@, channel_id@, session_id@),
{
    "moq://local-relay/room/".to_owned().concat(guild_id).concat("/").concat(channel_id).concat(
        "/",
    ).concat(session_id)
}

/// What the user is told, and the rooms that are left.
#[verifier::ext_equal]
pub struct VoiceOutcome {
    pub toast: Option<Seq<char>>,
    pub voice: VoiceStateModel,
}

/// What an actor of an operation is permitted by the control state.
pub open spec fn control_may(control: ControlStateModel, op: VoiceEnvelopeModel) -> spec_fn(
    Permission,
) -> bool {
    |permission: Permission|
        control_permits(control, op.guild_id, op.channel_id, op.actor, permission)
}

/// What offering an operation to the voice rooms comes to.
pub open spec fn voice_offered(
    control: ControlStateModel,
    voice: VoiceStateModel,
    op: VoiceEnvelopeModel,
) -> VoiceOutcome {
    VoiceOutcome {
        toast: match voice_result(voice, op, control_may(control, op)) {
            Ok(_) => None,
            Err(error) => Some("voice op failed: "@ + VoiceError::words(error)),
        },
        voice: crate::voice::voice_state(voice, op, control_may(control, op)),
    }
}

/// Applies a voice operation with the permissions that the control state gives.
pub fn apply_voice_envelope(
    voice_state: &mut VoiceState,
    control_state: &ControlState,
    envelope: VoiceEnvelope,
) -> (toast: Option<String>)
    ensures
        (VoiceOutcome { toast: toast.deep_view(), voice: final(voice_state)@ }) == voice_offered(
            control_state@,
            old(voice_state)@,
            envelope@,
        ),
{
    let perms = ControlVoicePermissions { control: control_state };
    let ghost op = envelope@;
    proof {
        assert(may_of(&perms, op) =~= control_may(control_state@, op));
    }
    match voice_state.apply(envelope, &perms) {
        Ok(_) => None,
        Err(error) => Some("voice op failed: ".to_owned().concat(error.message().as_str())),
    }
}

/// Which channel an actor does something in, and as which operation.
#[verifier::ext_equal]
pub struct VoiceOrigin {
    pub guild_id: Seq<char>,
    pub channel_id: Seq<char>,
    pub actor: Seq<char>,
    pub op_id: Seq<char>,
    pub ts_ms: i64,
}

/// The operation of an origin with a body.
pub open spec fn voice_op(origin: VoiceOrigin, body: VoiceBodyModel) -> VoiceEnvelopeModel {
    VoiceEnvelopeModel {
        schema: VOICE_SCHEMA_V1@,
        guild_id: origin.guild_id,
        channel_id: origin.channel_id,
        actor: origin.actor,
        op_id: origin.op_id,
        ts_ms: origin.ts_ms,
        body,
    }
}

/// The session that runs in a channel.
pub open spec fn running_session(voice: VoiceStateModel, channel: (Seq<char>, Seq<char>)) -> Option<
    Seq<char>,
> {
    if voice.rooms.contains_key(channel) {
        voice.rooms[channel].active_session_id
    } else {
        None
    }
}

/// What joining comes to: where no session runs the actor opens one first.
pub open spec fn join_outcome(
    control: ControlStateModel,
    voice: VoiceStateModel,
    start: VoiceOrigin,
    join: VoiceOrigin,
    new_session: Seq<char>,
) -> VoiceOutcome {
    match voice_refusal(control, join.guild_id, join.channel_id) {
        Some(refusal) => VoiceOutcome { toast: Some(refusal), voice },
        None => match running_session(voice, (join.guild_id, join.channel_id)) {
            Some(session_id) => voice_offered(
                control,
                voice,
                voice_op(join, VoiceBodyModel::ParticipantJoin { session_id }),
            ),
            None => {
                let started = voice_offered(
                    control,
                    voice,
                    voice_op(
                        start,
                        VoiceBodyModel::SessionStart {
                            session_id: new_session,
                            moq_url: moq_url(join.guild_id, join.channel_id, new_session),
                        },
                    ),
                );
                if started.toast is Some {
                    started
                } else {
                    voice_offered(
                        control,
                        started.voice,
                        voice_op(join, VoiceBodyModel::ParticipantJoin { session_id: new_session }),
                    )
                }
            },
        },
    }
}

/// Joins the session of a voice channel, or opens one and joins it. It is given
/// two fresh operation ids, the times, and an id for a session.
pub fn join_voice(
    control_state: &ControlState,
    voice_state: &mut VoiceState,
    guild_id: String,
    channel_id: String,
    actor_pubkey: String,
    start_op_id: String,
    start_ts_ms: i64,
    join_op_id: String,
    join_ts_ms: i64,
    new_session_id: String,
) -> (toast: Option<String>)
    ensures
        (VoiceOutcome { toast: toast.deep_view(), voice: final(voice_state)@ }) == join_outcome(
            control_state@,
            old(voice_state)@,
            VoiceOrigin {
                guild_id: guild_id@,
                channel_id: channel_id@,
                actor: actor_pubkey@,
                op_id: start_op_id@,
                ts_ms: start_ts_ms,
            },
            VoiceOrigin {
                guild_id: guild_id@,
                channel_id: channel_id@,
                actor: actor_pubkey@,
                op_id: join_op_id@,
                ts_ms: join_ts_ms,
            },
            new_session_id@,
        ),
{
    if let Err(refusal) = require_voice_channel(
        control_state,
        guild_id.as_str(),
        channel_id.as_str(),
    ) {
        return Some(refusal);
    }
    let running = match voice_state.room(guild_id.as_str(), channel_id.as_str()) {
        Some(room) => room.active_session_id.replicate(),
        None => None,
    };
    let session_id = match running {
        Some(session_id) => session_id,
        None => {
            let url = default_voice_moq_url(
                guild_id.as_str(),
                channel_id.as_str(),
                new_session_id.as_str(),
            );
            let start = VoiceEnvelope::session_start(
                start_op_id,
                start_ts_ms,
                guild_id.clone(),
                channel_id.clone(),
                actor_pubkey.clone(),
                new_session_id.clone(),
                url,
            );
            if let Some(failure) = apply_voice_envelope(voice_state, control_state, start) {
                return Some(failure);
            }
            new_session_id
        },
    };
    let join = VoiceEnvelope::participant_join(
        join_op_id,
        join_ts_ms,
        guild_id,
        channel_id,
        actor_pubkey,
        session_id,
    );
    apply_voice_envelope(voice_state, control_state, join)
}

/// Why an actor takes no part in a channel's session, where that is so.
pub open spec fn presence_refusal(
    control: ControlStateModel,
    voice: VoiceStateModel,
    guild_id: Seq<char>,
    channel_id: Seq<char>,
    actor: Seq<char>,
) -> Option<Seq<char>> {
    let channel = (guild_id, channel_id);
    match voice_refusal(control, guild_id, channel_id) {
        Some(refusal) => Some(refusal),
        None => if !voice.rooms.contains_key(channel) {
            Some("no active voice room for "@ + channel_path(guild_id, channel_id))
        } else if voice.rooms[channel].active_session_id is None {
            Some("no active voice session for "@ + channel_path(guild_id, channel_id))
        } else if !voice.rooms[channel].participants.contains_key(actor) {
            Some("actor not joined in voice room: "@ + actor)
        } else {
            None
        },
    }
}

/// The running session and how the actor takes part in it, or why not.
fn require_presence(
    control_state: &ControlState,
    voice_state: &VoiceState,
    guild_id: &str,
    channel_id: &str,
    actor: &String,
) -> (result: Result<(String, crate::voice::VoiceParticipant), String>)
    ensures
        match presence_refusal(
            control_state@,
            voice_state@,
            guild_id@,
            channel_id@,
            actor@,
        ) {
            Some(refusal) => result is Err && result->Err_0@ == refusal,
            None => {
                let room = voice_state@.rooms[(guild_id@, channel_id@)];
                &&& result is Ok
                &&& room.active_session_id == Some(result->Ok_0.0@)
                &&& room.participants[actor@] == result->Ok_0.1@
            },
        },
{
    if let Err(refusal) = require_voice_channel(control_state, guild_id, channel_id) {
        return Err(refusal);
    }
    let path = channel_path_text(guild_id, channel_id);
    let room = match voice_state.room(guild_id, channel_id) {
        Some(room) => room,
        None => {
            return Err("no active voice room for ".to_owned().concat(path.as_str()));
        },
    };
    let session_id = match &room.active_session_id {
        Some(session_id) => session_id.clone(),
        None => {
            return Err("no active voice session for ".to_owned().concat(path.as_str()));
        },
    };
    match room.participants.get(actor) {
        Some(me) => Ok((session_id, me.replicate())),
        None => Err("actor not joined in voice room: ".to_owned().concat(actor.as_str())),
    }
}

/// What leaving comes to: whoever leaves last closes the session.
pub open spec fn leave_outcome(
    control: ControlStateModel,
    voice: VoiceStateModel,
    leave: VoiceOrigin,
    end: VoiceOrigin,
) -> VoiceOutcome {
    let channel = (leave.guild_id, leave.channel_id);
    match presence_refusal(control, voice, leave.guild_id, leave.channel_id, leave.actor) {
        Some(refusal) => VoiceOutcome { toast: Some(refusal), voice },
        None => {
            let session_id = voice.rooms[channel].active_session_id->0;
            let left = voice_offered(
                control,
                voice,
                voice_op(leave, VoiceBodyModel::ParticipantLeave { session_id }),
            );
            if left.toast is Some {
                left
            } else if left.voice.rooms[channel].participants == Map::<
                Seq<char>,
                VoiceParticipantModel,
            >::empty() && left.voice.rooms[channel].active_session_id is Some {
                voice_offered(
                    control,
                    left.voice,
                    voice_op(end, VoiceBodyModel::SessionEnd { session_id }),
                )
            } else {
                left
            }
        },
    }
}

/// Leaves a voice channel's session, and closes it where nobody is left.
pub fn leave_voice(
    control_state: &ControlState,
    voice_state: &mut VoiceState,
    guild_id: String,
    channel_id: String,
    actor_pubkey: String,
    leave_op_id: String,
    leave_ts_ms: i64,
    end_op_id: String,
    end_ts_ms: i64,
) -> (toast: Option<String>)
    ensures
        (VoiceOutcome { toast: toast.deep_view(), voice: final(voice_state)@ }) == leave_outcome(
            control_state@,
            old(voice_state)@,
            VoiceOrigin {
                guild_id: guild_id@,
                channel_id: channel_id@,
                actor: actor_pubkey@,
                op_id: leave_op_id@,
                ts_ms: leave_ts_ms,
            },
            VoiceOrigin {
                guild_id: guild_id@,
                channel_id: channel_id@,
                actor: actor_pubkey@,
                op_id: end_op_id@,
                ts_ms: end_ts_ms,
            },
        ),
{
    let session_id = match require_presence(
        control_state,
        voice_state,
        guild_id.as_str(),
        channel_id.as_str(),
        &actor_pubkey,
    ) {
        Ok((session_id, _)) => session_id,
        Err(refusal) => {
            return Some(refusal);
        },
    };
    let leave = VoiceEnvelope::participant_leave(
        leave_op_id,
        leave_ts_ms,
        guild_id.clone(),
        channel_id.clone(),
        actor_pubkey.clone(),
        session_id.clone(),
    );
    if let Some(failure) = apply_voice_envelope(voice_state, control_state, leave) {
        return Some(failure);
    }
    let deserted = match voice_state.room(guild_id.as_str(), channel_id.as_str()) {
        Some(room) => room.participants.is_empty() && room.active_session_id.is_some(),
        None => false,
    };
    if deserted {
        let end = VoiceEnvelope::session_end(
            end_op_id,
            end_ts_ms,
            guild_id,
            channel_id,
            actor_pubkey,
            session_id,
        );
        return apply_voice_envelope(voice_state, control_state, end);
    }
    None
}

/// What changing how the actor takes part comes to.
pub open spec fn presence_outcome(
    control: ControlStateModel,
    voice: VoiceStateModel,
    origin: VoiceOrigin,
    change: spec_fn(VoiceParticipantModel) -> VoiceParticipantModel,
) -> VoiceOutcome {
    match presence_refusal(control, voice, origin.guild_id, origin.channel_id, origin.actor) {
        Some(refusal) => VoiceOutcome { toast: Some(refusal), voice },
        None => {
            let room = voice.rooms[(origin.guild_id, origin.channel_id)];
            let me = change(room.participants[origin.actor]);
            voice_offered(
                control,
                voice,
                voice_op(
                    origin,
                    VoiceBodyModel::ParticipantState {
                        session_id: room.active_session_id->0,
                        target_pubkey: origin.actor,
                        muted: me.muted,
                        speaking: me.speaking,
                        hand_raised: me.hand_raised,
                    },
                ),
            )
        },
    }
}

/// Mutes or unmutes the actor.
pub fn set_voice_muted(
    control_state: &ControlState,
    voice_state: &mut VoiceState,
    guild_id: String,
    channel_id: String,
    actor_pubkey: String,
    muted: bool,
    op_id: String,
    ts_ms: i64,
) -> (toast: Option<String>)
    ensures
        (VoiceOutcome { toast: toast.deep_view(), voice: final(voice_state)@ })
            == presence_outcome(
            control_state@,
            old(voice_state)@,
            VoiceOrigin {
                guild_id: guild_id@,
                channel_id: channel_id@,
                actor: actor_pubkey@,
                op_id: op_id@,
                ts_ms,
            },
            |me: VoiceParticipantModel| VoiceParticipantModel { muted, ..me },
        ),
{
    let (session_id, me) = match require_presence(
        control_state,
        voice_state,
        guild_id.as_str(),
        channel_id.as_str(),
        &actor_pubkey,
    ) {
        Ok(present) => present,
        Err(refusal) => {
            return Some(refusal);
        },
    };
    let update = VoiceEnvelope::participant_state(
        op_id,
        ts_ms,
        guild_id,
        channel_id,
        actor_pubkey.clone(),
        session_id,
        actor_pubkey,
        muted,
        me.speaking,
        me.hand_raised,
    );
    apply_voice_envelope(voice_state, control_state, update)
}

/// Says whether the actor speaks.
pub fn set_voice_speaking(
    control_state: &ControlState,
    voice_state: &mut VoiceState,
    guild_id: String,
    channel_id: String,
    actor_pubkey: String,
    speaking: bool,
    op_id: String,
    ts_ms: i64,
) -> (toast: Option<String>)
    ensures
        (VoiceOutcome { toast: toast.deep_view(), voice: final(voice_state)@ })
            == presence_outcome(
            control_state@,
            old(voice_state)@,
            VoiceOrigin {
                guild_id: guild_id@,
                channel_id: channel_id@,
                actor: actor_pubkey@,
                op_id: op_id@,
                ts_ms,
            },
            |me: VoiceParticipantModel| VoiceParticipantModel { speaking, ..me },
        ),
{
    let (session_id, me) = match require_presence(
        control_state,
        voice_state,
        guild_id.as_str(),
        channel_id.as_str(),
        &actor_pubkey,
    ) {
        Ok(present) => present,
        Err(refusal) => {
            return Some(refusal);
        },
    };
    let update = VoiceEnvelope::participant_state(
        op_id,
        ts_ms,
        guild_id,
        channel_id,
        actor_pubkey.clone(),
        session_id,
        actor_pubkey,
        me.muted,
        speaking,
        me.hand_raised,
    );
    apply_voice_envelope(voice_state, control_state, update)
}

} // verus!
