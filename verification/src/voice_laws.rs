//! What each operation does to a voice room, field by field, and on what it is refused.
use vstd::prelude::*;
use crate::permissions::Permission;
use crate::voice::{
    room_of, voice_result, voice_state, VoiceApplyOutcome, VoiceBodyModel, VoiceEnvelopeModel,
    VoiceErrorModel, VoiceParticipantModel, VoiceRoomStateModel, VoiceStateModel,
};

verus! {

/// Whether an operation is new, and in the schema of voice rooms.
pub open spec fn voice_op_is_new(state: VoiceStateModel, op: VoiceEnvelopeModel) -> bool {
    op.schema == "rapture.voice.v1"@ && !state.seen_op_ids.contains(op.op_id)
}

/// Whether an operation is applied.
pub open spec fn voice_applied(
    state: VoiceStateModel,
    op: VoiceEnvelopeModel,
    may: spec_fn(Permission) -> bool,
) -> bool {
    voice_result(state, op, may) == Ok::<VoiceApplyOutcome, VoiceErrorModel>(
        VoiceApplyOutcome::Applied,
    )
}

/// Whether an operation is refused, and why.
pub open spec fn voice_refused(
    state: VoiceStateModel,
    op: VoiceEnvelopeModel,
    may: spec_fn(Permission) -> bool,
    error: VoiceErrorModel,
) -> bool {
    voice_result(state, op, may) == Err::<VoiceApplyOutcome, VoiceErrorModel>(error)
}

/// The room of an operation's channel afterwards.
pub open spec fn left_room(
    state: VoiceStateModel,
    op: VoiceEnvelopeModel,
    may: spec_fn(Permission) -> bool,
) -> VoiceRoomStateModel {
    voice_state(state, op, may).rooms[(op.guild_id, op.channel_id)]
}

/// A channel without a room has one without a session, in which nobody is.
pub proof fn room_is_what_is_kept(state: VoiceStateModel, channel: (Seq<char>, Seq<char>))
    ensures
        state.rooms.contains_key(channel) ==> room_of(state, channel) == state.rooms[channel],
        !state.rooms.contains_key(channel) ==> ({
            let room = room_of(state, channel);
            &&& room.active_session_id is None
            &&& room.moq_url is None
            &&& forall|p: Seq<char>| !#[trigger] room.participants.contains_key(p)
            &&& room.tracks.len() == 0
        }),
{
}

/// An operation in another schema is refused, one that was seen is a duplicate; both
/// leave everything as it is. One that is applied is seen from then on, and no other is.
pub proof fn voice_ops_are_recorded(
    state: VoiceStateModel,
    op: VoiceEnvelopeModel,
    may: spec_fn(Permission) -> bool,
    id: Seq<char>,
)
    ensures
        op.schema != "rapture.voice.v1"@ ==> voice_refused(
            state,
            op,
            may,
            VoiceErrorModel::UnknownSchema(op.schema),
        ) && voice_state(state, op, may) == state,
        op.schema == "rapture.voice.v1"@ && state.seen_op_ids.contains(op.op_id) ==> voice_result(
            state,
            op,
            may,
        ) == Ok::<VoiceApplyOutcome, VoiceErrorModel>(VoiceApplyOutcome::Duplicate) && voice_state(
            state,
            op,
            may,
        ) == state,
        voice_applied(state, op, may) ==> (voice_state(state, op, may).seen_op_ids.contains(id)
            <==> state.seen_op_ids.contains(id) || id == op.op_id),
        !voice_applied(state, op, may) ==> voice_state(state, op, may).seen_op_ids
            == state.seen_op_ids,
{
}

/// Starting, ending, joining and leaving take the permission to connect, which is asked
/// for first.
pub proof fn connecting_takes_a_permission(
    state: VoiceStateModel,
    op: VoiceEnvelopeModel,
    may: spec_fn(Permission) -> bool,
)
    requires
        voice_op_is_new(state, op),
        op.body is SessionStart || op.body is SessionEnd || op.body is ParticipantJoin
            || op.body is ParticipantLeave,
        !may(Permission::ConnectVoice),
    ensures
        voice_refused(
            state,
            op,
            may,
            VoiceErrorModel::PermissionDenied {
                actor: op.actor,
                permission: Permission::ConnectVoice,
            },
        ),
{
}

/// What is said of another session than the one that runs is refused, with both told;
/// only a start needs no session.
pub proof fn session_has_to_run(
    state: VoiceStateModel,
    op: VoiceEnvelopeModel,
    may: spec_fn(Permission) -> bool,
    session: Seq<char>,
)
    requires
        voice_op_is_new(state, op),
        may(Permission::ConnectVoice),
        room_of(state, (op.guild_id, op.channel_id)).active_session_id != Some(session),
        op.body == (VoiceBodyModel::SessionEnd { session_id: session }) || op.body == (
        VoiceBodyModel::ParticipantJoin { session_id: session }) || op.body == (
        VoiceBodyModel::ParticipantLeave { session_id: session }) || (
        op.body matches VoiceBodyModel::ParticipantState { session_id, .. } && session_id
            == session) || (op.body matches VoiceBodyModel::TrackAdvertise { session_id, .. }
            && session_id == session),
    ensures
        voice_refused(
            state,
            op,
            may,
            VoiceErrorModel::SessionMismatch {
                expected: room_of(state, (op.guild_id, op.channel_id)).active_session_id,
                actual: session,
            },
        ),
{
}

/// A session that is started runs at its address, with nobody in it and no track,
/// whatever ran before.
pub proof fn start_opens_an_empty_session(
    state: VoiceStateModel,
    op: VoiceEnvelopeModel,
    may: spec_fn(Permission) -> bool,
    session: Seq<char>,
    url: Seq<char>,
)
    requires
        voice_op_is_new(state, op),
        may(Permission::ConnectVoice),
        op.body == (VoiceBodyModel::SessionStart { session_id: session, moq_url: url }),
    ensures
        voice_applied(state, op, may),
        ({
            let room = left_room(state, op, may);
            &&& voice_state(state, op, may).rooms.contains_key((op.guild_id, op.channel_id))
            &&& room.active_session_id == Some(session)
            &&& room.moq_url == Some(url)
            &&& forall|p: Seq<char>| !#[trigger] room.participants.contains_key(p)
            &&& room.tracks.len() == 0
        }),
{
}

/// A session that is ended leaves a room without session, address, people or tracks.
pub proof fn end_empties_the_room(
    state: VoiceStateModel,
    op: VoiceEnvelopeModel,
    may: spec_fn(Permission) -> bool,
    session: Seq<char>,
)
    requires
        voice_op_is_new(state, op),
        may(Permission::ConnectVoice),
        room_of(state, (op.guild_id, op.channel_id)).active_session_id == Some(session),
        op.body == (VoiceBodyModel::SessionEnd { session_id: session }),
    ensures
        voice_applied(state, op, may),
        ({
            let room = left_room(state, op, may);
            &&& voice_state(state, op, may).rooms.contains_key((op.guild_id, op.channel_id))
            &&& room.active_session_id is None
            &&& room.moq_url is None
            &&& forall|p: Seq<char>| !#[trigger] room.participants.contains_key(p)
            &&& room.tracks.len() == 0
        }),
{
}

/// Whether a room runs the same session as another, with the same tracks.
pub open spec fn same_session(a: VoiceRoomStateModel, b: VoiceRoomStateModel) -> bool {
    a.active_session_id == b.active_session_id && a.moq_url == b.moq_url && a.tracks == b.tracks
}

/// Whether the people in a room other than one are what they were.
pub open spec fn other_people_stay(
    before: Map<Seq<char>, VoiceParticipantModel>,
    after: Map<Seq<char>, VoiceParticipantModel>,
    user: Seq<char>,
) -> bool {
    &&& forall|p: Seq<char>|
        p != user ==> (#[trigger] after.contains_key(p) <==> before.contains_key(p))
    &&& forall|p: Seq<char>|
        p != user && #[trigger] before.contains_key(p) ==> after[p] == before[p]
}

/// Who joins is in the room: as they were where they were there, and otherwise neither
/// muted nor speaking, with no hand raised. Nobody else is touched.
pub proof fn join_brings_the_actor_in(
    state: VoiceStateModel,
    op: VoiceEnvelopeModel,
    may: spec_fn(Permission) -> bool,
    session: Seq<char>,
)
    requires
        voice_op_is_new(state, op),
        may(Permission::ConnectVoice),
        room_of(state, (op.guild_id, op.channel_id)).active_session_id == Some(session),
        op.body == (VoiceBodyModel::ParticipantJoin { session_id: session }),
    ensures
        voice_applied(state, op, may),
        ({
            let before = room_of(state, (op.guild_id, op.channel_id));
            let room = left_room(state, op, may);
            &&& room.participants.contains_key(op.actor)
            &&& before.participants.contains_key(op.actor) ==> room.participants[op.actor]
                == before.participants[op.actor]
            &&& !before.participants.contains_key(op.actor) ==> !room.participants[op.actor].muted
                && !room.participants[op.actor].speaking
                && !room.participants[op.actor].hand_raised
            &&& other_people_stay(before.participants, room.participants, op.actor)
            &&& same_session(room, before)
        }),
{
}

/// Who leaves is not in the room. Nobody else is touched, and neither are the tracks.
pub proof fn leave_takes_the_actor_out(
    state: VoiceStateModel,
    op: VoiceEnvelopeModel,
    may: spec_fn(Permission) -> bool,
    session: Seq<char>,
)
    requires
        voice_op_is_new(state, op),
        may(Permission::ConnectVoice),
        room_of(state, (op.guild_id, op.channel_id)).active_session_id == Some(session),
        op.body == (VoiceBodyModel::ParticipantLeave { session_id: session }),
    ensures
        voice_applied(state, op, may),
        ({
            let before = room_of(state, (op.guild_id, op.channel_id));
            let room = left_room(state, op, may);
            &&& !room.participants.contains_key(op.actor)
            &&& other_people_stay(before.participants, room.participants, op.actor)
            &&& same_session(room, before)
        }),
{
}

/// The state of somebody in the room is set to what an operation says, by themselves or
/// by one who may mute others; to speak takes the permission of the actor; and nobody's
/// state is set who is not in the room. What is missing first is told.
pub proof fn state_is_set_as_said(
    state: VoiceStateModel,
    op: VoiceEnvelopeModel,
    may: spec_fn(Permission) -> bool,
    session: Seq<char>,
    target: Seq<char>,
    muted: bool,
    speaking: bool,
    hand_raised: bool,
)
    requires
        voice_op_is_new(state, op),
        room_of(state, (op.guild_id, op.channel_id)).active_session_id == Some(session),
        op.body == (VoiceBodyModel::ParticipantState {
            session_id: session,
            target_pubkey: target,
            muted,
            speaking,
            hand_raised,
        }),
    ensures
        ({
            let before = room_of(state, (op.guild_id, op.channel_id));
            let room = left_room(state, op, may);
            let may_set = target == op.actor || may(Permission::MuteMembers);
            let may_speak = !speaking || may(Permission::SpeakVoice);
            &&& !may_set ==> voice_refused(
                state,
                op,
                may,
                VoiceErrorModel::PermissionDenied {
                    actor: op.actor,
                    permission: Permission::MuteMembers,
                },
            )
            &&& may_set && !may_speak ==> voice_refused(
                state,
                op,
                may,
                VoiceErrorModel::PermissionDenied {
                    actor: op.actor,
                    permission: Permission::SpeakVoice,
                },
            )
            &&& may_set && may_speak && !before.participants.contains_key(target) ==> voice_refused(
                state,
                op,
                may,
                VoiceErrorModel::ParticipantNotInRoom(target),
            )
            &&& may_set && may_speak && before.participants.contains_key(target) ==> voice_applied(
                state,
                op,
                may,
            ) && room.participants.contains_key(target) && room.participants[target].muted == muted
                && room.participants[target].speaking == speaking
                && room.participants[target].hand_raised == hand_raised && other_people_stay(
                before.participants,
                room.participants,
                target,
            ) && same_session(room, before)
        }),
{
}

/// A track is offered after those that were, under the name of its actor, who has to be
/// in the room, which is asked first, and to be permitted to speak.
pub proof fn track_is_offered_last(
    state: VoiceStateModel,
    op: VoiceEnvelopeModel,
    may: spec_fn(Permission) -> bool,
    session: Seq<char>,
    track: Seq<char>,
    track_codec: Seq<char>,
)
    requires
        voice_op_is_new(state, op),
        room_of(state, (op.guild_id, op.channel_id)).active_session_id == Some(session),
        op.body == (VoiceBodyModel::TrackAdvertise {
            session_id: session,
            track_name: track,
            codec: track_codec,
        }),
    ensures
        ({
            let before = room_of(state, (op.guild_id, op.channel_id));
            let room = left_room(state, op, may);
            let is_in = before.participants.contains_key(op.actor);
            &&& !is_in ==> voice_refused(
                state,
                op,
                may,
                VoiceErrorModel::ParticipantNotInRoom(op.actor),
            )
            &&& is_in && !may(Permission::SpeakVoice) ==> voice_refused(
                state,
                op,
                may,
                VoiceErrorModel::PermissionDenied {
                    actor: op.actor,
                    permission: Permission::SpeakVoice,
                },
            )
            &&& is_in && may(Permission::SpeakVoice) ==> voice_applied(state, op, may) && ({
                &&& room.tracks.len() == before.tracks.len() + 1
                &&& forall|i: int|
                    0 <= i < before.tracks.len() ==> #[trigger] room.tracks[i] == before.tracks[i]
                &&& room.tracks.last().track_name == track
                &&& room.tracks.last().codec == track_codec
                &&& room.tracks.last().advertised_by == op.actor
                &&& room.participants == before.participants
                &&& room.active_session_id == before.active_session_id
                &&& room.moq_url == before.moq_url
            })
        }),
{
}

} // verus!
