//! Voice rooms: one session at a time, who takes part in it and which tracks
//! they offer.
use vstd::prelude::*;
use crate::collections::{outcome, ChannelKey, OrdMap, OrdSet, Replicate};
use crate::permissions::{permission_name, permission_text, Permission};
use crate::text::{quoted, quoted_text};

verus! {

pub const VOICE_SCHEMA_V1: &'static str = "rapture.voice.v1";

/// An operation on a voice room, with its origin.
#[derive(Debug, PartialEq, Eq)]
pub struct VoiceEnvelope {
    pub schema: String,
    pub guild_id: String,
    pub channel_id: String,
    pub actor: String,
    pub op_id: String,
    pub ts_ms: i64,
    pub body: VoiceBody,
}

/// What a [`VoiceEnvelope`] holds.
#[verifier::ext_equal]
pub struct VoiceEnvelopeModel {
    pub schema: Seq<char>,
    pub guild_id: Seq<char>,
    pub channel_id: Seq<char>,
    pub actor: Seq<char>,
    pub op_id: Seq<char>,
    pub ts_ms: i64,
    pub body: VoiceBodyModel,
}

impl DeepView for VoiceEnvelope {
    type V = VoiceEnvelopeModel;

    open spec fn deep_view(&self) -> VoiceEnvelopeModel {
        VoiceEnvelopeModel {
            schema: self.schema.deep_view(),
            guild_id: self.guild_id.deep_view(),
            channel_id: self.channel_id.deep_view(),
            actor: self.actor.deep_view(),
            op_id: self.op_id.deep_view(),
            ts_ms: self.ts_ms.deep_view(),
            body: self.body.deep_view(),
        }
    }
}

impl View for VoiceEnvelope {
    type V = VoiceEnvelopeModel;

    open spec fn view(&self) -> VoiceEnvelopeModel {
        self.deep_view()
    }
}

impl Replicate for VoiceEnvelope {
    fn replicate(&self) -> (copy: Self) {
        VoiceEnvelope {
            schema: self.schema.replicate(),
            guild_id: self.guild_id.replicate(),
            channel_id: self.channel_id.replicate(),
            actor: self.actor.replicate(),
            op_id: self.op_id.replicate(),
            ts_ms: self.ts_ms.replicate(),
            body: self.body.replicate(),
        }
    }
}

impl Clone for VoiceEnvelope {
    fn clone(&self) -> (copy: Self)
        ensures
            copy@ == self@,
    {
        self.replicate()
    }
}

/// What a voice operation does.
#[derive(Debug, PartialEq, Eq)]
pub enum VoiceBody {
    SessionStart { session_id: String, moq_url: String },
    SessionEnd { session_id: String },
    ParticipantJoin { session_id: String },
    ParticipantLeave { session_id: String },
    ParticipantState {
        session_id: String,
        target_pubkey: String,
        muted: bool,
        speaking: bool,
        hand_raised: bool,
    },
    TrackAdvertise { session_id: String, track_name: String, codec: String },
}

/// What a [`VoiceBody`] holds.
#[verifier::ext_equal]
pub enum VoiceBodyModel {
    SessionStart { session_id: Seq<char>, moq_url: Seq<char> },
    SessionEnd { session_id: Seq<char> },
    ParticipantJoin { session_id: Seq<char> },
    ParticipantLeave { session_id: Seq<char> },
    ParticipantState {
        session_id: Seq<char>,
        target_pubkey: Seq<char>,
        muted: bool,
        speaking: bool,
        hand_raised: bool,
    },
    TrackAdvertise { session_id: Seq<char>, track_name: Seq<char>, codec: Seq<char> },
}

impl DeepView for VoiceBody {
    type V = VoiceBodyModel;

    open spec fn deep_view(&self) -> VoiceBodyModel {
        match self {
            VoiceBody::SessionStart { session_id, moq_url } => VoiceBodyModel::SessionStart {
                session_id: session_id.deep_view(),
                moq_url: moq_url.deep_view(),
            },
            VoiceBody::SessionEnd { session_id } => VoiceBodyModel::SessionEnd {
                session_id: session_id.deep_view(),
            },
            VoiceBody::ParticipantJoin { session_id } => VoiceBodyModel::ParticipantJoin {
                session_id: session_id.deep_view(),
            },
            VoiceBody::ParticipantLeave { session_id } => VoiceBodyModel::ParticipantLeave {
                session_id: session_id.deep_view(),
            },
            VoiceBody::ParticipantState {
                session_id,
                target_pubkey,
                muted,
                speaking,
                hand_raised,
            } => VoiceBodyModel::ParticipantState {
                session_id: session_id.deep_view(),
                target_pubkey: target_pubkey.deep_view(),
                muted: muted.deep_view(),
                speaking: speaking.deep_view(),
                hand_raised: hand_raised.deep_view(),
            },
            VoiceBody::TrackAdvertise {
                session_id,
                track_name,
                codec,
            } => VoiceBodyModel::TrackAdvertise {
                session_id: session_id.deep_view(),
                track_name: track_name.deep_view(),
                codec: codec.deep_view(),
            },
        }
    }
}

impl View for VoiceBody {
    type V = VoiceBodyModel;

    open spec fn view(&self) -> VoiceBodyModel {
        self.deep_view()
    }
}

impl Replicate for VoiceBody {
    fn replicate(&self) -> (copy: Self) {
        match self {
            VoiceBody::SessionStart { session_id, moq_url } => VoiceBody::SessionStart {
                session_id: session_id.replicate(),
                moq_url: moq_url.replicate(),
            },
            VoiceBody::SessionEnd { session_id } => VoiceBody::SessionEnd {
                session_id: session_id.replicate(),
            },
            VoiceBody::ParticipantJoin { session_id } => VoiceBody::ParticipantJoin {
                session_id: session_id.replicate(),
            },
            VoiceBody::ParticipantLeave { session_id } => VoiceBody::ParticipantLeave {
                session_id: session_id.replicate(),
            },
            VoiceBody::ParticipantState {
                session_id,
                target_pubkey,
                muted,
                speaking,
                hand_raised,
            } => VoiceBody::ParticipantState {
                session_id: session_id.replicate(),
                target_pubkey: target_pubkey.replicate(),
                muted: muted.replicate(),
                speaking: speaking.replicate(),
                hand_raised: hand_raised.replicate(),
            },
            VoiceBody::TrackAdvertise {
                session_id,
                track_name,
                codec,
            } => VoiceBody::TrackAdvertise {
                session_id: session_id.replicate(),
                track_name: track_name.replicate(),
                codec: codec.replicate(),
            },
        }
    }
}

impl Clone for VoiceBody {
    fn clone(&self) -> (copy: Self)
        ensures
            copy@ == self@,
    {
        self.replicate()
    }
}

/// All voice rooms, and the ids of the operations that made them.
#[derive(Debug, PartialEq, Eq)]
pub struct VoiceState {
    pub rooms: OrdMap<ChannelKey, VoiceRoomState>,
    pub seen_op_ids: OrdSet<String>,
}

/// What a [`VoiceState`] holds.
#[verifier::ext_equal]
pub struct VoiceStateModel {
    pub rooms: Map<(Seq<char>, Seq<char>), VoiceRoomStateModel>,
    pub seen_op_ids: Set<Seq<char>>,
}

impl DeepView for VoiceState {
    type V = VoiceStateModel;

    open spec fn deep_view(&self) -> VoiceStateModel {
        VoiceStateModel {
            rooms: self.rooms.deep_view(),
            seen_op_ids: self.seen_op_ids.deep_view(),
        }
    }
}

impl View for VoiceState {
    type V = VoiceStateModel;

    open spec fn view(&self) -> VoiceStateModel {
        self.deep_view()
    }
}

impl Replicate for VoiceState {
    fn replicate(&self) -> (copy: Self) {
        VoiceState {
            rooms: self.rooms.replicate(),
            seen_op_ids: self.seen_op_ids.replicate(),
        }
    }
}

impl Clone for VoiceState {
    fn clone(&self) -> (copy: Self)
        ensures
            copy@ == self@,
    {
        self.replicate()
    }
}

/// A voice room.
#[derive(Debug, PartialEq, Eq)]
pub struct VoiceRoomState {
    pub active_session_id: Option<String>,
    pub moq_url: Option<String>,
    pub participants: OrdMap<String, VoiceParticipant>,
    pub tracks: Vec<VoiceTrack>,
}

/// What a [`VoiceRoomState`] holds.
#[verifier::ext_equal]
pub struct VoiceRoomStateModel {
    pub active_session_id: Option<Seq<char>>,
    pub moq_url: Option<Seq<char>>,
    pub participants: Map<Seq<char>, VoiceParticipantModel>,
    pub tracks: Seq<VoiceTrackModel>,
}

impl DeepView for VoiceRoomState {
    type V = VoiceRoomStateModel;

    open spec fn deep_view(&self) -> VoiceRoomStateModel {
        VoiceRoomStateModel {
            active_session_id: self.active_session_id.deep_view(),
            moq_url: self.moq_url.deep_view(),
            participants: self.participants.deep_view(),
            tracks: self.tracks.deep_view(),
        }
    }
}

impl View for VoiceRoomState {
    type V = VoiceRoomStateModel;

    open spec fn view(&self) -> VoiceRoomStateModel {
        self.deep_view()
    }
}

impl Replicate for VoiceRoomState {
    fn replicate(&self) -> (copy: Self) {
        VoiceRoomState {
            active_session_id: self.active_session_id.replicate(),
            moq_url: self.moq_url.replicate(),
            participants: self.participants.replicate(),
            tracks: self.tracks.replicate(),
        }
    }
}

impl Clone for VoiceRoomState {
    fn clone(&self) -> (copy: Self)
        ensures
            copy@ == self@,
    {
        self.replicate()
    }
}

/// How someone takes part.
#[derive(Debug, PartialEq, Eq)]
pub struct VoiceParticipant {
    pub muted: bool,
    pub speaking: bool,
    pub hand_raised: bool,
}

/// What a [`VoiceParticipant`] holds.
#[verifier::ext_equal]
pub struct VoiceParticipantModel {
    pub muted: bool,
    pub speaking: bool,
    pub hand_raised: bool,
}

impl DeepView for VoiceParticipant {
    type V = VoiceParticipantModel;

    open spec fn deep_view(&self) -> VoiceParticipantModel {
        VoiceParticipantModel {
            muted: self.muted.deep_view(),
            speaking: self.speaking.deep_view(),
            hand_raised: self.hand_raised.deep_view(),
        }
    }
}

impl View for VoiceParticipant {
    type V = VoiceParticipantModel;

    open spec fn view(&self) -> VoiceParticipantModel {
        self.deep_view()
    }
}

impl Replicate for VoiceParticipant {
    fn replicate(&self) -> (copy: Self) {
        VoiceParticipant {
            muted: self.muted.replicate(),
            speaking: self.speaking.replicate(),
            hand_raised: self.hand_raised.replicate(),
        }
    }
}

impl Clone for VoiceParticipant {
    fn clone(&self) -> (copy: Self)
        ensures
            copy@ == self@,
    {
        self.replicate()
    }
}

/// A track that a participant offers.
#[derive(Debug, PartialEq, Eq)]
pub struct VoiceTrack {
    pub track_name: String,
    pub codec: String,
    pub advertised_by: String,
}

/// What a [`VoiceTrack`] holds.
#[verifier::ext_equal]
pub struct VoiceTrackModel {
    pub track_name: Seq<char>,
    pub codec: Seq<char>,
    pub advertised_by: Seq<char>,
}

impl DeepView for VoiceTrack {
    type V = VoiceTrackModel;

    open spec fn deep_view(&self) -> VoiceTrackModel {
        VoiceTrackModel {
            track_name: self.track_name.deep_view(),
            codec: self.codec.deep_view(),
            advertised_by: self.advertised_by.deep_view(),
        }
    }
}

impl View for VoiceTrack {
    type V = VoiceTrackModel;

    open spec fn view(&self) -> VoiceTrackModel {
        self.deep_view()
    }
}

impl Replicate for VoiceTrack {
    fn replicate(&self) -> (copy: Self) {
        VoiceTrack {
            track_name: self.track_name.replicate(),
            codec: self.codec.replicate(),
            advertised_by: self.advertised_by.replicate(),
        }
    }
}

impl Clone for VoiceTrack {
    fn clone(&self) -> (copy: Self)
        ensures
            copy@ == self@,
    {
        self.replicate()
    }
}

/// What became of a voice operation.
#[derive(Clone, Copy, Debug, PartialEq, Eq, Structural)]
pub enum VoiceApplyOutcome {
    Applied,
    Duplicate,
}

impl DeepView for VoiceApplyOutcome {
    type V = VoiceApplyOutcome;

    open spec fn deep_view(&self) -> VoiceApplyOutcome {
        *self
    }
}

impl Replicate for VoiceApplyOutcome {
    fn replicate(&self) -> (copy: Self) {
        *self
    }
}

/// Why a voice operation was refused.
#[derive(Debug, PartialEq, Eq)]
pub enum VoiceError {
    UnknownSchema(String),
    PermissionDenied { actor: String, permission: Permission },
    SessionMismatch { expected: Option<String>, actual: String },
    ParticipantNotInRoom(String),
}

/// What a [`VoiceError`] holds.
#[verifier::ext_equal]
pub enum VoiceErrorModel {
    UnknownSchema(Seq<char>),
    PermissionDenied { actor: Seq<char>, permission: Permission },
    SessionMismatch { expected: Option<Seq<char>>, actual: Seq<char> },
    ParticipantNotInRoom(Seq<char>),
}

impl DeepView for VoiceError {
    type V = VoiceErrorModel;

    open spec fn deep_view(&self) -> VoiceErrorModel {
        match self {
            VoiceError::UnknownSchema(a) => VoiceErrorModel::UnknownSchema(a.deep_view()),
            VoiceError::PermissionDenied {
                actor,
                permission,
            } => VoiceErrorModel::PermissionDenied {
                actor: actor.deep_view(),
                permission: permission.deep_view(),
            },
            VoiceError::SessionMismatch { expected, actual } => VoiceErrorModel::SessionMismatch {
                expected: expected.deep_view(),
                actual: actual.deep_view(),
            },
            VoiceError::ParticipantNotInRoom(a) => {
                VoiceErrorModel::ParticipantNotInRoom(a.deep_view())
            },
        }
    }
}

impl View for VoiceError {
    type V = VoiceErrorModel;

    open spec fn view(&self) -> VoiceErrorModel {
        self.deep_view()
    }
}

impl Replicate for VoiceError {
    fn replicate(&self) -> (copy: Self) {
        match self {
            VoiceError::UnknownSchema(a) => VoiceError::UnknownSchema(a.replicate()),
            VoiceError::PermissionDenied { actor, permission } => VoiceError::PermissionDenied {
                actor: actor.replicate(),
                permission: permission.replicate(),
            },
            VoiceError::SessionMismatch { expected, actual } => VoiceError::SessionMismatch {
                expected: expected.replicate(),
                actual: actual.replicate(),
            },
            VoiceError::ParticipantNotInRoom(a) => VoiceError::ParticipantNotInRoom(a.replicate()),
        }
    }
}

impl Clone for VoiceError {
    fn clone(&self) -> (copy: Self)
        ensures
            copy@ == self@,
    {
        self.replicate()
    }
}

/// Where the permissions of actors are found.
pub trait VoicePermissionLookup {
    /// Whether an actor has a permission in a channel.
    open spec fn permits(
        &self,
        guild_id: Seq<char>,
        channel_id: Seq<char>,
        actor: Seq<char>,
        permission: Permission,
    ) -> bool {
        arbitrary()
    }

    /// Looks up whether an actor has a permission in a channel.
    fn has_permission(
        &self,
        guild_id: &str,
        channel_id: &str,
        actor: &str,
        permission: Permission,
    ) -> (allowed: bool)
        ensures
            allowed == self.permits(guild_id@, channel_id@, actor@, permission),
    ;
}

impl VoiceEnvelope {
    /// The operation that opens a session.
    pub fn session_start(
        op_id: String,
        ts_ms: i64,
        guild_id: String,
        channel_id: String,
        actor: String,
        session_id: String,
        moq_url: String,
    ) -> (envelope: Self)
        ensures
            envelope@ == (VoiceEnvelopeModel {
                schema: VOICE_SCHEMA_V1@,
                guild_id: guild_id@,
                channel_id: channel_id@,
                actor: actor@,
                op_id: op_id@,
                ts_ms,
                body: VoiceBodyModel::SessionStart {
                    session_id: session_id@,
                    moq_url: moq_url@,
                },
            }),
    {
        VoiceEnvelope {
            schema: VOICE_SCHEMA_V1.to_owned(),
            guild_id,
            channel_id,
            actor,
            op_id,
            ts_ms,
            body: VoiceBody::SessionStart { session_id, moq_url },
        }
    }

    /// The operation that closes a session.
    pub fn session_end(
        op_id: String,
        ts_ms: i64,
        guild_id: String,
        channel_id: String,
        actor: String,
        session_id: String,
    ) -> (envelope: Self)
        ensures
            envelope@ == (VoiceEnvelopeModel {
                schema: VOICE_SCHEMA_V1@,
                guild_id: guild_id@,
                channel_id: channel_id@,
                actor: actor@,
                op_id: op_id@,
                ts_ms,
                body: VoiceBodyModel::SessionEnd {
                    session_id: session_id@,
                },
            }),
    {
        VoiceEnvelope {
            schema: VOICE_SCHEMA_V1.to_owned(),
            guild_id,
            channel_id,
            actor,
            op_id,
            ts_ms,
            body: VoiceBody::SessionEnd { session_id },
        }
    }

    /// The operation by which the actor joins.
    pub fn participant_join(
        op_id: String,
        ts_ms: i64,
        guild_id: String,
        channel_id: String,
        actor: String,
        session_id: String,
    ) -> (envelope: Self)
        ensures
            envelope@ == (VoiceEnvelopeModel {
                schema: VOICE_SCHEMA_V1@,
                guild_id: guild_id@,
                channel_id: channel_id@,
                actor: actor@,
                op_id: op_id@,
                ts_ms,
                body: VoiceBodyModel::ParticipantJoin {
                    session_id: session_id@,
                },
            }),
    {
        VoiceEnvelope {
            schema: VOICE_SCHEMA_V1.to_owned(),
            guild_id,
            channel_id,
            actor,
            op_id,
            ts_ms,
            body: VoiceBody::ParticipantJoin { session_id },
        }
    }

    /// The operation by which the actor leaves.
    pub fn participant_leave(
        op_id: String,
        ts_ms: i64,
        guild_id: String,
        channel_id: String,
        actor: String,
        session_id: String,
    ) -> (envelope: Self)
        ensures
            envelope@ == (VoiceEnvelopeModel {
                schema: VOICE_SCHEMA_V1@,
                guild_id: guild_id@,
                channel_id: channel_id@,
                actor: actor@,
                op_id: op_id@,
                ts_ms,
                body: VoiceBodyModel::ParticipantLeave {
                    session_id: session_id@,
                },
            }),
    {
        VoiceEnvelope {
            schema: VOICE_SCHEMA_V1.to_owned(),
            guild_id,
            channel_id,
            actor,
            op_id,
            ts_ms,
            body: VoiceBody::ParticipantLeave { session_id },
        }
    }

    /// The operation that says how someone takes part.
    pub fn participant_state(
        op_id: String,
        ts_ms: i64,
        guild_id: String,
        channel_id: String,
        actor: String,
        session_id: String,
        target_pubkey: String,
        muted: bool,
        speaking: bool,
        hand_raised: bool,
    ) -> (envelope: Self)
        ensures
            envelope@ == (VoiceEnvelopeModel {
                schema: VOICE_SCHEMA_V1@,
                guild_id: guild_id@,
                channel_id: channel_id@,
                actor: actor@,
                op_id: op_id@,
                ts_ms,
                body: VoiceBodyModel::ParticipantState {
                    session_id: session_id@,
                    target_pubkey: target_pubkey@,
                    muted,
                    speaking,
                    hand_raised,
                },
            }),
    {
        VoiceEnvelope {
            schema: VOICE_SCHEMA_V1.to_owned(),
            guild_id,
            channel_id,
            actor,
            op_id,
            ts_ms,
            body: VoiceBody::ParticipantState { session_id, target_pubkey, muted, speaking, hand_raised },
        }
    }

    /// The operation by which the actor offers a track.
    pub fn track_advertise(
        op_id: String,
        ts_ms: i64,
        guild_id: String,
        channel_id: String,
        actor: String,
        session_id: String,
        track_name: String,
        codec: String,
    ) -> (envelope: Self)
        ensures
            envelope@ == (VoiceEnvelopeModel {
                schema: VOICE_SCHEMA_V1@,
                guild_id: guild_id@,
                channel_id: channel_id@,
                actor: actor@,
                op_id: op_id@,
                ts_ms,
                body: VoiceBodyModel::TrackAdvertise {
                    session_id: session_id@,
                    track_name: track_name@,
                    codec: codec@,
                },
            }),
    {
        VoiceEnvelope {
            schema: VOICE_SCHEMA_V1.to_owned(),
            guild_id,
            channel_id,
            actor,
            op_id,
            ts_ms,
            body: VoiceBody::TrackAdvertise { session_id, track_name, codec },
        }
    }
}

/// A room without a session.
pub open spec fn empty_room() -> VoiceRoomStateModel {
    VoiceRoomStateModel {
        active_session_id: None,
        moq_url: None,
        participants: Map::empty(),
        tracks: Seq::empty(),
    }
}

/// Someone who has just joined.
pub open spec fn quiet_participant() -> VoiceParticipantModel {
    VoiceParticipantModel { muted: false, speaking: false, hand_raised: false }
}

/// The session that an operation is about.
pub open spec fn session_of(body: VoiceBodyModel) -> Seq<char> {
    match body {
        VoiceBodyModel::SessionStart { session_id, .. } => session_id,
        VoiceBodyModel::SessionEnd { session_id } => session_id,
        VoiceBodyModel::ParticipantJoin { session_id } => session_id,
        VoiceBodyModel::ParticipantLeave { session_id } => session_id,
        VoiceBodyModel::ParticipantState { session_id, .. } => session_id,
        VoiceBodyModel::TrackAdvertise { session_id, .. } => session_id,
    }
}

/// Whether the session of an operation is the one that runs.
pub open spec fn in_session(room: VoiceRoomStateModel, op: VoiceEnvelopeModel) -> bool {
    room.active_session_id == Some(session_of(op.body))
}

/// The refusal of an operation on another session than the one that runs.
pub open spec fn session_mismatch(
    room: VoiceRoomStateModel,
    op: VoiceEnvelopeModel,
) -> VoiceErrorModel {
    VoiceErrorModel::SessionMismatch {
        expected: room.active_session_id,
        actual: session_of(op.body),
    }
}

/// What an operation makes of its room, where `may` says what its actor is
/// permitted there.
pub open spec fn room_after(
    room: VoiceRoomStateModel,
    op: VoiceEnvelopeModel,
    may: spec_fn(Permission) -> bool,
) -> Result<VoiceRoomStateModel, VoiceErrorModel> {
    let denied = |permission: Permission|
        Err::<VoiceRoomStateModel, VoiceErrorModel>(
            VoiceErrorModel::PermissionDenied { actor: op.actor, permission },
        );
    match op.body {
        VoiceBodyModel::SessionStart { session_id, moq_url } => if !may(Permission::ConnectVoice) {
            denied(Permission::ConnectVoice)
        } else {
            Ok(
                VoiceRoomStateModel {
                    active_session_id: Some(session_id),
                    moq_url: Some(moq_url),
                    ..empty_room()
                },
            )
        },
        VoiceBodyModel::SessionEnd { .. } => if !may(Permission::ConnectVoice) {
            denied(Permission::ConnectVoice)
        } else if !in_session(room, op) {
            Err(session_mismatch(room, op))
        } else {
            Ok(empty_room())
        },
        VoiceBodyModel::ParticipantJoin { .. } => if !may(Permission::ConnectVoice) {
            denied(Permission::ConnectVoice)
        } else if !in_session(room, op) {
            Err(session_mismatch(room, op))
        } else if room.participants.contains_key(op.actor) {
            Ok(room)
        } else {
            Ok(
                VoiceRoomStateModel {
                    participants: room.participants.insert(op.actor, quiet_participant()),
                    ..room
                },
            )
        },
        VoiceBodyModel::ParticipantLeave { .. } => if !may(Permission::ConnectVoice) {
            denied(Permission::ConnectVoice)
        } else if !in_session(room, op) {
            Err(session_mismatch(room, op))
        } else {
            Ok(VoiceRoomStateModel { participants: room.participants.remove(op.actor), ..room })
        },
        VoiceBodyModel::ParticipantState {
            target_pubkey,
            muted,
            speaking,
            hand_raised,
            ..
        } => if !in_session(room, op) {
            Err(session_mismatch(room, op))
        } else if target_pubkey != op.actor && !may(Permission::MuteMembers) {
            denied(Permission::MuteMembers)
        } else if speaking && !may(Permission::SpeakVoice) {
            denied(Permission::SpeakVoice)
        } else if !room.participants.contains_key(target_pubkey) {
            Err(VoiceErrorModel::ParticipantNotInRoom(target_pubkey))
        } else {
            Ok(
                VoiceRoomStateModel {
                    participants: room.participants.insert(
                        target_pubkey,
                        VoiceParticipantModel { muted, speaking, hand_raised },
                    ),
                    ..room
                },
            )
        },
        VoiceBodyModel::TrackAdvertise { track_name, codec, .. } => if !in_session(room, op) {
            Err(session_mismatch(room, op))
        } else if !room.participants.contains_key(op.actor) {
            Err(VoiceErrorModel::ParticipantNotInRoom(op.actor))
        } else if !may(Permission::SpeakVoice) {
            denied(Permission::SpeakVoice)
        } else {
            Ok(
                VoiceRoomStateModel {
                    tracks: room.tracks.push(
                        VoiceTrackModel { track_name, codec, advertised_by: op.actor },
                    ),
                    ..room
                },
            )
        },
    }
}

/// A channel's room.
pub open spec fn room_of(state: VoiceStateModel, channel: (Seq<char>, Seq<char>)) -> VoiceRoomStateModel {
    if state.rooms.contains_key(channel) {
        state.rooms[channel]
    } else {
        empty_room()
    }
}

/// What applying a voice operation returns.
pub open spec fn voice_result(
    state: VoiceStateModel,
    op: VoiceEnvelopeModel,
    may: spec_fn(Permission) -> bool,
) -> Result<VoiceApplyOutcome, VoiceErrorModel> {
    if op.schema != VOICE_SCHEMA_V1@ {
        Err(VoiceErrorModel::UnknownSchema(op.schema))
    } else if state.seen_op_ids.contains(op.op_id) {
        Ok(VoiceApplyOutcome::Duplicate)
    } else {
        match room_after(room_of(state, (op.guild_id, op.channel_id)), op, may) {
            Ok(_) => Ok(VoiceApplyOutcome::Applied),
            Err(error) => Err(error),
        }
    }
}

/// The state after a voice operation was offered to it. An operation of a known
/// schema that was not seen before gives its channel a room, empty at first;
/// only one that is applied changes what is in the room and is recorded.
pub open spec fn voice_state(
    state: VoiceStateModel,
    op: VoiceEnvelopeModel,
    may: spec_fn(Permission) -> bool,
) -> VoiceStateModel {
    let channel = (op.guild_id, op.channel_id);
    let before = room_of(state, channel);
    if op.schema != VOICE_SCHEMA_V1@ || state.seen_op_ids.contains(op.op_id) {
        state
    } else {
        match room_after(before, op, may) {
            Ok(room) => VoiceStateModel {
                rooms: state.rooms.insert(channel, room),
                seen_op_ids: state.seen_op_ids.insert(op.op_id),
            },
            Err(_) => VoiceStateModel {
                rooms: state.rooms.insert(channel, before),
                seen_op_ids: state.seen_op_ids,
            },
        }
    }
}

/// The voice state before any operation.
pub open spec fn no_voice() -> VoiceStateModel {
    VoiceStateModel { rooms: Map::empty(), seen_op_ids: Set::empty() }
}

/// What the actor of an operation is permitted in its channel.
pub open spec fn may_of<P: VoicePermissionLookup>(perms: &P, op: VoiceEnvelopeModel) -> spec_fn(
    Permission,
) -> bool {
    |permission: Permission| perms.permits(op.guild_id, op.channel_id, op.actor, permission)
}

impl VoiceError {
    /// The refusal in words.
    pub open spec fn words(error: VoiceErrorModel) -> Seq<char> {
        match error {
            VoiceErrorModel::UnknownSchema(schema) => "unsupported schema: "@ + schema,
            VoiceErrorModel::PermissionDenied { actor, permission } => "permission denied: actor "@
                + actor + " lacks "@ + permission_name(permission),
            VoiceErrorModel::SessionMismatch { expected, actual } => (match expected {
                Some(session) => "voice session mismatch: expected Some("@ + quoted_text(session)
                    + ")"@,
                None => "voice session mismatch: expected None"@,
            }) + ", got "@ + actual,
            VoiceErrorModel::ParticipantNotInRoom(participant) => "participant not in room: "@
                + participant,
        }
    }

    /// The refusal in words.
    pub fn message(&self) -> (text: String)
        ensures
            text@ == VoiceError::words(self@),
    {
        match self {
            VoiceError::UnknownSchema(schema) => "unsupported schema: ".to_owned().concat(
                schema.as_str(),
            ),
            VoiceError::PermissionDenied { actor, permission } => "permission denied: actor ".to_owned().concat(
                actor.as_str(),
            ).concat(" lacks ").concat(permission_text(*permission).as_str()),
            VoiceError::SessionMismatch { expected, actual } => {
                let start = match expected {
                    Some(session) => "voice session mismatch: expected Some(".to_owned().concat(
                        quoted(session.as_str()).as_str(),
                    ).concat(")"),
                    None => "voice session mismatch: expected None".to_owned(),
                };
                start.concat(", got ").concat(actual.as_str())
            },
            VoiceError::ParticipantNotInRoom(participant) => "participant not in room: ".to_owned().concat(
                participant.as_str(),
            ),
        }
    }
}

impl Default for VoiceRoomState {
    fn default() -> (room: Self)
        ensures
            room@ == empty_room(),
    {
        let room = VoiceRoomState {
            active_session_id: None,
            moq_url: None,
            participants: OrdMap::new(),
            tracks: Vec::new(),
        };
        proof {
            assert(room@.tracks =~= Seq::empty());
        }
        room
    }
}

impl Default for VoiceState {
    fn default() -> (state: Self)
        ensures
            state@ == no_voice(),
    {
        VoiceState { rooms: OrdMap::new(), seen_op_ids: OrdSet::new() }
    }
}

/// Refuses an actor who lacks a permission.
pub fn require<P: VoicePermissionLookup>(
    perms: &P,
    guild_id: &str,
    channel_id: &str,
    actor: &str,
    permission: Permission,
) -> (result: Result<(), VoiceError>)
    ensures
        outcome(result) == if perms.permits(guild_id@, channel_id@, actor@, permission) {
            Ok::<(), VoiceErrorModel>(())
        } else {
            Err(VoiceErrorModel::PermissionDenied { actor: actor@, permission })
        },
{
    if perms.has_permission(guild_id, channel_id, actor, permission) {
        return Ok(());
    }
    Err(VoiceError::PermissionDenied { actor: actor.to_owned(), permission })
}

/// Refuses another session than the one that runs.
pub fn ensure_session(room: &VoiceRoomState, session_id: &str) -> (result: Result<(), VoiceError>)
    ensures
        outcome(result) == if room@.active_session_id == Some(session_id@) {
            Ok::<(), VoiceErrorModel>(())
        } else {
            Err(
                VoiceErrorModel::SessionMismatch {
                    expected: room@.active_session_id,
                    actual: session_id@,
                },
            )
        },
{
    if let Some(active) = &room.active_session_id {
        if *active == session_id.to_owned() {
            return Ok(());
        }
    }
    Err(
        VoiceError::SessionMismatch {
            expected: room.active_session_id.replicate(),
            actual: session_id.to_owned(),
        },
    )
}

impl VoiceBody {
    /// The session that this operation is about.
    fn session(&self) -> (session: &String)
        ensures
            session@ == session_of(self@),
    {
        match self {
            VoiceBody::SessionStart { session_id, .. } => session_id,
            VoiceBody::SessionEnd { session_id } => session_id,
            VoiceBody::ParticipantJoin { session_id } => session_id,
            VoiceBody::ParticipantLeave { session_id } => session_id,
            VoiceBody::ParticipantState { session_id, .. } => session_id,
            VoiceBody::TrackAdvertise { session_id, .. } => session_id,
        }
    }
}

impl VoiceRoomState {
    /// Refuses an operation that its actor may not do or that is about another
    /// session than the one that runs, in the order in which that is asked.
    fn admits<P: VoicePermissionLookup>(&self, op: &VoiceEnvelope, perms: &P) -> (result: Result<
        (),
        VoiceError,
    >)
        ensures
            match room_after(self@, op@, may_of(perms, op@)) {
                Ok(_) => result is Ok,
                Err(error) => outcome(result) == Err::<(), VoiceErrorModel>(error),
            },
    {
        let guild_id = op.guild_id.as_str();
        let channel_id = op.channel_id.as_str();
        let actor = op.actor.as_str();
        let connects = match &op.body {
            VoiceBody::SessionStart { .. } => true,
            VoiceBody::SessionEnd { .. } => true,
            VoiceBody::ParticipantJoin { .. } => true,
            VoiceBody::ParticipantLeave { .. } => true,
            _ => false,
        };
        if connects {
            if let Err(error) = require(perms, guild_id, channel_id, actor, Permission::ConnectVoice) {
                return Err(error);
            }
        }
        if let VoiceBody::SessionStart { .. } = &op.body {
            return Ok(());
        }
        if let Err(error) = ensure_session(self, op.body.session().as_str()) {
            return Err(error);
        }
        match &op.body {
            VoiceBody::ParticipantState { target_pubkey, speaking, .. } => {
                if *target_pubkey != op.actor {
                    if let Err(error) = require(
                        perms,
                        guild_id,
                        channel_id,
                        actor,
                        Permission::MuteMembers,
                    ) {
                        return Err(error);
                    }
                }
                if *speaking {
                    if let Err(error) = require(
                        perms,
                        guild_id,
                        channel_id,
                        actor,
                        Permission::SpeakVoice,
                    ) {
                        return Err(error);
                    }
                }
                if !self.participants.contains_key(target_pubkey) {
                    return Err(VoiceError::ParticipantNotInRoom(target_pubkey.clone()));
                }
                Ok(())
            },
            VoiceBody::TrackAdvertise { .. } => {
                if !self.participants.contains_key(&op.actor) {
                    return Err(VoiceError::ParticipantNotInRoom(op.actor.clone()));
                }
                require(perms, guild_id, channel_id, actor, Permission::SpeakVoice)
            },
            _ => Ok(()),
        }
    }

    /// Carries out an operation that the room admits.
    fn change(&mut self, op: VoiceEnvelope, may: Ghost<spec_fn(Permission) -> bool>)
        requires
            room_after(old(self)@, op@, may@) is Ok,
        ensures
            final(self)@ == room_after(old(self)@, op@, may@)->Ok_0,
    {
        let actor = op.actor;
        match op.body {
            VoiceBody::SessionStart { session_id, moq_url } => {
                *self = VoiceRoomState::default();
                self.active_session_id = Some(session_id);
                self.moq_url = Some(moq_url);
            },
            VoiceBody::SessionEnd { .. } => {
                *self = VoiceRoomState::default();
            },
            VoiceBody::ParticipantJoin { .. } => {
                if !self.participants.contains_key(&actor) {
                    self.participants.insert(
                        actor,
                        VoiceParticipant { muted: false, speaking: false, hand_raised: false },
                    );
                }
            },
            VoiceBody::ParticipantLeave { .. } => {
                let _ = self.participants.take(&actor);
            },
            VoiceBody::ParticipantState { target_pubkey, muted, speaking, hand_raised, .. } => {
                self.participants.insert(
                    target_pubkey,
                    VoiceParticipant { muted, speaking, hand_raised },
                );
            },
            VoiceBody::TrackAdvertise { track_name, codec, .. } => {
                let ghost before = self@.tracks;
                let track = VoiceTrack { track_name, codec, advertised_by: actor };
                let ghost added = track@;
                self.tracks.push(track);
                proof {
                    assert(self@.tracks =~= before.push(added));
                }
            },
        }
    }
}

impl VoiceState {
    /// A channel's room, where one was ever opened.
    pub fn room(&self, guild_id: &str, channel_id: &str) -> (room: Option<&VoiceRoomState>)
        ensures
            match room {
                Some(room) => self@.rooms.contains_key((guild_id@, channel_id@)) && room@
                    == self@.rooms[(guild_id@, channel_id@)],
                None => !self@.rooms.contains_key((guild_id@, channel_id@)),
            },
    {
        self.rooms.get(&ChannelKey::new(guild_id, channel_id))
    }

    /// Applies an operation, unless it was applied before or is refused.
    pub fn apply<P: VoicePermissionLookup>(&mut self, env: VoiceEnvelope, perms: &P) -> (result:
        Result<VoiceApplyOutcome, VoiceError>)
        ensures
            outcome(result) == voice_result(old(self)@, env@, may_of(perms, env@)),
            final(self)@ == voice_state(old(self)@, env@, may_of(perms, env@)),
    {
        if env.schema != VOICE_SCHEMA_V1.to_owned() {
            return Err(VoiceError::UnknownSchema(env.schema));
        }
        if self.seen_op_ids.contains(&env.op_id) {
            return Ok(VoiceApplyOutcome::Duplicate);
        }
        let channel = ChannelKey::new(env.guild_id.as_str(), env.channel_id.as_str());
        let op_id = env.op_id.clone();
        let mut room = match self.rooms.take(&channel) {
            Some(room) => room,
            None => VoiceRoomState::default(),
        };
        let result = room.admits(&env, perms);
        if result.is_ok() {
            let ghost may = may_of(perms, env@);
            room.change(env, Ghost(may));
        }
        let ghost after = room@;
        self.rooms.insert(channel, room);
        proof {
            assert(self@.rooms =~= old(self)@.rooms.insert(channel@, after));
        }
        match result {
            Err(error) => Err(error),
            Ok(()) => {
                self.seen_op_ids.insert(op_id);
                Ok(VoiceApplyOutcome::Applied)
            },
        }
    }
}

/// What every room keeps: without a session there is no address, nobody takes
/// part and no track is offered; with one there is an address.
pub open spec fn room_sound(room: VoiceRoomStateModel) -> bool {
    match room.active_session_id {
        None => room == empty_room(),
        Some(_) => room.moq_url is Some,
    }
}

/// All rooms are sound.
pub open spec fn voice_sound(state: VoiceStateModel) -> bool {
    forall|channel: (Seq<char>, Seq<char>)| #[trigger]
        state.rooms.contains_key(channel) ==> room_sound(state.rooms[channel])
}

/// An operation leaves every room sound, whether it is applied or not.
pub proof fn voice_apply_keeps_sound(
    state: VoiceStateModel,
    op: VoiceEnvelopeModel,
    may: spec_fn(Permission) -> bool,
)
    requires
        voice_sound(state),
    ensures
        voice_sound(voice_state(state, op, may)),
{
    let channel = (op.guild_id, op.channel_id);
    assert(room_sound(room_of(state, channel)));
}

/// An operation that was applied is not applied again.
pub proof fn voice_apply_once(
    state: VoiceStateModel,
    op: VoiceEnvelopeModel,
    may: spec_fn(Permission) -> bool,
    may_later: spec_fn(Permission) -> bool,
)
    requires
        voice_result(state, op, may) == Ok::<VoiceApplyOutcome, VoiceErrorModel>(
            VoiceApplyOutcome::Applied,
        ),
    ensures
        voice_result(voice_state(state, op, may), op, may_later) == Ok::<
            VoiceApplyOutcome,
            VoiceErrorModel,
        >(VoiceApplyOutcome::Duplicate),
        voice_state(voice_state(state, op, may), op, may_later) == voice_state(state, op, may),
{
}

/// An operation changes no other room, and one that is refused changes none.
pub proof fn voice_apply_is_local(
    state: VoiceStateModel,
    op: VoiceEnvelopeModel,
    may: spec_fn(Permission) -> bool,
    channel: (Seq<char>, Seq<char>),
)
    ensures
        channel != (op.guild_id, op.channel_id) ==> room_of(voice_state(state, op, may), channel)
            == room_of(state, channel),
        voice_result(state, op, may) is Err ==> room_of(voice_state(state, op, may), channel)
            == room_of(state, channel),
        voice_result(state, op, may) is Err ==> voice_state(state, op, may).seen_op_ids
            == state.seen_op_ids,
{
}

/// Nobody enters a room, speaks or offers a track there without the permission
/// for it.
pub proof fn voice_needs_permission(
    state: VoiceStateModel,
    op: VoiceEnvelopeModel,
    may: spec_fn(Permission) -> bool,
)
    requires
        voice_result(state, op, may) == Ok::<VoiceApplyOutcome, VoiceErrorModel>(
            VoiceApplyOutcome::Applied,
        ),
    ensures
        op.body is ParticipantJoin || op.body is SessionStart ==> may(Permission::ConnectVoice),
        op.body is TrackAdvertise ==> may(Permission::SpeakVoice),
        op.body matches VoiceBodyModel::ParticipantState { speaking, .. } && speaking ==> may(
            Permission::SpeakVoice,
        ),
        op.body matches VoiceBodyModel::ParticipantState { target_pubkey, .. } && target_pubkey
            != op.actor ==> may(Permission::MuteMembers),
{
}

/// Leaving undoes joining: someone who was not in the room and joins and leaves
/// has changed nothing in it.
pub proof fn leaving_undoes_joining(
    room: VoiceRoomStateModel,
    join: VoiceEnvelopeModel,
    leave: VoiceEnvelopeModel,
    may: spec_fn(Permission) -> bool,
)
    requires
        may(Permission::ConnectVoice),
        join.body is ParticipantJoin,
        leave.body is ParticipantLeave,
        in_session(room, join),
        in_session(room, leave),
        join.actor == leave.actor,
        !room.participants.contains_key(join.actor),
    ensures
        room_after(room, join, may) is Ok,
        room_after(room_after(room, join, may)->Ok_0, leave, may) == Ok::<
            VoiceRoomStateModel,
            VoiceErrorModel,
        >(room),
{
    let joined = room_after(room, join, may)->Ok_0;
    assert(joined.participants.remove(leave.actor) =~= room.participants);
}

} // verus!
