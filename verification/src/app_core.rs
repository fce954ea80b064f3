//! The application: its state, and what each action makes of it.
//!
//! Whoever runs the application does what touches the disk. An action that
//! changes guilds is first offered; once its operation stands in the log it is
//! taken over, and once the snapshot is written the groups follow.
use vstd::prelude::*;
use crate::app::{
    build_state, guild_list, normal_channel, normal_guild, normalize_selection, shown_room,
    shown_timeline, AppState, AppStateModel, DEFAULT_GREETING,
};
use crate::channel_groups::{
    channel_exists, groups_added, regrouped, ChannelGroupDirectory, ChannelGroupStateModel,
};
use crate::chat::{no_chat, ChatBodyModel, ChatState, ChatStateModel};
use crate::clock::now_ms;
use crate::collections::{lemma_listing_of, lemma_take_next, listing_of, ChannelKey, Replicate};
use crate::control::{
    no_guilds, ControlBodyModel, ControlEnvelope, ControlEnvelopeModel, ControlError,
    ControlErrorModel, ControlState, ControlStateModel, CONTROL_SCHEMA_V1,
};
use crate::keyring::{with_key, Keyring, KeyringModel};
use crate::messaging::{
    chat_op, delete_message, delete_outcome, edit_message, edit_outcome, put_reaction,
    reaction_outcome, remove_reaction, send_message, send_outcome, ChatOrigin, ChatOutcome,
};
use crate::reconcile::{desired_channel_members, desired_members, ReconcileError};
use crate::replay::{log_order, replay_from};
use crate::text::{trim, trimmed};
use crate::voice::{no_voice, VoiceParticipantModel, VoiceState, VoiceStateModel};
use crate::voice_actions::{
    join_outcome, join_voice, leave_outcome, leave_voice, presence_outcome, set_voice_muted,
    set_voice_speaking, VoiceOrigin, VoiceOutcome,
};
use crate::ChannelKind;

verus! {

/// What a user asks for.
#[derive(Debug, PartialEq, Eq)]
pub enum AppAction {
    SetName { name: String },
    SelectGuild { guild_id: String },
    SelectChannel { guild_id: String, channel_id: String },
    SendMessage { guild_id: String, channel_id: String, actor_pubkey: String, content: String },
    EditMessage {
        guild_id: String,
        channel_id: String,
        actor_pubkey: String,
        message_id: String,
        content: String,
    },
    DeleteMessage {
        guild_id: String,
        channel_id: String,
        actor_pubkey: String,
        message_id: String,
    },
    PutReaction {
        guild_id: String,
        channel_id: String,
        actor_pubkey: String,
        message_id: String,
        emoji: String,
    },
    RemoveReaction {
        guild_id: String,
        channel_id: String,
        actor_pubkey: String,
        message_id: String,
        emoji: String,
    },
    JoinVoice { guild_id: String, channel_id: String, actor_pubkey: String },
    LeaveVoice { guild_id: String, channel_id: String, actor_pubkey: String },
    SetVoiceMuted { guild_id: String, channel_id: String, actor_pubkey: String, muted: bool },
    SetVoiceSpeaking { guild_id: String, channel_id: String, actor_pubkey: String, speaking: bool },
    CreateGuild { guild_id: String, name: String, actor_pubkey: String },
    CreateChannel {
        guild_id: String,
        channel_id: String,
        name: String,
        kind: ChannelKind,
        actor_pubkey: String,
    },
    InviteMember { guild_id: String, member_pubkey: String, actor_pubkey: String },
    KickMember { guild_id: String, member_pubkey: String, actor_pubkey: String },
    BanMember { guild_id: String, member_pubkey: String, actor_pubkey: String },
    SetMemberRoles {
        guild_id: String,
        member_pubkey: String,
        role_ids: Vec<String>,
        actor_pubkey: String,
    },
    SetChannelPermissions {
        guild_id: String,
        channel_id: String,
        allow_roles: Vec<String>,
        deny_roles: Vec<String>,
        allow_users: Vec<String>,
        deny_users: Vec<String>,
        actor_pubkey: String,
    },
    RemoveMemberFromChannel {
        guild_id: String,
        channel_id: String,
        member_pubkey: String,
        actor_pubkey: String,
    },
}

/// What a [`AppAction`] holds.
#[verifier::ext_equal]
pub enum AppActionModel {
    SetName { name: Seq<char> },
    SelectGuild { guild_id: Seq<char> },
    SelectChannel { guild_id: Seq<char>, channel_id: Seq<char> },
    SendMessage {
        guild_id: Seq<char>,
        channel_id: Seq<char>,
        actor_pubkey: Seq<char>,
        content: Seq<char>,
    },
    EditMessage {
        guild_id: Seq<char>,
        channel_id: Seq<char>,
        actor_pubkey: Seq<char>,
        message_id: Seq<char>,
        content: Seq<char>,
    },
    DeleteMessage {
        guild_id: Seq<char>,
        channel_id: Seq<char>,
        actor_pubkey: Seq<char>,
        message_id: Seq<char>,
    },
    PutReaction {
        guild_id: Seq<char>,
        channel_id: Seq<char>,
        actor_pubkey: Seq<char>,
        message_id: Seq<char>,
        emoji: Seq<char>,
    },
    RemoveReaction {
        guild_id: Seq<char>,
        channel_id: Seq<char>,
        actor_pubkey: Seq<char>,
        message_id: Seq<char>,
        emoji: Seq<char>,
    },
    JoinVoice { guild_id: Seq<char>, channel_id: Seq<char>, actor_pubkey: Seq<char> },
    LeaveVoice { guild_id: Seq<char>, channel_id: Seq<char>, actor_pubkey: Seq<char> },
    SetVoiceMuted {
        guild_id: Seq<char>,
        channel_id: Seq<char>,
        actor_pubkey: Seq<char>,
        muted: bool,
    },
    SetVoiceSpeaking {
        guild_id: Seq<char>,
        channel_id: Seq<char>,
        actor_pubkey: Seq<char>,
        speaking: bool,
    },
    CreateGuild { guild_id: Seq<char>, name: Seq<char>, actor_pubkey: Seq<char> },
    CreateChannel {
        guild_id: Seq<char>,
        channel_id: Seq<char>,
        name: Seq<char>,
        kind: ChannelKind,
        actor_pubkey: Seq<char>,
    },
    InviteMember { guild_id: Seq<char>, member_pubkey: Seq<char>, actor_pubkey: Seq<char> },
    KickMember { guild_id: Seq<char>, member_pubkey: Seq<char>, actor_pubkey: Seq<char> },
    BanMember { guild_id: Seq<char>, member_pubkey: Seq<char>, actor_pubkey: Seq<char> },
    SetMemberRoles {
        guild_id: Seq<char>,
        member_pubkey: Seq<char>,
        role_ids: Seq<Seq<char>>,
        actor_pubkey: Seq<char>,
    },
    SetChannelPermissions {
        guild_id: Seq<char>,
        channel_id: Seq<char>,
        allow_roles: Seq<Seq<char>>,
        deny_roles: Seq<Seq<char>>,
        allow_users: Seq<Seq<char>>,
        deny_users: Seq<Seq<char>>,
        actor_pubkey: Seq<char>,
    },
    RemoveMemberFromChannel {
        guild_id: Seq<char>,
        channel_id: Seq<char>,
        member_pubkey: Seq<char>,
        actor_pubkey: Seq<char>,
    },
}

impl DeepView for AppAction {
    type V = AppActionModel;

    open spec fn deep_view(&self) -> AppActionModel {
        match self {
            AppAction::SetName { name } => AppActionModel::SetName { name: name.deep_view() },
            AppAction::SelectGuild { guild_id } => AppActionModel::SelectGuild {
                guild_id: guild_id.deep_view(),
            },
            AppAction::SelectChannel { guild_id, channel_id } => AppActionModel::SelectChannel {
                guild_id: guild_id.deep_view(),
                channel_id: channel_id.deep_view(),
            },
            AppAction::SendMessage {
                guild_id,
                channel_id,
                actor_pubkey,
                content,
            } => AppActionModel::SendMessage {
                guild_id: guild_id.deep_view(),
                channel_id: channel_id.deep_view(),
                actor_pubkey: actor_pubkey.deep_view(),
                content: content.deep_view(),
            },
            AppAction::EditMessage {
                guild_id,
                channel_id,
                actor_pubkey,
                message_id,
                content,
            } => AppActionModel::EditMessage {
                guild_id: guild_id.deep_view(),
                channel_id: channel_id.deep_view(),
                actor_pubkey: actor_pubkey.deep_view(),
                message_id: message_id.deep_view(),
                content: content.deep_view(),
            },
            AppAction::DeleteMessage {
                guild_id,
                channel_id,
                actor_pubkey,
                message_id,
            } => AppActionModel::DeleteMessage {
                guild_id: guild_id.deep_view(),
                channel_id: channel_id.deep_view(),
                actor_pubkey: actor_pubkey.deep_view(),
                message_id: message_id.deep_view(),
            },
            AppAction::PutReaction {
                guild_id,
                channel_id,
                actor_pubkey,
                message_id,
                emoji,
            } => AppActionModel::PutReaction {
                guild_id: guild_id.deep_view(),
                channel_id: channel_id.deep_view(),
                actor_pubkey: actor_pubkey.deep_view(),
                message_id: message_id.deep_view(),
                emoji: emoji.deep_view(),
            },
            AppAction::RemoveReaction {
                guild_id,
                channel_id,
                actor_pubkey,
                message_id,
                emoji,
            } => AppActionModel::RemoveReaction {
                guild_id: guild_id.deep_view(),
                channel_id: channel_id.deep_view(),
                actor_pubkey: actor_pubkey.deep_view(),
                message_id: message_id.deep_view(),
                emoji: emoji.deep_view(),
            },
            AppAction::JoinVoice {
                guild_id,
                channel_id,
                actor_pubkey,
            } => AppActionModel::JoinVoice {
                guild_id: guild_id.deep_view(),
                channel_id: channel_id.deep_view(),
                actor_pubkey: actor_pubkey.deep_view(),
            },
            AppAction::LeaveVoice {
                guild_id,
                channel_id,
                actor_pubkey,
            } => AppActionModel::LeaveVoice {
                guild_id: guild_id.deep_view(),
                channel_id: channel_id.deep_view(),
                actor_pubkey: actor_pubkey.deep_view(),
            },
            AppAction::SetVoiceMuted {
                guild_id,
                channel_id,
                actor_pubkey,
                muted,
            } => AppActionModel::SetVoiceMuted {
                guild_id: guild_id.deep_view(),
                channel_id: channel_id.deep_view(),
                actor_pubkey: actor_pubkey.deep_view(),
                muted: muted.deep_view(),
            },
            AppAction::SetVoiceSpeaking {
                guild_id,
                channel_id,
                actor_pubkey,
                speaking,
            } => AppActionModel::SetVoiceSpeaking {
                guild_id: guild_id.deep_view(),
                channel_id: channel_id.deep_view(),
                actor_pubkey: actor_pubkey.deep_view(),
                speaking: speaking.deep_view(),
            },
            AppAction::CreateGuild { guild_id, name, actor_pubkey } => AppActionModel::CreateGuild {
                guild_id: guild_id.deep_view(),
                name: name.deep_view(),
                actor_pubkey: actor_pubkey.deep_view(),
            },
            AppAction::CreateChannel {
                guild_id,
                channel_id,
                name,
                kind,
                actor_pubkey,
            } => AppActionModel::CreateChannel {
                guild_id: guild_id.deep_view(),
                channel_id: channel_id.deep_view(),
                name: name.deep_view(),
                kind: kind.deep_view(),
                actor_pubkey: actor_pubkey.deep_view(),
            },
            AppAction::InviteMember {
                guild_id,
                member_pubkey,
                actor_pubkey,
            } => AppActionModel::InviteMember {
                guild_id: guild_id.deep_view(),
                member_pubkey: member_pubkey.deep_view(),
                actor_pubkey: actor_pubkey.deep_view(),
            },
            AppAction::KickMember {
                guild_id,
                member_pubkey,
                actor_pubkey,
            } => AppActionModel::KickMember {
                guild_id: guild_id.deep_view(),
                member_pubkey: member_pubkey.deep_view(),
                actor_pubkey: actor_pubkey.deep_view(),
            },
            AppAction::BanMember {
                guild_id,
                member_pubkey,
                actor_pubkey,
            } => AppActionModel::BanMember {
                guild_id: guild_id.deep_view(),
                member_pubkey: member_pubkey.deep_view(),
                actor_pubkey: actor_pubkey.deep_view(),
            },
            AppAction::SetMemberRoles {
                guild_id,
                member_pubkey,
                role_ids,
                actor_pubkey,
            } => AppActionModel::SetMemberRoles {
                guild_id: guild_id.deep_view(),
                member_pubkey: member_pubkey.deep_view(),
                role_ids: role_ids.deep_view(),
                actor_pubkey: actor_pubkey.deep_view(),
            },
            AppAction::SetChannelPermissions {
                guild_id,
                channel_id,
                allow_roles,
                deny_roles,
                allow_users,
                deny_users,
                actor_pubkey,
            } => AppActionModel::SetChannelPermissions {
                guild_id: guild_id.deep_view(),
                channel_id: channel_id.deep_view(),
                allow_roles: allow_roles.deep_view(),
                deny_roles: deny_roles.deep_view(),
                allow_users: allow_users.deep_view(),
                deny_users: deny_users.deep_view(),
                actor_pubkey: actor_pubkey.deep_view(),
            },
            AppAction::RemoveMemberFromChannel {
                guild_id,
                channel_id,
                member_pubkey,
                actor_pubkey,
            } => AppActionModel::RemoveMemberFromChannel {
                guild_id: guild_id.deep_view(),
                channel_id: channel_id.deep_view(),
                member_pubkey: member_pubkey.deep_view(),
                actor_pubkey: actor_pubkey.deep_view(),
            },
        }
    }
}

impl View for AppAction {
    type V = AppActionModel;

    open spec fn view(&self) -> AppActionModel {
        self.deep_view()
    }
}

impl Replicate for AppAction {
    fn replicate(&self) -> (copy: Self) {
        match self {
            AppAction::SetName { name } => AppAction::SetName { name: name.replicate() },
            AppAction::SelectGuild { guild_id } => AppAction::SelectGuild {
                guild_id: guild_id.replicate(),
            },
            AppAction::SelectChannel { guild_id, channel_id } => AppAction::SelectChannel {
                guild_id: guild_id.replicate(),
                channel_id: channel_id.replicate(),
            },
            AppAction::SendMessage {
                guild_id,
                channel_id,
                actor_pubkey,
                content,
            } => AppAction::SendMessage {
                guild_id: guild_id.replicate(),
                channel_id: channel_id.replicate(),
                actor_pubkey: actor_pubkey.replicate(),
                content: content.replicate(),
            },
            AppAction::EditMessage {
                guild_id,
                channel_id,
                actor_pubkey,
                message_id,
                content,
            } => AppAction::EditMessage {
                guild_id: guild_id.replicate(),
                channel_id: channel_id.replicate(),
                actor_pubkey: actor_pubkey.replicate(),
                message_id: message_id.replicate(),
                content: content.replicate(),
            },
            AppAction::DeleteMessage {
                guild_id,
                channel_id,
                actor_pubkey,
                message_id,
            } => AppAction::DeleteMessage {
                guild_id: guild_id.replicate(),
                channel_id: channel_id.replicate(),
                actor_pubkey: actor_pubkey.replicate(),
                message_id: message_id.replicate(),
            },
            AppAction::PutReaction {
                guild_id,
                channel_id,
                actor_pubkey,
                message_id,
                emoji,
            } => AppAction::PutReaction {
                guild_id: guild_id.replicate(),
                channel_id: channel_id.replicate(),
                actor_pubkey: actor_pubkey.replicate(),
                message_id: message_id.replicate(),
                emoji: emoji.replicate(),
            },
            AppAction::RemoveReaction {
                guild_id,
                channel_id,
                actor_pubkey,
                message_id,
                emoji,
            } => AppAction::RemoveReaction {
                guild_id: guild_id.replicate(),
                channel_id: channel_id.replicate(),
                actor_pubkey: actor_pubkey.replicate(),
                message_id: message_id.replicate(),
                emoji: emoji.replicate(),
            },
            AppAction::JoinVoice { guild_id, channel_id, actor_pubkey } => AppAction::JoinVoice {
                guild_id: guild_id.replicate(),
                channel_id: channel_id.replicate(),
                actor_pubkey: actor_pubkey.replicate(),
            },
            AppAction::LeaveVoice { guild_id, channel_id, actor_pubkey } => AppAction::LeaveVoice {
                guild_id: guild_id.replicate(),
                channel_id: channel_id.replicate(),
                actor_pubkey: actor_pubkey.replicate(),
            },
            AppAction::SetVoiceMuted {
                guild_id,
                channel_id,
                actor_pubkey,
                muted,
            } => AppAction::SetVoiceMuted {
                guild_id: guild_id.replicate(),
                channel_id: channel_id.replicate(),
                actor_pubkey: actor_pubkey.replicate(),
                muted: muted.replicate(),
            },
            AppAction::SetVoiceSpeaking {
                guild_id,
                channel_id,
                actor_pubkey,
                speaking,
            } => AppAction::SetVoiceSpeaking {
                guild_id: guild_id.replicate(),
                channel_id: channel_id.replicate(),
                actor_pubkey: actor_pubkey.replicate(),
                speaking: speaking.replicate(),
            },
            AppAction::CreateGuild { guild_id, name, actor_pubkey } => AppAction::CreateGuild {
                guild_id: guild_id.replicate(),
                name: name.replicate(),
                actor_pubkey: actor_pubkey.replicate(),
            },
            AppAction::CreateChannel {
                guild_id,
                channel_id,
                name,
                kind,
                actor_pubkey,
            } => AppAction::CreateChannel {
                guild_id: guild_id.replicate(),
                channel_id: channel_id.replicate(),
                name: name.replicate(),
                kind: kind.replicate(),
                actor_pubkey: actor_pubkey.replicate(),
            },
            AppAction::InviteMember {
                guild_id,
                member_pubkey,
                actor_pubkey,
            } => AppAction::InviteMember {
                guild_id: guild_id.replicate(),
                member_pubkey: member_pubkey.replicate(),
                actor_pubkey: actor_pubkey.replicate(),
            },
            AppAction::KickMember {
                guild_id,
                member_pubkey,
                actor_pubkey,
            } => AppAction::KickMember {
                guild_id: guild_id.replicate(),
                member_pubkey: member_pubkey.replicate(),
                actor_pubkey: actor_pubkey.replicate(),
            },
            AppAction::BanMember { guild_id, member_pubkey, actor_pubkey } => AppAction::BanMember {
                guild_id: guild_id.replicate(),
                member_pubkey: member_pubkey.replicate(),
                actor_pubkey: actor_pubkey.replicate(),
            },
            AppAction::SetMemberRoles {
                guild_id,
                member_pubkey,
                role_ids,
                actor_pubkey,
            } => AppAction::SetMemberRoles {
                guild_id: guild_id.replicate(),
                member_pubkey: member_pubkey.replicate(),
                role_ids: role_ids.replicate(),
                actor_pubkey: actor_pubkey.replicate(),
            },
            AppAction::SetChannelPermissions {
                guild_id,
                channel_id,
                allow_roles,
                deny_roles,
                allow_users,
                deny_users,
                actor_pubkey,
            } => AppAction::SetChannelPermissions {
                guild_id: guild_id.replicate(),
                channel_id: channel_id.replicate(),
                allow_roles: allow_roles.replicate(),
                deny_roles: deny_roles.replicate(),
                allow_users: allow_users.replicate(),
                deny_users: deny_users.replicate(),
                actor_pubkey: actor_pubkey.replicate(),
            },
            AppAction::RemoveMemberFromChannel {
                guild_id,
                channel_id,
                member_pubkey,
                actor_pubkey,
            } => AppAction::RemoveMemberFromChannel {
                guild_id: guild_id.replicate(),
                channel_id: channel_id.replicate(),
                member_pubkey: member_pubkey.replicate(),
                actor_pubkey: actor_pubkey.replicate(),
            },
        }
    }
}

impl Clone for AppAction {
    fn clone(&self) -> (copy: Self)
        ensures
            copy@ == self@,
    {
        self.replicate()
    }
}

/// The state of the application.
#[derive(Debug, PartialEq, Eq)]
pub struct AppCore {
    pub control: ControlState,
    pub control_ops: Vec<ControlEnvelope>,
    pub chat: ChatState,
    pub voice: VoiceState,
    pub groups: ChannelGroupDirectory,
    pub epoch_keys: Keyring,
    pub selected_guild_id: Option<String>,
    pub selected_channel_id: Option<String>,
    pub greeting: String,
    pub rev: u64,
}

/// What a [`AppCore`] holds.
#[verifier::ext_equal]
pub struct AppCoreModel {
    pub control: ControlStateModel,
    pub control_ops: Seq<ControlEnvelopeModel>,
    pub chat: ChatStateModel,
    pub voice: VoiceStateModel,
    pub groups: Map<(Seq<char>, Seq<char>), ChannelGroupStateModel>,
    pub epoch_keys: KeyringModel,
    pub selected_guild_id: Option<Seq<char>>,
    pub selected_channel_id: Option<Seq<char>>,
    pub greeting: Seq<char>,
    pub rev: u64,
}

impl DeepView for AppCore {
    type V = AppCoreModel;

    open spec fn deep_view(&self) -> AppCoreModel {
        AppCoreModel {
            control: self.control.deep_view(),
            control_ops: self.control_ops.deep_view(),
            chat: self.chat.deep_view(),
            voice: self.voice.deep_view(),
            groups: self.groups.deep_view(),
            epoch_keys: self.epoch_keys.deep_view(),
            selected_guild_id: self.selected_guild_id.deep_view(),
            selected_channel_id: self.selected_channel_id.deep_view(),
            greeting: self.greeting.deep_view(),
            rev: self.rev.deep_view(),
        }
    }
}

impl View for AppCore {
    type V = AppCoreModel;

    open spec fn view(&self) -> AppCoreModel {
        self.deep_view()
    }
}

impl Replicate for AppCore {
    fn replicate(&self) -> (copy: Self) {
        AppCore {
            control: self.control.replicate(),
            control_ops: self.control_ops.replicate(),
            chat: self.chat.replicate(),
            voice: self.voice.replicate(),
            groups: self.groups.replicate(),
            epoch_keys: self.epoch_keys.replicate(),
            selected_guild_id: self.selected_guild_id.replicate(),
            selected_channel_id: self.selected_channel_id.replicate(),
            greeting: self.greeting.replicate(),
            rev: self.rev.replicate(),
        }
    }
}

impl Clone for AppCore {
    fn clone(&self) -> (copy: Self)
        ensures
            copy@ == self@,
    {
        self.replicate()
    }
}

/// Ids that were never used, and the time.
#[derive(Debug, PartialEq, Eq)]
pub struct Fresh {
    pub op_id: String,
    pub ts_ms: i64,
    /// For an action that takes two operations.
    pub later_op_id: String,
    pub later_ts_ms: i64,
    pub message_id: String,
    pub session_id: String,
}

/// What a [`Fresh`] holds.
#[verifier::ext_equal]
pub struct FreshModel {
    pub op_id: Seq<char>,
    pub ts_ms: i64,
    pub later_op_id: Seq<char>,
    pub later_ts_ms: i64,
    pub message_id: Seq<char>,
    pub session_id: Seq<char>,
}

impl DeepView for Fresh {
    type V = FreshModel;

    open spec fn deep_view(&self) -> FreshModel {
        FreshModel {
            op_id: self.op_id.deep_view(),
            ts_ms: self.ts_ms.deep_view(),
            later_op_id: self.later_op_id.deep_view(),
            later_ts_ms: self.later_ts_ms.deep_view(),
            message_id: self.message_id.deep_view(),
            session_id: self.session_id.deep_view(),
        }
    }
}

impl View for Fresh {
    type V = FreshModel;

    open spec fn view(&self) -> FreshModel {
        self.deep_view()
    }
}

impl Replicate for Fresh {
    fn replicate(&self) -> (copy: Self) {
        Fresh {
            op_id: self.op_id.replicate(),
            ts_ms: self.ts_ms.replicate(),
            later_op_id: self.later_op_id.replicate(),
            later_ts_ms: self.later_ts_ms.replicate(),
            message_id: self.message_id.replicate(),
            session_id: self.session_id.replicate(),
        }
    }
}

impl Clone for Fresh {
    fn clone(&self) -> (copy: Self)
        ensures
            copy@ == self@,
    {
        self.replicate()
    }
}

/// What is to be done next.
#[derive(Debug, PartialEq, Eq)]
pub enum AppStep {
    /// The action is done; this is what is shown.
    Show(AppState),
    /// The operation is to be appended to the log.
    AppendOp(ControlEnvelope),
    /// The control state is to be written to the snapshot.
    WriteSnapshot,
}

/// What a [`AppStep`] holds.
#[verifier::ext_equal]
pub enum AppStepModel {
    Show(AppStateModel),
    AppendOp(ControlEnvelopeModel),
    WriteSnapshot,
}

impl DeepView for AppStep {
    type V = AppStepModel;

    open spec fn deep_view(&self) -> AppStepModel {
        match self {
            AppStep::Show(a) => AppStepModel::Show(a.deep_view()),
            AppStep::AppendOp(a) => AppStepModel::AppendOp(a.deep_view()),
            AppStep::WriteSnapshot => AppStepModel::WriteSnapshot,
        }
    }
}

impl View for AppStep {
    type V = AppStepModel;

    open spec fn view(&self) -> AppStepModel {
        self.deep_view()
    }
}

impl Replicate for AppStep {
    fn replicate(&self) -> (copy: Self) {
        match self {
            AppStep::Show(a) => AppStep::Show(a.replicate()),
            AppStep::AppendOp(a) => AppStep::AppendOp(a.replicate()),
            AppStep::WriteSnapshot => AppStep::WriteSnapshot,
        }
    }
}

impl Clone for AppStep {
    fn clone(&self) -> (copy: Self)
        ensures
            copy@ == self@,
    {
        self.replicate()
    }
}

/// `Uuid::new_v4` of the `uuid` crate, as text. Nothing is claimed of its value.
#[verifier::external_body]
fn random_id() -> (id: String) {
    uuid::Uuid::new_v4().to_string()
}

/// An id for an operation.
pub fn next_op_id() -> (id: String)
    ensures
        exists|random: Seq<char>| id@ == #[trigger] ("local-op-"@ + random),
{
    "local-op-".to_owned().concat(random_id().as_str())
}

/// An id for a message.
pub fn next_message_id() -> (id: String)
    ensures
        exists|random: Seq<char>| id@ == #[trigger] ("msg-"@ + random),
{
    "msg-".to_owned().concat(random_id().as_str())
}

/// An id for a voice session.
pub fn next_voice_session_id() -> (id: String)
    ensures
        exists|random: Seq<char>| id@ == #[trigger] ("sess-"@ + random),
{
    "sess-".to_owned().concat(random_id().as_str())
}

/// The operation by which an action changes guilds, where it does.
pub open spec fn control_op(
    action: AppActionModel,
    op_id: Seq<char>,
    ts_ms: i64,
) -> Option<ControlEnvelopeModel> {
    let op = |guild_id: Seq<char>, actor: Seq<char>, body: ControlBodyModel|
        Some(
            ControlEnvelopeModel {
                schema: CONTROL_SCHEMA_V1@,
                guild_id,
                actor,
                op_id,
                ts_ms,
                body,
            },
        );
    match action {
        AppActionModel::CreateGuild { guild_id, name, actor_pubkey } => op(
            guild_id,
            actor_pubkey,
            ControlBodyModel::GuildCreate { name },
        ),
        AppActionModel::CreateChannel { guild_id, channel_id, name, kind, actor_pubkey } => op(
            guild_id,
            actor_pubkey,
            ControlBodyModel::ChannelCreate { channel_id, name, kind },
        ),
        AppActionModel::InviteMember { guild_id, member_pubkey, actor_pubkey } => op(
            guild_id,
            actor_pubkey,
            ControlBodyModel::MemberAdd { member_pubkey },
        ),
        AppActionModel::KickMember { guild_id, member_pubkey, actor_pubkey } => op(
            guild_id,
            actor_pubkey,
            ControlBodyModel::MemberRemove { member_pubkey },
        ),
        AppActionModel::BanMember { guild_id, member_pubkey, actor_pubkey } => op(
            guild_id,
            actor_pubkey,
            ControlBodyModel::MemberBan { member_pubkey },
        ),
        AppActionModel::SetMemberRoles { guild_id, member_pubkey, role_ids, actor_pubkey } => op(
            guild_id,
            actor_pubkey,
            ControlBodyModel::MemberRolesSet { member_pubkey, role_ids },
        ),
        AppActionModel::SetChannelPermissions { guild_id, channel_id, allow_roles, deny_roles, allow_users, deny_users, actor_pubkey } => op(
            guild_id,
            actor_pubkey,
            ControlBodyModel::ChannelPermissionsSet { channel_id, allow_roles, deny_roles, allow_users, deny_users },
        ),
        AppActionModel::RemoveMemberFromChannel { guild_id, channel_id, member_pubkey, actor_pubkey } => op(
            guild_id,
            actor_pubkey,
            ControlBodyModel::ChannelMemberRemove { channel_id, member_pubkey },
        ),
        _ => None,
    }
}

/// The operation by which an action changes guilds, or the action itself.
fn into_control_op(action: AppAction, op_id: String, ts_ms: i64) -> (result: Result<
    ControlEnvelope,
    AppAction,
>)
    ensures
        match result {
            Ok(op) => control_op(action@, op_id@, ts_ms) == Some(op@),
            Err(same) => control_op(action@, op_id@, ts_ms) is None && same@ == action@,
        },
{
    match action {
        AppAction::CreateGuild { guild_id, name, actor_pubkey } => Ok(
            ControlEnvelope::guild_create(op_id, ts_ms, guild_id, actor_pubkey, name),
        ),
        AppAction::CreateChannel { guild_id, channel_id, name, kind, actor_pubkey } => Ok(
            ControlEnvelope::channel_create(op_id, ts_ms, guild_id, actor_pubkey, channel_id, name, kind),
        ),
        AppAction::InviteMember { guild_id, member_pubkey, actor_pubkey } => Ok(
            ControlEnvelope::member_add(op_id, ts_ms, guild_id, actor_pubkey, member_pubkey),
        ),
        AppAction::KickMember { guild_id, member_pubkey, actor_pubkey } => Ok(
            ControlEnvelope::member_remove(op_id, ts_ms, guild_id, actor_pubkey, member_pubkey),
        ),
        AppAction::BanMember { guild_id, member_pubkey, actor_pubkey } => Ok(
            ControlEnvelope::member_ban(op_id, ts_ms, guild_id, actor_pubkey, member_pubkey),
        ),
        AppAction::SetMemberRoles { guild_id, member_pubkey, role_ids, actor_pubkey } => Ok(
            ControlEnvelope::member_roles_set(op_id, ts_ms, guild_id, actor_pubkey, member_pubkey, role_ids),
        ),
        AppAction::SetChannelPermissions { guild_id, channel_id, allow_roles, deny_roles, allow_users, deny_users, actor_pubkey } => Ok(
            ControlEnvelope::channel_permissions_set(op_id, ts_ms, guild_id, actor_pubkey, channel_id, allow_roles, deny_roles, allow_users, deny_users),
        ),
        AppAction::RemoveMemberFromChannel { guild_id, channel_id, member_pubkey, actor_pubkey } => Ok(
            ControlEnvelope::channel_member_remove(op_id, ts_ms, guild_id, actor_pubkey, channel_id, member_pubkey),
        ),
        other => Err(other),
    }
}

/// Why a control operation is refused, where it is: its id is taken, or the log
/// with it cannot be replayed.
pub open spec fn op_refusal(
    ops: Seq<ControlEnvelopeModel>,
    op: ControlEnvelopeModel,
) -> Option<Seq<char>> {
    if exists|i: int| 0 <= i < ops.len() && #[trigger] ops[i].op_id == op.op_id {
        Some("duplicate op ignored"@)
    } else {
        match replay_from(no_guilds(), log_order(ops.push(op))) {
            Ok(_) => None,
            Err(error) => Some(ControlError::words(error)),
        }
    }
}

/// The greeting for a name; a blank one is no name.
pub open spec fn greeting_for(name: Seq<char>) -> Seq<char> {
    if trimmed(name).len() == 0 {
        DEFAULT_GREETING@
    } else {
        "Rapture ready, "@ + trimmed(name)
    }
}

/// The state and what the user is told.
#[verifier::ext_equal]
pub struct CoreOutcome {
    pub core: AppCoreModel,
    pub toast: Option<Seq<char>>,
}

/// A state with what an action on messages came to.
pub open spec fn with_chat(core: AppCoreModel, outcome: ChatOutcome) -> CoreOutcome {
    CoreOutcome {
        core: AppCoreModel { chat: outcome.chat, epoch_keys: outcome.keys, ..core },
        toast: outcome.toast,
    }
}

/// A state with what an action in voice rooms came to.
pub open spec fn with_voice(core: AppCoreModel, outcome: VoiceOutcome) -> CoreOutcome {
    CoreOutcome { core: AppCoreModel { voice: outcome.voice, ..core }, toast: outcome.toast }
}

/// What an action comes to that does not change guilds.
pub open spec fn local_outcome(
    core: AppCoreModel,
    action: AppActionModel,
    fresh: FreshModel,
) -> CoreOutcome {
    let chat_origin = |guild_id: Seq<char>, channel_id: Seq<char>, actor: Seq<char>|
        ChatOrigin { guild_id, channel_id, actor, op_id: fresh.op_id, ts_ms: fresh.ts_ms };
    let voice_origin = |guild_id: Seq<char>, channel_id: Seq<char>, actor: Seq<char>|
        VoiceOrigin { guild_id, channel_id, actor, op_id: fresh.op_id, ts_ms: fresh.ts_ms };
    let later_origin = |guild_id: Seq<char>, channel_id: Seq<char>, actor: Seq<char>|
        VoiceOrigin {
            guild_id,
            channel_id,
            actor,
            op_id: fresh.later_op_id,
            ts_ms: fresh.later_ts_ms,
        };
    match action {
        AppActionModel::SetName { name } => CoreOutcome {
            core: AppCoreModel { greeting: greeting_for(name), ..core },
            toast: None,
        },
        AppActionModel::SelectGuild { guild_id } => CoreOutcome {
            core: AppCoreModel {
                selected_guild_id: Some(guild_id),
                selected_channel_id: None,
                ..core
            },
            toast: None,
        },
        AppActionModel::SelectChannel { guild_id, channel_id } => CoreOutcome {
            core: AppCoreModel {
                selected_guild_id: Some(guild_id),
                selected_channel_id: Some(channel_id),
                ..core
            },
            toast: None,
        },
        AppActionModel::SendMessage { guild_id, channel_id, actor_pubkey, content } => with_chat(
            core,
            send_outcome(
                core.control,
                core.groups,
                core.chat,
                core.epoch_keys,
                chat_origin(guild_id, channel_id, actor_pubkey),
                fresh.message_id,
                content,
            ),
        ),
        AppActionModel::EditMessage {
            guild_id,
            channel_id,
            actor_pubkey,
            message_id,
            content,
        } => with_chat(
            core,
            edit_outcome(
                core.control,
                core.groups,
                core.chat,
                core.epoch_keys,
                chat_origin(guild_id, channel_id, actor_pubkey),
                message_id,
                content,
            ),
        ),
        AppActionModel::DeleteMessage { guild_id, channel_id, actor_pubkey, message_id } => with_chat(
            core,
            delete_outcome(
                core.control,
                core.chat,
                core.epoch_keys,
                chat_origin(guild_id, channel_id, actor_pubkey),
                message_id,
            ),
        ),
        AppActionModel::PutReaction {
            guild_id,
            channel_id,
            actor_pubkey,
            message_id,
            emoji,
        } => with_chat(
            core,
            reaction_outcome(
                core.control,
                core.chat,
                core.epoch_keys,
                chat_op(
                    chat_origin(guild_id, channel_id, actor_pubkey),
                    ChatBodyModel::ReactionPut { message_id, emoji },
                ),
            ),
        ),
        AppActionModel::RemoveReaction {
            guild_id,
            channel_id,
            actor_pubkey,
            message_id,
            emoji,
        } => with_chat(
            core,
            reaction_outcome(
                core.control,
                core.chat,
                core.epoch_keys,
                chat_op(
                    chat_origin(guild_id, channel_id, actor_pubkey),
                    ChatBodyModel::ReactionRemove { message_id, emoji },
                ),
            ),
        ),
        AppActionModel::JoinVoice { guild_id, channel_id, actor_pubkey } => with_voice(
            core,
            join_outcome(
                core.control,
                core.voice,
                voice_origin(guild_id, channel_id, actor_pubkey),
                later_origin(guild_id, channel_id, actor_pubkey),
                fresh.session_id,
            ),
        ),
        AppActionModel::LeaveVoice { guild_id, channel_id, actor_pubkey } => with_voice(
            core,
            leave_outcome(
                core.control,
                core.voice,
                voice_origin(guild_id, channel_id, actor_pubkey),
                later_origin(guild_id, channel_id, actor_pubkey),
            ),
        ),
        AppActionModel::SetVoiceMuted { guild_id, channel_id, actor_pubkey, muted } => with_voice(
            core,
            presence_outcome(
                core.control,
                core.voice,
                voice_origin(guild_id, channel_id, actor_pubkey),
                |me: VoiceParticipantModel| VoiceParticipantModel { muted, ..me },
            ),
        ),
        AppActionModel::SetVoiceSpeaking {
            guild_id,
            channel_id,
            actor_pubkey,
            speaking,
        } => with_voice(
            core,
            presence_outcome(
                core.control,
                core.voice,
                voice_origin(guild_id, channel_id, actor_pubkey),
                |me: VoiceParticipantModel| VoiceParticipantModel { speaking, ..me },
            ),
        ),
        _ => CoreOutcome { core, toast: None },
    }
}

/// The text that an action would seal, empty where it seals none.
pub open spec fn sealed_text(action: AppActionModel) -> Seq<char> {
    match action {
        AppActionModel::SendMessage { content, .. } => trimmed(content),
        AppActionModel::EditMessage { content, .. } => trimmed(content),
        _ => Seq::empty(),
    }
}

/// The state when an action is done: the selection points at something that
/// exists, and the revision is one higher.
pub open spec fn done_core(core: AppCoreModel) -> AppCoreModel {
    AppCoreModel {
        selected_guild_id: normal_guild(core.control, core.selected_guild_id),
        selected_channel_id: normal_channel(
            core.control,
            core.selected_guild_id,
            core.selected_channel_id,
        ),
        rev: (core.rev + 1) as u64,
        ..core
    }
}

/// What is shown of a state.
pub open spec fn shown(core: AppCoreModel, toast: Option<Seq<char>>) -> AppStateModel {
    AppStateModel {
        rev: core.rev,
        greeting: core.greeting,
        guilds: guild_list(core.control),
        selected_guild_id: core.selected_guild_id,
        selected_channel_id: core.selected_channel_id,
        timeline: shown_timeline(core.chat, core.selected_guild_id, core.selected_channel_id),
        voice_room: shown_room(core.voice, core.selected_guild_id, core.selected_channel_id),
        toast,
    }
}

/// The number of leading channels of a listing that the control state has.
pub open spec fn known_prefix(
    control: ControlStateModel,
    channels: Seq<(Seq<char>, Seq<char>)>,
) -> int
    decreases channels.len(),
{
    if channels.len() == 0 || desired_members(control, channels[0].0, channels[0].1) is Err {
        0
    } else {
        1 + known_prefix(control, channels.drop_first())
    }
}

/// The channels that are reached when groups follow the control state one after
/// the other, up to the first that the control state does not have.
pub open spec fn reached(
    control: ControlStateModel,
    groups: Map<(Seq<char>, Seq<char>), ChannelGroupStateModel>,
) -> Seq<(Seq<char>, Seq<char>)> {
    let channels = listing_of::<ChannelKey>(groups.dom());
    channels.take(known_prefix(control, channels))
}

/// Whether groups and keys followed the control state: each channel has a group
/// (`added` are those there were, and fresh ones), and for the channels that are
/// reached it has the members who may see the channel, in a new epoch where that
/// is a change, and its key is among those at hand.
pub open spec fn groups_followed(
    control: ControlStateModel,
    before: Map<(Seq<char>, Seq<char>), ChannelGroupStateModel>,
    added: Map<(Seq<char>, Seq<char>), ChannelGroupStateModel>,
    after: Map<(Seq<char>, Seq<char>), ChannelGroupStateModel>,
    keys_before: KeyringModel,
    keys_after: KeyringModel,
) -> bool {
    &&& groups_added(
        before,
        added,
        |channel: (Seq<char>, Seq<char>)| channel_exists(control, channel),
    )
    &&& followed_through(control, added, after, keys_before, keys_after, reached(control, added))
}

/// Whether the groups of `channels` follow the control state, with their keys at
/// hand, and nothing else differs.
pub open spec fn followed_through(
    control: ControlStateModel,
    before: Map<(Seq<char>, Seq<char>), ChannelGroupStateModel>,
    after: Map<(Seq<char>, Seq<char>), ChannelGroupStateModel>,
    keys_before: KeyringModel,
    keys_after: KeyringModel,
    channels: Seq<(Seq<char>, Seq<char>)>,
) -> bool {
    &&& after.dom() == before.dom()
    &&& forall|channel: (Seq<char>, Seq<char>)| #[trigger]
        after.contains_key(channel) ==> after[channel] == if channels.contains(channel) {
            regrouped(
                before[channel],
                desired_members(control, channel.0, channel.1)->Ok_0,
                after[channel].key,
            )
        } else {
            before[channel]
        }
    &&& keys_after == keys_of(keys_before, after, channels)
}

/// The keys at hand with the present ones of `channels`.
pub open spec fn keys_of(
    keys: KeyringModel,
    groups: Map<(Seq<char>, Seq<char>), ChannelGroupStateModel>,
    channels: Seq<(Seq<char>, Seq<char>)>,
) -> KeyringModel
    decreases channels.len(),
{
    if channels.len() == 0 {
        keys
    } else {
        let channel = channels.last();
        with_key(
            keys_of(keys, groups, channels.drop_last()),
            channel,
            groups[channel].epoch,
            groups[channel].key,
            true,
        )
    }
}

/// What the user is told when groups follow the control state: the first channel
/// that the control state does not have, where there is one.
pub open spec fn sync_toast(
    control: ControlStateModel,
    added: Map<(Seq<char>, Seq<char>), ChannelGroupStateModel>,
) -> Option<Seq<char>> {
    let channels = listing_of::<ChannelKey>(added.dom());
    let n = known_prefix(control, channels);
    if n >= channels.len() {
        None
    } else {
        let error = desired_members(control, channels[n].0, channels[n].1)->Err_0;
        Some("reconcile desired-members failed: "@ + ReconcileError::words(error))
    }
}

proof fn lemma_known_prefix(
    control: ControlStateModel,
    channels: Seq<(Seq<char>, Seq<char>)>,
    n: int,
)
    requires
        0 <= n <= channels.len(),
        forall|i: int|
            0 <= i < n ==> desired_members(
                control,
                (#[trigger] channels[i]).0,
                channels[i].1,
            ) is Ok,
        n < channels.len() ==> desired_members(control, channels[n].0, channels[n].1) is Err,
    ensures
        known_prefix(control, channels) == n,
    decreases channels.len(),
{
    if n > 0 {
        assert(desired_members(control, channels[0].0, channels[0].1) is Ok);
        let rest = channels.drop_first();
        assert forall|i: int| 0 <= i < n - 1 implies desired_members(
            control,
            (#[trigger] rest[i]).0,
            rest[i].1,
        ) is Ok by {
            assert(rest[i] == channels[i + 1]);
        }
        lemma_known_prefix(control, rest, n - 1);
    }
}

proof fn lemma_keys_unchanged(
    keys: KeyringModel,
    groups: Map<(Seq<char>, Seq<char>), ChannelGroupStateModel>,
    others: Map<(Seq<char>, Seq<char>), ChannelGroupStateModel>,
    channels: Seq<(Seq<char>, Seq<char>)>,
)
    requires
        forall|channel: (Seq<char>, Seq<char>)| #[trigger]
            channels.contains(channel) ==> groups[channel] == others[channel],
    ensures
        keys_of(keys, groups, channels) == keys_of(keys, others, channels),
    decreases channels.len(),
{
    if channels.len() > 0 {
        let rest = channels.drop_last();
        assert(channels.contains(channels.last()));
        assert forall|channel: (Seq<char>, Seq<char>)| #[trigger]
            rest.contains(channel) implies groups[channel] == others[channel] by {
            let i = choose|i: int| 0 <= i < rest.len() && rest[i] == channel;
            assert(channels[i] == channel);
            assert(channels.contains(channel));
        }
        lemma_keys_unchanged(keys, groups, others, rest);
    }
}

/// Lets groups and keys follow the control state.
pub fn sync_channel_groups(
    control_state: &ControlState,
    channel_groups: &mut ChannelGroupDirectory,
    epoch_keys: &mut Keyring,
) -> (toast: Option<String>)
    ensures
        exists|added: Map<(Seq<char>, Seq<char>), ChannelGroupStateModel>| #[trigger]
            groups_followed(
                control_state@,
                old(channel_groups)@,
                added,
                final(channel_groups)@,
                old(epoch_keys)@,
                final(epoch_keys)@,
            ) && toast.deep_view() == sync_toast(control_state@, added),
{
    channel_groups.ensure_from_control(control_state);
    let ghost added = channel_groups@;
    let ghost keys = epoch_keys@;
    let refs = channel_groups.channel_refs();
    let ghost all = refs.deep_view();
    proof {
        lemma_listing_of::<ChannelKey>(all, added.dom());
        crate::collections::lemma_increasing_no_duplicates::<ChannelKey>(all);
        assert(all.take(0) =~= Seq::empty());
    }
    let mut i: usize = 0;
    while i < refs.len()
        invariant
            i <= refs.len(),
            all == refs.deep_view(),
            all == listing_of::<ChannelKey>(added.dom()),
            all.no_duplicates(),
            forall|channel: (Seq<char>, Seq<char>)| #[trigger]
                all.contains(channel) <==> added.dom().contains(channel),
            keys == old(epoch_keys)@,
            groups_added(
                old(channel_groups)@,
                added,
                |channel: (Seq<char>, Seq<char>)| channel_exists(control_state@, channel),
            ),
            forall|j: int|
                0 <= j < i ==> desired_members(
                    control_state@,
                    (#[trigger] all[j]).0,
                    all[j].1,
                ) is Ok,
            followed_through(
                control_state@,
                added,
                channel_groups@,
                keys,
                epoch_keys@,
                all.take(i as int),
            ),
        decreases refs.len() - i,
    {
        let guild_id = refs[i].0.as_str();
        let channel_id = refs[i].1.as_str();
        let ghost c = (guild_id@, channel_id@);
        let ghost groups = channel_groups@;
        proof {
            assert(all[i as int] == c);
            assert(all.contains(c));
            assert(groups.contains_key(c));
            lemma_take_next(all, i as int);
        }
        let desired = match desired_channel_members(control_state, guild_id, channel_id) {
            Ok(members) => members,
            Err(error) => {
                proof {
                    lemma_known_prefix(control_state@, all, i as int);
                    assert(groups_followed(
                        control_state@,
                        old(channel_groups)@,
                        added,
                        channel_groups@,
                        keys,
                        epoch_keys@,
                    ));
                }
                return Some(
                    "reconcile desired-members failed: ".to_owned().concat(
                        error.message().as_str(),
                    ),
                );
            },
        };
        if let Err(error) = channel_groups.reconcile_members(guild_id, channel_id, desired) {
            return Some(
                "reconcile channel-group members failed: ".to_owned().concat(
                    error.message().as_str(),
                ),
            );
        }
        if let Some((epoch, key)) = channel_groups.current_epoch_key(guild_id, channel_id) {
            epoch_keys.take_key(&ChannelKey::new(guild_id, channel_id), epoch, key, true);
        }
        proof {
            let seen = all.take(i as int);
            let next = all.take(i + 1);
            assert(channel_groups@.dom() =~= added.dom());
            assert(next.drop_last() =~= seen);
            assert(next.last() == c);
            assert forall|channel: (Seq<char>, Seq<char>)| #[trigger]
                seen.contains(channel) implies groups[channel] == channel_groups@[channel] by {
                assert(channel != c);
            }
            lemma_keys_unchanged(keys, groups, channel_groups@, seen);
        }
        i += 1;
    }
    proof {
        lemma_known_prefix(control_state@, all, i as int);
        assert(all.take(i as int) =~= all);
        assert(groups_followed(
            control_state@,
            old(channel_groups)@,
            added,
            channel_groups@,
            keys,
            epoch_keys@,
        ));
    }
    None
}

/// The control state at the start: what snapshot and log led to, unless the log
/// alone can be replayed and says otherwise; the log then counts.
pub open spec fn start_control(
    state: Result<ControlStateModel, Seq<char>>,
    ops: Result<Seq<ControlEnvelopeModel>, Seq<char>>,
) -> ControlStateModel {
    let from_disk = match state {
        Ok(loaded) => loaded,
        Err(_) => no_guilds(),
    };
    match ops {
        Ok(log) if log.len() > 0 => match replay_from(no_guilds(), log_order(log)) {
            Ok(replayed) => replayed,
            Err(_) => from_disk,
        },
        _ => from_disk,
    }
}

/// The operations at the start: those of the log, where it can be replayed.
pub open spec fn start_ops(ops: Result<Seq<ControlEnvelopeModel>, Seq<char>>) -> Seq<
    ControlEnvelopeModel,
> {
    match ops {
        Ok(log) if log.len() > 0 && replay_from(no_guilds(), log_order(log)) is Ok => log,
        _ => Seq::empty(),
    }
}

/// What the user is told of loading: the last thing that went wrong.
pub open spec fn start_toast(
    state: Result<ControlStateModel, Seq<char>>,
    ops: Result<Seq<ControlEnvelopeModel>, Seq<char>>,
) -> Option<Seq<char>> {
    let first = match state {
        Ok(_) => None,
        Err(text) => Some("failed to load control state: "@ + text),
    };
    match ops {
        Err(text) => Some("failed to load control log: "@ + text),
        Ok(log) if log.len() > 0 => match replay_from(no_guilds(), log_order(log)) {
            Ok(_) => first,
            Err(error) => Some("failed to replay control log: "@ + ControlError::words(error)),
        },
        Ok(_) => first,
    }
}

/// Whether a state is one that the application starts with, and shows.
pub open spec fn started(
    core: AppCoreModel,
    toast: Option<Seq<char>>,
    state: Result<ControlStateModel, Seq<char>>,
    ops: Result<Seq<ControlEnvelopeModel>, Seq<char>>,
    added: Map<(Seq<char>, Seq<char>), ChannelGroupStateModel>,
) -> bool {
    let control = start_control(state, ops);
    &&& core.control == control
    &&& core.control_ops == start_ops(ops)
    &&& core.chat == no_chat()
    &&& core.voice == no_voice()
    &&& groups_followed(
        control,
        Map::empty(),
        added,
        core.groups,
        KeyringModel { rings: Map::empty() },
        core.epoch_keys,
    )
    &&& core.selected_guild_id == normal_guild(control, None)
    &&& core.selected_channel_id == normal_channel(control, None, None)
    &&& core.greeting == DEFAULT_GREETING@
    &&& core.rev == control.seen_op_ids.len()
    &&& toast == match sync_toast(control, added) {
        Some(text) => Some(text),
        None => start_toast(state, ops),
    }
}

/// The model of a loaded state.
pub open spec fn loaded_state(state: Result<ControlState, String>) -> Result<
    ControlStateModel,
    Seq<char>,
> {
    match state {
        Ok(s) => Ok(s@),
        Err(text) => Err(text@),
    }
}

/// The model of a loaded log.
pub open spec fn loaded_ops(ops: Result<Vec<ControlEnvelope>, String>) -> Result<
    Seq<ControlEnvelopeModel>,
    Seq<char>,
> {
    match ops {
        Ok(log) => Ok(log.deep_view()),
        Err(text) => Err(text@),
    }
}

impl AppCore {
    /// The application as it starts, from what was found on disk.
    pub fn start(
        state: Result<ControlState, String>,
        ops: Result<Vec<ControlEnvelope>, String>,
    ) -> (begun: (AppCore, AppState))
        ensures
            exists|toast: Option<Seq<char>>, added: Map<
                (Seq<char>, Seq<char>),
                ChannelGroupStateModel,
            >|
                #[trigger] started(
                    begun.0@,
                    toast,
                    loaded_state(state),
                    loaded_ops(ops),
                    added,
                ) && begun.1@ == shown(begun.0@, toast),
    {
        let ghost state_model = loaded_state(state);
        let ghost ops_model = loaded_ops(ops);
        let mut toast: Option<String> = None;
        let mut control = ControlState::default();
        match state {
            Ok(loaded) => {
                control = loaded;
            },
            Err(text) => {
                toast = Some("failed to load control state: ".to_owned().concat(text.as_str()));
            },
        }
        let mut control_ops: Vec<ControlEnvelope> = Vec::new();
        proof {
            assert(control_ops.deep_view() =~= Seq::empty());
        }
        match ops {
            Ok(log) => {
                if log.len() > 0 {
                    let slice = log.as_slice();
                    proof {
                        assert(slice.deep_view() =~= log.deep_view());
                    }
                    match ControlState::replay_sorted(slice) {
                        Ok(replayed) => {
                            control = replayed;
                            control_ops = log;
                        },
                        Err(error) => {
                            toast = Some(
                                "failed to replay control log: ".to_owned().concat(
                                    error.message().as_str(),
                                ),
                            );
                        },
                    }
                }
            },
            Err(text) => {
                toast = Some("failed to load control log: ".to_owned().concat(text.as_str()));
            },
        }
        let mut groups = ChannelGroupDirectory::default();
        let mut epoch_keys = Keyring::default();
        proof {
            assert(control@ == start_control(state_model, ops_model));
            assert(control_ops.deep_view() == start_ops(ops_model));
            assert(toast.deep_view() == start_toast(state_model, ops_model));
        }
        let failure = sync_channel_groups(&control, &mut groups, &mut epoch_keys);
        let ghost added = choose|added: Map<(Seq<char>, Seq<char>), ChannelGroupStateModel>|
            #[trigger] groups_followed(
                control@,
                Map::empty(),
                added,
                groups@,
                KeyringModel { rings: Map::empty() },
                epoch_keys@,
            ) && failure.deep_view() == sync_toast(control@, added);
        if let Some(text) = failure {
            toast = Some(text);
        }
        let mut selected_guild_id: Option<String> = None;
        let mut selected_channel_id: Option<String> = None;
        normalize_selection(&control, &mut selected_guild_id, &mut selected_channel_id);
        let rev: u64 = control.seen_op_ids.len() as u64;
        let core = AppCore {
            control,
            control_ops,
            chat: ChatState::default(),
            voice: VoiceState::default(),
            groups,
            epoch_keys,
            selected_guild_id,
            selected_channel_id,
            greeting: DEFAULT_GREETING.to_owned(),
            rev,
        };
        let ghost told = toast.deep_view();
        let shown_state = core.show(toast);
        let begun = (core, shown_state);
        proof {
            assert(started(begun.0@, told, state_model, ops_model, added));
            assert(begun.1@ == shown(begun.0@, told));
        }
        begun
    }

    /// What is shown of this state.
    fn show(&self, toast: Option<String>) -> (state: AppState)
        ensures
            state@ == shown(self@, toast.deep_view()),
    {
        build_state(
            self.rev,
            self.greeting.as_str(),
            &self.control,
            &self.chat,
            &self.voice,
            self.selected_guild_id.replicate(),
            self.selected_channel_id.replicate(),
            toast,
        )
    }

    /// Ends an action.
    fn finish(&mut self, toast: Option<String>) -> (state: AppState)
        requires
            old(self)@.rev < u64::MAX,
        ensures
            final(self)@ == done_core(old(self)@),
            state@ == shown(done_core(old(self)@), toast.deep_view()),
    {
        normalize_selection(
            &self.control,
            &mut self.selected_guild_id,
            &mut self.selected_channel_id,
        );
        self.rev = self.rev + 1;
        self.show(toast)
    }

    /// Whether an operation with this id is in the log.
    fn has_op(&self, op_id: &String) -> (found: bool)
        ensures
            found == exists|i: int|
                0 <= i < self@.control_ops.len() && #[trigger] self@.control_ops[i].op_id == op_id@,
    {
        let mut i: usize = 0;
        while i < self.control_ops.len()
            invariant
                i <= self.control_ops.len(),
                forall|j: int|
                    0 <= j < i ==> #[trigger] self@.control_ops[j].op_id != op_id@,
            decreases self.control_ops.len() - i,
        {
            if self.control_ops[i].op_id == *op_id {
                proof {
                    assert(self@.control_ops[i as int].op_id == op_id@);
                }
                return true;
            }
            i += 1;
        }
        false
    }

    /// The state and the log with one more operation, or why it is refused.
    fn with_op(&self, op: &ControlEnvelope) -> (result: Result<
        (ControlState, Vec<ControlEnvelope>),
        String,
    >)
        ensures
            match op_refusal(self@.control_ops, op@) {
                Some(text) => result is Err && result->Err_0@ == text,
                None => {
                    &&& result is Ok
                    &&& result->Ok_0.1.deep_view() == self@.control_ops.push(op@)
                    &&& replay_from(no_guilds(), log_order(self@.control_ops.push(op@))) == Ok::<
                        ControlStateModel,
                        ControlErrorModel,
                    >(result->Ok_0.0@)
                },
            },
    {
        if self.has_op(&op.op_id) {
            return Err("duplicate op ignored".to_owned());
        }
        let mut ops = self.control_ops.replicate();
        let ghost before = ops.deep_view();
        ops.push(op.replicate());
        let slice = ops.as_slice();
        proof {
            assert(ops.deep_view() =~= before.push(op@));
            assert(slice.deep_view() =~= ops.deep_view());
        }
        match ControlState::replay_sorted(slice) {
            Ok(state) => Ok((state, ops)),
            Err(error) => Err(error.message()),
        }
    }

    /// Carries out an action that does not change guilds.
    fn act(&mut self, action: AppAction, fresh: Fresh) -> (toast: Option<String>)
        requires
            control_op(action@, fresh@.op_id, fresh.ts_ms) is None,
        ensures
            (CoreOutcome { core: final(self)@, toast: toast.deep_view() }) == local_outcome(
                old(self)@,
                action@,
                fresh@,
            ),
    {
        match action {
            AppAction::SetName { name } => {
                let name = trim(name.as_str());
                if name.as_str().is_empty() {
                    self.greeting = DEFAULT_GREETING.to_owned();
                } else {
                    self.greeting = "Rapture ready, ".to_owned().concat(name.as_str());
                }
                None
            },
            AppAction::SelectGuild { guild_id } => {
                self.selected_guild_id = Some(guild_id);
                self.selected_channel_id = None;
                None
            },
            AppAction::SelectChannel { guild_id, channel_id } => {
                self.selected_guild_id = Some(guild_id);
                self.selected_channel_id = Some(channel_id);
                None
            },
            AppAction::SendMessage { guild_id, channel_id, actor_pubkey, content } => send_message(
                &self.control,
                &mut self.chat,
                &self.groups,
                &mut self.epoch_keys,
                guild_id,
                channel_id,
                actor_pubkey,
                content,
                fresh.op_id,
                fresh.ts_ms,
                fresh.message_id,
            ),
            AppAction::EditMessage {
                guild_id,
                channel_id,
                actor_pubkey,
                message_id,
                content,
            } => edit_message(
                &self.control,
                &mut self.chat,
                &self.groups,
                &mut self.epoch_keys,
                guild_id,
                channel_id,
                actor_pubkey,
                message_id,
                content,
                fresh.op_id,
                fresh.ts_ms,
            ),
            AppAction::DeleteMessage { guild_id, channel_id, actor_pubkey, message_id } => delete_message(
                &self.control,
                &mut self.chat,
                guild_id,
                channel_id,
                actor_pubkey,
                message_id,
                fresh.op_id,
                fresh.ts_ms,
            ),
            AppAction::PutReaction {
                guild_id,
                channel_id,
                actor_pubkey,
                message_id,
                emoji,
            } => put_reaction(
                &self.control,
                &mut self.chat,
                guild_id,
                channel_id,
                actor_pubkey,
                message_id,
                emoji,
                fresh.op_id,
                fresh.ts_ms,
            ),
            AppAction::RemoveReaction {
                guild_id,
                channel_id,
                actor_pubkey,
                message_id,
                emoji,
            } => remove_reaction(
                &self.control,
                &mut self.chat,
                guild_id,
                channel_id,
                actor_pubkey,
                message_id,
                emoji,
                fresh.op_id,
                fresh.ts_ms,
            ),
            AppAction::JoinVoice { guild_id, channel_id, actor_pubkey } => join_voice(
                &self.control,
                &mut self.voice,
                guild_id,
                channel_id,
                actor_pubkey,
                fresh.op_id,
                fresh.ts_ms,
                fresh.later_op_id,
                fresh.later_ts_ms,
                fresh.session_id,
            ),
            AppAction::LeaveVoice { guild_id, channel_id, actor_pubkey } => leave_voice(
                &self.control,
                &mut self.voice,
                guild_id,
                channel_id,
                actor_pubkey,
                fresh.op_id,
                fresh.ts_ms,
                fresh.later_op_id,
                fresh.later_ts_ms,
            ),
            AppAction::SetVoiceMuted { guild_id, channel_id, actor_pubkey, muted } => set_voice_muted(
                &self.control,
                &mut self.voice,
                guild_id,
                channel_id,
                actor_pubkey,
                muted,
                fresh.op_id,
                fresh.ts_ms,
            ),
            AppAction::SetVoiceSpeaking {
                guild_id,
                channel_id,
                actor_pubkey,
                speaking,
            } => set_voice_speaking(
                &self.control,
                &mut self.voice,
                guild_id,
                channel_id,
                actor_pubkey,
                speaking,
                fresh.op_id,
                fresh.ts_ms,
            ),
            _ => None,
        }
    }

    /// Takes up an action, with ids and times that it may use. One that does not
    /// change guilds is done at once. Any other is refused, or its operation is
    /// to be appended to the log before anything changes.
    pub fn begin_with(&mut self, action: AppAction, fresh: Fresh) -> (step: AppStep)
        requires
            old(self)@.rev < u64::MAX,
        ensures
            match control_op(action@, fresh@.op_id, fresh.ts_ms) {
                None => {
                    let outcome = local_outcome(old(self)@, action@, fresh@);
                    &&& final(self)@ == done_core(outcome.core)
                    &&& step@ == AppStepModel::Show(shown(done_core(outcome.core), outcome.toast))
                },
                Some(op) => match op_refusal(old(self)@.control_ops, op) {
                    Some(text) => {
                        &&& final(self)@ == done_core(old(self)@)
                        &&& step@ == AppStepModel::Show(shown(done_core(old(self)@), Some(text)))
                    },
                    None => {
                        &&& final(self)@ == old(self)@
                        &&& step@ == AppStepModel::AppendOp(op)
                    },
                },
            },
    {
        let op_id = fresh.op_id.clone();
        match into_control_op(action, op_id, fresh.ts_ms) {
            Err(action) => {
                let toast = self.act(action, fresh);
                AppStep::Show(self.finish(toast))
            },
            Ok(op) => match self.with_op(&op) {
                Err(text) => AppStep::Show(self.finish(Some(text))),
                Ok(_) => AppStep::AppendOp(op),
            },
        }
    }

    /// Takes up an action.
    pub fn begin(&mut self, action: AppAction) -> (step: AppStep)
        requires
            old(self)@.rev < u64::MAX,
        ensures
            exists|fresh: FreshModel| #[trigger]
                begun_with(old(self)@, action@, fresh, final(self)@, step@),
    {
        let fresh = Fresh {
            op_id: next_op_id(),
            ts_ms: now_ms(),
            later_op_id: next_op_id(),
            later_ts_ms: now_ms(),
            message_id: next_message_id(),
            session_id: next_voice_session_id(),
        };
        let ghost model = fresh@;
        let step = self.begin_with(action, fresh);
        proof {
            assert(begun_with(old(self)@, action@, model, self@, step@));
        }
        step
    }

    /// Goes on once an operation was appended to the log, or could not be. Only
    /// where it was does it count.
    pub fn appended(&mut self, op: ControlEnvelope, result: Result<(), String>) -> (step: AppStep)
        requires
            old(self)@.rev < u64::MAX,
        ensures
            match (result, op_refusal(old(self)@.control_ops, op@)) {
                (Err(text), _) => {
                    &&& final(self)@ == done_core(old(self)@)
                    &&& step@ == AppStepModel::Show(
                        shown(done_core(old(self)@), Some("failed to append op: "@ + text@)),
                    )
                },
                (Ok(()), Some(text)) => {
                    &&& final(self)@ == done_core(old(self)@)
                    &&& step@ == AppStepModel::Show(shown(done_core(old(self)@), Some(text)))
                },
                (Ok(()), None) => {
                    let ops = old(self)@.control_ops.push(op@);
                    &&& final(self)@ == (AppCoreModel {
                        control: replay_from(no_guilds(), log_order(ops))->Ok_0,
                        control_ops: ops,
                        ..old(self)@
                    })
                    &&& step@ == AppStepModel::WriteSnapshot
                },
            },
    {
        if let Err(text) = result {
            return AppStep::Show(
                self.finish(Some("failed to append op: ".to_owned().concat(text.as_str()))),
            );
        }
        match self.with_op(&op) {
            Err(text) => AppStep::Show(self.finish(Some(text))),
            Ok((state, ops)) => {
                self.control = state;
                self.control_ops = ops;
                AppStep::WriteSnapshot
            },
        }
    }

    /// Ends an action once the snapshot was written, or could not be. Only where
    /// it was do the groups follow.
    pub fn snapshot_written(&mut self, result: Result<(), String>) -> (state: AppState)
        requires
            old(self)@.rev < u64::MAX,
        ensures
            match result {
                Err(text) => {
                    &&& final(self)@ == done_core(old(self)@)
                    &&& state@ == shown(
                        done_core(old(self)@),
                        Some("failed to write snapshot (log append succeeded): "@ + text@),
                    )
                },
                Ok(()) => exists|added: Map<(Seq<char>, Seq<char>), ChannelGroupStateModel>|
                    #[trigger] synced(old(self)@, final(self)@, added) && state@ == shown(
                        final(self)@,
                        sync_toast(old(self)@.control, added),
                    ),
            },
    {
        if let Err(text) = result {
            return self.finish(
                Some(
                    "failed to write snapshot (log append succeeded): ".to_owned().concat(
                        text.as_str(),
                    ),
                ),
            );
        }
        let toast = sync_channel_groups(&self.control, &mut self.groups, &mut self.epoch_keys);
        let ghost middle = self@;
        let ghost added = choose|added: Map<(Seq<char>, Seq<char>), ChannelGroupStateModel>|
            #[trigger] groups_followed(
                middle.control,
                old(self)@.groups,
                added,
                middle.groups,
                old(self)@.epoch_keys,
                middle.epoch_keys,
            ) && toast.deep_view() == sync_toast(middle.control, added);
        let state = self.finish(toast);
        proof {
            assert(synced(old(self)@, self@, added));
        }
        state
    }
}

/// Whether an action was taken up with these ids and times.
pub open spec fn begun_with(
    before: AppCoreModel,
    action: AppActionModel,
    fresh: FreshModel,
    after: AppCoreModel,
    step: AppStepModel,
) -> bool {
    match control_op(action, fresh.op_id, fresh.ts_ms) {
        None => {
            let outcome = local_outcome(before, action, fresh);
            &&& after == done_core(outcome.core)
            &&& step == AppStepModel::Show(shown(done_core(outcome.core), outcome.toast))
        },
        Some(op) => match op_refusal(before.control_ops, op) {
            Some(text) => {
                &&& after == done_core(before)
                &&& step == AppStepModel::Show(shown(done_core(before), Some(text)))
            },
            None => after == before && step == AppStepModel::AppendOp(op),
        },
    }
}

/// Whether a state is another one that is done, with groups and keys that
/// followed.
pub open spec fn synced(
    before: AppCoreModel,
    after: AppCoreModel,
    added: Map<(Seq<char>, Seq<char>), ChannelGroupStateModel>,
) -> bool {
    &&& after == done_core(
        AppCoreModel { groups: after.groups, epoch_keys: after.epoch_keys, ..before },
    )
    &&& groups_followed(
        before.control,
        before.groups,
        added,
        after.groups,
        before.epoch_keys,
        after.epoch_keys,
    )
}

} // verus!
