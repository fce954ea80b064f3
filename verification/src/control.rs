//! The replicated state of guilds, and the operations that change it.
//!
//! Every replica applies the same operations. An operation is applied at most
//! once, by its id; one that is refused leaves the state as it was.
use vstd::prelude::*;
use crate::collections::{outcome, OrdMap, OrdSet, Replicate};
use crate::permissions::{
    has_permission, optional_text, permission_bits, permission_name, permission_text, permitted,
    union_of_bits, Permission, PERM_ADMINISTRATOR, PERM_BAN_MEMBERS, PERM_CONNECT_VOICE,
    PERM_KICK_MEMBERS, PERM_MANAGE_CHANNELS, PERM_MANAGE_MESSAGES, PERM_MANAGE_ROLES,
    PERM_MUTE_MEMBERS, PERM_SEND_MESSAGE, PERM_SPEAK_VOICE, PERM_VIEW_CHANNEL,
};
use crate::ChannelKind;

verus! {

pub const CONTROL_SCHEMA_V1: &'static str = "rapture.control.v1";

pub const ROLE_OWNER: &'static str = "role-owner";

pub const ROLE_EVERYONE: &'static str = "role-everyone";

/// All guilds, and the ids of the operations that made them.
#[derive(Debug, PartialEq, Eq)]
pub struct ControlState {
    pub guilds: OrdMap<String, GuildState>,
    pub seen_op_ids: OrdSet<String>,
}

/// What a [`ControlState`] holds.
#[verifier::ext_equal]
pub struct ControlStateModel {
    pub guilds: Map<Seq<char>, GuildStateModel>,
    pub seen_op_ids: Set<Seq<char>>,
}

impl DeepView for ControlState {
    type V = ControlStateModel;

    open spec fn deep_view(&self) -> ControlStateModel {
        ControlStateModel {
            guilds: self.guilds.deep_view(),
            seen_op_ids: self.seen_op_ids.deep_view(),
        }
    }
}

impl View for ControlState {
    type V = ControlStateModel;

    open spec fn view(&self) -> ControlStateModel {
        self.deep_view()
    }
}

impl Replicate for ControlState {
    fn replicate(&self) -> (copy: Self) {
        ControlState {
            guilds: self.guilds.replicate(),
            seen_op_ids: self.seen_op_ids.replicate(),
        }
    }
}

impl Clone for ControlState {
    fn clone(&self) -> (copy: Self)
        ensures
            copy@ == self@,
    {
        self.replicate()
    }
}

/// One guild.
#[derive(Debug, PartialEq, Eq)]
pub struct GuildState {
    pub guild_id: String,
    pub name: String,
    pub created_by: String,
    pub members: OrdSet<String>,
    /// Those who may not be added again.
    pub banned: OrdSet<String>,
    pub roles: OrdMap<String, RoleState>,
    pub member_roles: OrdMap<String, OrdSet<String>>,
    pub channels: OrdMap<String, ChannelState>,
}

/// What a [`GuildState`] holds.
#[verifier::ext_equal]
pub struct GuildStateModel {
    pub guild_id: Seq<char>,
    pub name: Seq<char>,
    pub created_by: Seq<char>,
    pub members: Set<Seq<char>>,
    pub banned: Set<Seq<char>>,
    pub roles: Map<Seq<char>, RoleStateModel>,
    pub member_roles: Map<Seq<char>, Set<Seq<char>>>,
    pub channels: Map<Seq<char>, ChannelStateModel>,
}

impl DeepView for GuildState {
    type V = GuildStateModel;

    open spec fn deep_view(&self) -> GuildStateModel {
        GuildStateModel {
            guild_id: self.guild_id.deep_view(),
            name: self.name.deep_view(),
            created_by: self.created_by.deep_view(),
            members: self.members.deep_view(),
            banned: self.banned.deep_view(),
            roles: self.roles.deep_view(),
            member_roles: self.member_roles.deep_view(),
            channels: self.channels.deep_view(),
        }
    }
}

impl View for GuildState {
    type V = GuildStateModel;

    open spec fn view(&self) -> GuildStateModel {
        self.deep_view()
    }
}

impl Replicate for GuildState {
    fn replicate(&self) -> (copy: Self) {
        GuildState {
            guild_id: self.guild_id.replicate(),
            name: self.name.replicate(),
            created_by: self.created_by.replicate(),
            members: self.members.replicate(),
            banned: self.banned.replicate(),
            roles: self.roles.replicate(),
            member_roles: self.member_roles.replicate(),
            channels: self.channels.replicate(),
        }
    }
}

impl Clone for GuildState {
    fn clone(&self) -> (copy: Self)
        ensures
            copy@ == self@,
    {
        self.replicate()
    }
}

/// A role and what it grants.
#[derive(Debug, PartialEq, Eq)]
pub struct RoleState {
    pub role_id: String,
    pub name: String,
    pub permissions: u64,
    pub priority: i32,
}

/// What a [`RoleState`] holds.
#[verifier::ext_equal]
pub struct RoleStateModel {
    pub role_id: Seq<char>,
    pub name: Seq<char>,
    pub permissions: u64,
    pub priority: i32,
}

impl DeepView for RoleState {
    type V = RoleStateModel;

    open spec fn deep_view(&self) -> RoleStateModel {
        RoleStateModel {
            role_id: self.role_id.deep_view(),
            name: self.name.deep_view(),
            permissions: self.permissions.deep_view(),
            priority: self.priority.deep_view(),
        }
    }
}

impl View for RoleState {
    type V = RoleStateModel;

    open spec fn view(&self) -> RoleStateModel {
        self.deep_view()
    }
}

impl Replicate for RoleState {
    fn replicate(&self) -> (copy: Self) {
        RoleState {
            role_id: self.role_id.replicate(),
            name: self.name.replicate(),
            permissions: self.permissions.replicate(),
            priority: self.priority.replicate(),
        }
    }
}

impl Clone for RoleState {
    fn clone(&self) -> (copy: Self)
        ensures
            copy@ == self@,
    {
        self.replicate()
    }
}

/// A channel of a guild.
#[derive(Debug, PartialEq, Eq)]
pub struct ChannelState {
    pub channel_id: String,
    pub guild_id: String,
    pub name: String,
    pub kind: ChannelKind,
    pub policy: ChannelPolicy,
}

/// What a [`ChannelState`] holds.
#[verifier::ext_equal]
pub struct ChannelStateModel {
    pub channel_id: Seq<char>,
    pub guild_id: Seq<char>,
    pub name: Seq<char>,
    pub kind: ChannelKind,
    pub policy: ChannelPolicyModel,
}

impl DeepView for ChannelState {
    type V = ChannelStateModel;

    open spec fn deep_view(&self) -> ChannelStateModel {
        ChannelStateModel {
            channel_id: self.channel_id.deep_view(),
            guild_id: self.guild_id.deep_view(),
            name: self.name.deep_view(),
            kind: self.kind.deep_view(),
            policy: self.policy.deep_view(),
        }
    }
}

impl View for ChannelState {
    type V = ChannelStateModel;

    open spec fn view(&self) -> ChannelStateModel {
        self.deep_view()
    }
}

impl Replicate for ChannelState {
    fn replicate(&self) -> (copy: Self) {
        ChannelState {
            channel_id: self.channel_id.replicate(),
            guild_id: self.guild_id.replicate(),
            name: self.name.replicate(),
            kind: self.kind.replicate(),
            policy: self.policy.replicate(),
        }
    }
}

impl Clone for ChannelState {
    fn clone(&self) -> (copy: Self)
        ensures
            copy@ == self@,
    {
        self.replicate()
    }
}

/// Exceptions that a channel makes to the base permissions.
#[derive(Debug, PartialEq, Eq)]
pub struct ChannelPolicy {
    pub allow_roles: OrdSet<String>,
    pub deny_roles: OrdSet<String>,
    pub allow_users: OrdSet<String>,
    pub deny_users: OrdSet<String>,
}

/// What a [`ChannelPolicy`] holds.
#[verifier::ext_equal]
pub struct ChannelPolicyModel {
    pub allow_roles: Set<Seq<char>>,
    pub deny_roles: Set<Seq<char>>,
    pub allow_users: Set<Seq<char>>,
    pub deny_users: Set<Seq<char>>,
}

impl DeepView for ChannelPolicy {
    type V = ChannelPolicyModel;

    open spec fn deep_view(&self) -> ChannelPolicyModel {
        ChannelPolicyModel {
            allow_roles: self.allow_roles.deep_view(),
            deny_roles: self.deny_roles.deep_view(),
            allow_users: self.allow_users.deep_view(),
            deny_users: self.deny_users.deep_view(),
        }
    }
}

impl View for ChannelPolicy {
    type V = ChannelPolicyModel;

    open spec fn view(&self) -> ChannelPolicyModel {
        self.deep_view()
    }
}

impl Replicate for ChannelPolicy {
    fn replicate(&self) -> (copy: Self) {
        ChannelPolicy {
            allow_roles: self.allow_roles.replicate(),
            deny_roles: self.deny_roles.replicate(),
            allow_users: self.allow_users.replicate(),
            deny_users: self.deny_users.replicate(),
        }
    }
}

impl Clone for ChannelPolicy {
    fn clone(&self) -> (copy: Self)
        ensures
            copy@ == self@,
    {
        self.replicate()
    }
}

/// An operation with its origin.
#[derive(Debug, PartialEq, Eq)]
pub struct ControlEnvelope {
    pub schema: String,
    pub guild_id: String,
    pub actor: String,
    pub op_id: String,
    pub ts_ms: i64,
    pub body: ControlBody,
}

/// What a [`ControlEnvelope`] holds.
#[verifier::ext_equal]
pub struct ControlEnvelopeModel {
    pub schema: Seq<char>,
    pub guild_id: Seq<char>,
    pub actor: Seq<char>,
    pub op_id: Seq<char>,
    pub ts_ms: i64,
    pub body: ControlBodyModel,
}

impl DeepView for ControlEnvelope {
    type V = ControlEnvelopeModel;

    open spec fn deep_view(&self) -> ControlEnvelopeModel {
        ControlEnvelopeModel {
            schema: self.schema.deep_view(),
            guild_id: self.guild_id.deep_view(),
            actor: self.actor.deep_view(),
            op_id: self.op_id.deep_view(),
            ts_ms: self.ts_ms.deep_view(),
            body: self.body.deep_view(),
        }
    }
}

impl View for ControlEnvelope {
    type V = ControlEnvelopeModel;

    open spec fn view(&self) -> ControlEnvelopeModel {
        self.deep_view()
    }
}

impl Replicate for ControlEnvelope {
    fn replicate(&self) -> (copy: Self) {
        ControlEnvelope {
            schema: self.schema.replicate(),
            guild_id: self.guild_id.replicate(),
            actor: self.actor.replicate(),
            op_id: self.op_id.replicate(),
            ts_ms: self.ts_ms.replicate(),
            body: self.body.replicate(),
        }
    }
}

impl Clone for ControlEnvelope {
    fn clone(&self) -> (copy: Self)
        ensures
            copy@ == self@,
    {
        self.replicate()
    }
}

/// What an operation does.
#[derive(Debug, PartialEq, Eq)]
pub enum ControlBody {
    GuildCreate { name: String },
    RoleUpsert { role_id: String, name: String, permissions: u64, priority: i32 },
    MemberAdd { member_pubkey: String },
    MemberRemove { member_pubkey: String },
    MemberBan { member_pubkey: String },
    MemberRolesSet { member_pubkey: String, role_ids: Vec<String> },
    ChannelCreate { channel_id: String, name: String, kind: ChannelKind },
    ChannelPermissionsSet {
        channel_id: String,
        allow_roles: Vec<String>,
        deny_roles: Vec<String>,
        allow_users: Vec<String>,
        deny_users: Vec<String>,
    },
    ChannelMemberRemove { channel_id: String, member_pubkey: String },
}

/// What a [`ControlBody`] holds.
#[verifier::ext_equal]
pub enum ControlBodyModel {
    GuildCreate { name: Seq<char> },
    RoleUpsert { role_id: Seq<char>, name: Seq<char>, permissions: u64, priority: i32 },
    MemberAdd { member_pubkey: Seq<char> },
    MemberRemove { member_pubkey: Seq<char> },
    MemberBan { member_pubkey: Seq<char> },
    MemberRolesSet { member_pubkey: Seq<char>, role_ids: Seq<Seq<char>> },
    ChannelCreate { channel_id: Seq<char>, name: Seq<char>, kind: ChannelKind },
    ChannelPermissionsSet {
        channel_id: Seq<char>,
        allow_roles: Seq<Seq<char>>,
        deny_roles: Seq<Seq<char>>,
        allow_users: Seq<Seq<char>>,
        deny_users: Seq<Seq<char>>,
    },
    ChannelMemberRemove { channel_id: Seq<char>, member_pubkey: Seq<char> },
}

impl DeepView for ControlBody {
    type V = ControlBodyModel;

    open spec fn deep_view(&self) -> ControlBodyModel {
        match self {
            ControlBody::GuildCreate { name } => ControlBodyModel::GuildCreate {
                name: name.deep_view(),
            },
            ControlBody::RoleUpsert {
                role_id,
                name,
                permissions,
                priority,
            } => ControlBodyModel::RoleUpsert {
                role_id: role_id.deep_view(),
                name: name.deep_view(),
                permissions: permissions.deep_view(),
                priority: priority.deep_view(),
            },
            ControlBody::MemberAdd { member_pubkey } => ControlBodyModel::MemberAdd {
                member_pubkey: member_pubkey.deep_view(),
            },
            ControlBody::MemberRemove { member_pubkey } => ControlBodyModel::MemberRemove {
                member_pubkey: member_pubkey.deep_view(),
            },
            ControlBody::MemberBan { member_pubkey } => ControlBodyModel::MemberBan {
                member_pubkey: member_pubkey.deep_view(),
            },
            ControlBody::MemberRolesSet {
                member_pubkey,
                role_ids,
            } => ControlBodyModel::MemberRolesSet {
                member_pubkey: member_pubkey.deep_view(),
                role_ids: role_ids.deep_view(),
            },
            ControlBody::ChannelCreate {
                channel_id,
                name,
                kind,
            } => ControlBodyModel::ChannelCreate {
                channel_id: channel_id.deep_view(),
                name: name.deep_view(),
                kind: kind.deep_view(),
            },
            ControlBody::ChannelPermissionsSet {
                channel_id,
                allow_roles,
                deny_roles,
                allow_users,
                deny_users,
            } => ControlBodyModel::ChannelPermissionsSet {
                channel_id: channel_id.deep_view(),
                allow_roles: allow_roles.deep_view(),
                deny_roles: deny_roles.deep_view(),
                allow_users: allow_users.deep_view(),
                deny_users: deny_users.deep_view(),
            },
            ControlBody::ChannelMemberRemove {
                channel_id,
                member_pubkey,
            } => ControlBodyModel::ChannelMemberRemove {
                channel_id: channel_id.deep_view(),
                member_pubkey: member_pubkey.deep_view(),
            },
        }
    }
}

impl View for ControlBody {
    type V = ControlBodyModel;

    open spec fn view(&self) -> ControlBodyModel {
        self.deep_view()
    }
}

impl Replicate for ControlBody {
    fn replicate(&self) -> (copy: Self) {
        match self {
            ControlBody::GuildCreate { name } => ControlBody::GuildCreate {
                name: name.replicate(),
            },
            ControlBody::RoleUpsert {
                role_id,
                name,
                permissions,
                priority,
            } => ControlBody::RoleUpsert {
                role_id: role_id.replicate(),
                name: name.replicate(),
                permissions: permissions.replicate(),
                priority: priority.replicate(),
            },
            ControlBody::MemberAdd { member_pubkey } => ControlBody::MemberAdd {
                member_pubkey: member_pubkey.replicate(),
            },
            ControlBody::MemberRemove { member_pubkey } => ControlBody::MemberRemove {
                member_pubkey: member_pubkey.replicate(),
            },
            ControlBody::MemberBan { member_pubkey } => ControlBody::MemberBan {
                member_pubkey: member_pubkey.replicate(),
            },
            ControlBody::MemberRolesSet { member_pubkey, role_ids } => ControlBody::MemberRolesSet {
                member_pubkey: member_pubkey.replicate(),
                role_ids: role_ids.replicate(),
            },
            ControlBody::ChannelCreate { channel_id, name, kind } => ControlBody::ChannelCreate {
                channel_id: channel_id.replicate(),
                name: name.replicate(),
                kind: kind.replicate(),
            },
            ControlBody::ChannelPermissionsSet {
                channel_id,
                allow_roles,
                deny_roles,
                allow_users,
                deny_users,
            } => ControlBody::ChannelPermissionsSet {
                channel_id: channel_id.replicate(),
                allow_roles: allow_roles.replicate(),
                deny_roles: deny_roles.replicate(),
                allow_users: allow_users.replicate(),
                deny_users: deny_users.replicate(),
            },
            ControlBody::ChannelMemberRemove {
                channel_id,
                member_pubkey,
            } => ControlBody::ChannelMemberRemove {
                channel_id: channel_id.replicate(),
                member_pubkey: member_pubkey.replicate(),
            },
        }
    }
}

impl Clone for ControlBody {
    fn clone(&self) -> (copy: Self)
        ensures
            copy@ == self@,
    {
        self.replicate()
    }
}

/// What became of an operation.
#[derive(Clone, Copy, Debug, PartialEq, Eq, Structural)]
pub enum ApplyOutcome {
    Applied,
    Duplicate,
}

impl DeepView for ApplyOutcome {
    type V = ApplyOutcome;

    open spec fn deep_view(&self) -> ApplyOutcome {
        *self
    }
}

impl Replicate for ApplyOutcome {
    fn replicate(&self) -> (copy: Self) {
        *self
    }
}

/// Why an operation was refused.
#[derive(Debug, PartialEq, Eq)]
pub enum ControlError {
    UnknownSchema(String),
    GuildExists(String),
    GuildNotFound(String),
    ChannelExists { guild_id: String, channel_id: String },
    ChannelNotFound { guild_id: String, channel_id: String },
    RoleNotFound { guild_id: String, role_id: String },
    MemberNotFound { guild_id: String, member: String },
    MemberBanned { guild_id: String, member: String },
    PermissionDenied { actor: String, permission: String },
}

/// What a [`ControlError`] holds.
#[verifier::ext_equal]
pub enum ControlErrorModel {
    UnknownSchema(Seq<char>),
    GuildExists(Seq<char>),
    GuildNotFound(Seq<char>),
    ChannelExists { guild_id: Seq<char>, channel_id: Seq<char> },
    ChannelNotFound { guild_id: Seq<char>, channel_id: Seq<char> },
    RoleNotFound { guild_id: Seq<char>, role_id: Seq<char> },
    MemberNotFound { guild_id: Seq<char>, member: Seq<char> },
    MemberBanned { guild_id: Seq<char>, member: Seq<char> },
    PermissionDenied { actor: Seq<char>, permission: Seq<char> },
}

impl DeepView for ControlError {
    type V = ControlErrorModel;

    open spec fn deep_view(&self) -> ControlErrorModel {
        match self {
            ControlError::UnknownSchema(a) => ControlErrorModel::UnknownSchema(a.deep_view()),
            ControlError::GuildExists(a) => ControlErrorModel::GuildExists(a.deep_view()),
            ControlError::GuildNotFound(a) => ControlErrorModel::GuildNotFound(a.deep_view()),
            ControlError::ChannelExists {
                guild_id,
                channel_id,
            } => ControlErrorModel::ChannelExists {
                guild_id: guild_id.deep_view(),
                channel_id: channel_id.deep_view(),
            },
            ControlError::ChannelNotFound {
                guild_id,
                channel_id,
            } => ControlErrorModel::ChannelNotFound {
                guild_id: guild_id.deep_view(),
                channel_id: channel_id.deep_view(),
            },
            ControlError::RoleNotFound { guild_id, role_id } => ControlErrorModel::RoleNotFound {
                guild_id: guild_id.deep_view(),
                role_id: role_id.deep_view(),
            },
            ControlError::MemberNotFound { guild_id, member } => ControlErrorModel::MemberNotFound {
                guild_id: guild_id.deep_view(),
                member: member.deep_view(),
            },
            ControlError::MemberBanned { guild_id, member } => ControlErrorModel::MemberBanned {
                guild_id: guild_id.deep_view(),
                member: member.deep_view(),
            },
            ControlError::PermissionDenied {
                actor,
                permission,
            } => ControlErrorModel::PermissionDenied {
                actor: actor.deep_view(),
                permission: permission.deep_view(),
            },
        }
    }
}

impl View for ControlError {
    type V = ControlErrorModel;

    open spec fn view(&self) -> ControlErrorModel {
        self.deep_view()
    }
}

impl Replicate for ControlError {
    fn replicate(&self) -> (copy: Self) {
        match self {
            ControlError::UnknownSchema(a) => ControlError::UnknownSchema(a.replicate()),
            ControlError::GuildExists(a) => ControlError::GuildExists(a.replicate()),
            ControlError::GuildNotFound(a) => ControlError::GuildNotFound(a.replicate()),
            ControlError::ChannelExists { guild_id, channel_id } => ControlError::ChannelExists {
                guild_id: guild_id.replicate(),
                channel_id: channel_id.replicate(),
            },
            ControlError::ChannelNotFound {
                guild_id,
                channel_id,
            } => ControlError::ChannelNotFound {
                guild_id: guild_id.replicate(),
                channel_id: channel_id.replicate(),
            },
            ControlError::RoleNotFound { guild_id, role_id } => ControlError::RoleNotFound {
                guild_id: guild_id.replicate(),
                role_id: role_id.replicate(),
            },
            ControlError::MemberNotFound { guild_id, member } => ControlError::MemberNotFound {
                guild_id: guild_id.replicate(),
                member: member.replicate(),
            },
            ControlError::MemberBanned { guild_id, member } => ControlError::MemberBanned {
                guild_id: guild_id.replicate(),
                member: member.replicate(),
            },
            ControlError::PermissionDenied { actor, permission } => ControlError::PermissionDenied {
                actor: actor.replicate(),
                permission: permission.replicate(),
            },
        }
    }
}

impl Clone for ControlError {
    fn clone(&self) -> (copy: Self)
        ensures
            copy@ == self@,
    {
        self.replicate()
    }
}

impl ControlEnvelope {
    /// The operation that makes a guild.
    pub fn guild_create(
        op_id: String,
        ts_ms: i64,
        guild_id: String,
        actor: String,
        name: String,
    ) -> (envelope: Self)
        ensures
            envelope@ == (ControlEnvelopeModel {
                schema: CONTROL_SCHEMA_V1@,
                guild_id: guild_id@,
                actor: actor@,
                op_id: op_id@,
                ts_ms,
                body: ControlBodyModel::GuildCreate {
                    name: name.deep_view(),
                },
            }),
    {
        ControlEnvelope {
            schema: CONTROL_SCHEMA_V1.to_owned(),
            guild_id,
            actor,
            op_id,
            ts_ms,
            body: ControlBody::GuildCreate { name },
        }
    }

    /// The operation that makes a role or replaces it.
    pub fn role_upsert(
        op_id: String,
        ts_ms: i64,
        guild_id: String,
        actor: String,
        role_id: String,
        name: String,
        permissions: u64,
        priority: i32,
    ) -> (envelope: Self)
        ensures
            envelope@ == (ControlEnvelopeModel {
                schema: CONTROL_SCHEMA_V1@,
                guild_id: guild_id@,
                actor: actor@,
                op_id: op_id@,
                ts_ms,
                body: ControlBodyModel::RoleUpsert {
                    role_id: role_id.deep_view(),
                    name: name.deep_view(),
                    permissions: permissions.deep_view(),
                    priority: priority.deep_view(),
                },
            }),
    {
        ControlEnvelope {
            schema: CONTROL_SCHEMA_V1.to_owned(),
            guild_id,
            actor,
            op_id,
            ts_ms,
            body: ControlBody::RoleUpsert { role_id, name, permissions, priority },
        }
    }

    /// The operation that adds a member.
    pub fn member_add(
        op_id: String,
        ts_ms: i64,
        guild_id: String,
        actor: String,
        member_pubkey: String,
    ) -> (envelope: Self)
        ensures
            envelope@ == (ControlEnvelopeModel {
                schema: CONTROL_SCHEMA_V1@,
                guild_id: guild_id@,
                actor: actor@,
                op_id: op_id@,
                ts_ms,
                body: ControlBodyModel::MemberAdd {
                    member_pubkey: member_pubkey.deep_view(),
                },
            }),
    {
        ControlEnvelope {
            schema: CONTROL_SCHEMA_V1.to_owned(),
            guild_id,
            actor,
            op_id,
            ts_ms,
            body: ControlBody::MemberAdd { member_pubkey },
        }
    }

    /// The operation that removes a member.
    pub fn member_remove(
        op_id: String,
        ts_ms: i64,
        guild_id: String,
        actor: String,
        member_pubkey: String,
    ) -> (envelope: Self)
        ensures
            envelope@ == (ControlEnvelopeModel {
                schema: CONTROL_SCHEMA_V1@,
                guild_id: guild_id@,
                actor: actor@,
                op_id: op_id@,
                ts_ms,
                body: ControlBodyModel::MemberRemove {
                    member_pubkey: member_pubkey.deep_view(),
                },
            }),
    {
        ControlEnvelope {
            schema: CONTROL_SCHEMA_V1.to_owned(),
            guild_id,
            actor,
            op_id,
            ts_ms,
            body: ControlBody::MemberRemove { member_pubkey },
        }
    }

    /// The operation that removes a member for good.
    pub fn member_ban(
        op_id: String,
        ts_ms: i64,
        guild_id: String,
        actor: String,
        member_pubkey: String,
    ) -> (envelope: Self)
        ensures
            envelope@ == (ControlEnvelopeModel {
                schema: CONTROL_SCHEMA_V1@,
                guild_id: guild_id@,
                actor: actor@,
                op_id: op_id@,
                ts_ms,
                body: ControlBodyModel::MemberBan {
                    member_pubkey: member_pubkey.deep_view(),
                },
            }),
    {
        ControlEnvelope {
            schema: CONTROL_SCHEMA_V1.to_owned(),
            guild_id,
            actor,
            op_id,
            ts_ms,
            body: ControlBody::MemberBan { member_pubkey },
        }
    }

    /// The operation that sets a member's roles.
    pub fn member_roles_set(
        op_id: String,
        ts_ms: i64,
        guild_id: String,
        actor: String,
        member_pubkey: String,
        role_ids: Vec<String>,
    ) -> (envelope: Self)
        ensures
            envelope@ == (ControlEnvelopeModel {
                schema: CONTROL_SCHEMA_V1@,
                guild_id: guild_id@,
                actor: actor@,
                op_id: op_id@,
                ts_ms,
                body: ControlBodyModel::MemberRolesSet {
                    member_pubkey: member_pubkey.deep_view(),
                    role_ids: role_ids.deep_view(),
                },
            }),
    {
        ControlEnvelope {
            schema: CONTROL_SCHEMA_V1.to_owned(),
            guild_id,
            actor,
            op_id,
            ts_ms,
            body: ControlBody::MemberRolesSet { member_pubkey, role_ids },
        }
    }

    /// The operation that makes a channel.
    pub fn channel_create(
        op_id: String,
        ts_ms: i64,
        guild_id: String,
        actor: String,
        channel_id: String,
        name: String,
        kind: ChannelKind,
    ) -> (envelope: Self)
        ensures
            envelope@ == (ControlEnvelopeModel {
                schema: CONTROL_SCHEMA_V1@,
                guild_id: guild_id@,
                actor: actor@,
                op_id: op_id@,
                ts_ms,
                body: ControlBodyModel::ChannelCreate {
                    channel_id: channel_id.deep_view(),
                    name: name.deep_view(),
                    kind: kind.deep_view(),
                },
            }),
    {
        ControlEnvelope {
            schema: CONTROL_SCHEMA_V1.to_owned(),
            guild_id,
            actor,
            op_id,
            ts_ms,
            body: ControlBody::ChannelCreate { channel_id, name, kind },
        }
    }

    /// The operation that replaces a channel's policy.
    pub fn channel_permissions_set(
        op_id: String,
        ts_ms: i64,
        guild_id: String,
        actor: String,
        channel_id: String,
        allow_roles: Vec<String>,
        deny_roles: Vec<String>,
        allow_users: Vec<String>,
        deny_users: Vec<String>,
    ) -> (envelope: Self)
        ensures
            envelope@ == (ControlEnvelopeModel {
                schema: CONTROL_SCHEMA_V1@,
                guild_id: guild_id@,
                actor: actor@,
                op_id: op_id@,
                ts_ms,
                body: ControlBodyModel::ChannelPermissionsSet {
                    channel_id: channel_id.deep_view(),
                    allow_roles: allow_roles.deep_view(),
                    deny_roles: deny_roles.deep_view(),
                    allow_users: allow_users.deep_view(),
                    deny_users: deny_users.deep_view(),
                },
            }),
    {
        ControlEnvelope {
            schema: CONTROL_SCHEMA_V1.to_owned(),
            guild_id,
            actor,
            op_id,
            ts_ms,
            body: ControlBody::ChannelPermissionsSet { channel_id, allow_roles, deny_roles, allow_users, deny_users },
        }
    }

    /// The operation that shuts one member out of a channel.
    pub fn channel_member_remove(
        op_id: String,
        ts_ms: i64,
        guild_id: String,
        actor: String,
        channel_id: String,
        member_pubkey: String,
    ) -> (envelope: Self)
        ensures
            envelope@ == (ControlEnvelopeModel {
                schema: CONTROL_SCHEMA_V1@,
                guild_id: guild_id@,
                actor: actor@,
                op_id: op_id@,
                ts_ms,
                body: ControlBodyModel::ChannelMemberRemove {
                    channel_id: channel_id.deep_view(),
                    member_pubkey: member_pubkey.deep_view(),
                },
            }),
    {
        ControlEnvelope {
            schema: CONTROL_SCHEMA_V1.to_owned(),
            guild_id,
            actor,
            op_id,
            ts_ms,
            body: ControlBody::ChannelMemberRemove { channel_id, member_pubkey },
        }
    }
}

/// The refusal of an actor who lacks a permission.
pub open spec fn denied(actor: Seq<char>, permission: Permission) -> ControlErrorModel {
    ControlErrorModel::PermissionDenied { actor, permission: permission_name(permission) }
}

/// The guild that a creation makes: its creator is the only member, with the
/// owner's role and the one that everybody has; there is no channel yet.
pub open spec fn fresh_guild(
    guild_id: Seq<char>,
    name: Seq<char>,
    creator: Seq<char>,
) -> GuildStateModel {
    GuildStateModel {
        guild_id,
        name,
        created_by: creator,
        members: set![creator],
        banned: Set::empty(),
        roles: map![
            ROLE_OWNER@ => RoleStateModel {
                role_id: ROLE_OWNER@,
                name: "Owner"@,
                permissions: 2047,
                priority: 100,
            },
            ROLE_EVERYONE@ => RoleStateModel {
                role_id: ROLE_EVERYONE@,
                name: "Everyone"@,
                permissions: 3,
                priority: 0,
            },
        ],
        member_roles: map![creator => set![ROLE_OWNER@, ROLE_EVERYONE@]],
        channels: Map::empty(),
    }
}

/// The first of `role_ids` that the guild does not have.
pub open spec fn first_missing_role(
    guild: GuildStateModel,
    role_ids: Seq<Seq<char>>,
) -> Option<Seq<char>>
    decreases role_ids.len(),
{
    if role_ids.len() == 0 {
        None
    } else if !guild.roles.contains_key(role_ids[0]) {
        Some(role_ids[0])
    } else {
        first_missing_role(guild, role_ids.drop_first())
    }
}

/// The guild without a member and the member's roles.
pub open spec fn without_member(guild: GuildStateModel, member: Seq<char>) -> GuildStateModel {
    GuildStateModel {
        members: guild.members.remove(member),
        member_roles: guild.member_roles.remove(member),
        ..guild
    }
}

/// The guild with another policy for one of its channels.
pub open spec fn with_policy(
    guild: GuildStateModel,
    channel_id: Seq<char>,
    policy: ChannelPolicyModel,
) -> GuildStateModel {
    GuildStateModel {
        channels: guild.channels.insert(
            channel_id,
            ChannelStateModel { policy, ..guild.channels[channel_id] },
        ),
        ..guild
    }
}

/// The policy of a channel that has just been made: no exceptions.
pub open spec fn open_policy() -> ChannelPolicyModel {
    ChannelPolicyModel {
        allow_roles: Set::empty(),
        deny_roles: Set::empty(),
        allow_users: Set::empty(),
        deny_users: Set::empty(),
    }
}

/// What `actor` needs for an operation on a guild that is there.
pub open spec fn needed_permission(body: ControlBodyModel) -> Permission {
    match body {
        ControlBodyModel::GuildCreate { .. } => Permission::Administrator,
        ControlBodyModel::RoleUpsert { .. } => Permission::ManageRoles,
        ControlBodyModel::MemberAdd { .. } => Permission::ManageRoles,
        ControlBodyModel::MemberRemove { .. } => Permission::KickMembers,
        ControlBodyModel::MemberBan { .. } => Permission::BanMembers,
        ControlBodyModel::MemberRolesSet { .. } => Permission::ManageRoles,
        ControlBodyModel::ChannelCreate { .. } => Permission::ManageChannels,
        ControlBodyModel::ChannelPermissionsSet { .. } => Permission::ManageChannels,
        ControlBodyModel::ChannelMemberRemove { .. } => Permission::ManageChannels,
    }
}

/// What a permitted operation makes of a guild.
pub open spec fn guild_change(
    guild: GuildStateModel,
    guild_id: Seq<char>,
    body: ControlBodyModel,
) -> Result<GuildStateModel, ControlErrorModel> {
    match body {
        ControlBodyModel::GuildCreate { .. } => Err(ControlErrorModel::GuildExists(guild_id)),
        ControlBodyModel::RoleUpsert { role_id, name, permissions, priority } => Ok(
            GuildStateModel {
                roles: guild.roles.insert(
                    role_id,
                    RoleStateModel { role_id, name, permissions, priority },
                ),
                ..guild
            },
        ),
        ControlBodyModel::MemberAdd { member_pubkey } => if guild.banned.contains(member_pubkey) {
            Err(ControlErrorModel::MemberBanned { guild_id, member: member_pubkey })
        } else {
            Ok(
                GuildStateModel {
                    members: guild.members.insert(member_pubkey),
                    member_roles: guild.member_roles.insert(
                        member_pubkey,
                        crate::permissions::roles_of(guild, member_pubkey).insert(ROLE_EVERYONE@),
                    ),
                    ..guild
                },
            )
        },
        ControlBodyModel::MemberRemove { member_pubkey } => if !guild.members.contains(
            member_pubkey,
        ) {
            Err(ControlErrorModel::MemberNotFound { guild_id, member: member_pubkey })
        } else {
            Ok(without_member(guild, member_pubkey))
        },
        ControlBodyModel::MemberBan { member_pubkey } => Ok(
            GuildStateModel {
                banned: guild.banned.insert(member_pubkey),
                ..without_member(guild, member_pubkey)
            },
        ),
        ControlBodyModel::MemberRolesSet { member_pubkey, role_ids } => if !guild.members.contains(
            member_pubkey,
        ) {
            Err(ControlErrorModel::MemberNotFound { guild_id, member: member_pubkey })
        } else {
            match first_missing_role(guild, role_ids) {
                Some(role_id) => Err(ControlErrorModel::RoleNotFound { guild_id, role_id }),
                None => Ok(
                    GuildStateModel {
                        member_roles: guild.member_roles.insert(
                            member_pubkey,
                            role_ids.to_set().insert(ROLE_EVERYONE@),
                        ),
                        ..guild
                    },
                ),
            }
        },
        ControlBodyModel::ChannelCreate { channel_id, name, kind } => if guild.channels.contains_key(
            channel_id,
        ) {
            Err(ControlErrorModel::ChannelExists { guild_id, channel_id })
        } else {
            Ok(
                GuildStateModel {
                    channels: guild.channels.insert(
                        channel_id,
                        ChannelStateModel {
                            channel_id,
                            guild_id,
                            name,
                            kind,
                            policy: open_policy(),
                        },
                    ),
                    ..guild
                },
            )
        },
        ControlBodyModel::ChannelPermissionsSet {
            channel_id,
            allow_roles,
            deny_roles,
            allow_users,
            deny_users,
        } => if !guild.channels.contains_key(channel_id) {
            Err(ControlErrorModel::ChannelNotFound { guild_id, channel_id })
        } else {
            Ok(
                with_policy(
                    guild,
                    channel_id,
                    ChannelPolicyModel {
                        allow_roles: allow_roles.to_set(),
                        deny_roles: deny_roles.to_set(),
                        allow_users: allow_users.to_set(),
                        deny_users: deny_users.to_set(),
                    },
                ),
            )
        },
        ControlBodyModel::ChannelMemberRemove { channel_id, member_pubkey } => if !guild.channels.contains_key(
            channel_id,
        ) {
            Err(ControlErrorModel::ChannelNotFound { guild_id, channel_id })
        } else {
            let policy = guild.channels[channel_id].policy;
            Ok(
                with_policy(
                    guild,
                    channel_id,
                    ChannelPolicyModel {
                        deny_users: policy.deny_users.insert(member_pubkey),
                        ..policy
                    },
                ),
            )
        },
    }
}

/// The guild that an operation leaves, or why it is refused: the guild must be
/// there (or, for a creation, must not be), and the actor must be permitted.
pub open spec fn guild_after(
    state: ControlStateModel,
    op: ControlEnvelopeModel,
) -> Result<GuildStateModel, ControlErrorModel> {
    let known = state.guilds.contains_key(op.guild_id);
    match op.body {
        ControlBodyModel::GuildCreate { name } => if known {
            Err(ControlErrorModel::GuildExists(op.guild_id))
        } else {
            Ok(fresh_guild(op.guild_id, name, op.actor))
        },
        body => if !known {
            Err(ControlErrorModel::GuildNotFound(op.guild_id))
        } else {
            let guild = state.guilds[op.guild_id];
            let permission = needed_permission(body);
            if !permitted(guild, op.actor, None, permission) {
                Err(denied(op.actor, permission))
            } else {
                guild_change(guild, op.guild_id, body)
            }
        },
    }
}

/// What applying an operation returns.
pub open spec fn apply_result(
    state: ControlStateModel,
    op: ControlEnvelopeModel,
) -> Result<ApplyOutcome, ControlErrorModel> {
    if op.schema != CONTROL_SCHEMA_V1@ {
        Err(ControlErrorModel::UnknownSchema(op.schema))
    } else if state.seen_op_ids.contains(op.op_id) {
        Ok(ApplyOutcome::Duplicate)
    } else {
        match guild_after(state, op) {
            Ok(_) => Ok(ApplyOutcome::Applied),
            Err(error) => Err(error),
        }
    }
}

/// The state after an operation was offered to it: only one that is applied
/// changes anything, namely its guild, and its id is recorded.
pub open spec fn apply_state(
    state: ControlStateModel,
    op: ControlEnvelopeModel,
) -> ControlStateModel {
    if apply_result(state, op) == Ok::<ApplyOutcome, ControlErrorModel>(ApplyOutcome::Applied) {
        ControlStateModel {
            guilds: state.guilds.insert(op.guild_id, guild_after(state, op)->Ok_0),
            seen_op_ids: state.seen_op_ids.insert(op.op_id),
        }
    } else {
        state
    }
}

/// The state without guilds or operations.
pub open spec fn no_guilds() -> ControlStateModel {
    ControlStateModel { guilds: Map::empty(), seen_op_ids: Set::empty() }
}

impl ControlError {
    /// The refusal in words.
    pub open spec fn words(error: ControlErrorModel) -> Seq<char> {
        match error {
            ControlErrorModel::UnknownSchema(schema) => "unsupported schema: "@ + schema,
            ControlErrorModel::GuildExists(id) => "guild already exists: "@ + id,
            ControlErrorModel::GuildNotFound(id) => "guild not found: "@ + id,
            ControlErrorModel::ChannelExists { guild_id, channel_id } => "channel already exists: "@
                + guild_id + "/"@ + channel_id,
            ControlErrorModel::ChannelNotFound { guild_id, channel_id } => "channel not found: "@
                + guild_id + "/"@ + channel_id,
            ControlErrorModel::RoleNotFound { guild_id, role_id } => "role not found: "@ + guild_id
                + "/"@ + role_id,
            ControlErrorModel::MemberNotFound { guild_id, member } => "member not found: "@
                + guild_id + "/"@ + member,
            ControlErrorModel::MemberBanned { guild_id, member } => "member is banned: "@ + guild_id
                + "/"@ + member,
            ControlErrorModel::PermissionDenied { actor, permission } => "permission denied: actor "@
                + actor + " lacks "@ + permission,
        }
    }

    /// The refusal in words.
    pub fn message(&self) -> (text: String)
        ensures
            text@ == ControlError::words(self@),
    {
        match self {
            ControlError::UnknownSchema(schema) => "unsupported schema: ".to_owned().concat(
                schema.as_str(),
            ),
            ControlError::GuildExists(id) => {
                "guild already exists: ".to_owned().concat(id.as_str())
            },
            ControlError::GuildNotFound(id) => "guild not found: ".to_owned().concat(id.as_str()),
            ControlError::ChannelExists { guild_id, channel_id } => "channel already exists: ".to_owned().concat(
            guild_id.as_str()).concat("/").concat(channel_id.as_str()),
            ControlError::ChannelNotFound { guild_id, channel_id } => "channel not found: ".to_owned().concat(
            guild_id.as_str()).concat("/").concat(channel_id.as_str()),
            ControlError::RoleNotFound { guild_id, role_id } => "role not found: ".to_owned().concat(
            guild_id.as_str()).concat("/").concat(role_id.as_str()),
            ControlError::MemberNotFound { guild_id, member } => "member not found: ".to_owned().concat(
            guild_id.as_str()).concat("/").concat(member.as_str()),
            ControlError::MemberBanned { guild_id, member } => "member is banned: ".to_owned().concat(
            guild_id.as_str()).concat("/").concat(member.as_str()),
            ControlError::PermissionDenied { actor, permission } => "permission denied: actor ".to_owned().concat(
            actor.as_str()).concat(" lacks ").concat(permission.as_str()),
        }
    }
}

impl Default for ControlState {
    fn default() -> (state: Self)
        ensures
            state@ == no_guilds(),
    {
        ControlState { guilds: OrdMap::new(), seen_op_ids: OrdSet::new() }
    }
}

impl Default for ChannelPolicy {
    fn default() -> (policy: Self)
        ensures
            policy@ == open_policy(),
    {
        ChannelPolicy {
            allow_roles: OrdSet::new(),
            deny_roles: OrdSet::new(),
            allow_users: OrdSet::new(),
            deny_users: OrdSet::new(),
        }
    }
}

/// Refuses an actor who lacks a permission.
pub fn require_permission(
    guild: &GuildState,
    actor: &str,
    channel_id: Option<&str>,
    permission: Permission,
) -> (result: Result<(), ControlError>)
    ensures
        outcome(result) == if permitted(guild@, actor@, optional_text(channel_id), permission) {
            Ok::<(), ControlErrorModel>(())
        } else {
            Err(denied(actor@, permission))
        },
{
    if has_permission(guild, actor, channel_id, permission) {
        return Ok(());
    }
    Err(
        ControlError::PermissionDenied {
            actor: actor.to_owned(),
            permission: permission_text(permission),
        },
    )
}

/// A guild with its creator in it.
pub fn new_guild(guild_id: String, name: String, creator: String) -> (guild: GuildState)
    ensures
        guild@ == fresh_guild(guild_id@, name@, creator@),
{
    let mut members: OrdSet<String> = OrdSet::new();
    members.insert(creator.clone());
    let everything: Vec<u64> = vec![
        PERM_VIEW_CHANNEL,
        PERM_SEND_MESSAGE,
        PERM_MANAGE_MESSAGES,
        PERM_MANAGE_CHANNELS,
        PERM_MANAGE_ROLES,
        PERM_KICK_MEMBERS,
        PERM_BAN_MEMBERS,
        PERM_ADMINISTRATOR,
        PERM_CONNECT_VOICE,
        PERM_SPEAK_VOICE,
        PERM_MUTE_MEMBERS,
    ];
    let basics: Vec<u64> = vec![PERM_VIEW_CHANNEL, PERM_SEND_MESSAGE];
    let owner_bits: u64 = permission_bits(everything.as_slice());
    let everyone_bits: u64 = permission_bits(basics.as_slice());
    proof {
        reveal_with_fuel(union_of_bits, 12);
        assert(owner_bits == 0u64 | 1 | 2 | 4 | 8 | 16 | 32 | 64 | 128 | 256 | 512 | 1024);
        assert((0u64 | 1 | 2 | 4 | 8 | 16 | 32 | 64 | 128 | 256 | 512 | 1024) == 2047u64) by (bit_vector);
        assert(everyone_bits == 0u64 | 1 | 2);
        assert((0u64 | 1 | 2) == 3u64) by (bit_vector);
    }
    let mut roles: OrdMap<String, RoleState> = OrdMap::new();
    roles.insert(
        ROLE_OWNER.to_owned(),
        RoleState {
            role_id: ROLE_OWNER.to_owned(),
            name: "Owner".to_owned(),
            permissions: owner_bits,
            priority: 100,
        },
    );
    roles.insert(
        ROLE_EVERYONE.to_owned(),
        RoleState {
            role_id: ROLE_EVERYONE.to_owned(),
            name: "Everyone".to_owned(),
            permissions: everyone_bits,
            priority: 0,
        },
    );
    let mut owned: OrdSet<String> = OrdSet::new();
    owned.insert(ROLE_OWNER.to_owned());
    owned.insert(ROLE_EVERYONE.to_owned());
    let mut member_roles: OrdMap<String, OrdSet<String>> = OrdMap::new();
    member_roles.insert(creator.clone(), owned);
    GuildState {
        guild_id,
        name,
        created_by: creator,
        members,
        banned: OrdSet::new(),
        roles,
        member_roles,
        channels: OrdMap::new(),
    }
}

impl GuildState {
    /// The first of `role_ids` that the guild does not have.
    fn missing_role(&self, role_ids: &Vec<String>) -> (missing: Option<String>)
        ensures
            missing.deep_view() == first_missing_role(self@, role_ids.deep_view()),
    {
        let mut i: usize = 0;
        proof {
            assert(role_ids.deep_view().skip(0) =~= role_ids.deep_view());
        }
        while i < role_ids.len()
            invariant
                i <= role_ids.len(),
                first_missing_role(self@, role_ids.deep_view()) == first_missing_role(
                    self@,
                    role_ids.deep_view().skip(i as int),
                ),
            decreases role_ids.len() - i,
        {
            proof {
                assert(role_ids.deep_view().skip(i as int).drop_first()
                    =~= role_ids.deep_view().skip(i + 1));
            }
            if !self.roles.contains_key(&role_ids[i]) {
                return Some(role_ids[i].clone());
            }
            i += 1;
        }
        None
    }

    /// Takes a member and the member's roles out.
    fn drop_member(&mut self, member: &String)
        ensures
            final(self)@ == without_member(old(self)@, member@),
    {
        self.members.remove(member);
        let _ = self.member_roles.take(member);
    }

    /// Gives a channel another policy.
    fn set_policy(&mut self, channel_id: &String, policy: ChannelPolicy)
        requires
            old(self)@.channels.contains_key(channel_id@),
        ensures
            final(self)@ == with_policy(old(self)@, channel_id@, policy@),
    {
        if let Some(channel) = self.channels.take(channel_id) {
            let mut channel = channel;
            channel.policy = policy;
            self.channels.insert(channel_id.clone(), channel);
        }
    }

    /// Carries out a permitted operation; one that is refused changes nothing.
    fn change(&mut self, guild_id: String, body: ControlBody) -> (result: Result<(), ControlError>)
        ensures
            match guild_change(old(self)@, guild_id@, body@) {
                Ok(guild) => result is Ok && final(self)@ == guild,
                Err(error) => outcome(result) == Err::<(), ControlErrorModel>(error) && final(self)@
                    == old(self)@,
            },
    {
        match body {
            ControlBody::GuildCreate { .. } => Err(ControlError::GuildExists(guild_id)),
            ControlBody::RoleUpsert { role_id, name, permissions, priority } => {
                self.roles.insert(
                    role_id.clone(),
                    RoleState { role_id, name, permissions, priority },
                );
                Ok(())
            },
            ControlBody::MemberAdd { member_pubkey } => {
                if self.banned.contains(&member_pubkey) {
                    return Err(ControlError::MemberBanned { guild_id, member: member_pubkey });
                }
                let mut roles = match self.member_roles.get(&member_pubkey) {
                    Some(roles) => roles.replicate(),
                    None => OrdSet::new(),
                };
                roles.insert(ROLE_EVERYONE.to_owned());
                self.members.insert(member_pubkey.clone());
                self.member_roles.insert(member_pubkey, roles);
                Ok(())
            },
            ControlBody::MemberRemove { member_pubkey } => {
                if !self.members.contains(&member_pubkey) {
                    return Err(ControlError::MemberNotFound { guild_id, member: member_pubkey });
                }
                self.drop_member(&member_pubkey);
                Ok(())
            },
            ControlBody::MemberBan { member_pubkey } => {
                self.drop_member(&member_pubkey);
                self.banned.insert(member_pubkey);
                Ok(())
            },
            ControlBody::MemberRolesSet { member_pubkey, role_ids } => {
                if !self.members.contains(&member_pubkey) {
                    return Err(ControlError::MemberNotFound { guild_id, member: member_pubkey });
                }
                if let Some(role_id) = self.missing_role(&role_ids) {
                    return Err(ControlError::RoleNotFound { guild_id, role_id });
                }
                let mut roles = OrdSet::from_vec(role_ids);
                roles.insert(ROLE_EVERYONE.to_owned());
                self.member_roles.insert(member_pubkey, roles);
                Ok(())
            },
            ControlBody::ChannelCreate { channel_id, name, kind } => {
                if self.channels.contains_key(&channel_id) {
                    return Err(ControlError::ChannelExists { guild_id, channel_id });
                }
                self.channels.insert(
                    channel_id.clone(),
                    ChannelState {
                        channel_id,
                        guild_id,
                        name,
                        kind,
                        policy: ChannelPolicy::default(),
                    },
                );
                Ok(())
            },
            ControlBody::ChannelPermissionsSet {
                channel_id,
                allow_roles,
                deny_roles,
                allow_users,
                deny_users,
            } => {
                if !self.channels.contains_key(&channel_id) {
                    return Err(ControlError::ChannelNotFound { guild_id, channel_id });
                }
                self.set_policy(
                    &channel_id,
                    ChannelPolicy {
                        allow_roles: OrdSet::from_vec(allow_roles),
                        deny_roles: OrdSet::from_vec(deny_roles),
                        allow_users: OrdSet::from_vec(allow_users),
                        deny_users: OrdSet::from_vec(deny_users),
                    },
                );
                Ok(())
            },
            ControlBody::ChannelMemberRemove { channel_id, member_pubkey } => {
                let mut policy = match self.channels.get(&channel_id) {
                    None => {
                        return Err(ControlError::ChannelNotFound { guild_id, channel_id });
                    },
                    Some(channel) => channel.policy.replicate(),
                };
                policy.deny_users.insert(member_pubkey);
                self.set_policy(&channel_id, policy);
                Ok(())
            },
        }
    }
}

impl ControlBody {
    /// What the actor needs for this operation.
    fn needs(&self) -> (permission: Permission)
        ensures
            permission == needed_permission(self@),
    {
        match self {
            ControlBody::GuildCreate { .. } => Permission::Administrator,
            ControlBody::RoleUpsert { .. } => Permission::ManageRoles,
            ControlBody::MemberAdd { .. } => Permission::ManageRoles,
            ControlBody::MemberRemove { .. } => Permission::KickMembers,
            ControlBody::MemberBan { .. } => Permission::BanMembers,
            ControlBody::MemberRolesSet { .. } => Permission::ManageRoles,
            ControlBody::ChannelCreate { .. } => Permission::ManageChannels,
            ControlBody::ChannelPermissionsSet { .. } => Permission::ManageChannels,
            ControlBody::ChannelMemberRemove { .. } => Permission::ManageChannels,
        }
    }
}

impl ControlState {
    /// Applies an operation, unless it was applied before or is refused.
    pub fn apply(&mut self, envelope: ControlEnvelope) -> (result: Result<
        ApplyOutcome,
        ControlError,
    >)
        ensures
            outcome(result) == apply_result(old(self)@, envelope@),
            final(self)@ == apply_state(old(self)@, envelope@),
    {
        let ControlEnvelope { schema, guild_id, actor, op_id, ts_ms: _, body } = envelope;
        if schema != CONTROL_SCHEMA_V1.to_owned() {
            return Err(ControlError::UnknownSchema(schema));
        }
        if self.seen_op_ids.contains(&op_id) {
            return Ok(ApplyOutcome::Duplicate);
        }
        if let ControlBody::GuildCreate { name } = body {
            if self.guilds.contains_key(&guild_id) {
                return Err(ControlError::GuildExists(guild_id));
            }
            let guild = new_guild(guild_id.clone(), name, actor);
            self.guilds.insert(guild_id, guild);
        } else {
            let permission = body.needs();
            match self.guilds.get(&guild_id) {
                None => {
                    return Err(ControlError::GuildNotFound(guild_id));
                },
                Some(guild) => {
                    if let Err(error) = require_permission(guild, actor.as_str(), None, permission) {
                        return Err(error);
                    }
                },
            }
            if let Some(guild) = self.guilds.take(&guild_id) {
                let mut guild = guild;
                let ghost before = guild@;
                let result = guild.change(guild_id.clone(), body);
                self.guilds.insert(guild_id, guild);
                proof {
                    assert(old(self)@.guilds.remove(guild_id@).insert(guild_id@, before)
                        =~= old(self)@.guilds);
                }
                if let Err(error) = result {
                    return Err(error);
                }
            }
        }
        self.seen_op_ids.insert(op_id);
        Ok(ApplyOutcome::Applied)
    }
}

} // verus!
