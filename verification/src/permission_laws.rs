//! What a permission rests on: the roles that a member holds, and the lists of a
//! channel.
use vstd::prelude::*;
use crate::control::GuildStateModel;
use crate::permissions::{
    channel_ruling, overlap, permitted, roles_grant, roles_of, spec_permission_bit, Permission,
};

verus! {

/// Whether a user holds a role, as the guild has it written down.
pub open spec fn holds(guild: GuildStateModel, user: Seq<char>, role: Seq<char>) -> bool {
    guild.member_roles.contains_key(user) && guild.member_roles[user].contains(role)
}

/// Whether a role of a guild has a bit set.
pub open spec fn role_has(guild: GuildStateModel, role: Seq<char>, bit: u64) -> bool {
    guild.roles.contains_key(role) && guild.roles[role].permissions & bit != 0
}

/// Whether none of a user's roles makes the user an administrator.
pub open spec fn no_administrator(guild: GuildStateModel, user: Seq<char>) -> bool {
    forall|role: Seq<char>| #[trigger] holds(guild, user, role) ==> !role_has(guild, role, 128)
}

proof fn lemma_no_administrator(guild: GuildStateModel, user: Seq<char>)
    requires
        no_administrator(guild, user),
    ensures
        !roles_grant(guild, roles_of(guild, user), 128),
{
    if roles_grant(guild, roles_of(guild, user), 128) {
        let role = choose|role: Seq<char>| #[trigger]
            roles_of(guild, user).contains(role) && guild.roles.contains_key(role) && (
            guild.roles[role].permissions & 128) != 0;
        assert(holds(guild, user, role));
    }
}

proof fn lemma_role_grants(guild: GuildStateModel, user: Seq<char>, role: Seq<char>, bit: u64)
    requires
        holds(guild, user, role),
        role_has(guild, role, bit),
    ensures
        roles_grant(guild, roles_of(guild, user), bit),
{
    assert(roles_of(guild, user).contains(role));
}

/// The permissions have the bits that are written into logs: each its own.
pub proof fn permission_bits_are_fixed(a: Permission, b: Permission)
    ensures
        spec_permission_bit(Permission::ViewChannel) == 1,
        spec_permission_bit(Permission::SendMessage) == 2,
        spec_permission_bit(Permission::ManageMessages) == 4,
        spec_permission_bit(Permission::ManageChannels) == 8,
        spec_permission_bit(Permission::ManageRoles) == 16,
        spec_permission_bit(Permission::KickMembers) == 32,
        spec_permission_bit(Permission::BanMembers) == 64,
        spec_permission_bit(Permission::Administrator) == 128,
        spec_permission_bit(Permission::ConnectVoice) == 256,
        spec_permission_bit(Permission::SpeakVoice) == 512,
        spec_permission_bit(Permission::MuteMembers) == 1024,
        a != b ==> spec_permission_bit(a) != spec_permission_bit(b),
{
}

/// A role that makes an administrator allows its holder everything everywhere, as long
/// as the holder is a member.
pub proof fn administrator_role_allows_everything(
    guild: GuildStateModel,
    user: Seq<char>,
    role: Seq<char>,
    channel_id: Option<Seq<char>>,
    permission: Permission,
)
    requires
        guild.members.contains(user),
        holds(guild, user, role),
        role_has(guild, role, 128),
    ensures
        permitted(guild, user, channel_id, permission),
{
    lemma_role_grants(guild, user, role, 128);
}

/// Who is named in a channel's list of denied users may do nothing there, whatever else
/// allows it, but for an administrator.
pub proof fn denied_user_may_nothing(
    guild: GuildStateModel,
    user: Seq<char>,
    channel_id: Seq<char>,
    permission: Permission,
)
    requires
        no_administrator(guild, user),
        guild.channels.contains_key(channel_id),
        guild.channels[channel_id].policy.deny_users.contains(user),
    ensures
        !permitted(guild, user, Some(channel_id), permission),
{
    lemma_no_administrator(guild, user);
}

/// A member who is named in a channel's list of allowed users, and not in that of denied
/// ones, may do everything there, whatever roles are denied.
pub proof fn allowed_user_may_everything(
    guild: GuildStateModel,
    user: Seq<char>,
    channel_id: Seq<char>,
    permission: Permission,
)
    requires
        guild.members.contains(user),
        guild.channels.contains_key(channel_id),
        guild.channels[channel_id].policy.allow_users.contains(user),
        !guild.channels[channel_id].policy.deny_users.contains(user),
    ensures
        permitted(guild, user, Some(channel_id), permission),
{
}

/// A member who is no administrator, is not named among a channel's allowed users and
/// holds a role that the channel denies may do nothing there, whatever roles are allowed
/// and whatever the member's roles grant.
pub proof fn denied_role_may_nothing(
    guild: GuildStateModel,
    user: Seq<char>,
    channel_id: Seq<char>,
    role: Seq<char>,
    permission: Permission,
)
    requires
        no_administrator(guild, user),
        guild.channels.contains_key(channel_id),
        !guild.channels[channel_id].policy.allow_users.contains(user),
        holds(guild, user, role),
        guild.channels[channel_id].policy.deny_roles.contains(role),
    ensures
        !permitted(guild, user, Some(channel_id), permission),
{
    lemma_no_administrator(guild, user);
    assert(roles_of(guild, user).contains(role));
    assert(overlap(roles_of(guild, user), guild.channels[channel_id].policy.deny_roles));
}

/// A member who is not denied by name, holds no role that a channel denies and holds one
/// that it allows may do everything there.
pub proof fn allowed_role_may_everything(
    guild: GuildStateModel,
    user: Seq<char>,
    channel_id: Seq<char>,
    role: Seq<char>,
    permission: Permission,
)
    requires
        guild.members.contains(user),
        guild.channels.contains_key(channel_id),
        !guild.channels[channel_id].policy.deny_users.contains(user),
        forall|r: Seq<char>| #[trigger]
            holds(guild, user, r) ==> !guild.channels[channel_id].policy.deny_roles.contains(r),
        holds(guild, user, role),
        guild.channels[channel_id].policy.allow_roles.contains(role),
    ensures
        permitted(guild, user, Some(channel_id), permission),
{
    let policy = guild.channels[channel_id].policy;
    let roles = roles_of(guild, user);
    if overlap(roles, policy.deny_roles) {
        let r = choose|r: Seq<char>| #[trigger] roles.contains(r) && policy.deny_roles.contains(r);
        assert(holds(guild, user, r));
    }
    assert(roles.contains(role));
    assert(overlap(roles, policy.allow_roles));
}

/// Whether a channel's lists name a user, or a role that the user holds.
pub open spec fn named_in_channel(
    guild: GuildStateModel,
    user: Seq<char>,
    channel_id: Seq<char>,
) -> bool {
    let policy = guild.channels[channel_id].policy;
    ||| policy.deny_users.contains(user)
    ||| policy.allow_users.contains(user)
    ||| exists|role: Seq<char>| #[trigger]
        holds(guild, user, role) && (policy.deny_roles.contains(role)
            || policy.allow_roles.contains(role))
}

/// Where no channel is asked about, or one that is not there, or one whose lists name
/// neither the user nor a role of the user, exactly the members may do something who
/// hold a role of the guild with its bit, or with the administrator's.
pub proof fn roles_decide_without_a_ruling(
    guild: GuildStateModel,
    user: Seq<char>,
    channel_id: Option<Seq<char>>,
    permission: Permission,
)
    requires
        channel_id matches Some(id) ==> guild.channels.contains_key(id) ==> !named_in_channel(
            guild,
            user,
            id,
        ),
    ensures
        permitted(guild, user, channel_id, permission) <==> guild.members.contains(user) && exists|
            role: Seq<char>,
        | #[trigger]
            holds(guild, user, role) && (role_has(guild, role, 128) || role_has(
                guild,
                role,
                spec_permission_bit(permission),
            )),
{
    let roles = roles_of(guild, user);
    let bit = spec_permission_bit(permission);
    if let Some(id) = channel_id {
        if guild.channels.contains_key(id) {
            let policy = guild.channels[id].policy;
            if overlap(roles, policy.deny_roles) {
                let r = choose|r: Seq<char>| #[trigger]
                    roles.contains(r) && policy.deny_roles.contains(r);
                assert(holds(guild, user, r));
            }
            if overlap(roles, policy.allow_roles) {
                let r = choose|r: Seq<char>| #[trigger]
                    roles.contains(r) && policy.allow_roles.contains(r);
                assert(holds(guild, user, r));
            }
        }
    }
    assert(channel_ruling(guild, user, channel_id) is None);
    if permitted(guild, user, channel_id, permission) {
        let wanted: u64 = if roles_grant(guild, roles, 128) {
            128
        } else {
            bit
        };
        assert(roles_grant(guild, roles, wanted));
        let role = choose|role: Seq<char>| #[trigger]
            roles.contains(role) && guild.roles.contains_key(role) && (
            guild.roles[role].permissions & wanted) != 0;
        assert(holds(guild, user, role));
    }
    if exists|role: Seq<char>| #[trigger]
        holds(guild, user, role) && (role_has(guild, role, 128) || role_has(guild, role, bit)) {
        let role = choose|role: Seq<char>| #[trigger]
            holds(guild, user, role) && (role_has(guild, role, 128) || role_has(guild, role, bit));
        if role_has(guild, role, 128) {
            lemma_role_grants(guild, user, role, 128);
        } else {
            lemma_role_grants(guild, user, role, bit);
        }
    }
}

/// What a user may do rests on nothing but the user's own membership and roles, the
/// guild's roles, and the policy of the channel that is asked about.
pub proof fn permission_rests_on_its_own(
    a: GuildStateModel,
    b: GuildStateModel,
    user: Seq<char>,
    channel_id: Option<Seq<char>>,
    permission: Permission,
)
    requires
        a.members.contains(user) == b.members.contains(user),
        a.member_roles.contains_key(user) == b.member_roles.contains_key(user),
        a.member_roles.contains_key(user) ==> a.member_roles[user] == b.member_roles[user],
        a.roles == b.roles,
        channel_id matches Some(id) ==> a.channels.contains_key(id) == b.channels.contains_key(id),
        channel_id matches Some(id) ==> a.channels.contains_key(id) ==> a.channels[id].policy
            == b.channels[id].policy,
    ensures
        permitted(a, user, channel_id, permission) == permitted(b, user, channel_id, permission),
{
}

/// Nobody but a member may do anything.
pub proof fn only_members_may(
    guild: GuildStateModel,
    user: Seq<char>,
    channel_id: Option<Seq<char>>,
    permission: Permission,
)
    ensures
        permitted(guild, user, channel_id, permission) ==> guild.members.contains(user),
{
}

} // verus!
