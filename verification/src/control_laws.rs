//! What each operation on a guild does, field by field, and on what it is refused.
use vstd::prelude::*;
use crate::control::{
    apply_result, apply_state, first_missing_role, ApplyOutcome, ControlBodyModel,
    ControlEnvelopeModel, ControlErrorModel, ControlStateModel, GuildStateModel,
};
use crate::permissions::{permitted, Permission};

verus! {

/// Whether an operation is applied.
pub open spec fn applied(state: ControlStateModel, op: ControlEnvelopeModel) -> bool {
    apply_result(state, op) == Ok::<ApplyOutcome, ControlErrorModel>(ApplyOutcome::Applied)
}

/// Whether an operation is refused, and why.
pub open spec fn refused(
    state: ControlStateModel,
    op: ControlEnvelopeModel,
    error: ControlErrorModel,
) -> bool {
    apply_result(state, op) == Err::<ApplyOutcome, ControlErrorModel>(error)
}

/// Whether an operation is one that the state has not seen, in a schema that it knows.
pub open spec fn is_new(state: ControlStateModel, op: ControlEnvelopeModel) -> bool {
    op.schema == "rapture.control.v1"@ && !state.seen_op_ids.contains(op.op_id)
}

/// Whether an operation is new, and its actor has a permission in a guild that is there.
pub open spec fn is_heard(
    state: ControlStateModel,
    op: ControlEnvelopeModel,
    permission: Permission,
) -> bool {
    &&& is_new(state, op)
    &&& state.guilds.contains_key(op.guild_id)
    &&& permitted(state.guilds[op.guild_id], op.actor, None, permission)
}

/// What an applied operation changes at most: its guild, and the ids that were seen, by
/// its own.
pub proof fn applied_op_is_recorded(state: ControlStateModel, op: ControlEnvelopeModel)
    requires
        applied(state, op),
    ensures
        is_new(state, op),
        forall|id: Seq<char>| #[trigger]
            apply_state(state, op).seen_op_ids.contains(id) <==> state.seen_op_ids.contains(id)
                || id == op.op_id,
        apply_state(state, op).guilds.contains_key(op.guild_id),
        forall|id: Seq<char>| #[trigger]
            apply_state(state, op).guilds.contains_key(id) && id != op.guild_id
                <==> state.guilds.contains_key(id) && id != op.guild_id,
        forall|id: Seq<char>| #[trigger]
            state.guilds.contains_key(id) && id != op.guild_id ==> apply_state(
                state,
                op,
            ).guilds[id] == state.guilds[id],
{
}

/// An operation in another schema is refused, and one that was seen is a duplicate,
/// whatever they say; neither changes anything.
pub proof fn foreign_or_seen_op_is_passed_over(
    state: ControlStateModel,
    op: ControlEnvelopeModel,
)
    ensures
        op.schema != "rapture.control.v1"@ ==> refused(
            state,
            op,
            ControlErrorModel::UnknownSchema(op.schema),
        ),
        op.schema == "rapture.control.v1"@ && state.seen_op_ids.contains(op.op_id) ==> apply_result(
            state,
            op,
        ) == Ok::<ApplyOutcome, ControlErrorModel>(ApplyOutcome::Duplicate),
        !applied(state, op) ==> apply_state(state, op) == state,
{
}

/// Whoever makes a guild is its only member and holds its two roles: the owner's, which
/// grants everything, and the one of everybody, which lets its holders see channels and
/// send messages. The guild bans nobody and has no channel.
pub proof fn guild_create_makes_a_guild(
    state: ControlStateModel,
    op: ControlEnvelopeModel,
    guild_name: Seq<char>,
)
    requires
        is_new(state, op),
        op.body == (ControlBodyModel::GuildCreate { name: guild_name }),
    ensures
        state.guilds.contains_key(op.guild_id) ==> refused(
            state,
            op,
            ControlErrorModel::GuildExists(op.guild_id),
        ),
        !state.guilds.contains_key(op.guild_id) ==> applied(state, op) && ({
            let guild = apply_state(state, op).guilds[op.guild_id];
            &&& guild.guild_id == op.guild_id
            &&& guild.name == guild_name
            &&& guild.created_by == op.actor
            &&& forall|m: Seq<char>| #[trigger] guild.members.contains(m) <==> m == op.actor
            &&& forall|m: Seq<char>| !#[trigger] guild.banned.contains(m)
            &&& forall|m: Seq<char>| #[trigger]
                guild.member_roles.contains_key(m) <==> m == op.actor
            &&& forall|r: Seq<char>| #[trigger]
                guild.member_roles[op.actor].contains(r) <==> r == "role-owner"@ || r
                    == "role-everyone"@
            &&& forall|r: Seq<char>| #[trigger]
                guild.roles.contains_key(r) <==> r == "role-owner"@ || r == "role-everyone"@
            &&& guild.roles["role-owner"@].role_id == "role-owner"@
            &&& guild.roles["role-owner"@].name == "Owner"@
            &&& guild.roles["role-owner"@].permissions == 2047
            &&& guild.roles["role-owner"@].priority == 100
            &&& guild.roles["role-everyone"@].role_id == "role-everyone"@
            &&& guild.roles["role-everyone"@].name == "Everyone"@
            &&& guild.roles["role-everyone"@].permissions == 3
            &&& guild.roles["role-everyone"@].priority == 0
            &&& forall|c: Seq<char>| !#[trigger] guild.channels.contains_key(c)
        }),
{
    reveal_strlit("role-owner");
    reveal_strlit("role-everyone");
    assert("role-owner"@.len() != "role-everyone"@.len());
}

/// Whatever but a creation is offered for a guild that is not there is refused.
pub proof fn guild_has_to_be_there(state: ControlStateModel, op: ControlEnvelopeModel)
    requires
        is_new(state, op),
        !(op.body is GuildCreate),
        !state.guilds.contains_key(op.guild_id),
    ensures
        refused(state, op, ControlErrorModel::GuildNotFound(op.guild_id)),
{
}

/// An actor has to have the permission that goes with what is done, in the guild as a
/// whole; who lacks it is told which one it is, whatever else is wrong.
pub proof fn actor_has_to_be_permitted(state: ControlStateModel, op: ControlEnvelopeModel)
    requires
        is_new(state, op),
        state.guilds.contains_key(op.guild_id),
    ensures
        ({
            let guild = state.guilds[op.guild_id];
            let lacks = |p: Permission| !permitted(guild, op.actor, None, p);
            let told = |name: Seq<char>|
                refused(
                    state,
                    op,
                    ControlErrorModel::PermissionDenied { actor: op.actor, permission: name },
                );
            &&& (op.body is RoleUpsert || op.body is MemberAdd || op.body is MemberRolesSet) && lacks(
                Permission::ManageRoles,
            ) ==> told("ManageRoles"@)
            &&& op.body is MemberRemove && lacks(Permission::KickMembers) ==> told("KickMembers"@)
            &&& op.body is MemberBan && lacks(Permission::BanMembers) ==> told("BanMembers"@)
            &&& (op.body is ChannelCreate || op.body is ChannelPermissionsSet
                || op.body is ChannelMemberRemove) && lacks(Permission::ManageChannels) ==> told(
                "ManageChannels"@,
            )
        }),
{
}

/// Whether two guilds agree in who they are, and in who is in them or banned.
pub open spec fn same_people(a: GuildStateModel, b: GuildStateModel) -> bool {
    a.members == b.members && a.banned == b.banned
}

/// Whether two guilds agree in their name and their making.
pub open spec fn same_name(a: GuildStateModel, b: GuildStateModel) -> bool {
    a.guild_id == b.guild_id && a.name == b.name && a.created_by == b.created_by
}

/// A role is set to what an operation names, whether or not there was one of its id;
/// every other role stays, and so does everything else.
pub proof fn role_upsert_sets_the_role(
    state: ControlStateModel,
    op: ControlEnvelopeModel,
    role_id: Seq<char>,
    role_name: Seq<char>,
    permissions: u64,
    priority: i32,
)
    requires
        is_heard(state, op, Permission::ManageRoles),
        op.body == (ControlBodyModel::RoleUpsert { role_id, name: role_name, permissions, priority }),
    ensures
        applied(state, op),
        ({
            let before = state.guilds[op.guild_id];
            let after = apply_state(state, op).guilds[op.guild_id];
            &&& after.roles.contains_key(role_id)
            &&& after.roles[role_id].role_id == role_id
            &&& after.roles[role_id].name == role_name
            &&& after.roles[role_id].permissions == permissions
            &&& after.roles[role_id].priority == priority
            &&& forall|r: Seq<char>|
                r != role_id ==> (#[trigger] after.roles.contains_key(r)
                    <==> before.roles.contains_key(r))
            &&& forall|r: Seq<char>|
                r != role_id && #[trigger] before.roles.contains_key(r) ==> after.roles[r]
                    == before.roles[r]
            &&& same_name(after, before)
            &&& same_people(after, before)
            &&& after.member_roles == before.member_roles
            &&& after.channels == before.channels
        }),
{
}

/// A member who is added is a member, holds the role of everybody and whatever roles
/// the guild had for them, unless they are banned; nobody else is touched.
pub proof fn member_add_adds_the_member(
    state: ControlStateModel,
    op: ControlEnvelopeModel,
    member: Seq<char>,
)
    requires
        is_heard(state, op, Permission::ManageRoles),
        op.body == (ControlBodyModel::MemberAdd { member_pubkey: member }),
    ensures
        state.guilds[op.guild_id].banned.contains(member) ==> refused(
            state,
            op,
            ControlErrorModel::MemberBanned { guild_id: op.guild_id, member },
        ),
        !state.guilds[op.guild_id].banned.contains(member) ==> applied(state, op) && ({
            let before = state.guilds[op.guild_id];
            let after = apply_state(state, op).guilds[op.guild_id];
            &&& forall|m: Seq<char>| #[trigger]
                after.members.contains(m) <==> before.members.contains(m) || m == member
            &&& after.member_roles.contains_key(member)
            &&& forall|r: Seq<char>| #[trigger]
                after.member_roles[member].contains(r) <==> r == "role-everyone"@ || (
                before.member_roles.contains_key(member) && before.member_roles[member].contains(
                    r,
                ))
            &&& forall|m: Seq<char>|
                m != member ==> (#[trigger] after.member_roles.contains_key(m)
                    <==> before.member_roles.contains_key(m))
            &&& forall|m: Seq<char>|
                m != member && #[trigger] before.member_roles.contains_key(m)
                    ==> after.member_roles[m] == before.member_roles[m]
            &&& same_name(after, before)
            &&& after.banned == before.banned
            &&& after.roles == before.roles
            &&& after.channels == before.channels
        }),
{
}

/// A member who is removed is no member any more and holds no role, but may come back;
/// who is no member cannot be removed; nobody else is touched.
pub proof fn member_remove_removes_the_member(
    state: ControlStateModel,
    op: ControlEnvelopeModel,
    member: Seq<char>,
)
    requires
        is_heard(state, op, Permission::KickMembers),
        op.body == (ControlBodyModel::MemberRemove { member_pubkey: member }),
    ensures
        !state.guilds[op.guild_id].members.contains(member) ==> refused(
            state,
            op,
            ControlErrorModel::MemberNotFound { guild_id: op.guild_id, member },
        ),
        state.guilds[op.guild_id].members.contains(member) ==> applied(state, op) && ({
            let before = state.guilds[op.guild_id];
            let after = apply_state(state, op).guilds[op.guild_id];
            &&& member_is_gone(before, after, member)
            &&& after.banned == before.banned
        }),
{
}

/// Whether a member is in a guild no more, and nothing else of it changed, but for who
/// is banned.
pub open spec fn member_is_gone(
    before: GuildStateModel,
    after: GuildStateModel,
    member: Seq<char>,
) -> bool {
    &&& forall|m: Seq<char>| #[trigger]
        after.members.contains(m) <==> before.members.contains(m) && m != member
    &&& forall|m: Seq<char>| #[trigger]
        after.member_roles.contains_key(m) <==> before.member_roles.contains_key(m) && m != member
    &&& forall|m: Seq<char>|
        m != member && #[trigger] before.member_roles.contains_key(m) ==> after.member_roles[m]
            == before.member_roles[m]
    &&& same_name(after, before)
    &&& after.roles == before.roles
    &&& after.channels == before.channels
}

/// Who is banned is no member, holds no role and stands among the banned, whether or not
/// they were a member; nobody else is touched.
pub proof fn member_ban_bans_the_member(
    state: ControlStateModel,
    op: ControlEnvelopeModel,
    member: Seq<char>,
)
    requires
        is_heard(state, op, Permission::BanMembers),
        op.body == (ControlBodyModel::MemberBan { member_pubkey: member }),
    ensures
        applied(state, op),
        ({
            let before = state.guilds[op.guild_id];
            let after = apply_state(state, op).guilds[op.guild_id];
            &&& member_is_gone(before, after, member)
            &&& forall|m: Seq<char>| #[trigger]
                after.banned.contains(m) <==> before.banned.contains(m) || m == member
        }),
{
}

proof fn lemma_missing_role(guild: GuildStateModel, role_ids: Seq<Seq<char>>)
    ensures
        match first_missing_role(guild, role_ids) {
            None => forall|i: int|
                0 <= i < role_ids.len() ==> guild.roles.contains_key(#[trigger] role_ids[i]),
            Some(role) => exists|i: int|
                0 <= i < role_ids.len() && #[trigger] role_ids[i] == role
                    && !guild.roles.contains_key(role) && forall|j: int|
                    0 <= j < i ==> guild.roles.contains_key(#[trigger] role_ids[j]),
        },
    decreases role_ids.len(),
{
    if role_ids.len() > 0 {
        let rest = role_ids.drop_first();
        lemma_missing_role(guild, rest);
        if !guild.roles.contains_key(role_ids[0]) {
            assert(role_ids[0] == role_ids[0]);
        } else {
            match first_missing_role(guild, rest) {
                None => {
                    assert forall|i: int| 0 <= i < role_ids.len() implies guild.roles.contains_key(
                        #[trigger] role_ids[i],
                    ) by {
                        if i > 0 {
                            assert(rest[i - 1] == role_ids[i]);
                        }
                    }
                },
                Some(role) => {
                    let i = choose|i: int|
                        0 <= i < rest.len() && #[trigger] rest[i] == role
                            && !guild.roles.contains_key(role) && forall|j: int|
                            0 <= j < i ==> guild.roles.contains_key(#[trigger] rest[j]);
                    assert(role_ids[i + 1] == role);
                    assert forall|j: int| 0 <= j < i + 1 implies guild.roles.contains_key(
                        #[trigger] role_ids[j],
                    ) by {
                        if j > 0 {
                            assert(rest[j - 1] == role_ids[j]);
                        }
                    }
                },
            }
        }
    }
}

/// A member's roles are set to those that an operation names, with that of everybody,
/// and to no other; the member has to be there, and so has every role. The first role
/// that is not is told.
pub proof fn roles_set_sets_the_roles(
    state: ControlStateModel,
    op: ControlEnvelopeModel,
    member: Seq<char>,
    role_ids: Seq<Seq<char>>,
)
    requires
        is_heard(state, op, Permission::ManageRoles),
        op.body == (ControlBodyModel::MemberRolesSet { member_pubkey: member, role_ids }),
    ensures
        ({
            let before = state.guilds[op.guild_id];
            &&& !before.members.contains(member) ==> refused(
                state,
                op,
                ControlErrorModel::MemberNotFound { guild_id: op.guild_id, member },
            )
            &&& forall|i: int|
                before.members.contains(member) && 0 <= i < role_ids.len()
                    && !before.roles.contains_key(#[trigger] role_ids[i]) && (forall|j: int|
                    0 <= j < i ==> before.roles.contains_key(#[trigger] role_ids[j])) ==> refused(
                    state,
                    op,
                    ControlErrorModel::RoleNotFound {
                        guild_id: op.guild_id,
                        role_id: role_ids[i],
                    },
                )
            &&& before.members.contains(member) && (forall|i: int|
                0 <= i < role_ids.len() ==> before.roles.contains_key(#[trigger] role_ids[i]))
                ==> applied(state, op) && ({
                let after = apply_state(state, op).guilds[op.guild_id];
                &&& after.member_roles.contains_key(member)
                &&& forall|r: Seq<char>| #[trigger]
                    after.member_roles[member].contains(r) <==> r == "role-everyone"@
                        || role_ids.contains(r)
                &&& forall|m: Seq<char>|
                    m != member ==> (#[trigger] after.member_roles.contains_key(m)
                        <==> before.member_roles.contains_key(m))
                &&& forall|m: Seq<char>|
                    m != member && #[trigger] before.member_roles.contains_key(m)
                        ==> after.member_roles[m] == before.member_roles[m]
                &&& same_name(after, before)
                &&& same_people(after, before)
                &&& after.roles == before.roles
                &&& after.channels == before.channels
            })
        }),
{
    let before = state.guilds[op.guild_id];
    lemma_missing_role(before, role_ids);
    assert forall|i: int|
        before.members.contains(member) && 0 <= i < role_ids.len() && !before.roles.contains_key(
            #[trigger] role_ids[i],
        ) && (forall|j: int| 0 <= j < i ==> before.roles.contains_key(#[trigger] role_ids[j]))
        implies refused(
        state,
        op,
        ControlErrorModel::RoleNotFound { guild_id: op.guild_id, role_id: role_ids[i] },
    ) by {
        let role = first_missing_role(before, role_ids)->0;
        let k = choose|k: int|
            0 <= k < role_ids.len() && #[trigger] role_ids[k] == role && !before.roles.contains_key(
                role,
            ) && forall|j: int| 0 <= j < k ==> before.roles.contains_key(#[trigger] role_ids[j]);
        if k < i {
            assert(before.roles.contains_key(role_ids[k]));
        } else if i < k {
            assert(before.roles.contains_key(role_ids[i]));
        }
    }
}

/// A channel that is made has the name and the kind that an operation names, and no
/// exceptions from what roles grant; there is none of its id before, and every other
/// channel stays.
pub proof fn channel_create_makes_a_channel(
    state: ControlStateModel,
    op: ControlEnvelopeModel,
    channel_id: Seq<char>,
    channel_name: Seq<char>,
    kind: crate::ChannelKind,
)
    requires
        is_heard(state, op, Permission::ManageChannels),
        op.body == (ControlBodyModel::ChannelCreate { channel_id, name: channel_name, kind }),
    ensures
        state.guilds[op.guild_id].channels.contains_key(channel_id) ==> refused(
            state,
            op,
            ControlErrorModel::ChannelExists { guild_id: op.guild_id, channel_id },
        ),
        !state.guilds[op.guild_id].channels.contains_key(channel_id) ==> applied(state, op) && ({
            let before = state.guilds[op.guild_id];
            let after = apply_state(state, op).guilds[op.guild_id];
            &&& after.channels.contains_key(channel_id)
            &&& after.channels[channel_id].channel_id == channel_id
            &&& after.channels[channel_id].guild_id == op.guild_id
            &&& after.channels[channel_id].name == channel_name
            &&& after.channels[channel_id].kind == kind
            &&& forall|u: Seq<char>|
                !(#[trigger] after.channels[channel_id].policy.deny_users.contains(u))
            &&& forall|u: Seq<char>|
                !(#[trigger] after.channels[channel_id].policy.allow_users.contains(u))
            &&& forall|r: Seq<char>|
                !(#[trigger] after.channels[channel_id].policy.deny_roles.contains(r))
            &&& forall|r: Seq<char>|
                !(#[trigger] after.channels[channel_id].policy.allow_roles.contains(r))
            &&& other_channels_stay(before, after, channel_id)
        }),
{
}

/// Whether a guild's other channels are what they were, and so is everything else of it.
pub open spec fn other_channels_stay(
    before: GuildStateModel,
    after: GuildStateModel,
    channel_id: Seq<char>,
) -> bool {
    &&& forall|c: Seq<char>|
        c != channel_id ==> (#[trigger] after.channels.contains_key(c)
            <==> before.channels.contains_key(c))
    &&& forall|c: Seq<char>|
        c != channel_id && #[trigger] before.channels.contains_key(c) ==> after.channels[c]
            == before.channels[c]
    &&& same_name(after, before)
    &&& same_people(after, before)
    &&& after.roles == before.roles
    &&& after.member_roles == before.member_roles
}

/// A channel's lists become those that an operation names, and hold nothing else; the
/// channel has to be there, and keeps its name and its kind.
pub proof fn permissions_set_sets_the_lists(
    state: ControlStateModel,
    op: ControlEnvelopeModel,
    channel_id: Seq<char>,
    allow_roles: Seq<Seq<char>>,
    deny_roles: Seq<Seq<char>>,
    allow_users: Seq<Seq<char>>,
    deny_users: Seq<Seq<char>>,
)
    requires
        is_heard(state, op, Permission::ManageChannels),
        op.body == (ControlBodyModel::ChannelPermissionsSet {
            channel_id,
            allow_roles,
            deny_roles,
            allow_users,
            deny_users,
        }),
    ensures
        !state.guilds[op.guild_id].channels.contains_key(channel_id) ==> refused(
            state,
            op,
            ControlErrorModel::ChannelNotFound { guild_id: op.guild_id, channel_id },
        ),
        state.guilds[op.guild_id].channels.contains_key(channel_id) ==> applied(state, op) && ({
            let before = state.guilds[op.guild_id];
            let after = apply_state(state, op).guilds[op.guild_id];
            let policy = after.channels[channel_id].policy;
            &&& after.channels.contains_key(channel_id)
            &&& forall|x: Seq<char>| #[trigger]
                policy.allow_roles.contains(x) <==> allow_roles.contains(x)
            &&& forall|x: Seq<char>| #[trigger]
                policy.deny_roles.contains(x) <==> deny_roles.contains(x)
            &&& forall|x: Seq<char>| #[trigger]
                policy.allow_users.contains(x) <==> allow_users.contains(x)
            &&& forall|x: Seq<char>| #[trigger]
                policy.deny_users.contains(x) <==> deny_users.contains(x)
            &&& same_channel(before, after, channel_id)
            &&& other_channels_stay(before, after, channel_id)
        }),
{
}

/// Whether a channel is what it was but for its lists.
pub open spec fn same_channel(
    before: GuildStateModel,
    after: GuildStateModel,
    channel_id: Seq<char>,
) -> bool {
    &&& after.channels[channel_id].channel_id == before.channels[channel_id].channel_id
    &&& after.channels[channel_id].guild_id == before.channels[channel_id].guild_id
    &&& after.channels[channel_id].name == before.channels[channel_id].name
    &&& after.channels[channel_id].kind == before.channels[channel_id].kind
}

/// A member who is taken out of a channel stands among its denied users, with those who
/// stood there; its other lists stay. The channel has to be there; the member need not.
pub proof fn channel_member_remove_denies_the_member(
    state: ControlStateModel,
    op: ControlEnvelopeModel,
    channel_id: Seq<char>,
    member: Seq<char>,
)
    requires
        is_heard(state, op, Permission::ManageChannels),
        op.body == (ControlBodyModel::ChannelMemberRemove { channel_id, member_pubkey: member }),
    ensures
        !state.guilds[op.guild_id].channels.contains_key(channel_id) ==> refused(
            state,
            op,
            ControlErrorModel::ChannelNotFound { guild_id: op.guild_id, channel_id },
        ),
        state.guilds[op.guild_id].channels.contains_key(channel_id) ==> applied(state, op) && ({
            let before = state.guilds[op.guild_id];
            let after = apply_state(state, op).guilds[op.guild_id];
            let policy = after.channels[channel_id].policy;
            let former = before.channels[channel_id].policy;
            &&& after.channels.contains_key(channel_id)
            &&& forall|x: Seq<char>| #[trigger]
                policy.deny_users.contains(x) <==> former.deny_users.contains(x) || x == member
            &&& policy.allow_users == former.allow_users
            &&& policy.allow_roles == former.allow_roles
            &&& policy.deny_roles == former.deny_roles
            &&& same_channel(before, after, channel_id)
            &&& other_channels_stay(before, after, channel_id)
        }),
{
}

} // verus!
