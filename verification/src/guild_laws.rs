//! What holds of every guild, however its operations follow each other.
use vstd::prelude::*;
use crate::channel_groups::channel_exists;
use crate::control::{
    apply_result, apply_state, fresh_guild, guild_after, no_guilds, ApplyOutcome, ControlBodyModel,
    ControlEnvelopeModel, ControlErrorModel, ControlStateModel, GuildStateModel, CONTROL_SCHEMA_V1,
    ROLE_EVERYONE, ROLE_OWNER,
};
use crate::permissions::{
    permitted, roles_grant, roles_of, Permission, PERM_ADMINISTRATOR,
};
use crate::replay::replay_from;

verus! {

/// What every guild keeps: its members are exactly those who have roles, each of
/// them has the role of everybody and only roles of the guild, no member is
/// banned, and everything is filed under its own id.
pub open spec fn guild_sound(guild_id: Seq<char>, guild: GuildStateModel) -> bool {
    &&& guild.guild_id == guild_id
    &&& guild.member_roles.dom() == guild.members
    &&& guild.banned.disjoint(guild.members)
    &&& guild.roles.contains_key(ROLE_OWNER@)
    &&& guild.roles.contains_key(ROLE_EVERYONE@)
    &&& forall|member: Seq<char>| #[trigger]
        guild.member_roles.contains_key(member) ==> guild.member_roles[member].contains(
            ROLE_EVERYONE@,
        ) && guild.member_roles[member].subset_of(guild.roles.dom())
    &&& forall|role: Seq<char>| #[trigger]
        guild.roles.contains_key(role) ==> guild.roles[role].role_id == role
    &&& forall|channel: Seq<char>| #[trigger]
        guild.channels.contains_key(channel) ==> guild.channels[channel].channel_id == channel
            && guild.channels[channel].guild_id == guild_id
}

/// All guilds are sound.
pub open spec fn state_sound(state: ControlStateModel) -> bool {
    forall|guild_id: Seq<char>| #[trigger]
        state.guilds.contains_key(guild_id) ==> guild_sound(guild_id, state.guilds[guild_id])
}

proof fn lemma_no_missing_role(guild: GuildStateModel, role_ids: Seq<Seq<char>>)
    requires
        crate::control::first_missing_role(guild, role_ids) is None,
    ensures
        role_ids.to_set().subset_of(guild.roles.dom()),
    decreases role_ids.len(),
{
    if role_ids.len() > 0 {
        lemma_no_missing_role(guild, role_ids.drop_first());
        assert forall|role: Seq<char>| role_ids.to_set().contains(role) implies guild.roles.dom().contains(
        role) by {
            let i = choose|i: int| 0 <= i < role_ids.len() && role_ids[i] == role;
            if i > 0 {
                assert(role_ids.drop_first()[i - 1] == role);
                assert(role_ids.drop_first().to_set().contains(role));
            }
        }
    }
}

proof fn lemma_fresh_guild_sound(guild_id: Seq<char>, name: Seq<char>, creator: Seq<char>)
    ensures
        guild_sound(guild_id, fresh_guild(guild_id, name, creator)),
{
    let guild = fresh_guild(guild_id, name, creator);
    assert(guild.member_roles.dom() =~= guild.members);
}

/// An operation leaves every guild sound, whether it is applied or not.
pub proof fn apply_keeps_sound(state: ControlStateModel, op: ControlEnvelopeModel)
    requires
        state_sound(state),
    ensures
        state_sound(apply_state(state, op)),
{
    let after = apply_state(state, op);
    assert forall|guild_id: Seq<char>| #[trigger] after.guilds.contains_key(guild_id) implies guild_sound(
        guild_id,
        after.guilds[guild_id],
    ) by {
        if guild_id == op.guild_id && after != state {
            let guild = after.guilds[guild_id];
            match op.body {
                ControlBodyModel::GuildCreate { name } => {
                    lemma_fresh_guild_sound(guild_id, name, op.actor);
                },
                ControlBodyModel::MemberRolesSet { member_pubkey, role_ids } => {
                    lemma_no_missing_role(state.guilds[guild_id], role_ids);
                    assert(guild.member_roles.dom() =~= guild.members);
                },
                ControlBodyModel::MemberAdd { .. } => {
                    assert(guild.member_roles.dom() =~= guild.members);
                },
                ControlBodyModel::MemberRemove { .. } => {
                    assert(guild.member_roles.dom() =~= guild.members);
                },
                ControlBodyModel::MemberBan { .. } => {
                    assert(guild.member_roles.dom() =~= guild.members);
                },
                _ => {},
            }
        }
    }
}

/// A replayed log leaves every guild sound.
pub proof fn replay_keeps_sound(state: ControlStateModel, ops: Seq<ControlEnvelopeModel>)
    requires
        state_sound(state),
    ensures
        replay_from(state, ops) is Ok ==> state_sound(replay_from(state, ops)->Ok_0),
    decreases ops.len(),
{
    if ops.len() > 0 {
        apply_keeps_sound(state, ops[0]);
        replay_keeps_sound(apply_state(state, ops[0]), ops.drop_first());
    }
}

/// The state without guilds is sound.
pub proof fn no_guilds_sound()
    ensures
        state_sound(no_guilds()),
{
}

/// An operation that was applied is recorded, and offering it again changes
/// nothing.
pub proof fn apply_once(state: ControlStateModel, op: ControlEnvelopeModel)
    requires
        apply_result(state, op) == Ok::<ApplyOutcome, ControlErrorModel>(ApplyOutcome::Applied),
    ensures
        apply_state(state, op).seen_op_ids.contains(op.op_id),
        apply_result(apply_state(state, op), op) == Ok::<ApplyOutcome, ControlErrorModel>(
            ApplyOutcome::Duplicate,
        ),
        apply_state(apply_state(state, op), op) == apply_state(state, op),
{
}

/// An operation whose id was seen changes nothing, whatever it says.
pub proof fn seen_op_is_ignored(state: ControlStateModel, op: ControlEnvelopeModel)
    requires
        state.seen_op_ids.contains(op.op_id),
    ensures
        apply_state(state, op) == state,
{
}

/// An operation that is refused changes nothing; in particular its id is not
/// recorded, so that it can be offered again.
pub proof fn refused_op_changes_nothing(state: ControlStateModel, op: ControlEnvelopeModel)
    requires
        apply_result(state, op) is Err,
    ensures
        apply_state(state, op) == state,
{
}

/// An operation changes no guild but its own, and no recorded id is lost.
pub proof fn apply_is_local(state: ControlStateModel, op: ControlEnvelopeModel, guild_id: Seq<char>)
    ensures
        state.seen_op_ids.subset_of(apply_state(state, op).seen_op_ids),
        guild_id != op.guild_id ==> (state.guilds.contains_key(guild_id) <==> apply_state(
            state,
            op,
        ).guilds.contains_key(guild_id)),
        guild_id != op.guild_id && state.guilds.contains_key(guild_id) ==> apply_state(
            state,
            op,
        ).guilds[guild_id] == state.guilds[guild_id],
{
}

/// No operation makes a guild disappear or forgets a ban.
pub proof fn bans_last(
    state: ControlStateModel,
    op: ControlEnvelopeModel,
    guild_id: Seq<char>,
    member: Seq<char>,
)
    requires
        state_sound(state),
        state.guilds.contains_key(guild_id),
        state.guilds[guild_id].banned.contains(member),
    ensures
        apply_state(state, op).guilds.contains_key(guild_id),
        apply_state(state, op).guilds[guild_id].banned.contains(member),
        !apply_state(state, op).guilds[guild_id].members.contains(member),
{
    apply_keeps_sound(state, op);
    assert(apply_state(state, op).guilds.contains_key(guild_id));
    assert(guild_sound(guild_id, apply_state(state, op).guilds[guild_id]));
}

/// No operation makes a channel disappear.
pub proof fn channels_last(
    state: ControlStateModel,
    op: ControlEnvelopeModel,
    channel: (Seq<char>, Seq<char>),
)
    requires
        channel_exists(state, channel),
    ensures
        channel_exists(apply_state(state, op), channel),
{
}

/// Whatever log follows a ban, the banned member is not in the guild.
pub proof fn banned_member_stays_out(
    state: ControlStateModel,
    ops: Seq<ControlEnvelopeModel>,
    guild_id: Seq<char>,
    member: Seq<char>,
)
    requires
        state_sound(state),
        state.guilds.contains_key(guild_id),
        state.guilds[guild_id].banned.contains(member),
        replay_from(state, ops) is Ok,
    ensures
        replay_from(state, ops)->Ok_0.guilds.contains_key(guild_id),
        replay_from(state, ops)->Ok_0.guilds[guild_id].banned.contains(member),
        !replay_from(state, ops)->Ok_0.guilds[guild_id].members.contains(member),
    decreases ops.len(),
{
    if ops.len() > 0 {
        bans_last(state, ops[0], guild_id, member);
        apply_keeps_sound(state, ops[0]);
        banned_member_stays_out(apply_state(state, ops[0]), ops.drop_first(), guild_id, member);
    } else {
        assert(guild_sound(guild_id, state.guilds[guild_id]));
    }
}

/// Adding a banned member is refused with `MemberBanned`, whoever asks, as long
/// as the asker may add members at all.
pub proof fn banned_member_cannot_return(
    state: ControlStateModel,
    op: ControlEnvelopeModel,
    member: Seq<char>,
)
    requires
        op.schema == CONTROL_SCHEMA_V1@,
        op.body == (ControlBodyModel::MemberAdd { member_pubkey: member }),
        !state.seen_op_ids.contains(op.op_id),
        state.guilds.contains_key(op.guild_id),
        state.guilds[op.guild_id].banned.contains(member),
        permitted(state.guilds[op.guild_id], op.actor, None, Permission::ManageRoles),
    ensures
        apply_result(state, op) == Err::<ApplyOutcome, ControlErrorModel>(
            ControlErrorModel::MemberBanned { guild_id: op.guild_id, member },
        ),
{
}

/// Nobody outside a guild may do anything in it.
pub proof fn outsider_has_nothing(
    guild: GuildStateModel,
    user: Seq<char>,
    channel_id: Option<Seq<char>>,
    permission: Permission,
)
    requires
        !guild.members.contains(user),
    ensures
        !permitted(guild, user, channel_id, permission),
{
}

/// An administrator may do everything everywhere, whatever a channel denies.
pub proof fn administrator_overrides_denies(
    guild: GuildStateModel,
    user: Seq<char>,
    channel_id: Option<Seq<char>>,
    permission: Permission,
)
    requires
        guild.members.contains(user),
        roles_grant(guild, roles_of(guild, user), PERM_ADMINISTRATOR),
    ensures
        permitted(guild, user, channel_id, permission),
{
}

/// A user whom a channel denies may do nothing there, though a role or the
/// user's own name be allowed, unless the user is an administrator.
pub proof fn user_deny_comes_first(
    guild: GuildStateModel,
    user: Seq<char>,
    channel_id: Seq<char>,
    permission: Permission,
)
    requires
        guild.channels.contains_key(channel_id),
        guild.channels[channel_id].policy.deny_users.contains(user),
        !roles_grant(guild, roles_of(guild, user), PERM_ADMINISTRATOR),
    ensures
        !permitted(guild, user, Some(channel_id), permission),
{
}

/// A member whom a channel allows by name needs no role for anything there.
pub proof fn user_allow_needs_no_role(
    guild: GuildStateModel,
    user: Seq<char>,
    channel_id: Seq<char>,
    permission: Permission,
)
    requires
        guild.members.contains(user),
        guild.channels.contains_key(channel_id),
        guild.channels[channel_id].policy.allow_users.contains(user),
        !guild.channels[channel_id].policy.deny_users.contains(user),
    ensures
        permitted(guild, user, Some(channel_id), permission),
{
}

/// A member who is taken out of a channel can do nothing there any more, not
/// even see it, unless the member is an administrator.
pub proof fn removed_from_channel_is_shut_out(
    state: ControlStateModel,
    op: ControlEnvelopeModel,
    channel_id: Seq<char>,
    member: Seq<char>,
    permission: Permission,
)
    requires
        op.body == (ControlBodyModel::ChannelMemberRemove { channel_id, member_pubkey: member }),
        apply_result(state, op) == Ok::<ApplyOutcome, ControlErrorModel>(ApplyOutcome::Applied),
        !roles_grant(
            state.guilds[op.guild_id],
            roles_of(state.guilds[op.guild_id], member),
            PERM_ADMINISTRATOR,
        ),
    ensures
        !permitted(
            apply_state(state, op).guilds[op.guild_id],
            member,
            Some(channel_id),
            permission,
        ),
{
    let before = state.guilds[op.guild_id];
    let after = apply_state(state, op).guilds[op.guild_id];
    assert(guild_after(state, op) is Ok);
    assert(after.roles == before.roles);
    assert(roles_of(after, member) == roles_of(before, member));
    assert(!roles_grant(after, roles_of(after, member), PERM_ADMINISTRATOR));
    user_deny_comes_first(after, member, channel_id, permission);
}

/// Whoever makes a guild may do everything in it.
pub proof fn creator_may_do_everything(
    guild_id: Seq<char>,
    name: Seq<char>,
    creator: Seq<char>,
    channel_id: Option<Seq<char>>,
    permission: Permission,
)
    ensures
        permitted(fresh_guild(guild_id, name, creator), creator, channel_id, permission),
{
    let guild = fresh_guild(guild_id, name, creator);
    let roles = roles_of(guild, creator);
    assert(roles.contains(ROLE_OWNER@));
    reveal_strlit("role-owner");
    reveal_strlit("role-everyone");
    assert(ROLE_OWNER@.len() != ROLE_EVERYONE@.len());
    assert(guild.roles[ROLE_OWNER@].permissions == 2047);
    assert((2047u64 & 128u64) != 0) by (bit_vector);
    assert(roles_grant(guild, roles, PERM_ADMINISTRATOR));
}

} // verus!
