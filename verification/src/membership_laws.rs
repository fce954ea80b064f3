//! Who belongs into a channel's group, and what a pass over it does.
use vstd::prelude::*;
use crate::channel_groups::{channel_exists, groups_added, regrouped, ChannelGroupStateModel};
use crate::control::{apply_state, ControlBodyModel, ControlEnvelopeModel, ControlStateModel};
use crate::control_laws::applied;
use crate::permission_laws::{
    denied_role_may_nothing, denied_user_may_nothing, holds, no_administrator, role_has,
};
use crate::permissions::{permitted, Permission};
use crate::reconcile::{
    desired_members, diff_of, keeps_books, reconciled, report_of, MembershipBackend,
    ReconcileErrorModel,
};

verus! {

/// Whether somebody is wanted in a channel.
pub open spec fn is_desired(
    control: ControlStateModel,
    guild_id: Seq<char>,
    channel_id: Seq<char>,
    user: Seq<char>,
) -> bool {
    desired_members(control, guild_id, channel_id) matches Ok(members) && members.contains(user)
}

/// In a channel that is there exactly the members of its guild are wanted who may view
/// it; without the guild or the channel, that is told.
pub proof fn wanted_are_members_who_may_view(
    control: ControlStateModel,
    guild_id: Seq<char>,
    channel_id: Seq<char>,
    user: Seq<char>,
)
    ensures
        !control.guilds.contains_key(guild_id) ==> desired_members(control, guild_id, channel_id)
            == Err::<Set<Seq<char>>, ReconcileErrorModel>(
            ReconcileErrorModel::GuildNotFound(guild_id),
        ),
        control.guilds.contains_key(guild_id)
            && !control.guilds[guild_id].channels.contains_key(channel_id) ==> desired_members(
            control,
            guild_id,
            channel_id,
        ) == Err::<Set<Seq<char>>, ReconcileErrorModel>(
            ReconcileErrorModel::ChannelNotFound { guild_id, channel_id },
        ),
        control.guilds.contains_key(guild_id)
            && control.guilds[guild_id].channels.contains_key(channel_id) ==> desired_members(
            control,
            guild_id,
            channel_id,
        ) is Ok && (is_desired(control, guild_id, channel_id, user) <==> (
        control.guilds[guild_id].members.contains(user) && permitted(
            control.guilds[guild_id],
            user,
            Some(channel_id),
            Permission::ViewChannel,
        ))),
{
}

/// Who is named among a channel's denied users is not wanted there, but for an
/// administrator.
pub proof fn denied_user_is_not_wanted(
    control: ControlStateModel,
    guild_id: Seq<char>,
    channel_id: Seq<char>,
    user: Seq<char>,
)
    requires
        control.guilds.contains_key(guild_id),
        control.guilds[guild_id].channels.contains_key(channel_id),
        control.guilds[guild_id].channels[channel_id].policy.deny_users.contains(user),
        no_administrator(control.guilds[guild_id], user),
    ensures
        !is_desired(control, guild_id, channel_id, user),
{
    denied_user_may_nothing(
        control.guilds[guild_id],
        user,
        channel_id,
        Permission::ViewChannel,
    );
}

/// Who holds a role that a channel denies is not wanted there, but for an administrator
/// and those whom the channel allows by name.
pub proof fn denied_role_is_not_wanted(
    control: ControlStateModel,
    guild_id: Seq<char>,
    channel_id: Seq<char>,
    user: Seq<char>,
    role: Seq<char>,
)
    requires
        control.guilds.contains_key(guild_id),
        control.guilds[guild_id].channels.contains_key(channel_id),
        control.guilds[guild_id].channels[channel_id].policy.deny_roles.contains(role),
        !control.guilds[guild_id].channels[channel_id].policy.allow_users.contains(user),
        holds(control.guilds[guild_id], user, role),
        no_administrator(control.guilds[guild_id], user),
    ensures
        !is_desired(control, guild_id, channel_id, user),
{
    denied_role_may_nothing(
        control.guilds[guild_id],
        user,
        channel_id,
        role,
        Permission::ViewChannel,
    );
}

/// A member whom a channel allows by name, and does not deny, is wanted there.
pub proof fn allowed_user_is_wanted(
    control: ControlStateModel,
    guild_id: Seq<char>,
    channel_id: Seq<char>,
    user: Seq<char>,
)
    requires
        control.guilds.contains_key(guild_id),
        control.guilds[guild_id].members.contains(user),
        control.guilds[guild_id].channels.contains_key(channel_id),
        control.guilds[guild_id].channels[channel_id].policy.allow_users.contains(user),
        !control.guilds[guild_id].channels[channel_id].policy.deny_users.contains(user),
    ensures
        is_desired(control, guild_id, channel_id, user),
{
    crate::permission_laws::allowed_user_may_everything(
        control.guilds[guild_id],
        user,
        channel_id,
        Permission::ViewChannel,
    );
}

/// Who holds a role with the right to view channels, and is named in no list of a
/// channel, neither themselves nor by a role, is wanted there.
pub proof fn viewer_is_wanted(
    control: ControlStateModel,
    guild_id: Seq<char>,
    channel_id: Seq<char>,
    user: Seq<char>,
    role: Seq<char>,
)
    requires
        control.guilds.contains_key(guild_id),
        control.guilds[guild_id].members.contains(user),
        control.guilds[guild_id].channels.contains_key(channel_id),
        !crate::permission_laws::named_in_channel(control.guilds[guild_id], user, channel_id),
        holds(control.guilds[guild_id], user, role),
        role_has(control.guilds[guild_id], role, 1),
    ensures
        is_desired(control, guild_id, channel_id, user),
{
    crate::permission_laws::permission_bits_are_fixed(
        Permission::ViewChannel,
        Permission::ViewChannel,
    );
    crate::permission_laws::roles_decide_without_a_ruling(
        control.guilds[guild_id],
        user,
        Some(channel_id),
        Permission::ViewChannel,
    );
}

/// Once a member was taken out of a channel, the member is not wanted there, but for an
/// administrator.
pub proof fn member_taken_out_is_not_wanted(
    control: ControlStateModel,
    op: ControlEnvelopeModel,
    channel_id: Seq<char>,
    member: Seq<char>,
)
    requires
        applied(control, op),
        op.body == (ControlBodyModel::ChannelMemberRemove { channel_id, member_pubkey: member }),
        no_administrator(control.guilds[op.guild_id], member),
    ensures
        desired_members(apply_state(control, op), op.guild_id, channel_id) is Ok,
        !is_desired(apply_state(control, op), op.guild_id, channel_id, member),
{
    let before = control.guilds[op.guild_id];
    let after = apply_state(control, op).guilds[op.guild_id];
    crate::control_laws::channel_member_remove_denies_the_member(control, op, channel_id, member);
    assert forall|role: Seq<char>| #[trigger] holds(after, member, role) implies !role_has(
        after,
        role,
        128,
    ) by {
        assert(holds(before, member, role));
    }
    denied_user_is_not_wanted(apply_state(control, op), op.guild_id, channel_id, member);
}

/// Once a member was removed from a guild or banned, the member is wanted in none of its
/// channels.
pub proof fn member_gone_is_not_wanted(
    control: ControlStateModel,
    op: ControlEnvelopeModel,
    channel_id: Seq<char>,
    member: Seq<char>,
)
    requires
        applied(control, op),
        op.body == (ControlBodyModel::MemberRemove { member_pubkey: member }) || op.body == (
        ControlBodyModel::MemberBan { member_pubkey: member }),
    ensures
        !is_desired(apply_state(control, op), op.guild_id, channel_id, member),
{
    if op.body == (ControlBodyModel::MemberRemove { member_pubkey: member }) {
        crate::control_laws::member_remove_removes_the_member(control, op, member);
    } else {
        crate::control_laws::member_ban_bans_the_member(control, op, member);
    }
}

/// Who is wanted and not there is missing; who is there and not wanted is too many;
/// nobody else is either.
pub proof fn difference_is_who_is_missing_or_too_many(
    desired: Set<Seq<char>>,
    actual: Set<Seq<char>>,
    user: Seq<char>,
)
    ensures
        diff_of(desired, actual).to_add.contains(user) <==> desired.contains(user)
            && !actual.contains(user),
        diff_of(desired, actual).to_remove.contains(user) <==> actual.contains(user)
            && !desired.contains(user),
{
}

/// A report tells who was wanted and who was there, and of each who was missing whether
/// they were added or that it failed, and of each who was too many likewise; of nobody
/// else does it tell anything.
pub proof fn report_accounts_for_everybody<B: MembershipBackend>(
    model: B::Model,
    guild_id: Seq<char>,
    channel_id: Seq<char>,
    desired: Set<Seq<char>>,
    actual: Set<Seq<char>>,
    user: Seq<char>,
)
    requires
        keeps_books::<B>(),
        desired.finite(),
        actual.finite(),
        B::actual(model, guild_id, channel_id) == Ok::<Set<Seq<char>>, Seq<char>>(actual),
    ensures
        ({
            let report = report_of::<B>(model, guild_id, channel_id, desired, actual);
            let left = B::actual(
                reconciled::<B>(model, guild_id, channel_id, desired, actual),
                guild_id,
                channel_id,
            );
            let missing = desired.contains(user) && !actual.contains(user);
            let too_many = actual.contains(user) && !desired.contains(user);
            &&& report.desired == desired
            &&& report.actual_before == actual
            &&& missing <==> report.diff.to_add.contains(user)
            &&& too_many <==> report.diff.to_remove.contains(user)
            &&& missing <==> report.added.contains(user) || report.failed_add.contains(user)
            &&& !(report.added.contains(user) && report.failed_add.contains(user))
            &&& too_many <==> report.removed.contains(user) || report.failed_remove.contains(user)
            &&& !(report.removed.contains(user) && report.failed_remove.contains(user))
            &&& left is Ok
            &&& left->Ok_0.contains(user) <==> if missing {
                report.added.contains(user)
            } else if too_many {
                report.failed_remove.contains(user)
            } else {
                actual.contains(user)
            }
        }),
{
    let report = report_of::<B>(model, guild_id, channel_id, desired, actual);
    crate::reconcile::report_tells_what_was_done::<B>(model, guild_id, channel_id, desired, actual);
    assert(report.added.union(report.failed_add).contains(user) == report.diff.to_add.contains(
        user,
    ));
    assert(report.removed.union(report.failed_remove).contains(user)
        == report.diff.to_remove.contains(user));
}

/// A pass over a channel in which nothing fails leaves nobody there whom the channel
/// denies by name, but for administrators.
pub proof fn pass_removes_denied_user<B: MembershipBackend>(
    model: B::Model,
    control: ControlStateModel,
    guild_id: Seq<char>,
    channel_id: Seq<char>,
    actual: Set<Seq<char>>,
    user: Seq<char>,
)
    requires
        keeps_books::<B>(),
        desired_members(control, guild_id, channel_id) is Ok,
        desired_members(control, guild_id, channel_id)->Ok_0.finite(),
        actual.finite(),
        B::actual(model, guild_id, channel_id) == Ok::<Set<Seq<char>>, Seq<char>>(actual),
        control.guilds[guild_id].channels[channel_id].policy.deny_users.contains(user),
        no_administrator(control.guilds[guild_id], user),
    ensures
        ({
            let desired = desired_members(control, guild_id, channel_id)->Ok_0;
            let report = report_of::<B>(model, guild_id, channel_id, desired, actual);
            let left = B::actual(
                reconciled::<B>(model, guild_id, channel_id, desired, actual),
                guild_id,
                channel_id,
            );
            &&& actual.contains(user) ==> report.diff.to_remove.contains(user)
            &&& left is Ok
            &&& !report.failed_remove.contains(user) ==> !left->Ok_0.contains(user)
        }),
{
    denied_user_is_not_wanted(control, guild_id, channel_id, user);
    report_accounts_for_everybody::<B>(
        model,
        guild_id,
        channel_id,
        desired_members(control, guild_id, channel_id)->Ok_0,
        actual,
        user,
    );
}

/// A group has the members it is to have; where that is a change, its epoch is the next
/// one and its key the new one; where it is none, both stay. It stays the group of its
/// channel.
pub proof fn regrouping_sets_the_members(
    group: ChannelGroupStateModel,
    desired: Set<Seq<char>>,
    fresh: Seq<u8>,
)
    ensures
        ({
            let after = regrouped(group, desired, fresh);
            &&& after.members == desired
            &&& after.guild_id == group.guild_id
            &&& after.channel_id == group.channel_id
            &&& group.members == desired ==> after.epoch == group.epoch && after.key == group.key
            &&& group.members != desired ==> after.key == fresh && (group.epoch < u64::MAX
                ==> after.epoch == group.epoch + 1)
        }),
{
}

/// Making sure of groups makes one for each channel that had none, without members and in
/// its first epoch, and leaves every other as it is.
pub proof fn new_groups_begin_empty(
    before: Map<(Seq<char>, Seq<char>), ChannelGroupStateModel>,
    after: Map<(Seq<char>, Seq<char>), ChannelGroupStateModel>,
    control: ControlStateModel,
    channel: (Seq<char>, Seq<char>),
)
    requires
        groups_added(
            before,
            after,
            |c: (Seq<char>, Seq<char>)| channel_exists(control, c),
        ),
    ensures
        after.contains_key(channel) <==> before.contains_key(channel) || (
        control.guilds.contains_key(channel.0) && control.guilds[channel.0].channels.contains_key(
            channel.1,
        )),
        before.contains_key(channel) ==> after[channel] == before[channel],
        after.contains_key(channel) && !before.contains_key(channel) ==> after[channel].epoch == 0
            && after[channel].guild_id == channel.0 && after[channel].channel_id == channel.1
            && after[channel].key.len() == 32 && forall|user: Seq<char>|
            !#[trigger] after[channel].members.contains(user),
{
}

} // verus!
