//! Who may do what in a guild.
//!
//! A member's roles give a base mask. An administrator may do everything.
//! Otherwise the channel's policy decides before the base mask does: a denied
//! user, then an allowed user, then a denied role, then an allowed role.
use vstd::prelude::*;
use crate::collections::{OrdSet, Replicate};
use crate::control::{GuildState, GuildStateModel};

verus! {

pub const PERM_VIEW_CHANNEL: u64 = 1;

pub const PERM_SEND_MESSAGE: u64 = 2;

pub const PERM_MANAGE_MESSAGES: u64 = 4;

pub const PERM_MANAGE_CHANNELS: u64 = 8;

pub const PERM_MANAGE_ROLES: u64 = 16;

pub const PERM_KICK_MEMBERS: u64 = 32;

pub const PERM_BAN_MEMBERS: u64 = 64;

pub const PERM_ADMINISTRATOR: u64 = 128;

pub const PERM_CONNECT_VOICE: u64 = 256;

pub const PERM_SPEAK_VOICE: u64 = 512;

pub const PERM_MUTE_MEMBERS: u64 = 1024;

/// One of the things that a role can grant.
#[derive(Clone, Copy, Debug, PartialEq, Eq, Structural)]
pub enum Permission {
    ViewChannel,
    SendMessage,
    ManageMessages,
    ManageChannels,
    ManageRoles,
    KickMembers,
    BanMembers,
    Administrator,
    ConnectVoice,
    SpeakVoice,
    MuteMembers,
}

impl DeepView for Permission {
    type V = Permission;

    open spec fn deep_view(&self) -> Permission {
        *self
    }
}

impl Replicate for Permission {
    fn replicate(&self) -> (copy: Self) {
        *self
    }
}

/// The bit that stands for a permission in a role's mask.
pub open spec fn spec_permission_bit(permission: Permission) -> u64 {
    match permission {
        Permission::ViewChannel => PERM_VIEW_CHANNEL,
        Permission::SendMessage => PERM_SEND_MESSAGE,
        Permission::ManageMessages => PERM_MANAGE_MESSAGES,
        Permission::ManageChannels => PERM_MANAGE_CHANNELS,
        Permission::ManageRoles => PERM_MANAGE_ROLES,
        Permission::KickMembers => PERM_KICK_MEMBERS,
        Permission::BanMembers => PERM_BAN_MEMBERS,
        Permission::Administrator => PERM_ADMINISTRATOR,
        Permission::ConnectVoice => PERM_CONNECT_VOICE,
        Permission::SpeakVoice => PERM_SPEAK_VOICE,
        Permission::MuteMembers => PERM_MUTE_MEMBERS,
    }
}

/// The name of a permission.
pub open spec fn permission_name(permission: Permission) -> Seq<char> {
    match permission {
        Permission::ViewChannel => "ViewChannel"@,
        Permission::SendMessage => "SendMessage"@,
        Permission::ManageMessages => "ManageMessages"@,
        Permission::ManageChannels => "ManageChannels"@,
        Permission::ManageRoles => "ManageRoles"@,
        Permission::KickMembers => "KickMembers"@,
        Permission::BanMembers => "BanMembers"@,
        Permission::Administrator => "Administrator"@,
        Permission::ConnectVoice => "ConnectVoice"@,
        Permission::SpeakVoice => "SpeakVoice"@,
        Permission::MuteMembers => "MuteMembers"@,
    }
}

/// The bits that are set in any of `bits`.
pub open spec fn union_of_bits(bits: Seq<u64>) -> u64
    decreases bits.len(),
{
    if bits.len() == 0 {
        0
    } else {
        union_of_bits(bits.drop_last()) | bits.last()
    }
}

/// The roles that a user holds in a guild.
pub open spec fn roles_of(guild: GuildStateModel, user: Seq<char>) -> Set<Seq<char>> {
    if guild.member_roles.contains_key(user) {
        guild.member_roles[user]
    } else {
        Set::empty()
    }
}

/// Whether one of `roles` is a role of the guild whose mask has a bit of `bits`.
pub open spec fn roles_grant(guild: GuildStateModel, roles: Set<Seq<char>>, bits: u64) -> bool {
    exists|role: Seq<char>| #[trigger]
        roles.contains(role) && guild.roles.contains_key(role) && (guild.roles[role].permissions
            & bits) != 0
}

/// Whether two sets have a member in common.
pub open spec fn overlap(a: Set<Seq<char>>, b: Set<Seq<char>>) -> bool {
    exists|x: Seq<char>| #[trigger] a.contains(x) && b.contains(x)
}

/// What the channel's own policy says, where it says anything.
pub open spec fn channel_ruling(
    guild: GuildStateModel,
    user: Seq<char>,
    channel_id: Option<Seq<char>>,
) -> Option<bool> {
    match channel_id {
        Some(id) if guild.channels.contains_key(id) => {
            let policy = guild.channels[id].policy;
            let roles = roles_of(guild, user);
            if policy.deny_users.contains(user) {
                Some(false)
            } else if policy.allow_users.contains(user) {
                Some(true)
            } else if overlap(roles, policy.deny_roles) {
                Some(false)
            } else if overlap(roles, policy.allow_roles) {
                Some(true)
            } else {
                None
            }
        },
        _ => None,
    }
}

/// Whether `user` has `permission`, in the channel where one is given.
pub open spec fn permitted(
    guild: GuildStateModel,
    user: Seq<char>,
    channel_id: Option<Seq<char>>,
    permission: Permission,
) -> bool {
    let roles = roles_of(guild, user);
    guild.members.contains(user) && (roles_grant(guild, roles, PERM_ADMINISTRATOR) || (
    match channel_ruling(guild, user, channel_id) {
        Some(allowed) => allowed,
        None => roles_grant(guild, roles, spec_permission_bit(permission)),
    }))
}

/// The view of an optional text.
pub open spec fn optional_text(text: Option<&str>) -> Option<Seq<char>> {
    match text {
        Some(t) => Some(t@),
        None => None,
    }
}

proof fn lemma_union_of_two(a: u64, b: u64, bits: u64)
    ensures
        ((a | b) & bits) != 0 <==> (a & bits) != 0 || (b & bits) != 0,
{
    assert(((a | b) & bits) != 0 <==> (a & bits) != 0 || (b & bits) != 0) by (bit_vector);
}

/// The union of several masks.
pub fn permission_bits(bits: &[u64]) -> (mask: u64)
    ensures
        mask == union_of_bits(bits@),
{
    let mut mask: u64 = 0;
    let mut i: usize = 0;
    while i < bits.len()
        invariant
            i <= bits@.len(),
            mask == union_of_bits(bits@.take(i as int)),
        decreases bits@.len() - i,
    {
        mask = mask | bits[i];
        i += 1;
        proof {
            assert(bits@.take(i as int).drop_last() =~= bits@.take(i - 1));
        }
    }
    proof {
        assert(bits@.take(i as int) =~= bits@);
    }
    mask
}

/// A mask holds a bit exactly when one of the masks it is made of does.
pub proof fn lemma_union_holds_each_bit(masks: Seq<u64>, bits: u64)
    ensures
        (union_of_bits(masks) & bits) != 0 <==> exists|i: int|
            0 <= i < masks.len() && (#[trigger] masks[i] & bits) != 0,
    decreases masks.len(),
{
    if masks.len() == 0 {
        assert((0u64 & bits) == 0) by (bit_vector);
    } else {
        let rest = masks.drop_last();
        lemma_union_of_two(union_of_bits(rest), masks.last(), bits);
        lemma_union_holds_each_bit(rest, bits);
        if (union_of_bits(rest) & bits) != 0 {
            let i = choose|i: int| 0 <= i < rest.len() && (#[trigger] rest[i] & bits) != 0;
            assert((masks[i] & bits) != 0);
        }
        if (masks.last() & bits) != 0 {
            assert((masks[masks.len() - 1] & bits) != 0);
        }
        if exists|i: int| 0 <= i < masks.len() && (#[trigger] masks[i] & bits) != 0 {
            let i = choose|i: int| 0 <= i < masks.len() && (#[trigger] masks[i] & bits) != 0;
            if i < rest.len() {
                assert((rest[i] & bits) != 0);
            }
        }
    }
}

/// The name of a permission.
pub fn permission_text(permission: Permission) -> (name: String)
    ensures
        name@ == permission_name(permission),
{
    match permission {
        Permission::ViewChannel => "ViewChannel".to_owned(),
        Permission::SendMessage => "SendMessage".to_owned(),
        Permission::ManageMessages => "ManageMessages".to_owned(),
        Permission::ManageChannels => "ManageChannels".to_owned(),
        Permission::ManageRoles => "ManageRoles".to_owned(),
        Permission::KickMembers => "KickMembers".to_owned(),
        Permission::BanMembers => "BanMembers".to_owned(),
        Permission::Administrator => "Administrator".to_owned(),
        Permission::ConnectVoice => "ConnectVoice".to_owned(),
        Permission::SpeakVoice => "SpeakVoice".to_owned(),
        Permission::MuteMembers => "MuteMembers".to_owned(),
    }
}

/// The bit that stands for a permission.
pub fn permission_bit(permission: Permission) -> (bit: u64)
    ensures
        bit == spec_permission_bit(permission),
{
    match permission {
        Permission::ViewChannel => PERM_VIEW_CHANNEL,
        Permission::SendMessage => PERM_SEND_MESSAGE,
        Permission::ManageMessages => PERM_MANAGE_MESSAGES,
        Permission::ManageChannels => PERM_MANAGE_CHANNELS,
        Permission::ManageRoles => PERM_MANAGE_ROLES,
        Permission::KickMembers => PERM_KICK_MEMBERS,
        Permission::BanMembers => PERM_BAN_MEMBERS,
        Permission::Administrator => PERM_ADMINISTRATOR,
        Permission::ConnectVoice => PERM_CONNECT_VOICE,
        Permission::SpeakVoice => PERM_SPEAK_VOICE,
        Permission::MuteMembers => PERM_MUTE_MEMBERS,
    }
}

/// The union of the masks of those of `roles` that the guild has.
fn base_mask(guild: &GuildState, roles: &OrdSet<String>) -> (mask: u64)
    ensures
        forall|bits: u64| (mask & bits) != 0 <==> #[trigger] roles_grant(guild@, roles@, bits),
{
    let n: usize = roles.len();
    let mut mask: u64 = 0;
    let mut i: usize = 0;
    proof {
        assert forall|bits: u64| (mask & bits) == 0 by {
            assert((0u64 & bits) == 0) by (bit_vector);
        }
    }
    while i < n
        invariant
            i <= n == roles.listing().len(),
            forall|bits: u64| #[trigger]
                (mask & bits) != 0 <==> exists|j: int|
                    0 <= j < i && guild@.roles.contains_key(#[trigger] roles.listing()[j]) && (
                    guild@.roles[roles.listing()[j]].permissions & bits) != 0,
        decreases n - i,
    {
        let ghost before = mask;
        let ghost name = roles.listing()[i as int];
        if let Some(role) = guild.roles.get(roles.at(i)) {
            mask = mask | role.permissions;
            proof {
                assert forall|bits: u64| #[trigger]
                    (mask & bits) != 0 <==> exists|j: int|
                        0 <= j < i + 1 && guild@.roles.contains_key(#[trigger] roles.listing()[j])
                            && (guild@.roles[roles.listing()[j]].permissions & bits) != 0 by {
                    lemma_union_of_two(before, role.permissions, bits);
                    assert((before & bits) != 0 <==> exists|j: int|
                        0 <= j < i && guild@.roles.contains_key(#[trigger] roles.listing()[j])
                            && (guild@.roles[roles.listing()[j]].permissions & bits) != 0);
                    assert(guild@.roles[roles.listing()[i as int]].permissions == role.permissions);
                }
            }
        }
        i += 1;
    }
    proof {
        assert forall|bits: u64| (mask & bits) != 0 <==> #[trigger] roles_grant(
            guild@,
            roles@,
            bits,
        ) by {
            if (mask & bits) != 0 {
                let j = choose|j: int|
                    0 <= j < i && guild@.roles.contains_key(#[trigger] roles.listing()[j]) && (
                    guild@.roles[roles.listing()[j]].permissions & bits) != 0;
                assert(roles.listing().contains(roles.listing()[j]));
                assert(roles@.contains(roles.listing()[j]));
            }
            if roles_grant(guild@, roles@, bits) {
                let role = choose|role: Seq<char>| #[trigger]
                    roles@.contains(role) && guild@.roles.contains_key(role) && (
                    guild@.roles[role].permissions & bits) != 0;
                assert(roles.listing().contains(role));
                let j = choose|j: int| 0 <= j < roles.listing().len() && roles.listing()[j] == role;
                assert(guild@.roles.contains_key(roles.listing()[j]));
            }
        }
    }
    mask
}

/// Whether two sets have a member in common.
fn overlaps(a: &OrdSet<String>, b: &OrdSet<String>) -> (found: bool)
    ensures
        found == overlap(a@, b@),
{
    let n: usize = a.len();
    let mut i: usize = 0;
    while i < n
        invariant
            i <= n == a.listing().len(),
            forall|j: int| 0 <= j < i ==> !b@.contains(#[trigger] a.listing()[j]),
        decreases n - i,
    {
        if b.contains(a.at(i)) {
            proof {
                assert(a@.contains(a.listing()[i as int]));
            }
            return true;
        }
        i += 1;
    }
    proof {
        assert forall|x: Seq<char>| #[trigger] a@.contains(x) implies !b@.contains(x) by {
            let j = choose|j: int| 0 <= j < a.listing().len() && a.listing()[j] == x;
            assert(!b@.contains(a.listing()[j]));
        }
    }
    false
}

/// Whether `user` has `permission` in the guild, or in one of its channels.
pub fn has_permission(
    guild: &GuildState,
    user: &str,
    channel_id: Option<&str>,
    permission: Permission,
) -> (allowed: bool)
    ensures
        allowed == permitted(guild@, user@, optional_text(channel_id), permission),
{
    let user = user.to_owned();
    if !guild.members.contains(&user) {
        return false;
    }
    let none: OrdSet<String> = OrdSet::new();
    let roles: &OrdSet<String> = match guild.member_roles.get(&user) {
        Some(roles) => roles,
        None => &none,
    };
    let mask: u64 = base_mask(guild, roles);
    proof {
        assert(roles@ == roles_of(guild@, user@));
        assert((mask & PERM_ADMINISTRATOR) != 0 <==> roles_grant(guild@, roles@, PERM_ADMINISTRATOR));
        assert((mask & spec_permission_bit(permission)) != 0 <==> roles_grant(
            guild@,
            roles@,
            spec_permission_bit(permission),
        ));
    }
    if (mask & PERM_ADMINISTRATOR) != 0 {
        return true;
    }
    if let Some(id) = channel_id {
        if let Some(channel) = guild.channels.get(&id.to_owned()) {
            if channel.policy.deny_users.contains(&user) {
                return false;
            }
            if channel.policy.allow_users.contains(&user) {
                return true;
            }
            if overlaps(roles, &channel.policy.deny_roles) {
                return false;
            }
            if overlaps(roles, &channel.policy.allow_roles) {
                return true;
            }
        }
    }
    (mask & permission_bit(permission)) != 0
}

} // verus!
