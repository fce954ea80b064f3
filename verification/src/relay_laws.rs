//! Who reads what over the relay in memory, and what each client is left with.
use vstd::prelude::*;
use crate::chat::{chat_state, ChatEnvelope, ChatEnvelopeModel};
use crate::control::ControlStateModel;
use crate::keyring::{key_in, ring_of};
use crate::permission_laws::no_administrator;
use crate::permissions::{permitted, Permission};
use crate::sim::{
    received, relay_follows, relay_sound, send_outcome, LocalRelayModel, SimClientModel, SimError,
};

verus! {

/// What a client makes of an operation is what the operation comes to with the key that
/// the client has for it; where the client has none, a message is counted as one that
/// could not be read. The keys of the client stay.
pub proof fn client_reads_with_its_own_keys(client: SimClientModel, op: ChatEnvelopeModel)
    ensures
        ({
            let after = received(client, op);
            let text = op.body is MessageSend || op.body is MessageEdit;
            let epoch = if op.body is MessageSend {
                op.body->MessageSend_epoch
            } else {
                op.body->MessageEdit_epoch
            };
            let key = key_in(client.keyring, (op.guild_id, op.channel_id), epoch);
            let new = op.schema == "rapture.chat.v1"@ && !client.chat.seen_op_ids.contains(
                op.op_id,
            );
            &&& after.keyring == client.keyring
            &&& text ==> after.chat == chat_state(client.chat, op, key)
            &&& text && new && key is None && client.decrypt_failures < usize::MAX
                ==> after.decrypt_failures == client.decrypt_failures + 1
            &&& text && key is Some ==> after.decrypt_failures == client.decrypt_failures
            &&& !text ==> after.decrypt_failures == client.decrypt_failures
            &&& !new ==> after.chat == client.chat && after.decrypt_failures
                == client.decrypt_failures
        }),
{
}

/// A relay that is sound has a group for exactly the channels there are, and in each
/// group are exactly the members of the guild who may view the channel.
pub proof fn groups_are_the_viewers(
    relay: LocalRelayModel,
    channel: (Seq<char>, Seq<char>),
    user: Seq<char>,
)
    requires
        relay_sound(relay),
    ensures
        relay.groups.contains_key(channel) <==> relay.control.guilds.contains_key(channel.0)
            && relay.control.guilds[channel.0].channels.contains_key(channel.1),
        relay.groups.contains_key(channel) ==> (relay.groups[channel].members.contains(user)
            <==> relay.control.guilds[channel.0].members.contains(user) && permitted(
            relay.control.guilds[channel.0],
            user,
            Some(channel.1),
            Permission::ViewChannel,
        )),
{
    crate::membership_laws::wanted_are_members_who_may_view(
        relay.control,
        channel.0,
        channel.1,
        user,
    );
}

/// Whoever a channel denies by name, and who is no administrator, is not in its group.
pub proof fn denied_user_is_not_in_the_group(
    relay: LocalRelayModel,
    channel: (Seq<char>, Seq<char>),
    user: Seq<char>,
)
    requires
        relay_sound(relay),
        relay.groups.contains_key(channel),
        relay.control.guilds[channel.0].channels[channel.1].policy.deny_users.contains(user),
        no_administrator(relay.control.guilds[channel.0], user),
    ensures
        !relay.groups[channel].members.contains(user),
{
    groups_are_the_viewers(relay, channel, user);
    crate::membership_laws::denied_user_is_not_wanted(relay.control, channel.0, channel.1, user);
}

/// A client has the present key of a channel only if its user is in the group, and has
/// none of an epoch that is to come.
pub proof fn present_key_is_for_members(
    relay: LocalRelayModel,
    channel: (Seq<char>, Seq<char>),
    user: Seq<char>,
    epoch: u64,
)
    requires
        relay_sound(relay),
        relay.clients.contains_key(user),
    ensures
        key_in(relay.clients[user].keyring, channel, epoch) is Some
            ==> relay.groups.contains_key(channel) && epoch <= relay.groups[channel].epoch,
        key_in(relay.clients[user].keyring, channel, epoch) is Some && epoch
            == relay.groups[channel].epoch && epoch < u64::MAX
            ==> relay.groups[channel].members.contains(user) && key_in(
            relay.clients[user].keyring,
            channel,
            epoch,
        )->0 == relay.groups[channel].key,
{
    assert(crate::sim::keys_sound(user, relay.clients[user], relay.groups));
    if key_in(relay.clients[user].keyring, channel, epoch) is Some {
        assert(ring_of(relay.clients[user].keyring, channel).contains_key(epoch));
    }
}

/// What follows an operation on guilds: no client comes or goes, none of their messages
/// change, no key is lost, and a group whose members changed is in its next epoch.
pub proof fn following_keeps_messages_and_keys(
    before: LocalRelayModel,
    after: LocalRelayModel,
    control: ControlStateModel,
    user: Seq<char>,
    channel: (Seq<char>, Seq<char>),
    epoch: u64,
)
    requires
        relay_follows(before, after, control),
        before.clients.contains_key(user),
    ensures
        after.control == control,
        after.clients.contains_key(user),
        after.clients[user].chat == before.clients[user].chat,
        after.clients[user].decrypt_failures == before.clients[user].decrypt_failures,
        key_in(before.clients[user].keyring, channel, epoch) is Some ==> key_in(
            after.clients[user].keyring,
            channel,
            epoch,
        ) is Some,
        after.groups.contains_key(channel) && before.groups.contains_key(channel)
            && before.groups[channel].epoch < u64::MAX ==> (after.groups[channel].members
            != before.groups[channel].members ==> after.groups[channel].epoch
            == before.groups[channel].epoch + 1),
        after.groups.contains_key(channel) && !after.groups[channel].members.contains(user)
            ==> key_in(after.clients[user].keyring, channel, epoch) == key_in(
            before.clients[user].keyring,
            channel,
            epoch,
        ),
{
    assert(after.clients.dom().contains(user));
    assert(ring_of(after.clients[user].keyring, channel) == crate::sim::ring_after(
        user,
        before.clients[user],
        before.groups,
        after.groups,
        channel,
    ));
    if after.groups.contains_key(channel) {
        assert(crate::sim::group_follows(before.groups, control, channel, after.groups[channel]));
    }
}

/// Only who is in the group of a channel can send there; what is sent is theirs, of the
/// present epoch, and reaches every client; nobody else's sending changes anything.
pub proof fn only_members_send(
    before: LocalRelayModel,
    after: LocalRelayModel,
    result: Result<ChatEnvelope, SimError>,
    guild_id: Seq<char>,
    channel_id: Seq<char>,
    actor: Seq<char>,
    message_id: Seq<char>,
    text: Seq<char>,
    ts_ms: i64,
    user: Seq<char>,
)
    requires
        send_outcome(
            before,
            after,
            result,
            guild_id,
            channel_id,
            actor,
            message_id,
            text,
            ts_ms,
        ),
    ensures
        ({
            let channel = (guild_id, channel_id);
            let member = before.groups.contains_key(channel)
                && before.groups[channel].members.contains(actor);
            let op = result->Ok_0@;
            &&& !member ==> result is Err && after == before
            &&& result is Ok ==> member && op.actor == actor && op.guild_id == guild_id
                && op.channel_id == channel_id && op.ts_ms == ts_ms && op.body is MessageSend
                && op.body->MessageSend_message_id == message_id && op.body->MessageSend_epoch
                == before.groups[channel].epoch && crate::chat::opens_to(
                op,
                before.groups[channel].key,
                text,
            )
            &&& result is Ok && before.clients.contains_key(user) ==> after.clients.contains_key(
                user,
            ) && after.clients[user] == received(before.clients[user], op)
            &&& after.control == before.control
            &&& after.groups == before.groups
            &&& result is Err ==> after.clients == before.clients
            &&& result is Ok && before.next_chat_op < u64::MAX ==> after.next_chat_op
                == before.next_chat_op + 1
        }),
{
}

} // verus!
