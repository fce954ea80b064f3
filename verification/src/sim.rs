//! A relay and its clients in one process: control operations are applied,
//! channel groups follow them, and messages reach every client, which reads them
//! with the keys it was given.
use vstd::prelude::*;
use crate::channel_groups::{
    channel_exists, regrouped, ChannelGroupDirectory, ChannelGroupError, ChannelGroupErrorModel,
    ChannelGroupStateModel,
};
use crate::chat::{
    chat_result, chat_state, epoch_of, no_chat, opens_to, sealable, timeline_of,
    ChatBodyModel, ChatEnvelope, ChatEnvelopeModel, ChatError, ChatErrorModel, ChatState,
    ChatStateModel, EpochKeyLookup, TimelineMessage, TimelineMessageModel, CHAT_SCHEMA_V1,
};
use crate::clock::now_ms;
use crate::collections::{outcome, ChannelKey, OrdMap, OrdSet, Replicate};
use crate::control::{
    apply_result, apply_state, no_guilds, ControlEnvelope, ControlError, ControlErrorModel,
    ControlState, ControlStateModel,
};
use crate::keyring::{
    key_in, rekeyed, ring_of, with_key, Keyring, KeyringModel,
};
use crate::reconcile::{
    desired_channel_members, desired_members, ReconcileError, ReconcileErrorModel,
};
use crate::text::{decimal, decimal_text, lemma_decimal_injective};

verus! {

/// Why the relay refused a request.
#[derive(Debug, PartialEq, Eq)]
pub enum SimError {
    Control(ControlError),
    ChannelGroup(ChannelGroupError),
    Chat(ChatError),
    UnknownClient(String),
    ActorNotMember { actor: String, guild_id: String, channel_id: String },
    GroupNotFound { guild_id: String, channel_id: String },
}

/// What a [`SimError`] holds.
#[verifier::ext_equal]
pub enum SimErrorModel {
    Control(ControlErrorModel),
    ChannelGroup(ChannelGroupErrorModel),
    Chat(ChatErrorModel),
    UnknownClient(Seq<char>),
    ActorNotMember { actor: Seq<char>, guild_id: Seq<char>, channel_id: Seq<char> },
    GroupNotFound { guild_id: Seq<char>, channel_id: Seq<char> },
}

impl DeepView for SimError {
    type V = SimErrorModel;

    open spec fn deep_view(&self) -> SimErrorModel {
        match self {
            SimError::Control(a) => SimErrorModel::Control(a.deep_view()),
            SimError::ChannelGroup(a) => SimErrorModel::ChannelGroup(a.deep_view()),
            SimError::Chat(a) => SimErrorModel::Chat(a.deep_view()),
            SimError::UnknownClient(a) => SimErrorModel::UnknownClient(a.deep_view()),
            SimError::ActorNotMember {
                actor,
                guild_id,
                channel_id,
            } => SimErrorModel::ActorNotMember {
                actor: actor.deep_view(),
                guild_id: guild_id.deep_view(),
                channel_id: channel_id.deep_view(),
            },
            SimError::GroupNotFound { guild_id, channel_id } => SimErrorModel::GroupNotFound {
                guild_id: guild_id.deep_view(),
                channel_id: channel_id.deep_view(),
            },
        }
    }
}

impl View for SimError {
    type V = SimErrorModel;

    open spec fn view(&self) -> SimErrorModel {
        self.deep_view()
    }
}

impl Replicate for SimError {
    fn replicate(&self) -> (copy: Self) {
        match self {
            SimError::Control(a) => SimError::Control(a.replicate()),
            SimError::ChannelGroup(a) => SimError::ChannelGroup(a.replicate()),
            SimError::Chat(a) => SimError::Chat(a.replicate()),
            SimError::UnknownClient(a) => SimError::UnknownClient(a.replicate()),
            SimError::ActorNotMember { actor, guild_id, channel_id } => SimError::ActorNotMember {
                actor: actor.replicate(),
                guild_id: guild_id.replicate(),
                channel_id: channel_id.replicate(),
            },
            SimError::GroupNotFound { guild_id, channel_id } => SimError::GroupNotFound {
                guild_id: guild_id.replicate(),
                channel_id: channel_id.replicate(),
            },
        }
    }
}

impl Clone for SimError {
    fn clone(&self) -> (copy: Self)
        ensures
            copy@ == self@,
    {
        self.replicate()
    }
}

/// A client: its keys and what it could read.
#[derive(Debug, PartialEq, Eq)]
pub struct SimClient {
    pub keyring: Keyring,
    pub chat: ChatState,
    pub decrypt_failures: usize,
}

/// What a [`SimClient`] holds.
#[verifier::ext_equal]
pub struct SimClientModel {
    pub keyring: KeyringModel,
    pub chat: ChatStateModel,
    pub decrypt_failures: usize,
}

impl DeepView for SimClient {
    type V = SimClientModel;

    open spec fn deep_view(&self) -> SimClientModel {
        SimClientModel {
            keyring: self.keyring.deep_view(),
            chat: self.chat.deep_view(),
            decrypt_failures: self.decrypt_failures.deep_view(),
        }
    }
}

impl View for SimClient {
    type V = SimClientModel;

    open spec fn view(&self) -> SimClientModel {
        self.deep_view()
    }
}

impl Replicate for SimClient {
    fn replicate(&self) -> (copy: Self) {
        SimClient {
            keyring: self.keyring.replicate(),
            chat: self.chat.replicate(),
            decrypt_failures: self.decrypt_failures.replicate(),
        }
    }
}

impl Clone for SimClient {
    fn clone(&self) -> (copy: Self)
        ensures
            copy@ == self@,
    {
        self.replicate()
    }
}

/// The parts of a relay with its clients.
#[derive(Debug)]
struct RelayParts {
    control: ControlState,
    groups: ChannelGroupDirectory,
    clients: OrdMap<String, SimClient>,
    next_chat_op: u64,
}

/// A relay with its clients.
#[derive(Debug)]
pub struct LocalRelay {
    parts: RelayParts,
}

/// What a [`LocalRelay`] holds.
#[verifier::ext_equal]
pub struct LocalRelayModel {
    pub control: ControlStateModel,
    pub groups: Map<(Seq<char>, Seq<char>), ChannelGroupStateModel>,
    pub clients: Map<Seq<char>, SimClientModel>,
    pub next_chat_op: u64,
}

impl View for RelayParts {
    type V = LocalRelayModel;

    closed spec fn view(&self) -> LocalRelayModel {
        LocalRelayModel {
            control: self.control@,
            groups: self.groups@,
            clients: self.clients@,
            next_chat_op: self.next_chat_op,
        }
    }
}

/// A client after the key of a channel's epoch was handed to it.
pub open spec fn given_key(
    client: SimClientModel,
    channel: (Seq<char>, Seq<char>),
    epoch: u64,
    key: Seq<u8>,
    renewed: bool,
) -> SimClientModel {
    SimClientModel { keyring: with_key(client.keyring, channel, epoch, key, renewed), ..client }
}

/// A client after a message reached it: a message that it has no key for counts
/// as one that it could not read.
pub open spec fn received(client: SimClientModel, op: ChatEnvelopeModel) -> SimClientModel {
    let key = key_in(client.keyring, (op.guild_id, op.channel_id), epoch_of(op.body));
    SimClientModel {
        keyring: client.keyring,
        chat: chat_state(client.chat, op, key),
        decrypt_failures: if chat_result(client.chat, op, key) matches Err(
            ChatErrorModel::MissingEpochKey { .. },
        ) && client.decrypt_failures < usize::MAX {
            (client.decrypt_failures + 1) as usize
        } else {
            client.decrypt_failures
        },
    }
}

/// The id of the `n`th chat operation.
pub open spec fn chat_op_id(n: nat) -> Seq<char> {
    "chat-op-"@ + decimal_text(n)
}

/// What a client's keys must be, given the groups: none is of an epoch to come,
/// and none of the present epoch but its own key, in the hands of a member.
/// (In the last epoch that can be counted a key can outlive a membership.)
pub open spec fn keys_sound(
    user: Seq<char>,
    client: SimClientModel,
    groups: Map<(Seq<char>, Seq<char>), ChannelGroupStateModel>,
) -> bool {
    forall|channel: (Seq<char>, Seq<char>), epoch: u64| #[trigger]
        ring_of(client.keyring, channel).contains_key(epoch) ==> {
            &&& groups.contains_key(channel)
            &&& epoch <= groups[channel].epoch
            &&& epoch == groups[channel].epoch && epoch < u64::MAX ==> {
                &&& groups[channel].members.contains(user)
                &&& ring_of(client.keyring, channel)[epoch] == groups[channel].key
            }
        }
}

/// What a client has seen must be operations that were sent.
pub open spec fn chat_sound(client: SimClientModel, sent: u64) -> bool {
    forall|id: Seq<char>| #[trigger]
        client.chat.seen_op_ids.contains(id) ==> exists|n: nat|
            n <= sent && id == #[trigger] chat_op_id(n)
}

/// What every relay keeps: there is a group for exactly the channels there are,
/// its members are those who may see the channel, and clients hold no key that
/// is not theirs.
pub open spec fn relay_sound(relay: LocalRelayModel) -> bool {
    &&& forall|channel: (Seq<char>, Seq<char>)| #[trigger]
        relay.groups.contains_key(channel) <==> channel_exists(relay.control, channel)
    &&& forall|channel: (Seq<char>, Seq<char>)| #[trigger]
        relay.groups.contains_key(channel) ==> group_sound(
            relay.control,
            channel,
            relay.groups[channel],
        )
    &&& forall|user: Seq<char>| #[trigger]
        relay.clients.contains_key(user) ==> keys_sound(user, relay.clients[user], relay.groups)
            && chat_sound(relay.clients[user], relay.next_chat_op)
}

/// What every group keeps: it bears its channel's names, and its members are
/// those who may see the channel.
pub open spec fn group_sound(
    control: ControlStateModel,
    channel: (Seq<char>, Seq<char>),
    group: ChannelGroupStateModel,
) -> bool {
    &&& group.guild_id == channel.0
    &&& group.channel_id == channel.1
    &&& desired_members(control, channel.0, channel.1) == Ok::<
        Set<Seq<char>>,
        ReconcileErrorModel,
    >(group.members)
}

/// The members that a channel's group had, none where there was no group.
pub open spec fn members_in(
    groups: Map<(Seq<char>, Seq<char>), ChannelGroupStateModel>,
    channel: (Seq<char>, Seq<char>),
) -> Set<Seq<char>> {
    if groups.contains_key(channel) {
        groups[channel].members
    } else {
        Set::empty()
    }
}

/// Whether a group follows from what was there before: with the members who may
/// see the channel now, in a new epoch where that is a change.
pub open spec fn group_follows(
    before: Map<(Seq<char>, Seq<char>), ChannelGroupStateModel>,
    control: ControlStateModel,
    channel: (Seq<char>, Seq<char>),
    group: ChannelGroupStateModel,
) -> bool {
    let desired = desired_members(control, channel.0, channel.1)->Ok_0;
    if before.contains_key(channel) {
        group == regrouped(before[channel], desired, group.key)
    } else {
        &&& group.guild_id == channel.0
        &&& group.channel_id == channel.1
        &&& group.members == desired
        &&& group.epoch == if desired == Set::<Seq<char>>::empty() {
            0u64
        } else {
            1u64
        }
    }
}

/// A client's ring for a channel after the groups followed the control state.
pub open spec fn ring_after(
    user: Seq<char>,
    client: SimClientModel,
    before: Map<(Seq<char>, Seq<char>), ChannelGroupStateModel>,
    after: Map<(Seq<char>, Seq<char>), ChannelGroupStateModel>,
    channel: (Seq<char>, Seq<char>),
) -> Map<u64, Seq<u8>> {
    let ring = ring_of(client.keyring, channel);
    if after.contains_key(channel) && after[channel].members.contains(user) {
        rekeyed(
            ring,
            after[channel].epoch,
            after[channel].key,
            members_in(before, channel) != after[channel].members,
        )
    } else {
        ring
    }
}

/// Whether `after` is `before` with the control state `control`, the groups that
/// follow from it, and their keys in the hands of the clients who are members.
pub open spec fn relay_follows(
    before: LocalRelayModel,
    after: LocalRelayModel,
    control: ControlStateModel,
) -> bool {
    &&& after.control == control
    &&& after.next_chat_op == before.next_chat_op
    &&& after.clients.dom() == before.clients.dom()
    &&& forall|channel: (Seq<char>, Seq<char>)| #[trigger]
        after.groups.contains_key(channel) <==> channel_exists(control, channel)
    &&& forall|channel: (Seq<char>, Seq<char>)| #[trigger]
        after.groups.contains_key(channel) ==> group_follows(
            before.groups,
            control,
            channel,
            after.groups[channel],
        )
    &&& forall|user: Seq<char>| #[trigger]
        after.clients.contains_key(user) ==> {
            &&& after.clients[user].chat == before.clients[user].chat
            &&& after.clients[user].decrypt_failures == before.clients[user].decrypt_failures
        }
    &&& forall|user: Seq<char>, channel: (Seq<char>, Seq<char>)|
        after.clients.contains_key(user) ==> #[trigger] ring_of(
            after.clients[user].keyring,
            channel,
        ) == ring_after(user, before.clients[user], before.groups, after.groups, channel)
}

impl SimError {
    /// The refusal in words.
    pub open spec fn words(error: SimErrorModel) -> Seq<char> {
        match error {
            SimErrorModel::Control(inner) => "control error: "@ + ControlError::words(inner),
            SimErrorModel::ChannelGroup(inner) => "channel-group error: "@
                + ChannelGroupError::words(inner),
            SimErrorModel::Chat(inner) => "chat error: "@ + ChatError::words(inner),
            SimErrorModel::UnknownClient(user) => "unknown client: "@ + user,
            SimErrorModel::ActorNotMember { actor, guild_id, channel_id } =>
                "actor is not a channel member: "@ + actor + " ("@ + guild_id + "/"@ + channel_id
                + ")"@,
            SimErrorModel::GroupNotFound { guild_id, channel_id } => "channel group not found: "@
                + guild_id + "/"@ + channel_id,
        }
    }

    /// The refusal in words.
    pub fn message(&self) -> (text: String)
        ensures
            text@ == SimError::words(self@),
    {
        match self {
            SimError::Control(inner) => "control error: ".to_owned().concat(
                inner.message().as_str(),
            ),
            SimError::ChannelGroup(inner) => "channel-group error: ".to_owned().concat(
                inner.message().as_str(),
            ),
            SimError::Chat(inner) => "chat error: ".to_owned().concat(inner.message().as_str()),
            SimError::UnknownClient(user) => "unknown client: ".to_owned().concat(user.as_str()),
            SimError::ActorNotMember { actor, guild_id, channel_id } =>
                "actor is not a channel member: ".to_owned().concat(actor.as_str()).concat(
                    " (",
                ).concat(guild_id.as_str()).concat("/").concat(channel_id.as_str()).concat(")"),
            SimError::GroupNotFound { guild_id, channel_id } => "channel group not found: ".to_owned().concat(
                guild_id.as_str(),
            ).concat("/").concat(channel_id.as_str()),
        }
    }
}

impl SimClient {
    /// Takes in a message.
    fn receive(&mut self, envelope: ChatEnvelope)
        ensures
            final(self)@ == received(old(self)@, envelope@),
    {
        if let Err(error) = self.chat.apply(envelope, &self.keyring) {
            if let ChatError::MissingEpochKey { .. } = error {
                if self.decrypt_failures < usize::MAX {
                    self.decrypt_failures = self.decrypt_failures + 1;
                }
            }
        }
    }
}

impl View for LocalRelay {
    type V = LocalRelayModel;

    closed spec fn view(&self) -> LocalRelayModel {
        self.parts@
    }
}

impl Default for LocalRelay {
    fn default() -> (relay: Self)
        ensures
            relay@ == (LocalRelayModel {
                control: no_guilds(),
                groups: Map::empty(),
                clients: Map::empty(),
                next_chat_op: 0,
            }),
            relay_sound(relay@),
    {
        LocalRelay {
            parts: RelayParts {
                control: ControlState::default(),
                groups: ChannelGroupDirectory::default(),
                clients: OrdMap::new(),
                next_chat_op: 0,
            },
        }
    }
}

/// Whether the clients in `after` are those in `before`, of whom the `members`
/// took in the key of a channel's epoch.
spec fn key_handed_out(
    before: Map<Seq<char>, SimClientModel>,
    after: Map<Seq<char>, SimClientModel>,
    channel: (Seq<char>, Seq<char>),
    members: spec_fn(Seq<char>) -> bool,
    epoch: u64,
    key: Seq<u8>,
    renewed: bool,
) -> bool {
    &&& after.dom() == before.dom()
    &&& forall|user: Seq<char>| #[trigger]
        after.contains_key(user) ==> after[user] == if members(user) {
            given_key(before[user], channel, epoch, key, renewed)
        } else {
            before[user]
        }
}

/// Whether the groups of the channels that are `done` follow the control state,
/// with their keys handed out, and all others are as before.
spec fn partly_settled(
    control: ControlStateModel,
    groups_before: Map<(Seq<char>, Seq<char>), ChannelGroupStateModel>,
    clients_before: Map<Seq<char>, SimClientModel>,
    groups: Map<(Seq<char>, Seq<char>), ChannelGroupStateModel>,
    clients: Map<Seq<char>, SimClientModel>,
    done: spec_fn((Seq<char>, Seq<char>)) -> bool,
) -> bool {
    &&& groups.dom() == groups_before.dom()
    &&& clients.dom() == clients_before.dom()
    &&& forall|channel: (Seq<char>, Seq<char>)| #[trigger]
        groups.contains_key(channel) ==> groups[channel] == if done(channel) {
            regrouped(
                groups_before[channel],
                desired_members(control, channel.0, channel.1)->Ok_0,
                groups[channel].key,
            )
        } else {
            groups_before[channel]
        }
    &&& forall|user: Seq<char>| #[trigger]
        clients.contains_key(user) ==> {
            &&& clients[user].chat == clients_before[user].chat
            &&& clients[user].decrypt_failures == clients_before[user].decrypt_failures
        }
    &&& forall|user: Seq<char>, channel: (Seq<char>, Seq<char>)|
        clients.contains_key(user) ==> #[trigger] ring_of(clients[user].keyring, channel)
            == if done(channel) {
            ring_after(user, clients_before[user], groups_before, groups, channel)
        } else {
            ring_of(clients_before[user].keyring, channel)
        }
}

/// Settling one more channel.
proof fn lemma_settle_one(
    control: ControlStateModel,
    groups_before: Map<(Seq<char>, Seq<char>), ChannelGroupStateModel>,
    clients_before: Map<Seq<char>, SimClientModel>,
    groups: Map<(Seq<char>, Seq<char>), ChannelGroupStateModel>,
    clients: Map<Seq<char>, SimClientModel>,
    done: spec_fn((Seq<char>, Seq<char>)) -> bool,
    groups_after: Map<(Seq<char>, Seq<char>), ChannelGroupStateModel>,
    clients_after: Map<Seq<char>, SimClientModel>,
    next: spec_fn((Seq<char>, Seq<char>)) -> bool,
    channel: (Seq<char>, Seq<char>),
    members: spec_fn(Seq<char>) -> bool,
)
    requires
        partly_settled(control, groups_before, clients_before, groups, clients, done),
        groups_before.contains_key(channel),
        !done(channel),
        forall|c: (Seq<char>, Seq<char>)| #[trigger] next(c) == (done(c) || c == channel),
        groups_after.contains_key(channel),
        groups_after == groups.insert(
            channel,
            regrouped(
                groups[channel],
                desired_members(control, channel.0, channel.1)->Ok_0,
                groups_after[channel].key,
            ),
        ),
        forall|user: Seq<char>| #[trigger]
            members(user) == groups_after[channel].members.contains(user),
        key_handed_out(
            clients,
            clients_after,
            channel,
            members,
            groups_after[channel].epoch,
            groups_after[channel].key,
            groups[channel].members != groups_after[channel].members,
        ),
    ensures
        partly_settled(control, groups_before, clients_before, groups_after, clients_after, next),
{
    assert(groups_after.dom() =~= groups_before.dom());
    assert(groups[channel] == groups_before[channel]);
    assert forall|user: Seq<char>, c: (Seq<char>, Seq<char>)|
        clients_after.contains_key(user) implies #[trigger] ring_of(clients_after[user].keyring, c)
        == if next(c) {
        ring_after(user, clients_before[user], groups_before, groups_after, c)
    } else {
        ring_of(clients_before[user].keyring, c)
    } by {
        assert(clients.contains_key(user));
        assert(ring_of(clients[user].keyring, c) == if done(c) {
            ring_after(user, clients_before[user], groups_before, groups, c)
        } else {
            ring_of(clients_before[user].keyring, c)
        });
        if c == channel {
            assert(members(user) == groups_after[channel].members.contains(user));
        }
    }
}

/// A relay that follows a control state that only gained channels is sound.
pub proof fn lemma_following_keeps_sound(
    before: LocalRelayModel,
    after: LocalRelayModel,
    control: ControlStateModel,
)
    requires
        relay_sound(before),
        relay_follows(before, after, control),
        before.groups.dom().subset_of(after.groups.dom()),
    ensures
        relay_sound(after),
{
    assert forall|channel: (Seq<char>, Seq<char>)| #[trigger]
        after.groups.contains_key(channel) implies group_sound(
        after.control,
        channel,
        after.groups[channel],
    ) by {
        assert(group_follows(before.groups, control, channel, after.groups[channel]));
        assert(channel_exists(control, channel));
        if before.groups.contains_key(channel) {
            assert(group_sound(before.control, channel, before.groups[channel]));
        }
    }
    assert forall|user: Seq<char>| #[trigger] after.clients.contains_key(user) implies keys_sound(
        user,
        after.clients[user],
        after.groups,
    ) && chat_sound(after.clients[user], after.next_chat_op) by {
        assert(before.clients.contains_key(user));
        let client = after.clients[user];
        assert forall|channel: (Seq<char>, Seq<char>), epoch: u64| #[trigger]
            ring_of(client.keyring, channel).contains_key(epoch) implies {
            &&& after.groups.contains_key(channel)
            &&& epoch <= after.groups[channel].epoch
            &&& epoch == after.groups[channel].epoch && epoch < u64::MAX ==> {
                &&& after.groups[channel].members.contains(user)
                &&& ring_of(client.keyring, channel)[epoch] == after.groups[channel].key
            }
        } by {
            let old_ring = ring_of(before.clients[user].keyring, channel);
            assert(ring_of(after.clients[user].keyring, channel) == ring_after(
                user,
                before.clients[user],
                before.groups,
                after.groups,
                channel,
            ));
            if old_ring.contains_key(epoch) {
                assert(before.groups.contains_key(channel));
                assert(before.groups.dom().contains(channel));
                assert(after.groups.contains_key(channel));
                assert(group_follows(before.groups, control, channel, after.groups[channel]));
            } else {
                assert(after.groups.contains_key(channel));
            }
        }
    }
}

impl RelayParts {
    /// Lets a user take part; one who does already keeps everything.
    fn register_client(&mut self, user: &str)
        requires
            relay_sound(old(self)@),
        ensures
            relay_sound(final(self)@),
            final(self)@ == (LocalRelayModel {
                clients: if old(self)@.clients.contains_key(user@) {
                    old(self)@.clients
                } else {
                    old(self)@.clients.insert(
                        user@,
                        SimClientModel {
                            keyring: KeyringModel { rings: Map::empty() },
                            chat: no_chat(),
                            decrypt_failures: 0,
                        },
                    )
                },
                ..old(self)@
            }),
    {
        let user = user.to_owned();
        let ghost name = user@;
        if !self.clients.contains_key(&user) {
            self.clients.insert(
                user,
                SimClient {
                    keyring: Keyring::default(),
                    chat: ChatState::default(),
                    decrypt_failures: 0,
                },
            );
        }
        proof {
            assert(self@.groups == old(self)@.groups);
            assert(self@.control == old(self)@.control);
            assert forall|channel: (Seq<char>, Seq<char>)| #[trigger]
                self@.groups.contains_key(channel) implies group_sound(
                self@.control,
                channel,
                self@.groups[channel],
            ) by {
                assert(old(self)@.groups.contains_key(channel));
            }
            assert forall|other: Seq<char>| #[trigger]
                self@.clients.contains_key(other) implies keys_sound(
                other,
                self@.clients[other],
                self@.groups,
            ) && chat_sound(self@.clients[other], self@.next_chat_op) by {
                if other != name {
                    assert(old(self)@.clients.contains_key(other));
                }
            }
        }
    }

    /// Hands the key of a channel's epoch out to the clients who are members.
    fn hand_out_key(
        &mut self,
        channel: &ChannelKey,
        members: &OrdSet<String>,
        epoch: u64,
        key: [u8; 32],
        renewed: bool,
    )
        ensures
            final(self)@.control == old(self)@.control,
            final(self)@.groups == old(self)@.groups,
            final(self)@.next_chat_op == old(self)@.next_chat_op,
            key_handed_out(
                old(self)@.clients,
                final(self)@.clients,
                channel@,
                |user: Seq<char>| members@.contains(user),
                epoch,
                key.deep_view(),
                renewed,
            ),
    {
        let n: usize = members.len();
        let ghost listing = members.listing();
        let ghost start = self.clients@;
        let mut i: usize = 0;
        while i < n
            invariant
                i <= n == listing.len(),
                listing == members.listing(),
                listing.no_duplicates(),
                start == old(self)@.clients,
                self@.control == old(self)@.control,
                self@.groups == old(self)@.groups,
                self@.next_chat_op == old(self)@.next_chat_op,
                key_handed_out(
                    start,
                    self@.clients,
                    channel@,
                    |user: Seq<char>| listing.take(i as int).contains(user),
                    epoch,
                    key.deep_view(),
                    renewed,
                ),
            decreases n - i,
        {
            let member = members.at(i);
            let ghost before = self.clients@;
            proof {
                crate::collections::lemma_take_next(listing, i as int);
            }
            if let Some(client) = self.clients.take(member) {
                let mut client = client;
                client.keyring.take_key(channel, epoch, key, renewed);
                self.clients.insert(member.clone(), client);
            }
            proof {
                assert(self.clients@.dom() =~= start.dom());
                assert forall|user: Seq<char>| #[trigger]
                    self.clients@.contains_key(user) && user != member@ implies self.clients@[user]
                    == before[user] by {}
            }
            i += 1;
        }
        proof {
            assert(listing.take(i as int) =~= listing);
            assert forall|user: Seq<char>| #[trigger]
                listing.contains(user) <==> members@.contains(user) by {}
        }
    }

    /// Lets every group follow the control state.
    fn reconcile_groups(&mut self) -> (result: Result<(), SimError>)
        requires
            forall|channel: (Seq<char>, Seq<char>)| #[trigger]
                old(self)@.groups.contains_key(channel) ==> channel_exists(
                    old(self)@.control,
                    channel,
                ),
        ensures
            result is Ok,
            final(self)@.control == old(self)@.control,
            final(self)@.next_chat_op == old(self)@.next_chat_op,
            partly_settled(
                old(self)@.control,
                old(self)@.groups,
                old(self)@.clients,
                final(self)@.groups,
                final(self)@.clients,
                |channel: (Seq<char>, Seq<char>)| old(self)@.groups.contains_key(channel),
            ),
    {
        let refs = self.groups.channel_refs();
        let ghost all = refs.deep_view();
        proof {
            crate::collections::lemma_increasing_no_duplicates::<ChannelKey>(all);
        }
        let mut i: usize = 0;
        while i < refs.len()
            invariant
                i <= refs.len(),
                all == refs.deep_view(),
                all.no_duplicates(),
                forall|channel: (Seq<char>, Seq<char>)| #[trigger]
                    all.contains(channel) <==> old(self)@.groups.dom().contains(channel),
                forall|channel: (Seq<char>, Seq<char>)| #[trigger]
                    old(self)@.groups.contains_key(channel) ==> channel_exists(
                        old(self)@.control,
                        channel,
                    ),
                self@.control == old(self)@.control,
                self@.next_chat_op == old(self)@.next_chat_op,
                partly_settled(
                    old(self)@.control,
                    old(self)@.groups,
                    old(self)@.clients,
                    self@.groups,
                    self@.clients,
                    |channel: (Seq<char>, Seq<char>)| all.take(i as int).contains(channel),
                ),
            decreases refs.len() - i,
        {
            let guild_id = refs[i].0.as_str();
            let channel_id = refs[i].1.as_str();
            let ghost groups = self@.groups;
            let ghost clients = self@.clients;
            let channel = ChannelKey::new(guild_id, channel_id);
            let ghost c = (guild_id@, channel_id@);
            proof {
                assert(all[i as int] == c);
                assert(all.contains(c));
                crate::collections::lemma_take_next(all, i as int);
                assert(old(self)@.groups.contains_key(c));
                assert(channel_exists(self@.control, c));
                assert(self@.groups.contains_key(c));
            }
            let desired = match desired_channel_members(&self.control, guild_id, channel_id) {
                Ok(desired) => desired,
                Err(ReconcileError::GuildNotFound(id)) => {
                    return Err(SimError::Control(ControlError::GuildNotFound(id)));
                },
                Err(ReconcileError::ChannelNotFound { guild_id, channel_id }) => {
                    return Err(
                        SimError::Control(ControlError::ChannelNotFound { guild_id, channel_id }),
                    );
                },
                Err(ReconcileError::Backend(_)) => {
                    return Err(
                        SimError::GroupNotFound {
                            guild_id: guild_id.to_owned(),
                            channel_id: channel_id.to_owned(),
                        },
                    );
                },
            };
            let changed = match self.groups.reconcile_members(
                guild_id,
                channel_id,
                desired.replicate(),
            ) {
                Ok(changed) => changed,
                Err(error) => {
                    return Err(SimError::ChannelGroup(error));
                },
            };
            match self.groups.current_epoch_key(guild_id, channel_id) {
                Some((epoch, key)) => {
                    self.hand_out_key(&channel, &desired, epoch, key, changed);
                },
                None => {
                    return Err(
                        SimError::GroupNotFound {
                            guild_id: guild_id.to_owned(),
                            channel_id: channel_id.to_owned(),
                        },
                    );
                },
            }
            proof {
                lemma_settle_one(
                    old(self)@.control,
                    old(self)@.groups,
                    old(self)@.clients,
                    groups,
                    clients,
                    |channel: (Seq<char>, Seq<char>)| all.take(i as int).contains(channel),
                    self@.groups,
                    self@.clients,
                    |channel: (Seq<char>, Seq<char>)| all.take(i + 1).contains(channel),
                    c,
                    |user: Seq<char>| desired@.contains(user),
                );
            }
            i += 1;
        }
        proof {
            assert(all.take(i as int) =~= all);
        }
        Ok(())
    }

    /// Applies a control operation, and lets groups and keys follow.
    fn apply_control(&mut self, op: ControlEnvelope) -> (result: Result<(), SimError>)
        requires
            relay_sound(old(self)@),
        ensures
            relay_sound(final(self)@),
            match apply_result(old(self)@.control, op@) {
                Err(error) => {
                    &&& outcome(result) == Err::<(), SimErrorModel>(SimErrorModel::Control(error))
                    &&& final(self)@ == old(self)@
                },
                Ok(_) => {
                    &&& result is Ok
                    &&& relay_follows(
                        old(self)@,
                        final(self)@,
                        apply_state(old(self)@.control, op@),
                    )
                },
            },
    {
        let ghost before = self@;
        let ghost op_model = op@;
        if let Err(error) = self.control.apply(op) {
            return Err(SimError::Control(error));
        }
        let ghost control = self.control@;
        self.groups.ensure_from_control(&self.control);
        let ghost middle = self@;
        proof {
            assert forall|channel: (Seq<char>, Seq<char>)| #[trigger]
                middle.groups.contains_key(channel) <==> channel_exists(control, channel) by {
                if before.groups.contains_key(channel) {
                    crate::guild_laws::channels_last(before.control, op_model, channel);
                }
            }
        }
        let result = self.reconcile_groups();
        proof {
            assert forall|channel: (Seq<char>, Seq<char>)| #[trigger]
                self@.groups.contains_key(channel) implies group_follows(
                before.groups,
                control,
                channel,
                self@.groups[channel],
            ) by {
                assert(middle.groups.contains_key(channel));
            }
            assert forall|user: Seq<char>, channel: (Seq<char>, Seq<char>)|
                self@.clients.contains_key(user) implies #[trigger] ring_of(
                self@.clients[user].keyring,
                channel,
            ) == ring_after(user, before.clients[user], before.groups, self@.groups, channel) by {
                if middle.groups.contains_key(channel) {
                    assert(members_in(middle.groups, channel) == members_in(before.groups, channel));
                }
            }
            assert(relay_follows(before, self@, control));
            assert forall|channel: (Seq<char>, Seq<char>)|
                before.groups.dom().contains(channel) implies self@.groups.dom().contains(
                channel,
            ) by {
                assert(before.groups.contains_key(channel));
                crate::guild_laws::channels_last(before.control, op_model, channel);
                assert(middle.groups.contains_key(channel));
            }
            lemma_following_keeps_sound(before, self@, control);
        }
        result
    }

    /// Lets a message reach every client.
    fn broadcast_chat(&mut self, envelope: &ChatEnvelope)
        ensures
            final(self)@.control == old(self)@.control,
            final(self)@.groups == old(self)@.groups,
            final(self)@.next_chat_op == old(self)@.next_chat_op,
            final(self)@.clients == old(self)@.clients.map_values(
                |client: SimClientModel| received(client, envelope@),
            ),
    {
        let users = self.clients.key_set();
        let n: usize = users.len();
        let ghost listing = users.listing();
        let ghost start = self.clients@;
        let mut i: usize = 0;
        while i < n
            invariant
                i <= n == listing.len(),
                listing == users.listing(),
                listing.no_duplicates(),
                forall|user: Seq<char>| #[trigger]
                    listing.contains(user) <==> users@.contains(user),
                users@ == start.dom(),
                start == old(self)@.clients,
                self@.control == old(self)@.control,
                self@.groups == old(self)@.groups,
                self@.next_chat_op == old(self)@.next_chat_op,
                self.clients@.dom() == start.dom(),
                forall|user: Seq<char>| #[trigger]
                    self.clients@.contains_key(user) ==> self.clients@[user] == if listing.take(
                        i as int,
                    ).contains(user) {
                        received(start[user], envelope@)
                    } else {
                        start[user]
                    },
            decreases n - i,
        {
            let user = users.at(i);
            proof {
                crate::collections::lemma_take_next(listing, i as int);
            }
            if let Some(client) = self.clients.take(user) {
                let mut client = client;
                client.receive(envelope.replicate());
                self.clients.insert(user.clone(), client);
            }
            proof {
                assert(self.clients@.dom() =~= start.dom());
            }
            i += 1;
        }
        proof {
            assert(listing.take(i as int) =~= listing);
            assert(self.clients@ =~= start.map_values(
                |client: SimClientModel| received(client, envelope@),
            ));
        }
    }

    /// Sends a message at a given time to every client.
    fn send_message_at(
        &mut self,
        guild_id: &str,
        channel_id: &str,
        actor: &str,
        message_id: &str,
        plaintext: &str,
        ts_ms: i64,
    ) -> (result: Result<ChatEnvelope, SimError>)
        requires
            relay_sound(old(self)@),
        ensures
            relay_sound(final(self)@),
            send_outcome(
                old(self)@,
                final(self)@,
                result,
                guild_id@,
                channel_id@,
                actor@,
                message_id@,
                plaintext@,
                ts_ms,
            ),
    {
        let ghost before = self@;
        let (epoch, key) = match self.groups.get(guild_id, channel_id) {
            None => {
                return Err(
                    SimError::GroupNotFound {
                        guild_id: guild_id.to_owned(),
                        channel_id: channel_id.to_owned(),
                    },
                );
            },
            Some(group) => {
                if !group.members.contains(&actor.to_owned()) {
                    return Err(
                        SimError::ActorNotMember {
                            actor: actor.to_owned(),
                            guild_id: guild_id.to_owned(),
                            channel_id: channel_id.to_owned(),
                        },
                    );
                }
                (group.epoch, group.key)
            },
        };
        if self.next_chat_op < u64::MAX {
            self.next_chat_op = self.next_chat_op + 1;
        }
        let ghost counted = self@;
        let op_id = "chat-op-".to_owned().concat(decimal(self.next_chat_op).as_str());
        proof {
            assert(key.deep_view() =~= key@);
            lemma_counting_keeps_sound(before, counted);
        }
        let envelope = match ChatEnvelope::message_send(
            op_id,
            ts_ms,
            guild_id.to_owned(),
            channel_id.to_owned(),
            actor.to_owned(),
            message_id.to_owned(),
            plaintext,
            epoch,
            key,
        ) {
            Ok(envelope) => envelope,
            Err(error) => {
                return Err(SimError::Chat(error));
            },
        };
        self.broadcast_chat(&envelope);
        proof {
            lemma_receiving_keeps_sound(counted, self@, envelope@);
        }
        Ok(envelope)
    }

    /// What a user could read of a channel.
    fn timeline(&self, user: &str, guild_id: &str, channel_id: &str) -> (messages: Vec<
        TimelineMessage,
    >)
        ensures
            messages.deep_view() == if self@.clients.contains_key(user@) {
                timeline_of(self@.clients[user@].chat, (guild_id@, channel_id@))
            } else {
                Seq::empty()
            },
    {
        match self.clients.get(&user.to_owned()) {
            Some(client) => client.chat.timeline(guild_id, channel_id),
            None => {
                let messages: Vec<TimelineMessage> = Vec::new();
                proof {
                    assert(messages.deep_view() =~= Seq::empty());
                }
                messages
            },
        }
    }

    /// How many messages a user could not read for want of a key.
    fn decrypt_failures(&self, user: &str) -> (count: Option<usize>)
        ensures
            count == if self@.clients.contains_key(user@) {
                Some(self@.clients[user@].decrypt_failures)
            } else {
                None
            },
    {
        match self.clients.get(&user.to_owned()) {
            Some(client) => Some(client.decrypt_failures),
            None => None,
        }
    }
}

impl LocalRelay {
    #[verifier::type_invariant]
    spec fn sound(&self) -> bool {
        relay_sound(self.parts@)
    }

    /// Lets a user take part; one who does already keeps everything.
    pub fn register_client(&mut self, user: &str)
        ensures
            relay_sound(final(self)@),
            final(self)@ == (LocalRelayModel {
                clients: if old(self)@.clients.contains_key(user@) {
                    old(self)@.clients
                } else {
                    old(self)@.clients.insert(
                        user@,
                        SimClientModel {
                            keyring: KeyringModel { rings: Map::empty() },
                            chat: no_chat(),
                            decrypt_failures: 0,
                        },
                    )
                },
                ..old(self)@
            }),
    {
        let mut whole = LocalRelay::default();
        std::mem::swap(self, &mut whole);
        proof {
            use_type_invariant(&whole);
        }
        let mut parts = whole.parts;
        parts.register_client(user);
        *self = LocalRelay { parts };
    }

    /// The control state.
    pub fn control(&self) -> (control: &ControlState)
        ensures
            control@ == self@.control,
    {
        &self.parts.control
    }

    /// Applies a control operation, and lets groups and keys follow.
    pub fn apply_control(&mut self, op: ControlEnvelope) -> (result: Result<(), SimError>)
        ensures
            relay_sound(final(self)@),
            match apply_result(old(self)@.control, op@) {
                Err(error) => {
                    &&& outcome(result) == Err::<(), SimErrorModel>(SimErrorModel::Control(error))
                    &&& final(self)@ == old(self)@
                },
                Ok(_) => {
                    &&& result is Ok
                    &&& relay_follows(
                        old(self)@,
                        final(self)@,
                        apply_state(old(self)@.control, op@),
                    )
                },
            },
    {
        let mut whole = LocalRelay::default();
        std::mem::swap(self, &mut whole);
        proof {
            use_type_invariant(&whole);
        }
        let mut parts = whole.parts;
        let result = parts.apply_control(op);
        *self = LocalRelay { parts };
        result
    }

    /// Sends a message at a given time to every client.
    pub fn send_message_at(
        &mut self,
        guild_id: &str,
        channel_id: &str,
        actor: &str,
        message_id: &str,
        plaintext: &str,
        ts_ms: i64,
    ) -> (result: Result<ChatEnvelope, SimError>)
        ensures
            relay_sound(final(self)@),
            send_outcome(
                old(self)@,
                final(self)@,
                result,
                guild_id@,
                channel_id@,
                actor@,
                message_id@,
                plaintext@,
                ts_ms,
            ),
    {
        let mut whole = LocalRelay::default();
        std::mem::swap(self, &mut whole);
        proof {
            use_type_invariant(&whole);
        }
        let mut parts = whole.parts;
        let result = parts.send_message_at(guild_id, channel_id, actor, message_id, plaintext, ts_ms);
        *self = LocalRelay { parts };
        result
    }

    /// Sends a message now to every client.
    pub fn send_message(
        &mut self,
        guild_id: &str,
        channel_id: &str,
        actor: &str,
        message_id: &str,
        plaintext: &str,
    ) -> (result: Result<ChatEnvelope, SimError>)
        ensures
            relay_sound(final(self)@),
            exists|ts_ms: i64| #[trigger]
                send_outcome(
                    old(self)@,
                    final(self)@,
                    result,
                    guild_id@,
                    channel_id@,
                    actor@,
                    message_id@,
                    plaintext@,
                    ts_ms,
                ),
    {
        self.send_message_at(guild_id, channel_id, actor, message_id, plaintext, now_ms())
    }

    /// What a user could read of a channel.
    pub fn timeline(&self, user: &str, guild_id: &str, channel_id: &str) -> (messages: Vec<
        TimelineMessage,
    >)
        ensures
            messages.deep_view() == if self@.clients.contains_key(user@) {
                timeline_of(self@.clients[user@].chat, (guild_id@, channel_id@))
            } else {
                Seq::empty()
            },
    {
        self.parts.timeline(user, guild_id, channel_id)
    }

    /// How many messages a user could not read for want of a key.
    pub fn decrypt_failures(&self, user: &str) -> (count: Option<usize>)
        ensures
            count == if self@.clients.contains_key(user@) {
                Some(self@.clients[user@].decrypt_failures)
            } else {
                None
            },
    {
        self.parts.decrypt_failures(user)
    }
}

/// The relay with one more chat operation counted.
pub open spec fn one_more_op(relay: LocalRelayModel) -> LocalRelayModel {
    LocalRelayModel {
        next_chat_op: if relay.next_chat_op < u64::MAX {
            (relay.next_chat_op + 1) as u64
        } else {
            relay.next_chat_op
        },
        ..relay
    }
}

/// What sending a message comes to. The channel must have a group and the actor
/// be in it; a message that cannot be sealed is counted and not sent; any other
/// is sealed under the present key and reaches every client.
pub open spec fn send_outcome(
    before: LocalRelayModel,
    after: LocalRelayModel,
    result: Result<ChatEnvelope, SimError>,
    guild_id: Seq<char>,
    channel_id: Seq<char>,
    actor: Seq<char>,
    message_id: Seq<char>,
    plaintext: Seq<char>,
    ts_ms: i64,
) -> bool {
    let channel = (guild_id, channel_id);
    let counted = one_more_op(before);
    if !before.groups.contains_key(channel) {
        &&& outcome(result) == Err::<ChatEnvelope, SimErrorModel>(
            SimErrorModel::GroupNotFound { guild_id, channel_id },
        )
        &&& after == before
    } else if !before.groups[channel].members.contains(actor) {
        &&& outcome(result) == Err::<ChatEnvelope, SimErrorModel>(
            SimErrorModel::ActorNotMember { actor, guild_id, channel_id },
        )
        &&& after == before
    } else if !sealable(plaintext) {
        &&& outcome(result) == Err::<ChatEnvelope, SimErrorModel>(
            SimErrorModel::Chat(ChatErrorModel::DecryptFailed),
        )
        &&& after == counted
    } else {
        &&& result is Ok
        &&& is_message(
            result->Ok_0@,
            counted,
            channel,
            actor,
            message_id,
            plaintext,
            ts_ms,
        )
        &&& after == LocalRelayModel {
            clients: counted.clients.map_values(
                |client: SimClientModel| received(client, result->Ok_0@),
            ),
            ..counted
        }
    }
}

/// Whether an operation is the latest of the relay, sends a message to a channel
/// in its present epoch, and reads as `plaintext` under its present key.
pub open spec fn is_message(
    op: ChatEnvelopeModel,
    relay: LocalRelayModel,
    channel: (Seq<char>, Seq<char>),
    actor: Seq<char>,
    message_id: Seq<char>,
    plaintext: Seq<char>,
    ts_ms: i64,
) -> bool {
    &&& op.schema == CHAT_SCHEMA_V1@
    &&& op.guild_id == channel.0
    &&& op.channel_id == channel.1
    &&& op.actor == actor
    &&& op.op_id == chat_op_id(relay.next_chat_op as nat)
    &&& op.ts_ms == ts_ms
    &&& op.body matches ChatBodyModel::MessageSend { message_id: id, epoch, .. } && id == message_id
        && epoch == relay.groups[channel].epoch
    &&& opens_to(op, relay.groups[channel].key, plaintext)
}

proof fn lemma_counting_keeps_sound(before: LocalRelayModel, after: LocalRelayModel)
    requires
        relay_sound(before),
        after == one_more_op(before),
    ensures
        relay_sound(after),
{
    assert forall|user: Seq<char>| #[trigger] after.clients.contains_key(user) implies chat_sound(
        after.clients[user],
        after.next_chat_op,
    ) by {
        assert(chat_sound(before.clients[user], before.next_chat_op));
        assert forall|id: Seq<char>| #[trigger]
            after.clients[user].chat.seen_op_ids.contains(id) implies exists|n: nat|
            n <= after.next_chat_op && id == #[trigger] chat_op_id(n) by {
            let n = choose|n: nat| n <= before.next_chat_op && id == #[trigger] chat_op_id(n);
            assert(n <= after.next_chat_op && id == chat_op_id(n));
        }
    }
}

proof fn lemma_receiving_keeps_sound(
    before: LocalRelayModel,
    after: LocalRelayModel,
    op: ChatEnvelopeModel,
)
    requires
        relay_sound(before),
        op.op_id == chat_op_id(before.next_chat_op as nat),
        after == (LocalRelayModel {
            clients: before.clients.map_values(|client: SimClientModel| received(client, op)),
            ..before
        }),
    ensures
        relay_sound(after),
{
    assert forall|user: Seq<char>| #[trigger] after.clients.contains_key(user) implies keys_sound(
        user,
        after.clients[user],
        after.groups,
    ) && chat_sound(after.clients[user], after.next_chat_op) by {
        let client = before.clients[user];
        assert(before.clients.contains_key(user));
        assert(after.clients[user] == received(client, op));
        assert(keys_sound(user, client, before.groups));
        assert(after.clients[user].keyring == client.keyring);
        assert forall|id: Seq<char>| #[trigger]
            after.clients[user].chat.seen_op_ids.contains(id) implies exists|n: nat|
            n <= after.next_chat_op && id == #[trigger] chat_op_id(n) by {
            if client.chat.seen_op_ids.contains(id) {
            } else {
                assert(id == chat_op_id(before.next_chat_op as nat));
            }
        }
    }
}

/// A client who has the key of the present epoch reads a message that is sent:
/// it is the last of the channel, with the text that the sender wrote.
/// (The relay must have an id left that was not used.)
pub proof fn key_holder_reads_message(
    relay: LocalRelayModel,
    user: Seq<char>,
    op: ChatEnvelopeModel,
    channel: (Seq<char>, Seq<char>),
    actor: Seq<char>,
    message_id: Seq<char>,
    plaintext: Seq<char>,
    ts_ms: i64,
)
    requires
        relay_sound(relay),
        relay.next_chat_op < u64::MAX,
        relay.clients.contains_key(user),
        relay.groups.contains_key(channel),
        key_in(relay.clients[user].keyring, channel, relay.groups[channel].epoch) == Some(
            relay.groups[channel].key,
        ),
        is_message(op, one_more_op(relay), channel, actor, message_id, plaintext, ts_ms),
    ensures
        timeline_of(received(relay.clients[user], op).chat, channel) == timeline_of(
            relay.clients[user].chat,
            channel,
        ).push(
            TimelineMessageModel {
                message_id,
                author: actor,
                content: plaintext,
                edited: false,
                deleted: false,
                reactions: Map::empty(),
                ts_ms,
            },
        ),
        received(relay.clients[user], op).decrypt_failures
            == relay.clients[user].decrypt_failures,
{
    let client = relay.clients[user];
    assert(chat_sound(client, relay.next_chat_op));
    if client.chat.seen_op_ids.contains(op.op_id) {
        let n = choose|n: nat| n <= relay.next_chat_op && op.op_id == #[trigger] chat_op_id(n);
        let last = (relay.next_chat_op + 1) as nat;
        assert(chat_op_id(n) == chat_op_id(last));
        assert(chat_op_id(n).skip("chat-op-"@.len() as int) =~= decimal_text(n));
        assert(chat_op_id(last).skip("chat-op-"@.len() as int) =~= decimal_text(last));
        lemma_decimal_injective(n, last);
    }
}

/// Who may not see a channel cannot read what is sent there: the message counts
/// as one more that could not be read, and no timeline changes.
pub proof fn outsider_cannot_read_message(
    relay: LocalRelayModel,
    user: Seq<char>,
    op: ChatEnvelopeModel,
    channel: (Seq<char>, Seq<char>),
    actor: Seq<char>,
    message_id: Seq<char>,
    plaintext: Seq<char>,
    ts_ms: i64,
    other: (Seq<char>, Seq<char>),
)
    requires
        relay_sound(relay),
        relay.next_chat_op < u64::MAX,
        relay.clients.contains_key(user),
        relay.clients[user].decrypt_failures < usize::MAX,
        relay.groups.contains_key(channel),
        relay.groups[channel].epoch < u64::MAX,
        desired_members(relay.control, channel.0, channel.1) matches Ok(members)
            && !members.contains(user),
        is_message(op, one_more_op(relay), channel, actor, message_id, plaintext, ts_ms),
    ensures
        received(relay.clients[user], op).decrypt_failures
            == relay.clients[user].decrypt_failures + 1,
        timeline_of(received(relay.clients[user], op).chat, other) == timeline_of(
            relay.clients[user].chat,
            other,
        ),
{
    let client = relay.clients[user];
    assert(group_sound(relay.control, channel, relay.groups[channel]));
    assert(keys_sound(user, client, relay.groups));
    assert(chat_sound(client, relay.next_chat_op));
    assert(!ring_of(client.keyring, channel).contains_key(relay.groups[channel].epoch));
    if client.chat.seen_op_ids.contains(op.op_id) {
        let n = choose|n: nat| n <= relay.next_chat_op && op.op_id == #[trigger] chat_op_id(n);
        let last = (relay.next_chat_op + 1) as nat;
        assert(chat_op_id(n) == chat_op_id(last));
        assert(chat_op_id(n).skip("chat-op-"@.len() as int) =~= decimal_text(n));
        assert(chat_op_id(last).skip("chat-op-"@.len() as int) =~= decimal_text(last));
        lemma_decimal_injective(n, last);
    }
}

/// After a control operation every client who may see a channel has its present
/// key.
pub proof fn members_are_given_the_key(
    before: LocalRelayModel,
    after: LocalRelayModel,
    control: ControlStateModel,
    user: Seq<char>,
    channel: (Seq<char>, Seq<char>),
)
    requires
        relay_sound(before),
        relay_follows(before, after, control),
        before.groups.dom().subset_of(after.groups.dom()),
        after.clients.contains_key(user),
        after.groups.contains_key(channel),
        after.groups[channel].epoch < u64::MAX,
        after.groups[channel].members.contains(user),
    ensures
        key_in(after.clients[user].keyring, channel, after.groups[channel].epoch) == Some(
            after.groups[channel].key,
        ),
{
    lemma_following_keeps_sound(before, after, control);
    assert(ring_of(after.clients[user].keyring, channel) == ring_after(
        user,
        before.clients[user],
        before.groups,
        after.groups,
        channel,
    ));
    assert(keys_sound(user, after.clients[user], after.groups));
    assert(ring_of(after.clients[user].keyring, channel).contains_key(after.groups[channel].epoch));
}

} // verus!
