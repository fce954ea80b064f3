//! The group of a channel: who is in it, and the key that its messages are
//! sealed under. Each change of membership opens a new epoch with a fresh key.
use vstd::prelude::*;
use crate::collections::{lists, ChannelKey, OrdMap, OrdSet, Replicate};
use crate::control::{ControlState, ControlStateModel};
use crate::crypto::random_key;

verus! {

/// Why a group could not be found.
#[derive(Debug, PartialEq, Eq)]
pub enum ChannelGroupError {
    Missing { guild_id: String, channel_id: String },
}

/// What a [`ChannelGroupError`] holds.
#[verifier::ext_equal]
pub enum ChannelGroupErrorModel {
    Missing { guild_id: Seq<char>, channel_id: Seq<char> },
}

impl DeepView for ChannelGroupError {
    type V = ChannelGroupErrorModel;

    open spec fn deep_view(&self) -> ChannelGroupErrorModel {
        match self {
            ChannelGroupError::Missing { guild_id, channel_id } => ChannelGroupErrorModel::Missing {
                guild_id: guild_id.deep_view(),
                channel_id: channel_id.deep_view(),
            },
        }
    }
}

impl View for ChannelGroupError {
    type V = ChannelGroupErrorModel;

    open spec fn view(&self) -> ChannelGroupErrorModel {
        self.deep_view()
    }
}

impl Replicate for ChannelGroupError {
    fn replicate(&self) -> (copy: Self) {
        match self {
            ChannelGroupError::Missing { guild_id, channel_id } => ChannelGroupError::Missing {
                guild_id: guild_id.replicate(),
                channel_id: channel_id.replicate(),
            },
        }
    }
}

impl Clone for ChannelGroupError {
    fn clone(&self) -> (copy: Self)
        ensures
            copy@ == self@,
    {
        self.replicate()
    }
}

/// The group of a channel.
#[derive(Debug, PartialEq, Eq)]
pub struct ChannelGroupState {
    pub guild_id: String,
    pub channel_id: String,
    pub epoch: u64,
    pub members: OrdSet<String>,
    pub key: [u8; 32],
}

/// What a [`ChannelGroupState`] holds.
#[verifier::ext_equal]
pub struct ChannelGroupStateModel {
    pub guild_id: Seq<char>,
    pub channel_id: Seq<char>,
    pub epoch: u64,
    pub members: Set<Seq<char>>,
    pub key: Seq<u8>,
}

impl DeepView for ChannelGroupState {
    type V = ChannelGroupStateModel;

    open spec fn deep_view(&self) -> ChannelGroupStateModel {
        ChannelGroupStateModel {
            guild_id: self.guild_id.deep_view(),
            channel_id: self.channel_id.deep_view(),
            epoch: self.epoch.deep_view(),
            members: self.members.deep_view(),
            key: self.key.deep_view(),
        }
    }
}

impl View for ChannelGroupState {
    type V = ChannelGroupStateModel;

    open spec fn view(&self) -> ChannelGroupStateModel {
        self.deep_view()
    }
}

impl Replicate for ChannelGroupState {
    fn replicate(&self) -> (copy: Self) {
        ChannelGroupState {
            guild_id: self.guild_id.replicate(),
            channel_id: self.channel_id.replicate(),
            epoch: self.epoch.replicate(),
            members: self.members.replicate(),
            key: self.key.replicate(),
        }
    }
}

impl Clone for ChannelGroupState {
    fn clone(&self) -> (copy: Self)
        ensures
            copy@ == self@,
    {
        self.replicate()
    }
}

/// The groups of all channels.
#[derive(Debug, PartialEq, Eq)]
pub struct ChannelGroupDirectory {
    groups: OrdMap<ChannelKey, ChannelGroupState>,
}

impl DeepView for ChannelGroupDirectory {
    type V = Map<(Seq<char>, Seq<char>), ChannelGroupStateModel>;

    closed spec fn deep_view(&self) -> Map<(Seq<char>, Seq<char>), ChannelGroupStateModel> {
        self.groups@
    }
}

impl View for ChannelGroupDirectory {
    type V = Map<(Seq<char>, Seq<char>), ChannelGroupStateModel>;

    open spec fn view(&self) -> Map<(Seq<char>, Seq<char>), ChannelGroupStateModel> {
        self.deep_view()
    }
}

impl Replicate for ChannelGroupDirectory {
    fn replicate(&self) -> (copy: Self) {
        ChannelGroupDirectory { groups: self.groups.replicate() }
    }
}

impl Clone for ChannelGroupDirectory {
    fn clone(&self) -> (copy: Self)
        ensures
            copy@ == self@,
    {
        self.replicate()
    }
}

impl Default for ChannelGroupDirectory {
    fn default() -> (directory: Self)
        ensures
            directory@ == Map::<(Seq<char>, Seq<char>), ChannelGroupStateModel>::empty(),
    {
        ChannelGroupDirectory { groups: OrdMap::new() }
    }
}

/// Whether the control state has a channel.
pub open spec fn channel_exists(control: ControlStateModel, channel: (Seq<char>, Seq<char>)) -> bool {
    control.guilds.contains_key(channel.0) && control.guilds[channel.0].channels.contains_key(
        channel.1,
    )
}

/// A group that was just made, with whatever key.
pub open spec fn fresh_group(
    channel: (Seq<char>, Seq<char>),
    group: ChannelGroupStateModel,
) -> bool {
    &&& group.guild_id == channel.0
    &&& group.channel_id == channel.1
    &&& group.epoch == 0
    &&& group.members == Set::<Seq<char>>::empty()
    &&& group.key.len() == 32
}

/// Whether `after` is `before` with a fresh group for each of `channels` that had
/// none, and nothing else.
pub open spec fn groups_added(
    before: Map<(Seq<char>, Seq<char>), ChannelGroupStateModel>,
    after: Map<(Seq<char>, Seq<char>), ChannelGroupStateModel>,
    channels: spec_fn((Seq<char>, Seq<char>)) -> bool,
) -> bool {
    &&& forall|channel: (Seq<char>, Seq<char>)| #[trigger]
        after.contains_key(channel) <==> before.contains_key(channel) || channels(channel)
    &&& forall|channel: (Seq<char>, Seq<char>)| #[trigger]
        after.contains_key(channel) ==> if before.contains_key(channel) {
            after[channel] == before[channel]
        } else {
            fresh_group(channel, after[channel])
        }
}

/// A group whose members became `desired`: where that is a change, a new epoch
/// begins, with the key `fresh`.
pub open spec fn regrouped(
    group: ChannelGroupStateModel,
    desired: Set<Seq<char>>,
    fresh: Seq<u8>,
) -> ChannelGroupStateModel {
    if group.members == desired {
        group
    } else {
        ChannelGroupStateModel {
            members: desired,
            epoch: if group.epoch < u64::MAX {
                (group.epoch + 1) as u64
            } else {
                group.epoch
            },
            key: fresh,
            ..group
        }
    }
}

impl ChannelGroupError {
    /// The failure in words.
    pub open spec fn words(error: ChannelGroupErrorModel) -> Seq<char> {
        match error {
            ChannelGroupErrorModel::Missing { guild_id, channel_id } => "channel group not found: "@
                + guild_id + "/"@ + channel_id,
        }
    }

    /// The failure in words.
    pub fn message(&self) -> (text: String)
        ensures
            text@ == ChannelGroupError::words(self@),
    {
        match self {
            ChannelGroupError::Missing { guild_id, channel_id } => "channel group not found: ".to_owned().concat(
                guild_id.as_str(),
            ).concat("/").concat(channel_id.as_str()),
        }
    }
}

/// The channels of the guilds before place `i`, and those before place `j` of
/// the guild at place `i`.
spec fn channels_up_to(
    control: ControlStateModel,
    guilds: Seq<Seq<char>>,
    i: int,
    channels: Seq<Seq<char>>,
    j: int,
) -> spec_fn((Seq<char>, Seq<char>)) -> bool {
    |channel: (Seq<char>, Seq<char>)|
        channel_exists(control, channel) && (guilds.take(i).contains(channel.0) || (i < guilds.len()
            && guilds[i] == channel.0 && channels.take(j).contains(channel.1)))
}

impl ChannelGroupDirectory {
    /// Makes a group for a channel that has none.
    pub fn ensure_group(&mut self, guild_id: &String, channel_id: &String, key: [u8; 32])
        ensures
            final(self)@ == if old(self)@.contains_key((guild_id@, channel_id@)) {
                old(self)@
            } else {
                old(self)@.insert(
                    (guild_id@, channel_id@),
                    ChannelGroupStateModel {
                        guild_id: guild_id@,
                        channel_id: channel_id@,
                        epoch: 0,
                        members: Set::empty(),
                        key: key.deep_view(),
                    },
                )
            },
    {
        let channel = ChannelKey::new(guild_id.as_str(), channel_id.as_str());
        if self.groups.contains_key(&channel) {
            return ;
        }
        self.groups.insert(
            channel,
            ChannelGroupState {
                guild_id: guild_id.clone(),
                channel_id: channel_id.clone(),
                epoch: 0,
                members: OrdSet::new(),
                key,
            },
        );
    }

    /// Makes a group, under a random key, for each channel that has none; gives
    /// the number of those made.
    pub fn ensure_from_control(&mut self, control: &ControlState) -> (created: usize)
        ensures
            groups_added(
                old(self)@,
                final(self)@,
                |channel: (Seq<char>, Seq<char>)| channel_exists(control@, channel),
            ),
            created == final(self)@.dom().len() - old(self)@.dom().len(),
    {
        let before: usize = self.groups.len();
        let ghost start = self@;
        let guild_count: usize = control.guilds.len();
        let ghost guilds = control.guilds.listing();
        let mut i: usize = 0;
        while i < guild_count
            invariant
                i <= guild_count == guilds.len(),
                guilds == control.guilds.listing(),
                guilds.no_duplicates(),
                before <= self@.dom().len(),
                self@.dom().finite(),
                groups_added(start, self@, channels_up_to(control@, guilds, i as int, Seq::empty(), 0)),
            decreases guild_count - i,
        {
            let guild_id = control.guilds.key_at(i);
            let guild = control.guilds.value_at(i);
            let channel_count: usize = guild.channels.len();
            let ghost channels = guild.channels.listing();
            let mut j: usize = 0;
            proof {
                let here = channels_up_to(control@, guilds, i as int, channels, 0);
                let there = channels_up_to(control@, guilds, i as int, Seq::empty(), 0);
                assert forall|c: (Seq<char>, Seq<char>)| #[trigger] here(c) == there(c) by {}
            }
            while j < channel_count
                invariant
                    j <= channel_count == channels.len(),
                    i < guild_count == guilds.len(),
                    guilds == control.guilds.listing(),
                    guild_id@ == guilds[i as int],
                    control@.guilds.contains_key(guild_id@),
                    guild@ == control@.guilds[guild_id@],
                    channels == guild.channels.listing(),
                    before <= self@.dom().len(),
                    self@.dom().finite(),
                    groups_added(start, self@, channels_up_to(control@, guilds, i as int, channels, j as int)),
                decreases channel_count - j,
            {
                let channel_id = guild.channels.key_at(j);
                let ghost middle = self@;
                self.ensure_group(guild_id, channel_id, random_key());
                proof {
                    let new = (guild_id@, channel_id@);
                    let here = channels_up_to(control@, guilds, i as int, channels, j as int);
                    let next = channels_up_to(control@, guilds, i as int, channels, j + 1);
                    assert(channels.take(j + 1) =~= channels.take(j as int).push(channel_id@));
                    assert forall|c: (Seq<char>, Seq<char>)| #[trigger]
                        next(c) == (here(c) || c == new) by {
                        crate::collections::lemma_push_to_set(channels.take(j as int), channel_id@);
                        assert(channels.take(j + 1).to_set().contains(c.1) <==> channels.take(
                            j as int,
                        ).to_set().insert(channel_id@).contains(c.1));
                    }
                    assert(next(new));
                    assert forall|c: (Seq<char>, Seq<char>)| #[trigger]
                        self@.contains_key(c) <==> start.contains_key(c) || next(c) by {
                        assert(middle.contains_key(c) <==> start.contains_key(c) || here(c));
                    }
                    assert forall|c: (Seq<char>, Seq<char>)| #[trigger]
                        self@.contains_key(c) implies if start.contains_key(c) {
                        self@[c] == start[c]
                    } else {
                        fresh_group(c, self@[c])
                    } by {
                        if middle.contains_key(c) {
                        } else {
                            assert(c == new);
                        }
                    }
                }
                j += 1;
            }
            proof {
                let here = channels_up_to(control@, guilds, i as int, channels, j as int);
                let next = channels_up_to(control@, guilds, i + 1, Seq::empty(), 0);
                assert(channels.take(j as int) =~= channels);
                assert(guilds.take(i + 1) =~= guilds.take(i as int).push(guild_id@));
                assert forall|c: (Seq<char>, Seq<char>)| #[trigger] here(c) == next(c) by {
                    crate::collections::lemma_push_to_set(guilds.take(i as int), guild_id@);
                    assert(guilds.take(i + 1).to_set().contains(c.0) <==> guilds.take(
                        i as int,
                    ).to_set().insert(guild_id@).contains(c.0));
                    assert(channels.contains(c.1) <==> guild@.channels.dom().contains(c.1));
                }
            }
            i += 1;
        }
        proof {
            let here = channels_up_to(control@, guilds, i as int, Seq::empty(), 0);
            assert(guilds.take(i as int) =~= guilds);
            assert forall|c: (Seq<char>, Seq<char>)| #[trigger] here(c) == channel_exists(
                control@,
                c,
            ) by {
                assert(guilds.contains(c.0) <==> control@.guilds.dom().contains(c.0));
            }
        }
        let after: usize = self.groups.len();
        after - before
    }

    /// The group of a channel.
    pub fn get(&self, guild_id: &str, channel_id: &str) -> (group: Option<&ChannelGroupState>)
        ensures
            match group {
                Some(group) => self@.contains_key((guild_id@, channel_id@)) && group@
                    == self@[(guild_id@, channel_id@)],
                None => !self@.contains_key((guild_id@, channel_id@)),
            },
    {
        self.groups.get(&ChannelKey::new(guild_id, channel_id))
    }

    /// The epoch and the key that a channel's messages are sealed under now.
    pub fn current_epoch_key(&self, guild_id: &str, channel_id: &str) -> (current: Option<
        (u64, [u8; 32]),
    >)
        ensures
            match current {
                Some((epoch, key)) => {
                    &&& self@.contains_key((guild_id@, channel_id@))
                    &&& epoch == self@[(guild_id@, channel_id@)].epoch
                    &&& key.deep_view() == self@[(guild_id@, channel_id@)].key
                },
                None => !self@.contains_key((guild_id@, channel_id@)),
            },
    {
        match self.get(guild_id, channel_id) {
            Some(group) => Some((group.epoch, group.key)),
            None => None,
        }
    }

    /// The members of a channel's group.
    pub fn members(&self, guild_id: &str, channel_id: &str) -> (result: Result<
        OrdSet<String>,
        ChannelGroupError,
    >)
        ensures
            match result {
                Ok(members) => self@.contains_key((guild_id@, channel_id@)) && members@
                    == self@[(guild_id@, channel_id@)].members,
                Err(error) => !self@.contains_key((guild_id@, channel_id@)) && error@
                    == (ChannelGroupErrorModel::Missing {
                    guild_id: guild_id@,
                    channel_id: channel_id@,
                }),
            },
    {
        match self.get(guild_id, channel_id) {
            Some(group) => Ok(group.members.replicate()),
            None => Err(
                ChannelGroupError::Missing {
                    guild_id: guild_id.to_owned(),
                    channel_id: channel_id.to_owned(),
                },
            ),
        }
    }

    /// Sets the members of a channel's group; where that is a change, a new
    /// epoch begins, with the key `fresh`. Says whether it was one.
    pub fn reconcile_members_with_key(
        &mut self,
        guild_id: &str,
        channel_id: &str,
        desired: OrdSet<String>,
        fresh: [u8; 32],
    ) -> (result: Result<bool, ChannelGroupError>)
        ensures
            ({
                let channel = (guild_id@, channel_id@);
                if old(self)@.contains_key(channel) {
                    &&& result == Ok::<bool, ChannelGroupError>(
                        old(self)@[channel].members != desired@,
                    )
                    &&& final(self)@ == old(self)@.insert(
                        channel,
                        regrouped(old(self)@[channel], desired@, fresh.deep_view()),
                    )
                } else {
                    &&& result matches Err(error) && error@ == (ChannelGroupErrorModel::Missing {
                        guild_id: guild_id@,
                        channel_id: channel_id@,
                    })
                    &&& final(self)@ == old(self)@
                }
            }),
    {
        let channel = ChannelKey::new(guild_id, channel_id);
        let changed = match self.groups.get(&channel) {
            None => {
                return Err(
                    ChannelGroupError::Missing {
                        guild_id: guild_id.to_owned(),
                        channel_id: channel_id.to_owned(),
                    },
                );
            },
            Some(group) => !group.members.same(&desired),
        };
        if !changed {
            proof {
                assert(self@ =~= self@.insert(channel@, self@[channel@]));
            }
            return Ok(false);
        }
        if let Some(group) = self.groups.take(&channel) {
            let mut group = group;
            group.members = desired;
            if group.epoch < u64::MAX {
                group.epoch = group.epoch + 1;
            }
            group.key = fresh;
            self.groups.insert(channel, group);
        }
        proof {
            assert(self@ =~= old(self)@.insert(
                channel@,
                regrouped(old(self)@[channel@], desired@, fresh.deep_view()),
            ));
        }
        Ok(true)
    }

    /// Sets the members of a channel's group; where that is a change, a new
    /// epoch begins, with a random key. Says whether it was one.
    pub fn reconcile_members(
        &mut self,
        guild_id: &str,
        channel_id: &str,
        desired: OrdSet<String>,
    ) -> (result: Result<bool, ChannelGroupError>)
        ensures
            ({
                let channel = (guild_id@, channel_id@);
                if old(self)@.contains_key(channel) {
                    &&& result == Ok::<bool, ChannelGroupError>(
                        old(self)@[channel].members != desired@,
                    )
                    &&& final(self)@.contains_key(channel)
                    &&& final(self)@ == old(self)@.insert(
                        channel,
                        regrouped(old(self)@[channel], desired@, final(self)@[channel].key),
                    )
                    &&& final(self)@[channel].key.len() == 32 || old(self)@[channel].members
                        == desired@
                } else {
                    &&& result matches Err(error) && error@ == (ChannelGroupErrorModel::Missing {
                        guild_id: guild_id@,
                        channel_id: channel_id@,
                    })
                    &&& final(self)@ == old(self)@
                }
            }),
    {
        self.reconcile_members_with_key(guild_id, channel_id, desired, random_key())
    }

    /// All channels that have a group, in increasing order.
    pub fn channel_refs(&self) -> (refs: Vec<(String, String)>)
        ensures
            lists::<ChannelKey>(refs.deep_view(), self@.dom()),
    {
        let n: usize = self.groups.len();
        let mut refs: Vec<(String, String)> = Vec::new();
        let mut i: usize = 0;
        while i < n
            invariant
                i <= n == self.groups.listing().len(),
                refs.deep_view() == self.groups.listing().take(i as int),
            decreases n - i,
        {
            let key = self.groups.key_at(i);
            let ghost before = refs.deep_view();
            refs.push((key.guild_id.clone(), key.channel_id.clone()));
            proof {
                assert(refs.deep_view() =~= before.push(self.groups.listing()[i as int]));
                assert(self.groups.listing().take(i + 1) =~= before.push(
                    self.groups.listing()[i as int],
                ));
            }
            i += 1;
        }
        proof {
            assert(self.groups.listing().take(i as int) =~= self.groups.listing());
        }
        refs
    }
}

/// Setting the same members again changes nothing: neither epoch nor key.
pub proof fn regrouping_settles(
    group: ChannelGroupStateModel,
    desired: Set<Seq<char>>,
    fresh: Seq<u8>,
    later: Seq<u8>,
)
    ensures
        regrouped(regrouped(group, desired, fresh), desired, later) == regrouped(
            group,
            desired,
            fresh,
        ),
        regrouped(group, desired, fresh).members == desired,
{
}

/// A change of membership opens the next epoch, under the fresh key; without a
/// change both stay. (The last epoch that can be counted has no next one.)
pub proof fn membership_change_opens_epoch(
    group: ChannelGroupStateModel,
    desired: Set<Seq<char>>,
    fresh: Seq<u8>,
)
    requires
        group.epoch < u64::MAX,
    ensures
        group.members != desired ==> regrouped(group, desired, fresh).epoch == group.epoch + 1
            && regrouped(group, desired, fresh).key == fresh,
        group.members == desired ==> regrouped(group, desired, fresh) == group,
{
}

/// A call that changes a directory of groups.
pub enum GroupCall {
    /// [`ChannelGroupDirectory::ensure_from_control`].
    Ensure { control: ControlStateModel },
    /// [`ChannelGroupDirectory::reconcile_members`].
    Reconcile { channel: (Seq<char>, Seq<char>), desired: Set<Seq<char>> },
}

/// Whether a call can lead from one directory to another.
pub open spec fn group_step(
    before: Map<(Seq<char>, Seq<char>), ChannelGroupStateModel>,
    call: GroupCall,
    after: Map<(Seq<char>, Seq<char>), ChannelGroupStateModel>,
) -> bool {
    match call {
        GroupCall::Ensure { control } => groups_added(
            before,
            after,
            |channel: (Seq<char>, Seq<char>)| channel_exists(control, channel),
        ),
        GroupCall::Reconcile { channel, desired } => if before.contains_key(channel) {
            &&& after.contains_key(channel)
            &&& after == before.insert(
                channel,
                regrouped(before[channel], desired, after[channel].key),
            )
        } else {
            after == before
        },
    }
}

/// Whether directories are what a run of calls leads through, from the empty one on.
pub open spec fn group_run(
    directories: Seq<Map<(Seq<char>, Seq<char>), ChannelGroupStateModel>>,
    calls: Seq<GroupCall>,
) -> bool {
    &&& directories.len() == calls.len() + 1
    &&& directories[0] == Map::<(Seq<char>, Seq<char>), ChannelGroupStateModel>::empty()
    &&& forall|i: int|
        0 <= i < calls.len() ==> group_step(
            directories[i],
            #[trigger] calls[i],
            directories[i + 1],
        )
}

/// Whether a call changes the members of a channel's group: it is answered with
/// `true`.
pub open spec fn changes_members(
    before: Map<(Seq<char>, Seq<char>), ChannelGroupStateModel>,
    call: GroupCall,
    channel: (Seq<char>, Seq<char>),
) -> bool {
    &&& before.contains_key(channel)
    &&& call matches GroupCall::Reconcile { channel: asked, desired } && asked == channel
        && before[channel].members != desired
}

/// How many calls of a run changed the members of a channel's group.
pub open spec fn member_changes(
    directories: Seq<Map<(Seq<char>, Seq<char>), ChannelGroupStateModel>>,
    calls: Seq<GroupCall>,
    channel: (Seq<char>, Seq<char>),
) -> nat
    decreases calls.len(),
{
    if calls.len() == 0 {
        0
    } else {
        member_changes(directories, calls.drop_last(), channel) + if changes_members(
            directories[calls.len() - 1],
            calls.last(),
            channel,
        ) {
            1nat
        } else {
            0
        }
    }
}

/// Whether some call of a run made sure of groups where a channel existed.
pub open spec fn was_ensured(calls: Seq<GroupCall>, channel: (Seq<char>, Seq<char>)) -> bool {
    exists|i: int|
        0 <= i < calls.len() && (#[trigger] calls[i] matches GroupCall::Ensure { control }
            && channel_exists(control, channel))
}

/// Over any run of calls the epoch of a group counts the changes of its members, and
/// of no other's; and there is a group for exactly the channels that groups were made
/// sure of. (The count stops at the last epoch there is.)
pub proof fn epoch_counts_member_changes(
    directories: Seq<Map<(Seq<char>, Seq<char>), ChannelGroupStateModel>>,
    calls: Seq<GroupCall>,
    channel: (Seq<char>, Seq<char>),
)
    requires
        group_run(directories, calls),
    ensures
        ({
            let last = directories[calls.len() as int];
            let n = member_changes(directories, calls, channel);
            &&& last.contains_key(channel) <==> was_ensured(calls, channel)
            &&& last.contains_key(channel) && n <= u64::MAX ==> last[channel].epoch == n
            &&& last.contains_key(channel) && n > u64::MAX ==> last[channel].epoch == u64::MAX
            &&& !last.contains_key(channel) ==> n == 0
        }),
    decreases calls.len(),
{
    if calls.len() > 0 {
        let earlier = calls.drop_last();
        let before = directories.drop_last();
        let k = calls.len() - 1;
        assert forall|i: int| 0 <= i < earlier.len() implies group_step(
            before[i],
            #[trigger] earlier[i],
            before[i + 1],
        ) by {
            assert(group_step(directories[i], calls[i], directories[i + 1]));
        }
        epoch_counts_member_changes(before, earlier, channel);
        lemma_same_changes(before, directories, earlier, channel);
        assert(group_step(directories[k], calls[k], directories[k + 1]));
        assert(was_ensured(calls, channel) <==> was_ensured(earlier, channel) || (
        calls[k] matches GroupCall::Ensure { control } && channel_exists(control, channel))) by {
            if was_ensured(earlier, channel) {
                let i = choose|i: int|
                    0 <= i < earlier.len() && (#[trigger] earlier[i] matches GroupCall::Ensure {
                        control,
                    } && channel_exists(control, channel));
                assert(calls[i] == earlier[i]);
            }
            if was_ensured(calls, channel) {
                let i = choose|i: int|
                    0 <= i < calls.len() && (#[trigger] calls[i] matches GroupCall::Ensure {
                        control,
                    } && channel_exists(control, channel));
                if i < k {
                    assert(earlier[i] == calls[i]);
                }
            }
        }
    }
}

proof fn lemma_same_changes(
    a: Seq<Map<(Seq<char>, Seq<char>), ChannelGroupStateModel>>,
    b: Seq<Map<(Seq<char>, Seq<char>), ChannelGroupStateModel>>,
    calls: Seq<GroupCall>,
    channel: (Seq<char>, Seq<char>),
)
    requires
        forall|i: int| 0 <= i < calls.len() ==> #[trigger] a[i] == b[i],
    ensures
        member_changes(a, calls, channel) == member_changes(b, calls, channel),
    decreases calls.len(),
{
    if calls.len() > 0 {
        lemma_same_changes(a, b, calls.drop_last(), channel);
        assert(a[calls.len() - 1] == b[calls.len() - 1]);
    }
}

} // verus!
