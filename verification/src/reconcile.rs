//! Bringing the members that a backend has for a channel in line with those
//! that the control state asks for.
use vstd::prelude::*;
use crate::collections::{
    lemma_listing_exists, lemma_listing_of, listing_of, lists, outcome, ChannelKey, OrdMap, OrdSet,
    Replicate,
};
use crate::control::{ControlState, ControlStateModel};
use crate::permissions::{has_permission, permitted, Permission};

verus! {

/// Why a channel could not be reconciled.
#[derive(Debug, PartialEq, Eq)]
pub enum ReconcileError {
    GuildNotFound(String),
    ChannelNotFound { guild_id: String, channel_id: String },
    Backend(String),
}

/// What a [`ReconcileError`] holds.
#[verifier::ext_equal]
pub enum ReconcileErrorModel {
    GuildNotFound(Seq<char>),
    ChannelNotFound { guild_id: Seq<char>, channel_id: Seq<char> },
    Backend(Seq<char>),
}

impl DeepView for ReconcileError {
    type V = ReconcileErrorModel;

    open spec fn deep_view(&self) -> ReconcileErrorModel {
        match self {
            ReconcileError::GuildNotFound(a) => ReconcileErrorModel::GuildNotFound(a.deep_view()),
            ReconcileError::ChannelNotFound {
                guild_id,
                channel_id,
            } => ReconcileErrorModel::ChannelNotFound {
                guild_id: guild_id.deep_view(),
                channel_id: channel_id.deep_view(),
            },
            ReconcileError::Backend(a) => ReconcileErrorModel::Backend(a.deep_view()),
        }
    }
}

impl View for ReconcileError {
    type V = ReconcileErrorModel;

    open spec fn view(&self) -> ReconcileErrorModel {
        self.deep_view()
    }
}

impl Replicate for ReconcileError {
    fn replicate(&self) -> (copy: Self) {
        match self {
            ReconcileError::GuildNotFound(a) => ReconcileError::GuildNotFound(a.replicate()),
            ReconcileError::ChannelNotFound {
                guild_id,
                channel_id,
            } => ReconcileError::ChannelNotFound {
                guild_id: guild_id.replicate(),
                channel_id: channel_id.replicate(),
            },
            ReconcileError::Backend(a) => ReconcileError::Backend(a.replicate()),
        }
    }
}

impl Clone for ReconcileError {
    fn clone(&self) -> (copy: Self)
        ensures
            copy@ == self@,
    {
        self.replicate()
    }
}

/// What separates the members a channel has from those it should have.
#[derive(Debug, PartialEq, Eq)]
pub struct MembershipDiff {
    pub to_add: OrdSet<String>,
    pub to_remove: OrdSet<String>,
}

/// What a [`MembershipDiff`] holds.
#[verifier::ext_equal]
pub struct MembershipDiffModel {
    pub to_add: Set<Seq<char>>,
    pub to_remove: Set<Seq<char>>,
}

impl DeepView for MembershipDiff {
    type V = MembershipDiffModel;

    open spec fn deep_view(&self) -> MembershipDiffModel {
        MembershipDiffModel {
            to_add: self.to_add.deep_view(),
            to_remove: self.to_remove.deep_view(),
        }
    }
}

impl View for MembershipDiff {
    type V = MembershipDiffModel;

    open spec fn view(&self) -> MembershipDiffModel {
        self.deep_view()
    }
}

impl Replicate for MembershipDiff {
    fn replicate(&self) -> (copy: Self) {
        MembershipDiff {
            to_add: self.to_add.replicate(),
            to_remove: self.to_remove.replicate(),
        }
    }
}

impl Clone for MembershipDiff {
    fn clone(&self) -> (copy: Self)
        ensures
            copy@ == self@,
    {
        self.replicate()
    }
}

/// What a reconciliation found and did.
#[derive(Debug, PartialEq, Eq)]
pub struct ReconcileReport {
    pub desired: OrdSet<String>,
    pub actual_before: OrdSet<String>,
    pub diff: MembershipDiff,
    pub added: OrdSet<String>,
    pub removed: OrdSet<String>,
    pub failed_add: OrdSet<String>,
    pub failed_remove: OrdSet<String>,
}

/// What a [`ReconcileReport`] holds.
#[verifier::ext_equal]
pub struct ReconcileReportModel {
    pub desired: Set<Seq<char>>,
    pub actual_before: Set<Seq<char>>,
    pub diff: MembershipDiffModel,
    pub added: Set<Seq<char>>,
    pub removed: Set<Seq<char>>,
    pub failed_add: Set<Seq<char>>,
    pub failed_remove: Set<Seq<char>>,
}

impl DeepView for ReconcileReport {
    type V = ReconcileReportModel;

    open spec fn deep_view(&self) -> ReconcileReportModel {
        ReconcileReportModel {
            desired: self.desired.deep_view(),
            actual_before: self.actual_before.deep_view(),
            diff: self.diff.deep_view(),
            added: self.added.deep_view(),
            removed: self.removed.deep_view(),
            failed_add: self.failed_add.deep_view(),
            failed_remove: self.failed_remove.deep_view(),
        }
    }
}

impl View for ReconcileReport {
    type V = ReconcileReportModel;

    open spec fn view(&self) -> ReconcileReportModel {
        self.deep_view()
    }
}

impl Replicate for ReconcileReport {
    fn replicate(&self) -> (copy: Self) {
        ReconcileReport {
            desired: self.desired.replicate(),
            actual_before: self.actual_before.replicate(),
            diff: self.diff.replicate(),
            added: self.added.replicate(),
            removed: self.removed.replicate(),
            failed_add: self.failed_add.replicate(),
            failed_remove: self.failed_remove.replicate(),
        }
    }
}

impl Clone for ReconcileReport {
    fn clone(&self) -> (copy: Self)
        ensures
            copy@ == self@,
    {
        self.replicate()
    }
}

/// The members whom a channel should have: those of the guild who may see it.
pub open spec fn desired_members(
    control: ControlStateModel,
    guild_id: Seq<char>,
    channel_id: Seq<char>,
) -> Result<Set<Seq<char>>, ReconcileErrorModel> {
    if !control.guilds.contains_key(guild_id) {
        Err(ReconcileErrorModel::GuildNotFound(guild_id))
    } else if !control.guilds[guild_id].channels.contains_key(channel_id) {
        Err(ReconcileErrorModel::ChannelNotFound { guild_id, channel_id })
    } else {
        let guild = control.guilds[guild_id];
        Ok(
            guild.members.filter(
                |member: Seq<char>|
                    permitted(guild, member, Some(channel_id), Permission::ViewChannel),
            ),
        )
    }
}

/// A result whose value is a set and whose error is a text, as a model.
pub open spec fn set_outcome(result: Result<OrdSet<String>, String>) -> Result<
    Set<Seq<char>>,
    Seq<char>,
> {
    match result {
        Ok(members) => Ok(members@),
        Err(text) => Err(text@),
    }
}

/// The members of channels somewhere else.
///
/// A backend says what it has for a channel, and takes one addition or removal
/// at a time, or refuses it. What a call comes to, and what the backend is
/// afterwards, follows from what it was before.
pub trait MembershipBackend {
    /// What a backend is, as far as its answers go.
    type Model;

    /// What this backend is.
    spec fn model(&self) -> Self::Model;

    /// The members that a backend gives for a channel, or its failure.
    spec fn actual(model: Self::Model, guild_id: Seq<char>, channel_id: Seq<char>) -> Result<
        Set<Seq<char>>,
        Seq<char>,
    >;

    /// Whether a backend takes the addition of a member.
    spec fn takes_add(
        model: Self::Model,
        guild_id: Seq<char>,
        channel_id: Seq<char>,
        member: Seq<char>,
    ) -> bool;

    /// What a backend is after it was asked to add a member.
    spec fn after_add(
        model: Self::Model,
        guild_id: Seq<char>,
        channel_id: Seq<char>,
        member: Seq<char>,
    ) -> Self::Model;

    /// Whether a backend takes the removal of a member.
    spec fn takes_remove(
        model: Self::Model,
        guild_id: Seq<char>,
        channel_id: Seq<char>,
        member: Seq<char>,
    ) -> bool;

    /// What a backend is after it was asked to remove a member.
    spec fn after_remove(
        model: Self::Model,
        guild_id: Seq<char>,
        channel_id: Seq<char>,
        member: Seq<char>,
    ) -> Self::Model;

    fn actual_members(&self, guild_id: &str, channel_id: &str) -> (result: Result<
        OrdSet<String>,
        String,
    >)
        ensures
            set_outcome(result) == Self::actual(self.model(), guild_id@, channel_id@),
    ;

    fn add_member(&mut self, guild_id: &str, channel_id: &str, member: &str) -> (result: Result<
        (),
        String,
    >)
        ensures
            result is Ok <==> Self::takes_add(old(self).model(), guild_id@, channel_id@, member@),
            final(self).model() == Self::after_add(
                old(self).model(),
                guild_id@,
                channel_id@,
                member@,
            ),
    ;

    fn remove_member(&mut self, guild_id: &str, channel_id: &str, member: &str) -> (result: Result<
        (),
        String,
    >)
        ensures
            result is Ok <==> Self::takes_remove(
                old(self).model(),
                guild_id@,
                channel_id@,
                member@,
            ),
            final(self).model() == Self::after_remove(
                old(self).model(),
                guild_id@,
                channel_id@,
                member@,
            ),
    ;
}

/// A backend that holds the members itself and can be told to refuse a call
/// once.
#[derive(Debug)]
pub struct InMemoryMembershipBackend {
    members: OrdMap<ChannelKey, OrdSet<String>>,
    fail_add_once: OrdMap<ChannelKey, OrdSet<String>>,
    fail_remove_once: OrdMap<ChannelKey, OrdSet<String>>,
}

/// What an in-memory backend holds.
#[verifier::ext_equal]
pub struct InMemoryMembershipBackendModel {
    pub members: Map<(Seq<char>, Seq<char>), Set<Seq<char>>>,
    pub fail_add_once: Map<(Seq<char>, Seq<char>), Set<Seq<char>>>,
    pub fail_remove_once: Map<(Seq<char>, Seq<char>), Set<Seq<char>>>,
}

impl View for InMemoryMembershipBackend {
    type V = InMemoryMembershipBackendModel;

    closed spec fn view(&self) -> InMemoryMembershipBackendModel {
        InMemoryMembershipBackendModel {
            members: self.members@,
            fail_add_once: self.fail_add_once@,
            fail_remove_once: self.fail_remove_once@,
        }
    }
}

/// The set that a map has for a channel, empty where it has none.
pub open spec fn set_at(
    map: Map<(Seq<char>, Seq<char>), Set<Seq<char>>>,
    channel: (Seq<char>, Seq<char>),
) -> Set<Seq<char>> {
    if map.contains_key(channel) {
        map[channel]
    } else {
        Set::empty()
    }
}

/// Adds a member to the set that a map has for a channel.
fn add_at(map: &mut OrdMap<ChannelKey, OrdSet<String>>, channel: ChannelKey, member: String)
    ensures
        final(map)@ == old(map)@.insert(channel@, set_at(old(map)@, channel@).insert(member@)),
{
    let mut set = match map.take(&channel) {
        Some(set) => set,
        None => OrdSet::new(),
    };
    set.insert(member);
    map.insert(channel, set);
    proof {
        assert(map@ =~= old(map)@.insert(channel@, set_at(old(map)@, channel@).insert(member@)));
    }
}

/// Takes a member out of the set that a map has for a channel; says whether it
/// was there.
fn remove_at(
    map: &mut OrdMap<ChannelKey, OrdSet<String>>,
    channel: &ChannelKey,
    member: &String,
) -> (removed: bool)
    ensures
        removed == set_at(old(map)@, channel@).contains(member@),
        final(map)@ == without_at(old(map)@, channel@, member@),
{
    match map.take(channel) {
        Some(set) => {
            let mut set = set;
            let removed = set.remove(member);
            map.insert(channel.replicate(), set);
            proof {
                assert(map@ =~= old(map)@.insert(
                    channel@,
                    old(map)@[channel@].remove(member@),
                ));
            }
            removed
        },
        None => {
            proof {
                assert(map@ =~= old(map)@);
            }
            false
        },
    }
}

impl Default for InMemoryMembershipBackend {
    fn default() -> (backend: Self)
        ensures
            backend@ == (InMemoryMembershipBackendModel {
                members: Map::empty(),
                fail_add_once: Map::empty(),
                fail_remove_once: Map::empty(),
            }),
    {
        InMemoryMembershipBackend {
            members: OrdMap::new(),
            fail_add_once: OrdMap::new(),
            fail_remove_once: OrdMap::new(),
        }
    }
}

impl InMemoryMembershipBackend {
    /// Replaces the members of a channel.
    pub fn set_actual(&mut self, guild_id: &str, channel_id: &str, members: OrdSet<String>)
        ensures
            final(self)@ == (InMemoryMembershipBackendModel {
                members: old(self)@.members.insert((guild_id@, channel_id@), members@),
                ..old(self)@
            }),
    {
        self.members.insert(ChannelKey::new(guild_id, channel_id), members);
    }

    /// The members of a channel.
    pub fn members(&self, guild_id: &str, channel_id: &str) -> (members: OrdSet<String>)
        ensures
            members@ == set_at(self@.members, (guild_id@, channel_id@)),
    {
        match self.members.get(&ChannelKey::new(guild_id, channel_id)) {
            Some(members) => members.replicate(),
            None => OrdSet::new(),
        }
    }

    /// Has the next addition of a member refused.
    pub fn fail_add_once(&mut self, guild_id: &str, channel_id: &str, member: &str)
        ensures
            final(self)@ == (InMemoryMembershipBackendModel {
                fail_add_once: old(self)@.fail_add_once.insert(
                    (guild_id@, channel_id@),
                    set_at(old(self)@.fail_add_once, (guild_id@, channel_id@)).insert(member@),
                ),
                ..old(self)@
            }),
    {
        add_at(&mut self.fail_add_once, ChannelKey::new(guild_id, channel_id), member.to_owned());
    }

    /// Has the next removal of a member refused.
    pub fn fail_remove_once(&mut self, guild_id: &str, channel_id: &str, member: &str)
        ensures
            final(self)@ == (InMemoryMembershipBackendModel {
                fail_remove_once: old(self)@.fail_remove_once.insert(
                    (guild_id@, channel_id@),
                    set_at(old(self)@.fail_remove_once, (guild_id@, channel_id@)).insert(member@),
                ),
                ..old(self)@
            }),
    {
        add_at(&mut self.fail_remove_once, ChannelKey::new(guild_id, channel_id), member.to_owned());
    }
}

/// An in-memory backend after a member was taken out of what it refuses or holds.
pub open spec fn without_at(
    map: Map<(Seq<char>, Seq<char>), Set<Seq<char>>>,
    channel: (Seq<char>, Seq<char>),
    member: Seq<char>,
) -> Map<(Seq<char>, Seq<char>), Set<Seq<char>>> {
    if map.contains_key(channel) {
        map.insert(channel, map[channel].remove(member))
    } else {
        map
    }
}

impl MembershipBackend for InMemoryMembershipBackend {
    type Model = InMemoryMembershipBackendModel;

    open spec fn model(&self) -> InMemoryMembershipBackendModel {
        self@
    }

    open spec fn actual(
        model: InMemoryMembershipBackendModel,
        guild_id: Seq<char>,
        channel_id: Seq<char>,
    ) -> Result<Set<Seq<char>>, Seq<char>> {
        Ok(set_at(model.members, (guild_id, channel_id)))
    }

    open spec fn takes_add(
        model: InMemoryMembershipBackendModel,
        guild_id: Seq<char>,
        channel_id: Seq<char>,
        member: Seq<char>,
    ) -> bool {
        !set_at(model.fail_add_once, (guild_id, channel_id)).contains(member)
    }

    /// The member is added, or the refusal that was asked for is used up.
    open spec fn after_add(
        model: InMemoryMembershipBackendModel,
        guild_id: Seq<char>,
        channel_id: Seq<char>,
        member: Seq<char>,
    ) -> InMemoryMembershipBackendModel {
        let channel = (guild_id, channel_id);
        if set_at(model.fail_add_once, channel).contains(member) {
            InMemoryMembershipBackendModel {
                fail_add_once: without_at(model.fail_add_once, channel, member),
                ..model
            }
        } else {
            InMemoryMembershipBackendModel {
                members: model.members.insert(
                    channel,
                    set_at(model.members, channel).insert(member),
                ),
                ..model
            }
        }
    }

    open spec fn takes_remove(
        model: InMemoryMembershipBackendModel,
        guild_id: Seq<char>,
        channel_id: Seq<char>,
        member: Seq<char>,
    ) -> bool {
        !set_at(model.fail_remove_once, (guild_id, channel_id)).contains(member)
    }

    /// The member is removed, or the refusal that was asked for is used up.
    open spec fn after_remove(
        model: InMemoryMembershipBackendModel,
        guild_id: Seq<char>,
        channel_id: Seq<char>,
        member: Seq<char>,
    ) -> InMemoryMembershipBackendModel {
        let channel = (guild_id, channel_id);
        if set_at(model.fail_remove_once, channel).contains(member) {
            InMemoryMembershipBackendModel {
                fail_remove_once: without_at(model.fail_remove_once, channel, member),
                ..model
            }
        } else {
            InMemoryMembershipBackendModel {
                members: without_at(model.members, channel, member),
                ..model
            }
        }
    }

    fn actual_members(&self, guild_id: &str, channel_id: &str) -> (result: Result<
        OrdSet<String>,
        String,
    >) {
        Ok(self.members(guild_id, channel_id))
    }

    /// Adds a member, unless it was told to refuse that; it refuses once only.
    fn add_member(&mut self, guild_id: &str, channel_id: &str, member: &str) -> (result: Result<
        (),
        String,
    >)
        ensures
            result matches Err(text) ==> text@ == "injected add failure for "@ + member@,
    {
        let channel = ChannelKey::new(guild_id, channel_id);
        let ghost before = self.fail_add_once@;
        if remove_at(&mut self.fail_add_once, &channel, &member.to_owned()) {
            return Err("injected add failure for ".to_owned().concat(member));
        }
        proof {
            lemma_nothing_to_take(before, channel@, member@);
        }
        add_at(&mut self.members, channel, member.to_owned());
        Ok(())
    }

    /// Removes a member, unless it was told to refuse that; it refuses once only.
    fn remove_member(&mut self, guild_id: &str, channel_id: &str, member: &str) -> (result: Result<
        (),
        String,
    >)
        ensures
            result matches Err(text) ==> text@ == "injected remove failure for "@ + member@,
    {
        let channel = ChannelKey::new(guild_id, channel_id);
        let ghost before = self.fail_remove_once@;
        if remove_at(&mut self.fail_remove_once, &channel, &member.to_owned()) {
            return Err("injected remove failure for ".to_owned().concat(member));
        }
        proof {
            lemma_nothing_to_take(before, channel@, member@);
        }
        remove_at(&mut self.members, &channel, &member.to_owned());
        Ok(())
    }
}

/// Taking out a member who is not there changes nothing.
proof fn lemma_nothing_to_take(
    map: Map<(Seq<char>, Seq<char>), Set<Seq<char>>>,
    channel: (Seq<char>, Seq<char>),
    member: Seq<char>,
)
    requires
        !set_at(map, channel).contains(member),
    ensures
        without_at(map, channel, member) == map,
{
    if map.contains_key(channel) {
        assert(map[channel].remove(member) =~= map[channel]);
        assert(without_at(map, channel, member) =~= map);
    }
}

impl ReconcileError {
    /// The failure in words.
    pub open spec fn words(error: ReconcileErrorModel) -> Seq<char> {
        match error {
            ReconcileErrorModel::GuildNotFound(id) => "guild not found: "@ + id,
            ReconcileErrorModel::ChannelNotFound { guild_id, channel_id } => "channel not found: "@
                + guild_id + "/"@ + channel_id,
            ReconcileErrorModel::Backend(text) => "membership backend error: "@ + text,
        }
    }

    /// The failure in words.
    pub fn message(&self) -> (text: String)
        ensures
            text@ == ReconcileError::words(self@),
    {
        match self {
            ReconcileError::GuildNotFound(id) => "guild not found: ".to_owned().concat(id.as_str()),
            ReconcileError::ChannelNotFound { guild_id, channel_id } => "channel not found: ".to_owned().concat(
                guild_id.as_str(),
            ).concat("/").concat(channel_id.as_str()),
            ReconcileError::Backend(text) => "membership backend error: ".to_owned().concat(
                text.as_str(),
            ),
        }
    }
}

impl ReconcileReport {
    /// Whether everything that was to be done was done.
    pub fn converged(&self) -> (done: bool)
        ensures
            done == (self@.failed_add == Set::<Seq<char>>::empty() && self@.failed_remove == Set::<
                Seq<char>,
            >::empty()),
    {
        self.failed_add.is_empty() && self.failed_remove.is_empty()
    }
}

/// The members whom a channel should have.
pub fn desired_channel_members(
    control: &ControlState,
    guild_id: &str,
    channel_id: &str,
) -> (result: Result<OrdSet<String>, ReconcileError>)
    ensures
        match desired_members(control@, guild_id@, channel_id@) {
            Ok(members) => result is Ok && result->Ok_0@ == members,
            Err(error) => outcome(result) == Err::<OrdSet<String>, ReconcileErrorModel>(error),
        },
{
    let guild = match control.guilds.get(&guild_id.to_owned()) {
        Some(guild) => guild,
        None => {
            return Err(ReconcileError::GuildNotFound(guild_id.to_owned()));
        },
    };
    if !guild.channels.contains_key(&channel_id.to_owned()) {
        return Err(
            ReconcileError::ChannelNotFound {
                guild_id: guild_id.to_owned(),
                channel_id: channel_id.to_owned(),
            },
        );
    }
    let ghost sees = |member: Seq<char>|
        permitted(guild@, member, Some(channel_id@), Permission::ViewChannel);
    let n: usize = guild.members.len();
    let mut members: OrdSet<String> = OrdSet::new();
    let mut i: usize = 0;
    while i < n
        invariant
            i <= n == guild.members.listing().len(),
            sees == (|member: Seq<char>|
                permitted(guild@, member, Some(channel_id@), Permission::ViewChannel)),
            forall|m: Seq<char>| #[trigger]
                members@.contains(m) <==> guild.members.listing().take(i as int).contains(m) && sees(m),
        decreases n - i,
    {
        let member = guild.members.at(i);
        let ghost before = members@;
        if has_permission(guild, member.as_str(), Some(channel_id), Permission::ViewChannel) {
            members.insert(member.clone());
        }
        proof {
            let seen = guild.members.listing().take(i as int);
            assert(guild.members.listing().take(i + 1) =~= seen.push(member@));
            crate::collections::lemma_push_to_set(seen, member@);
            assert forall|m: Seq<char>| #[trigger]
                members@.contains(m) <==> guild.members.listing().take(i + 1).contains(m) && sees(m) by {
                assert(seen.push(member@).to_set().contains(m) <==> seen.to_set().insert(
                    member@,
                ).contains(m));
                assert(before.contains(m) <==> seen.contains(m) && sees(m));
            }
        }
        i += 1;
    }
    proof {
        assert(guild.members.listing().take(i as int) =~= guild.members.listing());
        assert forall|m: Seq<char>| #[trigger]
            members@.contains(m) <==> guild@.members.filter(sees).contains(m) by {
            assert(guild.members.listing().contains(m) <==> guild.members@.contains(m));
        }
        assert(members@ =~= guild@.members.filter(sees));
    }
    Ok(members)
}

/// The keys of one set that are not in another.
fn difference(a: &OrdSet<String>, b: &OrdSet<String>) -> (rest: OrdSet<String>)
    ensures
        rest@ == a@.difference(b@),
{
    let n: usize = a.len();
    let mut rest: OrdSet<String> = OrdSet::new();
    let mut i: usize = 0;
    while i < n
        invariant
            i <= n == a.listing().len(),
            forall|m: Seq<char>| #[trigger]
                rest@.contains(m) <==> a.listing().take(i as int).contains(m) && !b@.contains(m),
        decreases n - i,
    {
        let member = a.at(i);
        let ghost before = rest@;
        if !b.contains(member) {
            rest.insert(member.clone());
        }
        proof {
            let seen = a.listing().take(i as int);
            assert(a.listing().take(i + 1) =~= seen.push(member@));
            crate::collections::lemma_push_to_set(seen, member@);
            assert forall|m: Seq<char>| #[trigger]
                rest@.contains(m) <==> a.listing().take(i + 1).contains(m) && !b@.contains(m) by {
                assert(seen.push(member@).to_set().contains(m) <==> seen.to_set().insert(
                    member@,
                ).contains(m));
                assert(before.contains(m) <==> seen.contains(m) && !b@.contains(m));
            }
        }
        i += 1;
    }
    proof {
        assert(a.listing().take(i as int) =~= a.listing());
        assert forall|m: Seq<char>| #[trigger]
            rest@.contains(m) <==> a@.difference(b@).contains(m) by {
            assert(a.listing().contains(m) <==> a@.contains(m));
        }
        assert(rest@ =~= a@.difference(b@));
    }
    rest
}

/// Who is missing and who is too many.
pub open spec fn diff_of(desired: Set<Seq<char>>, actual: Set<Seq<char>>) -> MembershipDiffModel {
    MembershipDiffModel {
        to_add: desired.difference(actual),
        to_remove: actual.difference(desired),
    }
}

/// Who is missing and who is too many.
pub fn compute_diff(desired: &OrdSet<String>, actual: &OrdSet<String>) -> (diff: MembershipDiff)
    ensures
        diff@ == diff_of(desired@, actual@),
{
    MembershipDiff { to_add: difference(desired, actual), to_remove: difference(actual, desired) }
}

/// What a backend is after it was asked to add members, one after the other.
pub open spec fn after_adds<B: MembershipBackend>(
    model: B::Model,
    guild_id: Seq<char>,
    channel_id: Seq<char>,
    members: Seq<Seq<char>>,
) -> B::Model
    decreases members.len(),
{
    if members.len() == 0 {
        model
    } else {
        B::after_add(
            after_adds::<B>(model, guild_id, channel_id, members.drop_last()),
            guild_id,
            channel_id,
            members.last(),
        )
    }
}

/// Those of the members whose additions a backend takes, where it is asked to add
/// them one after the other.
pub open spec fn added_of<B: MembershipBackend>(
    model: B::Model,
    guild_id: Seq<char>,
    channel_id: Seq<char>,
    members: Seq<Seq<char>>,
) -> Set<Seq<char>>
    decreases members.len(),
{
    if members.len() == 0 {
        Set::empty()
    } else {
        let earlier = members.drop_last();
        let added = added_of::<B>(model, guild_id, channel_id, earlier);
        if B::takes_add(
            after_adds::<B>(model, guild_id, channel_id, earlier),
            guild_id,
            channel_id,
            members.last(),
        ) {
            added.insert(members.last())
        } else {
            added
        }
    }
}

/// What a backend is after it was asked to remove members, one after the other.
pub open spec fn after_removes<B: MembershipBackend>(
    model: B::Model,
    guild_id: Seq<char>,
    channel_id: Seq<char>,
    members: Seq<Seq<char>>,
) -> B::Model
    decreases members.len(),
{
    if members.len() == 0 {
        model
    } else {
        B::after_remove(
            after_removes::<B>(model, guild_id, channel_id, members.drop_last()),
            guild_id,
            channel_id,
            members.last(),
        )
    }
}

/// Those of the members whose removals a backend takes, where it is asked to remove
/// them one after the other.
pub open spec fn removed_of<B: MembershipBackend>(
    model: B::Model,
    guild_id: Seq<char>,
    channel_id: Seq<char>,
    members: Seq<Seq<char>>,
) -> Set<Seq<char>>
    decreases members.len(),
{
    if members.len() == 0 {
        Set::empty()
    } else {
        let earlier = members.drop_last();
        let removed = removed_of::<B>(model, guild_id, channel_id, earlier);
        if B::takes_remove(
            after_removes::<B>(model, guild_id, channel_id, earlier),
            guild_id,
            channel_id,
            members.last(),
        ) {
            removed.insert(members.last())
        } else {
            removed
        }
    }
}

/// Asks the backend to add each of the members, in increasing order; gives those taken
/// and those refused.
fn add_members<B: MembershipBackend>(
    backend: &mut B,
    guild_id: &str,
    channel_id: &str,
    members: &OrdSet<String>,
) -> (done: (OrdSet<String>, OrdSet<String>))
    ensures
        done.0@ == added_of::<B>(
            old(backend).model(),
            guild_id@,
            channel_id@,
            listing_of::<String>(members@),
        ),
        done.1@ == members@.difference(done.0@),
        final(backend).model() == after_adds::<B>(
            old(backend).model(),
            guild_id@,
            channel_id@,
            listing_of::<String>(members@),
        ),
{
    let n: usize = members.len();
    let mut taken: OrdSet<String> = OrdSet::new();
    let mut refused: OrdSet<String> = OrdSet::new();
    let mut i: usize = 0;
    let ghost listing = members.listing();
    let ghost start = old(backend).model();
    proof {
        lemma_listing_of::<String>(listing, members@);
        assert(listing.take(0) =~= Seq::empty());
        assert(refused@ =~= listing.take(0).to_set().difference(taken@));
    }
    while i < n
        invariant
            i <= n == listing.len(),
            listing == members.listing(),
            listing.no_duplicates(),
            start == old(backend).model(),
            taken@ == added_of::<B>(start, guild_id@, channel_id@, listing.take(i as int)),
            refused@ == listing.take(i as int).to_set().difference(taken@),
            taken@.subset_of(listing.take(i as int).to_set()),
            backend.model() == after_adds::<B>(
                start,
                guild_id@,
                channel_id@,
                listing.take(i as int),
            ),
        decreases n - i,
    {
        let member = members.at(i);
        let ghost seen = listing.take(i as int);
        let ghost taken_before = taken@;
        proof {
            assert(listing.take(i + 1) =~= seen.push(member@));
            assert(seen.push(member@).drop_last() =~= seen);
            crate::collections::lemma_push_to_set(seen, member@);
            assert(!seen.contains(member@)) by {
                if seen.contains(member@) {
                    let j = choose|j: int| 0 <= j < seen.len() && seen[j] == member@;
                    assert(listing[j] == listing[i as int]);
                }
            }
        }
        match backend.add_member(guild_id, channel_id, member.as_str()) {
            Ok(()) => {
                taken.insert(member.clone());
            },
            Err(_) => {
                refused.insert(member.clone());
            },
        }
        proof {
            assert(refused@ =~= listing.take(i + 1).to_set().difference(taken@));
        }
        i += 1;
    }
    proof {
        assert(listing.take(i as int) =~= listing);
        assert forall|m: Seq<char>| #[trigger]
            listing.to_set().contains(m) <==> members@.contains(m) by {
            assert(listing.contains(m) <==> members@.contains(m));
        }
        assert(listing.to_set() =~= members@);
    }
    (taken, refused)
}

/// Asks the backend to remove each of the members, in increasing order; gives those
/// taken and those refused.
fn remove_members<B: MembershipBackend>(
    backend: &mut B,
    guild_id: &str,
    channel_id: &str,
    members: &OrdSet<String>,
) -> (done: (OrdSet<String>, OrdSet<String>))
    ensures
        done.0@ == removed_of::<B>(
            old(backend).model(),
            guild_id@,
            channel_id@,
            listing_of::<String>(members@),
        ),
        done.1@ == members@.difference(done.0@),
        final(backend).model() == after_removes::<B>(
            old(backend).model(),
            guild_id@,
            channel_id@,
            listing_of::<String>(members@),
        ),
{
    let n: usize = members.len();
    let mut taken: OrdSet<String> = OrdSet::new();
    let mut refused: OrdSet<String> = OrdSet::new();
    let mut i: usize = 0;
    let ghost listing = members.listing();
    let ghost start = old(backend).model();
    proof {
        lemma_listing_of::<String>(listing, members@);
        assert(listing.take(0) =~= Seq::empty());
        assert(refused@ =~= listing.take(0).to_set().difference(taken@));
    }
    while i < n
        invariant
            i <= n == listing.len(),
            listing == members.listing(),
            listing.no_duplicates(),
            start == old(backend).model(),
            taken@ == removed_of::<B>(start, guild_id@, channel_id@, listing.take(i as int)),
            refused@ == listing.take(i as int).to_set().difference(taken@),
            taken@.subset_of(listing.take(i as int).to_set()),
            backend.model() == after_removes::<B>(
                start,
                guild_id@,
                channel_id@,
                listing.take(i as int),
            ),
        decreases n - i,
    {
        let member = members.at(i);
        let ghost seen = listing.take(i as int);
        let ghost taken_before = taken@;
        proof {
            assert(listing.take(i + 1) =~= seen.push(member@));
            assert(seen.push(member@).drop_last() =~= seen);
            crate::collections::lemma_push_to_set(seen, member@);
            assert(!seen.contains(member@)) by {
                if seen.contains(member@) {
                    let j = choose|j: int| 0 <= j < seen.len() && seen[j] == member@;
                    assert(listing[j] == listing[i as int]);
                }
            }
        }
        match backend.remove_member(guild_id, channel_id, member.as_str()) {
            Ok(()) => {
                taken.insert(member.clone());
            },
            Err(_) => {
                refused.insert(member.clone());
            },
        }
        proof {
            assert(refused@ =~= listing.take(i + 1).to_set().difference(taken@));
        }
        i += 1;
    }
    proof {
        assert(listing.take(i as int) =~= listing);
        assert forall|m: Seq<char>| #[trigger]
            listing.to_set().contains(m) <==> members@.contains(m) by {
            assert(listing.contains(m) <==> members@.contains(m));
        }
        assert(listing.to_set() =~= members@);
    }
    (taken, refused)
}

/// The report of a reconciliation: whoever is missing is added, in increasing
/// order, and then whoever is too many is removed, in increasing order, each as the
/// backend takes it.
pub open spec fn report_of<B: MembershipBackend>(
    model: B::Model,
    guild_id: Seq<char>,
    channel_id: Seq<char>,
    desired: Set<Seq<char>>,
    actual: Set<Seq<char>>,
) -> ReconcileReportModel {
    let diff = diff_of(desired, actual);
    let to_add = listing_of::<String>(diff.to_add);
    let between = after_adds::<B>(model, guild_id, channel_id, to_add);
    let added = added_of::<B>(model, guild_id, channel_id, to_add);
    let removed = removed_of::<B>(
        between,
        guild_id,
        channel_id,
        listing_of::<String>(diff.to_remove),
    );
    ReconcileReportModel {
        desired,
        actual_before: actual,
        diff,
        added,
        failed_add: diff.to_add.difference(added),
        removed,
        failed_remove: diff.to_remove.difference(removed),
    }
}

/// What a backend is after a reconciliation.
pub open spec fn reconciled<B: MembershipBackend>(
    model: B::Model,
    guild_id: Seq<char>,
    channel_id: Seq<char>,
    desired: Set<Seq<char>>,
    actual: Set<Seq<char>>,
) -> B::Model {
    let diff = diff_of(desired, actual);
    after_removes::<B>(
        after_adds::<B>(model, guild_id, channel_id, listing_of::<String>(diff.to_add)),
        guild_id,
        channel_id,
        listing_of::<String>(diff.to_remove),
    )
}

/// The members whom a channel had, with those that were added and without those
/// that were removed.
pub open spec fn members_after(report: ReconcileReportModel) -> Set<Seq<char>> {
    report.actual_before.union(report.added).difference(report.removed)
}

/// Brings a channel's members in the backend in line with those it should have,
/// as far as the backend lets it.
pub fn reconcile_channel<B: MembershipBackend>(
    control: &ControlState,
    guild_id: &str,
    channel_id: &str,
    backend: &mut B,
) -> (result: Result<ReconcileReport, ReconcileError>)
    ensures
        match (
            desired_members(control@, guild_id@, channel_id@),
            B::actual(old(backend).model(), guild_id@, channel_id@),
        ) {
            (Err(error), _) => {
                &&& outcome(result) == Err::<ReconcileReport, ReconcileErrorModel>(error)
                &&& *final(backend) == *old(backend)
            },
            (Ok(_), Err(text)) => {
                &&& outcome(result) == Err::<ReconcileReport, ReconcileErrorModel>(
                    ReconcileErrorModel::Backend(text),
                )
                &&& *final(backend) == *old(backend)
            },
            (Ok(desired), Ok(actual)) => {
                &&& result is Ok
                &&& result->Ok_0@ == report_of::<B>(
                    old(backend).model(),
                    guild_id@,
                    channel_id@,
                    desired,
                    actual,
                )
                &&& final(backend).model() == reconciled::<B>(
                    old(backend).model(),
                    guild_id@,
                    channel_id@,
                    desired,
                    actual,
                )
            },
        },
{
    let desired = match desired_channel_members(control, guild_id, channel_id) {
        Ok(desired) => desired,
        Err(error) => {
            return Err(error);
        },
    };
    let actual_before = match backend.actual_members(guild_id, channel_id) {
        Ok(actual) => actual,
        Err(text) => {
            return Err(ReconcileError::Backend(text));
        },
    };
    let diff = compute_diff(&desired, &actual_before);
    let (added, failed_add) = add_members(backend, guild_id, channel_id, &diff.to_add);
    let (removed, failed_remove) = remove_members(backend, guild_id, channel_id, &diff.to_remove);
    Ok(
        ReconcileReport {
            desired,
            actual_before,
            diff,
            added,
            removed,
            failed_add,
            failed_remove,
        },
    )
}

/// Whether a backend keeps books: an addition or a removal that it takes shows in
/// the members it gives, and one that it refuses does not.
pub open spec fn keeps_books<B: MembershipBackend>() -> bool {
    &&& forall|model: B::Model, guild_id: Seq<char>, channel_id: Seq<char>, member: Seq<char>|
        B::actual(
            #[trigger] B::after_add(model, guild_id, channel_id, member),
            guild_id,
            channel_id,
        ) == match B::actual(model, guild_id, channel_id) {
            Ok(members) if B::takes_add(model, guild_id, channel_id, member) => Ok::<
                Set<Seq<char>>,
                Seq<char>,
            >(members.insert(member)),
            before => before,
        }
    &&& forall|model: B::Model, guild_id: Seq<char>, channel_id: Seq<char>, member: Seq<char>|
        B::actual(
            #[trigger] B::after_remove(model, guild_id, channel_id, member),
            guild_id,
            channel_id,
        ) == match B::actual(model, guild_id, channel_id) {
            Ok(members) if B::takes_remove(model, guild_id, channel_id, member) => Ok::<
                Set<Seq<char>>,
                Seq<char>,
            >(members.remove(member)),
            before => before,
        }
}

/// The in-memory backend keeps books.
pub proof fn in_memory_backend_keeps_books()
    ensures
        keeps_books::<InMemoryMembershipBackend>(),
{
    assert forall|
        model: InMemoryMembershipBackendModel,
        guild_id: Seq<char>,
        channel_id: Seq<char>,
        member: Seq<char>,
    |
        InMemoryMembershipBackend::actual(
            #[trigger] InMemoryMembershipBackend::after_remove(model, guild_id, channel_id, member),
            guild_id,
            channel_id,
        ) == match InMemoryMembershipBackend::actual(model, guild_id, channel_id) {
            Ok(members) if InMemoryMembershipBackend::takes_remove(
                model,
                guild_id,
                channel_id,
                member,
            ) => Ok::<Set<Seq<char>>, Seq<char>>(members.remove(member)),
            before => before,
        } by {
        assert(Set::<Seq<char>>::empty().remove(member) =~= Set::empty());
    }
}

proof fn lemma_members_after_adds<B: MembershipBackend>(
    model: B::Model,
    guild_id: Seq<char>,
    channel_id: Seq<char>,
    members: Seq<Seq<char>>,
)
    requires
        keeps_books::<B>(),
        B::actual(model, guild_id, channel_id) is Ok,
    ensures
        B::actual(after_adds::<B>(model, guild_id, channel_id, members), guild_id, channel_id)
            == Ok::<Set<Seq<char>>, Seq<char>>(
            B::actual(model, guild_id, channel_id)->Ok_0.union(
                added_of::<B>(model, guild_id, channel_id, members),
            ),
        ),
        added_of::<B>(model, guild_id, channel_id, members).subset_of(members.to_set()),
    decreases members.len(),
{
    let start = B::actual(model, guild_id, channel_id)->Ok_0;
    if members.len() == 0 {
        assert(start.union(Set::<Seq<char>>::empty()) =~= start);
    } else {
        let earlier = members.drop_last();
        lemma_members_after_adds::<B>(model, guild_id, channel_id, earlier);
        let added = added_of::<B>(model, guild_id, channel_id, earlier);
        let before = after_adds::<B>(model, guild_id, channel_id, earlier);
        assert(members =~= earlier.push(members.last()));
        crate::collections::lemma_push_to_set(earlier, members.last());
        assert(start.union(added).insert(members.last()) =~= start.union(
            added.insert(members.last()),
        ));
        assert(after_adds::<B>(model, guild_id, channel_id, members) == B::after_add(
            before,
            guild_id,
            channel_id,
            members.last(),
        ));
    }
}

proof fn lemma_members_after_removes<B: MembershipBackend>(
    model: B::Model,
    guild_id: Seq<char>,
    channel_id: Seq<char>,
    members: Seq<Seq<char>>,
)
    requires
        keeps_books::<B>(),
        B::actual(model, guild_id, channel_id) is Ok,
    ensures
        B::actual(after_removes::<B>(model, guild_id, channel_id, members), guild_id, channel_id)
            == Ok::<Set<Seq<char>>, Seq<char>>(
            B::actual(model, guild_id, channel_id)->Ok_0.difference(
                removed_of::<B>(model, guild_id, channel_id, members),
            ),
        ),
        removed_of::<B>(model, guild_id, channel_id, members).subset_of(members.to_set()),
    decreases members.len(),
{
    let start = B::actual(model, guild_id, channel_id)->Ok_0;
    if members.len() == 0 {
        assert(start.difference(Set::<Seq<char>>::empty()) =~= start);
    } else {
        let earlier = members.drop_last();
        lemma_members_after_removes::<B>(model, guild_id, channel_id, earlier);
        let removed = removed_of::<B>(model, guild_id, channel_id, earlier);
        let before = after_removes::<B>(model, guild_id, channel_id, earlier);
        assert(members =~= earlier.push(members.last()));
        crate::collections::lemma_push_to_set(earlier, members.last());
        assert(start.difference(removed).remove(members.last()) =~= start.difference(
            removed.insert(members.last()),
        ));
        assert(after_removes::<B>(model, guild_id, channel_id, members) == B::after_remove(
            before,
            guild_id,
            channel_id,
            members.last(),
        ));
    }
}

proof fn lemma_listing_holds(set: Set<Seq<char>>)
    requires
        set.finite(),
    ensures
        listing_of::<String>(set).to_set() == set,
        listing_of::<String>(set).no_duplicates(),
{
    lemma_listing_exists::<String>(set);
    let listing = listing_of::<String>(set);
    crate::collections::lemma_increasing_no_duplicates::<String>(listing);
    assert forall|m: Seq<char>| #[trigger] listing.to_set().contains(m) <==> set.contains(m) by {
        assert(listing.contains(m) <==> set.contains(m));
    }
    assert(listing.to_set() =~= set);
}

/// A backend that keeps books has, after a reconciliation, the members it had, with
/// those that were added and without those that were removed; whoever was missing
/// was added or failed, and whoever was too many was removed or failed.
pub proof fn report_tells_what_was_done<B: MembershipBackend>(
    model: B::Model,
    guild_id: Seq<char>,
    channel_id: Seq<char>,
    desired: Set<Seq<char>>,
    actual: Set<Seq<char>>,
)
    requires
        keeps_books::<B>(),
        desired.finite(),
        actual.finite(),
        B::actual(model, guild_id, channel_id) == Ok::<Set<Seq<char>>, Seq<char>>(actual),
    ensures
        ({
            let report = report_of::<B>(model, guild_id, channel_id, desired, actual);
            &&& B::actual(
                reconciled::<B>(model, guild_id, channel_id, desired, actual),
                guild_id,
                channel_id,
            ) == Ok::<Set<Seq<char>>, Seq<char>>(members_after(report))
            &&& report.added.union(report.failed_add) == report.diff.to_add
            &&& report.added.disjoint(report.failed_add)
            &&& report.removed.union(report.failed_remove) == report.diff.to_remove
            &&& report.removed.disjoint(report.failed_remove)
        }),
{
    let report = report_of::<B>(model, guild_id, channel_id, desired, actual);
    let diff = report.diff;
    let to_add = listing_of::<String>(diff.to_add);
    let to_remove = listing_of::<String>(diff.to_remove);
    let between = after_adds::<B>(model, guild_id, channel_id, to_add);
    lemma_listing_holds(diff.to_add);
    lemma_listing_holds(diff.to_remove);
    lemma_members_after_adds::<B>(model, guild_id, channel_id, to_add);
    lemma_members_after_removes::<B>(between, guild_id, channel_id, to_remove);
    assert(report.added.union(report.failed_add) =~= diff.to_add);
    assert(report.removed.union(report.failed_remove) =~= diff.to_remove);
}

/// Where nothing failed, a backend that keeps books has exactly the members it
/// should have.
pub proof fn converged_means_desired<B: MembershipBackend>(
    model: B::Model,
    guild_id: Seq<char>,
    channel_id: Seq<char>,
    desired: Set<Seq<char>>,
    actual: Set<Seq<char>>,
)
    requires
        keeps_books::<B>(),
        desired.finite(),
        actual.finite(),
        B::actual(model, guild_id, channel_id) == Ok::<Set<Seq<char>>, Seq<char>>(actual),
    ensures
        ({
            let report = report_of::<B>(model, guild_id, channel_id, desired, actual);
            report.failed_add == Set::<Seq<char>>::empty() && report.failed_remove == Set::<
                Seq<char>,
            >::empty() ==> B::actual(
                reconciled::<B>(model, guild_id, channel_id, desired, actual),
                guild_id,
                channel_id,
            ) == Ok::<Set<Seq<char>>, Seq<char>>(desired)
        }),
{
    let report = report_of::<B>(model, guild_id, channel_id, desired, actual);
    report_tells_what_was_done::<B>(model, guild_id, channel_id, desired, actual);
    if report.failed_add == Set::<Seq<char>>::empty() && report.failed_remove == Set::<
        Seq<char>,
    >::empty() {
        assert forall|m: Seq<char>| members_after(report).contains(m) <==> desired.contains(m) by {
            assert(report.added.union(report.failed_add).contains(m)
                == report.diff.to_add.contains(m));
            assert(report.removed.union(report.failed_remove).contains(m)
                == report.diff.to_remove.contains(m));
        }
        assert(members_after(report) =~= desired);
    }
}

/// A reconciliation of what is already as it should be finds nothing to do and asks
/// the backend for nothing.
pub proof fn reconciling_again_does_nothing<B: MembershipBackend>(
    model: B::Model,
    guild_id: Seq<char>,
    channel_id: Seq<char>,
    desired: Set<Seq<char>>,
)
    ensures
        ({
            let none = Set::<Seq<char>>::empty();
            let report = report_of::<B>(model, guild_id, channel_id, desired, desired);
            &&& report.diff == (MembershipDiffModel { to_add: none, to_remove: none })
            &&& report.added == none
            &&& report.removed == none
            &&& report.failed_add == none
            &&& report.failed_remove == none
            &&& reconciled::<B>(model, guild_id, channel_id, desired, desired) == model
        }),
{
    let none = Set::<Seq<char>>::empty();
    let report = report_of::<B>(model, guild_id, channel_id, desired, desired);
    assert(report.diff.to_add =~= none);
    assert(report.diff.to_remove =~= none);
    assert(lists::<String>(Seq::empty(), none));
    lemma_listing_of::<String>(Seq::empty(), none);
    assert(report.failed_add =~= none);
    assert(report.failed_remove =~= none);
}

/// What failed once is what is left to do: with a backend that keeps books a second
/// reconciliation asks for exactly the additions and removals that the first could
/// not make.
pub proof fn retry_takes_up_what_failed<B: MembershipBackend>(
    model: B::Model,
    guild_id: Seq<char>,
    channel_id: Seq<char>,
    desired: Set<Seq<char>>,
    actual: Set<Seq<char>>,
)
    requires
        keeps_books::<B>(),
        desired.finite(),
        actual.finite(),
        B::actual(model, guild_id, channel_id) == Ok::<Set<Seq<char>>, Seq<char>>(actual),
    ensures
        ({
            let first = report_of::<B>(model, guild_id, channel_id, desired, actual);
            let after = reconciled::<B>(model, guild_id, channel_id, desired, actual);
            &&& B::actual(after, guild_id, channel_id) is Ok
            &&& diff_of(desired, B::actual(after, guild_id, channel_id)->Ok_0) == (
            MembershipDiffModel { to_add: first.failed_add, to_remove: first.failed_remove })
        }),
{
    let first = report_of::<B>(model, guild_id, channel_id, desired, actual);
    report_tells_what_was_done::<B>(model, guild_id, channel_id, desired, actual);
    let next = diff_of(desired, members_after(first));
    assert forall|m: Seq<char>| next.to_add.contains(m) <==> first.failed_add.contains(m) by {
        assert(first.added.union(first.failed_add).contains(m) == first.diff.to_add.contains(m));
        assert(first.removed.union(first.failed_remove).contains(m)
            == first.diff.to_remove.contains(m));
    }
    assert forall|m: Seq<char>| next.to_remove.contains(m) <==> first.failed_remove.contains(
        m,
    ) by {
        assert(first.added.union(first.failed_add).contains(m) == first.diff.to_add.contains(m));
        assert(first.removed.union(first.failed_remove).contains(m)
            == first.diff.to_remove.contains(m));
    }
    assert(next.to_add =~= first.failed_add);
    assert(next.to_remove =~= first.failed_remove);
}

proof fn lemma_in_memory_adds(
    model: InMemoryMembershipBackendModel,
    guild_id: Seq<char>,
    channel_id: Seq<char>,
    members: Seq<Seq<char>>,
)
    requires
        members.no_duplicates(),
    ensures
        ({
            let channel = (guild_id, channel_id);
            let after = after_adds::<InMemoryMembershipBackend>(
                model,
                guild_id,
                channel_id,
                members,
            );
            let fails = set_at(model.fail_add_once, channel);
            &&& added_of::<InMemoryMembershipBackend>(model, guild_id, channel_id, members)
                == members.to_set().difference(fails)
            &&& set_at(after.fail_add_once, channel) == fails.difference(members.to_set())
            &&& after.fail_remove_once == model.fail_remove_once
        }),
    decreases members.len(),
{
    let channel = (guild_id, channel_id);
    let fails = set_at(model.fail_add_once, channel);
    if members.len() == 0 {
        assert(fails.difference(members.to_set()) =~= fails);
        assert(members.to_set().difference(fails) =~= Set::empty());
    } else {
        let earlier = members.drop_last();
        let last = members.last();
        lemma_in_memory_adds(model, guild_id, channel_id, earlier);
        assert(members =~= earlier.push(last));
        crate::collections::lemma_push_to_set(earlier, last);
        assert(!earlier.contains(last)) by {
            if earlier.contains(last) {
                let j = choose|j: int| 0 <= j < earlier.len() && earlier[j] == last;
                assert(members[j] == members[members.len() - 1]);
            }
        }
        let before = after_adds::<InMemoryMembershipBackend>(
            model,
            guild_id,
            channel_id,
            earlier,
        );
        let after = InMemoryMembershipBackend::after_add(before, guild_id, channel_id, last);
        assert(set_at(after.fail_add_once, channel) =~= fails.difference(members.to_set()));
        assert(added_of::<InMemoryMembershipBackend>(model, guild_id, channel_id, members)
            =~= members.to_set().difference(fails));
    }
}

proof fn lemma_in_memory_removes(
    model: InMemoryMembershipBackendModel,
    guild_id: Seq<char>,
    channel_id: Seq<char>,
    members: Seq<Seq<char>>,
)
    requires
        members.no_duplicates(),
    ensures
        ({
            let channel = (guild_id, channel_id);
            let after = after_removes::<InMemoryMembershipBackend>(
                model,
                guild_id,
                channel_id,
                members,
            );
            let fails = set_at(model.fail_remove_once, channel);
            &&& removed_of::<InMemoryMembershipBackend>(model, guild_id, channel_id, members)
                == members.to_set().difference(fails)
            &&& set_at(after.fail_remove_once, channel) == fails.difference(members.to_set())
            &&& after.fail_add_once == model.fail_add_once
        }),
    decreases members.len(),
{
    let channel = (guild_id, channel_id);
    let fails = set_at(model.fail_remove_once, channel);
    if members.len() == 0 {
        assert(fails.difference(members.to_set()) =~= fails);
        assert(members.to_set().difference(fails) =~= Set::empty());
    } else {
        let earlier = members.drop_last();
        let last = members.last();
        lemma_in_memory_removes(model, guild_id, channel_id, earlier);
        assert(members =~= earlier.push(last));
        crate::collections::lemma_push_to_set(earlier, last);
        assert(!earlier.contains(last)) by {
            if earlier.contains(last) {
                let j = choose|j: int| 0 <= j < earlier.len() && earlier[j] == last;
                assert(members[j] == members[members.len() - 1]);
            }
        }
        let before = after_removes::<InMemoryMembershipBackend>(
            model,
            guild_id,
            channel_id,
            earlier,
        );
        let after = InMemoryMembershipBackend::after_remove(before, guild_id, channel_id, last);
        assert(set_at(after.fail_remove_once, channel) =~= fails.difference(members.to_set()));
        assert(removed_of::<InMemoryMembershipBackend>(model, guild_id, channel_id, members)
            =~= members.to_set().difference(fails));
    }
}

/// With the in-memory backend exactly those fail that it was told to refuse, and it
/// refuses them once: afterwards it is told to refuse only what it was not asked for.
pub proof fn in_memory_backend_refuses_once(
    model: InMemoryMembershipBackendModel,
    guild_id: Seq<char>,
    channel_id: Seq<char>,
    desired: Set<Seq<char>>,
)
    requires
        desired.finite(),
        set_at(model.members, (guild_id, channel_id)).finite(),
    ensures
        ({
            let channel = (guild_id, channel_id);
            let actual = set_at(model.members, channel);
            let report = report_of::<InMemoryMembershipBackend>(
                model,
                guild_id,
                channel_id,
                desired,
                actual,
            );
            let after = reconciled::<InMemoryMembershipBackend>(
                model,
                guild_id,
                channel_id,
                desired,
                actual,
            );
            &&& report.failed_add == report.diff.to_add.intersect(
                set_at(model.fail_add_once, channel),
            )
            &&& report.failed_remove == report.diff.to_remove.intersect(
                set_at(model.fail_remove_once, channel),
            )
            &&& set_at(after.members, channel) == members_after(report)
            &&& set_at(after.fail_add_once, channel) == set_at(
                model.fail_add_once,
                channel,
            ).difference(report.diff.to_add)
            &&& set_at(after.fail_remove_once, channel) == set_at(
                model.fail_remove_once,
                channel,
            ).difference(report.diff.to_remove)
        }),
{
    let channel = (guild_id, channel_id);
    let actual = set_at(model.members, channel);
    let diff = diff_of(desired, actual);
    let to_add = listing_of::<String>(diff.to_add);
    let to_remove = listing_of::<String>(diff.to_remove);
    lemma_listing_holds(diff.to_add);
    lemma_listing_holds(diff.to_remove);
    in_memory_backend_keeps_books();
    report_tells_what_was_done::<InMemoryMembershipBackend>(
        model,
        guild_id,
        channel_id,
        desired,
        actual,
    );
    let between = after_adds::<InMemoryMembershipBackend>(model, guild_id, channel_id, to_add);
    lemma_in_memory_adds(model, guild_id, channel_id, to_add);
    lemma_in_memory_removes(between, guild_id, channel_id, to_remove);
    let report = report_of::<InMemoryMembershipBackend>(
        model,
        guild_id,
        channel_id,
        desired,
        actual,
    );
    assert(report.failed_add =~= diff.to_add.intersect(set_at(model.fail_add_once, channel)));
    assert(report.failed_remove =~= diff.to_remove.intersect(
        set_at(model.fail_remove_once, channel),
    ));
}

/// A second reconciliation of the in-memory backend makes good what the first could
/// not do, and the backend has exactly the members it should have.
pub proof fn second_pass_converges(
    model: InMemoryMembershipBackendModel,
    guild_id: Seq<char>,
    channel_id: Seq<char>,
    desired: Set<Seq<char>>,
)
    requires
        desired.finite(),
        set_at(model.members, (guild_id, channel_id)).finite(),
    ensures
        ({
            let channel = (guild_id, channel_id);
            let actual = set_at(model.members, channel);
            let first = report_of::<InMemoryMembershipBackend>(
                model,
                guild_id,
                channel_id,
                desired,
                actual,
            );
            let between = reconciled::<InMemoryMembershipBackend>(
                model,
                guild_id,
                channel_id,
                desired,
                actual,
            );
            let second = report_of::<InMemoryMembershipBackend>(
                between,
                guild_id,
                channel_id,
                desired,
                set_at(between.members, channel),
            );
            let after = reconciled::<InMemoryMembershipBackend>(
                between,
                guild_id,
                channel_id,
                desired,
                set_at(between.members, channel),
            );
            &&& second.added == first.failed_add
            &&& second.removed == first.failed_remove
            &&& second.failed_add == Set::<Seq<char>>::empty()
            &&& second.failed_remove == Set::<Seq<char>>::empty()
            &&& set_at(after.members, channel) == desired
        }),
{
    let channel = (guild_id, channel_id);
    let actual = set_at(model.members, channel);
    in_memory_backend_keeps_books();
    in_memory_backend_refuses_once(model, guild_id, channel_id, desired);
    retry_takes_up_what_failed::<InMemoryMembershipBackend>(
        model,
        guild_id,
        channel_id,
        desired,
        actual,
    );
    let first = report_of::<InMemoryMembershipBackend>(
        model,
        guild_id,
        channel_id,
        desired,
        actual,
    );
    report_tells_what_was_done::<InMemoryMembershipBackend>(
        model,
        guild_id,
        channel_id,
        desired,
        actual,
    );
    let between = reconciled::<InMemoryMembershipBackend>(
        model,
        guild_id,
        channel_id,
        desired,
        actual,
    );
    let held = set_at(between.members, channel);
    assert(first.added.subset_of(first.diff.to_add)) by {
        assert forall|m: Seq<char>| first.added.contains(m) implies first.diff.to_add.contains(m) by {
            assert(first.added.union(first.failed_add).contains(m));
        }
    }
    assert(held.subset_of(actual.union(desired)));
    vstd::set_lib::lemma_set_subset_finite(actual.union(desired), held);
    in_memory_backend_refuses_once(between, guild_id, channel_id, desired);
    let second = report_of::<InMemoryMembershipBackend>(
        between,
        guild_id,
        channel_id,
        desired,
        held,
    );
    assert(second.diff == diff_of(desired, held));
    assert(second.failed_add =~= Set::empty());
    assert(second.failed_remove =~= Set::empty());
    report_tells_what_was_done::<InMemoryMembershipBackend>(
        between,
        guild_id,
        channel_id,
        desired,
        held,
    );
    assert(second.added =~= second.diff.to_add) by {
        assert(second.added.union(Set::<Seq<char>>::empty()) =~= second.added);
    }
    assert(second.removed =~= second.diff.to_remove) by {
        assert(second.removed.union(Set::<Seq<char>>::empty()) =~= second.removed);
    }
    converged_means_desired::<InMemoryMembershipBackend>(
        between,
        guild_id,
        channel_id,
        desired,
        held,
    );
}

} // verus!
