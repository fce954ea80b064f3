//! What the application shows: summaries of guilds, channels, messages and voice
//! rooms, and the selection that decides which of them.
use vstd::prelude::*;
use crate::chat::{timeline_of, ChatState, ChatStateModel, TimelineMessage, TimelineMessageModel};
use crate::collections::{
    lemma_listing_exists, lemma_listing_of, lists, listing_of, ChannelKey, Key, Relation, Replicate,
};
use crate::control::{
    ChannelStateModel, ControlState, ControlStateModel, GuildState, GuildStateModel,
};
use crate::sorting::{put_in_order, sorted, Ranked};
use crate::text::{
    lemma_text_before_irreflexive, lemma_text_before_total, lemma_text_before_transitive,
    text_before,
};
use crate::voice::{VoiceRoomState, VoiceRoomStateModel, VoiceState, VoiceStateModel};
use crate::ChannelKind;

verus! {

pub const DEFAULT_GREETING: &'static str = "Rapture ready";

/// A guild in the list.
#[derive(Debug, PartialEq, Eq)]
pub struct GuildSummary {
    pub guild_id: String,
    pub name: String,
    pub channel_count: u32,
    pub member_count: u32,
    pub channels: Vec<ChannelSummary>,
}

/// What a [`GuildSummary`] holds.
#[verifier::ext_equal]
pub struct GuildSummaryModel {
    pub guild_id: Seq<char>,
    pub name: Seq<char>,
    pub channel_count: u32,
    pub member_count: u32,
    pub channels: Seq<ChannelSummaryModel>,
}

impl DeepView for GuildSummary {
    type V = GuildSummaryModel;

    open spec fn deep_view(&self) -> GuildSummaryModel {
        GuildSummaryModel {
            guild_id: self.guild_id.deep_view(),
            name: self.name.deep_view(),
            channel_count: self.channel_count.deep_view(),
            member_count: self.member_count.deep_view(),
            channels: self.channels.deep_view(),
        }
    }
}

impl View for GuildSummary {
    type V = GuildSummaryModel;

    open spec fn view(&self) -> GuildSummaryModel {
        self.deep_view()
    }
}

impl Replicate for GuildSummary {
    fn replicate(&self) -> (copy: Self) {
        GuildSummary {
            guild_id: self.guild_id.replicate(),
            name: self.name.replicate(),
            channel_count: self.channel_count.replicate(),
            member_count: self.member_count.replicate(),
            channels: self.channels.replicate(),
        }
    }
}

impl Clone for GuildSummary {
    fn clone(&self) -> (copy: Self)
        ensures
            copy@ == self@,
    {
        self.replicate()
    }
}

/// A channel in the list.
#[derive(Debug, PartialEq, Eq)]
pub struct ChannelSummary {
    pub channel_id: String,
    pub name: String,
    pub kind: ChannelKind,
}

/// What a [`ChannelSummary`] holds.
#[verifier::ext_equal]
pub struct ChannelSummaryModel {
    pub channel_id: Seq<char>,
    pub name: Seq<char>,
    pub kind: ChannelKind,
}

impl DeepView for ChannelSummary {
    type V = ChannelSummaryModel;

    open spec fn deep_view(&self) -> ChannelSummaryModel {
        ChannelSummaryModel {
            channel_id: self.channel_id.deep_view(),
            name: self.name.deep_view(),
            kind: self.kind.deep_view(),
        }
    }
}

impl View for ChannelSummary {
    type V = ChannelSummaryModel;

    open spec fn view(&self) -> ChannelSummaryModel {
        self.deep_view()
    }
}

impl Replicate for ChannelSummary {
    fn replicate(&self) -> (copy: Self) {
        ChannelSummary {
            channel_id: self.channel_id.replicate(),
            name: self.name.replicate(),
            kind: self.kind.replicate(),
        }
    }
}

impl Clone for ChannelSummary {
    fn clone(&self) -> (copy: Self)
        ensures
            copy@ == self@,
    {
        self.replicate()
    }
}

/// Who reacted with an emoji.
#[derive(Debug, PartialEq, Eq)]
pub struct TimelineReactionSummary {
    pub emoji: String,
    pub actors: Vec<String>,
}

/// What a [`TimelineReactionSummary`] holds.
#[verifier::ext_equal]
pub struct TimelineReactionSummaryModel {
    pub emoji: Seq<char>,
    pub actors: Seq<Seq<char>>,
}

impl DeepView for TimelineReactionSummary {
    type V = TimelineReactionSummaryModel;

    open spec fn deep_view(&self) -> TimelineReactionSummaryModel {
        TimelineReactionSummaryModel {
            emoji: self.emoji.deep_view(),
            actors: self.actors.deep_view(),
        }
    }
}

impl View for TimelineReactionSummary {
    type V = TimelineReactionSummaryModel;

    open spec fn view(&self) -> TimelineReactionSummaryModel {
        self.deep_view()
    }
}

impl Replicate for TimelineReactionSummary {
    fn replicate(&self) -> (copy: Self) {
        TimelineReactionSummary {
            emoji: self.emoji.replicate(),
            actors: self.actors.replicate(),
        }
    }
}

impl Clone for TimelineReactionSummary {
    fn clone(&self) -> (copy: Self)
        ensures
            copy@ == self@,
    {
        self.replicate()
    }
}

/// A message in the timeline.
#[derive(Debug, PartialEq, Eq)]
pub struct TimelineMessageSummary {
    pub message_id: String,
    pub author: String,
    pub content: String,
    pub edited: bool,
    pub deleted: bool,
    pub reactions: Vec<TimelineReactionSummary>,
    pub ts_ms: i64,
}

/// What a [`TimelineMessageSummary`] holds.
#[verifier::ext_equal]
pub struct TimelineMessageSummaryModel {
    pub message_id: Seq<char>,
    pub author: Seq<char>,
    pub content: Seq<char>,
    pub edited: bool,
    pub deleted: bool,
    pub reactions: Seq<TimelineReactionSummaryModel>,
    pub ts_ms: i64,
}

impl DeepView for TimelineMessageSummary {
    type V = TimelineMessageSummaryModel;

    open spec fn deep_view(&self) -> TimelineMessageSummaryModel {
        TimelineMessageSummaryModel {
            message_id: self.message_id.deep_view(),
            author: self.author.deep_view(),
            content: self.content.deep_view(),
            edited: self.edited.deep_view(),
            deleted: self.deleted.deep_view(),
            reactions: self.reactions.deep_view(),
            ts_ms: self.ts_ms.deep_view(),
        }
    }
}

impl View for TimelineMessageSummary {
    type V = TimelineMessageSummaryModel;

    open spec fn view(&self) -> TimelineMessageSummaryModel {
        self.deep_view()
    }
}

impl Replicate for TimelineMessageSummary {
    fn replicate(&self) -> (copy: Self) {
        TimelineMessageSummary {
            message_id: self.message_id.replicate(),
            author: self.author.replicate(),
            content: self.content.replicate(),
            edited: self.edited.replicate(),
            deleted: self.deleted.replicate(),
            reactions: self.reactions.replicate(),
            ts_ms: self.ts_ms.replicate(),
        }
    }
}

impl Clone for TimelineMessageSummary {
    fn clone(&self) -> (copy: Self)
        ensures
            copy@ == self@,
    {
        self.replicate()
    }
}

/// Someone in a voice room.
#[derive(Debug, PartialEq, Eq)]
pub struct VoiceParticipantSummary {
    pub pubkey: String,
    pub muted: bool,
    pub speaking: bool,
    pub hand_raised: bool,
}

/// What a [`VoiceParticipantSummary`] holds.
#[verifier::ext_equal]
pub struct VoiceParticipantSummaryModel {
    pub pubkey: Seq<char>,
    pub muted: bool,
    pub speaking: bool,
    pub hand_raised: bool,
}

impl DeepView for VoiceParticipantSummary {
    type V = VoiceParticipantSummaryModel;

    open spec fn deep_view(&self) -> VoiceParticipantSummaryModel {
        VoiceParticipantSummaryModel {
            pubkey: self.pubkey.deep_view(),
            muted: self.muted.deep_view(),
            speaking: self.speaking.deep_view(),
            hand_raised: self.hand_raised.deep_view(),
        }
    }
}

impl View for VoiceParticipantSummary {
    type V = VoiceParticipantSummaryModel;

    open spec fn view(&self) -> VoiceParticipantSummaryModel {
        self.deep_view()
    }
}

impl Replicate for VoiceParticipantSummary {
    fn replicate(&self) -> (copy: Self) {
        VoiceParticipantSummary {
            pubkey: self.pubkey.replicate(),
            muted: self.muted.replicate(),
            speaking: self.speaking.replicate(),
            hand_raised: self.hand_raised.replicate(),
        }
    }
}

impl Clone for VoiceParticipantSummary {
    fn clone(&self) -> (copy: Self)
        ensures
            copy@ == self@,
    {
        self.replicate()
    }
}

/// A voice room.
#[derive(Debug, PartialEq, Eq)]
pub struct VoiceRoomSummary {
    pub active_session_id: Option<String>,
    pub moq_url: Option<String>,
    pub participants: Vec<VoiceParticipantSummary>,
    pub track_count: u32,
}

/// What a [`VoiceRoomSummary`] holds.
#[verifier::ext_equal]
pub struct VoiceRoomSummaryModel {
    pub active_session_id: Option<Seq<char>>,
    pub moq_url: Option<Seq<char>>,
    pub participants: Seq<VoiceParticipantSummaryModel>,
    pub track_count: u32,
}

impl DeepView for VoiceRoomSummary {
    type V = VoiceRoomSummaryModel;

    open spec fn deep_view(&self) -> VoiceRoomSummaryModel {
        VoiceRoomSummaryModel {
            active_session_id: self.active_session_id.deep_view(),
            moq_url: self.moq_url.deep_view(),
            participants: self.participants.deep_view(),
            track_count: self.track_count.deep_view(),
        }
    }
}

impl View for VoiceRoomSummary {
    type V = VoiceRoomSummaryModel;

    open spec fn view(&self) -> VoiceRoomSummaryModel {
        self.deep_view()
    }
}

impl Replicate for VoiceRoomSummary {
    fn replicate(&self) -> (copy: Self) {
        VoiceRoomSummary {
            active_session_id: self.active_session_id.replicate(),
            moq_url: self.moq_url.replicate(),
            participants: self.participants.replicate(),
            track_count: self.track_count.replicate(),
        }
    }
}

impl Clone for VoiceRoomSummary {
    fn clone(&self) -> (copy: Self)
        ensures
            copy@ == self@,
    {
        self.replicate()
    }
}

/// Everything that is shown.
#[derive(Debug, PartialEq, Eq)]
pub struct AppState {
    pub rev: u64,
    pub greeting: String,
    pub guilds: Vec<GuildSummary>,
    pub selected_guild_id: Option<String>,
    pub selected_channel_id: Option<String>,
    pub timeline: Vec<TimelineMessageSummary>,
    pub voice_room: Option<VoiceRoomSummary>,
    pub toast: Option<String>,
}

/// What a [`AppState`] holds.
#[verifier::ext_equal]
pub struct AppStateModel {
    pub rev: u64,
    pub greeting: Seq<char>,
    pub guilds: Seq<GuildSummaryModel>,
    pub selected_guild_id: Option<Seq<char>>,
    pub selected_channel_id: Option<Seq<char>>,
    pub timeline: Seq<TimelineMessageSummaryModel>,
    pub voice_room: Option<VoiceRoomSummaryModel>,
    pub toast: Option<Seq<char>>,
}

impl DeepView for AppState {
    type V = AppStateModel;

    open spec fn deep_view(&self) -> AppStateModel {
        AppStateModel {
            rev: self.rev.deep_view(),
            greeting: self.greeting.deep_view(),
            guilds: self.guilds.deep_view(),
            selected_guild_id: self.selected_guild_id.deep_view(),
            selected_channel_id: self.selected_channel_id.deep_view(),
            timeline: self.timeline.deep_view(),
            voice_room: self.voice_room.deep_view(),
            toast: self.toast.deep_view(),
        }
    }
}

impl View for AppState {
    type V = AppStateModel;

    open spec fn view(&self) -> AppStateModel {
        self.deep_view()
    }
}

impl Replicate for AppState {
    fn replicate(&self) -> (copy: Self) {
        AppState {
            rev: self.rev.replicate(),
            greeting: self.greeting.replicate(),
            guilds: self.guilds.replicate(),
            selected_guild_id: self.selected_guild_id.replicate(),
            selected_channel_id: self.selected_channel_id.replicate(),
            timeline: self.timeline.replicate(),
            voice_room: self.voice_room.replicate(),
            toast: self.toast.replicate(),
        }
    }
}

impl Clone for AppState {
    fn clone(&self) -> (copy: Self)
        ensures
            copy@ == self@,
    {
        self.replicate()
    }
}

/// What a listener is told.
#[derive(Debug, PartialEq, Eq)]
pub enum AppUpdate {
    FullState(AppState),
}

/// What a [`AppUpdate`] holds.
#[verifier::ext_equal]
pub enum AppUpdateModel {
    FullState(AppStateModel),
}

impl DeepView for AppUpdate {
    type V = AppUpdateModel;

    open spec fn deep_view(&self) -> AppUpdateModel {
        match self {
            AppUpdate::FullState(a) => AppUpdateModel::FullState(a.deep_view()),
        }
    }
}

impl View for AppUpdate {
    type V = AppUpdateModel;

    open spec fn view(&self) -> AppUpdateModel {
        self.deep_view()
    }
}

impl Replicate for AppUpdate {
    fn replicate(&self) -> (copy: Self) {
        match self {
            AppUpdate::FullState(a) => AppUpdate::FullState(a.replicate()),
        }
    }
}

impl Clone for AppUpdate {
    fn clone(&self) -> (copy: Self)
        ensures
            copy@ == self@,
    {
        self.replicate()
    }
}

impl AppState {
    /// What is shown before anything was loaded.
    pub fn empty() -> (state: Self)
        ensures
            state@ == (AppStateModel {
                rev: 0,
                greeting: DEFAULT_GREETING@,
                guilds: Seq::empty(),
                selected_guild_id: None,
                selected_channel_id: None,
                timeline: Seq::empty(),
                voice_room: None,
                toast: None,
            }),
    {
        let state = AppState {
            rev: 0,
            greeting: DEFAULT_GREETING.to_owned(),
            guilds: Vec::new(),
            selected_guild_id: None,
            selected_channel_id: None,
            timeline: Vec::new(),
            voice_room: None,
            toast: None,
        };
        proof {
            assert(state@.guilds =~= Seq::empty());
            assert(state@.timeline =~= Seq::empty());
        }
        state
    }
}

/// A length as the 32-bit count that is shown.
pub open spec fn shown_count(n: nat) -> u32 {
    (n % 0x1_0000_0000) as u32
}

/// A length as the 32-bit count that is shown.
fn count_of(n: usize) -> (count: u32)
    ensures
        count == shown_count(n as nat),
{
    ((n as u64) % 0x1_0000_0000) as u32
}

/// Whether one name and id goes before another: by name, and for the same name
/// by id.
pub open spec fn name_then_id(
    a: (Seq<char>, Seq<char>),
    b: (Seq<char>, Seq<char>),
) -> bool {
    ChannelKey::before(a, b)
}

proof fn lemma_name_then_id_asymmetric(a: (Seq<char>, Seq<char>), b: (Seq<char>, Seq<char>))
    requires
        name_then_id(a, b),
    ensures
        !name_then_id(b, a),
{
    if name_then_id(b, a) {
        ChannelKey::lemma_transitive(a, b, a);
        ChannelKey::lemma_irreflexive(a);
    }
}

proof fn lemma_name_then_id_transitive(
    a: (Seq<char>, Seq<char>),
    b: (Seq<char>, Seq<char>),
    c: (Seq<char>, Seq<char>),
)
    requires
        !name_then_id(b, a),
        !name_then_id(c, b),
    ensures
        !name_then_id(c, a),
{
    if name_then_id(c, a) {
        if a != b {
            ChannelKey::lemma_total(a, b);
            ChannelKey::lemma_transitive(c, a, b);
        }
    }
}

/// Compares names, and for the same name ids.
fn goes_before(a_name: &String, a_id: &String, b_name: &String, b_id: &String) -> (before: bool)
    ensures
        before == name_then_id((a_name@, a_id@), (b_name@, b_id@)),
{
    match a_name.relate(b_name) {
        Relation::Before => true,
        Relation::After => {
            proof {
                lemma_text_before_irreflexive(a_name@);
                if text_before(a_name@, b_name@) {
                    lemma_text_before_transitive(a_name@, b_name@, a_name@);
                }
            }
            false
        },
        Relation::Same => {
            proof {
                lemma_text_before_irreflexive(a_name@);
            }
            a_id.relate(b_id) == Relation::Before
        },
    }
}

impl Ranked for GuildSummary {
    open spec fn ahead(a: GuildSummaryModel, b: GuildSummaryModel) -> bool {
        name_then_id((a.name, a.guild_id), (b.name, b.guild_id))
    }

    proof fn lemma_asymmetric(a: GuildSummaryModel, b: GuildSummaryModel) {
        lemma_name_then_id_asymmetric((a.name, a.guild_id), (b.name, b.guild_id));
    }

    proof fn lemma_not_ahead_transitive(
        a: GuildSummaryModel,
        b: GuildSummaryModel,
        c: GuildSummaryModel,
    ) {
        lemma_name_then_id_transitive(
            (a.name, a.guild_id),
            (b.name, b.guild_id),
            (c.name, c.guild_id),
        );
    }

    fn is_ahead(&self, other: &Self) -> (before: bool) {
        goes_before(&self.name, &self.guild_id, &other.name, &other.guild_id)
    }
}

impl Ranked for ChannelSummary {
    open spec fn ahead(a: ChannelSummaryModel, b: ChannelSummaryModel) -> bool {
        name_then_id((a.name, a.channel_id), (b.name, b.channel_id))
    }

    proof fn lemma_asymmetric(a: ChannelSummaryModel, b: ChannelSummaryModel) {
        lemma_name_then_id_asymmetric((a.name, a.channel_id), (b.name, b.channel_id));
    }

    proof fn lemma_not_ahead_transitive(
        a: ChannelSummaryModel,
        b: ChannelSummaryModel,
        c: ChannelSummaryModel,
    ) {
        lemma_name_then_id_transitive(
            (a.name, a.channel_id),
            (b.name, b.channel_id),
            (c.name, c.channel_id),
        );
    }

    fn is_ahead(&self, other: &Self) -> (before: bool) {
        goes_before(&self.name, &self.channel_id, &other.name, &other.channel_id)
    }
}

impl Ranked for TimelineMessageSummary {
    /// By time, and at the same time by message id.
    open spec fn ahead(a: TimelineMessageSummaryModel, b: TimelineMessageSummaryModel) -> bool {
        a.ts_ms < b.ts_ms || (a.ts_ms == b.ts_ms && text_before(a.message_id, b.message_id))
    }

    proof fn lemma_asymmetric(a: TimelineMessageSummaryModel, b: TimelineMessageSummaryModel) {
        if Self::ahead(b, a) {
            lemma_text_before_transitive(a.message_id, b.message_id, a.message_id);
            lemma_text_before_irreflexive(a.message_id);
        }
    }

    proof fn lemma_not_ahead_transitive(
        a: TimelineMessageSummaryModel,
        b: TimelineMessageSummaryModel,
        c: TimelineMessageSummaryModel,
    ) {
        if Self::ahead(c, a) {
            if a.message_id != b.message_id {
                lemma_text_before_total(a.message_id, b.message_id);
            }
            if b.message_id != c.message_id {
                lemma_text_before_total(b.message_id, c.message_id);
            }
            if text_before(c.message_id, a.message_id) && a.message_id != b.message_id
                && text_before(a.message_id, b.message_id) {
                lemma_text_before_transitive(c.message_id, a.message_id, b.message_id);
            }
        }
    }

    fn is_ahead(&self, other: &Self) -> (before: bool) {
        self.ts_ms < other.ts_ms || (self.ts_ms == other.ts_ms && self.message_id.relate(
            &other.message_id,
        ) == Relation::Before)
    }
}

/// A channel as it is listed.
pub open spec fn channel_summary(channel: ChannelStateModel) -> ChannelSummaryModel {
    ChannelSummaryModel { channel_id: channel.channel_id, name: channel.name, kind: channel.kind }
}

/// The channels of a guild as they are listed, by name and id.
pub open spec fn channel_list(guild: GuildStateModel) -> Seq<ChannelSummaryModel> {
    sorted::<ChannelSummary>(
        listing_of::<String>(guild.channels.dom()).map_values(
            |id: Seq<char>| channel_summary(guild.channels[id]),
        ),
    )
}

/// A guild as it is listed.
pub open spec fn guild_summary(guild: GuildStateModel) -> GuildSummaryModel {
    GuildSummaryModel {
        guild_id: guild.guild_id,
        name: guild.name,
        channel_count: shown_count(guild.channels.dom().len()),
        member_count: shown_count(guild.members.len()),
        channels: channel_list(guild),
    }
}

/// All guilds as they are listed, by name and id.
pub open spec fn guild_list(control: ControlStateModel) -> Seq<GuildSummaryModel> {
    sorted::<GuildSummary>(
        listing_of::<String>(control.guilds.dom()).map_values(
            |id: Seq<char>| guild_summary(control.guilds[id]),
        ),
    )
}

/// The reactions to a message as they are listed, by emoji.
pub open spec fn reaction_list(message: TimelineMessageModel) -> Seq<TimelineReactionSummaryModel> {
    listing_of::<String>(message.reactions.dom()).map_values(
        |emoji: Seq<char>|
            TimelineReactionSummaryModel {
                emoji,
                actors: listing_of::<String>(message.reactions[emoji]),
            },
    )
}

/// A message as it is listed.
pub open spec fn message_summary(message: TimelineMessageModel) -> TimelineMessageSummaryModel {
    TimelineMessageSummaryModel {
        message_id: message.message_id,
        author: message.author,
        content: message.content,
        edited: message.edited,
        deleted: message.deleted,
        reactions: reaction_list(message),
        ts_ms: message.ts_ms,
    }
}

/// The messages of the selected channel as they are listed, by time and id.
pub open spec fn shown_timeline(
    chat: ChatStateModel,
    guild_id: Option<Seq<char>>,
    channel_id: Option<Seq<char>>,
) -> Seq<TimelineMessageSummaryModel> {
    match (guild_id, channel_id) {
        (Some(guild), Some(channel)) => sorted::<TimelineMessageSummary>(
            timeline_of(chat, (guild, channel)).map_values(
                |message: TimelineMessageModel| message_summary(message),
            ),
        ),
        _ => Seq::empty(),
    }
}

/// A voice room as it is shown, its participants by name.
pub open spec fn room_summary(room: VoiceRoomStateModel) -> VoiceRoomSummaryModel {
    VoiceRoomSummaryModel {
        active_session_id: room.active_session_id,
        moq_url: room.moq_url,
        participants: listing_of::<String>(room.participants.dom()).map_values(
            |pubkey: Seq<char>|
                VoiceParticipantSummaryModel {
                    pubkey,
                    muted: room.participants[pubkey].muted,
                    speaking: room.participants[pubkey].speaking,
                    hand_raised: room.participants[pubkey].hand_raised,
                },
        ),
        track_count: shown_count(room.tracks.len()),
    }
}

/// The voice room of the selected channel, where one was ever opened.
pub open spec fn shown_room(
    voice: VoiceStateModel,
    guild_id: Option<Seq<char>>,
    channel_id: Option<Seq<char>>,
) -> Option<VoiceRoomSummaryModel> {
    match (guild_id, channel_id) {
        (Some(guild), Some(channel)) => if voice.rooms.contains_key((guild, channel)) {
            Some(room_summary(voice.rooms[(guild, channel)]))
        } else {
            None
        },
        _ => None,
    }
}

proof fn lemma_map_next<A, B>(keys: Seq<A>, i: int, f: spec_fn(A) -> B)
    requires
        0 <= i < keys.len(),
    ensures
        keys.take(i + 1).map_values(f).drop_last() == keys.take(i).map_values(f),
        keys.take(i + 1).map_values(f).last() == f(keys[i]),
        keys.take(i + 1).map_values(f) == keys.take(i).map_values(f).push(f(keys[i])),
        keys.take(i + 1).map_values(f).len() > 0,
{
    let next = keys.take(i + 1).map_values(f);
    assert(next.drop_last() =~= keys.take(i).map_values(f));
    assert(next =~= keys.take(i).map_values(f).push(f(keys[i])));
}

/// Lists the channels of a guild.
fn list_channels(guild: &GuildState) -> (channels: Vec<ChannelSummary>)
    ensures
        channels.deep_view() == channel_list(guild@),
{
    let n: usize = guild.channels.len();
    let ghost ids = guild.channels.listing();
    let ghost f = |id: Seq<char>| channel_summary(guild@.channels[id]);
    let mut channels: Vec<ChannelSummary> = Vec::new();
    let mut i: usize = 0;
    proof {
        assert(ids.take(0).map_values(f) =~= Seq::<ChannelSummaryModel>::empty());
        assert(channels.deep_view() =~= Seq::<ChannelSummaryModel>::empty());
    }
    while i < n
        invariant
            i <= n == ids.len(),
            ids == guild.channels.listing(),
            f == (|id: Seq<char>| channel_summary(guild@.channels[id])),
            channels.deep_view() == sorted::<ChannelSummary>(ids.take(i as int).map_values(f)),
        decreases n - i,
    {
        let channel = guild.channels.value_at(i);
        put_in_order(
            &mut channels,
            ChannelSummary {
                channel_id: channel.channel_id.clone(),
                name: channel.name.clone(),
                kind: channel.kind,
            },
        );
        proof {
            lemma_map_next(ids, i as int, f);
        }
        i += 1;
    }
    proof {
        assert(ids.take(i as int) =~= ids);
        lemma_listing_of::<String>(ids, guild@.channels.dom());
    }
    channels
}

/// Lists all guilds.
fn list_guilds(control: &ControlState) -> (guilds: Vec<GuildSummary>)
    ensures
        guilds.deep_view() == guild_list(control@),
{
    let n: usize = control.guilds.len();
    let ghost ids = control.guilds.listing();
    let ghost f = |id: Seq<char>| guild_summary(control@.guilds[id]);
    let mut guilds: Vec<GuildSummary> = Vec::new();
    let mut i: usize = 0;
    proof {
        assert(ids.take(0).map_values(f) =~= Seq::<GuildSummaryModel>::empty());
        assert(guilds.deep_view() =~= Seq::<GuildSummaryModel>::empty());
    }
    while i < n
        invariant
            i <= n == ids.len(),
            ids == control.guilds.listing(),
            f == (|id: Seq<char>| guild_summary(control@.guilds[id])),
            guilds.deep_view() == sorted::<GuildSummary>(ids.take(i as int).map_values(f)),
        decreases n - i,
    {
        let guild = control.guilds.value_at(i);
        put_in_order(
            &mut guilds,
            GuildSummary {
                guild_id: guild.guild_id.clone(),
                name: guild.name.clone(),
                channel_count: count_of(guild.channels.len()),
                member_count: count_of(guild.members.len()),
                channels: list_channels(guild),
            },
        );
        proof {
            lemma_map_next(ids, i as int, f);
        }
        i += 1;
    }
    proof {
        assert(ids.take(i as int) =~= ids);
        lemma_listing_of::<String>(ids, control@.guilds.dom());
    }
    guilds
}

/// Lists the reactions to a message.
fn list_reactions(message: &TimelineMessage) -> (reactions: Vec<TimelineReactionSummary>)
    ensures
        reactions.deep_view() == reaction_list(message@),
{
    let n: usize = message.reactions.len();
    let ghost emojis = message.reactions.listing();
    let ghost f = |emoji: Seq<char>|
        TimelineReactionSummaryModel {
            emoji,
            actors: listing_of::<String>(message@.reactions[emoji]),
        };
    let mut reactions: Vec<TimelineReactionSummary> = Vec::new();
    let mut i: usize = 0;
    proof {
        assert(reactions.deep_view() =~= emojis.take(0).map_values(f));
    }
    while i < n
        invariant
            i <= n == emojis.len(),
            emojis == message.reactions.listing(),
            f == (|emoji: Seq<char>|
                TimelineReactionSummaryModel {
                    emoji,
                    actors: listing_of::<String>(message@.reactions[emoji]),
                }),
            reactions.deep_view() == emojis.take(i as int).map_values(f),
        decreases n - i,
    {
        let actors = message.reactions.value_at(i);
        let summary = TimelineReactionSummary {
            emoji: message.reactions.key_at(i).clone(),
            actors: actors.to_vec(),
        };
        let ghost before = reactions.deep_view();
        let ghost added = summary@;
        proof {
            lemma_listing_of::<String>(actors.listing(), actors@);
        }
        reactions.push(summary);
        proof {
            lemma_map_next(emojis, i as int, f);
            assert(reactions.deep_view() =~= before.push(added));
        }
        i += 1;
    }
    proof {
        assert(emojis.take(i as int) =~= emojis);
        lemma_listing_of::<String>(emojis, message@.reactions.dom());
    }
    reactions
}

/// Lists the messages of a channel.
fn list_messages(chat: &ChatState, guild_id: &String, channel_id: &String) -> (timeline: Vec<
    TimelineMessageSummary,
>)
    ensures
        timeline.deep_view() == shown_timeline(chat@, Some(guild_id@), Some(channel_id@)),
{
    let messages = chat.timeline(guild_id.as_str(), channel_id.as_str());
    let ghost all = messages.deep_view();
    let ghost f = |message: TimelineMessageModel| message_summary(message);
    let mut timeline: Vec<TimelineMessageSummary> = Vec::new();
    let mut i: usize = 0;
    proof {
        assert(all.take(0).map_values(f) =~= Seq::<TimelineMessageSummaryModel>::empty());
        assert(timeline.deep_view() =~= Seq::<TimelineMessageSummaryModel>::empty());
    }
    while i < messages.len()
        invariant
            i <= messages.len(),
            all == messages.deep_view(),
            f == (|message: TimelineMessageModel| message_summary(message)),
            timeline.deep_view() == sorted::<TimelineMessageSummary>(
                all.take(i as int).map_values(f),
            ),
        decreases messages.len() - i,
    {
        let message = &messages[i];
        put_in_order(
            &mut timeline,
            TimelineMessageSummary {
                message_id: message.message_id.clone(),
                author: message.author.clone(),
                content: message.content.clone(),
                edited: message.edited,
                deleted: message.deleted,
                reactions: list_reactions(message),
                ts_ms: message.ts_ms,
            },
        );
        proof {
            lemma_map_next(all, i as int, f);
        }
        i += 1;
    }
    proof {
        assert(all.take(i as int) =~= all);
    }
    timeline
}

/// Sums up a voice room.
fn sum_up_room(room: &VoiceRoomState) -> (summary: VoiceRoomSummary)
    ensures
        summary@ == room_summary(room@),
{
    let n: usize = room.participants.len();
    let ghost names = room.participants.listing();
    let ghost f = |pubkey: Seq<char>|
        VoiceParticipantSummaryModel {
            pubkey,
            muted: room@.participants[pubkey].muted,
            speaking: room@.participants[pubkey].speaking,
            hand_raised: room@.participants[pubkey].hand_raised,
        };
    let mut participants: Vec<VoiceParticipantSummary> = Vec::new();
    let mut i: usize = 0;
    proof {
        assert(participants.deep_view() =~= names.take(0).map_values(f));
    }
    while i < n
        invariant
            i <= n == names.len(),
            names == room.participants.listing(),
            f == (|pubkey: Seq<char>|
                VoiceParticipantSummaryModel {
                    pubkey,
                    muted: room@.participants[pubkey].muted,
                    speaking: room@.participants[pubkey].speaking,
                    hand_raised: room@.participants[pubkey].hand_raised,
                }),
            participants.deep_view() == names.take(i as int).map_values(f),
        decreases n - i,
    {
        let participant = room.participants.value_at(i);
        let summary = VoiceParticipantSummary {
            pubkey: room.participants.key_at(i).clone(),
            muted: participant.muted,
            speaking: participant.speaking,
            hand_raised: participant.hand_raised,
        };
        let ghost before = participants.deep_view();
        let ghost added = summary@;
        participants.push(summary);
        proof {
            lemma_map_next(names, i as int, f);
            assert(participants.deep_view() =~= before.push(added));
        }
        i += 1;
    }
    proof {
        assert(names.take(i as int) =~= names);
        lemma_listing_of::<String>(names, room@.participants.dom());
    }
    VoiceRoomSummary {
        active_session_id: room.active_session_id.replicate(),
        moq_url: room.moq_url.replicate(),
        participants,
        track_count: count_of(room.tracks.len()),
    }
}

/// Everything that is shown.
pub fn build_state(
    rev: u64,
    greeting: &str,
    control_state: &ControlState,
    chat_state: &ChatState,
    voice_state: &VoiceState,
    selected_guild_id: Option<String>,
    selected_channel_id: Option<String>,
    toast: Option<String>,
) -> (state: AppState)
    ensures
        state@ == (AppStateModel {
            rev,
            greeting: greeting@,
            guilds: guild_list(control_state@),
            selected_guild_id: selected_guild_id.deep_view(),
            selected_channel_id: selected_channel_id.deep_view(),
            timeline: shown_timeline(
                chat_state@,
                selected_guild_id.deep_view(),
                selected_channel_id.deep_view(),
            ),
            voice_room: shown_room(
                voice_state@,
                selected_guild_id.deep_view(),
                selected_channel_id.deep_view(),
            ),
            toast: toast.deep_view(),
        }),
{
    let guilds = list_guilds(control_state);
    let (timeline, voice_room) = match (&selected_guild_id, &selected_channel_id) {
        (Some(guild_id), Some(channel_id)) => {
            let timeline = list_messages(chat_state, guild_id, channel_id);
            let voice_room = match voice_state.room(guild_id.as_str(), channel_id.as_str()) {
                Some(room) => Some(sum_up_room(room)),
                None => None,
            };
            (timeline, voice_room)
        },
        _ => {
            let timeline: Vec<TimelineMessageSummary> = Vec::new();
            proof {
                assert(timeline.deep_view() =~= Seq::<TimelineMessageSummaryModel>::empty());
            }
            (timeline, None)
        },
    };
    AppState {
        rev,
        greeting: greeting.to_owned(),
        guilds,
        selected_guild_id,
        selected_channel_id,
        timeline,
        voice_room,
        toast,
    }
}

/// The id of the guild that is listed first.
pub open spec fn first_guild(control: ControlStateModel) -> Option<Seq<char>> {
    let guilds = guild_list(control);
    if guilds.len() == 0 {
        None
    } else {
        Some(guilds[0].guild_id)
    }
}

/// The id of the channel that is listed first.
pub open spec fn first_channel(guild: GuildStateModel) -> Option<Seq<char>> {
    let channels = channel_list(guild);
    if channels.len() == 0 {
        None
    } else {
        Some(channels[0].channel_id)
    }
}

/// The id of the guild that is listed first.
pub fn first_guild_id(control_state: &ControlState) -> (id: Option<String>)
    ensures
        id.deep_view() == first_guild(control_state@),
{
    let guilds = list_guilds(control_state);
    if guilds.len() == 0 {
        None
    } else {
        proof {
            assert(guilds.deep_view()[0].guild_id == guilds@[0].guild_id@);
        }
        Some(guilds[0].guild_id.clone())
    }
}

/// The id of the channel that is listed first.
pub fn first_channel_id(guild: &GuildState) -> (id: Option<String>)
    ensures
        id.deep_view() == first_channel(guild@),
{
    let channels = list_channels(guild);
    if channels.len() == 0 {
        None
    } else {
        proof {
            assert(channels.deep_view()[0].channel_id == channels@[0].channel_id@);
        }
        Some(channels[0].channel_id.clone())
    }
}

/// The guild that is selected: the one that was, where it exists, otherwise the
/// first.
pub open spec fn normal_guild(
    control: ControlStateModel,
    guild_id: Option<Seq<char>>,
) -> Option<Seq<char>> {
    match guild_id {
        Some(id) if control.guilds.contains_key(id) => Some(id),
        _ => if control.guilds.dom().len() == 0 {
            None
        } else {
            first_guild(control)
        },
    }
}

/// The channel that is selected: the one that was, where the guild stayed
/// selected and has it, otherwise the guild's first.
pub open spec fn normal_channel(
    control: ControlStateModel,
    guild_id: Option<Seq<char>>,
    channel_id: Option<Seq<char>>,
) -> Option<Seq<char>> {
    match normal_guild(control, guild_id) {
        Some(id) if control.guilds.contains_key(id) => {
            let guild = control.guilds[id];
            match channel_id {
                Some(channel) if guild_id == Some(id) && guild.channels.contains_key(
                    channel,
                ) => Some(channel),
                _ => if guild.channels.dom().len() == 0 {
                    None
                } else {
                    first_channel(guild)
                },
            }
        },
        _ => None,
    }
}

/// Lets the selection point at something that exists.
pub fn normalize_selection(
    control_state: &ControlState,
    selected_guild_id: &mut Option<String>,
    selected_channel_id: &mut Option<String>,
)
    ensures
        final(selected_guild_id).deep_view() == normal_guild(
            control_state@,
            old(selected_guild_id).deep_view(),
        ),
        final(selected_channel_id).deep_view() == normal_channel(
            control_state@,
            old(selected_guild_id).deep_view(),
            old(selected_channel_id).deep_view(),
        ),
{
    if control_state.guilds.len() == 0 {
        *selected_guild_id = None;
        *selected_channel_id = None;
        return ;
    }
    let known = match &*selected_guild_id {
        Some(id) => control_state.guilds.contains_key(id),
        None => false,
    };
    if !known {
        *selected_guild_id = first_guild_id(control_state);
        *selected_channel_id = None;
    }
    let next = match &*selected_guild_id {
        None => None,
        Some(id) => match control_state.guilds.get(id) {
            None => None,
            Some(guild) => {
                let here = match &*selected_channel_id {
                    Some(channel) => guild.channels.contains_key(channel),
                    None => false,
                };
                if guild.channels.len() == 0 {
                    None
                } else if here {
                    selected_channel_id.replicate()
                } else {
                    first_channel_id(guild)
                }
            },
        },
    };
    *selected_channel_id = next;
}

/// Where guilds are sound the selection points at something that exists: a guild
/// where there is any, and a channel of it where it has any.
pub proof fn selection_exists(
    control: ControlStateModel,
    guild_id: Option<Seq<char>>,
    channel_id: Option<Seq<char>>,
)
    requires
        crate::guild_laws::state_sound(control),
        control.guilds.dom().finite(),
        forall|id: Seq<char>| #[trigger]
            control.guilds.contains_key(id) ==> control.guilds[id].channels.dom().finite(),
    ensures
        match normal_guild(control, guild_id) {
            None => control.guilds.dom().len() == 0,
            Some(id) => {
                &&& control.guilds.contains_key(id)
                &&& match normal_channel(control, guild_id, channel_id) {
                    None => control.guilds[id].channels.dom().len() == 0,
                    Some(channel) => control.guilds[id].channels.contains_key(channel),
                }
            },
        },
{
    if control.guilds.dom().len() > 0 {
        lemma_first_guild_exists(control);
    }
    if let Some(id) = normal_guild(control, guild_id) {
        assert(control.guilds.contains_key(id));
        let guild = control.guilds[id];
        assert(crate::guild_laws::guild_sound(id, guild));
        if guild.channels.dom().len() > 0 {
            lemma_first_channel_exists(id, guild);
        }
    }
}

proof fn lemma_sorted_first<T: Ranked>(items: Seq<T::V>)
    requires
        items.len() > 0,
    ensures
        sorted::<T>(items).len() > 0,
        items.contains(sorted::<T>(items)[0]),
{
    broadcast use vstd::seq_lib::group_to_multiset_ensures;

    crate::sorting::sorted_is_ordered::<T>(items);
    let first = sorted::<T>(items)[0];
    assert(sorted::<T>(items).contains(first));
    assert(sorted::<T>(items).to_multiset().contains(first));
    assert(items.to_multiset().contains(first));
}

proof fn lemma_listing_not_empty(set: Set<Seq<char>>)
    requires
        set.finite(),
        set.len() > 0,
    ensures
        listing_of::<String>(set).len() > 0,
        lists::<String>(listing_of::<String>(set), set),
{
    let ids = listing_of::<String>(set);
    lemma_listing_exists::<String>(set);
    let member = set.choose();
    assert(set.contains(member));
    assert(ids.contains(member));
}

proof fn lemma_first_guild_exists(control: ControlStateModel)
    requires
        crate::guild_laws::state_sound(control),
        control.guilds.dom().finite(),
        control.guilds.dom().len() > 0,
    ensures
        first_guild(control) is Some,
        control.guilds.contains_key(first_guild(control)->0),
{
    let ids = listing_of::<String>(control.guilds.dom());
    let f = |id: Seq<char>| guild_summary(control.guilds[id]);
    lemma_listing_not_empty(control.guilds.dom());
    lemma_sorted_first::<GuildSummary>(ids.map_values(f));
    let first = guild_list(control)[0];
    let i = choose|i: int| 0 <= i < ids.len() && ids.map_values(f)[i] == first;
    assert(ids.contains(ids[i]));
    assert(control.guilds.dom().contains(ids[i]));
    assert(crate::guild_laws::guild_sound(ids[i], control.guilds[ids[i]]));
}

proof fn lemma_first_channel_exists(guild_id: Seq<char>, guild: GuildStateModel)
    requires
        crate::guild_laws::guild_sound(guild_id, guild),
        guild.channels.dom().finite(),
        guild.channels.dom().len() > 0,
    ensures
        first_channel(guild) is Some,
        guild.channels.contains_key(first_channel(guild)->0),
{
    let ids = listing_of::<String>(guild.channels.dom());
    let f = |id: Seq<char>| channel_summary(guild.channels[id]);
    lemma_listing_not_empty(guild.channels.dom());
    lemma_sorted_first::<ChannelSummary>(ids.map_values(f));
    let first = channel_list(guild)[0];
    let i = choose|i: int| 0 <= i < ids.len() && ids.map_values(f)[i] == first;
    assert(ids.contains(ids[i]));
    assert(guild.channels.dom().contains(ids[i]));
}

} // verus!
