//! Messages and reactions in the channels of a guild.
//!
//! A message travels sealed under the key of its channel's epoch. Each replica
//! unseals it with the keys it has and adds it to the channel's timeline.
use vstd::prelude::*;
use vstd::utf8::{decode_utf8, encode_utf8, valid_utf8};
use crate::collections::{outcome, ChannelKey, OrdMap, OrdSet, Replicate};
use crate::crypto::{
    base64_decoded, base64_encoded, can_open, can_seal, decode_base64, digest, encode_base64,
    is_openable, is_sealable, lemma_utf8_round_trip, seal, sealed, sha256, text_from_utf8, unseal,
    unsealed,
};
use crate::text::{decimal_text, same_text};

verus! {

pub const CHAT_SCHEMA_V1: &'static str = "rapture.chat.v1";

/// An operation on a channel, with its origin.
#[derive(Debug, PartialEq, Eq)]
pub struct ChatEnvelope {
    pub schema: String,
    pub guild_id: String,
    pub channel_id: String,
    pub actor: String,
    pub op_id: String,
    pub ts_ms: i64,
    pub body: ChatBody,
}

/// What a [`ChatEnvelope`] holds.
#[verifier::ext_equal]
pub struct ChatEnvelopeModel {
    pub schema: Seq<char>,
    pub guild_id: Seq<char>,
    pub channel_id: Seq<char>,
    pub actor: Seq<char>,
    pub op_id: Seq<char>,
    pub ts_ms: i64,
    pub body: ChatBodyModel,
}

impl DeepView for ChatEnvelope {
    type V = ChatEnvelopeModel;

    open spec fn deep_view(&self) -> ChatEnvelopeModel {
        ChatEnvelopeModel {
            schema: self.schema.deep_view(),
            guild_id: self.guild_id.deep_view(),
            channel_id: self.channel_id.deep_view(),
            actor: self.actor.deep_view(),
            op_id: self.op_id.deep_view(),
            ts_ms: self.ts_ms.deep_view(),
            body: self.body.deep_view(),
        }
    }
}

impl View for ChatEnvelope {
    type V = ChatEnvelopeModel;

    open spec fn view(&self) -> ChatEnvelopeModel {
        self.deep_view()
    }
}

impl Replicate for ChatEnvelope {
    fn replicate(&self) -> (copy: Self) {
        ChatEnvelope {
            schema: self.schema.replicate(),
            guild_id: self.guild_id.replicate(),
            channel_id: self.channel_id.replicate(),
            actor: self.actor.replicate(),
            op_id: self.op_id.replicate(),
            ts_ms: self.ts_ms.replicate(),
            body: self.body.replicate(),
        }
    }
}

impl Clone for ChatEnvelope {
    fn clone(&self) -> (copy: Self)
        ensures
            copy@ == self@,
    {
        self.replicate()
    }
}

/// What a chat operation does.
#[derive(Debug, PartialEq, Eq)]
pub enum ChatBody {
    MessageSend { message_id: String, epoch: u64, nonce_b64: String, ciphertext_b64: String },
    MessageEdit { message_id: String, epoch: u64, nonce_b64: String, ciphertext_b64: String },
    MessageDelete { message_id: String },
    ReactionPut { message_id: String, emoji: String },
    ReactionRemove { message_id: String, emoji: String },
}

/// What a [`ChatBody`] holds.
#[verifier::ext_equal]
pub enum ChatBodyModel {
    MessageSend {
        message_id: Seq<char>,
        epoch: u64,
        nonce_b64: Seq<char>,
        ciphertext_b64: Seq<char>,
    },
    MessageEdit {
        message_id: Seq<char>,
        epoch: u64,
        nonce_b64: Seq<char>,
        ciphertext_b64: Seq<char>,
    },
    MessageDelete { message_id: Seq<char> },
    ReactionPut { message_id: Seq<char>, emoji: Seq<char> },
    ReactionRemove { message_id: Seq<char>, emoji: Seq<char> },
}

impl DeepView for ChatBody {
    type V = ChatBodyModel;

    open spec fn deep_view(&self) -> ChatBodyModel {
        match self {
            ChatBody::MessageSend {
                message_id,
                epoch,
                nonce_b64,
                ciphertext_b64,
            } => ChatBodyModel::MessageSend {
                message_id: message_id.deep_view(),
                epoch: epoch.deep_view(),
                nonce_b64: nonce_b64.deep_view(),
                ciphertext_b64: ciphertext_b64.deep_view(),
            },
            ChatBody::MessageEdit {
                message_id,
                epoch,
                nonce_b64,
                ciphertext_b64,
            } => ChatBodyModel::MessageEdit {
                message_id: message_id.deep_view(),
                epoch: epoch.deep_view(),
                nonce_b64: nonce_b64.deep_view(),
                ciphertext_b64: ciphertext_b64.deep_view(),
            },
            ChatBody::MessageDelete { message_id } => ChatBodyModel::MessageDelete {
                message_id: message_id.deep_view(),
            },
            ChatBody::ReactionPut { message_id, emoji } => ChatBodyModel::ReactionPut {
                message_id: message_id.deep_view(),
                emoji: emoji.deep_view(),
            },
            ChatBody::ReactionRemove { message_id, emoji } => ChatBodyModel::ReactionRemove {
                message_id: message_id.deep_view(),
                emoji: emoji.deep_view(),
            },
        }
    }
}

impl View for ChatBody {
    type V = ChatBodyModel;

    open spec fn view(&self) -> ChatBodyModel {
        self.deep_view()
    }
}

impl Replicate for ChatBody {
    fn replicate(&self) -> (copy: Self) {
        match self {
            ChatBody::MessageSend {
                message_id,
                epoch,
                nonce_b64,
                ciphertext_b64,
            } => ChatBody::MessageSend {
                message_id: message_id.replicate(),
                epoch: epoch.replicate(),
                nonce_b64: nonce_b64.replicate(),
                ciphertext_b64: ciphertext_b64.replicate(),
            },
            ChatBody::MessageEdit {
                message_id,
                epoch,
                nonce_b64,
                ciphertext_b64,
            } => ChatBody::MessageEdit {
                message_id: message_id.replicate(),
                epoch: epoch.replicate(),
                nonce_b64: nonce_b64.replicate(),
                ciphertext_b64: ciphertext_b64.replicate(),
            },
            ChatBody::MessageDelete { message_id } => ChatBody::MessageDelete {
                message_id: message_id.replicate(),
            },
            ChatBody::ReactionPut { message_id, emoji } => ChatBody::ReactionPut {
                message_id: message_id.replicate(),
                emoji: emoji.replicate(),
            },
            ChatBody::ReactionRemove { message_id, emoji } => ChatBody::ReactionRemove {
                message_id: message_id.replicate(),
                emoji: emoji.replicate(),
            },
        }
    }
}

impl Clone for ChatBody {
    fn clone(&self) -> (copy: Self)
        ensures
            copy@ == self@,
    {
        self.replicate()
    }
}

/// The timelines of all channels, and the ids of the operations that made them.
#[derive(Debug, PartialEq, Eq)]
pub struct ChatState {
    pub channels: OrdMap<ChannelKey, ChannelTimeline>,
    pub seen_op_ids: OrdSet<String>,
}

/// What a [`ChatState`] holds.
#[verifier::ext_equal]
pub struct ChatStateModel {
    pub channels: Map<(Seq<char>, Seq<char>), ChannelTimelineModel>,
    pub seen_op_ids: Set<Seq<char>>,
}

impl DeepView for ChatState {
    type V = ChatStateModel;

    open spec fn deep_view(&self) -> ChatStateModel {
        ChatStateModel {
            channels: self.channels.deep_view(),
            seen_op_ids: self.seen_op_ids.deep_view(),
        }
    }
}

impl View for ChatState {
    type V = ChatStateModel;

    open spec fn view(&self) -> ChatStateModel {
        self.deep_view()
    }
}

impl Replicate for ChatState {
    fn replicate(&self) -> (copy: Self) {
        ChatState {
            channels: self.channels.replicate(),
            seen_op_ids: self.seen_op_ids.replicate(),
        }
    }
}

impl Clone for ChatState {
    fn clone(&self) -> (copy: Self)
        ensures
            copy@ == self@,
    {
        self.replicate()
    }
}

/// The messages of one channel, in the order in which they were applied.
#[derive(Debug, PartialEq, Eq)]
pub struct ChannelTimeline {
    pub messages: Vec<TimelineMessage>,
}

/// What a [`ChannelTimeline`] holds.
#[verifier::ext_equal]
pub struct ChannelTimelineModel {
    pub messages: Seq<TimelineMessageModel>,
}

impl DeepView for ChannelTimeline {
    type V = ChannelTimelineModel;

    open spec fn deep_view(&self) -> ChannelTimelineModel {
        ChannelTimelineModel {
            messages: self.messages.deep_view(),
        }
    }
}

impl View for ChannelTimeline {
    type V = ChannelTimelineModel;

    open spec fn view(&self) -> ChannelTimelineModel {
        self.deep_view()
    }
}

impl Replicate for ChannelTimeline {
    fn replicate(&self) -> (copy: Self) {
        ChannelTimeline {
            messages: self.messages.replicate(),
        }
    }
}

impl Clone for ChannelTimeline {
    fn clone(&self) -> (copy: Self)
        ensures
            copy@ == self@,
    {
        self.replicate()
    }
}

/// A message as it is shown.
#[derive(Debug, PartialEq, Eq)]
pub struct TimelineMessage {
    pub message_id: String,
    pub author: String,
    pub content: String,
    pub edited: bool,
    pub deleted: bool,
    /// Who reacted, by emoji.
    pub reactions: OrdMap<String, OrdSet<String>>,
    pub ts_ms: i64,
}

/// What a [`TimelineMessage`] holds.
#[verifier::ext_equal]
pub struct TimelineMessageModel {
    pub message_id: Seq<char>,
    pub author: Seq<char>,
    pub content: Seq<char>,
    pub edited: bool,
    pub deleted: bool,
    pub reactions: Map<Seq<char>, Set<Seq<char>>>,
    pub ts_ms: i64,
}

impl DeepView for TimelineMessage {
    type V = TimelineMessageModel;

    open spec fn deep_view(&self) -> TimelineMessageModel {
        TimelineMessageModel {
            message_id: self.message_id.deep_view(),
            author: self.author.deep_view(),
            content: self.content.deep_view(),
            edited: self.edited.deep_view(),
            deleted: self.deleted.deep_view(),
            reactions: self.reactions.deep_view(),
            ts_ms: self.ts_ms.deep_view(),
        }
    }
}

impl View for TimelineMessage {
    type V = TimelineMessageModel;

    open spec fn view(&self) -> TimelineMessageModel {
        self.deep_view()
    }
}

impl Replicate for TimelineMessage {
    fn replicate(&self) -> (copy: Self) {
        TimelineMessage {
            message_id: self.message_id.replicate(),
            author: self.author.replicate(),
            content: self.content.replicate(),
            edited: self.edited.replicate(),
            deleted: self.deleted.replicate(),
            reactions: self.reactions.replicate(),
            ts_ms: self.ts_ms.replicate(),
        }
    }
}

impl Clone for TimelineMessage {
    fn clone(&self) -> (copy: Self)
        ensures
            copy@ == self@,
    {
        self.replicate()
    }
}

/// Why a chat operation was refused.
#[derive(Debug, PartialEq, Eq)]
pub enum ChatError {
    UnknownSchema(String),
    MissingEpochKey { guild_id: String, channel_id: String, epoch: u64 },
    InvalidNonce,
    InvalidCiphertext,
    DecryptFailed,
    MessageNotFound(String),
}

/// What a [`ChatError`] holds.
#[verifier::ext_equal]
pub enum ChatErrorModel {
    UnknownSchema(Seq<char>),
    MissingEpochKey { guild_id: Seq<char>, channel_id: Seq<char>, epoch: u64 },
    InvalidNonce,
    InvalidCiphertext,
    DecryptFailed,
    MessageNotFound(Seq<char>),
}

impl DeepView for ChatError {
    type V = ChatErrorModel;

    open spec fn deep_view(&self) -> ChatErrorModel {
        match self {
            ChatError::UnknownSchema(a) => ChatErrorModel::UnknownSchema(a.deep_view()),
            ChatError::MissingEpochKey {
                guild_id,
                channel_id,
                epoch,
            } => ChatErrorModel::MissingEpochKey {
                guild_id: guild_id.deep_view(),
                channel_id: channel_id.deep_view(),
                epoch: epoch.deep_view(),
            },
            ChatError::InvalidNonce => ChatErrorModel::InvalidNonce,
            ChatError::InvalidCiphertext => ChatErrorModel::InvalidCiphertext,
            ChatError::DecryptFailed => ChatErrorModel::DecryptFailed,
            ChatError::MessageNotFound(a) => ChatErrorModel::MessageNotFound(a.deep_view()),
        }
    }
}

impl View for ChatError {
    type V = ChatErrorModel;

    open spec fn view(&self) -> ChatErrorModel {
        self.deep_view()
    }
}

impl Replicate for ChatError {
    fn replicate(&self) -> (copy: Self) {
        match self {
            ChatError::UnknownSchema(a) => ChatError::UnknownSchema(a.replicate()),
            ChatError::MissingEpochKey {
                guild_id,
                channel_id,
                epoch,
            } => ChatError::MissingEpochKey {
                guild_id: guild_id.replicate(),
                channel_id: channel_id.replicate(),
                epoch: epoch.replicate(),
            },
            ChatError::InvalidNonce => ChatError::InvalidNonce,
            ChatError::InvalidCiphertext => ChatError::InvalidCiphertext,
            ChatError::DecryptFailed => ChatError::DecryptFailed,
            ChatError::MessageNotFound(a) => ChatError::MessageNotFound(a.replicate()),
        }
    }
}

impl Clone for ChatError {
    fn clone(&self) -> (copy: Self)
        ensures
            copy@ == self@,
    {
        self.replicate()
    }
}

/// What became of a chat operation.
#[derive(Clone, Copy, Debug, PartialEq, Eq, Structural)]
pub enum ChatApplyOutcome {
    Applied,
    Duplicate,
}

impl DeepView for ChatApplyOutcome {
    type V = ChatApplyOutcome;

    open spec fn deep_view(&self) -> ChatApplyOutcome {
        *self
    }
}

impl Replicate for ChatApplyOutcome {
    fn replicate(&self) -> (copy: Self) {
        *self
    }
}

/// Where the keys of past and present epochs are found.
pub trait EpochKeyLookup {
    /// The key of a channel's epoch, where it is known.
    open spec fn key_of(&self, guild_id: Seq<char>, channel_id: Seq<char>, epoch: u64) -> Option<
        Seq<u8>,
    > {
        arbitrary()
    }

    /// Whether the key of a channel's epoch may be asked for.
    open spec fn may_be_asked(&self, guild_id: Seq<char>, channel_id: Seq<char>, epoch: u64) -> bool {
        true
    }

    /// Looks the key of a channel's epoch up.
    fn epoch_key(&self, guild_id: &str, channel_id: &str, epoch: u64) -> (key: Option<[u8; 32]>)
        requires
            self.may_be_asked(guild_id@, channel_id@, epoch),
        ensures
            optional_key(key) == self.key_of(guild_id@, channel_id@, epoch),
    ;
}

/// An optional key as an optional sequence of bytes.
pub open spec fn optional_key(key: Option<[u8; 32]>) -> Option<Seq<u8>> {
    match key {
        Some(k) => Some(k@),
        None => None,
    }
}

/// The nonce that an operation is sealed with: the start of the digest of its id.
pub open spec fn nonce_of(op_id: Seq<char>) -> Seq<u8> {
    sha256(encode_utf8(op_id)).take(12)
}

/// The text of a sealed message, or why it cannot be read.
pub open spec fn message_text(
    key: Option<Seq<u8>>,
    guild_id: Seq<char>,
    channel_id: Seq<char>,
    epoch: u64,
    nonce_b64: Seq<char>,
    ciphertext_b64: Seq<char>,
) -> Result<Seq<char>, ChatErrorModel> {
    match (key, base64_decoded(nonce_b64), base64_decoded(ciphertext_b64)) {
        (None, _, _) => Err(ChatErrorModel::MissingEpochKey { guild_id, channel_id, epoch }),
        (Some(_), None, _) => Err(ChatErrorModel::InvalidNonce),
        (Some(_), Some(nonce), None) => if nonce.len() != 12 {
            Err(ChatErrorModel::InvalidNonce)
        } else {
            Err(ChatErrorModel::InvalidCiphertext)
        },
        (Some(k), Some(nonce), Some(cipher)) => if nonce.len() != 12 {
            Err(ChatErrorModel::InvalidNonce)
        } else if !can_open(cipher.len()) {
            Err(ChatErrorModel::DecryptFailed)
        } else {
            match unsealed(k, nonce, cipher) {
                Some(plain) if valid_utf8(plain) => Ok(decode_utf8(plain)),
                _ => Err(ChatErrorModel::DecryptFailed),
            }
        },
    }
}

/// Whether the message at `i` is the first with this id.
pub open spec fn first_at(messages: Seq<TimelineMessageModel>, id: Seq<char>, i: int) -> bool {
    &&& 0 <= i < messages.len()
    &&& messages[i].message_id == id
    &&& forall|j: int| 0 <= j < i ==> #[trigger] messages[j].message_id != id
}

/// Whether some message has this id.
pub open spec fn has_message(messages: Seq<TimelineMessageModel>, id: Seq<char>) -> bool {
    exists|i: int| first_at(messages, id, i)
}

/// The messages with the first one of this id replaced.
pub open spec fn with_message(
    messages: Seq<TimelineMessageModel>,
    id: Seq<char>,
    change: spec_fn(TimelineMessageModel) -> TimelineMessageModel,
) -> Result<Seq<TimelineMessageModel>, ChatErrorModel> {
    if has_message(messages, id) {
        let i = choose|i: int| first_at(messages, id, i);
        Ok(messages.update(i, change(messages[i])))
    } else {
        Err(ChatErrorModel::MessageNotFound(id))
    }
}

/// Those who reacted with an emoji.
pub open spec fn reactors(message: TimelineMessageModel, emoji: Seq<char>) -> Set<Seq<char>> {
    if message.reactions.contains_key(emoji) {
        message.reactions[emoji]
    } else {
        Set::empty()
    }
}

/// An edited message.
pub open spec fn edited(message: TimelineMessageModel, text: Seq<char>) -> TimelineMessageModel {
    TimelineMessageModel { content: text, edited: true, ..message }
}

/// A deleted message: its text and its reactions are gone.
pub open spec fn deleted(message: TimelineMessageModel) -> TimelineMessageModel {
    TimelineMessageModel {
        content: "[deleted]"@,
        deleted: true,
        reactions: Map::empty(),
        ..message
    }
}

/// A message to which `actor` has reacted.
pub open spec fn reacted(
    message: TimelineMessageModel,
    emoji: Seq<char>,
    actor: Seq<char>,
) -> TimelineMessageModel {
    TimelineMessageModel {
        reactions: message.reactions.insert(emoji, reactors(message, emoji).insert(actor)),
        ..message
    }
}

/// A message without `actor`'s reaction; an emoji that nobody uses any more goes.
pub open spec fn unreacted(
    message: TimelineMessageModel,
    emoji: Seq<char>,
    actor: Seq<char>,
) -> TimelineMessageModel {
    let rest = reactors(message, emoji).remove(actor);
    TimelineMessageModel {
        reactions: if rest == Set::<Seq<char>>::empty() {
            message.reactions.remove(emoji)
        } else {
            message.reactions.insert(emoji, rest)
        },
        ..message
    }
}

/// The epoch whose key an operation needs.
pub open spec fn epoch_of(body: ChatBodyModel) -> u64 {
    match body {
        ChatBodyModel::MessageSend { epoch, .. } => epoch,
        ChatBodyModel::MessageEdit { epoch, .. } => epoch,
        _ => 0,
    }
}

/// The messages of a channel.
pub open spec fn timeline_of(state: ChatStateModel, channel: (Seq<char>, Seq<char>)) -> Seq<
    TimelineMessageModel,
> {
    if state.channels.contains_key(channel) {
        state.channels[channel].messages
    } else {
        Seq::empty()
    }
}

/// The text that an operation carries, read with the key of its epoch; none where
/// it carries none.
pub open spec fn text_in(op: ChatEnvelopeModel, key: Option<Seq<u8>>) -> Result<
    Seq<char>,
    ChatErrorModel,
> {
    match op.body {
        ChatBodyModel::MessageSend { epoch, nonce_b64, ciphertext_b64, .. } => message_text(
            key,
            op.guild_id,
            op.channel_id,
            epoch,
            nonce_b64,
            ciphertext_b64,
        ),
        ChatBodyModel::MessageEdit { epoch, nonce_b64, ciphertext_b64, .. } => message_text(
            key,
            op.guild_id,
            op.channel_id,
            epoch,
            nonce_b64,
            ciphertext_b64,
        ),
        _ => Ok(Seq::empty()),
    }
}

/// What an operation makes of the messages of its channel, where `text` is what
/// was read of the text that it carries.
pub open spec fn timeline_with(
    messages: Seq<TimelineMessageModel>,
    op: ChatEnvelopeModel,
    text: Result<Seq<char>, ChatErrorModel>,
) -> Result<Seq<TimelineMessageModel>, ChatErrorModel> {
    match op.body {
        ChatBodyModel::MessageSend { message_id, .. } => match text {
            Err(error) => Err(error),
            Ok(text) => Ok(
                messages.push(
                    TimelineMessageModel {
                        message_id,
                        author: op.actor,
                        content: text,
                        edited: false,
                        deleted: false,
                        reactions: Map::empty(),
                        ts_ms: op.ts_ms,
                    },
                ),
            ),
        },
        ChatBodyModel::MessageEdit { message_id, .. } => match text {
            Err(error) => Err(error),
            Ok(text) => with_message(
                messages,
                message_id,
                |m: TimelineMessageModel| edited(m, text),
            ),
        },
        ChatBodyModel::MessageDelete { message_id } => with_message(
            messages,
            message_id,
            |m: TimelineMessageModel| deleted(m),
        ),
        ChatBodyModel::ReactionPut { message_id, emoji } => with_message(
            messages,
            message_id,
            |m: TimelineMessageModel| reacted(m, emoji, op.actor),
        ),
        ChatBodyModel::ReactionRemove { message_id, emoji } => with_message(
            messages,
            message_id,
            |m: TimelineMessageModel| unreacted(m, emoji, op.actor),
        ),
    }
}

/// What an operation makes of the messages of its channel, where `key` is the
/// key of its epoch.
pub open spec fn timeline_after(
    messages: Seq<TimelineMessageModel>,
    op: ChatEnvelopeModel,
    key: Option<Seq<u8>>,
) -> Result<Seq<TimelineMessageModel>, ChatErrorModel> {
    timeline_with(messages, op, text_in(op, key))
}

/// What applying a chat operation returns, where `text` is what was read of the
/// text that it carries.
pub open spec fn chat_result_with(
    state: ChatStateModel,
    op: ChatEnvelopeModel,
    text: Result<Seq<char>, ChatErrorModel>,
) -> Result<ChatApplyOutcome, ChatErrorModel> {
    if op.schema != CHAT_SCHEMA_V1@ {
        Err(ChatErrorModel::UnknownSchema(op.schema))
    } else if state.seen_op_ids.contains(op.op_id) {
        Ok(ChatApplyOutcome::Duplicate)
    } else {
        match timeline_with(timeline_of(state, (op.guild_id, op.channel_id)), op, text) {
            Ok(_) => Ok(ChatApplyOutcome::Applied),
            Err(error) => Err(error),
        }
    }
}

/// What applying a chat operation returns, where `key` is the key of its epoch.
pub open spec fn chat_result(
    state: ChatStateModel,
    op: ChatEnvelopeModel,
    key: Option<Seq<u8>>,
) -> Result<ChatApplyOutcome, ChatErrorModel> {
    chat_result_with(state, op, text_in(op, key))
}

/// Whether a chat operation is read with a key: it carries a text, its schema is known,
/// and it was not applied before.
pub open spec fn needs_key(state: ChatStateModel, op: ChatEnvelopeModel) -> bool {
    &&& op.body is MessageSend || op.body is MessageEdit
    &&& op.schema == CHAT_SCHEMA_V1@
    &&& !state.seen_op_ids.contains(op.op_id)
}

/// The state after a chat operation was offered to it, where `text` is what was
/// read of the text that it carries. An operation of a known schema that was not
/// seen before gives its channel a timeline, empty at first; only one that is
/// applied changes the messages in it and is recorded.
pub open spec fn chat_state_with(
    state: ChatStateModel,
    op: ChatEnvelopeModel,
    text: Result<Seq<char>, ChatErrorModel>,
) -> ChatStateModel {
    let channel = (op.guild_id, op.channel_id);
    let before = timeline_of(state, channel);
    if op.schema != CHAT_SCHEMA_V1@ || state.seen_op_ids.contains(op.op_id) {
        state
    } else {
        match timeline_with(before, op, text) {
            Ok(messages) => ChatStateModel {
                channels: state.channels.insert(channel, ChannelTimelineModel { messages }),
                seen_op_ids: state.seen_op_ids.insert(op.op_id),
            },
            Err(_) => ChatStateModel {
                channels: state.channels.insert(channel, ChannelTimelineModel { messages: before }),
                seen_op_ids: state.seen_op_ids,
            },
        }
    }
}

/// The state after a chat operation was offered to it, where `key` is the key of
/// its epoch.
pub open spec fn chat_state(
    state: ChatStateModel,
    op: ChatEnvelopeModel,
    key: Option<Seq<u8>>,
) -> ChatStateModel {
    chat_state_with(state, op, text_in(op, key))
}

/// A text that was read, or why it could not be, as a model.
pub open spec fn read_text(text: Result<String, ChatError>) -> Result<Seq<char>, ChatErrorModel> {
    match text {
        Ok(t) => Ok(t@),
        Err(error) => Err(error@),
    }
}

/// The chat state before any operation.
pub open spec fn no_chat() -> ChatStateModel {
    ChatStateModel { channels: Map::empty(), seen_op_ids: Set::empty() }
}

impl ChatError {
    /// The refusal in words.
    pub open spec fn words(error: ChatErrorModel) -> Seq<char> {
        match error {
            ChatErrorModel::UnknownSchema(schema) => "unsupported schema: "@ + schema,
            ChatErrorModel::MissingEpochKey { guild_id, channel_id, epoch } => "missing key for "@
                + guild_id + "/"@ + channel_id + " epoch "@ + decimal_text(epoch as nat),
            ChatErrorModel::InvalidNonce => "invalid nonce"@,
            ChatErrorModel::InvalidCiphertext => "invalid ciphertext"@,
            ChatErrorModel::DecryptFailed => "decryption failed"@,
            ChatErrorModel::MessageNotFound(id) => "message not found: "@ + id,
        }
    }

    /// The refusal in words.
    pub fn message(&self) -> (text: String)
        ensures
            text@ == ChatError::words(self@),
    {
        match self {
            ChatError::UnknownSchema(schema) => "unsupported schema: ".to_owned().concat(
                schema.as_str(),
            ),
            ChatError::MissingEpochKey { guild_id, channel_id, epoch } => "missing key for ".to_owned().concat(
                guild_id.as_str(),
            ).concat("/").concat(channel_id.as_str()).concat(" epoch ").concat(
                crate::text::decimal(*epoch).as_str(),
            ),
            ChatError::InvalidNonce => "invalid nonce".to_owned(),
            ChatError::InvalidCiphertext => "invalid ciphertext".to_owned(),
            ChatError::DecryptFailed => "decryption failed".to_owned(),
            ChatError::MessageNotFound(id) => "message not found: ".to_owned().concat(id.as_str()),
        }
    }
}

/// The start of the digest of an operation's id.
fn nonce_from_op_id(op_id: &str) -> (nonce: Vec<u8>)
    ensures
        nonce@ == nonce_of(op_id@),
        nonce@.len() == 12,
{
    let mut nonce = digest(op_id.as_bytes());
    nonce.truncate(12);
    proof {
        assert(nonce@ =~= nonce_of(op_id@));
    }
    nonce
}

/// Whether a text can be sealed under ChaCha20-Poly1305.
pub open spec fn sealable(text: Seq<char>) -> bool {
    can_seal(encode_utf8(text).len())
}

/// A text sealed for an operation: its nonce and its ciphertext, in base64.
fn seal_text(op_id: &str, plaintext: &str, key: &[u8; 32]) -> (sealing: Option<(String, String)>)
    ensures
        sealing is Some <==> sealable(plaintext@),
        sealing matches Some((nonce_b64, ciphertext_b64)) ==> {
            &&& nonce_b64@ == base64_encoded(nonce_of(op_id@))
            &&& sealed(key@, nonce_of(op_id@), encode_utf8(plaintext@)) is Some
            &&& ciphertext_b64@ == base64_encoded(
                sealed(key@, nonce_of(op_id@), encode_utf8(plaintext@))->0,
            )
            &&& forall|guild_id: Seq<char>, channel_id: Seq<char>, epoch: u64| #[trigger]
                message_text(
                    Some(key@),
                    guild_id,
                    channel_id,
                    epoch,
                    nonce_b64@,
                    ciphertext_b64@,
                ) == Ok::<Seq<char>, ChatErrorModel>(plaintext@)
        },
{
    let nonce = nonce_from_op_id(op_id);
    proof {
        lemma_utf8_round_trip(plaintext@);
    }
    let bytes = plaintext.as_bytes();
    if !is_sealable(bytes.len()) {
        return None;
    }
    match seal(key, &nonce, bytes) {
        None => None,
        Some(ciphertext) => Some((encode_base64(&nonce), encode_base64(&ciphertext))),
    }
}

/// Whether a message operation reads as `text` under `key`.
pub open spec fn opens_to(op: ChatEnvelopeModel, key: Seq<u8>, text: Seq<char>) -> bool {
    match op.body {
        ChatBodyModel::MessageSend { epoch, nonce_b64, ciphertext_b64, .. } => message_text(
            Some(key),
            op.guild_id,
            op.channel_id,
            epoch,
            nonce_b64,
            ciphertext_b64,
        ) == Ok::<Seq<char>, ChatErrorModel>(text),
        ChatBodyModel::MessageEdit { epoch, nonce_b64, ciphertext_b64, .. } => message_text(
            Some(key),
            op.guild_id,
            op.channel_id,
            epoch,
            nonce_b64,
            ciphertext_b64,
        ) == Ok::<Seq<char>, ChatErrorModel>(text),
        _ => false,
    }
}

impl ChatEnvelope {
    /// The operation that sends a message, sealed under `key`. Whoever has the key reads
    /// the same text.
    pub fn message_send(
        op_id: String,
        ts_ms: i64,
        guild_id: String,
        channel_id: String,
        actor: String,
        message_id: String,
        plaintext: &str,
        epoch: u64,
        key: [u8; 32],
    ) -> (result: Result<Self, ChatError>)
        ensures
            result is Ok <==> sealable(plaintext@),
            result matches Err(error) ==> error@ == ChatErrorModel::DecryptFailed,
            result matches Ok(envelope) ==> {
                &&& envelope@ == (ChatEnvelopeModel {
                    schema: CHAT_SCHEMA_V1@,
                    guild_id: guild_id@,
                    channel_id: channel_id@,
                    actor: actor@,
                    op_id: op_id@,
                    ts_ms,
                    body: ChatBodyModel::MessageSend {
                        message_id: message_id@,
                        epoch,
                        nonce_b64: base64_encoded(nonce_of(op_id@)),
                        ciphertext_b64: base64_encoded(
                            sealed(key@, nonce_of(op_id@), encode_utf8(plaintext@))->0,
                        ),
                    },
                })
                &&& sealed(key@, nonce_of(op_id@), encode_utf8(plaintext@)) is Some
                &&& opens_to(envelope@, key@, plaintext@)
            },
    {
        match seal_text(op_id.as_str(), plaintext, &key) {
            None => Err(ChatError::DecryptFailed),
            Some((nonce_b64, ciphertext_b64)) => Ok(
                ChatEnvelope {
                    schema: CHAT_SCHEMA_V1.to_owned(),
                    guild_id,
                    channel_id,
                    actor,
                    op_id,
                    ts_ms,
                    body: ChatBody::MessageSend { message_id, epoch, nonce_b64, ciphertext_b64 },
                },
            ),
        }
    }

    /// The operation that gives a message another text, sealed under `key`.
    pub fn message_edit(
        op_id: String,
        ts_ms: i64,
        guild_id: String,
        channel_id: String,
        actor: String,
        message_id: String,
        plaintext: &str,
        epoch: u64,
        key: [u8; 32],
    ) -> (result: Result<Self, ChatError>)
        ensures
            result is Ok <==> sealable(plaintext@),
            result matches Err(error) ==> error@ == ChatErrorModel::DecryptFailed,
            result matches Ok(envelope) ==> {
                &&& envelope@ == (ChatEnvelopeModel {
                    schema: CHAT_SCHEMA_V1@,
                    guild_id: guild_id@,
                    channel_id: channel_id@,
                    actor: actor@,
                    op_id: op_id@,
                    ts_ms,
                    body: ChatBodyModel::MessageEdit {
                        message_id: message_id@,
                        epoch,
                        nonce_b64: base64_encoded(nonce_of(op_id@)),
                        ciphertext_b64: base64_encoded(
                            sealed(key@, nonce_of(op_id@), encode_utf8(plaintext@))->0,
                        ),
                    },
                })
                &&& sealed(key@, nonce_of(op_id@), encode_utf8(plaintext@)) is Some
                &&& opens_to(envelope@, key@, plaintext@)
            },
    {
        match seal_text(op_id.as_str(), plaintext, &key) {
            None => Err(ChatError::DecryptFailed),
            Some((nonce_b64, ciphertext_b64)) => Ok(
                ChatEnvelope {
                    schema: CHAT_SCHEMA_V1.to_owned(),
                    guild_id,
                    channel_id,
                    actor,
                    op_id,
                    ts_ms,
                    body: ChatBody::MessageEdit { message_id, epoch, nonce_b64, ciphertext_b64 },
                },
            ),
        }
    }

    /// The operation that deletes a message.
    pub fn message_delete(
        op_id: String,
        ts_ms: i64,
        guild_id: String,
        channel_id: String,
        actor: String,
        message_id: String,
    ) -> (envelope: Self)
        ensures
            envelope@ == (ChatEnvelopeModel {
                schema: CHAT_SCHEMA_V1@,
                guild_id: guild_id@,
                channel_id: channel_id@,
                actor: actor@,
                op_id: op_id@,
                ts_ms,
                body: ChatBodyModel::MessageDelete { message_id: message_id@ },
            }),
    {
        ChatEnvelope {
            schema: CHAT_SCHEMA_V1.to_owned(),
            guild_id,
            channel_id,
            actor,
            op_id,
            ts_ms,
            body: ChatBody::MessageDelete { message_id },
        }
    }

    /// The operation that reacts to a message.
    pub fn reaction_put(
        op_id: String,
        ts_ms: i64,
        guild_id: String,
        channel_id: String,
        actor: String,
        message_id: String,
        emoji: String,
    ) -> (envelope: Self)
        ensures
            envelope@ == (ChatEnvelopeModel {
                schema: CHAT_SCHEMA_V1@,
                guild_id: guild_id@,
                channel_id: channel_id@,
                actor: actor@,
                op_id: op_id@,
                ts_ms,
                body: ChatBodyModel::ReactionPut { message_id: message_id@, emoji: emoji@ },
            }),
    {
        ChatEnvelope {
            schema: CHAT_SCHEMA_V1.to_owned(),
            guild_id,
            channel_id,
            actor,
            op_id,
            ts_ms,
            body: ChatBody::ReactionPut { message_id, emoji },
        }
    }

    /// The operation that takes a reaction back.
    pub fn reaction_remove(
        op_id: String,
        ts_ms: i64,
        guild_id: String,
        channel_id: String,
        actor: String,
        message_id: String,
        emoji: String,
    ) -> (envelope: Self)
        ensures
            envelope@ == (ChatEnvelopeModel {
                schema: CHAT_SCHEMA_V1@,
                guild_id: guild_id@,
                channel_id: channel_id@,
                actor: actor@,
                op_id: op_id@,
                ts_ms,
                body: ChatBodyModel::ReactionRemove { message_id: message_id@, emoji: emoji@ },
            }),
    {
        ChatEnvelope {
            schema: CHAT_SCHEMA_V1.to_owned(),
            guild_id,
            channel_id,
            actor,
            op_id,
            ts_ms,
            body: ChatBody::ReactionRemove { message_id, emoji },
        }
    }
}

impl Default for ChatState {
    fn default() -> (state: Self)
        ensures
            state@ == no_chat(),
    {
        ChatState { channels: OrdMap::new(), seen_op_ids: OrdSet::new() }
    }
}

/// The place of the first message with an id.
pub fn find_message_idx(messages: &[TimelineMessage], message_id: &str) -> (place: Option<usize>)
    ensures
        match place {
            Some(i) => first_at(messages.deep_view(), message_id@, i as int),
            None => !has_message(messages.deep_view(), message_id@),
        },
{
    let id = message_id.to_owned();
    let mut i: usize = 0;
    while i < messages.len()
        invariant
            i <= messages@.len(),
            id@ == message_id@,
            forall|j: int| 0 <= j < i ==> #[trigger] messages.deep_view()[j].message_id != id@,
        decreases messages@.len() - i,
    {
        if messages[i].message_id == id {
            return Some(i);
        }
        i += 1;
    }
    None
}

/// The text of a sealed message, or why it cannot be read.
pub fn decrypt_body(
    key: Option<[u8; 32]>,
    guild_id: &str,
    channel_id: &str,
    epoch: u64,
    nonce_b64: &str,
    ciphertext_b64: &str,
) -> (result: Result<String, ChatError>)
    ensures
        match message_text(
            optional_key(key),
            guild_id@,
            channel_id@,
            epoch,
            nonce_b64@,
            ciphertext_b64@,
        ) {
            Ok(text) => result is Ok && result->Ok_0@ == text,
            Err(error) => outcome(result) == Err::<String, ChatErrorModel>(error),
        },
{
    let key = match key {
        Some(key) => key,
        None => {
            return Err(
                ChatError::MissingEpochKey {
                    guild_id: guild_id.to_owned(),
                    channel_id: channel_id.to_owned(),
                    epoch,
                },
            );
        },
    };
    let nonce = match decode_base64(nonce_b64) {
        Some(nonce) => nonce,
        None => {
            return Err(ChatError::InvalidNonce);
        },
    };
    if nonce.len() != 12 {
        return Err(ChatError::InvalidNonce);
    }
    let cipher = match decode_base64(ciphertext_b64) {
        Some(cipher) => cipher,
        None => {
            return Err(ChatError::InvalidCiphertext);
        },
    };
    if !is_openable(cipher.len()) {
        return Err(ChatError::DecryptFailed);
    }
    let plain = match unseal(&key, &nonce, &cipher) {
        Some(plain) => plain,
        None => {
            return Err(ChatError::DecryptFailed);
        },
    };
    match text_from_utf8(plain) {
        Some(text) => Ok(text),
        None => Err(ChatError::DecryptFailed),
    }
}

impl ChatEnvelope {
    /// The text that this operation carries, read with the key of its epoch; none
    /// where it carries none.
    pub fn read(&self, key: Option<[u8; 32]>) -> (text: Result<String, ChatError>)
        ensures
            read_text(text) == text_in(self@, optional_key(key)),
    {
        match &self.body {
            ChatBody::MessageSend { epoch, nonce_b64, ciphertext_b64, .. } => decrypt_body(
                key,
                self.guild_id.as_str(),
                self.channel_id.as_str(),
                *epoch,
                nonce_b64.as_str(),
                ciphertext_b64.as_str(),
            ),
            ChatBody::MessageEdit { epoch, nonce_b64, ciphertext_b64, .. } => decrypt_body(
                key,
                self.guild_id.as_str(),
                self.channel_id.as_str(),
                *epoch,
                nonce_b64.as_str(),
                ciphertext_b64.as_str(),
            ),
            _ => {
                let none = String::new();
                proof {
                    assert(none@ =~= Seq::<char>::empty());
                }
                Ok(none)
            },
        }
    }
}

impl TimelineMessage {
    fn edit(&mut self, text: String)
        ensures
            final(self)@ == edited(old(self)@, text@),
    {
        self.content = text;
        self.edited = true;
    }

    fn delete(&mut self)
        ensures
            final(self)@ == deleted(old(self)@),
    {
        self.content = "[deleted]".to_owned();
        self.deleted = true;
        self.reactions = OrdMap::new();
    }

    fn react(&mut self, emoji: String, actor: String)
        ensures
            final(self)@ == reacted(old(self)@, emoji@, actor@),
    {
        let mut actors = match self.reactions.get(&emoji) {
            Some(actors) => actors.replicate(),
            None => OrdSet::new(),
        };
        actors.insert(actor);
        self.reactions.insert(emoji, actors);
    }

    fn unreact(&mut self, emoji: String, actor: String)
        ensures
            final(self)@ == unreacted(old(self)@, emoji@, actor@),
    {
        match self.reactions.take(&emoji) {
            None => {
                proof {
                    assert(Set::<Seq<char>>::empty().remove(actor@) =~= Set::empty());
                }
            },
            Some(actors) => {
                let mut actors = actors;
                actors.remove(&actor);
                if !actors.is_empty() {
                    self.reactions.insert(emoji, actors);
                }
            },
        }
        proof {
            let rest = reactors(old(self)@, emoji@).remove(actor@);
            assert(self@.reactions =~= unreacted(old(self)@, emoji@, actor@).reactions);
        }
    }
}

impl ChannelTimeline {
    /// The place of the first message with an id, or that there is none.
    fn find(&self, message_id: &String) -> (result: Result<usize, ChatError>)
        ensures
            match result {
                Ok(i) => first_at(self@.messages, message_id@, i as int) && has_message(
                    self@.messages,
                    message_id@,
                ),
                Err(error) => !has_message(self@.messages, message_id@) && error@
                    == ChatErrorModel::MessageNotFound(message_id@),
            },
    {
        let messages = self.messages.as_slice();
        proof {
            assert(messages.deep_view() =~= self@.messages);
        }
        match find_message_idx(messages, message_id.as_str()) {
            Some(i) => Ok(i),
            None => Err(ChatError::MessageNotFound(message_id.clone())),
        }
    }

    /// Puts a message in the place of another.
    fn put(&mut self, i: usize, message: TimelineMessage)
        requires
            i < old(self)@.messages.len(),
        ensures
            final(self)@.messages == old(self)@.messages.update(i as int, message@),
    {
        let ghost before = self@.messages;
        self.messages.set(i, message);
        proof {
            assert(self@.messages =~= before.update(i as int, message@));
        }
    }

    /// Carries out an operation, where `text` is what was read of the text that it
    /// carries; one that is refused changes nothing.
    fn change(&mut self, op: ChatEnvelope, text: Result<String, ChatError>) -> (result: Result<
        (),
        ChatError,
    >)
        ensures
            match timeline_with(old(self)@.messages, op@, read_text(text)) {
                Ok(messages) => result is Ok && final(self)@.messages == messages,
                Err(error) => outcome(result) == Err::<(), ChatErrorModel>(error) && final(self)@
                    == old(self)@,
            },
    {
        let ghost before = self@.messages;
        let ChatEnvelope { schema: _, guild_id: _, channel_id: _, actor, op_id: _, ts_ms, body } =
            op;
        match body {
            ChatBody::MessageSend { message_id, .. } => {
                let text = match text {
                    Ok(text) => text,
                    Err(error) => {
                        return Err(error);
                    },
                };
                let message = TimelineMessage {
                    message_id,
                    author: actor,
                    content: text,
                    edited: false,
                    deleted: false,
                    reactions: OrdMap::new(),
                    ts_ms,
                };
                let ghost added = message@;
                self.messages.push(message);
                proof {
                    assert(self@.messages =~= before.push(added));
                }
                Ok(())
            },
            ChatBody::MessageEdit { message_id, .. } => {
                let text = match text {
                    Ok(text) => text,
                    Err(error) => {
                        return Err(error);
                    },
                };
                let i = match self.find(&message_id) {
                    Ok(i) => i,
                    Err(error) => {
                        return Err(error);
                    },
                };
                proof {
                    lemma_first_is_one(before, message_id@, i as int);
                }
                let mut message = self.messages[i].replicate();
                message.edit(text);
                self.put(i, message);
                Ok(())
            },
            ChatBody::MessageDelete { message_id } => {
                let i = match self.find(&message_id) {
                    Ok(i) => i,
                    Err(error) => {
                        return Err(error);
                    },
                };
                proof {
                    lemma_first_is_one(before, message_id@, i as int);
                }
                let mut message = self.messages[i].replicate();
                message.delete();
                self.put(i, message);
                Ok(())
            },
            ChatBody::ReactionPut { message_id, emoji } => {
                let i = match self.find(&message_id) {
                    Ok(i) => i,
                    Err(error) => {
                        return Err(error);
                    },
                };
                proof {
                    lemma_first_is_one(before, message_id@, i as int);
                }
                let mut message = self.messages[i].replicate();
                message.react(emoji, actor);
                self.put(i, message);
                Ok(())
            },
            ChatBody::ReactionRemove { message_id, emoji } => {
                let i = match self.find(&message_id) {
                    Ok(i) => i,
                    Err(error) => {
                        return Err(error);
                    },
                };
                proof {
                    lemma_first_is_one(before, message_id@, i as int);
                }
                let mut message = self.messages[i].replicate();
                message.unreact(emoji, actor);
                self.put(i, message);
                Ok(())
            },
        }
    }
}

/// There is one first message with an id.
pub proof fn lemma_first_is_one(messages: Seq<TimelineMessageModel>, id: Seq<char>, i: int)
    requires
        first_at(messages, id, i),
    ensures
        has_message(messages, id),
        i == choose|j: int| first_at(messages, id, j),
{
    let j = choose|j: int| first_at(messages, id, j);
    assert(first_at(messages, id, j));
    if j < i {
        assert(messages[j].message_id != id);
    } else if i < j {
        assert(messages[i].message_id != id);
    }
}

impl ChatState {
    /// The messages of a channel.
    pub fn timeline(&self, guild_id: &str, channel_id: &str) -> (messages: Vec<TimelineMessage>)
        ensures
            messages.deep_view() == timeline_of(self@, (guild_id@, channel_id@)),
    {
        match self.channels.get(&ChannelKey::new(guild_id, channel_id)) {
            Some(timeline) => timeline.messages.replicate(),
            None => {
                let messages: Vec<TimelineMessage> = Vec::new();
                proof {
                    assert(messages.deep_view() =~= Seq::empty());
                }
                messages
            },
        }
    }

    /// Applies an operation with the key of its epoch, unless it was applied
    /// before or is refused.
    pub fn apply_with_key(&mut self, envelope: ChatEnvelope, key: Option<[u8; 32]>) -> (result:
        Result<ChatApplyOutcome, ChatError>)
        ensures
            outcome(result) == chat_result(old(self)@, envelope@, optional_key(key)),
            final(self)@ == chat_state(old(self)@, envelope@, optional_key(key)),
    {
        let text = envelope.read(key);
        self.apply_read(envelope, text)
    }

    /// Applies an operation, where `text` is what was read of the text that it
    /// carries, unless it was applied before or is refused.
    pub fn apply_read(&mut self, envelope: ChatEnvelope, text: Result<String, ChatError>) -> (result:
        Result<ChatApplyOutcome, ChatError>)
        ensures
            outcome(result) == chat_result_with(old(self)@, envelope@, read_text(text)),
            final(self)@ == chat_state_with(old(self)@, envelope@, read_text(text)),
    {
        if envelope.schema != CHAT_SCHEMA_V1.to_owned() {
            return Err(ChatError::UnknownSchema(envelope.schema));
        }
        if self.seen_op_ids.contains(&envelope.op_id) {
            return Ok(ChatApplyOutcome::Duplicate);
        }
        let channel = ChannelKey::new(envelope.guild_id.as_str(), envelope.channel_id.as_str());
        let op_id = envelope.op_id.clone();
        let mut timeline = match self.channels.take(&channel) {
            Some(timeline) => timeline,
            None => ChannelTimeline { messages: Vec::new() },
        };
        proof {
            assert(timeline@.messages =~= timeline_of(old(self)@, channel@));
        }
        let result = timeline.change(envelope, text);
        let ghost messages = timeline@.messages;
        self.channels.insert(channel, timeline);
        proof {
            assert(self@.channels =~= old(self)@.channels.insert(
                channel@,
                ChannelTimelineModel { messages },
            ));
        }
        match result {
            Err(error) => Err(error),
            Ok(()) => {
                self.seen_op_ids.insert(op_id);
                Ok(ChatApplyOutcome::Applied)
            },
        }
    }

    /// Applies an operation, with the keys that `keys` finds. It is asked for the key of
    /// an operation that carries a text, where the schema is known and the operation is
    /// new, and for nothing else.
    pub fn apply<K: EpochKeyLookup>(&mut self, envelope: ChatEnvelope, keys: &K) -> (result: Result<
        ChatApplyOutcome,
        ChatError,
    >)
        requires
            needs_key(old(self)@, envelope@) ==> keys.may_be_asked(
                envelope@.guild_id,
                envelope@.channel_id,
                epoch_of(envelope@.body),
            ),
        ensures
            outcome(result) == chat_result(
                old(self)@,
                envelope@,
                keys.key_of(envelope@.guild_id, envelope@.channel_id, epoch_of(envelope@.body)),
            ),
            final(self)@ == chat_state(
                old(self)@,
                envelope@,
                keys.key_of(envelope@.guild_id, envelope@.channel_id, epoch_of(envelope@.body)),
            ),
    {
        let is_new = same_text(envelope.schema.as_str(), CHAT_SCHEMA_V1)
            && !self.seen_op_ids.contains(&envelope.op_id);
        let key = match &envelope.body {
            ChatBody::MessageSend { epoch, .. } if is_new => keys.epoch_key(
                envelope.guild_id.as_str(),
                envelope.channel_id.as_str(),
                *epoch,
            ),
            ChatBody::MessageEdit { epoch, .. } if is_new => keys.epoch_key(
                envelope.guild_id.as_str(),
                envelope.channel_id.as_str(),
                *epoch,
            ),
            _ => None,
        };
        self.apply_with_key(envelope, key)
    }
}

} // verus!
