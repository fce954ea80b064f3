//! What holds of every timeline, however its operations follow each other.
use vstd::prelude::*;
use vstd::utf8::{decode_utf8, encode_utf8, valid_utf8};
use crate::chat::{
    chat_result, chat_state, deleted, edited, first_at, lemma_first_is_one, no_chat, nonce_of,
    opens_to, reacted, reactors, timeline_after, timeline_of, unreacted, ChatApplyOutcome,
    ChatBodyModel, ChatEnvelopeModel, ChatErrorModel, ChatStateModel, TimelineMessageModel,
    CHAT_SCHEMA_V1,
};
use crate::crypto::{base64_decoded, sha256, unsealed};

verus! {

/// A message that was sealed under a key is read with it: it becomes the last of
/// its channel, with the author's text, time and name.
pub proof fn sent_message_is_read(
    state: ChatStateModel,
    op: ChatEnvelopeModel,
    key: Seq<u8>,
    text: Seq<char>,
)
    requires
        op.schema == CHAT_SCHEMA_V1@,
        op.body is MessageSend,
        opens_to(op, key, text),
        !state.seen_op_ids.contains(op.op_id),
    ensures
        chat_result(state, op, Some(key)) == Ok::<ChatApplyOutcome, ChatErrorModel>(
            ChatApplyOutcome::Applied,
        ),
        timeline_of(chat_state(state, op, Some(key)), (op.guild_id, op.channel_id)) == timeline_of(
            state,
            (op.guild_id, op.channel_id),
        ).push(
            TimelineMessageModel {
                message_id: op.body->MessageSend_message_id,
                author: op.actor,
                content: text,
                edited: false,
                deleted: false,
                reactions: Map::empty(),
                ts_ms: op.ts_ms,
            },
        ),
{
}

/// An edit that was sealed under a key is read with it: the message has the new
/// text and is marked as edited, and nothing else of the channel changes.
pub proof fn edited_message_is_read(
    state: ChatStateModel,
    op: ChatEnvelopeModel,
    key: Seq<u8>,
    text: Seq<char>,
    i: int,
)
    requires
        op.schema == CHAT_SCHEMA_V1@,
        op.body is MessageEdit,
        opens_to(op, key, text),
        !state.seen_op_ids.contains(op.op_id),
        first_at(
            timeline_of(state, (op.guild_id, op.channel_id)),
            op.body->MessageEdit_message_id,
            i,
        ),
    ensures
        chat_result(state, op, Some(key)) == Ok::<ChatApplyOutcome, ChatErrorModel>(
            ChatApplyOutcome::Applied,
        ),
        ({
            let before = timeline_of(state, (op.guild_id, op.channel_id));
            timeline_of(chat_state(state, op, Some(key)), (op.guild_id, op.channel_id))
                == before.update(i, edited(before[i], text))
        }),
{
    lemma_first_is_one(
        timeline_of(state, (op.guild_id, op.channel_id)),
        op.body->MessageEdit_message_id,
        i,
    );
}

/// Without the key of its epoch a message cannot be read: the operation is
/// refused, no message changes, and it can be offered again.
pub proof fn message_needs_its_key(
    state: ChatStateModel,
    op: ChatEnvelopeModel,
    channel: (Seq<char>, Seq<char>),
)
    requires
        op.schema == CHAT_SCHEMA_V1@,
        op.body is MessageSend || op.body is MessageEdit,
        !state.seen_op_ids.contains(op.op_id),
    ensures
        chat_result(state, op, None) == Err::<ChatApplyOutcome, ChatErrorModel>(
            ChatErrorModel::MissingEpochKey {
                guild_id: op.guild_id,
                channel_id: op.channel_id,
                epoch: crate::chat::epoch_of(op.body),
            },
        ),
        timeline_of(chat_state(state, op, None), channel) == timeline_of(state, channel),
        chat_state(state, op, None).seen_op_ids == state.seen_op_ids,
{
}

/// An operation that was applied is recorded, and offering it again changes
/// nothing, whatever keys there are by then.
pub proof fn chat_apply_once(
    state: ChatStateModel,
    op: ChatEnvelopeModel,
    key: Option<Seq<u8>>,
    later_key: Option<Seq<u8>>,
)
    requires
        chat_result(state, op, key) == Ok::<ChatApplyOutcome, ChatErrorModel>(
            ChatApplyOutcome::Applied,
        ),
    ensures
        chat_result(chat_state(state, op, key), op, later_key) == Ok::<
            ChatApplyOutcome,
            ChatErrorModel,
        >(ChatApplyOutcome::Duplicate),
        chat_state(chat_state(state, op, key), op, later_key) == chat_state(state, op, key),
{
}

/// An operation changes no other channel, and one that is refused changes no
/// message anywhere.
pub proof fn chat_apply_is_local(
    state: ChatStateModel,
    op: ChatEnvelopeModel,
    key: Option<Seq<u8>>,
    channel: (Seq<char>, Seq<char>),
)
    ensures
        channel != (op.guild_id, op.channel_id) ==> timeline_of(chat_state(state, op, key), channel)
            == timeline_of(state, channel),
        chat_result(state, op, key) is Err ==> timeline_of(chat_state(state, op, key), channel)
            == timeline_of(state, channel),
        chat_result(state, op, key) is Err ==> chat_state(state, op, key).seen_op_ids
            == state.seen_op_ids,
{
}

/// No operation makes a message disappear or moves it: the messages there were
/// keep their places, ids, authors and times.
pub proof fn messages_stay(
    messages: Seq<TimelineMessageModel>,
    op: ChatEnvelopeModel,
    key: Option<Seq<u8>>,
    i: int,
)
    requires
        timeline_after(messages, op, key) is Ok,
        0 <= i < messages.len(),
    ensures
        ({
            let after = timeline_after(messages, op, key)->Ok_0;
            &&& messages.len() <= after.len() <= messages.len() + 1
            &&& after[i].message_id == messages[i].message_id
            &&& after[i].author == messages[i].author
            &&& after[i].ts_ms == messages[i].ts_ms
        }),
{
}

/// A deleted message shows neither its text nor any reaction.
pub proof fn deleted_message_is_blank(message: TimelineMessageModel, emoji: Seq<char>)
    ensures
        deleted(message).content == "[deleted]"@,
        deleted(message).deleted,
        reactors(deleted(message), emoji) == Set::<Seq<char>>::empty(),
{
}

/// Taking a reaction back undoes putting it, for someone who had not reacted,
/// as long as no emoji stands without anybody who used it.
pub proof fn taking_back_undoes_reacting(
    message: TimelineMessageModel,
    emoji: Seq<char>,
    actor: Seq<char>,
)
    requires
        !reactors(message, emoji).contains(actor),
        reactions_sound(message),
    ensures
        unreacted(reacted(message, emoji, actor), emoji, actor) == message,
{
    let before = reactors(message, emoji);
    let after = reacted(message, emoji, actor);
    assert(reactors(after, emoji).remove(actor) =~= before);
    assert(unreacted(after, emoji, actor).reactions =~= message.reactions);
}

/// Reacting twice is reacting once.
pub proof fn reacting_twice_is_once(
    message: TimelineMessageModel,
    emoji: Seq<char>,
    actor: Seq<char>,
)
    ensures
        reacted(reacted(message, emoji, actor), emoji, actor) == reacted(message, emoji, actor),
{
    let once = reacted(message, emoji, actor);
    assert(reactors(once, emoji).insert(actor) =~= reactors(once, emoji));
    assert(reacted(once, emoji, actor).reactions =~= once.reactions);
}

/// What the reactions to every message keep: no emoji stands without anybody who
/// used it.
pub open spec fn reactions_sound(message: TimelineMessageModel) -> bool {
    forall|emoji: Seq<char>| #[trigger]
        message.reactions.contains_key(emoji) ==> message.reactions[emoji] != Set::<
            Seq<char>,
        >::empty()
}

/// An operation leaves no emoji without anybody who used it.
pub proof fn apply_keeps_reactions_sound(
    messages: Seq<TimelineMessageModel>,
    op: ChatEnvelopeModel,
    key: Option<Seq<u8>>,
    i: int,
)
    requires
        timeline_after(messages, op, key) is Ok,
        forall|j: int| 0 <= j < messages.len() ==> reactions_sound(#[trigger] messages[j]),
        0 <= i < timeline_after(messages, op, key)->Ok_0.len(),
    ensures
        reactions_sound(timeline_after(messages, op, key)->Ok_0[i]),
{
    let after = timeline_after(messages, op, key)->Ok_0;
    if i < messages.len() {
        assert(reactions_sound(messages[i]));
        match op.body {
            ChatBodyModel::ReactionPut { emoji, .. } => {
                assert(reacted(messages[i], emoji, op.actor).reactions[emoji].contains(op.actor));
            },
            _ => {},
        }
    }
}

/// A chat operation, and the key of its epoch as it was found when the operation was
/// offered.
pub struct ChatOffer {
    pub op: ChatEnvelopeModel,
    pub key: Option<Seq<u8>>,
}

/// The state after operations were offered one after the other, to a chat in which
/// nothing had been said.
pub open spec fn chat_after(offers: Seq<ChatOffer>) -> ChatStateModel
    decreases offers.len(),
{
    if offers.len() == 0 {
        no_chat()
    } else {
        let offer = offers.last();
        chat_state(chat_after(offers.drop_last()), offer.op, offer.key)
    }
}

/// Whether an operation that is offered puts a message into a channel.
pub open spec fn puts_message(
    state: ChatStateModel,
    offer: ChatOffer,
    channel: (Seq<char>, Seq<char>),
) -> bool {
    &&& offer.op.body is MessageSend
    &&& (offer.op.guild_id, offer.op.channel_id) == channel
    &&& chat_result(state, offer.op, offer.key) == Ok::<ChatApplyOutcome, ChatErrorModel>(
        ChatApplyOutcome::Applied,
    )
}

/// The operations that put a message into a channel, in the order in which they were
/// applied.
pub open spec fn sends_applied(
    offers: Seq<ChatOffer>,
    channel: (Seq<char>, Seq<char>),
) -> Seq<ChatEnvelopeModel>
    decreases offers.len(),
{
    if offers.len() == 0 {
        Seq::empty()
    } else {
        let before = sends_applied(offers.drop_last(), channel);
        if puts_message(chat_after(offers.drop_last()), offers.last(), channel) {
            before.push(offers.last().op)
        } else {
            before
        }
    }
}

/// Whether a message is the one that an operation sent, whatever became of its text and
/// of the reactions to it.
pub open spec fn sent_by(message: TimelineMessageModel, op: ChatEnvelopeModel) -> bool {
    &&& op.body is MessageSend
    &&& message.message_id == op.body->MessageSend_message_id
    &&& message.author == op.actor
    &&& message.ts_ms == op.ts_ms
}

/// Over any run of operations the timeline of a channel lists exactly the messages whose
/// sending was applied, in the order in which it was, whatever their times: nothing else
/// adds a message, drops one or moves it, and a channel into which nothing was sent has
/// none.
pub proof fn timeline_lists_what_was_sent(
    offers: Seq<ChatOffer>,
    channel: (Seq<char>, Seq<char>),
)
    ensures
        ({
            let messages = timeline_of(chat_after(offers), channel);
            let sends = sends_applied(offers, channel);
            &&& messages.len() == sends.len()
            &&& forall|i: int|
                0 <= i < sends.len() ==> sent_by(#[trigger] messages[i], sends[i])
        }),
    decreases offers.len(),
{
    if offers.len() > 0 {
        let before = chat_after(offers.drop_last());
        let offer = offers.last();
        timeline_lists_what_was_sent(offers.drop_last(), channel);
        let messages = timeline_of(before, channel);
        let sends = sends_applied(offers.drop_last(), channel);
        let after = timeline_of(chat_state(before, offer.op, offer.key), channel);
        chat_apply_is_local(before, offer.op, offer.key, channel);
        if puts_message(before, offer, channel) {
            assert(after.len() == messages.len() + 1);
            assert forall|i: int| 0 <= i < sends.push(offer.op).len() implies sent_by(
                #[trigger] after[i],
                sends.push(offer.op)[i],
            ) by {
                if i < messages.len() {
                    assert(after[i] == messages[i]);
                }
            }
        } else {
            assert(after.len() == messages.len());
            assert forall|i: int| 0 <= i < sends.len() implies sent_by(
                #[trigger] after[i],
                sends[i],
            ) by {
                assert(sent_by(messages[i], sends[i]));
            }
        }
    }
}

/// Whether an operation is new, and in the schema of the chat.
pub open spec fn chat_op_is_new(state: ChatStateModel, op: ChatEnvelopeModel) -> bool {
    op.schema == "rapture.chat.v1"@ && !state.seen_op_ids.contains(op.op_id)
}

/// Whether an operation is applied.
pub open spec fn chat_applied(
    state: ChatStateModel,
    op: ChatEnvelopeModel,
    key: Option<Seq<u8>>,
) -> bool {
    chat_result(state, op, key) == Ok::<ChatApplyOutcome, ChatErrorModel>(
        ChatApplyOutcome::Applied,
    )
}

/// Whether an operation is refused, and why.
pub open spec fn chat_refused(
    state: ChatStateModel,
    op: ChatEnvelopeModel,
    key: Option<Seq<u8>>,
    error: ChatErrorModel,
) -> bool {
    chat_result(state, op, key) == Err::<ChatApplyOutcome, ChatErrorModel>(error)
}

/// Whether `at` is the place of the first message of an id in a channel.
pub open spec fn stands_at(
    state: ChatStateModel,
    channel: (Seq<char>, Seq<char>),
    id: Seq<char>,
    at: int,
) -> bool {
    &&& state.channels.contains_key(channel)
    &&& 0 <= at < state.channels[channel].messages.len()
    &&& state.channels[channel].messages[at].message_id == id
    &&& forall|j: int|
        0 <= j < at ==> (#[trigger] state.channels[channel].messages[j]).message_id != id
}

/// Whether no message of a channel has an id.
pub open spec fn stands_nowhere(
    state: ChatStateModel,
    channel: (Seq<char>, Seq<char>),
    id: Seq<char>,
) -> bool {
    state.channels.contains_key(channel) ==> forall|j: int|
        0 <= j < state.channels[channel].messages.len() ==> (
        #[trigger] state.channels[channel].messages[j]).message_id != id
}

/// Whether a channel has the messages it had, but for the one in a place, of which only
/// the text, the marks and the reactions may be others.
pub open spec fn others_stay(
    before: ChatStateModel,
    after: ChatStateModel,
    channel: (Seq<char>, Seq<char>),
    at: int,
) -> bool {
    let old_messages = before.channels[channel].messages;
    let new_messages = after.channels[channel].messages;
    &&& after.channels.contains_key(channel)
    &&& new_messages.len() == old_messages.len()
    &&& forall|j: int|
        0 <= j < old_messages.len() && j != at ==> #[trigger] new_messages[j] == old_messages[j]
    &&& new_messages[at].message_id == old_messages[at].message_id
    &&& new_messages[at].author == old_messages[at].author
    &&& new_messages[at].ts_ms == old_messages[at].ts_ms
}

/// Where a message stands first, and that it stands nowhere, in terms of its timeline.
pub proof fn lemma_place(
    state: ChatStateModel,
    channel: (Seq<char>, Seq<char>),
    id: Seq<char>,
    at: int,
)
    ensures
        stands_at(state, channel, id, at) ==> crate::chat::has_message(
            timeline_of(state, channel),
            id,
        ) && at == choose|j: int| first_at(timeline_of(state, channel), id, j),
        stands_nowhere(state, channel, id) ==> !crate::chat::has_message(
            timeline_of(state, channel),
            id,
        ),
{
    let messages = timeline_of(state, channel);
    if stands_at(state, channel, id, at) {
        assert forall|j: int| 0 <= j < at implies #[trigger] messages[j].message_id != id by {
            assert(state.channels[channel].messages[j].message_id != id);
        }
        assert(first_at(messages, id, at));
        lemma_first_is_one(messages, id, at);
    }
    if stands_nowhere(state, channel, id) {
        if crate::chat::has_message(messages, id) {
            let j = choose|j: int| first_at(messages, id, j);
            assert(state.channels[channel].messages[j].message_id != id);
        }
    }
}

/// An edit gives the message its new text and the mark of an edited one. Its id, its
/// author, its time, the mark of a deleted one and its reactions stay, and so does every
/// other message.
pub proof fn edit_changes_text_and_mark(
    state: ChatStateModel,
    op: ChatEnvelopeModel,
    key: Seq<u8>,
    text: Seq<char>,
    at: int,
)
    requires
        chat_op_is_new(state, op),
        op.body is MessageEdit,
        opens_to(op, key, text),
        stands_at(state, (op.guild_id, op.channel_id), op.body->MessageEdit_message_id, at),
    ensures
        chat_applied(state, op, Some(key)),
        ({
            let channel = (op.guild_id, op.channel_id);
            let after = chat_state(state, op, Some(key));
            let was = state.channels[channel].messages[at];
            let is = after.channels[channel].messages[at];
            &&& others_stay(state, after, channel, at)
            &&& is.content == text
            &&& is.edited
            &&& is.deleted == was.deleted
            &&& is.reactions == was.reactions
        }),
{
    lemma_place(
        state,
        (op.guild_id, op.channel_id),
        op.body->MessageEdit_message_id,
        at,
    );
}

/// A deletion leaves the message in its place, without its text and without reactions,
/// and with the mark of a deleted one. Its id, its author, its time and the mark of an
/// edited one stay, and so does every other message.
pub proof fn delete_blanks_the_message(
    state: ChatStateModel,
    op: ChatEnvelopeModel,
    key: Option<Seq<u8>>,
    at: int,
)
    requires
        chat_op_is_new(state, op),
        op.body is MessageDelete,
        stands_at(state, (op.guild_id, op.channel_id), op.body->MessageDelete_message_id, at),
    ensures
        chat_applied(state, op, key),
        ({
            let channel = (op.guild_id, op.channel_id);
            let after = chat_state(state, op, key);
            let was = state.channels[channel].messages[at];
            let is = after.channels[channel].messages[at];
            &&& others_stay(state, after, channel, at)
            &&& is.content == "[deleted]"@
            &&& is.deleted
            &&& is.edited == was.edited
            &&& forall|emoji: Seq<char>| !#[trigger] is.reactions.contains_key(emoji)
        }),
{
    lemma_place(
        state,
        (op.guild_id, op.channel_id),
        op.body->MessageDelete_message_id,
        at,
    );
}

/// A reaction adds its actor to those who used the emoji, and changes nothing else: no
/// other emoji, no text, no mark, no other message.
pub proof fn reaction_adds_its_actor(
    state: ChatStateModel,
    op: ChatEnvelopeModel,
    key: Option<Seq<u8>>,
    at: int,
)
    requires
        chat_op_is_new(state, op),
        op.body is ReactionPut,
        stands_at(state, (op.guild_id, op.channel_id), op.body->ReactionPut_message_id, at),
    ensures
        chat_applied(state, op, key),
        ({
            let channel = (op.guild_id, op.channel_id);
            let emoji = op.body->ReactionPut_emoji;
            let after = chat_state(state, op, key);
            let was = state.channels[channel].messages[at];
            let is = after.channels[channel].messages[at];
            &&& others_stay(state, after, channel, at)
            &&& is.content == was.content
            &&& is.edited == was.edited
            &&& is.deleted == was.deleted
            &&& forall|user: Seq<char>| #[trigger]
                used_by(is, emoji, user) <==> user == op.actor || used_by(was, emoji, user)
            &&& other_emojis_stay(was, is, emoji)
        }),
{
    lemma_place(
        state,
        (op.guild_id, op.channel_id),
        op.body->ReactionPut_message_id,
        at,
    );
}

/// Whether a user has reacted to a message with an emoji.
pub open spec fn used_by(message: TimelineMessageModel, emoji: Seq<char>, user: Seq<char>) -> bool {
    message.reactions.contains_key(emoji) && message.reactions[emoji].contains(user)
}

/// Whether the reactions with other emojis are what they were.
pub open spec fn other_emojis_stay(
    was: TimelineMessageModel,
    is: TimelineMessageModel,
    emoji: Seq<char>,
) -> bool {
    &&& forall|e: Seq<char>|
        e != emoji ==> (#[trigger] is.reactions.contains_key(e) <==> was.reactions.contains_key(e))
    &&& forall|e: Seq<char>|
        e != emoji && #[trigger] was.reactions.contains_key(e) ==> is.reactions[e]
            == was.reactions[e]
}

/// Taking a reaction back takes its actor, and nobody else, from those who used the
/// emoji, which goes when nobody is left, and changes nothing else.
pub proof fn reaction_taken_back_takes_its_actor(
    state: ChatStateModel,
    op: ChatEnvelopeModel,
    key: Option<Seq<u8>>,
    at: int,
)
    requires
        chat_op_is_new(state, op),
        op.body is ReactionRemove,
        stands_at(state, (op.guild_id, op.channel_id), op.body->ReactionRemove_message_id, at),
    ensures
        chat_applied(state, op, key),
        ({
            let channel = (op.guild_id, op.channel_id);
            let emoji = op.body->ReactionRemove_emoji;
            let after = chat_state(state, op, key);
            let was = state.channels[channel].messages[at];
            let is = after.channels[channel].messages[at];
            &&& others_stay(state, after, channel, at)
            &&& is.content == was.content
            &&& is.edited == was.edited
            &&& is.deleted == was.deleted
            &&& is.reactions.contains_key(emoji) ==> exists|user: Seq<char>| #[trigger]
                used_by(is, emoji, user)
            &&& forall|user: Seq<char>| #[trigger]
                used_by(is, emoji, user) <==> user != op.actor && used_by(was, emoji, user)
            &&& other_emojis_stay(was, is, emoji)
        }),
{
    let channel = (op.guild_id, op.channel_id);
    let emoji = op.body->ReactionRemove_emoji;
    lemma_place(state, channel, op.body->ReactionRemove_message_id, at);
    let was = state.channels[channel].messages[at];
    let is = chat_state(state, op, key).channels[channel].messages[at];
    let rest = reactors(was, emoji).remove(op.actor);
    assert(is == unreacted(was, emoji, op.actor));
    assert forall|user: Seq<char>| #[trigger]
        used_by(is, emoji, user) <==> user != op.actor && used_by(was, emoji, user) by {
        assert(rest.contains(user) <==> user != op.actor && reactors(was, emoji).contains(user));
    }
    if is.reactions.contains_key(emoji) {
        assert(rest != Set::<Seq<char>>::empty());
        if forall|user: Seq<char>| !rest.contains(user) {
            assert(rest =~= Set::<Seq<char>>::empty());
        }
        let user = choose|user: Seq<char>| rest.contains(user);
        assert(used_by(is, emoji, user));
    }
    assert(other_emojis_stay(was, is, emoji));
    assert(others_stay(state, chat_state(state, op, key), channel, at));
}

/// What changes a message that is in no place of its channel is refused, and told which
/// message it was; an edit only after its text was read.
pub proof fn missing_message_is_told(
    state: ChatStateModel,
    op: ChatEnvelopeModel,
    key: Option<Seq<u8>>,
    id: Seq<char>,
)
    requires
        chat_op_is_new(state, op),
        stands_nowhere(state, (op.guild_id, op.channel_id), id),
    ensures
        op.body == (ChatBodyModel::MessageDelete { message_id: id }) ==> chat_refused(
            state,
            op,
            key,
            ChatErrorModel::MessageNotFound(id),
        ),
        op.body matches ChatBodyModel::ReactionPut { message_id, .. } && message_id == id
            ==> chat_refused(state, op, key, ChatErrorModel::MessageNotFound(id)),
        op.body matches ChatBodyModel::ReactionRemove { message_id, .. } && message_id == id
            ==> chat_refused(state, op, key, ChatErrorModel::MessageNotFound(id)),
        forall|k: Seq<u8>, text: Seq<char>|
            op.body is MessageEdit && op.body->MessageEdit_message_id == id && key == Some(k)
                && #[trigger] opens_to(op, k, text) ==> chat_refused(
                state,
                op,
                key,
                ChatErrorModel::MessageNotFound(id),
            ),
{
    lemma_place(state, (op.guild_id, op.channel_id), id, 0);
}

/// An operation in another schema is refused, one that was seen is a duplicate, and one
/// that is applied is seen from then on, with those that were seen before.
pub proof fn chat_ops_are_recorded(
    state: ChatStateModel,
    op: ChatEnvelopeModel,
    key: Option<Seq<u8>>,
    id: Seq<char>,
)
    ensures
        op.schema != "rapture.chat.v1"@ ==> chat_refused(
            state,
            op,
            key,
            ChatErrorModel::UnknownSchema(op.schema),
        ) && chat_state(state, op, key) == state,
        op.schema == "rapture.chat.v1"@ && state.seen_op_ids.contains(op.op_id) ==> chat_result(
            state,
            op,
            key,
        ) == Ok::<ChatApplyOutcome, ChatErrorModel>(ChatApplyOutcome::Duplicate) && chat_state(
            state,
            op,
            key,
        ) == state,
        chat_applied(state, op, key) ==> (chat_state(state, op, key).seen_op_ids.contains(id)
            <==> state.seen_op_ids.contains(id) || id == op.op_id),
        !chat_applied(state, op, key) ==> chat_state(state, op, key).seen_op_ids
            == state.seen_op_ids,
{
}

/// A text is read where there is a key, the nonce is twelve bytes in base64, the rest is
/// base64, and what the key opens it to is UTF-8; each thing that is amiss is told, the
/// first of them.
pub proof fn text_is_read_step_by_step(
    state: ChatStateModel,
    op: ChatEnvelopeModel,
    key: Option<Seq<u8>>,
)
    requires
        chat_op_is_new(state, op),
        op.body is MessageSend,
    ensures
        ({
            let nonce = base64_decoded(op.body->MessageSend_nonce_b64);
            let cipher = base64_decoded(op.body->MessageSend_ciphertext_b64);
            &&& key is None ==> chat_refused(
                state,
                op,
                key,
                ChatErrorModel::MissingEpochKey {
                    guild_id: op.guild_id,
                    channel_id: op.channel_id,
                    epoch: op.body->MessageSend_epoch,
                },
            )
            &&& key is Some && (nonce is None || nonce->0.len() != 12) ==> chat_refused(
                state,
                op,
                key,
                ChatErrorModel::InvalidNonce,
            )
            &&& key is Some && nonce is Some && nonce->0.len() == 12 && cipher is None
                ==> chat_refused(state, op, key, ChatErrorModel::InvalidCiphertext)
            &&& key is Some && nonce is Some && nonce->0.len() == 12 && cipher is Some && (unsealed(
                key->0,
                nonce->0,
                cipher->0,
            ) is None || !valid_utf8(unsealed(key->0, nonce->0, cipher->0)->0)) ==> chat_refused(
                state,
                op,
                key,
                ChatErrorModel::DecryptFailed,
            )
            &&& chat_applied(state, op, key) ==> ({
                let channel = (op.guild_id, op.channel_id);
                let plain = unsealed(key->0, nonce->0, cipher->0);
                &&& key is Some && nonce is Some && cipher is Some && plain is Some
                &&& nonce->0.len() == 12
                &&& chat_state(state, op, key).channels[channel].messages.last().content
                    == decode_utf8(plain->0)
            })
        }),
{
}

/// The nonce of an operation is the first twelve bytes of the digest of its id.
pub proof fn nonce_is_the_start_of_the_digest(op_id: Seq<char>, i: int)
    requires
        sha256(encode_utf8(op_id)).len() == 32,
        0 <= i < 12,
    ensures
        nonce_of(op_id).len() == 12,
        nonce_of(op_id)[i] == sha256(encode_utf8(op_id))[i],
{
}

/// A message whose parts are in order is applied: with a key, a nonce of twelve bytes and
/// a ciphertext in base64 that is not too long and that the key opens to UTF-8, it reads
/// as that text; and an edit reads as a message with the same parts does.
pub proof fn text_in_order_is_read(
    state: ChatStateModel,
    op: ChatEnvelopeModel,
    key: Seq<u8>,
    plain: Seq<u8>,
)
    requires
        chat_op_is_new(state, op),
        op.body is MessageSend || op.body is MessageEdit,
        ({
            let (nonce, cipher) = sealed_parts(op);
            &&& base64_decoded(nonce) is Some
            &&& base64_decoded(nonce)->0.len() == 12
            &&& base64_decoded(cipher) is Some
            &&& base64_decoded(cipher)->0.len() <= 274877906832
            &&& unsealed(key, base64_decoded(nonce)->0, base64_decoded(cipher)->0) == Some(plain)
        }),
        valid_utf8(plain),
    ensures
        opens_to(op, key, decode_utf8(plain)),
        op.body is MessageSend ==> chat_applied(state, op, Some(key)) && ({
            let channel = (op.guild_id, op.channel_id);
            chat_state(state, op, Some(key)).channels[channel].messages.last().content
                == decode_utf8(plain)
        }),
{
}

/// The nonce and the ciphertext of an operation that carries a text.
pub open spec fn sealed_parts(op: ChatEnvelopeModel) -> (Seq<char>, Seq<char>) {
    if op.body is MessageSend {
        (op.body->MessageSend_nonce_b64, op.body->MessageSend_ciphertext_b64)
    } else {
        (op.body->MessageEdit_nonce_b64, op.body->MessageEdit_ciphertext_b64)
    }
}

/// A text can be sealed where it has no more bytes than the keystream, and where what
/// comes of it fits into memory.
pub proof fn texts_can_be_sealed_up_to_the_keystream(text: Seq<char>)
    ensures
        encode_utf8(text).len() <= 274877906816 && 2 * encode_utf8(text).len() + 64 <= isize::MAX
            <==> crate::chat::sealable(text),
{
}

} // verus!
