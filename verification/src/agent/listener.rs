//! The listener: whether it runs at all, which commands it has seen, and what it
//! answers to what it cannot read.
use vstd::prelude::*;
use crate::agent::fly::{or_failure, plain_failure};
use crate::agent::keys::{
    fail_in, failure_in, keys_in, keys_read, open_secret, opened_secret, parse_keys, parse_relay,
    relay_in, KeyPair, KeyPairModel,
};
use crate::agent::metadata::{extract_request_id, request_id_in};
use crate::agent::policy::{
    comma_list, env_bool, filled, filled_text, list_entries, switch_in, text_outcome,
};
use crate::agent::types::{
    AgentControlErrorEnvelope, AgentControlErrorEnvelopeModel, Failure, FailureModel,
    ERROR_SCHEMA_V1,
};
use crate::collections::{lemma_push_to_set, OrdSet, Replicate};
use crate::json::parsed_json;
use crate::text::split_at;

verus! {

/// How many commands are remembered as seen.
pub const EVENT_DEDUP_WINDOW: usize = 8192;

/// The settings that say whether the listener runs, as they were found.
#[derive(Debug, PartialEq, Eq)]
pub struct ListenerSettings {
    pub enabled: Option<String>,
    pub secret: Option<String>,
    pub shared_secret: Option<String>,
    pub relays: Option<String>,
    pub shared_relays: Option<String>,
}

/// What a [`ListenerSettings`] holds.
#[verifier::ext_equal]
pub struct ListenerSettingsModel {
    pub enabled: Option<Seq<char>>,
    pub secret: Option<Seq<char>>,
    pub shared_secret: Option<Seq<char>>,
    pub relays: Option<Seq<char>>,
    pub shared_relays: Option<Seq<char>>,
}

impl DeepView for ListenerSettings {
    type V = ListenerSettingsModel;

    open spec fn deep_view(&self) -> ListenerSettingsModel {
        ListenerSettingsModel {
            enabled: self.enabled.deep_view(),
            secret: self.secret.deep_view(),
            shared_secret: self.shared_secret.deep_view(),
            relays: self.relays.deep_view(),
            shared_relays: self.shared_relays.deep_view(),
        }
    }
}

impl View for ListenerSettings {
    type V = ListenerSettingsModel;

    open spec fn view(&self) -> ListenerSettingsModel {
        self.deep_view()
    }
}

impl Replicate for ListenerSettings {
    fn replicate(&self) -> (copy: Self) {
        ListenerSettings {
            enabled: self.enabled.replicate(),
            secret: self.secret.replicate(),
            shared_secret: self.shared_secret.replicate(),
            relays: self.relays.replicate(),
            shared_relays: self.shared_relays.replicate(),
        }
    }
}

impl Clone for ListenerSettings {
    fn clone(&self) -> (copy: Self)
        ensures
            copy@ == self@,
    {
        self.replicate()
    }
}

/// What the listener runs with.
#[derive(Debug, PartialEq, Eq)]
pub struct ListenerPlan {
    pub keys: KeyPair,
    pub relay_urls: Vec<String>,
}

/// What a [`ListenerPlan`] holds.
#[verifier::ext_equal]
pub struct ListenerPlanModel {
    pub keys: KeyPairModel,
    pub relay_urls: Seq<Seq<char>>,
}

impl DeepView for ListenerPlan {
    type V = ListenerPlanModel;

    open spec fn deep_view(&self) -> ListenerPlanModel {
        ListenerPlanModel {
            keys: self.keys.deep_view(),
            relay_urls: self.relay_urls.deep_view(),
        }
    }
}

impl View for ListenerPlan {
    type V = ListenerPlanModel;

    open spec fn view(&self) -> ListenerPlanModel {
        self.deep_view()
    }
}

impl Replicate for ListenerPlan {
    fn replicate(&self) -> (copy: Self) {
        ListenerPlan {
            keys: self.keys.replicate(),
            relay_urls: self.relay_urls.replicate(),
        }
    }
}

impl Clone for ListenerPlan {
    fn clone(&self) -> (copy: Self)
        ensures
            copy@ == self@,
    {
        self.replicate()
    }
}

/// Something that came in over the relays.
#[derive(Debug, PartialEq, Eq)]
pub struct IncomingEvent {
    pub kind: u16,
    pub id: String,
    /// The public key of who sent it.
    pub sender: String,
    pub content: String,
}

/// What a [`IncomingEvent`] holds.
#[verifier::ext_equal]
pub struct IncomingEventModel {
    pub kind: u16,
    pub id: Seq<char>,
    pub sender: Seq<char>,
    pub content: Seq<char>,
}

impl DeepView for IncomingEvent {
    type V = IncomingEventModel;

    open spec fn deep_view(&self) -> IncomingEventModel {
        IncomingEventModel {
            kind: self.kind.deep_view(),
            id: self.id.deep_view(),
            sender: self.sender.deep_view(),
            content: self.content.deep_view(),
        }
    }
}

impl View for IncomingEvent {
    type V = IncomingEventModel;

    open spec fn view(&self) -> IncomingEventModel {
        self.deep_view()
    }
}

impl Replicate for IncomingEvent {
    fn replicate(&self) -> (copy: Self) {
        IncomingEvent {
            kind: self.kind.replicate(),
            id: self.id.replicate(),
            sender: self.sender.replicate(),
            content: self.content.replicate(),
        }
    }
}

impl Clone for IncomingEvent {
    fn clone(&self) -> (copy: Self)
        ensures
            copy@ == self@,
    {
        self.replicate()
    }
}

/// The first of two texts that is there.
pub open spec fn first_there(a: Option<Seq<char>>, b: Option<Seq<char>>) -> Option<Seq<char>> {
    if a is Some {
        a
    } else {
        b
    }
}

/// The first of two texts that is there.
fn pick(a: &Option<String>, b: &Option<String>) -> (text: Option<String>)
    ensures
        text.deep_view() == first_there(a.deep_view(), b.deep_view()),
{
    if a.is_some() {
        a.replicate()
    } else {
        b.replicate()
    }
}

/// The secret key that the listener is to have.
pub open spec fn listener_secret(settings: ListenerSettingsModel) -> Option<Seq<char>> {
    filled(first_there(settings.secret, settings.shared_secret))
}

/// The secret key that the listener is to have.
fn secret_for_listener(settings: &ListenerSettings) -> (secret: Option<String>)
    ensures
        secret.deep_view() == listener_secret(settings@),
{
    filled_text(&pick(&settings.secret, &settings.shared_secret))
}

/// The relays that the listener is to listen on.
pub open spec fn listener_relays(settings: ListenerSettingsModel) -> Seq<Seq<char>> {
    list_entries(
        split_at(
            match first_there(settings.relays, settings.shared_relays) {
                Some(csv) => csv,
                None => Seq::empty(),
            },
            ',',
        ),
    )
}

/// The relays that the listener is to listen on.
fn relays_for_listener(settings: &ListenerSettings) -> (relays: Vec<String>)
    ensures
        relays.deep_view() == listener_relays(settings@),
{
    let relay_csv = match pick(&settings.relays, &settings.shared_relays) {
        Some(csv) => csv,
        None => {
            let none = String::new();
            proof {
                assert(none@ =~= Seq::<char>::empty());
            }
            none
        },
    };
    comma_list(relay_csv.as_str())
}

/// The relays as they were read, up to the first that could not be.
pub open spec fn read_relays(
    urls: Seq<Seq<char>>,
    relays: Seq<Result<Seq<char>, Seq<char>>>,
) -> Result<Seq<Seq<char>>, FailureModel>
    decreases urls.len(),
{
    if urls.len() == 0 {
        Ok(Seq::empty())
    } else {
        match read_relays(urls.drop_last(), relays.drop_last()) {
            Err(failure) => Err(failure),
            Ok(before) => match relays.last() {
                Ok(relay) => Ok(before.push(relay)),
                Err(cause) => Err(failure_in("parse relay url "@ + urls.last(), cause)),
            },
        }
    }
}

/// Results that may be complaints, as models.
pub open spec fn text_outcomes(results: Seq<Result<String, String>>) -> Seq<
    Result<Seq<char>, Seq<char>>,
> {
    results.map_values(|result: Result<String, String>| text_outcome(result))
}

/// The relays as they were read, up to the first that could not be.
pub fn accept_relays(urls: &Vec<String>, relays: &Vec<Result<String, String>>) -> (read: Result<
    Vec<String>,
    Failure,
>)
    requires
        urls.len() == relays.len(),
    ensures
        or_failure(read) == read_relays(urls.deep_view(), text_outcomes(relays@)),
{
    let ghost texts = urls.deep_view();
    let ghost outcomes = text_outcomes(relays@);
    let mut read: Vec<String> = Vec::new();
    let mut i: usize = 0;
    proof {
        assert(texts.take(0) =~= Seq::empty());
        assert(read.deep_view() =~= Seq::<Seq<char>>::empty());
    }
    while i < urls.len()
        invariant
            i <= urls.len() == relays.len(),
            texts == urls.deep_view(),
            outcomes == text_outcomes(relays@),
            read_relays(texts.take(i as int), outcomes.take(i as int)) == Ok::<
                Seq<Seq<char>>,
                FailureModel,
            >(read.deep_view()),
        decreases urls.len() - i,
    {
        let ghost before = read.deep_view();
        proof {
            assert(texts.take(i + 1).drop_last() =~= texts.take(i as int));
            assert(outcomes.take(i + 1).drop_last() =~= outcomes.take(i as int));
            assert(texts.take(i + 1).last() == urls@[i as int]@);
            assert(outcomes.take(i + 1).last() == text_outcome(relays@[i as int]));
        }
        match &relays[i] {
            Ok(relay) => {
                read.push(relay.clone());
                proof {
                    assert(read.deep_view() =~= before.push(relay@));
                }
            },
            Err(cause) => {
                let context = "parse relay url ".to_owned().concat(urls[i].as_str());
                proof {
                    lemma_failed_relay(texts, outcomes, i + 1);
                }
                return Err(fail_in(context.as_str(), cause.as_str()));
            },
        }
        i += 1;
    }
    proof {
        assert(texts.take(i as int) =~= texts);
        assert(outcomes.take(i as int) =~= outcomes);
    }
    Ok(read)
}

proof fn lemma_failed_relay(
    urls: Seq<Seq<char>>,
    relays: Seq<Result<Seq<char>, Seq<char>>>,
    n: int,
)
    requires
        0 <= n <= urls.len() == relays.len(),
        read_relays(urls.take(n), relays.take(n)) is Err,
    ensures
        read_relays(urls, relays) == read_relays(urls.take(n), relays.take(n)),
    decreases urls.len() - n,
{
    if n < urls.len() {
        assert(urls.take(n + 1).drop_last() =~= urls.take(n));
        assert(relays.take(n + 1).drop_last() =~= relays.take(n));
        lemma_failed_relay(urls, relays, n + 1);
    } else {
        assert(urls.take(n) =~= urls);
        assert(relays.take(n) =~= relays);
    }
}

/// The relays, read.
pub fn parse_relay_urls(urls: &Vec<String>) -> (read: Result<Vec<String>, Failure>)
    ensures
        or_failure(read) == read_relays(
            urls.deep_view(),
            urls.deep_view().map_values(|url: Seq<char>| relay_in(url)),
        ),
{
    let relays = relays_read(urls);
    accept_relays(urls, &relays)
}

/// What each relay was read as.
fn relays_read(urls: &Vec<String>) -> (relays: Vec<Result<String, String>>)
    ensures
        relays.len() == urls.len(),
        text_outcomes(relays@) == urls.deep_view().map_values(|url: Seq<char>| relay_in(url)),
{
    let mut relays: Vec<Result<String, String>> = Vec::new();
    let mut i: usize = 0;
    while i < urls.len()
        invariant
            i <= urls.len(),
            relays.len() == i,
            forall|j: int|
                0 <= j < i ==> text_outcome(#[trigger] relays@[j]) == relay_in(urls@[j]@),
        decreases urls.len() - i,
    {
        relays.push(parse_relay(urls[i].as_str()));
        i += 1;
    }
    proof {
        assert(text_outcomes(relays@) =~= urls.deep_view().map_values(
            |url: Seq<char>| relay_in(url),
        ));
    }
    relays
}

/// What the listener runs with, given what its secret key and each of its relays were
/// read as. It runs where that is switched on, or, where that is left open, where there
/// is a secret key. Without a secret key or without relays it cannot; the secret key is
/// looked at before the relays are.
pub open spec fn listener_plan(
    settings: ListenerSettingsModel,
    keys: Option<Result<KeyPairModel, Seq<char>>>,
    relays: Seq<Result<Seq<char>, Seq<char>>>,
) -> Result<Option<ListenerPlanModel>, FailureModel> {
    let urls = listener_relays(settings);
    let enabled = match switch_in(settings.enabled) {
        Some(on) => on,
        None => listener_secret(settings) is Some,
    };
    if !enabled {
        Ok(None)
    } else {
        match keys {
            None => Err(
                plain_failure(
                    "agent control is enabled but no secret key found (set PIKA_AGENT_CONTROL_NOSTR_SECRET or NOSTR_SECRET_KEY)"@,
                ),
            ),
            Some(Err(cause)) => Err(failure_in("parse agent control nostr secret key"@, cause)),
            Some(Ok(keys)) => if urls.len() == 0 {
                Err(
                    plain_failure(
                        "agent control is enabled but no relays are configured (set PIKA_AGENT_CONTROL_RELAYS or RELAYS)"@,
                    ),
                )
            } else {
                match read_relays(urls, relays) {
                    Err(failure) => Err(failure),
                    Ok(relay_urls) => Ok(Some(ListenerPlanModel { keys, relay_urls })),
                }
            },
        }
    }
}

/// What a secret key was read as, where there is one.
pub open spec fn listener_keys(settings: ListenerSettingsModel) -> Option<
    Result<KeyPairModel, Seq<char>>,
> {
    match listener_secret(settings) {
        Some(secret) => Some(keys_read(keys_in(secret))),
        None => None,
    }
}

/// A result that may be there, as a model.
pub open spec fn keys_outcome(keys: Option<Result<KeyPair, String>>) -> Option<
    Result<KeyPairModel, Seq<char>>,
> {
    match keys {
        Some(keys) => Some(text_outcome(keys)),
        None => None,
    }
}

/// What the listener runs with, given what its secret key and each of its relays were
/// read as.
pub fn plan_listener_with(
    settings: &ListenerSettings,
    keys: Option<Result<KeyPair, String>>,
    relays: &Vec<Result<String, String>>,
) -> (plan: Result<Option<ListenerPlan>, Failure>)
    requires
        relays.len() == listener_relays(settings@).len(),
    ensures
        or_failure(plan) == listener_plan(
            settings@,
            keys_outcome(keys),
            text_outcomes(relays@),
        ),
{
    let enabled = match env_bool(&settings.enabled) {
        Some(on) => on,
        None => secret_for_listener(settings).is_some(),
    };
    if !enabled {
        return Ok(None);
    }
    let keys = match keys {
        None => {
            return Err(
                fail_plainly(
                    "agent control is enabled but no secret key found (set PIKA_AGENT_CONTROL_NOSTR_SECRET or NOSTR_SECRET_KEY)",
                ),
            );
        },
        Some(Err(cause)) => {
            return Err(fail_in("parse agent control nostr secret key", cause.as_str()));
        },
        Some(Ok(keys)) => keys,
    };
    let urls = relays_for_listener(settings);
    if urls.len() == 0 {
        return Err(
            fail_plainly(
                "agent control is enabled but no relays are configured (set PIKA_AGENT_CONTROL_RELAYS or RELAYS)",
            ),
        );
    }
    match accept_relays(&urls, relays) {
        Err(failure) => Err(failure),
        Ok(relay_urls) => Ok(Some(ListenerPlan { keys, relay_urls })),
    }
}

/// A failure that is told the same in brief and in full.
fn fail_plainly(text: &str) -> (failure: Failure)
    ensures
        failure@ == plain_failure(text@),
{
    Failure { brief: text.to_owned(), full: text.to_owned() }
}

/// What the listener runs with.
pub fn plan_listener(settings: &ListenerSettings) -> (plan: Result<Option<ListenerPlan>, Failure>)
    ensures
        or_failure(plan) == listener_plan(
            settings@,
            listener_keys(settings@),
            listener_relays(settings@).map_values(|url: Seq<char>| relay_in(url)),
        ),
{
    let keys = match secret_for_listener(settings) {
        Some(secret) => Some(parse_keys(secret.as_str())),
        None => None,
    };
    let relays = relays_read(&relays_for_listener(settings));
    plan_listener_with(settings, keys, &relays)
}

/// The commands that were seen last, oldest first.
#[derive(Debug)]
pub struct SeenEvents {
    seen: OrdSet<String>,
    order: Vec<String>,
}

impl SeenEvents {
    /// The ids of the commands, oldest first.
    pub closed spec fn ids(&self) -> Seq<Seq<char>> {
        self.order.deep_view()
    }

    #[verifier::type_invariant]
    spec fn sound(&self) -> bool {
        &&& self.seen@ == self.order.deep_view().to_set()
        &&& self.order.deep_view().no_duplicates()
        &&& self.order.len() <= EVENT_DEDUP_WINDOW
    }

    /// Nothing seen.
    pub fn new() -> (seen: Self)
        ensures
            seen.ids() == Seq::<Seq<char>>::empty(),
    {
        let order: Vec<String> = Vec::new();
        proof {
            assert(order.deep_view() =~= Seq::<Seq<char>>::empty());
            assert(order.deep_view().to_set() =~= Set::<Seq<char>>::empty());
        }
        SeenEvents { seen: OrdSet::new(), order }
    }

    /// Whether a command is new; one that is, is remembered, and the oldest is
    /// forgotten where there are too many.
    pub fn first_sight(&mut self, id: String) -> (new: bool)
        ensures
            new == !old(self).ids().contains(id@),
            final(self).ids() == after_sight(old(self).ids(), id@),
    {
        proof {
            use_type_invariant(&*self);
        }
        let ghost before = self.order.deep_view();
        let ghost model = id@;
        if self.seen.contains(&id) {
            return false;
        }
        let mut whole = SeenEvents::new();
        std::mem::swap(self, &mut whole);
        let mut seen = whole.seen;
        let mut order = whole.order;
        seen.insert(id.clone());
        order.push(id);
        proof {
            assert(order.deep_view() =~= before.push(model));
            lemma_push_to_set(before, model);
            assert forall|i: int, j: int|
                0 <= i < before.push(model).len() && 0 <= j < before.push(model).len() && i
                    != j implies before.push(model)[i] != before.push(model)[j] by {
                if i < before.len() {
                    assert(before.contains(before[i]));
                }
                if j < before.len() {
                    assert(before.contains(before[j]));
                }
            }
        }
        if order.len() > EVENT_DEDUP_WINDOW {
            let ghost all = order.deep_view();
            let oldest = order.remove(0);
            seen.remove(&oldest);
            proof {
                assert(order.deep_view() =~= all.skip(1));
                assert(oldest@ == all[0]);
                assert forall|x: Seq<char>| #[trigger]
                    all.skip(1).to_set().contains(x) == all.to_set().remove(all[0]).contains(x) by {
                    if all.skip(1).contains(x) {
                        let i = choose|i: int| 0 <= i < all.skip(1).len() && all.skip(1)[i] == x;
                        assert(all[i + 1] == x);
                    }
                    if all.contains(x) && x != all[0] {
                        let i = choose|i: int| 0 <= i < all.len() && all[i] == x;
                        assert(all.skip(1)[i - 1] == x);
                    }
                }
                assert(all.skip(1).to_set() =~= all.to_set().remove(all[0]));
            }
        }
        *self = SeenEvents { seen, order };
        true
    }

    /// Reads what came in: what is of the kind that is wanted and was not seen before is
    /// remembered and opened with a secret key. Nothing comes of anything else.
    pub fn read_event(&mut self, wanted: u16, secret: &str, event: &IncomingEvent) -> (read: Option<
        Result<String, String>,
    >)
        ensures
            read is Some <==> event@.kind == wanted && !old(self).ids().contains(event@.id),
            read matches Some(text) ==> text_outcome(text) == opened_secret(
                secret@,
                event@.sender,
                event@.content,
            ),
            final(self).ids() == if event@.kind == wanted {
                after_sight(old(self).ids(), event@.id)
            } else {
                old(self).ids()
            },
    {
        if event.kind != wanted {
            return None;
        }
        if !self.first_sight(event.id.clone()) {
            return None;
        }
        Some(open_secret(secret, event.sender.as_str(), event.content.as_str()))
    }
}

/// The commands that were seen last, after one more came.
pub open spec fn after_sight(ids: Seq<Seq<char>>, id: Seq<char>) -> Seq<Seq<char>> {
    if ids.contains(id) {
        ids
    } else if ids.len() < EVENT_DEDUP_WINDOW {
        ids.push(id)
    } else {
        ids.push(id).skip(1)
    }
}

/// A command that was just seen is not new, and at most as many are remembered as
/// the window holds.
pub proof fn seen_command_is_not_new(ids: Seq<Seq<char>>, id: Seq<char>)
    requires
        ids.len() <= EVENT_DEDUP_WINDOW,
    ensures
        after_sight(ids, id).contains(id),
        after_sight(ids, id).len() <= EVENT_DEDUP_WINDOW,
        after_sight(after_sight(ids, id), id) == after_sight(ids, id),
{
    if !ids.contains(id) {
        let all = ids.push(id);
        assert(all[ids.len() as int] == id);
        if ids.len() >= EVENT_DEDUP_WINDOW {
            assert(all.skip(1)[ids.len() - 1] == id);
        }
    }
}

/// The answer to a command that cannot be read.
pub open spec fn unreadable(request_id: Option<Seq<char>>, error: Seq<char>) -> AgentControlErrorEnvelopeModel {
    AgentControlErrorEnvelopeModel {
        schema: ERROR_SCHEMA_V1@,
        request_id: match request_id {
            Some(id) => id,
            None => "unknown-request"@,
        },
        code: "invalid_command_json"@,
        hint: Some("command payload must decode as agent.control.cmd.v1"@),
        detail: Some(error),
    }
}

/// The answer to a command that cannot be read, where its request has the given
/// id.
pub fn refuse_unreadable_for(request_id: Option<String>, error: String) -> (envelope:
    AgentControlErrorEnvelope)
    ensures
        envelope@ == unreadable(request_id.deep_view(), error@),
{
    let request_id = match request_id {
        Some(id) => id,
        None => "unknown-request".to_owned(),
    };
    AgentControlErrorEnvelope {
        schema: ERROR_SCHEMA_V1.to_owned(),
        request_id,
        code: "invalid_command_json".to_owned(),
        hint: Some("command payload must decode as agent.control.cmd.v1".to_owned()),
        detail: Some(error),
    }
}

/// The answer to a command that cannot be read.
pub fn refuse_unreadable(content: &str, error: String) -> (envelope: AgentControlErrorEnvelope)
    ensures
        envelope@ == unreadable(request_id_in(parsed_json(content@)), error@),
{
    refuse_unreadable_for(extract_request_id(content), error)
}

} // verus!
