//! When the listener runs, what it has seen, and what it reads from disk.
use vstd::prelude::*;
use crate::agent::keys::KeyPairModel;
use crate::agent::listener::{
    after_sight, listener_plan, listener_relays, listener_secret, read_relays, unreadable,
    ListenerSettingsModel, EVENT_DEDUP_WINDOW,
};
use crate::agent::metadata::request_id_in;
use crate::agent::migration::{
    current_descriptor, current_protocol, current_state, is_stale, stale_entries,
    stale_in_descriptor,
};
use crate::agent::policy::{list_entries, switch_in};
use crate::agent::policy_laws::said;
use crate::json::JsonModel;
use crate::text::{lower_text, split_at, trimmed};

verus! {

/// The secret key is the listener's own, or else the shared one, and the relays likewise.
pub proof fn own_settings_come_first(settings: ListenerSettingsModel)
    ensures
        ({
            let raw = if settings.secret is Some {
                settings.secret
            } else {
                settings.shared_secret
            };
            let relays = if settings.relays is Some {
                settings.relays
            } else {
                settings.shared_relays
            };
            &&& said(raw) ==> listener_secret(settings) == Some(trimmed(raw->0))
            &&& !said(raw) ==> listener_secret(settings) is None
            &&& relays is Some ==> listener_relays(settings) == list_entries(
                split_at(relays->0, ','),
            )
        }),
{
}

/// The listener runs where that is switched on, and, where that is left open, where there
/// is a secret key; it does not run where it is switched off. To run it needs a secret
/// key that is one, and then relays that are; what is wrong first is told.
pub proof fn listener_runs_where_it_can(
    settings: ListenerSettingsModel,
    keys: Option<Result<KeyPairModel, Seq<char>>>,
    relays: Seq<Result<Seq<char>, Seq<char>>>,
)
    ensures
        ({
            let plan = listener_plan(settings, keys, relays);
            let switch = switch_in(settings.enabled);
            let on = switch == Some(true) || (switch is None && listener_secret(settings) is Some);
            let urls = listener_relays(settings);
            let good = keys is Some && keys->0 is Ok;
            &&& !on ==> plan is Ok && plan->Ok_0 is None
            &&& on && keys is None ==> plan is Err
            &&& on && keys is Some && keys->0 is Err ==> plan is Err && plan->Err_0.brief
                == "parse agent control nostr secret key"@ && plan->Err_0.full
                == "parse agent control nostr secret key"@ + ": "@ + keys->0->Err_0
            &&& on && good && urls.len() == 0 ==> plan is Err
            &&& on && good && urls.len() > 0 && read_relays(urls, relays) is Err ==> plan is Err
                && plan->Err_0 == read_relays(urls, relays)->Err_0
            &&& on && good && urls.len() > 0 && read_relays(urls, relays) is Ok ==> plan is Ok
                && plan->Ok_0 is Some && plan->Ok_0->0.keys == keys->0->Ok_0
                && plan->Ok_0->0.relay_urls == read_relays(urls, relays)->Ok_0
        }),
{
}

/// Relays that can all be read are read in order; the first that cannot is told.
pub proof fn relays_are_read_in_order(
    urls: Seq<Seq<char>>,
    relays: Seq<Result<Seq<char>, Seq<char>>>,
)
    requires
        urls.len() == relays.len(),
    ensures
        (forall|i: int| 0 <= i < relays.len() ==> #[trigger] relays[i] is Ok) ==> read_relays(
            urls,
            relays,
        ) is Ok && read_relays(urls, relays)->Ok_0.len() == urls.len() && forall|i: int|
            0 <= i < urls.len() ==> #[trigger] read_relays(urls, relays)->Ok_0[i]
                == relays[i]->Ok_0,
        forall|i: int|
            0 <= i < relays.len() && #[trigger] relays[i] is Err && (forall|j: int|
                0 <= j < i ==> #[trigger] relays[j] is Ok) ==> read_relays(urls, relays) is Err
                && read_relays(urls, relays)->Err_0.brief == "parse relay url "@ + urls[i]
                && read_relays(urls, relays)->Err_0.full == "parse relay url "@ + urls[i] + ": "@
                + relays[i]->Err_0,
    decreases urls.len(),
{
    if urls.len() > 0 {
        let n = urls.len() - 1;
        let rest_urls = urls.drop_last();
        let rest = relays.drop_last();
        relays_are_read_in_order(rest_urls, rest);
        if forall|i: int| 0 <= i < relays.len() ==> #[trigger] relays[i] is Ok {
            assert forall|i: int| 0 <= i < rest.len() implies #[trigger] rest[i] is Ok by {
                assert(relays[i] is Ok);
            }
            assert(relays[n] is Ok);
            assert forall|i: int| 0 <= i < urls.len() implies #[trigger] read_relays(
                urls,
                relays,
            )->Ok_0[i] == relays[i]->Ok_0 by {
                if i < n {
                    assert(read_relays(rest_urls, rest)->Ok_0[i] == rest[i]->Ok_0);
                }
            }
        }
        assert forall|i: int|
            0 <= i < relays.len() && #[trigger] relays[i] is Err && (forall|j: int|
                0 <= j < i ==> #[trigger] relays[j] is Ok) implies read_relays(urls, relays) is Err
            && read_relays(urls, relays)->Err_0.brief == "parse relay url "@ + urls[i]
            && read_relays(urls, relays)->Err_0.full == "parse relay url "@ + urls[i] + ": "@
            + relays[i]->Err_0 by {
            if i < n {
                assert(rest[i] is Err);
                assert forall|j: int| 0 <= j < i implies #[trigger] rest[j] is Ok by {
                    assert(relays[j] is Ok);
                }
                assert(rest_urls[i] == urls[i]);
            } else {
                assert forall|j: int| 0 <= j < rest.len() implies #[trigger] rest[j] is Ok by {
                    assert(relays[j] is Ok);
                }
            }
        }
    }
}

/// The window of what was seen holds the last events, the newest at its end; an event
/// that was seen changes nothing, and the oldest goes when the window is full.
pub proof fn window_holds_the_last_events(ids: Seq<Seq<char>>, id: Seq<char>, i: int)
    requires
        ids.len() <= 8192,
    ensures
        EVENT_DEDUP_WINDOW == 8192,
        ids.contains(id) ==> after_sight(ids, id) == ids,
        !ids.contains(id) ==> after_sight(ids, id).last() == id && after_sight(ids, id).len()
            == if ids.len() < 8192 {
            ids.len() + 1
        } else {
            8192
        },
        !ids.contains(id) && 0 <= i < ids.len() && ids.len() < 8192 ==> after_sight(ids, id)[i]
            == ids[i],
        !ids.contains(id) && 0 < i < ids.len() && ids.len() == 8192 ==> after_sight(ids, id)[i - 1]
            == ids[i],
{
}

/// What cannot be read is answered under the request it names, or as unknown.
pub proof fn unreadable_is_answered(id: Seq<char>, error: Seq<char>, json: JsonModel)
    ensures
        unreadable(Some(id), error).request_id == id,
        unreadable(None, error).request_id == "unknown-request"@,
        unreadable(Some(id), error).code == "invalid_command_json"@,
        unreadable(Some(id), error).detail == Some(error),
        unreadable(Some(id), error).schema == "agent.control.error.v1"@,
        request_id_in(Err(error)) is None,
        request_id_in(Ok(json)) == json.get_text("request_id"@),
{
}

/// The names that a protocol has or had are brought to the one it has; everything else
/// in a list of protocols stays.
pub proof fn old_names_are_replaced(raw: Seq<char>, entry: JsonModel)
    ensures
        lower_text(raw) == "pi"@ || lower_text(raw) == "acp"@ ==> current_protocol(
            JsonModel::Text(raw),
        ) == JsonModel::Text("acp"@),
        lower_text(raw) != "pi"@ && lower_text(raw) != "acp"@ ==> current_protocol(
            JsonModel::Text(raw),
        ) == JsonModel::Text(raw),
        !(entry is Text) ==> current_protocol(entry) == entry,
        is_stale(entry) <==> current_protocol(entry) != entry,
{
}

/// A list of protocols is brought up to date entry by entry; a descriptor without one
/// gets one from the protocol it names, and is left alone where it names none.
pub proof fn descriptor_gets_current_protocols(descriptor: JsonModel, i: int)
    requires
        descriptor is Object,
    ensures
        ({
            let list = descriptor.get("protocol_compatibility"@);
            let after = current_descriptor(descriptor).get("protocol_compatibility"@);
            let named = descriptor.get_text("protocol"@);
            let old = named is Some && (lower_text(named->0) == "pi"@ || lower_text(named->0)
                == "acp"@);
            &&& list is Some && list->0 is Array ==> after is Some && after->0 is Array
                && after->0->Array_0.len() == list->0->Array_0.len() && (0 <= i
                < list->0->Array_0.len() ==> after->0->Array_0[i] == current_protocol(
                list->0->Array_0[i],
            ))
            &&& !(list is Some && list->0 is Array) && old ==> after == Some(
                JsonModel::Array(seq![JsonModel::Text("acp"@)]),
            )
            &&& !(list is Some && list->0 is Array) && !old ==> current_descriptor(descriptor)
                == descriptor
            &&& forall|key: Seq<char>|
                key != "protocol_compatibility"@ ==> #[trigger] current_descriptor(descriptor).get(
                    key,
                ) == descriptor.get(key)
        }),
{
}

/// Every runtime of a state is brought up to date, in its descriptor alone; nothing else
/// of the state is touched.
pub proof fn state_gets_current_runtimes(root: JsonModel, id: Seq<char>)
    requires
        root is Object,
    ensures
        ({
            let runtimes = root.get("runtimes"@);
            let after = current_state(root).get("runtimes"@);
            let there = runtimes is Some && runtimes->0 is Object;
            let runtime = runtimes->0->Object_0[id];
            let descriptor = runtime.get("descriptor"@);
            &&& !there ==> current_state(root) == root
            &&& there ==> after is Some && after->0 is Object && (
            after->0->Object_0.contains_key(id) <==> runtimes->0->Object_0.contains_key(id))
            &&& there && runtimes->0->Object_0.contains_key(id) && descriptor is Some
                && descriptor->0 is Object ==> after->0->Object_0[id].get("descriptor"@) == Some(
                current_descriptor(descriptor->0),
            )
            &&& there && runtimes->0->Object_0.contains_key(id) && !(descriptor is Some
                && descriptor->0 is Object) ==> after->0->Object_0[id] == runtime
            &&& forall|key: Seq<char>|
                key != "runtimes"@ ==> #[trigger] current_state(root).get(key) == root.get(key)
        }),
{
}

/// What is out of date is counted: each entry of a list of protocols that is brought to
/// another name, and a protocol that stands alone under an old one.
pub proof fn stale_protocols_are_counted(descriptor: JsonModel, entries: Seq<JsonModel>)
    ensures
        stale_entries(entries) == 0 <==> forall|i: int|
            0 <= i < entries.len() ==> current_protocol(#[trigger] entries[i]) == entries[i],
        stale_entries(entries) <= entries.len(),
        ({
            let list = descriptor.get("protocol_compatibility"@);
            let named = descriptor.get_text("protocol"@);
            &&& list is Some && list->0 is Array ==> stale_in_descriptor(descriptor)
                == stale_entries(list->0->Array_0)
            &&& !(list is Some && list->0 is Array) ==> stale_in_descriptor(descriptor) == if (
            named is Some && named->0 != "acp"@ && (lower_text(named->0) == "pi"@ || lower_text(
                named->0,
            ) == "acp"@)) {
                1nat
            } else {
                0
            }
        }),
{
    lemma_stale(entries);
}

proof fn lemma_stale(entries: Seq<JsonModel>)
    ensures
        stale_entries(entries) == 0 <==> forall|i: int|
            0 <= i < entries.len() ==> current_protocol(#[trigger] entries[i]) == entries[i],
        stale_entries(entries) <= entries.len(),
    decreases entries.len(),
{
    if entries.len() > 0 {
        let rest = entries.drop_last();
        lemma_stale(rest);
        old_names_are_replaced(Seq::empty(), entries.last());
        if forall|i: int|
            0 <= i < entries.len() ==> current_protocol(#[trigger] entries[i]) == entries[i] {
            assert forall|i: int| 0 <= i < rest.len() implies current_protocol(#[trigger] rest[i])
                == rest[i] by {
                assert(current_protocol(entries[i]) == entries[i]);
            }
            assert(current_protocol(entries[entries.len() - 1]) == entries[entries.len() - 1]);
        }
        if stale_entries(entries) == 0 {
            assert forall|i: int| 0 <= i < entries.len() implies current_protocol(
                #[trigger] entries[i],
            ) == entries[i] by {
                if i < rest.len() {
                    assert(rest[i] == entries[i]);
                }
            }
        }
    }
}

} // verus!
