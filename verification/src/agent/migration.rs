//! State that was written by earlier releases, brought up to date: protocols went
//! by other names, or stood alone.
use vstd::prelude::*;
use crate::agent::policy::text_outcome;
use crate::collections::{lemma_listing_of, lists, listing_of, Replicate};
use crate::json::{json_array, json_text, parse_json, parsed_json, Json, JsonModel};
use crate::text::{lower_text, same_text, to_lower, trim, trimmed};

verus! {

/// Whether a text is a name that the protocol has or had.
pub open spec fn names_protocol(raw: Seq<char>) -> bool {
    lower_text(raw) == "acp"@ || lower_text(raw) == "pi"@
}

/// The name of the protocol that a text stands for.
pub fn normalize_legacy_protocol_name(raw: &str) -> (name: Option<String>)
    ensures
        name.deep_view() == if names_protocol(raw@) {
            Some("acp"@)
        } else {
            None
        },
{
    let lower = to_lower(raw);
    if same_text(lower.as_str(), "acp") || same_text(lower.as_str(), "pi") {
        Some("acp".to_owned())
    } else {
        None
    }
}

/// An entry of a list of protocols, brought up to date.
pub open spec fn current_protocol(entry: JsonModel) -> JsonModel {
    match entry {
        JsonModel::Text(raw) if names_protocol(raw) => JsonModel::Text("acp"@),
        _ => entry,
    }
}

/// Whether an entry of a list of protocols is out of date.
pub open spec fn is_stale(entry: JsonModel) -> bool {
    entry matches JsonModel::Text(raw) && names_protocol(raw) && raw != "acp"@
}

/// A descriptor brought up to date: the entries of its list of protocols, or,
/// where it has none, a list with the one protocol it names.
pub open spec fn current_descriptor(descriptor: JsonModel) -> JsonModel {
    match descriptor.get("protocol_compatibility"@) {
        Some(JsonModel::Array(entries)) => descriptor.with(
            "protocol_compatibility"@,
            JsonModel::Array(entries.map_values(|e: JsonModel| current_protocol(e))),
        ),
        _ => match descriptor.get_text("protocol"@) {
            Some(raw) if names_protocol(raw) => descriptor.with(
                "protocol_compatibility"@,
                JsonModel::Array(seq![JsonModel::Text("acp"@)]),
            ),
            _ => descriptor,
        },
    }
}

/// How many protocols of a descriptor are out of date.
pub open spec fn stale_in_descriptor(descriptor: JsonModel) -> nat {
    match descriptor.get("protocol_compatibility"@) {
        Some(JsonModel::Array(entries)) => stale_entries(entries),
        _ => match descriptor.get_text("protocol"@) {
            Some(raw) if names_protocol(raw) && raw != "acp"@ => 1,
            _ => 0,
        },
    }
}

/// How many entries of a list of protocols are out of date.
pub open spec fn stale_entries(entries: Seq<JsonModel>) -> nat
    decreases entries.len(),
{
    if entries.len() == 0 {
        0
    } else {
        stale_entries(entries.drop_last()) + if is_stale(entries.last()) {
            1nat
        } else {
            0
        }
    }
}

/// A runtime brought up to date.
pub open spec fn current_runtime(runtime: JsonModel) -> JsonModel {
    match runtime.get("descriptor"@) {
        Some(JsonModel::Object(entries)) => runtime.with(
            "descriptor"@,
            current_descriptor(JsonModel::Object(entries)),
        ),
        _ => runtime,
    }
}

/// How many protocols of a runtime are out of date.
pub open spec fn stale_in_runtime(runtime: JsonModel) -> nat {
    match runtime.get("descriptor"@) {
        Some(JsonModel::Object(entries)) => stale_in_descriptor(JsonModel::Object(entries)),
        _ => 0,
    }
}

/// A state brought up to date.
pub open spec fn current_state(root: JsonModel) -> JsonModel {
    match root.get("runtimes"@) {
        Some(JsonModel::Object(runtimes)) => root.with(
            "runtimes"@,
            JsonModel::Object(runtimes.map_values(|r: JsonModel| current_runtime(r))),
        ),
        _ => root,
    }
}

/// How many protocols of some runtimes are out of date.
pub open spec fn stale_in(runtimes: Map<Seq<char>, JsonModel>, ids: Seq<Seq<char>>) -> nat
    decreases ids.len(),
{
    if ids.len() == 0 {
        0
    } else {
        stale_in(runtimes, ids.drop_last()) + stale_in_runtime(runtimes[ids.last()])
    }
}

/// How many protocols of a state are out of date.
pub open spec fn stale_in_state(root: JsonModel) -> nat {
    match root.get("runtimes"@) {
        Some(JsonModel::Object(runtimes)) => stale_in(
            runtimes,
            listing_of::<String>(runtimes.dom()),
        ),
        _ => 0,
    }
}

/// A count, or the largest number there is.
pub open spec fn at_most(count: nat) -> usize {
    if count > usize::MAX {
        usize::MAX
    } else {
        count as usize
    }
}

/// The sum of two counts, or the largest number there is.
fn count_up(a: usize, b: usize) -> (sum: usize)
    ensures
        forall|x: nat, y: nat|
            a == at_most(x) && b == at_most(y) ==> sum == #[trigger] at_most(x + y),
{
    if a > usize::MAX - b {
        usize::MAX
    } else {
        a + b
    }
}

/// The entries of a list of protocols, brought up to date, and how many were out
/// of date.
fn migrate_entries(entries: &Vec<Json>) -> (migrated: (Vec<Json>, usize))
    ensures
        migrated.0.deep_view() == entries.deep_view().map_values(|e: JsonModel| current_protocol(e)),
        migrated.1 == at_most(stale_entries(entries.deep_view())),
{
    let ghost all = entries.deep_view();
    let mut out: Vec<Json> = Vec::new();
    let mut count: usize = 0;
    let mut i: usize = 0;
    proof {
        assert(all.take(0) =~= Seq::empty());
    }
    while i < entries.len()
        invariant
            i <= entries.len() == all.len(),
            all == entries.deep_view(),
            out.len() == i,
            forall|j: int| 0 <= j < i ==> #[trigger] out@[j].deep_view() == current_protocol(all[j]),
            count == at_most(stale_entries(all.take(i as int))),
        decreases entries.len() - i,
    {
        proof {
            assert(all.take(i + 1).drop_last() =~= all.take(i as int));
            assert(all.take(i + 1).last() == all[i as int]);
        }
        let entry = &entries[i];
        let mut current = entry.replicate();
        let mut stale: usize = 0;
        if let Some(raw) = entry.as_text() {
            if let Some(name) = normalize_legacy_protocol_name(raw.as_str()) {
                if !same_text(raw.as_str(), name.as_str()) {
                    stale = 1;
                    current = json_text(name.as_str());
                }
            }
        }
        proof {
            assert(current@ == current_protocol(all[i as int]));
            assert(stale == at_most(if is_stale(all[i as int]) { 1nat } else { 0 }));
        }
        out.push(current);
        count = count_up(count, stale);
        i += 1;
    }
    proof {
        assert(all.take(i as int) =~= all);
        assert(out.deep_view() =~= all.map_values(|e: JsonModel| current_protocol(e)));
    }
    (out, count)
}

/// Brings a descriptor up to date; says how many of its protocols were not.
pub fn migrate_legacy_descriptor_protocols(descriptor: Json) -> (migrated: (Json, usize))
    requires
        descriptor@ is Object,
    ensures
        migrated.0@ == current_descriptor(descriptor@),
        migrated.1 == at_most(stale_in_descriptor(descriptor@)),
{
    if let Some(list) = descriptor.get("protocol_compatibility") {
        if let Some(entries) = list.items() {
            let (current, count) = migrate_entries(&entries);
            return (descriptor.with("protocol_compatibility", json_array(current)), count);
        }
    }
    let raw = match descriptor.get_text("protocol") {
        Some(raw) => raw,
        None => {
            return (descriptor, 0);
        },
    };
    let name = match normalize_legacy_protocol_name(raw.as_str()) {
        Some(name) => name,
        None => {
            return (descriptor, 0);
        },
    };
    let count: usize = if same_text(raw.as_str(), name.as_str()) {
        0
    } else {
        1
    };
    let mut one: Vec<Json> = Vec::new();
    one.push(json_text(name.as_str()));
    proof {
        assert(one.deep_view() =~= seq![JsonModel::Text("acp"@)]);
    }
    (descriptor.with("protocol_compatibility", json_array(one)), count)
}

/// Brings a runtime up to date.
fn migrate_runtime(runtime: Json) -> (migrated: (Json, usize))
    ensures
        migrated.0@ == current_runtime(runtime@),
        migrated.1 == at_most(stale_in_runtime(runtime@)),
{
    if let Some(descriptor) = runtime.get("descriptor") {
        if descriptor.is_object() {
            let (current, count) = migrate_legacy_descriptor_protocols(descriptor);
            return (runtime.with("descriptor", current), count);
        }
    }
    (runtime, 0)
}

/// Brings a state up to date; says how many protocols in it were not.
pub fn migrate_legacy_protocol_values(root: Json) -> (migrated: (Json, usize))
    ensures
        migrated.0@ == current_state(root@),
        migrated.1 == at_most(stale_in_state(root@)),
{
    let runtimes = match root.get("runtimes") {
        Some(runtimes) => runtimes,
        None => {
            return (root, 0);
        },
    };
    let keys = match runtimes.keys() {
        Some(keys) => keys,
        None => {
            return (root, 0);
        },
    };
    let ghost start = runtimes@->Object_0;
    let ghost ids = keys.deep_view();
    let ghost f = |r: JsonModel| current_runtime(r);
    let mut current = runtimes;
    let mut count: usize = 0;
    let mut i: usize = 0;
    proof {
        lemma_listing_of::<String>(ids, start.dom());
        crate::collections::lemma_increasing_no_duplicates::<String>(ids);
        assert(ids.take(0) =~= Seq::empty());
    }
    while i < keys.len()
        invariant
            i <= keys.len() == ids.len(),
            ids == keys.deep_view(),
            ids.no_duplicates(),
            lists::<String>(ids, start.dom()),
            f == (|r: JsonModel| current_runtime(r)),
            current@ is Object,
            current@->Object_0.dom() == start.dom(),
            forall|j: int| 0 <= j < i ==> #[trigger] current@->Object_0[ids[j]] == f(start[ids[j]]),
            forall|j: int| i <= j < ids.len() ==> #[trigger] current@->Object_0[ids[j]] == start[ids[j]],
            count == at_most(stale_in(start, ids.take(i as int))),
        decreases keys.len() - i,
    {
        let ghost before = current@->Object_0;
        let ghost id = ids[i as int];
        proof {
            assert(ids.take(i + 1).drop_last() =~= ids.take(i as int));
            assert(ids.take(i + 1).last() == id);
            assert(ids.contains(id));
            assert(before.contains_key(id));
            assert(before[ids[i as int]] == start[ids[i as int]]);
        }
        if let Some(runtime) = current.get(keys[i].as_str()) {
            let (migrated, stale) = migrate_runtime(runtime);
            current = current.with(keys[i].as_str(), migrated);
            count = count_up(count, stale);
        }
        proof {
            assert(current@->Object_0.dom() =~= start.dom());
            assert forall|j: int| 0 <= j < i + 1 implies #[trigger] current@->Object_0[ids[j]]
                == f(start[ids[j]]) by {
                if j < i {
                    assert(before[ids[j]] == f(start[ids[j]]));
                }
            }
            assert forall|j: int| i + 1 <= j < ids.len() implies #[trigger] current@->Object_0[ids[j]]
                == start[ids[j]] by {
                assert(before[ids[j]] == start[ids[j]]);
            }
        }
        i += 1;
    }
    proof {
        assert(ids.take(i as int) =~= ids);
        assert forall|id: Seq<char>| #[trigger] start.contains_key(id) implies current@->Object_0[id]
            == f(start[id]) by {
            assert(ids.contains(id));
            let j = choose|j: int| 0 <= j < ids.len() && ids[j] == id;
            assert(current@->Object_0[ids[j]] == f(start[ids[j]]));
        }
        assert(current@->Object_0 =~= start.map_values(f));
    }
    (root.with("runtimes", current), count)
}

/// A state that was read, brought up to date, and how many protocols in it were not.
pub open spec fn state_read(raw: Result<JsonModel, Seq<char>>) -> Result<
    (JsonModel, usize),
    Seq<char>,
> {
    match raw {
        Ok(root) => Ok((current_state(root), at_most(stale_in_state(root)))),
        Err(complaint) => Err(complaint),
    }
}

/// Brings a state that was read up to date; says how many protocols in it were not.
pub fn migrate_read_state(raw: Result<Json, String>) -> (state: Result<(Json, usize), String>)
    ensures
        text_outcome(state) == state_read(text_outcome(raw)),
{
    match raw {
        Ok(root) => Ok(migrate_legacy_protocol_values(root)),
        Err(complaint) => Err(complaint),
    }
}

/// Reads a state that was written to disk and brings it up to date; says how many
/// protocols in it were not. There is none where nothing was written.
pub fn read_state(data: &str) -> (state: Option<Result<(Json, usize), String>>)
    ensures
        state is None <==> trimmed(data@).len() == 0,
        state matches Some(read) ==> text_outcome(read) == state_read(parsed_json(data@)),
{
    if trim(data).as_str().is_empty() {
        return None;
    }
    Some(migrate_read_state(parse_json(data)))
}

/// A list of protocols that is up to date stays as it is, so bringing it up to
/// date twice is the same as once.
pub proof fn migrating_twice_is_once(entry: JsonModel)
    ensures
        current_protocol(current_protocol(entry)) == current_protocol(entry),
        !is_stale(current_protocol(entry)),
{
    reveal_strlit("acp");
    assert(lower_text("acp"@) =~= "acp"@);
}

} // verus!
