//! What the control plane keeps: runtimes, builds, artifacts, the audit log, and
//! the answers to commands that may be repeated.
use vstd::prelude::*;
use crate::agent::metadata::{is_due, runtime_due_for_reaper};
use crate::agent::policy::{
    add_capped, capped_sum, larger, larger_of, DEFAULT_BUILD_TIMEOUT_SECS,
};
use crate::agent::types::{
    ArtifactRecord, ArtifactRecordModel, AuditEvent, AuditEventModel, BuildRecord,
    BuildRecordModel, CachedTerminal, CachedTerminalModel, RuntimeLifecyclePhase, RuntimeRecord,
    RuntimeRecordModel,
};
use crate::collections::{lemma_listing_of, lemma_take_next, listing_of, OrdMap, OrdSet, Replicate};
use crate::json::{json_object, json_uint, Json, JsonModel};

verus! {

/// What the control plane keeps.
#[derive(Debug, PartialEq, Eq)]
pub struct AgentControlState {
    pub runtimes: OrdMap<String, RuntimeRecord>,
    pub builds: OrdMap<String, BuildRecord>,
    pub artifacts: OrdMap<String, ArtifactRecord>,
    pub audit_log: Vec<AuditEvent>,
    pub idempotency: OrdMap<(String, String), CachedTerminal>,
    /// The keys of the answers, the oldest first.
    pub idempotency_order: Vec<(String, String)>,
}

/// What a [`AgentControlState`] holds.
#[verifier::ext_equal]
pub struct AgentControlStateModel {
    pub runtimes: Map<Seq<char>, RuntimeRecordModel>,
    pub builds: Map<Seq<char>, BuildRecordModel>,
    pub artifacts: Map<Seq<char>, ArtifactRecordModel>,
    pub audit_log: Seq<AuditEventModel>,
    pub idempotency: Map<(Seq<char>, Seq<char>), CachedTerminalModel>,
    pub idempotency_order: Seq<(Seq<char>, Seq<char>)>,
}

impl DeepView for AgentControlState {
    type V = AgentControlStateModel;

    open spec fn deep_view(&self) -> AgentControlStateModel {
        AgentControlStateModel {
            runtimes: self.runtimes.deep_view(),
            builds: self.builds.deep_view(),
            artifacts: self.artifacts.deep_view(),
            audit_log: self.audit_log.deep_view(),
            idempotency: self.idempotency.deep_view(),
            idempotency_order: self.idempotency_order.deep_view(),
        }
    }
}

impl View for AgentControlState {
    type V = AgentControlStateModel;

    open spec fn view(&self) -> AgentControlStateModel {
        self.deep_view()
    }
}

impl Replicate for AgentControlState {
    fn replicate(&self) -> (copy: Self) {
        AgentControlState {
            runtimes: self.runtimes.replicate(),
            builds: self.builds.replicate(),
            artifacts: self.artifacts.replicate(),
            audit_log: self.audit_log.replicate(),
            idempotency: self.idempotency.replicate(),
            idempotency_order: self.idempotency_order.replicate(),
        }
    }
}

impl Clone for AgentControlState {
    fn clone(&self) -> (copy: Self)
        ensures
            copy@ == self@,
    {
        self.replicate()
    }
}

/// An answer as it is written to disk.
#[derive(Debug, PartialEq, Eq)]
pub struct PersistedIdempotencyEntry {
    pub requester_pubkey_hex: String,
    pub idempotency_key: String,
    pub terminal: CachedTerminal,
}

/// What a [`PersistedIdempotencyEntry`] holds.
#[verifier::ext_equal]
pub struct PersistedIdempotencyEntryModel {
    pub requester_pubkey_hex: Seq<char>,
    pub idempotency_key: Seq<char>,
    pub terminal: CachedTerminalModel,
}

impl DeepView for PersistedIdempotencyEntry {
    type V = PersistedIdempotencyEntryModel;

    open spec fn deep_view(&self) -> PersistedIdempotencyEntryModel {
        PersistedIdempotencyEntryModel {
            requester_pubkey_hex: self.requester_pubkey_hex.deep_view(),
            idempotency_key: self.idempotency_key.deep_view(),
            terminal: self.terminal.deep_view(),
        }
    }
}

impl View for PersistedIdempotencyEntry {
    type V = PersistedIdempotencyEntryModel;

    open spec fn view(&self) -> PersistedIdempotencyEntryModel {
        self.deep_view()
    }
}

impl Replicate for PersistedIdempotencyEntry {
    fn replicate(&self) -> (copy: Self) {
        PersistedIdempotencyEntry {
            requester_pubkey_hex: self.requester_pubkey_hex.replicate(),
            idempotency_key: self.idempotency_key.replicate(),
            terminal: self.terminal.replicate(),
        }
    }
}

impl Clone for PersistedIdempotencyEntry {
    fn clone(&self) -> (copy: Self)
        ensures
            copy@ == self@,
    {
        self.replicate()
    }
}

/// What is written to disk.
#[derive(Debug, PartialEq, Eq)]
pub struct PersistedControlState {
    pub runtimes: OrdMap<String, RuntimeRecord>,
    pub builds: OrdMap<String, BuildRecord>,
    pub artifacts: OrdMap<String, ArtifactRecord>,
    pub audit_log: Vec<AuditEvent>,
    pub idempotency: Vec<PersistedIdempotencyEntry>,
}

/// What a [`PersistedControlState`] holds.
#[verifier::ext_equal]
pub struct PersistedControlStateModel {
    pub runtimes: Map<Seq<char>, RuntimeRecordModel>,
    pub builds: Map<Seq<char>, BuildRecordModel>,
    pub artifacts: Map<Seq<char>, ArtifactRecordModel>,
    pub audit_log: Seq<AuditEventModel>,
    pub idempotency: Seq<PersistedIdempotencyEntryModel>,
}

impl DeepView for PersistedControlState {
    type V = PersistedControlStateModel;

    open spec fn deep_view(&self) -> PersistedControlStateModel {
        PersistedControlStateModel {
            runtimes: self.runtimes.deep_view(),
            builds: self.builds.deep_view(),
            artifacts: self.artifacts.deep_view(),
            audit_log: self.audit_log.deep_view(),
            idempotency: self.idempotency.deep_view(),
        }
    }
}

impl View for PersistedControlState {
    type V = PersistedControlStateModel;

    open spec fn view(&self) -> PersistedControlStateModel {
        self.deep_view()
    }
}

impl Replicate for PersistedControlState {
    fn replicate(&self) -> (copy: Self) {
        PersistedControlState {
            runtimes: self.runtimes.replicate(),
            builds: self.builds.replicate(),
            artifacts: self.artifacts.replicate(),
            audit_log: self.audit_log.replicate(),
            idempotency: self.idempotency.replicate(),
        }
    }
}

impl Clone for PersistedControlState {
    fn clone(&self) -> (copy: Self)
        ensures
            copy@ == self@,
    {
        self.replicate()
    }
}

/// Nothing kept.
pub open spec fn no_agent_state() -> AgentControlStateModel {
    AgentControlStateModel {
        runtimes: Map::empty(),
        builds: Map::empty(),
        artifacts: Map::empty(),
        audit_log: Seq::empty(),
        idempotency: Map::empty(),
        idempotency_order: Seq::empty(),
    }
}

impl Default for AgentControlState {
    fn default() -> (state: Self)
        ensures
            state@ == no_agent_state(),
    {
        let state = AgentControlState {
            runtimes: OrdMap::new(),
            builds: OrdMap::new(),
            artifacts: OrdMap::new(),
            audit_log: Vec::new(),
            idempotency: OrdMap::new(),
            idempotency_order: Vec::new(),
        };
        proof {
            assert(state@.audit_log =~= Seq::empty());
            assert(state@.idempotency_order =~= Seq::empty());
        }
        state
    }
}

/// The state after the oldest answers were forgotten until no more than `max` are
/// left.
pub open spec fn truncated(state: AgentControlStateModel, max: nat) -> AgentControlStateModel
    decreases state.idempotency_order.len(),
{
    if state.idempotency_order.len() > max {
        truncated(
            AgentControlStateModel {
                idempotency: state.idempotency.remove(state.idempotency_order[0]),
                idempotency_order: state.idempotency_order.drop_first(),
                ..state
            },
            max,
        )
    } else {
        state
    }
}

/// Every key but one.
pub open spec fn other_than(key: (Seq<char>, Seq<char>)) -> spec_fn((Seq<char>, Seq<char>)) -> bool {
    |k: (Seq<char>, Seq<char>)| k != key
}

/// The state after an answer was kept as the newest, and the oldest forgotten
/// until no more than `max` are left.
pub open spec fn remembered(
    state: AgentControlStateModel,
    key: (Seq<char>, Seq<char>),
    terminal: CachedTerminalModel,
    max: nat,
) -> AgentControlStateModel {
    let others = if state.idempotency.contains_key(key) {
        state.idempotency_order.filter(other_than(key))
    } else {
        state.idempotency_order
    };
    truncated(
        AgentControlStateModel {
            idempotency: state.idempotency.insert(key, terminal),
            idempotency_order: others.push(key),
            ..state
        },
        max,
    )
}

/// The last `n` of a sequence, or all of it.
pub open spec fn last_of<A>(s: Seq<A>, n: nat) -> Seq<A> {
    if s.len() <= n {
        s
    } else {
        s.skip(s.len() - n)
    }
}

/// A line of the audit log.
pub open spec fn audit_event(
    ts: u64,
    actor: Seq<char>,
    action: Seq<char>,
    outcome: Seq<char>,
    detail: JsonModel,
) -> AuditEventModel {
    AuditEventModel { ts, actor_pubkey_hex: actor, action, outcome, detail }
}

/// The state with one more line in the audit log, which keeps the last `max`.
pub open spec fn audited(
    state: AgentControlStateModel,
    event: AuditEventModel,
    max: nat,
) -> AgentControlStateModel {
    AgentControlStateModel { audit_log: last_of(state.audit_log.push(event), max), ..state }
}

/// A runtime with a lease, where it had none or an impossible one.
pub open spec fn with_lease(runtime: RuntimeRecordModel, now: u64, ttl_secs: u64) -> RuntimeRecordModel {
    let created_at = if runtime.created_at == 0 {
        now
    } else {
        runtime.created_at
    };
    RuntimeRecordModel {
        created_at,
        expires_at: if runtime.expires_at == 0 || runtime.expires_at < created_at {
            capped_sum(created_at, ttl_secs)
        } else {
            runtime.expires_at
        },
        ..runtime
    }
}

/// How many fields of the lease were missing or impossible.
pub open spec fn lease_gaps(runtime: RuntimeRecordModel, now: u64) -> nat {
    let created_at = if runtime.created_at == 0 {
        now
    } else {
        runtime.created_at
    };
    (if runtime.created_at == 0 {
        1nat
    } else {
        0
    }) + (if runtime.expires_at == 0 || runtime.expires_at < created_at {
        1nat
    } else {
        0
    })
}

/// A build with the times that older records lack.
pub open spec fn with_build_times(build: BuildRecordModel, now: u64) -> BuildRecordModel {
    let timeout_sec = if build.timeout_sec == 0 {
        DEFAULT_BUILD_TIMEOUT_SECS
    } else {
        build.timeout_sec
    };
    let from = larger(build.created_at as int, now as int) as u64;
    BuildRecordModel {
        updated_at: if build.updated_at == 0 {
            from
        } else {
            build.updated_at
        },
        timeout_sec,
        deadline_at: if build.deadline_at == 0 {
            capped_sum(from, larger(timeout_sec as int, 60) as u64)
        } else {
            build.deadline_at
        },
        ..build
    }
}

/// How many times a build lacked.
pub open spec fn build_gaps(build: BuildRecordModel) -> nat {
    (if build.updated_at == 0 {
        1nat
    } else {
        0
    }) + (if build.timeout_sec == 0 {
        1nat
    } else {
        0
    }) + (if build.deadline_at == 0 {
        1nat
    } else {
        0
    })
}

/// An artifact with the times that older records lack.
pub open spec fn with_artifact_times(artifact: ArtifactRecordModel, now: u64, ttl_secs: u64) -> ArtifactRecordModel {
    let from = larger(artifact.created_at as int, now as int) as u64;
    ArtifactRecordModel {
        last_used_at: if artifact.last_used_at == 0 {
            from
        } else {
            artifact.last_used_at
        },
        expires_at: if artifact.expires_at == 0 {
            capped_sum(from, larger(ttl_secs as int, 60) as u64)
        } else {
            artifact.expires_at
        },
        ..artifact
    }
}

/// How many times an artifact lacked.
pub open spec fn artifact_gaps(artifact: ArtifactRecordModel) -> nat {
    (if artifact.last_used_at == 0 {
        1nat
    } else {
        0
    }) + (if artifact.expires_at == 0 {
        1nat
    } else {
        0
    })
}

/// The sum of a count over the values of a map, for some of its keys.
pub open spec fn total<V>(map: Map<Seq<char>, V>, keys: Seq<Seq<char>>, count: spec_fn(V) -> nat) -> nat
    decreases keys.len(),
{
    if keys.len() == 0 {
        0
    } else {
        total(map, keys.drop_last(), count) + count(map[keys.last()])
    }
}

proof fn lemma_total_bound<V>(map: Map<Seq<char>, V>, keys: Seq<Seq<char>>, count: spec_fn(V) -> nat, most: nat)
    requires
        forall|v: V| #[trigger] count(v) <= most,
    ensures
        total(map, keys, count) <= keys.len() * most,
    decreases keys.len(),
{
    if keys.len() > 0 {
        lemma_total_bound(map, keys.drop_last(), count, most);
        assert(keys.len() * most == (keys.len() - 1) * most + most) by (nonlinear_arith);
    }
}

/// Whether an artifact is what a runtime runs that was not torn down.
pub open spec fn artifact_in_use(
    runtimes: Map<Seq<char>, RuntimeRecordModel>,
    artifact_ref: Seq<char>,
) -> bool {
    exists|id: Seq<char>| #[trigger]
        runtimes.contains_key(id) && runtimes[id].descriptor.lifecycle_phase
            != RuntimeLifecyclePhase::Teardown && runtimes[id].descriptor.metadata.get_text(
            "artifact_ref"@,
        ) == Some(artifact_ref)
}

/// The artifacts that are kept: those in use, and those that have not expired.
pub open spec fn kept_artifacts(state: AgentControlStateModel, now: u64) -> Map<
    Seq<char>,
    ArtifactRecordModel,
> {
    state.artifacts.restrict(
        Set::new(
            |artifact_ref: Seq<char>|
                state.artifacts.contains_key(artifact_ref) && (artifact_in_use(
                    state.runtimes,
                    artifact_ref,
                ) || state.artifacts[artifact_ref].expires_at > now),
        ),
    )
}

impl AgentControlState {
    /// Forgets the oldest answers until no more than `max_entries` are left.
    pub fn truncate_idempotency(&mut self, max_entries: usize)
        ensures
            final(self)@ == truncated(old(self)@, max_entries as nat),
    {
        while self.idempotency_order.len() > max_entries
            invariant
                truncated(self@, max_entries as nat) == truncated(old(self)@, max_entries as nat),
            decreases self.idempotency_order.len(),
        {
            let ghost before = self@;
            let oldest = self.idempotency_order.remove(0);
            let _ = self.idempotency.take(&oldest);
            proof {
                assert(self@.idempotency_order =~= before.idempotency_order.drop_first());
            }
        }
    }

    /// Keeps an answer as the newest.
    pub fn insert_idempotency(
        &mut self,
        key: (String, String),
        terminal: CachedTerminal,
        max_entries: usize,
    )
        ensures
            final(self)@ == remembered(
                old(self)@,
                key.deep_view(),
                terminal@,
                max_entries as nat,
            ),
    {
        if self.idempotency.contains_key(&key) {
            self.forget_place(&key);
        }
        let ghost before = self@;
        let ghost k = key.deep_view();
        self.idempotency.insert(key.replicate(), terminal);
        self.idempotency_order.push(key);
        proof {
            assert(self@.idempotency_order =~= before.idempotency_order.push(k));
        }
        self.truncate_idempotency(max_entries);
    }

    /// Takes a key out of the order of the answers.
    fn forget_place(&mut self, key: &(String, String))
        ensures
            final(self)@ == (AgentControlStateModel {
                idempotency_order: old(self)@.idempotency_order.filter(
                    other_than(key.deep_view()),
                ),
                ..old(self)@
            }),
    {
        let ghost all = self@.idempotency_order;
        let ghost keep = other_than(key.deep_view());
        let mut rest: Vec<(String, String)> = Vec::new();
        let mut i: usize = 0;
        proof {
            reveal(Seq::filter);
            assert(rest.deep_view() =~= all.take(0).filter(keep));
        }
        while i < self.idempotency_order.len()
            invariant
                i <= self.idempotency_order.len(),
                self@ == old(self)@,
                all == self@.idempotency_order,
                keep == other_than(key.deep_view()),
                rest.deep_view() == all.take(i as int).filter(keep),
            decreases self.idempotency_order.len() - i,
        {
            let existing = &self.idempotency_order[i];
            let ghost before = rest.deep_view();
            proof {
                assert(all.take(i + 1) =~= all.take(i as int).push(all[i as int]));
                all.take(i as int).lemma_filter_push(all[i as int], keep);
            }
            if existing.0 != key.0 || existing.1 != key.1 {
                let copy = existing.replicate();
                let ghost added = copy.deep_view();
                rest.push(copy);
                proof {
                    assert(rest.deep_view() =~= before.push(added));
                }
            }
            i += 1;
        }
        proof {
            assert(all.take(i as int) =~= all);
        }
        self.idempotency_order = rest;
    }

    /// Adds a line to the audit log, which keeps the last `max_entries`.
    pub fn push_audit_event(
        &mut self,
        ts: u64,
        actor_pubkey_hex: &str,
        action: &str,
        outcome: &str,
        detail: Json,
        max_entries: usize,
    )
        ensures
            final(self)@ == audited(
                old(self)@,
                audit_event(ts, actor_pubkey_hex@, action@, outcome@, detail@),
                max_entries as nat,
            ),
    {
        let ghost before = self@.audit_log;
        let event = AuditEvent {
            ts,
            actor_pubkey_hex: actor_pubkey_hex.to_owned(),
            action: action.to_owned(),
            outcome: outcome.to_owned(),
            detail,
        };
        let ghost added = event@;
        self.audit_log.push(event);
        let ghost all = before.push(added);
        proof {
            assert(self@.audit_log =~= all);
            assert(all.skip(0) =~= all);
        }
        let ghost mut dropped: int = 0;
        while self.audit_log.len() > max_entries
            invariant
                all == before.push(added),
                0 <= dropped <= all.len(),
                self@.audit_log == all.skip(dropped),
                dropped > 0 ==> all.len() - dropped >= max_entries,
                self@ == (AgentControlStateModel { audit_log: self@.audit_log, ..old(self)@ }),
            decreases self.audit_log.len(),
        {
            let ghost current = self@.audit_log;
            let _ = self.audit_log.remove(0);
            proof {
                assert(self@.audit_log =~= current.skip(1));
                assert(all.skip(dropped).skip(1) =~= all.skip(dropped + 1));
                dropped = dropped + 1;
            }
        }
        proof {
            assert(self@.audit_log == last_of(all, max_entries as nat));
        }
    }

    /// Gives runtimes of older records a lease; says how many fields were missing.
    pub fn ensure_runtime_lease_fields(&mut self, now: u64, ttl_secs: u64) -> (migrated: usize)
        requires
            2 * old(self)@.runtimes.dom().len() <= usize::MAX,
        ensures
            final(self)@ == (AgentControlStateModel {
                runtimes: old(self)@.runtimes.map_values(
                    |r: RuntimeRecordModel| with_lease(r, now, ttl_secs),
                ),
                ..old(self)@
            }),
            migrated == total(
                old(self)@.runtimes,
                listing_of::<String>(old(self)@.runtimes.dom()),
                |r: RuntimeRecordModel| lease_gaps(r, now),
            ),
    {
        let ghost start = self@.runtimes;
        let ids = self.runtimes.key_set();
        let n: usize = ids.len();
        let ghost keys = ids.listing();
        let ghost count = |r: RuntimeRecordModel| lease_gaps(r, now);
        let mut migrated: usize = 0;
        let mut i: usize = 0;
        proof {
            lemma_listing_of::<String>(keys, start.dom());
            assert(keys.take(0) =~= Seq::<Seq<char>>::empty());
        }
        while i < n
            invariant
                i <= n == keys.len(),
                keys == ids.listing(),
                keys.no_duplicates(),
                forall|k: Seq<char>| #[trigger] keys.contains(k) <==> start.dom().contains(k),
                2 * n <= usize::MAX,
                start == old(self)@.runtimes,
                count == (|r: RuntimeRecordModel| lease_gaps(r, now)),
                self@ == (AgentControlStateModel { runtimes: self@.runtimes, ..old(self)@ }),
                self@.runtimes.dom() == start.dom(),
                forall|k: Seq<char>| #[trigger]
                    self@.runtimes.contains_key(k) ==> self@.runtimes[k] == if keys.take(
                        i as int,
                    ).contains(k) {
                        with_lease(start[k], now, ttl_secs)
                    } else {
                        start[k]
                    },
                migrated == total(start, keys.take(i as int), count),
            decreases n - i,
        {
            let id = ids.at(i);
            let ghost key = keys[i as int];
            proof {
                lemma_take_next(keys, i as int);
                assert(keys.contains(key));
                assert(keys.take(i + 1).drop_last() =~= keys.take(i as int));
                assert(keys.take(i + 1).last() == key);
                lemma_total_bound(start, keys.take(i as int), count, 2);
            }
            if let Some(runtime) = self.runtimes.take(id) {
                let mut runtime = runtime;
                if runtime.created_at == 0 {
                    runtime.created_at = now;
                    migrated += 1;
                }
                if runtime.expires_at == 0 || runtime.expires_at < runtime.created_at {
                    runtime.expires_at = add_capped(runtime.created_at, ttl_secs);
                    migrated += 1;
                }
                self.runtimes.insert(id.clone(), runtime);
            }
            proof {
                assert(self@.runtimes.dom() =~= start.dom());
            }
            i += 1;
        }
        proof {
            assert(keys.take(i as int) =~= keys);
            assert(self@.runtimes =~= start.map_values(
                |r: RuntimeRecordModel| with_lease(r, now, ttl_secs),
            ));
        }
        migrated
    }

    /// Gives builds of older records the times they lack; says how many.
    fn ensure_build_times(&mut self, now: u64) -> (migrated: usize)
        requires
            3 * old(self)@.builds.dom().len() <= usize::MAX,
        ensures
            final(self)@ == (AgentControlStateModel {
                builds: old(self)@.builds.map_values(|b: BuildRecordModel| with_build_times(b, now)),
                ..old(self)@
            }),
            migrated == total(
                old(self)@.builds,
                listing_of::<String>(old(self)@.builds.dom()),
                |b: BuildRecordModel| build_gaps(b),
            ),
            migrated <= 3 * old(self)@.builds.dom().len(),
    {
        let ghost start = self@.builds;
        let ids = self.builds.key_set();
        let n: usize = ids.len();
        let ghost keys = ids.listing();
        let ghost count = |b: BuildRecordModel| build_gaps(b);
        let mut migrated: usize = 0;
        let mut i: usize = 0;
        proof {
            lemma_listing_of::<String>(keys, start.dom());
            assert(keys.take(0) =~= Seq::<Seq<char>>::empty());
        }
        while i < n
            invariant
                i <= n == keys.len(),
                keys == ids.listing(),
                keys.no_duplicates(),
                forall|k: Seq<char>| #[trigger] keys.contains(k) <==> start.dom().contains(k),
                3 * n <= usize::MAX,
                start == old(self)@.builds,
                count == (|b: BuildRecordModel| build_gaps(b)),
                self@ == (AgentControlStateModel { builds: self@.builds, ..old(self)@ }),
                self@.builds.dom() == start.dom(),
                forall|k: Seq<char>| #[trigger]
                    self@.builds.contains_key(k) ==> self@.builds[k] == if keys.take(
                        i as int,
                    ).contains(k) {
                        with_build_times(start[k], now)
                    } else {
                        start[k]
                    },
                migrated == total(start, keys.take(i as int), count),
            decreases n - i,
        {
            let id = ids.at(i);
            let ghost key = keys[i as int];
            proof {
                lemma_take_next(keys, i as int);
                assert(keys.contains(key));
                assert(keys.take(i + 1).drop_last() =~= keys.take(i as int));
                assert(keys.take(i + 1).last() == key);
                lemma_total_bound(start, keys.take(i as int), count, 3);
            }
            if let Some(build) = self.builds.take(id) {
                let mut build = build;
                let from: u64 = larger_of(build.created_at, now);
                if build.updated_at == 0 {
                    build.updated_at = from;
                    migrated += 1;
                }
                if build.timeout_sec == 0 {
                    build.timeout_sec = DEFAULT_BUILD_TIMEOUT_SECS;
                    migrated += 1;
                }
                if build.deadline_at == 0 {
                    build.deadline_at = add_capped(from, larger_of(build.timeout_sec, 60));
                    migrated += 1;
                }
                self.builds.insert(id.clone(), build);
            }
            proof {
                assert(self@.builds.dom() =~= start.dom());
            }
            i += 1;
        }
        proof {
            assert(keys.take(i as int) =~= keys);
            lemma_total_bound(start, keys, count, 3);
            assert(self@.builds =~= start.map_values(
                |b: BuildRecordModel| with_build_times(b, now),
            ));
        }
        migrated
    }

    /// Gives artifacts of older records the times they lack; says how many.
    fn ensure_artifact_times(&mut self, now: u64, ttl_secs: u64) -> (migrated: usize)
        requires
            2 * old(self)@.artifacts.dom().len() <= usize::MAX,
        ensures
            final(self)@ == (AgentControlStateModel {
                artifacts: old(self)@.artifacts.map_values(
                    |a: ArtifactRecordModel| with_artifact_times(a, now, ttl_secs),
                ),
                ..old(self)@
            }),
            migrated == total(
                old(self)@.artifacts,
                listing_of::<String>(old(self)@.artifacts.dom()),
                |a: ArtifactRecordModel| artifact_gaps(a),
            ),
            migrated <= 2 * old(self)@.artifacts.dom().len(),
    {
        let ghost start = self@.artifacts;
        let ids = self.artifacts.key_set();
        let n: usize = ids.len();
        let ghost keys = ids.listing();
        let ghost count = |a: ArtifactRecordModel| artifact_gaps(a);
        let mut migrated: usize = 0;
        let mut i: usize = 0;
        proof {
            lemma_listing_of::<String>(keys, start.dom());
            assert(keys.take(0) =~= Seq::<Seq<char>>::empty());
        }
        while i < n
            invariant
                i <= n == keys.len(),
                keys == ids.listing(),
                keys.no_duplicates(),
                forall|k: Seq<char>| #[trigger] keys.contains(k) <==> start.dom().contains(k),
                2 * n <= usize::MAX,
                start == old(self)@.artifacts,
                count == (|a: ArtifactRecordModel| artifact_gaps(a)),
                self@ == (AgentControlStateModel { artifacts: self@.artifacts, ..old(self)@ }),
                self@.artifacts.dom() == start.dom(),
                forall|k: Seq<char>| #[trigger]
                    self@.artifacts.contains_key(k) ==> self@.artifacts[k] == if keys.take(
                        i as int,
                    ).contains(k) {
                        with_artifact_times(start[k], now, ttl_secs)
                    } else {
                        start[k]
                    },
                migrated == total(start, keys.take(i as int), count),
            decreases n - i,
        {
            let id = ids.at(i);
            let ghost key = keys[i as int];
            proof {
                lemma_take_next(keys, i as int);
                assert(keys.contains(key));
                assert(keys.take(i + 1).drop_last() =~= keys.take(i as int));
                assert(keys.take(i + 1).last() == key);
                lemma_total_bound(start, keys.take(i as int), count, 2);
            }
            if let Some(artifact) = self.artifacts.take(id) {
                let mut artifact = artifact;
                let from: u64 = larger_of(artifact.created_at, now);
                if artifact.last_used_at == 0 {
                    artifact.last_used_at = from;
                    migrated += 1;
                }
                if artifact.expires_at == 0 {
                    artifact.expires_at = add_capped(from, larger_of(ttl_secs, 60));
                    migrated += 1;
                }
                self.artifacts.insert(id.clone(), artifact);
            }
            proof {
                assert(self@.artifacts.dom() =~= start.dom());
            }
            i += 1;
        }
        proof {
            assert(keys.take(i as int) =~= keys);
            lemma_total_bound(start, keys, count, 2);
            assert(self@.artifacts =~= start.map_values(
                |a: ArtifactRecordModel| with_artifact_times(a, now, ttl_secs),
            ));
        }
        migrated
    }

    /// Gives builds and artifacts of older records the times they lack; says how
    /// many.
    pub fn ensure_v2_build_fields(&mut self, now: u64, artifact_ttl_secs: u64) -> (migrated: usize)
        requires
            3 * old(self)@.builds.dom().len() + 2 * old(self)@.artifacts.dom().len() <= usize::MAX,
        ensures
            final(self)@ == (AgentControlStateModel {
                builds: old(self)@.builds.map_values(|b: BuildRecordModel| with_build_times(b, now)),
                artifacts: old(self)@.artifacts.map_values(
                    |a: ArtifactRecordModel| with_artifact_times(a, now, artifact_ttl_secs),
                ),
                ..old(self)@
            }),
            migrated == total(
                old(self)@.builds,
                listing_of::<String>(old(self)@.builds.dom()),
                |b: BuildRecordModel| build_gaps(b),
            ) + total(
                old(self)@.artifacts,
                listing_of::<String>(old(self)@.artifacts.dom()),
                |a: ArtifactRecordModel| artifact_gaps(a),
            ),
    {
        let builds: usize = self.ensure_build_times(now);
        let artifacts: usize = self.ensure_artifact_times(now, artifact_ttl_secs);
        builds + artifacts
    }

    /// The artifacts that runtimes run that were not torn down.
    fn artifacts_in_use(&self) -> (in_use: OrdSet<String>)
        ensures
            forall|artifact_ref: Seq<char>| #[trigger]
                in_use@.contains(artifact_ref) <==> artifact_in_use(self@.runtimes, artifact_ref),
    {
        let n: usize = self.runtimes.len();
        let ghost keys = self.runtimes.listing();
        let mut in_use: OrdSet<String> = OrdSet::new();
        let mut i: usize = 0;
        while i < n
            invariant
                i <= n == keys.len(),
                keys == self.runtimes.listing(),
                forall|artifact_ref: Seq<char>| #[trigger]
                    in_use@.contains(artifact_ref) <==> exists|j: int|
                        0 <= j < i && runs(self@.runtimes, #[trigger] keys[j], artifact_ref),
            decreases n - i,
        {
            let runtime = self.runtimes.value_at(i);
            let ghost before = in_use@;
            let ghost key = keys[i as int];
            let used = if runtime.descriptor.lifecycle_phase != RuntimeLifecyclePhase::Teardown {
                runtime.descriptor.metadata.get_text("artifact_ref")
            } else {
                None
            };
            let ghost model = used.deep_view();
            if let Some(artifact_ref) = used {
                in_use.insert(artifact_ref);
            }
            proof {
                assert forall|artifact_ref: Seq<char>| #[trigger]
                    in_use@.contains(artifact_ref) <==> exists|j: int|
                        0 <= j < i + 1 && runs(self@.runtimes, #[trigger] keys[j], artifact_ref) by {
                    assert(before.contains(artifact_ref) <==> exists|j: int|
                        0 <= j < i && runs(self@.runtimes, #[trigger] keys[j], artifact_ref));
                    assert(runs(self@.runtimes, keys[i as int], artifact_ref) <==> model == Some(
                        artifact_ref,
                    ));
                }
            }
            i += 1;
        }
        proof {
            assert forall|artifact_ref: Seq<char>| #[trigger]
                in_use@.contains(artifact_ref) <==> artifact_in_use(self@.runtimes, artifact_ref) by {
                if in_use@.contains(artifact_ref) {
                    let j = choose|j: int|
                        0 <= j < i && runs(self@.runtimes, #[trigger] keys[j], artifact_ref);
                    assert(keys.contains(keys[j]));
                    assert(self@.runtimes.contains_key(keys[j]));
                }
                if artifact_in_use(self@.runtimes, artifact_ref) {
                    let id = choose|id: Seq<char>| #[trigger]
                        self@.runtimes.contains_key(id) && runs(self@.runtimes, id, artifact_ref);
                    assert(keys.contains(id));
                    let j = choose|j: int| 0 <= j < keys.len() && keys[j] == id;
                    assert(runs(self@.runtimes, keys[j], artifact_ref));
                }
            }
        }
        in_use
    }

    /// Forgets the artifacts that are neither in use nor unexpired; says how many,
    /// and puts that on record where there were any.
    pub fn garbage_collect_artifacts_at(&mut self, now: u64, max_audit_entries: usize) -> (removed:
        usize)
        ensures
            removed == old(self)@.artifacts.dom().len() - kept_artifacts(
                old(self)@,
                now,
            ).dom().len(),
            ({
                let swept = AgentControlStateModel {
                    artifacts: kept_artifacts(old(self)@, now),
                    ..old(self)@
                };
                final(self)@ == if removed == 0 {
                    swept
                } else {
                    audited(
                        swept,
                        audit_event(
                            now,
                            "system"@,
                            "artifact_gc"@,
                            "ok"@,
                            JsonModel::empty().with("removed"@, JsonModel::UInt(removed as u64)),
                        ),
                        max_audit_entries as nat,
                    )
                }
            }),
    {
        let in_use = self.artifacts_in_use();
        let ghost start = self@;
        let before: usize = self.artifacts.len();
        let ids = self.artifacts.key_set();
        let n: usize = ids.len();
        let ghost keys = ids.listing();
        let ghost stays = |artifact_ref: Seq<char>|
            artifact_in_use(start.runtimes, artifact_ref)
                || start.artifacts[artifact_ref].expires_at > now;
        let mut i: usize = 0;
        while i < n
            invariant
                i <= n == keys.len(),
                keys == ids.listing(),
                keys.no_duplicates(),
                forall|k: Seq<char>| #[trigger]
                    keys.contains(k) <==> start.artifacts.dom().contains(k),
                start == old(self)@,
                stays == (|artifact_ref: Seq<char>|
                    artifact_in_use(start.runtimes, artifact_ref)
                        || start.artifacts[artifact_ref].expires_at > now),
                forall|artifact_ref: Seq<char>| #[trigger]
                    in_use@.contains(artifact_ref) <==> artifact_in_use(
                        start.runtimes,
                        artifact_ref,
                    ),
                self@ == (AgentControlStateModel { artifacts: self@.artifacts, ..start }),
                forall|k: Seq<char>| #[trigger]
                    self@.artifacts.contains_key(k) <==> start.artifacts.contains_key(k) && (
                    stays(k) || !keys.take(i as int).contains(k)),
                forall|k: Seq<char>| #[trigger]
                    self@.artifacts.contains_key(k) ==> self@.artifacts[k] == start.artifacts[k],
            decreases n - i,
        {
            let id = ids.at(i);
            let ghost key = keys[i as int];
            proof {
                lemma_take_next(keys, i as int);
                assert(keys.contains(key));
                assert(start.artifacts.contains_key(key));
            }
            let keep = in_use.contains(id) || match self.artifacts.get(id) {
                Some(artifact) => artifact.expires_at > now,
                None => false,
            };
            if !keep {
                let _ = self.artifacts.take(id);
            }
            i += 1;
        }
        proof {
            assert(keys.take(i as int) =~= keys);
            assert(self@.artifacts =~= kept_artifacts(start, now));
            assert(kept_artifacts(start, now).dom().subset_of(start.artifacts.dom()));
            vstd::set_lib::lemma_len_subset(
                kept_artifacts(start, now).dom(),
                start.artifacts.dom(),
            );
        }
        let after: usize = self.artifacts.len();
        let removed: usize = before - after;
        if removed > 0 {
            self.push_audit_event(
                now,
                "system",
                "artifact_gc",
                "ok",
                json_object().with("removed", json_uint(removed as u64)),
                max_audit_entries,
            );
        }
        removed
    }

    /// The runtimes that are due, in increasing order.
    pub fn due_runtimes(&self, now: u64) -> (ids: Vec<String>)
        ensures
            ids.deep_view() == listing_of::<String>(self@.runtimes.dom()).filter(
                |id: Seq<char>| is_due(self@.runtimes[id], now),
            ),
    {
        let n: usize = self.runtimes.len();
        let ghost keys = self.runtimes.listing();
        let ghost due = |id: Seq<char>| is_due(self@.runtimes[id], now);
        let mut ids: Vec<String> = Vec::new();
        let mut i: usize = 0;
        proof {
            reveal(Seq::filter);
            lemma_listing_of::<String>(keys, self@.runtimes.dom());
            assert(ids.deep_view() =~= keys.take(0).filter(due));
        }
        while i < n
            invariant
                i <= n == keys.len(),
                keys == self.runtimes.listing(),
                due == (|id: Seq<char>| is_due(self@.runtimes[id], now)),
                ids.deep_view() == keys.take(i as int).filter(due),
            decreases n - i,
        {
            let ghost before = ids.deep_view();
            proof {
                assert(keys.take(i + 1) =~= keys.take(i as int).push(keys[i as int]));
                keys.take(i as int).lemma_filter_push(keys[i as int], due);
            }
            if runtime_due_for_reaper(self.runtimes.value_at(i), now) {
                let id = self.runtimes.key_at(i).clone();
                let ghost added = id@;
                ids.push(id);
                proof {
                    assert(ids.deep_view() =~= before.push(added));
                }
            }
            i += 1;
        }
        proof {
            assert(keys.take(i as int) =~= keys);
        }
        ids
    }

    /// The builds that have not come to their end, in increasing order.
    pub fn pending_builds(&self) -> (ids: Vec<String>)
        ensures
            ids.deep_view() == listing_of::<String>(self@.builds.dom()).filter(
                |id: Seq<char>| !crate::agent::types::phase_is_terminal(self@.builds[id].phase),
            ),
    {
        let n: usize = self.builds.len();
        let ghost keys = self.builds.listing();
        let ghost pending = |id: Seq<char>|
            !crate::agent::types::phase_is_terminal(self@.builds[id].phase);
        let mut ids: Vec<String> = Vec::new();
        let mut i: usize = 0;
        proof {
            reveal(Seq::filter);
            lemma_listing_of::<String>(keys, self@.builds.dom());
            assert(ids.deep_view() =~= keys.take(0).filter(pending));
        }
        while i < n
            invariant
                i <= n == keys.len(),
                keys == self.builds.listing(),
                pending == (|id: Seq<char>|
                    !crate::agent::types::phase_is_terminal(self@.builds[id].phase)),
                ids.deep_view() == keys.take(i as int).filter(pending),
            decreases n - i,
        {
            let ghost before = ids.deep_view();
            proof {
                assert(keys.take(i + 1) =~= keys.take(i as int).push(keys[i as int]));
                keys.take(i as int).lemma_filter_push(keys[i as int], pending);
            }
            if !self.builds.value_at(i).phase.is_terminal() {
                let id = self.builds.key_at(i).clone();
                let ghost added = id@;
                ids.push(id);
                proof {
                    assert(ids.deep_view() =~= before.push(added));
                }
            }
            i += 1;
        }
        proof {
            assert(keys.take(i as int) =~= keys);
        }
        ids
    }
}

/// Whether a runtime that was not torn down runs an artifact.
pub open spec fn runs(
    runtimes: Map<Seq<char>, RuntimeRecordModel>,
    id: Seq<char>,
    artifact_ref: Seq<char>,
) -> bool {
    runtimes[id].descriptor.lifecycle_phase != RuntimeLifecyclePhase::Teardown
        && runtimes[id].descriptor.metadata.get_text("artifact_ref"@) == Some(artifact_ref)
}

/// An artifact that a runtime runs is never forgotten, nor is one that has not
/// expired; any other is.
pub proof fn gc_keeps_what_is_needed(
    state: AgentControlStateModel,
    now: u64,
    artifact_ref: Seq<char>,
)
    requires
        state.artifacts.contains_key(artifact_ref),
    ensures
        kept_artifacts(state, now).contains_key(artifact_ref) <==> artifact_in_use(
            state.runtimes,
            artifact_ref,
        ) || state.artifacts[artifact_ref].expires_at > now,
        kept_artifacts(state, now).contains_key(artifact_ref) ==> kept_artifacts(
            state,
            now,
        )[artifact_ref] == state.artifacts[artifact_ref],
{
}

/// What the kept answers are: one for each key in their order, which has none
/// twice.
pub open spec fn answers_sound(state: AgentControlStateModel) -> bool {
    &&& state.idempotency_order.no_duplicates()
    &&& forall|key: (Seq<char>, Seq<char>)| #[trigger]
        state.idempotency.contains_key(key) <==> state.idempotency_order.contains(key)
}

/// Forgetting answers keeps them sound, and leaves no more than asked.
pub proof fn truncating_keeps_sound(state: AgentControlStateModel, max: nat)
    requires
        answers_sound(state),
    ensures
        answers_sound(truncated(state, max)),
        truncated(state, max).idempotency_order.len() <= max,
        truncated(state, max).idempotency_order == last_of(state.idempotency_order, max),
    decreases state.idempotency_order.len(),
{
    let order = state.idempotency_order;
    if order.len() > max {
        let next = AgentControlStateModel {
            idempotency: state.idempotency.remove(order[0]),
            idempotency_order: order.drop_first(),
            ..state
        };
        assert(next.idempotency_order.no_duplicates());
        assert forall|key: (Seq<char>, Seq<char>)| #[trigger]
            next.idempotency.contains_key(key) <==> next.idempotency_order.contains(key) by {
            if next.idempotency_order.contains(key) {
                let i = choose|i: int|
                    0 <= i < next.idempotency_order.len() && next.idempotency_order[i] == key;
                assert(order[i + 1] == key);
                assert(order.contains(key));
                assert(order[0] != order[i + 1]);
            }
            if next.idempotency.contains_key(key) {
                assert(order.contains(key));
                let i = choose|i: int| 0 <= i < order.len() && order[i] == key;
                assert(order.drop_first()[i - 1] == key);
            }
        }
        truncating_keeps_sound(next, max);
        if order.len() - 1 > max {
            assert(order.drop_first().skip(order.len() - 1 - max) =~= order.skip(order.len() - max));
        } else {
            assert(order.drop_first() =~= order.skip(order.len() - max));
        }
    }
}

/// Keeping an answer leaves the answers sound and no more than `max` of them, of
/// which it is the newest.
pub proof fn remembering_keeps_sound(
    state: AgentControlStateModel,
    key: (Seq<char>, Seq<char>),
    terminal: CachedTerminalModel,
    max: nat,
)
    requires
        answers_sound(state),
    ensures
        answers_sound(remembered(state, key, terminal, max)),
        remembered(state, key, terminal, max).idempotency_order.len() <= max,
        remembered(state, key, terminal, max).idempotency_order == last_of(
            (if state.idempotency.contains_key(key) {
                state.idempotency_order.filter(other_than(key))
            } else {
                state.idempotency_order
            }).push(key),
            max,
        ),
        max > 0 ==> remembered(state, key, terminal, max).idempotency.contains_key(key),
{
    let keep = other_than(key);
    let order = state.idempotency_order;
    let others = if state.idempotency.contains_key(key) {
        order.filter(keep)
    } else {
        order
    };
    lemma_filter_no_duplicates(order, keep);
    assert(!others.contains(key)) by {
        if others.contains(key) {
            let i = choose|i: int| 0 <= i < others.len() && others[i] == key;
            if state.idempotency.contains_key(key) {
                order.lemma_filter_pred(keep, i);
            } else {
                assert(order.contains(key));
            }
        }
    }
    let next = AgentControlStateModel {
        idempotency: state.idempotency.insert(key, terminal),
        idempotency_order: others.push(key),
        ..state
    };
    assert(next.idempotency_order.no_duplicates()) by {
        assert forall|i: int, j: int| 0 <= i < j < others.push(key).len() implies others.push(
            key,
        )[i] != others.push(key)[j] by {
            if j == others.len() {
                assert(others.contains(others[i]));
            }
        }
    }
    assert forall|k: (Seq<char>, Seq<char>)| #[trigger]
        next.idempotency.contains_key(k) <==> next.idempotency_order.contains(k) by {
        crate::collections::lemma_push_to_set(others, key);
        assert(others.push(key).to_set().contains(k) <==> others.to_set().insert(key).contains(k));
        assert(state.idempotency.contains_key(k) <==> order.contains(k));
        if k != key && state.idempotency.contains_key(key) {
            if order.contains(k) {
                let i = choose|i: int| 0 <= i < order.len() && order[i] == k;
                order.lemma_filter_contains(keep, i);
                assert(keep(k));
                assert(others.contains(k));
            }
            if others.contains(k) {
                order.lemma_filter_contains_rev(keep, k);
            }
        }
    }
    truncating_keeps_sound(next, max);
    if max > 0 {
        let after = truncated(next, max).idempotency_order;
        let all = others.push(key);
        assert(after == last_of(all, max));
        assert(after.len() > 0);
        assert(after.last() == key);
        assert(after.contains(after.last()));
    }
}

/// What is kept of a sequence that has nothing twice has nothing twice.
pub proof fn lemma_filter_no_duplicates<A>(s: Seq<A>, keep: spec_fn(A) -> bool)
    requires
        s.no_duplicates(),
    ensures
        s.filter(keep).no_duplicates(),
    decreases s.len(),
{
    reveal(Seq::filter);
    if s.len() > 0 {
        let rest = s.drop_last();
        lemma_filter_no_duplicates(rest, keep);
        if keep(s.last()) {
            let f = rest.filter(keep);
            assert(s.filter(keep) == f.push(s.last()));
            assert forall|i: int, j: int| 0 <= i < j < f.push(s.last()).len() implies f.push(
                s.last(),
            )[i] != f.push(s.last())[j] by {
                if j == f.len() {
                    assert(f.contains(f[i]));
                    rest.lemma_filter_contains_rev(keep, f[i]);
                    let m = choose|m: int| 0 <= m < rest.len() && rest[m] == f[i];
                    assert(s[m] != s[s.len() - 1]);
                }
            }
        }
    }
}

/// The state with the answers that were written to disk, in their order.
pub open spec fn with_entries(
    state: AgentControlStateModel,
    entries: Seq<PersistedIdempotencyEntryModel>,
) -> AgentControlStateModel
    decreases entries.len(),
{
    if entries.len() == 0 {
        state
    } else {
        let entry = entries.last();
        remembered(
            with_entries(state, entries.drop_last()),
            (entry.requester_pubkey_hex, entry.idempotency_key),
            entry.terminal,
            usize::MAX as nat,
        )
    }
}

/// The state that was written to disk.
pub open spec fn restored(persisted: PersistedControlStateModel) -> AgentControlStateModel {
    with_entries(
        AgentControlStateModel {
            runtimes: persisted.runtimes,
            builds: persisted.builds,
            artifacts: persisted.artifacts,
            audit_log: persisted.audit_log,
            idempotency: Map::empty(),
            idempotency_order: Seq::empty(),
        },
        persisted.idempotency,
    )
}

/// The answers as they are written to disk: those that there are, in their order.
pub open spec fn entries_of(
    idempotency: Map<(Seq<char>, Seq<char>), CachedTerminalModel>,
    order: Seq<(Seq<char>, Seq<char>)>,
) -> Seq<PersistedIdempotencyEntryModel>
    decreases order.len(),
{
    if order.len() == 0 {
        Seq::empty()
    } else {
        let rest = entries_of(idempotency, order.drop_last());
        let key = order.last();
        if idempotency.contains_key(key) {
            rest.push(
                PersistedIdempotencyEntryModel {
                    requester_pubkey_hex: key.0,
                    idempotency_key: key.1,
                    terminal: idempotency[key],
                },
            )
        } else {
            rest
        }
    }
}

/// The state as it is written to disk.
pub open spec fn persisted_of(state: AgentControlStateModel) -> PersistedControlStateModel {
    PersistedControlStateModel {
        runtimes: state.runtimes,
        builds: state.builds,
        artifacts: state.artifacts,
        audit_log: state.audit_log,
        idempotency: entries_of(state.idempotency, state.idempotency_order),
    }
}

impl AgentControlState {
    /// The state that was written to disk.
    pub fn from_persisted(persisted: PersistedControlState) -> (state: Self)
        ensures
            state@ == restored(persisted@),
    {
        let PersistedControlState { runtimes, builds, artifacts, audit_log, idempotency } =
            persisted;
        let mut state = AgentControlState {
            runtimes,
            builds,
            artifacts,
            audit_log,
            idempotency: OrdMap::new(),
            idempotency_order: Vec::new(),
        };
        let ghost start = state@;
        let ghost all = idempotency.deep_view();
        let mut i: usize = 0;
        proof {
            assert(start.idempotency_order =~= Seq::empty());
            assert(all.take(0) =~= Seq::empty());
        }
        while i < idempotency.len()
            invariant
                i <= idempotency.len(),
                all == idempotency.deep_view(),
                state@ == with_entries(start, all.take(i as int)),
            decreases idempotency.len() - i,
        {
            let entry = &idempotency[i];
            state.insert_idempotency(
                (entry.requester_pubkey_hex.clone(), entry.idempotency_key.clone()),
                entry.terminal.replicate(),
                usize::MAX,
            );
            i += 1;
            proof {
                assert(all.take(i as int).drop_last() =~= all.take(i - 1));
                assert(all.take(i as int).last() == all[i - 1]);
            }
        }
        proof {
            assert(all.take(i as int) =~= all);
        }
        state
    }

    /// The state as it is written to disk.
    pub fn to_persisted(&self) -> (persisted: PersistedControlState)
        ensures
            persisted@ == persisted_of(self@),
    {
        let ghost order = self@.idempotency_order;
        let mut entries: Vec<PersistedIdempotencyEntry> = Vec::new();
        let mut i: usize = 0;
        proof {
            assert(order.take(0) =~= Seq::empty());
            assert(entries.deep_view() =~= Seq::empty());
        }
        while i < self.idempotency_order.len()
            invariant
                i <= self.idempotency_order.len(),
                order == self@.idempotency_order,
                entries.deep_view() == entries_of(self@.idempotency, order.take(i as int)),
            decreases self.idempotency_order.len() - i,
        {
            let key = &self.idempotency_order[i];
            let ghost before = entries.deep_view();
            proof {
                assert(order.take(i + 1).drop_last() =~= order.take(i as int));
                assert(order.take(i + 1).last() == order[i as int]);
            }
            if let Some(terminal) = self.idempotency.get(key) {
                let entry = PersistedIdempotencyEntry {
                    requester_pubkey_hex: key.0.clone(),
                    idempotency_key: key.1.clone(),
                    terminal: terminal.replicate(),
                };
                let ghost added = entry@;
                entries.push(entry);
                proof {
                    assert(entries.deep_view() =~= before.push(added));
                }
            }
            i += 1;
        }
        proof {
            assert(order.take(i as int) =~= order);
        }
        PersistedControlState {
            runtimes: self.runtimes.replicate(),
            builds: self.builds.replicate(),
            artifacts: self.artifacts.replicate(),
            audit_log: self.audit_log.replicate(),
            idempotency: entries,
        }
    }
}

/// The first `n` answers of a state, and no others.
spec fn first_answers(state: AgentControlStateModel, n: int) -> AgentControlStateModel {
    AgentControlStateModel {
        idempotency: state.idempotency.restrict(state.idempotency_order.take(n).to_set()),
        idempotency_order: state.idempotency_order.take(n),
        ..state
    }
}

proof fn lemma_entries_restore(state: AgentControlStateModel, n: int)
    requires
        answers_sound(state),
        0 <= n <= state.idempotency_order.len() <= usize::MAX,
    ensures
        with_entries(
            first_answers(state, 0),
            entries_of(state.idempotency, state.idempotency_order.take(n)),
        ) == first_answers(state, n),
    decreases n,
{
    let order = state.idempotency_order;
    if n == 0 {
        assert(order.take(0) =~= Seq::empty());
    } else {
        lemma_entries_restore(state, n - 1);
        let key = order[n - 1];
        let before = first_answers(state, n - 1);
        assert(order.take(n).drop_last() =~= order.take(n - 1));
        assert(order.take(n).last() == key);
        assert(order.contains(key));
        assert(state.idempotency.contains_key(key));
        let entries = entries_of(state.idempotency, order.take(n));
        let rest = entries_of(state.idempotency, order.take(n - 1));
        assert(entries.drop_last() =~= rest);
        lemma_take_next(order, n - 1);
        assert(!before.idempotency.contains_key(key));
        let after = AgentControlStateModel {
            idempotency: before.idempotency.insert(key, state.idempotency[key]),
            idempotency_order: before.idempotency_order.push(key),
            ..before
        };
        assert(after.idempotency_order =~= order.take(n));
        assert(after.idempotency =~= first_answers(state, n).idempotency);
    }
}

/// What is written to disk and read again is what it was.
pub proof fn persisting_loses_nothing(state: AgentControlStateModel)
    requires
        answers_sound(state),
        state.idempotency_order.len() <= usize::MAX,
    ensures
        restored(persisted_of(state)) == state,
{
    let order = state.idempotency_order;
    lemma_entries_restore(state, order.len() as int);
    assert(order.take(order.len() as int) =~= order);
    assert(order.take(0) =~= Seq::empty());
    assert(first_answers(state, 0).idempotency =~= Map::empty());
    assert forall|key: (Seq<char>, Seq<char>)| #[trigger]
        state.idempotency.contains_key(key) implies order.to_set().contains(key) by {
        assert(order.contains(key));
    }
    assert(first_answers(state, order.len() as int).idempotency =~= state.idempotency);
}

proof fn lemma_truncated_values(
    state: AgentControlStateModel,
    max: nat,
    key: (Seq<char>, Seq<char>),
)
    requires
        truncated(state, max).idempotency.contains_key(key),
    ensures
        state.idempotency.contains_key(key),
        truncated(state, max).idempotency[key] == state.idempotency[key],
    decreases state.idempotency_order.len(),
{
    if state.idempotency_order.len() > max {
        lemma_truncated_values(
            AgentControlStateModel {
                idempotency: state.idempotency.remove(state.idempotency_order[0]),
                idempotency_order: state.idempotency_order.drop_first(),
                ..state
            },
            max,
            key,
        );
    }
}

/// The answer that was kept last is the one that its key gives.
pub proof fn lemma_remembered_value(
    state: AgentControlStateModel,
    key: (Seq<char>, Seq<char>),
    terminal: CachedTerminalModel,
    max: nat,
)
    requires
        answers_sound(state),
        max > 0,
    ensures
        remembered(state, key, terminal, max).idempotency.contains_key(key),
        remembered(state, key, terminal, max).idempotency[key] == terminal,
{
    remembering_keeps_sound(state, key, terminal, max);
    let others = if state.idempotency.contains_key(key) {
        state.idempotency_order.filter(other_than(key))
    } else {
        state.idempotency_order
    };
    lemma_truncated_values(
        AgentControlStateModel {
            idempotency: state.idempotency.insert(key, terminal),
            idempotency_order: others.push(key),
            ..state
        },
        max,
        key,
    );
}

proof fn lemma_filter_other(s: Seq<(Seq<char>, Seq<char>)>, at: int)
    requires
        s.no_duplicates(),
        0 <= at < s.len(),
    ensures
        s.filter(other_than(s[at])) == s.remove(at),
    decreases s.len(),
{
    reveal(Seq::filter);
    let keep = other_than(s[at]);
    let rest = s.drop_last();
    if at == s.len() - 1 {
        assert forall|i: int| 0 <= i < rest.len() implies keep(#[trigger] rest[i]) by {
            assert(s[i] != s[at]);
        }
        lemma_filter_all(rest, keep);
        assert(s.remove(at) =~= rest);
    } else {
        lemma_filter_other(rest, at);
        assert(s[s.len() - 1] != s[at]);
        assert(s.remove(at) =~= rest.remove(at).push(s.last()));
    }
}

proof fn lemma_filter_all<A>(s: Seq<A>, keep: spec_fn(A) -> bool)
    requires
        forall|i: int| 0 <= i < s.len() ==> keep(#[trigger] s[i]),
    ensures
        s.filter(keep) == s,
    decreases s.len(),
{
    reveal(Seq::filter);
    if s.len() > 0 {
        let rest = s.drop_last();
        assert forall|i: int| 0 <= i < rest.len() implies keep(#[trigger] rest[i]) by {
            assert(rest[i] == s[i]);
        }
        lemma_filter_all(rest, keep);
        assert(rest.push(s.last()) =~= s);
    }
    assert(s.filter(keep) =~= s);
}

/// Whether an answer is kept, and fewer than `n` answers were kept after it.
pub open spec fn kept_within(
    state: AgentControlStateModel,
    key: (Seq<char>, Seq<char>),
    terminal: CachedTerminalModel,
    n: nat,
) -> bool {
    &&& state.idempotency.contains_key(key)
    &&& state.idempotency[key] == terminal
    &&& exists|i: int|
        0 <= i < state.idempotency_order.len() && state.idempotency_order.len() - i <= n
            && #[trigger] state.idempotency_order[i] == key
}

/// The answer that was kept last is the newest.
pub proof fn remembering_keeps_newest(
    state: AgentControlStateModel,
    key: (Seq<char>, Seq<char>),
    terminal: CachedTerminalModel,
    max: nat,
)
    requires
        answers_sound(state),
        max > 0,
    ensures
        kept_within(remembered(state, key, terminal, max), key, terminal, 1),
{
    remembering_keeps_sound(state, key, terminal, max);
    lemma_remembered_value(state, key, terminal, max);
    let order = remembered(state, key, terminal, max).idempotency_order;
    assert(order[order.len() - 1] == key);
}

/// Keeping one more answer makes another one older by one place at most, and forgets
/// none that is among the newest that there is room for.
pub proof fn remembering_keeps_others(
    state: AgentControlStateModel,
    key: (Seq<char>, Seq<char>),
    terminal: CachedTerminalModel,
    n: nat,
    other: (Seq<char>, Seq<char>),
    other_terminal: CachedTerminalModel,
    max: nat,
)
    requires
        answers_sound(state),
        kept_within(state, key, terminal, n),
        other != key,
        n < max,
    ensures
        kept_within(remembered(state, other, other_terminal, max), key, terminal, n + 1),
{
    let order = state.idempotency_order;
    let p = choose|i: int|
        0 <= i < order.len() && order.len() - i <= n && #[trigger] order[i] == key;
    let others = if state.idempotency.contains_key(other) {
        order.filter(other_than(other))
    } else {
        order
    };
    remembering_keeps_sound(state, other, other_terminal, max);
    let q = if state.idempotency.contains_key(other) {
        assert(order.contains(other));
        let at = choose|i: int| 0 <= i < order.len() && order[i] == other;
        lemma_filter_other(order, at);
        assert(others == order.remove(at));
        if at < p {
            p - 1
        } else {
            p
        }
    } else {
        p
    };
    let all = others.push(other);
    let after = remembered(state, other, other_terminal, max).idempotency_order;
    assert(all[q] == key);
    let r = if all.len() <= max {
        q
    } else {
        q - (all.len() - max)
    };
    assert(after[r] == key);
    assert(after.contains(key));
    lemma_truncated_values(
        AgentControlStateModel {
            idempotency: state.idempotency.insert(other, other_terminal),
            idempotency_order: all,
            ..state
        },
        max,
        key,
    );
}

proof fn lemma_entries_sound(
    state: AgentControlStateModel,
    entries: Seq<PersistedIdempotencyEntryModel>,
)
    requires
        answers_sound(state),
    ensures
        answers_sound(with_entries(state, entries)),
    decreases entries.len(),
{
    if entries.len() > 0 {
        lemma_entries_sound(state, entries.drop_last());
        let entry = entries.last();
        remembering_keeps_sound(
            with_entries(state, entries.drop_last()),
            (entry.requester_pubkey_hex, entry.idempotency_key),
            entry.terminal,
            usize::MAX as nat,
        );
    }
}

/// The answers of a state that was read from disk are sound, whatever was read.
pub proof fn restoring_gives_sound(persisted: PersistedControlStateModel)
    ensures
        answers_sound(restored(persisted)),
{
    let bare = AgentControlStateModel {
        runtimes: persisted.runtimes,
        builds: persisted.builds,
        artifacts: persisted.artifacts,
        audit_log: persisted.audit_log,
        idempotency: Map::empty(),
        idempotency_order: Seq::empty(),
    };
    assert(answers_sound(bare));
    lemma_entries_sound(bare, persisted.idempotency);
}

/// Keeping an answer keeps none under another key that had none.
pub proof fn remembering_adds_no_other(
    state: AgentControlStateModel,
    key: (Seq<char>, Seq<char>),
    terminal: CachedTerminalModel,
    max: nat,
    other: (Seq<char>, Seq<char>),
)
    requires
        !state.idempotency.contains_key(other),
        other != key,
    ensures
        !remembered(state, key, terminal, max).idempotency.contains_key(other),
{
    if remembered(state, key, terminal, max).idempotency.contains_key(other) {
        let others = if state.idempotency.contains_key(key) {
            state.idempotency_order.filter(other_than(key))
        } else {
            state.idempotency_order
        };
        lemma_truncated_values(
            AgentControlStateModel {
                idempotency: state.idempotency.insert(key, terminal),
                idempotency_order: others.push(key),
                ..state
            },
            max,
            other,
        );
    }
}

/// The audit log ends with what was written last, and holds no more lines than
/// it may.
pub proof fn audit_log_is_bounded(state: AgentControlStateModel, event: AuditEventModel, max: nat)
    ensures
        audited(state, event, max).audit_log.len() <= max,
        max > 0 ==> audited(state, event, max).audit_log.last() == event,
{
}

} // verus!
