//! Who may ask for runtimes and builds, within which limits, from which sources
//! and of which artifacts.
use vstd::prelude::*;
use crate::agent::types::{BuildKind, SubmitBuildCommand, SubmitBuildCommandModel};
use crate::collections::{OrdSet, Replicate};
use crate::text::{
    after_start, begins_with, contains_text, decimal, decimal_text, holds, lower_text, number_in,
    parse_number, same_text, split_at, split_on, starts_with, to_lower, trim, trimmed,
};

verus! {

pub const DEFAULT_BUILD_TIMEOUT_SECS: u64 = 1200;

pub const DEFAULT_BUILD_ARTIFACT_TTL_SECS: u64 = 21600;

pub const DEFAULT_BUILD_MAX_ACTIVE: usize = 8;

pub const DEFAULT_BUILD_MAX_SUBMISSIONS_PER_HOUR: usize = 30;

pub const DEFAULT_BUILD_MAX_CONTEXT_BYTES: u64 = 52428800;

pub const DEFAULT_AUDIT_MAX_ENTRIES: usize = 4096;

pub const DEFAULT_RUNTIME_TTL_SECS: u64 = 3600;

pub const DEFAULT_REAPER_INTERVAL_SECS: u64 = 30;

pub const MIN_REAPER_INTERVAL_SECS: u64 = 5;

pub const DEFAULT_CONTROL_LOOKBACK_SECS: u64 = 600;

pub const DEFAULT_IDEMPOTENCY_MAX_ENTRIES: usize = 8192;

pub const MIN_IDEMPOTENCY_MAX_ENTRIES: usize = 256;

/// The larger of two numbers.
pub open spec fn larger(a: int, b: int) -> int {
    if a < b {
        b
    } else {
        a
    }
}

/// The larger of two numbers.
pub fn larger_of(a: u64, b: u64) -> (c: u64)
    ensures
        c == larger(a as int, b as int),
{
    if a < b {
        b
    } else {
        a
    }
}

/// A sum that stops at the largest number there is.
pub open spec fn capped_sum(a: u64, b: u64) -> u64 {
    if a + b > u64::MAX {
        u64::MAX
    } else {
        (a + b) as u64
    }
}

/// A sum that stops at the largest number there is.
pub fn add_capped(a: u64, b: u64) -> (c: u64)
    ensures
        c == capped_sum(a, b),
{
    if b > u64::MAX - a {
        u64::MAX
    } else {
        a + b
    }
}

/// A difference that stops at zero.
pub open spec fn capped_difference(a: u64, b: u64) -> u64 {
    if a < b {
        0
    } else {
        (a - b) as u64
    }
}

/// A difference that stops at zero.
pub fn subtract_capped(a: u64, b: u64) -> (c: u64)
    ensures
        c == capped_difference(a, b),
{
    if a < b {
        0
    } else {
        a - b
    }
}

/// What a setting says that is switched on or off.
pub open spec fn switch_in(raw: Option<Seq<char>>) -> Option<bool> {
    match raw {
        None => None,
        Some(text) => {
            let word = trimmed(text);
            if word == "1"@ || word == "true"@ || word == "TRUE"@ || word == "yes"@ || word == "on"@ {
                Some(true)
            } else if word == "0"@ || word == "false"@ || word == "FALSE"@ || word == "no"@ || word
                == "off"@ {
                Some(false)
            } else {
                None
            }
        },
    }
}

/// What a setting says that is switched on or off.
pub fn env_bool(raw: &Option<String>) -> (value: Option<bool>)
    ensures
        value == switch_in(raw.deep_view()),
{
    match raw {
        None => None,
        Some(text) => {
            let word = trim(text.as_str());
            if same_text(word.as_str(), "1") || same_text(word.as_str(), "true") || same_text(
                word.as_str(),
                "TRUE",
            ) || same_text(word.as_str(), "yes") || same_text(word.as_str(), "on") {
                Some(true)
            } else if same_text(word.as_str(), "0") || same_text(word.as_str(), "false")
                || same_text(word.as_str(), "FALSE") || same_text(word.as_str(), "no") || same_text(
                word.as_str(),
                "off",
            ) {
                Some(false)
            } else {
                None
            }
        },
    }
}

/// The number in a setting.
pub open spec fn setting_number(raw: Option<Seq<char>>, max: nat) -> Option<nat> {
    match raw {
        None => None,
        Some(text) => number_in(trimmed(text), max),
    }
}

/// The number in a setting, or what holds without it, and never less than a
/// floor.
pub open spec fn setting_or(raw: Option<Seq<char>>, max: nat, default: nat, floor: nat) -> nat {
    let n = match setting_number(raw, max) {
        Some(x) => x,
        None => default,
    };
    if n < floor {
        floor
    } else {
        n
    }
}

/// The number in a setting.
pub fn env_u64(raw: &Option<String>) -> (value: Option<u64>)
    ensures
        match value {
            Some(n) => setting_number(raw.deep_view(), u64::MAX as nat) == Some(n as nat),
            None => setting_number(raw.deep_view(), u64::MAX as nat) is None,
        },
{
    match raw {
        None => None,
        Some(text) => parse_number(trim(text.as_str()).as_str(), u64::MAX),
    }
}

/// The number in a setting.
pub fn env_usize(raw: &Option<String>) -> (value: Option<usize>)
    ensures
        match value {
            Some(n) => setting_number(raw.deep_view(), usize::MAX as nat) == Some(n as nat),
            None => setting_number(raw.deep_view(), usize::MAX as nat) is None,
        },
{
    match raw {
        None => None,
        Some(text) => match parse_number(trim(text.as_str()).as_str(), usize::MAX as u64) {
            Some(n) => Some(n as usize),
            None => None,
        },
    }
}

/// The number in a setting, with a default and a floor.
pub fn env_u64_or(raw: &Option<String>, default: u64, floor: u64) -> (value: u64)
    ensures
        value == setting_or(raw.deep_view(), u64::MAX as nat, default as nat, floor as nat),
{
    let n: u64 = match env_u64(raw) {
        Some(n) => n,
        None => default,
    };
    if n < floor {
        floor
    } else {
        n
    }
}

/// The number in a setting, with a default and a floor.
pub fn env_usize_or(raw: &Option<String>, default: usize, floor: usize) -> (value: usize)
    ensures
        value == setting_or(raw.deep_view(), usize::MAX as nat, default as nat, floor as nat),
{
    let n: usize = match env_usize(raw) {
        Some(n) => n,
        None => default,
    };
    if n < floor {
        floor
    } else {
        n
    }
}

/// How far back the server looks for commands when it starts.
pub fn control_cmd_lookback_secs(raw: &Option<String>) -> (secs: u64)
    ensures
        secs == setting_or(
            raw.deep_view(),
            u64::MAX as nat,
            DEFAULT_CONTROL_LOOKBACK_SECS as nat,
            0,
        ),
        raw is None ==> secs == 600,
{
    env_u64_or(raw, DEFAULT_CONTROL_LOOKBACK_SECS, 0)
}

/// How long a runtime lives: a minute at least.
pub fn runtime_ttl_secs(raw: &Option<String>) -> (secs: u64)
    ensures
        secs == setting_or(raw.deep_view(), u64::MAX as nat, DEFAULT_RUNTIME_TTL_SECS as nat, 60),
        secs >= 60,
        raw is None ==> secs == 3600,
{
    env_u64_or(raw, DEFAULT_RUNTIME_TTL_SECS, 60)
}

/// How often expired runtimes are looked for.
pub fn reaper_interval_secs(raw: &Option<String>) -> (secs: u64)
    ensures
        secs == setting_or(
            raw.deep_view(),
            u64::MAX as nat,
            DEFAULT_REAPER_INTERVAL_SECS as nat,
            MIN_REAPER_INTERVAL_SECS as nat,
        ),
        secs >= 5,
        raw is None ==> secs == 30,
{
    env_u64_or(raw, DEFAULT_REAPER_INTERVAL_SECS, MIN_REAPER_INTERVAL_SECS)
}

/// How many answers are kept for repeated commands.
pub fn idempotency_max_entries(raw: &Option<String>) -> (n: usize)
    ensures
        n == setting_or(
            raw.deep_view(),
            usize::MAX as nat,
            DEFAULT_IDEMPOTENCY_MAX_ENTRIES as nat,
            MIN_IDEMPOTENCY_MAX_ENTRIES as nat,
        ),
        n >= 256,
        raw is None ==> n == 8192,
{
    env_usize_or(raw, DEFAULT_IDEMPOTENCY_MAX_ENTRIES, MIN_IDEMPOTENCY_MAX_ENTRIES)
}

/// The entries of a list with commas: what is between them, without white space
/// around it, where anything is left.
pub open spec fn list_entries(pieces: Seq<Seq<char>>) -> Seq<Seq<char>>
    decreases pieces.len(),
{
    if pieces.len() == 0 {
        Seq::empty()
    } else {
        let rest = list_entries(pieces.drop_last());
        let entry = trimmed(pieces.last());
        if entry.len() == 0 {
            rest
        } else {
            rest.push(entry)
        }
    }
}

/// The entries of a list with commas.
pub fn comma_list(raw: &str) -> (entries: Vec<String>)
    ensures
        entries.deep_view() == list_entries(split_at(raw@, ',')),
{
    let pieces = split_on(raw, ',');
    let ghost all = pieces.deep_view();
    let mut entries: Vec<String> = Vec::new();
    let mut i: usize = 0;
    proof {
        assert(all.take(0) =~= Seq::<Seq<char>>::empty());
        assert(entries.deep_view() =~= Seq::<Seq<char>>::empty());
    }
    while i < pieces.len()
        invariant
            i <= pieces.len(),
            all == pieces.deep_view(),
            entries.deep_view() == list_entries(all.take(i as int)),
        decreases pieces.len() - i,
    {
        let entry = trim(pieces[i].as_str());
        let ghost before = entries.deep_view();
        proof {
            assert(all.take(i + 1).drop_last() =~= all.take(i as int));
            assert(all.take(i + 1).last() == all[i as int]);
        }
        if !entry.as_str().is_empty() {
            let ghost added = entry@;
            entries.push(entry);
            proof {
                assert(entries.deep_view() =~= before.push(added));
            }
        }
        i += 1;
    }
    proof {
        assert(all.take(i as int) =~= all);
    }
    entries
}

/// A public key in hexadecimal, where a text is one: in hexadecimal, in bech32 or
/// as a `nostr:` address.
pub uninterp spec fn pubkey_hex(text: Seq<char>) -> Option<Seq<char>>;

/// `PublicKey::parse` of `nostr_sdk`, and `to_hex` of what it gives. Claimed:
/// whether there is a key, and which, is a function of the text.
#[verifier::external_body]
fn parse_pubkey(text: &str) -> (hex: Option<String>)
    ensures
        hex.deep_view() == pubkey_hex(text@),
{
    nostr_sdk::PublicKey::parse(text).ok().map(|key| key.to_hex())
}

/// Who may have runtimes provisioned.
#[derive(Debug, PartialEq, Eq)]
pub enum ProvisionPolicy {
    AllowAll,
    Allowlist(OrdSet<String>),
    DenyAll,
}

/// What a [`ProvisionPolicy`] holds.
#[verifier::ext_equal]
pub enum ProvisionPolicyModel {
    AllowAll,
    Allowlist(Set<Seq<char>>),
    DenyAll,
}

impl DeepView for ProvisionPolicy {
    type V = ProvisionPolicyModel;

    open spec fn deep_view(&self) -> ProvisionPolicyModel {
        match self {
            ProvisionPolicy::AllowAll => ProvisionPolicyModel::AllowAll,
            ProvisionPolicy::Allowlist(a) => ProvisionPolicyModel::Allowlist(a.deep_view()),
            ProvisionPolicy::DenyAll => ProvisionPolicyModel::DenyAll,
        }
    }
}

impl View for ProvisionPolicy {
    type V = ProvisionPolicyModel;

    open spec fn view(&self) -> ProvisionPolicyModel {
        self.deep_view()
    }
}

impl Replicate for ProvisionPolicy {
    fn replicate(&self) -> (copy: Self) {
        match self {
            ProvisionPolicy::AllowAll => ProvisionPolicy::AllowAll,
            ProvisionPolicy::Allowlist(a) => ProvisionPolicy::Allowlist(a.replicate()),
            ProvisionPolicy::DenyAll => ProvisionPolicy::DenyAll,
        }
    }
}

impl Clone for ProvisionPolicy {
    fn clone(&self) -> (copy: Self)
        ensures
            copy@ == self@,
    {
        self.replicate()
    }
}

/// Whether a requester may have runtimes provisioned.
pub open spec fn allows(policy: ProvisionPolicyModel, requester: Seq<char>) -> bool {
    match policy {
        ProvisionPolicyModel::AllowAll => true,
        ProvisionPolicyModel::Allowlist(allowed) => allowed.contains(requester),
        ProvisionPolicyModel::DenyAll => false,
    }
}

impl ProvisionPolicy {
    /// Whether a requester may have runtimes provisioned.
    pub fn is_allowed(&self, requester_pubkey_hex: &str) -> (allowed: bool)
        ensures
            allowed == allows(self@, requester_pubkey_hex@),
    {
        match self {
            ProvisionPolicy::AllowAll => true,
            ProvisionPolicy::Allowlist(allowed) => {
                allowed.contains(&requester_pubkey_hex.to_owned())
            },
            ProvisionPolicy::DenyAll => false,
        }
    }
}

/// The keys that the entries of a list are, or the complaint about the first entry
/// that is none.
pub open spec fn keys_among(entries: Seq<Seq<char>>, keys: Seq<Option<Seq<char>>>) -> Result<
    Set<Seq<char>>,
    Seq<char>,
>
    decreases entries.len(),
{
    if entries.len() == 0 || keys.len() == 0 {
        Ok(Set::empty())
    } else {
        match (keys_among(entries.drop_last(), keys.drop_last()), keys.last()) {
            (Err(complaint), _) => Err(complaint),
            (Ok(_), None) => Err("parse provision allowlist pubkey: "@ + entries.last()),
            (Ok(before), Some(hex)) => Ok(before.insert(hex)),
        }
    }
}

/// The keys in a list, or the complaint about the first entry that is none.
pub open spec fn keys_in(entries: Seq<Seq<char>>) -> Result<Set<Seq<char>>, Seq<char>> {
    keys_among(entries, entries.map_values(|entry: Seq<char>| pubkey_hex(entry)))
}

/// The policy that the settings make, given the keys that are listed: open to all
/// where that is switched on, otherwise for those listed, and for nobody where
/// nobody is.
pub open spec fn policy_with(
    open_to_all: Option<bool>,
    keys: Result<Set<Seq<char>>, Seq<char>>,
) -> Result<ProvisionPolicyModel, Seq<char>> {
    if open_to_all == Some(true) {
        Ok(ProvisionPolicyModel::AllowAll)
    } else {
        match keys {
            Err(complaint) => Err(complaint),
            Ok(keys) => if keys == Set::<Seq<char>>::empty() {
                Ok(ProvisionPolicyModel::DenyAll)
            } else {
                Ok(ProvisionPolicyModel::Allowlist(keys))
            },
        }
    }
}

/// The policy that the settings make.
pub open spec fn policy_of(open_to_all: Option<bool>, raw: Seq<char>) -> Result<
    ProvisionPolicyModel,
    Seq<char>,
> {
    policy_with(open_to_all, keys_in(list_entries(split_at(raw, ','))))
}

/// The policy that the settings make, given for each entry of the list the key
/// that it is.
pub fn policy_from_keys(
    open_to_all: Option<bool>,
    entries: &Vec<String>,
    keys: &Vec<Option<String>>,
) -> (result: Result<ProvisionPolicy, String>)
    requires
        entries.len() == keys.len(),
    ensures
        text_outcome(result) == policy_with(
            open_to_all,
            keys_among(entries.deep_view(), keys.deep_view()),
        ),
{
    if let Some(true) = open_to_all {
        return Ok(ProvisionPolicy::AllowAll);
    }
    let ghost all = entries.deep_view();
    let ghost found = keys.deep_view();
    let mut allowed: OrdSet<String> = OrdSet::new();
    let mut i: usize = 0;
    proof {
        assert(all.take(0) =~= Seq::<Seq<char>>::empty());
    }
    while i < entries.len()
        invariant
            i <= entries.len() == keys.len(),
            all == entries.deep_view(),
            found == keys.deep_view(),
            open_to_all != Some(true),
            keys_among(all.take(i as int), found.take(i as int)) == Ok::<
                Set<Seq<char>>,
                Seq<char>,
            >(allowed@),
        decreases entries.len() - i,
    {
        proof {
            assert(all.take(i + 1).drop_last() =~= all.take(i as int));
            assert(all.take(i + 1).last() == all[i as int]);
            assert(found.take(i + 1).drop_last() =~= found.take(i as int));
            assert(found.take(i + 1).last() == keys[i as int].deep_view());
        }
        match &keys[i] {
            Some(hex) => {
                allowed.insert(hex.clone());
            },
            None => {
                proof {
                    lemma_first_complaint_stays(all, found, i + 1);
                }
                return Err(
                    "parse provision allowlist pubkey: ".to_owned().concat(entries[i].as_str()),
                );
            },
        }
        i += 1;
    }
    proof {
        assert(all.take(i as int) =~= all);
        assert(found.take(i as int) =~= found);
    }
    if allowed.is_empty() {
        Ok(ProvisionPolicy::DenyAll)
    } else {
        Ok(ProvisionPolicy::Allowlist(allowed))
    }
}

/// The policy that the settings make.
pub fn load_provision_policy(open_to_all: Option<bool>, raw: &str) -> (result: Result<
    ProvisionPolicy,
    String,
>)
    ensures
        text_outcome(result) == policy_of(open_to_all, raw@),
{
    let entries = comma_list(raw);
    let ghost all = entries.deep_view();
    let mut keys: Vec<Option<String>> = Vec::new();
    let mut i: usize = 0;
    while i < entries.len()
        invariant
            i <= entries.len(),
            all == entries.deep_view(),
            keys.len() == i,
            forall|j: int| 0 <= j < i ==> #[trigger] keys@[j].deep_view() == pubkey_hex(all[j]),
        decreases entries.len() - i,
    {
        keys.push(parse_pubkey(entries[i].as_str()));
        i += 1;
    }
    proof {
        assert(keys.deep_view() =~= all.map_values(|entry: Seq<char>| pubkey_hex(entry)));
    }
    policy_from_keys(open_to_all, &entries, &keys)
}

proof fn lemma_first_complaint_stays(
    entries: Seq<Seq<char>>,
    keys: Seq<Option<Seq<char>>>,
    i: int,
)
    requires
        0 < i <= entries.len() == keys.len(),
        keys_among(entries.take(i), keys.take(i)) is Err,
    ensures
        keys_among(entries, keys) == keys_among(entries.take(i), keys.take(i)),
    decreases entries.len() - i,
{
    if i < entries.len() {
        assert(entries.take(i + 1).drop_last() =~= entries.take(i));
        assert(keys.take(i + 1).drop_last() =~= keys.take(i));
        lemma_first_complaint_stays(entries, keys, i + 1);
    } else {
        assert(entries.take(i) =~= entries);
        assert(keys.take(i) =~= keys);
    }
}

/// A requester who is listed, and no other, may have runtimes provisioned; where
/// nobody is listed and it is not open to all, nobody may.
pub proof fn only_listed_requesters_are_allowed(
    open_to_all: Option<bool>,
    raw: Seq<char>,
    requester: Seq<char>,
)
    requires
        policy_of(open_to_all, raw) is Ok,
    ensures
        allows(policy_of(open_to_all, raw)->Ok_0, requester) <==> open_to_all == Some(true) || keys_in(
            list_entries(split_at(raw, ',')),
        )->Ok_0.contains(requester),
{
}

/// What is switched on.
#[derive(Debug, PartialEq, Eq)]
pub struct V2RolloutFlags {
    pub advanced_workload_enabled: bool,
}

/// What a [`V2RolloutFlags`] holds.
#[verifier::ext_equal]
pub struct V2RolloutFlagsModel {
    pub advanced_workload_enabled: bool,
}

impl DeepView for V2RolloutFlags {
    type V = V2RolloutFlagsModel;

    open spec fn deep_view(&self) -> V2RolloutFlagsModel {
        V2RolloutFlagsModel {
            advanced_workload_enabled: self.advanced_workload_enabled.deep_view(),
        }
    }
}

impl View for V2RolloutFlags {
    type V = V2RolloutFlagsModel;

    open spec fn view(&self) -> V2RolloutFlagsModel {
        self.deep_view()
    }
}

impl Replicate for V2RolloutFlags {
    fn replicate(&self) -> (copy: Self) {
        V2RolloutFlags {
            advanced_workload_enabled: self.advanced_workload_enabled.replicate(),
        }
    }
}

impl Clone for V2RolloutFlags {
    fn clone(&self) -> (copy: Self)
        ensures
            copy@ == self@,
    {
        self.replicate()
    }
}

/// What the settings switch on.
pub fn load_v2_rollout_flags(advanced_workload: &Option<String>) -> (flags: V2RolloutFlags)
    ensures
        flags@ == (V2RolloutFlagsModel {
            advanced_workload_enabled: switch_in(advanced_workload.deep_view()) == Some(true),
        }),
{
    let advanced_workload_enabled = match env_bool(advanced_workload) {
        Some(on) => on,
        None => false,
    };
    V2RolloutFlags { advanced_workload_enabled }
}

/// The parts of an address.
#[derive(Debug, PartialEq, Eq)]
pub struct UrlParts {
    pub scheme: String,
    pub host: Option<String>,
    pub segments: Option<Vec<String>>,
    pub port: Option<u16>,
}

/// What a [`UrlParts`] holds.
#[verifier::ext_equal]
pub struct UrlPartsModel {
    pub scheme: Seq<char>,
    pub host: Option<Seq<char>>,
    pub segments: Option<Seq<Seq<char>>>,
    pub port: Option<u16>,
}

impl DeepView for UrlParts {
    type V = UrlPartsModel;

    open spec fn deep_view(&self) -> UrlPartsModel {
        UrlPartsModel {
            scheme: self.scheme.deep_view(),
            host: self.host.deep_view(),
            segments: self.segments.deep_view(),
            port: self.port.deep_view(),
        }
    }
}

impl View for UrlParts {
    type V = UrlPartsModel;

    open spec fn view(&self) -> UrlPartsModel {
        self.deep_view()
    }
}

impl Replicate for UrlParts {
    fn replicate(&self) -> (copy: Self) {
        UrlParts {
            scheme: self.scheme.replicate(),
            host: self.host.replicate(),
            segments: self.segments.replicate(),
            port: self.port.replicate(),
        }
    }
}

impl Clone for UrlParts {
    fn clone(&self) -> (copy: Self)
        ensures
            copy@ == self@,
    {
        self.replicate()
    }
}

/// Sources that builds may come from: those below this one.
#[derive(Debug, PartialEq, Eq)]
pub struct SourceAllowRule {
    pub source_prefix: Option<String>,
    pub scheme: String,
    pub host: String,
    pub port: Option<u16>,
    pub path_segments: Vec<String>,
}

/// What a [`SourceAllowRule`] holds.
#[verifier::ext_equal]
pub struct SourceAllowRuleModel {
    pub source_prefix: Option<Seq<char>>,
    pub scheme: Seq<char>,
    pub host: Seq<char>,
    pub port: Option<u16>,
    pub path_segments: Seq<Seq<char>>,
}

impl DeepView for SourceAllowRule {
    type V = SourceAllowRuleModel;

    open spec fn deep_view(&self) -> SourceAllowRuleModel {
        SourceAllowRuleModel {
            source_prefix: self.source_prefix.deep_view(),
            scheme: self.scheme.deep_view(),
            host: self.host.deep_view(),
            port: self.port.deep_view(),
            path_segments: self.path_segments.deep_view(),
        }
    }
}

impl View for SourceAllowRule {
    type V = SourceAllowRuleModel;

    open spec fn view(&self) -> SourceAllowRuleModel {
        self.deep_view()
    }
}

impl Replicate for SourceAllowRule {
    fn replicate(&self) -> (copy: Self) {
        SourceAllowRule {
            source_prefix: self.source_prefix.replicate(),
            scheme: self.scheme.replicate(),
            host: self.host.replicate(),
            port: self.port.replicate(),
            path_segments: self.path_segments.replicate(),
        }
    }
}

impl Clone for SourceAllowRule {
    fn clone(&self) -> (copy: Self)
        ensures
            copy@ == self@,
    {
        self.replicate()
    }
}

/// Where a build comes from.
#[derive(Debug, PartialEq, Eq)]
pub struct ParsedSourceRef {
    pub source_prefix: Option<String>,
    pub scheme: String,
    pub host: String,
    pub port: Option<u16>,
    pub path_segments: Vec<String>,
}

/// What a [`ParsedSourceRef`] holds.
#[verifier::ext_equal]
pub struct ParsedSourceRefModel {
    pub source_prefix: Option<Seq<char>>,
    pub scheme: Seq<char>,
    pub host: Seq<char>,
    pub port: Option<u16>,
    pub path_segments: Seq<Seq<char>>,
}

impl DeepView for ParsedSourceRef {
    type V = ParsedSourceRefModel;

    open spec fn deep_view(&self) -> ParsedSourceRefModel {
        ParsedSourceRefModel {
            source_prefix: self.source_prefix.deep_view(),
            scheme: self.scheme.deep_view(),
            host: self.host.deep_view(),
            port: self.port.deep_view(),
            path_segments: self.path_segments.deep_view(),
        }
    }
}

impl View for ParsedSourceRef {
    type V = ParsedSourceRefModel;

    open spec fn view(&self) -> ParsedSourceRefModel {
        self.deep_view()
    }
}

impl Replicate for ParsedSourceRef {
    fn replicate(&self) -> (copy: Self) {
        ParsedSourceRef {
            source_prefix: self.source_prefix.replicate(),
            scheme: self.scheme.replicate(),
            host: self.host.replicate(),
            port: self.port.replicate(),
            path_segments: self.path_segments.replicate(),
        }
    }
}

impl Clone for ParsedSourceRef {
    fn clone(&self) -> (copy: Self)
        ensures
            copy@ == self@,
    {
        self.replicate()
    }
}

/// The parts of an address, where a text is one.
pub uninterp spec fn url_parts(text: Seq<char>) -> Option<UrlPartsModel>;

/// `Url::parse` of `reqwest`, and the scheme, host, path segments and port of what
/// it gives. Claimed: whether there is an address, and which parts it has, is a
/// function of the text.
#[verifier::external_body]
fn parse_url(text: &str) -> (parts: Option<UrlParts>)
    ensures
        parts.deep_view() == url_parts(text@),
{
    let url = reqwest::Url::parse(text).ok()?;
    Some(
        UrlParts {
            scheme: url.scheme().to_string(),
            host: url.host_str().map(|host| host.to_string()),
            segments: url.path_segments().map(|all| all.map(|one| one.to_string()).collect()),
            port: url.port_or_known_default(),
        },
    )
}

/// The path that segments lead to: white space around them, empty ones and those
/// that stay do not count, and one that goes up takes the last one back; nothing
/// where there is none to take back.
pub open spec fn path_of(segments: Seq<Seq<char>>) -> Option<Seq<Seq<char>>>
    decreases segments.len(),
{
    if segments.len() == 0 {
        Some(Seq::empty())
    } else {
        let segment = trimmed(segments.last());
        match path_of(segments.drop_last()) {
            None => None,
            Some(path) => if segment.len() == 0 || segment == "."@ {
                Some(path)
            } else if segment == ".."@ {
                if path.len() == 0 {
                    None
                } else {
                    Some(path.drop_last())
                }
            } else {
                Some(path.push(segment))
            },
        }
    }
}

/// Where a source reference leads, given the parts of its address, or the
/// complaint about it.
pub open spec fn source_of(raw: Seq<char>, parts: Option<UrlPartsModel>) -> Result<
    ParsedSourceRefModel,
    Seq<char>,
> {
    let text = trimmed(raw);
    if text.len() == 0 {
        Err("source ref must be non-empty"@)
    } else {
        match parts {
            None => Err("parse source url: "@ + text),
            Some(url) => {
                let scheme = lower_text(url.scheme);
                if scheme != "https"@ && scheme != "http"@ {
                    Err("source url scheme must be http or https"@)
                } else if url.host is None {
                    Err("source url host is required"@)
                } else {
                    let path = match url.segments {
                        Some(segments) => path_of(segments),
                        None => Some(Seq::empty()),
                    };
                    match path {
                        None => Err("source url path attempts to traverse above root"@),
                        Some(path_segments) => Ok(
                            ParsedSourceRefModel {
                                source_prefix: if begins_with(text, "git+"@) {
                                    Some("git"@)
                                } else {
                                    None
                                },
                                scheme,
                                host: lower_text(url.host->0),
                                port: url.port,
                                path_segments,
                            },
                        ),
                    }
                }
            },
        }
    }
}

/// The address in a source reference: what follows `git+`, where it starts so.
pub open spec fn source_address(raw: Seq<char>) -> Seq<char> {
    let text = trimmed(raw);
    if begins_with(text, "git+"@) {
        text.skip("git+"@.len() as int)
    } else {
        text
    }
}

/// Where a source reference leads, or the complaint about it.
pub open spec fn source_in(raw: Seq<char>) -> Result<ParsedSourceRefModel, Seq<char>> {
    source_of(raw, url_parts(source_address(raw)))
}

/// A result whose error is a text, as a model.
pub open spec fn text_outcome<T: DeepView>(result: Result<T, String>) -> Result<T::V, Seq<char>> {
    match result {
        Ok(value) => Ok(value.deep_view()),
        Err(text) => Err(text@),
    }
}

proof fn lemma_lost_path_stays(segments: Seq<Seq<char>>, i: int)
    requires
        0 <= i <= segments.len(),
        path_of(segments.take(i)) is None,
    ensures
        path_of(segments) is None,
    decreases segments.len() - i,
{
    if i < segments.len() {
        assert(segments.take(i + 1).drop_last() =~= segments.take(i));
        lemma_lost_path_stays(segments, i + 1);
    } else {
        assert(segments.take(i) =~= segments);
    }
}

/// The path that segments lead to.
fn walk_path(segments: &Vec<String>) -> (path: Option<Vec<String>>)
    ensures
        path.deep_view() == path_of(segments.deep_view()),
{
    let ghost all = segments.deep_view();
    let mut path: Vec<String> = Vec::new();
    let mut i: usize = 0;
    proof {
        assert(all.take(0) =~= Seq::<Seq<char>>::empty());
        assert(path.deep_view() =~= Seq::<Seq<char>>::empty());
    }
    while i < segments.len()
        invariant
            i <= segments.len(),
            all == segments.deep_view(),
            path_of(all.take(i as int)) == Some(path.deep_view()),
        decreases segments.len() - i,
    {
        let segment = trim(segments[i].as_str());
        let ghost before = path.deep_view();
        proof {
            assert(all.take(i + 1).drop_last() =~= all.take(i as int));
            assert(all.take(i + 1).last() == all[i as int]);
        }
        if segment.as_str().is_empty() || same_text(segment.as_str(), ".") {
        } else if same_text(segment.as_str(), "..") {
            if path.pop().is_none() {
                proof {
                    assert(before.len() == 0);
                    lemma_lost_path_stays(all, i + 1);
                }
                return None;
            }
            proof {
                assert(path.deep_view() =~= before.drop_last());
            }
        } else {
            let ghost added = segment@;
            path.push(segment);
            proof {
                assert(path.deep_view() =~= before.push(added));
            }
        }
        i += 1;
    }
    proof {
        assert(all.take(i as int) =~= all);
    }
    Some(path)
}

/// Where a source reference leads, given the parts of its address, or the
/// complaint about it.
pub fn source_from_parts(raw: &str, parts: Option<UrlParts>) -> (result: Result<
    ParsedSourceRef,
    String,
>)
    ensures
        text_outcome(result) == source_of(raw@, parts.deep_view()),
{
    let text = trim(raw);
    if text.as_str().is_empty() {
        return Err("source ref must be non-empty".to_owned());
    }
    let url = match parts {
        Some(url) => url,
        None => {
            return Err("parse source url: ".to_owned().concat(text.as_str()));
        },
    };
    let source_prefix = if starts_with(text.as_str(), "git+") {
        Some("git".to_owned())
    } else {
        None
    };
    let scheme = to_lower(url.scheme.as_str());
    if !same_text(scheme.as_str(), "https") && !same_text(scheme.as_str(), "http") {
        return Err("source url scheme must be http or https".to_owned());
    }
    let host = match url.host {
        Some(host) => to_lower(host.as_str()),
        None => {
            return Err("source url host is required".to_owned());
        },
    };
    let path = match url.segments {
        Some(segments) => walk_path(&segments),
        None => {
            let none: Vec<String> = Vec::new();
            proof {
                assert(none.deep_view() =~= Seq::<Seq<char>>::empty());
            }
            Some(none)
        },
    };
    match path {
        None => Err("source url path attempts to traverse above root".to_owned()),
        Some(path_segments) => Ok(
            ParsedSourceRef { source_prefix, scheme, host, port: url.port, path_segments },
        ),
    }
}

/// Where a source reference leads, or the complaint about it.
pub fn parse_source_ref(raw: &str) -> (result: Result<ParsedSourceRef, String>)
    ensures
        text_outcome(result) == source_in(raw@),
{
    let text = trim(raw);
    let address = match after_start(text.as_str(), "git+") {
        Some(rest) => rest,
        None => text,
    };
    source_from_parts(raw, parse_url(address.as_str()))
}

/// The sources below a given one.
pub open spec fn rule_of(source: ParsedSourceRefModel) -> SourceAllowRuleModel {
    SourceAllowRuleModel {
        source_prefix: source.source_prefix,
        scheme: source.scheme,
        host: source.host,
        port: source.port,
        path_segments: source.path_segments,
    }
}

/// Whether a rule admits a source: the same kind, scheme, host and port, and a
/// path that starts with the rule's, segment by segment.
pub open spec fn rule_admits(rule: SourceAllowRuleModel, source: ParsedSourceRefModel) -> bool {
    &&& rule.source_prefix == source.source_prefix
    &&& rule.scheme == source.scheme
    &&& rule.host == source.host
    &&& rule.port == source.port
    &&& rule.path_segments.len() <= source.path_segments.len()
    &&& source.path_segments.take(rule.path_segments.len() as int) == rule.path_segments
}

/// Whether one of some rules admits a source.
pub open spec fn admitted(
    rules: Seq<SourceAllowRuleModel>,
    source: ParsedSourceRefModel,
) -> bool {
    exists|i: int| 0 <= i < rules.len() && rule_admits(#[trigger] rules[i], source)
}

/// Whether two optional texts are the same.
pub fn same_optional_text(a: &Option<String>, b: &Option<String>) -> (same: bool)
    ensures
        same == (a.deep_view() == b.deep_view()),
{
    match (a, b) {
        (Some(x), Some(y)) => *x == *y,
        (None, None) => true,
        _ => false,
    }
}

impl SourceAllowRule {
    /// The sources below the one that a text names.
    pub fn parse(raw: &str) -> (result: Result<Self, String>)
        ensures
            text_outcome(result) == match source_in(raw@) {
                Ok(source) => Ok::<SourceAllowRuleModel, Seq<char>>(rule_of(source)),
                Err(complaint) => Err(complaint),
            },
    {
        match parse_source_ref(raw) {
            Ok(source) => Ok(
                SourceAllowRule {
                    source_prefix: source.source_prefix,
                    scheme: source.scheme,
                    host: source.host,
                    port: source.port,
                    path_segments: source.path_segments,
                },
            ),
            Err(complaint) => Err(complaint),
        }
    }

    /// Whether this rule admits a source.
    pub fn matches(&self, source: &ParsedSourceRef) -> (admits: bool)
        ensures
            admits == rule_admits(self@, source@),
    {
        if !same_optional_text(&self.source_prefix, &source.source_prefix) || self.scheme
            != source.scheme || self.host != source.host {
            return false;
        }
        let same_port = match (self.port, source.port) {
            (Some(a), Some(b)) => a == b,
            (None, None) => true,
            _ => false,
        };
        if !same_port || self.path_segments.len() > source.path_segments.len() {
            return false;
        }
        let mut i: usize = 0;
        while i < self.path_segments.len()
            invariant
                i <= self.path_segments.len() <= source.path_segments.len(),
                forall|j: int|
                    0 <= j < i ==> #[trigger] self@.path_segments[j] == source@.path_segments[j],
            decreases self.path_segments.len() - i,
        {
            if self.path_segments[i] != source.path_segments[i] {
                proof {
                    let n = self@.path_segments.len() as int;
                    assert(source@.path_segments.take(n)[i as int] != self@.path_segments[i as int]);
                }
                return false;
            }
            i += 1;
        }
        proof {
            let n = self@.path_segments.len() as int;
            assert(source@.path_segments.take(n) =~= self@.path_segments);
        }
        true
    }
}

/// Whether one of some rules admits a source.
pub fn any_rule_matches(rules: &Vec<SourceAllowRule>, source: &ParsedSourceRef) -> (admits: bool)
    ensures
        admits == admitted(rules.deep_view(), source@),
{
    let mut i: usize = 0;
    while i < rules.len()
        invariant
            i <= rules.len(),
            forall|j: int| 0 <= j < i ==> !rule_admits(#[trigger] rules.deep_view()[j], source@),
        decreases rules.len() - i,
    {
        if rules[i].matches(source) {
            proof {
                assert(rule_admits(rules.deep_view()[i as int], source@));
            }
            return true;
        }
        i += 1;
    }
    false
}

/// A rule admits no other host, and below its path nothing but what starts with
/// the rule's segments: a longer name in place of a segment is another path.
pub proof fn rule_admits_no_lookalike(rule: SourceAllowRuleModel, source: ParsedSourceRefModel, i: int)
    requires
        rule_admits(rule, source),
        0 <= i < rule.path_segments.len(),
    ensures
        source.host == rule.host,
        source.path_segments[i] == rule.path_segments[i],
{
    let n = rule.path_segments.len() as int;
    assert(source.path_segments.take(n)[i] == source.path_segments[i]);
}

/// A rule admits the source it was made from, and everything below that.
pub proof fn rule_admits_its_own(source: ParsedSourceRefModel, more: Seq<Seq<char>>)
    ensures
        rule_admits(
            rule_of(source),
            ParsedSourceRefModel { path_segments: source.path_segments + more, ..source },
        ),
{
    let n = source.path_segments.len() as int;
    assert((source.path_segments + more).take(n) =~= source.path_segments);
}

/// The limits for builds.
#[derive(Debug, PartialEq, Eq)]
pub struct BuildPolicy {
    pub max_active_builds: usize,
    pub max_submissions_per_hour: usize,
    pub max_context_bytes: u64,
    pub default_timeout_secs: u64,
    pub max_timeout_secs: u64,
    pub artifact_ttl_secs: u64,
    pub max_audit_entries: usize,
    pub allowed_source_rules: Vec<SourceAllowRule>,
}

/// What a [`BuildPolicy`] holds.
#[verifier::ext_equal]
pub struct BuildPolicyModel {
    pub max_active_builds: usize,
    pub max_submissions_per_hour: usize,
    pub max_context_bytes: u64,
    pub default_timeout_secs: u64,
    pub max_timeout_secs: u64,
    pub artifact_ttl_secs: u64,
    pub max_audit_entries: usize,
    pub allowed_source_rules: Seq<SourceAllowRuleModel>,
}

impl DeepView for BuildPolicy {
    type V = BuildPolicyModel;

    open spec fn deep_view(&self) -> BuildPolicyModel {
        BuildPolicyModel {
            max_active_builds: self.max_active_builds.deep_view(),
            max_submissions_per_hour: self.max_submissions_per_hour.deep_view(),
            max_context_bytes: self.max_context_bytes.deep_view(),
            default_timeout_secs: self.default_timeout_secs.deep_view(),
            max_timeout_secs: self.max_timeout_secs.deep_view(),
            artifact_ttl_secs: self.artifact_ttl_secs.deep_view(),
            max_audit_entries: self.max_audit_entries.deep_view(),
            allowed_source_rules: self.allowed_source_rules.deep_view(),
        }
    }
}

impl View for BuildPolicy {
    type V = BuildPolicyModel;

    open spec fn view(&self) -> BuildPolicyModel {
        self.deep_view()
    }
}

impl Replicate for BuildPolicy {
    fn replicate(&self) -> (copy: Self) {
        BuildPolicy {
            max_active_builds: self.max_active_builds.replicate(),
            max_submissions_per_hour: self.max_submissions_per_hour.replicate(),
            max_context_bytes: self.max_context_bytes.replicate(),
            default_timeout_secs: self.default_timeout_secs.replicate(),
            max_timeout_secs: self.max_timeout_secs.replicate(),
            artifact_ttl_secs: self.artifact_ttl_secs.replicate(),
            max_audit_entries: self.max_audit_entries.replicate(),
            allowed_source_rules: self.allowed_source_rules.replicate(),
        }
    }
}

impl Clone for BuildPolicy {
    fn clone(&self) -> (copy: Self)
        ensures
            copy@ == self@,
    {
        self.replicate()
    }
}

/// The settings for builds, as they were found.
#[derive(Debug, PartialEq, Eq)]
pub struct BuildSettings {
    pub allowed_source_prefixes: String,
    pub max_active: Option<String>,
    pub max_submissions_per_hour: Option<String>,
    pub max_context_bytes: Option<String>,
    pub default_timeout_secs: Option<String>,
    pub max_timeout_secs: Option<String>,
    pub artifact_ttl_secs: Option<String>,
    pub audit_max_entries: Option<String>,
}

/// What a [`BuildSettings`] holds.
#[verifier::ext_equal]
pub struct BuildSettingsModel {
    pub allowed_source_prefixes: Seq<char>,
    pub max_active: Option<Seq<char>>,
    pub max_submissions_per_hour: Option<Seq<char>>,
    pub max_context_bytes: Option<Seq<char>>,
    pub default_timeout_secs: Option<Seq<char>>,
    pub max_timeout_secs: Option<Seq<char>>,
    pub artifact_ttl_secs: Option<Seq<char>>,
    pub audit_max_entries: Option<Seq<char>>,
}

impl DeepView for BuildSettings {
    type V = BuildSettingsModel;

    open spec fn deep_view(&self) -> BuildSettingsModel {
        BuildSettingsModel {
            allowed_source_prefixes: self.allowed_source_prefixes.deep_view(),
            max_active: self.max_active.deep_view(),
            max_submissions_per_hour: self.max_submissions_per_hour.deep_view(),
            max_context_bytes: self.max_context_bytes.deep_view(),
            default_timeout_secs: self.default_timeout_secs.deep_view(),
            max_timeout_secs: self.max_timeout_secs.deep_view(),
            artifact_ttl_secs: self.artifact_ttl_secs.deep_view(),
            audit_max_entries: self.audit_max_entries.deep_view(),
        }
    }
}

impl View for BuildSettings {
    type V = BuildSettingsModel;

    open spec fn view(&self) -> BuildSettingsModel {
        self.deep_view()
    }
}

impl Replicate for BuildSettings {
    fn replicate(&self) -> (copy: Self) {
        BuildSettings {
            allowed_source_prefixes: self.allowed_source_prefixes.replicate(),
            max_active: self.max_active.replicate(),
            max_submissions_per_hour: self.max_submissions_per_hour.replicate(),
            max_context_bytes: self.max_context_bytes.replicate(),
            default_timeout_secs: self.default_timeout_secs.replicate(),
            max_timeout_secs: self.max_timeout_secs.replicate(),
            artifact_ttl_secs: self.artifact_ttl_secs.replicate(),
            audit_max_entries: self.audit_max_entries.replicate(),
        }
    }
}

impl Clone for BuildSettings {
    fn clone(&self) -> (copy: Self)
        ensures
            copy@ == self@,
    {
        self.replicate()
    }
}

/// The rules that a list of sources makes; an entry that names no source makes
/// none.
pub open spec fn rules_in(entries: Seq<Seq<char>>) -> Seq<SourceAllowRuleModel>
    decreases entries.len(),
{
    if entries.len() == 0 {
        Seq::empty()
    } else {
        match source_in(entries.last()) {
            Ok(source) => rules_in(entries.drop_last()).push(rule_of(source)),
            Err(_) => rules_in(entries.drop_last()),
        }
    }
}

/// The limits that the settings make.
pub open spec fn build_policy_of(settings: BuildSettingsModel) -> BuildPolicyModel {
    let max = u64::MAX as nat;
    let size = usize::MAX as nat;
    BuildPolicyModel {
        max_active_builds: setting_or(
            settings.max_active,
            size,
            DEFAULT_BUILD_MAX_ACTIVE as nat,
            1,
        ) as usize,
        max_submissions_per_hour: setting_or(
            settings.max_submissions_per_hour,
            size,
            DEFAULT_BUILD_MAX_SUBMISSIONS_PER_HOUR as nat,
            1,
        ) as usize,
        max_context_bytes: setting_or(
            settings.max_context_bytes,
            max,
            DEFAULT_BUILD_MAX_CONTEXT_BYTES as nat,
            1024,
        ) as u64,
        default_timeout_secs: setting_or(
            settings.default_timeout_secs,
            max,
            DEFAULT_BUILD_TIMEOUT_SECS as nat,
            60,
        ) as u64,
        max_timeout_secs: setting_or(
            settings.max_timeout_secs,
            max,
            (DEFAULT_BUILD_TIMEOUT_SECS * 4) as nat,
            60,
        ) as u64,
        artifact_ttl_secs: setting_or(
            settings.artifact_ttl_secs,
            max,
            DEFAULT_BUILD_ARTIFACT_TTL_SECS as nat,
            60,
        ) as u64,
        max_audit_entries: setting_or(
            settings.audit_max_entries,
            size,
            DEFAULT_AUDIT_MAX_ENTRIES as nat,
            128,
        ) as usize,
        allowed_source_rules: rules_in(list_entries(split_at(settings.allowed_source_prefixes, ','))),
    }
}

/// The limits that the settings make.
pub fn load_build_policy(settings: &BuildSettings) -> (policy: BuildPolicy)
    ensures
        policy@ == build_policy_of(settings@),
{
    let entries = comma_list(settings.allowed_source_prefixes.as_str());
    let ghost all = entries.deep_view();
    let mut rules: Vec<SourceAllowRule> = Vec::new();
    let mut i: usize = 0;
    proof {
        assert(all.take(0) =~= Seq::<Seq<char>>::empty());
        assert(rules.deep_view() =~= Seq::<SourceAllowRuleModel>::empty());
    }
    while i < entries.len()
        invariant
            i <= entries.len(),
            all == entries.deep_view(),
            rules.deep_view() == rules_in(all.take(i as int)),
        decreases entries.len() - i,
    {
        let ghost before = rules.deep_view();
        proof {
            assert(all.take(i + 1).drop_last() =~= all.take(i as int));
            assert(all.take(i + 1).last() == all[i as int]);
        }
        if let Ok(rule) = SourceAllowRule::parse(entries[i].as_str()) {
            let ghost added = rule@;
            rules.push(rule);
            proof {
                assert(rules.deep_view() =~= before.push(added));
            }
        }
        i += 1;
    }
    proof {
        assert(all.take(i as int) =~= all);
    }
    BuildPolicy {
        max_active_builds: env_usize_or(&settings.max_active, DEFAULT_BUILD_MAX_ACTIVE, 1),
        max_submissions_per_hour: env_usize_or(
            &settings.max_submissions_per_hour,
            DEFAULT_BUILD_MAX_SUBMISSIONS_PER_HOUR,
            1,
        ),
        max_context_bytes: env_u64_or(
            &settings.max_context_bytes,
            DEFAULT_BUILD_MAX_CONTEXT_BYTES,
            1024,
        ),
        default_timeout_secs: env_u64_or(
            &settings.default_timeout_secs,
            DEFAULT_BUILD_TIMEOUT_SECS,
            60,
        ),
        max_timeout_secs: env_u64_or(
            &settings.max_timeout_secs,
            DEFAULT_BUILD_TIMEOUT_SECS * 4,
            60,
        ),
        artifact_ttl_secs: env_u64_or(
            &settings.artifact_ttl_secs,
            DEFAULT_BUILD_ARTIFACT_TTL_SECS,
            60,
        ),
        max_audit_entries: env_usize_or(
            &settings.audit_max_entries,
            DEFAULT_AUDIT_MAX_ENTRIES,
            128,
        ),
        allowed_source_rules: rules,
    }
}

/// The complaint about an artifact reference that can change or is of another
/// kind, where there is one.
pub open spec fn artifact_complaint(kind: BuildKind, artifact_ref: Seq<char>) -> Option<Seq<char>> {
    let text = trimmed(artifact_ref);
    if text.len() == 0 {
        Some("artifact_ref must be non-empty"@)
    } else {
        match kind {
            BuildKind::Oci => if holds(text, "@sha256:"@) {
                None
            } else {
                Some("oci artifact_ref must include @sha256:digest"@)
            },
            BuildKind::Nix => if begins_with(text, "nix://closure/"@) || begins_with(
                text,
                "nix:"@,
            ) {
                None
            } else {
                Some("nix artifact_ref must use nix://closure/<hash> or nix:<hash>"@)
            },
        }
    }
}

/// Refuses an artifact reference that can change or is of another kind.
pub fn ensure_immutable_artifact_ref(build_kind: BuildKind, artifact_ref: &str) -> (result: Result<
    (),
    String,
>)
    ensures
        crate::messaging::refusal_of(result) == artifact_complaint(build_kind, artifact_ref@),
{
    let text = trim(artifact_ref);
    if text.as_str().is_empty() {
        return Err("artifact_ref must be non-empty".to_owned());
    }
    match build_kind {
        BuildKind::Oci => {
            if !contains_text(text.as_str(), "@sha256:") {
                return Err("oci artifact_ref must include @sha256:digest".to_owned());
            }
        },
        BuildKind::Nix => {
            if !(starts_with(text.as_str(), "nix://closure/") || starts_with(
                text.as_str(),
                "nix:",
            )) {
                return Err(
                    "nix artifact_ref must use nix://closure/<hash> or nix:<hash>".to_owned(),
                );
            }
        },
    }
    Ok(())
}

/// The kind of an artifact, by how it is written.
pub open spec fn artifact_kind(artifact_ref: Seq<char>) -> Option<BuildKind> {
    let text = trimmed(artifact_ref);
    if holds(text, "@sha256:"@) || begins_with(text, "oci://"@) {
        Some(BuildKind::Oci)
    } else if begins_with(text, "nix://"@) || begins_with(text, "nix:"@) {
        Some(BuildKind::Nix)
    } else {
        None
    }
}

/// The kind of an artifact, by how it is written.
pub fn parse_artifact_kind(artifact_ref: &str) -> (kind: Option<BuildKind>)
    ensures
        kind == artifact_kind(artifact_ref@),
{
    let text = trim(artifact_ref);
    if contains_text(text.as_str(), "@sha256:") || starts_with(text.as_str(), "oci://") {
        return Some(BuildKind::Oci);
    }
    if starts_with(text.as_str(), "nix://") || starts_with(text.as_str(), "nix:") {
        return Some(BuildKind::Nix);
    }
    None
}

/// A build that was found in order.
#[derive(Debug, PartialEq, Eq)]
pub struct BuildSubmitRequest {
    pub build_kind: BuildKind,
    pub source_ref: Option<String>,
    pub artifact_ref: Option<String>,
    pub timeout_sec: u64,
    pub context_bytes: u64,
}

/// What a [`BuildSubmitRequest`] holds.
#[verifier::ext_equal]
pub struct BuildSubmitRequestModel {
    pub build_kind: BuildKind,
    pub source_ref: Option<Seq<char>>,
    pub artifact_ref: Option<Seq<char>>,
    pub timeout_sec: u64,
    pub context_bytes: u64,
}

impl DeepView for BuildSubmitRequest {
    type V = BuildSubmitRequestModel;

    open spec fn deep_view(&self) -> BuildSubmitRequestModel {
        BuildSubmitRequestModel {
            build_kind: self.build_kind.deep_view(),
            source_ref: self.source_ref.deep_view(),
            artifact_ref: self.artifact_ref.deep_view(),
            timeout_sec: self.timeout_sec.deep_view(),
            context_bytes: self.context_bytes.deep_view(),
        }
    }
}

impl View for BuildSubmitRequest {
    type V = BuildSubmitRequestModel;

    open spec fn view(&self) -> BuildSubmitRequestModel {
        self.deep_view()
    }
}

impl Replicate for BuildSubmitRequest {
    fn replicate(&self) -> (copy: Self) {
        BuildSubmitRequest {
            build_kind: self.build_kind.replicate(),
            source_ref: self.source_ref.replicate(),
            artifact_ref: self.artifact_ref.replicate(),
            timeout_sec: self.timeout_sec.replicate(),
            context_bytes: self.context_bytes.replicate(),
        }
    }
}

impl Clone for BuildSubmitRequest {
    fn clone(&self) -> (copy: Self)
        ensures
            copy@ == self@,
    {
        self.replicate()
    }
}

/// Why a build is not taken on.
#[derive(Debug, PartialEq, Eq)]
pub struct Rejection {
    pub code: String,
    pub hint: String,
    pub detail: String,
}

/// What a [`Rejection`] holds.
#[verifier::ext_equal]
pub struct RejectionModel {
    pub code: Seq<char>,
    pub hint: Seq<char>,
    pub detail: Seq<char>,
}

impl DeepView for Rejection {
    type V = RejectionModel;

    open spec fn deep_view(&self) -> RejectionModel {
        RejectionModel {
            code: self.code.deep_view(),
            hint: self.hint.deep_view(),
            detail: self.detail.deep_view(),
        }
    }
}

impl View for Rejection {
    type V = RejectionModel;

    open spec fn view(&self) -> RejectionModel {
        self.deep_view()
    }
}

impl Replicate for Rejection {
    fn replicate(&self) -> (copy: Self) {
        Rejection {
            code: self.code.replicate(),
            hint: self.hint.replicate(),
            detail: self.detail.replicate(),
        }
    }
}

impl Clone for Rejection {
    fn clone(&self) -> (copy: Self)
        ensures
            copy@ == self@,
    {
        self.replicate()
    }
}

/// A text without white space around it, where anything is left.
pub open spec fn filled(text: Option<Seq<char>>) -> Option<Seq<char>> {
    match text {
        Some(t) if trimmed(t).len() > 0 => Some(trimmed(t)),
        _ => None,
    }
}

/// A text without white space around it, where anything is left.
pub fn filled_text(text: &Option<String>) -> (out: Option<String>)
    ensures
        out.deep_view() == filled(text.deep_view()),
{
    match text {
        None => None,
        Some(t) => {
            let t = trim(t.as_str());
            if t.as_str().is_empty() {
                None
            } else {
                Some(t)
            }
        },
    }
}

/// A number kept between a floor and a ceiling.
pub open spec fn clamped(n: u64, floor: u64, ceiling: u64) -> u64 {
    if n < floor {
        floor
    } else if n > ceiling {
        ceiling
    } else {
        n
    }
}

/// A rejection.
pub open spec fn rejection(code: Seq<char>, hint: Seq<char>, detail: Seq<char>) -> RejectionModel {
    RejectionModel { code, hint, detail }
}

/// Why a build from a source is not taken on, where that is so, given where the
/// source leads.
pub open spec fn source_rejection(
    source_ref: Seq<char>,
    source: Result<ParsedSourceRefModel, Seq<char>>,
    policy: BuildPolicyModel,
    advanced_workload_enabled: bool,
) -> Option<RejectionModel> {
    if !advanced_workload_enabled {
        Some(
            rejection(
                "v2_advanced_workload_disabled"@,
                "set PIKA_AGENT_CONTROL_V2_ADVANCED_WORKLOAD_ENABLED=1 to allow source builds"@,
                "source_ref requires advanced workload mode"@,
            ),
        )
    } else if policy.allowed_source_rules.len() == 0 {
        Some(
            rejection(
                "build_source_disabled"@,
                "configure PIKA_AGENT_CONTROL_BUILD_ALLOWED_SOURCE_PREFIXES to allow source builds"@,
                "no source build prefixes configured"@,
            ),
        )
    } else {
        match source {
            Err(complaint) => Some(
                rejection(
                    "build_source_invalid"@,
                    "source_ref must be a normalized git+https/http url"@,
                    complaint,
                ),
            ),
            Ok(source) => if admitted(policy.allowed_source_rules, source) {
                None
            } else {
                Some(
                    rejection(
                        "build_source_not_allowed"@,
                        "source_ref must match configured allowlist prefixes"@,
                        source_ref,
                    ),
                )
            },
        }
    }
}

/// The build that a command asks for, within the limits, or why it is not taken
/// on: it must name either a source that is admitted or an artifact that cannot
/// change, and bring no more than the limit. Where it names a source, `source` is
/// where that leads.
pub open spec fn normalized_with(
    submit: SubmitBuildCommandModel,
    source: Result<ParsedSourceRefModel, Seq<char>>,
    policy: BuildPolicyModel,
    advanced_workload_enabled: bool,
) -> Result<BuildSubmitRequestModel, RejectionModel> {
    let source_ref = filled(submit.source_ref);
    let artifact_ref = filled(submit.artifact_ref);
    let context_bytes = match submit.context_bytes {
        Some(n) => n,
        None => 0,
    };
    let timeout = match submit.timeout_sec {
        Some(n) => n,
        None => policy.default_timeout_secs,
    };
    if (source_ref is Some) == (artifact_ref is Some) {
        Err(
            rejection(
                "build_request_invalid"@,
                "set exactly one of source_ref or artifact_ref"@,
                "source_ref and artifact_ref are mutually exclusive"@,
            ),
        )
    } else if context_bytes > policy.max_context_bytes {
        Err(
            rejection(
                "build_context_too_large"@,
                "reduce build context size or increase server policy limit"@,
                "context_bytes="@ + decimal_text(context_bytes as nat) + ", max_context_bytes="@
                    + decimal_text(policy.max_context_bytes as nat),
            ),
        )
    } else if source_ref is Some && source_rejection(
        source_ref->0,
        source,
        policy,
        advanced_workload_enabled,
    ) is Some {
        Err(source_rejection(source_ref->0, source, policy, advanced_workload_enabled)->0)
    } else if artifact_ref is Some && artifact_complaint(
        submit.build_kind,
        artifact_ref->0,
    ) is Some {
        Err(
            rejection(
                "artifact_ref_invalid"@,
                "artifact_ref must be immutable and match build_kind"@,
                artifact_complaint(submit.build_kind, artifact_ref->0)->0,
            ),
        )
    } else {
        Ok(
            BuildSubmitRequestModel {
                build_kind: submit.build_kind,
                source_ref,
                artifact_ref,
                timeout_sec: clamped(
                    timeout,
                    60,
                    larger(policy.max_timeout_secs as int, 60) as u64,
                ),
                context_bytes,
            },
        )
    }
}

/// Where the source leads that a command names.
pub open spec fn source_named(submit: SubmitBuildCommandModel) -> Result<
    ParsedSourceRefModel,
    Seq<char>,
> {
    match filled(submit.source_ref) {
        Some(source_ref) => source_in(source_ref),
        None => Err(Seq::empty()),
    }
}

/// The build that a command asks for, within the limits, or why it is not taken
/// on.
pub open spec fn normalized_build(
    submit: SubmitBuildCommandModel,
    policy: BuildPolicyModel,
    advanced_workload_enabled: bool,
) -> Result<BuildSubmitRequestModel, RejectionModel> {
    normalized_with(submit, source_named(submit), policy, advanced_workload_enabled)
}

/// A rejection.
fn reject(code: &str, hint: &str, detail: &str) -> (out: Rejection)
    ensures
        out@ == rejection(code@, hint@, detail@),
{
    Rejection { code: code.to_owned(), hint: hint.to_owned(), detail: detail.to_owned() }
}

/// Refuses a build from a source that is not admitted.
fn check_source(
    source_ref: &str,
    source: &Result<ParsedSourceRef, String>,
    build_policy: &BuildPolicy,
    advanced_workload_enabled: bool,
) -> (result: Option<Rejection>)
    ensures
        result.deep_view() == source_rejection(
            source_ref@,
            text_outcome(*source),
            build_policy@,
            advanced_workload_enabled,
        ),
{
    if !advanced_workload_enabled {
        return Some(
            reject(
                "v2_advanced_workload_disabled",
                "set PIKA_AGENT_CONTROL_V2_ADVANCED_WORKLOAD_ENABLED=1 to allow source builds",
                "source_ref requires advanced workload mode",
            ),
        );
    }
    if build_policy.allowed_source_rules.len() == 0 {
        return Some(
            reject(
                "build_source_disabled",
                "configure PIKA_AGENT_CONTROL_BUILD_ALLOWED_SOURCE_PREFIXES to allow source builds",
                "no source build prefixes configured",
            ),
        );
    }
    match source {
        Err(complaint) => Some(
            reject(
                "build_source_invalid",
                "source_ref must be a normalized git+https/http url",
                complaint.as_str(),
            ),
        ),
        Ok(source) => {
            if any_rule_matches(&build_policy.allowed_source_rules, source) {
                None
            } else {
                Some(
                    reject(
                        "build_source_not_allowed",
                        "source_ref must match configured allowlist prefixes",
                        source_ref,
                    ),
                )
            }
        },
    }
}

/// The build that a command asks for, or why it is not taken on.
pub fn normalize_submit_build_command(
    submit_build: &SubmitBuildCommand,
    build_policy: &BuildPolicy,
    advanced_workload_enabled: bool,
) -> (result: Result<BuildSubmitRequest, Rejection>)
    ensures
        request_or_rejection(result) == normalized_build(
            submit_build@,
            build_policy@,
            advanced_workload_enabled,
        ),
{
    let source = match filled_text(&submit_build.source_ref) {
        Some(source_ref) => parse_source_ref(source_ref.as_str()),
        None => {
            let none = String::new();
            proof {
                assert(none@ =~= Seq::<char>::empty());
            }
            Err(none)
        },
    };
    normalize_with_source(submit_build, source, build_policy, advanced_workload_enabled)
}

/// A build that is asked for, or why it is not taken on, as a model.
pub open spec fn request_or_rejection(result: Result<BuildSubmitRequest, Rejection>) -> Result<
    BuildSubmitRequestModel,
    RejectionModel,
> {
    match result {
        Ok(request) => Ok(request@),
        Err(rejection) => Err(rejection@),
    }
}

/// The build that a command asks for, or why it is not taken on; where it names a
/// source, `source` is where that leads.
pub fn normalize_with_source(
    submit_build: &SubmitBuildCommand,
    source: Result<ParsedSourceRef, String>,
    build_policy: &BuildPolicy,
    advanced_workload_enabled: bool,
) -> (result: Result<BuildSubmitRequest, Rejection>)
    ensures
        request_or_rejection(result) == normalized_with(
            submit_build@,
            text_outcome(source),
            build_policy@,
            advanced_workload_enabled,
        ),
{
    let source_ref = filled_text(&submit_build.source_ref);
    let artifact_ref = filled_text(&submit_build.artifact_ref);
    if source_ref.is_some() == artifact_ref.is_some() {
        return Err(
            reject(
                "build_request_invalid",
                "set exactly one of source_ref or artifact_ref",
                "source_ref and artifact_ref are mutually exclusive",
            ),
        );
    }
    let timeout: u64 = match submit_build.timeout_sec {
        Some(n) => n,
        None => build_policy.default_timeout_secs,
    };
    let ceiling: u64 = larger_of(build_policy.max_timeout_secs, 60);
    let timeout_sec: u64 = if timeout < 60 {
        60
    } else if timeout > ceiling {
        ceiling
    } else {
        timeout
    };
    let context_bytes: u64 = match submit_build.context_bytes {
        Some(n) => n,
        None => 0,
    };
    if context_bytes > build_policy.max_context_bytes {
        return Err(
            reject(
                "build_context_too_large",
                "reduce build context size or increase server policy limit",
                "context_bytes=".to_owned().concat(decimal(context_bytes).as_str()).concat(
                    ", max_context_bytes=",
                ).concat(decimal(build_policy.max_context_bytes).as_str()).as_str(),
            ),
        );
    }
    if let Some(named) = &source_ref {
        if let Some(rejection) = check_source(
            named.as_str(),
            &source,
            build_policy,
            advanced_workload_enabled,
        ) {
            return Err(rejection);
        }
    }
    if let Some(artifact) = &artifact_ref {
        if let Err(complaint) = ensure_immutable_artifact_ref(
            submit_build.build_kind,
            artifact.as_str(),
        ) {
            return Err(
                reject(
                    "artifact_ref_invalid",
                    "artifact_ref must be immutable and match build_kind",
                    complaint.as_str(),
                ),
            );
        }
    }
    Ok(
        BuildSubmitRequest {
            build_kind: submit_build.build_kind,
            source_ref,
            artifact_ref,
            timeout_sec,
            context_bytes,
        },
    )
}

/// A build that is taken on names either a source, which a rule admits, or an
/// artifact, which cannot change; it stays within the limits, and has a minute
/// at least.
pub proof fn accepted_build_is_within_limits(
    submit: SubmitBuildCommandModel,
    policy: BuildPolicyModel,
    advanced_workload_enabled: bool,
)
    requires
        normalized_build(submit, policy, advanced_workload_enabled) is Ok,
    ensures
        ({
            let request = normalized_build(submit, policy, advanced_workload_enabled)->Ok_0;
            &&& (request.source_ref is Some) != (request.artifact_ref is Some)
            &&& request.context_bytes <= policy.max_context_bytes
            &&& 60 <= request.timeout_sec
            &&& request.timeout_sec <= larger(policy.max_timeout_secs as int, 60)
            &&& request.source_ref matches Some(source_ref) ==> advanced_workload_enabled
                && source_in(source_ref) is Ok && admitted(
                policy.allowed_source_rules,
                source_in(source_ref)->Ok_0,
            )
            &&& request.artifact_ref matches Some(artifact_ref) ==> artifact_complaint(
                request.build_kind,
                artifact_ref,
            ) is None
        }),
{
}

/// The SHA-256 digest of some bytes, in hexadecimal.
pub uninterp spec fn sha256_hex(data: Seq<u8>) -> Seq<char>;

/// `sha256::Hash::hash` of `nostr_sdk`, as it is displayed. Claimed: the text is a
/// function of the bytes.
#[verifier::external_body]
pub(crate) fn hash_hex(data: &[u8]) -> (hex: String)
    ensures
        hex@ == sha256_hex(data@),
{
    <nostr_sdk::hashes::sha256::Hash as nostr_sdk::hashes::Hash>::hash(data).to_string()
}

} // verus!
