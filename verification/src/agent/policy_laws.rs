//! What settings come to, what may be built, and from where.
use vstd::prelude::*;
use crate::agent::policy::{
    admitted, artifact_complaint, artifact_kind, build_policy_of, capped_difference, capped_sum,
    keys_among, list_entries, normalized_build, normalized_with, path_of, policy_with, rule_admits,
    rules_in, setting_or, source_in, source_of, switch_in, BuildPolicyModel, BuildSettingsModel,
    ParsedSourceRefModel, ProvisionPolicyModel, SourceAllowRuleModel, UrlPartsModel,
    DEFAULT_AUDIT_MAX_ENTRIES, DEFAULT_BUILD_ARTIFACT_TTL_SECS, DEFAULT_BUILD_MAX_ACTIVE,
    DEFAULT_BUILD_MAX_CONTEXT_BYTES, DEFAULT_BUILD_MAX_SUBMISSIONS_PER_HOUR,
    DEFAULT_BUILD_TIMEOUT_SECS, DEFAULT_CONTROL_LOOKBACK_SECS, DEFAULT_IDEMPOTENCY_MAX_ENTRIES,
    DEFAULT_REAPER_INTERVAL_SECS, DEFAULT_RUNTIME_TTL_SECS, MIN_IDEMPOTENCY_MAX_ENTRIES,
    MIN_REAPER_INTERVAL_SECS,
};
use crate::agent::types::{BuildKind, SubmitBuildCommandModel};
use crate::text::{lower_text, number_in, split_at, trimmed};

verus! {

/// The defaults that are published.
pub proof fn defaults_are_as_published()
    ensures
        DEFAULT_CONTROL_LOOKBACK_SECS == 600,
        DEFAULT_RUNTIME_TTL_SECS == 3600,
        DEFAULT_REAPER_INTERVAL_SECS == 30,
        MIN_REAPER_INTERVAL_SECS == 5,
        DEFAULT_IDEMPOTENCY_MAX_ENTRIES == 8192,
        MIN_IDEMPOTENCY_MAX_ENTRIES == 256,
        DEFAULT_BUILD_TIMEOUT_SECS == 1200,
        DEFAULT_BUILD_ARTIFACT_TTL_SECS == 21600,
        DEFAULT_BUILD_MAX_ACTIVE == 8,
        DEFAULT_BUILD_MAX_SUBMISSIONS_PER_HOUR == 30,
        DEFAULT_BUILD_MAX_CONTEXT_BYTES == 52428800,
        DEFAULT_AUDIT_MAX_ENTRIES == 4096,
{
}

/// A setting that is a number counts, one that is none or too large does not, and no
/// setting comes below its floor.
pub proof fn setting_counts_where_it_is_a_number(
    text: Seq<char>,
    max: nat,
    default: nat,
    floor: nat,
)
    ensures
        ({
            let best = |n: nat|
                if n < floor {
                    floor
                } else {
                    n
                };
            &&& setting_or(None, max, default, floor) == best(default)
            &&& number_in(trimmed(text), max) is None ==> setting_or(
                Some(text),
                max,
                default,
                floor,
            ) == best(default)
            &&& number_in(trimmed(text), max) is Some ==> setting_or(
                Some(text),
                max,
                default,
                floor,
            ) == best(number_in(trimmed(text), max)->0)
        }),
{
}

/// A switch is on or off by the words for it, and otherwise left open.
pub proof fn switch_goes_by_its_words(text: Seq<char>)
    ensures
        ({
            let word = trimmed(text);
            let on = word == "1"@ || word == "true"@ || word == "TRUE"@ || word == "yes"@ || word
                == "on"@;
            let off = word == "0"@ || word == "false"@ || word == "FALSE"@ || word == "no"@ || word
                == "off"@;
            &&& switch_in(None) is None
            &&& on ==> switch_in(Some(text)) == Some(true)
            &&& off ==> switch_in(Some(text)) == Some(false)
            &&& !on && !off ==> switch_in(Some(text)) is None
        }),
{
    reveal_strlit("1");
    reveal_strlit("0");
    reveal_strlit("true");
    reveal_strlit("TRUE");
    reveal_strlit("yes");
    reveal_strlit("on");
    reveal_strlit("false");
    reveal_strlit("FALSE");
    reveal_strlit("no");
    reveal_strlit("off");
    assert("1"@[0] == '1' && "0"@[0] == '0');
    assert("1"@.len() == 1 && "0"@.len() == 1);
    assert("true"@.len() == 4 && "TRUE"@.len() == 4 && "yes"@.len() == 3 && "on"@.len() == 2);
    assert("false"@.len() == 5 && "FALSE"@.len() == 5 && "no"@.len() == 2 && "off"@.len() == 3);
    assert("yes"@[0] == 'y' && "off"@[0] == 'o' && "on"@[0] == 'o' && "no"@[0] == 'n');
}

/// Sums and differences stop at the ends of the numbers there are.
pub proof fn capped_numbers_stop(a: u64, b: u64)
    ensures
        a + b <= u64::MAX ==> capped_sum(a, b) == a + b,
        a + b > u64::MAX ==> capped_sum(a, b) == u64::MAX,
        a >= b ==> capped_difference(a, b) == a - b,
        a < b ==> capped_difference(a, b) == 0,
{
}

/// Without settings builds have the limits that are published; with settings none of
/// them is below its floor.
pub proof fn build_limits_are_set(settings: BuildSettingsModel)
    ensures
        ({
            let policy = build_policy_of(settings);
            &&& settings.max_active is None ==> policy.max_active_builds == 8
            &&& settings.max_submissions_per_hour is None ==> policy.max_submissions_per_hour == 30
            &&& settings.max_context_bytes is None ==> policy.max_context_bytes == 52428800
            &&& settings.default_timeout_secs is None ==> policy.default_timeout_secs == 1200
            &&& settings.max_timeout_secs is None ==> policy.max_timeout_secs == 4800
            &&& settings.artifact_ttl_secs is None ==> policy.artifact_ttl_secs == 21600
            &&& settings.audit_max_entries is None ==> policy.max_audit_entries == 4096
            &&& policy.max_active_builds >= 1
            &&& policy.max_submissions_per_hour >= 1
            &&& policy.max_context_bytes >= 1024
            &&& policy.default_timeout_secs >= 60
            &&& policy.max_timeout_secs >= 60
            &&& policy.artifact_ttl_secs >= 60
            &&& policy.max_audit_entries >= 128
            &&& policy.allowed_source_rules == rules_in(
                list_entries(split_at(settings.allowed_source_prefixes, ',')),
            )
        }),
{
}

/// A setting of a limit counts where it is a number and not below its floor.
pub proof fn build_limits_follow_settings(settings: BuildSettingsModel, text: Seq<char>, n: nat)
    requires
        number_in(trimmed(text), usize::MAX as nat) == Some(n),
        number_in(trimmed(text), u64::MAX as nat) == Some(n),
        n >= 1024,
    ensures
        settings.max_active == Some(text) ==> build_policy_of(settings).max_active_builds == n,
        settings.max_submissions_per_hour == Some(text) ==> build_policy_of(
            settings,
        ).max_submissions_per_hour == n,
        settings.max_context_bytes == Some(text) ==> build_policy_of(settings).max_context_bytes
            == n,
        settings.default_timeout_secs == Some(text) ==> build_policy_of(
            settings,
        ).default_timeout_secs == n,
        settings.max_timeout_secs == Some(text) ==> build_policy_of(settings).max_timeout_secs == n,
        settings.artifact_ttl_secs == Some(text) ==> build_policy_of(settings).artifact_ttl_secs
            == n,
        settings.audit_max_entries == Some(text) ==> build_policy_of(settings).max_audit_entries
            == n,
{
    crate::text_laws::only_digits_are_a_number(trimmed(text), usize::MAX as nat, 0);
    crate::text_laws::only_digits_are_a_number(trimmed(text), u64::MAX as nat, 0);
}

/// The entries of a list are its pieces without white space around them, but for those
/// that are blank.
pub proof fn entries_are_trimmed_pieces(pieces: Seq<Seq<char>>, entry: Seq<char>)
    ensures
        list_entries(pieces).contains(entry) <==> entry.len() > 0 && exists|i: int|
            0 <= i < pieces.len() && trimmed(#[trigger] pieces[i]) == entry,
    decreases pieces.len(),
{
    if pieces.len() > 0 {
        let rest = pieces.drop_last();
        entries_are_trimmed_pieces(rest, entry);
        let last = trimmed(pieces.last());
        if list_entries(rest).contains(entry) {
            let i = choose|i: int| 0 <= i < rest.len() && trimmed(#[trigger] rest[i]) == entry;
            assert(trimmed(pieces[i]) == entry);
            let k = choose|k: int| 0 <= k < list_entries(rest).len() && list_entries(rest)[k]
                == entry;
            assert(list_entries(pieces)[k] == entry);
        }
        if last == entry && entry.len() > 0 {
            assert(list_entries(pieces).last() == entry);
            assert(trimmed(pieces[pieces.len() - 1]) == entry);
        }
        if list_entries(pieces).contains(entry) && !list_entries(rest).contains(entry) {
            let k = choose|k: int|
                0 <= k < list_entries(pieces).len() && list_entries(pieces)[k] == entry;
            if last.len() > 0 && k < list_entries(rest).len() {
                assert(list_entries(rest)[k] == entry);
            }
        }
        if entry.len() > 0 && exists|i: int|
            0 <= i < pieces.len() && trimmed(#[trigger] pieces[i]) == entry {
            let i = choose|i: int| 0 <= i < pieces.len() && trimmed(#[trigger] pieces[i]) == entry;
            if i < rest.len() {
                assert(trimmed(rest[i]) == entry);
            }
        }
    }
}

/// A list of keys that are all keys gives exactly those; one that is none is told, the
/// first of them.
pub proof fn keys_are_all_or_nothing(entries: Seq<Seq<char>>, keys: Seq<Option<Seq<char>>>)
    requires
        entries.len() == keys.len(),
    ensures
        (forall|i: int| 0 <= i < keys.len() ==> #[trigger] keys[i] is Some) ==> keys_among(
            entries,
            keys,
        ) is Ok && forall|hex: Seq<char>| #[trigger]
            keys_among(entries, keys)->Ok_0.contains(hex) <==> keys.contains(Some(hex)),
        forall|i: int|
            0 <= i < keys.len() && #[trigger] keys[i] is None && (forall|j: int|
                0 <= j < i ==> #[trigger] keys[j] is Some) ==> keys_among(entries, keys) == Err::<
                Set<Seq<char>>,
                Seq<char>,
            >("parse provision allowlist pubkey: "@ + entries[i]),
    decreases entries.len(),
{
    if entries.len() > 0 {
        let n = keys.len() - 1;
        let rest = keys.drop_last();
        keys_are_all_or_nothing(entries.drop_last(), rest);
        if forall|i: int| 0 <= i < keys.len() ==> #[trigger] keys[i] is Some {
            assert forall|i: int| 0 <= i < rest.len() implies #[trigger] rest[i] is Some by {
                assert(keys[i] is Some);
            }
            assert(keys[n] is Some);
            let found = keys_among(entries, keys)->Ok_0;
            assert forall|hex: Seq<char>| #[trigger]
                found.contains(hex) <==> keys.contains(Some(hex)) by {
                if rest.contains(Some(hex)) {
                    let i = choose|i: int| 0 <= i < rest.len() && rest[i] == Some(hex);
                    assert(keys[i] == Some(hex));
                }
                if keys[n] == Some(hex) {
                    assert(keys.contains(Some(hex)));
                }
                if keys.contains(Some(hex)) {
                    let i = choose|i: int| 0 <= i < keys.len() && keys[i] == Some(hex);
                    if i < n {
                        assert(rest[i] == Some(hex));
                    }
                }
            }
        }
        assert forall|i: int|
            0 <= i < keys.len() && #[trigger] keys[i] is None && (forall|j: int|
                0 <= j < i ==> #[trigger] keys[j] is Some) implies keys_among(entries, keys)
            == Err::<Set<Seq<char>>, Seq<char>>(
            "parse provision allowlist pubkey: "@ + entries[i],
        ) by {
            if i < n {
                assert(rest[i] is None);
                assert forall|j: int| 0 <= j < i implies #[trigger] rest[j] is Some by {
                    assert(keys[j] is Some);
                }
                assert(entries.drop_last()[i] == entries[i]);
            } else {
                assert forall|j: int| 0 <= j < rest.len() implies #[trigger] rest[j] is Some by {
                    assert(keys[j] is Some);
                }
            }
        }
    }
}

/// Everybody is served where that is switched on; otherwise those on the list are, and
/// nobody where the list is empty. A list that cannot be read is told.
pub proof fn policy_follows_switch_and_list(
    open_to_all: Option<bool>,
    keys: Set<Seq<char>>,
    complaint: Seq<char>,
    requester: Seq<char>,
)
    ensures
        open_to_all == Some(true) ==> policy_with(open_to_all, Ok(keys)) == Ok::<
            ProvisionPolicyModel,
            Seq<char>,
        >(ProvisionPolicyModel::AllowAll) && policy_with(open_to_all, Err(complaint)) == Ok::<
            ProvisionPolicyModel,
            Seq<char>,
        >(ProvisionPolicyModel::AllowAll),
        open_to_all != Some(true) ==> policy_with(open_to_all, Err(complaint)) == Err::<
            ProvisionPolicyModel,
            Seq<char>,
        >(complaint) && policy_with(open_to_all, Ok(keys)) is Ok && (
        crate::agent::query_laws::on_the_list(policy_with(open_to_all, Ok(keys))->Ok_0, requester)
            <==> keys.contains(requester)),
{
}

/// Whether a text begins with another.
pub open spec fn starts(text: Seq<char>, start: Seq<char>) -> bool {
    text.len() >= start.len() && forall|i: int|
        0 <= i < start.len() ==> #[trigger] text[i] == start[i]
}

/// Whether a text stands somewhere in another.
pub open spec fn stands_in(text: Seq<char>, part: Seq<char>) -> bool {
    exists|at: int| #[trigger] stands_in_at(text, part, at)
}

/// Whether a text stands in a place of another.
pub open spec fn stands_in_at(text: Seq<char>, part: Seq<char>, at: int) -> bool {
    0 <= at && at + part.len() <= text.len() && forall|i: int|
        0 <= i < part.len() ==> text[at + i] == #[trigger] part[i]
}

proof fn lemma_starts(text: Seq<char>, start: Seq<char>)
    ensures
        starts(text, start) <==> crate::text::begins_with(text, start),
{
    if starts(text, start) {
        assert(text.take(start.len() as int) =~= start);
    }
    if crate::text::begins_with(text, start) {
        assert forall|i: int| 0 <= i < start.len() implies #[trigger] text[i] == start[i] by {
            assert(text.take(start.len() as int)[i] == start[i]);
        }
    }
}

proof fn lemma_stands(text: Seq<char>, part: Seq<char>)
    ensures
        stands_in(text, part) <==> crate::text::holds(text, part),
{
    if stands_in(text, part) {
        let at = choose|at: int| #[trigger] stands_in_at(text, part, at);
        assert(text.subrange(at, at + part.len()) =~= part);
        assert(crate::text::holds_at(text, part, at));
    }
    if crate::text::holds(text, part) {
        let at = choose|at: int| crate::text::holds_at(text, part, at);
        assert forall|i: int| 0 <= i < part.len() implies text[at + i] == #[trigger] part[i] by {
            assert(text.subrange(at, at + part.len())[i] == part[i]);
        }
        assert(stands_in_at(text, part, at));
    }
}

/// An artifact cannot change, where it is an image with a digest, or a closure of Nix;
/// each is of its kind, and what is blank is of none.
pub proof fn artifacts_are_fixed_by_digest_or_hash(artifact_ref: Seq<char>)
    ensures
        ({
            let text = trimmed(artifact_ref);
            let image = stands_in(text, "@sha256:"@);
            let closure = starts(text, "nix://closure/"@) || starts(text, "nix:"@);
            &&& artifact_complaint(BuildKind::Oci, artifact_ref) is None <==> text.len() > 0
                && image
            &&& artifact_complaint(BuildKind::Nix, artifact_ref) is None <==> text.len() > 0
                && closure
            &&& text.len() == 0 ==> artifact_complaint(BuildKind::Oci, artifact_ref) == Some(
                "artifact_ref must be non-empty"@,
            )
            &&& artifact_kind(artifact_ref) == Some(BuildKind::Oci) <==> image || starts(
                text,
                "oci://"@,
            )
            &&& artifact_kind(artifact_ref) == Some(BuildKind::Nix) <==> !(image || starts(
                text,
                "oci://"@,
            )) && starts(text, "nix:"@)
        }),
{
    let text = trimmed(artifact_ref);
    lemma_stands(text, "@sha256:"@);
    lemma_starts(text, "nix://closure/"@);
    lemma_starts(text, "nix:"@);
    lemma_starts(text, "nix://"@);
    lemma_starts(text, "oci://"@);
    reveal_strlit("nix:");
    reveal_strlit("nix://");
    if starts(text, "nix://"@) {
        assert forall|i: int| 0 <= i < "nix:"@.len() implies #[trigger] text[i] == "nix:"@[i] by {
            assert(text[i] == "nix://"@[i]);
        }
    }
}

/// A text without white space around it, where anything is left.
pub open spec fn said(text: Option<Seq<char>>) -> bool {
    text is Some && trimmed(text->0).len() > 0
}

/// A build is accepted where exactly one of a source and an artifact is named, its
/// context is not too large, a source is switched on and allowed, and an artifact cannot
/// change. What is wrong first is told.
pub proof fn build_is_accepted_or_told(
    submit: SubmitBuildCommandModel,
    source: Result<ParsedSourceRefModel, Seq<char>>,
    policy: BuildPolicyModel,
    advanced: bool,
)
    ensures
        ({
            let read = normalized_with(submit, source, policy, advanced);
            let one = said(submit.source_ref) != said(submit.artifact_ref);
            let bytes = if submit.context_bytes is Some {
                submit.context_bytes->0
            } else {
                0
            };
            let fits = bytes <= policy.max_context_bytes;
            let from_source = said(submit.source_ref);
            let allowed = policy.allowed_source_rules.len() > 0;
            let artifact = trimmed(submit.artifact_ref->0);
            &&& !one ==> read is Err && read->Err_0.code == "build_request_invalid"@
            &&& one && !fits ==> read is Err && read->Err_0.code == "build_context_too_large"@
            &&& one && fits && from_source && !advanced ==> read is Err && read->Err_0.code
                == "v2_advanced_workload_disabled"@
            &&& one && fits && from_source && advanced && !allowed ==> read is Err
                && read->Err_0.code == "build_source_disabled"@
            &&& one && fits && from_source && advanced && allowed && source is Err ==> read is Err
                && read->Err_0.code == "build_source_invalid"@ && read->Err_0.detail
                == source->Err_0
            &&& one && fits && from_source && advanced && allowed && source is Ok && !admitted(
                policy.allowed_source_rules,
                source->Ok_0,
            ) ==> read is Err && read->Err_0.code == "build_source_not_allowed"@
            &&& one && fits && !from_source && artifact_complaint(
                submit.build_kind,
                artifact,
            ) is Some ==> read is Err && read->Err_0.code == "artifact_ref_invalid"@
            &&& one && fits && from_source && advanced && allowed && source is Ok && admitted(
                policy.allowed_source_rules,
                source->Ok_0,
            ) ==> read is Ok
            &&& one && fits && !from_source && artifact_complaint(
                submit.build_kind,
                artifact,
            ) is None ==> read is Ok
        }),
{
}

/// What is accepted is what was asked for: its kind, its source or artifact without
/// white space around it, its context, and its timeout, within a minute and the longest
/// that is allowed.
pub proof fn accepted_build_is_as_asked(
    submit: SubmitBuildCommandModel,
    source: Result<ParsedSourceRefModel, Seq<char>>,
    policy: BuildPolicyModel,
    advanced: bool,
)
    requires
        normalized_with(submit, source, policy, advanced) is Ok,
    ensures
        ({
            let request = normalized_with(submit, source, policy, advanced)->Ok_0;
            let asked = if submit.timeout_sec is Some {
                submit.timeout_sec->0
            } else {
                policy.default_timeout_secs
            };
            let longest = if policy.max_timeout_secs > 60 {
                policy.max_timeout_secs
            } else {
                60
            };
            &&& request.build_kind == submit.build_kind
            &&& request.source_ref is Some <==> said(submit.source_ref)
            &&& request.source_ref is Some ==> request.source_ref->0 == trimmed(
                submit.source_ref->0,
            )
            &&& request.artifact_ref is Some <==> said(submit.artifact_ref)
            &&& request.artifact_ref is Some ==> request.artifact_ref->0 == trimmed(
                submit.artifact_ref->0,
            )
            &&& (request.source_ref is Some) != (request.artifact_ref is Some)
            &&& submit.context_bytes is Some ==> request.context_bytes == submit.context_bytes->0
            &&& submit.context_bytes is None ==> request.context_bytes == 0
            &&& 60 <= asked <= longest ==> request.timeout_sec == asked
            &&& asked < 60 ==> request.timeout_sec == 60
            &&& asked > longest ==> request.timeout_sec == longest
        }),
{
}

/// What is read of a build is read from the source it names.
pub proof fn source_is_read_from_its_name(
    submit: SubmitBuildCommandModel,
    policy: BuildPolicyModel,
    advanced: bool,
)
    requires
        said(submit.source_ref),
    ensures
        normalized_build(submit, policy, advanced) == normalized_with(
            submit,
            source_in(trimmed(submit.source_ref->0)),
            policy,
            advanced,
        ),
{
}

/// A rule admits what comes from its host by its scheme and port, with the prefix it
/// has, from its path or below it, piece by piece; nothing else.
pub proof fn rule_admits_its_host_and_path(
    rule: SourceAllowRuleModel,
    source: ParsedSourceRefModel,
)
    ensures
        rule_admits(rule, source) <==> rule.source_prefix == source.source_prefix && rule.scheme
            == source.scheme && rule.host == source.host && rule.port == source.port
            && source.path_segments.len() >= rule.path_segments.len() && forall|i: int|
            0 <= i < rule.path_segments.len() ==> #[trigger] source.path_segments[i]
                == rule.path_segments[i],
{
    let n = rule.path_segments.len() as int;
    if source.path_segments.len() >= n {
        if forall|i: int|
            0 <= i < rule.path_segments.len() ==> #[trigger] source.path_segments[i]
                == rule.path_segments[i] {
            assert(source.path_segments.take(n) =~= rule.path_segments);
        }
        if source.path_segments.take(n) == rule.path_segments {
            assert forall|i: int| 0 <= i < n implies #[trigger] source.path_segments[i]
                == rule.path_segments[i] by {
                assert(source.path_segments.take(n)[i] == rule.path_segments[i]);
            }
        }
    }
}

/// A source is admitted where some rule admits it.
pub proof fn some_rule_has_to_admit(rules: Seq<SourceAllowRuleModel>, source: ParsedSourceRefModel)
    ensures
        rules.len() == 0 ==> !admitted(rules, source),
        admitted(rules, source) <==> exists|i: int|
            0 <= i < rules.len() && rule_admits(#[trigger] rules[i], source),
{
}

/// A path goes down by a piece, stays where a piece is blank or a dot, and goes up by two
/// dots, but never above its root.
pub proof fn path_goes_down_and_up(segments: Seq<Seq<char>>, segment: Seq<char>)
    ensures
        path_of(Seq::empty()) == Some(Seq::<Seq<char>>::empty()),
        path_of(segments) is None ==> path_of(segments.push(segment)) is None,
        path_of(segments) is Some && (trimmed(segment).len() == 0 || trimmed(segment) == "."@)
            ==> path_of(segments.push(segment)) == path_of(segments),
        path_of(segments) is Some && trimmed(segment) == ".."@ && path_of(segments)->0.len() == 0
            ==> path_of(segments.push(segment)) is None,
        path_of(segments) is Some && trimmed(segment) == ".."@ && path_of(segments)->0.len() > 0
            ==> path_of(segments.push(segment)) == Some(path_of(segments)->0.drop_last()),
        path_of(segments) is Some && trimmed(segment).len() > 0 && trimmed(segment) != "."@
            && trimmed(segment) != ".."@ ==> path_of(segments.push(segment)) == Some(
            path_of(segments)->0.push(trimmed(segment)),
        ),
{
    assert(segments.push(segment).drop_last() =~= segments);
    reveal_strlit(".");
    reveal_strlit("..");
    assert("."@.len() == 1 && ".."@.len() == 2);
}

/// A source is an address by HTTP with a host, whose path does not lead above its root;
/// scheme and host count in small letters. What is wrong first is told.
pub proof fn source_is_an_address(raw: Seq<char>, parts: Option<UrlPartsModel>)
    ensures
        ({
            let text = trimmed(raw);
            let read = source_of(raw, parts);
            let url = parts->0;
            let by_http = lower_text(url.scheme) == "https"@ || lower_text(url.scheme) == "http"@;
            let path = if url.segments is Some {
                path_of(url.segments->0)
            } else {
                Some(Seq::empty())
            };
            &&& text.len() == 0 ==> read == Err::<ParsedSourceRefModel, Seq<char>>(
                "source ref must be non-empty"@,
            )
            &&& text.len() > 0 && parts is None ==> read == Err::<ParsedSourceRefModel, Seq<char>>(
                "parse source url: "@ + text,
            )
            &&& text.len() > 0 && parts is Some && !by_http ==> read is Err
            &&& text.len() > 0 && parts is Some && by_http && url.host is None ==> read is Err
            &&& text.len() > 0 && parts is Some && by_http && url.host is Some && path is None
                ==> read is Err
            &&& text.len() > 0 && parts is Some && by_http && url.host is Some && path is Some
                ==> read is Ok && read->Ok_0.scheme == lower_text(url.scheme)
                && read->Ok_0.host == lower_text(url.host->0) && read->Ok_0.port == url.port
                && read->Ok_0.path_segments == path->0 && read->Ok_0.source_prefix == if starts(
                text,
                "git+"@,
            ) {
                Some("git"@)
            } else {
                None
            }
        }),
{
    lemma_starts(trimmed(raw), "git+"@);
}

/// Each entry that can be read as a source is a rule, for its host, scheme, port, prefix
/// and path; an entry that cannot is passed over.
pub proof fn entries_are_rules(entries: Seq<Seq<char>>, entry: Seq<char>)
    ensures
        rules_in(Seq::empty()).len() == 0,
        source_in(entry) is Err ==> rules_in(entries.push(entry)) == rules_in(entries),
        source_in(entry) is Ok ==> ({
            let rules = rules_in(entries.push(entry));
            let source = source_in(entry)->Ok_0;
            &&& rules.len() == rules_in(entries).len() + 1
            &&& rules.drop_last() == rules_in(entries)
            &&& rules.last().source_prefix == source.source_prefix
            &&& rules.last().scheme == source.scheme
            &&& rules.last().host == source.host
            &&& rules.last().port == source.port
            &&& rules.last().path_segments == source.path_segments
        }),
{
    assert(entries.push(entry).drop_last() =~= entries);
    if source_in(entry) is Ok {
        assert(rules_in(entries.push(entry)).drop_last() =~= rules_in(entries));
    }
}

/// A source is read from its address, which stands behind its prefix where it has one.
pub proof fn address_stands_behind_its_prefix(raw: Seq<char>)
    ensures
        ({
            let text = trimmed(raw);
            &&& starts(text, "git+"@) ==> source_in(raw) == source_of(
                raw,
                crate::agent::policy::url_parts(text.skip(4)),
            )
            &&& !starts(text, "git+"@) ==> source_in(raw) == source_of(
                raw,
                crate::agent::policy::url_parts(text),
            )
        }),
{
    lemma_starts(trimmed(raw), "git+"@);
    reveal_strlit("git+");
    assert("git+"@.len() == 4);
}

} // verus!
