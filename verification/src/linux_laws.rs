//! What holds of every enumeration on Linux.

use vstd::prelude::*;
use crate::active_state::ActiveState;
use crate::app_state::{
    distinct,
    known,
    lemma_refresh_idempotent,
    lemma_refresh_lists_each_once,
    merged,
};
use crate::error::{Error, ManifestError};
use crate::linux::{
    after,
    enumerate,
    is_new,
    is_valid,
    runtime_of,
    views,
    Enumeration,
    LinuxActiveRuntimeData,
    present,
    LinuxCandidate,
    LinuxRuntime,
};
use crate::manifest::SUPPORTED_FILE_FORMAT_VERSION;
use crate::platform::{occurrences, same_identity, same_path_set};

verus! {

/// A manifest of another file format version, where it is not skipped
/// as claimed, contributes no runtime and exactly one collected error:
/// the version mismatch, under the path where it was found.
pub proof fn lemma_version_mismatch_is_one_error(state: Enumeration, candidate: LinuxCandidate)
    requires
        is_new(state, candidate),
        candidate.loaded matches Ok(manifest) && manifest.file_format_version@
            != SUPPORTED_FILE_FORMAT_VERSION@,
    ensures
        after(state, candidate).runtimes == state.runtimes,
        after(state, candidate).claimed == state.claimed,
        after(state, candidate).errors == state.errors.push(
            ManifestError(candidate.orig_path, Error::ManifestVersionMismatch),
        ),
        after(state, candidate).errors.len() == state.errors.len() + 1,
{
}

/// The paths of every runtime are claimed, and the claimed paths are
/// paths of runtimes.
pub open spec fn claims_match(state: Enumeration) -> bool {
    &&& forall|i: int|
        0 <= i < state.runtimes.len() ==> state.claimed.contains(
            (#[trigger] state.runtimes[i]).manifest_path,
        ) && state.claimed.contains(state.runtimes[i].orig_path)
    &&& forall|i: int, j: int|
        0 <= i < j < state.runtimes.len() ==> (#[trigger] state.runtimes[i]).manifest_path != (
        #[trigger] state.runtimes[j]).manifest_path
}

/// Deduplication: in the result of an enumeration no two runtimes have
/// the same manifest, and every runtime's paths are claimed.
pub proof fn lemma_enumeration_is_deduplicated(candidates: Seq<LinuxCandidate>)
    ensures
        claims_match(enumerate(candidates)),
    decreases candidates.len(),
{
    if candidates.len() > 0 {
        let before = enumerate(candidates.drop_last());
        let candidate = candidates.last();
        lemma_enumeration_is_deduplicated(candidates.drop_last());
        let state = after(before, candidate);
        if is_new(before, candidate) && is_valid(candidate) {
            let n = before.runtimes.len() as int;
            let canonical = candidate.canonical_path->0@;
            assert forall|i: int| 0 <= i < state.runtimes.len() implies state.claimed.contains(
                (#[trigger] state.runtimes[i]).manifest_path,
            ) && state.claimed.contains(state.runtimes[i].orig_path) by {
                if i < n {
                    assert(state.runtimes[i] == before.runtimes[i]);
                    let a = choose|a: int|
                        0 <= a < before.claimed.len() && before.claimed[a]
                            == before.runtimes[i].manifest_path;
                    let b = choose|b: int|
                        0 <= b < before.claimed.len() && before.claimed[b]
                            == before.runtimes[i].orig_path;
                    assert(state.claimed[a] == before.claimed[a]);
                    assert(state.claimed[b] == before.claimed[b]);
                } else {
                    assert(state.claimed[state.claimed.len() - 1] == candidate.orig_path@);
                    if candidate.orig_path@ != canonical {
                        assert(state.claimed[state.claimed.len() - 2] == canonical);
                    }
                }
            }
            assert forall|i: int, j: int| 0 <= i < j < state.runtimes.len() implies (
            #[trigger] state.runtimes[i]).manifest_path != (
            #[trigger] state.runtimes[j]).manifest_path by {
                assert(state.runtimes[i] == before.runtimes[i]);
                if j < n {
                    assert(state.runtimes[j] == before.runtimes[j]);
                }
            }
        }
    }
}

/// A symbolic link and its target collapse to one runtime: once a
/// candidate has become a runtime, a later candidate found under either
/// of its paths, or with its canonical path, changes nothing.
pub proof fn lemma_link_and_target_collapse(
    state: Enumeration,
    first: LinuxCandidate,
    second: LinuxCandidate,
)
    requires
        is_new(state, first),
        is_valid(first),
        second.orig_path@ == first.orig_path@ || second.orig_path@ == first.canonical_path->0@
            || (second.canonical_path matches Some(canonical) && (canonical@
            == first.canonical_path->0@ || canonical@ == first.orig_path@)),
    ensures
        after(after(state, first), second) == after(state, first),
        after(state, first).runtimes == state.runtimes.push(runtime_of(first)),
{
    let claimed = after(state, first).claimed;
    assert(claimed[claimed.len() - 1] == first.orig_path@);
    if first.orig_path@ != first.canonical_path->0@ {
        assert(claimed[claimed.len() - 2] == first.canonical_path->0@);
    }
}

/// What an enumeration has gathered stays, in its place, when more
/// candidates follow.
pub proof fn lemma_enumeration_grows(candidates: Seq<LinuxCandidate>, k: int)
    requires
        0 <= k <= candidates.len(),
    ensures
        enumerate(candidates.take(k)).runtimes.len() <= enumerate(candidates).runtimes.len(),
        enumerate(candidates).runtimes.take(enumerate(candidates.take(k)).runtimes.len() as int)
            == enumerate(candidates.take(k)).runtimes,
    decreases candidates.len() - k,
{
    let short = enumerate(candidates.take(k)).runtimes;
    if k == candidates.len() {
        assert(candidates.take(k) =~= candidates);
        assert(short.take(short.len() as int) =~= short);
    } else {
        lemma_enumeration_grows(candidates.drop_last(), k);
        assert(candidates.drop_last().take(k) =~= candidates.take(k));
        let most = enumerate(candidates.drop_last()).runtimes;
        assert(enumerate(candidates).runtimes.take(short.len() as int) =~= most.take(
            short.len() as int,
        ));
    }
}

/// Extra-path injection: a valid candidate that is new where the
/// enumeration reaches it appears exactly once in the result, under
/// the path where it was found.
pub proof fn lemma_new_candidate_appears_once(candidates: Seq<LinuxCandidate>, k: int)
    requires
        0 <= k < candidates.len(),
        is_new(enumerate(candidates.take(k)), candidates[k]),
        is_valid(candidates[k]),
    ensures
        ({
            let at = enumerate(candidates.take(k)).runtimes.len() as int;
            let found = enumerate(candidates).runtimes;
            &&& at < found.len()
            &&& found[at] == runtime_of(candidates[k])
            &&& forall|j: int|
                0 <= j < found.len() && j != at ==> (#[trigger] found[j]).manifest_path
                    != runtime_of(candidates[k]).manifest_path
        }),
{
    let at = enumerate(candidates.take(k)).runtimes.len() as int;
    let found = enumerate(candidates).runtimes;
    let upto = candidates.take(k + 1);
    assert(upto.drop_last() =~= candidates.take(k));
    assert(upto.last() == candidates[k]);
    assert(enumerate(upto).runtimes[at] == runtime_of(candidates[k]));
    lemma_enumeration_grows(candidates, k + 1);
    assert(found.take(at + 1)[at] == found[at]);
    lemma_enumeration_is_deduplicated(candidates);
}

/// Two lists of one path each hold the same paths exactly when the two
/// paths are equal.
pub proof fn lemma_single_path_identity(a: Seq<char>, b: Seq<char>)
    ensures
        same_path_set(seq![a], seq![b]) <==> a == b,
{
    reveal_with_fuel(occurrences, 2);
    assert(seq![a].drop_last() =~= Seq::<Seq<char>>::empty());
    assert(seq![b].drop_last() =~= Seq::<Seq<char>>::empty());
    if same_path_set(seq![a], seq![b]) {
        assert(occurrences(seq![a], a) == occurrences(seq![b], a));
    }
}

/// Two Linux runtimes are the same logical runtime exactly when their
/// manifests have the same canonical path.
pub proof fn lemma_linux_identity(a: LinuxRuntime, b: LinuxRuntime)
    ensures
        same_identity(a, b) <==> a@.manifest_path == b@.manifest_path,
{
    lemma_single_path_identity(a@.manifest_path, b@.manifest_path);
}

/// The runtimes of an enumeration name no logical runtime twice.
pub proof fn lemma_enumerated_runtimes_distinct(
    runtimes: Seq<LinuxRuntime>,
    candidates: Seq<LinuxCandidate>,
)
    requires
        views(runtimes) == enumerate(candidates).runtimes,
    ensures
        distinct(runtimes),
{
    lemma_enumeration_is_deduplicated(candidates);
    assert forall|i: int, j: int| 0 <= i < j < runtimes.len() implies !same_identity(
        #[trigger] runtimes[i],
        #[trigger] runtimes[j],
    ) by {
        lemma_linux_identity(runtimes[i], runtimes[j]);
        assert(views(runtimes)[i] == runtimes[i]@);
        assert(views(runtimes)[j] == runtimes[j]@);
    }
}

/// Idempotence: where discovery comes upon the same candidates again, a
/// refresh leaves the runtimes and their order as they were.
pub proof fn lemma_rediscovery_changes_nothing(
    existing: Seq<LinuxRuntime>,
    fresh: Seq<LinuxRuntime>,
    candidates: Seq<LinuxCandidate>,
)
    requires
        views(existing) == enumerate(candidates).runtimes,
        views(fresh) == enumerate(candidates).runtimes,
    ensures
        merged(existing, fresh) == existing,
{
    lemma_enumerated_runtimes_distinct(existing, candidates);
    assert(views(existing).len() == existing.len());
    assert(views(fresh).len() == fresh.len());
    assert forall|k: int| 0 <= k < fresh.len() implies known(existing, #[trigger] fresh[k]) by {
        assert(views(fresh)[k] == fresh[k]@);
        assert(views(existing)[k] == existing[k]@);
        lemma_linux_identity(existing[k], fresh[k]);
        assert(same_identity(existing[k], fresh[k]));
    }
    lemma_refresh_idempotent(existing, fresh);
}

/// Extra-path injection, seen through a refresh: a valid candidate that
/// is new where the enumeration reaches it is listed exactly once after
/// the refresh, whether or not it was listed before.
pub proof fn lemma_injected_manifest_listed_once(
    existing: Seq<LinuxRuntime>,
    fresh: Seq<LinuxRuntime>,
    candidates: Seq<LinuxCandidate>,
    k: int,
)
    requires
        views(fresh) == enumerate(candidates).runtimes,
        0 <= k < candidates.len(),
        is_new(enumerate(candidates.take(k)), candidates[k]),
        is_valid(candidates[k]),
    ensures
        exists|i: int|
            0 <= i < merged(existing, fresh).len() && (#[trigger] merged(
                existing,
                fresh,
            )[i])@.manifest_path == runtime_of(candidates[k]).manifest_path && forall|j: int|
                0 <= j < merged(existing, fresh).len() && j != i ==> (#[trigger] merged(
                    existing,
                    fresh,
                )[j])@.manifest_path != runtime_of(candidates[k]).manifest_path,
{
    let path = runtime_of(candidates[k]).manifest_path;
    let all = merged(existing, fresh);
    lemma_new_candidate_appears_once(candidates, k);
    let at = enumerate(candidates.take(k)).runtimes.len() as int;
    assert(views(fresh).len() == fresh.len());
    assert(views(fresh)[at] == fresh[at]@);
    let runtime = fresh[at];
    assert(same_identity(fresh[at], runtime));
    lemma_refresh_lists_each_once(existing, fresh, runtime);
    let i = choose|i: int| 0 <= i < all.len() && same_identity(all[i], runtime);
    lemma_linux_identity(all[i], runtime);
    assert forall|j: int| 0 <= j < all.len() && j != i implies (#[trigger] all[j])@.manifest_path
        != path by {
        lemma_linux_identity(all[i], all[j]);
        lemma_linux_identity(all[j], all[i]);
    }
}

/// The marker in the most important place decides: where the first
/// place holds a marker, its manifest is the active one, whatever the
/// places after it hold.
pub proof fn lemma_first_marker_decides(located: Seq<Option<String>>)
    requires
        located.len() > 0,
        located[0] is Some,
    ensures
        present(located).len() > 0,
        present(located)[0] == located[0]->0@,
    decreases located.len(),
{
    let init = located.drop_last();
    if located.len() > 1 {
        assert(init[0] == located[0]);
        lemma_first_marker_decides(init);
        if located.last() is Some {
            assert(present(located) == present(init).push(located.last()->0@));
        }
    } else {
        assert(present(init) =~= Seq::<Seq<char>>::empty());
        assert(located.last() == located[0]);
        assert(present(located) == present(init).push(located[0]->0@));
    }
}

/// With a snapshot that names a manifest, the runtime of that manifest
/// is active and every runtime of another manifest is not: a runtime
/// that was active before another took its place reports `NotActive`.
pub proof fn lemma_only_named_runtime_is_active(
    data: LinuxActiveRuntimeData,
    active: Seq<char>,
    other: Seq<char>,
)
    requires
        data.active_path() == Some(active),
        other != active,
    ensures
        data.state_of(active) == ActiveState::ActiveIndependentRuntime,
        data.state_of(other) == ActiveState::NotActive,
{
}

} // verus!
