//! The state that a front end shows: the runtimes in their display
//! order, the non-fatal errors of the last enumeration, and the snapshot
//! of what is active.

use vstd::prelude::*;
use vstd::string::*;
use crate::error::{Error, ManifestError};
use crate::platform::{is_same_runtime, same_identity, texts, PlatformRuntime};
use itertools::Itertools;

verus! {

/// Is `runtime` the same logical runtime as one of `seen`?
pub open spec fn known<R: PlatformRuntime>(seen: Seq<R>, runtime: R) -> bool {
    exists|j: int| 0 <= j < seen.len() && same_identity(#[trigger] seen[j], runtime)
}

/// No two entries of `runtimes` are the same logical runtime.
pub open spec fn distinct<R: PlatformRuntime>(runtimes: Seq<R>) -> bool {
    forall|i: int, j: int|
        0 <= i < j < runtimes.len() ==> !same_identity(#[trigger] runtimes[i], #[trigger] runtimes[j])
}

/// `runtimes` without every entry that is the same logical runtime as
/// an earlier one: of each logical runtime the first entry stays, in
/// its place.
pub open spec fn first_occurrences<R: PlatformRuntime>(runtimes: Seq<R>) -> Seq<R>
    decreases runtimes.len(),
{
    if runtimes.len() == 0 {
        Seq::empty()
    } else {
        let kept = first_occurrences(runtimes.drop_last());
        if known(kept, runtimes.last()) {
            kept
        } else {
            kept.push(runtimes.last())
        }
    }
}

/// The runtimes shown after a refresh: the ones shown before, followed
/// by the newly enumerated ones, each logical runtime once.
pub open spec fn merged<R: PlatformRuntime>(existing: Seq<R>, fresh: Seq<R>) -> Seq<R> {
    first_occurrences(existing + fresh)
}

/// Is `runtime` the same logical runtime as one of `seen`?
fn is_known<R: PlatformRuntime>(seen: &Vec<R>, runtime: &R) -> (found: bool)
    ensures
        found == known(seen@, *runtime),
{
    let mut i: usize = 0;
    while i < seen.len()
        invariant
            i <= seen.len(),
            forall|j: int| 0 <= j < i ==> !same_identity(#[trigger] seen@[j], *runtime),
        decreases seen.len() - i,
    {
        if is_same_runtime(&seen[i], runtime) {
            return true;
        }
        i += 1;
    }
    false
}

/// Append to `kept` every runtime of `more` that is not yet known,
/// in order.
fn keep_first<R: PlatformRuntime>(kept: &mut Vec<R>, more: Vec<R>, Ghost(before): Ghost<Seq<R>>)
    requires
        old(kept)@ == first_occurrences(before),
    ensures
        final(kept)@ == first_occurrences(before + more@),
{
    let ghost all = more@;
    for runtime in it: more.into_iter()
        invariant
            it.seq() == all,
            kept@ == first_occurrences(before + all.take(it.index() as int)),
    {
        proof {
            let next = before + all.take(it.index() + 1);
            assert(next.drop_last() =~= before + all.take(it.index() as int));
            assert(next.last() == runtime);
        }
        if !is_known(kept, &runtime) {
            kept.push(runtime);
        }
    }
    assert(all.take(all.len() as int) =~= all);
}

/// The extra manifest paths that the user supplied, kept across
/// sessions: each path once, in the order of its first supply.
#[derive(Debug)]
pub struct PersistentAppState {
    /// The extra paths provided by the user.
    pub extra_paths: Vec<String>,
}

/// `paths` without every path that occurred before: each path once, at
/// the place of its first occurrence.
pub open spec fn first_paths(paths: Seq<Seq<char>>) -> Seq<Seq<char>>
    decreases paths.len(),
{
    if paths.len() == 0 {
        Seq::empty()
    } else {
        let kept = first_paths(paths.drop_last());
        if kept.contains(paths.last()) {
            kept
        } else {
            kept.push(paths.last())
        }
    }
}

/// The paths of `paths`, each once, in the order of first occurrence.
///
/// Trusted: calls `Itertools::unique` of itertools, which is documented
/// as stable: it yields the items that were not produced before, in the
/// order in which they occur, and of equal items the first. Strings are
/// equal when their texts are.
#[verifier::external_body]
fn unique_paths(paths: Vec<String>) -> (kept: Vec<String>)
    ensures
        texts(kept@) == first_paths(texts(paths@)),
{
    paths.into_iter().unique().collect()
}

impl PersistentAppState {
    /// The extra paths, as texts.
    pub open spec fn paths(&self) -> Seq<Seq<char>> {
        texts(self.extra_paths@)
    }

    /// State without any extra path.
    pub fn new() -> (state: PersistentAppState)
        ensures
            state.extra_paths@.len() == 0,
    {
        PersistentAppState { extra_paths: Vec::new() }
    }

    /// Add the given paths to the extra paths. Where any is given, the
    /// list afterwards holds each path once, at the place of its first
    /// occurrence among the paths held before followed by the given
    /// ones; where none is given, the list is left as it is.
    pub fn append_new_extra_paths(&mut self, new_extra_paths: Vec<String>)
        ensures
            new_extra_paths@.len() == 0 ==> *final(self) == *old(self),
            new_extra_paths@.len() > 0 ==> final(self).paths() == first_paths(
                old(self).paths() + texts(new_extra_paths@),
            ),
    {
        if !new_extra_paths.is_empty() {
            let mut new_extra_paths = new_extra_paths;
            let ghost added = new_extra_paths@;
            let mut all: Vec<String> = Vec::new();
            all.append(&mut self.extra_paths);
            all.append(&mut new_extra_paths);
            assert(texts(all@) =~= old(self).paths() + texts(added));
            self.extra_paths = unique_paths(all);
        }
    }

    /// The extra paths, to be handed to an enumeration as a further
    /// source of manifests.
    pub fn iterate_extra_paths(&self) -> (paths: Vec<String>)
        ensures
            texts(paths@) == self.paths(),
    {
        let mut paths: Vec<String> = Vec::new();
        let mut i: usize = 0;
        while i < self.extra_paths.len()
            invariant
                i <= self.extra_paths.len(),
                paths@.len() == i,
                forall|j: int| 0 <= j < i ==> paths@[j]@ == self.extra_paths@[j]@,
            decreases self.extra_paths.len() - i,
        {
            paths.push(self.extra_paths[i].clone());
            i += 1;
        }
        assert(texts(paths@) =~= self.paths());
        paths
    }
}

impl Default for PersistentAppState {
    fn default() -> (state: PersistentAppState)
        ensures
            state.extra_paths@.len() == 0,
    {
        PersistentAppState::new()
    }
}

/// Generic state data for the app in a "non-error" state.
pub struct AppState<R: PlatformRuntime, A> {
    /// The runtimes, in display order.
    pub runtimes: Vec<R>,
    /// The manifests that could not be loaded in the last enumeration.
    pub nonfatal_errors: Vec<ManifestError>,
    /// What was active when the runtimes were last enumerated.
    pub active_data: A,
}

impl<R: PlatformRuntime, A> AppState<R, A> {
    /// Create state from scratch, from the outcome of an enumeration and
    /// a snapshot of what is active. A fatal enumeration error is handed
    /// on.
    pub fn new(found: Result<(Vec<R>, Vec<ManifestError>), Error>, active_data: A) -> (state:
        Result<Self, Error>)
        ensures
            match found {
                Ok((runtimes, nonfatal_errors)) => state == Ok::<Self, Error>(
                    AppState { runtimes, nonfatal_errors, active_data },
                ),
                Err(e) => state == Err::<Self, Error>(e),
            },
    {
        match found {
            Ok((runtimes, nonfatal_errors)) => Ok(
                AppState { runtimes, nonfatal_errors, active_data },
            ),
            Err(e) => Err(e),
        }
    }

    /// "Refresh" existing state from the outcome of a new enumeration:
    /// the runtimes shown so far keep their places, runtimes not seen
    /// before follow, and the errors and the snapshot are replaced. A
    /// fatal enumeration error is handed on.
    pub fn refresh(
        self,
        found: Result<(Vec<R>, Vec<ManifestError>), Error>,
        active_data: A,
    ) -> (state: Result<Self, Error>)
        ensures
            match found {
                Ok((new_runtimes, new_nonfatal_errors)) => state matches Ok(next)
                    && next.runtimes@ == merged(self.runtimes@, new_runtimes@)
                    && next.nonfatal_errors == new_nonfatal_errors && next.active_data
                    == active_data,
                Err(e) => state == Err::<Self, Error>(e),
            },
    {
        let (new_runtimes, new_nonfatal_errors) = match found {
            Ok(pair) => pair,
            Err(e) => {
                return Err(e);
            },
        };
        let ghost existing = self.runtimes@;
        let mut runtimes: Vec<R> = Vec::new();
        keep_first(&mut runtimes, self.runtimes, Ghost(Seq::empty()));
        assert(Seq::<R>::empty() + existing =~= existing);
        keep_first(&mut runtimes, new_runtimes, Ghost(existing));
        Ok(AppState { runtimes, nonfatal_errors: new_nonfatal_errors, active_data })
    }
}

/// No path occurs twice in `paths`.
pub open spec fn no_repeats(paths: Seq<Seq<char>>) -> bool {
    forall|i: int, j: int| 0 <= i < j < paths.len() ==> paths[i] != paths[j]
}

/// The stored extra paths hold each supplied path, and no path twice.
pub proof fn lemma_first_paths_holds_each_once(paths: Seq<Seq<char>>, path: Seq<char>)
    ensures
        no_repeats(first_paths(paths)),
        first_paths(paths).contains(path) <==> paths.contains(path),
    decreases paths.len(),
{
    if paths.len() > 0 {
        let init = paths.drop_last();
        lemma_first_paths_holds_each_once(init, path);
        lemma_first_paths_holds_each_once(init, paths.last());
        let kept = first_paths(init);
        if paths.contains(path) {
            let j = choose|j: int| 0 <= j < paths.len() && paths[j] == path;
            if j < init.len() {
                assert(init[j] == path);
                let k = choose|k: int| 0 <= k < kept.len() && kept[k] == path;
                assert(first_paths(paths)[k] == path);
            } else if !kept.contains(path) {
                assert(first_paths(paths)[kept.len() as int] == path);
            }
        }
        if first_paths(paths).contains(path) {
            let k = choose|k: int| 0 <= k < first_paths(paths).len() && first_paths(paths)[k] == path;
            if k < kept.len() {
                assert(kept[k] == path);
                let j = choose|j: int| 0 <= j < init.len() && init[j] == path;
                assert(paths[j] == path);
            } else {
                assert(paths[paths.len() - 1] == path);
            }
        }
    }
}

/// A list without repeats is stored as it is: order and content stay.
pub proof fn lemma_first_paths_of_no_repeats(paths: Seq<Seq<char>>)
    requires
        no_repeats(paths),
    ensures
        first_paths(paths) == paths,
    decreases paths.len(),
{
    if paths.len() > 0 {
        let init = paths.drop_last();
        assert forall|i: int, j: int| 0 <= i < j < init.len() implies init[i] != init[j] by {
            assert(init[i] == paths[i] && init[j] == paths[j]);
        }
        lemma_first_paths_of_no_repeats(init);
        if init.contains(paths.last()) {
            let j = choose|j: int| 0 <= j < init.len() && init[j] == paths.last();
            assert(paths[j] == paths[paths.len() - 1]);
        }
        assert(init.push(paths.last()) =~= paths);
    }
}

/// Storing what was stored changes nothing: the stored list is a fixed
/// point of deduplication, so it survives being written out and read
/// back through `append_new_extra_paths` unchanged.
pub proof fn lemma_first_paths_idempotent(paths: Seq<Seq<char>>)
    ensures
        first_paths(first_paths(paths)) == first_paths(paths),
{
    lemma_first_paths_holds_each_once(paths, Seq::empty());
    lemma_first_paths_of_no_repeats(first_paths(paths));
}

/// Supplying again paths that are stored already changes nothing.
pub proof fn lemma_append_known_paths(stored: Seq<Seq<char>>, supplied: Seq<Seq<char>>)
    requires
        no_repeats(stored),
        forall|k: int| 0 <= k < supplied.len() ==> stored.contains(#[trigger] supplied[k]),
    ensures
        first_paths(stored + supplied) == stored,
    decreases supplied.len(),
{
    if supplied.len() == 0 {
        assert(stored + supplied =~= stored);
        lemma_first_paths_of_no_repeats(stored);
    } else {
        let init = supplied.drop_last();
        assert forall|k: int| 0 <= k < init.len() implies stored.contains(#[trigger] init[k]) by {
            assert(init[k] == supplied[k]);
        }
        lemma_append_known_paths(stored, init);
        assert((stored + supplied).drop_last() =~= stored + init);
        assert((stored + supplied).last() == supplied[supplied.len() - 1]);
    }
}

/// What stays of a list is known exactly when it was in the list.
pub proof fn lemma_first_occurrences_known<R: PlatformRuntime>(runtimes: Seq<R>, runtime: R)
    ensures
        known(first_occurrences(runtimes), runtime) <==> known(runtimes, runtime),
    decreases runtimes.len(),
{
    if runtimes.len() > 0 {
        let init = runtimes.drop_last();
        let kept = first_occurrences(init);
        lemma_first_occurrences_known(init, runtime);
        lemma_first_occurrences_known(init, runtimes.last());
        if known(runtimes, runtime) {
            let j = choose|j: int| 0 <= j < runtimes.len() && same_identity(runtimes[j], runtime);
            if j < init.len() {
                assert(same_identity(init[j], runtime));
                let k = choose|k: int| 0 <= k < kept.len() && same_identity(kept[k], runtime);
                assert(first_occurrences(runtimes)[k] == kept[k]);
            } else if known(kept, runtimes.last()) {
                let k = choose|k: int|
                    0 <= k < kept.len() && same_identity(kept[k], runtimes.last());
                assert(same_identity(kept[k], runtime));
            } else {
                assert(first_occurrences(runtimes)[kept.len() as int] == runtimes.last());
            }
        }
        if known(first_occurrences(runtimes), runtime) {
            let k = choose|k: int|
                0 <= k < first_occurrences(runtimes).len() && same_identity(
                    first_occurrences(runtimes)[k],
                    runtime,
                );
            if k < kept.len() {
                assert(same_identity(kept[k], runtime));
                let j = choose|j: int| 0 <= j < init.len() && same_identity(init[j], runtime);
                assert(runtimes[j] == init[j]);
            } else {
                assert(same_identity(runtimes[runtimes.len() - 1], runtime));
            }
        }
    }
}

/// After a merge no logical runtime is listed twice.
pub proof fn lemma_first_occurrences_distinct<R: PlatformRuntime>(runtimes: Seq<R>)
    ensures
        distinct(first_occurrences(runtimes)),
    decreases runtimes.len(),
{
    if runtimes.len() > 0 {
        lemma_first_occurrences_distinct(runtimes.drop_last());
    }
}

/// A list that names no logical runtime twice is left as it is.
pub proof fn lemma_first_occurrences_of_distinct<R: PlatformRuntime>(runtimes: Seq<R>)
    requires
        distinct(runtimes),
    ensures
        first_occurrences(runtimes) == runtimes,
    decreases runtimes.len(),
{
    if runtimes.len() > 0 {
        let init = runtimes.drop_last();
        assert forall|i: int, j: int| 0 <= i < j < init.len() implies !same_identity(
            #[trigger] init[i],
            #[trigger] init[j],
        ) by {
            assert(init[i] == runtimes[i] && init[j] == runtimes[j]);
        }
        lemma_first_occurrences_of_distinct(init);
        if known(init, runtimes.last()) {
            let j = choose|j: int| 0 <= j < init.len() && same_identity(init[j], runtimes.last());
            assert(init[j] == runtimes[j]);
            assert(same_identity(runtimes[j], runtimes[runtimes.len() - 1]));
        }
        assert(init.push(runtimes.last()) =~= runtimes);
    }
}

/// What stays of a list leads what stays of any longer list.
pub proof fn lemma_first_occurrences_prefix<R: PlatformRuntime>(head: Seq<R>, tail: Seq<R>)
    ensures
        first_occurrences(head).len() <= first_occurrences(head + tail).len(),
        first_occurrences(head + tail).take(first_occurrences(head).len() as int)
            == first_occurrences(head),
    decreases tail.len(),
{
    let kept = first_occurrences(head);
    if tail.len() == 0 {
        assert(head + tail =~= head);
        assert(kept.take(kept.len() as int) =~= kept);
    } else {
        assert((head + tail).drop_last() =~= head + tail.drop_last());
        lemma_first_occurrences_prefix(head, tail.drop_last());
        let shorter = first_occurrences(head + tail.drop_last());
        assert(first_occurrences(head + tail).take(kept.len() as int) =~= shorter.take(
            kept.len() as int,
        ));
    }
}

/// Order preservation: where the runtimes shown so far name no logical
/// runtime twice, a refresh leaves each of them at its position,
/// whatever the new enumeration holds.
pub proof fn lemma_refresh_preserves_order<R: PlatformRuntime>(
    existing: Seq<R>,
    fresh: Seq<R>,
    i: int,
)
    requires
        distinct(existing),
        0 <= i < existing.len(),
    ensures
        existing.len() <= merged(existing, fresh).len(),
        merged(existing, fresh)[i] == existing[i],
        merged(existing, fresh).take(existing.len() as int) == existing,
{
    lemma_first_occurrences_of_distinct(existing);
    lemma_first_occurrences_prefix(existing, fresh);
    assert(merged(existing, fresh).take(existing.len() as int)[i] == merged(existing, fresh)[i]);
}

/// Idempotence: where the runtimes shown so far name no logical runtime
/// twice and the new enumeration finds only logical runtimes among
/// them, a refresh changes neither the runtimes nor their order.
pub proof fn lemma_refresh_idempotent<R: PlatformRuntime>(existing: Seq<R>, fresh: Seq<R>)
    requires
        distinct(existing),
        forall|k: int| 0 <= k < fresh.len() ==> known(existing, #[trigger] fresh[k]),
    ensures
        merged(existing, fresh) == existing,
    decreases fresh.len(),
{
    if fresh.len() == 0 {
        assert(existing + fresh =~= existing);
        lemma_first_occurrences_of_distinct(existing);
    } else {
        let init = fresh.drop_last();
        assert forall|k: int| 0 <= k < init.len() implies known(existing, #[trigger] init[k]) by {
            assert(init[k] == fresh[k]);
        }
        lemma_refresh_idempotent(existing, init);
        assert((existing + fresh).drop_last() =~= existing + init);
        assert((existing + fresh).last() == fresh[fresh.len() - 1]);
    }
}

/// A refresh lists every logical runtime exactly once: each runtime
/// shown before or newly enumerated is known afterwards, and no two
/// entries are the same logical runtime.
pub proof fn lemma_refresh_lists_each_once<R: PlatformRuntime>(
    existing: Seq<R>,
    fresh: Seq<R>,
    runtime: R,
)
    ensures
        distinct(merged(existing, fresh)),
        known(merged(existing, fresh), runtime) <==> (known(existing, runtime) || known(
            fresh,
            runtime,
        )),
{
    lemma_first_occurrences_distinct(existing + fresh);
    lemma_first_occurrences_known(existing + fresh, runtime);
    let all = existing + fresh;
    if known(all, runtime) {
        let j = choose|j: int| 0 <= j < all.len() && same_identity(all[j], runtime);
        if j < existing.len() {
            assert(same_identity(existing[j], runtime));
        } else {
            assert(same_identity(fresh[j - existing.len()], runtime));
        }
    }
    if known(existing, runtime) {
        let j = choose|j: int| 0 <= j < existing.len() && same_identity(existing[j], runtime);
        assert(same_identity(all[j], runtime));
    }
    if known(fresh, runtime) {
        let j = choose|j: int| 0 <= j < fresh.len() && same_identity(fresh[j], runtime);
        assert(same_identity(all[j + existing.len()], runtime));
    }
}

} // verus!
