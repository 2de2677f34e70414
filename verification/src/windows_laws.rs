//! What holds of every enumeration on Windows.

use vstd::prelude::*;
use crate::active_state::ActiveState;
use crate::app_state::{distinct, known, lemma_refresh_idempotent, merged};
use crate::error::ErrorView;
use crate::manifest::SUPPORTED_FILE_FORMAT_VERSION;
use crate::platform::{lemma_occurrences_contains, same_identity};
use crate::windows::{
    added,
    added_narrow,
    added_native,
    added_varjo,
    after_extras,
    after_narrows,
    after_natives,
    after_probed,
    claims_of,
    counterpart_of,
    enumerate,
    file_of,
    is_claimed,
    load_of,
    noted,
    partner_in,
    runtime_of,
    views,
    Collection,
    Enumeration,
    ExtraManifest,
    WindowsActiveRuntimeData,
    WindowsCandidate,
    WindowsDiscovery,
    WindowsHost,
    WindowsRuntime,
    WindowsRuntimeView,
};

verus! {

/// Every runtime has a manifest, every manifest path of a runtime is
/// claimed, and no manifest path belongs to two runtimes.
pub open spec fn owned_once(collection: Collection) -> bool {
    &&& forall|i: int|
        0 <= i < collection.runtimes.len() ==> (#[trigger] collection.runtimes[i]).paths().len()
            >= 1
    &&& forall|i: int, path: Seq<char>|
        0 <= i < collection.runtimes.len() && (#[trigger] collection.runtimes[i].paths()).contains(
            path,
        ) ==> #[trigger] collection.used.contains(path)
    &&& forall|i: int, j: int, path: Seq<char>|
        0 <= i < j < collection.runtimes.len() && (
        #[trigger] collection.runtimes[i].paths()).contains(path) ==> !(
        #[trigger] collection.runtimes[j].paths().contains(path))
}

/// What two lists hold is what their concatenation holds.
proof fn lemma_concat_contains(a: Seq<Seq<char>>, b: Seq<Seq<char>>, x: Seq<char>)
    ensures
        (a + b).contains(x) <==> a.contains(x) || b.contains(x),
{
    if a.contains(x) {
        let i = choose|i: int| 0 <= i < a.len() && a[i] == x;
        assert((a + b)[i] == x);
    }
    if b.contains(x) {
        let i = choose|i: int| 0 <= i < b.len() && b[i] == x;
        assert((a + b)[a.len() + i] == x);
    }
    if (a + b).contains(x) {
        let i = choose|i: int| 0 <= i < (a + b).len() && (a + b)[i] == x;
        if i < a.len() {
            assert(a[i] == x);
        } else {
            assert(b[i - a.len()] == x);
        }
    }
}

/// What a candidate claims is its path and the file it names.
proof fn lemma_claims(candidate: WindowsCandidate, x: Seq<char>)
    ensures
        claims_of(Some(candidate)).contains(x) <==> x == candidate.path@ || x == file_of(
            candidate,
        ),
        !claims_of(None).contains(x),
{
    let claims = claims_of(Some(candidate));
    assert(claims[0] == candidate.path@);
    if file_of(candidate) != candidate.path@ {
        assert(claims[1] == file_of(candidate));
    }
}

/// What is claimed after a runtime was added is what was claimed
/// before, and the paths and files of its candidates.
proof fn lemma_added_claims(
    collection: Collection,
    native: Option<WindowsCandidate>,
    narrow: Option<WindowsCandidate>,
    x: Seq<char>,
)
    requires
        added(collection, native, narrow).0 != collection,
    ensures
        added(collection, native, narrow).0.used.contains(x) <==> collection.used.contains(x)
            || claims_of(native).contains(x) || claims_of(narrow).contains(x),
{
    lemma_concat_contains(collection.used, claims_of(native), x);
    lemma_concat_contains(collection.used + claims_of(native), claims_of(narrow), x);
}

/// The paths of the runtime made of candidates are the paths of the
/// candidates.
proof fn lemma_runtime_paths(
    native: Option<WindowsCandidate>,
    narrow: Option<WindowsCandidate>,
    path: Seq<char>,
)
    requires
        runtime_of(native, narrow) is Ok,
    ensures
        runtime_of(native, narrow)->Ok_0.paths().len() >= 1,
        runtime_of(native, narrow)->Ok_0.paths().contains(path) <==> (native matches Some(a)
            && a.path@ == path) || (narrow matches Some(b) && b.path@ == path),
{
    let runtime = runtime_of(native, narrow)->Ok_0;
    let paths = runtime.paths();
    if paths.contains(path) {
        let k = choose|k: int| 0 <= k < paths.len() && paths[k] == path;
        assert(paths[k] == runtime.bases()[k].manifest_path);
    }
    if native matches Some(a) && a.path@ == path {
        assert(paths[0] == runtime.bases()[0].manifest_path);
    }
    if narrow matches Some(b) && b.path@ == path {
        assert(paths[paths.len() - 1] == runtime.bases()[paths.len() - 1].manifest_path);
    }
}

/// An attempt to add a runtime keeps each manifest with one runtime.
pub proof fn lemma_added_keeps_owned_once(
    collection: Collection,
    native: Option<WindowsCandidate>,
    narrow: Option<WindowsCandidate>,
)
    requires
        owned_once(collection),
    ensures
        owned_once(added(collection, native, narrow).0),
{
    let next = added(collection, native, narrow).0;
    if next != collection {
        let n = collection.runtimes.len() as int;
        lemma_runtime_paths(native, narrow, Seq::empty());
        assert forall|i: int| 0 <= i < next.runtimes.len() implies (
        #[trigger] next.runtimes[i]).paths().len() >= 1 by {
            if i < n {
                assert(next.runtimes[i] == collection.runtimes[i]);
            }
        }
        assert forall|i: int, path: Seq<char>|
            0 <= i < next.runtimes.len() && (#[trigger] next.runtimes[i].paths()).contains(
                path,
            ) implies #[trigger] next.used.contains(path) by {
            lemma_added_claims(collection, native, narrow, path);
            if i < n {
                assert(next.runtimes[i] == collection.runtimes[i]);
            } else {
                lemma_runtime_paths(native, narrow, path);
                if native is Some {
                    lemma_claims(native->0, path);
                }
                if narrow is Some {
                    lemma_claims(narrow->0, path);
                }
            }
        }
        assert forall|i: int, j: int, path: Seq<char>|
            0 <= i < j < next.runtimes.len() && (#[trigger] next.runtimes[i].paths()).contains(
                path,
            ) implies !(#[trigger] next.runtimes[j].paths().contains(path)) by {
            assert(next.runtimes[i] == collection.runtimes[i]);
            if j < n {
                assert(next.runtimes[j] == collection.runtimes[j]);
            } else {
                assert(collection.used.contains(path));
                lemma_runtime_paths(native, narrow, path);
            }
        }
    }
}

/// The native manifests keep each manifest with one runtime.
proof fn lemma_natives_keep_owned_once(
    state: Enumeration,
    native: Seq<WindowsCandidate>,
    narrow: Seq<WindowsCandidate>,
)
    requires
        owned_once(state.collection),
    ensures
        owned_once(after_natives(state, native, narrow).collection),
    decreases native.len(),
{
    if native.len() > 0 {
        lemma_natives_keep_owned_once(state, native.drop_last(), narrow);
        let before = after_natives(state, native.drop_last(), narrow).collection;
        lemma_added_keeps_owned_once(
            before,
            Some(native.last()),
            partner_in(before, counterpart_of(narrow, native.last())),
        );
    }
}

/// The narrow manifests keep each manifest with one runtime.
proof fn lemma_narrows_keep_owned_once(state: Enumeration, narrow: Seq<WindowsCandidate>)
    requires
        owned_once(state.collection),
    ensures
        owned_once(after_narrows(state, narrow).collection),
    decreases narrow.len(),
{
    if narrow.len() > 0 {
        lemma_narrows_keep_owned_once(state, narrow.drop_last());
        lemma_added_keeps_owned_once(
            after_narrows(state, narrow.drop_last()).collection,
            None,
            Some(narrow.last()),
        );
    }
}

/// The runtimes that are probed for keep each manifest with one
/// runtime.
proof fn lemma_probed_keep_owned_once(
    state: Enumeration,
    host: WindowsHost,
    varjo: Option<WindowsCandidate>,
    winmr_native: Option<WindowsCandidate>,
    winmr_narrow: Option<WindowsCandidate>,
)
    requires
        owned_once(state.collection),
    ensures
        owned_once(after_probed(state, host, varjo, winmr_native, winmr_narrow).collection),
{
    lemma_added_keeps_owned_once(state.collection, varjo, None);
    let with_varjo = added_varjo(state.collection, host, varjo).0;
    if winmr_native is Some {
        lemma_added_keeps_owned_once(
            with_varjo,
            winmr_native,
            partner_in(with_varjo, winmr_narrow),
        );
    }
    let first = match winmr_native {
        Some(a) => added_native(with_varjo, a, winmr_narrow).0,
        None => with_varjo,
    };
    lemma_added_keeps_owned_once(first, None, winmr_narrow);
}

/// The extra manifests keep each manifest with one runtime.
proof fn lemma_extras_keep_owned_once(state: Enumeration, extra: Seq<ExtraManifest>)
    requires
        owned_once(state.collection),
    ensures
        owned_once(after_extras(state, extra).collection),
    decreases extra.len(),
{
    if extra.len() > 0 {
        lemma_extras_keep_owned_once(state, extra.drop_last());
        let before = after_extras(state, extra.drop_last()).collection;
        let candidate = extra.last().candidate;
        lemma_added_keeps_owned_once(before, Some(candidate), None);
        lemma_added_keeps_owned_once(before, None, Some(candidate));
        lemma_added_keeps_owned_once(before, Some(candidate), Some(candidate));
    }
}

/// Deduplication: in the result of an enumeration every manifest path
/// belongs to exactly one logical runtime, however often and in
/// whichever view it was registered.
pub proof fn lemma_enumeration_owns_each_manifest_once(found: WindowsDiscovery, host: WindowsHost)
    ensures
        owned_once(enumerate(found, host).collection),
{
    let nothing = Enumeration {
        collection: Collection { runtimes: Seq::empty(), used: Seq::empty() },
        errors: Seq::empty(),
    };
    lemma_natives_keep_owned_once(nothing, found.native@, found.narrow@);
    let paired = after_natives(nothing, found.native@, found.narrow@);
    lemma_narrows_keep_owned_once(paired, found.narrow@);
    let registered = after_narrows(paired, found.narrow@);
    lemma_probed_keep_owned_once(
        registered,
        host,
        found.varjo,
        found.winmr_native,
        found.winmr_narrow,
    );
    let probed = after_probed(
        registered,
        host,
        found.varjo,
        found.winmr_native,
        found.winmr_narrow,
    );
    lemma_extras_keep_owned_once(probed, found.extra@);
}

/// The runtimes of an enumeration name no logical runtime twice.
pub proof fn lemma_enumerated_runtimes_distinct(
    runtimes: Seq<WindowsRuntime>,
    found: WindowsDiscovery,
    host: WindowsHost,
)
    requires
        views(runtimes) == enumerate(found, host).collection.runtimes,
    ensures
        distinct(runtimes),
{
    lemma_enumeration_owns_each_manifest_once(found, host);
    let collection = enumerate(found, host).collection;
    assert(views(runtimes).len() == runtimes.len());
    assert forall|i: int, j: int| 0 <= i < j < runtimes.len() implies !same_identity(
        #[trigger] runtimes[i],
        #[trigger] runtimes[j],
    ) by {
        assert(views(runtimes)[i] == runtimes[i]@);
        assert(views(runtimes)[j] == runtimes[j]@);
        let first = collection.runtimes[i].paths();
        let second = collection.runtimes[j].paths();
        let path = first[0];
        assert(first.contains(path));
        assert(!second.contains(path));
        lemma_occurrences_contains(first, path);
        lemma_occurrences_contains(second, path);
    }
}

/// Idempotence: where discovery comes upon the same manifests again, a
/// refresh leaves the runtimes and their order as they were.
pub proof fn lemma_rediscovery_changes_nothing(
    existing: Seq<WindowsRuntime>,
    fresh: Seq<WindowsRuntime>,
    found: WindowsDiscovery,
    host: WindowsHost,
)
    requires
        views(existing) == enumerate(found, host).collection.runtimes,
        views(fresh) == enumerate(found, host).collection.runtimes,
    ensures
        merged(existing, fresh) == existing,
{
    lemma_enumerated_runtimes_distinct(existing, found, host);
    assert(views(existing).len() == existing.len());
    assert(views(fresh).len() == fresh.len());
    assert forall|k: int| 0 <= k < fresh.len() implies known(existing, #[trigger] fresh[k]) by {
        assert(views(fresh)[k] == fresh[k]@);
        assert(views(existing)[k] == existing[k]@);
        assert(same_identity(existing[k], fresh[k]));
    }
    lemma_refresh_idempotent(existing, fresh);
}

/// Once a manifest has become part of a runtime, a candidate that is
/// registered under the same path, or names the same file by another
/// spelling, changes nothing in either view: entries that name one
/// file collapse to one logical runtime.
pub proof fn lemma_same_file_collapses(
    collection: Collection,
    first: WindowsCandidate,
    second: WindowsCandidate,
)
    requires
        !is_claimed(collection.used, Some(first)),
        load_of(first) is Ok,
        second.path@ == first.path@ || file_of(second) == file_of(first),
    ensures
        ({
            let next = added(collection, Some(first), None).0;
            &&& next.runtimes == collection.runtimes.push(
                WindowsRuntimeView { native: Some(load_of(first)->Ok_0), narrow: None },
            )
            &&& added(next, Some(second), None) == (next, Ok::<(), ErrorView>(()))
            &&& added(next, None, Some(second)) == (next, Ok::<(), ErrorView>(()))
        }),
{
    lemma_added_claims(collection, Some(first), None, second.path@);
    lemma_added_claims(collection, Some(first), None, file_of(second));
    lemma_claims(first, second.path@);
    lemma_claims(first, file_of(second));
}

/// Pairing: a native manifest and the narrow manifest of its directory,
/// where both load and neither is claimed, make one runtime of both
/// widths; the narrow manifest taken on its own afterwards changes
/// nothing and fails nothing.
pub proof fn lemma_pair_is_one_runtime(
    collection: Collection,
    native: WindowsCandidate,
    narrow: WindowsCandidate,
)
    requires
        !is_claimed(collection.used, Some(native)),
        !is_claimed(collection.used, Some(narrow)),
        load_of(native) is Ok,
        load_of(narrow) is Ok,
    ensures
        ({
            let (next, outcome) = added_native(collection, native, Some(narrow));
            &&& outcome is Ok
            &&& next.runtimes == collection.runtimes.push(
                WindowsRuntimeView {
                    native: Some(load_of(native)->Ok_0),
                    narrow: Some(load_of(narrow)->Ok_0),
                },
            )
            &&& added_narrow(next, narrow) == (next, Ok::<(), (Seq<char>, ErrorView)>(()))
        }),
{
    lemma_added_claims(collection, Some(native), Some(narrow), narrow.path@);
    lemma_claims(narrow, narrow.path@);
}

/// A native manifest whose counterpart is missing, is claimed or does
/// not load, where it loads itself and is not claimed, makes one
/// runtime of the native width only, and no error is filed under its
/// path.
pub proof fn lemma_lone_native_is_native_only(
    collection: Collection,
    native: WindowsCandidate,
    counterpart: Option<WindowsCandidate>,
)
    requires
        !is_claimed(collection.used, Some(native)),
        load_of(native) is Ok,
        counterpart matches Some(c) ==> is_claimed(collection.used, Some(c)) || load_of(c) is Err,
    ensures
        added_native(collection, native, counterpart).1 is Ok,
        added_native(collection, native, counterpart).0.runtimes == collection.runtimes.push(
            WindowsRuntimeView { native: Some(load_of(native)->Ok_0), narrow: None },
        ),
{
}

/// A valid native manifest is kept when the narrow manifest of its
/// directory fails: the native manifest becomes a runtime of one width,
/// and the failure is collected once, under the path of the narrow
/// manifest, when the narrow manifests are taken.
pub proof fn lemma_failing_counterpart_keeps_native(
    state: Enumeration,
    native: WindowsCandidate,
    narrow: WindowsCandidate,
)
    requires
        !is_claimed(state.collection.used, Some(native)),
        !is_claimed(state.collection.used, Some(narrow)),
        load_of(native) is Ok,
        load_of(narrow) is Err,
        narrow.path@ != native.path@,
        narrow.path@ != file_of(native),
        file_of(narrow) != native.path@,
        file_of(narrow) != file_of(native),
    ensures
        ({
            let paired = noted(
                state.errors,
                added_native(state.collection, native, Some(narrow)),
            );
            let done = noted(paired.errors, added_narrow(paired.collection, narrow));
            &&& paired.errors == state.errors
            &&& paired.collection.runtimes == state.collection.runtimes.push(
                WindowsRuntimeView { native: Some(load_of(native)->Ok_0), narrow: None },
            )
            &&& done.collection == paired.collection
            &&& done.errors == state.errors.push((narrow.path@, load_of(narrow)->Err_0))
        }),
{
    lemma_added_claims(state.collection, Some(native), None, narrow.path@);
    lemma_added_claims(state.collection, Some(native), None, file_of(narrow));
    lemma_claims(native, narrow.path@);
    lemma_claims(native, file_of(narrow));
}

/// A manifest of another file format version, where it is not skipped
/// as claimed, adds no runtime and is collected once, with the version
/// mismatch, under its own path.
pub proof fn lemma_version_mismatch_is_one_error(state: Enumeration, candidate: WindowsCandidate)
    requires
        !is_claimed(state.collection.used, Some(candidate)),
        candidate.loaded matches Ok(manifest) && manifest.file_format_version@
            != SUPPORTED_FILE_FORMAT_VERSION@,
    ensures
        noted(state.errors, added_narrow(state.collection, candidate)) == (Enumeration {
            collection: state.collection,
            errors: state.errors.push((candidate.path@, ErrorView::ManifestVersionMismatch)),
        }),
        noted(state.errors, added_native(state.collection, candidate, None)) == (Enumeration {
            collection: state.collection,
            errors: state.errors.push((candidate.path@, ErrorView::ManifestVersionMismatch)),
        }),
{
}

/// A manifest that loads is claimed once it was taken, as a native or
/// as a narrow manifest: it is part of a runtime, or an earlier runtime
/// holds its path or its file.
pub proof fn lemma_valid_manifest_is_claimed(
    collection: Collection,
    candidate: WindowsCandidate,
    counterpart: Option<WindowsCandidate>,
)
    requires
        load_of(candidate) is Ok,
    ensures
        is_claimed(added_native(collection, candidate, counterpart).0.used, Some(candidate)),
        is_claimed(added_narrow(collection, candidate).0.used, Some(candidate)),
{
    let partner = partner_in(collection, counterpart);
    if !is_claimed(collection.used, Some(candidate)) {
        lemma_added_claims(collection, Some(candidate), partner, candidate.path@);
        lemma_added_claims(collection, None, Some(candidate), candidate.path@);
        lemma_claims(candidate, candidate.path@);
    }
}

/// What is claimed stays claimed when a runtime is added.
pub proof fn lemma_claimed_stays(
    collection: Collection,
    native: Option<WindowsCandidate>,
    narrow: Option<WindowsCandidate>,
    candidate: WindowsCandidate,
)
    requires
        is_claimed(collection.used, Some(candidate)),
    ensures
        is_claimed(added(collection, native, narrow).0.used, Some(candidate)),
{
    if added(collection, native, narrow).0 != collection {
        lemma_added_claims(collection, native, narrow, candidate.path@);
        lemma_added_claims(collection, native, narrow, file_of(candidate));
    }
}

/// What is claimed stays claimed while native manifests are taken.
proof fn lemma_natives_keep_claimed(
    state: Enumeration,
    native: Seq<WindowsCandidate>,
    narrow: Seq<WindowsCandidate>,
    candidate: WindowsCandidate,
)
    requires
        is_claimed(state.collection.used, Some(candidate)),
    ensures
        is_claimed(after_natives(state, native, narrow).collection.used, Some(candidate)),
    decreases native.len(),
{
    if native.len() > 0 {
        lemma_natives_keep_claimed(state, native.drop_last(), narrow, candidate);
        let before = after_natives(state, native.drop_last(), narrow).collection;
        lemma_claimed_stays(
            before,
            Some(native.last()),
            partner_in(before, counterpart_of(narrow, native.last())),
            candidate,
        );
    }
}

/// What is claimed stays claimed while narrow manifests are taken.
proof fn lemma_narrows_keep_claimed(
    state: Enumeration,
    narrow: Seq<WindowsCandidate>,
    candidate: WindowsCandidate,
)
    requires
        is_claimed(state.collection.used, Some(candidate)),
    ensures
        is_claimed(after_narrows(state, narrow).collection.used, Some(candidate)),
    decreases narrow.len(),
{
    if narrow.len() > 0 {
        lemma_narrows_keep_claimed(state, narrow.drop_last(), candidate);
        lemma_claimed_stays(
            after_narrows(state, narrow.drop_last()).collection,
            None,
            Some(narrow.last()),
            candidate,
        );
    }
}

/// What is claimed stays claimed while the probed runtimes and the
/// extra manifests are taken.
proof fn lemma_rest_keeps_claimed(
    state: Enumeration,
    host: WindowsHost,
    found: WindowsDiscovery,
    candidate: WindowsCandidate,
)
    requires
        is_claimed(state.collection.used, Some(candidate)),
    ensures
        is_claimed(
            after_extras(
                after_probed(state, host, found.varjo, found.winmr_native, found.winmr_narrow),
                found.extra@,
            ).collection.used,
            Some(candidate),
        ),
{
    lemma_claimed_stays(state.collection, found.varjo, None, candidate);
    let with_varjo = added_varjo(state.collection, host, found.varjo).0;
    if found.winmr_native is Some {
        lemma_claimed_stays(
            with_varjo,
            found.winmr_native,
            partner_in(with_varjo, found.winmr_narrow),
            candidate,
        );
    }
    let first = match found.winmr_native {
        Some(a) => added_native(with_varjo, a, found.winmr_narrow).0,
        None => with_varjo,
    };
    lemma_claimed_stays(first, None, found.winmr_narrow, candidate);
    let probed = after_probed(state, host, found.varjo, found.winmr_native, found.winmr_narrow);
    lemma_extras_keep_claimed(probed, found.extra@, candidate);
}

/// What is claimed stays claimed while extra manifests are taken.
proof fn lemma_extras_keep_claimed(
    state: Enumeration,
    extra: Seq<ExtraManifest>,
    candidate: WindowsCandidate,
)
    requires
        is_claimed(state.collection.used, Some(candidate)),
    ensures
        is_claimed(after_extras(state, extra).collection.used, Some(candidate)),
    decreases extra.len(),
{
    if extra.len() > 0 {
        lemma_extras_keep_claimed(state, extra.drop_last(), candidate);
        let before = after_extras(state, extra.drop_last()).collection;
        let more = extra.last().candidate;
        lemma_claimed_stays(before, Some(more), None, candidate);
        lemma_claimed_stays(before, None, Some(more), candidate);
        lemma_claimed_stays(before, Some(more), Some(more), candidate);
    }
}

/// A native manifest that loads is claimed once the native manifests
/// were taken.
proof fn lemma_native_is_claimed(
    state: Enumeration,
    native: Seq<WindowsCandidate>,
    narrow: Seq<WindowsCandidate>,
    k: int,
)
    requires
        0 <= k < native.len(),
        load_of(native[k]) is Ok,
    ensures
        is_claimed(after_natives(state, native, narrow).collection.used, Some(native[k])),
    decreases native.len(),
{
    let before = after_natives(state, native.drop_last(), narrow).collection;
    if k == native.len() - 1 {
        lemma_valid_manifest_is_claimed(before, native[k], counterpart_of(narrow, native[k]));
    } else {
        assert(native.drop_last()[k] == native[k]);
        lemma_native_is_claimed(state, native.drop_last(), narrow, k);
        lemma_claimed_stays(
            before,
            Some(native.last()),
            partner_in(before, counterpart_of(narrow, native.last())),
            native[k],
        );
    }
}

/// A narrow manifest that loads is claimed once the narrow manifests
/// were taken.
proof fn lemma_narrow_is_claimed(state: Enumeration, narrow: Seq<WindowsCandidate>, k: int)
    requires
        0 <= k < narrow.len(),
        load_of(narrow[k]) is Ok,
    ensures
        is_claimed(after_narrows(state, narrow).collection.used, Some(narrow[k])),
    decreases narrow.len(),
{
    let before = after_narrows(state, narrow.drop_last()).collection;
    if k == narrow.len() - 1 {
        lemma_valid_manifest_is_claimed(before, narrow[k], None);
    } else {
        assert(narrow.drop_last()[k] == narrow[k]);
        lemma_narrow_is_claimed(state, narrow.drop_last(), k);
        lemma_claimed_stays(before, None, Some(narrow.last()), narrow[k]);
    }
}

/// No valid registered manifest is lost: every manifest that is
/// registered for either view and loads is claimed in the result of
/// the enumeration, so that it is part of a runtime, or an earlier
/// runtime holds its path or its file.
pub proof fn lemma_registered_manifests_are_claimed(
    found: WindowsDiscovery,
    host: WindowsHost,
    candidate: WindowsCandidate,
)
    requires
        found.native@.contains(candidate) || found.narrow@.contains(candidate),
        load_of(candidate) is Ok,
    ensures
        is_claimed(enumerate(found, host).collection.used, Some(candidate)),
{
    let nothing = Enumeration {
        collection: Collection { runtimes: Seq::empty(), used: Seq::empty() },
        errors: Seq::empty(),
    };
    let paired = after_natives(nothing, found.native@, found.narrow@);
    let registered = after_narrows(paired, found.narrow@);
    if found.native@.contains(candidate) {
        let k = choose|k: int| 0 <= k < found.native@.len() && found.native@[k] == candidate;
        lemma_native_is_claimed(nothing, found.native@, found.narrow@, k);
        lemma_narrows_keep_claimed(paired, found.narrow@, candidate);
    } else {
        let k = choose|k: int| 0 <= k < found.narrow@.len() && found.narrow@[k] == candidate;
        lemma_narrow_is_claimed(paired, found.narrow@, k);
    }
    lemma_rest_keeps_claimed(registered, host, found, candidate);
}

/// An attempt that fails, or adds no runtime, changes nothing: only
/// runtimes claim paths, and nothing is claimed for a manifest that
/// failed or was skipped.
pub proof fn lemma_only_runtimes_claim(
    collection: Collection,
    native: Option<WindowsCandidate>,
    narrow: Option<WindowsCandidate>,
)
    ensures
        added(collection, native, narrow).1 is Err ==> added(collection, native, narrow).0
            == collection,
        added(collection, native, narrow).0.runtimes.len() == collection.runtimes.len()
            ==> added(collection, native, narrow).0 == collection,
{
}

/// A width that a runtime has no manifest for is never reported as
/// active, whatever the view names.
pub proof fn lemma_missing_width_is_not_active(
    data: WindowsActiveRuntimeData,
    runtime: WindowsRuntimeView,
)
    ensures
        runtime.narrow is None ==> data.state_of(runtime) != ActiveState::ActiveBoth
            && data.state_of(runtime) != ActiveState::ActiveNarrowOnly,
        runtime.native is None ==> data.state_of(runtime) != ActiveState::ActiveBoth
            && data.state_of(runtime) != ActiveState::ActiveNativeOnly,
        data.state_of(runtime) != ActiveState::ActiveIndependentRuntime,
{
}

/// Activation touches only the widths that the runtime provides: a
/// runtime without a narrow manifest writes nothing to the narrow view,
/// and one without a native manifest nothing to the native view.
pub proof fn lemma_activation_leaves_missing_widths(runtime: WindowsRuntimeView, host: WindowsHost)
    ensures
        runtime.activation(host).len() <= 2,
        runtime.native is None && runtime.narrow is None ==> runtime.activation(host).len() == 0,
        runtime.narrow is None ==> runtime.activation(host).len() <= 1 && forall|k: int|
            0 <= k < runtime.activation(host).len() ==> (
            #[trigger] runtime.activation(host)[k]).data == runtime.native->0.manifest_path,
        runtime.native is None ==> runtime.activation(host).len() <= 1 && forall|k: int|
            0 <= k < runtime.activation(host).len() ==> (
            #[trigger] runtime.activation(host)[k]).data == runtime.narrow->0.manifest_path,
{
}

} // verus!
