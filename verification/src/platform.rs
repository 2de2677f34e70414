//! What every platform's runtime offers, and the identity by which
//! runtimes are told apart.

use vstd::prelude::*;
use vstd::string::*;
use crate::paths::PathSimplifier;

verus! {

/// The texts of a list of strings.
pub open spec fn texts(strings: Seq<String>) -> Seq<Seq<char>> {
    strings.map_values(|s: String| s@)
}

/// How often `path` occurs in `paths`.
pub open spec fn occurrences(paths: Seq<Seq<char>>, path: Seq<char>) -> nat
    decreases paths.len(),
{
    if paths.len() == 0 {
        0
    } else {
        occurrences(paths.drop_last(), path) + if paths.last() == path {
            1nat
        } else {
            0nat
        }
    }
}

/// Two lists hold the same paths, each as often in one as in the other:
/// they are equal once sorted.
pub open spec fn same_path_set(a: Seq<Seq<char>>, b: Seq<Seq<char>>) -> bool {
    forall|path: Seq<char>| occurrences(a, path) == occurrences(b, path)
}

/// A path occurs in a list at least once exactly when the list holds it.
pub proof fn lemma_occurrences_contains(paths: Seq<Seq<char>>, path: Seq<char>)
    ensures
        occurrences(paths, path) > 0 <==> paths.contains(path),
    decreases paths.len(),
{
    if paths.len() > 0 {
        lemma_occurrences_contains(paths.drop_last(), path);
        if paths.last() == path {
            assert(paths[paths.len() - 1] == path);
        } else if paths.contains(path) {
            let i = choose|i: int| 0 <= i < paths.len() && paths[i] == path;
            assert(paths.drop_last()[i] == path);
        } else if paths.drop_last().contains(path) {
            let i = choose|i: int| 0 <= i < paths.drop_last().len() && paths.drop_last()[i] == path;
            assert(paths[i] == path);
        }
    }
}

/// Does `paths` hold `path`?
pub fn holds_path(paths: &Vec<String>, path: &String) -> (found: bool)
    ensures
        found == texts(paths@).contains(path@),
{
    let mut i: usize = 0;
    while i < paths.len()
        invariant
            i <= paths.len(),
            forall|j: int| 0 <= j < i ==> texts(paths@)[j] != path@,
        decreases paths.len() - i,
    {
        if paths[i] == *path {
            assert(texts(paths@)[i as int] == path@);
            return true;
        }
        i += 1;
    }
    false
}

/// Add `path` to `paths` unless they hold it.
pub fn push_unique(paths: &mut Vec<String>, path: String)
    ensures
        texts(final(paths)@) == if texts(old(paths)@).contains(path@) {
            texts(old(paths)@)
        } else {
            texts(old(paths)@).push(path@)
        },
{
    if !holds_path(paths, &path) {
        paths.push(path);
        assert(texts(paths@) =~= texts(old(paths)@).push(path@));
    }
}

/// Trait for platform-specific interaction with a runtime.
pub trait PlatformRuntime {
    /// The manifest paths that this runtime owns.
    spec fn manifest_paths(&self) -> Seq<Seq<char>>;

    /// The name of this runtime.
    spec fn runtime_name(&self) -> Seq<char>;

    /// The description of this runtime, with the home directory
    /// abbreviated as `simplifier` does.
    spec fn description(&self, simplifier: PathSimplifier) -> Seq<char>;

    /// Get a name for the runtime, preferably the self-declared one.
    ///
    /// Not promised to be unique, though!
    fn get_runtime_name(&self) -> (name: String)
        ensures
            name@ == self.runtime_name(),
    ;

    /// The manifest paths that this runtime owns.
    fn get_manifests(&self) -> (paths: Vec<String>)
        ensures
            texts(paths@) == self.manifest_paths(),
    ;

    /// Describe this specific instance of a runtime: usually using the
    /// manifest(s) and library.
    fn describe(&self, simplifier: &PathSimplifier) -> (text: String)
        ensures
            text@ == self.description(*simplifier),
    ;
}

/// Two runtimes are the same logical runtime when they own the same
/// manifest paths.
pub open spec fn same_identity<R: PlatformRuntime>(a: R, b: R) -> bool {
    same_path_set(a.manifest_paths(), b.manifest_paths())
}

/// How often `path` occurs in `paths`.
fn count_path(paths: &Vec<String>, path: &String) -> (count: usize)
    ensures
        count == occurrences(texts(paths@), path@),
{
    let mut count: usize = 0;
    let mut i: usize = 0;
    while i < paths.len()
        invariant
            i <= paths.len(),
            count <= i,
            count == occurrences(texts(paths@).take(i as int), path@),
        decreases paths.len() - i,
    {
        assert(texts(paths@).take(i + 1).drop_last() =~= texts(paths@).take(i as int));
        if paths[i] == *path {
            count += 1;
        }
        i += 1;
    }
    assert(texts(paths@).take(paths.len() as int) =~= texts(paths@));
    count
}

/// Does every path of `probe` occur as often in `a` as in `b`?
fn counts_agree(probe: &Vec<String>, a: &Vec<String>, b: &Vec<String>) -> (agree: bool)
    ensures
        agree == forall|i: int|
            0 <= i < probe.len() ==> occurrences(texts(a@), #[trigger] probe@[i]@) == occurrences(
                texts(b@),
                probe@[i]@,
            ),
{
    let mut i: usize = 0;
    while i < probe.len()
        invariant
            i <= probe.len(),
            forall|j: int|
                0 <= j < i ==> occurrences(texts(a@), #[trigger] probe@[j]@) == occurrences(
                    texts(b@),
                    probe@[j]@,
                ),
        decreases probe.len() - i,
    {
        if count_path(a, &probe[i]) != count_path(b, &probe[i]) {
            return false;
        }
        i += 1;
    }
    true
}

/// Do two lists hold the same paths, each as often in one as in the
/// other?
pub fn same_paths(a: &Vec<String>, b: &Vec<String>) -> (same: bool)
    ensures
        same == same_path_set(texts(a@), texts(b@)),
{
    let same = counts_agree(a, a, b) && counts_agree(b, a, b);
    proof {
        if same {
            assert forall|path: Seq<char>|
                occurrences(texts(a@), path) == occurrences(texts(b@), path) by {
                lemma_occurrences_contains(texts(a@), path);
                lemma_occurrences_contains(texts(b@), path);
                if texts(a@).contains(path) {
                    let i = choose|i: int| 0 <= i < texts(a@).len() && texts(a@)[i] == path;
                    assert(a@[i]@ == path);
                } else if texts(b@).contains(path) {
                    let i = choose|i: int| 0 <= i < texts(b@).len() && texts(b@)[i] == path;
                    assert(b@[i]@ == path);
                }
            }
        }
    }
    same
}

/// Are two runtimes the same logical runtime?
pub fn is_same_runtime<R: PlatformRuntime>(a: &R, b: &R) -> (same: bool)
    ensures
        same == same_identity(*a, *b),
{
    let a_paths = a.get_manifests();
    let b_paths = b.get_manifests();
    same_paths(&a_paths, &b_paths)
}

/// Owning the same manifest paths is an equivalence: every runtime is
/// itself, and the relation holds both ways and along chains.
pub proof fn lemma_same_identity_equivalence<R: PlatformRuntime>(a: R, b: R, c: R)
    ensures
        same_identity(a, a),
        same_identity(a, b) ==> same_identity(b, a),
        same_identity(a, b) && same_identity(b, c) ==> same_identity(a, c),
{
}

} // verus!
