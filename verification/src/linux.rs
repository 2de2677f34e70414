//! Runtimes on Linux: manifests found below the XDG configuration
//! directories and `/etc`, with the active one chosen by a symbolic link.

use vstd::prelude::*;
use vstd::string::*;
use crate::active_state::ActiveState;
use crate::error::{Error, ManifestError};
use crate::manifest::{description_of, RuntimeManifest, SUPPORTED_FILE_FORMAT_VERSION};
use crate::paths::{file_name, file_name_of, PathSimplifier, PathStyle};
use crate::platform::{holds_path, texts, PlatformRuntime};
use crate::runtime::{resolved_library_of, runtime_name_of, BaseRuntime};
use crate::text::{decimal, decimal_text, join_text};
use crate::{ACTIVE_RUNTIME_FILENAME, OPENXR, OPENXR_MAJOR_VERSION};

verus! {

/// The system configuration directory.
pub const ETC: &'static str = "/etc";

/// The directory, below a configuration directory, that holds the
/// manifests: `openxr/` and the major version.
pub open spec fn path_suffix() -> Seq<char> {
    OPENXR@ + seq!['/'] + decimal(OPENXR_MAJOR_VERSION as nat)
}

/// `dir` followed by a separator and `name`.
pub open spec fn joined(dir: Seq<char>, name: Seq<char>) -> Seq<char> {
    dir + seq!['/'] + name
}

/// `dir` followed by a separator and `name`.
pub fn join_path(dir: &str, name: &str) -> (path: String)
    ensures
        path@ == joined(dir@, name@),
{
    proof {
        reveal_strlit("/");
    }
    let mut path = join_text(dir, "/");
    assert("/"@ =~= seq!['/']);
    path.append(name);
    path
}

/// The directory, below a configuration directory, that holds the
/// manifests.
pub fn make_path_suffix() -> (suffix: String)
    ensures
        suffix@ == path_suffix(),
{
    let version = decimal_text(OPENXR_MAJOR_VERSION as u64);
    join_path(OPENXR, version.as_str())
}

/// The directory below `/etc` that `suffix` names.
pub fn make_sysconfdir(suffix: &str) -> (dir: String)
    ensures
        dir@ == joined(ETC@, suffix@),
{
    join_path(ETC, suffix)
}

/// Is `path` named like the marker of the active runtime?
pub open spec fn is_active_name(path: Seq<char>) -> bool {
    file_name_of(PathStyle::Unix, path) == ACTIVE_RUNTIME_FILENAME@
}

/// Is `path` named like the marker of the active runtime?
pub fn is_active_runtime_name(path: &str) -> (yes: bool)
    ensures
        yes == is_active_name(path@),
{
    file_name(PathStyle::Unix, path) == String::from_str(ACTIVE_RUNTIME_FILENAME)
}

/// One runtime on Linux: its manifest under its canonical path, and the
/// path under which it was found.
#[derive(Debug, Clone, PartialEq, Eq)]
pub struct LinuxRuntime {
    base: BaseRuntime,
    orig_path: String,
}

/// What a `LinuxRuntime` holds.
pub struct LinuxRuntimeView {
    /// The path under which the manifest was found, possibly a link.
    pub orig_path: Seq<char>,
    /// The canonical path of the manifest.
    pub manifest_path: Seq<char>,
    /// The parsed manifest.
    pub manifest: RuntimeManifest,
}

impl View for LinuxRuntime {
    type V = LinuxRuntimeView;

    closed spec fn view(&self) -> LinuxRuntimeView {
        LinuxRuntimeView {
            orig_path: self.orig_path@,
            manifest_path: self.base.path_text(),
            manifest: self.base.manifest_data(),
        }
    }
}

impl LinuxRuntimeView {
    /// The library path that the manifest names.
    pub open spec fn library_path(self) -> Seq<char> {
        self.manifest.runtime.library_path@
    }

    /// The name that the manifest declares, if any.
    pub open spec fn declared_name(self) -> Option<Seq<char>> {
        match self.manifest.runtime.name {
            Some(name) => Some(name@),
            None => None,
        }
    }

    /// The description of the runtime: that of its manifest, led by the
    /// path under which it was found where that is another.
    pub open spec fn description(self, simplifier: PathSimplifier) -> Seq<char> {
        let of_manifest = description_of(simplifier, self.manifest_path, self.library_path());
        if self.orig_path != self.manifest_path {
            self.orig_path + " -> "@ + of_manifest
        } else {
            of_manifest
        }
    }
}

impl LinuxRuntime {
    /// Create from the path under which a manifest was found, its
    /// canonical path, and the outcome of reading and decoding it.
    pub fn new(orig_path: &str, canonical_path: &str, loaded: Result<RuntimeManifest, Error>) -> (made:
        Result<LinuxRuntime, Error>)
        ensures
            match loaded {
                Err(e) => made == Err::<LinuxRuntime, Error>(e),
                Ok(manifest) => if manifest.file_format_version@
                    == SUPPORTED_FILE_FORMAT_VERSION@ {
                    made matches Ok(runtime) && runtime@ == (LinuxRuntimeView {
                        orig_path: orig_path@,
                        manifest_path: canonical_path@,
                        manifest,
                    })
                } else {
                    made == Err::<LinuxRuntime, Error>(Error::ManifestVersionMismatch)
                },
            },
    {
        match BaseRuntime::new(canonical_path, loaded) {
            Ok(base) => Ok(LinuxRuntime { base, orig_path: String::from_str(orig_path) }),
            Err(e) => Err(e),
        }
    }

    /// The path under which the manifest was found.
    pub fn get_orig_path(&self) -> (path: &str)
        ensures
            path@ == self@.orig_path,
    {
        self.orig_path.as_str()
    }

    /// The manifest and its canonical path.
    pub fn get_base(&self) -> (base: &BaseRuntime)
        ensures
            base.path_text() == self@.manifest_path,
            base.manifest_data() == self@.manifest,
    {
        &self.base
    }

    /// The resolved library of this runtime, given the canonical form of
    /// its library location, if the file system has one.
    pub fn get_libraries(&self, canonical: Option<String>) -> (libraries: Vec<String>)
        ensures
            texts(libraries@) == seq![
                resolved_library_of(
                    PathStyle::Unix,
                    self@.manifest_path,
                    self@.library_path(),
                    match canonical {
                        Some(found) => Some(found@),
                        None => None,
                    },
                ),
            ],
    {
        let path = self.base.resolve_library_path(PathStyle::Unix, canonical);
        let mut libraries: Vec<String> = Vec::new();
        libraries.push(path);
        assert(texts(libraries@) =~= seq![libraries@[0]@]);
        libraries
    }
}

impl PlatformRuntime for LinuxRuntime {
    open spec fn manifest_paths(&self) -> Seq<Seq<char>> {
        seq![self@.manifest_path]
    }

    open spec fn runtime_name(&self) -> Seq<char> {
        runtime_name_of(self@.declared_name(), self@.library_path(), self@.manifest_path)
    }

    open spec fn description(&self, simplifier: PathSimplifier) -> Seq<char> {
        self@.description(simplifier)
    }

    fn get_runtime_name(&self) -> (name: String) {
        self.base.get_runtime_name()
    }

    fn get_manifests(&self) -> (paths: Vec<String>) {
        let mut paths: Vec<String> = Vec::new();
        paths.push(String::from_str(self.base.get_manifest_path()));
        assert(texts(paths@) =~= seq![paths@[0]@]);
        paths
    }

    fn describe(&self, simplifier: &PathSimplifier) -> (text: String) {
        let description = self.base.describe_manifest(simplifier);
        if self.orig_path != String::from_str(self.base.get_manifest_path()) {
            let mut text = join_text(self.orig_path.as_str(), " -> ");
            text.append(description.as_str());
            text
        } else {
            description
        }
    }
}


/// The views of a list of runtimes.
pub open spec fn views(runtimes: Seq<LinuxRuntime>) -> Seq<LinuxRuntimeView> {
    runtimes.map_values(|r: LinuxRuntime| r@)
}

/// A manifest that discovery came upon: the path under which it was
/// found, its canonical path if the file system gave one, and the
/// outcome of reading and decoding the file.
#[derive(Debug)]
pub struct LinuxCandidate {
    pub orig_path: String,
    pub canonical_path: Option<String>,
    pub loaded: Result<RuntimeManifest, Error>,
}

/// What an enumeration has gathered so far.
pub struct Enumeration {
    /// The runtimes, in the order of discovery.
    pub runtimes: Seq<LinuxRuntimeView>,
    /// The manifests that could not be loaded, each with its failure.
    pub errors: Seq<ManifestError>,
    /// The paths, found and canonical, of the runtimes gathered.
    pub claimed: Seq<Seq<char>>,
}

/// An enumeration that has seen no candidate.
pub open spec fn nothing_found() -> Enumeration {
    Enumeration { runtimes: Seq::empty(), errors: Seq::empty(), claimed: Seq::empty() }
}

/// Is the candidate one that an enumeration in this state loads: does
/// it have a canonical path, and is neither of its paths claimed?
pub open spec fn is_new(state: Enumeration, candidate: LinuxCandidate) -> bool {
    candidate.canonical_path matches Some(canonical) && !state.claimed.contains(
        candidate.orig_path@,
    ) && !state.claimed.contains(canonical@)
}

/// Does the candidate hold a manifest of the supported version?
pub open spec fn is_valid(candidate: LinuxCandidate) -> bool {
    candidate.loaded matches Ok(manifest) && manifest.file_format_version@
        == SUPPORTED_FILE_FORMAT_VERSION@
}

/// The failure for which a candidate that is not valid is refused.
pub open spec fn failure_of(candidate: LinuxCandidate) -> Error {
    match candidate.loaded {
        Err(e) => e,
        Ok(_) => Error::ManifestVersionMismatch,
    }
}

/// The runtime that a valid candidate becomes.
pub open spec fn runtime_of(candidate: LinuxCandidate) -> LinuxRuntimeView {
    LinuxRuntimeView {
        orig_path: candidate.orig_path@,
        manifest_path: candidate.canonical_path->0@,
        manifest: candidate.loaded->Ok_0,
    }
}

/// The enumeration after one more candidate. A candidate without a
/// canonical path, or with a path that is claimed, changes nothing. Any
/// other becomes a runtime that claims both its paths if it is valid,
/// and one collected error under its found path if it is not.
pub open spec fn after(state: Enumeration, candidate: LinuxCandidate) -> Enumeration {
    if !is_new(state, candidate) {
        state
    } else if !is_valid(candidate) {
        Enumeration {
            errors: state.errors.push(ManifestError(candidate.orig_path, failure_of(candidate))),
            ..state
        }
    } else {
        let canonical = candidate.canonical_path->0@;
        Enumeration {
            runtimes: state.runtimes.push(runtime_of(candidate)),
            claimed: if candidate.orig_path@ != canonical {
                state.claimed.push(canonical).push(candidate.orig_path@)
            } else {
                state.claimed.push(candidate.orig_path@)
            },
            ..state
        }
    }
}

/// The enumeration of a list of candidates, taken in order.
pub open spec fn enumerate(candidates: Seq<LinuxCandidate>) -> Enumeration
    decreases candidates.len(),
{
    if candidates.len() == 0 {
        nothing_found()
    } else {
        after(enumerate(candidates.drop_last()), candidates.last())
    }
}

/// Take one more candidate into an enumeration.
fn take_candidate(
    runtimes: &mut Vec<LinuxRuntime>,
    errors: &mut Vec<ManifestError>,
    claimed: &mut Vec<String>,
    candidate: LinuxCandidate,
)
    ensures
        (Enumeration {
            runtimes: views(final(runtimes)@),
            errors: final(errors)@,
            claimed: texts(final(claimed)@),
        }) == after(
            Enumeration {
                runtimes: views(old(runtimes)@),
                errors: old(errors)@,
                claimed: texts(old(claimed)@),
            },
            candidate,
        ),
{
    let LinuxCandidate { orig_path, canonical_path, loaded } = candidate;
    let canonical = match canonical_path {
        Some(canonical) => canonical,
        None => {
            return ;
        },
    };
    if holds_path(claimed, &orig_path) || holds_path(claimed, &canonical) {
        return ;
    }
    match LinuxRuntime::new(orig_path.as_str(), canonical.as_str(), loaded) {
        Ok(runtime) => {
            runtimes.push(runtime);
            assert(views(runtimes@) =~= views(old(runtimes)@).push(runtime@));
            if orig_path != canonical {
                claimed.push(canonical);
                claimed.push(orig_path);
                assert(texts(claimed@) =~= texts(old(claimed)@).push(canonical@).push(
                    orig_path@,
                ));
            } else {
                claimed.push(orig_path);
                assert(texts(claimed@) =~= texts(old(claimed)@).push(orig_path@));
            }
        },
        Err(e) => {
            errors.push(ManifestError(orig_path, e));
        },
    }
}

/// The Linux platform: where manifests are looked for.
pub struct LinuxPlatform {
    path_suffix: String,
}

impl LinuxPlatform {
    /// The directory, below a configuration directory, that this
    /// platform looks in.
    pub closed spec fn suffix(&self) -> Seq<char> {
        self.path_suffix@
    }

    /// The platform that looks in `openxr/` and the major version.
    pub fn new() -> (platform: LinuxPlatform)
        ensures
            platform.suffix() == path_suffix(),
    {
        let path_suffix = make_path_suffix();
        LinuxPlatform { path_suffix }
    }

    /// The directory, below a configuration directory, that this
    /// platform looks in.
    pub fn get_path_suffix(&self) -> (suffix: &str)
        ensures
            suffix@ == self.suffix(),
    {
        self.path_suffix.as_str()
    }

    /// Enumerate all available runtimes among the candidates that
    /// discovery came upon, taken in order. Never fails: a candidate
    /// that cannot be loaded becomes a non-fatal error.
    pub fn find_available_runtimes(&self, candidates: Vec<LinuxCandidate>) -> (found: Result<
        (Vec<LinuxRuntime>, Vec<ManifestError>),
        Error,
    >)
        ensures
            found matches Ok((runtimes, nonfatal_errors)) && views(runtimes@) == enumerate(
                candidates@,
            ).runtimes && nonfatal_errors@ == enumerate(candidates@).errors,
    {
        let mut runtimes: Vec<LinuxRuntime> = Vec::new();
        let mut nonfatal_errors: Vec<ManifestError> = Vec::new();
        let mut known_manifests: Vec<String> = Vec::new();
        let ghost all = candidates@;
        assert(views(runtimes@) =~= nothing_found().runtimes);
        assert(texts(known_manifests@) =~= nothing_found().claimed);
        for candidate in it: candidates.into_iter()
            invariant
                it.seq() == all,
                (Enumeration {
                    runtimes: views(runtimes@),
                    errors: nonfatal_errors@,
                    claimed: texts(known_manifests@),
                }) == enumerate(all.take(it.index() as int)),
        {
            proof {
                let next = all.take(it.index() + 1);
                assert(next.drop_last() =~= all.take(it.index() as int));
                assert(next.last() == candidate);
            }
            take_candidate(&mut runtimes, &mut nonfatal_errors, &mut known_manifests, candidate);
        }
        assert(all.take(all.len() as int) =~= all);
        Ok((runtimes, nonfatal_errors))
    }
}

/// Call to create the Linux platform.
pub fn make_platform() -> (platform: LinuxPlatform)
    ensures
        platform.suffix() == path_suffix(),
{
    LinuxPlatform::new()
}


/// `paths` without those named like the marker of the active runtime.
pub open spec fn without_active_names(paths: Seq<Seq<char>>) -> Seq<Seq<char>>
    decreases paths.len(),
{
    if paths.len() == 0 {
        Seq::empty()
    } else if is_active_name(paths.last()) {
        without_active_names(paths.drop_last())
    } else {
        without_active_names(paths.drop_last()).push(paths.last())
    }
}

/// An entry of a directory listing.
#[derive(Debug, Clone, PartialEq, Eq)]
pub struct DirectoryEntry {
    pub path: String,
    /// Whether the entry is a regular file or a symbolic link.
    pub is_file_or_symlink: bool,
}

/// The paths of the entries that are files or symbolic links.
pub open spec fn files_of(entries: Seq<DirectoryEntry>) -> Seq<Seq<char>>
    decreases entries.len(),
{
    if entries.len() == 0 {
        Seq::empty()
    } else if entries.last().is_file_or_symlink {
        files_of(entries.drop_last()).push(entries.last().path@)
    } else {
        files_of(entries.drop_last())
    }
}

/// The texts that are present in a list of optional ones, in order.
pub open spec fn present(located: Seq<Option<String>>) -> Seq<Seq<char>>
    decreases located.len(),
{
    if located.len() == 0 {
        Seq::empty()
    } else {
        match located.last() {
            Some(path) => present(located.drop_last()).push(path@),
            None => present(located.drop_last()),
        }
    }
}

/// The marker of the active runtime below the directory `suffix`.
pub open spec fn active_file(suffix: Seq<char>) -> Seq<char> {
    joined(suffix, ACTIVE_RUNTIME_FILENAME@)
}

/// Where the marker of the active runtime may lie, the most important
/// place first: the places that the XDG search found, which come in
/// increasing importance, in reverse; then the place below `/etc`.
pub open spec fn active_locations(xdg_found: Seq<Seq<char>>, suffix: Seq<char>) -> Seq<Seq<char>> {
    xdg_found.reverse().push(joined(ETC@, active_file(suffix)))
}

/// The manifests among the files that the XDG configuration directories
/// list below the path suffix: all but those named like the marker of
/// the active runtime.
pub fn find_potential_manifests_xdg(listed: Vec<String>) -> (manifests: Vec<String>)
    ensures
        texts(manifests@) == without_active_names(texts(listed@)),
{
    let mut manifests: Vec<String> = Vec::new();
    let ghost all = listed@;
    assert(texts(manifests@) =~= Seq::<Seq<char>>::empty());
    for path in it: listed.into_iter()
        invariant
            it.seq() == all,
            texts(manifests@) == without_active_names(texts(all.take(it.index() as int))),
    {
        proof {
            let next = texts(all.take(it.index() + 1));
            assert(next.drop_last() =~= texts(all.take(it.index() as int)));
            assert(next.last() == path@);
        }
        if !is_active_runtime_name(path.as_str()) {
            let ghost before = manifests@;
            manifests.push(path);
            assert(texts(manifests@) =~= texts(before).push(path@));
        }
    }
    assert(all.take(all.len() as int) =~= all);
    manifests
}

/// The manifests among the entries of the directory below `/etc`: the
/// files and symbolic links, but for those named like the marker of the
/// active runtime.
pub fn find_potential_manifests_sysconfdir(entries: Vec<DirectoryEntry>) -> (manifests: Vec<String>)
    ensures
        texts(manifests@) == without_active_names(files_of(entries@)),
{
    let mut files: Vec<String> = Vec::new();
    let ghost all = entries@;
    assert(texts(files@) =~= Seq::<Seq<char>>::empty());
    for entry in it: entries.into_iter()
        invariant
            it.seq() == all,
            texts(files@) == files_of(all.take(it.index() as int)),
    {
        proof {
            let next = all.take(it.index() + 1);
            assert(next.drop_last() =~= all.take(it.index() as int));
            assert(next.last() == entry);
        }
        if entry.is_file_or_symlink {
            let ghost before = files@;
            files.push(entry.path);
            assert(texts(files@) =~= texts(before).push(entry.path@));
        }
    }
    assert(all.take(all.len() as int) =~= all);
    find_potential_manifests_xdg(files)
}

/// The canonical paths of the markers of the active runtime that exist,
/// given for each place where one may lie, the most important first,
/// its canonical path or nothing where no file or link lies there.
pub fn possible_active_runtimes(located: Vec<Option<String>>) -> (active: Vec<String>)
    ensures
        texts(active@) == present(located@),
{
    let mut active: Vec<String> = Vec::new();
    let ghost all = located@;
    assert(texts(active@) =~= Seq::<Seq<char>>::empty());
    for place in it: located.into_iter()
        invariant
            it.seq() == all,
            texts(active@) == present(all.take(it.index() as int)),
    {
        proof {
            let next = all.take(it.index() + 1);
            assert(next.drop_last() =~= all.take(it.index() as int));
            assert(next.last() == place);
        }
        if let Some(path) = place {
            let ghost before = active@;
            active.push(path);
            assert(texts(active@) =~= texts(before).push(path@));
        }
    }
    assert(all.take(all.len() as int) =~= all);
    active
}

/// The paths at which manifests are looked for, in the order in which
/// an enumeration takes them: what the XDG directories hold, what
/// `/etc` holds, the active runtime itself, and last the extra paths.
pub fn discovery_order(
    xdg: Vec<String>,
    sysconfdir: Vec<String>,
    active: Vec<String>,
    extra_paths: Vec<String>,
) -> (paths: Vec<String>)
    ensures
        paths@ == xdg@ + sysconfdir@ + active@ + extra_paths@,
{
    let mut paths = xdg;
    let mut sysconfdir = sysconfdir;
    let mut active = active;
    let mut extra_paths = extra_paths;
    paths.append(&mut sysconfdir);
    paths.append(&mut active);
    paths.append(&mut extra_paths);
    paths
}

/// The canonical path of the active runtime's manifest, if a runtime is
/// active.
#[derive(Debug, Clone, PartialEq, Eq)]
pub struct LinuxActiveRuntimeData(pub Option<String>);

impl LinuxActiveRuntimeData {
    /// The path of the active manifest, as text.
    pub open spec fn active_path(&self) -> Option<Seq<char>> {
        match self.0 {
            Some(path) => Some(path@),
            None => None,
        }
    }

    /// The state of a runtime with the manifest path `manifest_path`.
    pub open spec fn state_of(&self, manifest_path: Seq<char>) -> ActiveState {
        if self.active_path() == Some(manifest_path) {
            ActiveState::ActiveIndependentRuntime
        } else {
            ActiveState::NotActive
        }
    }

    /// A snapshot of what is active: the first marker that exists, the
    /// most important place first.
    pub fn new(located: Vec<Option<String>>) -> (data: LinuxActiveRuntimeData)
        ensures
            data.active_path() == if present(located@).len() > 0 {
                Some(present(located@)[0])
            } else {
                None
            },
    {
        let mut active = possible_active_runtimes(located);
        let ghost found = active@;
        if active.len() > 0 {
            let first = active.swap_remove(0);
            assert(first@ == texts(found)[0]);
            LinuxActiveRuntimeData(Some(first))
        } else {
            LinuxActiveRuntimeData(None)
        }
    }

    /// Is the given runtime the active one?
    pub fn check_runtime(&self, runtime: &LinuxRuntime) -> (state: ActiveState)
        ensures
            state == self.state_of(runtime@.manifest_path),
    {
        if let Some(active_path) = &self.0 {
            if *active_path == String::from_str(runtime.base.get_manifest_path()) {
                return ActiveState::ActiveIndependentRuntime;
            }
        }
        ActiveState::NotActive
    }
}

impl LinuxPlatform {
    /// The marker of the active runtime, relative to a configuration
    /// directory.
    pub fn active_runtime_file(&self) -> (path: String)
        ensures
            path@ == active_file(self.suffix()),
    {
        join_path(self.path_suffix.as_str(), ACTIVE_RUNTIME_FILENAME)
    }

    /// Where the marker of the active runtime may lie, the most
    /// important place first, given the places that the XDG search
    /// found, which come in increasing importance.
    pub fn active_runtime_locations(&self, xdg_found: Vec<String>) -> (places: Vec<String>)
        ensures
            texts(places@) == active_locations(texts(xdg_found@), self.suffix()),
    {
        let mut places: Vec<String> = Vec::new();
        let mut xdg_found = xdg_found;
        let ghost all = xdg_found@;
        while xdg_found.len() > 0
            invariant
                xdg_found@.len() <= all.len(),
                xdg_found@ == all.take(xdg_found@.len() as int),
                places@.len() == all.len() - xdg_found@.len(),
                forall|j: int|
                    0 <= j < places@.len() ==> places@[j]@ == all[all.len() - 1 - j]@,
            decreases xdg_found.len(),
        {
            let ghost before = xdg_found@;
            let last = xdg_found.pop().unwrap();
            assert(last == all[before.len() - 1]);
            places.push(last);
            assert(xdg_found@ =~= all.take(xdg_found@.len() as int));
        }
        let below_etc = make_sysconfdir(self.active_runtime_file().as_str());
        places.push(below_etc);
        assert(texts(places@) =~= active_locations(texts(all), self.suffix()));
        places
    }

    /// Get the paths of all active runtime manifests.
    pub fn get_active_runtime_manifests(&self, active_data: &LinuxActiveRuntimeData) -> (paths:
        Vec<String>)
        ensures
            texts(paths@) == match active_data.active_path() {
                Some(path) => seq![path],
                None => Seq::<Seq<char>>::empty(),
            },
    {
        let mut paths: Vec<String> = Vec::new();
        if let Some(path) = &active_data.0 {
            paths.push(path.clone());
            assert(texts(paths@) =~= seq![path@]);
        } else {
            assert(texts(paths@) =~= Seq::<Seq<char>>::empty());
        }
        paths
    }

    /// Get a snapshot of what the active runtime is, to use when
    /// checking whether a runtime is active.
    pub fn get_active_data(&self, located: Vec<Option<String>>) -> (data: LinuxActiveRuntimeData)
        ensures
            data.active_path() == if present(located@).len() > 0 {
                Some(present(located@)[0])
            } else {
                None
            },
    {
        LinuxActiveRuntimeData::new(located)
    }

    /// Is the given runtime marked as active?
    pub fn get_runtime_active_state(
        &self,
        runtime: &LinuxRuntime,
        active_data: &LinuxActiveRuntimeData,
    ) -> (state: ActiveState)
        ensures
            state == active_data.state_of(runtime@.manifest_path),
    {
        active_data.check_runtime(runtime)
    }
}

} // verus!
