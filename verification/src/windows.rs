//! Runtimes on Windows: manifests registered in the registry, for the
//! native (64-bit) and the narrow (32-bit) view, with the active one of
//! each view named by a registry value.

use vstd::prelude::*;
use vstd::string::*;
use crate::active_state::ActiveState;
use crate::arch_detect::RuntimeBitness;
use crate::error::{error_views, outcome_view, Error, ErrorView, ManifestError};
use crate::manifest::{description_of, RuntimeManifest, SUPPORTED_FILE_FORMAT_VERSION};
use crate::paths::{
    parent_dir,
    parent_of,
    same_dir,
    same_directory,
    PathSimplifier,
    PathStyle,
};
use crate::platform::{holds_path, texts, PlatformRuntime};
use crate::runtime::{resolved_library_of, BaseRuntime, BaseRuntimeView};
use crate::text::{decimal, decimal_text, join_text};
use crate::{OPENXR, OPENXR_MAJOR_VERSION};

verus! {

/// File name of the manifest of the mixed-reality runtime.
pub const WINMR_JSON_NAME: &'static str = "MixedRealityRuntime.json";

/// Name of the registry key that lists the available runtimes.
pub const AVAILABLE_RUNTIMES: &'static str = "AvailableRuntimes";

/// Name of the registry value that names the active runtime.
pub const ACTIVE_RUNTIME: &'static str = "ActiveRuntime";

/// Registry access flag: the 64-bit view.
pub const KEY_WOW64_64KEY: u32 = 0x0100;

/// Registry access flag: the 32-bit view.
pub const KEY_WOW64_32KEY: u32 = 0x0200;

/// Registry access right: query the values of a key.
pub const KEY_QUERY_VALUE: u32 = 0x0001;

/// Registry access rights: read a key.
pub const KEY_READ: u32 = 0x20019;

/// Registry access rights: write a key.
pub const KEY_WRITE: u32 = 0x20006;

/// The cause given where a runtime is to be made of no manifest.
pub const NO_MANIFEST_PATHS: &'static str = "Tried to add a runtime with no manifest paths!";

/// The process and the system it runs on, as far as the registry views
/// and system directories depend on them.
#[derive(Debug, Clone, Copy, PartialEq, Eq, Structural)]
pub struct WindowsHost {
    /// Whether the process is a 64-bit one.
    pub is_64_bit_process: bool,
    /// Whether the process is a 32-bit one on a 64-bit system.
    pub is_wow64: bool,
}

/// The well-known directories of the system, each if it is known.
#[derive(Debug, PartialEq, Eq)]
pub struct SpecialFolders {
    /// The system directory as the process sees it.
    pub system: Option<String>,
    /// The system directory of 32-bit programs on a 64-bit system.
    pub system_x86: Option<String>,
    /// The directory of installed programs.
    pub program_files: Option<String>,
}

/// `dir` followed by a backslash and `name`.
pub open spec fn joined(dir: Seq<char>, name: Seq<char>) -> Seq<char> {
    dir + seq!['\\'] + name
}

/// The registry key, below the root of the local machine, that holds
/// the settings: `Software\Khronos\openxr\` and the major version.
pub open spec fn prefix_key() -> Seq<char> {
    joined(joined(joined("Software"@, "Khronos"@), OPENXR@), decimal(OPENXR_MAJOR_VERSION as nat))
}

/// The access flag of the native view: the 64-bit view, which a 32-bit
/// process reaches only on a 64-bit system.
pub open spec fn native_flags(host: WindowsHost) -> Option<u32> {
    if host.is_64_bit_process || host.is_wow64 {
        Some(KEY_WOW64_64KEY)
    } else {
        None
    }
}

/// The access flag of the narrow view: the 32-bit view.
pub open spec fn narrow_flags(host: WindowsHost) -> Option<u32> {
    Some(KEY_WOW64_32KEY)
}

/// The system directory of the native width: the system directory for
/// a 64-bit process; `sysnative` beside the system directory for a
/// 32-bit process on a 64-bit system; else none.
pub open spec fn native_system_dir(host: WindowsHost, system: Option<Seq<char>>) -> Option<
    Seq<char>,
> {
    match system {
        None => None,
        Some(dir) => if host.is_64_bit_process {
            Some(dir)
        } else if host.is_wow64 {
            match parent_of(PathStyle::Windows, dir) {
                Some(parent) => Some(joined(parent, "sysnative"@)),
                None => None,
            }
        } else {
            None
        },
    }
}

/// The system directory of the narrow width: that of 32-bit programs for
/// a 64-bit process, the system directory itself for a 32-bit one.
pub open spec fn narrow_system_dir(
    host: WindowsHost,
    system: Option<Seq<char>>,
    system_x86: Option<Seq<char>>,
) -> Option<Seq<char>> {
    if host.is_64_bit_process {
        system_x86
    } else {
        system
    }
}

/// The text of an optional string.
pub open spec fn text_of(s: Option<String>) -> Option<Seq<char>> {
    match s {
        Some(s) => Some(s@),
        None => None,
    }
}

/// `dir` followed by a backslash and `name`.
pub fn join_path(dir: &str, name: &str) -> (path: String)
    ensures
        path@ == joined(dir@, name@),
{
    proof {
        reveal_strlit("\\");
    }
    let mut path = join_text(dir, "\\");
    assert("\\"@ =~= seq!['\\']);
    path.append(name);
    path
}

/// The registry key that holds the settings.
pub fn make_prefix_key() -> (key: String)
    ensures
        key@ == prefix_key(),
{
    let software = join_path("Software", "Khronos");
    let openxr = join_path(software.as_str(), OPENXR);
    join_path(openxr.as_str(), decimal_text(OPENXR_MAJOR_VERSION as u64).as_str())
}

/// The registry key that lists the available runtimes.
pub fn make_available_runtimes_key() -> (key: String)
    ensures
        key@ == joined(prefix_key(), AVAILABLE_RUNTIMES@),
{
    join_path(make_prefix_key().as_str(), AVAILABLE_RUNTIMES)
}

/// The access flag of the native view, if the process reaches it.
pub fn make_prefix_key_flags_64(host: &WindowsHost) -> (flags: Option<u32>)
    ensures
        flags == native_flags(*host),
{
    if host.is_64_bit_process || host.is_wow64 {
        Some(KEY_WOW64_64KEY)
    } else {
        None
    }
}

/// The access flag of the narrow view.
pub fn make_prefix_key_flags_32(host: &WindowsHost) -> (flags: Option<u32>)
    ensures
        flags == narrow_flags(*host),
{
    Some(KEY_WOW64_32KEY)
}

/// The access with which a key of the view `flags` is opened to be
/// read.
pub fn read_access(flags: u32) -> (access: u32)
    ensures
        access == flags | KEY_READ | KEY_QUERY_VALUE,
{
    flags | KEY_READ | KEY_QUERY_VALUE
}

/// The access with which a key of the view `flags` is opened to be
/// written.
pub fn write_access(flags: u32) -> (access: u32)
    ensures
        access == flags | KEY_WRITE | KEY_READ | KEY_QUERY_VALUE,
{
    flags | KEY_WRITE | KEY_READ | KEY_QUERY_VALUE
}

/// The system directory of the native width, if there is one.
pub fn system_dir_64(host: &WindowsHost, folders: &SpecialFolders) -> (dir: Option<String>)
    ensures
        text_of(dir) == native_system_dir(*host, text_of(folders.system)),
{
    match &folders.system {
        None => None,
        Some(system) => if host.is_64_bit_process {
            Some(system.clone())
        } else if host.is_wow64 {
            match parent_dir(PathStyle::Windows, system.as_str()) {
                Some(parent) => Some(join_path(parent.as_str(), "sysnative")),
                None => None,
            }
        } else {
            None
        },
    }
}

/// The system directory of the narrow width, if there is one.
pub fn system_dir_32(host: &WindowsHost, folders: &SpecialFolders) -> (dir: Option<String>)
    ensures
        text_of(dir) == narrow_system_dir(
            *host,
            text_of(folders.system),
            text_of(folders.system_x86),
        ),
{
    if host.is_64_bit_process {
        crate::manifest::clone_text(&folders.system_x86)
    } else {
        crate::manifest::clone_text(&folders.system)
    }
}

/// Where the manifests of the mixed-reality runtime would lie: in the
/// system directory of each width.
pub fn winmr_manifest_paths(host: &WindowsHost, folders: &SpecialFolders) -> (paths: (
    Option<String>,
    Option<String>,
))
    ensures
        text_of(paths.0) == match native_system_dir(*host, text_of(folders.system)) {
            Some(dir) => Some(joined(dir, WINMR_JSON_NAME@)),
            None => None,
        },
        text_of(paths.1) == match narrow_system_dir(
            *host,
            text_of(folders.system),
            text_of(folders.system_x86),
        ) {
            Some(dir) => Some(joined(dir, WINMR_JSON_NAME@)),
            None => None,
        },
{
    let native = match system_dir_64(host, folders) {
        Some(dir) => Some(join_path(dir.as_str(), WINMR_JSON_NAME)),
        None => None,
    };
    let narrow = match system_dir_32(host, folders) {
        Some(dir) => Some(join_path(dir.as_str(), WINMR_JSON_NAME)),
        None => None,
    };
    (native, narrow)
}

/// Where the manifest of the Varjo runtime would lie, which is looked
/// for by 64-bit processes only.
pub open spec fn varjo_path(host: WindowsHost, program_files: Option<Seq<char>>) -> Option<
    Seq<char>,
> {
    match program_files {
        Some(dir) => if host.is_64_bit_process {
            Some(joined(joined(joined(dir, "Varjo"@), "varjo-openxr"@), "VarjoOpenXR.json"@))
        } else {
            None
        },
        None => None,
    }
}

/// Where the manifest of the Varjo runtime would lie.
pub fn varjo_manifest_path(host: &WindowsHost, folders: &SpecialFolders) -> (path: Option<String>)
    ensures
        text_of(path) == varjo_path(*host, text_of(folders.program_files)),
{
    if !host.is_64_bit_process {
        return None;
    }
    match &folders.program_files {
        Some(dir) => {
            let varjo = join_path(dir.as_str(), "Varjo");
            let openxr = join_path(varjo.as_str(), "varjo-openxr");
            Some(join_path(openxr.as_str(), "VarjoOpenXR.json"))
        },
        None => None,
    }
}


/// A manifest that discovery came upon: its path as it is registered,
/// its canonical path if the file system gave one, and the outcome of
/// reading and decoding the file.
#[derive(Debug, PartialEq, Eq)]
pub struct WindowsCandidate {
    pub path: String,
    pub canonical_path: Option<String>,
    pub loaded: Result<RuntimeManifest, Error>,
}

/// The file that a candidate names: its canonical path, or its path as
/// registered where it has no canonical path.
pub open spec fn file_of(candidate: WindowsCandidate) -> Seq<char> {
    match candidate.canonical_path {
        Some(canonical) => canonical@,
        None => candidate.path@,
    }
}

/// The paths that the runtime of a candidate claims: its path as
/// registered, and the file it names where that is another text.
pub open spec fn claims_of(candidate: Option<WindowsCandidate>) -> Seq<Seq<char>> {
    match candidate {
        Some(c) => if file_of(c) != c.path@ {
            seq![c.path@, file_of(c)]
        } else {
            seq![c.path@]
        },
        None => Seq::empty(),
    }
}

/// One logical runtime on Windows: the manifest registered for the
/// native width, the one for the narrow width, or both.
#[derive(Debug, PartialEq, Eq)]
pub struct WindowsRuntime {
    native: Option<BaseRuntime>,
    narrow: Option<BaseRuntime>,
}

/// What a `WindowsRuntime` holds.
pub struct WindowsRuntimeView {
    /// The manifest of the native width, if the runtime has one.
    pub native: Option<BaseRuntimeView>,
    /// The manifest of the narrow width, if the runtime has one.
    pub narrow: Option<BaseRuntimeView>,
}

impl View for WindowsRuntime {
    type V = WindowsRuntimeView;

    closed spec fn view(&self) -> WindowsRuntimeView {
        WindowsRuntimeView {
            native: match self.native {
                Some(base) => Some(base@),
                None => None,
            },
            narrow: match self.narrow {
                Some(base) => Some(base@),
                None => None,
            },
        }
    }
}

/// The outcome of loading a candidate, as plain values.
pub open spec fn load_of(candidate: WindowsCandidate) -> Result<BaseRuntimeView, ErrorView> {
    match candidate.loaded {
        Err(e) => Err(e@),
        Ok(manifest) => if manifest.file_format_version@ == SUPPORTED_FILE_FORMAT_VERSION@ {
            Ok(BaseRuntimeView { manifest_path: candidate.path@, manifest })
        } else {
            Err(ErrorView::ManifestVersionMismatch)
        },
    }
}

/// The runtime made of the candidates of the two widths: the first
/// failure to load, the native one first, where one fails; no runtime
/// where there is no candidate at all.
pub open spec fn runtime_of(native: Option<WindowsCandidate>, narrow: Option<WindowsCandidate>) -> Result<
    WindowsRuntimeView,
    ErrorView,
> {
    match (native, narrow) {
        (None, None) => Err(ErrorView::EnumerationError(NO_MANIFEST_PATHS@)),
        (Some(a), None) => match load_of(a) {
            Ok(base) => Ok(WindowsRuntimeView { native: Some(base), narrow: None }),
            Err(e) => Err(e),
        },
        (None, Some(b)) => match load_of(b) {
            Ok(base) => Ok(WindowsRuntimeView { native: None, narrow: Some(base) }),
            Err(e) => Err(e),
        },
        (Some(a), Some(b)) => match (load_of(a), load_of(b)) {
            (Ok(first), Ok(second)) => Ok(
                WindowsRuntimeView { native: Some(first), narrow: Some(second) },
            ),
            (Err(e), _) => Err(e),
            (_, Err(e)) => Err(e),
        },
    }
}

/// A result of making a runtime, as plain values.
pub open spec fn made_view(made: Result<WindowsRuntime, Error>) -> Result<
    WindowsRuntimeView,
    ErrorView,
> {
    match made {
        Ok(runtime) => Ok(runtime@),
        Err(e) => Err(e@),
    }
}

/// What a reference to a candidate refers to.
pub open spec fn deref_of(candidate: Option<&WindowsCandidate>) -> Option<WindowsCandidate> {
    match candidate {
        Some(c) => Some(*c),
        None => None,
    }
}

/// Load one candidate.
fn load(candidate: &WindowsCandidate) -> (made: Result<BaseRuntime, Error>)
    ensures
        match made {
            Ok(base) => load_of(*candidate) == Ok::<BaseRuntimeView, ErrorView>(base@),
            Err(e) => load_of(*candidate) == Err::<BaseRuntimeView, ErrorView>(e@),
        },
{
    let loaded = match &candidate.loaded {
        Ok(manifest) => Ok(manifest.clone()),
        Err(e) => Err(e.clone()),
    };
    BaseRuntime::new(candidate.path.as_str(), loaded)
}

/// A registry value to set: the key, the access with which it is
/// opened, the name of the value, and the text to store.
#[derive(Debug, PartialEq, Eq)]
pub struct RegistryWrite {
    pub key: String,
    pub access: u32,
    pub value_name: String,
    pub data: String,
}

/// A registry write, as plain values.
pub struct RegistryWriteView {
    pub key: Seq<char>,
    pub access: u32,
    pub value_name: Seq<char>,
    pub data: Seq<char>,
}

impl View for RegistryWrite {
    type V = RegistryWriteView;

    open spec fn view(&self) -> RegistryWriteView {
        RegistryWriteView {
            key: self.key@,
            access: self.access,
            value_name: self.value_name@,
            data: self.data@,
        }
    }
}

/// The views of a list of registry writes.
pub open spec fn write_views(writes: Seq<RegistryWrite>) -> Seq<RegistryWriteView> {
    writes.map_values(|w: RegistryWrite| w@)
}

/// The write that makes the manifest at `manifest_path` the active one
/// of the view `flags`.
pub open spec fn activation_write(flags: u32, manifest_path: Seq<char>) -> RegistryWriteView {
    RegistryWriteView {
        key: prefix_key(),
        access: flags | KEY_WRITE | KEY_READ | KEY_QUERY_VALUE,
        value_name: ACTIVE_RUNTIME@,
        data: manifest_path,
    }
}

/// The write for one width, if the runtime has a manifest of that width
/// and the process reaches the view.
pub open spec fn width_writes(runtime: Option<BaseRuntimeView>, flags: Option<u32>) -> Seq<
    RegistryWriteView,
> {
    match (runtime, flags) {
        (Some(base), Some(flags)) => seq![activation_write(flags, base.manifest_path)],
        _ => Seq::empty(),
    }
}

impl WindowsRuntimeView {
    /// The manifests of the runtime, the native one first.
    pub open spec fn bases(self) -> Seq<BaseRuntimeView> {
        match (self.native, self.narrow) {
            (Some(a), Some(b)) => seq![a, b],
            (Some(a), None) => seq![a],
            (None, Some(b)) => seq![b],
            (None, None) => Seq::empty(),
        }
    }

    /// The manifest paths of the runtime, the native one first.
    pub open spec fn paths(self) -> Seq<Seq<char>> {
        self.bases().map_values(|base: BaseRuntimeView| base.manifest_path)
    }

    /// The name of the runtime: that of its first manifest.
    pub open spec fn name(self) -> Seq<char> {
        match (self.native, self.narrow) {
            (Some(a), _) => a.name(),
            (None, Some(b)) => b.name(),
            (None, None) => Seq::empty(),
        }
    }

    /// The descriptions of the manifests, one to a line.
    pub open spec fn description(self, simplifier: PathSimplifier) -> Seq<char> {
        let of = |base: BaseRuntimeView|
            description_of(simplifier, base.manifest_path, base.library_path());
        match (self.native, self.narrow) {
            (Some(a), Some(b)) => of(a) + seq!['\n'] + of(b),
            (Some(a), None) => of(a),
            (None, Some(b)) => of(b),
            (None, None) => Seq::empty(),
        }
    }

    /// The registry writes that make this runtime the active one: one
    /// for each width it has a manifest for, the native one first. A
    /// width that the runtime does not provide is left untouched.
    pub open spec fn activation(self, host: WindowsHost) -> Seq<RegistryWriteView> {
        width_writes(self.native, native_flags(host)) + width_writes(
            self.narrow,
            narrow_flags(host),
        )
    }
}

impl Clone for WindowsRuntime {
    fn clone(&self) -> (copy: Self)
        ensures
            copy@ == self@,
    {
        proof {
            use_type_invariant(self);
        }
        WindowsRuntime {
            native: match &self.native {
                Some(base) => Some(base.clone()),
                None => None,
            },
            narrow: match &self.narrow {
                Some(base) => Some(base.clone()),
                None => None,
            },
        }
    }
}

impl WindowsRuntime {
    #[verifier::type_invariant]
    spec fn has_manifest(self) -> bool {
        self.native is Some || self.narrow is Some
    }

    /// Create from the candidates of the two widths.
    pub fn new(native: Option<&WindowsCandidate>, narrow: Option<&WindowsCandidate>) -> (made:
        Result<WindowsRuntime, Error>)
        ensures
            made_view(made) == runtime_of(deref_of(native), deref_of(narrow)),
    {
        if native.is_none() && narrow.is_none() {
            return Err(Error::EnumerationError(String::from_str(NO_MANIFEST_PATHS)));
        }
        let first = match native {
            Some(candidate) => match load(candidate) {
                Ok(base) => Some(base),
                Err(e) => {
                    return Err(e);
                },
            },
            None => None,
        };
        let second = match narrow {
            Some(candidate) => match load(candidate) {
                Ok(base) => Some(base),
                Err(e) => {
                    return Err(e);
                },
            },
            None => None,
        };
        Ok(WindowsRuntime { native: first, narrow: second })
    }

    /// The manifests of this runtime, the native one first.
    pub fn runtimes(&self) -> (bases: Vec<&BaseRuntime>)
        ensures
            bases@.len() == self@.bases().len(),
            forall|i: int| 0 <= i < bases@.len() ==> (#[trigger] bases@[i])@ == self@.bases()[i],
            bases@.len() >= 1,
    {
        proof {
            use_type_invariant(self);
        }
        let mut bases: Vec<&BaseRuntime> = Vec::new();
        if let Some(base) = &self.native {
            bases.push(base);
        }
        if let Some(base) = &self.narrow {
            bases.push(base);
        }
        bases
    }

    /// The registry writes that make this runtime the active one, to be
    /// performed in order; the first that fails ends the activation.
    pub fn make_active(&self, host: &WindowsHost) -> (writes: Vec<RegistryWrite>)
        ensures
            write_views(writes@) == self@.activation(*host),
    {
        let mut writes: Vec<RegistryWrite> = Vec::new();
        if let (Some(base), Some(flags)) = (&self.native, make_prefix_key_flags_64(host)) {
            writes.push(
                RegistryWrite {
                    key: make_prefix_key(),
                    access: write_access(flags),
                    value_name: String::from_str(ACTIVE_RUNTIME),
                    data: String::from_str(base.get_manifest_path()),
                },
            );
        }
        assert(write_views(writes@) =~= width_writes(self@.native, native_flags(*host)));
        let ghost first = writes@;
        if let (Some(base), Some(flags)) = (&self.narrow, make_prefix_key_flags_32(host)) {
            writes.push(
                RegistryWrite {
                    key: make_prefix_key(),
                    access: write_access(flags),
                    value_name: String::from_str(ACTIVE_RUNTIME),
                    data: String::from_str(base.get_manifest_path()),
                },
            );
        }
        assert(write_views(writes@) =~= write_views(first) + width_writes(
            self@.narrow,
            narrow_flags(*host),
        ));
        writes
    }

    /// The resolved libraries of this runtime, the native one first,
    /// given for each width the canonical form of its library location,
    /// if the file system has one.
    pub fn get_libraries(&self, native_canonical: Option<String>, narrow_canonical: Option<String>) -> (libraries:
        Vec<String>)
        ensures
            libraries@.len() == self@.bases().len(),
            self@.native matches Some(base) ==> libraries@[0]@ == resolved_library_of(
                PathStyle::Windows,
                base.manifest_path,
                base.library_path(),
                text_of(native_canonical),
            ),
            self@.narrow matches Some(base) ==> libraries@[libraries@.len() - 1]@
                == resolved_library_of(
                PathStyle::Windows,
                base.manifest_path,
                base.library_path(),
                text_of(narrow_canonical),
            ),
    {
        let mut libraries: Vec<String> = Vec::new();
        if let Some(base) = &self.native {
            libraries.push(base.resolve_library_path(PathStyle::Windows, native_canonical));
        }
        if let Some(base) = &self.narrow {
            libraries.push(base.resolve_library_path(PathStyle::Windows, narrow_canonical));
        }
        libraries
    }
}

impl PlatformRuntime for WindowsRuntime {
    open spec fn manifest_paths(&self) -> Seq<Seq<char>> {
        self@.paths()
    }

    open spec fn runtime_name(&self) -> Seq<char> {
        self@.name()
    }

    open spec fn description(&self, simplifier: PathSimplifier) -> Seq<char> {
        self@.description(simplifier)
    }

    fn get_runtime_name(&self) -> (name: String) {
        proof {
            use_type_invariant(self);
        }
        match (&self.native, &self.narrow) {
            (Some(base), _) => base.get_runtime_name(),
            (None, Some(base)) => base.get_runtime_name(),
            (None, None) => String::new(),
        }
    }

    fn get_manifests(&self) -> (paths: Vec<String>) {
        let mut paths: Vec<String> = Vec::new();
        if let Some(base) = &self.native {
            paths.push(String::from_str(base.get_manifest_path()));
        }
        if let Some(base) = &self.narrow {
            paths.push(String::from_str(base.get_manifest_path()));
        }
        assert(texts(paths@) =~= self@.paths());
        paths
    }

    fn describe(&self, simplifier: &PathSimplifier) -> (text: String) {
        match (&self.native, &self.narrow) {
            (Some(a), Some(b)) => {
                proof {
                    reveal_strlit("\n");
                }
                let mut text = a.describe_manifest(simplifier);
                text.append("\n");
                assert("\n"@ =~= seq!['\n']);
                text.append(b.describe_manifest(simplifier).as_str());
                text
            },
            (Some(a), None) => a.describe_manifest(simplifier),
            (None, Some(b)) => b.describe_manifest(simplifier),
            (None, None) => String::new(),
        }
    }
}


/// The runtimes gathered so far, and what they claim.
pub struct Collection {
    /// The runtimes, in the order in which they were added.
    pub runtimes: Seq<WindowsRuntimeView>,
    /// The manifest paths of the runtimes, and the files they name.
    pub used: Seq<Seq<char>>,
}

/// Is the candidate, if there is one, claimed: by its path as
/// registered, or by the file it names?
pub open spec fn is_claimed(used: Seq<Seq<char>>, candidate: Option<WindowsCandidate>) -> bool {
    candidate matches Some(c) && (used.contains(c.path@) || used.contains(file_of(c)))
}

/// The collection after an attempt to add the runtime of exactly the
/// given candidates, and the outcome of the attempt. Where one of them
/// is claimed, nothing changes and nothing fails. Where no runtime can
/// be made of them, nothing changes and the attempt fails. Else the
/// runtime is added and claims their paths and files.
pub open spec fn added(
    collection: Collection,
    native: Option<WindowsCandidate>,
    narrow: Option<WindowsCandidate>,
) -> (Collection, Result<(), ErrorView>) {
    if is_claimed(collection.used, native) || is_claimed(collection.used, narrow) {
        (collection, Ok(()))
    } else {
        match runtime_of(native, narrow) {
            Err(e) => (collection, Err(e)),
            Ok(runtime) => (
                Collection {
                    runtimes: collection.runtimes.push(runtime),
                    used: collection.used + claims_of(native) + claims_of(narrow),
                },
                Ok(()),
            ),
        }
    }
}

/// Little helper for accumulating runtimes and coalescing their
/// different widths: each manifest path belongs to one runtime at most.
#[derive(Debug)]
pub struct RuntimeCollection {
    runtimes: Vec<WindowsRuntime>,
    used_manifests: Vec<String>,
}

/// The views of a list of runtimes.
pub open spec fn views(runtimes: Seq<WindowsRuntime>) -> Seq<WindowsRuntimeView> {
    runtimes.map_values(|r: WindowsRuntime| r@)
}

impl View for RuntimeCollection {
    type V = Collection;

    closed spec fn view(&self) -> Collection {
        Collection { runtimes: views(self.runtimes@), used: texts(self.used_manifests@) }
    }
}

/// The outcome of an attempt, with the path under which a failure is
/// collected.
pub open spec fn under(path: Seq<char>, outcome: Result<(), ErrorView>) -> Result<
    (),
    (Seq<char>, ErrorView),
> {
    match outcome {
        Ok(_) => Ok(()),
        Err(e) => Err((path, e)),
    }
}

/// An outcome with the path of a failure, as plain values.
pub open spec fn collected_view(outcome: Result<(), ManifestError>) -> Result<
    (),
    (Seq<char>, ErrorView),
> {
    match outcome {
        Ok(_) => Ok(()),
        Err(e) => Err(e@),
    }
}

/// The collection after the attempt to add the Varjo runtime, which is
/// made by 64-bit processes where its manifest exists.
pub open spec fn added_varjo(
    collection: Collection,
    host: WindowsHost,
    varjo: Option<WindowsCandidate>,
) -> (Collection, Result<(), (Seq<char>, ErrorView)>) {
    match varjo {
        Some(candidate) => if host.is_64_bit_process {
            let (next, outcome) = added(collection, Some(candidate), None);
            (next, under(candidate.path@, outcome))
        } else {
            (collection, Ok(()))
        },
        None => (collection, Ok(())),
    }
}

/// The narrow manifest that a native manifest is paired with in this
/// collection: the counterpart, where there is one that is not claimed
/// and loads. With any other counterpart the native manifest stands
/// alone.
pub open spec fn partner_in(collection: Collection, counterpart: Option<WindowsCandidate>) -> Option<
    WindowsCandidate,
> {
    match counterpart {
        Some(c) => if !is_claimed(collection.used, Some(c)) && load_of(c) is Ok {
            Some(c)
        } else {
            None
        },
        None => None,
    }
}

/// The collection after the attempt to add the runtime of a native
/// manifest, with its counterpart where that can be paired.
pub open spec fn added_native(
    collection: Collection,
    native: WindowsCandidate,
    counterpart: Option<WindowsCandidate>,
) -> (Collection, Result<(), (Seq<char>, ErrorView)>) {
    let (next, outcome) = added(collection, Some(native), partner_in(collection, counterpart));
    (next, under(native.path@, outcome))
}

/// The collection after the attempt to add the runtime of a narrow
/// manifest on its own.
pub open spec fn added_narrow(collection: Collection, narrow: WindowsCandidate) -> (
    Collection,
    Result<(), (Seq<char>, ErrorView)>,
) {
    let (next, outcome) = added(collection, None, Some(narrow));
    (next, under(narrow.path@, outcome))
}

/// The failures of a list of attempts, in order.
pub open spec fn failures(
    first: Result<(), (Seq<char>, ErrorView)>,
    second: Result<(), (Seq<char>, ErrorView)>,
) -> Seq<(Seq<char>, ErrorView)> {
    let of = |outcome: Result<(), (Seq<char>, ErrorView)>|
        match outcome {
            Ok(_) => Seq::<(Seq<char>, ErrorView)>::empty(),
            Err(e) => seq![e],
        };
    of(first) + of(second)
}

/// The collection after the attempt to add the mixed-reality runtime,
/// of the manifests that exist: the native one with the narrow one
/// where that can be paired, then the narrow one on its own, which
/// changes nothing where it was paired. Each failure is collected under
/// the path of the manifest that failed.
pub open spec fn added_winmr(
    collection: Collection,
    native: Option<WindowsCandidate>,
    narrow: Option<WindowsCandidate>,
) -> (Collection, Seq<(Seq<char>, ErrorView)>) {
    let first = match native {
        Some(a) => added_native(collection, a, narrow),
        None => (collection, Ok(())),
    };
    let second = match narrow {
        Some(b) => added_narrow(first.0, b),
        None => (first.0, Ok(())),
    };
    (second.0, failures(first.1, second.1))
}

/// Can a runtime be made of the candidate?
fn loads(candidate: &WindowsCandidate) -> (ok: bool)
    ensures
        ok == (load_of(*candidate) is Ok),
{
    match &candidate.loaded {
        Ok(manifest) => manifest.is_file_format_version_ok(),
        Err(_) => false,
    }
}

/// Do `paths` hold the path of the candidate, or the file it names?
fn holds_candidate(paths: &Vec<String>, candidate: &WindowsCandidate) -> (claimed: bool)
    ensures
        claimed == is_claimed(texts(paths@), Some(*candidate)),
{
    if holds_path(paths, &candidate.path) {
        return true;
    }
    match &candidate.canonical_path {
        Some(canonical) => holds_path(paths, canonical),
        None => false,
    }
}

/// Add to `paths` what the runtime of the candidate claims.
fn claim(paths: &mut Vec<String>, candidate: Option<&WindowsCandidate>)
    ensures
        texts(final(paths)@) == texts(old(paths)@) + claims_of(deref_of(candidate)),
{
    if let Some(c) = candidate {
        paths.push(c.path.clone());
        if let Some(canonical) = &c.canonical_path {
            if *canonical != c.path {
                paths.push(canonical.clone());
            }
        }
    }
    assert(texts(paths@) =~= texts(old(paths)@) + claims_of(deref_of(candidate)));
}

impl RuntimeCollection {
    /// A collection without any runtime.
    pub fn new() -> (collection: RuntimeCollection)
        ensures
            collection@ == (Collection { runtimes: Seq::empty(), used: Seq::empty() }),
    {
        let collection = RuntimeCollection { runtimes: Vec::new(), used_manifests: Vec::new() };
        assert(views(collection.runtimes@) =~= Seq::empty());
        assert(texts(collection.used_manifests@) =~= Seq::empty());
        collection
    }

    /// Is `path` claimed by a runtime in the collection, as the path of
    /// one of its manifests or as the file that one names?
    pub fn claims(&self, path: &String) -> (claimed: bool)
        ensures
            claimed == self@.used.contains(path@),
    {
        holds_path(&self.used_manifests, path)
    }

    /// Try to add the runtime of exactly the given candidates.
    pub fn try_add(&mut self, native: Option<&WindowsCandidate>, narrow: Option<&WindowsCandidate>) -> (outcome:
        Result<(), Error>)
        ensures
            (final(self)@, outcome_view(outcome)) == added(
                old(self)@,
                deref_of(native),
                deref_of(narrow),
            ),
    {
        if let Some(candidate) = native {
            if holds_candidate(&self.used_manifests, candidate) {
                return Ok(());
            }
        }
        if let Some(candidate) = narrow {
            if holds_candidate(&self.used_manifests, candidate) {
                return Ok(());
            }
        }
        let runtime = match WindowsRuntime::new(native, narrow) {
            Ok(runtime) => runtime,
            Err(e) => {
                return Err(e);
            },
        };
        let ghost made = runtime@;
        self.runtimes.push(runtime);
        assert(views(self.runtimes@) =~= views(old(self).runtimes@).push(made));
        claim(&mut self.used_manifests, native);
        claim(&mut self.used_manifests, narrow);
        Ok(())
    }

    /// Try to add the runtime of a native manifest, paired with its
    /// counterpart where that is not claimed and loads, and alone
    /// otherwise. A failure is that of the native manifest.
    pub fn try_add_native(&mut self, native: &WindowsCandidate, counterpart: Option<&WindowsCandidate>) -> (outcome:
        Result<(), ManifestError>)
        ensures
            (final(self)@, collected_view(outcome)) == added_native(
                old(self)@,
                *native,
                deref_of(counterpart),
            ),
    {
        let partner = match counterpart {
            Some(c) => if !holds_candidate(&self.used_manifests, c) && loads(c) {
                Some(c)
            } else {
                None
            },
            None => None,
        };
        match self.try_add(Some(native), partner) {
            Ok(_) => Ok(()),
            Err(e) => Err(ManifestError(native.path.clone(), e)),
        }
    }

    /// Try to add the runtime of a narrow manifest on its own.
    pub fn try_add_narrow(&mut self, narrow: &WindowsCandidate) -> (outcome: Result<
        (),
        ManifestError,
    >)
        ensures
            (final(self)@, collected_view(outcome)) == added_narrow(old(self)@, *narrow),
    {
        match self.try_add(None, Some(narrow)) {
            Ok(_) => Ok(()),
            Err(e) => Err(ManifestError(narrow.path.clone(), e)),
        }
    }

    /// Try to add the Varjo runtime, whose manifest is handed in where
    /// it exists.
    pub fn try_add_varjo(&mut self, host: &WindowsHost, varjo: Option<&WindowsCandidate>) -> (outcome:
        Result<(), ManifestError>)
        ensures
            (final(self)@, collected_view(outcome)) == added_varjo(
                old(self)@,
                *host,
                deref_of(varjo),
            ),
    {
        if !host.is_64_bit_process {
            return Ok(());
        }
        match varjo {
            Some(candidate) => match self.try_add(Some(candidate), None) {
                Ok(_) => Ok(()),
                Err(e) => Err(ManifestError(candidate.path.clone(), e)),
            },
            None => Ok(()),
        }
    }

    /// Try to add the mixed-reality runtime, whose manifests are handed
    /// in where they exist. Returns the failures, each under the path
    /// of the manifest that failed.
    pub fn try_add_winmr(&mut self, native: Option<&WindowsCandidate>, narrow: Option<&WindowsCandidate>) -> (failed:
        Vec<ManifestError>)
        ensures
            (final(self)@, error_views(failed@)) == added_winmr(
                old(self)@,
                deref_of(native),
                deref_of(narrow),
            ),
    {
        let mut failed: Vec<ManifestError> = Vec::new();
        assert(error_views(failed@) =~= Seq::empty());
        if let Some(a) = native {
            let outcome = self.try_add_native(a, narrow);
            note(&mut failed, outcome);
        }
        if let Some(b) = narrow {
            let outcome = self.try_add_narrow(b);
            note(&mut failed, outcome);
        }
        assert(error_views(failed@) =~= added_winmr(
            old(self)@,
            deref_of(native),
            deref_of(narrow),
        ).1);
        failed
    }

    /// The runtimes of the collection.
    pub fn into_runtimes(self) -> (runtimes: Vec<WindowsRuntime>)
        ensures
            views(runtimes@) == self@.runtimes,
    {
        self.runtimes
    }
}


/// A value of the registry key that lists the available runtimes: its
/// name, which is a manifest path, and its number where it holds one.
#[derive(Debug, Clone, PartialEq, Eq)]
pub struct RegistryValue {
    pub name: String,
    pub dword: Option<u32>,
}

/// The manifest paths among the registry values: the names of the
/// values that hold the number zero.
pub open spec fn enabled_paths(values: Seq<RegistryValue>) -> Seq<Seq<char>>
    decreases values.len(),
{
    if values.len() == 0 {
        Seq::empty()
    } else if values.last().dword == Some(0u32) {
        enabled_paths(values.drop_last()).push(values.last().name@)
    } else {
        enabled_paths(values.drop_last())
    }
}

/// The manifest path that a registry value names, if the value marks it
/// as available.
pub fn maybe_runtime(value: RegistryValue) -> (path: Option<String>)
    ensures
        path == if value.dword == Some(0u32) {
            Some(value.name)
        } else {
            None
        },
{
    match value.dword {
        Some(0) => Some(value.name),
        _ => None,
    }
}

/// The manifest paths that the values of one view's key of available
/// runtimes name.
pub fn enumerate_reg_runtimes(values: Vec<RegistryValue>) -> (paths: Vec<String>)
    ensures
        texts(paths@) == enabled_paths(values@),
{
    let mut paths: Vec<String> = Vec::new();
    let ghost all = values@;
    assert(texts(paths@) =~= Seq::<Seq<char>>::empty());
    for value in it: values.into_iter()
        invariant
            it.seq() == all,
            texts(paths@) == enabled_paths(all.take(it.index() as int)),
    {
        proof {
            let next = all.take(it.index() + 1);
            assert(next.drop_last() =~= all.take(it.index() as int));
            assert(next.last() == value);
        }
        if let Some(path) = maybe_runtime(value) {
            let ghost before = paths@;
            paths.push(path);
            assert(texts(paths@) =~= texts(before).push(path@));
        }
    }
    assert(all.take(all.len() as int) =~= all);
    paths
}

/// An extra manifest, with the width of the library it names as far as
/// it could be told.
#[derive(Debug, PartialEq, Eq)]
pub struct ExtraManifest {
    pub candidate: WindowsCandidate,
    pub bitness: Result<RuntimeBitness, ManifestError>,
}

/// What discovery came upon: the manifests registered for each view,
/// the manifests of the runtimes that are probed for where they exist,
/// and the extra manifests.
#[derive(Debug, PartialEq, Eq)]
pub struct WindowsDiscovery {
    /// The manifests registered for the native view, in order.
    pub native: Vec<WindowsCandidate>,
    /// The manifests registered for the narrow view, in order.
    pub narrow: Vec<WindowsCandidate>,
    /// The manifest of the Varjo runtime, where it exists.
    pub varjo: Option<WindowsCandidate>,
    /// The mixed-reality manifest of the native width, where it exists.
    pub winmr_native: Option<WindowsCandidate>,
    /// The mixed-reality manifest of the narrow width, where it exists.
    pub winmr_narrow: Option<WindowsCandidate>,
    /// The extra manifests, in order.
    pub extra: Vec<ExtraManifest>,
}

/// What an enumeration has gathered so far.
pub struct Enumeration {
    pub collection: Collection,
    /// The manifests that could not be used, each with its failure.
    pub errors: Seq<(Seq<char>, ErrorView)>,
}

/// The enumeration after an attempt with the given outcome.
pub open spec fn noted(
    errors: Seq<(Seq<char>, ErrorView)>,
    attempt: (Collection, Result<(), (Seq<char>, ErrorView)>),
) -> Enumeration {
    Enumeration {
        collection: attempt.0,
        errors: match attempt.1 {
            Ok(_) => errors,
            Err(e) => errors.push(e),
        },
    }
}

/// The narrow manifest that lies in the directory `dir`, whichever
/// separators spell it: of several, the one registered last.
pub open spec fn counterpart_in(narrow: Seq<WindowsCandidate>, dir: Seq<char>) -> Option<
    WindowsCandidate,
>
    decreases narrow.len(),
{
    if narrow.len() == 0 {
        None
    } else if parent_of(PathStyle::Windows, narrow.last().path@) matches Some(parent) && same_dir(
        PathStyle::Windows,
        parent,
        dir,
    ) {
        Some(narrow.last())
    } else {
        counterpart_in(narrow.drop_last(), dir)
    }
}

/// The narrow manifest that a native manifest is paired with: the one
/// in the same directory, if there is one.
pub open spec fn counterpart_of(narrow: Seq<WindowsCandidate>, native: WindowsCandidate) -> Option<
    WindowsCandidate,
> {
    match parent_of(PathStyle::Windows, native.path@) {
        Some(dir) => counterpart_in(narrow, dir),
        None => None,
    }
}

/// The enumeration after the native manifests, each paired with the
/// narrow manifest of its directory where that is not claimed and
/// loads, and alone otherwise; a failure of a native manifest is
/// collected under its path.
pub open spec fn after_natives(
    state: Enumeration,
    native: Seq<WindowsCandidate>,
    narrow: Seq<WindowsCandidate>,
) -> Enumeration
    decreases native.len(),
{
    if native.len() == 0 {
        state
    } else {
        let before = after_natives(state, native.drop_last(), narrow);
        let candidate = native.last();
        noted(
            before.errors,
            added_native(before.collection, candidate, counterpart_of(narrow, candidate)),
        )
    }
}

/// The enumeration after the narrow manifests, each on its own; those
/// that were paired are claimed and change nothing, and a failure of a
/// narrow manifest is collected under its path.
pub open spec fn after_narrows(state: Enumeration, narrow: Seq<WindowsCandidate>) -> Enumeration
    decreases narrow.len(),
{
    if narrow.len() == 0 {
        state
    } else {
        let before = after_narrows(state, narrow.drop_last());
        noted(before.errors, added_narrow(before.collection, narrow.last()))
    }
}

/// The enumeration after the runtimes that are probed for: the Varjo
/// runtime, then the mixed-reality runtime.
pub open spec fn after_probed(
    state: Enumeration,
    host: WindowsHost,
    varjo: Option<WindowsCandidate>,
    winmr_native: Option<WindowsCandidate>,
    winmr_narrow: Option<WindowsCandidate>,
) -> Enumeration {
    let with_varjo = noted(state.errors, added_varjo(state.collection, host, varjo));
    let (collection, failed) = added_winmr(with_varjo.collection, winmr_native, winmr_narrow);
    Enumeration { collection, errors: with_varjo.errors + failed }
}

/// The enumeration after one extra manifest. One whose width could not
/// be told is collected with that failure. A 64-bit one is tried as a
/// native manifest, a 32-bit one as a narrow manifest, and a universal
/// one as both; a failure is collected under its path.
pub open spec fn after_extra(state: Enumeration, extra: ExtraManifest) -> Enumeration {
    match extra.bitness {
        Err(e) => Enumeration { errors: state.errors.push(e@), ..state },
        Ok(bitness) => {
            let (native, narrow) = match bitness {
                RuntimeBitness::BitWidth64 => (Some(extra.candidate), None),
                RuntimeBitness::BitWidth32 => (None, Some(extra.candidate)),
                RuntimeBitness::Universal => (Some(extra.candidate), Some(extra.candidate)),
            };
            let (next, outcome) = added(state.collection, native, narrow);
            noted(state.errors, (next, under(extra.candidate.path@, outcome)))
        },
    }
}

/// The enumeration after the extra manifests, in order.
pub open spec fn after_extras(state: Enumeration, extra: Seq<ExtraManifest>) -> Enumeration
    decreases extra.len(),
{
    if extra.len() == 0 {
        state
    } else {
        after_extra(after_extras(state, extra.drop_last()), extra.last())
    }
}

/// The enumeration of what discovery came upon: the native manifests
/// with their counterparts, the remaining narrow manifests, the
/// runtimes that are probed for, and last the extra manifests.
pub open spec fn enumerate(found: WindowsDiscovery, host: WindowsHost) -> Enumeration {
    let nothing = Enumeration {
        collection: Collection { runtimes: Seq::empty(), used: Seq::empty() },
        errors: Seq::empty(),
    };
    let registered = after_narrows(after_natives(nothing, found.native@, found.narrow@), found.narrow@);
    after_extras(
        after_probed(registered, host, found.varjo, found.winmr_native, found.winmr_narrow),
        found.extra@,
    )
}

/// The narrow manifest that lies in the directory `dir`, if there is
/// one.
fn find_counterpart<'a>(narrow: &'a Vec<WindowsCandidate>, dir: &String) -> (found: Option<
    &'a WindowsCandidate,
>)
    ensures
        deref_of(found) == counterpart_in(narrow@, dir@),
{
    let mut i: usize = narrow.len();
    assert(narrow@.take(i as int) =~= narrow@);
    while i > 0
        invariant
            i <= narrow.len(),
            counterpart_in(narrow@, dir@) == counterpart_in(narrow@.take(i as int), dir@),
        decreases i,
    {
        assert(narrow@.take(i as int).drop_last() =~= narrow@.take(i - 1));
        assert(narrow@.take(i as int).last() == narrow@[i - 1]);
        let parent = parent_dir(PathStyle::Windows, narrow[i - 1].path.as_str());
        if let Some(parent) = parent {
            if same_directory(PathStyle::Windows, parent.as_str(), dir.as_str()) {
                return Some(&narrow[i - 1]);
            }
        }
        i -= 1;
    }
    assert(narrow@.take(0) =~= Seq::<WindowsCandidate>::empty());
    None
}

/// Note the outcome of an attempt: a failure joins the errors.
fn note(errors: &mut Vec<ManifestError>, outcome: Result<(), ManifestError>)
    ensures
        error_views(final(errors)@) == match collected_view(outcome) {
            Ok(_) => error_views(old(errors)@),
            Err(e) => error_views(old(errors)@).push(e),
        },
{
    if let Err(e) = outcome {
        errors.push(e);
        assert(error_views(errors@) =~= error_views(old(errors)@).push(e@));
    }
}

/// The Windows platform.
#[derive(Debug, Clone, Copy, PartialEq, Eq, Structural)]
pub struct WindowsPlatform;

impl WindowsPlatform {
    /// The platform.
    pub fn new() -> (platform: WindowsPlatform) {
        WindowsPlatform
    }

    /// Enumerate all available runtimes among what discovery came
    /// upon. Never fails: a manifest that cannot be used becomes a
    /// non-fatal error.
    pub fn find_available_runtimes(&self, host: &WindowsHost, found: WindowsDiscovery) -> (result:
        Result<(Vec<WindowsRuntime>, Vec<ManifestError>), Error>)
        ensures
            result matches Ok((runtimes, nonfatal_errors)) && views(runtimes@) == enumerate(
                found,
                *host,
            ).collection.runtimes && error_views(nonfatal_errors@) == enumerate(
                found,
                *host,
            ).errors,
    {
        let mut collection = RuntimeCollection::new();
        let mut nonfatal_errors: Vec<ManifestError> = Vec::new();
        assert(error_views(nonfatal_errors@) =~= Seq::empty());
        let ghost nothing = Enumeration { collection: collection@, errors: Seq::empty() };

        // Handle all native runtimes, matching with a narrow one if applicable.
        let mut i: usize = 0;
        while i < found.native.len()
            invariant
                i <= found.native.len(),
                (Enumeration {
                    collection: collection@,
                    errors: error_views(nonfatal_errors@),
                }) == after_natives(nothing, found.native@.take(i as int), found.narrow@),
            decreases found.native.len() - i,
        {
            assert(found.native@.take(i + 1).drop_last() =~= found.native@.take(i as int));
            let candidate = &found.native[i];
            let counterpart = match parent_dir(PathStyle::Windows, candidate.path.as_str()) {
                Some(dir) => find_counterpart(&found.narrow, &dir),
                None => None,
            };
            let outcome = collection.try_add_native(candidate, counterpart);
            note(&mut nonfatal_errors, outcome);
            i += 1;
        }
        assert(found.native@.take(found.native@.len() as int) =~= found.native@);
        let ghost paired = Enumeration {
            collection: collection@,
            errors: error_views(nonfatal_errors@),
        };

        // Handle remaining narrow ones.
        let mut j: usize = 0;
        while j < found.narrow.len()
            invariant
                j <= found.narrow.len(),
                (Enumeration {
                    collection: collection@,
                    errors: error_views(nonfatal_errors@),
                }) == after_narrows(paired, found.narrow@.take(j as int)),
            decreases found.narrow.len() - j,
        {
            assert(found.narrow@.take(j + 1).drop_last() =~= found.narrow@.take(j as int));
            let outcome = collection.try_add_narrow(&found.narrow[j]);
            note(&mut nonfatal_errors, outcome);
            j += 1;
        }
        assert(found.narrow@.take(found.narrow@.len() as int) =~= found.narrow@);

        // Try adding ones we might not see otherwise.
        let outcome = collection.try_add_varjo(host, found.varjo.as_ref());
        note(&mut nonfatal_errors, outcome);
        let mut failed = collection.try_add_winmr(
            found.winmr_native.as_ref(),
            found.winmr_narrow.as_ref(),
        );
        let ghost before = nonfatal_errors@;
        let ghost more = failed@;
        nonfatal_errors.append(&mut failed);
        assert(error_views(nonfatal_errors@) =~= error_views(before) + error_views(more));
        let ghost probed = Enumeration {
            collection: collection@,
            errors: error_views(nonfatal_errors@),
        };

        // Last, the extra manifests.
        let mut k: usize = 0;
        while k < found.extra.len()
            invariant
                k <= found.extra.len(),
                (Enumeration {
                    collection: collection@,
                    errors: error_views(nonfatal_errors@),
                }) == after_extras(probed, found.extra@.take(k as int)),
            decreases found.extra.len() - k,
        {
            assert(found.extra@.take(k + 1).drop_last() =~= found.extra@.take(k as int));
            let extra = &found.extra[k];
            match &extra.bitness {
                Err(e) => {
                    note(&mut nonfatal_errors, Err(e.clone()));
                },
                Ok(bitness) => {
                    let candidate = &extra.candidate;
                    let attempt = match bitness {
                        RuntimeBitness::BitWidth64 => collection.try_add(Some(candidate), None),
                        RuntimeBitness::BitWidth32 => collection.try_add(None, Some(candidate)),
                        RuntimeBitness::Universal => collection.try_add(
                            Some(candidate),
                            Some(candidate),
                        ),
                    };
                    let outcome = match attempt {
                        Ok(_) => Ok(()),
                        Err(e) => Err(ManifestError(candidate.path.clone(), e)),
                    };
                    note(&mut nonfatal_errors, outcome);
                },
            }
            k += 1;
        }
        assert(found.extra@.take(found.extra@.len() as int) =~= found.extra@);
        Ok((collection.into_runtimes(), nonfatal_errors))
    }
}

/// Call to create the Windows platform.
pub fn make_platform() -> (platform: WindowsPlatform) {
    WindowsPlatform::new()
}


/// The manifest paths that the registry names as active, one for each
/// view, each if the view names one.
#[derive(Debug, PartialEq, Eq)]
pub struct WindowsActiveRuntimeData {
    pub active_native: Option<String>,
    pub active_narrow: Option<String>,
}

/// Is the manifest of a runtime the one that a view names as active?
/// Never where either is missing.
pub open spec fn is_active(active: Option<Seq<char>>, runtime: Option<BaseRuntimeView>) -> bool {
    match (active, runtime) {
        (Some(path), Some(base)) => base.manifest_path == path,
        _ => false,
    }
}

/// Is the manifest of a runtime the one that a view names as active?
pub fn check_active(active_runtime_manifest: &Option<String>, runtime: &Option<BaseRuntime>) -> (active:
    bool)
    ensures
        active == is_active(
            text_of(*active_runtime_manifest),
            match *runtime {
                Some(base) => Some(base@),
                None => None,
            },
        ),
{
    match (active_runtime_manifest, runtime) {
        (Some(active_manifest), Some(r)) => String::from_str(r.get_manifest_path())
            == *active_manifest,
        _ => false,
    }
}

impl WindowsActiveRuntimeData {
    /// The state of a runtime under this snapshot: each width is active
    /// where the runtime's manifest of that width is the one that the
    /// view names.
    pub open spec fn state_of(&self, runtime: WindowsRuntimeView) -> ActiveState {
        ActiveState::of_widths(
            is_active(text_of(self.active_native), runtime.native),
            is_active(text_of(self.active_narrow), runtime.narrow),
        )
    }

    /// A snapshot of what is active, from the value that each view
    /// holds; a view without key or value names nothing.
    pub fn new(active_native: Option<String>, active_narrow: Option<String>) -> (data:
        WindowsActiveRuntimeData)
        ensures
            data == (WindowsActiveRuntimeData { active_native, active_narrow }),
    {
        WindowsActiveRuntimeData { active_native, active_narrow }
    }

    /// Is the given runtime active, and for which widths?
    pub fn check_runtime(&self, runtime: &WindowsRuntime) -> (state: ActiveState)
        ensures
            state == self.state_of(runtime@),
    {
        let native = check_active(&self.active_native, &runtime.native);
        let narrow = check_active(&self.active_narrow, &runtime.narrow);
        ActiveState::from_native_and_narrow_activity(native, narrow)
    }
}

impl WindowsPlatform {
    /// Get the paths of all active runtime manifests: the native one,
    /// then the narrow one, each if its view names one.
    pub fn get_active_runtime_manifests(&self, active_data: &WindowsActiveRuntimeData) -> (paths:
        Vec<String>)
        ensures
            texts(paths@) == match (
                text_of(active_data.active_native),
                text_of(active_data.active_narrow),
            ) {
                (Some(a), Some(b)) => seq![a, b],
                (Some(a), None) => seq![a],
                (None, Some(b)) => seq![b],
                (None, None) => Seq::<Seq<char>>::empty(),
            },
    {
        let mut paths: Vec<String> = Vec::new();
        if let Some(path) = &active_data.active_native {
            paths.push(path.clone());
        }
        if let Some(path) = &active_data.active_narrow {
            paths.push(path.clone());
        }
        assert(texts(paths@) =~= match (
            text_of(active_data.active_native),
            text_of(active_data.active_narrow),
        ) {
            (Some(a), Some(b)) => seq![a, b],
            (Some(a), None) => seq![a],
            (None, Some(b)) => seq![b],
            (None, None) => Seq::<Seq<char>>::empty(),
        });
        paths
    }

    /// Get a snapshot of what the active runtimes are, from the value
    /// that each view holds. A view that the process does not reach
    /// names nothing.
    pub fn get_active_data(
        &self,
        host: &WindowsHost,
        active_native: Option<String>,
        active_narrow: Option<String>,
    ) -> (data: WindowsActiveRuntimeData)
        ensures
            data.active_native == if native_flags(*host) is Some {
                active_native
            } else {
                None
            },
            data.active_narrow == active_narrow,
    {
        let active_native = if make_prefix_key_flags_64(host).is_some() {
            active_native
        } else {
            None
        };
        WindowsActiveRuntimeData::new(active_native, active_narrow)
    }

    /// Is the given runtime marked as active, and for which widths?
    pub fn get_runtime_active_state(
        &self,
        runtime: &WindowsRuntime,
        active_data: &WindowsActiveRuntimeData,
    ) -> (state: ActiveState)
        ensures
            state == active_data.state_of(runtime@),
    {
        active_data.check_runtime(runtime)
    }
}

} // verus!
