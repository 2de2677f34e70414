//! The runtime manifest: the descriptor that names a runtime's library,
//! and the rules that read its library path.

use vstd::prelude::*;
use vstd::string::*;
use crate::paths::{simplified, PathSimplifier};
use crate::text::{char_at, contains_char};

verus! {

/// Put between two paths to show that the first points to the second, in
/// a field that can hold several lines.
pub const FILE_INDIRECTION_ARROW: &'static str = "\n    ⮩ ";

/// The only manifest file format version that is accepted.
pub const SUPPORTED_FILE_FORMAT_VERSION: &'static str = "1.0.0";

/// How the library path of a manifest is to be read.
#[derive(Debug, Clone, Copy, PartialEq, Eq, Structural)]
pub enum LibraryPathKind {
    /// A bare name, looked up in the dynamic library search path.
    DynamicLibrarySearchPath,
    /// A path relative to the directory of the manifest.
    RelativeToManifest,
    /// A path from a root or a drive.
    Absolute,
}

/// The optional table of function symbol renaming in a runtime manifest.
#[derive(Debug, PartialEq, Eq)]
pub struct RuntimeFunctions {
    /// The symbol that stands for `xrNegotiateLoaderRuntimeInterface`.
    pub xr_negotiate_loader_runtime_interface: Option<String>,
}

/// The main object in a runtime manifest.
#[derive(Debug, PartialEq, Eq)]
pub struct Runtime {
    pub library_path: String,
    pub name: Option<String>,
    pub functions: Option<RuntimeFunctions>,
}

/// Top level structure corresponding to a runtime manifest.
#[derive(Debug, PartialEq, Eq)]
pub struct RuntimeManifest {
    pub file_format_version: String,
    pub runtime: Runtime,
}

/// A copy of an optional text.
pub fn clone_text(text: &Option<String>) -> (copy: Option<String>)
    ensures
        copy == *text,
{
    match text {
        Some(s) => Some(s.clone()),
        None => None,
    }
}

impl Clone for RuntimeFunctions {
    fn clone(&self) -> (copy: Self)
        ensures
            copy == *self,
    {
        RuntimeFunctions {
            xr_negotiate_loader_runtime_interface: clone_text(
                &self.xr_negotiate_loader_runtime_interface,
            ),
        }
    }
}

impl Clone for Runtime {
    fn clone(&self) -> (copy: Self)
        ensures
            copy == *self,
    {
        Runtime {
            library_path: self.library_path.clone(),
            name: clone_text(&self.name),
            functions: match &self.functions {
                Some(functions) => Some(functions.clone()),
                None => None,
            },
        }
    }
}

impl Clone for RuntimeManifest {
    fn clone(&self) -> (copy: Self)
        ensures
            copy == *self,
    {
        RuntimeManifest {
            file_format_version: self.file_format_version.clone(),
            runtime: self.runtime.clone(),
        }
    }
}

/// A library path without any separator uses the dynamic library search
/// path.
pub open spec fn uses_search_path_of(library_path: Seq<char>) -> bool {
    !library_path.contains('/') && !library_path.contains('\\')
}

/// A library path with a separator that begins neither with a separator
/// nor with a drive letter is relative to the manifest.
pub open spec fn relative_to_manifest_of(library_path: Seq<char>) -> bool {
    &&& !uses_search_path_of(library_path)
    &&& library_path.len() >= 1 ==> library_path[0] != '/' && library_path[0] != '\\'
    &&& library_path.len() >= 2 ==> library_path[1] != ':'
}

/// The kind of a library path.
pub open spec fn classify(library_path: Seq<char>) -> LibraryPathKind {
    if uses_search_path_of(library_path) {
        LibraryPathKind::DynamicLibrarySearchPath
    } else if relative_to_manifest_of(library_path) {
        LibraryPathKind::RelativeToManifest
    } else {
        LibraryPathKind::Absolute
    }
}

/// The description of a manifest at `manifest_path` that names
/// `library_path`: the manifest path, the arrow, and the library path
/// with what its kind says of it. The home directory is abbreviated in
/// the manifest path and in an absolute library path.
pub open spec fn description_of(
    simplifier: PathSimplifier,
    manifest_path: Seq<char>,
    library_path: Seq<char>,
) -> Seq<char> {
    let manifest = simplified(simplifier.path_style(), simplifier.home(), manifest_path);
    match classify(library_path) {
        LibraryPathKind::DynamicLibrarySearchPath => manifest + FILE_INDIRECTION_ARROW@
            + library_path + " in the dynamic library search path"@,
        LibraryPathKind::RelativeToManifest => manifest + FILE_INDIRECTION_ARROW@ + library_path
            + " relative to the manifest"@,
        LibraryPathKind::Absolute => manifest + FILE_INDIRECTION_ARROW@ + simplified(
            simplifier.path_style(),
            simplifier.home(),
            library_path,
        ),
    }
}

/// The kind of the library path `library_path`.
pub fn classify_library_path(library_path: &str) -> (kind: LibraryPathKind)
    ensures
        kind == classify(library_path@),
{
    if !contains_char(library_path, '/') && !contains_char(library_path, '\\') {
        return LibraryPathKind::DynamicLibrarySearchPath;
    }
    let first = char_at(library_path, 0);
    let second = char_at(library_path, 1);
    let rooted = match first {
        Some(c) => c == '/' || c == '\\',
        None => false,
    };
    let on_drive = match second {
        Some(c) => c == ':',
        None => false,
    };
    if !rooted && !on_drive {
        LibraryPathKind::RelativeToManifest
    } else {
        LibraryPathKind::Absolute
    }
}

impl RuntimeManifest {
    /// A manifest with the given version and runtime object.
    pub fn new(file_format_version: String, runtime: Runtime) -> (manifest: RuntimeManifest)
        ensures
            manifest == (RuntimeManifest { file_format_version, runtime }),
    {
        RuntimeManifest { file_format_version, runtime }
    }

    /// The declared file format version.
    pub fn file_format_version(&self) -> (version: &str)
        ensures
            version@ == self.file_format_version@,
    {
        self.file_format_version.as_str()
    }

    /// Get the library path as stored in the manifest.
    pub fn library_path(&self) -> (path: &str)
        ensures
            path@ == self.runtime.library_path@,
    {
        self.runtime.library_path.as_str()
    }

    /// Check the file format version.
    pub fn is_file_format_version_ok(&self) -> (ok: bool)
        ensures
            ok == (self.file_format_version@ == SUPPORTED_FILE_FORMAT_VERSION@),
    {
        self.file_format_version == String::from_str(SUPPORTED_FILE_FORMAT_VERSION)
    }

    /// The kind of this manifest's library path.
    pub fn classify_library_path(&self) -> (kind: LibraryPathKind)
        ensures
            kind == classify(self.runtime.library_path@),
    {
        classify_library_path(self.library_path())
    }

    /// Does the library path use the system shared library search path?
    pub fn uses_search_path(&self) -> (yes: bool)
        ensures
            yes == uses_search_path_of(self.runtime.library_path@),
    {
        matches!(self.classify_library_path(), LibraryPathKind::DynamicLibrarySearchPath)
    }

    /// Should the library be searched for relative to the manifest?
    pub fn library_relative_to_manifest(&self) -> (yes: bool)
        ensures
            yes == relative_to_manifest_of(self.runtime.library_path@),
    {
        matches!(self.classify_library_path(), LibraryPathKind::RelativeToManifest)
    }

    /// Describe this manifest by using the manifest path and library path.
    pub fn describe_manifest(&self, manifest_path: &str, simplifier: &PathSimplifier) -> (text:
        String)
        ensures
            text@ == description_of(*simplifier, manifest_path@, self.runtime.library_path@),
    {
        let mut text = simplifier.simplify(manifest_path);
        text.append(FILE_INDIRECTION_ARROW);
        match self.classify_library_path() {
            LibraryPathKind::DynamicLibrarySearchPath => {
                text.append(self.library_path());
                text.append(" in the dynamic library search path");
            },
            LibraryPathKind::RelativeToManifest => {
                text.append(self.library_path());
                text.append(" relative to the manifest");
            },
            LibraryPathKind::Absolute => {
                let library = simplifier.simplify(self.library_path());
                text.append(library.as_str());
            },
        }
        text
    }
}

/// Every library path has exactly one kind, and the kind is decided by
/// its separators and its first two characters alone.
pub proof fn lemma_classify_total(library_path: Seq<char>)
    ensures
        classify(library_path) == LibraryPathKind::DynamicLibrarySearchPath
            <==> uses_search_path_of(library_path),
        classify(library_path) == LibraryPathKind::RelativeToManifest <==> relative_to_manifest_of(
            library_path,
        ),
        classify(library_path) == LibraryPathKind::Absolute <==> (!uses_search_path_of(
            library_path,
        ) && !relative_to_manifest_of(library_path)),
{
}

} // verus!
