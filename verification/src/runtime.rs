//! One runtime: a validated manifest and the path it was loaded from.

use vstd::prelude::*;
use vstd::string::*;
use crate::error::Error;
use crate::manifest::{
    classify,
    description_of,
    LibraryPathKind,
    RuntimeManifest,
    SUPPORTED_FILE_FORMAT_VERSION,
};
use crate::paths::{has_text_form, is_text, sibling, sibling_of, PathSimplifier, PathStyle};
use crate::text::{contains_text, has_text};

verus! {

/// The path and parsed data of a runtime manifest.
///
/// Used inside platform-specific types that implement `PlatformRuntime`.
#[derive(Debug, PartialEq, Eq)]
pub struct BaseRuntime {
    manifest_path: String,
    manifest: RuntimeManifest,
}

/// What a `BaseRuntime` holds.
pub struct BaseRuntimeView {
    /// The path of the manifest.
    pub manifest_path: Seq<char>,
    /// The parsed manifest.
    pub manifest: RuntimeManifest,
}

impl View for BaseRuntime {
    type V = BaseRuntimeView;

    closed spec fn view(&self) -> BaseRuntimeView {
        BaseRuntimeView { manifest_path: self.manifest_path@, manifest: self.manifest }
    }
}

impl Clone for BaseRuntime {
    fn clone(&self) -> (copy: Self)
        ensures
            copy == *self,
    {
        BaseRuntime { manifest_path: self.manifest_path.clone(), manifest: self.manifest.clone() }
    }
}

impl BaseRuntimeView {
    /// The library path that the manifest names.
    pub open spec fn library_path(self) -> Seq<char> {
        self.manifest.runtime.library_path@
    }

    /// The name that the manifest declares, if any.
    pub open spec fn declared_name(self) -> Option<Seq<char>> {
        match self.manifest.runtime.name {
            Some(name) => Some(name@),
            None => None,
        }
    }

    /// The name of the runtime.
    pub open spec fn name(self) -> Seq<char> {
        runtime_name_of(self.declared_name(), self.library_path(), self.manifest_path)
    }
}

/// The name of a runtime: the name its manifest declares; else the name
/// of the first known runtime whose library fragment occurs in the
/// library path; else the manifest path; else, where the manifest path
/// has no text form, the library path.
pub open spec fn runtime_name_of(
    declared: Option<Seq<char>>,
    library_path: Seq<char>,
    manifest_path: Seq<char>,
) -> Seq<char> {
    match declared {
        Some(name) => name,
        None => if has_text(library_path, "MixedRealityRuntime"@) {
            "Windows Mixed Reality"@
        } else if has_text(library_path, "monado"@) {
            "Monado"@
        } else if has_text(library_path, "VarjoOpenXR"@) {
            "Varjo"@
        } else if is_text(manifest_path) {
            manifest_path
        } else {
            library_path
        },
    }
}

/// Where the library of a manifest lies before any symbolic link is
/// followed: the library path itself where it is a bare name, else the
/// library path joined to the manifest's directory, which leaves a
/// path that is absolute in the style at hand as it is.
pub open spec fn library_location_of(
    style: PathStyle,
    manifest_path: Seq<char>,
    library_path: Seq<char>,
) -> Seq<char> {
    match classify(library_path) {
        LibraryPathKind::DynamicLibrarySearchPath => library_path,
        _ => sibling_of(style, manifest_path, library_path),
    }
}

/// The resolved library path: for a bare name the name itself; else the
/// canonical form of its location, or the location where no canonical
/// form could be had.
pub open spec fn resolved_library_of(
    style: PathStyle,
    manifest_path: Seq<char>,
    library_path: Seq<char>,
    canonical: Option<Seq<char>>,
) -> Seq<char> {
    match (classify(library_path), canonical) {
        (LibraryPathKind::DynamicLibrarySearchPath, _) => library_path,
        (_, Some(found)) => found,
        (_, None) => library_location_of(style, manifest_path, library_path),
    }
}

impl BaseRuntime {
    /// The path of the manifest.
    pub open spec fn path_text(&self) -> Seq<char> {
        self@.manifest_path
    }

    /// The parsed manifest.
    pub open spec fn manifest_data(&self) -> RuntimeManifest {
        self@.manifest
    }

    /// The library path that the manifest names.
    pub open spec fn library_text(&self) -> Seq<char> {
        self.manifest_data().runtime.library_path@
    }

    /// The name that the manifest declares, if any.
    pub open spec fn declared_name(&self) -> Option<Seq<char>> {
        match self.manifest_data().runtime.name {
            Some(name) => Some(name@),
            None => None,
        }
    }

    /// Create from a manifest path and the outcome of reading and
    /// decoding the file at that path.
    ///
    /// A failure to read or decode is handed on as it is; a manifest of
    /// another file format version is refused. Does not check whether the
    /// library is valid.
    pub fn new(manifest_path: &str, loaded: Result<RuntimeManifest, Error>) -> (made: Result<
        BaseRuntime,
        Error,
    >)
        ensures
            match loaded {
                Err(e) => made == Err::<BaseRuntime, Error>(e),
                Ok(manifest) => if manifest.file_format_version@
                    == SUPPORTED_FILE_FORMAT_VERSION@ {
                    made matches Ok(runtime) && runtime.path_text() == manifest_path@
                        && runtime.manifest_data() == manifest
                } else {
                    made == Err::<BaseRuntime, Error>(Error::ManifestVersionMismatch)
                },
            },
    {
        let manifest = match loaded {
            Ok(manifest) => manifest,
            Err(e) => {
                return Err(e);
            },
        };
        if !manifest.is_file_format_version_ok() {
            return Err(Error::ManifestVersionMismatch);
        }
        Ok(BaseRuntime { manifest_path: String::from_str(manifest_path), manifest })
    }

    /// Get the path to our manifest.
    pub fn get_manifest_path(&self) -> (path: &str)
        ensures
            path@ == self.path_text(),
    {
        self.manifest_path.as_str()
    }

    /// The parsed manifest.
    pub fn get_manifest(&self) -> (manifest: &RuntimeManifest)
        ensures
            *manifest == self.manifest_data(),
    {
        &self.manifest
    }

    /// Get the library path as stored in the manifest.
    pub fn library_path(&self) -> (path: &str)
        ensures
            path@ == self.library_text(),
    {
        self.manifest.library_path()
    }

    /// Check the file format version; `new` lets no other version pass.
    pub fn is_file_format_version_ok(&self) -> (ok: bool)
        ensures
            ok == (self.manifest_data().file_format_version@ == SUPPORTED_FILE_FORMAT_VERSION@),
    {
        self.manifest.is_file_format_version_ok()
    }

    /// The kind of the library path.
    pub fn classify_library_path(&self) -> (kind: LibraryPathKind)
        ensures
            kind == classify(self.library_text()),
    {
        self.manifest.classify_library_path()
    }

    /// Get a name for the runtime, preferably the self-declared one.
    ///
    /// Not promised to be unique, though!
    pub fn get_runtime_name(&self) -> (name: String)
        ensures
            name@ == runtime_name_of(self.declared_name(), self.library_text(), self.path_text()),
    {
        if let Some(s) = &self.manifest.runtime.name {
            return s.clone();
        }
        if contains_text(self.manifest.library_path(), "MixedRealityRuntime") {
            return String::from_str("Windows Mixed Reality");
        }
        if contains_text(self.manifest.library_path(), "monado") {
            return String::from_str("Monado");
        }
        if contains_text(self.manifest.library_path(), "VarjoOpenXR") {
            return String::from_str("Varjo");
        }
        if has_text_form(self.manifest_path.as_str()) {
            self.manifest_path.clone()
        } else {
            String::from_str(self.manifest.library_path())
        }
    }

    /// Where the library lies before any symbolic link is followed.
    pub fn library_location(&self, style: PathStyle) -> (location: String)
        ensures
            location@ == library_location_of(style, self.path_text(), self.library_text()),
    {
        match self.manifest.classify_library_path() {
            LibraryPathKind::DynamicLibrarySearchPath => String::from_str(
                self.manifest.library_path(),
            ),
            _ => sibling(style, self.manifest_path.as_str(), self.manifest.library_path()),
        }
    }

    /// Get the fully resolved path to the library in this runtime, given
    /// the canonical form of `library_location`, if the file system has
    /// one.
    pub fn resolve_library_path(&self, style: PathStyle, canonical: Option<String>) -> (resolved:
        String)
        ensures
            resolved@ == resolved_library_of(
                style,
                self.path_text(),
                self.library_text(),
                match canonical {
                    Some(found) => Some(found@),
                    None => None,
                },
            ),
    {
        match (self.manifest.classify_library_path(), canonical) {
            (LibraryPathKind::DynamicLibrarySearchPath, _) => String::from_str(
                self.manifest.library_path(),
            ),
            (_, Some(found)) => found,
            (_, None) => self.library_location(style),
        }
    }

    /// Describe this runtime by its manifest path and library path.
    pub fn describe_manifest(&self, simplifier: &PathSimplifier) -> (text: String)
        ensures
            text@ == description_of(*simplifier, self.path_text(), self.library_text()),
    {
        self.manifest.describe_manifest(self.manifest_path.as_str(), simplifier)
    }
}

/// A library path that is absolute in the style at hand is its own
/// location; one that is relative to the manifest lies below the
/// manifest's directory.
pub proof fn lemma_library_location(
    style: PathStyle,
    manifest_path: Seq<char>,
    library_path: Seq<char>,
)
    ensures
        crate::paths::is_absolute_path(style, library_path) ==> library_location_of(
            style,
            manifest_path,
            library_path,
        ) == library_path,
        classify(library_path) == LibraryPathKind::RelativeToManifest ==> library_location_of(
            style,
            manifest_path,
            library_path,
        ) == crate::paths::dir_prefix_of(style, manifest_path) + library_path,
{
}

/// A declared name always wins: no library path and no manifest path
/// changes the name of a runtime whose manifest declares one.
pub proof fn lemma_declared_name_wins(
    name: Seq<char>,
    library_path: Seq<char>,
    manifest_path: Seq<char>,
)
    ensures
        runtime_name_of(Some(name), library_path, manifest_path) == name,
{
}

} // verus!
