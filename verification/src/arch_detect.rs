//! Whether the library of a runtime is a 32-bit or a 64-bit binary.

use vstd::prelude::*;
use vstd::string::*;
use crate::error::{Error, ErrorView, ManifestError};
use crate::manifest::{classify, LibraryPathKind, RuntimeManifest, SUPPORTED_FILE_FORMAT_VERSION};
use crate::paths::{is_absolute, is_absolute_path, PathStyle};
use crate::runtime::{resolved_library_of, BaseRuntime};
use object::read::Object;

verus! {

/// The width of the binary that a manifest points to.
#[derive(Debug, Clone, Copy, PartialEq, Eq, Structural)]
pub enum RuntimeBitness {
    /// Uses shared library search path to find the right binary per
    /// arch.
    Universal,
    /// Points to a 32-bit runtime.
    BitWidth32,
    /// Points to a 64-bit runtime.
    BitWidth64,
}

/// What the object file reader makes of `data`: whether the file can
/// hold 64-bit addresses, or nothing where `data` is no object file
/// that it reads.
pub uninterp spec fn object_file_is_64(data: Seq<u8>) -> Option<bool>;

/// Whether the object file `data` is a 64-bit one; nothing where it is
/// no object file that the reader knows.
///
/// Trusted: calls `object::File::parse` and `Object::is_64` of the
/// object crate. The result depends on the bytes alone; it is given the
/// name `object_file_is_64`, and nothing more is claimed of it.
#[verifier::external_body]
fn object_is_64(data: &[u8]) -> (is_64: Option<bool>)
    ensures
        is_64 == object_file_is_64(data@),
{
    match object::File::parse(data) {
        Ok(file) => Some(file.is_64()),
        Err(_) => None,
    }
}

/// The library file whose header decides the width of a runtime: the
/// resolved library, unless the library is looked up in the search path
/// or its resolved path is not absolute.
pub open spec fn binary_to_probe(
    style: PathStyle,
    manifest_path: Seq<char>,
    library_path: Seq<char>,
    canonical: Option<Seq<char>>,
) -> Option<Seq<char>> {
    let resolved = resolved_library_of(style, manifest_path, library_path, canonical);
    if classify(library_path) == LibraryPathKind::DynamicLibrarySearchPath || !is_absolute_path(
        style,
        resolved,
    ) {
        None
    } else {
        Some(resolved)
    }
}

/// The failure to load the binary at `library_path`.
pub open spec fn load_failure(library_path: Seq<char>) -> (Seq<char>, ErrorView) {
    (library_path, ErrorView::RuntimeBinaryLoadError(library_path))
}

/// The width that the header of the binary at `library_path` shows,
/// given what the object file reader made of it.
pub open spec fn width_of_probe(library_path: Seq<char>, probe: Option<bool>) -> Result<
    RuntimeBitness,
    (Seq<char>, ErrorView),
> {
    match probe {
        Some(true) => Ok(RuntimeBitness::BitWidth64),
        Some(false) => Ok(RuntimeBitness::BitWidth32),
        None => Err(load_failure(library_path)),
    }
}

/// A result of a width detection, as plain values.
pub open spec fn width_view(width: Result<RuntimeBitness, ManifestError>) -> Result<
    RuntimeBitness,
    (Seq<char>, ErrorView),
> {
    match width {
        Ok(bitness) => Ok(bitness),
        Err(e) => Err(e@),
    }
}

/// The failure to load the binary at `library_path`.
fn make_load_failure(library_path: &str) -> (failure: ManifestError)
    ensures
        failure@ == load_failure(library_path@),
{
    ManifestError(
        String::from_str(library_path),
        Error::RuntimeBinaryLoadError(String::from_str(library_path)),
    )
}

/// The library file to read in order to tell the width of `runtime`,
/// if any, given the canonical form of its library location, if the
/// file system has one. With `None` the runtime is universal.
pub fn library_to_probe(runtime: &BaseRuntime, style: PathStyle, canonical: Option<String>) -> (target:
    Option<String>)
    ensures
        match target {
            Some(path) => binary_to_probe(
                style,
                runtime.path_text(),
                runtime.library_text(),
                match canonical {
                    Some(found) => Some(found@),
                    None => None,
                },
            ) == Some(path@),
            None => binary_to_probe(
                style,
                runtime.path_text(),
                runtime.library_text(),
                match canonical {
                    Some(found) => Some(found@),
                    None => None,
                },
            ) is None,
        },
{
    if matches!(runtime.classify_library_path(), LibraryPathKind::DynamicLibrarySearchPath) {
        return None;
    }
    let resolved = runtime.resolve_library_path(style, canonical);
    if !is_absolute(style, resolved.as_str()) {
        return None;
    }
    Some(resolved)
}

/// The width of the binary at `library_path`, given what the object
/// file reader made of its content: 64-bit or 32-bit as the header
/// shows, and a load failure where it made nothing of it.
pub fn bitness_of_probe(library_path: &str, probe: Option<bool>) -> (width: Result<
    RuntimeBitness,
    ManifestError,
>)
    ensures
        width_view(width) == width_of_probe(library_path@, probe),
{
    match probe {
        Some(true) => Ok(RuntimeBitness::BitWidth64),
        Some(false) => Ok(RuntimeBitness::BitWidth32),
        None => Err(make_load_failure(library_path)),
    }
}

/// The width of the binary at `library_path`, given its content, or
/// nothing where it could not be read.
pub fn bitness_of_binary(library_path: &str, content: Option<Vec<u8>>) -> (width: Result<
    RuntimeBitness,
    ManifestError,
>)
    ensures
        width_view(width) == width_of_probe(
            library_path@,
            match content {
                Some(data) => object_file_is_64(data@),
                None => None,
            },
        ),
{
    match content {
        Some(data) => bitness_of_probe(library_path, object_is_64(data.as_slice())),
        None => Err(make_load_failure(library_path)),
    }
}

/// The width of the runtime whose manifest lies at `manifest_path`,
/// given the outcome of loading the manifest, the canonical form of its
/// library location, and the content of the library to probe, each as
/// far as it could be had.
///
/// A manifest that cannot be used is an error under its own path. A
/// runtime without a library to probe is universal. Any other has the
/// width that its library's header shows; a library that cannot be read
/// or is no object file is an error under the library's path.
pub fn get_runtime_bitness(
    manifest_path: &str,
    loaded: Result<RuntimeManifest, Error>,
    style: PathStyle,
    canonical: Option<String>,
    content: Option<Vec<u8>>,
) -> (width: Result<RuntimeBitness, ManifestError>)
    ensures
        match loaded {
            Err(e) => width_view(width) == Err::<RuntimeBitness, (Seq<char>, ErrorView)>(
                (manifest_path@, e@),
            ),
            Ok(manifest) => if manifest.file_format_version@ != SUPPORTED_FILE_FORMAT_VERSION@ {
                width_view(width) == Err::<RuntimeBitness, (Seq<char>, ErrorView)>(
                    (manifest_path@, ErrorView::ManifestVersionMismatch),
                )
            } else {
                match binary_to_probe(
                    style,
                    manifest_path@,
                    manifest.runtime.library_path@,
                    match canonical {
                        Some(found) => Some(found@),
                        None => None,
                    },
                ) {
                    None => width == Ok::<RuntimeBitness, ManifestError>(
                        RuntimeBitness::Universal,
                    ),
                    Some(library) => width_view(width) == width_of_probe(
                        library,
                        match content {
                            Some(data) => object_file_is_64(data@),
                            None => None,
                        },
                    ),
                }
            },
        },
{
    let runtime = match BaseRuntime::new(manifest_path, loaded) {
        Ok(runtime) => runtime,
        Err(e) => {
            return Err(ManifestError(String::from_str(manifest_path), e));
        },
    };
    match library_to_probe(&runtime, style, canonical) {
        None => Ok(RuntimeBitness::Universal),
        Some(library) => bitness_of_binary(library.as_str(), content),
    }
}

} // verus!
