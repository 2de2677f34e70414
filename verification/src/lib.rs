//! Verified core of a picker for OpenXR runtimes.
//!
//! The library decides; its caller reads and writes the machine. It
//! holds the manifest model (`manifest`, `runtime`), the catalog of
//! architecture tags (`arch_abi`), the detection of a library's width
//! (`arch_detect`), and for each platform the enumeration of runtimes
//! without duplicates, the resolution of the active runtime, and the
//! plan of an activation (`linux`, `linux_activation`, `windows`). The
//! state that a front end shows, with the merge that a refresh makes,
//! is in `app_state`. What holds of every enumeration is proved in
//! `linux_laws` and `windows_laws`.
//!
//! Paths are text (`paths`): two paths are the same when their texts are
//! equal. Contracts are stated over sequences of characters and over
//! the views of the library's types.

pub mod active_state;
pub mod app_state;
pub mod arch_abi;
pub mod arch_detect;
pub mod error;
pub mod linux;
pub mod linux_activation;
pub mod linux_laws;
pub mod manifest;
pub mod paths;
pub mod platform;
pub mod runtime;
pub mod text;
pub mod windows;
pub mod windows_laws;

pub use active_state::ActiveState;
pub use app_state::{AppState, PersistentAppState};
pub use error::{Error, ManifestError};
pub use manifest::RuntimeManifest;
pub use platform::PlatformRuntime;

use vstd::prelude::*;

verus! {

/// Major version of the API whose runtimes are picked; part of every
/// discovery location.
pub const OPENXR_MAJOR_VERSION: i32 = 1;

/// File name of the marker that selects the active runtime.
pub const ACTIVE_RUNTIME_FILENAME: &'static str = "active_runtime.json";

/// Directory used in constructing paths.
pub const OPENXR: &'static str = "openxr";

} // verus!
