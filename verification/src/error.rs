//! What can go wrong while enumerating runtimes or activating one.

use vstd::prelude::*;
use vstd::string::*;
use crate::text::join_text;

verus! {

/// A failure of enumeration, of loading one manifest, or of activation.
#[derive(Debug, PartialEq, Eq)]
pub enum Error {
    /// The discovery mechanism itself is unusable.
    EnumerationError(String),
    /// A manifest could not be read; holds the cause.
    IoError(String),
    /// A manifest is not the JSON that was expected; holds the cause.
    JsonParseError(String),
    /// A manifest declares a file format version other than the
    /// supported one.
    ManifestVersionMismatch,
    /// The library that a manifest names could not be loaded as a
    /// binary; holds its path.
    RuntimeBinaryLoadError(String),
    /// The active runtime could not be set; holds the cause.
    SetActiveError(String),
}

/// A manifest path and the failure met while loading it: a non-fatal
/// error of an enumeration.
#[derive(Debug, PartialEq, Eq)]
pub struct ManifestError(pub String, pub Error);

impl Clone for Error {
    fn clone(&self) -> (copy: Self)
        ensures
            copy == *self,
    {
        match self {
            Error::EnumerationError(cause) => Error::EnumerationError(cause.clone()),
            Error::IoError(cause) => Error::IoError(cause.clone()),
            Error::JsonParseError(cause) => Error::JsonParseError(cause.clone()),
            Error::ManifestVersionMismatch => Error::ManifestVersionMismatch,
            Error::RuntimeBinaryLoadError(path) => Error::RuntimeBinaryLoadError(path.clone()),
            Error::SetActiveError(cause) => Error::SetActiveError(cause.clone()),
        }
    }
}

impl Clone for ManifestError {
    fn clone(&self) -> (copy: Self)
        ensures
            copy == *self,
    {
        ManifestError(self.0.clone(), self.1.clone())
    }
}

/// An error, with each text as a sequence of characters.
pub enum ErrorView {
    EnumerationError(Seq<char>),
    IoError(Seq<char>),
    JsonParseError(Seq<char>),
    ManifestVersionMismatch,
    RuntimeBinaryLoadError(Seq<char>),
    SetActiveError(Seq<char>),
}

impl View for Error {
    type V = ErrorView;

    open spec fn view(&self) -> ErrorView {
        match *self {
            Error::EnumerationError(cause) => ErrorView::EnumerationError(cause@),
            Error::IoError(cause) => ErrorView::IoError(cause@),
            Error::JsonParseError(cause) => ErrorView::JsonParseError(cause@),
            Error::ManifestVersionMismatch => ErrorView::ManifestVersionMismatch,
            Error::RuntimeBinaryLoadError(path) => ErrorView::RuntimeBinaryLoadError(path@),
            Error::SetActiveError(cause) => ErrorView::SetActiveError(cause@),
        }
    }
}

/// An outcome without a value, as plain values.
pub open spec fn outcome_view(outcome: Result<(), Error>) -> Result<(), ErrorView> {
    match outcome {
        Ok(_) => Ok(()),
        Err(e) => Err(e@),
    }
}

/// The views of a list of manifest errors.
pub open spec fn error_views(errors: Seq<ManifestError>) -> Seq<(Seq<char>, ErrorView)> {
    errors.map_values(|e: ManifestError| e@)
}

impl View for ManifestError {
    type V = (Seq<char>, ErrorView);

    open spec fn view(&self) -> (Seq<char>, ErrorView) {
        (self.0@, self.1@)
    }
}

impl Error {
    /// The message that describes this error.
    pub open spec fn message(self) -> Seq<char> {
        match self {
            Error::EnumerationError(cause) =>
                "Failure while attempting to enumerate available runtimes: "@ + cause@,
            Error::IoError(_) => "IO error"@,
            Error::JsonParseError(_) => "JSON parsing error"@,
            Error::ManifestVersionMismatch => "Manifest file format version mismatch"@,
            Error::RuntimeBinaryLoadError(path) => "Could not load runtime binary: "@ + path@,
            Error::SetActiveError(cause) => "Error when trying to set active runtime: "@ + cause@,
        }
    }

    /// The message that describes this error.
    pub fn to_string(&self) -> (text: String)
        ensures
            text@ == self.message(),
    {
        match self {
            Error::EnumerationError(cause) => join_text(
                "Failure while attempting to enumerate available runtimes: ",
                cause.as_str(),
            ),
            Error::IoError(_) => String::from_str("IO error"),
            Error::JsonParseError(_) => String::from_str("JSON parsing error"),
            Error::ManifestVersionMismatch => String::from_str(
                "Manifest file format version mismatch",
            ),
            Error::RuntimeBinaryLoadError(path) => join_text(
                "Could not load runtime binary: ",
                path.as_str(),
            ),
            Error::SetActiveError(cause) => join_text(
                "Error when trying to set active runtime: ",
                cause.as_str(),
            ),
        }
    }
}

} // verus!
