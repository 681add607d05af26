//! The failures of the sandbox, by kind.

use vstd::prelude::*;

verus! {

/// What went wrong, by the part of the sandbox that it went wrong in.
#[derive(Debug, Clone, Copy, PartialEq, Eq, Structural)]
pub enum ErrorKind {
    /// A backing image is not where it should be.
    ImageNotFound,
    /// The system image is smaller than any real one.
    ImageTooSmall,
    /// A directory or file of the sandbox could not be made, read or written.
    Io,
    /// The tool that mounts or unmounts an image failed.
    Mount,
    /// The kernel refused a fresh namespace or an identity mapping.
    Namespace,
    /// No init binary was found, or init died as soon as it was started.
    Launch,
    /// The contained system did not report a finished boot in time.
    BootTimeout,
    /// A command inside the container could not be run, or failed.
    Exec,
    /// The binder filesystem could not be mounted or a device not be made.
    Binderfs,
    /// A directory of the prefix is in the way, or its runtime is incomplete.
    Prefix,
    /// The manifest of an application archive cannot be used.
    Archive,
}

/// A failure with its kind and the text to show for it.
#[derive(Debug, Clone, PartialEq, Eq)]
pub struct SandboxError {
    pub kind: ErrorKind,
    pub message: String,
}

/// What a [`SandboxError`] is, as plain values.
pub struct ErrorModel {
    pub kind: ErrorKind,
    pub message: Seq<char>,
}

impl DeepView for SandboxError {
    type V = ErrorModel;

    open spec fn deep_view(&self) -> ErrorModel {
        ErrorModel { kind: self.kind, message: self.message@ }
    }
}

impl ErrorKind {
    /// Either failure of image validation.
    pub open spec fn is_image(self) -> bool {
        self == ErrorKind::ImageNotFound || self == ErrorKind::ImageTooSmall
    }
}

impl SandboxError {
    /// A failure of the given kind.
    pub fn new(kind: ErrorKind, message: String) -> (e: SandboxError)
        ensures
            e.deep_view() == (ErrorModel { kind, message: message@ }),
    {
        SandboxError { kind, message }
    }

    /// The text to show for the failure.
    pub fn to_string(&self) -> (r: String)
        ensures
            r@ == self.message@,
    {
        self.message.clone()
    }

    /// Tells whether image validation failed.
    pub fn is_image_error(&self) -> (r: bool)
        ensures
            r == self.kind.is_image(),
    {
        match self.kind {
            ErrorKind::ImageNotFound => true,
            ErrorKind::ImageTooSmall => true,
            _ => false,
        }
    }
}

} // verus!
