//! The failure taxonomy of the pipeline. Every run ends in exactly one
//! verdict; each of these is a terminal failure, and any ambiguous
//! state resolves to one of them, never to success.

use vstd::prelude::*;

verus! {

/// The external tool whose nonzero exit ended the run.
#[derive(Clone, Copy, PartialEq, Eq, Structural, Debug)]
pub enum Tool {
    GitClone,
    GitCatFile,
    GitArchive,
}

/// Why a run failed.
#[derive(Clone, Copy, PartialEq, Eq, Debug)]
pub enum Failure {
    /// Neither or both of the tag and the commit were given.
    ArgumentError,
    /// The commit path or unsigned-tag resolution was requested;
    /// both are accepted syntactically but explicitly unimplemented.
    UnsupportedMode,
    /// An external tool exited nonzero; carries the tool and its
    /// exit status, when the platform reported one.
    ExternalToolFailure { tool: Tool, status: Option<i32> },
    /// The tag object holds no armor marker.
    SignatureMissing,
    /// The external verifier rejected the signature.
    SignatureInvalid,
    /// The candidate and the reproduced archive differ.
    Mismatch,
    /// Reading the candidate or writing a temporary file failed.
    IoError,
}

} // verus!
