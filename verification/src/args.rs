//! The arguments of one invocation, and their validation.
//!
//! Exactly one of the tag and the commit must be supplied; neither or
//! both is an argument error, found before any network work. The
//! commit path and unsigned-tag resolution are accepted syntactically
//! but unimplemented, and are rejected explicitly rather than silently
//! degraded to an unverified pass.

use vstd::prelude::*;
use crate::errors::Failure;

verus! {

/// One invocation's arguments.
#[derive(Debug)]
pub struct Args {
    /// File with trusted public keys to verify with.
    pub keyring: String,
    /// The tag to verify and to reproduce the tarball from.
    pub tag: Option<String>,
    /// A signed commit to use instead of a signed tag (unimplemented).
    pub commit: Option<String>,
    /// Resolve a tag to a commit and verify that (unimplemented).
    pub resolve_unsigned_tag: bool,
    /// The prefix to generate the tarball with; derived otherwise.
    pub prefix: Option<String>,
    /// The name to build the archive prefix from instead of deriving one.
    pub name: Option<String>,
    /// The archive format.
    pub format: String,
    /// The remote repository to clone.
    pub repo: String,
    /// Path of the tarball to verify.
    pub tarball: String,
}

/// Why the arguments are rejected, if they are: neither or both of
/// tag and commit is an argument error; a commit or unsigned-tag
/// request is an unsupported mode; a tag alone is accepted.
pub open spec fn spec_mode_failure(args: Args) -> Option<Failure> {
    if args.tag is Some && args.commit is Some {
        Some(Failure::ArgumentError)
    } else if args.tag is None && args.commit is None {
        Some(Failure::ArgumentError)
    } else if args.commit is Some {
        Some(Failure::UnsupportedMode)
    } else if args.resolve_unsigned_tag {
        Some(Failure::UnsupportedMode)
    } else {
        None
    }
}

impl Args {
    /// Checks the mode the arguments ask for; `None` means the
    /// tag-based pipeline may run.
    pub fn mode_failure(&self) -> (r: Option<Failure>)
        ensures
            r == spec_mode_failure(*self),
    {
        if self.tag.is_some() && self.commit.is_some() {
            Some(Failure::ArgumentError)
        } else if self.tag.is_none() && self.commit.is_none() {
            Some(Failure::ArgumentError)
        } else if self.commit.is_some() {
            Some(Failure::UnsupportedMode)
        } else if self.resolve_unsigned_tag {
            Some(Failure::UnsupportedMode)
        } else {
            None
        }
    }
}

} // verus!
