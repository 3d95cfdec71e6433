//! Verification of a release tarball against a signed git tag.
//!
//! The library holds the decision logic of the pipeline: splitting a raw
//! tag object into signed payload and detached signature, interpreting the
//! external signature verifier's exit status, deriving the deterministic
//! archive prefix, comparing candidate and reproduced archive bytes, and
//! the pipeline state machine that ties the stages together. All process
//! and file work (git, the OpenPGP verifier, temporary files) is done by
//! the driver around the library, which feeds results back as events.

pub mod args;
pub mod compare;
pub mod errors;
pub mod pipeline;
pub mod prefix;
pub mod tag;
