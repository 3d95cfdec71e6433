//! The pipeline state machine.
//!
//! One run moves linearly through clone, tag read, signature check,
//! archive reproduction and comparison; every stage failure is
//! terminal, there is no retry and no partial success. The machine
//! only decides: each returned action names the external work the
//! driver must do next, and the driver feeds the result back as an
//! event. The driver never decides a verdict itself.

use vstd::prelude::*;
use vstd::pervasive::unreached;
use crate::args::{spec_mode_failure, Args};
use crate::compare::{compare_bytes, spec_compare, ComparisonOutcome};
use crate::errors::{Failure, Tool};
use crate::prefix::{derive_prefix, spec_derive_prefix, view_opt};
use crate::tag::{has_marker, spec_verification_outcome, verification_outcome, Tag,
    VerificationOutcome};

verus! {

/// The one final verdict of a run.
#[derive(Clone, Copy, PartialEq, Eq, Debug)]
pub enum Verdict {
    /// The full chain held: signature valid, archive reproduced,
    /// bytes identical.
    Success,
    /// Any other outcome.
    Failed(Failure),
}

/// External work the driver must perform next.
#[derive(Debug)]
pub enum Action {
    /// Clone the remote bare and shallow at the tag.
    RunClone { url: String, tag: String },
    /// Read the raw bytes of the annotated tag object.
    ReadTagObject { tag: String },
    /// Hand payload and signature to the external OpenPGP verifier
    /// with the keyring; only its exit status matters.
    RunVerifier { keyring: String, payload: Vec<u8>, signature: Vec<u8> },
    /// Regenerate the archive at the tag with the given prefix.
    RunArchive { prefix: String, tag: String, format: String },
    /// Read the candidate tarball.
    ReadCandidate { path: String },
    /// The run is over; report the verdict and exit.
    Report { verdict: Verdict },
}

/// What the driver reports back about the work it was asked to do.
#[derive(Debug)]
pub enum Event {
    /// The clone exited; `ok` is a zero exit status.
    CloneFinished { ok: bool, status: Option<i32> },
    /// The tag object was read in full.
    TagObjectRead { bytes: Vec<u8> },
    /// The object read exited nonzero.
    TagObjectFailed { status: Option<i32> },
    /// The verifier exited; `ok` is a zero exit status.
    VerifierFinished { ok: bool },
    /// Payload or signature could not be written out for the verifier.
    VerifierIoFailed,
    /// The archive was regenerated in full.
    ArchiveFinished { bytes: Vec<u8> },
    /// The archive generation exited nonzero.
    ArchiveFailed { status: Option<i32> },
    /// The candidate tarball was read in full.
    CandidateRead { bytes: Vec<u8> },
    /// The candidate tarball could not be read.
    CandidateReadFailed,
}

/// Where the run stands.
pub enum Phase {
    Cloning,
    ReadingTag,
    AwaitingVerifier { tag_obj: Tag },
    Archiving,
    ReadingCandidate { reproduced: Vec<u8> },
    Done { verdict: Verdict },
}

/// One run of the pipeline: the arguments and the current phase.
pub struct Pipeline {
    pub args: Args,
    pub phase: Phase,
}

/// The event reports on exactly the work the current phase waits for.
pub open spec fn event_fits(phase: Phase, event: Event) -> bool {
    match phase {
        Phase::Cloning => event matches Event::CloneFinished { .. },
        Phase::ReadingTag => event matches Event::TagObjectRead { .. } || event matches
            Event::TagObjectFailed { .. },
        Phase::AwaitingVerifier { .. } => event matches Event::VerifierFinished { .. } || event
            matches Event::VerifierIoFailed,
        Phase::Archiving => event matches Event::ArchiveFinished { .. } || event matches
            Event::ArchiveFailed { .. },
        Phase::ReadingCandidate { .. } => event matches Event::CandidateRead { .. } || event
            matches Event::CandidateReadFailed,
        Phase::Done { .. } => false,
    }
}

/// The run ended in failure `f`: the phase is terminal and the one
/// action left is to report that failure.
pub open spec fn terminal_rel(post: Pipeline, action: Action, f: Failure) -> bool {
    &&& post.phase == (Phase::Done { verdict: Verdict::Failed(f) })
    &&& action == (Action::Report { verdict: Verdict::Failed(f) })
}

/// Exactly how one step transforms the pipeline and what action it
/// yields, for every phase and event.
pub open spec fn step_rel(pre: Pipeline, event: Event, post: Pipeline, action: Action) -> bool {
    &&& post.args == pre.args
    &&& match (pre.phase, event) {
        (Phase::Cloning, Event::CloneFinished { ok, status }) => {
            if ok {
                &&& post.phase is ReadingTag
                &&& action matches Action::ReadTagObject { tag } && tag == pre.args.tag->0
            } else {
                terminal_rel(post, action, Failure::ExternalToolFailure {
                    tool: Tool::GitClone,
                    status,
                })
            }
        },
        (Phase::ReadingTag, Event::TagObjectRead { bytes }) => {
            if has_marker(bytes@) {
                &&& post.phase matches Phase::AwaitingVerifier { tag_obj }
                    && tag_obj.wf()
                    && tag_obj.spec_data() == bytes@
                    && (action matches Action::RunVerifier { keyring, payload, signature }
                        && keyring == pre.args.keyring
                        && payload@ == tag_obj.spec_payload()
                        && Some(signature@) == tag_obj.spec_sig())
            } else {
                terminal_rel(post, action, Failure::SignatureMissing)
            }
        },
        (Phase::ReadingTag, Event::TagObjectFailed { status }) => terminal_rel(
            post,
            action,
            Failure::ExternalToolFailure { tool: Tool::GitCatFile, status },
        ),
        (Phase::AwaitingVerifier { tag_obj }, Event::VerifierFinished { ok }) => {
            match spec_verification_outcome(tag_obj, ok) {
                VerificationOutcome::SignatureValid => {
                    &&& post.phase is Archiving
                    &&& action matches Action::RunArchive { prefix, tag, format }
                        && prefix@ == spec_derive_prefix(
                            view_opt(pre.args.prefix),
                            view_opt(pre.args.name),
                            pre.args.repo@,
                            pre.args.tag->0@,
                        )
                        && tag == pre.args.tag->0
                        && format == pre.args.format
                },
                VerificationOutcome::SignatureInvalid => terminal_rel(
                    post,
                    action,
                    Failure::SignatureInvalid,
                ),
                VerificationOutcome::SignatureMissing => terminal_rel(
                    post,
                    action,
                    Failure::SignatureMissing,
                ),
            }
        },
        (Phase::AwaitingVerifier { .. }, Event::VerifierIoFailed) => terminal_rel(
            post,
            action,
            Failure::IoError,
        ),
        (Phase::Archiving, Event::ArchiveFinished { bytes }) => {
            &&& post.phase matches Phase::ReadingCandidate { reproduced } && reproduced@ == bytes@
            &&& action matches Action::ReadCandidate { path } && path == pre.args.tarball
        },
        (Phase::Archiving, Event::ArchiveFailed { status }) => terminal_rel(
            post,
            action,
            Failure::ExternalToolFailure { tool: Tool::GitArchive, status },
        ),
        (Phase::ReadingCandidate { reproduced }, Event::CandidateRead { bytes }) => {
            if spec_compare(bytes@, reproduced@) == ComparisonOutcome::Match {
                &&& post.phase == (Phase::Done { verdict: Verdict::Success })
                &&& action == (Action::Report { verdict: Verdict::Success })
            } else {
                terminal_rel(post, action, Failure::Mismatch)
            }
        },
        (Phase::ReadingCandidate { .. }, Event::CandidateReadFailed) => terminal_rel(
            post,
            action,
            Failure::IoError,
        ),
        _ => false,
    }
}

/// Exactly what starting a run yields: rejected arguments end it at
/// once with their failure, before any clone; accepted arguments ask
/// for the clone first.
pub open spec fn new_rel(args: Args, p: Pipeline, action: Action) -> bool {
    &&& p.args == args
    &&& match spec_mode_failure(args) {
        Some(f) => terminal_rel(p, action, f),
        None => {
            &&& p.phase is Cloning
            &&& action matches Action::RunClone { url, tag } && url == args.repo && tag
                == args.tag->0
        },
    }
}

impl Pipeline {
    /// The phase is consistent with the arguments: a run that is not
    /// yet done holds accepted arguments (so the tag is present), and
    /// a run awaiting the verifier holds a well-formed tag object with
    /// a signature region.
    pub open spec fn wf(&self) -> bool {
        match self.phase {
            Phase::Done { .. } => true,
            Phase::AwaitingVerifier { tag_obj } => {
                &&& spec_mode_failure(self.args) is None
                &&& tag_obj.wf()
                &&& tag_obj.spec_sig() is Some
            },
            _ => spec_mode_failure(self.args) is None,
        }
    }

    /// Starts a run: validates the arguments and, when they are
    /// accepted, asks the driver for the clone.
    pub fn new(args: Args) -> (r: (Pipeline, Action))
        ensures
            r.0.wf(),
            new_rel(args, r.0, r.1),
    {
        match args.mode_failure() {
            Some(f) => {
                let p = Pipeline { args, phase: Phase::Done { verdict: Verdict::Failed(f) } };
                (p, Action::Report { verdict: Verdict::Failed(f) })
            },
            None => {
                let url = args.repo.clone();
                let t = if let Some(t) = &args.tag {
                    t.clone()
                } else {
                    unreached()
                };
                let p = Pipeline { args, phase: Phase::Cloning };
                (p, Action::RunClone { url, tag: t })
            },
        }
    }

    /// Ends the run with failure `f`.
    fn fail(&mut self, f: Failure) -> (action: Action)
        ensures
            final(self).args == old(self).args,
            terminal_rel(*final(self), action, f),
            final(self).wf(),
    {
        self.phase = Phase::Done { verdict: Verdict::Failed(f) };
        Action::Report { verdict: Verdict::Failed(f) }
    }

    /// Feeds the result of the last asked action back and decides the
    /// next one. Fail-closed: every ambiguous or failing event ends
    /// the run with a failing verdict.
    pub fn step(&mut self, event: Event) -> (action: Action)
        requires
            old(self).wf(),
            event_fits(old(self).phase, event),
        ensures
            final(self).wf(),
            step_rel(*old(self), event, *final(self), action),
    {
        match event {
            Event::CloneFinished { ok, status } => {
                if ok {
                    let t = if let Some(t) = &self.args.tag {
                        t.clone()
                    } else {
                        unreached()
                    };
                    self.phase = Phase::ReadingTag;
                    Action::ReadTagObject { tag: t }
                } else {
                    self.fail(Failure::ExternalToolFailure { tool: Tool::GitClone, status })
                }
            },
            Event::TagObjectRead { bytes } => {
                let t = Tag::from_bytes(bytes);
                if t.has_signature() {
                    let payload = vstd::slice::slice_to_vec(t.data());
                    let signature = match t.sig() {
                        Some(s) => vstd::slice::slice_to_vec(s),
                        None => unreached(),
                    };
                    let keyring = self.args.keyring.clone();
                    self.phase = Phase::AwaitingVerifier { tag_obj: t };
                    Action::RunVerifier { keyring, payload, signature }
                } else {
                    self.fail(Failure::SignatureMissing)
                }
            },
            Event::TagObjectFailed { status } => self.fail(Failure::ExternalToolFailure {
                tool: Tool::GitCatFile,
                status,
            }),
            Event::VerifierFinished { ok } => {
                let outcome = match &self.phase {
                    Phase::AwaitingVerifier { tag_obj } => verification_outcome(tag_obj, ok),
                    _ => unreached(),
                };
                match outcome {
                    VerificationOutcome::SignatureValid => {
                        let t = if let Some(t) = &self.args.tag {
                            t.clone()
                        } else {
                            unreached()
                        };
                        let prefix = derive_prefix(
                            &self.args.prefix,
                            &self.args.name,
                            self.args.repo.as_str(),
                            t.as_str(),
                        );
                        let format = self.args.format.clone();
                        self.phase = Phase::Archiving;
                        Action::RunArchive { prefix, tag: t, format }
                    },
                    VerificationOutcome::SignatureInvalid => self.fail(Failure::SignatureInvalid),
                    VerificationOutcome::SignatureMissing => self.fail(Failure::SignatureMissing),
                }
            },
            Event::VerifierIoFailed => self.fail(Failure::IoError),
            Event::ArchiveFinished { bytes } => {
                let path = self.args.tarball.clone();
                self.phase = Phase::ReadingCandidate { reproduced: bytes };
                Action::ReadCandidate { path }
            },
            Event::ArchiveFailed { status } => self.fail(Failure::ExternalToolFailure {
                tool: Tool::GitArchive,
                status,
            }),
            Event::CandidateRead { bytes } => {
                let outcome = match &self.phase {
                    Phase::ReadingCandidate { reproduced } => compare_bytes(&bytes, reproduced),
                    _ => unreached(),
                };
                match outcome {
                    ComparisonOutcome::Match => {
                        self.phase = Phase::Done { verdict: Verdict::Success };
                        Action::Report { verdict: Verdict::Success }
                    },
                    ComparisonOutcome::Mismatch => self.fail(Failure::Mismatch),
                }
            },
            Event::CandidateReadFailed => self.fail(Failure::IoError),
        }
    }
}

/// Argument validation: with neither tag nor commit the run reports an
/// argument error at once, and in particular never asks for a clone.
pub proof fn lemma_argument_validation(args: Args, p: Pipeline, action: Action)
    requires
        new_rel(args, p, action),
        args.tag is None,
        args.commit is None,
    ensures
        action == (Action::Report { verdict: Verdict::Failed(Failure::ArgumentError) }),
        !(action matches Action::RunClone { .. }),
{
}

/// A rejected signature is terminal: the step reports the invalid
/// signature and never asks for archive generation, so the archive
/// stage is short-circuited.
pub proof fn lemma_invalid_signature_short_circuit(
    pre: Pipeline,
    event: Event,
    post: Pipeline,
    action: Action,
)
    requires
        pre.wf(),
        pre.phase matches Phase::AwaitingVerifier { .. },
        event matches Event::VerifierFinished { ok: false },
        step_rel(pre, event, post, action),
    ensures
        action == (Action::Report { verdict: Verdict::Failed(Failure::SignatureInvalid) }),
        !(action matches Action::RunArchive { .. }),
        post.phase is Done,
{
}

/// Success is only ever reported from the comparison stage, and only
/// when the candidate bytes equal the reproduced bytes exactly.
pub proof fn lemma_success_only_on_match(pre: Pipeline, event: Event, post: Pipeline, action: Action)
    requires
        step_rel(pre, event, post, action),
        action == (Action::Report { verdict: Verdict::Success }),
    ensures
        match (pre.phase, event) {
            (Phase::ReadingCandidate { reproduced }, Event::CandidateRead { bytes }) => bytes@
                == reproduced@,
            _ => false,
        },
{
}

} // verus!
