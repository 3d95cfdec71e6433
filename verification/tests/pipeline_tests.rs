use auth_tarball_from_git::args::Args;
use auth_tarball_from_git::errors::{Failure, Tool};
use auth_tarball_from_git::pipeline::{Action, Event, Pipeline, Verdict};

fn tag_args() -> Args {
    Args {
        keyring: "trusted.pgp".to_string(),
        tag: Some("v1".to_string()),
        commit: None,
        resolve_unsigned_tag: false,
        prefix: None,
        name: None,
        format: "tar.gz".to_string(),
        repo: "https://example.com/repo.git".to_string(),
        tarball: "candidate.tar.gz".to_string(),
    }
}

fn signed_tag_bytes() -> Vec<u8> {
    let mut bytes: Vec<u8> = b"object 1234\ntype commit\ntag v1\n\nrelease v1\n".to_vec();
    bytes.extend_from_slice(b"-----BEGIN PGP SIGNATURE-----\n");
    bytes.extend_from_slice(b"base64\n-----END PGP SIGNATURE-----\n");
    bytes
}

#[test]
fn end_to_end_success_emits_one_success_marker() {
    let archive: Vec<u8> = b"reproducible archive bytes".to_vec();
    let (mut p, a0) = Pipeline::new(tag_args());
    match a0 {
        Action::RunClone { url, tag } => {
            assert_eq!(url, "https://example.com/repo.git");
            assert_eq!(tag, "v1");
        }
        other => panic!("expected a clone first, got {:?}", other),
    }

    let a1 = p.step(Event::CloneFinished { ok: true, status: Some(0) });
    match a1 {
        Action::ReadTagObject { tag } => assert_eq!(tag, "v1"),
        other => panic!("expected a tag read, got {:?}", other),
    }

    let bytes = signed_tag_bytes();
    let a2 = p.step(Event::TagObjectRead { bytes: bytes.clone() });
    match a2 {
        Action::RunVerifier { keyring, payload, signature } => {
            assert_eq!(keyring, "trusted.pgp");
            let mut reassembled = payload.clone();
            reassembled.extend_from_slice(&signature);
            assert_eq!(reassembled, bytes);
        }
        other => panic!("expected the verifier, got {:?}", other),
    }

    let a3 = p.step(Event::VerifierFinished { ok: true });
    match a3 {
        Action::RunArchive { prefix, tag, format } => {
            assert_eq!(prefix, "repo-v1/");
            assert_eq!(tag, "v1");
            assert_eq!(format, "tar.gz");
        }
        other => panic!("expected archive generation, got {:?}", other),
    }

    let a4 = p.step(Event::ArchiveFinished { bytes: archive.clone() });
    match a4 {
        Action::ReadCandidate { path } => assert_eq!(path, "candidate.tar.gz"),
        other => panic!("expected the candidate read, got {:?}", other),
    }

    let a5 = p.step(Event::CandidateRead { bytes: archive });
    match a5 {
        Action::Report { verdict } => assert_eq!(verdict, Verdict::Success),
        other => panic!("expected the final report, got {:?}", other),
    }
}

#[test]
fn invalid_signature_short_circuits_before_archive() {
    let (mut p, _) = Pipeline::new(tag_args());
    let _ = p.step(Event::CloneFinished { ok: true, status: Some(0) });
    let _ = p.step(Event::TagObjectRead { bytes: signed_tag_bytes() });
    let a = p.step(Event::VerifierFinished { ok: false });
    match a {
        Action::Report { verdict } => {
            assert_eq!(verdict, Verdict::Failed(Failure::SignatureInvalid));
        }
        other => panic!("expected a failure report, got {:?}", other),
    }
    assert!(!matches!(a, Action::RunArchive { .. }));
}

#[test]
fn missing_signature_is_terminal() {
    let (mut p, _) = Pipeline::new(tag_args());
    let _ = p.step(Event::CloneFinished { ok: true, status: Some(0) });
    let a = p.step(Event::TagObjectRead { bytes: b"no armor here".to_vec() });
    match a {
        Action::Report { verdict } => {
            assert_eq!(verdict, Verdict::Failed(Failure::SignatureMissing));
        }
        other => panic!("expected a failure report, got {:?}", other),
    }
}

#[test]
fn mismatch_is_the_negative_verdict() {
    let (mut p, _) = Pipeline::new(tag_args());
    let _ = p.step(Event::CloneFinished { ok: true, status: Some(0) });
    let _ = p.step(Event::TagObjectRead { bytes: signed_tag_bytes() });
    let _ = p.step(Event::VerifierFinished { ok: true });
    let _ = p.step(Event::ArchiveFinished { bytes: b"reproduced".to_vec() });
    let a = p.step(Event::CandidateRead { bytes: b"reproducedX".to_vec() });
    match a {
        Action::Report { verdict } => assert_eq!(verdict, Verdict::Failed(Failure::Mismatch)),
        other => panic!("expected a failure report, got {:?}", other),
    }
}

#[test]
fn neither_tag_nor_commit_is_an_argument_error() {
    let mut args = tag_args();
    args.tag = None;
    let (_, a) = Pipeline::new(args);
    match a {
        Action::Report { verdict } => {
            assert_eq!(verdict, Verdict::Failed(Failure::ArgumentError));
        }
        other => panic!("expected an immediate report, got {:?}", other),
    }
    assert!(!matches!(a, Action::RunClone { .. }));
}

#[test]
fn both_tag_and_commit_are_an_argument_error() {
    let mut args = tag_args();
    args.commit = Some("abc123".to_string());
    let (_, a) = Pipeline::new(args);
    match a {
        Action::Report { verdict } => {
            assert_eq!(verdict, Verdict::Failed(Failure::ArgumentError));
        }
        other => panic!("expected an immediate report, got {:?}", other),
    }
}

#[test]
fn commit_mode_is_unsupported() {
    let mut args = tag_args();
    args.tag = None;
    args.commit = Some("abc123".to_string());
    let (_, a) = Pipeline::new(args);
    match a {
        Action::Report { verdict } => {
            assert_eq!(verdict, Verdict::Failed(Failure::UnsupportedMode));
        }
        other => panic!("expected an immediate report, got {:?}", other),
    }
}

#[test]
fn unsigned_tag_resolution_is_unsupported() {
    let mut args = tag_args();
    args.resolve_unsigned_tag = true;
    let (_, a) = Pipeline::new(args);
    match a {
        Action::Report { verdict } => {
            assert_eq!(verdict, Verdict::Failed(Failure::UnsupportedMode));
        }
        other => panic!("expected an immediate report, got {:?}", other),
    }
}

#[test]
fn clone_failure_names_the_tool_and_status() {
    let (mut p, _) = Pipeline::new(tag_args());
    let a = p.step(Event::CloneFinished { ok: false, status: Some(128) });
    match a {
        Action::Report { verdict } => {
            assert_eq!(
                verdict,
                Verdict::Failed(Failure::ExternalToolFailure {
                    tool: Tool::GitClone,
                    status: Some(128),
                })
            );
        }
        other => panic!("expected a failure report, got {:?}", other),
    }
}

#[test]
fn tag_read_failure_names_the_tool() {
    let (mut p, _) = Pipeline::new(tag_args());
    let _ = p.step(Event::CloneFinished { ok: true, status: Some(0) });
    let a = p.step(Event::TagObjectFailed { status: Some(1) });
    match a {
        Action::Report { verdict } => {
            assert_eq!(
                verdict,
                Verdict::Failed(Failure::ExternalToolFailure {
                    tool: Tool::GitCatFile,
                    status: Some(1),
                })
            );
        }
        other => panic!("expected a failure report, got {:?}", other),
    }
}

#[test]
fn archive_failure_names_the_tool() {
    let (mut p, _) = Pipeline::new(tag_args());
    let _ = p.step(Event::CloneFinished { ok: true, status: Some(0) });
    let _ = p.step(Event::TagObjectRead { bytes: signed_tag_bytes() });
    let _ = p.step(Event::VerifierFinished { ok: true });
    let a = p.step(Event::ArchiveFailed { status: Some(2) });
    match a {
        Action::Report { verdict } => {
            assert_eq!(
                verdict,
                Verdict::Failed(Failure::ExternalToolFailure {
                    tool: Tool::GitArchive,
                    status: Some(2),
                })
            );
        }
        other => panic!("expected a failure report, got {:?}", other),
    }
}

#[test]
fn verifier_io_failure_is_an_io_error() {
    let (mut p, _) = Pipeline::new(tag_args());
    let _ = p.step(Event::CloneFinished { ok: true, status: Some(0) });
    let _ = p.step(Event::TagObjectRead { bytes: signed_tag_bytes() });
    let a = p.step(Event::VerifierIoFailed);
    match a {
        Action::Report { verdict } => assert_eq!(verdict, Verdict::Failed(Failure::IoError)),
        other => panic!("expected a failure report, got {:?}", other),
    }
}

#[test]
fn candidate_read_failure_is_an_io_error() {
    let (mut p, _) = Pipeline::new(tag_args());
    let _ = p.step(Event::CloneFinished { ok: true, status: Some(0) });
    let _ = p.step(Event::TagObjectRead { bytes: signed_tag_bytes() });
    let _ = p.step(Event::VerifierFinished { ok: true });
    let _ = p.step(Event::ArchiveFinished { bytes: b"reproduced".to_vec() });
    let a = p.step(Event::CandidateReadFailed);
    match a {
        Action::Report { verdict } => assert_eq!(verdict, Verdict::Failed(Failure::IoError)),
        other => panic!("expected a failure report, got {:?}", other),
    }
}

#[test]
fn supplied_prefix_reaches_the_archive_unchanged_but_normalized() {
    let mut args = tag_args();
    args.prefix = Some("custom".to_string());
    let (mut p, _) = Pipeline::new(args);
    let _ = p.step(Event::CloneFinished { ok: true, status: Some(0) });
    let _ = p.step(Event::TagObjectRead { bytes: signed_tag_bytes() });
    let a = p.step(Event::VerifierFinished { ok: true });
    match a {
        Action::RunArchive { prefix, .. } => assert_eq!(prefix, "custom/"),
        other => panic!("expected archive generation, got {:?}", other),
    }
}

#[test]
fn slashed_tag_is_slugged_in_the_prefix() {
    let mut args = tag_args();
    args.tag = Some("release/2".to_string());
    let (mut p, _) = Pipeline::new(args);
    let _ = p.step(Event::CloneFinished { ok: true, status: Some(0) });
    let _ = p.step(Event::TagObjectRead { bytes: signed_tag_bytes() });
    let a = p.step(Event::VerifierFinished { ok: true });
    match a {
        Action::RunArchive { prefix, tag, .. } => {
            assert_eq!(prefix, "repo-release-2/");
            assert_eq!(tag, "release/2");
        }
        other => panic!("expected archive generation, got {:?}", other),
    }
}
