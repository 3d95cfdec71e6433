use auth_tarball_from_git::compare::{compare_bytes, ComparisonOutcome};

#[test]
fn identical_bytes_match() {
    let a: Vec<u8> = b"tarball contents".to_vec();
    let b = a.clone();
    assert_eq!(compare_bytes(&a, &b), ComparisonOutcome::Match);
}

#[test]
fn empty_sequences_match() {
    let a: Vec<u8> = Vec::new();
    let b: Vec<u8> = Vec::new();
    assert_eq!(compare_bytes(&a, &b), ComparisonOutcome::Match);
}

#[test]
fn single_byte_difference_in_middle_mismatches() {
    let a: Vec<u8> = b"abcdef".to_vec();
    let mut b = a.clone();
    b[3] ^= 1;
    assert_eq!(compare_bytes(&a, &b), ComparisonOutcome::Mismatch);
}

#[test]
fn trailing_byte_difference_mismatches() {
    let a: Vec<u8> = b"abcdef".to_vec();
    let mut b = a.clone();
    let last = b.len() - 1;
    b[last] = b'x';
    assert_eq!(compare_bytes(&a, &b), ComparisonOutcome::Mismatch);
}

#[test]
fn extra_trailing_byte_mismatches() {
    let a: Vec<u8> = b"abcdef".to_vec();
    let mut b = a.clone();
    b.push(0);
    assert_eq!(compare_bytes(&a, &b), ComparisonOutcome::Mismatch);
    assert_eq!(compare_bytes(&b, &a), ComparisonOutcome::Mismatch);
}

#[test]
fn first_byte_difference_mismatches() {
    let a: Vec<u8> = vec![0u8, 1, 2];
    let b: Vec<u8> = vec![255u8, 1, 2];
    assert_eq!(compare_bytes(&a, &b), ComparisonOutcome::Mismatch);
}
