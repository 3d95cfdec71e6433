//! Exact byte comparison between the candidate archive and the
//! reproduced archive. The comparison is full-content equality: no
//! length or hash shortcut stands in for it.

use vstd::prelude::*;

verus! {

/// The final verdict of comparing the candidate bytes against the
/// reproduced bytes.
#[derive(Clone, Copy, PartialEq, Eq, Structural, Debug)]
pub enum ComparisonOutcome {
    Match,
    Mismatch,
}

/// What the comparison of two byte sequences must yield.
pub open spec fn spec_compare(a: Seq<u8>, b: Seq<u8>) -> ComparisonOutcome {
    if a == b {
        ComparisonOutcome::Match
    } else {
        ComparisonOutcome::Mismatch
    }
}

/// Compares the two byte sequences in full; `Match` exactly when they
/// are equal, byte for byte and in length.
pub fn compare_bytes(a: &Vec<u8>, b: &Vec<u8>) -> (r: ComparisonOutcome)
    ensures
        r == spec_compare(a@, b@),
        r == ComparisonOutcome::Match <==> a@ == b@,
{
    if a.len() != b.len() {
        return ComparisonOutcome::Mismatch;
    }
    let n = a.len();
    let mut i: usize = 0;
    while i < n
        invariant
            n == a.len() == b.len(),
            i <= n,
            forall|j: int| 0 <= j < i ==> a@[j] == b@[j],
        decreases n - i,
    {
        if a[i] != b[i] {
            return ComparisonOutcome::Mismatch;
        }
        i += 1;
    }
    proof {
        assert(a@ =~= b@);
    }
    ComparisonOutcome::Match
}

/// A single differing byte anywhere, the trailing position included,
/// forces a `Mismatch`.
pub proof fn lemma_single_byte_difference(a: Seq<u8>, b: Seq<u8>, i: int)
    requires
        a.len() == b.len(),
        0 <= i < a.len(),
        a[i] != b[i],
    ensures
        spec_compare(a, b) == ComparisonOutcome::Mismatch,
{
}

/// Byte sequences of unequal length never compare as `Match`; in
/// particular a candidate that differs only by one trailing byte is a
/// `Mismatch`.
pub proof fn lemma_length_difference(a: Seq<u8>, b: Seq<u8>)
    requires
        a.len() != b.len(),
    ensures
        spec_compare(a, b) == ComparisonOutcome::Mismatch,
{
}

/// Two empty sequences count as a `Match`.
pub proof fn lemma_empty_match()
    ensures
        spec_compare(Seq::<u8>::empty(), Seq::<u8>::empty()) == ComparisonOutcome::Match,
{
}

} // verus!
