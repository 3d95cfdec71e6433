//! The annotated tag object: raw bytes plus the derived split point.
//!
//! The split point is the first occurrence of the armor marker line that
//! begins an ASCII-armored OpenPGP signature block. Everything before it
//! is the signed payload, everything from it onward (later markers
//! included) is the detached signature. No normalization is applied to
//! the search. An absent marker is the distinct "no signature" state,
//! never collapsed into "signature present but invalid".

use vstd::prelude::*;

verus! {

/// The literal ASCII marker that begins an armored signature block:
/// `-----BEGIN PGP SIGNATURE-----` followed by a newline.
pub open spec fn armor_marker() -> Seq<u8> {
    seq![
        45u8, 45u8, 45u8, 45u8, 45u8,
        66u8, 69u8, 71u8, 73u8, 78u8,
        32u8,
        80u8, 71u8, 80u8,
        32u8,
        83u8, 73u8, 71u8, 78u8, 65u8, 84u8, 85u8, 82u8, 69u8,
        45u8, 45u8, 45u8, 45u8, 45u8,
        10u8,
    ]
}

/// The marker occurs in `data` starting at index `i`.
pub open spec fn marker_at(data: Seq<u8>, i: int) -> bool {
    0 <= i
    && i + armor_marker().len() <= data.len()
    && data.subrange(i, i + armor_marker().len() as int) == armor_marker()
}

/// The marker occurs somewhere in `data`.
pub open spec fn has_marker(data: Seq<u8>) -> bool {
    exists|i: int| marker_at(data, i)
}

/// The marker bytes as an executable value.
fn armor_marker_bytes() -> (r: Vec<u8>)
    ensures
        r@ == armor_marker(),
{
    let r: Vec<u8> = vec![
        45u8, 45u8, 45u8, 45u8, 45u8,
        66u8, 69u8, 71u8, 73u8, 78u8,
        32u8,
        80u8, 71u8, 80u8,
        32u8,
        83u8, 73u8, 71u8, 78u8, 65u8, 84u8, 85u8, 82u8, 69u8,
        45u8, 45u8, 45u8, 45u8, 45u8,
        10u8,
    ];
    proof {
        assert(r@ =~= armor_marker());
    }
    r
}

/// Does `data` hold the whole of `marker` starting at index `i`?
fn bytes_match_at(data: &Vec<u8>, i: usize, marker: &Vec<u8>) -> (r: bool)
    requires
        marker@ == armor_marker(),
        i + marker@.len() <= data@.len(),
    ensures
        r == marker_at(data@, i as int),
{
    let dn = data.len();
    let mn = marker.len();
    let mut k: usize = 0;
    while k < mn
        invariant
            marker@ == armor_marker(),
            i + marker@.len() <= data@.len(),
            dn == data@.len(),
            mn == marker@.len(),
            k <= mn,
            forall|j: int| 0 <= j < k ==> data@[i + j] == marker@[j],
        decreases mn - k,
    {
        if data[i + k] != marker[k] {
            proof {
                assert(data@.subrange(i as int, i + armor_marker().len() as int)[k as int]
                    != armor_marker()[k as int]);
            }
            return false;
        }
        k += 1;
    }
    proof {
        assert(data@.subrange(i as int, i + armor_marker().len() as int) =~= armor_marker());
    }
    true
}

/// Index of the first occurrence of the armor marker in `data`, if any.
pub fn find_marker(data: &Vec<u8>) -> (r: Option<usize>)
    ensures
        match r {
            Some(p) => marker_at(data@, p as int)
                && forall|j: int| 0 <= j < p ==> !marker_at(data@, j),
            None => !has_marker(data@),
        },
{
    let marker = armor_marker_bytes();
    if data.len() < marker.len() {
        return None;
    }
    let n = data.len();
    let last_start = n - marker.len();
    let mut i: usize = 0;
    while i <= last_start
        invariant
            marker@ == armor_marker(),
            marker@.len() <= data@.len(),
            n == data@.len(),
            last_start == n - marker@.len(),
            i <= last_start + 1,
            forall|j: int| 0 <= j < i ==> !marker_at(data@, j),
        decreases last_start + 1 - i,
    {
        if bytes_match_at(data, i, &marker) {
            return Some(i);
        }
        i += 1;
    }
    proof {
        assert forall|j: int| !marker_at(data@, j) by {
            if j > last_start {
                assert(!marker_at(data@, j));
            }
        }
    }
    None
}

/// The outcome of signature verification: a missing signature is its
/// own state, distinct from a signature the verifier rejected.
#[derive(Clone, Copy, PartialEq, Eq, Structural, Debug)]
pub enum VerificationOutcome {
    SignatureValid,
    SignatureInvalid,
    SignatureMissing,
}

/// Raw bytes of an annotated tag object together with the derived
/// split point between signed payload and detached signature.
pub struct Tag {
    data: Vec<u8>,
    sig_pos: Option<usize>,
}

impl Tag {
    /// The raw bytes the tag was built from.
    pub closed spec fn spec_data(&self) -> Seq<u8> {
        self.data@
    }

    /// The derived split point.
    pub closed spec fn spec_sig_pos(&self) -> Option<usize> {
        self.sig_pos
    }

    /// The split point is the first marker occurrence, or absent when
    /// the bytes hold no marker at all.
    pub open spec fn wf(&self) -> bool {
        match self.spec_sig_pos() {
            Some(p) => marker_at(self.spec_data(), p as int)
                && forall|j: int| 0 <= j < p ==> !marker_at(self.spec_data(), j),
            None => !has_marker(self.spec_data()),
        }
    }

    /// The signed payload: everything before the split point, or the
    /// whole object when no signature is present.
    pub open spec fn spec_payload(&self) -> Seq<u8> {
        match self.spec_sig_pos() {
            Some(p) => self.spec_data().subrange(0, p as int),
            None => self.spec_data(),
        }
    }

    /// The detached signature region: everything from the split point
    /// to the end, when a signature is present.
    pub open spec fn spec_sig(&self) -> Option<Seq<u8>> {
        match self.spec_sig_pos() {
            Some(p) => Some(self.spec_data().subrange(p as int, self.spec_data().len() as int)),
            None => None,
        }
    }

    /// Splits raw tag bytes at the first armor marker. Structure is not
    /// validated: bytes without a marker simply carry no signature.
    pub fn from_bytes(data: Vec<u8>) -> (t: Tag)
        ensures
            t.wf(),
            t.spec_data() == data@,
    {
        let pos = find_marker(&data);
        Tag { data, sig_pos: pos }
    }

    /// The signed payload bytes.
    pub fn data(&self) -> (r: &[u8])
        requires
            self.wf(),
        ensures
            r@ == self.spec_payload(),
    {
        if let Some(pos) = self.sig_pos {
            vstd::slice::slice_subrange(self.data.as_slice(), 0, pos)
        } else {
            self.data.as_slice()
        }
    }

    /// The detached signature bytes, when a marker was found.
    pub fn sig(&self) -> (r: Option<&[u8]>)
        requires
            self.wf(),
        ensures
            match r {
                Some(s) => self.spec_sig() == Some(s@),
                None => self.spec_sig() is None,
            },
    {
        if let Some(pos) = self.sig_pos {
            Some(vstd::slice::slice_subrange(self.data.as_slice(), pos, self.data.len()))
        } else {
            None
        }
    }

    /// Whether a signature region was found.
    pub fn has_signature(&self) -> (r: bool)
        requires
            self.wf(),
        ensures
            r == (self.spec_sig() is Some),
            r == has_marker(self.spec_data()),
    {
        proof {
            if self.spec_sig_pos() is Some {
                assert(marker_at(self.spec_data(), self.spec_sig_pos()->0 as int));
            }
        }
        self.sig_pos.is_some()
    }
}

/// What the verification outcome must be, given the tag and the
/// external verifier's exit report. A missing signature decides the
/// outcome on its own: the verifier is never consulted for it.
pub open spec fn spec_verification_outcome(t: Tag, verifier_exit_ok: bool) -> VerificationOutcome {
    if t.spec_sig() is None {
        VerificationOutcome::SignatureMissing
    } else if verifier_exit_ok {
        VerificationOutcome::SignatureValid
    } else {
        VerificationOutcome::SignatureInvalid
    }
}

/// Turns the tag's signature state and the external verifier's exit
/// status into the verification outcome: zero exit is `SignatureValid`,
/// any nonzero exit is `SignatureInvalid`, and a tag without a
/// signature is `SignatureMissing` whatever the flag says.
pub fn verification_outcome(t: &Tag, verifier_exit_ok: bool) -> (r: VerificationOutcome)
    requires
        t.wf(),
    ensures
        r == spec_verification_outcome(*t, verifier_exit_ok),
{
    if t.sig_pos.is_none() {
        VerificationOutcome::SignatureMissing
    } else if verifier_exit_ok {
        VerificationOutcome::SignatureValid
    } else {
        VerificationOutcome::SignatureInvalid
    }
}

/// Split/reassembly: when a signature is present, payload and signature
/// concatenate back to the original bytes exactly, no byte dropped or
/// duplicated; without one, the payload alone is the original bytes.
pub proof fn lemma_split_reassembly(t: Tag)
    requires
        t.wf(),
    ensures
        match t.spec_sig() {
            Some(s) => t.spec_payload() + s == t.spec_data(),
            None => t.spec_payload() == t.spec_data(),
        },
{
    if let Some(p) = t.spec_sig_pos() {
        assert(t.spec_payload() + t.spec_sig()->0 =~= t.spec_data());
    }
}

/// Splitting is deterministic: two well-formed tags over the same bytes
/// agree on the split point, the payload and the signature, so repeated
/// splits of identical input are idempotent.
pub proof fn lemma_split_deterministic(t1: Tag, t2: Tag)
    requires
        t1.wf(),
        t2.wf(),
        t1.spec_data() == t2.spec_data(),
    ensures
        t1.spec_sig_pos() == t2.spec_sig_pos(),
        t1.spec_payload() == t2.spec_payload(),
        t1.spec_sig() == t2.spec_sig(),
{
    match (t1.spec_sig_pos(), t2.spec_sig_pos()) {
        (Some(p1), Some(p2)) => {
            if p1 < p2 {
                assert(!marker_at(t2.spec_data(), p1 as int));
                assert(false);
            }
            if p2 < p1 {
                assert(!marker_at(t1.spec_data(), p2 as int));
                assert(false);
            }
        },
        (Some(p1), None) => {
            assert(marker_at(t2.spec_data(), p1 as int));
            assert(false);
        },
        (None, Some(p2)) => {
            assert(marker_at(t1.spec_data(), p2 as int));
            assert(false);
        },
        (None, None) => {},
    }
}

/// Missing-signature fail-closed: bytes without the armor marker always
/// yield `SignatureMissing`, never a passing verdict, whatever the
/// external verifier's exit flag would have said.
pub proof fn lemma_missing_signature_fail_closed(t: Tag, verifier_exit_ok: bool)
    requires
        t.wf(),
        !has_marker(t.spec_data()),
    ensures
        spec_verification_outcome(t, verifier_exit_ok) == VerificationOutcome::SignatureMissing,
        spec_verification_outcome(t, verifier_exit_ok) != VerificationOutcome::SignatureValid,
{
    if let Some(p) = t.spec_sig_pos() {
        assert(marker_at(t.spec_data(), p as int));
        assert(false);
    }
}

} // verus!
