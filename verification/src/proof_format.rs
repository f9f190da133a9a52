//! The proof in its two encodings, and the converter between them.
//!
//! A proof is three curve points: A and C on the first curve, B on the
//! second. [`ProofNative`] holds them as the proving side writes them,
//! [`ProofEncoded`] as the pairing check reads them. [`encode`] is the only
//! way to an encoded proof, and it refuses points that are not on their
//! curve: every `ProofEncoded` value is the encoding of three curve points.

use crate::error::{CircuitError, PointDefect, ProofPoint};
use crate::point::{
    encoded_g1, encoded_g2, flip_g1, flip_g1_bytes, flip_g2, flip_g2_bytes, g1_defect,
    g1_point_defect, g2_defect, g2_point_defect, lemma_flip_g1_keeps_coordinates,
    lemma_flip_g1_twice, lemma_flip_g2_keeps_coordinates, lemma_flip_g2_twice, native_g1,
    native_g2, to_array, to_vec,
};
use vstd::prelude::*;

verus! {

/// The bytes of a proof's three points, in either encoding.
pub struct ProofBytes {
    pub a: Seq<u8>,
    pub b: Seq<u8>,
    pub c: Seq<u8>,
}

/// A proof as the proving side writes it: for each point its coordinates in
/// turn, each as 32 bytes, least significant byte first. The points are
/// those that the pairing check is to read: the converter changes the bytes
/// of a point and never the point, so whatever the equation of the pairing
/// check asks of a point, its sign too, is the prover's to meet.
#[derive(Clone, Debug, PartialEq, Eq)]
pub struct ProofNative {
    pub a: Vec<u8>,
    pub b: Vec<u8>,
    pub c: Vec<u8>,
}

/// A proof as the pairing check reads it: 64 bytes for A, 128 for B, 64 for
/// C, each coordinate most significant byte first.
#[derive(Clone, Copy, Debug, PartialEq, Eq)]
pub struct ProofEncoded {
    a: [u8; 64],
    b: [u8; 128],
    c: [u8; 64],
}

impl View for ProofNative {
    type V = ProofBytes;

    open spec fn view(&self) -> ProofBytes {
        ProofBytes { a: self.a@, b: self.b@, c: self.c@ }
    }
}

impl View for ProofEncoded {
    type V = ProofBytes;

    closed spec fn view(&self) -> ProofBytes {
        ProofBytes { a: self.a@, b: self.b@, c: self.c@ }
    }
}

/// The proof's bytes in the other encoding. The same transform leads back.
pub open spec fn flip(p: ProofBytes) -> ProofBytes {
    ProofBytes { a: flip_g1(p.a), b: flip_g2(p.b), c: flip_g1(p.c) }
}

/// The first point of a native proof that is malformed, in the order A, B,
/// C, with what is wrong with it.
pub open spec fn first_defect(p: ProofBytes) -> Option<(ProofPoint, PointDefect)> {
    if g1_defect(p.a) is Some {
        Some((ProofPoint::A, g1_defect(p.a).unwrap()))
    } else if g2_defect(p.b) is Some {
        Some((ProofPoint::B, g2_defect(p.b).unwrap()))
    } else if g1_defect(p.c) is Some {
        Some((ProofPoint::C, g1_defect(p.c).unwrap()))
    } else {
        None
    }
}

/// What encoding a native proof gives: the flipped bytes, or the error that
/// names its first malformed point.
pub open spec fn encode_outcome(p: ProofBytes) -> Result<ProofBytes, CircuitError> {
    match first_defect(p) {
        Some((point, defect)) => Err(CircuitError::Encoding { point, defect }),
        None => Ok(flip(p)),
    }
}

/// What decoding an encoded proof gives.
pub open spec fn decode_outcome(e: ProofBytes) -> ProofBytes {
    flip(e)
}

/// Decoding what encoding gave reproduces the native proof, byte for byte.
pub proof fn lemma_decode_inverts_encode(p: ProofBytes, e: ProofBytes)
    requires
        encode_outcome(p) == Ok::<ProofBytes, CircuitError>(e),
    ensures
        decode_outcome(e) == p,
{
    lemma_flip_g1_twice(p.a);
    lemma_flip_g2_twice(p.b);
    lemma_flip_g1_twice(p.c);
}

/// The pairing check reads from an encoded proof the coordinates that the
/// proving side wrote.
pub proof fn lemma_encode_keeps_coordinates(p: ProofBytes, e: ProofBytes)
    requires
        encode_outcome(p) == Ok::<ProofBytes, CircuitError>(e),
    ensures
        encoded_g1(e.a) == native_g1(p.a),
        encoded_g2(e.b) == native_g2(p.b),
        encoded_g1(e.c) == native_g1(p.c),
{
    lemma_flip_g1_keeps_coordinates(p.a);
    lemma_flip_g2_keeps_coordinates(p.b);
    lemma_flip_g1_keeps_coordinates(p.c);
}

impl ProofEncoded {
    /// Every encoded proof is the encoding of three curve points.
    #[verifier::type_invariant]
    spec fn is_encoding(self) -> bool {
        first_defect(flip(self@)) is None
    }

    /// The 64 bytes of A.
    pub fn a(&self) -> (r: [u8; 64])
        ensures
            r@ == self@.a,
    {
        self.a
    }

    /// The 128 bytes of B.
    pub fn b(&self) -> (r: [u8; 128])
        ensures
            r@ == self@.b,
    {
        self.b
    }

    /// The 64 bytes of C.
    pub fn c(&self) -> (r: [u8; 64])
        ensures
            r@ == self@.c,
    {
        self.c
    }

    /// The 256 bytes handed to the pairing check: A, then B, then C.
    pub fn to_bytes(&self) -> (r: [u8; 256])
        ensures
            r@ == self@.a + self@.b + self@.c,
    {
        let mut r: [u8; 256] = [0u8; 256];
        let mut i: usize = 0;
        while i < 64
            invariant
                i <= 64,
                forall|j: int| 0 <= j < i ==> r@[j] == self.a@[j],
                forall|j: int| 192 <= j < 192 + i ==> r@[j] == self.c@[j - 192],
            decreases 64 - i,
        {
            r[i] = self.a[i];
            r[192 + i] = self.c[i];
            i = i + 1;
        }
        let mut k: usize = 0;
        while k < 128
            invariant
                k <= 128,
                forall|j: int| 0 <= j < 64 ==> r@[j] == self.a@[j],
                forall|j: int| 192 <= j < 256 ==> r@[j] == self.c@[j - 192],
                forall|j: int| 64 <= j < 64 + k ==> r@[j] == self.b@[j - 64],
            decreases 128 - k,
        {
            r[64 + k] = self.b[k];
            k = k + 1;
        }
        assert(r@ =~= self@.a + self@.b + self@.c);
        r
    }
}

/// Whether `r` is what encoding the native proof `p` gives.
pub open spec fn is_encoded(p: ProofBytes, r: Result<ProofEncoded, CircuitError>) -> bool {
    match r {
        Ok(e) => encode_outcome(p) == Ok::<ProofBytes, CircuitError>(e@),
        Err(err) => encode_outcome(p) == Err::<ProofBytes, CircuitError>(err),
    }
}

/// Encoding the same native proof twice gives the same encoded bytes, or the
/// same error: nothing but the proof's bytes enters the conversion.
pub proof fn lemma_encode_is_deterministic(
    p: ProofBytes,
    first: Result<ProofEncoded, CircuitError>,
    second: Result<ProofEncoded, CircuitError>,
)
    requires
        is_encoded(p, first),
        is_encoded(p, second),
    ensures
        first is Ok <==> second is Ok,
        first is Ok ==> first->Ok_0@ == second->Ok_0@,
        first is Err ==> first->Err_0 == second->Err_0,
{
}

/// Encodes a native proof for the pairing check. Fails on the first point,
/// in the order A, B, C, whose bytes are not of its curve's length or whose
/// coordinates are not a point of its curve; otherwise reverses the bytes of
/// each coordinate and, in B, exchanges the two halves of each coordinate.
pub fn encode(proof: &ProofNative) -> (r: Result<ProofEncoded, CircuitError>)
    ensures
        is_encoded(proof@, r),
{
    if let Some(defect) = g1_point_defect(&proof.a) {
        return Err(CircuitError::Encoding { point: ProofPoint::A, defect });
    }
    if let Some(defect) = g2_point_defect(&proof.b) {
        return Err(CircuitError::Encoding { point: ProofPoint::B, defect });
    }
    if let Some(defect) = g1_point_defect(&proof.c) {
        return Err(CircuitError::Encoding { point: ProofPoint::C, defect });
    }
    proof {
        lemma_flip_g1_twice(proof.a@);
        lemma_flip_g2_twice(proof.b@);
        lemma_flip_g1_twice(proof.c@);
    }
    Ok(
        ProofEncoded {
            a: flip_g1_bytes(&to_array(&proof.a)),
            b: flip_g2_bytes(&to_array(&proof.b)),
            c: flip_g1_bytes(&to_array(&proof.c)),
        },
    )
}

/// Decodes an encoded proof: the inverse of [`encode`]. What comes out
/// encodes to `encoded` again.
pub fn decode(encoded: &ProofEncoded) -> (r: ProofNative)
    ensures
        r@ == decode_outcome(encoded@),
        encode_outcome(r@) == Ok::<ProofBytes, CircuitError>(encoded@),
{
    proof {
        use_type_invariant(encoded);
        lemma_flip_g1_twice(encoded.a@);
        lemma_flip_g2_twice(encoded.b@);
        lemma_flip_g1_twice(encoded.c@);
    }
    ProofNative {
        a: to_vec(&flip_g1_bytes(&encoded.a)),
        b: to_vec(&flip_g2_bytes(&encoded.b)),
        c: to_vec(&flip_g1_bytes(&encoded.c)),
    }
}

} // verus!
