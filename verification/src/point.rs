//! The byte layouts of curve points, on the proving side and on the pairing
//! check's side, and the transform between them.
//!
//! A point is a string of 32-byte limbs, one for each coordinate. The proving
//! side writes each coordinate least significant byte first, and a coordinate
//! of the quadratic extension as `c0` then `c1`. The pairing check reads each
//! coordinate most significant byte first, and a coordinate of the quadratic
//! extension as `c1` then `c0`.

use crate::bytes::{be_nat, le_nat, lemma_reverse_swaps_readings};
use crate::curve::{fq_modulus, g1_member, g1_on_curve, g2_member, g2_on_curve, is_canonical};
use crate::error::PointDefect;
use vstd::prelude::*;

verus! {

/// The number of bytes of a point of the first curve.
pub const G1_BYTES: usize = 64;

/// The number of bytes of a point of the second curve.
pub const G2_BYTES: usize = 128;

/// The `k`-th 32-byte limb of `s`.
pub open spec fn limb(s: Seq<u8>, k: int) -> Seq<u8> {
    s.subrange(32 * k, 32 * k + 32)
}

/// A point of the first curve moved from one layout to the other: each limb
/// reversed in place. The same transform leads back.
pub open spec fn flip_g1(s: Seq<u8>) -> Seq<u8> {
    limb(s, 0).reverse() + limb(s, 1).reverse()
}

/// A point of the second curve moved from one layout to the other: each limb
/// reversed, and the two limbs of each coordinate exchanged. The same
/// transform leads back.
pub open spec fn flip_g2(s: Seq<u8>) -> Seq<u8> {
    limb(s, 1).reverse() + limb(s, 0).reverse() + limb(s, 3).reverse() + limb(s, 2).reverse()
}

/// The coordinates `(x, y)` that the proving side's layout holds.
pub open spec fn native_g1(s: Seq<u8>) -> (nat, nat) {
    (le_nat(limb(s, 0)), le_nat(limb(s, 1)))
}

/// The coordinates `((x.c0, x.c1), (y.c0, y.c1))` that the proving side's
/// layout holds.
pub open spec fn native_g2(s: Seq<u8>) -> ((nat, nat), (nat, nat)) {
    ((le_nat(limb(s, 0)), le_nat(limb(s, 1))), (le_nat(limb(s, 2)), le_nat(limb(s, 3))))
}

/// The coordinates `(x, y)` that the pairing check reads.
pub open spec fn encoded_g1(s: Seq<u8>) -> (nat, nat) {
    (be_nat(limb(s, 0)), be_nat(limb(s, 1)))
}

/// The coordinates `((x.c0, x.c1), (y.c0, y.c1))` that the pairing check
/// reads.
pub open spec fn encoded_g2(s: Seq<u8>) -> ((nat, nat), (nat, nat)) {
    ((be_nat(limb(s, 1)), be_nat(limb(s, 0))), (be_nat(limb(s, 3)), be_nat(limb(s, 2))))
}

/// What is wrong with `s` as a point of the first curve in the proving
/// side's layout, if anything.
pub open spec fn g1_defect(s: Seq<u8>) -> Option<PointDefect> {
    let (x, y) = native_g1(s);
    if s.len() != 64 {
        Some(PointDefect::WrongLength)
    } else if x < fq_modulus() && y < fq_modulus() && g1_member(x, y) {
        None
    } else {
        Some(PointDefect::OffCurve)
    }
}

/// What is wrong with `s` as a point of the second curve in the proving
/// side's layout, if anything.
pub open spec fn g2_defect(s: Seq<u8>) -> Option<PointDefect> {
    let (x, y) = native_g2(s);
    if s.len() != 128 {
        Some(PointDefect::WrongLength)
    } else if x.0 < fq_modulus() && x.1 < fq_modulus() && y.0 < fq_modulus() && y.1
        < fq_modulus() && g2_member(x, y) {
        None
    } else {
        Some(PointDefect::OffCurve)
    }
}

/// Moving a point of the first curve to the other layout and back gives the
/// same bytes.
pub proof fn lemma_flip_g1_twice(s: Seq<u8>)
    requires
        s.len() == 64,
    ensures
        flip_g1(s).len() == 64,
        flip_g1(flip_g1(s)) == s,
{
    assert(flip_g1(flip_g1(s)) =~= s);
}

/// Moving a point of the second curve to the other layout and back gives
/// the same bytes.
pub proof fn lemma_flip_g2_twice(s: Seq<u8>)
    requires
        s.len() == 128,
    ensures
        flip_g2(s).len() == 128,
        flip_g2(flip_g2(s)) == s,
{
    assert(flip_g2(flip_g2(s)) =~= s);
}

/// The pairing check reads from the flipped bytes the coordinates that the
/// proving side wrote, for a point of the first curve.
pub proof fn lemma_flip_g1_keeps_coordinates(s: Seq<u8>)
    requires
        s.len() == 64,
    ensures
        encoded_g1(flip_g1(s)) == native_g1(s),
{
    let t = flip_g1(s);
    assert(limb(t, 0) =~= limb(s, 0).reverse());
    assert(limb(t, 1) =~= limb(s, 1).reverse());
    lemma_reverse_swaps_readings(limb(s, 0));
    lemma_reverse_swaps_readings(limb(s, 1));
}

/// The pairing check reads from the flipped bytes the coordinates that the
/// proving side wrote, for a point of the second curve.
pub proof fn lemma_flip_g2_keeps_coordinates(s: Seq<u8>)
    requires
        s.len() == 128,
    ensures
        encoded_g2(flip_g2(s)) == native_g2(s),
{
    let t = flip_g2(s);
    assert(limb(t, 0) =~= limb(s, 1).reverse());
    assert(limb(t, 1) =~= limb(s, 0).reverse());
    assert(limb(t, 2) =~= limb(s, 3).reverse());
    assert(limb(t, 3) =~= limb(s, 2).reverse());
    lemma_reverse_swaps_readings(limb(s, 0));
    lemma_reverse_swaps_readings(limb(s, 1));
    lemma_reverse_swaps_readings(limb(s, 2));
    lemma_reverse_swaps_readings(limb(s, 3));
}

/// The `k`-th limb of `bytes`.
fn limb_of(bytes: &Vec<u8>, k: usize) -> (r: [u8; 32])
    requires
        k < 4,
        32 * k + 32 <= bytes@.len(),
    ensures
        r@ == limb(bytes@, k as int),
{
    let mut r: [u8; 32] = [0u8; 32];
    let mut i: usize = 0;
    while i < 32
        invariant
            i <= 32,
            k < 4,
            32 * k + 32 <= bytes@.len(),
            forall|j: int| 0 <= j < i ==> r@[j] == bytes@[32 * k + j],
        decreases 32 - i,
    {
        r[i] = bytes[32 * k + i];
        i = i + 1;
    }
    assert(r@ =~= limb(bytes@, k as int));
    r
}

/// What is wrong with `point` as a point of the first curve in the proving
/// side's layout, if anything.
pub fn g1_point_defect(point: &Vec<u8>) -> (r: Option<PointDefect>)
    ensures
        r == g1_defect(point@),
{
    if point.len() != G1_BYTES {
        return Some(PointDefect::WrongLength);
    }
    let x = limb_of(point, 0);
    let y = limb_of(point, 1);
    if is_canonical(&x) && is_canonical(&y) && g1_on_curve(&x, &y) {
        None
    } else {
        Some(PointDefect::OffCurve)
    }
}

/// What is wrong with `point` as a point of the second curve in the proving
/// side's layout, if anything.
pub fn g2_point_defect(point: &Vec<u8>) -> (r: Option<PointDefect>)
    ensures
        r == g2_defect(point@),
{
    if point.len() != G2_BYTES {
        return Some(PointDefect::WrongLength);
    }
    let x0 = limb_of(point, 0);
    let x1 = limb_of(point, 1);
    let y0 = limb_of(point, 2);
    let y1 = limb_of(point, 3);
    if is_canonical(&x0) && is_canonical(&x1) && is_canonical(&y0) && is_canonical(&y1)
        && g2_on_curve(&x0, &x1, &y0, &y1) {
        None
    } else {
        Some(PointDefect::OffCurve)
    }
}

/// The bytes of a point of the first curve in the other layout.
pub fn flip_g1_bytes(point: &[u8; 64]) -> (r: [u8; 64])
    ensures
        r@ == flip_g1(point@),
{
    let mut r: [u8; 64] = [0u8; 64];
    let mut i: usize = 0;
    while i < 32
        invariant
            i <= 32,
            forall|j: int| 0 <= j < i ==> r@[j] == point@[31 - j],
            forall|j: int| 32 <= j < 32 + i ==> r@[j] == point@[95 - j],
        decreases 32 - i,
    {
        r[i] = point[31 - i];
        r[32 + i] = point[63 - i];
        i = i + 1;
    }
    assert(r@ =~= flip_g1(point@));
    r
}

/// The bytes of a point of the second curve in the other layout.
pub fn flip_g2_bytes(point: &[u8; 128]) -> (r: [u8; 128])
    ensures
        r@ == flip_g2(point@),
{
    let mut r: [u8; 128] = [0u8; 128];
    let mut i: usize = 0;
    while i < 64
        invariant
            i <= 64,
            forall|j: int| 0 <= j < i ==> r@[j] == point@[63 - j],
            forall|j: int| 64 <= j < 64 + i ==> r@[j] == point@[191 - j],
        decreases 64 - i,
    {
        r[i] = point[63 - i];
        r[64 + i] = point[127 - i];
        i = i + 1;
    }
    assert(r@ =~= flip_g2(point@));
    r
}

/// The bytes of `bytes` as an array.
pub(crate) fn to_array<const N: usize>(bytes: &Vec<u8>) -> (r: [u8; N])
    requires
        bytes@.len() == N,
    ensures
        r@ == bytes@,
{
    let mut r: [u8; N] = [0u8; N];
    let mut i: usize = 0;
    while i < N
        invariant
            i <= N,
            bytes@.len() == N,
            forall|j: int| 0 <= j < i ==> r@[j] == bytes@[j],
        decreases N - i,
    {
        r[i] = bytes[i];
        i = i + 1;
    }
    assert(r@ =~= bytes@);
    r
}

/// The bytes of `bytes` as a vector.
pub(crate) fn to_vec<const N: usize>(bytes: &[u8; N]) -> (r: Vec<u8>)
    ensures
        r@ == bytes@,
{
    let mut r: Vec<u8> = Vec::new();
    let mut i: usize = 0;
    while i < N
        invariant
            i <= N,
            r@ == bytes@.subrange(0, i as int),
        decreases N - i,
    {
        r.push(bytes[i]);
        assert(r@ =~= bytes@.subrange(0, i + 1));
        i = i + 1;
    }
    assert(r@ =~= bytes@);
    r
}

} // verus!
