//! The two curves that a proof's points lie on, and the test that a pair of
//! coordinates is a point of one of them.
//!
//! Coordinates are numbers below the base field's modulus. A point of the
//! first curve has two of them; a point of the second has two pairs, each pair
//! `(c0, c1)` standing for `c0 + c1 * u` in the quadratic extension where
//! `u * u = -1`. In both, all coordinates zero stands for the point at
//! infinity, which counts as a point.

use crate::bytes::{le_from, le_less, le_nat};
use ark_bn254::{Fq, Fq2, G1Affine, G2Affine};
use ark_ff::PrimeField;
use vstd::prelude::*;

verus! {

/// The modulus of the base field.
pub open spec fn fq_modulus() -> nat {
    21888242871839275222246405745257275088696311157297823662689037894645226208583nat
}

/// The bytes of the base field's modulus, least significant first.
pub const FQ_MODULUS_LE: [u8; 32] = [
    71, 253, 124, 216, 22, 140, 32, 60, 141, 202, 113, 104, 145, 106, 129, 151, 93, 88, 129, 129,
    182, 69, 80, 184, 41, 160, 49, 225, 114, 78, 100, 48,
];

/// Whether `(x, y)` is a point of the first curve: the point at infinity, or
/// a solution of `y^2 = x^3 + 3` in the base field.
pub open spec fn g1_member(x: nat, y: nat) -> bool {
    (x == 0 && y == 0) || (y * y) % fq_modulus() == (x * x * x + 3) % fq_modulus()
}

/// The product of two elements of the quadratic extension.
pub open spec fn fq2_mul(a: (nat, nat), b: (nat, nat)) -> (nat, nat) {
    (
        ((a.0 * b.0 - a.1 * b.1) % (fq_modulus() as int)) as nat,
        (a.0 * b.1 + a.1 * b.0) % fq_modulus(),
    )
}

/// The sum of two elements of the quadratic extension.
pub open spec fn fq2_add(a: (nat, nat), b: (nat, nat)) -> (nat, nat) {
    ((a.0 + b.0) % fq_modulus(), (a.1 + b.1) % fq_modulus())
}

/// The constant term of the second curve's equation, `3 / (9 + u)`.
pub open spec fn g2_coeff_b() -> (nat, nat) {
    (
        19485874751759354771024239261021720505790618469301721065564631296452457478373nat,
        266929791119991161246907387137283842545076965332900288569378510910307636690nat,
    )
}

/// Whether `(x, y)` is a point of the second curve: the point at infinity,
/// or a solution of `y^2 = x^3 + 3 / (9 + u)` in the quadratic extension.
pub open spec fn g2_member(x: (nat, nat), y: (nat, nat)) -> bool {
    (x == (0nat, 0nat) && y == (0nat, 0nat)) || fq2_mul(y, y) == fq2_add(
        fq2_mul(fq2_mul(x, x), x),
        g2_coeff_b(),
    )
}

/// The constant bytes spell the modulus.
proof fn lemma_modulus_bytes()
    ensures
        le_nat(FQ_MODULUS_LE@) == fq_modulus(),
{
    reveal_with_fuel(le_from, 33);
}

/// Whether `limb` spells a number below the base field's modulus, least
/// significant byte first.
pub fn is_canonical(limb: &[u8; 32]) -> (r: bool)
    ensures
        r == (le_nat(limb@) < fq_modulus()),
{
    proof {
        lemma_modulus_bytes();
    }
    le_less(limb, &FQ_MODULUS_LE)
}

/// Asks `ark_bn254::G1Affine::is_on_curve` whether two coordinates are a
/// point of the first curve. The coordinates are read from their bytes by
/// `ark_ff::PrimeField::from_le_bytes_mod_order` and put together by
/// `G1Affine::new_unchecked`.
///
/// Taken on trust: that reading reduces the number that the bytes spell
/// modulo the field's modulus, and that the answer is whether both
/// coordinates are zero or `y^2 = x^3 + 3` holds in the field.
#[verifier::external_body]
pub(crate) fn g1_on_curve(x: &[u8; 32], y: &[u8; 32]) -> (r: bool)
    ensures
        r == g1_member(le_nat(x@) % fq_modulus(), le_nat(y@) % fq_modulus()),
{
    let x = Fq::from_le_bytes_mod_order(x);
    let y = Fq::from_le_bytes_mod_order(y);
    G1Affine::new_unchecked(x, y).is_on_curve()
}

/// Asks `ark_bn254::G2Affine::is_on_curve` whether two pairs of coordinates
/// are a point of the second curve. The coordinates are read from their
/// bytes by `ark_ff::PrimeField::from_le_bytes_mod_order`, paired by
/// `ark_bn254::Fq2::new` and put together by `G2Affine::new_unchecked`.
///
/// Taken on trust: that reading reduces the number that the bytes spell
/// modulo the field's modulus, and that the answer is whether all
/// coordinates are zero or `y^2 = x^3 + 3 / (9 + u)` holds in the quadratic
/// extension.
#[verifier::external_body]
pub(crate) fn g2_on_curve(x0: &[u8; 32], x1: &[u8; 32], y0: &[u8; 32], y1: &[u8; 32]) -> (r: bool)
    ensures
        r == g2_member(
            (le_nat(x0@) % fq_modulus(), le_nat(x1@) % fq_modulus()),
            (le_nat(y0@) % fq_modulus(), le_nat(y1@) % fq_modulus()),
        ),
{
    let x = Fq2::new(Fq::from_le_bytes_mod_order(x0), Fq::from_le_bytes_mod_order(x1));
    let y = Fq2::new(Fq::from_le_bytes_mod_order(y0), Fq::from_le_bytes_mod_order(y1));
    G2Affine::new_unchecked(x, y).is_on_curve()
}

} // verus!
