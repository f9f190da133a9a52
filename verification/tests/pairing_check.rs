use ark_bn254::{Bn254, Fq, Fr, G1Affine, G2Affine};
use ark_ff::{BigInteger, PrimeField};
use ark_groth16::{Groth16, Proof, ProvingKey};
use ark_relations::gr1cs::{
    ConstraintSynthesizer, ConstraintSystemRef, LinearCombination, SynthesisError,
};
use ark_std::rand::rngs::StdRng;
use ark_std::rand::SeedableRng;
use circuitlib_rs::field::FieldElement;
use circuitlib_rs::point::{flip_g1_bytes, flip_g2_bytes};
use circuitlib_rs::proof_format::{decode, encode, ProofEncoded, ProofNative};
use groth16_solana::groth16::{Groth16Verifier, Groth16Verifyingkey};

struct Product {
    a: Option<Fr>,
    b: Option<Fr>,
}

impl ConstraintSynthesizer<Fr> for Product {
    fn generate_constraints(self, cs: ConstraintSystemRef<Fr>) -> Result<(), SynthesisError> {
        let a = cs.new_witness_variable(|| self.a.ok_or(SynthesisError::AssignmentMissing))?;
        let b = cs.new_witness_variable(|| self.b.ok_or(SynthesisError::AssignmentMissing))?;
        let c = cs.new_input_variable(|| {
            let a = self.a.ok_or(SynthesisError::AssignmentMissing)?;
            let b = self.b.ok_or(SynthesisError::AssignmentMissing)?;
            Ok(a * b)
        })?;
        cs.enforce_r1cs_constraint(
            || LinearCombination::from(a),
            || LinearCombination::from(b),
            || LinearCombination::from(c),
        )
    }
}

fn le(x: &Fq) -> Vec<u8> {
    x.into_bigint().to_bytes_le()
}

fn native_g1(p: &G1Affine) -> Vec<u8> {
    [le(&p.x), le(&p.y)].concat()
}

fn native_g2(p: &G2Affine) -> Vec<u8> {
    [le(&p.x.c0), le(&p.x.c1), le(&p.y.c0), le(&p.y.c1)].concat()
}

fn encoded_g1(p: &G1Affine) -> [u8; 64] {
    flip_g1_bytes(&native_g1(p).try_into().unwrap())
}

fn encoded_g2(p: &G2Affine) -> [u8; 128] {
    flip_g2_bytes(&native_g2(p).try_into().unwrap())
}

fn setup() -> ProvingKey<Bn254> {
    let mut rng = StdRng::seed_from_u64(7);
    Groth16::<Bn254>::generate_random_parameters_with_reduction(
        Product { a: None, b: None },
        &mut rng,
    )
    .unwrap()
}

fn prove(key: &ProvingKey<Bn254>, seed: u64) -> Proof<Bn254> {
    let mut rng = StdRng::seed_from_u64(seed);
    let circuit = Product { a: Some(Fr::from(3u64)), b: Some(Fr::from(11u64)) };
    Groth16::<Bn254>::create_random_proof_with_reduction(circuit, key, &mut rng).unwrap()
}

/// The proof as the prover hands it on: the pairing check used here takes
/// the first point negated.
fn native(proof: &Proof<Bn254>) -> ProofNative {
    ProofNative { a: native_g1(&-proof.a), b: native_g2(&proof.b), c: native_g1(&proof.c) }
}

fn public_input(value: u64) -> [u8; 32] {
    let mut bytes = [0u8; 32];
    bytes[..8].copy_from_slice(&value.to_le_bytes());
    FieldElement::from_le_bytes(bytes).encode().to_be_bytes()
}

fn passes(key: &ProvingKey<Bn254>, proof: &ProofEncoded, input: u64) -> bool {
    let ic: Vec<[u8; 64]> = key.vk.gamma_abc_g1.iter().map(encoded_g1).collect();
    let verifying_key = Groth16Verifyingkey {
        nr_pubinputs: ic.len(),
        vk_alpha_g1: encoded_g1(&key.vk.alpha_g1),
        vk_beta_g2: encoded_g2(&key.vk.beta_g2),
        vk_gamme_g2: encoded_g2(&key.vk.gamma_g2),
        vk_delta_g2: encoded_g2(&key.vk.delta_g2),
        vk_ic: &ic,
    };
    let (a, b, c) = (proof.a(), proof.b(), proof.c());
    let inputs = [public_input(input)];
    let mut verifier = Groth16Verifier::<1>::new(&a, &b, &c, &inputs, &verifying_key).unwrap();
    verifier.verify().is_ok()
}

#[test]
fn an_encoded_proof_passes_the_pairing_check() {
    let key = setup();
    let encoded = encode(&native(&prove(&key, 1))).unwrap();
    assert!(passes(&key, &encoded, 33));
    assert!(!passes(&key, &encoded, 34));
}

#[test]
fn a_proof_decoded_and_encoded_again_still_passes() {
    let key = setup();
    let encoded = encode(&native(&prove(&key, 5))).unwrap();
    let again = encode(&decode(&encoded)).unwrap();
    assert_eq!(again, encoded);
    assert!(passes(&key, &again, 33));
}

#[test]
fn a_proof_with_another_first_point_does_not_pass() {
    let key = setup();
    let proof = prove(&key, 1);
    let plain =
        ProofNative { a: native_g1(&proof.a), b: native_g2(&proof.b), c: native_g1(&proof.c) };
    assert!(!passes(&key, &encode(&plain).unwrap(), 33));
}

#[test]
fn two_proofs_of_one_statement_differ_and_both_pass() {
    let key = setup();
    let first = native(&prove(&key, 1));
    let second = native(&prove(&key, 2));
    assert_ne!(first, second);
    let first = encode(&first).unwrap();
    let second = encode(&second).unwrap();
    assert_ne!(first.to_bytes(), second.to_bytes());
    assert!(passes(&key, &first, 33));
    assert!(passes(&key, &second, 33));
}
