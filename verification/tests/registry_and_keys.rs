use circuitlib_rs::claim::NonInclusionClaim;
use circuitlib_rs::error::{CircuitError, PointDefect};
use circuitlib_rs::field::FieldElement;
use circuitlib_rs::inputs::build_inputs;
use circuitlib_rs::point::{flip_g1_bytes, flip_g2_bytes, g1_point_defect, g2_point_defect};
use circuitlib_rs::registry::{find_variant, resolve, CircuitVariant};
use circuitlib_rs::verifying_keys::{i_26_1, verifying_key};

fn fe(value: u64) -> FieldElement {
    let mut bytes = [0u8; 32];
    bytes[..8].copy_from_slice(&value.to_le_bytes());
    FieldElement::from_le_bytes(bytes)
}

fn sum(bytes: &[u8]) -> u32 {
    bytes.iter().map(|b| *b as u32).sum()
}

#[test]
fn one_claim_at_height_26_resolves_to_its_variant() {
    let (proving_key, witness_generator) = resolve(26, 1).unwrap();
    assert_eq!(proving_key.variant(), CircuitVariant::Height26Batch1);
    assert_eq!(witness_generator.variant(), CircuitVariant::Height26Batch1);
    assert_eq!(proving_key.variant().name(), "i_26_1");
    assert_eq!(proving_key.variant().height(), 26);
    assert_eq!(proving_key.variant().batch_size(), 1);
    assert_eq!(proving_key.variant().public_input_count(), 2);
    assert_eq!(find_variant(26, 1), Some(CircuitVariant::Height26Batch1));
}

#[test]
fn resolver_and_key_lookup_fail_alike_on_unknown_pairs() {
    for (height, batch_size) in [(26usize, 2usize), (26, 0), (25, 1), (27, 1), (0, 0), (1, 26)] {
        let expected = CircuitError::UnsupportedCircuit { height, batch_size };
        assert_eq!(resolve(height, batch_size).unwrap_err(), expected);
        assert_eq!(verifying_key(height, batch_size).unwrap_err(), expected);
        assert_eq!(find_variant(height, batch_size), None);
    }
    assert!(resolve(26, 1).is_ok());
    assert!(verifying_key(26, 1).is_ok());
}

#[test]
fn the_key_for_one_claim_at_height_26_has_its_counts() {
    let key = verifying_key(26, 1).unwrap();
    assert_eq!(key.nr_pubinputs, 2);
    assert_eq!(key.ic.len(), key.nr_pubinputs + 1);
    assert_eq!(key.ic.len(), 3);
    let claim = NonInclusionClaim {
        height: 26,
        root: fe(1),
        value: fe(11),
        low_value: fe(10),
        next_value: fe(12),
        path: vec![fe(0); 26],
        path_index: fe(0),
    };
    let inputs = build_inputs(&vec![claim]).unwrap();
    assert_eq!(inputs.public_inputs.len(), key.nr_pubinputs);
    assert_eq!(key.ic.len(), inputs.public_inputs.len() + 1);
    assert_eq!(CircuitVariant::Height26Batch1.public_input_count(), key.nr_pubinputs);
}

#[test]
fn the_key_holds_the_constants_of_its_table() {
    let key = verifying_key(26, 1).unwrap();
    assert_eq!(key, i_26_1::verifying_key());
    assert_eq!(key.alpha_g1, i_26_1::ALPHA_G1);
    assert_eq!(key.beta_g2, i_26_1::BETA_G2);
    assert_eq!(key.gamma_g2, i_26_1::GAMMA_G2);
    assert_eq!(key.delta_g2, i_26_1::DELTA_G2);
    assert_eq!(key.ic, vec![i_26_1::IC_0, i_26_1::IC_1, i_26_1::IC_2]);
    assert_eq!((key.alpha_g1[0], key.alpha_g1[63], sum(&key.alpha_g1)), (45, 38, 8055));
    assert_eq!((key.beta_g2[0], key.beta_g2[127], sum(&key.beta_g2)), (9, 200, 16938));
    assert_eq!((key.gamma_g2[0], key.gamma_g2[127], sum(&key.gamma_g2)), (25, 170, 16756));
    assert_eq!((key.delta_g2[0], key.delta_g2[127], sum(&key.delta_g2)), (36, 176, 16848));
    assert_eq!((key.ic[0][0], key.ic[0][63], sum(&key.ic[0])), (21, 123, 7867));
    assert_eq!((key.ic[1][0], key.ic[1][63], sum(&key.ic[1])), (6, 216, 7844));
    assert_eq!((key.ic[2][0], key.ic[2][63], sum(&key.ic[2])), (24, 199, 7877));
}

#[test]
fn the_points_of_the_key_lie_on_their_curves() {
    let key = verifying_key(26, 1).unwrap();
    assert_eq!(g1_point_defect(&flip_g1_bytes(&key.alpha_g1).to_vec()), None);
    for entry in key.ic.iter() {
        assert_eq!(g1_point_defect(&flip_g1_bytes(entry).to_vec()), None);
    }
    for point in [key.beta_g2, key.gamma_g2, key.delta_g2] {
        assert_eq!(g2_point_defect(&flip_g2_bytes(&point).to_vec()), None);
    }
}

#[test]
fn a_point_of_the_key_read_in_the_wrong_layout_is_off_its_curve() {
    let key = verifying_key(26, 1).unwrap();
    assert_eq!(g1_point_defect(&key.alpha_g1.to_vec()), Some(PointDefect::OffCurve));
    assert_eq!(g2_point_defect(&key.beta_g2.to_vec()), Some(PointDefect::OffCurve));
    let mut limbs_reversed_halves_kept = Vec::new();
    for limb in key.beta_g2.chunks(32) {
        limbs_reversed_halves_kept.extend(limb.iter().rev());
    }
    assert_eq!(g2_point_defect(&limbs_reversed_halves_kept), Some(PointDefect::OffCurve));
}
