use circuitlib_rs::claim::{is_uniform_batch, NonInclusionClaim};
use circuitlib_rs::error::{CircuitError, ClaimDefect};
use circuitlib_rs::field::{EncodedFieldElement, FieldElement};
use circuitlib_rs::inputs::{build_inputs, InputLabel, INPUT_LABELS};

fn fe(value: u64) -> FieldElement {
    let mut bytes = [0u8; 32];
    bytes[..8].copy_from_slice(&value.to_le_bytes());
    FieldElement::from_le_bytes(bytes)
}

fn be(value: u64) -> EncodedFieldElement {
    let mut bytes = [0u8; 32];
    bytes[24..].copy_from_slice(&value.to_be_bytes());
    EncodedFieldElement::from_be_bytes(bytes)
}

fn claim(height: usize, root: u64, low: u64, value: u64, next: u64) -> NonInclusionClaim {
    NonInclusionClaim {
        height,
        root: fe(root),
        value: fe(value),
        low_value: fe(low),
        next_value: fe(next),
        path: (0..height as u64).map(|level| fe(1000 * root + level)).collect(),
        path_index: fe(root + 7),
    }
}

#[test]
fn a_value_between_its_bounds_has_no_defect() {
    assert_eq!(claim(3, 1, 10, 11, 12).defect(), None);
    assert_eq!(claim(26, 1, 0, 1, 2).defect(), None);
    assert_eq!(claim(0, 1, 5, 6, 100).defect(), None);
}

#[test]
fn a_path_that_does_not_fit_the_height_is_a_defect() {
    let mut short = claim(3, 1, 10, 11, 12);
    short.path.pop();
    assert_eq!(short.defect(), Some(ClaimDefect::PathLength));
    let mut long = claim(3, 1, 10, 11, 12);
    long.path.push(fe(9));
    assert_eq!(long.defect(), Some(ClaimDefect::PathLength));
    let mut other_height = claim(3, 1, 10, 11, 12);
    other_height.height = 26;
    assert_eq!(other_height.defect(), Some(ClaimDefect::PathLength));
}

#[test]
fn a_value_not_above_its_lower_bound_is_a_defect() {
    assert_eq!(claim(3, 1, 10, 10, 12).defect(), Some(ClaimDefect::Bounds));
    assert_eq!(claim(3, 1, 10, 9, 12).defect(), Some(ClaimDefect::Bounds));
    assert_eq!(claim(3, 1, 0, 0, 12).defect(), Some(ClaimDefect::Bounds));
}

#[test]
fn a_value_not_below_its_upper_bound_is_a_defect() {
    assert_eq!(claim(3, 1, 10, 12, 12).defect(), Some(ClaimDefect::Bounds));
    assert_eq!(claim(3, 1, 10, 13, 12).defect(), Some(ClaimDefect::Bounds));
    assert_eq!(claim(3, 1, 10, 11, 5).defect(), Some(ClaimDefect::Bounds));
}

#[test]
fn a_next_value_of_zero_bounds_nothing() {
    assert_eq!(claim(3, 1, 10, 11, 0).defect(), None);
    assert_eq!(claim(3, 1, 10, u64::MAX, 0).defect(), None);
    assert_eq!(claim(3, 1, 10, 10, 0).defect(), Some(ClaimDefect::Bounds));
    assert_eq!(claim(3, 1, 10, 9, 0).defect(), Some(ClaimDefect::Bounds));
}

#[test]
fn the_path_is_looked_at_before_the_bounds() {
    let mut both = claim(3, 1, 10, 10, 12);
    both.path.clear();
    assert_eq!(both.defect(), Some(ClaimDefect::PathLength));
}

#[test]
fn bounds_are_compared_over_all_thirty_two_bytes() {
    let mut low = [0u8; 32];
    low[31] = 1;
    let mut value = [0u8; 32];
    value[31] = 1;
    value[0] = 1;
    let mut next = [0u8; 32];
    next[31] = 2;
    let mut wide = claim(2, 1, 0, 0, 0);
    wide.low_value = FieldElement::from_le_bytes(low);
    wide.value = FieldElement::from_le_bytes(value);
    wide.next_value = FieldElement::from_le_bytes(next);
    assert_eq!(wide.defect(), None);
    wide.value = FieldElement::from_le_bytes(next);
    assert_eq!(wide.defect(), Some(ClaimDefect::Bounds));
    wide.value = FieldElement::from_le_bytes(low);
    assert_eq!(wide.defect(), Some(ClaimDefect::Bounds));
}

#[test]
fn a_batch_is_one_claim_or_more_of_one_height() {
    assert!(!is_uniform_batch(&vec![]));
    assert!(is_uniform_batch(&vec![claim(3, 1, 10, 11, 12)]));
    assert!(is_uniform_batch(&vec![claim(3, 1, 10, 11, 12), claim(3, 2, 20, 21, 22)]));
    assert!(!is_uniform_batch(&vec![claim(3, 1, 10, 11, 12), claim(4, 2, 20, 21, 22)]));
    assert!(!is_uniform_batch(&vec![
        claim(3, 1, 10, 11, 12),
        claim(3, 2, 20, 21, 22),
        claim(2, 3, 30, 31, 32),
    ]));
}

#[test]
fn the_input_map_holds_each_sequence_under_its_label() {
    let claims = vec![claim(3, 1, 10, 11, 12), claim(3, 2, 20, 21, 0)];
    let inputs = build_inputs(&claims).unwrap();
    let map = &inputs.input_map;
    assert_eq!(map.get(InputLabel::Root), &vec![fe(1), fe(2)]);
    assert_eq!(map.get(InputLabel::Value), &vec![fe(11), fe(21)]);
    assert_eq!(map.get(InputLabel::LowValue), &vec![fe(10), fe(20)]);
    assert_eq!(map.get(InputLabel::NextValue), &vec![fe(12), fe(0)]);
    assert_eq!(map.get(InputLabel::PathIndex), &vec![fe(8), fe(9)]);
    assert_eq!(
        map.get(InputLabel::PathElements),
        &vec![fe(1000), fe(1001), fe(1002), fe(2000), fe(2001), fe(2002)]
    );
}

#[test]
fn the_public_inputs_are_all_roots_then_all_values() {
    let claims = vec![
        claim(3, 1, 10, 11, 12),
        claim(3, 2, 20, 21, 22),
        claim(3, 3, 30, 31, 32),
    ];
    let inputs = build_inputs(&claims).unwrap();
    assert_eq!(
        inputs.public_inputs,
        vec![be(1), be(2), be(3), be(11), be(21), be(31)]
    );
    let one = build_inputs(&vec![claim(26, 5, 10, 11, 12)]).unwrap();
    assert_eq!(one.public_inputs, vec![be(5), be(11)]);
    assert_eq!(one.public_inputs[1].to_be_bytes()[31], 11);
    assert_eq!(one.input_map.get(InputLabel::PathElements).len(), 26);
}

#[test]
fn the_first_malformed_claim_is_named() {
    let mut unfit = claim(3, 3, 30, 31, 32);
    unfit.path.pop();
    let claims = vec![claim(3, 1, 10, 11, 12), claim(3, 2, 20, 25, 22), unfit.clone()];
    assert_eq!(
        build_inputs(&claims).unwrap_err(),
        CircuitError::MalformedClaim { index: 1, defect: ClaimDefect::Bounds }
    );
    let claims = vec![unfit, claim(3, 2, 20, 25, 22)];
    assert_eq!(
        build_inputs(&claims).unwrap_err(),
        CircuitError::MalformedClaim { index: 0, defect: ClaimDefect::PathLength }
    );
    let claims = vec![claim(3, 1, 10, 11, 12), claim(3, 2, 20, 21, 22), claim(3, 3, 9, 9, 9)];
    assert_eq!(
        build_inputs(&claims).unwrap_err(),
        CircuitError::MalformedClaim { index: 2, defect: ClaimDefect::Bounds }
    );
}

#[test]
fn the_input_builder_refuses_every_violation_of_the_bounds() {
    for (low, value, next) in [(5u64, 5u64, 9u64), (5, 4, 9), (5, 9, 9), (5, 10, 9), (5, 3, 0)] {
        let result = build_inputs(&vec![claim(26, 1, low, value, next)]);
        assert_eq!(
            result.unwrap_err(),
            CircuitError::MalformedClaim { index: 0, defect: ClaimDefect::Bounds }
        );
    }
}

#[test]
fn the_labels_carry_the_names_of_the_circuit() {
    assert_eq!(InputLabel::Root.name(), "root");
    assert_eq!(InputLabel::Value.name(), "value");
    assert_eq!(InputLabel::LowValue.name(), "leafLowerRangeValue");
    assert_eq!(InputLabel::NextValue.name(), "leafHigherRangeValue");
    assert_eq!(InputLabel::PathElements.name(), "inPathElements");
    assert_eq!(InputLabel::PathIndex.name(), "inPathIndices");
    assert_eq!(INPUT_LABELS.len(), 6);
    for (i, a) in INPUT_LABELS.iter().enumerate() {
        for b in INPUT_LABELS.iter().skip(i + 1) {
            assert_ne!(a.name(), b.name());
        }
    }
}
