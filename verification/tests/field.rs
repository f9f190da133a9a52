use circuitlib_rs::field::{EncodedFieldElement, FieldElement};

fn le(value: u64) -> [u8; 32] {
    let mut bytes = [0u8; 32];
    bytes[..8].copy_from_slice(&value.to_le_bytes());
    bytes
}

fn with_byte(index: usize, byte: u8) -> [u8; 32] {
    let mut bytes = [0u8; 32];
    bytes[index] = byte;
    bytes
}

#[test]
fn encoding_a_field_element_reverses_its_bytes() {
    let mut bytes = [0u8; 32];
    for i in 0..32 {
        bytes[i] = i as u8 + 1;
    }
    let encoded = FieldElement::from_le_bytes(bytes).encode();
    let mut expected = bytes;
    expected.reverse();
    assert_eq!(encoded.to_be_bytes(), expected);
    assert_eq!(encoded.to_be_bytes()[0], 32);
    assert_eq!(encoded.to_be_bytes()[31], 1);
    assert_eq!(EncodedFieldElement::from_be_bytes(expected), encoded);
}

#[test]
fn decoding_an_encoded_element_gives_the_element_back() {
    let element = FieldElement::from_le_bytes(le(0x0102_0304_0506_0708));
    assert_eq!(element.encode().decode(), element);
    assert_eq!(element.encode().decode().to_le_bytes(), le(0x0102_0304_0506_0708));
    let encoded = EncodedFieldElement::from_be_bytes(with_byte(31, 7));
    assert_eq!(encoded.decode().to_le_bytes(), with_byte(0, 7));
    assert_eq!(encoded.decode().encode(), encoded);
}

#[test]
fn the_number_one_has_its_byte_at_opposite_ends() {
    let one = FieldElement::from_le_bytes(le(1));
    assert_eq!(one.to_le_bytes()[0], 1);
    assert_eq!(one.encode().to_be_bytes()[31], 1);
    assert_eq!(one.encode().to_be_bytes()[0], 0);
}

#[test]
fn field_elements_compare_as_numbers() {
    let small = FieldElement::from_le_bytes(le(255));
    let large = FieldElement::from_le_bytes(le(256));
    assert!(small.less_than(&large));
    assert!(!large.less_than(&small));
    assert!(!small.less_than(&small));
}

#[test]
fn the_most_significant_byte_decides_a_comparison() {
    let high = FieldElement::from_le_bytes(with_byte(31, 1));
    let mut low_bytes = [0xffu8; 32];
    low_bytes[31] = 0;
    let low = FieldElement::from_le_bytes(low_bytes);
    assert!(low.less_than(&high));
    assert!(!high.less_than(&low));
    let a = FieldElement::from_le_bytes(with_byte(20, 3));
    let mut b_bytes = with_byte(20, 3);
    b_bytes[0] = 1;
    let b = FieldElement::from_le_bytes(b_bytes);
    assert!(a.less_than(&b));
    assert!(!b.less_than(&a));
}

#[test]
fn only_all_zero_bytes_spell_zero() {
    assert!(FieldElement::from_le_bytes([0u8; 32]).is_zero());
    assert!(!FieldElement::from_le_bytes(with_byte(0, 1)).is_zero());
    assert!(!FieldElement::from_le_bytes(with_byte(31, 1)).is_zero());
    assert!(!FieldElement::from_le_bytes(with_byte(17, 128)).is_zero());
}
