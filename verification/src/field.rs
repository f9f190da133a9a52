//! Field elements in the two encodings that the pipeline keeps apart.
//!
//! The witness generator and the prover read a field element as 32 bytes,
//! least significant byte first; the pairing check reads it as 32 bytes, most
//! significant byte first. Each encoding has a type of its own, and the only
//! way from one to the other is [`FieldElement::encode`] or
//! [`EncodedFieldElement::decode`].

use crate::bytes::{be_nat, le_is_zero, le_less, le_nat, lemma_reverse_swaps_readings, reversed};
use vstd::prelude::*;

verus! {

/// A field element as the proving side holds it: 32 bytes, least significant
/// byte first. Its view is the number those bytes spell.
#[derive(Clone, Copy, Debug, PartialEq, Eq)]
pub struct FieldElement {
    bytes: [u8; 32],
}

/// A field element as the pairing check reads it: 32 bytes, most significant
/// byte first. Its view is the number those bytes spell.
#[derive(Clone, Copy, Debug, PartialEq, Eq)]
pub struct EncodedFieldElement {
    bytes: [u8; 32],
}

impl View for FieldElement {
    type V = nat;

    closed spec fn view(&self) -> nat {
        le_nat(self.bytes@)
    }
}

impl View for EncodedFieldElement {
    type V = nat;

    closed spec fn view(&self) -> nat {
        be_nat(self.bytes@)
    }
}

impl FieldElement {
    /// The element's bytes, least significant first.
    pub closed spec fn le_bytes(self) -> Seq<u8> {
        self.bytes@
    }

    /// The element that `bytes` spell, least significant byte first.
    pub fn from_le_bytes(bytes: [u8; 32]) -> (r: Self)
        ensures
            r.le_bytes() == bytes@,
            r@ == le_nat(bytes@),
    {
        FieldElement { bytes }
    }

    /// The element's bytes, least significant first.
    pub fn to_le_bytes(&self) -> (r: [u8; 32])
        ensures
            r@ == self.le_bytes(),
            le_nat(r@) == self@,
    {
        self.bytes
    }

    /// The same number in the pairing check's encoding: the same bytes in
    /// the opposite order.
    pub fn encode(&self) -> (r: EncodedFieldElement)
        ensures
            r@ == self@,
            r.be_bytes() == self.le_bytes().reverse(),
    {
        proof {
            lemma_reverse_swaps_readings(self.bytes@);
        }
        EncodedFieldElement { bytes: reversed(&self.bytes) }
    }

    /// Whether the element is zero.
    pub fn is_zero(&self) -> (r: bool)
        ensures
            r == (self@ == 0),
    {
        le_is_zero(&self.bytes)
    }

    /// Whether the element is smaller than `other`, as numbers.
    pub fn less_than(&self, other: &FieldElement) -> (r: bool)
        ensures
            r == (self@ < other@),
    {
        le_less(&self.bytes, &other.bytes)
    }
}

impl EncodedFieldElement {
    /// The element's bytes, most significant first.
    pub closed spec fn be_bytes(self) -> Seq<u8> {
        self.bytes@
    }

    /// The element that `bytes` spell, most significant byte first.
    pub fn from_be_bytes(bytes: [u8; 32]) -> (r: Self)
        ensures
            r.be_bytes() == bytes@,
            r@ == be_nat(bytes@),
    {
        EncodedFieldElement { bytes }
    }

    /// The element's bytes, most significant first.
    pub fn to_be_bytes(&self) -> (r: [u8; 32])
        ensures
            r@ == self.be_bytes(),
            be_nat(r@) == self@,
    {
        self.bytes
    }

    /// The same number in the proving side's encoding: the same bytes in
    /// the opposite order.
    pub fn decode(&self) -> (r: FieldElement)
        ensures
            r@ == self@,
            r.le_bytes() == self.be_bytes().reverse(),
    {
        proof {
            lemma_reverse_swaps_readings(self.bytes@);
        }
        FieldElement { bytes: reversed(&self.bytes) }
    }
}

/// The numbers that a sequence of field elements holds.
pub open spec fn values_of(s: Seq<FieldElement>) -> Seq<nat> {
    s.map_values(|e: FieldElement| e@)
}

/// The numbers that a sequence of encoded field elements holds.
pub open spec fn encoded_values_of(s: Seq<EncodedFieldElement>) -> Seq<nat> {
    s.map_values(|e: EncodedFieldElement| e@)
}

} // verus!
