//! The verifying keys of the circuit variants: constants, one table for each
//! variant, looked up by tree height and batch size.

use crate::claim::ClaimView;
use crate::error::CircuitError;
use crate::inputs::public_inputs_of;
use crate::registry::{find_variant, resolve_outcome, unsupported, variant_for, CircuitVariant};
use vstd::prelude::*;

pub mod i_26_1;

verus! {

/// A verifying key, as bytes.
pub struct VerifyingKeyView {
    pub nr_pubinputs: nat,
    pub alpha_g1: Seq<u8>,
    pub beta_g2: Seq<u8>,
    pub gamma_g2: Seq<u8>,
    pub delta_g2: Seq<u8>,
    pub ic: Seq<Seq<u8>>,
}

/// The constants of one circuit variant that the pairing check needs, each
/// point in the encoding that the pairing check reads.
#[derive(Clone, Debug, PartialEq, Eq)]
pub struct VerifyingKey {
    /// The number of public inputs that the key declares.
    pub nr_pubinputs: usize,
    /// The point alpha of the first curve.
    pub alpha_g1: [u8; 64],
    /// The point beta of the second curve.
    pub beta_g2: [u8; 128],
    /// The point gamma of the second curve.
    pub gamma_g2: [u8; 128],
    /// The point delta of the second curve.
    pub delta_g2: [u8; 128],
    /// The input commitments: one entry more than the key declares public
    /// inputs.
    pub ic: Vec<[u8; 64]>,
}

impl View for VerifyingKey {
    type V = VerifyingKeyView;

    open spec fn view(&self) -> VerifyingKeyView {
        VerifyingKeyView {
            nr_pubinputs: self.nr_pubinputs as nat,
            alpha_g1: self.alpha_g1@,
            beta_g2: self.beta_g2@,
            gamma_g2: self.gamma_g2@,
            delta_g2: self.delta_g2@,
            ic: self.ic@.map_values(|entry: [u8; 64]| entry@),
        }
    }
}

impl VerifyingKeyView {
    /// The number of public inputs that the key takes: the count that it
    /// declares.
    pub open spec fn public_input_count(self) -> nat {
        self.nr_pubinputs
    }

    /// Whether the key's counts agree: it has one input commitment more
    /// than it declares public inputs, and each point has its length.
    pub open spec fn well_formed(self) -> bool {
        &&& self.ic.len() == self.nr_pubinputs + 1
        &&& self.alpha_g1.len() == 64
        &&& self.beta_g2.len() == 128
        &&& self.gamma_g2.len() == 128
        &&& self.delta_g2.len() == 128
        &&& forall|i: int| 0 <= i < self.ic.len() ==> (#[trigger] self.ic[i]).len() == 64
    }
}

/// The key of a variant.
pub open spec fn key_of(variant: CircuitVariant) -> VerifyingKeyView {
    match variant {
        CircuitVariant::Height26Batch1 => i_26_1::key_view(),
    }
}

/// What looking up a tree height and a batch size gives: the key of their
/// variant, or the error that names the pair.
pub open spec fn key_outcome(height: usize, batch_size: usize) -> Result<
    VerifyingKeyView,
    CircuitError,
> {
    match variant_for(height as nat, batch_size as nat) {
        Some(variant) => Ok(key_of(variant)),
        None => Err(unsupported(height, batch_size)),
    }
}

/// The resolver and the key lookup fail on the same pairs, those without a
/// circuit variant, and with the same error.
pub proof fn lemma_lookups_fail_alike(height: usize, batch_size: usize)
    ensures
        resolve_outcome(height, batch_size) is Err <==> key_outcome(height, batch_size) is Err,
        resolve_outcome(height, batch_size) is Err <==> variant_for(
            height as nat,
            batch_size as nat,
        ) is None,
        resolve_outcome(height, batch_size) is Err ==> resolve_outcome(height, batch_size)->Err_0
            == unsupported(height, batch_size),
        key_outcome(height, batch_size) is Err ==> key_outcome(height, batch_size)->Err_0
            == unsupported(height, batch_size),
{
}

/// The key of every variant is well formed: it has one input commitment
/// more than it declares public inputs. And it declares as many public
/// inputs as a batch of the variant's size has.
pub proof fn lemma_key_counts(variant: CircuitVariant, cs: Seq<ClaimView>)
    requires
        cs.len() == variant.spec_batch_size(),
    ensures
        key_of(variant).well_formed(),
        key_of(variant).ic.len() == key_of(variant).nr_pubinputs + 1,
        key_of(variant).public_input_count() == variant.spec_public_input_count(),
        public_inputs_of(cs).len() == key_of(variant).nr_pubinputs,
{
}

/// Whether `r` is what looking up the tree height and the batch size
/// gives: a well-formed key with the constants of their variant, or the
/// error.
pub open spec fn is_key(
    height: usize,
    batch_size: usize,
    r: Result<VerifyingKey, CircuitError>,
) -> bool {
    match r {
        Ok(key) => {
            &&& key_outcome(height, batch_size) == Ok::<VerifyingKeyView, CircuitError>(key@)
            &&& key@.well_formed()
        },
        Err(e) => key_outcome(height, batch_size) == Err::<VerifyingKeyView, CircuitError>(e),
    }
}

/// The verifying key of the variant for a tree height and a batch size.
/// Fails where no variant exists for the pair.
pub fn verifying_key(height: usize, batch_size: usize) -> (r: Result<VerifyingKey, CircuitError>)
    ensures
        is_key(height, batch_size, r),
{
    match find_variant(height, batch_size) {
        Some(CircuitVariant::Height26Batch1) => Ok(i_26_1::verifying_key()),
        None => Err(CircuitError::UnsupportedCircuit { height, batch_size }),
    }
}

} // verus!
