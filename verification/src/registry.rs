//! The circuit variants that exist, and the resolver that hands out the
//! handles of a variant's artifacts.
//!
//! A circuit is compiled for one tree height and one batch size. Its proving
//! key and its witness generator are artifacts kept outside the library; a
//! handle names the variant whose artifact is meant, and only [`resolve`]
//! makes one.

use crate::error::CircuitError;
use vstd::prelude::*;

verus! {

/// A circuit variant: the circuit for one tree height and one batch size.
#[derive(Clone, Copy, Debug, PartialEq, Eq, Structural)]
pub enum CircuitVariant {
    /// One claim at tree height 26.
    Height26Batch1,
}

impl CircuitVariant {
    /// The tree height that the variant is compiled for.
    pub open spec fn spec_height(self) -> nat {
        match self {
            CircuitVariant::Height26Batch1 => 26,
        }
    }

    /// The number of claims that the variant takes.
    pub open spec fn spec_batch_size(self) -> nat {
        match self {
            CircuitVariant::Height26Batch1 => 1,
        }
    }

    /// The name of the variant's artifacts.
    pub open spec fn spec_name(self) -> Seq<char> {
        match self {
            CircuitVariant::Height26Batch1 => "i_26_1"@,
        }
    }

    /// The number of public inputs of a proof of this variant: a root and a
    /// value for each claim.
    pub open spec fn spec_public_input_count(self) -> nat {
        2 * self.spec_batch_size()
    }

    /// The tree height that the variant is compiled for.
    pub fn height(&self) -> (r: usize)
        ensures
            r == self.spec_height(),
    {
        match self {
            CircuitVariant::Height26Batch1 => 26,
        }
    }

    /// The number of claims that the variant takes.
    pub fn batch_size(&self) -> (r: usize)
        ensures
            r == self.spec_batch_size(),
    {
        match self {
            CircuitVariant::Height26Batch1 => 1,
        }
    }

    /// The name of the variant's artifacts.
    pub fn name(&self) -> (r: &'static str)
        ensures
            r@ == self.spec_name(),
    {
        match self {
            CircuitVariant::Height26Batch1 => "i_26_1",
        }
    }

    /// The number of public inputs of a proof of this variant.
    pub fn public_input_count(&self) -> (r: usize)
        ensures
            r == self.spec_public_input_count(),
    {
        2 * self.batch_size()
    }
}

/// The variant for a tree height and a batch size, where one exists.
pub open spec fn variant_for(height: nat, batch_size: nat) -> Option<CircuitVariant> {
    if height == 26 && batch_size == 1 {
        Some(CircuitVariant::Height26Batch1)
    } else {
        None
    }
}

/// A variant is found under its own height and batch size, and under no
/// other.
pub proof fn lemma_variant_for_is_exact(height: nat, batch_size: nat, variant: CircuitVariant)
    ensures
        variant_for(height, batch_size) == Some(variant) <==> (height == variant.spec_height()
            && batch_size == variant.spec_batch_size()),
{
}

/// The variant for a tree height and a batch size, where one exists.
pub fn find_variant(height: usize, batch_size: usize) -> (r: Option<CircuitVariant>)
    ensures
        r == variant_for(height as nat, batch_size as nat),
{
    if height == 26 && batch_size == 1 {
        Some(CircuitVariant::Height26Batch1)
    } else {
        None
    }
}

/// The handle of a variant's proving key.
#[derive(Clone, Copy, Debug, PartialEq, Eq)]
pub struct ProvingKeyHandle {
    variant: CircuitVariant,
}

/// The handle of a variant's witness generator.
#[derive(Clone, Copy, Debug, PartialEq, Eq)]
pub struct WitnessGeneratorHandle {
    variant: CircuitVariant,
}

impl View for ProvingKeyHandle {
    type V = CircuitVariant;

    closed spec fn view(&self) -> CircuitVariant {
        self.variant
    }
}

impl View for WitnessGeneratorHandle {
    type V = CircuitVariant;

    closed spec fn view(&self) -> CircuitVariant {
        self.variant
    }
}

impl ProvingKeyHandle {
    /// The variant whose proving key is meant.
    pub fn variant(&self) -> (r: CircuitVariant)
        ensures
            r == self@,
    {
        self.variant
    }
}

impl WitnessGeneratorHandle {
    /// The variant whose witness generator is meant.
    pub fn variant(&self) -> (r: CircuitVariant)
        ensures
            r == self@,
    {
        self.variant
    }
}

/// The error for a tree height and a batch size without a circuit variant.
pub open spec fn unsupported(height: usize, batch_size: usize) -> CircuitError {
    CircuitError::UnsupportedCircuit { height, batch_size }
}

/// What resolving a tree height and a batch size gives: the variant whose
/// artifacts are handed out, or the error that names the pair.
pub open spec fn resolve_outcome(height: usize, batch_size: usize) -> Result<
    CircuitVariant,
    CircuitError,
> {
    match variant_for(height as nat, batch_size as nat) {
        Some(variant) => Ok(variant),
        None => Err(unsupported(height, batch_size)),
    }
}

/// Whether `r` is what resolving the tree height and the batch size gives:
/// two handles of their variant, or the error.
pub open spec fn is_resolved(
    height: usize,
    batch_size: usize,
    r: Result<(ProvingKeyHandle, WitnessGeneratorHandle), CircuitError>,
) -> bool {
    match r {
        Ok((proving_key, witness_generator)) => {
            &&& resolve_outcome(height, batch_size) == Ok::<CircuitVariant, CircuitError>(
                proving_key@,
            )
            &&& witness_generator@ == proving_key@
        },
        Err(e) => resolve_outcome(height, batch_size) == Err::<CircuitVariant, CircuitError>(e),
    }
}

/// Resolves a tree height and a batch size to the handles of the proving key
/// and the witness generator of their variant. Fails where no variant exists
/// for the pair.
pub fn resolve(height: usize, batch_size: usize) -> (r: Result<
    (ProvingKeyHandle, WitnessGeneratorHandle),
    CircuitError,
>)
    ensures
        is_resolved(height, batch_size, r),
{
    match find_variant(height, batch_size) {
        Some(variant) => Ok((ProvingKeyHandle { variant }, WitnessGeneratorHandle { variant })),
        None => Err(CircuitError::UnsupportedCircuit { height, batch_size }),
    }
}

} // verus!
