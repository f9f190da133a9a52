//! What can go wrong in the pipeline, and where.

use vstd::prelude::*;

verus! {

/// What is wrong with a claim.
#[derive(Clone, Copy, Debug, PartialEq, Eq, Structural)]
pub enum ClaimDefect {
    /// The sibling path does not have one element for each level of the tree.
    PathLength,
    /// The claimed value does not lie strictly between its two bounds.
    Bounds,
}

/// One of the three points of a proof.
#[derive(Clone, Copy, Debug, PartialEq, Eq, Structural)]
pub enum ProofPoint {
    A,
    B,
    C,
}

/// What is wrong with a point of a proof.
#[derive(Clone, Copy, Debug, PartialEq, Eq, Structural)]
pub enum PointDefect {
    /// The point's bytes are not as many as its curve asks for.
    WrongLength,
    /// The coordinates are not those of a point of the curve.
    OffCurve,
}

/// The stages of the pipeline, in the order in which a request goes through
/// them.
#[derive(Clone, Copy, Debug, PartialEq, Eq, Structural)]
pub enum Stage {
    InputBuilder,
    Resolver,
    Prover,
    Converter,
}

/// The errors of the pipeline.
#[derive(Clone, Copy, Debug, PartialEq, Eq, Structural)]
#[allow(inconsistent_fields)]
pub enum CircuitError {
    /// The claim at `index` violates an invariant of claims. The caller's data
    /// is at fault.
    MalformedClaim { index: usize, defect: ClaimDefect },
    /// No circuit variant exists for this tree height and batch size. The
    /// caller must batch differently.
    UnsupportedCircuit { height: usize, batch_size: usize },
    /// The proving key or the witness generator could not be loaded.
    ProvingKeyLoad,
    /// No witness could be generated from the inputs.
    WitnessGeneration,
    /// The proof computation failed.
    ProvingComputation,
    /// A point of the proof is malformed. No encoded proof is produced.
    Encoding { point: ProofPoint, defect: PointDefect },
}

impl CircuitError {
    /// The stage at which an error of this kind arises.
    pub open spec fn spec_stage(self) -> Stage {
        match self {
            CircuitError::MalformedClaim { .. } => Stage::InputBuilder,
            CircuitError::UnsupportedCircuit { .. } => Stage::Resolver,
            CircuitError::ProvingKeyLoad => Stage::Prover,
            CircuitError::WitnessGeneration => Stage::Prover,
            CircuitError::ProvingComputation => Stage::Prover,
            CircuitError::Encoding { .. } => Stage::Converter,
        }
    }

    /// The stage at which an error of this kind arises.
    #[verifier::when_used_as_spec(spec_stage)]
    pub fn stage(self) -> (r: Stage)
        ensures
            r == self.spec_stage(),
    {
        match self {
            CircuitError::MalformedClaim { .. } => Stage::InputBuilder,
            CircuitError::UnsupportedCircuit { .. } => Stage::Resolver,
            CircuitError::ProvingKeyLoad => Stage::Prover,
            CircuitError::WitnessGeneration => Stage::Prover,
            CircuitError::ProvingComputation => Stage::Prover,
            CircuitError::Encoding { .. } => Stage::Converter,
        }
    }

    /// Whether a caller may try the same request again: only a failure to
    /// load an artifact can be transient.
    pub open spec fn spec_is_retryable(self) -> bool {
        self is ProvingKeyLoad
    }

    /// Whether a caller may try the same request again: only a failure to
    /// load an artifact can be transient.
    #[verifier::when_used_as_spec(spec_is_retryable)]
    pub fn is_retryable(self) -> (r: bool)
        ensures
            r == self.spec_is_retryable(),
    {
        match self {
            CircuitError::ProvingKeyLoad => true,
            _ => false,
        }
    }
}

} // verus!
