//! The pipeline of one proof request, around the prover.
//!
//! The prover loads artifacts and computes with randomness of its own, so
//! it runs outside the library. The library does what comes before it and
//! what comes after: [`begin_proof`] turns a batch of claims into a job for
//! the prover, and [`finish_proof`] turns what the prover made of the job
//! into what the pairing check is given. [`merkle_non_inclusion_proof`] runs
//! the two around a prover that the caller brings. No job exists for a batch
//! that the input builder or the resolver refused, so no proof is attempted
//! for one.

use crate::claim::{
    batch_view, first_malformed, is_batch, lemma_defect_is_found, ClaimView, NonInclusionClaim,
};
use crate::error::{CircuitError, Stage};
use crate::field::{encoded_values_of, EncodedFieldElement};
use crate::inputs::{
    build_inputs, build_outcome, public_inputs_of, InputLabel, InputMap, ProofInputs,
};
use crate::proof_format::{
    encode, encode_outcome, first_defect, flip, ProofBytes, ProofEncoded, ProofNative,
};
use crate::registry::{
    lemma_variant_for_is_exact, resolve, unsupported, variant_for, CircuitVariant,
    ProvingKeyHandle, WitnessGeneratorHandle,
};
use crate::verifying_keys::{key_of, lemma_key_counts};
use vstd::prelude::*;

verus! {

/// An error of the pipeline with the request that it arose in.
#[derive(Clone, Copy, Debug, PartialEq, Eq, Structural)]
pub struct Failure {
    /// What went wrong.
    pub error: CircuitError,
    /// The tree height of the batch.
    pub height: usize,
    /// The number of claims of the batch.
    pub batch_size: usize,
}

impl Failure {
    /// The stage that failed.
    pub fn stage(&self) -> (r: Stage)
        ensures
            r == self.error.spec_stage(),
    {
        self.error.stage()
    }
}

/// The ways in which the prover can fail.
#[derive(Clone, Copy, Debug, PartialEq, Eq, Structural)]
pub enum ProverFailure {
    /// An artifact of the circuit variant is missing or corrupt.
    ArtifactLoad,
    /// The inputs satisfy no witness, or are malformed.
    Witness,
    /// The proof computation failed.
    Computation,
}

/// The error that stands for a failure of the prover.
pub open spec fn prover_error(failure: ProverFailure) -> CircuitError {
    match failure {
        ProverFailure::ArtifactLoad => CircuitError::ProvingKeyLoad,
        ProverFailure::Witness => CircuitError::WitnessGeneration,
        ProverFailure::Computation => CircuitError::ProvingComputation,
    }
}

/// What a job holds.
pub struct ProofJobView {
    pub height: nat,
    pub batch_size: nat,
    pub variant: CircuitVariant,
    pub input_map: Map<InputLabel, Seq<nat>>,
    pub public_inputs: Seq<nat>,
}

/// A batch made ready for the prover: the handles of the artifacts to load,
/// the inputs of the witness generator, and the public inputs that go with
/// the proof.
#[derive(Debug, PartialEq, Eq)]
pub struct ProofJob {
    height: usize,
    batch_size: usize,
    proving_key: ProvingKeyHandle,
    witness_generator: WitnessGeneratorHandle,
    input_map: InputMap,
    public_inputs: Vec<EncodedFieldElement>,
}

impl View for ProofJob {
    type V = ProofJobView;

    closed spec fn view(&self) -> ProofJobView {
        ProofJobView {
            height: self.height as nat,
            batch_size: self.batch_size as nat,
            variant: self.proving_key@,
            input_map: self.input_map@,
            public_inputs: encoded_values_of(self.public_inputs@),
        }
    }
}

impl ProofJob {
    /// A job's two handles name one variant, the one for the job's height
    /// and batch size.
    #[verifier::type_invariant]
    spec fn handles_agree(self) -> bool {
        &&& self.witness_generator@ == self.proving_key@
        &&& variant_for(self.height as nat, self.batch_size as nat) == Some(self.proving_key@)
    }

    /// The tree height of the batch.
    pub fn height(&self) -> (r: usize)
        ensures
            r == self@.height,
    {
        self.height
    }

    /// The number of claims of the batch.
    pub fn batch_size(&self) -> (r: usize)
        ensures
            r == self@.batch_size,
    {
        self.batch_size
    }

    /// The handle of the proving key to load.
    pub fn proving_key(&self) -> (r: ProvingKeyHandle)
        ensures
            r@ == self@.variant,
            variant_for(self@.height, self@.batch_size) == Some(self@.variant),
    {
        proof {
            use_type_invariant(self);
        }
        self.proving_key
    }

    /// The handle of the witness generator to load.
    pub fn witness_generator(&self) -> (r: WitnessGeneratorHandle)
        ensures
            r@ == self@.variant,
            variant_for(self@.height, self@.batch_size) == Some(self@.variant),
    {
        proof {
            use_type_invariant(self);
        }
        self.witness_generator
    }

    /// The inputs of the witness generator.
    pub fn input_map(&self) -> (r: &InputMap)
        ensures
            r@ == self@.input_map,
    {
        &self.input_map
    }

    /// The public inputs that go with the proof.
    pub fn public_inputs(&self) -> (r: &Vec<EncodedFieldElement>)
        ensures
            encoded_values_of(r@) == self@.public_inputs,
    {
        &self.public_inputs
    }
}

/// What the pairing check is given: the encoded proof and its public inputs.
#[derive(Clone, Debug, PartialEq, Eq)]
pub struct ProofResult {
    pub proof: ProofEncoded,
    pub public_inputs: Vec<EncodedFieldElement>,
}

/// The tree height of a batch: that of its first claim.
pub open spec fn batch_height(cs: Seq<ClaimView>) -> nat {
    cs[0].height
}

/// What making a batch ready gives: the input builder's error, else the
/// resolver's error, else the job.
pub open spec fn begin_outcome(cs: Seq<ClaimView>) -> Result<ProofJobView, Failure> {
    let height = batch_height(cs);
    let batch_size = cs.len();
    match build_outcome(cs) {
        Err(error) => Err(
            Failure { error, height: height as usize, batch_size: batch_size as usize },
        ),
        Ok((input_map, public_inputs)) => match variant_for(height, batch_size) {
            None => Err(
                Failure {
                    error: unsupported(height as usize, batch_size as usize),
                    height: height as usize,
                    batch_size: batch_size as usize,
                },
            ),
            Some(variant) => Ok(
                ProofJobView { height, batch_size, variant, input_map, public_inputs },
            ),
        },
    }
}

/// What finishing a job gives: the prover's failure as an error, the
/// converter's error on a malformed proof, or the encoded proof with the
/// job's public inputs.
pub open spec fn finish_outcome(
    job: ProofJobView,
    outcome: Result<ProofBytes, ProverFailure>,
) -> Result<(ProofBytes, Seq<nat>), Failure> {
    let height = job.height as usize;
    let batch_size = job.batch_size as usize;
    match outcome {
        Err(failure) => Err(Failure { error: prover_error(failure), height, batch_size }),
        Ok(native) => match encode_outcome(native) {
            Err(error) => Err(Failure { error, height, batch_size }),
            Ok(encoded) => Ok((encoded, job.public_inputs)),
        },
    }
}

/// What a whole request gives, for what the prover makes of its job.
pub open spec fn request_outcome(
    cs: Seq<ClaimView>,
    outcome: Result<ProofBytes, ProverFailure>,
) -> Result<(ProofBytes, Seq<nat>), Failure> {
    match begin_outcome(cs) {
        Err(failure) => Err(failure),
        Ok(job) => finish_outcome(job, outcome),
    }
}

/// What the prover made of a job, as bytes.
pub open spec fn outcome_view(outcome: Result<ProofNative, ProverFailure>) -> Result<
    ProofBytes,
    ProverFailure,
> {
    match outcome {
        Ok(native) => Ok(native@),
        Err(failure) => Err(failure),
    }
}

/// Whether `r` is the result that `expected` describes.
pub open spec fn is_outcome(
    r: Result<ProofResult, Failure>,
    expected: Result<(ProofBytes, Seq<nat>), Failure>,
) -> bool {
    match r {
        Ok(result) => expected == Ok::<(ProofBytes, Seq<nat>), Failure>(
            (result.proof@, encoded_values_of(result.public_inputs@)),
        ),
        Err(failure) => expected == Err::<(ProofBytes, Seq<nat>), Failure>(failure),
    }
}

/// A batch with a claim whose value is not between its bounds is refused by
/// the input builder, and its request fails with that error whatever a
/// prover would make of it: no job exists to hand to one.
pub proof fn lemma_unordered_claim_stops_request(
    cs: Seq<ClaimView>,
    i: int,
    outcome: Result<ProofBytes, ProverFailure>,
)
    requires
        0 <= i < cs.len(),
        !cs[i].in_bounds(),
    ensures
        build_outcome(cs) matches Err(e) && e is MalformedClaim,
        begin_outcome(cs) is Err,
        request_outcome(cs, outcome) matches Err(failure) && build_outcome(cs) == Err::<
            (Map<InputLabel, Seq<nat>>, Seq<nat>),
            CircuitError,
        >(failure.error),
{
    lemma_defect_is_found(cs, i);
}

/// Whether nothing stands in the way of a request: no claim of the batch is
/// malformed, a circuit variant exists for the batch, the prover made a
/// proof, and the points of the proof lie on their curves.
pub open spec fn can_succeed(
    cs: Seq<ClaimView>,
    outcome: Result<ProofBytes, ProverFailure>,
) -> bool {
    &&& first_malformed(cs) is None
    &&& variant_for(batch_height(cs), cs.len()) is Some
    &&& outcome is Ok
    &&& first_defect(outcome->Ok_0) is None
}

/// A request succeeds exactly when no claim of the batch is malformed, a
/// circuit variant exists for the batch, the prover made a proof, and the
/// points of the proof lie on their curves. It then gives the bytes of the
/// proof in the pairing check's layout, with all roots and then all values
/// of the batch as public inputs.
pub proof fn lemma_request_succeeds(
    cs: Seq<ClaimView>,
    outcome: Result<ProofBytes, ProverFailure>,
)
    ensures
        request_outcome(cs, outcome) is Ok <==> can_succeed(cs, outcome),
        request_outcome(cs, outcome) is Ok ==> request_outcome(cs, outcome)->Ok_0 == (
            flip(outcome->Ok_0),
            public_inputs_of(cs),
        ),
{
}

/// A request that succeeds gives as many public inputs as the verifying
/// key of the batch's variant declares, one fewer than the key has input
/// commitments.
pub proof fn lemma_result_fits_key(cs: Seq<ClaimView>, outcome: Result<ProofBytes, ProverFailure>)
    requires
        request_outcome(cs, outcome) is Ok,
    ensures
        variant_for(batch_height(cs), cs.len()) is Some,
        request_outcome(cs, outcome)->Ok_0.1.len() == key_of(
            variant_for(batch_height(cs), cs.len())->Some_0,
        ).nr_pubinputs,
        key_of(variant_for(batch_height(cs), cs.len())->Some_0).ic.len() == request_outcome(
            cs,
            outcome,
        )->Ok_0.1.len() + 1,
{
    lemma_request_succeeds(cs, outcome);
    let variant = variant_for(batch_height(cs), cs.len())->Some_0;
    lemma_variant_for_is_exact(batch_height(cs), cs.len(), variant);
    lemma_key_counts(variant, cs);
}

/// Whether `r` is what making the batch `cs` ready gives.
pub open spec fn is_begun(cs: Seq<ClaimView>, r: Result<ProofJob, Failure>) -> bool {
    match r {
        Ok(job) => begin_outcome(cs) == Ok::<ProofJobView, Failure>(job@),
        Err(failure) => begin_outcome(cs) == Err::<ProofJobView, Failure>(failure),
    }
}

/// Makes a batch ready for the prover. Fails with the input builder's error
/// where a claim is malformed, and else with the resolver's error where no
/// circuit variant exists for the batch's height and size.
pub fn begin_proof(claims: &Vec<NonInclusionClaim>) -> (r: Result<ProofJob, Failure>)
    requires
        is_batch(batch_view(claims@)),
    ensures
        is_begun(batch_view(claims@), r),
{
    let height: usize = claims[0].height;
    let batch_size: usize = claims.len();
    assert(batch_view(claims@)[0] == claims@[0]@);
    match build_inputs(claims) {
        Err(error) => Err(Failure { error, height, batch_size }),
        Ok(inputs) => match resolve(height, batch_size) {
            Err(error) => Err(Failure { error, height, batch_size }),
            Ok((proving_key, witness_generator)) => {
                let ProofInputs { input_map, public_inputs } = inputs;
                Ok(
                    ProofJob {
                        height,
                        batch_size,
                        proving_key,
                        witness_generator,
                        input_map,
                        public_inputs,
                    },
                )
            },
        },
    }
}

/// Finishes a job with what the prover made of it. A failure of the prover
/// becomes the error of its kind; a proof is encoded, and goes out with the
/// job's public inputs unless the converter refuses it.
pub fn finish_proof(job: ProofJob, outcome: Result<ProofNative, ProverFailure>) -> (r: Result<
    ProofResult,
    Failure,
>)
    ensures
        is_outcome(r, finish_outcome(job@, outcome_view(outcome))),
{
    let height: usize = job.height;
    let batch_size: usize = job.batch_size;
    match outcome {
        Err(ProverFailure::ArtifactLoad) => Err(
            Failure { error: CircuitError::ProvingKeyLoad, height, batch_size },
        ),
        Err(ProverFailure::Witness) => Err(
            Failure { error: CircuitError::WitnessGeneration, height, batch_size },
        ),
        Err(ProverFailure::Computation) => Err(
            Failure { error: CircuitError::ProvingComputation, height, batch_size },
        ),
        Ok(native) => match encode(&native) {
            Err(error) => Err(Failure { error, height, batch_size }),
            Ok(proof) => {
                let ProofJob { public_inputs, .. } = job;
                Ok(ProofResult { proof, public_inputs })
            },
        },
    }
}

/// Proves a batch of non-inclusion claims with the prover that the caller
/// brings. The prover need only take the job of this batch: where no job
/// can be made of the batch, nothing is asked of the prover, it is not
/// called, and the request fails as [`begin_proof`] does. Otherwise the
/// prover is called once on the job, and the request ends as
/// [`finish_proof`] does on what the prover returned.
pub fn merkle_non_inclusion_proof<P>(claims: &Vec<NonInclusionClaim>, prover: P) -> (r: Result<
    ProofResult,
    Failure,
>) where P: FnOnce(&ProofJob) -> Result<ProofNative, ProverFailure>
    requires
        is_batch(batch_view(claims@)),
        begin_outcome(batch_view(claims@)) is Ok ==> (forall|job: &ProofJob|
            job@ == begin_outcome(batch_view(claims@))->Ok_0 ==> #[trigger] prover.requires(
                (job,),
            )),
    ensures
        begin_outcome(batch_view(claims@)) is Err ==> r is Err && r->Err_0 == begin_outcome(
            batch_view(claims@),
        )->Err_0,
        begin_outcome(batch_view(claims@)) is Ok ==> exists|
            job: &ProofJob,
            outcome: Result<ProofNative, ProverFailure>,
        |
            job@ == begin_outcome(batch_view(claims@))->Ok_0 && #[trigger] prover.ensures(
                (job,),
                outcome,
            ) && is_outcome(r, request_outcome(batch_view(claims@), outcome_view(outcome))),
{
    match begin_proof(claims) {
        Err(failure) => Err(failure),
        Ok(job) => {
            let outcome = prover(&job);
            let ghost held = outcome;
            let ghost made = &job;
            let r = finish_proof(job, outcome);
            assert(prover.ensures((made,), held));
            r
        },
    }
}

} // verus!
