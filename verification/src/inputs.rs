//! The input builder: from a batch of claims to what the witness generator
//! and the pairing check are given.

use crate::claim::{
    all_well_formed, batch_view, first_malformed, is_batch, ClaimView, NonInclusionClaim,
};
use crate::error::CircuitError;
use crate::field::{encoded_values_of, values_of, EncodedFieldElement, FieldElement};
use vstd::prelude::*;

verus! {

/// The names under which the circuit takes its inputs.
#[derive(Clone, Copy, Debug, PartialEq, Eq, Structural)]
pub enum InputLabel {
    /// The root of each claim.
    Root,
    /// The claimed value of each claim.
    Value,
    /// The lower bound of each claim.
    LowValue,
    /// The upper bound of each claim.
    NextValue,
    /// The sibling paths of all claims, one after the other.
    PathElements,
    /// The path index of each claim.
    PathIndex,
}

/// All labels, in the order in which the circuit declares them.
pub const INPUT_LABELS: [InputLabel; 6] = [
    InputLabel::Root,
    InputLabel::Value,
    InputLabel::LowValue,
    InputLabel::NextValue,
    InputLabel::PathElements,
    InputLabel::PathIndex,
];

/// The circuit's name for a label.
pub open spec fn label_name(label: InputLabel) -> Seq<char> {
    match label {
        InputLabel::Root => "root"@,
        InputLabel::Value => "value"@,
        InputLabel::LowValue => "leafLowerRangeValue"@,
        InputLabel::NextValue => "leafHigherRangeValue"@,
        InputLabel::PathElements => "inPathElements"@,
        InputLabel::PathIndex => "inPathIndices"@,
    }
}

/// No two labels share a name: a map keyed by the names holds every
/// sequence of the input map, none in the place of another.
pub proof fn lemma_label_names_differ(a: InputLabel, b: InputLabel)
    requires
        label_name(a) == label_name(b),
    ensures
        a == b,
{
    reveal_strlit("root");
    reveal_strlit("value");
    reveal_strlit("leafLowerRangeValue");
    reveal_strlit("leafHigherRangeValue");
    reveal_strlit("inPathElements");
    reveal_strlit("inPathIndices");
    if a != b {
        let s = label_name(a);
        let t = label_name(b);
        assert(s.len() != t.len() || s[0] != t[0] || s[4] != t[4] || s[6] != t[6]);
    }
}

impl InputLabel {
    /// The circuit's name for the label.
    pub fn name(&self) -> (r: &'static str)
        ensures
            r@ == label_name(*self),
    {
        match self {
            InputLabel::Root => "root",
            InputLabel::Value => "value",
            InputLabel::LowValue => "leafLowerRangeValue",
            InputLabel::NextValue => "leafHigherRangeValue",
            InputLabel::PathElements => "inPathElements",
            InputLabel::PathIndex => "inPathIndices",
        }
    }
}

/// The roots of the claims, in order.
pub open spec fn roots_of(cs: Seq<ClaimView>) -> Seq<nat> {
    cs.map_values(|c: ClaimView| c.root)
}

/// The claimed values, in order.
pub open spec fn claimed_values_of(cs: Seq<ClaimView>) -> Seq<nat> {
    cs.map_values(|c: ClaimView| c.value)
}

/// The lower bounds, in order.
pub open spec fn low_values_of(cs: Seq<ClaimView>) -> Seq<nat> {
    cs.map_values(|c: ClaimView| c.low_value)
}

/// The upper bounds, in order.
pub open spec fn next_values_of(cs: Seq<ClaimView>) -> Seq<nat> {
    cs.map_values(|c: ClaimView| c.next_value)
}

/// The sibling paths of all claims, one after the other.
pub open spec fn paths_of(cs: Seq<ClaimView>) -> Seq<nat> {
    cs.map_values(|c: ClaimView| c.path).flatten()
}

/// The path indices, in order.
pub open spec fn path_indices_of(cs: Seq<ClaimView>) -> Seq<nat> {
    cs.map_values(|c: ClaimView| c.path_index)
}

/// The input map of a batch: what the circuit is given under each label.
pub open spec fn input_map_of(cs: Seq<ClaimView>) -> Map<InputLabel, Seq<nat>> {
    Map::total(
        |label: InputLabel|
            match label {
                InputLabel::Root => roots_of(cs),
                InputLabel::Value => claimed_values_of(cs),
                InputLabel::LowValue => low_values_of(cs),
                InputLabel::NextValue => next_values_of(cs),
                InputLabel::PathElements => paths_of(cs),
                InputLabel::PathIndex => path_indices_of(cs),
            },
    )
}

/// The public inputs of a batch: the roots of all claims, then their
/// claimed values.
pub open spec fn public_inputs_of(cs: Seq<ClaimView>) -> Seq<nat> {
    roots_of(cs) + claimed_values_of(cs)
}

/// What one more claim at the end of a batch adds to each sequence.
proof fn lemma_projections_of_push(cs: Seq<ClaimView>, c: ClaimView)
    ensures
        roots_of(cs.push(c)) == roots_of(cs).push(c.root),
        claimed_values_of(cs.push(c)) == claimed_values_of(cs).push(c.value),
        low_values_of(cs.push(c)) == low_values_of(cs).push(c.low_value),
        next_values_of(cs.push(c)) == next_values_of(cs).push(c.next_value),
        path_indices_of(cs.push(c)) == path_indices_of(cs).push(c.path_index),
        paths_of(cs.push(c)) == paths_of(cs) + c.path,
{
    assert(roots_of(cs.push(c)) =~= roots_of(cs).push(c.root));
    assert(claimed_values_of(cs.push(c)) =~= claimed_values_of(cs).push(c.value));
    assert(low_values_of(cs.push(c)) =~= low_values_of(cs).push(c.low_value));
    assert(next_values_of(cs.push(c)) =~= next_values_of(cs).push(c.next_value));
    assert(path_indices_of(cs.push(c)) =~= path_indices_of(cs).push(c.path_index));
    let paths = cs.map_values(|c: ClaimView| c.path);
    assert(cs.push(c).map_values(|c: ClaimView| c.path) =~= paths.push(c.path));
    paths.lemma_flatten_push(c.path);
}

/// What is found in the first `n` claims of a batch is found in the batch.
proof fn lemma_found_in_prefix(cs: Seq<ClaimView>, n: int)
    requires
        0 <= n <= cs.len(),
        first_malformed(cs.take(n)) is Some,
    ensures
        first_malformed(cs) == first_malformed(cs.take(n)),
    decreases cs.len() - n,
{
    if n < cs.len() {
        assert(cs.take(n + 1).drop_last() =~= cs.take(n));
        lemma_found_in_prefix(cs, n + 1);
    } else {
        assert(cs.take(n) =~= cs);
    }
}

/// What an empty batch gives for each sequence.
proof fn lemma_projections_of_empty()
    ensures
        roots_of(Seq::empty()) == Seq::<nat>::empty(),
        claimed_values_of(Seq::empty()) == Seq::<nat>::empty(),
        low_values_of(Seq::empty()) == Seq::<nat>::empty(),
        next_values_of(Seq::empty()) == Seq::<nat>::empty(),
        path_indices_of(Seq::empty()) == Seq::<nat>::empty(),
        paths_of(Seq::empty()) == Seq::<nat>::empty(),
{
    let none = Seq::<ClaimView>::empty();
    assert(roots_of(none) =~= Seq::<nat>::empty());
    assert(claimed_values_of(none) =~= Seq::<nat>::empty());
    assert(low_values_of(none) =~= Seq::<nat>::empty());
    assert(next_values_of(none) =~= Seq::<nat>::empty());
    assert(path_indices_of(none) =~= Seq::<nat>::empty());
    assert(none.map_values(|c: ClaimView| c.path) =~= Seq::<Seq<nat>>::empty());
}

/// The numbers of a sequence of field elements with one more at its end.
proof fn lemma_values_of_push(s: Seq<FieldElement>, e: FieldElement)
    ensures
        values_of(s.push(e)) == values_of(s).push(e@),
{
    assert(values_of(s.push(e)) =~= values_of(s).push(e@));
}

/// The numbers of a sequence of encoded field elements with one more at its
/// end.
proof fn lemma_encoded_values_of_push(s: Seq<EncodedFieldElement>, e: EncodedFieldElement)
    ensures
        encoded_values_of(s.push(e)) == encoded_values_of(s).push(e@),
{
    assert(encoded_values_of(s.push(e)) =~= encoded_values_of(s).push(e@));
}

/// The inputs of a batch without a malformed claim have the shape that the
/// circuit for the batch's height and size declares: under each label one
/// element for each claim, but under the paths' label one for each level of
/// each claim; and two public inputs for each claim.
pub proof fn lemma_input_arity(cs: Seq<ClaimView>)
    requires
        is_batch(cs),
        all_well_formed(cs),
    ensures
        roots_of(cs).len() == cs.len(),
        claimed_values_of(cs).len() == cs.len(),
        low_values_of(cs).len() == cs.len(),
        next_values_of(cs).len() == cs.len(),
        path_indices_of(cs).len() == cs.len(),
        paths_of(cs).len() == cs.len() * cs[0].height,
        public_inputs_of(cs).len() == 2 * cs.len(),
{
    assert forall|i: int| 0 <= i < cs.len() implies (#[trigger] cs[i]).path.len()
        == cs[0].height by {
        assert(cs[i].defect() is None);
    }
    lemma_paths_length(cs, cs[0].height);
}

/// Paths of one length, one after the other, are as long as their number
/// times that length.
proof fn lemma_paths_length(cs: Seq<ClaimView>, height: nat)
    requires
        forall|i: int| 0 <= i < cs.len() ==> (#[trigger] cs[i]).path.len() == height,
    ensures
        paths_of(cs).len() == cs.len() * height,
    decreases cs.len(),
{
    if cs.len() == 0 {
        lemma_projections_of_empty();
        assert(cs =~= Seq::<ClaimView>::empty());
    } else {
        let front = cs.drop_last();
        assert forall|i: int| 0 <= i < front.len() implies (#[trigger] front[i]).path.len()
            == height by {
            assert(front[i] == cs[i]);
        }
        lemma_paths_length(front, height);
        assert(cs =~= front.push(cs.last()));
        lemma_projections_of_push(front, cs.last());
        assert((cs.len() - 1) * height + height == cs.len() * height) by (nonlinear_arith);
    }
}

/// What the input builder makes of a batch: the error that names the first
/// malformed claim, or the input map with the public inputs.
pub open spec fn build_outcome(cs: Seq<ClaimView>) -> Result<
    (Map<InputLabel, Seq<nat>>, Seq<nat>),
    CircuitError,
> {
    match first_malformed(cs) {
        Some((index, defect)) => Err(
            CircuitError::MalformedClaim { index: index as usize, defect },
        ),
        None => Ok((input_map_of(cs), public_inputs_of(cs))),
    }
}

/// What the witness generator is given: for each label a sequence of field
/// elements. It is built once for a batch and never changed.
#[derive(Debug, PartialEq, Eq)]
pub struct InputMap {
    roots: Vec<FieldElement>,
    values: Vec<FieldElement>,
    low_values: Vec<FieldElement>,
    next_values: Vec<FieldElement>,
    path_elements: Vec<FieldElement>,
    path_indices: Vec<FieldElement>,
}

impl View for InputMap {
    type V = Map<InputLabel, Seq<nat>>;

    closed spec fn view(&self) -> Map<InputLabel, Seq<nat>> {
        Map::total(
            |label: InputLabel|
                match label {
                    InputLabel::Root => values_of(self.roots@),
                    InputLabel::Value => values_of(self.values@),
                    InputLabel::LowValue => values_of(self.low_values@),
                    InputLabel::NextValue => values_of(self.next_values@),
                    InputLabel::PathElements => values_of(self.path_elements@),
                    InputLabel::PathIndex => values_of(self.path_indices@),
                },
        )
    }
}

impl InputMap {
    /// The field elements given under `label`.
    pub fn get(&self, label: InputLabel) -> (r: &Vec<FieldElement>)
        ensures
            self@.dom().contains(label),
            values_of(r@) == self@[label],
    {
        match label {
            InputLabel::Root => &self.roots,
            InputLabel::Value => &self.values,
            InputLabel::LowValue => &self.low_values,
            InputLabel::NextValue => &self.next_values,
            InputLabel::PathElements => &self.path_elements,
            InputLabel::PathIndex => &self.path_indices,
        }
    }
}

/// What the input builder hands on: the witness generator's inputs and the
/// pairing check's public inputs.
#[derive(Debug, PartialEq, Eq)]
pub struct ProofInputs {
    pub input_map: InputMap,
    pub public_inputs: Vec<EncodedFieldElement>,
}

/// Whether `r` is what the input builder makes of the batch `cs`.
pub open spec fn is_built(cs: Seq<ClaimView>, r: Result<ProofInputs, CircuitError>) -> bool {
    match r {
        Ok(inputs) => build_outcome(cs) == Ok::<
            (Map<InputLabel, Seq<nat>>, Seq<nat>),
            CircuitError,
        >((inputs.input_map@, encoded_values_of(inputs.public_inputs@))),
        Err(e) => build_outcome(cs) == Err::<(Map<InputLabel, Seq<nat>>, Seq<nat>), CircuitError>(
            e,
        ),
    }
}

/// Builds the inputs of a batch. Fails on the first claim whose path does
/// not fit its height or whose value is not between its bounds; otherwise
/// gives the input map of the batch and, as public inputs, all roots then
/// all claimed values.
pub fn build_inputs(claims: &Vec<NonInclusionClaim>) -> (r: Result<ProofInputs, CircuitError>)
    requires
        is_batch(batch_view(claims@)),
    ensures
        is_built(batch_view(claims@), r),
{
    let n: usize = claims.len();
    let ghost cs = batch_view(claims@);
    let mut roots: Vec<FieldElement> = Vec::new();
    let mut values: Vec<FieldElement> = Vec::new();
    let mut low_values: Vec<FieldElement> = Vec::new();
    let mut next_values: Vec<FieldElement> = Vec::new();
    let mut path_elements: Vec<FieldElement> = Vec::new();
    let mut path_indices: Vec<FieldElement> = Vec::new();
    let mut public_inputs: Vec<EncodedFieldElement> = Vec::new();
    let mut i: usize = 0;
    proof {
        assert(cs.take(0) =~= Seq::<ClaimView>::empty());
        lemma_projections_of_empty();
        assert(values_of(roots@) =~= Seq::<nat>::empty());
        assert(encoded_values_of(public_inputs@) =~= Seq::<nat>::empty());
    }
    while i < n
        invariant
            i <= n,
            n == claims@.len(),
            cs == batch_view(claims@),
            first_malformed(cs.take(i as int)) is None,
            values_of(roots@) == roots_of(cs.take(i as int)),
            values_of(values@) == claimed_values_of(cs.take(i as int)),
            values_of(low_values@) == low_values_of(cs.take(i as int)),
            values_of(next_values@) == next_values_of(cs.take(i as int)),
            values_of(path_elements@) == paths_of(cs.take(i as int)),
            values_of(path_indices@) == path_indices_of(cs.take(i as int)),
            encoded_values_of(public_inputs@) == roots_of(cs.take(i as int)),
        decreases n - i,
    {
        let claim = &claims[i];
        assert(claim@ == cs[i as int]);
        proof {
            assert(cs.take(i + 1).drop_last() =~= cs.take(i as int));
            assert(cs.take(i + 1).last() == cs[i as int]);
        }
        if let Some(defect) = claim.defect() {
            proof {
                lemma_found_in_prefix(cs, i + 1);
            }
            return Err(CircuitError::MalformedClaim { index: i, defect });
        }
        let ghost before = path_elements@;
        let m: usize = claim.path.len();
        let mut k: usize = 0;
        assert(values_of(claim.path@).take(0) =~= Seq::<nat>::empty());
        while k < m
            invariant
                k <= m,
                m == claim.path@.len(),
                values_of(path_elements@) == values_of(before) + values_of(claim.path@).take(
                    k as int,
                ),
            decreases m - k,
        {
            proof {
                lemma_values_of_push(path_elements@, claim.path@[k as int]);
                assert(values_of(claim.path@).take(k + 1) =~= values_of(claim.path@).take(
                    k as int,
                ).push(claim.path@[k as int]@));
            }
            path_elements.push(claim.path[k]);
            assert(values_of(path_elements@) =~= values_of(before) + values_of(
                claim.path@,
            ).take(k + 1));
            k = k + 1;
        }
        proof {
            lemma_values_of_push(roots@, claim.root);
            lemma_values_of_push(values@, claim.value);
            lemma_values_of_push(low_values@, claim.low_value);
            lemma_values_of_push(next_values@, claim.next_value);
            lemma_values_of_push(path_indices@, claim.path_index);
            assert(cs.take(i + 1) =~= cs.take(i as int).push(cs[i as int]));
            lemma_projections_of_push(cs.take(i as int), cs[i as int]);
            assert(values_of(claim.path@).take(m as int) =~= values_of(claim.path@));
        }
        let encoded_root = claim.root.encode();
        proof {
            lemma_encoded_values_of_push(public_inputs@, encoded_root);
        }
        roots.push(claim.root);
        values.push(claim.value);
        low_values.push(claim.low_value);
        next_values.push(claim.next_value);
        path_indices.push(claim.path_index);
        public_inputs.push(encoded_root);
        i = i + 1;
    }
    assert(cs.take(n as int) =~= cs);
    let mut v: usize = 0;
    assert(claimed_values_of(cs).take(0) =~= Seq::<nat>::empty());
    assert(roots_of(cs) + Seq::<nat>::empty() =~= roots_of(cs));
    while v < n
        invariant
            v <= n,
            n == values@.len(),
            values_of(values@) == claimed_values_of(cs),
            encoded_values_of(public_inputs@) == roots_of(cs) + claimed_values_of(cs).take(
                v as int,
            ),
        decreases n - v,
    {
        let encoded_value = values[v].encode();
        proof {
            lemma_encoded_values_of_push(public_inputs@, encoded_value);
            assert(values_of(values@)[v as int] == values@[v as int]@);
            assert(claimed_values_of(cs).take(v + 1) =~= claimed_values_of(cs).take(
                v as int,
            ).push(encoded_value@));
        }
        public_inputs.push(encoded_value);
        assert(encoded_values_of(public_inputs@) =~= roots_of(cs) + claimed_values_of(cs).take(
            v + 1,
        ));
        v = v + 1;
    }
    assert(claimed_values_of(cs).take(n as int) =~= claimed_values_of(cs));
    let input_map = InputMap {
        roots,
        values,
        low_values,
        next_values,
        path_elements,
        path_indices,
    };
    assert(input_map@ =~= input_map_of(cs));
    Ok(ProofInputs { input_map, public_inputs })
}

} // verus!
