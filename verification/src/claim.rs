//! Non-inclusion claims: the requests that a batch is made of.
//!
//! A claim says that a value is absent from a sorted accumulator. It names
//! the stored leaf just below the value and that leaf's successor, and gives
//! the Merkle path that shows the lower leaf under the root. A lower leaf
//! that is the accumulator's last has no successor: its next value is zero,
//! which no stored successor can be, and stands for "no upper bound".

use crate::error::ClaimDefect;
use crate::field::{values_of, FieldElement};
use vstd::prelude::*;

verus! {

/// What a claim says, as numbers.
pub struct ClaimView {
    pub height: nat,
    pub root: nat,
    pub value: nat,
    pub low_value: nat,
    pub next_value: nat,
    pub path: Seq<nat>,
    pub path_index: nat,
}

/// One claim that `value` is absent from the accumulator under `root`.
#[derive(Clone, Debug, PartialEq, Eq)]
pub struct NonInclusionClaim {
    /// The height of the tree.
    pub height: usize,
    /// The root under which the claim is made.
    pub root: FieldElement,
    /// The value claimed to be absent.
    pub value: FieldElement,
    /// The value of the stored leaf just below `value`.
    pub low_value: FieldElement,
    /// The value of the stored leaf that follows the lower leaf, or zero
    /// where the lower leaf is the last.
    pub next_value: FieldElement,
    /// The siblings on the way from the lower leaf to the root.
    pub path: Vec<FieldElement>,
    /// The position of the lower leaf: its bit at each level tells on which
    /// side the path goes up.
    pub path_index: FieldElement,
}

impl View for NonInclusionClaim {
    type V = ClaimView;

    open spec fn view(&self) -> ClaimView {
        ClaimView {
            height: self.height as nat,
            root: self.root@,
            value: self.value@,
            low_value: self.low_value@,
            next_value: self.next_value@,
            path: values_of(self.path@),
            path_index: self.path_index@,
        }
    }
}

impl ClaimView {
    /// Whether the path has one sibling for each level of the tree.
    pub open spec fn path_fits(self) -> bool {
        self.path.len() == self.height
    }

    /// Whether the value lies strictly between the lower leaf and its
    /// successor, where a next value of zero bounds nothing.
    pub open spec fn in_bounds(self) -> bool {
        self.low_value < self.value && (self.next_value == 0 || self.value < self.next_value)
    }

    /// What is wrong with the claim, if anything: the path's length is
    /// looked at first.
    pub open spec fn defect(self) -> Option<ClaimDefect> {
        if !self.path_fits() {
            Some(ClaimDefect::PathLength)
        } else if !self.in_bounds() {
            Some(ClaimDefect::Bounds)
        } else {
            None
        }
    }
}

impl NonInclusionClaim {
    /// What is wrong with the claim, if anything.
    pub fn defect(&self) -> (r: Option<ClaimDefect>)
        ensures
            r == self@.defect(),
    {
        if self.path.len() != self.height {
            Some(ClaimDefect::PathLength)
        } else if self.low_value.less_than(&self.value) && (self.next_value.is_zero()
            || self.value.less_than(&self.next_value)) {
            None
        } else {
            Some(ClaimDefect::Bounds)
        }
    }
}

/// What the claims of a batch say, in order.
pub open spec fn batch_view(claims: Seq<NonInclusionClaim>) -> Seq<ClaimView> {
    claims.map_values(|c: NonInclusionClaim| c@)
}

/// Whether the claims can stand in one batch: there is one at least, and all
/// are made for the same tree height.
pub open spec fn is_batch(cs: Seq<ClaimView>) -> bool {
    cs.len() > 0 && forall|i: int| 0 <= i < cs.len() ==> (#[trigger] cs[i]).height == cs[0].height
}

/// Whether no claim of the batch is malformed.
pub open spec fn all_well_formed(cs: Seq<ClaimView>) -> bool {
    forall|j: int| 0 <= j < cs.len() ==> (#[trigger] cs[j]).defect() is None
}

/// Whether `index` is the first claim of the batch that is malformed, and
/// `defect` what is wrong with it.
pub open spec fn is_first_defect(cs: Seq<ClaimView>, index: int, defect: ClaimDefect) -> bool {
    &&& 0 <= index < cs.len()
    &&& cs[index].defect() == Some(defect)
    &&& forall|j: int| 0 <= j < index ==> (#[trigger] cs[j]).defect() is None
}

/// The first claim of the batch that is malformed, with what is wrong with
/// it.
pub open spec fn first_malformed(cs: Seq<ClaimView>) -> Option<(int, ClaimDefect)>
    decreases cs.len(),
{
    if cs.len() == 0 {
        None
    } else if first_malformed(cs.drop_last()) is Some {
        first_malformed(cs.drop_last())
    } else if cs.last().defect() is Some {
        Some((cs.len() - 1, cs.last().defect().unwrap()))
    } else {
        None
    }
}

/// `first_malformed` finds nothing exactly in a batch without a malformed
/// claim, and else finds the malformed claim that has none before it.
pub proof fn lemma_first_malformed(cs: Seq<ClaimView>)
    ensures
        first_malformed(cs) is None <==> all_well_formed(cs),
        first_malformed(cs) matches Some((index, defect)) ==> is_first_defect(cs, index, defect),
    decreases cs.len(),
{
    if cs.len() > 0 {
        let front = cs.drop_last();
        lemma_first_malformed(front);
        assert forall|j: int| 0 <= j < front.len() implies front[j] == cs[j] by {}
        if first_malformed(front) is Some {
            let (index, defect) = first_malformed(front).unwrap();
            assert(is_first_defect(front, index, defect));
            assert(cs[index].defect() is Some);
            assert(is_first_defect(cs, index, defect)) by {
                assert forall|j: int| 0 <= j < index implies (#[trigger] cs[j]).defect() is None by {
                    assert(front[j].defect() is None);
                }
            }
        } else {
            assert forall|j: int| 0 <= j < cs.len() - 1 implies (#[trigger] cs[j]).defect() is None by {
                assert(front[j].defect() is None);
            }
            if cs.last().defect() is None {
                assert(all_well_formed(cs));
            } else {
                assert(cs[cs.len() - 1].defect() is Some);
            }
        }
    }
}

/// A claim whose value is not between its bounds, or whose path does not
/// fit, makes its batch malformed.
pub proof fn lemma_defect_is_found(cs: Seq<ClaimView>, i: int)
    requires
        0 <= i < cs.len(),
        !cs[i].in_bounds() || !cs[i].path_fits(),
    ensures
        first_malformed(cs) is Some,
{
    lemma_first_malformed(cs);
    assert(cs[i].defect() is Some);
}

/// Whether the claims can stand in one batch.
pub fn is_uniform_batch(claims: &Vec<NonInclusionClaim>) -> (r: bool)
    ensures
        r == is_batch(batch_view(claims@)),
{
    let n = claims.len();
    if n == 0 {
        return false;
    }
    let ghost cs = batch_view(claims@);
    let height = claims[0].height;
    let mut i: usize = 1;
    while i < n
        invariant
            1 <= i <= n,
            n == claims@.len(),
            cs == batch_view(claims@),
            height == cs[0].height,
            forall|j: int| 0 <= j < i ==> (#[trigger] cs[j]).height == cs[0].height,
        decreases n - i,
    {
        if claims[i].height != height {
            assert(cs[i as int].height != cs[0].height);
            return false;
        }
        i = i + 1;
    }
    true
}

} // verus!
