//! In-neighborhoods: for one node, the slots of the row below from which an
//! edge arrives, with multiplicity.

pub mod backend;
pub mod consecutive;
pub mod in_array;
pub mod in_byte;
pub mod in_enum;
pub mod in_vec;

use vstd::prelude::*;
use super::slots::as_slot;
use super::tally::{
    apart, compact, highest, in_rendering, is_tally, lowest, no_neighbors, pairs_of, total,
    with_one_more, PATHS, WIDTH,
};

verus! {

/// What a representation of an in-neighborhood offers. All contracts are
/// stated over the tally of the neighborhood, so any two representations
/// with the same tally answer alike.
pub trait InNeighborhood: Sized {
    /// The multiplicity of every slot.
    spec fn tally(&self) -> Seq<nat>;

    /// The representation's own invariant.
    spec fn wf(&self) -> bool;

    /// Whether the representation can hold one more edge. A list and a
    /// fixed-shape neighborhood can while the count fits the machine's
    /// integers; a packed one can hold the edges of no more than [`PATHS`]
    /// paths.
    spec fn has_room(&self) -> bool;

    /// A well-formed neighborhood has a tally of seven multiplicities whose
    /// occupied slots lie within three consecutive slots, and no more
    /// edges than the machine's integers count.
    proof fn lemma_wf(&self)
        requires
            self.wf(),
        ensures
            is_tally(self.tally()),
            compact(self.tally()),
            total(self.tally()) <= usize::MAX,
    ;

    /// Every representation has room for the edges of [`PATHS`] paths.
    proof fn lemma_room(&self)
        requires
            self.wf(),
            total(self.tally()) < PATHS,
        ensures
            self.has_room(),
    ;

    /// The empty neighborhood.
    fn empty() -> (r: Self)
        ensures
            r.wf(),
            r.tally() == no_neighbors(),
    ;

    /// The smallest occupied slot.
    fn min(&self) -> (r: Option<usize>)
        requires
            self.wf(),
        ensures
            r == as_slot(lowest(self.tally())),
    ;

    /// The largest occupied slot.
    fn max(&self) -> (r: Option<usize>)
        requires
            self.wf(),
        ensures
            r == as_slot(highest(self.tally())),
    ;

    /// Adds one occurrence of `value`, which must keep the occupied slots
    /// within three consecutive ones. The representation must have room
    /// for it.
    fn push(&mut self, value: usize)
        requires
            old(self).wf(),
            value < WIDTH,
            compact(with_one_more(old(self).tally(), value as int)),
            old(self).has_room(),
        ensures
            final(self).wf(),
            final(self).tally() == with_one_more(old(self).tally(), value as int),
    ;

    /// The occupied slots with their multiplicities, in ascending order.
    fn pairs(&self) -> (r: Vec<(usize, usize)>)
        requires
            self.wf(),
        ensures
            r@ == pairs_of(self.tally()),
    ;

    /// Whether no slot is occupied.
    fn is_empty(&self) -> (r: bool)
        requires
            self.wf(),
        ensures
            r == (total(self.tally()) == 0),
    ;

    /// The neighborhood as text.
    fn to_string(&self) -> (r: String)
        requires
            self.wf(),
        ensures
            r@ == in_rendering(self.tally()),
    ;

    /// False exactly when the largest slot of `left` is the smallest of
    /// `right`: the two then touch in one shared slot.
    fn gca_skip(left: &Self, right: &Self) -> (r: bool)
        requires
            left.wf(),
            right.wf(),
        ensures
            r == apart(left.tally(), right.tally()),
    {
        proof {
            left.lemma_wf();
            right.lemma_wf();
        }
        match (left.max(), right.min()) {
            (Some(left_max), Some(right_min)) => left_max != right_min,
            _ => true,
        }
    }
}

/// What a neighborhood answers when asked for its smallest slot, its
/// largest slot and its text.
pub open spec fn answers(c: Seq<nat>) -> (Option<usize>, Option<usize>, Seq<char>) {
    (as_slot(lowest(c)), as_slot(highest(c)), in_rendering(c))
}

/// The three representations of one neighborhood agree. Let a fixed-shape
/// neighborhood of at most six edges be given, the list that lists the
/// same, and the index at which it stands in the table. Then the three
/// have the same tally, so that they give the same smallest slot, largest
/// slot and text; and whatever each of them becomes by a push of the same
/// slot, the three again have the same tally and give the same answers.
pub proof fn lemma_representations_agree(
    dynamic: in_vec::InVec,
    enumerated: in_array::InArray,
    packed: in_byte::InByte,
    value: int,
    dynamic_after: in_vec::InVec,
    enumerated_after: in_array::InArray,
    packed_after: in_byte::InByte,
)
    requires
        enumerated.wf(),
        total(enumerated.tally()) <= 6,
        dynamic.listed() == enumerated.listed(),
        packed.wf(),
        in_array::shapes()[packed.0 as int] == enumerated.listed(),
        dynamic_after.tally() == with_one_more(dynamic.tally(), value),
        enumerated_after.tally() == with_one_more(enumerated.tally(), value),
        packed_after.tally() == with_one_more(packed.tally(), value),
    ensures
        dynamic.wf(),
        dynamic.tally() == enumerated.tally(),
        packed.tally() == enumerated.tally(),
        answers(dynamic.tally()) == answers(enumerated.tally()),
        answers(packed.tally()) == answers(enumerated.tally()),
        dynamic_after.tally() == enumerated_after.tally(),
        packed_after.tally() == enumerated_after.tally(),
        answers(dynamic_after.tally()) == answers(enumerated_after.tally()),
        answers(packed_after.tally()) == answers(enumerated_after.tally()),
{
    in_vec::lemma_same_list(dynamic, enumerated);
}

} // verus!
