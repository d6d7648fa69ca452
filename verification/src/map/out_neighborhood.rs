//! Out-neighborhoods: for one node, the set of slots of the row above to
//! which an edge leaves.

pub mod byte_tables;
pub mod out_array;
pub mod out_byte;
pub mod out_bytes;
pub mod out_vec;

use vstd::prelude::*;
use super::tally::{
    compact, is_set, is_tally, lowered, members_of, no_neighbors, out_rendering, raised,
    strictly_inside, total, with_member, without, WIDTH,
};

verus! {

/// What a representation of an out-neighborhood offers. All contracts are
/// stated over the tally of the set, so any two representations with the
/// same tally answer alike.
pub trait OutNeighborhood: Sized {
    /// For every slot, 1 if it is a member and 0 if not.
    spec fn tally(&self) -> Seq<nat>;

    /// The representation's own invariant.
    spec fn wf(&self) -> bool;

    /// A well-formed neighborhood has the tally of a set whose members lie
    /// within three consecutive slots.
    proof fn lemma_wf(&self)
        requires
            self.wf(),
        ensures
            is_tally(self.tally()),
            is_set(self.tally()),
            compact(self.tally()),
    ;

    /// The empty neighborhood.
    fn empty() -> (r: Self)
        ensures
            r.wf(),
            r.tally() == no_neighbors(),
    ;

    /// Raises `value` to the largest member, where that is larger: an edge
    /// from the node on the right may not end left of one from this node.
    fn update_position_from_left(&self, value: &mut usize)
        requires
            self.wf(),
            *old(value) < WIDTH,
        ensures
            *final(value) == raised(self.tally(), *old(value) as int),
    ;

    /// Lowers `value` to the smallest member, where that is smaller: an
    /// edge from the node on the left may not end right of one from this
    /// node.
    fn update_position_from_right(&self, value: &mut usize)
        requires
            self.wf(),
            *old(value) < WIDTH,
        ensures
            *final(value) == lowered(self.tally(), *old(value) as int),
    ;

    /// Adds `value` to the set, which must keep the members within three
    /// consecutive slots.
    fn push(&mut self, value: usize)
        requires
            old(self).wf(),
            value < WIDTH,
            compact(with_member(old(self).tally(), value as int)),
        ensures
            final(self).wf(),
            final(self).tally() == with_member(old(self).tally(), value as int),
    ;

    /// Takes the member `value` out of the set. It may not lie strictly
    /// between two other members.
    fn remove(&mut self, value: usize)
        requires
            old(self).wf(),
            value < WIDTH,
            old(self).tally()[value as int] > 0,
            !strictly_inside(old(self).tally(), value as int),
        ensures
            final(self).wf(),
            final(self).tally() == without(old(self).tally(), value as int),
    ;

    /// The members, in ascending order.
    fn members(&self) -> (r: Vec<usize>)
        requires
            self.wf(),
        ensures
            r@ == members_of(self.tally()),
    ;

    /// Whether the set has no member.
    fn is_empty(&self) -> (r: bool)
        requires
            self.wf(),
        ensures
            r == (total(self.tally()) == 0),
    ;

    /// The neighborhood as text.
    fn to_string(&self) -> (r: String)
        requires
            self.wf(),
        ensures
            r@ == out_rendering(self.tally()),
    ;
}

} // verus!
