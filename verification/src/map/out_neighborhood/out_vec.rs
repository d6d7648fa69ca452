//! The growable representation: the list of the members, in the order in
//! which they were added.

use vstd::prelude::*;
use super::OutNeighborhood;
use crate::map::slots::{last_occupied, first_occupied, members_in, none_occupied, push_digits, tally_in};
use crate::map::tally::{compact, is_tally, no_neighbors, with_member, without};

verus! {

/// The tally of the set of the slots in a list.
pub open spec fn set_tally_of(values: Seq<usize>) -> Seq<nat>
    decreases values.len(),
{
    if values.len() == 0 {
        no_neighbors()
    } else {
        let rest = set_tally_of(values.drop_last());
        if values.last() < 7 {
            rest.update(values.last() as int, 1nat)
        } else {
            rest
        }
    }
}

/// The tally of a list's set has seven entries, each 0 or 1.
pub proof fn lemma_set_tally_of(values: Seq<usize>)
    ensures
        is_tally(set_tally_of(values)),
        forall|v: int| 0 <= v < 7 ==> #[trigger] set_tally_of(values)[v] <= 1,
    decreases values.len(),
{
    if values.len() > 0 {
        lemma_set_tally_of(values.drop_last());
    }
}

/// An out-neighborhood as the list of its members.
#[derive(Debug, Clone)]
pub struct OutVec {
    pub values: Vec<usize>,
}

impl OutVec {
    /// For every slot, 1 if it is a member and 0 if not, as an array.
    pub fn counts(&self) -> (r: [usize; 7])
        requires
            self.wf(),
        ensures
            tally_in(r) == self.tally(),
    {
        let mut counts: [usize; 7] = [0, 0, 0, 0, 0, 0, 0];
        let mut done: usize = 0;
        assert(self.values@.subrange(0, 0) =~= Seq::empty());
        assert(tally_in(counts) =~= no_neighbors());
        while done < self.values.len()
            invariant
                done <= self.values.len(),
                self.wf(),
                tally_in(counts) == set_tally_of(self.values@.subrange(0, done as int)),
            decreases self.values.len() - done,
        {
            let slot = self.values[done];
            proof {
                assert(self.values@.subrange(0, done + 1).drop_last() =~= self.values@.subrange(
                    0,
                    done as int,
                ));
            }
            let ghost before = tally_in(counts);
            counts[slot] = 1;
            done = done + 1;
            assert(tally_in(counts) =~= before.update(slot as int, 1nat));
        }
        assert(self.values@.subrange(0, done as int) =~= self.values@);
        counts
    }
}

impl Default for OutVec {
    fn default() -> (r: Self)
        ensures
            r.wf(),
            r.tally() == no_neighbors(),
    {
        OutVec { values: Vec::new() }
    }
}

impl OutNeighborhood for OutVec {
    open spec fn tally(&self) -> Seq<nat> {
        set_tally_of(self.values@)
    }

    open spec fn wf(&self) -> bool {
        &&& forall|i: int| 0 <= i < self.values@.len() ==> (#[trigger] self.values@[i]) < 7
        &&& compact(set_tally_of(self.values@))
    }

    proof fn lemma_wf(&self) {
        lemma_set_tally_of(self.values@);
    }

    fn empty() -> (r: Self) {
        OutVec { values: Vec::new() }
    }

    fn update_position_from_left(&self, value: &mut usize) {
        let counts = self.counts();
        if let Some(max) = last_occupied(&counts) {
            if max > *value {
                *value = max;
            }
        }
    }

    fn update_position_from_right(&self, value: &mut usize) {
        let counts = self.counts();
        if let Some(min) = first_occupied(&counts) {
            if min < *value {
                *value = min;
            }
        }
    }

    fn push(&mut self, value: usize) {
        let counts = self.counts();
        proof {
            lemma_set_tally_of(self.values@);
        }
        if counts[value] == 0 {
            self.values.push(value);
            assert(self.values@.drop_last() =~= old(self).values@);
        } else {
            assert(tally_in(counts)[value as int] == 1);
            assert(self.tally() =~= with_member(old(self).tally(), value as int));
        }
    }

    fn remove(&mut self, value: usize) {
        let mut kept: Vec<usize> = Vec::new();
        let mut done: usize = 0;
        assert(self.values@.subrange(0, 0) =~= Seq::empty());
        assert(set_tally_of(kept@) =~= without(no_neighbors(), value as int));
        while done < self.values.len()
            invariant
                done <= self.values.len(),
                value < 7,
                forall|i: int| 0 <= i < self.values@.len() ==> (#[trigger] self.values@[i]) < 7,
                forall|i: int| 0 <= i < kept@.len() ==> (#[trigger] kept@[i]) < 7,
                set_tally_of(kept@) == without(
                    set_tally_of(self.values@.subrange(0, done as int)),
                    value as int,
                ),
            decreases self.values.len() - done,
        {
            let slot = self.values[done];
            proof {
                assert(self.values@.subrange(0, done + 1).drop_last() =~= self.values@.subrange(
                    0,
                    done as int,
                ));
                lemma_set_tally_of(self.values@.subrange(0, done as int));
                lemma_set_tally_of(kept@);
            }
            if slot != value {
                let ghost before = kept@;
                kept.push(slot);
                assert(kept@.drop_last() =~= before);
                assert(set_tally_of(kept@) =~= without(
                    set_tally_of(self.values@.subrange(0, done + 1)),
                    value as int,
                ));
            } else {
                assert(set_tally_of(kept@) =~= without(
                    set_tally_of(self.values@.subrange(0, done + 1)),
                    value as int,
                ));
            }
            done = done + 1;
        }
        assert(self.values@.subrange(0, done as int) =~= self.values@);
        proof {
            lemma_set_tally_of(self.values@);
        }
        self.values = kept;
    }

    fn members(&self) -> (r: Vec<usize>) {
        let counts = self.counts();
        members_in(&counts)
    }

    fn is_empty(&self) -> (r: bool) {
        let counts = self.counts();
        none_occupied(&counts)
    }

    fn to_string(&self) -> (r: String) {
        let counts = self.counts();
        let mut text = String::new();
        push_digits(&mut text, &counts);
        text
    }
}

} // verus!
