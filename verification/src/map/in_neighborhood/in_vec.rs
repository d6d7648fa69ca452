//! The growable representation: a list of slots with multiplicities, in the
//! order in which they were added.

use vstd::prelude::*;
use super::in_array::InArray;
use super::InNeighborhood;
use crate::map::slots::{
    first_occupied, last_occupied, none_occupied, pairs_in, push_digits, tally_in,
};
use crate::map::tally::{compact, in_rendering, is_tally, no_neighbors, total};
use crate::text::push_char;

verus! {

/// The tally of a list of `(slot, multiplicity)` pairs.
pub open spec fn tally_of(pairs: Seq<(usize, usize)>) -> Seq<nat>
    decreases pairs.len(),
{
    if pairs.len() == 0 {
        no_neighbors()
    } else {
        let rest = tally_of(pairs.drop_last());
        let (slot, times) = pairs.last();
        if slot < 7 {
            rest.update(slot as int, (rest[slot as int] + times) as nat)
        } else {
            rest
        }
    }
}

/// The tally of a list has seven entries.
pub proof fn lemma_tally_of_is_tally(pairs: Seq<(usize, usize)>)
    ensures
        is_tally(tally_of(pairs)),
    decreases pairs.len(),
{
    if pairs.len() > 0 {
        lemma_tally_of_is_tally(pairs.drop_last());
    }
}

/// The total of a list's tally never shrinks when the list grows.
pub proof fn lemma_tally_of_prefix(pairs: Seq<(usize, usize)>, len: int)
    requires
        0 <= len <= pairs.len(),
    ensures
        total(tally_of(pairs.subrange(0, len))) <= total(tally_of(pairs)),
    decreases pairs.len(),
{
    if len == pairs.len() {
        assert(pairs.subrange(0, len) =~= pairs);
    } else {
        lemma_tally_of_prefix(pairs.drop_last(), len);
        lemma_tally_of_is_tally(pairs.drop_last());
        assert(pairs.drop_last().subrange(0, len) =~= pairs.subrange(0, len));
    }
}

/// An in-neighborhood as a list of `(slot, multiplicity)` pairs.
#[derive(Debug, Clone)]
pub struct InVec {
    values: Vec<(usize, usize)>,
}

impl InVec {
    /// The neighborhood that lists what `array` lists.
    pub fn from_array(array: &InArray) -> (r: Self)
        ensures
            r.listed() == array.listed(),
            array.wf() ==> r.wf() && r.tally() == array.tally(),
    {
        let pairs = array.slice();
        let mut values: Vec<(usize, usize)> = Vec::new();
        let mut i: usize = 0;
        while i < pairs.len()
            invariant
                i <= pairs@.len(),
                values@ == pairs@.subrange(0, i as int),
            decreases pairs@.len() - i,
        {
            values.push(pairs[i]);
            i = i + 1;
            assert(values@ =~= pairs@.subrange(0, i as int));
        }
        assert(values@ =~= array.listed());
        let r = InVec { values };
        proof {
            if array.wf() {
                lemma_same_list(r, *array);
            }
        }
        r
    }

    /// The list behind the neighborhood.
    pub closed spec fn listed(&self) -> Seq<(usize, usize)> {
        self.values@
    }

    /// The multiplicity of every slot, as an array.
    pub fn counts(&self) -> (r: [usize; 7])
        requires
            self.wf(),
        ensures
            tally_in(r) == self.tally(),
    {
        let mut counts: [usize; 7] = [0, 0, 0, 0, 0, 0, 0];
        let mut done: usize = 0;
        assert(self.values@.subrange(0, 0) =~= Seq::empty());
        assert(tally_in(counts) =~= no_neighbors());
        while done < self.values.len()
            invariant
                done <= self.values.len(),
                self.wf(),
                tally_in(counts) == tally_of(self.values@.subrange(0, done as int)),
            decreases self.values.len() - done,
        {
            let (slot, times) = self.values[done];
            proof {
                lemma_tally_of_prefix(self.values@, done + 1);
                lemma_tally_of_is_tally(self.values@.subrange(0, done as int));
                assert(self.values@.subrange(0, done + 1).drop_last() =~= self.values@.subrange(
                    0,
                    done as int,
                ));
                assert(tally_in(counts)[slot as int] == counts[slot as int]);
            }
            let ghost before = tally_in(counts);
            let sum = counts[slot] + times;
            counts[slot] = sum;
            done = done + 1;
            assert(tally_in(counts) =~= before.update(slot as int, (before[slot as int] + times) as nat));
        }
        assert(self.values@.subrange(0, done as int) =~= self.values@);
        counts
    }
}

impl Default for InVec {
    fn default() -> (r: Self)
        ensures
            r.wf(),
            r.tally() == no_neighbors(),
    {
        InVec { values: Vec::new() }
    }
}

impl InNeighborhood for InVec {
    closed spec fn tally(&self) -> Seq<nat> {
        tally_of(self.values@)
    }

    closed spec fn wf(&self) -> bool {
        &&& forall|i: int| 0 <= i < self.values@.len() ==> (#[trigger] self.values@[i]).0 < 7
        &&& total(tally_of(self.values@)) <= usize::MAX
        &&& compact(tally_of(self.values@))
    }

    open spec fn has_room(&self) -> bool {
        total(self.tally()) < usize::MAX
    }

    proof fn lemma_wf(&self) {
        lemma_tally_of_is_tally(self.values@);
    }

    proof fn lemma_room(&self) {
    }

    fn empty() -> (r: Self) {
        InVec { values: Vec::new() }
    }

    fn min(&self) -> (r: Option<usize>) {
        let counts = self.counts();
        first_occupied(&counts)
    }

    fn max(&self) -> (r: Option<usize>) {
        let counts = self.counts();
        last_occupied(&counts)
    }

    fn push(&mut self, value: usize) {
        proof {
            lemma_tally_of_is_tally(self.values@);
        }
        self.values.push((value, 1));
        assert(self.values@.drop_last() =~= old(self).values@);
    }

    fn pairs(&self) -> (r: Vec<(usize, usize)>) {
        let counts = self.counts();
        pairs_in(&counts)
    }

    fn is_empty(&self) -> (r: bool) {
        let counts = self.counts();
        none_occupied(&counts)
    }

    fn to_string(&self) -> (r: String) {
        let counts = self.counts();
        let mut text = String::new();
        if none_occupied(&counts) {
            push_char(&mut text, '[');
            push_char(&mut text, ']');
            assert(text@ =~= seq!['[', ']']);
        } else {
            push_digits(&mut text, &counts);
            assert(text@ =~= in_rendering(self.tally()));
        }
        text
    }
}

/// A list and a fixed-shape neighborhood that list the same slots with
/// the same multiplicities have the same tally.
pub proof fn lemma_same_list(dynamic: InVec, enumerated: InArray)
    requires
        enumerated.wf(),
        dynamic.listed() == enumerated.listed(),
    ensures
        dynamic.wf(),
        dynamic.tally() == enumerated.tally(),
{
    reveal_with_fuel(tally_of, 4);
    let l = enumerated.listed();
    if l.len() == 1 {
        assert(l.drop_last() =~= Seq::empty());
    } else if l.len() == 2 {
        assert(l.drop_last() =~= seq![l[0]]);
        assert(l.drop_last().drop_last() =~= Seq::empty());
    } else if l.len() == 3 {
        assert(l.drop_last() =~= seq![l[0], l[1]]);
        assert(l.drop_last().drop_last() =~= seq![l[0]]);
        assert(l.drop_last().drop_last().drop_last() =~= Seq::empty());
    }
    assert(tally_of(l) =~= enumerated.tally());
    crate::map::in_neighborhood::in_array::lemma_well_listed_tally(l);
}

} // verus!
