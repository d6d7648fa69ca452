//! One row of the map: seven nodes, each with the edges that arrive and
//! leave and, once set, a kind.

use vstd::prelude::*;
use super::grid::{lone, Node};
use super::in_neighborhood::InNeighborhood;
use super::kind::NodeKind;
use super::out_neighborhood::OutNeighborhood;
use super::tally::total;

verus! {

/// 1 for an occupied tally, 0 for an empty one.
pub open spec fn occupied(c: Seq<nat>) -> nat {
    if total(c) > 0 {
        1
    } else {
        0
    }
}

/// Number of nodes of a row at which an edge arrives.
pub open spec fn entered(row: Seq<Node>) -> nat {
    occupied(row[0].ins) + occupied(row[1].ins) + occupied(row[2].ins) + occupied(row[3].ins)
        + occupied(row[4].ins) + occupied(row[5].ins) + occupied(row[6].ins)
}

/// Number of nodes of a row from which an edge leaves.
pub open spec fn exited(row: Seq<Node>) -> nat {
    occupied(row[0].outs) + occupied(row[1].outs) + occupied(row[2].outs) + occupied(row[3].outs)
        + occupied(row[4].outs) + occupied(row[5].outs) + occupied(row[6].outs)
}

/// Seven nodes, each an in-neighborhood, an out-neighborhood and a kind.
pub struct Row<In: InNeighborhood, Out: OutNeighborhood> {
    pub values: [(In, Out, Option<NodeKind>); 7],
}

impl<In: InNeighborhood, Out: OutNeighborhood> View for Row<In, Out> {
    type V = Seq<Node>;

    open spec fn view(&self) -> Seq<Node> {
        Seq::new(7, |p: int| Node { ins: self.values[p].0.tally(), outs: self.values[p].1.tally() })
    }
}

impl<In: InNeighborhood, Out: OutNeighborhood> Default for Row<In, Out> {
    fn default() -> (row: Self)
        ensures
            row.wf(),
            row@ == Seq::new(7, |p: int| lone()),
            row.kinds_view() == Seq::new(7, |p: int| None::<NodeKind>),
    {
        Row::new()
    }
}

impl<In: InNeighborhood, Out: OutNeighborhood> Row<In, Out> {
    /// Every neighborhood of the row is well formed.
    pub open spec fn wf(&self) -> bool {
        forall|p: int|
            0 <= p < 7 ==> (#[trigger] self.values[p]).0.wf() && self.values[p].1.wf()
    }

    /// The kinds of the seven nodes.
    pub open spec fn kinds_view(&self) -> Seq<Option<NodeKind>> {
        Seq::new(7, |p: int| self.values[p].2)
    }

    /// A row without edges and without kinds.
    pub fn new() -> (row: Self)
        ensures
            row.wf(),
            row@ == Seq::new(7, |p: int| lone()),
            row.kinds_view() == Seq::new(7, |p: int| None::<NodeKind>),
    {
        let row = Row {
            values: [
                (In::empty(), Out::empty(), None),
                (In::empty(), Out::empty(), None),
                (In::empty(), Out::empty(), None),
                (In::empty(), Out::empty(), None),
                (In::empty(), Out::empty(), None),
                (In::empty(), Out::empty(), None),
                (In::empty(), Out::empty(), None),
            ],
        };
        assert(row@ =~= Seq::new(7, |p: int| lone()));
        assert(row.kinds_view() =~= Seq::new(7, |p: int| None::<NodeKind>));
        row
    }

    /// The seven nodes.
    pub fn values(&self) -> (r: &[(In, Out, Option<NodeKind>); 7])
        ensures
            *r == self.values,
    {
        &self.values
    }

    /// The out-neighborhood of the node at `position`.
    pub fn out_neighborhood(&self, position: usize) -> (r: &Out)
        requires
            position < 7,
        ensures
            *r == self.values[position as int].1,
    {
        &self.values[position].1
    }

    /// The out-neighborhood of the node at `position`, to change it.
    pub fn out_neighborhood_mut(&mut self, position: usize) -> (r: &mut Out)
        requires
            position < 7,
        ensures
            *r == old(self).values[position as int].1,
            final(self).values@ == old(self).values@.update(
                position as int,
                (
                    old(self).values[position as int].0,
                    *final(r),
                    old(self).values[position as int].2,
                ),
            ),
    {
        &mut self.values[position].1
    }

    /// The in-neighborhood of the node at `position`.
    pub fn in_neighborhood(&self, position: usize) -> (r: &In)
        requires
            position < 7,
        ensures
            *r == self.values[position as int].0,
    {
        &self.values[position].0
    }

    /// The in-neighborhood of the node at `position`, to change it.
    pub fn in_neighborhood_mut(&mut self, position: usize) -> (r: &mut In)
        requires
            position < 7,
        ensures
            *r == old(self).values[position as int].0,
            final(self).values@ == old(self).values@.update(
                position as int,
                (
                    *final(r),
                    old(self).values[position as int].1,
                    old(self).values[position as int].2,
                ),
            ),
    {
        &mut self.values[position].0
    }

    /// The kind of the node at `position`, if one is set.
    pub fn kind(&self, position: usize) -> (r: Option<&NodeKind>)
        requires
            position < 7,
        ensures
            match r {
                Some(kind) => self.values[position as int].2 == Some(*kind),
                None => self.values[position as int].2 is None,
            },
    {
        match &self.values[position].2 {
            Some(kind) => Some(kind),
            None => None,
        }
    }

    /// The kind of the node at `position`, to change it.
    pub fn kind_mut(&mut self, position: usize) -> (r: &mut Option<NodeKind>)
        requires
            position < 7,
        ensures
            *r == old(self).values[position as int].2,
            final(self).values@ == old(self).values@.update(
                position as int,
                (
                    old(self).values[position as int].0,
                    old(self).values[position as int].1,
                    *final(r),
                ),
            ),
    {
        &mut self.values[position].2
    }

    /// The seven in-neighborhoods, by position.
    pub fn in_neighborhoods(&self) -> (r: Vec<&In>)
        ensures
            r@.len() == 7,
            forall|p: int| 0 <= p < 7 ==> *(#[trigger] r@[p]) == self.values[p].0,
    {
        let mut hoods: Vec<&In> = Vec::new();
        let mut position: usize = 0;
        while position < 7
            invariant
                position <= 7,
                hoods@.len() == position,
                forall|p: int| 0 <= p < position ==> *(#[trigger] hoods@[p]) == self.values[p].0,
            decreases 7 - position,
        {
            hoods.push(&self.values[position].0);
            position = position + 1;
        }
        hoods
    }

    /// The seven out-neighborhoods, by position.
    pub fn out_neighborhoods(&self) -> (r: Vec<&Out>)
        ensures
            r@.len() == 7,
            forall|p: int| 0 <= p < 7 ==> *(#[trigger] r@[p]) == self.values[p].1,
    {
        let mut hoods: Vec<&Out> = Vec::new();
        let mut position: usize = 0;
        while position < 7
            invariant
                position <= 7,
                hoods@.len() == position,
                forall|p: int| 0 <= p < position ==> *(#[trigger] hoods@[p]) == self.values[p].1,
            decreases 7 - position,
        {
            hoods.push(&self.values[position].1);
            position = position + 1;
        }
        hoods
    }

    /// The seven kinds, by position.
    pub fn kinds(&self) -> (r: Vec<Option<NodeKind>>)
        ensures
            r@ == self.kinds_view(),
    {
        let mut kinds: Vec<Option<NodeKind>> = Vec::new();
        let mut position: usize = 0;
        while position < 7
            invariant
                position <= 7,
                kinds@.len() == position,
                forall|p: int| 0 <= p < position ==> #[trigger] kinds@[p] == self.values[p].2,
            decreases 7 - position,
        {
            kinds.push(self.values[position].2);
            position = position + 1;
        }
        assert(kinds@ =~= self.kinds_view());
        kinds
    }

    /// Number of nodes at which an edge arrives.
    pub fn count_in_neighborhoods(&self) -> (r: usize)
        requires
            self.wf(),
        ensures
            r == entered(self@),
            r <= 7,
    {
        let mut count: usize = 0;
        if !self.values[0].0.is_empty() {
            count = count + 1;
        }
        if !self.values[1].0.is_empty() {
            count = count + 1;
        }
        if !self.values[2].0.is_empty() {
            count = count + 1;
        }
        if !self.values[3].0.is_empty() {
            count = count + 1;
        }
        if !self.values[4].0.is_empty() {
            count = count + 1;
        }
        if !self.values[5].0.is_empty() {
            count = count + 1;
        }
        if !self.values[6].0.is_empty() {
            count = count + 1;
        }
        count
    }

    /// Number of nodes from which an edge leaves.
    pub fn count_out_neighborhoods(&self) -> (r: usize)
        requires
            self.wf(),
        ensures
            r == exited(self@),
            r <= 7,
    {
        let mut count: usize = 0;
        if !self.values[0].1.is_empty() {
            count = count + 1;
        }
        if !self.values[1].1.is_empty() {
            count = count + 1;
        }
        if !self.values[2].1.is_empty() {
            count = count + 1;
        }
        if !self.values[3].1.is_empty() {
            count = count + 1;
        }
        if !self.values[4].1.is_empty() {
            count = count + 1;
        }
        if !self.values[5].1.is_empty() {
            count = count + 1;
        }
        if !self.values[6].1.is_empty() {
            count = count + 1;
        }
        count
    }

    /// Sets the kind of the node at `position`.
    pub fn set_kind(&mut self, position: usize, kind: NodeKind)
        requires
            position < 7,
        ensures
            final(self)@ == old(self)@,
            final(self).wf() == old(self).wf(),
            final(self).kinds_view() == old(self).kinds_view().update(position as int, Some(kind)),
    {
        let slot = self.kind_mut(position);
        *slot = Some(kind);
        assert(self@ =~= old(self)@);
        assert(self.kinds_view() =~= old(self).kinds_view().update(position as int, Some(kind)));
        assert(old(self).wf() ==> self.wf()) by {
            if old(self).wf() {
                assert forall|p: int| 0 <= p < 7 implies (#[trigger] self.values[p]).0.wf()
                    && self.values[p].1.wf() by {
                    assert(old(self).values[p].0.wf());
                }
            }
        }
        assert(self.wf() ==> old(self).wf()) by {
            if self.wf() {
                assert forall|p: int| 0 <= p < 7 implies (#[trigger] old(self).values[p]).0.wf()
                    && old(self).values[p].1.wf() by {
                    assert(self.values[p].0.wf());
                }
            }
        }
    }

    /// Sets the kind of all seven nodes.
    pub fn set_kinds(&mut self, kind: NodeKind)
        ensures
            final(self)@ == old(self)@,
            final(self).wf() == old(self).wf(),
            final(self).kinds_view() == Seq::new(7, |p: int| Some(kind)),
    {
        let mut position: usize = 0;
        while position < 7
            invariant
                position <= 7,
                self@ == old(self)@,
                self.wf() == old(self).wf(),
                forall|p: int| 0 <= p < position ==> #[trigger] self.kinds_view()[p] == Some(kind),
            decreases 7 - position,
        {
            self.set_kind(position, kind);
            position = position + 1;
        }
        assert(self.kinds_view() =~= Seq::new(7, |p: int| Some(kind)));
    }
}

} // verus!
