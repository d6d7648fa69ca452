//! Rows, path graphs and maps in the fixed-shape representations, whatever
//! representations they were built in.

use vstd::prelude::*;
use super::in_neighborhood::in_array::InArray;
use super::in_neighborhood::in_byte::InByte;
use super::in_neighborhood::in_vec::InVec;
use super::in_neighborhood::InNeighborhood;
use super::kind::NodeKind;
use super::out_neighborhood::out_array::OutArray;
use super::out_neighborhood::out_byte::OutByte;
use super::out_neighborhood::out_vec::OutVec;
use super::out_neighborhood::OutNeighborhood;
use super::row::Row;
use super::skeleton::Skeleton;
use super::DungeonMap;

verus! {

/// Marks the representations that are not the fixed-shape ones.
pub trait NotCanonical {

}

impl NotCanonical for InByte {

}

impl NotCanonical for InVec {

}

impl NotCanonical for OutByte {

}

impl NotCanonical for OutVec {

}

/// A row in the fixed-shape representations.
pub type CanonicalRow = Row<InArray, OutArray>;

/// A path graph in the fixed-shape representations.
pub type CanonicalSkeleton<const PATHS: usize> = Skeleton<PATHS, InArray, OutArray>;

/// A map in the fixed-shape representations.
pub type CanonicalMap<const PATHS: usize> = DungeonMap<PATHS, InArray, OutArray>;

/// The node in the fixed-shape representations.
fn canonical_node<In: InNeighborhood, Out: OutNeighborhood>(
    node: &(In, Out, Option<NodeKind>),
) -> (r: (InArray, OutArray, Option<NodeKind>))
    requires
        node.0.wf(),
        node.1.wf(),
    ensures
        r.0.wf(),
        r.1.wf(),
        r.0.tally() == node.0.tally(),
        r.1.tally() == node.1.tally(),
        r.2 == node.2,
{
    (InArray::from_neighborhood(&node.0), OutArray::from_neighborhood(&node.1), node.2)
}

impl<In: InNeighborhood + NotCanonical, Out: OutNeighborhood + NotCanonical> Row<In, Out> {
    /// The row in the fixed-shape representations.
    pub fn canonize(&self) -> (row: CanonicalRow)
        requires
            self.wf(),
        ensures
            row.wf(),
            row@ == self@,
            row.kinds_view() == self.kinds_view(),
    {
        let row = Row {
            values: [
                canonical_node(&self.values[0]),
                canonical_node(&self.values[1]),
                canonical_node(&self.values[2]),
                canonical_node(&self.values[3]),
                canonical_node(&self.values[4]),
                canonical_node(&self.values[5]),
                canonical_node(&self.values[6]),
            ],
        };
        assert(row@ =~= self@);
        assert(row.kinds_view() =~= self.kinds_view());
        row
    }
}

impl<
    const PATHS: usize,
    In: InNeighborhood + NotCanonical,
    Out: OutNeighborhood + NotCanonical,
> Skeleton<PATHS, In, Out> {
    /// The path graph in the fixed-shape representations.
    pub fn canonize(&self) -> (skeleton: CanonicalSkeleton<PATHS>)
        requires
            self.wf(),
        ensures
            skeleton.wf(),
            skeleton@ == self@,
    {
        let skeleton = Skeleton {
            rows: [
                self.rows[0].canonize(),
                self.rows[1].canonize(),
                self.rows[2].canonize(),
                self.rows[3].canonize(),
                self.rows[4].canonize(),
                self.rows[5].canonize(),
                self.rows[6].canonize(),
                self.rows[7].canonize(),
                self.rows[8].canonize(),
                self.rows[9].canonize(),
                self.rows[10].canonize(),
                self.rows[11].canonize(),
                self.rows[12].canonize(),
                self.rows[13].canonize(),
                self.rows[14].canonize(),
            ],
        };
        assert(skeleton@ =~= self@);
        skeleton
    }
}

impl<
    const PATHS: usize,
    In: InNeighborhood + NotCanonical,
    Out: OutNeighborhood + NotCanonical,
> DungeonMap<PATHS, In, Out> {
    /// The map in the fixed-shape representations.
    pub fn canonize(&self) -> (map: CanonicalMap<PATHS>)
        requires
            self.wf(),
        ensures
            map.wf(),
            map@ == self@,
    {
        let map = DungeonMap { skeleton: self.skeleton.canonize(), kinds: self.kinds };
        assert(map@.kinds =~= self@.kinds);
        map
    }
}

} // verus!
