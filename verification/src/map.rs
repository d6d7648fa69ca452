//! The dungeon map: a grid of fifteen rows of seven slots, the paths drawn
//! through it and the room kind of every node on a path.

pub mod assign_nodes;
pub mod buffed_elite;
pub mod canonize;
pub mod display;
pub mod edges;
pub mod filters;
pub mod grid;
pub mod in_neighborhood;
pub mod kind;
pub mod out_neighborhood;
pub mod rooms;
pub mod row;
pub mod skeleton;
pub mod slots;
pub mod tally;

use vstd::prelude::*;
use grid::orderly;
use in_neighborhood::InNeighborhood;
use kind::NodeKind;
use out_neighborhood::OutNeighborhood;
use rooms::{generated_map, lemma_generated_map_is_well_placed, no_kinds, well_placed, Plan};
use crate::rng::Rng;
use row::Row;
use skeleton::Skeleton;

verus! {

/// A map: the path graph and the kind of every node. `PATHS` names the
/// number of paths; the generator draws six.
pub struct DungeonMap<const PATHS: usize, In: InNeighborhood, Out: OutNeighborhood> {
    pub skeleton: Skeleton<PATHS, In, Out>,
    pub kinds: [[NodeKind; 7]; 15],
}

/// The act for which a map is generated.
#[derive(Debug, Clone, Copy, PartialEq, Eq, Structural)]
pub enum Act {
    One,
    Two,
    Three,
}

/// The name of an act.
pub open spec fn act_name(act: Act) -> Seq<char> {
    match act {
        Act::One => "Act I"@,
        Act::Two => "Act II"@,
        Act::Three => "Act III"@,
    }
}

impl Act {
    /// What is added to a seed before the map of the act is generated.
    /// Only the first act is generated.
    pub fn seed_offset(&self) -> (offset: i64)
        requires
            *self == Act::One,
        ensures
            offset == 1,
    {
        1
    }

    /// The name of the act.
    pub fn to_string(&self) -> (name: String)
        ensures
            name@ == act_name(*self),
    {
        match self {
            Act::One => "Act I".to_owned(),
            Act::Two => "Act II".to_owned(),
            Act::Three => "Act III".to_owned(),
        }
    }
}

impl Default for Act {
    fn default() -> (act: Self)
        ensures
            act == Act::One,
    {
        Act::One
    }
}

impl<const PATHS: usize, In: InNeighborhood, Out: OutNeighborhood> Default for DungeonMap<
    PATHS,
    In,
    Out,
> {
    fn default() -> (map: Self)
        ensures
            map.wf(),
            map@.grid == grid::blank(),
            map@.kinds == no_kinds(),
    {
        DungeonMap::new()
    }
}

impl<const PATHS: usize, In: InNeighborhood, Out: OutNeighborhood> View for DungeonMap<PATHS, In, Out> {
    type V = Plan;

    open spec fn view(&self) -> Plan {
        Plan { grid: self.skeleton@, kinds: self.kinds_view() }
    }
}

impl<const PATHS: usize, In: InNeighborhood, Out: OutNeighborhood> DungeonMap<PATHS, In, Out> {
    /// The kind of every node.
    pub open spec fn kinds_view(&self) -> Seq<Seq<NodeKind>> {
        Seq::new(15, |r: int| self.kinds[r]@)
    }

    /// The neighborhoods are well formed, and the edges stay local, never
    /// cross and meet in no node more than six at a time.
    pub open spec fn wf(&self) -> bool {
        &&& self.skeleton.wf()
        &&& orderly(self.skeleton@, 6)
    }

    /// A map without edges and without kinds.
    pub fn new() -> (map: Self)
        ensures
            map.wf(),
            map@.grid == grid::blank(),
            map@.kinds == no_kinds(),
    {
        let unassigned = [
            NodeKind::Unassigned,
            NodeKind::Unassigned,
            NodeKind::Unassigned,
            NodeKind::Unassigned,
            NodeKind::Unassigned,
            NodeKind::Unassigned,
            NodeKind::Unassigned,
        ];
        let map = DungeonMap {
            skeleton: Skeleton::new(),
            kinds: [
                unassigned,
                unassigned,
                unassigned,
                unassigned,
                unassigned,
                unassigned,
                unassigned,
                unassigned,
                unassigned,
                unassigned,
                unassigned,
                unassigned,
                unassigned,
                unassigned,
                unassigned,
            ],
        };
        assert(map@.kinds =~= no_kinds()) by {
            assert forall|r: int| 0 <= r < 15 implies #[trigger] map@.kinds[r] =~= no_kinds()[r] by {
                assert(map.kinds[r] == unassigned);
            }
        }
        proof {
            grid::lemma_blank();
            grid::lemma_orderly_for_more(grid::blank(), 0, 6);
        }
        map
    }

    /// The map that the generator's draws produce: the six paths, the first
    /// row's repeated edges removed, and a room kind for every node on a
    /// path.
    pub fn generate(rng: &mut Rng, ascension: bool) -> (map: Self)
        ensures
            map.wf(),
            (map@, final(rng)@) == generated_map(old(rng)@, ascension),
            well_placed(map@),
    {
        proof {
            lemma_generated_map_is_well_placed(rng@, ascension);
        }
        let mut map = Self::new();
        map.skeleton = Skeleton::generate(rng);
        map.filter_redundant_edges_from_first_row();
        map.assign_rooms(rng, ascension);
        map
    }

    /// The row with index `row`.
    pub fn row(&self, row: usize) -> (r: &Row<In, Out>)
        requires
            row < 15,
        ensures
            *r == self.skeleton.rows[row as int],
    {
        &self.skeleton.rows[row]
    }

    /// The fifteen rows.
    pub fn rows(&self) -> (r: &[Row<In, Out>; 15])
        ensures
            *r == self.skeleton.rows,
    {
        &self.skeleton.rows
    }

    /// The kind of the node at `position` in `row`.
    pub fn kind(&self, row: usize, position: usize) -> (r: &NodeKind)
        requires
            row < 15,
            position < 7,
        ensures
            *r == self@.kinds[row as int][position as int],
    {
        &self.kinds[row][position]
    }

    /// The kinds of the seven nodes of `row`.
    pub fn kinds(&self, row: usize) -> (r: &[NodeKind; 7])
        requires
            row < 15,
        ensures
            r@ == self@.kinds[row as int],
    {
        &self.kinds[row]
    }
}

} // verus!
