//! Bottlenecks: rows that every path crosses in one and the same node.

use vstd::prelude::*;
use crate::filter::SeedFilter;
use crate::map::buffed_elite::{burning, EliteBuff};
use crate::map::grid::generated_grid;
use crate::map::in_neighborhood::in_vec::InVec;
use crate::map::in_neighborhood::InNeighborhood;
use crate::map::out_neighborhood::out_vec::OutVec;
use crate::map::out_neighborhood::OutNeighborhood;
use crate::map::rooms::generated_map;
use crate::map::row::exited;
use crate::map::skeleton::Skeleton;
use crate::map::DungeonMap;
use crate::rng::{xs128_seeded, Rng, State};
use crate::seed::{offset_seed, Seed};

verus! {

/// The state of the generator from which the map of the first act is
/// generated for `seed`.
pub open spec fn map_state(seed: Seed) -> State {
    xs128_seeded(offset_seed(seed.seed, 1))
}

/// Rejects the seeds whose path graph does not cross one row in a single
/// node.
pub struct Bottleneck<In: InNeighborhood, Out: OutNeighborhood> {
    pub row: usize,
    pub _phantom: core::marker::PhantomData<(In, Out)>,
}

impl<In: InNeighborhood, Out: OutNeighborhood> Bottleneck<In, Out> {
    /// The row that the filter looks at.
    pub open spec fn row(&self) -> int {
        self.row as int
    }

    /// The filter for the row of floor `floor`; floors count from 1.
    pub fn new(floor: usize) -> (filter: Self)
        requires
            floor >= 1,
        ensures
            filter.row() == floor - 1,
    {
        Bottleneck { row: floor - 1, _phantom: core::marker::PhantomData }
    }

    /// The filter for floor 6.
    pub fn const_default() -> (filter: Self)
        ensures
            filter.row() == 5,
    {
        Self::new(6)
    }
}

impl<In: InNeighborhood, Out: OutNeighborhood> SeedFilter for Bottleneck<In, Out> {
    open spec fn wf(&self) -> bool {
        self.row < 15
    }

    open spec fn rejects(&self, state: State) -> bool {
        exited(generated_grid(state).0[self.row as int]) != 1
    }

    open spec fn rejects_seed(&self, seed: Seed) -> bool {
        self.rejects(map_state(seed))
    }

    fn is_ready(&self) -> (ready: bool) {
        self.row < 15
    }

    fn reject_rng(&self, rng: &mut Rng) -> (rejected: bool) {
        let map = Skeleton::<6, In, Out>::generate(rng);
        assert(map.rows[self.row as int].wf());
        map.row(self.row).count_out_neighborhoods() != 1
    }

    fn reject(&self, seed: Seed) -> (rejected: bool) {
        let mut rng = seed.offset_rng(1);
        self.reject_rng(&mut rng)
    }
}

impl<In: InNeighborhood, Out: OutNeighborhood> Default for Bottleneck<In, Out> {
    fn default() -> (filter: Self)
        ensures
            filter.row() == 5,
    {
        Self::const_default()
    }
}

/// Rejects the seeds whose map does not cross one row in a single node or
/// has no burning elite with one of the required buffs.
pub struct BurningEliteBottleneck<'a> {
    pub row: usize,
    pub required_buffs: Option<&'a [EliteBuff]>,
}

/// Whether a buff is among the required ones; every buff is when none is
/// required.
pub open spec fn buff_allowed(required: Option<Seq<EliteBuff>>, buff: EliteBuff) -> bool {
    match required {
        Some(buffs) => buffs.contains(buff),
        None => true,
    }
}

/// Whether `buff` occurs in `buffs`.
fn has_buff(buffs: &[EliteBuff], buff: EliteBuff) -> (r: bool)
    ensures
        r == buffs@.contains(buff),
{
    let mut index: usize = 0;
    while index < buffs.len()
        invariant
            index <= buffs@.len(),
            forall|i: int| 0 <= i < index ==> buffs@[i] != buff,
        decreases buffs@.len() - index,
    {
        if buffs[index] == buff {
            return true;
        }
        index = index + 1;
    }
    false
}

impl<'a> BurningEliteBottleneck<'a> {
    /// The row that the filter looks at.
    pub open spec fn row(&self) -> int {
        self.row as int
    }

    /// The buffs of which the burning elite must have one, if any are
    /// required.
    pub open spec fn required(&self) -> Option<Seq<EliteBuff>> {
        match self.required_buffs {
            Some(buffs) => Some(buffs@),
            None => None,
        }
    }

    /// The filter for the row of floor `floor`, counted from 1, and the
    /// required buffs.
    pub fn new(floor: usize, required_buffs: Option<&'a [EliteBuff]>) -> (filter: Self)
        requires
            floor >= 1,
        ensures
            filter.row() == floor - 1,
            filter.required() == match required_buffs {
                Some(buffs) => Some(buffs@),
                None => None,
            },
    {
        BurningEliteBottleneck { row: floor - 1, required_buffs }
    }

    /// The filter for floor 6 and any buff.
    pub fn const_default() -> (filter: Self)
        ensures
            filter.row() == 5,
            filter.required() is None,
    {
        Self::new(6, None)
    }
}

impl<'a> Default for BurningEliteBottleneck<'a> {
    fn default() -> (filter: Self)
        ensures
            filter.row() == 5,
            filter.required() is None,
    {
        Self::const_default()
    }
}

impl<'a> SeedFilter for BurningEliteBottleneck<'a> {
    open spec fn wf(&self) -> bool {
        self.row < 15
    }

    open spec fn rejects(&self, state: State) -> bool {
        let (plan, after) = generated_map(state, true);
        if exited(plan.grid[self.row as int]) != 1 {
            true
        } else {
            match burning(plan.kinds, after).0 {
                Some(info) => !buff_allowed(self.required(), info.buff),
                None => true,
            }
        }
    }

    open spec fn rejects_seed(&self, seed: Seed) -> bool {
        self.rejects(map_state(seed))
    }

    fn is_ready(&self) -> (ready: bool) {
        self.row < 15
    }

    fn reject_rng(&self, rng: &mut Rng) -> (rejected: bool) {
        let map = DungeonMap::<6, InVec, OutVec>::generate(rng, true);
        assert(map.skeleton.rows[self.row as int].wf());
        if map.row(self.row).count_out_neighborhoods() != 1 {
            return true;
        }
        match map.burning_elite(rng) {
            Some(info) => match self.required_buffs {
                Some(buffs) => !has_buff(buffs, info.buff),
                None => false,
            },
            None => true,
        }
    }

    fn reject(&self, seed: Seed) -> (rejected: bool) {
        let mut rng = seed.offset_rng(1);
        self.reject_rng(&mut rng)
    }
}

/// Rejects the seeds whose path graph does not cross every one of the rows
/// from the second up to a given one in a single node.
pub struct OnePath<In: InNeighborhood, Out: OutNeighborhood> {
    pub length: usize,
    pub _phantom: core::marker::PhantomData<(In, Out)>,
}

/// Whether every row of a path graph from `from` up to, but without,
/// `length` is crossed in a single node.
pub open spec fn single_file(g: crate::map::grid::Grid, from: int, length: int) -> bool
    decreases length - from,
{
    if from >= length {
        true
    } else {
        exited(g[from]) == 1 && single_file(g, from + 1, length)
    }
}

impl<In: InNeighborhood, Out: OutNeighborhood> OnePath<In, Out> {
    /// The number of rows, counted from the first, of which all but the
    /// first must be crossed in a single node.
    pub open spec fn length(&self) -> int {
        self.length as int
    }

    /// The filter for the rows below `length`.
    pub fn new(length: usize) -> (filter: Self)
        ensures
            filter.length() == length,
    {
        OnePath { length, _phantom: core::marker::PhantomData }
    }

    /// The filter for the rows below row 6.
    pub fn const_default() -> (filter: Self)
        ensures
            filter.length() == 6,
    {
        Self::new(6)
    }
}

impl<In: InNeighborhood, Out: OutNeighborhood> Default for OnePath<In, Out> {
    fn default() -> (filter: Self)
        ensures
            filter.length() == 6,
    {
        Self::const_default()
    }
}

impl<In: InNeighborhood, Out: OutNeighborhood> SeedFilter for OnePath<In, Out> {
    open spec fn wf(&self) -> bool {
        self.length <= 15
    }

    open spec fn rejects(&self, state: State) -> bool {
        !single_file(generated_grid(state).0, 1, self.length as int)
    }

    open spec fn rejects_seed(&self, seed: Seed) -> bool {
        self.rejects(map_state(seed))
    }

    fn is_ready(&self) -> (ready: bool) {
        self.length <= 15
    }

    fn reject_rng(&self, rng: &mut Rng) -> (rejected: bool) {
        let map = Skeleton::<6, In, Out>::generate(rng);
        let mut row: usize = 1;
        while row < self.length
            invariant
                1 <= row,
                self.length <= 15,
                map.wf(),
                map@ == generated_grid(old(rng)@).0,
                single_file(map@, row as int, self.length as int) == single_file(
                    map@,
                    1,
                    self.length as int,
                ),
            decreases self.length - row,
        {
            assert(map.rows[row as int].wf());
            assert(single_file(map@, row as int, self.length as int) == (exited(map@[row as int])
                == 1 && single_file(map@, row + 1, self.length as int)));
            if map.row(row).count_out_neighborhoods() != 1 {
                return true;
            }
            row = row + 1;
        }
        false
    }

    fn reject(&self, seed: Seed) -> (rejected: bool) {
        let mut rng = seed.offset_rng(1);
        self.reject_rng(&mut rng)
    }
}

} // verus!
