//! The burning elite: one elite of the map, drawn at random, with a buff
//! drawn at random.

use vstd::prelude::*;
use super::in_neighborhood::InNeighborhood;
use super::kind::NodeKind;
use super::out_neighborhood::OutNeighborhood;
use super::DungeonMap;
use crate::rng::{draw, Rng, State};

verus! {

/// The buff of the burning elite.
#[derive(Debug, Clone, Copy, PartialEq, Eq, Structural)]
pub enum EliteBuff {
    Strength,
    MaxHP,
    Metallicize,
    Regenerate,
}

/// The burning elite of a map: where it stands, its buff, its index among
/// the elites of the map and their number.
#[derive(Debug, Clone, Copy, PartialEq, Eq, Structural)]
pub struct EliteInfo {
    pub buff_x: usize,
    pub buff_y: usize,
    pub buff: EliteBuff,
    pub buff_index: usize,
    pub count: usize,
}

/// The `(x, y)` positions of the elites among the first `cells` nodes of
/// the map, counted row by row and left to right.
pub open spec fn elites_below(kinds: Seq<Seq<NodeKind>>, cells: int) -> Seq<(usize, usize)>
    decreases cells,
{
    if cells <= 0 {
        Seq::empty()
    } else {
        let rest = elites_below(kinds, cells - 1);
        let y = (cells - 1) / 7;
        let x = (cells - 1) % 7;
        if kinds[y][x] == NodeKind::Elite {
            rest.push((x as usize, y as usize))
        } else {
            rest
        }
    }
}

/// The `(x, y)` positions of the elites of the map, row by row and left to
/// right.
pub open spec fn elites(kinds: Seq<Seq<NodeKind>>) -> Seq<(usize, usize)> {
    elites_below(kinds, 105)
}

/// The buff for a draw among four.
pub open spec fn buff_of(d: int) -> EliteBuff {
    if d == 0 {
        EliteBuff::Strength
    } else if d == 1 {
        EliteBuff::MaxHP
    } else if d == 2 {
        EliteBuff::Metallicize
    } else {
        EliteBuff::Regenerate
    }
}

/// The position of the burning elite, its index and the number of elites,
/// with the state that the draw leaves; nothing, and no draw, for a map
/// without elites.
pub open spec fn burning_position(kinds: Seq<Seq<NodeKind>>, state: State) -> (
    Option<((usize, usize), usize, usize)>,
    State,
) {
    let all = elites(kinds);
    if all.len() == 0 {
        (None, state)
    } else {
        let (index, after) = draw(state, all.len() as u64);
        (Some((all[index], index as usize, all.len() as usize)), after)
    }
}

/// The burning elite with its buff, and the state that the two draws
/// leave: the position is drawn first, the buff second.
pub open spec fn burning(kinds: Seq<Seq<NodeKind>>, state: State) -> (Option<EliteInfo>, State) {
    match burning_position(kinds, state) {
        (Some(((x, y), index, count)), s1) => {
            let (d, s2) = draw(s1, 4);
            (
                Some(
                    EliteInfo {
                        buff_x: x,
                        buff_y: y,
                        buff: buff_of(d),
                        buff_index: index,
                        count,
                    },
                ),
                s2,
            )
        },
        (None, s1) => (None, s1),
    }
}

/// The elites among the first `cells` nodes are no more than the nodes.
pub proof fn lemma_elites_below_len(kinds: Seq<Seq<NodeKind>>, cells: int)
    requires
        0 <= cells,
    ensures
        elites_below(kinds, cells).len() <= cells,
    decreases cells,
{
    if cells > 0 {
        lemma_elites_below_len(kinds, cells - 1);
    }
}

impl<const PATHS: usize, In: InNeighborhood, Out: OutNeighborhood> DungeonMap<PATHS, In, Out> {
    /// The burning elite of the map with its buff, if the map has an
    /// elite.
    pub fn burning_elite(&self, rng: &mut Rng) -> (info: Option<EliteInfo>)
        ensures
            (info, final(rng)@) == burning(self@.kinds, old(rng)@),
    {
        match self.burning_elite_position(rng) {
            Some(((x, y), buff_index, count)) => {
                let buff = Self::burning_elite_buff(rng);
                Some(EliteInfo { buff_x: x, buff_y: y, buff, buff_index, count })
            },
            None => None,
        }
    }

    /// The position of the burning elite, drawn among the elites of the
    /// map, with its index and their number; nothing for a map without
    /// elites.
    pub fn burning_elite_position(&self, rng: &mut Rng) -> (r: Option<
        ((usize, usize), usize, usize),
    >)
        ensures
            (r, final(rng)@) == burning_position(self@.kinds, old(rng)@),
    {
        let mut positions: Vec<(usize, usize)> = Vec::new();
        let mut y: usize = 0;
        while y < 15
            invariant
                y <= 15,
                positions@ == elites_below(self@.kinds, y * 7),
            decreases 15 - y,
        {
            let mut x: usize = 0;
            while x < 7
                invariant
                    x <= 7,
                    y < 15,
                    positions@ == elites_below(self@.kinds, y * 7 + x),
                decreases 7 - x,
            {
                assert((y * 7 + x) / 7 == y && (y * 7 + x) % 7 == x);
                if matches!(self.kind(y, x), NodeKind::Elite) {
                    positions.push((x, y));
                }
                x = x + 1;
            }
            y = y + 1;
        }
        proof {
            lemma_elites_below_len(self@.kinds, 105);
        }
        let count = positions.len();
        if count == 0 {
            return None;
        }
        let pos = rng.next_capped_u64(count as u64) as usize;
        Some((positions[pos], pos, count))
    }

    /// The buff of the burning elite: one of four, drawn.
    pub fn burning_elite_buff(rng: &mut Rng) -> (buff: EliteBuff)
        ensures
            buff == buff_of(draw(old(rng)@, 4).0),
            final(rng)@ == draw(old(rng)@, 4).1,
    {
        let d = rng.next_capped_u64(4);
        if d == 0 {
            EliteBuff::Strength
        } else if d == 1 {
            EliteBuff::MaxHP
        } else if d == 2 {
            EliteBuff::Metallicize
        } else {
            EliteBuff::Regenerate
        }
    }
}

} // verus!
