//! The path graph of a map: fifteen rows and the six paths drawn through
//! them, without room kinds.

use vstd::prelude::*;
use super::grid::{
    beside, blank, clamped, disputes, disputes_below, fits, generated_grid, is_grid, lemma_blank,
    lemma_clamped, lemma_naive_next, lemma_reroll, lemma_walk_start, lemma_with_edge, orderly,
    redrawn, reroll, reroll_modulus, rerolled, skips, walked, walking, with_edge, with_path,
    with_paths, Grid, REDRAW_LIMIT,
};
use super::edges::{carries, lemma_generated_edges};
use super::in_neighborhood::InNeighborhood;
use super::out_neighborhood::OutNeighborhood;
use super::row::Row;
use super::slots::{in_counts, tally_in};
use super::tally::{
    around, compact, lemma_around_is_compact, lemma_around_with_one_more, total, with_member,
    with_one_more, LAST_POSITION, WIDTH,
};
use crate::rng::{draw, Rng};

verus! {

/// Fifteen rows of nodes with their edges. `PATHS` names the number of
/// paths in the type, as the map that owns the skeleton does.
pub struct Skeleton<const PATHS: usize, In: InNeighborhood, Out: OutNeighborhood> {
    pub rows: [Row<In, Out>; 15],
}

impl<const PATHS: usize, In: InNeighborhood, Out: OutNeighborhood> View for Skeleton<
    PATHS,
    In,
    Out,
> {
    type V = Grid;

    open spec fn view(&self) -> Grid {
        Seq::new(15, |r: int| self.rows[r]@)
    }
}

impl<const PATHS: usize, In: InNeighborhood, Out: OutNeighborhood> Default for Skeleton<
    PATHS,
    In,
    Out,
> {
    fn default() -> (skeleton: Self)
        ensures
            skeleton.wf(),
            skeleton@ == blank(),
    {
        Skeleton::new()
    }
}

/// The candidate after one reroll with draw `d`.
fn reroll_candidate(position: usize, next: usize, d: usize) -> (r: usize)
    requires
        position < 7,
        beside(position as int, next as int),
        d < reroll_modulus(position as int, next as int),
    ensures
        r == reroll(position as int, next as int, d as int),
        beside(position as int, r as int),
{
    proof {
        lemma_reroll(position as int, next as int, d as int);
    }
    let t = position + d;
    if next > position {
        (if t < 1 {
            1
        } else {
            t
        }) - 1
    } else if next == position {
        if t == 0 {
            1
        } else if t >= LAST_POSITION {
            position - 1
        } else {
            t - 1
        }
    } else {
        if t > LAST_POSITION {
            LAST_POSITION
        } else {
            t
        }
    }
}

impl<const PATHS: usize, In: InNeighborhood, Out: OutNeighborhood> Skeleton<PATHS, In, Out> {
    /// Every neighborhood of the skeleton is well formed.
    pub open spec fn wf(&self) -> bool {
        forall|r: int| 0 <= r < 15 ==> (#[trigger] self.rows[r]).wf()
    }

    /// A skeleton without edges.
    pub fn new() -> (skeleton: Self)
        ensures
            skeleton.wf(),
            skeleton@ == blank(),
    {
        let skeleton = Skeleton {
            rows: [
                Row::new(),
                Row::new(),
                Row::new(),
                Row::new(),
                Row::new(),
                Row::new(),
                Row::new(),
                Row::new(),
                Row::new(),
                Row::new(),
                Row::new(),
                Row::new(),
                Row::new(),
                Row::new(),
                Row::new(),
            ],
        };
        assert(skeleton@ =~= blank());
        skeleton
    }

    /// The skeleton that the generator's draws produce: six paths from the
    /// first row to the last. Its edges stay local and never cross, no
    /// node is met by more than six of them, every edge is seen from both
    /// of its ends, and six edges arrive in every row above the first.
    pub fn generate(rng: &mut Rng) -> (skeleton: Self)
        ensures
            skeleton.wf(),
            orderly(skeleton@, 6),
            carries(skeleton@, 6),
            (skeleton@, final(rng)@) == generated_grid(old(rng)@),
    {
        let mut skeleton = Self::new();
        proof {
            lemma_blank();
            lemma_generated_edges(rng@);
        }
        skeleton.create_paths(rng);
        skeleton
    }

    /// The row with index `row`.
    pub fn row(&self, row: usize) -> (r: &Row<In, Out>)
        requires
            row < 15,
        ensures
            *r == self.rows[row as int],
    {
        &self.rows[row]
    }

    pub(crate) fn row_mut(&mut self, row: usize) -> (r: &mut Row<In, Out>)
        requires
            row < 15,
        ensures
            *r == old(self).rows[row as int],
            final(self).rows@ == old(self).rows@.update(row as int, *final(r)),
    {
        &mut self.rows[row]
    }

    /// The fifteen rows.
    pub fn rows(&self) -> (r: &[Row<In, Out>; 15])
        ensures
            *r == self.rows,
    {
        &self.rows
    }

    fn create_paths(&mut self, rng: &mut Rng)
        requires
            old(self).wf(),
            old(self)@ == blank(),
        ensures
            final(self).wf(),
            orderly(final(self)@, 6),
            (final(self)@, final(rng)@) == generated_grid(old(rng)@),
    {
        proof {
            lemma_blank();
        }
        let first_position = self.create_first_path(rng);
        self.create_second_path(rng, first_position);
        let mut done: usize = 2;
        while done < 6
            invariant
                2 <= done <= 6,
                self.wf(),
                orderly(self@, done as nat),
                with_paths(self@, rng@, (6 - done) as nat) == generated_grid(old(rng)@),
            decreases 6 - done,
        {
            self.create_path(rng, Ghost(done as nat));
            done = done + 1;
        }
    }

    fn create_first_path(&mut self, rng: &mut Rng) -> (first_position: usize)
        requires
            old(self).wf(),
            orderly(old(self)@, 0),
        ensures
            final(self).wf(),
            orderly(final(self)@, 1),
            first_position < 7,
            first_position == draw(old(rng)@, 7).0,
            (final(self)@, final(rng)@) == walked(
                old(self)@,
                draw(old(rng)@, 7).1,
                0,
                first_position as int,
            ),
    {
        let first_position = rng.next_capped_u64(WIDTH as u64) as usize;
        self.walk(rng, first_position, Ghost(0));
        first_position
    }

    /// Draws the edges of one path from `position` in the first row up to
    /// the last row.
    fn walk(&mut self, rng: &mut Rng, start: usize, Ghost(done): Ghost<nat>)
        requires
            old(self).wf(),
            orderly(old(self)@, done),
            done < 6,
            start < 7,
        ensures
            final(self).wf(),
            orderly(final(self)@, done + 1),
            (final(self)@, final(rng)@) == walked(old(self)@, old(rng)@, 0, start as int),
    {
        proof {
            lemma_walk_start(self@, done);
        }
        let mut position = start;
        let mut row: usize = 0;
        while row < 14
            invariant
                row <= 14,
                position < 7,
                done < 6,
                self.wf(),
                walking(self@, done, row as int),
                row > 0 ==> total(self@[row as int][position as int].ins) > 0,
                walked(self@, rng@, row as int, position as int) == walked(
                    old(self)@,
                    old(rng)@,
                    0,
                    start as int,
                ),
            decreases 14 - row,
        {
            let next_position = self.next_position(rng, row, position, Ghost(done));
            proof {
                let g = self@;
                assert(around(g[row as int][position as int].outs, position as int));
                assert(around(g[row + 1][next_position as int].ins, next_position as int));
                lemma_around_with_one_more(
                    g[row as int][position as int].outs,
                    position as int,
                    next_position as int,
                );
                lemma_around_with_one_more(
                    g[row + 1][next_position as int].ins,
                    next_position as int,
                    position as int,
                );
                lemma_around_is_compact(
                    with_member(g[row as int][position as int].outs, next_position as int),
                    position as int,
                );
                lemma_around_is_compact(
                    with_one_more(g[row + 1][next_position as int].ins, position as int),
                    next_position as int,
                );
                assert(total(g[row + 1][next_position as int].ins) <= done);
                lemma_with_edge(g, done, row as int, position as int, next_position as int);
            }
            self.add_edge(row, position, next_position);
            position = next_position;
            row = row + 1;
        }
    }

    fn add_edge(&mut self, row: usize, position: usize, next_position: usize)
        requires
            old(self).wf(),
            is_grid(old(self)@),
            row < 14,
            position < 7,
            next_position < 7,
            compact(
                with_member(old(self)@[row as int][position as int].outs, next_position as int),
            ),
            compact(
                with_one_more(old(self)@[row + 1][next_position as int].ins, position as int),
            ),
            total(old(self)@[row + 1][next_position as int].ins) < 6,
        ensures
            final(self).wf(),
            final(self)@ == with_edge(old(self)@, row as int, position as int, next_position as int),
    {
        let ghost before = self@;
        let lower = self.row_mut(row);
        let out_neighborhood = lower.out_neighborhood_mut(position);
        out_neighborhood.push(next_position);
        let ghost between = self@;
        proof {
            let from = before[row as int][position as int];
            let want = before.update(
                row as int,
                before[row as int].update(
                    position as int,
                    super::grid::Node {
                        ins: from.ins,
                        outs: with_member(from.outs, next_position as int),
                    },
                ),
            );
            assert(old(self).rows[row as int].wf());
            assert forall|r: int| 0 <= r < 15 implies (#[trigger] self.rows[r]).wf() by {
                assert(old(self).rows[r].wf());
                if r == row {
                    assert forall|p: int| 0 <= p < 7 implies (#[trigger] self.rows[r].values[p]).0.wf()
                        && self.rows[r].values[p].1.wf() by {
                        assert(old(self).rows[r].values[p].0.wf());
                    }
                }
            }
            assert forall|r: int| 0 <= r < 15 implies #[trigger] between[r] == want[r] by {
                if r == row {
                    assert(between[r] =~= want[r]);
                }
            }
            assert(between =~= want);
        }
        let upper = self.row_mut(row + 1);
        let in_neighborhood = upper.in_neighborhood_mut(next_position);
        proof {
            in_neighborhood.lemma_room();
        }
        in_neighborhood.push(position);
        proof {
            let to = between[row + 1][next_position as int];
            let want = between.update(
                row + 1,
                between[row + 1].update(
                    next_position as int,
                    super::grid::Node {
                        ins: with_one_more(to.ins, position as int),
                        outs: to.outs,
                    },
                ),
            );
            let after = self@;
            assert forall|r: int| 0 <= r < 15 implies (#[trigger] self.rows[r]).wf() by {
                if r == row + 1 {
                    assert forall|p: int| 0 <= p < 7 implies (#[trigger] self.rows[r].values[p]).0.wf()
                        && self.rows[r].values[p].1.wf() by {
                    }
                }
            }
            assert forall|r: int| 0 <= r < 15 implies #[trigger] after[r] == want[r] by {
                if r == row + 1 {
                    assert(after[r] =~= want[r]);
                }
            }
            assert(after =~= want);
        }
    }

    fn create_second_path(&mut self, rng: &mut Rng, first_position: usize)
        requires
            old(self).wf(),
            orderly(old(self)@, 1),
            first_position < 7,
        ensures
            final(self).wf(),
            orderly(final(self)@, 2),
            ({
                let (start, s1) = draw(old(rng)@, 7);
                let (second, s2) = redrawn(s1, first_position as int, start, REDRAW_LIMIT as nat);
                (final(self)@, final(rng)@) == walked(old(self)@, s2, 0, second)
            }),
    {
        let mut position = rng.next_capped_u64(WIDTH as u64) as usize;
        let mut tries: u64 = REDRAW_LIMIT;
        while position == first_position && tries > 0
            invariant
                position < 7,
                self@ == old(self)@,
                redrawn(rng@, first_position as int, position as int, tries as nat) == redrawn(
                    draw(old(rng)@, 7).1,
                    first_position as int,
                    draw(old(rng)@, 7).0,
                    REDRAW_LIMIT as nat,
                ),
            decreases tries,
        {
            position = rng.next_capped_u64(WIDTH as u64) as usize;
            tries = tries - 1;
        }
        self.walk(rng, position, Ghost(1));
    }

    fn create_path(&mut self, rng: &mut Rng, Ghost(done): Ghost<nat>)
        requires
            old(self).wf(),
            orderly(old(self)@, done),
            done < 6,
        ensures
            final(self).wf(),
            orderly(final(self)@, done + 1),
            (final(self)@, final(rng)@) == with_path(old(self)@, old(rng)@),
    {
        let position = rng.next_capped_u64(WIDTH as u64) as usize;
        self.walk(rng, position, Ghost(done));
    }

    fn next_position(
        &self,
        rng: &mut Rng,
        row: usize,
        position: usize,
        Ghost(done): Ghost<nat>,
    ) -> (next_position: usize)
        requires
            self.wf(),
            walking(self@, done, row as int),
            done < 6,
            row < 14,
            position < 7,
        ensures
            (next_position as int, final(rng)@) == super::grid::next_position(
                self@,
                old(rng)@,
                row as int,
                position as int,
            ),
            beside(position as int, next_position as int),
            fits(self@, row as int, position as int, next_position as int),
    {
        let min_position = if position == 0 {
            0
        } else {
            position - 1
        };
        let n_possible_positions: u64 = if position == 0 || position == LAST_POSITION {
            2
        } else {
            3
        };
        let adjustment = rng.next_capped_u64(n_possible_positions) as usize;
        let mut next_position = adjustment + min_position;
        proof {
            lemma_naive_next(position as int, adjustment as int);
        }
        next_position = self.cpplr(rng, row, position, next_position, Ghost(done));
        proof {
            lemma_clamped(self@, done + 1, row as int, position as int, next_position as int);
        }
        next_position = self.cpanx(row, position, next_position);
        next_position
    }

    /// Rerolls the candidate once for every edge that already arrives at it
    /// from another slot without being exempt.
    fn cpplr(
        &self,
        rng: &mut Rng,
        row: usize,
        position: usize,
        candidate: usize,
        Ghost(done): Ghost<nat>,
    ) -> (r: usize)
        requires
            self.wf(),
            walking(self@, done, row as int),
            done < 6,
            row < 14,
            position < 7,
            beside(position as int, candidate as int),
        ensures
            (r as int, final(rng)@) == rerolled(
                old(rng)@,
                position as int,
                candidate as int,
                disputes(self@, row as int, position as int, candidate as int),
            ),
            beside(position as int, r as int),
    {
        let ghost g = self@;
        let next_position = candidate;
        let next_in_neighborhood = self.row(row + 1).in_neighborhood(next_position);
        assert(self.rows[row + 1].wf());
        assert(self.rows[row + 1].values[next_position as int].0.wf());
        proof {
            assert(g[row + 1][next_position as int].ins == next_in_neighborhood.tally());
            assert(total(g[row + 1][next_position as int].ins) <= done + 1);
        }
        let counts = in_counts(next_in_neighborhood);
        let mut rerolls: usize = 0;
        let mut neighbor: usize = 0;
        while neighbor < 7
            invariant
                neighbor <= 7,
                self.wf(),
                is_grid(self@),
                row < 14,
                position < 7,
                next_position < 7,
                tally_in(counts) == self@[row + 1][next_position as int].ins,
                total(tally_in(counts)) <= 6,
                rerolls == disputes_below(
                    self@,
                    row as int,
                    position as int,
                    next_position as int,
                    neighbor as int,
                ),
                rerolls + suffix_total(tally_in(counts), neighbor as int) <= 6,
            decreases 7 - neighbor,
        {
            assert(tally_in(counts)[neighbor as int] == counts[neighbor as int]);
            if neighbor != position && !self.gca_skip(row, neighbor, position) {
                rerolls = rerolls + counts[neighbor];
            }
            neighbor = neighbor + 1;
        }
        let mut next_position = next_position;
        let mut made: usize = 0;
        while made < rerolls
            invariant
                made <= rerolls,
                position < 7,
                beside(position as int, next_position as int),
                rerolled(
                    rng@,
                    position as int,
                    next_position as int,
                    (rerolls - made) as nat,
                ) == rerolled(
                    old(rng)@,
                    position as int,
                    candidate as int,
                    rerolls as nat,
                ),
            decreases rerolls - made,
        {
            let modulus: u64 = if next_position == position {
                3
            } else {
                2
            };
            let d = rng.next_capped_u64(modulus) as usize;
            next_position = reroll_candidate(position, next_position, d);
            made = made + 1;
        }
        next_position
    }

    /// Whether the edge that arrives from `neighbor` is exempt from the
    /// crossing rule for a path at `position`.
    fn gca_skip(&self, row: usize, neighbor: usize, position: usize) -> (r: bool)
        requires
            self.wf(),
            row < 15,
            neighbor < 7,
            position < 7,
        ensures
            r == skips(self@, row as int, neighbor as int, position as int),
    {
        let (left_position, right_position) = if neighbor < row {
            (neighbor, position)
        } else {
            (position, neighbor)
        };
        let row = self.row(row);
        assert(row.wf());
        let left_in_neighborhood = row.in_neighborhood(left_position);
        let right_in_neighborhood = row.in_neighborhood(right_position);
        assert(row.values[left_position as int].0.wf());
        assert(row.values[right_position as int].0.wf());
        In::gca_skip(left_in_neighborhood, right_in_neighborhood)
    }

    /// Holds the candidate between the edges of the two sibling nodes.
    fn cpanx(&self, row: usize, position: usize, next_position: usize) -> (r: usize)
        requires
            self.wf(),
            row < 15,
            position < 7,
            next_position < 7,
            beside(position as int, clamped(self@, row as int, position as int, next_position as int)),
        ensures
            r == clamped(self@, row as int, position as int, next_position as int),
    {
        let mut next_position = next_position;
        assert(self.rows[row as int].wf());
        if position != 0 {
            let sibling_position = position - 1;
            let out_neighborhood = self.row(row).out_neighborhood(sibling_position);
            assert(self.rows[row as int].values[sibling_position as int].1.wf());
            out_neighborhood.update_position_from_left(&mut next_position);
        }
        if position != LAST_POSITION {
            let sibling_position = position + 1;
            let out_neighborhood = self.row(row).out_neighborhood(sibling_position);
            assert(self.rows[row as int].values[sibling_position as int].1.wf());
            proof {
                out_neighborhood.lemma_wf();
                if position != 0 {
                    self.rows[row as int].values[position - 1].1.lemma_wf();
                }
            }
            out_neighborhood.update_position_from_right(&mut next_position);
        }
        next_position
    }
}

/// The total of the multiplicities of the slots from `from` on.
pub open spec fn suffix_total(c: Seq<nat>, from: int) -> nat {
    (if from <= 0 { c[0] } else { 0 }) + (if from <= 1 { c[1] } else { 0 }) + (if from <= 2 {
        c[2]
    } else {
        0
    }) + (if from <= 3 { c[3] } else { 0 }) + (if from <= 4 { c[4] } else { 0 }) + (if from <= 5 {
        c[5]
    } else {
        0
    }) + (if from <= 6 { c[6] } else { 0 })
}

} // verus!
