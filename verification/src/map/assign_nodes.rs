//! The assignment of room kinds to the nodes of a map.

use vstd::prelude::*;
use super::grid::{is_grid, orderly, rooted, Grid};
use super::in_neighborhood::InNeighborhood;
use super::kind::NodeKind;
use super::out_neighborhood::OutNeighborhood;
use super::rooms::{
    adjusted_recount, assigned, backfilled, bag_for, copies, deduped, deduped_outs,
    entered_below, exited_below, first_count, first_fit, is_constant_row, is_parent, is_sibling,
    lemma_deduped_orderly, lemma_reached_is_leftmost, parent_has, parent_has_below, pre_assigned,
    reached_before, room_array, share, shares_parent_below, shuffled, shuns_parents,
    shuns_siblings, sibling_has, sibling_has_below, suits, swapped, with_cell, with_cells,
    with_constant_rows, with_kind, with_rows, Plan,
};
use super::slots::{in_counts, out_counts, tally_in};
use super::row::{entered, exited};
use super::tally::{is_set, strictly_inside, total, without};
use super::DungeonMap;
use crate::rng::{Rng, MAX_MODULUS};

verus! {

/// The rows below `a` hold no more nodes with a leaving edge than those
/// below `b`, for `a <= b`.
pub proof fn lemma_exited_below_grows(g: Grid, a: int, b: int)
    requires
        a <= b,
    ensures
        exited_below(g, a) <= exited_below(g, b),
    decreases b - a,
{
    if a < b {
        lemma_exited_below_grows(g, a, b - 1);
    }
}

/// The rows below `a` hold no more nodes with an arriving edge than those
/// below `b`, for `a <= b`.
pub proof fn lemma_entered_below_grows(g: Grid, a: int, b: int)
    requires
        a <= b,
    ensures
        entered_below(g, a) <= entered_below(g, b),
    decreases b - a,
{
    if a < b {
        lemma_entered_below_grows(g, a, b - 1);
    }
}

/// A share is never negative and never more than the whole.
pub proof fn lemma_share_bound(count: int, num: int, den: int)
    requires
        0 <= count,
        0 <= num <= den,
        0 < den,
    ensures
        0 <= share(count, num, den) <= count,
{
    let x = 2 * count * num + den;
    let y = 2 * den;
    assert(0 <= x < y * (count + 1)) by (nonlinear_arith)
        requires
            x == 2 * count * num + den,
            y == 2 * den,
            0 <= count,
            0 <= num <= den,
            0 < den,
    ;
    vstd::arithmetic::div_mod::lemma_multiply_divide_lt(x, y, count + 1);
    vstd::arithmetic::div_mod::lemma_div_pos_is_pos(x, y);
}

/// `count * num / den` rounded to the nearest integer, halves upward.
fn rounded_share(count: usize, num: u128, den: u128) -> (r: usize)
    requires
        0 < den <= 1000,
        num <= den,
    ensures
        r == share(count as int, num as int, den as int),
        r <= count,
{
    proof {
        lemma_share_bound(count as int, num as int, den as int);
        assert(2 * (count as int) * (num as int) <= 2 * (count as int) * 1000) by (nonlinear_arith)
            requires
                0 <= num <= 1000,
                0 <= count,
        ;
    }
    let scaled: u128 = 2 * (count as u128) * num + den;
    let rounded: u128 = scaled / (2 * den);
    rounded as usize
}

impl<const PATHS: usize, In: InNeighborhood, Out: OutNeighborhood> DungeonMap<PATHS, In, Out> {
    /// Number of rest sites: the nodes of the last row at which an edge
    /// arrives.
    fn count_final_rest_sites(&self) -> (r: usize)
        requires
            self.skeleton.wf(),
        ensures
            r == entered(self@.grid[14]),
            r <= 7,
    {
        assert(self.skeleton.rows[14].wf());
        self.row(super::tally::REST_ROW).count_in_neighborhoods()
    }

    /// Number of nodes of the row below the last from which an edge leaves.
    fn count_penultimate_out_neighborhoods(&self) -> (r: usize)
        requires
            self.skeleton.wf(),
        ensures
            r == exited(self@.grid[13]),
            r <= 7,
    {
        assert(self.skeleton.rows[13].wf());
        self.row(super::tally::BEFORE_REST_ROW).count_out_neighborhoods()
    }

    /// Number of nodes at which an edge arrives.
    fn count_in_neighborhoods(&self) -> (r: usize)
        requires
            self.skeleton.wf(),
        ensures
            r == entered_below(self@.grid, 15),
            r <= 105,
    {
        let mut count: usize = 0;
        let mut row: usize = 0;
        while row < 15
            invariant
                row <= 15,
                self.skeleton.wf(),
                count == entered_below(self@.grid, row as int),
                count <= 7 * row,
            decreases 15 - row,
        {
            assert(self.skeleton.rows[row as int].wf());
            count = count + self.row(row).count_in_neighborhoods();
            row = row + 1;
        }
        count
    }

    /// Number of nodes from which an edge leaves.
    fn count_out_neighborhoods(&self) -> (r: usize)
        requires
            self.skeleton.wf(),
        ensures
            r == exited_below(self@.grid, 15),
            r <= 105,
    {
        let mut count: usize = 0;
        let mut row: usize = 0;
        while row < 15
            invariant
                row <= 15,
                self.skeleton.wf(),
                count == exited_below(self@.grid, row as int),
                count <= 7 * row,
            decreases 15 - row,
        {
            assert(self.skeleton.rows[row as int].wf());
            count = count + self.row(row).count_out_neighborhoods();
            row = row + 1;
        }
        count
    }

    /// Number of treasure rooms: the nodes of the treasure row from which an
    /// edge leaves.
    fn count_treasure_rooms(&self) -> (r: usize)
        requires
            self.skeleton.wf(),
        ensures
            r == exited(self@.grid[8]),
            r <= 7,
    {
        assert(self.skeleton.rows[8].wf());
        self.row(super::tally::TREASURE_ROW).count_out_neighborhoods()
    }

    /// Number of nodes of the first row from which an edge leaves.
    fn count_first_floor(&self) -> (r: usize)
        requires
            self.skeleton.wf(),
        ensures
            r == exited(self@.grid[0]),
            r <= 7,
    {
        assert(self.skeleton.rows[0].wf());
        self.row(0).count_out_neighborhoods()
    }

    /// Number of nodes whose kind is fixed by their row.
    fn count_pre_assigned_nodes(&self) -> (r: usize)
        requires
            self.skeleton.wf(),
        ensures
            r == pre_assigned(self@.grid),
            r <= 21,
    {
        self.count_final_rest_sites() + self.count_treasure_rooms() + self.count_first_floor()
    }

    /// The count from which the shares of the kinds are taken.
    fn first_count(&self) -> (r: usize)
        requires
            self.skeleton.wf(),
            is_grid(self@.grid),
            rooted(self@.grid),
        ensures
            r == first_count(self@.grid),
            r <= 112,
    {
        proof {
            let g = self@.grid;
            assert(exited(g[13]) <= entered(g[13])) by {
                assert(total(g[13][0].outs) > 0 ==> total(g[13][0].ins) > 0);
                assert(total(g[13][1].outs) > 0 ==> total(g[13][1].ins) > 0);
                assert(total(g[13][2].outs) > 0 ==> total(g[13][2].ins) > 0);
                assert(total(g[13][3].outs) > 0 ==> total(g[13][3].ins) > 0);
                assert(total(g[13][4].outs) > 0 ==> total(g[13][4].ins) > 0);
                assert(total(g[13][5].outs) > 0 ==> total(g[13][5].ins) > 0);
                assert(total(g[13][6].outs) > 0 ==> total(g[13][6].ins) > 0);
            }
            lemma_entered_below_grows(g, 14, 15);
            assert(entered_below(g, 14) == entered_below(g, 13) + entered(g[13]));
        }
        self.count_in_neighborhoods() + self.count_final_rest_sites()
            - self.count_penultimate_out_neighborhoods()
    }

    /// The bag before padding: the share of every kind but the monster.
    pub fn fill_room_array(count: usize, ascension: bool) -> (rooms: Vec<NodeKind>)
        ensures
            rooms@ == room_array(count as int, ascension),
    {
        let shops = rounded_share(count, 5, 100);
        let rests = rounded_share(count, 12, 100);
        let elites = if ascension {
            rounded_share(count, 128, 1000)
        } else {
            rounded_share(count, 8, 100)
        };
        let events = rounded_share(count, 22, 100);
        let mut rooms: Vec<NodeKind> = Vec::new();
        push_copies(&mut rooms, NodeKind::Shop, shops);
        push_copies(&mut rooms, NodeKind::Rest, rests);
        push_copies(&mut rooms, NodeKind::Elite, elites);
        push_copies(&mut rooms, NodeKind::Event, events);
        rooms
    }

    /// The least size of the bag.
    fn adjusted_recount(&self) -> (r: usize)
        requires
            self.skeleton.wf(),
        ensures
            r == adjusted_recount(self@.grid),
            r <= 112,
    {
        proof {
            let g = self@.grid;
            lemma_exited_below_grows(g, 9, 15);
            lemma_exited_below_grows(g, 1, 8);
            assert(exited_below(g, 9) == exited_below(g, 8) + exited(g[8]));
            assert(exited_below(g, 1) == exited_below(g, 0) + exited(g[0]));
        }
        self.count_out_neighborhoods() + self.count_final_rest_sites()
            - self.count_pre_assigned_nodes()
    }

    /// Takes the edge from `position` to `next_position` out of the first
    /// row.
    fn remove_first_row_edge(&mut self, position: usize, next_position: usize)
        requires
            old(self).skeleton.wf(),
            position < 7,
            next_position < 7,
            old(self)@.grid[0][position as int].outs[next_position as int] > 0,
            !strictly_inside(old(self)@.grid[0][position as int].outs, next_position as int),
        ensures
            final(self).skeleton.wf(),
            final(self).kinds == old(self).kinds,
            final(self)@.grid == old(self)@.grid.update(
                0,
                old(self)@.grid[0].update(
                    position as int,
                    super::grid::Node {
                        ins: old(self)@.grid[0][position as int].ins,
                        outs: without(
                            old(self)@.grid[0][position as int].outs,
                            next_position as int,
                        ),
                    },
                ),
            ),
    {
        let ghost before = self@.grid;
        assert(old(self).skeleton.rows[0].wf());
        assert(old(self).skeleton.rows[0].values[position as int].1.wf());
        let first = self.skeleton.row_mut(0);
        let out_neighborhood = first.out_neighborhood_mut(position);
        out_neighborhood.remove(next_position);
        proof {
            let want = before.update(
                0,
                before[0].update(
                    position as int,
                    super::grid::Node {
                        ins: before[0][position as int].ins,
                        outs: without(before[0][position as int].outs, next_position as int),
                    },
                ),
            );
            let after = self@.grid;
            assert forall|r: int| 0 <= r < 15 implies (#[trigger] self.skeleton.rows[r]).wf() by {
                assert(old(self).skeleton.rows[r].wf());
                if r == 0 {
                    assert forall|p: int| 0 <= p < 7 implies (
                    #[trigger] self.skeleton.rows[r].values[p]).0.wf()
                        && self.skeleton.rows[r].values[p].1.wf() by {
                        assert(old(self).skeleton.rows[r].values[p].0.wf());
                    }
                }
            }
            assert forall|r: int| 0 <= r < 15 implies #[trigger] after[r] == want[r] by {
                if r == 0 {
                    assert(after[r] =~= want[r]);
                }
            }
            assert(after =~= want);
        }
    }

    /// Leaves every slot of the second row one edge from the first row:
    /// that of the leftmost node that reaches it.
    pub fn filter_redundant_edges_from_first_row(&mut self)
        requires
            old(self).wf(),
        ensures
            final(self).wf(),
            final(self).kinds == old(self).kinds,
            final(self)@.grid == deduped(old(self)@.grid),
    {
        let ghost g0 = self@.grid;
        let mut visited: [bool; 7] = [false, false, false, false, false, false, false];
        let mut position: usize = 0;
        while position < 7
            invariant
                position <= 7,
                self.skeleton.wf(),
                self.kinds == old(self).kinds,
                g0 == old(self)@.grid,
                orderly(g0, 6),
                self@.grid.len() == 15,
                self@.grid[0].len() == 7,
                forall|r: int| 1 <= r < 15 ==> #[trigger] self@.grid[r] == g0[r],
                forall|q: int| 0 <= q < 7 ==> (#[trigger] self@.grid[0][q]).ins == g0[0][q].ins,
                forall|q: int|
                    0 <= q < position ==> (#[trigger] self@.grid[0][q]).outs == deduped_outs(g0, q),
                forall|q: int|
                    position <= q < 7 ==> (#[trigger] self@.grid[0][q]).outs == g0[0][q].outs,
                forall|n: int| 0 <= n < 7 ==> #[trigger] visited[n] == reached_before(
                    g0,
                    position as int,
                    n,
                ),
            decreases 7 - position,
        {
            assert(self.skeleton.rows[0].wf());
            assert(self.skeleton.rows[0].values[position as int].1.wf());
            let counts = out_counts(self.row(0).out_neighborhood(position));
            assert(tally_in(counts) == g0[0][position as int].outs) by {
                assert(self@.grid[0][position as int].outs == g0[0][position as int].outs);
            }
            let mut next: usize = 0;
            while next < 7
                invariant
                    next <= 7,
                    position < 7,
                    self.skeleton.wf(),
                    self.kinds == old(self).kinds,
                    orderly(g0, 6),
                    tally_in(counts) == g0[0][position as int].outs,
                    self@.grid.len() == 15,
                    self@.grid[0].len() == 7,
                    forall|r: int| 1 <= r < 15 ==> #[trigger] self@.grid[r] == g0[r],
                    forall|q: int| 0 <= q < 7 ==> (#[trigger] self@.grid[0][q]).ins == g0[0][q].ins,
                    forall|q: int|
                        0 <= q < position ==> (#[trigger] self@.grid[0][q]).outs == deduped_outs(
                            g0,
                            q,
                        ),
                    forall|q: int|
                        position < q < 7 ==> (#[trigger] self@.grid[0][q]).outs == g0[0][q].outs,
                    self@.grid[0][position as int].outs.len() == 7,
                    forall|m: int|
                        0 <= m < next ==> #[trigger] self@.grid[0][position as int].outs[m]
                            == deduped_outs(g0, position as int)[m],
                    forall|m: int|
                        next <= m < 7 ==> #[trigger] self@.grid[0][position as int].outs[m]
                            == g0[0][position as int].outs[m],
                    forall|m: int| 0 <= m < next ==> #[trigger] visited[m] == reached_before(
                        g0,
                        position + 1,
                        m,
                    ),
                    forall|m: int| next <= m < 7 ==> #[trigger] visited[m] == reached_before(
                        g0,
                        position as int,
                        m,
                    ),
                decreases 7 - next,
            {
                assert(tally_in(counts)[next as int] == counts[next as int]);
                assert(is_set(g0[0][position as int].outs));
                if counts[next] > 0 {
                    if visited[next] {
                        proof {
                            let current = self@.grid[0][position as int].outs;
                            assert forall|m: int| 0 <= m < next implies current[m] == 0 by {
                                if g0[0][position as int].outs[m] > 0 {
                                    lemma_reached_is_leftmost(
                                        g0,
                                        position as int,
                                        position as int,
                                        next as int,
                                        m,
                                    );
                                }
                            }
                            assert(current[next as int] > 0);
                        }
                        self.remove_first_row_edge(position, next);
                    } else {
                        visited[next] = true;
                    }
                }
                next = next + 1;
            }
            assert(self@.grid[0][position as int].outs =~= deduped_outs(g0, position as int));
            position = position + 1;
        }
        proof {
            lemma_deduped_orderly(g0, 6);
            assert(self@.grid[0] =~= deduped(g0)[0]);
            assert(self@.grid =~= deduped(g0));
        }
    }

    /// Sets the kind of the node at `position` in `row`.
    pub fn set_kind(&mut self, row: usize, position: usize, kind: NodeKind)
        requires
            row < 15,
            position < 7,
        ensures
            final(self).skeleton == old(self).skeleton,
            final(self)@.kinds == with_kind(old(self)@.kinds, row as int, position as int, kind),
    {
        let mut kinds = self.kinds[row];
        kinds[position] = kind;
        self.kinds[row] = kinds;
        assert(self@.kinds =~= with_kind(old(self)@.kinds, row as int, position as int, kind)) by {
            assert forall|r: int| 0 <= r < 15 implies #[trigger] self@.kinds[r] == with_kind(
                old(self)@.kinds,
                row as int,
                position as int,
                kind,
            )[r] by {
                if r == row {
                    assert(self@.kinds[r] =~= old(self)@.kinds[r].update(position as int, kind));
                }
            }
        }
    }

    /// Sets the kind of all seven nodes of `row`.
    pub fn set_kinds(&mut self, row: usize, kind: NodeKind)
        requires
            row < 15,
        ensures
            final(self).skeleton == old(self).skeleton,
            final(self)@.kinds == old(self)@.kinds.update(row as int, copies(kind, 7)),
    {
        let mut position: usize = 0;
        while position < 7
            invariant
                position <= 7,
                row < 15,
                self.skeleton == old(self).skeleton,
                forall|r: int| 0 <= r < 15 && r != row ==> self@.kinds[r] == old(self)@.kinds[r],
                forall|p: int| 0 <= p < position ==> self@.kinds[row as int][p] == kind,
            decreases 7 - position,
        {
            self.set_kind(row, position, kind);
            position = position + 1;
        }
        assert(self@.kinds[row as int] =~= copies(kind, 7));
        assert(self@.kinds =~= old(self)@.kinds.update(row as int, copies(kind, 7)));
    }

    /// Gives every node of a row of fixed kind that kind: monsters in the
    /// first row, treasure in the treasure row, rest sites in the last.
    fn set_constant_rows(&mut self)
        ensures
            final(self).skeleton == old(self).skeleton,
            final(self)@.kinds == with_constant_rows(old(self)@.kinds),
    {
        self.set_kinds(0, NodeKind::Monster);
        self.set_kinds(super::tally::TREASURE_ROW, NodeKind::Treasure);
        self.set_kinds(super::tally::REST_ROW, NodeKind::Rest);
    }

    /// Makes every node a monster that has no kind yet and at which an
    /// edge arrives.
    fn populate_unassigned_nodes(&mut self)
        requires
            old(self).skeleton.wf(),
        ensures
            final(self).skeleton == old(self).skeleton,
            final(self)@.kinds == backfilled(old(self)@),
    {
        let mut row: usize = 0;
        while row < 15
            invariant
                row <= 15,
                self.skeleton == old(self).skeleton,
                self.skeleton.wf(),
                forall|r: int, p: int|
                    0 <= r < row && 0 <= p < 7 ==> #[trigger] self@.kinds[r][p] == backfilled(
                        old(self)@,
                    )[r][p],
                forall|r: int| row <= r < 15 ==> #[trigger] self@.kinds[r] == old(self)@.kinds[r],
            decreases 15 - row,
        {
            let mut position: usize = 0;
            while position < 7
                invariant
                    position <= 7,
                    row < 15,
                    self.skeleton == old(self).skeleton,
                    self.skeleton.wf(),
                    forall|r: int, p: int|
                        0 <= r < row && 0 <= p < 7 ==> #[trigger] self@.kinds[r][p] == backfilled(
                            old(self)@,
                        )[r][p],
                    forall|r: int| row < r < 15 ==> #[trigger] self@.kinds[r] == old(self)@.kinds[r],
                    forall|p: int|
                        0 <= p < position ==> #[trigger] self@.kinds[row as int][p] == backfilled(
                            old(self)@,
                        )[row as int][p],
                    forall|p: int|
                        position <= p < 7 ==> #[trigger] self@.kinds[row as int][p] == old(
                            self,
                        )@.kinds[row as int][p],
                decreases 7 - position,
            {
                assert(self.skeleton.rows[row as int].wf());
                assert(self.skeleton.rows[row as int].values[position as int].0.wf());
                if !self.kind(row, position).is_assigned() && !self.row(row).in_neighborhood(
                    position,
                ).is_empty() {
                    self.set_kind(row, position, NodeKind::Monster);
                }
                position = position + 1;
            }
            row = row + 1;
        }
        assert(self@.kinds =~= backfilled(old(self)@)) by {
            assert forall|r: int| 0 <= r < 15 implies #[trigger] self@.kinds[r] =~= backfilled(
                old(self)@,
            )[r] by {
                assert forall|p: int| 0 <= p < 7 implies self@.kinds[r][p] == backfilled(
                    old(self)@,
                )[r][p] by {
                }
            }
        }
    }

    /// The kinds of the node's parents, as far as one is assigned and not
    /// empty, by ascending slot.
    fn in_neighbor_kinds(&self, row: usize, position: usize) -> (kinds: Vec<NodeKind>)
        requires
            self.wf(),
            1 <= row < 15,
            position < 7,
        ensures
            forall|kind: NodeKind|
                kinds@.contains(kind) <==> (kind != NodeKind::Unassigned && kind
                    != NodeKind::Empty && parent_has(self@, row as int, position as int, kind)),
    {
        assert(self.skeleton.rows[row as int].wf());
        assert(self.skeleton.rows[row as int].values[position as int].0.wf());
        assert(total(self@.grid[row as int][position as int].ins) <= 6);
        let counts = in_counts(self.row(row).in_neighborhood(position));
        let mut kinds: Vec<NodeKind> = Vec::new();
        let mut parent: usize = 0;
        while parent < 7
            invariant
                parent <= 7,
                1 <= row < 15,
                position < 7,
                tally_in(counts) == self@.grid[row as int][position as int].ins,
                forall|kind: NodeKind|
                    kinds@.contains(kind) <==> (kind != NodeKind::Unassigned && kind
                        != NodeKind::Empty && parent_has_below(
                        self@,
                        row as int,
                        position as int,
                        kind,
                        parent as int,
                    )),
            decreases 7 - parent,
        {
            assert(tally_in(counts)[parent as int] == counts[parent as int]);
            let ghost before = kinds@;
            let ghost mut added: Option<NodeKind> = None;
            if counts[parent] > 0 {
                let kind = *self.kind(row - 1, parent);
                if kind.is_assigned() && !kind.is_empty() {
                    kinds.push(kind);
                    proof {
                        added = Some(kind);
                    }
                }
            }
            assert forall|k: NodeKind|
                kinds@.contains(k) <==> (k != NodeKind::Unassigned && k != NodeKind::Empty
                    && parent_has_below(self@, row as int, position as int, k, parent + 1)) by {
                match added {
                    Some(kind) => {
                        assert(kinds@ == before.push(kind));
                        lemma_push_contains(before, kind, k);
                    },
                    None => {
                        assert(kinds@ == before);
                    },
                }
                assert(kinds@.contains(k) <==> (before.contains(k) || added == Some(k)));
                assert(parent_has_below(self@, row as int, position as int, k, parent + 1) == (
                parent_has_below(self@, row as int, position as int, k, parent as int) || (
                is_parent(self@.grid, row as int, position as int, parent as int)
                    && self@.kinds[row - 1][parent as int] == k)));
            }
            parent = parent + 1;
        }
        kinds
    }

    /// For every slot of the row, whether its node is a sibling of the
    /// node at `position`.
    fn sibling_flags(&self, row: usize, position: usize) -> (flags: [bool; 7])
        requires
            self.wf(),
            1 <= row < 15,
            position < 7,
        ensures
            forall|s: int|
                0 <= s < 7 ==> #[trigger] flags[s] == is_sibling(
                    self@.grid,
                    row as int,
                    position as int,
                    s,
                ),
    {
        assert(self.skeleton.rows[row as int].wf());
        assert(self.skeleton.rows[row as int].values[position as int].0.wf());
        assert(total(self@.grid[row as int][position as int].ins) <= 6);
        let counts = in_counts(self.row(row).in_neighborhood(position));
        let mut flags: [bool; 7] = [false, false, false, false, false, false, false];
        let mut parent: usize = 0;
        while parent < 7
            invariant
                parent <= 7,
                1 <= row < 15,
                position < 7,
                self.wf(),
                tally_in(counts) == self@.grid[row as int][position as int].ins,
                forall|s: int|
                    0 <= s < 7 ==> #[trigger] flags[s] == (s != position && shares_parent_below(
                        self@.grid,
                        row as int,
                        position as int,
                        s,
                        parent as int,
                    )),
            decreases 7 - parent,
        {
            assert(tally_in(counts)[parent as int] == counts[parent as int]);
            if counts[parent] > 0 {
                assert(self.skeleton.rows[row - 1].wf());
                assert(self.skeleton.rows[row - 1].values[parent as int].1.wf());
                let outs = out_counts(self.row(row - 1).out_neighborhood(parent));
                let mut sibling: usize = 0;
                while sibling < 7
                    invariant
                        sibling <= 7,
                        parent < 7,
                        1 <= row < 15,
                        position < 7,
                        counts[parent as int] > 0,
                        tally_in(counts) == self@.grid[row as int][position as int].ins,
                        tally_in(outs) == self@.grid[row - 1][parent as int].outs,
                        forall|s: int|
                            0 <= s < sibling ==> #[trigger] flags[s] == (s != position
                                && shares_parent_below(
                                self@.grid,
                                row as int,
                                position as int,
                                s,
                                parent + 1,
                            )),
                        forall|s: int|
                            sibling <= s < 7 ==> #[trigger] flags[s] == (s != position
                                && shares_parent_below(
                                self@.grid,
                                row as int,
                                position as int,
                                s,
                                parent as int,
                            )),
                    decreases 7 - sibling,
                {
                    assert(tally_in(outs)[sibling as int] == outs[sibling as int]);
                    assert(tally_in(counts)[parent as int] == counts[parent as int]);
                    if outs[sibling] > 0 && sibling != position {
                        flags[sibling] = true;
                    }
                    sibling = sibling + 1;
                }
            }
            parent = parent + 1;
        }
        flags
    }

    /// The siblings of the node at `position`: the other nodes of the row
    /// to which one of its parents has an edge, by ascending slot.
    pub fn siblings(&self, row: usize, position: usize) -> (siblings: Vec<usize>)
        requires
            self.wf(),
            1 <= row < 15,
            position < 7,
        ensures
            forall|i: int| 0 <= i < siblings@.len() ==> 0 <= #[trigger] siblings@[i] < 7,
            forall|s: int|
                0 <= s < 7 ==> (siblings@.contains(s as usize) <==> is_sibling(
                    self@.grid,
                    row as int,
                    position as int,
                    s,
                )),
    {
        let flags = self.sibling_flags(row, position);
        let mut siblings: Vec<usize> = Vec::new();
        let mut slot: usize = 0;
        while slot < 7
            invariant
                slot <= 7,
                forall|i: int| 0 <= i < siblings@.len() ==> 0 <= #[trigger] siblings@[i] < slot,
                forall|s: int| 0 <= s < slot ==> (siblings@.contains(s as usize) <==> flags[s]),
            decreases 7 - slot,
        {
            let ghost before = siblings@;
            if flags[slot] {
                siblings.push(slot);
            }
            assert forall|s: int| 0 <= s < slot + 1 implies (siblings@.contains(s as usize)
                <==> flags[s]) by {
                if flags[slot as int] {
                    assert(siblings@ == before.push(slot));
                    lemma_push_contains(before, slot, s as usize);
                } else {
                    assert(siblings@ == before);
                }
                if s < slot {
                    assert(before.contains(s as usize) <==> flags[s]);
                } else {
                    if before.contains(slot) {
                        let i = choose|i: int| 0 <= i < before.len() && before[i] == slot;
                        assert(before[i] < slot);
                    }
                }
            }
            slot = slot + 1;
        }
        assert forall|s: int| 0 <= s < 7 implies (siblings@.contains(s as usize) <==> is_sibling(
            self@.grid,
            row as int,
            position as int,
            s,
        )) by {
            assert(siblings@.contains(s as usize) <==> flags[s]);
        }
        siblings
    }

    /// The kinds of the node's siblings, as far as one is assigned.
    fn sibling_kinds(&self, row: usize, position: usize) -> (kinds: Vec<NodeKind>)
        requires
            self.wf(),
            1 <= row < 15,
            position < 7,
        ensures
            forall|kind: NodeKind|
                kinds@.contains(kind) <==> (kind != NodeKind::Unassigned && sibling_has(
                    self@,
                    row as int,
                    position as int,
                    kind,
                )),
    {
        let flags = self.sibling_flags(row, position);
        let mut kinds: Vec<NodeKind> = Vec::new();
        let mut slot: usize = 0;
        while slot < 7
            invariant
                slot <= 7,
                1 <= row < 15,
                position < 7,
                forall|s: int|
                    0 <= s < 7 ==> #[trigger] flags[s] == is_sibling(
                        self@.grid,
                        row as int,
                        position as int,
                        s,
                    ),
                forall|kind: NodeKind|
                    kinds@.contains(kind) <==> (kind != NodeKind::Unassigned && sibling_has_below(
                        self@,
                        row as int,
                        position as int,
                        kind,
                        slot as int,
                    )),
            decreases 7 - slot,
        {
            let ghost before = kinds@;
            let ghost mut added: Option<NodeKind> = None;
            assert(flags[slot as int] == is_sibling(
                self@.grid,
                row as int,
                position as int,
                slot as int,
            ));
            if flags[slot] {
                let kind = *self.kind(row, slot);
                if kind.is_assigned() {
                    kinds.push(kind);
                    proof {
                        added = Some(kind);
                    }
                }
            }
            assert forall|k: NodeKind|
                kinds@.contains(k) <==> (k != NodeKind::Unassigned && sibling_has_below(
                    self@,
                    row as int,
                    position as int,
                    k,
                    slot + 1,
                )) by {
                match added {
                    Some(kind) => {
                        assert(kinds@ == before.push(kind));
                        lemma_push_contains(before, kind, k);
                    },
                    None => {
                        assert(kinds@ == before);
                    },
                }
                assert(kinds@.contains(k) <==> (before.contains(k) || added == Some(k)));
                assert(sibling_has_below(self@, row as int, position as int, k, slot + 1) == (
                sibling_has_below(self@, row as int, position as int, k, slot as int) || (
                is_sibling(self@.grid, row as int, position as int, slot as int)
                    && self@.kinds[row as int][slot as int] == k)));
            }
            slot = slot + 1;
        }
        kinds
    }

    /// Takes out of the bag the first kind that suits the node, if there
    /// is one.
    fn next_kind(&self, rooms: &mut Vec<NodeKind>, row: usize, position: usize) -> (r: Option<
        NodeKind,
    >)
        requires
            self.wf(),
            1 <= row < 15,
            position < 7,
        ensures
            ({
                let found = first_fit(self@, row as int, position as int, old(rooms)@, 0);
                match r {
                    Some(kind) => found < old(rooms)@.len() && kind == old(rooms)@[found]
                        && final(rooms)@ == old(rooms)@.remove(found),
                    None => found >= old(rooms)@.len() && final(rooms)@ == old(rooms)@,
                }
            }),
    {
        let parent_kinds = self.in_neighbor_kinds(row, position);
        let sibling_kinds = self.sibling_kinds(row, position);
        let mut index: usize = 0;
        while index < rooms.len()
            invariant
                index <= rooms@.len(),
                rooms@ == old(rooms)@,
                1 <= row < 15,
                position < 7,
                forall|kind: NodeKind|
                    parent_kinds@.contains(kind) <==> (kind != NodeKind::Unassigned && kind
                        != NodeKind::Empty && parent_has(self@, row as int, position as int, kind)),
                forall|kind: NodeKind|
                    sibling_kinds@.contains(kind) <==> (kind != NodeKind::Unassigned
                        && sibling_has(self@, row as int, position as int, kind)),
                first_fit(self@, row as int, position as int, rooms@, index as int) == first_fit(
                    self@,
                    row as int,
                    position as int,
                    rooms@,
                    0,
                ),
            decreases rooms@.len() - index,
        {
            let kind = rooms[index];
            let fits = !kind.incompatible_with(row) && !(shuns_parents_kind(kind) && has_kind(
                &parent_kinds,
                kind,
            )) && !(shuns_siblings_kind(kind) && has_kind(&sibling_kinds, kind));
            assert(fits == suits(self@, row as int, position as int, kind));
            if fits {
                rooms.remove(index);
                return Some(kind);
            }
            index = index + 1;
        }
        None
    }

    /// Gives the nodes of every row but those of fixed kind, left to right
    /// and row by row, the first kind of the bag that suits them.
    fn scan(&mut self, rooms: &mut Vec<NodeKind>)
        requires
            old(self).wf(),
        ensures
            final(self).skeleton == old(self).skeleton,
            (final(self)@.kinds, final(rooms)@) == with_rows(old(self)@, old(rooms)@, 0),
    {
        let mut row: usize = 0;
        while row < 15
            invariant
                row <= 15,
                self.skeleton == old(self).skeleton,
                self.wf(),
                with_rows(self@, rooms@, row as int) == with_rows(old(self)@, old(rooms)@, 0),
            decreases 15 - row,
        {
            if row == 0 || row == super::tally::REST_ROW || row == super::tally::TREASURE_ROW {
                row = row + 1;
                continue ;
            }
            let ghost start = self@;
            let ghost start_rooms = rooms@;
            let mut position: usize = 0;
            while position < 7
                invariant
                    position <= 7,
                    1 <= row < 15,
                    !is_constant_row(row as int),
                    self.skeleton == old(self).skeleton,
                    self.wf(),
                    start.grid == self@.grid,
                    with_cells(self@, rooms@, row as int, position as int) == with_cells(
                        start,
                        start_rooms,
                        row as int,
                        0,
                    ),
                decreases 7 - position,
            {
                assert(self.skeleton.rows[row as int].wf());
                assert(self.skeleton.rows[row as int].values[position as int].1.wf());
                let ghost plan = self@;
                let ghost bag = rooms@;
                if !self.row(row).out_neighborhood(position).is_empty() {
                    if let Some(kind) = self.next_kind(rooms, row, position) {
                        self.set_kind(row, position, kind);
                    }
                }
                assert((self@.kinds, rooms@) == with_cell(plan, bag, row as int, position as int));
                assert(self@ == Plan { grid: plan.grid, kinds: self@.kinds });
                position = position + 1;
            }
            assert(self@ == Plan { grid: start.grid, kinds: self@.kinds });
            row = row + 1;
        }
    }

    /// Assigns a room kind to every node on a path: a bag with the share of
    /// every kind is filled up with monsters and shuffled, the nodes take
    /// from it in turn what suits them, the rows of fixed kind are set, and
    /// what is left without a kind becomes a monster.
    pub fn assign_rooms(&mut self, rng: &mut Rng, ascension: bool)
        requires
            old(self).wf(),
        ensures
            final(self).wf(),
            final(self).skeleton == old(self).skeleton,
            (final(self)@.kinds, final(rng)@) == assigned(old(self)@, old(rng)@, ascension),
    {
        let first_count = self.first_count();
        let mut rooms = Self::fill_room_array(first_count, ascension);
        let recount = self.adjusted_recount();
        proof {
            lemma_share_bound(first_count as int, 5, 100);
            lemma_share_bound(first_count as int, 12, 100);
            lemma_share_bound(first_count as int, 128, 1000);
            lemma_share_bound(first_count as int, 8, 100);
            lemma_share_bound(first_count as int, 22, 100);
        }
        if recount > rooms.len() {
            let missing = recount - rooms.len();
            push_copies(&mut rooms, NodeKind::Monster, missing);
        }
        assert(rooms@ == bag_for(self@.grid, ascension));
        Self::shuffle(&mut rooms, rng);
        self.scan(&mut rooms);
        self.set_constant_rows();
        self.populate_unassigned_nodes();
    }

    /// Shuffles the bag: from the last entry down to the second, each is
    /// exchanged with an entry drawn from those up to itself. The bag may
    /// not be longer than the generator can draw among.
    fn shuffle(rooms: &mut Vec<NodeKind>, rng: &mut Rng)
        requires
            old(rooms)@.len() <= MAX_MODULUS,
        ensures
            (final(rooms)@, final(rng)@) == shuffled(
                old(rooms)@,
                old(rng)@,
                old(rooms)@.len() as int,
            ),
    {
        let mut i: usize = rooms.len();
        while i >= 2
            invariant
                i <= rooms@.len(),
                rooms@.len() == old(rooms)@.len(),
                rooms@.len() <= MAX_MODULUS,
                shuffled(rooms@, rng@, i as int) == shuffled(
                    old(rooms)@,
                    old(rng)@,
                    old(rooms)@.len() as int,
                ),
            decreases i,
        {
            let j = rng.next_capped_u64(i as u64) as usize;
            let ghost before = rooms@;
            let a = rooms[i - 1];
            let b = rooms[j];
            rooms[i - 1] = b;
            rooms[j] = a;
            assert(rooms@ =~= swapped(before, i - 1, j as int));
            i = i - 1;
        }
    }
}

/// What a sequence holds after one more element has been appended.
pub proof fn lemma_push_contains<T>(s: Seq<T>, x: T, y: T)
    ensures
        s.push(x).contains(y) <==> (s.contains(y) || y == x),
{
    if s.contains(y) {
        let i = choose|i: int| 0 <= i < s.len() && s[i] == y;
        assert(s.push(x)[i] == y);
    }
    if y == x {
        assert(s.push(x)[s.len() as int] == y);
    }
    if s.push(x).contains(y) {
        let i = choose|i: int| 0 <= i < s.push(x).len() && s.push(x)[i] == y;
        if i < s.len() {
            assert(s[i] == y);
        }
    }
}

/// Whether `kind` is one that a node may not share with a parent.
fn shuns_parents_kind(kind: NodeKind) -> (r: bool)
    ensures
        r == shuns_parents(kind),
{
    matches!(kind, NodeKind::Rest) || matches!(kind, NodeKind::Shop) || matches!(
        kind,
        NodeKind::Elite
    )
}

/// Whether `kind` is one that a node may not share with a sibling.
fn shuns_siblings_kind(kind: NodeKind) -> (r: bool)
    ensures
        r == shuns_siblings(kind),
{
    matches!(kind, NodeKind::Rest) || matches!(kind, NodeKind::Shop) || matches!(
        kind,
        NodeKind::Elite
    ) || matches!(kind, NodeKind::Monster) || matches!(kind, NodeKind::Event)
}

/// Whether `kind` occurs in `kinds`.
fn has_kind(kinds: &Vec<NodeKind>, kind: NodeKind) -> (r: bool)
    ensures
        r == kinds@.contains(kind),
{
    let mut index: usize = 0;
    while index < kinds.len()
        invariant
            index <= kinds@.len(),
            forall|i: int| 0 <= i < index ==> kinds@[i] != kind,
        decreases kinds@.len() - index,
    {
        if kinds[index] == kind {
            return true;
        }
        index = index + 1;
    }
    false
}

/// Appends `times` copies of `kind` to the bag.
fn push_copies(rooms: &mut Vec<NodeKind>, kind: NodeKind, times: usize)
    ensures
        final(rooms)@ == old(rooms)@ + copies(kind, times as int),
{
    let mut done: usize = 0;
    assert(rooms@ =~= old(rooms)@ + copies(kind, 0));
    while done < times
        invariant
            done <= times,
            rooms@ == old(rooms)@ + copies(kind, done as int),
        decreases times - done,
    {
        rooms.push(kind);
        done = done + 1;
        assert(rooms@ =~= old(rooms)@ + copies(kind, done as int));
    }
}

} // verus!
