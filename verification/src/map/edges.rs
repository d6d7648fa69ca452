//! What holds of the edges of every generated path graph: each edge is
//! seen from both of its ends, and in every row above the first as many
//! edges arrive as paths were drawn.

use vstd::prelude::*;
use super::grid::{
    beside, blank, choices, clamped, disputes, fits, generated_grid, is_grid, lemma_blank,
    lemma_clamped, lone, lemma_naive_next, lemma_reroll, lemma_walk_start, lemma_with_edge, naive_next,
    next_position, orderly, redrawn, reroll, reroll_modulus, rerolled, walked, walking, with_edge,
    with_path, with_paths, Grid, REDRAW_LIMIT,
};
use super::tally::{lemma_total_with_one_more, total};
use crate::rng::{draw, State};

verus! {

/// Every edge is seen from both of its ends: an edge leaves slot `p` of a
/// row for slot `q` of the row above exactly where one arrives at `q` from
/// `p`.
pub open spec fn mirrored(g: Grid) -> bool {
    forall|r: int, p: int, q: int|
        #![trigger g[r][p].outs[q]]
        0 <= r < 14 && 0 <= p < 7 && 0 <= q < 7 ==> ((g[r][p].outs[q] > 0) == (g[r + 1][q].ins[p]
            > 0))
}

/// Number of edges that arrive in a row, counted with multiplicity.
pub open spec fn arrivals(g: Grid, row: int) -> nat {
    total(g[row][0].ins) + total(g[row][1].ins) + total(g[row][2].ins) + total(g[row][3].ins)
        + total(g[row][4].ins) + total(g[row][5].ins) + total(g[row][6].ins)
}

/// The edges of a grid while path number `done` (from 0) is being drawn
/// and has reached `row`: every edge is seen from both ends, none arrives
/// in the first row, `done + 1` arrive in every row already reached and
/// `done` in the others.
pub open spec fn carrying(g: Grid, done: nat, row: int) -> bool {
    &&& mirrored(g)
    &&& arrivals(g, 0) == 0
    &&& forall|r: int|
        1 <= r < 15 ==> #[trigger] arrivals(g, r) == if r <= row {
            done + 1
        } else {
            done
        }
}

/// The edges of a grid of `paths` paths: every edge is seen from both
/// ends, none arrives in the first row, and `paths` arrive in every other
/// row.
pub open spec fn carries(g: Grid, paths: nat) -> bool {
    &&& mirrored(g)
    &&& arrivals(g, 0) == 0
    &&& forall|r: int| 1 <= r < 15 ==> #[trigger] arrivals(g, r) == paths
}

/// One more edge of the path that is being drawn takes the walk to the
/// next row.
pub proof fn lemma_with_edge_carrying(g: Grid, done: nat, row: int, position: int, next: int)
    requires
        is_grid(g),
        carrying(g, done, row),
        0 <= row < 14,
        0 <= position < 7,
        0 <= next < 7,
    ensures
        carrying(with_edge(g, row, position, next), done, row + 1),
{
    let w = with_edge(g, row, position, next);
    assert forall|r: int, p: int| 0 <= r < 15 && 0 <= p < 7 implies (#[trigger] w[r][p]).ins == (if r
        == row + 1 && p == next {
        super::tally::with_one_more(g[r][p].ins, position)
    } else {
        g[r][p].ins
    }) && w[r][p].outs == (if r == row && p == position {
        super::tally::with_member(g[r][p].outs, next)
    } else {
        g[r][p].outs
    }) by {
    }
    assert forall|r: int, p: int, q: int|
        #![trigger w[r][p].outs[q]]
        0 <= r < 14 && 0 <= p < 7 && 0 <= q < 7 implies ((w[r][p].outs[q] > 0) == (w[r + 1][q].ins[p]
        > 0)) by {
        assert((g[r][p].outs[q] > 0) == (g[r + 1][q].ins[p] > 0));
        assert(w[r][p].outs == w[r][p].outs && w[r + 1][q].ins == w[r + 1][q].ins);
    }
    lemma_total_with_one_more(g[row + 1][next].ins, position);
    assert forall|r: int| 0 <= r < 15 implies #[trigger] arrivals(w, r) == arrivals(g, r) + (if r
        == row + 1 {
        1nat
    } else {
        0nat
    }) by {
        assert(w[r][0].ins == w[r][0].ins && w[r][1].ins == w[r][1].ins && w[r][2].ins
            == w[r][2].ins && w[r][3].ins == w[r][3].ins && w[r][4].ins == w[r][4].ins
            && w[r][5].ins == w[r][5].ins && w[r][6].ins == w[r][6].ins);
    }
    assert forall|r: int| 1 <= r < 15 implies #[trigger] arrivals(w, r) == if r <= row + 1 {
        done + 1
    } else {
        done
    } by {
        assert(arrivals(g, r) == if r <= row {
            done + 1
        } else {
            done
        });
    }
}

/// Rerolled any number of times, a candidate beside the position stays
/// beside it.
pub proof fn lemma_rerolled_beside(state: State, position: int, next: int, times: nat)
    requires
        0 <= position < 7,
        beside(position, next),
    ensures
        beside(position, rerolled(state, position, next, times).0),
    decreases times,
{
    if times > 0 {
        let (d, after) = draw(state, reroll_modulus(position, next));
        lemma_reroll(position, next, d);
        lemma_rerolled_beside(after, position, reroll(position, next, d), (times - 1) as nat);
    }
}

/// The slot to which a path steps is beside its position, and the edge to
/// it crosses no edge of the row.
pub proof fn lemma_next_position(g: Grid, state: State, done: nat, row: int, position: int)
    requires
        walking(g, done, row),
        0 <= row < 14,
        0 <= position < 7,
    ensures
        beside(position, next_position(g, state, row, position).0),
        fits(g, row, position, next_position(g, state, row, position).0),
{
    let (adjustment, s1) = draw(state, choices(position));
    let first = naive_next(position, adjustment);
    lemma_naive_next(position, adjustment);
    let times = disputes(g, row, position, first);
    lemma_rerolled_beside(s1, position, first, times);
    let second = rerolled(s1, position, first, times).0;
    lemma_clamped(g, done + 1, row, position, second);
}

/// A path walked from `position` in `row` up to the last row leaves the
/// grid orderly, with one more edge into every row above the first.
pub proof fn lemma_walked(g: Grid, state: State, done: nat, row: int, position: int)
    requires
        walking(g, done, row),
        carrying(g, done, row),
        0 <= row <= 14,
        0 <= position < 7,
        row > 0 ==> total(g[row][position].ins) > 0,
    ensures
        orderly(walked(g, state, row, position).0, done + 1),
        carries(walked(g, state, row, position).0, done + 1),
    decreases 14 - row,
{
    if row < 14 {
        let (next, after) = next_position(g, state, row, position);
        lemma_next_position(g, state, done, row, position);
        lemma_with_edge(g, done, row, position, next);
        lemma_with_edge_carrying(g, done, row, position, next);
        lemma_walked(with_edge(g, row, position, next), after, done, row + 1, next);
    } else {
        assert forall|r: int| 1 <= r < 15 implies #[trigger] arrivals(g, r) == done + 1 by {
        }
    }
}

/// An orderly grid of `paths` paths.
#[verifier::opaque]
pub open spec fn drawn(g: Grid, paths: nat) -> bool {
    orderly(g, paths) && carries(g, paths)
}

/// A path walked from the first row takes an orderly grid of `done` paths
/// to an orderly grid of one more.
pub proof fn lemma_one_more_path(g: Grid, state: State, done: nat, start: int)
    requires
        drawn(g, done),
        0 <= start < 7,
    ensures
        drawn(walked(g, state, 0, start).0, done + 1),
{
    reveal(drawn);
    lemma_walk_start(g, done);
    assert forall|r: int| 1 <= r < 15 implies #[trigger] arrivals(g, r) == if r <= 0 {
        done + 1
    } else {
        done
    } by {
    }
    lemma_walked(g, state, done, 0, start);
}

/// Paths from freshly drawn starts take an orderly grid of `done` paths to
/// an orderly grid of as many more.
pub proof fn lemma_more_paths(g: Grid, state: State, done: nat, paths: nat)
    requires
        drawn(g, done),
    ensures
        drawn(with_paths(g, state, paths).0, done + paths),
    decreases paths,
{
    if paths > 0 {
        let (start, after) = draw(state, 7);
        lemma_one_more_path(g, after, done, start);
        let (g1, s1) = with_path(g, state);
        lemma_more_paths(g1, s1, done + 1, (paths - 1) as nat);
    }
}

/// Drawn again any number of times, the start of the second path is a
/// slot of the row.
pub proof fn lemma_redrawn_in_row(state: State, first: int, start: int, tries: nat)
    requires
        0 <= start < 7,
    ensures
        0 <= redrawn(state, first, start, tries).0 < 7,
    decreases tries,
{
    if start == first && tries > 0 {
        let (again, after) = draw(state, 7);
        lemma_redrawn_in_row(after, first, again, (tries - 1) as nat);
    }
}

/// The grid without any edge is one of no paths.
pub proof fn lemma_blank_carries()
    ensures
        carries(blank(), 0),
{
    let g = blank();
    assert forall|r: int, p: int| 0 <= r < 15 && 0 <= p < 7 implies #[trigger] g[r][p] == lone() by {
    }
    assert forall|r: int| 0 <= r < 15 implies #[trigger] arrivals(g, r) == 0 by {
        assert(g[r][0] == lone() && g[r][1] == lone() && g[r][2] == lone() && g[r][3] == lone()
            && g[r][4] == lone() && g[r][5] == lone() && g[r][6] == lone());
    }
    assert forall|r: int, p: int, q: int|
        #![trigger g[r][p].outs[q]]
        0 <= r < 14 && 0 <= p < 7 && 0 <= q < 7 implies ((g[r][p].outs[q] > 0) == (g[r + 1][q].ins[p]
        > 0)) by {
        assert(g[r][p] == lone() && g[r + 1][q] == lone());
    }
}

/// Whatever the generator draws, the path graph that it produces is
/// orderly, every edge of it is seen from both of its ends, no edge
/// arrives in the first row, and six edges arrive in every other row.
pub proof fn lemma_generated_edges(state: State)
    ensures
        orderly(generated_grid(state).0, 6),
        carries(generated_grid(state).0, 6),
{
    assert(drawn(blank(), 0)) by {
        reveal(drawn);
        lemma_blank();
        lemma_blank_carries();
    }
    let (first, s1) = draw(state, 7);
    lemma_one_more_path(blank(), s1, 0, first);
    let (g1, s2) = walked(blank(), s1, 0, first);
    let (start, s3) = draw(s2, 7);
    lemma_redrawn_in_row(s3, first, start, REDRAW_LIMIT as nat);
    let (second, s4) = redrawn(s3, first, start, REDRAW_LIMIT as nat);
    lemma_one_more_path(g1, s4, 1, second);
    let (g2, s5) = walked(g1, s4, 0, second);
    lemma_more_paths(g2, s5, 2, 4);
    assert(drawn(generated_grid(state).0, 6));
    reveal(drawn);
}

} // verus!
