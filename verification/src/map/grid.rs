//! The mathematical model of the path graph and of its construction.
//!
//! A grid gives every node of the fifteen rows the tally of its
//! in-neighborhood and of its out-neighborhood. The construction of the six
//! paths is stated here as a function of the generator's state, draw by
//! draw; the executable construction is proved to compute it.

use vstd::prelude::*;
use super::tally::{
    apart, around, is_set, is_tally, lowered, no_neighbors, raised, total, with_member,
    with_one_more,
};
use crate::rng::{draw, State};

verus! {

/// The two neighborhoods of one node.
pub ghost struct Node {
    pub ins: Seq<nat>,
    pub outs: Seq<nat>,
}

/// The rows of a path graph, the first row first.
pub type Grid = Seq<Seq<Node>>;

/// How often the start of the second path is drawn again when it falls on
/// the start of the first, before the last draw is kept.
pub const REDRAW_LIMIT: u64 = 0xffff_ffff_ffff_ffff;

/// Fifteen rows of seven nodes, each with two tallies.
pub open spec fn is_grid(g: Grid) -> bool {
    &&& g.len() == 15
    &&& forall|r: int| 0 <= r < 15 ==> (#[trigger] g[r]).len() == 7
    &&& forall|r: int, p: int|
        0 <= r < 15 && 0 <= p < 7 ==> is_tally((#[trigger] g[r][p]).ins) && is_tally(g[r][p].outs)
}

/// A node without neighbors.
pub open spec fn lone() -> Node {
    Node { ins: no_neighbors(), outs: no_neighbors() }
}

/// The grid without any edge.
pub open spec fn blank() -> Grid {
    Seq::new(15, |r: int| Seq::new(7, |p: int| lone()))
}

/// The grid with one more edge, from `position` in `row` to `next` in the
/// row above.
pub open spec fn with_edge(g: Grid, row: int, position: int, next: int) -> Grid {
    let from = g[row][position];
    let g1 = g.update(
        row,
        g[row].update(position, Node { ins: from.ins, outs: with_member(from.outs, next) }),
    );
    let to = g1[row + 1][next];
    g1.update(
        row + 1,
        g1[row + 1].update(next, Node { ins: with_one_more(to.ins, position), outs: to.outs }),
    )
}

/// Number of slots that a path may step to from `position`: two at the
/// edges of the row, three elsewhere.
pub open spec fn choices(position: int) -> u64 {
    if position == 0 || position == 6 {
        2
    } else {
        3
    }
}

/// The first candidate for the next slot: the leftmost reachable slot plus
/// the drawn adjustment.
pub open spec fn naive_next(position: int, adjustment: int) -> int {
    (if position == 0 {
        0
    } else {
        position - 1
    }) + adjustment
}

/// Number of values among which a reroll draws: three when the candidate is
/// straight ahead, else two.
pub open spec fn reroll_modulus(position: int, next: int) -> u64 {
    if next == position {
        3
    } else {
        2
    }
}

/// The candidate after one reroll with draw `d`: biased toward `position`,
/// and kept inside the row.
pub open spec fn reroll(position: int, next: int, d: int) -> int {
    let t = position + d;
    if next > position {
        (if t < 1 {
            1
        } else {
            t
        }) - 1
    } else if next == position {
        if t == 0 {
            1
        } else if t >= 6 {
            position - 1
        } else {
            t - 1
        }
    } else {
        if t > 6 {
            6
        } else {
            t
        }
    }
}

/// Whether the edge that arrives from `neighbor` is exempt from the
/// crossing rule for a path at `position`: the in-neighborhoods of the two
/// nodes of `row` do not touch in one shared slot. Which of the two counts
/// as the left one is decided by comparing `neighbor` with the row's index.
pub open spec fn skips(g: Grid, row: int, neighbor: int, position: int) -> bool {
    let left = if neighbor < row { neighbor } else { position };
    let right = if neighbor < row { position } else { neighbor };
    apart(g[row][left].ins, g[row][right].ins)
}

/// The rerolls that the edges arriving from slot `v` at the candidate cost.
pub open spec fn dispute(g: Grid, row: int, position: int, next: int, v: int) -> nat {
    if v != position && !skips(g, row, v, position) {
        g[row + 1][next].ins[v]
    } else {
        0
    }
}

/// The rerolls that the edges arriving from the slots below `upto` cost.
pub open spec fn disputes_below(g: Grid, row: int, position: int, next: int, upto: int) -> nat
    decreases upto,
{
    if upto <= 0 {
        0
    } else {
        disputes_below(g, row, position, next, upto - 1) + dispute(
            g,
            row,
            position,
            next,
            upto - 1,
        )
    }
}

/// Number of rerolls for a candidate: the edges that already arrive there
/// from another slot and are not exempt, counted with multiplicity.
pub open spec fn disputes(g: Grid, row: int, position: int, next: int) -> nat {
    disputes_below(g, row, position, next, 7)
}

/// The candidate and the state after `times` rerolls.
pub open spec fn rerolled(state: State, position: int, next: int, times: nat) -> (int, State)
    decreases times,
{
    if times == 0 {
        (next, state)
    } else {
        let (d, after) = draw(state, reroll_modulus(position, next));
        rerolled(after, position, reroll(position, next, d), (times - 1) as nat)
    }
}

/// The candidate held between the edges of the two sibling nodes: not left
/// of any edge from the left sibling, not right of any from the right one.
pub open spec fn clamped(g: Grid, row: int, position: int, next: int) -> int {
    let a = if position != 0 {
        raised(g[row][position - 1].outs, next)
    } else {
        next
    };
    if position != 6 {
        lowered(g[row][position + 1].outs, a)
    } else {
        a
    }
}

/// The slot in the row above to which a path at `position` steps, and the
/// state after the draws that decide it.
pub open spec fn next_position(g: Grid, state: State, row: int, position: int) -> (int, State) {
    let (adjustment, s1) = draw(state, choices(position));
    let first = naive_next(position, adjustment);
    let (second, s2) = rerolled(s1, position, first, disputes(g, row, position, first));
    (clamped(g, row, position, second), s2)
}

/// The grid and the state after a path has been drawn from `position` in
/// `row` up to the last row.
pub open spec fn walked(g: Grid, state: State, row: int, position: int) -> (Grid, State)
    decreases 14 - row,
{
    if row >= 14 || row < 0 {
        (g, state)
    } else {
        let (next, after) = next_position(g, state, row, position);
        walked(with_edge(g, row, position, next), after, row + 1, next)
    }
}

/// The start of the second path after a draw `start`: drawn again while it
/// equals `first`, at most `tries` times.
pub open spec fn redrawn(state: State, first: int, start: int, tries: nat) -> (int, State)
    decreases tries,
{
    if start != first || tries == 0 {
        (start, state)
    } else {
        let (again, after) = draw(state, 7);
        redrawn(after, first, again, (tries - 1) as nat)
    }
}

/// The grid and the state after one more path from a freshly drawn start.
pub open spec fn with_path(g: Grid, state: State) -> (Grid, State) {
    let (start, after) = draw(state, 7);
    walked(g, after, 0, start)
}

/// The grid and the state after `paths` more paths from freshly drawn
/// starts.
pub open spec fn with_paths(g: Grid, state: State, paths: nat) -> (Grid, State)
    decreases paths,
{
    if paths == 0 {
        (g, state)
    } else {
        let (g1, s1) = with_path(g, state);
        with_paths(g1, s1, (paths - 1) as nat)
    }
}

/// The path graph that a generator in `state` produces, and the state that
/// the construction leaves: a first path, a second one from another start,
/// and four more.
pub open spec fn generated_grid(state: State) -> (Grid, State) {
    let (first, s1) = draw(state, 7);
    let (g1, s2) = walked(blank(), s1, 0, first);
    let (start, s3) = draw(s2, 7);
    let (second, s4) = redrawn(s3, first, start, REDRAW_LIMIT as nat);
    let (g2, s5) = walked(g1, s4, 0, second);
    with_paths(g2, s5, 4)
}

/// Edges stay local and never cross: every neighbor of a node is within
/// one slot of the node's own, an out-neighborhood is a set, no node is met
/// by more than `bound` edges, of two nodes of one row the left one's edges
/// end at or left of the right one's, and above the first row an edge
/// leaves only a node at which one arrives.
pub open spec fn orderly(g: Grid, bound: nat) -> bool {
    &&& is_grid(g)
    &&& local(g, bound)
    &&& uncrossed(g)
    &&& rooted(g)
}

/// Every neighbor of a node is within one slot of the node's own, an
/// out-neighborhood is a set, and no node is met by more than `bound`
/// edges.
pub open spec fn local(g: Grid, bound: nat) -> bool {
    forall|r: int, p: int|
        0 <= r < 15 && 0 <= p < 7 ==> around((#[trigger] g[r][p]).ins, p) && around(
            g[r][p].outs,
            p,
        ) && is_set(g[r][p].outs) && total(g[r][p].ins) <= bound
}

/// Above the first row an edge leaves only a node at which one arrives.
pub open spec fn rooted(g: Grid) -> bool {
    forall|r: int, p: int|
        1 <= r < 15 && 0 <= p < 7 && total((#[trigger] g[r][p]).outs) > 0 ==> total(g[r][p].ins)
            > 0
}

/// Of two nodes of one row the left one's edges end at or left of the right
/// one's.
pub open spec fn uncrossed(g: Grid) -> bool {
    forall|r: int, p: int, q: int, a: int, b: int|
        0 <= r < 15 && 0 <= p < q < 7 && 0 <= a < 7 && 0 <= b < 7 && #[trigger] g[r][p].outs[a] > 0
            && #[trigger] g[r][q].outs[b] > 0 ==> a <= b
}

/// The edge from `position` to `next` crosses no edge of `row`.
pub open spec fn fits(g: Grid, row: int, position: int, next: int) -> bool {
    &&& forall|p: int, a: int|
        0 <= p < position && 0 <= a < 7 && #[trigger] g[row][p].outs[a] > 0 ==> a <= next
    &&& forall|q: int, b: int|
        position < q < 7 && 0 <= b < 7 && #[trigger] g[row][q].outs[b] > 0 ==> next <= b
}

/// The state of a grid while path number `done` (from 0) is being drawn
/// and has reached `row`: orderly, with at most `done + 1` edges into a node
/// of the rows already reached and `done` into the others.
pub open spec fn walking(g: Grid, done: nat, row: int) -> bool {
    &&& orderly(g, done + 1)
    &&& forall|r: int, p: int|
        row < r < 15 && 0 <= p < 7 ==> total((#[trigger] g[r][p]).ins) <= done
}

/// `next` is a slot of the row, at most one to the side of `position`.
pub open spec fn beside(position: int, next: int) -> bool {
    0 <= next < 7 && position - 1 <= next <= position + 1
}

/// The first candidate is beside the position.
pub proof fn lemma_naive_next(position: int, adjustment: int)
    requires
        0 <= position < 7,
        0 <= adjustment < choices(position),
    ensures
        beside(position, naive_next(position, adjustment)),
{
}

/// A reroll keeps the candidate beside the position.
pub proof fn lemma_reroll(position: int, next: int, d: int)
    requires
        0 <= position < 7,
        beside(position, next),
        0 <= d < reroll_modulus(position, next),
    ensures
        beside(position, reroll(position, next, d)),
{
}

/// Held between its siblings' edges, a candidate beside the position stays
/// beside it and crosses no edge of the row.
pub proof fn lemma_clamped(g: Grid, bound: nat, row: int, position: int, next: int)
    requires
        orderly(g, bound),
        0 <= row < 15,
        0 <= position < 7,
        beside(position, next),
    ensures
        beside(position, clamped(g, row, position, next)),
        fits(g, row, position, clamped(g, row, position, next)),
{
    let c = clamped(g, row, position, next);
    if position != 0 {
        assert(around(g[row][position - 1].outs, position - 1));
    }
    if position != 6 {
        assert(around(g[row][position + 1].outs, position + 1));
    }
    assert forall|p: int, a: int|
        0 <= p < position && 0 <= a < 7 && #[trigger] g[row][p].outs[a] > 0 implies a <= c by {
        assert(around(g[row][p].outs, p));
    }
    assert forall|q: int, b: int|
        position < q < 7 && 0 <= b < 7 && #[trigger] g[row][q].outs[b] > 0 implies c <= b by {
        assert(around(g[row][q].outs, q));
    }
}

proof fn lemma_with_edge_local(g: Grid, done: nat, row: int, position: int, next: int)
    requires
        is_grid(g),
        local(g, done + 1),
        forall|r: int, p: int|
            row < r < 15 && 0 <= p < 7 ==> total((#[trigger] g[r][p]).ins) <= done,
        0 <= row < 14,
        0 <= position < 7,
        beside(position, next),
    ensures
        is_grid(with_edge(g, row, position, next)),
        local(with_edge(g, row, position, next), done + 1),
        forall|r: int, p: int|
            row + 1 < r < 15 && 0 <= p < 7 ==> total(
                (#[trigger] with_edge(g, row, position, next)[r][p]).ins,
            ) <= done,
        total(with_edge(g, row, position, next)[row + 1][next].ins) > 0,
{
    let h = with_edge(g, row, position, next);
    assert(is_grid(h));
    assert forall|r: int, p: int| 0 <= r < 15 && 0 <= p < 7 implies around(
        (#[trigger] h[r][p]).ins,
        p,
    ) && around(h[r][p].outs, p) && is_set(h[r][p].outs) && total(h[r][p].ins) <= done + 1 by {
        assert(around(g[r][p].ins, p) && around(g[r][p].outs, p) && is_set(g[r][p].outs));
        assert(total(g[r][p].ins) <= done + 1);
        if r == row + 1 && p == next {
            assert(total(g[r][p].ins) <= done);
        }
    }
    assert forall|r: int, p: int| row + 1 < r < 15 && 0 <= p < 7 implies total(
        (#[trigger] h[r][p]).ins,
    ) <= done by {
        assert(total(g[r][p].ins) <= done);
    }
}

proof fn lemma_with_edge_uncrossed(g: Grid, row: int, position: int, next: int)
    requires
        is_grid(g),
        uncrossed(g),
        0 <= row < 14,
        0 <= position < 7,
        0 <= next < 7,
        fits(g, row, position, next),
    ensures
        uncrossed(with_edge(g, row, position, next)),
{
    let h = with_edge(g, row, position, next);
    assert forall|r: int, p: int, q: int, a: int, b: int|
        0 <= r < 15 && 0 <= p < q < 7 && 0 <= a < 7 && 0 <= b < 7 && #[trigger] h[r][p].outs[a] > 0
            && #[trigger] h[r][q].outs[b] > 0 implies a <= b by {
        if r == row {
            if p == position {
                if a != next {
                    assert(g[r][p].outs[a] > 0);
                }
                assert(g[r][q].outs[b] > 0);
            } else if q == position {
                if b != next {
                    assert(g[r][q].outs[b] > 0);
                }
                assert(g[r][p].outs[a] > 0);
            } else {
                assert(g[r][p].outs[a] > 0 && g[r][q].outs[b] > 0);
            }
        } else {
            assert(g[r][p].outs[a] > 0 && g[r][q].outs[b] > 0);
        }
    }
}

proof fn lemma_with_edge_rooted(g: Grid, row: int, position: int, next: int)
    requires
        is_grid(g),
        rooted(g),
        0 <= row < 14,
        0 <= position < 7,
        0 <= next < 7,
        row > 0 ==> total(g[row][position].ins) > 0,
    ensures
        rooted(with_edge(g, row, position, next)),
{
    let h = with_edge(g, row, position, next);
    assert forall|r: int, p: int|
        1 <= r < 15 && 0 <= p < 7 && total((#[trigger] h[r][p]).outs) > 0 implies total(
        h[r][p].ins,
    ) > 0 by {
        if r == row && p == position {
        } else if r == row + 1 && p == next {
        } else {
            assert(h[r][p] == g[r][p]);
            assert(total(g[r][p].outs) > 0);
        }
    }
}

/// An edge that fits, drawn while a path is walked, leaves the grid in the
/// state of a walk that has reached the next row.
pub proof fn lemma_with_edge(g: Grid, done: nat, row: int, position: int, next: int)
    requires
        walking(g, done, row),
        0 <= row < 14,
        0 <= position < 7,
        beside(position, next),
        fits(g, row, position, next),
        row > 0 ==> total(g[row][position].ins) > 0,
    ensures
        walking(with_edge(g, row, position, next), done, row + 1),
        total(with_edge(g, row, position, next)[row + 1][next].ins) > 0,
{
    lemma_with_edge_local(g, done, row, position, next);
    lemma_with_edge_uncrossed(g, row, position, next);
    lemma_with_edge_rooted(g, row, position, next);
}

/// The blank grid is orderly, and no edge arrives anywhere.
pub proof fn lemma_blank()
    ensures
        orderly(blank(), 0),
{
    assert(is_grid(blank()));
}

/// A grid that is orderly for a bound is orderly for every larger one.
pub proof fn lemma_orderly_for_more(g: Grid, bound: nat, more: nat)
    requires
        orderly(g, bound),
        bound <= more,
    ensures
        orderly(g, more),
{
    assert forall|r: int, p: int| 0 <= r < 15 && 0 <= p < 7 implies around(
        (#[trigger] g[r][p]).ins,
        p,
    ) && around(g[r][p].outs, p) && is_set(g[r][p].outs) && total(g[r][p].ins) <= more by {
        assert(total(g[r][p].ins) <= bound);
    }
}

/// An orderly grid is ready for the walk of the next path.
pub proof fn lemma_walk_start(g: Grid, done: nat)
    requires
        orderly(g, done),
    ensures
        walking(g, done, 0),
{
    assert forall|r: int, p: int| 0 <= r < 15 && 0 <= p < 7 implies around(
        (#[trigger] g[r][p]).ins,
        p,
    ) && around(g[r][p].outs, p) && is_set(g[r][p].outs) && total(g[r][p].ins) <= done + 1 by {
        assert(total(g[r][p].ins) <= done);
    }
    assert forall|r: int, p: int| 0 < r < 15 && 0 <= p < 7 implies total(
        (#[trigger] g[r][p]).ins,
    ) <= done by {
    }
}

} // verus!
