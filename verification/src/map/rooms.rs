//! The mathematical model of a finished map and of the assignment of room
//! kinds: the removal of repeated edges out of the first row, the bag of
//! candidate kinds, its shuffle, and the scan that gives every node on a
//! path its kind.

use vstd::prelude::*;
use super::grid::{generated_grid, is_grid, orderly, uncrossed, Grid, Node};
use super::kind::{barred, NodeKind};
use super::row::{entered, exited};
use super::tally::{around, is_set, total};
use crate::rng::{draw, State};

verus! {

/// A map: the path graph and the kind of every node.
pub ghost struct Plan {
    pub grid: Grid,
    pub kinds: Seq<Seq<NodeKind>>,
}

/// Fifteen rows of seven kinds.
pub open spec fn is_kinds(kinds: Seq<Seq<NodeKind>>) -> bool {
    &&& kinds.len() == 15
    &&& forall|r: int| 0 <= r < 15 ==> (#[trigger] kinds[r]).len() == 7
}

/// No kind assigned anywhere.
pub open spec fn no_kinds() -> Seq<Seq<NodeKind>> {
    Seq::new(15, |r: int| Seq::new(7, |p: int| NodeKind::Unassigned))
}

/// Whether a node of the first row left of `position` has an edge to slot
/// `next`.
pub open spec fn reached_before(g: Grid, position: int, next: int) -> bool
    decreases position,
{
    if position <= 0 {
        false
    } else {
        reached_before(g, position - 1, next) || g[0][position - 1].outs[next] > 0
    }
}

/// The out-neighborhood of a node of the first row without the edges to
/// slots that a node further left already reaches.
pub open spec fn deduped_outs(g: Grid, position: int) -> Seq<nat> {
    Seq::new(
        7,
        |next: int|
            if g[0][position].outs[next] > 0 && !reached_before(g, position, next) {
                1nat
            } else {
                0nat
            },
    )
}

/// The grid in which every slot of the second row is reached from the
/// first row by one edge only: that of the leftmost node that reaches it.
pub open spec fn deduped(g: Grid) -> Grid {
    g.update(
        0,
        Seq::new(7, |p: int| Node { ins: g[0][p].ins, outs: deduped_outs(g, p) }),
    )
}

/// Number of nodes at which an edge arrives, in the rows below `upto`.
pub open spec fn entered_below(g: Grid, upto: int) -> nat
    decreases upto,
{
    if upto <= 0 {
        0
    } else {
        entered_below(g, upto - 1) + entered(g[upto - 1])
    }
}

/// Number of nodes from which an edge leaves, in the rows below `upto`.
pub open spec fn exited_below(g: Grid, upto: int) -> nat
    decreases upto,
{
    if upto <= 0 {
        0
    } else {
        exited_below(g, upto - 1) + exited(g[upto - 1])
    }
}

/// The count from which the shares of the kinds are taken: every node at
/// which an edge arrives, the rest sites once more, less the nodes of the
/// row below them.
pub open spec fn first_count(g: Grid) -> int {
    entered_below(g, 15) + entered(g[14]) - exited(g[13])
}

/// Number of nodes whose kind is fixed by their row: rest sites, treasure
/// rooms and the first row.
pub open spec fn pre_assigned(g: Grid) -> int {
    (entered(g[14]) + exited(g[8]) + exited(g[0])) as int
}

/// The least size of the bag: every node from which an edge leaves, less
/// those with a fixed kind, plus the rest sites.
pub open spec fn adjusted_recount(g: Grid) -> int {
    exited_below(g, 15) - pre_assigned(g) + entered(g[14])
}

/// `count * num / den`, rounded to the nearest integer, halves upward.
pub open spec fn share(count: int, num: int, den: int) -> int {
    (2 * count * num + den) / (2 * den)
}

/// `times` copies of `kind`.
pub open spec fn copies(kind: NodeKind, times: int) -> Seq<NodeKind> {
    Seq::new(times as nat, |i: int| kind)
}

/// The bag before padding: 5 % shops, 12 % rest sites, 8 % elites (12.8 %
/// under ascension) and 22 % events, in this order.
pub open spec fn room_array(count: int, ascension: bool) -> Seq<NodeKind> {
    copies(NodeKind::Shop, share(count, 5, 100)) + copies(NodeKind::Rest, share(count, 12, 100))
        + copies(
        NodeKind::Elite,
        if ascension {
            share(count, 128, 1000)
        } else {
            share(count, 8, 100)
        },
    ) + copies(NodeKind::Event, share(count, 22, 100))
}

/// The bag filled up with monsters to `size`, where it is shorter.
pub open spec fn padded(bag: Seq<NodeKind>, size: int) -> Seq<NodeKind> {
    if size > bag.len() {
        bag + copies(NodeKind::Monster, size - bag.len())
    } else {
        bag
    }
}

/// The bag with two entries exchanged.
pub open spec fn swapped(bag: Seq<NodeKind>, i: int, j: int) -> Seq<NodeKind> {
    bag.update(i, bag[j]).update(j, bag[i])
}

/// The bag and the state after the shuffle has settled the entries from
/// index `upto - 1` down to index 1: each is exchanged with an entry drawn
/// from those up to itself.
pub open spec fn shuffled(bag: Seq<NodeKind>, state: State, upto: int) -> (Seq<NodeKind>, State)
    decreases upto,
{
    if upto < 2 {
        (bag, state)
    } else {
        let (j, after) = draw(state, upto as u64);
        shuffled(swapped(bag, upto - 1, j), after, upto - 1)
    }
}

/// Kinds that a node may not share with a parent.
pub open spec fn shuns_parents(kind: NodeKind) -> bool {
    kind == NodeKind::Rest || kind == NodeKind::Shop || kind == NodeKind::Elite
}

/// Kinds that a node may not share with a sibling.
pub open spec fn shuns_siblings(kind: NodeKind) -> bool {
    kind == NodeKind::Rest || kind == NodeKind::Shop || kind == NodeKind::Elite || kind
        == NodeKind::Monster || kind == NodeKind::Event
}

/// Whether `v` is a parent of the node: an edge arrives from it.
pub open spec fn is_parent(g: Grid, row: int, position: int, v: int) -> bool {
    0 <= v < 7 && g[row][position].ins[v] > 0
}

/// Whether a parent of the node below slot `upto` has an edge to slot `s`.
pub open spec fn shares_parent_below(g: Grid, row: int, position: int, s: int, upto: int) -> bool
    decreases upto,
{
    if upto <= 0 {
        false
    } else {
        shares_parent_below(g, row, position, s, upto - 1) || (is_parent(
            g,
            row,
            position,
            upto - 1,
        ) && g[row - 1][upto - 1].outs[s] > 0)
    }
}

/// Whether `s` is a sibling of the node: another node of the row to which
/// a parent has an edge.
pub open spec fn is_sibling(g: Grid, row: int, position: int, s: int) -> bool {
    0 <= s < 7 && s != position && shares_parent_below(g, row, position, s, 7)
}

/// Whether a parent of the node below slot `upto` has kind `kind`.
pub open spec fn parent_has_below(
    plan: Plan,
    row: int,
    position: int,
    kind: NodeKind,
    upto: int,
) -> bool
    decreases upto,
{
    if upto <= 0 {
        false
    } else {
        parent_has_below(plan, row, position, kind, upto - 1) || (is_parent(
            plan.grid,
            row,
            position,
            upto - 1,
        ) && plan.kinds[row - 1][upto - 1] == kind)
    }
}

/// Whether a parent of the node has kind `kind`.
pub open spec fn parent_has(plan: Plan, row: int, position: int, kind: NodeKind) -> bool {
    parent_has_below(plan, row, position, kind, 7)
}

/// Whether a sibling of the node below slot `upto` has kind `kind`.
pub open spec fn sibling_has_below(
    plan: Plan,
    row: int,
    position: int,
    kind: NodeKind,
    upto: int,
) -> bool
    decreases upto,
{
    if upto <= 0 {
        false
    } else {
        sibling_has_below(plan, row, position, kind, upto - 1) || (is_sibling(
            plan.grid,
            row,
            position,
            upto - 1,
        ) && plan.kinds[row][upto - 1] == kind)
    }
}

/// Whether a sibling of the node has kind `kind`.
pub open spec fn sibling_has(plan: Plan, row: int, position: int, kind: NodeKind) -> bool {
    sibling_has_below(plan, row, position, kind, 7)
}

/// Whether `kind` may be given to the node: the row admits it, no parent
/// has it if it shuns parents, no sibling has it if it shuns siblings.
pub open spec fn suits(plan: Plan, row: int, position: int, kind: NodeKind) -> bool {
    &&& !barred(kind, row)
    &&& !(shuns_parents(kind) && parent_has(plan, row, position, kind))
    &&& !(shuns_siblings(kind) && sibling_has(plan, row, position, kind))
}

/// The index of the first entry of the bag from `from` on that suits the
/// node; the length of the bag if none does.
pub open spec fn first_fit(plan: Plan, row: int, position: int, bag: Seq<NodeKind>, from: int) -> int
    decreases bag.len() - from,
{
    if from >= bag.len() || from < 0 {
        bag.len() as int
    } else if suits(plan, row, position, bag[from]) {
        from
    } else {
        first_fit(plan, row, position, bag, from + 1)
    }
}

/// The kinds with that of one node set.
pub open spec fn with_kind(kinds: Seq<Seq<NodeKind>>, row: int, position: int, kind: NodeKind) -> Seq<
    Seq<NodeKind>,
> {
    kinds.update(row, kinds[row].update(position, kind))
}

/// The kinds and the bag after the node has had its turn: a node from
/// which an edge leaves takes the first entry of the bag that suits it, if
/// there is one.
pub open spec fn with_cell(plan: Plan, bag: Seq<NodeKind>, row: int, position: int) -> (
    Seq<Seq<NodeKind>>,
    Seq<NodeKind>,
) {
    let found = first_fit(plan, row, position, bag, 0);
    if total(plan.grid[row][position].outs) == 0 || found >= bag.len() {
        (plan.kinds, bag)
    } else {
        (with_kind(plan.kinds, row, position, bag[found]), bag.remove(found))
    }
}

/// The kinds and the bag after the nodes of `row` from `position` on have
/// had their turn, left to right.
pub open spec fn with_cells(plan: Plan, bag: Seq<NodeKind>, row: int, position: int) -> (
    Seq<Seq<NodeKind>>,
    Seq<NodeKind>,
)
    decreases 7 - position,
{
    if position >= 7 || position < 0 {
        (plan.kinds, bag)
    } else {
        let (kinds, rest) = with_cell(plan, bag, row, position);
        with_cells(Plan { grid: plan.grid, kinds }, rest, row, position + 1)
    }
}

/// Whether the kinds of a row are fixed by the row itself.
pub open spec fn is_constant_row(row: int) -> bool {
    row == 0 || row == 8 || row == 14
}

/// The kinds and the bag after the rows from `row` on have had their turn,
/// the rows of fixed kind left out.
pub open spec fn with_rows(plan: Plan, bag: Seq<NodeKind>, row: int) -> (
    Seq<Seq<NodeKind>>,
    Seq<NodeKind>,
)
    decreases 15 - row,
{
    if row >= 15 || row < 0 {
        (plan.kinds, bag)
    } else if is_constant_row(row) {
        with_rows(plan, bag, row + 1)
    } else {
        let (kinds, rest) = with_cells(plan, bag, row, 0);
        with_rows(Plan { grid: plan.grid, kinds }, rest, row + 1)
    }
}

/// The kinds with those of the first row, of the treasure row and of the
/// rest row fixed.
pub open spec fn with_constant_rows(kinds: Seq<Seq<NodeKind>>) -> Seq<Seq<NodeKind>> {
    kinds.update(0, copies(NodeKind::Monster, 7)).update(8, copies(NodeKind::Treasure, 7)).update(
        14,
        copies(NodeKind::Rest, 7),
    )
}

/// The kinds in which every node that has none yet, and at which an edge
/// arrives, is a monster.
pub open spec fn backfilled(plan: Plan) -> Seq<Seq<NodeKind>> {
    Seq::new(
        15,
        |r: int|
            Seq::new(
                7,
                |p: int|
                    if plan.kinds[r][p] == NodeKind::Unassigned && total(plan.grid[r][p].ins) > 0 {
                        NodeKind::Monster
                    } else {
                        plan.kinds[r][p]
                    },
            ),
    )
}

/// The bag for a grid, before the shuffle.
pub open spec fn bag_for(g: Grid, ascension: bool) -> Seq<NodeKind> {
    padded(room_array(first_count(g), ascension), adjusted_recount(g))
}

/// The kinds that the assignment gives a map, and the state that it
/// leaves.
pub open spec fn assigned(plan: Plan, state: State, ascension: bool) -> (Seq<Seq<NodeKind>>, State) {
    let bag = bag_for(plan.grid, ascension);
    let (rooms, after) = shuffled(bag, state, bag.len() as int);
    let (kinds, rest) = with_rows(plan, rooms, 0);
    let fixed = with_constant_rows(kinds);
    (backfilled(Plan { grid: plan.grid, kinds: fixed }), after)
}

/// The map that a generator in `state` produces, and the state that the
/// generation leaves.
pub open spec fn generated_map(state: State, ascension: bool) -> (Plan, State) {
    let (g, s1) = generated_grid(state);
    let grid = deduped(g);
    let (kinds, s2) = assigned(Plan { grid, kinds: no_kinds() }, s1, ascension);
    (Plan { grid, kinds }, s2)
}

/// A slot that a node further left reaches lies at or left of every slot
/// that the node itself reaches, since edges do not cross.
pub proof fn lemma_reached_is_leftmost(g: Grid, node: int, position: int, next: int, b: int)
    requires
        is_grid(g),
        uncrossed(g),
        0 <= position <= node < 7,
        0 <= next < 7,
        0 <= b < 7,
        reached_before(g, position, next),
        g[0][node].outs[b] > 0,
    ensures
        next <= b,
    decreases position,
{
    if position > 0 {
        if g[0][position - 1].outs[next] > 0 {
        } else {
            lemma_reached_is_leftmost(g, node, position - 1, next, b);
        }
    }
}

/// Without its repeated first edges an orderly grid is still orderly.
pub proof fn lemma_deduped_orderly(g: Grid, bound: nat)
    requires
        orderly(g, bound),
    ensures
        orderly(deduped(g), bound),
{
    let h = deduped(g);
    assert(is_grid(h));
    assert forall|r: int, p: int| 0 <= r < 15 && 0 <= p < 7 implies around(
        (#[trigger] h[r][p]).ins,
        p,
    ) && around(h[r][p].outs, p) && is_set(h[r][p].outs) && total(h[r][p].ins) <= bound by {
        assert(around(g[r][p].ins, p) && around(g[r][p].outs, p) && is_set(g[r][p].outs));
        assert(total(g[r][p].ins) <= bound);
    }
    assert forall|r: int, p: int, q: int, a: int, b: int|
        0 <= r < 15 && 0 <= p < q < 7 && 0 <= a < 7 && 0 <= b < 7 && #[trigger] h[r][p].outs[a] > 0
            && #[trigger] h[r][q].outs[b] > 0 implies a <= b by {
        assert(g[r][p].outs[a] > 0 && g[r][q].outs[b] > 0);
    }
    assert forall|r: int, p: int|
        1 <= r < 15 && 0 <= p < 7 && total((#[trigger] h[r][p]).outs) > 0 implies total(
        h[r][p].ins,
    ) > 0 by {
        assert(h[r][p] == g[r][p]);
        assert(total(g[r][p].outs) > 0);
    }
}

/// The kinds obey the rules of the rows: no elite and no rest site in the
/// first five rows, and no rest site in the row below the last.
pub open spec fn tame(kinds: Seq<Seq<NodeKind>>) -> bool {
    &&& is_kinds(kinds)
    &&& forall|r: int, p: int|
        0 <= r <= 4 && 0 <= p < 7 ==> #[trigger] kinds[r][p] != NodeKind::Elite && kinds[r][p]
            != NodeKind::Rest
    &&& forall|p: int| 0 <= p < 7 ==> #[trigger] kinds[13][p] != NodeKind::Rest
}

/// What holds of the kinds of every generated map: the first row is all
/// monsters, the treasure row all treasure and the last row all rest
/// sites; no elite and no rest site stands in the first five rows, no rest
/// site in the row below the last; and every node at which an edge arrives
/// has a kind.
pub open spec fn well_placed(plan: Plan) -> bool {
    &&& tame(plan.kinds)
    &&& forall|p: int|
        0 <= p < 7 ==> #[trigger] plan.kinds[0][p] == NodeKind::Monster && plan.kinds[8][p]
            == NodeKind::Treasure && plan.kinds[14][p] == NodeKind::Rest
    &&& forall|r: int, p: int|
        0 <= r < 15 && 0 <= p < 7 && total(plan.grid[r][p].ins) > 0 ==> #[trigger] plan.kinds[r][p]
            != NodeKind::Unassigned
}

/// The first entry of the bag that suits a node, if there is one, lies in
/// the bag and suits the node.
pub proof fn lemma_first_fit(plan: Plan, row: int, position: int, bag: Seq<NodeKind>, from: int)
    requires
        0 <= from <= bag.len(),
    ensures
        from <= first_fit(plan, row, position, bag, from) <= bag.len(),
        first_fit(plan, row, position, bag, from) < bag.len() ==> suits(
            plan,
            row,
            position,
            bag[first_fit(plan, row, position, bag, from)],
        ),
    decreases bag.len() - from,
{
    if from < bag.len() && !suits(plan, row, position, bag[from]) {
        lemma_first_fit(plan, row, position, bag, from + 1);
    }
}

/// The turn of the nodes of a row keeps the kinds within the rules of the
/// rows.
pub proof fn lemma_with_cells_tame(plan: Plan, bag: Seq<NodeKind>, row: int, position: int)
    requires
        tame(plan.kinds),
        0 <= row < 15,
        0 <= position <= 7,
    ensures
        tame(with_cells(plan, bag, row, position).0),
    decreases 7 - position,
{
    if position < 7 {
        let (kinds, rest) = with_cell(plan, bag, row, position);
        lemma_first_fit(plan, row, position, bag, 0);
        assert(tame(kinds)) by {
            let found = first_fit(plan, row, position, bag, 0);
            if total(plan.grid[row][position].outs) == 0 || found >= bag.len() {
            } else {
                assert(!barred(bag[found], row));
                assert forall|r: int, p: int| 0 <= r <= 4 && 0 <= p < 7 implies #[trigger] kinds[r][p]
                    != NodeKind::Elite && kinds[r][p] != NodeKind::Rest by {
                    if r == row && p == position {
                    } else {
                        assert(kinds[r][p] == plan.kinds[r][p]);
                    }
                }
                assert forall|p: int| 0 <= p < 7 implies #[trigger] kinds[13][p]
                    != NodeKind::Rest by {
                    if 13 == row && p == position {
                    } else {
                        assert(kinds[13][p] == plan.kinds[13][p]);
                    }
                }
            }
        }
        lemma_with_cells_tame(Plan { grid: plan.grid, kinds }, rest, row, position + 1);
    }
}

/// The turn of the rows keeps the kinds within the rules of the rows.
pub proof fn lemma_with_rows_tame(plan: Plan, bag: Seq<NodeKind>, row: int)
    requires
        tame(plan.kinds),
        0 <= row <= 15,
    ensures
        tame(with_rows(plan, bag, row).0),
    decreases 15 - row,
{
    if row < 15 {
        if is_constant_row(row) {
            lemma_with_rows_tame(plan, bag, row + 1);
        } else {
            lemma_with_cells_tame(plan, bag, row, 0);
            let (kinds, rest) = with_cells(plan, bag, row, 0);
            lemma_with_rows_tame(Plan { grid: plan.grid, kinds }, rest, row + 1);
        }
    }
}

/// Whatever the generator draws, the assignment places the kinds by the
/// rules of the rows, provided the kinds that it starts from obey them.
pub proof fn lemma_assigned_is_well_placed(plan: Plan, state: State, ascension: bool)
    requires
        tame(plan.kinds),
    ensures
        well_placed(Plan { grid: plan.grid, kinds: assigned(plan, state, ascension).0 }),
{
    let bag = bag_for(plan.grid, ascension);
    let (rooms, after) = shuffled(bag, state, bag.len() as int);
    lemma_with_rows_tame(plan, rooms, 0);
    let (kinds, rest) = with_rows(plan, rooms, 0);
    let fixed = with_constant_rows(kinds);
    let last = backfilled(Plan { grid: plan.grid, kinds: fixed });
    assert(is_kinds(fixed));
    assert forall|r: int, p: int| 0 <= r <= 4 && 0 <= p < 7 implies #[trigger] last[r][p]
        != NodeKind::Elite && last[r][p] != NodeKind::Rest by {
        if r != 0 {
            assert(fixed[r][p] == kinds[r][p]);
        }
    }
    assert forall|p: int| 0 <= p < 7 implies #[trigger] last[13][p] != NodeKind::Rest by {
        assert(fixed[13][p] == kinds[13][p]);
    }
    assert(is_kinds(last));
}

/// Every generated map places its kinds by the rules of the rows, whatever
/// the state of the generator and with or without ascension.
pub proof fn lemma_generated_map_is_well_placed(state: State, ascension: bool)
    ensures
        well_placed(generated_map(state, ascension).0),
{
    let (g, s1) = generated_grid(state);
    let grid = deduped(g);
    assert(tame(no_kinds()));
    lemma_assigned_is_well_placed(Plan { grid, kinds: no_kinds() }, s1, ascension);
}

/// Two maps generated from the same state of the generator, with the same
/// ascension, are the same map and are written alike.
pub proof fn lemma_generation_is_deterministic(
    first: (Plan, State),
    second: (Plan, State),
    state: State,
    ascension: bool,
)
    requires
        first == generated_map(state, ascension),
        second == generated_map(state, ascension),
    ensures
        first.0 == second.0,
        first.1 == second.1,
        crate::map::display::map_rendering(first.0) == crate::map::display::map_rendering(
            second.0,
        ),
{
}

} // verus!
