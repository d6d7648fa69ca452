//! Maps and path graphs as text: the last row first, every row as a line
//! of edges under a line of kinds.

use vstd::prelude::*;
use super::grid::{Grid, Node};
use super::in_neighborhood::InNeighborhood;
use super::kind::{glyph, NodeKind};
use super::out_neighborhood::OutNeighborhood;
use super::rooms::{no_kinds, Plan};
use super::row::Row;
use super::skeleton::Skeleton;
use super::slots::{digit_char, first_occupied, last_occupied, out_counts, tally_in};
use super::tally::{digit, highest, lowest, total};
use super::DungeonMap;
use crate::text::push_char;

verus! {

/// The index of a row in a field of six characters.
pub open spec fn label(row: int) -> Seq<char> {
    if row < 10 {
        seq![digit(row), ' ', ' ', ' ', ' ', ' ']
    } else {
        seq![digit(row / 10), digit(row % 10), ' ', ' ', ' ', ' ']
    }
}

/// Six blanks: the field of the row index, left empty.
pub open spec fn margin() -> Seq<char> {
    seq![' ', ' ', ' ', ' ', ' ', ' ']
}

/// The field of a node of the last row: a rest site where an edge
/// arrives, blanks elsewhere.
pub open spec fn rest_cell(ins: Seq<nat>) -> Seq<char> {
    if total(ins) == 0 {
        seq![' ', ' ', ' ']
    } else {
        seq![' ', 'R', ' ']
    }
}

/// The edges that leave a node: `\` for an edge to the left, `|` for one
/// straight up and `/` for one to the right.
pub open spec fn edges_cell(outs: Seq<nat>, position: int) -> Seq<char> {
    seq![
        if lowest(outs) matches Some(a) && a < position {
            '\\'
        } else {
            ' '
        },
        if outs[position] > 0 {
            '|'
        } else {
            ' '
        },
        if highest(outs) matches Some(b) && b > position {
            '/'
        } else {
            ' '
        },
    ]
}

/// The field of a node: the glyph of its kind where an edge leaves, blanks
/// elsewhere.
pub open spec fn kind_cell(outs: Seq<nat>, kind: NodeKind) -> Seq<char> {
    if total(outs) == 0 {
        seq![' ', ' ', ' ']
    } else {
        seq![' ', glyph(kind), ' ']
    }
}

/// The fields of the nodes of the last row below slot `upto`.
pub open spec fn rest_line(row: Seq<Node>, upto: int) -> Seq<char>
    decreases upto,
{
    if upto <= 0 {
        Seq::empty()
    } else {
        rest_line(row, upto - 1) + rest_cell(row[upto - 1].ins)
    }
}

/// The edges of the nodes of a row below slot `upto`.
pub open spec fn edges_line(row: Seq<Node>, upto: int) -> Seq<char>
    decreases upto,
{
    if upto <= 0 {
        Seq::empty()
    } else {
        edges_line(row, upto - 1) + edges_cell(row[upto - 1].outs, upto - 1)
    }
}

/// The kinds of the nodes of a row below slot `upto`.
pub open spec fn kinds_line(row: Seq<Node>, kinds: Seq<NodeKind>, upto: int) -> Seq<char>
    decreases upto,
{
    if upto <= 0 {
        Seq::empty()
    } else {
        kinds_line(row, kinds, upto - 1) + kind_cell(row[upto - 1].outs, kinds[upto - 1])
    }
}

/// The rows below `upto`, the highest first: for each a line of edges and
/// under it the row's index and its kinds.
pub open spec fn lower_rows(plan: Plan, upto: int) -> Seq<char>
    decreases upto,
{
    if upto <= 0 {
        Seq::empty()
    } else {
        let r = upto - 1;
        seq!['\n'] + margin() + edges_line(plan.grid[r], 7) + seq!['\n'] + label(r) + kinds_line(
            plan.grid[r],
            plan.kinds[r],
            7,
        ) + lower_rows(plan, r)
    }
}

/// A map as text: the last row with its rest sites, then the other rows
/// from the highest down.
pub open spec fn map_rendering(plan: Plan) -> Seq<char> {
    seq!['\n'] + label(14) + rest_line(plan.grid[14], 7) + lower_rows(plan, 14)
}

/// A path graph as text: as a map in which no node has a kind yet.
pub open spec fn skeleton_rendering(grid: Grid) -> Seq<char> {
    map_rendering(Plan { grid, kinds: no_kinds() })
}

/// Appends the index of a row in its field of six characters.
fn push_label(text: &mut String, row: usize)
    requires
        row < 15,
    ensures
        final(text)@ == old(text)@ + label(row as int),
{
    if row < 10 {
        push_char(text, digit_char(row));
        push_char(text, ' ');
    } else {
        push_char(text, digit_char(row / 10));
        push_char(text, digit_char(row % 10));
    }
    push_char(text, ' ');
    push_char(text, ' ');
    push_char(text, ' ');
    push_char(text, ' ');
    assert(text@ =~= old(text)@ + label(row as int));
}

/// Appends six blanks.
fn push_margin(text: &mut String)
    ensures
        final(text)@ == old(text)@ + margin(),
{
    push_char(text, ' ');
    push_char(text, ' ');
    push_char(text, ' ');
    push_char(text, ' ');
    push_char(text, ' ');
    push_char(text, ' ');
    assert(text@ =~= old(text)@ + margin());
}

/// Appends a field of three characters with `c` in the middle.
fn push_cell(text: &mut String, c: char)
    ensures
        final(text)@ == old(text)@ + seq![' ', c, ' '],
{
    push_char(text, ' ');
    push_char(text, c);
    push_char(text, ' ');
    assert(text@ =~= old(text)@ + seq![' ', c, ' ']);
}

/// Appends the fields of the nodes of the last row.
fn push_rest_line<In: InNeighborhood, Out: OutNeighborhood>(text: &mut String, row: &Row<In, Out>)
    requires
        row.wf(),
    ensures
        final(text)@ == old(text)@ + rest_line(row@, 7),
{
    let mut position: usize = 0;
    assert(text@ =~= old(text)@ + rest_line(row@, 0));
    while position < 7
        invariant
            position <= 7,
            row.wf(),
            text@ == old(text)@ + rest_line(row@, position as int),
        decreases 7 - position,
    {
        let ghost before = text@;
        assert(row.values[position as int].0.wf());
        if row.in_neighborhood(position).is_empty() {
            push_cell(text, ' ');
        } else {
            push_cell(text, 'R');
        }
        position = position + 1;
        assert(text@ =~= old(text)@ + rest_line(row@, position as int));
    }
}

/// Appends the edges of the nodes of a row.
fn push_edges_line<In: InNeighborhood, Out: OutNeighborhood>(text: &mut String, row: &Row<In, Out>)
    requires
        row.wf(),
    ensures
        final(text)@ == old(text)@ + edges_line(row@, 7),
{
    let mut position: usize = 0;
    assert(text@ =~= old(text)@ + edges_line(row@, 0));
    while position < 7
        invariant
            position <= 7,
            row.wf(),
            text@ == old(text)@ + edges_line(row@, position as int),
        decreases 7 - position,
    {
        assert(row.values[position as int].1.wf());
        let counts = out_counts(row.out_neighborhood(position));
        assert(tally_in(counts)[position as int] == counts[position as int]);
        let left = match first_occupied(&counts) {
            Some(a) => a < position,
            None => false,
        };
        let right = match last_occupied(&counts) {
            Some(b) => b > position,
            None => false,
        };
        push_char(text, if left {
            '\\'
        } else {
            ' '
        });
        push_char(text, if counts[position] > 0 {
            '|'
        } else {
            ' '
        });
        push_char(text, if right {
            '/'
        } else {
            ' '
        });
        position = position + 1;
        assert(text@ =~= old(text)@ + edges_line(row@, position as int));
    }
}

/// Appends the kinds of the nodes of a row.
fn push_kinds_line<In: InNeighborhood, Out: OutNeighborhood>(
    text: &mut String,
    row: &Row<In, Out>,
    kinds: &[NodeKind; 7],
)
    requires
        row.wf(),
    ensures
        final(text)@ == old(text)@ + kinds_line(row@, kinds@, 7),
{
    let mut position: usize = 0;
    assert(text@ =~= old(text)@ + kinds_line(row@, kinds@, 0));
    while position < 7
        invariant
            position <= 7,
            row.wf(),
            text@ == old(text)@ + kinds_line(row@, kinds@, position as int),
        decreases 7 - position,
    {
        assert(row.values[position as int].1.wf());
        if row.out_neighborhood(position).is_empty() {
            push_cell(text, ' ');
        } else {
            push_cell(text, kinds[position].char());
        }
        position = position + 1;
        assert(text@ =~= old(text)@ + kinds_line(row@, kinds@, position as int));
    }
}

/// The text of the rows with the kinds.
fn rendered<In: InNeighborhood, Out: OutNeighborhood>(
    rows: &[Row<In, Out>; 15],
    kinds: &[[NodeKind; 7]; 15],
) -> (text: String)
    requires
        forall|r: int| 0 <= r < 15 ==> (#[trigger] rows[r]).wf(),
    ensures
        text@ == map_rendering(
            Plan {
                grid: Seq::new(15, |r: int| rows[r]@),
                kinds: Seq::new(15, |r: int| kinds[r]@),
            },
        ),
{
    let ghost plan = Plan {
        grid: Seq::new(15, |r: int| rows[r]@),
        kinds: Seq::new(15, |r: int| kinds[r]@),
    };
    let mut text = String::new();
    push_char(&mut text, '\n');
    push_label(&mut text, 14);
    assert(rows[14].wf());
    push_rest_line(&mut text, &rows[14]);
    let ghost head = text@;
    assert(head =~= seq!['\n'] + label(14) + rest_line(plan.grid[14], 7));
    let mut upto: usize = 14;
    assert(head + lower_rows(plan, 14) =~= map_rendering(plan));
    while upto > 0
        invariant
            upto <= 14,
            forall|r: int| 0 <= r < 15 ==> (#[trigger] rows[r]).wf(),
            plan == (Plan {
                grid: Seq::new(15, |r: int| rows[r]@),
                kinds: Seq::new(15, |r: int| kinds[r]@),
            }),
            text@ + lower_rows(plan, upto as int) == map_rendering(plan),
        decreases upto,
    {
        let row = upto - 1;
        let ghost before = text@;
        assert(rows[row as int].wf());
        push_char(&mut text, '\n');
        push_margin(&mut text);
        push_edges_line(&mut text, &rows[row]);
        push_char(&mut text, '\n');
        push_label(&mut text, row);
        push_kinds_line(&mut text, &rows[row], &kinds[row]);
        assert(text@ + lower_rows(plan, row as int) =~= before + lower_rows(plan, upto as int));
        upto = row;
    }
    assert(text@ + Seq::<char>::empty() =~= text@);
    text
}

impl<const PATHS: usize, In: InNeighborhood, Out: OutNeighborhood> DungeonMap<PATHS, In, Out> {
    /// The map as text.
    pub fn to_string(&self) -> (text: String)
        requires
            self.skeleton.wf(),
        ensures
            text@ == map_rendering(self@),
    {
        let text = rendered(&self.skeleton.rows, &self.kinds);
        proof {
            assert(self@.grid =~= Seq::new(15, |r: int| self.skeleton.rows[r]@));
            assert(self@.kinds =~= Seq::new(15, |r: int| self.kinds[r]@));
        }
        text
    }
}

impl<const PATHS: usize, In: InNeighborhood, Out: OutNeighborhood> Skeleton<PATHS, In, Out> {
    /// The path graph as text: every node from which an edge leaves is
    /// shown as one without a kind.
    pub fn to_string(&self) -> (text: String)
        requires
            self.wf(),
        ensures
            text@ == skeleton_rendering(self@),
    {
        let unassigned = [
            NodeKind::Unassigned,
            NodeKind::Unassigned,
            NodeKind::Unassigned,
            NodeKind::Unassigned,
            NodeKind::Unassigned,
            NodeKind::Unassigned,
            NodeKind::Unassigned,
        ];
        let kinds = [
            unassigned,
            unassigned,
            unassigned,
            unassigned,
            unassigned,
            unassigned,
            unassigned,
            unassigned,
            unassigned,
            unassigned,
            unassigned,
            unassigned,
            unassigned,
            unassigned,
            unassigned,
        ];
        let text = rendered(&self.rows, &kinds);
        proof {
            assert(self@ =~= Seq::new(15, |r: int| self.rows[r]@));
            let shown = Seq::new(15, |r: int| kinds[r]@);
            assert(shown =~= no_kinds()) by {
                assert forall|r: int| 0 <= r < 15 implies #[trigger] shown[r] =~= no_kinds()[r] by {
                    assert(kinds[r] == unassigned);
                }
            }
        }
        text
    }
}

} // verus!
