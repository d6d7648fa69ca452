//! The packed representation: the index of the neighborhood's shape among
//! the twenty-four shapes, with tables for every operation.

use vstd::prelude::*;
use super::out_array::{
    arrays, lemma_support, lemma_support_rank, listed_tally, support, support_rank, OutArray,
};
use super::OutNeighborhood;
use crate::map::slots::{as_slot, push_digits};
use crate::map::tally::{
    compact, highest, lowered, lowest, raised, strictly_inside, with_member, without,
};

verus! {

/// An out-neighborhood as the index of its shape.
#[derive(Debug, Clone, Copy, PartialEq, Eq, Structural)]
pub struct OutByte(pub u8);

impl Default for OutByte {
    fn default() -> (r: Self)
        ensures
            r.0 == 0,
    {
        OutByte(0)
    }
}

/// The tally of the shape with index `code`.
pub open spec fn shape_tally(code: int) -> Seq<nat> {
    listed_tally(support(code))
}

impl OutByte {
    /// The shape for which the index stands.
    pub fn array(&self) -> (array: OutArray)
        requires
            self.wf(),
        ensures
            array.wf(),
            array.listed() == support(self.0 as int),
    {
        let all = arrays();
        all[self.0 as usize]
    }

    /// The index of a shape.
    pub fn position(array: &OutArray) -> (index: usize)
        requires
            array.wf(),
        ensures
            index < 24,
            support(index as int) == array.listed(),
    {
        let all = arrays();
        let mut i: usize = 0;
        while i < 24
            invariant
                i <= 24,
                forall|a: int| 0 <= a < 24 ==> (#[trigger] all[a]).listed() == support(a),
                forall|a: int| 0 <= a < i ==> support(a) != array.listed(),
            decreases 24 - i,
        {
            if all[i].const_eq(array) {
                return i;
            }
            i = i + 1;
        }
        proof {
            lemma_support_rank(array.listed());
            assert(support(support_rank(array.listed())) == array.listed());
            assert(false);
        }
        0
    }

    /// For every shape and every position, the position raised to the
    /// shape's largest member.
    pub fn left_update_table() -> (table: [[usize; 7]; 24])
        ensures
            forall|i: int, v: int|
                0 <= i < 24 && 0 <= v < 7 ==> #[trigger] table[i][v] == raised(shape_tally(i), v),
    {
        let max_table = Self::max_table();
        let mut table: [[usize; 7]; 24] = [[0; 7]; 24];
        let mut i: usize = 0;
        while i < 24
            invariant
                i <= 24,
                forall|a: int| 0 <= a < 24 ==> #[trigger] max_table[a] == as_slot(
                    highest(shape_tally(a)),
                ),
                forall|a: int, v: int|
                    0 <= a < i && 0 <= v < 7 ==> #[trigger] table[a][v] == raised(
                        shape_tally(a),
                        v,
                    ),
            decreases 24 - i,
        {
            let mut row: [usize; 7] = [0; 7];
            let mut value: usize = 0;
            while value < 7
                invariant
                    value <= 7,
                    i < 24,
                    max_table[i as int] == as_slot(highest(shape_tally(i as int))),
                    forall|v: int| 0 <= v < value ==> #[trigger] row[v] == raised(
                        shape_tally(i as int),
                        v,
                    ),
                decreases 7 - value,
            {
                row[value] = match max_table[i] {
                    Some(max) => if max < value {
                        value
                    } else {
                        max
                    },
                    None => value,
                };
                value = value + 1;
            }
            table[i] = row;
            i = i + 1;
        }
        table
    }

    /// For every shape and every position, the position lowered to the
    /// shape's smallest member.
    pub fn right_update_table() -> (table: [[usize; 7]; 24])
        ensures
            forall|i: int, v: int|
                0 <= i < 24 && 0 <= v < 7 ==> #[trigger] table[i][v] == lowered(shape_tally(i), v),
    {
        let min_table = Self::min_table();
        let mut table: [[usize; 7]; 24] = [[0; 7]; 24];
        let mut i: usize = 0;
        while i < 24
            invariant
                i <= 24,
                forall|a: int| 0 <= a < 24 ==> #[trigger] min_table[a] == as_slot(
                    lowest(shape_tally(a)),
                ),
                forall|a: int, v: int|
                    0 <= a < i && 0 <= v < 7 ==> #[trigger] table[a][v] == lowered(
                        shape_tally(a),
                        v,
                    ),
            decreases 24 - i,
        {
            let mut row: [usize; 7] = [0; 7];
            let mut value: usize = 0;
            while value < 7
                invariant
                    value <= 7,
                    i < 24,
                    min_table[i as int] == as_slot(lowest(shape_tally(i as int))),
                    forall|v: int| 0 <= v < value ==> #[trigger] row[v] == lowered(
                        shape_tally(i as int),
                        v,
                    ),
                decreases 7 - value,
            {
                row[value] = match min_table[i] {
                    Some(min) => if value < min {
                        value
                    } else {
                        min
                    },
                    None => value,
                };
                value = value + 1;
            }
            table[i] = row;
            i = i + 1;
        }
        table
    }

    /// For every shape, its largest member.
    pub fn max_table() -> (table: [Option<usize>; 24])
        ensures
            forall|i: int| 0 <= i < 24 ==> #[trigger] table[i] == as_slot(highest(shape_tally(i))),
    {
        let all = arrays();
        let mut table: [Option<usize>; 24] = [None; 24];
        let mut i: usize = 0;
        while i < 24
            invariant
                i <= 24,
                forall|a: int| 0 <= a < 24 ==> (#[trigger] all[a]).wf(),
                forall|a: int| 0 <= a < 24 ==> (#[trigger] all[a]).listed() == support(a),
                forall|a: int| 0 <= a < i ==> #[trigger] table[a] == as_slot(
                    highest(shape_tally(a)),
                ),
            decreases 24 - i,
        {
            assert(all[i as int].wf());
            table[i] = match all[i].max() {
                Some(max) => Some(*max),
                None => None,
            };
            i = i + 1;
        }
        table
    }

    /// For every shape, its smallest member.
    pub fn min_table() -> (table: [Option<usize>; 24])
        ensures
            forall|i: int| 0 <= i < 24 ==> #[trigger] table[i] == as_slot(lowest(shape_tally(i))),
    {
        let all = arrays();
        let mut table: [Option<usize>; 24] = [None; 24];
        let mut i: usize = 0;
        while i < 24
            invariant
                i <= 24,
                forall|a: int| 0 <= a < 24 ==> (#[trigger] all[a]).wf(),
                forall|a: int| 0 <= a < 24 ==> (#[trigger] all[a]).listed() == support(a),
                forall|a: int| 0 <= a < i ==> #[trigger] table[a] == as_slot(
                    lowest(shape_tally(a)),
                ),
            decreases 24 - i,
        {
            assert(all[i as int].wf());
            table[i] = match all[i].min() {
                Some(min) => Some(*min),
                None => None,
            };
            i = i + 1;
        }
        table
    }

    /// For every shape and every slot, the shape with the slot added; the
    /// empty shape where the members would no longer lie within three
    /// consecutive slots.
    pub fn push_table() -> (table: [[OutByte; 7]; 24])
        ensures
            forall|i: int, v: int|
                0 <= i < 24 && 0 <= v < 7 ==> (#[trigger] table[i][v]).0 < 24 && (if compact(
                    with_member(shape_tally(i), v),
                ) {
                    shape_tally(table[i][v].0 as int) == with_member(shape_tally(i), v)
                } else {
                    table[i][v].0 == 0
                }),
    {
        let all = arrays();
        let mut table: [[OutByte; 7]; 24] = [[OutByte(0); 7]; 24];
        let mut i: usize = 0;
        while i < 24
            invariant
                i <= 24,
                forall|a: int| 0 <= a < 24 ==> (#[trigger] all[a]).wf(),
                forall|a: int| 0 <= a < 24 ==> (#[trigger] all[a]).listed() == support(a),
                forall|a: int, v: int|
                    0 <= a < i && 0 <= v < 7 ==> (#[trigger] table[a][v]).0 < 24 && (if compact(
                        with_member(shape_tally(a), v),
                    ) {
                        shape_tally(table[a][v].0 as int) == with_member(shape_tally(a), v)
                    } else {
                        table[a][v].0 == 0
                    }),
            decreases 24 - i,
        {
            let array = all[i];
            assert(array.wf());
            let mut row: [OutByte; 7] = [OutByte(0); 7];
            let mut j: usize = 0;
            while j < 7
                invariant
                    j <= 7,
                    i < 24,
                    array.wf(),
                    array.listed() == support(i as int),
                    forall|v: int|
                        0 <= v < j ==> (#[trigger] row[v]).0 < 24 && (if compact(
                            with_member(shape_tally(i as int), v),
                        ) {
                            shape_tally(row[v].0 as int) == with_member(shape_tally(i as int), v)
                        } else {
                            row[v].0 == 0
                        }),
                decreases 7 - j,
            {
                row[j] = match array.plus(j) {
                    Some(sum) => OutByte(Self::position(&sum) as u8),
                    None => OutByte(0),
                };
                j = j + 1;
            }
            table[i] = row;
            i = i + 1;
        }
        table
    }

    /// For every shape and every slot, the shape with the slot taken out;
    /// the empty shape where the slot is no member or lies strictly between
    /// two others.
    pub fn remove_table() -> (table: [[OutByte; 7]; 24])
        ensures
            forall|i: int, v: int|
                0 <= i < 24 && 0 <= v < 7 ==> (#[trigger] table[i][v]).0 < 24 && (if shape_tally(
                    i,
                )[v] > 0 && !strictly_inside(shape_tally(i), v) {
                    shape_tally(table[i][v].0 as int) == without(shape_tally(i), v)
                } else {
                    table[i][v].0 == 0
                }),
    {
        let all = arrays();
        let mut table: [[OutByte; 7]; 24] = [[OutByte(0); 7]; 24];
        let mut i: usize = 0;
        while i < 24
            invariant
                i <= 24,
                forall|a: int| 0 <= a < 24 ==> (#[trigger] all[a]).wf(),
                forall|a: int| 0 <= a < 24 ==> (#[trigger] all[a]).listed() == support(a),
                forall|a: int, v: int|
                    0 <= a < i && 0 <= v < 7 ==> (#[trigger] table[a][v]).0 < 24 && (
                    if shape_tally(a)[v] > 0 && !strictly_inside(shape_tally(a), v) {
                        shape_tally(table[a][v].0 as int) == without(shape_tally(a), v)
                    } else {
                        table[a][v].0 == 0
                    }),
            decreases 24 - i,
        {
            let array = all[i];
            assert(array.wf());
            let mut row: [OutByte; 7] = [OutByte(0); 7];
            let mut j: usize = 0;
            while j < 7
                invariant
                    j <= 7,
                    i < 24,
                    array.wf(),
                    array.listed() == support(i as int),
                    forall|v: int|
                        0 <= v < j ==> (#[trigger] row[v]).0 < 24 && (if shape_tally(i as int)[v]
                            > 0 && !strictly_inside(shape_tally(i as int), v) {
                            shape_tally(row[v].0 as int) == without(shape_tally(i as int), v)
                        } else {
                            row[v].0 == 0
                        }),
                decreases 7 - j,
            {
                row[j] = match array.minus(j) {
                    Some(rest) => OutByte(Self::position(&rest) as u8),
                    None => OutByte(0),
                };
                j = j + 1;
            }
            table[i] = row;
            i = i + 1;
        }
        table
    }
}

impl OutNeighborhood for OutByte {
    open spec fn tally(&self) -> Seq<nat> {
        shape_tally(self.0 as int)
    }

    open spec fn wf(&self) -> bool {
        self.0 < 24
    }

    proof fn lemma_wf(&self) {
        lemma_support(self.0 as int);
    }

    fn empty() -> (r: Self) {
        OutByte(0)
    }

    fn update_position_from_left(&self, value: &mut usize) {
        let table = Self::left_update_table();
        *value = table[self.0 as usize][*value];
    }

    fn update_position_from_right(&self, value: &mut usize) {
        let table = Self::right_update_table();
        *value = table[self.0 as usize][*value];
    }

    fn push(&mut self, value: usize) {
        let table = Self::push_table();
        *self = table[self.0 as usize][value];
    }

    fn remove(&mut self, value: usize) {
        let table = Self::remove_table();
        *self = table[self.0 as usize][value];
    }

    fn members(&self) -> (r: Vec<usize>) {
        let array = self.array();
        array.members()
    }

    fn is_empty(&self) -> (r: bool) {
        proof {
            lemma_support(self.0 as int);
        }
        self.0 == 0
    }

    fn to_string(&self) -> (r: String) {
        let array = self.array();
        let counts = array.counts();
        let mut text = String::new();
        push_digits(&mut text, &counts);
        text
    }
}

} // verus!
