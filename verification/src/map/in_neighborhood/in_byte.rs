//! The packed representation: the index of the neighborhood in the table
//! of the in-neighborhoods of at most six edges.

use vstd::prelude::*;
use super::backend::{
    composition_rank, compositions, lemma_composition_rank, lemma_rank_of_listed,
    StrongCompositionOfLengthAtMostThree,
};
use super::in_array::{
    lemma_compositions_valid, lemma_shapes_len, lemma_well_listed_tally, paired, pairs_tally,
    shapes, shapes_before, well_listed_pairs, InArray,
};
use super::InNeighborhood;
use crate::map::out_neighborhood::out_array::{
    lemma_support, lemma_support_rank, support, support_rank, well_listed_members,
};
use crate::map::slots::as_slot;
use crate::map::tally::{compact, highest, lemma_total_with_one_more, lowest, total, with_one_more};

verus! {

/// An in-neighborhood as its index in the table of the in-neighborhoods of
/// at most six edges.
#[derive(Debug, Clone, Copy, PartialEq, Eq, Structural)]
pub struct InByte(pub u16);

impl Default for InByte {
    fn default() -> (r: Self)
        ensures
            r.0 == 0,
    {
        InByte(0)
    }
}

/// The tally of the neighborhood with index `code` in the table.
pub open spec fn code_tally(code: int) -> Seq<nat> {
    pairs_tally(shapes()[code])
}

/// The multiplicities of listed slots, as a composition.
pub open spec fn parts_of(l: Seq<(usize, usize)>) -> StrongCompositionOfLengthAtMostThree {
    if l.len() == 0 {
        StrongCompositionOfLengthAtMostThree::Empty
    } else if l.len() == 1 {
        StrongCompositionOfLengthAtMostThree::One(l[0].1)
    } else if l.len() == 2 {
        StrongCompositionOfLengthAtMostThree::Two(l[0].1, l[1].1)
    } else {
        StrongCompositionOfLengthAtMostThree::Three(l[0].1, l[1].1, l[2].1)
    }
}

/// The listed slots without their multiplicities.
pub open spec fn slots_of(l: Seq<(usize, usize)>) -> Seq<usize> {
    Seq::new(l.len(), |i: int| l[i].0)
}

/// `a` is the beginning of `b`.
pub open spec fn begins<T>(a: Seq<T>, b: Seq<T>) -> bool {
    a.len() <= b.len() && forall|k: int| 0 <= k < a.len() ==> #[trigger] a[k] == b[k]
}

/// The table grows at its end: what it holds after fewer compositions and
/// shapes is the beginning of what it holds after more.
pub proof fn lemma_shapes_grow(ci: int, ai: int, cj: int, aj: int)
    requires
        0 <= ci <= cj <= 41,
        0 <= ai <= 24,
        0 <= aj <= 24,
        ci < cj || ai <= aj,
    ensures
        begins(shapes_before(ci, ai), shapes_before(cj, aj)),
    decreases cj + 1, aj,
{
    reveal(shapes_before);
    if ci == cj && ai == aj {
    } else if aj > 0 {
        lemma_shapes_grow(ci, ai, cj, aj - 1);
    } else {
        lemma_shapes_grow(ci, ai, cj - 1, 24);
    }
}

/// The slots of a shape, each with its part of a composition of as many
/// parts, are well listed and make at most six edges.
pub proof fn lemma_paired_listed(
    composition: StrongCompositionOfLengthAtMostThree,
    slots: Seq<usize>,
)
    requires
        composition.valid(),
        well_listed_members(slots),
        composition.arity() == slots.len(),
    ensures
        well_listed_pairs(paired(composition, slots)),
        total(pairs_tally(paired(composition, slots))) <= 6,
{
    if slots.len() == 2 {
        assert(slots[0] < slots[1]);
    } else if slots.len() == 3 {
        assert(slots[0] < slots[1] && slots[1] < slots[2]);
    }
}

/// Every entry of the table is well listed and has at most six edges.
pub proof fn lemma_shapes_listed(ci: int, ai: int, k: int)
    requires
        -1 <= ci <= 41,
        0 <= ai <= 24,
        0 <= k < shapes_before(ci, ai).len(),
    ensures
        well_listed_pairs(shapes_before(ci, ai)[k]),
        total(pairs_tally(shapes_before(ci, ai)[k])) <= 6,
    decreases ci + 1, ai,
{
    reveal(shapes_before);
    if ci < 0 {
    } else if ai <= 0 {
        lemma_shapes_listed(ci - 1, 24, k);
    } else {
        let rest = shapes_before(ci, ai - 1);
        if k < rest.len() {
            lemma_shapes_listed(ci, ai - 1, k);
        } else {
            lemma_compositions_valid();
            lemma_support(ai - 1);
            lemma_paired_listed(compositions()[ci], support(ai - 1));
        }
    }
}

/// A well-listed neighborhood of at most six edges stands in the table;
/// the index at which it stands is returned.
pub proof fn lemma_shape_index(l: Seq<(usize, usize)>) -> (k: int)
    requires
        well_listed_pairs(l),
        total(pairs_tally(l)) <= 6,
    ensures
        0 <= k < shapes().len(),
        shapes()[k] == l,
{
    let c = parts_of(l);
    let s = slots_of(l);
    if l.len() == 2 {
        assert(l[0].0 < l[1].0);
    } else if l.len() == 3 {
        assert(l[0].0 < l[1].0 && l[1].0 < l[2].0);
    }
    assert(c.valid());
    assert(well_listed_members(s));
    lemma_composition_rank(c);
    lemma_support_rank(s);
    let ci = composition_rank(c);
    let ai = support_rank(s);
    assert(paired(c, s) =~= l);
    reveal(shapes_before);
    let k = shapes_before(ci, ai).len() as int;
    assert(shapes_before(ci, ai + 1) == shapes_before(ci, ai).push(l));
    lemma_shapes_grow(ci, ai + 1, 41, 24);
    assert(shapes_before(ci, ai + 1)[k] == l);
    k
}

/// Every neighborhood of consecutive slots with at most six edges stands
/// in the table too, with the same tally; the index at which it stands is
/// returned.
pub proof fn lemma_consecutive_shape_index(
    consecutive: super::consecutive::NeighborhoodArray,
) -> (k: int)
    requires
        consecutive.wf(),
        total(consecutive.tally()) <= 6,
    ensures
        0 <= k < shapes().len(),
        shapes()[k] == consecutive.listed(),
        code_tally(k) == consecutive.tally(),
{
    lemma_shape_index(consecutive.listed())
}

/// The index at which the table holds a well-listed neighborhood: the
/// length to which the table has grown when the composition of its
/// multiplicities comes to the shape of its slots.
pub open spec fn shape_place(l: Seq<(usize, usize)>) -> int {
    shapes_before(composition_rank(parts_of(l)), support_rank(slots_of(l))).len() as int
}

/// However far the table is made, every entry stands at its place.
pub proof fn lemma_shapes_placed(ci: int, ai: int, k: int)
    requires
        -1 <= ci <= 41,
        0 <= ai <= 24,
        0 <= k < shapes_before(ci, ai).len(),
    ensures
        shape_place(shapes_before(ci, ai)[k]) == k,
    decreases ci + 1, ai,
{
    reveal(shapes_before);
    if ci < 0 {
    } else if ai <= 0 {
        lemma_shapes_placed(ci - 1, 24, k);
    } else {
        let rest = shapes_before(ci, ai - 1);
        if k < rest.len() {
            lemma_shapes_placed(ci, ai - 1, k);
        } else {
            lemma_compositions_valid();
            lemma_rank_of_listed(ci);
            lemma_support(ai - 1);
            let l = shapes_before(ci, ai)[k];
            assert(l == paired(compositions()[ci], support(ai - 1)));
            assert(parts_of(l) == compositions()[ci]);
            assert(slots_of(l) =~= support(ai - 1));
        }
    }
}

/// Two well-listed neighborhoods with the same tally are the same list.
pub proof fn lemma_listed_by_tally(a: Seq<(usize, usize)>, b: Seq<(usize, usize)>)
    requires
        well_listed_pairs(a),
        well_listed_pairs(b),
        pairs_tally(a) == pairs_tally(b),
    ensures
        a == b,
{
    if a.len() >= 2 {
        assert(a[0].0 < a[1].0);
    }
    if a.len() == 3 {
        assert(a[1].0 < a[2].0);
    }
    if b.len() >= 2 {
        assert(b[0].0 < b[1].0);
    }
    if b.len() == 3 {
        assert(b[1].0 < b[2].0);
    }
    let t = pairs_tally(a);
    assert(forall|i: int| 0 <= i < a.len() ==> t[(#[trigger] a[i]).0 as int] == a[i].1);
    assert(forall|i: int| 0 <= i < b.len() ==> t[(#[trigger] b[i]).0 as int] == b[i].1);
    assert(forall|s: int|
        0 <= s < 7 && #[trigger] t[s] > 0 ==> exists|i: int| 0 <= i < a.len() && a[i].0 == s);
    assert(forall|s: int|
        0 <= s < 7 && #[trigger] t[s] > 0 ==> exists|i: int| 0 <= i < b.len() && b[i].0 == s);
    assert(a =~= b);
}

/// No neighborhood stands twice in the table: two indices of the table
/// with the same tally are the same index.
pub proof fn lemma_codes_distinct(i: int, j: int)
    requires
        0 <= i < shapes().len(),
        0 <= j < shapes().len(),
        code_tally(i) == code_tally(j),
    ensures
        i == j,
{
    lemma_shapes_listed(41, 24, i);
    lemma_shapes_listed(41, 24, j);
    lemma_listed_by_tally(shapes()[i], shapes()[j]);
    lemma_shapes_placed(41, 24, i);
    lemma_shapes_placed(41, 24, j);
}

/// The first neighborhood of the table is the empty one.
pub proof fn lemma_first_shape()
    ensures
        shapes().len() > 0,
        shapes()[0] == Seq::<(usize, usize)>::empty(),
{
    lemma_shapes_grow(0, 1, 41, 24);
    reveal_with_fuel(shapes_before, 3);
    assert(shapes_before(-1, 24).len() == 0);
    assert(shapes_before(0, 0).len() == 0);
    assert(shapes_before(0, 1) == shapes_before(0, 0).push(paired(compositions()[0], support(0))));
    assert(shapes_before(0, 1)[0] =~= Seq::<(usize, usize)>::empty());
}

impl InByte {
    /// The neighborhood for which the index stands.
    pub fn array(&self) -> (array: InArray)
        requires
            self.wf(),
        ensures
            array.wf(),
            array.listed() == shapes()[self.0 as int],
            total(array.tally()) <= 6,
    {
        let all = InArray::at_most_six();
        all[self.0 as usize]
    }

    /// The index of a neighborhood in the table; 0 for one of more than six
    /// edges, which is not in the table.
    pub fn from_array(array: &InArray) -> (r: Self)
        requires
            array.wf(),
        ensures
            r.wf(),
            total(array.tally()) <= 6 ==> shapes()[r.0 as int] == array.listed(),
            total(array.tally()) > 6 ==> r.0 == 0,
    {
        let all = InArray::at_most_six();
        proof {
            lemma_shapes_len();
        }
        let mut i: usize = 0;
        while i < all.len()
            invariant
                i <= all@.len(),
                all@.len() == 308,
                all@.len() == shapes().len(),
                forall|k: int| 0 <= k < all@.len() ==> (#[trigger] all@[k]).listed() == shapes()[k],
                forall|k: int|
                    0 <= k < all@.len() ==> (#[trigger] all@[k]).wf() && total(all@[k].tally())
                        <= 6,
                forall|k: int| 0 <= k < i ==> shapes()[k] != array.listed(),
            decreases all@.len() - i,
        {
            if all[i].const_eq(array) {
                assert(all@[i as int].tally() == array.tally());
                return InByte(i as u16);
            }
            i = i + 1;
        }
        proof {
            if total(array.tally()) <= 6 {
                let k = lemma_shape_index(array.listed());
                assert(false);
            }
        }
        InByte(0)
    }

    /// For every neighborhood of the table, its smallest slot.
    pub fn min_table() -> (table: Vec<Option<usize>>)
        ensures
            table@.len() == 308,
            forall|i: int| 0 <= i < 308 ==> #[trigger] table@[i] == as_slot(lowest(code_tally(i))),
    {
        let all = InArray::at_most_six();
        proof {
            lemma_shapes_len();
        }
        let mut table: Vec<Option<usize>> = Vec::new();
        let mut i: usize = 0;
        while i < all.len()
            invariant
                i <= all@.len(),
                all@.len() == 308,
                table@.len() == i,
                forall|k: int| 0 <= k < all@.len() ==> (#[trigger] all@[k]).listed() == shapes()[k],
                forall|k: int| 0 <= k < all@.len() ==> (#[trigger] all@[k]).wf(),
                forall|k: int| 0 <= k < i ==> #[trigger] table@[k] == as_slot(
                    lowest(code_tally(k)),
                ),
            decreases all@.len() - i,
        {
            assert(all@[i as int].wf());
            table.push(InNeighborhood::min(&all[i]));
            i = i + 1;
        }
        table
    }

    /// For every neighborhood of the table, its largest slot.
    pub fn max_table() -> (table: Vec<Option<usize>>)
        ensures
            table@.len() == 308,
            forall|i: int| 0 <= i < 308 ==> #[trigger] table@[i] == as_slot(highest(code_tally(i))),
    {
        let all = InArray::at_most_six();
        proof {
            lemma_shapes_len();
        }
        let mut table: Vec<Option<usize>> = Vec::new();
        let mut i: usize = 0;
        while i < all.len()
            invariant
                i <= all@.len(),
                all@.len() == 308,
                table@.len() == i,
                forall|k: int| 0 <= k < all@.len() ==> (#[trigger] all@[k]).listed() == shapes()[k],
                forall|k: int| 0 <= k < all@.len() ==> (#[trigger] all@[k]).wf(),
                forall|k: int| 0 <= k < i ==> #[trigger] table@[k] == as_slot(
                    highest(code_tally(k)),
                ),
            decreases all@.len() - i,
        {
            assert(all@[i as int].wf());
            table.push(InNeighborhood::max(&all[i]));
            i = i + 1;
        }
        table
    }

    /// The neighborhood with one more occurrence of `value`; the empty
    /// neighborhood where the slots would no longer lie within three
    /// consecutive ones, or more than six edges would meet.
    pub fn plus(&self, value: usize) -> (r: Self)
        requires
            self.wf(),
            value < 7,
        ensures
            r.wf(),
            if compact(with_one_more(self.tally(), value as int)) && total(self.tally()) < 6 {
                r.tally() == with_one_more(self.tally(), value as int)
            } else {
                r.0 == 0
            },
    {
        let array = self.array();
        proof {
            lemma_first_shape();
            lemma_well_listed_tally(array.listed());
            lemma_total_with_one_more(array.tally(), value as int);
        }
        match array.plus(value) {
            Some(sum) => {
                let r = Self::from_array(&sum);
                assert(total(sum.tally()) == total(self.tally()) + 1);
                r
            },
            None => InByte(0),
        }
    }

    /// For every neighborhood of the table and every slot, the
    /// neighborhood with one more occurrence of the slot; the empty
    /// neighborhood where there is none in the table.
    pub fn sum_table() -> (table: Vec<[InByte; 7]>)
        ensures
            table@.len() == 308,
            forall|i: int, v: int|
                0 <= i < 308 && 0 <= v < 7 ==> (#[trigger] table@[i][v]).0 < 308 && (if compact(
                    with_one_more(code_tally(i), v),
                ) && total(code_tally(i)) < 6 {
                    code_tally(table@[i][v].0 as int) == with_one_more(code_tally(i), v)
                } else {
                    table@[i][v].0 == 0
                }),
    {
        proof {
            lemma_shapes_len();
        }
        let mut table: Vec<[InByte; 7]> = Vec::new();
        let mut i: usize = 0;
        while i < 308
            invariant
                i <= 308,
                shapes().len() == 308,
                table@.len() == i,
                forall|a: int, v: int|
                    0 <= a < i && 0 <= v < 7 ==> (#[trigger] table@[a][v]).0 < 308 && (if compact(
                        with_one_more(code_tally(a), v),
                    ) && total(code_tally(a)) < 6 {
                        code_tally(table@[a][v].0 as int) == with_one_more(code_tally(a), v)
                    } else {
                        table@[a][v].0 == 0
                    }),
            decreases 308 - i,
        {
            let code = InByte(i as u16);
            let mut row: [InByte; 7] = [InByte(0); 7];
            let mut j: usize = 0;
            while j < 7
                invariant
                    j <= 7,
                    i < 308,
                    shapes().len() == 308,
                    code.0 == i,
                    forall|v: int|
                        0 <= v < j ==> (#[trigger] row[v]).0 < 308 && (if compact(
                            with_one_more(code_tally(i as int), v),
                        ) && total(code_tally(i as int)) < 6 {
                            code_tally(row[v].0 as int) == with_one_more(code_tally(i as int), v)
                        } else {
                            row[v].0 == 0
                        }),
                decreases 7 - j,
            {
                row[j] = code.plus(j);
                j = j + 1;
            }
            table.push(row);
            i = i + 1;
        }
        table
    }
}

impl InNeighborhood for InByte {
    open spec fn tally(&self) -> Seq<nat> {
        code_tally(self.0 as int)
    }

    open spec fn wf(&self) -> bool {
        self.0 < shapes().len()
    }

    open spec fn has_room(&self) -> bool {
        total(self.tally()) < 6
    }

    proof fn lemma_wf(&self) {
        lemma_shapes_listed(41, 24, self.0 as int);
        lemma_well_listed_tally(shapes()[self.0 as int]);
    }

    proof fn lemma_room(&self) {
    }

    fn empty() -> (r: Self) {
        proof {
            lemma_shapes_len();
            lemma_first_shape();
        }
        InByte(0)
    }

    fn min(&self) -> (r: Option<usize>) {
        let array = self.array();
        InNeighborhood::min(&array)
    }

    fn max(&self) -> (r: Option<usize>) {
        let array = self.array();
        InNeighborhood::max(&array)
    }

    fn push(&mut self, value: usize) {
        *self = self.plus(value);
    }

    fn pairs(&self) -> (r: Vec<(usize, usize)>) {
        let array = self.array();
        array.pairs()
    }

    fn is_empty(&self) -> (r: bool) {
        let array = self.array();
        array.is_empty()
    }

    fn to_string(&self) -> (r: String) {
        let array = self.array();
        array.to_string()
    }
}

} // verus!
