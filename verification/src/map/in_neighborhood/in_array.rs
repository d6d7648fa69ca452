//! The fixed-shape representation: no slot, or one, two or three slots in
//! ascending order, each with its multiplicity.

use vstd::prelude::*;
use super::backend::{compositions, StrongCompositionOfLengthAtMostThree};
use super::InNeighborhood;
use crate::map::out_neighborhood::out_array::{arrays, support, OutArray};
use crate::map::out_neighborhood::OutNeighborhood;
use crate::map::slots::{none_occupied, pairs_in, push_digits, tally_in};
use crate::map::tally::{compact, in_rendering, no_neighbors, total, with_one_more};
use crate::text::push_char;

verus! {

/// An in-neighborhood as the list of its occupied slots in ascending
/// order, each with its multiplicity; there are at most three.
#[derive(Debug, Clone, Copy)]
pub enum InArray {
    Zero([(usize, usize); 0]),
    One([(usize, usize); 1]),
    Two([(usize, usize); 2]),
    Three([(usize, usize); 3]),
}

/// The tally of at most three listed slots with their multiplicities.
pub open spec fn pairs_tally(pairs: Seq<(usize, usize)>) -> Seq<nat> {
    if pairs.len() == 0 {
        no_neighbors()
    } else if pairs.len() == 1 {
        no_neighbors().update(pairs[0].0 as int, pairs[0].1 as nat)
    } else if pairs.len() == 2 {
        no_neighbors().update(pairs[0].0 as int, pairs[0].1 as nat).update(
            pairs[1].0 as int,
            pairs[1].1 as nat,
        )
    } else {
        no_neighbors().update(pairs[0].0 as int, pairs[0].1 as nat).update(
            pairs[1].0 as int,
            pairs[1].1 as nat,
        ).update(pairs[2].0 as int, pairs[2].1 as nat)
    }
}

/// The slots are slots of the row, listed in ascending order within three
/// consecutive ones, and each occurs at least once.
pub open spec fn well_listed_pairs(l: Seq<(usize, usize)>) -> bool {
    &&& l.len() <= 3
    &&& forall|i: int| 0 <= i < l.len() ==> (#[trigger] l[i]).0 < 7 && l[i].1 >= 1
    &&& forall|i: int, j: int| 0 <= i < j < l.len() ==> (#[trigger] l[i]).0 < (#[trigger] l[j]).0
    &&& l.len() > 0 ==> l.last().0 - l[0].0 <= 2
    &&& total(pairs_tally(l)) <= usize::MAX
}

/// Number of in-neighborhoods of at most six edges.
pub const NEIGHBORHOODS: usize = 308;

/// The slots of `slots`, each with its part of `composition` as its
/// multiplicity.
pub open spec fn paired(
    composition: StrongCompositionOfLengthAtMostThree,
    slots: Seq<usize>,
) -> Seq<(usize, usize)> {
    match composition {
        StrongCompositionOfLengthAtMostThree::Empty => seq![],
        StrongCompositionOfLengthAtMostThree::One(x) => seq![(slots[0], x)],
        StrongCompositionOfLengthAtMostThree::Two(x, y) => seq![(slots[0], x), (slots[1], y)],
        StrongCompositionOfLengthAtMostThree::Three(x, y, z) => seq![
            (slots[0], x),
            (slots[1], y),
            (slots[2], z),
        ],
    }
}

/// A well-listed neighborhood has a tally of seven multiplicities whose
/// occupied slots lie within three consecutive ones.
pub proof fn lemma_well_listed_tally(l: Seq<(usize, usize)>)
    requires
        well_listed_pairs(l),
    ensures
        crate::map::tally::is_tally(pairs_tally(l)),
        compact(pairs_tally(l)),
{
    if l.len() == 2 {
        assert(l[0].0 < l[1].0);
    } else if l.len() == 3 {
        assert(l[0].0 < l[1].0 && l[1].0 < l[2].0);
    }
}

/// The table of the in-neighborhoods of at most six edges, as far as it is
/// made of the compositions before index `composition` and, for the
/// composition with that index, of the shapes before index `shape`: every
/// composition is paired with every shape of as many slots as it has
/// parts.
#[verifier::opaque]
pub open spec fn shapes_before(composition: int, shape: int) -> Seq<Seq<(usize, usize)>>
    decreases composition + 1, shape,
{
    if composition < 0 || composition >= 42 {
        Seq::empty()
    } else if shape <= 0 {
        shapes_before(composition - 1, 24)
    } else {
        let rest = shapes_before(composition, shape - 1);
        if compositions()[composition].arity() == support(shape - 1).len() {
            rest.push(paired(compositions()[composition], support(shape - 1)))
        } else {
            rest
        }
    }
}

/// The table of the in-neighborhoods of at most six edges.
pub open spec fn shapes() -> Seq<Seq<(usize, usize)>> {
    shapes_before(41, 24)
}

/// Every composition in the list has parts of at least 1 and a sum of at
/// most 6.
pub proof fn lemma_compositions_valid()
    ensures
        compositions().len() == 42,
        forall|i: int| 0 <= i < 42 ==> (#[trigger] compositions()[i]).valid(),
{
}

/// Number of shapes below index `shape` that have `arity` members.
pub open spec fn shapes_of_arity(arity: int, shape: int) -> int {
    if arity == 0 {
        if shape >= 1 {
            1
        } else {
            0
        }
    } else if arity == 1 {
        if shape <= 1 {
            0
        } else if shape >= 8 {
            7
        } else {
            shape - 1
        }
    } else if arity == 2 {
        if shape <= 8 {
            0
        } else if shape >= 19 {
            11
        } else {
            shape - 8
        }
    } else {
        if shape <= 19 {
            0
        } else {
            shape - 19
        }
    }
}

/// How far the composition with index `ci` has made the table grow after
/// the shapes below index `ai`.
pub proof fn lemma_shapes_step(ci: int, ai: int)
    requires
        0 <= ci <= 41,
        0 <= ai <= 24,
    ensures
        shapes_before(ci, ai).len() == shapes_before(ci - 1, 24).len() + shapes_of_arity(
            compositions()[ci].arity(),
            ai,
        ),
    decreases ai,
{
    reveal(shapes_before);
    if ai > 0 {
        lemma_shapes_step(ci, ai - 1);
    }
}

/// How far the composition with index `ci` makes the table grow.
pub proof fn lemma_shapes_row(ci: int)
    requires
        0 <= ci <= 41,
    ensures
        shapes_before(ci, 24).len() == shapes_before(ci - 1, 24).len() + shapes_of_arity(
            compositions()[ci].arity(),
            24,
        ),
{
    lemma_shapes_step(ci, 24);
}

/// The table holds 308 neighborhoods.
pub proof fn lemma_shapes_len()
    ensures
        shapes().len() == 308,
{
    assert(shapes_before(-1, 24).len() == 0) by {
        reveal(shapes_before);
    }
    lemma_shapes_row(0);
    assert(shapes_before(0, 24).len() == 1);
    lemma_shapes_row(1);
    assert(shapes_before(1, 24).len() == 8);
    lemma_shapes_row(2);
    assert(shapes_before(2, 24).len() == 19);
    lemma_shapes_row(3);
    assert(shapes_before(3, 24).len() == 26);
    lemma_shapes_row(4);
    assert(shapes_before(4, 24).len() == 31);
    lemma_shapes_row(5);
    assert(shapes_before(5, 24).len() == 42);
    lemma_shapes_row(6);
    assert(shapes_before(6, 24).len() == 53);
    lemma_shapes_row(7);
    assert(shapes_before(7, 24).len() == 60);
    lemma_shapes_row(8);
    assert(shapes_before(8, 24).len() == 65);
    lemma_shapes_row(9);
    assert(shapes_before(9, 24).len() == 70);
    lemma_shapes_row(10);
    assert(shapes_before(10, 24).len() == 75);
    lemma_shapes_row(11);
    assert(shapes_before(11, 24).len() == 86);
    lemma_shapes_row(12);
    assert(shapes_before(12, 24).len() == 97);
    lemma_shapes_row(13);
    assert(shapes_before(13, 24).len() == 108);
    lemma_shapes_row(14);
    assert(shapes_before(14, 24).len() == 115);
    lemma_shapes_row(15);
    assert(shapes_before(15, 24).len() == 120);
    lemma_shapes_row(16);
    assert(shapes_before(16, 24).len() == 125);
    lemma_shapes_row(17);
    assert(shapes_before(17, 24).len() == 130);
    lemma_shapes_row(18);
    assert(shapes_before(18, 24).len() == 135);
    lemma_shapes_row(19);
    assert(shapes_before(19, 24).len() == 140);
    lemma_shapes_row(20);
    assert(shapes_before(20, 24).len() == 145);
    lemma_shapes_row(21);
    assert(shapes_before(21, 24).len() == 156);
    lemma_shapes_row(22);
    assert(shapes_before(22, 24).len() == 167);
    lemma_shapes_row(23);
    assert(shapes_before(23, 24).len() == 178);
    lemma_shapes_row(24);
    assert(shapes_before(24, 24).len() == 189);
    lemma_shapes_row(25);
    assert(shapes_before(25, 24).len() == 196);
    lemma_shapes_row(26);
    assert(shapes_before(26, 24).len() == 201);
    lemma_shapes_row(27);
    assert(shapes_before(27, 24).len() == 206);
    lemma_shapes_row(28);
    assert(shapes_before(28, 24).len() == 211);
    lemma_shapes_row(29);
    assert(shapes_before(29, 24).len() == 216);
    lemma_shapes_row(30);
    assert(shapes_before(30, 24).len() == 221);
    lemma_shapes_row(31);
    assert(shapes_before(31, 24).len() == 226);
    lemma_shapes_row(32);
    assert(shapes_before(32, 24).len() == 231);
    lemma_shapes_row(33);
    assert(shapes_before(33, 24).len() == 236);
    lemma_shapes_row(34);
    assert(shapes_before(34, 24).len() == 241);
    lemma_shapes_row(35);
    assert(shapes_before(35, 24).len() == 246);
    lemma_shapes_row(36);
    assert(shapes_before(36, 24).len() == 257);
    lemma_shapes_row(37);
    assert(shapes_before(37, 24).len() == 268);
    lemma_shapes_row(38);
    assert(shapes_before(38, 24).len() == 279);
    lemma_shapes_row(39);
    assert(shapes_before(39, 24).len() == 290);
    lemma_shapes_row(40);
    assert(shapes_before(40, 24).len() == 301);
    lemma_shapes_row(41);
    assert(shapes_before(41, 24).len() == 308);
}

impl Default for InArray {
    fn default() -> (r: Self)
        ensures
            r.listed() == Seq::<(usize, usize)>::empty(),
    {
        InArray::Zero([])
    }
}

impl InArray {
    /// The occupied slots with their multiplicities as they are listed.
    pub open spec fn listed(&self) -> Seq<(usize, usize)> {
        match self {
            InArray::Zero(pairs) => pairs@,
            InArray::One(pairs) => pairs@,
            InArray::Two(pairs) => pairs@,
            InArray::Three(pairs) => pairs@,
        }
    }

    /// The slots are slots of the row, listed in ascending order within
    /// three consecutive ones, and each occurs at least once.
    pub open spec fn well_listed(&self) -> bool {
        well_listed_pairs(self.listed())
    }

    /// Every in-neighborhood of at most six edges: every composition
    /// paired with every shape of as many slots as it has parts.
    pub fn at_most_six() -> (all: Vec<Self>)
        ensures
            all@.len() == NEIGHBORHOODS,
            all@.len() == shapes().len(),
            forall|k: int| 0 <= k < all@.len() ==> (#[trigger] all@[k]).listed() == shapes()[k],
            forall|k: int|
                0 <= k < all@.len() ==> (#[trigger] all@[k]).wf() && total(all@[k].tally()) <= 6,
    {
        let parts = StrongCompositionOfLengthAtMostThree::compositions_of_six();
        let arrays = arrays();
        let mut all: Vec<Self> = Vec::new();
        let mut i: usize = 0;
        proof {
            lemma_compositions_valid();
            lemma_shapes_len();
            reveal(shapes_before);
        }
        while i < 42
            invariant
                i <= 42,
                parts@ == compositions(),
                forall|a: int| 0 <= a < 24 ==> (#[trigger] arrays[a]).wf(),
                forall|a: int| 0 <= a < 24 ==> (#[trigger] arrays[a]).listed() == support(a),
                forall|c: int| 0 <= c < 42 ==> (#[trigger] compositions()[c]).valid(),
                all@.len() == shapes_before(i - 1, 24).len(),
                forall|k: int|
                    0 <= k < all@.len() ==> (#[trigger] all@[k]).listed() == shapes_before(
                        i - 1,
                        24,
                    )[k],
                forall|k: int|
                    0 <= k < all@.len() ==> (#[trigger] all@[k]).wf() && total(all@[k].tally())
                        <= 6,
            decreases 42 - i,
        {
            let composition = parts[i];
            proof {
                reveal(shapes_before);
            }
            assert(composition == compositions()[i as int]);
            assert(composition.valid());
            let mut j: usize = 0;
            while j < 24
                invariant
                    j <= 24,
                    i < 42,
                    composition == compositions()[i as int],
                    composition.valid(),
                    forall|a: int| 0 <= a < 24 ==> (#[trigger] arrays[a]).wf(),
                    forall|a: int| 0 <= a < 24 ==> (#[trigger] arrays[a]).listed() == support(a),
                    all@.len() == shapes_before(i as int, j as int).len(),
                    forall|k: int|
                        0 <= k < all@.len() ==> (#[trigger] all@[k]).listed() == shapes_before(
                            i as int,
                            j as int,
                        )[k],
                    forall|k: int|
                        0 <= k < all@.len() ==> (#[trigger] all@[k]).wf() && total(
                            all@[k].tally(),
                        ) <= 6,
                decreases 24 - j,
            {
                let array = &arrays[j];
                proof {
                    reveal(shapes_before);
                }
                assert(array.wf());
                assert(array.listed() == support(j as int));
                let pair = Self::pair(composition, array);
                if let Some(pair) = pair {
                    all.push(pair);
                }
                j = j + 1;
            }
            i = i + 1;
        }
        all
    }

    /// The in-neighborhood with the slots of `array` and the parts of
    /// `composition` as their multiplicities, if there are as many parts as
    /// slots.
    fn pair(composition: StrongCompositionOfLengthAtMostThree, array: &OutArray) -> (r: Option<
        Self,
    >)
        requires
            composition.valid(),
            array.wf(),
        ensures
            match r {
                Some(pair) => composition.arity() == array.listed().len() && pair.listed()
                    == paired(composition, array.listed()) && pair.wf() && total(pair.tally())
                    <= 6,
                None => composition.arity() != array.listed().len(),
            },
    {
        match (composition, array) {
            (StrongCompositionOfLengthAtMostThree::Empty, OutArray::Zero(_)) => {
                let pair = InArray::Zero([]);
                assert(pair.listed() =~= paired(composition, array.listed()));
                Some(pair)
            },
            (StrongCompositionOfLengthAtMostThree::One(x), OutArray::One(a)) => {
                let pair = InArray::One([(a[0], x)]);
                assert(pair.listed() =~= paired(composition, array.listed()));
                Some(pair)
            },
            (StrongCompositionOfLengthAtMostThree::Two(x, y), OutArray::Two(a)) => {
                let pair = InArray::Two([(a[0], x), (a[1], y)]);
                assert(pair.listed() =~= paired(composition, array.listed()));
                assert(array.listed()[0] < array.listed()[1]);
                Some(pair)
            },
            (StrongCompositionOfLengthAtMostThree::Three(x, y, z), OutArray::Three(a)) => {
                let pair = InArray::Three([(a[0], x), (a[1], y), (a[2], z)]);
                assert(pair.listed() =~= paired(composition, array.listed()));
                assert(array.listed()[0] < array.listed()[1]);
                assert(array.listed()[1] < array.listed()[2]);
                assert(array.listed()[0] < array.listed()[2]);
                Some(pair)
            },
            _ => None,
        }
    }

    /// The in-neighborhood with the multiplicities `counts`, if the
    /// occupied slots lie within three consecutive ones.
    pub fn from_counts(counts: &[usize; 7]) -> (r: Option<Self>)
        requires
            total(tally_in(*counts)) <= usize::MAX,
        ensures
            match r {
                Some(array) => array.wf() && array.tally() == tally_in(*counts),
                None => !compact(tally_in(*counts)),
            },
    {
        let ghost c = tally_in(*counts);
        assert(forall|v: int| 0 <= v < 7 ==> c[v] == counts[v]);
        let first = crate::map::slots::first_occupied(counts);
        let last = crate::map::slots::last_occupied(counts);
        match (first, last) {
            (Some(a), Some(b)) => {
                if b - a > 2 {
                    None
                } else if b == a {
                    let array = InArray::One([(a, counts[a])]);
                    assert(array.tally() =~= c);
                    Some(array)
                } else if b == a + 1 {
                    let array = InArray::Two([(a, counts[a]), (b, counts[b])]);
                    assert(array.tally() =~= c);
                    Some(array)
                } else if counts[a + 1] == 0 {
                    let array = InArray::Two([(a, counts[a]), (b, counts[b])]);
                    assert(array.tally() =~= c);
                    Some(array)
                } else {
                    let array = InArray::Three(
                        [(a, counts[a]), (a + 1, counts[a + 1]), (b, counts[b])],
                    );
                    assert(array.tally() =~= c);
                    Some(array)
                }
            },
            _ => {
                let array = InArray::Zero([]);
                assert(array.tally() =~= c);
                Some(array)
            },
        }
    }

    /// The in-neighborhood with the tally of `hood`.
    pub fn from_neighborhood<In: InNeighborhood>(hood: &In) -> (array: Self)
        requires
            hood.wf(),
        ensures
            array.wf(),
            array.tally() == hood.tally(),
    {
        proof {
            hood.lemma_wf();
        }
        let counts = crate::map::slots::in_counts(hood);
        match Self::from_counts(&counts) {
            Some(array) => array,
            None => InArray::Zero([]),
        }
    }

    /// The occupied slots with their multiplicities, in ascending order.
    pub fn slice(&self) -> (r: &[(usize, usize)])
        ensures
            r@ == self.listed(),
    {
        match self {
            InArray::Zero(pairs) => vstd::array::array_as_slice(pairs),
            InArray::One(pairs) => vstd::array::array_as_slice(pairs),
            InArray::Two(pairs) => vstd::array::array_as_slice(pairs),
            InArray::Three(pairs) => vstd::array::array_as_slice(pairs),
        }
    }

    /// The smallest occupied slot.
    pub fn min(&self) -> (r: Option<&usize>)
        ensures
            match r {
                Some(v) => self.listed().len() > 0 && *v == self.listed()[0].0,
                None => self.listed().len() == 0,
            },
    {
        match self {
            InArray::Zero(_) => None,
            InArray::One(pairs) => Some(&pairs[0].0),
            InArray::Two(pairs) => Some(&pairs[0].0),
            InArray::Three(pairs) => Some(&pairs[0].0),
        }
    }

    /// The largest occupied slot.
    pub fn max(&self) -> (r: Option<&usize>)
        ensures
            match r {
                Some(v) => self.listed().len() > 0 && *v == self.listed().last().0,
                None => self.listed().len() == 0,
            },
    {
        match self {
            InArray::Zero(_) => None,
            InArray::One(pairs) => Some(&pairs[0].0),
            InArray::Two(pairs) => Some(&pairs[1].0),
            InArray::Three(pairs) => Some(&pairs[2].0),
        }
    }

    /// Whether the two list the same slots with the same multiplicities.
    pub fn const_eq(&self, other: &Self) -> (r: bool)
        ensures
            r == (self.listed() == other.listed()),
    {
        let a = self.slice();
        let b = other.slice();
        if a.len() != b.len() {
            return false;
        }
        let mut i: usize = 0;
        while i < a.len()
            invariant
                i <= a@.len(),
                a@.len() == b@.len(),
                a@ == self.listed(),
                b@ == other.listed(),
                forall|j: int| 0 <= j < i ==> a@[j] == b@[j],
            decreases a@.len() - i,
        {
            if a[i].0 != b[i].0 || a[i].1 != b[i].1 {
                return false;
            }
            i = i + 1;
        }
        assert(a@ =~= b@);
        true
    }

    /// The multiplicity of every slot.
    pub fn counts(&self) -> (r: [usize; 7])
        requires
            self.wf(),
        ensures
            tally_in(r) == self.tally(),
    {
        let mut counts: [usize; 7] = [0, 0, 0, 0, 0, 0, 0];
        match self {
            InArray::Zero(_) => {},
            InArray::One(pairs) => {
                counts[pairs[0].0] = pairs[0].1;
            },
            InArray::Two(pairs) => {
                counts[pairs[0].0] = pairs[0].1;
                counts[pairs[1].0] = pairs[1].1;
            },
            InArray::Three(pairs) => {
                counts[pairs[0].0] = pairs[0].1;
                counts[pairs[1].0] = pairs[1].1;
                counts[pairs[2].0] = pairs[2].1;
            },
        }
        assert(tally_in(counts) =~= self.tally());
        counts
    }

    /// The neighborhood with one more occurrence of `position`, if its
    /// slots then still lie within three consecutive ones.
    pub fn plus(&self, position: usize) -> (r: Option<Self>)
        requires
            self.wf(),
            position < 7,
            total(self.tally()) < usize::MAX,
        ensures
            match r {
                Some(sum) => sum.wf() && compact(with_one_more(self.tally(), position as int))
                    && sum.tally() == with_one_more(self.tally(), position as int),
                None => !compact(with_one_more(self.tally(), position as int)),
            },
    {
        match self {
            InArray::Zero(_) => {
                let sum = InArray::One([(position, 1)]);
                assert(sum.tally() =~= with_one_more(self.tally(), position as int));
                Some(sum)
            },
            InArray::One(_) => self.one_plus(position),
            InArray::Two(_) => self.two_plus(position),
            InArray::Three(_) => self.three_plus(position),
        }
    }

    #[verifier::rlimit(40)]
    fn one_plus(&self, position: usize) -> (r: Option<Self>)
        requires
            self.wf(),
            position < 7,
            total(self.tally()) < usize::MAX,
            *self is One,
        ensures
            match r {
                Some(sum) => sum.wf() && compact(with_one_more(self.tally(), position as int))
                    && sum.tally() == with_one_more(self.tally(), position as int),
                None => !compact(with_one_more(self.tally(), position as int)),
            },
    {
        match self {
            InArray::One(pairs) => {
                let (a, mult) = pairs[0];
                if position == a {
                    let sum = InArray::One([(a, mult + 1)]);
                    assert(sum.tally() =~= with_one_more(self.tally(), position as int));
                    Some(sum)
                } else if position == a + 1 || position == a + 2 {
                    let sum = InArray::Two([(a, mult), (position, 1)]);
                    assert(sum.tally() =~= with_one_more(self.tally(), position as int));
                    Some(sum)
                } else if a == position + 1 || a == position + 2 {
                    let sum = InArray::Two([(position, 1), (a, mult)]);
                    assert(sum.tally() =~= with_one_more(self.tally(), position as int));
                    Some(sum)
                } else {
                    None
                }
            },
            _ => None,
        }
    }

    #[verifier::rlimit(40)]
    fn two_plus(&self, position: usize) -> (r: Option<Self>)
        requires
            self.wf(),
            position < 7,
            total(self.tally()) < usize::MAX,
            *self is Two,
        ensures
            match r {
                Some(sum) => sum.wf() && compact(with_one_more(self.tally(), position as int))
                    && sum.tally() == with_one_more(self.tally(), position as int),
                None => !compact(with_one_more(self.tally(), position as int)),
            },
    {
        match self {
            InArray::Two(pairs) => {
                let (a, m_a) = pairs[0];
                let (b, m_b) = pairs[1];
                if position == a {
                    let sum = InArray::Two([(a, m_a + 1), (b, m_b)]);
                    assert(sum.tally() =~= with_one_more(self.tally(), position as int));
                    Some(sum)
                } else if position == b {
                    let sum = InArray::Two([(a, m_a), (b, m_b + 1)]);
                    assert(sum.tally() =~= with_one_more(self.tally(), position as int));
                    Some(sum)
                } else if b == a + 1 && position == a + 2 {
                    let sum = InArray::Three([(a, m_a), (b, m_b), (b + 1, 1)]);
                    assert(sum.tally() =~= with_one_more(self.tally(), position as int));
                    Some(sum)
                } else if a == position + 1 && b == position + 2 {
                    let sum = InArray::Three([(position, 1), (a, m_a), (b, m_b)]);
                    assert(sum.tally() =~= with_one_more(self.tally(), position as int));
                    Some(sum)
                } else if position == a + 1 && b == a + 2 {
                    let sum = InArray::Three([(a, m_a), (position, 1), (b, m_b)]);
                    assert(sum.tally() =~= with_one_more(self.tally(), position as int));
                    Some(sum)
                } else {
                    None
                }
            },
            _ => None,
        }
    }

    #[verifier::rlimit(40)]
    fn three_plus(&self, position: usize) -> (r: Option<Self>)
        requires
            self.wf(),
            position < 7,
            total(self.tally()) < usize::MAX,
            *self is Three,
        ensures
            match r {
                Some(sum) => sum.wf() && compact(with_one_more(self.tally(), position as int))
                    && sum.tally() == with_one_more(self.tally(), position as int),
                None => !compact(with_one_more(self.tally(), position as int)),
            },
    {
        match self {
            InArray::Three(pairs) => {
                let (a, m_a) = pairs[0];
                let (b, m_b) = pairs[1];
                let (c, m_c) = pairs[2];
                if position == a {
                    let sum = InArray::Three([(a, m_a + 1), (b, m_b), (c, m_c)]);
                    assert(sum.tally() =~= with_one_more(self.tally(), position as int));
                    Some(sum)
                } else if position == b {
                    let sum = InArray::Three([(a, m_a), (b, m_b + 1), (c, m_c)]);
                    assert(sum.tally() =~= with_one_more(self.tally(), position as int));
                    Some(sum)
                } else if position == c {
                    let sum = InArray::Three([(a, m_a), (b, m_b), (c, m_c + 1)]);
                    assert(sum.tally() =~= with_one_more(self.tally(), position as int));
                    Some(sum)
                } else {
                    None
                }
            },
            _ => None,
        }
    }
}

impl InNeighborhood for InArray {
    open spec fn tally(&self) -> Seq<nat> {
        pairs_tally(self.listed())
    }

    open spec fn wf(&self) -> bool {
        self.well_listed()
    }

    open spec fn has_room(&self) -> bool {
        total(self.tally()) < usize::MAX
    }

    proof fn lemma_wf(&self) {
        lemma_well_listed_tally(self.listed());
    }

    proof fn lemma_room(&self) {
    }

    fn empty() -> (r: Self) {
        InArray::Zero([])
    }

    fn min(&self) -> (r: Option<usize>) {
        match self {
            InArray::Zero(_) => None,
            InArray::One(pairs) => Some(pairs[0].0),
            InArray::Two(pairs) => Some(pairs[0].0),
            InArray::Three(pairs) => Some(pairs[0].0),
        }
    }

    fn max(&self) -> (r: Option<usize>) {
        match self {
            InArray::Zero(_) => None,
            InArray::One(pairs) => Some(pairs[0].0),
            InArray::Two(pairs) => Some(pairs[1].0),
            InArray::Three(pairs) => Some(pairs[2].0),
        }
    }

    fn push(&mut self, value: usize) {
        match self.plus(value) {
            Some(array) => {
                *self = array;
            },
            None => {},
        }
    }

    fn pairs(&self) -> (r: Vec<(usize, usize)>) {
        let counts = self.counts();
        pairs_in(&counts)
    }

    fn is_empty(&self) -> (r: bool) {
        matches!(self, InArray::Zero(_))
    }

    fn to_string(&self) -> (r: String) {
        let counts = self.counts();
        let mut text = String::new();
        if none_occupied(&counts) {
            push_char(&mut text, '[');
            push_char(&mut text, ']');
            assert(text@ =~= seq!['[', ']']);
        } else {
            push_digits(&mut text, &counts);
            assert(text@ =~= in_rendering(self.tally()));
        }
        text
    }
}

} // verus!
