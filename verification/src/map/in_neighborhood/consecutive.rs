//! Neighborhoods whose slots are consecutive: one slot, two adjacent slots
//! or three adjacent slots, each with its multiplicity. A push may extend
//! such a neighborhood by a slot next to it, but may not leave a gap.

use vstd::prelude::*;
use super::backend::{
    composition_rank, compositions, lemma_rank_of_listed, StrongCompositionOfLengthAtMostThree,
};
use super::in_array::{lemma_compositions_valid, pairs_tally, well_listed_pairs};
use crate::map::slots::{push_digits, tally_in};
use crate::map::tally::{compact, digits_from, in_rendering, no_neighbors, total, with_one_more};
use crate::text::push_char;

verus! {

/// How often a slot occurs.
#[derive(Debug, Clone, Copy, PartialEq, Eq, Structural)]
pub struct Multiplicity(pub u8);

impl Multiplicity {
    /// Whether the two are the same number.
    pub fn const_eq(&self, other: &Self) -> (r: bool)
        ensures
            r == (*self == *other),
    {
        self.0 == other.0
    }
}

/// A neighborhood of consecutive slots: none, or the first slot and the
/// multiplicity of each of one, two or three slots from it on.
#[derive(Debug, Clone, Copy, PartialEq, Eq, Structural)]
pub enum NeighborhoodOfAtMostThreeConsecutiveElements {
    Empty,
    One(u8, Multiplicity),
    Two(u8, Multiplicity, Multiplicity),
    Three(u8, Multiplicity, Multiplicity, Multiplicity),
}

/// Number of neighborhoods of consecutive slots with at most six edges.
pub const CONSECUTIVE_NEIGHBORHOODS: usize = 233;

/// The occupied slots have no gap between them: every slot between the
/// smallest and the largest occupied one is occupied.
pub open spec fn gapless(c: Seq<nat>) -> bool {
    forall|u: int, v: int, w: int|
        0 <= u < v < w < 7 && #[trigger] c[u] > 0 && #[trigger] c[w] > 0 ==> #[trigger] c[v] > 0
}

/// The neighborhood with the given first slot and the parts of a
/// composition as the multiplicities of the slots from it on, where these
/// are slots of the row; the empty neighborhood for the empty composition.
pub open spec fn interval(
    first: int,
    composition: StrongCompositionOfLengthAtMostThree,
) -> Option<NeighborhoodOfAtMostThreeConsecutiveElements> {
    match composition {
        StrongCompositionOfLengthAtMostThree::Empty => Some(
            NeighborhoodOfAtMostThreeConsecutiveElements::Empty,
        ),
        StrongCompositionOfLengthAtMostThree::One(x) => Some(
            NeighborhoodOfAtMostThreeConsecutiveElements::One(first as u8, Multiplicity(x as u8)),
        ),
        StrongCompositionOfLengthAtMostThree::Two(x, y) => if first >= 6 {
            None
        } else {
            Some(
                NeighborhoodOfAtMostThreeConsecutiveElements::Two(
                    first as u8,
                    Multiplicity(x as u8),
                    Multiplicity(y as u8),
                ),
            )
        },
        StrongCompositionOfLengthAtMostThree::Three(x, y, z) => if first >= 5 {
            None
        } else {
            Some(
                NeighborhoodOfAtMostThreeConsecutiveElements::Three(
                    first as u8,
                    Multiplicity(x as u8),
                    Multiplicity(y as u8),
                    Multiplicity(z as u8),
                ),
            )
        },
    }
}

/// The table of the neighborhoods of consecutive slots with at most six
/// edges, as far as it is made of the compositions before index
/// `composition` and, for the composition with that index, of the first
/// slots below `first`: the empty neighborhood, then for every composition
/// but the empty one its neighborhood from every first slot that leaves
/// room for its parts.
#[verifier::opaque]
pub open spec fn intervals_before(composition: int, first: int) -> Seq<
    NeighborhoodOfAtMostThreeConsecutiveElements,
>
    decreases composition + 1, first,
{
    if composition < 0 || composition >= 42 {
        seq![NeighborhoodOfAtMostThreeConsecutiveElements::Empty]
    } else if first <= 0 {
        intervals_before(composition - 1, 7)
    } else {
        let rest = intervals_before(composition, first - 1);
        match interval(first - 1, compositions()[composition]) {
            Some(neighborhood) => if neighborhood
                == NeighborhoodOfAtMostThreeConsecutiveElements::Empty {
                rest
            } else {
                rest.push(neighborhood)
            },
            None => rest,
        }
    }
}

/// The table of the neighborhoods of consecutive slots with at most six
/// edges.
pub open spec fn intervals() -> Seq<NeighborhoodOfAtMostThreeConsecutiveElements> {
    intervals_before(41, 7)
}

/// Number of first slots below `first` that leave room for `arity` slots;
/// none for the empty composition, which adds nothing to the table.
pub open spec fn rooms_for(arity: int, first: int) -> int {
    if arity == 0 {
        0
    } else if arity == 1 {
        first
    } else if arity == 2 {
        if first >= 6 {
            6
        } else {
            first
        }
    } else {
        if first >= 5 {
            5
        } else {
            first
        }
    }
}

/// How far the composition with index `ci` has made the table grow after
/// the first slots below `first`.
pub proof fn lemma_intervals_step(ci: int, first: int)
    requires
        0 <= ci <= 41,
        0 <= first <= 7,
    ensures
        intervals_before(ci, first).len() == intervals_before(ci - 1, 7).len() + rooms_for(
            compositions()[ci].arity(),
            first,
        ),
    decreases first,
{
    reveal(intervals_before);
    if first > 0 {
        lemma_intervals_step(ci, first - 1);
    }
}

/// How far the composition with index `ci` makes the table grow.
pub proof fn lemma_intervals_row(ci: int)
    requires
        0 <= ci <= 41,
    ensures
        intervals_before(ci, 7).len() == intervals_before(ci - 1, 7).len() + rooms_for(
            compositions()[ci].arity(),
            7,
        ),
{
    lemma_intervals_step(ci, 7);
}

/// The table holds 233 neighborhoods.
pub proof fn lemma_intervals_len()
    ensures
        intervals().len() == 233,
{
    assert(intervals_before(-1, 7).len() == 1) by {
        reveal(intervals_before);
    }
    lemma_intervals_row(0);
    assert(intervals_before(0, 7).len() == 1);
    lemma_intervals_row(1);
    assert(intervals_before(1, 7).len() == 8);
    lemma_intervals_row(2);
    assert(intervals_before(2, 7).len() == 14);
    lemma_intervals_row(3);
    assert(intervals_before(3, 7).len() == 21);
    lemma_intervals_row(4);
    assert(intervals_before(4, 7).len() == 26);
    lemma_intervals_row(5);
    assert(intervals_before(5, 7).len() == 32);
    lemma_intervals_row(6);
    assert(intervals_before(6, 7).len() == 38);
    lemma_intervals_row(7);
    assert(intervals_before(7, 7).len() == 45);
    lemma_intervals_row(8);
    assert(intervals_before(8, 7).len() == 50);
    lemma_intervals_row(9);
    assert(intervals_before(9, 7).len() == 55);
    lemma_intervals_row(10);
    assert(intervals_before(10, 7).len() == 60);
    lemma_intervals_row(11);
    assert(intervals_before(11, 7).len() == 66);
    lemma_intervals_row(12);
    assert(intervals_before(12, 7).len() == 72);
    lemma_intervals_row(13);
    assert(intervals_before(13, 7).len() == 78);
    lemma_intervals_row(14);
    assert(intervals_before(14, 7).len() == 85);
    lemma_intervals_row(15);
    assert(intervals_before(15, 7).len() == 90);
    lemma_intervals_row(16);
    assert(intervals_before(16, 7).len() == 95);
    lemma_intervals_row(17);
    assert(intervals_before(17, 7).len() == 100);
    lemma_intervals_row(18);
    assert(intervals_before(18, 7).len() == 105);
    lemma_intervals_row(19);
    assert(intervals_before(19, 7).len() == 110);
    lemma_intervals_row(20);
    assert(intervals_before(20, 7).len() == 115);
    lemma_intervals_row(21);
    assert(intervals_before(21, 7).len() == 121);
    lemma_intervals_row(22);
    assert(intervals_before(22, 7).len() == 127);
    lemma_intervals_row(23);
    assert(intervals_before(23, 7).len() == 133);
    lemma_intervals_row(24);
    assert(intervals_before(24, 7).len() == 139);
    lemma_intervals_row(25);
    assert(intervals_before(25, 7).len() == 146);
    lemma_intervals_row(26);
    assert(intervals_before(26, 7).len() == 151);
    lemma_intervals_row(27);
    assert(intervals_before(27, 7).len() == 156);
    lemma_intervals_row(28);
    assert(intervals_before(28, 7).len() == 161);
    lemma_intervals_row(29);
    assert(intervals_before(29, 7).len() == 166);
    lemma_intervals_row(30);
    assert(intervals_before(30, 7).len() == 171);
    lemma_intervals_row(31);
    assert(intervals_before(31, 7).len() == 176);
    lemma_intervals_row(32);
    assert(intervals_before(32, 7).len() == 181);
    lemma_intervals_row(33);
    assert(intervals_before(33, 7).len() == 186);
    lemma_intervals_row(34);
    assert(intervals_before(34, 7).len() == 191);
    lemma_intervals_row(35);
    assert(intervals_before(35, 7).len() == 196);
    lemma_intervals_row(36);
    assert(intervals_before(36, 7).len() == 202);
    lemma_intervals_row(37);
    assert(intervals_before(37, 7).len() == 208);
    lemma_intervals_row(38);
    assert(intervals_before(38, 7).len() == 214);
    lemma_intervals_row(39);
    assert(intervals_before(39, 7).len() == 220);
    lemma_intervals_row(40);
    assert(intervals_before(40, 7).len() == 226);
    lemma_intervals_row(41);
    assert(intervals_before(41, 7).len() == 233);
}

/// The multiplicities of a neighborhood of consecutive slots, as a
/// composition.
pub open spec fn parts(
    neighborhood: NeighborhoodOfAtMostThreeConsecutiveElements,
) -> StrongCompositionOfLengthAtMostThree {
    match neighborhood {
        NeighborhoodOfAtMostThreeConsecutiveElements::Empty => {
            StrongCompositionOfLengthAtMostThree::Empty
        },
        NeighborhoodOfAtMostThreeConsecutiveElements::One(
            _,
            m,
        ) => StrongCompositionOfLengthAtMostThree::One(m.0 as usize),
        NeighborhoodOfAtMostThreeConsecutiveElements::Two(
            _,
            m1,
            m2,
        ) => StrongCompositionOfLengthAtMostThree::Two(m1.0 as usize, m2.0 as usize),
        NeighborhoodOfAtMostThreeConsecutiveElements::Three(
            _,
            m1,
            m2,
            m3,
        ) => StrongCompositionOfLengthAtMostThree::Three(
            m1.0 as usize,
            m2.0 as usize,
            m3.0 as usize,
        ),
    }
}

/// The first slot of a neighborhood of consecutive slots; 0 for the empty
/// one.
pub open spec fn first_slot(neighborhood: NeighborhoodOfAtMostThreeConsecutiveElements) -> int {
    match neighborhood {
        NeighborhoodOfAtMostThreeConsecutiveElements::Empty => 0,
        NeighborhoodOfAtMostThreeConsecutiveElements::One(a, _) => a as int,
        NeighborhoodOfAtMostThreeConsecutiveElements::Two(a, _, _) => a as int,
        NeighborhoodOfAtMostThreeConsecutiveElements::Three(a, _, _, _) => a as int,
    }
}

/// The index at which the table holds a neighborhood of at least one slot:
/// the length to which the table has grown when the composition of its
/// multiplicities comes to its first slot.
pub open spec fn place(neighborhood: NeighborhoodOfAtMostThreeConsecutiveElements) -> int {
    intervals_before(composition_rank(parts(neighborhood)), first_slot(neighborhood)).len() as int
}

/// However far the table is made, the empty neighborhood is its first
/// entry.
pub proof fn lemma_intervals_begin(ci: int, first: int)
    requires
        -1 <= ci <= 41,
        0 <= first <= 7,
    ensures
        intervals_before(ci, first).len() >= 1,
        intervals_before(ci, first)[0] == NeighborhoodOfAtMostThreeConsecutiveElements::Empty,
    decreases ci + 1, first,
{
    reveal(intervals_before);
    if ci < 0 {
    } else if first <= 0 {
        lemma_intervals_begin(ci - 1, 7);
    } else {
        lemma_intervals_begin(ci, first - 1);
    }
}

/// However far the table is made, only its first entry is the empty
/// neighborhood, and every other entry stands at its place.
pub proof fn lemma_intervals_placed(ci: int, first: int, k: int)
    requires
        -1 <= ci <= 41,
        0 <= first <= 7,
        0 < k < intervals_before(ci, first).len(),
    ensures
        intervals_before(ci, first)[k] != NeighborhoodOfAtMostThreeConsecutiveElements::Empty,
        place(intervals_before(ci, first)[k]) == k,
    decreases ci + 1, first,
{
    reveal(intervals_before);
    if ci < 0 {
    } else if first <= 0 {
        lemma_intervals_placed(ci - 1, 7, k);
    } else {
        let rest = intervals_before(ci, first - 1);
        if k < rest.len() {
            lemma_intervals_placed(ci, first - 1, k);
        } else {
            lemma_compositions_valid();
            lemma_rank_of_listed(ci);
            let neighborhood = intervals_before(ci, first)[k];
            assert(interval(first - 1, compositions()[ci]) == Some(neighborhood));
            assert(compositions()[ci].valid());
            assert(parts(neighborhood) == compositions()[ci]);
            assert(first_slot(neighborhood) == first - 1);
        }
    }
}

/// No neighborhood stands twice in the table.
pub proof fn lemma_intervals_distinct(i: int, j: int)
    requires
        0 <= i < intervals().len(),
        0 <= j < intervals().len(),
        intervals()[i] == intervals()[j],
    ensures
        i == j,
{
    lemma_intervals_begin(41, 7);
    if i > 0 {
        lemma_intervals_placed(41, 7, i);
    }
    if j > 0 {
        lemma_intervals_placed(41, 7, j);
    }
}

impl NeighborhoodOfAtMostThreeConsecutiveElements {
    /// The multiplicity of every slot.
    pub open spec fn tally(&self) -> Seq<nat> {
        match self {
            NeighborhoodOfAtMostThreeConsecutiveElements::Empty => no_neighbors(),
            NeighborhoodOfAtMostThreeConsecutiveElements::One(a, m) => no_neighbors().update(
                *a as int,
                m.0 as nat,
            ),
            NeighborhoodOfAtMostThreeConsecutiveElements::Two(a, m1, m2) => no_neighbors().update(
                *a as int,
                m1.0 as nat,
            ).update(a + 1, m2.0 as nat),
            NeighborhoodOfAtMostThreeConsecutiveElements::Three(
                a,
                m1,
                m2,
                m3,
            ) => no_neighbors().update(*a as int, m1.0 as nat).update(a + 1, m2.0 as nat).update(
                a + 2,
                m3.0 as nat,
            ),
        }
    }

    /// The slots are slots of the row, and each occurs at least once.
    pub open spec fn wf(&self) -> bool {
        match self {
            NeighborhoodOfAtMostThreeConsecutiveElements::Empty => true,
            NeighborhoodOfAtMostThreeConsecutiveElements::One(a, m) => *a < 7 && m.0 >= 1,
            NeighborhoodOfAtMostThreeConsecutiveElements::Two(a, m1, m2) => *a < 6 && m1.0 >= 1
                && m2.0 >= 1,
            NeighborhoodOfAtMostThreeConsecutiveElements::Three(a, m1, m2, m3) => *a < 5 && m1.0
                >= 1 && m2.0 >= 1 && m3.0 >= 1,
        }
    }

    /// Every neighborhood of consecutive slots with at most six edges.
    pub fn at_most_six() -> (all: Vec<Self>)
        ensures
            all@ == intervals(),
            all@.len() == CONSECUTIVE_NEIGHBORHOODS,
            forall|k: int|
                0 <= k < all@.len() ==> (#[trigger] all@[k]).wf() && total(all@[k].tally()) <= 6,
    {
        let parts = StrongCompositionOfLengthAtMostThree::compositions_of_six();
        let mut all: Vec<Self> = Vec::new();
        all.push(NeighborhoodOfAtMostThreeConsecutiveElements::Empty);
        proof {
            lemma_compositions_valid();
            lemma_intervals_len();
            reveal(intervals_before);
            assert(all@ =~= intervals_before(-1, 7));
        }
        let mut index: usize = 0;
        while index < 42
            invariant
                index <= 42,
                parts@ == compositions(),
                forall|c: int| 0 <= c < 42 ==> (#[trigger] compositions()[c]).valid(),
                all@ == intervals_before(index - 1, 7),
                forall|k: int|
                    0 <= k < all@.len() ==> (#[trigger] all@[k]).wf() && total(all@[k].tally())
                        <= 6,
            decreases 42 - index,
        {
            let comp = parts[index];
            proof {
                reveal(intervals_before);
            }
            assert(comp == compositions()[index as int]);
            assert(comp.valid());
            let mut first_neighbor: u8 = 0;
            let mut stopped = false;
            while first_neighbor < 7 && !stopped
                invariant
                    first_neighbor <= 7,
                    index < 42,
                    comp == compositions()[index as int],
                    comp.valid(),
                    stopped ==> comp == StrongCompositionOfLengthAtMostThree::Empty,
                    all@ == intervals_before(index as int, first_neighbor as int),
                    forall|k: int|
                        0 <= k < all@.len() ==> (#[trigger] all@[k]).wf() && total(
                            all@[k].tally(),
                        ) <= 6,
                decreases 7 - first_neighbor + (if stopped { 0int } else { 1int }),
            {
                proof {
                    reveal(intervals_before);
                }
                match Self::new(first_neighbor, &comp) {
                    Some(neighborhood) => {
                        if neighborhood.is_empty() {
                            stopped = true;
                        } else {
                            all.push(neighborhood);
                        }
                    },
                    None => {},
                }
                if !stopped {
                    first_neighbor = first_neighbor + 1;
                }
            }
            proof {
                if stopped {
                    lemma_empty_adds_nothing(index as int, first_neighbor as int, 7);
                }
            }
            index = index + 1;
        }
        all
    }

    /// Whether the neighborhood has no slot.
    pub fn is_empty(&self) -> (r: bool)
        ensures
            r == (*self == NeighborhoodOfAtMostThreeConsecutiveElements::Empty),
            self.wf() ==> r == (total(self.tally()) == 0),
    {
        matches!(self, NeighborhoodOfAtMostThreeConsecutiveElements::Empty)
    }

    /// Whether the two are the same neighborhood.
    pub fn const_eq(&self, other: &Self) -> (r: bool)
        ensures
            r == (*self == *other),
    {
        match (self, other) {
            (
                NeighborhoodOfAtMostThreeConsecutiveElements::Empty,
                NeighborhoodOfAtMostThreeConsecutiveElements::Empty,
            ) => true,
            (
                NeighborhoodOfAtMostThreeConsecutiveElements::One(neighbor1, multiplicity1),
                NeighborhoodOfAtMostThreeConsecutiveElements::One(neighbor2, multiplicity2),
            ) => *neighbor1 == *neighbor2 && multiplicity1.const_eq(multiplicity2),
            (
                NeighborhoodOfAtMostThreeConsecutiveElements::Two(
                    neighbor1,
                    multiplicity1,
                    multiplicity2,
                ),
                NeighborhoodOfAtMostThreeConsecutiveElements::Two(
                    neighbor2,
                    multiplicity3,
                    multiplicity4,
                ),
            ) => *neighbor1 == *neighbor2 && multiplicity1.const_eq(multiplicity3)
                && multiplicity2.const_eq(multiplicity4),
            (
                NeighborhoodOfAtMostThreeConsecutiveElements::Three(
                    neighbor1,
                    multiplicity1,
                    multiplicity2,
                    multiplicity3,
                ),
                NeighborhoodOfAtMostThreeConsecutiveElements::Three(
                    neighbor2,
                    multiplicity4,
                    multiplicity5,
                    multiplicity6,
                ),
            ) => *neighbor1 == *neighbor2 && multiplicity1.const_eq(multiplicity4)
                && multiplicity2.const_eq(multiplicity5) && multiplicity3.const_eq(multiplicity6),
            _ => false,
        }
    }

    /// The neighborhood with the given first slot and the parts of
    /// `multiplicities` as the multiplicities of the slots from it on, if
    /// these are slots of the row.
    pub fn new(first_neighbor: u8, multiplicities: &StrongCompositionOfLengthAtMostThree) -> (r:
        Option<Self>)
        requires
            multiplicities.valid(),
            first_neighbor < 7,
        ensures
            r == interval(first_neighbor as int, *multiplicities),
            match r {
                Some(neighborhood) => neighborhood.wf() && total(neighborhood.tally()) <= 6,
                None => true,
            },
    {
        match multiplicities {
            StrongCompositionOfLengthAtMostThree::Empty => Some(
                NeighborhoodOfAtMostThreeConsecutiveElements::Empty,
            ),
            StrongCompositionOfLengthAtMostThree::One(
                multiplicity,
            ) => Some(
                NeighborhoodOfAtMostThreeConsecutiveElements::One(
                    first_neighbor,
                    Multiplicity(*multiplicity as u8),
                ),
            ),
            StrongCompositionOfLengthAtMostThree::Two(multiplicity1, multiplicity2) => {
                if first_neighbor >= 6 {
                    None
                } else {
                    Some(
                        NeighborhoodOfAtMostThreeConsecutiveElements::Two(
                            first_neighbor,
                            Multiplicity(*multiplicity1 as u8),
                            Multiplicity(*multiplicity2 as u8),
                        ),
                    )
                }
            },
            StrongCompositionOfLengthAtMostThree::Three(
                multiplicity1,
                multiplicity2,
                multiplicity3,
            ) => {
                if first_neighbor >= 5 {
                    None
                } else {
                    Some(
                        NeighborhoodOfAtMostThreeConsecutiveElements::Three(
                            first_neighbor,
                            Multiplicity(*multiplicity1 as u8),
                            Multiplicity(*multiplicity2 as u8),
                            Multiplicity(*multiplicity3 as u8),
                        ),
                    )
                }
            },
        }
    }

    /// The neighborhood with one more occurrence of `new_neighbor`, if its
    /// slots are then still at most three consecutive ones.
    pub fn plus(&self, new_neighbor: u8) -> (r: Option<Self>)
        requires
            self.wf(),
            new_neighbor < 7,
            total(self.tally()) < 255,
        ensures
            match r {
                Some(sum) => sum.wf() && sum.tally() == with_one_more(
                    self.tally(),
                    new_neighbor as int,
                ) && compact(sum.tally()) && gapless(sum.tally()),
                None => !(compact(with_one_more(self.tally(), new_neighbor as int)) && gapless(
                    with_one_more(self.tally(), new_neighbor as int),
                )),
            },
    {
        match self {
            NeighborhoodOfAtMostThreeConsecutiveElements::Empty => {
                let sum = NeighborhoodOfAtMostThreeConsecutiveElements::One(
                    new_neighbor,
                    Multiplicity(1),
                );
                assert(sum.tally() =~= with_one_more(self.tally(), new_neighbor as int));
                Some(sum)
            },
            NeighborhoodOfAtMostThreeConsecutiveElements::One(_, _) => self.one_plus(new_neighbor),
            NeighborhoodOfAtMostThreeConsecutiveElements::Two(_, _, _) => self.two_plus(
                new_neighbor,
            ),
            NeighborhoodOfAtMostThreeConsecutiveElements::Three(_, _, _, _) => self.three_plus(
                new_neighbor,
            ),
        }
    }

    #[verifier::rlimit(40)]
    fn one_plus(&self, new_neighbor: u8) -> (r: Option<Self>)
        requires
            self.wf(),
            new_neighbor < 7,
            total(self.tally()) < 255,
            *self is One,
        ensures
            match r {
                Some(sum) => sum.wf() && sum.tally() == with_one_more(
                    self.tally(),
                    new_neighbor as int,
                ) && compact(sum.tally()) && gapless(sum.tally()),
                None => !(compact(with_one_more(self.tally(), new_neighbor as int)) && gapless(
                    with_one_more(self.tally(), new_neighbor as int),
                )),
            },
    {
        match self {
            NeighborhoodOfAtMostThreeConsecutiveElements::One(neighbor, multiplicity) => {
                let neighbor = *neighbor;
                let multiplicity = multiplicity.0;
                if new_neighbor == neighbor {
                    let sum = NeighborhoodOfAtMostThreeConsecutiveElements::One(
                        neighbor,
                        Multiplicity(multiplicity + 1),
                    );
                    assert(sum.tally() =~= with_one_more(self.tally(), new_neighbor as int));
                    Some(sum)
                } else if new_neighbor == neighbor + 1 {
                    let sum = NeighborhoodOfAtMostThreeConsecutiveElements::Two(
                        neighbor,
                        Multiplicity(multiplicity),
                        Multiplicity(1),
                    );
                    assert(sum.tally() =~= with_one_more(self.tally(), new_neighbor as int));
                    Some(sum)
                } else if neighbor == new_neighbor + 1 {
                    let sum = NeighborhoodOfAtMostThreeConsecutiveElements::Two(
                        new_neighbor,
                        Multiplicity(1),
                        Multiplicity(multiplicity),
                    );
                    assert(sum.tally() =~= with_one_more(self.tally(), new_neighbor as int));
                    Some(sum)
                } else {
                    proof {
                        let c = with_one_more(self.tally(), new_neighbor as int);
                        if new_neighbor < neighbor {
                            assert(c[new_neighbor as int] > 0 && c[neighbor as int] > 0);
                            assert(c[new_neighbor + 1] == 0);
                        } else {
                            assert(c[new_neighbor as int] > 0 && c[neighbor as int] > 0);
                            assert(c[neighbor + 1] == 0);
                        }
                    }
                    None
                }
            },
            _ => None,
        }
    }

    #[verifier::rlimit(40)]
    fn two_plus(&self, new_neighbor: u8) -> (r: Option<Self>)
        requires
            self.wf(),
            new_neighbor < 7,
            total(self.tally()) < 255,
            *self is Two,
        ensures
            match r {
                Some(sum) => sum.wf() && sum.tally() == with_one_more(
                    self.tally(),
                    new_neighbor as int,
                ) && compact(sum.tally()) && gapless(sum.tally()),
                None => !(compact(with_one_more(self.tally(), new_neighbor as int)) && gapless(
                    with_one_more(self.tally(), new_neighbor as int),
                )),
            },
    {
        match self {
            NeighborhoodOfAtMostThreeConsecutiveElements::Two(
                neighbor,
                multiplicity1,
                multiplicity2,
            ) => {
                let neighbor = *neighbor;
                let multiplicity1 = multiplicity1.0;
                let multiplicity2 = multiplicity2.0;
                if new_neighbor == neighbor {
                    let sum = NeighborhoodOfAtMostThreeConsecutiveElements::Two(
                        neighbor,
                        Multiplicity(multiplicity1 + 1),
                        Multiplicity(multiplicity2),
                    );
                    assert(sum.tally() =~= with_one_more(self.tally(), new_neighbor as int));
                    Some(sum)
                } else if new_neighbor == neighbor + 1 {
                    let sum = NeighborhoodOfAtMostThreeConsecutiveElements::Two(
                        neighbor,
                        Multiplicity(multiplicity1),
                        Multiplicity(multiplicity2 + 1),
                    );
                    assert(sum.tally() =~= with_one_more(self.tally(), new_neighbor as int));
                    Some(sum)
                } else if new_neighbor == neighbor + 2 {
                    let sum = NeighborhoodOfAtMostThreeConsecutiveElements::Three(
                        neighbor,
                        Multiplicity(multiplicity1),
                        Multiplicity(multiplicity2),
                        Multiplicity(1),
                    );
                    assert(sum.tally() =~= with_one_more(self.tally(), new_neighbor as int));
                    Some(sum)
                } else if neighbor == new_neighbor + 1 {
                    let sum = NeighborhoodOfAtMostThreeConsecutiveElements::Three(
                        new_neighbor,
                        Multiplicity(1),
                        Multiplicity(multiplicity1),
                        Multiplicity(multiplicity2),
                    );
                    assert(sum.tally() =~= with_one_more(self.tally(), new_neighbor as int));
                    Some(sum)
                } else {
                    proof {
                        let c = with_one_more(self.tally(), new_neighbor as int);
                        assert(c[new_neighbor as int] > 0 && c[neighbor as int] > 0 && c[neighbor
                            + 1] > 0);
                    }
                    None
                }
            },
            _ => None,
        }
    }

    #[verifier::rlimit(40)]
    fn three_plus(&self, new_neighbor: u8) -> (r: Option<Self>)
        requires
            self.wf(),
            new_neighbor < 7,
            total(self.tally()) < 255,
            *self is Three,
        ensures
            match r {
                Some(sum) => sum.wf() && sum.tally() == with_one_more(
                    self.tally(),
                    new_neighbor as int,
                ) && compact(sum.tally()) && gapless(sum.tally()),
                None => !(compact(with_one_more(self.tally(), new_neighbor as int)) && gapless(
                    with_one_more(self.tally(), new_neighbor as int),
                )),
            },
    {
        match self {
            NeighborhoodOfAtMostThreeConsecutiveElements::Three(
                neighbor,
                multiplicity1,
                multiplicity2,
                multiplicity3,
            ) => {
                let neighbor = *neighbor;
                let multiplicity1 = multiplicity1.0;
                let multiplicity2 = multiplicity2.0;
                let multiplicity3 = multiplicity3.0;
                if new_neighbor == neighbor {
                    let sum = NeighborhoodOfAtMostThreeConsecutiveElements::Three(
                        neighbor,
                        Multiplicity(multiplicity1 + 1),
                        Multiplicity(multiplicity2),
                        Multiplicity(multiplicity3),
                    );
                    assert(sum.tally() =~= with_one_more(self.tally(), new_neighbor as int));
                    Some(sum)
                } else if new_neighbor == neighbor + 1 {
                    let sum = NeighborhoodOfAtMostThreeConsecutiveElements::Three(
                        neighbor,
                        Multiplicity(multiplicity1),
                        Multiplicity(multiplicity2 + 1),
                        Multiplicity(multiplicity3),
                    );
                    assert(sum.tally() =~= with_one_more(self.tally(), new_neighbor as int));
                    Some(sum)
                } else if new_neighbor == neighbor + 2 {
                    let sum = NeighborhoodOfAtMostThreeConsecutiveElements::Three(
                        neighbor,
                        Multiplicity(multiplicity1),
                        Multiplicity(multiplicity2),
                        Multiplicity(multiplicity3 + 1),
                    );
                    assert(sum.tally() =~= with_one_more(self.tally(), new_neighbor as int));
                    Some(sum)
                } else {
                    proof {
                        let c = with_one_more(self.tally(), new_neighbor as int);
                        assert(c[new_neighbor as int] > 0 && c[neighbor as int] > 0 && c[neighbor
                            + 2] > 0);
                    }
                    None
                }
            },
            _ => None,
        }
    }

    /// The multiplicity of every slot, as an array.
    pub fn counts(&self) -> (r: [usize; 7])
        requires
            self.wf(),
        ensures
            tally_in(r) == self.tally(),
    {
        let mut counts: [usize; 7] = [0, 0, 0, 0, 0, 0, 0];
        match self {
            NeighborhoodOfAtMostThreeConsecutiveElements::Empty => {},
            NeighborhoodOfAtMostThreeConsecutiveElements::One(a, m) => {
                counts[*a as usize] = m.0 as usize;
            },
            NeighborhoodOfAtMostThreeConsecutiveElements::Two(a, m1, m2) => {
                counts[*a as usize] = m1.0 as usize;
                counts[*a as usize + 1] = m2.0 as usize;
            },
            NeighborhoodOfAtMostThreeConsecutiveElements::Three(a, m1, m2, m3) => {
                counts[*a as usize] = m1.0 as usize;
                counts[*a as usize + 1] = m2.0 as usize;
                counts[*a as usize + 2] = m3.0 as usize;
            },
        }
        assert(tally_in(counts) =~= self.tally());
        counts
    }

    /// The neighborhood as text: the digits of its slots in ascending
    /// order, each as often as the slot occurs; nothing for the empty
    /// neighborhood.
    pub fn to_string(&self) -> (text: String)
        requires
            self.wf(),
        ensures
            text@ == digits_from(self.tally(), 0),
    {
        let counts = self.counts();
        let mut text = String::new();
        push_digits(&mut text, &counts);
        assert(text@ =~= digits_from(self.tally(), 0));
        text
    }
}

/// Once the empty composition has been met the table does not grow for
/// it, whatever the first slot.
pub proof fn lemma_empty_adds_nothing(ci: int, from: int, upto: int)
    requires
        0 <= ci <= 41,
        0 <= from <= upto <= 7,
        compositions()[ci] == StrongCompositionOfLengthAtMostThree::Empty,
    ensures
        intervals_before(ci, upto) == intervals_before(ci, from),
    decreases upto - from,
{
    reveal(intervals_before);
    if from < upto {
        lemma_empty_adds_nothing(ci, from, upto - 1);
    }
}

/// A neighborhood of consecutive slots as the list of its slots with their
/// multiplicities.
#[derive(Debug, Clone, Copy)]
pub enum NeighborhoodArray {
    Zero([(usize, usize); 0]),
    One([(usize, usize); 1]),
    Two([(usize, usize); 2]),
    Three([(usize, usize); 3]),
}

/// The list of the slots of a neighborhood of consecutive slots, each with
/// its multiplicity.
pub open spec fn listing(neighborhood: NeighborhoodOfAtMostThreeConsecutiveElements) -> Seq<
    (usize, usize),
> {
    match neighborhood {
        NeighborhoodOfAtMostThreeConsecutiveElements::Empty => seq![],
        NeighborhoodOfAtMostThreeConsecutiveElements::One(a, m) => seq![(a as usize, m.0 as usize)],
        NeighborhoodOfAtMostThreeConsecutiveElements::Two(a, m1, m2) => seq![
            (a as usize, m1.0 as usize),
            ((a + 1) as usize, m2.0 as usize),
        ],
        NeighborhoodOfAtMostThreeConsecutiveElements::Three(a, m1, m2, m3) => seq![
            (a as usize, m1.0 as usize),
            ((a + 1) as usize, m2.0 as usize),
            ((a + 2) as usize, m3.0 as usize),
        ],
    }
}

/// The listed slots are consecutive: each is the one after the slot listed
/// before it.
pub open spec fn consecutive(l: Seq<(usize, usize)>) -> bool {
    &&& l.len() >= 2 ==> l[1].0 == l[0].0 + 1
    &&& l.len() >= 3 ==> l[2].0 == l[1].0 + 1
}

impl NeighborhoodArray {
    /// The slots with their multiplicities as they are listed.
    pub open spec fn listed(&self) -> Seq<(usize, usize)> {
        match self {
            NeighborhoodArray::Zero(pairs) => pairs@,
            NeighborhoodArray::One(pairs) => pairs@,
            NeighborhoodArray::Two(pairs) => pairs@,
            NeighborhoodArray::Three(pairs) => pairs@,
        }
    }

    /// The multiplicity of every slot.
    pub open spec fn tally(&self) -> Seq<nat> {
        pairs_tally(self.listed())
    }

    /// The slots are consecutive slots of the row, and each occurs at
    /// least once.
    pub open spec fn wf(&self) -> bool {
        well_listed_pairs(self.listed()) && consecutive(self.listed())
    }

    /// Every neighborhood of consecutive slots with at most six edges, as
    /// a list.
    pub fn at_most_six() -> (all: Vec<Self>)
        ensures
            all@.len() == CONSECUTIVE_NEIGHBORHOODS,
            forall|k: int| 0 <= k < 233 ==> (#[trigger] all@[k]).listed() == listing(intervals()[k]),
            forall|k: int|
                0 <= k < 233 ==> (#[trigger] all@[k]).wf() && total(all@[k].tally()) <= 6,
    {
        let table = NeighborhoodOfAtMostThreeConsecutiveElements::at_most_six();
        let mut all: Vec<Self> = Vec::new();
        let mut i: usize = 0;
        while i < table.len()
            invariant
                i <= table@.len(),
                table@.len() == 233,
                table@ == intervals(),
                forall|k: int|
                    0 <= k < 233 ==> (#[trigger] table@[k]).wf() && total(table@[k].tally()) <= 6,
                all@.len() == i,
                forall|k: int| 0 <= k < i ==> (#[trigger] all@[k]).listed() == listing(
                    intervals()[k],
                ),
                forall|k: int|
                    0 <= k < i ==> (#[trigger] all@[k]).wf() && total(all@[k].tally()) <= 6,
            decreases table@.len() - i,
        {
            assert(table@[i as int].wf());
            all.push(Self::new(table[i]));
            i = i + 1;
        }
        all
    }

    /// The list of the slots of `neighborhood`, each with its
    /// multiplicity.
    pub fn new(neighborhood: NeighborhoodOfAtMostThreeConsecutiveElements) -> (r: Self)
        requires
            neighborhood.wf(),
        ensures
            r.wf(),
            r.listed() == listing(neighborhood),
            r.tally() == neighborhood.tally(),
    {
        match neighborhood {
            NeighborhoodOfAtMostThreeConsecutiveElements::Empty => {
                let r = NeighborhoodArray::Zero([]);
                assert(r.listed() =~= listing(neighborhood));
                r
            },
            NeighborhoodOfAtMostThreeConsecutiveElements::One(neighbor, multiplicity) => {
                let r = NeighborhoodArray::One([(neighbor as usize, multiplicity.0 as usize)]);
                assert(r.listed() =~= listing(neighborhood));
                assert(r.tally() =~= neighborhood.tally());
                r
            },
            NeighborhoodOfAtMostThreeConsecutiveElements::Two(
                neighbor1,
                multiplicity1,
                multiplicity2,
            ) => {
                let r = NeighborhoodArray::Two(
                    [
                        (neighbor1 as usize, multiplicity1.0 as usize),
                        (neighbor1 as usize + 1, multiplicity2.0 as usize),
                    ],
                );
                assert(r.listed() =~= listing(neighborhood));
                assert(r.tally() =~= neighborhood.tally());
                r
            },
            NeighborhoodOfAtMostThreeConsecutiveElements::Three(
                neighbor1,
                multiplicity1,
                multiplicity2,
                multiplicity3,
            ) => {
                let r = NeighborhoodArray::Three(
                    [
                        (neighbor1 as usize, multiplicity1.0 as usize),
                        (neighbor1 as usize + 1, multiplicity2.0 as usize),
                        (neighbor1 as usize + 2, multiplicity3.0 as usize),
                    ],
                );
                assert(r.listed() =~= listing(neighborhood));
                assert(r.tally() =~= neighborhood.tally());
                r
            },
        }
    }

    /// The slots with their multiplicities, in ascending order.
    pub fn slice(&self) -> (r: &[(usize, usize)])
        ensures
            r@ == self.listed(),
    {
        match self {
            NeighborhoodArray::Zero(pairs) => vstd::array::array_as_slice(pairs),
            NeighborhoodArray::One(pairs) => vstd::array::array_as_slice(pairs),
            NeighborhoodArray::Two(pairs) => vstd::array::array_as_slice(pairs),
            NeighborhoodArray::Three(pairs) => vstd::array::array_as_slice(pairs),
        }
    }

    /// The smallest slot.
    pub fn min(&self) -> (r: Option<&usize>)
        ensures
            match r {
                Some(v) => self.listed().len() > 0 && *v == self.listed()[0].0,
                None => self.listed().len() == 0,
            },
    {
        match self {
            NeighborhoodArray::Zero(_) => None,
            NeighborhoodArray::One(pairs) => Some(&pairs[0].0),
            NeighborhoodArray::Two(pairs) => Some(&pairs[0].0),
            NeighborhoodArray::Three(pairs) => Some(&pairs[0].0),
        }
    }

    /// The largest slot.
    pub fn max(&self) -> (r: Option<&usize>)
        ensures
            match r {
                Some(v) => self.listed().len() > 0 && *v == self.listed().last().0,
                None => self.listed().len() == 0,
            },
    {
        match self {
            NeighborhoodArray::Zero(_) => None,
            NeighborhoodArray::One(pairs) => Some(&pairs[0].0),
            NeighborhoodArray::Two(pairs) => Some(&pairs[1].0),
            NeighborhoodArray::Three(pairs) => Some(&pairs[2].0),
        }
    }

    /// The list with one more occurrence of `position`, if its slots are
    /// then still at most three consecutive ones.
    pub fn plus(&self, position: usize) -> (r: Option<Self>)
        requires
            self.wf(),
            position < 7,
            total(self.tally()) < usize::MAX,
        ensures
            match r {
                Some(sum) => sum.wf() && sum.tally() == with_one_more(self.tally(), position as int)
                    && compact(sum.tally()) && gapless(sum.tally()),
                None => !(compact(with_one_more(self.tally(), position as int)) && gapless(
                    with_one_more(self.tally(), position as int),
                )),
            },
    {
        match self {
            NeighborhoodArray::Zero(_) => {
                let sum = NeighborhoodArray::One([(position, 1)]);
                assert(sum.tally() =~= with_one_more(self.tally(), position as int));
                Some(sum)
            },
            NeighborhoodArray::One(_) => self.one_plus(position),
            NeighborhoodArray::Two(_) => self.two_plus(position),
            NeighborhoodArray::Three(_) => self.three_plus(position),
        }
    }

    #[verifier::rlimit(40)]
    fn one_plus(&self, position: usize) -> (r: Option<Self>)
        requires
            self.wf(),
            position < 7,
            total(self.tally()) < usize::MAX,
            *self is One,
        ensures
            match r {
                Some(sum) => sum.wf() && sum.tally() == with_one_more(self.tally(), position as int)
                    && compact(sum.tally()) && gapless(sum.tally()),
                None => !(compact(with_one_more(self.tally(), position as int)) && gapless(
                    with_one_more(self.tally(), position as int),
                )),
            },
    {
        match self {
            NeighborhoodArray::One(pairs) => {
                let (a, mult) = pairs[0];
                if position == a {
                    let sum = NeighborhoodArray::One([(a, mult + 1)]);
                    assert(sum.tally() =~= with_one_more(self.tally(), position as int));
                    Some(sum)
                } else if position == a + 1 {
                    let sum = NeighborhoodArray::Two([(a, mult), (position, 1)]);
                    assert(sum.tally() =~= with_one_more(self.tally(), position as int));
                    Some(sum)
                } else if a == position + 1 {
                    let sum = NeighborhoodArray::Two([(position, 1), (a, mult)]);
                    assert(sum.tally() =~= with_one_more(self.tally(), position as int));
                    Some(sum)
                } else {
                    proof {
                        let c = with_one_more(self.tally(), position as int);
                        assert(c[position as int] > 0 && c[a as int] > 0);
                        if position < a {
                            assert(c[position + 1] == 0);
                        } else {
                            assert(c[a + 1] == 0);
                        }
                    }
                    None
                }
            },
            _ => None,
        }
    }

    #[verifier::rlimit(40)]
    fn two_plus(&self, position: usize) -> (r: Option<Self>)
        requires
            self.wf(),
            position < 7,
            total(self.tally()) < usize::MAX,
            *self is Two,
        ensures
            match r {
                Some(sum) => sum.wf() && sum.tally() == with_one_more(self.tally(), position as int)
                    && compact(sum.tally()) && gapless(sum.tally()),
                None => !(compact(with_one_more(self.tally(), position as int)) && gapless(
                    with_one_more(self.tally(), position as int),
                )),
            },
    {
        match self {
            NeighborhoodArray::Two(pairs) => {
                let (a, m_a) = pairs[0];
                let (b, m_b) = pairs[1];
                if b != a + 1 {
                    None
                } else if position == a {
                    let sum = NeighborhoodArray::Two([(a, m_a + 1), (b, m_b)]);
                    assert(sum.tally() =~= with_one_more(self.tally(), position as int));
                    Some(sum)
                } else if position == b {
                    let sum = NeighborhoodArray::Two([(a, m_a), (b, m_b + 1)]);
                    assert(sum.tally() =~= with_one_more(self.tally(), position as int));
                    Some(sum)
                } else if position == b + 1 {
                    let sum = NeighborhoodArray::Three([(a, m_a), (b, m_b), (b + 1, 1)]);
                    assert(sum.tally() =~= with_one_more(self.tally(), position as int));
                    Some(sum)
                } else if a == position + 1 {
                    let sum = NeighborhoodArray::Three([(position, 1), (a, m_a), (b, m_b)]);
                    assert(sum.tally() =~= with_one_more(self.tally(), position as int));
                    Some(sum)
                } else {
                    proof {
                        let c = with_one_more(self.tally(), position as int);
                        assert(c[position as int] > 0 && c[a as int] > 0 && c[b as int] > 0);
                    }
                    None
                }
            },
            _ => None,
        }
    }

    #[verifier::rlimit(40)]
    fn three_plus(&self, position: usize) -> (r: Option<Self>)
        requires
            self.wf(),
            position < 7,
            total(self.tally()) < usize::MAX,
            *self is Three,
        ensures
            match r {
                Some(sum) => sum.wf() && sum.tally() == with_one_more(self.tally(), position as int)
                    && compact(sum.tally()) && gapless(sum.tally()),
                None => !(compact(with_one_more(self.tally(), position as int)) && gapless(
                    with_one_more(self.tally(), position as int),
                )),
            },
    {
        match self {
            NeighborhoodArray::Three(pairs) => {
                let (a, m_a) = pairs[0];
                let (b, m_b) = pairs[1];
                let (c, m_c) = pairs[2];
                if !(b == a + 1 && c == b + 1) {
                    None
                } else if position == a {
                    let sum = NeighborhoodArray::Three([(a, m_a + 1), (b, m_b), (c, m_c)]);
                    assert(sum.tally() =~= with_one_more(self.tally(), position as int));
                    Some(sum)
                } else if position == b {
                    let sum = NeighborhoodArray::Three([(a, m_a), (b, m_b + 1), (c, m_c)]);
                    assert(sum.tally() =~= with_one_more(self.tally(), position as int));
                    Some(sum)
                } else if position == c {
                    let sum = NeighborhoodArray::Three([(a, m_a), (b, m_b), (c, m_c + 1)]);
                    assert(sum.tally() =~= with_one_more(self.tally(), position as int));
                    Some(sum)
                } else {
                    proof {
                        let t = with_one_more(self.tally(), position as int);
                        assert(t[position as int] > 0 && t[a as int] > 0 && t[c as int] > 0);
                    }
                    None
                }
            },
            _ => None,
        }
    }

    /// Whether the two list the same slots with the same multiplicities.
    pub fn const_eq(&self, other: &Self) -> (r: bool)
        ensures
            r == (self.listed() == other.listed()),
    {
        let a = self.slice();
        let b = other.slice();
        if a.len() != b.len() {
            return false;
        }
        let mut i: usize = 0;
        while i < a.len()
            invariant
                i <= a@.len(),
                a@.len() == b@.len(),
                a@ == self.listed(),
                b@ == other.listed(),
                forall|j: int| 0 <= j < i ==> a@[j] == b@[j],
            decreases a@.len() - i,
        {
            if a[i].0 != b[i].0 || a[i].1 != b[i].1 {
                return false;
            }
            i = i + 1;
        }
        assert(a@ =~= b@);
        true
    }

    /// The multiplicity of every slot, as an array.
    pub fn counts(&self) -> (r: [usize; 7])
        requires
            self.wf(),
        ensures
            tally_in(r) == self.tally(),
    {
        let mut counts: [usize; 7] = [0, 0, 0, 0, 0, 0, 0];
        match self {
            NeighborhoodArray::Zero(_) => {},
            NeighborhoodArray::One(pairs) => {
                counts[pairs[0].0] = pairs[0].1;
            },
            NeighborhoodArray::Two(pairs) => {
                counts[pairs[0].0] = pairs[0].1;
                counts[pairs[1].0] = pairs[1].1;
            },
            NeighborhoodArray::Three(pairs) => {
                counts[pairs[0].0] = pairs[0].1;
                counts[pairs[1].0] = pairs[1].1;
                counts[pairs[2].0] = pairs[2].1;
            },
        }
        assert(tally_in(counts) =~= self.tally());
        counts
    }

    /// The neighborhood as text: `[]` when empty, else the digits of its
    /// slots in ascending order, each as often as the slot occurs.
    pub fn to_string(&self) -> (text: String)
        requires
            self.wf(),
        ensures
            text@ == in_rendering(self.tally()),
    {
        let counts = self.counts();
        let mut text = String::new();
        if crate::map::slots::none_occupied(&counts) {
            push_char(&mut text, '[');
            push_char(&mut text, ']');
            assert(text@ =~= seq!['[', ']']);
        } else {
            push_digits(&mut text, &counts);
            assert(text@ =~= in_rendering(self.tally()));
        }
        text
    }
}

} // verus!
