//! The ways to split a number of at most six edges among one, two or
//! three slots, each slot with at least one edge.

use vstd::prelude::*;

verus! {

/// The multiplicities of the slots of a neighborhood with at most three
/// slots.
#[derive(Debug, Clone, Copy, PartialEq, Eq, Structural)]
pub enum StrongCompositionOfLengthAtMostThree {
    Empty,
    One(usize),
    Two(usize, usize),
    Three(usize, usize, usize),
}

/// Number of compositions of the numbers up to six with at most three
/// parts.
pub const COMPOSITIONS: usize = 42;

/// Every composition of a number up to six with at most three parts:
/// those of 0 first, those of 6 last; among those of one number, those of
/// three parts first.
pub open spec fn compositions() -> Seq<StrongCompositionOfLengthAtMostThree> {
    seq![
        StrongCompositionOfLengthAtMostThree::Empty,
        StrongCompositionOfLengthAtMostThree::One(1),
        StrongCompositionOfLengthAtMostThree::Two(1, 1),
        StrongCompositionOfLengthAtMostThree::One(2),
        StrongCompositionOfLengthAtMostThree::Three(1, 1, 1),
        StrongCompositionOfLengthAtMostThree::Two(1, 2),
        StrongCompositionOfLengthAtMostThree::Two(2, 1),
        StrongCompositionOfLengthAtMostThree::One(3),
        StrongCompositionOfLengthAtMostThree::Three(1, 1, 2),
        StrongCompositionOfLengthAtMostThree::Three(1, 2, 1),
        StrongCompositionOfLengthAtMostThree::Three(2, 1, 1),
        StrongCompositionOfLengthAtMostThree::Two(2, 2),
        StrongCompositionOfLengthAtMostThree::Two(1, 3),
        StrongCompositionOfLengthAtMostThree::Two(3, 1),
        StrongCompositionOfLengthAtMostThree::One(4),
        StrongCompositionOfLengthAtMostThree::Three(1, 2, 2),
        StrongCompositionOfLengthAtMostThree::Three(2, 1, 2),
        StrongCompositionOfLengthAtMostThree::Three(2, 2, 1),
        StrongCompositionOfLengthAtMostThree::Three(1, 1, 3),
        StrongCompositionOfLengthAtMostThree::Three(1, 3, 1),
        StrongCompositionOfLengthAtMostThree::Three(3, 1, 1),
        StrongCompositionOfLengthAtMostThree::Two(2, 3),
        StrongCompositionOfLengthAtMostThree::Two(3, 2),
        StrongCompositionOfLengthAtMostThree::Two(1, 4),
        StrongCompositionOfLengthAtMostThree::Two(4, 1),
        StrongCompositionOfLengthAtMostThree::One(5),
        StrongCompositionOfLengthAtMostThree::Three(2, 2, 2),
        StrongCompositionOfLengthAtMostThree::Three(1, 2, 3),
        StrongCompositionOfLengthAtMostThree::Three(1, 3, 2),
        StrongCompositionOfLengthAtMostThree::Three(2, 1, 3),
        StrongCompositionOfLengthAtMostThree::Three(2, 3, 1),
        StrongCompositionOfLengthAtMostThree::Three(3, 1, 2),
        StrongCompositionOfLengthAtMostThree::Three(3, 2, 1),
        StrongCompositionOfLengthAtMostThree::Three(1, 1, 4),
        StrongCompositionOfLengthAtMostThree::Three(1, 4, 1),
        StrongCompositionOfLengthAtMostThree::Three(4, 1, 1),
        StrongCompositionOfLengthAtMostThree::Two(3, 3),
        StrongCompositionOfLengthAtMostThree::Two(2, 4),
        StrongCompositionOfLengthAtMostThree::Two(4, 2),
        StrongCompositionOfLengthAtMostThree::Two(1, 5),
        StrongCompositionOfLengthAtMostThree::Two(5, 1),
        StrongCompositionOfLengthAtMostThree::One(6),
    ]
}

impl StrongCompositionOfLengthAtMostThree {
    /// Number of parts.
    pub open spec fn arity(self) -> int {
        match self {
            StrongCompositionOfLengthAtMostThree::Empty => 0,
            StrongCompositionOfLengthAtMostThree::One(_) => 1,
            StrongCompositionOfLengthAtMostThree::Two(_, _) => 2,
            StrongCompositionOfLengthAtMostThree::Three(_, _, _) => 3,
        }
    }

    /// The sum of the parts.
    pub open spec fn sum(self) -> int {
        match self {
            StrongCompositionOfLengthAtMostThree::Empty => 0,
            StrongCompositionOfLengthAtMostThree::One(x) => x as int,
            StrongCompositionOfLengthAtMostThree::Two(x, y) => x + y,
            StrongCompositionOfLengthAtMostThree::Three(x, y, z) => x + y + z,
        }
    }

    /// Every part is at least 1 and the sum is at most 6.
    pub open spec fn valid(self) -> bool {
        match self {
            StrongCompositionOfLengthAtMostThree::Empty => true,
            StrongCompositionOfLengthAtMostThree::One(x) => 1 <= x <= 6,
            StrongCompositionOfLengthAtMostThree::Two(x, y) => 1 <= x && 1 <= y && x + y <= 6,
            StrongCompositionOfLengthAtMostThree::Three(x, y, z) => 1 <= x && 1 <= y && 1 <= z && x
                + y + z <= 6,
        }
    }

    /// Every composition of a number up to six with at most three parts.
    pub fn compositions_of_six() -> (all: [Self; 42])
        ensures
            all@ == compositions(),
    {
        let all = [
        StrongCompositionOfLengthAtMostThree::Empty,
        StrongCompositionOfLengthAtMostThree::One(1),
        StrongCompositionOfLengthAtMostThree::Two(1, 1),
        StrongCompositionOfLengthAtMostThree::One(2),
        StrongCompositionOfLengthAtMostThree::Three(1, 1, 1),
        StrongCompositionOfLengthAtMostThree::Two(1, 2),
        StrongCompositionOfLengthAtMostThree::Two(2, 1),
        StrongCompositionOfLengthAtMostThree::One(3),
        StrongCompositionOfLengthAtMostThree::Three(1, 1, 2),
        StrongCompositionOfLengthAtMostThree::Three(1, 2, 1),
        StrongCompositionOfLengthAtMostThree::Three(2, 1, 1),
        StrongCompositionOfLengthAtMostThree::Two(2, 2),
        StrongCompositionOfLengthAtMostThree::Two(1, 3),
        StrongCompositionOfLengthAtMostThree::Two(3, 1),
        StrongCompositionOfLengthAtMostThree::One(4),
        StrongCompositionOfLengthAtMostThree::Three(1, 2, 2),
        StrongCompositionOfLengthAtMostThree::Three(2, 1, 2),
        StrongCompositionOfLengthAtMostThree::Three(2, 2, 1),
        StrongCompositionOfLengthAtMostThree::Three(1, 1, 3),
        StrongCompositionOfLengthAtMostThree::Three(1, 3, 1),
        StrongCompositionOfLengthAtMostThree::Three(3, 1, 1),
        StrongCompositionOfLengthAtMostThree::Two(2, 3),
        StrongCompositionOfLengthAtMostThree::Two(3, 2),
        StrongCompositionOfLengthAtMostThree::Two(1, 4),
        StrongCompositionOfLengthAtMostThree::Two(4, 1),
        StrongCompositionOfLengthAtMostThree::One(5),
        StrongCompositionOfLengthAtMostThree::Three(2, 2, 2),
        StrongCompositionOfLengthAtMostThree::Three(1, 2, 3),
        StrongCompositionOfLengthAtMostThree::Three(1, 3, 2),
        StrongCompositionOfLengthAtMostThree::Three(2, 1, 3),
        StrongCompositionOfLengthAtMostThree::Three(2, 3, 1),
        StrongCompositionOfLengthAtMostThree::Three(3, 1, 2),
        StrongCompositionOfLengthAtMostThree::Three(3, 2, 1),
        StrongCompositionOfLengthAtMostThree::Three(1, 1, 4),
        StrongCompositionOfLengthAtMostThree::Three(1, 4, 1),
        StrongCompositionOfLengthAtMostThree::Three(4, 1, 1),
        StrongCompositionOfLengthAtMostThree::Two(3, 3),
        StrongCompositionOfLengthAtMostThree::Two(2, 4),
        StrongCompositionOfLengthAtMostThree::Two(4, 2),
        StrongCompositionOfLengthAtMostThree::Two(1, 5),
        StrongCompositionOfLengthAtMostThree::Two(5, 1),
        StrongCompositionOfLengthAtMostThree::One(6),
        ];
        assert(all@ =~= compositions());
        all
    }
}

/// The index of a composition in the list of compositions.
pub open spec fn composition_rank(composition: StrongCompositionOfLengthAtMostThree) -> int {
    match composition {
        StrongCompositionOfLengthAtMostThree::Empty => 0,
        StrongCompositionOfLengthAtMostThree::One(x) => {
            if x == 1 {
                    1
                } else if x == 2 {
                    3
                } else if x == 3 {
                    7
                } else if x == 4 {
                    14
                } else if x == 5 {
                    25
                } else {
                    41
                }
        },
        StrongCompositionOfLengthAtMostThree::Two(x, y) => {
            if x == 1 && y == 1 {
                    2
                } else if x == 1 && y == 2 {
                    5
                } else if x == 1 && y == 3 {
                    12
                } else if x == 1 && y == 4 {
                    23
                } else if x == 1 && y == 5 {
                    39
                } else if x == 2 && y == 1 {
                    6
                } else if x == 2 && y == 2 {
                    11
                } else if x == 2 && y == 3 {
                    21
                } else if x == 2 && y == 4 {
                    37
                } else if x == 3 && y == 1 {
                    13
                } else if x == 3 && y == 2 {
                    22
                } else if x == 3 && y == 3 {
                    36
                } else if x == 4 && y == 1 {
                    24
                } else if x == 4 && y == 2 {
                    38
                } else {
                    40
                }
        },
        StrongCompositionOfLengthAtMostThree::Three(x, y, z) => {
            if x == 1 && y == 1 && z == 1 {
                    4
                } else if x == 1 && y == 1 && z == 2 {
                    8
                } else if x == 1 && y == 1 && z == 3 {
                    18
                } else if x == 1 && y == 1 && z == 4 {
                    33
                } else if x == 1 && y == 2 && z == 1 {
                    9
                } else if x == 1 && y == 2 && z == 2 {
                    15
                } else if x == 1 && y == 2 && z == 3 {
                    27
                } else if x == 1 && y == 3 && z == 1 {
                    19
                } else if x == 1 && y == 3 && z == 2 {
                    28
                } else if x == 1 && y == 4 && z == 1 {
                    34
                } else if x == 2 && y == 1 && z == 1 {
                    10
                } else if x == 2 && y == 1 && z == 2 {
                    16
                } else if x == 2 && y == 1 && z == 3 {
                    29
                } else if x == 2 && y == 2 && z == 1 {
                    17
                } else if x == 2 && y == 2 && z == 2 {
                    26
                } else if x == 2 && y == 3 && z == 1 {
                    30
                } else if x == 3 && y == 1 && z == 1 {
                    20
                } else if x == 3 && y == 1 && z == 2 {
                    31
                } else if x == 3 && y == 2 && z == 1 {
                    32
                } else {
                    35
                }
        },
    }
}

/// Every composition of a number up to six with at most three parts stands
/// in the list, at the index that is its rank.
pub proof fn lemma_composition_rank(composition: StrongCompositionOfLengthAtMostThree)
    requires
        composition.valid(),
    ensures
        0 <= composition_rank(composition) < 42,
        compositions()[composition_rank(composition)] == composition,
{
}

/// The rank of a composition of the list is its index.
pub proof fn lemma_rank_of_listed(ci: int)
    requires
        0 <= ci < 42,
    ensures
        composition_rank(compositions()[ci]) == ci,
{
}

} // verus!
