//! The spans of the sets of slots of a row, numbered, with tables for the
//! widening of a span and for its ends.

use vstd::prelude::*;

verus! {

/// The number of a span.
#[derive(Debug, PartialEq, Eq, PartialOrd, Ord, Clone, Copy)]
pub struct OutByte(pub u8);

/// Number of spans of the sets of slots of a row.
pub const SPANS: usize = 29;

/// The span of a set of slots of a row: nothing, one slot, or the smallest
/// and the largest of several.
#[derive(Debug, Clone, Copy, PartialEq, Eq, Structural)]
pub enum IntervalHelper {
    Zero,
    One(u8),
    Two(u8, u8),
}

/// Number of pairs of slots below slot `b`: the sum of the numbers below
/// `b`.
pub open spec fn pairs_below(b: int) -> int {
    if b <= 0 {
        0
    } else if b == 1 {
        0
    } else if b == 2 {
        1
    } else if b == 3 {
        3
    } else if b == 4 {
        6
    } else if b == 5 {
        10
    } else {
        15
    }
}

/// The number of a span: 0 for the empty one, then the spans of one slot
/// by that slot, then the spans of several by their larger end and, among
/// those with the same larger end, by their smaller end.
pub open spec fn number(interval: IntervalHelper) -> int {
    match interval {
        IntervalHelper::Zero => 0,
        IntervalHelper::One(a) => a + 1,
        IntervalHelper::Two(a, b) => 8 + pairs_below(b as int) + a,
    }
}

/// The span after a span in the order of their numbers; none after the
/// last.
pub open spec fn successor(interval: IntervalHelper) -> Option<IntervalHelper> {
    match interval {
        IntervalHelper::Zero => Some(IntervalHelper::One(0)),
        IntervalHelper::One(a) => if a == 6 {
            Some(IntervalHelper::Two(0, 1))
        } else {
            Some(IntervalHelper::One((a + 1) as u8))
        },
        IntervalHelper::Two(a, b) => if b == a + 1 {
            if b == 6 {
                None
            } else {
                Some(IntervalHelper::Two(0, (b + 1) as u8))
            }
        } else {
            Some(IntervalHelper::Two((a + 1) as u8, b))
        },
    }
}

/// The span widened to hold `next`.
pub open spec fn widened(interval: IntervalHelper, next: int) -> IntervalHelper {
    match interval {
        IntervalHelper::Zero => IntervalHelper::One(next as u8),
        IntervalHelper::One(a) => if next < a {
            IntervalHelper::Two(next as u8, a)
        } else if next == a {
            IntervalHelper::One(a)
        } else {
            IntervalHelper::Two(a, next as u8)
        },
        IntervalHelper::Two(a, b) => if next < a {
            IntervalHelper::Two(next as u8, b)
        } else if next > b {
            IntervalHelper::Two(a, next as u8)
        } else {
            IntervalHelper::Two(a, b)
        },
    }
}

/// The span with a given number.
pub open spec fn span_at(index: int) -> IntervalHelper
    decreases index,
{
    if index <= 0 {
        IntervalHelper::Zero
    } else {
        match successor(span_at(index - 1)) {
            Some(next) => next,
            None => IntervalHelper::Zero,
        }
    }
}

/// The smallest slot of a span.
pub open spec fn low(interval: IntervalHelper) -> Option<u8> {
    match interval {
        IntervalHelper::Zero => None,
        IntervalHelper::One(a) => Some(a),
        IntervalHelper::Two(a, _) => Some(a),
    }
}

/// The largest slot of a span.
pub open spec fn high(interval: IntervalHelper) -> Option<u8> {
    match interval {
        IntervalHelper::Zero => None,
        IntervalHelper::One(a) => Some(a),
        IntervalHelper::Two(_, b) => Some(b),
    }
}

impl IntervalHelper {
    /// The slots are slots of the row, and a span of several slots has its
    /// smaller end first.
    pub open spec fn wf(&self) -> bool {
        match self {
            IntervalHelper::Zero => true,
            IntervalHelper::One(a) => *a < 7,
            IntervalHelper::Two(a, b) => *a < *b && *b < 7,
        }
    }

    /// The span widened to hold `next`.
    pub fn plus(&self, next: usize) -> (sum: IntervalHelper)
        requires
            self.wf(),
            next < 7,
        ensures
            sum.wf(),
            sum == widened(*self, next as int),
    {
        let next = next as u8;
        match self {
            IntervalHelper::Zero => IntervalHelper::One(next),
            IntervalHelper::One(a) => if next < *a {
                IntervalHelper::Two(next, *a)
            } else if next == *a {
                IntervalHelper::One(*a)
            } else {
                IntervalHelper::Two(*a, next)
            },
            IntervalHelper::Two(a, b) => if next < *a {
                IntervalHelper::Two(next, *b)
            } else if next > *b {
                IntervalHelper::Two(*a, next)
            } else {
                IntervalHelper::Two(*a, *b)
            },
        }
    }

    /// The span after this one in the order of their numbers; none after
    /// the last.
    pub fn next(&self) -> (r: Option<IntervalHelper>)
        requires
            self.wf(),
        ensures
            r == successor(*self),
            match r {
                Some(next) => next.wf() && number(next) == number(*self) + 1,
                None => number(*self) == 28,
            },
    {
        match self {
            IntervalHelper::Zero => Some(IntervalHelper::One(0)),
            IntervalHelper::One(a) => {
                if *a == 6 {
                    Some(IntervalHelper::Two(0, 1))
                } else {
                    Some(IntervalHelper::One(*a + 1))
                }
            },
            IntervalHelper::Two(a, b) => {
                let a = *a;
                let b = *b;
                if b == a + 1 {
                    if b == 6 {
                        None
                    } else {
                        Some(IntervalHelper::Two(0, b + 1))
                    }
                } else {
                    Some(IntervalHelper::Two(a + 1, b))
                }
            },
        }
    }

    /// The number of the span.
    pub fn index(&self) -> (r: u8)
        requires
            self.wf(),
        ensures
            r == number(*self),
            r < 29,
    {
        match self {
            IntervalHelper::Zero => 0,
            IntervalHelper::One(a) => *a + 1,
            IntervalHelper::Two(a, b) => {
                let a = *a;
                let b = *b;
                let b_plus_1 = b + 1;
                assert(b_plus_1 * b / 2 == pairs_below(b as int) + b) by {
                    if b == 1 {
                        assert(b_plus_1 * b == 2);
                    } else if b == 2 {
                        assert(b_plus_1 * b == 6);
                    } else if b == 3 {
                        assert(b_plus_1 * b == 12);
                    } else if b == 4 {
                        assert(b_plus_1 * b == 20);
                    } else if b == 5 {
                        assert(b_plus_1 * b == 30);
                    } else {
                        assert(b == 6);
                        assert(b_plus_1 == 7);
                        assert(b_plus_1 * b == 42);
                    }
                }
                let b_plus_1_choose_2 = (b_plus_1 * b) / 2;
                let b_minus_a = b - a;
                8 + (b_plus_1_choose_2 - b_minus_a)
            },
        }
    }

    /// The smallest slot.
    pub fn min(&self) -> (r: Option<u8>)
        ensures
            r == low(*self),
    {
        match self {
            IntervalHelper::Zero => None,
            IntervalHelper::One(a) => Some(*a),
            IntervalHelper::Two(a, _) => Some(*a),
        }
    }

    /// The largest slot.
    pub fn max(&self) -> (r: Option<u8>)
        ensures
            r == high(*self),
    {
        match self {
            IntervalHelper::Zero => None,
            IntervalHelper::One(a) => Some(*a),
            IntervalHelper::Two(_, b) => Some(*b),
        }
    }
}

impl OutByte {
    /// For every span and every slot, the number of the span widened to
    /// hold the slot.
    pub fn push_table() -> (table: [[OutByte; 7]; 29])
        ensures
            forall|i: int, j: int|
                0 <= i < 29 && 0 <= j < 7 ==> (#[trigger] table[i][j]).0 == number(
                    widened(span_at(i), j),
                ),
    {
        let mut table: [[OutByte; 7]; 29] = [[OutByte(0); 7]; 29];
        let mut interval = IntervalHelper::Zero;
        let mut i: usize = 0;
        while i < 29
            invariant
                i <= 29,
                interval.wf(),
                i < 29 ==> interval == span_at(i as int) && number(interval) == i,
                forall|a: int, j: int|
                    0 <= a < i && 0 <= j < 7 ==> (#[trigger] table[a][j]).0 == number(
                        widened(span_at(a), j),
                    ),
            decreases 29 - i,
        {
            let mut row: [OutByte; 7] = [OutByte(0); 7];
            let mut j: usize = 0;
            while j < 7
                invariant
                    j <= 7,
                    interval.wf(),
                    forall|v: int| 0 <= v < j ==> (#[trigger] row[v]).0 == number(
                        widened(interval, v),
                    ),
                decreases 7 - j,
            {
                let sum = interval.plus(j);
                row[j] = OutByte(sum.index());
                j = j + 1;
            }
            table[i] = row;
            interval = match interval.next() {
                Some(next) => next,
                None => IntervalHelper::Zero,
            };
            i = i + 1;
        }
        table
    }

    /// For every span, its largest slot.
    pub fn max_table() -> (table: [Option<u8>; 29])
        ensures
            forall|i: int| 0 <= i < 29 ==> #[trigger] table[i] == high(span_at(i)),
    {
        let mut table: [Option<u8>; 29] = [None; 29];
        let mut interval = IntervalHelper::Zero;
        let mut i: usize = 0;
        while i < 29
            invariant
                i <= 29,
                interval.wf(),
                i < 29 ==> interval == span_at(i as int) && number(interval) == i,
                forall|a: int| 0 <= a < i ==> #[trigger] table[a] == high(span_at(a)),
            decreases 29 - i,
        {
            table[i] = interval.max();
            interval = match interval.next() {
                Some(next) => next,
                None => IntervalHelper::Zero,
            };
            i = i + 1;
        }
        table
    }

    /// For every span, its smallest slot.
    pub fn min_table() -> (table: [Option<u8>; 29])
        ensures
            forall|i: int| 0 <= i < 29 ==> #[trigger] table[i] == low(span_at(i)),
    {
        let mut table: [Option<u8>; 29] = [None; 29];
        let mut interval = IntervalHelper::Zero;
        let mut i: usize = 0;
        while i < 29
            invariant
                i <= 29,
                interval.wf(),
                i < 29 ==> interval == span_at(i as int) && number(interval) == i,
                forall|a: int| 0 <= a < i ==> #[trigger] table[a] == low(span_at(a)),
            decreases 29 - i,
        {
            table[i] = interval.min();
            interval = match interval.next() {
                Some(next) => next,
                None => IntervalHelper::Zero,
            };
            i = i + 1;
        }
        table
    }
}

} // verus!
