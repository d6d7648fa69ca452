//! Out-neighborhoods reduced to what the clamp of a path reads: the
//! smallest and the largest member.

use vstd::prelude::*;

verus! {

/// The span of a set of slots: nothing, one slot, or the smallest and the
/// largest of several.
#[derive(Debug, Clone, Copy, PartialEq, Eq, Structural)]
pub enum Interval {
    Zero,
    One(usize),
    Two(usize, usize),
}

/// The smallest and the largest slot of a span, if it has any.
pub open spec fn ends(interval: Interval) -> Option<(int, int)> {
    match interval {
        Interval::Zero => None,
        Interval::One(a) => Some((a as int, a as int)),
        Interval::Two(a, b) => Some((a as int, b as int)),
    }
}

/// The ends of a span widened to hold `next`.
pub open spec fn widened(span: Option<(int, int)>, next: int) -> Option<(int, int)> {
    match span {
        None => Some((next, next)),
        Some((a, b)) => Some(
            (
                if next < a {
                    next
                } else {
                    a
                },
                if next > b {
                    next
                } else {
                    b
                },
            ),
        ),
    }
}

impl Interval {
    /// A span of several slots has its smaller end first.
    pub open spec fn wf(&self) -> bool {
        match self {
            Interval::Two(a, b) => *a < *b,
            _ => true,
        }
    }

    /// The span widened to hold `next`.
    pub fn plus(&self, next: usize) -> (sum: Interval)
        requires
            self.wf(),
        ensures
            sum.wf(),
            ends(sum) == widened(ends(*self), next as int),
    {
        match self {
            Interval::Zero => Interval::One(next),
            Interval::One(a) => if next < *a {
                Interval::Two(next, *a)
            } else if next == *a {
                Interval::One(*a)
            } else {
                Interval::Two(*a, next)
            },
            Interval::Two(a, b) => if next < *a {
                Interval::Two(next, *b)
            } else if next == *a {
                Interval::Two(*a, *b)
            } else if next > *b {
                Interval::Two(*a, next)
            } else {
                Interval::Two(*a, *b)
            },
        }
    }

    /// The smallest slot.
    pub fn min(&self) -> (r: Option<usize>)
        ensures
            match r {
                Some(a) => ends(*self) matches Some((low, high)) && low == a,
                None => ends(*self) is None,
            },
    {
        match self {
            Interval::Zero => None,
            Interval::One(a) => Some(*a),
            Interval::Two(a, _) => Some(*a),
        }
    }

    /// The largest slot.
    pub fn max(&self) -> (r: Option<usize>)
        ensures
            match r {
                Some(b) => ends(*self) matches Some((low, high)) && high == b,
                None => ends(*self) is None,
            },
    {
        match self {
            Interval::Zero => None,
            Interval::One(a) => Some(*a),
            Interval::Two(_, b) => Some(*b),
        }
    }
}

} // verus!
