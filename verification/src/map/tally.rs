//! The mathematical model of a neighborhood.
//!
//! A neighborhood is a multiset of slots of one row. Its model is the
//! sequence of the seven multiplicities, one per slot; an out-neighborhood
//! is the special case in which every multiplicity is 0 or 1. Every
//! representation of a neighborhood states its contracts over this model.

use vstd::prelude::*;

verus! {

/// Number of slots in a row.
pub const WIDTH: usize = 7;

/// The rightmost slot of a row.
pub const LAST_POSITION: usize = 6;

/// Number of rows of a map.
pub const HEIGHT: usize = 15;

/// The row of the rest sites: the last one.
pub const REST_ROW: usize = 14;

/// The row below the rest sites.
pub const BEFORE_REST_ROW: usize = 13;

/// The row of the treasure rooms.
pub const TREASURE_ROW: usize = 8;

/// Number of paths drawn through a map, hence the most edges that can meet
/// in one node.
pub const PATHS: usize = 6;

/// A sequence of multiplicities has one entry per slot.
pub open spec fn is_tally(c: Seq<nat>) -> bool {
    c.len() == WIDTH
}

/// The model of the empty neighborhood.
pub open spec fn no_neighbors() -> Seq<nat> {
    seq![0nat, 0nat, 0nat, 0nat, 0nat, 0nat, 0nat]
}

/// Number of neighbors, counted with multiplicity.
pub open spec fn total(c: Seq<nat>) -> nat {
    c[0] + c[1] + c[2] + c[3] + c[4] + c[5] + c[6]
}

/// The smallest occupied slot, if there is one.
pub open spec fn lowest(c: Seq<nat>) -> Option<int> {
    if c[0] > 0 {
        Some(0)
    } else if c[1] > 0 {
        Some(1)
    } else if c[2] > 0 {
        Some(2)
    } else if c[3] > 0 {
        Some(3)
    } else if c[4] > 0 {
        Some(4)
    } else if c[5] > 0 {
        Some(5)
    } else if c[6] > 0 {
        Some(6)
    } else {
        None
    }
}

/// The largest occupied slot, if there is one.
pub open spec fn highest(c: Seq<nat>) -> Option<int> {
    if c[6] > 0 {
        Some(6)
    } else if c[5] > 0 {
        Some(5)
    } else if c[4] > 0 {
        Some(4)
    } else if c[3] > 0 {
        Some(3)
    } else if c[2] > 0 {
        Some(2)
    } else if c[1] > 0 {
        Some(1)
    } else if c[0] > 0 {
        Some(0)
    } else {
        None
    }
}

/// All occupied slots lie within three consecutive slots.
pub open spec fn compact(c: Seq<nat>) -> bool {
    match (lowest(c), highest(c)) {
        (Some(a), Some(b)) => b - a <= 2,
        _ => true,
    }
}

/// No slot occurs more than once: the tally is that of a set.
pub open spec fn is_set(c: Seq<nat>) -> bool {
    forall|v: int| 0 <= v < 7 ==> #[trigger] c[v] <= 1
}

/// Every occupied slot is `center` or one of its two neighbors.
pub open spec fn around(c: Seq<nat>, center: int) -> bool {
    forall|v: int| 0 <= v < 7 && #[trigger] c[v] > 0 ==> center - 1 <= v <= center + 1
}

/// The tally with one more occurrence of `value`.
pub open spec fn with_one_more(c: Seq<nat>, value: int) -> Seq<nat> {
    c.update(value, c[value] + 1)
}

/// The tally of a set to which `value` has been added.
pub open spec fn with_member(c: Seq<nat>, value: int) -> Seq<nat> {
    c.update(value, 1nat)
}

/// The tally from which every occurrence of `value` has been taken.
pub open spec fn without(c: Seq<nat>, value: int) -> Seq<nat> {
    c.update(value, 0nat)
}

/// `value` lies strictly between the smallest and the largest occupied slot.
pub open spec fn strictly_inside(c: Seq<nat>, value: int) -> bool {
    match (lowest(c), highest(c)) {
        (Some(a), Some(b)) => a < value < b,
        _ => false,
    }
}

/// Two neighborhoods, the left one's largest slot and the right one's
/// smallest, do not touch in one shared slot. True when either is empty.
pub open spec fn apart(left: Seq<nat>, right: Seq<nat>) -> bool {
    match (highest(left), lowest(right)) {
        (Some(a), Some(b)) => a != b,
        _ => true,
    }
}

/// A position moved up to the largest occupied slot, where that is larger.
pub open spec fn raised(c: Seq<nat>, value: int) -> int {
    match highest(c) {
        Some(top) => if top > value { top } else { value },
        None => value,
    }
}

/// A position moved down to the smallest occupied slot, where that is
/// smaller.
pub open spec fn lowered(c: Seq<nat>, value: int) -> int {
    match lowest(c) {
        Some(bottom) => if bottom < value { bottom } else { value },
        None => value,
    }
}

/// The occupied slots from `from` on, each with its multiplicity, in
/// ascending order.
pub open spec fn pairs_from(c: Seq<nat>, from: int) -> Seq<(usize, usize)>
    decreases 7 - from,
{
    if from >= 7 || from < 0 {
        Seq::empty()
    } else if c[from] > 0 {
        seq![(from as usize, c[from] as usize)] + pairs_from(c, from + 1)
    } else {
        pairs_from(c, from + 1)
    }
}

/// The occupied slots, each with its multiplicity, in ascending order.
pub open spec fn pairs_of(c: Seq<nat>) -> Seq<(usize, usize)> {
    pairs_from(c, 0)
}

/// The occupied slots from `from` on, in ascending order.
pub open spec fn members_from(c: Seq<nat>, from: int) -> Seq<usize>
    decreases 7 - from,
{
    if from >= 7 || from < 0 {
        Seq::empty()
    } else if c[from] > 0 {
        seq![from as usize] + members_from(c, from + 1)
    } else {
        members_from(c, from + 1)
    }
}

/// The occupied slots, in ascending order.
pub open spec fn members_of(c: Seq<nat>) -> Seq<usize> {
    members_from(c, 0)
}

/// The decimal digit of a slot.
pub open spec fn digit(value: int) -> char {
    if value == 0 {
        '0'
    } else if value == 1 {
        '1'
    } else if value == 2 {
        '2'
    } else if value == 3 {
        '3'
    } else if value == 4 {
        '4'
    } else if value == 5 {
        '5'
    } else if value == 6 {
        '6'
    } else if value == 7 {
        '7'
    } else if value == 8 {
        '8'
    } else {
        '9'
    }
}

/// The digit of every occupied slot from `from` on, in ascending order,
/// each as often as the slot occurs.
pub open spec fn digits_from(c: Seq<nat>, from: int) -> Seq<char>
    decreases 7 - from,
{
    if from >= 7 || from < 0 {
        Seq::empty()
    } else {
        Seq::new(c[from], |i: int| digit(from)) + digits_from(c, from + 1)
    }
}

/// How an in-neighborhood is written: `[]` when empty, else the digits of
/// its slots in ascending order, each as often as the slot occurs.
pub open spec fn in_rendering(c: Seq<nat>) -> Seq<char> {
    if total(c) == 0 {
        seq!['[', ']']
    } else {
        digits_from(c, 0)
    }
}

/// How an out-neighborhood is written: the digits of its slots in ascending
/// order.
pub open spec fn out_rendering(c: Seq<nat>) -> Seq<char> {
    digits_from(c, 0)
}

/// A tally whose occupied slots surround one center is compact.
pub proof fn lemma_around_is_compact(c: Seq<nat>, center: int)
    requires
        is_tally(c),
        around(c, center),
    ensures
        compact(c),
{
}

/// Adding a slot next to the center keeps the occupied slots around it.
pub proof fn lemma_around_with_one_more(c: Seq<nat>, center: int, value: int)
    requires
        is_tally(c),
        around(c, center),
        0 <= value < 7,
        center - 1 <= value <= center + 1,
    ensures
        around(with_one_more(c, value), center),
        around(with_member(c, value), center),
        is_tally(with_one_more(c, value)),
        is_tally(with_member(c, value)),
        total(with_one_more(c, value)) == total(c) + 1,
{
}

/// One more occurrence is one more neighbor.
pub proof fn lemma_total_with_one_more(c: Seq<nat>, value: int)
    requires
        is_tally(c),
        0 <= value < 7,
    ensures
        is_tally(with_one_more(c, value)),
        total(with_one_more(c, value)) == total(c) + 1,
{
}

} // verus!
