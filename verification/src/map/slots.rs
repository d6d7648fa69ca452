//! Seven multiplicities held in an array: the executable twin of the model
//! in [`super::tally`], shared by the representations.

use vstd::prelude::*;
use super::in_neighborhood::InNeighborhood;
use super::out_neighborhood::OutNeighborhood;
use super::tally::{
    digit, digits_from, highest, is_set, is_tally, lowest, members_from, members_of, pairs_from,
    pairs_of, total,
};
use crate::text::push_repeated;

verus! {

/// The model of an array of multiplicities.
pub open spec fn tally_in(counts: [usize; 7]) -> Seq<nat> {
    Seq::new(7, |i: int| counts[i] as nat)
}

/// An optional slot of the model as an optional index.
pub open spec fn as_slot(slot: Option<int>) -> Option<usize> {
    match slot {
        Some(v) => Some(v as usize),
        None => None,
    }
}

/// The digit of a slot.
pub fn digit_char(value: usize) -> (c: char)
    requires
        value < 10,
    ensures
        c == digit(value as int),
{
    if value == 0 {
        '0'
    } else if value == 1 {
        '1'
    } else if value == 2 {
        '2'
    } else if value == 3 {
        '3'
    } else if value == 4 {
        '4'
    } else if value == 5 {
        '5'
    } else if value == 6 {
        '6'
    } else if value == 7 {
        '7'
    } else if value == 8 {
        '8'
    } else {
        '9'
    }
}

/// The smallest slot with a positive multiplicity.
pub fn first_occupied(counts: &[usize; 7]) -> (r: Option<usize>)
    ensures
        r == as_slot(lowest(tally_in(*counts))),
{
    let mut slot: usize = 0;
    while slot < 7
        invariant
            slot <= 7,
            forall|v: int| 0 <= v < slot ==> counts[v] == 0,
        decreases 7 - slot,
    {
        if counts[slot] > 0 {
            return Some(slot);
        }
        slot = slot + 1;
    }
    None
}

/// The largest slot with a positive multiplicity.
pub fn last_occupied(counts: &[usize; 7]) -> (r: Option<usize>)
    ensures
        r == as_slot(highest(tally_in(*counts))),
{
    let mut slot: usize = 7;
    while slot > 0
        invariant
            slot <= 7,
            forall|v: int| slot <= v < 7 ==> counts[v] == 0,
        decreases slot,
    {
        slot = slot - 1;
        if counts[slot] > 0 {
            return Some(slot);
        }
    }
    None
}

/// The occupied slots with their multiplicities, in ascending order.
pub fn pairs_in(counts: &[usize; 7]) -> (r: Vec<(usize, usize)>)
    ensures
        r@ == pairs_of(tally_in(*counts)),
{
    let mut pairs: Vec<(usize, usize)> = Vec::new();
    let mut slot: usize = 0;
    while slot < 7
        invariant
            slot <= 7,
            pairs@ + pairs_from(tally_in(*counts), slot as int) == pairs_of(tally_in(*counts)),
        decreases 7 - slot,
    {
        if counts[slot] > 0 {
            pairs.push((slot, counts[slot]));
            assert(pairs@ + pairs_from(tally_in(*counts), slot + 1) =~= pairs@.drop_last() + (
            seq![(slot, counts[slot as int])] + pairs_from(tally_in(*counts), slot + 1)));
        }
        slot = slot + 1;
    }
    assert(pairs@ + Seq::<(usize, usize)>::empty() =~= pairs@);
    pairs
}

/// The occupied slots, in ascending order.
pub fn members_in(counts: &[usize; 7]) -> (r: Vec<usize>)
    ensures
        r@ == members_of(tally_in(*counts)),
{
    let mut members: Vec<usize> = Vec::new();
    let mut slot: usize = 0;
    while slot < 7
        invariant
            slot <= 7,
            members@ + members_from(tally_in(*counts), slot as int) == members_of(
                tally_in(*counts),
            ),
        decreases 7 - slot,
    {
        if counts[slot] > 0 {
            members.push(slot);
            assert(members@ + members_from(tally_in(*counts), slot + 1) =~= members@.drop_last()
                + (seq![slot] + members_from(tally_in(*counts), slot + 1)));
        }
        slot = slot + 1;
    }
    assert(members@ + Seq::<usize>::empty() =~= members@);
    members
}

/// Whether no slot is occupied.
pub fn none_occupied(counts: &[usize; 7]) -> (r: bool)
    ensures
        r == (total(tally_in(*counts)) == 0),
{
    counts[0] == 0 && counts[1] == 0 && counts[2] == 0 && counts[3] == 0 && counts[4] == 0
        && counts[5] == 0 && counts[6] == 0
}

/// Appends to `text` the digit of every occupied slot, in ascending order,
/// each as often as the slot occurs.
pub fn push_digits(text: &mut String, counts: &[usize; 7])
    ensures
        final(text)@ == old(text)@ + digits_from(tally_in(*counts), 0),
{
    let mut slot: usize = 0;
    while slot < 7
        invariant
            slot <= 7,
            text@ + digits_from(tally_in(*counts), slot as int) == old(text)@ + digits_from(
                tally_in(*counts),
                0,
            ),
        decreases 7 - slot,
    {
        let ghost before = text@;
        push_repeated(text, digit_char(slot), counts[slot]);
        assert(text@ + digits_from(tally_in(*counts), slot + 1) =~= before + digits_from(
            tally_in(*counts),
            slot as int,
        ));
        slot = slot + 1;
    }
    assert(text@ + Seq::<char>::empty() =~= text@);
}

/// Where the pairs from `from` on are not exhausted, the first of them is
/// the first occupied slot `v` from `from` on, and the rest are the pairs
/// from `v + 1` on.
pub proof fn lemma_next_pair(c: Seq<nat>, from: int) -> (v: int)
    requires
        is_tally(c),
        0 <= from <= 7,
        pairs_from(c, from).len() > 0,
    ensures
        from <= v < 7,
        c[v] > 0,
        forall|u: int| from <= u < v ==> c[u] == 0,
        pairs_from(c, from) == seq![(v as usize, c[v] as usize)] + pairs_from(c, v + 1),
    decreases 7 - from,
{
    if c[from] > 0 {
        from
    } else {
        lemma_next_pair(c, from + 1)
    }
}

/// Where the pairs from `from` on are exhausted, no slot from `from` on is
/// occupied.
pub proof fn lemma_no_pair(c: Seq<nat>, from: int)
    requires
        is_tally(c),
        0 <= from <= 7,
        pairs_from(c, from).len() == 0,
    ensures
        forall|u: int| from <= u < 7 ==> c[u] == 0,
    decreases 7 - from,
{
    if from < 7 {
        if c[from] > 0 {
            assert(pairs_from(c, from).len() > 0);
        } else {
            lemma_no_pair(c, from + 1);
        }
    }
}

/// The multiplicities behind a list of pairs in ascending order.
pub(crate) fn counts_from_pairs(pairs: &Vec<(usize, usize)>, Ghost(c): Ghost<Seq<nat>>) -> (r: [
    usize;
    7
])
    requires
        is_tally(c),
        pairs@ == pairs_of(c),
        forall|v: int| 0 <= v < 7 ==> c[v] <= usize::MAX,
    ensures
        tally_in(r) == c,
{
    let mut counts: [usize; 7] = [0, 0, 0, 0, 0, 0, 0];
    let mut done: usize = 0;
    let ghost mut from: int = 0;
    assert(pairs@.subrange(0, pairs@.len() as int) =~= pairs@);
    while done < pairs.len()
        invariant
            done <= pairs.len(),
            is_tally(c),
            forall|v: int| 0 <= v < 7 ==> c[v] <= usize::MAX,
            0 <= from <= 7,
            pairs@.subrange(done as int, pairs@.len() as int) == pairs_from(c, from),
            forall|v: int| 0 <= v < from ==> counts[v] == c[v],
            forall|v: int| from <= v < 7 ==> counts[v] == 0,
        decreases pairs.len() - done,
    {
        let (slot, times) = pairs[done];
        proof {
            let rest = pairs@.subrange(done as int, pairs@.len() as int);
            assert(rest[0] == pairs@[done as int]);
            let v = lemma_next_pair(c, from);
            assert(rest[0] == (v as usize, c[v] as usize));
            assert(pairs@.subrange(done + 1, pairs@.len() as int) =~= rest.subrange(
                1,
                rest.len() as int,
            ));
            assert(rest.subrange(1, rest.len() as int) =~= pairs_from(c, v + 1));
            from = v + 1;
        }
        counts[slot] = times;
        done = done + 1;
    }
    proof {
        lemma_no_pair(c, from);
        assert(tally_in(counts) =~= c);
    }
    counts
}

/// Where the members from `from` on are not exhausted, the first of them
/// is the first occupied slot `v` from `from` on, and the rest are the
/// members from `v + 1` on.
pub proof fn lemma_next_member(c: Seq<nat>, from: int) -> (v: int)
    requires
        is_tally(c),
        0 <= from <= 7,
        members_from(c, from).len() > 0,
    ensures
        from <= v < 7,
        c[v] > 0,
        forall|u: int| from <= u < v ==> c[u] == 0,
        members_from(c, from) == seq![v as usize] + members_from(c, v + 1),
    decreases 7 - from,
{
    if c[from] > 0 {
        from
    } else {
        lemma_next_member(c, from + 1)
    }
}

/// Where the members from `from` on are exhausted, no slot from `from` on
/// is occupied.
pub proof fn lemma_no_member(c: Seq<nat>, from: int)
    requires
        is_tally(c),
        0 <= from <= 7,
        members_from(c, from).len() == 0,
    ensures
        forall|u: int| from <= u < 7 ==> c[u] == 0,
    decreases 7 - from,
{
    if from < 7 {
        if c[from] > 0 {
            assert(members_from(c, from).len() > 0);
        } else {
            lemma_no_member(c, from + 1);
        }
    }
}

/// For every slot, 1 if it is in a list of members in ascending order and
/// 0 if not.
pub(crate) fn counts_from_members(members: &Vec<usize>, Ghost(c): Ghost<Seq<nat>>) -> (r: [
    usize;
    7
])
    requires
        is_tally(c),
        is_set(c),
        members@ == members_of(c),
    ensures
        tally_in(r) == c,
{
    let mut counts: [usize; 7] = [0, 0, 0, 0, 0, 0, 0];
    let mut done: usize = 0;
    let ghost mut from: int = 0;
    assert(members@.subrange(0, members@.len() as int) =~= members@);
    while done < members.len()
        invariant
            done <= members.len(),
            is_tally(c),
            is_set(c),
            0 <= from <= 7,
            members@.subrange(done as int, members@.len() as int) == members_from(c, from),
            forall|v: int| 0 <= v < from ==> counts[v] == c[v],
            forall|v: int| from <= v < 7 ==> counts[v] == 0,
        decreases members.len() - done,
    {
        let slot = members[done];
        proof {
            let rest = members@.subrange(done as int, members@.len() as int);
            assert(rest[0] == members@[done as int]);
            let v = lemma_next_member(c, from);
            assert(rest[0] == v as usize);
            assert(members@.subrange(done + 1, members@.len() as int) =~= rest.subrange(
                1,
                rest.len() as int,
            ));
            assert(rest.subrange(1, rest.len() as int) =~= members_from(c, v + 1));
            assert(c[v] <= 1);
            from = v + 1;
        }
        counts[slot] = 1;
        done = done + 1;
    }
    proof {
        lemma_no_member(c, from);
        assert(tally_in(counts) =~= c);
    }
    counts
}

/// The multiplicity of every slot of an in-neighborhood.
pub fn in_counts<In: InNeighborhood>(hood: &In) -> (r: [usize; 7])
    requires
        hood.wf(),
    ensures
        tally_in(r) == hood.tally(),
{
    proof {
        hood.lemma_wf();
    }
    let pairs = hood.pairs();
    counts_from_pairs(&pairs, Ghost(hood.tally()))
}

/// For every slot, 1 if it is a member of the out-neighborhood and 0 if
/// not.
pub fn out_counts<Out: OutNeighborhood>(hood: &Out) -> (r: [usize; 7])
    requires
        hood.wf(),
    ensures
        tally_in(r) == hood.tally(),
{
    proof {
        hood.lemma_wf();
    }
    let members = hood.members();
    counts_from_members(&members, Ghost(hood.tally()))
}

} // verus!
