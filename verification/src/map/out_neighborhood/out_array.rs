//! The fixed-shape representation: no member, or one, two or three members
//! in ascending order.

use vstd::prelude::*;
use super::OutNeighborhood;
use crate::map::slots::{push_digits, tally_in};
use crate::map::tally::{compact, no_neighbors, strictly_inside, with_member, without};

verus! {

/// An out-neighborhood as the list of its members in ascending order, of
/// which there are at most three.
#[derive(Debug, Clone, Copy)]
pub enum OutArray {
    Zero([usize; 0]),
    One([usize; 1]),
    Two([usize; 2]),
    Three([usize; 3]),
}

/// Number of shapes of an out-neighborhood.
pub const OUT_NEIGHBORHOODS: usize = 24;

/// The members of the shape with index `index`: the empty shape, then the
/// seven of one member, the six pairs of adjacent members, the five pairs
/// with a gap and the five triples, each group by ascending first member.
pub open spec fn support(index: int) -> Seq<usize> {
    if index <= 0 {
        seq![]
    } else if index <= 7 {
        seq![(index - 1) as usize]
    } else if index <= 13 {
        seq![(index - 8) as usize, (index - 7) as usize]
    } else if index <= 18 {
        seq![(index - 14) as usize, (index - 12) as usize]
    } else {
        seq![(index - 19) as usize, (index - 18) as usize, (index - 17) as usize]
    }
}

/// The tally of the set of at most three listed members.
pub open spec fn listed_tally(members: Seq<usize>) -> Seq<nat> {
    if members.len() == 0 {
        no_neighbors()
    } else if members.len() == 1 {
        no_neighbors().update(members[0] as int, 1nat)
    } else if members.len() == 2 {
        no_neighbors().update(members[0] as int, 1nat).update(members[1] as int, 1nat)
    } else {
        no_neighbors().update(members[0] as int, 1nat).update(members[1] as int, 1nat).update(
            members[2] as int,
            1nat,
        )
    }
}

/// The members are slots of the row, listed in ascending order, and lie
/// within three consecutive slots.
pub open spec fn well_listed_members(l: Seq<usize>) -> bool {
    &&& l.len() <= 3
    &&& forall|i: int| 0 <= i < l.len() ==> #[trigger] l[i] < 7
    &&& forall|i: int, j: int| 0 <= i < j < l.len() ==> #[trigger] l[i] < #[trigger] l[j]
    &&& l.len() > 0 ==> l.last() - l[0] <= 2
}

/// The index of the shape with the listed members.
pub open spec fn support_rank(l: Seq<usize>) -> int {
    if l.len() == 0 {
        0
    } else if l.len() == 1 {
        1 + l[0]
    } else if l.len() == 2 {
        if l[1] == l[0] + 1 {
            8 + l[0]
        } else {
            14 + l[0]
        }
    } else {
        19 + l[0]
    }
}

/// Every well-listed set of members is the shape with its rank as index,
/// and every shape is well listed and has its index as rank.
pub proof fn lemma_support_rank(l: Seq<usize>)
    requires
        well_listed_members(l),
    ensures
        0 <= support_rank(l) < 24,
        support(support_rank(l)) == l,
{
    if l.len() == 2 {
        assert(l[0] < l[1]);
    } else if l.len() == 3 {
        assert(l[0] < l[1] && l[1] < l[2]);
    }
    assert(support(support_rank(l)) =~= l);
}

/// Every shape is well listed and has its index as rank.
pub proof fn lemma_support(index: int)
    requires
        0 <= index < 24,
    ensures
        well_listed_members(support(index)),
        support_rank(support(index)) == index,
{
}

/// Every shape of an out-neighborhood, by index.
pub fn arrays() -> (all: [OutArray; 24])
    ensures
        forall|i: int| 0 <= i < 24 ==> (#[trigger] all[i]).wf(),
        forall|i: int| 0 <= i < 24 ==> (#[trigger] all[i]).listed() == support(i),
{
    let all = arrays_listed();
    assert forall|i: int| 0 <= i < 24 implies (#[trigger] all[i]).listed() == support(i) by {
        assert(all[i].listed() =~= support(i));
    }
    all
}

fn arrays_listed() -> (all: [OutArray; 24])
    ensures
        forall|i: int| 0 <= i < 24 ==> (#[trigger] all[i]).wf(),
        forall|i: int| 0 <= i < 24 ==> (#[trigger] all[i]).listed().len() == support(i).len(),
        forall|i: int, j: int|
            0 <= i < 24 && 0 <= j < support(i).len() ==> (#[trigger] all[i]).listed()[j]
                == #[trigger] support(i)[j],
{
    [
        OutArray::Zero([]),
        OutArray::One([0]),
        OutArray::One([1]),
        OutArray::One([2]),
        OutArray::One([3]),
        OutArray::One([4]),
        OutArray::One([5]),
        OutArray::One([6]),
        OutArray::Two([0, 1]),
        OutArray::Two([1, 2]),
        OutArray::Two([2, 3]),
        OutArray::Two([3, 4]),
        OutArray::Two([4, 5]),
        OutArray::Two([5, 6]),
        OutArray::Two([0, 2]),
        OutArray::Two([1, 3]),
        OutArray::Two([2, 4]),
        OutArray::Two([3, 5]),
        OutArray::Two([4, 6]),
        OutArray::Three([0, 1, 2]),
        OutArray::Three([1, 2, 3]),
        OutArray::Three([2, 3, 4]),
        OutArray::Three([3, 4, 5]),
        OutArray::Three([4, 5, 6]),
    ]
}

impl Default for OutArray {
    fn default() -> (r: Self)
        ensures
            r.listed() == Seq::<usize>::empty(),
    {
        OutArray::Zero([])
    }
}

impl OutArray {
    /// The members as they are listed.
    pub open spec fn listed(&self) -> Seq<usize> {
        match self {
            OutArray::Zero(values) => values@,
            OutArray::One(values) => values@,
            OutArray::Two(values) => values@,
            OutArray::Three(values) => values@,
        }
    }

    /// The members, in ascending order.
    pub fn values(&self) -> (r: &[usize])
        ensures
            r@ == self.listed(),
    {
        match self {
            OutArray::Zero(values) => vstd::array::array_as_slice(values),
            OutArray::One(values) => vstd::array::array_as_slice(values),
            OutArray::Two(values) => vstd::array::array_as_slice(values),
            OutArray::Three(values) => vstd::array::array_as_slice(values),
        }
    }

    /// The smallest member.
    pub fn min(&self) -> (r: Option<&usize>)
        ensures
            match r {
                Some(v) => self.listed().len() > 0 && *v == self.listed()[0],
                None => self.listed().len() == 0,
            },
    {
        match self {
            OutArray::Zero(_) => None,
            OutArray::One(values) => Some(&values[0]),
            OutArray::Two(values) => Some(&values[0]),
            OutArray::Three(values) => Some(&values[0]),
        }
    }

    /// The largest member.
    pub fn max(&self) -> (r: Option<&usize>)
        ensures
            match r {
                Some(v) => self.listed().len() > 0 && *v == self.listed().last(),
                None => self.listed().len() == 0,
            },
    {
        match self {
            OutArray::Zero(_) => None,
            OutArray::One(values) => Some(&values[0]),
            OutArray::Two(values) => Some(&values[1]),
            OutArray::Three(values) => Some(&values[2]),
        }
    }

    /// Whether `position` is a member.
    pub fn contains(&self, position: usize) -> (r: bool)
        ensures
            r == self.listed().contains(position),
    {
        let values = self.values();
        let mut index: usize = 0;
        while index < values.len()
            invariant
                index <= values@.len(),
                values@ == self.listed(),
                forall|i: int| 0 <= i < index ==> values@[i] != position,
            decreases values@.len() - index,
        {
            if values[index] == position {
                return true;
            }
            index = index + 1;
        }
        false
    }

    /// Whether the two have the same members.
    pub fn const_eq(&self, other: &Self) -> (r: bool)
        ensures
            r == (self.listed() == other.listed()),
    {
        match (self, other) {
            (OutArray::Zero(_), OutArray::Zero(_)) => {
                assert(self.listed() =~= other.listed());
                true
            },
            (OutArray::One(a), OutArray::One(b)) => {
                assert(a[0] == b[0] ==> a@ =~= b@);
                assert(a[0] != b[0] ==> a@[0] != b@[0]);
                a[0] == b[0]
            },
            (OutArray::Two(a), OutArray::Two(b)) => {
                assert(a[0] == b[0] && a[1] == b[1] ==> a@ =~= b@);
                assert(a[0] != b[0] ==> a@[0] != b@[0]);
                assert(a[1] != b[1] ==> a@[1] != b@[1]);
                a[0] == b[0] && a[1] == b[1]
            },
            (OutArray::Three(a), OutArray::Three(b)) => {
                assert(a[0] == b[0] && a[1] == b[1] && a[2] == b[2] ==> a@ =~= b@);
                assert(a[0] != b[0] ==> a@[0] != b@[0]);
                assert(a[1] != b[1] ==> a@[1] != b@[1]);
                assert(a[2] != b[2] ==> a@[2] != b@[2]);
                a[0] == b[0] && a[1] == b[1] && a[2] == b[2]
            },
            _ => {
                assert(self.listed().len() != other.listed().len());
                false
            },
        }
    }

    /// The multiplicity of every slot: 1 for a member, 0 for the others.
    pub fn counts(&self) -> (r: [usize; 7])
        requires
            self.wf(),
        ensures
            tally_in(r) == self.tally(),
    {
        let mut counts: [usize; 7] = [0, 0, 0, 0, 0, 0, 0];
        match self {
            OutArray::Zero(_) => {},
            OutArray::One(values) => {
                counts[values[0]] = 1;
            },
            OutArray::Two(values) => {
                counts[values[0]] = 1;
                counts[values[1]] = 1;
            },
            OutArray::Three(values) => {
                counts[values[0]] = 1;
                counts[values[1]] = 1;
                counts[values[2]] = 1;
            },
        }
        assert(tally_in(counts) =~= self.tally());
        counts
    }

    /// The neighborhood with `position` added, if its members then still
    /// lie within three consecutive slots.
    pub fn plus(&self, position: usize) -> (r: Option<Self>)
        requires
            self.wf(),
            position < 7,
        ensures
            match r {
                Some(sum) => sum.wf() && compact(with_member(self.tally(), position as int))
                    && sum.tally() == with_member(self.tally(), position as int),
                None => !compact(with_member(self.tally(), position as int)),
            },
    {
        match self {
            OutArray::Zero(_) => {
                let sum = OutArray::One([position]);
                assert(sum.tally() =~= with_member(self.tally(), position as int));
                Some(sum)
            },
            OutArray::One(values) => {
                let a = values[0];
                if a == position {
                    let sum = OutArray::One([position]);
                    assert(sum.tally() =~= with_member(self.tally(), position as int));
                    Some(sum)
                } else if a == position + 1 || a == position + 2 {
                    let sum = OutArray::Two([position, a]);
                    assert(sum.tally() =~= with_member(self.tally(), position as int));
                    Some(sum)
                } else if position == a + 1 || position == a + 2 {
                    let sum = OutArray::Two([a, position]);
                    assert(sum.tally() =~= with_member(self.tally(), position as int));
                    Some(sum)
                } else {
                    None
                }
            },
            OutArray::Two(values) => {
                let a = values[0];
                let b = values[1];
                if a == position || b == position {
                    let sum = OutArray::Two([a, b]);
                    assert(sum.tally() =~= with_member(self.tally(), position as int));
                    Some(sum)
                } else if a == position + 1 && b == a + 1 {
                    let sum = OutArray::Three([position, a, b]);
                    assert(sum.tally() =~= with_member(self.tally(), position as int));
                    Some(sum)
                } else if b == a + 1 && position == b + 1 {
                    let sum = OutArray::Three([a, b, position]);
                    assert(sum.tally() =~= with_member(self.tally(), position as int));
                    Some(sum)
                } else if position == a + 1 && b == position + 1 {
                    let sum = OutArray::Three([a, position, b]);
                    assert(sum.tally() =~= with_member(self.tally(), position as int));
                    Some(sum)
                } else {
                    None
                }
            },
            OutArray::Three(values) => {
                let a = values[0];
                let b = values[1];
                let c = values[2];
                if a == position || b == position || c == position {
                    let sum = OutArray::Three([a, b, c]);
                    assert(sum.tally() =~= with_member(self.tally(), position as int));
                    Some(sum)
                } else {
                    None
                }
            },
        }
    }

    /// The neighborhood with the member `position` taken out, unless it is
    /// no member or lies strictly between two others.
    pub fn minus(&self, position: usize) -> (r: Option<Self>)
        requires
            self.wf(),
            position < 7,
        ensures
            match r {
                Some(rest) => rest.wf() && self.tally()[position as int] > 0 && !strictly_inside(
                    self.tally(),
                    position as int,
                ) && rest.tally() == without(self.tally(), position as int),
                None => self.tally()[position as int] == 0 || strictly_inside(
                    self.tally(),
                    position as int,
                ),
            },
    {
        match self {
            OutArray::Zero(_) => None,
            OutArray::One(values) => {
                if values[0] == position {
                    let rest = OutArray::Zero([]);
                    assert(rest.tally() =~= without(self.tally(), position as int));
                    Some(rest)
                } else {
                    None
                }
            },
            OutArray::Two(values) => {
                if values[0] == position {
                    let rest = OutArray::One([values[1]]);
                    assert(rest.tally() =~= without(self.tally(), position as int));
                    Some(rest)
                } else if values[1] == position {
                    let rest = OutArray::One([values[0]]);
                    assert(rest.tally() =~= without(self.tally(), position as int));
                    Some(rest)
                } else {
                    None
                }
            },
            OutArray::Three(values) => {
                if values[0] == position {
                    let rest = OutArray::Two([values[1], values[2]]);
                    assert(rest.tally() =~= without(self.tally(), position as int));
                    Some(rest)
                } else if values[2] == position {
                    let rest = OutArray::Two([values[0], values[1]]);
                    assert(rest.tally() =~= without(self.tally(), position as int));
                    Some(rest)
                } else {
                    None
                }
            },
        }
    }

    /// The neighborhood with the members of `hood`.
    pub fn from_neighborhood<Out: OutNeighborhood>(hood: &Out) -> (array: Self)
        requires
            hood.wf(),
        ensures
            array.wf(),
            array.tally() == hood.tally(),
    {
        proof {
            hood.lemma_wf();
        }
        let counts = crate::map::slots::out_counts(hood);
        match Self::from_counts(&counts) {
            Some(array) => {
                proof {
                    array.lemma_wf();
                    assert(forall|v: int| 0 <= v < 7 ==> tally_in(counts)[v] == counts[v]);
                    assert(array.tally() =~= hood.tally());
                }
                array
            },
            None => OutArray::Zero([]),
        }
    }

    /// The neighborhood with the members that `counts` marks, if they lie
    /// within three consecutive slots.
    pub fn from_counts(counts: &[usize; 7]) -> (r: Option<Self>)
        ensures
            match r {
                Some(array) => array.wf() && compact(tally_in(*counts)) && forall|v: int|
                    0 <= v < 7 ==> #[trigger] array.tally()[v] == (if counts[v] > 0 {
                        1nat
                    } else {
                        0nat
                    }),
                None => !compact(tally_in(*counts)),
            },
    {
        let mut array = OutArray::Zero([]);
        let mut slot: usize = 0;
        while slot < 7
            invariant
                slot <= 7,
                array.wf(),
                forall|v: int|
                    0 <= v < slot ==> #[trigger] array.tally()[v] == (if counts[v] > 0 {
                        1nat
                    } else {
                        0nat
                    }),
                forall|v: int| slot <= v < 7 ==> #[trigger] array.tally()[v] == 0,
            decreases 7 - slot,
        {
            if counts[slot] > 0 {
                proof {
                    array.lemma_wf();
                    assert(forall|v: int| 0 <= v < 7 ==> tally_in(*counts)[v] == counts[v]);
                }
                match array.plus(slot) {
                    Some(sum) => {
                        array = sum;
                    },
                    None => {
                        proof {
                            let have = with_member(array.tally(), slot as int);
                            let all = tally_in(*counts);
                            assert(forall|v: int| 0 <= v < 7 && have[v] > 0 ==> all[v] > 0);
                        }
                        return None;
                    },
                }
            }
            slot = slot + 1;
        }
        proof {
            array.lemma_wf();
            assert(forall|v: int| 0 <= v < 7 ==> tally_in(*counts)[v] == counts[v]);
            let have = array.tally();
            let all = tally_in(*counts);
            assert(forall|v: int| 0 <= v < 7 ==> (have[v] > 0) == (all[v] > 0));
        }
        Some(array)
    }
}

impl OutArray {
    /// The members are slots of the row, listed in ascending order, and
    /// lie within three consecutive slots.
    pub open spec fn well_listed(&self) -> bool {
        well_listed_members(self.listed())
    }
}

impl OutNeighborhood for OutArray {
    open spec fn tally(&self) -> Seq<nat> {
        listed_tally(self.listed())
    }

    open spec fn wf(&self) -> bool {
        self.well_listed()
    }

    proof fn lemma_wf(&self) {
    }

    fn empty() -> (r: Self) {
        OutArray::Zero([])
    }

    fn update_position_from_left(&self, value: &mut usize) {
        if let Some(max) = self.max() {
            if *max > *value {
                *value = *max;
            }
        }
    }

    fn update_position_from_right(&self, value: &mut usize) {
        if let Some(min) = self.min() {
            if *min < *value {
                *value = *min;
            }
        }
    }

    fn push(&mut self, value: usize) {
        match self.plus(value) {
            Some(array) => {
                *self = array;
            },
            None => {},
        }
    }

    fn remove(&mut self, value: usize) {
        match self.minus(value) {
            Some(array) => {
                *self = array;
            },
            None => {},
        }
    }

    fn members(&self) -> (r: Vec<usize>) {
        let counts = self.counts();
        crate::map::slots::members_in(&counts)
    }

    fn is_empty(&self) -> (r: bool) {
        match self {
            OutArray::Zero(_) => true,
            OutArray::One(values) => {
                assert(self.listed()[0] == values[0]);
                false
            },
            OutArray::Two(values) => {
                assert(self.listed()[0] == values[0]);
                false
            },
            OutArray::Three(values) => {
                assert(self.listed()[0] == values[0]);
                false
            },
        }
    }

    fn to_string(&self) -> (r: String) {
        let counts = self.counts();
        let mut text = String::new();
        push_digits(&mut text, &counts);
        text
    }
}

} // verus!
