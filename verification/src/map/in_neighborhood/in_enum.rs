//! The multiplicities of a neighborhood of one, two or three slots around
//! a node's own slot, spelled out as names: every way to split at most six
//! edges among the slots has one.

use vstd::prelude::*;

verus! {

/// The sum of a sequence of numbers.
pub open spec fn total_of(parts: Seq<int>) -> int
    decreases parts.len(),
{
    if parts.len() == 0 {
        0
    } else {
        total_of(parts.drop_last()) + parts.last()
    }
}

/// Raises the multiplicity of the first slot by one.
pub trait AddFirst: Sized {
    /// The multiplicities.
    spec fn counts(&self) -> Seq<int>;

    /// Raises the multiplicity of the first slot by one.
    fn add_first(&mut self)
        requires
            total_of(old(self).counts()) < 6,
        ensures
            final(self).counts() == old(self).counts().update(0, old(self).counts()[0] + 1),
    ;
}

/// Raises the multiplicity of the second slot by one.
pub trait AddSecond: Sized {
    /// The multiplicities.
    spec fn counts(&self) -> Seq<int>;

    /// Raises the multiplicity of the second slot by one.
    fn add_second(&mut self)
        requires
            total_of(old(self).counts()) < 6,
        ensures
            final(self).counts() == old(self).counts().update(1, old(self).counts()[1] + 1),
    ;
}

/// Raises the multiplicity of the third slot by one.
pub trait AddThird: Sized {
    /// The multiplicities.
    spec fn counts(&self) -> Seq<int>;

    /// Raises the multiplicity of the third slot by one.
    fn add_third(&mut self)
        requires
            total_of(old(self).counts()) < 6,
        ensures
            final(self).counts() == old(self).counts().update(2, old(self).counts()[2] + 1),
    ;
}

/// Adds a slot with one edge before the first slot or after the last.
pub trait Plus: Sized {
    /// The multiplicities of one slot more.
    type Next;

    /// Whether there is room for one more edge.
    spec fn grown(self) -> bool;

    /// The multiplicities with a slot of one edge before them.
    spec fn with_front(self) -> Seq<int>;

    /// The multiplicities with a slot of one edge after them.
    spec fn with_back(self) -> Seq<int>;

    /// The multiplicities of the larger neighborhood.
    spec fn next_parts(next: Self::Next) -> Seq<int>;

    /// The multiplicities with a slot of one edge before them.
    fn plus_prev(self) -> (next: Self::Next)
        requires
            self.grown(),
        ensures
            Self::next_parts(next) == self.with_front(),
    ;

    /// The multiplicities with a slot of one edge after them.
    fn plus_next(self) -> (next: Self::Next)
        requires
            self.grown(),
        ensures
            Self::next_parts(next) == self.with_back(),
    ;
}

/// The multiplicity of one slot.
#[derive(Debug, Clone, Copy, PartialEq, Eq, Structural)]
pub enum OneCmp {
    One,
    Two,
    Three,
    Four,
    Five,
    Six,
}

impl Default for OneCmp {
    fn default() -> (r: Self)
        ensures
            r == OneCmp::One,
    {
        OneCmp::One
    }
}

impl OneCmp {
    /// The multiplicities that the name spells out.
    pub open spec fn parts(self) -> Seq<int> {
        match self {
            OneCmp::One => seq![1],
            OneCmp::Two => seq![2],
            OneCmp::Three => seq![3],
            OneCmp::Four => seq![4],
            OneCmp::Five => seq![5],
            OneCmp::Six => seq![6],
        }
    }
}

/// The multiplicities of two slots.
#[derive(Debug, Clone, Copy, PartialEq, Eq, Structural)]
pub enum TwoCmp {
    OneOne,
    OneTwo,
    OneThree,
    OneFour,
    OneFive,
    TwoOne,
    TwoTwo,
    TwoThree,
    TwoFour,
    ThreeOne,
    ThreeTwo,
    ThreeThree,
    FourOne,
    FourTwo,
    FiveOne,
}

impl Default for TwoCmp {
    fn default() -> (r: Self)
        ensures
            r == TwoCmp::OneOne,
    {
        TwoCmp::OneOne
    }
}

impl TwoCmp {
    /// The multiplicities that the name spells out.
    pub open spec fn parts(self) -> Seq<int> {
        match self {
            TwoCmp::OneOne => seq![1, 1],
            TwoCmp::OneTwo => seq![1, 2],
            TwoCmp::OneThree => seq![1, 3],
            TwoCmp::OneFour => seq![1, 4],
            TwoCmp::OneFive => seq![1, 5],
            TwoCmp::TwoOne => seq![2, 1],
            TwoCmp::TwoTwo => seq![2, 2],
            TwoCmp::TwoThree => seq![2, 3],
            TwoCmp::TwoFour => seq![2, 4],
            TwoCmp::ThreeOne => seq![3, 1],
            TwoCmp::ThreeTwo => seq![3, 2],
            TwoCmp::ThreeThree => seq![3, 3],
            TwoCmp::FourOne => seq![4, 1],
            TwoCmp::FourTwo => seq![4, 2],
            TwoCmp::FiveOne => seq![5, 1],
        }
    }
}

/// The multiplicities of three slots.
#[derive(Debug, Clone, Copy, PartialEq, Eq, Structural)]
pub enum ThreeCmp {
    OneOneOne,
    OneOneTwo,
    OneOneThree,
    OneOneFour,
    OneTwoOne,
    OneTwoTwo,
    OneTwoThree,
    OneThreeOne,
    OneThreeTwo,
    OneFourOne,
    TwoOneOne,
    TwoOneTwo,
    TwoOneThree,
    TwoTwoOne,
    TwoTwoTwo,
    TwoThreeOne,
    ThreeOneOne,
    ThreeOneTwo,
    ThreeTwoOne,
    FourOneOne,
}

impl Default for ThreeCmp {
    fn default() -> (r: Self)
        ensures
            r == ThreeCmp::OneOneOne,
    {
        ThreeCmp::OneOneOne
    }
}

impl ThreeCmp {
    /// The multiplicities that the name spells out.
    pub open spec fn parts(self) -> Seq<int> {
        match self {
            ThreeCmp::OneOneOne => seq![1, 1, 1],
            ThreeCmp::OneOneTwo => seq![1, 1, 2],
            ThreeCmp::OneOneThree => seq![1, 1, 3],
            ThreeCmp::OneOneFour => seq![1, 1, 4],
            ThreeCmp::OneTwoOne => seq![1, 2, 1],
            ThreeCmp::OneTwoTwo => seq![1, 2, 2],
            ThreeCmp::OneTwoThree => seq![1, 2, 3],
            ThreeCmp::OneThreeOne => seq![1, 3, 1],
            ThreeCmp::OneThreeTwo => seq![1, 3, 2],
            ThreeCmp::OneFourOne => seq![1, 4, 1],
            ThreeCmp::TwoOneOne => seq![2, 1, 1],
            ThreeCmp::TwoOneTwo => seq![2, 1, 2],
            ThreeCmp::TwoOneThree => seq![2, 1, 3],
            ThreeCmp::TwoTwoOne => seq![2, 2, 1],
            ThreeCmp::TwoTwoTwo => seq![2, 2, 2],
            ThreeCmp::TwoThreeOne => seq![2, 3, 1],
            ThreeCmp::ThreeOneOne => seq![3, 1, 1],
            ThreeCmp::ThreeOneTwo => seq![3, 1, 2],
            ThreeCmp::ThreeTwoOne => seq![3, 2, 1],
            ThreeCmp::FourOneOne => seq![4, 1, 1],
        }
    }
}

impl AddFirst for OneCmp {
    open spec fn counts(&self) -> Seq<int> {
        self.parts()
    }

    fn add_first(&mut self) {
        proof {
            reveal_with_fuel(total_of, 4);
        }
        let next = match self {
            OneCmp::One => OneCmp::Two,
            OneCmp::Two => OneCmp::Three,
            OneCmp::Three => OneCmp::Four,
            OneCmp::Four => OneCmp::Five,
            OneCmp::Five => OneCmp::Six,
            OneCmp::Six => OneCmp::Six,
        };
        assert(next.parts() =~= self.parts().update(0, self.parts()[0] + 1));
        *self = next;
    }
}

impl AddFirst for TwoCmp {
    open spec fn counts(&self) -> Seq<int> {
        self.parts()
    }

    fn add_first(&mut self) {
        proof {
            reveal_with_fuel(total_of, 4);
        }
        let next = match self {
            TwoCmp::OneOne => TwoCmp::TwoOne,
            TwoCmp::OneTwo => TwoCmp::TwoTwo,
            TwoCmp::OneThree => TwoCmp::TwoThree,
            TwoCmp::OneFour => TwoCmp::TwoFour,
            TwoCmp::TwoOne => TwoCmp::ThreeOne,
            TwoCmp::TwoTwo => TwoCmp::ThreeTwo,
            TwoCmp::TwoThree => TwoCmp::ThreeThree,
            TwoCmp::ThreeOne => TwoCmp::FourOne,
            TwoCmp::ThreeTwo => TwoCmp::FourTwo,
            TwoCmp::FourOne => TwoCmp::FiveOne,
            TwoCmp::OneFive => TwoCmp::OneFive,
            TwoCmp::TwoFour => TwoCmp::TwoFour,
            TwoCmp::ThreeThree => TwoCmp::ThreeThree,
            TwoCmp::FourTwo => TwoCmp::FourTwo,
            TwoCmp::FiveOne => TwoCmp::FiveOne,
        };
        assert(next.parts() =~= self.parts().update(0, self.parts()[0] + 1));
        *self = next;
    }
}

impl AddFirst for ThreeCmp {
    open spec fn counts(&self) -> Seq<int> {
        self.parts()
    }

    fn add_first(&mut self) {
        proof {
            reveal_with_fuel(total_of, 4);
        }
        let next = match self {
            ThreeCmp::OneOneOne => ThreeCmp::TwoOneOne,
            ThreeCmp::OneOneTwo => ThreeCmp::TwoOneTwo,
            ThreeCmp::OneOneThree => ThreeCmp::TwoOneThree,
            ThreeCmp::OneTwoOne => ThreeCmp::TwoTwoOne,
            ThreeCmp::OneTwoTwo => ThreeCmp::TwoTwoTwo,
            ThreeCmp::OneThreeOne => ThreeCmp::TwoThreeOne,
            ThreeCmp::TwoOneOne => ThreeCmp::ThreeOneOne,
            ThreeCmp::TwoOneTwo => ThreeCmp::ThreeOneTwo,
            ThreeCmp::TwoTwoOne => ThreeCmp::ThreeTwoOne,
            ThreeCmp::ThreeOneOne => ThreeCmp::FourOneOne,
            ThreeCmp::OneOneFour => ThreeCmp::OneOneFour,
            ThreeCmp::OneTwoThree => ThreeCmp::OneTwoThree,
            ThreeCmp::OneThreeTwo => ThreeCmp::OneThreeTwo,
            ThreeCmp::OneFourOne => ThreeCmp::OneFourOne,
            ThreeCmp::TwoOneThree => ThreeCmp::TwoOneThree,
            ThreeCmp::TwoTwoTwo => ThreeCmp::TwoTwoTwo,
            ThreeCmp::TwoThreeOne => ThreeCmp::TwoThreeOne,
            ThreeCmp::ThreeOneTwo => ThreeCmp::ThreeOneTwo,
            ThreeCmp::ThreeTwoOne => ThreeCmp::ThreeTwoOne,
            ThreeCmp::FourOneOne => ThreeCmp::FourOneOne,
        };
        assert(next.parts() =~= self.parts().update(0, self.parts()[0] + 1));
        *self = next;
    }
}

impl AddSecond for TwoCmp {
    open spec fn counts(&self) -> Seq<int> {
        self.parts()
    }

    fn add_second(&mut self) {
        proof {
            reveal_with_fuel(total_of, 4);
        }
        let next = match self {
            TwoCmp::OneOne => TwoCmp::OneTwo,
            TwoCmp::OneTwo => TwoCmp::OneThree,
            TwoCmp::OneThree => TwoCmp::OneFour,
            TwoCmp::OneFour => TwoCmp::OneFive,
            TwoCmp::TwoOne => TwoCmp::TwoTwo,
            TwoCmp::TwoTwo => TwoCmp::TwoThree,
            TwoCmp::TwoThree => TwoCmp::TwoFour,
            TwoCmp::ThreeOne => TwoCmp::ThreeTwo,
            TwoCmp::ThreeTwo => TwoCmp::ThreeThree,
            TwoCmp::FourOne => TwoCmp::FourTwo,
            TwoCmp::OneFive => TwoCmp::OneFive,
            TwoCmp::TwoFour => TwoCmp::TwoFour,
            TwoCmp::ThreeThree => TwoCmp::ThreeThree,
            TwoCmp::FourTwo => TwoCmp::FourTwo,
            TwoCmp::FiveOne => TwoCmp::FiveOne,
        };
        assert(next.parts() =~= self.parts().update(1, self.parts()[1] + 1));
        *self = next;
    }
}

impl AddSecond for ThreeCmp {
    open spec fn counts(&self) -> Seq<int> {
        self.parts()
    }

    fn add_second(&mut self) {
        proof {
            reveal_with_fuel(total_of, 4);
        }
        let next = match self {
            ThreeCmp::OneOneOne => ThreeCmp::OneTwoOne,
            ThreeCmp::OneOneTwo => ThreeCmp::OneTwoTwo,
            ThreeCmp::OneOneThree => ThreeCmp::OneTwoThree,
            ThreeCmp::OneTwoOne => ThreeCmp::OneThreeOne,
            ThreeCmp::OneTwoTwo => ThreeCmp::OneThreeTwo,
            ThreeCmp::OneThreeOne => ThreeCmp::OneFourOne,
            ThreeCmp::TwoOneOne => ThreeCmp::TwoTwoOne,
            ThreeCmp::TwoOneTwo => ThreeCmp::TwoTwoTwo,
            ThreeCmp::TwoTwoOne => ThreeCmp::TwoThreeOne,
            ThreeCmp::ThreeOneOne => ThreeCmp::ThreeTwoOne,
            ThreeCmp::OneOneFour => ThreeCmp::OneOneFour,
            ThreeCmp::OneTwoThree => ThreeCmp::OneTwoThree,
            ThreeCmp::OneThreeTwo => ThreeCmp::OneThreeTwo,
            ThreeCmp::OneFourOne => ThreeCmp::OneFourOne,
            ThreeCmp::TwoOneThree => ThreeCmp::TwoOneThree,
            ThreeCmp::TwoTwoTwo => ThreeCmp::TwoTwoTwo,
            ThreeCmp::TwoThreeOne => ThreeCmp::TwoThreeOne,
            ThreeCmp::ThreeOneTwo => ThreeCmp::ThreeOneTwo,
            ThreeCmp::ThreeTwoOne => ThreeCmp::ThreeTwoOne,
            ThreeCmp::FourOneOne => ThreeCmp::FourOneOne,
        };
        assert(next.parts() =~= self.parts().update(1, self.parts()[1] + 1));
        *self = next;
    }
}

impl AddThird for ThreeCmp {
    open spec fn counts(&self) -> Seq<int> {
        self.parts()
    }

    fn add_third(&mut self) {
        proof {
            reveal_with_fuel(total_of, 4);
        }
        let next = match self {
            ThreeCmp::OneOneOne => ThreeCmp::OneOneTwo,
            ThreeCmp::OneOneTwo => ThreeCmp::OneOneThree,
            ThreeCmp::OneOneThree => ThreeCmp::OneOneFour,
            ThreeCmp::OneTwoOne => ThreeCmp::OneTwoTwo,
            ThreeCmp::OneTwoTwo => ThreeCmp::OneTwoThree,
            ThreeCmp::OneThreeOne => ThreeCmp::OneThreeTwo,
            ThreeCmp::TwoOneOne => ThreeCmp::TwoOneTwo,
            ThreeCmp::TwoOneTwo => ThreeCmp::TwoOneThree,
            ThreeCmp::TwoTwoOne => ThreeCmp::TwoTwoTwo,
            ThreeCmp::ThreeOneOne => ThreeCmp::ThreeOneTwo,
            ThreeCmp::OneOneFour => ThreeCmp::OneOneFour,
            ThreeCmp::OneTwoThree => ThreeCmp::OneTwoThree,
            ThreeCmp::OneThreeTwo => ThreeCmp::OneThreeTwo,
            ThreeCmp::OneFourOne => ThreeCmp::OneFourOne,
            ThreeCmp::TwoOneThree => ThreeCmp::TwoOneThree,
            ThreeCmp::TwoTwoTwo => ThreeCmp::TwoTwoTwo,
            ThreeCmp::TwoThreeOne => ThreeCmp::TwoThreeOne,
            ThreeCmp::ThreeOneTwo => ThreeCmp::ThreeOneTwo,
            ThreeCmp::ThreeTwoOne => ThreeCmp::ThreeTwoOne,
            ThreeCmp::FourOneOne => ThreeCmp::FourOneOne,
        };
        assert(next.parts() =~= self.parts().update(2, self.parts()[2] + 1));
        *self = next;
    }
}

impl Plus for OneCmp {
    type Next = TwoCmp;

    open spec fn grown(self) -> bool {
        total_of(self.parts()) < 6
    }

    open spec fn with_front(self) -> Seq<int> {
        seq![1int] + self.parts()
    }

    open spec fn with_back(self) -> Seq<int> {
        self.parts().push(1)
    }

    open spec fn next_parts(next: TwoCmp) -> Seq<int> {
        next.parts()
    }

    fn plus_prev(self) -> (next: TwoCmp) {
        proof {
            reveal_with_fuel(total_of, 4);
        }
        let next = match self {
            OneCmp::One => TwoCmp::OneOne,
            OneCmp::Two => TwoCmp::OneTwo,
            OneCmp::Three => TwoCmp::OneThree,
            OneCmp::Four => TwoCmp::OneFour,
            OneCmp::Five => TwoCmp::OneFive,
            OneCmp::Six => TwoCmp::OneOne,
        };
        assert(next.parts() =~= self.with_front());
        next
    }

    fn plus_next(self) -> (next: TwoCmp) {
        proof {
            reveal_with_fuel(total_of, 4);
        }
        let next = match self {
            OneCmp::One => TwoCmp::OneOne,
            OneCmp::Two => TwoCmp::TwoOne,
            OneCmp::Three => TwoCmp::ThreeOne,
            OneCmp::Four => TwoCmp::FourOne,
            OneCmp::Five => TwoCmp::FiveOne,
            OneCmp::Six => TwoCmp::OneOne,
        };
        assert(next.parts() =~= self.with_back());
        next
    }
}

impl Plus for TwoCmp {
    type Next = ThreeCmp;

    open spec fn grown(self) -> bool {
        total_of(self.parts()) < 6
    }

    open spec fn with_front(self) -> Seq<int> {
        seq![1int] + self.parts()
    }

    open spec fn with_back(self) -> Seq<int> {
        self.parts().push(1)
    }

    open spec fn next_parts(next: ThreeCmp) -> Seq<int> {
        next.parts()
    }

    fn plus_prev(self) -> (next: ThreeCmp) {
        proof {
            reveal_with_fuel(total_of, 4);
        }
        let next = match self {
            TwoCmp::OneOne => ThreeCmp::OneOneOne,
            TwoCmp::OneTwo => ThreeCmp::OneOneTwo,
            TwoCmp::OneThree => ThreeCmp::OneOneThree,
            TwoCmp::OneFour => ThreeCmp::OneOneFour,
            TwoCmp::TwoOne => ThreeCmp::OneTwoOne,
            TwoCmp::TwoTwo => ThreeCmp::OneTwoTwo,
            TwoCmp::TwoThree => ThreeCmp::OneTwoThree,
            TwoCmp::ThreeOne => ThreeCmp::OneThreeOne,
            TwoCmp::ThreeTwo => ThreeCmp::OneThreeTwo,
            TwoCmp::FourOne => ThreeCmp::OneFourOne,
            TwoCmp::OneFive => ThreeCmp::OneOneOne,
            TwoCmp::TwoFour => ThreeCmp::OneOneOne,
            TwoCmp::ThreeThree => ThreeCmp::OneOneOne,
            TwoCmp::FourTwo => ThreeCmp::OneOneOne,
            TwoCmp::FiveOne => ThreeCmp::OneOneOne,
        };
        assert(next.parts() =~= self.with_front());
        next
    }

    fn plus_next(self) -> (next: ThreeCmp) {
        proof {
            reveal_with_fuel(total_of, 4);
        }
        let next = match self {
            TwoCmp::OneOne => ThreeCmp::OneOneOne,
            TwoCmp::OneTwo => ThreeCmp::OneTwoOne,
            TwoCmp::OneThree => ThreeCmp::OneThreeOne,
            TwoCmp::OneFour => ThreeCmp::OneFourOne,
            TwoCmp::TwoOne => ThreeCmp::TwoOneOne,
            TwoCmp::TwoTwo => ThreeCmp::TwoTwoOne,
            TwoCmp::TwoThree => ThreeCmp::TwoThreeOne,
            TwoCmp::ThreeOne => ThreeCmp::ThreeOneOne,
            TwoCmp::ThreeTwo => ThreeCmp::ThreeTwoOne,
            TwoCmp::FourOne => ThreeCmp::FourOneOne,
            TwoCmp::OneFive => ThreeCmp::OneOneOne,
            TwoCmp::TwoFour => ThreeCmp::OneOneOne,
            TwoCmp::ThreeThree => ThreeCmp::OneOneOne,
            TwoCmp::FourTwo => ThreeCmp::OneOneOne,
            TwoCmp::FiveOne => ThreeCmp::OneOneOne,
        };
        assert(next.parts() =~= self.with_back());
        next
    }
}

/// A neighborhood by the slots that it holds next to a node's own slot:
/// the one before it, the node's own, the one after it, or consecutive
/// ones of these, with their multiplicities.
#[derive(Debug, Clone, Copy, PartialEq, Eq, Structural)]
pub enum InEnum {
    Empty,
    Less(OneCmp),
    Equal(OneCmp),
    Greater(OneCmp),
    LessEqual(TwoCmp),
    EqualGreater(TwoCmp),
    LessEqualGreater(ThreeCmp),
}

impl Default for InEnum {
    fn default() -> (r: Self)
        ensures
            r == InEnum::Empty,
    {
        InEnum::Empty
    }
}

/// A neighborhood of a node together with the node's own slot.
#[derive(Debug, Clone, Copy, PartialEq, Eq, Structural)]
pub struct NumberedInEnum {
    pub in_enum: InEnum,
    pub position: usize,
}

/// The slot before `position`; the first slot for the first slot.
pub open spec fn before(position: int) -> int {
    if position == 0 {
        0
    } else {
        position - 1
    }
}

/// The smallest slot of a neighborhood of the node at `position`.
pub open spec fn least(in_enum: InEnum, position: int) -> Option<int> {
    match in_enum {
        InEnum::Empty => None,
        InEnum::Less(_) | InEnum::LessEqual(_) | InEnum::LessEqualGreater(_) => Some(
            before(position),
        ),
        InEnum::Equal(_) | InEnum::EqualGreater(_) => Some(position),
        InEnum::Greater(_) => Some(position + 1),
    }
}

/// The largest slot of a neighborhood of the node at `position`.
pub open spec fn greatest(in_enum: InEnum, position: int) -> Option<int> {
    match in_enum {
        InEnum::Empty => None,
        InEnum::Less(_) => Some(before(position)),
        InEnum::LessEqual(_) | InEnum::Equal(_) => Some(position),
        InEnum::Greater(_) | InEnum::EqualGreater(_) | InEnum::LessEqualGreater(_) => Some(
            position + 1,
        ),
    }
}

impl NumberedInEnum {
    /// The smallest slot.
    pub fn min(&self) -> (r: Option<usize>)
        requires
            self.position < 7,
        ensures
            match r {
                Some(v) => least(self.in_enum, self.position as int) == Some(v as int),
                None => least(self.in_enum, self.position as int) is None,
            },
    {
        let position = self.position;
        match self.in_enum {
            InEnum::Empty => None,
            InEnum::Less(_) | InEnum::LessEqual(_) | InEnum::LessEqualGreater(_) => Some(
                if position == 0 {
                    0
                } else {
                    position - 1
                },
            ),
            InEnum::Equal(_) | InEnum::EqualGreater(_) => Some(position),
            InEnum::Greater(_) => Some(position + 1),
        }
    }

    /// The largest slot.
    pub fn max(&self) -> (r: Option<usize>)
        requires
            self.position < 7,
        ensures
            match r {
                Some(v) => greatest(self.in_enum, self.position as int) == Some(v as int),
                None => greatest(self.in_enum, self.position as int) is None,
            },
    {
        let position = self.position;
        match self.in_enum {
            InEnum::Empty => None,
            InEnum::Less(_) => Some(
                if position == 0 {
                    0
                } else {
                    position - 1
                },
            ),
            InEnum::LessEqual(_) | InEnum::Equal(_) => Some(position),
            InEnum::Greater(_) | InEnum::EqualGreater(_) | InEnum::LessEqualGreater(_) => Some(
                position + 1,
            ),
        }
    }

    /// False exactly when the largest slot of `left` is the smallest of
    /// `right`.
    pub fn gca_skip(left: &Self, right: &Self) -> (r: bool)
        requires
            left.position < 7,
            right.position < 7,
        ensures
            r == match (
                greatest(left.in_enum, left.position as int),
                least(right.in_enum, right.position as int),
            ) {
                (Some(a), Some(b)) => a != b,
                _ => true,
            },
    {
        match (left.max(), right.min()) {
            (Some(left_max), Some(right_min)) => left_max != right_min,
            _ => true,
        }
    }
}

} // verus!
