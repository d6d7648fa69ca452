//! How far each character's cards are unlocked.

use vstd::prelude::*;

verus! {

/// How far a character's cards are unlocked.
#[derive(Debug, PartialEq, Eq, Clone, Copy, Structural)]
pub enum UnlockLevel {
    Zero,
    One,
    Two,
    Three,
    Four,
    Five,
}

/// Number of unlock levels.
pub const UNLOCK_LEVELS: usize = 6;

/// The unlock level of each of the four characters.
#[derive(Debug, PartialEq, Eq, Clone, Copy)]
pub struct Unlocks {
    pub levels: [UnlockLevel; 4],
}

/// The number of an unlock level.
pub open spec fn level_number(level: UnlockLevel) -> int {
    match level {
        UnlockLevel::Zero => 0,
        UnlockLevel::One => 1,
        UnlockLevel::Two => 2,
        UnlockLevel::Three => 3,
        UnlockLevel::Four => 4,
        UnlockLevel::Five => 5,
    }
}

/// The code of four levels: the number whose digits of base 6 are the
/// numbers of the levels, the first character's the most significant.
pub open spec fn code_of(levels: Seq<UnlockLevel>) -> int {
    ((level_number(levels[0]) * 6 + level_number(levels[1])) * 6 + level_number(levels[2])) * 6
        + level_number(levels[3])
}

/// The levels that the four lowest digits of base 6 of a number name, the
/// first character's the least significant.
pub open spec fn levels_of(n: int) -> Seq<int> {
    seq![n % 6, (n / 6) % 6, (n / 36) % 6, (n / 216) % 6]
}

impl UnlockLevel {
    /// The number of the level.
    pub fn number(self) -> (n: usize)
        ensures
            n == level_number(self),
    {
        match self {
            UnlockLevel::Zero => 0,
            UnlockLevel::One => 1,
            UnlockLevel::Two => 2,
            UnlockLevel::Three => 3,
            UnlockLevel::Four => 4,
            UnlockLevel::Five => 5,
        }
    }

    /// The level with number `n`, if `n` is below six.
    pub fn from_repr(n: usize) -> (level: Option<Self>)
        ensures
            match level {
                Some(l) => n < 6 && level_number(l) == n,
                None => n >= 6,
            },
    {
        match n {
            0 => Some(UnlockLevel::Zero),
            1 => Some(UnlockLevel::One),
            2 => Some(UnlockLevel::Two),
            3 => Some(UnlockLevel::Three),
            4 => Some(UnlockLevel::Four),
            5 => Some(UnlockLevel::Five),
            _ => None,
        }
    }
}

impl Unlocks {
    /// Everything unlocked for every character.
    pub fn full() -> (unlocks: Self)
        ensures
            forall|i: int| 0 <= i < 4 ==> unlocks.levels[i] == UnlockLevel::Five,
    {
        Unlocks {
            levels: [UnlockLevel::Five, UnlockLevel::Five, UnlockLevel::Five, UnlockLevel::Five],
        }
    }

    /// The unlocks with the given level for each character.
    pub fn new(levels: [UnlockLevel; 4]) -> (unlocks: Self)
        ensures
            unlocks.levels == levels,
    {
        Unlocks { levels }
    }

    /// The four levels as one number: its digits of base 6, the first
    /// character's the most significant.
    pub fn encode(&self) -> (n: usize)
        ensures
            n == code_of(self.levels@),
            n < 1296,
    {
        let mut n: usize = 0;
        let mut i: usize = 0;
        while i < 4
            invariant
                i <= 4,
                n == (if i == 0 {
                    0
                } else if i == 1 {
                    level_number(self.levels[0])
                } else if i == 2 {
                    level_number(self.levels[0]) * 6 + level_number(self.levels[1])
                } else if i == 3 {
                    (level_number(self.levels[0]) * 6 + level_number(self.levels[1])) * 6
                        + level_number(self.levels[2])
                } else {
                    code_of(self.levels@)
                }),
            decreases 4 - i,
        {
            n = n * UNLOCK_LEVELS;
            n = n + self.levels[i].number();
            i = i + 1;
        }
        n
    }

    /// The levels that the four lowest digits of base 6 of `n` name, the
    /// first character's the least significant. Every number names four
    /// levels.
    pub fn decode(n: usize) -> (unlocks: Option<Self>)
        ensures
            match unlocks {
                Some(u) => forall|i: int|
                    0 <= i < 4 ==> level_number(#[trigger] u.levels[i]) == levels_of(n as int)[i],
                None => false,
            },
    {
        let mut levels = [UnlockLevel::Zero, UnlockLevel::Zero, UnlockLevel::Zero, UnlockLevel::Zero];
        let mut rest = n;
        let mut i: usize = 0;
        while i < 4
            invariant
                i <= 4,
                rest == (if i == 0 {
                    n as int
                } else if i == 1 {
                    n as int / 6
                } else if i == 2 {
                    n as int / 36
                } else if i == 3 {
                    n as int / 216
                } else {
                    n as int / 1296
                }),
                forall|j: int|
                    0 <= j < i ==> level_number(#[trigger] levels[j]) == levels_of(n as int)[j],
            decreases 4 - i,
        {
            match UnlockLevel::from_repr(rest % UNLOCK_LEVELS) {
                Some(level) => {
                    levels[i] = level;
                },
                None => {
                    return None;
                },
            }
            i = i + 1;
            rest = rest / UNLOCK_LEVELS;
        }
        Some(Unlocks { levels })
    }
}

} // verus!
