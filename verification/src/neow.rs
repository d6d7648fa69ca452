//! The bonuses offered at the start of a run.

use vstd::prelude::*;
use crate::rng::{draw, Rng, State};

verus! {

/// The three offers at the start of a run.
#[derive(Debug, PartialEq, Eq, Clone, Copy)]
pub struct NeowBonuses {
    pub first: FirstBonus,
    pub second: SecondBonus,
    pub third: (Drawback, ThirdBonus),
}

/// The first offer.
#[derive(Debug, PartialEq, Eq, Clone, Copy, Structural)]
pub enum FirstBonus {
    ThreeCards,
    OneRandomRareCard,
    RemoveCard,
    UpgradeCard,
    TransformCard,
    RandomColorless,
}

/// The second offer.
#[derive(Debug, PartialEq, Eq, Clone, Copy, Structural)]
pub enum SecondBonus {
    ThreeSmallPotions,
    RandomCommonRelic,
    TenPercentHpBonus,
    ThreeEnemyKill,
    HundredGold,
}

/// The bonus of the third offer.
#[derive(Debug, PartialEq, Eq, Clone, Copy, Structural)]
pub enum ThirdBonus {
    RandomColorlessChoice,
    RemoveTwo,
    OneRareRelic,
    ThreeRareCards,
    TwoFiftyGold,
    TransformTwoCards,
    TwentyPercentHpBonus,
}

/// The price of the third offer.
#[derive(Debug, PartialEq, Eq, Clone, Copy, Structural)]
pub enum Drawback {
    TenPercentHpLoss,
    NoGold,
    Curse,
    PercentDamage,
}

/// The first offer for a draw among six.
pub open spec fn first_bonus(d: int) -> FirstBonus {
    if d == 0 {
        FirstBonus::ThreeCards
    } else if d == 1 {
        FirstBonus::OneRandomRareCard
    } else if d == 2 {
        FirstBonus::RemoveCard
    } else if d == 3 {
        FirstBonus::UpgradeCard
    } else if d == 4 {
        FirstBonus::TransformCard
    } else {
        FirstBonus::RandomColorless
    }
}

/// The second offer for a draw among five.
pub open spec fn second_bonus(d: int) -> SecondBonus {
    if d == 0 {
        SecondBonus::ThreeSmallPotions
    } else if d == 1 {
        SecondBonus::RandomCommonRelic
    } else if d == 2 {
        SecondBonus::TenPercentHpBonus
    } else if d == 3 {
        SecondBonus::ThreeEnemyKill
    } else {
        SecondBonus::HundredGold
    }
}

/// The price for a draw among four.
pub open spec fn drawback(d: int) -> Drawback {
    if d == 0 {
        Drawback::TenPercentHpLoss
    } else if d == 1 {
        Drawback::NoGold
    } else if d == 2 {
        Drawback::Curse
    } else {
        Drawback::PercentDamage
    }
}

/// The seven bonuses of the third offer, in the order in which they are
/// drawn.
pub open spec fn third_bonuses() -> Seq<ThirdBonus> {
    seq![
        ThirdBonus::RandomColorlessChoice,
        ThirdBonus::RemoveTwo,
        ThirdBonus::OneRareRelic,
        ThirdBonus::ThreeRareCards,
        ThirdBonus::TwoFiftyGold,
        ThirdBonus::TransformTwoCards,
        ThirdBonus::TwentyPercentHpBonus,
    ]
}

/// The index, among the seven bonuses, of the one that a price rules out;
/// 7 where it rules out none.
pub open spec fn ruled_out(price: Drawback) -> int {
    match price {
        Drawback::TenPercentHpLoss => 6,
        Drawback::NoGold => 4,
        Drawback::Curse => 1,
        Drawback::PercentDamage => 7,
    }
}

/// Number of bonuses among which the third offer draws for a price.
pub open spec fn third_choices(price: Drawback) -> u64 {
    if ruled_out(price) == 7 {
        7
    } else {
        6
    }
}

/// The bonus of the third offer for a price and a draw: the draw counts
/// through the seven bonuses without the one that the price rules out.
pub open spec fn third_bonus(price: Drawback, d: int) -> ThirdBonus {
    if d < ruled_out(price) {
        third_bonuses()[d]
    } else {
        third_bonuses()[d + 1]
    }
}

/// The offers that a generator in `state` produces.
pub open spec fn bonuses(state: State) -> NeowBonuses {
    let (d1, s1) = draw(state, 6);
    let (d2, s2) = draw(s1, 5);
    let (d3, s3) = draw(s2, 4);
    let (d4, s4) = draw(s3, third_choices(drawback(d3)));
    NeowBonuses {
        first: first_bonus(d1),
        second: second_bonus(d2),
        third: (drawback(d3), third_bonus(drawback(d3), d4)),
    }
}

/// The bonus with index `index` among the seven.
fn third_bonus_at(index: u64) -> (bonus: ThirdBonus)
    requires
        index < 7,
    ensures
        bonus == third_bonuses()[index as int],
{
    if index == 0 {
        ThirdBonus::RandomColorlessChoice
    } else if index == 1 {
        ThirdBonus::RemoveTwo
    } else if index == 2 {
        ThirdBonus::OneRareRelic
    } else if index == 3 {
        ThirdBonus::ThreeRareCards
    } else if index == 4 {
        ThirdBonus::TwoFiftyGold
    } else if index == 5 {
        ThirdBonus::TransformTwoCards
    } else {
        ThirdBonus::TwentyPercentHpBonus
    }
}

impl NeowBonuses {
    /// The offers that the generator's draws produce: the first among six,
    /// the second among five, the price among four and the bonus of the
    /// third among those that the price leaves.
    pub fn generate(rng: Rng) -> (offers: Self)
        ensures
            offers == bonuses(rng@),
    {
        let mut rng = rng;
        let d1 = rng.next_capped_u64(6);
        let first = if d1 == 0 {
            FirstBonus::ThreeCards
        } else if d1 == 1 {
            FirstBonus::OneRandomRareCard
        } else if d1 == 2 {
            FirstBonus::RemoveCard
        } else if d1 == 3 {
            FirstBonus::UpgradeCard
        } else if d1 == 4 {
            FirstBonus::TransformCard
        } else {
            FirstBonus::RandomColorless
        };
        let d2 = rng.next_capped_u64(5);
        let second = if d2 == 0 {
            SecondBonus::ThreeSmallPotions
        } else if d2 == 1 {
            SecondBonus::RandomCommonRelic
        } else if d2 == 2 {
            SecondBonus::TenPercentHpBonus
        } else if d2 == 3 {
            SecondBonus::ThreeEnemyKill
        } else {
            SecondBonus::HundredGold
        };
        let d3 = rng.next_capped_u64(4);
        let (price, skipped): (Drawback, u64) = if d3 == 0 {
            (Drawback::TenPercentHpLoss, 6)
        } else if d3 == 1 {
            (Drawback::NoGold, 4)
        } else if d3 == 2 {
            (Drawback::Curse, 1)
        } else {
            (Drawback::PercentDamage, 7)
        };
        let choices: u64 = if skipped == 7 {
            7
        } else {
            6
        };
        let d4 = rng.next_capped_u64(choices);
        let third_bonus = if d4 < skipped {
            third_bonus_at(d4)
        } else {
            third_bonus_at(d4 + 1)
        };
        NeowBonuses { first, second, third: (price, third_bonus) }
    }
}

} // verus!
