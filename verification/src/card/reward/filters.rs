//! A filter on the cards that a seed's first rewards offer.

use vstd::prelude::*;
use super::{rewards_for, CardRewarder, DEFAULT_OFFSET};
use crate::card::pool::reversed_pool;
use crate::card::{Card, Rarity};
use crate::character::Character;
use crate::filter::SeedFilter;
use crate::rng::{xs128_seeded, Rng, State};
use crate::seed::Seed;
use crate::unlock::Unlocks;

verus! {

/// Rejects the seeds whose first `REWARDS` rewards offer one of the
/// rejected cards.
pub struct CardRewardFilter<'a, const REWARDS: usize> {
    pub reward: CardRewarder<'a, REWARDS>,
    pub rejected_cards: &'a [Card],
}

/// Whether one of the first `count` rewards holds one of the rejected
/// cards.
pub open spec fn offers_rejected(rewards: Seq<Seq<Card>>, rejected: Seq<Card>, count: int) -> bool
    decreases count,
{
    if count <= 0 {
        false
    } else {
        offers_rejected(rewards, rejected, count - 1) || rejected.contains(rewards[count - 1][0])
            || rejected.contains(rewards[count - 1][1]) || rejected.contains(
            rewards[count - 1][2],
        )
    }
}

/// Whether `card` occurs in `cards`.
fn has_card(cards: &[Card], card: Card) -> (r: bool)
    ensures
        r == cards@.contains(card),
{
    let mut index: usize = 0;
    while index < cards.len()
        invariant
            index <= cards@.len(),
            forall|i: int| 0 <= i < index ==> cards@[i] != card,
        decreases cards@.len() - index,
    {
        if cards[index] == card {
            return true;
        }
        index = index + 1;
    }
    false
}

impl<'a, const REWARDS: usize> CardRewardFilter<'a, REWARDS> {
    /// The filter for the rewards of `character` and the cards to reject.
    /// Locked cards are not supported: `unlocks` is to be `None`.
    pub fn new(character: Character, unlocks: Option<Unlocks>, rejected_cards: &'a [Card]) -> (r:
        Self)
        requires
            unlocks is None,
        ensures
            r.reward.wf(),
            r.reward.common@ == reversed_pool(character, Some(Rarity::Common)),
            r.reward.uncommon@ == reversed_pool(character, Some(Rarity::Uncommon)),
            r.reward.rare@ == reversed_pool(character, Some(Rarity::Rare)),
            r.rejected_cards@ == rejected_cards@,
    {
        CardRewardFilter { reward: CardRewarder::new(character, unlocks), rejected_cards }
    }
}

impl<'a, const REWARDS: usize> SeedFilter for CardRewardFilter<'a, REWARDS> {
    open spec fn wf(&self) -> bool {
        self.reward.wf()
    }

    open spec fn rejects(&self, state: State) -> bool {
        offers_rejected(
            rewards_for(self.reward.pools(), state, DEFAULT_OFFSET as int, REWARDS as int).0,
            self.rejected_cards@,
            REWARDS as int,
        )
    }

    open spec fn rejects_seed(&self, seed: Seed) -> bool {
        self.rejects(xs128_seeded(seed.seed as u64))
    }

    fn is_ready(&self) -> (ready: bool) {
        self.reward.is_ready()
    }

    fn reject_rng(&self, rng: &mut Rng) -> (rejected: bool) {
        let rewards = self.reward.generate_rewards(rng);
        let ghost all = rewards_for(
            self.reward.pools(),
            old(rng)@,
            DEFAULT_OFFSET as int,
            REWARDS as int,
        ).0;
        let mut found = false;
        let mut k: usize = 0;
        while k < REWARDS
            invariant
                k <= REWARDS,
                forall|j: int| 0 <= j < REWARDS ==> (#[trigger] rewards[j])@ == all[j],
                found == offers_rejected(all, self.rejected_cards@, k as int),
            decreases REWARDS - k,
        {
            let reward = rewards[k];
            assert(reward@ == all[k as int]);
            if has_card(self.rejected_cards, reward[0]) || has_card(self.rejected_cards, reward[1])
                || has_card(self.rejected_cards, reward[2]) {
                found = true;
            }
            k = k + 1;
        }
        found
    }

    fn reject(&self, seed: Seed) -> (rejected: bool) {
        let mut rng = seed.rng();
        self.reject_rng(&mut rng)
    }
}

} // verus!
