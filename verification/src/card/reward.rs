//! The cards offered as a reward: three at a time, each of a drawn rarity
//! and drawn from the character's cards of that rarity.

pub mod filters;

use vstd::prelude::*;
use super::pool::{lemma_pools_are_not_empty, reversed_pool, CharacterCards};
use super::{Card, Rarity};
use crate::character::Character;
use crate::rng::{draw, xs128_advanced, Rng, State, MAX_MODULUS};
use crate::unlock::Unlocks;

verus! {

/// Offers rewards out of a character's cards; `REWARDS` is the number of
/// rewards that are generated together.
pub struct CardRewarder<'a, const REWARDS: usize> {
    pub common: &'a [Card],
    pub uncommon: &'a [Card],
    pub rare: &'a [Card],
}

/// A reward: three cards.
pub type CardReward = [Card; 3];

/// What is added to the percentage that decides a card's rarity. It sinks
/// with every common card and is set back by a rare one.
#[derive(Debug, Clone, Copy, PartialEq, Eq, Structural)]
pub struct Offset {
    pub offset: i64,
}

/// The offset at the start and after a rare card.
pub const DEFAULT_OFFSET: i64 = -5;

/// The highest adjusted percentage that gives an uncommon card.
pub const UNCOMMON_CUTOFF: i64 = 37;

/// The lowest adjusted percentage that gives no rare card.
pub const RARE_CUTOFF: i64 = 3;

/// How often a card is drawn again when the reward holds it already,
/// before the last draw is kept.
pub const REDRAW_LIMIT: u64 = 0xffff_ffff_ffff_ffff;

/// The cards of each rarity out of which rewards are drawn.
pub ghost struct Pools {
    pub common: Seq<Card>,
    pub uncommon: Seq<Card>,
    pub rare: Seq<Card>,
}

/// The cards of a rarity.
pub open spec fn pool_of(pools: Pools, rarity: Rarity) -> Seq<Card> {
    match rarity {
        Rarity::Common => pools.common,
        Rarity::Uncommon => pools.uncommon,
        Rarity::Rare => pools.rare,
    }
}

/// The rarity for an adjusted percentage.
pub open spec fn rarity_for(adjusted: int) -> Rarity {
    if adjusted < RARE_CUTOFF {
        Rarity::Rare
    } else if adjusted <= UNCOMMON_CUTOFF {
        Rarity::Uncommon
    } else {
        Rarity::Common
    }
}

/// The offset after a card of the rarity for an adjusted percentage.
pub open spec fn offset_after(offset: int, adjusted: int) -> int {
    if adjusted < RARE_CUTOFF {
        DEFAULT_OFFSET as int
    } else if adjusted <= UNCOMMON_CUTOFF {
        offset
    } else {
        offset - 1
    }
}

/// The rarity of the next card, the offset after it and the state that the
/// draw leaves.
pub open spec fn drawn_rarity(state: State, offset: int) -> (Rarity, int, State) {
    let (d, after) = draw(state, 100);
    (rarity_for(d + offset), offset_after(offset, d + offset), after)
}

/// A card drawn out of `pool`, and the state that the draw leaves.
pub open spec fn drawn_card(pool: Seq<Card>, state: State) -> (Card, State) {
    let (index, after) = draw(state, pool.len() as u64);
    (pool[index], after)
}

/// Whether one of the three cards of a reward is `card`.
pub open spec fn holds(reward: Seq<Card>, card: Card) -> bool {
    reward[0] == card || reward[1] == card || reward[2] == card
}

/// The card for the next place of a reward after a draw `card`: drawn
/// again while the reward holds it already, at most `tries` times.
pub open spec fn fresh_card(
    pool: Seq<Card>,
    reward: Seq<Card>,
    card: Card,
    state: State,
    tries: nat,
) -> (Card, State)
    decreases tries,
{
    if !holds(reward, card) || tries == 0 {
        (card, state)
    } else {
        let (again, after) = drawn_card(pool, state);
        fresh_card(pool, reward, again, after, (tries - 1) as nat)
    }
}

/// The reward, the offset and the state after the places from `place` on
/// have been filled.
pub open spec fn filled_from(
    pools: Pools,
    state: State,
    offset: int,
    reward: Seq<Card>,
    place: int,
) -> (Seq<Card>, int, State)
    decreases 3 - place,
{
    if place >= 3 || place < 0 {
        (reward, offset, state)
    } else {
        let (rarity, next_offset, s1) = drawn_rarity(state, offset);
        let (first, s2) = drawn_card(pool_of(pools, rarity), s1);
        let (card, s3) = fresh_card(pool_of(pools, rarity), reward, first, s2, REDRAW_LIMIT as nat);
        filled_from(pools, s3, next_offset, reward.update(place, card), place + 1)
    }
}

/// A reward without cards yet.
pub open spec fn no_reward() -> Seq<Card> {
    seq![Card::Invalid, Card::Invalid, Card::Invalid]
}

/// A reward, the offset after it and the state that its generation
/// leaves: the three places are filled in turn, then the generator is
/// advanced by three steps.
pub open spec fn reward_for(pools: Pools, state: State, offset: int) -> (Seq<Card>, int, State) {
    let (reward, next_offset, after) = filled_from(pools, state, offset, no_reward(), 0);
    (reward, next_offset, xs128_advanced(after, 3))
}

/// The first `count` rewards that a generator in `state` produces, one
/// after the other, and the offset and the state after them.
pub open spec fn rewards_for(pools: Pools, state: State, offset: int, count: int) -> (
    Seq<Seq<Card>>,
    int,
    State,
)
    decreases count,
{
    if count <= 0 {
        (Seq::empty(), offset, state)
    } else {
        let (before, o1, s1) = rewards_for(pools, state, offset, count - 1);
        let (reward, o2, s2) = reward_for(pools, s1, o1);
        (before.push(reward), o2, s2)
    }
}

impl Offset {
    /// The offset is between the lowest that it can sink to and the one
    /// that it starts from.
    pub open spec fn wf(&self) -> bool {
        -62 <= self.offset <= DEFAULT_OFFSET
    }

    fn reset(&mut self)
        ensures
            final(self).offset == DEFAULT_OFFSET,
    {
        self.offset = DEFAULT_OFFSET;
    }

    fn decrement(&mut self)
        requires
            old(self).offset > i64::MIN,
        ensures
            final(self).offset == old(self).offset - 1,
    {
        self.offset = self.offset - 1;
    }

    fn adjusted_percentage(&self, rng: &mut Rng) -> (adjusted: i64)
        requires
            self.wf(),
        ensures
            adjusted == draw(old(rng)@, 100).0 + self.offset,
            final(rng)@ == draw(old(rng)@, 100).1,
    {
        rng.next_capped_u64(100) as i64 + self.offset
    }

    /// Draws the rarity of the next card: rare below the rare cutoff,
    /// uncommon up to the uncommon cutoff, else common. A rare card sets
    /// the offset back, a common one lowers it.
    pub fn generate_rarity(&mut self, rng: &mut Rng) -> (rarity: Rarity)
        requires
            old(self).wf(),
        ensures
            final(self).wf(),
            (rarity, final(self).offset as int, final(rng)@) == drawn_rarity(
                old(rng)@,
                old(self).offset as int,
            ),
    {
        let adjusted_percentage = self.adjusted_percentage(rng);
        if adjusted_percentage < RARE_CUTOFF {
            self.reset();
            Rarity::Rare
        } else if adjusted_percentage <= UNCOMMON_CUTOFF {
            Rarity::Uncommon
        } else {
            self.decrement();
            Rarity::Common
        }
    }
}

impl Default for Offset {
    fn default() -> (offset: Self)
        ensures
            offset.offset == DEFAULT_OFFSET,
    {
        Offset { offset: DEFAULT_OFFSET }
    }
}

/// Whether one of the three cards of a reward is `card`.
fn reward_holds(reward: &[Card; 3], card: Card) -> (r: bool)
    ensures
        r == holds(reward@, card),
{
    reward[0] == card || reward[1] == card || reward[2] == card
}

impl<'a, const REWARDS: usize> CardRewarder<'a, REWARDS> {
    /// The cards of each rarity.
    pub open spec fn pools(&self) -> Pools {
        Pools { common: self.common@, uncommon: self.uncommon@, rare: self.rare@ }
    }

    /// There is a card of every rarity, and no more of any than the
    /// generator can draw among.
    pub open spec fn wf(&self) -> bool {
        &&& 0 < self.common@.len() <= MAX_MODULUS
        &&& 0 < self.uncommon@.len() <= MAX_MODULUS
        &&& 0 < self.rare@.len() <= MAX_MODULUS
    }

    /// Whether there is a card of every rarity.
    pub fn is_ready(&self) -> (ready: bool)
        ensures
            ready == self.wf(),
    {
        0 < self.common.len() && self.common.len() as u64 <= MAX_MODULUS && 0
            < self.uncommon.len() && self.uncommon.len() as u64 <= MAX_MODULUS && 0
            < self.rare.len() && self.rare.len() as u64 <= MAX_MODULUS
    }

    /// The rewarder for the cards of `character`. Locked cards are not
    /// supported: `unlocks` is to be `None`.
    pub fn new(character: Character, unlocks: Option<Unlocks>) -> (r: CardRewarder<
        'static,
        REWARDS,
    >)
        requires
            unlocks is None,
        ensures
            r.wf(),
            r.common@ == reversed_pool(character, Some(Rarity::Common)),
            r.uncommon@ == reversed_pool(character, Some(Rarity::Uncommon)),
            r.rare@ == reversed_pool(character, Some(Rarity::Rare)),
    {
        let cards = CharacterCards::new(character);
        proof {
            lemma_pools_are_not_empty(character, Some(Rarity::Common));
            lemma_pools_are_not_empty(character, Some(Rarity::Uncommon));
            lemma_pools_are_not_empty(character, Some(Rarity::Rare));
        }
        CardRewarder {
            common: cards.common.slice,
            uncommon: cards.uncommon.slice,
            rare: cards.rare.slice,
        }
    }

    /// The rewards that the generator's draws produce, one after the
    /// other, from the offset at the start.
    pub fn generate_rewards(&self, rng: &mut Rng) -> (rewards: [CardReward; REWARDS])
        requires
            self.wf(),
        ensures
            ({
                let (all, offset, after) = rewards_for(
                    self.pools(),
                    old(rng)@,
                    DEFAULT_OFFSET as int,
                    REWARDS as int,
                );
                &&& final(rng)@ == after
                &&& forall|k: int| 0 <= k < REWARDS ==> (#[trigger] rewards[k])@ == all[k]
            }),
    {
        let mut offset = Offset::default();
        let mut rewards: [CardReward; REWARDS] = [[Card::Invalid; 3]; REWARDS];
        let mut done: usize = 0;
        while done < REWARDS
            invariant
                done <= REWARDS,
                self.wf(),
                offset.wf(),
                ({
                    let (all, o, after) = rewards_for(
                        self.pools(),
                        old(rng)@,
                        DEFAULT_OFFSET as int,
                        done as int,
                    );
                    &&& rng@ == after
                    &&& offset.offset == o
                    &&& all.len() == done
                    &&& forall|k: int| 0 <= k < done ==> (#[trigger] rewards[k])@ == all[k]
                }),
            decreases REWARDS - done,
        {
            let reward = self.generate_reward(rng, &mut offset);
            rewards[done] = reward;
            done = done + 1;
        }
        rewards
    }

    /// One reward: each of its three cards has a drawn rarity and is drawn
    /// out of the cards of that rarity until the reward does not hold it
    /// yet; then the generator is advanced by three steps.
    pub fn generate_reward(&self, rng: &mut Rng, offset: &mut Offset) -> (reward: CardReward)
        requires
            self.wf(),
            old(offset).wf(),
        ensures
            final(offset).wf(),
            (reward@, final(offset).offset as int, final(rng)@) == reward_for(
                self.pools(),
                old(rng)@,
                old(offset).offset as int,
            ),
    {
        let mut reward: [Card; 3] = [Card::Invalid, Card::Invalid, Card::Invalid];
        assert(reward@ =~= no_reward());
        let mut i: usize = 0;
        while i < 3
            invariant
                i <= 3,
                self.wf(),
                offset.wf(),
                filled_from(self.pools(), rng@, offset.offset as int, reward@, i as int)
                    == filled_from(
                    self.pools(),
                    old(rng)@,
                    old(offset).offset as int,
                    no_reward(),
                    0,
                ),
            decreases 3 - i,
        {
            let rarity = offset.generate_rarity(rng);
            let ghost pool = pool_of(self.pools(), rarity);
            let ghost held = reward@;
            let mut card = self.generate_card(rng, rarity);
            let ghost first = card;
            let ghost start = rng@;
            let mut tries: u64 = REDRAW_LIMIT;
            while reward_holds(&reward, card) && tries > 0
                invariant
                    self.wf(),
                    pool == pool_of(self.pools(), rarity),
                    held == reward@,
                    fresh_card(pool, held, card, rng@, tries as nat) == fresh_card(
                        pool,
                        held,
                        first,
                        start,
                        REDRAW_LIMIT as nat,
                    ),
                decreases tries,
            {
                card = self.generate_card(rng, rarity);
                tries = tries - 1;
            }
            reward[i] = card;
            assert(reward@ =~= held.update(i as int, card));
            i = i + 1;
        }
        rng.advance(3);
        reward
    }

    /// A card drawn out of the cards of `rarity`.
    pub fn generate_card(&self, rng: &mut Rng, rarity: Rarity) -> (card: Card)
        requires
            self.wf(),
        ensures
            (card, final(rng)@) == drawn_card(pool_of(self.pools(), rarity), old(rng)@),
    {
        let cards = self.card_pool(rarity);
        cards[rng.next_capped_u64(cards.len() as u64) as usize]
    }

    /// The cards of `rarity`.
    pub fn card_pool(&self, rarity: Rarity) -> (cards: &[Card])
        ensures
            cards@ == pool_of(self.pools(), rarity),
    {
        match rarity {
            Rarity::Common => self.common,
            Rarity::Uncommon => self.uncommon,
            Rarity::Rare => self.rare,
        }
    }
}

} // verus!
