//! The cards that a character can be offered: all of them, and those of
//! each rarity.

use vstd::prelude::*;
use super::{
    card_index, lemma_trimmed_is_not_empty, trimmed, Card, CardSlice, Rarity, CARDS, REV_CARDS,
};
use crate::character::Character;

verus! {

/// The runs of a character's cards: all of them in the order of the list
/// of cards, and those of each rarity in the reverse order.
pub struct CharacterCards<'a> {
    pub all: CardSlice<'a>,
    pub common: CardSlice<'a>,
    pub uncommon: CardSlice<'a>,
    pub rare: CardSlice<'a>,
}

/// Where a run of cards begins in the list of cards, and how long it is.
pub struct CardSliceParameters {
    pub first: Card,
    pub len: usize,
}

/// The first card of a character's cards of a rarity; of all the
/// character's cards where no rarity is given.
pub open spec fn pool_first(character: Character, rarity: Option<Rarity>) -> Card {
    match (character, rarity) {
        (Character::Ironclad, Some(Rarity::Common)) => Card::SwordBoomerang,
        (Character::Ironclad, Some(Rarity::Uncommon)) => Card::Evolve,
        (Character::Ironclad, Some(Rarity::Rare)) => Card::DoubleTap,
        (Character::Silent, Some(Rarity::Common)) => Card::FlyingKnee,
        (Character::Silent, Some(Rarity::Uncommon)) => Card::Predator,
        (Character::Silent, Some(Rarity::Rare)) => Card::Alchemize,
        (Character::Defect, Some(Rarity::Common)) => Card::SteamBarrier,
        (Character::Defect, Some(Rarity::Uncommon)) => Card::DoomAndGloom,
        (Character::Defect, Some(Rarity::Rare)) => Card::MultiCast,
        (Character::Watcher, Some(Rarity::Common)) => Card::EmptyFist,
        (Character::Watcher, Some(Rarity::Uncommon)) => Card::Pray,
        (Character::Watcher, Some(Rarity::Rare)) => Card::Judgment,
        (Character::Ironclad, None) => Card::SwordBoomerang,
        (Character::Silent, None) => Card::FlyingKnee,
        (Character::Defect, None) => Card::SteamBarrier,
        (Character::Watcher, None) => Card::EmptyFist,
    }
}

/// Number of a character's cards of a rarity; of all the character's cards
/// where no rarity is given.
pub open spec fn pool_len(character: Character, rarity: Option<Rarity>) -> int {
    match (character, rarity) {
        (Character::Ironclad, Some(Rarity::Common)) => 20,
        (Character::Ironclad, Some(Rarity::Uncommon)) => 36,
        (Character::Ironclad, Some(Rarity::Rare)) => 16,
        (Character::Silent, Some(Rarity::Common)) => 19,
        (Character::Silent, Some(Rarity::Uncommon)) => 33,
        (Character::Silent, Some(Rarity::Rare)) => 19,
        (Character::Defect, Some(Rarity::Common)) => 18,
        (Character::Defect, Some(Rarity::Uncommon)) => 36,
        (Character::Defect, Some(Rarity::Rare)) => 17,
        (Character::Watcher, Some(Rarity::Common)) => 19,
        (Character::Watcher, Some(Rarity::Uncommon)) => 35,
        (Character::Watcher, Some(Rarity::Rare)) => 17,
        (Character::Ironclad, None) => 72,
        (Character::Silent, None) => 71,
        (Character::Defect, None) => 71,
        (Character::Watcher, None) => 71,
    }
}

/// The last card of the run that begins with `first` and is `len` cards
/// long.
pub open spec fn pool_last(first: Card, len: int) -> Card {
    CARDS@[card_index(first) + len - 1]
}

/// A character's cards of a rarity in the order of the list of cards.
pub open spec fn pool(character: Character, rarity: Option<Rarity>) -> Seq<Card> {
    trimmed(
        CARDS@,
        pool_first(character, rarity),
        pool_last(pool_first(character, rarity), pool_len(character, rarity)),
    )
}

/// A character's cards of a rarity in the reverse order of the list of
/// cards.
pub open spec fn reversed_pool(character: Character, rarity: Option<Rarity>) -> Seq<Card> {
    trimmed(
        REV_CARDS@,
        pool_last(pool_first(character, rarity), pool_len(character, rarity)),
        pool_first(character, rarity),
    )
}

/// No character's run of cards is empty, in either order.
pub proof fn lemma_pools_are_not_empty(character: Character, rarity: Option<Rarity>)
    ensures
        0 < pool(character, rarity).len() <= 321,
        0 < reversed_pool(character, rarity).len() <= 321,
{
    match (character, rarity) {
        (Character::Ironclad, Some(Rarity::Common)) => {
            assert(CARDS@[1] == Card::SwordBoomerang && CARDS@[20] == Card::Anger);
            assert(REV_CARDS@[300] == Card::Anger && REV_CARDS@[319] == Card::SwordBoomerang);
            lemma_trimmed_is_not_empty(CARDS@, Card::SwordBoomerang, Card::Anger, 1, 20);
            lemma_trimmed_is_not_empty(REV_CARDS@, Card::Anger, Card::SwordBoomerang, 300, 319);
        },
        (Character::Ironclad, Some(Rarity::Uncommon)) => {
            assert(CARDS@[21] == Card::Evolve && CARDS@[56] == Card::SpotWeakness);
            assert(REV_CARDS@[264] == Card::SpotWeakness && REV_CARDS@[299] == Card::Evolve);
            lemma_trimmed_is_not_empty(CARDS@, Card::Evolve, Card::SpotWeakness, 21, 56);
            lemma_trimmed_is_not_empty(REV_CARDS@, Card::SpotWeakness, Card::Evolve, 264, 299);
        },
        (Character::Ironclad, Some(Rarity::Rare)) => {
            assert(CARDS@[57] == Card::DoubleTap && CARDS@[72] == Card::Immolate);
            assert(REV_CARDS@[248] == Card::Immolate && REV_CARDS@[263] == Card::DoubleTap);
            lemma_trimmed_is_not_empty(CARDS@, Card::DoubleTap, Card::Immolate, 57, 72);
            lemma_trimmed_is_not_empty(REV_CARDS@, Card::Immolate, Card::DoubleTap, 248, 263);
        },
        (Character::Silent, Some(Rarity::Common)) => {
            assert(CARDS@[73] == Card::FlyingKnee && CARDS@[91] == Card::CloakAndDagger);
            assert(REV_CARDS@[229] == Card::CloakAndDagger && REV_CARDS@[247] == Card::FlyingKnee);
            lemma_trimmed_is_not_empty(CARDS@, Card::FlyingKnee, Card::CloakAndDagger, 73, 91);
            lemma_trimmed_is_not_empty(REV_CARDS@, Card::CloakAndDagger, Card::FlyingKnee, 229, 247);
        },
        (Character::Silent, Some(Rarity::Uncommon)) => {
            assert(CARDS@[92] == Card::Predator && CARDS@[124] == Card::CripplingCloud);
            assert(REV_CARDS@[196] == Card::CripplingCloud && REV_CARDS@[228] == Card::Predator);
            lemma_trimmed_is_not_empty(CARDS@, Card::Predator, Card::CripplingCloud, 92, 124);
            lemma_trimmed_is_not_empty(REV_CARDS@, Card::CripplingCloud, Card::Predator, 196, 228);
        },
        (Character::Silent, Some(Rarity::Rare)) => {
            assert(CARDS@[125] == Card::Alchemize && CARDS@[143] == Card::GrandFinale);
            assert(REV_CARDS@[177] == Card::GrandFinale && REV_CARDS@[195] == Card::Alchemize);
            lemma_trimmed_is_not_empty(CARDS@, Card::Alchemize, Card::GrandFinale, 125, 143);
            lemma_trimmed_is_not_empty(REV_CARDS@, Card::GrandFinale, Card::Alchemize, 177, 195);
        },
        (Character::Defect, Some(Rarity::Common)) => {
            assert(CARDS@[144] == Card::SteamBarrier && CARDS@[161] == Card::GoForTheEyes);
            assert(REV_CARDS@[159] == Card::GoForTheEyes && REV_CARDS@[176] == Card::SteamBarrier);
            lemma_trimmed_is_not_empty(CARDS@, Card::SteamBarrier, Card::GoForTheEyes, 144, 161);
            lemma_trimmed_is_not_empty(REV_CARDS@, Card::GoForTheEyes, Card::SteamBarrier, 159, 176);
        },
        (Character::Defect, Some(Rarity::Uncommon)) => {
            assert(CARDS@[162] == Card::DoomAndGloom && CARDS@[197] == Card::Storm);
            assert(REV_CARDS@[123] == Card::Storm && REV_CARDS@[158] == Card::DoomAndGloom);
            lemma_trimmed_is_not_empty(CARDS@, Card::DoomAndGloom, Card::Storm, 162, 197);
            lemma_trimmed_is_not_empty(REV_CARDS@, Card::Storm, Card::DoomAndGloom, 123, 158);
        },
        (Character::Defect, Some(Rarity::Rare)) => {
            assert(CARDS@[198] == Card::MultiCast && CARDS@[214] == Card::CoreSurge);
            assert(REV_CARDS@[106] == Card::CoreSurge && REV_CARDS@[122] == Card::MultiCast);
            lemma_trimmed_is_not_empty(CARDS@, Card::MultiCast, Card::CoreSurge, 198, 214);
            lemma_trimmed_is_not_empty(REV_CARDS@, Card::CoreSurge, Card::MultiCast, 106, 122);
        },
        (Character::Watcher, Some(Rarity::Common)) => {
            assert(CARDS@[215] == Card::EmptyFist && CARDS@[233] == Card::Consecrate);
            assert(REV_CARDS@[87] == Card::Consecrate && REV_CARDS@[105] == Card::EmptyFist);
            lemma_trimmed_is_not_empty(CARDS@, Card::EmptyFist, Card::Consecrate, 215, 233);
            lemma_trimmed_is_not_empty(REV_CARDS@, Card::Consecrate, Card::EmptyFist, 87, 105);
        },
        (Character::Watcher, Some(Rarity::Uncommon)) => {
            assert(CARDS@[234] == Card::Pray && CARDS@[268] == Card::WheelKick);
            assert(REV_CARDS@[52] == Card::WheelKick && REV_CARDS@[86] == Card::Pray);
            lemma_trimmed_is_not_empty(CARDS@, Card::Pray, Card::WheelKick, 234, 268);
            lemma_trimmed_is_not_empty(REV_CARDS@, Card::WheelKick, Card::Pray, 52, 86);
        },
        (Character::Watcher, Some(Rarity::Rare)) => {
            assert(CARDS@[269] == Card::Judgment && CARDS@[285] == Card::DeusExMachina);
            assert(REV_CARDS@[35] == Card::DeusExMachina && REV_CARDS@[51] == Card::Judgment);
            lemma_trimmed_is_not_empty(CARDS@, Card::Judgment, Card::DeusExMachina, 269, 285);
            lemma_trimmed_is_not_empty(REV_CARDS@, Card::DeusExMachina, Card::Judgment, 35, 51);
        },
        (Character::Ironclad, None) => {
            assert(CARDS@[1] == Card::SwordBoomerang && CARDS@[72] == Card::Immolate);
            assert(REV_CARDS@[248] == Card::Immolate && REV_CARDS@[319] == Card::SwordBoomerang);
            lemma_trimmed_is_not_empty(CARDS@, Card::SwordBoomerang, Card::Immolate, 1, 72);
            lemma_trimmed_is_not_empty(REV_CARDS@, Card::Immolate, Card::SwordBoomerang, 248, 319);
        },
        (Character::Silent, None) => {
            assert(CARDS@[73] == Card::FlyingKnee && CARDS@[143] == Card::GrandFinale);
            assert(REV_CARDS@[177] == Card::GrandFinale && REV_CARDS@[247] == Card::FlyingKnee);
            lemma_trimmed_is_not_empty(CARDS@, Card::FlyingKnee, Card::GrandFinale, 73, 143);
            lemma_trimmed_is_not_empty(REV_CARDS@, Card::GrandFinale, Card::FlyingKnee, 177, 247);
        },
        (Character::Defect, None) => {
            assert(CARDS@[144] == Card::SteamBarrier && CARDS@[214] == Card::CoreSurge);
            assert(REV_CARDS@[106] == Card::CoreSurge && REV_CARDS@[176] == Card::SteamBarrier);
            lemma_trimmed_is_not_empty(CARDS@, Card::SteamBarrier, Card::CoreSurge, 144, 214);
            lemma_trimmed_is_not_empty(REV_CARDS@, Card::CoreSurge, Card::SteamBarrier, 106, 176);
        },
        (Character::Watcher, None) => {
            assert(CARDS@[215] == Card::EmptyFist && CARDS@[285] == Card::DeusExMachina);
            assert(REV_CARDS@[35] == Card::DeusExMachina && REV_CARDS@[105] == Card::EmptyFist);
            lemma_trimmed_is_not_empty(CARDS@, Card::EmptyFist, Card::DeusExMachina, 215, 285);
            lemma_trimmed_is_not_empty(REV_CARDS@, Card::DeusExMachina, Card::EmptyFist, 35, 105);
        },
    }
}

impl<'a> CharacterCards<'a> {
    /// The runs of the cards of `character`.
    pub fn new(character: Character) -> (cards: CharacterCards<'static>)
        ensures
            cards.all.slice@ == pool(character, None),
            cards.common.slice@ == reversed_pool(character, Some(Rarity::Common)),
            cards.uncommon.slice@ == reversed_pool(character, Some(Rarity::Uncommon)),
            cards.rare.slice@ == reversed_pool(character, Some(Rarity::Rare)),
    {
        CharacterCards {
            all: CardSliceParameters::new(character, None).slice(
                vstd::array::array_as_slice(&CARDS),
                false,
            ),
            common: CardSliceParameters::new(character, Some(Rarity::Common)).slice(
                vstd::array::array_as_slice(&REV_CARDS),
                true,
            ),
            uncommon: CardSliceParameters::new(character, Some(Rarity::Uncommon)).slice(
                vstd::array::array_as_slice(&REV_CARDS),
                true,
            ),
            rare: CardSliceParameters::new(character, Some(Rarity::Rare)).slice(
                vstd::array::array_as_slice(&REV_CARDS),
                true,
            ),
        }
    }
}

impl CardSliceParameters {
    /// The run is at least one card long and ends within the list of
    /// cards.
    pub open spec fn wf(&self) -> bool {
        self.len >= 1 && card_index(self.first) + self.len <= 321
    }

    /// Where the cards of `character` of the given rarity stand in the
    /// list of cards; all the character's cards where no rarity is given.
    pub fn new(character: Character, rarity: Option<Rarity>) -> (r: Self)
        ensures
            r.wf(),
            r.first == pool_first(character, rarity),
            r.len == pool_len(character, rarity),
    {
        let (first, len) = match (character, rarity) {
            (Character::Ironclad, Some(Rarity::Common)) => (Card::SwordBoomerang, 20),
            (Character::Ironclad, Some(Rarity::Uncommon)) => (Card::Evolve, 36),
            (Character::Ironclad, Some(Rarity::Rare)) => (Card::DoubleTap, 16),
            (Character::Silent, Some(Rarity::Common)) => (Card::FlyingKnee, 19),
            (Character::Silent, Some(Rarity::Uncommon)) => (Card::Predator, 33),
            (Character::Silent, Some(Rarity::Rare)) => (Card::Alchemize, 19),
            (Character::Defect, Some(Rarity::Common)) => (Card::SteamBarrier, 18),
            (Character::Defect, Some(Rarity::Uncommon)) => (Card::DoomAndGloom, 36),
            (Character::Defect, Some(Rarity::Rare)) => (Card::MultiCast, 17),
            (Character::Watcher, Some(Rarity::Common)) => (Card::EmptyFist, 19),
            (Character::Watcher, Some(Rarity::Uncommon)) => (Card::Pray, 35),
            (Character::Watcher, Some(Rarity::Rare)) => (Card::Judgment, 17),
            (Character::Ironclad, None) => (Card::SwordBoomerang, 72),
            (Character::Silent, None) => (Card::FlyingKnee, 71),
            (Character::Defect, None) => (Card::SteamBarrier, 71),
            (Character::Watcher, None) => (Card::EmptyFist, 71),
        };
        CardSliceParameters { first, len }
    }

    /// The last card of the run.
    pub fn last(&self) -> (card: Card)
        requires
            self.wf(),
        ensures
            card == pool_last(self.first, self.len as int),
    {
        CARDS[self.first.index() + self.len - 1]
    }

    /// The run out of `cards`: from the run's first card to its last, or,
    /// for a list in reverse order, from its last to its first.
    pub fn slice<'b>(&self, cards: &'b [Card], reversed: bool) -> (r: CardSlice<'b>)
        requires
            self.wf(),
        ensures
            r.slice@ == (if reversed {
                trimmed(cards@, pool_last(self.first, self.len as int), self.first)
            } else {
                trimmed(cards@, self.first, pool_last(self.first, self.len as int))
            }),
    {
        let last = self.last();
        if reversed {
            CardSlice::new(cards).trim_inclusive(last, self.first)
        } else {
            CardSlice::new(cards).trim_inclusive(self.first, last)
        }
    }
}

} // verus!
