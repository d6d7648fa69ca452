//! The box that turns a first deck's basic cards into nine drawn cards.

use vstd::prelude::*;
use super::Card;
use crate::filter::SeedFilter;
use crate::rng::{draw, xs128_seeded, Rng, State, MAX_MODULUS};
use crate::seed::Seed;

verus! {

/// The box, with the cards out of which it draws.
#[derive(Clone, Copy)]
pub struct PandorasBox<'a> {
    pub cards: &'a [Card],
}

/// The first `count` cards that the box draws with a generator in
/// `state`, and the state after them.
pub open spec fn drawn(cards: Seq<Card>, state: State, count: int) -> (Seq<Card>, State)
    decreases count,
{
    if count <= 0 {
        (Seq::empty(), state)
    } else {
        let (before, s1) = drawn(cards, state, count - 1);
        let (index, s2) = draw(s1, cards.len() as u64);
        (before.push(cards[index]), s2)
    }
}

/// The nine cards that the box gives for a seed.
pub open spec fn box_for(cards: Seq<Card>, seed: Seed) -> Seq<Card> {
    drawn(cards, xs128_seeded(seed.seed as u64), 9).0
}

/// Whether the first `count` cards are all the same as the first one.
pub open spec fn all_same(cards: Seq<Card>, count: int) -> bool
    decreases count,
{
    if count <= 1 {
        true
    } else {
        all_same(cards, count - 1) && cards[count - 1] == cards[0]
    }
}

impl<'a> PandorasBox<'a> {
    /// The box has a card to draw, and no more cards than the generator
    /// can draw among.
    pub open spec fn wf(&self) -> bool {
        0 < self.cards@.len() <= MAX_MODULUS
    }

    /// Whether the box has a card to draw.
    pub fn is_ready(&self) -> (ready: bool)
        ensures
            ready == self.wf(),
    {
        0 < self.cards.len() && self.cards.len() as u64 <= MAX_MODULUS
    }

    /// The box that draws out of `cards`.
    pub fn new(cards: &'a [Card]) -> (r: Self)
        ensures
            r.cards@ == cards@,
    {
        PandorasBox { cards }
    }

    /// The nine cards that the box gives for `seed`: each drawn out of the
    /// box's cards by the generator seeded with the seed.
    pub fn pandoras_box(&self, seed: &Seed) -> (cards: [Card; 9])
        requires
            self.wf(),
        ensures
            cards@ == box_for(self.cards@, *seed),
    {
        let n = self.cards.len();
        let mut rng = Rng::new(seed.seed as u64);
        let mut cards: [Card; 9] = [Card::Invalid; 9];
        let mut i: usize = 0;
        while i < 9
            invariant
                i <= 9,
                n == self.cards@.len(),
                self.wf(),
                drawn(self.cards@, xs128_seeded(seed.seed as u64), i as int).1 == rng@,
                forall|k: int|
                    0 <= k < i ==> #[trigger] cards[k] == drawn(
                        self.cards@,
                        xs128_seeded(seed.seed as u64),
                        i as int,
                    ).0[k],
                drawn(self.cards@, xs128_seeded(seed.seed as u64), i as int).0.len() == i,
            decreases 9 - i,
        {
            let card = self.cards[rng.next_capped_u64(n as u64) as usize];
            cards[i] = card;
            i = i + 1;
        }
        assert(cards@ =~= box_for(self.cards@, *seed));
        cards
    }

    /// The card of which the box gives nine for `seed`, if the nine are
    /// all the same.
    pub fn constant_pandoras_box(&self, seed: &Seed) -> (card: Option<Card>)
        requires
            self.wf(),
        ensures
            match card {
                Some(c) => all_same(box_for(self.cards@, *seed), 9) && c == box_for(
                    self.cards@,
                    *seed,
                )[0],
                None => !all_same(box_for(self.cards@, *seed), 9),
            },
    {
        let cards = self.pandoras_box(seed);
        let first = cards[0];
        let mut i: usize = 1;
        while i < 9
            invariant
                1 <= i <= 9,
                first == cards[0],
                cards@ == box_for(self.cards@, *seed),
                all_same(cards@, i as int),
            decreases 9 - i,
        {
            if first != cards[i] {
                assert(!all_same(cards@, i + 1));
                assert(!all_same(cards@, 9)) by {
                    reveal_with_fuel(all_same, 10);
                }
                return None;
            }
            i = i + 1;
        }
        Some(first)
    }
}

/// The box without its cards: only their number and the number of basic
/// cards that it turns. It rejects the seeds for which the box does not
/// turn all the basic cards into the same card.
pub struct AnonymousPandoraBox {
    pub cards: u64,
    pub basics: usize,
}

/// Whether one of the next `left` draws among `cards` differs from
/// `first`.
pub open spec fn later_differs(cards: u64, first: int, state: State, left: nat) -> bool
    decreases left,
{
    if left == 0 {
        false
    } else {
        let (d, after) = draw(state, cards);
        d != first || later_differs(cards, first, after, (left - 1) as nat)
    }
}

impl SeedFilter for AnonymousPandoraBox {
    open spec fn wf(&self) -> bool {
        0 < self.cards <= MAX_MODULUS
    }

    open spec fn rejects(&self, state: State) -> bool {
        let (first, after) = draw(state, self.cards);
        later_differs(
            self.cards,
            first,
            after,
            if self.basics >= 1 {
                (self.basics - 1) as nat
            } else {
                0
            },
        )
    }

    open spec fn rejects_seed(&self, seed: Seed) -> bool {
        self.rejects(xs128_seeded(seed.seed as u64))
    }

    fn is_ready(&self) -> (ready: bool) {
        0 < self.cards && self.cards <= MAX_MODULUS
    }

    fn reject_rng(&self, rng: &mut Rng) -> (rejected: bool) {
        let first = rng.next_capped_u64(self.cards);
        let mut turned: usize = 1;
        while turned < self.basics
            invariant
                1 <= turned,
                self.wf(),
                turned <= self.basics || self.basics == 0,
                later_differs(
                    self.cards,
                    first as int,
                    rng@,
                    if self.basics >= turned {
                        (self.basics - turned) as nat
                    } else {
                        0
                    },
                ) == self.rejects(old(rng)@),
            decreases self.basics - turned,
        {
            if first != rng.next_capped_u64(self.cards) {
                return true;
            }
            turned = turned + 1;
        }
        false
    }

    fn reject(&self, seed: Seed) -> (rejected: bool) {
        let mut rng = seed.rng();
        self.reject_rng(&mut rng)
    }
}

} // verus!
