use spire_seeds::card::pandoras_box::PandorasBox;
use spire_seeds::card::pool::{CardSliceParameters, CharacterCards};
use spire_seeds::card::reward::filters::CardRewardFilter;
use spire_seeds::card::reward::{CardRewarder, Offset};
use spire_seeds::card::{all_cards, rev_cards, Card, CardSlice, Rarity, CARDS, REV_CARDS};
use spire_seeds::character::{basics, Character};
use spire_seeds::filter::SeedFilter;
use spire_seeds::rng::Rng;
use spire_seeds::seed::{Seed, SeedString};
use spire_seeds::unlock::{UnlockLevel, Unlocks};

#[test]
fn test_card_array_initialization() {
    println!("{:?} {}", &CARDS, CARDS.len());
    println!("{}", std::mem::size_of_val(&CARDS));
    println!("{}", std::mem::size_of::<Card>());
}

#[test]
fn test_pandoras_box() {
    let seed = Seed { seed: 1 };
    let filter: PandorasBox = PandorasBox::new(&CARDS);
    let cards = filter.pandoras_box(&seed);
    println!("{:?}", cards);
    println!("{:?}", filter.constant_pandoras_box(&seed));
}

#[test]
fn test_unwinnable_seed() {
    let seed: SeedString = "18ISL35FYK4".parse().unwrap();
    let seed: Seed = seed.into();
    let filter: CardRewardFilter<'_, 3> = CardRewardFilter::new(Character::Silent, None, &[]);
    assert!(!filter.reject(seed.clone()));

    let rewarder: CardRewarder<'_, 3> = CardRewarder::new(Character::Silent, None);
    let mut rng = Rng::new(seed.seed as u64);
    let rewards = rewarder.generate_rewards(&mut rng);

    println!("{:?}", &rewards);
    assert_eq!(
        rewards,
        [
            [Card::Prepared, Card::DodgeAndRoll, Card::EscapePlan],
            [Card::EscapePlan, Card::Outmaneuver, Card::Prepared],
            [Card::Prepared, Card::DodgeAndRoll, Card::Footwork],
        ]
    )
}

#[test]
fn const_test_unwinnable_seed() {
    let seed: SeedString = "18ISL35FYK4".parse().unwrap();
    let seed: Seed = seed.into();
    let filter: CardRewardFilter<'_, 3> = CardRewardFilter::new(Character::Silent, None, &[]);
    assert!(!filter.reject(seed.clone()));

    let rewarder: CardRewarder<'_, 3> = CardRewarder::new(Character::Silent, None);
    let mut rng = Rng::new(seed.seed as u64);
    let rewards = rewarder.generate_rewards(&mut rng);

    println!("{:?}", &rewards);
    assert_eq!(
        rewards,
        [
            [Card::Prepared, Card::DodgeAndRoll, Card::EscapePlan],
            [Card::EscapePlan, Card::Outmaneuver, Card::Prepared],
            [Card::Prepared, Card::DodgeAndRoll, Card::Footwork],
        ]
    )
}

#[test]
fn a_reward_filter_rejects_a_seed_that_offers_a_rejected_card() {
    let seed: SeedString = "18ISL35FYK4".parse().unwrap();
    let seed: Seed = seed.into();
    let rejected = [Card::Footwork];
    let filter: CardRewardFilter<'_, 3> =
        CardRewardFilter::new(Character::Silent, None, &rejected);
    assert!(filter.reject(seed));
    let two: CardRewardFilter<'_, 2> = CardRewardFilter::new(Character::Silent, None, &rejected);
    assert!(!two.reject(seed));
    let other = [Card::Anger];
    let filter: CardRewardFilter<'_, 3> = CardRewardFilter::new(Character::Silent, None, &other);
    assert!(!filter.reject(seed));
}

#[test]
fn the_generator_is_advanced_by_three_steps_after_a_reward() {
    let rewarder: CardRewarder<'_, 1> = CardRewarder::new(Character::Silent, None);
    let seed: Seed = "18ISL35FYK4".parse::<SeedString>().unwrap().into();
    let mut rng = Rng::new(seed.seed as u64);
    let mut offset = Offset::default();
    let first = rewarder.generate_reward(&mut rng, &mut offset);
    let second = rewarder.generate_reward(&mut rng, &mut offset);
    assert_eq!(first, [Card::Prepared, Card::DodgeAndRoll, Card::EscapePlan]);
    assert_eq!(second, [Card::EscapePlan, Card::Outmaneuver, Card::Prepared]);

    let mut plain = Rng::new(seed.seed as u64);
    let mut plain_offset = Offset::default();
    let mut cards = Vec::new();
    for _ in 0..3 {
        let rarity = plain_offset.generate_rarity(&mut plain);
        cards.push(rewarder.generate_card(&mut plain, rarity));
    }
    assert_eq!(cards, first.to_vec());
    plain.advance(3);
    let rarity = plain_offset.generate_rarity(&mut plain);
    assert_eq!(rewarder.generate_card(&mut plain, rarity), second[0]);
    assert_eq!(offset.offset, -5 - 4);
}

#[test]
fn cards_stand_at_their_index() {
    assert_eq!(CARDS.len(), 321);
    assert_eq!(all_cards(), CARDS);
    assert_eq!(rev_cards(), REV_CARDS);
    for (i, card) in CARDS.iter().enumerate() {
        assert_eq!(card.index(), i);
        assert_eq!(Card::from_repr(i), Some(*card));
        assert_eq!(REV_CARDS[320 - i], *card);
        assert!(card.equal_as_usize(card));
    }
    assert_eq!(Card::from_repr(321), None);
    assert_eq!(Card::default(), Card::Invalid);
    assert!(!Card::Anger.equal_as_usize(&Card::Havoc));
}

#[test]
fn every_character_has_its_cards_of_every_rarity() {
    let lens = [
        (Character::Ironclad, 72, 20, 36, 16),
        (Character::Silent, 71, 19, 33, 19),
        (Character::Defect, 71, 18, 36, 17),
        (Character::Watcher, 71, 19, 35, 17),
    ];
    for (character, all, common, uncommon, rare) in lens {
        let cards = CharacterCards::new(character);
        assert_eq!(cards.all.slice.len(), all);
        assert_eq!(cards.common.slice.len(), common);
        assert_eq!(cards.uncommon.slice.len(), uncommon);
        assert_eq!(cards.rare.slice.len(), rare);
        let rewarder: CardRewarder<'_, 3> = CardRewarder::new(character, None);
        assert_eq!(rewarder.card_pool(Rarity::Common), cards.common.slice);
        assert_eq!(rewarder.card_pool(Rarity::Uncommon), cards.uncommon.slice);
        assert_eq!(rewarder.card_pool(Rarity::Rare), cards.rare.slice);
    }
    let silent = CharacterCards::new(Character::Silent);
    assert_eq!(silent.all.slice[0], Card::FlyingKnee);
    assert_eq!(silent.all.slice[70], Card::GrandFinale);
    assert_eq!(silent.common.slice[0], Card::CloakAndDagger);
    assert_eq!(silent.common.slice[18], Card::FlyingKnee);
    let parameters = CardSliceParameters::new(Character::Ironclad, Some(Rarity::Rare));
    assert_eq!(parameters.first, Card::DoubleTap);
    assert_eq!(parameters.len, 16);
    assert_eq!(parameters.last(), Card::Immolate);
}

#[test]
fn a_run_of_cards_is_trimmed_at_the_given_cards() {
    let cards = [Card::Anger, Card::Havoc, Card::Clash, Card::Havoc, Card::Flex];
    let run = CardSlice::new(&cards);
    assert_eq!(run.trim_before(Card::Havoc).slice, &cards[1..]);
    assert_eq!(run.trim_after(Card::Havoc).slice, &cards[..4]);
    assert_eq!(run.trim_inclusive(Card::Havoc, Card::Clash).slice, &cards[1..3]);
    assert_eq!(run.trim_before(Card::Cleave).slice.len(), 0);
    assert_eq!(run.trim_after(Card::Cleave).slice.len(), 0);
    assert_eq!(run.trim_inclusive(Card::Clash, Card::Anger).slice.len(), 0);
}

#[test]
fn pandoras_box_gives_nine_cards_of_its_own() {
    let cards = [Card::Anger, Card::Havoc];
    let filter = PandorasBox::new(&cards);
    let mut seen_constant = 0;
    for seed in 0..2000i64 {
        let seed = Seed::from(seed);
        let nine = filter.pandoras_box(&seed);
        let mut rng = Rng::new(seed.seed as u64);
        for card in nine {
            assert_eq!(card, cards[rng.next_capped_u64(2) as usize]);
        }
        let constant = filter.constant_pandoras_box(&seed);
        let same = nine.iter().all(|card| *card == nine[0]);
        assert_eq!(constant, if same { Some(nine[0]) } else { None });
        if same {
            seen_constant += 1;
        }
    }
    assert!(seen_constant > 0);
}

#[test]
fn unlocks_are_numbers_of_base_six() {
    let levels = [
        UnlockLevel::One,
        UnlockLevel::Zero,
        UnlockLevel::Five,
        UnlockLevel::Two,
    ];
    let unlocks = Unlocks::new(levels);
    assert_eq!(unlocks.encode(), ((1 * 6 + 0) * 6 + 5) * 6 + 2);
    assert_eq!(Unlocks::full().encode(), 1295);
    assert_eq!(
        Unlocks::decode(2 + 6 * 5 + 36 * 0 + 216 * 1),
        Some(Unlocks::new([
            UnlockLevel::Two,
            UnlockLevel::Five,
            UnlockLevel::Zero,
            UnlockLevel::One
        ]))
    );
    assert_eq!(Unlocks::decode(1296), Some(Unlocks::new([UnlockLevel::Zero; 4])));
    assert_eq!(Unlocks::decode(1295), Some(Unlocks::full()));
}

#[test]
fn characters_have_their_basic_cards_and_names() {
    assert_eq!(basics(Character::Ironclad), 9);
    assert_eq!(basics(Character::Silent), 10);
    assert_eq!(basics(Character::Defect), 8);
    assert_eq!(basics(Character::Watcher), 8);
    assert_eq!("IRONCLAD".parse::<Character>().unwrap(), Character::Ironclad);
    assert_eq!("THE_SILENT".parse::<Character>().unwrap(), Character::Silent);
    assert_eq!("DEFECT".parse::<Character>().unwrap(), Character::Defect);
    assert_eq!("THE_WATCHER".parse::<Character>().unwrap(), Character::Watcher);
    assert!("Silent".parse::<Character>().is_err());
    assert!("".parse::<Character>().is_err());
}
