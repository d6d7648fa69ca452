use spire_seeds::card::pandoras_box::AnonymousPandoraBox;
use spire_seeds::filter::SeedFilter;
use spire_seeds::map::in_neighborhood::in_enum::{
    AddFirst, AddSecond, AddThird, InEnum, NumberedInEnum, OneCmp, Plus, ThreeCmp, TwoCmp,
};
use spire_seeds::rng::Rng;
use spire_seeds::seed::Seed;

#[test]
fn multiplicities_grow_by_one_edge() {
    let mut one = OneCmp::default();
    assert_eq!(one, OneCmp::One);
    one.add_first();
    assert_eq!(one, OneCmp::Two);
    for _ in 0..4 {
        one.add_first();
    }
    assert_eq!(one, OneCmp::Six);

    let mut two = TwoCmp::OneOne;
    two.add_first();
    assert_eq!(two, TwoCmp::TwoOne);
    two.add_second();
    assert_eq!(two, TwoCmp::TwoTwo);
    two.add_second();
    two.add_second();
    assert_eq!(two, TwoCmp::TwoFour);

    let mut three = ThreeCmp::default();
    assert_eq!(three, ThreeCmp::OneOneOne);
    three.add_first();
    three.add_second();
    three.add_third();
    assert_eq!(three, ThreeCmp::TwoTwoTwo);
    let mut three = ThreeCmp::OneOneThree;
    three.add_third();
    assert_eq!(three, ThreeCmp::OneOneFour);
}

#[test]
fn a_slot_with_one_edge_is_added_in_front_or_behind() {
    assert_eq!(OneCmp::Three.plus_prev(), TwoCmp::OneThree);
    assert_eq!(OneCmp::Three.plus_next(), TwoCmp::ThreeOne);
    assert_eq!(OneCmp::Five.plus_prev(), TwoCmp::OneFive);
    assert_eq!(TwoCmp::TwoThree.plus_prev(), ThreeCmp::OneTwoThree);
    assert_eq!(TwoCmp::TwoThree.plus_next(), ThreeCmp::TwoThreeOne);
    assert_eq!(TwoCmp::OneOne.plus_next(), ThreeCmp::OneOneOne);
}

#[test]
fn a_numbered_neighborhood_lies_around_its_position() {
    let at = |in_enum: InEnum, position: usize| NumberedInEnum { in_enum, position };
    assert_eq!(at(InEnum::Empty, 3).min(), None);
    assert_eq!(at(InEnum::Empty, 3).max(), None);
    assert_eq!(at(InEnum::Less(OneCmp::One), 3).min(), Some(2));
    assert_eq!(at(InEnum::Less(OneCmp::One), 3).max(), Some(2));
    assert_eq!(at(InEnum::Less(OneCmp::One), 0).min(), Some(0));
    assert_eq!(at(InEnum::Equal(OneCmp::Two), 3).min(), Some(3));
    assert_eq!(at(InEnum::Equal(OneCmp::Two), 3).max(), Some(3));
    assert_eq!(at(InEnum::Greater(OneCmp::Two), 3).min(), Some(4));
    assert_eq!(at(InEnum::Greater(OneCmp::Two), 6).max(), Some(7));
    assert_eq!(at(InEnum::LessEqual(TwoCmp::OneOne), 3).min(), Some(2));
    assert_eq!(at(InEnum::LessEqual(TwoCmp::OneOne), 3).max(), Some(3));
    assert_eq!(at(InEnum::EqualGreater(TwoCmp::OneOne), 3).min(), Some(3));
    assert_eq!(at(InEnum::EqualGreater(TwoCmp::OneOne), 3).max(), Some(4));
    assert_eq!(at(InEnum::LessEqualGreater(ThreeCmp::OneOneOne), 3).min(), Some(2));
    assert_eq!(at(InEnum::LessEqualGreater(ThreeCmp::OneOneOne), 3).max(), Some(4));
    let left = at(InEnum::LessEqual(TwoCmp::OneOne), 3);
    let right = at(InEnum::Less(OneCmp::One), 4);
    assert!(!NumberedInEnum::gca_skip(&left, &right));
    assert!(NumberedInEnum::gca_skip(&right, &left));
    assert!(NumberedInEnum::gca_skip(&at(InEnum::Empty, 3), &right));
    assert_eq!(InEnum::default(), InEnum::Empty);
}

#[test]
fn the_anonymous_box_rejects_the_seeds_whose_draws_differ() {
    let filter = AnonymousPandoraBox { cards: 3, basics: 4 };
    assert!(filter.is_ready());
    let mut kept = 0;
    for seed in 0..500u64 {
        let mut rng = Rng::new(seed);
        let first = rng.next_capped_u64(3);
        let mut same = true;
        for _ in 1..4 {
            if rng.next_capped_u64(3) != first {
                same = false;
                break;
            }
        }
        assert_eq!(filter.reject(Seed::from(seed)), !same);
        assert_eq!(filter.reject_rng(&mut Rng::new(seed)), !same);
        if same {
            kept += 1;
        }
    }
    assert!(kept > 0);
    let none = AnonymousPandoraBox { cards: 5, basics: 0 };
    assert!(!none.reject(Seed::from(1i64)));
    assert!(!AnonymousPandoraBox { cards: 0, basics: 1 }.is_ready());
}
