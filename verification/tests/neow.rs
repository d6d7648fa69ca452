use spire_seeds::neow::{Drawback, FirstBonus, NeowBonuses, SecondBonus, ThirdBonus};
use spire_seeds::rng::Rng;

fn expected(seed: u64) -> NeowBonuses {
    let mut rng = Rng::new(seed);
    let first = [
        FirstBonus::ThreeCards,
        FirstBonus::OneRandomRareCard,
        FirstBonus::RemoveCard,
        FirstBonus::UpgradeCard,
        FirstBonus::TransformCard,
        FirstBonus::RandomColorless,
    ][rng.next_capped_u64(6) as usize];
    let second = [
        SecondBonus::ThreeSmallPotions,
        SecondBonus::RandomCommonRelic,
        SecondBonus::TenPercentHpBonus,
        SecondBonus::ThreeEnemyKill,
        SecondBonus::HundredGold,
    ][rng.next_capped_u64(5) as usize];
    let drawback = [
        Drawback::TenPercentHpLoss,
        Drawback::NoGold,
        Drawback::Curse,
        Drawback::PercentDamage,
    ][rng.next_capped_u64(4) as usize];
    let third = match drawback {
        Drawback::TenPercentHpLoss => [
            ThirdBonus::RandomColorlessChoice,
            ThirdBonus::RemoveTwo,
            ThirdBonus::OneRareRelic,
            ThirdBonus::ThreeRareCards,
            ThirdBonus::TwoFiftyGold,
            ThirdBonus::TransformTwoCards,
        ][rng.next_capped_u64(6) as usize],
        Drawback::NoGold => [
            ThirdBonus::RandomColorlessChoice,
            ThirdBonus::RemoveTwo,
            ThirdBonus::OneRareRelic,
            ThirdBonus::ThreeRareCards,
            ThirdBonus::TransformTwoCards,
            ThirdBonus::TwentyPercentHpBonus,
        ][rng.next_capped_u64(6) as usize],
        Drawback::Curse => [
            ThirdBonus::RandomColorlessChoice,
            ThirdBonus::OneRareRelic,
            ThirdBonus::ThreeRareCards,
            ThirdBonus::TwoFiftyGold,
            ThirdBonus::TransformTwoCards,
            ThirdBonus::TwentyPercentHpBonus,
        ][rng.next_capped_u64(6) as usize],
        Drawback::PercentDamage => [
            ThirdBonus::RandomColorlessChoice,
            ThirdBonus::RemoveTwo,
            ThirdBonus::OneRareRelic,
            ThirdBonus::ThreeRareCards,
            ThirdBonus::TwoFiftyGold,
            ThirdBonus::TransformTwoCards,
            ThirdBonus::TwentyPercentHpBonus,
        ][rng.next_capped_u64(7) as usize],
    };
    NeowBonuses {
        first,
        second,
        third: (drawback, third),
    }
}

#[test]
fn the_offers_follow_the_draws() {
    let mut seen = [false; 4];
    for seed in 1u64..400 {
        let offers = NeowBonuses::generate(Rng::new(seed));
        assert_eq!(offers, expected(seed));
        seen[match offers.third.0 {
            Drawback::TenPercentHpLoss => 0,
            Drawback::NoGold => 1,
            Drawback::Curse => 2,
            Drawback::PercentDamage => 3,
        }] = true;
        match offers.third {
            (Drawback::TenPercentHpLoss, bonus) => assert_ne!(bonus, ThirdBonus::TwentyPercentHpBonus),
            (Drawback::NoGold, bonus) => assert_ne!(bonus, ThirdBonus::TwoFiftyGold),
            (Drawback::Curse, bonus) => assert_ne!(bonus, ThirdBonus::RemoveTwo),
            (Drawback::PercentDamage, _) => {}
        }
    }
    assert_eq!(seen, [true; 4]);
}

#[test]
fn a_generator_made_from_a_signed_seed_is_the_seeded_one_but_for_zero() {
    for seed in [1i64, -1, 42, i64::MAX, i64::MIN] {
        let mut signed = Rng::from_seed(seed);
        let mut unsigned = Rng::new(seed as u64);
        for modulus in 1..20 {
            assert_eq!(signed.next_capped_u64(modulus), unsigned.next_capped_u64(modulus));
        }
    }
    let mut zero = Rng::new(0);
    let mut least = Rng::from_seed(i64::MIN);
    for modulus in 1..20 {
        assert_eq!(zero.next_capped_u64(modulus), least.next_capped_u64(modulus));
    }
}
