use spire_seeds::filter::SeedFilter;
use spire_seeds::map::filters::bottleneck::Bottleneck;
use spire_seeds::map::in_neighborhood::in_vec::InVec;
use spire_seeds::map::out_neighborhood::out_vec::OutVec;
use spire_seeds::seed::{Seed, SeedString};
use spire_seeds::sieve::Sieve;

#[test]
fn test_sieve_finds_bottleneck_seed() {
    let start: u64 = SeedString::const_new(b"     8AFF4ZZ6").const_seed().seed as u64 - 10;
    let end: u64 = start + 20;
    let filter: Bottleneck<InVec, OutVec> = Bottleneck::const_default();
    let sieve: Sieve<Bottleneck<InVec, OutVec>> = Sieve::new(start, end, filter);
    let found: Vec<String> = sieve.survivors().iter().map(|s| s.to_string()).collect();
    for seed in &found {
        println!("{}", seed);
    }
    assert!(found.contains(&String::from("8AFF4ZZ6")));
    let filter: Bottleneck<InVec, OutVec> = Bottleneck::const_default();
    let mut expected = Vec::new();
    for seed in start..=end {
        if !filter.reject(Seed::from(seed)) {
            expected.push(SeedString::from(Seed::from(seed)).to_string());
        }
    }
    assert_eq!(found, expected);
}

#[test]
fn a_sieve_with_its_ends_the_wrong_way_round_finds_nothing() {
    let filter: Bottleneck<InVec, OutVec> = Bottleneck::new(6);
    assert!(filter.is_ready());
    let sieve = Sieve::new(10, 9, filter);
    assert!(sieve.survivors().is_empty());
    let high: Bottleneck<InVec, OutVec> = Bottleneck::new(16);
    assert!(!high.is_ready());
}

#[test]
fn a_sieve_reaches_the_last_seed() {
    let filter: Bottleneck<InVec, OutVec> = Bottleneck::new(1);
    let sieve = Sieve::new(u64::MAX - 2, u64::MAX, filter);
    let found = sieve.survivors();
    let filter: Bottleneck<InVec, OutVec> = Bottleneck::new(1);
    let mut expected = 0;
    for seed in [u64::MAX - 2, u64::MAX - 1, u64::MAX] {
        if !filter.reject(Seed::from(seed)) {
            expected += 1;
        }
    }
    assert_eq!(found.len(), expected);
}
