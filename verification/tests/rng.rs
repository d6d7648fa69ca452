use spire_seeds::rng::Rng;

#[test]
fn capped_draws_follow_the_reference_stream() {
    let mut rng = Rng::new(42);
    let expected: [u64; 16] = [0, 1, 0, 0, 1, 5, 5, 3, 7, 7, 9, 9, 4, 13, 3, 6];
    for (i, want) in expected.iter().enumerate() {
        assert_eq!(rng.next_capped_u64(i as u64 + 1), *want);
    }
}

#[test]
fn draws_stay_below_their_modulus() {
    let mut rng = Rng::new(1234567890);
    let expected: [u64; 8] = [3, 5, 4, 13, 1, 10, 5, 1];
    for (i, want) in expected.iter().enumerate() {
        let modulus = 5 * (i as u64 + 1);
        let value = rng.next_capped_u64(modulus);
        assert!(value < modulus);
        assert_eq!(value, *want);
    }
}
