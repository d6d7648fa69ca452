use spire_seeds::seed::{decode, encode, Error, Seed, SeedString};

#[test]
fn seed_zero() {
    let seed = Seed::from(0i64);
    assert_eq!(seed.seed, 0);

    let seed = Seed::from(0u64);
    assert_eq!(seed.seed, 0);

    let seed = Seed::from(b"            0");
    assert_eq!(seed.seed, 0);

    let seed_string: SeedString = String::from("0").parse().unwrap();
    let seed = Seed::from(seed_string.clone());
    assert_eq!(seed.seed, 0, "{}", seed_string.to_string());
}

#[test]
fn random_positive_seed() {
    let seed = Seed::from(3218453378341624389i64);
    assert_eq!(seed.seed, 3218453378341624389);

    let seed = Seed::from(3218453378341624389u64);
    assert_eq!(seed.seed, 3218453378341624389);

    let seed = Seed::from(b" YBQ7FPFZSX1U");
    assert_eq!(seed.seed, 3218453378341624389);

    let seed: Seed = String::from("YBQ7FPFZSX1U")
        .parse::<SeedString>()
        .unwrap()
        .into();
    assert_eq!(seed.seed, 3218453378341624389);
}

#[test]
fn random_negative_seed() {
    let seed = Seed::from(-706882697283956955i64);
    assert_eq!(seed.seed, -706882697283956955);

    let seed = Seed::from(-706882697283956955i64 as u64);
    assert_eq!(seed.seed, -706882697283956955);

    let seed = Seed::from(b"58QVGLNE8PU3W");
    assert_eq!(seed.seed, -706882697283956955);

    let seed: Seed = String::from("58QVGLNE8PU3W")
        .parse::<SeedString>()
        .unwrap()
        .into();
    assert_eq!(seed.seed, -706882697283956955);
}

#[test]
fn seeds_round_trip_through_their_strings() {
    for value in [
        0i64,
        1,
        34,
        35,
        3218453378341624389,
        -706882697283956955,
        i64::MAX,
        i64::MIN,
        -1,
    ] {
        let string = encode(Seed::from(value));
        assert_eq!(decode(&string.seed).seed, value);
        assert_eq!(string.const_seed().seed, value);
        let text = string.to_string();
        let parsed: SeedString = text.parse().unwrap();
        assert_eq!(parsed, string);
        assert_eq!(Seed::from(parsed).seed, value);
    }
}

#[test]
fn seed_strings_are_written_in_base_35() {
    assert_eq!(encode(Seed::from(0i64)).seed, *b"             ");
    assert_eq!(encode(Seed::from(35i64)).seed, *b"           10");
    assert_eq!(encode(Seed::from(24i64)).seed, *b"            P");
    assert_eq!(
        encode(Seed::from(3218453378341624389i64)).seed,
        *b" YBQ7FPFZSX1U"
    );
    assert_eq!(
        encode(Seed::from(-706882697283956955i64)).seed,
        *b"58QVGLNE8PU3W"
    );
    assert_eq!(
        SeedString::from(Seed::from(3218453378341624389i64)).to_string(),
        "YBQ7FPFZSX1U"
    );
    assert_eq!(encode(Seed::from(0i64)).to_string(), "");
}

#[test]
fn the_letter_o_is_read_as_zero() {
    let with_o: SeedString = "1O".parse().unwrap();
    let with_zero: SeedString = "10".parse().unwrap();
    assert_eq!(with_o, with_zero);
    assert_eq!(Seed::from(with_o).seed, 35);
}

#[test]
fn texts_that_are_no_seed_strings_are_refused() {
    assert_eq!(
        "abc".parse::<SeedString>().unwrap_err(),
        Error::InvalidCharacter(b'c')
    );
    assert_eq!(
        "A-B".parse::<SeedString>().unwrap_err(),
        Error::InvalidCharacter(b'-')
    );
    assert_eq!(
        "12345678901234".parse::<SeedString>().unwrap_err(),
        Error::InvalidLength(14)
    );
    assert_eq!(
        "1234567890123?".parse::<SeedString>().unwrap_err(),
        Error::InvalidCharacter(b'?')
    );
    assert_eq!(
        "?2345678901234".parse::<SeedString>().unwrap_err(),
        Error::InvalidLength(14)
    );
    assert!("1234567890123".parse::<SeedString>().is_ok());
}

#[test]
fn blanks_inside_a_seed_string_are_passed_over_by_const_seed() {
    let string = SeedString::const_new(b"         1 0 ");
    assert_eq!(string.const_seed().seed, 35);
}

#[test]
fn the_letter_o_stands_for_zero_wherever_a_seed_is_read() {
    assert_eq!(Seed::from(b"            O").seed, 0);
    assert_eq!(Seed::from(b"           1O").seed, 35);
    assert_eq!(Seed::from(*b"          AOO").seed, 10 * 35 * 35);
    assert_eq!(SeedString::const_new(b"           1O").const_seed().seed, 35);
    assert_eq!(decode(b"            N").seed, 23);
    assert_eq!(decode(b"            P").seed, 24);
    assert_eq!(decode(b"            Z").seed, 34);
    assert_eq!(decode(b"            9").seed, 9);
    assert_eq!(decode(b"            A").seed, 10);
}
