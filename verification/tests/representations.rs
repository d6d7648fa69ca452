use spire_seeds::map::in_neighborhood::in_array::InArray;
use spire_seeds::map::in_neighborhood::in_byte::InByte;
use spire_seeds::map::in_neighborhood::in_vec::InVec;
use spire_seeds::map::in_neighborhood::InNeighborhood;
use spire_seeds::map::out_neighborhood::out_array::{arrays, OutArray};
use spire_seeds::map::out_neighborhood::out_byte::OutByte;
use spire_seeds::map::out_neighborhood::out_vec::OutVec;
use spire_seeds::map::out_neighborhood::OutNeighborhood;
use spire_seeds::map::skeleton::Skeleton;
use spire_seeds::map::{Act, DungeonMap};
use spire_seeds::rng::Rng;
use spire_seeds::seed::{Seed, SeedString};

fn map_string<In: InNeighborhood, Out: OutNeighborhood>(seed: Seed, ascension: bool) -> String {
    let seed_string = SeedString::from(seed.clone());
    let mut rng = Rng::new(seed.seed as u64);
    let map: DungeonMap<6, In, Out> = DungeonMap::generate(&mut rng, ascension);
    format!("{},{:?}\n{}\n\n", seed_string.to_string(), seed, map.to_string())
}

#[test]
fn compare_invec_to_inbytes() {
    for seed in 533907583096i64 + 3..533907583096 + 10 {
        let seed = Seed::from(seed);
        let first_map_string = map_string::<InVec, OutVec>(seed.clone(), true);
        let second_map_string = map_string::<InByte, OutVec>(seed.clone(), true);
        assert_eq!(
            first_map_string,
            second_map_string,
            "seed: {:?}, {}",
            seed,
            SeedString::from(seed.clone()).to_string()
        );
    }
}

#[test]
fn test_canonized_skeletons() {
    let seed: Seed = 1i64.into();
    let vec_vec: Skeleton<6, InVec, OutVec> = Skeleton::generate(&mut seed.map_rng(Act::One));
    let vec_byte: Skeleton<6, InVec, OutByte> = Skeleton::generate(&mut seed.map_rng(Act::One));
    let array_array: Skeleton<6, InArray, OutArray> =
        Skeleton::generate(&mut seed.map_rng(Act::One));
    let byte_vec: Skeleton<6, InByte, OutVec> = Skeleton::generate(&mut seed.map_rng(Act::One));
    let byte_byte: Skeleton<6, InByte, OutByte> = Skeleton::generate(&mut seed.map_rng(Act::One));

    let canonical_maps: &[Skeleton<6, InArray, OutArray>] = &[
        vec_vec.canonize(),
        vec_byte.canonize(),
        byte_vec.canonize(),
        byte_byte.canonize(),
    ];

    let canonical_map: String = array_array.to_string();
    for map in canonical_maps {
        let map: String = map.to_string();
        assert_eq!(map.to_string(), canonical_map, "{}", map);
    }
}

#[test]
fn every_pair_of_representations_generates_the_same_map() {
    for seed in [1u64, 2, 3, 533907583097] {
        let reference = DungeonMap::<6, InVec, OutVec>::generate(&mut Rng::new(seed), true);
        let arrays = DungeonMap::<6, InArray, OutArray>::generate(&mut Rng::new(seed), true);
        let bytes = DungeonMap::<6, InByte, OutByte>::generate(&mut Rng::new(seed), true);
        let mixed = DungeonMap::<6, InArray, OutByte>::generate(&mut Rng::new(seed), true);
        assert_eq!(reference.to_string(), arrays.to_string());
        assert_eq!(reference.to_string(), bytes.to_string());
        assert_eq!(reference.to_string(), mixed.to_string());
        assert_eq!(bytes.canonize().to_string(), arrays.to_string());
        for row in 0..15 {
            for position in 0..7 {
                assert_eq!(
                    reference.row(row).in_neighborhood(position).to_string(),
                    bytes.row(row).in_neighborhood(position).to_string()
                );
                assert_eq!(
                    reference.row(row).out_neighborhood(position).to_string(),
                    bytes.row(row).out_neighborhood(position).to_string()
                );
                assert_eq!(
                    reference.row(row).out_neighborhood(position).members(),
                    arrays.row(row).out_neighborhood(position).members()
                );
            }
        }
    }
}

#[test]
fn packed_out_neighborhoods_follow_their_tables() {
    let all = arrays();
    let push = OutByte::push_table();
    let remove = OutByte::remove_table();
    let min = OutByte::min_table();
    let max = OutByte::max_table();
    let left = OutByte::left_update_table();
    let right = OutByte::right_update_table();
    for (i, array) in all.iter().enumerate() {
        assert_eq!(OutByte::position(array), i);
        assert_eq!(min[i], array.min().copied());
        assert_eq!(max[i], array.max().copied());
        for value in 0..7 {
            let sum = array.plus(value).map(|sum| OutByte::position(&sum)).unwrap_or(0);
            assert_eq!(push[i][value].0 as usize, sum);
            let rest = array.minus(value).map(|rest| OutByte::position(&rest)).unwrap_or(0);
            assert_eq!(remove[i][value].0 as usize, rest);
            assert_eq!(left[i][value], max[i].map_or(value, |max| max.max(value)));
            assert_eq!(right[i][value], min[i].map_or(value, |min| min.min(value)));
            let mut moved = value;
            OutByte(i as u8).update_position_from_left(&mut moved);
            assert_eq!(moved, left[i][value]);
            let mut moved = value;
            OutByte(i as u8).update_position_from_right(&mut moved);
            assert_eq!(moved, right[i][value]);
        }
    }
}
