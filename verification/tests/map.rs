use spire_seeds::filter::SeedFilter;
use spire_seeds::map::filters::bottleneck::{Bottleneck, BurningEliteBottleneck, OnePath};
use spire_seeds::map::in_neighborhood::in_vec::InVec;
use spire_seeds::map::in_neighborhood::InNeighborhood;
use spire_seeds::map::kind::NodeKind;
use spire_seeds::map::out_neighborhood::out_vec::OutVec;
use spire_seeds::map::out_neighborhood::OutNeighborhood;
use spire_seeds::map::skeleton::Skeleton;
use spire_seeds::map::{Act, DungeonMap};
use spire_seeds::rng::Rng;
use spire_seeds::seed::{Seed, SeedString};

const ONE_PATH_BURNING_ELITE_BOTTLENECKS: &[&[u8; 13]] = &[
    b"     8AFF4ZZ6",
    b"     XXKBUJNS",
    b"    1J432TK4I",
    b"    3QJ3DI01K",
    b"    3XTMF0PHJ",
    b"    3YT8RJBX1",
    b"    4DM63LTVA",
];

const BAD_PATH_SEEDS: &[&str] = &[
    "8AFF4ZZ6",
    "XXKBUJNS",
    "1J432TK4I",
    "3QJ3DI01K",
    "3XTMF0PHJ",
    "3YT8RJBX1",
    "4DM63LTVA",
];

fn print_map_with_seed(seed: Seed) {
    println!("{:?}", &seed);
    let mut rng = seed.map_rng(Act::One);
    let map: DungeonMap<6, InVec, OutVec> = DungeonMap::generate(&mut rng, true);
    println!("{}", map.to_string());
    let burning_elite_position = map.burning_elite_position(&mut rng);
    println!("{:?}", burning_elite_position);
    let burning_elite_buff = DungeonMap::<6, InVec, OutVec>::burning_elite_buff(&mut rng);
    println!("{:?}", burning_elite_buff);
}

#[test]
fn print_first_map() {
    print_map_with_seed(1i64.into());
}

#[test]
fn print_map_for_special_seed() {
    let seed = 533907583096i64;
    print_map_with_seed(seed.into());
}

#[test]
fn print_one_path_burning_elite_bottleneck_maps() {
    for &seed in ONE_PATH_BURNING_ELITE_BOTTLENECKS {
        print_map_with_seed(seed.into());
        println!();
    }
}

#[test]
fn test_display() {
    let mut rng = Rng::new(2);
    let map = DungeonMap::<6, InVec, OutVec>::generate(&mut rng, true);
    println!("{}", map.to_string());
}

#[test]
fn test_display_2() {
    let mut rng = Rng::new(533907583096 + 1);
    let map = DungeonMap::<6, InVec, OutVec>::generate(&mut rng, true);
    println!("{}", map.to_string());
}

#[test]
fn test_bottleneck_filter() {
    for &seed in ONE_PATH_BURNING_ELITE_BOTTLENECKS {
        let filter: Bottleneck<InVec, OutVec> = Bottleneck::const_default();
        assert!(!filter.reject(seed.into()));
    }

    for seed in [1u64, 2, 3, 4, 5] {
        let filter: Bottleneck<InVec, OutVec> = Bottleneck::const_default();
        assert!(filter.reject(Seed::from(seed)));
    }
}

#[test]
fn test_burning_elite_bottleneck_filter() {
    let filter: BurningEliteBottleneck = BurningEliteBottleneck::const_default();
    for &seed in ONE_PATH_BURNING_ELITE_BOTTLENECKS {
        assert!(!filter.reject(seed.into()));
    }

    for seed in [1u64, 2, 3, 4, 5] {
        let seed = Seed::from(seed);
        assert!(filter.reject(seed));
    }
}

#[test]
fn test_one_path() {
    let filter: OnePath<InVec, OutVec> = OnePath::const_default();
    for &seed in ONE_PATH_BURNING_ELITE_BOTTLENECKS {
        assert!(!filter.reject(seed.into()));
    }

    for seed in [1u64, 2, 3, 4, 5] {
        let seed = Seed::from(seed);
        assert!(filter.reject(seed));
    }
}

#[test]
fn golden_seeds_have_a_single_node_in_row_five() {
    for seed in BAD_PATH_SEEDS {
        let seed_string: SeedString = seed.parse().unwrap();
        let seed: Seed = seed_string.into();
        let mut rng = seed.map_rng(Act::One);
        let map: DungeonMap<6, InVec, OutVec> = DungeonMap::generate(&mut rng, true);
        assert_eq!(map.row(5).count_out_neighborhoods(), 1);
    }
}

#[test]
fn the_first_seeds_have_no_bottleneck_in_row_five() {
    for seed in [1u64, 2, 3, 4, 5] {
        let mut rng = Rng::new(seed + 1);
        let map: DungeonMap<6, InVec, OutVec> = DungeonMap::generate(&mut rng, true);
        assert_ne!(map.row(5).count_out_neighborhoods(), 1);
    }
}

#[test]
fn the_same_seed_gives_the_same_map() {
    for seed in [1u64, 2, 533907583096, u64::MAX] {
        for ascension in [false, true] {
            let first = DungeonMap::<6, InVec, OutVec>::generate(&mut Rng::new(seed), ascension);
            let second = DungeonMap::<6, InVec, OutVec>::generate(&mut Rng::new(seed), ascension);
            assert_eq!(first.to_string(), second.to_string());
        }
    }
}

#[test]
fn kinds_are_placed_by_the_rules_of_the_rows() {
    for seed in 1u64..200 {
        let ascension = seed % 2 == 0;
        let map = DungeonMap::<6, InVec, OutVec>::generate(&mut Rng::new(seed), ascension);
        for position in 0..7 {
            assert!(*map.kind(0, position) == NodeKind::Monster);
            assert!(*map.kind(8, position) == NodeKind::Treasure);
            assert!(*map.kind(14, position) == NodeKind::Rest);
            assert!(*map.kind(13, position) != NodeKind::Rest);
        }
        for row in 0..5 {
            for position in 0..7 {
                assert!(*map.kind(row, position) != NodeKind::Elite);
                assert!(*map.kind(row, position) != NodeKind::Rest);
            }
        }
        for row in 0..15 {
            for position in 0..7 {
                if !map.row(row).in_neighborhood(position).is_empty() {
                    assert!(map.kind(row, position).is_assigned());
                }
            }
        }
    }
}

#[test]
fn a_rendered_map_has_two_lines_for_every_row_but_the_last() {
    let map = DungeonMap::<6, InVec, OutVec>::generate(&mut Rng::new(2), true);
    let text = map.to_string();
    let lines: Vec<&str> = text.split('\n').collect();
    assert_eq!(lines.len(), 30);
    assert_eq!(lines[0], "");
    assert!(lines[1].starts_with("14    "));
    assert!(lines[2].starts_with("      "));
    assert!(lines[3].starts_with("13    "));
    assert!(lines[29].starts_with("0     "));
    for line in &lines[1..] {
        assert_eq!(line.chars().count(), 6 + 3 * 7);
    }
    for c in lines[1][6..].chars() {
        assert!(c == ' ' || c == 'R');
    }
    for c in lines[2][6..].chars() {
        assert!(c == ' ' || c == '\\' || c == '|' || c == '/');
    }
}

#[test]
fn a_rendered_skeleton_shows_every_node_on_a_path_without_a_kind() {
    let skeleton = Skeleton::<6, InVec, OutVec>::generate(&mut Rng::new(2));
    let text = skeleton.to_string();
    let lines: Vec<&str> = text.split('\n').collect();
    assert_eq!(lines.len(), 30);
    let mut shown = 0;
    for c in lines[29][6..].chars() {
        assert!(c == ' ' || c == '*');
        if c == '*' {
            shown += 1;
        }
    }
    assert_eq!(shown, skeleton.row(0).count_out_neighborhoods());
}

#[test]
fn every_edge_of_a_skeleton_has_its_two_ends() {
    for seed in 1u64..50 {
        let skeleton = Skeleton::<6, InVec, OutVec>::generate(&mut Rng::new(seed));
        for row in 0..14 {
            let mut previous_max: Option<usize> = None;
            for position in 0..7 {
                let members = skeleton.row(row).out_neighborhood(position).members();
                for &next in &members {
                    assert!(next + 1 >= position && next <= position + 1);
                    let pairs = skeleton.row(row + 1).in_neighborhood(next).pairs();
                    assert!(pairs.iter().any(|&(from, _)| from == position));
                    if let Some(max) = previous_max {
                        assert!(max <= next);
                    }
                }
                if let Some(&last) = members.last() {
                    previous_max = Some(last);
                }
            }
        }
        let mut arriving = 0;
        for position in 0..7 {
            for (_, count) in skeleton.row(14).in_neighborhood(position).pairs() {
                arriving += count;
            }
        }
        assert_eq!(arriving, 6);
    }
}

#[test]
fn the_first_row_reaches_every_slot_of_the_second_once() {
    for seed in 1u64..100 {
        let map = DungeonMap::<6, InVec, OutVec>::generate(&mut Rng::new(seed), true);
        let mut reached = [0usize; 7];
        for position in 0..7 {
            for next in map.row(0).out_neighborhood(position).members() {
                reached[next] += 1;
            }
        }
        for next in 0..7 {
            let arrives = !map.row(1).in_neighborhood(next).is_empty();
            assert_eq!(reached[next], if arrives { 1 } else { 0 });
        }
    }
}

#[test]
fn the_golden_seeds_have_an_elite_in_their_bottleneck() {
    for &seed in ONE_PATH_BURNING_ELITE_BOTTLENECKS {
        let seed: Seed = seed.into();
        let mut rng = seed.map_rng(Act::One);
        let map: DungeonMap<6, InVec, OutVec> = DungeonMap::generate(&mut rng, true);
        for row in 1..6 {
            assert_eq!(map.row(row).count_out_neighborhoods(), 1);
        }
        for position in 0..7 {
            if !map.row(5).out_neighborhood(position).is_empty() {
                assert_eq!(*map.kind(5, position), NodeKind::Elite);
            }
        }
        assert!(map.burning_elite(&mut rng).is_some());
    }
}

#[test]
fn six_edges_arrive_in_every_row_above_the_first() {
    for seed in 1u64..50 {
        let skeleton = Skeleton::<6, InVec, OutVec>::generate(&mut Rng::new(seed));
        for position in 0..7 {
            assert!(skeleton.row(0).in_neighborhood(position).is_empty());
        }
        for row in 1..15 {
            let mut arriving = 0;
            for position in 0..7 {
                for (from, count) in skeleton.row(row).in_neighborhood(position).pairs() {
                    assert!(count >= 1);
                    let members = skeleton.row(row - 1).out_neighborhood(from).members();
                    assert!(members.contains(&position));
                    arriving += count;
                }
            }
            assert_eq!(arriving, 6);
        }
    }
}
