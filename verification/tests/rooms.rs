use spire_seeds::map::buffed_elite::EliteBuff;
use spire_seeds::map::in_neighborhood::in_vec::InVec;
use spire_seeds::map::in_neighborhood::InNeighborhood;
use spire_seeds::map::kind::NodeKind;
use spire_seeds::map::out_neighborhood::out_vec::OutVec;
use spire_seeds::map::out_neighborhood::OutNeighborhood;
use spire_seeds::map::row::Row;
use spire_seeds::map::skeleton::Skeleton;
use spire_seeds::map::{Act, DungeonMap};
use spire_seeds::rng::Rng;
use spire_seeds::seed::{letter, letter_index, Seed};

fn rounded(chance: f32, count: usize) -> usize {
    (chance * count as f32).round() as usize
}

#[test]
fn the_bag_holds_the_share_of_every_kind() {
    let bag = DungeonMap::<6, InVec, OutVec>::fill_room_array(50, true);
    let count = |kind: NodeKind| bag.iter().filter(|k| **k == kind).count();
    assert_eq!(count(NodeKind::Shop), 3);
    assert_eq!(count(NodeKind::Rest), 6);
    assert_eq!(count(NodeKind::Elite), 6);
    assert_eq!(count(NodeKind::Event), 11);
    assert_eq!(bag.len(), 26);
    let plain = DungeonMap::<6, InVec, OutVec>::fill_room_array(50, false);
    assert_eq!(plain.iter().filter(|k| **k == NodeKind::Elite).count(), 4);
    assert_eq!(plain[..3], [NodeKind::Shop; 3]);
    assert_eq!(plain[3..9], [NodeKind::Rest; 6]);
    assert_eq!(plain[9..13], [NodeKind::Elite; 4]);
    assert_eq!(plain[13..], [NodeKind::Event; 11]);
    assert!(DungeonMap::<6, InVec, OutVec>::fill_room_array(0, true).is_empty());
}

#[test]
fn the_shares_are_the_rounded_products_in_single_precision() {
    for count in 0..=400usize {
        for ascension in [false, true] {
            let bag = DungeonMap::<6, InVec, OutVec>::fill_room_array(count, ascension);
            let have = |kind: NodeKind| bag.iter().filter(|k| **k == kind).count();
            assert_eq!(have(NodeKind::Shop), rounded(0.05, count));
            assert_eq!(have(NodeKind::Rest), rounded(0.12, count));
            assert_eq!(
                have(NodeKind::Elite),
                rounded(if ascension { 0.08 * 1.6 } else { 0.08 }, count)
            );
            assert_eq!(have(NodeKind::Event), rounded(0.22, count));
            assert_eq!(have(NodeKind::Monster), 0);
        }
    }
}

#[test]
fn kinds_have_their_glyphs_and_their_rows() {
    let glyphs = [
        (NodeKind::Unassigned, '*'),
        (NodeKind::Monster, 'M'),
        (NodeKind::Elite, 'E'),
        (NodeKind::Event, '?'),
        (NodeKind::Rest, 'R'),
        (NodeKind::Shop, '$'),
        (NodeKind::Treasure, 'T'),
        (NodeKind::Empty, ' '),
    ];
    for (kind, glyph) in glyphs {
        assert_eq!(kind.char(), glyph);
        assert_eq!(kind.to_string(), glyph.to_string());
        assert_eq!(kind.is_assigned(), kind != NodeKind::Unassigned);
        assert_eq!(kind.is_empty(), kind == NodeKind::Empty);
        for row in 0..15 {
            let barred = match row {
                0..=4 => kind == NodeKind::Elite || kind == NodeKind::Rest,
                13.. => kind == NodeKind::Rest,
                _ => false,
            };
            assert_eq!(kind.incompatible_with(row), barred);
        }
    }
    assert_eq!(NodeKind::default(), NodeKind::Unassigned);
    assert_eq!(Act::default(), Act::One);
}

#[test]
fn a_map_without_elites_has_no_burning_elite() {
    let map = DungeonMap::<6, InVec, OutVec>::new();
    let mut rng = Rng::new(7);
    assert_eq!(map.burning_elite_position(&mut rng), None);
    assert!(map.burning_elite(&mut rng).is_none());
    let mut fresh = Rng::new(7);
    assert_eq!(rng.next_capped_u64(1000), fresh.next_capped_u64(1000));
}

#[test]
fn the_burning_elite_is_drawn_among_the_elites_and_then_its_buff() {
    let mut map = DungeonMap::<6, InVec, OutVec>::default();
    map.set_kind(5, 2, NodeKind::Elite);
    map.set_kind(5, 6, NodeKind::Elite);
    map.set_kind(9, 0, NodeKind::Elite);
    map.set_kinds(3, NodeKind::Shop);
    assert_eq!(map.kinds(3), &[NodeKind::Shop; 7]);
    assert_eq!(*map.kind(5, 2), NodeKind::Elite);
    let elites = [(2, 5), (6, 5), (0, 9)];
    let buffs = [
        EliteBuff::Strength,
        EliteBuff::MaxHP,
        EliteBuff::Metallicize,
        EliteBuff::Regenerate,
    ];
    for seed in 1u64..60 {
        let mut rng = Rng::new(seed);
        let info = map.burning_elite(&mut rng).unwrap();
        let mut plain = Rng::new(seed);
        let index = plain.next_capped_u64(3) as usize;
        let buff = buffs[plain.next_capped_u64(4) as usize];
        assert_eq!((info.buff_x, info.buff_y), elites[index]);
        assert_eq!(info.buff_index, index);
        assert_eq!(info.count, 3);
        assert_eq!(info.buff, buff);
        assert_eq!(rng.next_capped_u64(1000), plain.next_capped_u64(1000));
    }
}

#[test]
fn a_row_keeps_what_is_put_into_it() {
    let mut row: Row<InVec, OutVec> = Row::default();
    assert_eq!(row.count_in_neighborhoods(), 0);
    assert_eq!(row.count_out_neighborhoods(), 0);
    assert_eq!(row.kinds(), vec![None; 7]);
    row.in_neighborhood_mut(3).push(2);
    row.in_neighborhood_mut(3).push(2);
    row.in_neighborhood_mut(3).push(4);
    row.out_neighborhood_mut(3).push(4);
    row.out_neighborhood_mut(3).push(4);
    row.out_neighborhood_mut(5).push(6);
    assert_eq!(row.count_in_neighborhoods(), 1);
    assert_eq!(row.count_out_neighborhoods(), 2);
    assert_eq!(row.in_neighborhood(3).pairs(), vec![(2, 2), (4, 1)]);
    assert_eq!(row.in_neighborhood(3).min(), Some(2));
    assert_eq!(row.in_neighborhood(3).max(), Some(4));
    assert_eq!(row.in_neighborhood(3).to_string(), "224");
    assert_eq!(row.in_neighborhood(0).to_string(), "[]");
    assert_eq!(row.out_neighborhood(3).members(), vec![4]);
    assert_eq!(row.out_neighborhood(5).to_string(), "6");
    assert_eq!(row.out_neighborhood(0).to_string(), "");
    assert_eq!(row.in_neighborhoods().len(), 7);
    assert_eq!(row.out_neighborhoods().len(), 7);
    assert!(row.out_neighborhoods()[3].values.contains(&4));
    assert_eq!(row.values().len(), 7);
    assert_eq!(row.kind(3), None);
    row.set_kind(3, NodeKind::Shop);
    assert_eq!(row.kind(3), Some(&NodeKind::Shop));
    *row.kind_mut(3) = None;
    assert_eq!(row.kind(3), None);
    row.set_kinds(NodeKind::Event);
    assert_eq!(row.kinds(), vec![Some(NodeKind::Event); 7]);
    row.out_neighborhood_mut(3).remove(4);
    assert!(row.out_neighborhood(3).is_empty());
    assert_eq!(row.count_out_neighborhoods(), 1);
}

#[test]
fn neighborhoods_touch_where_one_ends_and_the_other_begins() {
    let mut left = InVec::default();
    let mut right = InVec::default();
    assert!(InNeighborhood::gca_skip(&left, &right));
    left.push(1);
    left.push(2);
    assert!(InNeighborhood::gca_skip(&left, &right));
    right.push(3);
    assert!(InNeighborhood::gca_skip(&left, &right));
    right.push(2);
    assert!(!InNeighborhood::gca_skip(&left, &right));
    assert!(InNeighborhood::gca_skip(&right, &left));
    let mut outs = OutVec::default();
    outs.push(3);
    outs.push(5);
    let mut value = 2;
    outs.update_position_from_left(&mut value);
    assert_eq!(value, 5);
    let mut value = 6;
    outs.update_position_from_left(&mut value);
    assert_eq!(value, 6);
    let mut value = 4;
    outs.update_position_from_right(&mut value);
    assert_eq!(value, 3);
    let mut value = 1;
    outs.update_position_from_right(&mut value);
    assert_eq!(value, 1);
    let mut empty = 4;
    OutVec::default().update_position_from_left(&mut empty);
    OutVec::default().update_position_from_right(&mut empty);
    assert_eq!(empty, 4);
}

#[test]
fn siblings_are_the_other_children_of_the_parents() {
    let map = DungeonMap::<6, InVec, OutVec>::generate(&mut Rng::new(2), true);
    for row in 1..15 {
        for position in 0..7 {
            let mut expected = Vec::new();
            for sibling in 0..7 {
                if sibling == position {
                    continue;
                }
                let shared = map
                    .row(row)
                    .in_neighborhood(position)
                    .pairs()
                    .iter()
                    .any(|&(parent, _)| {
                        map.row(row - 1)
                            .out_neighborhood(parent)
                            .members()
                            .contains(&sibling)
                    });
                if shared {
                    expected.push(sibling);
                }
            }
            assert_eq!(map.siblings(row, position), expected);
        }
    }
    assert_eq!(map.rows().len(), 15);
}

#[test]
fn a_blank_skeleton_has_no_edges() {
    let skeleton: Skeleton<6, InVec, OutVec> = Skeleton::default();
    for row in skeleton.rows() {
        assert_eq!(row.count_in_neighborhoods(), 0);
        assert_eq!(row.count_out_neighborhoods(), 0);
    }
}

#[test]
fn a_seed_seeds_its_generators() {
    let seed = Seed::from(41i64);
    let mut own = seed.rng();
    let mut same = Rng::new(41);
    let mut map = seed.map_rng(Act::One);
    let mut offset = seed.offset_rng(1);
    let mut next = Rng::new(42);
    for modulus in 1..30 {
        assert_eq!(own.next_capped_u64(modulus), same.next_capped_u64(modulus));
        let drawn = next.next_capped_u64(modulus);
        assert_eq!(map.next_capped_u64(modulus), drawn);
        assert_eq!(offset.next_capped_u64(modulus), drawn);
    }
    let mut wrapped = Seed::from(i64::MAX).offset_rng(1);
    let mut least = Rng::new(i64::MIN as u64);
    assert_eq!(wrapped.next_capped_u64(1000), least.next_capped_u64(1000));
    assert_eq!(Act::One.seed_offset(), 1);
}

#[test]
fn letters_and_digits_of_base_35_are_inverse() {
    let alphabet = b"0123456789ABCDEFGHIJKLMNPQRSTUVWXYZ";
    for (index, &byte) in alphabet.iter().enumerate() {
        assert_eq!(letter(index as u64), byte);
        assert_eq!(letter_index(byte) as usize, index);
    }
    assert_eq!(letter_index(b'O'), 0);
}
