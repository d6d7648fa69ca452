use spire_seeds::map::out_neighborhood::out_array::{arrays, OutArray};
use spire_seeds::map::out_neighborhood::OutNeighborhood;

#[test]
fn test_plus_table() {
    for array in arrays() {
        println!("[{}]", array.to_string());
        for i in 0..7usize {
            println!("\t+ {} = {:?}", i, array.plus(i));
        }
    }
}

#[test]
fn adding_a_member_keeps_the_members_in_order() {
    let pair = OutArray::Two([2, 4]);
    assert!(pair.plus(3).unwrap().const_eq(&OutArray::Three([2, 3, 4])));
    assert!(pair.plus(2).unwrap().const_eq(&pair));
    assert!(pair.plus(1).is_none());
    assert!(pair.plus(5).is_none());
    let one = OutArray::One([3]);
    assert!(one.plus(1).unwrap().const_eq(&OutArray::Two([1, 3])));
    assert!(one.plus(5).unwrap().const_eq(&OutArray::Two([3, 5])));
    assert!(one.plus(0).is_none());
    assert!(one.plus(6).is_none());
}

#[test]
fn only_an_outer_member_can_be_taken_out() {
    let triple = OutArray::Three([1, 2, 3]);
    assert!(triple.minus(1).unwrap().const_eq(&OutArray::Two([2, 3])));
    assert!(triple.minus(3).unwrap().const_eq(&OutArray::Two([1, 2])));
    assert!(triple.minus(2).is_none());
    assert!(triple.minus(5).is_none());
    assert!(OutArray::One([4]).minus(4).unwrap().const_eq(&OutArray::Zero([])));
    assert!(OutArray::Zero([]).minus(0).is_none());
}
