use spire_seeds::map::in_neighborhood::backend::StrongCompositionOfLengthAtMostThree;
use spire_seeds::map::in_neighborhood::consecutive::{
    Multiplicity, NeighborhoodArray, NeighborhoodOfAtMostThreeConsecutiveElements,
};
use spire_seeds::map::in_neighborhood::in_array::InArray;

#[test]
fn in_byte_test_neighborhoods() {
    let neighborhoods = NeighborhoodOfAtMostThreeConsecutiveElements::at_most_six();
    for (index, neighborhood) in neighborhoods.iter().enumerate() {
        println!("{}: {:?}", index, neighborhood);
    }
}

#[test]
fn backend_test_neighborhoods() {
    let neighborhoods = NeighborhoodOfAtMostThreeConsecutiveElements::at_most_six();
    for (index, neighborhood) in neighborhoods.iter().enumerate() {
        println!("{}: {}", index, neighborhood.to_string());
    }
}

#[test]
fn test_array_plus() {
    let arrays = NeighborhoodArray::at_most_six();
    assert_eq!(arrays.len(), 233);
    for (i, array) in arrays.iter().enumerate() {
        for j in 0..7 {
            if let Some(sum) = array.plus(j) {
                println!("{}:\t{} + {} = {}", i, array.to_string(), j, sum.to_string());
            } else {
                println!("{}:\t{} + {} = None", i, array.to_string(), j);
            }
        }
        if i == 10 {
            break;
        }
    }
}

#[test]
fn there_are_233_neighborhoods_of_consecutive_slots() {
    let intervals = NeighborhoodOfAtMostThreeConsecutiveElements::at_most_six();
    let arrays = NeighborhoodArray::at_most_six();
    assert_eq!(intervals.len(), 233);
    assert_eq!(arrays.len(), 233);
    assert!(intervals[0].is_empty());
    assert_eq!(intervals[0].to_string(), "");
    assert_eq!(arrays[0].to_string(), "[]");
    assert_eq!(
        intervals[1],
        NeighborhoodOfAtMostThreeConsecutiveElements::One(0, Multiplicity(1))
    );
    assert_eq!(
        intervals[8],
        NeighborhoodOfAtMostThreeConsecutiveElements::Two(0, Multiplicity(1), Multiplicity(1))
    );
    assert_eq!(
        intervals[232],
        NeighborhoodOfAtMostThreeConsecutiveElements::One(6, Multiplicity(6))
    );
    for (i, interval) in intervals.iter().enumerate() {
        assert!(interval.const_eq(interval));
        assert_eq!(interval.is_empty(), i == 0);
        for other in &intervals[..i] {
            assert!(!interval.const_eq(other));
        }
        let array = NeighborhoodArray::new(*interval);
        assert!(array.const_eq(&arrays[i]));
        if i > 0 {
            assert_eq!(array.to_string(), interval.to_string());
        }
    }
}

#[test]
fn a_push_may_not_leave_a_gap_between_consecutive_slots() {
    let one = NeighborhoodArray::One([(3, 2)]);
    assert!(one.plus(3).unwrap().const_eq(&NeighborhoodArray::One([(3, 3)])));
    assert!(one.plus(4).unwrap().const_eq(&NeighborhoodArray::Two([(3, 2), (4, 1)])));
    assert!(one.plus(2).unwrap().const_eq(&NeighborhoodArray::Two([(2, 1), (3, 2)])));
    assert!(one.plus(5).is_none());
    assert!(one.plus(1).is_none());
    assert!(InArray::One([(3, 2)]).plus(5).is_some());
    let two = NeighborhoodArray::Two([(3, 2), (4, 1)]);
    assert!(two
        .plus(5)
        .unwrap()
        .const_eq(&NeighborhoodArray::Three([(3, 2), (4, 1), (5, 1)])));
    assert!(two
        .plus(2)
        .unwrap()
        .const_eq(&NeighborhoodArray::Three([(2, 1), (3, 2), (4, 1)])));
    assert!(two.plus(6).is_none());
    let three = NeighborhoodArray::Three([(2, 1), (3, 2), (4, 1)]);
    assert!(three.plus(1).is_none());
    assert!(three.plus(5).is_none());
    assert_eq!(three.plus(4).unwrap().to_string(), "23344");
    assert_eq!(three.min(), Some(&2));
    assert_eq!(three.max(), Some(&4));
    assert_eq!(three.slice(), &[(2, 1), (3, 2), (4, 1)]);
}

#[test]
fn the_pushes_on_intervals_are_the_pushes_on_their_lists() {
    for interval in NeighborhoodOfAtMostThreeConsecutiveElements::at_most_six() {
        let array = NeighborhoodArray::new(interval);
        for value in 0..7u8 {
            match (interval.plus(value), array.plus(value as usize)) {
                (Some(a), Some(b)) => assert!(NeighborhoodArray::new(a).const_eq(&b)),
                (None, None) => {}
                _ => panic!("{:?} + {}", interval, value),
            }
        }
    }
}

#[test]
fn an_interval_needs_room_for_its_slots() {
    let two = StrongCompositionOfLengthAtMostThree::Two(1, 2);
    let three = StrongCompositionOfLengthAtMostThree::Three(1, 2, 3);
    assert!(NeighborhoodOfAtMostThreeConsecutiveElements::new(5, &two).is_some());
    assert!(NeighborhoodOfAtMostThreeConsecutiveElements::new(6, &two).is_none());
    assert!(NeighborhoodOfAtMostThreeConsecutiveElements::new(4, &three).is_some());
    assert!(NeighborhoodOfAtMostThreeConsecutiveElements::new(5, &three).is_none());
    assert_eq!(
        NeighborhoodOfAtMostThreeConsecutiveElements::new(
            3,
            &StrongCompositionOfLengthAtMostThree::Empty
        ),
        Some(NeighborhoodOfAtMostThreeConsecutiveElements::Empty)
    );
    assert_eq!(StrongCompositionOfLengthAtMostThree::compositions_of_six().len(), 42);
}

#[test]
fn no_neighborhood_stands_twice_in_the_table() {
    let intervals = NeighborhoodOfAtMostThreeConsecutiveElements::at_most_six();
    for i in 0..intervals.len() {
        for j in 0..i {
            assert_ne!(intervals[i], intervals[j], "{} and {}", j, i);
        }
    }
}
