use spire_seeds::map::in_neighborhood::in_array::InArray;
use spire_seeds::map::in_neighborhood::in_vec::InVec;
use spire_seeds::map::in_neighborhood::InNeighborhood;

#[test]
fn mod_test_bijection() {
    for array in InArray::at_most_six() {
        let in_neighborhood = InVec::from_array(&array);
        let new_array: InArray = InArray::from_counts(&in_neighborhood.counts()).unwrap();
        assert!(
            new_array.const_eq(&array),
            "{} -> {} -> {}",
            array.to_string(),
            in_neighborhood.to_string(),
            new_array.to_string()
        );
    }
}

#[test]
fn mod_test_invec_min() {
    for array in InArray::at_most_six() {
        let invec = InVec::from_array(&array);
        assert_eq!(invec.min(), array.min().copied());
    }
}

#[test]
fn mod_test_invec_max() {
    for array in InArray::at_most_six() {
        let invec = InVec::from_array(&array);
        assert_eq!(invec.max(), array.max().copied());
    }
}

#[test]
fn mod_test_push() {
    for array in InArray::at_most_six() {
        for position in 0..7 {
            let array_sum: Option<InArray> = array.plus(position);
            let mut invec = InVec::from_array(&array);
            invec.push(position);
            let vec_sum: Option<InArray> = InArray::from_counts(&invec.counts());
            match (vec_sum, array_sum) {
                (Some(a), Some(b)) => assert!(a.const_eq(&b)),
                (None, None) => {}
                _ => panic!("{} + {}", array.to_string(), position),
            }
        }
    }
}

#[test]
fn mod_test_iter() {
    for array in InArray::at_most_six().iter() {
        let invec = InVec::from_array(array);
        let vec: Vec<(usize, usize)> = invec.pairs();
        assert_eq!(vec, array.slice().to_vec())
    }
}

#[test]
fn there_are_308_neighborhoods_of_at_most_six_edges() {
    let all = InArray::at_most_six();
    assert_eq!(all.len(), 308);
    assert!(all[0].is_empty());
    for (i, a) in all.iter().enumerate() {
        assert_eq!(InNeighborhood::is_empty(a), i == 0);
        for b in &all[..i] {
            assert!(!a.const_eq(b));
        }
    }
}
