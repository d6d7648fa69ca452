use spire_seeds::map::in_neighborhood::in_array::InArray;
use spire_seeds::map::in_neighborhood::in_byte::InByte;
use spire_seeds::map::in_neighborhood::in_vec::InVec;
use spire_seeds::map::in_neighborhood::InNeighborhood;

#[test]
fn test_min_table() {
    let arrays = InArray::at_most_six();
    let min = InByte::min_table();
    assert_eq!(arrays.len(), min.len());
    for (byte, (array, min)) in arrays.iter().zip(min.iter()).enumerate() {
        assert_eq!(
            array.min().copied(),
            *min,
            "byte: {}, array: {}, min: {:?}",
            byte,
            array.to_string(),
            min
        );
    }
}

#[test]
fn test_max_table() {
    let arrays = InArray::at_most_six();
    let max = InByte::max_table();
    assert_eq!(arrays.len(), max.len());
    for (byte, (array, max)) in arrays.iter().zip(max.iter()).enumerate() {
        assert_eq!(
            array.max().copied(),
            *max,
            "byte: {}, array: {}, max: {:?}",
            byte,
            array.to_string(),
            max
        );
    }
}

#[test]
fn test_sum_table() {
    let arrays = InArray::at_most_six();
    let sum_table = InByte::sum_table();
    assert_eq!(arrays.len(), sum_table.len());
    for (i, (array, sums)) in arrays.iter().zip(sum_table.iter()).enumerate() {
        for (j, sum) in sums.iter().enumerate() {
            if let Some((array_sum, sum_position)) = array.plus(j).and_then(|array_sum| {
                arrays
                    .iter()
                    .position(|array| array.const_eq(&array_sum))
                    .map(|position| (array_sum, position))
            }) {
                assert_eq!(
                    sum.0 as usize,
                    sum_position,
                    "\n{}:\t{}\n\t{:?}\n\t{} + {} = {}\n\tfoo",
                    i,
                    array.to_string(),
                    sums,
                    array.to_string(),
                    j,
                    array_sum.to_string()
                );
            } else {
                assert_eq!(
                    sum.0,
                    0,
                    "\n{}:\t{}\n\t{:?}\n\t{} + {} = None\n\tbar",
                    i,
                    array.to_string(),
                    sums,
                    array.to_string(),
                    j
                );
            }
        }
    }
}

#[test]
fn packed_neighborhoods_stand_for_their_table_entries() {
    for (i, &array) in InArray::at_most_six().iter().enumerate() {
        let in_neighborhood = InByte::from_array(&array);
        assert_eq!(in_neighborhood.0 as usize, i);
        let new_array: InArray = in_neighborhood.array();
        assert!(
            new_array.const_eq(&array),
            "{}:\tarray: {}, in_neighborhood: {:?}, new_array: {}",
            i,
            array.to_string(),
            in_neighborhood,
            new_array.to_string()
        );
    }
}

#[test]
fn packed_neighborhoods_have_the_smallest_slot_of_their_arrays() {
    for array in InArray::at_most_six() {
        let packed = InByte::from_array(&array);
        assert_eq!(packed.min(), array.min().copied());
    }
}

#[test]
fn packed_neighborhoods_have_the_largest_slot_of_their_arrays() {
    for array in InArray::at_most_six() {
        let packed = InByte::from_array(&array);
        assert_eq!(packed.max(), array.max().copied());
    }
}

#[test]
fn a_push_on_a_packed_neighborhood_is_the_push_on_its_array() {
    for array in InArray::at_most_six() {
        for position in 0..7 {
            let mut in_neighborhood = InByte::from_array(&array);
            in_neighborhood.push(position);
            let array_sum: Option<InArray> = array.plus(position);
            assert_eq!(
                in_neighborhood,
                array_sum
                    .map(|sum| InByte::from_array(&sum))
                    .unwrap_or_default(),
                "\n{} + {} = {:?}\ninvec: {:?}",
                array.to_string(),
                position,
                array_sum,
                in_neighborhood
            );
        }
    }
}

#[test]
fn packed_neighborhoods_list_the_pairs_of_their_arrays() {
    for array in InArray::at_most_six().iter() {
        let packed = InByte::from_array(array);
        let vec: Vec<(usize, usize)> = packed.pairs();
        assert_eq!(vec, array.slice().to_vec())
    }
}

#[test]
fn the_three_representations_agree_before_and_after_every_push() {
    for array in InArray::at_most_six() {
        let dynamic = InVec::from_array(&array);
        let packed = InByte::from_array(&array);
        assert_eq!(dynamic.min(), InNeighborhood::min(&array));
        assert_eq!(packed.min(), InNeighborhood::min(&array));
        assert_eq!(dynamic.max(), InNeighborhood::max(&array));
        assert_eq!(packed.max(), InNeighborhood::max(&array));
        assert_eq!(dynamic.to_string(), array.to_string());
        assert_eq!(packed.to_string(), array.to_string());
        let total: usize = array.slice().iter().map(|pair| pair.1).sum();
        for value in 0..7 {
            if total < 6 {
                if let Some(sum) = array.plus(value) {
                    let mut dynamic = InVec::from_array(&array);
                    let mut enumerated = array;
                    let mut packed = InByte::from_array(&array);
                    dynamic.push(value);
                    enumerated.push(value);
                    packed.push(value);
                    assert!(enumerated.const_eq(&sum));
                    assert_eq!(dynamic.min(), InNeighborhood::min(&sum));
                    assert_eq!(packed.min(), InNeighborhood::min(&sum));
                    assert_eq!(dynamic.max(), InNeighborhood::max(&sum));
                    assert_eq!(packed.max(), InNeighborhood::max(&sum));
                    assert_eq!(dynamic.to_string(), sum.to_string());
                    assert_eq!(packed.to_string(), sum.to_string());
                    assert_eq!(
                        InNeighborhood::gca_skip(&dynamic, &dynamic),
                        InNeighborhood::gca_skip(&packed, &packed)
                    );
                }
            }
        }
    }
}

#[test]
fn neighborhoods_are_written_with_a_digit_for_every_edge() {
    assert_eq!(InArray::Zero([]).to_string(), "[]");
    assert_eq!(InArray::One([(3, 2)]).to_string(), "33");
    assert_eq!(InArray::Two([(0, 1), (2, 3)]).to_string(), "0222");
    assert_eq!(InArray::Three([(4, 1), (5, 1), (6, 2)]).to_string(), "4566");
    let mut dynamic = InVec::empty();
    dynamic.push(3);
    dynamic.push(2);
    dynamic.push(3);
    assert_eq!(dynamic.to_string(), "233");
    assert_eq!(dynamic.pairs(), vec![(2, 1), (3, 2)]);
}

#[test]
fn every_neighborhood_of_the_packed_table_is_found_at_its_own_index() {
    let arrays = InArray::at_most_six();
    assert_eq!(arrays.len(), 308);
    for (index, array) in arrays.iter().enumerate() {
        assert_eq!(InByte::from_array(array).0 as usize, index);
    }
}
