use spire_seeds::map::out_neighborhood::byte_tables::Interval;
use spire_seeds::map::out_neighborhood::out_bytes::{IntervalHelper, OutByte};

#[test]
fn build_tables() {
    let mut intervals = vec![Interval::Zero];
    for i in 0..7 {
        intervals.push(Interval::One(i));
    }

    for i in 0..7 {
        for j in (i + 1)..7 {
            intervals.push(Interval::Two(i, j));
        }
    }

    let mut promotion_table = [[0; 7]; 29];

    for (pos, interval) in intervals.iter().enumerate() {
        for i in 0..7 {
            let sum = interval.plus(i);
            println!("{:?} + {} = {:?}", interval, i, sum);
            let sum_pos = intervals.iter().position(|x| *x == sum).unwrap();
            promotion_table[pos][i] = sum_pos;
        }
    }
    println!("{:?}", promotion_table);
}

#[test]
fn test_tables() {
    let plus: [[OutByte; 7]; 29] = OutByte::push_table();
    let max: [Option<u8>; 29] = OutByte::max_table();
    let min: [Option<u8>; 29] = OutByte::min_table();

    let mut i = 0;
    let mut interval = IntervalHelper::Zero;
    while i < 29 {
        println!("{}\t{:?}", i, interval);
        println!("\t{:?}..{:?}", interval.min(), interval.max());
        println!("\t{:?}..{:?}", min[i as usize], max[i as usize]);
        let out_byte = OutByte(i);
        println!("\t{:?}", out_byte);
        assert_eq!(interval.index(), i);
        assert_eq!(interval.min(), min[i as usize]);
        assert_eq!(interval.max(), max[i as usize]);
        for j in 0..7 {
            let sum = interval.plus(j);
            let sum_byte = OutByte(sum.index());
            println!("\t\t+ {} = {:?} -> {:?}", j, sum, sum_byte);
            assert_eq!(sum_byte, plus[i as usize][j]);
        }
        interval = interval.next().unwrap_or(IntervalHelper::Zero);
        i += 1;
    }
}

#[test]
fn a_span_widens_to_hold_a_slot() {
    assert_eq!(Interval::Zero.plus(3), Interval::One(3));
    assert_eq!(Interval::One(3).plus(3), Interval::One(3));
    assert_eq!(Interval::One(3).plus(1), Interval::Two(1, 3));
    assert_eq!(Interval::One(3).plus(6), Interval::Two(3, 6));
    assert_eq!(Interval::Two(2, 4).plus(3), Interval::Two(2, 4));
    assert_eq!(Interval::Two(2, 4).plus(2), Interval::Two(2, 4));
    assert_eq!(Interval::Two(2, 4).plus(0), Interval::Two(0, 4));
    assert_eq!(Interval::Two(2, 4).plus(5), Interval::Two(2, 5));
    assert_eq!(Interval::Two(2, 4).min(), Some(2));
    assert_eq!(Interval::Two(2, 4).max(), Some(4));
    assert_eq!(Interval::Zero.min(), None);
    assert_eq!(Interval::One(5).max(), Some(5));
    assert_eq!(IntervalHelper::Two(5, 6).index(), 28);
    assert_eq!(IntervalHelper::Two(5, 6).next(), None);
    assert_eq!(IntervalHelper::One(6).next(), Some(IntervalHelper::Two(0, 1)));
    assert_eq!(IntervalHelper::Two(0, 1).index(), 8);
    assert_eq!(IntervalHelper::Two(1, 2).next(), Some(IntervalHelper::Two(0, 3)));
}
