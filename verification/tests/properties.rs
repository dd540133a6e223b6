use bitbyte::Bit;
use bitbyte::Byte;

#[test]
fn round_trip_raw_bits_all_values() {
    for v in 0..=255u16 {
        let byte = Byte::from_raw(v as u8);
        let mut sum: u16 = 0;
        for i in 0..8usize {
            if byte.get_bit(i).value() {
                sum += 1 << i;
            }
        }
        assert_eq!(sum, v);
    }
}

#[test]
fn from_bits_saturated_inputs() {
    assert_eq!(0, Byte::from_bits([false; 8]).as_byte());
    assert_eq!(255, Byte::from_bits([true; 8]).as_byte());
    let low = [false, false, false, false, false, false, false, true];
    assert_eq!(1, Byte::from_bits(low).as_byte());
    let high = [true, false, false, false, false, false, false, false];
    assert_eq!(128, Byte::from_bits(high).as_byte());
}

#[test]
fn setter_locality_all_values() {
    for v in 0..=255u16 {
        for i in 0..8usize {
            for val in [false, true] {
                let before = Byte::from_raw(v as u8);
                let mut after = before;
                after.set_bit(val, i);
                assert_eq!(after.get_bit(i).value(), val);
                for j in 0..8usize {
                    if j != i {
                        assert_eq!(after.get_bit(j).value(), before.get_bit(j).value());
                    }
                }
            }
        }
    }
}

#[test]
fn zero_one_saturation() {
    let zeros = Byte::from_raw(0);
    let ones = Byte::from_raw(255);
    for i in 0..8usize {
        assert!(!zeros.get_bit(i).value());
        assert!(ones.get_bit(i).value());
    }
}

#[test]
fn default_byte_is_zero() {
    assert_eq!(0, Byte::default().as_byte());
}

#[test]
fn iterator_completeness_and_order() {
    let mut byte = Byte::from_raw(0);
    for i in [1usize, 2, 3, 4, 6] {
        byte.set_bit(true, i);
    }
    let mut seen: Vec<bool> = Vec::new();
    let mut iter = byte.into_iter();
    while let Some(bit) = iter.next() {
        seen.push(bit.value());
    }
    assert_eq!(seen, vec![false, true, true, true, true, false, true, false]);
    assert_eq!(iter.next(), None);
    assert_eq!(iter.next(), None);
}

#[test]
fn iterator_snapshot_is_independent() {
    let mut byte = Byte::from_raw(0b0000_0001);
    let mut iter = byte.into_iter();
    byte.set_0(false);
    byte.set_7(true);
    assert_eq!(iter.next(), Some(Bit::get_one_bit()));
    for _ in 0..6 {
        assert_eq!(iter.next(), Some(Bit::get_zero_bit()));
    }
    assert_eq!(iter.next(), Some(Bit::get_zero_bit()));
    assert_eq!(iter.next(), None);
}

#[test]
fn iterator_length_exactness() {
    let mut iter = Byte::from_raw(0b1100_1101).into_iter();
    for step in 0..8usize {
        assert_eq!(iter.remaining(), 8 - step);
        assert!(iter.next().is_some());
    }
    assert_eq!(iter.remaining(), 0);
    assert_eq!(iter.next(), None);
    assert_eq!(iter.remaining(), 0);
}

#[test]
fn integer_to_bit_mapping() {
    assert!(Bit::from_integer(0).is_zero());
    assert!(!Bit::from_integer(0).is_one());
    for n in [1u8, 2, 100, 255] {
        assert!(Bit::from_integer(n).is_one());
        assert!(!Bit::from_integer(n).is_zero());
    }
    assert!(Bit::from_bool(true).is_one());
    assert!(Bit::from_bool(false).is_zero());
    assert!(Bit::get_one_bit().is_one());
    assert!(Bit::get_zero_bit().is_zero());
}
