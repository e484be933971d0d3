use gpio_chardev::error::{Error, ErrorKind};
use gpio_chardev::values::{
    decode, encode, encode_full, encode_masked, low_mask, Values, MAX_BITS, MAX_VALUES,
};

#[test]
fn limits_are_one_word() {
    assert_eq!(MAX_VALUES, 64);
    assert_eq!(MAX_BITS, 64);
}

#[test]
fn encode_puts_position_i_into_bit_i() {
    assert_eq!(encode(&[true, false, true, true]), Ok(0b1101));
    assert_eq!(encode(&[false, false, false, true]), Ok(0b1000));
    assert_eq!(encode(&[]), Ok(0));
    assert_eq!(encode(&[true; 64]), Ok(u64::MAX));
}

#[test]
fn decode_reads_lowest_bit_first() {
    assert_eq!(decode(0b1101, 4), Ok(vec![true, false, true, true]));
    assert_eq!(decode(0b1101, 2), Ok(vec![true, false]));
    assert_eq!(decode(u64::MAX, 0), Ok(vec![]));
    assert_eq!(decode(1 << 63, 64).unwrap()[63], true);
}

#[test]
fn encode_rejects_more_than_a_word() {
    assert_eq!(encode(&[false; 65]), Err(Error::TooManyValues));
    assert_eq!(encode(&[true; 65]).unwrap_err().kind(), ErrorKind::InvalidArgument);
    assert_eq!(encode_full(&[false; 65]), Err(Error::TooManyValues));
    assert_eq!(encode_masked(&[None; 65]), Err(Error::TooManyValues));
}

#[test]
fn decode_rejects_more_than_a_word() {
    assert_eq!(decode(0, 65), Err(Error::TooManyValues));
    assert_eq!(decode(0, usize::MAX), Err(Error::TooManyValues));
    assert!(decode(0, 64).is_ok());
}

#[test]
fn decode_of_encode_is_identity_for_every_length() {
    let mut seed: u64 = 0x9e37_79b9_7f4a_7c15;
    for len in 1..=64usize {
        let mut values = Vec::new();
        for _ in 0..len {
            seed = seed.wrapping_mul(6364136223846793005).wrapping_add(1442695040888963407);
            values.push((seed >> 33) & 1 == 1);
        }
        let bits = encode(&values).unwrap();
        assert_eq!(decode(bits, len), Ok(values));
    }
}

#[test]
fn encode_of_decode_keeps_the_low_bits() {
    let raw: u64 = 0xdead_beef_0123_4567;
    let values = decode(raw, 12).unwrap();
    assert_eq!(encode(&values), Ok(raw & 0xfff));
}

#[test]
fn low_mask_sets_the_lowest_bits() {
    assert_eq!(low_mask(0), 0);
    assert_eq!(low_mask(1), 1);
    assert_eq!(low_mask(3), 7);
    assert_eq!(low_mask(63), u64::MAX >> 1);
    assert_eq!(low_mask(64), u64::MAX);
}

#[test]
fn new_values_hold_nothing() {
    let values = Values::new();
    assert_eq!(values, Values { bits: 0, mask: 0 });
    for id in 0..=255u8 {
        assert_eq!(values.get(id), None);
    }
}

#[test]
fn set_and_get_one_position() {
    let mut values = Values::new();
    values.set(3, Some(true));
    values.set(5, Some(false));
    assert_eq!(values, Values { bits: 0b001000, mask: 0b101000 });
    assert_eq!(values.get(3), Some(true));
    assert_eq!(values.get(5), Some(false));
    assert_eq!(values.get(4), None);
    values.set(3, Some(false));
    assert_eq!(values.get(3), Some(false));
    values.set(5, None);
    assert_eq!(values.get(5), None);
    assert_eq!(values, Values { bits: 0, mask: 0b001000 });
}

#[test]
fn set_outside_the_word_changes_nothing() {
    let mut values = Values { bits: 0b11, mask: 0b111 };
    values.set(64, Some(true));
    values.set(200, None);
    assert_eq!(values, Values { bits: 0b11, mask: 0b111 });
    assert_eq!(values.get(64), None);
}

#[test]
fn set_reaches_the_highest_position() {
    let mut values = Values::new();
    values.set(63, Some(true));
    assert_eq!(values, Values { bits: 1 << 63, mask: 1 << 63 });
    assert_eq!(values.get(63), Some(true));
}

#[test]
fn truncate_empties_the_high_positions() {
    let mut values = Values { bits: 0b1111, mask: 0b1111 };
    values.truncate(2);
    assert_eq!(values, Values { bits: 0b11, mask: 0b11 });
    let mut all = Values { bits: u64::MAX, mask: u64::MAX };
    all.truncate(64);
    assert_eq!(all, Values { bits: u64::MAX, mask: u64::MAX });
    all.truncate(200);
    assert_eq!(all, Values { bits: u64::MAX, mask: u64::MAX });
    all.truncate(0);
    assert_eq!(all, Values { bits: 0, mask: 0 });
}

#[test]
fn encode_masked_emits_value_and_presence_words() {
    let packed = encode_masked(&[None, Some(true), None, Some(false)]).unwrap();
    assert_eq!(packed, Values { bits: 0b0010, mask: 0b1010 });
    assert_eq!(packed.get(0), None);
    assert_eq!(packed.get(1), Some(true));
    assert_eq!(packed.get(3), Some(false));
    assert_eq!(encode_masked(&[]), Ok(Values { bits: 0, mask: 0 }));
}

#[test]
fn encode_full_marks_every_position_present() {
    assert_eq!(encode_full(&[true, false, true]), Ok(Values { bits: 0b101, mask: 0b111 }));
    assert_eq!(encode_full(&[false; 64]), Ok(Values { bits: 0, mask: u64::MAX }));
}

#[test]
fn apply_follows_the_two_word_convention() {
    let update = Values { bits: 0b0110, mask: 0b1010 };
    assert_eq!(update.apply(0b0101), 0b0111);
    assert_eq!(Values::new().apply(0xabcd), 0xabcd);
    assert_eq!(Values { bits: 0, mask: u64::MAX }.apply(u64::MAX), 0);
}

#[test]
fn masked_update_touches_only_flagged_positions() {
    // A request of four lines in states 1, 0, 1, 0; positions 1 and 3 are written.
    let before = encode(&[true, false, true, false]).unwrap();
    let update = encode_masked(&[None, Some(true), None, Some(true)]).unwrap();
    let after = decode(update.apply(before), 4).unwrap();
    assert_eq!(after, vec![true, true, true, true]);

    let update = encode_masked(&[None, Some(false), None, Some(false)]).unwrap();
    let after = decode(update.apply(before), 4).unwrap();
    assert_eq!(after, vec![true, false, true, false]);

    for state in 0..16u64 {
        let update = encode_masked(&[None, Some(true), None, Some(false)]).unwrap();
        let old = decode(state, 4).unwrap();
        let new = decode(update.apply(state), 4).unwrap();
        assert_eq!(new[0], old[0]);
        assert_eq!(new[1], true);
        assert_eq!(new[2], old[2]);
        assert_eq!(new[3], false);
    }
}
