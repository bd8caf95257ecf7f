//! The nonce/counter state: initialization, counter arithmetic, and the
//! 33-byte layout image the engine reads.

use ccm_driver::CcmData;

fn le_counter(layout: &[u8]) -> u64 {
    let mut bytes = [0u8; 8];
    bytes.copy_from_slice(&layout[16..24]);
    u64::from_le_bytes(bytes)
}

#[test]
fn new_starts_at_zero() {
    let key = [0x11u8; 16];
    let iv = [0x22u8; 8];
    let data = CcmData::new(key, iv);
    assert_eq!(data.counter_value(), 0);
    let layout = data.layout_bytes();
    assert_eq!(layout.len(), 33);
    assert_eq!(&layout[0..16], &key[..]);
    assert_eq!(le_counter(&layout), 0);
    assert_eq!(layout[24], 0);
    assert_eq!(&layout[25..33], &iv[..]);
}

#[test]
fn increment_advances_by_one() {
    let mut data = CcmData::new([0u8; 16], [0u8; 8]);
    data.increment_counter();
    assert_eq!(data.counter_value(), 1);
    data.increment_counter();
    data.increment_counter();
    assert_eq!(data.counter_value(), 3);
    assert_eq!(le_counter(&data.layout_bytes()), 3);
}

#[test]
fn decrement_saturates_at_zero() {
    let mut data = CcmData::new([0u8; 16], [0u8; 8]);
    data.decrement_counter();
    assert_eq!(data.counter_value(), 0);
    data.increment_counter();
    data.increment_counter();
    data.decrement_counter();
    assert_eq!(data.counter_value(), 1);
    data.decrement_counter();
    assert_eq!(data.counter_value(), 0);
    data.decrement_counter();
    assert_eq!(data.counter_value(), 0);
}

#[test]
fn setters_replace_fields_in_layout() {
    let mut data = CcmData::new([0u8; 16], [0u8; 8]);
    let key = [0xA5u8; 16];
    let iv = [0x5Au8; 8];
    data.set_key(key);
    data.set_iv(iv);
    data.set_direction(true);
    data.increment_counter();
    let layout = data.layout_bytes();
    assert_eq!(&layout[0..16], &key[..]);
    assert_eq!(le_counter(&layout), 1);
    assert_eq!(layout[24], 1);
    assert_eq!(&layout[25..33], &iv[..]);
    data.set_direction(false);
    assert_eq!(data.layout_bytes()[24], 0);
    // setters leave the counter alone
    assert_eq!(data.counter_value(), 1);
}

#[test]
fn counter_field_is_little_endian() {
    let mut data = CcmData::new([0u8; 16], [0u8; 8]);
    for _ in 0..258 {
        data.increment_counter();
    }
    let layout = data.layout_bytes();
    assert_eq!(layout[16], 2);
    assert_eq!(layout[17], 1);
    for i in 18..24 {
        assert_eq!(layout[i], 0);
    }
}
