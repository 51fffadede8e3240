use gribberish::data_decoding::{expand_with_bitmap, unpack_simple_values};
use gribberish::scaled::{scale_value, ScaledValue, SCALED_VALUE_MISSING, SCALE_FACTOR_MISSING};
use gribberish::utils::{
    bit_array_from_bytes, read_u16_from_bytes, read_u32_from_bytes, read_u64_from_bytes,
    to_signed_i32, to_signed_i8,
};

fn scaled_as_f64(v: ScaledValue) -> f64 {
    v.value as f64 * 10f64.powi(-v.factor)
}

#[test]
fn scale_value_ordinary() {
    let v = scale_value(2, 150).unwrap();
    assert_eq!(v, ScaledValue { value: 150, factor: 2 });
    assert!((scaled_as_f64(v) - 1.50).abs() < 1e-12);
}

#[test]
fn scale_value_factor_sentinel_means_zero() {
    let v = scale_value(SCALE_FACTOR_MISSING, 150).unwrap();
    assert_eq!(v, ScaledValue { value: 150, factor: 0 });
    assert!((scaled_as_f64(v) - 150.0).abs() < 1e-12);
}

#[test]
fn scale_value_integer_sentinel_means_missing() {
    assert_eq!(scale_value(2, SCALED_VALUE_MISSING), None);
    assert_eq!(scale_value(SCALE_FACTOR_MISSING, SCALED_VALUE_MISSING), None);
}

#[test]
fn sign_magnitude_words() {
    assert_eq!(to_signed_i32(0x8000_0001), -1);
    assert_eq!(to_signed_i32(0x0000_0001), 1);
    assert_eq!(to_signed_i32(0x8000_0000), 0);
    assert_eq!(to_signed_i32(270_000_000), 270_000_000);
    assert_eq!(to_signed_i8(0x81), -1);
    assert_eq!(to_signed_i8(0x7f), 127);
}

#[test]
fn big_endian_reads() {
    let data: [u8; 9] = [0x01, 0x02, 0x03, 0x04, 0x05, 0x06, 0x07, 0x08, 0x09];
    assert_eq!(read_u16_from_bytes(&data, 0), Some(0x0102));
    assert_eq!(read_u32_from_bytes(&data, 1), Some(0x02030405));
    assert_eq!(read_u64_from_bytes(&data, 1), Some(0x0203040506070809));
    assert_eq!(read_u32_from_bytes(&data, 6), None);
    assert_eq!(read_u64_from_bytes(&data, 2), None);
}

#[test]
fn bit_expansion() {
    let bits = bit_array_from_bytes(&[0xA5]);
    assert_eq!(bits, vec![1, 0, 1, 0, 0, 1, 0, 1]);
    assert_eq!(bit_array_from_bytes(&[]), Vec::<u8>::new());
}

#[test]
fn unpack_nibbles() {
    let data: [u8; 2] = [0xAB, 0xCD];
    let values = unpack_simple_values(&data, 4, 4).unwrap();
    assert_eq!(values, vec![0xA, 0xB, 0xC, 0xD]);
}

#[test]
fn unpack_wide_value() {
    let data: [u8; 2] = [0xAB, 0xCD];
    let values = unpack_simple_values(&data, 12, 1).unwrap();
    assert_eq!(values, vec![0xABC]);
}

#[test]
fn unpack_rejects_short_stream() {
    let data: [u8; 2] = [0xAB, 0xCD];
    assert!(unpack_simple_values(&data, 12, 2).is_err());
    assert!(unpack_simple_values(&data, 65, 1).is_err());
}

#[test]
fn bitmap_masking_fills_missing() {
    let values = vec![10u64, 20, 30];
    let bitmap = vec![1u8, 0, 1, 1, 0];
    let dense = expand_with_bitmap(&values, &bitmap).unwrap();
    assert_eq!(dense, vec![Some(10), None, Some(20), Some(30), None]);
}

#[test]
fn bitmap_with_too_few_values_fails() {
    let values = vec![10u64];
    let bitmap = vec![1u8, 1];
    assert!(expand_with_bitmap(&values, &bitmap).is_err());
}
