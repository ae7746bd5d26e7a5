use wasm_types::I32;
use wasm_types::I64;
use wasm_types::V128;

#[test]
fn v128_zero_reads_as_zero_lanes() {
    let lanes = V128::zero().into_u64x2();
    assert_eq!(lanes, [0u64, 0u64]);
}

#[test]
fn v128_all_ones_reads_as_max_lanes() {
    let v = V128::from_bytes([0xFF; 16]);
    assert_eq!(v.into_u64x2(), [u64::MAX, u64::MAX]);
}

#[test]
fn v128_lanes_are_little_endian_in_order() {
    let mut bytes = [0u8; 16];
    bytes[0] = 0x01;
    bytes[1] = 0x02;
    bytes[8] = 0xAA;
    bytes[15] = 0x0B;
    let lanes = V128::from_bytes(bytes).into_u64x2();
    assert_eq!(lanes[0], 0x0201);
    assert_eq!(lanes[1], 0x0B00_0000_0000_00AA);
}

#[test]
fn v128_from_boxed_buffer_is_verbatim() {
    let mut bytes = [0u8; 16];
    bytes[7] = 0x80;
    let v = V128::from(Box::new(bytes));
    assert_eq!(v.into_u64x2(), [0x8000_0000_0000_0000u64, 0]);
}

#[test]
fn integer_wrappers_keep_their_value() {
    assert_eq!(I32::from(-5).0, -5);
    assert_eq!(I32::from(i32::MAX).0, i32::MAX);
    assert_eq!(I64::from(-7_000_000_000i64).0, -7_000_000_000i64);
}
