use wasm_types::ScalarValueType;
use wasm_types::ValueType;

#[test]
fn byte_width_of_each_concrete_category() {
    assert_eq!(ValueType::I32.get_bytes(), 4);
    assert_eq!(ValueType::F32.get_bytes(), 4);
    assert_eq!(ValueType::I64.get_bytes(), 8);
    assert_eq!(ValueType::F64.get_bytes(), 8);
    assert_eq!(ValueType::AnyRef.get_bytes(), 8);
    assert_eq!(ValueType::AnyFunc.get_bytes(), 8);
    assert_eq!(ValueType::NullRef.get_bytes(), 8);
    assert_eq!(ValueType::V128.get_bytes(), 16);
}

#[test]
fn byte_width_rejected_on_markers() {
    assert_eq!(ValueType::Absent.try_get_bytes(), None);
    assert_eq!(ValueType::Any.try_get_bytes(), None);
    assert_eq!(ValueType::I32.try_get_bytes(), Some(4));
    assert_eq!(ValueType::V128.try_get_bytes(), Some(16));
}

#[test]
fn default_category_is_absent() {
    assert_eq!(ValueType::default(), ValueType::Absent);
}

#[test]
fn scalar_conversion_is_one_to_one() {
    assert_eq!(ValueType::from_scalar(ScalarValueType::I32), ValueType::I32);
    assert_eq!(ValueType::from_scalar(ScalarValueType::I64), ValueType::I64);
    assert_eq!(ValueType::from_scalar(ScalarValueType::F32), ValueType::F32);
    assert_eq!(ValueType::from_scalar(ScalarValueType::F64), ValueType::F64);
    assert_eq!(ValueType::from_scalar(ScalarValueType::V128), ValueType::V128);
}

#[test]
fn scalar_conversion_from_parsed_elements() {
    assert_eq!(
        ValueType::from_elem(&parity_wasm::elements::ValueType::I32),
        ValueType::I32
    );
    assert_eq!(
        ValueType::from_elem(&parity_wasm::elements::ValueType::I64),
        ValueType::I64
    );
    assert_eq!(
        ValueType::from_elem(&parity_wasm::elements::ValueType::F32),
        ValueType::F32
    );
    assert_eq!(
        ValueType::from_elem(&parity_wasm::elements::ValueType::F64),
        ValueType::F64
    );
    assert_eq!(
        ValueType::from_elem(&parity_wasm::elements::ValueType::V128),
        ValueType::V128
    );
}

#[test]
fn block_result_conversions() {
    assert_eq!(ValueType::from_block(None), ValueType::Absent);
    assert_eq!(
        ValueType::from_block(Some(ScalarValueType::I32)),
        ValueType::I32
    );
}

#[test]
fn block_result_conversions_from_parsed_elements() {
    assert_eq!(
        ValueType::from_block_elem(&parity_wasm::elements::BlockType::NoResult),
        ValueType::Absent
    );
    assert_eq!(
        ValueType::from_block_elem(&parity_wasm::elements::BlockType::Value(
            parity_wasm::elements::ValueType::I32
        )),
        ValueType::I32
    );
    assert_eq!(
        ValueType::from_block_elem(&parity_wasm::elements::BlockType::Value(
            parity_wasm::elements::ValueType::V128
        )),
        ValueType::V128
    );
}
