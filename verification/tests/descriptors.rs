use wasm_types::FunctionType;
use wasm_types::GlobalType;
use wasm_types::LimitsError;
use wasm_types::MemoryType;
use wasm_types::ValueType;

#[test]
fn memory_conversion_keeps_limits() {
    let elem = parity_wasm::elements::MemoryType::new(1, Some(10));
    let mem = MemoryType::from_elem(&elem).unwrap();
    assert_eq!(mem.min_pages(), 1);
    assert_eq!(mem.max_pages(), Some(10));
    assert!(!mem.is_shared());
}

#[test]
fn memory_conversion_keeps_shared_flag() {
    let mut elem = parity_wasm::elements::MemoryType::new(2, Some(4));
    elem.set_shared(true);
    let mem = MemoryType::from_elem(&elem).unwrap();
    assert_eq!(mem.min_pages(), 2);
    assert_eq!(mem.max_pages(), Some(4));
    assert!(mem.is_shared());
}

#[test]
fn memory_without_maximum_is_accepted() {
    let mem = MemoryType::from_limits(3, None, false).unwrap();
    assert_eq!(mem.min_pages(), 3);
    assert_eq!(mem.max_pages(), None);
}

#[test]
fn memory_rejects_maximum_below_minimum() {
    assert!(matches!(
        MemoryType::from_limits(5, Some(3), false),
        Err(LimitsError::MaxBelowMin)
    ));
    let elem = parity_wasm::elements::MemoryType::new(5, Some(3));
    assert!(matches!(
        MemoryType::from_elem(&elem),
        Err(LimitsError::MaxBelowMin)
    ));
}

#[test]
fn function_type_keeps_parts_in_order() {
    let ft = FunctionType::new(
        vec![ValueType::I32, ValueType::I64],
        Some(ValueType::F64),
    );
    assert_eq!(ft.params(), &[ValueType::I32, ValueType::I64]);
    assert_eq!(ft.res(), Some(ValueType::F64));
}

#[test]
fn function_type_default_is_empty() {
    let ft = FunctionType::default();
    assert!(ft.params().is_empty());
    assert_eq!(ft.res(), None);
}

#[test]
fn function_conversion_keeps_order_and_result() {
    let elem = parity_wasm::elements::FunctionType::new(
        vec![
            parity_wasm::elements::ValueType::I32,
            parity_wasm::elements::ValueType::F32,
            parity_wasm::elements::ValueType::I64,
        ],
        vec![parity_wasm::elements::ValueType::I64],
    );
    let ft = FunctionType::from_elem(&elem);
    assert_eq!(
        ft.params(),
        &[ValueType::I32, ValueType::F32, ValueType::I64]
    );
    assert_eq!(ft.res(), Some(ValueType::I64));
}

#[test]
fn function_conversion_without_result() {
    let elem = parity_wasm::elements::FunctionType::new(vec![], vec![]);
    let ft = FunctionType::from_elem(&elem);
    assert!(ft.params().is_empty());
    assert_eq!(ft.res(), None);
}

#[test]
fn global_conversion_mutable_i32() {
    let elem =
        parity_wasm::elements::GlobalType::new(parity_wasm::elements::ValueType::I32, true);
    let g = GlobalType::from_elem(&elem);
    assert!(g.is_mutable());
    assert_eq!(*g.value_type(), ValueType::I32);
}

#[test]
fn global_conversion_immutable_f64() {
    let elem =
        parity_wasm::elements::GlobalType::new(parity_wasm::elements::ValueType::F64, false);
    let g = GlobalType::from_elem(&elem);
    assert!(!g.is_mutable());
    assert_eq!(*g.value_type(), ValueType::F64);
}

#[test]
fn global_built_from_parts_reads_back() {
    let g = GlobalType::new(true, ValueType::V128);
    assert!(g.is_mutable());
    assert_eq!(*g.value_type(), ValueType::V128);
}
