//! Canonical in-memory type and value representation for a WebAssembly
//! execution engine: value-type categories, typed numeric wrappers, a 128-bit
//! SIMD value, and composite descriptors for globals, function signatures and
//! linear memories, each with a conversion from the element form that the
//! `parity_wasm` module parser produces.

pub mod elements;
pub mod func;
pub mod global;
pub mod memory;
pub mod value_type;
pub mod values;

pub use value_type::Type;
pub use value_type::ValueType;
pub use value_type::ScalarValueType;
pub use values::I32;
pub use values::I64;
pub use values::V128;
pub use global::GlobalType;
pub use func::FunctionType;
pub use memory::LimitsError;
pub use memory::MemoryType;
