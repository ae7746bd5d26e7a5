//! Trusted boundary to the `parity_wasm` module parser. The parser's element
//! types are opaque to the verifier; this module declares them, names what
//! each of their accessors reads, and admits the accessors with contracts
//! over those names. Each accessor is a pure field read or variant rename, a
//! function of its argument alone, so naming its result is sound. Nothing
//! here is verified: the verifier believes these declarations, and the
//! conversion layer proves its own guarantees from them.

use vstd::prelude::*;
use crate::value_type::ScalarValueType;
use parity_wasm::elements::ValueType as PwValueType;
use parity_wasm::elements::BlockType as PwBlockType;
use parity_wasm::elements::GlobalType as PwGlobalType;
use parity_wasm::elements::FunctionType as PwFunctionType;
use parity_wasm::elements::MemoryType as PwMemoryType;
use parity_wasm::elements::ResizableLimits as PwResizableLimits;

verus! {

#[verifier::external_type_specification]
#[verifier::external_body]
pub struct ExValueType(PwValueType);

#[verifier::external_type_specification]
#[verifier::external_body]
pub struct ExBlockType(PwBlockType);

#[verifier::external_type_specification]
#[verifier::external_body]
pub struct ExGlobalType(PwGlobalType);

#[verifier::external_type_specification]
#[verifier::external_body]
pub struct ExFunctionType(PwFunctionType);

#[verifier::external_type_specification]
#[verifier::external_body]
pub struct ExMemoryType(PwMemoryType);

#[verifier::external_type_specification]
#[verifier::external_body]
pub struct ExResizableLimits(PwResizableLimits);

/// The scalar category a parsed value-type element carries, in plain form.
pub uninterp spec fn scalar_view(t: PwValueType) -> ScalarValueType;

/// The value a parsed block-result element carries, in plain form: `None`
/// for a block that yields no value.
pub uninterp spec fn block_view(b: PwBlockType) -> Option<ScalarValueType>;

/// The declared mutability flag of a parsed global.
pub uninterp spec fn mutable_view(g: PwGlobalType) -> bool;

/// The declared content type of a parsed global.
pub uninterp spec fn content_view(g: PwGlobalType) -> PwValueType;

/// The ordered parameter types of a parsed function signature.
pub uninterp spec fn params_view(f: PwFunctionType) -> Seq<PwValueType>;

/// The declared result types of a parsed function signature.
pub uninterp spec fn results_view(f: PwFunctionType) -> Seq<PwValueType>;

/// The size limits of a parsed linear-memory declaration.
pub uninterp spec fn limits_view(m: PwMemoryType) -> PwResizableLimits;

/// The declared minimum size in pages of parsed limits.
pub uninterp spec fn initial_view(l: PwResizableLimits) -> u32;

/// The declared maximum size in pages of parsed limits, if one was declared.
pub uninterp spec fn maximum_view(l: PwResizableLimits) -> Option<u32>;

/// The declared shared-memory flag of parsed limits.
pub uninterp spec fn shared_view(l: PwResizableLimits) -> bool;

/// Relies on `PwValueType` having exactly the five
/// variants matched here; each arm only renames the variant into the crate's
/// plain scalar element form, so the result depends on the argument alone.
#[verifier::external_body]
pub(crate) fn scalar_of(t: &PwValueType) -> (r: ScalarValueType)
    ensures
        r == scalar_view(*t),
{
    match t {
        PwValueType::I32 => ScalarValueType::I32,
        PwValueType::I64 => ScalarValueType::I64,
        PwValueType::F32 => ScalarValueType::F32,
        PwValueType::F64 => ScalarValueType::F64,
        PwValueType::V128 => ScalarValueType::V128,
    }
}

/// Relies on `PwBlockType` having exactly the variants
/// matched here: `NoResult`, and `Value` carrying one scalar value type.
/// Each arm only renames variants into the crate's plain forms, so the
/// result depends on the argument alone.
#[verifier::external_body]
pub(crate) fn block_value_of(b: &PwBlockType) -> (r: Option<ScalarValueType>)
    ensures
        r == block_view(*b),
{
    match b {
        PwBlockType::NoResult => None,
        PwBlockType::Value(PwValueType::I32) => Some(ScalarValueType::I32),
        PwBlockType::Value(PwValueType::I64) => Some(ScalarValueType::I64),
        PwBlockType::Value(PwValueType::F32) => Some(ScalarValueType::F32),
        PwBlockType::Value(PwValueType::F64) => Some(ScalarValueType::F64),
        PwBlockType::Value(PwValueType::V128) => Some(ScalarValueType::V128),
    }
}

/// Relies on `PwGlobalType::is_mutable`: a plain read of the declared
/// mutability flag.
pub assume_specification[ PwGlobalType::is_mutable ](
    g: &PwGlobalType,
) -> (r: bool)
    ensures
        r == mutable_view(*g),
;

/// Relies on `PwGlobalType::content_type`: a plain read of the declared
/// value type.
pub assume_specification[ PwGlobalType::content_type ](
    g: &PwGlobalType,
) -> (r: PwValueType)
    ensures
        r == content_view(*g),
;

/// Relies on `PwFunctionType::params`: a plain read of the ordered
/// parameter types.
pub assume_specification[ PwFunctionType::params ](
    f: &PwFunctionType,
) -> (r: &[PwValueType])
    ensures
        r@ == params_view(*f),
;

/// Relies on `PwFunctionType::results`: a plain read of the declared result
/// types; without the parser's multi-value mode a deserialized signature
/// carries at most one.
pub assume_specification[ PwFunctionType::results ](
    f: &PwFunctionType,
) -> (r: &[PwValueType])
    ensures
        r@ == results_view(*f),
;

/// Relies on `PwMemoryType::limits`: a plain read of the size limits.
pub assume_specification[ PwMemoryType::limits ](
    m: &PwMemoryType,
) -> (r: &PwResizableLimits)
    ensures
        *r == limits_view(*m),
;

/// Relies on `PwResizableLimits::initial`: a plain read of the declared
/// minimum size in pages.
pub assume_specification[ PwResizableLimits::initial ](
    l: &PwResizableLimits,
) -> (r: u32)
    ensures
        r == initial_view(*l),
;

/// Relies on `PwResizableLimits::maximum`: a plain read of the declared
/// maximum size in pages.
pub assume_specification[ PwResizableLimits::maximum ](
    l: &PwResizableLimits,
) -> (r: Option<u32>)
    ensures
        r == maximum_view(*l),
;

/// Relies on `PwResizableLimits::shared`: a plain read of the declared
/// shared-memory flag.
pub assume_specification[ PwResizableLimits::shared ](
    l: &PwResizableLimits,
) -> (r: bool)
    ensures
        r == shared_view(*l),
;

} // verus!
