//! Value-type categories: the closed set of WASM value kinds together with
//! two administrative markers, and the conversions that produce them from the
//! scalar and block-result element forms of a parsed module.

use vstd::prelude::*;
use crate::elements;
use parity_wasm::elements::ValueType as PwValueType;
use parity_wasm::elements::BlockType as PwBlockType;

verus! {

/// Marker for every canonical WASM value or declaration form of this crate.
pub trait Type {}

/// The category of a single WASM value, plus two administrative markers:
/// `Absent` (a block that yields no value) and `Any` (a wildcard).
/// Only the other seven, "concrete", categories describe a runtime value.
#[derive(Copy, Clone, Debug, PartialEq, Eq, Structural)]
pub enum ValueType {
    /// No value at all; produced only by block-result conversion.
    Absent,
    /// Wildcard category.
    Any,
    /// 32-bit integer.
    I32,
    /// 64-bit integer.
    I64,
    /// 32-bit float.
    F32,
    /// 64-bit float.
    F64,
    /// 128-bit SIMD vector.
    V128,
    /// Generic reference.
    AnyRef,
    /// Function reference.
    AnyFunc,
    /// Null reference.
    NullRef,
}

impl Type for ValueType {}

impl ValueType {
    /// How many categories there are, the administrative markers included.
    pub const LENGTH: usize = 10;

    /// Whether the category describes a concrete runtime value; false only
    /// for the two administrative markers.
    pub open spec fn is_concrete(self) -> bool {
        !(self is Absent || self is Any)
    }

    /// The byte width of a value of this category; meaningful only for
    /// concrete categories.
    pub open spec fn spec_byte_width(self) -> u32 {
        match self {
            ValueType::I32 | ValueType::F32 => 4,
            ValueType::I64 | ValueType::F64 => 8,
            ValueType::V128 => 16,
            ValueType::AnyRef | ValueType::AnyFunc | ValueType::NullRef => 8,
            ValueType::Absent | ValueType::Any => 0,
        }
    }

    /// Byte width of a value of this concrete category: 4 for the 32-bit
    /// numeric categories, 8 for the 64-bit numeric and all reference
    /// categories, 16 for the vector category. The two administrative
    /// markers are excluded by precondition.
    pub fn get_bytes(&self) -> (r: u32)
        requires
            self.is_concrete(),
        ensures
            r == self.spec_byte_width(),
    {
        match self {
            ValueType::I32 | ValueType::F32 => 4,
            ValueType::I64 | ValueType::F64 => 8,
            ValueType::V128 => 16,
            ValueType::AnyRef | ValueType::AnyFunc | ValueType::NullRef => 8,
            ValueType::Absent | ValueType::Any => vstd::pervasive::unreached(),
        }
    }

    /// Byte width as a total operation: `None` exactly on the two
    /// administrative markers, which have no width.
    pub fn try_get_bytes(&self) -> (r: Option<u32>)
        ensures
            self.is_concrete() ==> r == Some(self.spec_byte_width()),
            !self.is_concrete() ==> r is None,
    {
        match self {
            ValueType::Absent | ValueType::Any => None,
            _ => Some(self.get_bytes()),
        }
    }
}

/// A scalar value-type element as the module parser reports it: exactly the
/// five categories that can appear in a parsed type position. This is the
/// plain form of `parity_wasm::elements::ValueType`, which is opaque to the
/// verifier.
#[derive(Copy, Clone, Debug, PartialEq, Eq, Structural)]
pub enum ScalarValueType {
    /// 32-bit integer.
    I32,
    /// 64-bit integer.
    I64,
    /// 32-bit float.
    F32,
    /// 64-bit float.
    F64,
    /// 128-bit SIMD vector.
    V128,
}

impl ValueType {
    /// The canonical category of a parsed scalar value-type element.
    pub open spec fn spec_from_scalar(s: ScalarValueType) -> ValueType {
        match s {
            ScalarValueType::I32 => ValueType::I32,
            ScalarValueType::I64 => ValueType::I64,
            ScalarValueType::F32 => ValueType::F32,
            ScalarValueType::F64 => ValueType::F64,
            ScalarValueType::V128 => ValueType::V128,
        }
    }

    /// The scalar element form a category came from, if any: defined exactly
    /// on the five categories in the image of scalar conversion.
    pub open spec fn spec_to_scalar(self) -> Option<ScalarValueType> {
        match self {
            ValueType::I32 => Some(ScalarValueType::I32),
            ValueType::I64 => Some(ScalarValueType::I64),
            ValueType::F32 => Some(ScalarValueType::F32),
            ValueType::F64 => Some(ScalarValueType::F64),
            ValueType::V128 => Some(ScalarValueType::V128),
            _ => None,
        }
    }

    /// The canonical category of a parsed block-result element: absence when
    /// the block yields no value, otherwise the scalar conversion of the
    /// carried value type. This is the only conversion that produces the
    /// absence marker.
    pub open spec fn spec_from_block(b: Option<ScalarValueType>) -> ValueType {
        match b {
            Some(s) => Self::spec_from_scalar(s),
            None => ValueType::Absent,
        }
    }

    /// Converts a parsed scalar value-type element, 1:1, to its canonical
    /// category; the result is always concrete.
    pub fn from_scalar(s: ScalarValueType) -> (r: ValueType)
        ensures
            r == Self::spec_from_scalar(s),
            r.is_concrete(),
    {
        match s {
            ScalarValueType::I32 => ValueType::I32,
            ScalarValueType::I64 => ValueType::I64,
            ScalarValueType::F32 => ValueType::F32,
            ScalarValueType::F64 => ValueType::F64,
            ScalarValueType::V128 => ValueType::V128,
        }
    }

    /// Converts a parsed block-result element: no carried value becomes the
    /// absence marker, a carried value converts as a scalar element.
    pub fn from_block(b: Option<ScalarValueType>) -> (r: ValueType)
        ensures
            r == Self::spec_from_block(b),
            r is Absent <==> b is None,
    {
        match b {
            Some(s) => Self::from_scalar(s),
            None => ValueType::Absent,
        }
    }

    /// Converts a scalar value-type element straight from the parser's own
    /// form: exactly the scalar conversion of the category the element
    /// carries, so always a concrete category in the image of scalar
    /// conversion.
    pub fn from_elem(t: &PwValueType) -> (r: ValueType)
        ensures
            r == Self::spec_from_scalar(elements::scalar_view(*t)),
            r.is_concrete(),
            r.spec_to_scalar() == Some(elements::scalar_view(*t)),
    {
        let s = elements::scalar_of(t);
        let r = Self::from_scalar(s);
        proof {
            lemma_scalar_round_trip(s);
        }
        r
    }

    /// Converts a block-result element straight from the parser's own form:
    /// exactly the block conversion of the value the element carries, so the
    /// absence marker when the block yields no value and a concrete category
    /// in the image of scalar conversion otherwise.
    pub fn from_block_elem(b: &PwBlockType) -> (r: ValueType)
        ensures
            r == Self::spec_from_block(elements::block_view(*b)),
            r is Absent <==> elements::block_view(*b) is None,
            r is Absent || (r.is_concrete() && r.spec_to_scalar() is Some),
    {
        let v = elements::block_value_of(b);
        proof {
            if let Some(s) = v {
                lemma_scalar_round_trip(s);
            }
        }
        Self::from_block(v)
    }
}

/// Every concrete category has the byte width the WASM value layout fixes:
/// 4 for the 32-bit numeric categories, 8 for the 64-bit numeric and all
/// reference categories, 16 for the vector category; the two administrative
/// markers have no width at all.
pub proof fn lemma_byte_width(t: ValueType)
    ensures
        (t is I32 || t is F32) ==> t.spec_byte_width() == 4,
        (t is I64 || t is F64 || t is AnyRef || t is AnyFunc || t is NullRef)
            ==> t.spec_byte_width() == 8,
        t is V128 ==> t.spec_byte_width() == 16,
        !t.is_concrete() ==> t.spec_byte_width() == 0,
{
}

/// Scalar conversion is lossless: every scalar element category maps to a
/// concrete canonical category from which the element form can be read back
/// unchanged, and no two element categories collapse into one.
pub proof fn lemma_scalar_round_trip(s: ScalarValueType)
    ensures
        ValueType::spec_from_scalar(s).is_concrete(),
        ValueType::spec_from_scalar(s).spec_to_scalar() == Some(s),
{
}

impl Default for ValueType {
    /// The default category is the absence marker.
    fn default() -> (r: Self)
        ensures
            r == ValueType::Absent,
    {
        ValueType::Absent
    }
}

} // verus!
