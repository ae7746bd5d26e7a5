//! Typed runtime values: the integer wrappers that mark a native value as a
//! WASM-typed value, and the 128-bit SIMD value held as a plain byte buffer
//! and read back under explicit lane widths.

use vstd::prelude::*;
use crate::value_type::Type;

verus! {

/// A 32-bit integer WASM value: an identity wrapper over the native value.
#[derive(Copy, Clone, Debug, PartialEq, Eq, Structural)]
pub struct I32(pub i32);

impl Type for I32 {}

impl From<i32> for I32 {
    /// Wraps the native value unchanged.
    fn from(v: i32) -> (r: I32) {
        I32(v)
    }
}

impl vstd::std_specs::convert::FromSpecImpl<i32> for I32 {
    open spec fn obeys_from_spec() -> bool {
        true
    }

    open spec fn from_spec(v: i32) -> Self {
        I32(v)
    }
}

/// A 64-bit integer WASM value: an identity wrapper over the native value.
#[derive(Copy, Clone, Debug, PartialEq, Eq, Structural)]
pub struct I64(pub i64);

impl Type for I64 {}

impl From<i64> for I64 {
    /// Wraps the native value unchanged.
    fn from(v: i64) -> (r: I64) {
        I64(v)
    }
}

impl vstd::std_specs::convert::FromSpecImpl<i64> for I64 {
    open spec fn obeys_from_spec() -> bool {
        true
    }

    open spec fn from_spec(v: i64) -> Self {
        I64(v)
    }
}

/// A 128-bit SIMD value: sixteen bytes with no lane-kind tag of their own.
/// The lane width under which the bytes are read is a read-time choice of the
/// caller; every bit pattern is valid under every lane view, so reading never
/// fails. Lanes are read little-endian, as the WASM value encoding fixes.
#[derive(Copy, Clone, Debug, PartialEq, Eq)]
pub struct V128 {
    /// The sixteen bytes of the value, lowest-addressed first. Every bit
    /// pattern is a valid value, so the buffer is plainly exposed.
    pub bytes: [u8; 16],
}

impl Type for V128 {}

impl From<Box<[u8; 16]>> for V128 {
    /// A verbatim bit copy of a boxed 16-byte buffer.
    fn from(v: Box<[u8; 16]>) -> (r: V128) {
        V128 { bytes: *v }
    }
}

impl vstd::std_specs::convert::FromSpecImpl<Box<[u8; 16]>> for V128 {
    open spec fn obeys_from_spec() -> bool {
        true
    }

    open spec fn from_spec(v: Box<[u8; 16]>) -> Self {
        V128 { bytes: *v }
    }
}

impl V128 {
    /// The bytes of the value, lowest-addressed first.
    pub open spec fn spec_bytes(self) -> Seq<u8> {
        self.bytes@
    }

    /// The 64-bit lane starting at byte `8 * k`, read little-endian.
    pub open spec fn spec_lane64(self, k: int) -> u64 {
        (self.spec_bytes()[8 * k] as u64) | ((self.spec_bytes()[8 * k + 1] as u64) << 8) | ((
        self.spec_bytes()[8 * k + 2] as u64) << 16) | ((self.spec_bytes()[8 * k + 3] as u64) << 24)
            | ((self.spec_bytes()[8 * k + 4] as u64) << 32) | ((self.spec_bytes()[8 * k + 5] as u64)
            << 40) | ((self.spec_bytes()[8 * k + 6] as u64) << 48) | ((self.spec_bytes()[8 * k + 7]
            as u64) << 56)
    }

    /// The all-zero-bits value.
    pub fn zero() -> (r: V128)
        ensures
            r.spec_bytes() == Seq::<u8>::new(16, |i: int| 0u8),
    {
        let r = V128 { bytes: [0u8; 16] };
        proof {
            assert(r.bytes@ =~= Seq::<u8>::new(16, |i: int| 0u8));
        }
        r
    }

    /// A verbatim bit copy of a 16-byte buffer.
    pub fn from_bytes(bytes: [u8; 16]) -> (r: V128)
        ensures
            r.spec_bytes() == bytes@,
    {
        V128 { bytes }
    }

    /// Reads the value as two 64-bit lanes, little-endian, the lane of the
    /// lower-addressed eight bytes first.
    pub fn into_u64x2(&self) -> (r: [u64; 2])
        ensures
            r@.len() == 2,
            r@[0] == self.spec_lane64(0),
            r@[1] == self.spec_lane64(1),
    {
        let lo = self.lane64(0);
        let hi = self.lane64(8);
        [lo, hi]
    }

    /// Reads the little-endian 64-bit lane whose lowest byte sits at `base`.
    fn lane64(&self, base: usize) -> (r: u64)
        requires
            base == 0 || base == 8,
        ensures
            r == self.spec_lane64(base as int / 8),
    {
        (self.bytes[base] as u64) | ((self.bytes[base + 1] as u64) << 8) | ((self.bytes[base
            + 2] as u64) << 16) | ((self.bytes[base + 3] as u64) << 24) | ((self.bytes[base
            + 4] as u64) << 32) | ((self.bytes[base + 5] as u64) << 40) | ((self.bytes[base
            + 6] as u64) << 48) | ((self.bytes[base + 7] as u64) << 56)
    }
}

} // verus!
