//! The declaration descriptor of a WASM linear memory: its page limits and
//! shared-memory flag, with the limits validated on conversion.

use vstd::prelude::*;
use crate::elements;
use crate::value_type::Type;
use parity_wasm::elements::MemoryType as PwMemoryType;

verus! {

/// Why a memory declaration was rejected.
#[derive(Clone, Copy, Debug, PartialEq, Eq, Structural)]
pub enum LimitsError {
    /// The declared maximum page count is below the declared minimum.
    MaxBelowMin,
}

/// The canonical form of a linear-memory declaration: minimum and optional
/// maximum size in pages, and whether the memory may be shared across
/// execution contexts. A well-formed descriptor never carries a maximum
/// below its minimum.
#[derive(Clone, Copy, Debug)]
pub struct MemoryType {
    min: u32,
    max: Option<u32>,
    shared: bool,
}

impl Type for MemoryType {}

impl MemoryType {
    /// The declared minimum size in pages.
    pub closed spec fn spec_min_pages(self) -> u32 {
        self.min
    }

    /// The declared maximum size in pages, if one was declared.
    pub closed spec fn spec_max_pages(self) -> Option<u32> {
        self.max
    }

    /// The declared shared-memory flag.
    pub closed spec fn spec_shared(self) -> bool {
        self.shared
    }

    /// A memory declaration is well-formed when any declared maximum is at
    /// least the minimum.
    pub open spec fn wf(self) -> bool {
        self.spec_max_pages() matches Some(mx) ==> self.spec_min_pages() <= mx
    }

    /// Whether a pair of page limits is consistent.
    pub open spec fn limits_valid(min: u32, max: Option<u32>) -> bool {
        max matches Some(mx) ==> min <= mx
    }

    /// The descriptor built from its parts.
    pub closed spec fn spec_new(min: u32, max: Option<u32>, shared: bool) -> MemoryType {
        MemoryType { min, max, shared }
    }

    /// Builds a memory declaration from its limits, rejecting a maximum
    /// below the minimum; consistent limits are stored unchanged.
    pub fn from_limits(min: u32, max: Option<u32>, shared: bool) -> (r: Result<
        MemoryType,
        LimitsError,
    >)
        ensures
            r is Ok <==> Self::limits_valid(min, max),
            r matches Ok(t) ==> t == Self::spec_new(min, max, shared),
            r matches Ok(t) ==> t.spec_min_pages() == min && t.spec_max_pages() == max
                && t.spec_shared() == shared && t.wf(),
            !Self::limits_valid(min, max) ==> r == Err::<MemoryType, LimitsError>(
                LimitsError::MaxBelowMin,
            ),
    {
        match max {
            Some(mx) if mx < min => Err(LimitsError::MaxBelowMin),
            _ => Ok(MemoryType { min, max, shared }),
        }
    }

    /// The declared minimum size in pages.
    pub fn min_pages(&self) -> (r: u32)
        ensures
            r == self.spec_min_pages(),
    {
        self.min
    }

    /// The declared maximum size in pages, if one was declared.
    pub fn max_pages(&self) -> (r: Option<u32>)
        ensures
            r == self.spec_max_pages(),
    {
        self.max
    }

    /// The declared shared-memory flag.
    pub fn is_shared(&self) -> (r: bool)
        ensures
            r == self.spec_shared(),
    {
        self.shared
    }

    /// Converts a parsed linear-memory declaration, validating its limits:
    /// the declaration is accepted exactly when any declared maximum is at
    /// least the minimum, and an accepted descriptor carries the declared
    /// limits and shared flag unchanged, so it is well-formed.
    pub fn from_elem(m: &PwMemoryType) -> (r: Result<MemoryType, LimitsError>)
        ensures
            r is Ok <==> Self::limits_valid(
                elements::initial_view(elements::limits_view(*m)),
                elements::maximum_view(elements::limits_view(*m)),
            ),
            r matches Ok(t) ==> t == Self::spec_new(
                elements::initial_view(elements::limits_view(*m)),
                elements::maximum_view(elements::limits_view(*m)),
                elements::shared_view(elements::limits_view(*m)),
            ),
            r matches Ok(t) ==> t.wf(),
            r is Err ==> r == Err::<MemoryType, LimitsError>(LimitsError::MaxBelowMin),
    {
        let l = m.limits();
        Self::from_limits(l.initial(), l.maximum(), l.shared())
    }
}

/// Building a memory declaration from consistent limits alters nothing: the
/// minimum, the maximum and the shared flag all read back unchanged.
pub proof fn lemma_memory_round_trip(min: u32, max: Option<u32>, shared: bool)
    requires
        MemoryType::limits_valid(min, max),
    ensures
        MemoryType::spec_new(min, max, shared).spec_min_pages() == min,
        MemoryType::spec_new(min, max, shared).spec_max_pages() == max,
        MemoryType::spec_new(min, max, shared).spec_shared() == shared,
        MemoryType::spec_new(min, max, shared).wf(),
{
}

} // verus!
