//! The declaration descriptor of a WASM global: its declared mutability and
//! the category of the value it stores.

use vstd::prelude::*;
use crate::elements;
use crate::value_type::Type;
use crate::value_type::ValueType;
use parity_wasm::elements::GlobalType as PwGlobalType;

verus! {

/// The canonical form of a global declaration. The mutability flag says
/// whether interpreted code may write the slot; it carries no synchronization
/// meaning. A well-formed descriptor always holds a concrete value category.
#[derive(Clone, Debug)]
pub struct GlobalType {
    mutable: bool,
    ty: ValueType,
}

impl Type for GlobalType {}

impl GlobalType {
    /// The declared mutability flag.
    pub closed spec fn spec_mutable(self) -> bool {
        self.mutable
    }

    /// The declared value category.
    pub closed spec fn spec_value_type(self) -> ValueType {
        self.ty
    }

    /// A global declaration is well-formed when its value category is
    /// concrete: the administrative markers never describe a stored value.
    pub open spec fn wf(self) -> bool {
        self.spec_value_type().is_concrete()
    }

    /// The descriptor built from a mutability flag and a value category.
    pub closed spec fn spec_new(mutable: bool, ty: ValueType) -> GlobalType {
        GlobalType { mutable, ty }
    }

    /// Builds a global declaration from its parts; the category must be
    /// concrete, so the result is well-formed.
    pub fn new(mutable: bool, ty: ValueType) -> (r: GlobalType)
        requires
            ty.is_concrete(),
        ensures
            r == Self::spec_new(mutable, ty),
            r.spec_mutable() == mutable,
            r.spec_value_type() == ty,
            r.wf(),
    {
        GlobalType { mutable, ty }
    }

    /// The declared value category.
    pub fn value_type(&self) -> (r: &ValueType)
        ensures
            *r == self.spec_value_type(),
    {
        &self.ty
    }

    /// The declared mutability flag.
    pub fn is_mutable(&self) -> (r: bool)
        ensures
            r == self.spec_mutable(),
    {
        self.mutable
    }

    /// Converts a parsed global declaration: the declared mutability flag is
    /// carried over unchanged and the declared content type converts as a
    /// scalar element, so the result is well-formed and its category lies in
    /// the image of scalar conversion.
    pub fn from_elem(g: &PwGlobalType) -> (r: GlobalType)
        ensures
            r.spec_mutable() == elements::mutable_view(*g),
            r.spec_value_type() == ValueType::spec_from_scalar(
                elements::scalar_view(elements::content_view(*g)),
            ),
            r.wf(),
            r.spec_value_type().spec_to_scalar() is Some,
    {
        let ct = g.content_type();
        let ty = ValueType::from_elem(&ct);
        GlobalType::new(g.is_mutable(), ty)
    }
}

/// Building a global declaration from a mutability flag and a concrete value
/// category alters neither: both read back unchanged.
pub proof fn lemma_global_round_trip(mutable: bool, ty: ValueType)
    requires
        ty.is_concrete(),
    ensures
        GlobalType::spec_new(mutable, ty).spec_mutable() == mutable,
        GlobalType::spec_new(mutable, ty).spec_value_type() == ty,
        GlobalType::spec_new(mutable, ty).wf(),
{
}

} // verus!
