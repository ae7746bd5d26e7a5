//! The declaration descriptor of a WASM function signature: an ordered
//! parameter-type sequence and an optional single result type.

use vstd::prelude::*;
use crate::elements;
use crate::value_type::Type;
use crate::value_type::ValueType;
use vstd::slice::slice_index_get;
use parity_wasm::elements::FunctionType as PwFunctionType;

verus! {

/// The canonical form of a function signature. Parameter order is
/// call-convention-significant and is kept exactly as supplied. Absence of a
/// result (`None`) is distinct from a result of the absence category, which
/// never stands here in a well-formed signature.
#[derive(Clone, Debug)]
pub struct FunctionType {
    res: Option<ValueType>,
    params: Vec<ValueType>,
}

impl Type for FunctionType {}

impl FunctionType {
    /// The ordered parameter categories.
    pub closed spec fn spec_params(self) -> Seq<ValueType> {
        self.params@
    }

    /// The result category, if the signature returns a value.
    pub closed spec fn spec_res(self) -> Option<ValueType> {
        self.res
    }

    /// A signature is well-formed when every parameter and any result is a
    /// concrete category.
    pub open spec fn wf(self) -> bool {
        &&& forall|i: int|
            0 <= i < self.spec_params().len() ==> (#[trigger] self.spec_params()[i]).is_concrete()
        &&& self.spec_res() matches Some(t) ==> t.is_concrete()
    }

    /// Builds a signature directly from explicit parts, for signatures
    /// synthesized internally rather than derived from a parsed module; both
    /// parts are stored unchanged, the parameters in their given order.
    pub fn new(params: Vec<ValueType>, res: Option<ValueType>) -> (r: FunctionType)
        ensures
            r.spec_params() == params@,
            r.spec_res() == res,
    {
        FunctionType { res, params }
    }

    /// The result category, if the signature returns a value.
    pub fn res(&self) -> (r: Option<ValueType>)
        ensures
            r == self.spec_res(),
    {
        self.res
    }

    /// The parameter categories, in their declared order.
    pub fn params(&self) -> (r: &[ValueType])
        ensures
            r@ == self.spec_params(),
    {
        self.params.as_slice()
    }

    /// Converts a parsed function signature: each declared parameter
    /// converts as a scalar element, in its declared position, and the first
    /// declared result, if any, becomes the single result. The outcome is
    /// always well-formed, with every category in the image of scalar
    /// conversion.
    pub fn from_elem(f: &PwFunctionType) -> (r: FunctionType)
        ensures
            r.spec_params().len() == elements::params_view(*f).len(),
            forall|i: int|
                0 <= i < r.spec_params().len() ==> (#[trigger] r.spec_params()[i])
                    == ValueType::spec_from_scalar(
                    elements::scalar_view(elements::params_view(*f)[i]),
                ),
            r.spec_res() is Some <==> elements::results_view(*f).len() > 0,
            elements::results_view(*f).len() > 0 ==> r.spec_res() == Some(
                ValueType::spec_from_scalar(elements::scalar_view(elements::results_view(*f)[0])),
            ),
            r.wf(),
    {
        let ps = f.params();
        let n = ps.len();
        let mut params: Vec<ValueType> = Vec::new();
        let mut i: usize = 0;
        while i < n
            invariant
                i <= n,
                params@.len() == i,
                forall|j: int|
                    0 <= j < params@.len() ==> (#[trigger] params@[j])
                        == ValueType::spec_from_scalar(elements::scalar_view(ps@[j])),
                forall|j: int| 0 <= j < params@.len() ==> (#[trigger] params@[j]).is_concrete(),
                n == ps@.len(),
                ps@ == elements::params_view(*f),
            decreases n - i,
        {
            let t = ValueType::from_elem(slice_index_get(ps, i));
            params.push(t);
            i = i + 1;
        }
        let rs = f.results();
        let res = if rs.len() > 0 {
            Some(ValueType::from_elem(slice_index_get(rs, 0)))
        } else {
            None
        };
        FunctionType::new(params, res)
    }
}

impl Default for FunctionType {
    /// The default signature takes no parameters and returns no value.
    fn default() -> (r: Self)
        ensures
            r.spec_params() == Seq::<ValueType>::empty(),
            r.spec_res() is None,
    {
        FunctionType { res: None, params: Vec::new() }
    }
}

/// Building a signature from explicit parts alters nothing: the parameter
/// sequence, its order and the optional result all read back unchanged, and
/// the signature is well-formed whenever every part is concrete.
pub proof fn lemma_function_round_trip(ft: FunctionType, params: Seq<ValueType>, res: Option<
    ValueType,
>)
    requires
        ft.spec_params() == params,
        ft.spec_res() == res,
        forall|i: int| 0 <= i < params.len() ==> (#[trigger] params[i]).is_concrete(),
        res matches Some(t) ==> t.is_concrete(),
    ensures
        ft.spec_params().len() == params.len(),
        forall|i: int| 0 <= i < params.len() ==> ft.spec_params()[i] == params[i],
        ft.spec_res() == res,
        ft.wf(),
{
}

} // verus!
