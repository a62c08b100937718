use vstd::prelude::*;

use crate::element::Element;
use crate::tensor::Tensor;

verus! {

/// Carries tensors between two element precisions of one backend: each
/// element is converted by the target precision's own conversion, and the
/// dimensions are kept.
pub struct PrecisionBridge {}

impl PrecisionBridge {
    /// Converts a tensor into the target precision, element by element.
    /// The conversion function must behave as the mathematical function
    /// `g`.
    pub fn into_target<A: Element, B: Element, F: Fn(A) -> B>(
        tensor: &Tensor<A>,
        convert: F,
        Ghost(g): Ghost<spec_fn(A) -> B>,
    ) -> (r: Tensor<B>)
        requires
            tensor.wf(),
            forall|x: A| #[trigger] convert.requires((x,)),
            forall|x: A, z: B| #[trigger] convert.ensures((x,), z) ==> z == g(x),
        ensures
            r.wf(),
            r.dims() == tensor.dims(),
            r.elems().len() == tensor.elems().len(),
            forall|k: int|
                0 <= k < tensor.elems().len() ==> #[trigger] r.elems()[k] == g(
                    tensor.elems()[k],
                ),
    {
        let n = tensor.len();
        let mut data: Vec<B> = Vec::new();
        let mut k: usize = 0;
        while k < n
            invariant
                k <= n,
                n == tensor.elems().len(),
                forall|x: A| #[trigger] convert.requires((x,)),
                forall|x: A, z: B| #[trigger] convert.ensures((x,), z) ==> z == g(x),
                data@.len() == k,
                forall|j: int| 0 <= j < k ==> #[trigger] data@[j] == g(tensor.elems()[j]),
            decreases n - k,
        {
            data.push(convert(tensor.elem_at(k)));
            k = k + 1;
        }
        let r = match Tensor::from_parts(tensor.shape_of(), data) {
            Some(t) => t,
            None => {
                proof {
                    assert(false);
                }
                unreached()
            },
        };
        r
    }

    /// Converts a tensor back from the target precision, element by
    /// element.
    pub fn from_target<A: Element, B: Element, F: Fn(B) -> A>(
        tensor: &Tensor<B>,
        convert: F,
        Ghost(g): Ghost<spec_fn(B) -> A>,
    ) -> (r: Tensor<A>)
        requires
            tensor.wf(),
            forall|x: B| #[trigger] convert.requires((x,)),
            forall|x: B, z: A| #[trigger] convert.ensures((x,), z) ==> z == g(x),
        ensures
            r.wf(),
            r.dims() == tensor.dims(),
            r.elems().len() == tensor.elems().len(),
            forall|k: int|
                0 <= k < tensor.elems().len() ==> #[trigger] r.elems()[k] == g(
                    tensor.elems()[k],
                ),
    {
        PrecisionBridge::into_target(tensor, convert, Ghost(g))
    }
}

} // verus!
