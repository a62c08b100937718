use vstd::prelude::*;

use crate::element::{Element, FloatElement};
use crate::shape::{coords_of, idx_view, lemma_prod_sign, prod, unflatten};
use crate::tensor::{
    bc_compat, bc_shape, div_rep, exp_rep, max_dim_rep, sub_rep, sum_dim_rep, Tensor, TensorRep,
};

verus! {

/// The rectified linear unit: negative elements become zero.
pub open spec fn relu_rep<E: Element>(a: TensorRep<E>) -> TensorRep<E> {
    TensorRep {
        shape: a.shape,
        data: Seq::new(
            a.data.len(),
            |k: int|
                if a.data[k].lt_v(E::zero_v()) {
                    E::zero_v()
                } else {
                    a.data[k]
                },
        ),
    }
}

/// Applies the rectified linear unit element-wise.
pub fn relu<E: Element>(tensor: &Tensor<E>) -> (r: Tensor<E>)
    requires
        tensor.wf(),
    ensures
        r.wf(),
        r.rep() == relu_rep(tensor.rep()),
{
    let n = tensor.len();
    let mut data: Vec<E> = Vec::new();
    let mut k: usize = 0;
    let zero = E::zero();
    while k < n
        invariant
            k <= n,
            n == tensor.elems().len(),
            zero == E::zero_v(),
            data@.len() == k,
            forall|j: int| 0 <= j < k ==> #[trigger] data@[j] == relu_rep(tensor.rep()).data[j],
        decreases n - k,
    {
        let v = tensor.elem_at(k);
        if v.lt(zero) {
            data.push(zero);
        } else {
            data.push(v);
        }
        k = k + 1;
    }
    let r = match Tensor::from_parts(tensor.shape_of(), data) {
        Some(t) => t,
        None => {
            proof {
                assert(false);
            }
            unreached()
        },
    };
    proof {
        assert(r.rep().data =~= relu_rep(tensor.rep()).data);
        assert(r.rep() =~= relu_rep(tensor.rep()));
    }
    r
}

/// The inputs on which the parametric rectified linear unit is defined:
/// one shared weight, or one weight per channel, the second dimension.
pub open spec fn prelu_ok<E>(a: TensorRep<E>, w: TensorRep<E>) -> bool {
    &&& a.data.len() == prod(a.shape)
    &&& w.shape.len() == 1
    &&& w.data.len() == prod(w.shape)
    &&& (w.data.len() == 1 || (a.shape.len() >= 2 && w.data.len() == a.shape[1]))
}

/// The parametric rectified linear unit: negative elements are scaled by
/// their channel's weight, others pass through.
pub open spec fn prelu_rep<E: Element>(a: TensorRep<E>, w: TensorRep<E>) -> TensorRep<E> {
    TensorRep {
        shape: a.shape,
        data: Seq::new(
            a.data.len(),
            |k: int|
                if a.data[k].lt_v(E::zero_v()) {
                    a.data[k].mul_v(
                        w.data[if w.data.len() == 1 {
                            0
                        } else {
                            unflatten(a.shape, k)[1]
                        }],
                    )
                } else {
                    a.data[k]
                },
        ),
    }
}

/// Applies the parametric rectified linear unit element-wise; the weight
/// holds either one element for all channels or one per channel.
pub fn prelu<E: Element>(tensor: &Tensor<E>, alpha: &Tensor<E>) -> (r: Tensor<E>)
    requires
        prelu_ok(tensor.rep(), alpha.rep()),
    ensures
        r.wf(),
        r.rep() == prelu_rep(tensor.rep(), alpha.rep()),
{
    let n = tensor.len();
    let nw = alpha.len();
    let shape = tensor.shape_of();
    let mut data: Vec<E> = Vec::new();
    let mut k: usize = 0;
    let zero = E::zero();
    while k < n
        invariant
            k <= n,
            n == tensor.elems().len(),
            nw == alpha.elems().len(),
            prelu_ok(tensor.rep(), alpha.rep()),
            shape@ == tensor.dims(),
            zero == E::zero_v(),
            data@.len() == k,
            forall|j: int| 0 <= j < k ==> #[trigger] data@[j] == prelu_rep(
                tensor.rep(),
                alpha.rep(),
            ).data[j],
        decreases n - k,
    {
        let v = tensor.elem_at(k);
        if v.lt(zero) {
            let wv = if nw == 1 {
                alpha.elem_at(0)
            } else {
                proof {
                    lemma_prod_sign(tensor.dims());
                }
                let u = coords_of(&shape, k);
                proof {
                    assert(idx_view(u@)[1] == u@[1] as int);
                    assert(0 <= idx_view(u@)[1] < tensor.dims()[1]);
                }
                alpha.elem_at(u[1])
            };
            data.push(v.mul(wv));
        } else {
            data.push(v);
        }
        k = k + 1;
    }
    let r = match Tensor::from_parts(shape, data) {
        Some(t) => t,
        None => {
            proof {
                assert(false);
            }
            unreached()
        },
    };
    proof {
        assert(r.rep().data =~= prelu_rep(tensor.rep(), alpha.rep()).data);
        assert(r.rep() =~= prelu_rep(tensor.rep(), alpha.rep()));
    }
    r
}

/// The softmax along dimension `dim`: the line maximum is subtracted for
/// stability, the result exponentiated, and each entry divided by its
/// line's sum of exponentials.
pub open spec fn softmax_rep<E: FloatElement>(a: TensorRep<E>, dim: int) -> TensorRep<E> {
    let centred = exp_rep(sub_rep(a, max_dim_rep(a, dim)));
    div_rep(centred, sum_dim_rep(centred, dim))
}

/// Applies the softmax along dimension `dim`.
pub fn softmax<E: FloatElement>(tensor: &Tensor<E>, dim: usize) -> (r: Tensor<E>)
    requires
        tensor.wf(),
        dim < tensor.dims().len(),
        prod(tensor.dims().update(dim as int, 1usize)) <= usize::MAX,
    ensures
        r.wf(),
        r.rep() == softmax_rep(tensor.rep(), dim as int),
{
    let n = tensor.len();
    let m = tensor.max_dim(dim);
    proof {
        lemma_self_bc(tensor.rep().shape, dim as int);
        assert(prod(bc_shape(tensor.dims(), m.rep().shape)) <= usize::MAX);
    }
    let centred = tensor.sub(&m).exp();
    proof {
        assert(centred.rep().shape =~= tensor.dims());
    }
    let s = centred.sum_dim(dim);
    proof {
        lemma_self_bc(centred.rep().shape, dim as int);
    }
    let r = centred.div(&s);
    proof {
        assert(r.rep() == softmax_rep(tensor.rep(), dim as int));
    }
    r
}

/// A dimension list broadcasts with itself reduced at one dimension, and
/// the broadcast result is the list itself.
proof fn lemma_self_bc(s: Seq<usize>, dim: int)
    requires
        0 <= dim < s.len(),
    ensures
        bc_compat(s, s.update(dim, 1usize)),
        bc_shape(s, s.update(dim, 1usize)) =~= s,
        prod(bc_shape(s, s.update(dim, 1usize))) == prod(s),
{
    assert(bc_shape(s, s.update(dim, 1usize)) =~= s);
}


/// The gradient of the rectified linear unit, read off its output:
/// wherever the output was clamped to zero, no gradient flows.
pub open spec fn relu_backward_rep<E: Element>(out: TensorRep<E>, g: TensorRep<E>) -> TensorRep<
    E,
> {
    TensorRep {
        shape: g.shape,
        data: Seq::new(
            g.data.len(),
            |k: int|
                if out.data[k].lt_v(E::zero_v()) || out.data[k].is_zero_v() {
                    E::zero_v()
                } else {
                    g.data[k]
                },
        ),
    }
}

/// The gradient of the rectified linear unit with respect to its input,
/// computed from its output and the arriving gradient.
pub fn relu_backward<E: Element>(output: &Tensor<E>, grad: &Tensor<E>) -> (r: Tensor<E>)
    requires
        output.wf(),
        grad.wf(),
        output.dims() =~= grad.dims(),
    ensures
        r.wf(),
        r.rep() == relu_backward_rep(output.rep(), grad.rep()),
{
    let n = grad.len();
    let mut data: Vec<E> = Vec::new();
    let mut k: usize = 0;
    let zero = E::zero();
    while k < n
        invariant
            k <= n,
            n == grad.elems().len(),
            n == output.elems().len(),
            zero == E::zero_v(),
            data@.len() == k,
            forall|j: int|
                0 <= j < k ==> #[trigger] data@[j] == relu_backward_rep(
                    output.rep(),
                    grad.rep(),
                ).data[j],
        decreases n - k,
    {
        let o = output.elem_at(k);
        if o.lt(zero) || o.is_zero() {
            data.push(zero);
        } else {
            data.push(grad.elem_at(k));
        }
        k = k + 1;
    }
    let r = match Tensor::from_parts(grad.shape_of(), data) {
        Some(t) => t,
        None => {
            proof {
                assert(false);
            }
            unreached()
        },
    };
    proof {
        assert(r.rep().data =~= relu_backward_rep(output.rep(), grad.rep()).data);
        assert(r.rep() =~= relu_backward_rep(output.rep(), grad.rep()));
    }
    r
}

/// The leaky rectified linear unit: negative elements are scaled by the
/// negative slope, others pass through.
pub open spec fn leaky_relu_rep<E: Element>(a: TensorRep<E>, slope: E) -> TensorRep<E> {
    TensorRep {
        shape: a.shape,
        data: Seq::new(
            a.data.len(),
            |k: int|
                if a.data[k].lt_v(E::zero_v()) {
                    a.data[k].mul_v(slope)
                } else {
                    a.data[k]
                },
        ),
    }
}

/// Applies the leaky rectified linear unit element-wise.
pub fn leaky_relu<E: Element>(tensor: &Tensor<E>, negative_slope: E) -> (r: Tensor<E>)
    requires
        tensor.wf(),
    ensures
        r.wf(),
        r.rep() == leaky_relu_rep(tensor.rep(), negative_slope),
{
    let n = tensor.len();
    let mut data: Vec<E> = Vec::new();
    let mut k: usize = 0;
    let zero = E::zero();
    while k < n
        invariant
            k <= n,
            n == tensor.elems().len(),
            zero == E::zero_v(),
            data@.len() == k,
            forall|j: int|
                0 <= j < k ==> #[trigger] data@[j] == leaky_relu_rep(
                    tensor.rep(),
                    negative_slope,
                ).data[j],
        decreases n - k,
    {
        let v = tensor.elem_at(k);
        if v.lt(zero) {
            data.push(v.mul(negative_slope));
        } else {
            data.push(v);
        }
        k = k + 1;
    }
    let r = match Tensor::from_parts(tensor.shape_of(), data) {
        Some(t) => t,
        None => {
            proof {
                assert(false);
            }
            unreached()
        },
    };
    proof {
        assert(r.rep().data =~= leaky_relu_rep(tensor.rep(), negative_slope).data);
        assert(r.rep() =~= leaky_relu_rep(tensor.rep(), negative_slope));
    }
    r
}

/// The logistic function of one element, written as the exponential of the
/// negated logarithm of one plus the exponential of the negation, which
/// keeps intermediate magnitudes small.
pub open spec fn sigmoid_of<E: FloatElement>(x: E) -> E {
    x.neg_v().exp_v().add_v(E::one_v()).log_v().neg_v().exp_v()
}

/// The logistic function, element-wise.
pub open spec fn sigmoid_rep<E: FloatElement>(a: TensorRep<E>) -> TensorRep<E> {
    TensorRep { shape: a.shape, data: Seq::new(a.data.len(), |k: int| sigmoid_of(a.data[k])) }
}

/// Applies the logistic function element-wise.
pub fn sigmoid<E: FloatElement>(tensor: &Tensor<E>) -> (r: Tensor<E>)
    requires
        tensor.wf(),
    ensures
        r.wf(),
        r.rep() == sigmoid_rep(tensor.rep()),
{
    let n = tensor.len();
    let mut data: Vec<E> = Vec::new();
    let mut k: usize = 0;
    let one = E::one();
    while k < n
        invariant
            k <= n,
            n == tensor.elems().len(),
            one == E::one_v(),
            data@.len() == k,
            forall|j: int| 0 <= j < k ==> #[trigger] data@[j] == sigmoid_rep(tensor.rep()).data[j],
        decreases n - k,
    {
        let v = tensor.elem_at(k);
        data.push(v.neg().exp().add(one).log().neg().exp());
        k = k + 1;
    }
    let r = match Tensor::from_parts(tensor.shape_of(), data) {
        Some(t) => t,
        None => {
            proof {
                assert(false);
            }
            unreached()
        },
    };
    proof {
        assert(r.rep().data =~= sigmoid_rep(tensor.rep()).data);
        assert(r.rep() =~= sigmoid_rep(tensor.rep()));
    }
    r
}

/// The gradient of the logistic function, read off its output: the output
/// times its complement times the arriving gradient.
pub open spec fn sigmoid_backward_rep<E: FloatElement>(
    out: TensorRep<E>,
    g: TensorRep<E>,
) -> TensorRep<E> {
    TensorRep {
        shape: g.shape,
        data: Seq::new(
            g.data.len(),
            |k: int| out.data[k].mul_v(E::one_v().sub_v(out.data[k])).mul_v(g.data[k]),
        ),
    }
}

/// The gradient of the logistic function with respect to its input,
/// computed from its output and the arriving gradient.
pub fn sigmoid_backward<E: FloatElement>(output: &Tensor<E>, grad: &Tensor<E>) -> (r: Tensor<E>)
    requires
        output.wf(),
        grad.wf(),
        output.dims() =~= grad.dims(),
    ensures
        r.wf(),
        r.rep() == sigmoid_backward_rep(output.rep(), grad.rep()),
{
    let n = grad.len();
    let mut data: Vec<E> = Vec::new();
    let mut k: usize = 0;
    let one = E::one();
    while k < n
        invariant
            k <= n,
            n == grad.elems().len(),
            n == output.elems().len(),
            one == E::one_v(),
            data@.len() == k,
            forall|j: int|
                0 <= j < k ==> #[trigger] data@[j] == sigmoid_backward_rep(
                    output.rep(),
                    grad.rep(),
                ).data[j],
        decreases n - k,
    {
        let o = output.elem_at(k);
        data.push(o.mul(one.sub(o)).mul(grad.elem_at(k)));
        k = k + 1;
    }
    let r = match Tensor::from_parts(grad.shape_of(), data) {
        Some(t) => t,
        None => {
            proof {
                assert(false);
            }
            unreached()
        },
    };
    proof {
        assert(r.rep().data =~= sigmoid_backward_rep(output.rep(), grad.rep()).data);
        assert(r.rep() =~= sigmoid_backward_rep(output.rep(), grad.rep()));
    }
    r
}

} // verus!

