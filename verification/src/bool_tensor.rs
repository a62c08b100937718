use vstd::prelude::*;

use crate::element::Element;
use crate::shape::{
    coords_of, idx_view, in_bounds, lemma_flatten, lemma_prod_sign, lemma_unflatten, pos_of, prod,
    unflatten,
};
use crate::tensor::Tensor;

verus! {

/// A dense tensor of truth values, in row-major layout. It backs the
/// boolean reductions and comparison masks.
pub struct BoolTensor {
    shape: Vec<usize>,
    data: Vec<bool>,
}

impl BoolTensor {
    /// Dimensions, outermost first.
    pub closed spec fn dims(&self) -> Seq<usize> {
        self.shape@
    }

    /// Truth values in row-major order.
    pub closed spec fn flags(&self) -> Seq<bool> {
        self.data@
    }

    /// The element count matches the dimensions.
    pub open spec fn wf(&self) -> bool {
        self.flags().len() == prod(self.dims())
    }

    /// Builds a tensor of truth values from its dimensions and row-major
    /// entries; answers nothing exactly when the count does not match.
    pub fn from_parts(shape: Vec<usize>, data: Vec<bool>) -> (r: Option<BoolTensor>)
        ensures
            match r {
                Some(t) => t.dims() == shape@ && t.flags() == data@ && t.wf(),
                None => prod(shape@) != data@.len(),
            },
    {
        let dl = data.len();
        let n = crate::tensor::num_elements(&shape);
        match n {
            Some(n) if n == dl => Some(BoolTensor { shape, data }),
            _ => None,
        }
    }

    /// The truth values in row-major order, consuming the tensor.
    pub fn into_data(self) -> (r: Vec<bool>)
        ensures
            r@ == self.flags(),
    {
        self.data
    }

    /// The dimensions, as a fresh vector.
    pub fn shape_of(&self) -> (r: Vec<usize>)
        ensures
            r@ == self.dims(),
    {
        let mut r: Vec<usize> = Vec::new();
        let mut i: usize = 0;
        while i < self.shape.len()
            invariant
                i <= self.shape@.len(),
                r@ =~= self.shape@.take(i as int),
            decreases self.shape@.len() - i,
        {
            r.push(self.shape[i]);
            i = i + 1;
        }
        proof {
            assert(self.shape@.take(self.shape@.len() as int) =~= self.shape@);
        }
        r
    }

    /// Whether any entry is true.
    pub fn any(&self) -> (r: bool)
        ensures
            r == exists|t: int| 0 <= t < self.flags().len() && self.flags()[t],
    {
        let mut k: usize = 0;
        while k < self.data.len()
            invariant
                k <= self.flags().len(),
                forall|t: int| 0 <= t < k ==> !self.flags()[t],
            decreases self.flags().len() - k,
        {
            if self.data[k] {
                return true;
            }
            k = k + 1;
        }
        false
    }

    /// Whether any entry along dimension `dim` is true, per line; the
    /// reduced dimension keeps extent one.
    pub fn any_dim(&self, dim: usize) -> (r: BoolTensor)
        requires
            self.wf(),
            dim < self.dims().len(),
            prod(self.dims().update(dim as int, 1usize)) <= usize::MAX,
        ensures
            r.wf(),
            r.dims() =~= self.dims().update(dim as int, 1usize),
            forall|k: int| 0 <= k < r.flags().len() ==> #[trigger] r.flags()[k] == exists|j: int|
                0 <= j < self.dims()[dim as int] && self.flags()[flatten_at(
                    self.dims(),
                    unflatten(self.dims().update(dim as int, 1usize), k).update(dim as int, j),
                )],
    {
        let ghost sh = self.dims().update(dim as int, 1usize);
        let mut out_shape = self.shape_of();
        out_shape.set(dim, 1);
        proof {
            assert(out_shape@ =~= sh);
        }
        let n = match crate::tensor::num_elements(&out_shape) {
            Some(n) => n,
            None => {
                proof {
                    assert(false);
                }
                unreached()
            },
        };
        let extent = self.shape[dim];
        let nd = self.data.len();
        let mut data: Vec<bool> = Vec::new();
        let mut k: usize = 0;
        while k < n
            invariant
                k <= n,
                n == prod(sh),
                nd == self.flags().len(),
                self.wf(),
                dim < self.dims().len(),
                extent == self.dims()[dim as int],
                sh == self.dims().update(dim as int, 1usize),
                out_shape@ == sh,
                data@.len() == k,
                forall|t: int| 0 <= t < k ==> #[trigger] data@[t] == exists|j: int|
                    0 <= j < extent && self.flags()[flatten_at(
                        self.dims(),
                        unflatten(sh, t).update(dim as int, j),
                    )],
            decreases n - k,
        {
            let idx = coords_of(&out_shape, k);
            let ghost iv = idx_view(idx@);
            let mut found = false;
            let mut j: usize = 0;
            while j < extent
                invariant
                    j <= extent,
                    nd == self.flags().len(),
                    self.wf(),
                    dim < self.dims().len(),
                    extent == self.dims()[dim as int],
                    sh == self.dims().update(dim as int, 1usize),
                    out_shape@ == sh,
                    idx@.len() == self.dims().len(),
                    iv == idx_view(idx@),
                    in_bounds(sh, iv),
                    found == exists|t: int|
                        0 <= t < j && self.flags()[flatten_at(
                            self.dims(),
                            iv.update(dim as int, t),
                        )],
                decreases extent - j,
            {
                let mut c = crate::tensor::idx_clone(&idx);
                c.set(dim, j);
                proof {
                    assert(idx_view(c@) =~= iv.update(dim as int, j as int));
                    assert forall|t: int| 0 <= t < self.dims().len() implies 0 <= #[trigger] iv
                        .update(dim as int, j as int)[t] < self.dims()[t] by {
                        if t != dim {
                            assert(iv[t] < sh[t]);
                        }
                    }
                    assert(in_bounds(self.dims(), idx_view(c@)));
                }
                let p = pos_of(&self.shape, &c);
                if self.data[p] {
                    found = true;
                }
                j = j + 1;
            }
            data.push(found);
            k = k + 1;
        }
        let r = BoolTensor { shape: out_shape, data };
        r
    }
}

/// An alias for the row-major position, used where the full name collides
/// with a binding.
pub open spec fn flatten_at(s: Seq<usize>, idx: Seq<int>) -> int {
    crate::shape::flatten(s, idx)
}

impl<E: Element> Tensor<E> {
    /// Whether any element is other than zero.
    pub fn any(&self) -> (r: bool)
        ensures
            r == exists|t: int| 0 <= t < self.elems().len() && !self.elems()[t].is_zero_v(),
    {
        let m = self.nonzero_mask();
        let r = m.any();
        proof {
            if exists|t: int| 0 <= t < self.elems().len() && !self.elems()[t].is_zero_v() {
                let t = choose|t: int|
                    0 <= t < self.elems().len() && !self.elems()[t].is_zero_v();
                assert(m.flags()[t]);
            }
            if r {
                let t = choose|t: int| 0 <= t < m.flags().len() && m.flags()[t];
                assert(!self.elems()[t].is_zero_v());
            }
        }
        r
    }

    /// The mask of elements other than zero.
    pub fn nonzero_mask(&self) -> (r: BoolTensor)
        ensures
            r.dims() == self.dims(),
            r.flags().len() == self.elems().len(),
            forall|t: int| 0 <= t < self.elems().len() ==> #[trigger] r.flags()[t]
                == !self.elems()[t].is_zero_v(),
            self.wf() ==> r.wf(),
    {
        let v = self.duplicate().into_data();
        let mut data: Vec<bool> = Vec::new();
        let mut k: usize = 0;
        while k < v.len()
            invariant
                k <= v@.len(),
                v@ == self.elems(),
                data@.len() == k,
                forall|t: int| 0 <= t < k ==> #[trigger] data@[t] == !self.elems()[t].is_zero_v(),
            decreases v@.len() - k,
        {
            data.push(!v[k].is_zero());
            k = k + 1;
        }
        BoolTensor { shape: self.shape_of(), data }
    }

    /// Whether any element along dimension `dim` is other than zero, per
    /// line; the reduced dimension keeps extent one.
    pub fn any_dim(&self, dim: usize) -> (r: BoolTensor)
        requires
            self.wf(),
            dim < self.dims().len(),
            prod(self.dims().update(dim as int, 1usize)) <= usize::MAX,
        ensures
            r.wf(),
            r.dims() =~= self.dims().update(dim as int, 1usize),
            forall|k: int| 0 <= k < r.flags().len() ==> #[trigger] r.flags()[k] == exists|j: int|
                0 <= j < self.dims()[dim as int] && !self.elems()[flatten_at(
                    self.dims(),
                    unflatten(self.dims().update(dim as int, 1usize), k).update(dim as int, j),
                )].is_zero_v(),
    {
        let m = self.nonzero_mask();
        let r = m.any_dim(dim);
        proof {
            let dims = self.dims();
            let sh = dims.update(dim as int, 1usize);
            let ext = dims[dim as int] as int;
            assert forall|k: int| 0 <= k < r.flags().len() implies #[trigger] r.flags()[k] == (
            exists|j: int|
                0 <= j < ext && !self.elems()[flatten_at(
                    dims,
                    unflatten(sh, k).update(dim as int, j),
                )].is_zero_v()) by {
                lemma_prod_sign(sh);
                if exists|j: int|
                    0 <= j < ext && m.flags()[flatten_at(
                        dims,
                        unflatten(sh, k).update(dim as int, j),
                    )] {
                    let j = choose|j: int|
                        0 <= j < ext && m.flags()[flatten_at(
                            dims,
                            unflatten(sh, k).update(dim as int, j),
                        )];
                    lemma_line_pos(dims, dim as int, k, j);
                    assert(!self.elems()[flatten_at(
                        dims,
                        unflatten(sh, k).update(dim as int, j),
                    )].is_zero_v());
                }
                if exists|j: int|
                    0 <= j < ext && !self.elems()[flatten_at(
                        dims,
                        unflatten(sh, k).update(dim as int, j),
                    )].is_zero_v() {
                    let j = choose|j: int|
                        0 <= j < ext && !self.elems()[flatten_at(
                            dims,
                            unflatten(sh, k).update(dim as int, j),
                        )].is_zero_v();
                    lemma_line_pos(dims, dim as int, k, j);
                    assert(m.flags()[flatten_at(
                        dims,
                        unflatten(sh, k).update(dim as int, j),
                    )]);
                }
            }
        }
        r
    }
}

/// The cell a per-line reduction reads stays inside the tensor.
proof fn lemma_line_pos(dims: Seq<usize>, dim: int, k: int, j: int)
    requires
        0 <= dim < dims.len(),
        0 <= k < prod(dims.update(dim, 1usize)),
        0 <= j < dims[dim],
    ensures
        0 <= flatten_at(dims, unflatten(dims.update(dim, 1usize), k).update(dim, j)) < prod(dims),
{
    let sh = dims.update(dim, 1usize);
    lemma_unflatten(sh, k);
    let u = unflatten(sh, k);
    let w = u.update(dim, j);
    assert forall|t: int| 0 <= t < dims.len() implies 0 <= #[trigger] w[t] < dims[t] by {
        if t != dim {
            assert(u[t] < sh[t]);
        }
    }
    assert(in_bounds(dims, w));
    lemma_flatten(dims, w);
}

} // verus!
