use vstd::prelude::*;

use crate::backend::{Backend, InterpolateOptions};
use crate::element::{Element, FloatElement};
use crate::shape::{coords_of, idx_view, in_bounds, lemma_prod_sign, pos_of, prod, unflatten};
use crate::tensor::{rep_at, reshape_rep, Tensor, TensorRep};

verus! {

/// Extent of a pooling output axis: input extent `h`, padding `p`,
/// dilation `d`, kernel extent `k` and stride `s`.
pub open spec fn pool_out_len(h: int, p: int, d: int, k: int, s: int) -> int {
    (h + 2 * p - d * (k - 1) - 1) / s + 1
}

/// Dimensions of a two-dimensional pooling output over `[batch, channel,
/// height, width]` input dimensions.
pub open spec fn pool2d_out_shape(
    sh: Seq<usize>,
    ks: (int, int),
    st: (int, int),
    pd: (int, int),
    dl: (int, int),
) -> Seq<usize> {
    seq![
        sh[0],
        sh[1],
        pool_out_len(sh[2] as int, pd.0, dl.0, ks.0, st.0) as usize,
        pool_out_len(sh[3] as int, pd.1, dl.1, ks.1, st.1) as usize,
    ]
}

/// The inputs on which two-dimensional max pooling is defined: a
/// four-dimensional tensor, positive kernel, stride and dilation, a dilated
/// kernel that fits the padded input, and results that fit machine words.
pub open spec fn pool2d_ok<E>(
    a: TensorRep<E>,
    ks: (int, int),
    st: (int, int),
    pd: (int, int),
    dl: (int, int),
) -> bool {
    &&& a.data.len() == prod(a.shape)
    &&& a.shape.len() == 4
    &&& ks.0 > 0 && ks.1 > 0
    &&& st.0 > 0 && st.1 > 0
    &&& dl.0 > 0 && dl.1 > 0
    &&& pd.0 >= 0 && pd.1 >= 0
    &&& a.shape[2] + 2 * pd.0 <= usize::MAX
    &&& a.shape[3] + 2 * pd.1 <= usize::MAX
    &&& dl.0 * (ks.0 - 1) + 1 <= a.shape[2] + 2 * pd.0
    &&& dl.1 * (ks.1 - 1) + 1 <= a.shape[3] + 2 * pd.1
    &&& ks.0 * ks.1 <= usize::MAX
    &&& a.shape[2] * a.shape[3] <= i64::MAX
    &&& prod(pool2d_out_shape(a.shape, ks, st, pd, dl)) <= usize::MAX
}

/// Running maximum and its flat position over the first `t` kernel cells of
/// the window of output cell `(bi, ci, oh, ow)`. Cells that fall into the
/// padding are skipped; ties keep the earlier cell; the position indexes
/// the flattened height-by-width plane.
pub open spec fn pool_window<E: Element>(
    a: TensorRep<E>,
    bi: int,
    ci: int,
    oh: int,
    ow: int,
    ks: (int, int),
    st: (int, int),
    pd: (int, int),
    dl: (int, int),
    t: int,
) -> (E, int)
    decreases t,
{
    if t <= 0 {
        (E::lowest_v(), 0)
    } else {
        let prev = pool_window(a, bi, ci, oh, ow, ks, st, pd, dl, t - 1);
        let kh = (t - 1) / ks.1;
        let kw = (t - 1) % ks.1;
        let ph = oh * st.0 + kh * dl.0;
        let pw = ow * st.1 + kw * dl.1;
        let h = a.shape[2] as int;
        let w = a.shape[3] as int;
        if ph >= pd.0 && ph - pd.0 < h && pw >= pd.1 && pw - pd.1 < w {
            let v = rep_at(a, seq![bi, ci, ph - pd.0, pw - pd.1]);
            if prev.0.lt_v(v) {
                (v, (ph - pd.0) * w + (pw - pd.1))
            } else {
                prev
            }
        } else {
            prev
        }
    }
}

/// Two-dimensional max pooling with the positions of the maxima, over a
/// `[batch, channel, height, width]` tensor.
pub fn max_pool2d_with_indices<E: Element>(
    x: &Tensor<E>,
    kernel_size: [usize; 2],
    stride: [usize; 2],
    padding: [usize; 2],
    dilation: [usize; 2],
) -> (r: (Tensor<E>, Tensor<i64>))
    requires
        pool2d_ok(
            x.rep(),
            (kernel_size[0] as int, kernel_size[1] as int),
            (stride[0] as int, stride[1] as int),
            (padding[0] as int, padding[1] as int),
            (dilation[0] as int, dilation[1] as int),
        ),
    ensures
        ({
            let ks = (kernel_size[0] as int, kernel_size[1] as int);
            let st = (stride[0] as int, stride[1] as int);
            let pd = (padding[0] as int, padding[1] as int);
            let dl = (dilation[0] as int, dilation[1] as int);
            let sh = pool2d_out_shape(x.rep().shape, ks, st, pd, dl);
            &&& r.0.wf()
            &&& r.1.wf()
            &&& r.0.dims() =~= sh
            &&& r.1.dims() =~= sh
            &&& forall|k: int| 0 <= k < r.0.elems().len() ==> {
                let u = unflatten(sh, k);
                (#[trigger] r.0.elems()[k], r.1.elems()[k] as int) == pool_window(
                    x.rep(),
                    u[0],
                    u[1],
                    u[2],
                    u[3],
                    ks,
                    st,
                    pd,
                    dl,
                    ks.0 * ks.1,
                )
            }
        }),
{
    let ghost ks = (kernel_size[0] as int, kernel_size[1] as int);
    let ghost st = (stride[0] as int, stride[1] as int);
    let ghost pd = (padding[0] as int, padding[1] as int);
    let ghost dl = (dilation[0] as int, dilation[1] as int);
    let ghost sh = pool2d_out_shape(x.rep().shape, ks, st, pd, dl);
    let xs = x.shape_of();
    let h = xs[2];
    let w = xs[3];
    let nd_full = x.len();
    let oh = (h + 2 * padding[0] - dilation[0] * (kernel_size[0] - 1) - 1) / stride[0] + 1;
    let ow = (w + 2 * padding[1] - dilation[1] * (kernel_size[1] - 1) - 1) / stride[1] + 1;
    let mut out_shape: Vec<usize> = Vec::new();
    out_shape.push(xs[0]);
    out_shape.push(xs[1]);
    out_shape.push(oh);
    out_shape.push(ow);
    proof {
        assert(out_shape@ =~= sh);
    }
    let n = match crate::tensor::num_elements(&out_shape) {
        Some(n) => n,
        None => {
            proof {
                assert(false);
            }
            unreached()
        },
    };
    let win = kernel_size[0] * kernel_size[1];
    let mut data: Vec<E> = Vec::new();
    let mut inds: Vec<i64> = Vec::new();
    let mut k: usize = 0;
    while k < n
        invariant
            k <= n,
            n == prod(sh),
            pool2d_ok(x.rep(), ks, st, pd, dl),
            ks == (kernel_size[0] as int, kernel_size[1] as int),
            st == (stride[0] as int, stride[1] as int),
            pd == (padding[0] as int, padding[1] as int),
            dl == (dilation[0] as int, dilation[1] as int),
            sh == pool2d_out_shape(x.rep().shape, ks, st, pd, dl),
            out_shape@ == sh,
            xs@ == x.dims(),
            h == x.dims()[2],
            w == x.dims()[3],
            nd_full == x.elems().len(),
            oh as int == pool_out_len(h as int, pd.0, dl.0, ks.0, st.0),
            ow as int == pool_out_len(w as int, pd.1, dl.1, ks.1, st.1),
            win == ks.0 * ks.1,
            data@.len() == k,
            inds@.len() == k,
            forall|j: int| 0 <= j < k ==> {
                let u = unflatten(sh, j);
                (#[trigger] data@[j], inds@[j] as int) == pool_window(
                    x.rep(),
                    u[0],
                    u[1],
                    u[2],
                    u[3],
                    ks,
                    st,
                    pd,
                    dl,
                    ks.0 * ks.1,
                )
            },
        decreases n - k,
    {
        proof {
            lemma_prod_sign(sh);
        }
        let u = coords_of(&out_shape, k);
        let bi = u[0];
        let ci = u[1];
        let ohh = u[2];
        let oww = u[3];
        let ghost uv = idx_view(u@);
        proof {
            assert(uv[0] == bi as int && uv[1] == ci as int && uv[2] == ohh as int && uv[3]
                == oww as int);
        }
        proof {
            assert(x.dims()[0] > 0 && x.dims()[1] > 0) by {
                assert(sh[0] == x.dims()[0] && sh[1] == x.dims()[1]);
                assert(k < prod(sh));
            }
            crate::shape::lemma_prod_split(x.dims(), 2);
            crate::tensor::lemma_two_dims(x.dims().skip(2));
            lemma_prod_sign(x.dims().take(2));
            assert(x.dims().take(2)[0] == x.dims()[0] && x.dims().take(2)[1] == x.dims()[1]);
            assert(x.dims().skip(2)[0] == x.dims()[2] && x.dims().skip(2)[1] == x.dims()[3]);
            assert(prod(x.dims()) == prod(x.dims().take(2)) * ((h as int) * (w as int)));
            assert((h as int) * (w as int) <= prod(x.dims())) by (nonlinear_arith)
                requires
                    prod(x.dims()) == prod(x.dims().take(2)) * ((h as int) * (w as int)),
                    prod(x.dims().take(2)) >= 1,
                    (h as int) * (w as int) >= 0,
            ;
        }
        let mut best = E::lowest();
        let mut best_ix: usize = 0;
        let mut t: usize = 0;
        while t < win
            invariant
                t <= win,
                pool2d_ok(x.rep(), ks, st, pd, dl),
                ks == (kernel_size[0] as int, kernel_size[1] as int),
                st == (stride[0] as int, stride[1] as int),
                pd == (padding[0] as int, padding[1] as int),
                dl == (dilation[0] as int, dilation[1] as int),
                xs@ == x.dims(),
                h == x.dims()[2],
                w == x.dims()[3],
                nd_full == x.elems().len(),
                x.wf(),
                win == ks.0 * ks.1,
                bi as int == uv[0] && ci as int == uv[1] && ohh as int == uv[2] && oww as int
                    == uv[3],
                (h as int) * (w as int) <= usize::MAX,
                in_bounds(sh, uv),
                sh == pool2d_out_shape(x.rep().shape, ks, st, pd, dl),
                oh as int == pool_out_len(h as int, pd.0, dl.0, ks.0, st.0),
                ow as int == pool_out_len(w as int, pd.1, dl.1, ks.1, st.1),
                best_ix <= i64::MAX,
                (best, best_ix as int) == pool_window(
                    x.rep(),
                    uv[0],
                    uv[1],
                    uv[2],
                    uv[3],
                    ks,
                    st,
                    pd,
                    dl,
                    t as int,
                ),
            decreases win - t,
        {
            let kh = t / kernel_size[1];
            let kw = t % kernel_size[1];
            proof {
                assert(kh as int == (t as int) / ks.1 && kw as int == (t as int) % ks.1 && kh
                    < ks.0) by (nonlinear_arith)
                    requires
                        0 <= t < ks.0 * ks.1,
                        ks.0 > 0,
                        ks.1 > 0,
                        kh == t as int / (ks.1 as int),
                        kw == t as int % (ks.1 as int),
                ;
                assert(uv[2] < sh[2] && uv[3] < sh[3]);
                assert(ohh as int <= pool_out_len(h as int, pd.0, dl.0, ks.0, st.0) - 1);
                lemma_pool_pos_bound(h as int, pd.0, dl.0, ks.0, st.0, ohh as int, kh as int);
                lemma_pool_pos_bound(w as int, pd.1, dl.1, ks.1, st.1, oww as int, kw as int);
            }
            let ph = ohh * stride[0] + kh * dilation[0];
            let pw = oww * stride[1] + kw * dilation[1];
            if ph >= padding[0] && ph - padding[0] < h && pw >= padding[1] && pw - padding[1]
                < w {
                let ih = ph - padding[0];
                let iw = pw - padding[1];
                let mut c: Vec<usize> = Vec::new();
                c.push(bi);
                c.push(ci);
                c.push(ih);
                c.push(iw);
                proof {
                    assert(idx_view(c@) =~= seq![bi as int, ci as int, ih as int, iw as int]);
                    assert(in_bounds(x.dims(), idx_view(c@))) by {
                        assert(x.dims()[0] == sh[0] && x.dims()[1] == sh[1]);
                    }
                }
                let p = pos_of(&xs, &c);
                proof {
                    assert(xs@ == x.dims());
                }
                let v = x.elem_at(p);
                proof {
                    assert((ih as int) * (w as int) + (iw as int) < (h as int) * (w as int))
                        by (nonlinear_arith)
                        requires
                            0 <= ih < h,
                            0 <= iw < w,
                    ;
                }
                if best.lt(v) {
                    best = v;
                    best_ix = ih * w + iw;
                }
            }
            t = t + 1;
        }
        data.push(best);
        inds.push(best_ix as i64);
        k = k + 1;
    }
    let out = match Tensor::from_parts(crate::tensor::idx_clone(&out_shape), data) {
        Some(t) => t,
        None => {
            proof {
                assert(false);
            }
            unreached()
        },
    };
    let indt = match Tensor::from_parts(out_shape, inds) {
        Some(t) => t,
        None => {
            proof {
                assert(false);
            }
            unreached()
        },
    };
    (out, indt)
}

/// A window cell's position in the padded plane stays under the padded
/// extent, so its arithmetic fits a machine word.
proof fn lemma_pool_pos_bound(h: int, p: int, d: int, k: int, s: int, oh: int, kh: int)
    requires
        h >= 0,
        p >= 0,
        d > 0,
        k > 0,
        s > 0,
        d * (k - 1) + 1 <= h + 2 * p,
        0 <= oh <= pool_out_len(h, p, d, k, s) - 1,
        0 <= kh < k,
    ensures
        oh * s + kh * d <= h + 2 * p - 1,
        oh * s + kh * d >= 0,
{
    let q = (h + 2 * p - d * (k - 1) - 1) / s;
    assert(q * s <= h + 2 * p - d * (k - 1) - 1) by (nonlinear_arith)
        requires
            s > 0,
            h + 2 * p - d * (k - 1) - 1 >= 0,
            q == (h + 2 * p - d * (k - 1) - 1) / s,
    ;
    assert(oh * s <= q * s) by (nonlinear_arith)
        requires
            oh <= q,
            s > 0,
    ;
    assert(kh * d <= (k - 1) * d) by (nonlinear_arith)
        requires
            kh <= k - 1,
            d > 0,
    ;
    assert(oh * s + kh * d >= 0) by (nonlinear_arith)
        requires
            oh >= 0,
            kh >= 0,
            s > 0,
            d > 0,
    ;
    assert(oh * s + kh * d <= h + 2 * p - 1) by (nonlinear_arith)
        requires
            oh * s <= q * s,
            q * s <= h + 2 * p - d * (k - 1) - 1,
            kh * d <= (k - 1) * d,
    ;
}

/// Two-dimensional max pooling over a `[batch, channel, height, width]`
/// tensor.
pub fn max_pool2d<E: Element>(
    x: &Tensor<E>,
    kernel_size: [usize; 2],
    stride: [usize; 2],
    padding: [usize; 2],
    dilation: [usize; 2],
) -> (r: Tensor<E>)
    requires
        pool2d_ok(
            x.rep(),
            (kernel_size[0] as int, kernel_size[1] as int),
            (stride[0] as int, stride[1] as int),
            (padding[0] as int, padding[1] as int),
            (dilation[0] as int, dilation[1] as int),
        ),
    ensures
        ({
            let ks = (kernel_size[0] as int, kernel_size[1] as int);
            let st = (stride[0] as int, stride[1] as int);
            let pd = (padding[0] as int, padding[1] as int);
            let dl = (dilation[0] as int, dilation[1] as int);
            let sh = pool2d_out_shape(x.rep().shape, ks, st, pd, dl);
            &&& r.wf()
            &&& r.dims() =~= sh
            &&& forall|k: int| 0 <= k < r.elems().len() ==> {
                let u = unflatten(sh, k);
                #[trigger] r.elems()[k] == pool_window(
                    x.rep(),
                    u[0],
                    u[1],
                    u[2],
                    u[3],
                    ks,
                    st,
                    pd,
                    dl,
                    ks.0 * ks.1,
                ).0
            }
        }),
{
    let (out, _inds) = max_pool2d_with_indices(x, kernel_size, stride, padding, dilation);
    out
}


/// A rank-three shape read as rank four, with a trailing extent of one.
pub open spec fn widen3(s: Seq<usize>) -> Seq<usize> {
    seq![s[0], s[1], s[2], 1usize]
}

/// A rank-three shape read as rank four, with the length moved last and a
/// one in front of it.
pub open spec fn widen3_front(s: Seq<usize>) -> Seq<usize> {
    seq![s[0], s[1], 1usize, s[2]]
}

/// Widening a rank-three shape by a unit dimension keeps its element
/// count.
pub proof fn lemma_widen3(s: Seq<usize>)
    requires
        s.len() == 3,
    ensures
        prod(widen3(s)) == prod(s),
        prod(widen3_front(s)) == prod(s),
{
    let w = widen3(s);
    assert(w.drop_last() =~= s);
    assert(w.last() == 1);
    assert(prod(w) == prod(s) * 1);
    let p2 = seq![s[0], s[1]];
    assert(s.drop_last() =~= p2);
    assert(s.last() == s[2]);
    assert(prod(s) == prod(p2) * s[2]);
    let f = widen3_front(s);
    let f3 = seq![s[0], s[1], 1usize];
    assert(f.drop_last() =~= f3);
    assert(f.last() == s[2]);
    assert(f3.drop_last() =~= p2);
    assert(f3.last() == 1);
    assert(prod(f3) == prod(p2) * 1);
    assert(prod(f) == (prod(p2) * 1) * s[2]);
    assert((prod(p2) * 1) * s[2] == prod(p2) * s[2]);
}

/// The last two dimensions of a rank-four shape folded into one.
pub open spec fn narrow4(s: Seq<usize>) -> Seq<usize> {
    seq![s[0], s[1], (s[2] * s[3]) as usize]
}

/// One-dimensional average pooling, carried out by the backend's
/// two-dimensional kernel over a unit-width view of the input.
pub fn avg_pool1d_from_2d<E: FloatElement, B: Backend<E>>(
    x: &Tensor<E>,
    kernel_size: usize,
    stride: usize,
    padding: usize,
    count_include_pad: bool,
) -> (r: Tensor<E>)
    requires
        x.wf(),
        x.dims().len() == 3,
    ensures
        r.wf(),
        ({
            let wide = B::avg_pool2d_v(
                reshape_rep(x.rep(), widen3(x.dims())),
                [kernel_size, 1],
                [stride, 1],
                [padding, 0],
                count_include_pad,
            );
            r.rep() == reshape_rep(wide, narrow4(wide.shape))
        }),
{
    proof {
        lemma_widen3(x.dims());
    }
    let xs = x.shape_of();
    let mut wide_shape: Vec<usize> = Vec::new();
    wide_shape.push(xs[0]);
    wide_shape.push(xs[1]);
    wide_shape.push(xs[2]);
    wide_shape.push(1);
    proof {
        assert(wide_shape@ =~= widen3(x.dims()));
    }
    let x4 = x.duplicate().reshape(wide_shape);
    let pooled = B::avg_pool2d(&x4, [kernel_size, 1], [stride, 1], [padding, 0],
        count_include_pad);
    narrow_to_3(pooled)
}

/// The backward of one-dimensional average pooling, carried out by the
/// backend's two-dimensional kernel over unit-width views.
pub fn avg_pool1d_backward_from_2d<E: FloatElement, B: Backend<E>>(
    x: &Tensor<E>,
    grad: &Tensor<E>,
    kernel_size: usize,
    stride: usize,
    padding: usize,
    count_include_pad: bool,
) -> (r: Tensor<E>)
    requires
        x.wf(),
        grad.wf(),
        x.dims().len() == 3,
        grad.dims().len() == 3,
    ensures
        r.wf(),
        ({
            let wide = B::avg_pool2d_backward_v(
                reshape_rep(x.rep(), widen3(x.dims())),
                reshape_rep(grad.rep(), widen3(grad.dims())),
                [kernel_size, 1],
                [stride, 1],
                [padding, 0],
                count_include_pad,
            );
            r.rep() == reshape_rep(wide, narrow4(wide.shape))
        }),
{
    proof {
        lemma_widen3(x.dims());
        lemma_widen3(grad.dims());
    }
    let x4 = widen_to_4(x);
    let g4 = widen_to_4(grad);
    let back = B::avg_pool2d_backward(&x4, &g4, [kernel_size, 1], [stride, 1], [padding, 0],
        count_include_pad);
    proof {
        assert(back.rep().shape[3] == 1);
        assert(back.rep().shape[2] * back.rep().shape[3] == back.rep().shape[2]);
    }
    narrow_to_3(back)
}

/// One-dimensional adaptive average pooling through the two-dimensional
/// kernel.
pub fn adaptive_avg_pool1d_from_2d<E: FloatElement, B: Backend<E>>(
    x: &Tensor<E>,
    output_size: usize,
) -> (r: Tensor<E>)
    requires
        x.wf(),
        x.dims().len() == 3,
    ensures
        r.wf(),
        ({
            let wide = B::adaptive_avg_pool2d_v(
                reshape_rep(x.rep(), widen3(x.dims())),
                [output_size, 1],
            );
            r.rep() == reshape_rep(wide, narrow4(wide.shape))
        }),
{
    proof {
        lemma_widen3(x.dims());
    }
    let x4 = widen_to_4(x);
    let pooled = B::adaptive_avg_pool2d(&x4, [output_size, 1]);
    narrow_to_3(pooled)
}

/// The backward of one-dimensional adaptive average pooling through the
/// two-dimensional kernel.
pub fn adaptive_avg_pool1d_backward_from_2d<E: FloatElement, B: Backend<E>>(
    x: &Tensor<E>,
    grad: &Tensor<E>,
) -> (r: Tensor<E>)
    requires
        x.wf(),
        grad.wf(),
        x.dims().len() == 3,
        grad.dims().len() == 3,
    ensures
        r.wf(),
        ({
            let wide = B::adaptive_avg_pool2d_backward_v(
                reshape_rep(x.rep(), widen3(x.dims())),
                reshape_rep(grad.rep(), widen3(grad.dims())),
            );
            r.rep() == reshape_rep(wide, narrow4(wide.shape))
        }),
{
    proof {
        lemma_widen3(x.dims());
        lemma_widen3(grad.dims());
    }
    let x4 = widen_to_4(x);
    let g4 = widen_to_4(grad);
    let back = B::adaptive_avg_pool2d_backward(&x4, &g4);
    proof {
        assert(back.rep().shape[3] == 1);
        assert(back.rep().shape[2] * back.rep().shape[3] == back.rep().shape[2]);
    }
    narrow_to_3(back)
}

/// One-dimensional max pooling through the two-dimensional kernel, with
/// the length read as the innermost dimension.
pub fn max_pool1d_from_2d<E: FloatElement, B: Backend<E>>(
    x: &Tensor<E>,
    kernel_size: usize,
    stride: usize,
    padding: usize,
    dilation: usize,
) -> (r: Tensor<E>)
    requires
        x.wf(),
        x.dims().len() == 3,
    ensures
        r.wf(),
        ({
            let wide = B::max_pool2d_with_indices_v(
                reshape_rep(x.rep(), widen3_front(x.dims())),
                [1, kernel_size],
                [1, stride],
                [0, padding],
                [1, dilation],
            ).0;
            r.rep() == reshape_rep(wide, narrow4(wide.shape))
        }),
{
    proof {
        lemma_widen3(x.dims());
    }
    let x4 = widen_to_4_front(x);
    let pooled = B::max_pool2d(&x4, [1, kernel_size], [1, stride], [0, padding], [1, dilation]);
    narrow_to_3(pooled)
}

/// One-dimensional max pooling with the maxima positions, through the
/// two-dimensional kernel.
pub fn max_pool1d_with_indices_from_2d<E: FloatElement, B: Backend<E>>(
    x: &Tensor<E>,
    kernel_size: usize,
    stride: usize,
    padding: usize,
    dilation: usize,
) -> (r: (Tensor<E>, Tensor<i64>))
    requires
        x.wf(),
        x.dims().len() == 3,
    ensures
        r.0.wf(),
        r.1.wf(),
        ({
            let wide = B::max_pool2d_with_indices_v(
                reshape_rep(x.rep(), widen3_front(x.dims())),
                [1, kernel_size],
                [1, stride],
                [0, padding],
                [1, dilation],
            );
            r.0.rep() == reshape_rep(wide.0, narrow4(wide.0.shape)) && r.1.rep() == reshape_rep(
                wide.1,
                narrow4(wide.1.shape),
            )
        }),
{
    proof {
        lemma_widen3(x.dims());
    }
    let x4 = widen_to_4_front(x);
    let (pooled, indices) = B::max_pool2d_with_indices(&x4, [1, kernel_size], [1, stride],
        [0, padding], [1, dilation]);
    let out = narrow_to_3(pooled);
    let ind = narrow_to_3(indices);
    (out, ind)
}

/// The backward of one-dimensional max pooling through the two-dimensional
/// kernel.
pub fn max_pool1d_with_indices_backward_from_2d<E: FloatElement, B: Backend<E>>(
    x: &Tensor<E>,
    kernel_size: usize,
    stride: usize,
    padding: usize,
    dilation: usize,
    output_grad: &Tensor<E>,
    indices: &Tensor<i64>,
) -> (r: Tensor<E>)
    requires
        x.wf(),
        output_grad.wf(),
        indices.wf(),
        x.dims().len() == 3,
        output_grad.dims().len() == 3,
        indices.rep().shape.len() == 3,
    ensures
        r.wf(),
        ({
            let wide = B::max_pool2d_with_indices_backward_v(
                reshape_rep(x.rep(), widen3(x.dims())),
                [kernel_size, 1],
                [stride, 1],
                [padding, 0],
                [dilation, 1],
                reshape_rep(output_grad.rep(), widen3(output_grad.dims())),
                reshape_rep(indices.rep(), widen3(indices.rep().shape)),
            );
            r.rep() == reshape_rep(wide, narrow4(wide.shape))
        }),
{
    proof {
        lemma_widen3(x.dims());
        lemma_widen3(output_grad.dims());
        lemma_widen3(indices.rep().shape);
    }
    let x4 = widen_to_4(x);
    let g4 = widen_to_4(output_grad);
    let i4 = widen_to_4(indices);
    let back = B::max_pool2d_with_indices_backward(&x4, [kernel_size, 1], [stride, 1],
        [padding, 0], [dilation, 1], &g4, &i4);
    proof {
        assert(back.rep().shape[3] == 1);
        assert(back.rep().shape[2] * back.rep().shape[3] == back.rep().shape[2]);
    }
    narrow_to_3(back)
}

/// A rank-three tensor read as rank four with a trailing unit dimension.
fn widen_to_4<E: Element>(x: &Tensor<E>) -> (r: Tensor<E>)
    requires
        x.wf(),
        x.dims().len() == 3,
    ensures
        r.wf(),
        r.rep() == reshape_rep(x.rep(), widen3(x.dims())),
{
    proof {
        lemma_widen3(x.dims());
    }
    let xs = x.shape_of();
    let mut wide_shape: Vec<usize> = Vec::new();
    wide_shape.push(xs[0]);
    wide_shape.push(xs[1]);
    wide_shape.push(xs[2]);
    wide_shape.push(1);
    proof {
        assert(wide_shape@ =~= widen3(x.dims()));
    }
    x.duplicate().reshape(wide_shape)
}

/// A rank-three tensor read as rank four with a unit dimension before the
/// length.
fn widen_to_4_front<E: Element>(x: &Tensor<E>) -> (r: Tensor<E>)
    requires
        x.wf(),
        x.dims().len() == 3,
    ensures
        r.wf(),
        r.rep() == reshape_rep(x.rep(), widen3_front(x.dims())),
{
    proof {
        lemma_widen3(x.dims());
    }
    let xs = x.shape_of();
    let mut wide_shape: Vec<usize> = Vec::new();
    wide_shape.push(xs[0]);
    wide_shape.push(xs[1]);
    wide_shape.push(1);
    wide_shape.push(xs[2]);
    proof {
        assert(wide_shape@ =~= widen3_front(x.dims()));
    }
    x.duplicate().reshape(wide_shape)
}

/// A rank-four tensor read as rank three, its last two dimensions folded
/// into one.
fn narrow_to_3<E: Element>(x: Tensor<E>) -> (r: Tensor<E>)
    requires
        x.wf(),
        x.dims().len() == 4,
        x.dims()[2] * x.dims()[3] <= usize::MAX,
    ensures
        r.wf(),
        r.rep() == reshape_rep(x.rep(), narrow4(x.dims())),
{
    let xs = x.shape_of();
    let w = xs[2] * xs[3];
    let mut s3: Vec<usize> = Vec::new();
    s3.push(xs[0]);
    s3.push(xs[1]);
    s3.push(w);
    proof {
        assert(s3@ =~= narrow4(x.dims()));
        lemma_narrow_prod(x.dims());
    }
    x.reshape(s3)
}

/// Folding the last two dimensions keeps the element count.
proof fn lemma_narrow_prod(s: Seq<usize>)
    requires
        s.len() == 4,
        s[2] * s[3] <= usize::MAX,
    ensures
        prod(narrow4(s)) == prod(s),
{
    let p2 = seq![s[0], s[1]];
    let n3 = narrow4(s);
    assert(n3.drop_last() =~= p2);
    assert(n3.last() == (s[2] * s[3]) as usize);
    assert(prod(n3) == prod(p2) * ((s[2] * s[3]) as usize));
    let d3 = seq![s[0], s[1], s[2]];
    assert(s.drop_last() =~= d3);
    assert(s.last() == s[3]);
    assert(d3.drop_last() =~= p2);
    assert(d3.last() == s[2]);
    assert(prod(d3) == prod(p2) * s[2]);
    assert(prod(s) == (prod(p2) * s[2]) * s[3]);
    assert((prod(p2) * s[2]) * s[3] == prod(p2) * (s[2] * s[3])) by (nonlinear_arith);
}

} // verus!

