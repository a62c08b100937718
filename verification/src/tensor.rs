use vstd::prelude::*;

use crate::element::{Element, FloatElement};
use crate::shape::{
    coords_of, flatten, idx_view, in_bounds, lemma_flatten, lemma_prod_sign, lemma_unflatten,
    pos_of, prod, unflatten,
};

verus! {

/// The mathematical value of a tensor: its dimensions and its elements in
/// row-major order. Contracts speak of tensors through this type.
pub struct TensorRep<E> {
    /// Dimensions, outermost first.
    pub shape: Seq<usize>,
    /// Elements in row-major order.
    pub data: Seq<E>,
}

/// A tensor value holds as many elements as its dimensions announce.
pub open spec fn rep_wf<E>(r: TensorRep<E>) -> bool {
    r.data.len() == prod(r.shape)
}

/// The element of `r` at multi-index `idx`.
pub open spec fn rep_at<E>(r: TensorRep<E>, idx: Seq<int>) -> E {
    r.data[flatten(r.shape, idx)]
}

/// Two dimension lists that broadcast together: equal rank, and every
/// dimension pair is equal or has a one on either side.
pub open spec fn bc_compat(a: Seq<usize>, b: Seq<usize>) -> bool {
    a.len() == b.len() && forall|i: int|
        0 <= i < a.len() ==> #[trigger] a[i] == b[i] || a[i] == 1 || b[i] == 1
}

/// The dimensions of the broadcast result.
pub open spec fn bc_shape(a: Seq<usize>, b: Seq<usize>) -> Seq<usize> {
    Seq::new(a.len(), |i: int| if a[i] == 1 { b[i] } else { a[i] })
}

/// The multi-index of the cell of a broadcast operand that feeds the output
/// cell `idx`: dimensions of extent one read their only entry.
pub open spec fn bc_src(sh: Seq<usize>, idx: Seq<int>) -> Seq<int> {
    Seq::new(sh.len(), |i: int| if sh[i] == 1 { 0 } else { idx[i] })
}

/// Pointwise combination of two tensors under broadcasting, by `g`.
pub open spec fn zip_rep<E>(a: TensorRep<E>, b: TensorRep<E>, g: spec_fn(E, E) -> E) -> TensorRep<
    E,
> {
    let sh = bc_shape(a.shape, b.shape);
    TensorRep {
        shape: sh,
        data: Seq::new(
            prod(sh) as nat,
            |k: int|
                g(
                    rep_at(a, bc_src(a.shape, unflatten(sh, k))),
                    rep_at(b, bc_src(b.shape, unflatten(sh, k))),
                ),
        ),
    }
}

/// Pointwise image of a tensor under `g`.
pub open spec fn map_rep<E>(a: TensorRep<E>, g: spec_fn(E) -> E) -> TensorRep<E> {
    TensorRep { shape: a.shape, data: Seq::new(a.data.len(), |k: int| g(a.data[k])) }
}

/// A dense tensor with dynamically many dimensions, in row-major layout.
pub struct Tensor<E> {
    shape: Vec<usize>,
    data: Vec<E>,
}

impl<E: Element> Tensor<E> {
    /// Dimensions, outermost first.
    pub closed spec fn dims(&self) -> Seq<usize> {
        self.shape@
    }

    /// Elements in row-major order.
    pub closed spec fn elems(&self) -> Seq<E> {
        self.data@
    }

    /// The mathematical value of this tensor.
    pub open spec fn rep(&self) -> TensorRep<E> {
        TensorRep { shape: self.dims(), data: self.elems() }
    }

    /// The element count matches the dimensions.
    pub open spec fn wf(&self) -> bool {
        rep_wf(self.rep())
    }

    /// Builds a tensor from its dimensions and row-major elements; answers
    /// nothing exactly when the element count does not match the dimensions.
    pub fn from_parts(shape: Vec<usize>, data: Vec<E>) -> (r: Option<Tensor<E>>)
        ensures
            match r {
                Some(t) => t.dims() == shape@ && t.elems() == data@ && t.wf() && prod(shape@)
                    == data@.len(),
                None => prod(shape@) != data@.len(),
            },
    {
        let dl = data.len();
        let n = num_elements(&shape);
        match n {
            Some(n) if n == dl => Some(Tensor { shape, data }),
            _ => None,
        }
    }

    /// The dimensions, as a fresh vector.
    pub fn shape_of(&self) -> (r: Vec<usize>)
        ensures
            r@ == self.dims(),
    {
        let mut r: Vec<usize> = Vec::new();
        let mut i: usize = 0;
        while i < self.shape.len()
            invariant
                i <= self.shape@.len(),
                r@ =~= self.shape@.take(i as int),
            decreases self.shape@.len() - i,
        {
            r.push(self.shape[i]);
            i = i + 1;
        }
        proof {
            assert(self.shape@.take(self.shape@.len() as int) =~= self.shape@);
        }
        r
    }

    /// The number of elements.
    pub fn len(&self) -> (r: usize)
        ensures
            r == self.elems().len(),
    {
        self.data.len()
    }

    /// The element at row-major position `p`.
    pub fn elem_at(&self, p: usize) -> (r: E)
        requires
            p < self.elems().len(),
        ensures
            r == self.elems()[p as int],
    {
        self.data[p]
    }

    /// The elements in row-major order, consuming the tensor.
    pub fn into_data(self) -> (r: Vec<E>)
        ensures
            r@ == self.elems(),
    {
        self.data
    }

    /// An identical copy.
    pub fn duplicate(&self) -> (r: Tensor<E>)
        ensures
            r.rep() == self.rep(),
            r.wf() == self.wf(),
    {
        let mut data: Vec<E> = Vec::new();
        let mut i: usize = 0;
        while i < self.data.len()
            invariant
                i <= self.data@.len(),
                data@ =~= self.data@.take(i as int),
            decreases self.data@.len() - i,
        {
            data.push(self.data[i]);
            i = i + 1;
        }
        proof {
            assert(self.data@.take(self.data@.len() as int) =~= self.data@);
        }
        let r = Tensor { shape: self.shape_of(), data };
        proof {
            assert(r.rep() =~= self.rep());
        }
        r
    }
}

/// The element count that `shape` announces, if it fits a machine word.
pub fn num_elements(shape: &Vec<usize>) -> (r: Option<usize>)
    ensures
        match r {
            Some(n) => n == prod(shape@),
            None => prod(shape@) > usize::MAX,
        },
{
    let mut i: usize = 0;
    while i < shape.len()
        invariant
            i <= shape@.len(),
            forall|j: int| 0 <= j < i ==> shape@[j] > 0,
        decreases shape@.len() - i,
    {
        if shape[i] == 0 {
            proof {
                lemma_prod_sign(shape@);
            }
            return Some(0);
        }
        i = i + 1;
    }
    let mut acc: usize = 1;
    i = 0;
    while i < shape.len()
        invariant
            i <= shape@.len(),
            forall|j: int| 0 <= j < shape@.len() ==> shape@[j] > 0,
            acc == prod(shape@.take(i as int)),
        decreases shape@.len() - i,
    {
        proof {
            assert(shape@.take(i as int + 1).drop_last() =~= shape@.take(i as int));
            assert(shape@.take(i as int + 1).last() == shape@[i as int]);
        }
        let next = acc.checked_mul(shape[i]);
        match next {
            Some(v) => {
                acc = v;
            },
            None => {
                proof {
                    lemma_prod_grows(shape@, i as int + 1);
                }
                return None;
            },
        }
        i = i + 1;
    }
    proof {
        assert(shape@.take(shape@.len() as int) =~= shape@);
    }
    Some(acc)
}

/// Once a prefix of all-positive dimensions overflows, the whole count does.
proof fn lemma_prod_grows(s: Seq<usize>, i: int)
    requires
        0 <= i <= s.len(),
        prod(s.take(i)) > usize::MAX,
        forall|j: int| 0 <= j < s.len() ==> s[j] > 0,
    ensures
        prod(s) > usize::MAX,
    decreases s.len() - i,
{
    if i == s.len() {
        assert(s.take(i) =~= s);
    } else {
        assert(s.take(i + 1).drop_last() =~= s.take(i));
        assert(s.take(i + 1).last() == s[i]);
        assert(prod(s.take(i + 1)) == prod(s.take(i)) * s[i]);
        assert(prod(s.take(i + 1)) >= prod(s.take(i))) by (nonlinear_arith)
            requires
                prod(s.take(i + 1)) == prod(s.take(i)) * s[i],
                s[i] >= 1,
                prod(s.take(i)) >= 0,
        ;
        lemma_prod_grows(s, i + 1);
    }
}


/// The broadcast cell that feeds output cell `idx` is in bounds whenever
/// `idx` is in bounds for the broadcast result.
pub proof fn lemma_bc_src_bounds(sh: Seq<usize>, other: Seq<usize>, idx: Seq<int>)
    requires
        bc_compat(sh, other),
        in_bounds(bc_shape(sh, other), idx) || in_bounds(bc_shape(other, sh), idx),
    ensures
        in_bounds(sh, bc_src(sh, idx)),
{
    let src = bc_src(sh, idx);
    assert forall|i: int| 0 <= i < sh.len() implies 0 <= #[trigger] src[i] < sh[i] by {
        if sh[i] == 1 {
        } else {
            assert(0 <= idx[i]);
            if in_bounds(bc_shape(sh, other), idx) {
                assert(idx[i] < bc_shape(sh, other)[i]);
            } else {
                assert(idx[i] < bc_shape(other, sh)[i]);
            }
        }
    }
}

impl<E: Element> Tensor<E> {
    /// Pointwise combination with `o` under broadcasting. The closure `f`
    /// must behave as the mathematical function `g`.
    fn zip_with<F: Fn(E, E) -> E>(
        &self,
        o: &Tensor<E>,
        f: F,
        Ghost(g): Ghost<spec_fn(E, E) -> E>,
    ) -> (r: Tensor<E>)
        requires
            self.wf(),
            o.wf(),
            bc_compat(self.dims(), o.dims()),
            prod(bc_shape(self.dims(), o.dims())) <= usize::MAX,
            forall|x: E, y: E| #[trigger] f.requires((x, y)),
            forall|x: E, y: E, z: E| #[trigger] f.ensures((x, y), z) ==> z == g(x, y),
        ensures
            r.wf(),
            r.rep() == zip_rep(self.rep(), o.rep(), g),
    {
        let na = self.data.len();
        let nb = o.data.len();
        proof {
            assert(prod(self.dims()) == na && prod(o.dims()) == nb);
        }
        let ghost sh = bc_shape(self.dims(), o.dims());
        let mut out_shape: Vec<usize> = Vec::new();
        let mut i: usize = 0;
        while i < self.shape.len()
            invariant
                i <= self.shape@.len(),
                self.shape@.len() == o.shape@.len(),
                sh == bc_shape(self.shape@, o.shape@),
                out_shape@ =~= sh.take(i as int),
            decreases self.shape@.len() - i,
        {
            if self.shape[i] == 1 {
                out_shape.push(o.shape[i]);
            } else {
                out_shape.push(self.shape[i]);
            }
            i = i + 1;
        }
        proof {
            assert(out_shape@ =~= sh);
        }
        let n = match num_elements(&out_shape) {
            Some(n) => n,
            None => {
                proof {
                    assert(false);
                }
                unreached()
            },
        };
        let mut data: Vec<E> = Vec::new();
        let mut k: usize = 0;
        while k < n
            invariant
                k <= n,
                n == prod(sh),
                out_shape@ == sh,
                sh == bc_shape(self.dims(), o.dims()),
                self.wf(),
                o.wf(),
                prod(self.dims()) <= usize::MAX,
                prod(o.dims()) <= usize::MAX,
                bc_compat(self.dims(), o.dims()),
                forall|x: E, y: E| #[trigger] f.requires((x, y)),
                forall|x: E, y: E, z: E| #[trigger] f.ensures((x, y), z) ==> z == g(x, y),
                data@.len() == k,
                forall|j: int| 0 <= j < k ==> #[trigger] data@[j] == zip_rep(
                    self.rep(),
                    o.rep(),
                    g,
                ).data[j],
            decreases n - k,
        {
            let idx = coords_of(&out_shape, k);
            proof {
                lemma_bc_src_bounds(self.dims(), o.dims(), idx_view(idx@));
                lemma_bc_src_bounds(o.dims(), self.dims(), idx_view(idx@));
            }
            let pa = src_pos(&self.shape, &idx);
            let pb = src_pos(&o.shape, &idx);
            let v = f(self.data[pa], o.data[pb]);
            proof {
                assert(v == g(
                    rep_at(self.rep(), bc_src(self.dims(), unflatten(sh, k as int))),
                    rep_at(o.rep(), bc_src(o.dims(), unflatten(sh, k as int))),
                ));
            }
            data.push(v);
            k = k + 1;
        }
        let r = Tensor { shape: out_shape, data };
        proof {
            assert(r.rep().data =~= zip_rep(self.rep(), o.rep(), g).data);
            assert(r.rep() =~= zip_rep(self.rep(), o.rep(), g));
        }
        r
    }

    /// Pointwise image under `f`, which must behave as the mathematical
    /// function `g`.
    fn map_with<F: Fn(E) -> E>(&self, f: F, Ghost(g): Ghost<spec_fn(E) -> E>) -> (r: Tensor<E>)
        requires
            self.wf(),
            forall|x: E| #[trigger] f.requires((x,)),
            forall|x: E, z: E| #[trigger] f.ensures((x,), z) ==> z == g(x),
        ensures
            r.wf(),
            r.rep() == map_rep(self.rep(), g),
    {
        let mut data: Vec<E> = Vec::new();
        let mut k: usize = 0;
        while k < self.data.len()
            invariant
                k <= self.data@.len(),
                forall|x: E| #[trigger] f.requires((x,)),
                forall|x: E, z: E| #[trigger] f.ensures((x,), z) ==> z == g(x),
                data@.len() == k,
                forall|j: int| 0 <= j < k ==> #[trigger] data@[j] == g(self.data@[j]),
            decreases self.data@.len() - k,
        {
            let v = f(self.data[k]);
            data.push(v);
            k = k + 1;
        }
        let r = Tensor { shape: self.shape_of(), data };
        proof {
            assert(r.rep().data =~= map_rep(self.rep(), g).data);
            assert(r.rep() =~= map_rep(self.rep(), g));
        }
        r
    }
}

/// Position of the broadcast-source cell of `idx` inside `shape`.
fn src_pos(shape: &Vec<usize>, idx: &Vec<usize>) -> (r: usize)
    requires
        prod(shape@) <= usize::MAX,
        idx@.len() == shape@.len(),
        in_bounds(shape@, bc_src(shape@, idx_view(idx@))),
    ensures
        r == flatten(shape@, bc_src(shape@, idx_view(idx@))),
        r < prod(shape@),
{
    let mut c: Vec<usize> = Vec::new();
    let mut j: usize = 0;
    while j < shape.len()
        invariant
            j <= shape@.len(),
            idx@.len() == shape@.len(),
            c@.len() == j,
            forall|t: int| 0 <= t < j ==> #[trigger] c@[t] == (if shape@[t] == 1 {
                0
            } else {
                idx@[t]
            }),
        decreases shape@.len() - j,
    {
        if shape[j] == 1 {
            c.push(0);
        } else {
            c.push(idx[j]);
        }
        j = j + 1;
    }
    proof {
        assert forall|t: int| 0 <= t < shape@.len() implies idx_view(c@)[t] == bc_src(
            shape@,
            idx_view(idx@),
        )[t] by {
            assert(idx_view(c@)[t] == c@[t] as int);
        }
        assert(idx_view(c@) =~= bc_src(shape@, idx_view(idx@)));
    }
    pos_of(shape, &c)
}

/// Pointwise sums of two tensors under broadcasting.
pub open spec fn add_rep<E: Element>(a: TensorRep<E>, b: TensorRep<E>) -> TensorRep<E> {
    let sh = bc_shape(a.shape, b.shape);
    TensorRep {
        shape: sh,
        data: Seq::new(
            prod(sh) as nat,
            |k: int|
                rep_at(a, bc_src(a.shape, unflatten(sh, k))).add_v(
                    rep_at(b, bc_src(b.shape, unflatten(sh, k))),
                ),
        ),
    }
}

/// Pointwise differences of two tensors under broadcasting.
pub open spec fn sub_rep<E: Element>(a: TensorRep<E>, b: TensorRep<E>) -> TensorRep<E> {
    let sh = bc_shape(a.shape, b.shape);
    TensorRep {
        shape: sh,
        data: Seq::new(
            prod(sh) as nat,
            |k: int|
                rep_at(a, bc_src(a.shape, unflatten(sh, k))).sub_v(
                    rep_at(b, bc_src(b.shape, unflatten(sh, k))),
                ),
        ),
    }
}

/// Pointwise products of two tensors under broadcasting.
pub open spec fn mul_rep<E: Element>(a: TensorRep<E>, b: TensorRep<E>) -> TensorRep<E> {
    let sh = bc_shape(a.shape, b.shape);
    TensorRep {
        shape: sh,
        data: Seq::new(
            prod(sh) as nat,
            |k: int|
                rep_at(a, bc_src(a.shape, unflatten(sh, k))).mul_v(
                    rep_at(b, bc_src(b.shape, unflatten(sh, k))),
                ),
        ),
    }
}

/// Pointwise quotients of two tensors under broadcasting.
pub open spec fn div_rep<E: Element>(a: TensorRep<E>, b: TensorRep<E>) -> TensorRep<E> {
    let sh = bc_shape(a.shape, b.shape);
    TensorRep {
        shape: sh,
        data: Seq::new(
            prod(sh) as nat,
            |k: int|
                rep_at(a, bc_src(a.shape, unflatten(sh, k))).div_v(
                    rep_at(b, bc_src(b.shape, unflatten(sh, k))),
                ),
        ),
    }
}

/// Pointwise sum of a tensor with one element.
pub open spec fn add_scalar_rep<E: Element>(a: TensorRep<E>, s: E) -> TensorRep<E> {
    TensorRep { shape: a.shape, data: Seq::new(a.data.len(), |k: int| a.data[k].add_v(s)) }
}

/// Pointwise difference of a tensor with one element.
pub open spec fn sub_scalar_rep<E: Element>(a: TensorRep<E>, s: E) -> TensorRep<E> {
    TensorRep { shape: a.shape, data: Seq::new(a.data.len(), |k: int| a.data[k].sub_v(s)) }
}

/// Pointwise product of a tensor with one element.
pub open spec fn mul_scalar_rep<E: Element>(a: TensorRep<E>, s: E) -> TensorRep<E> {
    TensorRep { shape: a.shape, data: Seq::new(a.data.len(), |k: int| a.data[k].mul_v(s)) }
}

/// Pointwise quotient of a tensor with one element.
pub open spec fn div_scalar_rep<E: Element>(a: TensorRep<E>, s: E) -> TensorRep<E> {
    TensorRep { shape: a.shape, data: Seq::new(a.data.len(), |k: int| a.data[k].div_v(s)) }
}

/// Pointwise negation of a tensor.
pub open spec fn neg_rep<E: Element>(a: TensorRep<E>) -> TensorRep<E> {
    TensorRep { shape: a.shape, data: Seq::new(a.data.len(), |k: int| a.data[k].neg_v()) }
}

impl<E: Element> Tensor<E> {
    /// Pointwise sums with `o`, under broadcasting.
    pub fn add(&self, o: &Tensor<E>) -> (r: Tensor<E>)
        requires
            self.wf(),
            o.wf(),
            bc_compat(self.dims(), o.dims()),
            prod(bc_shape(self.dims(), o.dims())) <= usize::MAX,
        ensures
            r.wf(),
            r.rep() == add_rep(self.rep(), o.rep()),
    {
        let ghost g = |x: E, y: E| x.add_v(y);
        let r = self.zip_with(
            o,
            (|x: E, y: E| -> (z: E)
                ensures
                    z == x.add_v(y),
                { x.add(y) }),
            Ghost(g),
        );
        proof {
            let want = add_rep(self.rep(), o.rep());
            assert forall|k: int| 0 <= k < r.elems().len() implies r.elems()[k] == want.data[k] by {}
            assert(r.rep().data =~= want.data);
            assert(r.rep() =~= want);
        }
        r
    }

    /// Pointwise differences with `o`, under broadcasting.
    pub fn sub(&self, o: &Tensor<E>) -> (r: Tensor<E>)
        requires
            self.wf(),
            o.wf(),
            bc_compat(self.dims(), o.dims()),
            prod(bc_shape(self.dims(), o.dims())) <= usize::MAX,
        ensures
            r.wf(),
            r.rep() == sub_rep(self.rep(), o.rep()),
    {
        let ghost g = |x: E, y: E| x.sub_v(y);
        let r = self.zip_with(
            o,
            (|x: E, y: E| -> (z: E)
                ensures
                    z == x.sub_v(y),
                { x.sub(y) }),
            Ghost(g),
        );
        proof {
            let want = sub_rep(self.rep(), o.rep());
            assert forall|k: int| 0 <= k < r.elems().len() implies r.elems()[k] == want.data[k] by {}
            assert(r.rep().data =~= want.data);
            assert(r.rep() =~= want);
        }
        r
    }

    /// Pointwise products with `o`, under broadcasting.
    pub fn mul(&self, o: &Tensor<E>) -> (r: Tensor<E>)
        requires
            self.wf(),
            o.wf(),
            bc_compat(self.dims(), o.dims()),
            prod(bc_shape(self.dims(), o.dims())) <= usize::MAX,
        ensures
            r.wf(),
            r.rep() == mul_rep(self.rep(), o.rep()),
    {
        let ghost g = |x: E, y: E| x.mul_v(y);
        let r = self.zip_with(
            o,
            (|x: E, y: E| -> (z: E)
                ensures
                    z == x.mul_v(y),
                { x.mul(y) }),
            Ghost(g),
        );
        proof {
            let want = mul_rep(self.rep(), o.rep());
            assert forall|k: int| 0 <= k < r.elems().len() implies r.elems()[k] == want.data[k] by {}
            assert(r.rep().data =~= want.data);
            assert(r.rep() =~= want);
        }
        r
    }

    /// Pointwise quotients with `o`, under broadcasting.
    pub fn div(&self, o: &Tensor<E>) -> (r: Tensor<E>)
        requires
            self.wf(),
            o.wf(),
            bc_compat(self.dims(), o.dims()),
            prod(bc_shape(self.dims(), o.dims())) <= usize::MAX,
        ensures
            r.wf(),
            r.rep() == div_rep(self.rep(), o.rep()),
    {
        let ghost g = |x: E, y: E| x.div_v(y);
        let r = self.zip_with(
            o,
            (|x: E, y: E| -> (z: E)
                ensures
                    z == x.div_v(y),
                { x.div(y) }),
            Ghost(g),
        );
        proof {
            let want = div_rep(self.rep(), o.rep());
            assert forall|k: int| 0 <= k < r.elems().len() implies r.elems()[k] == want.data[k] by {}
            assert(r.rep().data =~= want.data);
            assert(r.rep() =~= want);
        }
        r
    }

    /// Pointwise sum with the element `s`.
    pub fn add_scalar(&self, s: E) -> (r: Tensor<E>)
        requires
            self.wf(),
        ensures
            r.wf(),
            r.rep() == add_scalar_rep(self.rep(), s),
    {
        let ghost g = |x: E| x.add_v(s);
        let r = self.map_with(
            (|x: E| -> (z: E)
                ensures
                    z == x.add_v(s),
                { x.add(s) }),
            Ghost(g),
        );
        proof {
            let want = add_scalar_rep(self.rep(), s);
            assert forall|k: int| 0 <= k < r.elems().len() implies r.elems()[k] == want.data[k] by {}
            assert(r.rep().data =~= want.data);
            assert(r.rep() =~= want);
        }
        r
    }

    /// Pointwise difference with the element `s`.
    pub fn sub_scalar(&self, s: E) -> (r: Tensor<E>)
        requires
            self.wf(),
        ensures
            r.wf(),
            r.rep() == sub_scalar_rep(self.rep(), s),
    {
        let ghost g = |x: E| x.sub_v(s);
        let r = self.map_with(
            (|x: E| -> (z: E)
                ensures
                    z == x.sub_v(s),
                { x.sub(s) }),
            Ghost(g),
        );
        proof {
            let want = sub_scalar_rep(self.rep(), s);
            assert forall|k: int| 0 <= k < r.elems().len() implies r.elems()[k] == want.data[k] by {}
            assert(r.rep().data =~= want.data);
            assert(r.rep() =~= want);
        }
        r
    }

    /// Pointwise product with the element `s`.
    pub fn mul_scalar(&self, s: E) -> (r: Tensor<E>)
        requires
            self.wf(),
        ensures
            r.wf(),
            r.rep() == mul_scalar_rep(self.rep(), s),
    {
        let ghost g = |x: E| x.mul_v(s);
        let r = self.map_with(
            (|x: E| -> (z: E)
                ensures
                    z == x.mul_v(s),
                { x.mul(s) }),
            Ghost(g),
        );
        proof {
            let want = mul_scalar_rep(self.rep(), s);
            assert forall|k: int| 0 <= k < r.elems().len() implies r.elems()[k] == want.data[k] by {}
            assert(r.rep().data =~= want.data);
            assert(r.rep() =~= want);
        }
        r
    }

    /// Pointwise quotient with the element `s`.
    pub fn div_scalar(&self, s: E) -> (r: Tensor<E>)
        requires
            self.wf(),
        ensures
            r.wf(),
            r.rep() == div_scalar_rep(self.rep(), s),
    {
        let ghost g = |x: E| x.div_v(s);
        let r = self.map_with(
            (|x: E| -> (z: E)
                ensures
                    z == x.div_v(s),
                { x.div(s) }),
            Ghost(g),
        );
        proof {
            let want = div_scalar_rep(self.rep(), s);
            assert forall|k: int| 0 <= k < r.elems().len() implies r.elems()[k] == want.data[k] by {}
            assert(r.rep().data =~= want.data);
            assert(r.rep() =~= want);
        }
        r
    }

    /// Pointwise negation.
    pub fn neg(&self) -> (r: Tensor<E>)
        requires
            self.wf(),
        ensures
            r.wf(),
            r.rep() == neg_rep(self.rep()),
    {
        let ghost g = |x: E| x.neg_v();
        let r = self.map_with(
            (|x: E| -> (z: E)
                ensures
                    z == x.neg_v(),
                { x.neg() }),
            Ghost(g),
        );
        proof {
            let want = neg_rep(self.rep());
            assert forall|k: int| 0 <= k < r.elems().len() implies r.elems()[k] == want.data[k] by {}
            assert(r.rep().data =~= want.data);
            assert(r.rep() =~= want);
        }
        r
    }
}

/// Pointwise exponential of a tensor.
pub open spec fn exp_rep<E: FloatElement>(a: TensorRep<E>) -> TensorRep<E> {
    TensorRep { shape: a.shape, data: Seq::new(a.data.len(), |k: int| a.data[k].exp_v()) }
}

/// Pointwise natural logarithm of a tensor.
pub open spec fn log_rep<E: FloatElement>(a: TensorRep<E>) -> TensorRep<E> {
    TensorRep { shape: a.shape, data: Seq::new(a.data.len(), |k: int| a.data[k].log_v()) }
}

/// Pointwise sine of a tensor.
pub open spec fn sin_rep<E: FloatElement>(a: TensorRep<E>) -> TensorRep<E> {
    TensorRep { shape: a.shape, data: Seq::new(a.data.len(), |k: int| a.data[k].sin_v()) }
}

/// Pointwise cosine of a tensor.
pub open spec fn cos_rep<E: FloatElement>(a: TensorRep<E>) -> TensorRep<E> {
    TensorRep { shape: a.shape, data: Seq::new(a.data.len(), |k: int| a.data[k].cos_v()) }
}

/// Pointwise power of a tensor with one exponent.
pub open spec fn powf_scalar_rep<E: FloatElement>(a: TensorRep<E>, e: E) -> TensorRep<E> {
    TensorRep { shape: a.shape, data: Seq::new(a.data.len(), |k: int| a.data[k].powf_v(e)) }
}

impl<E: FloatElement> Tensor<E> {
    /// Pointwise exponential.
    pub fn exp(&self) -> (r: Tensor<E>)
        requires
            self.wf(),
        ensures
            r.wf(),
            r.rep() == exp_rep(self.rep()),
    {
        let ghost g = |x: E| x.exp_v();
        let r = self.map_with(
            (|x: E| -> (z: E)
                ensures
                    z == x.exp_v(),
                { x.exp() }),
            Ghost(g),
        );
        proof {
            let want = exp_rep(self.rep());
            assert forall|k: int| 0 <= k < r.elems().len() implies r.elems()[k] == want.data[k] by {}
            assert(r.rep().data =~= want.data);
            assert(r.rep() =~= want);
        }
        r
    }

    /// Pointwise natural logarithm.
    pub fn log(&self) -> (r: Tensor<E>)
        requires
            self.wf(),
        ensures
            r.wf(),
            r.rep() == log_rep(self.rep()),
    {
        let ghost g = |x: E| x.log_v();
        let r = self.map_with(
            (|x: E| -> (z: E)
                ensures
                    z == x.log_v(),
                { x.log() }),
            Ghost(g),
        );
        proof {
            let want = log_rep(self.rep());
            assert forall|k: int| 0 <= k < r.elems().len() implies r.elems()[k] == want.data[k] by {}
            assert(r.rep().data =~= want.data);
            assert(r.rep() =~= want);
        }
        r
    }

    /// Pointwise sine.
    pub fn sin(&self) -> (r: Tensor<E>)
        requires
            self.wf(),
        ensures
            r.wf(),
            r.rep() == sin_rep(self.rep()),
    {
        let ghost g = |x: E| x.sin_v();
        let r = self.map_with(
            (|x: E| -> (z: E)
                ensures
                    z == x.sin_v(),
                { x.sin() }),
            Ghost(g),
        );
        proof {
            let want = sin_rep(self.rep());
            assert forall|k: int| 0 <= k < r.elems().len() implies r.elems()[k] == want.data[k] by {}
            assert(r.rep().data =~= want.data);
            assert(r.rep() =~= want);
        }
        r
    }

    /// Pointwise cosine.
    pub fn cos(&self) -> (r: Tensor<E>)
        requires
            self.wf(),
        ensures
            r.wf(),
            r.rep() == cos_rep(self.rep()),
    {
        let ghost g = |x: E| x.cos_v();
        let r = self.map_with(
            (|x: E| -> (z: E)
                ensures
                    z == x.cos_v(),
                { x.cos() }),
            Ghost(g),
        );
        proof {
            let want = cos_rep(self.rep());
            assert forall|k: int| 0 <= k < r.elems().len() implies r.elems()[k] == want.data[k] by {}
            assert(r.rep().data =~= want.data);
            assert(r.rep() =~= want);
        }
        r
    }

    /// Pointwise power with the exponent `e`.
    pub fn powf_scalar(&self, e: E) -> (r: Tensor<E>)
        requires
            self.wf(),
        ensures
            r.wf(),
            r.rep() == powf_scalar_rep(self.rep(), e),
    {
        let ghost g = |x: E| x.powf_v(e);
        let r = self.map_with(
            (|x: E| -> (z: E)
                ensures
                    z == x.powf_v(e),
                { x.powf(e) }),
            Ghost(g),
        );
        proof {
            let want = powf_scalar_rep(self.rep(), e);
            assert forall|k: int| 0 <= k < r.elems().len() implies r.elems()[k] == want.data[k] by {}
            assert(r.rep().data =~= want.data);
            assert(r.rep() =~= want);
        }
        r
    }
}


/// Updating one dimension scales the element count accordingly.
pub proof fn lemma_prod_update(s: Seq<usize>, i: int, v: usize)
    requires
        0 <= i < s.len(),
    ensures
        prod(s.update(i, v)) * s[i] == prod(s) * v,
    decreases s.len(),
{
    if i == s.len() - 1 {
        assert(s.update(i, v).drop_last() =~= s.drop_last());
        assert(s.update(i, v).last() == v);
        let p = prod(s.drop_last());
        assert((p * v) * s[i] == (p * s[i]) * v) by (nonlinear_arith);
    } else {
        assert(s.update(i, v).drop_last() =~= s.drop_last().update(i, v));
        assert(s.update(i, v).last() == s.last());
        lemma_prod_update(s.drop_last(), i, v);
        let a = prod(s.drop_last().update(i, v));
        let b = prod(s.drop_last());
        let l = s.last() as int;
        let si = s[i] as int;
        assert(a * si == b * (v as int));
        assert((a * l) * si == (b * l) * (v as int)) by (nonlinear_arith)
            requires
                a * si == b * (v as int),
        ;
    }
}

/// Swapping two dimensions leaves the element count unchanged.
pub proof fn lemma_prod_swap(s: Seq<usize>, d1: int, d2: int)
    requires
        0 <= d1 < s.len(),
        0 <= d2 < s.len(),
    ensures
        prod(s.update(d1, s[d2]).update(d2, s[d1])) == prod(s),
{
    if d1 == d2 {
        assert(s.update(d1, s[d2]).update(d2, s[d1]) =~= s);
    } else {
        let s1 = s.update(d1, s[d2]);
        let s2 = s1.update(d2, s[d1]);
        lemma_prod_update(s, d1, s[d2]);
        lemma_prod_update(s1, d2, s[d1]);
        assert(s1[d2] == s[d2]);
        lemma_prod_sign(s);
        lemma_prod_sign(s1);
        lemma_prod_sign(s2);
        if s[d2] == 0 {
            assert(s2[d1] == s[d2]);
            assert(prod(s2) == 0 && prod(s) == 0) by {
                assert(!(forall|i: int| 0 <= i < s.len() ==> s[i] > 0)) by {
                    assert(!(s[d2] > 0));
                }
                assert(!(forall|i: int| 0 <= i < s2.len() ==> s2[i] > 0)) by {
                    assert(!(s2[d1] > 0));
                }
            }
        } else {
            assert(prod(s2) * s[d2] == prod(s1) * s[d1]);
            assert(prod(s1) * s[d1] == prod(s) * s[d2]);
            assert(prod(s2) == prod(s)) by (nonlinear_arith)
                requires
                    prod(s2) * s[d2] == prod(s) * s[d2],
                    s[d2] > 0,
            ;
        }
    }
}

/// The same elements read with different dimensions of the same count.
pub open spec fn reshape_rep<E>(a: TensorRep<E>, sh: Seq<usize>) -> TensorRep<E> {
    TensorRep { shape: sh, data: a.data }
}

/// A multi-index with the entries at `d1` and `d2` exchanged.
pub open spec fn swap_at<T>(s: Seq<T>, d1: int, d2: int) -> Seq<T> {
    s.update(d1, s[d2]).update(d2, s[d1])
}

/// The tensor with dimensions `d1` and `d2` exchanged: the cell at `idx`
/// holds the input cell at the exchanged multi-index.
pub open spec fn swap_dims_rep<E>(a: TensorRep<E>, d1: int, d2: int) -> TensorRep<E> {
    let sh = swap_at(a.shape, d1, d2);
    TensorRep {
        shape: sh,
        data: Seq::new(
            prod(sh) as nat,
            |k: int| rep_at(a, swap_at(unflatten(sh, k), d1, d2)),
        ),
    }
}

impl<E: Element> Tensor<E> {
    /// Reads the same elements with new dimensions of the same count.
    pub fn reshape(self, shape: Vec<usize>) -> (r: Tensor<E>)
        requires
            self.wf(),
            prod(shape@) == prod(self.dims()),
        ensures
            r.wf(),
            r.rep() == reshape_rep(self.rep(), shape@),
    {
        Tensor { shape, data: self.data }
    }

    /// Exchanges two dimensions.
    pub fn swap_dims(&self, d1: usize, d2: usize) -> (r: Tensor<E>)
        requires
            self.wf(),
            d1 < self.dims().len(),
            d2 < self.dims().len(),
        ensures
            r.wf(),
            r.rep() == swap_dims_rep(self.rep(), d1 as int, d2 as int),
    {
        let ghost sh = swap_at(self.dims(), d1 as int, d2 as int);
        proof {
            lemma_prod_swap(self.dims(), d1 as int, d2 as int);
        }
        let n = self.data.len();
        let mut out_shape = self.shape_of();
        let v1 = out_shape[d1];
        let v2 = out_shape[d2];
        out_shape.set(d1, v2);
        out_shape.set(d2, v1);
        proof {
            assert(out_shape@ =~= sh);
        }
        let mut data: Vec<E> = Vec::new();
        let mut k: usize = 0;
        while k < n
            invariant
                k <= n,
                n == prod(sh),
                n == self.data@.len(),
                self.wf(),
                d1 < self.dims().len(),
                d2 < self.dims().len(),
                sh == swap_at(self.dims(), d1 as int, d2 as int),
                out_shape@ == sh,
                prod(sh) == prod(self.dims()),
                data@.len() == k,
                forall|j: int| 0 <= j < k ==> #[trigger] data@[j] == swap_dims_rep(
                    self.rep(),
                    d1 as int,
                    d2 as int,
                ).data[j],
            decreases n - k,
        {
            let mut idx = coords_of(&out_shape, k);
            let ghost iv = idx_view(idx@);
            let w1 = idx[d1];
            let w2 = idx[d2];
            idx.set(d1, w2);
            idx.set(d2, w1);
            proof {
                assert(idx_view(idx@) =~= swap_at(iv, d1 as int, d2 as int));
                assert(in_bounds(self.dims(), idx_view(idx@)));
            }
            let p = pos_of(&self.shape, &idx);
            data.push(self.data[p]);
            k = k + 1;
        }
        let r = Tensor { shape: out_shape, data };
        proof {
            assert(r.rep().data =~= swap_dims_rep(self.rep(), d1 as int, d2 as int).data);
            assert(r.rep() =~= swap_dims_rep(self.rep(), d1 as int, d2 as int));
        }
        r
    }

    /// Exchanges the two innermost dimensions.
    pub fn transpose(&self) -> (r: Tensor<E>)
        requires
            self.wf(),
            self.dims().len() >= 2,
        ensures
            r.wf(),
            r.rep() == swap_dims_rep(
                self.rep(),
                self.dims().len() - 2,
                self.dims().len() - 1,
            ),
    {
        self.swap_dims(self.shape.len() - 2, self.shape.len() - 1)
    }
}


/// Left fold of `g` over the elements of a sequence.
pub open spec fn fold_seq<E>(s: Seq<E>, g: spec_fn(E, E) -> E, init: E) -> E
    decreases s.len(),
{
    if s.len() == 0 {
        init
    } else {
        g(fold_seq(s.drop_last(), g, init), s.last())
    }
}

/// Left fold of `g` along dimension `dim` of `r`, over positions `0..j`,
/// holding the other coordinates at `idx`.
pub open spec fn fold_line<E>(
    r: TensorRep<E>,
    idx: Seq<int>,
    dim: int,
    j: int,
    g: spec_fn(E, E) -> E,
    init: E,
) -> E
    decreases j,
{
    if j <= 0 {
        init
    } else {
        g(fold_line(r, idx, dim, j - 1, g, init), rep_at(r, idx.update(dim, j - 1)))
    }
}

impl<E: Element> Tensor<E> {
    /// Folds `f` over all elements, answering a one-cell tensor. The closure
    /// `f` must behave as the mathematical function `g`.
    fn reduce_all_with<F: Fn(E, E) -> E>(&self, f: F, init: E, Ghost(g): Ghost<spec_fn(E, E) -> E>)
        -> (r: Tensor<E>)
        requires
            self.wf(),
            forall|x: E, y: E| #[trigger] f.requires((x, y)),
            forall|x: E, y: E, z: E| #[trigger] f.ensures((x, y), z) ==> z == g(x, y),
        ensures
            r.wf(),
            r.rep().shape =~= seq![1usize],
            r.rep().data =~= seq![fold_seq(self.elems(), g, init)],
    {
        let mut acc = init;
        let mut k: usize = 0;
        while k < self.data.len()
            invariant
                k <= self.data@.len(),
                forall|x: E, y: E| #[trigger] f.requires((x, y)),
                forall|x: E, y: E, z: E| #[trigger] f.ensures((x, y), z) ==> z == g(x, y),
                acc == fold_seq(self.elems().take(k as int), g, init),
            decreases self.data@.len() - k,
        {
            proof {
                assert(self.elems().take(k as int + 1).drop_last() =~= self.elems().take(
                    k as int,
                ));
                assert(self.elems().take(k as int + 1).last() == self.elems()[k as int]);
            }
            acc = f(acc, self.data[k]);
            k = k + 1;
        }
        proof {
            assert(self.elems().take(self.elems().len() as int) =~= self.elems());
        }
        let mut shape: Vec<usize> = Vec::new();
        shape.push(1);
        let mut data: Vec<E> = Vec::new();
        data.push(acc);
        let r = Tensor { shape, data };
        proof {
            assert(prod(r.dims()) == prod(r.dims().drop_last()) * 1);
            assert(r.dims().drop_last() =~= Seq::<usize>::empty());
        }
        r
    }

    /// Folds `f` along dimension `dim`, keeping that dimension with extent
    /// one. The closure `f` must behave as the mathematical function `g`.
    fn reduce_dim_with<F: Fn(E, E) -> E>(
        &self,
        dim: usize,
        f: F,
        init: E,
        Ghost(g): Ghost<spec_fn(E, E) -> E>,
    ) -> (r: Tensor<E>)
        requires
            self.wf(),
            dim < self.dims().len(),
            prod(self.dims().update(dim as int, 1usize)) <= usize::MAX,
            forall|x: E, y: E| #[trigger] f.requires((x, y)),
            forall|x: E, y: E, z: E| #[trigger] f.ensures((x, y), z) ==> z == g(x, y),
        ensures
            r.wf(),
            r.rep().shape =~= self.dims().update(dim as int, 1usize),
            r.rep().data.len() == prod(r.rep().shape),
            forall|k: int| 0 <= k < r.rep().data.len() ==> #[trigger] r.rep().data[k] == fold_line(
                self.rep(),
                unflatten(r.rep().shape, k),
                dim as int,
                self.dims()[dim as int] as int,
                g,
                init,
            ),
    {
        let ghost sh = self.dims().update(dim as int, 1usize);
        let mut out_shape = self.shape_of();
        out_shape.set(dim, 1);
        proof {
            assert(out_shape@ =~= sh);
        }
        let n = match num_elements(&out_shape) {
            Some(n) => n,
            None => {
                proof {
                    assert(false);
                }
                unreached()
            },
        };
        let extent = self.shape[dim];
        let nd = self.data.len();
        let mut data: Vec<E> = Vec::new();
        let mut k: usize = 0;
        while k < n
            invariant
                k <= n,
                n == prod(sh),
                nd == self.data@.len(),
                self.wf(),
                dim < self.dims().len(),
                extent == self.dims()[dim as int],
                sh == self.dims().update(dim as int, 1usize),
                out_shape@ == sh,
                forall|x: E, y: E| #[trigger] f.requires((x, y)),
                forall|x: E, y: E, z: E| #[trigger] f.ensures((x, y), z) ==> z == g(x, y),
                data@.len() == k,
                forall|j: int| 0 <= j < k ==> #[trigger] data@[j] == fold_line(
                    self.rep(),
                    unflatten(sh, j),
                    dim as int,
                    extent as int,
                    g,
                    init,
                ),
            decreases n - k,
        {
            let mut idx = coords_of(&out_shape, k);
            let ghost iv = idx_view(idx@);
            let mut acc = init;
            let mut j: usize = 0;
            while j < extent
                invariant
                    j <= extent,
                    nd == self.data@.len(),
                    self.wf(),
                    dim < self.dims().len(),
                    extent == self.dims()[dim as int],
                    sh == self.dims().update(dim as int, 1usize),
                    out_shape@ == sh,
                    idx@.len() == self.dims().len(),
                    iv == idx_view(idx@),
                    in_bounds(sh, iv),
                    forall|x: E, y: E| #[trigger] f.requires((x, y)),
                    forall|x: E, y: E, z: E| #[trigger] f.ensures((x, y), z) ==> z == g(x, y),
                    acc == fold_line(self.rep(), iv, dim as int, j as int, g, init),
                decreases extent - j,
            {
                let mut c = idx_clone(&idx);
                c.set(dim, j);
                proof {
                    assert(idx_view(c@) =~= iv.update(dim as int, j as int));
                    assert forall|t: int| 0 <= t < self.dims().len() implies 0 <= #[trigger] iv
                        .update(dim as int, j as int)[t] < self.dims()[t] by {
                        if t != dim {
                            assert(iv[t] < sh[t]);
                        }
                    }
                    assert(in_bounds(self.dims(), idx_view(c@)));
                }
                let p = pos_of(&self.shape, &c);
                acc = f(acc, self.data[p]);
                j = j + 1;
            }
            data.push(acc);
            k = k + 1;
        }
        let r = Tensor { shape: out_shape, data };
        r
    }
}

/// A fresh copy of a machine-word vector.
pub(crate) fn idx_clone(v: &Vec<usize>) -> (r: Vec<usize>)
    ensures
        r@ == v@,
{
    let mut r: Vec<usize> = Vec::new();
    let mut i: usize = 0;
    while i < v.len()
        invariant
            i <= v@.len(),
            r@ =~= v@.take(i as int),
        decreases v@.len() - i,
    {
        r.push(v[i]);
        i = i + 1;
    }
    proof {
        assert(v@.take(v@.len() as int) =~= v@);
    }
    r
}


/// The element-level sum, as a combining function.
pub open spec fn add_of<E: Element>() -> spec_fn(E, E) -> E {
    |x: E, y: E| x.add_v(y)
}

/// The element-level product, as a combining function.
pub open spec fn mul_of<E: Element>() -> spec_fn(E, E) -> E {
    |x: E, y: E| x.mul_v(y)
}

/// The element-level maximum, as a combining function; ties keep the
/// earlier value.
pub open spec fn max_of<E: Element>() -> spec_fn(E, E) -> E {
    |x: E, y: E| if x.lt_v(y) {
        y
    } else {
        x
    }
}

/// The sum of all elements, as a one-cell tensor.
pub open spec fn sum_rep<E: Element>(a: TensorRep<E>) -> TensorRep<E> {
    TensorRep { shape: seq![1usize], data: seq![fold_seq(a.data, add_of::<E>(), E::zero_v())] }
}

/// The product of all elements, as a one-cell tensor.
pub open spec fn prod_rep<E: Element>(a: TensorRep<E>) -> TensorRep<E> {
    TensorRep { shape: seq![1usize], data: seq![fold_seq(a.data, mul_of::<E>(), E::one_v())] }
}

/// The mean of all elements, as a one-cell tensor: the sum divided by the
/// element standing for the count.
pub open spec fn mean_rep<E: Element>(a: TensorRep<E>) -> TensorRep<E> {
    TensorRep {
        shape: seq![1usize],
        data: seq![
            fold_seq(a.data, add_of::<E>(), E::zero_v()).div_v(
                E::of_usize_v(a.data.len() as usize),
            )
        ],
    }
}

/// A fold of `g` along dimension `dim`, which keeps extent one.
pub open spec fn fold_dim_rep<E: Element>(
    a: TensorRep<E>,
    dim: int,
    g: spec_fn(E, E) -> E,
    init: E,
) -> TensorRep<E> {
    let sh = a.shape.update(dim, 1usize);
    TensorRep {
        shape: sh,
        data: Seq::new(
            prod(sh) as nat,
            |k: int| fold_line(a, unflatten(sh, k), dim, a.shape[dim] as int, g, init),
        ),
    }
}

/// The sums along dimension `dim`.
pub open spec fn sum_dim_rep<E: Element>(a: TensorRep<E>, dim: int) -> TensorRep<E> {
    fold_dim_rep(a, dim, add_of::<E>(), E::zero_v())
}

/// The products along dimension `dim`.
pub open spec fn prod_dim_rep<E: Element>(a: TensorRep<E>, dim: int) -> TensorRep<E> {
    fold_dim_rep(a, dim, mul_of::<E>(), E::one_v())
}

/// The maxima along dimension `dim`.
pub open spec fn max_dim_rep<E: Element>(a: TensorRep<E>, dim: int) -> TensorRep<E> {
    fold_dim_rep(a, dim, max_of::<E>(), E::lowest_v())
}

/// The means along dimension `dim`.
pub open spec fn mean_dim_rep<E: Element>(a: TensorRep<E>, dim: int) -> TensorRep<E> {
    let s = sum_dim_rep(a, dim);
    TensorRep {
        shape: s.shape,
        data: Seq::new(
            s.data.len(),
            |k: int| s.data[k].div_v(E::of_usize_v(a.shape[dim] as usize)),
        ),
    }
}

impl<E: Element> Tensor<E> {
    /// The sum of all elements, as a one-cell tensor.
    pub fn sum(&self) -> (r: Tensor<E>)
        requires
            self.wf(),
        ensures
            r.wf(),
            r.rep() == sum_rep(self.rep()),
    {
        let ghost g = add_of::<E>();
        let r = self.reduce_all_with(
            (|x: E, y: E| -> (z: E)
                ensures
                    z == x.add_v(y),
                { x.add(y) }),
            E::zero(),
            Ghost(g),
        );
        proof {
            assert(r.rep() =~= sum_rep(self.rep()));
        }
        r
    }

    /// The product of all elements, as a one-cell tensor.
    pub fn prod(&self) -> (r: Tensor<E>)
        requires
            self.wf(),
        ensures
            r.wf(),
            r.rep() == prod_rep(self.rep()),
    {
        let ghost g = mul_of::<E>();
        let r = self.reduce_all_with(
            (|x: E, y: E| -> (z: E)
                ensures
                    z == x.mul_v(y),
                { x.mul(y) }),
            E::one(),
            Ghost(g),
        );
        proof {
            assert(r.rep() =~= prod_rep(self.rep()));
        }
        r
    }

    /// The mean of all elements, as a one-cell tensor.
    pub fn mean(&self) -> (r: Tensor<E>)
        requires
            self.wf(),
        ensures
            r.wf(),
            r.rep() == mean_rep(self.rep()),
    {
        let count = E::of_usize(self.data.len());
        let s = self.sum();
        let r = s.div_scalar(count);
        proof {
            assert(r.rep().data =~= mean_rep(self.rep()).data);
            assert(r.rep().shape =~= mean_rep(self.rep()).shape);
            assert(r.rep() =~= mean_rep(self.rep()));
        }
        r
    }

    /// The sums along dimension `dim`, which keeps extent one.
    pub fn sum_dim(&self, dim: usize) -> (r: Tensor<E>)
        requires
            self.wf(),
            dim < self.dims().len(),
            prod(self.dims().update(dim as int, 1usize)) <= usize::MAX,
        ensures
            r.wf(),
            r.rep() == sum_dim_rep(self.rep(), dim as int),
    {
        let ghost g = add_of::<E>();
        let r = self.reduce_dim_with(
            dim,
            (|x: E, y: E| -> (z: E)
                ensures
                    z == x.add_v(y),
                { x.add(y) }),
            E::zero(),
            Ghost(g),
        );
        proof {
            assert(r.rep().data =~= sum_dim_rep(self.rep(), dim as int).data);
            assert(r.rep() =~= sum_dim_rep(self.rep(), dim as int));
        }
        r
    }

    /// The products along dimension `dim`, which keeps extent one.
    pub fn prod_dim(&self, dim: usize) -> (r: Tensor<E>)
        requires
            self.wf(),
            dim < self.dims().len(),
            prod(self.dims().update(dim as int, 1usize)) <= usize::MAX,
        ensures
            r.wf(),
            r.rep() == prod_dim_rep(self.rep(), dim as int),
    {
        let ghost g = mul_of::<E>();
        let r = self.reduce_dim_with(
            dim,
            (|x: E, y: E| -> (z: E)
                ensures
                    z == x.mul_v(y),
                { x.mul(y) }),
            E::one(),
            Ghost(g),
        );
        proof {
            assert(r.rep().data =~= prod_dim_rep(self.rep(), dim as int).data);
            assert(r.rep() =~= prod_dim_rep(self.rep(), dim as int));
        }
        r
    }

    /// The maxima along dimension `dim`, which keeps extent one.
    pub fn max_dim(&self, dim: usize) -> (r: Tensor<E>)
        requires
            self.wf(),
            dim < self.dims().len(),
            prod(self.dims().update(dim as int, 1usize)) <= usize::MAX,
        ensures
            r.wf(),
            r.rep() == max_dim_rep(self.rep(), dim as int),
    {
        let ghost g = max_of::<E>();
        let r = self.reduce_dim_with(
            dim,
            (|x: E, y: E| -> (z: E)
                ensures
                    z == (if x.lt_v(y) {
                        y
                    } else {
                        x
                    }),
                {
                    if x.lt(y) {
                        y
                    } else {
                        x
                    }
                }),
            E::lowest(),
            Ghost(g),
        );
        proof {
            assert(r.rep().data =~= max_dim_rep(self.rep(), dim as int).data);
            assert(r.rep() =~= max_dim_rep(self.rep(), dim as int));
        }
        r
    }

    /// The means along dimension `dim`, which keeps extent one.
    pub fn mean_dim(&self, dim: usize) -> (r: Tensor<E>)
        requires
            self.wf(),
            dim < self.dims().len(),
            prod(self.dims().update(dim as int, 1usize)) <= usize::MAX,
        ensures
            r.wf(),
            r.rep() == mean_dim_rep(self.rep(), dim as int),
    {
        let count = E::of_usize(self.shape[dim]);
        let s = self.sum_dim(dim);
        let r = s.div_scalar(count);
        proof {
            assert(r.rep().data =~= mean_dim_rep(self.rep(), dim as int).data);
            assert(r.rep() =~= mean_dim_rep(self.rep(), dim as int));
        }
        r
    }
}


/// The tensor shaped like `ind` whose cell at `idx` reads the input cell
/// with the coordinate at `dim` replaced by the index stored at `idx`.
pub open spec fn gather_rep<E>(a: TensorRep<E>, dim: int, ind: TensorRep<i64>) -> TensorRep<E> {
    TensorRep {
        shape: ind.shape,
        data: Seq::new(
            ind.data.len(),
            |k: int| rep_at(a, unflatten(ind.shape, k).update(dim, ind.data[k] as int)),
        ),
    }
}

/// The inputs on which `gather` is defined.
pub open spec fn gather_ok<E>(a: TensorRep<E>, dim: int, ind: TensorRep<i64>) -> bool {
    &&& rep_wf(a)
    &&& rep_wf(ind)
    &&& 0 <= dim < a.shape.len()
    &&& ind.shape.len() == a.shape.len()
    &&& forall|d: int| 0 <= d < a.shape.len() && d != dim ==> #[trigger] ind.shape[d] <= a.shape[d]
    &&& forall|k: int| 0 <= k < ind.data.len() ==> 0 <= #[trigger] ind.data[k] < a.shape[dim]
}

/// `out` is `base` after the first `n` scatter additions: entry `k` of the
/// index tensor directs value `k` to the cell of `base` whose coordinate at
/// `dim` is replaced by that entry, where it is added in.
pub open spec fn scatter_step<E: Element>(
    base: TensorRep<E>,
    dim: int,
    ind: TensorRep<i64>,
    vals: TensorRep<E>,
    n: int,
) -> TensorRep<E>
    decreases n,
{
    if n <= 0 {
        base
    } else {
        let prev = scatter_step(base, dim, ind, vals, n - 1);
        let tgt = flatten(base.shape, unflatten(ind.shape, n - 1).update(dim, ind.data[n - 1] as int));
        TensorRep {
            shape: prev.shape,
            data: prev.data.update(tgt, prev.data[tgt].add_v(vals.data[n - 1])),
        }
    }
}

/// The inputs on which `scatter` is defined.
pub open spec fn scatter_ok<E: Element>(
    a: TensorRep<E>,
    dim: int,
    ind: TensorRep<i64>,
    vals: TensorRep<E>,
) -> bool {
    &&& rep_wf(a)
    &&& rep_wf(ind)
    &&& rep_wf(vals)
    &&& 0 <= dim < a.shape.len()
    &&& ind.shape =~= vals.shape
    &&& ind.shape.len() == a.shape.len()
    &&& forall|d: int| 0 <= d < a.shape.len() && d != dim ==> #[trigger] ind.shape[d] <= a.shape[d]
    &&& forall|k: int| 0 <= k < ind.data.len() ==> 0 <= #[trigger] ind.data[k] < a.shape[dim]
}

/// Scattering never changes the dimensions, and every addition lands
/// inside the tensor.
pub proof fn lemma_scatter_shape<E: Element>(
    base: TensorRep<E>,
    dim: int,
    ind: TensorRep<i64>,
    vals: TensorRep<E>,
    n: int,
)
    requires
        scatter_ok(base, dim, ind, vals),
        0 <= n <= ind.data.len(),
    ensures
        scatter_step(base, dim, ind, vals, n).shape == base.shape,
        scatter_step(base, dim, ind, vals, n).data.len() == base.data.len(),
        n > 0 ==> {
            let tgt = flatten(
                base.shape,
                unflatten(ind.shape, n - 1).update(dim, ind.data[n - 1] as int),
            );
            0 <= tgt < base.data.len()
        },
    decreases n,
{
    if n > 0 {
        lemma_scatter_shape(base, dim, ind, vals, n - 1);
        lemma_unflatten(ind.shape, n - 1);
        let u = unflatten(ind.shape, n - 1);
        let w = u.update(dim, ind.data[n - 1] as int);
        assert(0 <= ind.data[n - 1] < base.shape[dim]);
        assert forall|t: int| 0 <= t < base.shape.len() implies 0 <= #[trigger] w[t]
            < base.shape[t] by {
            if t != dim {
                assert(u[t] < ind.shape[t]);
                assert(ind.shape[t] <= base.shape[t]);
            }
        }
        assert(in_bounds(base.shape, w));
        lemma_flatten(base.shape, w);
    }
}

impl<E: Element> Tensor<E> {
    /// Reads, for every cell of the index tensor, the input element whose
    /// coordinate at `dim` is the stored index.
    pub fn gather(&self, dim: usize, indices: &Tensor<i64>) -> (r: Tensor<E>)
        requires
            gather_ok(self.rep(), dim as int, indices.rep()),
        ensures
            r.wf(),
            r.rep() == gather_rep(self.rep(), dim as int, indices.rep()),
    {
        let nd = self.data.len();
        let n = indices.data.len();
        let out_shape = indices.shape_of();
        let mut data: Vec<E> = Vec::new();
        let mut k: usize = 0;
        while k < n
            invariant
                k <= n,
                n == indices.elems().len(),
                nd == self.elems().len(),
                gather_ok(self.rep(), dim as int, indices.rep()),
                out_shape@ == indices.dims(),
                data@.len() == k,
                forall|j: int| 0 <= j < k ==> #[trigger] data@[j] == gather_rep(
                    self.rep(),
                    dim as int,
                    indices.rep(),
                ).data[j],
            decreases n - k,
        {
            proof {
                lemma_prod_sign(indices.dims());
            }
            let mut c = coords_of(&out_shape, k);
            let ghost iv = idx_view(c@);
            let ix = indices.data[k];
            proof {
                assert(0 <= indices.elems()[k as int] < self.dims()[dim as int]);
            }
            c.set(dim, ix as usize);
            proof {
                assert(idx_view(c@) =~= iv.update(dim as int, ix as int));
                assert forall|t: int| 0 <= t < self.dims().len() implies 0 <= #[trigger] idx_view(
                    c@,
                )[t] < self.dims()[t] by {
                    if t != dim {
                        assert(iv[t] < indices.dims()[t]);
                        assert(indices.dims()[t] <= self.dims()[t]);
                    }
                }
                assert(in_bounds(self.dims(), idx_view(c@)));
            }
            let p = pos_of(&self.shape, &c);
            data.push(self.data[p]);
            k = k + 1;
        }
        let r = Tensor { shape: out_shape, data };
        proof {
            assert(r.rep().data =~= gather_rep(self.rep(), dim as int, indices.rep()).data);
            assert(r.rep() =~= gather_rep(self.rep(), dim as int, indices.rep()));
        }
        r
    }

    /// Adds every value into the cell addressed by the matching index
    /// entry, with the coordinate at `dim` replaced by the stored index.
    pub fn scatter(self, dim: usize, indices: &Tensor<i64>, values: &Tensor<E>) -> (r: Tensor<E>)
        requires
            scatter_ok(self.rep(), dim as int, indices.rep(), values.rep()),
        ensures
            r.wf(),
            r.rep() == scatter_step(
                self.rep(),
                dim as int,
                indices.rep(),
                values.rep(),
                indices.rep().data.len() as int,
            ),
    {
        let ghost base = self.rep();
        let ghost irep = indices.rep();
        let ghost vrep = values.rep();
        let nd = self.data.len();
        let n = indices.data.len();
        let ind_shape = indices.shape_of();
        let shape = self.shape_of();
        let mut data = self.data;
        let mut k: usize = 0;
        while k < n
            invariant
                k <= n,
                n == irep.data.len(),
                nd == base.data.len(),
                data@.len() == nd,
                scatter_ok(base, dim as int, irep, vrep),
                irep == indices.rep(),
                vrep == values.rep(),
                ind_shape@ == irep.shape,
                shape@ == base.shape,
                vrep.data.len() == irep.data.len(),
                data@ =~= scatter_step(base, dim as int, irep, vrep, k as int).data,
            decreases n - k,
        {
            proof {
                lemma_prod_sign(irep.shape);
                lemma_scatter_shape(base, dim as int, irep, vrep, k as int);
                lemma_scatter_shape(base, dim as int, irep, vrep, k as int + 1);
            }
            let mut c = coords_of(&ind_shape, k);
            let ghost iv = idx_view(c@);
            let ix = indices.data[k];
            proof {
                assert(0 <= irep.data[k as int] < base.shape[dim as int]);
            }
            c.set(dim, ix as usize);
            proof {
                assert(idx_view(c@) =~= iv.update(dim as int, ix as int));
                assert forall|t: int| 0 <= t < base.shape.len() implies 0 <= #[trigger] idx_view(
                    c@,
                )[t] < base.shape[t] by {
                    if t != dim {
                        assert(iv[t] < irep.shape[t]);
                        assert(irep.shape[t] <= base.shape[t]);
                    }
                }
                assert(in_bounds(base.shape, idx_view(c@)));
            }
            let p = pos_of(&shape, &c);
            let cur = data[p];
            let v = values.data[k];
            data.set(p, cur.add(v));
            k = k + 1;
        }
        let r = Tensor { shape, data };
        proof {
            lemma_scatter_shape(base, dim as int, irep, vrep, n as int);
            assert(r.rep() =~= scatter_step(base, dim as int, irep, vrep, n as int));
        }
        r
    }
}



/// The dot product of row `i` of `a` and column `j` of `b` over the first
/// `l` inner coordinates, for two-dimensional `a` and `b`.
pub open spec fn dot2<E: Element>(a: TensorRep<E>, b: TensorRep<E>, i: int, j: int, l: int) -> E
    decreases l,
{
    if l <= 0 {
        E::zero_v()
    } else {
        dot2(a, b, i, j, l - 1).add_v(
            a.data[i * (a.shape[1] as int) + (l - 1)].mul_v(
                b.data[(l - 1) * (b.shape[1] as int) + j],
            ),
        )
    }
}

/// The matrix product of two two-dimensional tensors.
pub open spec fn matmul_rep<E: Element>(a: TensorRep<E>, b: TensorRep<E>) -> TensorRep<E> {
    let m = a.shape[0] as int;
    let p = b.shape[1] as int;
    TensorRep {
        shape: seq![a.shape[0], b.shape[1]],
        data: Seq::new((m * p) as nat, |k: int| dot2(a, b, k / p, k % p, a.shape[1] as int)),
    }
}

impl<E: Element> Tensor<E> {
    /// The matrix product with `o`; both tensors must be two-dimensional
    /// with an equal inner dimension.
    pub fn matmul(&self, o: &Tensor<E>) -> (r: Tensor<E>)
        requires
            self.wf(),
            o.wf(),
            self.dims().len() == 2,
            o.dims().len() == 2,
            self.dims()[1] == o.dims()[0],
            self.dims()[0] * o.dims()[1] <= usize::MAX,
        ensures
            r.wf(),
            r.rep() == matmul_rep(self.rep(), o.rep()),
    {
        let m = self.shape[0];
        let kk = self.shape[1];
        let p = o.shape[1];
        let nd = self.data.len();
        let od = o.data.len();
        proof {
            lemma_two_dims(self.dims());
            lemma_two_dims(o.dims());
            assert(m * p <= usize::MAX);
        }
        let mut shape: Vec<usize> = Vec::new();
        shape.push(m);
        shape.push(p);
        let mut data: Vec<E> = Vec::new();
        let mut i: usize = 0;
        while i < m
            invariant
                i <= m,
                self.wf(),
                o.wf(),
                self.dims().len() == 2,
                o.dims().len() == 2,
                m == self.dims()[0],
                kk == self.dims()[1],
                kk == o.dims()[0],
                p == o.dims()[1],
                m * p <= usize::MAX,
                self.elems().len() == m * kk,
                o.elems().len() == kk * p,
                nd == self.elems().len(),
                od == o.elems().len(),
                data@.len() == i * p,
                forall|t: int| 0 <= t < i * p ==> #[trigger] data@[t] == dot2(
                    self.rep(),
                    o.rep(),
                    t / p as int,
                    t % p as int,
                    kk as int,
                ),
            decreases m - i,
        {
            let mut j: usize = 0;
            proof {
                assert(i * p + p <= m * p) by (nonlinear_arith)
                    requires
                        i < m,
                        p >= 0,
                ;
            }
            while j < p
                invariant
                    j <= p,
                    i < m,
                    self.wf(),
                    o.wf(),
                    self.dims().len() == 2,
                    o.dims().len() == 2,
                    m == self.dims()[0],
                    kk == self.dims()[1],
                    kk == o.dims()[0],
                    p == o.dims()[1],
                    m * p <= usize::MAX,
                    i * p + p <= m * p,
                    self.elems().len() == m * kk,
                    o.elems().len() == kk * p,
                    nd == self.elems().len(),
                    od == o.elems().len(),
                    data@.len() == i * p + j,
                    forall|t: int| 0 <= t < i * p + j ==> #[trigger] data@[t] == dot2(
                        self.rep(),
                        o.rep(),
                        t / p as int,
                        t % p as int,
                        kk as int,
                    ),
                decreases p - j,
            {
                let mut acc = E::zero();
                let mut l: usize = 0;
                while l < kk
                    invariant
                        l <= kk,
                        i < m,
                        j < p,
                        self.wf(),
                        o.wf(),
                        self.dims().len() == 2,
                        o.dims().len() == 2,
                        m == self.dims()[0],
                        kk == self.dims()[1],
                        kk == o.dims()[0],
                        p == o.dims()[1],
                        self.elems().len() == m * kk,
                        o.elems().len() == kk * p,
                        nd == self.elems().len(),
                        od == o.elems().len(),
                        acc == dot2(self.rep(), o.rep(), i as int, j as int, l as int),
                    decreases kk - l,
                {
                    proof {
                        assert(i * kk + l < m * kk && l * p + j < kk * p) by (nonlinear_arith)
                            requires
                                0 <= i < m,
                                0 <= j < p,
                                0 <= l < kk,
                        ;
                        assert(i * kk <= usize::MAX - l) by (nonlinear_arith)
                            requires
                                i * kk + l < m * kk,
                                m * kk == nd,
                                nd <= usize::MAX,
                                0 <= l,
                                0 <= i,
                                0 <= kk,
                        ;
                        assert(l * p <= usize::MAX - j) by (nonlinear_arith)
                            requires
                                l * p + j < kk * p,
                                kk * p == od,
                                od <= usize::MAX,
                                0 <= l,
                                0 <= j,
                                0 <= p,
                        ;
                    }
                    let va = self.data[i * kk + l];
                    let vb = o.data[l * p + j];
                    acc = acc.add(va.mul(vb));
                    l = l + 1;
                }
                proof {
                    assert((i * p + j) / p as int == i as int && (i * p + j) % p as int
                        == j as int) by (nonlinear_arith)
                        requires
                            0 <= j < p,
                            0 <= i,
                    ;
                    assert(i * p + j < m * p) by (nonlinear_arith)
                        requires
                            i < m,
                            0 <= j < p,
                            0 <= i,
                    ;
                }
                data.push(acc);
                j = j + 1;
            }
            proof {
                assert(i * p + p == (i + 1) * p) by (nonlinear_arith);
            }
            i = i + 1;
        }
        let r = Tensor { shape, data };
        proof {
            let want = matmul_rep(self.rep(), o.rep());
            assert(prod(r.dims()) == prod(r.dims().drop_last()) * p);
            assert(r.dims().drop_last() =~= seq![m]);
            assert(prod(seq![m]) == prod(seq![m].drop_last()) * m);
            assert(seq![m].drop_last() =~= Seq::<usize>::empty());
            assert(r.rep().data =~= want.data);
            assert(r.rep().shape =~= want.shape);
            assert(r.rep() =~= want);
        }
        r
    }
}

/// A two-dimensional tensor holds rows times columns elements.
pub proof fn lemma_two_dims(s: Seq<usize>)
    requires
        s.len() == 2,
    ensures
        prod(s) == s[0] * s[1],
{
    assert(prod(s) == prod(s.drop_last()) * s[1]);
    assert(s.drop_last() =~= seq![s[0]]);
    assert(prod(seq![s[0]]) == prod(seq![s[0]].drop_last()) * s[0]);
    assert(seq![s[0]].drop_last() =~= Seq::<usize>::empty());
}


/// The tensor of the same dimensions whose every element is `v`.
pub open spec fn fill_rep<E: Element>(a: TensorRep<E>, v: E) -> TensorRep<E> {
    TensorRep { shape: a.shape, data: Seq::new(a.data.len(), |k: int| v) }
}

impl<E: Element> Tensor<E> {
    /// A tensor of ones with the same dimensions.
    pub fn ones_like(&self) -> (r: Tensor<E>)
        requires
            self.wf(),
        ensures
            r.wf(),
            r.rep() == fill_rep(self.rep(), E::one_v()),
    {
        let one = E::one();
        let ghost g = |x: E| E::one_v();
        let r = self.map_with(
            (|x: E| -> (z: E)
                ensures
                    z == E::one_v(),
                { one }),
            Ghost(g),
        );
        proof {
            let want = fill_rep(self.rep(), E::one_v());
            assert forall|k: int| 0 <= k < r.elems().len() implies r.elems()[k] == want.data[k] by {}
            assert(r.rep().data =~= want.data);
            assert(r.rep() =~= want);
        }
        r
    }
}

} // verus!








