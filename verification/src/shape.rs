use vstd::prelude::*;

verus! {

/// Number of elements of a tensor with dimensions `s`, in row-major layout.
pub open spec fn prod(s: Seq<usize>) -> int
    decreases s.len(),
{
    if s.len() == 0 {
        1
    } else {
        prod(s.drop_last()) * s.last()
    }
}

/// A multi-index that addresses one cell of a tensor with dimensions `s`.
pub open spec fn in_bounds(s: Seq<usize>, idx: Seq<int>) -> bool {
    idx.len() == s.len() && forall|i: int| 0 <= i < s.len() ==> 0 <= #[trigger] idx[i] < s[i]
}

/// Row-major position of the cell `idx` in a tensor with dimensions `s`.
pub open spec fn flatten(s: Seq<usize>, idx: Seq<int>) -> int
    decreases s.len(),
{
    if s.len() == 0 {
        0
    } else {
        flatten(s.drop_last(), idx.drop_last()) * s.last() + idx.last()
    }
}

/// The multi-index of the cell at row-major position `k` in a tensor with
/// dimensions `s`.
pub open spec fn unflatten(s: Seq<usize>, k: int) -> Seq<int>
    decreases s.len(),
{
    if s.len() == 0 {
        Seq::empty()
    } else {
        unflatten(s.drop_last(), k / (s.last() as int)).push(k % (s.last() as int))
    }
}

/// The element count is never negative, and it is positive exactly when
/// every dimension is.
pub proof fn lemma_prod_sign(s: Seq<usize>)
    ensures
        prod(s) >= 0,
        (forall|i: int| 0 <= i < s.len() ==> s[i] > 0) <==> prod(s) > 0,
    decreases s.len(),
{
    if s.len() > 0 {
        lemma_prod_sign(s.drop_last());
        assert(prod(s) == prod(s.drop_last()) * s.last());
        if prod(s.drop_last()) > 0 && s.last() > 0 {
            assert(prod(s) > 0) by (nonlinear_arith)
                requires
                    prod(s) == prod(s.drop_last()) * s.last(),
                    prod(s.drop_last()) > 0,
                    s.last() > 0,
            ;
        }
        if prod(s) > 0 {
            assert(prod(s.drop_last()) > 0 && s.last() > 0) by (nonlinear_arith)
                requires
                    prod(s) == prod(s.drop_last()) * s.last(),
                    prod(s) > 0,
                    prod(s.drop_last()) >= 0,
                    s.last() >= 0,
            ;
        }
        assert(forall|i: int| 0 <= i < s.len() - 1 ==> s[i] == s.drop_last()[i]);
        assert(s.last() == s[s.len() - 1]);
    }
}

/// The element count can also be peeled at the first dimension.
pub proof fn lemma_prod_first(s: Seq<usize>)
    requires
        s.len() > 0,
    ensures
        prod(s) == s.first() * prod(s.drop_first()),
    decreases s.len(),
{
    if s.len() == 1 {
        assert(s.drop_last() =~= Seq::<usize>::empty());
        assert(s.drop_first() =~= Seq::<usize>::empty());
    } else {
        lemma_prod_first(s.drop_last());
        assert(s.drop_last().drop_first() =~= s.drop_first().drop_last());
        assert(s.drop_last().first() == s.first());
        assert(s.drop_first().last() == s.last());
        let a = s.first() as int;
        let m = prod(s.drop_first().drop_last());
        let l = s.last() as int;
        assert(prod(s) == (a * m) * l);
        assert(prod(s.drop_first()) == m * l);
        assert((a * m) * l == a * (m * l)) by (nonlinear_arith);
    }
}

/// The element count splits across any cut of the dimension list.
pub proof fn lemma_prod_split(s: Seq<usize>, i: int)
    requires
        0 <= i <= s.len(),
    ensures
        prod(s) == prod(s.take(i)) * prod(s.skip(i)),
    decreases s.len() - i,
{
    if i == s.len() {
        assert(s.take(i) =~= s);
        assert(s.skip(i) =~= Seq::<usize>::empty());
    } else {
        lemma_prod_split(s, i + 1);
        assert(s.take(i + 1).drop_last() =~= s.take(i));
        assert(s.take(i + 1).last() == s[i]);
        assert(prod(s.take(i + 1)) == prod(s.take(i)) * s[i]);
        lemma_prod_first(s.skip(i));
        assert(s.skip(i).first() == s[i]);
        assert(s.skip(i).drop_first() =~= s.skip(i + 1));
        let a = prod(s.take(i));
        let b = s[i] as int;
        let c = prod(s.skip(i + 1));
        assert((a * b) * c == a * (b * c)) by (nonlinear_arith);
    }
}

/// Unflattening a position inside the tensor yields an in-bounds
/// multi-index, and flattening it restores the position.
pub proof fn lemma_unflatten(s: Seq<usize>, k: int)
    requires
        0 <= k < prod(s),
    ensures
        in_bounds(s, unflatten(s, k)),
        flatten(s, unflatten(s, k)) == k,
    decreases s.len(),
{
    lemma_prod_sign(s);
    if s.len() == 0 {
        assert(unflatten(s, k) =~= Seq::<int>::empty());
    } else {
        let l = s.last() as int;
        let p = prod(s.drop_last());
        lemma_prod_sign(s.drop_last());
        assert(forall|i: int| 0 <= i < s.len() - 1 ==> s.drop_last()[i] == s[i]);
        assert(s.last() == s[s.len() - 1]);
        assert(0 <= k / l < p && 0 <= k % l < l && (k / l) * l + k % l == k) by (nonlinear_arith)
            requires
                0 <= k,
                k < p * l,
                l > 0,
                p > 0,
        ;
        lemma_unflatten(s.drop_last(), k / l);
        let rest = unflatten(s.drop_last(), k / l);
        let idx = unflatten(s, k);
        assert(idx =~= rest.push(k % l));
        assert(idx.drop_last() =~= rest);
        assert(forall|i: int| 0 <= i < s.len() - 1 ==> s[i] == s.drop_last()[i]);
        assert(flatten(s, idx) == flatten(s.drop_last(), rest) * l + k % l);
    }
}

/// Flattening an in-bounds multi-index yields a position inside the tensor,
/// and unflattening it restores the multi-index.
pub proof fn lemma_flatten(s: Seq<usize>, idx: Seq<int>)
    requires
        in_bounds(s, idx),
    ensures
        0 <= flatten(s, idx) < prod(s),
        unflatten(s, flatten(s, idx)) =~= idx,
    decreases s.len(),
{
    if s.len() == 0 {
        assert(idx =~= Seq::<int>::empty());
    } else {
        let l = s.last() as int;
        let p = prod(s.drop_last());
        assert(forall|i: int| 0 <= i < s.len() - 1 ==> s.drop_last()[i] == s[i]);
        assert(in_bounds(s.drop_last(), idx.drop_last()));
        lemma_flatten(s.drop_last(), idx.drop_last());
        let f = flatten(s.drop_last(), idx.drop_last());
        let last = idx.last();
        assert(0 <= f * l + last < p * l && (f * l + last) / l == f && (f * l + last) % l == last)
            by (nonlinear_arith)
            requires
                0 <= f < p,
                0 <= last < l,
        ;
        assert(flatten(s, idx) == f * l + last);
        assert(unflatten(s, flatten(s, idx)) =~= unflatten(s.drop_last(), f).push(last));
    }
}

/// The `int` image of a machine-word multi-index.
pub open spec fn idx_view(v: Seq<usize>) -> Seq<int> {
    v.map_values(|x: usize| x as int)
}

/// Turns a row-major position into the multi-index it addresses.
pub fn coords_of(shape: &Vec<usize>, k: usize) -> (r: Vec<usize>)
    requires
        k < prod(shape@),
    ensures
        idx_view(r@) =~= unflatten(shape@, k as int),
        in_bounds(shape@, idx_view(r@)),
{
    proof {
        lemma_unflatten(shape@, k as int);
        lemma_prod_sign(shape@);
    }
    let ghost s = shape@;
    let mut r: Vec<usize> = Vec::new();
    let mut rest: usize = k;
    let mut i: usize = shape.len();
    proof {
        assert(s.take(i as int) =~= s);
        assert(idx_view(r@) =~= Seq::<int>::empty());
        assert(unflatten(s, k as int) =~= unflatten(s.take(i as int), rest as int) + idx_view(
            r@,
        ));
    }
    while i > 0
        invariant
            i <= s.len(),
            shape@ == s,
            r@.len() == s.len() - i,
            prod(s) > 0,
            forall|j: int| 0 <= j < s.len() ==> s[j] > 0,
            rest >= 0,
            unflatten(s, k as int) =~= unflatten(s.take(i as int), rest as int) + idx_view(r@),
        decreases i,
    {
        i = i - 1;
        let dim = shape[i];
        let digit = rest % dim;
        proof {
            let ti = s.take(i as int + 1);
            assert(ti.drop_last() =~= s.take(i as int));
            assert(ti.last() == s[i as int]);
            assert(unflatten(ti, rest as int) =~= unflatten(
                s.take(i as int),
                rest as int / dim as int,
            ).push(rest as int % dim as int));
            assert(unflatten(s.take(i as int), rest as int / dim as int).push(
                rest as int % dim as int,
            ) + idx_view(r@) =~= unflatten(s.take(i as int), rest as int / dim as int) + idx_view(
                r@.insert(0, (rest % dim) as usize),
            ));
        }
        rest = rest / dim;
        r.insert(0, digit);
    }
    proof {
        assert(s.take(0) =~= Seq::<usize>::empty());
        assert(unflatten(s.take(0), rest as int) =~= Seq::<int>::empty());
        assert(idx_view(r@) =~= unflatten(s, k as int));
    }
    r
}

/// Computes the row-major position of an in-bounds multi-index.
pub fn pos_of(shape: &Vec<usize>, idx: &Vec<usize>) -> (r: usize)
    requires
        in_bounds(shape@, idx_view(idx@)),
        prod(shape@) <= usize::MAX,
    ensures
        r == flatten(shape@, idx_view(idx@)),
        r < prod(shape@),
{
    proof {
        lemma_flatten(shape@, idx_view(idx@));
        lemma_prod_sign(shape@);
    }
    let ghost s = shape@;
    let ghost iv = idx_view(idx@);
    let mut acc: usize = 0;
    let mut i: usize = 0;
    while i < shape.len()
        invariant
            0 <= i <= s.len(),
            shape@ == s,
            idx_view(idx@) == iv,
            in_bounds(s, iv),
            prod(s) <= usize::MAX,
            prod(s) > 0,
            acc == flatten(s.take(i as int), iv.take(i as int)),
            0 <= acc < prod(s.take(i as int)),
        decreases s.len() - i,
    {
        proof {
            let ti = s.take(i as int + 1);
            assert(ti.drop_last() =~= s.take(i as int));
            assert(iv.take(i as int + 1).drop_last() =~= iv.take(i as int));
            assert(ti.last() == s[i as int]);
            assert(iv.take(i as int + 1).last() == iv[i as int]);
            assert(flatten(ti, iv.take(i as int + 1)) == acc * s[i as int] + iv[i as int]);
            assert(forall|j: int| 0 <= j < i + 1 ==> 0 <= #[trigger] iv.take(i as int + 1)[j]
                < ti[j]);
            assert(in_bounds(ti, iv.take(i as int + 1)));
            lemma_flatten(ti, iv.take(i as int + 1));
            lemma_prod_split(s, i as int + 1);
            assert forall|j: int| 0 <= j < s.len() implies s[j] > 0 by {
                assert(0 <= iv[j] < s[j]);
            }
            assert(forall|j: int| 0 <= j < s.skip(i as int + 1).len() ==> #[trigger] s.skip(
                i as int + 1,
            )[j] == s[i + 1 + j]);
            lemma_prod_sign(s.skip(i as int + 1));
            assert(prod(ti) * prod(s.skip(i as int + 1)) == prod(s));
            assert(prod(ti) <= prod(s)) by (nonlinear_arith)
                requires
                    prod(ti) * prod(s.skip(i as int + 1)) == prod(s),
                    prod(s.skip(i as int + 1)) > 0,
                    prod(ti) >= 0,
            ;
        }
        acc = acc * shape[i] + idx[i];
        i = i + 1;
    }
    proof {
        assert(s.take(s.len() as int) =~= s);
        assert(iv.take(s.len() as int) =~= iv);
    }
    acc
}

} // verus!
