use vstd::prelude::*;

use crate::backward::{deposit, process, seed_tape, step_grads, transpose2, visit};
use crate::backend::Backend;
use crate::element::FloatElement;
use crate::grads::tape_acc;
use crate::graph::{NodeRep, OpRep};
use crate::tensor::{add_rep, fill_rep, matmul_rep, TensorRep};

verus! {

/// Chain rule at the matrix product: in a graph holding two tracked inputs
/// and their matrix product, one backward pass from the product with seed
/// `g` leaves exactly the analytic gradients: `g` times the transposed
/// right operand for the left input, and the transposed left operand times
/// `g` for the right input.
pub proof fn lemma_chain_rule_matmul<E: FloatElement, B: Backend<E>>(
    nodes: Seq<NodeRep<E>>,
    va: TensorRep<E>,
    vb: TensorRep<E>,
)
    requires
        nodes.len() == 3,
        nodes[0] == (NodeRep {
            parents: Seq::<Option<int>>::empty(),
            op: (OpRep::Leaf { v: va }),
            out: va,
        }),
        nodes[1] == (NodeRep {
            parents: Seq::<Option<int>>::empty(),
            op: (OpRep::Leaf { v: vb }),
            out: vb,
        }),
        nodes[2] == (NodeRep {
            parents: seq![Some(0int), Some(1int)],
            op: (OpRep::Matmul { l: va, r: vb }),
            out: matmul_rep(va, vb),
        }),
    ensures
        ({
            let g = fill_rep(matmul_rep(va, vb), E::one_v());
            let r = process::<E, B>(nodes, seed_tape(2, matmul_rep(va, vb)), 2);
            &&& r.dom() =~= set![0int, 1int]
            &&& r[0] == matmul_rep(g, transpose2(vb))
            &&& r[1] == matmul_rep(transpose2(va), g)
        }),
{
    let g = fill_rep(matmul_rep(va, vb), E::one_v());
    let seed = seed_tape::<E>(2, matmul_rep(va, vb));
    let gs = step_grads::<E, B>(nodes[2].op, g);
    assert(seed[2] == g);
    let t0 = seed.remove(2);
    assert(deposit(t0, nodes[2].parents, gs, 0) =~= t0);
    let t1 = tape_acc(t0, 0, gs[0]);
    assert(!t0.dom().contains(0));
    let t2 = tape_acc(t1, 1, gs[1]);
    assert(!t1.dom().contains(1));
    assert(deposit(t0, nodes[2].parents, gs, 1) =~= t1);
    assert(deposit(t0, nodes[2].parents, gs, 2) =~= t2);
    assert(visit::<E, B>(nodes, seed, 2) =~= t2);
    assert(visit::<E, B>(nodes, t2, 1) =~= t2);
    assert(visit::<E, B>(nodes, t2, 0) =~= t2);
    assert(process::<E, B>(nodes, seed, 2) == process::<E, B>(nodes, visit::<E, B>(nodes, seed, 2), 1));
    assert(process::<E, B>(nodes, t2, 1) == process::<E, B>(nodes, visit::<E, B>(nodes, t2, 1), 0));
    assert(process::<E, B>(nodes, t2, 0) == process::<E, B>(nodes, visit::<E, B>(nodes, t2, 0), -1));
    assert(process::<E, B>(nodes, t2, -1) == t2);
    assert(process::<E, B>(nodes, seed, 2) =~= t2);
    assert(t2.dom() =~= set![0int, 1int]);
}

/// Accumulation: when one tracked input feeds both operands of a sum, its
/// gradient after one backward pass is the seed added to itself — the two
/// consumers' contributions are summed, never averaged or overwritten.
pub proof fn lemma_accumulation_shared_input<E: FloatElement, B: Backend<E>>(
    nodes: Seq<NodeRep<E>>,
    vx: TensorRep<E>,
)
    requires
        nodes.len() == 2,
        nodes[0] == (NodeRep {
            parents: Seq::<Option<int>>::empty(),
            op: (OpRep::Leaf { v: vx }),
            out: vx,
        }),
        nodes[1] == (NodeRep {
            parents: seq![Some(0int), Some(0int)],
            op: (OpRep::Add { l: vx, r: vx }),
            out: add_rep(vx, vx),
        }),
    ensures
        ({
            let g = fill_rep(add_rep(vx, vx), E::one_v());
            let r = process::<E, B>(nodes, seed_tape(1, add_rep(vx, vx)), 1);
            &&& r.dom() =~= set![0int]
            &&& r[0] == add_rep(g, g)
        }),
{
    let g = fill_rep(add_rep(vx, vx), E::one_v());
    let seed = seed_tape::<E>(1, add_rep(vx, vx));
    let gs = step_grads::<E, B>(nodes[1].op, g);
    assert(seed[1] == g);
    let t0 = seed.remove(1);
    assert(deposit(t0, nodes[1].parents, gs, 0) =~= t0);
    let t1 = tape_acc(t0, 0, gs[0]);
    assert(!t0.dom().contains(0));
    assert(t1[0] == g);
    let t2 = tape_acc(t1, 0, gs[1]);
    assert(t1.dom().contains(0));
    assert(t2[0] == add_rep(g, g));
    assert(deposit(t0, nodes[1].parents, gs, 1) =~= t1);
    assert(deposit(t0, nodes[1].parents, gs, 2) =~= t2);
    assert(visit::<E, B>(nodes, seed, 1) =~= t2);
    assert(visit::<E, B>(nodes, t2, 0) =~= t2);
    assert(process::<E, B>(nodes, seed, 1) == process::<E, B>(nodes, visit::<E, B>(nodes, seed, 1), 0));
    assert(process::<E, B>(nodes, t2, 0) == process::<E, B>(nodes, visit::<E, B>(nodes, t2, 0), -1));
    assert(process::<E, B>(nodes, t2, -1) == t2);
    assert(process::<E, B>(nodes, seed, 1) =~= t2);
    assert(t2.dom() =~= set![0int]);
}

/// What a gradient query may answer, given the tensor's vertex and the
/// finished tape: nothing for an untracked tensor, and exactly the pending
/// entry otherwise.
pub open spec fn grad_query_post<E: FloatElement>(
    node: Option<int>,
    m: Map<int, TensorRep<E>>,
    r: Option<TensorRep<E>>,
) -> bool {
    match node {
        None => r is None,
        Some(i) => match r {
            Some(v) => m.dom().contains(i) && v == m[i],
            None => !m.dom().contains(i),
        },
    }
}

/// Querying a gradient is a read, not a consumption: any two answers for
/// the same tensor and the same finished tape are the same value.
pub proof fn lemma_grad_query_idempotent<E: FloatElement>(
    node: Option<int>,
    m: Map<int, TensorRep<E>>,
    r1: Option<TensorRep<E>>,
    r2: Option<TensorRep<E>>,
)
    requires
        grad_query_post(node, m, r1),
        grad_query_post(node, m, r2),
    ensures
        r1 == r2,
{
}

/// Checkpointing equivalence: the result of a backward pass is a function
/// of the recorded graph values and the seed alone. The memory-bound and
/// compute-bound strategies record the same graph values — every operation
/// promises its recorded vertex independently of the strategy — so the two
/// strategies yield identical gradients.
pub proof fn lemma_checkpoint_equivalence<E: FloatElement, B: Backend<E>>(
    nodes_memory: Seq<NodeRep<E>>,
    nodes_compute: Seq<NodeRep<E>>,
    root: int,
    out: TensorRep<E>,
)
    requires
        nodes_memory =~= nodes_compute,
    ensures
        process::<E, B>(nodes_memory, seed_tape(root, out), nodes_memory.len() - 1) =~= process::<E, B>(
            nodes_compute,
            seed_tape(root, out),
            nodes_compute.len() - 1,
        ),
{
}

} // verus!
