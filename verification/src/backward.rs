use vstd::prelude::*;

use crate::backend::Backend;
use crate::diff::AutodiffTensor;
use crate::element::{Element, FloatElement};
use crate::grads::{tape_acc, Gradients};
use crate::graph::{memo_ok, nodes_wf, op_input, op_ok, step_op, Graph, NodeRep, OpRep, Step};
use crate::tensor::{
    add_rep, div_rep, exp_rep, fill_rep, log_rep, matmul_rep, mul_rep, mul_scalar_rep, neg_rep,
    powf_scalar_rep, rep_wf, sin_rep, cos_rep, sub_rep, swap_dims_rep, Tensor, TensorRep,
};

verus! {

/// The two-dimensional transpose.
pub open spec fn transpose2<E>(x: TensorRep<E>) -> TensorRep<E> {
    swap_dims_rep(x, 0, 1)
}

/// The gradients an operation hands to its operands when its own output
/// receives the gradient `g`: one entry per operand, in operand order.
pub open spec fn step_grads<E: FloatElement, B: Backend<E>>(op: OpRep<E>, g: TensorRep<E>) -> Seq<TensorRep<E>> {
    match op {
        OpRep::Leaf { .. } => Seq::empty(),
        OpRep::Add { .. } => seq![g, g],
        OpRep::Sub { .. } => seq![g, neg_rep(g)],
        OpRep::Neg { .. } => seq![neg_rep(g)],
        OpRep::Mul { l, r } => seq![mul_rep(g, r), mul_rep(g, l)],
        OpRep::Div { l, r } => seq![div_rep(g, r), neg_rep(div_rep(mul_rep(g, l), mul_rep(r, r)))],
        OpRep::Matmul { l, r } => seq![
            matmul_rep(g, transpose2(r)),
            matmul_rep(transpose2(l), g),
        ],
        OpRep::Exp { x } => seq![mul_rep(g, exp_rep(x))],
        OpRep::Log { x } => seq![div_rep(g, x)],
        OpRep::PowfScalar { x, e } => seq![
            mul_rep(g, mul_scalar_rep(powf_scalar_rep(x, e.sub_v(E::one_v())), e)),
        ],
        OpRep::Sin { x } => seq![mul_rep(g, cos_rep(x))],
        OpRep::Embedding { w, ind } => seq![B::embedding_backward_v(w, g, ind)],
        OpRep::Conv1dWithBias { x, w, b, options } => {
            let t = B::conv1d_backward_v(x, w, Some(b), g, options);
            seq![t.0, t.1, t.2->Some_0]
        },
        OpRep::Conv1dNoBias { x, w, options } => {
            let t = B::conv1d_backward_v(x, w, None, g, options);
            seq![t.0, t.1]
        },
        OpRep::ConvTranspose1dWithBias { x, w, b, options } => {
            let t = B::conv_transpose1d_backward_v(x, w, Some(b), g, options);
            seq![t.0, t.1, t.2->Some_0]
        },
        OpRep::ConvTranspose1dNoBias { x, w, options } => {
            let t = B::conv_transpose1d_backward_v(x, w, None, g, options);
            seq![t.0, t.1]
        },
        OpRep::AvgPool1d { x, kernel_size, stride, padding, count_include_pad } => seq![
            B::avg_pool1d_backward_v(x, g, kernel_size, stride, padding, count_include_pad),
        ],
        OpRep::MaxPool1d { x, ind, kernel_size, stride, padding, dilation } => seq![
            B::max_pool1d_with_indices_backward_v(
                x,
                kernel_size,
                stride,
                padding,
                dilation,
                g,
                ind,
            ),
        ],
        OpRep::AdaptiveAvgPool1d { x, .. } => seq![B::adaptive_avg_pool1d_backward_v(x, g)],
        OpRep::Conv2dWithBias { x, w, b, options } => {
            let t = B::conv2d_backward_v(x, w, Some(b), g, options);
            seq![t.0, t.1, t.2->Some_0]
        },
        OpRep::Conv2dNoBias { x, w, options } => {
            let t = B::conv2d_backward_v(x, w, None, g, options);
            seq![t.0, t.1]
        },
        OpRep::ConvTranspose2dWithBias { x, w, b, options } => {
            let t = B::conv_transpose2d_backward_v(x, w, Some(b), g, options);
            seq![t.0, t.1, t.2->Some_0]
        },
        OpRep::ConvTranspose2dNoBias { x, w, options } => {
            let t = B::conv_transpose2d_backward_v(x, w, None, g, options);
            seq![t.0, t.1]
        },
        OpRep::AvgPool2d { x, kernel_size, stride, padding, count_include_pad } => seq![
            B::avg_pool2d_backward_v(x, g, kernel_size, stride, padding, count_include_pad),
        ],
        OpRep::MaxPool2d { x, ind, kernel_size, stride, padding, dilation } => seq![
            B::max_pool2d_with_indices_backward_v(
                x,
                kernel_size,
                stride,
                padding,
                dilation,
                g,
                ind,
            ),
        ],
        OpRep::AdaptiveAvgPool2d { x, .. } => seq![B::adaptive_avg_pool2d_backward_v(x, g)],
        OpRep::Interpolate { x, output_size, options } => seq![
            B::interpolate_backward_v(x, g, output_size, options),
        ],
    }
}

/// The tape after the first `j` operand gradients have been deposited:
/// present operands accumulate their entry, pruned operands are skipped.
pub open spec fn deposit<E: FloatElement>(
    tape: Map<int, TensorRep<E>>,
    parents: Seq<Option<int>>,
    gs: Seq<TensorRep<E>>,
    j: int,
) -> Map<int, TensorRep<E>>
    decreases j,
{
    if j <= 0 {
        tape
    } else {
        let t = deposit(tape, parents, gs, j - 1);
        match parents[j - 1] {
            Some(p) => tape_acc(t, p, gs[j - 1]),
            None => t,
        }
    }
}

/// The tape after vertex `i` has been visited: a vertex with no pending
/// gradient is skipped, a tracked input keeps its entry for later query,
/// and any other vertex consumes its gradient and deposits its operands'.
pub open spec fn visit<E: FloatElement, B: Backend<E>>(
    nodes: Seq<NodeRep<E>>,
    tape: Map<int, TensorRep<E>>,
    i: int,
) -> Map<int, TensorRep<E>> {
    if !tape.dom().contains(i) || nodes[i].op is Leaf {
        tape
    } else {
        deposit(
            tape.remove(i),
            nodes[i].parents,
            step_grads::<E, B>(nodes[i].op, tape[i]),
            nodes[i].parents.len() as int,
        )
    }
}

/// The tape after vertices `i`, `i - 1`, ..., `0` have been visited in
/// strictly decreasing identity order. This is the meaning of one whole
/// backward pass: every consumer is visited before its producers, so a
/// vertex's gradient is complete when its turn comes.
pub open spec fn process<E: FloatElement, B: Backend<E>>(
    nodes: Seq<NodeRep<E>>,
    tape: Map<int, TensorRep<E>>,
    i: int,
) -> Map<int, TensorRep<E>>
    decreases i + 1,
{
    if i < 0 {
        tape
    } else {
        process::<E, B>(nodes, visit::<E, B>(nodes, tape, i), i - 1)
    }
}

/// The seed a backward pass starts from: a gradient of ones at the vertex
/// whose tensor the pass was invoked on.
pub open spec fn seed_tape<E: FloatElement>(root: int, out: TensorRep<E>) -> Map<
    int,
    TensorRep<E>,
> {
    Map::<int, TensorRep<E>>::empty().insert(root, fill_rep(out, E::one_v()))
}

/// Every pending gradient belongs to a vertex and has that vertex's shape.
pub open spec fn tape_ok<E: FloatElement>(
    tape: Map<int, TensorRep<E>>,
    nodes: Seq<NodeRep<E>>,
) -> bool {
    forall|i: int| #[trigger]
        tape.dom().contains(i) ==> 0 <= i < nodes.len() && tape[i].shape =~= nodes[i].out.shape
            && rep_wf(tape[i]) && tape[i].data.len() <= usize::MAX
}

/// Walks the recorded graph backward from the vertex of `t`, seeding its
/// gradient with ones, consuming each visited vertex's gradient and
/// accumulating the operands' gradients, in strictly decreasing identity
/// order. The result holds the accumulated gradients of the vertices never
/// consumed, the tracked inputs among them.
pub fn backward<E: FloatElement, B: Backend<E>>(t: &AutodiffTensor<E>, g: &Graph<E, B>) -> (r: Gradients<E>)
    requires
        g.inv(),
        t.ok(g.view_rep()),
        t.node_of() is Some,
    ensures
        r.inv(),
        r.view_map() =~= process::<E, B>(
            g.view_rep(),
            seed_tape(t.node_of()->Some_0, t.val()),
            g.view_rep().len() - 1,
        ),
{
    let ghost nodes = g.view_rep();
    proof {
        g.lemma_inv_nodes();
    }
    let n = g.len();
    let root = match t.tracked_node() {
        Some(i) => i,
        None => {
            proof {
                assert(false);
            }
            unreached()
        },
    };
    let inner = t.inner();
    let ones = inner.ones_like();
    let mut grads: Gradients<E> = Gradients::new_for(n);
    grads.register(root, ones);
    let ghost seed = seed_tape(t.node_of()->Some_0, t.val());
    proof {
        assert(grads.view_map() =~= seed);
        assert(tape_ok(grads.view_map(), nodes)) by {
            assert(nodes[root as int].out == t.val());
        }
    }
    let mut memo = g.fresh_memo();
    let mut i: usize = n;
    while i > 0
        invariant
            i <= n,
            n == nodes.len(),
            nodes == g.view_rep(),
            g.inv(),
            t.ok(nodes),
            grads.inv(),
            grads.capacity() == n,
            memo_ok(memo@, nodes),
            tape_ok(grads.view_map(), nodes),
            process::<E, B>(nodes, seed, n - 1) =~= process::<E, B>(nodes, grads.view_map(), i - 1),
        decreases i,
    {
        i = i - 1;
        let ghost tape0 = grads.view_map();
        if grads.contains(i) {
            let is_leaf = match g.node_step(i) {
                Step::Leaf { .. } => true,
                _ => false,
            };
            if !is_leaf {
                visit_node(g, i, &mut grads, &mut memo);
            }
        }
        proof {
            assert(grads.view_map() =~= visit::<E, B>(nodes, tape0, i as int));
            assert(process::<E, B>(nodes, tape0, i as int) =~= process::<E, B>(
                nodes,
                visit::<E, B>(nodes, tape0, i as int),
                i as int - 1,
            ));
            assert(process::<E, B>(nodes, seed, n - 1) =~= process::<E, B>(
                nodes,
                grads.view_map(),
                i as int - 1,
            ));
        }
    }
    proof {
        assert(process::<E, B>(nodes, grads.view_map(), -1) =~= grads.view_map());
    }
    grads
}

/// Visits one vertex with a pending gradient: consumes it, materializes the
/// checkpointed operands the backward formula needs, computes the operand
/// gradients, and accumulates them at the present operands.
fn visit_node<E: FloatElement, B: Backend<E>>(
    g: &Graph<E, B>,
    i: usize,
    grads: &mut Gradients<E>,
    memo: &mut Vec<Option<Tensor<E>>>,
)
    requires
        g.inv(),
        i < g.view_rep().len(),
        old(grads).inv(),
        old(grads).capacity() == g.view_rep().len(),
        memo_ok(old(memo)@, g.view_rep()),
        tape_ok(old(grads).view_map(), g.view_rep()),
        old(grads).view_map().dom().contains(i as int),
        !(g.view_rep()[i as int].op is Leaf),
    ensures
        final(grads).inv(),
        final(grads).capacity() == old(grads).capacity(),
        memo_ok(final(memo)@, g.view_rep()),
        tape_ok(final(grads).view_map(), g.view_rep()),
        final(grads).view_map() =~= visit::<E, B>(g.view_rep(), old(grads).view_map(), i as int),
{
    let ghost nodes = g.view_rep();
    let ghost tape0 = old(grads).view_map();
    proof {
        g.lemma_inv_nodes();
    }
    let grad = grads.consume(i);
    let gn = grad.len();
    let ghost grep = grad.rep();
    let ghost op = nodes[i as int].op;
    let ghost gs = step_grads::<E, B>(op, grep);
    proof {
        assert(nodes[i as int].out == crate::graph::op_out::<E, B>(op));
        assert(op_ok::<E, B>(op));
    }
    let parents = g.node_parents(i);
    let step = g.node_step(i);
    match step {
        Step::Leaf { .. } => {
            proof {
                assert(false);
            }
        },
        Step::Add { .. } => {
            let g0 = grad.duplicate();
            let g1 = grad;
            proof {
                lemma_binop_grad_shapes::<E, B>(op, grep);
            }
            deposit2::<E, B>(grads, parents, g0, g1, Ghost(nodes), Ghost(tape0), Ghost(i as int),
                Ghost(gs));
        },
        Step::Sub { .. } => {
            let g0 = grad.duplicate();
            let g1 = grad.neg();
            proof {
                lemma_binop_grad_shapes::<E, B>(op, grep);
            }
            deposit2::<E, B>(grads, parents, g0, g1, Ghost(nodes), Ghost(tape0), Ghost(i as int),
                Ghost(gs));
        },
        Step::Neg { .. } => {
            let g0 = grad.neg();
            proof {
                lemma_unop_grad_shapes::<E, B>(op, grep);
            }
            deposit1::<E, B>(grads, parents, g0, Ghost(nodes), Ghost(tape0), Ghost(i as int), Ghost(gs));
        },
        Step::Mul { lhs, rhs } => {
            let lv = g.retrieve_slot(lhs, Ghost(i as int), memo);
            let rv = g.retrieve_slot(rhs, Ghost(i as int), memo);
            proof {
                lemma_binop_grad_shapes::<E, B>(op, grep);
                crate::graph::lemma_same_shape_bc(grep.shape, rv.rep().shape);
                crate::graph::lemma_same_shape_bc(grep.shape, lv.rep().shape);
            }
            let g0 = grad.mul(&rv);
            let g1 = grad.mul(&lv);
            deposit2::<E, B>(grads, parents, g0, g1, Ghost(nodes), Ghost(tape0), Ghost(i as int),
                Ghost(gs));
        },
        Step::Div { lhs, rhs } => {
            let lv = g.retrieve_slot(lhs, Ghost(i as int), memo);
            let rv = g.retrieve_slot(rhs, Ghost(i as int), memo);
            proof {
                lemma_binop_grad_shapes::<E, B>(op, grep);
                crate::graph::lemma_same_shape_bc(grep.shape, rv.rep().shape);
                crate::graph::lemma_same_shape_bc(grep.shape, lv.rep().shape);
                crate::graph::lemma_same_shape_bc(rv.rep().shape, rv.rep().shape);
            }
            let g0 = grad.div(&rv);
            let num = grad.mul(&lv);
            let den = rv.mul(&rv);
            proof {
                crate::graph::lemma_same_shape_bc(num.rep().shape, den.rep().shape);
            }
            let g1 = num.div(&den).neg();
            deposit2::<E, B>(grads, parents, g0, g1, Ghost(nodes), Ghost(tape0), Ghost(i as int),
                Ghost(gs));
        },
        Step::Matmul { lhs, rhs } => {
            let lv = g.retrieve_slot(lhs, Ghost(i as int), memo);
            let rv = g.retrieve_slot(rhs, Ghost(i as int), memo);
            proof {
                lemma_matmul_grad_shapes::<E, B>(op, grep);
            }
            let rt = rv.transpose();
            let lt = lv.transpose();
            let g0 = grad.matmul(&rt);
            let g1 = lt.matmul(&grad);
            deposit2::<E, B>(grads, parents, g0, g1, Ghost(nodes), Ghost(tape0), Ghost(i as int),
                Ghost(gs));
        },
        Step::Exp { input } => {
            let xv = g.retrieve_slot(input, Ghost(i as int), memo);
            let ev = xv.exp();
            proof {
                lemma_unop_grad_shapes::<E, B>(op, grep);
                crate::graph::lemma_same_shape_bc(grep.shape, ev.rep().shape);
            }
            let g0 = grad.mul(&ev);
            deposit1::<E, B>(grads, parents, g0, Ghost(nodes), Ghost(tape0), Ghost(i as int), Ghost(gs));
        },
        Step::Log { input } => {
            let xv = g.retrieve_slot(input, Ghost(i as int), memo);
            proof {
                lemma_unop_grad_shapes::<E, B>(op, grep);
                crate::graph::lemma_same_shape_bc(grep.shape, xv.rep().shape);
            }
            let g0 = grad.div(&xv);
            deposit1::<E, B>(grads, parents, g0, Ghost(nodes), Ghost(tape0), Ghost(i as int), Ghost(gs));
        },
        Step::PowfScalar { input, exponent } => {
            let xv = g.retrieve_slot(input, Ghost(i as int), memo);
            let e1 = exponent.sub(E::one());
            let pw = xv.powf_scalar(e1).mul_scalar(*exponent);
            proof {
                lemma_unop_grad_shapes::<E, B>(op, grep);
                crate::graph::lemma_same_shape_bc(grep.shape, pw.rep().shape);
            }
            let g0 = grad.mul(&pw);
            deposit1::<E, B>(grads, parents, g0, Ghost(nodes), Ghost(tape0), Ghost(i as int), Ghost(gs));
        },
        Step::Sin { input } => {
            let xv = g.retrieve_slot(input, Ghost(i as int), memo);
            let cv = xv.cos();
            proof {
                lemma_unop_grad_shapes::<E, B>(op, grep);
                crate::graph::lemma_same_shape_bc(grep.shape, cv.rep().shape);
            }
            let g0 = grad.mul(&cv);
            deposit1::<E, B>(grads, parents, g0, Ghost(nodes), Ghost(tape0), Ghost(i as int), Ghost(gs));
        },
        Step::Embedding { weights, indices } => {
            let w = g.retrieve_slot(weights, Ghost(i as int), memo);
            let g0 = B::embedding_backward(&w, &grad, indices);
            proof {
                assert(gs[0] == g0.rep());
                assert(gs[0].shape =~= op_input(op, 0).shape);
            }
            deposit1::<E, B>(grads, parents, g0, Ghost(nodes), Ghost(tape0), Ghost(i as int), Ghost(gs));
        },
        Step::Conv1dWithBias { x, weight, bias, options } => {
            let xv = g.retrieve_slot(x, Ghost(i as int), memo);
            let wv = g.retrieve_slot(weight, Ghost(i as int), memo);
            let bv = g.retrieve_slot(bias, Ghost(i as int), memo);
            let back = B::conv1d_backward(&xv, &wv, Some(&bv), &grad, *options);
            let g2 = match back.bias_grad {
                Some(t) => t,
                None => {
                    proof {
                        assert(false);
                    }
                    unreached()
                },
            };
            proof {
                assert(gs[0] == back.x_grad.rep() && gs[1] == back.weights_grad.rep() && gs[2]
                    == g2.rep());
            }
            deposit3::<E, B>(grads, parents, back.x_grad, back.weights_grad, g2, Ghost(nodes),
                Ghost(tape0), Ghost(i as int), Ghost(gs));
        },
        Step::Conv1dNoBias { x, weight, options } => {
            let xv = g.retrieve_slot(x, Ghost(i as int), memo);
            let wv = g.retrieve_slot(weight, Ghost(i as int), memo);
            let back = B::conv1d_backward(&xv, &wv, None, &grad, *options);
            proof {
                assert(gs[0] == back.x_grad.rep() && gs[1] == back.weights_grad.rep());
            }
            deposit2::<E, B>(grads, parents, back.x_grad, back.weights_grad, Ghost(nodes),
                Ghost(tape0), Ghost(i as int), Ghost(gs));
        },
        Step::ConvTranspose1dWithBias { x, weight, bias, options } => {
            let xv = g.retrieve_slot(x, Ghost(i as int), memo);
            let wv = g.retrieve_slot(weight, Ghost(i as int), memo);
            let bv = g.retrieve_slot(bias, Ghost(i as int), memo);
            let back = B::conv_transpose1d_backward(&xv, &wv, Some(&bv), &grad, *options);
            let g2 = match back.bias_grad {
                Some(t) => t,
                None => {
                    proof {
                        assert(false);
                    }
                    unreached()
                },
            };
            proof {
                assert(gs[0] == back.x_grad.rep() && gs[1] == back.weights_grad.rep() && gs[2]
                    == g2.rep());
            }
            deposit3::<E, B>(grads, parents, back.x_grad, back.weights_grad, g2, Ghost(nodes),
                Ghost(tape0), Ghost(i as int), Ghost(gs));
        },
        Step::ConvTranspose1dNoBias { x, weight, options } => {
            let xv = g.retrieve_slot(x, Ghost(i as int), memo);
            let wv = g.retrieve_slot(weight, Ghost(i as int), memo);
            let back = B::conv_transpose1d_backward(&xv, &wv, None, &grad, *options);
            proof {
                assert(gs[0] == back.x_grad.rep() && gs[1] == back.weights_grad.rep());
            }
            deposit2::<E, B>(grads, parents, back.x_grad, back.weights_grad, Ghost(nodes),
                Ghost(tape0), Ghost(i as int), Ghost(gs));
        },
        Step::AvgPool1d { input, kernel_size, stride, padding, count_include_pad } => {
            let xv = g.retrieve_slot(input, Ghost(i as int), memo);
            let g0 = B::avg_pool1d_backward(&xv, &grad, *kernel_size, *stride, *padding,
                *count_include_pad);
            proof {
                assert(gs[0] == g0.rep());
            }
            deposit1::<E, B>(grads, parents, g0, Ghost(nodes), Ghost(tape0), Ghost(i as int), Ghost(gs));
        },
        Step::MaxPool1d { input, indices, kernel_size, stride, padding, dilation } => {
            let xv = g.retrieve_slot(input, Ghost(i as int), memo);
            let g0 = B::max_pool1d_with_indices_backward(&xv, *kernel_size, *stride, *padding,
                *dilation, &grad, indices);
            proof {
                assert(gs[0] == g0.rep());
            }
            deposit1::<E, B>(grads, parents, g0, Ghost(nodes), Ghost(tape0), Ghost(i as int), Ghost(gs));
        },
        Step::AdaptiveAvgPool1d { input, .. } => {
            let xv = g.retrieve_slot(input, Ghost(i as int), memo);
            let g0 = B::adaptive_avg_pool1d_backward(&xv, &grad);
            proof {
                assert(gs[0] == g0.rep());
            }
            deposit1::<E, B>(grads, parents, g0, Ghost(nodes), Ghost(tape0), Ghost(i as int), Ghost(gs));
        },
        Step::Conv2dWithBias { x, weight, bias, options } => {
            let xv = g.retrieve_slot(x, Ghost(i as int), memo);
            let wv = g.retrieve_slot(weight, Ghost(i as int), memo);
            let bv = g.retrieve_slot(bias, Ghost(i as int), memo);
            let back = B::conv2d_backward(&xv, &wv, Some(&bv), &grad, *options);
            let g2 = match back.bias_grad {
                Some(t) => t,
                None => {
                    proof {
                        assert(false);
                    }
                    unreached()
                },
            };
            proof {
                assert(gs[0] == back.x_grad.rep() && gs[1] == back.weights_grad.rep() && gs[2]
                    == g2.rep());
            }
            deposit3::<E, B>(grads, parents, back.x_grad, back.weights_grad, g2, Ghost(nodes),
                Ghost(tape0), Ghost(i as int), Ghost(gs));
        },
        Step::Conv2dNoBias { x, weight, options } => {
            let xv = g.retrieve_slot(x, Ghost(i as int), memo);
            let wv = g.retrieve_slot(weight, Ghost(i as int), memo);
            let back = B::conv2d_backward(&xv, &wv, None, &grad, *options);
            proof {
                assert(gs[0] == back.x_grad.rep() && gs[1] == back.weights_grad.rep());
            }
            deposit2::<E, B>(grads, parents, back.x_grad, back.weights_grad, Ghost(nodes),
                Ghost(tape0), Ghost(i as int), Ghost(gs));
        },
        Step::ConvTranspose2dWithBias { x, weight, bias, options } => {
            let xv = g.retrieve_slot(x, Ghost(i as int), memo);
            let wv = g.retrieve_slot(weight, Ghost(i as int), memo);
            let bv = g.retrieve_slot(bias, Ghost(i as int), memo);
            let back = B::conv_transpose2d_backward(&xv, &wv, Some(&bv), &grad, *options);
            let g2 = match back.bias_grad {
                Some(t) => t,
                None => {
                    proof {
                        assert(false);
                    }
                    unreached()
                },
            };
            proof {
                assert(gs[0] == back.x_grad.rep() && gs[1] == back.weights_grad.rep() && gs[2]
                    == g2.rep());
            }
            deposit3::<E, B>(grads, parents, back.x_grad, back.weights_grad, g2, Ghost(nodes),
                Ghost(tape0), Ghost(i as int), Ghost(gs));
        },
        Step::ConvTranspose2dNoBias { x, weight, options } => {
            let xv = g.retrieve_slot(x, Ghost(i as int), memo);
            let wv = g.retrieve_slot(weight, Ghost(i as int), memo);
            let back = B::conv_transpose2d_backward(&xv, &wv, None, &grad, *options);
            proof {
                assert(gs[0] == back.x_grad.rep() && gs[1] == back.weights_grad.rep());
            }
            deposit2::<E, B>(grads, parents, back.x_grad, back.weights_grad, Ghost(nodes),
                Ghost(tape0), Ghost(i as int), Ghost(gs));
        },
        Step::AvgPool2d { input, kernel_size, stride, padding, count_include_pad } => {
            let xv = g.retrieve_slot(input, Ghost(i as int), memo);
            let g0 = B::avg_pool2d_backward(&xv, &grad, *kernel_size, *stride, *padding,
                *count_include_pad);
            proof {
                assert(gs[0] == g0.rep());
            }
            deposit1::<E, B>(grads, parents, g0, Ghost(nodes), Ghost(tape0), Ghost(i as int), Ghost(gs));
        },
        Step::MaxPool2d { input, indices, kernel_size, stride, padding, dilation } => {
            let xv = g.retrieve_slot(input, Ghost(i as int), memo);
            let g0 = B::max_pool2d_with_indices_backward(&xv, *kernel_size, *stride, *padding,
                *dilation, &grad, indices);
            proof {
                assert(gs[0] == g0.rep());
            }
            deposit1::<E, B>(grads, parents, g0, Ghost(nodes), Ghost(tape0), Ghost(i as int), Ghost(gs));
        },
        Step::AdaptiveAvgPool2d { input, .. } => {
            let xv = g.retrieve_slot(input, Ghost(i as int), memo);
            let g0 = B::adaptive_avg_pool2d_backward(&xv, &grad);
            proof {
                assert(gs[0] == g0.rep());
            }
            deposit1::<E, B>(grads, parents, g0, Ghost(nodes), Ghost(tape0), Ghost(i as int), Ghost(gs));
        },
        Step::Interpolate { input, output_size, options } => {
            let xv = g.retrieve_slot(input, Ghost(i as int), memo);
            let g0 = B::interpolate_backward(&xv, &grad, *output_size, *options);
            proof {
                assert(gs[0] == g0.rep());
            }
            deposit1::<E, B>(grads, parents, g0, Ghost(nodes), Ghost(tape0), Ghost(i as int), Ghost(gs));
        },
    }
}

/// Accumulates the sole operand gradient of a one-operand vertex.
fn deposit1<E: FloatElement, B: Backend<E>>(
    grads: &mut Gradients<E>,
    parents: &Vec<Option<usize>>,
    g0: Tensor<E>,
    Ghost(nodes): Ghost<Seq<NodeRep<E>>>,
    Ghost(tape0): Ghost<Map<int, TensorRep<E>>>,
    Ghost(i): Ghost<int>,
    Ghost(gs): Ghost<Seq<TensorRep<E>>>,
)
    requires
        nodes_wf::<E, B>(nodes),
        0 <= i < nodes.len(),
        tape_ok(tape0, nodes),
        tape0.dom().contains(i),
        !(nodes[i].op is Leaf),
        old(grads).inv(),
        old(grads).capacity() == nodes.len(),
        old(grads).view_map() =~= tape0.remove(i),
        tape_ok(old(grads).view_map(), nodes),
        gs == step_grads::<E, B>(nodes[i].op, tape0[i]),
        parents@.map_values(
            |p: Option<usize>|
                match p {
                    Some(q) => Some(q as int),
                    None => None,
                },
        ) =~= nodes[i].parents,
        nodes[i].parents.len() == 1,
        g0.wf(),
        g0.rep() == gs[0],
        gs[0].shape =~= op_input(nodes[i].op, 0).shape,
    ensures
        final(grads).inv(),
        final(grads).capacity() == old(grads).capacity(),
        tape_ok(final(grads).view_map(), nodes),
        final(grads).view_map() =~= visit::<E, B>(nodes, tape0, i),
{
    let ghost pars = nodes[i].parents;
    proof {
        assert(deposit(tape0.remove(i), pars, gs, 0) =~= tape0.remove(i));
    }
    match parents[0] {
        Some(p) => {
            proof {
                assert(pars[0] == Some(p as int));
                assert(nodes[p as int].out == op_input(nodes[i].op, 0));
            }
            grads.register(p, g0);
            proof {
                lemma_acc_tape_ok(old(grads).view_map(), nodes, p as int, gs[0]);
                assert(grads.view_map() =~= deposit(tape0.remove(i), pars, gs, 1));
            }
        },
        None => {
            proof {
                assert(pars[0] is None);
                assert(grads.view_map() =~= deposit(tape0.remove(i), pars, gs, 1));
            }
        },
    }
    proof {
        assert(visit::<E, B>(nodes, tape0, i) =~= deposit(tape0.remove(i), pars, gs, 1));
    }
}

/// Accumulates the two operand gradients of a two-operand vertex, first
/// operand first.
fn deposit2<E: FloatElement, B: Backend<E>>(
    grads: &mut Gradients<E>,
    parents: &Vec<Option<usize>>,
    g0: Tensor<E>,
    g1: Tensor<E>,
    Ghost(nodes): Ghost<Seq<NodeRep<E>>>,
    Ghost(tape0): Ghost<Map<int, TensorRep<E>>>,
    Ghost(i): Ghost<int>,
    Ghost(gs): Ghost<Seq<TensorRep<E>>>,
)
    requires
        nodes_wf::<E, B>(nodes),
        0 <= i < nodes.len(),
        tape_ok(tape0, nodes),
        tape0.dom().contains(i),
        !(nodes[i].op is Leaf),
        old(grads).inv(),
        old(grads).capacity() == nodes.len(),
        old(grads).view_map() =~= tape0.remove(i),
        tape_ok(old(grads).view_map(), nodes),
        gs == step_grads::<E, B>(nodes[i].op, tape0[i]),
        parents@.map_values(
            |p: Option<usize>|
                match p {
                    Some(q) => Some(q as int),
                    None => None,
                },
        ) =~= nodes[i].parents,
        nodes[i].parents.len() == 2,
        g0.wf(),
        g1.wf(),
        g0.rep() == gs[0],
        g1.rep() == gs[1],
        gs[0].shape =~= op_input(nodes[i].op, 0).shape,
        gs[1].shape =~= op_input(nodes[i].op, 1).shape,
    ensures
        final(grads).inv(),
        final(grads).capacity() == old(grads).capacity(),
        tape_ok(final(grads).view_map(), nodes),
        final(grads).view_map() =~= visit::<E, B>(nodes, tape0, i),
{
    let ghost pars = nodes[i].parents;
    proof {
        assert(deposit(tape0.remove(i), pars, gs, 0) =~= tape0.remove(i));
    }
    let ghost tape1 = deposit(tape0.remove(i), pars, gs, 1);
    match parents[0] {
        Some(p) => {
            proof {
                assert(pars[0] == Some(p as int));
                assert(nodes[p as int].out == op_input(nodes[i].op, 0));
            }
            grads.register(p, g0);
            proof {
                lemma_acc_tape_ok(tape0.remove(i), nodes, p as int, gs[0]);
                assert(grads.view_map() =~= tape1);
            }
        },
        None => {
            proof {
                assert(pars[0] is None);
                assert(grads.view_map() =~= tape1);
            }
        },
    }
    match parents[1] {
        Some(p) => {
            proof {
                assert(pars[1] == Some(p as int));
                assert(nodes[p as int].out == op_input(nodes[i].op, 1));
            }
            grads.register(p, g1);
            proof {
                lemma_acc_tape_ok(tape1, nodes, p as int, gs[1]);
                assert(grads.view_map() =~= deposit(tape0.remove(i), pars, gs, 2));
            }
        },
        None => {
            proof {
                assert(pars[1] is None);
                assert(grads.view_map() =~= deposit(tape0.remove(i), pars, gs, 2));
            }
        },
    }
    proof {
        assert(visit::<E, B>(nodes, tape0, i) =~= deposit(tape0.remove(i), pars, gs, 2));
    }
}


/// Accumulates the three operand gradients of a three-operand vertex, in
/// operand order.
fn deposit3<E: FloatElement, B: Backend<E>>(
    grads: &mut Gradients<E>,
    parents: &Vec<Option<usize>>,
    g0: Tensor<E>,
    g1: Tensor<E>,
    g2: Tensor<E>,
    Ghost(nodes): Ghost<Seq<NodeRep<E>>>,
    Ghost(tape0): Ghost<Map<int, TensorRep<E>>>,
    Ghost(i): Ghost<int>,
    Ghost(gs): Ghost<Seq<TensorRep<E>>>,
)
    requires
        nodes_wf::<E, B>(nodes),
        0 <= i < nodes.len(),
        tape_ok(tape0, nodes),
        tape0.dom().contains(i),
        !(nodes[i].op is Leaf),
        old(grads).inv(),
        old(grads).capacity() == nodes.len(),
        old(grads).view_map() =~= tape0.remove(i),
        tape_ok(old(grads).view_map(), nodes),
        gs == step_grads::<E, B>(nodes[i].op, tape0[i]),
        parents@.map_values(
            |p: Option<usize>|
                match p {
                    Some(q) => Some(q as int),
                    None => None,
                },
        ) =~= nodes[i].parents,
        nodes[i].parents.len() == 3,
        g0.wf(),
        g1.wf(),
        g2.wf(),
        g0.rep() == gs[0],
        g1.rep() == gs[1],
        g2.rep() == gs[2],
        gs[0].shape =~= op_input(nodes[i].op, 0).shape,
        gs[1].shape =~= op_input(nodes[i].op, 1).shape,
        gs[2].shape =~= op_input(nodes[i].op, 2).shape,
    ensures
        final(grads).inv(),
        final(grads).capacity() == old(grads).capacity(),
        tape_ok(final(grads).view_map(), nodes),
        final(grads).view_map() =~= visit::<E, B>(nodes, tape0, i),
{
    let ghost pars = nodes[i].parents;
    proof {
        assert(deposit(tape0.remove(i), pars, gs, 0) =~= tape0.remove(i));
    }
    let ghost tape1 = deposit(tape0.remove(i), pars, gs, 1);
    let ghost tape2 = deposit(tape0.remove(i), pars, gs, 2);
    match parents[0] {
        Some(p) => {
            proof {
                assert(pars[0] == Some(p as int));
                assert(nodes[p as int].out == op_input(nodes[i].op, 0));
            }
            grads.register(p, g0);
            proof {
                lemma_acc_tape_ok(tape0.remove(i), nodes, p as int, gs[0]);
                assert(grads.view_map() =~= tape1);
            }
        },
        None => {
            proof {
                assert(pars[0] is None);
                assert(grads.view_map() =~= tape1);
            }
        },
    }
    match parents[1] {
        Some(p) => {
            proof {
                assert(pars[1] == Some(p as int));
                assert(nodes[p as int].out == op_input(nodes[i].op, 1));
            }
            grads.register(p, g1);
            proof {
                lemma_acc_tape_ok(tape1, nodes, p as int, gs[1]);
                assert(grads.view_map() =~= tape2);
            }
        },
        None => {
            proof {
                assert(pars[1] is None);
                assert(grads.view_map() =~= tape2);
            }
        },
    }
    match parents[2] {
        Some(p) => {
            proof {
                assert(pars[2] == Some(p as int));
                assert(nodes[p as int].out == op_input(nodes[i].op, 2));
            }
            grads.register(p, g2);
            proof {
                lemma_acc_tape_ok(tape2, nodes, p as int, gs[2]);
                assert(grads.view_map() =~= deposit(tape0.remove(i), pars, gs, 3));
            }
        },
        None => {
            proof {
                assert(pars[2] is None);
                assert(grads.view_map() =~= deposit(tape0.remove(i), pars, gs, 3));
            }
        },
    }
    proof {
        assert(visit::<E, B>(nodes, tape0, i) =~= deposit(tape0.remove(i), pars, gs, 3));
    }
}

/// Accumulating a well-shaped gradient keeps every pending gradient
/// well-shaped.
proof fn lemma_acc_tape_ok<E: FloatElement>(
    tape: Map<int, TensorRep<E>>,
    nodes: Seq<NodeRep<E>>,
    p: int,
    g: TensorRep<E>,
)
    requires
        tape_ok(tape, nodes),
        0 <= p < nodes.len(),
        g.shape =~= nodes[p].out.shape,
        rep_wf(g),
        g.data.len() <= usize::MAX,
    ensures
        tape_ok(tape_acc(tape, p, g), nodes),
{
    let after = tape_acc(tape, p, g);
    assert forall|j: int| #[trigger] after.dom().contains(j) implies 0 <= j < nodes.len()
        && after[j].shape =~= nodes[j].out.shape && rep_wf(after[j]) && after[j].data.len()
        <= usize::MAX by {
        if j == p && tape.dom().contains(p) {
            crate::graph::lemma_same_shape_bc(tape[p].shape, g.shape);
            assert(after[j] == add_rep(tape[p], g));
        } else if j == p {
            assert(after[j] == g);
        } else {
            assert(tape.dom().contains(j));
        }
    }
}

/// The gradient of an elementwise two-operand vertex has each operand's
/// shape, is well formed, and fits a machine word.
proof fn lemma_binop_grad_shapes<E: FloatElement, B: Backend<E>>(op: OpRep<E>, g: TensorRep<E>)
    requires
        op_ok::<E, B>(op),
        op is Add || op is Sub || op is Mul || op is Div,
        g.shape =~= crate::graph::op_out::<E, B>(op).shape,
        rep_wf(g),
        g.data.len() <= usize::MAX,
    ensures
        g.shape =~= op_input(op, 0).shape,
        g.shape =~= op_input(op, 1).shape,
        step_grads::<E, B>(op, g)[0].shape =~= op_input(op, 0).shape,
        step_grads::<E, B>(op, g)[1].shape =~= op_input(op, 1).shape,
        rep_wf(step_grads::<E, B>(op, g)[0]),
        rep_wf(step_grads::<E, B>(op, g)[1]),
{
    crate::graph::lemma_same_shape_bc(op_input(op, 0).shape, op_input(op, 1).shape);
    crate::graph::lemma_same_shape_bc(g.shape, op_input(op, 0).shape);
    crate::graph::lemma_same_shape_bc(g.shape, op_input(op, 1).shape);
    crate::shape::lemma_prod_sign(g.shape);
}

/// The gradient of an elementwise one-operand vertex has the operand's
/// shape, is well formed, and fits a machine word.
proof fn lemma_unop_grad_shapes<E: FloatElement, B: Backend<E>>(op: OpRep<E>, g: TensorRep<E>)
    requires
        op_ok::<E, B>(op),
        op is Neg || op is Exp || op is Log || op is PowfScalar || op is Sin,
        g.shape =~= crate::graph::op_out::<E, B>(op).shape,
        rep_wf(g),
        g.data.len() <= usize::MAX,
    ensures
        g.shape =~= op_input(op, 0).shape,
        step_grads::<E, B>(op, g)[0].shape =~= op_input(op, 0).shape,
        rep_wf(step_grads::<E, B>(op, g)[0]),
{
    crate::graph::lemma_same_shape_bc(g.shape, op_input(op, 0).shape);
}

/// The operand gradients of a matrix-product vertex have the operands'
/// shapes and are well formed.
proof fn lemma_matmul_grad_shapes<E: FloatElement, B: Backend<E>>(op: OpRep<E>, g: TensorRep<E>)
    requires
        op_ok::<E, B>(op),
        op is Matmul,
        g.shape =~= crate::graph::op_out::<E, B>(op).shape,
        rep_wf(g),
        g.data.len() <= usize::MAX,
    ensures
        step_grads::<E, B>(op, g)[0].shape =~= op_input(op, 0).shape,
        step_grads::<E, B>(op, g)[1].shape =~= op_input(op, 1).shape,
        rep_wf(step_grads::<E, B>(op, g)[0]),
        rep_wf(step_grads::<E, B>(op, g)[1]),
        g.shape.len() == 2,
        g.shape[0] == op_input(op, 0).shape[0],
        g.shape[1] == op_input(op, 1).shape[1],
        g.shape[0] * transpose2(op_input(op, 1)).shape[1] <= usize::MAX,
        transpose2(op_input(op, 0)).shape[0] * g.shape[1] <= usize::MAX,
{
    let l = op_input(op, 0);
    let r = op_input(op, 1);
    crate::tensor::lemma_two_dims(l.shape);
    crate::tensor::lemma_two_dims(r.shape);
    let gl = matmul_rep(g, transpose2(r));
    let gr = matmul_rep(transpose2(l), g);
    assert(transpose2(r).shape =~= seq![r.shape[1], r.shape[0]]);
    assert(transpose2(l).shape =~= seq![l.shape[1], l.shape[0]]);
    assert(gl.shape =~= l.shape);
    assert(gr.shape =~= r.shape);
}

} // verus!
