use vstd::prelude::*;

use crate::element::{Element, FloatElement};
use crate::grads::Gradients;
use crate::backend::{Backend, ConvOptions, ConvTransposeOptions, InterpolateOptions};
use crate::graph::{
    lemma_same_shape_bc, op_arity, op_input, op_ok, op_out, step_op, step_wf, Graph, NodeRep,
    OpRep, Slot, SlotKind, Step,
};
use crate::tensor::{
    add_rep, div_rep, exp_rep, log_rep, matmul_rep, mul_rep, neg_rep, powf_scalar_rep, rep_wf,
    sin_rep, sub_rep, Tensor, TensorRep,
};

verus! {

/// How checkpointing treats an operation's operands: retain each value
/// verbatim, or retain only the identity of the vertex that can replay it
/// and recompute on demand during the backward pass.
#[derive(Clone, Copy, PartialEq, Eq, Structural, Debug)]
pub enum CheckpointStrategy {
    /// Retain forward values; retrieval is a direct lookup.
    MemoryBound,
    /// Retain replay recipes; retrieval re-executes the forward
    /// computation, memoized per backward pass.
    ComputeBound,
}

/// A tensor value together with its place in a differentiation graph: the
/// underlying value, and the vertex that produced it, absent when the value
/// does not require gradients.
pub struct AutodiffTensor<E> {
    primitive: Tensor<E>,
    node: Option<usize>,
}

impl<E: FloatElement> AutodiffTensor<E> {
    /// The underlying tensor value.
    pub closed spec fn val(&self) -> TensorRep<E> {
        self.primitive.rep()
    }

    /// The identity of the vertex that produced this value; absent means
    /// gradients are not required through it.
    pub closed spec fn node_of(&self) -> Option<int> {
        match self.node {
            Some(i) => Some(i as int),
            None => None,
        }
    }

    /// The tensor belongs to the graph: its value is well formed and its
    /// vertex, if any, recorded exactly this value.
    pub open spec fn ok(&self, nodes: Seq<NodeRep<E>>) -> bool {
        &&& rep_wf(self.val())
        &&& self.val().data.len() <= usize::MAX
        &&& match self.node_of() {
            Some(i) => 0 <= i < nodes.len() && nodes[i].out == self.val(),
            None => true,
        }
    }

    /// The tensor's value is well formed, whatever graph it belongs to.
    pub open spec fn ok_any(&self) -> bool {
        rep_wf(self.val()) && self.val().data.len() <= usize::MAX
    }

    /// Wraps a plain value that does not require gradients.
    pub fn new(t: Tensor<E>) -> (r: AutodiffTensor<E>)
        requires
            t.wf(),
        ensures
            r.node_of() is None,
            r.val() == t.rep(),
            forall|nodes: Seq<NodeRep<E>>| r.ok(nodes),
    {
        let n = t.len();
        AutodiffTensor { primitive: t, node: None }
    }

    /// The identity of this tensor's vertex, if it has one.
    pub fn tracked_node(&self) -> (r: Option<usize>)
        ensures
            match r {
                Some(i) => self.node_of() == Some(i as int),
                None => self.node_of() is None,
            },
    {
        self.node
    }

    /// Whether gradients flow through this tensor.
    pub fn is_tracked(&self) -> (r: bool)
        ensures
            r == (self.node_of() is Some),
    {
        self.node.is_some()
    }

    /// The underlying value, as a fresh tensor.
    pub fn inner(&self) -> (r: Tensor<E>)
        ensures
            r.rep() == self.val(),
            rep_wf(self.val()) ==> r.wf(),
    {
        self.primitive.duplicate()
    }

    /// Marks a plain value as requiring gradients: records a tracked input
    /// vertex holding the value and hands back the tensor attached to it.
    pub fn require_grad<B: Backend<E>>(t: Tensor<E>, g: &mut Graph<E, B>) -> (r: AutodiffTensor<E>)
        requires
            old(g).inv(),
            t.wf(),
        ensures
            final(g).inv(),
            old(g).view_rep().is_prefix_of(final(g).view_rep()),
            r.ok(final(g).view_rep()),
            r.val() == t.rep(),
            r.node_of() == Some(old(g).view_rep().len() as int),
            final(g).view_rep() =~= old(g).view_rep().push(
                (NodeRep {
                    parents: Seq::<Option<int>>::empty(),
                    op: (OpRep::Leaf { v: t.rep() }),
                    out: t.rep(),
                }),
            ),
    {
        let n = t.len();
        let copy = t.duplicate();
        let parents: Vec<Option<usize>> = Vec::new();
        let ghost before = g.view_rep();
        let id = g.push_node(parents, Step::Leaf { val: copy });
        proof {
            assert(Seq::<Option<usize>>::empty().map_values(
                |p: Option<usize>|
                    match p {
                        Some(q) => Some(q as int),
                        None => None,
                    },
            ) =~= Seq::<Option<int>>::empty());
            assert(before.is_prefix_of(g.view_rep()));
        }
        AutodiffTensor { primitive: t, node: Some(id) }
    }

    /// The gradient accumulated for this tensor by a finished backward
    /// pass: absent when the tensor never required gradients or no gradient
    /// reached it. Reading never changes the gradients, so asking twice
    /// answers the same value.
    pub fn grad(&self, grads: &Gradients<E>) -> (r: Option<Tensor<E>>)
        requires
            grads.inv(),
        ensures
            match self.node_of() {
                None => r is None,
                Some(i) => match r {
                    Some(t) => grads.view_map().dom().contains(i) && t.rep()
                        == grads.view_map()[i] && t.wf(),
                    None => !grads.view_map().dom().contains(i),
                },
            },
    {
        match self.node {
            Some(i) => grads.query(i),
            None => None,
        }
    }
}

/// Checkpoints one operand per the chosen strategy: the memory-bound
/// strategy stores the value, the compute-bound strategy stores the
/// operand's vertex where it has one and the value where it does not.
fn checkpoint_input<E: FloatElement>(
    t: &AutodiffTensor<E>,
    strategy: CheckpointStrategy,
    Ghost(nodes): Ghost<Seq<NodeRep<E>>>,
) -> (s: Slot<E>)
    requires
        t.ok(nodes),
    ensures
        s.rep@ == t.val(),
        crate::graph::slot_wf(s, nodes, nodes.len() as int),
{
    match strategy {
        CheckpointStrategy::MemoryBound => Slot {
            kind: SlotKind::Val(t.inner()),
            rep: Ghost(t.val()),
        },
        CheckpointStrategy::ComputeBound => match t.node {
            Some(i) => Slot { kind: SlotKind::Node(i), rep: Ghost(t.val()) },
            None => Slot { kind: SlotKind::Val(t.inner()), rep: Ghost(t.val()) },
        },
    }
}


/// Differentiable elementwise sum of two tensors of one shape. When
/// neither operand requires gradients, no vertex is recorded and the graph
/// is left untouched; otherwise one vertex is appended whose parents are
/// the operands' vertices, pruned where an operand is untracked.
pub fn add<E: FloatElement, B: Backend<E>>(
    a: &AutodiffTensor<E>,
    b: &AutodiffTensor<E>,
    g: &mut Graph<E, B>,
    strategy: CheckpointStrategy,
) -> (r: AutodiffTensor<E>)
    requires
        old(g).inv(),
        a.ok(old(g).view_rep()),
        b.ok(old(g).view_rep()),
        a.val().shape =~= b.val().shape,
    ensures
        final(g).inv(),
        old(g).view_rep().is_prefix_of(final(g).view_rep()),
        r.ok(final(g).view_rep()),
        r.val() == add_rep(a.val(), b.val()),
        (a.node_of() is None && b.node_of() is None) ==> final(g).view_rep() =~= old(
            g,
        ).view_rep() && r.node_of() is None,
        !(a.node_of() is None && b.node_of() is None) ==> {
            &&& r.node_of() == Some(old(g).view_rep().len() as int)
            &&& final(g).view_rep() =~= old(g).view_rep().push(
                (NodeRep {
                    parents: seq![a.node_of(), b.node_of()],
                    op: (OpRep::Add { l: a.val(), r: b.val() }),
                    out: add_rep(a.val(), b.val()),
                }),
            )
        },
{
    proof {
        lemma_same_shape_bc(a.val().shape, b.val().shape);
    }
    let out = a.primitive.add(&b.primitive);
    let m = out.len();
    let is_tracked = a.node.is_some() || b.node.is_some();
    if is_tracked {
        let ghost before = g.view_rep();
        let lhs = checkpoint_input(a, strategy, Ghost(g.view_rep()));
        let rhs = checkpoint_input(b, strategy, Ghost(g.view_rep()));
        let mut parents: Vec<Option<usize>> = Vec::new();
        parents.push(a.node);
        parents.push(b.node);
        proof {
            assert(parents@.map_values(
                |p: Option<usize>|
                    match p {
                        Some(q) => Some(q as int),
                        None => None,
                    },
            ) =~= seq![a.node_of(), b.node_of()]);
        }
        let id = g.push_node(parents, Step::Add { lhs, rhs });
        proof {
            assert(before.is_prefix_of(g.view_rep()));
        }
        AutodiffTensor { primitive: out, node: Some(id) }
    } else {
        AutodiffTensor { primitive: out, node: None }
    }
}


/// Differentiable elementwise difference of two tensors of one shape. When
/// neither operand requires gradients, no vertex is recorded and the graph
/// is left untouched; otherwise one vertex is appended whose parents are
/// the operands' vertices, pruned where an operand is untracked.
pub fn sub<E: FloatElement, B: Backend<E>>(
    a: &AutodiffTensor<E>,
    b: &AutodiffTensor<E>,
    g: &mut Graph<E, B>,
    strategy: CheckpointStrategy,
) -> (r: AutodiffTensor<E>)
    requires
        old(g).inv(),
        a.ok(old(g).view_rep()),
        b.ok(old(g).view_rep()),
        a.val().shape =~= b.val().shape,
    ensures
        final(g).inv(),
        old(g).view_rep().is_prefix_of(final(g).view_rep()),
        r.ok(final(g).view_rep()),
        r.val() == sub_rep(a.val(), b.val()),
        (a.node_of() is None && b.node_of() is None) ==> final(g).view_rep() =~= old(
            g,
        ).view_rep() && r.node_of() is None,
        !(a.node_of() is None && b.node_of() is None) ==> {
            &&& r.node_of() == Some(old(g).view_rep().len() as int)
            &&& final(g).view_rep() =~= old(g).view_rep().push(
                (NodeRep {
                    parents: seq![a.node_of(), b.node_of()],
                    op: (OpRep::Sub { l: a.val(), r: b.val() }),
                    out: sub_rep(a.val(), b.val()),
                }),
            )
        },
{
    proof {
        lemma_same_shape_bc(a.val().shape, b.val().shape);
    }
    let out = a.primitive.sub(&b.primitive);
    let m = out.len();
    let is_tracked = a.node.is_some() || b.node.is_some();
    if is_tracked {
        let ghost before = g.view_rep();
        let lhs = checkpoint_input(a, strategy, Ghost(g.view_rep()));
        let rhs = checkpoint_input(b, strategy, Ghost(g.view_rep()));
        let mut parents: Vec<Option<usize>> = Vec::new();
        parents.push(a.node);
        parents.push(b.node);
        proof {
            assert(parents@.map_values(
                |p: Option<usize>|
                    match p {
                        Some(q) => Some(q as int),
                        None => None,
                    },
            ) =~= seq![a.node_of(), b.node_of()]);
        }
        let id = g.push_node(parents, Step::Sub { lhs, rhs });
        proof {
            assert(before.is_prefix_of(g.view_rep()));
        }
        AutodiffTensor { primitive: out, node: Some(id) }
    } else {
        AutodiffTensor { primitive: out, node: None }
    }
}


/// Differentiable elementwise product of two tensors of one shape. When
/// neither operand requires gradients, no vertex is recorded and the graph
/// is left untouched; otherwise one vertex is appended whose parents are
/// the operands' vertices, pruned where an operand is untracked.
pub fn mul<E: FloatElement, B: Backend<E>>(
    a: &AutodiffTensor<E>,
    b: &AutodiffTensor<E>,
    g: &mut Graph<E, B>,
    strategy: CheckpointStrategy,
) -> (r: AutodiffTensor<E>)
    requires
        old(g).inv(),
        a.ok(old(g).view_rep()),
        b.ok(old(g).view_rep()),
        a.val().shape =~= b.val().shape,
    ensures
        final(g).inv(),
        old(g).view_rep().is_prefix_of(final(g).view_rep()),
        r.ok(final(g).view_rep()),
        r.val() == mul_rep(a.val(), b.val()),
        (a.node_of() is None && b.node_of() is None) ==> final(g).view_rep() =~= old(
            g,
        ).view_rep() && r.node_of() is None,
        !(a.node_of() is None && b.node_of() is None) ==> {
            &&& r.node_of() == Some(old(g).view_rep().len() as int)
            &&& final(g).view_rep() =~= old(g).view_rep().push(
                (NodeRep {
                    parents: seq![a.node_of(), b.node_of()],
                    op: (OpRep::Mul { l: a.val(), r: b.val() }),
                    out: mul_rep(a.val(), b.val()),
                }),
            )
        },
{
    proof {
        lemma_same_shape_bc(a.val().shape, b.val().shape);
    }
    let out = a.primitive.mul(&b.primitive);
    let m = out.len();
    let is_tracked = a.node.is_some() || b.node.is_some();
    if is_tracked {
        let ghost before = g.view_rep();
        let lhs = checkpoint_input(a, strategy, Ghost(g.view_rep()));
        let rhs = checkpoint_input(b, strategy, Ghost(g.view_rep()));
        let mut parents: Vec<Option<usize>> = Vec::new();
        parents.push(a.node);
        parents.push(b.node);
        proof {
            assert(parents@.map_values(
                |p: Option<usize>|
                    match p {
                        Some(q) => Some(q as int),
                        None => None,
                    },
            ) =~= seq![a.node_of(), b.node_of()]);
        }
        let id = g.push_node(parents, Step::Mul { lhs, rhs });
        proof {
            assert(before.is_prefix_of(g.view_rep()));
        }
        AutodiffTensor { primitive: out, node: Some(id) }
    } else {
        AutodiffTensor { primitive: out, node: None }
    }
}


/// Differentiable elementwise quotient of two tensors of one shape. When
/// neither operand requires gradients, no vertex is recorded and the graph
/// is left untouched; otherwise one vertex is appended whose parents are
/// the operands' vertices, pruned where an operand is untracked.
pub fn div<E: FloatElement, B: Backend<E>>(
    a: &AutodiffTensor<E>,
    b: &AutodiffTensor<E>,
    g: &mut Graph<E, B>,
    strategy: CheckpointStrategy,
) -> (r: AutodiffTensor<E>)
    requires
        old(g).inv(),
        a.ok(old(g).view_rep()),
        b.ok(old(g).view_rep()),
        a.val().shape =~= b.val().shape,
    ensures
        final(g).inv(),
        old(g).view_rep().is_prefix_of(final(g).view_rep()),
        r.ok(final(g).view_rep()),
        r.val() == div_rep(a.val(), b.val()),
        (a.node_of() is None && b.node_of() is None) ==> final(g).view_rep() =~= old(
            g,
        ).view_rep() && r.node_of() is None,
        !(a.node_of() is None && b.node_of() is None) ==> {
            &&& r.node_of() == Some(old(g).view_rep().len() as int)
            &&& final(g).view_rep() =~= old(g).view_rep().push(
                (NodeRep {
                    parents: seq![a.node_of(), b.node_of()],
                    op: (OpRep::Div { l: a.val(), r: b.val() }),
                    out: div_rep(a.val(), b.val()),
                }),
            )
        },
{
    proof {
        lemma_same_shape_bc(a.val().shape, b.val().shape);
    }
    let out = a.primitive.div(&b.primitive);
    let m = out.len();
    let is_tracked = a.node.is_some() || b.node.is_some();
    if is_tracked {
        let ghost before = g.view_rep();
        let lhs = checkpoint_input(a, strategy, Ghost(g.view_rep()));
        let rhs = checkpoint_input(b, strategy, Ghost(g.view_rep()));
        let mut parents: Vec<Option<usize>> = Vec::new();
        parents.push(a.node);
        parents.push(b.node);
        proof {
            assert(parents@.map_values(
                |p: Option<usize>|
                    match p {
                        Some(q) => Some(q as int),
                        None => None,
                    },
            ) =~= seq![a.node_of(), b.node_of()]);
        }
        let id = g.push_node(parents, Step::Div { lhs, rhs });
        proof {
            assert(before.is_prefix_of(g.view_rep()));
        }
        AutodiffTensor { primitive: out, node: Some(id) }
    } else {
        AutodiffTensor { primitive: out, node: None }
    }
}


/// Differentiable elementwise negation. When the operand does not require
/// gradients, no vertex is recorded and the graph is left untouched;
/// otherwise one vertex is appended with the operand's vertex as parent.
pub fn neg<E: FloatElement, B: Backend<E>>(
    a: &AutodiffTensor<E>,
    g: &mut Graph<E, B>,
    strategy: CheckpointStrategy,
) -> (r: AutodiffTensor<E>)
    requires
        old(g).inv(),
        a.ok(old(g).view_rep()),
    ensures
        final(g).inv(),
        old(g).view_rep().is_prefix_of(final(g).view_rep()),
        r.ok(final(g).view_rep()),
        r.val() == neg_rep(a.val()),
        a.node_of() is None ==> final(g).view_rep() =~= old(g).view_rep() && r.node_of() is None,
        a.node_of() is Some ==> {
            &&& r.node_of() == Some(old(g).view_rep().len() as int)
            &&& final(g).view_rep() =~= old(g).view_rep().push(
                (NodeRep {
                    parents: seq![a.node_of()],
                    op: (OpRep::Neg { x: a.val() }),
                    out: neg_rep(a.val()),
                }),
            )
        },
{
    proof {
        lemma_same_shape_bc(a.val().shape, a.val().shape);
    }
    let out = a.primitive.neg();
    let m = out.len();
    let is_tracked = a.node.is_some();
    if is_tracked {
        let ghost before = g.view_rep();
        let input = checkpoint_input(a, strategy, Ghost(g.view_rep()));
        let mut parents: Vec<Option<usize>> = Vec::new();
        parents.push(a.node);
        proof {
            assert(parents@.map_values(
                |p: Option<usize>|
                    match p {
                        Some(q) => Some(q as int),
                        None => None,
                    },
            ) =~= seq![a.node_of()]);
        }
        let id = g.push_node(parents, Step::Neg { input });
        proof {
            assert(before.is_prefix_of(g.view_rep()));
        }
        AutodiffTensor { primitive: out, node: Some(id) }
    } else {
        AutodiffTensor { primitive: out, node: None }
    }
}


/// Differentiable elementwise exponential. When the operand does not require
/// gradients, no vertex is recorded and the graph is left untouched;
/// otherwise one vertex is appended with the operand's vertex as parent.
pub fn exp<E: FloatElement, B: Backend<E>>(
    a: &AutodiffTensor<E>,
    g: &mut Graph<E, B>,
    strategy: CheckpointStrategy,
) -> (r: AutodiffTensor<E>)
    requires
        old(g).inv(),
        a.ok(old(g).view_rep()),
    ensures
        final(g).inv(),
        old(g).view_rep().is_prefix_of(final(g).view_rep()),
        r.ok(final(g).view_rep()),
        r.val() == exp_rep(a.val()),
        a.node_of() is None ==> final(g).view_rep() =~= old(g).view_rep() && r.node_of() is None,
        a.node_of() is Some ==> {
            &&& r.node_of() == Some(old(g).view_rep().len() as int)
            &&& final(g).view_rep() =~= old(g).view_rep().push(
                (NodeRep {
                    parents: seq![a.node_of()],
                    op: (OpRep::Exp { x: a.val() }),
                    out: exp_rep(a.val()),
                }),
            )
        },
{
    proof {
        lemma_same_shape_bc(a.val().shape, a.val().shape);
    }
    let out = a.primitive.exp();
    let m = out.len();
    let is_tracked = a.node.is_some();
    if is_tracked {
        let ghost before = g.view_rep();
        let input = checkpoint_input(a, strategy, Ghost(g.view_rep()));
        let mut parents: Vec<Option<usize>> = Vec::new();
        parents.push(a.node);
        proof {
            assert(parents@.map_values(
                |p: Option<usize>|
                    match p {
                        Some(q) => Some(q as int),
                        None => None,
                    },
            ) =~= seq![a.node_of()]);
        }
        let id = g.push_node(parents, Step::Exp { input });
        proof {
            assert(before.is_prefix_of(g.view_rep()));
        }
        AutodiffTensor { primitive: out, node: Some(id) }
    } else {
        AutodiffTensor { primitive: out, node: None }
    }
}


/// Differentiable elementwise sine. When the operand does not require
/// gradients, no vertex is recorded and the graph is left untouched;
/// otherwise one vertex is appended with the operand's vertex as parent.
pub fn sin<E: FloatElement, B: Backend<E>>(
    a: &AutodiffTensor<E>,
    g: &mut Graph<E, B>,
    strategy: CheckpointStrategy,
) -> (r: AutodiffTensor<E>)
    requires
        old(g).inv(),
        a.ok(old(g).view_rep()),
    ensures
        final(g).inv(),
        old(g).view_rep().is_prefix_of(final(g).view_rep()),
        r.ok(final(g).view_rep()),
        r.val() == sin_rep(a.val()),
        a.node_of() is None ==> final(g).view_rep() =~= old(g).view_rep() && r.node_of() is None,
        a.node_of() is Some ==> {
            &&& r.node_of() == Some(old(g).view_rep().len() as int)
            &&& final(g).view_rep() =~= old(g).view_rep().push(
                (NodeRep {
                    parents: seq![a.node_of()],
                    op: (OpRep::Sin { x: a.val() }),
                    out: sin_rep(a.val()),
                }),
            )
        },
{
    proof {
        lemma_same_shape_bc(a.val().shape, a.val().shape);
    }
    let out = a.primitive.sin();
    let m = out.len();
    let is_tracked = a.node.is_some();
    if is_tracked {
        let ghost before = g.view_rep();
        let input = checkpoint_input(a, strategy, Ghost(g.view_rep()));
        let mut parents: Vec<Option<usize>> = Vec::new();
        parents.push(a.node);
        proof {
            assert(parents@.map_values(
                |p: Option<usize>|
                    match p {
                        Some(q) => Some(q as int),
                        None => None,
                    },
            ) =~= seq![a.node_of()]);
        }
        let id = g.push_node(parents, Step::Sin { input });
        proof {
            assert(before.is_prefix_of(g.view_rep()));
        }
        AutodiffTensor { primitive: out, node: Some(id) }
    } else {
        AutodiffTensor { primitive: out, node: None }
    }
}


/// Differentiable elementwise natural logarithm. When the operand does not require
/// gradients, no vertex is recorded and the graph is left untouched;
/// otherwise one vertex is appended with the operand's vertex as parent.
pub fn log<E: FloatElement, B: Backend<E>>(
    a: &AutodiffTensor<E>,
    g: &mut Graph<E, B>,
    strategy: CheckpointStrategy,
) -> (r: AutodiffTensor<E>)
    requires
        old(g).inv(),
        a.ok(old(g).view_rep()),
    ensures
        final(g).inv(),
        old(g).view_rep().is_prefix_of(final(g).view_rep()),
        r.ok(final(g).view_rep()),
        r.val() == log_rep(a.val()),
        a.node_of() is None ==> final(g).view_rep() =~= old(g).view_rep() && r.node_of() is None,
        a.node_of() is Some ==> {
            &&& r.node_of() == Some(old(g).view_rep().len() as int)
            &&& final(g).view_rep() =~= old(g).view_rep().push(
                (NodeRep {
                    parents: seq![a.node_of()],
                    op: (OpRep::Log { x: a.val() }),
                    out: log_rep(a.val()),
                }),
            )
        },
{
    proof {
        lemma_same_shape_bc(a.val().shape, a.val().shape);
    }
    let out = a.primitive.log();
    let m = out.len();
    let is_tracked = a.node.is_some();
    if is_tracked {
        let ghost before = g.view_rep();
        let input = checkpoint_input(a, strategy, Ghost(g.view_rep()));
        let mut parents: Vec<Option<usize>> = Vec::new();
        parents.push(a.node);
        proof {
            assert(parents@.map_values(
                |p: Option<usize>|
                    match p {
                        Some(q) => Some(q as int),
                        None => None,
                    },
            ) =~= seq![a.node_of()]);
        }
        let id = g.push_node(parents, Step::Log { input });
        proof {
            assert(before.is_prefix_of(g.view_rep()));
        }
        AutodiffTensor { primitive: out, node: Some(id) }
    } else {
        AutodiffTensor { primitive: out, node: None }
    }
}


/// Differentiable matrix product of two two-dimensional tensors. When
/// neither operand requires gradients, no vertex is recorded; otherwise one
/// vertex is appended whose parents are the operands' vertices, pruned
/// where an operand is untracked.
pub fn matmul<E: FloatElement, B: Backend<E>>(
    a: &AutodiffTensor<E>,
    b: &AutodiffTensor<E>,
    g: &mut Graph<E, B>,
    strategy: CheckpointStrategy,
) -> (r: AutodiffTensor<E>)
    requires
        old(g).inv(),
        a.ok(old(g).view_rep()),
        b.ok(old(g).view_rep()),
        a.val().shape.len() == 2,
        b.val().shape.len() == 2,
        a.val().shape[1] == b.val().shape[0],
        a.val().shape[0] * b.val().shape[1] <= usize::MAX,
    ensures
        final(g).inv(),
        old(g).view_rep().is_prefix_of(final(g).view_rep()),
        r.ok(final(g).view_rep()),
        r.val() == matmul_rep(a.val(), b.val()),
        (a.node_of() is None && b.node_of() is None) ==> final(g).view_rep() =~= old(
            g,
        ).view_rep() && r.node_of() is None,
        !(a.node_of() is None && b.node_of() is None) ==> {
            &&& r.node_of() == Some(old(g).view_rep().len() as int)
            &&& final(g).view_rep() =~= old(g).view_rep().push(
                (NodeRep {
                    parents: seq![a.node_of(), b.node_of()],
                    op: (OpRep::Matmul { l: a.val(), r: b.val() }),
                    out: matmul_rep(a.val(), b.val()),
                }),
            )
        },
{
    let out = a.primitive.matmul(&b.primitive);
    let m = out.len();
    let is_tracked = a.node.is_some() || b.node.is_some();
    if is_tracked {
        let ghost before = g.view_rep();
        let lhs = checkpoint_input(a, strategy, Ghost(g.view_rep()));
        let rhs = checkpoint_input(b, strategy, Ghost(g.view_rep()));
        let mut parents: Vec<Option<usize>> = Vec::new();
        parents.push(a.node);
        parents.push(b.node);
        proof {
            assert(parents@.map_values(
                |p: Option<usize>|
                    match p {
                        Some(q) => Some(q as int),
                        None => None,
                    },
            ) =~= seq![a.node_of(), b.node_of()]);
        }
        let id = g.push_node(parents, Step::Matmul { lhs, rhs });
        proof {
            assert(before.is_prefix_of(g.view_rep()));
        }
        AutodiffTensor { primitive: out, node: Some(id) }
    } else {
        AutodiffTensor { primitive: out, node: None }
    }
}

/// Differentiable elementwise power with a fixed exponent. When the operand
/// does not require gradients, no vertex is recorded; otherwise one vertex
/// is appended with the operand's vertex as parent.
pub fn powf_scalar<E: FloatElement, B: Backend<E>>(
    a: &AutodiffTensor<E>,
    e: E,
    g: &mut Graph<E, B>,
    strategy: CheckpointStrategy,
) -> (r: AutodiffTensor<E>)
    requires
        old(g).inv(),
        a.ok(old(g).view_rep()),
    ensures
        final(g).inv(),
        old(g).view_rep().is_prefix_of(final(g).view_rep()),
        r.ok(final(g).view_rep()),
        r.val() == powf_scalar_rep(a.val(), e),
        a.node_of() is None ==> final(g).view_rep() =~= old(g).view_rep() && r.node_of() is None,
        a.node_of() is Some ==> {
            &&& r.node_of() == Some(old(g).view_rep().len() as int)
            &&& final(g).view_rep() =~= old(g).view_rep().push(
                (NodeRep {
                    parents: seq![a.node_of()],
                    op: (OpRep::PowfScalar { x: a.val(), e: e }),
                    out: powf_scalar_rep(a.val(), e),
                }),
            )
        },
{
    let out = a.primitive.powf_scalar(e);
    let m = out.len();
    let is_tracked = a.node.is_some();
    if is_tracked {
        let ghost before = g.view_rep();
        let input = checkpoint_input(a, strategy, Ghost(g.view_rep()));
        let mut parents: Vec<Option<usize>> = Vec::new();
        parents.push(a.node);
        proof {
            assert(parents@.map_values(
                |p: Option<usize>|
                    match p {
                        Some(q) => Some(q as int),
                        None => None,
                    },
            ) =~= seq![a.node_of()]);
        }
        let id = g.push_node(parents, Step::PowfScalar { input, exponent: e });
        proof {
            assert(before.is_prefix_of(g.view_rep()));
        }
        AutodiffTensor { primitive: out, node: Some(id) }
    } else {
        AutodiffTensor { primitive: out, node: None }
    }
}


/// A request the differentiation layer must refuse, surfaced loudly
/// rather than answered with silently wrong gradients.
#[derive(Clone, Copy, PartialEq, Eq, Structural, Debug)]
pub enum AutodiffError {
    /// A second-order gradient was asked of an operation whose backward
    /// formula is not itself differentiable.
    NonDifferentiableBackward,
}

/// Differentiable embedding lookup. The indices are not differentiable;
/// only the weights may require gradients. When they do not, no vertex is
/// recorded.
pub fn embedding<E: FloatElement, B: Backend<E>>(
    weights: &AutodiffTensor<E>,
    indices: &Tensor<i64>,
    g: &mut Graph<E, B>,
    strategy: CheckpointStrategy,
) -> (r: AutodiffTensor<E>)
    requires
        old(g).inv(),
        weights.ok(old(g).view_rep()),
        indices.wf(),
        weights.val().shape.len() == 2,
        indices.rep().shape.len() == 2,
    ensures
        final(g).inv(),
        old(g).view_rep().is_prefix_of(final(g).view_rep()),
        r.ok(final(g).view_rep()),
        r.val() == B::embedding_v(weights.val(), indices.rep()),
        weights.node_of() is None ==> final(g).view_rep() =~= old(g).view_rep() && r.node_of()
            is None,
        weights.node_of() is Some ==> {
            &&& r.node_of() == Some(old(g).view_rep().len() as int)
            &&& final(g).view_rep() =~= old(g).view_rep().push(
                (NodeRep {
                    parents: seq![weights.node_of()],
                    op: (OpRep::Embedding { w: weights.val(), ind: indices.rep() }),
                    out: B::embedding_v(weights.val(), indices.rep()),
                }),
            )
        },
{
    let out = B::embedding(&weights.primitive, indices);
    let m = out.len();
    let is_tracked = weights.node.is_some();
    if is_tracked {
        let ghost before = g.view_rep();
        let wslot = checkpoint_input(weights, strategy, Ghost(g.view_rep()));
        let mut parents: Vec<Option<usize>> = Vec::new();
        parents.push(weights.node);
        proof {
            assert(parents@.map_values(
                |p: Option<usize>|
                    match p {
                        Some(q) => Some(q as int),
                        None => None,
                    },
            ) =~= seq![weights.node_of()]);
        }
        let id = g.push_node(
            parents,
            Step::Embedding { weights: wslot, indices: indices.duplicate() },
        );
        proof {
            assert(before.is_prefix_of(g.view_rep()));
        }
        AutodiffTensor { primitive: out, node: Some(id) }
    } else {
        AutodiffTensor { primitive: out, node: None }
    }
}

/// The embedding backward formula is not differentiable: a gradient
/// through it is refused.
pub fn embedding_backward<E: FloatElement, B: Backend<E>>(
    _weights: &AutodiffTensor<E>,
    _output: &AutodiffTensor<E>,
    _indices: &Tensor<i64>,
) -> (r: Result<AutodiffTensor<E>, AutodiffError>)
    ensures
        r == Err::<AutodiffTensor<E>, AutodiffError>(AutodiffError::NonDifferentiableBackward),
{
    Err(AutodiffError::NonDifferentiableBackward)
}

/// Differentiable two-dimensional convolution over a `[batch, channel,
/// height, width]` input, with an optional bias. The recorded state takes
/// one of two forms, one per presence of the bias, each checkpointing and
/// later crediting exactly the operands that exist. When no operand
/// requires gradients, no vertex is recorded.
pub fn conv2d<E: FloatElement, B: Backend<E>>(
    x: &AutodiffTensor<E>,
    weight: &AutodiffTensor<E>,
    bias: Option<&AutodiffTensor<E>>,
    options: ConvOptions<2>,
    g: &mut Graph<E, B>,
    strategy: CheckpointStrategy,
) -> (r: AutodiffTensor<E>)
    requires
        old(g).inv(),
        x.ok(old(g).view_rep()),
        weight.ok(old(g).view_rep()),
        bias matches Some(b) ==> b.ok(old(g).view_rep()),
        x.val().shape.len() == 4,
        weight.val().shape.len() == 4,
    ensures
        final(g).inv(),
        old(g).view_rep().is_prefix_of(final(g).view_rep()),
        r.ok(final(g).view_rep()),
        r.val() == B::conv2d_v(
            x.val(),
            weight.val(),
            match bias {
                Some(b) => Some(b.val()),
                None => None,
            },
            options,
        ),
        (x.node_of() is None && weight.node_of() is None && (match bias {
            Some(b) => b.node_of() is None,
            None => true,
        })) ==> final(g).view_rep() =~= old(g).view_rep() && r.node_of() is None,
        !(x.node_of() is None && weight.node_of() is None && (match bias {
            Some(b) => b.node_of() is None,
            None => true,
        })) ==> {
            &&& r.node_of() == Some(old(g).view_rep().len() as int)
            &&& final(g).view_rep() =~= old(g).view_rep().push(
                (match bias {
                    Some(b) => NodeRep {
                        parents: seq![x.node_of(), weight.node_of(), b.node_of()],
                        op: (OpRep::Conv2dWithBias {
                            x: x.val(),
                            w: weight.val(),
                            b: b.val(),
                            options,
                        }),
                        out: B::conv2d_v(x.val(), weight.val(), Some(b.val()), options),
                    },
                    None => NodeRep {
                        parents: seq![x.node_of(), weight.node_of()],
                        op: (OpRep::Conv2dNoBias { x: x.val(), w: weight.val(), options }),
                        out: B::conv2d_v(x.val(), weight.val(), None, options),
                    },
                }),
            )
        },
{
    match bias {
        Some(b) => {
            let out = B::conv2d(&x.primitive, &weight.primitive, Some(&b.primitive), options);
            let m = out.len();
            let is_tracked = x.node.is_some() || weight.node.is_some() || b.node.is_some();
            if is_tracked {
                let ghost before = g.view_rep();
                let xs = checkpoint_input(x, strategy, Ghost(g.view_rep()));
                let ws = checkpoint_input(weight, strategy, Ghost(g.view_rep()));
                let bs = checkpoint_input(b, strategy, Ghost(g.view_rep()));
                let mut parents: Vec<Option<usize>> = Vec::new();
                parents.push(x.node);
                parents.push(weight.node);
                parents.push(b.node);
                proof {
                    assert(parents@.map_values(
                        |p: Option<usize>|
                            match p {
                                Some(q) => Some(q as int),
                                None => None,
                            },
                    ) =~= seq![x.node_of(), weight.node_of(), b.node_of()]);
                }
                let id = g.push_node(
                    parents,
                    Step::Conv2dWithBias { x: xs, weight: ws, bias: bs, options },
                );
                proof {
                    assert(before.is_prefix_of(g.view_rep()));
                }
                AutodiffTensor { primitive: out, node: Some(id) }
            } else {
                AutodiffTensor { primitive: out, node: None }
            }
        },
        None => {
            let out = B::conv2d(&x.primitive, &weight.primitive, None, options);
            let m = out.len();
            let is_tracked = x.node.is_some() || weight.node.is_some();
            if is_tracked {
                let ghost before = g.view_rep();
                let xs = checkpoint_input(x, strategy, Ghost(g.view_rep()));
                let ws = checkpoint_input(weight, strategy, Ghost(g.view_rep()));
                let mut parents: Vec<Option<usize>> = Vec::new();
                parents.push(x.node);
                parents.push(weight.node);
                proof {
                    assert(parents@.map_values(
                        |p: Option<usize>|
                            match p {
                                Some(q) => Some(q as int),
                                None => None,
                            },
                    ) =~= seq![x.node_of(), weight.node_of()]);
                }
                let id = g.push_node(parents, Step::Conv2dNoBias { x: xs, weight: ws, options });
                proof {
                    assert(before.is_prefix_of(g.view_rep()));
                }
                AutodiffTensor { primitive: out, node: Some(id) }
            } else {
                AutodiffTensor { primitive: out, node: None }
            }
        },
    }
}

/// Differentiable two-dimensional transposed convolution, with an optional
/// bias; the recorded state takes one of two forms, one per presence of
/// the bias.
pub fn conv_transpose2d<E: FloatElement, B: Backend<E>>(
    x: &AutodiffTensor<E>,
    weight: &AutodiffTensor<E>,
    bias: Option<&AutodiffTensor<E>>,
    options: ConvTransposeOptions<2>,
    g: &mut Graph<E, B>,
    strategy: CheckpointStrategy,
) -> (r: AutodiffTensor<E>)
    requires
        old(g).inv(),
        x.ok(old(g).view_rep()),
        weight.ok(old(g).view_rep()),
        bias matches Some(b) ==> b.ok(old(g).view_rep()),
        x.val().shape.len() == 4,
        weight.val().shape.len() == 4,
    ensures
        final(g).inv(),
        old(g).view_rep().is_prefix_of(final(g).view_rep()),
        r.ok(final(g).view_rep()),
        r.val() == B::conv_transpose2d_v(
            x.val(),
            weight.val(),
            match bias {
                Some(b) => Some(b.val()),
                None => None,
            },
            options,
        ),
        (x.node_of() is None && weight.node_of() is None && (match bias {
            Some(b) => b.node_of() is None,
            None => true,
        })) ==> final(g).view_rep() =~= old(g).view_rep() && r.node_of() is None,
        !(x.node_of() is None && weight.node_of() is None && (match bias {
            Some(b) => b.node_of() is None,
            None => true,
        })) ==> {
            &&& r.node_of() == Some(old(g).view_rep().len() as int)
            &&& final(g).view_rep() =~= old(g).view_rep().push(
                (match bias {
                    Some(b) => NodeRep {
                        parents: seq![x.node_of(), weight.node_of(), b.node_of()],
                        op: (OpRep::ConvTranspose2dWithBias {
                            x: x.val(),
                            w: weight.val(),
                            b: b.val(),
                            options,
                        }),
                        out: B::conv_transpose2d_v(x.val(), weight.val(), Some(b.val()), options),
                    },
                    None => NodeRep {
                        parents: seq![x.node_of(), weight.node_of()],
                        op: (OpRep::ConvTranspose2dNoBias {
                            x: x.val(),
                            w: weight.val(),
                            options,
                        }),
                        out: B::conv_transpose2d_v(x.val(), weight.val(), None, options),
                    },
                }),
            )
        },
{
    match bias {
        Some(b) => {
            let out = B::conv_transpose2d(
                &x.primitive,
                &weight.primitive,
                Some(&b.primitive),
                options,
            );
            let m = out.len();
            let is_tracked = x.node.is_some() || weight.node.is_some() || b.node.is_some();
            if is_tracked {
                let ghost before = g.view_rep();
                let xs = checkpoint_input(x, strategy, Ghost(g.view_rep()));
                let ws = checkpoint_input(weight, strategy, Ghost(g.view_rep()));
                let bs = checkpoint_input(b, strategy, Ghost(g.view_rep()));
                let mut parents: Vec<Option<usize>> = Vec::new();
                parents.push(x.node);
                parents.push(weight.node);
                parents.push(b.node);
                proof {
                    assert(parents@.map_values(
                        |p: Option<usize>|
                            match p {
                                Some(q) => Some(q as int),
                                None => None,
                            },
                    ) =~= seq![x.node_of(), weight.node_of(), b.node_of()]);
                }
                let id = g.push_node(
                    parents,
                    Step::ConvTranspose2dWithBias { x: xs, weight: ws, bias: bs, options },
                );
                proof {
                    assert(before.is_prefix_of(g.view_rep()));
                }
                AutodiffTensor { primitive: out, node: Some(id) }
            } else {
                AutodiffTensor { primitive: out, node: None }
            }
        },
        None => {
            let out = B::conv_transpose2d(&x.primitive, &weight.primitive, None, options);
            let m = out.len();
            let is_tracked = x.node.is_some() || weight.node.is_some();
            if is_tracked {
                let ghost before = g.view_rep();
                let xs = checkpoint_input(x, strategy, Ghost(g.view_rep()));
                let ws = checkpoint_input(weight, strategy, Ghost(g.view_rep()));
                let mut parents: Vec<Option<usize>> = Vec::new();
                parents.push(x.node);
                parents.push(weight.node);
                proof {
                    assert(parents@.map_values(
                        |p: Option<usize>|
                            match p {
                                Some(q) => Some(q as int),
                                None => None,
                            },
                    ) =~= seq![x.node_of(), weight.node_of()]);
                }
                let id = g.push_node(
                    parents,
                    Step::ConvTranspose2dNoBias { x: xs, weight: ws, options },
                );
                proof {
                    assert(before.is_prefix_of(g.view_rep()));
                }
                AutodiffTensor { primitive: out, node: Some(id) }
            } else {
                AutodiffTensor { primitive: out, node: None }
            }
        },
    }
}


/// Differentiable two-dimensional average pooling. When the input does not
/// require gradients, no vertex is recorded.
pub fn avg_pool2d<E: FloatElement, B: Backend<E>>(
    x: &AutodiffTensor<E>,
    kernel_size: [usize; 2],
    stride: [usize; 2],
    padding: [usize; 2],
    count_include_pad: bool,
    g: &mut Graph<E, B>,
    strategy: CheckpointStrategy,
) -> (r: AutodiffTensor<E>)
    requires
        old(g).inv(),
        x.ok(old(g).view_rep()),
        x.val().shape.len() == 4,
    ensures
        final(g).inv(),
        old(g).view_rep().is_prefix_of(final(g).view_rep()),
        r.ok(final(g).view_rep()),
        r.val() == B::avg_pool2d_v(x.val(), kernel_size, stride, padding, count_include_pad),
        x.node_of() is None ==> final(g).view_rep() =~= old(g).view_rep() && r.node_of() is None,
        x.node_of() is Some ==> {
            &&& r.node_of() == Some(old(g).view_rep().len() as int)
            &&& final(g).view_rep() =~= old(g).view_rep().push(
                (NodeRep {
                    parents: seq![x.node_of()],
                    op: (OpRep::AvgPool2d {
                        x: x.val(),
                        kernel_size,
                        stride,
                        padding,
                        count_include_pad,
                    }),
                    out: B::avg_pool2d_v(x.val(), kernel_size, stride, padding, count_include_pad),
                }),
            )
        },
{
    let out = B::avg_pool2d(&x.primitive, kernel_size, stride, padding, count_include_pad);
    let m = out.len();
    let is_tracked = x.node.is_some();
    if is_tracked {
        let ghost before = g.view_rep();
        let input = checkpoint_input(x, strategy, Ghost(g.view_rep()));
        let mut parents: Vec<Option<usize>> = Vec::new();
        parents.push(x.node);
        proof {
            assert(parents@.map_values(
                |p: Option<usize>|
                    match p {
                        Some(q) => Some(q as int),
                        None => None,
                    },
            ) =~= seq![x.node_of()]);
        }
        let id = g.push_node(
            parents,
            Step::AvgPool2d { input, kernel_size, stride, padding, count_include_pad },
        );
        proof {
            assert(before.is_prefix_of(g.view_rep()));
        }
        AutodiffTensor { primitive: out, node: Some(id) }
    } else {
        AutodiffTensor { primitive: out, node: None }
    }
}

/// The average-pooling backward formula is not differentiable: a gradient
/// through it is refused.
pub fn avg_pool2d_backward<E: FloatElement, B: Backend<E>>(
    _x: &AutodiffTensor<E>,
    _grad: &AutodiffTensor<E>,
    _kernel_size: [usize; 2],
    _stride: [usize; 2],
    _padding: [usize; 2],
    _count_include_pad: bool,
) -> (r: Result<AutodiffTensor<E>, AutodiffError>)
    ensures
        r == Err::<AutodiffTensor<E>, AutodiffError>(AutodiffError::NonDifferentiableBackward),
{
    Err(AutodiffError::NonDifferentiableBackward)
}

/// Differentiable two-dimensional max pooling. The maxima positions are
/// recorded alongside the checkpointed input, so the backward pass routes
/// each gradient cell to the input cell that won its window.
pub fn max_pool2d<E: FloatElement, B: Backend<E>>(
    x: &AutodiffTensor<E>,
    kernel_size: [usize; 2],
    stride: [usize; 2],
    padding: [usize; 2],
    dilation: [usize; 2],
    g: &mut Graph<E, B>,
    strategy: CheckpointStrategy,
) -> (r: AutodiffTensor<E>)
    requires
        old(g).inv(),
        x.ok(old(g).view_rep()),
        x.val().shape.len() == 4,
    ensures
        final(g).inv(),
        old(g).view_rep().is_prefix_of(final(g).view_rep()),
        r.ok(final(g).view_rep()),
        r.val() == B::max_pool2d_with_indices_v(x.val(), kernel_size, stride, padding, dilation).0,
        x.node_of() is None ==> final(g).view_rep() =~= old(g).view_rep() && r.node_of() is None,
        x.node_of() is Some ==> {
            &&& r.node_of() == Some(old(g).view_rep().len() as int)
            &&& final(g).view_rep() =~= old(g).view_rep().push(
                (NodeRep {
                    parents: seq![x.node_of()],
                    op: (OpRep::MaxPool2d {
                        x: x.val(),
                        ind: B::max_pool2d_with_indices_v(
                            x.val(),
                            kernel_size,
                            stride,
                            padding,
                            dilation,
                        ).1,
                        kernel_size,
                        stride,
                        padding,
                        dilation,
                    }),
                    out: B::max_pool2d_with_indices_v(
                        x.val(),
                        kernel_size,
                        stride,
                        padding,
                        dilation,
                    ).0,
                }),
            )
        },
{
    let is_tracked = x.node.is_some();
    if is_tracked {
        let ghost before = g.view_rep();
        let input = checkpoint_input(x, strategy, Ghost(g.view_rep()));
        let (out, indices) = B::max_pool2d_with_indices(
            &x.primitive,
            kernel_size,
            stride,
            padding,
            dilation,
        );
        let m = out.len();
        let mut parents: Vec<Option<usize>> = Vec::new();
        parents.push(x.node);
        proof {
            assert(parents@.map_values(
                |p: Option<usize>|
                    match p {
                        Some(q) => Some(q as int),
                        None => None,
                    },
            ) =~= seq![x.node_of()]);
        }
        let id = g.push_node(
            parents,
            Step::MaxPool2d { input, indices, kernel_size, stride, padding, dilation },
        );
        proof {
            assert(before.is_prefix_of(g.view_rep()));
        }
        AutodiffTensor { primitive: out, node: Some(id) }
    } else {
        let out = B::max_pool2d(&x.primitive, kernel_size, stride, padding, dilation);
        let m = out.len();
        AutodiffTensor { primitive: out, node: None }
    }
}

/// Differentiable two-dimensional max pooling that also hands the maxima
/// positions out to the caller.
pub fn max_pool2d_with_indices<E: FloatElement, B: Backend<E>>(
    x: &AutodiffTensor<E>,
    kernel_size: [usize; 2],
    stride: [usize; 2],
    padding: [usize; 2],
    dilation: [usize; 2],
    g: &mut Graph<E, B>,
    strategy: CheckpointStrategy,
) -> (r: (AutodiffTensor<E>, Tensor<i64>))
    requires
        old(g).inv(),
        x.ok(old(g).view_rep()),
        x.val().shape.len() == 4,
    ensures
        final(g).inv(),
        old(g).view_rep().is_prefix_of(final(g).view_rep()),
        r.0.ok(final(g).view_rep()),
        (r.0.val(), r.1.rep()) == B::max_pool2d_with_indices_v(
            x.val(),
            kernel_size,
            stride,
            padding,
            dilation,
        ),
        x.node_of() is None ==> final(g).view_rep() =~= old(g).view_rep() && r.0.node_of()
            is None,
        x.node_of() is Some ==> r.0.node_of() == Some(old(g).view_rep().len() as int),
{
    let is_tracked = x.node.is_some();
    if is_tracked {
        let ghost before = g.view_rep();
        let input = checkpoint_input(x, strategy, Ghost(g.view_rep()));
        let (out, indices) = B::max_pool2d_with_indices(
            &x.primitive,
            kernel_size,
            stride,
            padding,
            dilation,
        );
        let m = out.len();
        let indices_out = indices.duplicate();
        let mut parents: Vec<Option<usize>> = Vec::new();
        parents.push(x.node);
        proof {
            assert(parents@.map_values(
                |p: Option<usize>|
                    match p {
                        Some(q) => Some(q as int),
                        None => None,
                    },
            ) =~= seq![x.node_of()]);
        }
        let id = g.push_node(
            parents,
            Step::MaxPool2d { input, indices, kernel_size, stride, padding, dilation },
        );
        proof {
            assert(before.is_prefix_of(g.view_rep()));
        }
        (AutodiffTensor { primitive: out, node: Some(id) }, indices_out)
    } else {
        let (out, indices) = B::max_pool2d_with_indices(
            &x.primitive,
            kernel_size,
            stride,
            padding,
            dilation,
        );
        let m = out.len();
        (AutodiffTensor { primitive: out, node: None }, indices)
    }
}

/// The max-pooling gradient itself does not flow through the graph: it is
/// computed directly and handed back untracked, as a plain differentiable
/// tensor wrapper.
pub fn max_pool2d_with_indices_backward<E: FloatElement, B: Backend<E>>(
    x: &AutodiffTensor<E>,
    kernel_size: [usize; 2],
    stride: [usize; 2],
    padding: [usize; 2],
    dilation: [usize; 2],
    output_grad: &AutodiffTensor<E>,
    indices: &Tensor<i64>,
) -> (r: AutodiffTensor<E>)
    requires
        x.ok_any(),
        output_grad.ok_any(),
        indices.wf(),
        x.val().shape.len() == 4,
    ensures
        r.node_of() is None,
        r.val() == B::max_pool2d_with_indices_backward_v(
            x.val(),
            kernel_size,
            stride,
            padding,
            dilation,
            output_grad.val(),
            indices.rep(),
        ),
{
    let out = B::max_pool2d_with_indices_backward(
        &x.primitive,
        kernel_size,
        stride,
        padding,
        dilation,
        &output_grad.primitive,
        indices,
    );
    AutodiffTensor { primitive: out, node: None }
}

/// Differentiable two-dimensional adaptive average pooling.
pub fn adaptive_avg_pool2d<E: FloatElement, B: Backend<E>>(
    x: &AutodiffTensor<E>,
    output_size: [usize; 2],
    g: &mut Graph<E, B>,
    strategy: CheckpointStrategy,
) -> (r: AutodiffTensor<E>)
    requires
        old(g).inv(),
        x.ok(old(g).view_rep()),
        x.val().shape.len() == 4,
    ensures
        final(g).inv(),
        old(g).view_rep().is_prefix_of(final(g).view_rep()),
        r.ok(final(g).view_rep()),
        r.val() == B::adaptive_avg_pool2d_v(x.val(), output_size),
        x.node_of() is None ==> final(g).view_rep() =~= old(g).view_rep() && r.node_of() is None,
        x.node_of() is Some ==> {
            &&& r.node_of() == Some(old(g).view_rep().len() as int)
            &&& final(g).view_rep() =~= old(g).view_rep().push(
                (NodeRep {
                    parents: seq![x.node_of()],
                    op: (OpRep::AdaptiveAvgPool2d { x: x.val(), output_size }),
                    out: B::adaptive_avg_pool2d_v(x.val(), output_size),
                }),
            )
        },
{
    let out = B::adaptive_avg_pool2d(&x.primitive, output_size);
    let m = out.len();
    let is_tracked = x.node.is_some();
    if is_tracked {
        let ghost before = g.view_rep();
        let input = checkpoint_input(x, strategy, Ghost(g.view_rep()));
        let mut parents: Vec<Option<usize>> = Vec::new();
        parents.push(x.node);
        proof {
            assert(parents@.map_values(
                |p: Option<usize>|
                    match p {
                        Some(q) => Some(q as int),
                        None => None,
                    },
            ) =~= seq![x.node_of()]);
        }
        let id = g.push_node(parents, Step::AdaptiveAvgPool2d { input, output_size });
        proof {
            assert(before.is_prefix_of(g.view_rep()));
        }
        AutodiffTensor { primitive: out, node: Some(id) }
    } else {
        AutodiffTensor { primitive: out, node: None }
    }
}

/// The adaptive-average-pooling backward formula is not differentiable: a
/// gradient through it is refused.
pub fn adaptive_avg_pool2d_backward<E: FloatElement, B: Backend<E>>(
    _x: &AutodiffTensor<E>,
    _grad: &AutodiffTensor<E>,
) -> (r: Result<AutodiffTensor<E>, AutodiffError>)
    ensures
        r == Err::<AutodiffTensor<E>, AutodiffError>(AutodiffError::NonDifferentiableBackward),
{
    Err(AutodiffError::NonDifferentiableBackward)
}

/// Differentiable two-dimensional interpolation onto new spatial extents.
pub fn interpolate<E: FloatElement, B: Backend<E>>(
    x: &AutodiffTensor<E>,
    output_size: [usize; 2],
    options: InterpolateOptions,
    g: &mut Graph<E, B>,
    strategy: CheckpointStrategy,
) -> (r: AutodiffTensor<E>)
    requires
        old(g).inv(),
        x.ok(old(g).view_rep()),
        x.val().shape.len() == 4,
    ensures
        final(g).inv(),
        old(g).view_rep().is_prefix_of(final(g).view_rep()),
        r.ok(final(g).view_rep()),
        r.val() == B::interpolate_v(x.val(), output_size, options),
        x.node_of() is None ==> final(g).view_rep() =~= old(g).view_rep() && r.node_of() is None,
        x.node_of() is Some ==> {
            &&& r.node_of() == Some(old(g).view_rep().len() as int)
            &&& final(g).view_rep() =~= old(g).view_rep().push(
                (NodeRep {
                    parents: seq![x.node_of()],
                    op: (OpRep::Interpolate { x: x.val(), output_size, options }),
                    out: B::interpolate_v(x.val(), output_size, options),
                }),
            )
        },
{
    let out = B::interpolate(&x.primitive, output_size, options);
    let m = out.len();
    let is_tracked = x.node.is_some();
    if is_tracked {
        let ghost before = g.view_rep();
        let input = checkpoint_input(x, strategy, Ghost(g.view_rep()));
        let mut parents: Vec<Option<usize>> = Vec::new();
        parents.push(x.node);
        proof {
            assert(parents@.map_values(
                |p: Option<usize>|
                    match p {
                        Some(q) => Some(q as int),
                        None => None,
                    },
            ) =~= seq![x.node_of()]);
        }
        let id = g.push_node(parents, Step::Interpolate { input, output_size, options });
        proof {
            assert(before.is_prefix_of(g.view_rep()));
        }
        AutodiffTensor { primitive: out, node: Some(id) }
    } else {
        AutodiffTensor { primitive: out, node: None }
    }
}

/// The interpolation backward formula is not differentiable: a gradient
/// through it is refused.
pub fn interpolate_backward<E: FloatElement, B: Backend<E>>(
    _x: &AutodiffTensor<E>,
    _grad: &AutodiffTensor<E>,
    _output_size: [usize; 2],
    _options: InterpolateOptions,
) -> (r: Result<AutodiffTensor<E>, AutodiffError>)
    ensures
        r == Err::<AutodiffTensor<E>, AutodiffError>(AutodiffError::NonDifferentiableBackward),
{
    Err(AutodiffError::NonDifferentiableBackward)
}

/// Differentiable one-dimensional convolution over a `[batch, channel, length]` input, with an optional bias. The recorded state takes
/// one of two forms, one per presence of the bias, each checkpointing and
/// later crediting exactly the operands that exist. When no operand
/// requires gradients, no vertex is recorded.
pub fn conv1d<E: FloatElement, B: Backend<E>>(
    x: &AutodiffTensor<E>,
    weight: &AutodiffTensor<E>,
    bias: Option<&AutodiffTensor<E>>,
    options: ConvOptions<1>,
    g: &mut Graph<E, B>,
    strategy: CheckpointStrategy,
) -> (r: AutodiffTensor<E>)
    requires
        old(g).inv(),
        x.ok(old(g).view_rep()),
        weight.ok(old(g).view_rep()),
        bias matches Some(b) ==> b.ok(old(g).view_rep()),
        x.val().shape.len() == 3,
        weight.val().shape.len() == 3,
    ensures
        final(g).inv(),
        old(g).view_rep().is_prefix_of(final(g).view_rep()),
        r.ok(final(g).view_rep()),
        r.val() == B::conv1d_v(
            x.val(),
            weight.val(),
            match bias {
                Some(b) => Some(b.val()),
                None => None,
            },
            options,
        ),
        (x.node_of() is None && weight.node_of() is None && (match bias {
            Some(b) => b.node_of() is None,
            None => true,
        })) ==> final(g).view_rep() =~= old(g).view_rep() && r.node_of() is None,
        !(x.node_of() is None && weight.node_of() is None && (match bias {
            Some(b) => b.node_of() is None,
            None => true,
        })) ==> {
            &&& r.node_of() == Some(old(g).view_rep().len() as int)
            &&& final(g).view_rep() =~= old(g).view_rep().push(
                (match bias {
                    Some(b) => NodeRep {
                        parents: seq![x.node_of(), weight.node_of(), b.node_of()],
                        op: (OpRep::Conv1dWithBias {
                            x: x.val(),
                            w: weight.val(),
                            b: b.val(),
                            options,
                        }),
                        out: B::conv1d_v(x.val(), weight.val(), Some(b.val()), options),
                    },
                    None => NodeRep {
                        parents: seq![x.node_of(), weight.node_of()],
                        op: (OpRep::Conv1dNoBias { x: x.val(), w: weight.val(), options }),
                        out: B::conv1d_v(x.val(), weight.val(), None, options),
                    },
                }),
            )
        },
{
    match bias {
        Some(b) => {
            let out = B::conv1d(&x.primitive, &weight.primitive, Some(&b.primitive), options);
            let m = out.len();
            let is_tracked = x.node.is_some() || weight.node.is_some() || b.node.is_some();
            if is_tracked {
                let ghost before = g.view_rep();
                let xs = checkpoint_input(x, strategy, Ghost(g.view_rep()));
                let ws = checkpoint_input(weight, strategy, Ghost(g.view_rep()));
                let bs = checkpoint_input(b, strategy, Ghost(g.view_rep()));
                let mut parents: Vec<Option<usize>> = Vec::new();
                parents.push(x.node);
                parents.push(weight.node);
                parents.push(b.node);
                proof {
                    assert(parents@.map_values(
                        |p: Option<usize>|
                            match p {
                                Some(q) => Some(q as int),
                                None => None,
                            },
                    ) =~= seq![x.node_of(), weight.node_of(), b.node_of()]);
                }
                let id = g.push_node(
                    parents,
                    Step::Conv1dWithBias { x: xs, weight: ws, bias: bs, options },
                );
                proof {
                    assert(before.is_prefix_of(g.view_rep()));
                }
                AutodiffTensor { primitive: out, node: Some(id) }
            } else {
                AutodiffTensor { primitive: out, node: None }
            }
        },
        None => {
            let out = B::conv1d(&x.primitive, &weight.primitive, None, options);
            let m = out.len();
            let is_tracked = x.node.is_some() || weight.node.is_some();
            if is_tracked {
                let ghost before = g.view_rep();
                let xs = checkpoint_input(x, strategy, Ghost(g.view_rep()));
                let ws = checkpoint_input(weight, strategy, Ghost(g.view_rep()));
                let mut parents: Vec<Option<usize>> = Vec::new();
                parents.push(x.node);
                parents.push(weight.node);
                proof {
                    assert(parents@.map_values(
                        |p: Option<usize>|
                            match p {
                                Some(q) => Some(q as int),
                                None => None,
                            },
                    ) =~= seq![x.node_of(), weight.node_of()]);
                }
                let id = g.push_node(parents, Step::Conv1dNoBias { x: xs, weight: ws, options });
                proof {
                    assert(before.is_prefix_of(g.view_rep()));
                }
                AutodiffTensor { primitive: out, node: Some(id) }
            } else {
                AutodiffTensor { primitive: out, node: None }
            }
        },
    }
}


/// Differentiable one-dimensional transposed convolution, with an optional
/// bias; the recorded state takes one of two forms, one per presence of
/// the bias.
pub fn conv_transpose1d<E: FloatElement, B: Backend<E>>(
    x: &AutodiffTensor<E>,
    weight: &AutodiffTensor<E>,
    bias: Option<&AutodiffTensor<E>>,
    options: ConvTransposeOptions<1>,
    g: &mut Graph<E, B>,
    strategy: CheckpointStrategy,
) -> (r: AutodiffTensor<E>)
    requires
        old(g).inv(),
        x.ok(old(g).view_rep()),
        weight.ok(old(g).view_rep()),
        bias matches Some(b) ==> b.ok(old(g).view_rep()),
        x.val().shape.len() == 3,
        weight.val().shape.len() == 3,
    ensures
        final(g).inv(),
        old(g).view_rep().is_prefix_of(final(g).view_rep()),
        r.ok(final(g).view_rep()),
        r.val() == B::conv_transpose1d_v(
            x.val(),
            weight.val(),
            match bias {
                Some(b) => Some(b.val()),
                None => None,
            },
            options,
        ),
        (x.node_of() is None && weight.node_of() is None && (match bias {
            Some(b) => b.node_of() is None,
            None => true,
        })) ==> final(g).view_rep() =~= old(g).view_rep() && r.node_of() is None,
        !(x.node_of() is None && weight.node_of() is None && (match bias {
            Some(b) => b.node_of() is None,
            None => true,
        })) ==> {
            &&& r.node_of() == Some(old(g).view_rep().len() as int)
            &&& final(g).view_rep() =~= old(g).view_rep().push(
                (match bias {
                    Some(b) => NodeRep {
                        parents: seq![x.node_of(), weight.node_of(), b.node_of()],
                        op: (OpRep::ConvTranspose1dWithBias {
                            x: x.val(),
                            w: weight.val(),
                            b: b.val(),
                            options,
                        }),
                        out: B::conv_transpose1d_v(x.val(), weight.val(), Some(b.val()), options),
                    },
                    None => NodeRep {
                        parents: seq![x.node_of(), weight.node_of()],
                        op: (OpRep::ConvTranspose1dNoBias {
                            x: x.val(),
                            w: weight.val(),
                            options,
                        }),
                        out: B::conv_transpose1d_v(x.val(), weight.val(), None, options),
                    },
                }),
            )
        },
{
    match bias {
        Some(b) => {
            let out = B::conv_transpose1d(
                &x.primitive,
                &weight.primitive,
                Some(&b.primitive),
                options,
            );
            let m = out.len();
            let is_tracked = x.node.is_some() || weight.node.is_some() || b.node.is_some();
            if is_tracked {
                let ghost before = g.view_rep();
                let xs = checkpoint_input(x, strategy, Ghost(g.view_rep()));
                let ws = checkpoint_input(weight, strategy, Ghost(g.view_rep()));
                let bs = checkpoint_input(b, strategy, Ghost(g.view_rep()));
                let mut parents: Vec<Option<usize>> = Vec::new();
                parents.push(x.node);
                parents.push(weight.node);
                parents.push(b.node);
                proof {
                    assert(parents@.map_values(
                        |p: Option<usize>|
                            match p {
                                Some(q) => Some(q as int),
                                None => None,
                            },
                    ) =~= seq![x.node_of(), weight.node_of(), b.node_of()]);
                }
                let id = g.push_node(
                    parents,
                    Step::ConvTranspose1dWithBias { x: xs, weight: ws, bias: bs, options },
                );
                proof {
                    assert(before.is_prefix_of(g.view_rep()));
                }
                AutodiffTensor { primitive: out, node: Some(id) }
            } else {
                AutodiffTensor { primitive: out, node: None }
            }
        },
        None => {
            let out = B::conv_transpose1d(&x.primitive, &weight.primitive, None, options);
            let m = out.len();
            let is_tracked = x.node.is_some() || weight.node.is_some();
            if is_tracked {
                let ghost before = g.view_rep();
                let xs = checkpoint_input(x, strategy, Ghost(g.view_rep()));
                let ws = checkpoint_input(weight, strategy, Ghost(g.view_rep()));
                let mut parents: Vec<Option<usize>> = Vec::new();
                parents.push(x.node);
                parents.push(weight.node);
                proof {
                    assert(parents@.map_values(
                        |p: Option<usize>|
                            match p {
                                Some(q) => Some(q as int),
                                None => None,
                            },
                    ) =~= seq![x.node_of(), weight.node_of()]);
                }
                let id = g.push_node(
                    parents,
                    Step::ConvTranspose1dNoBias { x: xs, weight: ws, options },
                );
                proof {
                    assert(before.is_prefix_of(g.view_rep()));
                }
                AutodiffTensor { primitive: out, node: Some(id) }
            } else {
                AutodiffTensor { primitive: out, node: None }
            }
        },
    }
}



/// Differentiable one-dimensional average pooling. When the input does not
/// require gradients, no vertex is recorded.
pub fn avg_pool1d<E: FloatElement, B: Backend<E>>(
    x: &AutodiffTensor<E>,
    kernel_size: usize,
    stride: usize,
    padding: usize,
    count_include_pad: bool,
    g: &mut Graph<E, B>,
    strategy: CheckpointStrategy,
) -> (r: AutodiffTensor<E>)
    requires
        old(g).inv(),
        x.ok(old(g).view_rep()),
        x.val().shape.len() == 3,
    ensures
        final(g).inv(),
        old(g).view_rep().is_prefix_of(final(g).view_rep()),
        r.ok(final(g).view_rep()),
        r.val() == B::avg_pool1d_v(x.val(), kernel_size, stride, padding, count_include_pad),
        x.node_of() is None ==> final(g).view_rep() =~= old(g).view_rep() && r.node_of() is None,
        x.node_of() is Some ==> {
            &&& r.node_of() == Some(old(g).view_rep().len() as int)
            &&& final(g).view_rep() =~= old(g).view_rep().push(
                (NodeRep {
                    parents: seq![x.node_of()],
                    op: (OpRep::AvgPool1d {
                        x: x.val(),
                        kernel_size,
                        stride,
                        padding,
                        count_include_pad,
                    }),
                    out: B::avg_pool1d_v(x.val(), kernel_size, stride, padding, count_include_pad),
                }),
            )
        },
{
    let out = B::avg_pool1d(&x.primitive, kernel_size, stride, padding, count_include_pad);
    let m = out.len();
    let is_tracked = x.node.is_some();
    if is_tracked {
        let ghost before = g.view_rep();
        let input = checkpoint_input(x, strategy, Ghost(g.view_rep()));
        let mut parents: Vec<Option<usize>> = Vec::new();
        parents.push(x.node);
        proof {
            assert(parents@.map_values(
                |p: Option<usize>|
                    match p {
                        Some(q) => Some(q as int),
                        None => None,
                    },
            ) =~= seq![x.node_of()]);
        }
        let id = g.push_node(
            parents,
            Step::AvgPool1d { input, kernel_size, stride, padding, count_include_pad },
        );
        proof {
            assert(before.is_prefix_of(g.view_rep()));
        }
        AutodiffTensor { primitive: out, node: Some(id) }
    } else {
        AutodiffTensor { primitive: out, node: None }
    }
}


/// Differentiable one-dimensional max pooling. The maxima positions are
/// recorded alongside the checkpointed input, so the backward pass routes
/// each gradient cell to the input cell that won its window.
pub fn max_pool1d<E: FloatElement, B: Backend<E>>(
    x: &AutodiffTensor<E>,
    kernel_size: usize,
    stride: usize,
    padding: usize,
    dilation: usize,
    g: &mut Graph<E, B>,
    strategy: CheckpointStrategy,
) -> (r: AutodiffTensor<E>)
    requires
        old(g).inv(),
        x.ok(old(g).view_rep()),
        x.val().shape.len() == 3,
    ensures
        final(g).inv(),
        old(g).view_rep().is_prefix_of(final(g).view_rep()),
        r.ok(final(g).view_rep()),
        r.val() == B::max_pool1d_with_indices_v(x.val(), kernel_size, stride, padding, dilation).0,
        x.node_of() is None ==> final(g).view_rep() =~= old(g).view_rep() && r.node_of() is None,
        x.node_of() is Some ==> {
            &&& r.node_of() == Some(old(g).view_rep().len() as int)
            &&& final(g).view_rep() =~= old(g).view_rep().push(
                (NodeRep {
                    parents: seq![x.node_of()],
                    op: (OpRep::MaxPool1d {
                        x: x.val(),
                        ind: B::max_pool1d_with_indices_v(
                            x.val(),
                            kernel_size,
                            stride,
                            padding,
                            dilation,
                        ).1,
                        kernel_size,
                        stride,
                        padding,
                        dilation,
                    }),
                    out: B::max_pool1d_with_indices_v(
                        x.val(),
                        kernel_size,
                        stride,
                        padding,
                        dilation,
                    ).0,
                }),
            )
        },
{
    let is_tracked = x.node.is_some();
    if is_tracked {
        let ghost before = g.view_rep();
        let input = checkpoint_input(x, strategy, Ghost(g.view_rep()));
        let (out, indices) = B::max_pool1d_with_indices(
            &x.primitive,
            kernel_size,
            stride,
            padding,
            dilation,
        );
        let m = out.len();
        let mut parents: Vec<Option<usize>> = Vec::new();
        parents.push(x.node);
        proof {
            assert(parents@.map_values(
                |p: Option<usize>|
                    match p {
                        Some(q) => Some(q as int),
                        None => None,
                    },
            ) =~= seq![x.node_of()]);
        }
        let id = g.push_node(
            parents,
            Step::MaxPool1d { input, indices, kernel_size, stride, padding, dilation },
        );
        proof {
            assert(before.is_prefix_of(g.view_rep()));
        }
        AutodiffTensor { primitive: out, node: Some(id) }
    } else {
        let out = B::max_pool1d(&x.primitive, kernel_size, stride, padding, dilation);
        let m = out.len();
        AutodiffTensor { primitive: out, node: None }
    }
}

/// Differentiable one-dimensional max pooling that also hands the maxima
/// positions out to the caller.
pub fn max_pool1d_with_indices<E: FloatElement, B: Backend<E>>(
    x: &AutodiffTensor<E>,
    kernel_size: usize,
    stride: usize,
    padding: usize,
    dilation: usize,
    g: &mut Graph<E, B>,
    strategy: CheckpointStrategy,
) -> (r: (AutodiffTensor<E>, Tensor<i64>))
    requires
        old(g).inv(),
        x.ok(old(g).view_rep()),
        x.val().shape.len() == 3,
    ensures
        final(g).inv(),
        old(g).view_rep().is_prefix_of(final(g).view_rep()),
        r.0.ok(final(g).view_rep()),
        (r.0.val(), r.1.rep()) == B::max_pool1d_with_indices_v(
            x.val(),
            kernel_size,
            stride,
            padding,
            dilation,
        ),
        x.node_of() is None ==> final(g).view_rep() =~= old(g).view_rep() && r.0.node_of()
            is None,
        x.node_of() is Some ==> r.0.node_of() == Some(old(g).view_rep().len() as int),
{
    let is_tracked = x.node.is_some();
    if is_tracked {
        let ghost before = g.view_rep();
        let input = checkpoint_input(x, strategy, Ghost(g.view_rep()));
        let (out, indices) = B::max_pool1d_with_indices(
            &x.primitive,
            kernel_size,
            stride,
            padding,
            dilation,
        );
        let m = out.len();
        let indices_out = indices.duplicate();
        let mut parents: Vec<Option<usize>> = Vec::new();
        parents.push(x.node);
        proof {
            assert(parents@.map_values(
                |p: Option<usize>|
                    match p {
                        Some(q) => Some(q as int),
                        None => None,
                    },
            ) =~= seq![x.node_of()]);
        }
        let id = g.push_node(
            parents,
            Step::MaxPool1d { input, indices, kernel_size, stride, padding, dilation },
        );
        proof {
            assert(before.is_prefix_of(g.view_rep()));
        }
        (AutodiffTensor { primitive: out, node: Some(id) }, indices_out)
    } else {
        let (out, indices) = B::max_pool1d_with_indices(
            &x.primitive,
            kernel_size,
            stride,
            padding,
            dilation,
        );
        let m = out.len();
        (AutodiffTensor { primitive: out, node: None }, indices)
    }
}

/// The max-pooling gradient itself does not flow through the graph: it is
/// computed directly and handed back untracked, as a plain differentiable
/// tensor wrapper.
pub fn max_pool1d_with_indices_backward<E: FloatElement, B: Backend<E>>(
    x: &AutodiffTensor<E>,
    kernel_size: usize,
    stride: usize,
    padding: usize,
    dilation: usize,
    output_grad: &AutodiffTensor<E>,
    indices: &Tensor<i64>,
) -> (r: AutodiffTensor<E>)
    requires
        x.ok_any(),
        output_grad.ok_any(),
        indices.wf(),
        x.val().shape.len() == 3,
    ensures
        r.node_of() is None,
        r.val() == B::max_pool1d_with_indices_backward_v(
            x.val(),
            kernel_size,
            stride,
            padding,
            dilation,
            output_grad.val(),
            indices.rep(),
        ),
{
    let out = B::max_pool1d_with_indices_backward(
        &x.primitive,
        kernel_size,
        stride,
        padding,
        dilation,
        &output_grad.primitive,
        indices,
    );
    AutodiffTensor { primitive: out, node: None }
}


/// Differentiable one-dimensional adaptive average pooling.
pub fn adaptive_avg_pool1d<E: FloatElement, B: Backend<E>>(
    x: &AutodiffTensor<E>,
    output_size: usize,
    g: &mut Graph<E, B>,
    strategy: CheckpointStrategy,
) -> (r: AutodiffTensor<E>)
    requires
        old(g).inv(),
        x.ok(old(g).view_rep()),
        x.val().shape.len() == 3,
    ensures
        final(g).inv(),
        old(g).view_rep().is_prefix_of(final(g).view_rep()),
        r.ok(final(g).view_rep()),
        r.val() == B::adaptive_avg_pool1d_v(x.val(), output_size),
        x.node_of() is None ==> final(g).view_rep() =~= old(g).view_rep() && r.node_of() is None,
        x.node_of() is Some ==> {
            &&& r.node_of() == Some(old(g).view_rep().len() as int)
            &&& final(g).view_rep() =~= old(g).view_rep().push(
                (NodeRep {
                    parents: seq![x.node_of()],
                    op: (OpRep::AdaptiveAvgPool1d { x: x.val(), output_size }),
                    out: B::adaptive_avg_pool1d_v(x.val(), output_size),
                }),
            )
        },
{
    let out = B::adaptive_avg_pool1d(&x.primitive, output_size);
    let m = out.len();
    let is_tracked = x.node.is_some();
    if is_tracked {
        let ghost before = g.view_rep();
        let input = checkpoint_input(x, strategy, Ghost(g.view_rep()));
        let mut parents: Vec<Option<usize>> = Vec::new();
        parents.push(x.node);
        proof {
            assert(parents@.map_values(
                |p: Option<usize>|
                    match p {
                        Some(q) => Some(q as int),
                        None => None,
                    },
            ) =~= seq![x.node_of()]);
        }
        let id = g.push_node(parents, Step::AdaptiveAvgPool1d { input, output_size });
        proof {
            assert(before.is_prefix_of(g.view_rep()));
        }
        AutodiffTensor { primitive: out, node: Some(id) }
    } else {
        AutodiffTensor { primitive: out, node: None }
    }
}


/// The one-dimensional average-pooling backward formula is not
/// differentiable: a gradient through it is refused.
pub fn avg_pool1d_backward<E: FloatElement, B: Backend<E>>(
    _x: &AutodiffTensor<E>,
    _grad: &AutodiffTensor<E>,
    _kernel_size: usize,
    _stride: usize,
    _padding: usize,
    _count_include_pad: bool,
) -> (r: Result<AutodiffTensor<E>, AutodiffError>)
    ensures
        r == Err::<AutodiffTensor<E>, AutodiffError>(AutodiffError::NonDifferentiableBackward),
{
    Err(AutodiffError::NonDifferentiableBackward)
}

/// The one-dimensional adaptive-average-pooling backward formula is not
/// differentiable: a gradient through it is refused.
pub fn adaptive_avg_pool1d_backward<E: FloatElement, B: Backend<E>>(
    _x: &AutodiffTensor<E>,
    _grad: &AutodiffTensor<E>,
) -> (r: Result<AutodiffTensor<E>, AutodiffError>)
    ensures
        r == Err::<AutodiffTensor<E>, AutodiffError>(AutodiffError::NonDifferentiableBackward),
{
    Err(AutodiffError::NonDifferentiableBackward)
}

} // verus!



