use vstd::prelude::*;

use crate::backend::{Backend, ConvOptions, ConvTransposeOptions, InterpolateOptions};
use crate::element::{Element, FloatElement};
use crate::tensor::{
    add_rep, div_rep, exp_rep, log_rep, matmul_rep, mul_rep, neg_rep, powf_scalar_rep, rep_wf,
    sin_rep, sub_rep, Tensor, TensorRep,
};

verus! {

/// The recorded value of one differentiable operation, at the level of
/// mathematical tensor values: the operation's kind together with the
/// forward values of its operands.
pub enum OpRep<E> {
    /// A tracked input: its value.
    Leaf { v: TensorRep<E> },
    /// Elementwise sum of two operands of one shape.
    Add { l: TensorRep<E>, r: TensorRep<E> },
    /// Elementwise difference of two operands of one shape.
    Sub { l: TensorRep<E>, r: TensorRep<E> },
    /// Elementwise negation.
    Neg { x: TensorRep<E> },
    /// Elementwise product of two operands of one shape.
    Mul { l: TensorRep<E>, r: TensorRep<E> },
    /// Elementwise quotient of two operands of one shape.
    Div { l: TensorRep<E>, r: TensorRep<E> },
    /// Matrix product of two-dimensional operands.
    Matmul { l: TensorRep<E>, r: TensorRep<E> },
    /// Elementwise exponential.
    Exp { x: TensorRep<E> },
    /// Elementwise natural logarithm.
    Log { x: TensorRep<E> },
    /// Elementwise power with a fixed exponent.
    PowfScalar { x: TensorRep<E>, e: E },
    /// Elementwise sine.
    Sin { x: TensorRep<E> },
    /// Embedding lookup over fixed indices.
    Embedding { w: TensorRep<E>, ind: TensorRep<i64> },
    /// One-dimensional convolution with a bias.
    Conv1dWithBias { x: TensorRep<E>, w: TensorRep<E>, b: TensorRep<E>, options: ConvOptions<1> },
    /// One-dimensional convolution without a bias.
    Conv1dNoBias { x: TensorRep<E>, w: TensorRep<E>, options: ConvOptions<1> },
    /// One-dimensional transposed convolution with a bias.
    ConvTranspose1dWithBias {
        x: TensorRep<E>,
        w: TensorRep<E>,
        b: TensorRep<E>,
        options: ConvTransposeOptions<1>,
    },
    /// One-dimensional transposed convolution without a bias.
    ConvTranspose1dNoBias { x: TensorRep<E>, w: TensorRep<E>, options: ConvTransposeOptions<1> },
    /// One-dimensional average pooling.
    AvgPool1d {
        x: TensorRep<E>,
        kernel_size: usize,
        stride: usize,
        padding: usize,
        count_include_pad: bool,
    },
    /// One-dimensional max pooling, with the recorded maxima positions.
    MaxPool1d {
        x: TensorRep<E>,
        ind: TensorRep<i64>,
        kernel_size: usize,
        stride: usize,
        padding: usize,
        dilation: usize,
    },
    /// One-dimensional adaptive average pooling.
    AdaptiveAvgPool1d { x: TensorRep<E>, output_size: usize },
    /// Two-dimensional convolution with a bias.
    Conv2dWithBias { x: TensorRep<E>, w: TensorRep<E>, b: TensorRep<E>, options: ConvOptions<2> },
    /// Two-dimensional convolution without a bias.
    Conv2dNoBias { x: TensorRep<E>, w: TensorRep<E>, options: ConvOptions<2> },
    /// Two-dimensional transposed convolution with a bias.
    ConvTranspose2dWithBias {
        x: TensorRep<E>,
        w: TensorRep<E>,
        b: TensorRep<E>,
        options: ConvTransposeOptions<2>,
    },
    /// Two-dimensional transposed convolution without a bias.
    ConvTranspose2dNoBias { x: TensorRep<E>, w: TensorRep<E>, options: ConvTransposeOptions<2> },
    /// Two-dimensional average pooling.
    AvgPool2d {
        x: TensorRep<E>,
        kernel_size: [usize; 2],
        stride: [usize; 2],
        padding: [usize; 2],
        count_include_pad: bool,
    },
    /// Two-dimensional max pooling, with the recorded maxima positions.
    MaxPool2d {
        x: TensorRep<E>,
        ind: TensorRep<i64>,
        kernel_size: [usize; 2],
        stride: [usize; 2],
        padding: [usize; 2],
        dilation: [usize; 2],
    },
    /// Two-dimensional adaptive average pooling.
    AdaptiveAvgPool2d { x: TensorRep<E>, output_size: [usize; 2] },
    /// Two-dimensional interpolation.
    Interpolate { x: TensorRep<E>, output_size: [usize; 2], options: InterpolateOptions },
}

/// How many operands an operation consumes.
pub open spec fn op_arity<E>(op: OpRep<E>) -> int {
    match op {
        OpRep::Leaf { .. } => 0,
        OpRep::Add { .. } => 2,
        OpRep::Sub { .. } => 2,
        OpRep::Neg { .. } => 1,
        OpRep::Mul { .. } => 2,
        OpRep::Div { .. } => 2,
        OpRep::Matmul { .. } => 2,
        OpRep::Exp { .. } => 1,
        OpRep::Log { .. } => 1,
        OpRep::PowfScalar { .. } => 1,
        OpRep::Sin { .. } => 1,
        OpRep::Embedding { .. } => 1,
        OpRep::Conv1dWithBias { .. } => 3,
        OpRep::Conv1dNoBias { .. } => 2,
        OpRep::ConvTranspose1dWithBias { .. } => 3,
        OpRep::ConvTranspose1dNoBias { .. } => 2,
        OpRep::AvgPool1d { .. } => 1,
        OpRep::MaxPool1d { .. } => 1,
        OpRep::AdaptiveAvgPool1d { .. } => 1,
        OpRep::Conv2dWithBias { .. } => 3,
        OpRep::Conv2dNoBias { .. } => 2,
        OpRep::ConvTranspose2dWithBias { .. } => 3,
        OpRep::ConvTranspose2dNoBias { .. } => 2,
        OpRep::AvgPool2d { .. } => 1,
        OpRep::MaxPool2d { .. } => 1,
        OpRep::AdaptiveAvgPool2d { .. } => 1,
        OpRep::Interpolate { .. } => 1,
    }
}

/// The forward value of operand `j`.
pub open spec fn op_input<E>(op: OpRep<E>, j: int) -> TensorRep<E> {
    match op {
        OpRep::Leaf { v } => v,
        OpRep::Add { l, r } => if j == 0 {
            l
        } else {
            r
        },
        OpRep::Sub { l, r } => if j == 0 {
            l
        } else {
            r
        },
        OpRep::Neg { x } => x,
        OpRep::Mul { l, r } => if j == 0 {
            l
        } else {
            r
        },
        OpRep::Div { l, r } => if j == 0 {
            l
        } else {
            r
        },
        OpRep::Matmul { l, r } => if j == 0 {
            l
        } else {
            r
        },
        OpRep::Exp { x } => x,
        OpRep::Log { x } => x,
        OpRep::PowfScalar { x, .. } => x,
        OpRep::Sin { x } => x,
        OpRep::Embedding { w, .. } => w,
        OpRep::Conv1dWithBias { x, w, b, .. } => if j == 0 {
            x
        } else if j == 1 {
            w
        } else {
            b
        },
        OpRep::Conv1dNoBias { x, w, .. } => if j == 0 {
            x
        } else {
            w
        },
        OpRep::ConvTranspose1dWithBias { x, w, b, .. } => if j == 0 {
            x
        } else if j == 1 {
            w
        } else {
            b
        },
        OpRep::ConvTranspose1dNoBias { x, w, .. } => if j == 0 {
            x
        } else {
            w
        },
        OpRep::AvgPool1d { x, .. } => x,
        OpRep::MaxPool1d { x, .. } => x,
        OpRep::AdaptiveAvgPool1d { x, .. } => x,
        OpRep::Conv2dWithBias { x, w, b, .. } => if j == 0 {
            x
        } else if j == 1 {
            w
        } else {
            b
        },
        OpRep::Conv2dNoBias { x, w, .. } => if j == 0 {
            x
        } else {
            w
        },
        OpRep::ConvTranspose2dWithBias { x, w, b, .. } => if j == 0 {
            x
        } else if j == 1 {
            w
        } else {
            b
        },
        OpRep::ConvTranspose2dNoBias { x, w, .. } => if j == 0 {
            x
        } else {
            w
        },
        OpRep::AvgPool2d { x, .. } => x,
        OpRep::MaxPool2d { x, .. } => x,
        OpRep::AdaptiveAvgPool2d { x, .. } => x,
        OpRep::Interpolate { x, .. } => x,
    }
}

/// The operands an operation admits: matching shapes for the elementwise
/// kinds, two-dimensional compatible operands for the matrix product, and
/// element counts that fit a machine word.
pub open spec fn op_ok<E: FloatElement, B: Backend<E>>(op: OpRep<E>) -> bool {
    match op {
        OpRep::Leaf { v } => rep_wf(v) && v.data.len() <= usize::MAX,
        OpRep::Add { l, r } => binop_ok(l, r),
        OpRep::Sub { l, r } => binop_ok(l, r),
        OpRep::Neg { x } => unop_ok(x),
        OpRep::Mul { l, r } => binop_ok(l, r),
        OpRep::Div { l, r } => binop_ok(l, r),
        OpRep::Matmul { l, r } => {
            &&& rep_wf(l) && l.data.len() <= usize::MAX
            &&& rep_wf(r) && r.data.len() <= usize::MAX
            &&& l.shape.len() == 2
            &&& r.shape.len() == 2
            &&& l.shape[1] == r.shape[0]
            &&& l.shape[0] * r.shape[1] <= usize::MAX
        },
        OpRep::Exp { x } => unop_ok(x),
        OpRep::Log { x } => unop_ok(x),
        OpRep::PowfScalar { x, .. } => unop_ok(x),
        OpRep::Sin { x } => unop_ok(x),
        OpRep::Embedding { w, ind } => {
            &&& unop_ok(w)
            &&& ind.data.len() == crate::shape::prod(ind.shape)
            &&& w.shape.len() == 2
            &&& ind.shape.len() == 2
        },
        OpRep::Conv1dWithBias { x, w, b, .. } => unop_ok(x) && unop_ok(w) && unop_ok(b)
            && x.shape.len() == 3 && w.shape.len() == 3,
        OpRep::Conv1dNoBias { x, w, .. } => unop_ok(x) && unop_ok(w) && x.shape.len() == 3
            && w.shape.len() == 3,
        OpRep::ConvTranspose1dWithBias { x, w, b, .. } => unop_ok(x) && unop_ok(w) && unop_ok(b)
            && x.shape.len() == 3 && w.shape.len() == 3,
        OpRep::ConvTranspose1dNoBias { x, w, .. } => unop_ok(x) && unop_ok(w) && x.shape.len()
            == 3 && w.shape.len() == 3,
        OpRep::AvgPool1d { x, .. } => unop_ok(x) && x.shape.len() == 3,
        OpRep::MaxPool1d { x, ind, kernel_size, stride, padding, dilation } => {
            &&& unop_ok(x)
            &&& x.shape.len() == 3
            &&& ind.data.len() == crate::shape::prod(ind.shape)
            &&& ind == B::max_pool1d_with_indices_v(x, kernel_size, stride, padding, dilation).1
        },
        OpRep::AdaptiveAvgPool1d { x, .. } => unop_ok(x) && x.shape.len() == 3,
        OpRep::Conv2dWithBias { x, w, b, .. } => unop_ok(x) && unop_ok(w) && unop_ok(b)
            && x.shape.len() == 4 && w.shape.len() == 4,
        OpRep::Conv2dNoBias { x, w, .. } => unop_ok(x) && unop_ok(w) && x.shape.len() == 4
            && w.shape.len() == 4,
        OpRep::ConvTranspose2dWithBias { x, w, b, .. } => unop_ok(x) && unop_ok(w) && unop_ok(b)
            && x.shape.len() == 4 && w.shape.len() == 4,
        OpRep::ConvTranspose2dNoBias { x, w, .. } => unop_ok(x) && unop_ok(w) && x.shape.len()
            == 4 && w.shape.len() == 4,
        OpRep::AvgPool2d { x, .. } => unop_ok(x) && x.shape.len() == 4,
        OpRep::MaxPool2d { x, ind, kernel_size, stride, padding, dilation } => {
            &&& unop_ok(x)
            &&& x.shape.len() == 4
            &&& ind.data.len() == crate::shape::prod(ind.shape)
            &&& ind == B::max_pool2d_with_indices_v(x, kernel_size, stride, padding, dilation).1
        },
        OpRep::AdaptiveAvgPool2d { x, .. } => unop_ok(x) && x.shape.len() == 4,
        OpRep::Interpolate { x, .. } => unop_ok(x) && x.shape.len() == 4,
    }
}

/// Two elementwise operands of one shape.
pub open spec fn binop_ok<E>(l: TensorRep<E>, r: TensorRep<E>) -> bool {
    &&& rep_wf(l) && l.data.len() <= usize::MAX
    &&& rep_wf(r) && r.data.len() <= usize::MAX
    &&& l.shape =~= r.shape
}

/// One elementwise operand.
pub open spec fn unop_ok<E>(x: TensorRep<E>) -> bool {
    rep_wf(x) && x.data.len() <= usize::MAX
}

/// The forward value an operation produces from its operands.
pub open spec fn op_out<E: FloatElement, B: Backend<E>>(op: OpRep<E>) -> TensorRep<E> {
    match op {
        OpRep::Leaf { v } => v,
        OpRep::Add { l, r } => add_rep(l, r),
        OpRep::Sub { l, r } => sub_rep(l, r),
        OpRep::Neg { x } => neg_rep(x),
        OpRep::Mul { l, r } => mul_rep(l, r),
        OpRep::Div { l, r } => div_rep(l, r),
        OpRep::Matmul { l, r } => matmul_rep(l, r),
        OpRep::Exp { x } => exp_rep(x),
        OpRep::Log { x } => log_rep(x),
        OpRep::PowfScalar { x, e } => powf_scalar_rep(x, e),
        OpRep::Sin { x } => sin_rep(x),
        OpRep::Embedding { w, ind } => B::embedding_v(w, ind),
        OpRep::Conv1dWithBias { x, w, b, options } => B::conv1d_v(x, w, Some(b), options),
        OpRep::Conv1dNoBias { x, w, options } => B::conv1d_v(x, w, None, options),
        OpRep::ConvTranspose1dWithBias { x, w, b, options } => B::conv_transpose1d_v(
            x,
            w,
            Some(b),
            options,
        ),
        OpRep::ConvTranspose1dNoBias { x, w, options } => B::conv_transpose1d_v(x, w, None, options),
        OpRep::AvgPool1d { x, kernel_size, stride, padding, count_include_pad } => B::avg_pool1d_v(
            x,
            kernel_size,
            stride,
            padding,
            count_include_pad,
        ),
        OpRep::MaxPool1d { x, kernel_size, stride, padding, dilation, .. }
            => B::max_pool1d_with_indices_v(x, kernel_size, stride, padding, dilation).0,
        OpRep::AdaptiveAvgPool1d { x, output_size } => B::adaptive_avg_pool1d_v(x, output_size),
        OpRep::Conv2dWithBias { x, w, b, options } => B::conv2d_v(x, w, Some(b), options),
        OpRep::Conv2dNoBias { x, w, options } => B::conv2d_v(x, w, None, options),
        OpRep::ConvTranspose2dWithBias { x, w, b, options } => B::conv_transpose2d_v(
            x,
            w,
            Some(b),
            options,
        ),
        OpRep::ConvTranspose2dNoBias { x, w, options } => B::conv_transpose2d_v(x, w, None, options),
        OpRep::AvgPool2d { x, kernel_size, stride, padding, count_include_pad } => B::avg_pool2d_v(
            x,
            kernel_size,
            stride,
            padding,
            count_include_pad,
        ),
        OpRep::MaxPool2d { x, kernel_size, stride, padding, dilation, .. }
            => B::max_pool2d_with_indices_v(x, kernel_size, stride, padding, dilation).0,
        OpRep::AdaptiveAvgPool2d { x, output_size } => B::adaptive_avg_pool2d_v(x, output_size),
        OpRep::Interpolate { x, output_size, options } => B::interpolate_v(x, output_size, options),
    }
}

/// One vertex of the differentiation graph, at the level of mathematical
/// values: the identities of the tracked operands (absent operands did not
/// require gradients), the recorded operation, and its forward value.
pub struct NodeRep<E> {
    /// Tracked operands' identities, in operand order; `None` marks a
    /// pruned edge.
    pub parents: Seq<Option<int>>,
    /// The recorded operation with its operand values.
    pub op: OpRep<E>,
    /// The forward value this vertex produced.
    pub out: TensorRep<E>,
}

/// A well-formed differentiation graph: every vertex's operands are
/// admissible, its value is its operation's forward value, its parents
/// stand strictly earlier in the graph, and a present parent's value is the
/// very operand it fed.
pub open spec fn nodes_wf<E: FloatElement, B: Backend<E>>(nodes: Seq<NodeRep<E>>) -> bool {
    forall|i: int|
        0 <= i < nodes.len() ==> {
            let n = #[trigger] nodes[i];
            &&& op_ok::<E, B>(n.op)
            &&& n.out == op_out::<E, B>(n.op)
            &&& n.parents.len() == op_arity(n.op)
            &&& forall|j: int|
                0 <= j < n.parents.len() ==> ((#[trigger] n.parents[j]) matches Some(p) ==> {
                    &&& 0 <= p < i
                    &&& nodes[p].out == op_input(n.op, j)
                })
        }
}

/// A stored operand of a recorded operation: either the value itself
/// (memory-bound checkpointing) or the identity of the vertex that can
/// recompute it (compute-bound checkpointing). The ghost field carries the
/// mathematical value either way.
pub struct Slot<E> {
    /// The stored form.
    pub kind: SlotKind<E>,
    /// The operand's mathematical value.
    pub rep: Ghost<TensorRep<E>>,
}

/// The stored form of a checkpointed operand.
pub enum SlotKind<E> {
    /// The value, retained verbatim.
    Val(Tensor<E>),
    /// The vertex whose replay reconstructs the value.
    Node(usize),
}

/// A slot is faithful before vertex `i`: a stored value is that value, and
/// a vertex reference points strictly earlier and to the recorded value.
pub open spec fn slot_wf<E: FloatElement>(s: Slot<E>, nodes: Seq<NodeRep<E>>, i: int) -> bool {
    match s.kind {
        SlotKind::Val(t) => t.wf() && t.rep() == s.rep@,
        SlotKind::Node(p) => 0 <= p < i && nodes[p as int].out == s.rep@,
    }
}

/// The recorded backward state of one operation: which operation it was,
/// with the checkpointed operands its backward formula and its forward
/// replay need.
pub enum Step<E> {
    /// A tracked input holding its value.
    Leaf { val: Tensor<E> },
    /// Elementwise sum.
    Add { lhs: Slot<E>, rhs: Slot<E> },
    /// Elementwise difference.
    Sub { lhs: Slot<E>, rhs: Slot<E> },
    /// Elementwise negation.
    Neg { input: Slot<E> },
    /// Elementwise product.
    Mul { lhs: Slot<E>, rhs: Slot<E> },
    /// Elementwise quotient.
    Div { lhs: Slot<E>, rhs: Slot<E> },
    /// Matrix product.
    Matmul { lhs: Slot<E>, rhs: Slot<E> },
    /// Elementwise exponential.
    Exp { input: Slot<E> },
    /// Elementwise natural logarithm.
    Log { input: Slot<E> },
    /// Elementwise power with a fixed exponent.
    PowfScalar { input: Slot<E>, exponent: E },
    /// Elementwise sine.
    Sin { input: Slot<E> },
    /// Embedding lookup; the indices are kept verbatim, they are not
    /// differentiable.
    Embedding { weights: Slot<E>, indices: Tensor<i64> },
    /// One-dimensional convolution with a bias.
    Conv1dWithBias { x: Slot<E>, weight: Slot<E>, bias: Slot<E>, options: ConvOptions<1> },
    /// One-dimensional convolution without a bias.
    Conv1dNoBias { x: Slot<E>, weight: Slot<E>, options: ConvOptions<1> },
    /// One-dimensional transposed convolution with a bias.
    ConvTranspose1dWithBias {
        x: Slot<E>,
        weight: Slot<E>,
        bias: Slot<E>,
        options: ConvTransposeOptions<1>,
    },
    /// One-dimensional transposed convolution without a bias.
    ConvTranspose1dNoBias { x: Slot<E>, weight: Slot<E>, options: ConvTransposeOptions<1> },
    /// One-dimensional average pooling.
    AvgPool1d {
        input: Slot<E>,
        kernel_size: usize,
        stride: usize,
        padding: usize,
        count_include_pad: bool,
    },
    /// One-dimensional max pooling, with the maxima positions kept for the
    /// backward formula.
    MaxPool1d {
        input: Slot<E>,
        indices: Tensor<i64>,
        kernel_size: usize,
        stride: usize,
        padding: usize,
        dilation: usize,
    },
    /// One-dimensional adaptive average pooling.
    AdaptiveAvgPool1d { input: Slot<E>, output_size: usize },
    /// Two-dimensional convolution with a bias.
    Conv2dWithBias { x: Slot<E>, weight: Slot<E>, bias: Slot<E>, options: ConvOptions<2> },
    /// Two-dimensional convolution without a bias.
    Conv2dNoBias { x: Slot<E>, weight: Slot<E>, options: ConvOptions<2> },
    /// Two-dimensional transposed convolution with a bias.
    ConvTranspose2dWithBias {
        x: Slot<E>,
        weight: Slot<E>,
        bias: Slot<E>,
        options: ConvTransposeOptions<2>,
    },
    /// Two-dimensional transposed convolution without a bias.
    ConvTranspose2dNoBias { x: Slot<E>, weight: Slot<E>, options: ConvTransposeOptions<2> },
    /// Two-dimensional average pooling.
    AvgPool2d {
        input: Slot<E>,
        kernel_size: [usize; 2],
        stride: [usize; 2],
        padding: [usize; 2],
        count_include_pad: bool,
    },
    /// Two-dimensional max pooling, with the maxima positions kept for the
    /// backward formula.
    MaxPool2d {
        input: Slot<E>,
        indices: Tensor<i64>,
        kernel_size: [usize; 2],
        stride: [usize; 2],
        padding: [usize; 2],
        dilation: [usize; 2],
    },
    /// Two-dimensional adaptive average pooling.
    AdaptiveAvgPool2d { input: Slot<E>, output_size: [usize; 2] },
    /// Two-dimensional interpolation.
    Interpolate { input: Slot<E>, output_size: [usize; 2], options: InterpolateOptions },
}

/// The operation a recorded step stands for, over the operands' values.
pub open spec fn step_op<E: FloatElement>(s: Step<E>) -> OpRep<E> {
    match s {
        Step::Leaf { val } => OpRep::Leaf { v: val.rep() },
        Step::Add { lhs, rhs } => OpRep::Add { l: lhs.rep@, r: rhs.rep@ },
        Step::Sub { lhs, rhs } => OpRep::Sub { l: lhs.rep@, r: rhs.rep@ },
        Step::Neg { input } => OpRep::Neg { x: input.rep@ },
        Step::Mul { lhs, rhs } => OpRep::Mul { l: lhs.rep@, r: rhs.rep@ },
        Step::Div { lhs, rhs } => OpRep::Div { l: lhs.rep@, r: rhs.rep@ },
        Step::Matmul { lhs, rhs } => OpRep::Matmul { l: lhs.rep@, r: rhs.rep@ },
        Step::Exp { input } => OpRep::Exp { x: input.rep@ },
        Step::Log { input } => OpRep::Log { x: input.rep@ },
        Step::PowfScalar { input, exponent } => OpRep::PowfScalar { x: input.rep@, e: exponent },
        Step::Sin { input } => OpRep::Sin { x: input.rep@ },
        Step::Embedding { weights, indices } => OpRep::Embedding {
            w: weights.rep@,
            ind: indices.rep(),
        },
        Step::Conv1dWithBias { x, weight, bias, options } => OpRep::Conv1dWithBias {
            x: x.rep@,
            w: weight.rep@,
            b: bias.rep@,
            options,
        },
        Step::Conv1dNoBias { x, weight, options } => OpRep::Conv1dNoBias {
            x: x.rep@,
            w: weight.rep@,
            options,
        },
        Step::ConvTranspose1dWithBias { x, weight, bias, options } => OpRep::ConvTranspose1dWithBias {
            x: x.rep@,
            w: weight.rep@,
            b: bias.rep@,
            options,
        },
        Step::ConvTranspose1dNoBias { x, weight, options } => OpRep::ConvTranspose1dNoBias {
            x: x.rep@,
            w: weight.rep@,
            options,
        },
        Step::AvgPool1d { input, kernel_size, stride, padding, count_include_pad } => OpRep::AvgPool1d {
            x: input.rep@,
            kernel_size,
            stride,
            padding,
            count_include_pad,
        },
        Step::MaxPool1d { input, indices, kernel_size, stride, padding, dilation } => OpRep::MaxPool1d {
            x: input.rep@,
            ind: indices.rep(),
            kernel_size,
            stride,
            padding,
            dilation,
        },
        Step::AdaptiveAvgPool1d { input, output_size } => OpRep::AdaptiveAvgPool1d {
            x: input.rep@,
            output_size,
        },
        Step::Conv2dWithBias { x, weight, bias, options } => OpRep::Conv2dWithBias {
            x: x.rep@,
            w: weight.rep@,
            b: bias.rep@,
            options,
        },
        Step::Conv2dNoBias { x, weight, options } => OpRep::Conv2dNoBias {
            x: x.rep@,
            w: weight.rep@,
            options,
        },
        Step::ConvTranspose2dWithBias { x, weight, bias, options } => OpRep::ConvTranspose2dWithBias {
            x: x.rep@,
            w: weight.rep@,
            b: bias.rep@,
            options,
        },
        Step::ConvTranspose2dNoBias { x, weight, options } => OpRep::ConvTranspose2dNoBias {
            x: x.rep@,
            w: weight.rep@,
            options,
        },
        Step::AvgPool2d { input, kernel_size, stride, padding, count_include_pad } => OpRep::AvgPool2d {
            x: input.rep@,
            kernel_size,
            stride,
            padding,
            count_include_pad,
        },
        Step::MaxPool2d { input, indices, kernel_size, stride, padding, dilation } => OpRep::MaxPool2d {
            x: input.rep@,
            ind: indices.rep(),
            kernel_size,
            stride,
            padding,
            dilation,
        },
        Step::AdaptiveAvgPool2d { input, output_size } => OpRep::AdaptiveAvgPool2d {
            x: input.rep@,
            output_size,
        },
        Step::Interpolate { input, output_size, options } => OpRep::Interpolate {
            x: input.rep@,
            output_size,
            options,
        },
    }
}

/// All slots of a recorded step are faithful before vertex `i`.
pub open spec fn step_wf<E: FloatElement>(s: Step<E>, nodes: Seq<NodeRep<E>>, i: int) -> bool {
    match s {
        Step::Leaf { val } => val.wf(),
        Step::Add { lhs, rhs } => slot_wf(lhs, nodes, i) && slot_wf(rhs, nodes, i),
        Step::Sub { lhs, rhs } => slot_wf(lhs, nodes, i) && slot_wf(rhs, nodes, i),
        Step::Neg { input } => slot_wf(input, nodes, i),
        Step::Mul { lhs, rhs } => slot_wf(lhs, nodes, i) && slot_wf(rhs, nodes, i),
        Step::Div { lhs, rhs } => slot_wf(lhs, nodes, i) && slot_wf(rhs, nodes, i),
        Step::Matmul { lhs, rhs } => slot_wf(lhs, nodes, i) && slot_wf(rhs, nodes, i),
        Step::Exp { input } => slot_wf(input, nodes, i),
        Step::Log { input } => slot_wf(input, nodes, i),
        Step::PowfScalar { input, .. } => slot_wf(input, nodes, i),
        Step::Sin { input } => slot_wf(input, nodes, i),
        Step::Embedding { weights, indices } => slot_wf(weights, nodes, i) && indices.wf(),
        Step::Conv1dWithBias { x, weight, bias, .. } => slot_wf(x, nodes, i) && slot_wf(
            weight,
            nodes,
            i,
        ) && slot_wf(bias, nodes, i),
        Step::Conv1dNoBias { x, weight, .. } => slot_wf(x, nodes, i) && slot_wf(weight, nodes, i),
        Step::ConvTranspose1dWithBias { x, weight, bias, .. } => slot_wf(x, nodes, i) && slot_wf(
            weight,
            nodes,
            i,
        ) && slot_wf(bias, nodes, i),
        Step::ConvTranspose1dNoBias { x, weight, .. } => slot_wf(x, nodes, i) && slot_wf(
            weight,
            nodes,
            i,
        ),
        Step::AvgPool1d { input, .. } => slot_wf(input, nodes, i),
        Step::MaxPool1d { input, indices, .. } => slot_wf(input, nodes, i) && indices.wf(),
        Step::AdaptiveAvgPool1d { input, .. } => slot_wf(input, nodes, i),
        Step::Conv2dWithBias { x, weight, bias, .. } => slot_wf(x, nodes, i) && slot_wf(
            weight,
            nodes,
            i,
        ) && slot_wf(bias, nodes, i),
        Step::Conv2dNoBias { x, weight, .. } => slot_wf(x, nodes, i) && slot_wf(weight, nodes, i),
        Step::ConvTranspose2dWithBias { x, weight, bias, .. } => slot_wf(x, nodes, i) && slot_wf(
            weight,
            nodes,
            i,
        ) && slot_wf(bias, nodes, i),
        Step::ConvTranspose2dNoBias { x, weight, .. } => slot_wf(x, nodes, i) && slot_wf(
            weight,
            nodes,
            i,
        ),
        Step::AvgPool2d { input, .. } => slot_wf(input, nodes, i),
        Step::MaxPool2d { input, indices, .. } => slot_wf(input, nodes, i) && indices.wf(),
        Step::AdaptiveAvgPool2d { input, .. } => slot_wf(input, nodes, i),
        Step::Interpolate { input, .. } => slot_wf(input, nodes, i),
    }
}

/// One vertex of the differentiation graph as stored: the pruned-or-present
/// parent identities and the recorded backward state.
pub struct NodeEntry<E> {
    /// Tracked operands' identities, in operand order.
    pub parents: Vec<Option<usize>>,
    /// The recorded backward state.
    pub step: Step<E>,
}

/// The mathematical vertex an entry stands for.
pub open spec fn entry_rep<E: FloatElement, B: Backend<E>>(e: NodeEntry<E>) -> NodeRep<E> {
    NodeRep {
        parents: e.parents@.map_values(
            |p: Option<usize>|
                match p {
                    Some(q) => Some(q as int),
                    None => None,
                },
        ),
        op: step_op(e.step),
        out: op_out::<E, B>(step_op(e.step)),
    }
}

/// The growable, append-only arena of recorded operations. A vertex's
/// identity is its position; later vertices never feed earlier ones, so
/// walking identities downward visits every consumer before its producer.
pub struct Graph<E, B> {
    entries: Vec<NodeEntry<E>>,
    backend: core::marker::PhantomData<B>,
}

impl<E: FloatElement, B: Backend<E>> Graph<E, B> {
    /// The mathematical value of the graph.
    pub closed spec fn view_rep(&self) -> Seq<NodeRep<E>> {
        self.entries@.map_values(|e: NodeEntry<E>| entry_rep::<E, B>(e))
    }

    /// The graph is well formed: each vertex's value and links are
    /// faithful, and so is each stored checkpoint.
    pub closed spec fn inv(&self) -> bool {
        &&& nodes_wf::<E, B>(self.view_rep())
        &&& forall|i: int|
            0 <= i < self.entries@.len() ==> step_wf(
                (#[trigger] self.entries@[i]).step,
                self.view_rep(),
                i,
            )
    }

    /// A well-formed graph's mathematical value is well formed.
    pub proof fn lemma_inv_nodes(&self)
        requires
            self.inv(),
        ensures
            nodes_wf::<E, B>(self.view_rep()),
    {
    }

    /// The number of recorded vertices.
    pub fn len(&self) -> (r: usize)
        ensures
            r == self.view_rep().len(),
    {
        self.entries.len()
    }

    /// An empty graph.
    pub fn new() -> (r: Graph<E, B>)
        ensures
            r.inv(),
            r.view_rep() =~= Seq::<NodeRep<E>>::empty(),
    {
        Graph { entries: Vec::new(), backend: core::marker::PhantomData }
    }

    /// Records one vertex and answers its identity.
    pub(crate) fn push_node(&mut self, parents: Vec<Option<usize>>, step: Step<E>) -> (r: usize)
        requires
            old(self).inv(),
            step_wf(step, old(self).view_rep(), old(self).view_rep().len() as int),
            op_ok::<E, B>(step_op(step)),
            parents@.len() == op_arity(step_op(step)),
            forall|j: int|
                0 <= j < parents@.len() ==> ((#[trigger] parents@[j]) matches Some(p) ==> {
                    &&& 0 <= p < old(self).view_rep().len()
                    &&& old(self).view_rep()[p as int].out == op_input(step_op(step), j)
                }),
        ensures
            final(self).inv(),
            r == old(self).view_rep().len(),
            final(self).view_rep() =~= old(self).view_rep().push(
                NodeRep {
                    parents: parents@.map_values(
                        |p: Option<usize>|
                            match p {
                                Some(q) => Some(q as int),
                                None => None,
                            },
                    ),
                    op: step_op(step),
                    out: op_out::<E, B>(step_op(step)),
                },
            ),
    {
        let r = self.entries.len();
        let ghost old_view = self.view_rep();
        let entry = NodeEntry { parents, step };
        let ghost new_entry = entry;
        let ghost gstep = entry.step;
        self.entries.push(entry);
        proof {
            assert(self.view_rep() =~= old_view.push(entry_rep::<E, B>(new_entry)));
            assert forall|i: int| 0 <= i < self.entries@.len() implies step_wf(
                (#[trigger] self.entries@[i]).step,
                self.view_rep(),
                i,
            ) by {
                if i < old_view.len() {
                    assert(step_wf(self.entries@[i].step, old_view, i));
                    lemma_step_wf_extend(self.entries@[i].step, old_view, self.view_rep(), i);
                } else {
                    lemma_step_wf_extend(gstep, old_view, self.view_rep(), i);
                }
            }
            assert(nodes_wf::<E, B>(self.view_rep()));
        }
        r
    }
}

/// A faithful step stays faithful when the graph grows to the right.
pub proof fn lemma_step_wf_extend<E: FloatElement>(
    s: Step<E>,
    nodes: Seq<NodeRep<E>>,
    longer: Seq<NodeRep<E>>,
    i: int,
)
    requires
        step_wf(s, nodes, i),
        i <= nodes.len(),
        nodes.is_prefix_of(longer),
    ensures
        step_wf(s, longer, i),
{
}


/// A replay scratch pad is faithful: every materialized entry holds the
/// recorded forward value of its vertex.
pub open spec fn memo_ok<E: FloatElement>(m: Seq<Option<Tensor<E>>>, nodes: Seq<NodeRep<E>>) -> bool {
    m.len() == nodes.len() && forall|j: int|
        0 <= j < m.len() ==> ((#[trigger] m[j]) matches Some(t) ==> t.wf() && t.rep()
            == nodes[j].out)
}

impl<E: FloatElement, B: Backend<E>> Graph<E, B> {
    /// A fresh, empty replay scratch pad for one backward pass.
    pub fn fresh_memo(&self) -> (r: Vec<Option<Tensor<E>>>)
        ensures
            memo_ok(r@, self.view_rep()),
            r@.len() == self.view_rep().len(),
    {
        let n = self.entries.len();
        let mut r: Vec<Option<Tensor<E>>> = Vec::new();
        let mut i: usize = 0;
        while i < n
            invariant
                i <= n,
                r@.len() == i,
                forall|j: int| 0 <= j < i ==> (#[trigger] r@[j]) is None,
            decreases n - i,
        {
            r.push(None);
            i = i + 1;
        }
        r
    }

    /// Reconstructs the forward value of vertex `i` by replaying its
    /// recorded operation, reading earlier vertices recursively. Values
    /// already materialized in the scratch pad are reused, and every value
    /// computed is recorded there, so one backward pass replays each vertex
    /// at most once.
    pub fn replay(&self, i: usize, memo: &mut Vec<Option<Tensor<E>>>) -> (r: Tensor<E>)
        requires
            self.inv(),
            i < self.view_rep().len(),
            memo_ok(old(memo)@, self.view_rep()),
        ensures
            r.wf(),
            r.rep() == self.view_rep()[i as int].out,
            memo_ok(final(memo)@, self.view_rep()),
        decreases i, 1int,
    {
        if let Some(t) = &memo[i] {
            return t.duplicate();
        }
        proof {
            assert(step_wf(self.entries@[i as int].step, self.view_rep(), i as int));
            assert(self.view_rep()[i as int] == entry_rep::<E, B>(self.entries@[i as int]));
            assert(op_ok::<E, B>(self.view_rep()[i as int].op));
        }
        let out = match &self.entries[i].step {
            Step::Leaf { val } => val.duplicate(),
            Step::Add { lhs, rhs } => {
                let l = self.retrieve_slot(lhs, Ghost(i as int), memo);
                let r = self.retrieve_slot(rhs, Ghost(i as int), memo);
                proof {
                    lemma_same_shape_bc(l.rep().shape, r.rep().shape);
                }
                l.add(&r)
            },
            Step::Sub { lhs, rhs } => {
                let l = self.retrieve_slot(lhs, Ghost(i as int), memo);
                let r = self.retrieve_slot(rhs, Ghost(i as int), memo);
                proof {
                    lemma_same_shape_bc(l.rep().shape, r.rep().shape);
                }
                l.sub(&r)
            },
            Step::Neg { input } => {
                let x = self.retrieve_slot(input, Ghost(i as int), memo);
                x.neg()
            },
            Step::Mul { lhs, rhs } => {
                let l = self.retrieve_slot(lhs, Ghost(i as int), memo);
                let r = self.retrieve_slot(rhs, Ghost(i as int), memo);
                proof {
                    lemma_same_shape_bc(l.rep().shape, r.rep().shape);
                }
                l.mul(&r)
            },
            Step::Div { lhs, rhs } => {
                let l = self.retrieve_slot(lhs, Ghost(i as int), memo);
                let r = self.retrieve_slot(rhs, Ghost(i as int), memo);
                proof {
                    lemma_same_shape_bc(l.rep().shape, r.rep().shape);
                }
                l.div(&r)
            },
            Step::Matmul { lhs, rhs } => {
                let l = self.retrieve_slot(lhs, Ghost(i as int), memo);
                let r = self.retrieve_slot(rhs, Ghost(i as int), memo);
                l.matmul(&r)
            },
            Step::Exp { input } => {
                let x = self.retrieve_slot(input, Ghost(i as int), memo);
                x.exp()
            },
            Step::Log { input } => {
                let x = self.retrieve_slot(input, Ghost(i as int), memo);
                x.log()
            },
            Step::PowfScalar { input, exponent } => {
                let x = self.retrieve_slot(input, Ghost(i as int), memo);
                x.powf_scalar(*exponent)
            },
            Step::Sin { input } => {
                let x = self.retrieve_slot(input, Ghost(i as int), memo);
                x.sin()
            },
            Step::Embedding { weights, indices } => {
                let w = self.retrieve_slot(weights, Ghost(i as int), memo);
                B::embedding(&w, indices)
            },
            Step::Conv1dWithBias { x, weight, bias, options } => {
                let xv = self.retrieve_slot(x, Ghost(i as int), memo);
                let wv = self.retrieve_slot(weight, Ghost(i as int), memo);
                let bv = self.retrieve_slot(bias, Ghost(i as int), memo);
                B::conv1d(&xv, &wv, Some(&bv), *options)
            },
            Step::Conv1dNoBias { x, weight, options } => {
                let xv = self.retrieve_slot(x, Ghost(i as int), memo);
                let wv = self.retrieve_slot(weight, Ghost(i as int), memo);
                B::conv1d(&xv, &wv, None, *options)
            },
            Step::ConvTranspose1dWithBias { x, weight, bias, options } => {
                let xv = self.retrieve_slot(x, Ghost(i as int), memo);
                let wv = self.retrieve_slot(weight, Ghost(i as int), memo);
                let bv = self.retrieve_slot(bias, Ghost(i as int), memo);
                B::conv_transpose1d(&xv, &wv, Some(&bv), *options)
            },
            Step::ConvTranspose1dNoBias { x, weight, options } => {
                let xv = self.retrieve_slot(x, Ghost(i as int), memo);
                let wv = self.retrieve_slot(weight, Ghost(i as int), memo);
                B::conv_transpose1d(&xv, &wv, None, *options)
            },
            Step::AvgPool1d { input, kernel_size, stride, padding, count_include_pad } => {
                let xv = self.retrieve_slot(input, Ghost(i as int), memo);
                B::avg_pool1d(&xv, *kernel_size, *stride, *padding, *count_include_pad)
            },
            Step::MaxPool1d { input, kernel_size, stride, padding, dilation, .. } => {
                let xv = self.retrieve_slot(input, Ghost(i as int), memo);
                B::max_pool1d(&xv, *kernel_size, *stride, *padding, *dilation)
            },
            Step::AdaptiveAvgPool1d { input, output_size } => {
                let xv = self.retrieve_slot(input, Ghost(i as int), memo);
                B::adaptive_avg_pool1d(&xv, *output_size)
            },
            Step::Conv2dWithBias { x, weight, bias, options } => {
                let xv = self.retrieve_slot(x, Ghost(i as int), memo);
                let wv = self.retrieve_slot(weight, Ghost(i as int), memo);
                let bv = self.retrieve_slot(bias, Ghost(i as int), memo);
                B::conv2d(&xv, &wv, Some(&bv), *options)
            },
            Step::Conv2dNoBias { x, weight, options } => {
                let xv = self.retrieve_slot(x, Ghost(i as int), memo);
                let wv = self.retrieve_slot(weight, Ghost(i as int), memo);
                B::conv2d(&xv, &wv, None, *options)
            },
            Step::ConvTranspose2dWithBias { x, weight, bias, options } => {
                let xv = self.retrieve_slot(x, Ghost(i as int), memo);
                let wv = self.retrieve_slot(weight, Ghost(i as int), memo);
                let bv = self.retrieve_slot(bias, Ghost(i as int), memo);
                B::conv_transpose2d(&xv, &wv, Some(&bv), *options)
            },
            Step::ConvTranspose2dNoBias { x, weight, options } => {
                let xv = self.retrieve_slot(x, Ghost(i as int), memo);
                let wv = self.retrieve_slot(weight, Ghost(i as int), memo);
                B::conv_transpose2d(&xv, &wv, None, *options)
            },
            Step::AvgPool2d { input, kernel_size, stride, padding, count_include_pad } => {
                let xv = self.retrieve_slot(input, Ghost(i as int), memo);
                B::avg_pool2d(&xv, *kernel_size, *stride, *padding, *count_include_pad)
            },
            Step::MaxPool2d { input, kernel_size, stride, padding, dilation, .. } => {
                let xv = self.retrieve_slot(input, Ghost(i as int), memo);
                B::max_pool2d(&xv, *kernel_size, *stride, *padding, *dilation)
            },
            Step::AdaptiveAvgPool2d { input, output_size } => {
                let xv = self.retrieve_slot(input, Ghost(i as int), memo);
                B::adaptive_avg_pool2d(&xv, *output_size)
            },
            Step::Interpolate { input, output_size, options } => {
                let xv = self.retrieve_slot(input, Ghost(i as int), memo);
                B::interpolate(&xv, *output_size, *options)
            },
        };
        proof {
            assert(out.rep() == self.view_rep()[i as int].out);
        }
        let copy = out.duplicate();
        memo.set(i, Some(copy));
        out
    }

    /// Materializes the forward value a checkpointed operand stands for: a
    /// stored value is copied out, a vertex reference is replayed.
    pub fn retrieve_slot(
        &self,
        slot: &Slot<E>,
        Ghost(bound): Ghost<int>,
        memo: &mut Vec<Option<Tensor<E>>>,
    ) -> (r: Tensor<E>)
        requires
            self.inv(),
            bound <= self.view_rep().len(),
            slot_wf(*slot, self.view_rep(), bound),
            memo_ok(old(memo)@, self.view_rep()),
        ensures
            r.wf(),
            r.rep() == slot.rep@,
            memo_ok(final(memo)@, self.view_rep()),
        decreases bound, 0int,
    {
        match &slot.kind {
            SlotKind::Val(t) => t.duplicate(),
            SlotKind::Node(p) => self.replay(*p, memo),
        }
    }
}

/// Equal dimension lists broadcast to themselves.
pub proof fn lemma_same_shape_bc(a: Seq<usize>, b: Seq<usize>)
    requires
        a =~= b,
    ensures
        crate::tensor::bc_compat(a, b),
        crate::tensor::bc_shape(a, b) =~= a,
{
}


impl<E: FloatElement, B: Backend<E>> Graph<E, B> {
    /// The recorded backward state of vertex `i`.
    pub fn node_step(&self, i: usize) -> (r: &Step<E>)
        requires
            self.inv(),
            i < self.view_rep().len(),
        ensures
            step_op(*r) == self.view_rep()[i as int].op,
            step_wf(*r, self.view_rep(), i as int),
    {
        proof {
            assert(self.view_rep()[i as int] == entry_rep::<E, B>(self.entries@[i as int]));
        }
        &self.entries[i].step
    }

    /// The operand identities of vertex `i`.
    pub fn node_parents(&self, i: usize) -> (r: &Vec<Option<usize>>)
        requires
            self.inv(),
            i < self.view_rep().len(),
        ensures
            r@.map_values(
                |p: Option<usize>|
                    match p {
                        Some(q) => Some(q as int),
                        None => None,
                    },
            ) =~= self.view_rep()[i as int].parents,
    {
        proof {
            assert(self.view_rep()[i as int] == entry_rep::<E, B>(self.entries@[i as int]));
        }
        &self.entries[i].parents
    }
}

} // verus!


