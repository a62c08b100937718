use vstd::prelude::*;

verus! {

/// The raw bit pattern of the 32-bit float one, used to recognize scaling
/// attributes that leave a product unscaled.
pub const F32_ONE_BITS: u32 = 0x3F80_0000;

/// The kinds of imported graph nodes this pass looks at.
#[derive(Clone, Copy, PartialEq, Eq, Structural, Debug)]
pub enum NodeType {
    /// General matrix multiply with scaling attributes.
    Gemm,
    /// Plain matrix multiply.
    MatMul,
    /// Elementwise addition.
    Add,
    /// An affine layer, the target of this pass.
    Linear,
    /// Any node this pass leaves alone.
    Other,
}

/// An attribute of an imported node. Float payloads are carried as raw
/// bits.
#[derive(Clone, Copy, PartialEq, Eq, Structural, Debug)]
pub enum AttributeValue {
    /// A 32-bit float attribute, as its raw bits.
    Float32(u32),
    /// A 64-bit integer attribute.
    Int64(i64),
}

/// A constant tensor payload. Float payloads are carried as raw bits.
#[derive(Clone, Debug)]
#[verifier::ext_equal]
pub enum Data {
    /// 32-bit floats, as raw bits.
    Float32s(Vec<u32>),
    /// 64-bit floats, as raw bits.
    Float64s(Vec<u64>),
    /// 16-bit floats, as raw bits.
    Float16s(Vec<u16>),
    /// 64-bit integers.
    Int64s(Vec<i64>),
}

/// The type of an imported tensor argument.
#[derive(Clone, Debug)]
#[verifier::ext_equal]
pub struct OnnxTensorType {
    /// Number of dimensions.
    pub dim: usize,
    /// The dimensions, when known.
    pub shape: Option<Vec<usize>>,
}

/// The type of an imported argument.
#[derive(Clone, Debug)]
#[verifier::ext_equal]
pub enum ArgType {
    /// A tensor argument.
    Tensor(OnnxTensorType),
    /// A scalar argument.
    Scalar,
}

/// One argument of an imported node: its name, its type, and its constant
/// payload when it has one.
#[verifier::ext_equal]
pub struct Argument {
    /// The argument's name in the imported graph.
    pub name: String,
    /// The argument's type.
    pub ty: ArgType,
    /// The constant payload, for weight-like arguments.
    pub value: Option<Data>,
}

/// One node of an imported graph.
#[verifier::ext_equal]
pub struct Node {
    /// The node's kind.
    pub node_type: NodeType,
    /// The node's attributes, by name.
    pub attrs: Vec<(String, AttributeValue)>,
    /// The node's inputs, in order.
    pub inputs: Vec<Argument>,
    /// The node's outputs, in order.
    pub outputs: Vec<Argument>,
}

/// Why a node could not be rewritten.
#[derive(Clone, Copy, PartialEq, Eq, Structural, Debug)]
pub enum CoalesceError {
    /// The node's arguments are not in the shape the rewrite needs.
    MalformedNode,
    /// The node scales its product, which an affine layer cannot express.
    UnsupportedGemm,
}

impl Node {
    /// The attribute named `name`, if present.
    pub fn attr(&self, name: &str) -> (r: Option<AttributeValue>)
        ensures
            match r {
                Some(v) => exists|t: int|
                    0 <= t < self.attrs@.len() && (#[trigger] self.attrs@[t]).0@ == name@
                        && self.attrs@[t].1 == v,
                None => forall|t: int|
                    0 <= t < self.attrs@.len() ==> (#[trigger] self.attrs@[t]).0@ != name@,
            },
    {
        let mut i: usize = 0;
        while i < self.attrs.len()
            invariant
                i <= self.attrs@.len(),
                forall|t: int| 0 <= t < i ==> (#[trigger] self.attrs@[t]).0@ != name@,
            decreases self.attrs@.len() - i,
        {
            if str_eq_name(&self.attrs[i].0, name) {
                return Some(self.attrs[i].1);
            }
            i = i + 1;
        }
        None
    }

    /// Removes every attribute named `name`.
    pub fn remove_attr(&mut self, name: &str)
        ensures
            final(self).attrs@.len() <= old(self).attrs@.len(),
            forall|t: int|
                0 <= t < final(self).attrs@.len() ==> (#[trigger] final(self).attrs@[t]).0@
                    != name@ && old(self).attrs@.contains(final(self).attrs@[t]),
            final(self).node_type == old(self).node_type,
            final(self).inputs == old(self).inputs,
            final(self).outputs == old(self).outputs,
    {
        let mut kept: Vec<(String, AttributeValue)> = Vec::new();
        let n = self.attrs.len();
        let mut i: usize = 0;
        while i < n
            invariant
                i <= n,
                n == self.attrs@.len(),
                kept@.len() <= i,
                forall|t: int|
                    0 <= t < kept@.len() ==> (#[trigger] kept@[t]).0@ != name@
                        && self.attrs@.contains(kept@[t]),
            decreases n - i,
        {
            if !str_eq_name(&self.attrs[i].0, name) {
                let ghost before = kept@;
                kept.push(clone_attr(&self.attrs[i]));
                proof {
                    assert(self.attrs@.contains(self.attrs@[i as int]));
                    assert(kept@[before.len() as int] == self.attrs@[i as int]);
                }
            }
            i = i + 1;
        }
        self.attrs = kept;
    }
}

/// An identical copy of an attribute entry.
fn clone_attr(a: &(String, AttributeValue)) -> (r: (String, AttributeValue))
    ensures
        r.0@ == a.0@,
        r.1 == a.1,
        r == *a,
{
    let ghost orig = *a;
    let name = a.0.clone();
    proof {
        assert(name@ == a.0@);
        assert((name, a.1) =~= orig) by {
            assert(name@ == orig.0@);
        }
    }
    (name, a.1)
}

/// Whether a string equals a borrowed name.
fn str_eq_name(a: &String, b: &str) -> (r: bool)
    ensures
        r == (a@ == b@),
{
    let x: &str = a.as_str();
    let ab = x.as_bytes();
    let bb = b.as_bytes();
    proof {
        vstd::utf8::encode_utf8_decode_utf8(x@);
        vstd::utf8::encode_utf8_decode_utf8(b@);
    }
    if ab.len() != bb.len() {
        return false;
    }
    let mut i: usize = 0;
    while i < ab.len()
        invariant
            i <= ab@.len(),
            ab@.len() == bb@.len(),
            ab@ == vstd::utf8::encode_utf8(x@),
            bb@ == vstd::utf8::encode_utf8(b@),
            x@ == a@,
            vstd::utf8::decode_utf8(vstd::utf8::encode_utf8(x@)) == x@,
            vstd::utf8::decode_utf8(vstd::utf8::encode_utf8(b@)) == b@,
            forall|j: int| 0 <= j < i ==> ab@[j] == bb@[j],
        decreases ab@.len() - i,
    {
        if ab[i] != bb[i] {
            return false;
        }
        i = i + 1;
    }
    proof {
        assert(ab@ =~= bb@);
    }
    true
}

/// The cell of a flattened row-major matrix of width `width` at row `a`,
/// column `b`.
pub open spec fn cell_at<T>(s: Seq<T>, a: int, b: int, width: int) -> T {
    s[a * width + b]
}

/// A flattened row-major matrix with its axes exchanged: the cell at row
/// `i`, column `j` moves to row `j`, column `i`.
pub fn transpose_flattened<T: Copy>(matrix: Vec<T>, rows: usize, cols: usize) -> (r: Vec<T>)
    requires
        matrix@.len() == rows * cols,
    ensures
        r@.len() == rows * cols,
        forall|i: int, j: int|
            0 <= i < rows && 0 <= j < cols ==> #[trigger] cell_at(r@, j, i, rows as int)
                == cell_at(matrix@, i, j, cols as int),
{
    let n = matrix.len();
    if n == 0 {
        proof {
            assert(rows == 0 || cols == 0) by (nonlinear_arith)
                requires
                    rows * cols == 0,
            ;
        }
        return matrix;
    }
    let fill = matrix[0];
    let mut out: Vec<T> = Vec::new();
    let mut k: usize = 0;
    while k < n
        invariant
            k <= n,
            out@.len() == k,
        decreases n - k,
    {
        out.push(fill);
        k = k + 1;
    }
    let mut i: usize = 0;
    while i < rows
        invariant
            i <= rows,
            n == rows * cols,
            n == matrix@.len(),
            out@.len() == n,
            forall|a: int, b: int|
                0 <= a < i && 0 <= b < cols ==> #[trigger] cell_at(out@, b, a, rows as int)
                    == cell_at(matrix@, a, b, cols as int),
        decreases rows - i,
    {
        let mut j: usize = 0;
        while j < cols
            invariant
                j <= cols,
                i < rows,
                n == rows * cols,
                n == matrix@.len(),
                out@.len() == n,
                forall|a: int, b: int|
                    0 <= a < i && 0 <= b < cols ==> #[trigger] cell_at(out@, b, a, rows as int)
                        == cell_at(matrix@, a, b, cols as int),
                forall|b: int|
                    0 <= b < j ==> #[trigger] cell_at(out@, b, i as int, rows as int)
                        == cell_at(matrix@, i as int, b, cols as int),
            decreases cols - j,
        {
            proof {
                assert(0 <= (i as int) * (cols as int) + j < rows * cols && 0 <= (j as int) * (
                rows as int) + i < rows * cols) by (nonlinear_arith)
                    requires
                        0 <= i < rows,
                        0 <= j < cols,
                ;
            }
            let v = matrix[i * cols + j];
            let ghost before = out@;
            out.set(j * rows + i, v);
            proof {
                assert forall|a: int, b: int| 0 <= a < i && 0 <= b < cols implies #[trigger]
                    cell_at(out@, b, a, rows as int) == cell_at(matrix@, a, b, cols as int) by {
                    assert(b * (rows as int) + a != (j as int) * (rows as int) + i)
                        by (nonlinear_arith)
                        requires
                            0 <= a < i,
                            i < rows,
                            0 <= b < cols,
                            0 <= j < cols,
                    ;
                    assert(0 <= b * (rows as int) + a < rows * cols) by (nonlinear_arith)
                        requires
                            0 <= a < rows,
                            0 <= b < cols,
                    ;
                    assert(out@[b * (rows as int) + a] == before[b * (rows as int) + a]);
                    assert(cell_at(before, b, a, rows as int) == cell_at(
                        matrix@,
                        a,
                        b,
                        cols as int,
                    ));
                }
                assert forall|b: int| 0 <= b < j implies #[trigger] cell_at(
                    out@,
                    b,
                    i as int,
                    rows as int,
                ) == cell_at(matrix@, i as int, b, cols as int) by {
                    assert(b * (rows as int) + i != (j as int) * (rows as int) + i)
                        by (nonlinear_arith)
                        requires
                            0 <= b < j,
                            j < cols,
                            i < rows,
                    ;
                    assert(0 <= b * (rows as int) + i < rows * cols) by (nonlinear_arith)
                        requires
                            0 <= i < rows,
                            0 <= b < cols,
                    ;
                    assert(out@[b * (rows as int) + i] == before[b * (rows as int) + i]);
                    assert(cell_at(before, b, i as int, rows as int) == cell_at(
                        matrix@,
                        i as int,
                        b,
                        cols as int,
                    ));
                }
                assert(cell_at(out@, j as int, i as int, rows as int) == cell_at(
                    matrix@,
                    i as int,
                    j as int,
                    cols as int,
                ));
            }
            j = j + 1;
        }
        i = i + 1;
    }
    out
}

/// Exchanges the axes of the two-dimensional weight payload of a linear
/// node's second input, updating its recorded shape to match.
pub fn transpose_linear_node_weights(node: &mut Node) -> (r: Result<(), CoalesceError>)
    ensures
        r matches Err(e) ==> e == CoalesceError::MalformedNode && final(node).node_type == old(
            node,
        ).node_type && final(node).attrs == old(node).attrs && final(node).outputs == old(
            node,
        ).outputs && final(node).inputs@ =~= old(node).inputs@,
        r is Ok ==> {
            &&& old(node).inputs@.len() > 1
            &&& final(node).node_type == old(node).node_type
            &&& final(node).attrs == old(node).attrs
            &&& final(node).outputs == old(node).outputs
            &&& final(node).inputs@.len() == old(node).inputs@.len()
        },
{
    let ghost orig = *node;
    if node.inputs.len() < 2 {
        return Err(CoalesceError::MalformedNode);
    }
    let (rows, cols) = match &node.inputs[1].ty {
        ArgType::Tensor(t) => {
            if t.dim != 2 {
                return Err(CoalesceError::MalformedNode);
            }
            match &t.shape {
                Some(s) => {
                    if s.len() != 2 {
                        return Err(CoalesceError::MalformedNode);
                    }
                    (s[0], s[1])
                },
                None => {
                    return Err(CoalesceError::MalformedNode);
                },
            }
        },
        _ => {
            return Err(CoalesceError::MalformedNode);
        },
    };
    if rows.checked_mul(cols).is_none() {
        return Err(CoalesceError::MalformedNode);
    }
    let arg = node.inputs.remove(1);
    let Argument { name, ty, value } = arg;
    let data = match value {
        Some(Data::Float32s(d)) => {
            if d.len() != rows * cols {
                node.inputs.insert(
                    1,
                    Argument { name, ty, value: Some(Data::Float32s(d)) },
                );
                proof {
                    assert(node.inputs@ =~= orig.inputs@);
                }
                return fail_unchanged(node);
            }
            Data::Float32s(transpose_flattened(d, rows, cols))
        },
        Some(Data::Float64s(d)) => {
            if d.len() != rows * cols {
                node.inputs.insert(
                    1,
                    Argument { name, ty, value: Some(Data::Float64s(d)) },
                );
                proof {
                    assert(node.inputs@ =~= orig.inputs@);
                }
                return fail_unchanged(node);
            }
            Data::Float64s(transpose_flattened(d, rows, cols))
        },
        Some(Data::Float16s(d)) => {
            if d.len() != rows * cols {
                node.inputs.insert(
                    1,
                    Argument { name, ty, value: Some(Data::Float16s(d)) },
                );
                proof {
                    assert(node.inputs@ =~= orig.inputs@);
                }
                return fail_unchanged(node);
            }
            Data::Float16s(transpose_flattened(d, rows, cols))
        },
        other => {
            node.inputs.insert(1, Argument { name, ty, value: other });
            proof {
                assert(node.inputs@ =~= orig.inputs@);
            }
            return fail_unchanged(node);
        },
    };
    let mut new_shape: Vec<usize> = Vec::new();
    new_shape.push(cols);
    new_shape.push(rows);
    node.inputs.insert(
        1,
        Argument {
            name,
            ty: ArgType::Tensor(OnnxTensorType { dim: 2, shape: Some(new_shape) }),
            value: Some(data),
        },
    );
    Ok(())
}

/// Answers the malformed-node error; the node has already been restored.
fn fail_unchanged(node: &mut Node) -> (r: Result<(), CoalesceError>)
    ensures
        r == Err::<(), CoalesceError>(CoalesceError::MalformedNode),
        *final(node) == *old(node),
{
    Err(CoalesceError::MalformedNode)
}

/// Rewrites a general matrix multiply into an affine layer where its
/// scaling attributes are the identity: the scales and the transposition
/// marker are dropped and the weights transposed. A scaled multiply is
/// refused.
pub fn convert_gemm_to_linear(node: &mut Node) -> (r: Result<(), CoalesceError>)
    ensures
        r is Ok ==> final(node).node_type == NodeType::Linear,
{
    if node.outputs.len() != 1 {
        return Err(CoalesceError::MalformedNode);
    }
    let alpha = node.attr("alpha");
    let beta = node.attr("beta");
    let trans_b = node.attr("transB");
    let straight_linear = match (alpha, beta, trans_b) {
        (
            Some(AttributeValue::Float32(a)),
            Some(AttributeValue::Float32(b)),
            Some(AttributeValue::Int64(t)),
        ) => a == F32_ONE_BITS && b == F32_ONE_BITS && t == 1,
        _ => false,
    };
    if straight_linear {
        node.node_type = NodeType::Linear;
        node.remove_attr("alpha");
        node.remove_attr("beta");
        node.remove_attr("transB");
        match transpose_linear_node_weights(node) {
            Ok(_) => Ok(()),
            Err(e) => Err(e),
        }
    } else {
        Err(CoalesceError::UnsupportedGemm)
    }
}

/// Whether `peek` is an addition that consumes `current`'s output together
/// with a constant bias.
pub fn is_add_node_with_bias(peek_node: &Node, current_node: &Node) -> (r: bool)
    requires
        current_node.outputs@.len() > 0,
    ensures
        r == (peek_node.node_type == NodeType::Add && peek_node.inputs@.len() == 2 && ((
        peek_node.inputs@[0].name@ == current_node.outputs@[0].name@
            && peek_node.inputs@[1].value is Some) || (peek_node.inputs@[1].name@
            == current_node.outputs@[0].name@ && peek_node.inputs@[0].value is Some))),
{
    if !(matches_node_type(peek_node, NodeType::Add) && peek_node.inputs.len() == 2) {
        return false;
    }
    let first = str_eq_name(&peek_node.inputs[0].name, current_node.outputs[0].name.as_str())
        && peek_node.inputs[1].value.is_some();
    let second = str_eq_name(&peek_node.inputs[1].name, current_node.outputs[0].name.as_str())
        && peek_node.inputs[0].value.is_some();
    first || second
}

/// Whether a node has the given kind.
fn matches_node_type(node: &Node, ty: NodeType) -> (r: bool)
    ensures
        r == (node.node_type == ty),
{
    node.node_type == ty
}

/// Folds a following addition into the current node: the constant operand
/// becomes the node's bias input, and the node takes over the addition's
/// output name.
pub fn convert_and_remove_add_node(bias_input: Argument, add_output: Argument, current_node:
    &mut Node)
    requires
        old(current_node).outputs@.len() > 0,
    ensures
        final(current_node).inputs@ =~= old(current_node).inputs@.push(bias_input),
        final(current_node).outputs@.len() == old(current_node).outputs@.len(),
        final(current_node).outputs@[0].name@ == add_output.name@,
        final(current_node).node_type == old(current_node).node_type,
{
    current_node.inputs.push(bias_input);
    let mut out = current_node.outputs.remove(0);
    out.name = add_output.name;
    current_node.outputs.insert(0, out);
}

/// Rewrites eligible nodes in place: a general matrix multiply becomes an
/// affine layer when its scales are the identity, and a plain matrix
/// multiply with a constant second operand becomes an affine layer. Other
/// nodes are left alone.
pub fn coalesce(node: &mut Node) -> (r: Result<(), CoalesceError>)
    ensures
        old(node).node_type == NodeType::Gemm && r is Ok ==> final(node).node_type
            == NodeType::Linear,
        !(old(node).node_type == NodeType::Gemm || old(node).node_type == NodeType::MatMul)
            ==> *final(node) == *old(node) && r is Ok,
{
    match node.node_type {
        NodeType::Gemm => convert_gemm_to_linear(node),
        NodeType::MatMul => convert_matmul_to_linear(node),
        _ => Ok(()),
    }
}

/// Rewrites a plain matrix multiply whose second operand is a known
/// two-dimensional constant into an affine layer; one without a constant
/// operand is left alone.
pub fn convert_matmul_to_linear(node: &mut Node) -> (r: Result<(), CoalesceError>)
    ensures
        r is Ok && old(node).inputs@.len() == 2 && old(node).inputs@[1].value is Some
            ==> final(node).node_type == NodeType::Linear,
{
    if node.inputs.len() != 2 {
        return Err(CoalesceError::MalformedNode);
    }
    if node.inputs[1].value.is_none() {
        return Ok(());
    }
    match &node.inputs[1].ty {
        ArgType::Tensor(t) => {
            if t.dim != 2 {
                return Err(CoalesceError::MalformedNode);
            }
        },
        _ => {
            return Err(CoalesceError::MalformedNode);
        },
    }
    node.node_type = NodeType::Linear;
    Ok(())
}

} // verus!
