use vstd::prelude::*;

use crate::element::FloatElement;
use crate::tensor::{rep_wf, Tensor, TensorRep};

verus! {

/// Convolution parameters: stride, padding and dilation per spatial
/// dimension, and the channel group count.
#[derive(Clone, Copy, Debug)]
pub struct ConvOptions<const N: usize> {
    /// Stride per spatial dimension.
    pub stride: [usize; N],
    /// Padding per spatial dimension.
    pub padding: [usize; N],
    /// Dilation per spatial dimension.
    pub dilation: [usize; N],
    /// Channel group count.
    pub groups: usize,
}

/// Transposed-convolution parameters: as convolution, with an extra output
/// padding per spatial dimension.
#[derive(Clone, Copy, Debug)]
pub struct ConvTransposeOptions<const N: usize> {
    /// Stride per spatial dimension.
    pub stride: [usize; N],
    /// Padding per spatial dimension.
    pub padding: [usize; N],
    /// Extra output padding per spatial dimension.
    pub padding_out: [usize; N],
    /// Dilation per spatial dimension.
    pub dilation: [usize; N],
    /// Channel group count.
    pub groups: usize,
}

/// How an interpolation fills new cells.
#[derive(Clone, Copy, PartialEq, Eq, Structural, Debug)]
pub enum InterpolateMode {
    /// Nearest neighbour.
    Nearest,
    /// Bilinear.
    Bilinear,
    /// Bicubic.
    Bicubic,
}

/// Interpolation parameters.
#[derive(Clone, Copy, PartialEq, Eq, Structural, Debug)]
pub struct InterpolateOptions {
    /// How new cells are filled.
    pub mode: InterpolateMode,
}

/// The gradients a convolution hands back: with respect to the input, the
/// weights, and the bias where one was given.
pub struct Conv2dBackward<E> {
    /// Gradient with respect to the input.
    pub x_grad: Tensor<E>,
    /// Gradient with respect to the weights.
    pub weights_grad: Tensor<E>,
    /// Gradient with respect to the bias, where one was given.
    pub bias_grad: Option<Tensor<E>>,
}

/// The gradients a one-dimensional convolution hands back.
pub struct Conv1dBackward<E> {
    /// Gradient with respect to the input.
    pub x_grad: Tensor<E>,
    /// Gradient with respect to the weights.
    pub weights_grad: Tensor<E>,
    /// Gradient with respect to the bias, where one was given.
    pub bias_grad: Option<Tensor<E>>,
}

/// The capability set of a numeric backend for the neural-network module
/// operations. The differentiation layer never inspects how a backend
/// computes: every method is paired with an uninterpreted per-backend spec
/// twin, so the same arguments always stand for the same result, and each
/// backward method's results carry its operands' dimensions. A backend's
/// methods must be total for well-formed operands of the advertised ranks.
pub trait Backend<E: FloatElement>: Sized {
    /// The embedding lookup, as a mathematical value.
    spec fn embedding_v(w: TensorRep<E>, ind: TensorRep<i64>) -> TensorRep<E>;

    /// The embedding backward, as a mathematical value.
    spec fn embedding_backward_v(w: TensorRep<E>, g: TensorRep<E>, ind: TensorRep<i64>)
        -> TensorRep<E>;

    /// The two-dimensional convolution, as a mathematical value.
    spec fn conv2d_v(
        x: TensorRep<E>,
        w: TensorRep<E>,
        b: Option<TensorRep<E>>,
        options: ConvOptions<2>,
    ) -> TensorRep<E>;

    /// The two-dimensional convolution backward, as a mathematical value:
    /// gradients with respect to input, weights, and bias where given.
    spec fn conv2d_backward_v(
        x: TensorRep<E>,
        w: TensorRep<E>,
        b: Option<TensorRep<E>>,
        g: TensorRep<E>,
        options: ConvOptions<2>,
    ) -> (TensorRep<E>, TensorRep<E>, Option<TensorRep<E>>);

    /// The two-dimensional transposed convolution, as a mathematical value.
    spec fn conv_transpose2d_v(
        x: TensorRep<E>,
        w: TensorRep<E>,
        b: Option<TensorRep<E>>,
        options: ConvTransposeOptions<2>,
    ) -> TensorRep<E>;

    /// The two-dimensional transposed convolution backward, as a
    /// mathematical value.
    spec fn conv_transpose2d_backward_v(
        x: TensorRep<E>,
        w: TensorRep<E>,
        b: Option<TensorRep<E>>,
        g: TensorRep<E>,
        options: ConvTransposeOptions<2>,
    ) -> (TensorRep<E>, TensorRep<E>, Option<TensorRep<E>>);

    /// The two-dimensional average pooling, as a mathematical value.
    spec fn avg_pool2d_v(
        x: TensorRep<E>,
        kernel_size: [usize; 2],
        stride: [usize; 2],
        padding: [usize; 2],
        count_include_pad: bool,
    ) -> TensorRep<E>;

    /// The two-dimensional average pooling backward, as a mathematical
    /// value.
    spec fn avg_pool2d_backward_v(
        x: TensorRep<E>,
        g: TensorRep<E>,
        kernel_size: [usize; 2],
        stride: [usize; 2],
        padding: [usize; 2],
        count_include_pad: bool,
    ) -> TensorRep<E>;

    /// The two-dimensional max pooling with the maxima's positions, as a
    /// mathematical value.
    spec fn max_pool2d_with_indices_v(
        x: TensorRep<E>,
        kernel_size: [usize; 2],
        stride: [usize; 2],
        padding: [usize; 2],
        dilation: [usize; 2],
    ) -> (TensorRep<E>, TensorRep<i64>);

    /// The two-dimensional max pooling backward, as a mathematical value.
    spec fn max_pool2d_with_indices_backward_v(
        x: TensorRep<E>,
        kernel_size: [usize; 2],
        stride: [usize; 2],
        padding: [usize; 2],
        dilation: [usize; 2],
        g: TensorRep<E>,
        indices: TensorRep<i64>,
    ) -> TensorRep<E>;

    /// The two-dimensional adaptive average pooling, as a mathematical
    /// value.
    spec fn adaptive_avg_pool2d_v(x: TensorRep<E>, output_size: [usize; 2]) -> TensorRep<E>;

    /// The two-dimensional adaptive average pooling backward, as a
    /// mathematical value.
    spec fn adaptive_avg_pool2d_backward_v(x: TensorRep<E>, g: TensorRep<E>) -> TensorRep<E>;

    /// The two-dimensional interpolation, as a mathematical value.
    spec fn interpolate_v(
        x: TensorRep<E>,
        output_size: [usize; 2],
        options: InterpolateOptions,
    ) -> TensorRep<E>;

    /// The two-dimensional interpolation backward, as a mathematical value.
    spec fn interpolate_backward_v(
        x: TensorRep<E>,
        g: TensorRep<E>,
        output_size: [usize; 2],
        options: InterpolateOptions,
    ) -> TensorRep<E>;


    /// The one-dimensional convolution, as a mathematical value.
    spec fn conv1d_v(
        x: TensorRep<E>,
        w: TensorRep<E>,
        b: Option<TensorRep<E>>,
        options: ConvOptions<1>,
    ) -> TensorRep<E>;

    /// The one-dimensional convolution backward, as a mathematical value.
    spec fn conv1d_backward_v(
        x: TensorRep<E>,
        w: TensorRep<E>,
        b: Option<TensorRep<E>>,
        g: TensorRep<E>,
        options: ConvOptions<1>,
    ) -> (TensorRep<E>, TensorRep<E>, Option<TensorRep<E>>);

    /// The one-dimensional transposed convolution, as a mathematical value.
    spec fn conv_transpose1d_v(
        x: TensorRep<E>,
        w: TensorRep<E>,
        b: Option<TensorRep<E>>,
        options: ConvTransposeOptions<1>,
    ) -> TensorRep<E>;

    /// The one-dimensional transposed convolution backward, as a
    /// mathematical value.
    spec fn conv_transpose1d_backward_v(
        x: TensorRep<E>,
        w: TensorRep<E>,
        b: Option<TensorRep<E>>,
        g: TensorRep<E>,
        options: ConvTransposeOptions<1>,
    ) -> (TensorRep<E>, TensorRep<E>, Option<TensorRep<E>>);

    /// The one-dimensional average pooling, as a mathematical value.
    spec fn avg_pool1d_v(
        x: TensorRep<E>,
        kernel_size: usize,
        stride: usize,
        padding: usize,
        count_include_pad: bool,
    ) -> TensorRep<E>;

    /// The one-dimensional average pooling backward, as a mathematical
    /// value.
    spec fn avg_pool1d_backward_v(
        x: TensorRep<E>,
        g: TensorRep<E>,
        kernel_size: usize,
        stride: usize,
        padding: usize,
        count_include_pad: bool,
    ) -> TensorRep<E>;

    /// The one-dimensional max pooling with the maxima's positions, as a
    /// mathematical value.
    spec fn max_pool1d_with_indices_v(
        x: TensorRep<E>,
        kernel_size: usize,
        stride: usize,
        padding: usize,
        dilation: usize,
    ) -> (TensorRep<E>, TensorRep<i64>);

    /// The one-dimensional max pooling backward, as a mathematical value.
    spec fn max_pool1d_with_indices_backward_v(
        x: TensorRep<E>,
        kernel_size: usize,
        stride: usize,
        padding: usize,
        dilation: usize,
        g: TensorRep<E>,
        indices: TensorRep<i64>,
    ) -> TensorRep<E>;

    /// The one-dimensional adaptive average pooling, as a mathematical
    /// value.
    spec fn adaptive_avg_pool1d_v(x: TensorRep<E>, output_size: usize) -> TensorRep<E>;

    /// The one-dimensional adaptive average pooling backward, as a
    /// mathematical value.
    spec fn adaptive_avg_pool1d_backward_v(x: TensorRep<E>, g: TensorRep<E>) -> TensorRep<E>;

    /// Looks embeddings up: rows of the `[vocabulary, features]` weights
    /// selected by the `[batch, length]` indices.
    fn embedding(weights: &Tensor<E>, indices: &Tensor<i64>) -> (r: Tensor<E>)
        requires
            weights.wf(),
            indices.wf(),
            weights.dims().len() == 2,
            indices.dims().len() == 2,
        ensures
            r.wf(),
            r.elems().len() <= usize::MAX,
            r.rep() == Self::embedding_v(weights.rep(), indices.rep()),
    ;

    /// The gradient of an embedding lookup with respect to its weights; it
    /// has the weights' dimensions.
    fn embedding_backward(weights: &Tensor<E>, grad: &Tensor<E>, indices: &Tensor<i64>) -> (r:
        Tensor<E>)
        requires
            weights.wf(),
            grad.wf(),
            indices.wf(),
        ensures
            r.wf(),
            r.elems().len() <= usize::MAX,
            r.rep() == Self::embedding_backward_v(weights.rep(), grad.rep(), indices.rep()),
            r.rep().shape =~= weights.rep().shape,
    ;

    /// The two-dimensional convolution of a `[batch, channel, height,
    /// width]` input.
    fn conv2d(x: &Tensor<E>, weight: &Tensor<E>, bias: Option<&Tensor<E>>, options: ConvOptions<
        2,
    >) -> (r: Tensor<E>)
        requires
            x.wf(),
            weight.wf(),
            x.dims().len() == 4,
            weight.dims().len() == 4,
            bias matches Some(b) ==> b.wf(),
        ensures
            r.wf(),
            r.elems().len() <= usize::MAX,
            r.rep() == Self::conv2d_v(
                x.rep(),
                weight.rep(),
                match bias {
                    Some(b) => Some(b.rep()),
                    None => None,
                },
                options,
            ),
    ;

    /// The gradients of a two-dimensional convolution with respect to its
    /// operands; each has its operand's dimensions, and a bias gradient is
    /// handed back exactly when a bias was given.
    fn conv2d_backward(
        x: &Tensor<E>,
        weight: &Tensor<E>,
        bias: Option<&Tensor<E>>,
        grad: &Tensor<E>,
        options: ConvOptions<2>,
    ) -> (r: Conv2dBackward<E>)
        requires
            x.wf(),
            weight.wf(),
            grad.wf(),
            x.dims().len() == 4,
            weight.dims().len() == 4,
            bias matches Some(b) ==> b.wf(),
        ensures
            ({
                let b = match bias {
                    Some(b) => Some(b.rep()),
                    None => None,
                };
                let want = Self::conv2d_backward_v(x.rep(), weight.rep(), b, grad.rep(), options);
                &&& r.x_grad.wf() && r.x_grad.elems().len() <= usize::MAX
                &&& r.weights_grad.wf() && r.weights_grad.elems().len() <= usize::MAX
                &&& r.x_grad.rep() == want.0
                &&& r.weights_grad.rep() == want.1
                &&& r.x_grad.rep().shape =~= x.rep().shape
                &&& r.weights_grad.rep().shape =~= weight.rep().shape
                &&& (match (bias, &r.bias_grad) {
                    (Some(bt), Some(bg)) => bg.wf() && bg.elems().len() <= usize::MAX && want.2
                        == Some(bg.rep()) && bg.rep().shape =~= bt.rep().shape,
                    (None, None) => want.2 is None,
                    _ => false,
                })
            }),
    ;

    /// The two-dimensional transposed convolution.
    fn conv_transpose2d(
        x: &Tensor<E>,
        weight: &Tensor<E>,
        bias: Option<&Tensor<E>>,
        options: ConvTransposeOptions<2>,
    ) -> (r: Tensor<E>)
        requires
            x.wf(),
            weight.wf(),
            x.dims().len() == 4,
            weight.dims().len() == 4,
            bias matches Some(b) ==> b.wf(),
        ensures
            r.wf(),
            r.elems().len() <= usize::MAX,
            r.rep() == Self::conv_transpose2d_v(
                x.rep(),
                weight.rep(),
                match bias {
                    Some(b) => Some(b.rep()),
                    None => None,
                },
                options,
            ),
    ;

    /// The gradients of a two-dimensional transposed convolution with
    /// respect to its operands.
    fn conv_transpose2d_backward(
        x: &Tensor<E>,
        weight: &Tensor<E>,
        bias: Option<&Tensor<E>>,
        grad: &Tensor<E>,
        options: ConvTransposeOptions<2>,
    ) -> (r: Conv2dBackward<E>)
        requires
            x.wf(),
            weight.wf(),
            grad.wf(),
            x.dims().len() == 4,
            weight.dims().len() == 4,
            bias matches Some(b) ==> b.wf(),
        ensures
            ({
                let b = match bias {
                    Some(b) => Some(b.rep()),
                    None => None,
                };
                let want = Self::conv_transpose2d_backward_v(
                    x.rep(),
                    weight.rep(),
                    b,
                    grad.rep(),
                    options,
                );
                &&& r.x_grad.wf() && r.x_grad.elems().len() <= usize::MAX
                &&& r.weights_grad.wf() && r.weights_grad.elems().len() <= usize::MAX
                &&& r.x_grad.rep() == want.0
                &&& r.weights_grad.rep() == want.1
                &&& r.x_grad.rep().shape =~= x.rep().shape
                &&& r.weights_grad.rep().shape =~= weight.rep().shape
                &&& (match (bias, &r.bias_grad) {
                    (Some(bt), Some(bg)) => bg.wf() && bg.elems().len() <= usize::MAX && want.2
                        == Some(bg.rep()) && bg.rep().shape =~= bt.rep().shape,
                    (None, None) => want.2 is None,
                    _ => false,
                })
            }),
    ;

    /// The two-dimensional average pooling.
    fn avg_pool2d(
        x: &Tensor<E>,
        kernel_size: [usize; 2],
        stride: [usize; 2],
        padding: [usize; 2],
        count_include_pad: bool,
    ) -> (r: Tensor<E>)
        requires
            x.wf(),
            x.dims().len() == 4,
        ensures
            r.wf(),
            r.elems().len() <= usize::MAX,
            r.rep() == Self::avg_pool2d_v(
                x.rep(),
                kernel_size,
                stride,
                padding,
                count_include_pad,
            ),
            r.rep().shape.len() == 4,
            r.rep().shape[2] * r.rep().shape[3] <= usize::MAX,
    ;

    /// The gradient of a two-dimensional average pooling with respect to
    /// its input; it has the input's dimensions.
    fn avg_pool2d_backward(
        x: &Tensor<E>,
        grad: &Tensor<E>,
        kernel_size: [usize; 2],
        stride: [usize; 2],
        padding: [usize; 2],
        count_include_pad: bool,
    ) -> (r: Tensor<E>)
        requires
            x.wf(),
            grad.wf(),
            x.dims().len() == 4,
        ensures
            r.wf(),
            r.elems().len() <= usize::MAX,
            r.rep() == Self::avg_pool2d_backward_v(
                x.rep(),
                grad.rep(),
                kernel_size,
                stride,
                padding,
                count_include_pad,
            ),
            r.rep().shape =~= x.rep().shape,
    ;

    /// The two-dimensional max pooling together with the positions of the
    /// maxima in each window.
    fn max_pool2d_with_indices(
        x: &Tensor<E>,
        kernel_size: [usize; 2],
        stride: [usize; 2],
        padding: [usize; 2],
        dilation: [usize; 2],
    ) -> (r: (Tensor<E>, Tensor<i64>))
        requires
            x.wf(),
            x.dims().len() == 4,
        ensures
            r.0.wf(),
            r.1.wf(),
            r.0.elems().len() <= usize::MAX,
            (r.0.rep(), r.1.rep()) == Self::max_pool2d_with_indices_v(
                x.rep(),
                kernel_size,
                stride,
                padding,
                dilation,
            ),
            r.0.rep().shape.len() == 4,
            r.0.rep().shape[2] * r.0.rep().shape[3] <= usize::MAX,
            r.1.rep().shape =~= r.0.rep().shape,
    ;

    /// The two-dimensional max pooling, keeping only the maxima.
    fn max_pool2d(
        x: &Tensor<E>,
        kernel_size: [usize; 2],
        stride: [usize; 2],
        padding: [usize; 2],
        dilation: [usize; 2],
    ) -> (r: Tensor<E>)
        requires
            x.wf(),
            x.dims().len() == 4,
        ensures
            r.wf(),
            r.elems().len() <= usize::MAX,
            r.rep() == Self::max_pool2d_with_indices_v(
                x.rep(),
                kernel_size,
                stride,
                padding,
                dilation,
            ).0,
            r.rep().shape.len() == 4,
            r.rep().shape[2] * r.rep().shape[3] <= usize::MAX,
    ;

    /// The gradient of a two-dimensional max pooling with respect to its
    /// input, routed through the recorded maxima positions; it has the
    /// input's dimensions.
    fn max_pool2d_with_indices_backward(
        x: &Tensor<E>,
        kernel_size: [usize; 2],
        stride: [usize; 2],
        padding: [usize; 2],
        dilation: [usize; 2],
        grad: &Tensor<E>,
        indices: &Tensor<i64>,
    ) -> (r: Tensor<E>)
        requires
            x.wf(),
            grad.wf(),
            indices.wf(),
            x.dims().len() == 4,
        ensures
            r.wf(),
            r.elems().len() <= usize::MAX,
            r.rep() == Self::max_pool2d_with_indices_backward_v(
                x.rep(),
                kernel_size,
                stride,
                padding,
                dilation,
                grad.rep(),
                indices.rep(),
            ),
            r.rep().shape =~= x.rep().shape,
    ;

    /// The two-dimensional adaptive average pooling onto the given output
    /// extents.
    fn adaptive_avg_pool2d(x: &Tensor<E>, output_size: [usize; 2]) -> (r: Tensor<E>)
        requires
            x.wf(),
            x.dims().len() == 4,
        ensures
            r.wf(),
            r.elems().len() <= usize::MAX,
            r.rep() == Self::adaptive_avg_pool2d_v(x.rep(), output_size),
            r.rep().shape.len() == 4,
            r.rep().shape[2] * r.rep().shape[3] <= usize::MAX,
    ;

    /// The gradient of a two-dimensional adaptive average pooling with
    /// respect to its input; it has the input's dimensions.
    fn adaptive_avg_pool2d_backward(x: &Tensor<E>, grad: &Tensor<E>) -> (r: Tensor<E>)
        requires
            x.wf(),
            grad.wf(),
            x.dims().len() == 4,
        ensures
            r.wf(),
            r.elems().len() <= usize::MAX,
            r.rep() == Self::adaptive_avg_pool2d_backward_v(x.rep(), grad.rep()),
            r.rep().shape =~= x.rep().shape,
    ;


    /// The one-dimensional convolution of a `[batch, channel, length]`
    /// input.
    fn conv1d(x: &Tensor<E>, weight: &Tensor<E>, bias: Option<&Tensor<E>>, options: ConvOptions<
        1,
    >) -> (r: Tensor<E>)
        requires
            x.wf(),
            weight.wf(),
            x.dims().len() == 3,
            weight.dims().len() == 3,
            bias matches Some(b) ==> b.wf(),
        ensures
            r.wf(),
            r.elems().len() <= usize::MAX,
            r.rep() == Self::conv1d_v(
                x.rep(),
                weight.rep(),
                match bias {
                    Some(b) => Some(b.rep()),
                    None => None,
                },
                options,
            ),
    ;

    /// The gradients of a one-dimensional convolution with respect to its
    /// operands; each has its operand's dimensions, and a bias gradient is
    /// handed back exactly when a bias was given.
    fn conv1d_backward(
        x: &Tensor<E>,
        weight: &Tensor<E>,
        bias: Option<&Tensor<E>>,
        grad: &Tensor<E>,
        options: ConvOptions<1>,
    ) -> (r: Conv1dBackward<E>)
        requires
            x.wf(),
            weight.wf(),
            grad.wf(),
            x.dims().len() == 3,
            weight.dims().len() == 3,
            bias matches Some(b) ==> b.wf(),
        ensures
            ({
                let b = match bias {
                    Some(b) => Some(b.rep()),
                    None => None,
                };
                let want = Self::conv1d_backward_v(x.rep(), weight.rep(), b, grad.rep(), options);
                &&& r.x_grad.wf() && r.x_grad.elems().len() <= usize::MAX
                &&& r.weights_grad.wf() && r.weights_grad.elems().len() <= usize::MAX
                &&& r.x_grad.rep() == want.0
                &&& r.weights_grad.rep() == want.1
                &&& r.x_grad.rep().shape =~= x.rep().shape
                &&& r.weights_grad.rep().shape =~= weight.rep().shape
                &&& (match (bias, &r.bias_grad) {
                    (Some(bt), Some(bg)) => bg.wf() && bg.elems().len() <= usize::MAX && want.2
                        == Some(bg.rep()) && bg.rep().shape =~= bt.rep().shape,
                    (None, None) => want.2 is None,
                    _ => false,
                })
            }),
    ;

    /// The one-dimensional transposed convolution.
    fn conv_transpose1d(
        x: &Tensor<E>,
        weight: &Tensor<E>,
        bias: Option<&Tensor<E>>,
        options: ConvTransposeOptions<1>,
    ) -> (r: Tensor<E>)
        requires
            x.wf(),
            weight.wf(),
            x.dims().len() == 3,
            weight.dims().len() == 3,
            bias matches Some(b) ==> b.wf(),
        ensures
            r.wf(),
            r.elems().len() <= usize::MAX,
            r.rep() == Self::conv_transpose1d_v(
                x.rep(),
                weight.rep(),
                match bias {
                    Some(b) => Some(b.rep()),
                    None => None,
                },
                options,
            ),
    ;

    /// The gradients of a one-dimensional transposed convolution with
    /// respect to its operands.
    fn conv_transpose1d_backward(
        x: &Tensor<E>,
        weight: &Tensor<E>,
        bias: Option<&Tensor<E>>,
        grad: &Tensor<E>,
        options: ConvTransposeOptions<1>,
    ) -> (r: Conv1dBackward<E>)
        requires
            x.wf(),
            weight.wf(),
            grad.wf(),
            x.dims().len() == 3,
            weight.dims().len() == 3,
            bias matches Some(b) ==> b.wf(),
        ensures
            ({
                let b = match bias {
                    Some(b) => Some(b.rep()),
                    None => None,
                };
                let want = Self::conv_transpose1d_backward_v(
                    x.rep(),
                    weight.rep(),
                    b,
                    grad.rep(),
                    options,
                );
                &&& r.x_grad.wf() && r.x_grad.elems().len() <= usize::MAX
                &&& r.weights_grad.wf() && r.weights_grad.elems().len() <= usize::MAX
                &&& r.x_grad.rep() == want.0
                &&& r.weights_grad.rep() == want.1
                &&& r.x_grad.rep().shape =~= x.rep().shape
                &&& r.weights_grad.rep().shape =~= weight.rep().shape
                &&& (match (bias, &r.bias_grad) {
                    (Some(bt), Some(bg)) => bg.wf() && bg.elems().len() <= usize::MAX && want.2
                        == Some(bg.rep()) && bg.rep().shape =~= bt.rep().shape,
                    (None, None) => want.2 is None,
                    _ => false,
                })
            }),
    ;

    /// The one-dimensional average pooling.
    fn avg_pool1d(
        x: &Tensor<E>,
        kernel_size: usize,
        stride: usize,
        padding: usize,
        count_include_pad: bool,
    ) -> (r: Tensor<E>)
        requires
            x.wf(),
            x.dims().len() == 3,
        ensures
            r.wf(),
            r.elems().len() <= usize::MAX,
            r.rep() == Self::avg_pool1d_v(
                x.rep(),
                kernel_size,
                stride,
                padding,
                count_include_pad,
            ),
    ;

    /// The gradient of a one-dimensional average pooling with respect to
    /// its input; it has the input's dimensions.
    fn avg_pool1d_backward(
        x: &Tensor<E>,
        grad: &Tensor<E>,
        kernel_size: usize,
        stride: usize,
        padding: usize,
        count_include_pad: bool,
    ) -> (r: Tensor<E>)
        requires
            x.wf(),
            grad.wf(),
            x.dims().len() == 3,
        ensures
            r.wf(),
            r.elems().len() <= usize::MAX,
            r.rep() == Self::avg_pool1d_backward_v(
                x.rep(),
                grad.rep(),
                kernel_size,
                stride,
                padding,
                count_include_pad,
            ),
            r.rep().shape =~= x.rep().shape,
    ;

    /// The one-dimensional max pooling together with the positions of the
    /// maxima in each window.
    fn max_pool1d_with_indices(
        x: &Tensor<E>,
        kernel_size: usize,
        stride: usize,
        padding: usize,
        dilation: usize,
    ) -> (r: (Tensor<E>, Tensor<i64>))
        requires
            x.wf(),
            x.dims().len() == 3,
        ensures
            r.0.wf(),
            r.1.wf(),
            r.0.elems().len() <= usize::MAX,
            (r.0.rep(), r.1.rep()) == Self::max_pool1d_with_indices_v(
                x.rep(),
                kernel_size,
                stride,
                padding,
                dilation,
            ),
    ;

    /// The one-dimensional max pooling, keeping only the maxima.
    fn max_pool1d(x: &Tensor<E>, kernel_size: usize, stride: usize, padding: usize, dilation:
        usize) -> (r: Tensor<E>)
        requires
            x.wf(),
            x.dims().len() == 3,
        ensures
            r.wf(),
            r.elems().len() <= usize::MAX,
            r.rep() == Self::max_pool1d_with_indices_v(
                x.rep(),
                kernel_size,
                stride,
                padding,
                dilation,
            ).0,
    ;

    /// The gradient of a one-dimensional max pooling with respect to its
    /// input, routed through the recorded maxima positions; it has the
    /// input's dimensions.
    fn max_pool1d_with_indices_backward(
        x: &Tensor<E>,
        kernel_size: usize,
        stride: usize,
        padding: usize,
        dilation: usize,
        grad: &Tensor<E>,
        indices: &Tensor<i64>,
    ) -> (r: Tensor<E>)
        requires
            x.wf(),
            grad.wf(),
            indices.wf(),
            x.dims().len() == 3,
        ensures
            r.wf(),
            r.elems().len() <= usize::MAX,
            r.rep() == Self::max_pool1d_with_indices_backward_v(
                x.rep(),
                kernel_size,
                stride,
                padding,
                dilation,
                grad.rep(),
                indices.rep(),
            ),
            r.rep().shape =~= x.rep().shape,
    ;

    /// The one-dimensional adaptive average pooling onto the given output
    /// extent.
    fn adaptive_avg_pool1d(x: &Tensor<E>, output_size: usize) -> (r: Tensor<E>)
        requires
            x.wf(),
            x.dims().len() == 3,
        ensures
            r.wf(),
            r.elems().len() <= usize::MAX,
            r.rep() == Self::adaptive_avg_pool1d_v(x.rep(), output_size),
    ;

    /// The gradient of a one-dimensional adaptive average pooling with
    /// respect to its input; it has the input's dimensions.
    fn adaptive_avg_pool1d_backward(x: &Tensor<E>, grad: &Tensor<E>) -> (r: Tensor<E>)
        requires
            x.wf(),
            grad.wf(),
            x.dims().len() == 3,
        ensures
            r.wf(),
            r.elems().len() <= usize::MAX,
            r.rep() == Self::adaptive_avg_pool1d_backward_v(x.rep(), grad.rep()),
            r.rep().shape =~= x.rep().shape,
    ;

    /// The two-dimensional interpolation onto the given output extents.
    fn interpolate(x: &Tensor<E>, output_size: [usize; 2], options: InterpolateOptions) -> (r:
        Tensor<E>)
        requires
            x.wf(),
            x.dims().len() == 4,
        ensures
            r.wf(),
            r.elems().len() <= usize::MAX,
            r.rep() == Self::interpolate_v(x.rep(), output_size, options),
    ;

    /// The gradient of a two-dimensional interpolation with respect to its
    /// input; it has the input's dimensions.
    fn interpolate_backward(
        x: &Tensor<E>,
        grad: &Tensor<E>,
        output_size: [usize; 2],
        options: InterpolateOptions,
    ) -> (r: Tensor<E>)
        requires
            x.wf(),
            grad.wf(),
            x.dims().len() == 4,
        ensures
            r.wf(),
            r.elems().len() <= usize::MAX,
            r.rep() == Self::interpolate_backward_v(x.rep(), grad.rep(), output_size, options),
            r.rep().shape =~= x.rep().shape,
    ;
}

} // verus!
