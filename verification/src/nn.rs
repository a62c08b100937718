use vstd::prelude::*;

use crate::activation::{relu, relu_rep};
use crate::element::Element;
use crate::shape::prod;
use crate::tensor::Tensor;

verus! {

/// Applies the rectified linear unit function element-wise:
/// negative inputs become zero, others pass through.
pub struct Relu {}

impl Relu {
    /// Create the module.
    pub fn new() -> (r: Relu) {
        Relu {  }
    }

    /// Applies the forward pass on the input tensor.
    pub fn forward<E: Element>(&self, input: &Tensor<E>) -> (r: Tensor<E>)
        requires
            input.wf(),
        ensures
            r.wf(),
            r.rep() == relu_rep(input.rep()),
    {
        relu(input)
    }
}

/// How a layer's trainable state is filled at construction.
#[derive(Clone, Copy, PartialEq, Eq, Structural, Debug)]
pub enum Initializer {
    /// Every element zero.
    Zeros,
    /// Every element one.
    Ones,
}

/// The element every cell of a freshly initialized tensor holds.
pub open spec fn init_value<E: Element>(init: Initializer) -> E {
    match init {
        Initializer::Zeros => E::zero_v(),
        Initializer::Ones => E::one_v(),
    }
}

/// An affine transformation: a weight matrix and an optional bias vector.
pub struct Linear<E> {
    /// The `[input, output]` weight matrix.
    pub weight: Tensor<E>,
    /// The bias vector of the output size, if the layer carries one.
    pub bias: Option<Tensor<E>>,
}

/// The sizes and initialization of an affine transformation.
pub struct LinearConfig {
    /// Input size.
    pub d_input: usize,
    /// Output size.
    pub d_output: usize,
    /// Whether the layer carries a bias.
    pub bias: bool,
    /// How the weight and bias are filled.
    pub initializer: Initializer,
}

impl LinearConfig {
    /// Builds the configured transformation, filling the weight and any
    /// bias per the initializer.
    pub fn init<E: Element>(&self) -> (r: Linear<E>)
        requires
            self.d_input * self.d_output <= usize::MAX,
        ensures
            r.weight.wf(),
            r.weight.dims() =~= seq![self.d_input, self.d_output],
            forall|k: int|
                0 <= k < r.weight.elems().len() ==> r.weight.elems()[k] == init_value::<E>(
                    self.initializer,
                ),
            self.bias == (r.bias is Some),
            r.bias matches Some(b) ==> b.wf() && b.dims() =~= seq![self.d_output] && forall|k: int|
                0 <= k < b.elems().len() ==> b.elems()[k] == init_value::<E>(self.initializer),
    {
        let v: E = match self.initializer {
            Initializer::Zeros => E::zero(),
            Initializer::Ones => E::one(),
        };
        let mut wshape: Vec<usize> = Vec::new();
        wshape.push(self.d_input);
        wshape.push(self.d_output);
        proof {
            crate::tensor::lemma_two_dims(wshape@);
        }
        let weight = filled(wshape, self.d_input * self.d_output, v);
        let bias = if self.bias {
            let mut bshape: Vec<usize> = Vec::new();
            bshape.push(self.d_output);
            proof {
                assert(prod(bshape@) == prod(bshape@.drop_last()) * self.d_output);
                assert(bshape@.drop_last() =~= Seq::<usize>::empty());
            }
            Some(filled(bshape, self.d_output, v))
        } else {
            None
        };
        Linear { weight, bias }
    }
}

/// A tensor of the given dimensions whose every cell holds `v`.
fn filled<E: Element>(shape: Vec<usize>, n: usize, v: E) -> (r: Tensor<E>)
    requires
        prod(shape@) == n,
    ensures
        r.wf(),
        r.dims() == shape@,
        r.elems().len() == n,
        forall|k: int| 0 <= k < n ==> r.elems()[k] == v,
{
    let mut data: Vec<E> = Vec::new();
    let mut i: usize = 0;
    while i < n
        invariant
            i <= n,
            data@.len() == i,
            forall|k: int| 0 <= k < i ==> data@[k] == v,
        decreases n - i,
    {
        data.push(v);
        i = i + 1;
    }
    match Tensor::from_parts(shape, data) {
        Some(t) => t,
        None => {
            proof {
                assert(false);
            }
            unreached()
        },
    }
}

/// The trainable state of an affine transformation, as loaded from a
/// record.
pub struct LinearRecord<E> {
    /// The `[input, output]` weight matrix.
    pub weight: Tensor<E>,
    /// The bias vector, if recorded.
    pub bias: Option<Tensor<E>>,
}

/// A gate of a recurrent cell, modeled as two affine transformations: one
/// over the input vector and one over the hidden state.
pub struct GateController<E> {
    /// The affine transformation applied to the input vector.
    pub input_transform: Linear<E>,
    /// The affine transformation applied to the hidden state.
    pub hidden_transform: Linear<E>,
}

impl<E: Element> GateController<E> {
    /// Initialize a new gate: an input transformation from `d_input` to
    /// `d_output` and a hidden transformation from `d_output` to itself.
    pub fn new(d_input: usize, d_output: usize, bias: bool, initializer: Initializer) -> (r:
        GateController<E>)
        requires
            d_input * d_output <= usize::MAX,
            d_output * d_output <= usize::MAX,
        ensures
            r.input_transform.weight.dims() =~= seq![d_input, d_output],
            r.hidden_transform.weight.dims() =~= seq![d_output, d_output],
            bias == (r.input_transform.bias is Some),
            bias == (r.hidden_transform.bias is Some),
    {
        let input_transform = LinearConfig { d_input, d_output, bias, initializer }.init();
        let hidden_transform = LinearConfig {
            d_input: d_output,
            d_output,
            bias,
            initializer,
        }.init();
        GateController { input_transform, hidden_transform }
    }

    /// Initialize a gate with known weight layers, for predictable
    /// behavior.
    pub fn create_with_weights(
        d_input: usize,
        d_output: usize,
        bias: bool,
        initializer: Initializer,
        input_record: LinearRecord<E>,
        hidden_record: LinearRecord<E>,
    ) -> (r: GateController<E>)
        ensures
            r.input_transform.weight == input_record.weight,
            r.input_transform.bias == input_record.bias,
            r.hidden_transform.weight == hidden_record.weight,
            r.hidden_transform.bias == hidden_record.bias,
    {
        let l1 = Linear { weight: input_record.weight, bias: input_record.bias };
        let l2 = Linear { weight: hidden_record.weight, bias: hidden_record.bias };
        GateController { input_transform: l1, hidden_transform: l2 }
    }
}

} // verus!
