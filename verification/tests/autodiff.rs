use burn::element::{Element, FloatElement};
use burn::tensor::Tensor;

#[derive(Clone, Copy, Debug)]
struct F(f32);

impl Element for F {
    fn zero_v() -> F {
        F(0.0)
    }
    fn one_v() -> F {
        F(1.0)
    }
    fn lowest_v() -> F {
        F(f32::MIN)
    }
    fn of_usize_v(n: usize) -> F {
        F(n as f32)
    }
    fn add_v(self, o: F) -> F {
        F(self.0 + o.0)
    }
    fn sub_v(self, o: F) -> F {
        F(self.0 - o.0)
    }
    fn mul_v(self, o: F) -> F {
        F(self.0 * o.0)
    }
    fn div_v(self, o: F) -> F {
        F(self.0 / o.0)
    }
    fn neg_v(self) -> F {
        F(-self.0)
    }
    fn lt_v(self, o: F) -> bool {
        self.0 < o.0
    }
    fn is_zero_v(self) -> bool {
        self.0 == 0.0
    }
    fn zero() -> F {
        F(0.0)
    }
    fn one() -> F {
        F(1.0)
    }
    fn lowest() -> F {
        F(f32::MIN)
    }
    fn of_usize(n: usize) -> F {
        F(n as f32)
    }
    fn add(self, o: F) -> F {
        F(self.0 + o.0)
    }
    fn sub(self, o: F) -> F {
        F(self.0 - o.0)
    }
    fn mul(self, o: F) -> F {
        F(self.0 * o.0)
    }
    fn div(self, o: F) -> F {
        F(self.0 / o.0)
    }
    fn neg(self) -> F {
        F(-self.0)
    }
    fn lt(self, o: F) -> bool {
        self.0 < o.0
    }
    fn is_zero(self) -> bool {
        self.0 == 0.0
    }
}

impl FloatElement for F {
    fn exp_v(self) -> F {
        F(self.0.exp())
    }
    fn log_v(self) -> F {
        F(self.0.ln())
    }
    fn powf_v(self, e: F) -> F {
        F(self.0.powf(e.0))
    }
    fn sin_v(self) -> F {
        F(self.0.sin())
    }
    fn cos_v(self) -> F {
        F(self.0.cos())
    }
    fn exp(self) -> F {
        F(self.0.exp())
    }
    fn log(self) -> F {
        F(self.0.ln())
    }
    fn powf(self, e: F) -> F {
        F(self.0.powf(e.0))
    }
    fn sin(self) -> F {
        F(self.0.sin())
    }
    fn cos(self) -> F {
        F(self.0.cos())
    }
}

fn tf(shape: &[usize], data: &[f32]) -> Tensor<F> {
    let d: Vec<F> = data.iter().map(|v| F(*v)).collect();
    Tensor::from_parts(shape.to_vec(), d).unwrap()
}

#[allow(dead_code)]
fn ti(shape: &[usize], data: &[i64]) -> Tensor<i64> {
    Tensor::from_parts(shape.to_vec(), data.to_vec()).unwrap()
}

fn values(t: Tensor<F>) -> Vec<f32> {
    t.into_data().into_iter().map(|v| v.0).collect()
}

#[allow(dead_code)]
fn assert_close(actual: &[f32], expected: &[f32], digits: i32) {
    assert_eq!(actual.len(), expected.len());
    let tol = 0.1f64.powi(digits);
    for i in 0..actual.len() {
        let err = ((actual[i] - expected[i]) as f64).powi(2);
        assert!(err <= tol, "at {}: {} vs {}", i, actual[i], expected[i]);
    }
}

use burn::backward::backward;
use burn::diff::{self, AutodiffTensor, CheckpointStrategy};
use burn::graph::Graph;

const MB: CheckpointStrategy = CheckpointStrategy::MemoryBound;

fn grad_values(t: &AutodiffTensor<F>, grads: &burn::grads::Gradients<F>) -> Vec<f32> {
    values(t.grad(grads).unwrap())
}

#[test]
fn should_diff_add() {
    let mut g: Graph<F, RowBackend> = Graph::new();
    let tensor_1 = AutodiffTensor::require_grad(tf(&[2], &[2.0, 5.0]), &mut g);
    let tensor_2 = AutodiffTensor::require_grad(tf(&[2], &[4.0, 1.0]), &mut g);

    let tensor_3 = diff::add(&tensor_1, &tensor_2, &mut g, MB);
    let grads = backward(&tensor_3, &g);

    assert_eq!(grad_values(&tensor_1, &grads), vec![1.0, 1.0]);
    assert_eq!(grad_values(&tensor_2, &grads), vec![1.0, 1.0]);
    assert_eq!(values(tensor_3.inner()), vec![6.0, 6.0]);
}

#[test]
fn should_diff_matmul() {
    let mut g: Graph<F, RowBackend> = Graph::new();
    let tensor_1 = AutodiffTensor::require_grad(tf(&[2, 2], &[1.0, 7.0, 2.0, 3.0]), &mut g);
    let tensor_2 = AutodiffTensor::require_grad(tf(&[2, 2], &[4.0, 7.0, 2.0, 3.0]), &mut g);

    let tensor_3 = diff::matmul(&tensor_1, &tensor_2, &mut g, MB);
    let grads = backward(&tensor_3, &g);

    assert_eq!(grad_values(&tensor_1, &grads), vec![11.0, 5.0, 11.0, 5.0]);
    assert_eq!(grad_values(&tensor_2, &grads), vec![3.0, 3.0, 10.0, 10.0]);
    assert_eq!(values(tensor_3.inner()), vec![18.0, 28.0, 14.0, 23.0]);
}

#[test]
fn test_matmul_complex_1() {
    let mut g: Graph<F, RowBackend> = Graph::new();
    let tensor_1 = AutodiffTensor::require_grad(tf(&[2, 2], &[1.0, 7.0, 13.0, -3.0]), &mut g);
    let tensor_2 = AutodiffTensor::require_grad(tf(&[2, 2], &[4.0, 7.0, 2.0, 3.0]), &mut g);
    let tensor_3 = AutodiffTensor::require_grad(tf(&[2, 2], &[2.0, 2.0, 2.0, 2.0]), &mut g);

    let tensor_4 = diff::matmul(&tensor_1, &tensor_2, &mut g, MB);
    let tensor_5 = diff::matmul(&tensor_4, &tensor_3, &mut g, MB);

    let grads = backward(&tensor_5, &g);

    assert_eq!(grad_values(&tensor_1, &grads), vec![44.0, 20.0, 44.0, 20.0]);
    assert_eq!(grad_values(&tensor_2, &grads), vec![56.0, 56.0, 16.0, 16.0]);
}

#[test]
fn test_matmul_complex_2() {
    let mut g: Graph<F, RowBackend> = Graph::new();
    let tensor_1 = AutodiffTensor::require_grad(tf(&[2, 2], &[1.0, 7.0, 13.0, -3.0]), &mut g);
    let tensor_2 = AutodiffTensor::require_grad(tf(&[2, 2], &[4.0, 7.0, 2.0, 3.0]), &mut g);
    let tensor_3 = AutodiffTensor::require_grad(tf(&[2, 2], &[2.0, 2.0, 2.0, 2.0]), &mut g);

    let tensor_4 = diff::matmul(&tensor_1, &tensor_2, &mut g, MB);
    let tensor_5 = diff::matmul(&tensor_4, &tensor_3, &mut g, MB);
    let tensor_6 = diff::matmul(&tensor_1, &tensor_5, &mut g, MB);

    let grads = backward(&tensor_6, &g);

    assert_eq!(grad_values(&tensor_1, &grads), vec![800.0, 792.0, 360.0, 592.0]);
    assert_eq!(grad_values(&tensor_2, &grads), vec![264.0, 264.0, 344.0, 344.0]);
}

#[test]
fn should_diff_neg() {
    let mut g: Graph<F, RowBackend> = Graph::new();
    let tensor_1 = AutodiffTensor::require_grad(tf(&[2, 2], &[1.0, 7.0, 2.0, 3.0]), &mut g);
    let tensor_2 = AutodiffTensor::require_grad(tf(&[2, 2], &[4.0, 7.0, 2.0, 3.0]), &mut g);

    let neg_2 = diff::neg(&tensor_2, &mut g, MB);
    let tensor_3 = diff::matmul(&tensor_1, &neg_2, &mut g, MB);
    let tensor_4 = diff::neg(&tensor_3, &mut g, MB);
    let grads = backward(&tensor_4, &g);

    assert_eq!(grad_values(&tensor_1, &grads), vec![11.0, 5.0, 11.0, 5.0]);
    assert_eq!(grad_values(&tensor_2, &grads), vec![3.0, 3.0, 10.0, 10.0]);
}

#[test]
fn should_diff_log() {
    let mut g: Graph<F, RowBackend> = Graph::new();
    let tensor_1 = AutodiffTensor::require_grad(tf(&[2, 2], &[0.0, 1.0, 3.0, 4.0]), &mut g);
    let tensor_2 = AutodiffTensor::require_grad(tf(&[2, 2], &[6.0, 7.0, 9.0, 10.0]), &mut g);

    let log_2 = diff::log(&tensor_2, &mut g, MB);
    let tensor_3 = diff::matmul(&tensor_1, &log_2, &mut g, MB);
    let tensor_4 = diff::matmul(&tensor_3, &tensor_2, &mut g, MB);
    let grads = backward(&tensor_4, &g);

    assert_close(
        &grad_values(&tensor_1, &grads),
        &[60.2652, 72.3130, 60.2652, 72.3130],
        3,
    );
    assert_close(
        &grad_values(&tensor_2, &grads),
        &[22.8614, 24.5043, 24.5729, 26.8507],
        3,
    );
}

#[test]
fn should_diff_sin() {
    let mut g: Graph<F, RowBackend> = Graph::new();
    let tensor_1 = AutodiffTensor::require_grad(tf(&[2, 2], &[0.0, 1.0, 3.0, 4.0]), &mut g);
    let tensor_2 = AutodiffTensor::require_grad(tf(&[2, 2], &[6.0, 7.0, 9.0, 10.0]), &mut g);

    let sin_2 = diff::sin(&tensor_2, &mut g, MB);
    let tensor_3 = diff::matmul(&tensor_1, &sin_2, &mut g, MB);
    let tensor_4 = diff::matmul(&tensor_3, &tensor_2, &mut g, MB);
    let grads = backward(&tensor_4, &g);

    let grad_1 = grad_values(&tensor_1, &grads);
    let grad_2 = grad_values(&tensor_2, &grads);
    let expected_1 = [8.8500, -4.9790, 8.8500, -4.9790];
    let expected_2 = [38.668987, 44.194775, -59.97261, -80.46094];
    for i in 0..4 {
        assert!((grad_1[i] - expected_1[i]).abs() <= 2.6e-3);
        assert!((grad_2[i] - expected_2[i]).abs() <= 2.6e-3);
    }
}

#[test]
fn should_diff_powf_scalar() {
    let mut g: Graph<F, RowBackend> = Graph::new();
    let tensor_1 = AutodiffTensor::require_grad(tf(&[2, 2], &[0.0, 1.0, 3.0, 4.0]), &mut g);
    let tensor_2 = AutodiffTensor::require_grad(tf(&[2, 2], &[6.0, 7.0, 9.0, 10.0]), &mut g);

    let pow_2 = diff::powf_scalar(&tensor_2, F(0.4), &mut g, MB);
    let tensor_3 = diff::matmul(&tensor_1, &pow_2, &mut g, MB);
    let tensor_4 = diff::matmul(&tensor_3, &tensor_2, &mut g, MB);
    let grads = backward(&tensor_4, &g);

    assert_close(
        &grad_values(&tensor_1, &grads),
        &[68.0, 79.0328, 68.0, 79.0328],
        3,
    );
    assert_close(
        &grad_values(&tensor_2, &grads),
        &[23.5081, 25.2779, 26.0502, 28.6383],
        3,
    );
}

#[test]
fn gradients_accumulate_for_shared_input() {
    // One tracked input feeding both operands of a sum: the two branches'
    // contributions are summed.
    let mut g: Graph<F, RowBackend> = Graph::new();
    let a = AutodiffTensor::require_grad(tf(&[2], &[3.0, -1.0]), &mut g);
    let y = diff::add(&a, &a, &mut g, MB);
    let grads = backward(&y, &g);

    assert_eq!(grad_values(&a, &grads), vec![2.0, 2.0]);
}

#[test]
fn untracked_inputs_are_pruned() {
    // An operation on untracked inputs records nothing, and an untracked
    // operand of a tracked operation receives no gradient.
    let mut g: Graph<F, RowBackend> = Graph::new();
    let a = AutodiffTensor::new(tf(&[2], &[2.0, 5.0]));
    let b = AutodiffTensor::new(tf(&[2], &[4.0, 1.0]));
    let y = diff::mul(&a, &b, &mut g, MB);
    assert_eq!(g.len(), 0);
    assert!(!y.is_tracked());

    let c = AutodiffTensor::require_grad(tf(&[2], &[7.0, 8.0]), &mut g);
    let z = diff::mul(&c, &a, &mut g, MB);
    let grads = backward(&z, &g);

    assert_eq!(grad_values(&c, &grads), vec![2.0, 5.0]);
    assert!(a.grad(&grads).is_none());
}

#[test]
fn gradient_query_is_idempotent() {
    let mut g: Graph<F, RowBackend> = Graph::new();
    let a = AutodiffTensor::require_grad(tf(&[2], &[2.0, 5.0]), &mut g);
    let b = AutodiffTensor::require_grad(tf(&[2], &[4.0, 1.0]), &mut g);
    let y = diff::mul(&a, &b, &mut g, MB);
    let grads = backward(&y, &g);

    let first = grad_values(&a, &grads);
    let second = grad_values(&a, &grads);
    assert_eq!(first, second);
    assert_eq!(first, vec![4.0, 1.0]);
}

#[test]
fn strategies_agree_on_gradients() {
    // The same computation under the memory-bound and the compute-bound
    // strategies yields bit-for-bit identical gradients.
    let mut results: Vec<Vec<f32>> = Vec::new();
    let strategies = [CheckpointStrategy::MemoryBound, CheckpointStrategy::ComputeBound];
    for strategy in strategies {
        let mut g: Graph<F, RowBackend> = Graph::new();
        let t1 = AutodiffTensor::require_grad(tf(&[2, 2], &[1.0, 7.0, 13.0, -3.0]), &mut g);
        let t2 = AutodiffTensor::require_grad(tf(&[2, 2], &[4.0, 7.0, 2.0, 3.0]), &mut g);
        let t3 = diff::matmul(&t1, &t2, &mut g, strategy);
        let t4 = diff::exp(&t3, &mut g, strategy);
        let t5 = diff::mul(&t3, &t4, &mut g, strategy);
        let grads = backward(&t5, &g);
        results.push(grad_values(&t1, &grads));
        results.push(grad_values(&t2, &grads));
    }
    assert_eq!(results[0], results[2]);
    assert_eq!(results[1], results[3]);
}

#[test]
fn should_diff_div() {
    let mut g: Graph<F, RowBackend> = Graph::new();
    let a = AutodiffTensor::require_grad(tf(&[2], &[4.0, 9.0]), &mut g);
    let b = AutodiffTensor::require_grad(tf(&[2], &[2.0, 3.0]), &mut g);
    let y = diff::div(&a, &b, &mut g, MB);
    let grads = backward(&y, &g);

    assert_eq!(values(y.inner()), vec![2.0, 3.0]);
    assert_eq!(grad_values(&a, &grads), vec![0.5, 1.0 / 3.0]);
    assert_eq!(grad_values(&b, &grads), vec![-1.0, -1.0]);
}

#[test]
fn should_diff_sub() {
    let mut g: Graph<F, RowBackend> = Graph::new();
    let a = AutodiffTensor::require_grad(tf(&[2], &[4.0, 9.0]), &mut g);
    let b = AutodiffTensor::require_grad(tf(&[2], &[2.0, 3.0]), &mut g);
    let y = diff::sub(&a, &b, &mut g, MB);
    let grads = backward(&y, &g);

    assert_eq!(values(y.inner()), vec![2.0, 6.0]);
    assert_eq!(grad_values(&a, &grads), vec![1.0, 1.0]);
    assert_eq!(grad_values(&b, &grads), vec![-1.0, -1.0]);
}

#[test]
fn should_diff_exp_through_recompute() {
    // The compute-bound strategy replays the forward value during the
    // backward pass instead of reading a stored copy.
    let mut g: Graph<F, RowBackend> = Graph::new();
    let a = AutodiffTensor::require_grad(tf(&[2], &[0.0, 1.0]), &mut g);
    let e = diff::exp(&a, &mut g, CheckpointStrategy::ComputeBound);
    let y = diff::mul(&e, &e, &mut g, CheckpointStrategy::ComputeBound);
    let grads = backward(&y, &g);

    // d(e^a * e^a)/da = 2 * e^(2a)
    let expected = [2.0f32, 2.0 * (2.0f32).exp()];
    let actual = grad_values(&a, &grads);
    for i in 0..2 {
        assert!((actual[i] - expected[i]).abs() <= 1e-4 * expected[i].abs().max(1.0));
    }
}

#[test]
fn mismatched_shape_and_data_are_rejected() {
    let d: Vec<F> = vec![F(1.0), F(2.0), F(3.0)];
    assert!(burn::tensor::Tensor::from_parts(vec![2, 2], d).is_none());
}

use burn::backend::{Backend, Conv2dBackward, ConvOptions, ConvTransposeOptions, InterpolateOptions};
use burn::tensor::TensorRep;

// A minimal backend for exercising the module operations: embeddings are
// row gathers, and everything else is unused by these tests.
struct RowBackend;

impl Backend<F> for RowBackend {
    fn embedding_v(_w: TensorRep<F>, _ind: TensorRep<i64>) -> TensorRep<F> {
        panic!()
    }
    fn embedding_backward_v(_w: TensorRep<F>, _g: TensorRep<F>, _ind: TensorRep<i64>) -> TensorRep<F> {
        panic!()
    }
    fn conv2d_v(
        _x: TensorRep<F>,
        _w: TensorRep<F>,
        _b: Option<TensorRep<F>>,
        _o: ConvOptions<2>,
    ) -> TensorRep<F> {
        panic!()
    }
    fn conv2d_backward_v(
        _x: TensorRep<F>,
        _w: TensorRep<F>,
        _b: Option<TensorRep<F>>,
        _g: TensorRep<F>,
        _o: ConvOptions<2>,
    ) -> (TensorRep<F>, TensorRep<F>, Option<TensorRep<F>>) {
        panic!()
    }
    fn conv_transpose2d_v(
        _x: TensorRep<F>,
        _w: TensorRep<F>,
        _b: Option<TensorRep<F>>,
        _o: ConvTransposeOptions<2>,
    ) -> TensorRep<F> {
        panic!()
    }
    fn conv_transpose2d_backward_v(
        _x: TensorRep<F>,
        _w: TensorRep<F>,
        _b: Option<TensorRep<F>>,
        _g: TensorRep<F>,
        _o: ConvTransposeOptions<2>,
    ) -> (TensorRep<F>, TensorRep<F>, Option<TensorRep<F>>) {
        panic!()
    }
    fn avg_pool2d_v(
        _x: TensorRep<F>,
        _k: [usize; 2],
        _s: [usize; 2],
        _p: [usize; 2],
        _c: bool,
    ) -> TensorRep<F> {
        panic!()
    }
    fn avg_pool2d_backward_v(
        _x: TensorRep<F>,
        _g: TensorRep<F>,
        _k: [usize; 2],
        _s: [usize; 2],
        _p: [usize; 2],
        _c: bool,
    ) -> TensorRep<F> {
        panic!()
    }
    fn max_pool2d_with_indices_v(
        _x: TensorRep<F>,
        _k: [usize; 2],
        _s: [usize; 2],
        _p: [usize; 2],
        _d: [usize; 2],
    ) -> (TensorRep<F>, TensorRep<i64>) {
        panic!()
    }
    fn max_pool2d_with_indices_backward_v(
        _x: TensorRep<F>,
        _k: [usize; 2],
        _s: [usize; 2],
        _p: [usize; 2],
        _d: [usize; 2],
        _g: TensorRep<F>,
        _i: TensorRep<i64>,
    ) -> TensorRep<F> {
        panic!()
    }
    fn adaptive_avg_pool2d_v(_x: TensorRep<F>, _o: [usize; 2]) -> TensorRep<F> {
        panic!()
    }
    fn adaptive_avg_pool2d_backward_v(_x: TensorRep<F>, _g: TensorRep<F>) -> TensorRep<F> {
        panic!()
    }
    fn interpolate_v(_x: TensorRep<F>, _o: [usize; 2], _op: InterpolateOptions) -> TensorRep<F> {
        panic!()
    }
    fn interpolate_backward_v(
        _x: TensorRep<F>,
        _g: TensorRep<F>,
        _o: [usize; 2],
        _op: InterpolateOptions,
    ) -> TensorRep<F> {
        panic!()
    }


    fn conv1d_v(
        _x: TensorRep<F>,
        _w: TensorRep<F>,
        _b: Option<TensorRep<F>>,
        _o: ConvOptions<1>,
    ) -> TensorRep<F> {
        panic!()
    }
    fn conv1d_backward_v(
        _x: TensorRep<F>,
        _w: TensorRep<F>,
        _b: Option<TensorRep<F>>,
        _g: TensorRep<F>,
        _o: ConvOptions<1>,
    ) -> (TensorRep<F>, TensorRep<F>, Option<TensorRep<F>>) {
        panic!()
    }
    fn conv_transpose1d_v(
        _x: TensorRep<F>,
        _w: TensorRep<F>,
        _b: Option<TensorRep<F>>,
        _o: ConvTransposeOptions<1>,
    ) -> TensorRep<F> {
        panic!()
    }
    fn conv_transpose1d_backward_v(
        _x: TensorRep<F>,
        _w: TensorRep<F>,
        _b: Option<TensorRep<F>>,
        _g: TensorRep<F>,
        _o: ConvTransposeOptions<1>,
    ) -> (TensorRep<F>, TensorRep<F>, Option<TensorRep<F>>) {
        panic!()
    }
    fn avg_pool1d_v(_x: TensorRep<F>, _k: usize, _s: usize, _p: usize, _c: bool) -> TensorRep<F> {
        panic!()
    }
    fn avg_pool1d_backward_v(
        _x: TensorRep<F>,
        _g: TensorRep<F>,
        _k: usize,
        _s: usize,
        _p: usize,
        _c: bool,
    ) -> TensorRep<F> {
        panic!()
    }
    fn max_pool1d_with_indices_v(
        _x: TensorRep<F>,
        _k: usize,
        _s: usize,
        _p: usize,
        _d: usize,
    ) -> (TensorRep<F>, TensorRep<i64>) {
        panic!()
    }
    fn max_pool1d_with_indices_backward_v(
        _x: TensorRep<F>,
        _k: usize,
        _s: usize,
        _p: usize,
        _d: usize,
        _g: TensorRep<F>,
        _i: TensorRep<i64>,
    ) -> TensorRep<F> {
        panic!()
    }
    fn adaptive_avg_pool1d_v(_x: TensorRep<F>, _o: usize) -> TensorRep<F> {
        panic!()
    }
    fn adaptive_avg_pool1d_backward_v(_x: TensorRep<F>, _g: TensorRep<F>) -> TensorRep<F> {
        panic!()
    }
    fn conv1d(
        _x: &Tensor<F>,
        _w: &Tensor<F>,
        _b: Option<&Tensor<F>>,
        _o: ConvOptions<1>,
    ) -> Tensor<F> {
        panic!()
    }
    fn conv1d_backward(
        _x: &Tensor<F>,
        _w: &Tensor<F>,
        _b: Option<&Tensor<F>>,
        _g: &Tensor<F>,
        _o: ConvOptions<1>,
    ) -> burn::backend::Conv1dBackward<F> {
        panic!()
    }
    fn conv_transpose1d(
        _x: &Tensor<F>,
        _w: &Tensor<F>,
        _b: Option<&Tensor<F>>,
        _o: ConvTransposeOptions<1>,
    ) -> Tensor<F> {
        panic!()
    }
    fn conv_transpose1d_backward(
        _x: &Tensor<F>,
        _w: &Tensor<F>,
        _b: Option<&Tensor<F>>,
        _g: &Tensor<F>,
        _o: ConvTransposeOptions<1>,
    ) -> burn::backend::Conv1dBackward<F> {
        panic!()
    }
    fn avg_pool1d(_x: &Tensor<F>, _k: usize, _s: usize, _p: usize, _c: bool) -> Tensor<F> {
        panic!()
    }
    fn avg_pool1d_backward(
        _x: &Tensor<F>,
        _g: &Tensor<F>,
        _k: usize,
        _s: usize,
        _p: usize,
        _c: bool,
    ) -> Tensor<F> {
        panic!()
    }
    fn max_pool1d_with_indices(
        _x: &Tensor<F>,
        _k: usize,
        _s: usize,
        _p: usize,
        _d: usize,
    ) -> (Tensor<F>, Tensor<i64>) {
        panic!()
    }
    fn max_pool1d(_x: &Tensor<F>, _k: usize, _s: usize, _p: usize, _d: usize) -> Tensor<F> {
        panic!()
    }
    fn max_pool1d_with_indices_backward(
        _x: &Tensor<F>,
        _k: usize,
        _s: usize,
        _p: usize,
        _d: usize,
        _g: &Tensor<F>,
        _i: &Tensor<i64>,
    ) -> Tensor<F> {
        panic!()
    }
    fn adaptive_avg_pool1d(_x: &Tensor<F>, _o: usize) -> Tensor<F> {
        panic!()
    }
    fn adaptive_avg_pool1d_backward(_x: &Tensor<F>, _g: &Tensor<F>) -> Tensor<F> {
        panic!()
    }

    fn embedding(weights: &Tensor<F>, indices: &Tensor<i64>) -> Tensor<F> {
        let wshape = weights.shape_of();
        let d = wshape[1];
        let ishape = indices.shape_of();
        let idx = indices.duplicate().into_data();
        let w = weights.duplicate().into_data();
        let mut out: Vec<F> = Vec::new();
        for i in &idx {
            let row = *i as usize;
            for j in 0..d {
                out.push(w[row * d + j]);
            }
        }
        Tensor::from_parts(vec![ishape[0], ishape[1], d], out).unwrap()
    }

    fn embedding_backward(weights: &Tensor<F>, grad: &Tensor<F>, indices: &Tensor<i64>) -> Tensor<F> {
        let wshape = weights.shape_of();
        let d = wshape[1];
        let idx = indices.duplicate().into_data();
        let g = grad.duplicate().into_data();
        let mut out = vec![F(0.0); wshape[0] * d];
        for (k, i) in idx.iter().enumerate() {
            let row = *i as usize;
            for j in 0..d {
                out[row * d + j] = F(out[row * d + j].0 + g[k * d + j].0);
            }
        }
        Tensor::from_parts(vec![wshape[0], d], out).unwrap()
    }

    fn conv2d(
        _x: &Tensor<F>,
        _w: &Tensor<F>,
        _b: Option<&Tensor<F>>,
        _o: ConvOptions<2>,
    ) -> Tensor<F> {
        panic!()
    }
    fn conv2d_backward(
        _x: &Tensor<F>,
        _w: &Tensor<F>,
        _b: Option<&Tensor<F>>,
        _g: &Tensor<F>,
        _o: ConvOptions<2>,
    ) -> Conv2dBackward<F> {
        panic!()
    }
    fn conv_transpose2d(
        _x: &Tensor<F>,
        _w: &Tensor<F>,
        _b: Option<&Tensor<F>>,
        _o: ConvTransposeOptions<2>,
    ) -> Tensor<F> {
        panic!()
    }
    fn conv_transpose2d_backward(
        _x: &Tensor<F>,
        _w: &Tensor<F>,
        _b: Option<&Tensor<F>>,
        _g: &Tensor<F>,
        _o: ConvTransposeOptions<2>,
    ) -> Conv2dBackward<F> {
        panic!()
    }
    fn avg_pool2d(
        _x: &Tensor<F>,
        _k: [usize; 2],
        _s: [usize; 2],
        _p: [usize; 2],
        _c: bool,
    ) -> Tensor<F> {
        panic!()
    }
    fn avg_pool2d_backward(
        _x: &Tensor<F>,
        _g: &Tensor<F>,
        _k: [usize; 2],
        _s: [usize; 2],
        _p: [usize; 2],
        _c: bool,
    ) -> Tensor<F> {
        panic!()
    }
    fn max_pool2d_with_indices(
        _x: &Tensor<F>,
        _k: [usize; 2],
        _s: [usize; 2],
        _p: [usize; 2],
        _d: [usize; 2],
    ) -> (Tensor<F>, Tensor<i64>) {
        panic!()
    }
    fn max_pool2d(
        _x: &Tensor<F>,
        _k: [usize; 2],
        _s: [usize; 2],
        _p: [usize; 2],
        _d: [usize; 2],
    ) -> Tensor<F> {
        panic!()
    }
    fn max_pool2d_with_indices_backward(
        _x: &Tensor<F>,
        _k: [usize; 2],
        _s: [usize; 2],
        _p: [usize; 2],
        _d: [usize; 2],
        _g: &Tensor<F>,
        _i: &Tensor<i64>,
    ) -> Tensor<F> {
        panic!()
    }
    fn adaptive_avg_pool2d(_x: &Tensor<F>, _o: [usize; 2]) -> Tensor<F> {
        panic!()
    }
    fn adaptive_avg_pool2d_backward(_x: &Tensor<F>, _g: &Tensor<F>) -> Tensor<F> {
        panic!()
    }
    fn interpolate(_x: &Tensor<F>, _o: [usize; 2], _op: InterpolateOptions) -> Tensor<F> {
        panic!()
    }
    fn interpolate_backward(
        _x: &Tensor<F>,
        _g: &Tensor<F>,
        _o: [usize; 2],
        _op: InterpolateOptions,
    ) -> Tensor<F> {
        panic!()
    }
}

#[test]
fn test_embedding_backward() {
    // Three vocabulary rows of two features; two lookups of rows 0 and 2.
    let mut g: Graph<F, RowBackend> = Graph::new();
    let weights = AutodiffTensor::require_grad(
        tf(&[3, 2], &[1.0, 2.0, 3.0, 4.0, 5.0, 6.0]),
        &mut g,
    );
    let indices = ti(&[1, 2], &[0, 2]);

    let out = diff::embedding(&weights, &indices, &mut g, MB);
    assert_eq!(values(out.inner()), vec![1.0, 2.0, 5.0, 6.0]);

    let y = diff::mul(&out, &out, &mut g, MB);
    let grads = backward(&y, &g);

    // d(e*e)/dw routes 2*e back to the looked-up rows only.
    assert_eq!(
        grad_values(&weights, &grads),
        vec![2.0, 4.0, 0.0, 0.0, 10.0, 12.0]
    );
}
