use burn::element::{Element, FloatElement};
use burn::tensor::Tensor;

#[derive(Clone, Copy, Debug)]
struct F(f32);

impl Element for F {
    fn zero_v() -> F {
        F(0.0)
    }
    fn one_v() -> F {
        F(1.0)
    }
    fn lowest_v() -> F {
        F(f32::MIN)
    }
    fn of_usize_v(n: usize) -> F {
        F(n as f32)
    }
    fn add_v(self, o: F) -> F {
        F(self.0 + o.0)
    }
    fn sub_v(self, o: F) -> F {
        F(self.0 - o.0)
    }
    fn mul_v(self, o: F) -> F {
        F(self.0 * o.0)
    }
    fn div_v(self, o: F) -> F {
        F(self.0 / o.0)
    }
    fn neg_v(self) -> F {
        F(-self.0)
    }
    fn lt_v(self, o: F) -> bool {
        self.0 < o.0
    }
    fn is_zero_v(self) -> bool {
        self.0 == 0.0
    }
    fn zero() -> F {
        F(0.0)
    }
    fn one() -> F {
        F(1.0)
    }
    fn lowest() -> F {
        F(f32::MIN)
    }
    fn of_usize(n: usize) -> F {
        F(n as f32)
    }
    fn add(self, o: F) -> F {
        F(self.0 + o.0)
    }
    fn sub(self, o: F) -> F {
        F(self.0 - o.0)
    }
    fn mul(self, o: F) -> F {
        F(self.0 * o.0)
    }
    fn div(self, o: F) -> F {
        F(self.0 / o.0)
    }
    fn neg(self) -> F {
        F(-self.0)
    }
    fn lt(self, o: F) -> bool {
        self.0 < o.0
    }
    fn is_zero(self) -> bool {
        self.0 == 0.0
    }
}

impl FloatElement for F {
    fn exp_v(self) -> F {
        F(self.0.exp())
    }
    fn log_v(self) -> F {
        F(self.0.ln())
    }
    fn powf_v(self, e: F) -> F {
        F(self.0.powf(e.0))
    }
    fn sin_v(self) -> F {
        F(self.0.sin())
    }
    fn cos_v(self) -> F {
        F(self.0.cos())
    }
    fn exp(self) -> F {
        F(self.0.exp())
    }
    fn log(self) -> F {
        F(self.0.ln())
    }
    fn powf(self, e: F) -> F {
        F(self.0.powf(e.0))
    }
    fn sin(self) -> F {
        F(self.0.sin())
    }
    fn cos(self) -> F {
        F(self.0.cos())
    }
}

fn tf(shape: &[usize], data: &[f32]) -> Tensor<F> {
    let d: Vec<F> = data.iter().map(|v| F(*v)).collect();
    Tensor::from_parts(shape.to_vec(), d).unwrap()
}

#[allow(dead_code)]
fn ti(shape: &[usize], data: &[i64]) -> Tensor<i64> {
    Tensor::from_parts(shape.to_vec(), data.to_vec()).unwrap()
}

fn values(t: Tensor<F>) -> Vec<f32> {
    t.into_data().into_iter().map(|v| v.0).collect()
}

#[allow(dead_code)]
fn assert_close(actual: &[f32], expected: &[f32], digits: i32) {
    assert_eq!(actual.len(), expected.len());
    let tol = 0.1f64.powi(digits);
    for i in 0..actual.len() {
        let err = ((actual[i] - expected[i]) as f64).powi(2);
        assert!(err <= tol, "at {}: {} vs {}", i, actual[i], expected[i]);
    }
}

#[test]
fn test_add_d2() {
    let tensor_1 = tf(&[2, 3], &[0.0, 1.0, 2.0, 3.0, 4.0, 5.0]);
    let tensor_2 = tf(&[2, 3], &[6.0, 7.0, 8.0, 9.0, 10.0, 11.0]);

    let data_actual = values(tensor_1.add(&tensor_2));

    let data_expected = vec![6.0, 8.0, 10.0, 12.0, 14.0, 16.0];
    assert_eq!(data_expected, data_actual);
}

#[test]
fn test_add_broadcast() {
    let tensor_1 = tf(&[1, 3], &[0.0, 1.0, 2.0]);
    let tensor_2 = tf(&[2, 3], &[3.0, 4.0, 5.0, 6.0, 7.0, 8.0]);

    let data_actual = values(tensor_1.add(&tensor_2));

    let data_expected = vec![3.0, 5.0, 7.0, 6.0, 8.0, 10.0];
    assert_eq!(data_expected, data_actual);
}

#[test]
fn test_add_different_strides_rhs() {
    // The transposed operand reads its elements through swapped dimensions.
    let tensor_1 = tf(&[2, 2], &[0.0, 1.0, 2.0, 3.0]).mul_scalar(F(1.0));
    let tensor_2 = tf(&[2, 2], &[4.0, 5.0, 6.0, 7.0]).mul_scalar(F(1.0));

    let data_actual = values(tensor_1.add(&tensor_2.transpose()));

    let data_expected = vec![4.0, 7.0, 7.0, 10.0];
    assert_eq!(data_expected, data_actual);
}

#[test]
fn test_add_different_strides_lhs() {
    // The transposed operand reads its elements through swapped dimensions.
    let tensor_1 = tf(&[2, 2], &[0.0, 1.0, 2.0, 3.0]).mul_scalar(F(1.0));
    let tensor_2 = tf(&[2, 2], &[4.0, 5.0, 6.0, 7.0]).mul_scalar(F(1.0));

    let data_actual = values(tensor_1.transpose().add(&tensor_2));

    let data_expected = vec![4.0, 7.0, 7.0, 10.0];
    assert_eq!(data_expected, data_actual);
}

#[test]
fn test_add_different_strides_broadcast() {
    // The transposed operand reads its elements through swapped dimensions.
    let tensor_1 = tf(&[2, 2], &[0.0, 1.0, 2.0, 3.0]).mul_scalar(F(1.0));
    let tensor_2 = tf(&[1, 2], &[4.0, 5.0]).mul_scalar(F(1.0));

    let data_actual = values(tensor_1.transpose().add(&tensor_2));

    let data_expected = vec![4.0, 7.0, 5.0, 8.0];
    assert_eq!(data_expected, data_actual);
}

#[test]
fn should_support_add_scalar_ops() {
    let scalar = 2.0;
    let tensor = tf(&[2, 3], &[0.0, 1.0, 2.0, 3.0, 4.0, 5.0]);

    let output = tensor.add_scalar(F(scalar));

    let data_actual = values(output);
    let data_expected = vec![2.0, 3.0, 4.0, 5.0, 6.0, 7.0];
    assert_eq!(data_expected, data_actual);
}

#[test]
fn test_add_d2_int() {
    let tensor_1 = ti(&[2, 3], &[0, 1, 2, 3, 4, 5]);
    let tensor_2 = ti(&[2, 3], &[6, 7, 8, 9, 10, 11]);

    let data_actual = tensor_1.add(&tensor_2).into_data();

    let data_expected = vec![6, 8, 10, 12, 14, 16];
    assert_eq!(data_expected, data_actual);
}

#[test]
fn test_add_broadcast_int() {
    let tensor_1 = ti(&[1, 3], &[0, 1, 2]);
    let tensor_2 = ti(&[2, 3], &[3, 4, 5, 6, 7, 8]);

    let data_actual = tensor_1.add(&tensor_2).into_data();

    let data_expected = vec![3, 5, 7, 6, 8, 10];
    assert_eq!(data_expected, data_actual);
}

#[test]
fn should_support_add_scalar_ops_int() {
    let scalar = 2;
    let tensor = ti(&[2, 3], &[0, 1, 2, 3, 4, 5]);

    let output = tensor.add_scalar(scalar);

    let data_actual = output.into_data();
    let data_expected = vec![2, 3, 4, 5, 6, 7];
    assert_eq!(data_expected, data_actual);
}
