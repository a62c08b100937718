use burn::element::{Element, FloatElement};
use burn::tensor::Tensor;

#[derive(Clone, Copy, Debug)]
struct F(f32);

impl Element for F {
    fn zero_v() -> F {
        F(0.0)
    }
    fn one_v() -> F {
        F(1.0)
    }
    fn lowest_v() -> F {
        F(f32::MIN)
    }
    fn of_usize_v(n: usize) -> F {
        F(n as f32)
    }
    fn add_v(self, o: F) -> F {
        F(self.0 + o.0)
    }
    fn sub_v(self, o: F) -> F {
        F(self.0 - o.0)
    }
    fn mul_v(self, o: F) -> F {
        F(self.0 * o.0)
    }
    fn div_v(self, o: F) -> F {
        F(self.0 / o.0)
    }
    fn neg_v(self) -> F {
        F(-self.0)
    }
    fn lt_v(self, o: F) -> bool {
        self.0 < o.0
    }
    fn is_zero_v(self) -> bool {
        self.0 == 0.0
    }
    fn zero() -> F {
        F(0.0)
    }
    fn one() -> F {
        F(1.0)
    }
    fn lowest() -> F {
        F(f32::MIN)
    }
    fn of_usize(n: usize) -> F {
        F(n as f32)
    }
    fn add(self, o: F) -> F {
        F(self.0 + o.0)
    }
    fn sub(self, o: F) -> F {
        F(self.0 - o.0)
    }
    fn mul(self, o: F) -> F {
        F(self.0 * o.0)
    }
    fn div(self, o: F) -> F {
        F(self.0 / o.0)
    }
    fn neg(self) -> F {
        F(-self.0)
    }
    fn lt(self, o: F) -> bool {
        self.0 < o.0
    }
    fn is_zero(self) -> bool {
        self.0 == 0.0
    }
}

impl FloatElement for F {
    fn exp_v(self) -> F {
        F(self.0.exp())
    }
    fn log_v(self) -> F {
        F(self.0.ln())
    }
    fn powf_v(self, e: F) -> F {
        F(self.0.powf(e.0))
    }
    fn sin_v(self) -> F {
        F(self.0.sin())
    }
    fn cos_v(self) -> F {
        F(self.0.cos())
    }
    fn exp(self) -> F {
        F(self.0.exp())
    }
    fn log(self) -> F {
        F(self.0.ln())
    }
    fn powf(self, e: F) -> F {
        F(self.0.powf(e.0))
    }
    fn sin(self) -> F {
        F(self.0.sin())
    }
    fn cos(self) -> F {
        F(self.0.cos())
    }
}

fn tf(shape: &[usize], data: &[f32]) -> Tensor<F> {
    let d: Vec<F> = data.iter().map(|v| F(*v)).collect();
    Tensor::from_parts(shape.to_vec(), d).unwrap()
}

#[allow(dead_code)]
fn ti(shape: &[usize], data: &[i64]) -> Tensor<i64> {
    Tensor::from_parts(shape.to_vec(), data.to_vec()).unwrap()
}

fn values(t: Tensor<F>) -> Vec<f32> {
    t.into_data().into_iter().map(|v| v.0).collect()
}

#[allow(dead_code)]
fn assert_close(actual: &[f32], expected: &[f32], digits: i32) {
    assert_eq!(actual.len(), expected.len());
    let tol = 0.1f64.powi(digits);
    for i in 0..actual.len() {
        let err = ((actual[i] - expected[i]) as f64).powi(2);
        assert!(err <= tol, "at {}: {} vs {}", i, actual[i], expected[i]);
    }
}

use burn::bool_tensor::BoolTensor;

fn tb(shape: &[usize], data: &[bool]) -> BoolTensor {
    BoolTensor::from_parts(shape.to_vec(), data.to_vec()).unwrap()
}

#[test]
fn test_any() {
    // float tensor
    let tensor = tf(&[2, 3], &[0.0, 0.0, 0.0, 1.0, -1.0, 0.0]);
    assert_eq!(tensor.any(), true);

    let tensor = tf(&[2, 3], &[0.0, 0.0, 0.0, 0.0, 0.0, 0.0]);
    assert_eq!(tensor.any(), false);

    // int tensor
    let tensor = ti(&[2, 3], &[0, 0, 0, 1, -1, 0]);
    assert_eq!(tensor.any(), true);

    let tensor = ti(&[2, 3], &[0, 0, 0, 0, 0, 0]);
    assert_eq!(tensor.any(), false);

    // bool tensor
    let tensor = tb(&[2, 3], &[false, false, false, true, true, false]);
    assert_eq!(tensor.any(), true);

    let tensor = tb(&[2, 3], &[false, false, false, false, false, false]);
    assert_eq!(tensor.any(), false);
}

#[test]
fn test_any_dim() {
    let tensor = tf(&[2, 3], &[0.0, 0.0, 0.0, 1.0, -1.0, 0.0]);
    let data_actual = tensor.any_dim(1).into_data();
    assert_eq!(data_actual, vec![false, true]);

    // int tensor
    let tensor = ti(&[2, 3], &[0, 0, 0, 1, -1, 0]);
    let data_actual = tensor.any_dim(1).into_data();
    assert_eq!(data_actual, vec![false, true]);

    // bool tensor
    let tensor = tb(&[2, 3], &[false, false, false, true, true, false]);
    let data_actual = tensor.any_dim(1).into_data();
    assert_eq!(data_actual, vec![false, true]);
}
