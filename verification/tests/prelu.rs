use burn::element::{Element, FloatElement};
use burn::tensor::Tensor;

#[derive(Clone, Copy, Debug)]
struct F(f32);

impl Element for F {
    fn zero_v() -> F {
        F(0.0)
    }
    fn one_v() -> F {
        F(1.0)
    }
    fn lowest_v() -> F {
        F(f32::MIN)
    }
    fn of_usize_v(n: usize) -> F {
        F(n as f32)
    }
    fn add_v(self, o: F) -> F {
        F(self.0 + o.0)
    }
    fn sub_v(self, o: F) -> F {
        F(self.0 - o.0)
    }
    fn mul_v(self, o: F) -> F {
        F(self.0 * o.0)
    }
    fn div_v(self, o: F) -> F {
        F(self.0 / o.0)
    }
    fn neg_v(self) -> F {
        F(-self.0)
    }
    fn lt_v(self, o: F) -> bool {
        self.0 < o.0
    }
    fn is_zero_v(self) -> bool {
        self.0 == 0.0
    }
    fn zero() -> F {
        F(0.0)
    }
    fn one() -> F {
        F(1.0)
    }
    fn lowest() -> F {
        F(f32::MIN)
    }
    fn of_usize(n: usize) -> F {
        F(n as f32)
    }
    fn add(self, o: F) -> F {
        F(self.0 + o.0)
    }
    fn sub(self, o: F) -> F {
        F(self.0 - o.0)
    }
    fn mul(self, o: F) -> F {
        F(self.0 * o.0)
    }
    fn div(self, o: F) -> F {
        F(self.0 / o.0)
    }
    fn neg(self) -> F {
        F(-self.0)
    }
    fn lt(self, o: F) -> bool {
        self.0 < o.0
    }
    fn is_zero(self) -> bool {
        self.0 == 0.0
    }
}

impl FloatElement for F {
    fn exp_v(self) -> F {
        F(self.0.exp())
    }
    fn log_v(self) -> F {
        F(self.0.ln())
    }
    fn powf_v(self, e: F) -> F {
        F(self.0.powf(e.0))
    }
    fn sin_v(self) -> F {
        F(self.0.sin())
    }
    fn cos_v(self) -> F {
        F(self.0.cos())
    }
    fn exp(self) -> F {
        F(self.0.exp())
    }
    fn log(self) -> F {
        F(self.0.ln())
    }
    fn powf(self, e: F) -> F {
        F(self.0.powf(e.0))
    }
    fn sin(self) -> F {
        F(self.0.sin())
    }
    fn cos(self) -> F {
        F(self.0.cos())
    }
}

fn tf(shape: &[usize], data: &[f32]) -> Tensor<F> {
    let d: Vec<F> = data.iter().map(|v| F(*v)).collect();
    Tensor::from_parts(shape.to_vec(), d).unwrap()
}

#[allow(dead_code)]
fn ti(shape: &[usize], data: &[i64]) -> Tensor<i64> {
    Tensor::from_parts(shape.to_vec(), data.to_vec()).unwrap()
}

fn values(t: Tensor<F>) -> Vec<f32> {
    t.into_data().into_iter().map(|v| v.0).collect()
}

#[allow(dead_code)]
fn assert_close(actual: &[f32], expected: &[f32], digits: i32) {
    assert_eq!(actual.len(), expected.len());
    let tol = 0.1f64.powi(digits);
    for i in 0..actual.len() {
        let err = ((actual[i] - expected[i]) as f64).powi(2);
        assert!(err <= tol, "at {}: {} vs {}", i, actual[i], expected[i]);
    }
}

use burn::activation::prelu;

#[test]
fn test_prelu_2_dimension() {
    let tensor = tf(
        &[2, 5],
        &[-1.1, 0.0, 1.2, 0.25, -5.4, -4.567, 0.56, -1.55, 99.9, 0.0],
    );
    let weights = tf(&[5], &[0.5, 0.25, 0.0, -0.8, -0.4]);
    let data_actual = values(prelu(&tensor, &weights));
    let data_expected = [
        -0.5500, 0.0000, 1.2000, 0.2500, 2.1600, -2.2835, 0.5600, -0.0000, 99.9000, -0.0000,
    ];
    assert_close(&data_actual, &data_expected, 9);
}

#[test]
fn test_prelu_2_dimension_scalar_weight() {
    let tensor = tf(
        &[2, 5],
        &[-1.1, 0.0, 1.2, 0.25, -5.4, -4.567, 0.56, -1.55, 99.9, 0.0],
    );
    let data_actual = values(prelu(&tensor, &tf(&[1], &[-0.8])));
    let data_expected = [
        0.8800, -0.0000, 1.2000, 0.2500, 4.3200, 3.6536, 0.5600, 1.2400, 99.9000, -0.0000,
    ];
    assert_close(&data_actual, &data_expected, 7);
}

#[test]
fn test_prelu_positives() {
    // Positives are untouched.
    let data = [
        0.5447, 0.9809, 0.4114, 0.1398, 0.8045, 0.4103, 0.2388, 0.5262, 0.6677, 0.6737,
    ];
    let tensor = tf(&[1, 10], &data);
    let data_actual = values(prelu(&tensor, &tf(&[1], &[0.25])));
    assert_close(&data_actual, &data, 9);
}

#[test]
fn test_prelu_zero_weight() {
    // With weight zero it behaves as relu.
    let data = [-1.1, 0.0, 1.2, 0.25, -5.4];
    let tensor = tf(&[5], &data);
    let data_actual = values(prelu(&tensor, &tf(&[1], &[0.0])));
    let data_expected = [0.0, 0.0, 1.2, 0.25, 0.0];
    assert_close(&data_actual, &data_expected, 9);
}

#[test]
fn test_prelu_some_weight() {
    // With a non-zero weight it works like a leaky relu.
    let data = [-1.1, 0.0, 1.2, 0.25, -5.4];
    let tensor = tf(&[5], &data);
    let data_actual = values(prelu(&tensor, &tf(&[1], &[0.5])));
    let data_expected = [-0.550, 0.0, 1.20, 0.250, -2.70];
    assert_close(&data_actual, &data_expected, 9);
}
