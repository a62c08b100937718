use burn::element::{Element, FloatElement};
use burn::tensor::Tensor;

#[derive(Clone, Copy, Debug)]
struct F(f32);

impl Element for F {
    fn zero_v() -> F {
        F(0.0)
    }
    fn one_v() -> F {
        F(1.0)
    }
    fn lowest_v() -> F {
        F(f32::MIN)
    }
    fn of_usize_v(n: usize) -> F {
        F(n as f32)
    }
    fn add_v(self, o: F) -> F {
        F(self.0 + o.0)
    }
    fn sub_v(self, o: F) -> F {
        F(self.0 - o.0)
    }
    fn mul_v(self, o: F) -> F {
        F(self.0 * o.0)
    }
    fn div_v(self, o: F) -> F {
        F(self.0 / o.0)
    }
    fn neg_v(self) -> F {
        F(-self.0)
    }
    fn lt_v(self, o: F) -> bool {
        self.0 < o.0
    }
    fn is_zero_v(self) -> bool {
        self.0 == 0.0
    }
    fn zero() -> F {
        F(0.0)
    }
    fn one() -> F {
        F(1.0)
    }
    fn lowest() -> F {
        F(f32::MIN)
    }
    fn of_usize(n: usize) -> F {
        F(n as f32)
    }
    fn add(self, o: F) -> F {
        F(self.0 + o.0)
    }
    fn sub(self, o: F) -> F {
        F(self.0 - o.0)
    }
    fn mul(self, o: F) -> F {
        F(self.0 * o.0)
    }
    fn div(self, o: F) -> F {
        F(self.0 / o.0)
    }
    fn neg(self) -> F {
        F(-self.0)
    }
    fn lt(self, o: F) -> bool {
        self.0 < o.0
    }
    fn is_zero(self) -> bool {
        self.0 == 0.0
    }
}

impl FloatElement for F {
    fn exp_v(self) -> F {
        F(self.0.exp())
    }
    fn log_v(self) -> F {
        F(self.0.ln())
    }
    fn powf_v(self, e: F) -> F {
        F(self.0.powf(e.0))
    }
    fn sin_v(self) -> F {
        F(self.0.sin())
    }
    fn cos_v(self) -> F {
        F(self.0.cos())
    }
    fn exp(self) -> F {
        F(self.0.exp())
    }
    fn log(self) -> F {
        F(self.0.ln())
    }
    fn powf(self, e: F) -> F {
        F(self.0.powf(e.0))
    }
    fn sin(self) -> F {
        F(self.0.sin())
    }
    fn cos(self) -> F {
        F(self.0.cos())
    }
}

fn tf(shape: &[usize], data: &[f32]) -> Tensor<F> {
    let d: Vec<F> = data.iter().map(|v| F(*v)).collect();
    Tensor::from_parts(shape.to_vec(), d).unwrap()
}

#[allow(dead_code)]
fn ti(shape: &[usize], data: &[i64]) -> Tensor<i64> {
    Tensor::from_parts(shape.to_vec(), data.to_vec()).unwrap()
}

fn values(t: Tensor<F>) -> Vec<f32> {
    t.into_data().into_iter().map(|v| v.0).collect()
}

#[allow(dead_code)]
fn assert_close(actual: &[f32], expected: &[f32], digits: i32) {
    assert_eq!(actual.len(), expected.len());
    let tol = 0.1f64.powi(digits);
    for i in 0..actual.len() {
        let err = ((actual[i] - expected[i]) as f64).powi(2);
        assert!(err <= tol, "at {}: {} vs {}", i, actual[i], expected[i]);
    }
}

#[test]
fn test_should_mean() {
    let tensor = tf(&[2, 3], &[0.0, 1.0, 2.0, 3.0, 4.0, 5.0]);

    let data_actual = values(tensor.mean());

    assert_close(&data_actual, &[15.0 / 6.0], 3);
}

#[test]
fn test_should_mean_int() {
    let tensor = ti(&[2, 3], &[2, 2, 2, 3, 4, 5]);

    let data_actual = tensor.mean().into_data();

    assert_eq!(data_actual, vec![3]);
}

#[test]
fn test_should_sum() {
    let tensor = tf(&[2, 3], &[0.0, 1.0, 2.0, 3.0, 4.0, 5.0]);

    let data_actual = values(tensor.sum());

    assert_eq!(data_actual, vec![15.0]);
}

#[test]
fn test_should_sum_int() {
    let tensor = ti(&[2, 3], &[0, 1, 2, 3, 4, 5]);

    let data_actual = tensor.sum().into_data();

    assert_eq!(data_actual, vec![15]);
}

#[test]
fn test_should_mean_last_dim() {
    let tensor = tf(&[2, 3], &[0.0, 1.0, 2.0, 3.0, 4.0, 5.0]);

    let data_actual = values(tensor.mean_dim(1));

    assert_close(&data_actual, &[3.0 / 3.0, 12.0 / 3.0], 3);
}

#[test]
fn test_should_sum_last_dim() {
    let tensor = tf(&[2, 3], &[0.0, 1.0, 2.0, 3.0, 4.0, 5.0]);

    let data_actual = values(tensor.sum_dim(1));

    assert_eq!(data_actual, vec![3.0, 12.0]);
}

#[test]
fn test_should_mean_last_dim_int() {
    let tensor = ti(&[2, 3], &[0, 1, 2, 3, 4, 5]);

    let data_actual = tensor.mean_dim(1).into_data();

    assert_eq!(data_actual, vec![1, 4]);
}

#[test]
fn test_should_sum_last_dim_int() {
    let tensor = ti(&[2, 3], &[0, 1, 2, 3, 4, 5]);

    let data_actual = tensor.sum_dim(1).into_data();

    assert_eq!(data_actual, vec![3, 12]);
}

#[test]
fn test_should_sum_first_dim() {
    let tensor = tf(&[2, 3], &[3.0, 1.0, 2.0, 4.0, 2.0, 3.0]);

    let data_actual = values(tensor.sum_dim(0));

    assert_eq!(data_actual, vec![7.0, 3.0, 5.0]);
}

#[test]
fn test_should_mean_first_dim() {
    let tensor = tf(&[2, 3], &[3.0, 1.0, 2.0, 4.0, 2.0, 3.0]);

    let data_actual = values(tensor.mean_dim(0));

    assert_eq!(data_actual, vec![7.0 / 2.0, 3.0 / 2.0, 5.0 / 2.0]);
}

#[test]
fn test_should_sum_mid_dim_3d_non_contiguous_1() {
    let tensor = tf(
        &[2, 2, 3],
        &[2.0, 4.0, 1.0, 7.0, -5.0, 3.0, 3.0, 1.0, 2.0, 4.0, 2.0, 3.0],
    );

    let swapped = tensor.swap_dims(0, 2);
    let summed = swapped.sum_dim(1);

    assert_eq!(summed.shape_of(), vec![3, 1, 2]);
    assert_eq!(values(summed), vec![9.0, 7.0, -1.0, 3.0, 4.0, 5.0]);
}

#[test]
fn test_should_sum_mid_dim_3d_non_contiguous_2() {
    let tensor = tf(
        &[2, 2, 3],
        &[2.0, 4.0, 1.0, 7.0, -5.0, 3.0, 3.0, 1.0, 2.0, 4.0, 2.0, 3.0],
    );

    let swapped = tensor.swap_dims(0, 1);
    let summed = swapped.sum_dim(1);

    assert_eq!(summed.shape_of(), vec![2, 1, 3]);
    assert_eq!(values(summed), vec![5.0, 5.0, 3.0, 11.0, -3.0, 6.0]);
}

#[test]
fn test_prod_float() {
    let tensor = tf(&[2, 3], &[2.0, 1.0, 2.0, 3.0, 4.0, 5.0]);
    let data_actual = values(tensor.prod());

    // 2 * 1 * 2 * 3 * 4 * 5 = 240, checked to float precision.
    assert_close(&data_actual, &[240.0], 3);

    let tensor_with_zero = tf(&[2, 3], &[2.0, 0.0, 2.0, 3.0, 4.0, 5.0]);
    let data_actual = values(tensor_with_zero.prod());

    assert_eq!(data_actual, vec![0.0]);
}

#[test]
fn test_prod_dim_float() {
    let tensor = tf(&[2, 3], &[2.0, 1.0, 2.0, 3.0, 4.0, 5.0]);
    let data_actual = values(tensor.prod_dim(1));

    assert_close(&data_actual, &[4.0, 60.0], 4);

    let tensor_with_zero = tf(&[2, 3], &[2.0, 0.0, 2.0, 3.0, 4.0, 5.0]);
    let data_actual = values(tensor_with_zero.prod_dim(1));

    assert_close(&data_actual, &[0.0, 60.0], 4);
}
