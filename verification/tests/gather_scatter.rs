use burn::element::{Element, FloatElement};
use burn::tensor::Tensor;

#[derive(Clone, Copy, Debug)]
struct F(f32);

impl Element for F {
    fn zero_v() -> F {
        F(0.0)
    }
    fn one_v() -> F {
        F(1.0)
    }
    fn lowest_v() -> F {
        F(f32::MIN)
    }
    fn of_usize_v(n: usize) -> F {
        F(n as f32)
    }
    fn add_v(self, o: F) -> F {
        F(self.0 + o.0)
    }
    fn sub_v(self, o: F) -> F {
        F(self.0 - o.0)
    }
    fn mul_v(self, o: F) -> F {
        F(self.0 * o.0)
    }
    fn div_v(self, o: F) -> F {
        F(self.0 / o.0)
    }
    fn neg_v(self) -> F {
        F(-self.0)
    }
    fn lt_v(self, o: F) -> bool {
        self.0 < o.0
    }
    fn is_zero_v(self) -> bool {
        self.0 == 0.0
    }
    fn zero() -> F {
        F(0.0)
    }
    fn one() -> F {
        F(1.0)
    }
    fn lowest() -> F {
        F(f32::MIN)
    }
    fn of_usize(n: usize) -> F {
        F(n as f32)
    }
    fn add(self, o: F) -> F {
        F(self.0 + o.0)
    }
    fn sub(self, o: F) -> F {
        F(self.0 - o.0)
    }
    fn mul(self, o: F) -> F {
        F(self.0 * o.0)
    }
    fn div(self, o: F) -> F {
        F(self.0 / o.0)
    }
    fn neg(self) -> F {
        F(-self.0)
    }
    fn lt(self, o: F) -> bool {
        self.0 < o.0
    }
    fn is_zero(self) -> bool {
        self.0 == 0.0
    }
}

impl FloatElement for F {
    fn exp_v(self) -> F {
        F(self.0.exp())
    }
    fn log_v(self) -> F {
        F(self.0.ln())
    }
    fn powf_v(self, e: F) -> F {
        F(self.0.powf(e.0))
    }
    fn sin_v(self) -> F {
        F(self.0.sin())
    }
    fn cos_v(self) -> F {
        F(self.0.cos())
    }
    fn exp(self) -> F {
        F(self.0.exp())
    }
    fn log(self) -> F {
        F(self.0.ln())
    }
    fn powf(self, e: F) -> F {
        F(self.0.powf(e.0))
    }
    fn sin(self) -> F {
        F(self.0.sin())
    }
    fn cos(self) -> F {
        F(self.0.cos())
    }
}

fn tf(shape: &[usize], data: &[f32]) -> Tensor<F> {
    let d: Vec<F> = data.iter().map(|v| F(*v)).collect();
    Tensor::from_parts(shape.to_vec(), d).unwrap()
}

#[allow(dead_code)]
fn ti(shape: &[usize], data: &[i64]) -> Tensor<i64> {
    Tensor::from_parts(shape.to_vec(), data.to_vec()).unwrap()
}

fn values(t: Tensor<F>) -> Vec<f32> {
    t.into_data().into_iter().map(|v| v.0).collect()
}

#[allow(dead_code)]
fn assert_close(actual: &[f32], expected: &[f32], digits: i32) {
    assert_eq!(actual.len(), expected.len());
    let tol = 0.1f64.powi(digits);
    for i in 0..actual.len() {
        let err = ((actual[i] - expected[i]) as f64).powi(2);
        assert!(err <= tol, "at {}: {} vs {}", i, actual[i], expected[i]);
    }
}

#[test]
fn should_gather_1d_dim0() {
    let tensor = tf(&[3], &[0.0, 1.0, 2.0]);
    let indices = ti(&[5], &[1, 1, 0, 1, 2]);

    let output = tensor.gather(0, &indices);

    assert_eq!(values(output), vec![1.0, 1.0, 0.0, 1.0, 2.0]);
}

#[test]
fn should_gather_1d_dim0_int() {
    let tensor = ti(&[3], &[5, 6, 7]);
    let indices = ti(&[5], &[1, 1, 0, 1, 2]);

    let output = tensor.gather(0, &indices);

    assert_eq!(output.into_data(), vec![6, 6, 5, 6, 7]);
}

#[test]
fn should_gather_2d_dim0() {
    let tensor = tf(&[2, 3], &[0.0, 1.0, 2.0, 3.0, 4.0, 5.0]);
    let indices = ti(&[2, 3], &[0, 1, 0, 1, 0, 1]);

    let output = tensor.gather(0, &indices);

    assert_eq!(values(output), vec![0.0, 4.0, 2.0, 3.0, 1.0, 5.0]);
}

#[test]
fn should_gather_2d_dim1() {
    let tensor = tf(&[2, 3], &[0.0, 1.0, 2.0, 3.0, 4.0, 5.0]);
    let indices = ti(&[2, 4], &[2, 1, 0, 0, 2, 0, 1, 2]);

    let output = tensor.gather(1, &indices);

    assert_eq!(values(output), vec![2.0, 1.0, 0.0, 0.0, 5.0, 3.0, 4.0, 5.0]);
}

#[test]
fn should_gather_3d_dim1() {
    let tensor = tf(
        &[2, 2, 3],
        &[0.0, 1.0, 2.0, 3.0, 4.0, 5.0, 6.0, 7.0, 8.0, 9.0, 10.0, 11.0],
    );
    let indices = ti(&[2, 2, 3], &[1, 0, 0, 0, 1, 0, 0, 0, 1, 0, 1, 1]);

    let output = tensor.gather(1, &indices);

    assert_eq!(
        values(output),
        vec![3.0, 1.0, 2.0, 0.0, 4.0, 2.0, 6.0, 7.0, 11.0, 6.0, 10.0, 11.0]
    );
}

#[test]
fn should_gather_2d_only_1dim() {
    let tensor = tf(&[2, 3], &[0.0, 1.0, 2.0, 3.0, 4.0, 5.0]);
    let indices = ti(&[1, 2], &[1, 2]).reshape(vec![2, 1]);

    let output = tensor.gather(1, &indices);

    assert_eq!(values(output), vec![1.0, 5.0]);
}

#[test]
fn should_scatter_1d() {
    let tensor = tf(&[3], &[0.0, 0.0, 0.0]);
    let values_t = tf(&[3], &[5.0, 4.0, 3.0]);
    let indices = ti(&[3], &[1, 0, 2]);

    let output = tensor.scatter(0, &indices, &values_t);

    assert_eq!(values(output), vec![4.0, 5.0, 3.0]);
}

#[test]
fn should_scatter_1d_int() {
    let tensor = ti(&[3], &[0, 0, 0]);
    let values_t = ti(&[3], &[5, 4, 3]);
    let indices = ti(&[3], &[1, 0, 2]);

    let output = tensor.scatter(0, &indices, &values_t);

    assert_eq!(output.into_data(), vec![4, 5, 3]);
}

#[test]
fn should_scatter_2d_dim0() {
    let tensor = tf(&[2, 3], &[0.0, 0.0, 0.0, 0.0, 0.0, 0.0]);
    let values_t = tf(&[2, 3], &[1.0, 2.0, 3.0, 4.0, 5.0, 6.0]);
    let indices = ti(&[2, 3], &[1, 0, 1, 1, 1, 0]);

    let output = tensor.scatter(0, &indices, &values_t);

    assert_eq!(values(output), vec![0.0, 2.0, 6.0, 5.0, 5.0, 3.0]);
}

#[test]
fn should_scatter_2d_dim1() {
    let tensor = tf(&[2, 3], &[0.0, 0.0, 0.0, 0.0, 0.0, 0.0]);
    let values_t = tf(&[2, 3], &[1.0, 2.0, 3.0, 4.0, 5.0, 6.0]);
    let indices = ti(&[2, 3], &[1, 0, 2, 1, 2, 0]);

    let output = tensor.scatter(1, &indices, &values_t);

    assert_eq!(values(output), vec![2.0, 1.0, 3.0, 6.0, 4.0, 5.0]);
}

#[test]
fn should_scatter_3d_dim1() {
    let tensor = tf(
        &[2, 2, 3],
        &[0.0, 1.0, 2.0, 3.0, 4.0, 5.0, 6.0, 7.0, 8.0, 9.0, 10.0, 11.0],
    );
    let values_t = tf(
        &[2, 2, 3],
        &[12.0, 13.0, 14.0, 15.0, 16.0, 17.0, 18.0, 19.0, 20.0, 21.0, 22.0, 23.0],
    );
    let indices = ti(&[2, 2, 3], &[1, 0, 0, 0, 1, 0, 0, 0, 1, 0, 1, 1]);

    let output = tensor.scatter(1, &indices, &values_t);

    assert_eq!(
        values(output),
        vec![15.0, 14.0, 33.0, 15.0, 20.0, 5.0, 45.0, 26.0, 8.0, 9.0, 32.0, 54.0]
    );
}

#[test]
fn should_scatter_2d_dim1_diff_shape() {
    let tensor = tf(&[2, 3], &[0.0, 0.0, 0.0, 0.0, 0.0, 0.0]);
    let values_t = tf(&[2, 1], &[1.0, 4.0]);
    let indices = ti(&[2, 1], &[1, 2]);

    let output = tensor.scatter(1, &indices, &values_t);

    assert_eq!(values(output), vec![0.0, 1.0, 0.0, 0.0, 0.0, 4.0]);
}

#[test]
#[should_panic]
fn scatter_should_panic_on_mismatch_of_shapes() {
    let tensor = tf(&[3], &[0.0, 0.0, 0.0]);
    let values_t = tf(&[2], &[5.0, 4.0]);
    let indices = ti(&[3], &[1, 0, 2]);

    tensor.scatter(0, &indices, &values_t);
}
