use vstd::prelude::*;

verus! {

/// Scalar capability set that a tensor element must provide.
///
/// The library never inspects how an element computes: every arithmetic
/// method is paired with an uninterpreted per-implementation spec function,
/// and the method promises only that it agrees with its spec twin. All
/// tensor-level contracts are then exact relative to these element
/// operations. Implementations must be total: no method may panic.
pub trait Element: Sized + Copy {
    /// The additive identity, as a mathematical value.
    spec fn zero_v() -> Self;

    /// The multiplicative identity, as a mathematical value.
    spec fn one_v() -> Self;

    /// The least element, used to seed running maximums.
    spec fn lowest_v() -> Self;

    /// The element standing for the count `n`.
    spec fn of_usize_v(n: usize) -> Self;

    /// Sum of two elements, as a mathematical value.
    spec fn add_v(self, o: Self) -> Self;

    /// Difference of two elements, as a mathematical value.
    spec fn sub_v(self, o: Self) -> Self;

    /// Product of two elements, as a mathematical value.
    spec fn mul_v(self, o: Self) -> Self;

    /// Quotient of two elements, as a mathematical value.
    spec fn div_v(self, o: Self) -> Self;

    /// Negation of an element, as a mathematical value.
    spec fn neg_v(self) -> Self;

    /// Strict order used by maximums and comparisons.
    spec fn lt_v(self, o: Self) -> bool;

    /// Whether the element counts as zero for boolean reductions.
    spec fn is_zero_v(self) -> bool;

    /// The additive identity.
    fn zero() -> (r: Self)
        ensures
            r == Self::zero_v(),
    ;

    /// The multiplicative identity.
    fn one() -> (r: Self)
        ensures
            r == Self::one_v(),
    ;

    /// The least element.
    fn lowest() -> (r: Self)
        ensures
            r == Self::lowest_v(),
    ;

    /// The element standing for the count `n`.
    fn of_usize(n: usize) -> (r: Self)
        ensures
            r == Self::of_usize_v(n),
    ;

    /// Adds two elements.
    fn add(self, o: Self) -> (r: Self)
        ensures
            r == self.add_v(o),
    ;

    /// Subtracts `o` from `self`.
    fn sub(self, o: Self) -> (r: Self)
        ensures
            r == self.sub_v(o),
    ;

    /// Multiplies two elements.
    fn mul(self, o: Self) -> (r: Self)
        ensures
            r == self.mul_v(o),
    ;

    /// Divides `self` by `o`.
    fn div(self, o: Self) -> (r: Self)
        ensures
            r == self.div_v(o),
    ;

    /// Negates an element.
    fn neg(self) -> (r: Self)
        ensures
            r == self.neg_v(),
    ;

    /// Strict comparison.
    fn lt(self, o: Self) -> (r: bool)
        ensures
            r == self.lt_v(o),
    ;

    /// Zero test.
    fn is_zero(self) -> (r: bool)
        ensures
            r == self.is_zero_v(),
    ;
}

/// Extra capabilities of floating-point-like elements, needed by activation
/// functions and by the differentiable operation catalog.
pub trait FloatElement: Element {
    /// Exponential, as a mathematical value.
    spec fn exp_v(self) -> Self;

    /// Natural logarithm, as a mathematical value.
    spec fn log_v(self) -> Self;

    /// Power with an arbitrary exponent, as a mathematical value.
    spec fn powf_v(self, e: Self) -> Self;

    /// Sine, as a mathematical value.
    spec fn sin_v(self) -> Self;

    /// Cosine, as a mathematical value.
    spec fn cos_v(self) -> Self;

    /// Exponential.
    fn exp(self) -> (r: Self)
        ensures
            r == self.exp_v(),
    ;

    /// Natural logarithm.
    fn log(self) -> (r: Self)
        ensures
            r == self.log_v(),
    ;

    /// Power with an arbitrary exponent.
    fn powf(self, e: Self) -> (r: Self)
        ensures
            r == self.powf_v(e),
    ;

    /// Sine.
    fn sin(self) -> (r: Self)
        ensures
            r == self.sin_v(),
    ;

    /// Cosine.
    fn cos(self) -> (r: Self)
        ensures
            r == self.cos_v(),
    ;
}

/// The magnitude of `v`.
pub open spec fn abs_int(v: int) -> int {
    if v < 0 {
        -v
    } else {
        v
    }
}

/// Quotient of `a` and `b` rounded toward zero, as machine division does:
/// the quotient of the magnitudes, carrying the sign of the exact quotient.
pub open spec fn trunc_div(a: int, b: int) -> int {
    if (a < 0) != (b < 0) {
        -(abs_int(a) / abs_int(b))
    } else {
        abs_int(a) / abs_int(b)
    }
}

/// The value `v` clamped into the `i64` range: integer elements saturate
/// instead of wrapping or panicking.
pub open spec fn clamp_i64(v: int) -> int {
    if v > i64::MAX {
        i64::MAX as int
    } else if v < i64::MIN {
        i64::MIN as int
    } else {
        v
    }
}

impl Element for i64 {
    open spec fn zero_v() -> i64 {
        0
    }

    open spec fn one_v() -> i64 {
        1
    }

    open spec fn lowest_v() -> i64 {
        i64::MIN
    }

    open spec fn of_usize_v(n: usize) -> i64 {
        clamp_i64(n as int) as i64
    }

    open spec fn add_v(self, o: i64) -> i64 {
        clamp_i64(self + o) as i64
    }

    open spec fn sub_v(self, o: i64) -> i64 {
        clamp_i64(self - o) as i64
    }

    open spec fn mul_v(self, o: i64) -> i64 {
        clamp_i64(self * o) as i64
    }

    open spec fn div_v(self, o: i64) -> i64 {
        if o == 0 {
            0
        } else {
            clamp_i64(trunc_div(self as int, o as int)) as i64
        }
    }

    open spec fn neg_v(self) -> i64 {
        clamp_i64(-self) as i64
    }

    open spec fn lt_v(self, o: i64) -> bool {
        self < o
    }

    open spec fn is_zero_v(self) -> bool {
        self == 0
    }

    fn zero() -> i64 {
        0
    }

    fn one() -> i64 {
        1
    }

    fn lowest() -> i64 {
        i64::MIN
    }

    fn of_usize(n: usize) -> (r: i64) {
        if n as u64 > i64::MAX as u64 {
            i64::MAX
        } else {
            n as i64
        }
    }

    fn add(self, o: i64) -> (r: i64) {
        let s: i128 = self as i128 + o as i128;
        clamp_to_i64(s)
    }

    fn sub(self, o: i64) -> (r: i64) {
        let s: i128 = self as i128 - o as i128;
        clamp_to_i64(s)
    }

    fn mul(self, o: i64) -> (r: i64) {
        proof {
            assert((self as i128) * (o as i128) <= i128::MAX && (self as i128) * (o as i128)
                >= i128::MIN) by (nonlinear_arith);
        }
        let s: i128 = self as i128 * o as i128;
        clamp_to_i64(s)
    }

    fn div(self, o: i64) -> (r: i64) {
        if o == 0 {
            0
        } else {
            let a: u64 = if self < 0 {
                (-(self as i128)) as u64
            } else {
                self as u64
            };
            let b: u64 = if o < 0 {
                (-(o as i128)) as u64
            } else {
                o as u64
            };
            let q: u64 = a / b;
            if (self < 0) != (o < 0) {
                clamp_to_i64(-(q as i128))
            } else {
                clamp_to_i64(q as i128)
            }
        }
    }

    fn neg(self) -> (r: i64) {
        let s: i128 = -(self as i128);
        clamp_to_i64(s)
    }

    fn lt(self, o: i64) -> (r: bool) {
        self < o
    }

    fn is_zero(self) -> (r: bool) {
        self == 0
    }
}

/// Clamps a wide intermediate into the `i64` range.
fn clamp_to_i64(s: i128) -> (r: i64)
    ensures
        r == clamp_i64(s as int),
{
    if s > i64::MAX as i128 {
        i64::MAX
    } else if s < i64::MIN as i128 {
        i64::MIN
    } else {
        s as i64
    }
}

} // verus!
