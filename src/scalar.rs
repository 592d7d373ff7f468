//! The numeric scalar that vectors and the integrator are built on.
use vstd::prelude::*;
use vstd::arithmetic::div_mod::{lemma_mod_add_multiples_vanish, lemma_small_mod};

verus! {

/// A numeric type with total addition, subtraction and multiplication and
/// division by a non-zero divisor, together with the algebraic facts the
/// vector type and the integrator rely on.
pub trait Scalar: Sized + Copy {
    /// The sum of two scalars.
    spec fn plus_spec(self, rhs: Self) -> Self;

    /// The difference of two scalars.
    spec fn minus_spec(self, rhs: Self) -> Self;

    /// The product of two scalars.
    spec fn times_spec(self, rhs: Self) -> Self;

    /// The quotient of two scalars, meaningful for a non-zero divisor.
    spec fn over_spec(self, rhs: Self) -> Self;

    /// The scalar that stands for a small natural number.
    spec fn lit_spec(n: u8) -> Self;

    fn plus(self, rhs: Self) -> (r: Self)
        ensures
            r == self.plus_spec(rhs),
    ;

    fn minus(self, rhs: Self) -> (r: Self)
        ensures
            r == self.minus_spec(rhs),
    ;

    fn times(self, rhs: Self) -> (r: Self)
        ensures
            r == self.times_spec(rhs),
    ;

    fn over(self, rhs: Self) -> (r: Self)
        requires
            rhs != Self::lit_spec(0),
        ensures
            r == self.over_spec(rhs),
    ;

    fn lit(n: u8) -> (r: Self)
        ensures
            r == Self::lit_spec(n),
    ;

    /// A positive literal is not zero.
    proof fn lemma_lit_nonzero(n: u8)
        requires
            n > 0,
        ensures
            Self::lit_spec(n) != Self::lit_spec(0),
    ;

    /// Addition is commutative.
    proof fn lemma_plus_commutative(a: Self, b: Self)
        ensures
            a.plus_spec(b) == b.plus_spec(a),
    ;

    /// Addition is associative.
    proof fn lemma_plus_associative(a: Self, b: Self, c: Self)
        ensures
            a.plus_spec(b).plus_spec(c) == a.plus_spec(b.plus_spec(c)),
    ;

    /// Zero is a right identity of addition.
    proof fn lemma_plus_zero(a: Self)
        ensures
            a.plus_spec(Self::lit_spec(0)) == a,
    ;

    /// One is a right identity of multiplication.
    proof fn lemma_times_one(a: Self)
        ensures
            a.times_spec(Self::lit_spec(1)) == a,
    ;

    /// Multiplying by zero gives zero.
    proof fn lemma_times_zero(a: Self)
        ensures
            a.times_spec(Self::lit_spec(0)) == Self::lit_spec(0),
    ;

    /// Dividing by one leaves a scalar unchanged.
    proof fn lemma_over_one(a: Self)
        ensures
            a.over_spec(Self::lit_spec(1)) == a,
    ;

    /// Zero divided by any non-zero scalar is zero.
    proof fn lemma_zero_over(b: Self)
        requires
            b != Self::lit_spec(0),
        ensures
            Self::lit_spec(0).over_spec(b) == Self::lit_spec(0),
    ;
}

/// Division of `i64` values that truncates toward zero; the one quotient that
/// does not fit, `i64::MIN / -1`, wraps around to `i64::MIN`.
pub open spec fn i64_quotient(a: i64, b: i64) -> i64 {
    if a == i64::MIN && b == -1 {
        i64::MIN
    } else if a >= 0 {
        (a as int / b as int) as i64
    } else {
        (-((-(a as int)) / (b as int))) as i64
    }
}

/// Two's-complement wrapping arithmetic: sums, differences and products wrap
/// around at the bounds of `i64`.
impl Scalar for i64 {
    open spec fn plus_spec(self, rhs: i64) -> i64 {
        vstd::wrapping::i64_specs::wrapping_add(self, rhs)
    }

    open spec fn minus_spec(self, rhs: i64) -> i64 {
        vstd::wrapping::i64_specs::wrapping_sub(self, rhs)
    }

    open spec fn times_spec(self, rhs: i64) -> i64 {
        vstd::wrapping::i64_specs::wrapping_mul(self, rhs)
    }

    open spec fn over_spec(self, rhs: i64) -> i64 {
        i64_quotient(self, rhs)
    }

    open spec fn lit_spec(n: u8) -> i64 {
        n as i64
    }

    fn plus(self, rhs: i64) -> (r: i64) {
        self.wrapping_add(rhs)
    }

    fn minus(self, rhs: i64) -> (r: i64) {
        self.wrapping_sub(rhs)
    }

    fn times(self, rhs: i64) -> (r: i64) {
        self.wrapping_mul(rhs)
    }

    fn over(self, rhs: i64) -> (r: i64) {
        if self == i64::MIN && rhs == -1 {
            i64::MIN
        } else {
            self / rhs
        }
    }

    fn lit(n: u8) -> (r: i64) {
        n as i64
    }

    proof fn lemma_lit_nonzero(n: u8) {
    }

    proof fn lemma_plus_commutative(a: i64, b: i64) {
    }

    proof fn lemma_plus_associative(a: i64, b: i64, c: i64) {
    }

    proof fn lemma_plus_zero(a: i64) {
    }

    proof fn lemma_times_one(a: i64) {
        let m: int = 0x1_0000_0000_0000_0000;
        assert(a as int * 1 == a as int);
        if a >= 0 {
            lemma_small_mod(a as nat, m as nat);
        } else {
            lemma_mod_add_multiples_vanish(a as int, m);
            lemma_small_mod((m + a) as nat, m as nat);
        }
    }

    proof fn lemma_times_zero(a: i64) {
        assert(a as int * 0 == 0);
        lemma_small_mod(0, 0x1_0000_0000_0000_0000);
    }

    proof fn lemma_over_one(a: i64) {
    }

    proof fn lemma_zero_over(b: i64) {
    }
}

} // verus!
