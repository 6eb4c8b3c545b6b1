//! Exact rational scalars: the numeric ground type of the kernel.
//!
//! A `Scalar` is a quotient of two machine integers; its mathematical model
//! is the `Rat` pair of unbounded integers.  Two scalars stand for the same
//! number exactly when `rat_eq` holds of their models, so every algebraic law
//! in this crate is stated up to `rat_eq`.

use vstd::prelude::*;

verus! {

/// Mathematical model of a scalar: the formal quotient `n / d`.
pub ghost struct Rat {
    pub n: int,
    pub d: int,
}

/// A model is well formed when its denominator is nonzero.
pub open spec fn rat_wf(a: Rat) -> bool {
    a.d != 0
}

/// The integer `n`, as a rational.
pub open spec fn rat_int(n: int) -> Rat {
    Rat { n: n, d: 1 }
}

pub open spec fn rat_zero() -> Rat {
    rat_int(0)
}

pub open spec fn rat_one() -> Rat {
    rat_int(1)
}

/// Equality of the numbers the two pairs stand for: `a.n/a.d == b.n/b.d`
/// cleared of denominators.
pub open spec fn rat_eq(a: Rat, b: Rat) -> bool {
    a.n * b.d == b.n * a.d
}

pub open spec fn rat_add(a: Rat, b: Rat) -> Rat {
    Rat { n: a.n * b.d + b.n * a.d, d: a.d * b.d }
}

pub open spec fn rat_sub(a: Rat, b: Rat) -> Rat {
    Rat { n: a.n * b.d - b.n * a.d, d: a.d * b.d }
}

pub open spec fn rat_mul(a: Rat, b: Rat) -> Rat {
    Rat { n: a.n * b.n, d: a.d * b.d }
}

/// Formal division: well formed only when `b.n != 0`.
pub open spec fn rat_div(a: Rat, b: Rat) -> Rat {
    Rat { n: a.n * b.d, d: a.d * b.n }
}

pub open spec fn rat_neg(a: Rat) -> Rat {
    Rat { n: -a.n, d: a.d }
}

/// The range of the machine integers that carry a scalar.
pub open spec fn fits(x: int) -> bool {
    -0x80000000000000000000000000000000 <= x && x <= 0x7fffffffffffffffffffffffffffffff
}

/// Every intermediate value of an exact addition stays in machine range.
pub open spec fn rat_add_ok(a: Rat, b: Rat) -> bool {
    &&& fits(a.n * b.d)
    &&& fits(b.n * a.d)
    &&& fits(a.n * b.d + b.n * a.d)
    &&& fits(a.d * b.d)
}

pub open spec fn rat_sub_ok(a: Rat, b: Rat) -> bool {
    &&& fits(a.n * b.d)
    &&& fits(b.n * a.d)
    &&& fits(a.n * b.d - b.n * a.d)
    &&& fits(a.d * b.d)
}

pub open spec fn rat_mul_ok(a: Rat, b: Rat) -> bool {
    &&& fits(a.n * b.n)
    &&& fits(a.d * b.d)
}

pub open spec fn rat_div_ok(a: Rat, b: Rat) -> bool {
    &&& fits(a.n * b.d)
    &&& fits(a.d * b.n)
}

pub open spec fn rat_neg_ok(a: Rat) -> bool {
    fits(-a.n)
}

pub open spec fn rat_eq_ok(a: Rat, b: Rat) -> bool {
    &&& fits(a.n * b.d)
    &&& fits(b.n * a.d)
}

/// An exact scalar, carried as the quotient `n / d` of two machine integers.
/// The pair is never reduced; all contracts speak of it up to `rat_eq`.
#[derive(Clone, Copy, Debug)]
pub struct Scalar {
    n: i128,
    d: i128,
}

impl View for Scalar {
    type V = Rat;

    closed spec fn view(&self) -> Rat {
        Rat { n: self.n as int, d: self.d as int }
    }
}

impl Scalar {
    /// The scalar `n / d`.
    pub fn new(n: i128, d: i128) -> (r: Scalar)
        requires
            d != 0,
        ensures
            r@ == (Rat { n: n as int, d: d as int }),
            rat_wf(r@),
    {
        Scalar { n, d }
    }

    /// The scalar with integer value `n`.
    pub fn from_int(n: i128) -> (r: Scalar)
        ensures
            r@ == rat_int(n as int),
            rat_wf(r@),
    {
        Scalar { n, d: 1 }
    }

    pub fn zero() -> (r: Scalar)
        ensures
            r@ == rat_zero(),
            rat_wf(r@),
    {
        Scalar { n: 0, d: 1 }
    }

    pub fn one() -> (r: Scalar)
        ensures
            r@ == rat_one(),
            rat_wf(r@),
    {
        Scalar { n: 1, d: 1 }
    }

    pub fn num(self) -> (r: i128)
        ensures
            r as int == self@.n,
    {
        self.n
    }

    pub fn den(self) -> (r: i128)
        ensures
            r as int == self@.d,
    {
        self.d
    }

    /// Whether the scalar is exactly zero.
    pub fn is_zero(self) -> (r: bool)
        ensures
            r == (self@.n == 0),
    {
        self.n == 0
    }

    pub fn add(self, b: Scalar) -> (r: Scalar)
        requires
            rat_wf(self@),
            rat_wf(b@),
            rat_add_ok(self@, b@),
        ensures
            r@ == rat_add(self@, b@),
            rat_wf(r@),
    {
        proof {
            assert((self@.d) * (b@.d) != 0) by (nonlinear_arith)
                requires
                    self@.d != 0,
                    b@.d != 0,
            ;
        }
        Scalar { n: self.n * b.d + b.n * self.d, d: self.d * b.d }
    }

    pub fn sub(self, b: Scalar) -> (r: Scalar)
        requires
            rat_wf(self@),
            rat_wf(b@),
            rat_sub_ok(self@, b@),
        ensures
            r@ == rat_sub(self@, b@),
            rat_wf(r@),
    {
        proof {
            assert((self@.d) * (b@.d) != 0) by (nonlinear_arith)
                requires
                    self@.d != 0,
                    b@.d != 0,
            ;
        }
        Scalar { n: self.n * b.d - b.n * self.d, d: self.d * b.d }
    }

    pub fn mul(self, b: Scalar) -> (r: Scalar)
        requires
            rat_wf(self@),
            rat_wf(b@),
            rat_mul_ok(self@, b@),
        ensures
            r@ == rat_mul(self@, b@),
            rat_wf(r@),
    {
        proof {
            assert((self@.d) * (b@.d) != 0) by (nonlinear_arith)
                requires
                    self@.d != 0,
                    b@.d != 0,
            ;
        }
        Scalar { n: self.n * b.n, d: self.d * b.d }
    }

    /// Exact division; the divisor must not be zero.
    pub fn div(self, b: Scalar) -> (r: Scalar)
        requires
            rat_wf(self@),
            rat_wf(b@),
            b@.n != 0,
            rat_div_ok(self@, b@),
        ensures
            r@ == rat_div(self@, b@),
            rat_wf(r@),
    {
        proof {
            assert((self@.d) * (b@.n) != 0) by (nonlinear_arith)
                requires
                    self@.d != 0,
                    b@.n != 0,
            ;
        }
        Scalar { n: self.n * b.d, d: self.d * b.n }
    }

    pub fn neg(self) -> (r: Scalar)
        requires
            rat_wf(self@),
            rat_neg_ok(self@),
        ensures
            r@ == rat_neg(self@),
            rat_wf(r@),
    {
        Scalar { n: -self.n, d: self.d }
    }

    /// Whether the two scalars stand for the same number.
    pub fn eq(self, b: Scalar) -> (r: bool)
        requires
            rat_wf(self@),
            rat_wf(b@),
            rat_eq_ok(self@, b@),
        ensures
            r == rat_eq(self@, b@),
    {
        self.n * b.d == b.n * self.d
    }
}

} // verus!
