//! 3-component vectors over exact scalars.
//!
//! A vector is carried fraction-free: three integer numerators over one
//! shared denominator.  Component i stands for the rational `n_i / d`, so a
//! vector equals the triple of `Scalar`s it was built from, and every
//! operation below computes the exact rational value of its floating-point
//! counterpart.

use vstd::prelude::*;
use crate::scalar::{Rat, Scalar, rat_wf, rat_eq, rat_add, rat_sub, rat_mul, rat_div, rat_neg,
    rat_int, rat_zero, rat_one, rat_div_ok, fits};

verus! {

/// Mathematical model of a vector: three numerators over one denominator.
/// Component i is the rational `n_i / d`.
pub ghost struct V3 {
    pub x: int,
    pub y: int,
    pub z: int,
    pub d: int,
}

pub open spec fn v3_wf(v: V3) -> bool {
    v.d != 0
}

/// The rational value of a component, by index 0, 1 or 2.
pub open spec fn v3_comp(v: V3, i: int) -> Rat {
    if i == 0 {
        Rat { n: v.x, d: v.d }
    } else if i == 1 {
        Rat { n: v.y, d: v.d }
    } else {
        Rat { n: v.z, d: v.d }
    }
}

/// The two vectors stand for the same point of space: rational equality,
/// component by component.
pub open spec fn v3_eq(a: V3, b: V3) -> bool {
    &&& a.x * b.d == b.x * a.d
    &&& a.y * b.d == b.y * a.d
    &&& a.z * b.d == b.z * a.d
}

/// The vector with the three given rational components, over their common
/// denominator.
pub open spec fn v3_from_rats(x: Rat, y: Rat, z: Rat) -> V3 {
    V3 {
        x: x.n * (y.d * z.d),
        y: y.n * (x.d * z.d),
        z: z.n * (x.d * y.d),
        d: x.d * (y.d * z.d),
    }
}

pub open spec fn v3_zero() -> V3 {
    V3 { x: 0, y: 0, z: 0, d: 1 }
}

pub open spec fn v3_one() -> V3 {
    V3 { x: 1, y: 1, z: 1, d: 1 }
}

pub open spec fn v3_unit_x() -> V3 {
    V3 { x: 1, y: 0, z: 0, d: 1 }
}

pub open spec fn v3_unit_y() -> V3 {
    V3 { x: 0, y: 1, z: 0, d: 1 }
}

pub open spec fn v3_unit_z() -> V3 {
    V3 { x: 0, y: 0, z: 1, d: 1 }
}

pub open spec fn v3_add(a: V3, b: V3) -> V3 {
    V3 {
        x: a.x * b.d + b.x * a.d,
        y: a.y * b.d + b.y * a.d,
        z: a.z * b.d + b.z * a.d,
        d: a.d * b.d,
    }
}

pub open spec fn v3_sub(a: V3, b: V3) -> V3 {
    V3 {
        x: a.x * b.d - b.x * a.d,
        y: a.y * b.d - b.y * a.d,
        z: a.z * b.d - b.z * a.d,
        d: a.d * b.d,
    }
}

pub open spec fn v3_neg(v: V3) -> V3 {
    V3 { x: -v.x, y: -v.y, z: -v.z, d: v.d }
}

/// The vector scaled by the rational `k`.
pub open spec fn v3_scale(k: Rat, v: V3) -> V3 {
    V3 { x: k.n * v.x, y: k.n * v.y, z: k.n * v.z, d: k.d * v.d }
}

/// Standard inner product.
pub open spec fn v3_dot(a: V3, b: V3) -> Rat {
    Rat { n: (a.x * b.x + a.y * b.y) + a.z * b.z, d: a.d * b.d }
}

/// Right-handed cross product.
pub open spec fn v3_cross(a: V3, b: V3) -> V3 {
    V3 {
        x: a.y * b.z - a.z * b.y,
        y: a.z * b.x - a.x * b.z,
        z: a.x * b.y - a.y * b.x,
        d: a.d * b.d,
    }
}

/// Orthogonal projection of `a` onto `b`; meaningful only when `b` is not
/// the zero vector.
pub open spec fn v3_proj(a: V3, b: V3) -> V3 {
    v3_scale(rat_div(v3_dot(a, b), v3_dot(b, b)), b)
}

/// Orthogonal rejection: what projection onto `b` leaves of `a`.
pub open spec fn v3_rej(a: V3, b: V3) -> V3 {
    v3_sub(a, v3_proj(a, b))
}

pub open spec fn v3_from_rats_ok(x: Rat, y: Rat, z: Rat) -> bool {
    &&& fits(y.d * z.d)
    &&& fits(x.n * (y.d * z.d))
    &&& fits(x.d * z.d)
    &&& fits(y.n * (x.d * z.d))
    &&& fits(x.d * y.d)
    &&& fits(z.n * (x.d * y.d))
    &&& fits(x.d * (y.d * z.d))
}

pub open spec fn v3_add_ok(a: V3, b: V3) -> bool {
    &&& fits(a.x * b.d)
    &&& fits(b.x * a.d)
    &&& fits(a.x * b.d + b.x * a.d)
    &&& fits(a.y * b.d)
    &&& fits(b.y * a.d)
    &&& fits(a.y * b.d + b.y * a.d)
    &&& fits(a.z * b.d)
    &&& fits(b.z * a.d)
    &&& fits(a.z * b.d + b.z * a.d)
    &&& fits(a.d * b.d)
}

pub open spec fn v3_sub_ok(a: V3, b: V3) -> bool {
    &&& fits(a.x * b.d)
    &&& fits(b.x * a.d)
    &&& fits(a.x * b.d - b.x * a.d)
    &&& fits(a.y * b.d)
    &&& fits(b.y * a.d)
    &&& fits(a.y * b.d - b.y * a.d)
    &&& fits(a.z * b.d)
    &&& fits(b.z * a.d)
    &&& fits(a.z * b.d - b.z * a.d)
    &&& fits(a.d * b.d)
}

pub open spec fn v3_neg_ok(v: V3) -> bool {
    &&& fits(-v.x)
    &&& fits(-v.y)
    &&& fits(-v.z)
}

pub open spec fn v3_scale_ok(k: Rat, v: V3) -> bool {
    &&& fits(k.n * v.x)
    &&& fits(k.n * v.y)
    &&& fits(k.n * v.z)
    &&& fits(k.d * v.d)
}

pub open spec fn v3_dot_ok(a: V3, b: V3) -> bool {
    &&& fits(a.x * b.x)
    &&& fits(a.y * b.y)
    &&& fits(a.z * b.z)
    &&& fits(a.x * b.x + a.y * b.y)
    &&& fits((a.x * b.x + a.y * b.y) + a.z * b.z)
    &&& fits(a.d * b.d)
}

pub open spec fn v3_cross_ok(a: V3, b: V3) -> bool {
    &&& fits(a.y * b.z)
    &&& fits(a.z * b.y)
    &&& fits(a.y * b.z - a.z * b.y)
    &&& fits(a.z * b.x)
    &&& fits(a.x * b.z)
    &&& fits(a.z * b.x - a.x * b.z)
    &&& fits(a.x * b.y)
    &&& fits(a.y * b.x)
    &&& fits(a.x * b.y - a.y * b.x)
    &&& fits(a.d * b.d)
}

pub open spec fn v3_proj_ok(a: V3, b: V3) -> bool {
    &&& v3_dot_ok(a, b)
    &&& v3_dot_ok(b, b)
    &&& rat_div_ok(v3_dot(a, b), v3_dot(b, b))
    &&& v3_scale_ok(rat_div(v3_dot(a, b), v3_dot(b, b)), b)
}

pub open spec fn v3_rej_ok(a: V3, b: V3) -> bool {
    &&& v3_proj_ok(a, b)
    &&& v3_sub_ok(a, v3_proj(a, b))
}

pub open spec fn v3_eq_ok(a: V3, b: V3) -> bool {
    &&& fits(a.x * b.d)
    &&& fits(b.x * a.d)
    &&& fits(a.y * b.d)
    &&& fits(b.y * a.d)
    &&& fits(a.z * b.d)
    &&& fits(b.z * a.d)
}

/// A 3-component vector of exact scalars, carried fraction-free: three
/// numerators over one shared denominator.
#[derive(Clone, Copy, Debug)]
pub struct Vec3 {
    x: i128,
    y: i128,
    z: i128,
    d: i128,
}

impl View for Vec3 {
    type V = V3;

    closed spec fn view(&self) -> V3 {
        V3 { x: self.x as int, y: self.y as int, z: self.z as int, d: self.d as int }
    }
}

impl Vec3 {
    /// The vector with the given components.
    pub fn new(x: Scalar, y: Scalar, z: Scalar) -> (r: Vec3)
        requires
            rat_wf(x@),
            rat_wf(y@),
            rat_wf(z@),
            v3_from_rats_ok(x@, y@, z@),
        ensures
            r@ == v3_from_rats(x@, y@, z@),
            v3_wf(r@),
    {
        proof {
            assert(x@.d * (y@.d * z@.d) != 0) by (nonlinear_arith)
                requires
                    x@.d != 0,
                    y@.d != 0,
                    z@.d != 0,
            ;
        }
        let yz = y.den() * z.den();
        Vec3 {
            x: x.num() * yz,
            y: y.num() * (x.den() * z.den()),
            z: z.num() * (x.den() * y.den()),
            d: x.den() * yz,
        }
    }

    pub fn zero() -> (r: Vec3)
        ensures
            r@ == v3_zero(),
            v3_wf(r@),
    {
        Vec3 { x: 0, y: 0, z: 0, d: 1 }
    }

    pub fn one() -> (r: Vec3)
        ensures
            r@ == v3_one(),
            v3_wf(r@),
    {
        Vec3 { x: 1, y: 1, z: 1, d: 1 }
    }

    pub fn x_axis() -> (r: Vec3)
        ensures
            r@ == v3_unit_x(),
            v3_wf(r@),
    {
        Vec3 { x: 1, y: 0, z: 0, d: 1 }
    }

    pub fn y_axis() -> (r: Vec3)
        ensures
            r@ == v3_unit_y(),
            v3_wf(r@),
    {
        Vec3 { x: 0, y: 1, z: 0, d: 1 }
    }

    pub fn z_axis() -> (r: Vec3)
        ensures
            r@ == v3_unit_z(),
            v3_wf(r@),
    {
        Vec3 { x: 0, y: 0, z: 1, d: 1 }
    }

    /// Crate-internal: the vector `(x/d, y/d, z/d)` from raw parts.
    pub(crate) fn from_raw(x: i128, y: i128, z: i128, d: i128) -> (r: Vec3)
        requires
            d != 0,
        ensures
            r@ == (V3 { x: x as int, y: y as int, z: z as int, d: d as int }),
            v3_wf(r@),
    {
        Vec3 { x, y, z, d }
    }

    /// Crate-internal: the raw x numerator.
    pub(crate) fn nx(self) -> (r: i128)
        ensures
            r as int == self@.x,
    {
        self.x
    }

    /// Crate-internal: the raw y numerator.
    pub(crate) fn ny(self) -> (r: i128)
        ensures
            r as int == self@.y,
    {
        self.y
    }

    /// Crate-internal: the raw z numerator.
    pub(crate) fn nz(self) -> (r: i128)
        ensures
            r as int == self@.z,
    {
        self.z
    }

    /// Crate-internal: the raw shared denominator.
    pub(crate) fn nd(self) -> (r: i128)
        ensures
            r as int == self@.d,
    {
        self.d
    }

    /// The x component, as a scalar.
    pub fn x(self) -> (r: Scalar)
        requires
            v3_wf(self@),
        ensures
            r@ == v3_comp(self@, 0),
            rat_wf(r@),
    {
        Scalar::new(self.x, self.d)
    }

    /// The y component, as a scalar.
    pub fn y(self) -> (r: Scalar)
        requires
            v3_wf(self@),
        ensures
            r@ == v3_comp(self@, 1),
            rat_wf(r@),
    {
        Scalar::new(self.y, self.d)
    }

    /// The z component, as a scalar.
    pub fn z(self) -> (r: Scalar)
        requires
            v3_wf(self@),
        ensures
            r@ == v3_comp(self@, 2),
            rat_wf(r@),
    {
        Scalar::new(self.z, self.d)
    }

    /// Indexed read: components 0, 1 and 2 are x, y and z.
    pub fn index(self, i: usize) -> (r: Scalar)
        requires
            v3_wf(self@),
            i < 3,
        ensures
            r@ == v3_comp(self@, i as int),
            rat_wf(r@),
    {
        if i == 0 {
            Scalar::new(self.x, self.d)
        } else if i == 1 {
            Scalar::new(self.y, self.d)
        } else {
            Scalar::new(self.z, self.d)
        }
    }

    /// Standard inner product.
    pub fn dot(a: Vec3, b: Vec3) -> (r: Scalar)
        requires
            v3_wf(a@),
            v3_wf(b@),
            v3_dot_ok(a@, b@),
        ensures
            r@ == v3_dot(a@, b@),
            rat_wf(r@),
    {
        proof {
            assert(a@.d * b@.d != 0) by (nonlinear_arith)
                requires
                    a@.d != 0,
                    b@.d != 0,
            ;
        }
        Scalar::new((a.x * b.x + a.y * b.y) + a.z * b.z, a.d * b.d)
    }

    /// Right-handed cross product: `cross(x_axis, y_axis)` is `z_axis`.
    pub fn cross(a: Vec3, b: Vec3) -> (r: Vec3)
        requires
            v3_wf(a@),
            v3_wf(b@),
            v3_cross_ok(a@, b@),
        ensures
            r@ == v3_cross(a@, b@),
            v3_wf(r@),
    {
        proof {
            assert(a@.d * b@.d != 0) by (nonlinear_arith)
                requires
                    a@.d != 0,
                    b@.d != 0,
            ;
        }
        Vec3 {
            x: a.y * b.z - a.z * b.y,
            y: a.z * b.x - a.x * b.z,
            z: a.x * b.y - a.y * b.x,
            d: a.d * b.d,
        }
    }

    /// Orthogonal projection of `a` onto `b`; `b` must not be the zero
    /// vector.
    pub fn proj(a: Vec3, b: Vec3) -> (r: Vec3)
        requires
            v3_wf(a@),
            v3_wf(b@),
            v3_dot(b@, b@).n != 0,
            v3_proj_ok(a@, b@),
        ensures
            r@ == v3_proj(a@, b@),
            v3_wf(r@),
    {
        let k = Vec3::dot(a, b).div(Vec3::dot(b, b));
        Vec3::scale(k, b)
    }

    /// Orthogonal rejection of `a` from `b`; `b` must not be the zero
    /// vector.
    pub fn rej(a: Vec3, b: Vec3) -> (r: Vec3)
        requires
            v3_wf(a@),
            v3_wf(b@),
            v3_dot(b@, b@).n != 0,
            v3_rej_ok(a@, b@),
        ensures
            r@ == v3_rej(a@, b@),
            v3_wf(r@),
    {
        a.sub(Vec3::proj(a, b))
    }

    pub fn add(self, b: Vec3) -> (r: Vec3)
        requires
            v3_wf(self@),
            v3_wf(b@),
            v3_add_ok(self@, b@),
        ensures
            r@ == v3_add(self@, b@),
            v3_wf(r@),
    {
        proof {
            assert(self@.d * b@.d != 0) by (nonlinear_arith)
                requires
                    self@.d != 0,
                    b@.d != 0,
            ;
        }
        Vec3 {
            x: self.x * b.d + b.x * self.d,
            y: self.y * b.d + b.y * self.d,
            z: self.z * b.d + b.z * self.d,
            d: self.d * b.d,
        }
    }

    pub fn sub(self, b: Vec3) -> (r: Vec3)
        requires
            v3_wf(self@),
            v3_wf(b@),
            v3_sub_ok(self@, b@),
        ensures
            r@ == v3_sub(self@, b@),
            v3_wf(r@),
    {
        proof {
            assert(self@.d * b@.d != 0) by (nonlinear_arith)
                requires
                    self@.d != 0,
                    b@.d != 0,
            ;
        }
        Vec3 {
            x: self.x * b.d - b.x * self.d,
            y: self.y * b.d - b.y * self.d,
            z: self.z * b.d - b.z * self.d,
            d: self.d * b.d,
        }
    }

    pub fn neg(self) -> (r: Vec3)
        requires
            v3_wf(self@),
            v3_neg_ok(self@),
        ensures
            r@ == v3_neg(self@),
            v3_wf(r@),
    {
        Vec3 { x: -self.x, y: -self.y, z: -self.z, d: self.d }
    }

    /// The vector scaled by `k`.
    pub fn scale(k: Scalar, v: Vec3) -> (r: Vec3)
        requires
            rat_wf(k@),
            v3_wf(v@),
            v3_scale_ok(k@, v@),
        ensures
            r@ == v3_scale(k@, v@),
            v3_wf(r@),
    {
        proof {
            assert(k@.d * v@.d != 0) by (nonlinear_arith)
                requires
                    k@.d != 0,
                    v@.d != 0,
            ;
        }
        let kn = k.num();
        Vec3 { x: kn * v.x, y: kn * v.y, z: kn * v.z, d: k.den() * v.d }
    }

    /// Whether the two vectors stand for the same point of space.
    pub fn eq(self, b: Vec3) -> (r: bool)
        requires
            v3_wf(self@),
            v3_wf(b@),
            v3_eq_ok(self@, b@),
        ensures
            r == v3_eq(self@, b@),
    {
        self.x * b.d == b.x * self.d && self.y * b.d == b.y * self.d && self.z * b.d == b.z
            * self.d
    }
}

} // verus!
