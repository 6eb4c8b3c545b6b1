//! 3x3 matrices over exact scalars, stored as three column vectors.
//!
//! Besides construction, multiplication and the cofactor inverse, the module
//! offers the named geometric generators: rotations, reflection, involution,
//! scaling, directional scaling and skew.  The constructors that depend on
//! an angle take the exact sine and cosine (or tangent) of that angle as
//! scalars, since only those enter the matrix.

use vstd::prelude::*;
use crate::scalar::{Rat, Scalar, rat_wf, rat_eq, rat_zero, rat_one, fits};
use crate::vec3::{V3, Vec3, v3_wf, v3_eq, v3_eq_ok, v3_add, v3_add_ok, v3_dot, v3_dot_ok,
    v3_cross, v3_cross_ok, v3_comp, v3_from_rats, v3_from_rats_ok, v3_unit_x, v3_unit_y,
    v3_unit_z, v3_zero};

verus! {

/// Mathematical model of a matrix: three column vectors.
pub ghost struct M3 {
    pub c0: V3,
    pub c1: V3,
    pub c2: V3,
}

pub open spec fn m3_wf(m: M3) -> bool {
    &&& v3_wf(m.c0)
    &&& v3_wf(m.c1)
    &&& v3_wf(m.c2)
}

/// Rational equality, column by column.
pub open spec fn m3_eq(p: M3, q: M3) -> bool {
    &&& v3_eq(p.c0, q.c0)
    &&& v3_eq(p.c1, q.c1)
    &&& v3_eq(p.c2, q.c2)
}

pub open spec fn m3_identity() -> M3 {
    M3 { c0: v3_unit_x(), c1: v3_unit_y(), c2: v3_unit_z() }
}

pub open spec fn m3_zero() -> M3 {
    M3 { c0: v3_zero(), c1: v3_zero(), c2: v3_zero() }
}

pub open spec fn m3_col(m: M3, i: int) -> V3 {
    if i == 0 {
        m.c0
    } else if i == 1 {
        m.c1
    } else {
        m.c2
    }
}

/// Row i: component i of each stored column, over a common denominator.
pub open spec fn m3_row(m: M3, i: int) -> V3 {
    v3_from_rats(v3_comp(m.c0, i), v3_comp(m.c1, i), v3_comp(m.c2, i))
}

/// The matrix applied to a vector: component i is `dot(row(i), v)`, put over
/// the common denominator of all three rows at once.
pub open spec fn m3_mul_vec(m: M3, v: V3) -> V3 {
    V3 {
        x: ((m.c0.x * v.x) * (m.c1.d * m.c2.d) + (m.c1.x * v.y) * (m.c0.d * m.c2.d)) + (m.c2.x
            * v.z) * (m.c0.d * m.c1.d),
        y: ((m.c0.y * v.x) * (m.c1.d * m.c2.d) + (m.c1.y * v.y) * (m.c0.d * m.c2.d)) + (m.c2.y
            * v.z) * (m.c0.d * m.c1.d),
        z: ((m.c0.z * v.x) * (m.c1.d * m.c2.d) + (m.c1.z * v.y) * (m.c0.d * m.c2.d)) + (m.c2.z
            * v.z) * (m.c0.d * m.c1.d),
        d: ((m.c0.d * m.c1.d) * m.c2.d) * v.d,
    }
}

/// The matrix product: column j of the result is `p` applied to column j of
/// `q`.
pub open spec fn m3_mul(p: M3, q: M3) -> M3 {
    M3 {
        c0: m3_mul_vec(p, q.c0),
        c1: m3_mul_vec(p, q.c1),
        c2: m3_mul_vec(p, q.c2),
    }
}

pub open spec fn m3_add(p: M3, q: M3) -> M3 {
    M3 { c0: v3_add(p.c0, q.c0), c1: v3_add(p.c1, q.c1), c2: v3_add(p.c2, q.c2) }
}

/// The determinant: the scalar triple product of the columns.
pub open spec fn m3_det(m: M3) -> Rat {
    v3_dot(v3_cross(m.c0, m.c1), m.c2)
}

/// The cofactor inverse.  Row i of the result is the cross product of the
/// other two columns (in cyclic order) over the determinant; fraction-free,
/// every entry sits over the cleared determinant `m3_det(m).n`.
pub open spec fn m3_inv(m: M3) -> M3 {
    M3 {
        c0: V3 {
            x: v3_cross(m.c1, m.c2).x * m.c0.d,
            y: v3_cross(m.c2, m.c0).x * m.c1.d,
            z: v3_cross(m.c0, m.c1).x * m.c2.d,
            d: m3_det(m).n,
        },
        c1: V3 {
            x: v3_cross(m.c1, m.c2).y * m.c0.d,
            y: v3_cross(m.c2, m.c0).y * m.c1.d,
            z: v3_cross(m.c0, m.c1).y * m.c2.d,
            d: m3_det(m).n,
        },
        c2: V3 {
            x: v3_cross(m.c1, m.c2).z * m.c0.d,
            y: v3_cross(m.c2, m.c0).z * m.c1.d,
            z: v3_cross(m.c0, m.c1).z * m.c2.d,
            d: m3_det(m).n,
        },
    }
}

/// Rotation about the x axis, from the sine and cosine of the angle.
pub open spec fn m3_rot_x(s: Rat, c: Rat) -> M3 {
    M3 {
        c0: v3_unit_x(),
        c1: V3 { x: 0, y: c.n * s.d, z: s.n * c.d, d: c.d * s.d },
        c2: V3 { x: 0, y: -(s.n * c.d), z: c.n * s.d, d: c.d * s.d },
    }
}

/// Rotation about the y axis, from the sine and cosine of the angle.
pub open spec fn m3_rot_y(s: Rat, c: Rat) -> M3 {
    M3 {
        c0: V3 { x: c.n * s.d, y: 0, z: -(s.n * c.d), d: c.d * s.d },
        c1: v3_unit_y(),
        c2: V3 { x: s.n * c.d, y: 0, z: c.n * s.d, d: c.d * s.d },
    }
}

/// Rotation about the z axis, from the sine and cosine of the angle.
pub open spec fn m3_rot_z(s: Rat, c: Rat) -> M3 {
    M3 {
        c0: V3 { x: c.n * s.d, y: s.n * c.d, z: 0, d: c.d * s.d },
        c1: V3 { x: -(s.n * c.d), y: c.n * s.d, z: 0, d: c.d * s.d },
        c2: v3_unit_z(),
    }
}

/// Rotation about an arbitrary unit axis `a`, from the sine and cosine of
/// the angle: `cos I + sin K(a) + (1 - cos) a aT`, entry by entry.
pub open spec fn m3_rot(s: Rat, c: Rat, a: V3) -> M3 {
    M3 {
        c0: V3 {
            x: s.d * (c.n * (a.d * a.d) + (c.d - c.n) * (a.x * a.x)),
            y: s.d * ((c.d - c.n) * (a.x * a.y)) + s.n * (c.d * (a.d * a.z)),
            z: s.d * ((c.d - c.n) * (a.x * a.z)) - s.n * (c.d * (a.d * a.y)),
            d: (c.d * s.d) * (a.d * a.d),
        },
        c1: V3 {
            x: s.d * ((c.d - c.n) * (a.x * a.y)) - s.n * (c.d * (a.d * a.z)),
            y: s.d * (c.n * (a.d * a.d) + (c.d - c.n) * (a.y * a.y)),
            z: s.d * ((c.d - c.n) * (a.y * a.z)) + s.n * (c.d * (a.d * a.x)),
            d: (c.d * s.d) * (a.d * a.d),
        },
        c2: V3 {
            x: s.d * ((c.d - c.n) * (a.x * a.z)) + s.n * (c.d * (a.d * a.y)),
            y: s.d * ((c.d - c.n) * (a.y * a.z)) - s.n * (c.d * (a.d * a.x)),
            z: s.d * (c.n * (a.d * a.d) + (c.d - c.n) * (a.z * a.z)),
            d: (c.d * s.d) * (a.d * a.d),
        },
    }
}

/// Reflection across the plane orthogonal to the unit axis `a`:
/// `I - 2 a aT`.
pub open spec fn m3_reflect(a: V3) -> M3 {
    M3 {
        c0: V3 {
            x: a.d * a.d - 2 * (a.x * a.x),
            y: -(2 * (a.x * a.y)),
            z: -(2 * (a.x * a.z)),
            d: a.d * a.d,
        },
        c1: V3 {
            x: -(2 * (a.x * a.y)),
            y: a.d * a.d - 2 * (a.y * a.y),
            z: -(2 * (a.y * a.z)),
            d: a.d * a.d,
        },
        c2: V3 {
            x: -(2 * (a.x * a.z)),
            y: -(2 * (a.y * a.z)),
            z: a.d * a.d - 2 * (a.z * a.z),
            d: a.d * a.d,
        },
    }
}

/// Reflection through the line along the unit axis `a`: `2 a aT - I`.
pub open spec fn m3_invol(a: V3) -> M3 {
    M3 {
        c0: V3 {
            x: 2 * (a.x * a.x) - a.d * a.d,
            y: 2 * (a.x * a.y),
            z: 2 * (a.x * a.z),
            d: a.d * a.d,
        },
        c1: V3 {
            x: 2 * (a.x * a.y),
            y: 2 * (a.y * a.y) - a.d * a.d,
            z: 2 * (a.y * a.z),
            d: a.d * a.d,
        },
        c2: V3 {
            x: 2 * (a.x * a.z),
            y: 2 * (a.y * a.z),
            z: 2 * (a.z * a.z) - a.d * a.d,
            d: a.d * a.d,
        },
    }
}

/// Diagonal scaling.
pub open spec fn m3_scale(sx: Rat, sy: Rat, sz: Rat) -> M3 {
    M3 {
        c0: V3 { x: sx.n, y: 0, z: 0, d: sx.d },
        c1: V3 { x: 0, y: sy.n, z: 0, d: sy.d },
        c2: V3 { x: 0, y: 0, z: sz.n, d: sz.d },
    }
}

/// Scaling by `s` along the unit axis `a`, identity on the orthogonal
/// complement: `I + (s - 1) a aT`.
pub open spec fn m3_scale_along_dir(s: Rat, a: V3) -> M3 {
    M3 {
        c0: V3 {
            x: s.d * (a.d * a.d) + (s.n - s.d) * (a.x * a.x),
            y: (s.n - s.d) * (a.x * a.y),
            z: (s.n - s.d) * (a.x * a.z),
            d: s.d * (a.d * a.d),
        },
        c1: V3 {
            x: (s.n - s.d) * (a.x * a.y),
            y: s.d * (a.d * a.d) + (s.n - s.d) * (a.y * a.y),
            z: (s.n - s.d) * (a.y * a.z),
            d: s.d * (a.d * a.d),
        },
        c2: V3 {
            x: (s.n - s.d) * (a.x * a.z),
            y: (s.n - s.d) * (a.y * a.z),
            z: s.d * (a.d * a.d) + (s.n - s.d) * (a.z * a.z),
            d: s.d * (a.d * a.d),
        },
    }
}

/// Skew along the unit direction `a` by the component along `b`, from the
/// tangent `t` of the skew angle: `I + t a bT`.
pub open spec fn m3_skew(t: Rat, a: V3, b: V3) -> M3 {
    M3 {
        c0: V3 {
            x: t.d * (a.d * b.d) + t.n * (a.x * b.x),
            y: t.n * (a.y * b.x),
            z: t.n * (a.z * b.x),
            d: t.d * (a.d * b.d),
        },
        c1: V3 {
            x: t.n * (a.x * b.y),
            y: t.d * (a.d * b.d) + t.n * (a.y * b.y),
            z: t.n * (a.z * b.y),
            d: t.d * (a.d * b.d),
        },
        c2: V3 {
            x: t.n * (a.x * b.z),
            y: t.n * (a.y * b.z),
            z: t.d * (a.d * b.d) + t.n * (a.z * b.z),
            d: t.d * (a.d * b.d),
        },
    }
}

pub open spec fn m3_row_ok(m: M3, i: int) -> bool {
    v3_from_rats_ok(v3_comp(m.c0, i), v3_comp(m.c1, i), v3_comp(m.c2, i))
}

pub open spec fn m3_mul_vec_ok(m: M3, v: V3) -> bool {
    &&& fits(m.c1.d * m.c2.d)
    &&& fits(m.c0.d * m.c2.d)
    &&& fits(m.c0.d * m.c1.d)
    &&& fits(m.c0.x * v.x)
    &&& fits(m.c0.y * v.x)
    &&& fits(m.c0.z * v.x)
    &&& fits(m.c1.x * v.y)
    &&& fits(m.c1.y * v.y)
    &&& fits(m.c1.z * v.y)
    &&& fits(m.c2.x * v.z)
    &&& fits(m.c2.y * v.z)
    &&& fits(m.c2.z * v.z)
    &&& fits((m.c0.x * v.x) * (m.c1.d * m.c2.d))
    &&& fits((m.c0.y * v.x) * (m.c1.d * m.c2.d))
    &&& fits((m.c0.z * v.x) * (m.c1.d * m.c2.d))
    &&& fits((m.c1.x * v.y) * (m.c0.d * m.c2.d))
    &&& fits((m.c1.y * v.y) * (m.c0.d * m.c2.d))
    &&& fits((m.c1.z * v.y) * (m.c0.d * m.c2.d))
    &&& fits((m.c2.x * v.z) * (m.c0.d * m.c1.d))
    &&& fits((m.c2.y * v.z) * (m.c0.d * m.c1.d))
    &&& fits((m.c2.z * v.z) * (m.c0.d * m.c1.d))
    &&& fits((m.c0.x * v.x) * (m.c1.d * m.c2.d) + (m.c1.x * v.y) * (m.c0.d * m.c2.d))
    &&& fits((m.c0.y * v.x) * (m.c1.d * m.c2.d) + (m.c1.y * v.y) * (m.c0.d * m.c2.d))
    &&& fits((m.c0.z * v.x) * (m.c1.d * m.c2.d) + (m.c1.z * v.y) * (m.c0.d * m.c2.d))
    &&& fits(m3_mul_vec(m, v).x)
    &&& fits(m3_mul_vec(m, v).y)
    &&& fits(m3_mul_vec(m, v).z)
    &&& fits((m.c0.d * m.c1.d) * m.c2.d)
    &&& fits(((m.c0.d * m.c1.d) * m.c2.d) * v.d)
}

pub open spec fn m3_mul_ok(p: M3, q: M3) -> bool {
    &&& m3_mul_vec_ok(p, q.c0)
    &&& m3_mul_vec_ok(p, q.c1)
    &&& m3_mul_vec_ok(p, q.c2)
}

pub open spec fn m3_add_ok(p: M3, q: M3) -> bool {
    &&& v3_add_ok(p.c0, q.c0)
    &&& v3_add_ok(p.c1, q.c1)
    &&& v3_add_ok(p.c2, q.c2)
}

pub open spec fn m3_det_ok(m: M3) -> bool {
    &&& v3_cross_ok(m.c0, m.c1)
    &&& v3_dot_ok(v3_cross(m.c0, m.c1), m.c2)
}

pub open spec fn m3_inv_ok(m: M3) -> bool {
    &&& v3_cross_ok(m.c1, m.c2)
    &&& v3_cross_ok(m.c2, m.c0)
    &&& v3_cross_ok(m.c0, m.c1)
    &&& v3_dot_ok(v3_cross(m.c0, m.c1), m.c2)
    &&& fits(v3_cross(m.c1, m.c2).x * m.c0.d)
    &&& fits(v3_cross(m.c1, m.c2).y * m.c0.d)
    &&& fits(v3_cross(m.c1, m.c2).z * m.c0.d)
    &&& fits(v3_cross(m.c2, m.c0).x * m.c1.d)
    &&& fits(v3_cross(m.c2, m.c0).y * m.c1.d)
    &&& fits(v3_cross(m.c2, m.c0).z * m.c1.d)
    &&& fits(v3_cross(m.c0, m.c1).x * m.c2.d)
    &&& fits(v3_cross(m.c0, m.c1).y * m.c2.d)
    &&& fits(v3_cross(m.c0, m.c1).z * m.c2.d)
}

pub open spec fn m3_rot_cs_ok(s: Rat, c: Rat) -> bool {
    &&& fits(c.n * s.d)
    &&& fits(s.n * c.d)
    &&& fits(-(s.n * c.d))
    &&& fits(c.d * s.d)
}

pub open spec fn m3_rot_ok(s: Rat, c: Rat, a: V3) -> bool {
    &&& fits(c.d - c.n)
    &&& fits(a.d * a.d)
    &&& fits(a.x * a.x)
    &&& fits(a.y * a.y)
    &&& fits(a.z * a.z)
    &&& fits(a.x * a.y)
    &&& fits(a.x * a.z)
    &&& fits(a.y * a.z)
    &&& fits(a.d * a.x)
    &&& fits(a.d * a.y)
    &&& fits(a.d * a.z)
    &&& fits(c.n * (a.d * a.d))
    &&& fits((c.d - c.n) * (a.x * a.x))
    &&& fits((c.d - c.n) * (a.y * a.y))
    &&& fits((c.d - c.n) * (a.z * a.z))
    &&& fits((c.d - c.n) * (a.x * a.y))
    &&& fits((c.d - c.n) * (a.x * a.z))
    &&& fits((c.d - c.n) * (a.y * a.z))
    &&& fits(c.n * (a.d * a.d) + (c.d - c.n) * (a.x * a.x))
    &&& fits(c.n * (a.d * a.d) + (c.d - c.n) * (a.y * a.y))
    &&& fits(c.n * (a.d * a.d) + (c.d - c.n) * (a.z * a.z))
    &&& fits(s.d * (c.n * (a.d * a.d) + (c.d - c.n) * (a.x * a.x)))
    &&& fits(s.d * (c.n * (a.d * a.d) + (c.d - c.n) * (a.y * a.y)))
    &&& fits(s.d * (c.n * (a.d * a.d) + (c.d - c.n) * (a.z * a.z)))
    &&& fits(s.d * ((c.d - c.n) * (a.x * a.y)))
    &&& fits(s.d * ((c.d - c.n) * (a.x * a.z)))
    &&& fits(s.d * ((c.d - c.n) * (a.y * a.z)))
    &&& fits(c.d * (a.d * a.x))
    &&& fits(c.d * (a.d * a.y))
    &&& fits(c.d * (a.d * a.z))
    &&& fits(s.n * (c.d * (a.d * a.x)))
    &&& fits(s.n * (c.d * (a.d * a.y)))
    &&& fits(s.n * (c.d * (a.d * a.z)))
    &&& fits(s.d * ((c.d - c.n) * (a.x * a.y)) + s.n * (c.d * (a.d * a.z)))
    &&& fits(s.d * ((c.d - c.n) * (a.x * a.y)) - s.n * (c.d * (a.d * a.z)))
    &&& fits(s.d * ((c.d - c.n) * (a.x * a.z)) + s.n * (c.d * (a.d * a.y)))
    &&& fits(s.d * ((c.d - c.n) * (a.x * a.z)) - s.n * (c.d * (a.d * a.y)))
    &&& fits(s.d * ((c.d - c.n) * (a.y * a.z)) + s.n * (c.d * (a.d * a.x)))
    &&& fits(s.d * ((c.d - c.n) * (a.y * a.z)) - s.n * (c.d * (a.d * a.x)))
    &&& fits(c.d * s.d)
    &&& fits((c.d * s.d) * (a.d * a.d))
}

pub open spec fn m3_outer_ok(a: V3) -> bool {
    &&& fits(a.d * a.d)
    &&& fits(a.x * a.x)
    &&& fits(a.y * a.y)
    &&& fits(a.z * a.z)
    &&& fits(a.x * a.y)
    &&& fits(a.x * a.z)
    &&& fits(a.y * a.z)
    &&& fits(2 * (a.x * a.x))
    &&& fits(2 * (a.y * a.y))
    &&& fits(2 * (a.z * a.z))
    &&& fits(2 * (a.x * a.y))
    &&& fits(2 * (a.x * a.z))
    &&& fits(2 * (a.y * a.z))
    &&& fits(a.d * a.d - 2 * (a.x * a.x))
    &&& fits(a.d * a.d - 2 * (a.y * a.y))
    &&& fits(a.d * a.d - 2 * (a.z * a.z))
    &&& fits(2 * (a.x * a.x) - a.d * a.d)
    &&& fits(2 * (a.y * a.y) - a.d * a.d)
    &&& fits(2 * (a.z * a.z) - a.d * a.d)
    &&& fits(-(2 * (a.x * a.y)))
    &&& fits(-(2 * (a.x * a.z)))
    &&& fits(-(2 * (a.y * a.z)))
}

pub open spec fn m3_scale_along_dir_ok(s: Rat, a: V3) -> bool {
    &&& fits(s.n - s.d)
    &&& fits(a.d * a.d)
    &&& fits(a.x * a.x)
    &&& fits(a.y * a.y)
    &&& fits(a.z * a.z)
    &&& fits(a.x * a.y)
    &&& fits(a.x * a.z)
    &&& fits(a.y * a.z)
    &&& fits(s.d * (a.d * a.d))
    &&& fits((s.n - s.d) * (a.x * a.x))
    &&& fits((s.n - s.d) * (a.y * a.y))
    &&& fits((s.n - s.d) * (a.z * a.z))
    &&& fits((s.n - s.d) * (a.x * a.y))
    &&& fits((s.n - s.d) * (a.x * a.z))
    &&& fits((s.n - s.d) * (a.y * a.z))
    &&& fits(s.d * (a.d * a.d) + (s.n - s.d) * (a.x * a.x))
    &&& fits(s.d * (a.d * a.d) + (s.n - s.d) * (a.y * a.y))
    &&& fits(s.d * (a.d * a.d) + (s.n - s.d) * (a.z * a.z))
}

pub open spec fn m3_skew_ok(t: Rat, a: V3, b: V3) -> bool {
    &&& fits(a.d * b.d)
    &&& fits(t.d * (a.d * b.d))
    &&& fits(a.x * b.x)
    &&& fits(a.y * b.x)
    &&& fits(a.z * b.x)
    &&& fits(a.x * b.y)
    &&& fits(a.y * b.y)
    &&& fits(a.z * b.y)
    &&& fits(a.x * b.z)
    &&& fits(a.y * b.z)
    &&& fits(a.z * b.z)
    &&& fits(t.n * (a.x * b.x))
    &&& fits(t.n * (a.y * b.x))
    &&& fits(t.n * (a.z * b.x))
    &&& fits(t.n * (a.x * b.y))
    &&& fits(t.n * (a.y * b.y))
    &&& fits(t.n * (a.z * b.y))
    &&& fits(t.n * (a.x * b.z))
    &&& fits(t.n * (a.y * b.z))
    &&& fits(t.n * (a.z * b.z))
    &&& fits(t.d * (a.d * b.d) + t.n * (a.x * b.x))
    &&& fits(t.d * (a.d * b.d) + t.n * (a.y * b.y))
    &&& fits(t.d * (a.d * b.d) + t.n * (a.z * b.z))
}

pub open spec fn m3_eq_ok(p: M3, q: M3) -> bool {
    &&& v3_eq_ok(p.c0, q.c0)
    &&& v3_eq_ok(p.c1, q.c1)
    &&& v3_eq_ok(p.c2, q.c2)
}

/// A 3x3 matrix of exact scalars, stored as three column vectors.
#[derive(Clone, Copy, Debug)]
pub struct Mat3 {
    pub c0: Vec3,
    pub c1: Vec3,
    pub c2: Vec3,
}

impl View for Mat3 {
    type V = M3;

    open spec fn view(&self) -> M3 {
        M3 { c0: self.c0@, c1: self.c1@, c2: self.c2@ }
    }
}

impl Mat3 {
    /// The matrix with the three given columns.
    pub fn from_cols(c0: Vec3, c1: Vec3, c2: Vec3) -> (r: Mat3)
        ensures
            r@ == (M3 { c0: c0@, c1: c1@, c2: c2@ }),
    {
        Mat3 { c0, c1, c2 }
    }

    pub fn identity() -> (r: Mat3)
        ensures
            r@ == m3_identity(),
            m3_wf(r@),
    {
        Mat3 { c0: Vec3::x_axis(), c1: Vec3::y_axis(), c2: Vec3::z_axis() }
    }

    pub fn zero() -> (r: Mat3)
        ensures
            r@ == m3_zero(),
            m3_wf(r@),
    {
        Mat3 { c0: Vec3::zero(), c1: Vec3::zero(), c2: Vec3::zero() }
    }

    /// The stored column i.
    pub fn col(self, i: usize) -> (r: Vec3)
        requires
            i < 3,
        ensures
            r@ == m3_col(self@, i as int),
    {
        if i == 0 {
            self.c0
        } else if i == 1 {
            self.c1
        } else {
            self.c2
        }
    }

    /// Row i: component i of each stored column.
    pub fn row(self, i: usize) -> (r: Vec3)
        requires
            i < 3,
            m3_wf(self@),
            m3_row_ok(self@, i as int),
        ensures
            r@ == m3_row(self@, i as int),
            v3_wf(r@),
    {
        Vec3::new(self.c0.index(i), self.c1.index(i), self.c2.index(i))
    }

    /// The matrix applied to a vector.
    pub fn mul_vec(self, v: Vec3) -> (r: Vec3)
        requires
            m3_wf(self@),
            v3_wf(v@),
            m3_mul_vec_ok(self@, v@),
        ensures
            r@ == m3_mul_vec(self@, v@),
            v3_wf(r@),
    {
        proof {
            assert((((self@.c0.d * self@.c1.d) * self@.c2.d) * v@.d) != 0) by (nonlinear_arith)
                requires
                    self@.c0.d != 0,
                    self@.c1.d != 0,
                    self@.c2.d != 0,
                    v@.d != 0,
            ;
        }
        let d12 = self.c1.nd() * self.c2.nd();
        let d02 = self.c0.nd() * self.c2.nd();
        let d01 = self.c0.nd() * self.c1.nd();
        Vec3::from_raw(
            ((self.c0.nx() * v.nx()) * d12 + (self.c1.nx() * v.ny()) * d02) + (self.c2.nx()
                * v.nz()) * d01,
            ((self.c0.ny() * v.nx()) * d12 + (self.c1.ny() * v.ny()) * d02) + (self.c2.ny()
                * v.nz()) * d01,
            ((self.c0.nz() * v.nx()) * d12 + (self.c1.nz() * v.ny()) * d02) + (self.c2.nz()
                * v.nz()) * d01,
            (d01 * self.c2.nd()) * v.nd(),
        )
    }

    /// The matrix product: apply `m` first, then `self`.
    pub fn mul_mat(self, m: Mat3) -> (r: Mat3)
        requires
            m3_wf(self@),
            m3_wf(m@),
            m3_mul_ok(self@, m@),
        ensures
            r@ == m3_mul(self@, m@),
            m3_wf(r@),
    {
        Mat3 {
            c0: self.mul_vec(m.c0),
            c1: self.mul_vec(m.c1),
            c2: self.mul_vec(m.c2),
        }
    }

    /// Column-wise matrix addition.
    pub fn add(self, m: Mat3) -> (r: Mat3)
        requires
            m3_wf(self@),
            m3_wf(m@),
            m3_add_ok(self@, m@),
        ensures
            r@ == m3_add(self@, m@),
            m3_wf(r@),
    {
        Mat3 { c0: self.c0.add(m.c0), c1: self.c1.add(m.c1), c2: self.c2.add(m.c2) }
    }

    /// The determinant: the scalar triple product of the columns.
    pub fn det(self) -> (r: Scalar)
        requires
            m3_wf(self@),
            m3_det_ok(self@),
        ensures
            r@ == m3_det(self@),
            rat_wf(r@),
    {
        Vec3::dot(Vec3::cross(self.c0, self.c1), self.c2)
    }

    /// The cofactor inverse.  The caller must pass an invertible matrix: the
    /// cleared determinant `m3_det(self@).n` must be nonzero.
    pub fn inv(self) -> (r: Mat3)
        requires
            m3_wf(self@),
            m3_det(self@).n != 0,
            m3_inv_ok(self@),
        ensures
            r@ == m3_inv(self@),
            m3_wf(r@),
    {
        let bxc = Vec3::cross(self.c1, self.c2);
        let cxa = Vec3::cross(self.c2, self.c0);
        let axb = Vec3::cross(self.c0, self.c1);
        let det = Vec3::dot(axb, self.c2);
        let dn = det.num();
        let ad = self.c0.nd();
        let bd = self.c1.nd();
        let cd = self.c2.nd();
        Mat3 {
            c0: Vec3::from_raw(bxc.nx() * ad, cxa.nx() * bd, axb.nx() * cd, dn),
            c1: Vec3::from_raw(bxc.ny() * ad, cxa.ny() * bd, axb.ny() * cd, dn),
            c2: Vec3::from_raw(bxc.nz() * ad, cxa.nz() * bd, axb.nz() * cd, dn),
        }
    }

    /// Rotation about the x axis; `s` and `c` are the exact sine and cosine
    /// of the angle.
    pub fn rot_x(s: Scalar, c: Scalar) -> (r: Mat3)
        requires
            rat_wf(s@),
            rat_wf(c@),
            m3_rot_cs_ok(s@, c@),
        ensures
            r@ == m3_rot_x(s@, c@),
            m3_wf(r@),
    {
        proof {
            assert(c@.d * s@.d != 0) by (nonlinear_arith)
                requires
                    c@.d != 0,
                    s@.d != 0,
            ;
        }
        let cs = c.den() * s.den();
        Mat3 {
            c0: Vec3::x_axis(),
            c1: Vec3::from_raw(0, c.num() * s.den(), s.num() * c.den(), cs),
            c2: Vec3::from_raw(0, -(s.num() * c.den()), c.num() * s.den(), cs),
        }
    }

    /// Rotation about the y axis; `s` and `c` are the exact sine and cosine
    /// of the angle.
    pub fn rot_y(s: Scalar, c: Scalar) -> (r: Mat3)
        requires
            rat_wf(s@),
            rat_wf(c@),
            m3_rot_cs_ok(s@, c@),
        ensures
            r@ == m3_rot_y(s@, c@),
            m3_wf(r@),
    {
        proof {
            assert(c@.d * s@.d != 0) by (nonlinear_arith)
                requires
                    c@.d != 0,
                    s@.d != 0,
            ;
        }
        let cs = c.den() * s.den();
        Mat3 {
            c0: Vec3::from_raw(c.num() * s.den(), 0, -(s.num() * c.den()), cs),
            c1: Vec3::y_axis(),
            c2: Vec3::from_raw(s.num() * c.den(), 0, c.num() * s.den(), cs),
        }
    }

    /// Rotation about the z axis; `s` and `c` are the exact sine and cosine
    /// of the angle.
    pub fn rot_z(s: Scalar, c: Scalar) -> (r: Mat3)
        requires
            rat_wf(s@),
            rat_wf(c@),
            m3_rot_cs_ok(s@, c@),
        ensures
            r@ == m3_rot_z(s@, c@),
            m3_wf(r@),
    {
        proof {
            assert(c@.d * s@.d != 0) by (nonlinear_arith)
                requires
                    c@.d != 0,
                    s@.d != 0,
            ;
        }
        let cs = c.den() * s.den();
        Mat3 {
            c0: Vec3::from_raw(c.num() * s.den(), s.num() * c.den(), 0, cs),
            c1: Vec3::from_raw(-(s.num() * c.den()), c.num() * s.den(), 0, cs),
            c2: Vec3::z_axis(),
        }
    }

    /// Rotation about an arbitrary unit axis `a`; `s` and `c` are the exact
    /// sine and cosine of the angle.
    pub fn rot(s: Scalar, c: Scalar, a: Vec3) -> (r: Mat3)
        requires
            rat_wf(s@),
            rat_wf(c@),
            v3_wf(a@),
            m3_rot_ok(s@, c@, a@),
        ensures
            r@ == m3_rot(s@, c@, a@),
            m3_wf(r@),
    {
        proof {
            assert((c@.d * s@.d) * (a@.d * a@.d) != 0) by (nonlinear_arith)
                requires
                    c@.d != 0,
                    s@.d != 0,
                    a@.d != 0,
            ;
        }
        let q = c.den() - c.num();
        let dd = a.nd() * a.nd();
        let den = (c.den() * s.den()) * dd;
        let sd = s.den();
        let sn = s.num();
        let cd = c.den();
        let cn = c.num();
        Mat3 {
            c0: Vec3::from_raw(
                sd * (cn * dd + q * (a.nx() * a.nx())),
                sd * (q * (a.nx() * a.ny())) + sn * (cd * (a.nd() * a.nz())),
                sd * (q * (a.nx() * a.nz())) - sn * (cd * (a.nd() * a.ny())),
                den,
            ),
            c1: Vec3::from_raw(
                sd * (q * (a.nx() * a.ny())) - sn * (cd * (a.nd() * a.nz())),
                sd * (cn * dd + q * (a.ny() * a.ny())),
                sd * (q * (a.ny() * a.nz())) + sn * (cd * (a.nd() * a.nx())),
                den,
            ),
            c2: Vec3::from_raw(
                sd * (q * (a.nx() * a.nz())) + sn * (cd * (a.nd() * a.ny())),
                sd * (q * (a.ny() * a.nz())) - sn * (cd * (a.nd() * a.nx())),
                sd * (cn * dd + q * (a.nz() * a.nz())),
                den,
            ),
        }
    }

    /// Reflection across the plane orthogonal to the unit axis `a`.
    pub fn reflect(a: Vec3) -> (r: Mat3)
        requires
            v3_wf(a@),
            m3_outer_ok(a@),
        ensures
            r@ == m3_reflect(a@),
            m3_wf(r@),
    {
        proof {
            assert(a@.d * a@.d != 0) by (nonlinear_arith)
                requires
                    a@.d != 0,
            ;
        }
        let dd = a.nd() * a.nd();
        let xy = -(2 * (a.nx() * a.ny()));
        let xz = -(2 * (a.nx() * a.nz()));
        let yz = -(2 * (a.ny() * a.nz()));
        Mat3 {
            c0: Vec3::from_raw(dd - 2 * (a.nx() * a.nx()), xy, xz, dd),
            c1: Vec3::from_raw(xy, dd - 2 * (a.ny() * a.ny()), yz, dd),
            c2: Vec3::from_raw(xz, yz, dd - 2 * (a.nz() * a.nz()), dd),
        }
    }

    /// Reflection through the line along the unit axis `a`.
    pub fn invol(a: Vec3) -> (r: Mat3)
        requires
            v3_wf(a@),
            m3_outer_ok(a@),
        ensures
            r@ == m3_invol(a@),
            m3_wf(r@),
    {
        proof {
            assert(a@.d * a@.d != 0) by (nonlinear_arith)
                requires
                    a@.d != 0,
            ;
        }
        let dd = a.nd() * a.nd();
        let xy = 2 * (a.nx() * a.ny());
        let xz = 2 * (a.nx() * a.nz());
        let yz = 2 * (a.ny() * a.nz());
        Mat3 {
            c0: Vec3::from_raw(2 * (a.nx() * a.nx()) - dd, xy, xz, dd),
            c1: Vec3::from_raw(xy, 2 * (a.ny() * a.ny()) - dd, yz, dd),
            c2: Vec3::from_raw(xz, yz, 2 * (a.nz() * a.nz()) - dd, dd),
        }
    }

    /// Diagonal scaling by `sx`, `sy`, `sz`.
    pub fn scale(sx: Scalar, sy: Scalar, sz: Scalar) -> (r: Mat3)
        requires
            rat_wf(sx@),
            rat_wf(sy@),
            rat_wf(sz@),
        ensures
            r@ == m3_scale(sx@, sy@, sz@),
            m3_wf(r@),
    {
        Mat3 {
            c0: Vec3::from_raw(sx.num(), 0, 0, sx.den()),
            c1: Vec3::from_raw(0, sy.num(), 0, sy.den()),
            c2: Vec3::from_raw(0, 0, sz.num(), sz.den()),
        }
    }

    /// Scaling by `s` along the unit axis `a`, identity on the orthogonal
    /// complement.
    pub fn scale_along_dir(s: Scalar, a: Vec3) -> (r: Mat3)
        requires
            rat_wf(s@),
            v3_wf(a@),
            m3_scale_along_dir_ok(s@, a@),
        ensures
            r@ == m3_scale_along_dir(s@, a@),
            m3_wf(r@),
    {
        proof {
            assert(s@.d * (a@.d * a@.d) != 0) by (nonlinear_arith)
                requires
                    s@.d != 0,
                    a@.d != 0,
            ;
        }
        let q = s.num() - s.den();
        let den = s.den() * (a.nd() * a.nd());
        let xy = q * (a.nx() * a.ny());
        let xz = q * (a.nx() * a.nz());
        let yz = q * (a.ny() * a.nz());
        Mat3 {
            c0: Vec3::from_raw(den + q * (a.nx() * a.nx()), xy, xz, den),
            c1: Vec3::from_raw(xy, den + q * (a.ny() * a.ny()), yz, den),
            c2: Vec3::from_raw(xz, yz, den + q * (a.nz() * a.nz()), den),
        }
    }

    /// Skew along the unit direction `a` by the component along the unit
    /// direction `b`; `t` is the exact tangent of the skew angle.
    pub fn skew(t: Scalar, a: Vec3, b: Vec3) -> (r: Mat3)
        requires
            rat_wf(t@),
            v3_wf(a@),
            v3_wf(b@),
            m3_skew_ok(t@, a@, b@),
        ensures
            r@ == m3_skew(t@, a@, b@),
            m3_wf(r@),
    {
        proof {
            assert(t@.d * (a@.d * b@.d) != 0) by (nonlinear_arith)
                requires
                    t@.d != 0,
                    a@.d != 0,
                    b@.d != 0,
            ;
        }
        let tn = t.num();
        let den = t.den() * (a.nd() * b.nd());
        Mat3 {
            c0: Vec3::from_raw(
                den + tn * (a.nx() * b.nx()),
                tn * (a.ny() * b.nx()),
                tn * (a.nz() * b.nx()),
                den,
            ),
            c1: Vec3::from_raw(
                tn * (a.nx() * b.ny()),
                den + tn * (a.ny() * b.ny()),
                tn * (a.nz() * b.ny()),
                den,
            ),
            c2: Vec3::from_raw(
                tn * (a.nx() * b.nz()),
                tn * (a.ny() * b.nz()),
                den + tn * (a.nz() * b.nz()),
                den,
            ),
        }
    }

    /// Whether the two matrices stand for the same linear map.
    pub fn eq(self, m: Mat3) -> (r: bool)
        requires
            m3_wf(self@),
            m3_wf(m@),
            m3_eq_ok(self@, m@),
        ensures
            r == m3_eq(self@, m@),
    {
        self.c0.eq(m.c0) && self.c1.eq(m.c1) && self.c2.eq(m.c2)
    }
}

} // verus!
