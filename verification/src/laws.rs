//! Algebraic laws of the kernel, stated over the mathematical models and
//! proved for every well-formed value.

use vstd::prelude::*;
use crate::scalar::{Rat, rat_eq, rat_zero, rat_one};
use crate::vec3::{V3, v3_wf, v3_eq, v3_add, v3_dot, v3_cross, v3_proj, v3_rej,
    v3_unit_x, v3_unit_y, v3_unit_z};
use crate::mat3::{M3, m3_wf, m3_eq, m3_mul, m3_mul_vec, m3_inv, m3_det, m3_identity,
    m3_rot, m3_rot_x, m3_rot_y, m3_rot_z, m3_reflect};
use crate::vec3::{v3_neg, v3_zero};
use crate::transform4d::{T4, t4_wf, t4_eq, t4_mul, t4_inv, t4_identity};

verus! {

/// The unit axes obey the right-handed orientation convention:
/// `cross(x, y) == z`, `cross(y, z) == x`, `cross(z, x) == y`, and distinct
/// axes are orthogonal.
pub proof fn lemma_axis_orientation()
    ensures
        v3_eq(v3_cross(v3_unit_x(), v3_unit_y()), v3_unit_z()),
        v3_eq(v3_cross(v3_unit_y(), v3_unit_z()), v3_unit_x()),
        v3_eq(v3_cross(v3_unit_z(), v3_unit_x()), v3_unit_y()),
        rat_eq(v3_dot(v3_unit_x(), v3_unit_y()), rat_zero()),
{
}

/// Projection and rejection split a vector: `proj(a, b) + rej(a, b) == a`,
/// and the rejection is orthogonal to `b`, for every `a` and every `b` with
/// `dot(b, b) != 0`.
pub proof fn lemma_proj_rej(a: V3, b: V3)
    requires
        v3_wf(a),
        v3_wf(b),
        v3_dot(b, b).n != 0,
    ensures
        v3_eq(v3_add(v3_proj(a, b), v3_rej(a, b)), a),
        rat_eq(v3_dot(v3_rej(a, b), b), rat_zero()),
{
    let ax: int = a.x;
    let ay: int = a.y;
    let az: int = a.z;
    let ad: int = a.d;
    let bx: int = b.x;
    let by: int = b.y;
    let bz: int = b.z;
    let bd: int = b.d;
    let p: int = (ax * bx + ay * by) + az * bz;
    let q: int = (bx * bx + by * by) + bz * bz;
    let kn: int = p * (bd * bd);
    let kd: int = (ad * bd) * q;
    let pd: int = kd * bd;
    let px: int = kn * bx;
    let py: int = kn * by;
    let pz: int = kn * bz;
    let rx: int = ax * pd - px * ad;
    let ry: int = ay * pd - py * ad;
    let rz: int = az * pd - pz * ad;
    let rd: int = ad * pd;
    assert(v3_proj(a, b) == (V3 { x: px, y: py, z: pz, d: pd }));
    assert(v3_rej(a, b) == (V3 { x: rx, y: ry, z: rz, d: rd }));
    let s = v3_add(v3_proj(a, b), v3_rej(a, b));
    assert(s == (V3 { x: px * rd + rx * pd, y: py * rd + ry * pd, z: pz * rd + rz * pd, d: pd
        * rd }));
    assert((px * rd + rx * pd) * ad == ax * (pd * rd) && (py * rd + ry * pd) * ad == ay * (pd
        * rd) && (pz * rd + rz * pd) * ad == az * (pd * rd)) by (nonlinear_arith)
        requires
            rx == ax * pd - px * ad,
            ry == ay * pd - py * ad,
            rz == az * pd - pz * ad,
            rd == ad * pd,
    ;
    let o = v3_dot(v3_rej(a, b), b);
    assert(o == (Rat { n: (rx * bx + ry * by) + rz * bz, d: rd * bd }));
    assert(rx * bx == (ax * bx) * pd - (px * bx) * ad) by (nonlinear_arith)
        requires
            rx == ax * pd - px * ad,
    ;
    assert((px * bx) * ad == (kn * (bx * bx)) * ad) by (nonlinear_arith)
        requires
            px == kn * bx,
    ;
    assert(ry * by == (ay * by) * pd - (py * by) * ad) by (nonlinear_arith)
        requires
            ry == ay * pd - py * ad,
    ;
    assert((py * by) * ad == (kn * (by * by)) * ad) by (nonlinear_arith)
        requires
            py == kn * by,
    ;
    assert(rz * bz == (az * bz) * pd - (pz * bz) * ad) by (nonlinear_arith)
        requires
            rz == az * pd - pz * ad,
    ;
    assert((pz * bz) * ad == (kn * (bz * bz)) * ad) by (nonlinear_arith)
        requires
            pz == kn * bz,
    ;
    assert((ax * bx) * pd + (ay * by) * pd == ((ax * bx) + (ay * by)) * pd) by (nonlinear_arith);
    assert(((ax * bx) + (ay * by)) * pd + (az * bz) * pd == (((ax * bx) + (ay * by)) + (az * bz))
        * pd) by (nonlinear_arith);
    assert((kn * (bx * bx)) * ad + (kn * (by * by)) * ad == (kn * ((bx * bx) + (by * by))) * ad)
        by (nonlinear_arith);
    assert((kn * ((bx * bx) + (by * by))) * ad + (kn * (bz * bz)) * ad == (kn * (((bx * bx) + (by
        * by)) + (bz * bz))) * ad) by (nonlinear_arith);
    assert(p * pd - (kn * q) * ad == 0) by (nonlinear_arith)
        requires
            pd == kd * bd,
            kd == (ad * bd) * q,
            kn == p * (bd * bd),
    ;
    assert((rx * bx + ry * by) + rz * bz == 0);
    assert(o.n * rat_zero().d == rat_zero().n * o.d) by (nonlinear_arith)
        requires
            o.n == 0,
    ;
}

/// The cofactor inverse is a left inverse: `inv(M) * M == identity` for
/// every invertible `M`.
pub proof fn lemma_inv_left(m: M3)
    requires
        m3_wf(m),
        m3_det(m).n != 0,
    ensures
        m3_eq(m3_mul(m3_inv(m), m), m3_identity()),
{
    let ax: int = m.c0.x;
    let ay: int = m.c0.y;
    let az: int = m.c0.z;
    let ad: int = m.c0.d;
    let bx: int = m.c1.x;
    let by: int = m.c1.y;
    let bz: int = m.c1.z;
    let bd: int = m.c1.d;
    let cx: int = m.c2.x;
    let cy: int = m.c2.y;
    let cz: int = m.c2.z;
    let cd: int = m.c2.d;
    let u1: int = by * cz - bz * cy;
    let u2: int = bz * cx - bx * cz;
    let u3: int = bx * cy - by * cx;
    let v1: int = cy * az - cz * ay;
    let v2: int = cz * ax - cx * az;
    let v3: int = cx * ay - cy * ax;
    let w1: int = ay * bz - az * by;
    let w2: int = az * bx - ax * bz;
    let w3: int = ax * by - ay * bx;
    let dn: int = (w1 * cx + w2 * cy) + w3 * cz;
    let n = m3_inv(m);
    assert(n.c0 == (V3 { x: u1 * ad, y: v1 * bd, z: w1 * cd, d: dn }));
    assert(n.c1 == (V3 { x: u2 * ad, y: v2 * bd, z: w2 * cd, d: dn }));
    assert(n.c2 == (V3 { x: u3 * ad, y: v3 * bd, z: w3 * cd, d: dn }));
    let p = m3_mul(n, m);
    assert(p.c0 == (V3 {
        x: (((u1 * ad) * ax) * (dn * dn) + ((u2 * ad) * ay) * (dn * dn)) + ((u3
            * ad) * az) * (dn * dn),
        y: (((v1 * bd) * ax) * (dn * dn) + ((v2 * bd) * ay) * (dn * dn)) + ((v3
            * bd) * az) * (dn * dn),
        z: (((w1 * cd) * ax) * (dn * dn) + ((w2 * cd) * ay) * (dn * dn)) + ((w3
            * cd) * az) * (dn * dn),
        d: ((dn * dn) * dn) * ad,
    }));
    assert(p.c1 == (V3 {
        x: (((u1 * ad) * bx) * (dn * dn) + ((u2 * ad) * by) * (dn * dn)) + ((u3
            * ad) * bz) * (dn * dn),
        y: (((v1 * bd) * bx) * (dn * dn) + ((v2 * bd) * by) * (dn * dn)) + ((v3
            * bd) * bz) * (dn * dn),
        z: (((w1 * cd) * bx) * (dn * dn) + ((w2 * cd) * by) * (dn * dn)) + ((w3
            * cd) * bz) * (dn * dn),
        d: ((dn * dn) * dn) * bd,
    }));
    assert(p.c2 == (V3 {
        x: (((u1 * ad) * cx) * (dn * dn) + ((u2 * ad) * cy) * (dn * dn)) + ((u3
            * ad) * cz) * (dn * dn),
        y: (((v1 * bd) * cx) * (dn * dn) + ((v2 * bd) * cy) * (dn * dn)) + ((v3
            * bd) * cz) * (dn * dn),
        z: (((w1 * cd) * cx) * (dn * dn) + ((w2 * cd) * cy) * (dn * dn)) + ((w3
            * cd) * cz) * (dn * dn),
        d: ((dn * dn) * dn) * cd,
    }));
    assert(w1 * cx == ay * (bz * cx) - az * (by * cx)) by (nonlinear_arith)
        requires
            w1 == ay * bz - az * by,
    ;
    assert(w2 * cy == az * (bx * cy) - ax * (bz * cy)) by (nonlinear_arith)
        requires
            w2 == az * bx - ax * bz,
    ;
    assert(w3 * cz == ax * (by * cz) - ay * (bx * cz)) by (nonlinear_arith)
        requires
            w3 == ax * by - ay * bx,
    ;
    assert(u1 * ax == ax * (by * cz) - ax * (bz * cy)) by (nonlinear_arith)
        requires
            u1 == by * cz - bz * cy,
    ;
    assert(u2 * ay == ay * (bz * cx) - ay * (bx * cz)) by (nonlinear_arith)
        requires
            u2 == bz * cx - bx * cz,
    ;
    assert(u3 * az == az * (bx * cy) - az * (by * cx)) by (nonlinear_arith)
        requires
            u3 == bx * cy - by * cx,
    ;
    assert((u1 * ax + u2 * ay) + u3 * az == dn);
    assert(((u1 * ad) * ax) * (dn * dn) == (u1 * ax) * (ad * (dn * dn))) by (nonlinear_arith);
    assert(((u2 * ad) * ay) * (dn * dn) == (u2 * ay) * (ad * (dn * dn))) by (nonlinear_arith);
    assert(((u3 * ad) * az) * (dn * dn) == (u3 * az) * (ad * (dn * dn))) by (nonlinear_arith);
    assert(((u1 * ax)) * (ad * (dn * dn)) + ((u2 * ay)) * (ad * (dn * dn)) == ((u1 * ax) + (u2 * ay)) * (ad * (dn * dn))) by (nonlinear_arith);
    assert(((u1 * ax) + (u2 * ay)) * (ad * (dn * dn)) + ((u3 * az)) * (ad * (dn * dn)) == (((u1 * ax) + (u2 * ay)) + (u3 * az)) * (ad * (dn * dn))) by (nonlinear_arith);
    assert((((u1 * ax) + (u2 * ay)) + (u3 * az)) * (ad * (dn * dn)) == ((dn * dn) * dn) * ad) by (nonlinear_arith)
        requires
            ((u1 * ax) + (u2 * ay)) + (u3 * az) == dn,
    ;
    assert(v1 * ax == (ax * az) * cy - (ax * ay) * cz) by (nonlinear_arith)
        requires
            v1 == cy * az - cz * ay,
    ;
    assert(v2 * ay == (ax * ay) * cz - (ay * az) * cx) by (nonlinear_arith)
        requires
            v2 == cz * ax - cx * az,
    ;
    assert(v3 * az == (ay * az) * cx - (ax * az) * cy) by (nonlinear_arith)
        requires
            v3 == cx * ay - cy * ax,
    ;
    assert((v1 * ax + v2 * ay) + v3 * az == 0);
    assert(((v1 * bd) * ax) * (dn * dn) == (v1 * ax) * (bd * (dn * dn))) by (nonlinear_arith);
    assert(((v2 * bd) * ay) * (dn * dn) == (v2 * ay) * (bd * (dn * dn))) by (nonlinear_arith);
    assert(((v3 * bd) * az) * (dn * dn) == (v3 * az) * (bd * (dn * dn))) by (nonlinear_arith);
    assert(((v1 * ax)) * (bd * (dn * dn)) + ((v2 * ay)) * (bd * (dn * dn)) == ((v1 * ax) + (v2 * ay)) * (bd * (dn * dn))) by (nonlinear_arith);
    assert(((v1 * ax) + (v2 * ay)) * (bd * (dn * dn)) + ((v3 * az)) * (bd * (dn * dn)) == (((v1 * ax) + (v2 * ay)) + (v3 * az)) * (bd * (dn * dn))) by (nonlinear_arith);
    assert((((v1 * ax) + (v2 * ay)) + (v3 * az)) * (bd * (dn * dn)) == 0) by (nonlinear_arith)
        requires
            ((v1 * ax) + (v2 * ay)) + (v3 * az) == 0,
    ;
    assert(w1 * ax == (ax * ay) * bz - (ax * az) * by) by (nonlinear_arith)
        requires
            w1 == ay * bz - az * by,
    ;
    assert(w2 * ay == (ay * az) * bx - (ax * ay) * bz) by (nonlinear_arith)
        requires
            w2 == az * bx - ax * bz,
    ;
    assert(w3 * az == (ax * az) * by - (ay * az) * bx) by (nonlinear_arith)
        requires
            w3 == ax * by - ay * bx,
    ;
    assert((w1 * ax + w2 * ay) + w3 * az == 0);
    assert(((w1 * cd) * ax) * (dn * dn) == (w1 * ax) * (cd * (dn * dn))) by (nonlinear_arith);
    assert(((w2 * cd) * ay) * (dn * dn) == (w2 * ay) * (cd * (dn * dn))) by (nonlinear_arith);
    assert(((w3 * cd) * az) * (dn * dn) == (w3 * az) * (cd * (dn * dn))) by (nonlinear_arith);
    assert(((w1 * ax)) * (cd * (dn * dn)) + ((w2 * ay)) * (cd * (dn * dn)) == ((w1 * ax) + (w2 * ay)) * (cd * (dn * dn))) by (nonlinear_arith);
    assert(((w1 * ax) + (w2 * ay)) * (cd * (dn * dn)) + ((w3 * az)) * (cd * (dn * dn)) == (((w1 * ax) + (w2 * ay)) + (w3 * az)) * (cd * (dn * dn))) by (nonlinear_arith);
    assert((((w1 * ax) + (w2 * ay)) + (w3 * az)) * (cd * (dn * dn)) == 0) by (nonlinear_arith)
        requires
            ((w1 * ax) + (w2 * ay)) + (w3 * az) == 0,
    ;
    assert(u1 * bx == (bx * by) * cz - (bx * bz) * cy) by (nonlinear_arith)
        requires
            u1 == by * cz - bz * cy,
    ;
    assert(u2 * by == (by * bz) * cx - (bx * by) * cz) by (nonlinear_arith)
        requires
            u2 == bz * cx - bx * cz,
    ;
    assert(u3 * bz == (bx * bz) * cy - (by * bz) * cx) by (nonlinear_arith)
        requires
            u3 == bx * cy - by * cx,
    ;
    assert((u1 * bx + u2 * by) + u3 * bz == 0);
    assert(((u1 * ad) * bx) * (dn * dn) == (u1 * bx) * (ad * (dn * dn))) by (nonlinear_arith);
    assert(((u2 * ad) * by) * (dn * dn) == (u2 * by) * (ad * (dn * dn))) by (nonlinear_arith);
    assert(((u3 * ad) * bz) * (dn * dn) == (u3 * bz) * (ad * (dn * dn))) by (nonlinear_arith);
    assert(((u1 * bx)) * (ad * (dn * dn)) + ((u2 * by)) * (ad * (dn * dn)) == ((u1 * bx) + (u2 * by)) * (ad * (dn * dn))) by (nonlinear_arith);
    assert(((u1 * bx) + (u2 * by)) * (ad * (dn * dn)) + ((u3 * bz)) * (ad * (dn * dn)) == (((u1 * bx) + (u2 * by)) + (u3 * bz)) * (ad * (dn * dn))) by (nonlinear_arith);
    assert((((u1 * bx) + (u2 * by)) + (u3 * bz)) * (ad * (dn * dn)) == 0) by (nonlinear_arith)
        requires
            ((u1 * bx) + (u2 * by)) + (u3 * bz) == 0,
    ;
    assert(v1 * bx == az * (bx * cy) - ay * (bx * cz)) by (nonlinear_arith)
        requires
            v1 == cy * az - cz * ay,
    ;
    assert(v2 * by == ax * (by * cz) - az * (by * cx)) by (nonlinear_arith)
        requires
            v2 == cz * ax - cx * az,
    ;
    assert(v3 * bz == ay * (bz * cx) - ax * (bz * cy)) by (nonlinear_arith)
        requires
            v3 == cx * ay - cy * ax,
    ;
    assert((v1 * bx + v2 * by) + v3 * bz == dn);
    assert(((v1 * bd) * bx) * (dn * dn) == (v1 * bx) * (bd * (dn * dn))) by (nonlinear_arith);
    assert(((v2 * bd) * by) * (dn * dn) == (v2 * by) * (bd * (dn * dn))) by (nonlinear_arith);
    assert(((v3 * bd) * bz) * (dn * dn) == (v3 * bz) * (bd * (dn * dn))) by (nonlinear_arith);
    assert(((v1 * bx)) * (bd * (dn * dn)) + ((v2 * by)) * (bd * (dn * dn)) == ((v1 * bx) + (v2 * by)) * (bd * (dn * dn))) by (nonlinear_arith);
    assert(((v1 * bx) + (v2 * by)) * (bd * (dn * dn)) + ((v3 * bz)) * (bd * (dn * dn)) == (((v1 * bx) + (v2 * by)) + (v3 * bz)) * (bd * (dn * dn))) by (nonlinear_arith);
    assert((((v1 * bx) + (v2 * by)) + (v3 * bz)) * (bd * (dn * dn)) == ((dn * dn) * dn) * bd) by (nonlinear_arith)
        requires
            ((v1 * bx) + (v2 * by)) + (v3 * bz) == dn,
    ;
    assert(w1 * bx == (bx * bz) * ay - (bx * by) * az) by (nonlinear_arith)
        requires
            w1 == ay * bz - az * by,
    ;
    assert(w2 * by == (bx * by) * az - (by * bz) * ax) by (nonlinear_arith)
        requires
            w2 == az * bx - ax * bz,
    ;
    assert(w3 * bz == (by * bz) * ax - (bx * bz) * ay) by (nonlinear_arith)
        requires
            w3 == ax * by - ay * bx,
    ;
    assert((w1 * bx + w2 * by) + w3 * bz == 0);
    assert(((w1 * cd) * bx) * (dn * dn) == (w1 * bx) * (cd * (dn * dn))) by (nonlinear_arith);
    assert(((w2 * cd) * by) * (dn * dn) == (w2 * by) * (cd * (dn * dn))) by (nonlinear_arith);
    assert(((w3 * cd) * bz) * (dn * dn) == (w3 * bz) * (cd * (dn * dn))) by (nonlinear_arith);
    assert(((w1 * bx)) * (cd * (dn * dn)) + ((w2 * by)) * (cd * (dn * dn)) == ((w1 * bx) + (w2 * by)) * (cd * (dn * dn))) by (nonlinear_arith);
    assert(((w1 * bx) + (w2 * by)) * (cd * (dn * dn)) + ((w3 * bz)) * (cd * (dn * dn)) == (((w1 * bx) + (w2 * by)) + (w3 * bz)) * (cd * (dn * dn))) by (nonlinear_arith);
    assert((((w1 * bx) + (w2 * by)) + (w3 * bz)) * (cd * (dn * dn)) == 0) by (nonlinear_arith)
        requires
            ((w1 * bx) + (w2 * by)) + (w3 * bz) == 0,
    ;
    assert(u1 * cx == (cx * cz) * by - (cx * cy) * bz) by (nonlinear_arith)
        requires
            u1 == by * cz - bz * cy,
    ;
    assert(u2 * cy == (cx * cy) * bz - (cy * cz) * bx) by (nonlinear_arith)
        requires
            u2 == bz * cx - bx * cz,
    ;
    assert(u3 * cz == (cy * cz) * bx - (cx * cz) * by) by (nonlinear_arith)
        requires
            u3 == bx * cy - by * cx,
    ;
    assert((u1 * cx + u2 * cy) + u3 * cz == 0);
    assert(((u1 * ad) * cx) * (dn * dn) == (u1 * cx) * (ad * (dn * dn))) by (nonlinear_arith);
    assert(((u2 * ad) * cy) * (dn * dn) == (u2 * cy) * (ad * (dn * dn))) by (nonlinear_arith);
    assert(((u3 * ad) * cz) * (dn * dn) == (u3 * cz) * (ad * (dn * dn))) by (nonlinear_arith);
    assert(((u1 * cx)) * (ad * (dn * dn)) + ((u2 * cy)) * (ad * (dn * dn)) == ((u1 * cx) + (u2 * cy)) * (ad * (dn * dn))) by (nonlinear_arith);
    assert(((u1 * cx) + (u2 * cy)) * (ad * (dn * dn)) + ((u3 * cz)) * (ad * (dn * dn)) == (((u1 * cx) + (u2 * cy)) + (u3 * cz)) * (ad * (dn * dn))) by (nonlinear_arith);
    assert((((u1 * cx) + (u2 * cy)) + (u3 * cz)) * (ad * (dn * dn)) == 0) by (nonlinear_arith)
        requires
            ((u1 * cx) + (u2 * cy)) + (u3 * cz) == 0,
    ;
    assert(v1 * cx == (cx * cy) * az - (cx * cz) * ay) by (nonlinear_arith)
        requires
            v1 == cy * az - cz * ay,
    ;
    assert(v2 * cy == (cy * cz) * ax - (cx * cy) * az) by (nonlinear_arith)
        requires
            v2 == cz * ax - cx * az,
    ;
    assert(v3 * cz == (cx * cz) * ay - (cy * cz) * ax) by (nonlinear_arith)
        requires
            v3 == cx * ay - cy * ax,
    ;
    assert((v1 * cx + v2 * cy) + v3 * cz == 0);
    assert(((v1 * bd) * cx) * (dn * dn) == (v1 * cx) * (bd * (dn * dn))) by (nonlinear_arith);
    assert(((v2 * bd) * cy) * (dn * dn) == (v2 * cy) * (bd * (dn * dn))) by (nonlinear_arith);
    assert(((v3 * bd) * cz) * (dn * dn) == (v3 * cz) * (bd * (dn * dn))) by (nonlinear_arith);
    assert(((v1 * cx)) * (bd * (dn * dn)) + ((v2 * cy)) * (bd * (dn * dn)) == ((v1 * cx) + (v2 * cy)) * (bd * (dn * dn))) by (nonlinear_arith);
    assert(((v1 * cx) + (v2 * cy)) * (bd * (dn * dn)) + ((v3 * cz)) * (bd * (dn * dn)) == (((v1 * cx) + (v2 * cy)) + (v3 * cz)) * (bd * (dn * dn))) by (nonlinear_arith);
    assert((((v1 * cx) + (v2 * cy)) + (v3 * cz)) * (bd * (dn * dn)) == 0) by (nonlinear_arith)
        requires
            ((v1 * cx) + (v2 * cy)) + (v3 * cz) == 0,
    ;
    assert(w1 * cx == ay * (bz * cx) - az * (by * cx)) by (nonlinear_arith)
        requires
            w1 == ay * bz - az * by,
    ;
    assert(w2 * cy == az * (bx * cy) - ax * (bz * cy)) by (nonlinear_arith)
        requires
            w2 == az * bx - ax * bz,
    ;
    assert(w3 * cz == ax * (by * cz) - ay * (bx * cz)) by (nonlinear_arith)
        requires
            w3 == ax * by - ay * bx,
    ;
    assert((w1 * cx + w2 * cy) + w3 * cz == dn);
    assert(((w1 * cd) * cx) * (dn * dn) == (w1 * cx) * (cd * (dn * dn))) by (nonlinear_arith);
    assert(((w2 * cd) * cy) * (dn * dn) == (w2 * cy) * (cd * (dn * dn))) by (nonlinear_arith);
    assert(((w3 * cd) * cz) * (dn * dn) == (w3 * cz) * (cd * (dn * dn))) by (nonlinear_arith);
    assert(((w1 * cx)) * (cd * (dn * dn)) + ((w2 * cy)) * (cd * (dn * dn)) == ((w1 * cx) + (w2 * cy)) * (cd * (dn * dn))) by (nonlinear_arith);
    assert(((w1 * cx) + (w2 * cy)) * (cd * (dn * dn)) + ((w3 * cz)) * (cd * (dn * dn)) == (((w1 * cx) + (w2 * cy)) + (w3 * cz)) * (cd * (dn * dn))) by (nonlinear_arith);
    assert((((w1 * cx) + (w2 * cy)) + (w3 * cz)) * (cd * (dn * dn)) == ((dn * dn) * dn) * cd) by (nonlinear_arith)
        requires
            ((w1 * cx) + (w2 * cy)) + (w3 * cz) == dn,
    ;
    assert(p.c0.x == ((dn * dn) * dn) * ad);
    assert(p.c0.y == 0);
    assert(p.c0.z == 0);
    assert(p.c0.x * 1 == 1 * p.c0.d && p.c0.y * 1 == 0 * p.c0.d && p.c0.z * 1 == 0 * p.c0.d) by (nonlinear_arith)
        requires
            p.c0.x == p.c0.d,
            p.c0.y == 0,
            p.c0.z == 0,
    ;
    assert(v3_eq(p.c0, v3_unit_x()));
    assert(p.c1.x == 0);
    assert(p.c1.y == ((dn * dn) * dn) * bd);
    assert(p.c1.z == 0);
    assert(p.c1.x * 1 == 0 * p.c1.d && p.c1.y * 1 == 1 * p.c1.d && p.c1.z * 1 == 0 * p.c1.d) by (nonlinear_arith)
        requires
            p.c1.x == 0,
            p.c1.y == p.c1.d,
            p.c1.z == 0,
    ;
    assert(v3_eq(p.c1, v3_unit_y()));
    assert(p.c2.x == 0);
    assert(p.c2.y == 0);
    assert(p.c2.z == ((dn * dn) * dn) * cd);
    assert(p.c2.x * 1 == 0 * p.c2.d && p.c2.y * 1 == 0 * p.c2.d && p.c2.z * 1 == 1 * p.c2.d) by (nonlinear_arith)
        requires
            p.c2.x == 0,
            p.c2.y == 0,
            p.c2.z == p.c2.d,
    ;
    assert(v3_eq(p.c2, v3_unit_z()));
}

/// The cofactor inverse is a right inverse: `M * inv(M) == identity` for
/// every invertible `M`.
pub proof fn lemma_inv_right(m: M3)
    requires
        m3_wf(m),
        m3_det(m).n != 0,
    ensures
        m3_eq(m3_mul(m, m3_inv(m)), m3_identity()),
{
    let ax: int = m.c0.x;
    let ay: int = m.c0.y;
    let az: int = m.c0.z;
    let ad: int = m.c0.d;
    let bx: int = m.c1.x;
    let by: int = m.c1.y;
    let bz: int = m.c1.z;
    let bd: int = m.c1.d;
    let cx: int = m.c2.x;
    let cy: int = m.c2.y;
    let cz: int = m.c2.z;
    let cd: int = m.c2.d;
    let u1: int = by * cz - bz * cy;
    let u2: int = bz * cx - bx * cz;
    let u3: int = bx * cy - by * cx;
    let v1: int = cy * az - cz * ay;
    let v2: int = cz * ax - cx * az;
    let v3: int = cx * ay - cy * ax;
    let w1: int = ay * bz - az * by;
    let w2: int = az * bx - ax * bz;
    let w3: int = ax * by - ay * bx;
    let dn: int = (w1 * cx + w2 * cy) + w3 * cz;
    let n = m3_inv(m);
    assert(n.c0 == (V3 { x: u1 * ad, y: v1 * bd, z: w1 * cd, d: dn }));
    assert(n.c1 == (V3 { x: u2 * ad, y: v2 * bd, z: w2 * cd, d: dn }));
    assert(n.c2 == (V3 { x: u3 * ad, y: v3 * bd, z: w3 * cd, d: dn }));
    let p = m3_mul(m, n);
    assert(p.c0 == (V3 {
        x: ((ax * (u1 * ad)) * (bd * cd) + (bx * (v1 * bd)) * (ad * cd)) + (cx * (w1
            * cd)) * (ad * bd),
        y: ((ay * (u1 * ad)) * (bd * cd) + (by * (v1 * bd)) * (ad * cd)) + (cy * (w1
            * cd)) * (ad * bd),
        z: ((az * (u1 * ad)) * (bd * cd) + (bz * (v1 * bd)) * (ad * cd)) + (cz * (w1
            * cd)) * (ad * bd),
        d: ((ad * bd) * cd) * dn,
    }));
    assert(p.c1 == (V3 {
        x: ((ax * (u2 * ad)) * (bd * cd) + (bx * (v2 * bd)) * (ad * cd)) + (cx * (w2
            * cd)) * (ad * bd),
        y: ((ay * (u2 * ad)) * (bd * cd) + (by * (v2 * bd)) * (ad * cd)) + (cy * (w2
            * cd)) * (ad * bd),
        z: ((az * (u2 * ad)) * (bd * cd) + (bz * (v2 * bd)) * (ad * cd)) + (cz * (w2
            * cd)) * (ad * bd),
        d: ((ad * bd) * cd) * dn,
    }));
    assert(p.c2 == (V3 {
        x: ((ax * (u3 * ad)) * (bd * cd) + (bx * (v3 * bd)) * (ad * cd)) + (cx * (w3
            * cd)) * (ad * bd),
        y: ((ay * (u3 * ad)) * (bd * cd) + (by * (v3 * bd)) * (ad * cd)) + (cy * (w3
            * cd)) * (ad * bd),
        z: ((az * (u3 * ad)) * (bd * cd) + (bz * (v3 * bd)) * (ad * cd)) + (cz * (w3
            * cd)) * (ad * bd),
        d: ((ad * bd) * cd) * dn,
    }));
    assert(w1 * cx == ay * (bz * cx) - az * (by * cx)) by (nonlinear_arith)
        requires
            w1 == ay * bz - az * by,
    ;
    assert(w2 * cy == az * (bx * cy) - ax * (bz * cy)) by (nonlinear_arith)
        requires
            w2 == az * bx - ax * bz,
    ;
    assert(w3 * cz == ax * (by * cz) - ay * (bx * cz)) by (nonlinear_arith)
        requires
            w3 == ax * by - ay * bx,
    ;
    assert(ax * u1 == ax * (by * cz) - ax * (bz * cy)) by (nonlinear_arith)
        requires
            u1 == by * cz - bz * cy,
    ;
    assert(bx * v1 == az * (bx * cy) - ay * (bx * cz)) by (nonlinear_arith)
        requires
            v1 == cy * az - cz * ay,
    ;
    assert(cx * w1 == ay * (bz * cx) - az * (by * cx)) by (nonlinear_arith)
        requires
            w1 == ay * bz - az * by,
    ;
    assert((ax * u1 + bx * v1) + cx * w1 == dn);
    assert((ax * (u1 * ad)) * (bd * cd) == (ax * u1) * ((ad * bd) * cd)) by (nonlinear_arith);
    assert((bx * (v1 * bd)) * (ad * cd) == (bx * v1) * ((ad * bd) * cd)) by (nonlinear_arith);
    assert((cx * (w1 * cd)) * (ad * bd) == (cx * w1) * ((ad * bd) * cd)) by (nonlinear_arith);
    assert(((ax * u1)) * ((ad * bd) * cd) + ((bx * v1)) * ((ad * bd) * cd) == ((ax * u1) + (bx * v1)) * ((ad * bd) * cd)) by (nonlinear_arith);
    assert(((ax * u1) + (bx * v1)) * ((ad * bd) * cd) + ((cx * w1)) * ((ad * bd) * cd) == (((ax * u1) + (bx * v1)) + (cx * w1)) * ((ad * bd) * cd)) by (nonlinear_arith);
    assert((((ax * u1) + (bx * v1)) + (cx * w1)) * ((ad * bd) * cd) == ((ad * bd) * cd) * dn) by (nonlinear_arith)
        requires
            ((ax * u1) + (bx * v1)) + (cx * w1) == dn,
    ;
    assert(ay * u1 == ay * (by * cz) - ay * (bz * cy)) by (nonlinear_arith)
        requires
            u1 == by * cz - bz * cy,
    ;
    assert(by * v1 == az * (by * cy) - ay * (by * cz)) by (nonlinear_arith)
        requires
            v1 == cy * az - cz * ay,
    ;
    assert(cy * w1 == ay * (bz * cy) - az * (by * cy)) by (nonlinear_arith)
        requires
            w1 == ay * bz - az * by,
    ;
    assert((ay * u1 + by * v1) + cy * w1 == 0);
    assert((ay * (u1 * ad)) * (bd * cd) == (ay * u1) * ((ad * bd) * cd)) by (nonlinear_arith);
    assert((by * (v1 * bd)) * (ad * cd) == (by * v1) * ((ad * bd) * cd)) by (nonlinear_arith);
    assert((cy * (w1 * cd)) * (ad * bd) == (cy * w1) * ((ad * bd) * cd)) by (nonlinear_arith);
    assert(((ay * u1)) * ((ad * bd) * cd) + ((by * v1)) * ((ad * bd) * cd) == ((ay * u1) + (by * v1)) * ((ad * bd) * cd)) by (nonlinear_arith);
    assert(((ay * u1) + (by * v1)) * ((ad * bd) * cd) + ((cy * w1)) * ((ad * bd) * cd) == (((ay * u1) + (by * v1)) + (cy * w1)) * ((ad * bd) * cd)) by (nonlinear_arith);
    assert((((ay * u1) + (by * v1)) + (cy * w1)) * ((ad * bd) * cd) == 0) by (nonlinear_arith)
        requires
            ((ay * u1) + (by * v1)) + (cy * w1) == 0,
    ;
    assert(az * u1 == az * (by * cz) - az * (bz * cy)) by (nonlinear_arith)
        requires
            u1 == by * cz - bz * cy,
    ;
    assert(bz * v1 == az * (bz * cy) - ay * (bz * cz)) by (nonlinear_arith)
        requires
            v1 == cy * az - cz * ay,
    ;
    assert(cz * w1 == ay * (bz * cz) - az * (by * cz)) by (nonlinear_arith)
        requires
            w1 == ay * bz - az * by,
    ;
    assert((az * u1 + bz * v1) + cz * w1 == 0);
    assert((az * (u1 * ad)) * (bd * cd) == (az * u1) * ((ad * bd) * cd)) by (nonlinear_arith);
    assert((bz * (v1 * bd)) * (ad * cd) == (bz * v1) * ((ad * bd) * cd)) by (nonlinear_arith);
    assert((cz * (w1 * cd)) * (ad * bd) == (cz * w1) * ((ad * bd) * cd)) by (nonlinear_arith);
    assert(((az * u1)) * ((ad * bd) * cd) + ((bz * v1)) * ((ad * bd) * cd) == ((az * u1) + (bz * v1)) * ((ad * bd) * cd)) by (nonlinear_arith);
    assert(((az * u1) + (bz * v1)) * ((ad * bd) * cd) + ((cz * w1)) * ((ad * bd) * cd) == (((az * u1) + (bz * v1)) + (cz * w1)) * ((ad * bd) * cd)) by (nonlinear_arith);
    assert((((az * u1) + (bz * v1)) + (cz * w1)) * ((ad * bd) * cd) == 0) by (nonlinear_arith)
        requires
            ((az * u1) + (bz * v1)) + (cz * w1) == 0,
    ;
    assert(ax * u2 == ax * (bz * cx) - ax * (bx * cz)) by (nonlinear_arith)
        requires
            u2 == bz * cx - bx * cz,
    ;
    assert(bx * v2 == ax * (bx * cz) - az * (bx * cx)) by (nonlinear_arith)
        requires
            v2 == cz * ax - cx * az,
    ;
    assert(cx * w2 == az * (bx * cx) - ax * (bz * cx)) by (nonlinear_arith)
        requires
            w2 == az * bx - ax * bz,
    ;
    assert((ax * u2 + bx * v2) + cx * w2 == 0);
    assert((ax * (u2 * ad)) * (bd * cd) == (ax * u2) * ((ad * bd) * cd)) by (nonlinear_arith);
    assert((bx * (v2 * bd)) * (ad * cd) == (bx * v2) * ((ad * bd) * cd)) by (nonlinear_arith);
    assert((cx * (w2 * cd)) * (ad * bd) == (cx * w2) * ((ad * bd) * cd)) by (nonlinear_arith);
    assert(((ax * u2)) * ((ad * bd) * cd) + ((bx * v2)) * ((ad * bd) * cd) == ((ax * u2) + (bx * v2)) * ((ad * bd) * cd)) by (nonlinear_arith);
    assert(((ax * u2) + (bx * v2)) * ((ad * bd) * cd) + ((cx * w2)) * ((ad * bd) * cd) == (((ax * u2) + (bx * v2)) + (cx * w2)) * ((ad * bd) * cd)) by (nonlinear_arith);
    assert((((ax * u2) + (bx * v2)) + (cx * w2)) * ((ad * bd) * cd) == 0) by (nonlinear_arith)
        requires
            ((ax * u2) + (bx * v2)) + (cx * w2) == 0,
    ;
    assert(ay * u2 == ay * (bz * cx) - ay * (bx * cz)) by (nonlinear_arith)
        requires
            u2 == bz * cx - bx * cz,
    ;
    assert(by * v2 == ax * (by * cz) - az * (by * cx)) by (nonlinear_arith)
        requires
            v2 == cz * ax - cx * az,
    ;
    assert(cy * w2 == az * (bx * cy) - ax * (bz * cy)) by (nonlinear_arith)
        requires
            w2 == az * bx - ax * bz,
    ;
    assert((ay * u2 + by * v2) + cy * w2 == dn);
    assert((ay * (u2 * ad)) * (bd * cd) == (ay * u2) * ((ad * bd) * cd)) by (nonlinear_arith);
    assert((by * (v2 * bd)) * (ad * cd) == (by * v2) * ((ad * bd) * cd)) by (nonlinear_arith);
    assert((cy * (w2 * cd)) * (ad * bd) == (cy * w2) * ((ad * bd) * cd)) by (nonlinear_arith);
    assert(((ay * u2)) * ((ad * bd) * cd) + ((by * v2)) * ((ad * bd) * cd) == ((ay * u2) + (by * v2)) * ((ad * bd) * cd)) by (nonlinear_arith);
    assert(((ay * u2) + (by * v2)) * ((ad * bd) * cd) + ((cy * w2)) * ((ad * bd) * cd) == (((ay * u2) + (by * v2)) + (cy * w2)) * ((ad * bd) * cd)) by (nonlinear_arith);
    assert((((ay * u2) + (by * v2)) + (cy * w2)) * ((ad * bd) * cd) == ((ad * bd) * cd) * dn) by (nonlinear_arith)
        requires
            ((ay * u2) + (by * v2)) + (cy * w2) == dn,
    ;
    assert(az * u2 == az * (bz * cx) - az * (bx * cz)) by (nonlinear_arith)
        requires
            u2 == bz * cx - bx * cz,
    ;
    assert(bz * v2 == ax * (bz * cz) - az * (bz * cx)) by (nonlinear_arith)
        requires
            v2 == cz * ax - cx * az,
    ;
    assert(cz * w2 == az * (bx * cz) - ax * (bz * cz)) by (nonlinear_arith)
        requires
            w2 == az * bx - ax * bz,
    ;
    assert((az * u2 + bz * v2) + cz * w2 == 0);
    assert((az * (u2 * ad)) * (bd * cd) == (az * u2) * ((ad * bd) * cd)) by (nonlinear_arith);
    assert((bz * (v2 * bd)) * (ad * cd) == (bz * v2) * ((ad * bd) * cd)) by (nonlinear_arith);
    assert((cz * (w2 * cd)) * (ad * bd) == (cz * w2) * ((ad * bd) * cd)) by (nonlinear_arith);
    assert(((az * u2)) * ((ad * bd) * cd) + ((bz * v2)) * ((ad * bd) * cd) == ((az * u2) + (bz * v2)) * ((ad * bd) * cd)) by (nonlinear_arith);
    assert(((az * u2) + (bz * v2)) * ((ad * bd) * cd) + ((cz * w2)) * ((ad * bd) * cd) == (((az * u2) + (bz * v2)) + (cz * w2)) * ((ad * bd) * cd)) by (nonlinear_arith);
    assert((((az * u2) + (bz * v2)) + (cz * w2)) * ((ad * bd) * cd) == 0) by (nonlinear_arith)
        requires
            ((az * u2) + (bz * v2)) + (cz * w2) == 0,
    ;
    assert(ax * u3 == ax * (bx * cy) - ax * (by * cx)) by (nonlinear_arith)
        requires
            u3 == bx * cy - by * cx,
    ;
    assert(bx * v3 == ay * (bx * cx) - ax * (bx * cy)) by (nonlinear_arith)
        requires
            v3 == cx * ay - cy * ax,
    ;
    assert(cx * w3 == ax * (by * cx) - ay * (bx * cx)) by (nonlinear_arith)
        requires
            w3 == ax * by - ay * bx,
    ;
    assert((ax * u3 + bx * v3) + cx * w3 == 0);
    assert((ax * (u3 * ad)) * (bd * cd) == (ax * u3) * ((ad * bd) * cd)) by (nonlinear_arith);
    assert((bx * (v3 * bd)) * (ad * cd) == (bx * v3) * ((ad * bd) * cd)) by (nonlinear_arith);
    assert((cx * (w3 * cd)) * (ad * bd) == (cx * w3) * ((ad * bd) * cd)) by (nonlinear_arith);
    assert(((ax * u3)) * ((ad * bd) * cd) + ((bx * v3)) * ((ad * bd) * cd) == ((ax * u3) + (bx * v3)) * ((ad * bd) * cd)) by (nonlinear_arith);
    assert(((ax * u3) + (bx * v3)) * ((ad * bd) * cd) + ((cx * w3)) * ((ad * bd) * cd) == (((ax * u3) + (bx * v3)) + (cx * w3)) * ((ad * bd) * cd)) by (nonlinear_arith);
    assert((((ax * u3) + (bx * v3)) + (cx * w3)) * ((ad * bd) * cd) == 0) by (nonlinear_arith)
        requires
            ((ax * u3) + (bx * v3)) + (cx * w3) == 0,
    ;
    assert(ay * u3 == ay * (bx * cy) - ay * (by * cx)) by (nonlinear_arith)
        requires
            u3 == bx * cy - by * cx,
    ;
    assert(by * v3 == ay * (by * cx) - ax * (by * cy)) by (nonlinear_arith)
        requires
            v3 == cx * ay - cy * ax,
    ;
    assert(cy * w3 == ax * (by * cy) - ay * (bx * cy)) by (nonlinear_arith)
        requires
            w3 == ax * by - ay * bx,
    ;
    assert((ay * u3 + by * v3) + cy * w3 == 0);
    assert((ay * (u3 * ad)) * (bd * cd) == (ay * u3) * ((ad * bd) * cd)) by (nonlinear_arith);
    assert((by * (v3 * bd)) * (ad * cd) == (by * v3) * ((ad * bd) * cd)) by (nonlinear_arith);
    assert((cy * (w3 * cd)) * (ad * bd) == (cy * w3) * ((ad * bd) * cd)) by (nonlinear_arith);
    assert(((ay * u3)) * ((ad * bd) * cd) + ((by * v3)) * ((ad * bd) * cd) == ((ay * u3) + (by * v3)) * ((ad * bd) * cd)) by (nonlinear_arith);
    assert(((ay * u3) + (by * v3)) * ((ad * bd) * cd) + ((cy * w3)) * ((ad * bd) * cd) == (((ay * u3) + (by * v3)) + (cy * w3)) * ((ad * bd) * cd)) by (nonlinear_arith);
    assert((((ay * u3) + (by * v3)) + (cy * w3)) * ((ad * bd) * cd) == 0) by (nonlinear_arith)
        requires
            ((ay * u3) + (by * v3)) + (cy * w3) == 0,
    ;
    assert(az * u3 == az * (bx * cy) - az * (by * cx)) by (nonlinear_arith)
        requires
            u3 == bx * cy - by * cx,
    ;
    assert(bz * v3 == ay * (bz * cx) - ax * (bz * cy)) by (nonlinear_arith)
        requires
            v3 == cx * ay - cy * ax,
    ;
    assert(cz * w3 == ax * (by * cz) - ay * (bx * cz)) by (nonlinear_arith)
        requires
            w3 == ax * by - ay * bx,
    ;
    assert((az * u3 + bz * v3) + cz * w3 == dn);
    assert((az * (u3 * ad)) * (bd * cd) == (az * u3) * ((ad * bd) * cd)) by (nonlinear_arith);
    assert((bz * (v3 * bd)) * (ad * cd) == (bz * v3) * ((ad * bd) * cd)) by (nonlinear_arith);
    assert((cz * (w3 * cd)) * (ad * bd) == (cz * w3) * ((ad * bd) * cd)) by (nonlinear_arith);
    assert(((az * u3)) * ((ad * bd) * cd) + ((bz * v3)) * ((ad * bd) * cd) == ((az * u3) + (bz * v3)) * ((ad * bd) * cd)) by (nonlinear_arith);
    assert(((az * u3) + (bz * v3)) * ((ad * bd) * cd) + ((cz * w3)) * ((ad * bd) * cd) == (((az * u3) + (bz * v3)) + (cz * w3)) * ((ad * bd) * cd)) by (nonlinear_arith);
    assert((((az * u3) + (bz * v3)) + (cz * w3)) * ((ad * bd) * cd) == ((ad * bd) * cd) * dn) by (nonlinear_arith)
        requires
            ((az * u3) + (bz * v3)) + (cz * w3) == dn,
    ;
    assert(p.c0.x == ((ad * bd) * cd) * dn);
    assert(p.c0.y == 0);
    assert(p.c0.z == 0);
    assert(p.c0.x * 1 == 1 * p.c0.d && p.c0.y * 1 == 0 * p.c0.d && p.c0.z * 1 == 0 * p.c0.d) by (nonlinear_arith)
        requires
            p.c0.x == p.c0.d,
            p.c0.y == 0,
            p.c0.z == 0,
    ;
    assert(v3_eq(p.c0, v3_unit_x()));
    assert(p.c1.x == 0);
    assert(p.c1.y == ((ad * bd) * cd) * dn);
    assert(p.c1.z == 0);
    assert(p.c1.x * 1 == 0 * p.c1.d && p.c1.y * 1 == 1 * p.c1.d && p.c1.z * 1 == 0 * p.c1.d) by (nonlinear_arith)
        requires
            p.c1.x == 0,
            p.c1.y == p.c1.d,
            p.c1.z == 0,
    ;
    assert(v3_eq(p.c1, v3_unit_y()));
    assert(p.c2.x == 0);
    assert(p.c2.y == 0);
    assert(p.c2.z == ((ad * bd) * cd) * dn);
    assert(p.c2.x * 1 == 0 * p.c2.d && p.c2.y * 1 == 0 * p.c2.d && p.c2.z * 1 == 1 * p.c2.d) by (nonlinear_arith)
        requires
            p.c2.x == 0,
            p.c2.y == 0,
            p.c2.z == p.c2.d,
    ;
    assert(v3_eq(p.c2, v3_unit_z()));
}

/// The general rotation reduces to the axis rotations: about a unit axis,
/// `rot(s, c, axis)` equals `rot_x`, `rot_y` or `rot_z` for every sine and
/// cosine pair.
pub proof fn lemma_rot_reduces(s: Rat, c: Rat)
    requires
        s.d != 0,
        c.d != 0,
    ensures
        m3_eq(m3_rot(s, c, v3_unit_x()), m3_rot_x(s, c)),
        m3_eq(m3_rot(s, c, v3_unit_y()), m3_rot_y(s, c)),
        m3_eq(m3_rot(s, c, v3_unit_z()), m3_rot_z(s, c)),
{
    let rx = m3_rot(s, c, v3_unit_x());
    let ry = m3_rot(s, c, v3_unit_y());
    let rz = m3_rot(s, c, v3_unit_z());
    assert(rx.c0.x * (1) == (1) * rx.c0.d && rx.c0.y * (1) == (0) * rx.c0.d && rx.c0.z * (1) == (0) * rx.c0.d) by (nonlinear_arith)
        requires
            rx.c0.x == s.d * (c.n * (1 * 1) + (c.d - c.n) * (1 * 1)),
            rx.c0.y == s.d * ((c.d - c.n) * (1 * 0)) + s.n * (c.d * (1 * 0)),
            rx.c0.z == s.d * ((c.d - c.n) * (1 * 0)) - s.n * (c.d * (1 * 0)),
            rx.c0.d == (c.d * s.d) * (1 * 1),
    ;
    assert(v3_eq(rx.c0, m3_rot_x(s, c).c0));
    assert(rx.c1.x * (c.d * s.d) == (0) * rx.c1.d && rx.c1.y * (c.d * s.d) == (c.n * s.d) * rx.c1.d && rx.c1.z * (c.d * s.d) == (s.n * c.d) * rx.c1.d) by (nonlinear_arith)
        requires
            rx.c1.x == s.d * ((c.d - c.n) * (1 * 0)) - s.n * (c.d * (1 * 0)),
            rx.c1.y == s.d * (c.n * (1 * 1) + (c.d - c.n) * (0 * 0)),
            rx.c1.z == s.d * ((c.d - c.n) * (0 * 0)) + s.n * (c.d * (1 * 1)),
            rx.c1.d == (c.d * s.d) * (1 * 1),
    ;
    assert(v3_eq(rx.c1, m3_rot_x(s, c).c1));
    assert(rx.c2.x * (c.d * s.d) == (0) * rx.c2.d && rx.c2.y * (c.d * s.d) == (-(s.n * c.d)) * rx.c2.d && rx.c2.z * (c.d * s.d) == (c.n * s.d) * rx.c2.d) by (nonlinear_arith)
        requires
            rx.c2.x == s.d * ((c.d - c.n) * (1 * 0)) + s.n * (c.d * (1 * 0)),
            rx.c2.y == s.d * ((c.d - c.n) * (0 * 0)) - s.n * (c.d * (1 * 1)),
            rx.c2.z == s.d * (c.n * (1 * 1) + (c.d - c.n) * (0 * 0)),
            rx.c2.d == (c.d * s.d) * (1 * 1),
    ;
    assert(v3_eq(rx.c2, m3_rot_x(s, c).c2));
    assert(ry.c0.x * (c.d * s.d) == (c.n * s.d) * ry.c0.d && ry.c0.y * (c.d * s.d) == (0) * ry.c0.d && ry.c0.z * (c.d * s.d) == (-(s.n * c.d)) * ry.c0.d) by (nonlinear_arith)
        requires
            ry.c0.x == s.d * (c.n * (1 * 1) + (c.d - c.n) * (0 * 0)),
            ry.c0.y == s.d * ((c.d - c.n) * (0 * 1)) + s.n * (c.d * (1 * 0)),
            ry.c0.z == s.d * ((c.d - c.n) * (0 * 0)) - s.n * (c.d * (1 * 1)),
            ry.c0.d == (c.d * s.d) * (1 * 1),
    ;
    assert(v3_eq(ry.c0, m3_rot_y(s, c).c0));
    assert(ry.c1.x * (1) == (0) * ry.c1.d && ry.c1.y * (1) == (1) * ry.c1.d && ry.c1.z * (1) == (0) * ry.c1.d) by (nonlinear_arith)
        requires
            ry.c1.x == s.d * ((c.d - c.n) * (0 * 1)) - s.n * (c.d * (1 * 0)),
            ry.c1.y == s.d * (c.n * (1 * 1) + (c.d - c.n) * (1 * 1)),
            ry.c1.z == s.d * ((c.d - c.n) * (1 * 0)) + s.n * (c.d * (1 * 0)),
            ry.c1.d == (c.d * s.d) * (1 * 1),
    ;
    assert(v3_eq(ry.c1, m3_rot_y(s, c).c1));
    assert(ry.c2.x * (c.d * s.d) == (s.n * c.d) * ry.c2.d && ry.c2.y * (c.d * s.d) == (0) * ry.c2.d && ry.c2.z * (c.d * s.d) == (c.n * s.d) * ry.c2.d) by (nonlinear_arith)
        requires
            ry.c2.x == s.d * ((c.d - c.n) * (0 * 0)) + s.n * (c.d * (1 * 1)),
            ry.c2.y == s.d * ((c.d - c.n) * (1 * 0)) - s.n * (c.d * (1 * 0)),
            ry.c2.z == s.d * (c.n * (1 * 1) + (c.d - c.n) * (0 * 0)),
            ry.c2.d == (c.d * s.d) * (1 * 1),
    ;
    assert(v3_eq(ry.c2, m3_rot_y(s, c).c2));
    assert(rz.c0.x * (c.d * s.d) == (c.n * s.d) * rz.c0.d && rz.c0.y * (c.d * s.d) == (s.n * c.d) * rz.c0.d && rz.c0.z * (c.d * s.d) == (0) * rz.c0.d) by (nonlinear_arith)
        requires
            rz.c0.x == s.d * (c.n * (1 * 1) + (c.d - c.n) * (0 * 0)),
            rz.c0.y == s.d * ((c.d - c.n) * (0 * 0)) + s.n * (c.d * (1 * 1)),
            rz.c0.z == s.d * ((c.d - c.n) * (0 * 1)) - s.n * (c.d * (1 * 0)),
            rz.c0.d == (c.d * s.d) * (1 * 1),
    ;
    assert(v3_eq(rz.c0, m3_rot_z(s, c).c0));
    assert(rz.c1.x * (c.d * s.d) == (-(s.n * c.d)) * rz.c1.d && rz.c1.y * (c.d * s.d) == (c.n * s.d) * rz.c1.d && rz.c1.z * (c.d * s.d) == (0) * rz.c1.d) by (nonlinear_arith)
        requires
            rz.c1.x == s.d * ((c.d - c.n) * (0 * 0)) - s.n * (c.d * (1 * 1)),
            rz.c1.y == s.d * (c.n * (1 * 1) + (c.d - c.n) * (0 * 0)),
            rz.c1.z == s.d * ((c.d - c.n) * (0 * 1)) + s.n * (c.d * (1 * 0)),
            rz.c1.d == (c.d * s.d) * (1 * 1),
    ;
    assert(v3_eq(rz.c1, m3_rot_z(s, c).c1));
    assert(rz.c2.x * (1) == (0) * rz.c2.d && rz.c2.y * (1) == (0) * rz.c2.d && rz.c2.z * (1) == (1) * rz.c2.d) by (nonlinear_arith)
        requires
            rz.c2.x == s.d * ((c.d - c.n) * (0 * 1)) + s.n * (c.d * (1 * 0)),
            rz.c2.y == s.d * ((c.d - c.n) * (0 * 1)) - s.n * (c.d * (1 * 0)),
            rz.c2.z == s.d * (c.n * (1 * 1) + (c.d - c.n) * (1 * 1)),
            rz.c2.d == (c.d * s.d) * (1 * 1),
    ;
    assert(v3_eq(rz.c2, m3_rot_z(s, c).c2));
}

} // verus!
