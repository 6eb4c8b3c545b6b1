//! 4x4 affine transforms: a 3x3 linear part and a translation.
//!
//! The 4x4 form is kept block-wise: the linear columns and the translation
//! column, with the bottom row fixed at (0, 0, 0, 1) by construction.  No
//! constructor can disturb that row, and composition and inversion exploit
//! it instead of running a dense 4x4 elimination.

use vstd::prelude::*;
use crate::scalar::{Rat, Scalar, rat_wf};
use crate::vec3::{V3, Vec3, v3_wf, v3_eq, v3_eq_ok, v3_add, v3_add_ok, v3_neg, v3_neg_ok,
    v3_from_rats, v3_from_rats_ok, v3_zero};
use crate::mat3::{M3, Mat3, m3_wf, m3_eq, m3_eq_ok, m3_mul, m3_mul_ok, m3_mul_vec,
    m3_mul_vec_ok, m3_inv, m3_inv_ok, m3_det, m3_identity};

verus! {

/// Mathematical model of an affine transform: a linear part and a
/// translation.
pub ghost struct T4 {
    pub m: M3,
    pub t: V3,
}

pub open spec fn t4_wf(p: T4) -> bool {
    &&& m3_wf(p.m)
    &&& v3_wf(p.t)
}

/// Rational equality of the linear parts and the translations.
pub open spec fn t4_eq(p: T4, q: T4) -> bool {
    &&& m3_eq(p.m, q.m)
    &&& v3_eq(p.t, q.t)
}

pub open spec fn t4_identity() -> T4 {
    T4 { m: m3_identity(), t: v3_zero() }
}

/// The transform applied to a point: the linear part, then the translation.
pub open spec fn t4_point(p: T4, v: V3) -> V3 {
    v3_add(m3_mul_vec(p.m, v), p.t)
}

/// The transform applied to a direction: the linear part alone, no
/// translation.
pub open spec fn t4_dir(p: T4, v: V3) -> V3 {
    m3_mul_vec(p.m, v)
}

/// Composition: apply `q` first, then `p`.  The linear parts multiply and
/// the translation of `q` is carried through `p`.
pub open spec fn t4_mul(p: T4, q: T4) -> T4 {
    T4 { m: m3_mul(p.m, q.m), t: v3_add(m3_mul_vec(p.m, q.t), p.t) }
}

/// The affine inverse in closed form: the cofactor inverse of the linear
/// block, and as translation the old one carried backwards through it.
pub open spec fn t4_inv(p: T4) -> T4 {
    T4 { m: m3_inv(p.m), t: v3_neg(m3_mul_vec(m3_inv(p.m), p.t)) }
}

pub open spec fn t4_point_ok(p: T4, v: V3) -> bool {
    &&& m3_mul_vec_ok(p.m, v)
    &&& v3_add_ok(m3_mul_vec(p.m, v), p.t)
}

pub open spec fn t4_mul_ok(p: T4, q: T4) -> bool {
    &&& m3_mul_ok(p.m, q.m)
    &&& m3_mul_vec_ok(p.m, q.t)
    &&& v3_add_ok(m3_mul_vec(p.m, q.t), p.t)
}

pub open spec fn t4_inv_ok(p: T4) -> bool {
    &&& m3_inv_ok(p.m)
    &&& m3_mul_vec_ok(m3_inv(p.m), p.t)
    &&& v3_neg_ok(m3_mul_vec(m3_inv(p.m), p.t))
}

pub open spec fn t4_eq_ok(p: T4, q: T4) -> bool {
    &&& m3_eq_ok(p.m, q.m)
    &&& v3_eq_ok(p.t, q.t)
}

/// A 4x4 affine transform, kept as its linear block and its translation
/// column; the bottom row is (0, 0, 0, 1) by construction.
#[derive(Clone, Copy, Debug)]
pub struct Transform4D {
    pub linear: Mat3,
    pub translation: Vec3,
}

impl View for Transform4D {
    type V = T4;

    open spec fn view(&self) -> T4 {
        T4 { m: self.linear@, t: self.translation@ }
    }
}

impl Transform4D {
    /// The transform with the given linear part and translation.
    pub fn from_mat_vec(transform: Mat3, translation: Vec3) -> (r: Transform4D)
        ensures
            r@ == (T4 { m: transform@, t: translation@ }),
    {
        Transform4D { linear: transform, translation }
    }

    /// The transform from the twelve entries of its upper 3x4 block, in
    /// row-major argument order.
    pub fn new(
        n00: Scalar, n01: Scalar, n02: Scalar, n03: Scalar,
        n10: Scalar, n11: Scalar, n12: Scalar, n13: Scalar,
        n20: Scalar, n21: Scalar, n22: Scalar, n23: Scalar,
    ) -> (r: Transform4D)
        requires
            rat_wf(n00@), rat_wf(n01@), rat_wf(n02@), rat_wf(n03@),
            rat_wf(n10@), rat_wf(n11@), rat_wf(n12@), rat_wf(n13@),
            rat_wf(n20@), rat_wf(n21@), rat_wf(n22@), rat_wf(n23@),
            v3_from_rats_ok(n00@, n10@, n20@),
            v3_from_rats_ok(n01@, n11@, n21@),
            v3_from_rats_ok(n02@, n12@, n22@),
            v3_from_rats_ok(n03@, n13@, n23@),
        ensures
            r@ == (T4 {
                m: M3 {
                    c0: v3_from_rats(n00@, n10@, n20@),
                    c1: v3_from_rats(n01@, n11@, n21@),
                    c2: v3_from_rats(n02@, n12@, n22@),
                },
                t: v3_from_rats(n03@, n13@, n23@),
            }),
            t4_wf(r@),
    {
        Transform4D {
            linear: Mat3::from_cols(
                Vec3::new(n00, n10, n20),
                Vec3::new(n01, n11, n21),
                Vec3::new(n02, n12, n22),
            ),
            translation: Vec3::new(n03, n13, n23),
        }
    }

    pub fn identity() -> (r: Transform4D)
        ensures
            r@ == t4_identity(),
            t4_wf(r@),
    {
        Transform4D { linear: Mat3::identity(), translation: Vec3::zero() }
    }

    /// The transform applied to a point: linear part, then translation.
    pub fn transform_point(self, v: Vec3) -> (r: Vec3)
        requires
            t4_wf(self@),
            v3_wf(v@),
            t4_point_ok(self@, v@),
        ensures
            r@ == t4_point(self@, v@),
            v3_wf(r@),
    {
        self.linear.mul_vec(v).add(self.translation)
    }

    /// The transform applied to a direction: the linear part alone.
    pub fn transform_dir(self, v: Vec3) -> (r: Vec3)
        requires
            t4_wf(self@),
            v3_wf(v@),
            m3_mul_vec_ok(self@.m, v@),
        ensures
            r@ == t4_dir(self@, v@),
            v3_wf(r@),
    {
        self.linear.mul_vec(v)
    }

    /// Composition: apply `t` first, then `self`.
    pub fn mul(self, t: Transform4D) -> (r: Transform4D)
        requires
            t4_wf(self@),
            t4_wf(t@),
            t4_mul_ok(self@, t@),
        ensures
            r@ == t4_mul(self@, t@),
            t4_wf(r@),
    {
        Transform4D {
            linear: self.linear.mul_mat(t.linear),
            translation: self.linear.mul_vec(t.translation).add(self.translation),
        }
    }

    /// The affine inverse.  The caller must pass a transform whose linear
    /// block is invertible: `m3_det(self@.m).n` must be nonzero.
    pub fn inv(self) -> (r: Transform4D)
        requires
            t4_wf(self@),
            m3_det(self@.m).n != 0,
            t4_inv_ok(self@),
        ensures
            r@ == t4_inv(self@),
            t4_wf(r@),
    {
        let li = self.linear.inv();
        Transform4D { linear: li, translation: li.mul_vec(self.translation).neg() }
    }

    /// Whether the two transforms stand for the same affine map.
    pub fn eq(self, t: Transform4D) -> (r: bool)
        requires
            t4_wf(self@),
            t4_wf(t@),
            t4_eq_ok(self@, t@),
        ensures
            r == t4_eq(self@, t@),
    {
        self.linear.eq(t.linear) && self.translation.eq(t.translation)
    }
}

} // verus!
