use kengine::scalar::Scalar;
use kengine::vec3::Vec3;
use kengine::mat3::Mat3;
use kengine::transform4d::Transform4D;

fn s(n: i128) -> Scalar {
    Scalar::from_int(n)
}

#[test]
fn vec3_tests() {
    let v = Vec3::new(s(1), s(1), s(1));
    assert!(v.x().eq(s(1)) && v.y().eq(s(1)) && v.z().eq(s(1)));
    let x = Vec3::x_axis();
    let y = Vec3::y_axis();
    let z = Vec3::z_axis();
    assert!(Vec3::dot(x, y).eq(Scalar::zero()));
    let v = Vec3::new(s(1), s(1), s(0));
    assert!(Vec3::proj(v, x).eq(x));
    assert!(Vec3::rej(v, x).eq(y));
    assert!(Vec3::cross(x, y).eq(z));
}

#[test]
fn mat3_tests() {
    let mat = Mat3::from_cols(
        Vec3::one(),
        Vec3::new(s(3), s(4), s(5)),
        Vec3::new(s(3), s(6), s(10)),
    );
    let inv = mat.inv();
    assert!(mat.mul_mat(inv).eq(Mat3::identity()));
    // transformations; a quarter turn has sine 1 and cosine 0, and the
    // quarter-turn skew has tangent 1
    let one = Scalar::one();
    let zero = Scalar::zero();
    let x = Vec3::x_axis();
    let y = Vec3::y_axis();
    let z = Vec3::z_axis();
    assert!(Mat3::rot_x(one, zero).mul_vec(y).eq(z));
    assert!(Mat3::rot_z(one, zero).mul_vec(x).eq(y));
    assert!(Mat3::rot_y(one, zero).mul_vec(z).eq(x));
    assert!(Mat3::rot(one, zero, x).mul_vec(y).eq(z));
    assert!(Mat3::rot(one, zero, z).mul_vec(x).eq(y));
    assert!(Mat3::rot(one, zero, y).mul_vec(z).eq(x));
    assert!(Mat3::rot_y(one, zero).mul_mat(Mat3::rot_x(one, zero)).mul_vec(y).eq(x));
    let v110 = Vec3::new(s(1), s(1), s(0));
    assert!(Mat3::reflect(x).mul_vec(v110).eq(Vec3::new(s(-1), s(1), s(0))));
    assert!(Mat3::invol(x).mul_vec(v110).eq(Vec3::new(s(1), s(-1), s(0))));
    let half = Scalar::new(1, 2);
    assert!(Mat3::scale(s(2), s(2), s(2)).mul_vec(Vec3::new(half, half, half)).eq(Vec3::one()));
    assert!(Mat3::scale_along_dir(s(2), x).mul_vec(Vec3::one()).eq(Vec3::new(s(2), s(1), s(1))));
    assert!(Mat3::skew(one, x, y).mul_vec(y).eq(v110));
}

#[test]
fn scalar_arithmetic() {
    let a = Scalar::new(1, 2);
    let b = Scalar::new(1, 3);
    assert!(a.add(b).eq(Scalar::new(5, 6)));
    assert!(a.sub(b).eq(Scalar::new(1, 6)));
    assert!(a.mul(b).eq(Scalar::new(1, 6)));
    assert!(a.div(b).eq(Scalar::new(3, 2)));
    assert!(a.neg().eq(Scalar::new(-1, 2)));
    assert!(Scalar::new(2, 4).eq(Scalar::new(1, 2)));
    assert!(!Scalar::new(2, 4).is_zero());
    assert!(Scalar::new(0, 7).is_zero());
}

#[test]
fn vec3_algebra() {
    let a = Vec3::new(s(1), s(2), s(3));
    let b = Vec3::new(s(1), s(2), s(2));
    // projection plus rejection gives the vector back, exactly
    assert!(Vec3::proj(a, b).add(Vec3::rej(a, b)).eq(a));
    // the rejection is orthogonal to the direction
    assert!(Vec3::dot(Vec3::rej(a, b), b).eq(Scalar::zero()));
    assert!(a.add(b).eq(Vec3::new(s(2), s(4), s(5))));
    assert!(a.sub(b).eq(Vec3::new(s(0), s(0), s(1))));
    assert!(a.neg().eq(Vec3::new(s(-1), s(-2), s(-3))));
    assert!(Vec3::scale(s(2), a).eq(Vec3::new(s(2), s(4), s(6))));
    assert!(Vec3::dot(a, b).eq(s(11)));
    assert!(a.index(0).eq(s(1)) && a.index(1).eq(s(2)) && a.index(2).eq(s(3)));
    // right-handed orientation of the axes
    let x = Vec3::x_axis();
    let y = Vec3::y_axis();
    let z = Vec3::z_axis();
    assert!(Vec3::cross(y, z).eq(x));
    assert!(Vec3::cross(z, x).eq(y));
}

#[test]
fn mat3_inverse_round_trip() {
    let mat = Mat3::from_cols(
        Vec3::new(s(2), s(0), s(1)),
        Vec3::new(s(1), s(1), s(0)),
        Vec3::new(s(0), s(3), s(4)),
    );
    let inv = mat.inv();
    assert!(mat.mul_mat(inv).eq(Mat3::identity()));
    assert!(inv.mul_mat(mat).eq(Mat3::identity()));
    assert!(!mat.det().is_zero());
}

#[test]
fn mat3_rows_and_cols() {
    let mat = Mat3::from_cols(
        Vec3::new(s(1), s(2), s(3)),
        Vec3::new(s(4), s(5), s(6)),
        Vec3::new(s(7), s(8), s(9)),
    );
    assert!(mat.row(0).eq(Vec3::new(s(1), s(4), s(7))));
    assert!(mat.row(1).eq(Vec3::new(s(2), s(5), s(8))));
    assert!(mat.row(2).eq(Vec3::new(s(3), s(6), s(9))));
    assert!(mat.col(1).eq(Vec3::new(s(4), s(5), s(6))));
    assert!(mat.add(mat).eq(Mat3::from_cols(
        Vec3::new(s(2), s(4), s(6)),
        Vec3::new(s(8), s(10), s(12)),
        Vec3::new(s(14), s(16), s(18)),
    )));
    assert!(Mat3::zero().mul_vec(Vec3::one()).eq(Vec3::zero()));
    assert!(Mat3::identity().mul_vec(Vec3::new(s(4), s(5), s(6))).eq(Vec3::new(s(4), s(5), s(6))));
}

#[test]
fn mat3_reflect_twice_restores() {
    let x = Vec3::x_axis();
    let v = Vec3::new(s(3), s(-2), s(5));
    let r = Mat3::reflect(x);
    assert!(r.mul_mat(r).eq(Mat3::identity()));
    assert!(r.mul_vec(r.mul_vec(v)).eq(v));
    // a non-axis unit direction: (3/5, 4/5, 0)
    let a = Vec3::new(Scalar::new(3, 5), Scalar::new(4, 5), s(0));
    assert!(Vec3::dot(a, a).eq(Scalar::one()));
    let r = Mat3::reflect(a);
    assert!(r.mul_mat(r).eq(Mat3::identity()));
    let i = Mat3::invol(a);
    assert!(i.mul_mat(i).eq(Mat3::identity()));
}

#[test]
fn mat3_associativity() {
    let a = Mat3::from_cols(
        Vec3::new(s(2), s(0), s(1)),
        Vec3::new(s(1), s(1), s(0)),
        Vec3::new(s(0), s(3), s(4)),
    );
    let b = Mat3::from_cols(
        Vec3::new(s(1), s(1), s(1)),
        Vec3::new(s(3), s(4), s(5)),
        Vec3::new(s(3), s(6), s(10)),
    );
    let c = Mat3::from_cols(
        Vec3::new(s(0), s(2), s(1)),
        Vec3::new(s(1), s(0), s(2)),
        Vec3::new(s(2), s(1), s(0)),
    );
    assert!(a.mul_mat(b).mul_mat(c).eq(a.mul_mat(b.mul_mat(c))));
}

#[test]
fn transform_inverse_round_trip() {
    let m = Mat3::from_cols(
        Vec3::one(),
        Vec3::new(s(3), s(4), s(5)),
        Vec3::new(s(3), s(6), s(10)),
    );
    let t = Transform4D::from_mat_vec(m, Vec3::new(s(1), s(2), s(3)));
    let inv = t.inv();
    assert!(t.mul(inv).eq(Transform4D::identity()));
    assert!(inv.mul(t).eq(Transform4D::identity()));
    let p = Vec3::new(s(1), s(1), s(1));
    assert!(inv.transform_point(t.transform_point(p)).eq(p));
    assert!(t.transform_point(inv.transform_point(p)).eq(p));
    // directions ignore the translation
    assert!(t.transform_dir(Vec3::zero()).eq(Vec3::zero()));
}

#[test]
fn transform_construction_and_composition() {
    // the raw constructor takes the upper 3x4 block in row-major order
    let t = Transform4D::new(
        s(1), s(3), s(3), s(1),
        s(1), s(4), s(6), s(2),
        s(1), s(5), s(10), s(3),
    );
    let m = Mat3::from_cols(
        Vec3::one(),
        Vec3::new(s(3), s(4), s(5)),
        Vec3::new(s(3), s(6), s(10)),
    );
    let u = Transform4D::from_mat_vec(m, Vec3::new(s(1), s(2), s(3)));
    assert!(t.eq(u));
    // composing with the identity changes nothing
    assert!(t.mul(Transform4D::identity()).eq(t));
    assert!(Transform4D::identity().mul(t).eq(t));
    // composition applies the right transform first
    let shift = Transform4D::from_mat_vec(Mat3::identity(), Vec3::new(s(1), s(0), s(0)));
    let scale = Transform4D::from_mat_vec(Mat3::scale(s(2), s(2), s(2)), Vec3::zero());
    let p = Vec3::new(s(1), s(1), s(1));
    // scale then shift: (2, 2, 2) + (1, 0, 0)
    assert!(shift.mul(scale).transform_point(p).eq(Vec3::new(s(3), s(2), s(2))));
    // shift then scale: 2 * (2, 1, 1)
    assert!(scale.mul(shift).transform_point(p).eq(Vec3::new(s(4), s(2), s(2))));
}

#[test]
fn transform_associativity() {
    let a = Transform4D::from_mat_vec(
        Mat3::from_cols(
            Vec3::new(s(2), s(0), s(1)),
            Vec3::new(s(1), s(1), s(0)),
            Vec3::new(s(0), s(3), s(4)),
        ),
        Vec3::new(s(1), s(2), s(3)),
    );
    let b = Transform4D::from_mat_vec(
        Mat3::from_cols(
            Vec3::one(),
            Vec3::new(s(3), s(4), s(5)),
            Vec3::new(s(3), s(6), s(10)),
        ),
        Vec3::new(s(-1), s(0), s(2)),
    );
    let c = Transform4D::from_mat_vec(Mat3::scale(s(2), s(3), s(4)), Vec3::new(s(5), s(0), s(-2)));
    assert!(a.mul(b).mul(c).eq(a.mul(b.mul(c))));
}

#[test]
fn rot_matches_axis_rotations() {
    // an exact sine and cosine pair: (3/5, 4/5)
    let sn = Scalar::new(3, 5);
    let cs = Scalar::new(4, 5);
    assert!(Mat3::rot(sn, cs, Vec3::x_axis()).eq(Mat3::rot_x(sn, cs)));
    assert!(Mat3::rot(sn, cs, Vec3::y_axis()).eq(Mat3::rot_y(sn, cs)));
    assert!(Mat3::rot(sn, cs, Vec3::z_axis()).eq(Mat3::rot_z(sn, cs)));
    // a rotation leaves its axis fixed
    let a = Vec3::new(Scalar::new(3, 5), Scalar::new(4, 5), s(0));
    assert!(Mat3::rot(sn, cs, a).mul_vec(a).eq(a));
}
