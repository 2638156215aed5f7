//! Fixed-point 4x4 transforms.
//!
//! A `Mat4` holds an affine transform on homogeneous fixed-point vectors,
//! entries scaled by 1000 like everything else, so composing two transforms
//! divides each accumulated dot product by the scale. The mathematical
//! model of a matrix is [`MatS`], the same sixteen entries as unbounded
//! integers; every operation's contract is stated over that model.
//!
//! Rotating a direction follows the homogeneous-coordinate discipline: the
//! direction is embedded with fourth coordinate 0, pushed through the
//! transform, the fourth coordinate is forced back to exactly 0, and only
//! then is the vector projected back to three dimensions — the projection
//! is defined only on directions.

use vstd::prelude::*;

verus! {

use crate::fixed::div_trunc;
use crate::fixed::lemma_div_trunc_bound;
use crate::fixed::SCALE;
use crate::trig::cos_milli;
use crate::trig::sin_milli;
use crate::vector::Vec3;
use crate::vector::Vec4;

/// Largest magnitude of an entry or vector component accepted by the
/// matrix products: keeps every accumulated dot product inside `i64`.
pub const MAT_LIMIT: i64 = 100_000_000;

/// The mathematical model of a 4x4 fixed-point matrix: its entries as
/// unbounded integers, row by row.
pub ghost struct MatS {
    pub e00: int, pub e01: int, pub e02: int, pub e03: int,
    pub e10: int, pub e11: int, pub e12: int, pub e13: int,
    pub e20: int, pub e21: int, pub e22: int, pub e23: int,
    pub e30: int, pub e31: int, pub e32: int, pub e33: int,
}

/// Every entry of `m` has magnitude at most `b`.
pub open spec fn mat_bounded(m: MatS, b: int) -> bool {
    &&& -b <= m.e00 <= b && -b <= m.e01 <= b && -b <= m.e02 <= b && -b <= m.e03 <= b
    &&& -b <= m.e10 <= b && -b <= m.e11 <= b && -b <= m.e12 <= b && -b <= m.e13 <= b
    &&& -b <= m.e20 <= b && -b <= m.e21 <= b && -b <= m.e22 <= b && -b <= m.e23 <= b
    &&& -b <= m.e30 <= b && -b <= m.e31 <= b && -b <= m.e32 <= b && -b <= m.e33 <= b
}

/// One entry of a fixed-point matrix product: the dot product of a row and
/// a column, scaled back down by the truncating division of the machine.
pub open spec fn dot_scaled(x0: int, y0: int, x1: int, y1: int, x2: int, y2: int, x3: int, y3: int) -> int {
    div_trunc(x0 * y0 + x1 * y1 + x2 * y2 + x3 * y3, SCALE as int)
}

/// The fixed-point product of two matrices.
pub open spec fn mat_mul_spec(a: MatS, b: MatS) -> MatS {
    MatS {
        e00: dot_scaled(a.e00, b.e00, a.e01, b.e10, a.e02, b.e20, a.e03, b.e30),
        e01: dot_scaled(a.e00, b.e01, a.e01, b.e11, a.e02, b.e21, a.e03, b.e31),
        e02: dot_scaled(a.e00, b.e02, a.e01, b.e12, a.e02, b.e22, a.e03, b.e32),
        e03: dot_scaled(a.e00, b.e03, a.e01, b.e13, a.e02, b.e23, a.e03, b.e33),
        e10: dot_scaled(a.e10, b.e00, a.e11, b.e10, a.e12, b.e20, a.e13, b.e30),
        e11: dot_scaled(a.e10, b.e01, a.e11, b.e11, a.e12, b.e21, a.e13, b.e31),
        e12: dot_scaled(a.e10, b.e02, a.e11, b.e12, a.e12, b.e22, a.e13, b.e32),
        e13: dot_scaled(a.e10, b.e03, a.e11, b.e13, a.e12, b.e23, a.e13, b.e33),
        e20: dot_scaled(a.e20, b.e00, a.e21, b.e10, a.e22, b.e20, a.e23, b.e30),
        e21: dot_scaled(a.e20, b.e01, a.e21, b.e11, a.e22, b.e21, a.e23, b.e31),
        e22: dot_scaled(a.e20, b.e02, a.e21, b.e12, a.e22, b.e22, a.e23, b.e32),
        e23: dot_scaled(a.e20, b.e03, a.e21, b.e13, a.e22, b.e23, a.e23, b.e33),
        e30: dot_scaled(a.e30, b.e00, a.e31, b.e10, a.e32, b.e20, a.e33, b.e30),
        e31: dot_scaled(a.e30, b.e01, a.e31, b.e11, a.e32, b.e21, a.e33, b.e31),
        e32: dot_scaled(a.e30, b.e02, a.e31, b.e12, a.e32, b.e22, a.e33, b.e32),
        e33: dot_scaled(a.e30, b.e03, a.e31, b.e13, a.e32, b.e23, a.e33, b.e33),
    }
}

/// The fixed-point image of a homogeneous vector under a matrix.
pub open spec fn mul_vec_spec(m: MatS, x: int, y: int, z: int, w: int) -> (int, int, int, int) {
    (
        dot_scaled(m.e00, x, m.e01, y, m.e02, z, m.e03, w),
        dot_scaled(m.e10, x, m.e11, y, m.e12, z, m.e13, w),
        dot_scaled(m.e20, x, m.e21, y, m.e22, z, m.e23, w),
        dot_scaled(m.e30, x, m.e31, y, m.e32, z, m.e33, w),
    )
}

/// The rotation about the vertical axis whose cosine and sine are `c` and
/// `s` (in milli-units), as a homogeneous transform.
pub open spec fn yaw_rotation_spec(c: int, s: int) -> MatS {
    MatS {
        e00: c, e01: -s, e02: 0, e03: 0,
        e10: s, e11: c, e12: 0, e13: 0,
        e20: 0, e21: 0, e22: SCALE as int, e23: 0,
        e30: 0, e31: 0, e32: 0, e33: SCALE as int,
    }
}

/// The translation by `(x, y, z)` as a homogeneous transform.
pub open spec fn translation_spec(x: int, y: int, z: int) -> MatS {
    MatS {
        e00: SCALE as int, e01: 0, e02: 0, e03: x,
        e10: 0, e11: SCALE as int, e12: 0, e13: y,
        e20: 0, e21: 0, e22: SCALE as int, e23: z,
        e30: 0, e31: 0, e32: 0, e33: SCALE as int,
    }
}

/// What rotating a direction through a transform yields: the direction is
/// embedded with homogeneous coordinate 0, transformed, its homogeneous
/// coordinate is forced back to exactly 0, and the first three coordinates
/// are the projected direction.
pub open spec fn rotate_direction_spec(m: MatS, x: int, y: int, z: int) -> (int, int, int) {
    let h = mul_vec_spec(m, x, y, z, 0);
    (h.0, h.1, h.2)
}

/// A homogeneous fixed-point 4x4 matrix.
#[derive(Clone, Copy, Debug, PartialEq, Eq, Structural)]
pub struct Mat4 {
    pub m00: i64, pub m01: i64, pub m02: i64, pub m03: i64,
    pub m10: i64, pub m11: i64, pub m12: i64, pub m13: i64,
    pub m20: i64, pub m21: i64, pub m22: i64, pub m23: i64,
    pub m30: i64, pub m31: i64, pub m32: i64, pub m33: i64,
}

impl View for Mat4 {
    type V = MatS;

    open spec fn view(&self) -> MatS {
        MatS {
            e00: self.m00 as int, e01: self.m01 as int, e02: self.m02 as int, e03: self.m03 as int,
            e10: self.m10 as int, e11: self.m11 as int, e12: self.m12 as int, e13: self.m13 as int,
            e20: self.m20 as int, e21: self.m21 as int, e22: self.m22 as int, e23: self.m23 as int,
            e30: self.m30 as int, e31: self.m31 as int, e32: self.m32 as int, e33: self.m33 as int,
        }
    }
}

/// One entry of a matrix product or matrix-vector product, with the
/// overflow argument done once for all sixteen entries.
fn dot_div(x0: i64, y0: i64, x1: i64, y1: i64, x2: i64, y2: i64, x3: i64, y3: i64) -> (r: i64)
    requires
        -MAT_LIMIT <= x0 <= MAT_LIMIT, -MAT_LIMIT <= y0 <= MAT_LIMIT,
        -MAT_LIMIT <= x1 <= MAT_LIMIT, -MAT_LIMIT <= y1 <= MAT_LIMIT,
        -MAT_LIMIT <= x2 <= MAT_LIMIT, -MAT_LIMIT <= y2 <= MAT_LIMIT,
        -MAT_LIMIT <= x3 <= MAT_LIMIT, -MAT_LIMIT <= y3 <= MAT_LIMIT,
    ensures
        r == dot_scaled(x0 as int, y0 as int, x1 as int, y1 as int, x2 as int, y2 as int, x3 as int, y3 as int),
{
    proof {
        assert(
            -10_000_000_000_000_000 <= x0 * y0 <= 10_000_000_000_000_000
                && -10_000_000_000_000_000 <= x1 * y1 <= 10_000_000_000_000_000
                && -10_000_000_000_000_000 <= x2 * y2 <= 10_000_000_000_000_000
                && -10_000_000_000_000_000 <= x3 * y3 <= 10_000_000_000_000_000
        ) by (nonlinear_arith)
            requires
                -100_000_000 <= x0 <= 100_000_000, -100_000_000 <= y0 <= 100_000_000,
                -100_000_000 <= x1 <= 100_000_000, -100_000_000 <= y1 <= 100_000_000,
                -100_000_000 <= x2 <= 100_000_000, -100_000_000 <= y2 <= 100_000_000,
                -100_000_000 <= x3 <= 100_000_000, -100_000_000 <= y3 <= 100_000_000,
        ;
    }
    (x0 * y0 + x1 * y1 + x2 * y2 + x3 * y3) / SCALE
}

/// Magnitude bound for one product entry from bounds on the factors.
proof fn lemma_dot_scaled_bound(x0: int, y0: int, x1: int, y1: int, x2: int, y2: int, x3: int, y3: int, bx: int, by: int)
    requires
        0 <= bx, 0 <= by,
        -bx <= x0 <= bx, -by <= y0 <= by,
        -bx <= x1 <= bx, -by <= y1 <= by,
        -bx <= x2 <= bx, -by <= y2 <= by,
        -bx <= x3 <= bx, -by <= y3 <= by,
    ensures
        -((4 * bx * by) / (SCALE as int)) <= dot_scaled(x0, y0, x1, y1, x2, y2, x3, y3)
            <= (4 * bx * by) / (SCALE as int),
{
    assert(-(4 * bx * by) <= x0 * y0 + x1 * y1 + x2 * y2 + x3 * y3 <= 4 * bx * by) by (nonlinear_arith)
        requires
            0 <= bx, 0 <= by,
            -bx <= x0 <= bx, -by <= y0 <= by,
            -bx <= x1 <= bx, -by <= y1 <= by,
            -bx <= x2 <= bx, -by <= y2 <= by,
            -bx <= x3 <= bx, -by <= y3 <= by,
    ;
    assert(0 <= 4 * bx * by) by (nonlinear_arith)
        requires
            0 <= bx, 0 <= by,
    ;
    lemma_div_trunc_bound(x0 * y0 + x1 * y1 + x2 * y2 + x3 * y3, SCALE as int, 4 * bx * by);
}

/// Every entry of a fixed-point matrix product is bounded by the scaled
/// product of the factors' entry bounds.
pub proof fn lemma_mat_mul_bounded(a: MatS, b: MatS, ba: int, bb: int)
    requires
        0 <= ba, 0 <= bb,
        mat_bounded(a, ba),
        mat_bounded(b, bb),
    ensures
        mat_bounded(mat_mul_spec(a, b), (4 * ba * bb) / (SCALE as int)),
{
    lemma_dot_scaled_bound(a.e00, b.e00, a.e01, b.e10, a.e02, b.e20, a.e03, b.e30, ba, bb);
    lemma_dot_scaled_bound(a.e00, b.e01, a.e01, b.e11, a.e02, b.e21, a.e03, b.e31, ba, bb);
    lemma_dot_scaled_bound(a.e00, b.e02, a.e01, b.e12, a.e02, b.e22, a.e03, b.e32, ba, bb);
    lemma_dot_scaled_bound(a.e00, b.e03, a.e01, b.e13, a.e02, b.e23, a.e03, b.e33, ba, bb);
    lemma_dot_scaled_bound(a.e10, b.e00, a.e11, b.e10, a.e12, b.e20, a.e13, b.e30, ba, bb);
    lemma_dot_scaled_bound(a.e10, b.e01, a.e11, b.e11, a.e12, b.e21, a.e13, b.e31, ba, bb);
    lemma_dot_scaled_bound(a.e10, b.e02, a.e11, b.e12, a.e12, b.e22, a.e13, b.e32, ba, bb);
    lemma_dot_scaled_bound(a.e10, b.e03, a.e11, b.e13, a.e12, b.e23, a.e13, b.e33, ba, bb);
    lemma_dot_scaled_bound(a.e20, b.e00, a.e21, b.e10, a.e22, b.e20, a.e23, b.e30, ba, bb);
    lemma_dot_scaled_bound(a.e20, b.e01, a.e21, b.e11, a.e22, b.e21, a.e23, b.e31, ba, bb);
    lemma_dot_scaled_bound(a.e20, b.e02, a.e21, b.e12, a.e22, b.e22, a.e23, b.e32, ba, bb);
    lemma_dot_scaled_bound(a.e20, b.e03, a.e21, b.e13, a.e22, b.e23, a.e23, b.e33, ba, bb);
    lemma_dot_scaled_bound(a.e30, b.e00, a.e31, b.e10, a.e32, b.e20, a.e33, b.e30, ba, bb);
    lemma_dot_scaled_bound(a.e30, b.e01, a.e31, b.e11, a.e32, b.e21, a.e33, b.e31, ba, bb);
    lemma_dot_scaled_bound(a.e30, b.e02, a.e31, b.e12, a.e32, b.e22, a.e33, b.e32, ba, bb);
    lemma_dot_scaled_bound(a.e30, b.e03, a.e31, b.e13, a.e32, b.e23, a.e33, b.e33, ba, bb);
}

impl Mat4 {
    /// A matrix from its sixteen entries, row by row.
    #[allow(clippy::too_many_arguments)]
    pub fn new(
        m00: i64, m01: i64, m02: i64, m03: i64,
        m10: i64, m11: i64, m12: i64, m13: i64,
        m20: i64, m21: i64, m22: i64, m23: i64,
        m30: i64, m31: i64, m32: i64, m33: i64,
    ) -> (r: Mat4)
        ensures
            r.m00 == m00 && r.m01 == m01 && r.m02 == m02 && r.m03 == m03,
            r.m10 == m10 && r.m11 == m11 && r.m12 == m12 && r.m13 == m13,
            r.m20 == m20 && r.m21 == m21 && r.m22 == m22 && r.m23 == m23,
            r.m30 == m30 && r.m31 == m31 && r.m32 == m32 && r.m33 == m33,
    {
        Mat4 { m00, m01, m02, m03, m10, m11, m12, m13, m20, m21, m22, m23, m30, m31, m32, m33 }
    }

    /// The rotation transform of an Euler orientation whose roll and pitch
    /// are held at zero, built fresh from the yaw angle.
    pub fn rotation(orientation: &Vec3) -> (r: Mat4)
        requires
            orientation.x == 0,
            orientation.y == 0,
        ensures
            r@ == yaw_rotation_spec(cos_milli(orientation.z as int), sin_milli(orientation.z as int)),
            mat_bounded(r@, SCALE as int),
    {
        let c = crate::trig::cos_fixed(orientation.z);
        let s = crate::trig::sin_fixed(orientation.z);
        Mat4 {
            m00: c, m01: -s, m02: 0, m03: 0,
            m10: s, m11: c, m12: 0, m13: 0,
            m20: 0, m21: 0, m22: SCALE, m23: 0,
            m30: 0, m31: 0, m32: 0, m33: SCALE,
        }
    }

    /// The translation transform that moves a point by `v` and leaves every
    /// direction unchanged.
    pub fn translation(v: &Vec3) -> (r: Mat4)
        ensures
            r@ == translation_spec(v.x as int, v.y as int, v.z as int),
    {
        Mat4 {
            m00: SCALE, m01: 0, m02: 0, m03: v.x,
            m10: 0, m11: SCALE, m12: 0, m13: v.y,
            m20: 0, m21: 0, m22: SCALE, m23: v.z,
            m30: 0, m31: 0, m32: 0, m33: SCALE,
        }
    }

    /// The fixed-point matrix product `self * other`.
    pub fn mul(&self, other: &Mat4) -> (r: Mat4)
        requires
            mat_bounded(self@, MAT_LIMIT as int),
            mat_bounded(other@, MAT_LIMIT as int),
        ensures
            r@ == mat_mul_spec(self@, other@),
    {
        Mat4 {
            m00: dot_div(self.m00, other.m00, self.m01, other.m10, self.m02, other.m20, self.m03, other.m30),
            m01: dot_div(self.m00, other.m01, self.m01, other.m11, self.m02, other.m21, self.m03, other.m31),
            m02: dot_div(self.m00, other.m02, self.m01, other.m12, self.m02, other.m22, self.m03, other.m32),
            m03: dot_div(self.m00, other.m03, self.m01, other.m13, self.m02, other.m23, self.m03, other.m33),
            m10: dot_div(self.m10, other.m00, self.m11, other.m10, self.m12, other.m20, self.m13, other.m30),
            m11: dot_div(self.m10, other.m01, self.m11, other.m11, self.m12, other.m21, self.m13, other.m31),
            m12: dot_div(self.m10, other.m02, self.m11, other.m12, self.m12, other.m22, self.m13, other.m32),
            m13: dot_div(self.m10, other.m03, self.m11, other.m13, self.m12, other.m23, self.m13, other.m33),
            m20: dot_div(self.m20, other.m00, self.m21, other.m10, self.m22, other.m20, self.m23, other.m30),
            m21: dot_div(self.m20, other.m01, self.m21, other.m11, self.m22, other.m21, self.m23, other.m31),
            m22: dot_div(self.m20, other.m02, self.m21, other.m12, self.m22, other.m22, self.m23, other.m32),
            m23: dot_div(self.m20, other.m03, self.m21, other.m13, self.m22, other.m23, self.m23, other.m33),
            m30: dot_div(self.m30, other.m00, self.m31, other.m10, self.m32, other.m20, self.m33, other.m30),
            m31: dot_div(self.m30, other.m01, self.m31, other.m11, self.m32, other.m21, self.m33, other.m31),
            m32: dot_div(self.m30, other.m02, self.m31, other.m12, self.m32, other.m22, self.m33, other.m32),
            m33: dot_div(self.m30, other.m03, self.m31, other.m13, self.m32, other.m23, self.m33, other.m33),
        }
    }

    /// The fixed-point image of a homogeneous vector under `self`.
    pub fn mul_vec(&self, v: &Vec4) -> (r: Vec4)
        requires
            mat_bounded(self@, MAT_LIMIT as int),
            -MAT_LIMIT <= v.x <= MAT_LIMIT,
            -MAT_LIMIT <= v.y <= MAT_LIMIT,
            -MAT_LIMIT <= v.z <= MAT_LIMIT,
            -MAT_LIMIT <= v.w <= MAT_LIMIT,
        ensures
            (r.x as int, r.y as int, r.z as int, r.w as int)
                == mul_vec_spec(self@, v.x as int, v.y as int, v.z as int, v.w as int),
    {
        Vec4 {
            x: dot_div(self.m00, v.x, self.m01, v.y, self.m02, v.z, self.m03, v.w),
            y: dot_div(self.m10, v.x, self.m11, v.y, self.m12, v.z, self.m13, v.w),
            z: dot_div(self.m20, v.x, self.m21, v.y, self.m22, v.z, self.m23, v.w),
            w: dot_div(self.m30, v.x, self.m31, v.y, self.m32, v.z, self.m33, v.w),
        }
    }

    /// Rotate a direction: embed it homogeneously with coordinate 0, apply
    /// the transform, force the homogeneous coordinate back to exactly 0 —
    /// a direction, not a point — and project, which the forcing makes
    /// always succeed.
    pub fn rotate_direction(&self, dir: &Vec3) -> (r: Vec3)
        requires
            mat_bounded(self@, MAT_LIMIT as int),
            -MAT_LIMIT <= dir.x <= MAT_LIMIT,
            -MAT_LIMIT <= dir.y <= MAT_LIMIT,
            -MAT_LIMIT <= dir.z <= MAT_LIMIT,
        ensures
            (r.x as int, r.y as int, r.z as int)
                == rotate_direction_spec(self@, dir.x as int, dir.y as int, dir.z as int),
    {
        let h = dir.to_homogeneous();
        let mut t = self.mul_vec(&h);
        t.w = 0;
        let back = t.from_homogeneous();
        back.unwrap()
    }
}

/// Rotating any direction through a yaw rotation hands its homogeneous
/// coordinate back as exactly 0, whatever the angle's cosine and sine and
/// whatever the direction: the rotation's last row annihilates a
/// direction's zero coordinate.
pub proof fn lemma_yaw_rotation_direction_w_zero(c: int, s: int, x: int, y: int, z: int)
    ensures
        mul_vec_spec(yaw_rotation_spec(c, s), x, y, z, 0).3 == 0,
{
    crate::fixed::lemma_div_trunc_zero(SCALE as int);
}

/// A yaw rotation whose cosine and sine form an exact unit pair preserves
/// the magnitude of the canonical forward direction `(0, SCALE, 0)`: the
/// rotated direction is `(-s, c, 0)`, whose squared norm equals the squared
/// norm of the forward direction itself.
pub proof fn lemma_rotation_preserves_forward_norm(c: int, s: int)
    requires
        c * c + s * s == (SCALE as int) * (SCALE as int),
    ensures
        rotate_direction_spec(yaw_rotation_spec(c, s), 0, SCALE as int, 0) == (-s, c, 0int),
        ({
            let f = rotate_direction_spec(yaw_rotation_spec(c, s), 0, SCALE as int, 0);
            f.0 * f.0 + f.1 * f.1 + f.2 * f.2 == (SCALE as int) * (SCALE as int)
        }),
{
    crate::fixed::lemma_div_trunc_zero(SCALE as int);
    crate::fixed::lemma_div_trunc_multiple(-s, SCALE as int);
    crate::fixed::lemma_div_trunc_multiple(c, SCALE as int);
    assert((-s) * (-s) == s * s) by (nonlinear_arith);
}

} // verus!
