//! Column-major 4x4 matrices over fixed-point scalars, with the 2D vector
//! type used for positions and scales.
//!
//! A matrix is stored as four column vectors, `x_axis` through `w_axis`.
//! The flat layout `cols_seq` (column after column) is the order in which a
//! matrix is written into the per-instance buffer.

use vstd::prelude::*;

use crate::fixed::fx_mul;
use crate::fixed::fx_mul_s;
use crate::fixed::fx_div;
use crate::fixed::fx_div_s;
use crate::fixed::lemma_fx_mul_bound;
use crate::fixed::FX_DIV_MAX;
use crate::fixed::FX_ONE;
use crate::fixed::FX_OP_MAX;
use crate::fixed::HALF_PI_FX;
use crate::trig::cos_fx;
use crate::trig::cos_fx_s;
use crate::trig::sin_fx;
use crate::trig::sin_fx_s;

verus! {

/// A 2D vector of fixed-point scalars.
#[derive(Clone, Copy, Debug, PartialEq, Eq, Structural)]
pub struct Vec2 {
    pub x: i64,
    pub y: i64,
}

/// A 4D vector of fixed-point scalars; also one matrix column.
#[derive(Clone, Copy, Debug, PartialEq, Eq, Structural)]
pub struct Vec4 {
    pub x: i64,
    pub y: i64,
    pub z: i64,
    pub w: i64,
}

/// A column-major 4x4 matrix of fixed-point scalars.
#[derive(Clone, Copy, Debug, PartialEq, Eq, Structural)]
pub struct Mat4 {
    pub x_axis: Vec4,
    pub y_axis: Vec4,
    pub z_axis: Vec4,
    pub w_axis: Vec4,
}

impl Vec2 {
    /// Both components within `[-c, c]`.
    pub open spec fn bounded(self, c: int) -> bool {
        &&& -c <= self.x <= c
        &&& -c <= self.y <= c
    }

    pub fn new(x: i64, y: i64) -> (v: Vec2)
        ensures
            v.x == x,
            v.y == y,
    {
        Vec2 { x, y }
    }

    /// The zero vector.
    pub fn zero() -> (v: Vec2)
        ensures
            v.x == 0,
            v.y == 0,
    {
        Vec2 { x: 0, y: 0 }
    }
}

impl Vec4 {
    /// All four components within `[-c, c]`.
    pub open spec fn bounded(self, c: int) -> bool {
        &&& -c <= self.x <= c
        &&& -c <= self.y <= c
        &&& -c <= self.z <= c
        &&& -c <= self.w <= c
    }
}

/// Component `x` of the product of matrix `m` and column vector `v`.
pub open spec fn mv_x(m: Mat4, v: Vec4) -> int {
    fx_mul_s(m.x_axis.x as int, v.x as int) + fx_mul_s(m.y_axis.x as int, v.y as int) + fx_mul_s(
        m.z_axis.x as int,
        v.z as int,
    ) + fx_mul_s(m.w_axis.x as int, v.w as int)
}

/// Component `y` of the product of matrix `m` and column vector `v`.
pub open spec fn mv_y(m: Mat4, v: Vec4) -> int {
    fx_mul_s(m.x_axis.y as int, v.x as int) + fx_mul_s(m.y_axis.y as int, v.y as int) + fx_mul_s(
        m.z_axis.y as int,
        v.z as int,
    ) + fx_mul_s(m.w_axis.y as int, v.w as int)
}

/// Component `z` of the product of matrix `m` and column vector `v`.
pub open spec fn mv_z(m: Mat4, v: Vec4) -> int {
    fx_mul_s(m.x_axis.z as int, v.x as int) + fx_mul_s(m.y_axis.z as int, v.y as int) + fx_mul_s(
        m.z_axis.z as int,
        v.z as int,
    ) + fx_mul_s(m.w_axis.z as int, v.w as int)
}

/// Component `w` of the product of matrix `m` and column vector `v`.
pub open spec fn mv_w(m: Mat4, v: Vec4) -> int {
    fx_mul_s(m.x_axis.w as int, v.x as int) + fx_mul_s(m.y_axis.w as int, v.y as int) + fx_mul_s(
        m.z_axis.w as int,
        v.z as int,
    ) + fx_mul_s(m.w_axis.w as int, v.w as int)
}

/// `r` is the matrix-vector product `m * v`.
pub open spec fn is_mat_vec(r: Vec4, m: Mat4, v: Vec4) -> bool {
    &&& r.x == mv_x(m, v)
    &&& r.y == mv_y(m, v)
    &&& r.z == mv_z(m, v)
    &&& r.w == mv_w(m, v)
}

/// `c` is the matrix product `a * b`.
pub open spec fn is_mul_of(c: Mat4, a: Mat4, b: Mat4) -> bool {
    &&& is_mat_vec(c.x_axis, a, b.x_axis)
    &&& is_mat_vec(c.y_axis, a, b.y_axis)
    &&& is_mat_vec(c.z_axis, a, b.z_axis)
    &&& is_mat_vec(c.w_axis, a, b.w_axis)
}

/// `m` translates by `(tx, ty, tz)` and does nothing else.
pub open spec fn is_translation(m: Mat4, tx: int, ty: int, tz: int) -> bool {
    &&& m.x_axis.x == FX_ONE && m.x_axis.y == 0 && m.x_axis.z == 0 && m.x_axis.w == 0
    &&& m.y_axis.x == 0 && m.y_axis.y == FX_ONE && m.y_axis.z == 0 && m.y_axis.w == 0
    &&& m.z_axis.x == 0 && m.z_axis.y == 0 && m.z_axis.z == FX_ONE && m.z_axis.w == 0
    &&& m.w_axis.x == tx && m.w_axis.y == ty && m.w_axis.z == tz && m.w_axis.w == FX_ONE
}

/// `m` is the identity.
pub open spec fn is_identity(m: Mat4) -> bool {
    is_translation(m, 0, 0, 0)
}

/// `m` scales the three axes by `(sx, sy, sz)`.
pub open spec fn is_scale(m: Mat4, sx: int, sy: int, sz: int) -> bool {
    &&& m.x_axis.x == sx && m.x_axis.y == 0 && m.x_axis.z == 0 && m.x_axis.w == 0
    &&& m.y_axis.x == 0 && m.y_axis.y == sy && m.y_axis.z == 0 && m.y_axis.w == 0
    &&& m.z_axis.x == 0 && m.z_axis.y == 0 && m.z_axis.z == sz && m.z_axis.w == 0
    &&& m.w_axis.x == 0 && m.w_axis.y == 0 && m.w_axis.z == 0 && m.w_axis.w == FX_ONE
}

/// `m` rotates about the Z axis by `angle` (fixed-point radians).
pub open spec fn is_rot_z(m: Mat4, angle: int) -> bool {
    let c = cos_fx_s(angle);
    let s = sin_fx_s(angle);
    &&& m.x_axis.x == c && m.x_axis.y == s && m.x_axis.z == 0 && m.x_axis.w == 0
    &&& m.y_axis.x == -s && m.y_axis.y == c && m.y_axis.z == 0 && m.y_axis.w == 0
    &&& m.z_axis.x == 0 && m.z_axis.y == 0 && m.z_axis.z == FX_ONE && m.z_axis.w == 0
    &&& m.w_axis.x == 0 && m.w_axis.y == 0 && m.w_axis.z == 0 && m.w_axis.w == FX_ONE
}

/// `m` scales by `(sx, sy)` in the plane (Z scale zero), rotates about Z by
/// `rot`, then translates by `(tx, ty)`: the affine transform
/// `T(tx, ty) * R_z(rot) * S(sx, sy, 0)`.
pub open spec fn is_srt(m: Mat4, sx: int, sy: int, rot: int, tx: int, ty: int) -> bool {
    let c = cos_fx_s(rot);
    let s = sin_fx_s(rot);
    &&& m.x_axis.x == fx_mul_s(c, sx) && m.x_axis.y == fx_mul_s(s, sx) && m.x_axis.z == 0
        && m.x_axis.w == 0
    &&& m.y_axis.x == -fx_mul_s(s, sy) && m.y_axis.y == fx_mul_s(c, sy) && m.y_axis.z == 0
        && m.y_axis.w == 0
    &&& m.z_axis.x == 0 && m.z_axis.y == 0 && m.z_axis.z == 0 && m.z_axis.w == 0
    &&& m.w_axis.x == tx && m.w_axis.y == ty && m.w_axis.z == 0 && m.w_axis.w == FX_ONE
}

/// `m` is the right-handed OpenGL orthographic projection for the box
/// `[l, r] x [b, t]` with near/far planes fixed at -1 and 1.
pub open spec fn is_ortho(m: Mat4, l: int, r: int, b: int, t: int) -> bool {
    &&& m.x_axis.x == fx_div_s(2 * FX_ONE, r - l) && m.x_axis.y == 0 && m.x_axis.z == 0
        && m.x_axis.w == 0
    &&& m.y_axis.x == 0 && m.y_axis.y == fx_div_s(2 * FX_ONE, t - b) && m.y_axis.z == 0
        && m.y_axis.w == 0
    &&& m.z_axis.x == 0 && m.z_axis.y == 0 && m.z_axis.z == -FX_ONE && m.z_axis.w == 0
    &&& m.w_axis.x == -fx_div_s(l + r, r - l) && m.w_axis.y == -fx_div_s(b + t, t - b)
        && m.w_axis.z == 0 && m.w_axis.w == FX_ONE
}

/// The sixteen entries of `m`, column after column: the order in which a
/// matrix is laid out in the per-instance buffer.
pub open spec fn cols_seq(m: Mat4) -> Seq<i64> {
    seq![
        m.x_axis.x,
        m.x_axis.y,
        m.x_axis.z,
        m.x_axis.w,
        m.y_axis.x,
        m.y_axis.y,
        m.y_axis.z,
        m.y_axis.w,
        m.z_axis.x,
        m.z_axis.y,
        m.z_axis.z,
        m.z_axis.w,
        m.w_axis.x,
        m.w_axis.y,
        m.w_axis.z,
        m.w_axis.w,
    ]
}

/// Fixed-point dot product of two quadruples, the kernel of the matrix
/// multiply.
fn fx_dot4(a0: i64, a1: i64, a2: i64, a3: i64, b0: i64, b1: i64, b2: i64, b3: i64) -> (r: i64)
    requires
        -FX_OP_MAX <= a0 <= FX_OP_MAX,
        -FX_OP_MAX <= a1 <= FX_OP_MAX,
        -FX_OP_MAX <= a2 <= FX_OP_MAX,
        -FX_OP_MAX <= a3 <= FX_OP_MAX,
        -FX_OP_MAX <= b0 <= FX_OP_MAX,
        -FX_OP_MAX <= b1 <= FX_OP_MAX,
        -FX_OP_MAX <= b2 <= FX_OP_MAX,
        -FX_OP_MAX <= b3 <= FX_OP_MAX,
    ensures
        r == fx_mul_s(a0 as int, b0 as int) + fx_mul_s(a1 as int, b1 as int) + fx_mul_s(
            a2 as int,
            b2 as int,
        ) + fx_mul_s(a3 as int, b3 as int),
{
    proof {
        lemma_fx_mul_bound(a0 as int, b0 as int, FX_OP_MAX as int, FX_OP_MAX as int);
        lemma_fx_mul_bound(a1 as int, b1 as int, FX_OP_MAX as int, FX_OP_MAX as int);
        lemma_fx_mul_bound(a2 as int, b2 as int, FX_OP_MAX as int, FX_OP_MAX as int);
        lemma_fx_mul_bound(a3 as int, b3 as int, FX_OP_MAX as int, FX_OP_MAX as int);
    }
    fx_mul(a0, b0) + fx_mul(a1, b1) + fx_mul(a2, b2) + fx_mul(a3, b3)
}

impl Mat4 {
    /// All sixteen entries within `[-c, c]`.
    pub open spec fn bounded(self, c: int) -> bool {
        &&& self.x_axis.bounded(c)
        &&& self.y_axis.bounded(c)
        &&& self.z_axis.bounded(c)
        &&& self.w_axis.bounded(c)
    }

    /// The identity matrix.
    pub fn identity() -> (m: Mat4)
        ensures
            is_identity(m),
            m.bounded(FX_ONE as int),
    {
        Mat4 {
            x_axis: Vec4 { x: FX_ONE, y: 0, z: 0, w: 0 },
            y_axis: Vec4 { x: 0, y: FX_ONE, z: 0, w: 0 },
            z_axis: Vec4 { x: 0, y: 0, z: FX_ONE, w: 0 },
            w_axis: Vec4 { x: 0, y: 0, z: 0, w: FX_ONE },
        }
    }

    /// A pure translation by `(tx, ty, tz)`.
    pub fn from_translation(tx: i64, ty: i64, tz: i64) -> (m: Mat4)
        ensures
            is_translation(m, tx as int, ty as int, tz as int),
    {
        Mat4 {
            x_axis: Vec4 { x: FX_ONE, y: 0, z: 0, w: 0 },
            y_axis: Vec4 { x: 0, y: FX_ONE, z: 0, w: 0 },
            z_axis: Vec4 { x: 0, y: 0, z: FX_ONE, w: 0 },
            w_axis: Vec4 { x: tx, y: ty, z: tz, w: FX_ONE },
        }
    }

    /// A pure scale by `(sx, sy, sz)`.
    pub fn from_scale(sx: i64, sy: i64, sz: i64) -> (m: Mat4)
        ensures
            is_scale(m, sx as int, sy as int, sz as int),
    {
        Mat4 {
            x_axis: Vec4 { x: sx, y: 0, z: 0, w: 0 },
            y_axis: Vec4 { x: 0, y: sy, z: 0, w: 0 },
            z_axis: Vec4 { x: 0, y: 0, z: sz, w: 0 },
            w_axis: Vec4 { x: 0, y: 0, z: 0, w: FX_ONE },
        }
    }

    /// A pure rotation about the Z axis by `angle` fixed-point radians.
    pub fn from_rotation_z(angle: i64) -> (m: Mat4)
        requires
            angle + HALF_PI_FX <= i64::MAX,
        ensures
            is_rot_z(m, angle as int),
    {
        let c = cos_fx(angle);
        let s = sin_fx(angle);
        Mat4 {
            x_axis: Vec4 { x: c, y: s, z: 0, w: 0 },
            y_axis: Vec4 { x: -s, y: c, z: 0, w: 0 },
            z_axis: Vec4 { x: 0, y: 0, z: FX_ONE, w: 0 },
            w_axis: Vec4 { x: 0, y: 0, z: 0, w: FX_ONE },
        }
    }

    /// The affine transform that scales the plane by `scale`, rotates about Z
    /// by `angle`, then translates by `translate`; Z is scaled to zero.
    pub fn from_scale_rotation_translation(scale: Vec2, angle: i64, translate: Vec2) -> (m: Mat4)
        requires
            angle + HALF_PI_FX <= i64::MAX,
            scale.bounded(FX_OP_MAX as int),
        ensures
            is_srt(
                m,
                scale.x as int,
                scale.y as int,
                angle as int,
                translate.x as int,
                translate.y as int,
            ),
    {
        let c = cos_fx(angle);
        let s = sin_fx(angle);
        proof {
            lemma_fx_mul_bound(s as int, scale.y as int, FX_ONE as int, FX_OP_MAX as int);
        }
        Mat4 {
            x_axis: Vec4 { x: fx_mul(c, scale.x), y: fx_mul(s, scale.x), z: 0, w: 0 },
            y_axis: Vec4 { x: -fx_mul(s, scale.y), y: fx_mul(c, scale.y), z: 0, w: 0 },
            z_axis: Vec4 { x: 0, y: 0, z: 0, w: 0 },
            w_axis: Vec4 { x: translate.x, y: translate.y, z: 0, w: FX_ONE },
        }
    }

    /// The right-handed OpenGL orthographic projection for the box
    /// `[left, right] x [bottom, top]`, near/far fixed at -1 and 1.
    pub fn orthographic_rh_gl(left: i64, right: i64, bottom: i64, top: i64) -> (m: Mat4)
        requires
            1 <= right - left <= i64::MAX,
            1 <= top - bottom <= i64::MAX,
            -FX_DIV_MAX <= left + right <= FX_DIV_MAX,
            -FX_DIV_MAX <= bottom + top <= FX_DIV_MAX,
        ensures
            is_ortho(m, left as int, right as int, bottom as int, top as int),
    {
        let inv_w = fx_div(2 * FX_ONE, right - left);
        let inv_h = fx_div(2 * FX_ONE, top - bottom);
        let tx = -fx_div(left + right, right - left);
        let ty = -fx_div(bottom + top, top - bottom);
        Mat4 {
            x_axis: Vec4 { x: inv_w, y: 0, z: 0, w: 0 },
            y_axis: Vec4 { x: 0, y: inv_h, z: 0, w: 0 },
            z_axis: Vec4 { x: 0, y: 0, z: -FX_ONE, w: 0 },
            w_axis: Vec4 { x: tx, y: ty, z: 0, w: FX_ONE },
        }
    }

    /// The product of `self` and a column vector.
    pub fn mul_vec4(&self, v: &Vec4) -> (r: Vec4)
        requires
            self.bounded(FX_OP_MAX as int),
            v.bounded(FX_OP_MAX as int),
        ensures
            is_mat_vec(r, *self, *v),
    {
        Vec4 {
            x: fx_dot4(
                self.x_axis.x,
                self.y_axis.x,
                self.z_axis.x,
                self.w_axis.x,
                v.x,
                v.y,
                v.z,
                v.w,
            ),
            y: fx_dot4(
                self.x_axis.y,
                self.y_axis.y,
                self.z_axis.y,
                self.w_axis.y,
                v.x,
                v.y,
                v.z,
                v.w,
            ),
            z: fx_dot4(
                self.x_axis.z,
                self.y_axis.z,
                self.z_axis.z,
                self.w_axis.z,
                v.x,
                v.y,
                v.z,
                v.w,
            ),
            w: fx_dot4(
                self.x_axis.w,
                self.y_axis.w,
                self.z_axis.w,
                self.w_axis.w,
                v.x,
                v.y,
                v.z,
                v.w,
            ),
        }
    }

    /// The matrix product `self * rhs`.
    pub fn mul_mat4(&self, rhs: &Mat4) -> (m: Mat4)
        requires
            self.bounded(FX_OP_MAX as int),
            rhs.bounded(FX_OP_MAX as int),
        ensures
            is_mul_of(m, *self, *rhs),
    {
        Mat4 {
            x_axis: self.mul_vec4(&rhs.x_axis),
            y_axis: self.mul_vec4(&rhs.y_axis),
            z_axis: self.mul_vec4(&rhs.z_axis),
            w_axis: self.mul_vec4(&rhs.w_axis),
        }
    }

    /// Appends the sixteen entries, column after column, to a buffer.
    pub fn push_cols(&self, out: &mut Vec<i64>)
        ensures
            final(out)@ == old(out)@ + cols_seq(*self),
    {
        out.push(self.x_axis.x);
        out.push(self.x_axis.y);
        out.push(self.x_axis.z);
        out.push(self.x_axis.w);
        out.push(self.y_axis.x);
        out.push(self.y_axis.y);
        out.push(self.y_axis.z);
        out.push(self.y_axis.w);
        out.push(self.z_axis.x);
        out.push(self.z_axis.y);
        out.push(self.z_axis.z);
        out.push(self.z_axis.w);
        out.push(self.w_axis.x);
        out.push(self.w_axis.y);
        out.push(self.w_axis.z);
        out.push(self.w_axis.w);
        proof {
            assert(out@ =~= old(out)@ + cols_seq(*self));
        }
    }
}

/// The composed affine transform is exactly the product of its three
/// factors: if `rs == r * s` and `m == t * rs` for a translation `t`, a
/// Z rotation `r` and a planar scale `s`, then `m` has the `is_srt` entries.
/// Fixed-point rounding loses nothing here, because every product in the
/// factors multiplies by zero or by one where the closed form has no factor.
pub proof fn lemma_srt_factors(
    t: Mat4,
    r: Mat4,
    s: Mat4,
    rs: Mat4,
    m: Mat4,
    sx: int,
    sy: int,
    rot: int,
    tx: int,
    ty: int,
)
    requires
        is_translation(t, tx, ty, 0),
        is_rot_z(r, rot),
        is_scale(s, sx, sy, 0),
        is_mul_of(rs, r, s),
        is_mul_of(m, t, rs),
    ensures
        is_srt(m, sx, sy, rot, tx, ty),
{
    let c = cos_fx_s(rot);
    let sn = sin_fx_s(rot);
    crate::fixed::lemma_fx_mul_neg(sn, sy);
    lemma_mat_vec_single_x(r, s.x_axis, rs.x_axis);
    lemma_mat_vec_single_y(r, s.y_axis, rs.y_axis);
    lemma_mat_vec_single_z(r, s.z_axis, rs.z_axis);
    lemma_mat_vec_single_w(r, s.w_axis, rs.w_axis);
    crate::fixed::lemma_fx_mul_zero(sx);
    crate::fixed::lemma_fx_mul_zero(sy);
    crate::fixed::lemma_fx_mul_zero(FX_ONE as int);
    crate::fixed::lemma_fx_mul_one(FX_ONE as int);
    crate::fixed::lemma_fx_mul_one(0);
    lemma_translate_affine(t, rs.x_axis, m.x_axis, tx, ty);
    lemma_translate_affine(t, rs.y_axis, m.y_axis, tx, ty);
    lemma_translate_affine(t, rs.z_axis, m.z_axis, tx, ty);
    lemma_translate_last_col(t, rs.w_axis, m.w_axis, tx, ty);
}

/// Helper: multiplying by a column whose only nonzero slot is `x` scales the
/// matrix's first column.
proof fn lemma_mat_vec_single_x(m: Mat4, v: Vec4, out: Vec4)
    requires
        is_mat_vec(out, m, v),
        v.y == 0,
        v.z == 0,
        v.w == 0,
    ensures
        out.x == fx_mul_s(m.x_axis.x as int, v.x as int),
        out.y == fx_mul_s(m.x_axis.y as int, v.x as int),
        out.z == fx_mul_s(m.x_axis.z as int, v.x as int),
        out.w == fx_mul_s(m.x_axis.w as int, v.x as int),
{
    crate::fixed::lemma_fx_mul_zero(m.y_axis.x as int);
    crate::fixed::lemma_fx_mul_zero(m.y_axis.y as int);
    crate::fixed::lemma_fx_mul_zero(m.y_axis.z as int);
    crate::fixed::lemma_fx_mul_zero(m.y_axis.w as int);
    crate::fixed::lemma_fx_mul_zero(m.z_axis.x as int);
    crate::fixed::lemma_fx_mul_zero(m.z_axis.y as int);
    crate::fixed::lemma_fx_mul_zero(m.z_axis.z as int);
    crate::fixed::lemma_fx_mul_zero(m.z_axis.w as int);
    crate::fixed::lemma_fx_mul_zero(m.w_axis.x as int);
    crate::fixed::lemma_fx_mul_zero(m.w_axis.y as int);
    crate::fixed::lemma_fx_mul_zero(m.w_axis.z as int);
    crate::fixed::lemma_fx_mul_zero(m.w_axis.w as int);
}

/// Helper: multiplying by a column whose only nonzero slot is `y` scales the
/// matrix's second column.
proof fn lemma_mat_vec_single_y(m: Mat4, v: Vec4, out: Vec4)
    requires
        is_mat_vec(out, m, v),
        v.x == 0,
        v.z == 0,
        v.w == 0,
    ensures
        out.x == fx_mul_s(m.y_axis.x as int, v.y as int),
        out.y == fx_mul_s(m.y_axis.y as int, v.y as int),
        out.z == fx_mul_s(m.y_axis.z as int, v.y as int),
        out.w == fx_mul_s(m.y_axis.w as int, v.y as int),
{
    crate::fixed::lemma_fx_mul_zero(m.x_axis.x as int);
    crate::fixed::lemma_fx_mul_zero(m.x_axis.y as int);
    crate::fixed::lemma_fx_mul_zero(m.x_axis.z as int);
    crate::fixed::lemma_fx_mul_zero(m.x_axis.w as int);
    crate::fixed::lemma_fx_mul_zero(m.z_axis.x as int);
    crate::fixed::lemma_fx_mul_zero(m.z_axis.y as int);
    crate::fixed::lemma_fx_mul_zero(m.z_axis.z as int);
    crate::fixed::lemma_fx_mul_zero(m.z_axis.w as int);
    crate::fixed::lemma_fx_mul_zero(m.w_axis.x as int);
    crate::fixed::lemma_fx_mul_zero(m.w_axis.y as int);
    crate::fixed::lemma_fx_mul_zero(m.w_axis.z as int);
    crate::fixed::lemma_fx_mul_zero(m.w_axis.w as int);
}

/// Helper: multiplying by a column whose only nonzero slot is `z` scales the
/// matrix's third column.
proof fn lemma_mat_vec_single_z(m: Mat4, v: Vec4, out: Vec4)
    requires
        is_mat_vec(out, m, v),
        v.x == 0,
        v.y == 0,
        v.w == 0,
    ensures
        out.x == fx_mul_s(m.z_axis.x as int, v.z as int),
        out.y == fx_mul_s(m.z_axis.y as int, v.z as int),
        out.z == fx_mul_s(m.z_axis.z as int, v.z as int),
        out.w == fx_mul_s(m.z_axis.w as int, v.z as int),
{
    crate::fixed::lemma_fx_mul_zero(m.x_axis.x as int);
    crate::fixed::lemma_fx_mul_zero(m.x_axis.y as int);
    crate::fixed::lemma_fx_mul_zero(m.x_axis.z as int);
    crate::fixed::lemma_fx_mul_zero(m.x_axis.w as int);
    crate::fixed::lemma_fx_mul_zero(m.y_axis.x as int);
    crate::fixed::lemma_fx_mul_zero(m.y_axis.y as int);
    crate::fixed::lemma_fx_mul_zero(m.y_axis.z as int);
    crate::fixed::lemma_fx_mul_zero(m.y_axis.w as int);
    crate::fixed::lemma_fx_mul_zero(m.w_axis.x as int);
    crate::fixed::lemma_fx_mul_zero(m.w_axis.y as int);
    crate::fixed::lemma_fx_mul_zero(m.w_axis.z as int);
    crate::fixed::lemma_fx_mul_zero(m.w_axis.w as int);
}

/// Helper: multiplying by a column whose only nonzero slot is `w` scales the
/// matrix's fourth column.
proof fn lemma_mat_vec_single_w(m: Mat4, v: Vec4, out: Vec4)
    requires
        is_mat_vec(out, m, v),
        v.x == 0,
        v.y == 0,
        v.z == 0,
    ensures
        out.x == fx_mul_s(m.w_axis.x as int, v.w as int),
        out.y == fx_mul_s(m.w_axis.y as int, v.w as int),
        out.z == fx_mul_s(m.w_axis.z as int, v.w as int),
        out.w == fx_mul_s(m.w_axis.w as int, v.w as int),
{
    crate::fixed::lemma_fx_mul_zero(m.x_axis.x as int);
    crate::fixed::lemma_fx_mul_zero(m.x_axis.y as int);
    crate::fixed::lemma_fx_mul_zero(m.x_axis.z as int);
    crate::fixed::lemma_fx_mul_zero(m.x_axis.w as int);
    crate::fixed::lemma_fx_mul_zero(m.y_axis.x as int);
    crate::fixed::lemma_fx_mul_zero(m.y_axis.y as int);
    crate::fixed::lemma_fx_mul_zero(m.y_axis.z as int);
    crate::fixed::lemma_fx_mul_zero(m.y_axis.w as int);
    crate::fixed::lemma_fx_mul_zero(m.z_axis.x as int);
    crate::fixed::lemma_fx_mul_zero(m.z_axis.y as int);
    crate::fixed::lemma_fx_mul_zero(m.z_axis.z as int);
    crate::fixed::lemma_fx_mul_zero(m.z_axis.w as int);
}

/// Helper: a translation applied to an affine column with `w == 0` leaves
/// the column unchanged.
proof fn lemma_translate_affine(t: Mat4, v: Vec4, out: Vec4, tx: int, ty: int)
    requires
        is_translation(t, tx, ty, 0),
        is_mat_vec(out, t, v),
        v.w == 0,
    ensures
        out.x == v.x,
        out.y == v.y,
        out.z == v.z,
        out.w == 0,
{
    crate::fixed::lemma_fx_mul_one(v.x as int);
    crate::fixed::lemma_fx_mul_one(v.y as int);
    crate::fixed::lemma_fx_mul_one(v.z as int);
    crate::fixed::lemma_fx_mul_zero(v.x as int);
    crate::fixed::lemma_fx_mul_zero(v.y as int);
    crate::fixed::lemma_fx_mul_zero(v.z as int);
    crate::fixed::lemma_fx_mul_zero(t.w_axis.x as int);
    crate::fixed::lemma_fx_mul_zero(t.w_axis.y as int);
    crate::fixed::lemma_fx_mul_zero(t.w_axis.z as int);
    crate::fixed::lemma_fx_mul_zero(t.w_axis.w as int);
    crate::fixed::lemma_fx_mul_zero(0);
}

/// Helper: a translation applied to the homogeneous column `(0,0,0,1)`
/// yields the translation column.
proof fn lemma_translate_last_col(t: Mat4, v: Vec4, out: Vec4, tx: int, ty: int)
    requires
        is_translation(t, tx, ty, 0),
        is_mat_vec(out, t, v),
        v.x == 0,
        v.y == 0,
        v.z == 0,
        v.w == FX_ONE,
    ensures
        out.x == tx,
        out.y == ty,
        out.z == 0,
        out.w == FX_ONE,
{
    crate::fixed::lemma_fx_mul_one(tx);
    crate::fixed::lemma_fx_mul_one(ty);
    crate::fixed::lemma_fx_mul_one(0);
    crate::fixed::lemma_fx_mul_one(FX_ONE as int);
    crate::fixed::lemma_fx_mul_zero(t.x_axis.x as int);
    crate::fixed::lemma_fx_mul_zero(t.y_axis.y as int);
    crate::fixed::lemma_fx_mul_zero(t.z_axis.z as int);
    crate::fixed::lemma_fx_mul_zero(FX_ONE as int);
    crate::fixed::lemma_fx_mul_zero(0);
}

/// Multiplying any bounded matrix by the identity on the right returns the
/// same entries.
pub proof fn lemma_mul_identity_right(c: Mat4, a: Mat4, i: Mat4)
    requires
        is_identity(i),
        is_mul_of(c, a, i),
    ensures
        c == a,
{
    crate::fixed::lemma_fx_mul_one(a.x_axis.x as int);
    lemma_mat_vec_identity_cols(c, a, i);
}

/// Helper: each column of `a * I` is the corresponding column of `a`.
proof fn lemma_mat_vec_identity_cols(c: Mat4, a: Mat4, i: Mat4)
    requires
        is_identity(i),
        is_mul_of(c, a, i),
    ensures
        c == a,
{
    lemma_mat_vec_unit(c.x_axis, a, i.x_axis);
    lemma_mat_vec_unit(c.y_axis, a, i.y_axis);
    lemma_mat_vec_unit(c.z_axis, a, i.z_axis);
    lemma_mat_vec_unit(c.w_axis, a, i.w_axis);
    assert(c.x_axis == a.x_axis);
    assert(c.y_axis == a.y_axis);
    assert(c.z_axis == a.z_axis);
    assert(c.w_axis == a.w_axis);
}

/// Helper: multiplying by a standard basis column selects a column of `m`.
proof fn lemma_mat_vec_unit(r: Vec4, m: Mat4, v: Vec4)
    requires
        is_mat_vec(r, m, v),
        v.x == FX_ONE || v.x == 0,
        v.y == FX_ONE || v.y == 0,
        v.z == FX_ONE || v.z == 0,
        v.w == FX_ONE || v.w == 0,
        (if v.x == FX_ONE {
            1int
        } else {
            0int
        }) + (if v.y == FX_ONE {
            1int
        } else {
            0int
        }) + (if v.z == FX_ONE {
            1int
        } else {
            0int
        }) + (if v.w == FX_ONE {
            1int
        } else {
            0int
        }) == 1,
    ensures
        v.x == FX_ONE ==> r == m.x_axis,
        v.y == FX_ONE ==> r == m.y_axis,
        v.z == FX_ONE ==> r == m.z_axis,
        v.w == FX_ONE ==> r == m.w_axis,
{
    crate::fixed::lemma_fx_mul_one(m.x_axis.x as int);
    lemma_unit_component(r.x as int, m.x_axis.x as int, m.y_axis.x as int, m.z_axis.x as int, m.w_axis.x as int, v);
    lemma_unit_component(r.y as int, m.x_axis.y as int, m.y_axis.y as int, m.z_axis.y as int, m.w_axis.y as int, v);
    lemma_unit_component(r.z as int, m.x_axis.z as int, m.y_axis.z as int, m.z_axis.z as int, m.w_axis.z as int, v);
    lemma_unit_component(r.w as int, m.x_axis.w as int, m.y_axis.w as int, m.z_axis.w as int, m.w_axis.w as int, v);
}

/// Helper: one component of a product with a standard basis column.
proof fn lemma_unit_component(r: int, e0: int, e1: int, e2: int, e3: int, v: Vec4)
    requires
        r == fx_mul_s(e0, v.x as int) + fx_mul_s(e1, v.y as int) + fx_mul_s(e2, v.z as int)
            + fx_mul_s(e3, v.w as int),
        v.x == FX_ONE || v.x == 0,
        v.y == FX_ONE || v.y == 0,
        v.z == FX_ONE || v.z == 0,
        v.w == FX_ONE || v.w == 0,
    ensures
        v.x == FX_ONE && v.y == 0 && v.z == 0 && v.w == 0 ==> r == e0,
        v.x == 0 && v.y == FX_ONE && v.z == 0 && v.w == 0 ==> r == e1,
        v.x == 0 && v.y == 0 && v.z == FX_ONE && v.w == 0 ==> r == e2,
        v.x == 0 && v.y == 0 && v.z == 0 && v.w == FX_ONE ==> r == e3,
{
    crate::fixed::lemma_fx_mul_one(e0);
    crate::fixed::lemma_fx_mul_one(e1);
    crate::fixed::lemma_fx_mul_one(e2);
    crate::fixed::lemma_fx_mul_one(e3);
    crate::fixed::lemma_fx_mul_zero(e0);
    crate::fixed::lemma_fx_mul_zero(e1);
    crate::fixed::lemma_fx_mul_zero(e2);
    crate::fixed::lemma_fx_mul_zero(e3);
}

} // verus!
