//! The transform stage: model/view/projection, perspective divide and
//! screen mapping, in exact fixed-point arithmetic.
//!
//! The renderer keeps two matrices computed once from the terminal's
//! character-grid dimensions: a perspective projection (90° vertical
//! field of view, near plane 0.1, far plane 100) and a view matrix
//! (camera at (0, 0, 5) looking at the origin, up along Y).  Each
//! vertex is carried through model, view and projection in turn,
//! divided by the homogeneous w, and mapped from [-1, 1] to screen
//! cells with y inverted.  A vertex whose w is close to zero is
//! behind the camera and is skipped, as is one whose intermediate
//! coordinates leave the fixed-point working range.

use vstd::prelude::*;
use crate::fixed::FP_ONE;
use crate::fixed::abs_int;
use crate::fixed::tdiv;
use crate::fixed::fp_mul;
use crate::fixed::fp_div;
use crate::fixed::fixed_mul;
use crate::fixed::fixed_div_checked;
use crate::fixed::lemma_abs_mul_bound;
use crate::fixed::lemma_fp_mul_bound;
use crate::fixed::lemma_fp_mul_one;
use crate::fixed::lemma_fp_mul_zero;
use crate::fixed::lemma_tdiv_bound;
use crate::raster::ProjectedPoint;

verus! {

/// Largest magnitude accepted for an entry of a model matrix.
pub const MODEL_ENTRY_LIMIT: i64 = 0x10_0000_0000;

/// Largest magnitude accepted for a coordinate entering a transform.
pub const COORD_LIMIT: i64 = 0x100_0000_0000;

/// Largest magnitude accepted for a normalized device coordinate.
pub const NDC_LIMIT: i64 = 0x100_0000_0000;

/// Smallest homogeneous |w| treated as in front of the camera.
pub const MIN_CLIP_W: i64 = 256;

/// A 3-component fixed-point vector.
#[derive(Clone, Copy, Debug, PartialEq, Eq, Structural)]
pub struct Vec3Fp {
    /// X component.
    pub x: i64,
    /// Y component.
    pub y: i64,
    /// Z component.
    pub z: i64,
}

/// A 4-component fixed-point vector (homogeneous coordinates).
#[derive(Clone, Copy, Debug, PartialEq, Eq, Structural)]
pub struct Vec4Fp {
    /// X component.
    pub x: i64,
    /// Y component.
    pub y: i64,
    /// Z component.
    pub z: i64,
    /// Homogeneous w component.
    pub w: i64,
}

/// A 4×4 fixed-point matrix, row-major: `mRC` is row R, column C.
#[derive(Clone, Copy, Debug, PartialEq, Eq, Structural)]
pub struct Mat4 {
    pub m00: i64,
    pub m01: i64,
    pub m02: i64,
    pub m03: i64,
    pub m10: i64,
    pub m11: i64,
    pub m12: i64,
    pub m13: i64,
    pub m20: i64,
    pub m21: i64,
    pub m22: i64,
    pub m23: i64,
    pub m30: i64,
    pub m31: i64,
    pub m32: i64,
    pub m33: i64,
}

/// Every entry of the matrix has magnitude at most `bound`.
pub open spec fn mat_in_bound(m: Mat4, bound: int) -> bool {
    &&& abs_int(m.m00 as int) <= bound
    &&& abs_int(m.m01 as int) <= bound
    &&& abs_int(m.m02 as int) <= bound
    &&& abs_int(m.m03 as int) <= bound
    &&& abs_int(m.m10 as int) <= bound
    &&& abs_int(m.m11 as int) <= bound
    &&& abs_int(m.m12 as int) <= bound
    &&& abs_int(m.m13 as int) <= bound
    &&& abs_int(m.m20 as int) <= bound
    &&& abs_int(m.m21 as int) <= bound
    &&& abs_int(m.m22 as int) <= bound
    &&& abs_int(m.m23 as int) <= bound
    &&& abs_int(m.m30 as int) <= bound
    &&& abs_int(m.m31 as int) <= bound
    &&& abs_int(m.m32 as int) <= bound
    &&& abs_int(m.m33 as int) <= bound
}

/// Every component of the vector has magnitude at most `bound`.
pub open spec fn vec4_in_bound(v: Vec4Fp, bound: int) -> bool {
    &&& abs_int(v.x as int) <= bound
    &&& abs_int(v.y as int) <= bound
    &&& abs_int(v.z as int) <= bound
    &&& abs_int(v.w as int) <= bound
}

/// One row of a matrix applied to a vector: the fixed-point dot
/// product of the row (a, b, c, d) with (x, y, z, w).
pub open spec fn row_apply(
    a: int,
    b: int,
    c: int,
    d: int,
    x: int,
    y: int,
    z: int,
    w: int,
) -> int {
    fp_mul(a, x) + fp_mul(b, y) + fp_mul(c, z) + fp_mul(d, w)
}

/// A matrix applied to a homogeneous vector, component by component.
pub open spec fn mat_vec_spec(m: Mat4, v: Vec4Fp) -> (int, int, int, int) {
    (
        row_apply(
            m.m00 as int,
            m.m01 as int,
            m.m02 as int,
            m.m03 as int,
            v.x as int,
            v.y as int,
            v.z as int,
            v.w as int,
        ),
        row_apply(
            m.m10 as int,
            m.m11 as int,
            m.m12 as int,
            m.m13 as int,
            v.x as int,
            v.y as int,
            v.z as int,
            v.w as int,
        ),
        row_apply(
            m.m20 as int,
            m.m21 as int,
            m.m22 as int,
            m.m23 as int,
            v.x as int,
            v.y as int,
            v.z as int,
            v.w as int,
        ),
        row_apply(
            m.m30 as int,
            m.m31 as int,
            m.m32 as int,
            m.m33 as int,
            v.x as int,
            v.y as int,
            v.z as int,
            v.w as int,
        ),
    )
}

/// Fixed-point dot product of a matrix row with a vector, with the
/// working bounds that keep every step inside the 64-bit range.
fn dot4(a: i64, b: i64, c: i64, d: i64, x: i64, y: i64, z: i64, w: i64) -> (r: i64)
    requires
        abs_int(a as int) <= MODEL_ENTRY_LIMIT,
        abs_int(b as int) <= MODEL_ENTRY_LIMIT,
        abs_int(c as int) <= MODEL_ENTRY_LIMIT,
        abs_int(d as int) <= MODEL_ENTRY_LIMIT,
        abs_int(x as int) <= COORD_LIMIT,
        abs_int(y as int) <= COORD_LIMIT,
        abs_int(z as int) <= COORD_LIMIT,
        abs_int(w as int) <= COORD_LIMIT,
    ensures
        r as int == row_apply(a as int, b as int, c as int, d as int, x as int, y as int, z as int, w as int),
        abs_int(r as int) <= 0x4000_0000_0000_0000,
{
    proof {
        lemma_abs_mul_bound(a as int, x as int, MODEL_ENTRY_LIMIT as int, COORD_LIMIT as int);
        lemma_abs_mul_bound(b as int, y as int, MODEL_ENTRY_LIMIT as int, COORD_LIMIT as int);
        lemma_abs_mul_bound(c as int, z as int, MODEL_ENTRY_LIMIT as int, COORD_LIMIT as int);
        lemma_abs_mul_bound(d as int, w as int, MODEL_ENTRY_LIMIT as int, COORD_LIMIT as int);
        lemma_fp_mul_bound(a as int, x as int, MODEL_ENTRY_LIMIT as int, COORD_LIMIT as int);
        lemma_fp_mul_bound(b as int, y as int, MODEL_ENTRY_LIMIT as int, COORD_LIMIT as int);
        lemma_fp_mul_bound(c as int, z as int, MODEL_ENTRY_LIMIT as int, COORD_LIMIT as int);
        lemma_fp_mul_bound(d as int, w as int, MODEL_ENTRY_LIMIT as int, COORD_LIMIT as int);
    }
    let t0 = fixed_mul(a, x);
    let t1 = fixed_mul(b, y);
    let t2 = fixed_mul(c, z);
    let t3 = fixed_mul(d, w);
    t0 + t1 + t2 + t3
}

/// A matrix applied to a homogeneous vector.
pub fn mat_vec_mul(m: &Mat4, v: Vec4Fp) -> (r: Vec4Fp)
    requires
        mat_in_bound(*m, MODEL_ENTRY_LIMIT as int),
        vec4_in_bound(v, COORD_LIMIT as int),
    ensures
        (r.x as int, r.y as int, r.z as int, r.w as int) == mat_vec_spec(*m, v),
        vec4_in_bound(r, 0x4000_0000_0000_0000),
{
    let x = dot4(m.m00, m.m01, m.m02, m.m03, v.x, v.y, v.z, v.w);
    let y = dot4(m.m10, m.m11, m.m12, m.m13, v.x, v.y, v.z, v.w);
    let z = dot4(m.m20, m.m21, m.m22, m.m23, v.x, v.y, v.z, v.w);
    let w = dot4(m.m30, m.m31, m.m32, m.m33, v.x, v.y, v.z, v.w);
    Vec4Fp { x, y, z, w }
}

impl Mat4 {
    /// The identity matrix.
    pub open spec fn identity_spec() -> Mat4 {
        Mat4 {
            m00: 65536, m01: 0, m02: 0, m03: 0,
            m10: 0, m11: 65536, m12: 0, m13: 0,
            m20: 0, m21: 0, m22: 65536, m23: 0,
            m30: 0, m31: 0, m32: 0, m33: 65536,
        }
    }

    /// Build the identity matrix.
    pub fn identity() -> (m: Mat4)
        ensures
            m == Mat4::identity_spec(),
    {
        Mat4 {
            m00: 65536, m01: 0, m02: 0, m03: 0,
            m10: 0, m11: 65536, m12: 0, m13: 0,
            m20: 0, m21: 0, m22: 65536, m23: 0,
            m30: 0, m31: 0, m32: 0, m33: 65536,
        }
    }

    /// Build a translation by (tx, ty, tz).
    pub fn translation(tx: i64, ty: i64, tz: i64) -> (m: Mat4)
        ensures
            m == (Mat4 {
                m00: 65536, m01: 0, m02: 0, m03: tx,
                m10: 0, m11: 65536, m12: 0, m13: ty,
                m20: 0, m21: 0, m22: 65536, m23: tz,
                m30: 0, m31: 0, m32: 0, m33: 65536,
            }),
    {
        Mat4 {
            m00: 65536, m01: 0, m02: 0, m03: tx,
            m10: 0, m11: 65536, m12: 0, m13: ty,
            m20: 0, m21: 0, m22: 65536, m23: tz,
            m30: 0, m31: 0, m32: 0, m33: 65536,
        }
    }

    /// Build the rotation about the X axis with the given fixed-point
    /// sine and cosine.
    pub fn rotation_x(s: i64, c: i64) -> (m: Mat4)
        requires
            abs_int(s as int) <= 65536,
            abs_int(c as int) <= 65536,
        ensures
            m.m00 == 65536 && m.m01 == 0 && m.m02 == 0 && m.m03 == 0,
            m.m10 == 0 && m.m11 == c && m.m12 == -(s as int) && m.m13 == 0,
            m.m20 == 0 && m.m21 == s && m.m22 == c && m.m23 == 0,
            m.m30 == 0 && m.m31 == 0 && m.m32 == 0 && m.m33 == 65536,
    {
        Mat4 {
            m00: 65536, m01: 0, m02: 0, m03: 0,
            m10: 0, m11: c, m12: -s, m13: 0,
            m20: 0, m21: s, m22: c, m23: 0,
            m30: 0, m31: 0, m32: 0, m33: 65536,
        }
    }

    /// Build the rotation about the Y axis with the given fixed-point
    /// sine and cosine.
    pub fn rotation_y(s: i64, c: i64) -> (m: Mat4)
        requires
            abs_int(s as int) <= 65536,
            abs_int(c as int) <= 65536,
        ensures
            m.m00 == c && m.m01 == 0 && m.m02 == s && m.m03 == 0,
            m.m10 == 0 && m.m11 == 65536 && m.m12 == 0 && m.m13 == 0,
            m.m20 == -(s as int) && m.m21 == 0 && m.m22 == c && m.m23 == 0,
            m.m30 == 0 && m.m31 == 0 && m.m32 == 0 && m.m33 == 65536,
    {
        Mat4 {
            m00: c, m01: 0, m02: s, m03: 0,
            m10: 0, m11: 65536, m12: 0, m13: 0,
            m20: -s, m21: 0, m22: c, m23: 0,
            m30: 0, m31: 0, m32: 0, m33: 65536,
        }
    }

    /// Build the rotation about the Z axis with the given fixed-point
    /// sine and cosine.
    pub fn rotation_z(s: i64, c: i64) -> (m: Mat4)
        requires
            abs_int(s as int) <= 65536,
            abs_int(c as int) <= 65536,
        ensures
            m.m00 == c && m.m01 == -(s as int) && m.m02 == 0 && m.m03 == 0,
            m.m10 == s && m.m11 == c && m.m12 == 0 && m.m13 == 0,
            m.m20 == 0 && m.m21 == 0 && m.m22 == 65536 && m.m23 == 0,
            m.m30 == 0 && m.m31 == 0 && m.m32 == 0 && m.m33 == 65536,
    {
        Mat4 {
            m00: c, m01: -s, m02: 0, m03: 0,
            m10: s, m11: c, m12: 0, m13: 0,
            m20: 0, m21: 0, m22: 65536, m23: 0,
            m30: 0, m31: 0, m32: 0, m33: 65536,
        }
    }
}

/// The product of two matrices, entry by entry, with working bounds
/// suited to composing rotations and translations into a model
/// matrix.
pub fn mat_mul(a: &Mat4, b: &Mat4) -> (r: Mat4)
    requires
        mat_in_bound(*a, 0x4000_0000),
        mat_in_bound(*b, 0x4000_0000),
    ensures
        r.m00 as int == row_apply(a.m00 as int, a.m01 as int, a.m02 as int, a.m03 as int, b.m00 as int, b.m10 as int, b.m20 as int, b.m30 as int),
        r.m01 as int == row_apply(a.m00 as int, a.m01 as int, a.m02 as int, a.m03 as int, b.m01 as int, b.m11 as int, b.m21 as int, b.m31 as int),
        r.m02 as int == row_apply(a.m00 as int, a.m01 as int, a.m02 as int, a.m03 as int, b.m02 as int, b.m12 as int, b.m22 as int, b.m32 as int),
        r.m03 as int == row_apply(a.m00 as int, a.m01 as int, a.m02 as int, a.m03 as int, b.m03 as int, b.m13 as int, b.m23 as int, b.m33 as int),
        r.m10 as int == row_apply(a.m10 as int, a.m11 as int, a.m12 as int, a.m13 as int, b.m00 as int, b.m10 as int, b.m20 as int, b.m30 as int),
        r.m11 as int == row_apply(a.m10 as int, a.m11 as int, a.m12 as int, a.m13 as int, b.m01 as int, b.m11 as int, b.m21 as int, b.m31 as int),
        r.m12 as int == row_apply(a.m10 as int, a.m11 as int, a.m12 as int, a.m13 as int, b.m02 as int, b.m12 as int, b.m22 as int, b.m32 as int),
        r.m13 as int == row_apply(a.m10 as int, a.m11 as int, a.m12 as int, a.m13 as int, b.m03 as int, b.m13 as int, b.m23 as int, b.m33 as int),
        r.m20 as int == row_apply(a.m20 as int, a.m21 as int, a.m22 as int, a.m23 as int, b.m00 as int, b.m10 as int, b.m20 as int, b.m30 as int),
        r.m21 as int == row_apply(a.m20 as int, a.m21 as int, a.m22 as int, a.m23 as int, b.m01 as int, b.m11 as int, b.m21 as int, b.m31 as int),
        r.m22 as int == row_apply(a.m20 as int, a.m21 as int, a.m22 as int, a.m23 as int, b.m02 as int, b.m12 as int, b.m22 as int, b.m32 as int),
        r.m23 as int == row_apply(a.m20 as int, a.m21 as int, a.m22 as int, a.m23 as int, b.m03 as int, b.m13 as int, b.m23 as int, b.m33 as int),
        r.m30 as int == row_apply(a.m30 as int, a.m31 as int, a.m32 as int, a.m33 as int, b.m00 as int, b.m10 as int, b.m20 as int, b.m30 as int),
        r.m31 as int == row_apply(a.m30 as int, a.m31 as int, a.m32 as int, a.m33 as int, b.m01 as int, b.m11 as int, b.m21 as int, b.m31 as int),
        r.m32 as int == row_apply(a.m30 as int, a.m31 as int, a.m32 as int, a.m33 as int, b.m02 as int, b.m12 as int, b.m22 as int, b.m32 as int),
        r.m33 as int == row_apply(a.m30 as int, a.m31 as int, a.m32 as int, a.m33 as int, b.m03 as int, b.m13 as int, b.m23 as int, b.m33 as int),
        mat_in_bound(r, 0x4000_0000_0000_0000),
{
    let r0 = mat_vec_mul(&Mat4 {
        m00: a.m00, m01: a.m01, m02: a.m02, m03: a.m03,
        m10: a.m10, m11: a.m11, m12: a.m12, m13: a.m13,
        m20: a.m20, m21: a.m21, m22: a.m22, m23: a.m23,
        m30: a.m30, m31: a.m31, m32: a.m32, m33: a.m33,
    }, Vec4Fp { x: b.m00, y: b.m10, z: b.m20, w: b.m30 });
    let r1 = mat_vec_mul(a, Vec4Fp { x: b.m01, y: b.m11, z: b.m21, w: b.m31 });
    let r2 = mat_vec_mul(a, Vec4Fp { x: b.m02, y: b.m12, z: b.m22, w: b.m32 });
    let r3 = mat_vec_mul(a, Vec4Fp { x: b.m03, y: b.m13, z: b.m23, w: b.m33 });
    Mat4 {
        m00: r0.x, m01: r1.x, m02: r2.x, m03: r3.x,
        m10: r0.y, m11: r1.y, m12: r2.y, m13: r3.y,
        m20: r0.z, m21: r1.z, m22: r2.z, m23: r3.z,
        m30: r0.w, m31: r1.w, m32: r2.w, m33: r3.w,
    }
}


/// A vector's components all lie within `limit` in magnitude.
fn vec4_in_range(v: &Vec4Fp, limit: i64) -> (b: bool)
    requires
        limit >= 0,
    ensures
        b == vec4_in_bound(*v, limit as int),
{
    v.x >= -limit && v.x <= limit && v.y >= -limit && v.y <= limit && v.z >= -limit && v.z
        <= limit && v.w >= -limit && v.w <= limit
}

/// A matrix's entries all lie within `limit` in magnitude.
pub fn mat_in_range(m: &Mat4, limit: i64) -> (b: bool)
    requires
        limit >= 0,
    ensures
        b == mat_in_bound(*m, limit as int),
{
    m.m00 >= -limit && m.m00 <= limit && m.m01 >= -limit && m.m01 <= limit && m.m02 >= -limit
        && m.m02 <= limit && m.m03 >= -limit && m.m03 <= limit && m.m10 >= -limit && m.m10
        <= limit && m.m11 >= -limit && m.m11 <= limit && m.m12 >= -limit && m.m12 <= limit
        && m.m13 >= -limit && m.m13 <= limit && m.m20 >= -limit && m.m20 <= limit && m.m21
        >= -limit && m.m21 <= limit && m.m22 >= -limit && m.m22 <= limit && m.m23 >= -limit
        && m.m23 <= limit && m.m30 >= -limit && m.m30 <= limit && m.m31 >= -limit && m.m31
        <= limit && m.m32 >= -limit && m.m32 <= limit && m.m33 >= -limit && m.m33 <= limit
}

/// All four components of a spec-level vector lie within `bound`.
pub open spec fn quad_in_bound(t: (int, int, int, int), bound: int) -> bool {
    &&& abs_int(t.0) <= bound
    &&& abs_int(t.1) <= bound
    &&& abs_int(t.2) <= bound
    &&& abs_int(t.3) <= bound
}

/// Horizontal screen cell of a normalized device x: map [-1, 1] to
/// [0, width].
pub open spec fn screen_x_of(nx: int, width: int) -> int {
    tdiv((nx + 65536) * width, 131072)
}

/// Vertical screen cell of a normalized device y, inverted so the
/// screen origin is the top left.
pub open spec fn screen_y_of(ny: int, height: int) -> int {
    tdiv((65536 - ny) * height, 131072)
}

/// What projecting one vertex yields: the vertex carried through
/// model, view and projection, divided by w, and mapped to screen
/// cells; `None` when the vertex leaves the fixed-point working
/// range or lands too close to (or behind) the camera plane.
pub open spec fn project_spec(
    proj: Mat4,
    view: Mat4,
    model: Mat4,
    pos: Vec3Fp,
    width: int,
    height: int,
) -> Option<ProjectedPoint> {
    let v0 = Vec4Fp { x: pos.x, y: pos.y, z: pos.z, w: 65536 };
    if !mat_in_bound(model, MODEL_ENTRY_LIMIT as int) || !vec4_in_bound(
        v0,
        COORD_LIMIT as int,
    ) {
        None
    } else {
        let t1 = mat_vec_spec(model, v0);
        if !quad_in_bound(t1, COORD_LIMIT as int) {
            None
        } else {
            let t2 = mat_vec_spec(
                view,
                Vec4Fp { x: t1.0 as i64, y: t1.1 as i64, z: t1.2 as i64, w: t1.3 as i64 },
            );
            if !quad_in_bound(t2, COORD_LIMIT as int) {
                None
            } else {
                let t3 = mat_vec_spec(
                    proj,
                    Vec4Fp { x: t2.0 as i64, y: t2.1 as i64, z: t2.2 as i64, w: t2.3 as i64 },
                );
                if t3.3 < MIN_CLIP_W as int {
                    None
                } else {
                    let nx = fp_div(t3.0, t3.3);
                    let ny = fp_div(t3.1, t3.3);
                    let nz = fp_div(t3.2, t3.3);
                    if abs_int(nx) > NDC_LIMIT as int || abs_int(ny) > NDC_LIMIT as int
                        || abs_int(nz) > NDC_LIMIT as int {
                        None
                    } else {
                        Some(
                            ProjectedPoint {
                                x: screen_x_of(nx, width) as i64,
                                y: screen_y_of(ny, height) as i64,
                                depth: nz as i64,
                            },
                        )
                    }
                }
            }
        }
    }
}

/// The render state: view and projection matrices computed once from
/// the terminal dimensions, in character cells.
pub struct Renderer {
    /// The view matrix: camera at (0, 0, 5) looking at the origin.
    pub view_matrix: Mat4,
    /// The perspective projection matrix.
    pub projection_matrix: Mat4,
    /// Terminal width in character cells.
    pub width: u16,
    /// Terminal height in character cells.
    pub height: u16,
}

impl Renderer {
    /// The matrices are within the transform working range and the
    /// screen has at least one cell.
    pub open spec fn well_formed(self) -> bool {
        &&& mat_in_bound(self.view_matrix, MODEL_ENTRY_LIMIT as int)
        &&& mat_in_bound(self.projection_matrix, MODEL_ENTRY_LIMIT as int)
        &&& self.width >= 1
        &&& self.height >= 1
    }

    /// The view matrix: the camera sits at (0, 0, 5) on the Z axis
    /// looking at the origin with up along Y, so the view transform
    /// is a pure translation by −5 along Z.
    pub open spec fn view_matrix_spec() -> Mat4 {
        Mat4 {
            m00: 65536, m01: 0, m02: 0, m03: 0,
            m10: 0, m11: 65536, m12: 0, m13: 0,
            m20: 0, m21: 0, m22: 65536, m23: -327680i64,
            m30: 0, m31: 0, m32: 0, m33: 65536,
        }
    }

    /// The perspective projection matrix for the given terminal
    /// dimensions: 90° vertical field of view (so the focal scale is
    /// exactly 1), near plane 0.1, far plane 100.  Row 0 scales x by
    /// height/width (the aspect correction), row 2 maps depth by
    /// far/(near−far) = −1000/999 with offset far·near/(near−far)
    /// = −100/999, and row 3 copies −z into w.
    pub open spec fn projection_matrix_spec(width: int, height: int) -> Mat4 {
        Mat4 {
            m00: tdiv(height * 65536, width) as i64, m01: 0, m02: 0, m03: 0,
            m10: 0, m11: 65536, m12: 0, m13: 0,
            m20: 0, m21: 0, m22: -65601i64, m23: -6560i64,
            m30: 0, m31: 0, m32: -65536i64, m33: 0,
        }
    }

    /// Build the render state from the terminal dimensions: the
    /// perspective projection for this aspect ratio, and the fixed
    /// view matrix.
    pub fn new(width: u16, height: u16) -> (r: Renderer)
        requires
            width >= 1,
            height >= 1,
        ensures
            r.well_formed(),
            r.width == width,
            r.height == height,
            r.view_matrix == Renderer::view_matrix_spec(),
            r.projection_matrix == Renderer::projection_matrix_spec(
                width as int,
                height as int,
            ),
            r.projection_matrix.m22 == tdiv(-1000 * 65536, 999),
            r.projection_matrix.m23 == tdiv(-100 * 65536, 999),
    {
        let p00: i64 = (height as i64) * 65536 / (width as i64);
        proof {
            lemma_tdiv_bound(height as int * 65536, width as int);
            vstd::arithmetic::div_mod::lemma_div_is_ordered_by_denominator(
                height as int * 65536,
                1,
                width as int,
            );
            vstd::arithmetic::div_mod::lemma_div_basics_2(height as int * 65536);
            vstd::arithmetic::div_mod::lemma_fundamental_div_mod_converse(
                65536000,
                999,
                65601,
                601,
            );
            vstd::arithmetic::div_mod::lemma_fundamental_div_mod_converse(
                6553600,
                999,
                6560,
                160,
            );
            assert(tdiv(-1000 * 65536, 999) == -65601);
            assert(tdiv(-100 * 65536, 999) == -6560);
        }
        let projection_matrix = Mat4 {
            m00: p00, m01: 0, m02: 0, m03: 0,
            m10: 0, m11: 65536, m12: 0, m13: 0,
            m20: 0, m21: 0, m22: -65601, m23: -6560,
            m30: 0, m31: 0, m32: -65536, m33: 0,
        };
        let view_matrix = Mat4 {
            m00: 65536, m01: 0, m02: 0, m03: 0,
            m10: 0, m11: 65536, m12: 0, m13: 0,
            m20: 0, m21: 0, m22: 65536, m23: -327680,
            m30: 0, m31: 0, m32: 0, m33: 65536,
        };
        Renderer { view_matrix, projection_matrix, width, height }
    }

    /// Project one vertex with an explicit model matrix.
    pub fn project_with_model(&self, model: &Mat4, position: Vec3Fp) -> (r: Option<
        ProjectedPoint,
    >)
        requires
            self.well_formed(),
        ensures
            r == project_spec(
                self.projection_matrix,
                self.view_matrix,
                *model,
                position,
                self.width as int,
                self.height as int,
            ),
    {
        if !mat_in_range(model, MODEL_ENTRY_LIMIT) {
            return None;
        }
        let v0 = Vec4Fp { x: position.x, y: position.y, z: position.z, w: FP_ONE };
        if !vec4_in_range(&v0, COORD_LIMIT) {
            return None;
        }
        let v1 = mat_vec_mul(model, v0);
        if !vec4_in_range(&v1, COORD_LIMIT) {
            return None;
        }
        let v2 = mat_vec_mul(&self.view_matrix, v1);
        if !vec4_in_range(&v2, COORD_LIMIT) {
            return None;
        }
        let v3 = mat_vec_mul(&self.projection_matrix, v2);
        if v3.w < MIN_CLIP_W {
            return None;
        }
        let nxo = fixed_div_checked(v3.x, v3.w, NDC_LIMIT);
        if nxo.is_none() {
            return None;
        }
        let nyo = fixed_div_checked(v3.y, v3.w, NDC_LIMIT);
        if nyo.is_none() {
            return None;
        }
        let nzo = fixed_div_checked(v3.z, v3.w, NDC_LIMIT);
        if nzo.is_none() {
            return None;
        }
        let nx = nxo.unwrap();
        let ny = nyo.unwrap();
        let nz = nzo.unwrap();
        proof {
            lemma_abs_mul_bound(
                nx as int + 65536,
                self.width as int,
                NDC_LIMIT as int + 65536,
                65535,
            );
            lemma_abs_mul_bound(
                65536 - ny as int,
                self.height as int,
                NDC_LIMIT as int + 65536,
                65535,
            );
            lemma_tdiv_bound((nx as int + 65536) * self.width as int, 131072);
            lemma_tdiv_bound((65536 - ny as int) * self.height as int, 131072);
            vstd::arithmetic::div_mod::lemma_div_is_ordered(
                abs_int((nx as int + 65536) * self.width as int),
                (NDC_LIMIT as int + 65536) * 65535,
                131072,
            );
            vstd::arithmetic::div_mod::lemma_div_is_ordered(
                abs_int((65536 - ny as int) * self.height as int),
                (NDC_LIMIT as int + 65536) * 65535,
                131072,
            );
        }
        let sx: i64 = (nx + FP_ONE) * (self.width as i64) / 131072;
        let sy: i64 = (FP_ONE - ny) * (self.height as i64) / 131072;
        Some(ProjectedPoint { x: sx, y: sy, depth: nz })
    }

    /// Project one vertex of the model with the identity model
    /// matrix.
    pub fn project(&self, position: Vec3Fp) -> (r: Option<ProjectedPoint>)
        requires
            self.well_formed(),
        ensures
            r == project_spec(
                self.projection_matrix,
                self.view_matrix,
                Mat4::identity_spec(),
                position,
                self.width as int,
                self.height as int,
            ),
    {
        let id = Mat4::identity();
        self.project_with_model(&id, position)
    }
}


/// A vertex on the camera's view axis, at any depth in front of the
/// camera and inside the viewing range, projects to the exact center
/// cell of the screen.
pub proof fn lemma_center_axis_projects_to_center(width: int, height: int, z: int)
    requires
        1 <= width <= 65535,
        1 <= height <= 65535,
        -6553600 <= z <= 327424,
    ensures
        project_spec(
            Renderer::projection_matrix_spec(width, height),
            Renderer::view_matrix_spec(),
            Mat4::identity_spec(),
            Vec3Fp { x: 0, y: 0, z: z as i64 },
            width,
            height,
        ) matches Some(p) && p.x == width / 2 && p.y == height / 2,
{
    let proj = Renderer::projection_matrix_spec(width, height);
    let view = Renderer::view_matrix_spec();
    let model = Mat4::identity_spec();
    let pos = Vec3Fp { x: 0, y: 0, z: z as i64 };

    // The aspect entry is in range, so its cast to 64 bits is exact.
    lemma_tdiv_bound(height * 65536, width);
    vstd::arithmetic::div_mod::lemma_div_is_ordered_by_denominator(height * 65536, 1, width);
    vstd::arithmetic::div_mod::lemma_div_basics_2(height * 65536);
    vstd::arithmetic::div_mod::lemma_div_pos_is_pos(height * 65536, width);
    let p00 = proj.m00 as int;
    assert(0 <= p00 <= 65535 * 65536);
    assert(mat_in_bound(model, MODEL_ENTRY_LIMIT as int));

    let v0 = Vec4Fp { x: pos.x, y: pos.y, z: pos.z, w: 65536 };
    assert(vec4_in_bound(v0, COORD_LIMIT as int));

    // Through the identity model matrix the vertex is unchanged.
    lemma_fp_mul_zero(z as int);
    lemma_fp_mul_zero(65536);
    lemma_fp_mul_one(0);
    lemma_fp_mul_one(z as int);
    lemma_fp_mul_one(65536);
    let t1 = mat_vec_spec(model, v0);
    assert(t1 == (0int, 0int, z, 65536int));
    assert(quad_in_bound(t1, COORD_LIMIT as int));

    // The view translation moves it 5 units down the z axis.
    lemma_fp_mul_one(-327680);
    let v1 = Vec4Fp { x: t1.0 as i64, y: t1.1 as i64, z: t1.2 as i64, w: t1.3 as i64 };
    let t2 = mat_vec_spec(view, v1);
    assert(t2 == (0int, 0int, z - 327680, 65536int));
    assert(quad_in_bound(t2, COORD_LIMIT as int));

    // Projection: x and y stay on the axis, w picks up the view depth.
    lemma_fp_mul_zero(p00);
    lemma_fp_mul_zero(-65601);
    lemma_fp_mul_zero(-65536);
    lemma_fp_mul_one(-6560);
    crate::fixed::lemma_fp_mul_neg_one(z - 327680);
    let v2 = Vec4Fp { x: t2.0 as i64, y: t2.1 as i64, z: t2.2 as i64, w: t2.3 as i64 };
    let t3 = mat_vec_spec(proj, v2);
    let clip_z = fp_mul(-65601, z - 327680) - 6560;
    assert(t3.0 == 0 && t3.1 == 0);
    assert(t3.2 == clip_z);
    assert(t3.3 == 327680 - z);
    assert(t3.3 >= MIN_CLIP_W as int);

    let w_clip = 327680 - z;
    // On the axis both normalized device coordinates are zero.
    vstd::arithmetic::div_mod::lemma_div_basics_1(w_clip);
    assert(fp_div(0, w_clip) == 0);

    // The depth coordinate stays well inside the working range.
    lemma_fp_mul_bound(-65601, z - 327680, 65601int, 6881280int);
    assert(abs_int(clip_z) <= 65601int * 6881280 / 65536 + 6560);
    lemma_abs_mul_bound(clip_z, 65536, 65601int * 6881280 / 65536 + 6560, 65536int);
    lemma_tdiv_bound(clip_z * 65536, w_clip);
    vstd::arithmetic::div_mod::lemma_div_is_ordered(
        abs_int(clip_z * 65536),
        (65601int * 6881280 / 65536 + 6560) * 65536,
        w_clip,
    );
    vstd::arithmetic::div_mod::lemma_div_is_ordered_by_denominator(
        (65601int * 6881280 / 65536 + 6560) * 65536,
        256,
        w_clip,
    );
    let nz = fp_div(clip_z, w_clip);
    assert(abs_int(nz) <= NDC_LIMIT as int);

    // The screen mapping lands exactly on the center cell.
    vstd::arithmetic::div_mod::lemma_fundamental_div_mod(width, 2);
    vstd::arithmetic::div_mod::lemma_fundamental_div_mod_converse(
        65536 * width,
        131072,
        width / 2,
        (width % 2) * 65536,
    );
    assert(screen_x_of(0, width) == width / 2);
    vstd::arithmetic::div_mod::lemma_fundamental_div_mod(height, 2);
    vstd::arithmetic::div_mod::lemma_fundamental_div_mod_converse(
        65536 * height,
        131072,
        height / 2,
        (height % 2) * 65536,
    );
    assert(screen_y_of(0, height) == height / 2);
}

} // verus!


