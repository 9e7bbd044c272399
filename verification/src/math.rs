//! The floating-point layer of the baking pipeline.
//!
//! All numeric work — matrix products, TRS decomposition and interpolation —
//! is done by glam. The verified code treats glam's vectors, quaternions and
//! matrices as opaque values: each operation it needs is wrapped in one
//! trusted function whose result is pinned to an uninterpreted name, and
//! every contract upstream speaks in those names. A lone scalar (a sample
//! time, a blend weight, a tolerance) is carried in the first lane of a
//! two-lane vector, so that the verified code never touches a raw float.

use vstd::prelude::*;

verus! {

#[verifier::external_type_specification]
#[verifier::external_body]
pub struct ExVec2(glam::Vec2);

#[verifier::external_type_specification]
#[verifier::external_body]
pub struct ExVec3(glam::Vec3);

#[verifier::external_type_specification]
#[verifier::external_body]
pub struct ExQuat(glam::Quat);

#[verifier::external_type_specification]
#[verifier::external_body]
pub struct ExMat4(glam::Mat4);

/// A scalar value, carried in the `x` lane of a `glam::Vec2`; the `y` lane
/// is ignored. Sample times, blend weights and tolerances are passed this
/// way.
#[derive(Clone, Copy)]
pub struct Scalar {
    pub raw: glam::Vec2,
}

/// The product `a * b` of two matrices.
pub uninterp spec fn mat_mul_of(a: glam::Mat4, b: glam::Mat4) -> glam::Mat4;

/// The matrix built from a scale, a rotation and a translation.
pub uninterp spec fn srt_mat_of(scale: glam::Vec3, rotation: glam::Quat, translation: glam::Vec3) -> glam::Mat4;

/// The scale component of a matrix decomposition.
pub uninterp spec fn decomp_scale_of(m: glam::Mat4) -> glam::Vec3;

/// The rotation component of a matrix decomposition.
pub uninterp spec fn decomp_rotation_of(m: glam::Mat4) -> glam::Quat;

/// The translation component of a matrix decomposition.
pub uninterp spec fn decomp_translation_of(m: glam::Mat4) -> glam::Vec3;

/// Whether two matrices agree element-wise within the tolerance carried in
/// `tol`.
pub uninterp spec fn mat_close_of(a: glam::Mat4, b: glam::Mat4, tol: glam::Vec2) -> bool;

/// The linear interpolation of two vectors at the weight carried in `s`.
pub uninterp spec fn lerp3_of(a: glam::Vec3, b: glam::Vec3, s: glam::Vec2) -> glam::Vec3;

/// The spherical interpolation of two quaternions at the weight carried in
/// `s`.
pub uninterp spec fn slerp_of(a: glam::Quat, b: glam::Quat, s: glam::Vec2) -> glam::Quat;

/// The quaternion scaled to unit length.
pub uninterp spec fn quat_normalize_of(q: glam::Quat) -> glam::Quat;

/// The frame slot of the time carried in `t`: its floor, clamped into
/// `usize`.
pub uninterp spec fn frame_slot_of(t: glam::Vec2) -> usize;

/// Whether the scalar carried in `a` is strictly below the one carried in
/// `b`.
pub uninterp spec fn scalar_lt_of(a: glam::Vec2, b: glam::Vec2) -> bool;

/// Whether the scalar carried in `t` has a negative sign.
pub uninterp spec fn negative_of(t: glam::Vec2) -> bool;

/// Relies on glam's `Mul<Mat4> for Mat4`: the matrix product, a function of
/// the two operands alone.
#[verifier::external_body]
pub fn mat_mul(a: &glam::Mat4, b: &glam::Mat4) -> (r: glam::Mat4)
    ensures
        r == mat_mul_of(*a, *b),
{
    *a * *b
}

/// Relies on glam's `Mat4::from_scale_rotation_translation`, a function of
/// the three components alone.
#[verifier::external_body]
pub fn srt_matrix(scale: &glam::Vec3, rotation: &glam::Quat, translation: &glam::Vec3) -> (r:
    glam::Mat4)
    ensures
        r == srt_mat_of(*scale, *rotation, *translation),
{
    glam::Mat4::from_scale_rotation_translation(*scale, *rotation, *translation)
}

/// Relies on glam's `Mat4::to_scale_rotation_translation`, a function of the
/// matrix alone. Its components are named separately; glam documents no
/// inverse relation to the builder, so none is assumed here.
#[verifier::external_body]
pub fn decompose_matrix(m: &glam::Mat4) -> (r: (glam::Vec3, glam::Quat, glam::Vec3))
    ensures
        r.0 == decomp_scale_of(*m),
        r.1 == decomp_rotation_of(*m),
        r.2 == decomp_translation_of(*m),
{
    m.to_scale_rotation_translation()
}

/// Relies on glam's `Mat4::abs_diff_eq`: element-wise comparison within a
/// tolerance, a function of the operands and the tolerance alone.
#[verifier::external_body]
pub fn mat_approx_eq(a: &glam::Mat4, b: &glam::Mat4, tol: &Scalar) -> (r: bool)
    ensures
        r == mat_close_of(*a, *b, tol.raw),
{
    a.abs_diff_eq(*b, tol.raw.x)
}

/// Relies on glam's `Vec3::lerp`, a function of the endpoints and the
/// weight alone.
#[verifier::external_body]
pub fn vec3_lerp(a: &glam::Vec3, b: &glam::Vec3, s: &Scalar) -> (r: glam::Vec3)
    ensures
        r == lerp3_of(*a, *b, s.raw),
{
    a.lerp(*b, s.raw.x)
}

/// Relies on glam's `Quat::slerp`: shortest-arc spherical interpolation, a
/// function of the endpoints and the weight alone.
#[verifier::external_body]
pub fn quat_slerp(a: &glam::Quat, b: &glam::Quat, s: &Scalar) -> (r: glam::Quat)
    ensures
        r == slerp_of(*a, *b, s.raw),
{
    a.slerp(*b, s.raw.x)
}

/// Relies on glam's `Quat::normalize`, a function of the quaternion alone.
#[verifier::external_body]
pub fn quat_normalize(q: &glam::Quat) -> (r: glam::Quat)
    ensures
        r == quat_normalize_of(*q),
{
    q.normalize()
}

/// Relies on `f32::floor`: the frame slot a sample time falls in, a
/// function of the time alone. The cast to `usize` saturates, so times at or
/// beyond `usize::MAX` all land in the last representable slot.
#[verifier::external_body]
pub fn frame_slot(t: &Scalar) -> (r: usize)
    ensures
        r == frame_slot_of(t.raw),
{
    t.raw.x.floor() as usize
}

/// Relies on `f32`'s `<`, a function of the two scalars alone.
#[verifier::external_body]
pub fn scalar_lt(a: &Scalar, b: &Scalar) -> (r: bool)
    ensures
        r == scalar_lt_of(a.raw, b.raw),
{
    a.raw.x < b.raw.x
}

/// Relies on `f32::is_sign_negative`, a function of the scalar alone.
#[verifier::external_body]
pub fn scalar_is_negative(t: &Scalar) -> (r: bool)
    ensures
        r == negative_of(t.raw),
{
    t.raw.x.is_sign_negative()
}

} // verus!
