//! Translation / rotation / scale triples.

use vstd::prelude::*;

verus! {

use crate::math::{
    Scalar, decomp_rotation_of, decomp_scale_of, decomp_translation_of, decompose_matrix,
    lerp3_of, mat_approx_eq, mat_close_of, quat_normalize, quat_normalize_of, quat_slerp,
    slerp_of, srt_mat_of, srt_matrix, vec3_lerp,
};

/// An affine transform split into scale, rotation and translation. The
/// rotation is kept at unit length by every operation that produces one.
#[derive(Clone, Copy, Debug)]
pub struct Trs {
    pub translation: glam::Vec3,
    pub rotation: glam::Quat,
    pub scale: glam::Vec3,
}

/// The TRS read off a matrix by decomposition, whether or not the matrix can
/// be rebuilt from it.
pub open spec fn spec_decompose_trs(m: glam::Mat4) -> Trs {
    Trs {
        translation: decomp_translation_of(m),
        rotation: decomp_rotation_of(m),
        scale: decomp_scale_of(m),
    }
}

/// The matrix a TRS denotes.
pub open spec fn spec_trs_matrix(t: Trs) -> glam::Mat4 {
    srt_mat_of(t.scale, t.rotation, t.translation)
}

/// Whether decomposing `m` yields components that rebuild `m` within the
/// given tolerance. A matrix with shear fails this: scale, rotation and
/// translation cannot express it.
pub open spec fn spec_decomposable(m: glam::Mat4, tol: glam::Vec2) -> bool {
    mat_close_of(spec_trs_matrix(spec_decompose_trs(m)), m, tol)
}

/// The component-wise interpolation of two TRS values: translation and
/// scale linearly, rotation by normalized spherical interpolation.
pub open spec fn spec_trs_lerp(a: Trs, b: Trs, s: glam::Vec2) -> Trs {
    Trs {
        translation: lerp3_of(a.translation, b.translation, s),
        rotation: quat_normalize_of(slerp_of(a.rotation, b.rotation, s)),
        scale: lerp3_of(a.scale, b.scale, s),
    }
}

impl Trs {
    /// The matrix this TRS denotes.
    pub fn matrix(&self) -> (r: glam::Mat4)
        ensures
            r == spec_trs_matrix(*self),
    {
        srt_matrix(&self.scale, &self.rotation, &self.translation)
    }

    /// Splits a matrix into scale, rotation and translation without
    /// checking that they rebuild it; what the decomposition cannot
    /// express is lost.
    pub fn decomposed(m: &glam::Mat4) -> (r: Trs)
        ensures
            r == spec_decompose_trs(*m),
    {
        let (scale, rotation, translation) = decompose_matrix(m);
        Trs { translation, rotation, scale }
    }

    /// Splits a matrix into scale, rotation and translation, rejecting one
    /// that the split cannot rebuild within `tolerance` — a sheared basis
    /// loses information under decomposition and must not pass silently.
    pub fn from_matrix(m: &glam::Mat4, tolerance: &Scalar) -> (r: Option<Trs>)
        ensures
            r is Some <==> spec_decomposable(*m, tolerance.raw),
            r matches Some(t) ==> t == spec_decompose_trs(*m),
    {
        let (scale, rotation, translation) = decompose_matrix(m);
        let trs = Trs { translation, rotation, scale };
        let rebuilt = trs.matrix();
        if mat_approx_eq(&rebuilt, m, tolerance) {
            Some(trs)
        } else {
            None
        }
    }

    /// Interpolates towards `other` at weight `s`: translation and scale
    /// move linearly per axis, the rotation follows the shortest arc and is
    /// renormalized to unit length.
    pub fn lerp(&self, other: &Trs, s: &Scalar) -> (r: Trs)
        ensures
            r == spec_trs_lerp(*self, *other, s.raw),
    {
        Trs {
            translation: vec3_lerp(&self.translation, &other.translation, s),
            rotation: quat_normalize(&quat_slerp(&self.rotation, &other.rotation, s)),
            scale: vec3_lerp(&self.scale, &other.scale, s),
        }
    }
}

} // verus!
