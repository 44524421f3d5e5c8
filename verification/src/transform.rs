//! The position + scale + orientation aggregate of one drawable or camera
//! rig. Movement and rotation mutate it in place; `model` and `mvp` are
//! pulled by the rendering collaborator once per frame.

use vstd::prelude::*;
use crate::camera::Camera;
use crate::mat4x4::Mat4x4;
use crate::mat4x4::lemma_mul_identity_left;
use crate::mat4x4::spec_identity;
use crate::mat4x4::spec_mat_mul;
use crate::mat4x4::spec_scale;
use crate::mat4x4::spec_translation;
use crate::quaternion::Quaternion;
use crate::quaternion::lemma_matrix_of_identity;
use crate::quaternion::spec_quat_matrix;
use crate::quaternion::spec_quat_rotate;
use crate::scalar::SCALE;
use crate::scalar::Scalar;
use crate::scalar::fits_i64;
use crate::scalar::fx_add;
use crate::scalar::fx_mul;
use crate::vec3::Vec3;
use crate::vec3::spec_normalized;

verus! {

/// A drawable's placement: position, non-uniform scale and an orientation
/// that must remain a unit quaternion.
#[derive(Clone, Copy, Debug, PartialEq, Eq, Structural)]
pub struct Transform {
    pub position: Vec3,
    pub scale: Vec3,
    pub orientation: Quaternion,
}

/// The model matrix: scale first, then rotation, then translation, taking
/// object space to world space; the two products are composed left to
/// right as the implementation computes them.
pub open spec fn spec_model(t: Transform) -> Seq<int> {
    spec_mat_mul(
        spec_mat_mul(spec_translation(t.position), spec_quat_matrix(t.orientation)),
        spec_scale(t.scale),
    )
}

/// The model matrix of a resting transform — origin position, unit
/// scale, identity orientation — is exactly the identity matrix.
pub proof fn lemma_model_of_resting_transform(t: Transform)
    requires
        t.position.x@ == 0,
        t.position.y@ == 0,
        t.position.z@ == 0,
        t.scale.x@ == SCALE as int,
        t.scale.y@ == SCALE as int,
        t.scale.z@ == SCALE as int,
        t.orientation.x@ == 0,
        t.orientation.y@ == 0,
        t.orientation.z@ == 0,
        t.orientation.w@ == SCALE as int,
    ensures
        spec_model(t) == spec_identity(),
{
    assert(spec_translation(t.position) =~= spec_identity());
    assert(spec_scale(t.scale) =~= spec_identity());
    lemma_matrix_of_identity(t.orientation);
    assert forall|i: int| 0 <= i < 16 implies fits_i64(#[trigger] spec_identity()[i]) by {}
    lemma_mul_identity_left(spec_identity());
}

impl Transform {
    /// Moves the position by `amount` along the direction (which is
    /// normalized first); scale and orientation are untouched.
    pub fn move_towards(&mut self, direction: &Vec3, amount: Scalar)
        ensures
            final(self).position.x@ == fx_add(
                old(self).position.x@,
                fx_mul(spec_normalized(*direction).0, amount@),
            ),
            final(self).position.y@ == fx_add(
                old(self).position.y@,
                fx_mul(spec_normalized(*direction).1, amount@),
            ),
            final(self).position.z@ == fx_add(
                old(self).position.z@,
                fx_mul(spec_normalized(*direction).2, amount@),
            ),
            final(self).scale == old(self).scale,
            final(self).orientation == old(self).orientation,
    {
        let step = direction.normalized().scale(amount);
        self.position = self.position.add(&step);
    }

    /// Applies an incremental rotation of `angle` degrees about `axis` to
    /// the orientation in place; position and scale are untouched.
    pub fn rotate(&mut self, axis: &Vec3, angle: Scalar)
        ensures
            (
                final(self).orientation.x@,
                final(self).orientation.y@,
                final(self).orientation.z@,
                final(self).orientation.w@,
            ) == spec_quat_rotate(old(self).orientation, *axis, angle@),
            final(self).position == old(self).position,
            final(self).scale == old(self).scale,
    {
        self.orientation = self.orientation.rotate(axis, angle);
    }

    /// The model matrix of this transform.
    pub fn model(&self) -> (r: Mat4x4)
        ensures
            r@ == spec_model(*self),
    {
        Mat4x4::translation(&self.position).mul(&Quaternion::matrix(&self.orientation)).mul(
            &Mat4x4::scale(&self.scale),
        )
    }

    /// The combined model-view-projection matrix under the given camera.
    pub fn mvp(&self, camera: &Camera) -> (r: Mat4x4)
        ensures
            r@ == spec_mat_mul(camera.view_projection@, spec_model(*self)),
    {
        camera.view_projection.mul(&self.model())
    }
}

} // verus!
