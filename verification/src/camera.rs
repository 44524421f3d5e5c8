//! The camera: one pre-multiplied projection-times-view matrix, rebuilt
//! whole whenever the projection parameters change. The view component is
//! always built from the owning transform's orientation quaternion.

use vstd::prelude::*;
use crate::mat4x4::Mat4x4;
use crate::mat4x4::spec_camera;
use crate::mat4x4::spec_mat_mul;
use crate::mat4x4::spec_ortho;
use crate::mat4x4::spec_perspective;
use crate::scalar::SCALE;
use crate::scalar::Scalar;
use crate::scalar::fx_div;
use crate::scalar::sat64;
use crate::transform::Transform;

verus! {

/// A camera: the combined projection-times-view matrix.
#[derive(Clone, Copy, Debug, PartialEq, Eq)]
pub struct Camera {
    pub view_projection: Mat4x4,
}

impl Camera {
    /// A camera with an orthographic projection over a `width` by
    /// `height` viewport, viewing from the transform's position along its
    /// orientation.
    pub fn new_ortho(
        transform: &Transform,
        width: u32,
        height: u32,
        z_near: Scalar,
        z_far: Scalar,
    ) -> (c: Camera)
        ensures
            c.view_projection@ == spec_mat_mul(
                spec_ortho(
                    0,
                    sat64(width * (SCALE as int)),
                    0,
                    sat64(height * (SCALE as int)),
                    z_near@,
                    z_far@,
                ),
                spec_camera(transform.position, transform.orientation),
            ),
    {
        let w = Scalar::from_int(width as i64);
        let h = Scalar::from_int(height as i64);
        Camera {
            view_projection: Mat4x4::ortho(
                Scalar::zero(),
                w,
                Scalar::zero(),
                h,
                z_near,
                z_far,
            ).mul(&Mat4x4::camera(&transform.position, &transform.orientation)),
        }
    }

    /// A camera with a perspective projection of vertical field of view
    /// `fovy` degrees over a `width` by `height` viewport.
    pub fn new_perspective(
        transform: &Transform,
        fovy: Scalar,
        width: u32,
        height: u32,
        z_near: Scalar,
        z_far: Scalar,
    ) -> (c: Camera)
        ensures
            c.view_projection@ == spec_mat_mul(
                spec_perspective(
                    fovy@,
                    fx_div(sat64(width * (SCALE as int)), sat64(height * (SCALE as int))),
                    z_near@,
                    z_far@,
                ),
                spec_camera(transform.position, transform.orientation),
            ),
    {
        let aspect = Scalar::from_int(width as i64).div(Scalar::from_int(height as i64));
        Camera {
            view_projection: Mat4x4::perspective(fovy, aspect, z_near, z_far).mul(
                &Mat4x4::camera(&transform.position, &transform.orientation),
            ),
        }
    }
}

} // verus!
