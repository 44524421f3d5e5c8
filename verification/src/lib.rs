//! A 3D spatial-math kernel over a fixed-point scalar: vector, quaternion and
//! 4x4-matrix algebra, a transform/camera composition layer that produces
//! model-view-projection matrices, and axis-aligned-box and sphere
//! intersection tests.
//!
//! Every number is a [`scalar::Scalar`], a signed 64-bit fixed-point value
//! with 32 fractional bits, so each operation has an exact contract: the
//! `ensures` of every public function states the returned value, component by
//! component, in terms of spec-level fixed-point arithmetic.

pub mod scalar;
pub mod trig;
pub mod vec3;
pub mod vec4;
pub mod quaternion;
pub mod mat4x4;
pub mod transform;
pub mod camera;
pub mod collider;
pub mod intersection;

pub use scalar::Scalar;
pub use vec3::Vec3;
pub use vec4::Vec4;
pub use quaternion::Quaternion;
pub use mat4x4::Mat4x4;
pub use transform::Transform;
pub use camera::Camera;
pub use collider::AABB;
pub use collider::Sphere;
pub use intersection::intersects_AABB;
pub use intersection::intersects_Sphere;
