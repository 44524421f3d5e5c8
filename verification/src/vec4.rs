//! Four-component vectors, carried as plain values (for example a colour
//! or a homogeneous coordinate handed to the rendering collaborator).

use vstd::prelude::*;
use crate::scalar::Scalar;

verus! {

/// A four-component fixed-point vector.
#[derive(Clone, Copy, Debug, PartialEq, Eq, Structural)]
pub struct Vec4 {
    pub x: Scalar,
    pub y: Scalar,
    pub z: Scalar,
    pub w: Scalar,
}

impl Vec4 {
    /// The zero vector.
    pub fn new() -> (r: Vec4)
        ensures
            r.x@ == 0 && r.y@ == 0 && r.z@ == 0 && r.w@ == 0,
    {
        Vec4 { x: Scalar::zero(), y: Scalar::zero(), z: Scalar::zero(), w: Scalar::zero() }
    }
}

} // verus!
