//! The scene as it is described: a camera and a list of objects, each with
//! its own transform.

use vstd::prelude::*;
use crate::math::{F32, UVec3, Vec3, Vec4};

verus! {

/// A camera and the objects it looks at.
#[derive(Clone, Debug, PartialEq)]
pub struct Scene {
    pub camera: Camera,
    pub objects: Vec<Object>,
}

/// Where the camera stands and how it sees.
#[derive(Clone, Copy, Debug, PartialEq, Eq, Structural)]
pub struct Camera {
    pub transform: Transform,
    pub lens: Lens,
    pub clipping: Clipping,
}

/// The lens of a camera.
#[derive(Clone, Copy, Debug, PartialEq, Eq, Structural)]
pub enum Lens {
    /// A perspective lens: the vertical field of view in degrees, and the
    /// distance at which the picture is sharp.
    Perspective { fov: F32, focal_distance: F32 },
}

/// The distances between which a camera sees.
#[derive(Clone, Copy, Debug, PartialEq, Eq, Structural)]
pub struct Clipping {
    pub near: F32,
    pub far: F32,
}

/// One object of a scene.
#[derive(Clone, Debug, PartialEq)]
pub struct Object {
    pub surface: Surface,
    pub transform: Transform,
    pub material: Material,
}

/// The shape of an object, in the object's own space.
#[derive(Clone, Debug, PartialEq)]
pub enum Surface {
    Sphere { radius: F32 },
    /// A triangle mesh: its vertices, and for each triangle the places of
    /// its three corners among them.
    MeshData { vertices: Vec<Vec3>, indices: Vec<UVec3> },
}

/// Where an object stands: its position, its rotation about the three axes
/// in degrees, and its scale along them.
#[derive(Clone, Copy, Debug, PartialEq, Eq, Structural)]
pub struct Transform {
    pub position: Vec3,
    pub rotation: Vec3,
    pub scale: Vec3,
}

/// What an object is made of.
#[derive(Clone, Copy, Debug, PartialEq, Eq, Structural)]
pub struct Material {
    pub color: Vec4,
    pub luminosity: F32,
    pub smoothness: F32,
}

} // verus!
