//! The scene description: a camera, surface primitives, point lights and the
//! two colours of the checker pattern.

use crate::scalar::Scalar;
use crate::vector::Vector;
use vstd::prelude::*;

verus! {

/// The eye.  `vector` is the point that the camera looks at, not a
/// direction; `fov` is the full vertical field of view in degrees.
#[derive(Clone, Copy, Debug)]
pub struct Camera {
    pub point: Vector,
    pub vector: Vector,
    pub fov: Scalar,
}

#[derive(Clone, Copy, Debug)]
pub struct Sphere {
    pub point: Vector,
    pub color: Vector,
    pub specular: Scalar,
    pub lambert: Scalar,
    pub ambient: Scalar,
    pub radius: Scalar,
}

/// A single-sided plane through `point`.  `normal` need not be of unit length.
#[derive(Clone, Copy, Debug)]
pub struct Plane {
    pub point: Vector,
    pub color: Vector,
    pub normal: Vector,
    pub specular: Scalar,
    pub lambert: Scalar,
    pub ambient: Scalar,
}

#[derive(Clone, Copy, Debug)]
pub enum Object {
    Sphere(Sphere),
    Plane(Plane),
}

#[derive(Debug)]
pub struct Scene {
    pub camera: Camera,
    pub objects: Vec<Object>,
    pub lights: Vec<Vector>,
    pub checker: Vec<Vector>,
}

/// What a scene holds, as mathematical sequences.  Rendering depends on a
/// scene through this value alone.
pub struct SceneModel {
    pub camera: Camera,
    pub objects: Seq<Object>,
    pub lights: Seq<Vector>,
    pub checker: Seq<Vector>,
}

impl View for Scene {
    type V = SceneModel;

    open spec fn view(&self) -> SceneModel {
        SceneModel {
            camera: self.camera,
            objects: self.objects@,
            lights: self.lights@,
            checker: self.checker@,
        }
    }
}

impl SceneModel {
    /// The checker palette holds exactly its two colours.
    pub open spec fn wf(self) -> bool {
        self.checker.len() == 2
    }
}

impl Object {
    pub open spec fn lambert_spec(self) -> Scalar {
        match self {
            Object::Sphere(s) => s.lambert,
            Object::Plane(p) => p.lambert,
        }
    }

    pub open spec fn specular_spec(self) -> Scalar {
        match self {
            Object::Sphere(s) => s.specular,
            Object::Plane(p) => p.specular,
        }
    }

    pub open spec fn ambient_spec(self) -> Scalar {
        match self {
            Object::Sphere(s) => s.ambient,
            Object::Plane(p) => p.ambient,
        }
    }
}

impl Scene {
    /// Whether the scene can be rendered: see [`SceneModel::wf`].
    pub fn is_well_formed(&self) -> (ok: bool)
        ensures
            ok == self@.wf(),
    {
        self.checker.len() == 2
    }
}

} // verus!
