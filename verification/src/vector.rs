//! Three-component vectors over [`Scalar`].
//!
//! Every operation returns a new value.  Rounding makes scalar arithmetic
//! non-associative, so each contract fixes the order of the operations.

use crate::scalar::{Scalar, FULL_INTENSITY_BITS, ONE_BITS, TWO_BITS, ZERO_BITS};
use vstd::prelude::*;

verus! {

#[derive(Clone, Copy, Debug)]
pub struct Vector {
    pub x: Scalar,
    pub y: Scalar,
    pub z: Scalar,
}

impl Vector {
    pub open spec fn up_spec() -> Vector {
        Vector {
            x: Scalar { bits: ZERO_BITS },
            y: Scalar { bits: ONE_BITS },
            z: Scalar { bits: ZERO_BITS },
        }
    }

    pub open spec fn zero_spec() -> Vector {
        Vector {
            x: Scalar { bits: ZERO_BITS },
            y: Scalar { bits: ZERO_BITS },
            z: Scalar { bits: ZERO_BITS },
        }
    }

    pub open spec fn white_spec() -> Vector {
        Vector {
            x: Scalar { bits: FULL_INTENSITY_BITS },
            y: Scalar { bits: FULL_INTENSITY_BITS },
            z: Scalar { bits: FULL_INTENSITY_BITS },
        }
    }

    /// `(x·vx + y·vy) + z·vz`.
    pub open spec fn dot_spec(self, v: Vector) -> Scalar {
        self.x.mul_spec(v.x).add_spec(self.y.mul_spec(v.y)).add_spec(self.z.mul_spec(v.z))
    }

    pub open spec fn cross_spec(self, v: Vector) -> Vector {
        Vector {
            x: self.y.mul_spec(v.z).sub_spec(self.z.mul_spec(v.y)),
            y: self.z.mul_spec(v.x).sub_spec(self.x.mul_spec(v.z)),
            z: self.x.mul_spec(v.y).sub_spec(self.y.mul_spec(v.x)),
        }
    }

    pub open spec fn scale_spec(self, factor: Scalar) -> Vector {
        Vector {
            x: self.x.mul_spec(factor),
            y: self.y.mul_spec(factor),
            z: self.z.mul_spec(factor),
        }
    }

    pub open spec fn add_spec(self, v: Vector) -> Vector {
        Vector { x: self.x.add_spec(v.x), y: self.y.add_spec(v.y), z: self.z.add_spec(v.z) }
    }

    /// `(self + v) + w`, component by component.
    pub open spec fn add3_spec(self, v: Vector, w: Vector) -> Vector {
        Vector {
            x: self.x.add_spec(v.x).add_spec(w.x),
            y: self.y.add_spec(v.y).add_spec(w.y),
            z: self.z.add_spec(v.z).add_spec(w.z),
        }
    }

    pub open spec fn subtract_spec(self, v: Vector) -> Vector {
        Vector { x: self.x.sub_spec(v.x), y: self.y.sub_spec(v.y), z: self.z.sub_spec(v.z) }
    }

    pub open spec fn negate_spec(self) -> Vector {
        Vector { x: self.x.neg_spec(), y: self.y.neg_spec(), z: self.z.neg_spec() }
    }

    /// The square root of the vector's dot product with itself.
    pub open spec fn length_spec(self) -> Scalar {
        self.dot_spec(self).sqrt_spec()
    }

    /// The vector scaled by the reciprocal of its length.  A zero vector has
    /// no direction, and its unit vector holds NaN components.
    pub open spec fn unit_spec(self) -> Vector {
        self.scale_spec(Scalar { bits: ONE_BITS }.div_spec(self.length_spec()))
    }

    /// `self − 2·(self·normal)·normal`, the mirror image of `self` in the
    /// plane through the origin with the unit normal `normal`.
    pub open spec fn reflect_spec(self, normal: Vector) -> Vector {
        self.subtract_spec(
            normal.scale_spec(self.dot_spec(normal)).scale_spec(Scalar { bits: TWO_BITS }),
        )
    }

    pub fn new(x: Scalar, y: Scalar, z: Scalar) -> (r: Vector)
        ensures
            r == (Vector { x, y, z }),
    {
        Vector { x, y, z }
    }

    /// The world's up direction, `(0, 1, 0)`.
    pub fn up() -> (r: Vector)
        ensures
            r == Vector::up_spec(),
    {
        Vector {
            x: Scalar { bits: ZERO_BITS },
            y: Scalar { bits: ONE_BITS },
            z: Scalar { bits: ZERO_BITS },
        }
    }

    /// The origin, which is also the colour black.
    pub fn zero() -> (r: Vector)
        ensures
            r == Vector::zero_spec(),
    {
        Vector {
            x: Scalar { bits: ZERO_BITS },
            y: Scalar { bits: ZERO_BITS },
            z: Scalar { bits: ZERO_BITS },
        }
    }

    /// The colour white, `(255, 255, 255)`.
    pub fn white() -> (r: Vector)
        ensures
            r == Vector::white_spec(),
    {
        Vector {
            x: Scalar { bits: FULL_INTENSITY_BITS },
            y: Scalar { bits: FULL_INTENSITY_BITS },
            z: Scalar { bits: FULL_INTENSITY_BITS },
        }
    }

    pub fn dot_product(&self, v: &Vector) -> (r: Scalar)
        ensures
            r == self.dot_spec(*v),
    {
        self.x.mul(v.x).add(self.y.mul(v.y)).add(self.z.mul(v.z))
    }

    pub fn cross_product(&self, v: &Vector) -> (r: Vector)
        ensures
            r == self.cross_spec(*v),
    {
        Vector {
            x: self.y.mul(v.z).sub(self.z.mul(v.y)),
            y: self.z.mul(v.x).sub(self.x.mul(v.z)),
            z: self.x.mul(v.y).sub(self.y.mul(v.x)),
        }
    }

    pub fn scale(&self, factor: Scalar) -> (r: Vector)
        ensures
            r == self.scale_spec(factor),
    {
        Vector { x: self.x.mul(factor), y: self.y.mul(factor), z: self.z.mul(factor) }
    }

    pub fn unit(&self) -> (r: Vector)
        ensures
            r == self.unit_spec(),
    {
        let one = Scalar { bits: ONE_BITS };
        self.scale(one.div(self.length()))
    }

    pub fn add(&self, v: &Vector) -> (r: Vector)
        ensures
            r == self.add_spec(*v),
    {
        Vector { x: self.x.add(v.x), y: self.y.add(v.y), z: self.z.add(v.z) }
    }

    pub fn add3(&self, v: &Vector, w: &Vector) -> (r: Vector)
        ensures
            r == self.add3_spec(*v, *w),
    {
        Vector {
            x: self.x.add(v.x).add(w.x),
            y: self.y.add(v.y).add(w.y),
            z: self.z.add(v.z).add(w.z),
        }
    }

    pub fn subtract(&self, v: &Vector) -> (r: Vector)
        ensures
            r == self.subtract_spec(*v),
    {
        Vector { x: self.x.sub(v.x), y: self.y.sub(v.y), z: self.z.sub(v.z) }
    }

    pub fn negate(&self) -> (r: Vector)
        ensures
            r == self.negate_spec(),
    {
        Vector { x: self.x.neg(), y: self.y.neg(), z: self.z.neg() }
    }

    pub fn length(&self) -> (r: Scalar)
        ensures
            r == self.length_spec(),
    {
        self.dot_product(self).sqrt()
    }

    pub fn reflect_through(&self, normal: &Vector) -> (r: Vector)
        ensures
            r == self.reflect_spec(*normal),
    {
        let a = self.dot_product(normal);
        let d = normal.scale(a);
        let e = d.scale(Scalar { bits: TWO_BITS });
        self.subtract(&e)
    }
}

} // verus!
