//! Geometric types: pixel coordinates and fixed-point vectors.

use vstd::prelude::*;
use crate::fixed::Fixed;

verus! {

/// A 2D integer coordinate, such as the position of one pixel.
#[derive(Clone, Copy, Debug, PartialEq, Eq, Structural)]
pub struct Vec2Di {
    pub x: i32,
    pub y: i32,
}

impl Vec2Di {
    /// The coordinate `(x, y)`.
    pub fn new(x: i32, y: i32) -> (r: Self)
        ensures
            r == (Vec2Di { x, y }),
    {
        Vec2Di { x, y }
    }
}

/// A 2D fixed-point coordinate.
#[derive(Clone, Copy, Debug, PartialEq, Eq, Structural)]
pub struct Vec2Df {
    pub x: Fixed,
    pub y: Fixed,
}

impl Vec2Df {
    /// The coordinate `(x, y)`.
    pub fn new(x: Fixed, y: Fixed) -> (r: Self)
        ensures
            r == (Vec2Df { x, y }),
    {
        Vec2Df { x, y }
    }

    /// The same coordinate with a third component.
    pub open spec fn spec_extend(self, z: Fixed) -> Vec3Df {
        Vec3Df { x: self.x, y: self.y, z }
    }

    #[verifier::when_used_as_spec(spec_extend)]
    pub fn extend(self, z: Fixed) -> (r: Vec3Df)
        ensures
            r == self.spec_extend(z),
    {
        Vec3Df { x: self.x, y: self.y, z }
    }
}

/// A 3D fixed-point coordinate; also a 3D vector.
#[derive(Clone, Copy, Debug, PartialEq, Eq, Structural)]
pub struct Vec3Df {
    pub x: Fixed,
    pub y: Fixed,
    pub z: Fixed,
}

impl Vec3Df {
    /// The coordinate `(x, y, z)`.
    pub fn new(x: Fixed, y: Fixed, z: Fixed) -> (r: Self)
        ensures
            r == (Vec3Df { x, y, z }),
    {
        Vec3Df { x, y, z }
    }

    /// The vector of three whole numbers.
    pub open spec fn spec_from_ints(x: i32, y: i32, z: i32) -> Vec3Df {
        Vec3Df { x: Fixed::from_int(x), y: Fixed::from_int(y), z: Fixed::from_int(z) }
    }

    #[verifier::when_used_as_spec(spec_from_ints)]
    pub fn from_ints(x: i32, y: i32, z: i32) -> (r: Self)
        ensures
            r == Vec3Df::spec_from_ints(x, y, z),
    {
        Vec3Df { x: Fixed::from_int(x), y: Fixed::from_int(y), z: Fixed::from_int(z) }
    }

    /// The pixel under the point: both coordinates rounded toward zero.
    pub open spec fn spec_to_coord(&self) -> Vec2Di {
        Vec2Di { x: self.x.to_i32(), y: self.y.to_i32() }
    }

    #[verifier::when_used_as_spec(spec_to_coord)]
    pub fn to_coord(&self) -> (r: Vec2Di)
        ensures
            r == self.spec_to_coord(),
    {
        Vec2Di { x: self.x.to_i32(), y: self.y.to_i32() }
    }

    /// The component-wise sum.
    pub open spec fn spec_add(self, o: Vec3Df) -> Vec3Df {
        Vec3Df { x: self.x.add(o.x), y: self.y.add(o.y), z: self.z.add(o.z) }
    }

    #[verifier::when_used_as_spec(spec_add)]
    pub fn add(self, o: Vec3Df) -> (r: Vec3Df)
        ensures
            r == self.spec_add(o),
    {
        Vec3Df { x: self.x.add(o.x), y: self.y.add(o.y), z: self.z.add(o.z) }
    }

    /// The component-wise difference.
    pub open spec fn spec_sub(self, o: Vec3Df) -> Vec3Df {
        Vec3Df { x: self.x.sub(o.x), y: self.y.sub(o.y), z: self.z.sub(o.z) }
    }

    #[verifier::when_used_as_spec(spec_sub)]
    pub fn sub(self, o: Vec3Df) -> (r: Vec3Df)
        ensures
            r == self.spec_sub(o),
    {
        Vec3Df { x: self.x.sub(o.x), y: self.y.sub(o.y), z: self.z.sub(o.z) }
    }

    /// The vector pointing the other way.
    pub open spec fn spec_neg(self) -> Vec3Df {
        Vec3Df { x: self.x.neg(), y: self.y.neg(), z: self.z.neg() }
    }

    #[verifier::when_used_as_spec(spec_neg)]
    pub fn neg(self) -> (r: Vec3Df)
        ensures
            r == self.spec_neg(),
    {
        Vec3Df { x: self.x.neg(), y: self.y.neg(), z: self.z.neg() }
    }

    /// Every component multiplied by `k`.
    pub open spec fn spec_scale(self, k: Fixed) -> Vec3Df {
        Vec3Df { x: self.x.mul(k), y: self.y.mul(k), z: self.z.mul(k) }
    }

    #[verifier::when_used_as_spec(spec_scale)]
    pub fn scale(self, k: Fixed) -> (r: Vec3Df)
        ensures
            r == self.spec_scale(k),
    {
        Vec3Df { x: self.x.mul(k), y: self.y.mul(k), z: self.z.mul(k) }
    }

    /// The dot product.
    pub open spec fn spec_scalar_product(&self, other_vec: &Self) -> Fixed {
        self.x.mul(other_vec.x).add(self.y.mul(other_vec.y)).add(self.z.mul(other_vec.z))
    }

    #[verifier::when_used_as_spec(spec_scalar_product)]
    pub fn scalar_product(&self, other_vec: &Self) -> (r: Fixed)
        ensures
            r == self.spec_scalar_product(other_vec),
    {
        self.x.mul(other_vec.x).add(self.y.mul(other_vec.y)).add(self.z.mul(other_vec.z))
    }

    /// The cross product.
    pub open spec fn spec_cross_product(&self, other_vec: &Self) -> Self {
        Vec3Df {
            x: self.y.mul(other_vec.z).sub(self.z.mul(other_vec.y)),
            y: self.z.mul(other_vec.x).sub(self.x.mul(other_vec.z)),
            z: self.x.mul(other_vec.y).sub(self.y.mul(other_vec.x)),
        }
    }

    #[verifier::when_used_as_spec(spec_cross_product)]
    pub fn cross_product(&self, other_vec: &Self) -> (r: Self)
        ensures
            r == self.spec_cross_product(other_vec),
    {
        Vec3Df {
            x: self.y.mul(other_vec.z).sub(self.z.mul(other_vec.y)),
            y: self.z.mul(other_vec.x).sub(self.x.mul(other_vec.z)),
            z: self.x.mul(other_vec.y).sub(self.y.mul(other_vec.x)),
        }
    }

    /// The Euclidean length.
    pub open spec fn spec_length(self) -> Fixed {
        self.scalar_product(&self).sqrt()
    }

    #[verifier::when_used_as_spec(spec_length)]
    pub fn length(self) -> (r: Fixed)
        ensures
            r == self.spec_length(),
    {
        self.scalar_product(&self).sqrt()
    }

    /// The vector divided by its length.
    pub open spec fn spec_normalized(self) -> Vec3Df {
        let magnitude = self.length();
        Vec3Df { x: self.x.div(magnitude), y: self.y.div(magnitude), z: self.z.div(magnitude) }
    }

    #[verifier::when_used_as_spec(spec_normalized)]
    pub fn normalized(self) -> (r: Vec3Df)
        ensures
            r == self.spec_normalized(),
    {
        let magnitude: Fixed = self.length();
        Vec3Df { x: self.x.div(magnitude), y: self.y.div(magnitude), z: self.z.div(magnitude) }
    }

    /// Scales the vector in place to unit length.
    pub fn normalize(&mut self)
        ensures
            *final(self) == old(self).spec_normalized(),
    {
        let unit: Vec3Df = self.normalized();
        *self = unit;
    }

    /// The distance between two points.
    pub open spec fn spec_distance(self, o: Vec3Df) -> Fixed {
        self.sub(o).length()
    }

    #[verifier::when_used_as_spec(spec_distance)]
    pub fn distance(self, o: Vec3Df) -> (r: Fixed)
        ensures
            r == self.spec_distance(o),
    {
        self.sub(o).length()
    }
}

/// A triangle in space, formed by connecting three vertices.
#[derive(Clone, Copy, Debug)]
pub struct Face {
    pub vertices: [Vec3Df; 3],
}

/// A triangle of a mesh: three positions with the texture coordinate and
/// the normal of each corner.
#[derive(Clone, Copy, Debug)]
pub struct ObjFace {
    pub vertices: [Vec3Df; 3],
    pub texture_vertices: [Vec3Df; 3],
    pub normals: [Vec3Df; 3],
}

} // verus!
