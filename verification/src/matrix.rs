//! Linear and affine maps of space.

use vstd::prelude::*;
use crate::fixed::Fixed;
use crate::types::Vec3Df;

verus! {

/// A 3x3 matrix, held as its three columns.
#[derive(Clone, Copy, Debug, PartialEq, Eq, Structural)]
pub struct Mat3 {
    pub x_axis: Vec3Df,
    pub y_axis: Vec3Df,
    pub z_axis: Vec3Df,
}

impl Mat3 {
    /// The matrix that leaves every vector as it is.
    pub open spec fn spec_identity() -> Mat3 {
        Mat3 {
            x_axis: Vec3Df::from_ints(1, 0, 0),
            y_axis: Vec3Df::from_ints(0, 1, 0),
            z_axis: Vec3Df::from_ints(0, 0, 1),
        }
    }

    #[verifier::when_used_as_spec(spec_identity)]
    pub fn identity() -> (m: Mat3)
        ensures
            m == Mat3::spec_identity(),
    {
        Mat3 {
            x_axis: Vec3Df::from_ints(1, 0, 0),
            y_axis: Vec3Df::from_ints(0, 1, 0),
            z_axis: Vec3Df::from_ints(0, 0, 1),
        }
    }

    /// The matrix with the given columns.
    pub open spec fn spec_from_cols(x_axis: Vec3Df, y_axis: Vec3Df, z_axis: Vec3Df) -> Mat3 {
        Mat3 { x_axis, y_axis, z_axis }
    }

    #[verifier::when_used_as_spec(spec_from_cols)]
    pub fn from_cols(x_axis: Vec3Df, y_axis: Vec3Df, z_axis: Vec3Df) -> (m: Mat3)
        ensures
            m == Mat3::spec_from_cols(x_axis, y_axis, z_axis),
    {
        Mat3 { x_axis, y_axis, z_axis }
    }

    /// The matrix mirrored at its diagonal: rows become columns.
    pub open spec fn spec_transpose(self) -> Mat3 {
        Mat3 {
            x_axis: Vec3Df { x: self.x_axis.x, y: self.y_axis.x, z: self.z_axis.x },
            y_axis: Vec3Df { x: self.x_axis.y, y: self.y_axis.y, z: self.z_axis.y },
            z_axis: Vec3Df { x: self.x_axis.z, y: self.y_axis.z, z: self.z_axis.z },
        }
    }

    #[verifier::when_used_as_spec(spec_transpose)]
    pub fn transpose(self) -> (m: Mat3)
        ensures
            m == self.spec_transpose(),
    {
        Mat3 {
            x_axis: Vec3Df { x: self.x_axis.x, y: self.y_axis.x, z: self.z_axis.x },
            y_axis: Vec3Df { x: self.x_axis.y, y: self.y_axis.y, z: self.z_axis.y },
            z_axis: Vec3Df { x: self.x_axis.z, y: self.y_axis.z, z: self.z_axis.z },
        }
    }

    /// The image of `v`: the columns weighted by the components of `v`.
    pub open spec fn spec_mul_vec3(self, v: Vec3Df) -> Vec3Df {
        self.x_axis.scale(v.x).add(self.y_axis.scale(v.y)).add(self.z_axis.scale(v.z))
    }

    #[verifier::when_used_as_spec(spec_mul_vec3)]
    pub fn mul_vec3(self, v: Vec3Df) -> (r: Vec3Df)
        ensures
            r == self.spec_mul_vec3(v),
    {
        self.x_axis.scale(v.x).add(self.y_axis.scale(v.y)).add(self.z_axis.scale(v.z))
    }

    /// The product `self * o`: first `o`, then `self`.
    pub open spec fn spec_mul_mat3(self, o: Mat3) -> Mat3 {
        Mat3 {
            x_axis: self.mul_vec3(o.x_axis),
            y_axis: self.mul_vec3(o.y_axis),
            z_axis: self.mul_vec3(o.z_axis),
        }
    }

    #[verifier::when_used_as_spec(spec_mul_mat3)]
    pub fn mul_mat3(self, o: Mat3) -> (m: Mat3)
        ensures
            m == self.spec_mul_mat3(o),
    {
        Mat3 {
            x_axis: self.mul_vec3(o.x_axis),
            y_axis: self.mul_vec3(o.y_axis),
            z_axis: self.mul_vec3(o.z_axis),
        }
    }

    /// The determinant: the triple product of the columns.
    pub open spec fn spec_determinant(self) -> Fixed {
        self.z_axis.scalar_product(&self.x_axis.cross_product(&self.y_axis))
    }

    #[verifier::when_used_as_spec(spec_determinant)]
    pub fn determinant(self) -> (d: Fixed)
        ensures
            d == self.spec_determinant(),
    {
        self.z_axis.scalar_product(&self.x_axis.cross_product(&self.y_axis))
    }

    /// The transpose of the inverse: the cross products of the columns,
    /// each component divided by the determinant. This is the map under
    /// which normals stay perpendicular to the surfaces that `self` moves.
    pub open spec fn spec_inverse_transpose(self) -> Mat3 {
        let d = self.determinant();
        let c0 = self.y_axis.cross_product(&self.z_axis);
        let c1 = self.z_axis.cross_product(&self.x_axis);
        let c2 = self.x_axis.cross_product(&self.y_axis);
        Mat3 {
            x_axis: Vec3Df { x: c0.x.div(d), y: c0.y.div(d), z: c0.z.div(d) },
            y_axis: Vec3Df { x: c1.x.div(d), y: c1.y.div(d), z: c1.z.div(d) },
            z_axis: Vec3Df { x: c2.x.div(d), y: c2.y.div(d), z: c2.z.div(d) },
        }
    }

    #[verifier::when_used_as_spec(spec_inverse_transpose)]
    pub fn inverse_transpose(self) -> (m: Mat3)
        ensures
            m == self.spec_inverse_transpose(),
    {
        let d: Fixed = self.determinant();
        let c0: Vec3Df = self.y_axis.cross_product(&self.z_axis);
        let c1: Vec3Df = self.z_axis.cross_product(&self.x_axis);
        let c2: Vec3Df = self.x_axis.cross_product(&self.y_axis);
        Mat3 {
            x_axis: Vec3Df { x: c0.x.div(d), y: c0.y.div(d), z: c0.z.div(d) },
            y_axis: Vec3Df { x: c1.x.div(d), y: c1.y.div(d), z: c1.z.div(d) },
            z_axis: Vec3Df { x: c2.x.div(d), y: c2.y.div(d), z: c2.z.div(d) },
        }
    }

    /// The inverse. Where the determinant is zero the components saturate
    /// as division by zero does.
    pub open spec fn spec_inverse(self) -> Mat3 {
        self.inverse_transpose().transpose()
    }

    #[verifier::when_used_as_spec(spec_inverse)]
    pub fn inverse(self) -> (m: Mat3)
        ensures
            m == self.spec_inverse(),
    {
        self.inverse_transpose().transpose()
    }
}

/// The image of the unit vector along z is the third column.
pub proof fn lemma_mul_unit_z(m: Mat3)
    ensures
        m.mul_vec3(Vec3Df::spec_from_ints(0, 0, 1)) == m.z_axis,
{
    let up = Vec3Df::spec_from_ints(0, 0, 1);
    lemma_scale_by_zero(m.x_axis);
    lemma_scale_by_zero(m.y_axis);
    lemma_scale_by_one(m.z_axis);
    assert(m.x_axis.scale(up.x) == Vec3Df::spec_from_ints(0, 0, 0));
    assert(m.y_axis.scale(up.y) == Vec3Df::spec_from_ints(0, 0, 0));
    assert(m.z_axis.scale(up.z) == m.z_axis);
}

/// A vector scaled by zero is the zero vector.
pub proof fn lemma_scale_by_zero(v: Vec3Df)
    ensures
        v.scale(Fixed::spec_from_int(0)) == Vec3Df::spec_from_ints(0, 0, 0),
{
    assert(v.x.raw * 0 == 0);
    assert(v.y.raw * 0 == 0);
    assert(v.z.raw * 0 == 0);
}

/// A vector scaled by one is itself.
pub proof fn lemma_scale_by_one(v: Vec3Df)
    ensures
        v.scale(Fixed::spec_from_int(1)) == v,
{
    let one = Fixed::spec_from_int(1);
    assert(one.raw == 0x1_0000_0000);
    assert((v.x.raw * 0x1_0000_0000) / 0x1_0000_0000 == v.x.raw);
    assert((v.y.raw * 0x1_0000_0000) / 0x1_0000_0000 == v.y.raw);
    assert((v.z.raw * 0x1_0000_0000) / 0x1_0000_0000 == v.z.raw);
    assert(v.x.mul(one) == v.x);
    assert(v.y.mul(one) == v.y);
    assert(v.z.mul(one) == v.z);
}

/// A vector plus the zero vector is itself.
pub proof fn lemma_add_zero(v: Vec3Df)
    ensures
        v.add(Vec3Df::spec_from_ints(0, 0, 0)) == v,
        Vec3Df::spec_from_ints(0, 0, 0).add(v) == v,
{
}

/// The identity leaves every vector as it is.
pub proof fn lemma_identity_mul_vec3(v: Vec3Df)
    ensures
        Mat3::spec_identity().mul_vec3(v) == v,
{
    let one = Fixed::spec_from_int(1);
    let zero = Fixed::spec_from_int(0);
    assert(one.raw == 0x1_0000_0000);
    assert(zero.raw == 0);
    assert((0x1_0000_0000 * v.x.raw) / 0x1_0000_0000 == v.x.raw);
    assert((0x1_0000_0000 * v.y.raw) / 0x1_0000_0000 == v.y.raw);
    assert((0x1_0000_0000 * v.z.raw) / 0x1_0000_0000 == v.z.raw);
    assert(0 * v.x.raw == 0 && 0 * v.y.raw == 0 && 0 * v.z.raw == 0);
    assert(one.mul(v.x) == v.x && one.mul(v.y) == v.y && one.mul(v.z) == v.z);
    assert(zero.mul(v.x) == zero && zero.mul(v.y) == zero && zero.mul(v.z) == zero);
}

/// The identity is neutral in products of matrices.
pub proof fn lemma_identity_mul_mat3(m: Mat3)
    ensures
        Mat3::spec_identity().mul_mat3(m) == m,
        m.mul_mat3(Mat3::spec_identity()) == m,
{
    lemma_identity_mul_vec3(m.x_axis);
    lemma_identity_mul_vec3(m.y_axis);
    lemma_identity_mul_vec3(m.z_axis);
    lemma_scale_by_zero(m.x_axis);
    lemma_scale_by_zero(m.y_axis);
    lemma_scale_by_zero(m.z_axis);
    lemma_scale_by_one(m.x_axis);
    lemma_scale_by_one(m.y_axis);
    lemma_scale_by_one(m.z_axis);
    lemma_add_zero(m.x_axis);
    lemma_add_zero(m.y_axis);
    lemma_add_zero(m.z_axis);
}

/// The identity is neutral in compositions of affine maps.
pub proof fn lemma_identity_mul_affine(m: Affine3)
    ensures
        Affine3::spec_identity().mul(m) == m,
        m.mul(Affine3::spec_identity()) == m,
{
    lemma_identity_mul_mat3(m.matrix3);
    lemma_identity_mul_vec3(m.translation);
    lemma_add_zero(m.translation);
    lemma_scale_by_zero(m.matrix3.x_axis);
    lemma_scale_by_zero(m.matrix3.y_axis);
    lemma_scale_by_zero(m.matrix3.z_axis);
}

/// An affine map: a matrix followed by a translation.
#[derive(Clone, Copy, Debug, PartialEq, Eq, Structural)]
pub struct Affine3 {
    pub matrix3: Mat3,
    pub translation: Vec3Df,
}

impl Affine3 {
    /// The map that leaves every point where it is.
    pub open spec fn spec_identity() -> Affine3 {
        Affine3 { matrix3: Mat3::identity(), translation: Vec3Df::from_ints(0, 0, 0) }
    }

    #[verifier::when_used_as_spec(spec_identity)]
    pub fn identity() -> (m: Affine3)
        ensures
            m == Affine3::spec_identity(),
    {
        Affine3 { matrix3: Mat3::identity(), translation: Vec3Df::from_ints(0, 0, 0) }
    }

    /// The image of the point `p`.
    pub open spec fn spec_transform_point3(&self, p: Vec3Df) -> Vec3Df {
        self.matrix3.mul_vec3(p).add(self.translation)
    }

    #[verifier::when_used_as_spec(spec_transform_point3)]
    pub fn transform_point3(&self, p: Vec3Df) -> (r: Vec3Df)
        ensures
            r == self.spec_transform_point3(p),
    {
        self.matrix3.mul_vec3(p).add(self.translation)
    }

    /// The composition `self * o`: first `o`, then `self`.
    pub open spec fn spec_mul(self, o: Affine3) -> Affine3 {
        Affine3 {
            matrix3: self.matrix3.mul_mat3(o.matrix3),
            translation: self.matrix3.mul_vec3(o.translation).add(self.translation),
        }
    }

    #[verifier::when_used_as_spec(spec_mul)]
    pub fn mul(self, o: Affine3) -> (m: Affine3)
        ensures
            m == self.spec_mul(o),
    {
        Affine3 {
            matrix3: self.matrix3.mul_mat3(o.matrix3),
            translation: self.matrix3.mul_vec3(o.translation).add(self.translation),
        }
    }

    /// The map that undoes `self`.
    pub open spec fn spec_inverse(&self) -> Affine3 {
        let matrix3 = self.matrix3.inverse();
        Affine3 { matrix3, translation: matrix3.mul_vec3(self.translation).neg() }
    }

    #[verifier::when_used_as_spec(spec_inverse)]
    pub fn inverse(&self) -> (m: Affine3)
        ensures
            m == self.spec_inverse(),
    {
        let matrix3: Mat3 = self.matrix3.inverse();
        Affine3 { matrix3, translation: matrix3.mul_vec3(self.translation).neg() }
    }
}

} // verus!
