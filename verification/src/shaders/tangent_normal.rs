//! Shading by a normal map in tangent space.

use vstd::prelude::*;
use crate::fixed::Fixed;
use crate::matrix::Mat3;
use crate::model::{spec_decode_normal, spec_uv_in_range, spec_uv_to_pixel, uv_in_range, Model};
use crate::rasterizer::{bary_to_point, spec_bary_to_point};
use crate::shaders::lighting::{
    diffuse,
    face_texture_coords,
    face_uv_in_range,
    inside,
    ndc_light,
    spec_diffuse,
    spec_face_ndc,
    spec_face_texture_coords,
    spec_face_uv_in_range,
    spec_inside,
    spec_ndc_light,
};
use crate::shaders::shader::{Shader, ShaderError};
use crate::tgaimage::ColorSpace;
use crate::transform::Transform;
use crate::types::{ObjFace, Vec3Df};

verus! {

/// The tangent of a triangle along one texture axis: the solution `t` of
/// `e1 . t = d1`, `e2 . t = d2`, `n . t = 0`, where `e1` and `e2` are the
/// edges of the triangle that leave its first corner, `n` is the normal,
/// and `d1` and `d2` are the changes of the texture coordinate along the
/// two edges.
#[verifier::opaque]
pub open spec fn spec_tangent(ndc: [Vec3Df; 3], normal: Vec3Df, d1: Fixed, d2: Fixed) -> Vec3Df {
    Mat3::from_cols(ndc[1].sub(ndc[0]), ndc[2].sub(ndc[0]), normal).transpose().inverse().mul_vec3(
        Vec3Df { x: d1, y: d2, z: Fixed::from_int(0) },
    )
}

#[verifier::when_used_as_spec(spec_tangent)]
pub fn tangent(ndc: [Vec3Df; 3], normal: Vec3Df, d1: Fixed, d2: Fixed) -> (t: Vec3Df)
    ensures
        t == spec_tangent(ndc, normal, d1, d2),
{
    proof {
        reveal(spec_tangent);
    }
    Mat3::from_cols(ndc[1].sub(ndc[0]), ndc[2].sub(ndc[0]), normal).transpose().inverse().mul_vec3(
        Vec3Df { x: d1, y: d2, z: Fixed::from_int(0) },
    )
}

/// The basis of the tangent space of a triangle at a point with the given
/// normal: the unit tangents along the two texture axes, and the normal.
pub open spec fn spec_darboux_basis(ndc: [Vec3Df; 3], uv: [Vec3Df; 3], normal: Vec3Df) -> Mat3 {
    Mat3::from_cols(
        spec_tangent(ndc, normal, uv[1].x.sub(uv[0].x), uv[2].x.sub(uv[0].x)).normalized(),
        spec_tangent(ndc, normal, uv[1].y.sub(uv[0].y), uv[2].y.sub(uv[0].y)).normalized(),
        normal,
    )
}

#[verifier::when_used_as_spec(spec_darboux_basis)]
pub fn darboux_basis(ndc: [Vec3Df; 3], uv: [Vec3Df; 3], normal: Vec3Df) -> (m: Mat3)
    ensures
        m == spec_darboux_basis(ndc, uv, normal),
{
    Mat3::from_cols(
        tangent(ndc, normal, uv[1].x.sub(uv[0].x), uv[2].x.sub(uv[0].x)).normalized(),
        tangent(ndc, normal, uv[1].y.sub(uv[0].y), uv[2].y.sub(uv[0].y)).normalized(),
        normal,
    )
}

/// The normal that a sample of a tangent-space normal map stands for, at a
/// point of a triangle with the given interpolated normal: the sample
/// taken out of the tangent basis, at unit length.
pub open spec fn spec_darboux_normal(
    ndc: [Vec3Df; 3],
    uv: [Vec3Df; 3],
    normal: Vec3Df,
    sample: Vec3Df,
) -> Vec3Df {
    spec_darboux_basis(ndc, uv, normal).mul_vec3(sample).normalized()
}

#[verifier::when_used_as_spec(spec_darboux_normal)]
pub fn darboux_normal(ndc: [Vec3Df; 3], uv: [Vec3Df; 3], normal: Vec3Df, sample: Vec3Df) -> (n:
    Vec3Df)
    ensures
        n == spec_darboux_normal(ndc, uv, normal, sample),
{
    darboux_basis(ndc, uv, normal).mul_vec3(sample).normalized()
}

/// A tangent-space sample that points straight up, `(0, 0, 1)`, stands for
/// the interpolated normal itself, whatever the tangents are: tangent-space
/// shading then lights the surface as its own normals do.
pub proof fn lemma_flat_sample_keeps_normal(ndc: [Vec3Df; 3], uv: [Vec3Df; 3], normal: Vec3Df)
    ensures
        spec_darboux_normal(ndc, uv, normal, Vec3Df::spec_from_ints(0, 0, 1))
            == normal.normalized(),
        spec_darboux_basis(ndc, uv, normal).mul_vec3(Vec3Df::spec_from_ints(0, 0, 1)) == normal,
{
    crate::matrix::lemma_mul_unit_z(spec_darboux_basis(ndc, uv, normal));
}

/// Shades every pixel by the normal that the tangent-space normal map
/// holds for it.
pub struct TangentNormalShader<T: ColorSpace + Copy> {
    pub varying_texture_coords: [Vec3Df; 3],
    pub varying_normals: [Vec3Df; 3],
    pub varying_ndc: [Vec3Df; 3],
    pub varying_uv: [Vec3Df; 3],
    pub uniform_model: Model<T>,
    pub uniform_transform: Transform,
    pub uniform_light_dir: Vec3Df,
}

impl<T: ColorSpace + Copy> TangentNormalShader<T> {
    /// A shader for the given model and camera, before its first face.
    pub fn new(model: Model<T>, transform: Transform) -> (s: Self)
        requires
            model.wf(),
        ensures
            s.uniform_model == model,
            s.uniform_transform == transform,
            s.uniform_light_dir == Vec3Df::spec_from_ints(0, 0, 0),
            s.wf(),
    {
        let zero: Vec3Df = Vec3Df::from_ints(0, 0, 0);
        TangentNormalShader {
            varying_texture_coords: [zero, zero, zero],
            varying_normals: [zero, zero, zero],
            varying_ndc: [zero, zero, zero],
            varying_uv: [zero, zero, zero],
            uniform_model: model,
            uniform_transform: transform,
            uniform_light_dir: zero,
        }
    }

    /// The normals of the corners in normalized device coordinates, not
    /// yet at unit length.
    pub open spec fn spec_corner_normals(transform: Transform, obj_face: ObjFace) -> [Vec3Df; 3] {
        [
            transform.ndc_inv_tr_transform(obj_face.normals[0]),
            transform.ndc_inv_tr_transform(obj_face.normals[1]),
            transform.ndc_inv_tr_transform(obj_face.normals[2]),
        ]
    }

    /// The texture coordinate under the weights.
    pub open spec fn spec_uv(&self, bary_coords: Vec3Df) -> Vec3Df {
        spec_bary_to_point(&bary_coords, &self.varying_uv)
    }

    /// The pixel of the tangent-space normal map under the weights.
    pub open spec fn spec_sample_at(&self, bary_coords: Vec3Df) -> (usize, usize) {
        let uv = self.spec_uv(bary_coords);
        let p = spec_uv_to_pixel(
            self.uniform_model.tangent_normal_image.width,
            self.uniform_model.tangent_normal_image.height,
            uv.x,
            uv.y,
        );
        (p.x.to_usize(), p.y.to_usize())
    }

    /// Whether the pixel under the weights lies inside the tangent-space
    /// normal map.
    pub open spec fn sample_in_map(&self, bary_coords: Vec3Df) -> bool {
        spec_inside(
            self.spec_sample_at(bary_coords),
            self.uniform_model.tangent_normal_image.width,
            self.uniform_model.tangent_normal_image.height,
        )
    }

    /// The normal by which the pixel under the weights is lit.
    pub open spec fn spec_shading_normal(&self, bary_coords: Vec3Df) -> Vec3Df {
        let at = self.spec_sample_at(bary_coords);
        spec_darboux_normal(
            self.varying_ndc,
            self.varying_uv,
            spec_bary_to_point(&bary_coords, &self.varying_normals).normalized(),
            spec_decode_normal(
                self.uniform_model.tangent_normal_image.pixel(at.0, at.1),
            ).normalized(),
        )
    }
}

impl<T: ColorSpace + Copy> Shader<T> for TangentNormalShader<T> {
    open spec fn wf(&self) -> bool {
        self.uniform_model.wf()
    }

    open spec fn vertex_result(&self, obj_face: ObjFace, light_dir: Vec3Df) -> Result<
        [Vec3Df; 3],
        ShaderError,
    > {
        if spec_face_uv_in_range(obj_face) {
            Ok(spec_face_ndc(self.uniform_transform, obj_face))
        } else {
            Err(ShaderError::UvOutOfRange)
        }
    }

    open spec fn vertex_state(&self, obj_face: ObjFace, light_dir: Vec3Df) -> Self {
        if spec_face_uv_in_range(obj_face) {
            TangentNormalShader {
                varying_texture_coords: spec_face_texture_coords(self.uniform_model, obj_face),
                varying_normals: Self::spec_corner_normals(self.uniform_transform, obj_face),
                varying_ndc: spec_face_ndc(self.uniform_transform, obj_face),
                varying_uv: obj_face.texture_vertices,
                uniform_model: self.uniform_model,
                uniform_transform: self.uniform_transform,
                uniform_light_dir: light_dir,
            }
        } else {
            *self
        }
    }

    open spec fn fragment_result(&self, bary_coords: Vec3Df, color: T) -> Result<
        bool,
        ShaderError,
    > {
        if !spec_uv_in_range(self.spec_uv(bary_coords).x, self.spec_uv(bary_coords).y) {
            Err(ShaderError::UvOutOfRange)
        } else if !self.sample_in_map(bary_coords) {
            Err(ShaderError::SampleOutOfBounds)
        } else {
            Ok(false)
        }
    }

    open spec fn fragment_color(&self, bary_coords: Vec3Df, color: T) -> T {
        if spec_uv_in_range(self.spec_uv(bary_coords).x, self.spec_uv(bary_coords).y)
            && self.sample_in_map(bary_coords) {
            color.spec_shade(
                spec_diffuse(
                    self.spec_shading_normal(bary_coords),
                    spec_ndc_light(self.uniform_transform, self.uniform_light_dir),
                ),
            )
        } else {
            color
        }
    }

    open spec fn same_uniforms(&self, other: &Self) -> bool {
        self.uniform_model == other.uniform_model && self.uniform_transform == other.uniform_transform
    }

    proof fn lemma_vertex_overwrites(&self, other: &Self, obj_face: ObjFace, light_dir: Vec3Df) {
    }

    fn vertex(&mut self, obj_face: ObjFace, light_dir: Vec3Df) -> (r: Result<
        [Vec3Df; 3],
        ShaderError,
    >) {
        if !face_uv_in_range(obj_face) {
            return Err(ShaderError::UvOutOfRange);
        }
        self.uniform_light_dir = light_dir;
        self.varying_uv = obj_face.texture_vertices;
        self.varying_texture_coords = face_texture_coords(&self.uniform_model, &obj_face);
        self.varying_normals = [
            self.uniform_transform.ndc_inv_tr_transform(obj_face.normals[0]),
            self.uniform_transform.ndc_inv_tr_transform(obj_face.normals[1]),
            self.uniform_transform.ndc_inv_tr_transform(obj_face.normals[2]),
        ];
        self.varying_ndc = crate::shaders::lighting::face_ndc(self.uniform_transform, obj_face);
        Ok(self.varying_ndc)
    }

    fn fragment(&self, bary_coords: Vec3Df, color: &mut T) -> (r: Result<bool, ShaderError>) {
        let uv: Vec3Df = bary_to_point(&bary_coords, &self.varying_uv);
        if !uv_in_range(uv.x, uv.y) {
            return Err(ShaderError::UvOutOfRange);
        }
        let p = self.uniform_model.tang_normal_pixel_coords(uv.x, uv.y);
        let at: (usize, usize) = (p.x.to_usize(), p.y.to_usize());
        if !inside(
            at,
            self.uniform_model.tangent_normal_image.width,
            self.uniform_model.tangent_normal_image.height,
        ) {
            return Err(ShaderError::SampleOutOfBounds);
        }
        let sample: Vec3Df = self.uniform_model.get_tangent_normal(at.0, at.1).normalized();
        let interpolated: Vec3Df = bary_to_point(&bary_coords, &self.varying_normals).normalized();
        let normal: Vec3Df = darboux_normal(self.varying_ndc, self.varying_uv, interpolated, sample);
        let light: Vec3Df = ndc_light(self.uniform_transform, self.uniform_light_dir);
        let intensity: Fixed = diffuse(normal, light);
        color.shade(intensity);
        Ok(false)
    }
}

} // verus!
