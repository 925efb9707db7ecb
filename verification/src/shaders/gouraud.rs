//! Gouraud shading: light computed at the corners and interpolated.

use vstd::prelude::*;
use crate::fixed::Fixed;
use crate::model::Model;
use crate::shaders::lighting::{
    diffuse,
    face_ndc,
    face_texture_coords,
    face_uv_in_range,
    sample_position,
    spec_diffuse,
    spec_face_ndc,
    spec_face_texture_coords,
    spec_face_uv_in_range,
    spec_sample_position,
    spec_vec3_of,
    vec3_of,
};
use crate::shaders::shader::{Shader, ShaderError};
use crate::tgaimage::ColorSpace;
use crate::transform::Transform;
use crate::types::{ObjFace, Vec3Df};

verus! {

/// Gouraud shading without a texture.
pub struct GouraudShader {
    pub varying_intensity: [Fixed; 3],
    pub uniform_transform: Transform,
}

impl GouraudShader {
    /// A shader for the given camera, before its first face.
    pub fn new(transform: Transform) -> (s: Self)
        ensures
            s.uniform_transform == transform,
            s.varying_intensity == [Fixed::from_int(0), Fixed::from_int(0), Fixed::from_int(0)],
    {
        GouraudShader {
            varying_intensity: [Fixed::from_int(0), Fixed::from_int(0), Fixed::from_int(0)],
            uniform_transform: transform,
        }
    }
}

impl<T: ColorSpace + Copy> Shader<T> for GouraudShader {
    open spec fn wf(&self) -> bool {
        true
    }

    open spec fn vertex_result(&self, obj_face: ObjFace, light_dir: Vec3Df) -> Result<
        [Vec3Df; 3],
        ShaderError,
    > {
        Ok(spec_face_ndc(self.uniform_transform, obj_face))
    }

    /// The intensity at each corner is the diffuse light on its normal as
    /// the face gives it, neither transformed nor scaled.
    open spec fn vertex_state(&self, obj_face: ObjFace, light_dir: Vec3Df) -> Self {
        GouraudShader {
            varying_intensity: [
                spec_diffuse(obj_face.normals[0], light_dir),
                spec_diffuse(obj_face.normals[1], light_dir),
                spec_diffuse(obj_face.normals[2], light_dir),
            ],
            uniform_transform: self.uniform_transform,
        }
    }

    open spec fn fragment_result(&self, bary_coords: Vec3Df, color: T) -> Result<
        bool,
        ShaderError,
    > {
        Ok(false)
    }

    open spec fn fragment_color(&self, bary_coords: Vec3Df, color: T) -> T {
        color.spec_shade(spec_vec3_of(self.varying_intensity).scalar_product(&bary_coords))
    }

    open spec fn same_uniforms(&self, other: &Self) -> bool {
        self.uniform_transform == other.uniform_transform
    }

    proof fn lemma_vertex_overwrites(&self, other: &Self, obj_face: ObjFace, light_dir: Vec3Df) {
    }

    fn vertex(&mut self, obj_face: ObjFace, light_dir: Vec3Df) -> (r: Result<
        [Vec3Df; 3],
        ShaderError,
    >) {
        self.varying_intensity = [
            diffuse(obj_face.normals[0], light_dir),
            diffuse(obj_face.normals[1], light_dir),
            diffuse(obj_face.normals[2], light_dir),
        ];
        Ok(face_ndc(self.uniform_transform, obj_face))
    }

    fn fragment(&self, bary_coords: Vec3Df, color: &mut T) -> (r: Result<bool, ShaderError>) {
        let intensity: Fixed = vec3_of(self.varying_intensity).scalar_product(&bary_coords);
        color.shade(intensity);
        Ok(false)
    }
}

/// Gouraud shading over a diffuse texture.
pub struct GouraudTextureShader<T: ColorSpace + Copy> {
    pub varying_intensity: [Fixed; 3],
    pub varying_texture_coords: [Vec3Df; 3],
    pub uniform_model: Model<T>,
    pub uniform_transform: Transform,
}

impl<T: ColorSpace + Copy> GouraudTextureShader<T> {
    /// A shader for the given model and camera, before its first face.
    pub fn new(model: Model<T>, transform: Transform) -> (s: Self)
        requires
            model.wf(),
        ensures
            s.uniform_model == model,
            s.uniform_transform == transform,
            s.wf(),
    {
        GouraudTextureShader {
            varying_intensity: [Fixed::from_int(0), Fixed::from_int(0), Fixed::from_int(0)],
            varying_texture_coords: [
                Vec3Df::from_ints(0, 0, 0),
                Vec3Df::from_ints(0, 0, 0),
                Vec3Df::from_ints(0, 0, 0),
            ],
            uniform_model: model,
            uniform_transform: transform,
        }
    }

    /// The diffuse light at every corner, on the normals moved into
    /// normalized device coordinates.
    pub open spec fn spec_corner_intensity(
        transform: Transform,
        obj_face: ObjFace,
        light_dir: Vec3Df,
    ) -> [Fixed; 3] {
        [
            spec_diffuse(
                transform.ndc_inv_tr_transform(obj_face.normals[0]).normalized(),
                light_dir,
            ),
            spec_diffuse(
                transform.ndc_inv_tr_transform(obj_face.normals[1]).normalized(),
                light_dir,
            ),
            spec_diffuse(
                transform.ndc_inv_tr_transform(obj_face.normals[2]).normalized(),
                light_dir,
            ),
        ]
    }

    /// Whether the pixel under the weights lies inside the diffuse texture.
    pub open spec fn sample_in_texture(&self, bary_coords: Vec3Df) -> bool {
        let at = spec_sample_position(bary_coords, self.varying_texture_coords);
        at.0 < self.uniform_model.texture_image.width && at.1
            < self.uniform_model.texture_image.height
    }
}

impl<T: ColorSpace + Copy> Shader<T> for GouraudTextureShader<T> {
    open spec fn wf(&self) -> bool {
        self.uniform_model.wf()
    }

    open spec fn vertex_result(&self, obj_face: ObjFace, light_dir: Vec3Df) -> Result<
        [Vec3Df; 3],
        ShaderError,
    > {
        if spec_face_uv_in_range(obj_face) {
            Ok(spec_face_ndc(self.uniform_transform, obj_face))
        } else {
            Err(ShaderError::UvOutOfRange)
        }
    }

    open spec fn vertex_state(&self, obj_face: ObjFace, light_dir: Vec3Df) -> Self {
        if spec_face_uv_in_range(obj_face) {
            GouraudTextureShader {
                varying_intensity: Self::spec_corner_intensity(
                    self.uniform_transform,
                    obj_face,
                    light_dir,
                ),
                varying_texture_coords: spec_face_texture_coords(self.uniform_model, obj_face),
                uniform_model: self.uniform_model,
                uniform_transform: self.uniform_transform,
            }
        } else {
            *self
        }
    }

    open spec fn fragment_result(&self, bary_coords: Vec3Df, color: T) -> Result<
        bool,
        ShaderError,
    > {
        if self.sample_in_texture(bary_coords) {
            Ok(false)
        } else {
            Err(ShaderError::SampleOutOfBounds)
        }
    }

    open spec fn fragment_color(&self, bary_coords: Vec3Df, color: T) -> T {
        if self.sample_in_texture(bary_coords) {
            let at = spec_sample_position(bary_coords, self.varying_texture_coords);
            self.uniform_model.texture_image.pixel(at.0, at.1).spec_shade(
                spec_vec3_of(self.varying_intensity).scalar_product(&bary_coords),
            )
        } else {
            color
        }
    }

    open spec fn same_uniforms(&self, other: &Self) -> bool {
        self.uniform_model == other.uniform_model && self.uniform_transform == other.uniform_transform
    }

    proof fn lemma_vertex_overwrites(&self, other: &Self, obj_face: ObjFace, light_dir: Vec3Df) {
    }

    fn vertex(&mut self, obj_face: ObjFace, light_dir: Vec3Df) -> (r: Result<
        [Vec3Df; 3],
        ShaderError,
    >) {
        if !face_uv_in_range(obj_face) {
            return Err(ShaderError::UvOutOfRange);
        }
        let n0: Vec3Df = self.uniform_transform.ndc_inv_tr_transform(obj_face.normals[0]).normalized();
        let n1: Vec3Df = self.uniform_transform.ndc_inv_tr_transform(obj_face.normals[1]).normalized();
        let n2: Vec3Df = self.uniform_transform.ndc_inv_tr_transform(obj_face.normals[2]).normalized();
        self.varying_texture_coords = face_texture_coords(&self.uniform_model, &obj_face);
        self.varying_intensity = [
            diffuse(n0, light_dir),
            diffuse(n1, light_dir),
            diffuse(n2, light_dir),
        ];
        Ok(face_ndc(self.uniform_transform, obj_face))
    }

    fn fragment(&self, bary_coords: Vec3Df, color: &mut T) -> (r: Result<bool, ShaderError>) {
        let at: (usize, usize) = sample_position(bary_coords, self.varying_texture_coords);
        if at.0 >= self.uniform_model.texture_image.width || at.1
            >= self.uniform_model.texture_image.height {
            return Err(ShaderError::SampleOutOfBounds);
        }
        *color = self.uniform_model.get_texture_color(at.0, at.1);
        let intensity: Fixed = vec3_of(self.varying_intensity).scalar_product(&bary_coords);
        color.shade(intensity);
        Ok(false)
    }
}

} // verus!
