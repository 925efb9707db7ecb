//! Shading by a normal map in world space.

use vstd::prelude::*;
use crate::fixed::Fixed;
use crate::model::{spec_decode_normal, Model};
use crate::shaders::lighting::{
    diffuse,
    face_ndc,
    face_texture_coords,
    face_uv_in_range,
    inside,
    ndc_light,
    ndc_normal,
    sample_position,
    spec_diffuse,
    spec_face_ndc,
    spec_face_texture_coords,
    spec_face_uv_in_range,
    spec_inside,
    spec_ndc_light,
    spec_ndc_normal,
    spec_sample_position,
};
use crate::shaders::shader::{Shader, ShaderError};
use crate::tgaimage::ColorSpace;
use crate::transform::Transform;
use crate::types::{ObjFace, Vec3Df};

verus! {

/// Shades every pixel by the normal that the normal map holds for it.
pub struct NormalMappedShader<T: ColorSpace + Copy> {
    pub varying_texture_coords: [Vec3Df; 3],
    pub uniform_model: Model<T>,
    pub uniform_transform: Transform,
    pub uniform_light_dir: Vec3Df,
}

impl<T: ColorSpace + Copy> NormalMappedShader<T> {
    /// A shader for the given model and camera, before its first face.
    pub fn new(model: Model<T>, transform: Transform) -> (s: Self)
        requires
            model.wf(),
        ensures
            s.uniform_model == model,
            s.uniform_transform == transform,
            s.uniform_light_dir == Vec3Df::spec_from_ints(0, 0, 0),
            s.wf(),
    {
        NormalMappedShader {
            varying_texture_coords: [
                Vec3Df::from_ints(0, 0, 0),
                Vec3Df::from_ints(0, 0, 0),
                Vec3Df::from_ints(0, 0, 0),
            ],
            uniform_model: model,
            uniform_transform: transform,
            uniform_light_dir: Vec3Df::from_ints(0, 0, 0),
        }
    }

    /// Whether the pixel under the weights lies inside the normal map.
    pub open spec fn sample_in_normal_map(&self, bary_coords: Vec3Df) -> bool {
        spec_inside(
            spec_sample_position(bary_coords, self.varying_texture_coords),
            self.uniform_model.normal_image.width,
            self.uniform_model.normal_image.height,
        )
    }

    /// The light on the pixel under the weights: the diffuse light on the
    /// normal that the normal map holds there.
    pub open spec fn spec_intensity(&self, bary_coords: Vec3Df) -> Fixed {
        let at = spec_sample_position(bary_coords, self.varying_texture_coords);
        spec_diffuse(
            spec_ndc_normal(
                self.uniform_transform,
                spec_decode_normal(self.uniform_model.normal_image.pixel(at.0, at.1)),
            ),
            spec_ndc_light(self.uniform_transform, self.uniform_light_dir),
        )
    }
}

impl<T: ColorSpace + Copy> Shader<T> for NormalMappedShader<T> {
    open spec fn wf(&self) -> bool {
        self.uniform_model.wf()
    }

    open spec fn vertex_result(&self, obj_face: ObjFace, light_dir: Vec3Df) -> Result<
        [Vec3Df; 3],
        ShaderError,
    > {
        if spec_face_uv_in_range(obj_face) {
            Ok(spec_face_ndc(self.uniform_transform, obj_face))
        } else {
            Err(ShaderError::UvOutOfRange)
        }
    }

    open spec fn vertex_state(&self, obj_face: ObjFace, light_dir: Vec3Df) -> Self {
        if spec_face_uv_in_range(obj_face) {
            NormalMappedShader {
                varying_texture_coords: spec_face_texture_coords(self.uniform_model, obj_face),
                uniform_model: self.uniform_model,
                uniform_transform: self.uniform_transform,
                uniform_light_dir: light_dir,
            }
        } else {
            *self
        }
    }

    open spec fn fragment_result(&self, bary_coords: Vec3Df, color: T) -> Result<
        bool,
        ShaderError,
    > {
        if self.sample_in_normal_map(bary_coords) {
            Ok(false)
        } else {
            Err(ShaderError::SampleOutOfBounds)
        }
    }

    open spec fn fragment_color(&self, bary_coords: Vec3Df, color: T) -> T {
        if self.sample_in_normal_map(bary_coords) {
            color.spec_shade(self.spec_intensity(bary_coords))
        } else {
            color
        }
    }

    open spec fn same_uniforms(&self, other: &Self) -> bool {
        self.uniform_model == other.uniform_model && self.uniform_transform == other.uniform_transform
    }

    proof fn lemma_vertex_overwrites(&self, other: &Self, obj_face: ObjFace, light_dir: Vec3Df) {
    }

    fn vertex(&mut self, obj_face: ObjFace, light_dir: Vec3Df) -> (r: Result<
        [Vec3Df; 3],
        ShaderError,
    >) {
        if !face_uv_in_range(obj_face) {
            return Err(ShaderError::UvOutOfRange);
        }
        self.uniform_light_dir = light_dir;
        self.varying_texture_coords = face_texture_coords(&self.uniform_model, &obj_face);
        Ok(face_ndc(self.uniform_transform, obj_face))
    }

    fn fragment(&self, bary_coords: Vec3Df, color: &mut T) -> (r: Result<bool, ShaderError>) {
        let at: (usize, usize) = sample_position(bary_coords, self.varying_texture_coords);
        if !inside(
            at,
            self.uniform_model.normal_image.width,
            self.uniform_model.normal_image.height,
        ) {
            return Err(ShaderError::SampleOutOfBounds);
        }
        let normal: Vec3Df = ndc_normal(
            self.uniform_transform,
            self.uniform_model.get_normal(at.0, at.1),
        );
        let light: Vec3Df = ndc_light(self.uniform_transform, self.uniform_light_dir);
        let intensity: Fixed = diffuse(normal, light);
        color.shade(intensity);
        Ok(false)
    }
}

} // verus!
