//! Shading by a normal map with a specular highlight.

use vstd::prelude::*;
use crate::fixed::Fixed;
use crate::model::{spec_decode_normal, Model};
use crate::shaders::lighting::{
    face_ndc,
    face_texture_coords,
    face_uv_in_range,
    inside,
    ndc_light,
    ndc_normal,
    phong,
    relight,
    sample_position,
    spec_face_ndc,
    spec_face_texture_coords,
    spec_face_uv_in_range,
    spec_inside,
    spec_ndc_light,
    spec_ndc_normal,
    spec_phong,
    spec_relit,
    spec_sample_position,
};
use crate::shaders::shader::{Shader, ShaderError};
use crate::tgaimage::ColorSpace;
use crate::transform::Transform;
use crate::types::{ObjFace, Vec3Df};

verus! {

/// Whether the pixel `at` lies inside the normal map, the specular map and
/// the diffuse texture of the model.
pub open spec fn spec_inside_maps<T: ColorSpace + Copy>(model: Model<T>, at: (usize, usize)) -> bool {
    &&& spec_inside(at, model.normal_image.width, model.normal_image.height)
    &&& spec_inside(at, model.specular_image.width, model.specular_image.height)
    &&& spec_inside(at, model.texture_image.width, model.texture_image.height)
}

/// Tells whether the pixel lies inside the three maps that the lighting
/// reads.
pub fn inside_maps<T: ColorSpace + Copy>(model: &Model<T>, at: (usize, usize)) -> (r: bool)
    ensures
        r == spec_inside_maps(*model, at),
{
    inside(at, model.normal_image.width, model.normal_image.height) && inside(
        at,
        model.specular_image.width,
        model.specular_image.height,
    ) && inside(at, model.texture_image.width, model.texture_image.height)
}

/// The light on the pixel `at` of the model's maps: diffuse light on the
/// normal of the normal map, and the highlight with the exponent of the
/// specular map.
pub open spec fn spec_mapped_light<T: ColorSpace + Copy>(
    model: Model<T>,
    transform: Transform,
    light_dir: Vec3Df,
    at: (usize, usize),
) -> Fixed {
    spec_phong(
        spec_ndc_normal(transform, spec_decode_normal(model.normal_image.pixel(at.0, at.1))),
        spec_ndc_light(transform, light_dir),
        Fixed::spec_from_int(model.specular_image.pixel(at.0, at.1).i as i32),
    )
}

/// Computes the light on a pixel of the model's maps.
pub fn mapped_light<T: ColorSpace + Copy>(
    model: &Model<T>,
    transform: Transform,
    light_dir: Vec3Df,
    at: (usize, usize),
) -> (r: Fixed)
    requires
        model.wf(),
        spec_inside_maps(*model, at),
    ensures
        r == spec_mapped_light(*model, transform, light_dir, at),
{
    let normal: Vec3Df = ndc_normal(transform, model.get_normal(at.0, at.1));
    let light: Vec3Df = ndc_light(transform, light_dir);
    phong(normal, light, model.get_specularity(at.0, at.1))
}

/// Shades every pixel of the diffuse texture by the normal map and adds
/// the highlight of the specular map.
pub struct NormalSpecularShader<T: ColorSpace + Copy> {
    pub varying_texture_coords: [Vec3Df; 3],
    pub uniform_model: Model<T>,
    pub uniform_transform: Transform,
    pub uniform_light_dir: Vec3Df,
}

impl<T: ColorSpace + Copy> NormalSpecularShader<T> {
    /// A shader for the given model and camera, before its first face.
    pub fn new(model: Model<T>, transform: Transform) -> (s: Self)
        requires
            model.wf(),
        ensures
            s.uniform_model == model,
            s.uniform_transform == transform,
            s.uniform_light_dir == Vec3Df::spec_from_ints(0, 0, 0),
            s.wf(),
    {
        NormalSpecularShader {
            varying_texture_coords: [
                Vec3Df::from_ints(0, 0, 0),
                Vec3Df::from_ints(0, 0, 0),
                Vec3Df::from_ints(0, 0, 0),
            ],
            uniform_model: model,
            uniform_transform: transform,
            uniform_light_dir: Vec3Df::from_ints(0, 0, 0),
        }
    }

    /// The colour of the diffuse texture under the weights, before light.
    pub open spec fn spec_texel(&self, bary_coords: Vec3Df) -> T {
        let at = spec_sample_position(bary_coords, self.varying_texture_coords);
        self.uniform_model.texture_image.pixel(at.0, at.1)
    }
}

impl<T: ColorSpace + Copy> Shader<T> for NormalSpecularShader<T> {
    open spec fn wf(&self) -> bool {
        self.uniform_model.wf()
    }

    open spec fn vertex_result(&self, obj_face: ObjFace, light_dir: Vec3Df) -> Result<
        [Vec3Df; 3],
        ShaderError,
    > {
        if spec_face_uv_in_range(obj_face) {
            Ok(spec_face_ndc(self.uniform_transform, obj_face))
        } else {
            Err(ShaderError::UvOutOfRange)
        }
    }

    open spec fn vertex_state(&self, obj_face: ObjFace, light_dir: Vec3Df) -> Self {
        if spec_face_uv_in_range(obj_face) {
            NormalSpecularShader {
                varying_texture_coords: spec_face_texture_coords(self.uniform_model, obj_face),
                uniform_model: self.uniform_model,
                uniform_transform: self.uniform_transform,
                uniform_light_dir: light_dir,
            }
        } else {
            *self
        }
    }

    open spec fn fragment_result(&self, bary_coords: Vec3Df, color: T) -> Result<
        bool,
        ShaderError,
    > {
        if !spec_inside_maps(
            self.uniform_model,
            spec_sample_position(bary_coords, self.varying_texture_coords),
        ) {
            Err(ShaderError::SampleOutOfBounds)
        } else {
            Ok(false)
        }
    }

    open spec fn fragment_color(&self, bary_coords: Vec3Df, color: T) -> T {
        let at = spec_sample_position(bary_coords, self.varying_texture_coords);
        if spec_inside_maps(self.uniform_model, at) {
            spec_relit(
                self.spec_texel(bary_coords),
                spec_mapped_light(
                    self.uniform_model,
                    self.uniform_transform,
                    self.uniform_light_dir,
                    at,
                ),
            )
        } else {
            color
        }
    }

    open spec fn same_uniforms(&self, other: &Self) -> bool {
        self.uniform_model == other.uniform_model && self.uniform_transform == other.uniform_transform
    }

    proof fn lemma_vertex_overwrites(&self, other: &Self, obj_face: ObjFace, light_dir: Vec3Df) {
    }

    fn vertex(&mut self, obj_face: ObjFace, light_dir: Vec3Df) -> (r: Result<
        [Vec3Df; 3],
        ShaderError,
    >) {
        if !face_uv_in_range(obj_face) {
            return Err(ShaderError::UvOutOfRange);
        }
        self.uniform_light_dir = light_dir;
        self.varying_texture_coords = face_texture_coords(&self.uniform_model, &obj_face);
        Ok(face_ndc(self.uniform_transform, obj_face))
    }

    fn fragment(&self, bary_coords: Vec3Df, color: &mut T) -> (r: Result<bool, ShaderError>) {
        let at: (usize, usize) = sample_position(bary_coords, self.varying_texture_coords);
        if !inside_maps(&self.uniform_model, at) {
            return Err(ShaderError::SampleOutOfBounds);
        }
        let light: Fixed = mapped_light(
            &self.uniform_model,
            self.uniform_transform,
            self.uniform_light_dir,
            at,
        );
        *color = self.uniform_model.get_texture_color(at.0, at.1);
        relight(color, light);
        Ok(false)
    }
}

/// Where the pixel under the weights lies inside the maps, the fragment
/// stage neither fails nor discards, in any colour space, and every channel
/// that it writes is the ambient light at least, and 255 at most.
pub proof fn lemma_fragment_inside_maps<T: ColorSpace + Copy>(
    shader: NormalSpecularShader<T>,
    bary_coords: Vec3Df,
    color: T,
)
    requires
        spec_inside_maps(
            shader.uniform_model,
            spec_sample_position(bary_coords, shader.varying_texture_coords),
        ),
    ensures
        shader.fragment_result(bary_coords, color) == Ok::<bool, ShaderError>(false),
        forall|i: int|
            0 <= i < T::spec_channel_count() ==> crate::shaders::lighting::AMBIENT
                <= #[trigger] shader.fragment_color(bary_coords, color).channels()[i] <= 255,
{
    let at = spec_sample_position(bary_coords, shader.varying_texture_coords);
    let light = spec_mapped_light(
        shader.uniform_model,
        shader.uniform_transform,
        shader.uniform_light_dir,
        at,
    );
    crate::shaders::lighting::lemma_phong_not_negative(
        spec_ndc_normal(
            shader.uniform_transform,
            spec_decode_normal(shader.uniform_model.normal_image.pixel(at.0, at.1)),
        ),
        spec_ndc_light(shader.uniform_transform, shader.uniform_light_dir),
        Fixed::spec_from_int(shader.uniform_model.specular_image.pixel(at.0, at.1).i as i32),
    );
    crate::shaders::lighting::lemma_relit_channels(shader.spec_texel(bary_coords), light);
}

} // verus!
