//! Shadow mapping: a depth pass from the light, then a pass from the
//! camera that tests every pixel against the depths the light saw.

use vstd::prelude::*;
use crate::fixed::Fixed;
use crate::matrix::Affine3;
use crate::model::Model;
use crate::rasterizer::{bary_to_point, spec_bary_to_point};
use crate::shaders::lighting::{
    face_ndc,
    face_texture_coords,
    face_uv_in_range,
    inside,
    relight,
    sample_position,
    spec_face_ndc,
    spec_face_texture_coords,
    spec_face_uv_in_range,
    spec_inside,
    spec_relit,
    spec_sample_position,
};
use crate::shaders::normal_spec::{inside_maps, mapped_light, spec_inside_maps, spec_mapped_light};
use crate::shaders::shader::{Shader, ShaderError};
use crate::tgaimage::{lemma_pixel_index_in_bounds, pixel_index, ColorSpace};
use crate::transform::Transform;
use crate::types::{ObjFace, Vec3Df};

verus! {

/// Records how far every pixel is from the light: the camera of this
/// shader stands at the light source.
pub struct DepthShader {
    pub varying_tri: [Vec3Df; 3],
    pub uniform_light_source: Vec3Df,
    pub uniform_depth_transform: Transform,
}

impl DepthShader {
    /// The depth shader before its first face.
    pub open spec fn spec_new(light_source: Vec3Df, depth_transform: Transform) -> Self {
        DepthShader {
            varying_tri: [
                Vec3Df::spec_from_ints(0, 0, 0),
                Vec3Df::spec_from_ints(0, 0, 0),
                Vec3Df::spec_from_ints(0, 0, 0),
            ],
            uniform_light_source: light_source,
            uniform_depth_transform: depth_transform,
        }
    }

    /// `depth_transform` looks from the light source at the scene.
    #[verifier::when_used_as_spec(spec_new)]
    pub fn new(light_source: Vec3Df, depth_transform: Transform) -> (s: Self)
        ensures
            s == DepthShader::spec_new(light_source, depth_transform),
    {
        DepthShader {
            varying_tri: [
                Vec3Df::from_ints(0, 0, 0),
                Vec3Df::from_ints(0, 0, 0),
                Vec3Df::from_ints(0, 0, 0),
            ],
            uniform_light_source: light_source,
            uniform_depth_transform: depth_transform,
        }
    }

    /// The depth under the weights, moved from `[-1, 1]` to `[0, 1]`.
    pub open spec fn spec_normalized_depth(&self, bary_coords: Vec3Df) -> Fixed {
        spec_bary_to_point(&bary_coords, &self.varying_tri).z.add(Fixed::from_int(1)).div(
            Fixed::from_int(2),
        )
    }
}

impl<T: ColorSpace + Copy> Shader<T> for DepthShader {
    open spec fn wf(&self) -> bool {
        true
    }

    open spec fn vertex_result(&self, obj_face: ObjFace, light_dir: Vec3Df) -> Result<
        [Vec3Df; 3],
        ShaderError,
    > {
        Ok(spec_face_ndc(self.uniform_depth_transform, obj_face))
    }

    open spec fn vertex_state(&self, obj_face: ObjFace, light_dir: Vec3Df) -> Self {
        DepthShader {
            varying_tri: spec_face_ndc(self.uniform_depth_transform, obj_face),
            uniform_light_source: light_dir,
            uniform_depth_transform: self.uniform_depth_transform,
        }
    }

    open spec fn fragment_result(&self, bary_coords: Vec3Df, color: T) -> Result<
        bool,
        ShaderError,
    > {
        Ok(false)
    }

    /// White, shaded by the normalized depth; no texture is sampled.
    open spec fn fragment_color(&self, bary_coords: Vec3Df, color: T) -> T {
        T::spec_white().spec_shade(self.spec_normalized_depth(bary_coords))
    }

    open spec fn same_uniforms(&self, other: &Self) -> bool {
        self.uniform_depth_transform == other.uniform_depth_transform
    }

    proof fn lemma_vertex_overwrites(&self, other: &Self, obj_face: ObjFace, light_dir: Vec3Df) {
    }

    fn vertex(&mut self, obj_face: ObjFace, light_dir: Vec3Df) -> (r: Result<
        [Vec3Df; 3],
        ShaderError,
    >) {
        self.uniform_light_source = light_dir;
        self.varying_tri = face_ndc(self.uniform_depth_transform, obj_face);
        Ok(self.varying_tri)
    }

    fn fragment(&self, bary_coords: Vec3Df, color: &mut T) -> (r: Result<bool, ShaderError>) {
        let coords: Vec3Df = bary_to_point(&bary_coords, &self.varying_tri);
        *color = T::white();
        color.shade(coords.z.add(Fixed::from_int(1)).div(Fixed::from_int(2)));
        Ok(false)
    }
}

/// The depths that a completed depth pass from the light has left, one
/// for every pixel of the light's view. A value of this type can only be
/// had from such a pass, so that no shadow test can read depths that are
/// still being written.
pub struct ShadowBuffer {
    width: usize,
    height: usize,
    depth: Vec<Fixed>,
}

impl ShadowBuffer {
    #[verifier::type_invariant]
    spec fn well_formed(self) -> bool {
        self.depth.len() == self.width * self.height
    }

    /// The width of the light's view in pixels.
    pub closed spec fn spec_width(&self) -> usize {
        self.width
    }

    /// The height of the light's view in pixels.
    pub closed spec fn spec_height(&self) -> usize {
        self.height
    }

    /// The depths, row by row.
    pub closed spec fn depths(&self) -> Seq<Fixed> {
        self.depth@
    }

    /// The depth that the light saw at the pixel `(x, y)` of its view.
    pub open spec fn spec_depth_at(&self, x: usize, y: usize) -> Fixed {
        self.depths()[pixel_index(self.spec_width() as int, x as int, y as int)]
    }

    #[verifier::when_used_as_spec(spec_width)]
    pub fn width(&self) -> (w: usize)
        ensures
            w == self.spec_width(),
    {
        self.width
    }

    #[verifier::when_used_as_spec(spec_height)]
    pub fn height(&self) -> (h: usize)
        ensures
            h == self.spec_height(),
    {
        self.height
    }

    /// The depth that the light saw at the pixel `(x, y)`, if there is
    /// such a pixel.
    pub fn depth_at(&self, x: usize, y: usize) -> (d: Option<Fixed>)
        ensures
            x < self.spec_width() && y < self.spec_height() ==> d == Some(self.spec_depth_at(x, y)),
            !(x < self.spec_width() && y < self.spec_height()) ==> d is None,
    {
        proof {
            use_type_invariant(self);
        }
        if x < self.width && y < self.height {
            proof {
                lemma_pixel_index_in_bounds(
                    self.width as int,
                    self.height as int,
                    x as int,
                    y as int,
                );
            }
            Some(self.depth[x + y * self.width])
        } else {
            None
        }
    }

    /// Wraps the depth buffer that a depth pass has filled.
    pub(crate) fn from_completed_pass(width: usize, height: usize, depth: Vec<Fixed>) -> (b: Self)
        requires
            depth.len() == width * height,
        ensures
            b.spec_width() == width,
            b.spec_height() == height,
            b.depths() == depth@,
    {
        ShadowBuffer { width, height, depth }
    }
}

/// How far a pixel may lie behind the depth that the light saw and still
/// count as lit: 43.34.
pub open spec fn spec_shadow_bias() -> Fixed {
    Fixed::from_int(4334).div(Fixed::from_int(100))
}

#[verifier::when_used_as_spec(spec_shadow_bias)]
pub fn shadow_bias() -> (b: Fixed)
    ensures
        b == spec_shadow_bias(),
{
    Fixed::from_int(4334).div(Fixed::from_int(100))
}

/// The part of its light that a pixel in shadow keeps: three tenths.
pub open spec fn spec_shadow_attenuation() -> Fixed {
    Fixed::from_int(3).div(Fixed::from_int(10))
}

#[verifier::when_used_as_spec(spec_shadow_attenuation)]
pub fn shadow_attenuation() -> (a: Fixed)
    ensures
        a == spec_shadow_attenuation(),
{
    Fixed::from_int(3).div(Fixed::from_int(10))
}

/// The part of its light that a pixel keeps: all of it where the light
/// saw nothing nearer than the pixel's own depth plus the bias, and
/// three tenths where it did.
pub open spec fn spec_shadow_factor(stored: Fixed, depth: Fixed) -> Fixed {
    if stored.raw < depth.add(spec_shadow_bias()).raw {
        Fixed::from_int(1)
    } else {
        spec_shadow_attenuation()
    }
}

#[verifier::when_used_as_spec(spec_shadow_factor)]
pub fn shadow_factor(stored: Fixed, depth: Fixed) -> (f: Fixed)
    ensures
        f == spec_shadow_factor(stored, depth),
{
    if stored.raw < depth.add(shadow_bias()).raw {
        Fixed::from_int(1)
    } else {
        shadow_attenuation()
    }
}

/// The lighting of a normal map with a specular highlight, darkened where
/// the light does not reach.
pub struct ShadowShader<T: ColorSpace + Copy> {
    pub varying_texture_coords: [Vec3Df; 3],
    pub varying_screen_coords: [Vec3Df; 3],
    pub uniform_model: Model<T>,
    pub uniform_transform: Transform,
    pub uniform_shadow_transform: Affine3,
    pub uniform_shadowbuffer: ShadowBuffer,
    pub uniform_light_dir: Vec3Df,
}

impl<T: ColorSpace + Copy> ShadowShader<T> {
    /// `shadow_transform` takes a pixel of the camera's view to the pixel
    /// of the light's view that shows the same point; `shadowbuffer` holds
    /// the depths of the light's view.
    pub fn new(
        model: Model<T>,
        transform: Transform,
        shadow_transform: Affine3,
        shadowbuffer: ShadowBuffer,
    ) -> (s: Self)
        requires
            model.wf(),
        ensures
            s.uniform_model == model,
            s.uniform_transform == transform,
            s.uniform_shadow_transform == shadow_transform,
            s.uniform_shadowbuffer == shadowbuffer,
            s.uniform_light_dir == Vec3Df::spec_from_ints(0, 0, 0),
            s.wf(),
    {
        let zero: Vec3Df = Vec3Df::from_ints(0, 0, 0);
        ShadowShader {
            varying_texture_coords: [zero, zero, zero],
            varying_screen_coords: [zero, zero, zero],
            uniform_model: model,
            uniform_transform: transform,
            uniform_shadow_transform: shadow_transform,
            uniform_shadowbuffer: shadowbuffer,
            uniform_light_dir: zero,
        }
    }

    /// The corners of the face on the camera's screen.
    pub open spec fn spec_face_screen(transform: Transform, obj_face: ObjFace) -> [Vec3Df; 3] {
        [
            transform.get_whole_transform().transform_point3(obj_face.vertices[0]),
            transform.get_whole_transform().transform_point3(obj_face.vertices[1]),
            transform.get_whole_transform().transform_point3(obj_face.vertices[2]),
        ]
    }

    /// The point of the light's view that shows the point under the
    /// weights.
    pub open spec fn spec_light_view_point(&self, bary_coords: Vec3Df) -> Vec3Df {
        self.uniform_shadow_transform.transform_point3(
            spec_bary_to_point(&bary_coords, &self.varying_screen_coords),
        )
    }

    /// The pixel of the light's view that shows the point under the
    /// weights.
    pub open spec fn spec_light_view_pixel(&self, bary_coords: Vec3Df) -> (usize, usize) {
        let p = self.spec_light_view_point(bary_coords);
        (p.x.to_usize(), p.y.to_usize())
    }

    /// Whether the light's view shows the point under the weights.
    pub open spec fn seen_by_light(&self, bary_coords: Vec3Df) -> bool {
        spec_inside(
            self.spec_light_view_pixel(bary_coords),
            self.uniform_shadowbuffer.spec_width(),
            self.uniform_shadowbuffer.spec_height(),
        )
    }

    /// The part of its light that the point under the weights keeps.
    pub open spec fn spec_shadow(&self, bary_coords: Vec3Df) -> Fixed {
        let at = self.spec_light_view_pixel(bary_coords);
        spec_shadow_factor(
            self.uniform_shadowbuffer.spec_depth_at(at.0, at.1),
            self.spec_light_view_point(bary_coords).z,
        )
    }

    /// The colour of the diffuse texture under the weights, before light.
    pub open spec fn spec_texel(&self, bary_coords: Vec3Df) -> T {
        let at = spec_sample_position(bary_coords, self.varying_texture_coords);
        self.uniform_model.texture_image.pixel(at.0, at.1)
    }
}

impl<T: ColorSpace + Copy> Shader<T> for ShadowShader<T> {
    open spec fn wf(&self) -> bool {
        self.uniform_model.wf()
    }

    open spec fn vertex_result(&self, obj_face: ObjFace, light_dir: Vec3Df) -> Result<
        [Vec3Df; 3],
        ShaderError,
    > {
        if spec_face_uv_in_range(obj_face) {
            Ok(spec_face_ndc(self.uniform_transform, obj_face))
        } else {
            Err(ShaderError::UvOutOfRange)
        }
    }

    open spec fn vertex_state(&self, obj_face: ObjFace, light_dir: Vec3Df) -> Self {
        if spec_face_uv_in_range(obj_face) {
            ShadowShader {
                varying_texture_coords: spec_face_texture_coords(self.uniform_model, obj_face),
                varying_screen_coords: Self::spec_face_screen(self.uniform_transform, obj_face),
                uniform_model: self.uniform_model,
                uniform_transform: self.uniform_transform,
                uniform_shadow_transform: self.uniform_shadow_transform,
                uniform_shadowbuffer: self.uniform_shadowbuffer,
                uniform_light_dir: light_dir,
            }
        } else {
            *self
        }
    }

    open spec fn fragment_result(&self, bary_coords: Vec3Df, color: T) -> Result<
        bool,
        ShaderError,
    > {
        if !self.seen_by_light(bary_coords) {
            Err(ShaderError::ShadowOutOfBounds)
        } else if !spec_inside_maps(
            self.uniform_model,
            spec_sample_position(bary_coords, self.varying_texture_coords),
        ) {
            Err(ShaderError::SampleOutOfBounds)
        } else {
            Ok(false)
        }
    }

    open spec fn fragment_color(&self, bary_coords: Vec3Df, color: T) -> T {
        let at = spec_sample_position(bary_coords, self.varying_texture_coords);
        if self.seen_by_light(bary_coords) && spec_inside_maps(self.uniform_model, at) {
            spec_relit(
                self.spec_texel(bary_coords),
                self.spec_shadow(bary_coords).mul(
                    spec_mapped_light(
                        self.uniform_model,
                        self.uniform_transform,
                        self.uniform_light_dir,
                        at,
                    ),
                ),
            )
        } else {
            color
        }
    }

    open spec fn same_uniforms(&self, other: &Self) -> bool {
        self.uniform_model == other.uniform_model && self.uniform_transform == other.uniform_transform
            && self.uniform_shadow_transform == other.uniform_shadow_transform
            && self.uniform_shadowbuffer == other.uniform_shadowbuffer
    }

    proof fn lemma_vertex_overwrites(&self, other: &Self, obj_face: ObjFace, light_dir: Vec3Df) {
    }

    fn vertex(&mut self, obj_face: ObjFace, light_dir: Vec3Df) -> (r: Result<
        [Vec3Df; 3],
        ShaderError,
    >) {
        if !face_uv_in_range(obj_face) {
            return Err(ShaderError::UvOutOfRange);
        }
        let whole: Affine3 = self.uniform_transform.get_whole_transform();
        self.uniform_light_dir = light_dir;
        self.varying_texture_coords = face_texture_coords(&self.uniform_model, &obj_face);
        self.varying_screen_coords = [
            whole.transform_point3(obj_face.vertices[0]),
            whole.transform_point3(obj_face.vertices[1]),
            whole.transform_point3(obj_face.vertices[2]),
        ];
        Ok(face_ndc(self.uniform_transform, obj_face))
    }

    fn fragment(&self, bary_coords: Vec3Df, color: &mut T) -> (r: Result<bool, ShaderError>) {
        let seen: Vec3Df = self.uniform_shadow_transform.transform_point3(
            bary_to_point(&bary_coords, &self.varying_screen_coords),
        );
        let stored: Fixed = match self.uniform_shadowbuffer.depth_at(
            seen.x.to_usize(),
            seen.y.to_usize(),
        ) {
            Some(d) => d,
            None => {
                return Err(ShaderError::ShadowOutOfBounds);
            },
        };
        let shadow: Fixed = shadow_factor(stored, seen.z);
        let at: (usize, usize) = sample_position(bary_coords, self.varying_texture_coords);
        if !inside_maps(&self.uniform_model, at) {
            return Err(ShaderError::SampleOutOfBounds);
        }
        let light: Fixed = shadow.mul(
            mapped_light(&self.uniform_model, self.uniform_transform, self.uniform_light_dir, at),
        );
        *color = self.uniform_model.get_texture_color(at.0, at.1);
        relight(color, light);
        Ok(false)
    }
}

/// The shader that lights as the shadow shader does where no shadow
/// falls.
pub open spec fn spec_without_shadow<T: ColorSpace + Copy>(
    shader: ShadowShader<T>,
) -> crate::shaders::normal_spec::NormalSpecularShader<T> {
    crate::shaders::normal_spec::NormalSpecularShader {
        varying_texture_coords: shader.varying_texture_coords,
        uniform_model: shader.uniform_model,
        uniform_transform: shader.uniform_transform,
        uniform_light_dir: shader.uniform_light_dir,
    }
}

/// Where the light sees the point under the weights and has seen nothing
/// nearer than its depth plus the bias, the point is fully lit: result and
/// colour are those of the shader without shadows.
pub proof fn lemma_lit_where_nothing_is_nearer<T: ColorSpace + Copy>(
    shader: ShadowShader<T>,
    bary_coords: Vec3Df,
    color: T,
)
    requires
        shader.seen_by_light(bary_coords),
        shader.spec_shadow(bary_coords) == Fixed::spec_from_int(1),
    ensures
        shader.fragment_result(bary_coords, color) == spec_without_shadow(shader).fragment_result(
            bary_coords,
            color,
        ),
        shader.fragment_color(bary_coords, color) == spec_without_shadow(shader).fragment_color(
            bary_coords,
            color,
        ),
{
    let at = spec_sample_position(bary_coords, shader.varying_texture_coords);
    let light = spec_mapped_light(
        shader.uniform_model,
        shader.uniform_transform,
        shader.uniform_light_dir,
        at,
    );
    let one = Fixed::spec_from_int(1);
    assert(one.raw == 0x1_0000_0000);
    assert((0x1_0000_0000 * light.raw) / 0x1_0000_0000 == light.raw);
    assert(one.mul(light) == light);
}

/// Where the light has seen something nearer, the point keeps three
/// tenths of its light: in every channel the colour is no brighter than
/// without the shadow, and unless that channel is capped at 255 without the
/// shadow, what it has over the ambient light is three tenths of what it has
/// without the shadow, up to one unit.
pub proof fn lemma_dark_where_something_is_nearer<T: ColorSpace + Copy>(
    shader: ShadowShader<T>,
    bary_coords: Vec3Df,
    color: T,
)
    requires
        shader.seen_by_light(bary_coords),
        shader.spec_shadow(bary_coords) != Fixed::spec_from_int(1),
        spec_inside_maps(
            shader.uniform_model,
            spec_sample_position(bary_coords, shader.varying_texture_coords),
        ),
    ensures
        shader.fragment_result(bary_coords, color) == Ok::<bool, ShaderError>(false),
        forall|i: int|
            0 <= i < T::spec_channel_count() ==> {
                let dark = #[trigger] shader.fragment_color(bary_coords, color).channels()[i];
                let lit = spec_without_shadow(shader).fragment_color(
                    bary_coords,
                    color,
                ).channels()[i];
                &&& crate::shaders::lighting::AMBIENT <= dark <= lit
                &&& lit < 255 ==> -10 <= 10 * (dark - crate::shaders::lighting::AMBIENT) - 3 * (lit
                    - crate::shaders::lighting::AMBIENT) <= 3
            },
{
    let at = spec_sample_position(bary_coords, shader.varying_texture_coords);
    let light = spec_mapped_light(
        shader.uniform_model,
        shader.uniform_transform,
        shader.uniform_light_dir,
        at,
    );
    let texel = shader.spec_texel(bary_coords);
    crate::shaders::lighting::lemma_phong_not_negative(
        crate::shaders::lighting::spec_ndc_normal(
            shader.uniform_transform,
            crate::model::spec_decode_normal(shader.uniform_model.normal_image.pixel(at.0, at.1)),
        ),
        crate::shaders::lighting::spec_ndc_light(shader.uniform_transform, shader.uniform_light_dir),
        Fixed::spec_from_int(shader.uniform_model.specular_image.pixel(at.0, at.1).i as i32),
    );
    let tenths = crate::shaders::lighting::spec_three_tenths();
    assert(shader.spec_shadow(bary_coords) == tenths);
    let less = tenths.mul(light);
    crate::fixed::lemma_mul_not_negative(tenths, light);
    crate::shaders::lighting::lemma_relit_channels(texel, light);
    crate::shaders::lighting::lemma_relit_channels(texel, less);
    texel.lemma_channels_give_back();
    assert forall|i: int| 0 <= i < T::spec_channel_count() implies {
        let dark = #[trigger] shader.fragment_color(bary_coords, color).channels()[i];
        let lit = spec_without_shadow(shader).fragment_color(bary_coords, color).channels()[i];
        &&& crate::shaders::lighting::AMBIENT <= dark <= lit
        &&& lit < 255 ==> -10 <= 10 * (dark - crate::shaders::lighting::AMBIENT) - 3 * (lit
            - crate::shaders::lighting::AMBIENT) <= 3
    } by {
        crate::shaders::lighting::lemma_attenuated_channel(texel.channels()[i], light);
        crate::shaders::lighting::lemma_lit_channel_at_least_ambient(texel.channels()[i], less);
    }
}

} // verus!
