//! Filling a triangle with the colours of a texture under one light.

use vstd::prelude::*;
use crate::fixed::Fixed;
use crate::rasterizer::{bary_to_point, rasterizes_to, spec_bary_to_point};
use crate::shaders::shader::{Shader, ShaderError};
use crate::tgaimage::{ColorSpace, Image};
use crate::types::{ObjFace, Vec3Df};

verus! {

/// Colours every pixel with the texel under it, shaded by one intensity
/// for the whole triangle.
pub struct TextureLookup<'a, T: ColorSpace + Copy> {
    pub texture: &'a Image<T>,
    pub corners: [Vec3Df; 3],
    pub intensity: Fixed,
}

impl<'a, T: ColorSpace + Copy> TextureLookup<'a, T> {
    /// The place in the texture's buffer of the texel under the weights:
    /// the whole part of `x + y * height`.
    pub open spec fn spec_texel_index(&self, bary_coords: Vec3Df) -> usize {
        let at = spec_bary_to_point(&bary_coords, &self.corners);
        at.x.add(at.y.mul(Fixed::from_usize(self.texture.height))).to_usize()
    }
}

impl<'a, T: ColorSpace + Copy> Shader<T> for TextureLookup<'a, T> {
    open spec fn wf(&self) -> bool {
        true
    }

    /// The corners stay where the face has them.
    open spec fn vertex_result(&self, obj_face: ObjFace, light_dir: Vec3Df) -> Result<
        [Vec3Df; 3],
        ShaderError,
    > {
        Ok(obj_face.vertices)
    }

    open spec fn vertex_state(&self, obj_face: ObjFace, light_dir: Vec3Df) -> Self {
        *self
    }

    open spec fn fragment_result(&self, bary_coords: Vec3Df, color: T) -> Result<
        bool,
        ShaderError,
    > {
        if self.spec_texel_index(bary_coords) < self.texture.data@.len() {
            Ok(false)
        } else {
            Err(ShaderError::SampleOutOfBounds)
        }
    }

    open spec fn fragment_color(&self, bary_coords: Vec3Df, color: T) -> T {
        if self.spec_texel_index(bary_coords) < self.texture.data@.len() {
            self.texture.data@[self.spec_texel_index(bary_coords) as int].spec_shade(
                self.intensity,
            )
        } else {
            color
        }
    }

    open spec fn same_uniforms(&self, other: &Self) -> bool {
        self == other
    }

    proof fn lemma_vertex_overwrites(&self, other: &Self, obj_face: ObjFace, light_dir: Vec3Df) {
    }

    fn vertex(&mut self, obj_face: ObjFace, light_dir: Vec3Df) -> (r: Result<
        [Vec3Df; 3],
        ShaderError,
    >) {
        Ok(obj_face.vertices)
    }

    fn fragment(&self, bary_coords: Vec3Df, color: &mut T) -> (r: Result<bool, ShaderError>) {
        let at: Vec3Df = bary_to_point(&bary_coords, &self.corners);
        let index: usize = at.x.add(at.y.mul(Fixed::from_usize(self.texture.height))).to_usize();
        if index >= self.texture.data.len() {
            return Err(ShaderError::SampleOutOfBounds);
        }
        *color = self.texture.data[index];
        color.shade(self.intensity);
        Ok(false)
    }
}

/// A point of the square `[-1, 1]^2` on an image of the given size; the
/// depth stays as it is.
pub open spec fn spec_to_image(v: Vec3Df, width: usize, height: usize) -> Vec3Df {
    let two = Fixed::from_int(2);
    Vec3Df {
        x: Fixed::from_int(1).add(v.x).mul(Fixed::from_usize(width)).div(two),
        y: Fixed::from_int(1).add(v.y).mul(Fixed::from_usize(height)).div(two),
        z: v.z,
    }
}

#[verifier::when_used_as_spec(spec_to_image)]
pub fn to_image(v: Vec3Df, width: usize, height: usize) -> (r: Vec3Df)
    ensures
        r == spec_to_image(v, width, height),
{
    let two: Fixed = Fixed::from_int(2);
    Vec3Df {
        x: Fixed::from_int(1).add(v.x).mul(Fixed::from_usize(width)).div(two),
        y: Fixed::from_int(1).add(v.y).mul(Fixed::from_usize(height)).div(two),
        z: v.z,
    }
}

/// A texture coordinate on a texture of the given size, row zero at
/// `y = 1`.
pub open spec fn spec_to_texture(v: Vec3Df, width: usize, height: usize) -> Vec3Df {
    Vec3Df {
        x: v.x.mul(Fixed::from_usize(width)),
        y: Fixed::from_usize(height).sub(v.y.mul(Fixed::from_usize(height))),
        z: Fixed::from_int(0),
    }
}

#[verifier::when_used_as_spec(spec_to_texture)]
pub fn to_texture(v: Vec3Df, width: usize, height: usize) -> (r: Vec3Df)
    ensures
        r == spec_to_texture(v, width, height),
{
    Vec3Df {
        x: v.x.mul(Fixed::from_usize(width)),
        y: Fixed::from_usize(height).sub(v.y.mul(Fixed::from_usize(height))),
        z: Fixed::from_int(0),
    }
}

/// The shader that `triangle` hands to the rasterizer.
pub open spec fn spec_lookup<'a, T: ColorSpace + Copy>(
    texture_image: &'a Image<T>,
    texture_face: [Vec3Df; 3],
    intensity: Fixed,
) -> TextureLookup<'a, T> {
    TextureLookup {
        texture: texture_image,
        corners: [
            spec_to_texture(texture_face[0], texture_image.width, texture_image.height),
            spec_to_texture(texture_face[1], texture_image.width, texture_image.height),
            spec_to_texture(texture_face[2], texture_image.width, texture_image.height),
        ],
        intensity,
    }
}

/// The corners of the face on an image of the given size.
pub open spec fn spec_face_on_image(face: [Vec3Df; 3], width: usize, height: usize) -> [Vec3Df; 3] {
    [
        spec_to_image(face[0], width, height),
        spec_to_image(face[1], width, height),
        spec_to_image(face[2], width, height),
    ]
}

/// Fills the triangle `face`, given in the square `[-1, 1]^2`, with the
/// depth test of the rasterizer. Every pixel takes the colour of the texture
/// at the matching point of `texture_face`, shaded by `intensity`.
pub fn triangle<T>(
    image: &mut Image<T>,
    texture_image: &Image<T>,
    face: [Vec3Df; 3],
    texture_face: [Vec3Df; 3],
    zbuffer: &mut Vec<Fixed>,
    intensity: Fixed,
) -> (r: Result<(), ShaderError>) where T: ColorSpace + Copy
    requires
        old(image).wf(),
        old(zbuffer).len() == old(image).width * old(image).height,
    ensures
        final(image).wf(),
        final(image).width == old(image).width,
        final(image).height == old(image).height,
        final(zbuffer).len() == old(zbuffer).len(),
        forall|i: int|
            0 <= i < old(zbuffer).len() ==> old(zbuffer)@[i].raw <= #[trigger] final(zbuffer)@[i].raw,
        rasterizes_to(
            spec_lookup(texture_image, texture_face, intensity),
            old(image).width,
            old(image).height,
            spec_face_on_image(face, old(image).width, old(image).height),
            old(image).data@,
            old(zbuffer)@,
            final(image).data@,
            final(zbuffer)@,
            r,
        ),
{
    let shader = TextureLookup {
        texture: texture_image,
        corners: [
            to_texture(texture_face[0], texture_image.width, texture_image.height),
            to_texture(texture_face[1], texture_image.width, texture_image.height),
            to_texture(texture_face[2], texture_image.width, texture_image.height),
        ],
        intensity,
    };
    let screen: [Vec3Df; 3] = [
        to_image(face[0], image.width, image.height),
        to_image(face[1], image.width, image.height),
        to_image(face[2], image.width, image.height),
    ];
    crate::rasterizer::triangle(image, &shader, screen, zbuffer)
}

/// The image and the depth buffer after the first `k` faces have been
/// drawn one after the other with `triangle`, none of them failing.
pub open spec fn faces_drawn<'a, T: ColorSpace + Copy>(
    texture_image: &'a Image<T>,
    intensity: Fixed,
    width: usize,
    height: usize,
    pixels: Seq<T>,
    depth: Seq<Fixed>,
    faces: Seq<ObjFace>,
    k: nat,
) -> (Seq<T>, Seq<Fixed>)
    decreases k,
{
    if k == 0 {
        (pixels, depth)
    } else {
        let before = faces_drawn(
            texture_image,
            intensity,
            width,
            height,
            pixels,
            depth,
            faces,
            (k - 1) as nat,
        );
        let shader = spec_lookup(texture_image, faces[k - 1].texture_vertices, intensity);
        let screen = spec_face_on_image(faces[k - 1].vertices, width, height);
        (
            crate::rasterizer::rasterized_pixels(shader, width, height, screen, before.0, before.1),
            crate::rasterizer::rasterized_depth(shader, width, height, screen, before.1),
        )
    }
}

/// Whether each of the first `k` faces is drawn without a failure, one
/// after the other.
pub open spec fn faces_draw<'a, T: ColorSpace + Copy>(
    texture_image: &'a Image<T>,
    intensity: Fixed,
    width: usize,
    height: usize,
    pixels: Seq<T>,
    depth: Seq<Fixed>,
    faces: Seq<ObjFace>,
    k: nat,
) -> bool
    decreases k,
{
    if k == 0 {
        true
    } else {
        let before = faces_drawn(
            texture_image,
            intensity,
            width,
            height,
            pixels,
            depth,
            faces,
            (k - 1) as nat,
        );
        &&& faces_draw(
            texture_image,
            intensity,
            width,
            height,
            pixels,
            depth,
            faces,
            (k - 1) as nat,
        )
        &&& crate::rasterizer::none_fails_before(
            spec_lookup(texture_image, faces[k - 1].texture_vertices, intensity),
            width,
            height,
            spec_face_on_image(faces[k - 1].vertices, width, height),
            before.1,
            width as int,
            0,
        )
    }
}

/// The drawing has stopped in face `k` with the error `e`: the faces
/// before it were drawn, and the texture lookup failed on a pixel of face
/// `k`, with the pixels visited until then written.
pub open spec fn stopped_drawing<'a, T: ColorSpace + Copy>(
    texture_image: &'a Image<T>,
    intensity: Fixed,
    width: usize,
    height: usize,
    pixels: Seq<T>,
    depth: Seq<Fixed>,
    faces: Seq<ObjFace>,
    k: nat,
    e: ShaderError,
    last_pixels: Seq<T>,
    last_depth: Seq<Fixed>,
) -> bool {
    let before = faces_drawn(texture_image, intensity, width, height, pixels, depth, faces, k);
    &&& k < faces.len()
    &&& faces_draw(texture_image, intensity, width, height, pixels, depth, faces, k)
    &&& rasterizes_to(
        spec_lookup(texture_image, faces[k as int].texture_vertices, intensity),
        width,
        height,
        spec_face_on_image(faces[k as int].vertices, width, height),
        before.0,
        before.1,
        last_pixels,
        last_depth,
        Err::<(), ShaderError>(e),
    )
}

/// Draws every face in turn with `triangle`: its corners in the square
/// `[-1, 1]^2`, its colours from the texture, one intensity for all. The
/// first failure ends the drawing.
pub fn draw_faces<T>(
    image: &mut Image<T>,
    texture_image: &Image<T>,
    faces: &Vec<ObjFace>,
    intensity: Fixed,
    zbuffer: &mut Vec<Fixed>,
) -> (r: Result<(), ShaderError>) where T: ColorSpace + Copy
    requires
        old(image).wf(),
        old(zbuffer).len() == old(image).width * old(image).height,
    ensures
        final(image).wf(),
        final(image).width == old(image).width,
        final(image).height == old(image).height,
        final(zbuffer).len() == old(zbuffer).len(),
        forall|i: int|
            0 <= i < old(zbuffer).len() ==> old(zbuffer)@[i].raw <= #[trigger] final(zbuffer)@[i].raw,
        match r {
            Ok(()) => {
                &&& faces_draw(
                    texture_image,
                    intensity,
                    old(image).width,
                    old(image).height,
                    old(image).data@,
                    old(zbuffer)@,
                    faces@,
                    faces@.len(),
                )
                &&& (final(image).data@, final(zbuffer)@) == faces_drawn(
                    texture_image,
                    intensity,
                    old(image).width,
                    old(image).height,
                    old(image).data@,
                    old(zbuffer)@,
                    faces@,
                    faces@.len(),
                )
            },
            Err(e) => exists|k: nat| #[trigger]
                stopped_drawing(
                    texture_image,
                    intensity,
                    old(image).width,
                    old(image).height,
                    old(image).data@,
                    old(zbuffer)@,
                    faces@,
                    k,
                    e,
                    final(image).data@,
                    final(zbuffer)@,
                ),
        },
{
    let ghost first_pixels = image.data@;
    let ghost first_depth = zbuffer@;
    let width: usize = image.width;
    let height: usize = image.height;
    let n: usize = faces.len();
    let mut k: usize = 0;
    while k < n
        invariant
            k <= n,
            n == faces@.len(),
            image.wf(),
            image.width == width,
            image.height == height,
            width == old(image).width,
            height == old(image).height,
            first_pixels == old(image).data@,
            first_depth == old(zbuffer)@,
            zbuffer.len() == width * height,
            first_depth.len() == width * height,
            forall|i: int| 0 <= i < first_depth.len() ==> first_depth[i].raw <= #[trigger] zbuffer@[i].raw,
            faces_draw(
                texture_image,
                intensity,
                width,
                height,
                first_pixels,
                first_depth,
                faces@,
                k as nat,
            ),
            (image.data@, zbuffer@) == faces_drawn(
                texture_image,
                intensity,
                width,
                height,
                first_pixels,
                first_depth,
                faces@,
                k as nat,
            ),
        decreases n - k,
    {
        let ghost depth_before = zbuffer@;
        let obj_face: ObjFace = faces[k];
        match triangle(
            image,
            texture_image,
            obj_face.vertices,
            obj_face.texture_vertices,
            zbuffer,
            intensity,
        ) {
            Ok(()) => {},
            Err(e) => {
                assert(stopped_drawing(
                    texture_image,
                    intensity,
                    width,
                    height,
                    first_pixels,
                    first_depth,
                    faces@,
                    k as nat,
                    e,
                    image.data@,
                    zbuffer@,
                ));
                return Err(e);
            },
        }
        assert forall|i: int| 0 <= i < first_depth.len() implies first_depth[i].raw
            <= #[trigger] zbuffer@[i].raw by {
            assert(first_depth[i].raw <= depth_before[i].raw);
        }
        k = k + 1;
    }
    Ok(())
}

} // verus!
