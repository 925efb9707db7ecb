//! The images that go with a mesh, and how they are sampled.

use vstd::prelude::*;
use crate::fixed::{Fixed, SCALE};
use crate::tgaimage::{ColorSpace, Grayscale, Image, RGB};
use crate::types::{Vec2Df, Vec3Df};

verus! {

/// Whether both texture coordinates lie in `[0, 1]`.
pub open spec fn spec_uv_in_range(x: Fixed, y: Fixed) -> bool {
    0 <= x.raw <= SCALE && 0 <= y.raw <= SCALE
}

#[verifier::when_used_as_spec(spec_uv_in_range)]
pub fn uv_in_range(x: Fixed, y: Fixed) -> (r: bool)
    ensures
        r == spec_uv_in_range(x, y),
{
    0 <= x.raw && x.raw <= SCALE && 0 <= y.raw && y.raw <= SCALE
}

/// The pixel of an image `width` pixels wide, with rows counted over
/// `height`, under the texture coordinate `(x, y)`. Row zero is the row of
/// `y = 1`.
pub open spec fn spec_uv_to_pixel(width: usize, height: usize, x: Fixed, y: Fixed) -> Vec2Df {
    Vec2Df {
        x: x.mul(Fixed::from_usize(width)).floor(),
        y: Fixed::from_usize(height).sub(y.mul(Fixed::from_usize(height))).floor(),
    }
}

#[verifier::when_used_as_spec(spec_uv_to_pixel)]
pub fn uv_to_pixel(width: usize, height: usize, x: Fixed, y: Fixed) -> (r: Vec2Df)
    ensures
        r == spec_uv_to_pixel(width, height, x, y),
{
    Vec2Df {
        x: x.mul(Fixed::from_usize(width)).floor(),
        y: Fixed::from_usize(height).sub(y.mul(Fixed::from_usize(height))).floor(),
    }
}

/// One channel of a normal map as a component in `[-1, 1]`.
pub open spec fn spec_decode_component(c: u8) -> Fixed {
    Fixed::from_int(2).mul(Fixed::from_int(c as i32).div(Fixed::from_int(255))).sub(
        Fixed::from_int(1),
    )
}

#[verifier::when_used_as_spec(spec_decode_component)]
pub fn decode_component(c: u8) -> (r: Fixed)
    ensures
        r == spec_decode_component(c),
{
    Fixed::from_int(2).mul(Fixed::from_int(c as i32).div(Fixed::from_int(255))).sub(
        Fixed::from_int(1),
    )
}

/// The vector that a texel of a normal map stands for.
pub open spec fn spec_decode_normal(c: RGB) -> Vec3Df {
    Vec3Df { x: decode_component(c.r), y: decode_component(c.g), z: decode_component(c.b) }
}

#[verifier::when_used_as_spec(spec_decode_normal)]
pub fn decode_normal(c: RGB) -> (r: Vec3Df)
    ensures
        r == spec_decode_normal(c),
{
    Vec3Df { x: decode_component(c.r), y: decode_component(c.g), z: decode_component(c.b) }
}

/// The images of a model: its diffuse texture, its normals in world space
/// and in tangent space, and its specular exponents.
#[derive(Clone)]
pub struct Model<T: ColorSpace + Copy> {
    pub texture_image: Image<T>,
    pub normal_image: Image<RGB>,
    pub tangent_normal_image: Image<RGB>,
    pub specular_image: Image<Grayscale>,
}

impl<T: ColorSpace + Copy> Model<T> {
    /// Every image holds as many pixels as its size says.
    pub open spec fn wf(&self) -> bool {
        &&& self.texture_image.wf()
        &&& self.normal_image.wf()
        &&& self.tangent_normal_image.wf()
        &&& self.specular_image.wf()
    }

    /// The pixel of the diffuse texture under a texture coordinate.
    pub fn texture_pixel_coords(&self, x: Fixed, y: Fixed) -> (r: Vec2Df)
        requires
            spec_uv_in_range(x, y),
        ensures
            r == spec_uv_to_pixel(self.texture_image.width, self.texture_image.height, x, y),
    {
        uv_to_pixel(self.texture_image.width, self.texture_image.height, x, y)
    }

    /// The pixel of the normal map under a texture coordinate.
    pub fn normal_pixel_coords(&self, x: Fixed, y: Fixed) -> (r: Vec2Df)
        requires
            spec_uv_in_range(x, y),
        ensures
            r == spec_uv_to_pixel(self.normal_image.width, self.normal_image.height, x, y),
    {
        uv_to_pixel(self.normal_image.width, self.normal_image.height, x, y)
    }

    /// The pixel of the tangent-space normal map under a texture
    /// coordinate.
    pub fn tang_normal_pixel_coords(&self, x: Fixed, y: Fixed) -> (r: Vec2Df)
        requires
            spec_uv_in_range(x, y),
        ensures
            r == spec_uv_to_pixel(
                self.tangent_normal_image.width,
                self.tangent_normal_image.height,
                x,
                y,
            ),
    {
        uv_to_pixel(self.tangent_normal_image.width, self.tangent_normal_image.height, x, y)
    }

    /// The pixel of the specular map under a texture coordinate.
    pub fn specular_pixel_coords(&self, x: Fixed, y: Fixed) -> (r: Vec2Df)
        requires
            spec_uv_in_range(x, y),
        ensures
            r == spec_uv_to_pixel(self.specular_image.width, self.specular_image.height, x, y),
    {
        uv_to_pixel(self.specular_image.width, self.specular_image.height, x, y)
    }

    /// The colour of the diffuse texture at a pixel.
    pub fn get_texture_color(&self, x: usize, y: usize) -> (c: T)
        requires
            self.wf(),
            x < self.texture_image.width,
            y < self.texture_image.height,
        ensures
            c == self.texture_image.pixel(x, y),
    {
        match self.texture_image.get(x, y) {
            Ok(c) => c,
            Err(_) => T::new(),
        }
    }

    /// The world-space normal stored at a pixel of the normal map.
    pub fn get_normal(&self, x: usize, y: usize) -> (n: Vec3Df)
        requires
            self.wf(),
            x < self.normal_image.width,
            y < self.normal_image.height,
        ensures
            n == spec_decode_normal(self.normal_image.pixel(x, y)),
    {
        match self.normal_image.get(x, y) {
            Ok(c) => decode_normal(c),
            Err(_) => Vec3Df::from_ints(0, 0, 0),
        }
    }

    /// The tangent-space normal stored at a pixel of the tangent-space
    /// normal map.
    pub fn get_tangent_normal(&self, x: usize, y: usize) -> (n: Vec3Df)
        requires
            self.wf(),
            x < self.tangent_normal_image.width,
            y < self.tangent_normal_image.height,
        ensures
            n == spec_decode_normal(self.tangent_normal_image.pixel(x, y)),
    {
        match self.tangent_normal_image.get(x, y) {
            Ok(c) => decode_normal(c),
            Err(_) => Vec3Df::from_ints(0, 0, 0),
        }
    }

    /// The specular exponent stored at a pixel of the specular map: the
    /// byte itself, as a number.
    pub fn get_specularity(&self, x: usize, y: usize) -> (s: Fixed)
        requires
            self.wf(),
            x < self.specular_image.width,
            y < self.specular_image.height,
        ensures
            s == Fixed::spec_from_int(self.specular_image.pixel(x, y).i as i32),
    {
        match self.specular_image.get(x, y) {
            Ok(c) => Fixed::from_int(c.i as i32),
            Err(_) => Fixed::from_int(0),
        }
    }
}

} // verus!
