//! The contract between a shader and the rasterizer.

use vstd::prelude::*;
use crate::tgaimage::ColorSpace;
use crate::types::{ObjFace, Vec3Df};

verus! {

/// Why a shader stage gave up. Any of these ends the render of the image.
#[derive(Clone, Copy, Debug, PartialEq, Eq, Structural)]
pub enum ShaderError {
    /// A texture coordinate of the face lies outside `[0, 1]`.
    UvOutOfRange,
    /// A texture was sampled outside its pixels.
    SampleOutOfBounds,
    /// The shadow buffer was read outside its entries.
    ShadowOutOfBounds,
}

/// A shader: `vertex` runs once per triangle and stores what `fragment`
/// then reads for every pixel of that triangle.
pub trait Shader<T: ColorSpace + Copy>: Sized {
    /// The shader's textures and buffers are consistent.
    spec fn wf(&self) -> bool;

    /// What `vertex` returns.
    spec fn vertex_result(&self, obj_face: ObjFace, light_dir: Vec3Df) -> Result<
        [Vec3Df; 3],
        ShaderError,
    >;

    /// The shader after `vertex`.
    spec fn vertex_state(&self, obj_face: ObjFace, light_dir: Vec3Df) -> Self;

    /// What `fragment` returns: `Ok(true)` to discard the pixel.
    spec fn fragment_result(&self, bary_coords: Vec3Df, color: T) -> Result<bool, ShaderError>;

    /// The colour that `fragment` leaves in place of `color`.
    spec fn fragment_color(&self, bary_coords: Vec3Df, color: T) -> T;

    /// Whether the two shaders agree in what is set once for a whole
    /// render: their textures, transforms and buffers.
    spec fn same_uniforms(&self, other: &Self) -> bool;

    /// A successful vertex stage overwrites all that the last face left:
    /// shaders that agree in their uniforms agree in everything after it.
    proof fn lemma_vertex_overwrites(&self, other: &Self, obj_face: ObjFace, light_dir: Vec3Df)
        requires
            self.same_uniforms(other),
            self.vertex_result(obj_face, light_dir) is Ok,
        ensures
            other.vertex_result(obj_face, light_dir) == self.vertex_result(obj_face, light_dir),
            other.vertex_state(obj_face, light_dir) == self.vertex_state(obj_face, light_dir),
    ;

    /// Transforms the corners of a face into normalized device coordinates
    /// and prepares the data that `fragment` interpolates.
    fn vertex(&mut self, obj_face: ObjFace, light_dir: Vec3Df) -> (r: Result<
        [Vec3Df; 3],
        ShaderError,
    >)
        requires
            old(self).wf(),
        ensures
            final(self).wf(),
            r == old(self).vertex_result(obj_face, light_dir),
            *final(self) == old(self).vertex_state(obj_face, light_dir),
    ;

    /// Computes the colour of the pixel with the given barycentric weights
    /// and says whether to discard it.
    fn fragment(&self, bary_coords: Vec3Df, color: &mut T) -> (r: Result<bool, ShaderError>)
        requires
            self.wf(),
        ensures
            r == self.fragment_result(bary_coords, *old(color)),
            *final(color) == self.fragment_color(bary_coords, *old(color)),
    ;
}

} // verus!
