//! A software renderer for triangle meshes, verified with Verus.
//!
//! A mesh is read from the text of an OBJ file ([`obj`]), moved through a
//! camera, a projection and a viewport ([`transform`]), and filled triangle
//! by triangle into an image with a depth test for every pixel
//! ([`rasterizer`], [`render`]). What colour a pixel takes is the business of
//! a shader with a vertex and a fragment stage ([`shaders`]); the textures
//! that shaders sample belong to a model ([`model`]). Images are read and
//! written as TGA files ([`tga`], [`rle`]).
//!
//! All numbers are fixed-point numbers with thirty-two fractional bits
//! ([`fixed`]): arithmetic is exact up to a rounding toward negative infinity
//! that every contract states, it saturates instead of overflowing, and no
//! function of the library panics.

pub mod fixed;
pub mod decimal;
pub mod types;
pub mod matrix;
pub mod transform;
pub mod tgaimage;
pub mod tga;
pub mod rle;
pub mod model;
pub mod obj;
pub mod shaders;
pub mod rasterizer;
pub mod render;
pub mod line;
pub mod rasterize;
pub mod triangle_linesweep;
pub mod triangle_bary;
