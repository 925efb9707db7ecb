//! Filling one triangle into an image, with a depth test for every pixel.

use vstd::prelude::*;
use crate::fixed::{floor_div, Fixed, SCALE};
use crate::shaders::shader::{Shader, ShaderError};
use crate::tgaimage::{
    lemma_pixel_index_in_bounds,
    lemma_pixel_index_injective,
    pixel_index,
    ColorSpace,
    Image,
};
use crate::types::Vec3Df;

verus! {

/// A rectangle of pixels; both corners belong to it.
#[derive(Clone, Copy, Debug, PartialEq, Eq, Structural)]
pub struct PixelBox {
    pub min_x: i32,
    pub min_y: i32,
    pub max_x: i32,
    pub max_y: i32,
}

/// The smallest of the three numbers, clamped into `[0, limit]`.
pub open spec fn spec_clamped_low(limit: Fixed, a: Fixed, b: Fixed, c: Fixed) -> Fixed {
    Fixed::from_int(0).max(limit.min(a.min(b).min(c)))
}

/// The largest of the three numbers, clamped into `[0, limit]`; `limit`
/// itself where `limit` is negative.
pub open spec fn spec_clamped_high(limit: Fixed, a: Fixed, b: Fixed, c: Fixed) -> Fixed {
    limit.min(Fixed::from_int(0).max(a.max(b).max(c)))
}

/// The bounding box of three screen positions, clamped to the pixels of a
/// `width` by `height` image.
#[verifier::opaque]
pub open spec fn spec_bounding_box(width: usize, height: usize, screen: [Vec3Df; 3]) -> PixelBox {
    let limit_x = Fixed::from_usize(width).sub(Fixed::from_int(1));
    let limit_y = Fixed::from_usize(height).sub(Fixed::from_int(1));
    PixelBox {
        min_x: spec_clamped_low(limit_x, screen[0].x, screen[1].x, screen[2].x).to_i32(),
        min_y: spec_clamped_low(limit_y, screen[0].y, screen[1].y, screen[2].y).to_i32(),
        max_x: spec_clamped_high(limit_x, screen[0].x, screen[1].x, screen[2].x).to_i32(),
        max_y: spec_clamped_high(limit_y, screen[0].y, screen[1].y, screen[2].y).to_i32(),
    }
}

#[verifier::when_used_as_spec(spec_bounding_box)]
pub fn bounding_box(width: usize, height: usize, screen: [Vec3Df; 3]) -> (b: PixelBox)
    ensures
        b == spec_bounding_box(width, height, screen),
        0 <= b.min_x,
        0 <= b.min_y,
        -1 <= b.max_x < width,
        -1 <= b.max_y < height,
        b.max_x < i32::MAX,
        b.max_y < i32::MAX,
        b.min_x <= b.max_x + 1,
        b.min_y <= b.max_y + 1,
{
    proof {
        reveal(spec_bounding_box);
    }
    let zero: Fixed = Fixed::from_int(0);
    let limit_x: Fixed = Fixed::from_usize(width).sub(Fixed::from_int(1));
    let limit_y: Fixed = Fixed::from_usize(height).sub(Fixed::from_int(1));
    let low_x: Fixed = zero.max(limit_x.min(screen[0].x.min(screen[1].x).min(screen[2].x)));
    let low_y: Fixed = zero.max(limit_y.min(screen[0].y.min(screen[1].y).min(screen[2].y)));
    let high_x: Fixed = limit_x.min(zero.max(screen[0].x.max(screen[1].x).max(screen[2].x)));
    let high_y: Fixed = limit_y.min(zero.max(screen[0].y.max(screen[1].y).max(screen[2].y)));
    PixelBox {
        min_x: low_x.to_i32(),
        min_y: low_y.to_i32(),
        max_x: high_x.to_i32(),
        max_y: high_y.to_i32(),
    }
}

/// The cross product whose components are the unnormalized barycentric
/// weights of `p` in the triangle; only x and y of the positions count.
pub open spec fn barycentric_cross(vertices: [Vec3Df; 3], p: Vec3Df) -> Vec3Df {
    let a = Vec3Df {
        x: vertices[2].x.sub(vertices[0].x),
        y: vertices[1].x.sub(vertices[0].x),
        z: vertices[0].x.sub(p.x),
    };
    let b = Vec3Df {
        x: vertices[2].y.sub(vertices[0].y),
        y: vertices[1].y.sub(vertices[0].y),
        z: vertices[0].y.sub(p.y),
    };
    a.cross_product(&b)
}

/// The barycentric weights of `p` in the triangle. A triangle is
/// degenerate where the cross product of its edges, which is twice its
/// signed area, is below one in absolute value; its first weight is
/// negative, so that no pixel counts as covered.
#[verifier::opaque]
pub open spec fn spec_barycentric(vertices: [Vec3Df; 3], p: Vec3Df) -> Vec3Df {
    let u = barycentric_cross(vertices, p);
    if u.z.abs().raw < SCALE {
        Vec3Df { x: Fixed::from_int(1).neg(), y: Fixed::from_int(1), z: Fixed::from_int(1) }
    } else {
        Vec3Df {
            x: Fixed::from_int(1).sub(u.x.add(u.y).div(u.z)),
            y: u.y.div(u.z),
            z: u.x.div(u.z),
        }
    }
}

#[verifier::when_used_as_spec(spec_barycentric)]
pub fn barycentric(vertices: [Vec3Df; 3], p: Vec3Df) -> (w: Vec3Df)
    ensures
        w == spec_barycentric(vertices, p),
{
    proof {
        reveal(spec_barycentric);
    }
    let a: Vec3Df = Vec3Df {
        x: vertices[2].x.sub(vertices[0].x),
        y: vertices[1].x.sub(vertices[0].x),
        z: vertices[0].x.sub(p.x),
    };
    let b: Vec3Df = Vec3Df {
        x: vertices[2].y.sub(vertices[0].y),
        y: vertices[1].y.sub(vertices[0].y),
        z: vertices[0].y.sub(p.y),
    };
    let u: Vec3Df = a.cross_product(&b);
    if u.z.abs().raw < SCALE {
        return Vec3Df { x: Fixed::from_int(1).neg(), y: Fixed::from_int(1), z: Fixed::from_int(1) };
    }
    Vec3Df {
        x: Fixed::from_int(1).sub(u.x.add(u.y).div(u.z)),
        y: u.y.div(u.z),
        z: u.x.div(u.z),
    }
}

/// The point with the given barycentric weights in a triangle.
pub open spec fn spec_bary_to_point(bc_coords: &Vec3Df, vertices: &[Vec3Df; 3]) -> Vec3Df {
    Vec3Df {
        x: bc_coords.x.mul(vertices[0].x).add(bc_coords.y.mul(vertices[1].x)).add(
            bc_coords.z.mul(vertices[2].x),
        ),
        y: bc_coords.x.mul(vertices[0].y).add(bc_coords.y.mul(vertices[1].y)).add(
            bc_coords.z.mul(vertices[2].y),
        ),
        z: bc_coords.x.mul(vertices[0].z).add(bc_coords.y.mul(vertices[1].z)).add(
            bc_coords.z.mul(vertices[2].z),
        ),
    }
}

#[verifier::when_used_as_spec(spec_bary_to_point)]
pub fn bary_to_point(bc_coords: &Vec3Df, vertices: &[Vec3Df; 3]) -> (p: Vec3Df)
    ensures
        p == spec_bary_to_point(bc_coords, vertices),
{
    Vec3Df {
        x: bc_coords.x.mul(vertices[0].x).add(bc_coords.y.mul(vertices[1].x)).add(
            bc_coords.z.mul(vertices[2].x),
        ),
        y: bc_coords.x.mul(vertices[0].y).add(bc_coords.y.mul(vertices[1].y)).add(
            bc_coords.z.mul(vertices[2].y),
        ),
        z: bc_coords.x.mul(vertices[0].z).add(bc_coords.y.mul(vertices[1].z)).add(
            bc_coords.z.mul(vertices[2].z),
        ),
    }
}

/// The point of the screen at which the pixel `(x, y)` is sampled.
pub open spec fn pixel_point(x: int, y: int) -> Vec3Df {
    Vec3Df::from_ints(x as i32, y as i32, 0)
}

/// The barycentric weights of the pixel `(x, y)`.
pub open spec fn pixel_weights(screen: [Vec3Df; 3], x: int, y: int) -> Vec3Df {
    spec_barycentric(screen, pixel_point(x, y))
}

/// A pixel is covered where none of its weights is negative.
pub open spec fn covered(w: Vec3Df) -> bool {
    w.x.raw >= 0 && w.y.raw >= 0 && w.z.raw >= 0
}

/// The depth of a covered pixel: the weighted sum of the corners' depths.
#[verifier::opaque]
pub open spec fn interpolated_depth(screen: [Vec3Df; 3], w: Vec3Df) -> Fixed {
    screen[0].z.mul(w.x).add(screen[1].z.mul(w.y)).add(screen[2].z.mul(w.z))
}

/// Whether `(x, y)` belongs to the box.
pub open spec fn in_box(b: PixelBox, x: int, y: int) -> bool {
    b.min_x <= x <= b.max_x && b.min_y <= y <= b.max_y
}

/// The pixel lies in the triangle's bounding box, is covered, and is
/// strictly nearer than what the depth buffer holds for it.
pub open spec fn wins_depth_test(
    width: usize,
    height: usize,
    screen: [Vec3Df; 3],
    depth: Seq<Fixed>,
    x: int,
    y: int,
) -> bool {
    let w = pixel_weights(screen, x, y);
    &&& in_box(spec_bounding_box(width, height, screen), x, y)
    &&& covered(w)
    &&& interpolated_depth(screen, w).raw > depth[pixel_index(width as int, x, y)].raw
}

/// `(x, y)` comes before `(sx, sy)` in the order in which pixels are
/// visited: column by column, each column from the top.
pub open spec fn visited_before(x: int, y: int, sx: int, sy: int) -> bool {
    x < sx || (x == sx && y < sy)
}

/// The shader fails with `e` on a pixel that wins the depth test.
pub open spec fn fails_at<T: ColorSpace + Copy, S: Shader<T>>(
    shader: S,
    width: usize,
    height: usize,
    screen: [Vec3Df; 3],
    depth: Seq<Fixed>,
    x: int,
    y: int,
    e: ShaderError,
) -> bool {
    &&& wins_depth_test(width, height, screen, depth, x, y)
    &&& shader.fragment_result(pixel_weights(screen, x, y), T::spec_white()) == Err::<
        bool,
        ShaderError,
    >(e)
}

/// The shader succeeds on every pixel before `(sx, sy)` that wins the
/// depth test.
pub open spec fn none_fails_before<T: ColorSpace + Copy, S: Shader<T>>(
    shader: S,
    width: usize,
    height: usize,
    screen: [Vec3Df; 3],
    depth: Seq<Fixed>,
    sx: int,
    sy: int,
) -> bool {
    forall|x: int, y: int|
        0 <= x < width && 0 <= y < height && visited_before(x, y, sx, sy) && #[trigger] wins_depth_test(
            width,
            height,
            screen,
            depth,
            x,
            y,
        ) ==> shader.fragment_result(pixel_weights(screen, x, y), T::spec_white()) is Ok
}

/// The state of both buffers once every pixel before `(sx, sy)` has been
/// visited. A visited pixel that wins the depth test and is not discarded
/// holds the shader's colour and its own depth; every other pixel is as it
/// was.
pub open spec fn rendered_until<T: ColorSpace + Copy, S: Shader<T>>(
    shader: S,
    width: usize,
    height: usize,
    screen: [Vec3Df; 3],
    old_pixels: Seq<T>,
    old_depth: Seq<Fixed>,
    pixels: Seq<T>,
    depth: Seq<Fixed>,
    sx: int,
    sy: int,
) -> bool {
    forall|x: int, y: int|
        0 <= x < width && 0 <= y < height ==> {
            let i = #[trigger] pixel_index(width as int, x, y);
            let w = pixel_weights(screen, x, y);
            if visited_before(x, y, sx, sy) && wins_depth_test(
                width,
                height,
                screen,
                old_depth,
                x,
                y,
            ) && shader.fragment_result(w, T::spec_white()) == Ok::<bool, ShaderError>(false) {
                pixels[i] == shader.fragment_color(w, T::spec_white()) && depth[i]
                    == interpolated_depth(screen, w)
            } else {
                pixels[i] == old_pixels[i] && depth[i] == old_depth[i]
            }
        }
}

/// Whether rasterizing the triangle writes the pixel `(x, y)`: it wins the
/// depth test, and the shader neither fails on it nor discards it.
pub open spec fn writes_pixel<T: ColorSpace + Copy, S: Shader<T>>(
    shader: S,
    width: usize,
    height: usize,
    screen: [Vec3Df; 3],
    depth: Seq<Fixed>,
    x: int,
    y: int,
) -> bool {
    &&& wins_depth_test(width, height, screen, depth, x, y)
    &&& shader.fragment_result(pixel_weights(screen, x, y), T::spec_white()) == Ok::<
        bool,
        ShaderError,
    >(false)
}

/// The image after the whole triangle has been rasterized: a pixel that
/// is written holds the colour that the shader makes of white, and every
/// other pixel is as it was.
pub open spec fn rasterized_pixels<T: ColorSpace + Copy, S: Shader<T>>(
    shader: S,
    width: usize,
    height: usize,
    screen: [Vec3Df; 3],
    old_pixels: Seq<T>,
    old_depth: Seq<Fixed>,
) -> Seq<T> {
    Seq::new(
        old_pixels.len(),
        |i: int|
            if writes_pixel(
                shader,
                width,
                height,
                screen,
                old_depth,
                i % (width as int),
                i / (width as int),
            ) {
                shader.fragment_color(
                    pixel_weights(screen, i % (width as int), i / (width as int)),
                    T::spec_white(),
                )
            } else {
                old_pixels[i]
            },
    )
}

/// The depth buffer after the whole triangle has been rasterized: a pixel
/// that is written holds its interpolated depth, and every other pixel is
/// as it was.
pub open spec fn rasterized_depth<T: ColorSpace + Copy, S: Shader<T>>(
    shader: S,
    width: usize,
    height: usize,
    screen: [Vec3Df; 3],
    old_depth: Seq<Fixed>,
) -> Seq<Fixed> {
    Seq::new(
        old_depth.len(),
        |i: int|
            if writes_pixel(
                shader,
                width,
                height,
                screen,
                old_depth,
                i % (width as int),
                i / (width as int),
            ) {
                interpolated_depth(
                    screen,
                    pixel_weights(screen, i % (width as int), i / (width as int)),
                )
            } else {
                old_depth[i]
            },
    )
}

/// What rasterizing a triangle makes of the image and the depth buffer.
///
/// Where the shader fails on no pixel that wins the depth test, the outcome
/// is `Ok` and both buffers are the rasterized ones. Else the outcome is the
/// shader's failure on the first such pixel, in the order in which pixels
/// are visited, and the pixels before it are written.
pub open spec fn rasterizes_to<T: ColorSpace + Copy, S: Shader<T>>(
    shader: S,
    width: usize,
    height: usize,
    screen: [Vec3Df; 3],
    old_pixels: Seq<T>,
    old_depth: Seq<Fixed>,
    pixels: Seq<T>,
    depth: Seq<Fixed>,
    r: Result<(), ShaderError>,
) -> bool {
    match r {
        Ok(()) => {
            &&& none_fails_before(shader, width, height, screen, old_depth, width as int, 0)
            &&& pixels == rasterized_pixels(shader, width, height, screen, old_pixels, old_depth)
            &&& depth == rasterized_depth(shader, width, height, screen, old_depth)
        },
        Err(e) => exists|sx: int, sy: int|
            {
                &&& 0 <= sx < width
                &&& 0 <= sy < height
                &&& #[trigger] fails_at(shader, width, height, screen, old_depth, sx, sy, e)
                &&& none_fails_before(shader, width, height, screen, old_depth, sx, sy)
                &&& rendered_until(
                    shader,
                    width,
                    height,
                    screen,
                    old_pixels,
                    old_depth,
                    pixels,
                    depth,
                    sx,
                    sy,
                )
            },
    }
}

/// Fills the triangle with the given screen positions into `image`.
///
/// Every pixel of the clamped bounding box is visited once, column by
/// column. A pixel that is covered and strictly nearer than the depth
/// buffer's entry is handed to the shader's fragment stage, starting from
/// white; unless the shader discards it, the colour goes into the image and
/// the depth into the depth buffer. The first failure of the shader ends the
/// call, with the pixels visited until then written. No entry of the depth
/// buffer ever decreases.
pub fn triangle<T, S>(
    image: &mut Image<T>,
    shader: &S,
    screen_coords: [Vec3Df; 3],
    zbuffer: &mut Vec<Fixed>,
) -> (r: Result<(), ShaderError>) where T: ColorSpace + Copy, S: Shader<T>
    requires
        old(image).wf(),
        old(zbuffer).len() == old(image).width * old(image).height,
        shader.wf(),
    ensures
        final(image).wf(),
        final(image).width == old(image).width,
        final(image).height == old(image).height,
        final(zbuffer).len() == old(zbuffer).len(),
        forall|i: int|
            0 <= i < old(zbuffer).len() ==> old(zbuffer)@[i].raw <= #[trigger] final(zbuffer)@[i].raw,
        rasterizes_to(
            *shader,
            old(image).width,
            old(image).height,
            screen_coords,
            old(image).data@,
            old(zbuffer)@,
            final(image).data@,
            final(zbuffer)@,
            r,
        ),
{
    let width: usize = image.width;
    let height: usize = image.height;
    let ghost old_pixels = image.data@;
    let ghost old_depth = zbuffer@;
    let bounds: PixelBox = bounding_box(width, height, screen_coords);
    let mut px: i32 = bounds.min_x;
    while px <= bounds.max_x
        invariant
            image.wf(),
            image.width == width,
            image.height == height,
            width == old(image).width,
            height == old(image).height,
            old_pixels == old(image).data@,
            old_depth == old(zbuffer)@,
            zbuffer.len() == width * height,
            old_depth.len() == width * height,
            old_pixels.len() == width * height,
            shader.wf(),
            bounds == spec_bounding_box(width, height, screen_coords),
            0 <= bounds.min_x <= px <= bounds.max_x + 1,
            0 <= bounds.min_y <= bounds.max_y + 1,
            bounds.max_x < width,
            bounds.max_y < height,
            bounds.max_x < i32::MAX,
            bounds.max_y < i32::MAX,
            forall|i: int| 0 <= i < old_depth.len() ==> old_depth[i].raw <= #[trigger] zbuffer@[i].raw,
            none_fails_before(*shader, width, height, screen_coords, old_depth, px as int, 0),
            rendered_until(
                *shader,
                width,
                height,
                screen_coords,
                old_pixels,
                old_depth,
                image.data@,
                zbuffer@,
                px as int,
                0,
            ),
        decreases bounds.max_x + 1 - px,
    {
        let mut py: i32 = bounds.min_y;
        proof {
            lemma_column_start(
                *shader,
                width,
                height,
                screen_coords,
                old_pixels,
                old_depth,
                image.data@,
                zbuffer@,
                px as int,
            );
        }
        while py <= bounds.max_y
            invariant
                image.wf(),
                image.width == width,
                image.height == height,
                width == old(image).width,
                height == old(image).height,
                old_pixels == old(image).data@,
                old_depth == old(zbuffer)@,
                zbuffer.len() == width * height,
                old_depth.len() == width * height,
                old_pixels.len() == width * height,
                shader.wf(),
                bounds == spec_bounding_box(width, height, screen_coords),
                0 <= bounds.min_x <= px <= bounds.max_x,
                0 <= bounds.min_y <= py <= bounds.max_y + 1,
                bounds.max_x < width,
                bounds.max_y < height,
                bounds.max_x < i32::MAX,
                bounds.max_y < i32::MAX,
                forall|i: int|
                    0 <= i < old_depth.len() ==> old_depth[i].raw <= #[trigger] zbuffer@[i].raw,
                none_fails_before(
                    *shader,
                    width,
                    height,
                    screen_coords,
                    old_depth,
                    px as int,
                    py as int,
                ),
                rendered_until(
                    *shader,
                    width,
                    height,
                    screen_coords,
                    old_pixels,
                    old_depth,
                    image.data@,
                    zbuffer@,
                    px as int,
                    py as int,
                ),
            decreases bounds.max_y + 1 - py,
        {
            let ghost pixels_before = image.data@;
            let ghost depth_before = zbuffer@;
            let weights: Vec3Df = barycentric(screen_coords, Vec3Df::from_ints(px, py, 0));
            proof {
                lemma_pixel_index_in_bounds(width as int, height as int, px as int, py as int);
                assert(pixel_index(width as int, px as int, py as int) == px + py * width);
            }
            if weights.x.raw >= 0 && weights.y.raw >= 0 && weights.z.raw >= 0 {
                let depth: Fixed = screen_coords[0].z.mul(weights.x).add(
                    screen_coords[1].z.mul(weights.y),
                ).add(screen_coords[2].z.mul(weights.z));
                assert(depth == interpolated_depth(screen_coords, weights)) by {
                    reveal(interpolated_depth);
                }
                let idx: usize = px as usize + py as usize * width;
                if depth.raw > zbuffer[idx].raw {
                    let mut color: T = T::white();
                    match shader.fragment(weights, &mut color) {
                        Err(e) => {
                            assert(fails_at(
                                *shader,
                                width,
                                height,
                                screen_coords,
                                old_depth,
                                px as int,
                                py as int,
                                e,
                            ));
                            return Err(e);
                        },
                        Ok(discard) => {
                            if !discard {
                                zbuffer[idx] = depth;
                                let _ = image.set(px as usize, py as usize, color);
                            }
                        },
                    }
                }
            }
            proof {
                lemma_pixel_visited(
                    *shader,
                    width,
                    height,
                    screen_coords,
                    old_pixels,
                    old_depth,
                    pixels_before,
                    depth_before,
                    image.data@,
                    zbuffer@,
                    px as int,
                    py as int,
                );
            }
            py = py + 1;
        }
        proof {
            lemma_column_end(
                *shader,
                width,
                height,
                screen_coords,
                old_pixels,
                old_depth,
                image.data@,
                zbuffer@,
                px as int,
                py as int,
            );
        }
        px = px + 1;
    }
    proof {
        lemma_all_columns(
            *shader,
            width,
            height,
            screen_coords,
            old_pixels,
            old_depth,
            image.data@,
            zbuffer@,
            px as int,
        );
        lemma_rendered_whole(
            *shader,
            width,
            height,
            screen_coords,
            old_pixels,
            old_depth,
            image.data@,
            zbuffer@,
        );
    }
    Ok(())
}

/// Before the first pixel of column `sx` is visited, the state is the one
/// reached after the columns before it: the pixels of column `sx` above the
/// bounding box cannot win the depth test.
proof fn lemma_column_start<T: ColorSpace + Copy, S: Shader<T>>(
    shader: S,
    width: usize,
    height: usize,
    screen: [Vec3Df; 3],
    old_pixels: Seq<T>,
    old_depth: Seq<Fixed>,
    pixels: Seq<T>,
    depth: Seq<Fixed>,
    sx: int,
)
    requires
        none_fails_before(shader, width, height, screen, old_depth, sx, 0),
        rendered_until(shader, width, height, screen, old_pixels, old_depth, pixels, depth, sx, 0),
        0 <= spec_bounding_box(width, height, screen).min_y,
    ensures
        none_fails_before(
            shader,
            width,
            height,
            screen,
            old_depth,
            sx,
            spec_bounding_box(width, height, screen).min_y as int,
        ),
        rendered_until(
            shader,
            width,
            height,
            screen,
            old_pixels,
            old_depth,
            pixels,
            depth,
            sx,
            spec_bounding_box(width, height, screen).min_y as int,
        ),
{
    let sy = spec_bounding_box(width, height, screen).min_y as int;
    assert forall|x: int, y: int| 0 <= x < width && 0 <= y < height implies {
        let i = #[trigger] pixel_index(width as int, x, y);
        let w = pixel_weights(screen, x, y);
        if visited_before(x, y, sx, sy) && wins_depth_test(width, height, screen, old_depth, x, y)
            && shader.fragment_result(w, T::spec_white()) == Ok::<bool, ShaderError>(false) {
            pixels[i] == shader.fragment_color(w, T::spec_white()) && depth[i]
                == interpolated_depth(screen, w)
        } else {
            pixels[i] == old_pixels[i] && depth[i] == old_depth[i]
        }
    } by {
        if visited_before(x, y, sx, sy) && !visited_before(x, y, sx, 0) {
            assert(!in_box(spec_bounding_box(width, height, screen), x, y));
        }
    }
}

/// Once the last pixel of column `sx` inside the bounding box has been
/// visited, the state is the one reached after the whole column.
proof fn lemma_column_end<T: ColorSpace + Copy, S: Shader<T>>(
    shader: S,
    width: usize,
    height: usize,
    screen: [Vec3Df; 3],
    old_pixels: Seq<T>,
    old_depth: Seq<Fixed>,
    pixels: Seq<T>,
    depth: Seq<Fixed>,
    sx: int,
    sy: int,
)
    requires
        none_fails_before(shader, width, height, screen, old_depth, sx, sy),
        rendered_until(shader, width, height, screen, old_pixels, old_depth, pixels, depth, sx, sy),
        sy == spec_bounding_box(width, height, screen).max_y + 1,
    ensures
        none_fails_before(shader, width, height, screen, old_depth, sx + 1, 0),
        rendered_until(
            shader,
            width,
            height,
            screen,
            old_pixels,
            old_depth,
            pixels,
            depth,
            sx + 1,
            0,
        ),
{
    assert forall|x: int, y: int| 0 <= x < width && 0 <= y < height implies {
        let i = #[trigger] pixel_index(width as int, x, y);
        let w = pixel_weights(screen, x, y);
        if visited_before(x, y, sx + 1, 0) && wins_depth_test(
            width,
            height,
            screen,
            old_depth,
            x,
            y,
        ) && shader.fragment_result(w, T::spec_white()) == Ok::<bool, ShaderError>(false) {
            pixels[i] == shader.fragment_color(w, T::spec_white()) && depth[i]
                == interpolated_depth(screen, w)
        } else {
            pixels[i] == old_pixels[i] && depth[i] == old_depth[i]
        }
    } by {
        if visited_before(x, y, sx + 1, 0) && !visited_before(x, y, sx, sy) {
            assert(!in_box(spec_bounding_box(width, height, screen), x, y));
        }
    }
}

/// Once the last column of the bounding box has been visited, the state is
/// the one reached after every pixel of the image.
proof fn lemma_all_columns<T: ColorSpace + Copy, S: Shader<T>>(
    shader: S,
    width: usize,
    height: usize,
    screen: [Vec3Df; 3],
    old_pixels: Seq<T>,
    old_depth: Seq<Fixed>,
    pixels: Seq<T>,
    depth: Seq<Fixed>,
    sx: int,
)
    requires
        none_fails_before(shader, width, height, screen, old_depth, sx, 0),
        rendered_until(shader, width, height, screen, old_pixels, old_depth, pixels, depth, sx, 0),
        sx > spec_bounding_box(width, height, screen).max_x,
    ensures
        none_fails_before(shader, width, height, screen, old_depth, width as int, 0),
        rendered_until(
            shader,
            width,
            height,
            screen,
            old_pixels,
            old_depth,
            pixels,
            depth,
            width as int,
            0,
        ),
{
    assert forall|x: int, y: int| 0 <= x < width && 0 <= y < height implies {
        let i = #[trigger] pixel_index(width as int, x, y);
        let w = pixel_weights(screen, x, y);
        if visited_before(x, y, width as int, 0) && wins_depth_test(
            width,
            height,
            screen,
            old_depth,
            x,
            y,
        ) && shader.fragment_result(w, T::spec_white()) == Ok::<bool, ShaderError>(false) {
            pixels[i] == shader.fragment_color(w, T::spec_white()) && depth[i]
                == interpolated_depth(screen, w)
        } else {
            pixels[i] == old_pixels[i] && depth[i] == old_depth[i]
        }
    } by {
        if !visited_before(x, y, sx, 0) {
            assert(!in_box(spec_bounding_box(width, height, screen), x, y));
        }
    }
}

/// One step of the scan: after the pixel `(sx, sy)` has been handled as
/// the rasterizer handles it, the state is the one reached before the next
/// pixel of the column.
proof fn lemma_pixel_visited<T: ColorSpace + Copy, S: Shader<T>>(
    shader: S,
    width: usize,
    height: usize,
    screen: [Vec3Df; 3],
    old_pixels: Seq<T>,
    old_depth: Seq<Fixed>,
    pixels_before: Seq<T>,
    depth_before: Seq<Fixed>,
    pixels: Seq<T>,
    depth: Seq<Fixed>,
    sx: int,
    sy: int,
)
    requires
        0 <= sx < width,
        0 <= sy < height,
        old_pixels.len() == width * height,
        old_depth.len() == width * height,
        pixels_before.len() == width * height,
        depth_before.len() == width * height,
        none_fails_before(shader, width, height, screen, old_depth, sx, sy),
        rendered_until(
            shader,
            width,
            height,
            screen,
            old_pixels,
            old_depth,
            pixels_before,
            depth_before,
            sx,
            sy,
        ),
        forall|i: int| 0 <= i < old_depth.len() ==> old_depth[i].raw <= #[trigger] depth_before[i].raw,
        shader.fragment_result(pixel_weights(screen, sx, sy), T::spec_white()) is Ok || !wins_depth_test(
            width,
            height,
            screen,
            old_depth,
            sx,
            sy,
        ),
        ({
            let i = pixel_index(width as int, sx, sy);
            let w = pixel_weights(screen, sx, sy);
            if wins_depth_test(width, height, screen, depth_before, sx, sy) && shader.fragment_result(
                w,
                T::spec_white(),
            ) == Ok::<bool, ShaderError>(false) {
                pixels == pixels_before.update(i, shader.fragment_color(w, T::spec_white()))
                    && depth == depth_before.update(i, interpolated_depth(screen, w))
            } else {
                pixels == pixels_before && depth == depth_before
            }
        }),
    ensures
        none_fails_before(shader, width, height, screen, old_depth, sx, sy + 1),
        rendered_until(
            shader,
            width,
            height,
            screen,
            old_pixels,
            old_depth,
            pixels,
            depth,
            sx,
            sy + 1,
        ),
        forall|i: int| 0 <= i < old_depth.len() ==> old_depth[i].raw <= #[trigger] depth[i].raw,
{
    let here = pixel_index(width as int, sx, sy);
    lemma_pixel_index_in_bounds(width as int, height as int, sx, sy);
    assert(depth_before[here] == old_depth[here]);
    assert(wins_depth_test(width, height, screen, depth_before, sx, sy) == wins_depth_test(
        width,
        height,
        screen,
        old_depth,
        sx,
        sy,
    ));
    assert forall|x: int, y: int| 0 <= x < width && 0 <= y < height implies {
        let i = #[trigger] pixel_index(width as int, x, y);
        let w = pixel_weights(screen, x, y);
        if visited_before(x, y, sx, sy + 1) && wins_depth_test(
            width,
            height,
            screen,
            old_depth,
            x,
            y,
        ) && shader.fragment_result(w, T::spec_white()) == Ok::<bool, ShaderError>(false) {
            pixels[i] == shader.fragment_color(w, T::spec_white()) && depth[i]
                == interpolated_depth(screen, w)
        } else {
            pixels[i] == old_pixels[i] && depth[i] == old_depth[i]
        }
    } by {
        lemma_pixel_index_in_bounds(width as int, height as int, x, y);
        if x != sx || y != sy {
            if pixel_index(width as int, x, y) == here {
                lemma_pixel_index_injective(width as int, x, y, sx, sy);
            }
        }
    }
    assert forall|i: int| 0 <= i < old_depth.len() implies old_depth[i].raw <= #[trigger] depth[i].raw by {
        if i != here {
            assert(depth[i] == depth_before[i]);
        }
    }
}

/// Rasterizing a whole triangle whose corners lie on one line, or
/// coincide, writes no pixel and never fails.
pub proof fn lemma_degenerate_writes_nothing<T: ColorSpace + Copy, S: Shader<T>>(
    shader: S,
    width: usize,
    height: usize,
    screen: [Vec3Df; 3],
    old_pixels: Seq<T>,
    old_depth: Seq<Fixed>,
)
    requires
        collinear(screen),
    ensures
        rasterized_pixels(shader, width, height, screen, old_pixels, old_depth) == old_pixels,
        rasterized_depth(shader, width, height, screen, old_depth) == old_depth,
        forall|x: int, y: int| !writes_pixel(shader, width, height, screen, old_depth, x, y),
        forall|sx: int, sy: int|
            none_fails_before(shader, width, height, screen, old_depth, sx, sy),
{
    assert forall|x: int, y: int| !wins_depth_test(width, height, screen, old_depth, x, y) by {
        lemma_degenerate_covers_nothing(screen, pixel_point(x, y));
    }
    assert(rasterized_pixels(shader, width, height, screen, old_pixels, old_depth) =~= old_pixels);
    assert(rasterized_depth(shader, width, height, screen, old_depth) =~= old_depth);
}

/// Once every pixel has been visited, the buffers are the rasterized ones.
proof fn lemma_rendered_whole<T: ColorSpace + Copy, S: Shader<T>>(
    shader: S,
    width: usize,
    height: usize,
    screen: [Vec3Df; 3],
    old_pixels: Seq<T>,
    old_depth: Seq<Fixed>,
    pixels: Seq<T>,
    depth: Seq<Fixed>,
)
    requires
        old_pixels.len() == width * height,
        old_depth.len() == width * height,
        pixels.len() == width * height,
        depth.len() == width * height,
        rendered_until(
            shader,
            width,
            height,
            screen,
            old_pixels,
            old_depth,
            pixels,
            depth,
            width as int,
            0,
        ),
    ensures
        pixels == rasterized_pixels(shader, width, height, screen, old_pixels, old_depth),
        depth == rasterized_depth(shader, width, height, screen, old_depth),
{
    let new_pixels = rasterized_pixels(shader, width, height, screen, old_pixels, old_depth);
    let new_depth = rasterized_depth(shader, width, height, screen, old_depth);
    assert forall|i: int| 0 <= i < width * height implies #[trigger] pixels[i] == new_pixels[i] by {
        lemma_index_is_pixel(width as int, height as int, i);
        assert(pixel_index(width as int, i % (width as int), i / (width as int)) == i);
    }
    assert forall|i: int| 0 <= i < width * height implies #[trigger] depth[i] == new_depth[i] by {
        lemma_index_is_pixel(width as int, height as int, i);
        assert(pixel_index(width as int, i % (width as int), i / (width as int)) == i);
    }
    assert(pixels =~= new_pixels);
    assert(depth =~= new_depth);
}

/// Floor division of a sum is the sum of the floor divisions, or one more.
pub proof fn lemma_floor_div_of_sum(a: int, b: int, d: int)
    requires
        d != 0,
    ensures
        floor_div(a, d) + floor_div(b, d) <= floor_div(a + b, d) <= floor_div(a, d) + floor_div(
            b,
            d,
        ) + 1,
{
    if d > 0 {
        lemma_div_of_sum(a, b, d);
    } else {
        lemma_div_of_sum(-a, -b, -d);
        assert(-(a + b) == (-a) + (-b));
    }
}

proof fn lemma_div_of_sum(a: int, b: int, d: int)
    requires
        d > 0,
    ensures
        a / d + b / d <= (a + b) / d <= a / d + b / d + 1,
{
    let qa = a / d;
    let ra = a % d;
    let qb = b / d;
    let rb = b % d;
    vstd::arithmetic::div_mod::lemma_fundamental_div_mod(a, d);
    vstd::arithmetic::div_mod::lemma_fundamental_div_mod(b, d);
    vstd::arithmetic::div_mod::lemma_mod_bound(a, d);
    vstd::arithmetic::div_mod::lemma_mod_bound(b, d);
    if ra + rb < d {
        assert(a + b == (qa + qb) * d + (ra + rb)) by (nonlinear_arith)
            requires
                a == d * qa + ra,
                b == d * qb + rb,
        ;
        vstd::arithmetic::div_mod::lemma_fundamental_div_mod_converse(a + b, d, qa + qb, ra + rb);
    } else {
        assert(a + b == (qa + qb + 1) * d + (ra + rb - d)) by (nonlinear_arith)
            requires
                a == d * qa + ra,
                b == d * qb + rb,
        ;
        vstd::arithmetic::div_mod::lemma_fundamental_div_mod_converse(
            a + b,
            d,
            qa + qb + 1,
            ra + rb - d,
        );
    }
}

/// The barycentric weights of a covered point add up to one, up to one
/// unit in the last place, wherever the sum of the first two unnormalized
/// weights is representable.
pub proof fn lemma_weights_sum_to_one(vertices: [Vec3Df; 3], p: Vec3Df)
    requires
        covered(spec_barycentric(vertices, p)),
        i64::MIN <= barycentric_cross(vertices, p).x.raw + barycentric_cross(vertices, p).y.raw
            <= i64::MAX,
    ensures
        ({
            let w = spec_barycentric(vertices, p);
            SCALE - 1 <= w.x.raw + w.y.raw + w.z.raw <= SCALE
        }),
{
    reveal(spec_barycentric);
    let u = barycentric_cross(vertices, p);
    let d = u.z.raw as int;
    assert(d != 0);
    let a = u.x.raw * SCALE;
    let b = u.y.raw * SCALE;
    lemma_floor_div_of_sum(a, b, d);
    assert((u.x.raw + u.y.raw) * SCALE == a + b);
}

/// The largest screen coordinate, in absolute value, for which the
/// arithmetic of the barycentric weights is known not to saturate: 8192
/// pixels.
pub const SCREEN_LIMIT: i64 = 0x2000_0000_0000;

/// Whether x and y of the position are at most `SCREEN_LIMIT` in absolute
/// value.
pub open spec fn on_screen(v: Vec3Df) -> bool {
    &&& -SCREEN_LIMIT <= v.x.raw <= SCREEN_LIMIT
    &&& -SCREEN_LIMIT <= v.y.raw <= SCREEN_LIMIT
}

proof fn lemma_product_bound(x: int, y: int)
    by (nonlinear_arith)
    requires
        -0x4000_0000_0000 <= x <= 0x4000_0000_0000,
        -0x4000_0000_0000 <= y <= 0x4000_0000_0000,
    ensures
        -0x1000_0000_0000_0000_0000_0000 <= x * y <= 0x1000_0000_0000_0000_0000_0000,
{
}

/// A quotient of fixed-point numbers is no larger in absolute value than
/// its dividend, where the divisor is one at least in absolute value.
pub proof fn lemma_quotient_bound(a: int, d: int)
    requires
        d >= SCALE || d <= -SCALE,
    ensures
        a >= 0 ==> -a <= floor_div(a * SCALE, d) <= a,
        a < 0 ==> a <= floor_div(a * SCALE, d) <= -a,
{
    if d > 0 {
        lemma_positive_quotient_bound(a, d);
    } else {
        lemma_positive_quotient_bound(-a, -d);
        assert((-a) * SCALE == -(a * SCALE));
    }
}

proof fn lemma_positive_quotient_bound(a: int, d: int)
    requires
        d >= SCALE,
    ensures
        a >= 0 ==> 0 <= (a * SCALE) / d <= a,
        a < 0 ==> a <= (a * SCALE) / d < 0,
{
    let x = a * SCALE;
    let q = x / d;
    vstd::arithmetic::div_mod::lemma_fundamental_div_mod(x, d);
    vstd::arithmetic::div_mod::lemma_mod_bound(x, d);
    let r = x % d;
    assert(x == d * q + r);
    if a >= 0 {
        assert(0 <= q <= a) by (nonlinear_arith)
            requires
                x == d * q + r,
                0 <= r < d,
                d >= 0x1_0000_0000,
                x == a * 0x1_0000_0000,
                a >= 0,
        ;
    } else {
        assert(a <= q < 0) by (nonlinear_arith)
            requires
                x == d * q + r,
                0 <= r < d,
                d >= 0x1_0000_0000,
                x == a * 0x1_0000_0000,
                a < 0,
        ;
    }
}

/// The barycentric weights of any point, covered or not, in any triangle,
/// degenerate or not, add up to one, up to one unit in the last place,
/// wherever the first two unnormalized weights are at most `2^29` in
/// absolute value.
pub proof fn lemma_weights_sum_anywhere(vertices: [Vec3Df; 3], p: Vec3Df)
    requires
        -0x2000_0000_0000_0000 <= barycentric_cross(vertices, p).x.raw <= 0x2000_0000_0000_0000,
        -0x2000_0000_0000_0000 <= barycentric_cross(vertices, p).y.raw <= 0x2000_0000_0000_0000,
    ensures
        ({
            let w = spec_barycentric(vertices, p);
            SCALE - 1 <= w.x.raw + w.y.raw + w.z.raw <= SCALE
        }),
{
    reveal(spec_barycentric);
    let u = barycentric_cross(vertices, p);
    let d = u.z.raw as int;
    if u.z.abs().raw >= SCALE {
        let a = u.x.raw * SCALE;
        let b = u.y.raw * SCALE;
        lemma_floor_div_of_sum(a, b, d);
        assert((u.x.raw + u.y.raw) * SCALE == a + b);
        lemma_quotient_bound(u.x.raw as int, d);
        lemma_quotient_bound(u.y.raw as int, d);
        lemma_quotient_bound(u.x.raw + u.y.raw, d);
    }
}

/// On a screen of up to 8192 pixels, the barycentric weights of any point
/// in any triangle add up to one, up to one unit in the last place.
pub proof fn lemma_weights_sum_on_screen(vertices: [Vec3Df; 3], p: Vec3Df)
    requires
        on_screen(vertices[0]),
        on_screen(vertices[1]),
        on_screen(vertices[2]),
        on_screen(p),
    ensures
        ({
            let w = spec_barycentric(vertices, p);
            SCALE - 1 <= w.x.raw + w.y.raw + w.z.raw <= SCALE
        }),
{
    let a = Vec3Df {
        x: vertices[2].x.sub(vertices[0].x),
        y: vertices[1].x.sub(vertices[0].x),
        z: vertices[0].x.sub(p.x),
    };
    let b = Vec3Df {
        x: vertices[2].y.sub(vertices[0].y),
        y: vertices[1].y.sub(vertices[0].y),
        z: vertices[0].y.sub(p.y),
    };
    lemma_product_bound(a.y.raw as int, b.z.raw as int);
    lemma_product_bound(a.z.raw as int, b.y.raw as int);
    lemma_product_bound(a.z.raw as int, b.x.raw as int);
    lemma_product_bound(a.x.raw as int, b.z.raw as int);
    let u = barycentric_cross(vertices, p);
    assert(-0x2000_0000_0000_0000 <= u.x.raw <= 0x2000_0000_0000_0000);
    assert(-0x2000_0000_0000_0000 <= u.y.raw <= 0x2000_0000_0000_0000);
    lemma_weights_sum_anywhere(vertices, p);
}

/// The three positions lie on one line of the screen: the cross product of
/// the two edges that leave the first one is zero.
pub open spec fn collinear(vertices: [Vec3Df; 3]) -> bool {
    vertices[2].x.sub(vertices[0].x).raw * vertices[1].y.sub(vertices[0].y).raw
        == vertices[1].x.sub(vertices[0].x).raw * vertices[2].y.sub(vertices[0].y).raw
}

/// A triangle whose corners lie on one line, or coincide, covers no point.
pub proof fn lemma_degenerate_covers_nothing(vertices: [Vec3Df; 3], p: Vec3Df)
    requires
        collinear(vertices),
    ensures
        !covered(spec_barycentric(vertices, p)),
{
    reveal(spec_barycentric);
    let u = barycentric_cross(vertices, p);
    assert(u.z.raw == 0);
}

/// Every entry of a `width` by `height` buffer belongs to a pixel.
pub proof fn lemma_index_is_pixel(width: int, height: int, i: int)
    requires
        0 <= i < width * height,
        0 <= width,
        0 <= height,
    ensures
        0 <= i % width < width,
        0 <= i / width < height,
        pixel_index(width, i % width, i / width) == i,
{
    assert(width > 0) by (nonlinear_arith)
        requires
            0 <= i < width * height,
            0 <= width,
    ;
    vstd::arithmetic::div_mod::lemma_fundamental_div_mod(i, width);
    vstd::arithmetic::div_mod::lemma_mod_bound(i, width);
    let q = i / width;
    assert(0 <= q < height) by (nonlinear_arith)
        requires
            i == width * q + i % width,
            0 <= i % width < width,
            0 <= i < width * height,
            width > 0,
    ;
    assert(width * q == q * width) by (nonlinear_arith);
}

/// Whether the shader writes every pixel that it is handed: its fragment
/// stage neither fails nor discards.
pub open spec fn always_writes<T: ColorSpace + Copy, S: Shader<T>>(shader: S) -> bool {
    forall|bary_coords: Vec3Df, color: T| #[trigger]
        shader.fragment_result(bary_coords, color) == Ok::<bool, ShaderError>(false)
}

/// Whether the two triangles have different depths at every pixel that
/// both of them cover.
pub open spec fn no_equal_depths(
    width: usize,
    height: usize,
    first: [Vec3Df; 3],
    second: [Vec3Df; 3],
) -> bool {
    forall|x: int, y: int|
        0 <= x < width && 0 <= y < height && covered(#[trigger] pixel_weights(first, x, y))
            && covered(pixel_weights(second, x, y)) ==> interpolated_depth(
            first,
            pixel_weights(first, x, y),
        ) != interpolated_depth(second, pixel_weights(second, x, y))
}

/// The depth buffer after two triangles does not depend on the order in
/// which they are drawn, for shaders that write every pixel: the depth test
/// alone decides what stays.
pub proof fn lemma_depth_order_independent<T: ColorSpace + Copy, A: Shader<T>, B: Shader<T>>(
    a: A,
    b: B,
    width: usize,
    height: usize,
    first: [Vec3Df; 3],
    second: [Vec3Df; 3],
    depth: Seq<Fixed>,
)
    requires
        depth.len() == width * height,
        always_writes::<T, A>(a),
        always_writes::<T, B>(b),
    ensures
        rasterized_depth::<T, B>(
            b,
            width,
            height,
            second,
            rasterized_depth::<T, A>(a, width, height, first, depth),
        ) == rasterized_depth::<T, A>(
            a,
            width,
            height,
            first,
            rasterized_depth::<T, B>(b, width, height, second, depth),
        ),
{
    let after_a = rasterized_depth::<T, A>(a, width, height, first, depth);
    let after_b = rasterized_depth::<T, B>(b, width, height, second, depth);
    let a_then_b = rasterized_depth::<T, B>(b, width, height, second, after_a);
    let b_then_a = rasterized_depth::<T, A>(a, width, height, first, after_b);
    assert forall|i: int| 0 <= i < width * height implies #[trigger] a_then_b[i] == b_then_a[i] by {
        lemma_index_is_pixel(width as int, height as int, i);
        let x = i % (width as int);
        let y = i / (width as int);
        assert(pixel_index(width as int, x, y) == i);
        assert(a.fragment_result(pixel_weights(first, x, y), T::spec_white()) == Ok::<
            bool,
            ShaderError,
        >(false));
        assert(b.fragment_result(pixel_weights(second, x, y), T::spec_white()) == Ok::<
            bool,
            ShaderError,
        >(false));
    }
    assert(a_then_b =~= b_then_a);
}

/// The image after two triangles does not depend on the order in which
/// they are drawn, for shaders that write every pixel, unless the triangles
/// are equally deep at a pixel that both cover: there the one drawn first
/// stays.
pub proof fn lemma_pixels_order_independent<T: ColorSpace + Copy, A: Shader<T>, B: Shader<T>>(
    a: A,
    b: B,
    width: usize,
    height: usize,
    first: [Vec3Df; 3],
    second: [Vec3Df; 3],
    pixels: Seq<T>,
    depth: Seq<Fixed>,
)
    requires
        pixels.len() == width * height,
        depth.len() == width * height,
        always_writes::<T, A>(a),
        always_writes::<T, B>(b),
        no_equal_depths(width, height, first, second),
    ensures
        rasterized_pixels::<T, B>(
            b,
            width,
            height,
            second,
            rasterized_pixels::<T, A>(a, width, height, first, pixels, depth),
            rasterized_depth::<T, A>(a, width, height, first, depth),
        ) == rasterized_pixels::<T, A>(
            a,
            width,
            height,
            first,
            rasterized_pixels::<T, B>(b, width, height, second, pixels, depth),
            rasterized_depth::<T, B>(b, width, height, second, depth),
        ),
{
    let pixels_a = rasterized_pixels::<T, A>(a, width, height, first, pixels, depth);
    let depth_a = rasterized_depth::<T, A>(a, width, height, first, depth);
    let pixels_b = rasterized_pixels::<T, B>(b, width, height, second, pixels, depth);
    let depth_b = rasterized_depth::<T, B>(b, width, height, second, depth);
    let a_then_b = rasterized_pixels::<T, B>(b, width, height, second, pixels_a, depth_a);
    let b_then_a = rasterized_pixels::<T, A>(a, width, height, first, pixels_b, depth_b);
    assert forall|i: int| 0 <= i < width * height implies #[trigger] a_then_b[i] == b_then_a[i] by {
        lemma_index_is_pixel(width as int, height as int, i);
        let x = i % (width as int);
        let y = i / (width as int);
        assert(pixel_index(width as int, x, y) == i);
        assert(a.fragment_result(pixel_weights(first, x, y), T::spec_white()) == Ok::<
            bool,
            ShaderError,
        >(false));
        assert(b.fragment_result(pixel_weights(second, x, y), T::spec_white()) == Ok::<
            bool,
            ShaderError,
        >(false));
        if covered(pixel_weights(first, x, y)) && covered(pixel_weights(second, x, y)) {
            assert(interpolated_depth(first, pixel_weights(first, x, y)) != interpolated_depth(
                second,
                pixel_weights(second, x, y),
            ));
        }
    }
    assert(a_then_b =~= b_then_a);
}

} // verus!
