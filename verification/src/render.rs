//! Whole render passes: every face of a mesh through one shader.

use vstd::prelude::*;
use crate::fixed::Fixed;
use crate::rasterizer::{
    fails_at,
    none_fails_before,
    rasterized_depth,
    rasterized_pixels,
    rendered_until,
    triangle,
};
use crate::shaders::shader::{Shader, ShaderError};
use crate::shaders::shadow::{DepthShader, ShadowBuffer};
use crate::tgaimage::{ColorSpace, Image};
use crate::transform::Transform;
use crate::types::{ObjFace, Vec3Df};

verus! {

/// A depth buffer for a `width` by `height` image in which nothing has
/// been drawn: every entry is the lowest number.
pub fn new_depth_buffer(width: usize, height: usize) -> (zbuffer: Vec<Fixed>)
    requires
        width * height <= usize::MAX,
    ensures
        zbuffer.len() == width * height,
        forall|i: int| 0 <= i < width * height ==> zbuffer@[i] == Fixed::spec_lowest(),
{
    let n: usize = width * height;
    let mut zbuffer: Vec<Fixed> = Vec::new();
    let mut i: usize = 0;
    while i < n
        invariant
            i <= n,
            zbuffer@.len() == i,
            forall|j: int| 0 <= j < i ==> zbuffer@[j] == Fixed::spec_lowest(),
        decreases n - i,
    {
        zbuffer.push(Fixed::lowest());
        i = i + 1;
    }
    zbuffer
}

/// Three positions in normalized device coordinates, on the screen.
pub open spec fn spec_screen_triangle(transform: Transform, ndc: [Vec3Df; 3]) -> [Vec3Df; 3] {
    [
        transform.viewport_transform(ndc[0]),
        transform.viewport_transform(ndc[1]),
        transform.viewport_transform(ndc[2]),
    ]
}

#[verifier::when_used_as_spec(spec_screen_triangle)]
pub fn screen_triangle(transform: Transform, ndc: [Vec3Df; 3]) -> (r: [Vec3Df; 3])
    ensures
        r == spec_screen_triangle(transform, ndc),
{
    [
        transform.viewport_transform(ndc[0]),
        transform.viewport_transform(ndc[1]),
        transform.viewport_transform(ndc[2]),
    ]
}

/// Where the vertex stage puts the corners of a face on the screen.
pub open spec fn face_on_screen<T: ColorSpace + Copy, S: Shader<T>>(
    shader: S,
    transform: Transform,
    obj_face: ObjFace,
    light_dir: Vec3Df,
) -> [Vec3Df; 3] {
    spec_screen_triangle(transform, shader.vertex_result(obj_face, light_dir)->Ok_0)
}

/// Whether a face goes through both stages of the shader without a
/// failure, on a depth buffer that holds `depth`.
pub open spec fn face_renders<T: ColorSpace + Copy, S: Shader<T>>(
    shader: S,
    transform: Transform,
    width: usize,
    height: usize,
    depth: Seq<Fixed>,
    obj_face: ObjFace,
    light_dir: Vec3Df,
) -> bool {
    &&& shader.vertex_result(obj_face, light_dir) is Ok
    &&& none_fails_before(
        shader.vertex_state(obj_face, light_dir),
        width,
        height,
        face_on_screen(shader, transform, obj_face, light_dir),
        depth,
        width as int,
        0,
    )
}

/// The shader, the image and the depth buffer after the first `k` faces
/// have been rendered one after the other, none of them failing.
pub open spec fn frame_after<T: ColorSpace + Copy, S: Shader<T>>(
    shader: S,
    transform: Transform,
    width: usize,
    height: usize,
    pixels: Seq<T>,
    depth: Seq<Fixed>,
    faces: Seq<ObjFace>,
    light_dir: Vec3Df,
    k: nat,
) -> (S, Seq<T>, Seq<Fixed>)
    decreases k,
{
    if k == 0 {
        (shader, pixels, depth)
    } else {
        let before = frame_after(
            shader,
            transform,
            width,
            height,
            pixels,
            depth,
            faces,
            light_dir,
            (k - 1) as nat,
        );
        let obj_face = faces[k - 1];
        let lit = before.0.vertex_state(obj_face, light_dir);
        let screen = face_on_screen(before.0, transform, obj_face, light_dir);
        (
            lit,
            rasterized_pixels(lit, width, height, screen, before.1, before.2),
            rasterized_depth(lit, width, height, screen, before.2),
        )
    }
}

/// Whether each of the first `k` faces renders without a failure, one
/// after the other.
pub open spec fn faces_render<T: ColorSpace + Copy, S: Shader<T>>(
    shader: S,
    transform: Transform,
    width: usize,
    height: usize,
    pixels: Seq<T>,
    depth: Seq<Fixed>,
    faces: Seq<ObjFace>,
    light_dir: Vec3Df,
    k: nat,
) -> bool
    decreases k,
{
    if k == 0 {
        true
    } else {
        let before = frame_after(
            shader,
            transform,
            width,
            height,
            pixels,
            depth,
            faces,
            light_dir,
            (k - 1) as nat,
        );
        &&& faces_render(
            shader,
            transform,
            width,
            height,
            pixels,
            depth,
            faces,
            light_dir,
            (k - 1) as nat,
        )
        &&& face_renders(before.0, transform, width, height, before.2, faces[k - 1], light_dir)
    }
}

/// The pass has stopped in face `k` with the error `e`: the faces before
/// it rendered, and either the vertex stage failed on face `k`, leaving
/// the buffers as they were, or the fragment stage failed on one of its
/// pixels, with the pixels visited until then written.
pub open spec fn stopped_in_face<T: ColorSpace + Copy, S: Shader<T>>(
    shader: S,
    transform: Transform,
    width: usize,
    height: usize,
    pixels: Seq<T>,
    depth: Seq<Fixed>,
    faces: Seq<ObjFace>,
    light_dir: Vec3Df,
    k: nat,
    e: ShaderError,
    last_shader: S,
    last_pixels: Seq<T>,
    last_depth: Seq<Fixed>,
) -> bool {
    let before = frame_after(shader, transform, width, height, pixels, depth, faces, light_dir, k);
    let obj_face = faces[k as int];
    &&& k < faces.len()
    &&& faces_render(shader, transform, width, height, pixels, depth, faces, light_dir, k)
    &&& last_shader == before.0.vertex_state(obj_face, light_dir)
    &&& match before.0.vertex_result(obj_face, light_dir) {
        Err(failure) => failure == e && last_pixels == before.1 && last_depth == before.2,
        Ok(ndc) => exists|sx: int, sy: int|
            {
                &&& 0 <= sx < width
                &&& 0 <= sy < height
                &&& #[trigger] fails_at(
                    last_shader,
                    width,
                    height,
                    spec_screen_triangle(transform, ndc),
                    before.2,
                    sx,
                    sy,
                    e,
                )
                &&& none_fails_before(
                    last_shader,
                    width,
                    height,
                    spec_screen_triangle(transform, ndc),
                    before.2,
                    sx,
                    sy,
                )
                &&& rendered_until(
                    last_shader,
                    width,
                    height,
                    spec_screen_triangle(transform, ndc),
                    before.1,
                    before.2,
                    last_pixels,
                    last_depth,
                    sx,
                    sy,
                )
            },
    }
}

/// Renders every face in turn: the vertex stage of the shader, the
/// viewport of `transform`, then the rasterizer. The first failure of the
/// shader ends the pass.
pub fn render_pass<T, S>(
    image: &mut Image<T>,
    shader: &mut S,
    faces: &Vec<ObjFace>,
    light_dir: Vec3Df,
    transform: &Transform,
    zbuffer: &mut Vec<Fixed>,
) -> (r: Result<(), ShaderError>) where T: ColorSpace + Copy, S: Shader<T>
    requires
        old(image).wf(),
        old(zbuffer).len() == old(image).width * old(image).height,
        old(shader).wf(),
    ensures
        final(image).wf(),
        final(shader).wf(),
        final(image).width == old(image).width,
        final(image).height == old(image).height,
        final(zbuffer).len() == old(zbuffer).len(),
        forall|i: int|
            0 <= i < old(zbuffer).len() ==> old(zbuffer)@[i].raw <= #[trigger] final(zbuffer)@[i].raw,
        match r {
            Ok(()) => {
                &&& faces_render(
                    *old(shader),
                    *transform,
                    old(image).width,
                    old(image).height,
                    old(image).data@,
                    old(zbuffer)@,
                    faces@,
                    light_dir,
                    faces@.len(),
                )
                &&& (*final(shader), final(image).data@, final(zbuffer)@) == frame_after(
                    *old(shader),
                    *transform,
                    old(image).width,
                    old(image).height,
                    old(image).data@,
                    old(zbuffer)@,
                    faces@,
                    light_dir,
                    faces@.len(),
                )
            },
            Err(e) => exists|k: nat| #[trigger]
                stopped_in_face(
                    *old(shader),
                    *transform,
                    old(image).width,
                    old(image).height,
                    old(image).data@,
                    old(zbuffer)@,
                    faces@,
                    light_dir,
                    k,
                    e,
                    *final(shader),
                    final(image).data@,
                    final(zbuffer)@,
                ),
        },
{
    let ghost first_shader = *shader;
    let ghost first_pixels = image.data@;
    let ghost first_depth = zbuffer@;
    let width: usize = image.width;
    let height: usize = image.height;
    let n: usize = faces.len();
    let mut k: usize = 0;
    while k < n
        invariant
            k <= n,
            n == faces@.len(),
            image.wf(),
            shader.wf(),
            image.width == width,
            image.height == height,
            width == old(image).width,
            height == old(image).height,
            first_shader == *old(shader),
            first_pixels == old(image).data@,
            first_depth == old(zbuffer)@,
            zbuffer.len() == width * height,
            first_depth.len() == width * height,
            forall|i: int| 0 <= i < first_depth.len() ==> first_depth[i].raw <= #[trigger] zbuffer@[i].raw,
            faces_render(
                first_shader,
                *transform,
                width,
                height,
                first_pixels,
                first_depth,
                faces@,
                light_dir,
                k as nat,
            ),
            (*shader, image.data@, zbuffer@) == frame_after(
                first_shader,
                *transform,
                width,
                height,
                first_pixels,
                first_depth,
                faces@,
                light_dir,
                k as nat,
            ),
        decreases n - k,
    {
        let ghost depth_before = zbuffer@;
        let ghost pixels_before = image.data@;
        let ghost shader_before = *shader;
        let obj_face: ObjFace = faces[k];
        let ndc: [Vec3Df; 3] = match shader.vertex(obj_face, light_dir) {
            Ok(ndc) => ndc,
            Err(e) => {
                assert(stopped_in_face(
                    first_shader,
                    *transform,
                    width,
                    height,
                    first_pixels,
                    first_depth,
                    faces@,
                    light_dir,
                    k as nat,
                    e,
                    *shader,
                    image.data@,
                    zbuffer@,
                ));
                return Err(e);
            },
        };
        let screen: [Vec3Df; 3] = screen_triangle(*transform, ndc);
        match triangle(image, &*shader, screen, zbuffer) {
            Ok(()) => {},
            Err(e) => {
                proof {
                    let before = frame_after(
                        first_shader,
                        *transform,
                        width,
                        height,
                        first_pixels,
                        first_depth,
                        faces@,
                        light_dir,
                        k as nat,
                    );
                    assert(before.0 == shader_before);
                    assert(before.1 == pixels_before);
                    assert(before.2 == depth_before);
                    assert(shader_before.vertex_result(obj_face, light_dir) == Ok::<
                        [Vec3Df; 3],
                        ShaderError,
                    >(ndc));
                    assert(*shader == shader_before.vertex_state(obj_face, light_dir));
                    let (sx, sy) = choose|sx: int, sy: int|
                        {
                            &&& 0 <= sx < width
                            &&& 0 <= sy < height
                            &&& #[trigger] fails_at(
                                *shader,
                                width,
                                height,
                                screen,
                                depth_before,
                                sx,
                                sy,
                                e,
                            )
                            &&& none_fails_before(
                                *shader,
                                width,
                                height,
                                screen,
                                depth_before,
                                sx,
                                sy,
                            )
                            &&& rendered_until(
                                *shader,
                                width,
                                height,
                                screen,
                                pixels_before,
                                depth_before,
                                image.data@,
                                zbuffer@,
                                sx,
                                sy,
                            )
                        };
                    assert(fails_at(
                        *shader,
                        width,
                        height,
                        spec_screen_triangle(*transform, ndc),
                        before.2,
                        sx,
                        sy,
                        e,
                    ));
                }
                assert(stopped_in_face(
                    first_shader,
                    *transform,
                    width,
                    height,
                    first_pixels,
                    first_depth,
                    faces@,
                    light_dir,
                    k as nat,
                    e,
                    *shader,
                    image.data@,
                    zbuffer@,
                ));
                return Err(e);
            },
        }
        assert forall|i: int| 0 <= i < first_depth.len() implies first_depth[i].raw
            <= #[trigger] zbuffer@[i].raw by {
            assert(first_depth[i].raw <= depth_before[i].raw);
        }
        k = k + 1;
    }
    Ok(())
}

/// A buffer of `n` entries, each of them `value`.
pub open spec fn filled<A>(n: nat, value: A) -> Seq<A> {
    Seq::new(n, |i: int| value)
}

/// The depth shader, the image and the depth buffer after a depth pass
/// over the faces: the frame after every face, from a blank image and a
/// depth buffer in which nothing has been drawn.
pub open spec fn depth_pass_frame<T: ColorSpace + Copy>(
    faces: Seq<ObjFace>,
    light_source: Vec3Df,
    depth_transform: Transform,
    width: usize,
    height: usize,
) -> (DepthShader, Seq<T>, Seq<Fixed>) {
    frame_after(
        DepthShader::spec_new(light_source, depth_transform),
        depth_transform,
        width,
        height,
        filled((width * height) as nat, T::spec_new()),
        filled((width * height) as nat, Fixed::spec_lowest()),
        faces,
        light_source,
        faces.len(),
    )
}

/// Renders the depths that the light sees: every face through the depth
/// shader of a camera that stands at the light source, into a blank image
/// and a blank depth buffer of `width` by `height` pixels. The pass cannot
/// fail; its depth buffer is the shadow buffer.
pub fn render_depth_pass<T: ColorSpace + Copy>(
    faces: &Vec<ObjFace>,
    light_source: Vec3Df,
    depth_transform: &Transform,
    width: usize,
    height: usize,
) -> (r: (Image<T>, ShadowBuffer))
    requires
        width * height <= usize::MAX,
    ensures
        r.0.wf(),
        r.0.width == width,
        r.0.height == height,
        r.1.spec_width() == width,
        r.1.spec_height() == height,
        r.0.data@ == depth_pass_frame::<T>(
            faces@,
            light_source,
            *depth_transform,
            width,
            height,
        ).1,
        r.1.depths() == depth_pass_frame::<T>(
            faces@,
            light_source,
            *depth_transform,
            width,
            height,
        ).2,
{
    let mut image: Image<T> = Image::new(width, height);
    let mut zbuffer: Vec<Fixed> = new_depth_buffer(width, height);
    let mut shader: DepthShader = DepthShader::new(light_source, *depth_transform);
    let ghost blank = image.data@;
    let ghost lowest = zbuffer@;
    let ghost first = shader;
    assert(blank =~= filled((width * height) as nat, T::spec_new()));
    assert(lowest =~= filled((width * height) as nat, Fixed::spec_lowest()));
    let outcome = render_pass(
        &mut image,
        &mut shader,
        faces,
        light_source,
        depth_transform,
        &mut zbuffer,
    );
    proof {
        if let Err(e) = outcome {
            let k = choose|k: nat|
                stopped_in_face(
                    first,
                    *depth_transform,
                    width,
                    height,
                    blank,
                    lowest,
                    faces@,
                    light_source,
                    k,
                    e,
                    shader,
                    image.data@,
                    zbuffer@,
                );
            assert(false);
        }
    }
    (image, ShadowBuffer::from_completed_pass(width, height, zbuffer))
}

} // verus!
