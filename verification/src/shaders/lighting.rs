//! Pieces of the lighting models that several shaders share.

use vstd::prelude::*;
use crate::fixed::Fixed;
use crate::model::Model;
use crate::rasterizer::bary_to_point;
use crate::rasterizer::spec_bary_to_point;
use crate::tgaimage::ColorSpace;
use crate::transform::Transform;
use crate::types::{ObjFace, Vec3Df};

verus! {

/// The light that reaches every surface, whatever its direction.
pub const AMBIENT: i32 = 5;

/// The weight of diffuse light.
pub open spec fn spec_diffuse_weight() -> Fixed {
    Fixed::from_int(1)
}

#[verifier::when_used_as_spec(spec_diffuse_weight)]
pub fn diffuse_weight() -> (w: Fixed)
    ensures
        w == spec_diffuse_weight(),
{
    Fixed::from_int(1)
}

/// The weight of specular light: three fifths.
pub open spec fn spec_specular_weight() -> Fixed {
    Fixed::from_int(3).div(Fixed::from_int(5))
}

#[verifier::when_used_as_spec(spec_specular_weight)]
pub fn specular_weight() -> (w: Fixed)
    ensures
        w == spec_specular_weight(),
{
    Fixed::from_int(3).div(Fixed::from_int(5))
}

/// The three numbers as one vector.
pub open spec fn spec_vec3_of(a: [Fixed; 3]) -> Vec3Df {
    Vec3Df { x: a[0], y: a[1], z: a[2] }
}

#[verifier::when_used_as_spec(spec_vec3_of)]
pub fn vec3_of(a: [Fixed; 3]) -> (v: Vec3Df)
    ensures
        v == spec_vec3_of(a),
{
    Vec3Df { x: a[0], y: a[1], z: a[2] }
}

/// The diffuse light on a surface with the given normal: the cosine of the
/// angle to the light, and zero where the surface faces away.
pub open spec fn spec_diffuse(normal: Vec3Df, light: Vec3Df) -> Fixed {
    Fixed::from_int(0).max(normal.scalar_product(&light))
}

#[verifier::when_used_as_spec(spec_diffuse)]
pub fn diffuse(normal: Vec3Df, light: Vec3Df) -> (r: Fixed)
    ensures
        r == spec_diffuse(normal, light),
{
    Fixed::from_int(0).max(normal.scalar_product(&light))
}

/// The direction into which a surface with the given normal reflects the
/// light: `2 (N . L) N - L`, at unit length.
pub open spec fn spec_reflection(normal: Vec3Df, light: Vec3Df) -> Vec3Df {
    normal.scale(Fixed::from_int(2).mul(normal.scalar_product(&light))).sub(light).normalized()
}

#[verifier::when_used_as_spec(spec_reflection)]
pub fn reflection(normal: Vec3Df, light: Vec3Df) -> (r: Vec3Df)
    ensures
        r == spec_reflection(normal, light),
{
    normal.scale(Fixed::from_int(2).mul(normal.scalar_product(&light))).sub(light).normalized()
}

/// The highlight seen by a camera that looks along the z axis: the z
/// component of the reflected light, raised to the whole part of the
/// specular exponent.
pub open spec fn spec_specular(normal: Vec3Df, light: Vec3Df, exponent: Fixed) -> Fixed {
    Fixed::from_int(0).max(spec_reflection(normal, light).z).powi(exponent.to_usize() as u32)
}

#[verifier::when_used_as_spec(spec_specular)]
pub fn specular(normal: Vec3Df, light: Vec3Df, exponent: Fixed) -> (r: Fixed)
    ensures
        r == spec_specular(normal, light, exponent),
{
    Fixed::from_int(0).max(reflection(normal, light).z).powi(exponent.to_usize() as u32)
}

/// Diffuse and specular light together, each with its weight.
pub open spec fn spec_phong(normal: Vec3Df, light: Vec3Df, exponent: Fixed) -> Fixed {
    spec_diffuse_weight().mul(spec_diffuse(normal, light)).add(
        spec_specular_weight().mul(spec_specular(normal, light, exponent)),
    )
}

#[verifier::when_used_as_spec(spec_phong)]
pub fn phong(normal: Vec3Df, light: Vec3Df, exponent: Fixed) -> (r: Fixed)
    ensures
        r == spec_phong(normal, light, exponent),
{
    diffuse_weight().mul(diffuse(normal, light)).add(
        specular_weight().mul(specular(normal, light, exponent)),
    )
}

/// One channel under light of the given amount: the ambient light plus the
/// channel times the light, capped at 255 and rounded down; zero where
/// that is negative.
pub open spec fn spec_lit_channel(c: u8, light: Fixed) -> u8 {
    Fixed::from_int(AMBIENT).add(Fixed::from_int(c as i32).mul(light)).min(
        Fixed::from_int(255),
    ).to_usize() as u8
}

#[verifier::when_used_as_spec(spec_lit_channel)]
pub fn lit_channel(c: u8, light: Fixed) -> (r: u8)
    ensures
        r == spec_lit_channel(c, light),
        light.raw >= 0 ==> r >= AMBIENT,
{
    proof {
        if light.raw >= 0 {
            crate::fixed::lemma_mul_not_negative(Fixed::spec_from_int(c as i32), light);
        }
    }
    let lit: Fixed = Fixed::from_int(AMBIENT).add(Fixed::from_int(c as i32).mul(light)).min(
        Fixed::from_int(255),
    );
    let whole: usize = lit.to_usize();
    whole as u8
}

/// Under light that is not negative a channel is the ambient light at
/// least, and 255 at most.
pub proof fn lemma_lit_channel_at_least_ambient(c: u8, light: Fixed)
    requires
        light.raw >= 0,
    ensures
        AMBIENT <= spec_lit_channel(c, light) <= 255,
{
    crate::fixed::lemma_mul_not_negative(Fixed::spec_from_int(c as i32), light);
}

/// More light does not darken a channel.
pub proof fn lemma_lit_channel_grows(c: u8, less: Fixed, more: Fixed)
    requires
        less.raw <= more.raw,
    ensures
        spec_lit_channel(c, less) <= spec_lit_channel(c, more),
{
    let k = Fixed::spec_from_int(c as i32);
    assert(k.raw * less.raw <= k.raw * more.raw) by (nonlinear_arith)
        requires
            k.raw >= 0,
            less.raw <= more.raw,
    ;
}

/// Three tenths, rounded down to the last place.
pub open spec fn spec_three_tenths() -> Fixed {
    Fixed::from_int(3).div(Fixed::from_int(10))
}

proof fn lemma_three_tenths_of_a_product(p: int, q: int)
    requires
        0 <= p < 250 * 0x1_0000_0000,
        0 <= q,
        1288490188 * p - 255 * 0x1_0000_0000 <= 0x1_0000_0000 * q <= 1288490188 * p,
    ensures
        -10 <= 10 * (q / 0x1_0000_0000) - 3 * (p / 0x1_0000_0000) <= 3,
{
    let s = 0x1_0000_0000int;
    let pq = p / s;
    let pr = p % s;
    let qq = q / s;
    let qr = q % s;
    assert(p == s * pq + pr && 0 <= pr < s);
    assert(q == s * qq + qr && 0 <= qr < s);
    assert(0 <= pq < 250);
}

/// A channel under three tenths of an amount of light is no brighter than
/// under all of it; and unless the channel under all of the light is
/// capped at 255, what the channel then has over the ambient light is three
/// tenths of what it has under all of the light, up to one unit.
pub proof fn lemma_attenuated_channel(c: u8, light: Fixed)
    requires
        light.raw >= 0,
    ensures
        spec_lit_channel(c, spec_three_tenths().mul(light)) <= spec_lit_channel(c, light),
        spec_lit_channel(c, light) < 255 ==> -10 <= 10 * (spec_lit_channel(
            c,
            spec_three_tenths().mul(light),
        ) - AMBIENT) - 3 * (spec_lit_channel(c, light) - AMBIENT) <= 3,
{
    let s = 0x1_0000_0000int;
    let tenths = spec_three_tenths();
    assert(tenths.raw == 1288490188);
    let less = tenths.mul(light);
    let l = light.raw as int;
    assert(less.raw == (1288490188 * l) / s);
    assert(0 <= less.raw <= l);
    lemma_lit_channel_grows(c, less, light);
    let k = Fixed::spec_from_int(c as i32);
    assert(k.raw == c * s);
    let p = c * l;
    let q = c * less.raw;
    assert(k.raw * l == s * p) by (nonlinear_arith)
        requires
            k.raw == c * s,
            p == c * l,
    ;
    assert(k.raw * less.raw == s * q) by (nonlinear_arith)
        requires
            k.raw == c * s,
            q == c * less.raw,
    ;
    assert((s * p) / s == p);
    assert((s * q) / s == q);
    assert(0 <= q <= p) by (nonlinear_arith)
        requires
            p == c * l,
            q == c * less.raw,
            0 <= less.raw <= l,
            0 <= c,
    ;
    if spec_lit_channel(c, light) < 255 {
        assert(p < 250 * s);
        let x = 1288490188 * l;
        assert(x == s * less.raw + x % s && 0 <= x % s < s);
        assert(1288490188 * p - 255 * s <= s * q <= 1288490188 * p) by (nonlinear_arith)
            requires
                p == c * l,
                q == c * less.raw,
                1288490188 * l - s < s * less.raw <= 1288490188 * l,
                0 <= c <= 255,
                s == 0x1_0000_0000,
        ;
        lemma_three_tenths_of_a_product(p, q);
    }
}

/// Diffuse and specular light together are never negative.
pub proof fn lemma_phong_not_negative(normal: Vec3Df, light: Vec3Df, exponent: Fixed)
    ensures
        spec_phong(normal, light, exponent).raw >= 0,
{
    let base = Fixed::spec_from_int(0).max(spec_reflection(normal, light).z);
    crate::fixed::lemma_powi_not_negative(base, exponent.to_usize() as u32);
    crate::fixed::lemma_mul_not_negative(spec_diffuse_weight(), spec_diffuse(normal, light));
    assert(spec_specular_weight().raw >= 0);
    crate::fixed::lemma_mul_not_negative(
        spec_specular_weight(),
        spec_specular(normal, light, exponent),
    );
}

/// Every channel under light of the given amount.
pub open spec fn spec_lit_channels(channels: Seq<u8>, light: Fixed) -> Seq<u8> {
    Seq::new(channels.len(), |i: int| spec_lit_channel(channels[i], light))
}

/// The colour under light of the given amount: every channel that the
/// colour lists is lit, alpha too where the colour space has one.
pub open spec fn spec_relit<T: ColorSpace>(color: T, light: Fixed) -> T {
    T::spec_from_channels(spec_lit_channels(color.channels(), light))
}

/// The colour under light lists the lit channels of the colour; under
/// light that is not negative each of them is the ambient light at least,
/// and 255 at most.
pub proof fn lemma_relit_channels<T: ColorSpace>(color: T, light: Fixed)
    ensures
        spec_relit(color, light).channels() == spec_lit_channels(color.channels(), light),
        spec_relit(color, light).channels().len() == T::spec_channel_count(),
        light.raw >= 0 ==> forall|i: int|
            0 <= i < T::spec_channel_count() ==> AMBIENT <= #[trigger] spec_relit(
                color,
                light,
            ).channels()[i] <= 255,
{
    color.lemma_channels_give_back();
    T::lemma_channels_taken(spec_lit_channels(color.channels(), light));
    if light.raw >= 0 {
        assert forall|i: int| 0 <= i < T::spec_channel_count() implies AMBIENT
            <= #[trigger] spec_relit(color, light).channels()[i] <= 255 by {
            lemma_lit_channel_at_least_ambient(color.channels()[i], light);
        }
    }
}

/// Lights the colour in place.
pub fn relight<T: ColorSpace>(color: &mut T, light: Fixed)
    ensures
        *final(color) == spec_relit(*old(color), light),
{
    let mut channels: Vec<u8> = color.to_vec();
    let ghost before = channels@;
    let n: usize = channels.len();
    let mut i: usize = 0;
    while i < n
        invariant
            i <= n,
            channels@.len() == n,
            before.len() == n,
            forall|j: int| 0 <= j < i ==> channels@[j] == spec_lit_channel(before[j], light),
            forall|j: int| i <= j < n ==> channels@[j] == before[j],
        decreases n - i,
    {
        let c: u8 = channels[i];
        channels[i] = lit_channel(c, light);
        i = i + 1;
    }
    assert(channels@ =~= spec_lit_channels(before, light));
    let _ = color.from_vec(channels);
}

/// Whether every corner of the face has its texture coordinate in
/// `[0, 1]`.
pub open spec fn spec_face_uv_in_range(obj_face: ObjFace) -> bool {
    forall|i: int|
        0 <= i < 3 ==> crate::model::spec_uv_in_range(
            (#[trigger] obj_face.texture_vertices[i]).x,
            obj_face.texture_vertices[i].y,
        )
}

#[verifier::when_used_as_spec(spec_face_uv_in_range)]
pub fn face_uv_in_range(obj_face: ObjFace) -> (r: bool)
    ensures
        r == spec_face_uv_in_range(obj_face),
{
    crate::model::uv_in_range(obj_face.texture_vertices[0].x, obj_face.texture_vertices[0].y)
        && crate::model::uv_in_range(obj_face.texture_vertices[1].x, obj_face.texture_vertices[1].y)
        && crate::model::uv_in_range(obj_face.texture_vertices[2].x, obj_face.texture_vertices[2].y)
}

/// The corners of the face in normalized device coordinates.
pub open spec fn spec_face_ndc(transform: Transform, obj_face: ObjFace) -> [Vec3Df; 3] {
    [
        transform.ndc_transform(obj_face.vertices[0]),
        transform.ndc_transform(obj_face.vertices[1]),
        transform.ndc_transform(obj_face.vertices[2]),
    ]
}

#[verifier::when_used_as_spec(spec_face_ndc)]
pub fn face_ndc(transform: Transform, obj_face: ObjFace) -> (r: [Vec3Df; 3])
    ensures
        r == spec_face_ndc(transform, obj_face),
{
    [
        transform.ndc_transform(obj_face.vertices[0]),
        transform.ndc_transform(obj_face.vertices[1]),
        transform.ndc_transform(obj_face.vertices[2]),
    ]
}

/// The pixel of the diffuse texture under the texture coordinate of every
/// corner of the face.
pub open spec fn spec_face_texture_coords<T: ColorSpace + Copy>(
    model: Model<T>,
    obj_face: ObjFace,
) -> [Vec3Df; 3] {
    [
        crate::model::spec_uv_to_pixel(
            model.texture_image.width,
            model.texture_image.height,
            obj_face.texture_vertices[0].x,
            obj_face.texture_vertices[0].y,
        ).extend(Fixed::from_int(0)),
        crate::model::spec_uv_to_pixel(
            model.texture_image.width,
            model.texture_image.height,
            obj_face.texture_vertices[1].x,
            obj_face.texture_vertices[1].y,
        ).extend(Fixed::from_int(0)),
        crate::model::spec_uv_to_pixel(
            model.texture_image.width,
            model.texture_image.height,
            obj_face.texture_vertices[2].x,
            obj_face.texture_vertices[2].y,
        ).extend(Fixed::from_int(0)),
    ]
}

/// Finds the pixel of the diffuse texture under every corner of the face.
pub fn face_texture_coords<T: ColorSpace + Copy>(model: &Model<T>, obj_face: &ObjFace) -> (r: [
    Vec3Df;
    3
])
    requires
        spec_face_uv_in_range(*obj_face),
    ensures
        r == spec_face_texture_coords(*model, *obj_face),
{
    let zero: Fixed = Fixed::from_int(0);
    assert(crate::model::spec_uv_in_range(
        obj_face.texture_vertices[0].x,
        obj_face.texture_vertices[0].y,
    ));
    assert(crate::model::spec_uv_in_range(
        obj_face.texture_vertices[1].x,
        obj_face.texture_vertices[1].y,
    ));
    assert(crate::model::spec_uv_in_range(
        obj_face.texture_vertices[2].x,
        obj_face.texture_vertices[2].y,
    ));
    [
        model.texture_pixel_coords(
            obj_face.texture_vertices[0].x,
            obj_face.texture_vertices[0].y,
        ).extend(zero),
        model.texture_pixel_coords(
            obj_face.texture_vertices[1].x,
            obj_face.texture_vertices[1].y,
        ).extend(zero),
        model.texture_pixel_coords(
            obj_face.texture_vertices[2].x,
            obj_face.texture_vertices[2].y,
        ).extend(zero),
    ]
}

/// The pixel under the point with the given weights between three pixel
/// positions: both coordinates rounded toward zero, negative ones to zero.
pub open spec fn spec_sample_position(bary_coords: Vec3Df, coords: [Vec3Df; 3]) -> (usize, usize) {
    let p = spec_bary_to_point(&bary_coords, &coords);
    (p.x.to_usize(), p.y.to_usize())
}

#[verifier::when_used_as_spec(spec_sample_position)]
pub fn sample_position(bary_coords: Vec3Df, coords: [Vec3Df; 3]) -> (r: (usize, usize))
    ensures
        r == spec_sample_position(bary_coords, coords),
{
    let p: Vec3Df = bary_to_point(&bary_coords, &coords);
    (p.x.to_usize(), p.y.to_usize())
}

/// The light direction in normalized device coordinates, at unit length.
pub open spec fn spec_ndc_light(transform: Transform, light_dir: Vec3Df) -> Vec3Df {
    transform.ndc_transform(light_dir).normalized()
}

#[verifier::when_used_as_spec(spec_ndc_light)]
pub fn ndc_light(transform: Transform, light_dir: Vec3Df) -> (r: Vec3Df)
    ensures
        r == spec_ndc_light(transform, light_dir),
{
    transform.ndc_transform(light_dir).normalized()
}

/// A normal of the model in normalized device coordinates, at unit length.
pub open spec fn spec_ndc_normal(transform: Transform, normal: Vec3Df) -> Vec3Df {
    transform.ndc_inv_tr_transform(normal).normalized()
}

#[verifier::when_used_as_spec(spec_ndc_normal)]
pub fn ndc_normal(transform: Transform, normal: Vec3Df) -> (r: Vec3Df)
    ensures
        r == spec_ndc_normal(transform, normal),
{
    transform.ndc_inv_tr_transform(normal).normalized()
}

/// Whether the pixel `at` lies inside a `width` by `height` image.
pub open spec fn spec_inside(at: (usize, usize), width: usize, height: usize) -> bool {
    at.0 < width && at.1 < height
}

#[verifier::when_used_as_spec(spec_inside)]
pub fn inside(at: (usize, usize), width: usize, height: usize) -> (r: bool)
    ensures
        r == spec_inside(at, width, height),
{
    at.0 < width && at.1 < height
}

} // verus!
