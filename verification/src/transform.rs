//! The camera pipeline: model-view, projection and viewport.

use vstd::prelude::*;
use crate::fixed::Fixed;
use crate::matrix::{Affine3, Mat3};
use crate::types::Vec3Df;

verus! {

/// The depth range of the viewport: depths of the clip cube land in
/// `[0, DEPTH_RANGE]`.
pub const DEPTH_RANGE: i32 = 255;

/// The three maps that take a point of a model to a pixel.
///
/// 1. `model_view` moves the world in front of the camera.
/// 2. `projection` deforms for perspective.
/// 3. `viewport` maps the clip cube `[-1, 1]^3` onto pixels.
#[derive(Clone, Copy, Debug, PartialEq, Eq, Structural)]
pub struct Transform {
    pub viewport: Affine3,
    pub projection: Affine3,
    pub model_view: Affine3,
}

impl Transform {
    /// The map from model space to normalized device coordinates.
    pub open spec fn spec_ndc_matrix(&self) -> Affine3 {
        self.projection.mul(self.model_view)
    }

    #[verifier::when_used_as_spec(spec_ndc_matrix)]
    pub fn ndc_matrix(&self) -> (m: Affine3)
        ensures
            m == self.spec_ndc_matrix(),
    {
        self.projection.mul(self.model_view)
    }

    /// The whole map from model space to pixels.
    pub open spec fn spec_get_whole_transform(&self) -> Affine3 {
        self.viewport.mul(self.projection).mul(self.model_view)
    }

    #[verifier::when_used_as_spec(spec_get_whole_transform)]
    pub fn get_whole_transform(&self) -> (m: Affine3)
        ensures
            m == self.spec_get_whole_transform(),
    {
        self.viewport.mul(self.projection).mul(self.model_view)
    }

    /// Maps normalized device coordinates to pixels.
    pub open spec fn spec_viewport_transform(&self, point: Vec3Df) -> Vec3Df {
        self.viewport.transform_point3(point)
    }

    #[verifier::when_used_as_spec(spec_viewport_transform)]
    pub fn viewport_transform(&self, point: Vec3Df) -> (r: Vec3Df)
        ensures
            r == self.spec_viewport_transform(point),
    {
        self.viewport.transform_point3(point)
    }

    /// Maps a point of the model to normalized device coordinates.
    pub open spec fn spec_ndc_transform(&self, point: Vec3Df) -> Vec3Df {
        self.ndc_matrix().transform_point3(point)
    }

    #[verifier::when_used_as_spec(spec_ndc_transform)]
    pub fn ndc_transform(&self, point: Vec3Df) -> (r: Vec3Df)
        ensures
            r == self.spec_ndc_transform(point),
    {
        self.ndc_matrix().transform_point3(point)
    }

    /// Maps a normal of the model to normalized device coordinates, by the
    /// inverse transpose of the linear part of the map that moves points.
    pub open spec fn spec_ndc_inv_tr_transform(&self, point: Vec3Df) -> Vec3Df {
        self.ndc_matrix().matrix3.inverse_transpose().mul_vec3(point)
    }

    #[verifier::when_used_as_spec(spec_ndc_inv_tr_transform)]
    pub fn ndc_inv_tr_transform(&self, point: Vec3Df) -> (r: Vec3Df)
        ensures
            r == self.spec_ndc_inv_tr_transform(point),
    {
        self.ndc_matrix().matrix3.inverse_transpose().mul_vec3(point)
    }
}

/// The map from the clip cube `[-1, 1]^3` onto the pixel rectangle
/// `[x, x + w] x [y, y + h]`, with depths in `[0, DEPTH_RANGE]`.
pub open spec fn spec_viewport(x: usize, y: usize, w: usize, h: usize) -> Affine3 {
    let two = Fixed::from_int(2);
    let half_w = Fixed::from_usize(w).div(two);
    let half_h = Fixed::from_usize(h).div(two);
    let half_depth = Fixed::from_int(DEPTH_RANGE).div(two);
    let zero = Fixed::from_int(0);
    Affine3 {
        matrix3: Mat3 {
            x_axis: Vec3Df { x: half_w, y: zero, z: zero },
            y_axis: Vec3Df { x: zero, y: half_h, z: zero },
            z_axis: Vec3Df { x: zero, y: zero, z: half_depth },
        },
        translation: Vec3Df {
            x: Fixed::from_usize(x).add(half_w),
            y: Fixed::from_usize(y).add(half_h),
            z: half_depth,
        },
    }
}

#[verifier::when_used_as_spec(spec_viewport)]
pub fn viewport(x: usize, y: usize, w: usize, h: usize) -> (m: Affine3)
    ensures
        m == spec_viewport(x, y, w, h),
{
    let two: Fixed = Fixed::from_int(2);
    let half_w: Fixed = Fixed::from_usize(w).div(two);
    let half_h: Fixed = Fixed::from_usize(h).div(two);
    let half_depth: Fixed = Fixed::from_int(DEPTH_RANGE).div(two);
    let zero: Fixed = Fixed::from_int(0);
    Affine3 {
        matrix3: Mat3 {
            x_axis: Vec3Df { x: half_w, y: zero, z: zero },
            y_axis: Vec3Df { x: zero, y: half_h, z: zero },
            z_axis: Vec3Df { x: zero, y: zero, z: half_depth },
        },
        translation: Vec3Df {
            x: Fixed::from_usize(x).add(half_w),
            y: Fixed::from_usize(y).add(half_h),
            z: half_depth,
        },
    }
}

/// The right-handed camera basis for a camera at `eye` that looks at
/// `centre`: `z` points from the centre to the eye, `x` to the right, and
/// `y` up. The rows of the matrix are `x`, `y` and `z`.
pub open spec fn spec_camera_basis(eye: Vec3Df, centre: Vec3Df, up: Vec3Df) -> Mat3 {
    let z = eye.sub(centre).normalized();
    let x = up.cross_product(&z).normalized();
    let y = z.cross_product(&x);
    Mat3 { x_axis: x, y_axis: y, z_axis: z }.transpose()
}

/// The map that moves the world in front of a camera at `eye` that looks
/// at `centre`, with `up` as the vertical: the camera basis, applied after
/// moving `centre` to the origin.
pub open spec fn spec_lookat(eye: Vec3Df, centre: Vec3Df, up: Vec3Df) -> Affine3 {
    let basis = spec_camera_basis(eye, centre, up);
    Affine3 { matrix3: basis, translation: basis.mul_vec3(centre.neg()) }
}

#[verifier::when_used_as_spec(spec_lookat)]
pub fn lookat(eye: Vec3Df, centre: Vec3Df, up: Vec3Df) -> (m: Affine3)
    ensures
        m == spec_lookat(eye, centre, up),
{
    let z: Vec3Df = eye.sub(centre).normalized();
    let x: Vec3Df = up.cross_product(&z).normalized();
    let y: Vec3Df = z.cross_product(&x);
    let basis: Mat3 = Mat3 { x_axis: x, y_axis: y, z_axis: z }.transpose();
    Affine3 { matrix3: basis, translation: basis.mul_vec3(centre.neg()) }
}

/// The transform of a camera at `eye` that looks at `centre`, vertically
/// aligned to `up`, for an image of `width` by `height` pixels: no
/// perspective, and a viewport that keeps a margin of an eighth of the image
/// on every side.
pub open spec fn spec_initialize_transform(
    height: usize,
    width: usize,
    eye: Vec3Df,
    centre: Vec3Df,
    up: Vec3Df,
) -> Transform {
    Transform {
        model_view: spec_lookat(eye, centre, up),
        projection: Affine3::identity(),
        viewport: spec_viewport(
            width / 8,
            height / 8,
            ((width * 3) / 4) as usize,
            ((height * 3) / 4) as usize,
        ),
    }
}

#[verifier::when_used_as_spec(spec_initialize_transform)]
pub fn initialize_transform(
    height: usize,
    width: usize,
    eye: Vec3Df,
    centre: Vec3Df,
    up: Vec3Df,
) -> (t: Transform)
    ensures
        t == spec_initialize_transform(height, width, eye, centre, up),
{
    let model_view: Affine3 = lookat(eye, centre, up);
    let projection: Affine3 = Affine3::identity();
    let viewport: Affine3 = viewport(
        width / 8,
        height / 8,
        three_quarters(width),
        three_quarters(height),
    );
    Transform { model_view, projection, viewport }
}

/// Three quarters of `n`, rounded down.
pub fn three_quarters(n: usize) -> (r: usize)
    ensures
        r == (n * 3) / 4,
{
    n / 4 * 3 + (n % 4) * 3 / 4
}

/// Without a projection, the whole transform is the viewport after the
/// map to normalized device coordinates, and that map is the model-view.
pub proof fn lemma_whole_is_viewport_after_ndc(t: Transform)
    requires
        t.projection == Affine3::spec_identity(),
    ensures
        t.spec_ndc_matrix() == t.model_view,
        t.spec_get_whole_transform() == t.viewport.mul(t.spec_ndc_matrix()),
{
    crate::matrix::lemma_identity_mul_affine(t.model_view);
    crate::matrix::lemma_identity_mul_affine(t.viewport);
}

/// The viewport takes the corners of the clip cube to the corners of the
/// pixel rectangle, at depths zero and `DEPTH_RANGE`; the rectangle must end
/// before pixel `2^31 - 1`.
pub proof fn lemma_viewport_corners(x: usize, y: usize, w: usize, h: usize)
    requires
        x + w < 0x7FFF_FFFF,
        y + h < 0x7FFF_FFFF,
    ensures
        spec_viewport(x, y, w, h).transform_point3(Vec3Df::spec_from_ints(1, 1, 1).neg()) == (Vec3Df {
            x: Fixed::spec_from_usize(x),
            y: Fixed::spec_from_usize(y),
            z: Fixed::spec_from_int(0),
        }),
        spec_viewport(x, y, w, h).transform_point3(Vec3Df::spec_from_ints(1, 1, 1)) == (Vec3Df {
            x: Fixed::spec_from_usize((x + w) as usize),
            y: Fixed::spec_from_usize((y + h) as usize),
            z: Fixed::spec_from_int(DEPTH_RANGE),
        }),
{
    let two = Fixed::spec_from_int(2);
    let half_w = Fixed::spec_from_usize(w).div(two);
    let half_h = Fixed::spec_from_usize(h).div(two);
    let half_depth = Fixed::spec_from_int(DEPTH_RANGE).div(two);
    assert(two.raw == 0x2_0000_0000);
    assert(half_w.raw == w * 0x8000_0000);
    assert(half_h.raw == h * 0x8000_0000);
    assert(half_depth.raw == 255 * 0x8000_0000);
    let one = Fixed::spec_from_int(1);
    let minus = one.neg();
    assert(one.raw == 0x1_0000_0000);
    assert(minus.raw == -0x1_0000_0000);
    assert(half_w.mul(one) == half_w && half_h.mul(one) == half_h && half_depth.mul(one)
        == half_depth);
    assert(half_w.mul(minus).raw == -half_w.raw);
    assert(half_h.mul(minus).raw == -half_h.raw);
    assert(half_depth.mul(minus).raw == -half_depth.raw);
    let zero = Fixed::spec_from_int(0);
    assert(zero.mul(one) == zero && zero.mul(minus) == zero);
}

} // verus!
