//! A scene of segments in the plane, seen from above and drawn into one
//! row of pixels with a depth for every column.

use vstd::prelude::*;
use crate::fixed::Fixed;
use crate::tgaimage::{ColorSpace, Image};
use crate::types::Vec2Di;

verus! {

/// The height that a segment has over the column `x`, for a segment that
/// spans the columns from `start.x` to `end.x`: the heights of its two
/// ends, weighted by how far `x` lies from `start.x`, rounded toward zero.
/// The weight of `start.y` grows with the distance from `start.x`.
pub open spec fn spec_height_over(start: Vec2Di, end: Vec2Di, x: i32) -> i32 {
    let t = Fixed::from_int((x - start.x) as i32).div(Fixed::from_int((end.x - start.x) as i32));
    t.mul(Fixed::from_int(start.y)).add(
        Fixed::from_int(1).sub(t).mul(Fixed::from_int(end.y)),
    ).to_i32()
}

/// Computes the height of a segment over the column `x`.
pub fn height_over(start: Vec2Di, end: Vec2Di, x: i32) -> (y: i32)
    requires
        0 <= start.x <= x < end.x,
    ensures
        y == spec_height_over(start, end, x),
{
    let t: Fixed = Fixed::from_int(x - start.x).div(Fixed::from_int(end.x - start.x));
    t.mul(Fixed::from_int(start.y)).add(
        Fixed::from_int(1).sub(t).mul(Fixed::from_int(end.y)),
    ).to_i32()
}

/// The end of the segment with the smaller x.
pub open spec fn left_end(start: Vec2Di, end: Vec2Di) -> Vec2Di {
    if start.x > end.x {
        end
    } else {
        start
    }
}

/// The end of the segment with the larger x.
pub open spec fn right_end(start: Vec2Di, end: Vec2Di) -> Vec2Di {
    if start.x > end.x {
        start
    } else {
        end
    }
}

/// Whether the segment is higher over the column `x` than anything drawn
/// there so far.
pub open spec fn rises_over(start: Vec2Di, end: Vec2Di, ybuffer: Seq<i32>, x: int) -> bool {
    left_end(start, end).x <= x < right_end(start, end).x && spec_height_over(
        left_end(start, end),
        right_end(start, end),
        x as i32,
    ) > ybuffer[x]
}

/// Draws a segment of a 2D scene into row zero of the image, as a camera
/// above the scene sees it: a higher y is nearer. Over every column from
/// the left end of the segment to the column before its right end, the
/// segment is drawn where it is higher than what `ybuffer` holds for the
/// column, and its height is put there. The two ends are put in order of
/// their x.
#[allow(non_snake_case)]
pub fn rasterize_2D<T>(
    image: &mut Image<T>,
    start: &mut Vec2Di,
    end: &mut Vec2Di,
    color: T,
    ybuffer: &mut Vec<i32>,
) where T: ColorSpace + Copy
    requires
        old(image).wf(),
        old(start).x != old(end).x ==> {
            &&& 0 <= left_end(*old(start), *old(end)).x
            &&& right_end(*old(start), *old(end)).x <= old(ybuffer).len()
        },
        forall|x: int| #[trigger]
            rises_over(*old(start), *old(end), old(ybuffer)@, x) ==> x < old(image).width && old(
                image,
            ).height >= 1,
    ensures
        final(image).wf(),
        final(image).width == old(image).width,
        final(image).height == old(image).height,
        *final(start) == left_end(*old(start), *old(end)),
        *final(end) == right_end(*old(start), *old(end)),
        final(ybuffer).len() == old(ybuffer).len(),
        forall|x: int|
            0 <= x < old(ybuffer).len() ==> #[trigger] final(ybuffer)@[x] == (if rises_over(
                *old(start),
                *old(end),
                old(ybuffer)@,
                x,
            ) {
                spec_height_over(*final(start), *final(end), x as i32)
            } else {
                old(ybuffer)@[x]
            }),
        forall|i: int|
            0 <= i < old(image).data@.len() ==> #[trigger] final(image).data@[i] == (if rises_over(
                *old(start),
                *old(end),
                old(ybuffer)@,
                i,
            ) {
                color
            } else {
                old(image).data@[i]
            }),
{
    if start.x > end.x {
        let held: Vec2Di = *start;
        *start = *end;
        *end = held;
    }
    let from: Vec2Di = *start;
    let to: Vec2Di = *end;
    let ghost first_depths = ybuffer@;
    let ghost first_pixels = image.data@;
    let mut x: i32 = from.x;
    while x < to.x
        invariant
            image.wf(),
            image.width == old(image).width,
            image.height == old(image).height,
            ybuffer.len() == old(ybuffer).len(),
            first_depths == old(ybuffer)@,
            first_pixels == old(image).data@,
            first_depths.len() == ybuffer.len(),
            first_pixels.len() == image.data@.len(),
            from == left_end(*old(start), *old(end)),
            to == right_end(*old(start), *old(end)),
            *start == from,
            *end == to,
            from.x <= x,
            from.x < to.x ==> x <= to.x && 0 <= from.x && to.x <= ybuffer.len(),
            forall|k: int| #[trigger]
                rises_over(*old(start), *old(end), first_depths, k) ==> k < image.width
                    && image.height >= 1,
            forall|k: int|
                0 <= k < ybuffer.len() ==> #[trigger] ybuffer@[k] == (if k < x && rises_over(
                    *old(start),
                    *old(end),
                    first_depths,
                    k,
                ) {
                    spec_height_over(from, to, k as i32)
                } else {
                    first_depths[k]
                }),
            forall|i: int|
                0 <= i < image.data@.len() ==> #[trigger] image.data@[i] == (if i < x
                    && rises_over(*old(start), *old(end), first_depths, i) {
                    color
                } else {
                    first_pixels[i]
                }),
        decreases to.x - x,
    {
        let y: i32 = height_over(from, to, x);
        let ghost pixels_before = image.data@;
        assert(crate::tgaimage::pixel_index(image.width as int, x as int, 0) == x);
        assert(ybuffer@[x as int] == first_depths[x as int]);
        assert(rises_over(*old(start), *old(end), first_depths, x as int) == (y
            > first_depths[x as int]));
        if y > ybuffer[x as usize] {
            proof {
                crate::tgaimage::lemma_pixel_index_in_bounds(
                    image.width as int,
                    image.height as int,
                    x as int,
                    0,
                );
            }
            ybuffer[x as usize] = y;
            let _ = image.set(x as usize, 0, color);
            assert(image.data@ == pixels_before.update(x as int, color));
        }
        assert forall|i: int| 0 <= i < image.data@.len() implies #[trigger] image.data@[i] == (if i
            < x + 1 && rises_over(*old(start), *old(end), first_depths, i) {
            color
        } else {
            first_pixels[i]
        }) by {
            if i != x {
                assert(image.data@[i] == pixels_before[i]);
            }
        }
        x = x + 1;
    }
}

} // verus!
