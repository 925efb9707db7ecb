//! Filling a triangle of pixels row by row.

use vstd::prelude::*;
use crate::tgaimage::{pixel_index, ColorSpace, Image, ImageError};
use crate::types::Vec2Di;

verus! {

/// The largest coordinate, in absolute value, that the sweep takes.
pub const MAX_COORDINATE: i32 = 0x3FFF_FFFF;

/// Whether every coordinate of the three points is at most
/// `MAX_COORDINATE` in absolute value.
pub open spec fn in_range(pts: [Vec2Di; 3]) -> bool {
    forall|i: int|
        0 <= i < 3 ==> -MAX_COORDINATE <= (#[trigger] pts[i]).x <= MAX_COORDINATE
            && -MAX_COORDINATE <= pts[i].y <= MAX_COORDINATE
}

/// The two points in the order of their y, the first one first where
/// they are level.
pub open spec fn lower_first(a: Vec2Di, b: Vec2Di) -> (Vec2Di, Vec2Di) {
    if a.y > b.y {
        (b, a)
    } else {
        (a, b)
    }
}

/// The three points in the order of their y.
pub open spec fn spec_sorted_by_y(pts: [Vec2Di; 3]) -> [Vec2Di; 3] {
    let first = lower_first(pts[0], pts[1]);
    let second = lower_first(first.0, pts[2]);
    let third = lower_first(first.1, second.1);
    [second.0, third.0, third.1]
}

/// Why the pixel `(x, y)` cannot be set, if it cannot.
pub open spec fn sweep_failure(width: usize, height: usize, x: int, y: int) -> Option<ImageError> {
    if x < 0 {
        Some(ImageError::Negative { coordinate: x as i32 })
    } else if y < 0 {
        Some(ImageError::Negative { coordinate: y as i32 })
    } else if x < width && y < height {
        None
    } else {
        Some(ImageError::OutOfBounds { x: x as usize, y: y as usize, width, height })
    }
}

/// The buffer and the outcome once the rows from `y` to `last - 1` have
/// been filled from column `first` to column `end - 1`, starting in row `y`
/// at column `x`, up to the first pixel that cannot be set.
pub open spec fn swept<T: ColorSpace + Copy>(
    pixels: Seq<T>,
    width: usize,
    height: usize,
    first: int,
    end: int,
    last: int,
    color: T,
    y: int,
    x: int,
) -> (Seq<T>, Result<(), ImageError>)
    decreases last - y, end - x,
{
    if y >= last {
        (pixels, Ok(()))
    } else if x >= end {
        swept(pixels, width, height, first, end, last, color, y + 1, first)
    } else {
        match sweep_failure(width, height, x, y) {
            Some(e) => (pixels, Err(e)),
            None => swept(
                pixels.update(pixel_index(width as int, x, y), color),
                width,
                height,
                first,
                end,
                last,
                color,
                y,
                x + 1,
            ),
        }
    }
}

/// The columns that the sweep fills in every row: from the smaller to the
/// larger x of the two lower corners, the larger one left out. Nothing
/// where only the smaller one is negative.
pub open spec fn sweep_columns(sorted: [Vec2Di; 3]) -> (int, int) {
    let lo: int = if sorted[0].x > sorted[1].x {
        sorted[1].x as int
    } else {
        sorted[0].x as int
    };
    let hi: int = if sorted[0].x > sorted[1].x {
        sorted[0].x as int
    } else {
        sorted[1].x as int
    };
    if lo < 0 && hi >= 0 {
        (hi, hi)
    } else {
        (lo, hi)
    }
}

/// The buffer and the outcome of sweeping the triangle: the rows from the
/// middle corner up to the row before the top corner, each filled over
/// `sweep_columns`.
pub open spec fn triangle_swept<T: ColorSpace + Copy>(
    pixels: Seq<T>,
    width: usize,
    height: usize,
    pts: [Vec2Di; 3],
    color: T,
) -> (Seq<T>, Result<(), ImageError>) {
    let sorted = spec_sorted_by_y(pts);
    let columns = sweep_columns(sorted);
    swept(
        pixels,
        width,
        height,
        columns.0,
        columns.1,
        sorted[2].y as int,
        color,
        sorted[1].y as int,
        columns.0,
    )
}

/// Fills one row from column `from` to column `to - 1`.
fn sweep_row<T: ColorSpace + Copy>(
    image: &mut Image<T>,
    from: i32,
    to: i32,
    y: i32,
    last: i32,
    color: T,
) -> (r: Result<(), ImageError>)
    requires
        old(image).wf(),
        y < last,
    ensures
        final(image).wf(),
        final(image).width == old(image).width,
        final(image).height == old(image).height,
        r is Ok ==> swept(
            final(image).data@,
            old(image).width,
            old(image).height,
            from as int,
            to as int,
            last as int,
            color,
            y + 1,
            from as int,
        ) == swept(
            old(image).data@,
            old(image).width,
            old(image).height,
            from as int,
            to as int,
            last as int,
            color,
            y as int,
            from as int,
        ),
        r is Err ==> (final(image).data@, r) == swept(
            old(image).data@,
            old(image).width,
            old(image).height,
            from as int,
            to as int,
            last as int,
            color,
            y as int,
            from as int,
        ),
{
    let mut x: i32 = from;
    while x < to
        invariant
            image.wf(),
            image.width == old(image).width,
            image.height == old(image).height,
            from <= x,
            from < to ==> x <= to,
            y < last,
            swept(
                image.data@,
                image.width,
                image.height,
                from as int,
                to as int,
                last as int,
                color,
                y as int,
                x as int,
            ) == swept(
                old(image).data@,
                old(image).width,
                old(image).height,
                from as int,
                to as int,
                last as int,
                color,
                y as int,
                from as int,
            ),
        decreases to - x,
    {
        if x < 0 {
            return Err(ImageError::Negative { coordinate: x });
        }
        if y < 0 {
            return Err(ImageError::Negative { coordinate: y });
        }
        match image.set(x as usize, y as usize, color) {
            Ok(()) => {},
            Err(e) => {
                return Err(e);
            },
        }
        x = x + 1;
    }
    Ok(())
}

/// Sweeps a triangle row by row, from its middle corner up to the row
/// before its top corner. In every row the pixels between the columns of
/// the two lower corners are set. The corners are put in the order of their
/// y. The first pixel outside the image ends the sweep.
pub fn triangle<T>(image: &mut Image<T>, pts: &mut [Vec2Di; 3], color: T) -> (r: Result<
    (),
    ImageError,
>) where T: ColorSpace + Copy
    requires
        old(image).wf(),
        in_range(*old(pts)),
    ensures
        final(image).wf(),
        final(image).width == old(image).width,
        final(image).height == old(image).height,
        *final(pts) == spec_sorted_by_y(*old(pts)),
        (final(image).data@, r) == triangle_swept(
            old(image).data@,
            old(image).width,
            old(image).height,
            *old(pts),
            color,
        ),
{
    assert(in_range(*pts));
    assert(-MAX_COORDINATE <= pts[0].x <= MAX_COORDINATE);
    assert(-MAX_COORDINATE <= pts[1].x <= MAX_COORDINATE);
    assert(-MAX_COORDINATE <= pts[2].x <= MAX_COORDINATE);
    if pts[0].y > pts[1].y {
        let held: Vec2Di = pts[0];
        pts[0] = pts[1];
        pts[1] = held;
    }
    if pts[0].y > pts[2].y {
        let held: Vec2Di = pts[0];
        pts[0] = pts[2];
        pts[2] = held;
    }
    if pts[1].y > pts[2].y {
        let held: Vec2Di = pts[1];
        pts[1] = pts[2];
        pts[2] = held;
    }
    assert(*pts == spec_sorted_by_y(*old(pts)));
    let p0: Vec2Di = pts[0];
    let p1: Vec2Di = pts[1];
    let p2: Vec2Di = pts[2];
    let total_height: i32 = p2.y - p0.y;
    let segment_height: i32 = p2.y - p1.y;
    let ghost columns = sweep_columns(*pts);
    let ghost first_pixels = image.data@;
    let mut y: i32 = p1.y;
    while y < p2.y
        invariant
            image.wf(),
            image.width == old(image).width,
            image.height == old(image).height,
            first_pixels == old(image).data@,
            *pts == spec_sorted_by_y(*old(pts)),
            p0 == pts[0],
            p1 == pts[1],
            p2 == pts[2],
            p0.y <= p1.y <= y,
            p1.y < p2.y ==> y <= p2.y,
            -MAX_COORDINATE <= p0.x <= MAX_COORDINATE,
            -MAX_COORDINATE <= p1.x <= MAX_COORDINATE,
            -MAX_COORDINATE <= p2.x <= MAX_COORDINATE,
            -MAX_COORDINATE <= p0.y <= MAX_COORDINATE,
            -MAX_COORDINATE <= p2.y <= MAX_COORDINATE,
            total_height == p2.y - p0.y,
            segment_height == p2.y - p1.y,
            columns == sweep_columns(*pts),
            swept(
                image.data@,
                image.width,
                image.height,
                columns.0,
                columns.1,
                p2.y as int,
                color,
                y as int,
                columns.0,
            ) == swept(
                first_pixels,
                image.width,
                image.height,
                columns.0,
                columns.1,
                p2.y as int,
                color,
                p1.y as int,
                columns.0,
            ),
        decreases p2.y - y,
    {
        // how far the row lies along the long side and along the short side
        proof {
            vstd::arithmetic::div_mod::lemma_basic_div((y - p0.y) as int, total_height as int);
            vstd::arithmetic::div_mod::lemma_basic_div((y - p1.y) as int, segment_height as int);
        }
        let a: i32 = (y - p0.y) / total_height;
        let b: i32 = (y - p1.y) / segment_height;
        assert(a == 0 && b == 0);
        let mut a_x: i32 = p0.x + a * (p2.x - p0.x);
        let mut b_x: i32 = p1.x + b * (p2.x - p1.x);
        if a_x > b_x {
            let held: i32 = a_x;
            a_x = b_x;
            b_x = held;
        }
        if a_x < 0 && b_x >= 0 {
            a_x = b_x;
        }
        assert(columns == (a_x as int, b_x as int));
        match sweep_row(image, a_x, b_x, y, p2.y, color) {
            Ok(()) => {},
            Err(e) => {
                return Err(e);
            },
        }
        y = y + 1;
    }
    Ok(())
}

} // verus!
