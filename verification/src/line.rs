//! Drawing straight lines.

use vstd::prelude::*;
use crate::fixed::{Fixed, SCALE};
use crate::matrix::Affine3;
use crate::tgaimage::{pixel_index, ColorSpace, Image, ImageError, RGB};
use crate::types::{Vec2Df, Vec3Df};

verus! {

/// How a line is walked: one pixel for every whole step along its longer
/// axis, from `first` to `last`. The position across starts at `across` and
/// moves by `step` whenever the accumulated `slope` passes one half. A
/// steep line is walked along y, and `first` and `last` are rows.
#[derive(Clone, Copy, Debug, PartialEq, Eq, Structural)]
pub struct Walk {
    pub steep: bool,
    pub first: i32,
    pub last: i32,
    pub across: Fixed,
    pub slope: Fixed,
    pub step: Fixed,
}

/// The walk from `start` to `end`.
pub open spec fn spec_walk(start: Vec2Df, end: Vec2Df) -> Walk {
    let steep = start.x.sub(end.x).abs().raw < start.y.sub(end.y).abs().raw;
    let a = if steep {
        Vec2Df { x: start.y, y: start.x }
    } else {
        start
    };
    let b = if steep {
        Vec2Df { x: end.y, y: end.x }
    } else {
        end
    };
    let from = if a.x.raw > b.x.raw {
        b
    } else {
        a
    };
    let to = if a.x.raw > b.x.raw {
        a
    } else {
        b
    };
    Walk {
        steep,
        first: from.x.to_i32(),
        last: to.x.to_i32(),
        across: from.y,
        slope: to.y.sub(from.y).div(to.x.sub(from.x)).abs(),
        step: if to.y.raw > from.y.raw {
            Fixed::from_int(1)
        } else {
            Fixed::from_int(1).neg()
        },
    }
}

#[verifier::when_used_as_spec(spec_walk)]
pub fn walk(start: Vec2Df, end: Vec2Df) -> (w: Walk)
    ensures
        w == spec_walk(start, end),
{
    let steep: bool = start.x.sub(end.x).abs().raw < start.y.sub(end.y).abs().raw;
    let a: Vec2Df = if steep {
        Vec2Df { x: start.y, y: start.x }
    } else {
        start
    };
    let b: Vec2Df = if steep {
        Vec2Df { x: end.y, y: end.x }
    } else {
        end
    };
    let from: Vec2Df = if a.x.raw > b.x.raw {
        b
    } else {
        a
    };
    let to: Vec2Df = if a.x.raw > b.x.raw {
        a
    } else {
        b
    };
    Walk {
        steep,
        first: from.x.to_i32(),
        last: to.x.to_i32(),
        across: from.y,
        slope: to.y.sub(from.y).div(to.x.sub(from.x)).abs(),
        step: if to.y.raw > from.y.raw {
            Fixed::from_int(1)
        } else {
            Fixed::from_int(1).neg()
        },
    }
}

/// How many pixels the walk visits.
pub open spec fn walk_len(w: Walk) -> int {
    if w.last < w.first {
        0
    } else {
        w.last - w.first + 1
    }
}

/// The position across and the accumulated error after one more step.
pub open spec fn spec_walk_step(w: Walk, state: (Fixed, Fixed)) -> (Fixed, Fixed) {
    let error = state.1.add(w.slope);
    if error.raw > SCALE / 2 {
        (state.0.add(w.step), error.sub(Fixed::from_int(1)))
    } else {
        (state.0, error)
    }
}

/// The position across and the accumulated error at pixel `k`.
pub open spec fn walk_state(w: Walk, k: nat) -> (Fixed, Fixed)
    decreases k,
{
    if k == 0 {
        (w.across, Fixed::from_int(0))
    } else {
        spec_walk_step(w, walk_state(w, (k - 1) as nat))
    }
}

/// Why pixel `k` of the walk cannot be set, if it cannot: its coordinate
/// along the walk is negative, or it lies outside the image.
pub open spec fn walk_failure(w: Walk, width: usize, height: usize, k: nat) -> Option<ImageError> {
    let along = w.first + k;
    let across = walk_state(w, k).0.to_usize();
    let x = if w.steep {
        across as int
    } else {
        along
    };
    let y = if w.steep {
        along
    } else {
        across as int
    };
    if along < 0 {
        Some(ImageError::Negative { coordinate: along as i32 })
    } else if x < width && y < height {
        None
    } else {
        Some(ImageError::OutOfBounds { x: x as usize, y: y as usize, width, height })
    }
}

/// The place of pixel `k` of the walk in the buffer.
pub open spec fn walk_index(w: Walk, width: usize, k: nat) -> int {
    let along = w.first + k;
    let across = walk_state(w, k).0.to_usize();
    if w.steep {
        pixel_index(width as int, across as int, along)
    } else {
        pixel_index(width as int, along, across as int)
    }
}

/// The buffer and the outcome once the pixels of the walk from `k` on have
/// been set, one after the other, up to the first that cannot be.
pub open spec fn walked<T: ColorSpace + Copy>(
    pixels: Seq<T>,
    width: usize,
    height: usize,
    w: Walk,
    color: T,
    k: nat,
) -> (Seq<T>, Result<(), ImageError>)
    decreases walk_len(w) - k,
{
    if k >= walk_len(w) {
        (pixels, Ok(()))
    } else {
        match walk_failure(w, width, height, k) {
            Some(e) => (pixels, Err(e)),
            None => walked(
                pixels.update(walk_index(w, width, k), color),
                width,
                height,
                w,
                color,
                k + 1,
            ),
        }
    }
}

/// The buffer and the outcome of drawing the line from `start` to `end`.
pub open spec fn line_drawn<T: ColorSpace + Copy>(
    pixels: Seq<T>,
    width: usize,
    height: usize,
    start: Vec2Df,
    end: Vec2Df,
    color: T,
) -> (Seq<T>, Result<(), ImageError>) {
    walked(pixels, width, height, spec_walk(start, end), color, 0)
}

/// Draws the line from `start` to `end`: one pixel for every whole step
/// along the longer axis. The first pixel outside the image ends the line.
pub fn line<T>(image: &mut Image<T>, start: Vec2Df, end: Vec2Df, color: T) -> (r: Result<
    (),
    ImageError,
>) where T: ColorSpace + Copy
    requires
        old(image).wf(),
    ensures
        final(image).wf(),
        final(image).width == old(image).width,
        final(image).height == old(image).height,
        (final(image).data@, r) == line_drawn(
            old(image).data@,
            old(image).width,
            old(image).height,
            start,
            end,
            color,
        ),
{
    let w: Walk = walk(start, end);
    let ghost first_pixels = image.data@;
    let width: usize = image.width;
    let height: usize = image.height;
    let mut state: (Fixed, Fixed) = (w.across, Fixed::from_int(0));
    let mut along: i64 = w.first as i64;
    let last: i64 = w.last as i64;
    let ghost mut k: nat = 0;
    while along <= last
        invariant
            image.wf(),
            image.width == width,
            image.height == height,
            width == old(image).width,
            height == old(image).height,
            first_pixels == old(image).data@,
            w == spec_walk(start, end),
            last == w.last,
            along == w.first + k,
            along <= last + 1,
            state == walk_state(w, k),
            walked(image.data@, width, height, w, color, k) == walked(
                first_pixels,
                width,
                height,
                w,
                color,
                0,
            ),
        decreases last + 1 - along,
    {
        if along < 0 {
            return Err(ImageError::Negative { coordinate: along as i32 });
        }
        let across: usize = state.0.to_usize();
        let x: usize = if w.steep {
            across
        } else {
            along as usize
        };
        let y: usize = if w.steep {
            along as usize
        } else {
            across
        };
        match image.set(x, y, color) {
            Ok(()) => {},
            Err(e) => {
                return Err(e);
            },
        }
        let error: Fixed = state.1.add(w.slope);
        if error.raw > SCALE / 2 {
            state = (state.0.add(w.step), error.sub(Fixed::from_int(1)));
        } else {
            state = (state.0, error);
        }
        along = along + 1;
        proof {
            k = k + 1;
        }
    }
    Ok(())
}

/// The buffer and the outcome of drawing the line between the images of
/// `start` and `end` under `transform`.
pub open spec fn line_3d_drawn<T: ColorSpace + Copy>(
    pixels: Seq<T>,
    width: usize,
    height: usize,
    start: Vec3Df,
    end: Vec3Df,
    transform: Affine3,
    color: T,
) -> (Seq<T>, Result<(), ImageError>) {
    line_drawn(
        pixels,
        width,
        height,
        Vec2Df { x: transform.transform_point3(start).x, y: transform.transform_point3(start).y },
        Vec2Df { x: transform.transform_point3(end).x, y: transform.transform_point3(end).y },
        color,
    )
}

/// Draws the line between the images of `start` and `end` under
/// `transform`.
pub fn line_3d<T>(
    image: &mut Image<T>,
    start: Vec3Df,
    end: Vec3Df,
    transform: Affine3,
    color: T,
) -> (r: Result<(), ImageError>) where T: ColorSpace + Copy
    requires
        old(image).wf(),
    ensures
        final(image).wf(),
        final(image).width == old(image).width,
        final(image).height == old(image).height,
        (final(image).data@, r) == line_3d_drawn(
            old(image).data@,
            old(image).width,
            old(image).height,
            start,
            end,
            transform,
            color,
        ),
{
    let from: Vec3Df = transform.transform_point3(start);
    let to: Vec3Df = transform.transform_point3(end);
    line(image, Vec2Df { x: from.x, y: from.y }, Vec2Df { x: to.x, y: to.y }, color)
}

/// The colour of the negative half of an axis.
pub open spec fn spec_red() -> RGB {
    RGB { r: 255, g: 0, b: 0 }
}

/// The colour of the positive half of an axis.
pub open spec fn spec_blue() -> RGB {
    RGB { r: 0, g: 0, b: 255 }
}

/// One more line after what has been drawn, unless that has failed.
pub open spec fn and_then_line(
    before: (Seq<RGB>, Result<(), ImageError>),
    width: usize,
    height: usize,
    start: Vec3Df,
    end: Vec3Df,
    transform: Affine3,
    color: RGB,
) -> (Seq<RGB>, Result<(), ImageError>) {
    if before.1 is Err {
        before
    } else {
        line_3d_drawn(before.0, width, height, start, end, transform, color)
    }
}

/// The buffer and the outcome of drawing the three axes: for x, then y,
/// then z, the negative half in red and then the positive half in blue.
pub open spec fn axis_lines_drawn(
    pixels: Seq<RGB>,
    width: usize,
    height: usize,
    transform: Affine3,
) -> (Seq<RGB>, Result<(), ImageError>) {
    let mid = Vec3Df::spec_from_ints(0, 0, 0);
    let s0 = (pixels, Ok::<(), ImageError>(()));
    let s1 = and_then_line(s0, width, height, Vec3Df::spec_from_ints(1, 0, 0).neg(), mid, transform, spec_red());
    let s2 = and_then_line(s1, width, height, mid, Vec3Df::spec_from_ints(1, 0, 0), transform, spec_blue());
    let s3 = and_then_line(s2, width, height, Vec3Df::spec_from_ints(0, 1, 0).neg(), mid, transform, spec_red());
    let s4 = and_then_line(s3, width, height, mid, Vec3Df::spec_from_ints(0, 1, 0), transform, spec_blue());
    let s5 = and_then_line(s4, width, height, Vec3Df::spec_from_ints(0, 0, 1).neg(), mid, transform, spec_red());
    and_then_line(s5, width, height, mid, Vec3Df::spec_from_ints(0, 0, 1), transform, spec_blue())
}

/// Draws the three axes on `[-1, 1]` as `transform` shows them: red for
/// negative values, blue for positive ones. The first line that leaves the
/// image ends the drawing.
pub fn add_axis_lines(image: &mut Image<RGB>, transform: Affine3) -> (r: Result<(), ImageError>)
    requires
        old(image).wf(),
    ensures
        final(image).wf(),
        final(image).width == old(image).width,
        final(image).height == old(image).height,
        (final(image).data@, r) == axis_lines_drawn(
            old(image).data@,
            old(image).width,
            old(image).height,
            transform,
        ),
{
    let mid: Vec3Df = Vec3Df::from_ints(0, 0, 0);
    let red: RGB = RGB { r: 255, g: 0, b: 0 };
    let blue: RGB = RGB { r: 0, g: 0, b: 255 };
    match line_3d(image, Vec3Df::from_ints(1, 0, 0).neg(), mid, transform, red) {
        Ok(()) => {},
        Err(e) => {
            return Err(e);
        },
    }
    match line_3d(image, mid, Vec3Df::from_ints(1, 0, 0), transform, blue) {
        Ok(()) => {},
        Err(e) => {
            return Err(e);
        },
    }
    match line_3d(image, Vec3Df::from_ints(0, 1, 0).neg(), mid, transform, red) {
        Ok(()) => {},
        Err(e) => {
            return Err(e);
        },
    }
    match line_3d(image, mid, Vec3Df::from_ints(0, 1, 0), transform, blue) {
        Ok(()) => {},
        Err(e) => {
            return Err(e);
        },
    }
    match line_3d(image, Vec3Df::from_ints(0, 0, 1).neg(), mid, transform, red) {
        Ok(()) => {},
        Err(e) => {
            return Err(e);
        },
    }
    line_3d(image, mid, Vec3Df::from_ints(0, 0, 1), transform, blue)
}

} // verus!
