use tinyrenderer::fixed::{Fixed, SCALE};
use tinyrenderer::line::{add_axis_lines, line_3d, walk, Walk};
use tinyrenderer::matrix::Affine3;
use tinyrenderer::tgaimage::{ColorSpace, Image, ImageError, RGB};
use tinyrenderer::transform::viewport;
use tinyrenderer::types::{Vec2Df, Vec3Df};

fn fx(v: f64) -> Fixed {
    Fixed::from_raw((v * SCALE as f64).floor() as i64)
}

fn at(x: f64, y: f64) -> Vec2Df {
    Vec2Df::new(fx(x), fx(y))
}

const INK: RGB = RGB { r: 1, g: 2, b: 3 };

fn line(image: &mut Image<RGB>, start: Vec2Df, end: Vec2Df, color: RGB) -> Result<(), ImageError> {
    tinyrenderer::line::line(image, start, end, color)
}

fn drawn(image: &Image<RGB>, color: RGB) -> Vec<(usize, usize)> {
    let mut found = Vec::new();
    for y in 0..image.height {
        for x in 0..image.width {
            if image.get(x, y).unwrap() == color {
                found.push((x, y));
            }
        }
    }
    found
}

#[test]
fn walks() {
    let w = walk(at(1.0, 1.0), at(5.0, 3.0));
    assert_eq!(
        w,
        Walk {
            steep: false,
            first: 1,
            last: 5,
            across: Fixed::from_int(1),
            slope: fx(0.5),
            step: Fixed::from_int(1),
        }
    );
    // a steep line is walked along y, from its lower end
    let s = walk(at(4.0, 9.0), at(2.0, 1.0));
    assert_eq!(
        s,
        Walk {
            steep: true,
            first: 1,
            last: 9,
            across: Fixed::from_int(2),
            slope: fx(0.25),
            step: Fixed::from_int(1),
        }
    );
    let down = walk(at(0.0, 4.0), at(8.0, 0.0));
    assert_eq!(down.step, Fixed::from_int(-1));
    assert_eq!(down.slope, fx(0.5));
    // a single point: no slope
    let dot = walk(at(3.0, 3.0), at(3.0, 3.0));
    assert_eq!((dot.first, dot.last, dot.slope), (3, 3, Fixed::from_int(0)));
}

#[test]
fn horizontal_vertical_and_diagonal_lines() {
    let mut image: Image<RGB> = Image::new(8, 8);
    assert_eq!(line(&mut image, at(1.0, 2.0), at(5.0, 2.0), INK), Ok(()));
    assert_eq!(drawn(&image, INK), vec![(1, 2), (2, 2), (3, 2), (4, 2), (5, 2)]);

    let mut image: Image<RGB> = Image::new(8, 8);
    assert_eq!(line(&mut image, at(3.0, 6.0), at(3.0, 4.0), INK), Ok(()));
    assert_eq!(drawn(&image, INK), vec![(3, 4), (3, 5), (3, 6)]);

    let mut image: Image<RGB> = Image::new(8, 8);
    assert_eq!(line(&mut image, at(0.0, 0.0), at(7.0, 7.0), INK), Ok(()));
    assert_eq!(drawn(&image, INK), (0..8).map(|i| (i, i)).collect::<Vec<_>>());

    let mut image: Image<RGB> = Image::new(8, 8);
    assert_eq!(line(&mut image, at(4.0, 4.0), at(4.0, 4.0), INK), Ok(()));
    assert_eq!(drawn(&image, INK), vec![(4, 4)]);
}

#[test]
fn shallow_line_steps_when_the_error_passes_a_half() {
    let mut image: Image<RGB> = Image::new(8, 4);
    assert_eq!(line(&mut image, at(0.0, 0.0), at(6.0, 2.0), INK), Ok(()));
    // slope 1/3: the row rises after the second and the fifth pixel
    assert_eq!(drawn(&image, INK), vec![(0, 0), (1, 0), (2, 1), (3, 1), (4, 1), (5, 2), (6, 2)]);
    // the same line drawn from its other end
    let mut back: Image<RGB> = Image::new(8, 4);
    assert_eq!(line(&mut back, at(6.0, 2.0), at(0.0, 0.0), INK), Ok(()));
    assert_eq!(back.data, image.data);
}

#[test]
fn line_ends_at_the_first_pixel_outside() {
    let mut image: Image<RGB> = Image::new(4, 4);
    let r = line(&mut image, at(1.0, 1.0), at(6.0, 1.0), INK);
    assert_eq!(r, Err(ImageError::OutOfBounds { x: 4, y: 1, width: 4, height: 4 }));
    assert_eq!(drawn(&image, INK), vec![(1, 1), (2, 1), (3, 1)]);

    let mut image: Image<RGB> = Image::new(4, 4);
    let r = line(&mut image, at(-2.0, 1.0), at(2.0, 1.0), INK);
    assert_eq!(r, Err(ImageError::Negative { coordinate: -2 }));
    assert_eq!(drawn(&image, INK), vec![]);

    // a negative position across the walk is drawn in row zero
    let mut image: Image<RGB> = Image::new(4, 4);
    assert_eq!(line(&mut image, at(0.0, -3.0), at(3.0, -3.0), INK), Ok(()));
    assert_eq!(drawn(&image, INK), vec![(0, 0), (1, 0), (2, 0), (3, 0)]);

    let mut image: Image<RGB> = Image::new(4, 4);
    let r = line(&mut image, at(1.0, 2.0), at(1.0, 9.0), INK);
    assert_eq!(r, Err(ImageError::OutOfBounds { x: 1, y: 4, width: 4, height: 4 }));
    assert_eq!(drawn(&image, INK), vec![(1, 2), (1, 3)]);
}

#[test]
fn lines_in_space_are_transformed_first() {
    let mut image: Image<RGB> = Image::new(16, 16);
    let t = viewport(0, 0, 14, 14);
    let r = line_3d(&mut image, Vec3Df::from_ints(-1, 0, 0), Vec3Df::from_ints(1, 0, 5), t, INK);
    assert_eq!(r, Ok(()));
    assert_eq!(drawn(&image, INK), (0..15).map(|x| (x, 7)).collect::<Vec<_>>());
    let mut shifted = Affine3::identity();
    shifted.translation = Vec3Df::from_ints(2, 3, 0);
    let mut image: Image<RGB> = Image::new(16, 16);
    line_3d(&mut image, Vec3Df::from_ints(0, 0, 0), Vec3Df::from_ints(0, 2, 0), shifted, INK).unwrap();
    assert_eq!(drawn(&image, INK), vec![(2, 3), (2, 4), (2, 5)]);
}

#[test]
fn axis_lines_are_red_below_zero_and_blue_above() {
    let mut image: Image<RGB> = Image::new(16, 16);
    let t = viewport(1, 1, 12, 12);
    assert_eq!(add_axis_lines(&mut image, t), Ok(()));
    let red = RGB { r: 255, g: 0, b: 0 };
    let blue = RGB { r: 0, g: 0, b: 255 };
    // the x axis in row 7, the y axis in column 7; the z axis is one point
    assert_eq!(image.get(1, 7).unwrap(), red);
    assert_eq!(image.get(6, 7).unwrap(), red);
    assert_eq!(image.get(8, 7).unwrap(), blue);
    assert_eq!(image.get(13, 7).unwrap(), blue);
    assert_eq!(image.get(7, 1).unwrap(), red);
    assert_eq!(image.get(7, 13).unwrap(), blue);
    assert_eq!(image.get(7, 7).unwrap(), blue);
    assert_eq!(image.get(0, 7).unwrap(), RGB::new());
    assert_eq!(image.get(14, 7).unwrap(), RGB::new());
    assert_eq!(drawn(&image, red).len() + drawn(&image, blue).len(), 25);
}

#[test]
fn axis_lines_stop_at_the_first_line_that_leaves_the_image() {
    let mut image: Image<RGB> = Image::new(8, 8);
    let t = viewport(0, 0, 12, 12);
    let r = add_axis_lines(&mut image, t);
    assert_eq!(r, Err(ImageError::OutOfBounds { x: 8, y: 6, width: 8, height: 8 }));
    // the negative half of the x axis, and the positive half up to the edge
    let red = RGB { r: 255, g: 0, b: 0 };
    let blue = RGB { r: 0, g: 0, b: 255 };
    assert_eq!(drawn(&image, red), (0..6).map(|x| (x, 6)).collect::<Vec<_>>());
    assert_eq!(drawn(&image, blue), vec![(6, 6), (7, 6)]);
}
