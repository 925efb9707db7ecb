use tinyrenderer::fixed::{Fixed, SCALE};
use tinyrenderer::rasterize::{height_over, rasterize_2D};
use tinyrenderer::render::new_depth_buffer;
use tinyrenderer::shaders::ShaderError;
use tinyrenderer::tgaimage::{ColorSpace, Image, ImageError, RGB};
use tinyrenderer::triangle_bary::{draw_faces, to_image, to_texture};
use tinyrenderer::types::{ObjFace, Vec2Di, Vec3Df};

fn fx(v: f64) -> Fixed {
    Fixed::from_raw((v * SCALE as f64).floor() as i64)
}

fn v3(x: f64, y: f64, z: f64) -> Vec3Df {
    Vec3Df::new(fx(x), fx(y), fx(z))
}

const INK: RGB = RGB { r: 9, g: 8, b: 7 };
const RED: RGB = RGB { r: 255, g: 0, b: 0 };

fn drawn(image: &Image<RGB>, color: RGB) -> Vec<(usize, usize)> {
    let mut found = Vec::new();
    for y in 0..image.height {
        for x in 0..image.width {
            if image.get(x, y).unwrap() == color {
                found.push((x, y));
            }
        }
    }
    found
}

#[test]
fn height_over_a_column() {
    let start = Vec2Di::new(2, 10);
    let end = Vec2Di::new(6, 30);
    // the weight of the start grows with the distance from it
    assert_eq!(height_over(start, end, 2), 30);
    assert_eq!(height_over(start, end, 3), 25);
    assert_eq!(height_over(start, end, 4), 20);
    assert_eq!(height_over(start, end, 5), 15);
    // heights are rounded toward zero
    assert_eq!(height_over(Vec2Di::new(0, -8), Vec2Di::new(4, 2), 3), -5);
    assert_eq!(height_over(Vec2Di::new(0, -8), Vec2Di::new(4, 2), 1), 0);
}

#[test]
fn segments_are_drawn_where_they_are_highest() {
    let mut image: Image<RGB> = Image::new(8, 1);
    let mut ybuffer = vec![i32::MIN; 8];
    let mut a = Vec2Di::new(6, 4);
    let mut b = Vec2Di::new(1, 4);
    rasterize_2D(&mut image, &mut a, &mut b, INK, &mut ybuffer);
    // the ends are put in order, and the right end is left out
    assert_eq!((a, b), (Vec2Di::new(1, 4), Vec2Di::new(6, 4)));
    assert_eq!(drawn(&image, INK), (1..6).map(|x| (x, 0)).collect::<Vec<_>>());
    assert_eq!(ybuffer, vec![i32::MIN, 4, 4, 4, 4, 4, i32::MIN, i32::MIN]);

    // a segment that is higher on the left only
    let mut c = Vec2Di::new(0, 0);
    let mut d = Vec2Di::new(8, 8);
    rasterize_2D(&mut image, &mut c, &mut d, RED, &mut ybuffer);
    assert_eq!(ybuffer, vec![8, 7, 6, 5, 4, 4, 2, 1]);
    assert_eq!(drawn(&image, RED), vec![(0, 0), (1, 0), (2, 0), (3, 0), (6, 0), (7, 0)]);
    assert_eq!(drawn(&image, INK), vec![(4, 0), (5, 0)]);
}

#[test]
fn a_segment_over_no_column_draws_nothing() {
    let mut image: Image<RGB> = Image::new(4, 1);
    let mut ybuffer = vec![0; 4];
    let mut a = Vec2Di::new(-5, 9);
    let mut b = Vec2Di::new(-5, 3);
    rasterize_2D(&mut image, &mut a, &mut b, INK, &mut ybuffer);
    assert_eq!(drawn(&image, INK), vec![]);
    assert_eq!(ybuffer, vec![0; 4]);
    assert_eq!((a, b), (Vec2Di::new(-5, 9), Vec2Di::new(-5, 3)));
}

fn sweep(image: &mut Image<RGB>, pts: &mut [Vec2Di; 3]) -> Result<(), ImageError> {
    tinyrenderer::triangle_linesweep::triangle(image, pts, INK)
}

#[test]
fn sweep_sorts_the_corners_and_fills_the_upper_rows() {
    let mut image: Image<RGB> = Image::new(8, 8);
    let mut pts = [Vec2Di::new(5, 6), Vec2Di::new(1, 1), Vec2Di::new(4, 3)];
    assert_eq!(sweep(&mut image, &mut pts), Ok(()));
    assert_eq!(pts, [Vec2Di::new(1, 1), Vec2Di::new(4, 3), Vec2Di::new(5, 6)]);
    // rows 3 to 5, columns 1 to 3
    let mut want = Vec::new();
    for y in 3..6 {
        for x in 1..4 {
            want.push((x, y));
        }
    }
    assert_eq!(drawn(&image, INK), want);
}

#[test]
fn sweep_of_a_flat_or_upright_triangle_is_empty() {
    let mut image: Image<RGB> = Image::new(8, 8);
    let mut flat = [Vec2Di::new(1, 2), Vec2Di::new(5, 2), Vec2Di::new(3, 2)];
    assert_eq!(sweep(&mut image, &mut flat), Ok(()));
    let mut upright = [Vec2Di::new(2, 0), Vec2Di::new(2, 3), Vec2Di::new(6, 7)];
    assert_eq!(sweep(&mut image, &mut upright), Ok(()));
    // only the smaller column is negative: nothing is filled
    let mut half = [Vec2Di::new(-2, 0), Vec2Di::new(3, 1), Vec2Di::new(0, 4)];
    assert_eq!(sweep(&mut image, &mut half), Ok(()));
    assert_eq!(drawn(&image, INK), vec![]);
}

#[test]
fn sweep_ends_at_the_first_pixel_outside() {
    let mut image: Image<RGB> = Image::new(4, 4);
    let mut wide = [Vec2Di::new(1, 0), Vec2Di::new(6, 1), Vec2Di::new(0, 3)];
    assert_eq!(
        sweep(&mut image, &mut wide),
        Err(ImageError::OutOfBounds { x: 4, y: 1, width: 4, height: 4 })
    );
    assert_eq!(drawn(&image, INK), vec![(1, 1), (2, 1), (3, 1)]);

    let mut image: Image<RGB> = Image::new(4, 4);
    let mut left = [Vec2Di::new(-3, 0), Vec2Di::new(-1, 1), Vec2Di::new(0, 3)];
    assert_eq!(sweep(&mut image, &mut left), Err(ImageError::Negative { coordinate: -3 }));
    let mut below = [Vec2Di::new(0, -9), Vec2Di::new(2, -2), Vec2Di::new(0, 3)];
    assert_eq!(sweep(&mut image, &mut below), Err(ImageError::Negative { coordinate: -2 }));
    assert_eq!(drawn(&image, INK), vec![]);
}

#[test]
fn square_and_texture_coordinates() {
    assert_eq!(to_image(v3(-1.0, -1.0, 0.5), 200, 100), v3(0.0, 0.0, 0.5));
    assert_eq!(to_image(v3(1.0, 1.0, -2.0), 200, 100), v3(200.0, 100.0, -2.0));
    assert_eq!(to_image(v3(0.0, 0.5, 0.0), 200, 100), v3(100.0, 75.0, 0.0));
    assert_eq!(to_texture(v3(0.25, 0.75, 9.0), 8, 4), v3(2.0, 1.0, 0.0));
    assert_eq!(to_texture(v3(0.0, 0.0, 0.0), 8, 4), v3(0.0, 4.0, 0.0));
}

#[test]
fn textured_triangle() {
    let mut texture: Image<RGB> = Image::new(4, 4);
    for p in texture.data.iter_mut() {
        *p = RGB { r: 200, g: 100, b: 50 };
    }
    let mut image: Image<RGB> = Image::new(8, 8);
    let mut zbuffer = new_depth_buffer(8, 8);
    let face = [v3(-1.0, -1.0, 0.25), v3(0.0, -1.0, 0.25), v3(-1.0, 0.0, 0.25)];
    let uv = [v3(0.5, 0.5, 0.0), v3(0.5, 0.5, 0.0), v3(0.5, 0.5, 0.0)];
    let r = tinyrenderer::triangle_bary::triangle(&mut image, &texture, face, uv, &mut zbuffer, fx(0.5));
    assert_eq!(r, Ok(()));
    let lit = RGB { r: 100, g: 50, b: 25 };
    let mut want = Vec::new();
    for y in 0..8usize {
        for x in 0..8usize {
            if x + y <= 4 {
                want.push((x, y));
            }
        }
    }
    assert_eq!(drawn(&image, lit), want);
    assert!((zbuffer[0].raw - SCALE / 4).abs() <= 8);
    assert_eq!(zbuffer[7 + 7 * 8], Fixed::lowest());
    assert_eq!(image.get(7, 7).unwrap(), RGB::new());
}

#[test]
fn textured_triangle_fails_outside_the_texture() {
    let texture: Image<RGB> = Image::new(4, 4);
    let mut image: Image<RGB> = Image::new(8, 8);
    let mut zbuffer = new_depth_buffer(8, 8);
    let face = [v3(-1.0, -1.0, 0.25), v3(0.0, -1.0, 0.25), v3(-1.0, 0.0, 0.25)];
    // y = 0 lies below the last row of the texture
    let uv = [v3(0.5, 0.0, 0.0), v3(0.5, 0.0, 0.0), v3(0.5, 0.0, 0.0)];
    let r = tinyrenderer::triangle_bary::triangle(&mut image, &texture, face, uv, &mut zbuffer, fx(0.5));
    assert_eq!(r, Err(ShaderError::SampleOutOfBounds));
    assert!(image.data.iter().all(|p| *p == RGB::new()));
}

fn flat_face(corners: [Vec3Df; 3], uv: [Vec3Df; 3]) -> ObjFace {
    ObjFace { vertices: corners, texture_vertices: uv, normals: [Vec3Df::from_ints(0, 0, 1); 3] }
}

#[test]
fn faces_are_drawn_in_turn() {
    let mut texture: Image<RGB> = Image::new(4, 4);
    for (i, p) in texture.data.iter_mut().enumerate() {
        *p = if i < 8 { RGB { r: 200, g: 0, b: 0 } } else { RGB { r: 0, g: 0, b: 200 } };
    }
    let upper = [v3(0.5, 0.75, 0.0); 3];
    let lower = [v3(0.5, 0.25, 0.0); 3];
    let faces = vec![
        flat_face([v3(-1.0, -1.0, 0.25), v3(0.0, -1.0, 0.25), v3(-1.0, 0.0, 0.25)], upper),
        flat_face([v3(-1.0, -1.0, 0.5), v3(-0.5, -1.0, 0.5), v3(-1.0, -0.5, 0.5)], lower),
        // behind the first face
        flat_face([v3(-1.0, -1.0, 0.0), v3(1.0, -1.0, 0.0), v3(-1.0, 1.0, 0.0)], lower),
    ];
    let mut image: Image<RGB> = Image::new(8, 8);
    let mut zbuffer = new_depth_buffer(8, 8);
    assert_eq!(draw_faces(&mut image, &texture, &faces, fx(0.5), &mut zbuffer), Ok(()));
    let red = RGB { r: 100, g: 0, b: 0 };
    let blue = RGB { r: 0, g: 0, b: 100 };
    assert_eq!(image.get(0, 0).unwrap(), blue);
    assert_eq!(image.get(2, 0).unwrap(), blue);
    assert_eq!(image.get(3, 1).unwrap(), red);
    assert_eq!(image.get(4, 0).unwrap(), red);
    assert_eq!(image.get(5, 1).unwrap(), blue);
    assert_eq!(image.get(7, 7).unwrap(), RGB::new());
    assert_eq!(drawn(&image, red).len(), 15 - 6);
    assert_eq!(drawn(&image, blue).len(), 6 + 43 - 15);

    // the same by hand
    let mut by_hand: Image<RGB> = Image::new(8, 8);
    let mut z = new_depth_buffer(8, 8);
    for f in &faces {
        tinyrenderer::triangle_bary::triangle(
            &mut by_hand,
            &texture,
            f.vertices,
            f.texture_vertices,
            &mut z,
            fx(0.5),
        )
        .unwrap();
    }
    assert_eq!(by_hand.data, image.data);
    assert_eq!(z, zbuffer);
}

#[test]
fn drawing_stops_at_the_first_face_that_fails() {
    let texture: Image<RGB> = {
        let mut t: Image<RGB> = Image::new(4, 4);
        for p in t.data.iter_mut() {
            *p = RGB { r: 200, g: 200, b: 200 };
        }
        t
    };
    let inside = [v3(0.5, 0.5, 0.0); 3];
    let outside = [v3(0.5, 0.0, 0.0); 3];
    let faces = vec![
        flat_face([v3(-1.0, -1.0, 0.25), v3(-0.5, -1.0, 0.25), v3(-1.0, -0.5, 0.25)], inside),
        flat_face([v3(0.0, 0.0, 0.25), v3(0.5, 0.0, 0.25), v3(0.0, 0.5, 0.25)], outside),
        flat_face([v3(0.5, 0.5, 0.25), v3(0.75, 0.5, 0.25), v3(0.5, 0.75, 0.25)], inside),
    ];
    let mut image: Image<RGB> = Image::new(8, 8);
    let mut zbuffer = new_depth_buffer(8, 8);
    let r = draw_faces(&mut image, &texture, &faces, Fixed::from_int(1), &mut zbuffer);
    assert_eq!(r, Err(ShaderError::SampleOutOfBounds));
    let lit = RGB { r: 200, g: 200, b: 200 };
    assert_eq!(drawn(&image, lit), vec![(0, 0), (1, 0), (2, 0), (0, 1), (1, 1), (0, 2)]);
    assert_eq!(draw_faces(&mut image, &texture, &Vec::new(), fx(0.5), &mut zbuffer), Ok(()));
}
