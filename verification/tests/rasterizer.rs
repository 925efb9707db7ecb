use tinyrenderer::fixed::{Fixed, SCALE};
use tinyrenderer::rasterizer::{barycentric, bary_to_point, bounding_box, triangle, PixelBox};
use tinyrenderer::render::new_depth_buffer;
use tinyrenderer::shaders::{Shader, ShaderError};
use tinyrenderer::tgaimage::{ColorSpace, Image, RGB};
use tinyrenderer::types::{ObjFace, Vec3Df};

fn fx(v: f64) -> Fixed {
    Fixed::from_raw((v * SCALE as f64).floor() as i64)
}

fn v3(x: f64, y: f64, z: f64) -> Vec3Df {
    Vec3Df::new(fx(x), fx(y), fx(z))
}

/// A shader that paints one colour, discards on request, and fails where
/// the first weight is below a threshold.
struct Flat {
    color: RGB,
    discard: bool,
    fail_below: Option<Fixed>,
}

impl Flat {
    fn paint(color: RGB) -> Self {
        Flat { color, discard: false, fail_below: None }
    }
}

impl Shader<RGB> for Flat {
    fn vertex(&mut self, obj_face: ObjFace, _light_dir: Vec3Df) -> Result<[Vec3Df; 3], ShaderError> {
        Ok(obj_face.vertices)
    }

    fn fragment(&self, bary_coords: Vec3Df, color: &mut RGB) -> Result<bool, ShaderError> {
        if let Some(limit) = self.fail_below {
            if bary_coords.x.raw < limit.raw {
                return Err(ShaderError::SampleOutOfBounds);
            }
        }
        *color = self.color;
        Ok(self.discard)
    }

    // The ghost items of the contract; compiled code never calls them.
    fn wf(&self) -> bool {
        unreachable!()
    }

    fn vertex_result(&self, _: ObjFace, _: Vec3Df) -> Result<[Vec3Df; 3], ShaderError> {
        unreachable!()
    }

    fn vertex_state(&self, _: ObjFace, _: Vec3Df) -> Self {
        unreachable!()
    }

    fn fragment_result(&self, _: Vec3Df, _: RGB) -> Result<bool, ShaderError> {
        unreachable!()
    }

    fn fragment_color(&self, _: Vec3Df, _: RGB) -> RGB {
        unreachable!()
    }

    fn same_uniforms(&self, _: &Self) -> bool {
        unreachable!()
    }

    fn lemma_vertex_overwrites(&self, _: &Self, _: ObjFace, _: Vec3Df) {
        unreachable!()
    }
}

/// A shader that leaves the colour it is handed.
struct Keep;

impl Shader<RGB> for Keep {
    fn vertex(&mut self, f: ObjFace, _l: Vec3Df) -> Result<[Vec3Df; 3], ShaderError> {
        Ok(f.vertices)
    }

    fn fragment(&self, _b: Vec3Df, _c: &mut RGB) -> Result<bool, ShaderError> {
        Ok(false)
    }

    // The ghost items of the contract; compiled code never calls them.
    fn wf(&self) -> bool {
        unreachable!()
    }

    fn vertex_result(&self, _: ObjFace, _: Vec3Df) -> Result<[Vec3Df; 3], ShaderError> {
        unreachable!()
    }

    fn vertex_state(&self, _: ObjFace, _: Vec3Df) -> Self {
        unreachable!()
    }

    fn fragment_result(&self, _: Vec3Df, _: RGB) -> Result<bool, ShaderError> {
        unreachable!()
    }

    fn fragment_color(&self, _: Vec3Df, _: RGB) -> RGB {
        unreachable!()
    }

    fn same_uniforms(&self, _: &Self) -> bool {
        unreachable!()
    }

    fn lemma_vertex_overwrites(&self, _: &Self, _: ObjFace, _: Vec3Df) {
        unreachable!()
    }
}

const RED: RGB = RGB { r: 255, g: 0, b: 0 };
const BLUE: RGB = RGB { r: 0, g: 0, b: 255 };
const BLACK: RGB = RGB { r: 0, g: 0, b: 0 };

fn count(image: &Image<RGB>, color: RGB) -> usize {
    image.data.iter().filter(|p| **p == color).count()
}

#[test]
fn barycentric_weights_of_a_right_triangle() {
    let tri = [v3(0.0, 0.0, 0.0), v3(10.0, 0.0, 0.0), v3(0.0, 10.0, 0.0)];
    let w = barycentric(tri, v3(2.0, 3.0, 0.0));
    assert_eq!(w.x, fx(0.5));
    assert_eq!(w.y.raw, Fixed::from_int(1).div(Fixed::from_int(5)).raw);
    assert_eq!(w.z.raw, Fixed::from_int(3).div(Fixed::from_int(10)).raw);
    let corner = barycentric(tri, v3(10.0, 0.0, 0.0));
    assert_eq!(corner, Vec3Df::from_ints(0, 1, 0));
    let outside = barycentric(tri, v3(8.0, 8.0, 0.0));
    assert!(outside.x.raw < 0);
}

#[test]
fn barycentric_weights_of_an_interior_point_sum_to_one() {
    let tri = [v3(1.25, 2.5, 0.0), v3(17.75, 4.125, 0.0), v3(6.5, 19.0, 0.0)];
    let mut seen = 0;
    for x in 0..20 {
        for y in 0..20 {
            let w = barycentric(tri, Vec3Df::from_ints(x, y, 0));
            if w.x.raw >= 0 && w.y.raw >= 0 && w.z.raw >= 0 {
                let sum = w.x.raw + w.y.raw + w.z.raw;
                assert!(sum == SCALE || sum == SCALE - 1, "sum {sum} at {x},{y}");
                seen += 1;
            }
        }
    }
    assert!(seen > 50);
}

#[test]
fn barycentric_of_a_degenerate_triangle_is_negative() {
    let line = [v3(0.0, 0.0, 0.0), v3(5.0, 5.0, 0.0), v3(10.0, 10.0, 0.0)];
    assert_eq!(
        barycentric(line, v3(5.0, 5.0, 0.0)),
        Vec3Df::new(Fixed::from_int(-1), Fixed::from_int(1), Fixed::from_int(1))
    );
    let point = [v3(3.0, 3.0, 0.0), v3(3.0, 3.0, 0.0), v3(3.0, 3.0, 0.0)];
    assert_eq!(barycentric(point, v3(3.0, 3.0, 0.0)).x, Fixed::from_int(-1));
    // twice the area is one half: below the threshold of one
    let sliver = [v3(0.0, 0.0, 0.0), v3(1.0, 0.0, 0.0), v3(0.0, 0.5, 0.0)];
    assert_eq!(barycentric(sliver, v3(0.0, 0.0, 0.0)).x, Fixed::from_int(-1));
    // twice the area is exactly one: not degenerate
    let unit = [v3(0.0, 0.0, 0.0), v3(1.0, 0.0, 0.0), v3(0.0, 1.0, 0.0)];
    assert_eq!(barycentric(unit, v3(0.0, 0.0, 0.0)), Vec3Df::from_ints(1, 0, 0));
}

#[test]
fn bary_to_point_interpolates() {
    let tri = [v3(0.0, 0.0, 10.0), v3(10.0, 0.0, 20.0), v3(0.0, 10.0, 40.0)];
    let p = bary_to_point(&v3(0.5, 0.25, 0.25), &tri);
    assert_eq!(p, v3(2.5, 2.5, 20.0));
}

#[test]
fn bounding_box_is_clamped_to_the_image() {
    let tri = [v3(-5.0, 2.5, 0.0), v3(30.0, 4.0, 0.0), v3(7.0, 100.0, 0.0)];
    assert_eq!(bounding_box(16, 12, tri), PixelBox { min_x: 0, min_y: 2, max_x: 15, max_y: 11 });
    let inside = [v3(3.9, 2.5, 0.0), v3(6.1, 4.0, 0.0), v3(5.0, 7.99, 0.0)];
    assert_eq!(bounding_box(16, 12, inside), PixelBox { min_x: 3, min_y: 2, max_x: 6, max_y: 7 });
    assert_eq!(bounding_box(0, 0, inside), PixelBox { min_x: 0, min_y: 0, max_x: -1, max_y: -1 });
}

#[test]
fn triangle_fills_covered_pixels_only() {
    let mut image: Image<RGB> = Image::new(8, 8);
    let mut zbuffer = new_depth_buffer(8, 8);
    let tri = [v3(0.0, 0.0, 5.0), v3(4.0, 0.0, 5.0), v3(0.0, 4.0, 5.0)];
    triangle(&mut image, &Flat::paint(RED), tri, &mut zbuffer).unwrap();
    for y in 0..8usize {
        for x in 0..8usize {
            let want = if x + y <= 4 { RED } else { BLACK };
            assert_eq!(image.get(x, y).unwrap(), want, "pixel {x},{y}");
            let depth = zbuffer[x + y * 8];
            if x + y <= 4 {
                assert!((depth.raw - 5 * SCALE).abs() <= 8, "depth at {x},{y}");
            } else {
                assert_eq!(depth, Fixed::lowest());
            }
        }
    }
    assert_eq!(count(&image, RED), 15);
}

#[test]
fn depth_is_interpolated_between_the_corners() {
    let mut image: Image<RGB> = Image::new(8, 8);
    let mut zbuffer = new_depth_buffer(8, 8);
    let tri = [v3(0.0, 0.0, 0.0), v3(4.0, 0.0, 40.0), v3(0.0, 4.0, 80.0)];
    triangle(&mut image, &Flat::paint(RED), tri, &mut zbuffer).unwrap();
    assert_eq!(zbuffer[0], Fixed::from_int(0));
    assert_eq!(zbuffer[4], Fixed::from_int(40));
    assert_eq!(zbuffer[4 * 8], Fixed::from_int(80));
    assert_eq!(zbuffer[1 + 1 * 8], Fixed::from_int(30));
    assert_eq!(zbuffer[2 + 1 * 8], Fixed::from_int(40));
}

#[test]
fn nearer_triangle_wins_whatever_the_order() {
    let near = [v3(0.0, 0.0, 9.0), v3(6.0, 0.0, 9.0), v3(0.0, 6.0, 9.0)];
    let far = [v3(0.0, 0.0, 3.0), v3(6.0, 0.0, 3.0), v3(0.0, 6.0, 3.0)];

    let mut first: Image<RGB> = Image::new(8, 8);
    let mut z1 = new_depth_buffer(8, 8);
    triangle(&mut first, &Flat::paint(RED), near, &mut z1).unwrap();
    triangle(&mut first, &Flat::paint(BLUE), far, &mut z1).unwrap();

    let mut second: Image<RGB> = Image::new(8, 8);
    let mut z2 = new_depth_buffer(8, 8);
    triangle(&mut second, &Flat::paint(BLUE), far, &mut z2).unwrap();
    triangle(&mut second, &Flat::paint(RED), near, &mut z2).unwrap();

    assert_eq!(first.data, second.data);
    assert_eq!(z1, z2);
    assert_eq!(count(&first, BLUE), 0);
    assert_eq!(count(&first, RED), 28);
    assert!((z1[0].raw - 9 * SCALE).abs() <= 8);
}

#[test]
fn equal_depth_keeps_the_earlier_pixel() {
    let tri = [v3(0.0, 0.0, 4.0), v3(6.0, 0.0, 4.0), v3(0.0, 6.0, 4.0)];
    let mut image: Image<RGB> = Image::new(8, 8);
    let mut zbuffer = new_depth_buffer(8, 8);
    triangle(&mut image, &Flat::paint(RED), tri, &mut zbuffer).unwrap();
    let depth_after_first = zbuffer.clone();
    triangle(&mut image, &Flat::paint(BLUE), tri, &mut zbuffer).unwrap();
    assert_eq!(count(&image, BLUE), 0);
    assert_eq!(count(&image, RED), 28);
    assert_eq!(zbuffer, depth_after_first);
}

#[test]
fn depth_buffer_never_decreases() {
    let mut image: Image<RGB> = Image::new(16, 16);
    let mut zbuffer = new_depth_buffer(16, 16);
    let tris = [
        [v3(1.0, 1.0, 50.0), v3(14.0, 2.0, 10.0), v3(3.0, 13.0, 90.0)],
        [v3(0.0, 15.0, 70.0), v3(15.0, 15.0, 70.0), v3(8.0, 0.0, 20.0)],
        [v3(2.0, 2.0, 5.0), v3(12.0, 3.0, 200.0), v3(6.0, 12.0, 100.0)],
    ];
    for tri in tris {
        let before = zbuffer.clone();
        let pixels_before = image.data.clone();
        triangle(&mut image, &Flat::paint(RED), tri, &mut zbuffer).unwrap();
        for i in 0..zbuffer.len() {
            assert!(zbuffer[i].raw >= before[i].raw);
            if zbuffer[i] == before[i] {
                assert_eq!(image.data[i], pixels_before[i]);
            }
        }
    }
}

#[test]
fn degenerate_triangle_rasterizes_no_pixel() {
    let mut image: Image<RGB> = Image::new(16, 16);
    let mut zbuffer = new_depth_buffer(16, 16);
    let before = zbuffer.clone();
    let line = [v3(1.0, 1.0, 5.0), v3(6.0, 6.0, 5.0), v3(12.0, 12.0, 5.0)];
    triangle(&mut image, &Flat::paint(RED), line, &mut zbuffer).unwrap();
    let point = [v3(4.0, 4.0, 5.0), v3(4.0, 4.0, 5.0), v3(4.0, 4.0, 5.0)];
    triangle(&mut image, &Flat::paint(RED), point, &mut zbuffer).unwrap();
    let flat = [v3(2.0, 7.0, 5.0), v3(9.0, 7.0, 5.0), v3(14.0, 7.0, 5.0)];
    triangle(&mut image, &Flat::paint(RED), flat, &mut zbuffer).unwrap();
    assert_eq!(count(&image, RED), 0);
    assert_eq!(zbuffer, before);
}

#[test]
fn discarded_pixels_are_not_written() {
    let mut image: Image<RGB> = Image::new(8, 8);
    let mut zbuffer = new_depth_buffer(8, 8);
    let before = zbuffer.clone();
    let tri = [v3(0.0, 0.0, 5.0), v3(4.0, 0.0, 5.0), v3(0.0, 4.0, 5.0)];
    let shader = Flat { color: RED, discard: true, fail_below: None };
    triangle(&mut image, &shader, tri, &mut zbuffer).unwrap();
    assert_eq!(count(&image, RED), 0);
    assert_eq!(zbuffer, before);
}

#[test]
fn shader_failure_ends_the_triangle() {
    let mut image: Image<RGB> = Image::new(8, 8);
    let mut zbuffer = new_depth_buffer(8, 8);
    let tri = [v3(0.0, 0.0, 5.0), v3(4.0, 0.0, 5.0), v3(0.0, 4.0, 5.0)];
    // the weight of the first corner at (x, y) is 1 - (x + y) / 4
    let shader = Flat { color: RED, discard: false, fail_below: Some(fx(0.4)) };
    let r = triangle(&mut image, &shader, tri, &mut zbuffer);
    assert_eq!(r, Err(ShaderError::SampleOutOfBounds));
    // column 0 is visited from the top: (0,0), (0,1), (0,2) pass, (0,3) fails
    assert_eq!(count(&image, RED), 3);
    assert_eq!(image.get(0, 0).unwrap(), RED);
    assert_eq!(image.get(0, 2).unwrap(), RED);
    assert_eq!(image.get(0, 3).unwrap(), BLACK);
    assert_eq!(image.get(1, 0).unwrap(), BLACK);
}

#[test]
fn triangle_outside_the_image_writes_nothing() {
    let mut image: Image<RGB> = Image::new(8, 8);
    let mut zbuffer = new_depth_buffer(8, 8);
    let tri = [v3(20.0, 20.0, 5.0), v3(30.0, 20.0, 5.0), v3(20.0, 30.0, 5.0)];
    triangle(&mut image, &Flat::paint(RED), tri, &mut zbuffer).unwrap();
    assert_eq!(count(&image, RED), 0);
    let mut empty: Image<RGB> = Image::new(0, 0);
    let mut none = new_depth_buffer(0, 0);
    triangle(&mut empty, &Flat::paint(RED), tri, &mut none).unwrap();
    assert!(empty.data.is_empty());
}

#[test]
fn fragment_starts_from_white() {
    let mut image: Image<RGB> = Image::new(4, 4);
    let mut zbuffer = new_depth_buffer(4, 4);
    let tri = [v3(0.0, 0.0, 5.0), v3(3.0, 0.0, 5.0), v3(0.0, 3.0, 5.0)];
    triangle(&mut image, &Keep, tri, &mut zbuffer).unwrap();
    assert_eq!(image.get(0, 0).unwrap(), RGB::white());
    assert_eq!(image.get(3, 3).unwrap(), RGB::new());
}

#[test]
fn weights_sum_to_one_on_screens_of_up_to_8192_pixels() {
    let tri = [v3(-8192.0, 8192.0, 0.0), v3(8192.0, 8191.5, 0.0), v3(-17.25, -8192.0, 0.0)];
    let mut seen = 0;
    for x in (-8192..=8192).step_by(257) {
        for y in (-8192..=8192).step_by(263) {
            let w = barycentric(tri, Vec3Df::from_ints(x, y, 0));
            if w.x.raw >= 0 && w.y.raw >= 0 && w.z.raw >= 0 {
                let sum = w.x.raw + w.y.raw + w.z.raw;
                assert!(sum == SCALE || sum == SCALE - 1, "sum {sum} at {x},{y}");
                seen += 1;
            }
        }
    }
    assert!(seen > 1000);
}

#[test]
fn weights_of_a_triangle_far_beyond_the_screen_saturate() {
    // products of these coordinates leave the range of the numbers
    let tri = [
        v3(-53343.0, -412133.0, 0.0),
        v3(-191167.0, 931063.0, 0.0),
        v3(69267.0, -379275.0, 0.0),
    ];
    let w = barycentric(tri, Vec3Df::from_ints(27, 519, 0));
    assert!(w.x.raw >= 0 && w.y.raw >= 0 && w.z.raw >= 0);
    assert_eq!((w.x.raw, w.y.raw, w.z.raw), (0, 787704376, SCALE));
}

#[test]
fn weights_of_points_outside_the_triangle_sum_to_one_too() {
    let tri = [v3(100.5, 200.25, 0.0), v3(900.0, 310.0, 0.0), v3(420.75, 1000.0, 0.0)];
    let mut outside = 0;
    for x in (-8192..=8192).step_by(331) {
        for y in (-8192..=8192).step_by(337) {
            let w = barycentric(tri, Vec3Df::from_ints(x, y, 0));
            let sum = w.x.raw + w.y.raw + w.z.raw;
            assert!(sum == SCALE || sum == SCALE - 1, "sum {sum} at {x},{y}");
            if w.x.raw < 0 || w.y.raw < 0 || w.z.raw < 0 {
                outside += 1;
            }
        }
    }
    assert!(outside > 2000);
    // a degenerate triangle: -1 + 1 + 1
    let line = [v3(0.0, 0.0, 0.0), v3(5.0, 5.0, 0.0), v3(10.0, 10.0, 0.0)];
    let w = barycentric(line, v3(3.0, 7.0, 0.0));
    assert_eq!(w.x.raw + w.y.raw + w.z.raw, SCALE);
}
