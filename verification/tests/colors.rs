use tinyrenderer::fixed::{Fixed, SCALE};
use tinyrenderer::model::{decode_component, decode_normal, uv_in_range, uv_to_pixel, Model};
use tinyrenderer::tgaimage::{shade_channel, ColorSpace, Grayscale, Image, ImageError, RGB, RGBA};
use tinyrenderer::types::{Vec2Df, Vec3Df};

fn fx(v: f64) -> Fixed {
    Fixed::from_raw((v * SCALE as f64).floor() as i64)
}

fn to_f64(v: Fixed) -> f64 {
    v.raw as f64 / SCALE as f64
}

#[test]
fn shading_multiplies_and_rounds_down() {
    assert_eq!(shade_channel(200, fx(0.5)), 100);
    assert_eq!(shade_channel(255, fx(0.25)), 63);
    assert_eq!(shade_channel(255, Fixed::from_int(1)), 255);
    assert_eq!(shade_channel(255, Fixed::from_int(0)), 0);
    assert_eq!(shade_channel(77, fx(-0.5)), 0);
}

#[test]
fn shading_above_one_changes_nothing() {
    assert_eq!(shade_channel(200, fx(1.5)), 200);
    assert_eq!(shade_channel(200, Fixed::from_raw(SCALE + 1)), 200);
    let mut c = RGB { r: 10, g: 20, b: 30 };
    c.shade(Fixed::from_int(7));
    assert_eq!(c, RGB { r: 10, g: 20, b: 30 });
}

#[test]
fn every_colour_space_shades_every_channel() {
    let mut g = Grayscale { i: 200 };
    g.shade(fx(0.5));
    assert_eq!(g, Grayscale { i: 100 });
    let mut c = RGB { r: 200, g: 100, b: 50 };
    c.shade(fx(0.5));
    assert_eq!(c, RGB { r: 100, g: 50, b: 25 });
    let mut a = RGBA { r: 200, g: 100, b: 50, a: 255 };
    a.shade(fx(0.5));
    assert_eq!(a, RGBA { r: 100, g: 50, b: 25, a: 127 });
}

#[test]
fn black_white_and_sizes() {
    assert_eq!(Grayscale::new(), Grayscale { i: 0 });
    assert_eq!(Grayscale::white(), Grayscale { i: 255 });
    assert_eq!(RGB::new(), RGB { r: 0, g: 0, b: 0 });
    assert_eq!(RGB::white(), RGB { r: 255, g: 255, b: 255 });
    assert_eq!(RGBA::new(), RGBA { r: 0, g: 0, b: 0, a: 0 });
    assert_eq!(RGBA::white(), RGBA { r: 255, g: 255, b: 255, a: 255 });
    assert_eq!((Grayscale::BPP, RGB::BPP, RGBA::BPP), (1, 3, 4));
    assert_eq!((Grayscale::bpp(), RGB::bpp(), RGBA::bpp()), (1, 3, 4));
}

#[test]
fn conversion_from_rgba() {
    let c = RGBA { r: 10, g: 200, b: 30, a: 40 };
    assert_eq!(Grayscale::from_rgba(c), Grayscale { i: 200 });
    assert_eq!(Grayscale::from_rgba(RGBA { r: 1, g: 2, b: 3, a: 250 }), Grayscale { i: 250 });
    assert_eq!(RGB::from_rgba(c), RGB { r: 10, g: 200, b: 30 });
    assert_eq!(RGBA::from_rgba(c), c);
}

#[test]
fn channel_lists() {
    assert_eq!(Grayscale { i: 9 }.to_vec(), vec![9]);
    assert_eq!(RGB { r: 1, g: 2, b: 3 }.to_vec(), vec![1, 2, 3]);
    assert_eq!(RGBA { r: 1, g: 2, b: 3, a: 4 }.to_vec(), vec![1, 2, 3, 4]);
    let mut c = RGB::new();
    assert_eq!(c.from_vec(vec![7, 8, 9]), Ok(()));
    assert_eq!(c, RGB { r: 7, g: 8, b: 9 });
    let mut a = RGBA::new();
    assert_eq!(a.from_vec(vec![7, 8, 9, 10]), Ok(()));
    assert_eq!(a, RGBA { r: 7, g: 8, b: 9, a: 10 });
    let mut g = Grayscale::new();
    assert_eq!(g.from_vec(vec![5]), Ok(()));
    assert_eq!(g, Grayscale { i: 5 });
}

#[test]
fn channel_lists_of_the_wrong_length_are_refused() {
    let mut c = RGB { r: 1, g: 2, b: 3 };
    assert_eq!(c.from_vec(vec![7, 8]), Err(ImageError::ChannelCount { expected: 3, found: 2 }));
    assert_eq!(c, RGB { r: 1, g: 2, b: 3 });
    let mut a = RGBA::new();
    assert_eq!(a.from_vec(vec![1, 2, 3]), Err(ImageError::ChannelCount { expected: 4, found: 3 }));
    let mut g = Grayscale::new();
    assert_eq!(g.from_vec(vec![]), Err(ImageError::ChannelCount { expected: 1, found: 0 }));
}

#[test]
fn stored_bytes_are_blue_first() {
    let mut out = vec![0xEE];
    Grayscale { i: 9 }.write_bytes(&mut out);
    RGB { r: 1, g: 2, b: 3 }.write_bytes(&mut out);
    RGBA { r: 4, g: 5, b: 6, a: 7 }.write_bytes(&mut out);
    assert_eq!(out, vec![0xEE, 9, 3, 2, 1, 6, 5, 4, 7]);
}

#[test]
fn image_pixels_are_stored_row_by_row() {
    let mut image: Image<RGB> = Image::new(4, 3);
    assert_eq!(image.data.len(), 12);
    assert!(image.data.iter().all(|p| *p == RGB::new()));
    let c = RGB { r: 1, g: 2, b: 3 };
    assert_eq!(image.set(2, 1, c), Ok(()));
    assert_eq!(image.data[2 + 4], c);
    assert_eq!(image.get(2, 1), Ok(c));
    assert_eq!(image.get(1, 2), Ok(RGB::new()));
    assert_eq!(image.data.iter().filter(|p| **p == c).count(), 1);
}

#[test]
fn image_refuses_pixels_outside() {
    let mut image: Image<Grayscale> = Image::new(4, 3);
    let oob = |x, y| ImageError::OutOfBounds { x, y, width: 4, height: 3 };
    assert_eq!(image.set(4, 0, Grayscale::white()), Err(oob(4, 0)));
    assert_eq!(image.set(0, 3, Grayscale::white()), Err(oob(0, 3)));
    assert_eq!(image.get(4, 2), Err(oob(4, 2)));
    assert_eq!(image.get(3, 3), Err(oob(3, 3)));
    assert!(image.data.iter().all(|p| *p == Grayscale::new()));
    let mut empty: Image<Grayscale> = Image::new(0, 5);
    assert_eq!(
        empty.set(0, 0, Grayscale::white()),
        Err(ImageError::OutOfBounds { x: 0, y: 0, width: 0, height: 5 })
    );
}

#[test]
fn texture_coordinates_to_pixels() {
    assert_eq!(
        uv_to_pixel(100, 50, fx(0.25), fx(0.5)),
        Vec2Df::new(Fixed::from_int(25), Fixed::from_int(25))
    );
    // row zero is the row of y = 1
    assert_eq!(
        uv_to_pixel(100, 50, fx(0.999), Fixed::from_int(1)),
        Vec2Df::new(Fixed::from_int(99), Fixed::from_int(0))
    );
    assert_eq!(
        uv_to_pixel(100, 50, Fixed::from_int(0), Fixed::from_int(0)),
        Vec2Df::new(Fixed::from_int(0), Fixed::from_int(50))
    );
    assert_eq!(
        uv_to_pixel(1024, 1024, fx(0.3), fx(0.7)),
        Vec2Df::new(Fixed::from_int(307), Fixed::from_int(307))
    );
    assert!(uv_in_range(Fixed::from_int(0), Fixed::from_int(1)));
    assert!(!uv_in_range(fx(-0.001), fx(0.5)));
    assert!(!uv_in_range(fx(0.5), fx(1.001)));
}

#[test]
fn normal_map_texels_decode_to_vectors() {
    assert_eq!(decode_component(255), Fixed::from_int(1));
    assert_eq!(decode_component(0), Fixed::from_int(-1));
    assert!((to_f64(decode_component(128)) - (2.0 * 128.0 / 255.0 - 1.0)).abs() < 1e-9);
    let n = decode_normal(RGB { r: 255, g: 0, b: 128 });
    assert_eq!(n.x, Fixed::from_int(1));
    assert_eq!(n.y, Fixed::from_int(-1));
    assert_eq!(n.z, decode_component(128));
}

fn model() -> Model<RGB> {
    let mut texture_image: Image<RGB> = Image::new(4, 2);
    let mut normal_image: Image<RGB> = Image::new(4, 2);
    let mut tangent_normal_image: Image<RGB> = Image::new(2, 2);
    let mut specular_image: Image<Grayscale> = Image::new(4, 2);
    texture_image.set(3, 1, RGB { r: 9, g: 8, b: 7 }).unwrap();
    normal_image.set(1, 0, RGB { r: 255, g: 0, b: 255 }).unwrap();
    tangent_normal_image.set(0, 1, RGB { r: 0, g: 255, b: 0 }).unwrap();
    specular_image.set(2, 1, Grayscale { i: 37 }).unwrap();
    Model { texture_image, normal_image, tangent_normal_image, specular_image }
}

#[test]
fn model_samples_its_images() {
    let m = model();
    assert_eq!(m.get_texture_color(3, 1), RGB { r: 9, g: 8, b: 7 });
    assert_eq!(m.get_texture_color(0, 0), RGB::new());
    assert_eq!(m.get_normal(1, 0), Vec3Df::from_ints(1, -1, 1));
    assert_eq!(m.get_tangent_normal(0, 1), Vec3Df::from_ints(-1, 1, -1));
    assert_eq!(m.get_specularity(2, 1), Fixed::from_int(37));
    assert_eq!(m.get_specularity(0, 0), Fixed::from_int(0));
}

#[test]
fn model_maps_texture_coordinates_to_each_image() {
    let m = model();
    let at = |x: i32, y: i32| Vec2Df::new(Fixed::from_int(x), Fixed::from_int(y));
    assert_eq!(m.texture_pixel_coords(fx(0.5), fx(0.75)), at(2, 0));
    assert_eq!(m.normal_pixel_coords(fx(0.5), fx(0.25)), at(2, 1));
    assert_eq!(m.tang_normal_pixel_coords(fx(0.5), fx(0.25)), at(1, 1));
    assert_eq!(m.specular_pixel_coords(fx(0.99), fx(0.75)), at(3, 0));
}

#[test]
fn a_colour_is_built_back_from_its_channel_list() {
    let g = Grayscale { i: 77 };
    let mut back = Grayscale::new();
    assert_eq!(back.from_vec(g.to_vec()), Ok(()));
    assert_eq!(back, g);
    let c = RGB { r: 1, g: 2, b: 3 };
    let mut back = RGB::new();
    assert_eq!(back.from_vec(c.to_vec()), Ok(()));
    assert_eq!(back, c);
    let a = RGBA { r: 1, g: 2, b: 3, a: 4 };
    let mut back = RGBA::new();
    assert_eq!(back.from_vec(a.to_vec()), Ok(()));
    assert_eq!(back, a);
}

#[test]
fn every_map_is_addressed_with_its_own_size() {
    let m: Model<RGB> = Model {
        texture_image: Image::new(4, 8),
        normal_image: Image::new(4, 4),
        tangent_normal_image: Image::new(2, 6),
        specular_image: Image::new(8, 2),
    };
    let at = |x: i32, y: i32| Vec2Df::new(Fixed::from_int(x), Fixed::from_int(y));
    assert_eq!(m.texture_pixel_coords(fx(0.5), fx(0.25)), at(2, 6));
    assert_eq!(m.normal_pixel_coords(fx(0.5), fx(0.25)), at(2, 3));
    assert_eq!(m.tang_normal_pixel_coords(fx(0.5), fx(0.25)), at(1, 4));
    assert_eq!(m.specular_pixel_coords(fx(0.5), fx(0.25)), at(4, 1));
}
