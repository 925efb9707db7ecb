use tinyrenderer::rle::rle_encode;
use tinyrenderer::tga::{
    convert_from_tinytga, footer_offsets_fit, has_footer, image_from_raw, le_u32, tga_footer,
    tga_header, unpack, RawImage, RawPixel, TgaError,
};
use tinyrenderer::tgaimage::{ColorSpace, Grayscale, Image, RGB, RGBA};

fn gradient<T: ColorSpace + Copy>(width: usize, height: usize, f: fn(usize, usize) -> T) -> Image<T> {
    let mut image: Image<T> = Image::new(width, height);
    for y in 0..height {
        for x in 0..width {
            image.set(x, y, f(x, y)).unwrap();
        }
    }
    image
}

fn rgb_at(x: usize, y: usize) -> RGB {
    RGB { r: (x * 40) as u8, g: (y * 60) as u8, b: ((x / 2) * 100 + 7) as u8 }
}

fn rgba_at(x: usize, y: usize) -> RGBA {
    RGBA { r: (x / 3) as u8, g: (y / 2) as u8, b: 200, a: (255 - y) as u8 }
}

fn gray_at(x: usize, y: usize) -> Grayscale {
    Grayscale { i: if x < 3 { 10 } else { (x + y) as u8 } }
}

/// Decodes run-length packets as a TGA file holds them.
fn decode_packets(packets: &[u8], bpp: usize) -> Vec<u8> {
    let mut out = Vec::new();
    let mut i = 0;
    while i < packets.len() {
        let header = packets[i] as usize;
        i += 1;
        if header < 128 {
            let size = (header + 1) * bpp;
            out.extend_from_slice(&packets[i..i + size]);
            i += size;
        } else {
            for _ in 0..header - 127 {
                out.extend_from_slice(&packets[i..i + bpp]);
            }
            i += bpp;
        }
    }
    out
}

#[test]
fn header_layout() {
    assert_eq!(
        tga_header(1024, 600, 3, true, false),
        vec![0, 0, 2, 0, 0, 0, 0, 0, 0, 0, 0, 0, 0x00, 0x04, 0x58, 0x02, 24, 0x00]
    );
    assert_eq!(
        tga_header(5, 7, 1, false, true),
        vec![0, 0, 11, 0, 0, 0, 0, 0, 0, 0, 0, 0, 5, 0, 7, 0, 8, 0x20]
    );
    assert_eq!(tga_header(1, 1, 1, false, false)[2], 3);
    assert_eq!(tga_header(1, 1, 4, false, true)[2], 10);
    assert_eq!(tga_header(1, 1, 4, false, true)[16], 32);
    // only the low sixteen bits of the size are stored
    assert_eq!(tga_header(65536 + 258, 65535, 3, true, false)[12..16], [2, 1, 255, 255]);
}

#[test]
fn footer_layout() {
    let mut want = vec![0u8; 8];
    want.extend_from_slice(b"TRUEVISION-XFILE.\0");
    assert_eq!(tga_footer(), want);
}

#[test]
fn pixel_bytes_are_stored_row_by_row() {
    let image = gradient(3, 2, rgb_at);
    let data = image.data_vec();
    assert_eq!(data.len(), 18);
    assert_eq!(data[0..3], [7, 0, 0]);
    assert_eq!(data[3..6], [7, 0, 40]);
    assert_eq!(data[6..9], [107, 0, 80]);
    assert_eq!(data[9..12], [7, 60, 0]);
    let gray = gradient(4, 1, gray_at);
    assert_eq!(gray.data_vec(), vec![10, 10, 10, 3]);
}

#[test]
fn run_length_packets() {
    assert_eq!(rle_encode(&vec![5, 5, 5, 7, 8, 9, 9], 7, 1), vec![130, 5, 1, 7, 8, 129, 9]);
    assert_eq!(rle_encode(&vec![1, 2], 2, 1), vec![1, 1, 2]);
    assert_eq!(rle_encode(&vec![3], 1, 1), vec![0, 3]);
    assert_eq!(rle_encode(&vec![], 0, 1), Vec::<u8>::new());
    assert_eq!(rle_encode(&vec![4, 4], 2, 1), vec![129, 4]);
    assert_eq!(rle_encode(&vec![1, 2, 3, 1, 2, 3, 9, 9, 9], 3, 3), vec![129, 1, 2, 3, 0, 9, 9, 9]);
    // pixels that share bytes but differ as a whole
    assert_eq!(rle_encode(&vec![1, 1, 1, 2], 2, 2), vec![1, 1, 1, 1, 2]);
}

#[test]
fn packets_hold_at_most_128_pixels() {
    let same = vec![7u8; 129];
    assert_eq!(rle_encode(&same, 129, 1), vec![255, 7, 0, 7]);
    let rising: Vec<u8> = (0..200u32).map(|i| i as u8).collect();
    let packets = rle_encode(&rising, 200, 1);
    assert_eq!(packets[0], 127);
    assert_eq!(packets[1..129], rising[0..128]);
    assert_eq!(packets[129], 71);
    assert_eq!(packets.len(), 202);
    // 128 pixels of four bytes in one raw packet
    let wide: Vec<u8> = (0..128u32 * 4).map(|i| (i / 4) as u8).collect();
    let packets = rle_encode(&wide, 128, 4);
    assert_eq!(packets[0], 127);
    assert_eq!(packets.len(), 1 + 512);
}

#[test]
fn decoding_the_packets_gives_the_data_back() {
    let mut state = 12345u32;
    for bpp in 1..=4usize {
        for n in [0usize, 1, 2, 3, 17, 128, 129, 300] {
            let mut data = Vec::new();
            for _ in 0..n {
                state = state.wrapping_mul(1103515245).wrapping_add(12345);
                // few distinct pixels, so that runs occur
                let v = ((state >> 16) % 3) as u8;
                for _ in 0..bpp {
                    data.push(v);
                }
            }
            let packets = rle_encode(&data, n, bpp);
            assert_eq!(decode_packets(&packets, bpp), data, "bpp {bpp}, n {n}");
        }
    }
}

#[test]
fn unpack_splits_the_bytes() {
    assert_eq!(unpack(0x11223344), RGBA { a: 0x11, r: 0x22, g: 0x33, b: 0x44 });
    assert_eq!(unpack(0xFF), RGBA { a: 0, r: 0, g: 0, b: 255 });
    assert_eq!(unpack(u32::MAX), RGBA::white());
}

#[test]
fn written_files_read_back() {
    let rgb = gradient(7, 5, rgb_at);
    let rgba = gradient(9, 4, rgba_at);
    let gray = gradient(6, 6, gray_at);
    for rle in [false, true] {
        let back: Image<RGB> = convert_from_tinytga(&rgb.tga_file_bytes(false, rle)).unwrap();
        assert_eq!((back.width, back.height), (7, 5));
        assert_eq!(back.data, rgb.data);
        let back: Image<RGBA> = convert_from_tinytga(&rgba.tga_file_bytes(false, rle)).unwrap();
        assert_eq!((back.width, back.height), (9, 4));
        assert_eq!(back.data, rgba.data);
        let back: Image<Grayscale> = convert_from_tinytga(&gray.tga_file_bytes(false, rle)).unwrap();
        assert_eq!((back.width, back.height), (6, 6));
        assert_eq!(back.data, gray.data);
    }
}

#[test]
fn flipped_files_read_back_upside_down() {
    let rgb = gradient(4, 3, rgb_at);
    for rle in [false, true] {
        let back: Image<RGB> = convert_from_tinytga(&rgb.tga_file_bytes(true, rle)).unwrap();
        for y in 0..3 {
            for x in 0..4 {
                assert_eq!(back.get(x, y).unwrap(), rgb.get(x, 2 - y).unwrap());
            }
        }
    }
}

#[test]
fn files_convert_to_other_colour_spaces() {
    let rgba = gradient(4, 4, rgba_at);
    let bytes = rgba.tga_file_bytes(false, true);
    let as_rgb: Image<RGB> = convert_from_tinytga(&bytes).unwrap();
    let as_gray: Image<Grayscale> = convert_from_tinytga(&bytes).unwrap();
    for y in 0..4 {
        for x in 0..4 {
            let c = rgba.get(x, y).unwrap();
            assert_eq!(as_rgb.get(x, y).unwrap(), RGB { r: c.r, g: c.g, b: c.b });
            assert_eq!(as_gray.get(x, y).unwrap(), Grayscale { i: 255 - y as u8 });
        }
    }
}

#[test]
fn file_is_header_data_footer() {
    let gray = gradient(4, 1, gray_at);
    let plain = gray.tga_file_bytes(false, false);
    assert_eq!(plain.len(), 18 + 4 + 26);
    assert_eq!(plain[0..18], tga_header(4, 1, 1, false, false)[..]);
    assert_eq!(plain[18..22], [10, 10, 10, 3]);
    assert_eq!(plain[22..], tga_footer()[..]);
    let packed = gray.tga_file_bytes(true, true);
    assert_eq!(packed[0..18], tga_header(4, 1, 1, true, true)[..]);
    assert_eq!(packed[18..22], [130, 10, 0, 3]);
    assert_eq!(packed[22..], tga_footer()[..]);
}

#[test]
fn bytes_that_are_no_tga_file_are_refused() {
    let r: Result<Image<RGB>, TgaError> = convert_from_tinytga(&[1, 2, 3]);
    assert_eq!(r.err(), Some(TgaError::Malformed));
    let r: Result<Image<RGB>, TgaError> = convert_from_tinytga(&[]);
    assert_eq!(r.err(), Some(TgaError::Malformed));
    // an image type that does not exist
    let mut bytes = gradient(2, 2, rgb_at).tga_file_bytes(false, false);
    bytes[2] = 77;
    let r: Result<Image<RGB>, TgaError> = convert_from_tinytga(&bytes);
    assert_eq!(r.err(), Some(TgaError::Malformed));
}

#[test]
fn pixels_are_placed_by_their_position() {
    let raw = RawImage {
        width: 3,
        height: 2,
        pixels: vec![
            RawPixel { x: 2, y: 1, color: 0x00010203 },
            RawPixel { x: 0, y: 0, color: 0x00040506 },
            RawPixel { x: 2, y: 1, color: 0x00070809 },
        ],
    };
    let image: Image<RGB> = image_from_raw(&raw).unwrap();
    assert_eq!((image.width, image.height), (3, 2));
    assert_eq!(image.get(0, 0).unwrap(), RGB { r: 4, g: 5, b: 6 });
    assert_eq!(image.get(2, 1).unwrap(), RGB { r: 7, g: 8, b: 9 });
    assert_eq!(image.get(1, 1).unwrap(), RGB::new());
}

#[test]
fn pixels_outside_the_header_size_are_refused() {
    let at = |x, y| RawImage { width: 3, height: 2, pixels: vec![RawPixel { x, y, color: 1 }] };
    let outside = Some(TgaError::PixelOutOfBounds);
    assert_eq!(image_from_raw::<RGB>(&at(0, 2)).err(), outside);
    assert_eq!(image_from_raw::<RGB>(&at(-1, 0)).err(), outside);
    assert_eq!(image_from_raw::<RGB>(&at(6, 0)).err(), outside);
    assert_eq!(image_from_raw::<RGB>(&at(i32::MIN, i32::MIN)).err(), outside);
    // a position is judged by the place it leads to
    assert!(image_from_raw::<RGB>(&at(5, 0)).is_ok());
    assert!(image_from_raw::<RGB>(&at(-1, 1)).is_ok());
    let empty = RawImage { width: 0, height: 4, pixels: vec![RawPixel { x: 0, y: 0, color: 1 }] };
    assert_eq!(image_from_raw::<RGB>(&empty).err(), outside);
    let none = RawImage { width: 0, height: 4, pixels: vec![] };
    assert!(image_from_raw::<RGB>(&none).unwrap().data.is_empty());
}

#[test]
fn footer_offsets_must_lie_inside_the_file() {
    // a 1 by 1 image whose footer names an extension area far behind its end
    let mut bytes: Vec<u8> = vec![0, 0, 2, 0, 0, 0, 0, 0, 0, 0, 0, 0, 1, 0, 1, 0, 24, 0];
    bytes.extend_from_slice(&[10, 20, 30]);
    bytes.extend_from_slice(&[0xFF, 0xFF, 0xFF, 0xFF, 0, 0, 0, 0]);
    bytes.extend_from_slice(b"TRUEVISION-XFILE.\0");
    assert_eq!(bytes.len(), 47);
    assert!(has_footer(&bytes));
    assert!(!footer_offsets_fit(&bytes));
    let r: Result<Image<RGB>, TgaError> = convert_from_tinytga(&bytes);
    assert_eq!(r.err(), Some(TgaError::Malformed));

    // the same for the developer directory
    bytes[18 + 3..18 + 3 + 8].copy_from_slice(&[0, 0, 0, 0, 48, 0, 0, 0]);
    assert!(!footer_offsets_fit(&bytes));
    let r: Result<Image<RGB>, TgaError> = convert_from_tinytga(&bytes);
    assert_eq!(r.err(), Some(TgaError::Malformed));

    // offsets up to the length of the file are taken
    bytes[18 + 3..18 + 3 + 8].copy_from_slice(&[47, 0, 0, 0, 21, 0, 0, 0]);
    assert!(footer_offsets_fit(&bytes));
    let image: Image<RGB> = convert_from_tinytga(&bytes).unwrap();
    assert_eq!((image.width, image.height), (1, 1));

    // without the signature the last bytes are no footer
    bytes[18 + 3..18 + 3 + 8].copy_from_slice(&[0xFF, 0xFF, 0xFF, 0xFF, 0, 0, 0, 0]);
    bytes[46] = 1;
    assert!(!has_footer(&bytes));
    assert!(footer_offsets_fit(&bytes));
    let image: Image<RGB> = convert_from_tinytga(&bytes).unwrap();
    assert_eq!(image.get(0, 0), Ok(RGB { r: 30, g: 20, b: 10 }));
    assert!(footer_offsets_fit(&[1, 2, 3]));
}

#[test]
fn little_endian_numbers() {
    assert_eq!(le_u32(&[1, 2, 3, 4, 5], 0), 0x04030201);
    assert_eq!(le_u32(&[1, 2, 3, 4, 5], 1), 0x05040302);
    assert_eq!(le_u32(&[255, 255, 255, 255], 0), u32::MAX);
}
