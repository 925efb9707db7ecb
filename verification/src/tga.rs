//! Reading and writing images in the TGA file format.

use vstd::prelude::*;
use crate::tgaimage::{ColorSpace, Image, RGBA};

verus! {

/// Why a TGA file could not be turned into an image.
#[derive(Clone, Copy, Debug, PartialEq, Eq, Structural)]
pub enum TgaError {
    /// The bytes are not a TGA file that the decoder understands.
    Malformed,
    /// The file places a pixel outside the size that its header gives.
    PixelOutOfBounds,
    /// The image has more pixels than this machine can address.
    TooLarge,
}

/// One pixel as a TGA file gives it: its position, and its colour packed
/// into one number, blue in the lowest byte and alpha in the highest.
#[derive(Clone, Copy, Debug, PartialEq, Eq, Structural)]
pub struct RawPixel {
    pub x: i32,
    pub y: i32,
    pub color: u32,
}

/// The content of a TGA file: the size from its header and its pixels in
/// the order of the file.
#[derive(Clone, Debug)]
pub struct RawImage {
    pub width: u32,
    pub height: u32,
    pub pixels: Vec<RawPixel>,
}

/// What `tinytga` makes of the bytes of a file: nothing where it refuses
/// them, and else the width, the height and the pixels in the order in
/// which it yields them.
pub uninterp spec fn tinytga_decoded(data: Seq<u8>) -> Option<(u32, u32, Seq<RawPixel>)>;

/// The signature that ends a TGA file with a footer: `TRUEVISION-XFILE.`
/// and a closing zero.
pub open spec fn spec_signature() -> Seq<u8> {
    seq![
        84u8, 82u8, 85u8, 69u8, 86u8, 73u8, 83u8, 73u8, 79u8, 78u8, 45u8, 88u8, 70u8, 73u8, 76u8,
        69u8, 46u8, 0u8,
    ]
}

/// Whether the bytes end with a footer: they are 26 at least, and the last
/// eighteen are the signature.
pub open spec fn spec_has_footer(data: Seq<u8>) -> bool {
    data.len() >= 26 && data.subrange(data.len() - 18, data.len() as int) == spec_signature()
}

/// The number that the four bytes from `at` on hold, the lowest byte
/// first.
pub open spec fn spec_le_u32(data: Seq<u8>, at: int) -> int {
    data[at] + 256 * data[at + 1] + 65536 * data[at + 2] + 16777216 * data[at + 3]
}

/// Whether the two offsets of the footer, if the bytes end with one, point
/// into the bytes: the offset of the extension area, 26 bytes before the
/// end, and that of the developer directory, 22 bytes before the end, are
/// at most the number of bytes.
pub open spec fn spec_footer_offsets_fit(data: Seq<u8>) -> bool {
    spec_has_footer(data) ==> spec_le_u32(data, data.len() - 26) <= data.len() && spec_le_u32(
        data,
        data.len() - 22,
    ) <= data.len()
}

/// Reads the number that four bytes hold, the lowest byte first.
pub fn le_u32(data: &[u8], at: usize) -> (v: u32)
    requires
        at + 4 <= data.len(),
    ensures
        v == spec_le_u32(data@, at as int),
{
    (data[at] as u32) + 256 * (data[at + 1] as u32) + 65536 * (data[at + 2] as u32) + 16777216 * (
    data[at + 3] as u32)
}

/// Tells whether the bytes end with a footer.
pub fn has_footer(data: &[u8]) -> (r: bool)
    ensures
        r == spec_has_footer(data@),
{
    let n: usize = data.len();
    if n < 26 {
        return false;
    }
    let signature: Vec<u8> = vec![
        84u8, 82u8, 85u8, 69u8, 86u8, 73u8, 83u8, 73u8, 79u8, 78u8, 45u8, 88u8, 70u8, 73u8, 76u8,
        69u8, 46u8, 0u8,
    ];
    assert(signature@ =~= spec_signature());
    let ghost tail = data@.subrange(n - 18, n as int);
    let mut i: usize = 0;
    while i < 18
        invariant
            i <= 18,
            n == data.len(),
            n >= 26,
            signature@ == spec_signature(),
            tail == data@.subrange(n - 18, n as int),
            forall|j: int| 0 <= j < i ==> #[trigger] tail[j] == signature@[j],
        decreases 18 - i,
    {
        if data[n - 18 + i] != signature[i] {
            assert(tail[i as int] != spec_signature()[i as int]);
            return false;
        }
        i = i + 1;
    }
    assert(tail =~= spec_signature());
    true
}

/// Tells whether the offsets of the footer, if there is one, point into
/// the bytes.
pub fn footer_offsets_fit(data: &[u8]) -> (r: bool)
    ensures
        r == spec_footer_offsets_fit(data@),
{
    if !has_footer(data) {
        return true;
    }
    let n: usize = data.len();
    let extension: u32 = le_u32(data, n - 26);
    let directory: u32 = le_u32(data, n - 22);
    (extension as u64) <= (n as u64) && (directory as u64) <= (n as u64)
}

/// Parses the bytes with `tinytga::RawTga::from_slice` and collects the
/// size that `RawTga::size` gives and every pixel that `RawTga::pixels`
/// yields. Nothing is claimed of the result but that it is what `tinytga`
/// makes of these bytes. Bytes whose footer holds an offset beyond their
/// end are left out: `from_slice` subtracts the offsets of a footer from
/// the number of bytes without a test.
#[verifier::external_body]
fn tinytga_decode(data: &[u8]) -> (r: Option<RawImage>)
    requires
        spec_footer_offsets_fit(data@),
    ensures
        match r {
            Some(image) => tinytga_decoded(data@) == Some(
                (image.width, image.height, image.pixels@),
            ),
            None => tinytga_decoded(data@) is None,
        },
{
    let tga = tinytga::RawTga::from_slice(data).ok()?;
    let pixels = tga.pixels().map(
        |p| RawPixel { x: p.position.x, y: p.position.y, color: p.color },
    ).collect();
    Some(RawImage { width: tga.size().width, height: tga.size().height, pixels })
}

/// The colour that a packed pixel stands for.
pub open spec fn spec_unpack(color: u32) -> RGBA {
    RGBA {
        b: (color % 256) as u8,
        g: ((color / 256) % 256) as u8,
        r: ((color / 65536) % 256) as u8,
        a: ((color / 16777216) % 256) as u8,
    }
}

#[verifier::when_used_as_spec(spec_unpack)]
pub fn unpack(color: u32) -> (c: RGBA)
    ensures
        c == spec_unpack(color),
{
    RGBA {
        b: (color % 256) as u8,
        g: ((color / 256) % 256) as u8,
        r: ((color / 65536) % 256) as u8,
        a: ((color / 16777216) % 256) as u8,
    }
}

/// Where a raw pixel goes in a row-major buffer `width` pixels wide.
pub open spec fn raw_index(width: u32, p: RawPixel) -> int {
    p.x + p.y * width
}

/// Whether every one of the first `k` raw pixels goes inside a buffer of
/// `width` by `height` pixels.
pub open spec fn all_inside(width: u32, height: u32, raw: Seq<RawPixel>, k: int) -> bool {
    forall|j: int| 0 <= j < k ==> 0 <= raw_index(width, #[trigger] raw[j]) < width * height
}

/// The buffer after the first `k` raw pixels have been put in their
/// places, one after the other.
pub open spec fn placed<T: ColorSpace>(
    pixels: Seq<T>,
    width: u32,
    raw: Seq<RawPixel>,
    k: nat,
) -> Seq<T>
    decreases k,
{
    if k == 0 {
        pixels
    } else {
        placed(pixels, width, raw, (k - 1) as nat).update(
            raw_index(width, raw[k - 1]),
            T::spec_from_rgba(spec_unpack(raw[k - 1].color)),
        )
    }
}

/// What becomes of the content of a file: the image of the header's
/// size, blank but for the pixels of the file, each converted to the colour
/// space of the image; or the reason why there is none.
pub open spec fn converts_to<T: ColorSpace + Copy>(
    width: u32,
    height: u32,
    raw: Seq<RawPixel>,
    r: Result<Image<T>, TgaError>,
) -> bool {
    if width * height > usize::MAX {
        r == Err::<Image<T>, TgaError>(TgaError::TooLarge)
    } else if !all_inside(width, height, raw, raw.len() as int) {
        r == Err::<Image<T>, TgaError>(TgaError::PixelOutOfBounds)
    } else {
        r matches Ok(image) && {
            &&& image.wf()
            &&& image.width == width
            &&& image.height == height
            &&& image.data@ == placed(
                crate::render::filled((width * height) as nat, T::spec_new()),
                width,
                raw,
                raw.len(),
            )
        }
    }
}

/// Builds the image that the content of a file describes.
pub fn image_from_raw<T: ColorSpace + Copy>(raw: &RawImage) -> (r: Result<Image<T>, TgaError>)
    ensures
        converts_to(raw.width, raw.height, raw.pixels@, r),
{
    assert(0 <= raw.width * raw.height <= 0xFFFF_FFFF * 0xFFFF_FFFF) by (nonlinear_arith)
        requires
            0 <= raw.width <= 0xFFFF_FFFF,
            0 <= raw.height <= 0xFFFF_FFFF,
    ;
    let total: u64 = (raw.width as u64) * (raw.height as u64);
    if total > usize::MAX as u64 {
        return Err(TgaError::TooLarge);
    }
    let width: usize = raw.width as usize;
    let height: usize = raw.height as usize;
    let mut image: Image<T> = Image::new(width, height);
    let ghost blank = image.data@;
    assert(blank =~= crate::render::filled((raw.width * raw.height) as nat, T::spec_new()));
    let n: usize = raw.pixels.len();
    let mut k: usize = 0;
    while k < n
        invariant
            k <= n,
            n == raw.pixels@.len(),
            image.wf(),
            image.width == raw.width,
            image.height == raw.height,
            total == raw.width * raw.height,
            total <= usize::MAX,
            image.data@.len() == raw.width * raw.height,
            all_inside(raw.width, raw.height, raw.pixels@, k as int),
            image.data@ == placed(blank, raw.width, raw.pixels@, k as nat),
        decreases n - k,
    {
        let p: RawPixel = raw.pixels[k];
        assert(-0x8000_0000 * 0x1_0000_0000 <= p.y * raw.width <= 0x8000_0000 * 0x1_0000_0000)
            by (nonlinear_arith)
            requires
                -0x8000_0000 <= p.y < 0x8000_0000,
                0 <= raw.width < 0x1_0000_0000,
        ;
        let index: i128 = (p.x as i128) + (p.y as i128) * (raw.width as i128);
        if index < 0 || index >= total as i128 {
            assert(!(0 <= raw_index(raw.width, raw.pixels@[k as int]) < raw.width * raw.height));
            return Err(TgaError::PixelOutOfBounds);
        }
        image.data[index as usize] = T::from_rgba(unpack(p.color));
        k = k + 1;
    }
    Ok(image)
}

/// Reads an image from the bytes of a TGA file, converting every pixel to
/// the colour space of the image. Bytes whose footer holds an offset beyond
/// their end are refused as malformed.
pub fn convert_from_tinytga<T: ColorSpace + Copy>(data: &[u8]) -> (r: Result<Image<T>, TgaError>)
    ensures
        !spec_footer_offsets_fit(data@) ==> r == Err::<Image<T>, TgaError>(TgaError::Malformed),
        spec_footer_offsets_fit(data@) && tinytga_decoded(data@) is None ==> r == Err::<
            Image<T>,
            TgaError,
        >(TgaError::Malformed),
        spec_footer_offsets_fit(data@) ==> (tinytga_decoded(data@) matches Some(content)
            ==> converts_to(content.0, content.1, content.2, r)),
{
    if !footer_offsets_fit(data) {
        return Err(TgaError::Malformed);
    }
    match tinytga_decode(data) {
        None => Err(TgaError::Malformed),
        Some(raw) => image_from_raw(&raw),
    }
}

/// The stored bytes of a row of pixels, one pixel after the other.
pub open spec fn pixel_bytes<T: ColorSpace>(pixels: Seq<T>) -> Seq<u8>
    decreases pixels.len(),
{
    if pixels.len() == 0 {
        Seq::empty()
    } else {
        pixel_bytes(pixels.drop_last()) + pixels.last().bytes()
    }
}

/// A row of pixels is stored in `spec_bpp()` bytes for each pixel.
pub proof fn lemma_pixel_bytes_len<T: ColorSpace>(pixels: Seq<T>)
    ensures
        pixel_bytes(pixels).len() == pixels.len() * T::spec_bpp(),
    decreases pixels.len(),
{
    if pixels.len() > 0 {
        lemma_pixel_bytes_len(pixels.drop_last());
        pixels.last().lemma_bytes_len();
        assert((pixels.len() - 1) * T::spec_bpp() + T::spec_bpp() == pixels.len() * T::spec_bpp())
            by (nonlinear_arith);
    }
}

/// The kind of image that the header announces: grey or coloured, plain
/// or run-length encoded.
pub open spec fn spec_data_type_code(bpp: u8, rle: bool) -> u8 {
    if bpp == 1 {
        if rle {
            11
        } else {
            3
        }
    } else {
        if rle {
            10
        } else {
            2
        }
    }
}

/// The eighteen bytes of the header: no image id, no colour map, origin
/// zero, the low sixteen bits of the width and of the height with the low
/// byte first, the bits per pixel, and the descriptor, which is `0x20`
/// for an image stored from the top.
pub open spec fn spec_tga_header(
    width: usize,
    height: usize,
    bpp: u8,
    vflip: bool,
    rle: bool,
) -> Seq<u8> {
    seq![
        0u8,
        0u8,
        spec_data_type_code(bpp, rle),
        0u8,
        0u8,
        0u8,
        0u8,
        0u8,
        0u8,
        0u8,
        0u8,
        0u8,
        (width % 256) as u8,
        ((width / 256) % 256) as u8,
        (height % 256) as u8,
        ((height / 256) % 256) as u8,
        (bpp * 8) as u8,
        if vflip { 0x00u8 } else { 0x20u8 },
    ]
}

/// Builds the eighteen bytes of the header.
pub fn tga_header(width: usize, height: usize, bpp: u8, vflip: bool, rle: bool) -> (h: Vec<u8>)
    requires
        bpp <= 31,
    ensures
        h@ == spec_tga_header(width, height, bpp, vflip, rle),
{
    let code: u8 = if bpp == 1 {
        if rle {
            11
        } else {
            3
        }
    } else {
        if rle {
            10
        } else {
            2
        }
    };
    let mut h: Vec<u8> = Vec::new();
    h.push(0);
    h.push(0);
    h.push(code);
    h.push(0);
    h.push(0);
    h.push(0);
    h.push(0);
    h.push(0);
    h.push(0);
    h.push(0);
    h.push(0);
    h.push(0);
    h.push((width % 256) as u8);
    h.push(((width / 256) % 256) as u8);
    h.push((height % 256) as u8);
    h.push(((height / 256) % 256) as u8);
    h.push(bpp * 8);
    h.push(if vflip { 0x00 } else { 0x20 });
    assert(h@ =~= spec_tga_header(width, height, bpp, vflip, rle));
    h
}

/// What follows the image data: no developer area, no extension area, and
/// the signature `TRUEVISION-XFILE.` with a closing zero.
pub open spec fn spec_tga_footer() -> Seq<u8> {
    seq![0u8, 0u8, 0u8, 0u8, 0u8, 0u8, 0u8, 0u8] + spec_signature()
}

/// Builds what follows the image data.
pub fn tga_footer() -> (f: Vec<u8>)
    ensures
        f@ == spec_tga_footer(),
{
    let f: Vec<u8> = vec![
        0u8, 0u8, 0u8, 0u8, 0u8, 0u8, 0u8, 0u8, 84u8, 82u8, 85u8, 69u8, 86u8, 73u8, 83u8, 73u8,
        79u8, 78u8, 45u8, 88u8, 70u8, 73u8, 76u8, 69u8, 46u8, 0u8,
    ];
    assert(f@ =~= spec_tga_footer());
    f
}

/// Appends the bytes `data[from..to]` to `out`.
pub fn append_range(out: &mut Vec<u8>, data: &Vec<u8>, from: usize, to: usize)
    requires
        from <= to <= data.len(),
    ensures
        final(out)@ == old(out)@ + data@.subrange(from as int, to as int),
{
    let mut i: usize = from;
    while i < to
        invariant
            from <= i <= to <= data.len(),
            out@ == old(out)@ + data@.subrange(from as int, i as int),
        decreases to - i,
    {
        out.push(data[i]);
        assert(out@ =~= old(out)@ + data@.subrange(from as int, i + 1));
        i = i + 1;
    }
    assert(data@.subrange(from as int, from as int) =~= Seq::<u8>::empty());
}

/// The bytes of the TGA file that holds the image: the header, the pixel
/// data, plain or run-length encoded, and the footer. With `vflip` the
/// file says that its rows start at the bottom of the picture.
pub open spec fn spec_tga_file<T: ColorSpace + Copy>(image: Image<T>, vflip: bool, rle: bool) -> Seq<
    u8,
> {
    spec_tga_header(image.width, image.height, T::spec_bpp(), vflip, rle) + (if rle {
        crate::rle::rle_encoded(
            pixel_bytes(image.data@),
            T::spec_bpp() as int,
            image.data@.len() as int,
        )
    } else {
        pixel_bytes(image.data@)
    }) + spec_tga_footer()
}

impl<T: ColorSpace + Copy> Image<T> {
    /// The bytes of the TGA file that holds the image.
    pub fn tga_file_bytes(&self, vflip: bool, rle: bool) -> (bytes: Vec<u8>)
        ensures
            bytes@ == spec_tga_file(*self, vflip, rle),
    {
        let bpp: u8 = T::bpp();
        let mut bytes: Vec<u8> = tga_header(self.width, self.height, bpp, vflip, rle);
        let data: Vec<u8> = self.data_vec();
        proof {
            lemma_pixel_bytes_len(self.data@);
        }
        if rle {
            let packets: Vec<u8> = crate::rle::rle_encode(&data, self.data.len(), bpp as usize);
            append_range(&mut bytes, &packets, 0, packets.len());
            assert(packets@.subrange(0, packets@.len() as int) =~= packets@);
        } else {
            append_range(&mut bytes, &data, 0, data.len());
            assert(data@.subrange(0, data@.len() as int) =~= data@);
        }
        let footer: Vec<u8> = tga_footer();
        append_range(&mut bytes, &footer, 0, footer.len());
        assert(footer@.subrange(0, footer@.len() as int) =~= footer@);
        bytes
    }

    /// The stored bytes of every pixel, row by row.
    pub fn data_vec(&self) -> (v: Vec<u8>)
        ensures
            v@ == pixel_bytes(self.data@),
    {
        let mut v: Vec<u8> = Vec::new();
        let n: usize = self.data.len();
        let mut i: usize = 0;
        while i < n
            invariant
                i <= n,
                n == self.data@.len(),
                v@ == pixel_bytes(self.data@.subrange(0, i as int)),
            decreases n - i,
        {
            let pixel: T = self.data[i];
            pixel.write_bytes(&mut v);
            proof {
                let next = self.data@.subrange(0, i + 1);
                assert(next.drop_last() =~= self.data@.subrange(0, i as int));
                assert(next.last() == pixel);
            }
            i = i + 1;
        }
        assert(self.data@.subrange(0, n as int) =~= self.data@);
        v
    }
}

} // verus!
