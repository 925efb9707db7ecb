//! Colour spaces and the pixel buffer.

use vstd::prelude::*;
use crate::fixed::{Fixed, SCALE};

verus! {

/// What can go wrong when a colour or a pixel buffer is used.
#[derive(Clone, Copy, Debug, PartialEq, Eq, Structural)]
pub enum ImageError {
    /// A pixel coordinate lies outside the buffer.
    OutOfBounds { x: usize, y: usize, width: usize, height: usize },
    /// A channel list has the wrong number of entries for the colour space.
    ChannelCount { expected: usize, found: usize },
    /// A pixel coordinate is negative.
    Negative { coordinate: i32 },
}

/// One channel multiplied by an intensity in `[0, 1]`, rounded down.
/// An intensity above one leaves the channel as it is; a negative one
/// gives zero.
pub open spec fn spec_shade_channel(c: u8, intensity: Fixed) -> u8 {
    if intensity.raw > SCALE {
        c
    } else if intensity.raw <= 0 {
        0
    } else {
        ((c * intensity.raw) / SCALE as int) as u8
    }
}

#[verifier::when_used_as_spec(spec_shade_channel)]
pub fn shade_channel(c: u8, intensity: Fixed) -> (r: u8)
    ensures
        r == spec_shade_channel(c, intensity),
        r <= c,
{
    if intensity.raw > SCALE {
        c
    } else if intensity.raw <= 0 {
        0
    } else {
        let wide: i64 = c as i64;
        assert(0 <= wide * intensity.raw <= wide * 0x1_0000_0000) by (nonlinear_arith)
            requires
                0 <= wide,
                0 < intensity.raw <= 0x1_0000_0000,
        ;
        let product: i64 = wide * intensity.raw;
        let q: i64 = product / SCALE;
        q as u8
    }
}

/// The largest of four bytes.
pub open spec fn max4(a: u8, b: u8, c: u8, d: u8) -> u8 {
    let ab = if a >= b { a } else { b };
    let cd = if c >= d { c } else { d };
    if ab >= cd { ab } else { cd }
}

/// A colour space: how one pixel is stored and shaded.
pub trait ColorSpace: Sized {
    /// Bytes per pixel.
    const BPP: u8;

    /// The channels in the order in which `to_vec` lists them.
    spec fn channels(&self) -> Seq<u8>;

    /// The pixel as it is stored in an image file.
    spec fn bytes(&self) -> Seq<u8>;

    /// The number of bytes in which one pixel is stored.
    spec fn spec_bpp() -> u8;

    /// The colour with every channel zero.
    spec fn spec_new() -> Self;

    /// The colour with every channel at its maximum.
    spec fn spec_white() -> Self;

    /// The nearest colour of this space to an RGBA colour.
    spec fn spec_from_rgba(color: RGBA) -> Self;

    /// The colour with every channel shaded by `intensity`.
    spec fn spec_shade(&self, intensity: Fixed) -> Self;

    /// How many channels `from_vec` expects.
    spec fn spec_channel_count() -> nat;

    /// The colour that `from_vec` builds from exactly `spec_channel_count()`
    /// channels.
    spec fn spec_from_channels(colors: Seq<u8>) -> Self;

    fn bpp() -> (n: u8)
        ensures
            n == Self::spec_bpp(),
            1 <= n <= 4,
    ;

    fn new() -> (c: Self)
        ensures
            c == Self::spec_new(),
    ;

    fn white() -> (c: Self)
        ensures
            c == Self::spec_white(),
    ;

    fn from_rgba(color: RGBA) -> (c: Self)
        ensures
            c == Self::spec_from_rgba(color),
    ;

    fn shade(&mut self, intensity: Fixed)
        ensures
            *final(self) == old(self).spec_shade(intensity),
    ;

    fn to_vec(&self) -> (v: Vec<u8>)
        ensures
            v@ == self.channels(),
            v@.len() == Self::spec_channel_count(),
            Self::spec_from_channels(v@) == *self,
    ;

    fn from_vec(&mut self, colors: Vec<u8>) -> (r: Result<(), ImageError>)
        ensures
            colors@.len() == Self::spec_channel_count() ==> r is Ok && *final(self)
                == Self::spec_from_channels(colors@),
            colors@.len() != Self::spec_channel_count() ==> *final(self) == *old(self) && r == Err::<
                (),
                ImageError,
            >(
                ImageError::ChannelCount {
                    expected: Self::spec_channel_count() as usize,
                    found: colors.len(),
                },
            ),
    ;

    /// Appends the stored form of the pixel to `out`.
    fn write_bytes(&self, out: &mut Vec<u8>)
        ensures
            final(out)@ == old(out)@ + self.bytes(),
    ;

    /// The stored form of every pixel has `spec_bpp()` bytes.
    proof fn lemma_bytes_len(&self)
        ensures
            self.bytes().len() == Self::spec_bpp(),
    ;

    /// A colour lists as many channels as `from_vec` expects, and is the
    /// colour that `from_vec` builds from them.
    proof fn lemma_channels_give_back(&self)
        ensures
            self.channels().len() == Self::spec_channel_count(),
            Self::spec_from_channels(self.channels()) == *self,
    ;

    /// The colour that `from_vec` builds from a list of channels lists
    /// these channels.
    proof fn lemma_channels_taken(colors: Seq<u8>)
        requires
            colors.len() == Self::spec_channel_count(),
        ensures
            Self::spec_from_channels(colors).channels() == colors,
    ;
}

/// One channel of intensity.
#[derive(Copy, Clone, Debug, PartialEq, Eq, Structural)]
pub struct Grayscale {
    pub i: u8,
}

/// Three colour channels, stored blue first.
#[derive(Copy, Clone, Debug, PartialEq, Eq, Structural)]
pub struct RGB {
    pub b: u8,
    pub g: u8,
    pub r: u8,
}

/// Three colour channels and alpha, stored blue first.
#[derive(Copy, Clone, Debug, PartialEq, Eq, Structural)]
pub struct RGBA {
    pub b: u8,
    pub g: u8,
    pub r: u8,
    pub a: u8,
}

impl ColorSpace for Grayscale {
    const BPP: u8 = 1;

    open spec fn channels(&self) -> Seq<u8> {
        seq![self.i]
    }

    open spec fn bytes(&self) -> Seq<u8> {
        seq![self.i]
    }

    open spec fn spec_bpp() -> u8 {
        1
    }

    open spec fn spec_new() -> Self {
        Grayscale { i: 0 }
    }

    open spec fn spec_white() -> Self {
        Grayscale { i: 255 }
    }

    open spec fn spec_from_rgba(color: RGBA) -> Self {
        Grayscale { i: max4(color.r, color.g, color.b, color.a) }
    }

    open spec fn spec_shade(&self, intensity: Fixed) -> Self {
        Grayscale { i: shade_channel(self.i, intensity) }
    }

    open spec fn spec_channel_count() -> nat {
        1
    }

    open spec fn spec_from_channels(colors: Seq<u8>) -> Self {
        Grayscale { i: colors[0] }
    }

    fn bpp() -> (n: u8) {
        1
    }

    fn new() -> (c: Self) {
        Grayscale { i: 0 }
    }

    fn white() -> (c: Self) {
        Grayscale { i: 255 }
    }

    fn from_rgba(color: RGBA) -> (c: Self) {
        let ab: u8 = if color.r >= color.g { color.r } else { color.g };
        let cd: u8 = if color.b >= color.a { color.b } else { color.a };
        Grayscale { i: if ab >= cd { ab } else { cd } }
    }

    fn shade(&mut self, intensity: Fixed) {
        self.i = shade_channel(self.i, intensity);
    }

    fn to_vec(&self) -> (v: Vec<u8>) {
        let mut v: Vec<u8> = Vec::new();
        v.push(self.i);
        assert(v@ =~= self.channels());
        v
    }

    fn from_vec(&mut self, colors: Vec<u8>) -> (r: Result<(), ImageError>) {
        if colors.len() != 1 {
            return Err(ImageError::ChannelCount { expected: 1, found: colors.len() });
        }
        self.i = colors[0];
        Ok(())
    }

    fn write_bytes(&self, out: &mut Vec<u8>) {
        out.push(self.i);
        assert(out@ =~= old(out)@ + self.bytes());
    }

    proof fn lemma_bytes_len(&self) {
    }

    proof fn lemma_channels_give_back(&self) {
    }

    proof fn lemma_channels_taken(colors: Seq<u8>) {
        assert(Self::spec_from_channels(colors).channels() =~= colors);
    }
}

impl ColorSpace for RGB {
    const BPP: u8 = 3;

    open spec fn channels(&self) -> Seq<u8> {
        seq![self.r, self.g, self.b]
    }

    open spec fn bytes(&self) -> Seq<u8> {
        seq![self.b, self.g, self.r]
    }

    open spec fn spec_bpp() -> u8 {
        3
    }

    open spec fn spec_new() -> Self {
        RGB { r: 0, g: 0, b: 0 }
    }

    open spec fn spec_white() -> Self {
        RGB { r: 255, g: 255, b: 255 }
    }

    open spec fn spec_from_rgba(color: RGBA) -> Self {
        RGB { r: color.r, g: color.g, b: color.b }
    }

    open spec fn spec_shade(&self, intensity: Fixed) -> Self {
        RGB {
            r: shade_channel(self.r, intensity),
            g: shade_channel(self.g, intensity),
            b: shade_channel(self.b, intensity),
        }
    }

    open spec fn spec_channel_count() -> nat {
        3
    }

    open spec fn spec_from_channels(colors: Seq<u8>) -> Self {
        RGB { r: colors[0], g: colors[1], b: colors[2] }
    }

    fn bpp() -> (n: u8) {
        3
    }

    fn new() -> (c: Self) {
        RGB { r: 0, g: 0, b: 0 }
    }

    fn white() -> (c: Self) {
        RGB { r: 255, g: 255, b: 255 }
    }

    fn from_rgba(color: RGBA) -> (c: Self) {
        RGB { r: color.r, g: color.g, b: color.b }
    }

    fn shade(&mut self, intensity: Fixed) {
        self.r = shade_channel(self.r, intensity);
        self.g = shade_channel(self.g, intensity);
        self.b = shade_channel(self.b, intensity);
    }

    fn to_vec(&self) -> (v: Vec<u8>) {
        let mut v: Vec<u8> = Vec::new();
        v.push(self.r);
        v.push(self.g);
        v.push(self.b);
        assert(v@ =~= self.channels());
        v
    }

    fn from_vec(&mut self, colors: Vec<u8>) -> (r: Result<(), ImageError>) {
        if colors.len() != 3 {
            return Err(ImageError::ChannelCount { expected: 3, found: colors.len() });
        }
        self.r = colors[0];
        self.g = colors[1];
        self.b = colors[2];
        Ok(())
    }

    fn write_bytes(&self, out: &mut Vec<u8>) {
        out.push(self.b);
        out.push(self.g);
        out.push(self.r);
        assert(out@ =~= old(out)@ + self.bytes());
    }

    proof fn lemma_bytes_len(&self) {
    }

    proof fn lemma_channels_give_back(&self) {
    }

    proof fn lemma_channels_taken(colors: Seq<u8>) {
        assert(Self::spec_from_channels(colors).channels() =~= colors);
    }
}

impl ColorSpace for RGBA {
    const BPP: u8 = 4;

    /// The three colours and alpha: red first, alpha last.
    open spec fn channels(&self) -> Seq<u8> {
        seq![self.r, self.g, self.b, self.a]
    }

    open spec fn bytes(&self) -> Seq<u8> {
        seq![self.b, self.g, self.r, self.a]
    }

    open spec fn spec_bpp() -> u8 {
        4
    }

    open spec fn spec_new() -> Self {
        RGBA { r: 0, g: 0, b: 0, a: 0 }
    }

    open spec fn spec_white() -> Self {
        RGBA { r: 255, g: 255, b: 255, a: 255 }
    }

    open spec fn spec_from_rgba(color: RGBA) -> Self {
        color
    }

    open spec fn spec_shade(&self, intensity: Fixed) -> Self {
        RGBA {
            r: shade_channel(self.r, intensity),
            g: shade_channel(self.g, intensity),
            b: shade_channel(self.b, intensity),
            a: shade_channel(self.a, intensity),
        }
    }

    open spec fn spec_channel_count() -> nat {
        4
    }

    open spec fn spec_from_channels(colors: Seq<u8>) -> Self {
        RGBA { r: colors[0], g: colors[1], b: colors[2], a: colors[3] }
    }

    fn bpp() -> (n: u8) {
        4
    }

    fn new() -> (c: Self) {
        RGBA { r: 0, g: 0, b: 0, a: 0 }
    }

    fn white() -> (c: Self) {
        RGBA { r: 255, g: 255, b: 255, a: 255 }
    }

    fn from_rgba(color: RGBA) -> (c: Self) {
        color
    }

    fn shade(&mut self, intensity: Fixed) {
        self.r = shade_channel(self.r, intensity);
        self.g = shade_channel(self.g, intensity);
        self.b = shade_channel(self.b, intensity);
        self.a = shade_channel(self.a, intensity);
    }

    fn to_vec(&self) -> (v: Vec<u8>) {
        let mut v: Vec<u8> = Vec::new();
        v.push(self.r);
        v.push(self.g);
        v.push(self.b);
        v.push(self.a);
        assert(v@ =~= self.channels());
        v
    }

    fn from_vec(&mut self, colors: Vec<u8>) -> (r: Result<(), ImageError>) {
        if colors.len() != 4 {
            return Err(ImageError::ChannelCount { expected: 4, found: colors.len() });
        }
        self.r = colors[0];
        self.g = colors[1];
        self.b = colors[2];
        self.a = colors[3];
        Ok(())
    }

    fn write_bytes(&self, out: &mut Vec<u8>) {
        out.push(self.b);
        out.push(self.g);
        out.push(self.r);
        out.push(self.a);
        assert(out@ =~= old(out)@ + self.bytes());
    }

    proof fn lemma_bytes_len(&self) {
    }

    proof fn lemma_channels_give_back(&self) {
    }

    proof fn lemma_channels_taken(colors: Seq<u8>) {
        assert(Self::spec_from_channels(colors).channels() =~= colors);
    }
}

/// The position of pixel `(x, y)` in a row-major buffer `width` pixels wide.
pub open spec fn pixel_index(width: int, x: int, y: int) -> int {
    x + y * width
}

/// A pixel inside a `width` by `height` buffer has its index inside the
/// buffer.
pub proof fn lemma_pixel_index_in_bounds(width: int, height: int, x: int, y: int)
    requires
        0 <= x < width,
        0 <= y < height,
    ensures
        0 <= pixel_index(width, x, y) < width * height,
        0 <= y * width <= (height - 1) * width,
{
    assert(0 <= y * width <= (height - 1) * width) by (nonlinear_arith)
        requires
            0 <= y <= height - 1,
            0 <= width,
    ;
    assert((height - 1) * width + width == width * height) by (nonlinear_arith);
}

/// Different pixels of one buffer have different indices.
pub proof fn lemma_pixel_index_injective(width: int, x1: int, y1: int, x2: int, y2: int)
    requires
        0 <= x1 < width,
        0 <= x2 < width,
        0 <= y1,
        0 <= y2,
        pixel_index(width, x1, y1) == pixel_index(width, x2, y2),
    ensures
        x1 == x2,
        y1 == y2,
{
    assert(y1 == y2) by (nonlinear_arith)
        requires
            x1 < width,
            x2 < width,
            0 <= x1,
            0 <= x2,
            0 <= y1,
            0 <= y2,
            x1 + y1 * width == x2 + y2 * width,
    {
        if y1 < y2 {
            assert((y1 + 1) * width <= y2 * width);
        } else if y2 < y1 {
            assert((y2 + 1) * width <= y1 * width);
        }
    }
}

/// A rectangle of pixels, stored row by row from the top.
#[derive(Clone)]
pub struct Image<T: ColorSpace> {
    pub width: usize,
    pub height: usize,
    pub data: Vec<T>,
}

impl<T: ColorSpace + Copy> Image<T> {
    /// The buffer holds exactly `width * height` pixels.
    pub open spec fn wf(&self) -> bool {
        self.data.len() == self.width * self.height
    }

    /// The pixel at `(x, y)`.
    pub open spec fn pixel(&self, x: usize, y: usize) -> T {
        self.data@[pixel_index(self.width as int, x as int, y as int)]
    }

    /// A buffer of the given size with every pixel `T::new()`.
    pub fn new(width: usize, height: usize) -> (r: Self)
        requires
            width * height <= usize::MAX,
        ensures
            r.wf(),
            r.width == width,
            r.height == height,
            forall|i: int| 0 <= i < width * height ==> r.data@[i] == T::spec_new(),
    {
        let n: usize = width * height;
        let mut data: Vec<T> = Vec::new();
        let mut i: usize = 0;
        while i < n
            invariant
                i <= n,
                data@.len() == i,
                forall|j: int| 0 <= j < i ==> data@[j] == T::spec_new(),
            decreases n - i,
        {
            data.push(T::new());
            i = i + 1;
        }
        Image { width, height, data }
    }

    /// Replaces the pixel at `(x, y)`.
    pub fn set(&mut self, x: usize, y: usize, color: T) -> (r: Result<(), ImageError>)
        requires
            old(self).wf(),
        ensures
            final(self).wf(),
            final(self).width == old(self).width,
            final(self).height == old(self).height,
            x < old(self).width && y < old(self).height ==> r is Ok && final(self).data@ == old(
                self,
            ).data@.update(pixel_index(old(self).width as int, x as int, y as int), color),
            !(x < old(self).width && y < old(self).height) ==> final(self).data@ == old(self).data@
                && r == Err::<(), ImageError>(
                ImageError::OutOfBounds { x, y, width: old(self).width, height: old(self).height },
            ),
    {
        if x >= self.width || y >= self.height {
            return Err(
                ImageError::OutOfBounds { x, y, width: self.width, height: self.height },
            );
        }
        proof {
            lemma_pixel_index_in_bounds(self.width as int, self.height as int, x as int, y as int);
        }
        let idx: usize = x + y * self.width;
        self.data[idx] = color;
        Ok(())
    }

    /// The pixel at `(x, y)`.
    pub fn get(&self, x: usize, y: usize) -> (r: Result<T, ImageError>)
        requires
            self.wf(),
        ensures
            x < self.width && y < self.height ==> r == Ok::<T, ImageError>(self.pixel(x, y)),
            !(x < self.width && y < self.height) ==> r == Err::<T, ImageError>(
                ImageError::OutOfBounds { x, y, width: self.width, height: self.height },
            ),
    {
        if x >= self.width || y >= self.height {
            return Err(
                ImageError::OutOfBounds { x, y, width: self.width, height: self.height },
            );
        }
        proof {
            lemma_pixel_index_in_bounds(self.width as int, self.height as int, x as int, y as int);
        }
        let idx: usize = x + y * self.width;
        Ok(self.data[idx])
    }
}

} // verus!
