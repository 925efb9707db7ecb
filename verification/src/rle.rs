//! Run-length encoding of pixel data, as TGA files hold it.
//!
//! The data is cut into packets of up to 128 pixels. A run packet stands
//! for one pixel repeated; a raw packet lists its pixels one by one. The
//! first byte of a packet gives its kind in the highest bit and its number of
//! pixels, less one, in the other seven.

use vstd::prelude::*;
use crate::tga::append_range;

verus! {

/// The longest packet, in pixels.
pub const MAX_CHUNK_LENGTH: usize = 128;

/// The bytes of pixel `k`.
pub open spec fn pixel_at(data: Seq<u8>, bpp: int, k: int) -> Seq<u8> {
    data.subrange(k * bpp, (k + 1) * bpp)
}

/// Whether pixel `k` and the pixel after it are the same.
pub open spec fn same_as_next(data: Seq<u8>, bpp: int, k: int) -> bool {
    pixel_at(data, bpp, k) == pixel_at(data, bpp, k + 1)
}

/// How many pixels the packet that starts at pixel `p` takes, once it is
/// known to hold `len` pixels at least. A run packet goes on while the next
/// pixel repeats the last one; a raw packet goes on until two pixels in a
/// row are the same, and leaves the first of them to the next packet.
pub open spec fn chunk_len(data: Seq<u8>, bpp: int, n: int, p: int, raw: bool, len: int) -> int
    decreases n - (p + len),
{
    if p + len >= n || len >= 128 {
        len
    } else if raw && same_as_next(data, bpp, p + len - 1) {
        len - 1
    } else if !raw && !same_as_next(data, bpp, p + len - 1) {
        len
    } else {
        chunk_len(data, bpp, n, p, raw, len + 1)
    }
}

/// Whether the packet that starts at pixel `p` is a raw one: the last
/// pixel is, and so is a pixel that the next one does not repeat.
pub open spec fn chunk_is_raw(data: Seq<u8>, bpp: int, n: int, p: int) -> bool {
    p + 1 >= n || !same_as_next(data, bpp, p)
}

/// How many pixels the packet that starts at pixel `p` takes.
pub open spec fn chunk_pixels(data: Seq<u8>, bpp: int, n: int, p: int) -> int {
    if p + 1 >= n {
        1
    } else {
        chunk_len(data, bpp, n, p, chunk_is_raw(data, bpp, n, p), 2)
    }
}

/// The packet that starts at pixel `p`.
pub open spec fn chunk_bytes(data: Seq<u8>, bpp: int, n: int, p: int) -> Seq<u8> {
    let len = chunk_pixels(data, bpp, n, p);
    if chunk_is_raw(data, bpp, n, p) {
        seq![(len - 1) as u8] + data.subrange(p * bpp, (p + len) * bpp)
    } else {
        seq![(len + 127) as u8] + pixel_at(data, bpp, p)
    }
}

/// The packets for the pixels from `p` on.
pub open spec fn rle_from(data: Seq<u8>, bpp: int, n: int, p: int) -> Seq<u8>
    decreases n - p,
{
    if p >= n || p < 0 {
        Seq::empty()
    } else {
        proof {
            lemma_chunk_pixels_bounds(data, bpp, n, p);
        }
        chunk_bytes(data, bpp, n, p) + rle_from(data, bpp, n, p + chunk_pixels(data, bpp, n, p))
    }
}

/// The run-length encoding of `n` pixels of `bpp` bytes each.
pub open spec fn rle_encoded(data: Seq<u8>, bpp: int, n: int) -> Seq<u8> {
    rle_from(data, bpp, n, 0)
}

/// A packet that is known to hold `len` pixels ends with between one and
/// 128 pixels, inside the data.
pub proof fn lemma_chunk_len_bounds(data: Seq<u8>, bpp: int, n: int, p: int, raw: bool, len: int)
    requires
        2 <= len <= 128,
        p + len <= n,
    ensures
        len - 1 <= chunk_len(data, bpp, n, p, raw, len) <= 128,
        p + chunk_len(data, bpp, n, p, raw, len) <= n,
        !raw ==> len <= chunk_len(data, bpp, n, p, raw, len),
    decreases n - (p + len),
{
    if p + len >= n || len >= 128 {
    } else if raw && same_as_next(data, bpp, p + len - 1) {
    } else if !raw && !same_as_next(data, bpp, p + len - 1) {
    } else {
        lemma_chunk_len_bounds(data, bpp, n, p, raw, len + 1);
    }
}

/// Every packet holds between one and 128 pixels, inside the data; a run
/// packet holds two at least.
pub proof fn lemma_chunk_pixels_bounds(data: Seq<u8>, bpp: int, n: int, p: int)
    requires
        0 <= p < n,
    ensures
        1 <= chunk_pixels(data, bpp, n, p) <= 128,
        p + chunk_pixels(data, bpp, n, p) <= n,
        !chunk_is_raw(data, bpp, n, p) ==> 2 <= chunk_pixels(data, bpp, n, p),
{
    if p + 1 < n {
        lemma_chunk_len_bounds(data, bpp, n, p, chunk_is_raw(data, bpp, n, p), 2);
    }
}

/// In a run packet every pixel repeats the one before it.
pub proof fn lemma_run_repeats(data: Seq<u8>, bpp: int, n: int, p: int, len: int)
    requires
        2 <= len <= 128,
        p + len <= n,
        forall|k: int| p <= k < p + len - 1 ==> same_as_next(data, bpp, k),
    ensures
        forall|k: int|
            p <= k < p + chunk_len(data, bpp, n, p, false, len) - 1 ==> same_as_next(data, bpp, k),
    decreases n - (p + len),
{
    if p + len >= n || len >= 128 {
    } else if !same_as_next(data, bpp, p + len - 1) {
    } else {
        lemma_run_repeats(data, bpp, n, p, len + 1);
    }
}

/// Whether the two pixels that start at the bytes `a` and `b` are the
/// same.
pub fn pixels_equal(data: &Vec<u8>, a: usize, b: usize, bpp: usize) -> (r: bool)
    requires
        a + bpp <= data.len(),
        b + bpp <= data.len(),
    ensures
        r == (data@.subrange(a as int, a + bpp) == data@.subrange(b as int, b + bpp)),
{
    let mut i: usize = 0;
    while i < bpp
        invariant
            i <= bpp,
            a + bpp <= data.len(),
            b + bpp <= data.len(),
            forall|j: int|
                0 <= j < i ==> #[trigger] data@.subrange(a as int, a + bpp)[j] == data@.subrange(
                    b as int,
                    b + bpp,
                )[j],
        decreases bpp - i,
    {
        if data[a + i] != data[b + i] {
            assert(data@.subrange(a as int, a + bpp)[i as int] != data@.subrange(
                b as int,
                b + bpp,
            )[i as int]);
            return false;
        }
        i = i + 1;
    }
    assert(data@.subrange(a as int, a + bpp) =~= data@.subrange(b as int, b + bpp));
    true
}

/// Run-length encodes `n_pixels` pixels of `bpp` bytes each.
pub fn rle_encode(data: &Vec<u8>, n_pixels: usize, bpp: usize) -> (out: Vec<u8>)
    requires
        1 <= bpp,
        data.len() == n_pixels * bpp,
    ensures
        out@ == rle_encoded(data@, bpp as int, n_pixels as int),
{
    let mut out: Vec<u8> = Vec::new();
    let mut current: usize = 0;
    while current < n_pixels
        invariant
            1 <= bpp,
            data.len() == n_pixels * bpp,
            current <= n_pixels,
            out@ + rle_from(data@, bpp as int, n_pixels as int, current as int) == rle_from(
                data@,
                bpp as int,
                n_pixels as int,
                0,
            ),
        decreases n_pixels - current,
    {
        let ghost whole = rle_from(data@, bpp as int, n_pixels as int, current as int);
        let ghost out_before = out@;
        proof {
            lemma_chunk_pixels_bounds(data@, bpp as int, n_pixels as int, current as int);
            lemma_pixel_span(n_pixels as int, bpp as int, current as int, current + 1);
        }
        let mut run_length: usize = 1;
        let mut raw: bool = true;
        if current + 1 < n_pixels {
            proof {
                lemma_pixel_span(n_pixels as int, bpp as int, current + 1, current + 2);
                lemma_pixel_starts(bpp as int, current as int);
                lemma_pixel_starts(bpp as int, current + 1);
            }
            raw = !pixels_equal(data, current * bpp, (current + 1) * bpp, bpp);
            run_length = 2;
            let mut done: bool = false;
            while !done && current + run_length < n_pixels && run_length < MAX_CHUNK_LENGTH
                invariant
                    1 <= bpp,
                    data.len() == n_pixels * bpp,
                    current + 1 < n_pixels,
                    raw == chunk_is_raw(data@, bpp as int, n_pixels as int, current as int),
                    1 <= run_length <= 128,
                    current + run_length <= n_pixels,
                    !done ==> 2 <= run_length && chunk_len(
                        data@,
                        bpp as int,
                        n_pixels as int,
                        current as int,
                        raw,
                        run_length as int,
                    ) == chunk_pixels(data@, bpp as int, n_pixels as int, current as int),
                    done ==> run_length == chunk_pixels(
                        data@,
                        bpp as int,
                        n_pixels as int,
                        current as int,
                    ),
                decreases
                        (if done {
                            0int
                        } else {
                            n_pixels - (current + run_length) + 1
                        }),
            {
                let last: usize = current + run_length - 1;
                proof {
                    lemma_pixel_span(n_pixels as int, bpp as int, last as int, last + 1);
                    lemma_pixel_span(n_pixels as int, bpp as int, last + 1, last + 2);
                    lemma_pixel_starts(bpp as int, last as int);
                    lemma_pixel_starts(bpp as int, last + 1);
                }
                let succ_eq: bool = pixels_equal(data, last * bpp, (last + 1) * bpp, bpp);
                if raw && succ_eq {
                    run_length = run_length - 1;
                    done = true;
                } else if !raw && !succ_eq {
                    done = true;
                } else {
                    run_length = run_length + 1;
                }
            }
        }
        proof {
            lemma_pixel_span(n_pixels as int, bpp as int, current as int, current + run_length);
        }
        if raw {
            out.push((run_length - 1) as u8);
            append_range(&mut out, data, current * bpp, (current + run_length) * bpp);
        } else {
            out.push((run_length + 127) as u8);
            append_range(&mut out, data, current * bpp, (current + 1) * bpp);
        }
        proof {
            let chunk = chunk_bytes(data@, bpp as int, n_pixels as int, current as int);
            let rest = rle_from(data@, bpp as int, n_pixels as int, current + run_length);
            assert(whole == chunk + rest);
            assert(out@ =~= out_before + chunk);
            assert(out@ + rest =~= out_before + (chunk + rest));
        }
        current = current + run_length;
    }
    out
}

/// The data is long enough for the pixels `from..to`.
pub proof fn lemma_pixel_span(n: int, bpp: int, from: int, to: int)
    requires
        0 <= from <= to <= n,
        0 <= bpp,
    ensures
        0 <= from * bpp <= to * bpp <= n * bpp,
        (from + 1) * bpp == from * bpp + bpp,
{
    assert(0 <= from * bpp <= to * bpp <= n * bpp) by (nonlinear_arith)
        requires
            0 <= from <= to <= n,
            0 <= bpp,
    ;
    assert((from + 1) * bpp == from * bpp + bpp) by (nonlinear_arith);
}

/// Pixel `k + 1` starts where pixel `k` ends.
pub proof fn lemma_pixel_starts(bpp: int, k: int)
    ensures
        (k + 1) * bpp == k * bpp + bpp,
{
    assert((k + 1) * bpp == k * bpp + bpp) by (nonlinear_arith);
}

/// One pixel, `count` times.
pub open spec fn repeated(pixel: Seq<u8>, count: int) -> Seq<u8>
    decreases count,
{
    if count <= 0 {
        Seq::empty()
    } else {
        repeated(pixel, count - 1) + pixel
    }
}

/// The pixel data that a row of packets stands for. Decoding ends at a
/// packet that is cut short.
pub open spec fn rle_decoded(packets: Seq<u8>, bpp: int) -> Seq<u8>
    decreases packets.len(),
{
    if packets.len() == 0 || bpp < 1 {
        Seq::empty()
    } else if packets[0] < 128 {
        let size = (packets[0] + 1) * bpp;
        if size < 0 || packets.len() < 1 + size {
            Seq::empty()
        } else {
            packets.subrange(1, 1 + size) + rle_decoded(
                packets.subrange(1 + size, packets.len() as int),
                bpp,
            )
        }
    } else {
        if packets.len() < 1 + bpp {
            Seq::empty()
        } else {
            repeated(packets.subrange(1, 1 + bpp), packets[0] - 127) + rle_decoded(
                packets.subrange(1 + bpp, packets.len() as int),
                bpp,
            )
        }
    }
}

/// A stretch of a sequence is its first part followed by its second.
pub proof fn lemma_subrange_split(s: Seq<u8>, a: int, b: int, c: int)
    requires
        0 <= a <= b <= c <= s.len(),
    ensures
        s.subrange(a, c) == s.subrange(a, b) + s.subrange(b, c),
{
    assert(s.subrange(a, c) =~= s.subrange(a, b) + s.subrange(b, c));
}

/// Pixels that repeat one another from `p` on are `p` repeated.
proof fn lemma_repeated_is_run(data: Seq<u8>, bpp: int, n: int, p: int, m: int)
    requires
        1 <= bpp,
        0 <= p,
        0 <= m,
        p + m <= n,
        data.len() == n * bpp,
        forall|k: int| p <= k < p + m - 1 ==> same_as_next(data, bpp, k),
    ensures
        repeated(pixel_at(data, bpp, p), m) == data.subrange(p * bpp, (p + m) * bpp),
        m >= 1 ==> pixel_at(data, bpp, p + m - 1) == pixel_at(data, bpp, p),
    decreases m,
{
    let first = pixel_at(data, bpp, p);
    let a = p * bpp;
    let c = (p + m) * bpp;
    lemma_pixel_span(n, bpp, p, p + m);
    if m == 0 {
        assert(data.subrange(a, c) =~= Seq::<u8>::empty());
    } else {
        lemma_repeated_is_run(data, bpp, n, p, m - 1);
        let b = (p + m - 1) * bpp;
        lemma_pixel_span(n, bpp, p, p + m - 1);
        lemma_pixel_span(n, bpp, p + m - 1, p + m);
        let last = pixel_at(data, bpp, p + m - 1);
        assert(last == first) by {
            if m >= 2 {
                assert(same_as_next(data, bpp, p + m - 2));
                assert(p + m - 2 + 1 == p + m - 1);
            }
        }
        assert(last == data.subrange(b, c));
        lemma_subrange_split(data, a, b, c);
        assert(repeated(first, m) == repeated(first, m - 1) + first);
    }
}

/// Decoding the packets for the pixels from `p` on gives those pixels
/// back.
pub proof fn lemma_rle_round_trip_from(data: Seq<u8>, bpp: int, n: int, p: int)
    requires
        1 <= bpp,
        0 <= p <= n,
        data.len() == n * bpp,
    ensures
        rle_decoded(rle_from(data, bpp, n, p), bpp) == data.subrange(p * bpp, n * bpp),
    decreases n - p,
{
    lemma_pixel_span(n, bpp, p, n);
    if p >= n {
        assert(data.subrange(p * bpp, n * bpp) =~= Seq::<u8>::empty());
    } else {
        let len = chunk_pixels(data, bpp, n, p);
        lemma_chunk_pixels_bounds(data, bpp, n, p);
        lemma_pixel_span(n, bpp, p, p + len);
        lemma_pixel_span(n, bpp, p + len, n);
        lemma_pixel_span(n, bpp, p, p + 1);
        let chunk = chunk_bytes(data, bpp, n, p);
        let rest = rle_from(data, bpp, n, p + len);
        let packets = chunk + rest;
        lemma_rle_round_trip_from(data, bpp, n, p + len);
        let body = data.subrange(p * bpp, (p + len) * bpp);
        assert((p + len) * bpp - p * bpp == len * bpp) by (nonlinear_arith);
        if chunk_is_raw(data, bpp, n, p) {
            assert(packets[0] == len - 1);
            assert((packets[0] + 1) * bpp == len * bpp);
            assert(packets.subrange(1, 1 + len * bpp) =~= body);
            assert(packets.subrange(1 + len * bpp, packets.len() as int) =~= rest);
        } else {
            assert(packets[0] == len + 127);
            assert(packets.subrange(1, 1 + bpp) =~= pixel_at(data, bpp, p));
            assert(packets.subrange(1 + bpp, packets.len() as int) =~= rest);
            lemma_run_repeats(data, bpp, n, p, 2);
            lemma_repeated_is_run(data, bpp, n, p, len);
        }
        assert(rle_decoded(packets, bpp) == body + data.subrange((p + len) * bpp, n * bpp));
        assert(body + data.subrange((p + len) * bpp, n * bpp) =~= data.subrange(p * bpp, n * bpp));
    }
}

/// Decoding what the encoder writes gives the pixel data back.
pub proof fn lemma_rle_round_trip(data: Seq<u8>, bpp: int, n: int)
    requires
        1 <= bpp,
        0 <= n,
        data.len() == n * bpp,
    ensures
        rle_decoded(rle_encoded(data, bpp, n), bpp) == data,
{
    lemma_rle_round_trip_from(data, bpp, n, 0);
    assert(data.subrange(0 * bpp, n * bpp) =~= data);
}

} // verus!
