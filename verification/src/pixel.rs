//! Packed ARGB pixel values and their wire encoding.
//!
//! A pixel is one 32-bit value holding alpha and the three color channels.
//! The fully transparent pixel is the all-zero value; it is the padding the
//! magnifier uses for regions that fall outside the captured screen.

use vstd::prelude::*;

verus! {

/// The fully transparent pixel: alpha and all color channels zero.
pub const TRANSPARENT: u32 = 0;

/// Forces a value to be odd: odd values are unchanged, even values are
/// raised to the next odd value. Odd side lengths give the magnifier a
/// well-defined center pixel under the pointer.
pub fn ensure_odd(n: u32) -> (r: u32)
    ensures
        r == spec_ensure_odd(n as int),
        r % 2 == 1,
        n % 2 == 1 ==> r == n,
        n % 2 == 0 ==> r == n + 1,
{
    if n % 2 == 0 {
        n + 1
    } else {
        n
    }
}

/// What `ensure_odd` returns: the argument if odd, one more if even.
pub open spec fn spec_ensure_odd(n: int) -> int {
    if n % 2 == 0 {
        n + 1
    } else {
        n
    }
}

/// The byte at offset `b` (0 to 3) of a pixel's little-endian encoding.
pub open spec fn spec_pixel_byte(v: u32, b: int) -> u8 {
    if b == 0 {
        (v & 0xff) as u8
    } else if b == 1 {
        ((v >> 8) & 0xff) as u8
    } else if b == 2 {
        ((v >> 16) & 0xff) as u8
    } else {
        ((v >> 24) & 0xff) as u8
    }
}

/// The little-endian byte stream of a pixel buffer, four bytes per pixel.
pub open spec fn spec_pixel_bytes(pixels: Seq<u32>) -> Seq<u8> {
    Seq::new((4 * pixels.len()) as nat, |k: int| spec_pixel_byte(pixels[k / 4], k % 4))
}

/// The pixel a group of four little-endian bytes decodes to.
pub open spec fn spec_u32_of_bytes(b0: u8, b1: u8, b2: u8, b3: u8) -> u32 {
    (b0 as u32) | ((b1 as u32) << 8) | ((b2 as u32) << 16) | ((b3 as u32) << 24)
}

/// The pixel buffer a little-endian byte stream decodes to, four bytes per
/// pixel.
pub open spec fn spec_bytes_pixels(bytes: Seq<u8>) -> Seq<u32> {
    Seq::new(
        (bytes.len() / 4) as nat,
        |k: int| spec_u32_of_bytes(bytes[4 * k], bytes[4 * k + 1], bytes[4 * k + 2], bytes[4 * k
            + 3]),
    )
}

/// Packs a pixel buffer into the explicit little-endian byte stream the
/// image-upload request carries, four bytes per pixel, least significant
/// first.
#[verifier::loop_isolation(false)]
pub fn pixels_to_bytes(pixels: &Vec<u32>) -> (r: Vec<u8>)
    ensures
        r@ == spec_pixel_bytes(pixels@),
        r@.len() == 4 * pixels@.len(),
{
    let n: usize = pixels.len();
    let mut out: Vec<u8> = Vec::new();
    let mut i: usize = 0;
    while i < n
        invariant
            i <= n,
            out@.len() == 4 * i,
            forall|k: int| 0 <= k < out@.len() ==> out@[k] == spec_pixel_byte(pixels@[k / 4], k % 4),
        decreases n - i,
    {
        let v: u32 = pixels[i];
        proof {
            lemma_byte_masks(v);
            lemma_quad_decompose(i as int, 0);
            lemma_quad_decompose(i as int, 1);
            lemma_quad_decompose(i as int, 2);
            lemma_quad_decompose(i as int, 3);
        }
        out.push((v & 0xff) as u8);
        out.push(((v >> 8) & 0xff) as u8);
        out.push(((v >> 16) & 0xff) as u8);
        out.push(((v >> 24) & 0xff) as u8);
        i += 1;
    }
    proof {
        assert(out@ =~= spec_pixel_bytes(pixels@));
    }
    out
}

/// Decodes a little-endian byte stream, as an image reply carries it, into
/// a pixel buffer. Returns `None` exactly when the length is not a whole
/// number of four-byte pixels.
#[verifier::loop_isolation(false)]
pub fn bytes_to_pixels(bytes: &Vec<u8>) -> (r: Option<Vec<u32>>)
    ensures
        r is Some <==> bytes@.len() % 4 == 0,
        r matches Some(p) ==> p@ == spec_bytes_pixels(bytes@),
{
    let len: usize = bytes.len();
    if len % 4 != 0 {
        return None;
    }
    let n: usize = len / 4;
    let mut out: Vec<u32> = Vec::new();
    let mut i: usize = 0;
    while i < n
        invariant
            i <= n,
            n == bytes@.len() / 4,
            bytes@.len() % 4 == 0,
            out@.len() == i,
            forall|k: int|
                0 <= k < out@.len() ==> out@[k] == spec_u32_of_bytes(
                    bytes@[4 * k],
                    bytes@[4 * k + 1],
                    bytes@[4 * k + 2],
                    bytes@[4 * k + 3],
                ),
        decreases n - i,
    {
        proof {
            assert(bytes@.len() == 4 * n) by (nonlinear_arith)
                requires
                    n == bytes@.len() / 4,
                    bytes@.len() % 4 == 0,
                    bytes@.len() >= 0,
            ;
        }
        let base: usize = 4 * i;
        let v: u32 = (bytes[base] as u32) | ((bytes[base + 1] as u32) << 8u32) | ((bytes[base
            + 2] as u32) << 16u32) | ((bytes[base + 3] as u32) << 24u32);
        out.push(v);
        i += 1;
    }
    proof {
        assert(out@ =~= spec_bytes_pixels(bytes@));
    }
    Some(out)
}

/// Law: decoding the little-endian byte stream of a pixel buffer yields
/// that buffer back, so the upload encoding loses nothing.
pub proof fn lemma_pixel_bytes_round_trip(pixels: Seq<u32>)
    ensures
        spec_pixel_bytes(pixels).len() % 4 == 0,
        spec_bytes_pixels(spec_pixel_bytes(pixels)) == pixels,
{
    let bytes = spec_pixel_bytes(pixels);
    assert(bytes.len() == 4 * pixels.len());
    assert forall|k: int| 0 <= k < pixels.len() implies spec_bytes_pixels(bytes)[k]
        == pixels[k] by {
        lemma_quad_decompose(k, 0);
        lemma_quad_decompose(k, 1);
        lemma_quad_decompose(k, 2);
        lemma_quad_decompose(k, 3);
        lemma_le_round_trip(pixels[k]);
    }
    assert(spec_bytes_pixels(bytes) =~= pixels);
}

/// Reassembling a pixel's four little-endian bytes gives the pixel back.
proof fn lemma_le_round_trip(v: u32)
    ensures
        ((v & 0xff) as u8 as u32) | ((((v >> 8) & 0xff) as u8 as u32) << 8) | ((((v >> 16)
            & 0xff) as u8 as u32) << 16) | ((((v >> 24) & 0xff) as u8 as u32) << 24) == v,
{
    assert(((v & 0xff) as u8 as u32) | ((((v >> 8) & 0xff) as u8 as u32) << 8) | ((((v >> 16)
        & 0xff) as u8 as u32) << 16) | ((((v >> 24) & 0xff) as u8 as u32) << 24) == v)
        by (bit_vector);
}

/// Each masked byte of a pixel fits in eight bits.
proof fn lemma_byte_masks(v: u32)
    ensures
        v & 0xff < 256,
        (v >> 8) & 0xff < 256,
        (v >> 16) & 0xff < 256,
        (v >> 24) & 0xff < 256,
{
    assert(v & 0xff < 256 && (v >> 8) & 0xff < 256 && (v >> 16) & 0xff < 256 && (v >> 24) & 0xff
        < 256) by (bit_vector);
}

/// The byte-stream index `4 * i + b` decomposes back into pixel `i`,
/// byte offset `b`.
proof fn lemma_quad_decompose(i: int, b: int)
    requires
        0 <= b < 4,
        0 <= i,
    ensures
        (4 * i + b) / 4 == i,
        (4 * i + b) % 4 == b,
{
    assert((4 * i + b) / 4 == i && (4 * i + b) % 4 == b) by (nonlinear_arith)
        requires
            0 <= b < 4,
            0 <= i,
    ;
}

} // verus!
