//! The magnifier pipeline: pure computation from the snapshot cache to the
//! square pixel buffer shown in the overlay window. Extraction clamps at the
//! screen edges and pads out-of-bounds regions with the transparent pixel;
//! composition replicates each extracted pixel into a square block.

use vstd::prelude::*;
use crate::pixel::TRANSPARENT;
use crate::pixel::ensure_odd;
use crate::pixel::spec_ensure_odd;

verus! {

/// Side length of the snapshot-space square the magnifier extracts:
/// `preview_width / scale`, forced odd so the pointer's own pixel is the
/// well-defined center of the square.
pub open spec fn spec_rect_side(preview_width: int, scale: int) -> int {
    spec_ensure_odd(preview_width / scale)
}

/// The pixel at column `i`, row `j` of the extracted square: the cache pixel
/// under the square centered on the pointer, or the transparent sentinel
/// where the square extends past the screen.
pub open spec fn spec_rect_pixel(
    cache: Seq<u32>,
    w: int,
    h: int,
    px: int,
    py: int,
    size: int,
    i: int,
    j: int,
) -> u32 {
    let sx = px - size / 2 + i;
    let sy = py - size / 2 + j;
    if 0 <= sx < w && 0 <= sy < h {
        cache[sy * w + sx]
    } else {
        TRANSPARENT
    }
}

/// The whole extracted square, row-major.
pub open spec fn spec_extract_rect(
    cache: Seq<u32>,
    w: int,
    h: int,
    px: int,
    py: int,
    size: int,
) -> Seq<u32> {
    Seq::new(
        (size * size) as nat,
        |k: int| spec_rect_pixel(cache, w, h, px, py, size, k % size, k / size),
    )
}

/// Extracts the square region of side `spec_rect_side(preview_width, scale)`
/// centered on the pointer from the cached full-screen capture. Regions of
/// the square that fall outside the screen are padded with the transparent
/// pixel; every in-bounds position holds the cache pixel itself.
#[verifier::loop_isolation(false)]
pub fn get_rect_from_cache(
    cache: &Vec<u32>,
    cache_width: u16,
    cache_height: u16,
    pointer: (i16, i16),
    preview_width: u32,
    scale: u32,
) -> (r: (u16, Vec<u32>))
    requires
        cache@.len() == cache_width as int * cache_height as int,
        cache_width >= 1,
        cache_height >= 1,
        scale >= 1,
        preview_width <= 0xfffe,
    ensures
        r.0 as int == spec_rect_side(preview_width as int, scale as int),
        r.0 % 2 == 1,
        r.1@ == spec_extract_rect(
            cache@,
            cache_width as int,
            cache_height as int,
            pointer.0 as int,
            pointer.1 as int,
            r.0 as int,
        ),
        r.1@.len() == r.0 as int * r.0 as int,
{
    let size32: u32 = ensure_odd(preview_width / scale);
    let size: usize = size32 as usize;
    let half: i64 = (size32 as i64) / 2;
    let px: i64 = pointer.0 as i64;
    let py: i64 = pointer.1 as i64;
    let w: i64 = cache_width as i64;
    let h: i64 = cache_height as i64;
    let n: usize = cache.len();
    let mut pixels: Vec<u32> = Vec::new();
    let mut j: usize = 0;
    while j < size
        invariant
            j <= size,
            pixels@.len() == j * size,
            forall|k: int|
                0 <= k < pixels@.len() ==> pixels@[k] == spec_rect_pixel(
                    cache@,
                    w as int,
                    h as int,
                    px as int,
                    py as int,
                    size as int,
                    k % size as int,
                    k / size as int,
                ),
        decreases size - j,
    {
        let mut i: usize = 0;
        while i < size
            invariant
                i <= size,
                j < size,
                pixels@.len() == j * size + i,
                forall|k: int|
                    0 <= k < pixels@.len() ==> pixels@[k] == spec_rect_pixel(
                        cache@,
                        w as int,
                        h as int,
                        px as int,
                        py as int,
                        size as int,
                        k % size as int,
                        k / size as int,
                    ),
            decreases size - i,
        {
            let sx: i64 = px - half + i as i64;
            let sy: i64 = py - half + j as i64;
            let v: u32 = if 0 <= sx && sx < w && 0 <= sy && sy < h {
                proof {
                    lemma_row_major_bound(sx as int, sy as int, w as int, h as int);
                }
                cache[(sy * w + sx) as usize]
            } else {
                TRANSPARENT
            };
            proof {
                lemma_row_major_decompose(i as int, j as int, size as int);
            }
            pixels.push(v);
            i += 1;
        }
        proof {
            assert((j + 1) * size == j * size + size) by (nonlinear_arith);
        }
        j += 1;
    }
    proof {
        assert(pixels@ =~= spec_extract_rect(
            cache@,
            cache_width as int,
            cache_height as int,
            pointer.0 as int,
            pointer.1 as int,
            size32 as int,
        ));
    }
    (size32 as u16, pixels)
}

/// The integer replication factor used when upscaling the extracted square
/// to the destination frame: the quotient of the side lengths, forced odd
/// and pushed one step larger. The headroom keeps the composition's
/// boundary arithmetic inside the destination buffer.
pub open spec fn spec_pixel_size(dest_width: int, src_width: int) -> int {
    let q = dest_width / src_width;
    if q % 2 == 0 {
        q + 1
    } else {
        q + 2
    }
}

/// Computes `spec_pixel_size`: the upscaling factor for the composition.
pub fn upscale_pixel_size(dest_width: u32, src_width: u32) -> (r: u32)
    requires
        src_width >= 1,
        dest_width <= 0xffff,
    ensures
        r as int == spec_pixel_size(dest_width as int, src_width as int),
        r % 2 == 1,
        r >= 1,
{
    let q: u32 = dest_width / src_width;
    if q % 2 == 0 {
        q + 1
    } else {
        q + 2
    }
}

/// The source column or row a destination coordinate maps to: the
/// coordinate divided by the replication factor, clamped into the source
/// square.
pub open spec fn spec_src_index(v: int, pixel_size: int, src_width: int) -> int {
    if v / pixel_size >= src_width {
        src_width - 1
    } else {
        v / pixel_size
    }
}

/// The composed frame: each destination pixel holds the source pixel whose
/// block, `pixel_size` pixels on a side, covers it.
pub open spec fn spec_magnified(
    src: Seq<u32>,
    src_width: int,
    pixel_size: int,
    dest_width: int,
) -> Seq<u32> {
    Seq::new(
        (dest_width * dest_width) as nat,
        |k: int| src[spec_src_index(k / dest_width, pixel_size, src_width) * src_width
            + spec_src_index(k % dest_width, pixel_size, src_width)],
    )
}

/// Composes the magnified view: replicates each source pixel into a
/// `pixel_size` by `pixel_size` block of the destination square.
#[verifier::loop_isolation(false)]
pub fn draw_magnifying_glass(src: &Vec<u32>, src_width: u32, pixel_size: u32, dest_width: u32) -> (r:
    Vec<u32>)
    requires
        src@.len() == src_width as int * src_width as int,
        src_width >= 1,
        src_width <= 0xffff,
        pixel_size >= 1,
        dest_width <= 0xffff,
    ensures
        r@ == spec_magnified(src@, src_width as int, pixel_size as int, dest_width as int),
        r@.len() == dest_width as int * dest_width as int,
{
    let sw: usize = src_width as usize;
    let dw: usize = dest_width as usize;
    let p: usize = pixel_size as usize;
    let n: usize = src.len();
    let mut out: Vec<u32> = Vec::new();
    let mut j: usize = 0;
    while j < dw
        invariant
            j <= dw,
            out@.len() == j * dw,
            forall|k: int|
                0 <= k < out@.len() ==> out@[k] == src@[spec_src_index(
                    k / dw as int,
                    p as int,
                    sw as int,
                ) * sw as int + spec_src_index(k % dw as int, p as int, sw as int)],
        decreases dw - j,
    {
        let sj: usize = if j / p >= sw {
            sw - 1
        } else {
            j / p
        };
        let mut i: usize = 0;
        while i < dw
            invariant
                i <= dw,
                j < dw,
                sj == spec_src_index(j as int, p as int, sw as int),
                out@.len() == j * dw + i,
                forall|k: int|
                    0 <= k < out@.len() ==> out@[k] == src@[spec_src_index(
                        k / dw as int,
                        p as int,
                        sw as int,
                    ) * sw as int + spec_src_index(k % dw as int, p as int, sw as int)],
            decreases dw - i,
        {
            let si: usize = if i / p >= sw {
                sw - 1
            } else {
                i / p
            };
            proof {
                lemma_row_major_bound(si as int, sj as int, sw as int, sw as int);
                lemma_row_major_decompose(i as int, j as int, dw as int);
            }
            let idx: usize = sj * sw + si;
            out.push(src[idx]);
            i += 1;
        }
        proof {
            assert((j + 1) * dw == j * dw + dw) by (nonlinear_arith);
        }
        j += 1;
    }
    proof {
        assert(out@ =~= spec_magnified(
            src@,
            src_width as int,
            pixel_size as int,
            dest_width as int,
        ));
    }
    out
}

/// The whole render pipeline as one mathematical function: extract the
/// square around the pointer, then replicate it by the computed factor
/// into a frame `preview_width` pixels on a side.
pub open spec fn spec_magnifier_frame(
    cache: Seq<u32>,
    w: int,
    h: int,
    px: int,
    py: int,
    preview_width: int,
    scale: int,
) -> Seq<u32> {
    let side = spec_rect_side(preview_width, scale);
    spec_magnified(
        spec_extract_rect(cache, w, h, px, py, side),
        side,
        spec_pixel_size(preview_width, side),
        preview_width,
    )
}

/// Renders the magnifier frame for a pointer position from the cached
/// capture alone: pure computation, no display-server interaction. The
/// result is a function of the arguments, so rendering the same pointer
/// coordinate twice from the same cache yields byte-identical frames.
pub fn render_magnifier_from_cache(
    cache: &Vec<u32>,
    cache_width: u16,
    cache_height: u16,
    pointer: (i16, i16),
    preview_width: u32,
    scale: u32,
) -> (r: Vec<u32>)
    requires
        cache@.len() == cache_width as int * cache_height as int,
        cache_width >= 1,
        cache_height >= 1,
        scale >= 1,
        preview_width <= 0xfffe,
    ensures
        r@ == spec_magnifier_frame(
            cache@,
            cache_width as int,
            cache_height as int,
            pointer.0 as int,
            pointer.1 as int,
            preview_width as int,
            scale as int,
        ),
        r@.len() == preview_width as int * preview_width as int,
{
    let (side, rect) = get_rect_from_cache(
        cache,
        cache_width,
        cache_height,
        pointer,
        preview_width,
        scale,
    );
    let pixel_size: u32 = upscale_pixel_size(preview_width, side as u32);
    draw_magnifying_glass(&rect, side as u32, pixel_size, preview_width)
}

/// Law: when the centered square lies fully within the screen, every pixel
/// of the extracted square equals the corresponding cache pixel; no padding
/// is introduced.
pub proof fn lemma_interior_extraction(
    cache: Seq<u32>,
    w: int,
    h: int,
    px: int,
    py: int,
    size: int,
    i: int,
    j: int,
)
    requires
        size >= 1,
        0 <= i < size,
        0 <= j < size,
        0 <= px - size / 2,
        px - size / 2 + size <= w,
        0 <= py - size / 2,
        py - size / 2 + size <= h,
    ensures
        spec_extract_rect(cache, w, h, px, py, size)[j * size + i] == cache[(py - size / 2 + j) * w
            + (px - size / 2 + i)],
{
    lemma_edge_padding(cache, w, h, px, py, size, i, j);
}

/// Law: for any position of the extracted square, an out-of-bounds source
/// coordinate yields the transparent sentinel, and an in-bounds one yields
/// the cache pixel itself.
pub proof fn lemma_edge_padding(
    cache: Seq<u32>,
    w: int,
    h: int,
    px: int,
    py: int,
    size: int,
    i: int,
    j: int,
)
    requires
        size >= 1,
        0 <= i < size,
        0 <= j < size,
    ensures
        !(0 <= px - size / 2 + i < w && 0 <= py - size / 2 + j < h) ==> spec_extract_rect(
            cache,
            w,
            h,
            px,
            py,
            size,
        )[j * size + i] == TRANSPARENT,
        (0 <= px - size / 2 + i < w && 0 <= py - size / 2 + j < h) ==> spec_extract_rect(
            cache,
            w,
            h,
            px,
            py,
            size,
        )[j * size + i] == cache[(py - size / 2 + j) * w + (px - size / 2 + i)],
{
    lemma_row_major_decompose(i, j, size);
    assert(0 <= j * size + i < size * size) by (nonlinear_arith)
        requires
            0 <= i < size,
            0 <= j < size,
    ;
}

/// A row-major index from in-bounds coordinates stays inside the buffer,
/// and for screen-sized dimensions it fits comfortably in 64 bits.
proof fn lemma_row_major_bound(x: int, y: int, w: int, h: int)
    requires
        0 <= x < w,
        0 <= y < h,
        w <= 0x10000,
        h <= 0x10000,
    ensures
        0 <= y * w,
        y * w + x < w * h,
        w * h <= 0x100000000,
{
    assert(0 <= y * w && y * w + x < w * h && w * h <= 0x100000000) by (nonlinear_arith)
        requires
            0 <= x < w,
            0 <= y < h,
            w <= 0x10000,
            h <= 0x10000,
    ;
}

/// The row-major index `j * size + i` decomposes back into row `j` and
/// column `i`.
proof fn lemma_row_major_decompose(i: int, j: int, size: int)
    requires
        0 <= i < size,
        0 <= j,
    ensures
        (j * size + i) % size == i,
        (j * size + i) / size == j,
{
    assert((j * size + i) % size == i && (j * size + i) / size == j) by (nonlinear_arith)
        requires
            0 <= i < size,
            0 <= j,
    ;
}

} // verus!
