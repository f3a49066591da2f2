//! The snapshot cache: one immutable full-screen pixel capture, taken before
//! the overlay window exists. It is the sole data source both for rendering
//! the magnifier and for the final color pick, which avoids re-capturing a
//! screen that already shows the overlay's own pixels.

use vstd::prelude::*;

verus! {

/// An immutable rectangular pixel buffer covering the whole screen,
/// row-major, one packed 32-bit ARGB value per pixel.
pub struct Snapshot {
    pub pixels: Vec<u32>,
    pub width: u16,
    pub height: u16,
}

/// A coordinate clamped to `[0, limit)`: off-screen positions resolve to the
/// nearest valid pixel on that axis.
pub open spec fn spec_clamp(v: int, limit: int) -> int {
    if v < 0 {
        0
    } else if v >= limit {
        limit - 1
    } else {
        v
    }
}

impl Snapshot {
    /// Well-formed: a non-empty screen with exactly one pixel per coordinate.
    pub open spec fn wf(self) -> bool {
        &&& self.width >= 1
        &&& self.height >= 1
        &&& self.pixels@.len() == self.width as int * self.height as int
    }

    /// The pixel at column `x`, row `y`, both taken to be in bounds.
    pub open spec fn pixel_at(self, x: int, y: int) -> u32 {
        self.pixels@[y * self.width as int + x]
    }

    /// The color a pick at raw event coordinates resolves to: both axes are
    /// clamped to the screen independently, then the pixel is read.
    pub open spec fn spec_picked_color(self, x: int, y: int) -> u32 {
        self.pixel_at(spec_clamp(x, self.width as int), spec_clamp(y, self.height as int))
    }

    /// Wraps a captured buffer. Returns `None` unless the dimensions are
    /// non-empty and the buffer holds exactly one pixel per coordinate.
    pub fn new(pixels: Vec<u32>, width: u16, height: u16) -> (r: Option<Snapshot>)
        ensures
            r is Some <==> (width >= 1 && height >= 1 && pixels@.len() == width as int
                * height as int),
            r matches Some(s) ==> s.pixels@ == pixels@ && s.width == width && s.height == height
                && s.wf(),
    {
        if width >= 1 && height >= 1 && pixels.len() / (width as usize) == height as usize
            && pixels.len() % (width as usize) == 0 {
            proof {
                lemma_div_mod_exact(pixels@.len() as int, width as int, height as int);
            }
            Some(Snapshot { pixels, width, height })
        } else {
            proof {
                if width >= 1 && height >= 1 && pixels@.len() == width as int * height as int {
                    lemma_mul_div_mod(width as int, height as int);
                }
            }
            None
        }
    }

    /// Reads the color under raw event coordinates, clamping each axis to
    /// the screen so that off-screen reports resolve to an edge pixel
    /// instead of reading out of bounds.
    pub fn pick_color(&self, x: i16, y: i16) -> (r: u32)
        requires
            self.wf(),
        ensures
            r == self.spec_picked_color(x as int, y as int),
    {
        let n: usize = self.pixels.len();
        let cx: usize = clamp_coord(x, self.width);
        let cy: usize = clamp_coord(y, self.height);
        proof {
            lemma_row_major_bound(cx as int, cy as int, self.width as int, self.height as int);
        }
        let idx: usize = cy * (self.width as usize) + cx;
        self.pixels[idx]
    }
}

/// Clamps a raw event coordinate to `[0, limit)`.
pub fn clamp_coord(v: i16, limit: u16) -> (r: usize)
    requires
        limit >= 1,
    ensures
        r == spec_clamp(v as int, limit as int),
        r < limit,
{
    if v < 0 {
        0
    } else if v as u16 >= limit {
        (limit - 1) as usize
    } else {
        v as usize
    }
}

/// A row-major index from in-bounds coordinates stays inside the buffer.
proof fn lemma_row_major_bound(x: int, y: int, w: int, h: int)
    requires
        0 <= x < w,
        0 <= y < h,
    ensures
        0 <= y * w + x < w * h,
{
    assert(0 <= y * w + x < w * h) by (nonlinear_arith)
        requires
            0 <= x < w,
            0 <= y < h,
    ;
}

/// If `n / w == h` exactly with remainder zero, then `n == w * h`.
proof fn lemma_div_mod_exact(n: int, w: int, h: int)
    requires
        w >= 1,
        n >= 0,
        n / w == h,
        n % w == 0,
    ensures
        n == w * h,
{
    assert(n == w * (n / w) + n % w) by (nonlinear_arith)
        requires
            w >= 1,
            n >= 0,
    ;
}

/// The converse: `w * h` divided by `w` gives `h` with remainder zero.
proof fn lemma_mul_div_mod(w: int, h: int)
    requires
        w >= 1,
        h >= 0,
    ensures
        (w * h) / w == h,
        (w * h) % w == 0,
{
    assert((w * h) / w == h && (w * h) % w == 0) by (nonlinear_arith)
        requires
            w >= 1,
            h >= 0,
    ;
}

} // verus!
