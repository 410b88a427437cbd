use vstd::prelude::*;

verus! {

/// An RGB triple; equality is exact channel-wise.
#[derive(Clone, Copy, Debug, PartialEq, Eq, Structural)]
pub struct Rgb {
    pub r: u8,
    pub g: u8,
    pub b: u8,
}

impl Rgb {
    /// The triple `(r, g, b)`.
    pub fn new(r: u8, g: u8, b: u8) -> (c: Rgb)
        ensures
            c == (Rgb { r, g, b }),
    {
        Rgb { r, g, b }
    }
}

/// Width/height-tagged RGBA8 pixel storage, row-major.
#[derive(Clone, Debug)]
pub struct PixelBuffer {
    pub pixels: Vec<u8>,
    pub width: usize,
    pub height: usize,
}

/// Number of pixels of a `w` by `h` buffer.
pub open spec fn pixel_count(w: int, h: int) -> int {
    w * h
}

/// Byte `c` (0 = red .. 3 = alpha) of pixel number `i` in flat RGBA8 storage.
pub open spec fn channel(p: Seq<u8>, i: int, c: int) -> u8 {
    p[4 * i + c]
}

/// Whether pixel number `i` has exactly the RGB value `k` (alpha ignored).
pub open spec fn pixel_has_rgb(p: Seq<u8>, i: int, k: Rgb) -> bool {
    channel(p, i, 0) == k.r && channel(p, i, 1) == k.g && channel(p, i, 2) == k.b
}

/// Component `c` (0, 1 or 2) of an RGB triple.
pub open spec fn rgb_component(k: Rgb, c: int) -> u8 {
    if c == 0 {
        k.r
    } else if c == 1 {
        k.g
    } else {
        k.b
    }
}

impl PixelBuffer {
    /// The storage holds exactly four bytes per pixel.
    pub open spec fn wf(&self) -> bool {
        self.pixels@.len() == pixel_count(self.width as int, self.height as int) * 4
    }

    /// Number of pixels of the buffer.
    pub open spec fn num_pixels(&self) -> int {
        pixel_count(self.width as int, self.height as int)
    }

    /// Builds a buffer; `None` where the byte count is not `width * height * 4`.
    pub fn from_rgba(pixels: Vec<u8>, width: usize, height: usize) -> (r: Option<PixelBuffer>)
        ensures
            r.is_some() <==> pixels@.len() == width * height * 4,
            r matches Some(b) ==> b.wf() && b.pixels@ == pixels@ && b.width == width
                && b.height == height,
    {
        let plen = pixels.len();
        let n = width.checked_mul(height);
        match n {
            Some(n) => {
                let len = n.checked_mul(4);
                match len {
                    Some(len) => {
                        if plen == len {
                            Some(PixelBuffer { pixels, width, height })
                        } else {
                            None
                        }
                    },
                    None => None,
                }
            },
            None => {
                proof {
                    if pixels@.len() == width * height * 4 {
                        assert(width * height <= width * height * 4) by (nonlinear_arith)
                            requires width * height >= 0;
                    }
                }
                None
            },
        }
    }
}

/// Pixel `(x, y)` of a `w`-wide buffer lies inside the storage of a `w` by `h` buffer.
pub proof fn lemma_pixel_index_bound(x: int, y: int, w: int, h: int)
    requires
        0 <= x < w,
        0 <= y < h,
    ensures
        0 <= y * w + x < w * h,
        0 <= y * w <= w * h,
{
    assert(0 <= y * w + x < w * h) by (nonlinear_arith)
        requires 0 <= x < w, 0 <= y < h;
    assert(0 <= y * w <= w * h) by (nonlinear_arith)
        requires 0 <= x < w, 0 <= y < h;
}

} // verus!
