use vstd::prelude::*;
use crate::pixel::{
    PixelBuffer, Rgb, channel, lemma_pixel_index_bound, pixel_count, pixel_has_rgb,
    rgb_component,
};

verus! {

/// Row sampled as the `k`-th of five (top, quarter, half, three quarters, bottom).
pub open spec fn sample_row(h: int, k: int) -> int {
    if k == 0 {
        0
    } else if k == 1 {
        h / 4
    } else if k == 2 {
        h / 2
    } else if k == 3 {
        3 * h / 4
    } else {
        h - 1
    }
}

/// Number of pixels with alpha exactly 0 among the first `n` pixels of row `y`.
pub open spec fn row_transparent(p: Seq<u8>, w: int, y: int, n: int) -> nat
    decreases n,
{
    if n <= 0 {
        0
    } else {
        row_transparent(p, w, y, n - 1) + if channel(p, y * w + (n - 1), 3) == 0 {
            1nat
        } else {
            0nat
        }
    }
}

/// Transparent pixels counted over the first `k` sampled rows (a row sampled twice counts twice).
pub open spec fn sampled_transparent(p: Seq<u8>, w: int, h: int, k: int) -> nat
    decreases k,
{
    if k <= 0 {
        0
    } else {
        sampled_transparent(p, w, h, k - 1) + row_transparent(p, w, sample_row(h, k - 1), w)
    }
}

/// Transparent-pixel count at which keying is required: floor(2 * width * 0.2).
pub open spec fn key_threshold(w: int) -> int {
    (2 * w) / 5
}

/// Whether transparency keying is required for a `w` by `h` buffer.
pub open spec fn needs_keying(p: Seq<u8>, w: int, h: int) -> bool {
    w > 0 && h > 0 && sampled_transparent(p, w, h, 5) >= key_threshold(w)
}

proof fn lemma_row_transparent_mono(p: Seq<u8>, w: int, y: int, n: int, m: int)
    requires
        0 <= n <= m,
    ensures
        row_transparent(p, w, y, n) <= row_transparent(p, w, y, m),
    decreases m - n,
{
    if n < m {
        lemma_row_transparent_mono(p, w, y, n, m - 1);
    }
}

proof fn lemma_sampled_mono(p: Seq<u8>, w: int, h: int, k: int, j: int)
    requires
        0 <= k <= j,
    ensures
        sampled_transparent(p, w, h, k) <= sampled_transparent(p, w, h, j),
    decreases j - k,
{
    if k < j {
        lemma_sampled_mono(p, w, h, k, j - 1);
    }
}

fn sample_row_exec(h: usize, k: usize) -> (y: usize)
    requires
        1 <= h,
        3 * h <= usize::MAX,
        k < 5,
    ensures
        y == sample_row(h as int, k as int),
        y < h,
{
    if k == 0 {
        0
    } else if k == 1 {
        h / 4
    } else if k == 2 {
        h / 2
    } else if k == 3 {
        3 * h / 4
    } else {
        h - 1
    }
}

/// Keying detector: samples five rows and reports whether enough of their pixels are fully
/// transparent; stops scanning as soon as the threshold is reached.
pub fn should_key_image(img: &PixelBuffer) -> (r: bool)
    requires
        img.wf(),
    ensures
        r == needs_keying(img.pixels@, img.width as int, img.height as int),
{
    let w = img.width;
    let h = img.height;
    if w == 0 || h == 0 {
        return false;
    }
    let ghost p = img.pixels@;
    let len = img.pixels.len();
    proof {
        assert(w * 4 <= w * h * 4 && h * 4 <= w * h * 4) by (nonlinear_arith)
            requires w >= 1, h >= 1;
    }
    let threshold: usize = (2 * w) / 5;
    if threshold == 0 {
        return true;
    }
    let mut count: usize = 0;
    let mut k: usize = 0;
    while k < 5
        invariant
            0 <= k <= 5,
            w == img.width,
            h == img.height,
            p == img.pixels@,
            img.wf(),
            w >= 1,
            h >= 1,
            3 * h <= usize::MAX,
            p.len() <= usize::MAX,
            threshold == key_threshold(w as int),
            count == sampled_transparent(p, w as int, h as int, k as int),
            count < threshold,
        decreases 5 - k,
    {
        let y = sample_row_exec(h, k);
        proof {
            lemma_pixel_index_bound(0, y as int, w as int, h as int);
        }
        let base: usize = y * w;
        let mut x: usize = 0;
        while x < w
            invariant
                0 <= x <= w,
                0 <= k < 5,
                y < h,
                y == sample_row(h as int, k as int),
                base == y * w,
                w == img.width,
                h == img.height,
                p == img.pixels@,
                img.wf(),
                p.len() <= usize::MAX,
                threshold == key_threshold(w as int),
                count == sampled_transparent(p, w as int, h as int, k as int) + row_transparent(
                    p,
                    w as int,
                    y as int,
                    x as int,
                ),
                count < threshold,
            decreases w - x,
        {
            proof {
                lemma_pixel_index_bound(x as int, y as int, w as int, h as int);
            }
            let idx: usize = (base + x) * 4 + 3;
            if img.pixels[idx] == 0 {
                count = count + 1;
            }
            if count >= threshold {
                proof {
                    lemma_row_transparent_mono(p, w as int, y as int, x + 1, w as int);
                    lemma_sampled_mono(p, w as int, h as int, k + 1, 5);
                }
                return true;
            }
            x = x + 1;
        }
        k = k + 1;
    }
    false
}

/// Whether some pixel among the first `n` has the RGB value `k`.
pub open spec fn color_in_image(p: Seq<u8>, n: int, k: Rgb) -> bool {
    exists|i: int| 0 <= i < n && #[trigger] pixel_has_rgb(p, i, k)
}

/// Full scan: whether any pixel of the buffer has exactly the RGB value `color`.
pub fn color_exists_in_image(img: &PixelBuffer, color: Rgb) -> (r: bool)
    requires
        img.wf(),
    ensures
        r == color_in_image(img.pixels@, img.num_pixels(), color),
{
    let ghost p = img.pixels@;
    let len = img.pixels.len();
    proof {
        assert(img.width * img.height <= img.width * img.height * 4) by (nonlinear_arith)
            requires img.width * img.height >= 0;
    }
    let n: usize = img.width * img.height;
    let mut i: usize = 0;
    while i < n
        invariant
            0 <= i <= n,
            n == img.num_pixels(),
            p == img.pixels@,
            img.wf(),
            len == p.len(),
            forall|j: int| 0 <= j < i ==> !#[trigger] pixel_has_rgb(p, j, color),
        decreases n - i,
    {
        let base: usize = i * 4;
        if img.pixels[base] == color.r && img.pixels[base + 1] == color.g && img.pixels[base
            + 2] == color.b {
            assert(pixel_has_rgb(p, i as int, color));
            return true;
        }
        i = i + 1;
    }
    false
}

/// Key-color candidates in priority order: red, green, blue, yellow, cyan, magenta,
/// (1,1,1), (2,2,2), (254,254,254), purple, teal, olive.
pub open spec fn key_candidates() -> Seq<Rgb> {
    seq![
        Rgb { r: 255, g: 0, b: 0 },
        Rgb { r: 0, g: 255, b: 0 },
        Rgb { r: 0, g: 0, b: 255 },
        Rgb { r: 255, g: 255, b: 0 },
        Rgb { r: 0, g: 255, b: 255 },
        Rgb { r: 255, g: 0, b: 255 },
        Rgb { r: 1, g: 1, b: 1 },
        Rgb { r: 2, g: 2, b: 2 },
        Rgb { r: 254, g: 254, b: 254 },
        Rgb { r: 128, g: 0, b: 128 },
        Rgb { r: 0, g: 128, b: 128 },
        Rgb { r: 128, g: 128, b: 0 },
    ]
}

/// First candidate from position `k` on that no pixel of the image uses.
pub open spec fn first_unused_from(p: Seq<u8>, n: int, k: int) -> Option<Rgb>
    decreases key_candidates().len() - k,
{
    if k < 0 || k >= key_candidates().len() {
        None
    } else if !color_in_image(p, n, key_candidates()[k]) {
        Some(key_candidates()[k])
    } else {
        first_unused_from(p, n, k + 1)
    }
}

/// The key color for an image: the first candidate absent from it, if any.
pub open spec fn unused_key_color(p: Seq<u8>, n: int) -> Option<Rgb> {
    first_unused_from(p, n, 0)
}

/// Failure of the keying stage.
#[derive(Clone, Copy, Debug, PartialEq, Eq, Structural)]
pub enum KeyingError {
    /// Every key-color candidate already occurs in the image.
    NoUnusedColor,
}

impl KeyingError {
    /// The failure as text.
    pub fn message(&self) -> (s: String)
        ensures
            s@ == "unable to find unused color in image to use as key"@,
    {
        String::from_str("unable to find unused color in image to use as key")
    }
}

fn key_candidates_vec() -> (v: Vec<Rgb>)
    ensures
        v@ == key_candidates(),
{
    let v = vec![
        Rgb::new(255, 0, 0),
        Rgb::new(0, 255, 0),
        Rgb::new(0, 0, 255),
        Rgb::new(255, 255, 0),
        Rgb::new(0, 255, 255),
        Rgb::new(255, 0, 255),
        Rgb::new(1, 1, 1),
        Rgb::new(2, 2, 2),
        Rgb::new(254, 254, 254),
        Rgb::new(128, 0, 128),
        Rgb::new(0, 128, 128),
        Rgb::new(128, 128, 0),
    ];
    assert(v@ =~= key_candidates());
    v
}

/// Key-color selector: the first candidate, in priority order, that no pixel uses.
pub fn find_unused_color_in_image(img: &PixelBuffer) -> (r: Result<Rgb, KeyingError>)
    requires
        img.wf(),
    ensures
        r matches Ok(c) ==> unused_key_color(img.pixels@, img.num_pixels()) == Some(c),
        r is Err <==> unused_key_color(img.pixels@, img.num_pixels()) is None,
{
    let candidates = key_candidates_vec();
    let ghost p = img.pixels@;
    let ghost n = img.num_pixels();
    let mut i: usize = 0;
    while i < candidates.len()
        invariant
            0 <= i <= candidates.len(),
            candidates@ == key_candidates(),
            p == img.pixels@,
            n == img.num_pixels(),
            img.wf(),
            first_unused_from(p, n, 0) == first_unused_from(p, n, i as int),
        decreases candidates.len() - i,
    {
        let color = candidates[i];
        if !color_exists_in_image(img, color) {
            return Ok(color);
        }
        i = i + 1;
    }
    Err(KeyingError::NoUnusedColor)
}

/// Byte `c` of pixel `i` after keying with `key`: a fully transparent pixel becomes the key
/// color, made opaque so that the clustering engine matches it against the key; every other
/// pixel stays as it was.
pub open spec fn keyed_byte(p: Seq<u8>, key: Rgb, i: int, c: int) -> u8 {
    if channel(p, i, 3) == 0 {
        if c < 3 {
            rgb_component(key, c)
        } else {
            255
        }
    } else {
        channel(p, i, c)
    }
}

/// `q` is `p` with every pixel of alpha 0 recolored to `key`.
pub open spec fn keyed_image(p: Seq<u8>, q: Seq<u8>, key: Rgb, n: int) -> bool {
    q.len() == p.len() && forall|i: int, c: int|
        0 <= i < n && 0 <= c < 4 ==> #[trigger] q[4 * i + c] == keyed_byte(p, key, i, c)
}

/// Overwrites every pixel whose alpha is 0 with the opaque key color.
pub fn apply_key_color(img: &mut PixelBuffer, key: Rgb)
    requires
        old(img).wf(),
    ensures
        final(img).wf(),
        final(img).width == old(img).width,
        final(img).height == old(img).height,
        keyed_image(old(img).pixels@, final(img).pixels@, key, old(img).num_pixels()),
{
    let ghost p = img.pixels@;
    let len = img.pixels.len();
    proof {
        assert(img.width * img.height <= img.width * img.height * 4) by (nonlinear_arith)
            requires img.width * img.height >= 0;
    }
    let n: usize = img.width * img.height;
    let mut i: usize = 0;
    while i < n
        invariant
            0 <= i <= n,
            n == pixel_count(img.width as int, img.height as int),
            p.len() == n * 4,
            p.len() == len,
            img.pixels@.len() == p.len(),
            img.width == old(img).width,
            img.height == old(img).height,
            p == old(img).pixels@,
            forall|j: int, c: int|
                0 <= j < i && 0 <= c < 4 ==> #[trigger] img.pixels@[4 * j + c] == keyed_byte(
                    p,
                    key,
                    j,
                    c,
                ),
            forall|j: int| 4 * i <= j < p.len() ==> #[trigger] img.pixels@[j] == p[j],
        decreases n - i,
    {
        let base: usize = i * 4;
        if img.pixels[base + 3] == 0 {
            img.pixels[base] = key.r;
            img.pixels[base + 1] = key.g;
            img.pixels[base + 2] = key.b;
            img.pixels[base + 3] = 255;
        }
        proof {
            assert forall|j: int, c: int| 0 <= j <= i && 0 <= c < 4 implies #[trigger] img.pixels@[4
                * j + c] == keyed_byte(p, key, j, c) by {
                if j == i {
                    assert(4 * j + c == base + c);
                }
            }
        }
        i = i + 1;
    }
}

/// Keying stage: when keying is required, picks the key color and recolors the transparent
/// pixels with it; otherwise leaves the buffer as it is and yields no key.
pub fn key_image(img: &mut PixelBuffer) -> (r: Result<Option<Rgb>, KeyingError>)
    requires
        old(img).wf(),
    ensures
        final(img).wf(),
        final(img).width == old(img).width,
        final(img).height == old(img).height,
        !needs_keying(old(img).pixels@, old(img).width as int, old(img).height as int) ==> r == Ok::<
            Option<Rgb>,
            KeyingError,
        >(None) && final(img).pixels@ == old(img).pixels@,
        needs_keying(old(img).pixels@, old(img).width as int, old(img).height as int) ==> match
            unused_key_color(old(img).pixels@, old(img).num_pixels()) {
            Some(k) => r == Ok::<Option<Rgb>, KeyingError>(Some(k)) && keyed_image(
                old(img).pixels@,
                final(img).pixels@,
                k,
                old(img).num_pixels(),
            ),
            None => r == Err::<Option<Rgb>, KeyingError>(KeyingError::NoUnusedColor),
        },
{
    if should_key_image(img) {
        let key = find_unused_color_in_image(img)?;
        apply_key_color(img, key);
        Ok(Some(key))
    } else {
        Ok(None)
    }
}


/// A buffer with no columns or no rows never needs keying.
pub proof fn lemma_empty_buffer_not_keyed(p: Seq<u8>, w: int, h: int)
    requires
        w == 0 || h == 0,
    ensures
        !needs_keying(p, w, h),
{
}

/// Keying is required exactly when the sampled transparent count reaches the threshold:
/// at the threshold it is, one below it it is not.
pub proof fn lemma_keying_threshold(p: Seq<u8>, w: int, h: int)
    requires
        w > 0,
        h > 0,
    ensures
        sampled_transparent(p, w, h, 5) >= key_threshold(w) ==> needs_keying(p, w, h),
        sampled_transparent(p, w, h, 5) == key_threshold(w) - 1 ==> !needs_keying(p, w, h),
{
}

proof fn lemma_first_unused_from(p: Seq<u8>, n: int, k: int)
    requires
        0 <= k <= key_candidates().len(),
    ensures
        first_unused_from(p, n, k) is None <==> forall|j: int|
            k <= j < key_candidates().len() ==> color_in_image(p, n, #[trigger] key_candidates()[j]),
        forall|c: Rgb| first_unused_from(p, n, k) == Some(c) <==> exists|j: int|
            k <= j < key_candidates().len() && c == key_candidates()[j] && !color_in_image(
                p,
                n,
                key_candidates()[j],
            ) && forall|i: int| k <= i < j ==> color_in_image(p, n, #[trigger] key_candidates()[i]),
    decreases key_candidates().len() - k,
{
    if k < key_candidates().len() {
        lemma_first_unused_from(p, n, k + 1);
        assert forall|c: Rgb| first_unused_from(p, n, k) == Some(c) <==> exists|j: int|
            k <= j < key_candidates().len() && c == key_candidates()[j] && !color_in_image(
                p,
                n,
                key_candidates()[j],
            ) && forall|i: int| k <= i < j ==> color_in_image(p, n, #[trigger] key_candidates()[i]) by {
            if first_unused_from(p, n, k) == Some(c) {
                if !color_in_image(p, n, key_candidates()[k]) {
                    assert(k <= k < key_candidates().len() && c == key_candidates()[k]
                        && !color_in_image(p, n, key_candidates()[k]) && forall|i: int|
                        k <= i < k ==> color_in_image(p, n, #[trigger] key_candidates()[i]));
                } else {
                    let j = choose|j: int|
                        k + 1 <= j < key_candidates().len() && c == key_candidates()[j]
                            && !color_in_image(p, n, key_candidates()[j]) && forall|i: int|
                            k + 1 <= i < j ==> color_in_image(p, n, #[trigger] key_candidates()[i]);
                    assert(forall|i: int|
                        k <= i < j ==> color_in_image(p, n, #[trigger] key_candidates()[i]));
                }
            }
            if exists|j: int|
                k <= j < key_candidates().len() && c == key_candidates()[j] && !color_in_image(
                    p,
                    n,
                    key_candidates()[j],
                ) && forall|i: int| k <= i < j ==> color_in_image(p, n, #[trigger] key_candidates()[i]) {
                let j = choose|j: int|
                    k <= j < key_candidates().len() && c == key_candidates()[j] && !color_in_image(
                        p,
                        n,
                        key_candidates()[j],
                    ) && forall|i: int| k <= i < j ==> color_in_image(p, n, #[trigger] key_candidates()[i]);
                if j > k {
                    assert(color_in_image(p, n, key_candidates()[k]));
                    assert(k + 1 <= j < key_candidates().len() && c == key_candidates()[j]
                        && !color_in_image(p, n, key_candidates()[j]) && forall|i: int|
                        k + 1 <= i < j ==> color_in_image(p, n, #[trigger] key_candidates()[i]));
                }
            }
        }
    }
}

/// The key color is the first candidate, in priority order, that no pixel uses; there is
/// none exactly when every candidate occurs in the image.
pub proof fn lemma_key_color_is_first_unused(p: Seq<u8>, n: int)
    ensures
        unused_key_color(p, n) is None <==> forall|j: int|
            0 <= j < key_candidates().len() ==> color_in_image(p, n, #[trigger] key_candidates()[j]),
        forall|c: Rgb| unused_key_color(p, n) == Some(c) <==> exists|j: int|
            0 <= j < key_candidates().len() && c == key_candidates()[j] && !color_in_image(
                p,
                n,
                key_candidates()[j],
            ) && forall|i: int| 0 <= i < j ==> color_in_image(p, n, #[trigger] key_candidates()[i]),
{
    lemma_first_unused_from(p, n, 0);
}

} // verus!
