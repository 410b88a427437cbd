use vstd::prelude::*;
use crate::emission::{binary_emission_indices, kept_indices};
use crate::pixel::{PixelBuffer, channel};
use visioncortex::clusters::Clusters as BinaryClusters;
use visioncortex::{BinaryImage, ColorImage};

verus! {

/// Binary classification of a pixel by its red channel alone: black below 128.
pub open spec fn black_by_red(red: u8) -> bool {
    red < 128
}

/// Whether a pixel with red channel `red` is black in binary mode.
pub fn is_black(red: u8) -> (r: bool)
    ensures
        r == black_by_red(red),
{
    red < 128
}

#[verifier::external_type_specification]
#[verifier::external_body]
pub struct ExBinaryImage(BinaryImage);

#[verifier::external_type_specification]
#[verifier::external_body]
pub struct ExBinaryClusters(BinaryClusters);

/// The binary image of the first `n` pixels: black where the red channel is below 128.
pub open spec fn black_bits(p: Seq<u8>, n: int) -> Seq<bool> {
    Seq::new(n as nat, |i: int| black_by_red(channel(p, i, 0)))
}

/// Whether pixel `i` of a `w`-wide binary image opens a new cluster in a row-major scan: it
/// is black and neither its upper nor its left neighbour is.
pub open spec fn opens_cluster(bits: Seq<bool>, w: int, i: int) -> bool {
    bits[i] && (i < w || !bits[i - w]) && (i % w == 0 || !bits[i - 1])
}

/// Number of pixels among the first `n` that open a new cluster.
pub open spec fn cluster_openings(bits: Seq<bool>, w: int, n: int) -> nat
    decreases n,
{
    if n <= 0 {
        0
    } else {
        cluster_openings(bits, w, n - 1) + if opens_cluster(bits, w, n - 1) {
            1nat
        } else {
            0nat
        }
    }
}

/// Most clusters that the engine can open while scanning a binary image.
pub const MAX_CLUSTER_OPENINGS: usize = 65534;

/// Bits of a binary image in row-major order.
pub uninterp spec fn bits_of(b: BinaryImage) -> Seq<bool>;

/// Width of a binary image.
pub uninterp spec fn binary_width_of(b: BinaryImage) -> usize;

/// Height of a binary image.
pub uninterp spec fn binary_height_of(b: BinaryImage) -> usize;

/// Pixel counts, in the engine's order, of the connected black regions of a `w` by `h` binary
/// image, with or without diagonal adjacency.
pub uninterp spec fn component_sizes(bits: Seq<bool>, w: usize, h: usize, diagonal: bool) -> Seq<
    usize,
>;

/// Pixel count of each cluster that a binary cluster collection holds, in order.
pub uninterp spec fn cluster_sizes_of(c: BinaryClusters) -> Seq<usize>;

/// Relies on visioncortex's `ColorImage::to_binary_image`: an image of the same size whose
/// pixel at `(x, y)`, stored at `y * width + x`, is the predicate applied to the pixel at the
/// same place; the image must hold four bytes per pixel.
#[verifier::external_body]
fn to_binary_image(img: &PixelBuffer) -> (r: BinaryImage)
    requires
        img.wf(),
    ensures
        bits_of(r) == black_bits(img.pixels@, img.num_pixels()),
        binary_width_of(r) == img.width,
        binary_height_of(r) == img.height,
{
    let image = ColorImage { pixels: img.pixels.clone(), width: img.width, height: img.height };
    image.to_binary_image(|c| is_black(c.r))
}

/// Relies on visioncortex's `BinaryImage::to_clusters`: connected black regions, in the
/// engine's order. It panics once it has opened 65535 clusters, and it opens one only at a
/// pixel that opens a cluster in the sense of `opens_cluster`.
#[verifier::external_body]
fn to_clusters(img: &BinaryImage, diagonal: bool) -> (r: BinaryClusters)
    requires
        bits_of(*img).len() == binary_width_of(*img) * binary_height_of(*img),
        cluster_openings(bits_of(*img), binary_width_of(*img) as int, bits_of(*img).len() as int)
            <= MAX_CLUSTER_OPENINGS,
    ensures
        cluster_sizes_of(r) == component_sizes(
            bits_of(*img),
            binary_width_of(*img),
            binary_height_of(*img),
            diagonal,
        ),
{
    img.to_clusters(diagonal)
}

/// Relies on visioncortex's `Clusters::clusters`: the pixel count of each cluster, in order.
#[verifier::external_body]
fn cluster_sizes(c: &BinaryClusters) -> (r: Vec<usize>)
    ensures
        r@ == cluster_sizes_of(*c),
{
    c.clusters.iter().map(|k| k.points.len()).collect()
}

/// Binary thresholding stage: black where the red channel is below 128; green, blue and
/// alpha are ignored.
pub fn binarize(img: &PixelBuffer) -> (r: BinaryImage)
    requires
        img.wf(),
    ensures
        bits_of(r).len() == img.num_pixels(),
        forall|i: int|
            0 <= i < img.num_pixels() ==> #[trigger] bits_of(r)[i] == black_by_red(
                img.pixels@[4 * i],
            ),
        binary_width_of(r) == img.width,
        binary_height_of(r) == img.height,
{
    to_binary_image(img)
}

/// Number of pixels of the buffer that open a cluster of its binary image.
pub fn count_cluster_openings(img: &PixelBuffer) -> (r: usize)
    requires
        img.wf(),
    ensures
        r == cluster_openings(
            black_bits(img.pixels@, img.num_pixels()),
            img.width as int,
            img.num_pixels(),
        ),
{
    let ghost bits = black_bits(img.pixels@, img.num_pixels());
    let len = img.pixels.len();
    proof {
        assert(img.width * img.height <= img.width * img.height * 4) by (nonlinear_arith)
            requires img.width * img.height >= 0;
    }
    let w = img.width;
    let n: usize = img.width * img.height;
    let mut count: usize = 0;
    let mut i: usize = 0;
    while i < n
        invariant
            0 <= i <= n,
            n == img.num_pixels(),
            w == img.width,
            img.wf(),
            len == img.pixels@.len(),
            bits == black_bits(img.pixels@, img.num_pixels()),
            count == cluster_openings(bits, w as int, i as int),
            count <= i,
        decreases n - i,
    {
        let black = img.pixels[i * 4] < 128;
        let up_black = i >= w && img.pixels[(i - w) * 4] < 128;
        let left_black = i > 0 && i % w != 0 && img.pixels[(i - 1) * 4] < 128;
        proof {
            let ww = w as int;
            let hh = img.height as int;
            let ii = i as int;
            assert(ww > 0) by (nonlinear_arith)
                requires ii < ww * hh, 0 <= ii, 0 <= hh, 0 <= ww;
            assert(bits[ii] == black_by_red(img.pixels@[4 * ii]));
            if ii >= ww {
                assert(bits[ii - ww] == black_by_red(img.pixels@[4 * (ii - ww)]));
            }
            if ii > 0 {
                assert(bits[ii - 1] == black_by_red(img.pixels@[4 * (ii - 1)]));
            } else {
                assert(0int % ww == 0);
            }
            assert(opens_cluster(bits, ww, ii) == (black && !up_black && !left_black));
        }
        if black && !up_black && !left_black {
            count = count + 1;
        }
        i = i + 1;
    }
    count
}

/// Connected components of a binary image with the clusters that survive the speckle filter.
pub struct BinaryClustering {
    pub clusters: BinaryClusters,
    /// Pixel count of every cluster, in the engine's order.
    pub sizes: Vec<usize>,
    /// Indices of the clusters to emit, in the engine's order.
    pub kept: Vec<usize>,
}

/// Binary clustering stage: non-diagonal connected components, and the indices, in native
/// order, of those whose area reaches `filter_speckle * filter_speckle`.
///
/// The engine gives up when its cluster counter reaches 65535. That counter grows only at a
/// pixel that opens a cluster (and may shrink again after a merge), so at most
/// `MAX_CLUSTER_OPENINGS` openings is a sufficient condition for it to finish. It is stricter
/// than the engine's own limit: a few images with more openings, whose counter shrinks along
/// the way, would also be clustered, and are refused here.
pub fn cluster_binary(img: &BinaryImage, filter_speckle: usize) -> (r: BinaryClustering)
    requires
        bits_of(*img).len() == binary_width_of(*img) * binary_height_of(*img),
        cluster_openings(bits_of(*img), binary_width_of(*img) as int, bits_of(*img).len() as int)
            <= MAX_CLUSTER_OPENINGS,
    ensures
        r.sizes@ == cluster_sizes_of(r.clusters),
        r.sizes@ == component_sizes(
            bits_of(*img),
            binary_width_of(*img),
            binary_height_of(*img),
            false,
        ),
        r.kept@ == kept_indices(r.sizes@, filter_speckle as int, r.sizes@.len() as int),
        forall|i: int, j: int| 0 <= i < j < r.kept@.len() ==> r.kept@[i] < r.kept@[j],
{
    let clusters = to_clusters(img, false);
    let sizes = cluster_sizes(&clusters);
    let kept = binary_emission_indices(&sizes, filter_speckle);
    BinaryClustering { clusters, sizes, kept }
}

} // verus!
