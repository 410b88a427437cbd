use vstd::prelude::*;
use crate::config::{Hierarchical, TracingConfig};
use crate::emission::color_emission_order;
use crate::pixel::{PixelBuffer, Rgb};
use visioncortex::color_clusters::{Clusters, KeyingAction, Runner, RunnerConfig};
use visioncortex::{Color, ColorImage};

verus! {

/// Hierarchy depth meaning "as deep as the clustering engine goes" (the engine's own
/// `HIERARCHICAL_MAX`, the largest `u32`).
pub const HIERARCHICAL_MAX: u32 = 4294967295;

/// Batch size handed to the clustering engine on every pass.
pub const CLUSTER_BATCH_SIZE: i32 = 25600;

/// Parameters of one pass of the color clustering engine.
#[derive(Clone, Copy, Debug, PartialEq, Eq, Structural)]
pub struct ClusterParams {
    pub diagonal: bool,
    pub hierarchical: u32,
    pub batch_size: i32,
    pub good_min_area: usize,
    pub good_max_area: usize,
    pub is_same_color_a: i32,
    pub is_same_color_b: i32,
    pub deepen_diff: i32,
    pub hollow_neighbours: usize,
    /// Color of keyed pixels; `None` when the image was not keyed.
    pub key_color: Option<Rgb>,
    pub keying: KeyingMode,
}

/// What the clustering engine does with pixels of the key color.
#[derive(Clone, Copy, Debug, PartialEq, Eq, Structural)]
pub enum KeyingMode {
    /// Key-colored regions stay as clusters of their own, for re-processing.
    Keep,
    /// Key-colored regions are background and are dropped.
    Discard,
}

/// Parameters of the primary clustering pass of the color pipeline.
pub open spec fn primary_params(
    config: TracingConfig,
    key: Option<Rgb>,
    width: int,
    height: int,
) -> ClusterParams {
    ClusterParams {
        diagonal: config.layer_difference == 0,
        hierarchical: HIERARCHICAL_MAX,
        batch_size: CLUSTER_BATCH_SIZE,
        good_min_area: (config.filter_speckle * config.filter_speckle) as usize,
        good_max_area: (width * height) as usize,
        is_same_color_a: (8 - config.color_precision) as i32,
        is_same_color_b: 1,
        deepen_diff: config.layer_difference,
        hollow_neighbours: 1,
        key_color: key,
        keying: if config.hierarchical == Hierarchical::Cutout {
            KeyingMode::Keep
        } else {
            KeyingMode::Discard
        },
    }
}

/// Parameters of the re-clustering pass of the cutout strategy.
pub open spec fn cutout_params(key: Option<Rgb>, width: int, height: int) -> ClusterParams {
    ClusterParams {
        diagonal: false,
        hierarchical: 64,
        batch_size: CLUSTER_BATCH_SIZE,
        good_min_area: 0,
        good_max_area: (width * height) as usize,
        is_same_color_a: 0,
        is_same_color_b: 1,
        deepen_diff: 0,
        hollow_neighbours: 0,
        key_color: key,
        keying: KeyingMode::Discard,
    }
}

/// Clustering adapter, primary pass: translates the configuration for a `width` by `height`
/// image keyed with `key`.
pub fn primary_cluster_params(config: &TracingConfig, key: Option<Rgb>, width: usize, height: usize) -> (r:
    ClusterParams)
    requires
        width * height <= usize::MAX,
        config.filter_speckle * config.filter_speckle <= usize::MAX,
        1 <= config.color_precision <= 8,
    ensures
        r == primary_params(*config, key, width as int, height as int),
{
    ClusterParams {
        diagonal: config.layer_difference == 0,
        hierarchical: HIERARCHICAL_MAX,
        batch_size: CLUSTER_BATCH_SIZE,
        good_min_area: config.filter_speckle * config.filter_speckle,
        good_max_area: width * height,
        is_same_color_a: 8 - config.color_precision,
        is_same_color_b: 1,
        deepen_diff: config.layer_difference,
        hollow_neighbours: 1,
        key_color: key,
        keying: match config.hierarchical {
            Hierarchical::Cutout => KeyingMode::Keep,
            Hierarchical::Stacked => KeyingMode::Discard,
        },
    }
}

/// Clustering adapter, cutout pass over the `width` by `height` image rendered from the
/// primary clusters.
pub fn cutout_cluster_params(key: Option<Rgb>, width: usize, height: usize) -> (r: ClusterParams)
    requires
        width * height <= usize::MAX,
    ensures
        r == cutout_params(key, width as int, height as int),
{
    ClusterParams {
        diagonal: false,
        hierarchical: 64,
        batch_size: CLUSTER_BATCH_SIZE,
        good_min_area: 0,
        good_max_area: width * height,
        is_same_color_a: 0,
        is_same_color_b: 1,
        deepen_diff: 0,
        hollow_neighbours: 0,
        key_color: key,
        keying: KeyingMode::Discard,
    }
}

#[verifier::external_type_specification]
#[verifier::external_body]
pub struct ExClusters(Clusters);

/// Output cluster indices that the clustering engine gives for a pass with parameters `p` over
/// a `w` by `h` RGBA8 image `pixels`; the engine's result depends on these alone.
pub uninterp spec fn engine_output(p: ClusterParams, pixels: Seq<u8>, w: usize, h: usize) -> Seq<
    u32,
>;

/// Indices of the output clusters that a cluster collection holds, in the engine's order.
pub uninterp spec fn output_indices_of(c: Clusters) -> Seq<u32>;

/// Bytes of the image that a cluster collection renders to.
pub uninterp spec fn rendered_pixels_of(c: Clusters) -> Seq<u8>;

/// Width of the image that a cluster collection renders to.
pub uninterp spec fn rendered_width_of(c: Clusters) -> usize;

/// Height of the image that a cluster collection renders to.
pub uninterp spec fn rendered_height_of(c: Clusters) -> usize;

/// Relies on visioncortex's `Runner::run`: clusters the pixels of `img` under the parameters
/// `p`, each copied into its `RunnerConfig` field. A key becomes the opaque `Color::new`; no key
/// becomes `Color::default()`, which the engine reads as "no key". The engine reads four bytes
/// per pixel, asserts a shift below 8 and shifts channels by it, and advances through the
/// pixels `batch_size` at a time, so it returns only for a positive batch size.
#[verifier::external_body]
fn run_clustering(p: &ClusterParams, img: PixelBuffer) -> (r: Clusters)
    requires
        img.wf(),
        0 <= p.is_same_color_a < 8,
        p.batch_size > 0,
    ensures
        output_indices_of(r) == engine_output(*p, img.pixels@, img.width, img.height),
{
    let key_color = match p.key_color { Some(k) => Color::new(k.r, k.g, k.b), None => Color::default() };
    let keying_action = match p.keying { KeyingMode::Keep => KeyingAction::Keep, KeyingMode::Discard => KeyingAction::Discard };
    let config = RunnerConfig { diagonal: p.diagonal, hierarchical: p.hierarchical, batch_size: p.batch_size, good_min_area: p.good_min_area, good_max_area: p.good_max_area, is_same_color_a: p.is_same_color_a, is_same_color_b: p.is_same_color_b, deepen_diff: p.deepen_diff, hollow_neighbours: p.hollow_neighbours, key_color, keying_action };
    let image = ColorImage { pixels: img.pixels, width: img.width, height: img.height };
    Runner::new(config, image).run()
}

/// Relies on visioncortex's `ClustersView::to_color_image`: an image of the clusters'
/// dimensions, built by `ColorImage::new_w_h` (four zero bytes per pixel) and painted in place.
#[verifier::external_body]
fn render_clusters(c: &Clusters) -> (img: PixelBuffer)
    ensures
        img.wf(),
        img.pixels@ == rendered_pixels_of(*c),
        img.width == rendered_width_of(*c),
        img.height == rendered_height_of(*c),
{
    let image = c.view().to_color_image();
    PixelBuffer { pixels: image.pixels, width: image.width, height: image.height }
}

/// Relies on visioncortex's `ClustersView::clusters_output`: the indices of the output
/// clusters, in the engine's order.
#[verifier::external_body]
fn output_cluster_indices(c: &Clusters) -> (r: Vec<u32>)
    ensures
        r@ == output_indices_of(*c),
{
    c.view().clusters_output.iter().map(|i| i.0).collect()
}

/// Primary clustering pass of the color pipeline, on the keyed image.
pub fn primary_clustering(img: PixelBuffer, config: &TracingConfig, key: Option<Rgb>) -> (r:
    Clusters)
    requires
        img.wf(),
        config.filter_speckle * config.filter_speckle <= usize::MAX,
        1 <= config.color_precision <= 8,
    ensures
        output_indices_of(r) == engine_output(
            primary_params(*config, key, img.width as int, img.height as int),
            img.pixels@,
            img.width,
            img.height,
        ),
{
    let len = img.pixels.len();
    proof {
        assert(img.width * img.height <= img.width * img.height * 4) by (nonlinear_arith)
            requires img.width * img.height >= 0;
    }
    let params = primary_cluster_params(config, key, img.width, img.height);
    run_clustering(&params, img)
}

/// Optional cutout pass: with the cutout strategy the primary clusters are rendered back
/// into an image and clustered again with the fixed cutout parameters; with the stacked
/// strategy they are kept as they are.
pub fn cutout_reclustering(clusters: Clusters, config: &TracingConfig, key: Option<Rgb>) -> (r:
    Clusters)
    ensures
        config.hierarchical == Hierarchical::Stacked ==> r == clusters,
        config.hierarchical == Hierarchical::Cutout ==> output_indices_of(r) == engine_output(
            cutout_params(
                key,
                rendered_width_of(clusters) as int,
                rendered_height_of(clusters) as int,
            ),
            rendered_pixels_of(clusters),
            rendered_width_of(clusters),
            rendered_height_of(clusters),
        ),
{
    match config.hierarchical {
        Hierarchical::Stacked => clusters,
        Hierarchical::Cutout => {
            let image = render_clusters(&clusters);
            let len = image.pixels.len();
            proof {
                assert(image.width * image.height <= image.width * image.height * 4)
                    by (nonlinear_arith)
                    requires image.width * image.height >= 0;
            }
            let params = cutout_cluster_params(key, image.width, image.height);
            run_clustering(&params, image)
        },
    }
}

/// Order in which the final color clusters become paths: the engine's output, last first.
pub fn color_emission_sequence(clusters: &Clusters) -> (r: Vec<u32>)
    ensures
        r@.len() == output_indices_of(*clusters).len(),
        forall|i: int|
            0 <= i < r@.len() ==> #[trigger] r@[i] == output_indices_of(*clusters)[r@.len() - 1
                - i],
{
    let output = output_cluster_indices(clusters);
    color_emission_order(&output)
}

} // verus!
