use vtracer_wasm::binary::{
    binarize, cluster_binary, count_cluster_openings, is_black, MAX_CLUSTER_OPENINGS,
};
use vtracer_wasm::clustering::{
    color_emission_sequence, cutout_cluster_params, cutout_reclustering, primary_cluster_params,
    primary_clustering, KeyingMode, CLUSTER_BATCH_SIZE, HIERARCHICAL_MAX,
};
use vtracer_wasm::config::{
    parse_color_mode, parse_hierarchical, parse_preset, parse_simplify_mode, resolve_config,
    ColorMode, Hierarchical, Preset, SimplifyMode, TracingConfig, TracingOverrides,
    ValidationError,
};
use vtracer_wasm::emission::{binary_emission_indices, color_emission_order, meets_speckle_area};
use vtracer_wasm::keying::{
    apply_key_color, color_exists_in_image, find_unused_color_in_image, key_image,
    should_key_image, KeyingError,
};
use vtracer_wasm::pixel::{PixelBuffer, Rgb};
use vtracer_wasm::progress::{progress_schedule, Percent};

fn solid(width: usize, height: usize, rgba: [u8; 4]) -> PixelBuffer {
    let mut pixels = Vec::new();
    for _ in 0..width * height {
        pixels.extend_from_slice(&rgba);
    }
    PixelBuffer::from_rgba(pixels, width, height).unwrap()
}

fn set_rgba(img: &mut PixelBuffer, x: usize, y: usize, rgba: [u8; 4]) {
    let i = (y * img.width + x) * 4;
    img.pixels[i..i + 4].copy_from_slice(&rgba);
}

fn base_config() -> TracingConfig {
    TracingConfig {
        color_mode: ColorMode::Color,
        hierarchical: Hierarchical::Stacked,
        filter_speckle: 4,
        color_precision: 6,
        layer_difference: 16,
        mode: SimplifyMode::Spline,
        corner_threshold: 60,
        max_iterations: 10,
        splice_threshold: 45,
        path_precision: Some(2),
    }
}

fn no_overrides() -> TracingOverrides {
    TracingOverrides {
        color_mode: None,
        filter_speckle: None,
        color_precision: None,
        gradient_step: None,
        corner_threshold: None,
        splice_threshold: None,
        mode: None,
        hierarchical: None,
        path_precision: None,
    }
}

#[test]
fn from_rgba_checks_length() {
    assert!(PixelBuffer::from_rgba(vec![0; 8], 2, 1).is_some());
    assert!(PixelBuffer::from_rgba(vec![0; 7], 2, 1).is_none());
    assert!(PixelBuffer::from_rgba(vec![], 0, 3).is_some());
    assert!(PixelBuffer::from_rgba(vec![0; 4], usize::MAX, 2).is_none());
}

#[test]
fn empty_buffers_are_never_keyed() {
    assert!(!should_key_image(&solid(0, 0, [0, 0, 0, 0])));
    assert!(!should_key_image(&solid(0, 7, [0, 0, 0, 0])));
    assert!(!should_key_image(&solid(7, 0, [0, 0, 0, 0])));
}

#[test]
fn keying_at_threshold_and_one_below() {
    // width 10: threshold floor(2 * 10 * 0.2) = 4; height 5 samples rows 0, 1, 2, 3, 4.
    let mut img = solid(10, 5, [9, 9, 9, 255]);
    for x in 0..3 {
        set_rgba(&mut img, x, 0, [9, 9, 9, 0]);
    }
    assert!(!should_key_image(&img));
    set_rgba(&mut img, 3, 0, [9, 9, 9, 0]);
    assert!(should_key_image(&img));
}

#[test]
fn keying_counts_only_sampled_rows() {
    // height 8 samples rows 0, 2, 4, 6, 7: transparency in row 1 is not seen.
    let mut img = solid(10, 8, [9, 9, 9, 255]);
    for x in 0..10 {
        set_rgba(&mut img, x, 1, [9, 9, 9, 0]);
    }
    assert!(!should_key_image(&img));
    for x in 0..2 {
        set_rgba(&mut img, x, 2, [9, 9, 9, 0]);
        set_rgba(&mut img, x, 7, [9, 9, 9, 0]);
    }
    assert!(should_key_image(&img));
}

#[test]
fn single_row_is_sampled_five_times() {
    // height 1: all five sampled rows are row 0, so one transparent pixel counts five times.
    let mut img = solid(10, 1, [9, 9, 9, 255]);
    set_rgba(&mut img, 4, 0, [9, 9, 9, 0]);
    assert!(should_key_image(&img));
}

#[test]
fn narrow_image_has_zero_threshold() {
    // width 2: threshold floor(0.8) = 0, reached at once.
    assert!(should_key_image(&solid(2, 3, [1, 1, 1, 255])));
}

#[test]
fn color_exists_scans_every_pixel() {
    let mut img = solid(4, 4, [0, 0, 0, 255]);
    set_rgba(&mut img, 3, 3, [10, 20, 30, 0]);
    assert!(color_exists_in_image(&img, Rgb::new(10, 20, 30)));
    assert!(!color_exists_in_image(&img, Rgb::new(10, 20, 31)));
    assert!(color_exists_in_image(&img, Rgb::new(0, 0, 0)));
}

#[test]
fn key_color_is_first_unused_candidate() {
    let mut img = solid(3, 1, [0, 0, 0, 255]);
    assert_eq!(find_unused_color_in_image(&img), Ok(Rgb::new(255, 0, 0)));
    set_rgba(&mut img, 0, 0, [255, 0, 0, 255]);
    assert_eq!(find_unused_color_in_image(&img), Ok(Rgb::new(0, 255, 0)));
    set_rgba(&mut img, 1, 0, [0, 255, 0, 7]);
    set_rgba(&mut img, 2, 0, [0, 0, 255, 0]);
    assert_eq!(find_unused_color_in_image(&img), Ok(Rgb::new(255, 255, 0)));
}

#[test]
fn key_color_candidates_exhausted() {
    let candidates: [[u8; 3]; 12] = [
        [255, 0, 0],
        [0, 255, 0],
        [0, 0, 255],
        [255, 255, 0],
        [0, 255, 255],
        [255, 0, 255],
        [1, 1, 1],
        [2, 2, 2],
        [254, 254, 254],
        [128, 0, 128],
        [0, 128, 128],
        [128, 128, 0],
    ];
    let mut img = solid(12, 1, [0, 0, 0, 255]);
    for (x, c) in candidates.iter().enumerate() {
        set_rgba(&mut img, x, 0, [c[0], c[1], c[2], 255]);
    }
    let r = find_unused_color_in_image(&img);
    assert_eq!(r, Err(KeyingError::NoUnusedColor));
    assert_eq!(
        r.unwrap_err().message(),
        "unable to find unused color in image to use as key"
    );
    // with one candidate replaced, that one is chosen
    set_rgba(&mut img, 10, 0, [3, 3, 3, 255]);
    assert_eq!(find_unused_color_in_image(&img), Ok(Rgb::new(0, 128, 128)));
}

#[test]
fn fully_transparent_image_is_keyed_red() {
    let mut img = solid(10, 10, [0, 0, 0, 0]);
    assert!(should_key_image(&img));
    assert_eq!(key_image(&mut img), Ok(Some(Rgb::new(255, 0, 0))));
    assert_eq!(img.width, 10);
    assert_eq!(img.height, 10);
    for i in 0..100 {
        assert_eq!(&img.pixels[i * 4..i * 4 + 3], &[255, 0, 0]);
        assert_eq!(img.pixels[i * 4 + 3], 255);
    }
}

#[test]
fn opaque_image_is_not_keyed() {
    let mut img = solid(10, 10, [4, 5, 6, 255]);
    let before = img.pixels.clone();
    assert_eq!(key_image(&mut img), Ok(None));
    assert_eq!(img.pixels, before);
}

#[test]
fn keying_fails_when_candidates_exhausted() {
    let candidates: [[u8; 3]; 12] = [
        [255, 0, 0],
        [0, 255, 0],
        [0, 0, 255],
        [255, 255, 0],
        [0, 255, 255],
        [255, 0, 255],
        [1, 1, 1],
        [2, 2, 2],
        [254, 254, 254],
        [128, 0, 128],
        [0, 128, 128],
        [128, 128, 0],
    ];
    let mut img = solid(12, 1, [0, 0, 0, 0]);
    for (x, c) in candidates.iter().enumerate() {
        set_rgba(&mut img, x, 0, [c[0], c[1], c[2], 0]);
    }
    assert_eq!(key_image(&mut img), Err(KeyingError::NoUnusedColor));
}

#[test]
fn apply_key_color_touches_only_transparent_pixels() {
    let mut img = solid(2, 1, [10, 20, 30, 0]);
    set_rgba(&mut img, 1, 0, [40, 50, 60, 1]);
    apply_key_color(&mut img, Rgb::new(1, 2, 3));
    assert_eq!(img.pixels, vec![1, 2, 3, 255, 40, 50, 60, 1]);
}

#[test]
fn binary_threshold_on_red_channel() {
    assert!(is_black(127));
    assert!(!is_black(128));
    assert!(is_black(0));
    assert!(!is_black(255));
}

#[test]
fn binary_clusters_follow_red_threshold() {
    // columns 0 and 2 are black (red 127 and 0), column 1 white (red 128): two clusters
    let mut img = solid(3, 4, [127, 255, 255, 0]);
    for y in 0..4 {
        set_rgba(&mut img, 1, y, [128, 0, 0, 255]);
        set_rgba(&mut img, 2, y, [0, 200, 200, 255]);
    }
    let c = cluster_binary(&binarize(&img), 2);
    assert_eq!(c.sizes, vec![4, 4]);
    assert_eq!(c.kept, vec![0, 1]);
    let c = cluster_binary(&binarize(&img), 3);
    assert_eq!(c.kept, Vec::<usize>::new());
    // all white: nothing to cluster
    let c = cluster_binary(&binarize(&solid(3, 3, [200, 0, 0, 255])), 1);
    assert!(c.kept.is_empty());
}

#[test]
fn parse_option_strings() {
    assert_eq!(parse_preset(&"poster".to_string()).unwrap(), Preset::Poster);
    assert_eq!(parse_color_mode(&"binary".to_string()).unwrap(), ColorMode::Binary);
    assert_eq!(parse_color_mode(&"bw".to_string()).unwrap(), ColorMode::Binary);
    assert_eq!(parse_simplify_mode(&"none".to_string()).unwrap(), SimplifyMode::Pixel);
    assert_eq!(parse_simplify_mode(&"polygon".to_string()).unwrap(), SimplifyMode::Polygon);
    assert_eq!(parse_hierarchical(&"cutout".to_string()).unwrap(), Hierarchical::Cutout);
    let e = parse_preset(&"movie".to_string()).unwrap_err();
    assert_eq!(e.message(), "Unknown preset: 'movie'. Use 'bw', 'poster', or 'photo'.");
    let e = parse_color_mode(&"gray".to_string()).unwrap_err();
    assert_eq!(e.message(), "Unknown colormode: 'gray'. Use 'color' or 'bw'.");
    let e = parse_hierarchical(&"flat".to_string()).unwrap_err();
    assert_eq!(e.message(), "Unknown hierarchical: 'flat'. Use 'stacked' or 'cutout'.");
}

#[test]
fn unknown_mode_is_a_validation_failure() {
    let mut ov = no_overrides();
    ov.mode = Some("bezier".to_string());
    let e = resolve_config(base_config(), &ov).unwrap_err();
    assert!(matches!(e, ValidationError::UnknownMode(ref s) if s == "bezier"));
    let m = e.message();
    assert!(m.contains("'pixel'") && m.contains("'polygon'") && m.contains("'spline'"));
    assert_eq!(m, "Unknown mode: 'bezier'. Use 'pixel', 'polygon', or 'spline'.");
}

#[test]
fn color_mode_is_validated_before_mode() {
    let mut ov = no_overrides();
    ov.color_mode = Some("sepia".to_string());
    ov.mode = Some("bezier".to_string());
    let e = resolve_config(base_config(), &ov).unwrap_err();
    assert!(matches!(e, ValidationError::UnknownColorMode(_)));
}

#[test]
fn overrides_replace_base_values() {
    let mut ov = no_overrides();
    ov.color_mode = Some("bw".to_string());
    ov.filter_speckle = Some(9);
    ov.gradient_step = Some(0);
    ov.mode = Some("pixel".to_string());
    ov.hierarchical = Some("cutout".to_string());
    ov.path_precision = Some(5);
    let c = resolve_config(base_config(), &ov).unwrap();
    assert_eq!(c.color_mode, ColorMode::Binary);
    assert_eq!(c.filter_speckle, 9);
    assert_eq!(c.layer_difference, 0);
    assert_eq!(c.mode, SimplifyMode::Pixel);
    assert_eq!(c.hierarchical, Hierarchical::Cutout);
    assert_eq!(c.path_precision, Some(5));
    assert_eq!(c.color_precision, 6);
    assert_eq!(c.corner_threshold, 60);
    assert_eq!(resolve_config(base_config(), &no_overrides()).unwrap(), base_config());
}

#[test]
fn primary_params_follow_config() {
    let p = primary_cluster_params(&base_config(), Some(Rgb::new(255, 0, 0)), 30, 20);
    assert!(!p.diagonal);
    assert_eq!(p.hierarchical, HIERARCHICAL_MAX);
    assert_eq!(p.hierarchical, visioncortex::color_clusters::HIERARCHICAL_MAX);
    assert_eq!(p.batch_size, CLUSTER_BATCH_SIZE);
    assert_eq!(p.good_min_area, 16);
    assert_eq!(p.good_max_area, 600);
    assert_eq!(p.is_same_color_a, 2);
    assert_eq!(p.is_same_color_b, 1);
    assert_eq!(p.deepen_diff, 16);
    assert_eq!(p.hollow_neighbours, 1);
    assert_eq!(p.key_color, Some(Rgb::new(255, 0, 0)));
    assert_eq!(p.keying, KeyingMode::Discard);
    let mut c = base_config();
    c.layer_difference = 0;
    c.hierarchical = Hierarchical::Cutout;
    let p = primary_cluster_params(&c, None, 3, 3);
    assert_eq!(p.key_color, None);
    assert!(p.diagonal);
    assert_eq!(p.keying, KeyingMode::Keep);
}

#[test]
fn cutout_params_are_fixed() {
    let p = cutout_cluster_params(Some(Rgb::new(1, 1, 1)), 7, 3);
    assert!(!p.diagonal);
    assert_eq!(p.hierarchical, 64);
    assert_eq!(p.good_min_area, 0);
    assert_eq!(p.good_max_area, 21);
    assert_eq!(p.is_same_color_a, 0);
    assert_eq!(p.is_same_color_b, 1);
    assert_eq!(p.deepen_diff, 0);
    assert_eq!(p.hollow_neighbours, 0);
    assert_eq!(p.keying, KeyingMode::Discard);
}

#[test]
fn speckle_area_is_exact() {
    assert!(meets_speckle_area(16, 4));
    assert!(!meets_speckle_area(15, 4));
    assert!(meets_speckle_area(0, 0));
    assert!(!meets_speckle_area(usize::MAX, usize::MAX));
    assert!(meets_speckle_area(usize::MAX, 1 << 31));
}

#[test]
fn color_order_is_reversed() {
    assert_eq!(color_emission_order(&vec![4, 7]), vec![7, 4]);
    assert_eq!(color_emission_order(&vec![]), Vec::<u32>::new());
    assert_eq!(color_emission_order(&vec![1, 2, 3]), vec![3, 2, 1]);
}

#[test]
fn binary_order_is_native_and_filtered() {
    assert_eq!(binary_emission_indices(&vec![10, 2], 2), vec![0]);
    assert_eq!(binary_emission_indices(&vec![4, 9], 2), vec![0, 1]);
    assert_eq!(binary_emission_indices(&vec![10, 2, 16, 3, 4], 2), vec![0, 2, 4]);
    assert_eq!(binary_emission_indices(&vec![], 2), Vec::<usize>::new());
}

fn values(s: &[Percent]) -> Vec<f64> {
    s.iter().map(|p| p.num as f64 / p.den as f64).collect()
}

#[test]
fn progress_schedule_color() {
    let s = values(&progress_schedule(ColorMode::Color, 0));
    assert_eq!(s, vec![0.0, 5.0, 10.0, 15.0, 50.0, 55.0, 95.0, 100.0]);
    let s = values(&progress_schedule(ColorMode::Color, 4));
    assert_eq!(s, vec![0.0, 5.0, 10.0, 15.0, 50.0, 55.0, 65.0, 75.0, 85.0, 95.0, 95.0, 100.0]);
}

#[test]
fn progress_schedule_binary() {
    let s = values(&progress_schedule(ColorMode::Binary, 0));
    assert_eq!(s, vec![0.0, 5.0, 10.0, 15.0, 40.0, 95.0, 100.0]);
    let s = values(&progress_schedule(ColorMode::Binary, 5));
    assert_eq!(s, vec![0.0, 5.0, 10.0, 15.0, 40.0, 51.0, 62.0, 73.0, 84.0, 95.0, 95.0, 100.0]);
}

#[test]
fn progress_never_decreases() {
    for mode in [ColorMode::Color, ColorMode::Binary] {
        for n in 0..40 {
            let s = progress_schedule(mode, n);
            for w in s.windows(2) {
                assert!(w[0].num * w[1].den <= w[1].num * w[0].den);
            }
            let last = s.last().unwrap();
            assert_eq!(last.num, 100 * last.den);
            assert_eq!(s[0].num, 0);
        }
    }
}

#[test]
fn clustering_two_color_image() {
    // left half red, right half blue
    let mut img = solid(8, 8, [255, 0, 0, 255]);
    for y in 0..8 {
        for x in 4..8 {
            set_rgba(&mut img, x, y, [0, 0, 255, 255]);
        }
    }
    let mut c = base_config();
    c.filter_speckle = 1;
    let clusters = primary_clustering(img.clone(), &c, None);
    let order = color_emission_sequence(&clusters);
    assert!(!order.is_empty());
    let again = cutout_reclustering(clusters, &c, None);
    assert_eq!(color_emission_sequence(&again), order);
    c.hierarchical = Hierarchical::Cutout;
    let clusters = primary_clustering(img, &c, None);
    let cut = cutout_reclustering(clusters, &c, None);
    assert!(!color_emission_sequence(&cut).is_empty());
}

#[test]
fn cluster_openings_counted_per_region_start() {
    // all black: one opening however large
    assert_eq!(count_cluster_openings(&solid(300, 300, [0, 0, 0, 255])), 1);
    assert_eq!(count_cluster_openings(&solid(5, 5, [200, 0, 0, 255])), 0);
    // a checkerboard opens a cluster at every black pixel
    let mut img = solid(4, 4, [255, 255, 255, 255]);
    for y in 0..4 {
        for x in 0..4 {
            if (x + y) % 2 == 0 {
                set_rgba(&mut img, x, y, [0, 255, 255, 255]);
            }
        }
    }
    assert_eq!(count_cluster_openings(&img), 8);
    // an L shape opens one cluster per separate start: column 0 and the lone pixel at (2, 0)
    let mut img = solid(3, 2, [255, 0, 0, 255]);
    set_rgba(&mut img, 0, 0, [0, 0, 0, 255]);
    set_rgba(&mut img, 0, 1, [0, 0, 0, 255]);
    set_rgba(&mut img, 1, 1, [0, 0, 0, 255]);
    set_rgba(&mut img, 2, 0, [0, 0, 0, 255]);
    assert_eq!(count_cluster_openings(&img), 2);
    assert_eq!(MAX_CLUSTER_OPENINGS, 65534);
}

#[test]
fn large_black_image_clusters_as_one() {
    let img = solid(300, 300, [0, 0, 0, 255]);
    assert!(count_cluster_openings(&img) <= MAX_CLUSTER_OPENINGS);
    let c = cluster_binary(&binarize(&img), 4);
    assert_eq!(c.sizes, vec![90000]);
    assert_eq!(c.kept, vec![0]);
}

#[test]
fn keyed_background_is_dropped_in_stacked_mode() {
    // transparent 12x12 with an opaque blue 6x6 square: keying turns the background red, and
    // the stacked pass discards key-colored pixels, leaving fewer output clusters
    let mut img = solid(12, 12, [0, 0, 0, 0]);
    for y in 3..9 {
        for x in 3..9 {
            set_rgba(&mut img, x, y, [0, 0, 255, 255]);
        }
    }
    let mut c = base_config();
    c.filter_speckle = 1;
    let mut keyed = img.clone();
    let key = key_image(&mut keyed).unwrap();
    assert_eq!(key, Some(Rgb::new(255, 0, 0)));
    let with_key = color_emission_sequence(&primary_clustering(keyed.clone(), &c, key));
    let without_key = color_emission_sequence(&primary_clustering(keyed, &c, None));
    assert!(with_key.len() < without_key.len());
}
