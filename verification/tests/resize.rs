use engine::resize::{downscale_to_long_edge, resize_exact, round_ratio};
use engine::Raster;

fn solid(w: u32, h: u32) -> Raster {
    Raster {
        width: w,
        height: h,
        has_alpha: false,
        pixels: [120u8, 130, 140].repeat((w * h) as usize),
    }
}

#[test]
fn long_edge_is_capped_and_aspect_preserved() {
    let out = downscale_to_long_edge(&solid(800, 400), 200).unwrap();
    assert_eq!(out.width.max(out.height), 200);
    assert_eq!((out.width, out.height), (200, 100));
}

#[test]
fn never_upscales() {
    let out = downscale_to_long_edge(&solid(100, 50), 1000).unwrap();
    assert_eq!((out.width, out.height), (100, 50));
}

#[test]
fn zero_bound_means_no_resize() {
    let out = downscale_to_long_edge(&solid(64, 32), 0).unwrap();
    assert_eq!((out.width, out.height), (64, 32));
    assert_eq!(out.pixels, solid(64, 32).pixels);
}

#[test]
fn tiny_edge_is_kept_at_one_pixel() {
    let out = downscale_to_long_edge(&solid(1000, 2), 100).unwrap();
    assert_eq!((out.width, out.height), (100, 1));
}

#[test]
fn round_ratio_rounds_half_up() {
    assert_eq!(round_ratio(3, 1, 2), 2);
    assert_eq!(round_ratio(5, 2, 3), 3);
    assert_eq!(round_ratio(1200, 1920, 1080), 2133);
    assert_eq!(round_ratio(7, 0, 4), 0);
}

#[test]
fn resize_exact_gives_the_requested_size() {
    let out = resize_exact(&solid(40, 30), 17, 9).unwrap();
    assert_eq!((out.width, out.height), (17, 9));
    // Every resample goes through RGBA8, so the result carries an (opaque) alpha channel.
    assert!(out.has_alpha);
    assert_eq!(out.pixels.len(), 17 * 9 * 4);
    // A uniform image stays uniform under a Lanczos resample.
    assert!(out.pixels.chunks(4).all(|p| p == [120, 130, 140, 255]));
}
