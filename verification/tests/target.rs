use engine::encode::{encode, EncodeFormat};
use engine::{fit_at_size, Options, Raster, SizeStep};

fn test_image(w: u32, h: u32) -> Raster {
    let mut pixels = Vec::with_capacity((w * h * 3) as usize);
    for y in 0..h {
        for x in 0..w {
            pixels.push(((x ^ y) & 0xff) as u8);
            pixels.push((x.wrapping_add(y) & 0xff) as u8);
            pixels.push(((x.wrapping_mul(2) ^ y) & 0xff) as u8);
        }
    }
    Raster {
        width: w,
        height: h,
        has_alpha: false,
        pixels,
    }
}

fn jpeg() -> EncodeFormat {
    EncodeFormat::Jpeg {
        background: [255, 255, 255],
    }
}

fn size_at(img: &Raster, q: u8) -> u64 {
    encode(img, jpeg(), Some(q)).unwrap().len() as u64
}

#[test]
fn midpoint_cap_finds_an_interior_quality() {
    let img = test_image(256, 256);
    let opts = Options::default();
    let lo = size_at(&img, opts.jpeg_quality_min);
    let hi = size_at(&img, opts.jpeg_quality_max);
    assert!(hi > lo, "size must grow with quality for this test image");
    let cap = (lo + hi) / 2;
    match fit_at_size(&img, cap, jpeg(), &opts, None).unwrap() {
        SizeStep::Fits { bytes, quality } => {
            let q = quality.expect("jpeg has a quality");
            assert!(bytes.len() as u64 <= cap);
            assert!(q < opts.jpeg_quality_max);
            // The defining property: one quality step higher would exceed the cap.
            assert!(size_at(&img, q + 1) > cap);
            assert_eq!(bytes, encode(&img, jpeg(), Some(q)).unwrap());
        }
        SizeStep::TooLarge { .. } => panic!("the midpoint cap is reachable"),
    }
}

#[test]
fn a_hinted_search_still_lands_on_a_best_quality() {
    let img = test_image(128, 128);
    let opts = Options::default();
    let cap = (size_at(&img, 10) + size_at(&img, 95)) / 2;
    for hint in [Some(11), Some(50), Some(95), Some(200), Some(0)] {
        match fit_at_size(&img, cap, jpeg(), &opts, hint).unwrap() {
            SizeStep::Fits { quality, bytes } => {
                let q = quality.expect("jpeg has a quality");
                assert!(bytes.len() as u64 <= cap);
                assert!(q == 95 || size_at(&img, q + 1) > cap);
            }
            SizeStep::TooLarge { .. } => panic!("reachable"),
        }
    }
}

#[test]
fn generous_cap_keeps_the_top_quality() {
    let img = test_image(64, 64);
    let opts = Options::default();
    let cap = size_at(&img, opts.jpeg_quality_max) + 1;
    match fit_at_size(&img, cap, jpeg(), &opts, None).unwrap() {
        SizeStep::Fits { quality, .. } => assert_eq!(quality, Some(opts.jpeg_quality_max)),
        SizeStep::TooLarge { .. } => panic!("reachable"),
    }
}

#[test]
fn a_cap_below_the_smallest_encode_is_too_large() {
    let img = test_image(256, 256);
    let opts = Options::default();
    match fit_at_size(&img, 10, jpeg(), &opts, None).unwrap() {
        SizeStep::TooLarge { smallest } => assert_eq!(smallest, size_at(&img, opts.jpeg_quality_min)),
        SizeStep::Fits { .. } => panic!("10 bytes cannot hold a JPEG"),
    }
}

#[test]
fn lossless_png_has_no_quality() {
    let img = test_image(64, 64);
    let opts = Options::default();
    let png = encode(&img, EncodeFormat::Png, None).unwrap();
    match fit_at_size(&img, png.len() as u64 + 1, EncodeFormat::Png, &opts, Some(40)).unwrap() {
        SizeStep::Fits { bytes, quality } => {
            assert_eq!(quality, None);
            assert_eq!(bytes, png);
        }
        SizeStep::TooLarge { .. } => panic!("reachable"),
    }
    match fit_at_size(&img, png.len() as u64 - 1, EncodeFormat::Png, &opts, None).unwrap() {
        SizeStep::TooLarge { smallest } => assert_eq!(smallest, png.len() as u64),
        SizeStep::Fits { .. } => panic!("one byte short of the PNG"),
    }
}
