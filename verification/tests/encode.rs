use engine::decode::decode;
use engine::encode::{encode, EncodeFormat};
use engine::{Options, Raster};

fn jpeg() -> EncodeFormat {
    EncodeFormat::Jpeg {
        background: [255, 255, 255],
    }
}

fn detailed(w: u32, h: u32) -> Raster {
    let mut pixels = Vec::with_capacity((w * h * 3) as usize);
    for y in 0..h {
        for x in 0..w {
            pixels.push(((x ^ y) & 0xff) as u8);
            pixels.push((y & 0xff) as u8);
            pixels.push((x & 0xff) as u8);
        }
    }
    Raster {
        width: w,
        height: h,
        has_alpha: false,
        pixels,
    }
}

#[test]
fn jpeg_size_grows_with_quality() {
    let img = detailed(256, 256);
    let lo = encode(&img, jpeg(), Some(10)).unwrap().len();
    let hi = encode(&img, jpeg(), Some(90)).unwrap().len();
    assert!(hi > lo, "higher quality should be larger: {hi} vs {lo}");
}

#[test]
fn extensions_are_correct() {
    assert_eq!(jpeg().extension(), "jpg");
    assert_eq!(EncodeFormat::Png.extension(), "png");
}

#[test]
fn png_is_lossless_roundtrip() {
    let img = detailed(64, 64);
    let bytes = encode(&img, EncodeFormat::Png, None).unwrap();
    let decoded = decode(&bytes).unwrap();
    assert_eq!((decoded.width, decoded.height), (64, 64));
    assert!(!decoded.has_alpha);
    assert_eq!(decoded.pixels, img.pixels);
}

#[test]
fn alpha_is_flattened_onto_background_for_jpeg() {
    // A fully transparent source must render as the background color in JPEG (which has no alpha).
    let mut pixels = Vec::new();
    for _ in 0..16 * 16 {
        pixels.extend_from_slice(&[10, 20, 30, 0]);
    }
    let img = Raster {
        width: 16,
        height: 16,
        has_alpha: true,
        pixels,
    };
    let bg = [200, 100, 50];
    let bytes = encode(&img, EncodeFormat::Jpeg { background: bg }, Some(95)).unwrap();
    let decoded = decode(&bytes).unwrap();
    assert!(!decoded.has_alpha);
    let at = ((8 * 16 + 8) * 3) as usize;
    let px = &decoded.pixels[at..at + 3];
    // JPEG is lossy, so allow a small tolerance around the background color.
    for (got, want) in px.iter().zip(bg.iter()) {
        assert!(
            (i32::from(*got) - i32::from(*want)).abs() <= 8,
            "got {got}, want {want}"
        );
    }
}

#[test]
fn mime_types_match_the_formats() {
    assert_eq!(jpeg().mime(), "image/jpeg");
    assert_eq!(EncodeFormat::Png.mime(), "image/png");
    assert_eq!(EncodeFormat::Avif.mime(), "image/avif");
    assert_eq!(EncodeFormat::Avif.extension(), "avif");
}

#[test]
fn quality_range_is_clamped_and_ordered() {
    let opts = Options::default();
    assert_eq!(jpeg().quality_range(&opts), Some((10, 95)));
    assert_eq!(EncodeFormat::Avif.quality_range(&opts), Some((10, 95)));
    assert_eq!(EncodeFormat::Png.quality_range(&opts), None);

    let inverted = Options {
        jpeg_quality_min: 80,
        jpeg_quality_max: 20,
        ..Options::default()
    };
    assert_eq!(jpeg().quality_range(&inverted), Some((80, 80)));

    let out_of_bounds = Options {
        jpeg_quality_min: 0,
        jpeg_quality_max: 250,
        ..Options::default()
    };
    assert_eq!(jpeg().quality_range(&out_of_bounds), Some((1, 100)));
}

#[test]
fn jpeg_output_is_a_jpeg_stream() {
    let bytes = encode(&detailed(32, 32), jpeg(), None).unwrap();
    assert_eq!(&bytes[0..2], &[0xFF, 0xD8]);
    let png = encode(&detailed(32, 32), EncodeFormat::Png, Some(50)).unwrap();
    assert_eq!(&png[1..4], b"PNG");
}

#[test]
fn png_keeps_the_alpha_channel() {
    let mut pixels = Vec::new();
    for i in 0..8 * 8 {
        pixels.extend_from_slice(&[i as u8, 0, 255, (i * 3) as u8]);
    }
    let img = Raster {
        width: 8,
        height: 8,
        has_alpha: true,
        pixels: pixels.clone(),
    };
    let bytes = encode(&img, EncodeFormat::Png, None).unwrap();
    let decoded = decode(&bytes).unwrap();
    assert!(decoded.has_alpha);
    assert_eq!(decoded.pixels, pixels);
}
