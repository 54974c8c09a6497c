use engine::encode::{encode, EncodeFormat};
use engine::preview::{preview_data_url, reuses_source};
use engine::MetadataMode;
use engine::{
    next_move, prepare_for_cap, prepare_source, thumbnail, Anchor, EngineError, Options, OutputFormat,
    Raster, ResizeMode, SearchMove, SizeStep,
};

fn detailed(w: u32, h: u32, alpha: bool) -> Raster {
    let mut pixels = Vec::new();
    for y in 0..h {
        for x in 0..w {
            pixels.extend_from_slice(&[((x ^ y) & 0xff) as u8, (y & 0xff) as u8, (x & 0xff) as u8]);
            if alpha {
                pixels.push(200);
            }
        }
    }
    Raster {
        width: w,
        height: h,
        has_alpha: alpha,
        pixels,
    }
}

fn png_bytes(w: u32, h: u32, alpha: bool) -> Vec<u8> {
    encode(&detailed(w, h, alpha), EncodeFormat::Png, None).unwrap()
}

#[test]
fn prepare_keeps_a_small_image_and_its_format() {
    let opts = Options::default();
    let p = prepare_for_cap(&png_bytes(40, 20, false), &opts, 5000).unwrap();
    assert_eq!((p.image.width, p.image.height), (40, 20));
    assert_eq!(p.format, EncodeFormat::Jpeg { background: [255, 255, 255] });
    assert!(p.allow_downscale);
    assert_eq!(p.search_cap, 5000);
    assert!(p.meta.icc.is_none());
}

#[test]
fn prepare_bounds_the_long_edge_in_fit_mode() {
    let opts = Options {
        resize: ResizeMode::Fit { max_dimension: Some(50) },
        output_format: OutputFormat::Keep,
        ..Options::default()
    };
    let p = prepare_for_cap(&png_bytes(200, 100, true), &opts, 10).unwrap();
    assert_eq!((p.image.width, p.image.height), (50, 25));
    // Keep + alpha gives PNG.
    assert_eq!(p.format, EncodeFormat::Png);
}

#[test]
fn prepare_locks_the_size_in_exact_mode() {
    let opts = Options {
        resize: ResizeMode::Exact {
            width: 30,
            height: 30,
            anchor: Anchor::Center,
            allow_upscale: true,
        },
        ..Options::default()
    };
    let p = prepare_for_cap(&png_bytes(90, 45, false), &opts, 10).unwrap();
    assert_eq!((p.image.width, p.image.height), (30, 30));
    assert!(!p.allow_downscale);
}

#[test]
fn prepare_reports_decode_and_resize_errors() {
    let opts = Options::default();
    assert!(matches!(
        prepare_for_cap(b"not an image", &opts, 10),
        Err(EngineError::Decode(_))
    ));
    let zero = Options {
        resize: ResizeMode::Exact {
            width: 0,
            height: 10,
            anchor: Anchor::Start,
            allow_upscale: false,
        },
        ..Options::default()
    };
    assert!(matches!(
        prepare_for_cap(&png_bytes(8, 8, false), &zero, 10),
        Err(EngineError::Resize(_))
    ));
}

#[test]
fn keep_modes_reserve_room_only_for_a_present_profile() {
    let opts = Options {
        metadata: MetadataMode::KeepAll,
        ..Options::default()
    };
    // A PNG without an ICC profile reserves nothing.
    let p = prepare_for_cap(&png_bytes(8, 8, false), &opts, 1000).unwrap();
    assert_eq!(p.search_cap, 1000);
}

#[test]
fn preview_source_downscales_a_working_copy() {
    let s = prepare_source(&png_bytes(1000, 500, false), ResizeMode::Fit { max_dimension: None }).unwrap();
    assert_eq!((s.source_width, s.source_height), (1000, 500));
    assert_eq!((s.base_width, s.base_height), (1000, 500));
    assert_eq!((s.work.width, s.work.height), (720, 360));
    assert_eq!(s.base_pixels, 500_000);
    assert_eq!(s.work_pixels, 720 * 360);
    assert!(!s.has_alpha);
}

#[test]
fn thumbnails_are_small_jpegs() {
    let t = thumbnail(&png_bytes(300, 150, true), 64).unwrap();
    assert_eq!(&t[0..2], &[0xFF, 0xD8]);
    let decoded = engine::decode::decode(&t).unwrap();
    assert_eq!((decoded.width, decoded.height), (64, 32));
    // A small bound is honoured: the long edge is exactly the bound.
    let tiny = engine::decode::decode(&thumbnail(&png_bytes(300, 150, false), 4).unwrap()).unwrap();
    assert_eq!((tiny.width, tiny.height), (4, 2));
    // An image already within the bound is not upscaled.
    let same = engine::decode::decode(&thumbnail(&png_bytes(30, 10, false), 64).unwrap()).unwrap();
    assert_eq!((same.width, same.height), (30, 10));
    assert!(matches!(thumbnail(b"", 64), Err(EngineError::Decode(_))));
}

#[test]
fn next_move_accepts_shrinks_or_gives_up() {
    let fits = SizeStep::Fits {
        bytes: vec![1, 2, 3],
        quality: Some(40),
    };
    match next_move(fits, true, 100, 16) {
        SearchMove::Accept { bytes, quality } => {
            assert_eq!(bytes, vec![1, 2, 3]);
            assert_eq!(quality, Some(40));
        }
        _ => panic!("a fitting encode is accepted"),
    }
    assert!(matches!(
        next_move(SizeStep::TooLarge { smallest: 900 }, true, 100, 16),
        SearchMove::Shrink { smallest: 900 }
    ));
    // Locked dimensions never shrink.
    assert!(matches!(
        next_move(SizeStep::TooLarge { smallest: 900 }, false, 100, 16),
        SearchMove::Unreachable
    ));
    // At the floor there is nothing left to shrink.
    assert!(matches!(
        next_move(SizeStep::TooLarge { smallest: 900 }, true, 16, 16),
        SearchMove::Unreachable
    ));
    // A single pixel cannot shrink either, even with no floor: the search ends.
    assert!(matches!(
        next_move(SizeStep::TooLarge { smallest: 900 }, true, 1, 0),
        SearchMove::Unreachable
    ));
    assert!(matches!(
        next_move(SizeStep::TooLarge { smallest: 900 }, true, 2, 0),
        SearchMove::Shrink { smallest: 900 }
    ));
}

#[test]
fn avif_previews_show_a_jpeg_stand_in() {
    let work = detailed(12, 8, false);
    let (mime, bytes) = engine::preview::preview_display(&work, EncodeFormat::Avif, [255, 255, 255], vec![1, 2]);
    assert_eq!(mime, "image/jpeg");
    assert_eq!(&bytes[0..2], &[0xFF, 0xD8]);
    let decoded = engine::decode::decode(&bytes).unwrap();
    assert_eq!((decoded.width, decoded.height), (12, 8));
    let (mime, bytes) = engine::preview::preview_display(&work, EncodeFormat::Png, [0, 0, 0], vec![3, 4]);
    assert_eq!((mime.as_str(), bytes), ("image/png", vec![3, 4]));
    let jpeg = EncodeFormat::Jpeg { background: [0, 0, 0] };
    let (mime, bytes) = engine::preview::preview_display(&work, jpeg, [0, 0, 0], vec![5]);
    assert_eq!((mime.as_str(), bytes), ("image/jpeg", vec![5]));
}

#[test]
fn a_cached_preview_source_is_reused_only_for_the_same_file_and_resize() {
    let fit = ResizeMode::Fit { max_dimension: Some(800) };
    let cached = Some(("/a.jpg".to_string(), fit));
    assert!(reuses_source(&cached, "/a.jpg", fit));
    assert!(!reuses_source(&cached, "/b.jpg", fit));
    assert!(!reuses_source(&cached, "/a.jpg", ResizeMode::Fit { max_dimension: None }));
    assert!(!reuses_source(&None, "/a.jpg", fit));
}

#[test]
fn previews_are_shown_through_a_data_url() {
    assert_eq!(
        preview_data_url(&Some("image/png".to_string()), true, "iVBOR"),
        Some("data:image/png;base64,iVBOR".to_string())
    );
    assert_eq!(preview_data_url(&None, true, "/9j/"), Some("data:image/jpeg;base64,/9j/".to_string()));
    assert_eq!(preview_data_url(&Some("image/png".to_string()), false, ""), None);
}
