use engine::{cover_crop_rect, cover_crop_resize, Anchor, CropRect, Raster};

/// An RGB raster with a deterministic pattern.
fn img(w: u32, h: u32) -> Raster {
    let mut pixels = Vec::with_capacity((w * h * 3) as usize);
    for y in 0..h {
        for x in 0..w {
            pixels.push(((x ^ y) & 0xff) as u8);
            pixels.push((y & 0xff) as u8);
            pixels.push((x & 0xff) as u8);
        }
    }
    Raster {
        width: w,
        height: h,
        has_alpha: false,
        pixels,
    }
}

fn create_gradient_image(width: u32, height: u32) -> Raster {
    let mut pixels = Vec::with_capacity((width * height * 3) as usize);
    for y in 0..height {
        for x in 0..width {
            pixels.push((x * 255 / width) as u8);
            pixels.push((y * 255 / height) as u8);
            pixels.push(128);
        }
    }
    Raster {
        width,
        height,
        has_alpha: false,
        pixels,
    }
}

#[test]
fn centre_crop_matches_worked_example() {
    let rect = cover_crop_rect(2560, 1200, 1920, 1080, Anchor::Center);
    assert_eq!(
        rect,
        CropRect {
            x: 213,
            y: 0,
            w: 2133,
            h: 1200
        }
    );
}

#[test]
fn exact_dims_for_wider_source() {
    let out = cover_crop_resize(&img(2000, 1000), 500, 500, Anchor::Center, true).unwrap();
    assert_eq!((out.width, out.height), (500, 500));
}

#[test]
fn exact_dims_for_taller_source() {
    let out = cover_crop_resize(&img(1000, 2000), 500, 500, Anchor::Center, true).unwrap();
    assert_eq!((out.width, out.height), (500, 500));
}

#[test]
fn anchor_start_and_end_shift_the_crop() {
    let (sw, sh, tw, th) = (2560, 1200, 1920, 1080);
    assert_eq!(cover_crop_rect(sw, sh, tw, th, Anchor::Start).x, 0);
    assert_eq!(cover_crop_rect(sw, sh, tw, th, Anchor::Center).x, 213);
    assert_eq!(cover_crop_rect(sw, sh, tw, th, Anchor::End).x, sw - 2133);
}

#[test]
fn taller_source_crops_vertically() {
    let rect = cover_crop_rect(1000, 2000, 1000, 1000, Anchor::Center);
    assert_eq!((rect.w, rect.h, rect.y), (1000, 1000, 500));
}

#[test]
fn no_upscale_clamps_to_crop_region() {
    // Target larger than the source on the covering axis: without upscaling, the output is the
    // crop region's own size (here the full square source), never enlarged to 4000x4000.
    let out = cover_crop_resize(&img(1000, 1000), 4000, 4000, Anchor::Center, false).unwrap();
    assert_eq!((out.width, out.height), (1000, 1000));
}

#[test]
fn cover_crop_rect_trims_width_of_a_wide_source() {
    let rect = cover_crop_rect(3000, 1000, 1000, 1000, Anchor::Center);
    assert_eq!(
        rect,
        CropRect {
            x: 1000,
            y: 0,
            w: 1000,
            h: 1000
        }
    );
}

#[test]
fn cover_crop_rect_trims_height_of_a_tall_source() {
    let rect = cover_crop_rect(1000, 3000, 1000, 1000, Anchor::Center);
    assert_eq!(
        rect,
        CropRect {
            x: 0,
            y: 1000,
            w: 1000,
            h: 1000
        }
    );
}

#[test]
fn cover_crop_resize_hits_exact_size() {
    let source = create_gradient_image(1600, 900);
    let resized = cover_crop_resize(&source, 800, 800, Anchor::Center, true).unwrap();
    assert_eq!(resized.width, 800);
    assert_eq!(resized.height, 800);
}

#[test]
fn anchor_end_pushes_crop_to_the_far_edge() {
    let rect_end = cover_crop_rect(3000, 1000, 1000, 1000, Anchor::End);
    assert_eq!(
        rect_end,
        CropRect {
            x: 2000,
            y: 0,
            w: 1000,
            h: 1000
        }
    );

    let rect_start = cover_crop_rect(3000, 1000, 1000, 1000, Anchor::Start);
    assert_eq!(
        rect_start,
        CropRect {
            x: 0,
            y: 0,
            w: 1000,
            h: 1000
        }
    );
}

#[test]
fn no_upscale_does_not_enlarge() {
    let source = create_gradient_image(600, 600);
    let resized = cover_crop_resize(&source, 2000, 2000, Anchor::Center, false).unwrap();
    assert_eq!(resized.width, 600);
    assert_eq!(resized.height, 600);
}

#[test]
fn zero_target_is_a_resize_error() {
    let err = cover_crop_resize(&img(10, 10), 0, 5, Anchor::Center, true).unwrap_err();
    assert!(matches!(err, engine::EngineError::Resize(_)));
}

#[test]
fn zero_source_dimension_keeps_the_whole_source() {
    assert_eq!(
        cover_crop_rect(0, 50, 10, 10, Anchor::End),
        CropRect {
            x: 0,
            y: 0,
            w: 0,
            h: 50
        }
    );
}

#[test]
fn crop_output_is_a_well_formed_buffer() {
    let out = cover_crop_resize(&img(300, 100), 40, 30, Anchor::Start, true).unwrap();
    // The resample runs on RGBA8, so the output carries an alpha channel.
    assert!(out.has_alpha);
    assert_eq!(out.pixels.len(), 40 * 30 * 4);
}

#[test]
fn crop_rect_stays_inside_the_source_for_every_anchor() {
    for anchor in [Anchor::Start, Anchor::Center, Anchor::End] {
        for (sw, sh, tw, th) in [(1920, 1080, 100, 300), (777, 333, 16, 9), (5, 7, 7, 5)] {
            let r = cover_crop_rect(sw, sh, tw, th, anchor);
            assert!(r.x + r.w <= sw && r.y + r.h <= sh);
            assert!(r.w == sw || r.h == sh);
        }
    }
}
