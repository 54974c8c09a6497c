use engine::encode::{encode, EncodeFormat};
use engine::job::{
    on_copy_bytes, on_exists, on_header, on_input, on_search, on_written, start, Found, JobAction,
    JobContext,
};
use engine::{CollisionPolicy, EngineError, MetadataMode, Options, Outcome, Raster, SourceMeta};

fn png_bytes(w: u32, h: u32) -> Vec<u8> {
    let img = Raster {
        width: w,
        height: h,
        has_alpha: false,
        pixels: [10u8, 20, 30].repeat((w * h) as usize),
    };
    encode(&img, EncodeFormat::Png, None).unwrap()
}

fn ctx<'a>(options: &'a Options, original_bytes: u64) -> JobContext<'a> {
    JobContext {
        input: "/d/a.png",
        options,
        cap: 1000,
        seq: 3,
        date: "2024-01-02",
        original_bytes,
    }
}

fn failed_reason(a: JobAction) -> String {
    match a {
        JobAction::Done {
            output: None,
            outcome: Outcome::Failed { reason },
        } => reason,
        _ => panic!("expected a failure"),
    }
}

#[test]
fn under_cap_files_are_probed_first() {
    let opts = Options::default();
    assert!(matches!(start(&ctx(&opts, 500)), JobAction::ProbeHeader));
    assert!(matches!(start(&ctx(&opts, 5000)), JobAction::ReadInput));
    assert!(matches!(start(&ctx(&opts, 0)), JobAction::ReadInput));
    let forced = Options {
        skip_if_under_cap: false,
        ..Options::default()
    };
    assert!(matches!(start(&ctx(&forced, 500)), JobAction::ReadInput));
}

#[test]
fn an_unreadable_under_cap_file_fails() {
    assert_eq!(failed_reason(on_header(None)), "unreadable or corrupt image");
    assert!(matches!(
        on_header(Some((4, 5))),
        JobAction::ReadForCopy { dims: (4, 5) }
    ));
}

#[test]
fn keep_all_copies_the_bytes_to_the_named_output() {
    let opts = Options {
        metadata: MetadataMode::KeepAll,
        ..Options::default()
    };
    let c = ctx(&opts, 500);
    let bytes = png_bytes(4, 4);
    match on_copy_bytes(&c, (4, 4), Ok(bytes.clone())) {
        JobAction::CheckExists { path, resolution } => {
            assert_eq!(path, "/d/a-compressed.png");
            assert_eq!(resolution.bytes, bytes);
            assert!(resolution.copying);
            assert!(matches!(resolution.success, Outcome::SkippedUnderCap { bytes: 500 }));
            match on_exists(&c, resolution, false) {
                JobAction::Write {
                    path,
                    bytes: b,
                    success,
                    copying,
                } => {
                    assert_eq!(path, "/d/a-compressed.png");
                    assert_eq!(b, bytes);
                    assert!(copying);
                    match on_written(path, success, copying, Ok(())) {
                        JobAction::Done { output, outcome } => {
                            assert_eq!(output.as_deref(), Some("/d/a-compressed.png"));
                            assert!(matches!(outcome, Outcome::SkippedUnderCap { bytes: 500 }));
                        }
                        _ => panic!("done after the write"),
                    }
                }
                _ => panic!("a free path is written"),
            }
        }
        _ => panic!("the first candidate is checked"),
    }
}

#[test]
fn a_png_that_cannot_be_stripped_losslessly_is_re_encoded() {
    let opts = Options::default();
    assert!(matches!(
        on_copy_bytes(&ctx(&opts, 500), (4, 4), Ok(png_bytes(4, 4))),
        JobAction::ReadInput
    ));
}

#[test]
fn read_failures_name_their_cause() {
    let opts = Options::default();
    assert_eq!(
        failed_reason(on_copy_bytes(&ctx(&opts, 5), (1, 1), Err("denied".to_string()))),
        "I/O error for /d/a.png: denied"
    );
    assert_eq!(
        failed_reason(on_input(&ctx(&opts, 5), Err("gone".to_string()))),
        "read: gone"
    );
    assert!(failed_reason(on_input(&ctx(&opts, 5), Ok(b"junk".to_vec())))
        .starts_with("could not decode image: "));
}

#[test]
fn decoded_input_goes_to_the_search() {
    let opts = Options::default();
    match on_input(&ctx(&opts, 5000), Ok(png_bytes(6, 3))) {
        JobAction::Search {
            image,
            format,
            search_cap,
            allow_downscale,
            meta,
        } => {
            assert_eq!((image.width, image.height), (6, 3));
            assert_eq!(format, EncodeFormat::Jpeg { background: [255, 255, 255] });
            assert_eq!(search_cap, 1000);
            assert!(allow_downscale);
            assert!(meta.icc.is_none());
        }
        _ => panic!("expected a search"),
    }
}

#[test]
fn search_results_become_outcomes() {
    let opts = Options::default();
    let c = ctx(&opts, 5000);
    let jpeg = EncodeFormat::Jpeg { background: [255, 255, 255] };
    match on_search(&c, SourceMeta::default(), jpeg, 1000, true, (40, 30), Ok(None)) {
        JobAction::Done {
            output: None,
            outcome: Outcome::Unreachable { reason },
        } => assert_eq!(reason, "cap of 1000 bytes not reachable above 16px"),
        _ => panic!("unreachable"),
    }
    assert_eq!(
        failed_reason(on_search(
            &c,
            SourceMeta::default(),
            jpeg,
            1000,
            true,
            (40, 30),
            Err(EngineError::Encode("boom".to_string()))
        )),
        "could not encode image: boom"
    );
}

#[test]
fn a_found_encode_is_named_numbered_and_written() {
    let opts = Options {
        rename_pattern: Some("{name}-{seq:00}-{w}x{h}".to_string()),
        collision: CollisionPolicy::Suffix,
        ..Options::default()
    };
    let c = ctx(&opts, 5000);
    let found = Found {
        bytes: vec![1, 2, 3],
        quality: Some(42),
        width: 8,
        height: 6,
        downscaled: true,
    };
    let jpeg = EncodeFormat::Jpeg { background: [255, 255, 255] };
    let first = on_search(&c, SourceMeta::default(), jpeg, 1000, true, (16, 12), Ok(Some(found)));
    let JobAction::CheckExists { path, resolution } = first else {
        panic!("the first candidate is checked");
    };
    assert_eq!(path, "/d/a-03-8x6.jpg");
    assert!(!resolution.copying);
    let JobAction::CheckExists { path, resolution } = on_exists(&c, resolution, true) else {
        panic!("a taken name moves on to a numbered one");
    };
    assert_eq!(path, "/d/a-03-8x6-1.jpg");
    let JobAction::Write {
        path,
        bytes,
        success,
        copying,
    } = on_exists(&c, resolution, false)
    else {
        panic!("a free numbered name is written");
    };
    assert_eq!(path, "/d/a-03-8x6-1.jpg");
    assert_eq!(bytes, vec![1, 2, 3]);
    assert!(matches!(
        success,
        Outcome::Compressed {
            final_bytes: 3,
            quality: Some(42),
            width: 8,
            height: 6,
            downscaled: true
        }
    ));
    assert_eq!(
        failed_reason(on_written(path, success, copying, Err("disk full".to_string()))),
        "write: disk full"
    );
}

#[test]
fn skip_policy_skips_a_taken_name() {
    let opts = Options {
        collision: CollisionPolicy::Skip,
        ..Options::default()
    };
    let c = ctx(&opts, 5000);
    let found = Found {
        bytes: vec![9],
        quality: None,
        width: 1,
        height: 1,
        downscaled: false,
    };
    let JobAction::CheckExists { resolution, .. } =
        on_search(&c, SourceMeta::default(), EncodeFormat::Png, 1000, true, (1, 1), Ok(Some(found)))
    else {
        panic!("the first candidate is checked");
    };
    assert!(matches!(
        on_exists(&c, resolution, true),
        JobAction::Done {
            output: None,
            outcome: Outcome::SkippedCollision
        }
    ));
}

#[test]
fn a_failed_copy_write_is_an_io_error_on_the_output() {
    assert_eq!(
        failed_reason(on_written(
            "/o/x.jpg".to_string(),
            Outcome::SkippedUnderCap { bytes: 1 },
            true,
            Err("read-only".to_string())
        )),
        "I/O error for /o/x.jpg: read-only"
    );
}

#[test]
fn a_locked_size_is_reported_and_the_input_is_never_the_output() {
    // No suffix and the input's own extension: `a.png` would overwrite the input, so the first
    // candidate is the numbered name.
    let opts = Options {
        suffix: String::new(),
        ..Options::default()
    };
    let c = ctx(&opts, 5000);
    let found = Found {
        bytes: vec![7, 7],
        quality: None,
        width: 40,
        height: 30,
        downscaled: false,
    };
    let JobAction::CheckExists { path, resolution } =
        on_search(&c, SourceMeta::default(), EncodeFormat::Png, 1000, false, (40, 30), Ok(Some(found)))
    else {
        panic!("the first candidate is checked");
    };
    assert_eq!(path, "/d/a-1.png");
    assert!(matches!(
        resolution.success,
        Outcome::Compressed {
            final_bytes: 2,
            width: 40,
            height: 30,
            downscaled: false,
            ..
        }
    ));
}

#[test]
fn a_kept_profile_still_fits_the_cap() {
    let opts = Options {
        metadata: MetadataMode::KeepOrientationIcc,
        ..Options::default()
    };
    let jpeg = EncodeFormat::Jpeg { background: [255, 255, 255] };
    let img = Raster {
        width: 16,
        height: 16,
        has_alpha: false,
        pixels: [90u8, 140, 30].repeat(256),
    };
    let encoded = encode(&img, jpeg, Some(80)).unwrap();
    let icc = vec![7u8; 100];
    // The file's cap leaves exactly the profile's room (its length and 24 bytes) above the encode.
    let cap = encoded.len() as u64 + 124;
    let c = JobContext {
        cap,
        ..ctx(&opts, 5000)
    };
    let meta = SourceMeta {
        orientation: None,
        icc: Some(icc),
    };
    let found = Found {
        bytes: encoded.clone(),
        quality: Some(80),
        width: 16,
        height: 16,
        downscaled: false,
    };
    let JobAction::CheckExists { resolution, .. } =
        on_search(&c, meta, jpeg, cap - 124, true, (16, 16), Ok(Some(found)))
    else {
        panic!("the first candidate is checked");
    };
    let Outcome::Compressed { final_bytes, .. } = resolution.success else {
        panic!("compressed");
    };
    // The profile went in (one segment: 100 bytes and an 18-byte header) and the file fits.
    assert_eq!(final_bytes, encoded.len() as u64 + 118);
    assert!(final_bytes <= cap);
    assert_eq!(resolution.bytes.len() as u64, final_bytes);
}

fn noise(n: usize) -> Vec<u8> {
    let mut x: u32 = 0x1234_5678;
    (0..n)
        .map(|_| {
            x = x.wrapping_mul(1_664_525).wrapping_add(1_013_904_223);
            (x >> 24) as u8
        })
        .collect()
}

fn written_size(action: JobAction) -> u64 {
    let JobAction::CheckExists { resolution, .. } = action else {
        panic!("the first candidate is checked");
    };
    let Outcome::Compressed { final_bytes, .. } = resolution.success else {
        panic!("compressed");
    };
    assert_eq!(resolution.bytes.len() as u64, final_bytes);
    final_bytes
}

#[test]
fn a_profile_that_would_break_the_cap_is_left_out() {
    let opts = Options {
        metadata: MetadataMode::KeepAll,
        ..Options::default()
    };
    let img = Raster {
        width: 16,
        height: 16,
        has_alpha: false,
        pixels: [90u8, 140, 30].repeat(256),
    };
    let encoded = encode(&img, EncodeFormat::Png, None).unwrap();
    // An incompressible profile compresses to more than its length and 24 bytes.
    let cap = encoded.len() as u64 + 1000 + 24;
    let c = JobContext {
        cap,
        ..ctx(&opts, 5000)
    };
    let meta = SourceMeta {
        orientation: None,
        icc: Some(noise(1000)),
    };
    let found = Found {
        bytes: encoded.clone(),
        quality: None,
        width: 16,
        height: 16,
        downscaled: false,
    };
    let size = written_size(on_search(&c, meta, EncodeFormat::Png, cap - 1024, true, (16, 16), Ok(Some(found))));
    assert!(size <= cap);
    assert_eq!(size, encoded.len() as u64);
}

#[test]
fn a_profile_over_several_segments_still_fits() {
    let opts = Options {
        metadata: MetadataMode::StripGps,
        ..Options::default()
    };
    let jpeg = EncodeFormat::Jpeg { background: [255, 255, 255] };
    let img = Raster {
        width: 16,
        height: 16,
        has_alpha: false,
        pixels: [90u8, 140, 30].repeat(256),
    };
    let encoded = encode(&img, jpeg, Some(80)).unwrap();
    let reserve = 70_000 + 24 + 18;
    let cap = encoded.len() as u64 + reserve;
    assert_eq!(engine::batch::effective_cap(&opts, cap, Some(70_000), "jpg"), encoded.len() as u64);
    let c = JobContext {
        cap,
        ..ctx(&opts, 5000)
    };
    let meta = SourceMeta {
        orientation: None,
        icc: Some(noise(70_000)),
    };
    let found = Found {
        bytes: encoded.clone(),
        quality: Some(80),
        width: 16,
        height: 16,
        downscaled: false,
    };
    let size = written_size(on_search(&c, meta, jpeg, cap - reserve, true, (16, 16), Ok(Some(found))));
    // Two segments: the profile and two 18-byte headers.
    assert_eq!(size, encoded.len() as u64 + 70_000 + 36);
    assert!(size <= cap);
}

#[test]
fn a_stripped_re_encode_carries_no_exif() {
    let opts = Options::default();
    let c = ctx(&opts, 5000);
    let jpeg = EncodeFormat::Jpeg { background: [255, 255, 255] };
    let img = Raster {
        width: 16,
        height: 16,
        has_alpha: false,
        pixels: [90u8, 140, 30].repeat(256),
    };
    let encoded = encode(&img, jpeg, Some(80)).unwrap();
    let found = Found {
        bytes: encoded,
        quality: Some(80),
        width: 16,
        height: 16,
        downscaled: false,
    };
    let JobAction::CheckExists { resolution, .. } =
        on_search(&c, SourceMeta::default(), jpeg, 1000, true, (16, 16), Ok(Some(found)))
    else {
        panic!("the first candidate is checked");
    };
    let markers: Vec<u8> = img_parts::jpeg::Jpeg::from_bytes(img_parts::Bytes::from(resolution.bytes.clone()))
        .unwrap()
        .segments()
        .iter()
        .map(|s| s.marker())
        .collect();
    assert!(markers.iter().all(|m| [0xE0, 0xC0, 0xDB, 0xC4, 0xDA].contains(m)));
    assert_eq!(engine::read_source_meta(&resolution.bytes).orientation, None);
}
