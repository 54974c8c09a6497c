use engine::batch::{
    copy_as_is_eligible, effective_cap, resolve_format_with_alpha, unreachable_reason,
};
use engine::encode::EncodeFormat;
use engine::model::MetadataMode;
use engine::{is_supported, Anchor, BatchItem, Options, OutputFormat, ResizeMode, SUPPORTED_EXTENSIONS};

#[test]
fn is_supported_is_case_insensitive() {
    assert!(is_supported("a.JPG"));
    assert!(is_supported("b.png"));
    assert!(is_supported("c.WEBP"));
    assert!(!is_supported("d.txt"));
    assert!(!is_supported("noext"));
}

#[test]
fn every_listed_extension_is_supported() {
    for ext in SUPPORTED_EXTENSIONS {
        assert!(is_supported(&format!("/x/file.{ext}")));
        assert!(is_supported(&format!("/x/FILE.{}", ext.to_uppercase())));
    }
    assert!(!is_supported("/x/.jpg"));
    assert!(!is_supported("/x/archive.jpg.zip"));
}

#[test]
fn keep_picks_png_for_alpha_and_jpeg_otherwise() {
    let bg = [1, 2, 3];
    assert_eq!(
        resolve_format_with_alpha(OutputFormat::Keep, true, bg),
        EncodeFormat::Png
    );
    assert_eq!(
        resolve_format_with_alpha(OutputFormat::Keep, false, bg),
        EncodeFormat::Jpeg { background: bg }
    );
    assert_eq!(
        resolve_format_with_alpha(OutputFormat::Avif, true, bg),
        EncodeFormat::Avif
    );
    assert_eq!(
        resolve_format_with_alpha(OutputFormat::Jpeg, true, bg),
        EncodeFormat::Jpeg { background: bg }
    );
}

#[test]
fn copy_as_is_needs_the_option_a_nonempty_file_and_the_cap() {
    let opts = Options::default();
    assert!(copy_as_is_eligible(&opts, 100, 100));
    assert!(!copy_as_is_eligible(&opts, 101, 100));
    assert!(!copy_as_is_eligible(&opts, 0, 100));
    let off = Options {
        skip_if_under_cap: false,
        ..Options::default()
    };
    assert!(!copy_as_is_eligible(&off, 10, 100));
}

#[test]
fn effective_cap_reserves_room_for_a_kept_icc() {
    let strip = Options::default();
    assert_eq!(effective_cap(&strip, 1000, Some(100), "jpg"), 1000);
    let keep = Options {
        metadata: MetadataMode::KeepAll,
        ..Options::default()
    };
    assert_eq!(effective_cap(&keep, 1000, Some(100), "jpg"), 876);
    assert_eq!(effective_cap(&keep, 1000, Some(100), "png"), 876);
    assert_eq!(effective_cap(&keep, 1000, Some(100), "avif"), 1000);
    assert_eq!(effective_cap(&keep, 1000, None, "jpg"), 1000);
    assert_eq!(effective_cap(&keep, 50, Some(100), "jpg"), 0);
    // A profile that spills into a second JPEG segment needs that segment's header too.
    assert_eq!(effective_cap(&keep, 200_000, Some(70_000), "jpg"), 200_000 - 70_000 - 24 - 18);
    assert_eq!(effective_cap(&keep, 200_000, Some(70_000), "png"), 200_000 - 70_000 - 24);
    let converted = Options {
        metadata: MetadataMode::KeepAll,
        convert_srgb: true,
        ..Options::default()
    };
    assert_eq!(effective_cap(&converted, 1000, Some(100), "jpg"), 1000);
}

#[test]
fn unreachable_reason_names_the_limit() {
    let fit = Options::default();
    assert_eq!(
        unreachable_reason(&fit, 2048),
        "cap of 2048 bytes not reachable above 16px"
    );
    let exact = Options {
        resize: ResizeMode::Exact {
            width: 800,
            height: 600,
            anchor: Anchor::Center,
            allow_upscale: false,
        },
        ..Options::default()
    };
    assert_eq!(
        unreachable_reason(&exact, 10),
        "cap of 10 bytes not reachable at the locked 800\u{00d7}600 size"
    );
}

#[test]
fn a_per_item_cap_overrides_the_batch_cap() {
    let opts = Options::default();
    let plain = BatchItem::new("/a.jpg".to_string());
    assert_eq!(plain.effective_cap(&opts), 500 * 1024);
    let custom = BatchItem {
        path: "/b.jpg".to_string(),
        cap_override: Some(1234),
    };
    assert_eq!(custom.effective_cap(&opts), 1234);
}

#[test]
fn a_bare_path_becomes_an_item_held_to_the_batch_cap() {
    let item = BatchItem::from("/photos/c.png".to_string());
    assert_eq!(item.path, "/photos/c.png");
    assert_eq!(item.cap_override, None);
    let via_into: BatchItem = "/photos/d.jpg".to_string().into();
    assert_eq!(via_into.path, "/photos/d.jpg");
    assert_eq!(via_into.effective_cap(&Options::default()), 512_000);
}

#[test]
fn default_options_match_the_documented_defaults() {
    let o = Options::default();
    assert_eq!(o.cap_bytes, 512_000);
    assert_eq!(o.resize, ResizeMode::Fit { max_dimension: None });
    assert_eq!(o.output_format, OutputFormat::Jpeg);
    assert_eq!(o.suffix, "-compressed");
    assert_eq!((o.jpeg_quality_min, o.jpeg_quality_max), (10, 95));
    assert_eq!(o.min_long_edge, 16);
    assert_eq!(o.background, [255, 255, 255]);
    assert_eq!(o.metadata, MetadataMode::StripAll);
    assert!(o.skip_if_under_cap && o.strip_metadata && !o.convert_srgb);
    assert!(o.output_dir.is_none() && o.rename_pattern.is_none());
    assert_eq!(Anchor::default(), Anchor::Center);
}
