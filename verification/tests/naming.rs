use engine::model::{CollisionPolicy, Options};
use engine::naming::{
    output_base_name, resolve_after_check, resolve_output_path, resolve_output_path_with_base,
    NameInfo, Resolved, ResolveStep,
};

/// Runs the resolution state machine against an in-memory set of existing paths; returns the
/// final answer and the paths that were checked, in order.
fn drive(first: ResolveStep, input: &str, opts: &Options, ext: &str, base: &str, existing: &[&str]) -> (Resolved, Vec<String>) {
    let mut step = first;
    let mut checked = Vec::new();
    loop {
        match step {
            ResolveStep::Done(r) => return (r, checked),
            ResolveStep::Check { path, attempt } => {
                let exists = existing.contains(&path.as_str());
                checked.push(path);
                step = resolve_after_check(input, opts, ext, base, attempt, exists);
            }
        }
    }
}

fn resolve(input: &str, opts: &Options, ext: &str, existing: &[&str]) -> (Resolved, Vec<String>) {
    let stem = std::path::Path::new(input)
        .file_stem()
        .map(|s| s.to_string_lossy().into_owned())
        .unwrap_or_else(|| "image".to_string());
    let base = format!("{stem}{}", opts.suffix);
    drive(resolve_output_path(input, opts, ext), input, opts, ext, &base, existing)
}

fn path_of(r: Resolved) -> String {
    match r {
        Resolved::Path(p) => p,
        Resolved::SkipCollision => panic!("unexpected skip"),
    }
}

#[test]
fn default_is_next_to_source_with_suffix() {
    let opts = Options {
        output_dir: None,
        suffix: "-compressed".to_string(),
        ..Options::default()
    };
    let (r, _) = resolve("/pics/photo.png", &opts, "jpg", &["/pics/photo.png"]);
    assert_eq!(path_of(r), "/pics/photo-compressed.jpg");
}

#[test]
fn output_dir_override_is_used() {
    let opts = Options {
        output_dir: Some("/out".to_string()),
        suffix: "-c".to_string(),
        ..Options::default()
    };
    let (r, _) = resolve("/src/a.tiff", &opts, "jpg", &["/src/a.tiff"]);
    assert_eq!(path_of(r), "/out/a-c.jpg");
}

#[test]
fn collision_policies_resolve_correctly() {
    let existing = ["/d/a.jpg", "/d/a-c.jpg"];
    let base = Options {
        output_dir: Some("/d".to_string()),
        suffix: "-c".to_string(),
        ..Options::default()
    };

    let suffixed = Options {
        collision: CollisionPolicy::Suffix,
        ..base.clone()
    };
    let (r, _) = resolve("/d/a.jpg", &suffixed, "jpg", &existing);
    assert_eq!(path_of(r), "/d/a-c-1.jpg");

    let overwrite = Options {
        collision: CollisionPolicy::Overwrite,
        ..base.clone()
    };
    let (r, _) = resolve("/d/a.jpg", &overwrite, "jpg", &existing);
    assert_eq!(path_of(r), "/d/a-c.jpg");

    let skip = Options {
        collision: CollisionPolicy::Skip,
        ..base
    };
    let (r, _) = resolve("/d/a.jpg", &skip, "jpg", &existing);
    assert!(matches!(r, Resolved::SkipCollision));
}

#[test]
fn numbered_candidates_are_checked_in_order() {
    let opts = Options {
        suffix: "-c".to_string(),
        ..Options::default()
    };
    let existing = ["/d/a-c.jpg", "/d/a-c-1.jpg", "/d/a-c-2.jpg"];
    let (r, checked) = resolve("/d/a.jpg", &opts, "jpg", &existing);
    assert_eq!(path_of(r), "/d/a-c-3.jpg");
    assert_eq!(checked, vec!["/d/a-c.jpg", "/d/a-c-1.jpg", "/d/a-c-2.jpg", "/d/a-c-3.jpg"]);
}

#[test]
fn the_source_is_never_the_target() {
    // An empty suffix, the same folder and the same extension would name the input itself.
    for policy in [CollisionPolicy::Overwrite, CollisionPolicy::Skip, CollisionPolicy::Suffix] {
        let opts = Options {
            suffix: String::new(),
            collision: policy,
            ..Options::default()
        };
        let (r, checked) = resolve("/d/a.jpg", &opts, "jpg", &["/d/a.jpg"]);
        assert_eq!(path_of(r), "/d/a-1.jpg");
        assert!(!checked.iter().any(|p| p == "/d/a.jpg"));
    }
}

#[test]
fn a_custom_base_name_is_used() {
    let opts = Options {
        output_dir: Some("/o".to_string()),
        ..Options::default()
    };
    let first = resolve_output_path_with_base("/i/x.png", &opts, "png", "renamed-001");
    let (r, _) = drive(first, "/i/x.png", &opts, "png", "renamed-001", &[]);
    assert_eq!(path_of(r), "/o/renamed-001.png");
}

#[test]
fn output_base_name_uses_the_pattern_or_the_suffix() {
    let info = NameInfo {
        seq: 7,
        width: 640,
        height: 480,
        date: "2024-05-01",
    };
    let plain = Options {
        suffix: "-small".to_string(),
        ..Options::default()
    };
    assert_eq!(output_base_name("/p/cat.jpg", &plain, &info), "cat-small");

    let patterned = Options {
        rename_pattern: Some("{name}_{w}x{h}_{seq:000}".to_string()),
        ..Options::default()
    };
    assert_eq!(output_base_name("/p/cat.jpg", &patterned, &info), "cat_640x480_007");

    let blank = Options {
        rename_pattern: Some("   ".to_string()),
        suffix: "-c".to_string(),
        ..Options::default()
    };
    assert_eq!(output_base_name("/p/cat.jpg", &blank, &info), "cat-c");

    let unicode_blank = Options {
        rename_pattern: Some("\t\u{3000}\u{a0}\n".to_string()),
        suffix: "-u".to_string(),
        ..Options::default()
    };
    assert_eq!(output_base_name("/p/cat.jpg", &unicode_blank, &info), "cat-u");
}
