use engine::watch::{check_watch_target, should_ingest, status_size, summarize, SettleTracker};
use engine::Outcome;

#[test]
fn rejects_non_images() {
    assert!(!should_ingest("/w/readme.txt", None, None));
}

#[test]
fn accepts_supported_images_case_insensitively() {
    assert!(should_ingest("/w/photo.JPG", None, None));
    assert!(should_ingest("/w/a.png", None, None));
}

#[test]
fn excludes_paths_inside_the_output_dir() {
    // Paths that could not be canonicalized are compared lexically.
    let out = "/w/out";
    assert!(!should_ingest("/w/out/a.jpg", Some(out), None));
    assert!(should_ingest("/w/a.jpg", Some(out), None));
}

#[test]
fn canonical_forms_decide_when_present() {
    // A symlinked watch path that resolves inside the output folder is excluded.
    let canon = Some(("/real/out/a.jpg".to_string(), "/real/out".to_string()));
    assert!(!should_ingest("/w/link/a.jpg", Some("/w/out"), canon));
    let canon = Some(("/real/in/a.jpg".to_string(), "/real/out".to_string()));
    assert!(should_ingest("/w/out/a.jpg", Some("/w/out"), canon));
}

#[test]
fn prefix_is_component_wise() {
    // `/w/output` is not inside `/w/out`.
    assert!(should_ingest("/w/output/a.jpg", Some("/w/out"), None));
}

#[test]
fn settle_tracker_needs_consecutive_stable_sizes() {
    let mut t = SettleTracker::new(3);
    assert!(!t.observe(100)); // streak 1
    assert!(!t.observe(100)); // streak 2
    assert!(t.observe(100)); // streak 3 -> settled
}

#[test]
fn settle_tracker_resets_on_change() {
    let mut t = SettleTracker::new(2);
    assert!(!t.observe(100)); // 1
    assert!(!t.observe(200)); // changed -> streak 1 again
    assert!(t.observe(200)); // 2 -> settled
}

#[test]
fn settle_tracker_ignores_zero_size() {
    let mut t = SettleTracker::new(1);
    assert!(!t.observe(0)); // empty file not settled
    assert!(t.observe(50)); // non-zero, required_stable 1 -> settled
}

#[test]
fn settle_tracker_stays_settled_while_stable() {
    let mut t = SettleTracker::new(2);
    assert!(!t.observe(7));
    assert!(t.observe(7));
    assert!(t.observe(7));
    assert!(!t.observe(0));
    assert!(!t.observe(7));
}

#[test]
fn settle_tracker_settles_exactly_when_the_latest_sizes_agree() {
    // Required 3: sizes 5, 9, 9, 9 settle only at the third 9; a zero breaks the run.
    let mut t = SettleTracker::new(3);
    assert!(!t.observe(5));
    assert!(!t.observe(9));
    assert!(!t.observe(9));
    assert!(t.observe(9));
    assert!(!t.observe(0));
    assert!(!t.observe(9));
    assert!(!t.observe(9));
    assert!(t.observe(9));
    // A required count of zero behaves as one.
    let mut once = SettleTracker::new(0);
    assert!(once.observe(4));
    assert!(!once.observe(0));
}

#[test]
fn a_watch_needs_a_folder_and_a_separate_output() {
    assert_eq!(
        check_watch_target("/w/file.jpg", false, &Some("/out".to_string()), None),
        Err("Not a folder: /w/file.jpg".to_string())
    );
    assert_eq!(
        check_watch_target("/w", true, &None, None),
        Err("Watch mode needs an output folder so results aren't re-ingested".to_string())
    );
    assert_eq!(
        check_watch_target("/w", true, &Some("/w/".to_string()), None),
        Err("The output folder must differ from the watched folder".to_string())
    );
    // Canonical forms decide when both resolved: a link to the watched folder is refused.
    assert_eq!(
        check_watch_target(
            "/w",
            true,
            &Some("/link".to_string()),
            Some(("/real/w".to_string(), "/real/w".to_string()))
        ),
        Err("The output folder must differ from the watched folder".to_string())
    );
    assert_eq!(
        check_watch_target("/w", true, &Some("/out".to_string()), None),
        Ok("/out".to_string())
    );
}

#[test]
fn watched_outcomes_are_summarized() {
    let compressed = Outcome::Compressed {
        final_bytes: 48_200,
        quality: Some(72),
        width: 1600,
        height: 1200,
        downscaled: true,
    };
    assert_eq!(status_size(&compressed), Some(48_200));
    assert_eq!(
        summarize(&compressed, "48 KB"),
        (true, "48 KB \u{2192} 1600\u{00d7}1200 q72 \u{2193}".to_string())
    );
    let lossless = Outcome::Compressed {
        final_bytes: 900,
        quality: None,
        width: 10,
        height: 20,
        downscaled: false,
    };
    assert_eq!(summarize(&lossless, "900 B"), (true, "900 B \u{2192} 10\u{00d7}20".to_string()));
    let under = Outcome::SkippedUnderCap { bytes: 1_500_000 };
    assert_eq!(status_size(&under), Some(1_500_000));
    assert_eq!(summarize(&under, "1.5 MB"), (true, "already under cap (1.5 MB)".to_string()));
    assert_eq!(status_size(&Outcome::SkippedCollision), None);
    assert_eq!(
        summarize(&Outcome::SkippedCollision, ""),
        (true, "skipped (output exists)".to_string())
    );
    let unreachable = Outcome::Unreachable {
        reason: "cap of 10 bytes not reachable above 16px".to_string(),
    };
    assert_eq!(
        summarize(&unreachable, ""),
        (false, "unreachable: cap of 10 bytes not reachable above 16px".to_string())
    );
    let failed = Outcome::Failed {
        reason: "read: gone".to_string(),
    };
    assert_eq!(summarize(&failed, ""), (false, "failed: read: gone".to_string()));
    assert_eq!(summarize(&Outcome::Cancelled, ""), (false, "cancelled".to_string()));
}
